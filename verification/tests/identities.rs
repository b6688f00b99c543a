use steward_harness::identities::{
    authenticate, canonical_authority, google_identity, google_identity_for,
    seed_names_canonical_subject, user, Caller, ALICE_CANONICAL_USER, BOB_CANONICAL_USER,
};

#[test]
fn s1_provider_seed_uses_alices_canonical_hop1_subject() {
    let seed = format!(r#"{{ hop1Subject: "{ALICE_CANONICAL_USER}" }}"#);
    assert!(
        seed.contains(&format!(r#"hop1Subject: "{ALICE_CANONICAL_USER}""#))
            && seed_names_canonical_subject(&seed),
        "the S1 GitHub fixture must use the canonical HOP-1 subject, not Alice's mutable email"
    );
    assert!(!seed_names_canonical_subject(
        r#"{ hop1Subject: "alice@example.com" }"#
    ));
}

#[test]
fn s1_ephemeral_runtimes_use_the_same_canonical_authority_as_hop1() -> Result<(), String> {
    let alice = canonical_authority("alice@example.com")?;
    assert_eq!(alice["ownerUserId"], ALICE_CANONICAL_USER);
    assert_eq!(alice["actingUserId"], ALICE_CANONICAL_USER);
    let bob = canonical_authority("bob@example.org")?;
    assert_eq!(bob["ownerUserId"], BOB_CANONICAL_USER);
    assert_eq!(bob["actingUserId"], BOB_CANONICAL_USER);
    assert!(canonical_authority("unknown@example.org").is_err());
    Ok(())
}

#[test]
fn a_canonical_authority_is_versioned_and_has_no_other_members() {
    let alice = canonical_authority("alice@example.com").unwrap();
    assert_eq!(
        alice.to_string(),
        "{\"actingUserId\":\"usr_0123456789abcdef0123456789abcdef\",\
         \"ownerUserId\":\"usr_0123456789abcdef0123456789abcdef\",\
         \"schemaVersion\":\"steward/canonical-authority-binding/v1\"}"
    );
    assert_eq!(
        canonical_authority("unknown@example.org").err().unwrap(),
        "S1 fixture has no canonical authority for acting user unknown@example.org"
    );
}

#[test]
fn callers_sign_in_with_their_own_tokens() {
    assert_eq!(Caller::Alice.bearer_token(), "test-alice-session");
    assert_eq!(Caller::Bob.bearer_token(), "test-bob-session");
    assert_eq!(Caller::Admin.bearer_token(), "test-admin-session");
    let alice = authenticate(Caller::Alice.bearer_token()).unwrap();
    assert_eq!(alice.actor, "alice@example.com");
    assert_eq!(alice.member_roles, vec!["engineer".to_owned()]);
    assert_eq!(alice.canonical_user_id.as_deref(), Some(ALICE_CANONICAL_USER));
    assert!(!alice.is_admin);
    let bob = authenticate(Caller::Bob.bearer_token()).unwrap();
    assert_eq!(bob.actor, "bob@example.org");
    assert_eq!(bob.canonical_user_id.as_deref(), Some(BOB_CANONICAL_USER));
    let admin = authenticate(Caller::Admin.bearer_token()).unwrap();
    assert_eq!(admin.actor, "admin@example.com");
    assert!(admin.is_admin);
    assert!(admin.member_roles.is_empty());
    assert!(admin.canonical_user_id.is_none());
    assert!(!admin.can_bootstrap_steward_run_service_envelope);
    assert!(authenticate("test-mallory-session").is_none());
    assert!(authenticate("").is_none());
}

#[test]
fn a_member_has_the_role_of_an_engineer() {
    let carol = user("carol@example.net", "usr_00000000000000000000000000000000");
    assert_eq!(carol.actor, "carol@example.net");
    assert_eq!(carol.member_roles, vec!["engineer".to_owned()]);
    assert_eq!(
        carol.canonical_user_id.as_deref(),
        Some("usr_00000000000000000000000000000000")
    );
}

#[test]
fn runtimes_are_bound_to_whom_their_person_signs_in_as() {
    for caller in [Caller::Alice, Caller::Bob] {
        let person = authenticate(caller.bearer_token()).unwrap();
        let binding = canonical_authority(&person.actor).unwrap();
        assert_eq!(
            binding["actingUserId"].as_str(),
            person.canonical_user_id.as_deref()
        );
    }
}

#[test]
fn google_vouches_for_who_is_registered() {
    let claim = google_identity("subject-a", "alice@example.com");
    assert_eq!(claim.issuer, "https://accounts.google.com");
    assert_eq!(claim.hosted_domain, "example.com");
    assert_eq!(claim.organization_id, "org_example");
    assert_eq!(claim.subject, "subject-a");
    assert_eq!(claim.email, "alice@example.com");
    assert!(claim.email_is_verified);
    let other = google_identity_for("example.org", "org_other", "subject-b", "bob@example.org");
    assert_eq!(other.hosted_domain, "example.org");
    assert_eq!(other.organization_id, "org_other");
    assert_eq!(other.issuer, claim.issuer);
}
