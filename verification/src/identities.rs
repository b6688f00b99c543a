//! The people of the test organization: who they are to Steward and how they sign in.
use crate::json::{json_tree, member_tree, object, put, text, JsonTree};
use crate::text::{concat2, concat3, contains_text, has_text, same_text};
use vstd::prelude::*;

verus! {

/// Alice to Steward, whatever mail address Alice has.
pub const ALICE_CANONICAL_USER: &'static str = "usr_0123456789abcdef0123456789abcdef";

/// Bob to Steward, whatever mail address Bob has.
pub const BOB_CANONICAL_USER: &'static str = "usr_abcdef0123456789abcdef0123456789";

/// Who calls Steward.
#[derive(PartialEq, Eq, Structural, Clone, Copy)]
pub enum Caller {
    Alice,
    Bob,
    Admin,
}

/// The token of a caller's session.
pub open spec fn session_token(caller: Caller) -> Seq<char> {
    match caller {
        Caller::Alice => "test-alice-session"@,
        Caller::Bob => "test-bob-session"@,
        Caller::Admin => "test-admin-session"@,
    }
}

impl Caller {
    /// The token of the caller's session.
    pub fn bearer_token(self) -> (token: &'static str)
        ensures
            token@ == session_token(self),
    {
        match self {
            Caller::Alice => "test-alice-session",
            Caller::Bob => "test-bob-session",
            Caller::Admin => "test-admin-session",
        }
    }
}

/// Who a caller turned out to be.
pub struct AuthenticatedCaller {
    pub actor: String,
    pub member_roles: Vec<String>,
    pub canonical_user_id: Option<String>,
    pub is_admin: bool,
    pub can_bootstrap_steward_run_service_envelope: bool,
}

#[verifier::ext_equal]
pub ghost struct AuthenticatedCallerView {
    pub actor: Seq<char>,
    pub member_roles: Seq<Seq<char>>,
    pub canonical_user_id: Option<Seq<char>>,
    pub is_admin: bool,
    pub can_bootstrap_steward_run_service_envelope: bool,
}

impl View for AuthenticatedCaller {
    type V = AuthenticatedCallerView;

    open spec fn view(&self) -> AuthenticatedCallerView {
        AuthenticatedCallerView {
            actor: self.actor@,
            member_roles: crate::text::views(self.member_roles@),
            canonical_user_id: crate::runtimes::option_text(self.canonical_user_id),
            is_admin: self.is_admin,
            can_bootstrap_steward_run_service_envelope:
                self.can_bootstrap_steward_run_service_envelope,
        }
    }
}

/// A member of the organization who is no administrator.
pub open spec fn member_view(actor: Seq<char>, canonical_user_id: Seq<char>)
    -> AuthenticatedCallerView {
    AuthenticatedCallerView {
        actor,
        member_roles: seq!["engineer"@],
        canonical_user_id: Some(canonical_user_id),
        is_admin: false,
        can_bootstrap_steward_run_service_envelope: false,
    }
}

/// The administrator, who is no member and has no canonical user.
pub open spec fn admin_view() -> AuthenticatedCallerView {
    AuthenticatedCallerView {
        actor: "admin@example.com"@,
        member_roles: Seq::empty(),
        canonical_user_id: None,
        is_admin: true,
        can_bootstrap_steward_run_service_envelope: false,
    }
}

/// Whom a token belongs to; nobody where it is the token of no session.
pub open spec fn bearer(token: Seq<char>) -> Option<AuthenticatedCallerView> {
    if token == session_token(Caller::Alice) {
        Some(member_view("alice@example.com"@, ALICE_CANONICAL_USER@))
    } else if token == session_token(Caller::Bob) {
        Some(member_view("bob@example.org"@, BOB_CANONICAL_USER@))
    } else if token == session_token(Caller::Admin) {
        Some(admin_view())
    } else {
        None
    }
}

/// A member of the organization who is no administrator.
pub fn user(actor: &str, canonical_user_id: &str) -> (caller: AuthenticatedCaller)
    ensures
        caller@ == member_view(actor@, canonical_user_id@),
{
    let caller = AuthenticatedCaller {
        actor: actor.to_owned(),
        member_roles: vec!["engineer".to_owned()],
        canonical_user_id: Some(canonical_user_id.to_owned()),
        is_admin: false,
        can_bootstrap_steward_run_service_envelope: false,
    };
    assert(caller@.member_roles =~= seq!["engineer"@]);
    caller
}

/// Whom a token belongs to; nobody where the credentials are invalid.
pub fn authenticate(bearer_token: &str) -> (caller: Option<AuthenticatedCaller>)
    ensures
        match caller {
            Some(found) => bearer(bearer_token@) == Some(found@),
            None => bearer(bearer_token@) is None,
        },
{
    if same_text(bearer_token, "test-alice-session") {
        Some(user("alice@example.com", ALICE_CANONICAL_USER))
    } else if same_text(bearer_token, "test-bob-session") {
        Some(user("bob@example.org", BOB_CANONICAL_USER))
    } else if same_text(bearer_token, "test-admin-session") {
        let admin = AuthenticatedCaller {
            actor: "admin@example.com".to_owned(),
            member_roles: Vec::new(),
            canonical_user_id: None,
            is_admin: true,
            can_bootstrap_steward_run_service_envelope: false,
        };
        assert(admin@.member_roles =~= Seq::empty());
        Some(admin)
    } else {
        None
    }
}

/// Every caller signs in with the token of the own session, and only the administrator becomes
/// an administrator by it.
pub proof fn law_callers_sign_in_as_themselves(caller: Caller)
    ensures
        bearer(session_token(caller)) is Some,
        bearer(session_token(caller))->Some_0.is_admin <==> caller == Caller::Admin,
        bearer(session_token(caller))->Some_0.actor == (match caller {
            Caller::Alice => "alice@example.com"@,
            Caller::Bob => "bob@example.org"@,
            Caller::Admin => "admin@example.com"@,
        }),
{
    reveal_strlit("test-alice-session");
    reveal_strlit("test-bob-session");
    reveal_strlit("test-admin-session");
    assert("test-alice-session"@[5] != "test-bob-session"@[5]);
    assert("test-alice-session"@[6] != "test-admin-session"@[6]);
    assert("test-bob-session"@[5] != "test-admin-session"@[5]);
}

/// The canonical user behind a mail address.
pub open spec fn canonical_user(acting_user: Seq<char>) -> Option<Seq<char>> {
    if acting_user == "alice@example.com"@ {
        Some(ALICE_CANONICAL_USER@)
    } else if acting_user == "bob@example.org"@ {
        Some(BOB_CANONICAL_USER@)
    } else {
        None
    }
}

/// The binding of a runtime to one canonical user, who owns it and acts by it.
pub open spec fn authority_tree(user: Seq<char>) -> JsonTree {
    JsonTree::Object(
        Map::empty().insert(
            "schemaVersion"@,
            JsonTree::Text("steward/canonical-authority-binding/v1"@),
        ).insert("ownerUserId"@, JsonTree::Text(user)).insert("actingUserId"@, JsonTree::Text(user)),
    )
}

/// Binds a runtime to the canonical user behind a mail address.
pub fn canonical_authority(acting_user: &str) -> (binding: Result<serde_json::Value, String>)
    ensures
        match canonical_user(acting_user@) {
            Some(user) => binding matches Ok(value) && json_tree(value) == authority_tree(user),
            None => binding matches Err(words) && words@
                == "S1 fixture has no canonical authority for acting user "@ + acting_user@,
        },
{
    let user = if same_text(acting_user, "alice@example.com") {
        ALICE_CANONICAL_USER
    } else if same_text(acting_user, "bob@example.org") {
        BOB_CANONICAL_USER
    } else {
        return Err(
            concat2("S1 fixture has no canonical authority for acting user ", acting_user),
        );
    };
    let mut binding = object();
    put(&mut binding, "schemaVersion", text("steward/canonical-authority-binding/v1"));
    put(&mut binding, "ownerUserId", text(user));
    put(&mut binding, "actingUserId", text(user));
    Ok(binding)
}

/// A runtime of a person is bound to the canonical user that the person signs in as.
pub proof fn law_runtimes_are_bound_to_who_signs_in(caller: Caller)
    requires
        caller != Caller::Admin,
    ensures
        bearer(session_token(caller)) is Some,
        canonical_user(bearer(session_token(caller))->Some_0.actor) == bearer(
            session_token(caller),
        )->Some_0.canonical_user_id,
        canonical_user(bearer(session_token(caller))->Some_0.actor) is Some,
{
    law_callers_sign_in_as_themselves(caller);
    reveal_strlit("test-alice-session");
    reveal_strlit("test-bob-session");
    reveal_strlit("alice@example.com");
    reveal_strlit("bob@example.org");
    assert("alice@example.com"@[0] != "bob@example.org"@[0]);
    assert("test-alice-session"@[5] != "test-bob-session"@[5]);
}

/// Whether the seed of the tool gateway names Alice by the canonical user.
pub fn seed_names_canonical_subject(seed: &str) -> (names: bool)
    ensures
        names == has_text(seed@, "hop1Subject: \""@ + ALICE_CANONICAL_USER@ + "\""@),
{
    let wanted = concat3("hop1Subject: \"", ALICE_CANONICAL_USER, "\"");
    contains_text(seed, wanted.as_str())
}

/// What somebody shows an organization to be registered: who vouches for them, where they belong
/// and as whom they are known.
pub struct OrganizationClaim {
    pub issuer: String,
    pub hosted_domain: String,
    pub organization_id: String,
    pub subject: String,
    pub email: String,
    pub email_is_verified: bool,
}

pub ghost struct OrganizationClaimView {
    pub issuer: Seq<char>,
    pub hosted_domain: Seq<char>,
    pub organization_id: Seq<char>,
    pub subject: Seq<char>,
    pub email: Seq<char>,
    pub email_is_verified: bool,
}

impl View for OrganizationClaim {
    type V = OrganizationClaimView;

    open spec fn view(&self) -> OrganizationClaimView {
        OrganizationClaimView {
            issuer: self.issuer@,
            hosted_domain: self.hosted_domain@,
            organization_id: self.organization_id@,
            subject: self.subject@,
            email: self.email@,
            email_is_verified: self.email_is_verified,
        }
    }
}

/// What Google vouches for.
pub open spec fn google_claim(
    hosted_domain: Seq<char>,
    organization_id: Seq<char>,
    subject: Seq<char>,
    email: Seq<char>,
) -> OrganizationClaimView {
    OrganizationClaimView {
        issuer: "https://accounts.google.com"@,
        hosted_domain,
        organization_id,
        subject,
        email,
        email_is_verified: true,
    }
}

/// What somebody whom Google vouches for shows an organization.
pub fn google_identity_for(
    hosted_domain: &str,
    organization_id: &str,
    subject: &str,
    email: &str,
) -> (claim: OrganizationClaim)
    ensures
        claim@ == google_claim(hosted_domain@, organization_id@, subject@, email@),
{
    OrganizationClaim {
        issuer: "https://accounts.google.com".to_owned(),
        hosted_domain: hosted_domain.to_owned(),
        organization_id: organization_id.to_owned(),
        subject: subject.to_owned(),
        email: email.to_owned(),
        email_is_verified: true,
    }
}

/// What somebody whom Google vouches for shows the test organization.
pub fn google_identity(subject: &str, email: &str) -> (claim: OrganizationClaim)
    ensures
        claim@ == google_claim("example.com"@, "org_example"@, subject@, email@),
{
    google_identity_for("example.com", "org_example", subject, email)
}

/// A token is that of a session or of nobody: there are three sessions, each is that of one person,
/// the administrator is the only one who is no member and has no canonical user, and nobody may set
/// up the envelope of the service.
pub proof fn law_tokens_belong_to_one_person_or_nobody(token: Seq<char>)
    ensures
        bearer(token) is Some <==> token == "test-alice-session"@ || token == "test-bob-session"@
            || token == "test-admin-session"@,
        bearer(token) matches Some(caller) ==> {
            &&& caller.is_admin <==> token == "test-admin-session"@
            &&& caller.is_admin <==> caller.canonical_user_id is None
            &&& caller.member_roles == (if caller.is_admin {
                Seq::empty()
            } else {
                seq!["engineer"@]
            })
            &&& !caller.can_bootstrap_steward_run_service_envelope
            &&& token == "test-alice-session"@ ==> caller.actor == "alice@example.com"@
                && caller.canonical_user_id == Some("usr_0123456789abcdef0123456789abcdef"@)
            &&& token == "test-bob-session"@ ==> caller.actor == "bob@example.org"@
                && caller.canonical_user_id == Some("usr_abcdef0123456789abcdef0123456789"@)
            &&& token == "test-admin-session"@ ==> caller.actor == "admin@example.com"@
        },
{
    reveal_strlit("test-alice-session");
    reveal_strlit("test-bob-session");
    reveal_strlit("test-admin-session");
    assert("test-alice-session"@[5] != "test-bob-session"@[5]);
    assert("test-alice-session"@[6] != "test-admin-session"@[6]);
    assert("test-bob-session"@[5] != "test-admin-session"@[5]);
}

/// Only the two members have a canonical user, each one of their own, and a binding names one user as
/// owner and as who acts.
pub proof fn law_bindings_name_one_user(acting_user: Seq<char>, user: Seq<char>)
    ensures
        canonical_user(acting_user) is Some <==> acting_user == "alice@example.com"@ || acting_user
            == "bob@example.org"@,
        canonical_user("alice@example.com"@) == Some("usr_0123456789abcdef0123456789abcdef"@),
        canonical_user("bob@example.org"@) == Some("usr_abcdef0123456789abcdef0123456789"@),
        canonical_user("alice@example.com"@) != canonical_user("bob@example.org"@),
        member_tree(authority_tree(user), "ownerUserId"@) == Some(JsonTree::Text(user)),
        member_tree(authority_tree(user), "actingUserId"@) == Some(JsonTree::Text(user)),
        member_tree(authority_tree(user), "schemaVersion"@) == Some(
            JsonTree::Text("steward/canonical-authority-binding/v1"@),
        ),
{
    reveal_strlit("alice@example.com");
    reveal_strlit("bob@example.org");
    assert("alice@example.com"@[0] != "bob@example.org"@[0]);
    reveal_strlit("usr_0123456789abcdef0123456789abcdef");
    reveal_strlit("usr_abcdef0123456789abcdef0123456789");
    assert("usr_0123456789abcdef0123456789abcdef"@[4] != "usr_abcdef0123456789abcdef0123456789"@[4]);
    reveal_strlit("ownerUserId");
    reveal_strlit("actingUserId");
    reveal_strlit("schemaVersion");
    assert("ownerUserId"@.len() == 11 && "actingUserId"@.len() == 12 && "schemaVersion"@.len()
        == 13);
}

/// Google vouches for the subject and the verified address of somebody, in the domain and the
/// organization that are asked for.
pub proof fn law_google_vouches_for_who_is_named(
    hosted_domain: Seq<char>,
    organization_id: Seq<char>,
    subject: Seq<char>,
    email: Seq<char>,
)
    ensures
        ({
            let claim = google_claim(hosted_domain, organization_id, subject, email);
            &&& claim.issuer == "https://accounts.google.com"@
            &&& claim.hosted_domain == hosted_domain
            &&& claim.organization_id == organization_id
            &&& claim.subject == subject
            &&& claim.email == email
            &&& claim.email_is_verified
        }),
{
}

} // verus!
