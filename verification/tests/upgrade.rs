use steward_harness::task_store::stand_in;
use steward_harness::upgrade::{
    approved_envelope, assert_v02_upgrade_result, migration_set, numbered,
    seed_v0123_upgrade_fixture, upgrade_row, upgrade_runtime_spec, LegacyAuthority, UpgradedTask,
};

#[test]
fn migrations_run_up_to_a_version() {
    let versions = vec![1, 5, 3, 9];
    assert_eq!(migration_set(&versions, Some(3)), vec![0, 2]);
    assert_eq!(migration_set(&versions, Some(5)), vec![0, 1, 2]);
    assert_eq!(migration_set(&versions, None), vec![0, 1, 2, 3]);
    assert!(migration_set(&versions, Some(0)).is_empty());
    assert!(migration_set(&Vec::new(), None).is_empty());
}

#[test]
fn identifiers_end_in_their_number() {
    assert_eq!(numbered(7), "00000000-0000-0000-0000-000000000007");
    assert_eq!(numbered(0), "00000000-0000-0000-0000-000000000000");
    assert_eq!(
        numbered(1_234_567_890_123),
        "00000000-0000-0000-0000-1234567890123"
    );
}

#[test]
fn only_legacy_rows_lack_an_authority() {
    for authority in [
        LegacyAuthority::Legacy,
        LegacyAuthority::User,
        LegacyAuthority::Internal,
    ] {
        let row = upgrade_row(9, "k", "w", false, authority);
        let user = authority == LegacyAuthority::User;
        let internal = authority == LegacyAuthority::Internal;
        assert_eq!(row.user_envelope_digest, if user { Some(stand_in("b")) } else { None });
        assert_eq!(row.user_envelope_revision, user.then_some(7));
        assert_eq!(row.workflow_digest, if user { Some(stand_in("e")) } else { None });
        assert_eq!(row.execution_is_bound, user);
        assert_eq!(row.internal_authority_digest, if internal { Some(stand_in("d")) } else { None });
        assert_eq!(row.internal_authority_version, internal.then_some(1));
    }
}

#[test]
fn the_earlier_release_has_tasks_of_every_kind() {
    let rows = seed_v0123_upgrade_fixture();
    assert_eq!(rows.len(), 4);
    assert_eq!(rows[0].task_uid, "00000000-0000-0000-0000-000000000001");
    assert_eq!(rows[0].operation_id, "00000000-0000-0000-0000-000000001001");
    assert_eq!(rows[0].idempotency_key, "legacy-unfinished");
    assert_eq!(rows[0].workflow, "legacy-smoke");
    assert_eq!(rows[0].runtime_name, "task-1");
    assert_eq!(rows[0].phase, "submitted");
    assert_eq!(rows[1].workflow_name.as_deref(), Some("release-summary"));
    assert_eq!(
        rows[2].internal_authority_id.as_deref(),
        Some("connections.github.status")
    );
    assert_eq!(rows[3].phase, "succeeded");
    assert!(rows[3].finalized);
    assert_eq!(rows[3].candidate_digest, stand_in("f"));
    assert_eq!(rows[3].service_envelope_digest, stand_in("c"));
}

#[test]
fn the_approved_envelope_is_written() {
    assert_eq!(
        approved_envelope().to_string(),
        "{\"revision\":7,\"spec\":{\"budget\":{\"currency\":\"USD\",\"monthlyLimit\":\"100.00\"},\
         \"llms\":[{\"model\":\"model-a\",\"provider\":\"provider-a\"}],\
         \"runner\":{\"architectures\":[],\"platforms\":[\"linux\"]},\"tools\":[],\"ttl\":\"24h\"}}"
    );
    assert_eq!(
        upgrade_runtime_spec().to_string(),
        "{\"canonicalAuthority\":{\"actingUserId\":\"usr_0123456789abcdef0123456789abcdef\",\
         \"ownerUserId\":\"usr_0123456789abcdef0123456789abcdef\",\
         \"schemaVersion\":\"steward/canonical-authority-binding/v1\"}}"
    );
}

fn task(kind: &str, snapshot: Option<serde_json::Value>) -> UpgradedTask {
    UpgradedTask {
        orchestration_version: 3,
        authority_kind: Some(kind.to_owned()),
        user_envelope_snapshot: snapshot,
        service_envelope_digest: None,
    }
}

#[test]
fn the_upgrade_keeps_its_promise() {
    let user = || task("user-envelope", Some(approved_envelope()));
    let internal = || task("internal", None);
    assert!(assert_v02_upgrade_result(&user(), &internal(), 2, &None, true));
    assert!(!assert_v02_upgrade_result(&user(), &internal(), 3, &None, true));
    assert!(!assert_v02_upgrade_result(&user(), &internal(), 2, &None, false));
    assert!(!assert_v02_upgrade_result(
        &user(),
        &internal(),
        2,
        &Some("internal".to_owned()),
        true
    ));
    assert!(!assert_v02_upgrade_result(&internal(), &internal(), 2, &None, true));
    assert!(!assert_v02_upgrade_result(&user(), &user(), 2, &None, true));
    let unpinned = task("user-envelope", serde_json::from_str("{\"revision\":8}").ok());
    assert!(!assert_v02_upgrade_result(&unpinned, &internal(), 2, &None, true));
    let mut kept = user();
    kept.service_envelope_digest = Some(stand_in("c"));
    assert!(!assert_v02_upgrade_result(&kept, &internal(), 2, &None, true));
    let mut old = internal();
    old.orchestration_version = 2;
    assert!(!assert_v02_upgrade_result(&user(), &old, 2, &None, true));
}
