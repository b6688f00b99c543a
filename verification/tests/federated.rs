use steward_harness::federated::{
    lifecycle_steps, lookalike, observation, verify_federated_subject_lifecycle, AuditAction,
    Lifecycle, LifecycleProgress, LifecycleReply, LifecycleStep, SubjectFault, SubjectRecord,
    SubjectRequest, SubjectState,
};
use steward_harness::identities::{ALICE_CANONICAL_USER, BOB_CANONICAL_USER};

fn record(id: u8, state: SubjectState, user: Option<&str>, revision: i64) -> SubjectRecord {
    SubjectRecord {
        subject_id: [id; 16],
        issuer: "https://identity.example.test".to_owned(),
        subject: format!("subject-{id}"),
        state,
        canonical_user_id: user.map(str::to_owned),
        revision,
    }
}

/// A store of subjects, as it has to be.
fn answer(step: LifecycleStep) -> LifecycleReply {
    let seeded = || record(1, SubjectState::Associated, Some(ALICE_CANONICAL_USER), 2);
    match step {
        LifecycleStep::ObserveTwice => LifecycleReply::Pair(
            record(1, SubjectState::Observed, None, 1),
            record(1, SubjectState::Observed, None, 1),
        ),
        LifecycleStep::AuditObserved => LifecycleReply::Audit(vec![AuditAction::Observed]),
        LifecycleStep::ResolveObserved => LifecycleReply::Fault(SubjectFault::Unassociated),
        LifecycleStep::SeedTwice => LifecycleReply::Pair(seeded(), seeded()),
        LifecycleStep::AuditSeeded => {
            LifecycleReply::Audit(vec![AuditAction::Observed, AuditAction::V2Seeded])
        }
        LifecycleStep::ResolveAssociated => LifecycleReply::Resolved {
            user_id: ALICE_CANONICAL_USER.to_owned(),
            display_email: "alice@example.com".to_owned(),
        },
        LifecycleStep::IntroduceBob => LifecycleReply::Accepted,
        LifecycleStep::GiveToBob { expected_revision } => LifecycleReply::Record(record(
            1,
            SubjectState::Associated,
            Some(BOB_CANONICAL_USER),
            expected_revision + 1,
        )),
        LifecycleStep::GiveToAlice { .. } => LifecycleReply::Fault(SubjectFault::Conflict),
        LifecycleStep::Disable { expected_revision } => LifecycleReply::Record(record(
            1,
            SubjectState::Disabled,
            Some(BOB_CANONICAL_USER),
            expected_revision + 1,
        )),
        LifecycleStep::ResolveDisabled => LifecycleReply::Fault(SubjectFault::Disabled),
        LifecycleStep::ObserveLookalike => {
            LifecycleReply::Record(record(2, SubjectState::Observed, None, 1))
        }
        LifecycleStep::ResolveLookalike => LifecycleReply::Fault(SubjectFault::Unassociated),
        LifecycleStep::TamperWithAudit => LifecycleReply::Refused,
    }
}

#[test]
fn a_subject_lives_through_every_step() {
    let steps = lifecycle_steps();
    assert_eq!(steps.len(), 14);
    for step in steps {
        assert!(verify_federated_subject_lifecycle(step, &answer(step)));
        assert_eq!(
            verify_federated_subject_lifecycle(step, &LifecycleReply::Accepted),
            step == LifecycleStep::IntroduceBob
        );
        assert!(!verify_federated_subject_lifecycle(
            step,
            &LifecycleReply::Fault(SubjectFault::Other)
        ));
    }
}

#[test]
fn simultaneous_requests_meet_one_subject() {
    assert!(!verify_federated_subject_lifecycle(
        LifecycleStep::ObserveTwice,
        &LifecycleReply::Pair(
            record(1, SubjectState::Observed, None, 1),
            record(2, SubjectState::Observed, None, 1),
        )
    ));
    assert!(!verify_federated_subject_lifecycle(
        LifecycleStep::SeedTwice,
        &LifecycleReply::Pair(
            record(1, SubjectState::Associated, Some(ALICE_CANONICAL_USER), 2),
            record(1, SubjectState::Associated, Some(ALICE_CANONICAL_USER), 3),
        )
    ));
    assert!(!verify_federated_subject_lifecycle(
        LifecycleStep::AuditObserved,
        &LifecycleReply::Audit(vec![AuditAction::Observed, AuditAction::Observed])
    ));
    assert!(!verify_federated_subject_lifecycle(
        LifecycleStep::AuditSeeded,
        &LifecycleReply::Audit(vec![AuditAction::V2Seeded, AuditAction::Observed])
    ));
}

#[test]
fn changes_are_made_on_the_latest_revision() {
    let steps = lifecycle_steps();
    assert_eq!(steps[7], LifecycleStep::GiveToBob { expected_revision: 2 });
    assert_eq!(steps[8], LifecycleStep::GiveToAlice { expected_revision: 2 });
    assert_eq!(steps[9], LifecycleStep::Disable { expected_revision: 3 });
    assert!(!verify_federated_subject_lifecycle(
        steps[7],
        &LifecycleReply::Record(record(
            1,
            SubjectState::Associated,
            Some(BOB_CANONICAL_USER),
            2
        ))
    ));
}

#[test]
fn looking_alike_associates_nobody() {
    let seen = observation();
    let other = lookalike();
    assert_eq!(seen.issuer, other.issuer);
    assert_eq!(seen.subject, "github-actions:actor:16106037");
    assert_eq!(other.subject, "github-actions:actor:27182818");
    assert_eq!(seen.actor_login.as_deref(), Some("alice-gh"));
    assert_eq!(seen.display_name.as_deref(), Some("Alice"));
    assert_eq!(other.actor_login.as_deref(), Some("alice"));
    assert_eq!(other.display_name.as_deref(), Some("alice@example.com"));
    assert!(!verify_federated_subject_lifecycle(
        LifecycleStep::ObserveLookalike,
        &LifecycleReply::Record(record(
            2,
            SubjectState::Observed,
            Some(ALICE_CANONICAL_USER),
            1
        ))
    ));
}

fn asked(progress: LifecycleProgress) -> SubjectRequest {
    match progress {
        LifecycleProgress::Asked(request) => request,
        LifecycleProgress::Lived => panic!("the life is over"),
        LifecycleProgress::Wrong(step) => panic!("{:?} went wrong", step),
    }
}

#[test]
fn one_subject_is_followed_through_its_life() {
    let (mut life, first) = Lifecycle::begin();
    assert!(matches!(first, SubjectRequest::ObserveTwice(_)));
    let steps = lifecycle_steps();
    let mut requests = Vec::new();
    for step in &steps[..steps.len() - 1] {
        requests.push(asked(life.advance(&answer(*step))));
    }
    assert!(matches!(
        life.advance(&answer(steps[steps.len() - 1])),
        LifecycleProgress::Lived
    ));
    assert!(matches!(&requests[0], SubjectRequest::Audit { subject_id } if *subject_id == [1; 16]));
    assert!(
        matches!(&requests[1], SubjectRequest::Resolve { subject, .. } if subject == "subject-1")
    );
    assert!(matches!(
        &requests[2],
        SubjectRequest::SeedTwice { user_id, actor, .. }
            if user_id == ALICE_CANONICAL_USER && actor == "steward-task-v2"
    ));
    assert!(matches!(
        &requests[5],
        SubjectRequest::InsertUser { user_id, organization_id, display_email }
            if user_id == BOB_CANONICAL_USER
                && organization_id == "org_example"
                && display_email == "bob@example.org"
    ));
    assert!(matches!(
        &requests[6],
        SubjectRequest::Replace { subject_id, expected_revision: 2, user_id, actor }
            if *subject_id == [1; 16]
                && user_id == BOB_CANONICAL_USER
                && actor == ALICE_CANONICAL_USER
    ));
    assert!(matches!(
        &requests[7],
        SubjectRequest::Replace { expected_revision: 2, user_id, .. }
            if user_id == ALICE_CANONICAL_USER
    ));
    assert!(matches!(
        &requests[8],
        SubjectRequest::Disable { subject_id, expected_revision: 3, reason, .. }
            if *subject_id == [1; 16] && reason == "access revoked"
    ));
    assert!(matches!(
        &requests[10],
        SubjectRequest::Observe(seen) if seen.subject == "github-actions:actor:27182818"
    ));
    assert!(
        matches!(&requests[11], SubjectRequest::Resolve { subject, .. } if subject == "subject-2")
    );
    assert!(
        matches!(&requests[12], SubjectRequest::Tamper { subject_id } if *subject_id == [1; 16])
    );
}

#[test]
fn a_wrong_reply_leads_nowhere() {
    let (mut life, _) = Lifecycle::begin();
    assert!(matches!(
        life.advance(&LifecycleReply::Refused),
        LifecycleProgress::Wrong(LifecycleStep::ObserveTwice)
    ));
    assert_eq!(life.taken, 0);
    assert!(life.first.is_none());
}
