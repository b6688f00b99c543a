use steward_harness::envelopes::{base_spec, envelope, AdmissionDecision};
use steward_harness::store_run::{
    reserve_task_at_cleanup_entry_state, Progress, StoreReply, StoreRequest, StoreRun,
};
use steward_harness::task_store::{
    stand_in, ActiveDirectTaskFixture, ApprovalDelivery, CleanupEntryState, StoreFault, Uuid,
};

const TASK: Uuid = [1; 16];
const OPERATION: Uuid = [2; 16];
const APPROVAL: Uuid = [3; 16];
const EFFECT: Uuid = [4; 16];

fn start(state: CleanupEntryState) -> (StoreRun, StoreRequest) {
    match reserve_task_at_cleanup_entry_state(
        TASK,
        OPERATION,
        "service",
        "usr_a",
        &envelope("250.00", 3),
        &base_spec(),
        Ok(AdmissionDecision::Admit),
        state,
        "x",
    ) {
        Ok(started) => started,
        Err(words) => panic!("{}", words),
    }
}

fn delivery(approval_id: Uuid, task_uid: Uuid) -> ApprovalDelivery {
    ApprovalDelivery {
        effect_id: EFFECT,
        generation: 7,
        approval_id,
        task_uid,
    }
}

fn reply(approval_id: Option<Uuid>, delivery: Option<ApprovalDelivery>) -> StoreReply {
    StoreReply {
        applied: true,
        approval_id,
        delivery,
    }
}

fn good_reply() -> StoreReply {
    reply(Some(APPROVAL), Some(delivery(APPROVAL, TASK)))
}

/// The requests behind the first one, and the Task that the run ends with.
fn run_to_its_end(mut run: StoreRun) -> (Vec<StoreRequest>, Uuid) {
    let mut requests = Vec::new();
    loop {
        match run.advance(Ok(good_reply())) {
            Progress::Asked(request) => requests.push(request),
            Progress::Reached { task_uid } => return (requests, task_uid),
            Progress::Refused(fault) => panic!("{:?}", fault),
            Progress::Failed(words) => panic!("{}", words),
        }
    }
}

#[test]
fn a_reserved_task_is_where_it_is_to_be() {
    let (run, first) = start(CleanupEntryState::IntentRecorded);
    match first {
        StoreRequest::ReserveTask(request) => {
            assert_eq!(request.idempotency_key, "cleanup-IntentRecorded-x");
            assert_eq!(request.task_uid, TASK);
        }
        _ => panic!("a Task is reserved first"),
    }
    let (requests, task_uid) = run_to_its_end(run);
    assert!(requests.is_empty());
    assert_eq!(task_uid, TASK);
    for (state, behind_the_first) in [
        (CleanupEntryState::RuntimeCreatePending, 1),
        (CleanupEntryState::RuntimeObserved, 2),
        (CleanupEntryState::ApprovalPending, 3),
        (CleanupEntryState::ApprovalClaimed, 6),
        (CleanupEntryState::ApprovalActive, 11),
        (CleanupEntryState::ActivationPending, 3),
        (CleanupEntryState::Active, 5),
    ] {
        let (run, _) = start(state);
        assert_eq!(run_to_its_end(run).0.len(), behind_the_first);
    }
}

#[test]
fn an_approved_task_is_asked_for_step_by_step() {
    let (run, _) = start(CleanupEntryState::ApprovalActive);
    let (requests, _) = run_to_its_end(run);
    let runtime = "runtime-02020202-0202-0202-0202-020202020202";
    assert!(matches!(
        &requests[0],
        StoreRequest::AuthorizeRuntimeCreation { task_uid, generation: 1, actor }
            if *task_uid == TASK && actor == "controller-a"
    ));
    assert!(matches!(
        &requests[1],
        StoreRequest::RecordRuntimeObserved { generation: 2, runtime_uid, resource_version, .. }
            if runtime_uid == runtime && resource_version == "resource-version-a"
    ));
    assert!(matches!(
        &requests[2],
        StoreRequest::DecideRuntimeAuthority { generation: 3, authority, envelope_digest, .. }
            if authority.revision == 3 && *envelope_digest == stand_in("2")
    ));
    assert!(matches!(
        &requests[3],
        StoreRequest::FindApproval { task_uid } if *task_uid == TASK
    ));
    assert!(matches!(
        &requests[4],
        StoreRequest::PrioritizeDelivery { approval_id } if *approval_id == APPROVAL
    ));
    assert!(matches!(
        &requests[5],
        StoreRequest::ClaimDelivery { worker, seconds: 30 } if worker == "cleanup-matrix"
    ));
    assert!(matches!(
        &requests[6],
        StoreRequest::CompleteDelivery { effect_id, generation: 7, worker, issue_key, issue_url }
            if *effect_id == EFFECT
                && worker == "cleanup-matrix"
                && issue_key == "PROJ-456"
                && issue_url == "https://jira.example.com/browse/PROJ-456"
    ));
    assert!(matches!(
        &requests[7],
        StoreRequest::ApproveAdmission { approval_id, decided_by, rationale, evidence_url, expires_at }
            if *approval_id == APPROVAL
                && decided_by == "admin@example.com"
                && rationale == "cleanup matrix approval"
                && evidence_url == "https://jira.example.com/browse/PROJ-456"
                && expires_at == "2999-01-01T00:00:00Z"
    ));
    assert!(matches!(
        &requests[8],
        StoreRequest::AuthorizeActivationFromApproval { generation: 4, .. }
    ));
    assert!(matches!(
        &requests[9],
        StoreRequest::DecideRuntimeAuthority { generation: 5, .. }
    ));
    assert!(matches!(
        &requests[10],
        StoreRequest::RecordActivationObserved { generation: 6, observation, .. }
            if observation.runtime_uid == runtime
                && observation.resource_version == "resource-version-active"
                && observation.active_manifest_digest == stand_in("1")
    ));
}

fn claiming(state: CleanupEntryState) -> StoreRun {
    let (mut run, _) = start(state);
    while run.taken < 6 {
        assert!(matches!(
            run.advance(Ok(reply(Some(APPROVAL), None))),
            Progress::Asked(_)
        ));
    }
    run
}

#[test]
fn only_the_awaited_approval_is_decided() {
    let (mut run, _) = start(CleanupEntryState::ApprovalClaimed);
    while run.taken < 4 {
        assert!(matches!(run.advance(Ok(good_reply())), Progress::Asked(_)));
    }
    assert!(matches!(
        run.advance(Ok(reply(None, None))),
        Progress::Refused(StoreFault::ApprovalNotFound)
    ));
    assert_eq!(run.taken, 4);
    for state in [
        CleanupEntryState::ApprovalClaimed,
        CleanupEntryState::ApprovalActive,
    ] {
        for claimed in [None, Some(delivery([9; 16], TASK))] {
            let mut run = claiming(state);
            assert!(matches!(
                run.advance(Ok(reply(None, claimed))),
                Progress::Refused(StoreFault::ApprovalNotFound)
            ));
            assert!(run.delivery.is_none());
        }
    }
    assert!(matches!(
        claiming(CleanupEntryState::ApprovalActive)
            .advance(Ok(reply(None, Some(delivery(APPROVAL, TASK))))),
        Progress::Asked(StoreRequest::CompleteDelivery { .. })
    ));
}

#[test]
fn the_task_of_a_delivery_counts_where_the_claim_is_the_end() {
    let foreign = || Ok(reply(None, Some(delivery(APPROVAL, [9; 16]))));
    let mut run = claiming(CleanupEntryState::ApprovalClaimed);
    assert!(matches!(
        run.advance(foreign()),
        Progress::Refused(StoreFault::ForeignDelivery)
    ));
    assert!(run.delivery.is_none());
    let mut run = claiming(CleanupEntryState::ApprovalClaimed);
    assert!(matches!(
        run.advance(Ok(reply(None, Some(delivery(APPROVAL, TASK))))),
        Progress::Reached { task_uid: TASK }
    ));
    let mut run = claiming(CleanupEntryState::ApprovalActive);
    assert!(matches!(
        run.advance(foreign()),
        Progress::Asked(StoreRequest::CompleteDelivery { effect_id: EFFECT, .. })
    ));
}

#[test]
fn a_store_that_fails_ends_the_run() {
    let (mut run, _) = start(CleanupEntryState::Active);
    match run.advance(Err("connection lost".to_owned())) {
        Progress::Failed(words) => assert_eq!(words, "connection lost"),
        _ => panic!("the run went on"),
    }
    assert_eq!(run.taken, 0);
    assert_eq!(
        reserve_task_at_cleanup_entry_state(
            TASK,
            OPERATION,
            "service",
            "usr_a",
            &envelope("250.00", 3),
            &base_spec(),
            Err("no limit".to_owned()),
            CleanupEntryState::Active,
            "x",
        )
        .err()
        .as_deref(),
        Some("evaluate cleanup fixture: no limit")
    );
}

#[test]
fn every_step_of_an_activation_is_applied() {
    let fixture = ActiveDirectTaskFixture::new("label", 5);
    let (run, first) = fixture.activate_task(TASK, "runtime-a");
    assert!(matches!(
        first,
        StoreRequest::AuthorizeRuntimeCreation { generation: 1, .. }
    ));
    let (requests, task_uid) = run_to_its_end(run);
    assert_eq!(task_uid, TASK);
    assert_eq!(requests.len(), 4);
    assert!(matches!(
        &requests[1],
        StoreRequest::DecideRuntimeAuthority { generation: 3, envelope_digest, .. }
            if *envelope_digest == stand_in("e")
    ));
    assert!(matches!(
        &requests[3],
        StoreRequest::RecordActivationObserved { generation: 5, observation, .. }
            if observation.runtime_uid == "runtime-a"
                && observation.active_manifest_digest == stand_in("c")
                && observation.provider_set_ready
    ));
    let (mut run, _) = fixture.activate_task(TASK, "runtime-a");
    let mut stale = good_reply();
    stale.applied = false;
    assert!(matches!(
        run.advance(Ok(stale)),
        Progress::Refused(StoreFault::NotApplied)
    ));
}
