use steward_harness::envelopes::{
    base_spec, budget_deltas, delegated_spec, envelope, inert_spec, long_running_envelope,
    proposed_spec, AdmissionDecision, AdmissionDelta,
};
use steward_harness::runtimes::Principal;
use steward_harness::task_store::{
    activation_observation, activation_steps, awaited_approval, claimed_delivery,
    cleanup_entry_state_name, connection_operation_retention, delivered_to, direct_task_evidence,
    entry_steps,
    evidence_from_sample, governed_connection_bindings, hyphenated, isolated_schema,
    matrix_reservation, matrix_spec, observed_runtime_uid, reserve_governed_connection_with_bindings,
    schema_creation, simple, stand_in, ActiveDirectTaskFixture, ApprovalDelivery, CleanupEntryState,
    ConnectionOperationKind, ConnectionPlan, ConnectionsAuthority, EnvelopeRequestStatus,
    EnvelopeScope, SlowDecisionChannel, StoreFault, StoreStep, Uuid,
};

const ID: Uuid = [
    0x01, 0x23, 0x45, 0x67, 0x89, 0xab, 0xcd, 0xef, 0x10, 0x32, 0x54, 0x76, 0x98, 0xba, 0xdc, 0xfe,
];

#[test]
fn identifiers_are_written_in_two_ways() {
    assert_eq!(simple(&ID), "0123456789abcdef1032547698badcfe");
    assert_eq!(hyphenated(&ID), "01234567-89ab-cdef-1032-547698badcfe");
    assert_eq!(
        observed_runtime_uid(&ID),
        "runtime-01234567-89ab-cdef-1032-547698badcfe"
    );
    assert_eq!(
        isolated_schema(&ID),
        "approval_queue_0123456789abcdef1032547698badcfe"
    );
    assert_ne!(isolated_schema(&ID), isolated_schema(&[0; 16]));
    assert_eq!(schema_creation("a"), "CREATE SCHEMA \"a\"");
    assert_eq!(stand_in("a"), format!("sha256:{}", "a".repeat(64)));
}

#[test]
fn states_have_the_names_of_the_store() {
    for (state, name, steps) in [
        (CleanupEntryState::IntentRecorded, "intent_recorded", 1),
        (CleanupEntryState::RuntimeCreatePending, "runtime_create_pending", 2),
        (CleanupEntryState::RuntimeObserved, "runtime_observed", 3),
        (CleanupEntryState::ApprovalPending, "approval_pending", 4),
        (CleanupEntryState::ApprovalClaimed, "approval_pending", 7),
        (CleanupEntryState::ApprovalActive, "active", 12),
        (CleanupEntryState::ActivationPending, "activation_pending", 4),
        (CleanupEntryState::Active, "active", 6),
    ] {
        assert_eq!(cleanup_entry_state_name(state), name);
        let plan = entry_steps(state);
        assert_eq!(plan.len(), steps);
        assert_eq!(plan[0], StoreStep::ReserveTask);
    }
}

#[test]
fn the_steps_to_an_approved_task_are_taken_on_their_generations() {
    assert_eq!(
        entry_steps(CleanupEntryState::ApprovalActive),
        vec![
            StoreStep::ReserveTask,
            StoreStep::AuthorizeRuntimeCreation { generation: 1 },
            StoreStep::RecordRuntimeObserved { generation: 2 },
            StoreStep::DecideRuntimeAuthority { generation: 3 },
            StoreStep::FindApproval,
            StoreStep::PrioritizeDelivery,
            StoreStep::ClaimDelivery,
            StoreStep::CompleteDelivery,
            StoreStep::ApproveAdmission,
            StoreStep::AuthorizeActivationFromApproval { generation: 4 },
            StoreStep::DecideRuntimeAuthority { generation: 5 },
            StoreStep::RecordActivationObserved { generation: 6 },
        ]
    );
    let approved = entry_steps(CleanupEntryState::ApprovalActive);
    let claimed = entry_steps(CleanupEntryState::ApprovalClaimed);
    assert_eq!(claimed[..], approved[..claimed.len()]);
}

#[test]
fn activation_completes_a_reservation() {
    let mut steps = entry_steps(CleanupEntryState::IntentRecorded);
    steps.extend(activation_steps());
    assert_eq!(
        steps,
        entry_steps(CleanupEntryState::Active)
    );
}

#[test]
fn a_matrix_task_exceeds_its_envelope_where_it_needs_an_approval() {
    assert_eq!(
        matrix_spec(&base_spec(), CleanupEntryState::ApprovalClaimed)
            .budget
            .monthly_limit,
        "300.00"
    );
    assert_eq!(
        matrix_spec(&base_spec(), CleanupEntryState::Active)
            .budget
            .monthly_limit,
        "100.00"
    );
    let request = matrix_reservation(
        ID,
        ID,
        "service",
        "usr_a",
        &envelope("250.00", 3),
        &base_spec(),
        AdmissionDecision::Admit,
        CleanupEntryState::ApprovalPending,
        "x",
    );
    assert_eq!(request.idempotency_key, "cleanup-ApprovalPending-x");
    assert_eq!(request.submitter_service, "service");
    assert_eq!(request.acting_user.as_deref(), Some("alice@example.com"));
    assert_eq!(request.acting_user_id.as_deref(), Some("usr_a"));
    assert_eq!(request.workflow, "cleanup-matrix");
    assert_eq!(
        request.runtime_name,
        "task-0123456789abcdef1032547698badcfe"
    );
    assert_eq!(request.runtime_namespace, "steward-test");
    assert_eq!(request.agent_command, vec!["agent-v1"]);
    assert_eq!(request.envelope_revision, 3);
    assert_eq!(request.service_envelope.spec.budget.monthly_limit, "250.00");
    assert_eq!(request.service_envelope_digest, stand_in("2"));
    assert_eq!(request.candidate_digest, stand_in("1"));
    assert_eq!(request.inert_manifest_digest, stand_in("3"));
    assert_eq!(request.active_manifest_digest, stand_in("1"));
    assert_eq!(request.runtime_spec.budget.monthly_limit, "300.00");
    assert!(request.direct_task_evidence.is_none());
    assert!(request.execution_binding.is_none());
}

fn delivery(approval_id: Uuid, task_uid: Uuid) -> ApprovalDelivery {
    ApprovalDelivery {
        effect_id: [9; 16],
        generation: 1,
        approval_id,
        task_uid,
    }
}

#[test]
fn a_claimed_delivery_is_the_one_that_is_waited_for() {
    assert_eq!(awaited_approval(Some(ID)), Ok(ID));
    assert_eq!(awaited_approval(None), Err(StoreFault::ApprovalNotFound));
    assert_eq!(
        claimed_delivery(Some(delivery(ID, [1; 16])), &ID)
            .ok()
            .unwrap()
            .effect_id,
        [9; 16]
    );
    assert_eq!(
        claimed_delivery(None, &ID).err(),
        Some(StoreFault::ApprovalNotFound)
    );
    assert_eq!(
        claimed_delivery(Some(delivery([2; 16], [1; 16])), &ID).err(),
        Some(StoreFault::ApprovalNotFound)
    );
    assert_eq!(delivered_to(&delivery(ID, [1; 16]), &[1; 16]), Ok(()));
    assert_eq!(
        delivered_to(&delivery(ID, [2; 16]), &[1; 16]),
        Err(StoreFault::ForeignDelivery)
    );
}

#[test]
fn an_activated_runtime_is_observed() {
    let observation = activation_observation("runtime-a", "1");
    assert_eq!(observation.runtime_uid, "runtime-a");
    assert_eq!(observation.resource_version, "resource-version-active");
    assert_eq!(observation.active_manifest_digest, stand_in("1"));
    assert!(observation.provider_set_ready);
}

#[test]
fn a_connection_operation_is_reserved_with_its_bindings() {
    let retention = connection_operation_retention();
    assert_eq!(
        (
            retention.cache_ttl_seconds,
            retention.result_ttl_seconds,
            retention.oauth_lifetime_seconds
        ),
        (5, 30, 630)
    );
    let authority = ConnectionsAuthority {
        service: "steward-connections".to_owned(),
        version: 2,
        digest: "digest".to_owned(),
        response_deadline_seconds: 20,
        envelope: long_running_envelope(),
    };
    let reserve = |plan| {
        reserve_governed_connection_with_bindings(
            [1; 16],
            ID,
            "usr_a",
            "alice@example.com",
            ConnectionOperationKind::Start,
            false,
            "key",
            plan,
            &authority,
        )
    };
    assert_eq!(
        reserve(Err("no plan".to_owned())).err(),
        Some(StoreFault::InvalidConnectionOperation)
    );
    let request = reserve(Ok(ConnectionPlan {
        spec: base_spec(),
        command: vec!["bridge".to_owned()],
        bindings: governed_connection_bindings(),
    }))
    .ok()
    .unwrap();
    assert_eq!(request.operation_id, ID);
    assert_eq!(request.operation_kind, ConnectionOperationKind::Start);
    assert_eq!(request.authority_id, "steward-connections");
    assert_eq!(request.authority_version, 2);
    assert_eq!(request.authority_digest, "digest");
    assert_eq!(
        request.bindings.artifact_trust_mode.as_deref(),
        Some("github-attestation")
    );
    assert_eq!(request.bindings.mcp_gw_origin, "https://mcp-gw.example.test");
    assert_eq!(request.response_deadline_seconds, 20);
    assert!(!request.allow_status_cache);
    assert_eq!(request.input_archive, vec![1]);
    assert_eq!(request.task.runtime_name, "conn-0123456789abcdef1032547698badcfe");
    assert_eq!(request.task.idempotency_key, "key");
    assert_eq!(request.task.owner, "alice@example.com");
    assert_eq!(request.task.agent_command, vec!["bridge"]);
    assert_eq!(request.task.workflow, "internal:steward-connections/v1");
    assert_eq!(request.task.service_envelope.spec.ttl, "1h");
    assert_eq!(request.task.service_envelope_digest, stand_in("b"));
    assert_eq!(request.task.candidate_digest, stand_in("a"));
    assert_eq!(request.task.inert_manifest_digest, stand_in("c"));
}

fn text_of(outcome: Result<Option<serde_json::Value>, String>) -> String {
    outcome.unwrap().unwrap().to_string()
}

#[test]
fn evidence_is_made_from_a_sample() {
    let task = hyphenated(&ID);
    let request = hyphenated(&[0; 16]);
    let made = format!(
        "{{\"envelope\":{{\"digest\":\"steward:d\",\"kept\":1,\"revision\":7,\
         \"uid\":\"{request}\"}},\"other\":true,\"taskUid\":\"{task}\"}}"
    );
    assert_eq!(
        text_of(evidence_from_sample(
            b"{\"other\":true,\"taskUid\":0,\"envelope\":{\"kept\":1,\"revision\":1}}",
            &ID,
            &[0; 16],
            7,
            "d"
        )),
        made
    );
    let bare = format!(
        "{{\"envelope\":{{\"digest\":\"steward:d\",\"revision\":-7,\"uid\":\"{request}\"}},\
         \"taskUid\":\"{task}\"}}"
    );
    for sample in ["null", "{}", "{\"envelope\":null}"] {
        assert_eq!(
            text_of(evidence_from_sample(
                sample.as_bytes(),
                &ID,
                &[0; 16],
                -7,
                "d"
            )),
            bare
        );
    }
    for sample in ["[]", "3", "{\"envelope\":\"x\"}"] {
        assert_eq!(
            evidence_from_sample(sample.as_bytes(), &ID, &[0; 16], 7, "d"),
            Ok(None)
        );
    }
    assert_eq!(
        evidence_from_sample(b"nul", &ID, &[0; 16], 7, "d"),
        Err("EOF while parsing a value at line 1 column 3".to_owned())
    );
    let sample = serde_json::from_str("{}").unwrap();
    assert_eq!(
        direct_task_evidence(sample, &ID, &[0; 16], -7, "d").to_string(),
        bare
    );
}

#[test]
fn a_direct_task_carries_its_suffix() {
    let fixture = ActiveDirectTaskFixture::new("label", 1_234);
    assert_eq!(fixture.suffix, "label-1234");
    assert_eq!(fixture.service, "direct-envelope-label-1234");
    assert_eq!(fixture.member_role, "direct-role-label-1234");
    assert_eq!(fixture.subject, "direct-envelope-subject-label-1234");
    assert_eq!(fixture.email, "alice-label-1234@example.com");
    assert_eq!(
        fixture.envelope_request_key,
        "direct-envelope-request-label-1234"
    );
    assert_eq!(fixture.envelope_instance_id, "env_direct_label-1234");
    assert_eq!(fixture.authority.spec.budget.monthly_limit, "250.00");
}

#[test]
fn a_replacement_is_another_instance_of_the_same_envelope() {
    let fixture = ActiveDirectTaskFixture::new("label", 1_234);
    let (service, role) = fixture.seeded_envelopes();
    assert_eq!(service.scope, EnvelopeScope::Service);
    assert_eq!(service.scope_ref, "direct-envelope-label-1234");
    assert_eq!(role.scope, EnvelopeScope::MemberRole);
    assert_eq!(role.scope_ref, "direct-role-label-1234");
    assert_eq!(role.actor, "admin@example.com");
    assert_eq!(role.envelope.spec.budget.monthly_limit, "250.00");
    let (request, update) = fixture.envelope_request("usr_a");
    assert_eq!(request.owner_user_id, "usr_a");
    assert_eq!(request.actor, "usr_a");
    assert_eq!(request.template_id, "direct-role-label-1234");
    assert_eq!(request.template_revision, 1);
    assert_eq!(request.idempotency_key, "direct-envelope-request-label-1234");
    assert_eq!(request.requested_envelope.revision, 1);
    assert_eq!(update.from, EnvelopeRequestStatus::Pending);
    assert_eq!(update.to, EnvelopeRequestStatus::Provisioned);
    assert_eq!(
        update.envelope_instance_id.as_deref(),
        Some("env_direct_label-1234")
    );
    assert_eq!(update.envelope_digest, Some(stand_in("b")));
    assert!(update.approval_id.is_none() && update.reason.is_none());
    let (replacement, provisioned) = fixture.supersede_envelope("next", "usr_a");
    assert_eq!(replacement.idempotency_key, "replacement-next-label-1234");
    assert_eq!(replacement.template_id, request.template_id);
    assert_eq!(
        provisioned.envelope_instance_id.as_deref(),
        Some("env_direct_replacement_next_label-1234")
    );
    assert_eq!(provisioned.envelope_digest, update.envelope_digest);
    assert_eq!(
        provisioned.approved_envelope.unwrap().spec.budget.monthly_limit,
        update.approved_envelope.unwrap().spec.budget.monthly_limit
    );
    assert_eq!(ActiveDirectTaskFixture::reserve_task(true, ID), Ok(ID));
    assert_eq!(
        ActiveDirectTaskFixture::reserve_task(false, ID),
        Err(StoreFault::AlreadyReserved)
    );
}

#[test]
fn a_direct_task_is_reserved_where_it_is_admitted() {
    let fixture = ActiveDirectTaskFixture::new("label", 5);
    let reserve = |decision| {
        fixture.try_reserve_task(
            ID,
            ID,
            "first",
            "alice@example.com",
            "usr_a",
            serde_json::Value::Bool(true),
            decision,
        )
    };
    match reserve(Ok(AdmissionDecision::Admit)) {
        Ok(request) => {
            assert_eq!(request.idempotency_key, "direct-task-first-label-5");
            assert_eq!(request.workflow, "direct:release-summary@v1");
            assert_eq!(
                request.user_envelope_instance_id.as_deref(),
                Some("env_direct_label-5")
            );
            assert_eq!(request.user_envelope_revision, Some(1));
            assert_eq!(
                request.direct_task_evidence,
                Some(serde_json::Value::Bool(true))
            );
            match request.runtime_spec.principal {
                Principal::Service { name, acting_user } => {
                    assert_eq!(name, "direct-envelope-label-5");
                    assert_eq!(acting_user.as_deref(), Some("alice@example.com"));
                }
                Principal::User { .. } => panic!("a service runs the Task"),
            }
        }
        Err(words) => panic!("{}", words),
    }
    assert_eq!(
        reserve(Ok(AdmissionDecision::Reject { deltas: Vec::new() }))
            .err()
            .unwrap(),
        "direct Task was not admitted"
    );
    assert_eq!(
        reserve(Err("no".to_owned())).err().unwrap(),
        "evaluate direct Task: no"
    );
}

#[test]
fn a_direct_task_is_reserved_with_its_own_evidence() {
    let fixture = ActiveDirectTaskFixture::new("label", 5);
    let reserve = |sample: &str, decision| {
        fixture.reserve_with_evidence(
            ID,
            [1; 16],
            "first",
            "alice@example.com",
            "usr_a",
            &[2; 16],
            sample.as_bytes(),
            decision,
        )
    };
    let request = match reserve("{\"kept\":1}", Ok(AdmissionDecision::Admit)) {
        Ok(Some(request)) => request,
        _ => panic!("the sample is one that evidence can be made from"),
    };
    assert_eq!(request.idempotency_key, "direct-task-first-label-5");
    assert_eq!(
        request.direct_task_evidence.unwrap().to_string(),
        format!(
            "{{\"envelope\":{{\"digest\":\"steward:{}\",\"revision\":1,\"uid\":\"{}\"}},\
             \"kept\":1,\"taskUid\":\"{}\"}}",
            stand_in("b"),
            hyphenated(&[2; 16]),
            hyphenated(&ID)
        )
    );
    assert!(matches!(
        reserve("[]", Ok(AdmissionDecision::Admit)),
        Ok(None)
    ));
    assert_eq!(
        reserve("nul", Ok(AdmissionDecision::Admit)).err().unwrap(),
        "EOF while parsing a value at line 1 column 3"
    );
    assert_eq!(
        reserve("nul", Ok(AdmissionDecision::Reject { deltas: Vec::new() }))
            .err()
            .unwrap(),
        "direct Task was not admitted"
    );
    assert_eq!(
        reserve("nul", Err("no".to_owned())).err().unwrap(),
        "evaluate direct Task: no"
    );
}

#[test]
fn only_the_first_request_is_let_through() {
    let mut channel = SlowDecisionChannel::new();
    assert!(channel.observe_request().is_none());
    assert_eq!(channel.begin_request(), Ok(()));
    assert!(channel.observe_request().is_none());
    assert_eq!(
        channel.begin_request(),
        Err("duplicate external create".to_owned())
    );
    let reference = channel.deliver();
    assert_eq!(reference.key, "PROJ-123");
    assert_eq!(
        channel.observe_request().unwrap().evidence_url,
        "https://jira.example.test/browse/PROJ-123"
    );
    assert_eq!(channel.creates, 2);
    for _ in 0..3 {
        assert_eq!(
            channel.begin_request(),
            Err("duplicate external create".to_owned())
        );
    }
    assert_eq!(channel.creates, 5);
    assert!(channel.observe_request().is_some());
}

#[test]
fn specs_and_envelopes_are_those_of_the_suites() {
    let proposed = proposed_spec();
    assert_eq!(proposed.budget.monthly_limit, "220.00");
    assert_eq!(proposed.ttl, "24h");
    assert_eq!(proposed.llms[0].model, "model-a");
    assert_eq!(base_spec().budget.monthly_limit, "100.00");
    let admitted = envelope("200.00", 4);
    assert_eq!(admitted.revision, 4);
    assert_eq!(admitted.spec.budget.monthly_limit, "200.00");
    let deltas = budget_deltas();
    assert_eq!(deltas.len(), 1);
    match &deltas[0] {
        AdmissionDelta::Budget {
            requested,
            ceiling,
            currency,
        } => assert_eq!(
            (requested.as_str(), ceiling.as_str(), currency.as_str()),
            ("220.00", "200.00", "USD")
        ),
        AdmissionDelta::Ttl { .. } => panic!("the budget is exceeded"),
    }
    assert_eq!(long_running_envelope().spec.tools[0].resource, "get_file_contents");
    let inert = inert_spec(&proposed, &admitted);
    assert!(inert.llms.is_empty() && inert.tools.is_empty());
    assert_eq!(inert.budget.monthly_limit, "0");
    assert_eq!(inert.budget.single_run_limit.as_deref(), Some("0"));
    assert_eq!(inert.owner, "alice@example.com");
    assert!(inert.bindings.is_none());
    let mut bound = proposed_spec();
    bound.bindings = Some(serde_json::Value::Bool(true));
    assert_eq!(
        inert_spec(&bound, &admitted).bindings,
        Some(serde_json::Value::Bool(true))
    );
    let again = inert_spec(&inert, &admitted);
    assert_eq!(again.budget.currency, inert.budget.currency);
    let delegated = delegated_spec("svc", "bob@example.org", "usr_b");
    assert_eq!(delegated.owner, "bob@example.org");
    assert_eq!(
        delegated.canonical_authority.unwrap().schema_version,
        "steward/canonical-authority-binding/v1"
    );
}
