//! What the Task store is asked in the suites: the reservations of Tasks, the steps that bring a
//! Task to each state from which it can be cleaned up, and the fixtures of direct Tasks.
use crate::connections::ConnectionExecutionBindings;
use crate::envelopes::{
    delegated, delegated_spec, envelope, envelope_view, proposed_view, AdmissionDecision, Envelope,
    EnvelopeView,
};
use crate::json::{
    copy, held_tree, is_null, is_object, json_document, json_error_text, json_tree, member, member_tree,
    object, parse, put, signed, signed_tree, text, tree_members, JsonTree,
};
use crate::probe::outcome_view;
use crate::runtimes::{option_text, RuntimeSpec, RuntimeSpecView};
use crate::text::{
    concat2, concat3, concat4, decimal, decimal_digits, hex, hex_digits, repeat, repeated, texts,
    views,
};
use vstd::prelude::*;
use vstd::slice::slice_subrange;
use vstd::string::*;

verus! {

/// An identifier of sixteen bytes.
pub type Uuid = [u8; 16];

/// An identifier in hexadecimal digits alone.
pub open spec fn simple_text(id: Seq<u8>) -> Seq<char> {
    hex_digits(id)
}

/// An identifier in hexadecimal digits, with hyphens between its five groups.
pub open spec fn hyphenated_text(id: Seq<u8>) -> Seq<char> {
    hex_digits(id.subrange(0, 4)) + "-"@ + hex_digits(id.subrange(4, 6)) + "-"@ + hex_digits(
        id.subrange(6, 8),
    ) + "-"@ + hex_digits(id.subrange(8, 10)) + "-"@ + hex_digits(id.subrange(10, 16))
}

/// An identifier in hexadecimal digits alone.
pub fn simple(id: &Uuid) -> (words: String)
    ensures
        words@ == simple_text(id@),
{
    hex(id)
}

/// An identifier in hexadecimal digits, with hyphens between its five groups.
pub fn hyphenated(id: &Uuid) -> (words: String)
    ensures
        words@ == hyphenated_text(id@),
{
    let bytes: &[u8] = id;
    let mut words = hex(slice_subrange(bytes, 0, 4));
    words.append("-");
    words.append(hex(slice_subrange(bytes, 4, 6)).as_str());
    words.append("-");
    words.append(hex(slice_subrange(bytes, 6, 8)).as_str());
    words.append("-");
    words.append(hex(slice_subrange(bytes, 8, 10)).as_str());
    words.append("-");
    words.append(hex(slice_subrange(bytes, 10, 16)).as_str());
    words
}

/// A digest that stands for one that does not matter.
pub open spec fn stand_in_digest(digit: char) -> Seq<char> {
    "sha256:"@ + repeated(digit, 64)
}

/// A digest that stands for one that does not matter.
pub fn stand_in(digit: &str) -> (digest: String)
    requires
        digit@.len() == 1,
    ensures
        digest@ == stand_in_digest(digit@[0]),
{
    let digits = repeat(digit, 64);
    concat2("sha256:", digits.as_str())
}

/// The states of a Task from which it can be cleaned up.
#[derive(PartialEq, Eq, Structural, Clone, Copy, Debug)]
pub enum CleanupEntryState {
    IntentRecorded,
    RuntimeCreatePending,
    RuntimeObserved,
    ApprovalPending,
    ApprovalClaimed,
    ApprovalActive,
    ActivationPending,
    Active,
}

/// The states of the operation that provides a Task with its runtime.
#[derive(PartialEq, Eq, Structural, Clone, Copy, Debug)]
pub enum OrchestrationState {
    IntentRecorded,
    RuntimeCreatePending,
    RuntimeObserved,
    ApprovalPending,
    ActivationPending,
    Active,
}

/// How the store calls a state of the operation.
pub open spec fn state_name(state: OrchestrationState) -> Seq<char> {
    match state {
        OrchestrationState::IntentRecorded => "intent_recorded"@,
        OrchestrationState::RuntimeCreatePending => "runtime_create_pending"@,
        OrchestrationState::RuntimeObserved => "runtime_observed"@,
        OrchestrationState::ApprovalPending => "approval_pending"@,
        OrchestrationState::ActivationPending => "activation_pending"@,
        OrchestrationState::Active => "active"@,
    }
}

/// In which state the operation is when its Task is in a state from which it can be cleaned up.
pub open spec fn operation_state(state: CleanupEntryState) -> OrchestrationState {
    match state {
        CleanupEntryState::IntentRecorded => OrchestrationState::IntentRecorded,
        CleanupEntryState::RuntimeCreatePending => OrchestrationState::RuntimeCreatePending,
        CleanupEntryState::RuntimeObserved => OrchestrationState::RuntimeObserved,
        CleanupEntryState::ApprovalPending => OrchestrationState::ApprovalPending,
        CleanupEntryState::ApprovalClaimed => OrchestrationState::ApprovalPending,
        CleanupEntryState::ApprovalActive => OrchestrationState::Active,
        CleanupEntryState::ActivationPending => OrchestrationState::ActivationPending,
        CleanupEntryState::Active => OrchestrationState::Active,
    }
}

/// How the store calls the state of the operation.
pub fn cleanup_entry_state_name(state: CleanupEntryState) -> (name: &'static str)
    ensures
        name@ == state_name(operation_state(state)),
{
    match state {
        CleanupEntryState::IntentRecorded => "intent_recorded",
        CleanupEntryState::RuntimeCreatePending => "runtime_create_pending",
        CleanupEntryState::RuntimeObserved => "runtime_observed",
        CleanupEntryState::ApprovalPending => "approval_pending",
        CleanupEntryState::ApprovalClaimed => "approval_pending",
        CleanupEntryState::ApprovalActive => "active",
        CleanupEntryState::ActivationPending => "activation_pending",
        CleanupEntryState::Active => "active",
    }
}

/// How a state from which a Task can be cleaned up is called in the keys of its Task.
pub open spec fn entry_word(state: CleanupEntryState) -> Seq<char> {
    match state {
        CleanupEntryState::IntentRecorded => "IntentRecorded"@,
        CleanupEntryState::RuntimeCreatePending => "RuntimeCreatePending"@,
        CleanupEntryState::RuntimeObserved => "RuntimeObserved"@,
        CleanupEntryState::ApprovalPending => "ApprovalPending"@,
        CleanupEntryState::ApprovalClaimed => "ApprovalClaimed"@,
        CleanupEntryState::ApprovalActive => "ApprovalActive"@,
        CleanupEntryState::ActivationPending => "ActivationPending"@,
        CleanupEntryState::Active => "Active"@,
    }
}

/// How a state from which a Task can be cleaned up is called in the keys of its Task.
fn entry_name(state: CleanupEntryState) -> (word: &'static str)
    ensures
        word@ == entry_word(state),
{
    match state {
        CleanupEntryState::IntentRecorded => "IntentRecorded",
        CleanupEntryState::RuntimeCreatePending => "RuntimeCreatePending",
        CleanupEntryState::RuntimeObserved => "RuntimeObserved",
        CleanupEntryState::ApprovalPending => "ApprovalPending",
        CleanupEntryState::ApprovalClaimed => "ApprovalClaimed",
        CleanupEntryState::ApprovalActive => "ApprovalActive",
        CleanupEntryState::ActivationPending => "ActivationPending",
        CleanupEntryState::Active => "Active",
    }
}

/// The Task gets to the state through an approval.
pub open spec fn needs_approval(state: CleanupEntryState) -> bool {
    state == CleanupEntryState::ApprovalPending || state == CleanupEntryState::ApprovalClaimed
        || state == CleanupEntryState::ApprovalActive
}

/// What the store is asked, one after the other. A step on the operation names the generation
/// that it is made on.
#[derive(PartialEq, Eq, Structural, Clone, Copy, Debug)]
pub enum StoreStep {
    ReserveTask,
    AuthorizeRuntimeCreation { generation: i64 },
    RecordRuntimeObserved { generation: i64 },
    DecideRuntimeAuthority { generation: i64 },
    FindApproval,
    PrioritizeDelivery,
    ClaimDelivery,
    CompleteDelivery,
    ApproveAdmission,
    AuthorizeActivationFromApproval { generation: i64 },
    RecordActivationObserved { generation: i64 },
}

/// The steps until the authority of the runtime is decided.
pub open spec fn steps_to_decision() -> Seq<StoreStep> {
    seq![
        StoreStep::ReserveTask,
        StoreStep::AuthorizeRuntimeCreation { generation: 1 },
        StoreStep::RecordRuntimeObserved { generation: 2 },
        StoreStep::DecideRuntimeAuthority { generation: 3 },
    ]
}

/// The steps with which an approval is claimed.
pub open spec fn steps_to_claim() -> Seq<StoreStep> {
    seq![StoreStep::FindApproval, StoreStep::PrioritizeDelivery, StoreStep::ClaimDelivery]
}

/// The steps that bring a Task to a state from which it can be cleaned up.
pub open spec fn steps_to(state: CleanupEntryState) -> Seq<StoreStep> {
    match state {
        CleanupEntryState::IntentRecorded => steps_to_decision().take(1),
        CleanupEntryState::RuntimeCreatePending => steps_to_decision().take(2),
        CleanupEntryState::RuntimeObserved => steps_to_decision().take(3),
        CleanupEntryState::ApprovalPending => steps_to_decision(),
        CleanupEntryState::ApprovalClaimed => steps_to_decision() + steps_to_claim(),
        CleanupEntryState::ApprovalActive => steps_to_decision() + steps_to_claim() + seq![
            StoreStep::CompleteDelivery,
            StoreStep::ApproveAdmission,
            StoreStep::AuthorizeActivationFromApproval { generation: 4 },
            StoreStep::DecideRuntimeAuthority { generation: 5 },
            StoreStep::RecordActivationObserved { generation: 6 },
        ],
        CleanupEntryState::ActivationPending => steps_to_decision(),
        CleanupEntryState::Active => steps_to_decision() + seq![
            StoreStep::DecideRuntimeAuthority { generation: 4 },
            StoreStep::RecordActivationObserved { generation: 5 },
        ],
    }
}

/// The steps that bring a Task to a state from which it can be cleaned up.
pub fn entry_steps(entry_state: CleanupEntryState) -> (steps: Vec<StoreStep>)
    ensures
        steps@ == steps_to(entry_state),
{
    let mut steps: Vec<StoreStep> = Vec::new();
    steps.push(StoreStep::ReserveTask);
    if entry_state == CleanupEntryState::IntentRecorded {
        assert(steps@ =~= steps_to(entry_state));
        return steps;
    }
    steps.push(StoreStep::AuthorizeRuntimeCreation { generation: 1 });
    if entry_state == CleanupEntryState::RuntimeCreatePending {
        assert(steps@ =~= steps_to(entry_state));
        return steps;
    }
    steps.push(StoreStep::RecordRuntimeObserved { generation: 2 });
    if entry_state == CleanupEntryState::RuntimeObserved {
        assert(steps@ =~= steps_to(entry_state));
        return steps;
    }
    steps.push(StoreStep::DecideRuntimeAuthority { generation: 3 });
    if entry_state == CleanupEntryState::ApprovalPending || entry_state
        == CleanupEntryState::ActivationPending {
        assert(steps@ =~= steps_to(entry_state));
        return steps;
    }
    if entry_state == CleanupEntryState::Active {
        steps.push(StoreStep::DecideRuntimeAuthority { generation: 4 });
        steps.push(StoreStep::RecordActivationObserved { generation: 5 });
        assert(steps@ =~= steps_to(entry_state));
        return steps;
    }
    steps.push(StoreStep::FindApproval);
    steps.push(StoreStep::PrioritizeDelivery);
    steps.push(StoreStep::ClaimDelivery);
    if entry_state == CleanupEntryState::ApprovalClaimed {
        assert(steps@ =~= steps_to(entry_state));
        return steps;
    }
    steps.push(StoreStep::CompleteDelivery);
    steps.push(StoreStep::ApproveAdmission);
    steps.push(StoreStep::AuthorizeActivationFromApproval { generation: 4 });
    steps.push(StoreStep::DecideRuntimeAuthority { generation: 5 });
    steps.push(StoreStep::RecordActivationObserved { generation: 6 });
    assert(steps@ =~= steps_to(entry_state));
    steps
}

/// The steps that activate a reserved Task.
pub open spec fn steps_to_activate() -> Seq<StoreStep> {
    seq![
        StoreStep::AuthorizeRuntimeCreation { generation: 1 },
        StoreStep::RecordRuntimeObserved { generation: 2 },
        StoreStep::DecideRuntimeAuthority { generation: 3 },
        StoreStep::DecideRuntimeAuthority { generation: 4 },
        StoreStep::RecordActivationObserved { generation: 5 },
    ]
}

/// The steps that activate a reserved Task.
pub fn activation_steps() -> (steps: Vec<StoreStep>)
    ensures
        steps@ == steps_to_activate(),
{
    let steps: Vec<StoreStep> = vec![
        StoreStep::AuthorizeRuntimeCreation { generation: 1 },
        StoreStep::RecordRuntimeObserved { generation: 2 },
        StoreStep::DecideRuntimeAuthority { generation: 3 },
        StoreStep::DecideRuntimeAuthority { generation: 4 },
        StoreStep::RecordActivationObserved { generation: 5 },
    ];
    assert(steps@ =~= steps_to_activate());
    steps
}

/// The generation that a step names, where it is made on the operation.
pub open spec fn generation_of(step: StoreStep) -> Option<i64> {
    match step {
        StoreStep::AuthorizeRuntimeCreation { generation } => Some(generation),
        StoreStep::RecordRuntimeObserved { generation } => Some(generation),
        StoreStep::DecideRuntimeAuthority { generation } => Some(generation),
        StoreStep::AuthorizeActivationFromApproval { generation } => Some(generation),
        StoreStep::RecordActivationObserved { generation } => Some(generation),
        _ => None,
    }
}

/// How many of the first `count` steps are made on the operation.
pub open spec fn changes_in(steps: Seq<StoreStep>, count: int) -> int
    decreases count,
{
    if count <= 0 {
        0
    } else {
        changes_in(steps, count - 1) + (if generation_of(steps[count - 1]) is Some {
            1int
        } else {
            0int
        })
    }
}

/// A Task is reserved with the first generation of its operation, every step on the operation makes
/// the next one, and every step is made on the latest: it names one more than there were steps on
/// the operation before it. This holds of the steps to every state, and of an activation.
pub proof fn law_steps_are_made_on_the_latest_generation(state: CleanupEntryState, at: int)
    ensures
        0 <= at < steps_to(state).len() && generation_of(steps_to(state)[at]) is Some
            ==> generation_of(steps_to(state)[at])->Some_0 == 1 + changes_in(steps_to(state), at),
        0 <= at < steps_to_activate().len() ==> generation_of(steps_to_activate()[at])
            == Some((1 + changes_in(steps_to_activate(), at)) as i64),
{
    reveal_with_fuel(changes_in, 13);
}

/// The way to a later state goes through the earlier ones: the steps to each state that needs no
/// approval begin the steps to an active Task, and so do those to each state that needs one with
/// the steps to an approved Task.
pub proof fn law_later_states_build_on_earlier_ones(state: CleanupEntryState)
    ensures
        !needs_approval(state) ==> steps_to(state).is_prefix_of(
            steps_to(CleanupEntryState::Active),
        ),
        needs_approval(state) ==> steps_to(state).is_prefix_of(
            steps_to(CleanupEntryState::ApprovalActive),
        ),
{
}

/// Activating a reserved Task takes what is left of the steps to an active one.
pub proof fn law_activation_completes_a_reservation()
    ensures
        steps_to(CleanupEntryState::IntentRecorded) + steps_to_activate() == steps_to(
            CleanupEntryState::Active,
        ),
{
    assert(steps_to(CleanupEntryState::IntentRecorded) + steps_to_activate() =~= steps_to(
        CleanupEntryState::Active,
    ));
}

/// Who made the runtime of a Task.
#[derive(PartialEq, Eq, Structural, Clone, Copy, Debug)]
pub enum RuntimeOwnership {
    Provisioned,
    Adopted,
}

/// A request to reserve a Task.
pub struct TaskReservationRequest {
    pub task_uid: Uuid,
    pub operation_id: Uuid,
    pub idempotency_key: String,
    pub submitter_service: String,
    pub acting_user: Option<String>,
    pub acting_user_id: Option<String>,
    pub owner: String,
    pub owner_user_id: String,
    pub workflow: String,
    pub workflow_name: Option<String>,
    pub workflow_version: Option<i64>,
    pub workflow_digest: Option<String>,
    pub user_envelope_instance_id: Option<String>,
    pub user_envelope_revision: Option<i64>,
    pub user_envelope_digest: Option<String>,
    pub coding_agent_runtime: String,
    pub runtime_uid: Option<String>,
    pub runtime_namespace: String,
    pub runtime_name: String,
    pub runtime_ownership: RuntimeOwnership,
    pub runtime_spec: RuntimeSpec,
    pub agent_command: Vec<String>,
    pub execution_binding: Option<serde_json::Value>,
    pub direct_task_evidence: Option<serde_json::Value>,
    pub envelope_revision: i64,
    pub service_envelope: Envelope,
    pub service_envelope_digest: String,
    pub candidate_digest: String,
    pub admission_decision: AdmissionDecision,
    pub inert_manifest_digest: String,
    pub active_manifest_digest: String,
}

#[verifier::ext_equal]
pub ghost struct TaskReservationView {
    pub task_uid: Seq<u8>,
    pub operation_id: Seq<u8>,
    pub idempotency_key: Seq<char>,
    pub submitter_service: Seq<char>,
    pub acting_user: Option<Seq<char>>,
    pub acting_user_id: Option<Seq<char>>,
    pub owner: Seq<char>,
    pub owner_user_id: Seq<char>,
    pub workflow: Seq<char>,
    pub workflow_name: Option<Seq<char>>,
    pub workflow_version: Option<i64>,
    pub workflow_digest: Option<Seq<char>>,
    pub user_envelope_instance_id: Option<Seq<char>>,
    pub user_envelope_revision: Option<i64>,
    pub user_envelope_digest: Option<Seq<char>>,
    pub coding_agent_runtime: Seq<char>,
    pub runtime_uid: Option<Seq<char>>,
    pub runtime_namespace: Seq<char>,
    pub runtime_name: Seq<char>,
    pub runtime_ownership: RuntimeOwnership,
    pub runtime_spec: RuntimeSpecView,
    pub agent_command: Seq<Seq<char>>,
    pub execution_binding: Option<JsonTree>,
    pub direct_task_evidence: Option<JsonTree>,
    pub envelope_revision: i64,
    pub service_envelope: EnvelopeView,
    pub service_envelope_digest: Seq<char>,
    pub candidate_digest: Seq<char>,
    pub admission_decision: AdmissionDecision,
    pub inert_manifest_digest: Seq<char>,
    pub active_manifest_digest: Seq<char>,
}

impl View for TaskReservationRequest {
    type V = TaskReservationView;

    open spec fn view(&self) -> TaskReservationView {
        TaskReservationView {
            task_uid: self.task_uid@,
            operation_id: self.operation_id@,
            idempotency_key: self.idempotency_key@,
            submitter_service: self.submitter_service@,
            acting_user: option_text(self.acting_user),
            acting_user_id: option_text(self.acting_user_id),
            owner: self.owner@,
            owner_user_id: self.owner_user_id@,
            workflow: self.workflow@,
            workflow_name: option_text(self.workflow_name),
            workflow_version: self.workflow_version,
            workflow_digest: option_text(self.workflow_digest),
            user_envelope_instance_id: option_text(self.user_envelope_instance_id),
            user_envelope_revision: self.user_envelope_revision,
            user_envelope_digest: option_text(self.user_envelope_digest),
            coding_agent_runtime: self.coding_agent_runtime@,
            runtime_uid: option_text(self.runtime_uid),
            runtime_namespace: self.runtime_namespace@,
            runtime_name: self.runtime_name@,
            runtime_ownership: self.runtime_ownership,
            runtime_spec: self.runtime_spec@,
            agent_command: views(self.agent_command@),
            execution_binding: held_tree(self.execution_binding),
            direct_task_evidence: held_tree(self.direct_task_evidence),
            envelope_revision: self.envelope_revision,
            service_envelope: self.service_envelope@,
            service_envelope_digest: self.service_envelope_digest@,
            candidate_digest: self.candidate_digest@,
            admission_decision: self.admission_decision,
            inert_manifest_digest: self.inert_manifest_digest@,
            active_manifest_digest: self.active_manifest_digest@,
        }
    }
}

/// What a Task of the cleanup matrix runs: what was admitted, or more than the envelope allows
/// where the Task is to need an approval.
pub open spec fn matrix_spec_view(admitted: RuntimeSpecView, state: CleanupEntryState)
    -> RuntimeSpecView {
    if needs_approval(state) {
        RuntimeSpecView {
            budget: crate::runtimes::BudgetView { monthly_limit: "300.00"@, ..admitted.budget },
            ..admitted
        }
    } else {
        admitted
    }
}

/// What a Task of the cleanup matrix runs.
pub fn matrix_spec(admitted_spec: &RuntimeSpec, entry_state: CleanupEntryState) -> (spec: RuntimeSpec)
    ensures
        spec@ == matrix_spec_view(admitted_spec@, entry_state),
{
    let mut spec = admitted_spec.copy();
    if entry_state == CleanupEntryState::ApprovalPending || entry_state
        == CleanupEntryState::ApprovalClaimed || entry_state == CleanupEntryState::ApprovalActive {
        spec.budget.monthly_limit = "300.00".to_owned();
    }
    spec
}

/// The reservation of a Task of the cleanup matrix.
pub open spec fn matrix_reservation_view(
    task_uid: Seq<u8>,
    operation_id: Seq<u8>,
    service: Seq<char>,
    owner_user_id: Seq<char>,
    authority: EnvelopeView,
    admitted: RuntimeSpecView,
    decision: AdmissionDecision,
    state: CleanupEntryState,
    suffix: Seq<char>,
) -> TaskReservationView {
    TaskReservationView {
        task_uid,
        operation_id,
        idempotency_key: "cleanup-"@ + entry_word(state) + "-"@ + suffix,
        submitter_service: service,
        acting_user: Some("alice@example.com"@),
        acting_user_id: Some(owner_user_id),
        owner: "alice@example.com"@,
        owner_user_id,
        workflow: "cleanup-matrix"@,
        workflow_name: None,
        workflow_version: None,
        workflow_digest: None,
        user_envelope_instance_id: None,
        user_envelope_revision: None,
        user_envelope_digest: None,
        coding_agent_runtime: "agent-v1"@,
        runtime_uid: None,
        runtime_namespace: "steward-test"@,
        runtime_name: "task-"@ + simple_text(operation_id),
        runtime_ownership: RuntimeOwnership::Provisioned,
        runtime_spec: matrix_spec_view(admitted, state),
        agent_command: seq!["agent-v1"@],
        execution_binding: None,
        direct_task_evidence: None,
        envelope_revision: authority.revision,
        service_envelope: authority,
        service_envelope_digest: stand_in_digest('2'),
        candidate_digest: stand_in_digest('1'),
        admission_decision: decision,
        inert_manifest_digest: stand_in_digest('3'),
        active_manifest_digest: stand_in_digest('1'),
    }
}

/// The command of the agent that runs in a Task.
fn agent_command() -> (command: Vec<String>)
    ensures
        views(command@) == seq!["agent-v1"@],
{
    let command = texts(&["agent-v1"]);
    assert(views(command@) =~= seq!["agent-v1"@]);
    command
}

/// The reservation of a Task of the cleanup matrix, whose spec the envelope was held against with
/// `decision`.
pub fn matrix_reservation(
    task_uid: Uuid,
    operation_id: Uuid,
    service: &str,
    owner_user_id: &str,
    authority: &Envelope,
    admitted_spec: &RuntimeSpec,
    decision: AdmissionDecision,
    entry_state: CleanupEntryState,
    suffix: &str,
) -> (request: TaskReservationRequest)
    ensures
        request@ == matrix_reservation_view(
            task_uid@,
            operation_id@,
            service@,
            owner_user_id@,
            authority@,
            admitted_spec@,
            decision,
            entry_state,
            suffix@,
        ),
{
    proof {
        reveal_strlit("1");
        reveal_strlit("2");
        reveal_strlit("3");
    }
    let name = simple(&operation_id);
    TaskReservationRequest {
        task_uid,
        operation_id,
        idempotency_key: concat4("cleanup-", entry_name(entry_state), "-", suffix),
        submitter_service: service.to_owned(),
        acting_user: Some("alice@example.com".to_owned()),
        acting_user_id: Some(owner_user_id.to_owned()),
        owner: "alice@example.com".to_owned(),
        owner_user_id: owner_user_id.to_owned(),
        workflow: "cleanup-matrix".to_owned(),
        workflow_name: None,
        workflow_version: None,
        workflow_digest: None,
        user_envelope_instance_id: None,
        user_envelope_revision: None,
        user_envelope_digest: None,
        coding_agent_runtime: "agent-v1".to_owned(),
        runtime_uid: None,
        runtime_namespace: "steward-test".to_owned(),
        runtime_name: concat2("task-", name.as_str()),
        runtime_ownership: RuntimeOwnership::Provisioned,
        runtime_spec: matrix_spec(admitted_spec, entry_state),
        agent_command: agent_command(),
        execution_binding: None,
        direct_task_evidence: None,
        envelope_revision: authority.revision,
        service_envelope: authority.copy(),
        service_envelope_digest: stand_in("2"),
        candidate_digest: stand_in("1"),
        admission_decision: decision,
        inert_manifest_digest: stand_in("3"),
        active_manifest_digest: stand_in("1"),
    }
}

/// The identity of the runtime that is observed for an operation.
pub fn observed_runtime_uid(operation_id: &Uuid) -> (uid: String)
    ensures
        uid@ == "runtime-"@ + hyphenated_text(operation_id@),
{
    let words = hyphenated(operation_id);
    concat2("runtime-", words.as_str())
}

/// The delivery of an approval to those who decide it.
pub struct ApprovalDelivery {
    pub effect_id: Uuid,
    pub generation: i64,
    pub approval_id: Uuid,
    pub task_uid: Uuid,
}

/// What the store has no answer to.
#[derive(PartialEq, Eq, Structural, Clone, Copy, Debug)]
pub enum StoreFault {
    ApprovalNotFound,
    ForeignDelivery,
    NotApplied,
    AlreadyReserved,
    InvalidConnectionOperation,
}

/// Whether two identifiers are the same.
pub fn same_id(left: &Uuid, right: &Uuid) -> (same: bool)
    ensures
        same == (left@ == right@),
{
    let mut i: usize = 0;
    while i < 16
        invariant
            i <= 16,
            forall|j: int| 0 <= j < i ==> left@[j] == right@[j],
        decreases 16 - i,
    {
        if left[i] != right[i] {
            return false;
        }
        i = i + 1;
    }
    assert(left@ =~= right@);
    true
}

/// The approval that an operation waits for.
pub fn awaited_approval(approval_id: Option<Uuid>) -> (found: Result<Uuid, StoreFault>)
    ensures
        match approval_id {
            Some(id) => found == Ok::<Uuid, StoreFault>(id),
            None => found == Err::<Uuid, StoreFault>(StoreFault::ApprovalNotFound),
        },
{
    match approval_id {
        Some(id) => Ok(id),
        None => Err(StoreFault::ApprovalNotFound),
    }
}

/// The claimed delivery, where it is the one of the approval that is waited for.
pub fn claimed_delivery(delivery: Option<ApprovalDelivery>, approval_id: &Uuid) -> (found: Result<
    ApprovalDelivery,
    StoreFault,
>)
    ensures
        match delivery {
            None => found == Err::<ApprovalDelivery, StoreFault>(StoreFault::ApprovalNotFound),
            Some(claimed) => if claimed.approval_id@ != approval_id@ {
                found == Err::<ApprovalDelivery, StoreFault>(StoreFault::ApprovalNotFound)
            } else {
                found == Ok::<ApprovalDelivery, StoreFault>(claimed)
            },
        },
{
    match delivery {
        None => Err(StoreFault::ApprovalNotFound),
        Some(claimed) => if !same_id(&claimed.approval_id, approval_id) {
            Err(StoreFault::ApprovalNotFound)
        } else {
            Ok(claimed)
        },
    }
}

/// Makes sure that a delivery is for a Task.
pub fn delivered_to(delivery: &ApprovalDelivery, task_uid: &Uuid) -> (outcome: Result<
    (),
    StoreFault,
>)
    ensures
        outcome == (if delivery.task_uid@ == task_uid@ {
            Ok::<(), StoreFault>(())
        } else {
            Err::<(), StoreFault>(StoreFault::ForeignDelivery)
        }),
{
    if same_id(&delivery.task_uid, task_uid) {
        Ok(())
    } else {
        Err(StoreFault::ForeignDelivery)
    }
}

/// What is observed of an activated runtime.
pub struct ActivationObservation {
    pub runtime_uid: String,
    pub resource_version: String,
    pub active_manifest_digest: String,
    pub provider_set_ready: bool,
}

/// What is observed of an activated runtime whose manifest has the digest `digit`.
pub fn activation_observation(runtime_uid: &str, digit: &str) -> (observation: ActivationObservation)
    requires
        digit@.len() == 1,
    ensures
        observation.runtime_uid@ == runtime_uid@,
        observation.resource_version@ == "resource-version-active"@,
        observation.active_manifest_digest@ == stand_in_digest(digit@[0]),
        observation.provider_set_ready,
{
    ActivationObservation {
        runtime_uid: runtime_uid.to_owned(),
        resource_version: "resource-version-active".to_owned(),
        active_manifest_digest: stand_in(digit),
        provider_set_ready: true,
    }
}

/// What a connection operation is to do.
#[derive(PartialEq, Eq, Structural, Clone, Copy, Debug)]
pub enum ConnectionOperationKind {
    Status,
    Start,
    Disconnect,
}

/// The authority under which connections are governed.
pub struct ConnectionsAuthority {
    pub service: String,
    pub version: i64,
    pub digest: String,
    pub response_deadline_seconds: i64,
    pub envelope: Envelope,
}

/// A planned connection operation: what it runs, with what and how.
pub struct ConnectionPlan {
    pub spec: RuntimeSpec,
    pub command: Vec<String>,
    pub bindings: ConnectionExecutionBindings,
}

/// A request to reserve a connection operation.
pub struct ConnectionReservationRequest {
    pub operation_id: Uuid,
    pub operation_kind: ConnectionOperationKind,
    pub authority_id: String,
    pub authority_version: i64,
    pub authority_digest: String,
    pub bindings: ConnectionExecutionBindings,
    pub idempotency_identity: String,
    pub response_deadline_seconds: i64,
    pub allow_status_cache: bool,
    pub input_archive: Vec<u8>,
    pub task: TaskReservationRequest,
}

/// The reservation of the Task that carries out a connection operation.
pub open spec fn connection_task_view(
    task_uid: Seq<u8>,
    operation_id: Seq<u8>,
    user_id: Seq<char>,
    email: Seq<char>,
    idempotency_identity: Seq<char>,
    namespace: Seq<char>,
    spec: RuntimeSpecView,
    command: Seq<Seq<char>>,
    service: Seq<char>,
    version: i64,
    envelope: EnvelopeView,
) -> TaskReservationView {
    TaskReservationView {
        task_uid,
        operation_id,
        idempotency_key: idempotency_identity,
        submitter_service: service,
        acting_user: Some(email),
        acting_user_id: Some(user_id),
        owner: email,
        owner_user_id: user_id,
        workflow: "internal:steward-connections/v1"@,
        workflow_name: None,
        workflow_version: None,
        workflow_digest: None,
        user_envelope_instance_id: None,
        user_envelope_revision: None,
        user_envelope_digest: None,
        coding_agent_runtime: "connections-bridge"@,
        runtime_uid: None,
        runtime_namespace: namespace,
        runtime_name: "conn-"@ + simple_text(operation_id),
        runtime_ownership: RuntimeOwnership::Provisioned,
        runtime_spec: spec,
        agent_command: command,
        execution_binding: None,
        direct_task_evidence: None,
        envelope_revision: version,
        service_envelope: envelope,
        service_envelope_digest: stand_in_digest('b'),
        candidate_digest: stand_in_digest('a'),
        admission_decision: AdmissionDecision::Admit,
        inert_manifest_digest: stand_in_digest('c'),
        active_manifest_digest: stand_in_digest('a'),
    }
}

/// The reservation of a planned connection operation: its bindings are those of the plan, its
/// Task runs what the plan says in the namespace of the bindings, and its owner is who acts. An
/// operation that could not be planned is not reserved.
pub fn reserve_governed_connection_with_bindings(
    task_uid: Uuid,
    operation_id: Uuid,
    user_id: &str,
    email: &str,
    operation_kind: ConnectionOperationKind,
    allow_status_cache: bool,
    idempotency_identity: &str,
    plan: Result<ConnectionPlan, String>,
    authority: &ConnectionsAuthority,
) -> (reservation: Result<ConnectionReservationRequest, StoreFault>)
    ensures
        match plan {
            Err(_) => reservation == Err::<ConnectionReservationRequest, StoreFault>(
                StoreFault::InvalidConnectionOperation,
            ),
            Ok(plan) => {
                &&& reservation matches Ok(request)
                &&& request.operation_id@ == operation_id@
                &&& request.operation_kind == operation_kind
                &&& request.authority_id@ == authority.service@
                &&& request.authority_version == authority.version
                &&& request.authority_digest@ == authority.digest@
                &&& request.bindings == plan.bindings
                &&& request.idempotency_identity@ == idempotency_identity@
                &&& request.response_deadline_seconds == authority.response_deadline_seconds
                &&& request.allow_status_cache == allow_status_cache
                &&& request.input_archive@ == seq![1u8]
                &&& request.task@ == connection_task_view(
                    task_uid@,
                    operation_id@,
                    user_id@,
                    email@,
                    idempotency_identity@,
                    plan.bindings.namespace@,
                    plan.spec@,
                    views(plan.command@),
                    authority.service@,
                    authority.version,
                    authority.envelope@,
                )
            },
        },
{
    let plan = match plan {
        Ok(plan) => plan,
        Err(_) => return Err(StoreFault::InvalidConnectionOperation),
    };
    proof {
        reveal_strlit("a");
        reveal_strlit("b");
        reveal_strlit("c");
    }
    let name = simple(&operation_id);
    let task = TaskReservationRequest {
        task_uid,
        operation_id,
        idempotency_key: idempotency_identity.to_owned(),
        submitter_service: authority.service.clone(),
        acting_user: Some(email.to_owned()),
        acting_user_id: Some(user_id.to_owned()),
        owner: email.to_owned(),
        owner_user_id: user_id.to_owned(),
        workflow: "internal:steward-connections/v1".to_owned(),
        workflow_name: None,
        workflow_version: None,
        workflow_digest: None,
        user_envelope_instance_id: None,
        user_envelope_revision: None,
        user_envelope_digest: None,
        coding_agent_runtime: "connections-bridge".to_owned(),
        runtime_uid: None,
        runtime_namespace: plan.bindings.namespace.clone(),
        runtime_name: concat2("conn-", name.as_str()),
        runtime_ownership: RuntimeOwnership::Provisioned,
        runtime_spec: plan.spec,
        agent_command: plan.command,
        execution_binding: None,
        direct_task_evidence: None,
        envelope_revision: authority.version,
        service_envelope: authority.envelope.copy(),
        service_envelope_digest: stand_in("b"),
        candidate_digest: stand_in("a"),
        admission_decision: AdmissionDecision::Admit,
        inert_manifest_digest: stand_in("c"),
        active_manifest_digest: stand_in("a"),
    };
    let input_archive: Vec<u8> = vec![1u8];
    assert(input_archive@ =~= seq![1u8]);
    Ok(ConnectionReservationRequest {
        operation_id,
        operation_kind,
        authority_id: authority.service.clone(),
        authority_version: authority.version,
        authority_digest: authority.digest.clone(),
        bindings: plan.bindings,
        idempotency_identity: idempotency_identity.to_owned(),
        response_deadline_seconds: authority.response_deadline_seconds,
        allow_status_cache,
        input_archive,
        task,
    })
}

/// What the suites carry connection operations out with.
pub fn governed_connection_bindings() -> (bindings: ConnectionExecutionBindings)
    ensures
        option_text(bindings.artifact_trust_mode) == Some("github-attestation"@),
        bindings.bridge_image_digest@
            == "ghcr.io/example-org/steward-connections-bridge@sha256:0123456789abcdef0123456789abcdef0123456789abcdef0123456789abcdef"@,
        bindings.mcp_gw_origin@ == "https://mcp-gw.example.test"@,
        bindings.mcp_gw_version@ == "0.3.2"@,
        bindings.namespace@ == "steward-test"@,
        bindings.runtime_class@ == "kata-qemu"@,
{
    ConnectionExecutionBindings {
        artifact_trust_mode: Some("github-attestation".to_owned()),
        bridge_image_digest:
            "ghcr.io/example-org/steward-connections-bridge@sha256:0123456789abcdef0123456789abcdef0123456789abcdef0123456789abcdef".to_owned(),
        mcp_gw_origin: "https://mcp-gw.example.test".to_owned(),
        mcp_gw_version: "0.3.2".to_owned(),
        namespace: "steward-test".to_owned(),
        runtime_class: "kata-qemu".to_owned(),
    }
}

/// For how long what is known of a connection operation is kept.
#[derive(PartialEq, Eq, Structural, Clone, Copy, Debug)]
pub struct ConnectionOperationRetention {
    pub cache_ttl_seconds: i64,
    pub result_ttl_seconds: i64,
    pub oauth_lifetime_seconds: i64,
}

/// For how long the suites keep what is known of a connection operation.
pub fn connection_operation_retention() -> (retention: ConnectionOperationRetention)
    ensures
        retention == (ConnectionOperationRetention {
            cache_ttl_seconds: 5,
            result_ttl_seconds: 30,
            oauth_lifetime_seconds: 630,
        }),
{
    ConnectionOperationRetention {
        cache_ttl_seconds: 5,
        result_ttl_seconds: 30,
        oauth_lifetime_seconds: 630,
    }
}

/// The schema of the store of one test, so that tests do not take each other's work.
pub fn isolated_schema(id: &Uuid) -> (schema: String)
    ensures
        schema@ == "approval_queue_"@ + simple_text(id@),
{
    let name = simple(id);
    concat2("approval_queue_", name.as_str())
}

/// What the database is asked for the schema of a test.
pub fn schema_creation(schema: &str) -> (statement: String)
    ensures
        statement@ == "CREATE SCHEMA \""@ + schema@ + "\""@,
{
    concat3("CREATE SCHEMA \"", schema, "\"")
}

/// Two tests have different schemas.
pub proof fn law_schemas_are_isolated(left: Seq<u8>, right: Seq<u8>)
    requires
        left.len() == 16,
        right.len() == 16,
        left != right,
    ensures
        "approval_queue_"@ + simple_text(left) != "approval_queue_"@ + simple_text(right),
{
    let prefix = "approval_queue_"@;
    let a = prefix + simple_text(left);
    let b = prefix + simple_text(right);
    if a == b {
        assert(a.subrange(prefix.len() as int, a.len() as int) =~= simple_text(left));
        assert(b.subrange(prefix.len() as int, b.len() as int) =~= simple_text(right));
        crate::text::lemma_hex_tells_apart(left, right);
    }
}

/// Members can be put into a tree: it is an object, or null, which becomes one.
pub open spec fn takes_members(tree: JsonTree) -> bool {
    tree is Object || tree is Null
}

/// The evidence of a direct Task can be made from the sample.
pub open spec fn is_sample(sample: JsonTree) -> bool {
    takes_members(sample) && (member_tree(sample, "envelope"@) matches Some(found)
        ==> takes_members(found))
}

/// The evidence that binds a direct Task, made from a sample of it: with the Task, the envelope
/// request, its revision and its digest in their places.
pub open spec fn evidence_tree(
    sample: JsonTree,
    task_uid: Seq<u8>,
    request_id: Seq<u8>,
    revision: i64,
    digest: Seq<char>,
) -> JsonTree {
    let before = match member_tree(sample, "envelope"@) {
        Some(found) => tree_members(found),
        None => Map::empty(),
    };
    let envelope = before.insert("uid"@, JsonTree::Text(hyphenated_text(request_id))).insert(
        "revision"@,
        signed_tree(revision as int),
    ).insert("digest"@, JsonTree::Text("steward:"@ + digest));
    JsonTree::Object(
        tree_members(sample).insert("taskUid"@, JsonTree::Text(hyphenated_text(task_uid))).insert(
            "envelope"@,
            JsonTree::Object(envelope),
        ),
    )
}

/// The value itself, or an object without members where it is null.
fn as_object(value: serde_json::Value) -> (object: serde_json::Value)
    requires
        takes_members(json_tree(value)),
    ensures
        json_tree(object) == JsonTree::Object(tree_members(json_tree(value))),
{
    if is_null(&value) {
        object()
    } else {
        value
    }
}

/// Makes the evidence that binds a direct Task from a sample of it.
pub fn direct_task_evidence(
    sample: serde_json::Value,
    task_uid: &Uuid,
    envelope_request_id: &Uuid,
    envelope_revision: i64,
    envelope_digest: &str,
) -> (evidence: serde_json::Value)
    requires
        is_sample(json_tree(sample)),
    ensures
        json_tree(evidence) == evidence_tree(
            json_tree(sample),
            task_uid@,
            envelope_request_id@,
            envelope_revision,
            envelope_digest@,
        ),
{
    let mut envelope = match member(&sample, "envelope") {
        Some(found) => as_object(copy(found)),
        None => object(),
    };
    let request = hyphenated(envelope_request_id);
    put(&mut envelope, "uid", text(request.as_str()));
    put(&mut envelope, "revision", signed(envelope_revision));
    let digest = concat2("steward:", envelope_digest);
    put(&mut envelope, "digest", text(digest.as_str()));
    let mut evidence = as_object(sample);
    let task = hyphenated(task_uid);
    put(&mut evidence, "taskUid", text(task.as_str()));
    put(&mut evidence, "envelope", envelope);
    evidence
}

/// Makes the evidence that binds a direct Task from a written sample of it; none where the sample
/// is not one that it can be made from, and an error where it is no JSON document.
pub fn evidence_from_sample(
    written: &[u8],
    task_uid: &Uuid,
    envelope_request_id: &Uuid,
    envelope_revision: i64,
    envelope_digest: &str,
) -> (evidence: Result<Option<serde_json::Value>, String>)
    ensures
        match json_document(written@) {
            None => evidence matches Err(words) && words@ == json_error_text(written@),
            Some(sample) => if is_sample(sample) {
                evidence matches Ok(Some(made)) && json_tree(made) == evidence_tree(
                    sample,
                    task_uid@,
                    envelope_request_id@,
                    envelope_revision,
                    envelope_digest@,
                )
            } else {
                evidence == Ok::<Option<serde_json::Value>, String>(None)
            },
        },
{
    let sample = match parse(written) {
        Ok(sample) => sample,
        Err(words) => return Err(words),
    };
    if !is_object(&sample) && !is_null(&sample) {
        return Ok(None);
    }
    if let Some(found) = member(&sample, "envelope") {
        if !is_object(found) && !is_null(found) {
            return Ok(None);
        }
    }
    Ok(
        Some(
            direct_task_evidence(
                sample,
                task_uid,
                envelope_request_id,
                envelope_revision,
                envelope_digest,
            ),
        ),
    )
}

/// The names of a direct Task that is governed by the envelope of its owner.
pub struct ActiveDirectTaskFixture {
    pub suffix: String,
    pub service: String,
    pub member_role: String,
    pub subject: String,
    pub email: String,
    pub authority: Envelope,
    pub envelope_request_key: String,
    pub envelope_instance_id: String,
    pub envelope_digest: String,
    pub service_envelope_digest: String,
}

impl ActiveDirectTaskFixture {
    /// All names carry the suffix, and the envelope admits two hundred and fifty dollars.
    pub open spec fn well_formed(&self) -> bool {
        &&& self.service@ == "direct-envelope-"@ + self.suffix@
        &&& self.member_role@ == "direct-role-"@ + self.suffix@
        &&& self.subject@ == "direct-envelope-subject-"@ + self.suffix@
        &&& self.email@ == "alice-"@ + self.suffix@ + "@example.com"@
        &&& self.authority@ == envelope_view("250.00"@, 1)
        &&& self.envelope_request_key@ == "direct-envelope-request-"@ + self.suffix@
        &&& self.envelope_instance_id@ == "env_direct_"@ + self.suffix@
        &&& self.envelope_digest@ == stand_in_digest('b')
        &&& self.service_envelope_digest@ == stand_in_digest('e')
    }

    /// The names of a direct Task, told apart by a label and the time in nanoseconds.
    pub fn new(label: &str, nanoseconds: u128) -> (fixture: ActiveDirectTaskFixture)
        ensures
            fixture.suffix@ == label@ + "-"@ + decimal_digits(nanoseconds as nat),
            fixture.well_formed(),
    {
        proof {
            reveal_strlit("b");
            reveal_strlit("e");
        }
        let digits = decimal(nanoseconds);
        let suffix = concat3(label, "-", digits.as_str());
        ActiveDirectTaskFixture {
            service: concat2("direct-envelope-", suffix.as_str()),
            member_role: concat2("direct-role-", suffix.as_str()),
            subject: concat2("direct-envelope-subject-", suffix.as_str()),
            email: concat3("alice-", suffix.as_str(), "@example.com"),
            authority: envelope("250.00", 1),
            envelope_request_key: concat2("direct-envelope-request-", suffix.as_str()),
            envelope_instance_id: concat2("env_direct_", suffix.as_str()),
            envelope_digest: stand_in("b"),
            service_envelope_digest: stand_in("e"),
            suffix,
        }
    }

    /// What the Task runs: what is proposed, run by the service for the owner.
    pub fn spec(&self, owner: &str, owner_user_id: &str) -> (spec: RuntimeSpec)
        ensures
            spec@ == delegated(proposed_view(), self.service@, owner@, owner_user_id@),
    {
        delegated_spec(self.service.as_str(), owner, owner_user_id)
    }

    /// The reservation of a direct Task of the owner.
    pub open spec fn reservation_view(
        &self,
        task_uid: Seq<u8>,
        operation_id: Seq<u8>,
        label: Seq<char>,
        owner: Seq<char>,
        owner_user_id: Seq<char>,
        evidence: JsonTree,
    ) -> TaskReservationView {
        TaskReservationView {
            task_uid,
            operation_id,
            idempotency_key: "direct-task-"@ + label + "-"@ + self.suffix@,
            submitter_service: self.service@,
            acting_user: Some(owner),
            acting_user_id: Some(owner_user_id),
            owner,
            owner_user_id,
            workflow: "direct:release-summary@v1"@,
            workflow_name: None,
            workflow_version: None,
            workflow_digest: None,
            user_envelope_instance_id: Some(self.envelope_instance_id@),
            user_envelope_revision: Some(self.authority.revision),
            user_envelope_digest: Some(self.envelope_digest@),
            coding_agent_runtime: "agent-v1"@,
            runtime_uid: None,
            runtime_namespace: "steward-test"@,
            runtime_name: "task-"@ + simple_text(operation_id),
            runtime_ownership: RuntimeOwnership::Provisioned,
            runtime_spec: delegated(proposed_view(), self.service@, owner, owner_user_id),
            agent_command: seq!["agent-v1"@],
            execution_binding: None,
            direct_task_evidence: Some(evidence),
            envelope_revision: self.authority.revision,
            service_envelope: self.authority@,
            service_envelope_digest: self.service_envelope_digest@,
            candidate_digest: stand_in_digest('c'),
            admission_decision: AdmissionDecision::Admit,
            inert_manifest_digest: stand_in_digest('d'),
            active_manifest_digest: stand_in_digest('c'),
        }
    }

    /// The reservation of a direct Task of the owner, which the envelope has to admit. `decision`
    /// is what came of holding the spec of the Task against the envelope.
    pub fn try_reserve_task(
        &self,
        task_uid: Uuid,
        operation_id: Uuid,
        label: &str,
        owner: &str,
        owner_user_id: &str,
        evidence: serde_json::Value,
        decision: Result<AdmissionDecision, String>,
    ) -> (request: Result<TaskReservationRequest, String>)
        ensures
            match decision {
                Err(error) => request matches Err(words) && words@ == "evaluate direct Task: "@
                    + error@,
                Ok(AdmissionDecision::Admit) => request matches Ok(made) && made@
                    == self.reservation_view(
                    task_uid@,
                    operation_id@,
                    label@,
                    owner@,
                    owner_user_id@,
                    json_tree(evidence),
                ),
                Ok(_) => request matches Err(words) && words@ == "direct Task was not admitted"@,
            },
    {
        proof {
            reveal_strlit("c");
            reveal_strlit("d");
        }
        match decision {
            Err(error) => return Err(concat2("evaluate direct Task: ", error.as_str())),
            Ok(AdmissionDecision::Admit) => {},
            Ok(_) => return Err("direct Task was not admitted".to_owned()),
        }
        let name = simple(&operation_id);
        Ok(
            TaskReservationRequest {
                task_uid,
                operation_id,
                idempotency_key: concat4("direct-task-", label, "-", self.suffix.as_str()),
                submitter_service: self.service.clone(),
                acting_user: Some(owner.to_owned()),
                acting_user_id: Some(owner_user_id.to_owned()),
                owner: owner.to_owned(),
                owner_user_id: owner_user_id.to_owned(),
                workflow: "direct:release-summary@v1".to_owned(),
                workflow_name: None,
                workflow_version: None,
                workflow_digest: None,
                user_envelope_instance_id: Some(self.envelope_instance_id.clone()),
                user_envelope_revision: Some(self.authority.revision),
                user_envelope_digest: Some(self.envelope_digest.clone()),
                coding_agent_runtime: "agent-v1".to_owned(),
                runtime_uid: None,
                runtime_namespace: "steward-test".to_owned(),
                runtime_name: concat2("task-", name.as_str()),
                runtime_ownership: RuntimeOwnership::Provisioned,
                runtime_spec: self.spec(owner, owner_user_id),
                agent_command: agent_command(),
                execution_binding: None,
                direct_task_evidence: Some(evidence),
                envelope_revision: self.authority.revision,
                service_envelope: self.authority.copy(),
                service_envelope_digest: self.service_envelope_digest.clone(),
                candidate_digest: stand_in("c"),
                admission_decision: AdmissionDecision::Admit,
                inert_manifest_digest: stand_in("d"),
                active_manifest_digest: stand_in("c"),
            },
        )
    }

    /// The reservation of a direct Task of the owner, with the evidence that binds the Task to the
    /// request for the envelope that governs it, made from a written sample; none where the sample
    /// is not one that it can be made from.
    pub fn reserve_with_evidence(
        &self,
        task_uid: Uuid,
        operation_id: Uuid,
        label: &str,
        owner: &str,
        owner_user_id: &str,
        envelope_request_id: &Uuid,
        written: &[u8],
        decision: Result<AdmissionDecision, String>,
    ) -> (request: Result<Option<TaskReservationRequest>, String>)
        ensures
            match decision {
                Err(error) => request matches Err(words) && words@ == "evaluate direct Task: "@
                    + error@,
                Ok(AdmissionDecision::Admit) => match json_document(written@) {
                    None => request matches Err(words) && words@ == json_error_text(written@),
                    Some(sample) => if is_sample(sample) {
                        request matches Ok(Some(made)) && made@ == self.reservation_view(
                            task_uid@,
                            operation_id@,
                            label@,
                            owner@,
                            owner_user_id@,
                            evidence_tree(
                                sample,
                                task_uid@,
                                envelope_request_id@,
                                self.authority.revision,
                                self.envelope_digest@,
                            ),
                        )
                    } else {
                        request == Ok::<Option<TaskReservationRequest>, String>(None)
                    },
                },
                Ok(_) => request matches Err(words) && words@ == "direct Task was not admitted"@,
            },
    {
        match decision {
            Err(error) => return Err(concat2("evaluate direct Task: ", error.as_str())),
            Ok(AdmissionDecision::Admit) => {},
            Ok(_) => return Err("direct Task was not admitted".to_owned()),
        }
        match evidence_from_sample(
            written,
            &task_uid,
            envelope_request_id,
            self.authority.revision,
            self.envelope_digest.as_str(),
        ) {
            Err(words) => Err(words),
            Ok(None) => Ok(None),
            Ok(Some(evidence)) => match self.try_reserve_task(
                task_uid,
                operation_id,
                label,
                owner,
                owner_user_id,
                evidence,
                Ok(AdmissionDecision::Admit),
            ) {
                Ok(made) => Ok(Some(made)),
                Err(words) => Err(words),
            },
        }
    }

    /// The envelopes that are there before anything is asked for: one of the service and one of the
    /// role, both with the same authority.
    pub fn seeded_envelopes(&self) -> (seeded: (SeededEnvelope, SeededEnvelope))
        ensures
            seeded.0@ == (SeededEnvelopeView {
                scope: EnvelopeScope::Service,
                scope_ref: self.service@,
                envelope: self.authority@,
                actor: "admin@example.com"@,
            }),
            seeded.1@ == (SeededEnvelopeView {
                scope: EnvelopeScope::MemberRole,
                scope_ref: self.member_role@,
                envelope: self.authority@,
                actor: "admin@example.com"@,
            }),
    {
        (
            SeededEnvelope {
                scope: EnvelopeScope::Service,
                scope_ref: self.service.clone(),
                envelope: self.authority.copy(),
                actor: "admin@example.com".to_owned(),
            },
            SeededEnvelope {
                scope: EnvelopeScope::MemberRole,
                scope_ref: self.member_role.clone(),
                envelope: self.authority.copy(),
                actor: "admin@example.com".to_owned(),
            },
        )
    }

    /// The request of the owner for an envelope after the template of the role.
    pub open spec fn request_view(&self, owner_user_id: Seq<char>, key: Seq<char>)
        -> EnvelopeRequestView {
        EnvelopeRequestView {
            owner_user_id,
            template_id: self.member_role@,
            template_revision: self.authority.revision,
            requested_envelope: self.authority@,
            idempotency_key: key,
            actor: owner_user_id,
        }
    }

    /// A request for an envelope that is provisioned as it was asked for.
    pub open spec fn update_view(&self, owner_user_id: Seq<char>, instance: Seq<char>)
        -> EnvelopeStatusUpdateView {
        EnvelopeStatusUpdateView {
            from: EnvelopeRequestStatus::Pending,
            to: EnvelopeRequestStatus::Provisioned,
            approval_id: None,
            envelope_instance_id: Some(instance),
            envelope_digest: Some(self.envelope_digest@),
            reason: None,
            approved_envelope: Some(self.authority@),
            actor: owner_user_id,
        }
    }

    /// The request of the owner for an envelope.
    fn request_with(&self, owner_user_id: &str, key: String) -> (request: EnvelopeRequest)
        ensures
            request@ == self.request_view(owner_user_id@, key@),
    {
        EnvelopeRequest {
            owner_user_id: owner_user_id.to_owned(),
            template_id: self.member_role.clone(),
            template_revision: self.authority.revision,
            requested_envelope: self.authority.copy(),
            idempotency_key: key,
            actor: owner_user_id.to_owned(),
        }
    }

    /// A request for an envelope that is provisioned.
    fn update_with(&self, owner_user_id: &str, instance: String) -> (update: EnvelopeStatusUpdate)
        ensures
            update@ == self.update_view(owner_user_id@, instance@),
    {
        EnvelopeStatusUpdate {
            from: EnvelopeRequestStatus::Pending,
            to: EnvelopeRequestStatus::Provisioned,
            approval_id: None,
            envelope_instance_id: Some(instance),
            envelope_digest: Some(self.envelope_digest.clone()),
            reason: None,
            approved_envelope: Some(self.authority.copy()),
            actor: owner_user_id.to_owned(),
        }
    }

    /// The request of the owner for the envelope that governs the Task, and how it is provisioned.
    pub fn envelope_request(&self, owner_user_id: &str) -> (asked: (
        EnvelopeRequest,
        EnvelopeStatusUpdate,
    ))
        ensures
            asked.0@ == self.request_view(owner_user_id@, self.envelope_request_key@),
            asked.1@ == self.update_view(owner_user_id@, self.envelope_instance_id@),
    {
        (
            self.request_with(owner_user_id, self.envelope_request_key.clone()),
            self.update_with(owner_user_id, self.envelope_instance_id.clone()),
        )
    }

    /// The key of the request for an envelope that takes the place of the present one.
    pub open spec fn replacement_key(&self, label: Seq<char>) -> Seq<char> {
        "replacement-"@ + label + "-"@ + self.suffix@
    }

    /// The instance of an envelope that takes the place of the present one.
    pub open spec fn replacement_instance(&self, label: Seq<char>) -> Seq<char> {
        "env_direct_replacement_"@ + label + "_"@ + self.suffix@
    }

    /// The request of the owner for an envelope that takes the place of the present one, and how
    /// it is provisioned.
    pub fn supersede_envelope(&self, label: &str, owner_user_id: &str) -> (asked: (
        EnvelopeRequest,
        EnvelopeStatusUpdate,
    ))
        ensures
            asked.0@ == self.request_view(owner_user_id@, self.replacement_key(label@)),
            asked.1@ == self.update_view(owner_user_id@, self.replacement_instance(label@)),
    {
        let key = concat4("replacement-", label, "-", self.suffix.as_str());
        let instance = concat4("env_direct_replacement_", label, "_", self.suffix.as_str());
        (self.request_with(owner_user_id, key), self.update_with(owner_user_id, instance))
    }

    /// The Task of a reservation, which has to be a new one.
    pub fn reserve_task(inserted: bool, task_uid: Uuid) -> (reserved: Result<Uuid, StoreFault>)
        ensures
            reserved == (if inserted {
                Ok::<Uuid, StoreFault>(task_uid)
            } else {
                Err::<Uuid, StoreFault>(StoreFault::AlreadyReserved)
            }),
    {
        if inserted {
            Ok(task_uid)
        } else {
            Err(StoreFault::AlreadyReserved)
        }
    }
}

/// An envelope that takes the place of another one is told from it by its request and by its
/// instance alone: what is approved, and the digest of that, are the same.
pub proof fn law_a_replacement_is_another_instance_of_the_same_envelope(
    fixture: ActiveDirectTaskFixture,
    label: Seq<char>,
    owner_user_id: Seq<char>,
)
    requires
        fixture.well_formed(),
    ensures
        ({
            let present = fixture.update_view(owner_user_id, fixture.envelope_instance_id@);
            let replacement = fixture.update_view(
                owner_user_id,
                fixture.replacement_instance(label),
            );
            &&& replacement.approved_envelope == present.approved_envelope
            &&& replacement.envelope_digest == present.envelope_digest
            &&& replacement.envelope_instance_id != present.envelope_instance_id
            &&& fixture.replacement_key(label) != fixture.envelope_request_key@
        }),
{
    reveal_strlit("env_direct_replacement_");
    reveal_strlit("env_direct_");
    reveal_strlit("_");
    reveal_strlit("replacement-");
    reveal_strlit("direct-envelope-request-");
    assert(fixture.replacement_instance(label).len() > fixture.envelope_instance_id@.len());
    assert(fixture.replacement_key(label)[0] == 'r');
    assert(fixture.envelope_request_key@[0] == 'd');
}

/// For whom an envelope sets the limits.
#[derive(PartialEq, Eq, Structural, Clone, Copy, Debug)]
pub enum EnvelopeScope {
    Service,
    MemberRole,
}

/// An envelope that is there before anything is asked for.
pub struct SeededEnvelope {
    pub scope: EnvelopeScope,
    pub scope_ref: String,
    pub envelope: Envelope,
    pub actor: String,
}

pub ghost struct SeededEnvelopeView {
    pub scope: EnvelopeScope,
    pub scope_ref: Seq<char>,
    pub envelope: EnvelopeView,
    pub actor: Seq<char>,
}

impl View for SeededEnvelope {
    type V = SeededEnvelopeView;

    open spec fn view(&self) -> SeededEnvelopeView {
        SeededEnvelopeView {
            scope: self.scope,
            scope_ref: self.scope_ref@,
            envelope: self.envelope@,
            actor: self.actor@,
        }
    }
}

/// A request for an envelope.
pub struct EnvelopeRequest {
    pub owner_user_id: String,
    pub template_id: String,
    pub template_revision: i64,
    pub requested_envelope: Envelope,
    pub idempotency_key: String,
    pub actor: String,
}

pub ghost struct EnvelopeRequestView {
    pub owner_user_id: Seq<char>,
    pub template_id: Seq<char>,
    pub template_revision: i64,
    pub requested_envelope: EnvelopeView,
    pub idempotency_key: Seq<char>,
    pub actor: Seq<char>,
}

impl View for EnvelopeRequest {
    type V = EnvelopeRequestView;

    open spec fn view(&self) -> EnvelopeRequestView {
        EnvelopeRequestView {
            owner_user_id: self.owner_user_id@,
            template_id: self.template_id@,
            template_revision: self.template_revision,
            requested_envelope: self.requested_envelope@,
            idempotency_key: self.idempotency_key@,
            actor: self.actor@,
        }
    }
}

/// How far a request for an envelope has come.
#[derive(PartialEq, Eq, Structural, Clone, Copy, Debug)]
pub enum EnvelopeRequestStatus {
    Pending,
    Provisioned,
}

/// A step of a request for an envelope.
pub struct EnvelopeStatusUpdate {
    pub from: EnvelopeRequestStatus,
    pub to: EnvelopeRequestStatus,
    pub approval_id: Option<Uuid>,
    pub envelope_instance_id: Option<String>,
    pub envelope_digest: Option<String>,
    pub reason: Option<String>,
    pub approved_envelope: Option<Envelope>,
    pub actor: String,
}

pub ghost struct EnvelopeStatusUpdateView {
    pub from: EnvelopeRequestStatus,
    pub to: EnvelopeRequestStatus,
    pub approval_id: Option<Uuid>,
    pub envelope_instance_id: Option<Seq<char>>,
    pub envelope_digest: Option<Seq<char>>,
    pub reason: Option<Seq<char>>,
    pub approved_envelope: Option<EnvelopeView>,
    pub actor: Seq<char>,
}

impl View for EnvelopeStatusUpdate {
    type V = EnvelopeStatusUpdateView;

    open spec fn view(&self) -> EnvelopeStatusUpdateView {
        EnvelopeStatusUpdateView {
            from: self.from,
            to: self.to,
            approval_id: self.approval_id,
            envelope_instance_id: option_text(self.envelope_instance_id),
            envelope_digest: option_text(self.envelope_digest),
            reason: option_text(self.reason),
            approved_envelope: match self.approved_envelope {
                Some(envelope) => Some(envelope@),
                None => None,
            },
            actor: self.actor@,
        }
    }
}

/// A decision channel that is slow to answer: how often an issue was asked for, and whether one
/// was delivered.
pub struct SlowDecisionChannel {
    pub creates: usize,
    pub delivered: bool,
}

/// Where a decision is asked for.
pub struct DecisionReference {
    pub key: String,
    pub evidence_url: String,
}

impl DecisionReference {
    /// The one place where this channel asks for decisions.
    pub open spec fn is_the_issue(&self) -> bool {
        self.key@ == "PROJ-123"@ && self.evidence_url@
            == "https://jira.example.test/browse/PROJ-123"@
    }
}

/// The one place where this channel asks for decisions.
fn the_issue() -> (reference: DecisionReference)
    ensures
        reference.is_the_issue(),
{
    DecisionReference {
        key: "PROJ-123".to_owned(),
        evidence_url: "https://jira.example.test/browse/PROJ-123".to_owned(),
    }
}

pub ghost struct ChannelView {
    pub creates: usize,
    pub delivered: bool,
}

impl View for SlowDecisionChannel {
    type V = ChannelView;

    open spec fn view(&self) -> ChannelView {
        ChannelView { creates: self.creates, delivered: self.delivered }
    }
}

impl ChannelView {
    /// A channel that was asked for nothing.
    pub open spec fn unused() -> ChannelView {
        ChannelView { creates: 0, delivered: false }
    }

    /// What becomes of a request that comes in now: only the first one is let through.
    pub open spec fn answer(self) -> Result<(), Seq<char>> {
        if self.creates == 0 {
            Ok(())
        } else {
            Err("duplicate external create"@)
        }
    }

    /// The channel once a request came in.
    pub open spec fn requested(self) -> ChannelView {
        ChannelView { creates: crate::kube_api::one_more(self.creates), ..self }
    }

    /// The channel once the request that was let through is delivered.
    pub open spec fn delivering(self) -> ChannelView {
        ChannelView { delivered: true, ..self }
    }
}

impl SlowDecisionChannel {
    /// A channel that was asked for nothing.
    pub fn new() -> (channel: SlowDecisionChannel)
        ensures
            channel@ == ChannelView::unused(),
    {
        SlowDecisionChannel { creates: 0, delivered: false }
    }

    /// What is to be seen of a request: the issue once it is delivered.
    pub fn observe_request(&self) -> (seen: Option<DecisionReference>)
        ensures
            match seen {
                Some(reference) => self@.delivered && reference.is_the_issue(),
                None => !self@.delivered,
            },
    {
        if self.delivered {
            Some(the_issue())
        } else {
            None
        }
    }

    /// Takes a request. Only the first one is let through, to be delivered; any other is an error,
    /// also while the first one is under way.
    pub fn begin_request(&mut self) -> (outcome: Result<(), String>)
        ensures
            outcome_view(outcome) == old(self)@.answer(),
            final(self)@ == old(self)@.requested(),
    {
        let first = self.creates == 0;
        self.creates = if self.creates == usize::MAX {
            0
        } else {
            self.creates + 1
        };
        if first {
            Ok(())
        } else {
            Err("duplicate external create".to_owned())
        }
    }

    /// Delivers the request that was let through.
    pub fn deliver(&mut self) -> (reference: DecisionReference)
        ensures
            reference.is_the_issue(),
            final(self)@ == old(self)@.delivering(),
    {
        self.delivered = true;
        the_issue()
    }
}

/// What happens to a decision channel: a request comes in, or the request that came in as the
/// event `of` is delivered.
pub ghost enum ChannelEvent {
    Requested,
    Delivered { of: int },
}

/// The channel behind events that began with an unused one.
pub open spec fn channel_after(events: Seq<ChannelEvent>) -> ChannelView
    decreases events.len(),
{
    if events.len() == 0 {
        ChannelView::unused()
    } else {
        let before = channel_after(events.drop_last());
        match events.last() {
            ChannelEvent::Requested => before.requested(),
            ChannelEvent::Delivered { .. } => before.delivering(),
        }
    }
}

/// How many requests came in.
pub open spec fn requests_in(events: Seq<ChannelEvent>) -> nat
    decreases events.len(),
{
    if events.len() == 0 {
        0
    } else {
        requests_in(events.drop_last()) + if events.last() is Requested {
            1nat
        } else {
            0nat
        }
    }
}

/// The event at a position is a request, and this is what it is answered.
pub open spec fn is_answered(
    events: Seq<ChannelEvent>,
    at: int,
    answer: Result<(), Seq<char>>,
) -> bool {
    0 <= at < events.len() && events[at] is Requested && channel_after(events.take(at)).answer()
        == answer
}

/// A request is delivered only where it was let through before.
pub open spec fn only_answered_are_delivered(events: Seq<ChannelEvent>) -> bool {
    forall|at: int|
        0 <= at < events.len() ==> (#[trigger] events[at] matches ChannelEvent::Delivered { of }
            ==> of < at && is_answered(events, of, Ok(())))
}

/// The event at a position is the first request.
pub open spec fn is_first_request(events: Seq<ChannelEvent>, at: int) -> bool {
    &&& 0 <= at < events.len()
    &&& events[at] is Requested
    &&& forall|earlier: int| 0 <= earlier < at ==> !(#[trigger] events[earlier] is Requested)
}

/// A channel counts its requests, and is unused where there were none.
proof fn lemma_requests_are_counted(events: Seq<ChannelEvent>)
    requires
        events.len() <= usize::MAX,
    ensures
        requests_in(events) <= events.len(),
        channel_after(events).creates == requests_in(events),
        requests_in(events) == 0 <==> forall|at: int|
            0 <= at < events.len() ==> !(#[trigger] events[at] is Requested),
        channel_after(events).delivered <==> exists|at: int|
            0 <= at < events.len() && #[trigger] events[at] is Delivered,
    decreases events.len(),
{
    if events.len() > 0 {
        let before = events.drop_last();
        lemma_requests_are_counted(before);
        assert forall|at: int| 0 <= at < before.len() implies before[at] == events[at] by {}
        let last = events.len() - 1;
        assert(events[last] == events.last());
        if channel_after(before).delivered {
            let at = choose|at: int| 0 <= at < before.len() && #[trigger] before[at] is Delivered;
            assert(events[at] is Delivered);
        }
        if requests_in(before) > 0 {
            let at = choose|at: int| 0 <= at < before.len() && #[trigger] before[at] is Requested;
            assert(events[at] is Requested);
        }
    }
}

/// However requests and deliveries follow on each other, all requests are counted, the first one
/// alone is let through, every other one is told that it is a duplicate, and an issue is to be seen
/// exactly where a request was delivered, which can only be the first one. The law holds of as many
/// events as the count of the channel can tell apart.
pub proof fn law_one_request_alone_is_let_through(events: Seq<ChannelEvent>)
    requires
        events.len() <= usize::MAX,
        only_answered_are_delivered(events),
    ensures
        channel_after(events).creates == requests_in(events),
        forall|at: int| #[trigger]
            is_answered(events, at, Ok(())) <==> is_first_request(events, at),
        forall|at: int|
            0 <= at < events.len() && #[trigger] events[at] is Requested && !is_first_request(
                events,
                at,
            ) ==> is_answered(events, at, Err("duplicate external create"@)),
        channel_after(events).delivered <==> exists|at: int|
            0 <= at < events.len() && #[trigger] events[at] is Delivered,
        forall|at: int|
            0 <= at < events.len() ==> (#[trigger] events[at] matches ChannelEvent::Delivered { of }
                ==> is_first_request(events, of)),
{
    lemma_requests_are_counted(events);
    assert forall|at: int| 0 <= at < events.len() && #[trigger] events[at] is Requested implies (
    if is_first_request(events, at) {
        is_answered(events, at, Ok(()))
    } else {
        is_answered(events, at, Err("duplicate external create"@)) && !is_answered(
            events,
            at,
            Ok(()),
        )
    }) by {
        let before = events.take(at);
        lemma_requests_are_counted(before);
        assert forall|earlier: int| 0 <= earlier < at implies before[earlier]
            == events[earlier] by {}
        if is_first_request(events, at) {
            assert(requests_in(before) == 0);
        } else {
            let earlier = choose|earlier: int|
                0 <= earlier < at && #[trigger] events[earlier] is Requested;
            assert(before[earlier] is Requested);
        }
    }
}

/// A request that comes in delivers nothing by itself: whether it is let through or refused, what
/// was delivered stays as it was.
pub proof fn law_incoming_requests_deliver_nothing(channel: ChannelView)
    ensures
        channel.requested().delivered == channel.delivered,
{
}

/// A digest of one digit: its algorithm, and the digit sixty-four times.
pub proof fn law_stand_ins_are_digests(digit: char)
    ensures
        stand_in_digest(digit).len() == 71,
        stand_in_digest(digit).take(7) == "sha256:"@,
        forall|i: int| 7 <= i < 71 ==> #[trigger] stand_in_digest(digit)[i] == digit,
{
    reveal_strlit("sha256:");
    assert(stand_in_digest(digit).take(7) =~= "sha256:"@);
}

/// An identifier with hyphens is the one without them, parted into groups of eight, four, four, four
/// and twelve digits.
pub proof fn law_hyphens_part_the_digits(id: Seq<u8>)
    requires
        id.len() == 16,
    ensures
        ({
            let plain = simple_text(id);
            let words = hyphenated_text(id);
            &&& plain.len() == 32
            &&& words.len() == 36
            &&& words == plain.subrange(0, 8) + seq!['-'] + plain.subrange(8, 12) + seq!['-']
                + plain.subrange(12, 16) + seq!['-'] + plain.subrange(16, 20) + seq!['-']
                + plain.subrange(20, 32)
        }),
{
    reveal_strlit("-");
    assert("-"@ =~= seq!['-']);
    crate::text::lemma_hex_width(id);
    lemma_hex_of_a_part(id, 0, 4);
    lemma_hex_of_a_part(id, 4, 6);
    lemma_hex_of_a_part(id, 6, 8);
    lemma_hex_of_a_part(id, 8, 10);
    lemma_hex_of_a_part(id, 10, 16);
}

/// The digits of a part are a part of the digits.
proof fn lemma_hex_of_a_part(bytes: Seq<u8>, from: int, to: int)
    requires
        0 <= from <= to <= bytes.len(),
    ensures
        hex_digits(bytes.subrange(from, to)) == hex_digits(bytes).subrange(2 * from, 2 * to),
{
    let part = bytes.subrange(from, to);
    crate::text::lemma_hex_width(bytes);
    crate::text::lemma_hex_width(part);
    let whole = hex_digits(bytes);
    let digits = hex_digits(part);
    assert forall|i: int| 0 <= i < digits.len() implies digits[i] == whole[2 * from + i] by {
        let at = i / 2;
        crate::text::law_hex_digits_write_the_bytes(part, at);
        crate::text::law_hex_digits_write_the_bytes(bytes, from + at);
        assert(part[at] == bytes[from + at]);
        if i % 2 == 0 {
            assert(i == 2 * at);
        } else {
            assert(i == 2 * at + 1);
        }
    }
    assert(digits =~= whole.subrange(2 * from, 2 * to));
}

/// A reservation is for one person, who owns the Task and acts by it, on an operation of its own: the
/// runtime has the name of the operation behind a prefix, is not there yet, and is to become what
/// was admitted.
pub open spec fn is_for_one_person(
    reservation: TaskReservationView,
    task_uid: Seq<u8>,
    operation_id: Seq<u8>,
    prefix: Seq<char>,
    owner: Seq<char>,
    owner_user_id: Seq<char>,
) -> bool {
    &&& reservation.task_uid == task_uid
    &&& reservation.operation_id == operation_id
    &&& reservation.owner == owner
    &&& reservation.acting_user == Some(owner)
    &&& reservation.owner_user_id == owner_user_id
    &&& reservation.acting_user_id == Some(owner_user_id)
    &&& reservation.runtime_name == prefix + hex_digits(operation_id)
    &&& reservation.runtime_uid is None
    &&& reservation.runtime_ownership == RuntimeOwnership::Provisioned
    &&& reservation.active_manifest_digest == reservation.candidate_digest
    &&& reservation.inert_manifest_digest != reservation.active_manifest_digest
    &&& reservation.workflow_name is None
    &&& reservation.workflow_version is None
    &&& reservation.workflow_digest is None
    &&& reservation.execution_binding is None
}

/// Two digests of one digit each differ where the digits do.
proof fn lemma_stand_ins_differ(left: char, right: char)
    requires
        left != right,
    ensures
        stand_in_digest(left) != stand_in_digest(right),
{
    law_stand_ins_are_digests(left);
    law_stand_ins_are_digests(right);
    assert(stand_in_digest(left)[7] != stand_in_digest(right)[7]);
}

/// A Task of the cleanup matrix is reserved for Alice under the envelope of the service, with the
/// decision that was made. It asks for what was admitted and, exactly where it is to need an
/// approval, for more money than that.
pub proof fn law_matrix_reservations_are_for_alice(
    task_uid: Seq<u8>,
    operation_id: Seq<u8>,
    service: Seq<char>,
    owner_user_id: Seq<char>,
    authority: EnvelopeView,
    admitted: RuntimeSpecView,
    decision: AdmissionDecision,
    state: CleanupEntryState,
    suffix: Seq<char>,
)
    ensures
        ({
            let made = matrix_reservation_view(
                task_uid,
                operation_id,
                service,
                owner_user_id,
                authority,
                admitted,
                decision,
                state,
                suffix,
            );
            let dear = state == CleanupEntryState::ApprovalPending || state
                == CleanupEntryState::ApprovalClaimed || state == CleanupEntryState::ApprovalActive;
            &&& is_for_one_person(
                made,
                task_uid,
                operation_id,
                "task-"@,
                "alice@example.com"@,
                owner_user_id,
            )
            &&& made.submitter_service == service
            &&& made.service_envelope == authority
            &&& made.envelope_revision == authority.revision
            &&& made.admission_decision == decision
            &&& made.workflow == "cleanup-matrix"@
            &&& made.runtime_namespace == "steward-test"@
            &&& made.coding_agent_runtime == "agent-v1"@
            &&& made.agent_command == seq!["agent-v1"@]
            &&& made.user_envelope_instance_id is None && made.user_envelope_revision is None
                && made.user_envelope_digest is None
            &&& made.direct_task_evidence is None
            &&& made.runtime_spec.budget.monthly_limit == (if dear {
                "300.00"@
            } else {
                admitted.budget.monthly_limit
            })
            &&& made.runtime_spec.budget.single_run_limit == admitted.budget.single_run_limit
            &&& made.runtime_spec.budget.currency == admitted.budget.currency
            &&& made.runtime_spec.principal == admitted.principal
            &&& made.runtime_spec.owner == admitted.owner
            &&& made.runtime_spec.canonical_authority == admitted.canonical_authority
            &&& made.runtime_spec.agent_type == admitted.agent_type
            &&& made.runtime_spec.llms == admitted.llms
            &&& made.runtime_spec.tools == admitted.tools
            &&& made.runtime_spec.ttl == admitted.ttl
            &&& made.runtime_spec.runner == admitted.runner
            &&& made.runtime_spec.bindings == admitted.bindings
        }),
{
    lemma_stand_ins_differ('1', '3');
}

/// Tasks that are brought to different states have different keys, so that none is taken for
/// another.
pub proof fn law_states_have_keys_of_their_own(
    task_uid: Seq<u8>,
    operation_id: Seq<u8>,
    service: Seq<char>,
    owner_user_id: Seq<char>,
    authority: EnvelopeView,
    admitted: RuntimeSpecView,
    decision: AdmissionDecision,
    left: CleanupEntryState,
    right: CleanupEntryState,
    suffix: Seq<char>,
)
    requires
        left != right,
    ensures
        matrix_reservation_view(
            task_uid,
            operation_id,
            service,
            owner_user_id,
            authority,
            admitted,
            decision,
            left,
            suffix,
        ).idempotency_key != matrix_reservation_view(
            task_uid,
            operation_id,
            service,
            owner_user_id,
            authority,
            admitted,
            decision,
            right,
            suffix,
        ).idempotency_key,
{
    reveal_strlit("cleanup-");
    reveal_strlit("-");
    reveal_strlit("IntentRecorded");
    reveal_strlit("RuntimeCreatePending");
    reveal_strlit("RuntimeObserved");
    reveal_strlit("ApprovalPending");
    reveal_strlit("ApprovalClaimed");
    reveal_strlit("ApprovalActive");
    reveal_strlit("ActivationPending");
    reveal_strlit("Active");
    let a = "cleanup-"@ + entry_word(left) + "-"@ + suffix;
    let b = "cleanup-"@ + entry_word(right) + "-"@ + suffix;
    if a == b {
        assert(a.len() == b.len());
        assert(a[8] == entry_word(left)[0]);
        assert(b[8] == entry_word(right)[0]);
        if entry_word(left).len() > 8 && entry_word(right).len() > 8 {
            assert(a[16] == entry_word(left)[8]);
            assert(b[16] == entry_word(right)[8]);
        }
    }
}

/// The Task of a connection operation is reserved for the person whose connection it is about, under
/// the key of the operation and the authority of connections, and runs what was planned.
pub proof fn law_connection_tasks_are_for_their_person(
    task_uid: Seq<u8>,
    operation_id: Seq<u8>,
    user_id: Seq<char>,
    email: Seq<char>,
    key: Seq<char>,
    namespace: Seq<char>,
    spec: RuntimeSpecView,
    command: Seq<Seq<char>>,
    service: Seq<char>,
    version: i64,
    envelope: EnvelopeView,
)
    ensures
        ({
            let made = connection_task_view(
                task_uid,
                operation_id,
                user_id,
                email,
                key,
                namespace,
                spec,
                command,
                service,
                version,
                envelope,
            );
            &&& is_for_one_person(made, task_uid, operation_id, "conn-"@, email, user_id)
            &&& made.idempotency_key == key
            &&& made.submitter_service == service
            &&& made.runtime_namespace == namespace
            &&& made.runtime_spec == spec
            &&& made.agent_command == command
            &&& made.envelope_revision == version
            &&& made.service_envelope == envelope
            &&& made.admission_decision is Admit
            &&& made.workflow == "internal:steward-connections/v1"@
            &&& made.coding_agent_runtime == "connections-bridge"@
            &&& made.user_envelope_instance_id is None && made.user_envelope_revision is None
                && made.user_envelope_digest is None
            &&& made.direct_task_evidence is None
        }),
{
    lemma_stand_ins_differ('a', 'c');
}

/// A direct Task is reserved for its owner under the envelope of the owner: it names the exact
/// instance, revision and digest that were provisioned, runs what is proposed on behalf of the owner,
/// and carries its evidence.
pub proof fn law_direct_tasks_are_bound_to_the_envelope_of_their_owner(
    fixture: ActiveDirectTaskFixture,
    task_uid: Seq<u8>,
    operation_id: Seq<u8>,
    label: Seq<char>,
    owner: Seq<char>,
    owner_user_id: Seq<char>,
    evidence: JsonTree,
)
    ensures
        ({
            let made = fixture.reservation_view(
                task_uid,
                operation_id,
                label,
                owner,
                owner_user_id,
                evidence,
            );
            let provisioned = fixture.update_view(owner_user_id, fixture.envelope_instance_id@);
            &&& is_for_one_person(made, task_uid, operation_id, "task-"@, owner, owner_user_id)
            &&& made.user_envelope_instance_id is Some
            &&& made.user_envelope_instance_id == provisioned.envelope_instance_id
            &&& made.user_envelope_digest == provisioned.envelope_digest
            &&& provisioned.approved_envelope == Some(made.service_envelope)
            &&& made.user_envelope_revision == Some(made.service_envelope.revision)
            &&& made.envelope_revision == made.service_envelope.revision
            &&& made.service_envelope == fixture.authority@
            &&& made.service_envelope_digest == fixture.service_envelope_digest@
            &&& made.submitter_service == fixture.service@
            &&& made.idempotency_key == "direct-task-"@ + label + "-"@ + fixture.suffix@
            &&& made.direct_task_evidence == Some(evidence)
            &&& made.admission_decision is Admit
            &&& made.workflow == "direct:release-summary@v1"@
            &&& made.runtime_namespace == "steward-test"@
            &&& made.agent_command == seq!["agent-v1"@]
            &&& made.runtime_spec.owner == owner
            &&& made.runtime_spec.principal == (crate::runtimes::PrincipalView::Service {
                name: fixture.service@,
                acting_user: Some(owner),
            })
            &&& made.runtime_spec.canonical_authority matches Some(bound)
            &&& bound.owner_user_id == owner_user_id
            &&& bound.acting_user_id == Some(owner_user_id)
            &&& made.runtime_spec.budget == proposed_view().budget
            &&& made.runtime_spec.llms == proposed_view().llms
        }),
{
    lemma_stand_ins_differ('c', 'd');
}

/// What an owner asks for is what is provisioned: the envelope after the template of the role, in the
/// name of the owner, from pending to provisioned.
pub proof fn law_envelopes_are_provisioned_as_asked_for(
    fixture: ActiveDirectTaskFixture,
    owner_user_id: Seq<char>,
    key: Seq<char>,
    instance: Seq<char>,
)
    ensures
        ({
            let asked = fixture.request_view(owner_user_id, key);
            let made = fixture.update_view(owner_user_id, instance);
            &&& asked.owner_user_id == owner_user_id && asked.actor == owner_user_id
            &&& asked.template_id == fixture.member_role@
            &&& asked.template_revision == asked.requested_envelope.revision
            &&& asked.requested_envelope == fixture.authority@
            &&& asked.idempotency_key == key
            &&& made.approved_envelope == Some(asked.requested_envelope)
            &&& made.envelope_instance_id == Some(instance)
            &&& made.envelope_digest == Some(fixture.envelope_digest@)
            &&& made.actor == owner_user_id
            &&& made.from == EnvelopeRequestStatus::Pending && made.to
                == EnvelopeRequestStatus::Provisioned
            &&& made.approval_id is None && made.reason is None
        }),
{
}

/// The evidence of a direct Task names this very Task and the request, revision and digest of its
/// envelope; whatever else the sample says, of the Task or of the envelope, is kept.
pub proof fn law_evidence_names_its_task_and_envelope(
    sample: JsonTree,
    task_uid: Seq<u8>,
    request_id: Seq<u8>,
    revision: i64,
    digest: Seq<char>,
)
    requires
        is_sample(sample),
    ensures
        ({
            let made = evidence_tree(sample, task_uid, request_id, revision, digest);
            let sampled = if member_tree(sample, "envelope"@) is Some {
                member_tree(sample, "envelope"@)->Some_0
            } else {
                JsonTree::Null
            };
            &&& made matches JsonTree::Object(members)
            &&& members.dom().contains("taskUid"@) && members["taskUid"@] == JsonTree::Text(
                hyphenated_text(task_uid),
            )
            &&& forall|name: Seq<char>|
                name != "taskUid"@ && name != "envelope"@ ==> #[trigger] member_tree(made, name)
                    == member_tree(sample, name)
            &&& members.dom().contains("envelope"@)
            &&& members["envelope"@] matches JsonTree::Object(envelope)
            &&& envelope.dom().contains("uid"@) && envelope["uid"@] == JsonTree::Text(
                hyphenated_text(request_id),
            )
            &&& envelope.dom().contains("revision"@) && envelope["revision"@] == signed_tree(
                revision as int,
            )
            &&& envelope.dom().contains("digest"@) && envelope["digest"@] == JsonTree::Text(
                "steward:"@ + digest,
            )
            &&& forall|name: Seq<char>|
                name != "uid"@ && name != "revision"@ && name != "digest"@
                    ==> #[trigger] member_tree(members["envelope"@], name) == member_tree(
                    sampled,
                    name,
                )
        }),
{
    reveal_strlit("taskUid");
    reveal_strlit("envelope");
    reveal_strlit("uid");
    reveal_strlit("revision");
    reveal_strlit("digest");
    assert("taskUid"@.len() == 7 && "envelope"@.len() == 8 && "uid"@.len() == 3
        && "revision"@.len() == 8 && "digest"@.len() == 6);
}

/// What the plans do: each begins with the one reservation of its Task, an approval is looked for,
/// prioritized and claimed exactly where one is to be claimed, decided exactly where the Task is to
/// be active by it, and a runtime is activated exactly where the Task is to be active.
pub proof fn law_plans_do_what_their_state_needs(state: CleanupEntryState)
    ensures
        ({
            let steps = steps_to(state);
            let claimed = state == CleanupEntryState::ApprovalClaimed || state
                == CleanupEntryState::ApprovalActive;
            let approved = state == CleanupEntryState::ApprovalActive;
            let active = approved || state == CleanupEntryState::Active;
            &&& steps.len() > 0 && steps[0] == StoreStep::ReserveTask
            &&& forall|i: int| 0 < i < steps.len() ==> #[trigger] steps[i] != StoreStep::ReserveTask
            &&& steps.contains(StoreStep::FindApproval) <==> claimed
            &&& steps.contains(StoreStep::PrioritizeDelivery) <==> claimed
            &&& steps.contains(StoreStep::ClaimDelivery) <==> claimed
            &&& steps.contains(StoreStep::CompleteDelivery) <==> approved
            &&& steps.contains(StoreStep::ApproveAdmission) <==> approved
            &&& (exists|i: int|
                0 <= i < steps.len() && #[trigger] steps[i] is AuthorizeActivationFromApproval)
                <==> approved
            &&& (exists|i: int|
                0 <= i < steps.len() && #[trigger] steps[i] is RecordActivationObserved) <==> active
            &&& active ==> steps.last() is RecordActivationObserved
            &&& state == CleanupEntryState::IntentRecorded ==> steps.len() == 1
            &&& (exists|i: int|
                0 <= i < steps.len() && #[trigger] steps[i] is AuthorizeRuntimeCreation) <==> state
                != CleanupEntryState::IntentRecorded
            &&& (exists|i: int|
                0 <= i < steps.len() && #[trigger] steps[i] is RecordRuntimeObserved) <==> state
                != CleanupEntryState::IntentRecorded && state
                != CleanupEntryState::RuntimeCreatePending
            &&& (exists|i: int|
                0 <= i < steps.len() && #[trigger] steps[i] is DecideRuntimeAuthority) <==> state
                != CleanupEntryState::IntentRecorded && state
                != CleanupEntryState::RuntimeCreatePending && state
                != CleanupEntryState::RuntimeObserved
        }),
{
    let steps = steps_to(state);
    match state {
        CleanupEntryState::IntentRecorded => {},
        _ => {
            assert(steps[1] is AuthorizeRuntimeCreation);
        },
    }
    if steps.len() > 2 {
        assert(steps[2] is RecordRuntimeObserved);
    }
    if steps.len() > 3 {
        assert(steps[3] is DecideRuntimeAuthority);
    }
    if state == CleanupEntryState::Active {
        assert(steps[5] is RecordActivationObserved);
    }
    if steps.len() > 6 {
        assert(steps[4] == StoreStep::FindApproval);
        assert(steps[5] == StoreStep::PrioritizeDelivery);
        assert(steps[6] == StoreStep::ClaimDelivery);
    }
    if steps.len() > 7 {
        assert(steps[7] == StoreStep::CompleteDelivery);
        assert(steps[8] == StoreStep::ApproveAdmission);
        assert(steps[9] is AuthorizeActivationFromApproval);
        assert(steps[11] is RecordActivationObserved);
    }
}

/// What has to come first comes first: a runtime is created before it is observed, observed before
/// its authority is decided, and that is decided before a runtime is activated; an approval is found
/// before it is prioritized, claimed, completed and decided, and all of this before the activation
/// that it authorizes.
pub proof fn law_what_is_needed_comes_first(state: CleanupEntryState, earlier: int, later: int)
    requires
        0 <= later <= earlier < steps_to(state).len(),
    ensures
        ({
            let a = steps_to(state)[earlier];
            let b = steps_to(state)[later];
            &&& !(a is AuthorizeRuntimeCreation && b is RecordRuntimeObserved)
            &&& !(a is RecordRuntimeObserved && b is DecideRuntimeAuthority)
            &&& !(a is DecideRuntimeAuthority && b is RecordActivationObserved)
            &&& !(a == StoreStep::FindApproval && b == StoreStep::PrioritizeDelivery)
            &&& !(a == StoreStep::PrioritizeDelivery && b == StoreStep::ClaimDelivery)
            &&& !(a == StoreStep::ClaimDelivery && b == StoreStep::CompleteDelivery)
            &&& !(a == StoreStep::CompleteDelivery && b == StoreStep::ApproveAdmission)
            &&& !(a == StoreStep::ApproveAdmission && b is AuthorizeActivationFromApproval)
            &&& !(a is AuthorizeActivationFromApproval && b is RecordActivationObserved)
        }),
{
}

/// The store calls a state of cleaning up as it calls the operation that the steps to it lead to: a
/// Task whose approval is claimed is still pending, and one that was approved is as active as any.
pub proof fn law_states_are_called_by_their_operation(state: CleanupEntryState)
    ensures
        state_name(operation_state(CleanupEntryState::ApprovalClaimed)) == state_name(
            operation_state(CleanupEntryState::ApprovalPending),
        ),
        state_name(operation_state(CleanupEntryState::ApprovalActive)) == state_name(
            operation_state(CleanupEntryState::Active),
        ),
        (state_name(operation_state(state)) == "active"@) <==> (state == CleanupEntryState::Active
            || state == CleanupEntryState::ApprovalActive),
        (state_name(operation_state(state)) == "approval_pending"@) <==> (state
            == CleanupEntryState::ApprovalPending || state == CleanupEntryState::ApprovalClaimed),
        (state_name(operation_state(state)) == "intent_recorded"@) <==> state
            == CleanupEntryState::IntentRecorded,
        (state_name(operation_state(state)) == "runtime_create_pending"@) <==> state
            == CleanupEntryState::RuntimeCreatePending,
        (state_name(operation_state(state)) == "runtime_observed"@) <==> state
            == CleanupEntryState::RuntimeObserved,
        (state_name(operation_state(state)) == "activation_pending"@) <==> state
            == CleanupEntryState::ActivationPending,
{
    reveal_strlit("intent_recorded");
    reveal_strlit("runtime_create_pending");
    reveal_strlit("runtime_observed");
    reveal_strlit("approval_pending");
    reveal_strlit("activation_pending");
    reveal_strlit("active");
    assert("intent_recorded"@.len() == 15 && "runtime_create_pending"@.len() == 22
        && "runtime_observed"@.len() == 16 && "approval_pending"@.len() == 16
        && "activation_pending"@.len() == 18 && "active"@.len() == 6);
    assert("runtime_observed"@[0] != "approval_pending"@[0]);
}

} // verus!
