//! Runs of requests to the Task store: what is asked for, one request after the other, and where
//! the replies lead, until a Task is in the state that it is to be in.
use crate::envelopes::{AdmissionDecision, Envelope, EnvelopeView};
use crate::runtimes::RuntimeSpec;
use crate::task_store::{
    activation_observation, activation_steps, awaited_approval, claimed_delivery, delivered_to,
    entry_steps, hyphenated_text, matrix_reservation, matrix_reservation_view, observed_runtime_uid, stand_in,
    stand_in_digest, steps_to, steps_to_activate, ActivationObservation, ActiveDirectTaskFixture,
    ApprovalDelivery, CleanupEntryState, StoreFault, StoreStep, TaskReservationRequest,
    TaskReservationView, Uuid,
};
use crate::text::concat2;
use vstd::prelude::*;
use vstd::string::*;

verus! {

/// Who acts on the operations of Tasks.
pub const CONTROLLER: &'static str = "controller-a";

/// Who delivers approvals.
pub const WORKER: &'static str = "cleanup-matrix";

/// For how many seconds a claimed delivery belongs to who claimed it.
pub const CLAIM_SECONDS: i64 = 30;

/// The issue at which an approval is decided.
pub const ISSUE_KEY: &'static str = "PROJ-456";

/// Where the issue is to be seen.
pub const ISSUE_URL: &'static str = "https://jira.example.com/browse/PROJ-456";

/// The state of the runtime that is observed first.
pub const OBSERVED_VERSION: &'static str = "resource-version-a";

/// A request to the store, with all that it is handed.
pub enum StoreRequest {
    ReserveTask(TaskReservationRequest),
    AuthorizeRuntimeCreation { task_uid: Uuid, generation: i64, actor: String },
    RecordRuntimeObserved {
        task_uid: Uuid,
        generation: i64,
        runtime_uid: String,
        resource_version: String,
        actor: String,
    },
    DecideRuntimeAuthority {
        task_uid: Uuid,
        generation: i64,
        authority: Envelope,
        envelope_digest: String,
        actor: String,
    },
    FindApproval { task_uid: Uuid },
    PrioritizeDelivery { approval_id: Uuid },
    ClaimDelivery { worker: String, seconds: i64 },
    CompleteDelivery {
        effect_id: Uuid,
        generation: i64,
        worker: String,
        issue_key: String,
        issue_url: String,
    },
    ApproveAdmission {
        approval_id: Uuid,
        decided_by: String,
        rationale: String,
        evidence_url: String,
        expires_at: String,
    },
    AuthorizeActivationFromApproval { task_uid: Uuid, generation: i64, actor: String },
    RecordActivationObserved {
        task_uid: Uuid,
        generation: i64,
        observation: ActivationObservation,
        actor: String,
    },
}

/// What is observed of an activated runtime.
pub ghost struct ActivationView {
    pub runtime_uid: Seq<char>,
    pub resource_version: Seq<char>,
    pub active_manifest_digest: Seq<char>,
    pub provider_set_ready: bool,
}

impl View for ActivationObservation {
    type V = ActivationView;

    open spec fn view(&self) -> ActivationView {
        ActivationView {
            runtime_uid: self.runtime_uid@,
            resource_version: self.resource_version@,
            active_manifest_digest: self.active_manifest_digest@,
            provider_set_ready: self.provider_set_ready,
        }
    }
}

pub ghost enum StoreRequestView {
    ReserveTask(TaskReservationView),
    AuthorizeRuntimeCreation { task_uid: Seq<u8>, generation: i64, actor: Seq<char> },
    RecordRuntimeObserved {
        task_uid: Seq<u8>,
        generation: i64,
        runtime_uid: Seq<char>,
        resource_version: Seq<char>,
        actor: Seq<char>,
    },
    DecideRuntimeAuthority {
        task_uid: Seq<u8>,
        generation: i64,
        authority: EnvelopeView,
        envelope_digest: Seq<char>,
        actor: Seq<char>,
    },
    FindApproval { task_uid: Seq<u8> },
    PrioritizeDelivery { approval_id: Seq<u8> },
    ClaimDelivery { worker: Seq<char>, seconds: i64 },
    CompleteDelivery {
        effect_id: Seq<u8>,
        generation: i64,
        worker: Seq<char>,
        issue_key: Seq<char>,
        issue_url: Seq<char>,
    },
    ApproveAdmission {
        approval_id: Seq<u8>,
        decided_by: Seq<char>,
        rationale: Seq<char>,
        evidence_url: Seq<char>,
        expires_at: Seq<char>,
    },
    AuthorizeActivationFromApproval { task_uid: Seq<u8>, generation: i64, actor: Seq<char> },
    RecordActivationObserved {
        task_uid: Seq<u8>,
        generation: i64,
        observation: ActivationView,
        actor: Seq<char>,
    },
}

impl View for StoreRequest {
    type V = StoreRequestView;

    open spec fn view(&self) -> StoreRequestView {
        match *self {
            StoreRequest::ReserveTask(request) => StoreRequestView::ReserveTask(request@),
            StoreRequest::AuthorizeRuntimeCreation { task_uid, generation, actor } =>
                StoreRequestView::AuthorizeRuntimeCreation {
                task_uid: task_uid@,
                generation,
                actor: actor@,
            },
            StoreRequest::RecordRuntimeObserved {
                task_uid,
                generation,
                runtime_uid,
                resource_version,
                actor,
            } => StoreRequestView::RecordRuntimeObserved {
                task_uid: task_uid@,
                generation,
                runtime_uid: runtime_uid@,
                resource_version: resource_version@,
                actor: actor@,
            },
            StoreRequest::DecideRuntimeAuthority {
                task_uid,
                generation,
                authority,
                envelope_digest,
                actor,
            } => StoreRequestView::DecideRuntimeAuthority {
                task_uid: task_uid@,
                generation,
                authority: authority@,
                envelope_digest: envelope_digest@,
                actor: actor@,
            },
            StoreRequest::FindApproval { task_uid } => StoreRequestView::FindApproval {
                task_uid: task_uid@,
            },
            StoreRequest::PrioritizeDelivery { approval_id } =>
                StoreRequestView::PrioritizeDelivery { approval_id: approval_id@ },
            StoreRequest::ClaimDelivery { worker, seconds } => StoreRequestView::ClaimDelivery {
                worker: worker@,
                seconds,
            },
            StoreRequest::CompleteDelivery {
                effect_id,
                generation,
                worker,
                issue_key,
                issue_url,
            } => StoreRequestView::CompleteDelivery {
                effect_id: effect_id@,
                generation,
                worker: worker@,
                issue_key: issue_key@,
                issue_url: issue_url@,
            },
            StoreRequest::ApproveAdmission {
                approval_id,
                decided_by,
                rationale,
                evidence_url,
                expires_at,
            } => StoreRequestView::ApproveAdmission {
                approval_id: approval_id@,
                decided_by: decided_by@,
                rationale: rationale@,
                evidence_url: evidence_url@,
                expires_at: expires_at@,
            },
            StoreRequest::AuthorizeActivationFromApproval { task_uid, generation, actor } =>
                StoreRequestView::AuthorizeActivationFromApproval {
                task_uid: task_uid@,
                generation,
                actor: actor@,
            },
            StoreRequest::RecordActivationObserved { task_uid, generation, observation, actor } =>
                StoreRequestView::RecordActivationObserved {
                task_uid: task_uid@,
                generation,
                observation: observation@,
                actor: actor@,
            },
        }
    }
}

/// The step that a request takes.
pub open spec fn step_of(request: StoreRequestView) -> StoreStep {
    match request {
        StoreRequestView::ReserveTask(_) => StoreStep::ReserveTask,
        StoreRequestView::AuthorizeRuntimeCreation { generation, .. } =>
            StoreStep::AuthorizeRuntimeCreation { generation },
        StoreRequestView::RecordRuntimeObserved { generation, .. } =>
            StoreStep::RecordRuntimeObserved { generation },
        StoreRequestView::DecideRuntimeAuthority { generation, .. } =>
            StoreStep::DecideRuntimeAuthority { generation },
        StoreRequestView::FindApproval { .. } => StoreStep::FindApproval,
        StoreRequestView::PrioritizeDelivery { .. } => StoreStep::PrioritizeDelivery,
        StoreRequestView::ClaimDelivery { .. } => StoreStep::ClaimDelivery,
        StoreRequestView::CompleteDelivery { .. } => StoreStep::CompleteDelivery,
        StoreRequestView::ApproveAdmission { .. } => StoreStep::ApproveAdmission,
        StoreRequestView::AuthorizeActivationFromApproval { generation, .. } =>
            StoreStep::AuthorizeActivationFromApproval { generation },
        StoreRequestView::RecordActivationObserved { generation, .. } =>
            StoreStep::RecordActivationObserved { generation },
    }
}

/// What the store answers: whether it applied the request, the approval that an operation waits
/// for, and the delivery that was claimed.
pub struct StoreReply {
    pub applied: bool,
    pub approval_id: Option<Uuid>,
    pub delivery: Option<ApprovalDelivery>,
}

pub ghost struct DeliveryView {
    pub effect_id: Seq<u8>,
    pub generation: i64,
    pub approval_id: Seq<u8>,
    pub task_uid: Seq<u8>,
}

impl View for ApprovalDelivery {
    type V = DeliveryView;

    open spec fn view(&self) -> DeliveryView {
        DeliveryView {
            effect_id: self.effect_id@,
            generation: self.generation,
            approval_id: self.approval_id@,
            task_uid: self.task_uid@,
        }
    }
}

pub ghost struct StoreReplyView {
    pub applied: bool,
    pub approval_id: Option<Seq<u8>>,
    pub delivery: Option<DeliveryView>,
}

/// The view of an optional identifier.
pub open spec fn option_id(id: Option<Uuid>) -> Option<Seq<u8>> {
    match id {
        Some(found) => Some(found@),
        None => None,
    }
}

/// The view of an optional delivery.
pub open spec fn option_delivery(delivery: Option<ApprovalDelivery>) -> Option<DeliveryView> {
    match delivery {
        Some(found) => Some(found@),
        None => None,
    }
}

impl View for StoreReply {
    type V = StoreReplyView;

    open spec fn view(&self) -> StoreReplyView {
        StoreReplyView {
            applied: self.applied,
            approval_id: option_id(self.approval_id),
            delivery: option_delivery(self.delivery),
        }
    }
}

/// What a run is to bring about.
#[derive(PartialEq, Eq, Structural, Clone, Copy, Debug)]
pub enum Plan {
    /// A Task in a state from which it can be cleaned up.
    Entry { state: CleanupEntryState },
    /// A reserved Task that is activated.
    Activation,
}

/// The steps of a plan.
pub open spec fn steps_of(plan: Plan) -> Seq<StoreStep> {
    match plan {
        Plan::Entry { state } => steps_to(state),
        Plan::Activation => steps_to_activate(),
    }
}

/// The plan ends with an approval that was claimed for its Task.
pub open spec fn ends_with_a_claim(plan: Plan) -> bool {
    plan == (Plan::Entry { state: CleanupEntryState::ApprovalClaimed })
}

/// The plan has an approval claimed.
pub open spec fn claims(plan: Plan) -> bool {
    ends_with_a_claim(plan) || plan == (Plan::Entry { state: CleanupEntryState::ApprovalActive })
}

/// A run of requests: what it is about, how many replies it took, and the approval and the
/// delivery that they named.
pub struct StoreRun {
    pub plan: Plan,
    pub steps: Vec<StoreStep>,
    pub task_uid: Uuid,
    pub runtime_uid: String,
    pub authority: Envelope,
    pub envelope_digest: String,
    pub active_digit: String,
    pub taken: usize,
    pub approval_id: Option<Uuid>,
    pub delivery: Option<ApprovalDelivery>,
}

pub ghost struct StoreRunView {
    pub plan: Plan,
    pub steps: Seq<StoreStep>,
    pub task_uid: Seq<u8>,
    pub runtime_uid: Seq<char>,
    pub authority: EnvelopeView,
    pub envelope_digest: Seq<char>,
    pub active_digit: Seq<char>,
    pub taken: int,
    pub approval_id: Option<Seq<u8>>,
    pub delivery: Option<DeliveryView>,
}

impl View for StoreRun {
    type V = StoreRunView;

    open spec fn view(&self) -> StoreRunView {
        StoreRunView {
            plan: self.plan,
            steps: self.steps@,
            task_uid: self.task_uid@,
            runtime_uid: self.runtime_uid@,
            authority: self.authority@,
            envelope_digest: self.envelope_digest@,
            active_digit: self.active_digit@,
            taken: self.taken as int,
            approval_id: option_id(self.approval_id),
            delivery: option_delivery(self.delivery),
        }
    }
}

impl StoreRunView {
    /// A request is under way, and what earlier replies had to name is known: the approval that
    /// the operation waits for, and a delivery of this approval.
    pub open spec fn well_formed(self) -> bool {
        &&& self.steps == steps_of(self.plan)
        &&& 0 <= self.taken < self.steps.len()
        &&& self.active_digit.len() == 1
        &&& claims(self.plan) && self.taken > 4 ==> self.approval_id is Some
        &&& claims(self.plan) && self.taken > 6 ==> self.names_its_delivery()
    }

    /// The delivery that was claimed is the one of the awaited approval.
    pub open spec fn names_its_delivery(self) -> bool {
        self.delivery matches Some(delivery) && self.approval_id == Some(delivery.approval_id)
    }

    /// The request that takes a step of this run. A Task is reserved only when the run starts.
    pub open spec fn request(self, step: StoreStep) -> StoreRequestView {
        match step {
            StoreStep::ReserveTask => arbitrary(),
            StoreStep::AuthorizeRuntimeCreation { generation } =>
                StoreRequestView::AuthorizeRuntimeCreation {
                task_uid: self.task_uid,
                generation,
                actor: CONTROLLER@,
            },
            StoreStep::RecordRuntimeObserved { generation } =>
                StoreRequestView::RecordRuntimeObserved {
                task_uid: self.task_uid,
                generation,
                runtime_uid: self.runtime_uid,
                resource_version: OBSERVED_VERSION@,
                actor: CONTROLLER@,
            },
            StoreStep::DecideRuntimeAuthority { generation } =>
                StoreRequestView::DecideRuntimeAuthority {
                task_uid: self.task_uid,
                generation,
                authority: self.authority,
                envelope_digest: self.envelope_digest,
                actor: CONTROLLER@,
            },
            StoreStep::FindApproval => StoreRequestView::FindApproval { task_uid: self.task_uid },
            StoreStep::PrioritizeDelivery => StoreRequestView::PrioritizeDelivery {
                approval_id: self.approval_id->Some_0,
            },
            StoreStep::ClaimDelivery => StoreRequestView::ClaimDelivery {
                worker: WORKER@,
                seconds: CLAIM_SECONDS,
            },
            StoreStep::CompleteDelivery => StoreRequestView::CompleteDelivery {
                effect_id: self.delivery->Some_0.effect_id,
                generation: self.delivery->Some_0.generation,
                worker: WORKER@,
                issue_key: ISSUE_KEY@,
                issue_url: ISSUE_URL@,
            },
            StoreStep::ApproveAdmission => StoreRequestView::ApproveAdmission {
                approval_id: self.approval_id->Some_0,
                decided_by: "admin@example.com"@,
                rationale: "cleanup matrix approval"@,
                evidence_url: ISSUE_URL@,
                expires_at: "2999-01-01T00:00:00Z"@,
            },
            StoreStep::AuthorizeActivationFromApproval { generation } =>
                StoreRequestView::AuthorizeActivationFromApproval {
                task_uid: self.task_uid,
                generation,
                actor: CONTROLLER@,
            },
            StoreStep::RecordActivationObserved { generation } =>
                StoreRequestView::RecordActivationObserved {
                task_uid: self.task_uid,
                generation,
                observation: ActivationView {
                    runtime_uid: self.runtime_uid,
                    resource_version: "resource-version-active"@,
                    active_manifest_digest: stand_in_digest(self.active_digit[0]),
                    provider_set_ready: true,
                },
                actor: CONTROLLER@,
            },
        }
    }

    /// The run once the reply to the request under way was taken, or what is wrong with the reply:
    /// every step of an activation has to be applied, an operation that waits for an approval has
    /// to name it, and the delivery that was claimed has to be the one of this approval. Where the
    /// run ends with the claim, the delivery has to be for the Task of the run, too.
    pub open spec fn taking(self, reply: StoreReplyView) -> Result<StoreRunView, StoreFault> {
        let step = self.steps[self.taken];
        let next = StoreRunView { taken: self.taken + 1, ..self };
        if self.plan == Plan::Activation && !reply.applied {
            Err(StoreFault::NotApplied)
        } else if step == StoreStep::FindApproval {
            match reply.approval_id {
                Some(id) => Ok(StoreRunView { approval_id: Some(id), ..next }),
                None => Err(StoreFault::ApprovalNotFound),
            }
        } else if step == StoreStep::ClaimDelivery {
            match reply.delivery {
                Some(delivery) => if Some(delivery.approval_id) != self.approval_id {
                    Err(StoreFault::ApprovalNotFound)
                } else if ends_with_a_claim(self.plan) && delivery.task_uid != self.task_uid {
                    Err(StoreFault::ForeignDelivery)
                } else {
                    Ok(StoreRunView { delivery: Some(delivery), ..next })
                },
                None => Err(StoreFault::ApprovalNotFound),
            }
        } else {
            Ok(next)
        }
    }
}

/// How a run goes on: with another request, with the Task in its state, or not at all.
pub enum Progress {
    Asked(StoreRequest),
    Reached { task_uid: Uuid },
    Refused(StoreFault),
    Failed(String),
}

pub ghost enum ProgressView {
    Asked(StoreRequestView),
    Reached { task_uid: Seq<u8> },
    Refused(StoreFault),
    Failed(Seq<char>),
}

impl View for Progress {
    type V = ProgressView;

    open spec fn view(&self) -> ProgressView {
        match *self {
            Progress::Asked(request) => ProgressView::Asked(request@),
            Progress::Reached { task_uid } => ProgressView::Reached { task_uid: task_uid@ },
            Progress::Refused(fault) => ProgressView::Refused(fault),
            Progress::Failed(words) => ProgressView::Failed(words@),
        }
    }
}

/// The view of a reply, or of what kept the store from answering.
pub open spec fn reply_view(reply: Result<StoreReply, String>) -> Result<
    StoreReplyView,
    Seq<char>,
> {
    match reply {
        Ok(answer) => Ok(answer@),
        Err(words) => Err(words@),
    }
}

/// The run behind a reply, and how it goes on. A run that does not go on stays as it is.
pub open spec fn advanced(run: StoreRunView, reply: Result<StoreReplyView, Seq<char>>) -> (
    StoreRunView,
    ProgressView,
) {
    match reply {
        Err(words) => (run, ProgressView::Failed(words)),
        Ok(answer) => match run.taking(answer) {
            Err(fault) => (run, ProgressView::Refused(fault)),
            Ok(next) => if next.taken < next.steps.len() {
                (next, ProgressView::Asked(next.request(next.steps[next.taken])))
            } else {
                (next, ProgressView::Reached { task_uid: next.task_uid })
            },
        },
    }
}

/// Where in a plan the steps stand that need something of earlier replies.
proof fn lemma_places(plan: Plan, at: int)
    requires
        0 <= at < steps_of(plan).len(),
    ensures
        steps_of(plan).len() <= 12,
        steps_of(plan)[at] == StoreStep::ReserveTask ==> at == 0,
        steps_of(plan)[at] == StoreStep::FindApproval <==> claims(plan) && at == 4,
        steps_of(plan)[at] == StoreStep::PrioritizeDelivery ==> claims(plan) && at == 5,
        steps_of(plan)[at] == StoreStep::ClaimDelivery <==> claims(plan) && at == 6,
        steps_of(plan)[at] == StoreStep::CompleteDelivery ==> claims(plan) && at == 7,
        steps_of(plan)[at] == StoreStep::ApproveAdmission ==> claims(plan) && at == 8,
{
}

impl StoreRun {
    /// A request is under way, and what earlier replies had to name is known.
    pub open spec fn well_formed(&self) -> bool {
        self@.well_formed()
    }

    /// The request that takes the step at which the run stands.
    fn request(&self) -> (request: StoreRequest)
        requires
            self.well_formed(),
            self.taken > 0 || self.plan == Plan::Activation,
        ensures
            request@ == self@.request(self.steps@[self.taken as int]),
    {
        proof {
            lemma_places(self.plan, self.taken as int);
        }
        match self.steps[self.taken] {
            StoreStep::ReserveTask => vstd::pervasive::unreached(),
            StoreStep::AuthorizeRuntimeCreation { generation } =>
                StoreRequest::AuthorizeRuntimeCreation {
                task_uid: self.task_uid,
                generation,
                actor: CONTROLLER.to_owned(),
            },
            StoreStep::RecordRuntimeObserved { generation } =>
                StoreRequest::RecordRuntimeObserved {
                task_uid: self.task_uid,
                generation,
                runtime_uid: self.runtime_uid.clone(),
                resource_version: OBSERVED_VERSION.to_owned(),
                actor: CONTROLLER.to_owned(),
            },
            StoreStep::DecideRuntimeAuthority { generation } =>
                StoreRequest::DecideRuntimeAuthority {
                task_uid: self.task_uid,
                generation,
                authority: self.authority.copy(),
                envelope_digest: self.envelope_digest.clone(),
                actor: CONTROLLER.to_owned(),
            },
            StoreStep::FindApproval => StoreRequest::FindApproval { task_uid: self.task_uid },
            StoreStep::PrioritizeDelivery => StoreRequest::PrioritizeDelivery {
                approval_id: self.approval_id.unwrap(),
            },
            StoreStep::ClaimDelivery => StoreRequest::ClaimDelivery {
                worker: WORKER.to_owned(),
                seconds: CLAIM_SECONDS,
            },
            StoreStep::CompleteDelivery => {
                let delivery = self.delivery.as_ref().unwrap();
                StoreRequest::CompleteDelivery {
                    effect_id: delivery.effect_id,
                    generation: delivery.generation,
                    worker: WORKER.to_owned(),
                    issue_key: ISSUE_KEY.to_owned(),
                    issue_url: ISSUE_URL.to_owned(),
                }
            },
            StoreStep::ApproveAdmission => StoreRequest::ApproveAdmission {
                approval_id: self.approval_id.unwrap(),
                decided_by: "admin@example.com".to_owned(),
                rationale: "cleanup matrix approval".to_owned(),
                evidence_url: ISSUE_URL.to_owned(),
                expires_at: "2999-01-01T00:00:00Z".to_owned(),
            },
            StoreStep::AuthorizeActivationFromApproval { generation } =>
                StoreRequest::AuthorizeActivationFromApproval {
                task_uid: self.task_uid,
                generation,
                actor: CONTROLLER.to_owned(),
            },
            StoreStep::RecordActivationObserved { generation } =>
                StoreRequest::RecordActivationObserved {
                task_uid: self.task_uid,
                generation,
                observation: activation_observation(
                    self.runtime_uid.as_str(),
                    self.active_digit.as_str(),
                ),
                actor: CONTROLLER.to_owned(),
            },
        }
    }

    /// Takes the reply to the request under way, or what kept the store from answering.
    pub fn advance(&mut self, reply: Result<StoreReply, String>) -> (progress: Progress)
        requires
            old(self).well_formed(),
        ensures
            (final(self)@, progress@) == advanced(old(self)@, reply_view(reply)),
            progress is Asked ==> final(self).well_formed(),
    {
        proof {
            lemma_places(self.plan, self.taken as int);
        }
        let answer = match reply {
            Ok(answer) => answer,
            Err(words) => return Progress::Failed(words),
        };
        if self.plan == Plan::Activation && !answer.applied {
            return Progress::Refused(StoreFault::NotApplied);
        }
        let step = self.steps[self.taken];
        if step == StoreStep::FindApproval {
            match awaited_approval(answer.approval_id) {
                Ok(id) => {
                    self.approval_id = Some(id);
                },
                Err(fault) => return Progress::Refused(fault),
            }
        } else if step == StoreStep::ClaimDelivery {
            let approval_id = self.approval_id.unwrap();
            match claimed_delivery(answer.delivery, &approval_id) {
                Ok(delivery) => {
                    if self.plan == (Plan::Entry { state: CleanupEntryState::ApprovalClaimed }) {
                        if let Err(fault) = delivered_to(&delivery, &self.task_uid) {
                            return Progress::Refused(fault);
                        }
                    }
                    self.delivery = Some(delivery);
                },
                Err(fault) => return Progress::Refused(fault),
            }
        }
        self.taken = self.taken + 1;
        if self.taken < self.steps.len() {
            Progress::Asked(self.request())
        } else {
            Progress::Reached { task_uid: self.task_uid }
        }
    }
}

/// Starts to bring a Task of the cleanup matrix to a state from which it can be cleaned up, with
/// the request that reserves it. `decision` is what came of holding its spec against the envelope.
pub fn reserve_task_at_cleanup_entry_state(
    task_uid: Uuid,
    operation_id: Uuid,
    service: &str,
    owner_user_id: &str,
    authority: &Envelope,
    admitted_spec: &RuntimeSpec,
    decision: Result<AdmissionDecision, String>,
    entry_state: CleanupEntryState,
    suffix: &str,
) -> (started: Result<(StoreRun, StoreRequest), String>)
    ensures
        match decision {
            Err(error) => started matches Err(words) && words@ == "evaluate cleanup fixture: "@
                + error@,
            Ok(decided) => started matches Ok((run, request)) && run.well_formed() && run@ == (
            StoreRunView {
                plan: Plan::Entry { state: entry_state },
                steps: steps_to(entry_state),
                task_uid: task_uid@,
                runtime_uid: "runtime-"@ + hyphenated_text(operation_id@),
                authority: authority@,
                envelope_digest: stand_in_digest('2'),
                active_digit: "1"@,
                taken: 0,
                approval_id: None,
                delivery: None,
            }) && request@ == StoreRequestView::ReserveTask(
                matrix_reservation_view(
                    task_uid@,
                    operation_id@,
                    service@,
                    owner_user_id@,
                    authority@,
                    admitted_spec@,
                    decided,
                    entry_state,
                    suffix@,
                ),
            ),
        },
{
    proof {
        reveal_strlit("1");
        reveal_strlit("2");
    }
    let decided = match decision {
        Ok(decided) => decided,
        Err(error) => return Err(concat2("evaluate cleanup fixture: ", error.as_str())),
    };
    let reservation = matrix_reservation(
        task_uid,
        operation_id,
        service,
        owner_user_id,
        authority,
        admitted_spec,
        decided,
        entry_state,
        suffix,
    );
    let run = StoreRun {
        plan: Plan::Entry { state: entry_state },
        steps: entry_steps(entry_state),
        task_uid,
        runtime_uid: observed_runtime_uid(&operation_id),
        authority: authority.copy(),
        envelope_digest: stand_in("2"),
        active_digit: "1".to_owned(),
        taken: 0,
        approval_id: None,
        delivery: None,
    };
    Ok((run, StoreRequest::ReserveTask(reservation)))
}

impl ActiveDirectTaskFixture {
    /// Starts to activate a reserved Task with a runtime.
    pub fn activate_task(&self, task_uid: Uuid, runtime_uid: &str) -> (started: (
        StoreRun,
        StoreRequest,
    ))
        ensures
            started.0.well_formed(),
            started.0@ == (StoreRunView {
                plan: Plan::Activation,
                steps: steps_to_activate(),
                task_uid: task_uid@,
                runtime_uid: runtime_uid@,
                authority: self.authority@,
                envelope_digest: self.service_envelope_digest@,
                active_digit: "c"@,
                taken: 0,
                approval_id: None,
                delivery: None,
            }),
            started.1@ == started.0@.request(steps_to_activate()[0]),
    {
        proof {
            reveal_strlit("c");
        }
        let run = StoreRun {
            plan: Plan::Activation,
            steps: activation_steps(),
            task_uid,
            runtime_uid: runtime_uid.to_owned(),
            authority: self.authority.copy(),
            envelope_digest: self.service_envelope_digest.clone(),
            active_digit: "c".to_owned(),
            taken: 0,
            approval_id: None,
            delivery: None,
        };
        let request = run.request();
        (run, request)
    }
}

/// A run asks for exactly the steps of its plan, each one once and in their order, whatever the
/// store answers.
pub proof fn law_requests_follow_the_plan(
    run: StoreRunView,
    reply: Result<StoreReplyView, Seq<char>>,
)
    requires
        run.well_formed(),
    ensures
        ({
            let (next, progress) = advanced(run, reply);
            match progress {
                ProgressView::Asked(request) => next.taken == run.taken + 1 && step_of(request)
                    == steps_of(run.plan)[next.taken] && next.well_formed(),
                ProgressView::Reached { task_uid } => run.taken + 1 == steps_of(run.plan).len()
                    && task_uid == run.task_uid,
                _ => next == run,
            }
        }),
{
    lemma_places(run.plan, run.taken);
    if run.taken + 1 < steps_of(run.plan).len() {
        lemma_places(run.plan, run.taken + 1);
    }
}

/// Whatever the store answers, a delivery is completed and an admission is approved only for the
/// approval that the operation of its Task waits for.
pub proof fn law_only_the_awaited_approval_is_decided(
    run: StoreRunView,
    reply: Result<StoreReplyView, Seq<char>>,
)
    requires
        run.well_formed(),
    ensures
        ({
            let (next, progress) = advanced(run, reply);
            match progress {
                ProgressView::Asked(StoreRequestView::CompleteDelivery { effect_id, .. }) => {
                    &&& next.delivery matches Some(delivery)
                    &&& delivery.effect_id == effect_id
                    &&& Some(delivery.approval_id) == next.approval_id
                },
                ProgressView::Asked(StoreRequestView::ApproveAdmission { approval_id, .. }) => {
                    next.approval_id == Some(approval_id) && next.names_its_delivery()
                },
                _ => true,
            }
        }),
{
    lemma_places(run.plan, run.taken);
    if run.taken + 1 < steps_of(run.plan).len() {
        lemma_places(run.plan, run.taken + 1);
    }
}

/// A run that ends with a claim has the delivery of the awaited approval to its own Task, whatever
/// the store answers.
pub proof fn law_a_claimed_delivery_is_for_its_task(run: StoreRunView, reply: StoreReplyView)
    requires
        run.well_formed(),
        ends_with_a_claim(run.plan),
    ensures
        ({
            let (next, progress) = advanced(run, Ok(reply));
            progress is Reached ==> (next.delivery matches Some(delivery) && Some(
                delivery.approval_id,
            ) == next.approval_id && delivery.task_uid == run.task_uid)
        }),
{
    lemma_places(run.plan, run.taken);
}

/// The reply is one that a run can go on with.
pub open spec fn answers(run: StoreRunView, reply: StoreReplyView) -> bool {
    let step = steps_of(run.plan)[run.taken];
    &&& run.plan == Plan::Activation ==> reply.applied
    &&& step == StoreStep::FindApproval ==> reply.approval_id is Some
    &&& step == StoreStep::ClaimDelivery ==> (reply.delivery matches Some(delivery) && Some(
        delivery.approval_id,
    ) == run.approval_id && (ends_with_a_claim(run.plan) ==> delivery.task_uid == run.task_uid))
}

/// A run goes on with a reply exactly where the store answered what it was asked, and is at its
/// end with the last such reply.
pub proof fn law_answers_lead_on(run: StoreRunView, reply: StoreReplyView)
    requires
        run.well_formed(),
    ensures
        ({
            let (_, progress) = advanced(run, Ok(reply));
            let more = run.taken + 1 < steps_of(run.plan).len();
            &&& answers(run, reply) && more <==> progress is Asked
            &&& answers(run, reply) && !more <==> progress == (ProgressView::Reached {
                task_uid: run.task_uid,
            })
            &&& !answers(run, reply) <==> progress is Refused
        }),
{
}

/// Every request of a run that names a Task names the Task that the run is about, whatever the store
/// answers, and the run goes on to be about the same Task.
pub proof fn law_every_request_names_the_task_of_its_run(
    run: StoreRunView,
    reply: Result<StoreReplyView, Seq<char>>,
)
    requires
        run.well_formed(),
    ensures
        ({
            let (next, progress) = advanced(run, reply);
            &&& next.task_uid == run.task_uid
            &&& match progress {
                ProgressView::Asked(request) => match request {
                    StoreRequestView::ReserveTask(_) => false,
                    StoreRequestView::AuthorizeRuntimeCreation { task_uid, .. } => task_uid
                        == run.task_uid,
                    StoreRequestView::RecordRuntimeObserved { task_uid, .. } => task_uid
                        == run.task_uid,
                    StoreRequestView::DecideRuntimeAuthority { task_uid, .. } => task_uid
                        == run.task_uid,
                    StoreRequestView::FindApproval { task_uid } => task_uid == run.task_uid,
                    StoreRequestView::AuthorizeActivationFromApproval { task_uid, .. } => task_uid
                        == run.task_uid,
                    StoreRequestView::RecordActivationObserved { task_uid, .. } => task_uid
                        == run.task_uid,
                    _ => true,
                },
                ProgressView::Reached { task_uid } => task_uid == run.task_uid,
                _ => true,
            }
        }),
{
    lemma_places(run.plan, run.taken);
    if run.taken + 1 < steps_of(run.plan).len() {
        lemma_places(run.plan, run.taken + 1);
    }
}

/// One runtime is followed under one authority: the runtime that is activated is the one that was
/// observed, the authority that is decided on is the one that the run began with, and the
/// controller alone acts on the operation.
pub proof fn law_one_runtime_is_followed_under_one_authority(
    run: StoreRunView,
    reply: Result<StoreReplyView, Seq<char>>,
)
    requires
        run.well_formed(),
    ensures
        ({
            let (next, progress) = advanced(run, reply);
            &&& next.plan == run.plan
            &&& next.runtime_uid == run.runtime_uid
            &&& next.authority == run.authority
            &&& next.envelope_digest == run.envelope_digest
            &&& next.active_digit == run.active_digit
            &&& match progress {
                ProgressView::Asked(
                    StoreRequestView::AuthorizeRuntimeCreation { actor, .. },
                ) => actor == "controller-a"@,
                ProgressView::Asked(
                    StoreRequestView::RecordRuntimeObserved {
                        runtime_uid,
                        resource_version,
                        actor,
                        ..
                    },
                ) => runtime_uid == run.runtime_uid && resource_version == "resource-version-a"@
                    && actor == "controller-a"@,
                ProgressView::Asked(
                    StoreRequestView::DecideRuntimeAuthority {
                        authority,
                        envelope_digest,
                        actor,
                        ..
                    },
                ) => authority == run.authority && envelope_digest == run.envelope_digest && actor
                    == "controller-a"@,
                ProgressView::Asked(
                    StoreRequestView::AuthorizeActivationFromApproval { actor, .. },
                ) => actor == "controller-a"@,
                ProgressView::Asked(
                    StoreRequestView::RecordActivationObserved { observation, actor, .. },
                ) => {
                    &&& observation.runtime_uid == run.runtime_uid
                    &&& observation.resource_version == "resource-version-active"@
                    &&& observation.provider_set_ready
                    &&& observation.active_manifest_digest.len() == 71
                    &&& observation.active_manifest_digest.take(7) == "sha256:"@
                    &&& forall|i: int|
                        7 <= i < 71 ==> #[trigger] observation.active_manifest_digest[i]
                            == run.active_digit[0]
                    &&& actor == "controller-a"@
                },
                _ => true,
            }
        }),
{
    lemma_places(run.plan, run.taken);
    if run.taken + 1 < steps_of(run.plan).len() {
        lemma_places(run.plan, run.taken + 1);
    }
    reveal_strlit("sha256:");
    let digest = stand_in_digest(run.active_digit[0]);
    assert(digest.take(7) =~= "sha256:"@);
}

/// The changes of an operation follow on each other: each kind of change is asked for on the
/// generation that the changes before it have led to.
pub proof fn law_changes_are_asked_for_on_their_generation(
    run: StoreRunView,
    reply: Result<StoreReplyView, Seq<char>>,
)
    requires
        run.well_formed(),
    ensures
        ({
            let approved = run.plan == (Plan::Entry { state: CleanupEntryState::ApprovalActive });
            match advanced(run, reply).1 {
                ProgressView::Asked(
                    StoreRequestView::AuthorizeRuntimeCreation { generation, .. },
                ) => generation == 1,
                ProgressView::Asked(
                    StoreRequestView::RecordRuntimeObserved { generation, .. },
                ) => generation == 2,
                ProgressView::Asked(
                    StoreRequestView::DecideRuntimeAuthority { generation, .. },
                ) => generation == 3 || generation == (if approved {
                    5int
                } else {
                    4int
                }),
                ProgressView::Asked(
                    StoreRequestView::AuthorizeActivationFromApproval { generation, .. },
                ) => approved && generation == 4,
                ProgressView::Asked(
                    StoreRequestView::RecordActivationObserved { generation, .. },
                ) => generation == (if approved {
                    6int
                } else {
                    5int
                }),
                _ => true,
            }
        }),
{
    lemma_places(run.plan, run.taken);
    if run.taken + 1 < steps_of(run.plan).len() {
        lemma_places(run.plan, run.taken + 1);
    }
}

/// An approval is handled as the store names it: what it was found under is what is prioritized and
/// approved, the delivery that was claimed is the one that is completed, by who claimed it, and the
/// approval is evidenced by the issue in which the delivery was completed.
pub proof fn law_approvals_are_handled_as_the_store_names_them(
    run: StoreRunView,
    reply: StoreReplyView,
)
    requires
        run.well_formed(),
    ensures
        ({
            let (next, progress) = advanced(run, Ok(reply));
            let step = run.steps[run.taken];
            &&& progress !is Refused && step == StoreStep::FindApproval ==> next.approval_id
                == reply.approval_id && next.approval_id is Some
            &&& progress !is Refused && step == StoreStep::ClaimDelivery ==> next.delivery
                == reply.delivery && next.delivery is Some
            &&& step != StoreStep::FindApproval ==> next.approval_id == run.approval_id
            &&& step != StoreStep::ClaimDelivery ==> next.delivery == run.delivery
            &&& match progress {
                ProgressView::Asked(StoreRequestView::PrioritizeDelivery { approval_id }) => Some(
                    approval_id,
                ) == next.approval_id,
                ProgressView::Asked(StoreRequestView::ClaimDelivery { worker, seconds }) => worker
                    == "cleanup-matrix"@ && seconds == 30,
                ProgressView::Asked(
                    StoreRequestView::CompleteDelivery {
                        effect_id,
                        generation,
                        worker,
                        issue_key,
                        issue_url,
                    },
                ) => {
                    &&& reply.delivery matches Some(delivery)
                    &&& effect_id == delivery.effect_id
                    &&& generation == delivery.generation
                    &&& worker == "cleanup-matrix"@
                    &&& issue_key == "PROJ-456"@
                    &&& issue_url == "https://jira.example.com/browse/"@ + issue_key
                },
                ProgressView::Asked(
                    StoreRequestView::ApproveAdmission {
                        approval_id,
                        decided_by,
                        rationale,
                        evidence_url,
                        expires_at,
                    },
                ) => {
                    &&& Some(approval_id) == next.approval_id
                    &&& decided_by == "admin@example.com"@
                    &&& rationale == "cleanup matrix approval"@
                    &&& evidence_url == "https://jira.example.com/browse/"@ + "PROJ-456"@
                    &&& expires_at == "2999-01-01T00:00:00Z"@
                },
                _ => true,
            }
        }),
{
    lemma_places(run.plan, run.taken);
    if run.taken + 1 < steps_of(run.plan).len() {
        lemma_places(run.plan, run.taken + 1);
    }
    reveal_strlit("PROJ-456");
    reveal_strlit("https://jira.example.com/browse/");
    reveal_strlit("https://jira.example.com/browse/PROJ-456");
    assert("https://jira.example.com/browse/"@ + "PROJ-456"@
        =~= "https://jira.example.com/browse/PROJ-456"@);
}

/// A run is refused for one of three reasons: a change of an activation that was not applied, an
/// approval that is not there, or a claimed delivery of another Task where the claim is the end. A
/// store that did not answer is told in its own words.
pub proof fn law_runs_are_refused_for_a_reason(
    run: StoreRunView,
    reply: StoreReplyView,
    words: Seq<char>,
)
    requires
        run.well_formed(),
    ensures
        ({
            let progress = advanced(run, Ok(reply)).1;
            let finds = run.steps[run.taken] == StoreStep::FindApproval;
            let claims = run.steps[run.taken] == StoreStep::ClaimDelivery;
            let foreign_approval = match reply.delivery {
                Some(delivery) => run.approval_id != Some(delivery.approval_id),
                None => true,
            };
            let foreign_task = match reply.delivery {
                Some(delivery) => run.task_uid != delivery.task_uid,
                None => true,
            };
            &&& progress == ProgressView::Refused(StoreFault::NotApplied) <==> run.plan
                == Plan::Activation && !reply.applied
            &&& progress == ProgressView::Refused(StoreFault::ApprovalNotFound) <==> (finds
                && reply.approval_id is None) || (claims && foreign_approval)
            &&& progress == ProgressView::Refused(StoreFault::ForeignDelivery) <==> claims
                && !foreign_approval && foreign_task && run.plan == (Plan::Entry {
                state: CleanupEntryState::ApprovalClaimed,
            })
            &&& progress matches ProgressView::Refused(fault) ==> fault == StoreFault::NotApplied
                || fault == StoreFault::ApprovalNotFound || fault == StoreFault::ForeignDelivery
            &&& progress !is Failed
        }),
        advanced(run, Err(words)) == (run, ProgressView::Failed(words)),
{
    lemma_places(run.plan, run.taken);
}

/// How a run stands behind a number of replies.
pub open spec fn behind(run: StoreRunView, replies: Seq<Result<StoreReplyView, Seq<char>>>)
    -> StoreRunView
    decreases replies.len(),
{
    if replies.len() == 0 {
        run
    } else {
        advanced(behind(run, replies.drop_last()), replies.last()).0
    }
}

/// Every reply counts at most once, and a run takes as many replies as its plan has steps: after
/// `n` replies that lead on it stands `n` steps further, in the same plan and about the same Task.
pub proof fn law_a_run_takes_one_reply_for_each_step(
    run: StoreRunView,
    replies: Seq<Result<StoreReplyView, Seq<char>>>,
)
    requires
        run.well_formed(),
        forall|i: int|
            0 <= i < replies.len() ==> advanced(
                behind(run, #[trigger] replies.take(i)),
                replies[i],
            ).1 is Asked,
    ensures
        behind(run, replies).taken == run.taken + replies.len(),
        behind(run, replies).plan == run.plan,
        behind(run, replies).task_uid == run.task_uid,
        behind(run, replies).well_formed(),
        run.taken + replies.len() < steps_of(run.plan).len(),
    decreases replies.len(),
{
    if replies.len() > 0 {
        let earlier = replies.drop_last();
        assert forall|i: int| 0 <= i < earlier.len() implies advanced(
            behind(run, #[trigger] earlier.take(i)),
            earlier[i],
        ).1 is Asked by {
            assert(earlier.take(i) =~= replies.take(i));
            assert(earlier[i] == replies[i]);
        }
        law_a_run_takes_one_reply_for_each_step(run, earlier);
        assert(replies.take(replies.len() - 1) =~= earlier);
        law_requests_follow_the_plan(behind(run, earlier), replies.last());
        law_every_request_names_the_task_of_its_run(behind(run, earlier), replies.last());
        law_one_runtime_is_followed_under_one_authority(behind(run, earlier), replies.last());
    }
}

} // verus!
