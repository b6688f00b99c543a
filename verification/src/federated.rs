//! The life of a federated subject: what a store of them is asked, one after the other, and what
//! it has to answer for a subject to be seen, associated, given to another user and disabled.
use crate::identities::{ALICE_CANONICAL_USER, BOB_CANONICAL_USER};
use crate::runtimes::option_text;
use crate::task_store::{same_id, Uuid};
use crate::text::same_text;
use vstd::prelude::*;

verus! {

/// What is known of a subject.
#[derive(PartialEq, Eq, Structural, Clone, Copy, Debug)]
pub enum SubjectState {
    Observed,
    Associated,
    Disabled,
}

/// What is noted of a subject.
#[derive(PartialEq, Eq, Structural, Clone, Copy, Debug)]
pub enum AuditAction {
    Observed,
    V2Seeded,
    Associated,
    Disabled,
}

/// Why a subject is not resolved or not changed.
#[derive(PartialEq, Eq, Structural, Clone, Copy, Debug)]
pub enum SubjectFault {
    Unassociated,
    Disabled,
    Conflict,
    Other,
}

/// A subject as the store has it.
pub struct SubjectRecord {
    pub subject_id: Uuid,
    pub issuer: String,
    pub subject: String,
    pub state: SubjectState,
    pub canonical_user_id: Option<String>,
    pub revision: i64,
}

/// What is seen of a subject when it signs in somewhere.
pub struct SubjectObservation {
    pub issuer: String,
    pub subject: String,
    pub actor_login: Option<String>,
    pub display_name: Option<String>,
}

pub ghost struct ObservationView {
    pub issuer: Seq<char>,
    pub subject: Seq<char>,
    pub actor_login: Option<Seq<char>>,
    pub display_name: Option<Seq<char>>,
}

impl View for SubjectObservation {
    type V = ObservationView;

    open spec fn view(&self) -> ObservationView {
        ObservationView {
            issuer: self.issuer@,
            subject: self.subject@,
            actor_login: option_text(self.actor_login),
            display_name: option_text(self.display_name),
        }
    }
}

/// The subject whose life is followed.
pub open spec fn observed() -> ObservationView {
    ObservationView {
        issuer: "https://identity.example.test"@,
        subject: "github-actions:actor:16106037"@,
        actor_login: Some("alice-gh"@),
        display_name: Some("Alice"@),
    }
}

/// Another subject of the same issuer that only looks like Alice.
pub open spec fn observed_lookalike() -> ObservationView {
    ObservationView {
        issuer: "https://identity.example.test"@,
        subject: "github-actions:actor:27182818"@,
        actor_login: Some("alice"@),
        display_name: Some("alice@example.com"@),
    }
}

/// The subject whose life is followed.
pub fn observation() -> (seen: SubjectObservation)
    ensures
        seen@ == observed(),
{
    SubjectObservation {
        issuer: "https://identity.example.test".to_owned(),
        subject: "github-actions:actor:16106037".to_owned(),
        actor_login: Some("alice-gh".to_owned()),
        display_name: Some("Alice".to_owned()),
    }
}

/// Another subject of the same issuer that only looks like Alice.
pub fn lookalike() -> (seen: SubjectObservation)
    ensures
        seen@ == observed_lookalike(),
{
    SubjectObservation {
        issuer: "https://identity.example.test".to_owned(),
        subject: "github-actions:actor:27182818".to_owned(),
        actor_login: Some("alice".to_owned()),
        display_name: Some("alice@example.com".to_owned()),
    }
}

/// What the store is asked. Two requests in one step are made at the same time.
#[derive(PartialEq, Eq, Structural, Clone, Copy, Debug)]
pub enum LifecycleStep {
    ObserveTwice,
    AuditObserved,
    ResolveObserved,
    SeedTwice,
    AuditSeeded,
    ResolveAssociated,
    IntroduceBob,
    GiveToBob { expected_revision: i64 },
    GiveToAlice { expected_revision: i64 },
    Disable { expected_revision: i64 },
    ResolveDisabled,
    ObserveLookalike,
    ResolveLookalike,
    TamperWithAudit,
}

/// What the store answers.
pub enum LifecycleReply {
    Pair(SubjectRecord, SubjectRecord),
    Record(SubjectRecord),
    Audit(Vec<AuditAction>),
    Resolved { user_id: String, display_email: String },
    Fault(SubjectFault),
    Accepted,
    Refused,
}

/// The steps, in their order.
pub open spec fn lifecycle() -> Seq<LifecycleStep> {
    seq![
        LifecycleStep::ObserveTwice,
        LifecycleStep::AuditObserved,
        LifecycleStep::ResolveObserved,
        LifecycleStep::SeedTwice,
        LifecycleStep::AuditSeeded,
        LifecycleStep::ResolveAssociated,
        LifecycleStep::IntroduceBob,
        LifecycleStep::GiveToBob { expected_revision: 2 },
        LifecycleStep::GiveToAlice { expected_revision: 2 },
        LifecycleStep::Disable { expected_revision: 3 },
        LifecycleStep::ResolveDisabled,
        LifecycleStep::ObserveLookalike,
        LifecycleStep::ResolveLookalike,
        LifecycleStep::TamperWithAudit,
    ]
}

/// The steps, in their order.
pub fn lifecycle_steps() -> (steps: Vec<LifecycleStep>)
    ensures
        steps@ == lifecycle(),
{
    let steps: Vec<LifecycleStep> = vec![
        LifecycleStep::ObserveTwice,
        LifecycleStep::AuditObserved,
        LifecycleStep::ResolveObserved,
        LifecycleStep::SeedTwice,
        LifecycleStep::AuditSeeded,
        LifecycleStep::ResolveAssociated,
        LifecycleStep::IntroduceBob,
        LifecycleStep::GiveToBob { expected_revision: 2 },
        LifecycleStep::GiveToAlice { expected_revision: 2 },
        LifecycleStep::Disable { expected_revision: 3 },
        LifecycleStep::ResolveDisabled,
        LifecycleStep::ObserveLookalike,
        LifecycleStep::ResolveLookalike,
        LifecycleStep::TamperWithAudit,
    ];
    assert(steps@ =~= lifecycle());
    steps
}

/// The reply is the one that the step has to be answered with: simultaneous requests meet one
/// subject and leave one note, every change makes the next revision, a change that was made from
/// an earlier revision is a conflict, only an associated subject is resolved, and looking alike
/// associates nobody.
pub open spec fn is_answer(step: LifecycleStep, reply: LifecycleReply) -> bool {
    match step {
        LifecycleStep::ObserveTwice => reply matches LifecycleReply::Pair(first, second)
            && first.subject_id@ == second.subject_id@ && first.state == SubjectState::Observed
            && first.revision == 1,
        LifecycleStep::AuditObserved => reply matches LifecycleReply::Audit(actions) && actions@
            == seq![AuditAction::Observed],
        LifecycleStep::ResolveObserved => reply == LifecycleReply::Fault(
            SubjectFault::Unassociated,
        ),
        LifecycleStep::SeedTwice => reply matches LifecycleReply::Pair(first, second)
            && first.subject_id@ == second.subject_id@ && first.state == second.state
            && option_text(first.canonical_user_id) == option_text(second.canonical_user_id)
            && first.revision == second.revision && first.state == SubjectState::Associated
            && option_text(first.canonical_user_id) == Some(ALICE_CANONICAL_USER@)
            && first.revision == 2,
        LifecycleStep::AuditSeeded => reply matches LifecycleReply::Audit(actions) && actions@
            == seq![AuditAction::Observed, AuditAction::V2Seeded],
        LifecycleStep::ResolveAssociated => reply matches LifecycleReply::Resolved {
            user_id,
            display_email,
        } && user_id@ == ALICE_CANONICAL_USER@ && display_email@ == "alice@example.com"@,
        LifecycleStep::IntroduceBob => reply is Accepted,
        LifecycleStep::GiveToBob { .. } => reply matches LifecycleReply::Record(record)
            && option_text(record.canonical_user_id) == Some(BOB_CANONICAL_USER@)
            && record.revision == 3,
        LifecycleStep::GiveToAlice { .. } => reply == LifecycleReply::Fault(
            SubjectFault::Conflict,
        ),
        LifecycleStep::Disable { .. } => reply matches LifecycleReply::Record(record)
            && record.state == SubjectState::Disabled && record.revision == 4,
        LifecycleStep::ResolveDisabled => reply == LifecycleReply::Fault(SubjectFault::Disabled),
        LifecycleStep::ObserveLookalike => reply matches LifecycleReply::Record(record)
            && record.state == SubjectState::Observed && record.canonical_user_id is None,
        LifecycleStep::ResolveLookalike => reply == LifecycleReply::Fault(
            SubjectFault::Unassociated,
        ),
        LifecycleStep::TamperWithAudit => reply is Refused,
    }
}

/// Whether a subject belongs to a user.
fn belongs_to(record: &SubjectRecord, user: &str) -> (belongs: bool)
    ensures
        belongs == (option_text(record.canonical_user_id) == Some(user@)),
{
    match &record.canonical_user_id {
        Some(found) => same_text(found.as_str(), user),
        None => false,
    }
}

/// Whether the reply is a fault, and this one.
fn is_fault(reply: &LifecycleReply, fault: SubjectFault) -> (is: bool)
    ensures
        is == (*reply == LifecycleReply::Fault(fault)),
{
    match reply {
        LifecycleReply::Fault(found) => *found == fault,
        _ => false,
    }
}

/// Whether the reply is the one that the step has to be answered with.
pub fn verify_federated_subject_lifecycle(step: LifecycleStep, reply: &LifecycleReply) -> (answered:
    bool)
    ensures
        answered == is_answer(step, *reply),
{
    match step {
        LifecycleStep::ObserveTwice => match reply {
            LifecycleReply::Pair(first, second) => same_id(&first.subject_id, &second.subject_id)
                && first.state == SubjectState::Observed && first.revision == 1,
            _ => false,
        },
        LifecycleStep::AuditObserved => match reply {
            LifecycleReply::Audit(actions) => {
                let found = actions.len() == 1 && actions[0] == AuditAction::Observed;
                assert(found ==> actions@ =~= seq![AuditAction::Observed]);
                found
            },
            _ => false,
        },
        LifecycleStep::ResolveObserved => is_fault(reply, SubjectFault::Unassociated),
        LifecycleStep::SeedTwice => match reply {
            LifecycleReply::Pair(first, second) => same_id(&first.subject_id, &second.subject_id)
                && first.state == second.state && belongs_to(first, ALICE_CANONICAL_USER)
                && belongs_to(second, ALICE_CANONICAL_USER) && first.revision == second.revision
                && first.state == SubjectState::Associated && first.revision == 2,
            _ => false,
        },
        LifecycleStep::AuditSeeded => match reply {
            LifecycleReply::Audit(actions) => {
                let found = actions.len() == 2 && actions[0] == AuditAction::Observed && actions[1]
                    == AuditAction::V2Seeded;
                assert(found ==> actions@ =~= seq![AuditAction::Observed, AuditAction::V2Seeded]);
                found
            },
            _ => false,
        },
        LifecycleStep::ResolveAssociated => match reply {
            LifecycleReply::Resolved { user_id, display_email } => same_text(
                user_id.as_str(),
                ALICE_CANONICAL_USER,
            ) && same_text(display_email.as_str(), "alice@example.com"),
            _ => false,
        },
        LifecycleStep::IntroduceBob => match reply {
            LifecycleReply::Accepted => true,
            _ => false,
        },
        LifecycleStep::GiveToBob { .. } => match reply {
            LifecycleReply::Record(record) => belongs_to(record, BOB_CANONICAL_USER)
                && record.revision == 3,
            _ => false,
        },
        LifecycleStep::GiveToAlice { .. } => is_fault(reply, SubjectFault::Conflict),
        LifecycleStep::Disable { .. } => match reply {
            LifecycleReply::Record(record) => record.state == SubjectState::Disabled
                && record.revision == 4,
            _ => false,
        },
        LifecycleStep::ResolveDisabled => is_fault(reply, SubjectFault::Disabled),
        LifecycleStep::ObserveLookalike => match reply {
            LifecycleReply::Record(record) => record.state == SubjectState::Observed
                && record.canonical_user_id.is_none(),
            _ => false,
        },
        LifecycleStep::ResolveLookalike => is_fault(reply, SubjectFault::Unassociated),
        LifecycleStep::TamperWithAudit => match reply {
            LifecycleReply::Refused => true,
            _ => false,
        },
    }
}

/// Every change makes the next revision, and every change but the stale one is asked for on the
/// revision that the change before it was answered with.
pub proof fn law_changes_are_made_on_the_latest_revision(
    seeded: LifecycleReply,
    given: LifecycleReply,
    disabled: LifecycleReply,
)
    requires
        is_answer(lifecycle()[3], seeded),
        is_answer(lifecycle()[7], given),
        is_answer(lifecycle()[9], disabled),
    ensures
        ({
            let first = seeded->Pair_0.revision;
            let second = given->Record_0.revision;
            let third = disabled->Record_0.revision;
            &&& second == first + 1
            &&& third == second + 1
            &&& lifecycle()[7] == (LifecycleStep::GiveToBob { expected_revision: first })
            &&& lifecycle()[8] == (LifecycleStep::GiveToAlice { expected_revision: first })
            &&& lifecycle()[9] == (LifecycleStep::Disable { expected_revision: second })
        }),
{
}

/// A request to the store, with all that it is handed. A request that is made twice is made twice
/// at the same time.
pub enum SubjectRequest {
    ObserveTwice(SubjectObservation),
    Observe(SubjectObservation),
    Audit { subject_id: Uuid },
    Resolve { issuer: String, subject: String },
    SeedTwice { observation: SubjectObservation, user_id: String, actor: String },
    InsertUser { user_id: String, organization_id: String, display_email: String },
    Replace { subject_id: Uuid, expected_revision: i64, user_id: String, actor: String },
    Disable { subject_id: Uuid, expected_revision: i64, actor: String, reason: String },
    Tamper { subject_id: Uuid },
}

pub ghost enum SubjectRequestView {
    ObserveTwice(ObservationView),
    Observe(ObservationView),
    Audit { subject_id: Seq<u8> },
    Resolve { issuer: Seq<char>, subject: Seq<char> },
    SeedTwice { observation: ObservationView, user_id: Seq<char>, actor: Seq<char> },
    InsertUser { user_id: Seq<char>, organization_id: Seq<char>, display_email: Seq<char> },
    Replace { subject_id: Seq<u8>, expected_revision: i64, user_id: Seq<char>, actor: Seq<char> },
    Disable { subject_id: Seq<u8>, expected_revision: i64, actor: Seq<char>, reason: Seq<char> },
    Tamper { subject_id: Seq<u8> },
}

impl View for SubjectRequest {
    type V = SubjectRequestView;

    open spec fn view(&self) -> SubjectRequestView {
        match *self {
            SubjectRequest::ObserveTwice(seen) => SubjectRequestView::ObserveTwice(seen@),
            SubjectRequest::Observe(seen) => SubjectRequestView::Observe(seen@),
            SubjectRequest::Audit { subject_id } => SubjectRequestView::Audit {
                subject_id: subject_id@,
            },
            SubjectRequest::Resolve { issuer, subject } => SubjectRequestView::Resolve {
                issuer: issuer@,
                subject: subject@,
            },
            SubjectRequest::SeedTwice { observation, user_id, actor } =>
                SubjectRequestView::SeedTwice {
                observation: observation@,
                user_id: user_id@,
                actor: actor@,
            },
            SubjectRequest::InsertUser { user_id, organization_id, display_email } =>
                SubjectRequestView::InsertUser {
                user_id: user_id@,
                organization_id: organization_id@,
                display_email: display_email@,
            },
            SubjectRequest::Replace { subject_id, expected_revision, user_id, actor } =>
                SubjectRequestView::Replace {
                subject_id: subject_id@,
                expected_revision,
                user_id: user_id@,
                actor: actor@,
            },
            SubjectRequest::Disable { subject_id, expected_revision, actor, reason } =>
                SubjectRequestView::Disable {
                subject_id: subject_id@,
                expected_revision,
                actor: actor@,
                reason: reason@,
            },
            SubjectRequest::Tamper { subject_id } => SubjectRequestView::Tamper {
                subject_id: subject_id@,
            },
        }
    }
}

/// Where a subject is found again.
pub struct SubjectHandle {
    pub subject_id: Uuid,
    pub issuer: String,
    pub subject: String,
}

pub ghost struct HandleView {
    pub subject_id: Seq<u8>,
    pub issuer: Seq<char>,
    pub subject: Seq<char>,
}

impl View for SubjectHandle {
    type V = HandleView;

    open spec fn view(&self) -> HandleView {
        HandleView {
            subject_id: self.subject_id@,
            issuer: self.issuer@,
            subject: self.subject@,
        }
    }
}

/// The view of an optional handle.
pub open spec fn option_handle(handle: Option<SubjectHandle>) -> Option<HandleView> {
    match handle {
        Some(found) => Some(found@),
        None => None,
    }
}

/// Where a record says that its subject is found.
pub open spec fn handle_of(record: SubjectRecord) -> HandleView {
    HandleView {
        subject_id: record.subject_id@,
        issuer: record.issuer@,
        subject: record.subject@,
    }
}

impl SubjectRecord {
    /// Where the subject is found again.
    fn handle(&self) -> (handle: SubjectHandle)
        ensures
            handle@ == handle_of(*self),
    {
        SubjectHandle {
            subject_id: self.subject_id,
            issuer: self.issuer.clone(),
            subject: self.subject.clone(),
        }
    }
}

/// The life of a subject as far as it was followed: how many replies were taken, where the subject
/// is found, and where the one that looks alike.
pub struct Lifecycle {
    pub taken: usize,
    pub first: Option<SubjectHandle>,
    pub similar: Option<SubjectHandle>,
}

pub ghost struct LifecycleView {
    pub taken: int,
    pub first: Option<HandleView>,
    pub similar: Option<HandleView>,
}

impl View for Lifecycle {
    type V = LifecycleView;

    open spec fn view(&self) -> LifecycleView {
        LifecycleView {
            taken: self.taken as int,
            first: option_handle(self.first),
            similar: option_handle(self.similar),
        }
    }
}

impl LifecycleView {
    /// A request is under way, and the subjects that were seen can be found again.
    pub open spec fn well_formed(self) -> bool {
        &&& 0 <= self.taken < lifecycle().len()
        &&& self.taken > 0 ==> self.first is Some
        &&& self.taken > 11 ==> self.similar is Some
    }

    /// The request that takes a step.
    pub open spec fn request(self, step: LifecycleStep) -> SubjectRequestView {
        let first = self.first->Some_0;
        let similar = self.similar->Some_0;
        match step {
            LifecycleStep::ObserveTwice => SubjectRequestView::ObserveTwice(observed()),
            LifecycleStep::AuditObserved => SubjectRequestView::Audit {
                subject_id: first.subject_id,
            },
            LifecycleStep::ResolveObserved => SubjectRequestView::Resolve {
                issuer: first.issuer,
                subject: first.subject,
            },
            LifecycleStep::SeedTwice => SubjectRequestView::SeedTwice {
                observation: observed(),
                user_id: ALICE_CANONICAL_USER@,
                actor: "steward-task-v2"@,
            },
            LifecycleStep::AuditSeeded => SubjectRequestView::Audit {
                subject_id: first.subject_id,
            },
            LifecycleStep::ResolveAssociated => SubjectRequestView::Resolve {
                issuer: first.issuer,
                subject: first.subject,
            },
            LifecycleStep::IntroduceBob => SubjectRequestView::InsertUser {
                user_id: BOB_CANONICAL_USER@,
                organization_id: "org_example"@,
                display_email: "bob@example.org"@,
            },
            LifecycleStep::GiveToBob { expected_revision } => SubjectRequestView::Replace {
                subject_id: first.subject_id,
                expected_revision,
                user_id: BOB_CANONICAL_USER@,
                actor: ALICE_CANONICAL_USER@,
            },
            LifecycleStep::GiveToAlice { expected_revision } => SubjectRequestView::Replace {
                subject_id: first.subject_id,
                expected_revision,
                user_id: ALICE_CANONICAL_USER@,
                actor: ALICE_CANONICAL_USER@,
            },
            LifecycleStep::Disable { expected_revision } => SubjectRequestView::Disable {
                subject_id: first.subject_id,
                expected_revision,
                actor: ALICE_CANONICAL_USER@,
                reason: "access revoked"@,
            },
            LifecycleStep::ResolveDisabled => SubjectRequestView::Resolve {
                issuer: first.issuer,
                subject: first.subject,
            },
            LifecycleStep::ObserveLookalike => SubjectRequestView::Observe(observed_lookalike()),
            LifecycleStep::ResolveLookalike => SubjectRequestView::Resolve {
                issuer: similar.issuer,
                subject: similar.subject,
            },
            LifecycleStep::TamperWithAudit => SubjectRequestView::Tamper {
                subject_id: first.subject_id,
            },
        }
    }

    /// The life once the right reply to the request under way was taken.
    pub open spec fn taking(self, reply: LifecycleReply) -> LifecycleView {
        let next = LifecycleView { taken: self.taken + 1, ..self };
        match (lifecycle()[self.taken], reply) {
            (LifecycleStep::ObserveTwice, LifecycleReply::Pair(first, _)) => LifecycleView {
                first: Some(handle_of(first)),
                ..next
            },
            (LifecycleStep::ObserveLookalike, LifecycleReply::Record(record)) => LifecycleView {
                similar: Some(handle_of(record)),
                ..next
            },
            _ => next,
        }
    }
}

/// How the life of a subject goes on: with another request, to its end, or not as it has to.
pub enum LifecycleProgress {
    Asked(SubjectRequest),
    Lived,
    Wrong(LifecycleStep),
}

pub ghost enum LifecycleProgressView {
    Asked(SubjectRequestView),
    Lived,
    Wrong(LifecycleStep),
}

impl View for LifecycleProgress {
    type V = LifecycleProgressView;

    open spec fn view(&self) -> LifecycleProgressView {
        match *self {
            LifecycleProgress::Asked(request) => LifecycleProgressView::Asked(request@),
            LifecycleProgress::Lived => LifecycleProgressView::Lived,
            LifecycleProgress::Wrong(step) => LifecycleProgressView::Wrong(step),
        }
    }
}

/// The life behind a reply, and how it goes on. A wrong reply changes nothing.
pub open spec fn lived(life: LifecycleView, reply: LifecycleReply) -> (
    LifecycleView,
    LifecycleProgressView,
) {
    let step = lifecycle()[life.taken];
    let next = life.taking(reply);
    if !is_answer(step, reply) {
        (life, LifecycleProgressView::Wrong(step))
    } else if next.taken < lifecycle().len() {
        (next, LifecycleProgressView::Asked(next.request(lifecycle()[next.taken])))
    } else {
        (next, LifecycleProgressView::Lived)
    }
}

impl Lifecycle {
    /// A request is under way, and the subjects that were seen can be found again.
    pub open spec fn well_formed(&self) -> bool {
        self@.well_formed()
    }

    /// Starts to follow the life of a subject, which is seen twice at the same time.
    pub fn begin() -> (begun: (Lifecycle, SubjectRequest))
        ensures
            begun.0.well_formed(),
            begun.0@ == (LifecycleView { taken: 0, first: None, similar: None }),
            begun.1@ == SubjectRequestView::ObserveTwice(observed()),
    {
        let life = Lifecycle { taken: 0, first: None, similar: None };
        (life, SubjectRequest::ObserveTwice(observation()))
    }

    /// The request that takes a step, on the subject that was seen first.
    fn request(&self, step: LifecycleStep) -> (request: SubjectRequest)
        requires
            self.first is Some,
            step == LifecycleStep::ResolveLookalike ==> self.similar is Some,
        ensures
            request@ == self@.request(step),
    {
        let first = self.first.as_ref().unwrap();
        match step {
            LifecycleStep::ObserveTwice => SubjectRequest::ObserveTwice(observation()),
            LifecycleStep::AuditObserved | LifecycleStep::AuditSeeded => SubjectRequest::Audit {
                subject_id: first.subject_id,
            },
            LifecycleStep::ResolveObserved | LifecycleStep::ResolveAssociated
            | LifecycleStep::ResolveDisabled => SubjectRequest::Resolve {
                issuer: first.issuer.clone(),
                subject: first.subject.clone(),
            },
            LifecycleStep::SeedTwice => SubjectRequest::SeedTwice {
                observation: observation(),
                user_id: ALICE_CANONICAL_USER.to_owned(),
                actor: "steward-task-v2".to_owned(),
            },
            LifecycleStep::IntroduceBob => SubjectRequest::InsertUser {
                user_id: BOB_CANONICAL_USER.to_owned(),
                organization_id: "org_example".to_owned(),
                display_email: "bob@example.org".to_owned(),
            },
            LifecycleStep::GiveToBob { expected_revision } => SubjectRequest::Replace {
                subject_id: first.subject_id,
                expected_revision,
                user_id: BOB_CANONICAL_USER.to_owned(),
                actor: ALICE_CANONICAL_USER.to_owned(),
            },
            LifecycleStep::GiveToAlice { expected_revision } => SubjectRequest::Replace {
                subject_id: first.subject_id,
                expected_revision,
                user_id: ALICE_CANONICAL_USER.to_owned(),
                actor: ALICE_CANONICAL_USER.to_owned(),
            },
            LifecycleStep::Disable { expected_revision } => SubjectRequest::Disable {
                subject_id: first.subject_id,
                expected_revision,
                actor: ALICE_CANONICAL_USER.to_owned(),
                reason: "access revoked".to_owned(),
            },
            LifecycleStep::ObserveLookalike => SubjectRequest::Observe(lookalike()),
            LifecycleStep::ResolveLookalike => {
                let similar = self.similar.as_ref().unwrap();
                SubjectRequest::Resolve {
                    issuer: similar.issuer.clone(),
                    subject: similar.subject.clone(),
                }
            },
            LifecycleStep::TamperWithAudit => SubjectRequest::Tamper {
                subject_id: first.subject_id,
            },
        }
    }

    /// Takes the reply to the request under way.
    pub fn advance(&mut self, reply: &LifecycleReply) -> (progress: LifecycleProgress)
        requires
            old(self).well_formed(),
        ensures
            (final(self)@, progress@) == lived(old(self)@, *reply),
            progress is Asked ==> final(self).well_formed(),
    {
        let steps = lifecycle_steps();
        let step = steps[self.taken];
        if !verify_federated_subject_lifecycle(step, reply) {
            return LifecycleProgress::Wrong(step);
        }
        match (step, reply) {
            (LifecycleStep::ObserveTwice, LifecycleReply::Pair(first, _)) => {
                self.first = Some(first.handle());
            },
            (LifecycleStep::ObserveLookalike, LifecycleReply::Record(record)) => {
                self.similar = Some(record.handle());
            },
            _ => {},
        }
        self.taken = self.taken + 1;
        if self.taken < steps.len() {
            LifecycleProgress::Asked(self.request(steps[self.taken]))
        } else {
            LifecycleProgress::Lived
        }
    }
}

/// Every request about a subject is about the one that was seen first, or about the one that looks
/// alike: whatever the store answers later, no other subject is read or changed.
pub proof fn law_one_subject_is_followed(life: LifecycleView, reply: LifecycleReply)
    requires
        life.well_formed(),
        life.taken > 0,
    ensures
        ({
            let (next, progress) = lived(life, reply);
            &&& next.first == life.first
            &&& match progress {
                LifecycleProgressView::Asked(
                    SubjectRequestView::Replace { subject_id, .. },
                ) => subject_id == life.first->Some_0.subject_id,
                LifecycleProgressView::Asked(
                    SubjectRequestView::Disable { subject_id, .. },
                ) => subject_id == life.first->Some_0.subject_id,
                LifecycleProgressView::Asked(
                    SubjectRequestView::Audit { subject_id },
                ) => subject_id == life.first->Some_0.subject_id,
                LifecycleProgressView::Asked(
                    SubjectRequestView::Tamper { subject_id },
                ) => subject_id == life.first->Some_0.subject_id,
                _ => true,
            }
        }),
{
}

/// The life of a subject goes on exactly with the reply that each step has to be answered with, and
/// is lived to its end with the last of them.
pub proof fn law_right_replies_lead_on(life: LifecycleView, reply: LifecycleReply)
    requires
        life.well_formed(),
    ensures
        ({
            let (next, progress) = lived(life, reply);
            let right = is_answer(lifecycle()[life.taken], reply);
            &&& right <==> progress !is Wrong
            &&& right ==> next.taken == life.taken + 1
            &&& !right ==> next == life
            &&& progress is Lived <==> right && life.taken + 1 == lifecycle().len()
        }),
{
}

/// What is asked of the store about a subject: who is seen twice is who is associated twice, with
/// Alice; the subject is then given to Bob, on behalf of Alice, on the revision of the association,
/// tried to be given back on that same revision, and disabled on the next one. What is resolved is
/// where the store said that the subject is found, and only the last one is who looks alike.
pub proof fn law_requests_follow_the_life(life: LifecycleView, reply: LifecycleReply)
    requires
        life.well_formed(),
    ensures
        ({
            let (next, progress) = lived(life, reply);
            let alice = "usr_0123456789abcdef0123456789abcdef"@;
            let bob = "usr_abcdef0123456789abcdef0123456789"@;
            match progress {
                LifecycleProgressView::Asked(SubjectRequestView::ObserveTwice(_)) => false,
                LifecycleProgressView::Asked(SubjectRequestView::Observe(seen)) => {
                    &&& life.taken == 10
                    &&& seen.issuer == "https://identity.example.test"@
                    &&& seen.subject == "github-actions:actor:27182818"@
                    &&& seen.actor_login == Some("alice"@)
                    &&& seen.display_name == Some("alice@example.com"@)
                },
                LifecycleProgressView::Asked(
                    SubjectRequestView::SeedTwice { observation, user_id, actor },
                ) => {
                    &&& observation.issuer == "https://identity.example.test"@
                    &&& observation.subject == "github-actions:actor:16106037"@
                    &&& observation.actor_login == Some("alice-gh"@)
                    &&& observation.display_name == Some("Alice"@)
                    &&& user_id == alice
                    &&& actor == "steward-task-v2"@
                },
                LifecycleProgressView::Asked(SubjectRequestView::Resolve { issuer, subject }) =>
                    if life.taken == 11 {
                        next.similar matches Some(found) && found.issuer == issuer && found.subject
                            == subject
                    } else {
                        next.first matches Some(found) && found.issuer == issuer && found.subject
                            == subject
                    },
                LifecycleProgressView::Asked(
                    SubjectRequestView::InsertUser { user_id, organization_id, display_email },
                ) => user_id == bob && organization_id == "org_example"@ && display_email
                    == "bob@example.org"@,
                LifecycleProgressView::Asked(
                    SubjectRequestView::Replace { subject_id, expected_revision, user_id, actor },
                ) => {
                    &&& next.first matches Some(found) && found.subject_id == subject_id
                    &&& expected_revision == 2
                    &&& user_id == (if life.taken == 6 {
                        bob
                    } else {
                        alice
                    })
                    &&& actor == alice
                },
                LifecycleProgressView::Asked(
                    SubjectRequestView::Disable { subject_id, expected_revision, actor, reason },
                ) => {
                    &&& next.first matches Some(found) && found.subject_id == subject_id
                    &&& expected_revision == 3
                    &&& actor == alice
                    &&& reason == "access revoked"@
                },
                LifecycleProgressView::Asked(SubjectRequestView::Audit { subject_id }) =>
                    next.first matches Some(found) && found.subject_id == subject_id,
                LifecycleProgressView::Asked(SubjectRequestView::Tamper { subject_id }) =>
                    next.first matches Some(found) && found.subject_id == subject_id,
                _ => true,
            }
        }),
{
}

/// What a store has to answer for the life of a subject to go on, and with what it does go on: simultaneous requests meet one
/// subject, a subject that is only seen belongs to nobody and is not resolved, one that is associated
/// is resolved to its user, a change is refused where it was made from an earlier revision, nobody is
/// resolved who is disabled, and what is noted is neither lost nor changed.
pub proof fn law_lives_go_on_with_the_right_answers(life: LifecycleView, reply: LifecycleReply)
    requires
        life.well_formed(),
    ensures
        ({
            let goes_on = lived(life, reply).1 !is Wrong;
            &&& life.taken == 0 ==> (goes_on <==> (reply matches LifecycleReply::Pair(a, b)
                && a.subject_id@ == b.subject_id@ && a.state == SubjectState::Observed && a.revision
                == 1))
            &&& life.taken == 1 ==> (goes_on <==> (reply matches LifecycleReply::Audit(notes)
                && notes@.len() == 1 && notes@[0] == AuditAction::Observed))
            &&& life.taken == 2 ==> (goes_on <==> reply == LifecycleReply::Fault(
                SubjectFault::Unassociated,
            ))
            &&& life.taken == 3 ==> (goes_on <==> (reply matches LifecycleReply::Pair(a, b)
                && a.subject_id@ == b.subject_id@ && is_alices(a) && is_alices(b)))
            &&& life.taken == 4 ==> (goes_on <==> (reply matches LifecycleReply::Audit(notes)
                && notes@.len() == 2 && notes@[0] == AuditAction::Observed && notes@[1]
                == AuditAction::V2Seeded))
            &&& life.taken == 5 ==> (goes_on <==> (reply matches LifecycleReply::Resolved {
                user_id,
                display_email,
            } && user_id@ == "usr_0123456789abcdef0123456789abcdef"@ && display_email@
                == "alice@example.com"@))
            &&& life.taken == 6 ==> (goes_on <==> reply is Accepted)
            &&& life.taken == 7 ==> (goes_on <==> (reply matches LifecycleReply::Record(record)
                && record.revision == 3 && (record.canonical_user_id matches Some(user) && user@
                == "usr_abcdef0123456789abcdef0123456789"@)))
            &&& life.taken == 8 ==> (goes_on <==> reply == LifecycleReply::Fault(
                SubjectFault::Conflict,
            ))
            &&& life.taken == 9 ==> (goes_on <==> (reply matches LifecycleReply::Record(record)
                && record.revision == 4 && record.state == SubjectState::Disabled))
            &&& life.taken == 10 ==> (goes_on <==> reply == LifecycleReply::Fault(
                SubjectFault::Disabled,
            ))
            &&& life.taken == 11 ==> (goes_on <==> (reply matches LifecycleReply::Record(record)
                && record.state == SubjectState::Observed && record.canonical_user_id is None))
            &&& life.taken == 12 ==> (goes_on <==> reply == LifecycleReply::Fault(
                SubjectFault::Unassociated,
            ))
            &&& life.taken == 13 ==> (goes_on <==> reply is Refused)
        }),
{
    if life.taken == 1 {
        if let LifecycleReply::Audit(notes) = reply {
            if notes@.len() == 1 && notes@[0] == AuditAction::Observed {
                assert(notes@ =~= seq![AuditAction::Observed]);
            }
        }
    }
    if life.taken == 4 {
        if let LifecycleReply::Audit(notes) = reply {
            if notes@.len() == 2 && notes@[0] == AuditAction::Observed && notes@[1]
                == AuditAction::V2Seeded {
                assert(notes@ =~= seq![AuditAction::Observed, AuditAction::V2Seeded]);
            }
        }
    }
}

/// The subject is associated with Alice, by the second change of it.
pub open spec fn is_alices(record: SubjectRecord) -> bool {
    record.state == SubjectState::Associated && record.revision == 2 && (
    record.canonical_user_id matches Some(user) && user@ == "usr_0123456789abcdef0123456789abcdef"@)
}

/// Where a subject is found again is what the store said of it when it was seen: of the first of the
/// two simultaneous replies, and of the one that looks alike. No other reply moves them.
pub proof fn law_subjects_are_found_where_they_were_seen(
    life: LifecycleView,
    reply: LifecycleReply,
)
    requires
        life.well_formed(),
        lived(life, reply).1 !is Wrong,
    ensures
        ({
            let next = lived(life, reply).0;
            &&& life.taken == 0 ==> (reply matches LifecycleReply::Pair(seen, _) && (
            next.first matches Some(found) && found.subject_id == seen.subject_id@ && found.issuer
                == seen.issuer@ && found.subject == seen.subject@))
            &&& life.taken == 11 ==> (reply matches LifecycleReply::Record(seen) && (
            next.similar matches Some(found) && found.subject_id == seen.subject_id@
                && found.issuer == seen.issuer@ && found.subject == seen.subject@))
            &&& life.taken != 0 ==> next.first == life.first
            &&& life.taken != 11 ==> next.similar == life.similar
        }),
{
}

} // verus!
