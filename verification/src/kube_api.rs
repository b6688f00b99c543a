//! A Kubernetes API of one agent runtime that can lose a reply, refuse a request or put another
//! runtime under the name of a deleted one, as a client has to survive it.
//!
//! A request that the admission webhook has to judge is answered in two or more steps: the step
//! that asks hands out what is pending, and `settle` goes on from there with the verdict. Other
//! requests may come in between.
use crate::digest::{runtime_spec_digest, sha256};
use crate::json::{
    array, as_text, as_truth, copy, inner_tree, json_document, json_error_text, json_text,
    json_tree, json_trees, member, member_tree, null, number, number_tree, object, parse, put, render, text,
    tree_bool, tree_text, truth, JsonTree,
};
use crate::runtimes::{
    option_text, Runtime, RuntimeMetadataView, RuntimeRefs, RuntimeRefsView, RuntimeSpecView,
    RuntimeStatus, RuntimeStatusView, RuntimeView,
};
use crate::text::{concat3, has_prefix, hex_digits, same_text, starts_with, views};
use vstd::prelude::*;
use vstd::string::*;
use vstd::utf8::*;

verus! {

/// Where the runtimes of the test namespace stand.
pub const RUNTIME_PATH_PREFIX: &'static str =
    "/apis/agents.apelogic.ai/v1alpha1/namespaces/steward-test/agentruntimes";

/// As whom the controller speaks to the webhook.
pub const CONTROLLER_USERNAME: &'static str =
    "system:serviceaccount:steward-system:steward-controller";

/// The method of an HTTP request.
#[derive(PartialEq, Eq, Structural, Clone, Copy)]
pub enum Verb {
    Post,
    Get,
    Put,
    Delete,
    Other,
}

/// What a request is about.
#[derive(PartialEq, Eq, Structural, Clone, Copy)]
pub enum Route {
    Create,
    Read,
    Replace,
    Delete,
    Unknown,
}

/// What a request is about, by its method and path.
pub open spec fn routed(verb: Verb, path: Seq<char>) -> Route {
    if verb == Verb::Post && path == RUNTIME_PATH_PREFIX@ {
        Route::Create
    } else if !has_prefix(path, RUNTIME_PATH_PREFIX@) {
        Route::Unknown
    } else {
        match verb {
            Verb::Get => Route::Read,
            Verb::Put => Route::Replace,
            Verb::Delete => Route::Delete,
            _ => Route::Unknown,
        }
    }
}

/// What a request is about.
pub fn route(verb: Verb, path: &str) -> (found: Route)
    ensures
        found == routed(verb, path@),
{
    if verb == Verb::Post && same_text(path, RUNTIME_PATH_PREFIX) {
        Route::Create
    } else if !starts_with(path, RUNTIME_PATH_PREFIX) {
        Route::Unknown
    } else {
        match verb {
            Verb::Get => Route::Read,
            Verb::Put => Route::Replace,
            Verb::Delete => Route::Delete,
            _ => Route::Unknown,
        }
    }
}

/// What the admission webhook was asked.
pub struct WebhookAdmissionHarness {
    pub verify_boundaries: bool,
    pub create_checks: usize,
    pub update_checks: usize,
    pub delete_checks: usize,
}

/// The API: the runtime that it holds, the requests that it saw and the faults that are armed.
pub struct AmbiguousKubernetes {
    pub runtime: Option<Runtime>,
    pub created: Vec<Runtime>,
    pub create_calls: usize,
    pub replace_calls: usize,
    pub fail_first_create_response: bool,
    pub reject_create_with_unprocessable_entity: bool,
    pub delete_preconditions: Vec<String>,
    pub replace_name_after_delete: bool,
    pub admission: Option<WebhookAdmissionHarness>,
}

/// What the API answers.
pub enum Reply {
    Status { code: u16, reason: String },
    Object { code: u16, runtime: Runtime },
}

/// What waits for a verdict of the webhook.
pub enum Pending {
    MutatedCreate { runtime: Runtime },
    UnpersistedCreate { runtime: Runtime },
    Create { runtime: Runtime },
    Update { desired: Runtime, current: Runtime },
    Delete { uid: String, current: Runtime },
}

/// How a request goes on: with the reply, or with a question to the webhook.
pub enum Step {
    Done(Reply),
    Ask(Pending),
}

/// What the webhook is asked to judge.
pub struct Question {
    pub operation: &'static str,
    pub runtime: Runtime,
    pub old_runtime: Option<Runtime>,
}

#[verifier::ext_equal]
pub ghost struct KubernetesView {
    pub runtime: Option<RuntimeView>,
    pub created: Seq<RuntimeView>,
    pub create_calls: usize,
    pub replace_calls: usize,
    pub fail_first_create_response: bool,
    pub reject_create_with_unprocessable_entity: bool,
    pub delete_preconditions: Seq<Seq<char>>,
    pub replace_name_after_delete: bool,
    pub admission: Option<WebhookAdmissionHarness>,
}

pub ghost enum ReplyView {
    Status { code: u16, reason: Seq<char> },
    Object { code: u16, runtime: RuntimeView },
}

pub ghost enum PendingView {
    MutatedCreate { runtime: RuntimeView },
    UnpersistedCreate { runtime: RuntimeView },
    Create { runtime: RuntimeView },
    Update { desired: RuntimeView, current: RuntimeView },
    Delete { uid: Seq<char>, current: RuntimeView },
}

pub ghost enum StepView {
    Done(ReplyView),
    Ask(PendingView),
}

pub ghost struct QuestionView {
    pub operation: Seq<char>,
    pub runtime: RuntimeView,
    pub old_runtime: Option<RuntimeView>,
}

/// The view of an optional runtime.
pub open spec fn option_runtime(runtime: Option<Runtime>) -> Option<RuntimeView> {
    match runtime {
        Some(inner) => Some(inner@),
        None => None,
    }
}

/// The views of runtimes.
pub open spec fn runtime_views(runtimes: Seq<Runtime>) -> Seq<RuntimeView> {
    Seq::new(runtimes.len(), |i: int| runtimes[i]@)
}

impl View for AmbiguousKubernetes {
    type V = KubernetesView;

    open spec fn view(&self) -> KubernetesView {
        KubernetesView {
            runtime: option_runtime(self.runtime),
            created: runtime_views(self.created@),
            create_calls: self.create_calls,
            replace_calls: self.replace_calls,
            fail_first_create_response: self.fail_first_create_response,
            reject_create_with_unprocessable_entity: self.reject_create_with_unprocessable_entity,
            delete_preconditions: views(self.delete_preconditions@),
            replace_name_after_delete: self.replace_name_after_delete,
            admission: self.admission,
        }
    }
}

impl View for Reply {
    type V = ReplyView;

    open spec fn view(&self) -> ReplyView {
        match *self {
            Reply::Status { code, reason } => ReplyView::Status { code, reason: reason@ },
            Reply::Object { code, runtime } => ReplyView::Object { code, runtime: runtime@ },
        }
    }
}

impl View for Pending {
    type V = PendingView;

    open spec fn view(&self) -> PendingView {
        match *self {
            Pending::MutatedCreate { runtime } => PendingView::MutatedCreate { runtime: runtime@ },
            Pending::UnpersistedCreate { runtime } => PendingView::UnpersistedCreate {
                runtime: runtime@,
            },
            Pending::Create { runtime } => PendingView::Create { runtime: runtime@ },
            Pending::Update { desired, current } => PendingView::Update {
                desired: desired@,
                current: current@,
            },
            Pending::Delete { uid, current } => PendingView::Delete {
                uid: uid@,
                current: current@,
            },
        }
    }
}

impl View for Step {
    type V = StepView;

    open spec fn view(&self) -> StepView {
        match *self {
            Step::Done(reply) => StepView::Done(reply@),
            Step::Ask(pending) => StepView::Ask(pending@),
        }
    }
}

impl View for Question {
    type V = QuestionView;

    open spec fn view(&self) -> QuestionView {
        QuestionView {
            operation: self.operation@,
            runtime: self.runtime@,
            old_runtime: option_runtime(self.old_runtime),
        }
    }
}

/// One more call; the count starts over behind its largest value.
pub open spec fn one_more(count: usize) -> usize {
    if count == usize::MAX {
        0
    } else {
        (count + 1) as usize
    }
}

/// A status reply.
pub open spec fn status(code: u16, reason: Seq<char>) -> StepView {
    StepView::Done(ReplyView::Status { code, reason })
}

/// The runtime as a create stores it: the first of its states, under its own identity.
pub open spec fn as_created(runtime: RuntimeView) -> RuntimeView {
    RuntimeView {
        metadata: RuntimeMetadataView {
            uid: Some("runtime-uid-a"@),
            resource_version: Some("1"@),
            generation: Some(1),
            ..runtime.metadata
        },
        ..runtime
    }
}

/// The runtime as a replace stores it: under the identity that it had, running.
pub open spec fn as_replaced(
    desired: RuntimeView,
    current: RuntimeView,
    written_spec: Seq<u8>,
) -> RuntimeView {
    RuntimeView {
        metadata: RuntimeMetadataView {
            uid: current.metadata.uid,
            resource_version: Some("2"@),
            generation: Some(2),
            ..desired.metadata
        },
        status: Some(
            RuntimeStatusView {
                phase: "Running"@,
                observed_generation: 2,
                spec_digest: hex_digits(sha256(written_spec)),
                refs: RuntimeRefsView {
                    workspace: Some("workspace-a"@),
                    sandbox: Some("sandbox-a"@),
                    litellm_key: None,
                },
                conditions: Seq::empty(),
                spend: None,
            },
        ),
        ..desired
    }
}

/// Another runtime under the name of a deleted one.
pub open spec fn as_impostor(runtime: RuntimeView) -> RuntimeView {
    RuntimeView {
        metadata: RuntimeMetadataView {
            uid: Some("runtime-uid-replacement"@),
            resource_version: Some("3"@),
            ..runtime.metadata
        },
        ..runtime
    }
}

/// The runtime with a budget that nobody granted.
pub open spec fn with_mutated_budget(runtime: RuntimeView) -> RuntimeView {
    RuntimeView {
        spec: RuntimeSpecView {
            budget: crate::runtimes::BudgetView {
                monthly_limit: "999"@,
                ..runtime.spec.budget
            },
            ..runtime.spec
        },
        ..runtime
    }
}

/// The runtime under a name that no Task was stored with.
pub open spec fn with_unpersisted_name(runtime: RuntimeView) -> RuntimeView {
    RuntimeView {
        metadata: RuntimeMetadataView { name: Some("task-unpersisted"@), ..runtime.metadata },
        ..runtime
    }
}

/// What the webhook is asked about what is pending.
pub open spec fn question_of(pending: PendingView) -> QuestionView {
    match pending {
        PendingView::MutatedCreate { runtime } => QuestionView {
            operation: "CREATE"@,
            runtime: with_mutated_budget(runtime),
            old_runtime: None,
        },
        PendingView::UnpersistedCreate { runtime } => QuestionView {
            operation: "CREATE"@,
            runtime: with_unpersisted_name(runtime),
            old_runtime: None,
        },
        PendingView::Create { runtime } => QuestionView {
            operation: "CREATE"@,
            runtime,
            old_runtime: None,
        },
        PendingView::Update { desired, current } => QuestionView {
            operation: "UPDATE"@,
            runtime: desired,
            old_runtime: Some(current),
        },
        PendingView::Delete { uid, current } => QuestionView {
            operation: "DELETE"@,
            runtime: current,
            old_runtime: Some(current),
        },
    }
}

/// The API behind a create that was let through.
pub open spec fn after_store(api: KubernetesView, runtime: RuntimeView) -> (
    KubernetesView,
    StepView,
) {
    if api.runtime is Some {
        (api, status(409, "AlreadyExists"@))
    } else {
        let stored = as_created(runtime);
        (
            KubernetesView {
                runtime: Some(stored),
                created: api.created.push(stored),
                fail_first_create_response: false,
                ..api
            },
            if api.fail_first_create_response {
                status(500, "InternalError"@)
            } else {
                StepView::Done(ReplyView::Object { code: 201, runtime: stored })
            },
        )
    }
}

/// The API behind the question whether a runtime may be created.
pub open spec fn after_create_asked(api: KubernetesView, runtime: RuntimeView) -> (
    KubernetesView,
    StepView,
) {
    match api.admission {
        None => (api, StepView::Ask(PendingView::Create { runtime })),
        Some(harness) => (
            KubernetesView {
                admission: Some(
                    WebhookAdmissionHarness {
                        create_checks: one_more(harness.create_checks),
                        ..harness
                    },
                ),
                ..api
            },
            StepView::Ask(PendingView::Create { runtime }),
        ),
    }
}

/// The API behind a request to create the runtime in `body`; no `body` where the request held
/// none.
pub open spec fn after_create(api: KubernetesView, body: Option<RuntimeView>) -> (
    KubernetesView,
    StepView,
) {
    let counted = KubernetesView { create_calls: one_more(api.create_calls), ..api };
    if api.reject_create_with_unprocessable_entity {
        (
            KubernetesView { reject_create_with_unprocessable_entity: false, ..counted },
            status(422, "Invalid"@),
        )
    } else {
        match body {
            None => (counted, status(400, "BadRequest"@)),
            Some(runtime) => match api.admission {
                None => after_store(counted, runtime),
                Some(harness) => if harness.verify_boundaries {
                    (
                        KubernetesView {
                            admission: Some(
                                WebhookAdmissionHarness { verify_boundaries: false, ..harness },
                            ),
                            ..counted
                        },
                        StepView::Ask(PendingView::MutatedCreate { runtime }),
                    )
                } else {
                    after_create_asked(counted, runtime)
                },
            },
        }
    }
}

/// What the API answers to a read.
pub open spec fn read_reply(api: KubernetesView) -> ReplyView {
    match api.runtime {
        None => ReplyView::Status { code: 404, reason: "NotFound"@ },
        Some(runtime) => ReplyView::Object { code: 200, runtime },
    }
}

/// The resource version of the runtime that the API holds.
pub open spec fn held_version(api: KubernetesView) -> Option<Seq<char>> {
    match api.runtime {
        Some(runtime) => runtime.metadata.resource_version,
        None => None,
    }
}

/// The identity of the runtime that the API holds.
pub open spec fn held_uid(api: KubernetesView) -> Option<Seq<char>> {
    match api.runtime {
        Some(runtime) => runtime.metadata.uid,
        None => None,
    }
}

/// The API behind a replace that was let through; no `written_spec` where the spec could not be
/// written.
pub open spec fn after_exchange(
    api: KubernetesView,
    desired: RuntimeView,
    current: RuntimeView,
    written_spec: Option<Seq<u8>>,
) -> (KubernetesView, StepView) {
    if held_version(api) != current.metadata.resource_version {
        (api, status(409, "Conflict"@))
    } else {
        match written_spec {
            None => (api, status(500, "InternalError"@)),
            Some(written) => {
                let stored = as_replaced(desired, current, written);
                (
                    KubernetesView { runtime: Some(stored), ..api },
                    StepView::Done(ReplyView::Object { code: 200, runtime: stored }),
                )
            },
        }
    }
}

/// The API behind a request to replace its runtime by the one in `body`.
pub open spec fn after_replace(
    api: KubernetesView,
    body: Option<RuntimeView>,
    written_spec: Option<Seq<u8>>,
) -> (KubernetesView, StepView) {
    let counted = KubernetesView { replace_calls: one_more(api.replace_calls), ..api };
    match body {
        None => (counted, status(400, "BadRequest"@)),
        Some(desired) => match api.runtime {
            None => (counted, status(404, "NotFound"@)),
            Some(current) => if desired.metadata.resource_version
                != current.metadata.resource_version {
                (counted, status(409, "Conflict"@))
            } else {
                match api.admission {
                    None => after_exchange(counted, desired, current, written_spec),
                    Some(harness) => (
                        KubernetesView {
                            admission: Some(
                                WebhookAdmissionHarness {
                                    update_checks: one_more(harness.update_checks),
                                    ..harness
                                },
                            ),
                            ..counted
                        },
                        StepView::Ask(PendingView::Update { desired, current }),
                    ),
                }
            },
        },
    }
}

/// The identity that the body of a delete names as its precondition.
pub open spec fn precondition_uid(body: Seq<u8>) -> Option<Seq<char>> {
    match json_document(body) {
        Some(tree) => tree_text(inner_tree(tree, "preconditions"@, "uid"@)),
        None => None,
    }
}

/// The API behind a delete of the runtime `uid` that was let through.
pub open spec fn after_removal(api: KubernetesView, uid: Seq<char>) -> (KubernetesView, StepView) {
    let noted = KubernetesView { delete_preconditions: api.delete_preconditions.push(uid), ..api };
    if held_uid(api) != Some(uid) {
        (noted, status(409, "Conflict"@))
    } else {
        (
            KubernetesView {
                runtime: if api.replace_name_after_delete {
                    Some(as_impostor(api.runtime->Some_0))
                } else {
                    None
                },
                replace_name_after_delete: false,
                ..noted
            },
            status(200, "Success"@),
        )
    }
}

/// The API behind a request to delete its runtime; no `body` where it could not be read.
pub open spec fn after_delete(api: KubernetesView, body: Option<Seq<u8>>) -> (
    KubernetesView,
    StepView,
) {
    match body {
        None => (api, status(400, "BadRequest"@)),
        Some(bytes) => match precondition_uid(bytes) {
            None => (api, status(409, "Conflict"@)),
            Some(uid) => match (api.admission, api.runtime) {
                (Some(harness), Some(current)) => (
                    KubernetesView {
                        admission: Some(
                            WebhookAdmissionHarness {
                                delete_checks: one_more(harness.delete_checks),
                                ..harness
                            },
                        ),
                        ..api
                    },
                    StepView::Ask(PendingView::Delete { uid, current }),
                ),
                _ => after_removal(api, uid),
            },
        },
    }
}

/// The API behind a verdict of the webhook on what is pending; no `verdict` where the webhook
/// gave none.
pub open spec fn after_verdict(
    api: KubernetesView,
    pending: PendingView,
    verdict: Option<bool>,
    written_spec: Option<Seq<u8>>,
) -> (KubernetesView, StepView) {
    match pending {
        PendingView::MutatedCreate { runtime } => if verdict == Some(false) {
            (api, StepView::Ask(PendingView::UnpersistedCreate { runtime }))
        } else {
            (api, status(500, "MutatedRuntimeWasNotDenied"@))
        },
        PendingView::UnpersistedCreate { runtime } => if verdict == Some(false) {
            after_create_asked(api, runtime)
        } else {
            (api, status(500, "UnpersistedRuntimeWasNotDenied"@))
        },
        PendingView::Create { runtime } => if verdict == Some(true) {
            after_store(api, runtime)
        } else {
            (api, status(422, "AdmissionDenied"@))
        },
        PendingView::Update { desired, current } => if verdict == Some(true) {
            after_exchange(api, desired, current, written_spec)
        } else {
            (api, status(422, "AdmissionDenied"@))
        },
        PendingView::Delete { uid, current } => if verdict == Some(true) {
            after_removal(api, uid)
        } else {
            (api, status(422, "AdmissionDenied"@))
        },
    }
}

/// What a request carries: its body, the runtime that the body holds, if it holds one, and the
/// spec of that runtime as it is written.
pub struct RequestBody {
    pub bytes: Option<Vec<u8>>,
    pub runtime: Option<Runtime>,
    pub written_spec: Option<Vec<u8>>,
}

/// The API behind a request.
pub open spec fn after_request(
    api: KubernetesView,
    verb: Verb,
    path: Seq<char>,
    bytes: Option<Seq<u8>>,
    runtime: Option<RuntimeView>,
    written_spec: Option<Seq<u8>>,
) -> (KubernetesView, StepView) {
    match routed(verb, path) {
        Route::Create => after_create(api, runtime),
        Route::Read => (api, StepView::Done(read_reply(api))),
        Route::Replace => after_replace(api, runtime, written_spec),
        Route::Delete => after_delete(api, bytes),
        Route::Unknown => (api, status(404, "NotFound"@)),
    }
}

/// One more call.
fn next_count(count: usize) -> (next: usize)
    ensures
        next == one_more(count),
{
    if count == usize::MAX {
        0
    } else {
        count + 1
    }
}

/// A status reply.
fn done(code: u16, reason: &str) -> (step: Step)
    ensures
        step@ == status(code, reason@),
{
    Step::Done(Reply::Status { code, reason: reason.to_owned() })
}

/// Whether two optional texts are the same.
fn same_option(left: &Option<String>, right: &Option<String>) -> (same: bool)
    ensures
        same == (option_text(*left) == option_text(*right)),
{
    match (left, right) {
        (Some(a), Some(b)) => same_text(a.as_str(), b.as_str()),
        (None, None) => true,
        _ => false,
    }
}

/// The views of an optional body.
pub open spec fn option_bytes(bytes: Option<Vec<u8>>) -> Option<Seq<u8>> {
    match bytes {
        Some(inner) => Some(inner@),
        None => None,
    }
}

impl AmbiguousKubernetes {
    /// An API without a runtime, without a webhook and with no fault armed.
    pub fn new() -> (api: AmbiguousKubernetes)
        ensures
            api@ == (KubernetesView {
                runtime: None,
                created: Seq::empty(),
                create_calls: 0,
                replace_calls: 0,
                fail_first_create_response: false,
                reject_create_with_unprocessable_entity: false,
                delete_preconditions: Seq::empty(),
                replace_name_after_delete: false,
                admission: None,
            }),
    {
        AmbiguousKubernetes {
            runtime: None,
            created: Vec::new(),
            create_calls: 0,
            replace_calls: 0,
            fail_first_create_response: false,
            reject_create_with_unprocessable_entity: false,
            delete_preconditions: Vec::new(),
            replace_name_after_delete: false,
            admission: None,
        }
    }

    /// Stores a runtime whose creation was let through.
    fn store(&mut self, runtime: Runtime) -> (step: Step)
        ensures
            (final(self)@, step@) == after_store(old(self)@, runtime@),
    {
        if self.runtime.is_some() {
            return done(409, "AlreadyExists");
        }
        let mut stored = runtime;
        stored.metadata.uid = Some("runtime-uid-a".to_owned());
        stored.metadata.resource_version = Some("1".to_owned());
        stored.metadata.generation = Some(1);
        self.runtime = Some(stored.copy());
        self.created.push(stored.copy());
        assert(self@.created =~= old(self)@.created.push(stored@));
        if self.fail_first_create_response {
            self.fail_first_create_response = false;
            done(500, "InternalError")
        } else {
            Step::Done(Reply::Object { code: 201, runtime: stored })
        }
    }

    /// Asks whether a runtime may be created.
    fn ask_create(&mut self, runtime: Runtime) -> (step: Step)
        ensures
            (final(self)@, step@) == after_create_asked(old(self)@, runtime@),
    {
        if let Some(harness) = &self.admission {
            self.admission = Some(
                WebhookAdmissionHarness {
                    verify_boundaries: harness.verify_boundaries,
                    create_checks: next_count(harness.create_checks),
                    update_checks: harness.update_checks,
                    delete_checks: harness.delete_checks,
                },
            );
        }
        Step::Ask(Pending::Create { runtime })
    }

    /// Takes a request to create the runtime in `body`; no `body` where the request held none.
    pub fn create(&mut self, body: Option<Runtime>) -> (step: Step)
        ensures
            (final(self)@, step@) == after_create(old(self)@, option_runtime(body)),
    {
        self.create_calls = next_count(self.create_calls);
        if self.reject_create_with_unprocessable_entity {
            self.reject_create_with_unprocessable_entity = false;
            return done(422, "Invalid");
        }
        let runtime = match body {
            Some(runtime) => runtime,
            None => return done(400, "BadRequest"),
        };
        match &self.admission {
            None => self.store(runtime),
            Some(harness) => {
                if harness.verify_boundaries {
                    self.admission = Some(
                        WebhookAdmissionHarness {
                            verify_boundaries: false,
                            create_checks: harness.create_checks,
                            update_checks: harness.update_checks,
                            delete_checks: harness.delete_checks,
                        },
                    );
                    Step::Ask(Pending::MutatedCreate { runtime })
                } else {
                    self.ask_create(runtime)
                }
            },
        }
    }

    /// Answers a read.
    pub fn read(&self) -> (reply: Reply)
        ensures
            reply@ == read_reply(self@),
    {
        match &self.runtime {
            None => Reply::Status { code: 404, reason: "NotFound".to_owned() },
            Some(runtime) => Reply::Object { code: 200, runtime: runtime.copy() },
        }
    }

    /// Replaces the runtime where it is still the one that was current.
    fn exchange(&mut self, desired: Runtime, current: &Runtime, written_spec: Option<Vec<u8>>)
        -> (step: Step)
        ensures
            (final(self)@, step@) == after_exchange(
                old(self)@,
                desired@,
                current@,
                option_bytes(written_spec),
            ),
    {
        let unchanged = match &self.runtime {
            Some(held) => same_option(
                &held.metadata.resource_version,
                &current.metadata.resource_version,
            ),
            None => current.metadata.resource_version.is_none(),
        };
        if !unchanged {
            return done(409, "Conflict");
        }
        let written = match written_spec {
            Some(written) => written,
            None => return done(500, "InternalError"),
        };
        let mut stored = desired;
        stored.metadata.uid = crate::runtimes::copy_text(&current.metadata.uid);
        stored.metadata.resource_version = Some("2".to_owned());
        stored.metadata.generation = Some(2);
        stored.status = Some(
            RuntimeStatus {
                phase: "Running".to_owned(),
                observed_generation: 2,
                spec_digest: runtime_spec_digest(written.as_slice()),
                refs: RuntimeRefs {
                    workspace: Some("workspace-a".to_owned()),
                    sandbox: Some("sandbox-a".to_owned()),
                    litellm_key: None,
                },
                conditions: Vec::new(),
                spend: None,
            },
        );
        assert(stored@.status->Some_0.conditions =~= Seq::empty());
        self.runtime = Some(stored.copy());
        Step::Done(Reply::Object { code: 200, runtime: stored })
    }

    /// Takes a request to replace the runtime by the one in `body`, whose spec is written as
    /// `written_spec`.
    pub fn replace(&mut self, body: Option<Runtime>, written_spec: Option<Vec<u8>>) -> (step: Step)
        ensures
            (final(self)@, step@) == after_replace(
                old(self)@,
                option_runtime(body),
                option_bytes(written_spec),
            ),
    {
        self.replace_calls = next_count(self.replace_calls);
        let desired = match body {
            Some(runtime) => runtime,
            None => return done(400, "BadRequest"),
        };
        let current = match &self.runtime {
            Some(held) => held.copy(),
            None => return done(404, "NotFound"),
        };
        if !same_option(&desired.metadata.resource_version, &current.metadata.resource_version) {
            return done(409, "Conflict");
        }
        match &self.admission {
            None => self.exchange(desired, &current, written_spec),
            Some(harness) => {
                self.admission = Some(
                    WebhookAdmissionHarness {
                        verify_boundaries: harness.verify_boundaries,
                        create_checks: harness.create_checks,
                        update_checks: next_count(harness.update_checks),
                        delete_checks: harness.delete_checks,
                    },
                );
                Step::Ask(Pending::Update { desired, current })
            },
        }
    }

    /// Removes the runtime where it is the one that the request named.
    fn remove(&mut self, uid: String) -> (step: Step)
        ensures
            (final(self)@, step@) == after_removal(old(self)@, uid@),
    {
        self.delete_preconditions.push(uid.clone());
        assert(self@.delete_preconditions =~= old(self)@.delete_preconditions.push(uid@));
        match self.runtime.take() {
            None => done(409, "Conflict"),
            Some(held) => {
                let named = match &held.metadata.uid {
                    Some(held_uid) => same_text(held_uid.as_str(), uid.as_str()),
                    None => false,
                };
                if !named {
                    self.runtime = Some(held);
                    return done(409, "Conflict");
                }
                if self.replace_name_after_delete {
                    self.replace_name_after_delete = false;
                    let mut impostor = held;
                    impostor.metadata.uid = Some("runtime-uid-replacement".to_owned());
                    impostor.metadata.resource_version = Some("3".to_owned());
                    self.runtime = Some(impostor);
                }
                done(200, "Success")
            },
        }
    }

    /// Takes a request to delete the runtime; no `body` where it could not be read.
    pub fn delete(&mut self, body: Option<Vec<u8>>) -> (step: Step)
        ensures
            (final(self)@, step@) == after_delete(old(self)@, option_bytes(body)),
    {
        let bytes = match body {
            Some(bytes) => bytes,
            None => return done(400, "BadRequest"),
        };
        let uid = match named_uid(bytes.as_slice()) {
            Some(uid) => uid,
            None => return done(409, "Conflict"),
        };
        match (&self.admission, &self.runtime) {
            (Some(harness), Some(held)) => {
                let current = held.copy();
                self.admission = Some(
                    WebhookAdmissionHarness {
                        verify_boundaries: harness.verify_boundaries,
                        create_checks: harness.create_checks,
                        update_checks: harness.update_checks,
                        delete_checks: next_count(harness.delete_checks),
                    },
                );
                Step::Ask(Pending::Delete { uid, current })
            },
            _ => self.remove(uid),
        }
    }

    /// Takes a request.
    pub fn kubernetes_request(&mut self, verb: Verb, path: &str, body: RequestBody) -> (step: Step)
        ensures
            (final(self)@, step@) == after_request(
                old(self)@,
                verb,
                path@,
                option_bytes(body.bytes),
                option_runtime(body.runtime),
                option_bytes(body.written_spec),
            ),
    {
        match route(verb, path) {
            Route::Create => self.create(body.runtime),
            Route::Read => Step::Done(self.read()),
            Route::Replace => self.replace(body.runtime, body.written_spec),
            Route::Delete => self.delete(body.bytes),
            Route::Unknown => done(404, "NotFound"),
        }
    }

    /// Goes on with what is pending, now that the webhook gave its verdict; no `verdict` where
    /// it gave none. `written_spec` is the spec of the runtime in the question as it is written.
    pub fn settle(
        &mut self,
        pending: Pending,
        verdict: Option<bool>,
        written_spec: Option<Vec<u8>>,
    ) -> (step: Step)
        ensures
            (final(self)@, step@) == after_verdict(
                old(self)@,
                pending@,
                verdict,
                option_bytes(written_spec),
            ),
    {
        let admitted = match verdict {
            Some(admitted) => admitted,
            None => false,
        };
        let denied = match verdict {
            Some(admitted) => !admitted,
            None => false,
        };
        match pending {
            Pending::MutatedCreate { runtime } => if denied {
                Step::Ask(Pending::UnpersistedCreate { runtime })
            } else {
                done(500, "MutatedRuntimeWasNotDenied")
            },
            Pending::UnpersistedCreate { runtime } => if denied {
                self.ask_create(runtime)
            } else {
                done(500, "UnpersistedRuntimeWasNotDenied")
            },
            Pending::Create { runtime } => if admitted {
                self.store(runtime)
            } else {
                done(422, "AdmissionDenied")
            },
            Pending::Update { desired, current } => if admitted {
                self.exchange(desired, &current, written_spec)
            } else {
                done(422, "AdmissionDenied")
            },
            Pending::Delete { uid, current } => if admitted {
                self.remove(uid)
            } else {
                done(422, "AdmissionDenied")
            },
        }
    }
}

/// The identity that the body of a delete names as its precondition.
pub fn named_uid(body: &[u8]) -> (uid: Option<String>)
    ensures
        option_text(uid) == precondition_uid(body@),
{
    match parse(body) {
        Err(_) => None,
        Ok(value) => match member(&value, "preconditions") {
            None => None,
            Some(preconditions) => match member(preconditions, "uid") {
                None => None,
                Some(uid) => match as_text(uid) {
                    Some(found) => Some(found.to_owned()),
                    None => None,
                },
            },
        },
    }
}

impl Pending {
    /// What the webhook is asked about this.
    pub fn question(&self) -> (question: Question)
        ensures
            question@ == question_of(self@),
    {
        match self {
            Pending::MutatedCreate { runtime } => {
                let mut mutated = runtime.copy();
                mutated.spec.budget.monthly_limit = "999".to_owned();
                assert(mutated@ == with_mutated_budget(runtime@));
                Question { operation: "CREATE", runtime: mutated, old_runtime: None }
            },
            Pending::UnpersistedCreate { runtime } => {
                let mut unpersisted = runtime.copy();
                unpersisted.metadata.name = Some("task-unpersisted".to_owned());
                Question { operation: "CREATE", runtime: unpersisted, old_runtime: None }
            },
            Pending::Create { runtime } => Question {
                operation: "CREATE",
                runtime: runtime.copy(),
                old_runtime: None,
            },
            Pending::Update { desired, current } => Question {
                operation: "UPDATE",
                runtime: desired.copy(),
                old_runtime: Some(current.copy()),
            },
            Pending::Delete { uid, current } => Question {
                operation: "DELETE",
                runtime: current.copy(),
                old_runtime: Some(current.copy()),
            },
        }
    }
}

/// The body of a status reply.
pub open spec fn status_tree(code: u16, reason: Seq<char>) -> JsonTree {
    JsonTree::Object(
        Map::empty().insert("apiVersion"@, JsonTree::Text("v1"@)).insert(
            "kind"@,
            JsonTree::Text("Status"@),
        ).insert(
            "status"@,
            JsonTree::Text(
                if 200 <= code <= 299 {
                    "Success"@
                } else {
                    "Failure"@
                },
            ),
        ).insert("message"@, JsonTree::Text(reason)).insert("reason"@, JsonTree::Text(reason)).insert(
            "code"@,
            number_tree(code as nat),
        ),
    )
}

/// The body of a status reply.
pub fn status_response(code: u16, reason: &str) -> (body: serde_json::Value)
    ensures
        json_tree(body) == status_tree(code, reason@),
{
    let mut body = object();
    put(&mut body, "apiVersion", text("v1"));
    put(&mut body, "kind", text("Status"));
    let word = if 200 <= code && code <= 299 {
        "Success"
    } else {
        "Failure"
    };
    put(&mut body, "status", text(word));
    put(&mut body, "message", text(reason));
    put(&mut body, "reason", text(reason));
    put(&mut body, "code", number(code as u64));
    body
}

/// Writes a document as it goes over the wire, without white space between its tokens.
pub fn written_document(document: &serde_json::Value) -> (bytes: Vec<u8>)
    ensures
        bytes@ == encode_utf8(json_text(json_tree(*document))),
{
    let written = render(document);
    written.as_str().as_bytes_vec()
}

/// What the webhook is asked in a review, or what keeps it from being asked.
pub open spec fn review_tree(
    operation: Seq<char>,
    name: Seq<char>,
    namespace: Seq<char>,
    object_tree: JsonTree,
    old_object_tree: JsonTree,
) -> JsonTree {
    let group = Map::<Seq<char>, JsonTree>::empty().insert(
        "group"@,
        JsonTree::Text("agents.apelogic.ai"@),
    ).insert("version"@, JsonTree::Text("v1alpha1"@));
    let user = Map::<Seq<char>, JsonTree>::empty().insert(
        "username"@,
        JsonTree::Text(CONTROLLER_USERNAME@),
    ).insert("groups"@, JsonTree::Array(seq![JsonTree::Text("system:serviceaccounts"@)]));
    let request = Map::<Seq<char>, JsonTree>::empty().insert(
        "uid"@,
        JsonTree::Text(operation + "-"@ + name),
    ).insert(
        "kind"@,
        JsonTree::Object(group.insert("kind"@, JsonTree::Text("AgentRuntime"@))),
    ).insert(
        "resource"@,
        JsonTree::Object(group.insert("resource"@, JsonTree::Text("agentruntimes"@))),
    ).insert("name"@, JsonTree::Text(name)).insert("namespace"@, JsonTree::Text(namespace)).insert(
        "operation"@,
        JsonTree::Text(operation),
    ).insert("userInfo"@, JsonTree::Object(user)).insert("object"@, object_tree).insert(
        "oldObject"@,
        old_object_tree,
    ).insert("dryRun"@, JsonTree::Bool(false)).insert("options"@, JsonTree::Null);
    JsonTree::Object(
        Map::empty().insert("apiVersion"@, JsonTree::Text("admission.k8s.io/v1"@)).insert(
            "kind"@,
            JsonTree::Text("AdmissionReview"@),
        ).insert("request"@, JsonTree::Object(request)),
    )
}

/// The review that asks the webhook about `runtime`, which is written as `written`; an earlier
/// state of it is written as `old_written`, which is null where there is none. A delete has no
/// object, and its old object is the runtime itself.
pub fn admission_review(
    operation: &str,
    runtime: &Runtime,
    written: &serde_json::Value,
    old_written: &serde_json::Value,
) -> (review: Result<serde_json::Value, String>)
    ensures
        match (runtime@.metadata.name, runtime@.metadata.namespace) {
            (None, _) => review matches Err(words) && words@ == "admission runtime name is absent"@,
            (Some(_), None) => review matches Err(words) && words@
                == "admission runtime namespace is absent"@,
            (Some(name), Some(namespace)) => review matches Ok(value) && json_tree(value)
                == review_tree(
                operation@,
                name,
                namespace,
                if operation@ == "DELETE"@ {
                    JsonTree::Null
                } else {
                    json_tree(*written)
                },
                if operation@ == "DELETE"@ {
                    json_tree(*written)
                } else {
                    json_tree(*old_written)
                },
            ),
        },
{
    let name = match &runtime.metadata.name {
        Some(name) => name,
        None => return Err("admission runtime name is absent".to_owned()),
    };
    let namespace = match &runtime.metadata.namespace {
        Some(namespace) => namespace,
        None => return Err("admission runtime namespace is absent".to_owned()),
    };
    let deletes = same_text(operation, "DELETE");
    let new_object = if deletes {
        null()
    } else {
        copy(written)
    };
    let old_object = if deletes {
        copy(written)
    } else {
        copy(old_written)
    };
    let mut kind = object();
    put(&mut kind, "group", text("agents.apelogic.ai"));
    put(&mut kind, "version", text("v1alpha1"));
    put(&mut kind, "kind", text("AgentRuntime"));
    let mut resource = object();
    put(&mut resource, "group", text("agents.apelogic.ai"));
    put(&mut resource, "version", text("v1alpha1"));
    put(&mut resource, "resource", text("agentruntimes"));
    let groups: Vec<serde_json::Value> = vec![text("system:serviceaccounts")];
    assert(json_trees(groups@) =~= seq![JsonTree::Text("system:serviceaccounts"@)]);
    let mut user = object();
    put(&mut user, "username", text(CONTROLLER_USERNAME));
    put(&mut user, "groups", array(groups));
    let mut request = object();
    let uid = concat3(operation, "-", name.as_str());
    put(&mut request, "uid", text(uid.as_str()));
    put(&mut request, "kind", kind);
    put(&mut request, "resource", resource);
    put(&mut request, "name", text(name.as_str()));
    put(&mut request, "namespace", text(namespace.as_str()));
    put(&mut request, "operation", text(operation));
    put(&mut request, "userInfo", user);
    put(&mut request, "object", new_object);
    put(&mut request, "oldObject", old_object);
    put(&mut request, "dryRun", truth(false));
    put(&mut request, "options", null());
    let mut review = object();
    put(&mut review, "apiVersion", text("admission.k8s.io/v1"));
    put(&mut review, "kind", text("AdmissionReview"));
    put(&mut review, "request", request);
    Ok(review)
}

/// What the webhook decided in its written answer.
pub open spec fn written_verdict(answer: Seq<u8>) -> Result<bool, Seq<char>> {
    match json_document(answer) {
        None => Err(json_error_text(answer)),
        Some(tree) => match tree_bool(inner_tree(tree, "response"@, "allowed"@)) {
            Some(allowed) => Ok(allowed),
            None => Err("webhook response has no allowed decision"@),
        },
    }
}

/// Reads what the webhook decided from its written answer.
pub fn webhook_verdict(answer: &[u8]) -> (verdict: Result<bool, String>)
    ensures
        match verdict {
            Ok(allowed) => written_verdict(answer@) == Ok::<bool, Seq<char>>(allowed),
            Err(words) => written_verdict(answer@) == Err::<bool, Seq<char>>(words@),
        },
{
    let value = match parse(answer) {
        Ok(value) => value,
        Err(words) => return Err(words),
    };
    let allowed = match member(&value, "response") {
        Some(response) => match member(response, "allowed") {
            Some(allowed) => as_truth(allowed),
            None => None,
        },
        None => None,
    };
    match allowed {
        Some(allowed) => Ok(allowed),
        None => Err("webhook response has no allowed decision".to_owned()),
    }
}

/// The reply has a failure for its code.
pub open spec fn refuses(step: StepView) -> bool {
    step matches StepView::Done(ReplyView::Status { code, .. }) && code >= 400
}

/// A create never takes the place of a runtime that the API holds: neither the request nor any
/// verdict on it changes that runtime.
pub proof fn law_create_never_overwrites(
    api: KubernetesView,
    body: Option<RuntimeView>,
    pending: PendingView,
    verdict: Option<bool>,
    written_spec: Option<Seq<u8>>,
)
    requires
        api.runtime is Some,
        pending is MutatedCreate || pending is UnpersistedCreate || pending is Create,
    ensures
        after_create(api, body).0.runtime == api.runtime,
        after_create(api, body).0.created == api.created,
        after_verdict(api, pending, verdict, written_spec).0.runtime == api.runtime,
        after_verdict(api, pending, verdict, written_spec).0.created == api.created,
{
}

/// A create whose reply is lost has stored the runtime all the same: the same request made again
/// is a conflict, and a read gives the runtime.
pub proof fn law_lost_create_reply_is_found_by_reading(
    api: KubernetesView,
    runtime: RuntimeView,
    again: RuntimeView,
)
    requires
        api.runtime is None,
        api.admission is None,
        api.fail_first_create_response,
        !api.reject_create_with_unprocessable_entity,
    ensures
        ({
            let (stored, lost) = after_create(api, Some(runtime));
            &&& lost == status(500, "InternalError"@)
            &&& read_reply(stored) == (ReplyView::Object {
                code: 200,
                runtime: as_created(runtime),
            })
            &&& after_create(stored, Some(again)).1 == status(409, "AlreadyExists"@)
            &&& after_create(stored, Some(again)).0.runtime == stored.runtime
        }),
{
}

/// What clients that compete for one runtime bring about: a request to create it, or a verdict on
/// such a request.
pub ghost enum CreateEvent {
    Requested { body: Option<RuntimeView> },
    Judged { pending: PendingView, verdict: Option<bool> },
}

/// The event is about a create.
pub open spec fn is_of_a_create(event: CreateEvent) -> bool {
    match event {
        CreateEvent::Requested { .. } => true,
        CreateEvent::Judged { pending, .. } => pending is MutatedCreate || pending
            is UnpersistedCreate || pending is Create,
    }
}

/// The API behind one event.
pub open spec fn after_event(api: KubernetesView, event: CreateEvent) -> KubernetesView {
    match event {
        CreateEvent::Requested { body } => after_create(api, body).0,
        CreateEvent::Judged { pending, verdict } => after_verdict(api, pending, verdict, None).0,
    }
}

/// The API behind events, one after the other.
pub open spec fn after_events(api: KubernetesView, events: Seq<CreateEvent>) -> KubernetesView
    decreases events.len(),
{
    if events.len() == 0 {
        api
    } else {
        after_event(after_events(api, events.drop_last()), events.last())
    }
}

/// However many clients compete to create a runtime, and whatever replies are lost, they converge
/// on one: creates and the verdicts on them store at most one runtime, the first one that is let
/// through, and it stays.
pub proof fn law_creates_converge_on_one_runtime(
    api: KubernetesView,
    events: Seq<CreateEvent>,
    count: int,
)
    requires
        forall|i: int| 0 <= i < events.len() ==> is_of_a_create(#[trigger] events[i]),
        0 <= count <= events.len(),
    ensures
        ({
            let before = after_events(api, events.take(count));
            let after = after_events(api, events);
            &&& before.runtime is Some ==> after.runtime == before.runtime && after.created
                == before.created
            &&& api.runtime is None ==> after.created == api.created || after.created
                == api.created.push(after.runtime->Some_0) && after.runtime is Some
        }),
    decreases events.len(),
{
    if events.len() == 0 {
        assert(events.take(count) =~= events);
    } else {
        let earlier = events.drop_last();
        assert forall|i: int| 0 <= i < earlier.len() implies is_of_a_create(
            #[trigger] earlier[i],
        ) by {
            assert(earlier[i] == events[i]);
        }
        if count < events.len() {
            assert(earlier.take(count) =~= events.take(count));
            law_creates_converge_on_one_runtime(api, earlier, count);
        } else {
            assert(events.take(count) =~= events);
            law_creates_converge_on_one_runtime(api, earlier, count - 1);
        }
        assert(is_of_a_create(events[events.len() - 1]));
    }
}

/// A read gives what a create that was answered with an object stored.
pub proof fn law_read_gives_what_was_created(api: KubernetesView, body: Option<RuntimeView>)
    requires
        after_create(api, body).1 is Done,
        after_create(api, body).1->Done_0 is Object,
    ensures
        read_reply(after_create(api, body).0) == (ReplyView::Object {
            code: 200,
            runtime: as_created(body->Some_0),
        }),
        after_create(api, body).0.created == api.created.push(as_created(body->Some_0)),
{
}

/// A replace keeps the identity of the runtime, whatever identity the request claims.
pub proof fn law_replace_keeps_the_identity(
    api: KubernetesView,
    desired: RuntimeView,
    current: RuntimeView,
    written_spec: Option<Seq<u8>>,
)
    requires
        api.runtime == Some(current),
    ensures
        held_uid(after_replace(api, Some(desired), written_spec).0) == held_uid(api),
        held_uid(
            after_verdict(
                api,
                PendingView::Update { desired, current },
                Some(true),
                written_spec,
            ).0,
        ) == held_uid(api),
{
}

/// A replace that was made from another version than the one that the API holds is a conflict
/// and leaves the runtime as it is, also where the version changed while the webhook was asked.
pub proof fn law_stale_replace_changes_nothing(
    api: KubernetesView,
    held: RuntimeView,
    desired: RuntimeView,
    current: RuntimeView,
    written_spec: Option<Seq<u8>>,
)
    requires
        api.runtime == Some(held),
        desired.metadata.resource_version == current.metadata.resource_version,
        held.metadata.resource_version != current.metadata.resource_version,
    ensures
        after_replace(api, Some(desired), written_spec).1 == status(409, "Conflict"@),
        after_replace(api, Some(desired), written_spec).0.runtime == api.runtime,
        after_verdict(api, PendingView::Update { desired, current }, Some(true), written_spec) == (
            api,
            status(409, "Conflict"@),
        ),
{
}

/// A delete removes the runtime only under the identity that the request names: with another one
/// it is a conflict, and the runtime stays.
pub proof fn law_delete_spares_another_identity(
    api: KubernetesView,
    uid: Seq<char>,
    current: RuntimeView,
    written_spec: Option<Seq<u8>>,
)
    requires
        held_uid(api) != Some(uid),
    ensures
        after_removal(api, uid).1 == status(409, "Conflict"@),
        after_removal(api, uid).0.runtime == api.runtime,
        after_verdict(api, PendingView::Delete { uid, current }, Some(true), written_spec)
            == after_removal(api, uid),
{
}

/// A delete that was carried out leaves no runtime of the deleted identity: either none, or
/// another one under the same name, which a second delete of the old identity spares.
pub proof fn law_delete_is_of_one_identity(api: KubernetesView, uid: Seq<char>)
    requires
        held_uid(api) == Some(uid),
        uid != "runtime-uid-replacement"@,
    ensures
        ({
            let (deleted, step) = after_removal(api, uid);
            &&& step == status(200, "Success"@)
            &&& held_uid(deleted) != Some(uid)
            &&& deleted.runtime is Some ==> api.replace_name_after_delete
                && deleted.runtime->Some_0.metadata.name == api.runtime->Some_0.metadata.name
            &&& after_removal(deleted, uid).1 == status(409, "Conflict"@)
            &&& after_removal(deleted, uid).0.runtime == deleted.runtime
        }),
{
}

/// Without the consent of the webhook nothing changes but what it was asked: the runtime stays as
/// it is, and nothing is recorded as created or deleted.
pub proof fn law_denied_requests_change_no_runtime(
    api: KubernetesView,
    pending: PendingView,
    verdict: Option<bool>,
    written_spec: Option<Seq<u8>>,
)
    requires
        verdict != Some(true),
    ensures
        after_verdict(api, pending, verdict, written_spec).0.runtime == api.runtime,
        after_verdict(api, pending, verdict, written_spec).0.created == api.created,
        after_verdict(api, pending, verdict, written_spec).0.delete_preconditions
            == api.delete_preconditions,
        !(pending is MutatedCreate || pending is UnpersistedCreate) ==> after_verdict(
            api,
            pending,
            verdict,
            written_spec,
        ) == (api, status(422, "AdmissionDenied"@)),
{
}

/// With a webhook, no request changes the runtime before the webhook was asked about it.
pub proof fn law_webhook_comes_first(
    api: KubernetesView,
    verb: Verb,
    path: Seq<char>,
    bytes: Option<Seq<u8>>,
    runtime: Option<RuntimeView>,
    written_spec: Option<Seq<u8>>,
)
    requires
        api.admission is Some,
    ensures
        after_request(api, verb, path, bytes, runtime, written_spec).0.runtime == api.runtime,
        after_request(api, verb, path, bytes, runtime, written_spec).0.created == api.created,
{
}

/// A request that is refused leaves the runtime as it is, unless it is a create whose reply is
/// lost.
pub proof fn law_refused_requests_change_no_runtime(
    api: KubernetesView,
    verb: Verb,
    path: Seq<char>,
    bytes: Option<Seq<u8>>,
    runtime: Option<RuntimeView>,
    written_spec: Option<Seq<u8>>,
)
    requires
        refuses(after_request(api, verb, path, bytes, runtime, written_spec).1),
        !api.fail_first_create_response,
    ensures
        after_request(api, verb, path, bytes, runtime, written_spec).0.runtime == api.runtime,
{
}

/// A fault that was armed for one request is spent by that request.
pub proof fn law_faults_are_spent_once(
    api: KubernetesView,
    first: Option<RuntimeView>,
    second: Option<RuntimeView>,
)
    requires
        api.reject_create_with_unprocessable_entity,
    ensures
        after_create(api, first).1 == status(422, "Invalid"@),
        after_create(api, first).0.runtime == api.runtime,
        !after_create(api, first).0.reject_create_with_unprocessable_entity,
        after_create(after_create(api, first).0, second).1 != status(422, "Invalid"@),
{
}

/// The runtime, where there is one, has an identity and a version.
pub open spec fn identified(runtime: RuntimeView) -> bool {
    runtime.metadata.uid is Some && runtime.metadata.resource_version is Some
}

/// The runtime that the API holds has an identity and a version.
pub open spec fn well_formed(api: KubernetesView) -> bool {
    api.runtime is Some ==> identified(api.runtime->Some_0)
}

/// What is pending was handed out by a well-formed API.
pub open spec fn well_formed_step(step: StepView) -> bool {
    match step {
        StepView::Ask(PendingView::Update { desired, current }) => identified(current),
        StepView::Ask(PendingView::Delete { uid, current }) => identified(current),
        _ => true,
    }
}

/// Whatever is asked of the API, the runtime that it holds has an identity and a version.
pub proof fn law_every_state_is_well_formed(
    api: KubernetesView,
    verb: Verb,
    path: Seq<char>,
    bytes: Option<Seq<u8>>,
    runtime: Option<RuntimeView>,
    written_spec: Option<Seq<u8>>,
    pending: PendingView,
    verdict: Option<bool>,
)
    requires
        well_formed(api),
        well_formed_step(StepView::Ask(pending)),
    ensures
        ({
            let (requested, step) = after_request(api, verb, path, bytes, runtime, written_spec);
            well_formed(requested) && well_formed_step(step)
        }),
        ({
            let (settled, step) = after_verdict(api, pending, verdict, written_spec);
            well_formed(settled) && well_formed_step(step)
        }),
{
}

/// A reply tells the runtime that the API holds, and a read tells the same one.
pub open spec fn tells_what_is_held(api: KubernetesView, step: StepView, code: u16) -> bool {
    &&& step matches StepView::Done(ReplyView::Object { code: told, runtime })
    &&& told == code
    &&& api.runtime == Some(runtime)
    &&& read_reply(api) == (ReplyView::Object { code: 200, runtime })
}

/// A replace that is answered with an object stores what was asked for, with a webhook or without:
/// the runtime that is held afterwards, which is the one in the reply and the one that a read gives,
/// has the spec, the name, the namespace and the rest of the request's body. The API sets the
/// identity, which stays, the version, the generation and the status alone.
pub proof fn law_replace_stores_what_was_asked_for(
    api: KubernetesView,
    desired: RuntimeView,
    current: RuntimeView,
    written: Option<Seq<u8>>,
)
    requires
        api.runtime == Some(current),
    ensures
        ({
            let direct = after_replace(api, Some(desired), written);
            let judged = after_verdict(
                api,
                PendingView::Update { desired, current },
                Some(true),
                written,
            );
            let matching = desired.metadata.resource_version == current.metadata.resource_version;
            &&& direct.1 is Done && direct.1->Done_0 is Object <==> matching && api.admission
                is None && written is Some
            &&& judged.1 is Done && judged.1->Done_0 is Object <==> written is Some
            &&& direct.1 is Done && direct.1->Done_0 is Object ==> tells_what_is_held(
                direct.0,
                direct.1,
                200,
            ) && is_replacement(direct.0.runtime->Some_0, desired, current, written->Some_0)
            &&& judged.1 is Done && judged.1->Done_0 is Object ==> tells_what_is_held(
                judged.0,
                judged.1,
                200,
            ) && is_replacement(judged.0.runtime->Some_0, desired, current, written->Some_0)
            &&& judged.0.created == api.created && direct.0.created == api.created
        }),
{
}

/// The runtime is the desired one in the place of the current one.
pub open spec fn is_replacement(
    runtime: RuntimeView,
    desired: RuntimeView,
    current: RuntimeView,
    written: Seq<u8>,
) -> bool {
    &&& runtime.spec == desired.spec
    &&& runtime.rest == desired.rest
    &&& runtime.metadata.name == desired.metadata.name
    &&& runtime.metadata.namespace == desired.metadata.namespace
    &&& runtime.metadata.uid == current.metadata.uid
    &&& runtime.metadata.resource_version == Some("2"@)
    &&& runtime.metadata.generation == Some(2i64)
    &&& runtime.status matches Some(status)
    &&& status.phase == "Running"@
    &&& Some(status.observed_generation) == runtime.metadata.generation
    &&& status.spec_digest == hex_digits(sha256(written))
    &&& status.refs.workspace == Some("workspace-a"@)
    &&& status.refs.sandbox == Some("sandbox-a"@)
    &&& status.refs.litellm_key is None
    &&& status.conditions.len() == 0
    &&& status.spend is None
}

/// A create that is let through stores what was asked for: the runtime that is held afterwards has
/// the spec, the status, the name, the namespace and the rest of the request's body, under an
/// identity, a version and a generation of the API. It is the one that is noted as created, the one
/// that a read gives and, unless the reply is lost, the one in the reply.
pub proof fn law_create_stores_what_was_asked_for(api: KubernetesView, runtime: RuntimeView)
    requires
        api.runtime is None,
        !api.reject_create_with_unprocessable_entity,
    ensures
        ({
            let (direct, step) = after_create(api, Some(runtime));
            let (judged, answer) = after_verdict(
                api,
                PendingView::Create { runtime },
                Some(true),
                None,
            );
            &&& api.admission is None ==> is_creation(direct, api, runtime) && (
            if api.fail_first_create_response {
                step == StepView::Done(
                    ReplyView::Status { code: 500, reason: "InternalError"@ },
                )
            } else {
                tells_what_is_held(direct, step, 201)
            })
            &&& is_creation(judged, api, runtime)
            &&& if api.fail_first_create_response {
                answer == StepView::Done(
                    ReplyView::Status { code: 500, reason: "InternalError"@ },
                )
            } else {
                tells_what_is_held(judged, answer, 201)
            }
        }),
{
}

/// The API holds the runtime that was asked for, as a new one.
pub open spec fn is_creation(
    after: KubernetesView,
    before: KubernetesView,
    runtime: RuntimeView,
) -> bool {
    &&& after.runtime matches Some(held)
    &&& held.spec == runtime.spec
    &&& held.rest == runtime.rest
    &&& held.status == runtime.status
    &&& held.metadata.name == runtime.metadata.name
    &&& held.metadata.namespace == runtime.metadata.namespace
    &&& held.metadata.uid == Some("runtime-uid-a"@)
    &&& held.metadata.resource_version == Some("1"@)
    &&& held.metadata.generation == Some(1i64)
    &&& after.created == before.created.push(held)
    &&& !after.fail_first_create_response
    &&& after.delete_preconditions == before.delete_preconditions
}

/// What is judged is what is stored: where a verdict stores a runtime, the webhook was asked about
/// a runtime with the same spec, name, namespace and rest, and it was asked to admit it.
pub proof fn law_what_is_judged_is_what_is_stored(
    api: KubernetesView,
    pending: PendingView,
    verdict: Option<bool>,
    written: Option<Seq<u8>>,
)
    requires
        pending !is Delete,
        after_verdict(api, pending, verdict, written).0.runtime != api.runtime,
    ensures
        ({
            let asked = question_of(pending);
            let after = after_verdict(api, pending, verdict, written).0;
            &&& verdict == Some(true)
            &&& after.runtime matches Some(stored)
            &&& stored.spec == asked.runtime.spec
            &&& stored.rest == asked.runtime.rest
            &&& stored.metadata.name == asked.runtime.metadata.name
            &&& stored.metadata.namespace == asked.runtime.metadata.namespace
        }),
{
}

/// What the webhook is asked follows from the request: a create puts the runtime of the body before
/// it, an update the runtime of the body beside the one that is held, and a delete the one that is
/// held. The operation is named as it is.
pub proof fn law_questions_are_about_the_request(
    api: KubernetesView,
    body: RuntimeView,
    bytes: Seq<u8>,
    written: Option<Seq<u8>>,
)
    ensures
        match after_create(api, Some(body)).1 {
            StepView::Ask(pending) => {
                let asked = question_of(pending);
                &&& asked.operation == "CREATE"@
                &&& asked.old_runtime is None
                &&& pending is Create ==> asked.runtime == body
                &&& pending is Create || pending is MutatedCreate
            },
            StepView::Done(_) => api.admission is None || api.reject_create_with_unprocessable_entity,
        },
        match after_replace(api, Some(body), written).1 {
            StepView::Ask(pending) => {
                let asked = question_of(pending);
                &&& asked.operation == "UPDATE"@
                &&& asked.runtime == body
                &&& asked.old_runtime is Some
                &&& asked.old_runtime == api.runtime
                &&& body.metadata.resource_version
                    == api.runtime->Some_0.metadata.resource_version
            },
            StepView::Done(_) => api.admission is None || api.runtime is None
                || body.metadata.resource_version
                != api.runtime->Some_0.metadata.resource_version,
        },
        match after_delete(api, Some(bytes)).1 {
            StepView::Ask(pending) => {
                let asked = question_of(pending);
                &&& asked.operation == "DELETE"@
                &&& Some(asked.runtime) == api.runtime
                &&& asked.old_runtime == api.runtime
            },
            StepView::Done(_) => api.admission is None || api.runtime is None || precondition_uid(
                bytes,
            ) is None,
        },
{
}

/// Before a first create is judged, the webhook has to deny two runtimes that differ from it in one
/// place each: one that may spend more than was granted, and one under a name that no Task has.
/// Where it denies both, it is asked about the very runtime of the request; where it does not deny
/// one of them, nothing is stored and the create fails.
pub proof fn law_boundaries_are_probed_before_a_create(
    api: KubernetesView,
    runtime: RuntimeView,
    verdict: Option<bool>,
    written: Option<Seq<u8>>,
)
    ensures
        ({
            let mutated = question_of(PendingView::MutatedCreate { runtime });
            let unpersisted = question_of(PendingView::UnpersistedCreate { runtime });
            &&& mutated.operation == "CREATE"@ && mutated.old_runtime is None
            &&& mutated.runtime.spec.budget.monthly_limit == "999"@
            &&& mutated.runtime.spec.budget.single_run_limit == runtime.spec.budget.single_run_limit
            &&& mutated.runtime.spec.budget.currency == runtime.spec.budget.currency
            &&& mutated.runtime.spec.llms == runtime.spec.llms
            &&& mutated.runtime.spec.tools == runtime.spec.tools
            &&& mutated.runtime.spec.owner == runtime.spec.owner
            &&& mutated.runtime.spec.principal == runtime.spec.principal
            &&& mutated.runtime.spec.canonical_authority == runtime.spec.canonical_authority
            &&& mutated.runtime.spec.agent_type == runtime.spec.agent_type
            &&& mutated.runtime.spec.ttl == runtime.spec.ttl
            &&& mutated.runtime.spec.runner == runtime.spec.runner
            &&& mutated.runtime.spec.bindings == runtime.spec.bindings
            &&& mutated.runtime.metadata == runtime.metadata
            &&& mutated.runtime.rest == runtime.rest && mutated.runtime.status == runtime.status
            &&& unpersisted.operation == "CREATE"@ && unpersisted.old_runtime is None
            &&& unpersisted.runtime.metadata.name == Some("task-unpersisted"@)
            &&& unpersisted.runtime.metadata.namespace == runtime.metadata.namespace
            &&& unpersisted.runtime.spec == runtime.spec
            &&& unpersisted.runtime.rest == runtime.rest
        }),
        ({
            let (after, step) = after_verdict(
                api,
                PendingView::MutatedCreate { runtime },
                verdict,
                written,
            );
            &&& after == api
            &&& step == (if verdict == Some(false) {
                StepView::Ask(PendingView::UnpersistedCreate { runtime })
            } else {
                StepView::Done(
                    ReplyView::Status { code: 500, reason: "MutatedRuntimeWasNotDenied"@ },
                )
            })
        }),
        ({
            let (after, step) = after_verdict(
                api,
                PendingView::UnpersistedCreate { runtime },
                verdict,
                written,
            );
            &&& after.runtime == api.runtime && after.created == api.created
            &&& step == (if verdict == Some(false) {
                StepView::Ask(PendingView::Create { runtime })
            } else {
                StepView::Done(
                    ReplyView::Status { code: 500, reason: "UnpersistedRuntimeWasNotDenied"@ },
                )
            })
        }),
        ({
            let (after, step) = after_create(api, Some(runtime));
            (api.admission matches Some(harness) && harness.verify_boundaries
                && !api.reject_create_with_unprocessable_entity) ==> step == StepView::Ask(
                PendingView::MutatedCreate { runtime },
            ) && after.runtime == api.runtime && (after.admission matches Some(spent)
                && !spent.verify_boundaries)
        }),
{
}

/// What a delete leaves behind: no runtime, or, where that is armed, another one that has the name,
/// the spec, the status and the rest of the deleted one under another identity and version. The
/// identity that a delete names is noted, whether it is the one that is held or not.
pub proof fn law_deletes_leave_nothing_or_another_identity(
    api: KubernetesView,
    uid: Seq<char>,
    current: RuntimeView,
    written: Option<Seq<u8>>,
)
    requires
        api.runtime matches Some(held) && held.metadata.uid == Some(uid),
    ensures
        ({
            let (after, step) = after_verdict(
                api,
                PendingView::Delete { uid, current },
                Some(true),
                written,
            );
            let held = api.runtime->Some_0;
            &&& step == StepView::Done(ReplyView::Status { code: 200, reason: "Success"@ })
            &&& after.delete_preconditions == api.delete_preconditions.push(uid)
            &&& after.created == api.created
            &&& !after.replace_name_after_delete
            &&& !api.replace_name_after_delete ==> after.runtime is None && read_reply(after)
                == (ReplyView::Status { code: 404, reason: "NotFound"@ })
            &&& api.replace_name_after_delete ==> {
                &&& after.runtime matches Some(other)
                &&& other.metadata.uid == Some("runtime-uid-replacement"@)
                &&& other.metadata.resource_version == Some("3"@)
                &&& other.metadata.generation == held.metadata.generation
                &&& other.metadata.name == held.metadata.name
                &&& other.metadata.namespace == held.metadata.namespace
                &&& other.spec == held.spec
                &&& other.status == held.status
                &&& other.rest == held.rest
            }
        }),
{
}

/// The identity that a delete names is the text `uid` in the object `preconditions` of its body,
/// and there is none where the body is not such a document.
pub proof fn law_deletes_name_their_precondition(body: Seq<u8>, uid: Seq<char>)
    ensures
        precondition_uid(body) == Some(uid) <==> (json_document(body) matches Some(
            JsonTree::Object(members),
        ) && members.dom().contains("preconditions"@) && (members["preconditions"@] matches
            JsonTree::Object(inner) && inner.dom().contains("uid"@) && inner["uid"@]
            == JsonTree::Text(uid))),
{
}

/// Without a webhook a delete is carried out at once, on the identity that its body names; without
/// a body, or without an identity in it, it changes nothing.
pub proof fn law_deletes_go_by_their_precondition(
    api: KubernetesView,
    bytes: Seq<u8>,
    uid: Seq<char>,
)
    ensures
        after_delete(api, None) == (
            api,
            StepView::Done(ReplyView::Status { code: 400, reason: "BadRequest"@ }),
        ),
        precondition_uid(bytes) is None ==> after_delete(api, Some(bytes)) == (
            api,
            StepView::Done(ReplyView::Status { code: 409, reason: "Conflict"@ }),
        ),
        precondition_uid(bytes) == Some(uid) && api.admission is None ==> {
            let (after, step) = after_delete(api, Some(bytes));
            let named = api.runtime matches Some(held) && held.metadata.uid == Some(uid);
            &&& after.delete_preconditions == api.delete_preconditions.push(uid)
            &&& named ==> step == StepView::Done(
                ReplyView::Status { code: 200, reason: "Success"@ },
            ) && (api.replace_name_after_delete || after.runtime is None)
            &&& !named ==> step == StepView::Done(
                ReplyView::Status { code: 409, reason: "Conflict"@ },
            ) && after.runtime == api.runtime
        },
{
}

/// Every request and every question is counted where it belongs, and nowhere else: a create among
/// the creates, a replace among the replaces, and each question among the checks of its kind.
pub proof fn law_requests_are_counted_where_they_belong(
    api: KubernetesView,
    body: Option<RuntimeView>,
    bytes: Option<Seq<u8>>,
    written: Option<Seq<u8>>,
)
    ensures
        ({
            let (after, step) = after_create(api, body);
            &&& api.create_calls < usize::MAX ==> after.create_calls == api.create_calls + 1
            &&& after.replace_calls == api.replace_calls
            &&& after.delete_preconditions == api.delete_preconditions
            &&& counts(api, after, if step is Ask && step->Ask_0 is Create {
                1int
            } else {
                0int
            }, 0, 0)
        }),
        ({
            let (after, step) = after_replace(api, body, written);
            &&& api.replace_calls < usize::MAX ==> after.replace_calls == api.replace_calls + 1
            &&& after.create_calls == api.create_calls
            &&& after.delete_preconditions == api.delete_preconditions
            &&& counts(api, after, 0, if step is Ask {
                1int
            } else {
                0int
            }, 0)
        }),
        ({
            let (after, step) = after_delete(api, bytes);
            &&& after.create_calls == api.create_calls
            &&& after.replace_calls == api.replace_calls
            &&& counts(api, after, 0, 0, if step is Ask {
                1int
            } else {
                0int
            })
        }),
{
}

/// The webhook was asked so many times more about creates, updates and deletes.
pub open spec fn counts(
    before: KubernetesView,
    after: KubernetesView,
    creates: int,
    updates: int,
    deletes: int,
) -> bool {
    match (before.admission, after.admission) {
        (Some(earlier), Some(later)) => {
            &&& earlier.create_checks < usize::MAX ==> later.create_checks == earlier.create_checks
                + creates
            &&& earlier.update_checks < usize::MAX ==> later.update_checks == earlier.update_checks
                + updates
            &&& earlier.delete_checks < usize::MAX ==> later.delete_checks == earlier.delete_checks
                + deletes
        },
        (None, None) => true,
        _ => false,
    }
}

/// A request goes by its method and by its path: the collection itself is created into, what
/// stands at or below it is read, replaced and deleted, and nothing else is known. What it is
/// answered is what this operation answers.
pub proof fn law_requests_go_by_method_and_path(
    api: KubernetesView,
    verb: Verb,
    path: Seq<char>,
    name: Seq<char>,
    bytes: Option<Seq<u8>>,
    runtime: Option<RuntimeView>,
    written: Option<Seq<u8>>,
)
    ensures
        ({
            let collection =
                "/apis/agents.apelogic.ai/v1alpha1/namespaces/steward-test/agentruntimes"@;
            let below = collection + name;
            &&& after_request(api, Verb::Post, collection, bytes, runtime, written) == after_create(
                api,
                runtime,
            )
            &&& after_request(api, Verb::Get, below, bytes, runtime, written) == (
                api,
                StepView::Done(read_reply(api)),
            )
            &&& after_request(api, Verb::Put, below, bytes, runtime, written) == after_replace(
                api,
                runtime,
                written,
            )
            &&& after_request(api, Verb::Delete, below, bytes, runtime, written) == after_delete(
                api,
                bytes,
            )
            &&& (verb == Verb::Post && path != collection) || verb == Verb::Other || !(path.len()
                >= collection.len() && path.take(collection.len() as int) == collection)
                ==> after_request(api, verb, path, bytes, runtime, written) == (
                api,
                StepView::Done(ReplyView::Status { code: 404, reason: "NotFound"@ }),
            )
        }),
{
    let collection = "/apis/agents.apelogic.ai/v1alpha1/namespaces/steward-test/agentruntimes"@;
    let below = collection + name;
    assert(below.subrange(0, collection.len() as int) =~= collection);
    if path.len() >= collection.len() {
        assert(path.take(collection.len() as int) =~= path.subrange(0, collection.len() as int));
    }
    if path == collection {
        assert(path.take(collection.len() as int) =~= path);
    }
}

/// A read gives the runtime that is held, and says that there is none where there is none; it
/// changes nothing.
pub proof fn law_reads_give_what_is_held(api: KubernetesView)
    ensures
        match api.runtime {
            Some(runtime) => read_reply(api) == (ReplyView::Object { code: 200, runtime }),
            None => read_reply(api) == (ReplyView::Status { code: 404, reason: "NotFound"@ }),
        },
{
}

/// A body that holds no runtime is refused by creates and replaces, and a replace of nothing finds
/// nothing; none of them changes the runtime.
pub proof fn law_unreadable_bodies_are_refused(
    api: KubernetesView,
    desired: RuntimeView,
    written: Option<Seq<u8>>,
)
    ensures
        !api.reject_create_with_unprocessable_entity ==> after_create(api, None).1
            == StepView::Done(ReplyView::Status { code: 400, reason: "BadRequest"@ }),
        after_create(api, None).0.runtime == api.runtime,
        after_replace(api, None, written).1 == StepView::Done(
            ReplyView::Status { code: 400, reason: "BadRequest"@ },
        ),
        after_replace(api, None, written).0.runtime == api.runtime,
        api.runtime is None ==> after_replace(api, Some(desired), written).1 == StepView::Done(
            ReplyView::Status { code: 404, reason: "NotFound"@ },
        ) && after_replace(api, Some(desired), written).0.runtime is None,
{
}

/// What the webhook decided is the truth value `allowed` in the object `response` of its answer.
pub proof fn law_verdicts_are_read_from_the_answer(answer: Seq<u8>, allowed: bool)
    ensures
        written_verdict(answer) == Ok::<bool, Seq<char>>(allowed) <==> (json_document(answer)
            matches Some(JsonTree::Object(members)) && members.dom().contains("response"@) && (
        members["response"@] matches JsonTree::Object(inner) && inner.dom().contains("allowed"@)
            && inner["allowed"@] == JsonTree::Bool(allowed))),
        json_document(answer) is None ==> written_verdict(answer) == Err::<bool, Seq<char>>(
            json_error_text(answer),
        ),
        json_document(answer) is Some && written_verdict(answer) is Err ==> written_verdict(answer)
            == Err::<bool, Seq<char>>("webhook response has no allowed decision"@),
{
}

/// A review names the runtime and the operation that it is about, in the words of the request, comes
/// from the controller, and shows what is judged beside what there was.
pub proof fn law_reviews_show_what_is_judged(
    operation: Seq<char>,
    name: Seq<char>,
    namespace: Seq<char>,
    object_tree: JsonTree,
    old_object_tree: JsonTree,
)
    ensures
        ({
            let review = review_tree(operation, name, namespace, object_tree, old_object_tree);
            &&& inner_tree(review, "request"@, "object"@) == Some(object_tree)
            &&& inner_tree(review, "request"@, "oldObject"@) == Some(old_object_tree)
            &&& inner_tree(review, "request"@, "name"@) == Some(JsonTree::Text(name))
            &&& inner_tree(review, "request"@, "namespace"@) == Some(JsonTree::Text(namespace))
            &&& inner_tree(review, "request"@, "operation"@) == Some(JsonTree::Text(operation))
            &&& inner_tree(review, "request"@, "uid"@) == Some(
                JsonTree::Text(operation + "-"@ + name),
            )
            &&& inner_tree(review, "request"@, "dryRun"@) == Some(JsonTree::Bool(false))
            &&& inner_tree(review, "request"@, "userInfo"@) matches Some(user)
            &&& member_tree(user, "username"@) == Some(
                JsonTree::Text("system:serviceaccount:steward-system:steward-controller"@),
            )
        }),
{
    reveal_strlit("request");
    reveal_strlit("apiVersion");
    assert("request"@.len() == 7 && "apiVersion"@.len() == 10);
    reveal_strlit("uid");
    reveal_strlit("kind");
    reveal_strlit("resource");
    reveal_strlit("name");
    reveal_strlit("namespace");
    reveal_strlit("operation");
    reveal_strlit("userInfo");
    reveal_strlit("object");
    reveal_strlit("oldObject");
    reveal_strlit("dryRun");
    reveal_strlit("options");
    reveal_strlit("username");
    reveal_strlit("groups");
    assert("uid"@.len() == 3 && "kind"@.len() == 4 && "resource"@.len() == 8 && "name"@.len() == 4
        && "namespace"@.len() == 9 && "operation"@.len() == 9 && "userInfo"@.len() == 8
        && "object"@.len() == 6 && "oldObject"@.len() == 9 && "dryRun"@.len() == 6
        && "options"@.len() == 7 && "username"@.len() == 8 && "groups"@.len() == 6);
    assert("kind"@[0] != "name"@[0]);
    assert("resource"@[0] != "userInfo"@[0]);
    assert("namespace"@[0] != "operation"@[0]);
    assert("namespace"@[0] != "oldObject"@[0]);
    assert("operation"@[1] != "oldObject"@[1]);
    assert("object"@[0] != "dryRun"@[0]);
}

/// A status says its code and its reason, and calls itself a success exactly where the code is one
/// of success.
pub proof fn law_statuses_say_their_code(code: u16, reason: Seq<char>)
    ensures
        member_tree(status_tree(code, reason), "code"@) == Some(number_tree(code as nat)),
        member_tree(status_tree(code, reason), "reason"@) == Some(JsonTree::Text(reason)),
        member_tree(status_tree(code, reason), "message"@) == Some(JsonTree::Text(reason)),
        member_tree(status_tree(code, reason), "kind"@) == Some(JsonTree::Text("Status"@)),
        member_tree(status_tree(code, reason), "status"@) == Some(
            JsonTree::Text(
                if code / 100 == 2 {
                    "Success"@
                } else {
                    "Failure"@
                },
            ),
        ),
{
    reveal_strlit("apiVersion");
    reveal_strlit("kind");
    reveal_strlit("status");
    reveal_strlit("message");
    reveal_strlit("reason");
    reveal_strlit("code");
    assert("apiVersion"@.len() == 10 && "kind"@.len() == 4 && "status"@.len() == 6
        && "message"@.len() == 7 && "reason"@.len() == 6 && "code"@.len() == 4);
    assert("kind"@[0] != "code"@[0]);
    assert("status"@[0] != "reason"@[0]);
}

} // verus!
