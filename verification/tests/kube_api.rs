use steward_harness::digest::runtime_spec_digest;
use steward_harness::kube_api::{
    admission_review, named_uid, route, status_response, webhook_verdict, written_document,
    AmbiguousKubernetes, Pending, Reply, RequestBody, Route, Step, Verb, WebhookAdmissionHarness, RUNTIME_PATH_PREFIX,
};
use steward_harness::runtimes::{
    Budget, CanonicalAuthority, ModelRef, Principal, RunnerRequirements, Runtime, RuntimeMetadata,
    RuntimeSpec, ToolGrant,
};

fn runtime(name: &str) -> Runtime {
    Runtime {
        metadata: RuntimeMetadata {
            name: Some(name.to_owned()),
            namespace: Some("steward-test".to_owned()),
            uid: None,
            resource_version: None,
            generation: None,
        },
        spec: RuntimeSpec {
            principal: Principal::Service {
                name: "runner".to_owned(),
                acting_user: Some("alice@example.com".to_owned()),
            },
            owner: "alice@example.com".to_owned(),
            canonical_authority: Some(CanonicalAuthority {
                schema_version: "v1".to_owned(),
                owner_user_id: "usr_a".to_owned(),
                acting_user_id: Some("usr_b".to_owned()),
            }),
            agent_type: "codex".to_owned(),
            llms: vec![ModelRef {
                provider: "litellm".to_owned(),
                model: "mock".to_owned(),
            }],
            tools: vec![ToolGrant {
                provider: "github".to_owned(),
                resource: "repo".to_owned(),
                action: "read".to_owned(),
            }],
            budget: Budget {
                monthly_limit: "10".to_owned(),
                single_run_limit: Some("1".to_owned()),
                currency: "USD".to_owned(),
            },
            ttl: "1h".to_owned(),
            runner: Some(RunnerRequirements {
                platforms: vec!["linux".to_owned()],
                architectures: vec!["amd64".to_owned()],
            }),
            bindings: Some(serde_json::Value::Bool(true)),
        },
        status: None,
        rest: serde_json::from_str(&format!("{{\"noted\":\"{name}\"}}")).unwrap(),
    }
}

fn code(step: &Step) -> u16 {
    match step {
        Step::Done(Reply::Status { code, .. }) => *code,
        Step::Done(Reply::Object { code, .. }) => *code,
        Step::Ask(_) => panic!("the webhook was asked"),
    }
}

fn reason(step: &Step) -> (u16, &str) {
    match step {
        Step::Done(Reply::Status { code, reason }) => (*code, reason.as_str()),
        _ => panic!("no status reply"),
    }
}

fn pending(step: Step) -> Pending {
    match step {
        Step::Ask(pending) => pending,
        Step::Done(_) => panic!("the webhook was not asked"),
    }
}

fn held_uid(api: &AmbiguousKubernetes) -> Option<&str> {
    api.runtime
        .as_ref()
        .and_then(|runtime| runtime.metadata.uid.as_deref())
}

fn webhook(verify_boundaries: bool) -> Option<WebhookAdmissionHarness> {
    Some(WebhookAdmissionHarness {
        verify_boundaries,
        create_checks: 0,
        update_checks: 0,
        delete_checks: 0,
    })
}

fn delete_body(uid: &str) -> Option<Vec<u8>> {
    Some(format!("{{\"preconditions\":{{\"uid\":\"{uid}\"}}}}").into_bytes())
}

fn no_body() -> RequestBody {
    RequestBody {
        bytes: Some(Vec::new()),
        runtime: None,
        written_spec: None,
    }
}

#[test]
fn requests_are_routed_by_method_and_path() {
    let named = format!("{RUNTIME_PATH_PREFIX}/task-a");
    assert!(matches!(route(Verb::Post, RUNTIME_PATH_PREFIX), Route::Create));
    assert!(matches!(route(Verb::Post, &named), Route::Unknown));
    assert!(matches!(route(Verb::Get, &named), Route::Read));
    assert!(matches!(route(Verb::Put, &named), Route::Replace));
    assert!(matches!(route(Verb::Delete, &named), Route::Delete));
    assert!(matches!(route(Verb::Other, &named), Route::Unknown));
    assert!(matches!(route(Verb::Get, "/healthz"), Route::Unknown));
    let mut api = AmbiguousKubernetes::new();
    let step = api.kubernetes_request(Verb::Get, "/healthz", no_body());
    assert_eq!(reason(&step), (404, "NotFound"));
}

#[test]
fn a_read_gives_what_was_created() {
    let mut api = AmbiguousKubernetes::new();
    assert!(matches!(api.read(), Reply::Status { code: 404, .. }));
    let step = api.create(Some(runtime("task-a")));
    assert_eq!(code(&step), 201);
    match api.read() {
        Reply::Object { code, runtime } => {
            assert_eq!(code, 200);
            assert_eq!(runtime.metadata.name.as_deref(), Some("task-a"));
            assert_eq!(runtime.metadata.uid.as_deref(), Some("runtime-uid-a"));
            assert_eq!(runtime.metadata.resource_version.as_deref(), Some("1"));
            assert_eq!(runtime.metadata.generation, Some(1));
            assert_eq!(runtime.spec.llms[0].model, "mock");
            assert_eq!(runtime.spec.tools[0].provider, "github");
            assert_eq!(runtime.rest["noted"], "task-a");
            assert!(runtime.status.is_none());
        }
        Reply::Status { .. } => panic!("the runtime was not stored"),
    }
    assert_eq!(api.created.len(), 1);
    assert_eq!(api.create_calls, 1);
}

#[test]
fn a_lost_reply_is_found_by_reading() {
    let mut api = AmbiguousKubernetes::new();
    api.fail_first_create_response = true;
    let step = api.create(Some(runtime("task-a")));
    assert_eq!(reason(&step), (500, "InternalError"));
    assert!(matches!(api.read(), Reply::Object { code: 200, .. }));
    let step = api.create(Some(runtime("task-b")));
    assert_eq!(reason(&step), (409, "AlreadyExists"));
    assert_eq!(held_uid(&api), Some("runtime-uid-a"));
    assert_eq!(
        api.runtime.as_ref().unwrap().metadata.name.as_deref(),
        Some("task-a")
    );
    assert_eq!((api.create_calls, api.created.len()), (2, 1));
}

#[test]
fn an_unprocessable_create_is_refused_once() {
    let mut api = AmbiguousKubernetes::new();
    api.reject_create_with_unprocessable_entity = true;
    let step = api.create(Some(runtime("task-a")));
    assert_eq!(reason(&step), (422, "Invalid"));
    assert!(api.runtime.is_none());
    let step = api.create(Some(runtime("task-a")));
    assert_eq!(code(&step), 201);
    let step = api.create(None);
    assert_eq!(reason(&step), (400, "BadRequest"));
}

#[test]
fn a_replace_keeps_the_identity_and_reports_the_spec() {
    let mut api = AmbiguousKubernetes::new();
    assert_eq!(reason(&api.replace(None, None)), (400, "BadRequest"));
    assert_eq!(
        reason(&api.replace(Some(runtime("task-a")), Some(Vec::new()))),
        (404, "NotFound")
    );
    api.create(Some(runtime("task-a")));
    let mut desired = runtime("task-a");
    desired.metadata.uid = Some("runtime-uid-forged".to_owned());
    desired.metadata.resource_version = Some("0".to_owned());
    assert_eq!(
        reason(&api.replace(Some(desired.copy()), Some(b"{}".to_vec()))),
        (409, "Conflict")
    );
    desired.metadata.resource_version = Some("1".to_owned());
    assert_eq!(
        reason(&api.replace(Some(desired.copy()), None)),
        (500, "InternalError")
    );
    let step = api.replace(Some(desired), Some(b"{}".to_vec()));
    match step {
        Step::Done(Reply::Object { code, runtime }) => {
            assert_eq!(code, 200);
            assert_eq!(runtime.metadata.uid.as_deref(), Some("runtime-uid-a"));
            assert_eq!(runtime.metadata.resource_version.as_deref(), Some("2"));
            assert_eq!(runtime.metadata.generation, Some(2));
            let status = runtime.status.unwrap();
            assert_eq!(status.phase, "Running");
            assert_eq!(status.observed_generation, 2);
            assert_eq!(status.spec_digest, runtime_spec_digest(b"{}"));
            assert_eq!(status.refs.workspace.as_deref(), Some("workspace-a"));
            assert_eq!(status.refs.sandbox.as_deref(), Some("sandbox-a"));
            assert_eq!(status.refs.litellm_key, None);
        }
        _ => panic!("the runtime was not replaced"),
    }
    assert_eq!(api.replace_calls, 5);
}

#[test]
fn a_delete_is_of_one_identity() {
    let mut api = AmbiguousKubernetes::new();
    api.create(Some(runtime("task-a")));
    assert_eq!(reason(&api.delete(None)), (400, "BadRequest"));
    assert_eq!(
        reason(&api.delete(Some(b"{\"kind\":\"DeleteOptions\"}".to_vec()))),
        (409, "Conflict")
    );
    assert_eq!(
        reason(&api.delete(delete_body("runtime-uid-b"))),
        (409, "Conflict")
    );
    assert_eq!(held_uid(&api), Some("runtime-uid-a"));
    api.replace_name_after_delete = true;
    assert_eq!(
        reason(&api.delete(delete_body("runtime-uid-a"))),
        (200, "Success")
    );
    assert_eq!(held_uid(&api), Some("runtime-uid-replacement"));
    assert_eq!(
        api.runtime.as_ref().unwrap().metadata.name.as_deref(),
        Some("task-a")
    );
    assert_eq!(
        reason(&api.delete(delete_body("runtime-uid-a"))),
        (409, "Conflict")
    );
    assert_eq!(held_uid(&api), Some("runtime-uid-replacement"));
    assert_eq!(
        reason(&api.delete(delete_body("runtime-uid-replacement"))),
        (200, "Success")
    );
    assert!(api.runtime.is_none());
    assert_eq!(
        reason(&api.delete(delete_body("runtime-uid-replacement"))),
        (409, "Conflict")
    );
    assert_eq!(
        api.delete_preconditions,
        vec![
            "runtime-uid-b",
            "runtime-uid-a",
            "runtime-uid-a",
            "runtime-uid-replacement",
            "runtime-uid-replacement"
        ]
    );
}

#[test]
fn the_boundaries_are_tried_before_the_first_create() {
    let mut api = AmbiguousKubernetes::new();
    api.admission = webhook(true);
    let mutated = pending(api.create(Some(runtime("task-a"))));
    let question = mutated.question();
    assert_eq!(question.operation, "CREATE");
    assert_eq!(question.runtime.spec.budget.monthly_limit, "999");
    assert!(question.old_runtime.is_none());
    let unpersisted = pending(api.settle(mutated, Some(false), None));
    let question = unpersisted.question();
    assert_eq!(
        question.runtime.metadata.name.as_deref(),
        Some("task-unpersisted")
    );
    assert_eq!(question.runtime.spec.budget.monthly_limit, "10");
    assert_eq!(api.admission.as_ref().unwrap().create_checks, 0);
    let create = pending(api.settle(unpersisted, Some(false), None));
    assert_eq!(
        create.question().runtime.metadata.name.as_deref(),
        Some("task-a")
    );
    assert_eq!(api.admission.as_ref().unwrap().create_checks, 1);
    assert!(api.runtime.is_none());
    let step = api.settle(create, Some(true), None);
    assert_eq!(code(&step), 201);
    assert_eq!(held_uid(&api), Some("runtime-uid-a"));
}

#[test]
fn competing_creates_store_the_first_that_is_let_through() {
    let mut api = AmbiguousKubernetes::new();
    api.admission = webhook(false);
    let first = pending(api.create(Some(runtime("task-a"))));
    let second = pending(api.create(Some(runtime("task-b"))));
    assert!(api.created.is_empty());
    let step = api.settle(second, Some(true), None);
    assert_eq!(code(&step), 201);
    let step = api.settle(first, Some(true), None);
    assert_eq!(reason(&step), (409, "AlreadyExists"));
    let third = pending(api.create(Some(runtime("task-c"))));
    let step = api.settle(third, Some(true), None);
    assert_eq!(reason(&step), (409, "AlreadyExists"));
    assert_eq!(api.created.len(), 1);
    let held = api.runtime.as_ref().unwrap();
    assert_eq!(held.metadata.name.as_deref(), Some("task-b"));
}

#[test]
fn a_boundary_that_lets_through_fails_the_create() {
    let mut api = AmbiguousKubernetes::new();
    api.admission = webhook(true);
    let mutated = pending(api.create(Some(runtime("task-a"))));
    let step = api.settle(mutated, Some(true), None);
    assert_eq!(reason(&step), (500, "MutatedRuntimeWasNotDenied"));
    api.admission = webhook(true);
    let mutated = pending(api.create(Some(runtime("task-a"))));
    let unpersisted = pending(api.settle(mutated, Some(false), None));
    let step = api.settle(unpersisted, None, None);
    assert_eq!(reason(&step), (500, "UnpersistedRuntimeWasNotDenied"));
    assert!(api.runtime.is_none());
}

#[test]
fn denied_requests_change_no_runtime() {
    let mut api = AmbiguousKubernetes::new();
    api.create(Some(runtime("task-a")));
    api.admission = webhook(false);
    let mut desired = runtime("task-a");
    desired.metadata.resource_version = Some("1".to_owned());
    let update = pending(api.replace(Some(desired), Some(b"{}".to_vec())));
    let question = update.question();
    assert_eq!(question.operation, "UPDATE");
    assert_eq!(
        question.old_runtime.unwrap().metadata.uid.as_deref(),
        Some("runtime-uid-a")
    );
    let step = api.settle(update, None, Some(b"{}".to_vec()));
    assert_eq!(reason(&step), (422, "AdmissionDenied"));
    let delete = pending(api.delete(delete_body("runtime-uid-a")));
    let question = delete.question();
    assert_eq!(question.operation, "DELETE");
    assert!(question.old_runtime.is_some());
    let step = api.settle(delete, Some(false), None);
    assert_eq!(reason(&step), (422, "AdmissionDenied"));
    assert_eq!(held_uid(&api), Some("runtime-uid-a"));
    assert!(api.delete_preconditions.is_empty());
    let admission = api.admission.as_ref().unwrap();
    assert_eq!(
        (
            admission.create_checks,
            admission.update_checks,
            admission.delete_checks
        ),
        (0, 1, 1)
    );
}

#[test]
fn a_replace_that_was_overtaken_is_a_conflict() {
    let mut api = AmbiguousKubernetes::new();
    api.create(Some(runtime("task-a")));
    api.admission = webhook(false);
    let mut desired = runtime("task-a");
    desired.metadata.resource_version = Some("1".to_owned());
    let first = pending(api.replace(Some(desired.copy()), Some(b"{}".to_vec())));
    let second = pending(api.replace(Some(desired), Some(b"{}".to_vec())));
    let step = api.settle(first, Some(true), Some(b"{}".to_vec()));
    assert_eq!(code(&step), 200);
    let step = api.settle(second, Some(true), Some(b"{}".to_vec()));
    assert_eq!(reason(&step), (409, "Conflict"));
    let delete = pending(api.delete(delete_body("runtime-uid-a")));
    let step = api.settle(delete, Some(true), None);
    assert_eq!(reason(&step), (200, "Success"));
    assert!(api.runtime.is_none());
}

#[test]
fn a_status_reply_is_written_with_its_reason() {
    assert_eq!(
        status_response(409, "Conflict").to_string(),
        "{\"apiVersion\":\"v1\",\"code\":409,\"kind\":\"Status\",\"message\":\"Conflict\",\
         \"reason\":\"Conflict\",\"status\":\"Failure\"}"
    );
    assert_eq!(
        written_document(&serde_json::from_str("{ \"b\": \"\u{e9}\", \"a\": [1, 2] }").unwrap()),
        "{\"a\":[1,2],\"b\":\"\u{e9}\"}".as_bytes()
    );
    assert_eq!(status_response(200, "Success")["status"], "Success");
    assert_eq!(status_response(299, "Success")["status"], "Success");
    assert_eq!(status_response(300, "Success")["status"], "Failure");
    assert_eq!(status_response(199, "Success")["status"], "Failure");
}

#[test]
fn the_precondition_of_a_delete_is_read() {
    assert_eq!(
        named_uid(b"{\"preconditions\":{\"uid\":\"a-b\"}}").as_deref(),
        Some("a-b")
    );
    assert!(named_uid(b"{\"preconditions\":{\"uid\":7}}").is_none());
    assert!(named_uid(b"{\"preconditions\":[\"uid\"]}").is_none());
    assert!(named_uid(b"{\"uid\":\"a-b\"}").is_none());
    assert!(named_uid(b"").is_none());
}

#[test]
fn a_review_names_what_is_reviewed() {
    let written: serde_json::Value = serde_json::from_str("{\"kind\":\"AgentRuntime\"}").unwrap();
    let none = serde_json::Value::Null;
    let asked = runtime("task-a");
    let review = admission_review("CREATE", &asked, &written, &none).unwrap();
    assert_eq!(
        review.to_string(),
        "{\"apiVersion\":\"admission.k8s.io/v1\",\"kind\":\"AdmissionReview\",\
         \"request\":{\"dryRun\":false,\"kind\":{\"group\":\"agents.apelogic.ai\",\
         \"kind\":\"AgentRuntime\",\"version\":\"v1alpha1\"},\"name\":\"task-a\",\
         \"namespace\":\"steward-test\",\"object\":{\"kind\":\"AgentRuntime\"},\
         \"oldObject\":null,\"operation\":\"CREATE\",\"options\":null,\
         \"resource\":{\"group\":\"agents.apelogic.ai\",\"resource\":\"agentruntimes\",\
         \"version\":\"v1alpha1\"},\"uid\":\"CREATE-task-a\",\
         \"userInfo\":{\"groups\":[\"system:serviceaccounts\"],\
         \"username\":\"system:serviceaccount:steward-system:steward-controller\"}}}"
    );
    let review = admission_review("DELETE", &asked, &written, &none).unwrap();
    assert!(review["request"]["object"].is_null());
    assert_eq!(review["request"]["oldObject"], written);
    let review = admission_review("UPDATE", &asked, &none, &written).unwrap();
    assert!(review["request"]["object"].is_null());
    assert_eq!(review["request"]["oldObject"], written);
    let mut nameless = runtime("task-a");
    nameless.metadata.name = None;
    assert_eq!(
        admission_review("CREATE", &nameless, &written, &none)
            .err()
            .unwrap(),
        "admission runtime name is absent"
    );
    let mut homeless = runtime("task-a");
    homeless.metadata.namespace = None;
    assert_eq!(
        admission_review("CREATE", &homeless, &written, &none)
            .err()
            .unwrap(),
        "admission runtime namespace is absent"
    );
}

#[test]
fn the_webhook_answers_with_a_decision() {
    assert_eq!(
        webhook_verdict(b"{\"response\":{\"allowed\":true}}"),
        Ok(true)
    );
    assert_eq!(
        webhook_verdict(b"{\"response\":{\"allowed\":false}}"),
        Ok(false)
    );
    assert_eq!(
        webhook_verdict(b"{\"response\":{\"allowed\":\"true\"}}"),
        Err("webhook response has no allowed decision".to_owned())
    );
    assert_eq!(
        webhook_verdict(b"{}"),
        Err("webhook response has no allowed decision".to_owned())
    );
    assert_eq!(
        webhook_verdict(b"{"),
        Err("EOF while parsing an object at line 1 column 1".to_owned())
    );
}
