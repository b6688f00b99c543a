use steward_harness::probe::{HttpResponse, ProcessOutput};
use steward_harness::runtimes::{
    Budget, Principal, Runtime, RuntimeMetadata, RuntimeRefs, RuntimeSpec, RuntimeStatus, ToolGrant,
};
use steward_harness::task_api::{
    approve, approve_arguments, assert_controller_runtime_tool_ready, assert_resolution_emitted,
    delete_task, delete_task_arguments, execute, execute_arguments,
    get_output, get_output_arguments, is_running_runtime, json_string, provider_grant_diagnostic,
    provider_is_attached, provider_list_arguments, put_archive, put_archive_arguments, reaches,
    replace_runtime_arguments, replace_runtime_for_stale_uid_test, resolutions_arguments,
    runtime_by_uid, submit_arguments, submit_file, submit_response,
    task_status, task_status_arguments, token_grant_arguments, tool_probe_arguments, tool_refusal, tool_sandbox_of,
    Goal, PhaseWatch, RuntimeLook, RuntimeWait, TaskLook, TaskWait, ToolProbe,
};

fn value(text: &str) -> serde_json::Value {
    serde_json::from_str(text).unwrap()
}

fn runtime(uid: Option<&str>, phase: &str, workspace: Option<&str>, sandbox: Option<&str>) -> Runtime {
    Runtime {
        metadata: RuntimeMetadata {
            name: Some("task-a".to_owned()),
            namespace: None,
            uid: uid.map(str::to_owned),
            resource_version: None,
            generation: None,
        },
        spec: RuntimeSpec {
            principal: Principal::User {
                acting_user: "alice@example.com".to_owned(),
            },
            owner: "alice@example.com".to_owned(),
            canonical_authority: None,
            agent_type: "base".to_owned(),
            llms: Vec::new(),
            tools: vec![ToolGrant {
                provider: "github".to_owned(),
                resource: "search_repositories".to_owned(),
                action: "read".to_owned(),
            }],
            budget: Budget {
                monthly_limit: "1".to_owned(),
                single_run_limit: None,
                currency: "USD".to_owned(),
            },
            ttl: "1h".to_owned(),
            runner: None,
            bindings: None,
        },
        status: Some(RuntimeStatus {
            phase: phase.to_owned(),
            observed_generation: 1,
            spec_digest: String::new(),
            refs: RuntimeRefs {
                workspace: workspace.map(str::to_owned),
                sandbox: sandbox.map(str::to_owned),
                litellm_key: None,
            },
            conditions: Vec::new(),
            spend: None,
        }),
        rest: serde_json::Value::Null,
    }
}

fn output(success: bool, stdout: &[u8], stderr: &[u8]) -> ProcessOutput {
    ProcessOutput {
        success,
        stdout: stdout.to_vec(),
        stderr: stderr.to_vec(),
    }
}

#[test]
fn requests_are_arguments_of_curl() {
    assert_eq!(submit_file("k"), "submit-k.json");
    assert_eq!(
        submit_arguments("https://a", "jwt", "k", "{}", "/r"),
        vec![
            "-sS",
            "-o",
            "/r",
            "-w",
            "%{http_code}",
            "-X",
            "POST",
            "-H",
            "Authorization: Bearer jwt",
            "-H",
            "Idempotency-Key: k",
            "-H",
            "Content-Type: application/json",
            "--data",
            "{}",
            "https://a/v1/tasks"
        ]
    );
    assert_eq!(
        put_archive_arguments("https://a", "t", "jwt", "/in.tar", "/r")[5..].to_vec(),
        vec![
            "-X",
            "PUT",
            "-H",
            "Authorization: Bearer jwt",
            "-H",
            "Content-Type: application/x-tar",
            "--data-binary",
            "@/in.tar",
            "https://a/v1/tasks/t/inputs"
        ]
    );
    assert_eq!(
        execute_arguments("https://a", "t", "jwt", "/r")[5..].to_vec(),
        vec![
            "-X",
            "POST",
            "-H",
            "Authorization: Bearer jwt",
            "https://a/v1/tasks/t/execute"
        ]
    );
    assert_eq!(
        delete_task_arguments("https://a", "t", "jwt", "/r")[5..].to_vec(),
        vec![
            "-X",
            "DELETE",
            "-H",
            "Authorization: Bearer jwt",
            "https://a/v1/tasks/t"
        ]
    );
    assert_eq!(
        approve_arguments("https://a", "p", "https://jira/PROJ-1", "/r")[5..].to_vec(),
        vec![
            "-X",
            "POST",
            "-H",
            "Authorization: Bearer admin-assertion",
            "-H",
            "Content-Type: application/json",
            "-d",
            "{\"evidenceUrl\":\"https://jira/PROJ-1\",\"expiresAt\":\"2999-01-01T00:00:00Z\",\
             \"rationale\":\"task e2e approval\"}",
            "https://a/admin/approvals/p/approve"
        ]
    );
    assert_eq!(
        resolutions_arguments("https://a", "/r")[5..].to_vec(),
        vec!["https://a/test/resolutions"]
    );
    assert_eq!(
        get_output_arguments("https://a", "t", "jwt", "/r")[5..].to_vec(),
        vec!["-H", "Authorization: Bearer jwt", "https://a/v1/tasks/t/outputs"]
    );
    assert_eq!(
        replace_runtime_arguments("https://a", "u", "/r")[5..].to_vec(),
        vec!["-X", "POST", "https://a/test/runtimes/u/replace"]
    );
    assert_eq!(
        task_status_arguments("https://a", "t", "jwt", "/r")[5..].to_vec(),
        vec!["-H", "Authorization: Bearer jwt", "https://a/v1/tasks/t"]
    );
}

#[test]
fn probes_are_arguments_of_openshell() {
    assert_eq!(
        provider_list_arguments("e", "w", "s"),
        vec![
            "--gateway-endpoint",
            "e",
            "--workspace",
            "w",
            "sandbox",
            "provider",
            "list",
            "s"
        ]
    );
    let probe = tool_probe_arguments("e", "w", "s");
    assert_eq!(probe.len(), 23);
    assert_eq!(probe[7], "s");
    assert_eq!(probe[15], "\n__STEWARD_HTTP_STATUS:%{http_code}\n");
    assert_eq!(
        value(&probe[21])["params"]["name"],
        "search_repositories"
    );
    assert_eq!(
        probe[22],
        "http://hop1-capture-tools.steward-system.svc.cluster.local:8085/mcp"
    );
}

#[test]
fn submissions_are_acknowledged() {
    for status in [201, 202] {
        match submit_response(status, b"{\"taskUid\":\"t\"}".to_vec()) {
            Ok(submission) => {
                assert_eq!(submission.http_status, status);
                assert_eq!(json_string(&submission.body, "taskUid"), Ok("t"));
                assert_eq!(
                    json_string(&submission.body, "phase"),
                    Err("Task response has no phase".to_owned())
                );
            }
            Err(words) => panic!("{}", words),
        }
    }
    assert_eq!(
        submit_response(409, b"conflict".to_vec()).err().unwrap(),
        "Task submission returned 409: conflict"
    );
    assert_eq!(
        submit_response(500, b"\xff".to_vec()).err().unwrap(),
        "stream did not contain valid UTF-8"
    );
    assert_eq!(
        submit_response(201, b"".to_vec()).err().unwrap(),
        "EOF while parsing a value at line 1 column 0"
    );
}

#[test]
fn each_request_has_its_one_status() {
    assert_eq!(put_archive(204, Vec::new()), Ok(()));
    assert_eq!(
        put_archive(413, b"large".to_vec()),
        Err("Task input returned 413: large".to_owned())
    );
    assert_eq!(execute(202), Ok(()));
    assert_eq!(execute(200), Err("Task execute returned 200".to_owned()));
    assert_eq!(delete_task(202), Ok(()));
    assert_eq!(delete_task(404), Err("Task delete returned 404".to_owned()));
    assert_eq!(approve(200), Ok(()));
    assert_eq!(approve(403), Err("Task approval returned 403".to_owned()));
    assert_eq!(get_output(200), Ok(()));
    assert_eq!(get_output(409), Err("Task output returned 409".to_owned()));
    assert_eq!(assert_resolution_emitted(200, "[\"a-b\"]", "a-b"), Ok(()));
    assert_eq!(
        assert_resolution_emitted(200, "[]", "a-b"),
        Err(
            "the parked Task submitter's decision channel must receive its approval resolution"
                .to_owned()
        )
    );
    assert_eq!(
        assert_resolution_emitted(503, "a-b", "a-b"),
        Err("Task resolution notification lookup returned 503".to_owned())
    );
}

#[test]
fn a_replacement_is_named() {
    assert_eq!(
        replace_runtime_for_stale_uid_test(201, b"{\"runtimeUid\":\"u\"}".to_vec()),
        Ok("u".to_owned())
    );
    assert_eq!(
        replace_runtime_for_stale_uid_test(201, b"{}".to_vec()),
        Err("Task response has no runtimeUid".to_owned())
    );
    assert_eq!(
        replace_runtime_for_stale_uid_test(404, b"gone".to_vec()),
        Err("test runtime replacement returned 404: gone".to_owned())
    );
    assert!(replace_runtime_for_stale_uid_test(201, b"{".to_vec()).is_err());
}

#[test]
fn the_state_of_a_task_is_read() {
    assert_eq!(
        task_status(200, b"{\"phase\":\"running\"}".to_vec()).unwrap()["phase"],
        "running"
    );
    assert_eq!(
        task_status(404, b"none".to_vec()).err().unwrap(),
        "Task status returned 404: none"
    );
}

#[test]
fn goals_are_reached() {
    let bound = value("{\"phase\":\"submitted\",\"runtimeUid\":\"u\",\"finalized\":false}");
    let unbound = value("{\"phase\":\"submitted\",\"runtimeUid\":null}");
    let succeeded = value("{\"phase\":\"succeeded\",\"finalized\":false}");
    let failed = value("{\"phase\":\"failed\",\"finalized\":true}");
    assert!(reaches(Goal::RuntimeBound, &bound));
    assert!(!reaches(Goal::RuntimeBound, &unbound));
    assert!(!reaches(Goal::RuntimeBound, &succeeded));
    assert!(reaches(Goal::Succeeded, &succeeded));
    assert!(!reaches(Goal::Finalized, &succeeded));
    assert!(reaches(Goal::Finalized, &failed));
    assert!(reaches(Goal::FailedAndFinalized, &failed));
    assert!(!reaches(Goal::FailedAndFinalized, &succeeded));
}

#[test]
fn a_failed_task_ends_a_wait_for_success() {
    let failed = value("{\"phase\":\"failed\",\"finalized\":true}");
    let mut wait = TaskWait::new("t", Goal::Succeeded);
    assert!(matches!(
        wait.wait_for(&value("{\"phase\":\"failed\",\"finalized\":false}")),
        TaskLook::Again
    ));
    match wait.wait_for(&failed) {
        TaskLook::Failed(words) => assert_eq!(
            words,
            "Task t reached terminal state: {\"finalized\":true,\"phase\":\"failed\"}"
        ),
        _ => panic!("the Task failed"),
    }
    let mut wait = TaskWait::wait_for_runtime_binding("t");
    match wait.wait_for(&value("{\"phase\":\"cancelled\",\"finalized\":true}")) {
        TaskLook::Failed(words) => assert!(words.starts_with("Task t reached terminal state: ")),
        _ => panic!("the Task was cancelled"),
    }
    let mut wait = TaskWait::new("t", Goal::FailedAndFinalized);
    assert!(matches!(wait.wait_for(&failed), TaskLook::Reached));
}

#[test]
fn a_wait_takes_as_many_looks_as_it_has() {
    let running = value("{\"phase\":\"running\"}");
    let mut wait = TaskWait::new("t", Goal::Succeeded);
    for _ in 0..239 {
        assert!(matches!(wait.wait_for(&running), TaskLook::Again));
    }
    match wait.wait_for(&running) {
        TaskLook::Failed(words) => assert_eq!(words, "Task t did not reach expected state"),
        _ => panic!("there are no looks left"),
    }
    let mut wait = TaskWait::new("t", Goal::Succeeded);
    wait.attempts = 239;
    assert!(matches!(
        wait.wait_for(&value("{\"phase\":\"succeeded\"}")),
        TaskLook::Reached
    ));
}

#[test]
fn a_stale_binding_keeps_its_phase() {
    let state = value("{\"phase\":\"submitted\"}");
    let mut watch = PhaseWatch::new("submitted");
    for _ in 0..3 {
        assert!(matches!(watch.assert_phase_stays(&state), TaskLook::Again));
    }
    assert!(matches!(watch.assert_phase_stays(&state), TaskLook::Reached));
    assert_eq!(watch.attempts, 4);
    for looks in 0..4 {
        let mut watch = PhaseWatch::new("submitted");
        for _ in 0..looks {
            assert!(matches!(watch.assert_phase_stays(&state), TaskLook::Again));
        }
        match watch.assert_phase_stays(&value("{\"phase\":\"running\"}")) {
            TaskLook::Failed(words) => assert_eq!(
                words,
                "a Task bound to a stale runtime UID must fail closed instead of executing on a replacement"
            ),
            _ => panic!("the Task left its phase"),
        }
    }
}

#[test]
fn runtimes_are_found_by_identity() {
    let runtimes = vec![
        runtime(None, "Running", Some("w"), Some("s")),
        runtime(Some("a"), "Pending", Some("w"), Some("s")),
        runtime(Some("b"), "Running", Some("w"), Some("s")),
        runtime(Some("b"), "Failed", None, None),
    ];
    assert_eq!(
        runtime_by_uid(&runtimes, "b").unwrap().status.as_ref().unwrap().phase,
        "Running"
    );
    assert!(runtime_by_uid(&runtimes, "c").is_none());
    let mut wait = RuntimeWait::new("a");
    for _ in 0..239 {
        assert!(matches!(
            wait.wait_for_running_runtime(&runtimes),
            RuntimeLook::Again
        ));
    }
    match wait.wait_for_running_runtime(&runtimes) {
        RuntimeLook::Failed(words) => assert_eq!(
            words,
            "controller-created Task runtime a did not reach Running with workspace and sandbox references"
        ),
        _ => panic!("there are no looks left"),
    }
    let mut wait = RuntimeWait::new("b");
    wait.attempts = 239;
    match wait.wait_for_running_runtime(&runtimes) {
        RuntimeLook::Running(found) => assert_eq!(found.metadata.uid.as_deref(), Some("b")),
        _ => panic!("the runtime runs"),
    }
    assert!(!is_running_runtime(&runtime(Some("b"), "Running", None, Some("s"))));
    assert!(!is_running_runtime(&runtime(Some("b"), "Running", Some("w"), None)));
}

#[test]
fn tools_are_called_in_a_sandbox() {
    assert_eq!(
        tool_sandbox_of(&runtime(None, "Running", Some("w"), Some("s"))),
        Ok(("w".to_owned(), "s".to_owned()))
    );
    assert_eq!(
        tool_sandbox_of(&runtime(None, "Running", None, None)),
        Err("running Task runtime has no workspace reference".to_owned())
    );
    assert_eq!(
        tool_sandbox_of(&runtime(None, "Running", Some("w"), None)),
        Err("running Task runtime has no sandbox reference".to_owned())
    );
    let mut unreported = runtime(None, "Running", Some("w"), Some("s"));
    unreported.status = None;
    assert_eq!(
        tool_sandbox_of(&unreported),
        Err("running Task runtime has no status references".to_owned())
    );
    unreported.spec.tools.clear();
    assert_eq!(
        tool_sandbox_of(&unreported),
        Err(
            "the controller-created Task runtime must request a governed tool provider".to_owned()
        )
    );
}

#[test]
fn the_provider_is_attached_before_execution() {
    assert_eq!(
        provider_is_attached(&output(true, b"\xffsteward-mcp-gw", b"")),
        Ok(())
    );
    assert_eq!(
        provider_is_attached(&output(true, b"", b"steward-mcp-gw")),
        Err(
            "controller-created runtime must attach the governed tool provider before execution"
                .to_owned()
        )
    );
    assert_eq!(
        provider_is_attached(&output(false, b"steward-mcp-gw", b" no \n")),
        Err("controller-created runtime provider inspection failed: no".to_owned())
    );
}

#[test]
fn only_a_pending_grant_is_probed_again() {
    let pending = b"{}\n__STEWARD_HTTP_STATUS:502\n";
    let ready = b"example-org/fixture-repository\n__STEWARD_HTTP_STATUS:200\n";
    assert!(matches!(
        assert_controller_runtime_tool_ready(output(true, ready, b""), true),
        ToolProbe::Ready
    ));
    assert!(matches!(
        assert_controller_runtime_tool_ready(output(true, pending, b""), false),
        ToolProbe::Again
    ));
    match assert_controller_runtime_tool_ready(output(true, pending, b""), true) {
        ToolProbe::Refused(response) => {
            assert_eq!((response.status, response.body.as_str()), (502, "{}"))
        }
        _ => panic!("the time is over"),
    }
    match assert_controller_runtime_tool_ready(
        output(true, b"x\n__STEWARD_HTTP_STATUS:403\n", b""),
        false,
    ) {
        ToolProbe::Refused(response) => {
            assert_eq!((response.status, response.body.as_str()), (403, "x"))
        }
        _ => panic!("the tool refused"),
    }
    match assert_controller_runtime_tool_ready(output(false, b"", b"down"), false) {
        ToolProbe::Failed(words) => assert_eq!(
            words,
            "exact OpenShell ExecSandbox tool call did not complete: down"
        ),
        _ => panic!("the call was not made"),
    }
}

#[test]
fn a_refusal_is_told_with_what_was_captured() {
    let response = HttpResponse {
        body: "b".to_owned(),
        status: 403,
    };
    assert_eq!(
        tool_refusal(&response, "d"),
        "controller-created runtime did not obtain a dynamic tool grant: status 403; body b; \
         captured Mint response: d"
    );
    assert_eq!(
        provider_grant_diagnostic(output(true, b" d\n", b"")),
        Ok(" d\n".to_owned())
    );
    assert_eq!(
        provider_grant_diagnostic(output(false, b"", b"x\n")),
        Err("capture token-grant diagnostic failed: x".to_owned())
    );
}

#[test]
fn the_capture_is_asked_for_the_grant() {
    assert_eq!(
        token_grant_arguments("http://c"),
        vec!["-fsS", "--max-time", "5", "http://c/token-grant"]
    );
}

fn task_wait(states: &[&str]) -> (usize, Result<(), String>) {
    let mut wait = TaskWait::new("t", Goal::Succeeded);
    let mut looks = 0;
    loop {
        let state = value(states[looks.min(states.len() - 1)]);
        looks += 1;
        match wait.wait_for(&state) {
            TaskLook::Reached => return (looks, Ok(())),
            TaskLook::Failed(words) => return (looks, Err(words)),
            TaskLook::Again => {}
        }
    }
}

#[test]
fn a_task_wait_ends_with_the_first_state_that_decides() {
    let running = "{\"phase\":\"running\"}";
    let failed = "{\"finalized\":true,\"phase\":\"failed\"}";
    let succeeded = "{\"phase\":\"succeeded\"}";
    assert_eq!(task_wait(&[running, succeeded, failed]), (2, Ok(())));
    assert_eq!(
        task_wait(&[running, failed, succeeded]),
        (2, Err(format!("Task t reached terminal state: {failed}")))
    );
    assert_eq!(
        task_wait(&[running]),
        (240, Err("Task t did not reach expected state".to_owned()))
    );
}

#[test]
fn a_runtime_wait_gives_the_first_running_runtime() {
    let pending = vec![runtime(Some("a"), "Pending", None, None)];
    let running = vec![
        runtime(Some("b"), "Running", Some("w"), Some("s")),
        runtime(Some("a"), "Running", Some("w"), Some("s")),
    ];
    let mut wait = RuntimeWait::new("a");
    assert!(matches!(wait.wait_for_running_runtime(&pending), RuntimeLook::Again));
    assert!(matches!(wait.wait_for_running_runtime(&Vec::new()), RuntimeLook::Again));
    match wait.wait_for_running_runtime(&running) {
        RuntimeLook::Running(found) => assert_eq!(found.metadata.uid.as_deref(), Some("a")),
        _ => panic!("the runtime runs"),
    }
    assert_eq!(wait.attempts, 3);
}

#[test]
fn the_first_settled_probe_decides() {
    let marker = "__STEWARD_HTTP_STATUS:";
    let probe = |body: &str, status: u16, over| {
        let written = format!("{body}\n{marker}{status}\n");
        assert_controller_runtime_tool_ready(output(true, written.as_bytes(), b""), over)
    };
    assert!(matches!(probe("later", 502, false), ToolProbe::Again));
    assert!(matches!(
        probe("example-org/fixture-repository", 200, true),
        ToolProbe::Ready
    ));
    for (status, over) in [(502, true), (500, false), (200, false)] {
        match probe("denied", status, over) {
            ToolProbe::Refused(response) => {
                assert_eq!((response.status, response.body.as_str()), (status, "denied"));
            }
            _ => panic!("the reply is told"),
        }
    }
}
