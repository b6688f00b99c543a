use steward_harness::cluster::{
    api_names, call_tool, find_runtime, find_secret, get_jira_state, list_runtimes,
    namespace_to_remove, runtimes_to_remove,
    assert_holds_nothing, assert_key_absent, call_inference, call_outputs, curl, delete_namespace, delete_runtime,
    expire_runtime, forged_svid, forged_svid_status, get_runtime, get_sandboxes, inference_answer,
    inject_stale_status_cache, jira, jira_state, jira_status, key_count, key_list, listed_keys, looked_up,
    port_forward, read_status, replay, replay_status, required_json_string, required_text,
    sandbox_request, steward, steward_status, terminating_waiter,
    wait_for_terminating,
};
use steward_harness::harness::{Environment, Harness, Suite};
use steward_harness::probe::ProcessOutput;

fn output(success: bool, stdout: &[u8], stderr: &[u8]) -> ProcessOutput {
    ProcessOutput {
        success,
        stdout: stdout.to_vec(),
        stderr: stderr.to_vec(),
    }
}

#[test]
fn kubectl_is_told_what_to_do_with_a_runtime() {
    assert_eq!(
        get_runtime("ns", "a", "json"),
        vec!["-n", "ns", "get", "agentruntime", "a", "-o", "json"]
    );
    assert_eq!(
        delete_runtime(Suite::S0, "ns", "a"),
        vec!["-n", "ns", "delete", "agentruntime", "a", "--wait=false"]
    );
    assert_eq!(
        delete_runtime(Suite::S1, "ns", "a")[5..].to_vec(),
        vec!["--ignore-not-found=true", "--timeout=120s"]
    );
    assert_eq!(
        delete_runtime(Suite::S4, "ns", "a")[5..].to_vec(),
        vec!["--ignore-not-found=true", "--wait=true", "--timeout=120s"]
    );
    assert_eq!(
        delete_namespace(Suite::S0, "ns"),
        vec![
            "delete",
            "namespace",
            "ns",
            "--ignore-not-found=true",
            "--wait=true",
            "--timeout=120s"
        ]
    );
    assert_eq!(delete_namespace(Suite::S1, "ns")[5], "--timeout=60s");
    let patch = inject_stale_status_cache("ns", "a");
    assert_eq!(patch[5], "--subresource=status");
    let injected: serde_json::Value = serde_json::from_str(&patch[8]).unwrap();
    assert_eq!(injected["status"]["refs"]["litellmKey"], "stale-key-ref");
    assert_eq!(injected["status"]["spend"]["observedAmount"], "9.99");
    assert_eq!(expire_runtime("ns", "a")[7], "{\"spec\":{\"ttl\":\"1s\"}}");
    assert_eq!(
        get_sandboxes("w", "s", "name")[4..].to_vec(),
        vec![
            "--selector",
            "openshell.ai/sandbox-workspace=w,openshell.ai/sandbox-name=s",
            "-o",
            "name"
        ]
    );
    assert_eq!(
        port_forward("ns", "mint"),
        vec!["-n", "ns", "port-forward", "svc/mint", ":8080"]
    );
}

#[test]
fn the_teardown_of_a_runtime_is_waited_for() {
    assert_eq!(
        terminating_waiter("ns", "a"),
        vec![
            "-n",
            "ns",
            "wait",
            "--for=jsonpath={.status.phase}=Terminating",
            "agentruntime",
            "a",
            "--timeout=30s"
        ]
    );
    assert_eq!(wait_for_terminating(false, &output(true, b"", b"")), Ok(()));
    assert_eq!(
        wait_for_terminating(true, &output(true, b"", b"")),
        Err("Terminating phase waiter exited before runtime deletion began".to_owned())
    );
    assert_eq!(
        wait_for_terminating(false, &output(false, b"", b" timed out\n")),
        Err("AgentRuntime did not expose Terminating: timed out".to_owned())
    );
}

#[test]
fn requests_are_made_from_inside_a_sandbox() {
    let request = sandbox_request("e", "w", "s", "http://x/", &[("A", "1"), ("B", "2")], "{}");
    assert_eq!(
        request,
        vec![
            "--gateway-endpoint",
            "e",
            "--workspace",
            "w",
            "sandbox",
            "exec",
            "--name",
            "s",
            "--no-tty",
            "--",
            "curl",
            "-sS",
            "--max-time",
            "20",
            "-H",
            "A: 1",
            "-H",
            "B: 2",
            "-d",
            "{}",
            "http://x/"
        ]
    );
    assert_eq!(sandbox_request("e", "w", "s", "u", &[], "b").len(), 17);
    assert_eq!(
        call_outputs(&output(false, b"out\xff", b" err")),
        "out\u{fffd} err"
    );
}

#[test]
fn a_reference_is_looked_up() {
    assert_eq!(
        looked_up(output(true, b" ref\n", b""), "none"),
        Ok("ref".to_owned())
    );
    assert_eq!(
        looked_up(output(false, b"ref", b"x"), "none"),
        Err("none".to_owned())
    );
    assert_eq!(
        looked_up(output(true, b"\xff", b""), "none"),
        Err("invalid utf-8 sequence of 1 bytes from index 0".to_owned())
    );
}

#[test]
fn requests_to_steward_are_arguments_of_curl() {
    assert_eq!(
        steward("/ca", "r", "POST", "t", "/o", Some("{}"), "https://a", "/p"),
        vec![
            "--silent",
            "--show-error",
            "--cacert",
            "/ca",
            "--resolve",
            "r",
            "--request",
            "POST",
            "--header",
            "authorization: Bearer t",
            "--output",
            "/o",
            "--write-out",
            "%{http_code}",
            "--header",
            "content-type: application/json",
            "--data",
            "{}",
            "https://a/p"
        ]
    );
    assert_eq!(
        steward("/ca", "r", "GET", "t", "/o", None, "https://a", "/p").len(),
        15
    );
    let unsigned = curl("/ca", "r", "POST", "/o", Some("{}"), "https://a", "/p");
    assert_eq!(unsigned.len(), 17);
    assert!(!unsigned.iter().any(|argument| argument.contains("Bearer")));
    assert_eq!(
        jira("GET", "/o", "http://j", "/p"),
        vec![
            "--silent",
            "--show-error",
            "--request",
            "GET",
            "--output",
            "/o",
            "--write-out",
            "%{http_code}",
            "http://j/p"
        ]
    );
}

#[test]
fn statuses_are_read() {
    assert_eq!(steward_status(output(true, b"201", b""), "POST", "/p"), Ok(201));
    assert_eq!(
        steward_status(output(true, b"", b""), "POST", "/p"),
        Err("invalid HTTP status: cannot parse integer from empty string".to_owned())
    );
    assert_eq!(
        steward_status(output(false, b"", b" refused\n"), "POST", "/p"),
        Err("curl POST /p failed: refused".to_owned())
    );
    assert_eq!(
        jira_status(output(true, b"70000", b""), "GET", "/p"),
        Err("invalid Jira HTTP status: number too large to fit in target type".to_owned())
    );
    assert_eq!(
        jira_status(output(false, b"", b"x"), "GET", "/p"),
        Err("mock Jira GET /p failed: x".to_owned())
    );
    assert_eq!(
        read_status(output(true, b"7", b""), "program", "kind", "GET", "/p"),
        Ok(7)
    );
}

#[test]
fn the_state_of_jira_is_read() {
    assert_eq!(
        jira_state(output(true, b"{\"issues\":[]}", b"")).unwrap().to_string(),
        "{\"issues\":[]}"
    );
    assert_eq!(
        jira_state(output(false, b"{}", b"down\n")).err().unwrap(),
        "mock Jira state request failed: down"
    );
    assert!(jira_state(output(true, b"[", b"")).is_err());
}

#[test]
fn texts_are_found_by_pointers() {
    let value: serde_json::Value =
        serde_json::from_str("{\"a\":[{\"b\":\"x\"}],\"~\":\"tilde\",\"n\":1}").unwrap();
    assert_eq!(required_json_string(&value, "/a/0/b"), Ok("x".to_owned()));
    assert_eq!(required_json_string(&value, "/~0"), Ok("tilde".to_owned()));
    for pointer in ["/a/00/b", "/a/1/b", "/n", "a", "", "/a/-1", "/a/+0/b"] {
        assert_eq!(
            required_json_string(&value, pointer),
            Err(format!("response is missing {pointer}"))
        );
    }
    let escaped: serde_json::Value =
        serde_json::from_str("{\"a/b\":\"slash\",\"~1\":\"one\",\"~\":[\"item\"],\"~2\":\"two\"}")
            .unwrap();
    for (pointer, found) in [
        ("/a~1b", "slash"),
        ("/~01", "one"),
        ("/~0/0", "item"),
        ("/~2", "two"),
    ] {
        assert_eq!(
            required_json_string(&escaped, pointer),
            Ok(found.to_owned())
        );
    }
    for pointer in ["/a/b", "/~1", "/~0/~00"] {
        assert!(required_json_string(&escaped, pointer).is_err());
    }
    let word = serde_json::Value::String("w".to_owned());
    assert_eq!(required_json_string(&word, ""), Ok("w".to_owned()));
    assert_eq!(required_text(Some("y"), "/y"), Ok("y".to_owned()));
    assert_eq!(
        required_text(None, "/y"),
        Err("response is missing /y".to_owned())
    );
}

#[test]
fn captured_credentials_are_replayed() {
    assert_eq!(
        replay("http://c", "/mint"),
        vec!["-fsS", "-X", "POST", "http://c/mint"]
    );
    assert_eq!(
        replay_status(&output(true, b"{\"upstreamStatus\":403}", b""), "/mint"),
        Ok(403)
    );
    for body in ["{}", "{\"upstreamStatus\":65536}", "{\"upstreamStatus\":-1}"] {
        assert_eq!(
            replay_status(&output(true, body.as_bytes(), b""), "/mint"),
            Err("capture replay /mint had no status".to_owned())
        );
    }
    assert_eq!(
        replay_status(&output(false, b"{\"upstreamStatus\":403}", b""), "/mint"),
        Err("capture replay /mint failed".to_owned())
    );
    assert!(replay_status(&output(true, b"", b""), "/mint").is_err());
}

#[test]
fn inference_keys_are_counted() {
    let list = key_list(" secret\n", "a", "http://l");
    assert_eq!(list[2], "Authorization: Bearer secret");
    assert_eq!(list[5], "key_alias=a");
    assert_eq!(list[8], "http://l/key/list");
    assert_eq!(
        listed_keys(&output(true, b"{\"keys\":[ 1]}", b"")).unwrap().to_string(),
        "{\"keys\":[1]}"
    );
    assert_eq!(
        listed_keys(&output(false, b"{}", b"down")),
        Err("LiteLLM key lookup failed".to_owned())
    );
    assert_eq!(
        listed_keys(&output(true, b"nul", b"")),
        Err("EOF while parsing a value at line 1 column 3".to_owned())
    );
    assert_eq!(
        key_count(&output(true, b"{\"total_count\":2}", b"")),
        Ok(2)
    );
    assert_eq!(
        key_count(&output(true, b"{}", b"")),
        Err("LiteLLM key count was missing".to_owned())
    );
    assert_eq!(
        key_count(&output(false, b"", b"")),
        Err("LiteLLM key lookup failed".to_owned())
    );
    assert_eq!(
        assert_key_absent(&output(true, b"{\"total_count\":0}", b"")),
        Ok(())
    );
    for body in ["{\"total_count\":1}", "{}"] {
        assert_eq!(
            assert_key_absent(&output(true, body.as_bytes(), b"")),
            Err("a suspended runtime must have no live inference key".to_owned())
        );
    }
    assert_eq!(
        assert_key_absent(&output(false, b"{\"total_count\":0}", b"")),
        Err("LiteLLM key lookup failed".to_owned())
    );
}

#[test]
fn a_terminated_runtime_holds_nothing() {
    assert_eq!(assert_holds_nothing(403, 401, 401, 0, false, "\n"), Ok(()));
    for (mint, tool, inference, keys, secret, sandboxes, words) in [
        (
            200,
            200,
            200,
            1,
            true,
            "s",
            "the mint must refuse the captured sandbox SVID after its runtime is gone",
        ),
        (
            403,
            200,
            200,
            1,
            true,
            "s",
            "mcp-gw must reject the previously issued HOP-1 after termination",
        ),
        (
            403,
            401,
            403,
            1,
            true,
            "s",
            "LiteLLM must reject the previously issued runtime key after termination",
        ),
        (
            403,
            401,
            401,
            1,
            true,
            "s",
            "the runtime key must be absent from LiteLLM's active key set",
        ),
        (
            403,
            401,
            401,
            0,
            true,
            "s",
            "the runtime-scoped credential Secret survived termination",
        ),
        (
            403,
            401,
            401,
            0,
            false,
            " s\n",
            "the terminated runtime retained Agent Sandbox resources: s",
        ),
    ] {
        assert_eq!(
            assert_holds_nothing(mint, tool, inference, keys, secret, sandboxes),
            Err(words.to_owned())
        );
    }
}

#[test]
fn a_forged_credential_is_presented() {
    let request = forged_svid(8_443);
    assert_eq!(request.len(), 20);
    assert_eq!(request[19], "http://127.0.0.1:8443/token");
    assert_eq!(
        forged_svid_status(output(true, b"401", b"")),
        Ok(401)
    );
    assert_eq!(
        forged_svid_status(output(false, b"401", b"")),
        Err("forged SVID request failed to execute".to_owned())
    );
    assert_eq!(
        forged_svid_status(output(true, b"4o1", b"")),
        Err("invalid HTTP status: invalid digit found in string".to_owned())
    );
    assert!(forged_svid_status(output(true, b"\xff", b"")).is_err());
}

fn pair(name: &str, value: &str) -> (String, String) {
    (name.to_owned(), value.to_owned())
}

fn starting(
    suite: Suite,
    names: &[(&str, &str)],
) -> Result<(String, Vec<(String, String)>), String> {
    let mut variables = vec![
        pair("STEWARD_TEST_KUBE_CONTEXT", "kind-steward-e2e"),
        pair("STEWARD_TEST_KUBECONFIG", "/run/kubeconfig"),
        pair("STEWARD_OPENSHELL_CLI", "/bin/openshell"),
        pair("STEWARD_RUN_DIR", "/run"),
    ];
    variables.extend(names.iter().map(|(name, value)| pair(name, value)));
    let harness = match Harness::from_environment(suite, Environment { variables }) {
        Ok(harness) => harness,
        Err(words) => panic!("{}", words),
    };
    harness
        .start_controller()
        .map(|start| (start.program, start.settings))
}

#[test]
fn a_controller_is_handed_its_settings() {
    let started = starting(
        Suite::S0,
        &[
            ("STEWARD_CONTROLLER_BIN", "/bin/controller"),
            ("STEWARD_OPENSHELL_ENDPOINT", "https://gateway"),
        ],
    );
    match started {
        Ok((program, settings)) => {
            assert_eq!(program, "/bin/controller");
            assert_eq!(
                settings,
                vec![
                    pair("KUBECONFIG", "/run/kubeconfig"),
                    pair("STEWARD_TEST_KUBE_CONTEXT", "kind-steward-e2e"),
                    pair("STEWARD_OPENSHELL_ENDPOINT", "https://gateway"),
                ]
            );
        }
        Err(words) => panic!("{}", words),
    }
    let names = [
        "STEWARD_CONTROLLER_BIN",
        "STEWARD_OPENSHELL_ENDPOINT",
        "STEWARD_OPENSHELL_CA_CERTIFICATE_FILE",
        "STEWARD_OPENSHELL_CLIENT_CERTIFICATE_FILE",
        "STEWARD_OPENSHELL_CLIENT_PRIVATE_KEY_FILE",
        "STEWARD_WORKLOAD_EXCHANGE_ENDPOINT",
        "STEWARD_WORKLOAD_EXCHANGE_SERVER_NAME",
        "STEWARD_WORKLOAD_EXCHANGE_CA_CERTIFICATE_FILE",
        "STEWARD_WORKLOAD_SOURCE_CREDENTIAL_FILE",
        "STEWARD_OPENSHELL_SERVER_NAME",
        "STEWARD_OPENSHELL_RUNTIME_CLASS_NAME",
    ];
    let all: Vec<(&str, &str)> = names.iter().map(|name| (*name, *name)).collect();
    match starting(Suite::S1, &all) {
        Ok((_, settings)) => {
            assert_eq!(settings.len(), 12);
            assert_eq!(settings[0], pair("KUBECONFIG", "/run/kubeconfig"));
            for (place, name) in names.iter().enumerate().skip(1) {
                assert_eq!(settings[place], pair(name, name));
            }
            assert_eq!(settings[11], pair("STEWARD_S0_BOOTSTRAP", "1"));
        }
        Err(words) => panic!("{}", words),
    }
    for missing in 0..all.len() {
        let mut rest = all.clone();
        rest.remove(missing);
        assert_eq!(
            starting(Suite::S1, &rest),
            Err("environment variable not found".to_owned())
        );
    }
}

#[test]
fn inference_is_tried_from_inside_a_sandbox() {
    let arguments = call_inference("e", "w", "s", "http://i/v1");
    assert_eq!(arguments.len(), 19);
    assert_eq!(
        arguments[14..].to_vec(),
        vec![
            "-H",
            "Content-Type: application/json",
            "-d",
            "{\"model\":\"openai/priced-model\",\"messages\":[{\"role\":\"user\",\"content\":\"hello\"}]}",
            "http://i/v1"
        ]
    );
    assert_eq!(
        inference_answer(output(true, b"hi\n", b"")),
        Ok("hi\n".to_owned())
    );
    assert_eq!(
        inference_answer(output(false, b"", b" down\n")),
        Err("sandbox inference call failed: down".to_owned())
    );
}

#[test]
fn what_runs_is_looked_for() {
    assert_eq!(
        find_runtime("ns", "a"),
        vec!["-n", "ns", "get", "agentruntime", "a"]
    );
    assert_eq!(
        list_runtimes("ns"),
        vec!["-n", "ns", "get", "agentruntime", "-o", "name"]
    );
    assert_eq!(
        find_secret("ns", "u"),
        vec!["-n", "ns", "get", "secret", "u"]
    );
    assert_eq!(
        get_jira_state("http://j"),
        vec!["--silent", "--show-error", "http://j/test/state"]
    );
    assert_eq!(
        api_names(Suite::S4),
        ("STEWARD_S4_URL", "STEWARD_S4_RESOLVE")
    );
    assert_eq!(
        api_names(Suite::S5),
        ("STEWARD_POC_URL", "STEWARD_POC_RESOLVE")
    );
}

#[test]
fn a_tool_is_called_from_inside_a_sandbox() {
    let plain = call_tool("e", "w", "s", "http://t", false, "{}");
    assert_eq!(
        plain[14..].to_vec(),
        vec![
            "-H",
            "Content-Type: application/json",
            "-H",
            "MCP-Protocol-Version: 2025-06-18",
            "-d",
            "{}",
            "http://t"
        ]
    );
    let streamed = call_tool("e", "w", "s", "http://t", true, "{}");
    assert_eq!(streamed[..14], plain[..14]);
    assert_eq!(streamed.len(), plain.len() + 2);
    assert_eq!(streamed[17], "Accept: application/json, text/event-stream");
}

#[test]
fn a_suite_removes_what_it_made() {
    assert_eq!(runtimes_to_remove(Suite::S0), vec![("team-a", "runtime-a")]);
    assert_eq!(
        runtimes_to_remove(Suite::S1),
        vec![
            ("team-a", "runtime-scheduled-scanner"),
            ("team-a", "runtime-steward-run"),
            ("team-b", "runtime-bob"),
            ("team-a", "runtime-alice"),
        ]
    );
    assert!(runtimes_to_remove(Suite::S3).is_empty());
    assert_eq!(namespace_to_remove(Suite::S0), Some("team-a"));
    assert_eq!(namespace_to_remove(Suite::S4), Some("team-a"));
    assert_eq!(namespace_to_remove(Suite::S5), None);
}
