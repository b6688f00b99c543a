use steward_harness::harness::{
    assert_agent_sandbox_absent, ephemeral_context, kubectl_ok, kubectl_value, nothing_left,
    parse_forwarded_port, path_text, required, runtime_is_absent, runtime_ref, sandbox_selector,
    succeeded, Environment, Harness, Suite,
};
use steward_harness::probe::ProcessOutput;

fn environment(names: &[(&str, &str)]) -> Environment {
    Environment {
        variables: names
            .iter()
            .map(|(name, value)| ((*name).to_owned(), (*value).to_owned()))
            .collect(),
    }
}

fn fault(suite: Suite, names: &[(&str, &str)]) -> String {
    match Harness::from_environment(suite, environment(names)) {
        Ok(_) => panic!("the suite was let run"),
        Err(words) => words,
    }
}

fn output(success: bool, stdout: &[u8], stderr: &[u8]) -> ProcessOutput {
    ProcessOutput {
        success,
        stdout: stdout.to_vec(),
        stderr: stderr.to_vec(),
    }
}

fn ready() -> Harness {
    match Harness::from_environment(
        Suite::S0,
        environment(&[
            ("STEWARD_TEST_KUBE_CONTEXT", "kind-steward-e2e"),
            ("STEWARD_RUN_DIR", "/run"),
            ("STEWARD_CONTROLLER_BIN", "/bin/controller"),
            ("STEWARD_TEST_KUBECONFIG", "/run/kubeconfig"),
            ("STEWARD_TEST_KUBECONFIG", "/run/other"),
        ]),
    ) {
        Ok(harness) => harness,
        Err(words) => panic!("{}", words),
    }
}

#[test]
fn suites_run_on_ephemeral_clusters_only() {
    assert_eq!(ephemeral_context(Suite::S0, "kind-steward-a"), Ok(()));
    assert_eq!(
        ephemeral_context(Suite::S5, "production"),
        Err("refusing non-ephemeral kube context: production".to_owned())
    );
    assert_eq!(ephemeral_context(Suite::S3, "kind-steward-s3-a"), Ok(()));
    assert_eq!(
        ephemeral_context(Suite::S3, "kind-steward-s4-a"),
        Err("refusing non-S3 ephemeral kube context: kind-steward-s4-a".to_owned())
    );
    assert_eq!(
        ephemeral_context(Suite::S4, "kind-steward-a"),
        Err("refusing non-S4 ephemeral kube context: kind-steward-a".to_owned())
    );
}

#[test]
fn a_suite_needs_its_settings() {
    assert_eq!(fault(Suite::S0, &[]), "environment variable not found");
    assert_eq!(
        fault(Suite::S0, &[("STEWARD_TEST_KUBE_CONTEXT", "docker-desktop")]),
        "refusing non-ephemeral kube context: docker-desktop"
    );
    assert_eq!(
        fault(
            Suite::S0,
            &[
                ("STEWARD_TEST_KUBE_CONTEXT", "kind-steward-a"),
                ("STEWARD_RUN_DIR", "/run")
            ]
        ),
        "environment variable not found"
    );
    assert_eq!(
        fault(Suite::Connections, &[]),
        "STEWARD_OPEN_SHELL_RELEASE is required"
    );
    assert_eq!(
        fault(
            Suite::Connections,
            &[("STEWARD_OPEN_SHELL_RELEASE", "v0.0.97")]
        ),
        "governed Connections E2E requires OpenShell v0.0.98"
    );
    assert_eq!(
        fault(
            Suite::Connections,
            &[
                ("STEWARD_OPEN_SHELL_RELEASE", "v0.0.98"),
                ("STEWARD_TEST_KUBE_CONTEXT", "kind-steward-a")
            ]
        ),
        "STEWARD_CONNECTIONS_TEST_DATABASE_URL is required"
    );
    let harness = ready();
    assert_eq!(
        harness.environment.get("STEWARD_RUN_DIR").as_deref(),
        Some("/run")
    );
    assert_eq!(harness.environment.get("STEWARD_S3_URL"), None);
    assert_eq!(required("A", Some("b".to_owned())), Ok("b".to_owned()));
    assert_eq!(required("A", None), Err("A is required".to_owned()));
}

#[test]
fn kubectl_speaks_to_the_cluster_of_the_harness() {
    let harness = ready();
    assert_eq!(
        harness.kubectl(&["get", "pods"]),
        vec![
            "--kubeconfig",
            "/run/kubeconfig",
            "--context",
            "kind-steward-e2e",
            "get",
            "pods"
        ]
    );
    assert_eq!(
        harness.kubectl_as_actor(&["get"])[4..].to_vec(),
        vec![
            "--as",
            "alice@example.com",
            "--as-group",
            "agents.apelogic.ai/member-role:engineer",
            "get"
        ]
    );
    assert_eq!(
        harness.kubectl_as("bob@example.org", &[])[5],
        "bob@example.org"
    );
    assert_eq!(
        harness.apply_as("/run/a.json", "bob@example.org")[8..].to_vec(),
        vec!["apply", "-f", "/run/a.json"]
    );
}

#[test]
fn paths_are_text() {
    assert_eq!(
        path_text(Suite::S0, "/run/ä".as_bytes().to_vec()),
        Ok("/run/ä".to_owned())
    );
    for (suite, words) in [
        (Suite::S0, "run path is not valid UTF-8"),
        (Suite::S1, "test path is not valid UTF-8"),
        (Suite::S2, "test path is not UTF-8"),
        (Suite::S3, "run path is not valid UTF-8"),
        (Suite::S4, "run path is not valid UTF-8"),
        (Suite::S5, "run path is not valid UTF-8"),
        (Suite::Connections, "test path is not UTF-8"),
    ] {
        assert_eq!(path_text(suite, vec![0xff]), Err(words.to_owned()));
    }
}

#[test]
fn replies_of_kubectl_are_read() {
    assert_eq!(
        succeeded(output(true, b" a\n", b"warning"), "look failed"),
        Ok(" a\n".to_owned())
    );
    assert_eq!(
        succeeded(output(false, b" a\n", b" no \n"), "look failed"),
        Err("look failed: no".to_owned())
    );
    assert_eq!(
        succeeded(output(true, b"a\xff", b""), "look failed"),
        Err("invalid utf-8 sequence of 1 bytes from index 1".to_owned())
    );
    assert_eq!(
        kubectl_ok(&["get", "pods"], output(false, b"", b"denied")),
        Err("kubectl get pods failed: denied".to_owned())
    );
    assert_eq!(
        kubectl_ok(&[], output(false, b"", b"")),
        Err("kubectl  failed: ".to_owned())
    );
    assert_eq!(
        kubectl_value(&["get"], output(true, b"\t uid-a \r\n", b"")),
        Ok("uid-a".to_owned())
    );
    assert_eq!(
        kubectl_value(&["get"], output(false, b"uid-a", b"x")),
        Err("kubectl get failed: x".to_owned())
    );
}

#[test]
fn expressions_and_selectors_are_written() {
    assert_eq!(runtime_ref("sandbox"), "jsonpath={.status.refs.sandbox}");
    assert_eq!(
        sandbox_selector("w", "s"),
        "openshell.ai/sandbox-workspace=w,openshell.ai/sandbox-name=s"
    );
}

#[test]
fn what_is_left_is_named() {
    assert_eq!(nothing_left(" \n", "left: "), Ok(()));
    assert_eq!(
        nothing_left(" pod/a \n", "left: "),
        Err("left: pod/a".to_owned())
    );
    assert_eq!(assert_agent_sandbox_absent("w", "s", ""), Ok(()));
    assert_eq!(
        assert_agent_sandbox_absent("w", "s", "sandbox/a\n"),
        Err(
            "OpenShell tuple w/s still has Agent Sandbox resources: sandbox/a".to_owned()
        )
    );
}

#[test]
fn absence_is_told_by_a_failure_only() {
    assert!(runtime_is_absent(&output(
        false,
        b"",
        b"Error from server (NotFound): x"
    )));
    assert!(runtime_is_absent(&output(false, b"", b"runtime not found\xff")));
    assert!(!runtime_is_absent(&output(true, b"", b"not found")));
    assert!(!runtime_is_absent(&output(false, b"not found", b"timeout")));
}

#[test]
fn the_forwarded_port_is_read_back() {
    for port in [0, 1, 80, 40_123, 65_535] {
        assert_eq!(
            parse_forwarded_port(&format!("Forwarding from 127.0.0.1:{port} -> 8443\n")),
            Some(port)
        );
    }
    assert_eq!(
        parse_forwarded_port("Forwarding from [::1]:7 -> 1\r\nForwarding from 127.0.0.1:9\r\n"),
        Some(9)
    );
    assert_eq!(
        parse_forwarded_port("Forwarding from 127.0.0.1:x -> 1\nFrom 127.0.0.1:+8 -> 2"),
        Some(8)
    );
    assert_eq!(parse_forwarded_port("127.0.0.1:65536 -> 1"), None);
    assert_eq!(parse_forwarded_port(""), None);
}
