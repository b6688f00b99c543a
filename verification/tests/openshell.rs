use steward_harness::harness::Environment;
use steward_harness::openshell::{
    assert_kata_runtime, delete, delete_sandbox, ensure, payload_is_kept, pinned_release, required,
    required_path, run, runtime_class_arguments, valid_config, wait_running, SandboxObservation,
    SandboxWait,
};
use steward_harness::probe::ProcessOutput;

const NAMES: [&str; 9] = [
    "STEWARD_OPENSHELL_ENDPOINT",
    "STEWARD_OPENSHELL_CA_CERTIFICATE_FILE",
    "STEWARD_OPENSHELL_CLIENT_CERTIFICATE_FILE",
    "STEWARD_OPENSHELL_CLIENT_PRIVATE_KEY_FILE",
    "STEWARD_WORKLOAD_EXCHANGE_ENDPOINT",
    "STEWARD_WORKLOAD_EXCHANGE_SERVER_NAME",
    "STEWARD_WORKLOAD_EXCHANGE_CA_CERTIFICATE_FILE",
    "STEWARD_WORKLOAD_SOURCE_CREDENTIAL_FILE",
    "STEWARD_OPENSHELL_SERVER_NAME",
];

fn output(success: bool, stdout: &[u8], stderr: &[u8]) -> ProcessOutput {
    ProcessOutput {
        success,
        stdout: stdout.to_vec(),
        stderr: stderr.to_vec(),
    }
}

fn failure(wait: SandboxWait) -> String {
    match wait {
        SandboxWait::Failed(words) => words,
        _ => panic!("the wait did not fail"),
    }
}

#[test]
fn settings_come_from_the_openshell_harness() {
    assert_eq!(required("A", Some("b".to_owned())), Ok("b".to_owned()));
    assert_eq!(
        required_path("A", None),
        Err("A is required from the ephemeral OpenShell harness".to_owned())
    );
    assert_eq!(pinned_release("v0.0.98"), Ok(()));
    assert_eq!(
        pinned_release("v0.0.99"),
        Err("adapter integration requires OpenShell v0.0.98".to_owned())
    );
}

#[test]
fn a_connection_has_all_its_settings() {
    let mut environment = Environment {
        variables: Vec::new(),
    };
    for (count, name) in NAMES.iter().enumerate() {
        match valid_config(&environment) {
            Ok(_) => panic!("a setting is missing"),
            Err(words) => assert_eq!(
                words,
                format!("{name} is required from the ephemeral OpenShell harness")
            ),
        }
        environment
            .variables
            .push(((*name).to_owned(), format!("value {count}")));
    }
    environment.variables.push((
        "STEWARD_OPENSHELL_RUNTIME_CLASS_NAME".to_owned(),
        "runc".to_owned(),
    ));
    match valid_config(&environment) {
        Ok(config) => {
            assert_eq!(config.endpoint, "value 0");
            assert_eq!(config.ca_certificate_file, "value 1");
            assert_eq!(config.client_certificate_file, "value 2");
            assert_eq!(config.client_private_key_file, "value 3");
            assert_eq!(config.workload_exchange_endpoint, "value 4");
            assert_eq!(config.workload_exchange_server_name, "value 5");
            assert_eq!(config.workload_exchange_ca_certificate_file, "value 6");
            assert_eq!(config.workload_source_credential_file, "value 7");
            assert_eq!(config.server_name, "value 8");
            assert_eq!(config.runtime_class_name, "kata-qemu");
        }
        Err(words) => panic!("{}", words),
    }
}

#[test]
fn a_failed_process_is_told_by_what_it_was_to_do() {
    assert_eq!(run(&output(true, b"", b"warning"), "upload"), Ok(()));
    assert_eq!(
        run(&output(false, b"", b" full \n"), "upload"),
        Err("upload failed: full".to_owned())
    );
}

#[test]
fn sandboxes_run_in_the_kata_class() {
    assert_eq!(
        runtime_class_arguments("/k", "c", "w", "s"),
        vec![
            "--kubeconfig",
            "/k",
            "--context",
            "c",
            "-n",
            "openshell",
            "get",
            "sandboxes.agents.x-k8s.io",
            "--selector",
            "openshell.ai/sandbox-workspace=w,openshell.ai/sandbox-name=s",
            "-o",
            "jsonpath={.items[0].spec.podTemplate.spec.runtimeClassName}"
        ]
    );
    assert_eq!(assert_kata_runtime(output(true, b" kata-qemu\n", b"")), Ok(()));
    assert_eq!(
        assert_kata_runtime(output(true, b"runc\n", b"")),
        Err("OpenShell created runtime class \"runc\", expected kata-qemu".to_owned())
    );
    assert_eq!(
        assert_kata_runtime(output(false, b"kata-qemu", b"denied\n")),
        Err("sandbox runtime-class lookup failed: denied".to_owned())
    );
    assert_eq!(
        assert_kata_runtime(output(true, b"\xff", b"")),
        Err("sandbox runtime class was not UTF-8".to_owned())
    );
}

#[test]
fn the_double_runs_at_once() {
    match ensure("a") {
        SandboxObservation::Running { refs } => {
            assert_eq!(refs.workspace.as_deref(), Some("workspace-a"));
            assert_eq!(refs.sandbox.as_deref(), Some("sandbox-a"));
            assert_eq!(refs.litellm_key, None);
        }
        _ => panic!("the sandbox does not run"),
    }
    assert!(matches!(delete(), SandboxObservation::Absent));
}

#[test]
fn a_sandbox_is_waited_for() {
    match wait_running(Ok(ensure("a")), true) {
        SandboxWait::Ready(refs) => assert_eq!(refs.sandbox.as_deref(), Some("sandbox-a")),
        _ => panic!("the sandbox runs"),
    }
    assert!(matches!(
        wait_running(Ok(SandboxObservation::Provisioning), false),
        SandboxWait::Again
    ));
    assert_eq!(
        failure(wait_running(Ok(SandboxObservation::Provisioning), true)),
        "OpenShell sandbox did not become Ready within 600 seconds"
    );
    assert_eq!(
        failure(wait_running(Ok(SandboxObservation::Absent), false)),
        "OpenShell returned Absent while ensuring a sandbox"
    );
    assert_eq!(
        failure(wait_running(Err("down".to_owned()), false)),
        "OpenShell ensure failed: down"
    );
}

#[test]
fn the_end_of_a_sandbox_is_waited_for() {
    assert!(matches!(
        delete_sandbox(Ok(SandboxObservation::Absent), true),
        SandboxWait::Gone
    ));
    assert!(matches!(
        delete_sandbox(Ok(SandboxObservation::Provisioning), false),
        SandboxWait::Again
    ));
    assert_eq!(
        failure(delete_sandbox(Ok(ensure("a")), true)),
        "OpenShell sandbox deletion did not complete within 300 seconds"
    );
    assert_eq!(
        failure(delete_sandbox(Err("down".to_owned()), false)),
        "OpenShell delete failed: down"
    );
}

#[test]
fn payloads_are_compared_by_digest() {
    assert_eq!(payload_is_kept(b"abc", b"abc"), Ok(()));
    assert_eq!(
        payload_is_kept(b"abc", b"abd"),
        Err("copied output must have the same SHA-256 as the uploaded input".to_owned())
    );
}
