use steward_harness::connections::PortError;
use steward_harness::orchestration::{
    current_work, disposable_execution_binding, insert_task_projection_fixture,
    unidentified_binding, AmbiguousTaskRuntime, TaskObservation,
};
use steward_harness::task_store::stand_in;

fn reason(outcome: Result<TaskObservation, PortError>) -> String {
    match outcome {
        Err(PortError::Failed { reason }) => reason,
        _ => panic!("the port did not fail"),
    }
}

#[test]
fn the_reply_to_every_start_is_lost() {
    let mut runtime = AmbiguousTaskRuntime::new();
    for starts in 1..4 {
        assert_eq!(reason(runtime.start_task()), "execution start response was lost");
        assert_eq!(runtime.starts, starts);
    }
}

#[test]
fn one_look_fails_where_that_is_armed() {
    let mut runtime = AmbiguousTaskRuntime::new();
    runtime.fail_next_observation = true;
    assert_eq!(
        reason(runtime.observe_task("attempt")),
        "temporary observation transport failure"
    );
    assert!(matches!(
        runtime.observe_task("attempt"),
        Ok(TaskObservation::Absent)
    ));
    runtime.terminal_observed = true;
    match runtime.observe_task("attempt") {
        Ok(TaskObservation::Failed {
            adapter_observation_id,
            reason,
        }) => {
            assert_eq!(adapter_observation_id, "attempt");
            assert_eq!(reason, "late durable process exit");
        }
        _ => panic!("the Task has failed"),
    }
    match runtime.cancel_task() {
        TaskObservation::OutcomeUnknown { reason } => {
            assert_eq!(reason, "attempt-scoped cancellation is unprovable")
        }
        _ => panic!("the outcome is unknown"),
    }
}

#[test]
fn the_first_work_of_a_task_is_current() {
    let due = vec![[1; 16], [2; 16], [2; 16]];
    assert_eq!(current_work(&due, &[2; 16]), Ok(1));
    assert_eq!(
        current_work(&due, &[3; 16]),
        Err("Task orchestration work item is not due".to_owned())
    );
}

#[test]
fn a_copy_is_made_from_one_task() {
    assert_eq!(insert_task_projection_fixture(1), Ok(()));
    for inserted in [0, 2] {
        assert_eq!(
            insert_task_projection_fixture(inserted),
            Err("projection fixture source Task is absent".to_owned())
        );
    }
}

#[test]
fn a_binding_is_identified_by_its_content() {
    let unidentified = unidentified_binding("binding/v1");
    assert_eq!(unidentified.binding_id, stand_in("0"));
    assert_eq!(unidentified.binding_digest, stand_in("0"));
    let binding = disposable_execution_binding("binding/v1", b"abc");
    assert_eq!(
        binding.binding_id,
        "sha256:ba7816bf8f01cfea414140de5dae2223b00361a396177a9cb410ff61f20015ad"
    );
    assert_eq!(binding.binding_id, binding.binding_digest);
    assert_eq!(
        binding.image,
        format!("registry.example.test/agents/example@sha256:{}", "a".repeat(64))
    );
    assert_eq!(binding.schema_version, "binding/v1");
    assert!(binding.display_name.is_none());
    assert_eq!(binding.agent_ref, "example-agent@1");
    assert_eq!(binding.executable, "/opt/example/bin/example-agent");
    assert_eq!(binding.probe_arguments, vec!["--version"]);
    assert_eq!(binding.expected_stdout, "example-agent 1");
}
