use steward_harness::harness::Suite;
use steward_harness::polling::{
    absence_expired, authorized_tool_expired, provider_attachment_expired, status_cache_expired,
    tool_provider_is_attached, wait_authorized_tool_call, wait_for_runtime_field,
    wait_status_cache_cleared, Look, PhaseWait, ToolWait,
};
use steward_harness::probe::ProcessOutput;

fn seen(stdout: &[u8]) -> ProcessOutput {
    ProcessOutput {
        success: true,
        stdout: stdout.to_vec(),
        stderr: Vec::new(),
    }
}

fn unseen() -> ProcessOutput {
    ProcessOutput {
        success: false,
        stdout: b"Running".to_vec(),
        stderr: Vec::new(),
    }
}

fn failure(look: Look) -> String {
    match look {
        Look::Failed(words) => words,
        _ => panic!("the wait did not fail"),
    }
}

#[test]
fn a_phase_is_waited_for() {
    let mut wait = PhaseWait::new(Suite::S0, "ns", "a", "Running");
    assert!(matches!(wait.wait_phase(unseen()), Look::Again));
    assert_eq!(
        wait.expired(),
        "AgentRuntime did not reach Running; last phase was \"\""
    );
    assert!(matches!(wait.wait_phase(seen(b"Pending")), Look::Again));
    assert!(matches!(wait.wait_phase(unseen()), Look::Again));
    assert_eq!(wait.last, "Pending");
    assert!(matches!(wait.wait_phase(seen(b"Failed")), Look::Again));
    assert_eq!(
        wait.expired(),
        "AgentRuntime did not reach Running; last phase was \"Failed\""
    );
    assert!(matches!(wait.wait_phase(seen(b"Running")), Look::Reached));
}

#[test]
fn some_suites_give_up_on_a_failed_runtime() {
    let mut wait = PhaseWait::new(Suite::S1, "ns", "a", "Running");
    assert_eq!(
        failure(wait.wait_phase(seen(b"Failed"))),
        "AgentRuntime ns/a reached Failed while waiting for Running"
    );
    let mut wait = PhaseWait::new(Suite::S2, "ns", "a", "Running");
    assert_eq!(
        failure(wait.wait_phase(seen(b"Failed"))),
        "a reached Failed while waiting for Running"
    );
    let mut wait = PhaseWait::new(Suite::Connections, "ns", "a", "Running");
    assert_eq!(
        failure(wait.wait_phase(seen(b"Failed"))),
        "AgentRuntime ns/a failed"
    );
    assert_eq!(
        wait.expired(),
        "AgentRuntime ns/a did not reach Running; last=\"Failed\""
    );
    let mut wait = PhaseWait::new(Suite::S5, "ns", "a", "Failed");
    assert!(matches!(wait.wait_phase(seen(b"Failed")), Look::Reached));
    let mut wait = PhaseWait::new(Suite::S1, "ns", "a", "Failed");
    assert!(matches!(wait.wait_phase(seen(b"Failed")), Look::Reached));
    assert_eq!(
        failure(wait.wait_phase(seen(b"\xff"))),
        "invalid utf-8 sequence of 1 bytes from index 0"
    );
}

#[test]
fn deletion_that_takes_too_long_is_told() {
    assert_eq!(
        absence_expired(Suite::S5),
        "TTL termination did not delete the runtime"
    );
    assert_eq!(
        absence_expired(Suite::S0),
        "AgentRuntime deletion did not complete"
    );
}

#[test]
fn a_status_cache_is_cleared_field_by_field() {
    let mut last = String::new();
    assert!(matches!(
        wait_status_cache_cleared(seen(b"stale:"), &mut last),
        Look::Again
    ));
    assert!(matches!(
        wait_status_cache_cleared(unseen(), &mut last),
        Look::Again
    ));
    assert_eq!(
        status_cache_expired(&last),
        "reconcile did not clear stale status cache fields; last value was \"stale:\""
    );
    assert_eq!(
        failure(wait_status_cache_cleared(seen(b"\xff"), &mut last)),
        "invalid utf-8 sequence of 1 bytes from index 0"
    );
    assert_eq!(last, "stale:");
    assert!(matches!(
        wait_status_cache_cleared(seen(b":"), &mut last),
        Look::Reached
    ));
}

#[test]
fn a_tool_is_called_until_it_answers() {
    let mut wait = ToolWait::new(Suite::S1, "ns", "a", "fix\"ture");
    assert_eq!(
        wait.expired(),
        "tool call for ns/a did not contain \"fix\\\"ture\"; last result: tool call was not attempted"
    );
    assert!(matches!(
        wait.wait_tool_response(Err("no fix\"ture".to_owned())),
        Look::Again
    ));
    assert_eq!(wait.last, "no fix\"ture");
    assert!(matches!(
        wait.wait_tool_response(Ok("pending".to_owned())),
        Look::Again
    ));
    assert_eq!(
        wait.expired(),
        "tool call for ns/a did not contain \"fix\\\"ture\"; last result: pending"
    );
    assert!(matches!(
        wait.wait_tool_response(Ok("a fix\"ture.".to_owned())),
        Look::Reached
    ));
}

#[test]
fn connections_tell_of_a_tool_in_their_own_words() {
    let mut wait = ToolWait::new(Suite::Connections, "ns", "a", "fixture");
    assert_eq!(
        wait.expired(),
        "tool result for ns/a did not contain \"fixture\"; last="
    );
    assert!(matches!(
        wait.wait_tool_response(Ok("pending".to_owned())),
        Look::Again
    ));
    assert_eq!(
        failure(wait.wait_tool_response(Err("no fixture".to_owned()))),
        "no fixture"
    );
    assert_eq!(
        wait.expired(),
        "tool result for ns/a did not contain \"fixture\"; last=pending"
    );
}

#[test]
fn the_attachment_of_a_provider_is_told() {
    assert!(tool_provider_is_attached("NAME\nsteward-mcp-gw-1\n"));
    assert!(!tool_provider_is_attached("NAME\n"));
    assert_eq!(
        provider_attachment_expired("ns", "a", true, false),
        "tool provider attachment for ns/a remained true, expected false"
    );
}

#[test]
fn only_a_token_that_is_not_granted_yet_is_waited_for() {
    assert!(matches!(
        wait_authorized_tool_call("token_grant_failed example-org/fixture-repository"),
        Look::Reached
    ));
    assert!(matches!(
        wait_authorized_tool_call("{\"error\":\"token_grant_failed\"}"),
        Look::Again
    ));
    assert_eq!(
        failure(wait_authorized_tool_call("denied")),
        "the acting user's runtime could not call its authorized tool: denied"
    );
    assert_eq!(
        authorized_tool_expired("late"),
        "the acting user's runtime could not call its authorized tool: late"
    );
}

#[test]
fn a_field_counts_even_when_the_time_is_over() {
    assert!(matches!(
        wait_for_runtime_field("a", ".status.phase", "Running", "Running", true),
        Look::Reached
    ));
    assert!(matches!(
        wait_for_runtime_field("a", ".status.phase", "Running", "Failed", false),
        Look::Again
    ));
    assert_eq!(
        failure(wait_for_runtime_field(
            "a",
            ".status.phase",
            "Running",
            "Failed",
            true
        )),
        "AgentRuntime a field .status.phase did not converge to \"Running\""
    );
}
