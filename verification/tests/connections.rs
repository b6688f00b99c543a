use steward_harness::connections::{
    assert_bridge_runtime_absent, bridge_config, bridge_refs_expired, broker, callback_request,
    capture_bridge_refs, connection_result, latest_operation, no_new_operation, not_finalized,
    oauth_state, operation_is_finalized, oversized_callback, seed_long_running_envelope, session,
    CallbackReply, InferenceObservation, NoInference, PortError, Reading,
};
use steward_harness::probe::ProcessOutput;
use steward_harness::runtimes::ModelRef;

#[test]
fn the_state_of_an_authorization_is_read_back() {
    assert_eq!(
        oauth_state("https://github.test/authorize?client_id=a&state=abc&scope=repo"),
        Ok("abc")
    );
    assert_eq!(oauth_state("https://github.test/?state=a=b"), Ok("a=b"));
    for url in ["https://github.test/", "x?state=", "x?state=&y=z"] {
        assert_eq!(
            oauth_state(url),
            Err("authorization URL omitted its opaque state".to_owned())
        );
    }
}

#[test]
fn a_failed_operation_is_told_as_such() {
    assert_eq!(connection_result::<u8>(Ok(7)), Ok(7));
    assert_eq!(
        connection_result::<u8>(Err("denied".to_owned())),
        Err("connection operation failed: denied".to_owned())
    );
}

#[test]
fn connections_have_no_inference() {
    let none = NoInference;
    assert!(none.validate_configuration(&Vec::new()).is_ok());
    let models = vec![ModelRef {
        provider: "litellm".to_owned(),
        model: "mock".to_owned(),
    }];
    for outcome in [none.validate_configuration(&models), none.provision()] {
        match outcome {
            Err(PortError::Unsupported { operation }) => {
                assert_eq!(operation, "governed Connections test inference")
            }
            _ => panic!("inference was provided"),
        }
    }
    assert!(none.reconcile_configuration().is_ok());
    assert!(matches!(none.observe(), InferenceObservation::Absent));
    assert!(none.revoke().is_ok());
}

#[test]
fn the_broker_is_bound_to_its_image() {
    let config = broker("sha256:abc", "kata-qemu");
    assert_eq!(config.origin, "https://steward.example.test");
    let bindings = config.bindings;
    assert_eq!(bindings.artifact_trust_mode, None);
    assert_eq!(bindings.bridge_image_digest, "sha256:abc");
    assert_eq!(
        bindings.mcp_gw_origin,
        "http://mcp-gw.steward-system.svc.cluster.local:8080"
    );
    assert_eq!(bindings.mcp_gw_version, "0.3.2");
    assert_eq!(bindings.namespace, "steward-connections");
    assert_eq!(bindings.runtime_class, "kata-qemu");
}

#[test]
fn bridges_speak_to_the_gateway_of_the_broker() {
    let bridge = bridge_config("sha256:abc");
    let bindings = broker("sha256:abc", "kata-qemu").bindings;
    assert!(bridge.full_task_logs);
    assert!(bridge.stable_bridge_image.is_none());
    assert!(bridge.stable_bridge_gateway_origin.is_none());
    assert_eq!(bridge.bridge_image, Some(bindings.bridge_image_digest));
    assert_eq!(bridge.bridge_gateway_origin, Some(bindings.mcp_gw_origin));
    assert_eq!(bridge.bridge_gateway_version, Some(bindings.mcp_gw_version));
    assert_eq!(bridge.bridge_runtime_namespace, Some(bindings.namespace));
    let alice = session("usr_a", "alice@example.com");
    assert_eq!(alice.canonical_user_id, "usr_a");
    assert_eq!(alice.display_email, "alice@example.com");
}

#[test]
fn only_a_valid_envelope_is_seeded() {
    match seed_long_running_envelope("engineer", Ok(())) {
        Ok(seeded) => {
            assert_eq!(seeded.scope_ref, "engineer");
            assert_eq!(seeded.actor, "e2e-admin");
            assert_eq!(seeded.envelope.spec.budget.monthly_limit, "1.00");
        }
        Err(words) => panic!("{}", words),
    }
    assert_eq!(
        seed_long_running_envelope("engineer", Err("no budget".to_owned()))
            .err()
            .as_deref(),
        Some("validate long-running envelope: no budget")
    );
}

#[test]
fn a_new_operation_is_the_newest() {
    let operations = vec!["b".to_owned(), "a".to_owned()];
    assert_eq!(latest_operation(&operations, 1).as_deref(), Some("b"));
    assert_eq!(latest_operation(&operations, 2), None);
    assert_eq!(latest_operation(&Vec::new(), 0), None);
    assert_eq!(latest_operation(&operations, -1).as_deref(), Some("b"));
    assert_eq!(
        no_new_operation("status"),
        "no new status connection operation was durably reserved"
    );
}

#[test]
fn an_operation_ends_with_its_task() {
    assert!(operation_is_finalized(&Some(("finalized".to_owned(), true))));
    assert!(!operation_is_finalized(&Some(("finalized".to_owned(), false))));
    assert!(!operation_is_finalized(&Some(("pending".to_owned(), true))));
    assert!(!operation_is_finalized(&None));
    assert_eq!(not_finalized("id"), "connection operation id did not finalize");
}

fn look(success: bool, stdout: &[u8]) -> ProcessOutput {
    ProcessOutput {
        success,
        stdout: stdout.to_vec(),
        stderr: Vec::new(),
    }
}

#[test]
fn the_references_of_a_bridge_are_all_there_or_none() {
    assert_eq!(
        capture_bridge_refs(look(true, b"w\ns\r\nu\nmore")),
        Ok(Some(("w".to_owned(), "s".to_owned(), "u".to_owned())))
    );
    assert_eq!(capture_bridge_refs(look(true, b"w\n\nu\n")), Ok(None));
    assert_eq!(capture_bridge_refs(look(true, b"w\ns\n")), Ok(None));
    assert_eq!(capture_bridge_refs(look(false, b"w\ns\nu\n")), Ok(None));
    assert_eq!(
        capture_bridge_refs(look(true, b"\xff")),
        Err("invalid utf-8 sequence of 1 bytes from index 0".to_owned())
    );
    assert_eq!(bridge_refs_expired(), "bridge runtime refs were not observable");
}

#[test]
fn nothing_is_left_of_a_bridge() {
    assert_eq!(assert_bridge_runtime_absent("", "\n", false), Ok(()));
    assert_eq!(
        assert_bridge_runtime_absent("r\n", "s", true),
        Err("governed bridge AgentRuntime survived finalization: r".to_owned())
    );
    assert_eq!(
        assert_bridge_runtime_absent("", "s", true),
        Err("bridge OpenShell sandbox survived finalization: s".to_owned())
    );
    assert_eq!(
        assert_bridge_runtime_absent("", "", true),
        Err("bridge runtime-scoped Secret survived finalization".to_owned())
    );
}

#[test]
fn a_callback_leads_back_connected() {
    assert_eq!(
        callback_request("abc"),
        "GET /oauth/github/callback?code=fixture-code&state=abc HTTP/1.1\r\n\
         Host: localhost\r\nConnection: close\r\n\r\n"
    );
    let mut reply = CallbackReply::new();
    assert!(matches!(
        reply.take_chunk(b"HTTP/1.1 302 Found\r\nLOCATION: https://Steward.example.test/"),
        Reading::More
    ));
    assert!(matches!(
        reply.take_chunk(b"connections#github-connected\r\n\r"),
        Reading::More
    ));
    assert!(matches!(reply.take_chunk(b"\n"), Reading::Complete));
    assert_eq!(reply.callback(), Ok(()));
    let mut reply = CallbackReply::new();
    reply.take_chunk(b"HTTP/1.1 200 OK\r\nlocation: https://steward.example.test/connections#github-connected\r\n\r\n");
    assert_eq!(
        reply.callback(),
        Err("pinned MCP-GW callback did not complete safely".to_owned())
    );
    let mut reply = CallbackReply::new();
    reply.take_chunk(b"HTTP/1.1 302 Found\r\nlocation: https://steward.example.test/connections#failed\r\n\r\n");
    assert!(reply.callback().is_err());
}

#[test]
fn a_callback_is_read_up_to_a_bound() {
    let mut reply = CallbackReply::new();
    let block = vec![b'a'; 32 * 1024];
    assert!(matches!(reply.take_chunk(&block), Reading::More));
    assert!(matches!(reply.take_chunk(b""), Reading::Complete));
    assert!(matches!(reply.take_chunk(b"\r\n\r\n"), Reading::Oversized));
    assert_eq!(
        oversized_callback(),
        "pinned MCP-GW callback response is oversized"
    );
    assert!(reply.callback().is_err());
}
