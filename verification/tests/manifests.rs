use steward_harness::envelopes::AdmissionDecision;
use steward_harness::harness::Suite;
use steward_harness::manifests::{
    call_file_contents, call_tool, manifest_bytes, manifest_file, write_composed_runtime,
    write_granted_runtime, write_long_running_runtime, write_priced_runtime,
    write_revoked_runtime, write_runtime, write_runtime_manifest, write_service_runtime,
};

const AUTHORITY: &str = "{\"actingUserId\":\"usr_0123456789abcdef0123456789abcdef\",\
    \"ownerUserId\":\"usr_0123456789abcdef0123456789abcdef\",\
    \"schemaVersion\":\"steward/canonical-authority-binding/v1\"}";

#[test]
fn manifests_have_their_files() {
    for (suite, file) in [
        (Suite::S0, "e2e-s0-runtime.json"),
        (Suite::S1, "e2e-s1-a.json"),
        (Suite::S2, "e2e-s2-a.json"),
        (Suite::S3, "a"),
        (Suite::S4, "a.json"),
        (Suite::S5, "e2e-s5-runtime.json"),
        (Suite::Connections, "governed-connections-a.json"),
    ] {
        assert_eq!(manifest_file(suite, "a"), file);
    }
}

#[test]
fn the_written_manifest_is_json() {
    let written = write_runtime_manifest("agents.apelogic.ai/v1alpha1");
    let value: serde_json::Value = serde_json::from_str(&written).unwrap();
    assert_eq!(
        value.to_string(),
        "{\"apiVersion\":\"agents.apelogic.ai/v1alpha1\",\"kind\":\"AgentRuntime\",\
         \"metadata\":{\"name\":\"runtime-a\",\"namespace\":\"team-a\"},\
         \"spec\":{\"agentType\":{\"name\":\"base\"},\
         \"budget\":{\"currency\":\"USD\",\"monthlyLimit\":\"1.00\"},\"llms\":[],\
         \"owner\":\"alice@example.com\",\
         \"principal\":{\"actingUser\":\"alice@example.com\",\"kind\":\"user\"},\
         \"tools\":[],\"ttl\":\"1h\"}}"
    );
}

#[test]
fn a_personal_runtime_is_bound_to_its_person() {
    let value = write_runtime("v1", "ns", "a", "alice@example.com", true).unwrap();
    assert_eq!(
        value.to_string(),
        format!(
            "{{\"apiVersion\":\"v1\",\"kind\":\"AgentRuntime\",\
             \"metadata\":{{\"name\":\"a\",\"namespace\":\"ns\"}},\
             \"spec\":{{\"agentType\":{{\"name\":\"base\"}},\
             \"budget\":{{\"currency\":\"USD\",\"monthlyLimit\":\"1.00\"}},\
             \"canonicalAuthority\":{AUTHORITY},\"llms\":[],\
             \"owner\":\"alice@example.com\",\
             \"principal\":{{\"actingUser\":\"alice@example.com\",\"kind\":\"user\"}},\
             \"tools\":[{{\"action\":\"read\",\"provider\":\"github\",\
             \"resource\":\"search_repositories\"}}],\"ttl\":\"1h\"}}}}"
        )
    );
    let value = write_runtime("v1", "ns", "a", "bob@example.org", false).unwrap();
    assert_eq!(value["spec"]["tools"].to_string(), "[]");
    assert_eq!(value["spec"]["owner"], "bob@example.org");
    assert_eq!(
        write_runtime("v1", "ns", "a", "carol@example.net", false)
            .err()
            .unwrap(),
        "S1 fixture has no canonical authority for acting user carol@example.net"
    );
}

#[test]
fn a_service_runs_for_a_person_or_for_nobody() {
    let value = write_service_runtime("v1", "ns", "a", "svc", Some("alice@example.com")).unwrap();
    assert_eq!(
        value["metadata"]["annotations"]["agents.apelogic.ai/service-principal"],
        "svc"
    );
    assert_eq!(
        value["spec"]["principal"].to_string(),
        "{\"actingUser\":\"alice@example.com\",\"kind\":\"service\",\"name\":\"svc\"}"
    );
    assert_eq!(value["spec"]["canonicalAuthority"].to_string(), AUTHORITY);
    let value = write_service_runtime("v1", "ns", "a", "svc", None).unwrap();
    assert_eq!(
        value["spec"]["principal"].to_string(),
        "{\"kind\":\"service\",\"name\":\"svc\"}"
    );
    assert!(value["spec"]["canonicalAuthority"].is_null());
    assert!(value["spec"].get("canonicalAuthority").is_some());
    assert_eq!(value["spec"]["owner"], "alice@example.com");
    assert!(write_service_runtime("v1", "ns", "a", "svc", Some("carol@example.net")).is_err());
}

#[test]
fn engineers_run_with_models() {
    let value = write_priced_runtime("a", "priced-model", "5.00", "2h");
    assert_eq!(
        value["metadata"]["annotations"]["agents.apelogic.ai/member-role"],
        "engineer"
    );
    assert_eq!(value["apiVersion"], "agents.apelogic.ai/v1alpha1");
    assert_eq!(
        value["spec"]["llms"].to_string(),
        "[{\"model\":\"priced-model\",\"provider\":\"openai\"}]"
    );
    assert_eq!(value["spec"]["budget"]["monthlyLimit"], "5.00");
    assert_eq!(value["spec"]["ttl"], "2h");
    assert!(value["spec"].get("canonicalAuthority").is_none());
    let value = write_composed_runtime("7.00");
    assert!(value["metadata"].get("annotations").is_none());
    assert_eq!(value["metadata"]["name"], "runtime-a");
    assert_eq!(value["spec"]["budget"]["monthlyLimit"], "7.00");
    let value = write_granted_runtime("a", "bob@example.org", "8.00");
    assert_eq!(value["spec"]["owner"], "bob@example.org");
    assert_eq!(value["spec"]["llms"][0]["model"], "model-a");
    let value = write_revoked_runtime();
    assert_eq!(value["metadata"]["name"], "runtime-revocation");
    assert_eq!(value["spec"]["tools"][0]["resource"], "search_repositories");
}

#[test]
fn a_long_running_runtime_has_to_be_admitted() {
    let write = |decision| {
        write_long_running_runtime(
            "v1",
            "ns",
            "a",
            "usr_a",
            "alice@example.com",
            "engineer",
            decision,
            "Reject",
        )
    };
    let value = write(Ok(AdmissionDecision::Admit)).unwrap();
    assert_eq!(value["spec"]["canonicalAuthority"]["ownerUserId"], "usr_a");
    assert_eq!(value["spec"]["tools"][0]["resource"], "get_file_contents");
    assert_eq!(
        write(Ok(AdmissionDecision::Reject { deltas: Vec::new() }))
            .err()
            .unwrap(),
        "long-running runtime did not pass Steward admission: Reject"
    );
    assert_eq!(
        write(Err("no".to_owned())).err().unwrap(),
        "evaluate long-running runtime: no"
    );
}

#[test]
fn manifests_are_written_line_by_line() {
    let value: serde_json::Value = serde_json::from_str("{\"b\":[1],\"a\":{}}").unwrap();
    assert_eq!(
        manifest_bytes(&value),
        b"{\n  \"a\": {},\n  \"b\": [\n    1\n  ]\n}".to_vec()
    );
}

#[test]
fn tools_are_called_by_name() {
    assert_eq!(
        call_tool("search_repositories"),
        "{\"id\":1,\"jsonrpc\":\"2.0\",\"method\":\"tools/call\",\
         \"params\":{\"arguments\":{},\"name\":\"search_repositories\"}}"
    );
    assert_eq!(
        call_file_contents(),
        "{\"id\":1,\"jsonrpc\":\"2.0\",\"method\":\"tools/call\",\
         \"params\":{\"arguments\":{\"owner\":\"example-org\",\"path\":\"README.md\",\
         \"repo\":\"fixture\"},\"name\":\"get_file_contents\"}}"
    );
}
