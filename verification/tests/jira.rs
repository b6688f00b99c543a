use steward_harness::jira::JiraData;

fn value(text: &str) -> serde_json::Value {
    serde_json::from_str(text).unwrap()
}

fn request(marker: &str) -> serde_json::Value {
    value(&format!(
        "{{\"fields\":{{\"labels\":[7,\"steward\",\"{marker}\",\"steward-approval-later\"]}}}}"
    ))
}

#[test]
fn a_request_without_a_marker_makes_no_issue() {
    let mut jira = JiraData::new();
    for body in [
        "{}",
        "{\"fields\":{\"labels\":\"steward-approval-a\"}}",
        "{\"fields\":{\"labels\":[\"steward-approval-\",\"approval-a\",3]}}",
        "[\"steward-approval-a\"]",
    ] {
        let (code, reply) = jira.create_issue(value(body));
        assert_eq!(code, 422);
        assert_eq!(
            reply.to_string(),
            "{\"error\":\"Steward approval marker is required\"}"
        );
    }
    assert_eq!(jira.next_issue, 0);
    assert_eq!(jira.jira_state().to_string(), "{\"issues\":[]}");
}

#[test]
fn a_request_that_is_made_again_gets_its_issue() {
    let mut jira = JiraData::new();
    let (code, reply) = jira.create_issue(request("steward-approval-a"));
    assert_eq!((code, reply.to_string().as_str()), (201, "{\"key\":\"PROJ-123\"}"));
    let (code, reply) = jira.create_issue(request("steward-approval-a"));
    assert_eq!((code, reply.to_string().as_str()), (200, "{\"key\":\"PROJ-123\"}"));
    let (code, reply) = jira.create_issue(request("steward-approval-b"));
    assert_eq!((code, reply.to_string().as_str()), (201, "{\"key\":\"PROJ-124\"}"));
    assert_eq!(jira.next_issue, 2);
    assert_eq!(jira.issues.len(), 2);
    assert_eq!(jira.issues[0].request_marker, "steward-approval-a");
}

#[test]
fn only_a_new_issue_needs_a_number() {
    let mut jira = JiraData::new();
    jira.create_issue(request("steward-approval-a"));
    jira.next_issue = u32::MAX - 122;
    assert_eq!(jira.create_issue(request("steward-approval-a")).0, 200);
    assert_eq!(jira.create_issue(value("{}")).0, 422);
    assert_eq!(jira.create_numbered_issue(value("{}")).unwrap().0, 422);
    assert!(jira
        .create_numbered_issue(request("steward-approval-b"))
        .is_none());
    assert_eq!(jira.issues.len(), 1);
    jira.next_issue = u32::MAX - 123;
    assert_eq!(
        jira.create_numbered_issue(request("steward-approval-b"))
            .unwrap()
            .1
            .to_string(),
        "{\"key\":\"PROJ-4294967295\"}"
    );
}

#[test]
fn a_search_finds_the_issues_whose_request_it_names() {
    let mut jira = JiraData::new();
    jira.create_issue(request("steward-approval-a"));
    jira.create_issue(request("steward-approval-ab"));
    jira.create_issue(request("steward-approval-c"));
    assert_eq!(
        jira.search_issues(Some("labels = \"steward-approval-ab\"")).to_string(),
        "{\"issues\":[{\"key\":\"PROJ-123\"},{\"key\":\"PROJ-124\"}]}"
    );
    assert_eq!(
        jira.search_issues(Some("labels = \"steward-approval-c\"")).to_string(),
        "{\"issues\":[{\"key\":\"PROJ-125\"}]}"
    );
    assert_eq!(jira.search_issues(None).to_string(), "{\"issues\":[]}");
}

#[test]
fn comments_and_transitions_change_their_issue_only() {
    let mut jira = JiraData::new();
    jira.create_issue(request("steward-approval-a"));
    jira.create_issue(request("steward-approval-b"));
    assert_eq!(jira.comment_issue("PROJ-124", value("{\"body\":1}")), 201);
    assert_eq!(jira.comment_issue("PROJ-124", value("{\"body\":2}")), 201);
    assert_eq!(jira.comment_issue("PROJ-125", value("{\"body\":3}")), 404);
    assert_eq!(jira.transition_issue("PROJ-123"), 204);
    assert_eq!(jira.transition_issue("PROJ-123"), 204);
    assert_eq!(jira.transition_issue("PROJ-1"), 404);
    let state = jira.jira_state();
    let body = request("steward-approval-a").to_string();
    assert_eq!(
        state["issues"][0].to_string(),
        format!(
            "{{\"comments\":[],\"createBody\":{body},\"key\":\"PROJ-123\",\
             \"requestMarker\":\"steward-approval-a\",\"transitioned\":true}}"
        )
    );
    assert_eq!(
        state["issues"][1]["comments"].to_string(),
        "[{\"body\":1},{\"body\":2}]"
    );
    assert_eq!(state["issues"][1]["transitioned"], false);
}

#[test]
fn issues_stand_in_the_order_of_their_keys() {
    let mut jira = JiraData::new();
    for number in 0..878 {
        let (code, _) = jira.create_issue(request(&format!("steward-approval-{number}")));
        assert_eq!(code, 201);
    }
    assert_eq!(jira.issues.len(), 878);
    assert_eq!(jira.issues[0].key, "PROJ-1000");
    assert_eq!(jira.issues[1].key, "PROJ-123");
    for pair in jira.issues.windows(2) {
        assert!(pair[0].key < pair[1].key);
    }
}
