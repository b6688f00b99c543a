use steward_harness::harness::Environment;
use steward_harness::servers::{admission_server, decision_server, webhook_server};

fn environment(names: &[(&str, &str)]) -> Environment {
    Environment {
        variables: names
            .iter()
            .map(|(name, value)| ((*name).to_owned(), (*value).to_owned()))
            .collect(),
    }
}

const TLS: [(&str, &str); 3] = [
    ("STEWARD_TEST_DATABASE_URL", "postgres://db"),
    ("STEWARD_TEST_TLS_CERT_DER", "cert.der"),
    ("STEWARD_TEST_TLS_KEY_DER", "key.der"),
];

#[test]
fn the_admission_server_knows_its_people() {
    let mut settings = TLS.to_vec();
    let missing = |settings: &[(&str, &str)]| admission_server(&environment(settings)).err();
    assert_eq!(
        missing(&[]).as_deref(),
        Some("STEWARD_TEST_DATABASE_URL is required")
    );
    assert_eq!(
        missing(&settings).as_deref(),
        Some("STEWARD_TEST_ACTOR is required")
    );
    settings.push(("STEWARD_TEST_ACTOR", "alice@example.com"));
    settings.push(("STEWARD_TEST_MEMBER_ROLE", "engineer"));
    assert_eq!(
        missing(&settings).as_deref(),
        Some("STEWARD_TEST_ADMIN is required")
    );
    settings.push(("STEWARD_TEST_ADMIN", "admin@example.com"));
    let server = admission_server(&environment(&settings)).ok().unwrap();
    assert_eq!(server.database_url, "postgres://db");
    assert_eq!(server.actor, "alice@example.com");
    assert_eq!(server.member_role, "engineer");
    assert_eq!(server.admin, "admin@example.com");
    assert_eq!(server.certificate_path, "cert.der");
    assert_eq!(server.private_key_path, "key.der");
    assert_eq!(server.bind, "0.0.0.0:8080");
    settings.push(("STEWARD_TEST_HTTP_BIND", "127.0.0.1:1"));
    let server = admission_server(&environment(&settings)).ok().unwrap();
    assert_eq!(server.bind, "127.0.0.1:1");
}

#[test]
fn the_decision_server_has_a_jira_at_its_side() {
    let server = decision_server(&environment(&TLS)).ok().unwrap();
    assert_eq!(server.bind, "0.0.0.0:8080");
    assert_eq!(server.jira_bind, "0.0.0.0:8081");
    assert_eq!(
        server.controller_username,
        "system:serviceaccount:steward-system:steward-s3"
    );
    assert_eq!(server.jira.base_url, "http://127.0.0.1:8081");
    assert_eq!(server.jira.project_key, "PROJ");
    assert_eq!(server.jira.account_email, "jira-bot@example.com");
    assert_eq!(server.jira.token, "obviously-fake-test-token");
    assert_eq!(
        decision_server(&environment(&TLS[..2])).err().as_deref(),
        Some("STEWARD_TEST_TLS_KEY_DER is required")
    );
}

#[test]
fn the_webhook_server_judges_one_controller() {
    let mut settings = TLS.to_vec();
    assert_eq!(
        webhook_server(&environment(&settings)).err().as_deref(),
        Some("STEWARD_TEST_CONTROLLER_USERNAME is required")
    );
    settings.push(("STEWARD_TEST_CONTROLLER_USERNAME", "controller"));
    let server = webhook_server(&environment(&settings)).ok().unwrap();
    assert_eq!(server.controller_username, "controller");
    assert_eq!(server.certificate_path, "cert.der");
    assert_eq!(server.bind, "0.0.0.0:8443");
}
