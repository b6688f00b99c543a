//! The servers that a suite runs next to its cluster: what each of them needs, and where it
//! listens.
use crate::harness::{first_missing, required, Environment};
use crate::text::str_views;
use vstd::prelude::*;

verus! {

/// Who writes pending runtimes on behalf of Steward.
pub const STEWARD_WRITER: &'static str = "system:serviceaccount:steward-system:steward-s3";

/// The values of settings, all of which have to be there, in the order of their names.
fn look_up(environment: &Environment, names: &[&str]) -> (values: Result<Vec<String>, String>)
    ensures
        match first_missing(*environment, str_views(names@), 0) {
            None => values matches Ok(found) && found@.len() == names@.len() && (forall|i: int|
                0 <= i < names@.len() ==> environment.value(#[trigger] names@[i]@) == Some(
                    found@[i]@,
                )),
            Some(name) => values matches Err(words) && words@ == name + " is required"@,
        },
{
    let mut values: Vec<String> = Vec::new();
    let mut i: usize = 0;
    while i < names.len()
        invariant
            i <= names.len(),
            values@.len() == i,
            forall|j: int|
                0 <= j < i ==> environment.value(#[trigger] names@[j]@) == Some(values@[j]@),
            first_missing(*environment, str_views(names@), 0) == first_missing(
                *environment,
                str_views(names@),
                i as int,
            ),
        decreases names.len() - i,
    {
        assert(str_views(names@)[i as int] == names@[i as int]@);
        match required(names[i], environment.get(names[i])) {
            Ok(value) => values.push(value),
            Err(words) => return Err(words),
        }
        i = i + 1;
    }
    Ok(values)
}

/// The value of a setting, or another one where it is not there.
pub open spec fn value_or(environment: Environment, name: Seq<char>, other: Seq<char>) -> Seq<
    char,
> {
    match environment.value(name) {
        Some(value) => value,
        None => other,
    }
}

/// The value of a setting, or another one where it is not there.
fn setting_or(environment: &Environment, name: &str, other: &str) -> (value: String)
    ensures
        value@ == value_or(*environment, name@, other@),
{
    match environment.get(name) {
        Some(value) => value,
        None => other.to_owned(),
    }
}

/// What the server needs that admits runtimes for one person and one administrator.
pub struct AdmissionServer {
    pub database_url: String,
    pub actor: String,
    pub member_role: String,
    pub admin: String,
    pub certificate_path: String,
    pub private_key_path: String,
    pub bind: String,
}

/// The settings that the server needs that admits runtimes, in the order in which it looks.
pub open spec fn admission_needs() -> Seq<Seq<char>> {
    seq![
        "STEWARD_TEST_DATABASE_URL"@,
        "STEWARD_TEST_ACTOR"@,
        "STEWARD_TEST_MEMBER_ROLE"@,
        "STEWARD_TEST_ADMIN"@,
        "STEWARD_TEST_TLS_CERT_DER"@,
        "STEWARD_TEST_TLS_KEY_DER"@,
    ]
}

/// Makes the server ready that admits runtimes, or says what it misses.
pub fn admission_server(environment: &Environment) -> (server: Result<AdmissionServer, String>)
    ensures
        match first_missing(*environment, admission_needs(), 0) {
            Some(name) => server matches Err(words) && words@ == name + " is required"@,
            None => {
                &&& server matches Ok(ready)
                &&& environment.value("STEWARD_TEST_DATABASE_URL"@) == Some(ready.database_url@)
                &&& environment.value("STEWARD_TEST_ACTOR"@) == Some(ready.actor@)
                &&& environment.value("STEWARD_TEST_MEMBER_ROLE"@) == Some(ready.member_role@)
                &&& environment.value("STEWARD_TEST_ADMIN"@) == Some(ready.admin@)
                &&& environment.value("STEWARD_TEST_TLS_CERT_DER"@) == Some(
                    ready.certificate_path@,
                )
                &&& environment.value("STEWARD_TEST_TLS_KEY_DER"@) == Some(
                    ready.private_key_path@,
                )
                &&& ready.bind@ == value_or(
                    *environment,
                    "STEWARD_TEST_HTTP_BIND"@,
                    "0.0.0.0:8080"@,
                )
            },
        },
{
    let names: [&str; 6] = [
        "STEWARD_TEST_DATABASE_URL",
        "STEWARD_TEST_ACTOR",
        "STEWARD_TEST_MEMBER_ROLE",
        "STEWARD_TEST_ADMIN",
        "STEWARD_TEST_TLS_CERT_DER",
        "STEWARD_TEST_TLS_KEY_DER",
    ];
    assert(str_views(names@) =~= admission_needs());
    let values = match look_up(environment, &names) {
        Ok(values) => values,
        Err(words) => return Err(words),
    };
    assert(names@[0]@ == "STEWARD_TEST_DATABASE_URL"@);
    assert(names@[1]@ == "STEWARD_TEST_ACTOR"@);
    assert(names@[2]@ == "STEWARD_TEST_MEMBER_ROLE"@);
    assert(names@[3]@ == "STEWARD_TEST_ADMIN"@);
    assert(names@[4]@ == "STEWARD_TEST_TLS_CERT_DER"@);
    assert(names@[5]@ == "STEWARD_TEST_TLS_KEY_DER"@);
    Ok(
        AdmissionServer {
            database_url: values[0].clone(),
            actor: values[1].clone(),
            member_role: values[2].clone(),
            admin: values[3].clone(),
            certificate_path: values[4].clone(),
            private_key_path: values[5].clone(),
            bind: setting_or(environment, "STEWARD_TEST_HTTP_BIND", "0.0.0.0:8080"),
        },
    )
}

/// How decisions are asked for in Jira.
pub struct JiraConfig {
    pub base_url: String,
    pub project_key: String,
    pub account_email: String,
    pub token: String,
}

/// What the server needs that admits runtimes and has decisions made in Jira.
pub struct DecisionServer {
    pub database_url: String,
    pub certificate_path: String,
    pub private_key_path: String,
    pub bind: String,
    pub controller_username: String,
    pub jira_bind: String,
    pub jira: JiraConfig,
}

/// The settings that the server needs that has decisions made in Jira, in the order in which it
/// looks.
pub open spec fn decision_needs() -> Seq<Seq<char>> {
    seq![
        "STEWARD_TEST_DATABASE_URL"@,
        "STEWARD_TEST_TLS_CERT_DER"@,
        "STEWARD_TEST_TLS_KEY_DER"@,
    ]
}

/// Makes the server ready that has decisions made in Jira, or says what it misses.
pub fn decision_server(environment: &Environment) -> (server: Result<DecisionServer, String>)
    ensures
        match first_missing(*environment, decision_needs(), 0) {
            Some(name) => server matches Err(words) && words@ == name + " is required"@,
            None => {
                &&& server matches Ok(ready)
                &&& environment.value("STEWARD_TEST_DATABASE_URL"@) == Some(ready.database_url@)
                &&& environment.value("STEWARD_TEST_TLS_CERT_DER"@) == Some(
                    ready.certificate_path@,
                )
                &&& environment.value("STEWARD_TEST_TLS_KEY_DER"@) == Some(
                    ready.private_key_path@,
                )
                &&& ready.bind@ == value_or(
                    *environment,
                    "STEWARD_TEST_HTTP_BIND"@,
                    "0.0.0.0:8080"@,
                )
                &&& ready.controller_username@ == STEWARD_WRITER@
                &&& ready.jira_bind@ == value_or(
                    *environment,
                    "STEWARD_TEST_JIRA_BIND"@,
                    "0.0.0.0:8081"@,
                )
                &&& ready.jira.base_url@ == value_or(
                    *environment,
                    "STEWARD_TEST_JIRA_URL"@,
                    "http://127.0.0.1:8081"@,
                )
                &&& ready.jira.project_key@ == "PROJ"@
                &&& ready.jira.account_email@ == "jira-bot@example.com"@
                &&& ready.jira.token@ == "obviously-fake-test-token"@
            },
        },
{
    let names: [&str; 3] = [
        "STEWARD_TEST_DATABASE_URL",
        "STEWARD_TEST_TLS_CERT_DER",
        "STEWARD_TEST_TLS_KEY_DER",
    ];
    assert(str_views(names@) =~= decision_needs());
    let values = match look_up(environment, &names) {
        Ok(values) => values,
        Err(words) => return Err(words),
    };
    assert(names@[0]@ == "STEWARD_TEST_DATABASE_URL"@);
    assert(names@[1]@ == "STEWARD_TEST_TLS_CERT_DER"@);
    assert(names@[2]@ == "STEWARD_TEST_TLS_KEY_DER"@);
    Ok(
        DecisionServer {
            database_url: values[0].clone(),
            certificate_path: values[1].clone(),
            private_key_path: values[2].clone(),
            bind: setting_or(environment, "STEWARD_TEST_HTTP_BIND", "0.0.0.0:8080"),
            controller_username: STEWARD_WRITER.to_owned(),
            jira_bind: setting_or(environment, "STEWARD_TEST_JIRA_BIND", "0.0.0.0:8081"),
            jira: JiraConfig {
                base_url: setting_or(environment, "STEWARD_TEST_JIRA_URL", "http://127.0.0.1:8081"),
                project_key: "PROJ".to_owned(),
                account_email: "jira-bot@example.com".to_owned(),
                token: "obviously-fake-test-token".to_owned(),
            },
        },
    )
}

/// What the server needs that judges the requests of a controller.
pub struct WebhookServer {
    pub database_url: String,
    pub controller_username: String,
    pub certificate_path: String,
    pub private_key_path: String,
    pub bind: String,
}

/// The settings that the server needs that judges the requests of a controller, in the order in
/// which it looks.
pub open spec fn webhook_needs() -> Seq<Seq<char>> {
    seq![
        "STEWARD_TEST_DATABASE_URL"@,
        "STEWARD_TEST_CONTROLLER_USERNAME"@,
        "STEWARD_TEST_TLS_CERT_DER"@,
        "STEWARD_TEST_TLS_KEY_DER"@,
    ]
}

/// Makes the server ready that judges the requests of a controller, or says what it misses.
pub fn webhook_server(environment: &Environment) -> (server: Result<WebhookServer, String>)
    ensures
        match first_missing(*environment, webhook_needs(), 0) {
            Some(name) => server matches Err(words) && words@ == name + " is required"@,
            None => {
                &&& server matches Ok(ready)
                &&& environment.value("STEWARD_TEST_DATABASE_URL"@) == Some(ready.database_url@)
                &&& environment.value("STEWARD_TEST_CONTROLLER_USERNAME"@) == Some(
                    ready.controller_username@,
                )
                &&& environment.value("STEWARD_TEST_TLS_CERT_DER"@) == Some(
                    ready.certificate_path@,
                )
                &&& environment.value("STEWARD_TEST_TLS_KEY_DER"@) == Some(
                    ready.private_key_path@,
                )
                &&& ready.bind@ == value_or(
                    *environment,
                    "STEWARD_TEST_HTTP_BIND"@,
                    "0.0.0.0:8443"@,
                )
            },
        },
{
    let names: [&str; 4] = [
        "STEWARD_TEST_DATABASE_URL",
        "STEWARD_TEST_CONTROLLER_USERNAME",
        "STEWARD_TEST_TLS_CERT_DER",
        "STEWARD_TEST_TLS_KEY_DER",
    ];
    assert(str_views(names@) =~= webhook_needs());
    let values = match look_up(environment, &names) {
        Ok(values) => values,
        Err(words) => return Err(words),
    };
    assert(names@[0]@ == "STEWARD_TEST_DATABASE_URL"@);
    assert(names@[1]@ == "STEWARD_TEST_CONTROLLER_USERNAME"@);
    assert(names@[2]@ == "STEWARD_TEST_TLS_CERT_DER"@);
    assert(names@[3]@ == "STEWARD_TEST_TLS_KEY_DER"@);
    Ok(
        WebhookServer {
            database_url: values[0].clone(),
            controller_username: values[1].clone(),
            certificate_path: values[2].clone(),
            private_key_path: values[3].clone(),
            bind: setting_or(environment, "STEWARD_TEST_HTTP_BIND", "0.0.0.0:8443"),
        },
    )
}

} // verus!
