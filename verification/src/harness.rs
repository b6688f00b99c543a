//! The harness around an ephemeral cluster: what it needs from its environment, what it tells
//! `kubectl` and `curl`, and what it makes of their replies.
use crate::probe::{outcome_view, ProcessOutput};
use crate::text::{
    concat2, concat3, concat5, contains_text, decimal_digits, decode, decode_lossy, extend,
    first_from, has_prefix, has_text, join, joined_with, lemma_decimal_digits, lemma_first_from,
    lines, lines_from, occurs_at, parse_u16, parted_once, same_text, split_once, starts_with,
    str_views, texts, trim, trimmed, u16_value, utf8_error_text, utf8_lossy, views,
};
use vstd::prelude::*;
use vstd::utf8::*;

verus! {

/// The suites that run on a cluster.
#[derive(PartialEq, Eq, Structural, Clone, Copy)]
pub enum Suite {
    S0,
    S1,
    S2,
    S3,
    S4,
    S5,
    Connections,
}

/// Named settings. Of two with the same name the first counts.
pub struct Environment {
    pub variables: Vec<(String, String)>,
}

/// The value of a setting, looking from the position `from` on.
pub open spec fn value_from(
    variables: Seq<(String, String)>,
    name: Seq<char>,
    from: int,
) -> Option<Seq<char>>
    decreases variables.len() - from,
{
    if from < 0 || from >= variables.len() {
        None
    } else if variables[from].0@ == name {
        Some(variables[from].1@)
    } else {
        value_from(variables, name, from + 1)
    }
}

impl Environment {
    /// The value of a setting.
    pub open spec fn value(&self, name: Seq<char>) -> Option<Seq<char>> {
        value_from(self.variables@, name, 0)
    }

    /// Looks a setting up.
    pub fn get(&self, name: &str) -> (value: Option<String>)
        ensures
            match value {
                Some(found) => self.value(name@) == Some(found@),
                None => self.value(name@) is None,
            },
    {
        let mut i: usize = 0;
        while i < self.variables.len()
            invariant
                i <= self.variables.len(),
                self.value(name@) == value_from(self.variables@, name@, i as int),
            decreases self.variables.len() - i,
        {
            if same_text(self.variables[i].0.as_str(), name) {
                return Some(self.variables[i].1.clone());
            }
            i = i + 1;
        }
        None
    }
}

/// What the name of an ephemeral cluster's context begins with.
pub open spec fn context_prefix(suite: Suite) -> Seq<char> {
    match suite {
        Suite::S3 => "kind-steward-s3-"@,
        Suite::S4 => "kind-steward-s4-"@,
        _ => "kind-steward-"@,
    }
}

/// What is said of a context that is not one of an ephemeral cluster.
pub open spec fn refusal(suite: Suite, context: Seq<char>) -> Seq<char> {
    match suite {
        Suite::S3 => "refusing non-S3 ephemeral kube context: "@ + context,
        Suite::S4 => "refusing non-S4 ephemeral kube context: "@ + context,
        _ => "refusing non-ephemeral kube context: "@ + context,
    }
}

/// Lets a suite run in a context only where its cluster is an ephemeral one.
pub fn ephemeral_context(suite: Suite, context: &str) -> (outcome: Result<(), String>)
    ensures
        outcome_view(outcome) == (if has_prefix(context@, context_prefix(suite)) {
            Ok(())
        } else {
            Err::<(), Seq<char>>(refusal(suite, context@))
        }),
{
    let (prefix, words) = match suite {
        Suite::S3 => ("kind-steward-s3-", "refusing non-S3 ephemeral kube context: "),
        Suite::S4 => ("kind-steward-s4-", "refusing non-S4 ephemeral kube context: "),
        _ => ("kind-steward-", "refusing non-ephemeral kube context: "),
    };
    if starts_with(context, prefix) {
        Ok(())
    } else {
        Err(concat2(words, context))
    }
}

/// What is said of a setting that is missing.
pub open spec fn missing(suite: Suite, name: Seq<char>) -> Seq<char> {
    match suite {
        Suite::Connections => name + " is required"@,
        _ => "environment variable not found"@,
    }
}

/// A setting that has to be there.
pub fn required(name: &str, value: Option<String>) -> (setting: Result<String, String>)
    ensures
        match value {
            Some(found) => setting matches Ok(text) && text@ == found@,
            None => setting matches Err(words) && words@ == name@ + " is required"@,
        },
{
    match value {
        Some(found) => Ok(found),
        None => Err(concat2(name, " is required")),
    }
}

/// What a suite needs besides the name of its context, in the order in which it looks.
pub open spec fn needed(suite: Suite) -> Seq<Seq<char>> {
    match suite {
        Suite::S0 => seq![
            "STEWARD_RUN_DIR"@,
            "STEWARD_CONTROLLER_BIN"@,
            "STEWARD_TEST_KUBECONFIG"@,
        ],
        Suite::S1 => seq![
            "STEWARD_TEST_KUBECONFIG"@,
            "STEWARD_OPENSHELL_CLI"@,
            "STEWARD_RUN_DIR"@,
        ],
        Suite::S2 => seq![
            "STEWARD_TEST_INFERENCE_URL"@,
            "STEWARD_TEST_KUBECONFIG"@,
            "STEWARD_TEST_LITELLM_URL"@,
            "STEWARD_TEST_LITELLM_MASTER_KEY_FILE"@,
            "STEWARD_OPENSHELL_CLI"@,
            "STEWARD_RUN_DIR"@,
        ],
        Suite::S3 => seq![
            "STEWARD_S3_URL"@,
            "STEWARD_TEST_TLS_CA"@,
            "STEWARD_TEST_KUBECONFIG"@,
            "STEWARD_S3_RESOLVE"@,
            "STEWARD_RUN_DIR"@,
        ],
        Suite::S4 => seq![
            "STEWARD_S4_URL"@,
            "STEWARD_TEST_TLS_CA"@,
            "STEWARD_TEST_DATABASE_URL"@,
            "STEWARD_TEST_JIRA_URL"@,
            "STEWARD_TEST_KUBECONFIG"@,
            "STEWARD_S4_RESOLVE"@,
            "STEWARD_RUN_DIR"@,
        ],
        Suite::S5 => seq![
            "STEWARD_POC_URL"@,
            "STEWARD_TEST_CAPTURE_URL"@,
            "STEWARD_TEST_INFERENCE_URL"@,
            "STEWARD_TEST_JIRA_URL"@,
            "STEWARD_TEST_KUBECONFIG"@,
            "STEWARD_TEST_LITELLM_URL"@,
            "STEWARD_TEST_LITELLM_MASTER_KEY_FILE"@,
            "STEWARD_OPENSHELL_CLI"@,
            "STEWARD_POC_RESOLVE"@,
            "STEWARD_RUN_DIR"@,
            "STEWARD_TEST_TLS_CA"@,
            "STEWARD_TEST_TOOL_URL"@,
        ],
        Suite::Connections => seq![
            "STEWARD_CONNECTIONS_TEST_DATABASE_URL"@,
            "STEWARD_CONNECTIONS_TEST_BRIDGE_DIGEST_IMAGE"@,
            "STEWARD_OPENSHELL_ENDPOINT"@,
            "STEWARD_OPENSHELL_CA_CERTIFICATE_FILE"@,
            "STEWARD_OPENSHELL_CLIENT_CERTIFICATE_FILE"@,
            "STEWARD_OPENSHELL_CLIENT_PRIVATE_KEY_FILE"@,
            "STEWARD_WORKLOAD_EXCHANGE_ENDPOINT"@,
            "STEWARD_WORKLOAD_EXCHANGE_SERVER_NAME"@,
            "STEWARD_WORKLOAD_EXCHANGE_CA_CERTIFICATE_FILE"@,
            "STEWARD_WORKLOAD_SOURCE_CREDENTIAL_FILE"@,
            "STEWARD_OPENSHELL_SERVER_NAME"@,
            "STEWARD_OPENSHELL_RUNTIME_CLASS_NAME"@,
            "STEWARD_TEST_KUBECONFIG"@,
            "STEWARD_CONNECTIONS_TEST_MCP_FORWARD"@,
            "STEWARD_OPENSHELL_CLI"@,
            "STEWARD_RUN_DIR"@,
        ],
    }
}

/// What a suite needs besides the name of its context.
fn needed_names(suite: Suite) -> (names: Vec<&'static str>)
    ensures
        str_views(names@) == needed(suite),
{
    let names: Vec<&'static str> = match suite {
        Suite::S0 => vec!["STEWARD_RUN_DIR", "STEWARD_CONTROLLER_BIN", "STEWARD_TEST_KUBECONFIG"],
        Suite::S1 => vec!["STEWARD_TEST_KUBECONFIG", "STEWARD_OPENSHELL_CLI", "STEWARD_RUN_DIR"],
        Suite::S2 => vec![
            "STEWARD_TEST_INFERENCE_URL",
            "STEWARD_TEST_KUBECONFIG",
            "STEWARD_TEST_LITELLM_URL",
            "STEWARD_TEST_LITELLM_MASTER_KEY_FILE",
            "STEWARD_OPENSHELL_CLI",
            "STEWARD_RUN_DIR",
        ],
        Suite::S3 => vec![
            "STEWARD_S3_URL",
            "STEWARD_TEST_TLS_CA",
            "STEWARD_TEST_KUBECONFIG",
            "STEWARD_S3_RESOLVE",
            "STEWARD_RUN_DIR",
        ],
        Suite::S4 => vec![
            "STEWARD_S4_URL",
            "STEWARD_TEST_TLS_CA",
            "STEWARD_TEST_DATABASE_URL",
            "STEWARD_TEST_JIRA_URL",
            "STEWARD_TEST_KUBECONFIG",
            "STEWARD_S4_RESOLVE",
            "STEWARD_RUN_DIR",
        ],
        Suite::S5 => vec![
            "STEWARD_POC_URL",
            "STEWARD_TEST_CAPTURE_URL",
            "STEWARD_TEST_INFERENCE_URL",
            "STEWARD_TEST_JIRA_URL",
            "STEWARD_TEST_KUBECONFIG",
            "STEWARD_TEST_LITELLM_URL",
            "STEWARD_TEST_LITELLM_MASTER_KEY_FILE",
            "STEWARD_OPENSHELL_CLI",
            "STEWARD_POC_RESOLVE",
            "STEWARD_RUN_DIR",
            "STEWARD_TEST_TLS_CA",
            "STEWARD_TEST_TOOL_URL",
        ],
        Suite::Connections => vec![
            "STEWARD_CONNECTIONS_TEST_DATABASE_URL",
            "STEWARD_CONNECTIONS_TEST_BRIDGE_DIGEST_IMAGE",
            "STEWARD_OPENSHELL_ENDPOINT",
            "STEWARD_OPENSHELL_CA_CERTIFICATE_FILE",
            "STEWARD_OPENSHELL_CLIENT_CERTIFICATE_FILE",
            "STEWARD_OPENSHELL_CLIENT_PRIVATE_KEY_FILE",
            "STEWARD_WORKLOAD_EXCHANGE_ENDPOINT",
            "STEWARD_WORKLOAD_EXCHANGE_SERVER_NAME",
            "STEWARD_WORKLOAD_EXCHANGE_CA_CERTIFICATE_FILE",
            "STEWARD_WORKLOAD_SOURCE_CREDENTIAL_FILE",
            "STEWARD_OPENSHELL_SERVER_NAME",
            "STEWARD_OPENSHELL_RUNTIME_CLASS_NAME",
            "STEWARD_TEST_KUBECONFIG",
            "STEWARD_CONNECTIONS_TEST_MCP_FORWARD",
            "STEWARD_OPENSHELL_CLI",
            "STEWARD_RUN_DIR",
        ],
    };
    assert(str_views(names@) =~= needed(suite));
    names
}

/// The first of `names` from the position `from` on that the environment has not.
pub open spec fn first_missing(
    environment: Environment,
    names: Seq<Seq<char>>,
    from: int,
) -> Option<Seq<char>>
    decreases names.len() - from,
{
    if from < 0 || from >= names.len() {
        None
    } else if environment.value(names[from]) is None {
        Some(names[from])
    } else {
        first_missing(environment, names, from + 1)
    }
}

/// What keeps a suite from running in an environment, if something does.
pub open spec fn environment_fault(suite: Suite, environment: Environment) -> Option<Seq<char>> {
    let release = environment.value("STEWARD_OPEN_SHELL_RELEASE"@);
    if suite == Suite::Connections && release is None {
        Some(missing(suite, "STEWARD_OPEN_SHELL_RELEASE"@))
    } else if suite == Suite::Connections && release != Some("v0.0.98"@) {
        Some("governed Connections E2E requires OpenShell v0.0.98"@)
    } else {
        match environment.value("STEWARD_TEST_KUBE_CONTEXT"@) {
            None => Some(missing(suite, "STEWARD_TEST_KUBE_CONTEXT"@)),
            Some(context) => if !has_prefix(context, context_prefix(suite)) {
                Some(refusal(suite, context))
            } else {
                match first_missing(environment, needed(suite), 0) {
                    Some(name) => Some(missing(suite, name)),
                    None => None,
                }
            },
        }
    }
}

/// A suite in an environment that has what it needs.
pub struct Harness {
    pub suite: Suite,
    pub environment: Environment,
}

/// What is said of a setting that is missing.
pub(crate) fn missing_words(suite: Suite, name: &str) -> (words: String)
    ensures
        words@ == missing(suite, name@),
{
    if suite == Suite::Connections {
        concat2(name, " is required")
    } else {
        "environment variable not found".to_owned()
    }
}

impl Harness {
    /// The environment has what the suite needs, and its cluster is an ephemeral one.
    pub open spec fn well_formed(&self) -> bool {
        environment_fault(self.suite, self.environment) is None
    }

    /// The value of a setting that the environment has.
    pub open spec fn setting(&self, name: Seq<char>) -> Seq<char> {
        self.environment.value(name)->Some_0
    }

    /// Makes a suite ready to run, or says what keeps it from running.
    pub fn from_environment(suite: Suite, environment: Environment) -> (harness: Result<
        Harness,
        String,
    >)
        ensures
            match environment_fault(suite, environment) {
                None => harness matches Ok(ready) && ready.suite == suite && ready.environment
                    == environment && ready.well_formed(),
                Some(fault) => harness matches Err(words) && words@ == fault,
            },
    {
        if suite == Suite::Connections {
            match environment.get("STEWARD_OPEN_SHELL_RELEASE") {
                None => return Err(missing_words(suite, "STEWARD_OPEN_SHELL_RELEASE")),
                Some(release) => if !same_text(release.as_str(), "v0.0.98") {
                    return Err("governed Connections E2E requires OpenShell v0.0.98".to_owned());
                },
            }
        }
        match environment.get("STEWARD_TEST_KUBE_CONTEXT") {
            None => return Err(missing_words(suite, "STEWARD_TEST_KUBE_CONTEXT")),
            Some(context) => if let Err(words) = ephemeral_context(suite, context.as_str()) {
                return Err(words);
            },
        }
        let names = needed_names(suite);
        let mut i: usize = 0;
        while i < names.len()
            invariant
                i <= names.len(),
                str_views(names@) == needed(suite),
                first_missing(environment, needed(suite), 0) == first_missing(
                    environment,
                    needed(suite),
                    i as int,
                ),
                environment_fault(suite, environment) == (match first_missing(
                    environment,
                    needed(suite),
                    0,
                ) {
                    Some(name) => Some(missing(suite, name)),
                    None => None,
                }),
            decreases names.len() - i,
        {
            assert(needed(suite)[i as int] == names@[i as int]@);
            if environment.get(names[i]).is_none() {
                return Err(missing_words(suite, names[i]));
            }
            i = i + 1;
        }
        Ok(Harness { suite, environment })
    }

    /// What `kubectl` is told first: the cluster that it is to speak to.
    pub open spec fn cluster_arguments(&self) -> Seq<Seq<char>> {
        seq![
            "--kubeconfig"@,
            self.setting("STEWARD_TEST_KUBECONFIG"@),
            "--context"@,
            self.setting("STEWARD_TEST_KUBE_CONTEXT"@),
        ]
    }

    /// What `kubectl` is told, before the command itself, to act as a member of the
    /// organization.
    pub open spec fn actor_arguments(acting_user: Seq<char>) -> Seq<Seq<char>> {
        seq![
            "--as"@,
            acting_user,
            "--as-group"@,
            "agents.apelogic.ai/member-role:engineer"@,
        ]
    }

    /// The arguments of a `kubectl` that speaks to the cluster of this harness.
    pub fn kubectl(&self, arguments: &[&str]) -> (all: Vec<String>)
        requires
            self.well_formed(),
        ensures
            views(all@) == self.cluster_arguments() + str_views(arguments@),
    {
        proof {
            lemma_needs_kubeconfig(self.suite, self.environment);
        }
        let kubeconfig = match self.environment.get("STEWARD_TEST_KUBECONFIG") {
            Some(value) => value,
            None => String::new(),
        };
        let context = match self.environment.get("STEWARD_TEST_KUBE_CONTEXT") {
            Some(value) => value,
            None => String::new(),
        };
        let mut all = texts(
            &["--kubeconfig", kubeconfig.as_str(), "--context", context.as_str()],
        );
        assert(views(all@) =~= self.cluster_arguments());
        extend(&mut all, texts(arguments));
        all
    }

    /// The arguments of a `kubectl` that acts as Alice.
    pub fn kubectl_as_actor(&self, arguments: &[&str]) -> (all: Vec<String>)
        requires
            self.well_formed(),
        ensures
            views(all@) == self.cluster_arguments() + Self::actor_arguments("alice@example.com"@)
                + str_views(arguments@),
    {
        self.kubectl_as("alice@example.com", arguments)
    }

    /// The arguments of a `kubectl` that acts as a member of the organization.
    pub fn kubectl_as(&self, acting_user: &str, arguments: &[&str]) -> (all: Vec<String>)
        requires
            self.well_formed(),
        ensures
            views(all@) == self.cluster_arguments() + Self::actor_arguments(acting_user@)
                + str_views(arguments@),
    {
        let actor: [&str; 4] = [
            "--as",
            acting_user,
            "--as-group",
            "agents.apelogic.ai/member-role:engineer",
        ];
        let mut all = self.kubectl(&actor);
        assert(str_views(actor@) =~= Self::actor_arguments(acting_user@));
        extend(&mut all, texts(arguments));
        all
    }

    /// The arguments of a `kubectl` that applies a manifest as a member of the organization.
    pub fn apply_as(&self, manifest: &str, acting_user: &str) -> (all: Vec<String>)
        requires
            self.well_formed(),
        ensures
            views(all@) == self.cluster_arguments() + Self::actor_arguments(acting_user@) + seq![
                "apply"@,
                "-f"@,
                manifest@,
            ],
    {
        let command: [&str; 3] = ["apply", "-f", manifest];
        assert(str_views(command@) =~= seq!["apply"@, "-f"@, manifest@]);
        self.kubectl_as(acting_user, &command)
    }
}

/// Every suite needs the configuration of its cluster.
pub proof fn lemma_needs_kubeconfig(suite: Suite, environment: Environment)
    requires
        environment_fault(suite, environment) is None,
    ensures
        environment.value("STEWARD_TEST_KUBECONFIG"@) is Some,
        environment.value("STEWARD_TEST_KUBE_CONTEXT"@) is Some,
{
    let at: int = match suite {
        Suite::S0 => 2,
        Suite::S1 => 0,
        Suite::S2 => 1,
        Suite::S3 => 2,
        Suite::S4 => 4,
        Suite::S5 => 4,
        Suite::Connections => 12,
    };
    assert(needed(suite)[at] == "STEWARD_TEST_KUBECONFIG"@);
    lemma_none_missing(environment, needed(suite), 0, at);
}

/// Where none of the names is missing, each has a value.
pub proof fn lemma_none_missing(
    environment: Environment,
    names: Seq<Seq<char>>,
    from: int,
    at: int,
)
    requires
        first_missing(environment, names, from) is None,
        0 <= from <= at < names.len(),
    ensures
        environment.value(names[at]) is Some,
    decreases at - from,
{
    if from < at {
        lemma_none_missing(environment, names, from + 1, at);
    }
}

/// A suite never runs on a cluster that is not an ephemeral one, and it has all that it needs.
pub proof fn law_suites_run_on_ephemeral_clusters_only(
    suite: Suite,
    environment: Environment,
    at: int,
)
    requires
        environment_fault(suite, environment) is None,
        0 <= at < needed(suite).len(),
    ensures
        environment.value("STEWARD_TEST_KUBE_CONTEXT"@) is Some,
        has_prefix(
            environment.value("STEWARD_TEST_KUBE_CONTEXT"@)->Some_0,
            context_prefix(suite),
        ),
        has_prefix(environment.value("STEWARD_TEST_KUBE_CONTEXT"@)->Some_0, "kind-steward-"@),
        environment.value(needed(suite)[at]) is Some,
{
    lemma_none_missing(environment, needed(suite), 0, at);
    reveal_strlit("kind-steward-");
    reveal_strlit("kind-steward-s3-");
    reveal_strlit("kind-steward-s4-");
    let context = environment.value("STEWARD_TEST_KUBE_CONTEXT"@)->Some_0;
    let prefix = context_prefix(suite);
    let short = "kind-steward-"@;
    assert(prefix.subrange(0, short.len() as int) =~= short);
    assert(context.subrange(0, short.len() as int) =~= context.subrange(
        0,
        prefix.len() as int,
    ).subrange(0, short.len() as int));
}

/// What is said of a path that is not UTF-8.
pub open spec fn path_fault(suite: Suite) -> Seq<char> {
    match suite {
        Suite::S1 => "test path is not valid UTF-8"@,
        Suite::S2 => "test path is not UTF-8"@,
        Suite::Connections => "test path is not UTF-8"@,
        _ => "run path is not valid UTF-8"@,
    }
}

/// A path, given by its bytes, as text.
pub fn path_text(suite: Suite, path: Vec<u8>) -> (text: Result<String, String>)
    ensures
        match text {
            Ok(words) => valid_utf8(path@) && words@ == decode_utf8(path@),
            Err(words) => !valid_utf8(path@) && words@ == path_fault(suite),
        },
{
    match decode(path) {
        Ok(text) => Ok(text),
        Err(_) => Err(
            match suite {
                Suite::S1 => "test path is not valid UTF-8",
                Suite::S2 => "test path is not UTF-8",
                Suite::Connections => "test path is not UTF-8",
                _ => "run path is not valid UTF-8",
            }.to_owned(),
        ),
    }
}

/// What a text or a failure says.
pub open spec fn text_view(text: Result<String, String>) -> Result<Seq<char>, Seq<char>> {
    match text {
        Ok(words) => Ok(words@),
        Err(words) => Err(words@),
    }
}

/// The text that a finished process wrote, where it did what it was to do; otherwise `failure`
/// and what it complained of.
pub open spec fn written_text(
    success: bool,
    stdout: Seq<u8>,
    stderr: Seq<u8>,
    failure: Seq<char>,
) -> Result<Seq<char>, Seq<char>> {
    if !success {
        Err(failure + ": "@ + trimmed(utf8_lossy(stderr)))
    } else if !valid_utf8(stdout) {
        Err(utf8_error_text(stdout))
    } else {
        Ok(decode_utf8(stdout))
    }
}

/// Reads the text that a finished process wrote.
pub fn succeeded(output: ProcessOutput, failure: &str) -> (text: Result<String, String>)
    ensures
        text_view(text) == written_text(
            output.success,
            output.stdout@,
            output.stderr@,
            failure@,
        ),
{
    if !output.success {
        let stderr = decode_lossy(output.stderr.as_slice());
        return Err(concat3(failure, ": ", trim(stderr.as_str())));
    }
    decode(output.stdout)
}

/// Reads what a finished `kubectl` wrote.
pub fn kubectl_ok(arguments: &[&str], output: ProcessOutput) -> (text: Result<String, String>)
    ensures
        text_view(text) == written_text(
            output.success,
            output.stdout@,
            output.stderr@,
            "kubectl "@ + joined_with(str_views(arguments@), " "@) + " failed"@,
        ),
{
    let command = join(arguments, " ");
    let failure = concat3("kubectl ", command.as_str(), " failed");
    succeeded(output, failure.as_str())
}

/// Reads the one value that a finished `kubectl` wrote, without the white space around it.
pub fn kubectl_value(arguments: &[&str], output: ProcessOutput) -> (text: Result<String, String>)
    ensures
        text_view(text) == (match written_text(
            output.success,
            output.stdout@,
            output.stderr@,
            "kubectl "@ + joined_with(str_views(arguments@), " "@) + " failed"@,
        ) {
            Ok(words) => Ok(trimmed(words)),
            Err(words) => Err::<Seq<char>, Seq<char>>(words),
        }),
{
    match kubectl_ok(arguments, output) {
        Ok(words) => Ok(trim(words.as_str()).to_owned()),
        Err(words) => Err(words),
    }
}

/// The expression that gives a reference of a runtime.
pub fn runtime_ref(field: &str) -> (expression: String)
    ensures
        expression@ == "jsonpath={.status.refs."@ + field@ + "}"@,
{
    concat3("jsonpath={.status.refs.", field, "}")
}

/// The label selector of a sandbox.
pub open spec fn sandbox_labels(workspace: Seq<char>, sandbox: Seq<char>) -> Seq<char> {
    "openshell.ai/sandbox-workspace="@ + workspace + ",openshell.ai/sandbox-name="@ + sandbox
}

/// The label selector of a sandbox.
pub fn sandbox_selector(workspace: &str, sandbox: &str) -> (selector: String)
    ensures
        selector@ == sandbox_labels(workspace@, sandbox@),
{
    crate::text::concat4(
        "openshell.ai/sandbox-workspace=",
        workspace,
        ",openshell.ai/sandbox-name=",
        sandbox,
    )
}

/// What is left of something, by the listing of it, where anything is left.
pub open spec fn leftover(listing: Seq<char>, words: Seq<char>) -> Result<(), Seq<char>> {
    if trimmed(listing).len() == 0 {
        Ok(())
    } else {
        Err(words + trimmed(listing))
    }
}

/// Makes sure that a listing is empty; otherwise `words` and the listing.
pub fn nothing_left(listing: &str, words: &str) -> (outcome: Result<(), String>)
    ensures
        outcome_view(outcome) == leftover(listing@, words@),
{
    let left = trim(listing);
    if left.is_empty() {
        Ok(())
    } else {
        Err(concat2(words, left))
    }
}

/// Makes sure that no Agent Sandbox is left of a pair of workspace and sandbox.
pub fn assert_agent_sandbox_absent(workspace: &str, sandbox: &str, listing: &str) -> (outcome:
    Result<(), String>)
    ensures
        outcome_view(outcome) == leftover(
            listing@,
            "OpenShell tuple "@ + workspace@ + "/"@ + sandbox@
                + " still has Agent Sandbox resources: "@,
        ),
{
    let words = concat5(
        "OpenShell tuple ",
        workspace,
        "/",
        sandbox,
        " still has Agent Sandbox resources: ",
    );
    nothing_left(listing, words.as_str())
}

/// Whether a look at something that is to be deleted shows that it is gone.
pub open spec fn shows_absence(success: bool, stderr: Seq<u8>) -> bool {
    !success && (has_text(utf8_lossy(stderr), "NotFound"@) || has_text(
        utf8_lossy(stderr),
        "not found"@,
    ))
}

/// Whether a look at something that is to be deleted shows that it is gone.
pub fn runtime_is_absent(output: &ProcessOutput) -> (absent: bool)
    ensures
        absent == shows_absence(output.success, output.stderr@),
{
    if output.success {
        return false;
    }
    let stderr = decode_lossy(output.stderr.as_slice());
    contains_text(stderr.as_str(), "NotFound") || contains_text(stderr.as_str(), "not found")
}

/// The port that a line of `kubectl port-forward` names.
pub open spec fn line_port(line: Seq<char>) -> Option<u16> {
    match parted_once(line, "127.0.0.1:"@) {
        None => None,
        Some((_, suffix)) => match parted_once(suffix, " ->"@) {
            Some((port, _)) => u16_value(port),
            None => u16_value(suffix),
        },
    }
}

/// The port that the first line from the position `from` on names that names one.
pub open spec fn port_from(lines: Seq<Seq<char>>, from: int) -> Option<u16>
    decreases lines.len() - from,
{
    if from < 0 || from >= lines.len() {
        None
    } else if line_port(lines[from]) is Some {
        line_port(lines[from])
    } else {
        port_from(lines, from + 1)
    }
}

/// The local port that the log of a `kubectl port-forward` names.
pub fn parse_forwarded_port(log: &str) -> (port: Option<u16>)
    ensures
        port == port_from(lines_from(log@, 0), 0),
{
    let found = lines(log);
    let mut i: usize = 0;
    while i < found.len()
        invariant
            i <= found.len(),
            str_views(found@) == lines_from(log@, 0),
            port_from(lines_from(log@, 0), 0) == port_from(lines_from(log@, 0), i as int),
        decreases found.len() - i,
    {
        assert(lines_from(log@, 0)[i as int] == found@[i as int]@);
        if let Some((_, suffix)) = split_once(found[i], "127.0.0.1:") {
            let digits = match split_once(suffix, " ->") {
                Some((port, _)) => port,
                None => suffix,
            };
            if let Ok(port) = parse_u16(digits) {
                return Some(port);
            }
        }
        i = i + 1;
    }
    None
}

/// A line that `kubectl port-forward` writes when it is ready.
pub open spec fn ready_line(port: u16, target: Seq<char>) -> Seq<char> {
    "Forwarding from 127.0.0.1:"@ + decimal_digits(port as nat) + " -> "@ + target
}

/// The port that `kubectl port-forward` names when it is ready is the port that is read from its
/// line, whatever the target is.
pub proof fn law_forwarded_port_is_read_back(port: u16, target: Seq<char>)
    ensures
        line_port(ready_line(port, target)) == Some(port),
{
    let line = ready_line(port, target);
    let digits = decimal_digits(port as nat);
    lemma_decimal_digits(port as nat);
    reveal_strlit("Forwarding from 127.0.0.1:");
    reveal_strlit("127.0.0.1:");
    reveal_strlit(" -> ");
    reveal_strlit(" ->");
    let address = "127.0.0.1:"@;
    assert(line.subrange(16, 16int + address.len()) =~= address);
    assert(occurs_at(line, address, 16));
    assert forall|i: int| 0 <= i < 16 implies !occurs_at(line, address, i) by {
        assert(line[i] == "Forwarding from 127.0.0.1:"@[i]);
        assert(line.subrange(i, i + address.len())[0] == line[i]);
    }
    lemma_first_from(line, address, 0);
    assert(first_from(line, address, 0) == Some(16int));
    let suffix = line.subrange(16int + address.len(), line.len() as int);
    assert(suffix =~= digits + " -> "@ + target);
    let arrow = " ->"@;
    let at = digits.len() as int;
    assert(suffix.subrange(at, at + arrow.len()) =~= arrow);
    assert(occurs_at(suffix, arrow, at));
    assert forall|i: int| 0 <= i < at implies !occurs_at(suffix, arrow, i) by {
        assert(suffix[i] == digits[i]);
        assert(suffix.subrange(i, i + arrow.len())[0] == suffix[i]);
    }
    lemma_first_from(suffix, arrow, 0);
    assert(first_from(suffix, arrow, 0) == Some(at));
    assert(suffix.subrange(0, at) =~= digits);
}

/// The value of a setting is that of the first one of its name, and there is none where none has the
/// name.
pub proof fn law_the_first_setting_of_a_name_counts(environment: Environment, name: Seq<char>)
    ensures
        match environment.value(name) {
            Some(value) => exists|at: int| #[trigger]
                is_first_of(environment.variables@, name, at) && environment.variables@[at].1@
                    == value,
            None => forall|i: int|
                0 <= i < environment.variables@.len() ==> (#[trigger] environment.variables@[i]).0@
                    != name,
        },
{
    lemma_value_from(environment.variables@, name, 0);
}

/// The setting at a position is the first one of its name.
pub open spec fn is_first_of(
    variables: Seq<(String, String)>,
    name: Seq<char>,
    at: int,
) -> bool {
    &&& 0 <= at < variables.len()
    &&& variables[at].0@ == name
    &&& forall|i: int| 0 <= i < at ==> (#[trigger] variables[i]).0@ != name
}

/// What is found from a position on is the first of its name there.
proof fn lemma_value_from(variables: Seq<(String, String)>, name: Seq<char>, from: int)
    requires
        0 <= from <= variables.len(),
        forall|i: int| 0 <= i < from ==> (#[trigger] variables[i]).0@ != name,
    ensures
        match value_from(variables, name, from) {
            Some(value) => exists|at: int| #[trigger]
                is_first_of(variables, name, at) && variables[at].1@ == value,
            None => forall|i: int|
                0 <= i < variables.len() ==> (#[trigger] variables[i]).0@ != name,
        },
    decreases variables.len() - from,
{
    if from < variables.len() {
        if variables[from].0@ == name {
            assert(is_first_of(variables, name, from));
        } else {
            lemma_value_from(variables, name, from + 1);
        }
    }
}

/// What is missing is the first name without a value; nothing is missing exactly where every name
/// has one.
pub proof fn law_the_first_name_without_a_value_is_missing(
    environment: Environment,
    names: Seq<Seq<char>>,
)
    ensures
        match first_missing(environment, names, 0) {
            Some(name) => exists|at: int|
                0 <= at < names.len() && #[trigger] names[at] == name && environment.value(
                    names[at],
                ) is None && forall|i: int|
                    0 <= i < at ==> environment.value(#[trigger] names[i]) is Some,
            None => forall|i: int|
                0 <= i < names.len() ==> environment.value(#[trigger] names[i]) is Some,
        },
{
    lemma_first_missing(environment, names, 0);
}

/// What is missing from a position on is the first name there without a value.
proof fn lemma_first_missing(environment: Environment, names: Seq<Seq<char>>, from: int)
    requires
        0 <= from <= names.len(),
        forall|i: int| 0 <= i < from ==> environment.value(#[trigger] names[i]) is Some,
    ensures
        match first_missing(environment, names, from) {
            Some(name) => exists|at: int|
                0 <= at < names.len() && #[trigger] names[at] == name && environment.value(
                    names[at],
                ) is None && forall|i: int|
                    0 <= i < at ==> environment.value(#[trigger] names[i]) is Some,
            None => forall|i: int|
                0 <= i < names.len() ==> environment.value(#[trigger] names[i]) is Some,
        },
    decreases names.len() - from,
{
    if from < names.len() {
        if environment.value(names[from]) is Some {
            lemma_first_missing(environment, names, from + 1);
        } else {
            assert(names[from] == names[from]);
        }
    }
}

/// A suite runs exactly where its context is that of an ephemeral cluster of its own kind, every
/// setting that it needs is there and, for connections, the release is the pinned one.
pub proof fn law_suites_run_where_they_may(suite: Suite, environment: Environment)
    ensures
        environment_fault(suite, environment) is None <==> {
            &&& environment.value("STEWARD_TEST_KUBE_CONTEXT"@) matches Some(context)
            &&& has_prefix(
                context,
                if suite == Suite::S3 {
                    "kind-steward-s3-"@
                } else if suite == Suite::S4 {
                    "kind-steward-s4-"@
                } else {
                    "kind-steward-"@
                },
            )
            &&& forall|i: int|
                0 <= i < needed(suite).len() ==> environment.value(
                    #[trigger] needed(suite)[i],
                ) is Some
            &&& suite == Suite::Connections ==> environment.value("STEWARD_OPEN_SHELL_RELEASE"@)
                == Some("v0.0.98"@)
        },
        needed(suite).contains("STEWARD_TEST_KUBECONFIG"@),
        needed(suite).contains("STEWARD_RUN_DIR"@),
{
    lemma_first_missing(environment, needed(suite), 0);
    let at: int = match suite {
        Suite::S0 => 2,
        Suite::S1 => 0,
        Suite::S2 => 1,
        Suite::S3 => 2,
        Suite::S4 => 4,
        Suite::S5 => 4,
        Suite::Connections => 12,
    };
    assert(needed(suite)[at] == "STEWARD_TEST_KUBECONFIG"@);
    let run: int = match suite {
        Suite::S0 => 0,
        Suite::S1 => 2,
        Suite::S2 => 5,
        Suite::S3 => 4,
        Suite::S4 => 6,
        Suite::S5 => 9,
        Suite::Connections => 15,
    };
    assert(needed(suite)[run] == "STEWARD_RUN_DIR"@);
}

/// The port that is read is that of the first line that names one.
pub proof fn law_the_first_port_counts(lines: Seq<Seq<char>>, at: int)
    requires
        0 <= at < lines.len(),
        line_port(lines[at]) is Some,
        forall|i: int| 0 <= i < at ==> line_port(#[trigger] lines[i]) is None,
    ensures
        port_from(lines, 0) == line_port(lines[at]),
{
    lemma_port_from(lines, 0, at);
}

/// The first line that names a port decides.
proof fn lemma_port_from(lines: Seq<Seq<char>>, from: int, at: int)
    requires
        0 <= from <= at < lines.len(),
        line_port(lines[at]) is Some,
        forall|i: int| 0 <= i < at ==> line_port(#[trigger] lines[i]) is None,
    ensures
        port_from(lines, from) == line_port(lines[at]),
    decreases at - from,
{
    if from < at {
        lemma_port_from(lines, from + 1, at);
    }
}

/// Nothing is left exactly where a listing holds nothing but white space; otherwise what is left is
/// told behind the words.
pub proof fn law_what_is_left_is_told(listing: Seq<char>, words: Seq<char>)
    ensures
        leftover(listing, words) is Ok <==> forall|i: int|
            0 <= i < listing.len() ==> crate::text::white_space(#[trigger] listing[i]),
        leftover(listing, words) is Err ==> leftover(listing, words) == Err::<(), Seq<char>>(
            words + trimmed(listing),
        ),
{
    let from = crate::text::law_trimming_takes_away_outer_white_space(listing);
    if trimmed(listing).len() > 0 {
        assert(trimmed(listing)[0] == listing[from]);
    }
}

/// A process that succeeded wrote its text; one that failed is told with what it complained of.
pub proof fn law_failures_are_told_with_their_complaint(
    words: Seq<char>,
    stdout: Seq<u8>,
    stderr: Seq<u8>,
    failure: Seq<char>,
)
    ensures
        written_text(true, encode_utf8(words), stderr, failure) == Ok::<Seq<char>, Seq<char>>(words),
        written_text(false, stdout, stderr, failure) == Err::<Seq<char>, Seq<char>>(
            failure + ": "@ + trimmed(utf8_lossy(stderr)),
        ),
        shows_absence(true, stderr) == false,
{
    encode_utf8_valid_utf8(words);
    encode_utf8_decode_utf8(words);
}

} // verus!
