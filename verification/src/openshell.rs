//! Sandboxes of OpenShell: the connection to it, the sandboxes that it makes and what goes into
//! and comes out of them.
use crate::digest::{same_digest, sha256};
use crate::harness::{sandbox_labels, sandbox_selector, Environment};
use crate::probe::{outcome_view, ProcessOutput};
use crate::runtimes::{RuntimeRefs, RuntimeRefsView};
use crate::text::{
    concat2, concat3, decode, decode_lossy, quoted, quoted_text, same_text, str_views, texts, trim,
    trimmed, utf8_lossy, views,
};
use vstd::prelude::*;
use vstd::utf8::*;

verus! {

/// The release of OpenShell that the adapter is made for.
pub const EXPECTED_RELEASE: &'static str = "v0.0.98";

/// The runtime class in which sandboxes run.
pub const RUNTIME_CLASS: &'static str = "kata-qemu";

/// A setting of the OpenShell harness that has to be there.
pub fn required(name: &str, value: Option<String>) -> (setting: Result<String, String>)
    ensures
        match value {
            Some(found) => setting matches Ok(text) && text@ == found@,
            None => setting matches Err(words) && words@ == name@
                + " is required from the ephemeral OpenShell harness"@,
        },
{
    match value {
        Some(found) => Ok(found),
        None => Err(concat2(name, " is required from the ephemeral OpenShell harness")),
    }
}

/// The path of a file that has to be named.
pub fn required_path(name: &str, value: Option<String>) -> (path: Result<String, String>)
    ensures
        match value {
            Some(found) => path matches Ok(text) && text@ == found@,
            None => path matches Err(words) && words@ == name@
                + " is required from the ephemeral OpenShell harness"@,
        },
{
    required(name, value)
}

/// Makes sure that the release is the one that the adapter is made for.
pub fn pinned_release(release: &str) -> (outcome: Result<(), String>)
    ensures
        outcome_view(outcome) == (if release@ == EXPECTED_RELEASE@ {
            Ok(())
        } else {
            Err::<(), Seq<char>>("adapter integration requires OpenShell "@ + EXPECTED_RELEASE@)
        }),
{
    if same_text(release, EXPECTED_RELEASE) {
        Ok(())
    } else {
        Err(concat2("adapter integration requires OpenShell ", EXPECTED_RELEASE))
    }
}

/// How OpenShell is reached. Certificates, keys and credentials are given by the files that hold
/// them.
pub struct OpenShellConnectionConfig {
    pub endpoint: String,
    pub ca_certificate_file: String,
    pub client_certificate_file: String,
    pub client_private_key_file: String,
    pub workload_exchange_endpoint: String,
    pub workload_exchange_server_name: String,
    pub workload_exchange_ca_certificate_file: String,
    pub workload_source_credential_file: String,
    pub server_name: String,
    pub runtime_class_name: String,
}

/// The settings that the connection needs, in the order in which they are looked up.
pub open spec fn connection_names() -> Seq<Seq<char>> {
    seq![
        "STEWARD_OPENSHELL_ENDPOINT"@,
        "STEWARD_OPENSHELL_CA_CERTIFICATE_FILE"@,
        "STEWARD_OPENSHELL_CLIENT_CERTIFICATE_FILE"@,
        "STEWARD_OPENSHELL_CLIENT_PRIVATE_KEY_FILE"@,
        "STEWARD_WORKLOAD_EXCHANGE_ENDPOINT"@,
        "STEWARD_WORKLOAD_EXCHANGE_SERVER_NAME"@,
        "STEWARD_WORKLOAD_EXCHANGE_CA_CERTIFICATE_FILE"@,
        "STEWARD_WORKLOAD_SOURCE_CREDENTIAL_FILE"@,
        "STEWARD_OPENSHELL_SERVER_NAME"@,
    ]
}

impl OpenShellConnectionConfig {
    /// The settings that the connection was made from, in the order of their names.
    pub open spec fn settings(&self) -> Seq<Seq<char>> {
        seq![
            self.endpoint@,
            self.ca_certificate_file@,
            self.client_certificate_file@,
            self.client_private_key_file@,
            self.workload_exchange_endpoint@,
            self.workload_exchange_server_name@,
            self.workload_exchange_ca_certificate_file@,
            self.workload_source_credential_file@,
            self.server_name@,
        ]
    }
}

/// The connection that an environment describes: with every setting that it needs, and with
/// sandboxes in the Kata runtime class whatever the environment says.
pub fn valid_config(environment: &Environment) -> (config: Result<OpenShellConnectionConfig, String>)
    ensures
        match crate::harness::first_missing(*environment, connection_names(), 0) {
            None => config matches Ok(found) && found.runtime_class_name@ == RUNTIME_CLASS@ && (
            forall|i: int|
                0 <= i < connection_names().len() ==> environment.value(
                    #[trigger] connection_names()[i],
                ) == Some(found.settings()[i])),
            Some(name) => config matches Err(words) && words@ == name
                + " is required from the ephemeral OpenShell harness"@,
        },
{
    let names: [&str; 9] = [
        "STEWARD_OPENSHELL_ENDPOINT",
        "STEWARD_OPENSHELL_CA_CERTIFICATE_FILE",
        "STEWARD_OPENSHELL_CLIENT_CERTIFICATE_FILE",
        "STEWARD_OPENSHELL_CLIENT_PRIVATE_KEY_FILE",
        "STEWARD_WORKLOAD_EXCHANGE_ENDPOINT",
        "STEWARD_WORKLOAD_EXCHANGE_SERVER_NAME",
        "STEWARD_WORKLOAD_EXCHANGE_CA_CERTIFICATE_FILE",
        "STEWARD_WORKLOAD_SOURCE_CREDENTIAL_FILE",
        "STEWARD_OPENSHELL_SERVER_NAME",
    ];
    assert(str_views(names@) =~= connection_names());
    let mut values: Vec<String> = Vec::new();
    let mut i: usize = 0;
    while i < 9
        invariant
            i <= 9,
            str_views(names@) == connection_names(),
            values@.len() == i,
            forall|j: int|
                0 <= j < i ==> environment.value(#[trigger] connection_names()[j]) == Some(
                    values@[j]@,
                ),
            crate::harness::first_missing(*environment, connection_names(), 0)
                == crate::harness::first_missing(*environment, connection_names(), i as int),
        decreases 9 - i,
    {
        assert(connection_names()[i as int] == names@[i as int]@);
        match required(names[i], environment.get(names[i])) {
            Ok(value) => values.push(value),
            Err(words) => return Err(words),
        }
        i = i + 1;
    }
    let config = OpenShellConnectionConfig {
        endpoint: values[0].clone(),
        ca_certificate_file: values[1].clone(),
        client_certificate_file: values[2].clone(),
        client_private_key_file: values[3].clone(),
        workload_exchange_endpoint: values[4].clone(),
        workload_exchange_server_name: values[5].clone(),
        workload_exchange_ca_certificate_file: values[6].clone(),
        workload_source_credential_file: values[7].clone(),
        server_name: values[8].clone(),
        runtime_class_name: RUNTIME_CLASS.to_owned(),
    };
    assert(config.settings() =~= crate::text::views(values@));
    Ok(config)
}

/// Whether a finished process did what `description` says.
pub fn run(output: &ProcessOutput, description: &str) -> (outcome: Result<(), String>)
    ensures
        outcome_view(outcome) == (if output.success {
            Ok(())
        } else {
            Err::<(), Seq<char>>(
                description@ + " failed: "@ + trimmed(utf8_lossy(output.stderr@)),
            )
        }),
{
    if output.success {
        Ok(())
    } else {
        let stderr = decode_lossy(output.stderr.as_slice());
        Err(concat3(description, " failed: ", trim(stderr.as_str())))
    }
}

/// The arguments of the `kubectl` that looks at the runtime class of a sandbox.
pub fn runtime_class_arguments(kubeconfig: &str, context: &str, workspace: &str, sandbox: &str) -> (
    arguments: Vec<String>)
    ensures
        views(arguments@) == seq![
            "--kubeconfig"@,
            kubeconfig@,
            "--context"@,
            context@,
            "-n"@,
            "openshell"@,
            "get"@,
            "sandboxes.agents.x-k8s.io"@,
            "--selector"@,
            sandbox_labels(workspace@, sandbox@),
            "-o"@,
            "jsonpath={.items[0].spec.podTemplate.spec.runtimeClassName}"@,
        ],
{
    let selector = sandbox_selector(workspace, sandbox);
    let arguments = texts(
        &[
            "--kubeconfig",
            kubeconfig,
            "--context",
            context,
            "-n",
            "openshell",
            "get",
            "sandboxes.agents.x-k8s.io",
            "--selector",
            selector.as_str(),
            "-o",
            "jsonpath={.items[0].spec.podTemplate.spec.runtimeClassName}",
        ],
    );
    assert(views(arguments@) =~= seq![
        "--kubeconfig"@,
        kubeconfig@,
        "--context"@,
        context@,
        "-n"@,
        "openshell"@,
        "get"@,
        "sandboxes.agents.x-k8s.io"@,
        "--selector"@,
        sandbox_labels(workspace@, sandbox@),
        "-o"@,
        "jsonpath={.items[0].spec.podTemplate.spec.runtimeClassName}"@,
    ]);
    arguments
}

/// What a look at the runtime class of a sandbox shows.
pub open spec fn kata_verdict(success: bool, stdout: Seq<u8>, stderr: Seq<u8>) -> Result<
    (),
    Seq<char>,
> {
    if !success {
        Err("sandbox runtime-class lookup failed: "@ + trimmed(utf8_lossy(stderr)))
    } else if !valid_utf8(stdout) {
        Err("sandbox runtime class was not UTF-8"@)
    } else if trimmed(decode_utf8(stdout)) != RUNTIME_CLASS@ {
        Err(
            "OpenShell created runtime class "@ + quoted_text(trimmed(decode_utf8(stdout)))
                + ", expected kata-qemu"@,
        )
    } else {
        Ok(())
    }
}

/// Makes sure that a sandbox runs in the Kata runtime class.
pub fn assert_kata_runtime(output: ProcessOutput) -> (outcome: Result<(), String>)
    ensures
        outcome_view(outcome) == kata_verdict(output.success, output.stdout@, output.stderr@),
{
    if !output.success {
        let stderr = decode_lossy(output.stderr.as_slice());
        return Err(concat2("sandbox runtime-class lookup failed: ", trim(stderr.as_str())));
    }
    let runtime_class = match decode(output.stdout) {
        Ok(text) => text,
        Err(_) => return Err("sandbox runtime class was not UTF-8".to_owned()),
    };
    let found = trim(runtime_class.as_str());
    if same_text(found, RUNTIME_CLASS) {
        Ok(())
    } else {
        let shown = quoted(found);
        Err(concat3("OpenShell created runtime class ", shown.as_str(), ", expected kata-qemu"))
    }
}

/// What is known of a sandbox.
pub enum SandboxObservation {
    Running { refs: RuntimeRefs },
    Provisioning,
    Absent,
}

/// What is known of a sandbox of a test double as soon as it is asked for: it runs.
pub fn ensure(runtime: &str) -> (observation: SandboxObservation)
    ensures
        observation matches SandboxObservation::Running { refs } && refs@ == (RuntimeRefsView {
            workspace: Some("workspace-"@ + runtime@),
            sandbox: Some("sandbox-"@ + runtime@),
            litellm_key: None,
        }),
{
    SandboxObservation::Running {
        refs: RuntimeRefs {
            workspace: Some(concat2("workspace-", runtime)),
            sandbox: Some(concat2("sandbox-", runtime)),
            litellm_key: None,
        },
    }
}

/// What is known of a sandbox of a test double as soon as it is to be deleted: it is gone.
pub fn delete() -> (observation: SandboxObservation)
    ensures
        observation is Absent,
{
    SandboxObservation::Absent
}

/// How a wait for a sandbox goes on.
pub enum SandboxWait {
    Ready(RuntimeRefs),
    Gone,
    Failed(String),
    Again,
}

pub ghost enum SandboxWaitView {
    Ready(RuntimeRefsView),
    Gone,
    Failed(Seq<char>),
    Again,
}

impl View for SandboxWait {
    type V = SandboxWaitView;

    open spec fn view(&self) -> SandboxWaitView {
        match *self {
            SandboxWait::Ready(refs) => SandboxWaitView::Ready(refs@),
            SandboxWait::Gone => SandboxWaitView::Gone,
            SandboxWait::Failed(words) => SandboxWaitView::Failed(words@),
            SandboxWait::Again => SandboxWaitView::Again,
        }
    }
}

/// Takes what is known of a sandbox that is to run, or what kept OpenShell from telling.
pub fn wait_running(observed: Result<SandboxObservation, String>, time_is_over: bool) -> (wait:
    SandboxWait)
    ensures
        wait@ == (match observed {
            Err(error) => SandboxWaitView::Failed("OpenShell ensure failed: "@ + error@),
            Ok(SandboxObservation::Running { refs }) => SandboxWaitView::Ready(refs@),
            Ok(SandboxObservation::Absent) => SandboxWaitView::Failed(
                "OpenShell returned Absent while ensuring a sandbox"@,
            ),
            Ok(SandboxObservation::Provisioning) => if time_is_over {
                SandboxWaitView::Failed(
                    "OpenShell sandbox did not become Ready within 600 seconds"@,
                )
            } else {
                SandboxWaitView::Again
            },
        }),
{
    match observed {
        Err(error) => SandboxWait::Failed(concat2("OpenShell ensure failed: ", error.as_str())),
        Ok(SandboxObservation::Running { refs }) => SandboxWait::Ready(refs),
        Ok(SandboxObservation::Absent) => SandboxWait::Failed(
            "OpenShell returned Absent while ensuring a sandbox".to_owned(),
        ),
        Ok(SandboxObservation::Provisioning) => if time_is_over {
            SandboxWait::Failed(
                "OpenShell sandbox did not become Ready within 600 seconds".to_owned(),
            )
        } else {
            SandboxWait::Again
        },
    }
}

/// Takes what is known of a sandbox that is to be deleted, or what kept OpenShell from telling.
pub fn delete_sandbox(observed: Result<SandboxObservation, String>, time_is_over: bool) -> (wait:
    SandboxWait)
    ensures
        wait@ == (match observed {
            Err(error) => SandboxWaitView::Failed("OpenShell delete failed: "@ + error@),
            Ok(SandboxObservation::Absent) => SandboxWaitView::Gone,
            Ok(_) => if time_is_over {
                SandboxWaitView::Failed(
                    "OpenShell sandbox deletion did not complete within 300 seconds"@,
                )
            } else {
                SandboxWaitView::Again
            },
        }),
{
    match observed {
        Err(error) => SandboxWait::Failed(concat2("OpenShell delete failed: ", error.as_str())),
        Ok(SandboxObservation::Absent) => SandboxWait::Gone,
        Ok(_) => if time_is_over {
            SandboxWait::Failed(
                "OpenShell sandbox deletion did not complete within 300 seconds".to_owned(),
            )
        } else {
            SandboxWait::Again
        },
    }
}

/// Makes sure that what came out of a sandbox is what went into it, by their digests.
pub fn payload_is_kept(actual: &[u8], expected: &[u8]) -> (outcome: Result<(), String>)
    ensures
        outcome_view(outcome) == (if sha256(actual@) == sha256(expected@) {
            Ok(())
        } else {
            Err::<(), Seq<char>>(
                "copied output must have the same SHA-256 as the uploaded input"@,
            )
        }),
        actual@ == expected@ ==> outcome is Ok,
{
    if same_digest(actual, expected) {
        Ok(())
    } else {
        Err("copied output must have the same SHA-256 as the uploaded input".to_owned())
    }
}

/// A sandbox counts as one in the Kata runtime class exactly where it was looked at with success and
/// what was seen is the name of that class, with white space around it at most.
pub proof fn law_only_kata_sandboxes_pass(
    before: Seq<char>,
    after: Seq<char>,
    success: bool,
    stdout: Seq<u8>,
    stderr: Seq<u8>,
)
    requires
        forall|i: int| 0 <= i < before.len() ==> crate::text::white_space(#[trigger] before[i]),
        forall|i: int| 0 <= i < after.len() ==> crate::text::white_space(#[trigger] after[i]),
    ensures
        kata_verdict(true, encode_utf8(before + "kata-qemu"@ + after), stderr) is Ok,
        kata_verdict(success, stdout, stderr) is Ok <==> success && valid_utf8(stdout) && trimmed(
            decode_utf8(stdout),
        ) == "kata-qemu"@,
        !success ==> kata_verdict(success, stdout, stderr) == Err::<(), Seq<char>>(
            "sandbox runtime-class lookup failed: "@ + trimmed(utf8_lossy(stderr)),
        ),
{
    reveal_strlit("kata-qemu");
    let shown = before + "kata-qemu"@ + after;
    encode_utf8_valid_utf8(shown);
    encode_utf8_decode_utf8(shown);
    assert("kata-qemu"@[0] == 'k' && "kata-qemu"@.last() == 'u');
    crate::text::lemma_trimmed(before, "kata-qemu"@, after);
}

} // verus!
