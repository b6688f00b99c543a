//! Requests to what runs in a cluster, as arguments of `kubectl`, `curl` and OpenShell, and what
//! is made of the replies.
use crate::harness::{
    first_missing, leftover, lemma_needs_kubeconfig, missing, missing_words, nothing_left,
    sandbox_labels, sandbox_selector, succeeded, text_view, written_text, Harness, Suite,
};
use crate::json::{
    as_number, as_text, json_tree, member, member_tree, parse, pointed, pointed_tree, tree_text,
    tree_u64, JsonTree,
};
use crate::probe::{outcome_view, status_view, ProcessOutput};
use crate::task_api::{document, value_view};
use crate::text::{
    concat2, concat3, concat4, decimal, decimal_digits, decode, decode_lossy, extend, parse_u16,
    str_views, texts, trim, trimmed, u16_error_text, u16_value, utf8_error_text, utf8_lossy, views,
};
use vstd::prelude::*;
use vstd::string::*;
use vstd::utf8::*;

verus! {

/// Looks at a runtime through an expression.
pub fn get_runtime(namespace: &str, name: &str, expression: &str) -> (arguments: Vec<String>)
    ensures
        views(arguments@) == seq![
            "-n"@,
            namespace@,
            "get"@,
            "agentruntime"@,
            name@,
            "-o"@,
            expression@,
        ],
{
    let arguments = texts(&["-n", namespace, "get", "agentruntime", name, "-o", expression]);
    assert(views(arguments@) =~= seq![
        "-n"@,
        namespace@,
        "get"@,
        "agentruntime"@,
        name@,
        "-o"@,
        expression@,
    ]);
    arguments
}

/// Looks for a runtime.
pub fn find_runtime(namespace: &str, name: &str) -> (arguments: Vec<String>)
    ensures
        views(arguments@) == seq![
            "-n"@,
            namespace@,
            "get"@,
            "agentruntime"@,
            name@,
        ],
{
    let arguments = texts(&["-n", namespace, "get", "agentruntime", name]);
    assert(views(arguments@) =~= seq![
        "-n"@,
        namespace@,
        "get"@,
        "agentruntime"@,
        name@,
    ]);
    arguments
}

/// Lists the runtimes of a namespace by their names.
pub fn list_runtimes(namespace: &str) -> (arguments: Vec<String>)
    ensures
        views(arguments@) == seq![
            "-n"@,
            namespace@,
            "get"@,
            "agentruntime"@,
            "-o"@,
            "name"@,
        ],
{
    let arguments = texts(&["-n", namespace, "get", "agentruntime", "-o", "name"]);
    assert(views(arguments@) =~= seq![
        "-n"@,
        namespace@,
        "get"@,
        "agentruntime"@,
        "-o"@,
        "name"@,
    ]);
    arguments
}

/// Looks for the Secret of a runtime, which has the name of its identity.
pub fn find_secret(namespace: &str, runtime_uid: &str) -> (arguments: Vec<String>)
    ensures
        views(arguments@) == seq![
            "-n"@,
            namespace@,
            "get"@,
            "secret"@,
            runtime_uid@,
        ],
{
    let arguments = texts(&["-n", namespace, "get", "secret", runtime_uid]);
    assert(views(arguments@) =~= seq![
        "-n"@,
        namespace@,
        "get"@,
        "secret"@,
        runtime_uid@,
    ]);
    arguments
}

/// How the deletion of a runtime is asked for.
pub open spec fn deletion_flags(suite: Suite) -> Seq<Seq<char>> {
    match suite {
        Suite::S0 => seq!["--wait=false"@],
        Suite::S1 => seq!["--ignore-not-found=true"@, "--timeout=120s"@],
        _ => seq!["--ignore-not-found=true"@, "--wait=true"@, "--timeout=120s"@],
    }
}

/// Deletes a runtime.
pub fn delete_runtime(suite: Suite, namespace: &str, name: &str) -> (arguments: Vec<String>)
    ensures
        views(arguments@) == seq!["-n"@, namespace@, "delete"@, "agentruntime"@, name@]
            + deletion_flags(suite),
{
    let mut arguments = texts(&["-n", namespace, "delete", "agentruntime", name]);
    assert(views(arguments@) =~= seq!["-n"@, namespace@, "delete"@, "agentruntime"@, name@]);
    let flags = match suite {
        Suite::S0 => texts(&["--wait=false"]),
        Suite::S1 => texts(&["--ignore-not-found=true", "--timeout=120s"]),
        _ => texts(&["--ignore-not-found=true", "--wait=true", "--timeout=120s"]),
    };
    assert(views(flags@) =~= deletion_flags(suite));
    extend(&mut arguments, flags);
    arguments
}

/// Deletes a namespace and waits until it is gone.
pub fn delete_namespace(suite: Suite, namespace: &str) -> (arguments: Vec<String>)
    ensures
        views(arguments@) == seq![
            "delete"@,
            "namespace"@,
            namespace@,
            "--ignore-not-found=true"@,
            "--wait=true"@,
            if suite == Suite::S0 {
                "--timeout=120s"@
            } else {
                "--timeout=60s"@
            },
        ],
{
    let timeout = match suite {
        Suite::S0 => "--timeout=120s",
        _ => "--timeout=60s",
    };
    let arguments = texts(
        &["delete", "namespace", namespace, "--ignore-not-found=true", "--wait=true", timeout],
    );
    assert(views(arguments@) =~= seq![
        "delete"@,
        "namespace"@,
        namespace@,
        "--ignore-not-found=true"@,
        "--wait=true"@,
        timeout@,
    ]);
    arguments
}

/// Puts values into the status of a runtime that only a stale cache could hold.
pub fn inject_stale_status_cache(namespace: &str, name: &str) -> (arguments: Vec<String>)
    ensures
        views(arguments@) == seq![
            "-n"@,
            namespace@,
            "patch"@,
            "agentruntime"@,
            name@,
            "--subresource=status"@,
            "--type=merge"@,
            "-p"@,
            "{\"status\":{\"refs\":{\"litellmKey\":\"stale-key-ref\"},\"spend\":{\"observedAmount\":\"9.99\",\"currency\":\"USD\"}}}"@,
        ],
{
    let arguments = texts(
        &[
            "-n",
            namespace,
            "patch",
            "agentruntime",
            name,
            "--subresource=status",
            "--type=merge",
            "-p",
            "{\"status\":{\"refs\":{\"litellmKey\":\"stale-key-ref\"},\"spend\":{\"observedAmount\":\"9.99\",\"currency\":\"USD\"}}}",
        ],
    );
    assert(views(arguments@) =~= seq![
        "-n"@,
        namespace@,
        "patch"@,
        "agentruntime"@,
        name@,
        "--subresource=status"@,
        "--type=merge"@,
        "-p"@,
        "{\"status\":{\"refs\":{\"litellmKey\":\"stale-key-ref\"},\"spend\":{\"observedAmount\":\"9.99\",\"currency\":\"USD\"}}}"@,
    ]);
    arguments
}

/// Lets the time of a runtime run out.
pub fn expire_runtime(namespace: &str, name: &str) -> (arguments: Vec<String>)
    ensures
        views(arguments@) == seq![
            "-n"@,
            namespace@,
            "patch"@,
            "agentruntime"@,
            name@,
            "--type=merge"@,
            "-p"@,
            "{\"spec\":{\"ttl\":\"1s\"}}"@,
        ],
{
    let arguments = texts(
        &[
            "-n",
            namespace,
            "patch",
            "agentruntime",
            name,
            "--type=merge",
            "-p",
            "{\"spec\":{\"ttl\":\"1s\"}}",
        ],
    );
    assert(views(arguments@) =~= seq![
        "-n"@,
        namespace@,
        "patch"@,
        "agentruntime"@,
        name@,
        "--type=merge"@,
        "-p"@,
        "{\"spec\":{\"ttl\":\"1s\"}}"@,
    ]);
    arguments
}

/// Waits for a runtime to be in the phase in which it is torn down.
pub fn terminating_waiter(namespace: &str, name: &str) -> (arguments: Vec<String>)
    ensures
        views(arguments@) == seq![
            "-n"@,
            namespace@,
            "wait"@,
            "--for=jsonpath={.status.phase}=Terminating"@,
            "agentruntime"@,
            name@,
            "--timeout=30s"@,
        ],
{
    let arguments = texts(
        &[
            "-n",
            namespace,
            "wait",
            "--for=jsonpath={.status.phase}=Terminating",
            "agentruntime",
            name,
            "--timeout=30s",
        ],
    );
    assert(views(arguments@) =~= seq![
        "-n"@,
        namespace@,
        "wait"@,
        "--for=jsonpath={.status.phase}=Terminating"@,
        "agentruntime"@,
        name@,
        "--timeout=30s"@,
    ]);
    arguments
}

/// What came of a wait for the phase in which a runtime is torn down: the wait has to be under way
/// when the deletion begins, and to succeed.
pub fn wait_for_terminating(exited_early: bool, output: &ProcessOutput) -> (outcome: Result<
    (),
    String,
>)
    ensures
        outcome_view(outcome) == (if exited_early {
            Err::<(), Seq<char>>(
                "Terminating phase waiter exited before runtime deletion began"@,
            )
        } else if output.success {
            Ok(())
        } else {
            Err::<(), Seq<char>>(
                "AgentRuntime did not expose Terminating: "@ + trimmed(
                    utf8_lossy(output.stderr@),
                ),
            )
        }),
{
    if exited_early {
        return Err("Terminating phase waiter exited before runtime deletion began".to_owned());
    }
    if output.success {
        Ok(())
    } else {
        let stderr = decode_lossy(output.stderr.as_slice());
        Err(concat2("AgentRuntime did not expose Terminating: ", trim(stderr.as_str())))
    }
}

/// Lists the Agent Sandboxes of a workspace and sandbox through an expression.
pub fn get_sandboxes(workspace: &str, sandbox: &str, expression: &str) -> (arguments: Vec<String>)
    ensures
        views(arguments@) == seq![
            "-n"@,
            "openshell"@,
            "get"@,
            "sandboxes.agents.x-k8s.io"@,
            "--selector"@,
            sandbox_labels(workspace@, sandbox@),
            "-o"@,
            expression@,
        ],
{
    let selector = sandbox_selector(workspace, sandbox);
    let arguments = texts(
        &[
            "-n",
            "openshell",
            "get",
            "sandboxes.agents.x-k8s.io",
            "--selector",
            selector.as_str(),
            "-o",
            expression,
        ],
    );
    assert(views(arguments@) =~= seq![
        "-n"@,
        "openshell"@,
        "get"@,
        "sandboxes.agents.x-k8s.io"@,
        "--selector"@,
        sandbox_labels(workspace@, sandbox@),
        "-o"@,
        expression@,
    ]);
    arguments
}

/// What OpenShell is told to run `curl` in a sandbox.
pub open spec fn in_sandbox(endpoint: Seq<char>, workspace: Seq<char>, sandbox: Seq<char>) -> Seq<
    Seq<char>,
> {
    seq![
        "--gateway-endpoint"@,
        endpoint,
        "--workspace"@,
        workspace,
        "sandbox"@,
        "exec"@,
        "--name"@,
        sandbox,
        "--no-tty"@,
        "--"@,
        "curl"@,
        "-sS"@,
        "--max-time"@,
        "20"@,
    ]
}

/// What OpenShell is told to run `curl` in a sandbox.
fn sandbox_start(endpoint: &str, workspace: &str, sandbox: &str) -> (arguments: Vec<String>)
    ensures
        views(arguments@) == in_sandbox(endpoint@, workspace@, sandbox@),
{
    let arguments = texts(
        &[
            "--gateway-endpoint",
            endpoint,
            "--workspace",
            workspace,
            "sandbox",
            "exec",
            "--name",
            sandbox,
            "--no-tty",
            "--",
            "curl",
            "-sS",
            "--max-time",
            "20",
        ],
    );
    assert(views(arguments@) =~= in_sandbox(endpoint@, workspace@, sandbox@));
    arguments
}

/// The headers of a request, each with its flag.
pub open spec fn header_arguments(headers: Seq<(&str, &str)>, count: int) -> Seq<Seq<char>>
    decreases count,
{
    if count <= 0 || count > headers.len() {
        Seq::empty()
    } else {
        header_arguments(headers, count - 1) + seq![
            "-H"@,
            headers[count - 1].0@ + ": "@ + headers[count - 1].1@,
        ]
    }
}

/// Makes a request from inside a sandbox.
pub fn sandbox_request(
    endpoint: &str,
    workspace: &str,
    sandbox: &str,
    url: &str,
    headers: &[(&str, &str)],
    body: &str,
) -> (arguments: Vec<String>)
    ensures
        views(arguments@) == in_sandbox(endpoint@, workspace@, sandbox@) + header_arguments(
            headers@,
            headers@.len() as int,
        ) + seq!["-d"@, body@, url@],
{
    let mut arguments = sandbox_start(endpoint, workspace, sandbox);
    let ghost start = in_sandbox(endpoint@, workspace@, sandbox@);
    let mut i: usize = 0;
    assert(views(arguments@) =~= start + header_arguments(headers@, 0));
    while i < headers.len()
        invariant
            i <= headers.len(),
            views(arguments@) == start + header_arguments(headers@, i as int),
        decreases headers.len() - i,
    {
        let (name, value) = headers[i];
        let header = concat3(name, ": ", value);
        let flagged = texts(&["-H", header.as_str()]);
        assert(views(flagged@) =~= seq!["-H"@, name@ + ": "@ + value@]);
        let ghost before = views(arguments@);
        extend(&mut arguments, flagged);
        assert(views(arguments@) =~= start + header_arguments(headers@, i + 1));
        i = i + 1;
    }
    let last = texts(&["-d", body, url]);
    assert(views(last@) =~= seq!["-d"@, body@, url@]);
    extend(&mut arguments, last);
    arguments
}

/// The headers of a tool call. One whose answer may come as a stream says that it takes streams.
pub open spec fn tool_headers(streamed: bool) -> Seq<Seq<char>> {
    if streamed {
        seq![
            "-H"@,
            "Content-Type: application/json"@,
            "-H"@,
            "Accept: application/json, text/event-stream"@,
            "-H"@,
            "MCP-Protocol-Version: 2025-06-18"@,
        ]
    } else {
        seq![
            "-H"@,
            "Content-Type: application/json"@,
            "-H"@,
            "MCP-Protocol-Version: 2025-06-18"@,
        ]
    }
}

/// Calls a tool from inside a sandbox.
pub fn call_tool(
    endpoint: &str,
    workspace: &str,
    sandbox: &str,
    url: &str,
    streamed: bool,
    body: &str,
) -> (arguments: Vec<String>)
    ensures
        views(arguments@) == in_sandbox(endpoint@, workspace@, sandbox@) + tool_headers(streamed)
            + seq!["-d"@, body@, url@],
{
    let mut arguments = sandbox_start(endpoint, workspace, sandbox);
    let headers = if streamed {
        texts(
            &[
                "-H",
                "Content-Type: application/json",
                "-H",
                "Accept: application/json, text/event-stream",
                "-H",
                "MCP-Protocol-Version: 2025-06-18",
            ],
        )
    } else {
        texts(
            &[
                "-H",
                "Content-Type: application/json",
                "-H",
                "MCP-Protocol-Version: 2025-06-18",
            ],
        )
    };
    assert(views(headers@) =~= tool_headers(streamed));
    extend(&mut arguments, headers);
    let last = texts(&["-d", body, url]);
    assert(views(last@) =~= seq!["-d"@, body@, url@]);
    extend(&mut arguments, last);
    arguments
}

/// The question that a sandbox puts to a model to try its inference.
pub const INFERENCE_BODY: &'static str =
    "{\"model\":\"openai/priced-model\",\"messages\":[{\"role\":\"user\",\"content\":\"hello\"}]}";

/// Tries inference from inside a sandbox.
pub fn call_inference(endpoint: &str, workspace: &str, sandbox: &str, inference_url: &str) -> (
    arguments: Vec<String>)
    ensures
        views(arguments@) == in_sandbox(endpoint@, workspace@, sandbox@) + seq![
            "-H"@,
            "Content-Type: application/json"@,
            "-d"@,
            INFERENCE_BODY@,
            inference_url@,
        ],
{
    let headers: [(&str, &str); 1] = [("Content-Type", "application/json")];
    let arguments = sandbox_request(
        endpoint,
        workspace,
        sandbox,
        inference_url,
        &headers,
        INFERENCE_BODY,
    );
    proof {
        reveal_with_fuel(header_arguments, 2);
        reveal_strlit("Content-Type");
        reveal_strlit(": ");
        reveal_strlit("application/json");
        reveal_strlit("Content-Type: application/json");
        assert("Content-Type"@ + ": "@ + "application/json"@ =~= "Content-Type: application/json"@);
        assert(header_arguments(headers@, 1) =~= seq!["-H"@, "Content-Type: application/json"@]);
        assert(views(arguments@) =~= in_sandbox(endpoint@, workspace@, sandbox@) + seq![
            "-H"@,
            "Content-Type: application/json"@,
            "-d"@,
            INFERENCE_BODY@,
            inference_url@,
        ]);
    }
    arguments
}

/// Reads what a model answered to a sandbox.
pub fn inference_answer(output: ProcessOutput) -> (answer: Result<String, String>)
    ensures
        text_view(answer) == written_text(
            output.success,
            output.stdout@,
            output.stderr@,
            "sandbox inference call failed"@,
        ),
{
    succeeded(output, "sandbox inference call failed")
}

/// What a call from inside a sandbox wrote to both of its outputs, whatever came of it.
pub fn call_outputs(output: &ProcessOutput) -> (words: String)
    ensures
        words@ == utf8_lossy(output.stdout@) + utf8_lossy(output.stderr@),
{
    let stdout = decode_lossy(output.stdout.as_slice());
    let stderr = decode_lossy(output.stderr.as_slice());
    concat2(stdout.as_str(), stderr.as_str())
}

/// Reads the reference of a runtime, where it could be looked up.
pub fn looked_up(output: ProcessOutput, failure: &str) -> (text: Result<String, String>)
    ensures
        text_view(text) == (if !output.success {
            Err::<Seq<char>, Seq<char>>(failure@)
        } else if !valid_utf8(output.stdout@) {
            Err::<Seq<char>, Seq<char>>(utf8_error_text(output.stdout@))
        } else {
            Ok(trimmed(decode_utf8(output.stdout@)))
        }),
{
    if !output.success {
        return Err(failure.to_owned());
    }
    match decode(output.stdout) {
        Ok(value) => Ok(trim(value.as_str()).to_owned()),
        Err(words) => Err(words),
    }
}

/// What a `curl` is told about the body of a request.
pub open spec fn body_arguments(body: Option<Seq<char>>) -> Seq<Seq<char>> {
    match body {
        Some(words) => seq!["--header"@, "content-type: application/json"@, "--data"@, words],
        None => Seq::empty(),
    }
}

/// The view of an optional text.
pub open spec fn option_str(text: Option<&str>) -> Option<Seq<char>> {
    match text {
        Some(words) => Some(words@),
        None => None,
    }
}

/// Adds the body of a request, and where it goes.
fn send(arguments: &mut Vec<String>, body: Option<&str>, url: &str)
    ensures
        views(final(arguments)@) == views(old(arguments)@) + body_arguments(option_str(body))
            + seq![url@],
{
    let flagged = match body {
        Some(words) => texts(&["--header", "content-type: application/json", "--data", words]),
        None => Vec::new(),
    };
    assert(views(flagged@) =~= body_arguments(option_str(body)));
    extend(arguments, flagged);
    let target = texts(&[url]);
    assert(views(target@) =~= seq![url@]);
    extend(arguments, target);
}

/// Makes a signed request to Steward.
pub fn steward(
    ca_certificate: &str,
    resolve: &str,
    method: &str,
    bearer_token: &str,
    output: &str,
    body: Option<&str>,
    api_url: &str,
    path: &str,
) -> (arguments: Vec<String>)
    ensures
        views(arguments@) == seq![
            "--silent"@,
            "--show-error"@,
            "--cacert"@,
            ca_certificate@,
            "--resolve"@,
            resolve@,
            "--request"@,
            method@,
            "--header"@,
            "authorization: Bearer "@ + bearer_token@,
            "--output"@,
            output@,
            "--write-out"@,
            "%{http_code}"@,
        ] + body_arguments(option_str(body)) + seq![api_url@ + path@],
{
    let bearer = concat2("authorization: Bearer ", bearer_token);
    let mut arguments = texts(
        &[
            "--silent",
            "--show-error",
            "--cacert",
            ca_certificate,
            "--resolve",
            resolve,
            "--request",
            method,
            "--header",
            bearer.as_str(),
            "--output",
            output,
            "--write-out",
            "%{http_code}",
        ],
    );
    assert(views(arguments@) =~= seq![
        "--silent"@,
        "--show-error"@,
        "--cacert"@,
        ca_certificate@,
        "--resolve"@,
        resolve@,
        "--request"@,
        method@,
        "--header"@,
        "authorization: Bearer "@ + bearer_token@,
        "--output"@,
        output@,
        "--write-out"@,
        "%{http_code}"@,
    ]);
    let url = concat2(api_url, path);
    send(&mut arguments, body, url.as_str());
    arguments
}

/// Makes an unsigned request to Steward.
pub fn curl(
    ca_certificate: &str,
    resolve: &str,
    method: &str,
    output: &str,
    body: Option<&str>,
    api_url: &str,
    path: &str,
) -> (arguments: Vec<String>)
    ensures
        views(arguments@) == seq![
            "--silent"@,
            "--show-error"@,
            "--cacert"@,
            ca_certificate@,
            "--resolve"@,
            resolve@,
            "--request"@,
            method@,
            "--output"@,
            output@,
            "--write-out"@,
            "%{http_code}"@,
        ] + body_arguments(option_str(body)) + seq![api_url@ + path@],
{
    let mut arguments = texts(
        &[
            "--silent",
            "--show-error",
            "--cacert",
            ca_certificate,
            "--resolve",
            resolve,
            "--request",
            method,
            "--output",
            output,
            "--write-out",
            "%{http_code}",
        ],
    );
    assert(views(arguments@) =~= seq![
        "--silent"@,
        "--show-error"@,
        "--cacert"@,
        ca_certificate@,
        "--resolve"@,
        resolve@,
        "--request"@,
        method@,
        "--output"@,
        output@,
        "--write-out"@,
        "%{http_code}"@,
    ]);
    let url = concat2(api_url, path);
    send(&mut arguments, body, url.as_str());
    arguments
}

/// Makes a request to the Jira of the tests.
pub fn jira(method: &str, output: &str, jira_url: &str, path: &str) -> (arguments: Vec<String>)
    ensures
        views(arguments@) == seq![
            "--silent"@,
            "--show-error"@,
            "--request"@,
            method@,
            "--output"@,
            output@,
            "--write-out"@,
            "%{http_code}"@,
            jira_url@ + path@,
        ],
{
    let url = concat2(jira_url, path);
    let arguments = texts(
        &[
            "--silent",
            "--show-error",
            "--request",
            method,
            "--output",
            output,
            "--write-out",
            "%{http_code}",
            url.as_str(),
        ],
    );
    assert(views(arguments@) =~= seq![
        "--silent"@,
        "--show-error"@,
        "--request"@,
        method@,
        "--output"@,
        output@,
        "--write-out"@,
        "%{http_code}"@,
        jira_url@ + path@,
    ]);
    arguments
}

/// The status that a finished `curl` wrote, where it did what it was to do. `program` is what the
/// request is called, `kind` what the status is called.
pub open spec fn request_status(
    success: bool,
    stdout: Seq<u8>,
    stderr: Seq<u8>,
    program: Seq<char>,
    kind: Seq<char>,
    method: Seq<char>,
    path: Seq<char>,
) -> Result<u16, Seq<char>> {
    match written_text(
        success,
        stdout,
        stderr,
        program + " "@ + method + " "@ + path + " failed"@,
    ) {
        Err(words) => Err(words),
        Ok(written) => match u16_value(written) {
            Some(status) => Ok(status),
            None => Err("invalid "@ + kind + ": "@ + u16_error_text(written)),
        },
    }
}

/// Reads the status that a finished `curl` wrote.
pub fn read_status(output: ProcessOutput, program: &str, kind: &str, method: &str, path: &str) -> (
    status: Result<u16, String>)
    ensures
        status_view(status) == request_status(
            output.success,
            output.stdout@,
            output.stderr@,
            program@,
            kind@,
            method@,
            path@,
        ),
{
    let mut failure = concat4(program, " ", method, " ");
    failure.append(path);
    failure.append(" failed");
    let written = match succeeded(output, failure.as_str()) {
        Ok(written) => written,
        Err(words) => return Err(words),
    };
    match parse_u16(written.as_str()) {
        Ok(status) => Ok(status),
        Err(words) => Err(concat4("invalid ", kind, ": ", words.as_str())),
    }
}

/// Reads the status of a reply of Steward.
pub fn steward_status(output: ProcessOutput, method: &str, path: &str) -> (status: Result<
    u16,
    String,
>)
    ensures
        status_view(status) == request_status(
            output.success,
            output.stdout@,
            output.stderr@,
            "curl"@,
            "HTTP status"@,
            method@,
            path@,
        ),
{
    read_status(output, "curl", "HTTP status", method, path)
}

/// Reads the status of a reply of the Jira of the tests.
pub fn jira_status(output: ProcessOutput, method: &str, path: &str) -> (status: Result<u16, String>)
    ensures
        status_view(status) == request_status(
            output.success,
            output.stdout@,
            output.stderr@,
            "mock Jira"@,
            "Jira HTTP status"@,
            method@,
            path@,
        ),
{
    read_status(output, "mock Jira", "Jira HTTP status", method, path)
}

/// Asks for the state of the Jira of the tests.
pub fn get_jira_state(jira_url: &str) -> (arguments: Vec<String>)
    ensures
        views(arguments@) == seq![
            "--silent"@,
            "--show-error"@,
            jira_url@ + "/test/state"@,
        ],
{
    let url = concat2(jira_url, "/test/state");
    let arguments = texts(&["--silent", "--show-error", url.as_str()]);
    assert(views(arguments@) =~= seq![
        "--silent"@,
        "--show-error"@,
        jira_url@ + "/test/state"@,
    ]);
    arguments
}

/// Reads the state of the Jira of the tests.
pub fn jira_state(output: ProcessOutput) -> (state: Result<serde_json::Value, String>)
    ensures
        value_view(state) == (if output.success {
            document(output.stdout@)
        } else {
            Err::<JsonTree, Seq<char>>(
                "mock Jira state request failed: "@ + trimmed(utf8_lossy(output.stderr@)),
            )
        }),
{
    if !output.success {
        let stderr = decode_lossy(output.stderr.as_slice());
        return Err(concat2("mock Jira state request failed: ", trim(stderr.as_str())));
    }
    parse(output.stdout.as_slice())
}

/// The text behind a JSON pointer, or what is missing.
pub open spec fn named_or_missing(found: Option<Seq<char>>, pointer: Seq<char>) -> Result<
    Seq<char>,
    Seq<char>,
> {
    match found {
        Some(words) => Ok(words),
        None => Err("response is missing "@ + pointer),
    }
}

/// The text that a JSON pointer leads to in a reply.
pub fn required_json_string(value: &serde_json::Value, pointer: &str) -> (found: Result<
    String,
    String,
>)
    ensures
        text_view(found) == named_or_missing(
            tree_text(pointed_tree(json_tree(*value), pointer@)),
            pointer@,
        ),
{
    let text = match pointed(value, pointer) {
        Some(inner) => as_text(inner),
        None => None,
    };
    required_text(text, pointer)
}

/// The text that was found behind a JSON pointer; otherwise what is missing.
pub fn required_text(text: Option<&str>, pointer: &str) -> (found: Result<String, String>)
    ensures
        text_view(found) == named_or_missing(option_str(text), pointer@),
{
    match text {
        Some(words) => Ok(words.to_owned()),
        None => Err(concat2("response is missing ", pointer)),
    }
}

/// Presents a captured credential once more.
pub fn replay(capture_url: &str, path: &str) -> (arguments: Vec<String>)
    ensures
        views(arguments@) == seq!["-fsS"@, "-X"@, "POST"@, capture_url@ + path@],
{
    let url = concat2(capture_url, path);
    let arguments = texts(&["-fsS", "-X", "POST", url.as_str()]);
    assert(views(arguments@) =~= seq!["-fsS"@, "-X"@, "POST"@, capture_url@ + path@]);
    arguments
}

/// The status with which a replayed credential was answered.
pub open spec fn replayed_status(success: bool, stdout: Seq<u8>, path: Seq<char>) -> Result<
    u16,
    Seq<char>,
> {
    if !success {
        Err("capture replay "@ + path + " failed"@)
    } else {
        match document(stdout) {
            Err(words) => Err(words),
            Ok(tree) => match tree_u64(member_tree(tree, "upstreamStatus"@)) {
                Some(status) => if status <= u16::MAX {
                    Ok(status as u16)
                } else {
                    Err("capture replay "@ + path + " had no status"@)
                },
                None => Err("capture replay "@ + path + " had no status"@),
            },
        }
    }
}

/// Reads the status with which a replayed credential was answered.
pub fn replay_status(output: &ProcessOutput, path: &str) -> (status: Result<u16, String>)
    ensures
        status_view(status) == replayed_status(output.success, output.stdout@, path@),
{
    if !output.success {
        return Err(concat3("capture replay ", path, " failed"));
    }
    let body = match parse(output.stdout.as_slice()) {
        Ok(body) => body,
        Err(words) => return Err(words),
    };
    let found: Option<u64> = match member(&body, "upstreamStatus") {
        Some(inner) => as_number(inner),
        None => None,
    };
    match found {
        Some(status) if status <= 65535 => Ok(status as u16),
        _ => Err(concat3("capture replay ", path, " had no status")),
    }
}

/// Lists the inference keys of an alias.
pub fn key_list(master_key: &str, alias: &str, litellm_url: &str) -> (arguments: Vec<String>)
    ensures
        views(arguments@) == seq![
            "-fsS"@,
            "-H"@,
            "Authorization: Bearer "@ + trimmed(master_key@),
            "--get"@,
            "--data-urlencode"@,
            "key_alias="@ + alias@,
            "--data-urlencode"@,
            "return_full_object=true"@,
            litellm_url@ + "/key/list"@,
        ],
{
    let bearer = concat2("Authorization: Bearer ", trim(master_key));
    let query = concat2("key_alias=", alias);
    let url = concat2(litellm_url, "/key/list");
    let arguments = texts(
        &[
            "-fsS",
            "-H",
            bearer.as_str(),
            "--get",
            "--data-urlencode",
            query.as_str(),
            "--data-urlencode",
            "return_full_object=true",
            url.as_str(),
        ],
    );
    assert(views(arguments@) =~= seq![
        "-fsS"@,
        "-H"@,
        "Authorization: Bearer "@ + trimmed(master_key@),
        "--get"@,
        "--data-urlencode"@,
        "key_alias="@ + alias@,
        "--data-urlencode"@,
        "return_full_object=true"@,
        litellm_url@ + "/key/list"@,
    ]);
    arguments
}

/// How many inference keys a listing counts.
pub open spec fn counted_keys(success: bool, stdout: Seq<u8>) -> Result<u64, Seq<char>> {
    if !success {
        Err("LiteLLM key lookup failed"@)
    } else {
        match document(stdout) {
            Err(words) => Err(words),
            Ok(tree) => match tree_u64(member_tree(tree, "total_count"@)) {
                Some(count) => Ok(count),
                None => Err("LiteLLM key count was missing"@),
            },
        }
    }
}

/// Reads how many inference keys a listing counts.
pub fn key_count(output: &ProcessOutput) -> (count: Result<u64, String>)
    ensures
        match counted_keys(output.success, output.stdout@) {
            Ok(found) => count == Ok::<u64, String>(found),
            Err(fault) => count matches Err(words) && words@ == fault,
        },
{
    let body = match listed_keys(output) {
        Ok(body) => body,
        Err(words) => return Err(words),
    };
    let found: Option<u64> = match member(&body, "total_count") {
        Some(inner) => as_number(inner),
        None => None,
    };
    match found {
        Some(count) => Ok(count),
        None => Err("LiteLLM key count was missing".to_owned()),
    }
}

/// Reads a listing of inference keys.
pub fn listed_keys(output: &ProcessOutput) -> (listing: Result<serde_json::Value, String>)
    ensures
        value_view(listing) == (if output.success {
            document(output.stdout@)
        } else {
            Err::<JsonTree, Seq<char>>("LiteLLM key lookup failed"@)
        }),
{
    if !output.success {
        return Err("LiteLLM key lookup failed".to_owned());
    }
    parse(output.stdout.as_slice())
}

/// What a listing of inference keys shows of a suspended runtime.
pub open spec fn key_absence(success: bool, stdout: Seq<u8>) -> Result<(), Seq<char>> {
    if !success {
        Err("LiteLLM key lookup failed"@)
    } else {
        match document(stdout) {
            Err(words) => Err(words),
            Ok(tree) => if tree_u64(member_tree(tree, "total_count"@)) == Some(0u64) {
                Ok(())
            } else {
                Err("a suspended runtime must have no live inference key"@)
            },
        }
    }
}

/// Makes sure that a suspended runtime has no inference key.
pub fn assert_key_absent(output: &ProcessOutput) -> (outcome: Result<(), String>)
    ensures
        outcome_view(outcome) == key_absence(output.success, output.stdout@),
{
    let body = match listed_keys(output) {
        Ok(body) => body,
        Err(words) => return Err(words),
    };
    let found: Option<u64> = match member(&body, "total_count") {
        Some(inner) => as_number(inner),
        None => None,
    };
    match found {
        Some(count) if count == 0 => Ok(()),
        _ => Err("a suspended runtime must have no live inference key".to_owned()),
    }
}

/// What a terminated runtime still holds, if anything, in the order in which it is looked for.
pub open spec fn holdings(
    mint: u16,
    tool: u16,
    inference: u16,
    keys: u64,
    secret_found: bool,
    sandboxes: Seq<char>,
) -> Result<(), Seq<char>> {
    if mint != 403 {
        Err("the mint must refuse the captured sandbox SVID after its runtime is gone"@)
    } else if tool != 401 {
        Err("mcp-gw must reject the previously issued HOP-1 after termination"@)
    } else if inference != 401 {
        Err("LiteLLM must reject the previously issued runtime key after termination"@)
    } else if keys != 0 {
        Err("the runtime key must be absent from LiteLLM's active key set"@)
    } else if secret_found {
        Err("the runtime-scoped credential Secret survived termination"@)
    } else {
        leftover(sandboxes, "the terminated runtime retained Agent Sandbox resources: "@)
    }
}

/// Makes sure that a terminated runtime holds nothing any more: its captured credentials are
/// refused everywhere, and its key, its Secret and its sandboxes are gone.
pub fn assert_holds_nothing(
    mint: u16,
    tool: u16,
    inference: u16,
    keys: u64,
    secret_found: bool,
    sandboxes: &str,
) -> (outcome: Result<(), String>)
    ensures
        outcome_view(outcome) == holdings(mint, tool, inference, keys, secret_found, sandboxes@),
{
    if mint != 403 {
        return Err(
            "the mint must refuse the captured sandbox SVID after its runtime is gone".to_owned(),
        );
    }
    if tool != 401 {
        return Err(
            "mcp-gw must reject the previously issued HOP-1 after termination".to_owned(),
        );
    }
    if inference != 401 {
        return Err(
            "LiteLLM must reject the previously issued runtime key after termination".to_owned(),
        );
    }
    if keys != 0 {
        return Err("the runtime key must be absent from LiteLLM's active key set".to_owned());
    }
    if secret_found {
        return Err("the runtime-scoped credential Secret survived termination".to_owned());
    }
    nothing_left(sandboxes, "the terminated runtime retained Agent Sandbox resources: ")
}

/// A terminated runtime passes only where every one of its credentials is refused and nothing of
/// it is left.
pub proof fn law_nothing_is_held_after_termination(
    mint: u16,
    tool: u16,
    inference: u16,
    keys: u64,
    secret_found: bool,
    sandboxes: Seq<char>,
)
    ensures
        holdings(mint, tool, inference, keys, secret_found, sandboxes) is Ok <==> (mint == 403
            && tool == 401 && inference == 401 && keys == 0 && !secret_found && trimmed(
            sandboxes,
        ).len() == 0),
{
}

/// Presents a forged SVID to the mint behind a forwarded port.
pub fn forged_svid(port: u16) -> (arguments: Vec<String>)
    ensures
        views(arguments@) == seq![
            "-sS"@,
            "-o"@,
            "/dev/null"@,
            "-w"@,
            "%{http_code}"@,
            "-X"@,
            "POST"@,
            "-H"@,
            "Content-Type: application/x-www-form-urlencoded"@,
            "--data-urlencode"@,
            "grant_type=client_credentials"@,
            "--data-urlencode"@,
            "client_assertion_type=urn:ietf:params:oauth:client-assertion-type:jwt-spiffe"@,
            "--data-urlencode"@,
            "client_assertion=eyJhbGciOiJub25lIn0.eyJleHAiOjB9."@,
            "--data-urlencode"@,
            "audience=steward-mcp"@,
            "--data-urlencode"@,
            "scope=mcp"@,
            "http://127.0.0.1:"@ + decimal_digits(port as nat) + "/token"@,
        ],
{
    let digits = decimal(port as u128);
    let url = concat3("http://127.0.0.1:", digits.as_str(), "/token");
    let arguments = texts(
        &[
            "-sS",
            "-o",
            "/dev/null",
            "-w",
            "%{http_code}",
            "-X",
            "POST",
            "-H",
            "Content-Type: application/x-www-form-urlencoded",
            "--data-urlencode",
            "grant_type=client_credentials",
            "--data-urlencode",
            "client_assertion_type=urn:ietf:params:oauth:client-assertion-type:jwt-spiffe",
            "--data-urlencode",
            "client_assertion=eyJhbGciOiJub25lIn0.eyJleHAiOjB9.",
            "--data-urlencode",
            "audience=steward-mcp",
            "--data-urlencode",
            "scope=mcp",
            url.as_str(),
        ],
    );
    assert(views(arguments@) =~= seq![
        "-sS"@,
        "-o"@,
        "/dev/null"@,
        "-w"@,
        "%{http_code}"@,
        "-X"@,
        "POST"@,
        "-H"@,
        "Content-Type: application/x-www-form-urlencoded"@,
        "--data-urlencode"@,
        "grant_type=client_credentials"@,
        "--data-urlencode"@,
        "client_assertion_type=urn:ietf:params:oauth:client-assertion-type:jwt-spiffe"@,
        "--data-urlencode"@,
        "client_assertion=eyJhbGciOiJub25lIn0.eyJleHAiOjB9."@,
        "--data-urlencode"@,
        "audience=steward-mcp"@,
        "--data-urlencode"@,
        "scope=mcp"@,
        "http://127.0.0.1:"@ + decimal_digits(port as nat) + "/token"@,
    ]);
    arguments
}

/// Reads the status with which a forged SVID was answered.
pub fn forged_svid_status(output: ProcessOutput) -> (status: Result<u16, String>)
    ensures
        status_view(status) == (if !output.success {
            Err::<u16, Seq<char>>("forged SVID request failed to execute"@)
        } else if !valid_utf8(output.stdout@) {
            Err::<u16, Seq<char>>(utf8_error_text(output.stdout@))
        } else {
            match u16_value(decode_utf8(output.stdout@)) {
                Some(number) => Ok(number),
                None => Err::<u16, Seq<char>>(
                    "invalid HTTP status: "@ + u16_error_text(decode_utf8(output.stdout@)),
                ),
            }
        }),
{
    if !output.success {
        return Err("forged SVID request failed to execute".to_owned());
    }
    match decode(output.stdout) {
        Err(words) => Err(words),
        Ok(written) => match parse_u16(written.as_str()) {
            Ok(status) => Ok(status),
            Err(words) => Err(concat2("invalid HTTP status: ", words.as_str())),
        },
    }
}

/// Forwards a port of the machine to a service.
pub fn port_forward(namespace: &str, service: &str) -> (arguments: Vec<String>)
    ensures
        views(arguments@) == seq![
            "-n"@,
            namespace@,
            "port-forward"@,
            "svc/"@ + service@,
            ":8080"@,
        ],
{
    let target = concat2("svc/", service);
    let arguments = texts(&["-n", namespace, "port-forward", target.as_str(), ":8080"]);
    assert(views(arguments@) =~= seq![
        "-n"@,
        namespace@,
        "port-forward"@,
        "svc/"@ + service@,
        ":8080"@,
    ]);
    arguments
}

/// The names under which a controller is handed its settings, in the order in which it is handed
/// them.
pub open spec fn controller_names(suite: Suite) -> Seq<Seq<char>> {
    if suite == Suite::S0 {
        seq!["STEWARD_TEST_KUBE_CONTEXT"@, "STEWARD_OPENSHELL_ENDPOINT"@]
    } else {
        seq![
            "STEWARD_OPENSHELL_ENDPOINT"@,
            "STEWARD_OPENSHELL_CA_CERTIFICATE_FILE"@,
            "STEWARD_OPENSHELL_CLIENT_CERTIFICATE_FILE"@,
            "STEWARD_OPENSHELL_CLIENT_PRIVATE_KEY_FILE"@,
            "STEWARD_WORKLOAD_EXCHANGE_ENDPOINT"@,
            "STEWARD_WORKLOAD_EXCHANGE_SERVER_NAME"@,
            "STEWARD_WORKLOAD_EXCHANGE_CA_CERTIFICATE_FILE"@,
            "STEWARD_WORKLOAD_SOURCE_CREDENTIAL_FILE"@,
            "STEWARD_OPENSHELL_SERVER_NAME"@,
            "STEWARD_OPENSHELL_RUNTIME_CLASS_NAME"@,
        ]
    }
}

/// The settings that name where Steward is reached, and how that name is resolved.
pub open spec fn api_settings(suite: Suite) -> (Seq<char>, Seq<char>) {
    match suite {
        Suite::S3 => ("STEWARD_S3_URL"@, "STEWARD_S3_RESOLVE"@),
        Suite::S4 => ("STEWARD_S4_URL"@, "STEWARD_S4_RESOLVE"@),
        _ => ("STEWARD_POC_URL"@, "STEWARD_POC_RESOLVE"@),
    }
}

/// The settings that name where Steward is reached, and how that name is resolved.
pub fn api_names(suite: Suite) -> (names: (&'static str, &'static str))
    ensures
        (names.0@, names.1@) == api_settings(suite),
{
    match suite {
        Suite::S3 => ("STEWARD_S3_URL", "STEWARD_S3_RESOLVE"),
        Suite::S4 => ("STEWARD_S4_URL", "STEWARD_S4_RESOLVE"),
        _ => ("STEWARD_POC_URL", "STEWARD_POC_RESOLVE"),
    }
}

/// The runtimes that a suite removes one by one when it is over, each by its namespace and its name,
/// in the order of their removal.
pub open spec fn removed_runtimes(suite: Suite) -> Seq<(Seq<char>, Seq<char>)> {
    match suite {
        Suite::S0 => seq![("team-a"@, "runtime-a"@)],
        Suite::S1 => seq![
            ("team-a"@, "runtime-scheduled-scanner"@),
            ("team-a"@, "runtime-steward-run"@),
            ("team-b"@, "runtime-bob"@),
            ("team-a"@, "runtime-alice"@),
        ],
        Suite::S2 => seq![("team-a"@, "runtime-priced"@), ("team-a"@, "runtime-unpriced"@)],
        Suite::S5 => seq![("team-a"@, "runtime-revocation"@)],
        Suite::Connections => seq![
            ("team-a"@, "new-alice-after-disconnect"@),
            ("team-b"@, "long-running-bob"@),
            ("team-a"@, "long-running-alice"@),
        ],
        _ => Seq::empty(),
    }
}

/// The views of named things.
pub open spec fn pair_views(pairs: Seq<(&str, &str)>) -> Seq<(Seq<char>, Seq<char>)> {
    Seq::new(pairs.len(), |i: int| (pairs[i].0@, pairs[i].1@))
}

/// The runtimes that a suite removes one by one when it is over.
pub fn runtimes_to_remove(suite: Suite) -> (runtimes: Vec<(&'static str, &'static str)>)
    ensures
        pair_views(runtimes@) == removed_runtimes(suite),
{
    let runtimes: Vec<(&'static str, &'static str)> = match suite {
        Suite::S0 => vec![("team-a", "runtime-a")],
        Suite::S1 => vec![
            ("team-a", "runtime-scheduled-scanner"),
            ("team-a", "runtime-steward-run"),
            ("team-b", "runtime-bob"),
            ("team-a", "runtime-alice"),
        ],
        Suite::S2 => vec![("team-a", "runtime-priced"), ("team-a", "runtime-unpriced")],
        Suite::S5 => vec![("team-a", "runtime-revocation")],
        Suite::Connections => vec![
            ("team-a", "new-alice-after-disconnect"),
            ("team-b", "long-running-bob"),
            ("team-a", "long-running-alice"),
        ],
        _ => Vec::new(),
    };
    assert(pair_views(runtimes@) =~= removed_runtimes(suite));
    runtimes
}

/// The namespace that a suite removes when it is over, if it removes one.
pub fn namespace_to_remove(suite: Suite) -> (namespace: Option<&'static str>)
    ensures
        option_str(namespace) == (if suite == Suite::S0 || suite == Suite::S3 || suite
            == Suite::S4 {
            Some("team-a"@)
        } else {
            None
        }),
{
    match suite {
        Suite::S0 | Suite::S3 | Suite::S4 => Some("team-a"),
        _ => None,
    }
}

/// The suite starts a controller as a process of its own.
pub open spec fn starts_a_controller(suite: Suite) -> bool {
    suite == Suite::S0 || suite == Suite::S1
}

/// The names under which a controller is handed its settings.
fn names_for_controller(suite: Suite) -> (names: Vec<&'static str>)
    ensures
        str_views(names@) == controller_names(suite),
{
    let names: Vec<&'static str> = match suite {
        Suite::S0 => vec!["STEWARD_TEST_KUBE_CONTEXT", "STEWARD_OPENSHELL_ENDPOINT"],
        _ => vec![
            "STEWARD_OPENSHELL_ENDPOINT",
            "STEWARD_OPENSHELL_CA_CERTIFICATE_FILE",
            "STEWARD_OPENSHELL_CLIENT_CERTIFICATE_FILE",
            "STEWARD_OPENSHELL_CLIENT_PRIVATE_KEY_FILE",
            "STEWARD_WORKLOAD_EXCHANGE_ENDPOINT",
            "STEWARD_WORKLOAD_EXCHANGE_SERVER_NAME",
            "STEWARD_WORKLOAD_EXCHANGE_CA_CERTIFICATE_FILE",
            "STEWARD_WORKLOAD_SOURCE_CREDENTIAL_FILE",
            "STEWARD_OPENSHELL_SERVER_NAME",
            "STEWARD_OPENSHELL_RUNTIME_CLASS_NAME",
        ],
    };
    assert(str_views(names@) =~= controller_names(suite));
    names
}

/// A controller that is to be started: its program, and the settings that it is handed, each with
/// its name.
pub struct ControllerStart {
    pub program: String,
    pub settings: Vec<(String, String)>,
}

/// The views of named settings.
pub open spec fn setting_views(settings: Seq<(String, String)>) -> Seq<(Seq<char>, Seq<char>)> {
    Seq::new(settings.len(), |i: int| (settings[i].0@, settings[i].1@))
}

impl Harness {
    /// The first `count` of the settings that a controller is handed under the names that they have
    /// in the environment.
    pub open spec fn handed_on(&self, count: int) -> Seq<(Seq<char>, Seq<char>)> {
        Seq::new(
            count as nat,
            |i: int|
                (
                    controller_names(self.suite)[i],
                    self.setting(controller_names(self.suite)[i]),
                ),
        )
    }

    /// All that a controller is handed: the configuration of the cluster, what it has from the
    /// environment and, where it takes part in the bootstrap, the word for that.
    pub open spec fn controller_settings(&self) -> Seq<(Seq<char>, Seq<char>)> {
        let handed = seq![("KUBECONFIG"@, self.setting("STEWARD_TEST_KUBECONFIG"@))]
            + self.handed_on(controller_names(self.suite).len() as int);
        if self.suite == Suite::S1 {
            handed.push(("STEWARD_S0_BOOTSTRAP"@, "1"@))
        } else {
            handed
        }
    }

    /// What is looked for to start a controller, in the order in which it is looked for.
    pub open spec fn controller_needs(&self) -> Seq<Seq<char>> {
        seq!["STEWARD_CONTROLLER_BIN"@] + controller_names(self.suite)
    }

    /// The controller that is to be started, or what is missing for that.
    pub fn start_controller(&self) -> (started: Result<ControllerStart, String>)
        requires
            self.well_formed(),
            starts_a_controller(self.suite),
        ensures
            match first_missing(self.environment, self.controller_needs(), 0) {
                None => started matches Ok(start) && start.program@ == self.setting(
                    "STEWARD_CONTROLLER_BIN"@,
                ) && setting_views(start.settings@) == self.controller_settings(),
                Some(name) => started matches Err(words) && words@ == missing(self.suite, name),
            },
    {
        proof {
            lemma_needs_kubeconfig(self.suite, self.environment);
        }
        let ghost needs = self.controller_needs();
        assert(needs[0] == "STEWARD_CONTROLLER_BIN"@);
        let program = match self.environment.get("STEWARD_CONTROLLER_BIN") {
            Some(program) => program,
            None => return Err(missing_words(self.suite, "STEWARD_CONTROLLER_BIN")),
        };
        let kubeconfig = match self.environment.get("STEWARD_TEST_KUBECONFIG") {
            Some(value) => value,
            None => String::new(),
        };
        let mut settings: Vec<(String, String)> = Vec::new();
        settings.push(("KUBECONFIG".to_owned(), kubeconfig));
        let names = names_for_controller(self.suite);
        let ghost first = ("KUBECONFIG"@, self.setting("STEWARD_TEST_KUBECONFIG"@));
        assert(setting_views(settings@) =~= seq![first] + self.handed_on(0));
        let mut i: usize = 0;
        while i < names.len()
            invariant
                i <= names.len(),
                str_views(names@) == controller_names(self.suite),
                needs == self.controller_needs(),
                first_missing(self.environment, needs, 0) == first_missing(
                    self.environment,
                    needs,
                    i + 1,
                ),
                setting_views(settings@) == seq![first] + self.handed_on(i as int),
            decreases names.len() - i,
        {
            assert(needs[i + 1] == names@[i as int]@);
            let value = match self.environment.get(names[i]) {
                Some(value) => value,
                None => return Err(missing_words(self.suite, names[i])),
            };
            let ghost before = settings@;
            settings.push((names[i].to_owned(), value));
            assert(setting_views(settings@) =~= setting_views(before).push(
                (names@[i as int]@, value@),
            ));
            assert(seq![first] + self.handed_on(i + 1) =~= (seq![first] + self.handed_on(
                i as int,
            )).push((names@[i as int]@, value@)));
            i = i + 1;
        }
        if self.suite == Suite::S1 {
            let ghost before = settings@;
            settings.push(("STEWARD_S0_BOOTSTRAP".to_owned(), "1".to_owned()));
            assert(setting_views(settings@) =~= setting_views(before).push(
                ("STEWARD_S0_BOOTSTRAP"@, "1"@),
            ));
        }
        Ok(ControllerStart { program, settings })
    }
}

/// A controller gets the configuration of the cluster that `kubectl` is told, in which the context
/// is the one of an ephemeral cluster.
pub proof fn law_controllers_get_the_cluster_of_their_harness(harness: Harness)
    requires
        harness.well_formed(),
    ensures
        harness.controller_settings()[0] == ("KUBECONFIG"@, harness.cluster_arguments()[1]),
        crate::text::has_prefix(
            harness.cluster_arguments()[3],
            crate::harness::context_prefix(harness.suite),
        ),
{
}

/// The headers of a request follow on each other in their order, each behind its flag, with its name
/// before its value.
pub proof fn law_headers_follow_in_their_order(headers: Seq<(&str, &str)>, count: int, at: int)
    requires
        0 <= at < count <= headers.len(),
    ensures
        header_arguments(headers, count).len() == 2 * count,
        header_arguments(headers, count)[2 * at] == "-H"@,
        header_arguments(headers, count)[2 * at + 1] == headers[at].0@ + ": "@ + headers[at].1@,
    decreases count,
{
    if count > 1 {
        law_headers_follow_in_their_order(
            headers,
            count - 1,
            if at < count - 1 {
                at
            } else {
                0
            },
        );
    }
    reveal_with_fuel(header_arguments, 2);
}

/// A status that was written is read back; a request that failed is told by its method and path.
pub proof fn law_statuses_of_requests_are_read_back(
    status: u16,
    stdout: Seq<u8>,
    stderr: Seq<u8>,
    program: Seq<char>,
    kind: Seq<char>,
    method: Seq<char>,
    path: Seq<char>,
)
    ensures
        request_status(
            true,
            encode_utf8(decimal_digits(status as nat)),
            stderr,
            program,
            kind,
            method,
            path,
        ) == Ok::<u16, Seq<char>>(status),
        request_status(false, stdout, stderr, program, kind, method, path) == Err::<u16, Seq<char>>(
            program + " "@ + method + " "@ + path + " failed"@ + ": "@ + trimmed(
                utf8_lossy(stderr),
            ),
        ),
{
    let digits = decimal_digits(status as nat);
    encode_utf8_valid_utf8(digits);
    encode_utf8_decode_utf8(digits);
    crate::text::lemma_decimal_digits(status as nat);
}

/// What was answered to a replay, and how many keys there are, is the number of its name in the
/// document; keys are absent exactly where this number is zero.
pub proof fn law_numbers_are_read_from_their_members(
    stdout: Seq<u8>,
    members: Map<Seq<char>, JsonTree>,
    n: u64,
    words: Seq<char>,
    path: Seq<char>,
)
    requires
        crate::json::json_document(stdout) == Some(JsonTree::Object(members)),
    ensures
        members.dom().contains("total_count"@) && members["total_count"@] == JsonTree::Number(
            Some(n),
            words,
        ) ==> counted_keys(true, stdout) == Ok::<u64, Seq<char>>(n) && (key_absence(true, stdout)
            is Ok <==> n == 0),
        !members.dom().contains("total_count"@) ==> counted_keys(true, stdout) is Err
            && key_absence(true, stdout) is Err,
        members.dom().contains("upstreamStatus"@) && members["upstreamStatus"@]
            == JsonTree::Number(Some(n), words) ==> (replayed_status(true, stdout, path) is Ok
            <==> n <= 65535) && (n <= 65535 ==> replayed_status(true, stdout, path) == Ok::<
            u16,
            Seq<char>,
        >(n as u16)),
        !members.dom().contains("upstreamStatus"@) ==> replayed_status(true, stdout, path)
            == Err::<u16, Seq<char>>("capture replay "@ + path + " had no status"@),
        counted_keys(false, stdout) is Err && key_absence(false, stdout) is Err && replayed_status(
            false,
            stdout,
            path,
        ) is Err,
{
}

/// A controller is handed every setting that it needs under its own name, with the value that the
/// environment has, and takes part in the bootstrap in one suite alone.
pub proof fn law_controllers_are_handed_their_settings(harness: Harness, at: int)
    requires
        harness.well_formed(),
        starts_a_controller(harness.suite),
        first_missing(harness.environment, harness.controller_needs(), 0) is None,
        0 <= at < controller_names(harness.suite).len(),
    ensures
        ({
            let handed = harness.controller_settings();
            let names = controller_names(harness.suite);
            &&& handed[0].0 == "KUBECONFIG"@
            &&& handed[at + 1].0 == names[at]
            &&& harness.environment.value(names[at]) == Some(handed[at + 1].1)
            &&& handed.len() == names.len() + (if harness.suite == Suite::S1 {
                2int
            } else {
                1int
            })
            &&& harness.suite == Suite::S1 ==> handed.last() == ("STEWARD_S0_BOOTSTRAP"@, "1"@)
            &&& names.contains("STEWARD_OPENSHELL_ENDPOINT"@)
        }),
{
    let names = controller_names(harness.suite);
    let needs = harness.controller_needs();
    assert(needs[at + 1] == names[at]);
    crate::harness::lemma_none_missing(harness.environment, needs, 0, at + 1);
    if harness.suite == Suite::S0 {
        assert(names[1] == "STEWARD_OPENSHELL_ENDPOINT"@);
    } else {
        assert(names[0] == "STEWARD_OPENSHELL_ENDPOINT"@);
    }
}

} // verus!
