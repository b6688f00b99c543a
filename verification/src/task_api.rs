//! The client of the Task API: its requests as arguments of `curl`, what it makes of the replies,
//! and how it waits for a Task to come to a state.
use crate::json::{
    as_truth, json_document, json_error_text, json_text, json_tree, member, member_text,
    member_tree, object, parse, put, render, text, text_view, tree_bool, tree_text, JsonTree,
};
use crate::probe::{
    outcome_view, parse_http_response, probed_response, retryable_provider_grant_status,
    HttpResponse, ProcessOutput,
};
use crate::runtimes::{Runtime, RuntimeView};
use crate::text::{
    concat2, concat3, concat4, concat5, contains_text, decimal, decimal_digits, decode,
    decode_lossy, has_text, same_text, texts, trim, trimmed, utf8_lossy, views,
};
use vstd::prelude::*;
use vstd::string::*;
use vstd::utf8::*;

verus! {

/// The header with which a request is signed.
pub open spec fn bearer_header(assertion: Seq<char>) -> Seq<char> {
    "Authorization: Bearer "@ + assertion
}

/// What `curl` is told to do with every reply: to keep its body in a file and to write its status.
pub open spec fn keeping(response: Seq<char>) -> Seq<Seq<char>> {
    seq!["-sS"@, "-o"@, response, "-w"@, "%{http_code}"@]
}

/// The name of the file for the reply to a submission.
pub fn submit_file(key: &str) -> (name: String)
    ensures
        name@ == "submit-"@ + key@ + ".json"@,
{
    concat3("submit-", key, ".json")
}

/// Submits a Task.
pub fn submit_arguments(base_url: &str, assertion: &str, key: &str, body: &str, response: &str) -> (
    arguments: Vec<String>)
    ensures
        views(arguments@) == keeping(response@) + seq![
            "-X"@,
            "POST"@,
            "-H"@,
            bearer_header(assertion@),
            "-H"@,
            "Idempotency-Key: "@ + key@,
            "-H"@,
            "Content-Type: application/json"@,
            "--data"@,
            body@,
            base_url@ + "/v1/tasks"@,
        ],
{
    let bearer = concat2("Authorization: Bearer ", assertion);
    let idempotency = concat2("Idempotency-Key: ", key);
    let url = concat2(base_url, "/v1/tasks");
    let arguments = texts(
        &[
            "-sS",
            "-o",
            response,
            "-w",
            "%{http_code}",
            "-X",
            "POST",
            "-H",
            bearer.as_str(),
            "-H",
            idempotency.as_str(),
            "-H",
            "Content-Type: application/json",
            "--data",
            body,
            url.as_str(),
        ],
    );
    assert(views(arguments@) =~= keeping(response@) + seq![
        "-X"@,
        "POST"@,
        "-H"@,
        bearer_header(assertion@),
        "-H"@,
        "Idempotency-Key: "@ + key@,
        "-H"@,
        "Content-Type: application/json"@,
        "--data"@,
        body@,
        base_url@ + "/v1/tasks"@,
    ]);
    arguments
}

/// Puts the inputs of a Task, which are in the file `archive`.
pub fn put_archive_arguments(
    base_url: &str,
    task_uid: &str,
    assertion: &str,
    archive: &str,
    response: &str,
) -> (arguments: Vec<String>)
    ensures
        views(arguments@) == keeping(response@) + seq![
            "-X"@,
            "PUT"@,
            "-H"@,
            bearer_header(assertion@),
            "-H"@,
            "Content-Type: application/x-tar"@,
            "--data-binary"@,
            "@"@ + archive@,
            base_url@ + "/v1/tasks/"@ + task_uid@ + "/inputs"@,
        ],
{
    let bearer = concat2("Authorization: Bearer ", assertion);
    let file = concat2("@", archive);
    let url = concat4(base_url, "/v1/tasks/", task_uid, "/inputs");
    let arguments = texts(
        &[
            "-sS",
            "-o",
            response,
            "-w",
            "%{http_code}",
            "-X",
            "PUT",
            "-H",
            bearer.as_str(),
            "-H",
            "Content-Type: application/x-tar",
            "--data-binary",
            file.as_str(),
            url.as_str(),
        ],
    );
    assert(views(arguments@) =~= keeping(response@) + seq![
        "-X"@,
        "PUT"@,
        "-H"@,
        bearer_header(assertion@),
        "-H"@,
        "Content-Type: application/x-tar"@,
        "--data-binary"@,
        "@"@ + archive@,
        base_url@ + "/v1/tasks/"@ + task_uid@ + "/inputs"@,
    ]);
    arguments
}

/// Executes a Task.
pub fn execute_arguments(base_url: &str, task_uid: &str, assertion: &str, response: &str) -> (
    arguments: Vec<String>)
    ensures
        views(arguments@) == keeping(response@) + seq![
            "-X"@,
            "POST"@,
            "-H"@,
            bearer_header(assertion@),
            base_url@ + "/v1/tasks/"@ + task_uid@ + "/execute"@,
        ],
{
    let bearer = concat2("Authorization: Bearer ", assertion);
    let url = concat4(base_url, "/v1/tasks/", task_uid, "/execute");
    let arguments = texts(
        &[
            "-sS",
            "-o",
            response,
            "-w",
            "%{http_code}",
            "-X",
            "POST",
            "-H",
            bearer.as_str(),
            url.as_str(),
        ],
    );
    assert(views(arguments@) =~= keeping(response@) + seq![
        "-X"@,
        "POST"@,
        "-H"@,
        bearer_header(assertion@),
        base_url@ + "/v1/tasks/"@ + task_uid@ + "/execute"@,
    ]);
    arguments
}

/// Deletes a Task.
pub fn delete_task_arguments(base_url: &str, task_uid: &str, assertion: &str, response: &str) -> (
    arguments: Vec<String>)
    ensures
        views(arguments@) == keeping(response@) + seq![
            "-X"@,
            "DELETE"@,
            "-H"@,
            bearer_header(assertion@),
            base_url@ + "/v1/tasks/"@ + task_uid@,
        ],
{
    let bearer = concat2("Authorization: Bearer ", assertion);
    let url = concat3(base_url, "/v1/tasks/", task_uid);
    let arguments = texts(
        &[
            "-sS",
            "-o",
            response,
            "-w",
            "%{http_code}",
            "-X",
            "DELETE",
            "-H",
            bearer.as_str(),
            url.as_str(),
        ],
    );
    assert(views(arguments@) =~= keeping(response@) + seq![
        "-X"@,
        "DELETE"@,
        "-H"@,
        bearer_header(assertion@),
        base_url@ + "/v1/tasks/"@ + task_uid@,
    ]);
    arguments
}

/// What an approval says.
pub open spec fn approval_tree(evidence_url: Seq<char>) -> JsonTree {
    JsonTree::Object(
        Map::empty().insert("rationale"@, JsonTree::Text("task e2e approval"@)).insert(
            "evidenceUrl"@,
            JsonTree::Text(evidence_url),
        ).insert("expiresAt"@, JsonTree::Text("2999-01-01T00:00:00Z"@)),
    )
}

/// Approves a parked Task.
pub fn approve_arguments(base_url: &str, approval_id: &str, evidence_url: &str, response: &str) -> (
    arguments: Vec<String>)
    ensures
        views(arguments@) == keeping(response@) + seq![
            "-X"@,
            "POST"@,
            "-H"@,
            "Authorization: Bearer admin-assertion"@,
            "-H"@,
            "Content-Type: application/json"@,
            "-d"@,
            json_text(approval_tree(evidence_url@)),
            base_url@ + "/admin/approvals/"@ + approval_id@ + "/approve"@,
        ],
{
    let mut approval = object();
    put(&mut approval, "rationale", text("task e2e approval"));
    put(&mut approval, "evidenceUrl", text(evidence_url));
    put(&mut approval, "expiresAt", text("2999-01-01T00:00:00Z"));
    let body = render(&approval);
    let url = concat4(base_url, "/admin/approvals/", approval_id, "/approve");
    let arguments = texts(
        &[
            "-sS",
            "-o",
            response,
            "-w",
            "%{http_code}",
            "-X",
            "POST",
            "-H",
            "Authorization: Bearer admin-assertion",
            "-H",
            "Content-Type: application/json",
            "-d",
            body.as_str(),
            url.as_str(),
        ],
    );
    assert(views(arguments@) =~= keeping(response@) + seq![
        "-X"@,
        "POST"@,
        "-H"@,
        "Authorization: Bearer admin-assertion"@,
        "-H"@,
        "Content-Type: application/json"@,
        "-d"@,
        json_text(approval_tree(evidence_url@)),
        base_url@ + "/admin/approvals/"@ + approval_id@ + "/approve"@,
    ]);
    arguments
}

/// Reads the notifications of resolutions.
pub fn resolutions_arguments(base_url: &str, response: &str) -> (arguments: Vec<String>)
    ensures
        views(arguments@) == keeping(response@) + seq![base_url@ + "/test/resolutions"@],
{
    let url = concat2(base_url, "/test/resolutions");
    let arguments = texts(&["-sS", "-o", response, "-w", "%{http_code}", url.as_str()]);
    assert(views(arguments@) =~= keeping(response@) + seq![base_url@ + "/test/resolutions"@]);
    arguments
}

/// Gets the outputs of a Task into the file `response`.
pub fn get_output_arguments(base_url: &str, task_uid: &str, assertion: &str, response: &str) -> (
    arguments: Vec<String>)
    ensures
        views(arguments@) == keeping(response@) + seq![
            "-H"@,
            bearer_header(assertion@),
            base_url@ + "/v1/tasks/"@ + task_uid@ + "/outputs"@,
        ],
{
    let bearer = concat2("Authorization: Bearer ", assertion);
    let url = concat4(base_url, "/v1/tasks/", task_uid, "/outputs");
    let arguments = texts(
        &["-sS", "-o", response, "-w", "%{http_code}", "-H", bearer.as_str(), url.as_str()],
    );
    assert(views(arguments@) =~= keeping(response@) + seq![
        "-H"@,
        bearer_header(assertion@),
        base_url@ + "/v1/tasks/"@ + task_uid@ + "/outputs"@,
    ]);
    arguments
}

/// Puts another runtime under the name of one.
pub fn replace_runtime_arguments(base_url: &str, runtime_uid: &str, response: &str) -> (arguments:
    Vec<String>)
    ensures
        views(arguments@) == keeping(response@) + seq![
            "-X"@,
            "POST"@,
            base_url@ + "/test/runtimes/"@ + runtime_uid@ + "/replace"@,
        ],
{
    let url = concat4(base_url, "/test/runtimes/", runtime_uid, "/replace");
    let arguments = texts(
        &["-sS", "-o", response, "-w", "%{http_code}", "-X", "POST", url.as_str()],
    );
    assert(views(arguments@) =~= keeping(response@) + seq![
        "-X"@,
        "POST"@,
        base_url@ + "/test/runtimes/"@ + runtime_uid@ + "/replace"@,
    ]);
    arguments
}

/// Asks for the state of a Task.
pub fn task_status_arguments(base_url: &str, task_uid: &str, assertion: &str, response: &str) -> (
    arguments: Vec<String>)
    ensures
        views(arguments@) == keeping(response@) + seq![
            "-H"@,
            bearer_header(assertion@),
            base_url@ + "/v1/tasks/"@ + task_uid@,
        ],
{
    let bearer = concat2("Authorization: Bearer ", assertion);
    let url = concat3(base_url, "/v1/tasks/", task_uid);
    let arguments = texts(
        &["-sS", "-o", response, "-w", "%{http_code}", "-H", bearer.as_str(), url.as_str()],
    );
    assert(views(arguments@) =~= keeping(response@) + seq![
        "-H"@,
        bearer_header(assertion@),
        base_url@ + "/v1/tasks/"@ + task_uid@,
    ]);
    arguments
}

/// A status that a request was not to be answered with.
pub open spec fn unexpected_status(what: Seq<char>, status: u16) -> Seq<char> {
    what + " returned "@ + decimal_digits(status as nat)
}

/// The same, with the body of the reply.
pub open spec fn unexpected_reply(what: Seq<char>, status: u16, body: Seq<u8>) -> Seq<char> {
    if valid_utf8(body) {
        unexpected_status(what, status) + ": "@ + decode_utf8(body)
    } else {
        "stream did not contain valid UTF-8"@
    }
}

/// Makes sure that a request was answered with the one status that it is to be answered with.
pub fn expect_status(what: &str, status: u16, expected: u16) -> (outcome: Result<(), String>)
    ensures
        outcome_view(outcome) == (if status == expected {
            Ok(())
        } else {
            Err::<(), Seq<char>>(unexpected_status(what@, status))
        }),
{
    if status == expected {
        Ok(())
    } else {
        let digits = decimal(status as u128);
        Err(concat3(what, " returned ", digits.as_str()))
    }
}

/// Says with which status and body a request was answered.
fn reply_words(what: &str, status: u16, body: Vec<u8>) -> (words: String)
    ensures
        words@ == unexpected_reply(what@, status, body@),
{
    match decode(body) {
        Ok(shown) => {
            let digits = decimal(status as u128);
            concat5(what, " returned ", digits.as_str(), ": ", shown.as_str())
        },
        Err(_) => "stream did not contain valid UTF-8".to_owned(),
    }
}

/// What a reply or a failure says.
pub open spec fn value_view(value: Result<serde_json::Value, String>) -> Result<
    JsonTree,
    Seq<char>,
> {
    match value {
        Ok(found) => Ok(json_tree(found)),
        Err(words) => Err(words@),
    }
}

/// The JSON document in a reply.
pub open spec fn document(body: Seq<u8>) -> Result<JsonTree, Seq<char>> {
    match json_document(body) {
        Some(tree) => Ok(tree),
        None => Err(json_error_text(body)),
    }
}

/// A submitted Task, as the API acknowledged it.
pub struct TaskSubmission {
    pub http_status: u16,
    pub body: serde_json::Value,
}

/// Reads the reply to a submission: a Task that is admitted or parked is acknowledged, any other
/// status is a failure.
pub fn submit_response(status: u16, body: Vec<u8>) -> (submission: Result<TaskSubmission, String>)
    ensures
        if status == 201 || status == 202 {
            match document(body@) {
                Ok(tree) => submission matches Ok(task) && task.http_status == status && json_tree(
                    task.body,
                ) == tree,
                Err(fault) => submission matches Err(words) && words@ == fault,
            }
        } else {
            submission matches Err(words) && words@ == unexpected_reply(
                "Task submission"@,
                status,
                body@,
            )
        },
{
    if status != 201 && status != 202 {
        return Err(reply_words("Task submission", status, body));
    }
    match parse(body.as_slice()) {
        Ok(value) => Ok(TaskSubmission { http_status: status, body: value }),
        Err(words) => Err(words),
    }
}

/// Reads the reply to the inputs of a Task.
pub fn put_archive(status: u16, body: Vec<u8>) -> (outcome: Result<(), String>)
    ensures
        outcome_view(outcome) == (if status == 204 {
            Ok(())
        } else {
            Err::<(), Seq<char>>(unexpected_reply("Task input"@, status, body@))
        }),
{
    if status == 204 {
        Ok(())
    } else {
        Err(reply_words("Task input", status, body))
    }
}

/// Reads the reply to the execution of a Task.
pub fn execute(status: u16) -> (outcome: Result<(), String>)
    ensures
        outcome_view(outcome) == (if status == 202 {
            Ok(())
        } else {
            Err::<(), Seq<char>>(unexpected_status("Task execute"@, status))
        }),
{
    expect_status("Task execute", status, 202)
}

/// Reads the reply to the deletion of a Task.
pub fn delete_task(status: u16) -> (outcome: Result<(), String>)
    ensures
        outcome_view(outcome) == (if status == 202 {
            Ok(())
        } else {
            Err::<(), Seq<char>>(unexpected_status("Task delete"@, status))
        }),
{
    expect_status("Task delete", status, 202)
}

/// Reads the reply to an approval.
pub fn approve(status: u16) -> (outcome: Result<(), String>)
    ensures
        outcome_view(outcome) == (if status == 200 {
            Ok(())
        } else {
            Err::<(), Seq<char>>(unexpected_status("Task approval"@, status))
        }),
{
    expect_status("Task approval", status, 200)
}

/// Reads the reply to a request for outputs.
pub fn get_output(status: u16) -> (outcome: Result<(), String>)
    ensures
        outcome_view(outcome) == (if status == 200 {
            Ok(())
        } else {
            Err::<(), Seq<char>>(unexpected_status("Task output"@, status))
        }),
{
    expect_status("Task output", status, 200)
}

/// Makes sure that the notifications of resolutions name an approval.
pub fn assert_resolution_emitted(status: u16, resolutions: &str, approval_id: &str) -> (outcome:
    Result<(), String>)
    ensures
        outcome_view(outcome) == (if status != 200 {
            Err::<(), Seq<char>>(
                unexpected_status("Task resolution notification lookup"@, status),
            )
        } else if has_text(resolutions@, approval_id@) {
            Ok(())
        } else {
            Err::<(), Seq<char>>(
                "the parked Task submitter's decision channel must receive its approval resolution"@,
            )
        }),
{
    if let Err(words) = expect_status("Task resolution notification lookup", status, 200) {
        return Err(words);
    }
    if contains_text(resolutions, approval_id) {
        Ok(())
    } else {
        Err(
            "the parked Task submitter's decision channel must receive its approval resolution".to_owned(),
        )
    }
}

/// The text member `key` of a reply of the Task API.
pub fn json_string<'a>(value: &'a serde_json::Value, key: &str) -> (found: Result<&'a str, String>)
    ensures
        match tree_text(member_tree(json_tree(*value), key@)) {
            Some(words) => found matches Ok(shown) && shown@ == words,
            None => found matches Err(words) && words@ == "Task response has no "@ + key@,
        },
{
    match member_text(value, key) {
        Some(found) => Ok(found),
        None => Err(concat2("Task response has no ", key)),
    }
}

/// The identity of the runtime that took the place of another.
pub open spec fn replaced_uid(status: u16, body: Seq<u8>) -> Result<Seq<char>, Seq<char>> {
    if status != 201 {
        Err(unexpected_reply("test runtime replacement"@, status, body))
    } else {
        match document(body) {
            Err(words) => Err(words),
            Ok(tree) => match tree_text(member_tree(tree, "runtimeUid"@)) {
                Some(uid) => Ok(uid),
                None => Err("Task response has no runtimeUid"@),
            },
        }
    }
}

/// Reads the identity of the runtime that took the place of another.
pub fn replace_runtime_for_stale_uid_test(status: u16, body: Vec<u8>) -> (uid: Result<
    String,
    String,
>)
    ensures
        crate::harness::text_view(uid) == replaced_uid(status, body@),
{
    if status != 201 {
        return Err(reply_words("test runtime replacement", status, body));
    }
    let value = match parse(body.as_slice()) {
        Ok(value) => value,
        Err(words) => return Err(words),
    };
    match member_text(&value, "runtimeUid") {
        Some(uid) => Ok(uid.to_owned()),
        None => Err("Task response has no runtimeUid".to_owned()),
    }
}

/// Reads the state of a Task.
pub fn task_status(status: u16, body: Vec<u8>) -> (value: Result<serde_json::Value, String>)
    ensures
        value_view(value) == (if status == 200 {
            document(body@)
        } else {
            Err::<JsonTree, Seq<char>>(unexpected_reply("Task status"@, status, body@))
        }),
{
    if status != 200 {
        return Err(reply_words("Task status", status, body));
    }
    parse(body.as_slice())
}

/// The phase that the state of a Task names.
pub open spec fn phase_of(state: JsonTree) -> Option<Seq<char>> {
    tree_text(member_tree(state, "phase"@))
}

/// The state of a Task says that it is finalized.
pub open spec fn is_finalized(state: JsonTree) -> bool {
    tree_bool(member_tree(state, "finalized"@)) == Some(true)
}

/// What a Task is waited for to come to.
#[derive(PartialEq, Eq, Structural, Clone, Copy)]
pub enum Goal {
    RuntimeBound,
    Succeeded,
    Finalized,
    FailedAndFinalized,
}

/// The state is the one that a Task is waited for to come to.
pub open spec fn meets(goal: Goal, state: JsonTree) -> bool {
    match goal {
        Goal::RuntimeBound => phase_of(state) == Some("submitted"@) && tree_text(
            member_tree(state, "runtimeUid"@),
        ) is Some,
        Goal::Succeeded => phase_of(state) == Some("succeeded"@),
        Goal::Finalized => is_finalized(state),
        Goal::FailedAndFinalized => phase_of(state) == Some("failed"@) && is_finalized(state),
    }
}

/// The state is one that a Task never leaves and that is no success.
pub open spec fn is_terminal_failure(state: JsonTree) -> bool {
    is_finalized(state) && (phase_of(state) == Some("failed"@) || phase_of(state) == Some(
        "cancelled"@,
    ))
}

/// Whether the state of a Task names a phase.
fn has_phase(state: &serde_json::Value, phase: &str) -> (has: bool)
    ensures
        has == (phase_of(json_tree(*state)) == Some(phase@)),
{
    match member_text(state, "phase") {
        Some(found) => same_text(found, phase),
        None => false,
    }
}

/// Whether the state of a Task says that it is finalized.
fn says_finalized(state: &serde_json::Value) -> (finalized: bool)
    ensures
        finalized == is_finalized(json_tree(*state)),
{
    match member(state, "finalized") {
        Some(found) => match as_truth(found) {
            Some(truth) => truth,
            None => false,
        },
        None => false,
    }
}

/// Whether the state is the one that a Task is waited for to come to.
pub fn reaches(goal: Goal, state: &serde_json::Value) -> (reached: bool)
    ensures
        reached == meets(goal, json_tree(*state)),
{
    match goal {
        Goal::RuntimeBound => has_phase(state, "submitted") && member_text(
            state,
            "runtimeUid",
        ).is_some(),
        Goal::Succeeded => has_phase(state, "succeeded"),
        Goal::Finalized => says_finalized(state),
        Goal::FailedAndFinalized => has_phase(state, "failed") && says_finalized(state),
    }
}

/// How many looks are taken at a Task before it is given up.
pub const TASK_ATTEMPTS: u32 = 240;

/// A wait for a Task to come to a state.
pub struct TaskWait {
    pub task_uid: String,
    pub goal: Goal,
    pub attempts: u32,
}

/// How a wait for a Task goes on.
pub enum TaskLook {
    Reached,
    Failed(String),
    Again,
}

pub ghost enum TaskLookView {
    Reached,
    Failed(Seq<char>),
    Again,
}

impl View for TaskLook {
    type V = TaskLookView;

    open spec fn view(&self) -> TaskLookView {
        match *self {
            TaskLook::Reached => TaskLookView::Reached,
            TaskLook::Failed(words) => TaskLookView::Failed(words@),
            TaskLook::Again => TaskLookView::Again,
        }
    }
}

/// What a look at a Task that shows `state` means after `taken` looks: the goal counts before a
/// failure does, and after the last look the Task is given up.
pub open spec fn task_look(task_uid: Seq<char>, goal: Goal, taken: int, state: JsonTree)
    -> TaskLookView {
    if meets(goal, state) {
        TaskLookView::Reached
    } else if is_terminal_failure(state) {
        TaskLookView::Failed(
            "Task "@ + task_uid + " reached terminal state: "@ + json_text(state),
        )
    } else if taken + 1 >= TASK_ATTEMPTS {
        TaskLookView::Failed("Task "@ + task_uid + " did not reach expected state"@)
    } else {
        TaskLookView::Again
    }
}

impl TaskWait {
    /// What a look that shows `state` means.
    pub open spec fn meaning(&self, state: JsonTree) -> TaskLookView {
        task_look(self.task_uid@, self.goal, self.attempts as int, state)
    }

    /// Starts to wait.
    pub fn new(task_uid: &str, goal: Goal) -> (wait: TaskWait)
        ensures
            wait.task_uid@ == task_uid@,
            wait.goal == goal,
            wait.attempts == 0,
    {
        TaskWait { task_uid: task_uid.to_owned(), goal, attempts: 0 }
    }

    /// Starts to wait for a Task to be bound to its runtime.
    pub fn wait_for_runtime_binding(task_uid: &str) -> (wait: TaskWait)
        ensures
            wait.task_uid@ == task_uid@,
            wait.goal == Goal::RuntimeBound,
            wait.attempts == 0,
    {
        TaskWait::new(task_uid, Goal::RuntimeBound)
    }

    /// Takes a look at the state of the Task.
    pub fn wait_for(&mut self, state: &serde_json::Value) -> (look: TaskLook)
        requires
            old(self).attempts < TASK_ATTEMPTS,
        ensures
            look@ == old(self).meaning(json_tree(*state)),
            final(self).attempts == old(self).attempts + 1,
            final(self).task_uid == old(self).task_uid,
            final(self).goal == old(self).goal,
            look is Again ==> final(self).attempts < TASK_ATTEMPTS,
    {
        self.attempts = self.attempts + 1;
        if reaches(self.goal, state) {
            return TaskLook::Reached;
        }
        if says_finalized(state) && (has_phase(state, "failed") || has_phase(state, "cancelled")) {
            let shown = render(state);
            return TaskLook::Failed(
                concat4(
                    "Task ",
                    self.task_uid.as_str(),
                    " reached terminal state: ",
                    shown.as_str(),
                ),
            );
        }
        if self.attempts >= TASK_ATTEMPTS {
            return TaskLook::Failed(
                concat3("Task ", self.task_uid.as_str(), " did not reach expected state"),
            );
        }
        TaskLook::Again
    }
}

/// The position of the look that ends a wait, from the position `from` on: the first one that does
/// not ask for another. There is none where all of the `count` looks ask for another.
pub open spec fn ending_look(asks_again: spec_fn(int) -> bool, count: int, from: int) -> Option<int>
    decreases count - from,
{
    if from >= count {
        None
    } else if asks_again(from) {
        ending_look(asks_again, count, from + 1)
    } else {
        Some(from)
    }
}

/// A wait ends with the first look that does not ask for another.
proof fn lemma_ending_look(asks_again: spec_fn(int) -> bool, count: int, from: int)
    ensures
        match ending_look(asks_again, count, from) {
            Some(at) => from <= at < count && !asks_again(at) && forall|i: int|
                from <= i < at ==> #[trigger] asks_again(i),
            None => forall|i: int| from <= i < count ==> #[trigger] asks_again(i),
        },
    decreases count - from,
{
    if from < count && asks_again(from) {
        lemma_ending_look(asks_again, count, from + 1);
    }
}

/// The looks of a wait for a Task that sees `states`, one after the other, that ask for another.
pub open spec fn task_asks_again(task_uid: Seq<char>, goal: Goal, states: Seq<JsonTree>) -> spec_fn(
    int,
) -> bool {
    |i: int| task_look(task_uid, goal, i, states[i]) == TaskLookView::Again
}

/// Where a wait for a Task ends that sees `states`, one after the other.
pub open spec fn task_wait_end(task_uid: Seq<char>, goal: Goal, states: Seq<JsonTree>) -> Option<
    int,
> {
    ending_look(task_asks_again(task_uid, goal, states), states.len() as int, 0)
}

/// A state decides a wait: it meets the goal, or the Task never leaves it.
pub open spec fn decides(goal: Goal, state: JsonTree) -> bool {
    meets(goal, state) || is_terminal_failure(state)
}

/// A wait for a Task ends with the first state that meets its goal or that the Task never leaves,
/// and with the last of its looks where there is no such state among them. It reaches its goal
/// exactly where a state among its looks meets it and no state before that one decides; otherwise
/// it fails, and says why.
pub proof fn law_task_waits_give_the_first_state_of_their_goal(
    task_uid: Seq<char>,
    goal: Goal,
    states: Seq<JsonTree>,
)
    ensures
        match task_wait_end(task_uid, goal, states) {
            None => states.len() < TASK_ATTEMPTS && forall|i: int|
                0 <= i < states.len() ==> !decides(goal, #[trigger] states[i]),
            Some(at) => {
                &&& 0 <= at < states.len()
                &&& at < TASK_ATTEMPTS
                &&& forall|i: int| 0 <= i < at ==> !decides(goal, #[trigger] states[i])
                &&& decides(goal, states[at]) || at == TASK_ATTEMPTS - 1
                &&& task_look(task_uid, goal, at, states[at]) == (if meets(goal, states[at]) {
                    TaskLookView::Reached
                } else if is_terminal_failure(states[at]) {
                    TaskLookView::Failed(
                        "Task "@ + task_uid + " reached terminal state: "@ + json_text(states[at]),
                    )
                } else {
                    TaskLookView::Failed("Task "@ + task_uid + " did not reach expected state"@)
                })
            },
        },
        forall|at: int|
            0 <= at < states.len() && at < TASK_ATTEMPTS && meets(goal, #[trigger] states[at]) && (
            forall|i: int| 0 <= i < at ==> !decides(goal, #[trigger] states[i])) ==> task_wait_end(
                task_uid,
                goal,
                states,
            ) == Some(at),
{
    let again = task_asks_again(task_uid, goal, states);
    lemma_ending_look(again, states.len() as int, 0);
    assert forall|i: int| 0 <= i < states.len() implies #[trigger] again(i) == (!decides(
        goal,
        states[i],
    ) && i + 1 < TASK_ATTEMPTS) by {}
    assert forall|i: int| 0 <= i < states.len() && again(i) implies !decides(
        goal,
        #[trigger] states[i],
    ) by {
        assert(again(i));
    }
    if states.len() >= TASK_ATTEMPTS {
        assert(!again(TASK_ATTEMPTS - 1));
    }
    match task_wait_end(task_uid, goal, states) {
        Some(at) => {
            if at > 0 {
                assert(again(at - 1));
            }
        },
        None => {},
    }
    assert forall|at: int|
        0 <= at < states.len() && at < TASK_ATTEMPTS && meets(goal, #[trigger] states[at]) && (
        forall|i: int| 0 <= i < at ==> !decides(goal, #[trigger] states[i])) implies task_wait_end(
        task_uid,
        goal,
        states,
    ) == Some(at) by {
        assert(!again(at));
        match task_wait_end(task_uid, goal, states) {
            Some(end) => {
                if end < at {
                    assert(!decides(goal, states[end]));
                    assert(again(end));
                }
            },
            None => {},
        }
    }
}

/// A Task that failed for good where that was waited for is no failure of the wait.
pub proof fn law_expected_failure_is_reached(wait: TaskWait, state: JsonTree)
    requires
        wait.goal == Goal::FailedAndFinalized || wait.goal == Goal::Finalized,
        is_terminal_failure(state),
        phase_of(state) == Some("failed"@),
    ensures
        wait.meaning(state) == TaskLookView::Reached,
{
}

/// A wait never goes on for more than the looks that it was given: each look counts, and the last
/// one decides.
pub proof fn law_task_waits_end(wait: TaskWait, state: JsonTree)
    requires
        wait.attempts == TASK_ATTEMPTS - 1,
    ensures
        wait.meaning(state) != TaskLookView::Again,
{
}

/// A wait for success does not go on once the Task has failed for good.
pub proof fn law_success_is_not_awaited_of_a_failed_task(wait: TaskWait, state: JsonTree)
    requires
        wait.goal == Goal::Succeeded,
        is_terminal_failure(state),
    ensures
        wait.meaning(state) == TaskLookView::Failed(
            "Task "@ + wait.task_uid@ + " reached terminal state: "@ + json_text(state),
        ),
{
    reveal_strlit("succeeded");
    reveal_strlit("failed");
    reveal_strlit("cancelled");
    assert("succeeded"@[0] != "failed"@[0]);
    assert("succeeded"@[0] != "cancelled"@[0]);
}

/// How often a Task is looked at that is to stay in its phase.
pub const PHASE_LOOKS: u32 = 4;

/// What is said of a Task that left its phase.
pub open spec fn phase_left() -> Seq<char> {
    "a Task bound to a stale runtime UID must fail closed instead of executing on a replacement"@
}

/// A watch over a Task that is to stay in its phase.
pub struct PhaseWatch {
    pub expected_phase: String,
    pub attempts: u32,
}

impl PhaseWatch {
    /// What a look that shows `state` means: a Task that left its phase is told at once, and one
    /// that is still in it at the last look has stayed.
    pub open spec fn meaning(&self, state: JsonTree) -> TaskLookView {
        if phase_of(state) != Some(self.expected_phase@) {
            TaskLookView::Failed(phase_left())
        } else if self.attempts + 1 >= PHASE_LOOKS {
            TaskLookView::Reached
        } else {
            TaskLookView::Again
        }
    }

    /// Starts to watch.
    pub fn new(expected_phase: &str) -> (watch: PhaseWatch)
        ensures
            watch.expected_phase@ == expected_phase@,
            watch.attempts == 0,
    {
        PhaseWatch { expected_phase: expected_phase.to_owned(), attempts: 0 }
    }

    /// Takes a look at the state of the Task.
    pub fn assert_phase_stays(&mut self, state: &serde_json::Value) -> (look: TaskLook)
        requires
            old(self).attempts < PHASE_LOOKS,
        ensures
            look@ == old(self).meaning(json_tree(*state)),
            final(self).attempts == old(self).attempts + 1,
            final(self).expected_phase == old(self).expected_phase,
            look is Again ==> final(self).attempts < PHASE_LOOKS,
    {
        self.attempts = self.attempts + 1;
        if !has_phase(state, self.expected_phase.as_str()) {
            return TaskLook::Failed(
                "a Task bound to a stale runtime UID must fail closed instead of executing on a replacement".to_owned(),
            );
        }
        if self.attempts >= PHASE_LOOKS {
            TaskLook::Reached
        } else {
            TaskLook::Again
        }
    }
}

/// How a watch that has taken `taken` looks goes on over the states that it sees next, one look
/// after the other: it is over with the first look that does not ask for another one.
pub open spec fn watched(expected_phase: Seq<char>, states: Seq<JsonTree>, taken: int) -> TaskLookView
    decreases states.len(),
{
    if states.len() == 0 {
        TaskLookView::Again
    } else if phase_of(states[0]) != Some(expected_phase) {
        TaskLookView::Failed(phase_left())
    } else if taken + 1 >= PHASE_LOOKS {
        TaskLookView::Reached
    } else {
        watched(expected_phase, states.skip(1), taken + 1)
    }
}

/// A look of a watch is a step over the states that it sees.
pub proof fn law_looks_make_up_the_watch(watch: PhaseWatch, states: Seq<JsonTree>)
    requires
        states.len() > 0,
    ensures
        watched(watch.expected_phase@, states, watch.attempts as int) == (match watch.meaning(
            states[0],
        ) {
            TaskLookView::Again => watched(
                watch.expected_phase@,
                states.skip(1),
                watch.attempts + 1,
            ),
            look => look,
        }),
{
}

/// A Task has stayed in its phase exactly where all looks show it there: of as many states as there
/// are looks, none shows another phase.
pub proof fn law_a_phase_stays_over_all_looks(expected_phase: Seq<char>, states: Seq<JsonTree>)
    requires
        states.len() == PHASE_LOOKS,
    ensures
        watched(expected_phase, states, 0) == (if forall|i: int|
            0 <= i < states.len() ==> phase_of(#[trigger] states[i]) == Some(expected_phase) {
            TaskLookView::Reached
        } else {
            TaskLookView::Failed(phase_left())
        }),
{
    reveal_with_fuel(watched, 5);
    assert(states.skip(1)[0] == states[1]);
    assert(states.skip(1).skip(1)[0] == states[2]);
    assert(states.skip(1).skip(1).skip(1)[0] == states[3]);
}

/// Where the runtime with an identity stands, looking from the position `from` on.
pub open spec fn place_of_uid(runtimes: Seq<Runtime>, uid: Seq<char>, from: int) -> Option<int>
    decreases runtimes.len() - from,
{
    if from < 0 || from >= runtimes.len() {
        None
    } else if runtimes[from]@.metadata.uid == Some(uid) {
        Some(from)
    } else {
        place_of_uid(runtimes, uid, from + 1)
    }
}

/// The first of the runtimes that has an identity.
pub fn runtime_by_uid<'a>(runtimes: &'a Vec<Runtime>, runtime_uid: &str) -> (found: Option<
    &'a Runtime,
>)
    ensures
        match place_of_uid(runtimes@, runtime_uid@, 0) {
            Some(at) => found matches Some(runtime) && 0 <= at < runtimes@.len() && *runtime
                == runtimes@[at],
            None => found is None,
        },
{
    let mut i: usize = 0;
    while i < runtimes.len()
        invariant
            i <= runtimes.len(),
            place_of_uid(runtimes@, runtime_uid@, 0) == place_of_uid(
                runtimes@,
                runtime_uid@,
                i as int,
            ),
        decreases runtimes.len() - i,
    {
        if let Some(uid) = &runtimes[i].metadata.uid {
            if same_text(uid.as_str(), runtime_uid) {
                return Some(&runtimes[i]);
            }
        }
        i = i + 1;
    }
    None
}

/// The runtime runs and has a workspace and a sandbox.
pub open spec fn runs_in_a_sandbox(runtime: RuntimeView) -> bool {
    match runtime.status {
        Some(status) => status.phase == "Running"@ && status.refs.workspace is Some
            && status.refs.sandbox is Some,
        None => false,
    }
}

/// Whether a runtime runs and has a workspace and a sandbox.
pub fn is_running_runtime(runtime: &Runtime) -> (running: bool)
    ensures
        running == runs_in_a_sandbox(runtime@),
{
    match &runtime.status {
        Some(status) => same_text(status.phase.as_str(), "Running")
            && status.refs.workspace.is_some() && status.refs.sandbox.is_some(),
        None => false,
    }
}

/// What is said when the runtime of a Task does not run in time.
pub open spec fn not_running(runtime_uid: Seq<char>) -> Seq<char> {
    "controller-created Task runtime "@ + runtime_uid
        + " did not reach Running with workspace and sandbox references"@
}

/// A wait for the runtime of a Task to run.
pub struct RuntimeWait {
    pub runtime_uid: String,
    pub attempts: u32,
}

/// How a wait for a runtime goes on.
pub enum RuntimeLook<'a> {
    Running(&'a Runtime),
    Failed(String),
    Again,
}

pub ghost enum RuntimeLookView {
    Running { at: int },
    Failed(Seq<char>),
    Again,
}

/// Where the runtime with an identity stands, if it runs.
pub open spec fn running_at(runtimes: Seq<Runtime>, runtime_uid: Seq<char>) -> Option<int> {
    match place_of_uid(runtimes, runtime_uid, 0) {
        Some(at) => if runs_in_a_sandbox(runtimes[at]@) {
            Some(at)
        } else {
            None
        },
        None => None,
    }
}

/// What a look at the runtimes means after `taken` looks: a runtime that runs counts, and after the
/// last look it is given up.
pub open spec fn runtime_look(runtime_uid: Seq<char>, taken: int, runtimes: Seq<Runtime>)
    -> RuntimeLookView {
    match running_at(runtimes, runtime_uid) {
        Some(at) => RuntimeLookView::Running { at },
        None => if taken + 1 >= TASK_ATTEMPTS {
            RuntimeLookView::Failed(not_running(runtime_uid))
        } else {
            RuntimeLookView::Again
        },
    }
}

impl RuntimeWait {
    /// What a look at the runtimes means.
    pub open spec fn meaning(&self, runtimes: Seq<Runtime>) -> RuntimeLookView {
        runtime_look(self.runtime_uid@, self.attempts as int, runtimes)
    }

    /// Starts to wait.
    pub fn new(runtime_uid: &str) -> (wait: RuntimeWait)
        ensures
            wait.runtime_uid@ == runtime_uid@,
            wait.attempts == 0,
    {
        RuntimeWait { runtime_uid: runtime_uid.to_owned(), attempts: 0 }
    }

    /// Takes a look at the runtimes.
    pub fn wait_for_running_runtime<'a>(&mut self, runtimes: &'a Vec<Runtime>) -> (look:
        RuntimeLook<'a>)
        requires
            old(self).attempts < TASK_ATTEMPTS,
        ensures
            match old(self).meaning(runtimes@) {
                RuntimeLookView::Running { at } => 0 <= at < runtimes@.len() && look
                    == RuntimeLook::Running(&runtimes@[at]),
                RuntimeLookView::Failed(fault) => look matches RuntimeLook::Failed(words) && words@
                    == fault,
                RuntimeLookView::Again => look == RuntimeLook::<'a>::Again,
            },
            final(self).attempts == old(self).attempts + 1,
            final(self).runtime_uid == old(self).runtime_uid,
            look is Again ==> final(self).attempts < TASK_ATTEMPTS,
    {
        self.attempts = self.attempts + 1;
        if let Some(runtime) = runtime_by_uid(runtimes, self.runtime_uid.as_str()) {
            if is_running_runtime(runtime) {
                return RuntimeLook::Running(runtime);
            }
        }
        if self.attempts >= TASK_ATTEMPTS {
            RuntimeLook::Failed(
                concat3(
                    "controller-created Task runtime ",
                    self.runtime_uid.as_str(),
                    " did not reach Running with workspace and sandbox references",
                ),
            )
        } else {
            RuntimeLook::Again
        }
    }
}

/// The looks of a wait for a runtime that sees `listings`, one after the other, that ask for
/// another.
pub open spec fn runtime_asks_again(runtime_uid: Seq<char>, listings: Seq<Seq<Runtime>>) -> spec_fn(
    int,
) -> bool {
    |i: int| runtime_look(runtime_uid, i, listings[i]) == RuntimeLookView::Again
}

/// Where a wait for a runtime ends that sees `listings`, one after the other.
pub open spec fn runtime_wait_end(runtime_uid: Seq<char>, listings: Seq<Seq<Runtime>>) -> Option<
    int,
> {
    ending_look(runtime_asks_again(runtime_uid, listings), listings.len() as int, 0)
}

/// A wait for a runtime ends with the first listing in which it runs, and with the last of its
/// looks where it runs in none of them. It gives the runtime exactly where a listing among its looks
/// has it running; otherwise it fails.
pub proof fn law_runtime_waits_give_the_first_running_runtime(
    runtime_uid: Seq<char>,
    listings: Seq<Seq<Runtime>>,
)
    ensures
        match runtime_wait_end(runtime_uid, listings) {
            None => listings.len() < TASK_ATTEMPTS && forall|i: int|
                0 <= i < listings.len() ==> running_at(#[trigger] listings[i], runtime_uid) is None,
            Some(at) => {
                &&& 0 <= at < listings.len()
                &&& at < TASK_ATTEMPTS
                &&& forall|i: int|
                    0 <= i < at ==> running_at(#[trigger] listings[i], runtime_uid) is None
                &&& match running_at(listings[at], runtime_uid) {
                    Some(place) => runtime_look(runtime_uid, at, listings[at])
                        == (RuntimeLookView::Running { at: place }),
                    None => at == TASK_ATTEMPTS - 1 && runtime_look(runtime_uid, at, listings[at])
                        == RuntimeLookView::Failed(not_running(runtime_uid)),
                }
            },
        },
        forall|at: int|
            0 <= at < listings.len() && at < TASK_ATTEMPTS && running_at(
                #[trigger] listings[at],
                runtime_uid,
            ) is Some && (forall|i: int|
                0 <= i < at ==> running_at(#[trigger] listings[i], runtime_uid) is None)
                ==> runtime_wait_end(runtime_uid, listings) == Some(at),
{
    let again = runtime_asks_again(runtime_uid, listings);
    lemma_ending_look(again, listings.len() as int, 0);
    assert forall|i: int| 0 <= i < listings.len() implies #[trigger] again(i) == (running_at(
        listings[i],
        runtime_uid,
    ) is None && i + 1 < TASK_ATTEMPTS) by {}
    assert forall|i: int| 0 <= i < listings.len() && again(i) implies running_at(
        #[trigger] listings[i],
        runtime_uid,
    ) is None by {
        assert(again(i));
    }
    if listings.len() >= TASK_ATTEMPTS {
        assert(!again(TASK_ATTEMPTS - 1));
    }
    match runtime_wait_end(runtime_uid, listings) {
        Some(at) => {
            if at > 0 {
                assert(again(at - 1));
            }
        },
        None => {},
    }
    assert forall|at: int|
        0 <= at < listings.len() && at < TASK_ATTEMPTS && running_at(
            #[trigger] listings[at],
            runtime_uid,
        ) is Some && (forall|i: int|
            0 <= i < at ==> running_at(#[trigger] listings[i], runtime_uid) is None) implies
        runtime_wait_end(runtime_uid, listings) == Some(at) by {
        assert(!again(at));
        match runtime_wait_end(runtime_uid, listings) {
            Some(end) => {
                if end < at {
                    assert(running_at(listings[end], runtime_uid) is None);
                    assert(again(end));
                }
            },
            None => {},
        }
    }
}

/// The workspace and the sandbox in which a runtime calls its tools, or what it lacks for that.
pub open spec fn tool_sandbox(runtime: RuntimeView) -> Result<(Seq<char>, Seq<char>), Seq<char>> {
    if runtime.spec.tools.len() == 0 {
        Err(
            "the controller-created Task runtime must request a governed tool provider"@,
        )
    } else {
        match runtime.status {
            None => Err("running Task runtime has no status references"@),
            Some(status) => match (status.refs.workspace, status.refs.sandbox) {
                (None, _) => Err("running Task runtime has no workspace reference"@),
                (Some(_), None) => Err("running Task runtime has no sandbox reference"@),
                (Some(workspace), Some(sandbox)) => Ok((workspace, sandbox)),
            },
        }
    }
}

/// The workspace and the sandbox in which a runtime calls its tools.
pub fn tool_sandbox_of(runtime: &Runtime) -> (found: Result<(String, String), String>)
    ensures
        match tool_sandbox(runtime@) {
            Ok((workspace, sandbox)) => found matches Ok((a, b)) && a@ == workspace && b@
                == sandbox,
            Err(fault) => found matches Err(words) && words@ == fault,
        },
{
    if runtime.spec.tools.len() == 0 {
        return Err(
            "the controller-created Task runtime must request a governed tool provider".to_owned(),
        );
    }
    let refs = match &runtime.status {
        Some(status) => &status.refs,
        None => return Err("running Task runtime has no status references".to_owned()),
    };
    let workspace = match &refs.workspace {
        Some(workspace) => workspace.clone(),
        None => return Err("running Task runtime has no workspace reference".to_owned()),
    };
    let sandbox = match &refs.sandbox {
        Some(sandbox) => sandbox.clone(),
        None => return Err("running Task runtime has no sandbox reference".to_owned()),
    };
    Ok((workspace, sandbox))
}

/// What a look at the providers of a sandbox shows.
pub open spec fn provider_verdict(success: bool, stdout: Seq<u8>, stderr: Seq<u8>) -> Result<
    (),
    Seq<char>,
> {
    if !success {
        Err(
            "controller-created runtime provider inspection failed: "@ + trimmed(
                utf8_lossy(stderr),
            ),
        )
    } else if has_text(utf8_lossy(stdout), "steward-mcp-gw"@) {
        Ok(())
    } else {
        Err(
            "controller-created runtime must attach the governed tool provider before execution"@,
        )
    }
}

/// Makes sure that the tool provider is attached to a sandbox.
pub fn provider_is_attached(output: &ProcessOutput) -> (outcome: Result<(), String>)
    ensures
        outcome_view(outcome) == provider_verdict(output.success, output.stdout@, output.stderr@),
{
    if !output.success {
        let stderr = decode_lossy(output.stderr.as_slice());
        return Err(
            concat2(
                "controller-created runtime provider inspection failed: ",
                trim(stderr.as_str()),
            ),
        );
    }
    let stdout = decode_lossy(output.stdout.as_slice());
    if contains_text(stdout.as_str(), "steward-mcp-gw") {
        Ok(())
    } else {
        Err(
            "controller-created runtime must attach the governed tool provider before execution".to_owned(),
        )
    }
}

/// How a probe of a tool goes on.
pub enum ToolProbe {
    Ready,
    Again,
    Refused(HttpResponse),
    Failed(String),
}

pub ghost enum ToolProbeView {
    Ready,
    Again,
    Refused(Seq<char>, u16),
    Failed(Seq<char>),
}

impl View for ToolProbe {
    type V = ToolProbeView;

    open spec fn view(&self) -> ToolProbeView {
        match *self {
            ToolProbe::Ready => ToolProbeView::Ready,
            ToolProbe::Again => ToolProbeView::Again,
            ToolProbe::Refused(response) => ToolProbeView::Refused(response.body@, response.status),
            ToolProbe::Failed(words) => ToolProbeView::Failed(words@),
        }
    }
}

/// What the reply of a tool means: only the status of a grant that is being made is probed again,
/// and not when the time is over.
pub open spec fn probe_meaning(
    reply: Result<(Seq<char>, u16), Seq<char>>,
    time_is_over: bool,
) -> ToolProbeView {
    match reply {
        Err(words) => ToolProbeView::Failed(words),
        Ok((body, status)) => if status == 200 && has_text(
            body,
            "example-org/fixture-repository"@,
        ) {
            ToolProbeView::Ready
        } else if status == 502 && !time_is_over {
            ToolProbeView::Again
        } else {
            ToolProbeView::Refused(body, status)
        },
    }
}

/// Takes what a probe of a tool left behind.
pub fn assert_controller_runtime_tool_ready(output: ProcessOutput, time_is_over: bool) -> (probe:
    ToolProbe)
    ensures
        probe@ == probe_meaning(
            probed_response(
                output.success,
                output.stdout@,
                output.stderr@,
                "exact OpenShell ExecSandbox tool call"@,
            ),
            time_is_over,
        ),
{
    match parse_http_response(output, "exact OpenShell ExecSandbox tool call") {
        Err(words) => ToolProbe::Failed(words),
        Ok(response) => if response.status == 200 && contains_text(
            response.body.as_str(),
            "example-org/fixture-repository",
        ) {
            ToolProbe::Ready
        } else if retryable_provider_grant_status(response.status) && !time_is_over {
            ToolProbe::Again
        } else {
            ToolProbe::Refused(response)
        },
    }
}

/// A tool is probed again only on the one status that says that its grant is being made: any
/// other failure is told at once.
pub proof fn law_only_pending_grants_are_probed_again(
    body: Seq<char>,
    status: u16,
    time_is_over: bool,
)
    ensures
        probe_meaning(Ok((body, status)), time_is_over) == ToolProbeView::Again <==> status == 502
            && !time_is_over,
{
}

/// What a probe of a tool gave, and whether the time was over then.
pub ghost struct Probed {
    pub reply: Result<(Seq<char>, u16), Seq<char>>,
    pub time_is_over: bool,
}

/// The reply says that a grant is being made, while there is time left.
pub open spec fn is_pending(probed: Probed) -> bool {
    !probed.time_is_over && (probed.reply matches Ok((_, status)) && status == 502)
}

/// The reply is the answer of a tool that is ready.
pub open spec fn is_ready(probed: Probed) -> bool {
    probed.reply matches Ok((body, status)) && status == 200 && has_text(
        body,
        "example-org/fixture-repository"@,
    )
}

/// The probes that ask for another one.
pub open spec fn tool_asks_again(probes: Seq<Probed>) -> spec_fn(int) -> bool {
    |i: int| probe_meaning(probes[i].reply, probes[i].time_is_over) == ToolProbeView::Again
}

/// Where the probing of a tool ends.
pub open spec fn probing_end(probes: Seq<Probed>) -> Option<int> {
    ending_look(tool_asks_again(probes), probes.len() as int, 0)
}

/// The probing of a tool ends with the first reply that is not a pending grant while there is time.
/// The tool is ready exactly where this reply is the fixture's; any other one is told as it is.
pub proof fn law_the_first_settled_probe_decides(probes: Seq<Probed>)
    ensures
        match probing_end(probes) {
            None => forall|i: int| 0 <= i < probes.len() ==> is_pending(#[trigger] probes[i]),
            Some(at) => {
                &&& 0 <= at < probes.len()
                &&& !is_pending(probes[at])
                &&& forall|i: int| 0 <= i < at ==> is_pending(#[trigger] probes[i])
                &&& probe_meaning(probes[at].reply, probes[at].time_is_over) == (if is_ready(
                    probes[at],
                ) {
                    ToolProbeView::Ready
                } else {
                    match probes[at].reply {
                        Ok((body, status)) => ToolProbeView::Refused(body, status),
                        Err(words) => ToolProbeView::Failed(words),
                    }
                })
            },
        },
        forall|at: int|
            0 <= at < probes.len() && is_ready(#[trigger] probes[at]) && (forall|i: int|
                0 <= i < at ==> is_pending(#[trigger] probes[i])) ==> probing_end(probes) == Some(
                at,
            ),
{
    let again = tool_asks_again(probes);
    lemma_ending_look(again, probes.len() as int, 0);
    assert forall|i: int| 0 <= i < probes.len() implies #[trigger] again(i) == is_pending(
        probes[i],
    ) by {}
    assert forall|i: int| 0 <= i < probes.len() && again(i) implies is_pending(
        #[trigger] probes[i],
    ) by {
        assert(again(i));
    }
    assert forall|at: int|
        0 <= at < probes.len() && is_ready(#[trigger] probes[at]) && (forall|i: int|
            0 <= i < at ==> is_pending(#[trigger] probes[i])) implies probing_end(probes) == Some(
        at,
    ) by {
        assert(!again(at));
        match probing_end(probes) {
            Some(end) => {
                if end < at {
                    assert(is_pending(probes[end]));
                    assert(again(end));
                }
            },
            None => {},
        }
    }
}

/// A tool that answered with the fixture is ready, whatever else its answer holds.
pub proof fn law_answering_tools_are_ready(body: Seq<char>, stderr: Seq<u8>, time_is_over: bool)
    requires
        has_text(crate::text::without_final_newlines(body), "example-org/fixture-repository"@),
    ensures
        probe_meaning(
            probed_response(
                true,
                encode_utf8(crate::probe::marked_reply(body, 200)),
                stderr,
                "exact OpenShell ExecSandbox tool call"@,
            ),
            time_is_over,
        ) == ToolProbeView::Ready,
{
    crate::probe::law_probe_keeps_body_and_status(
        body,
        200,
        stderr,
        "exact OpenShell ExecSandbox tool call"@,
    );
}

/// What is said of a tool that refused.
pub fn tool_refusal(response: &HttpResponse, diagnostic: &str) -> (words: String)
    ensures
        words@ == "controller-created runtime did not obtain a dynamic tool grant: status "@
            + decimal_digits(response.status as nat) + "; body "@ + response.body@
            + "; captured Mint response: "@ + diagnostic@,
{
    let digits = decimal(response.status as u128);
    let mut words = concat4(
        "controller-created runtime did not obtain a dynamic tool grant: status ",
        digits.as_str(),
        "; body ",
        response.body.as_str(),
    );
    words.append("; captured Mint response: ");
    words.append(diagnostic);
    words
}

/// Asks for what was captured of the grant of a token.
pub fn token_grant_arguments(capture_url: &str) -> (arguments: Vec<String>)
    ensures
        views(arguments@) == seq![
            "-fsS"@,
            "--max-time"@,
            "5"@,
            capture_url@ + "/token-grant"@,
        ],
{
    let url = concat2(capture_url, "/token-grant");
    let arguments = texts(&["-fsS", "--max-time", "5", url.as_str()]);
    assert(views(arguments@) =~= seq![
        "-fsS"@,
        "--max-time"@,
        "5"@,
        capture_url@ + "/token-grant"@,
    ]);
    arguments
}

/// Reads what was captured of the grant of a token.
pub fn provider_grant_diagnostic(output: ProcessOutput) -> (diagnostic: Result<String, String>)
    ensures
        crate::harness::text_view(diagnostic) == crate::harness::written_text(
            output.success,
            output.stdout@,
            output.stderr@,
            "capture token-grant diagnostic failed"@,
        ),
{
    crate::harness::succeeded(output, "capture token-grant diagnostic failed")
}

/// The arguments of the OpenShell that lists the providers of a sandbox.
pub fn provider_list_arguments(endpoint: &str, workspace: &str, sandbox: &str) -> (arguments: Vec<
    String,
>)
    ensures
        views(arguments@) == seq![
            "--gateway-endpoint"@,
            endpoint@,
            "--workspace"@,
            workspace@,
            "sandbox"@,
            "provider"@,
            "list"@,
            sandbox@,
        ],
{
    let arguments = texts(
        &[
            "--gateway-endpoint",
            endpoint,
            "--workspace",
            workspace,
            "sandbox",
            "provider",
            "list",
            sandbox,
        ],
    );
    assert(views(arguments@) =~= seq![
        "--gateway-endpoint"@,
        endpoint@,
        "--workspace"@,
        workspace@,
        "sandbox"@,
        "provider"@,
        "list"@,
        sandbox@,
    ]);
    arguments
}

/// The tool call with which a runtime is probed.
pub const TOOL_PROBE_BODY: &'static str =
    "{\"jsonrpc\":\"2.0\",\"id\":1,\"method\":\"tools/call\",\"params\":{\"name\":\"search_repositories\",\"arguments\":{}}}";

/// The arguments of the OpenShell that probes a tool from inside a sandbox. The status of the
/// reply is written behind the marker that the probe looks for.
pub fn tool_probe_arguments(endpoint: &str, workspace: &str, sandbox: &str) -> (arguments: Vec<
    String,
>)
    ensures
        views(arguments@) == seq![
            "--gateway-endpoint"@,
            endpoint@,
            "--workspace"@,
            workspace@,
            "sandbox"@,
            "exec"@,
            "--name"@,
            sandbox@,
            "--no-tty"@,
            "--"@,
            "curl"@,
            "-sS"@,
            "--max-time"@,
            "20"@,
            "-w"@,
            "\n"@ + crate::probe::HTTP_STATUS_MARKER@ + "%{http_code}\n"@,
            "-H"@,
            "Content-Type: application/json"@,
            "-H"@,
            "MCP-Protocol-Version: 2025-06-18"@,
            "-d"@,
            TOOL_PROBE_BODY@,
            "http://hop1-capture-tools.steward-system.svc.cluster.local:8085/mcp"@,
        ],
{
    let format = concat3("\n", crate::probe::HTTP_STATUS_MARKER, "%{http_code}\n");
    let arguments = texts(
        &[
            "--gateway-endpoint",
            endpoint,
            "--workspace",
            workspace,
            "sandbox",
            "exec",
            "--name",
            sandbox,
            "--no-tty",
            "--",
            "curl",
            "-sS",
            "--max-time",
            "20",
            "-w",
            format.as_str(),
            "-H",
            "Content-Type: application/json",
            "-H",
            "MCP-Protocol-Version: 2025-06-18",
            "-d",
            TOOL_PROBE_BODY,
            "http://hop1-capture-tools.steward-system.svc.cluster.local:8085/mcp",
        ],
    );
    assert(views(arguments@) =~= seq![
        "--gateway-endpoint"@,
        endpoint@,
        "--workspace"@,
        workspace@,
        "sandbox"@,
        "exec"@,
        "--name"@,
        sandbox@,
        "--no-tty"@,
        "--"@,
        "curl"@,
        "-sS"@,
        "--max-time"@,
        "20"@,
        "-w"@,
        "\n"@ + crate::probe::HTTP_STATUS_MARKER@ + "%{http_code}\n"@,
        "-H"@,
        "Content-Type: application/json"@,
        "-H"@,
        "MCP-Protocol-Version: 2025-06-18"@,
        "-d"@,
        TOOL_PROBE_BODY@,
        "http://hop1-capture-tools.steward-system.svc.cluster.local:8085/mcp"@,
    ]);
    arguments
}

/// The object has the text `words` as its member `name`.
pub open spec fn says(state: JsonTree, name: Seq<char>, words: Seq<char>) -> bool {
    state matches JsonTree::Object(members) && members.dom().contains(name) && members[name]
        == JsonTree::Text(words)
}

/// The object has the truth value true as its member `finalized`.
pub open spec fn says_it_is_final(state: JsonTree) -> bool {
    state matches JsonTree::Object(members) && members.dom().contains("finalized"@)
        && members["finalized"@] == JsonTree::Bool(true)
}

/// What the goals of a wait are, by the members of the state: a bound runtime is named by a
/// submitted Task, a success by the phase, the end by `finalized`, and a failure that is final by
/// both. The phase of a Task is the text `phase` of its state.
pub proof fn law_goals_go_by_the_members_of_the_state(state: JsonTree)
    ensures
        meets(Goal::RuntimeBound, state) <==> says(state, "phase"@, "submitted"@) && (state matches
            JsonTree::Object(members) && members.dom().contains("runtimeUid"@)
            && members["runtimeUid"@] is Text),
        meets(Goal::Succeeded, state) <==> says(state, "phase"@, "succeeded"@),
        meets(Goal::Finalized, state) <==> says_it_is_final(state),
        meets(Goal::FailedAndFinalized, state) <==> says(state, "phase"@, "failed"@)
            && says_it_is_final(state),
        is_terminal_failure(state) <==> says_it_is_final(state) && (says(
            state,
            "phase"@,
            "failed"@,
        ) || says(state, "phase"@, "cancelled"@)),
        forall|phase: Seq<char>| #[trigger]
            says(state, "phase"@, phase) <==> phase_of(state) == Some(phase),
{
}

/// What a look of a wait means, by the members of the state that it shows. A state whose phase is
/// another one never counts as the goal: not as a success, and not as a failure that is final.
pub proof fn law_looks_go_by_the_members_of_the_state(wait: TaskWait, state: JsonTree)
    ensures
        wait.meaning(state) == TaskLookView::Reached <==> match wait.goal {
            Goal::RuntimeBound => says(state, "phase"@, "submitted"@) && (state matches
                JsonTree::Object(members) && members.dom().contains("runtimeUid"@)
                && members["runtimeUid"@] is Text),
            Goal::Succeeded => says(state, "phase"@, "succeeded"@),
            Goal::Finalized => says_it_is_final(state),
            Goal::FailedAndFinalized => says(state, "phase"@, "failed"@) && says_it_is_final(state),
        },
        wait.meaning(state) !is Reached && says_it_is_final(state) && (says(
            state,
            "phase"@,
            "failed"@,
        ) || says(state, "phase"@, "cancelled"@)) ==> wait.meaning(state) == TaskLookView::Failed(
            "Task "@ + wait.task_uid@ + " reached terminal state: "@ + json_text(state),
        ),
        wait.meaning(state) == TaskLookView::Again ==> wait.attempts < 239 && !(
        says_it_is_final(state) && (says(state, "phase"@, "failed"@) || says(
            state,
            "phase"@,
            "cancelled"@,
        ))),
        wait.meaning(state) matches TaskLookView::Failed(words) ==> words == "Task "@
            + wait.task_uid@ + " reached terminal state: "@ + json_text(state) || (wait.attempts
            >= 239 && words == "Task "@ + wait.task_uid@ + " did not reach expected state"@),
{
}

/// A watch over a phase goes by the text `phase` of the state: any other phase, and a state without
/// one, ends it at once; four looks in the phase end it well.
pub proof fn law_watches_go_by_the_phase(watch: PhaseWatch, state: JsonTree)
    ensures
        watch.meaning(state) is Failed <==> !says(state, "phase"@, watch.expected_phase@),
        watch.meaning(state) == TaskLookView::Reached <==> says(
            state,
            "phase"@,
            watch.expected_phase@,
        ) && watch.attempts >= 3,
        watch.meaning(state) matches TaskLookView::Failed(words) ==> words
            == "a Task bound to a stale runtime UID must fail closed instead of executing on a replacement"@,
{
}

/// What is found under an identity is the first runtime that has it, and nothing is found where
/// none has it.
pub proof fn law_runtimes_are_found_by_their_identity(runtimes: Seq<Runtime>, uid: Seq<char>)
    ensures
        match place_of_uid(runtimes, uid, 0) {
            Some(at) => 0 <= at < runtimes.len() && runtimes[at]@.metadata.uid == Some(uid)
                && forall|i: int|
                0 <= i < at ==> (#[trigger] runtimes[i])@.metadata.uid != Some(uid),
            None => forall|i: int|
                0 <= i < runtimes.len() ==> (#[trigger] runtimes[i])@.metadata.uid != Some(uid),
        },
{
    lemma_place_of_uid(runtimes, uid, 0);
}

/// What is found from a position on is the first that has the identity.
proof fn lemma_place_of_uid(runtimes: Seq<Runtime>, uid: Seq<char>, from: int)
    requires
        0 <= from,
    ensures
        match place_of_uid(runtimes, uid, from) {
            Some(at) => from <= at < runtimes.len() && runtimes[at]@.metadata.uid == Some(uid)
                && forall|i: int|
                from <= i < at ==> (#[trigger] runtimes[i])@.metadata.uid != Some(uid),
            None => forall|i: int|
                from <= i < runtimes.len() ==> (#[trigger] runtimes[i])@.metadata.uid != Some(uid),
        },
    decreases runtimes.len() - from,
{
    if from < runtimes.len() {
        lemma_place_of_uid(runtimes, uid, from + 1);
    }
}

/// A wait gives a runtime only where it has the identity that is waited for, runs, and has both a
/// workspace and a sandbox; the first runtime of that identity decides. Without such a runtime it
/// goes on for 240 looks, and then says which runtime did not run.
pub proof fn law_only_the_awaited_runtime_is_given(wait: RuntimeWait, runtimes: Seq<Runtime>)
    ensures
        match wait.meaning(runtimes) {
            RuntimeLookView::Running { at } => {
                &&& 0 <= at < runtimes.len()
                &&& runtimes[at]@.metadata.uid == Some(wait.runtime_uid@)
                &&& forall|i: int|
                    0 <= i < at ==> (#[trigger] runtimes[i])@.metadata.uid != Some(
                        wait.runtime_uid@,
                    )
                &&& runtimes[at]@.status matches Some(status)
                &&& status.phase == "Running"@
                &&& status.refs.workspace is Some
                &&& status.refs.sandbox is Some
            },
            RuntimeLookView::Failed(words) => wait.attempts >= 239 && words
                == "controller-created Task runtime "@ + wait.runtime_uid@
                + " did not reach Running with workspace and sandbox references"@,
            RuntimeLookView::Again => wait.attempts < 239,
        },
        (exists|at: int|
            0 <= at < runtimes.len() && (#[trigger] runtimes[at])@.metadata.uid == Some(
                wait.runtime_uid@,
            ) && (forall|i: int|
                0 <= i < at ==> (#[trigger] runtimes[i])@.metadata.uid != Some(wait.runtime_uid@))
                && (runtimes[at]@.status matches Some(status) && status.phase == "Running"@
                && status.refs.workspace is Some && status.refs.sandbox is Some))
            ==> wait.meaning(runtimes) is Running,
{
    lemma_place_of_uid(runtimes, wait.runtime_uid@, 0);
}

/// A runtime calls its tools in its own workspace and sandbox, and only where it asked for a tool;
/// what it lacks first is what is told.
pub proof fn law_tools_are_called_in_the_sandbox_of_the_runtime(runtime: RuntimeView)
    ensures
        match tool_sandbox(runtime) {
            Ok((workspace, sandbox)) => {
                &&& runtime.spec.tools.len() > 0
                &&& runtime.status matches Some(status)
                &&& status.refs.workspace == Some(workspace)
                &&& status.refs.sandbox == Some(sandbox)
            },
            Err(words) => {
                ||| runtime.spec.tools.len() == 0 && words
                    == "the controller-created Task runtime must request a governed tool provider"@
                ||| runtime.spec.tools.len() > 0 && runtime.status is None && words
                    == "running Task runtime has no status references"@
                ||| runtime.spec.tools.len() > 0 && (runtime.status matches Some(status)
                    && status.refs.workspace is None) && words
                    == "running Task runtime has no workspace reference"@
                ||| runtime.spec.tools.len() > 0 && (runtime.status matches Some(status)
                    && status.refs.workspace is Some && status.refs.sandbox is None) && words
                    == "running Task runtime has no sandbox reference"@
            },
        },
{
}

/// A provider counts as attached exactly where it was looked for with success and its name stands
/// somewhere in the listing.
pub proof fn law_attached_providers_are_listed(
    success: bool,
    before: Seq<char>,
    after: Seq<char>,
    stdout: Seq<u8>,
    stderr: Seq<u8>,
)
    ensures
        utf8_lossy(stdout) == before + "steward-mcp-gw"@ + after && success ==> provider_verdict(
            success,
            stdout,
            stderr,
        ) is Ok,
        provider_verdict(success, stdout, stderr) is Ok ==> success && exists|at: int|
            0 <= at && at + 14 <= utf8_lossy(stdout).len() && #[trigger] utf8_lossy(
                stdout,
            ).subrange(at, at + 14) == "steward-mcp-gw"@,
        !success ==> provider_verdict(success, stdout, stderr) == Err::<(), Seq<char>>(
            "controller-created runtime provider inspection failed: "@ + trimmed(
                utf8_lossy(stderr),
            ),
        ),
        success && provider_verdict(success, stdout, stderr) is Err ==> provider_verdict(
            success,
            stdout,
            stderr,
        ) == Err::<(), Seq<char>>(
            "controller-created runtime must attach the governed tool provider before execution"@,
        ),
{
    reveal_strlit("steward-mcp-gw");
    let listing = utf8_lossy(stdout);
    let name = "steward-mcp-gw"@;
    if listing == before + name + after {
        let at = before.len() as int;
        assert(listing.subrange(at, at + name.len()) =~= name);
        assert(crate::text::occurs_at(listing, name, at));
    }
    if has_text(listing, name) {
        let at = choose|at: int| crate::text::occurs_at(listing, name, at);
        assert(listing.subrange(at, at + 14) == name);
    }
}

/// An approval says why, on what evidence and until when, and the runtime that took the place of
/// another is the text `runtimeUid` of a reply that says that it was created.
pub proof fn law_approvals_and_replacements_go_by_their_members(
    evidence_url: Seq<char>,
    status: u16,
    body: Seq<u8>,
    uid: Seq<char>,
)
    ensures
        says(approval_tree(evidence_url), "evidenceUrl"@, evidence_url),
        says(approval_tree(evidence_url), "rationale"@, "task e2e approval"@),
        says(approval_tree(evidence_url), "expiresAt"@, "2999-01-01T00:00:00Z"@),
        replaced_uid(status, body) == Ok::<Seq<char>, Seq<char>>(uid) <==> status == 201 && (
        json_document(body) matches Some(reply) && says(reply, "runtimeUid"@, uid)),
{
    reveal_strlit("evidenceUrl");
    reveal_strlit("rationale");
    reveal_strlit("expiresAt");
    assert("evidenceUrl"@.len() == 11 && "rationale"@.len() == 9 && "expiresAt"@.len() == 9);
    assert("rationale"@[0] != "expiresAt"@[0]);
}

} // verus!
