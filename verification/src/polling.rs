//! Waiting for a cluster: what each look at it means, and what is said when the time is over.
use crate::harness::{text_view, Suite};
use crate::probe::ProcessOutput;
use crate::text::{
    concat2, concat3, concat4, concat5, contains_text, decode, has_text, quoted, quoted_text,
    same_text, utf8_error_text,
};
use vstd::prelude::*;
use vstd::string::*;
use vstd::utf8::*;

verus! {

/// What a look decides: that what was waited for is there, that it will not come, or nothing
/// yet.
pub enum Look {
    Reached,
    Failed(String),
    Again,
}

pub ghost enum LookView {
    Reached,
    Failed(Seq<char>),
    Again,
}

impl View for Look {
    type V = LookView;

    open spec fn view(&self) -> LookView {
        match *self {
            Look::Reached => LookView::Reached,
            Look::Failed(words) => LookView::Failed(words@),
            Look::Again => LookView::Again,
        }
    }
}

/// A wait for a runtime to be in a phase; `last` is the phase that was seen last.
pub struct PhaseWait {
    pub suite: Suite,
    pub namespace: String,
    pub name: String,
    pub expected: String,
    pub last: String,
}

/// A suite gives up as soon as a runtime has failed.
pub open spec fn gives_up_on_failure(suite: Suite) -> bool {
    suite == Suite::S1 || suite == Suite::S2 || suite == Suite::Connections
}

impl PhaseWait {
    /// How the suite calls the runtime.
    pub open spec fn subject(&self) -> Seq<char> {
        match self.suite {
            Suite::S1 => "AgentRuntime "@ + self.namespace@ + "/"@ + self.name@,
            Suite::Connections => "AgentRuntime "@ + self.namespace@ + "/"@ + self.name@,
            Suite::S2 => self.name@,
            Suite::S5 => self.name@,
            _ => "AgentRuntime"@,
        }
    }

    /// What is said when the runtime has failed.
    pub open spec fn failure(&self) -> Seq<char> {
        if self.suite == Suite::Connections {
            self.subject() + " failed"@
        } else {
            self.subject() + " reached Failed while waiting for "@ + self.expected@
        }
    }

    /// What a look with this outcome means.
    pub open spec fn meaning(&self, success: bool, stdout: Seq<u8>) -> LookView {
        if !success {
            LookView::Again
        } else if !valid_utf8(stdout) {
            LookView::Failed(utf8_error_text(stdout))
        } else if decode_utf8(stdout) == self.expected@ {
            LookView::Reached
        } else if gives_up_on_failure(self.suite) && decode_utf8(stdout) == "Failed"@ {
            LookView::Failed(self.failure())
        } else {
            LookView::Again
        }
    }

    /// The phase that was seen last, once a look had this outcome.
    pub open spec fn last_after(&self, success: bool, stdout: Seq<u8>) -> Seq<char> {
        if success && valid_utf8(stdout) {
            decode_utf8(stdout)
        } else {
            self.last@
        }
    }

    /// How the suite calls the runtime.
    fn subject_words(&self) -> (words: String)
        ensures
            words@ == self.subject(),
    {
        match self.suite {
            Suite::S1 => concat4("AgentRuntime ", self.namespace.as_str(), "/", self.name.as_str()),
            Suite::Connections => concat4(
                "AgentRuntime ",
                self.namespace.as_str(),
                "/",
                self.name.as_str(),
            ),
            Suite::S2 => self.name.clone(),
            Suite::S5 => self.name.clone(),
            _ => "AgentRuntime".to_owned(),
        }
    }

    /// Starts to wait.
    pub fn new(suite: Suite, namespace: &str, name: &str, expected: &str) -> (wait: PhaseWait)
        ensures
            wait.suite == suite,
            wait.namespace@ == namespace@,
            wait.name@ == name@,
            wait.expected@ == expected@,
            wait.last@.len() == 0,
    {
        PhaseWait {
            suite,
            namespace: namespace.to_owned(),
            name: name.to_owned(),
            expected: expected.to_owned(),
            last: String::new(),
        }
    }

    /// Takes a look at the phase of the runtime.
    pub fn wait_phase(&mut self, output: ProcessOutput) -> (look: Look)
        ensures
            look@ == old(self).meaning(output.success, output.stdout@),
            final(self).last@ == old(self).last_after(output.success, output.stdout@),
            final(self).suite == old(self).suite,
            final(self).namespace == old(self).namespace,
            final(self).name == old(self).name,
            final(self).expected == old(self).expected,
    {
        if !output.success {
            return Look::Again;
        }
        let phase = match decode(output.stdout) {
            Ok(phase) => phase,
            Err(words) => return Look::Failed(words),
        };
        let reached = same_text(phase.as_str(), self.expected.as_str());
        let failed = same_text(phase.as_str(), "Failed");
        self.last = phase;
        if reached {
            return Look::Reached;
        }
        if failed {
            let subject = self.subject_words();
            match self.suite {
                Suite::Connections => {
                    return Look::Failed(concat2(subject.as_str(), " failed"));
                },
                Suite::S1 | Suite::S2 => {
                    return Look::Failed(
                        concat3(
                            subject.as_str(),
                            " reached Failed while waiting for ",
                            self.expected.as_str(),
                        ),
                    );
                },
                _ => {},
            }
        }
        Look::Again
    }

    /// What is said when the time is over.
    pub fn expired(&self) -> (words: String)
        ensures
            words@ == self.subject() + " did not reach "@ + self.expected@ + (if self.suite
                == Suite::Connections {
                "; last="@
            } else {
                "; last phase was "@
            }) + quoted_text(self.last@),
    {
        let subject = self.subject_words();
        let last = quoted(self.last.as_str());
        let joint = match self.suite {
            Suite::Connections => "; last=",
            _ => "; last phase was ",
        };
        concat5(subject.as_str(), " did not reach ", self.expected.as_str(), joint, last.as_str())
    }
}

/// A phase that was waited for ends the wait even where it is the phase of a failure.
pub proof fn law_expected_phase_ends_the_wait(wait: PhaseWait, stdout: Seq<u8>)
    requires
        valid_utf8(stdout),
        decode_utf8(stdout) == wait.expected@,
    ensures
        wait.meaning(true, stdout) == LookView::Reached,
{
}

/// A look that did not succeed decides nothing and forgets nothing.
pub proof fn law_failed_looks_decide_nothing(wait: PhaseWait, stdout: Seq<u8>)
    ensures
        wait.meaning(false, stdout) == LookView::Again,
        wait.last_after(false, stdout) == wait.last@,
{
}

/// What is said when a runtime that is to be deleted was not gone in time.
pub fn absence_expired(suite: Suite) -> (words: String)
    ensures
        words@ == (if suite == Suite::S5 {
            "TTL termination did not delete the runtime"@
        } else {
            "AgentRuntime deletion did not complete"@
        }),
{
    match suite {
        Suite::S5 => "TTL termination did not delete the runtime".to_owned(),
        _ => "AgentRuntime deletion did not complete".to_owned(),
    }
}

/// Takes a look at the cached fields of a runtime's status, both of which are to be empty;
/// `last` is what was seen of them last.
pub fn wait_status_cache_cleared(output: ProcessOutput, last: &mut String) -> (look: Look)
    ensures
        look@ == (if !output.success {
            LookView::Again
        } else if !valid_utf8(output.stdout@) {
            LookView::Failed(utf8_error_text(output.stdout@))
        } else if decode_utf8(output.stdout@) == ":"@ {
            LookView::Reached
        } else {
            LookView::Again
        }),
        final(last)@ == (if output.success && valid_utf8(output.stdout@) {
            decode_utf8(output.stdout@)
        } else {
            old(last)@
        }),
{
    if !output.success {
        return Look::Again;
    }
    match decode(output.stdout) {
        Err(words) => Look::Failed(words),
        Ok(fields) => {
            let cleared = same_text(fields.as_str(), ":");
            *last = fields;
            if cleared {
                Look::Reached
            } else {
                Look::Again
            }
        },
    }
}

/// What is said when the cached fields were not cleared in time.
pub fn status_cache_expired(last: &str) -> (words: String)
    ensures
        words@ == "reconcile did not clear stale status cache fields; last value was "@
            + quoted_text(last@),
{
    let seen = quoted(last);
    concat2("reconcile did not clear stale status cache fields; last value was ", seen.as_str())
}

/// A wait for a tool to answer with a text; `last` is what it answered last.
pub struct ToolWait {
    pub suite: Suite,
    pub namespace: String,
    pub name: String,
    pub expected: String,
    pub last: String,
}

impl ToolWait {
    /// Starts to wait.
    pub fn new(suite: Suite, namespace: &str, name: &str, expected: &str) -> (wait: ToolWait)
        ensures
            wait.suite == suite,
            wait.namespace@ == namespace@,
            wait.name@ == name@,
            wait.expected@ == expected@,
            wait.last@ == (if suite == Suite::Connections {
                ""@
            } else {
                "tool call was not attempted"@
            }),
    {
        let last = match suite {
            Suite::Connections => "",
            _ => "tool call was not attempted",
        };
        ToolWait {
            suite,
            namespace: namespace.to_owned(),
            name: name.to_owned(),
            expected: expected.to_owned(),
            last: last.to_owned(),
        }
    }

    /// Takes the answer of the tool, or what kept the call from being made, which ends the wait of
    /// the connections alone.
    pub fn wait_tool_response(&mut self, answer: Result<String, String>) -> (look: Look)
        ensures
            look@ == (match text_view(answer) {
                Ok(response) => if has_text(response, old(self).expected@) {
                    LookView::Reached
                } else {
                    LookView::Again
                },
                Err(words) => if old(self).suite == Suite::Connections {
                    LookView::Failed(words)
                } else {
                    LookView::Again
                },
            }),
            final(self).last@ == (match text_view(answer) {
                Ok(response) => response,
                Err(words) => if old(self).suite == Suite::Connections {
                    old(self).last@
                } else {
                    words
                },
            }),
            final(self).suite == old(self).suite,
            final(self).namespace == old(self).namespace,
            final(self).name == old(self).name,
            final(self).expected == old(self).expected,
    {
        match answer {
            Ok(response) => {
                let reached = contains_text(response.as_str(), self.expected.as_str());
                self.last = response;
                if reached {
                    Look::Reached
                } else {
                    Look::Again
                }
            },
            Err(words) => match self.suite {
                Suite::Connections => Look::Failed(words),
                _ => {
                    self.last = words;
                    Look::Again
                },
            },
        }
    }

    /// What is said when the tool did not answer with the text in time.
    pub fn expired(&self) -> (words: String)
        ensures
            words@ == (if self.suite == Suite::Connections {
                "tool result for "@ + self.namespace@ + "/"@ + self.name@ + " did not contain "@
                    + quoted_text(self.expected@) + "; last="@ + self.last@
            } else {
                "tool call for "@ + self.namespace@ + "/"@ + self.name@ + " did not contain "@
                    + quoted_text(self.expected@) + "; last result: "@ + self.last@
            }),
    {
        let expected = quoted(self.expected.as_str());
        let connections = match self.suite {
            Suite::Connections => true,
            _ => false,
        };
        let start = if connections {
            "tool result for "
        } else {
            "tool call for "
        };
        let mut words = concat5(
            start,
            self.namespace.as_str(),
            "/",
            self.name.as_str(),
            " did not contain ",
        );
        words.append(expected.as_str());
        words.append(
            if connections {
                "; last="
            } else {
                "; last result: "
            },
        );
        words.append(self.last.as_str());
        words
    }
}

/// Whether a listing of providers shows the tool gateway.
pub fn tool_provider_is_attached(listing: &str) -> (attached: bool)
    ensures
        attached == has_text(listing@, "steward-mcp-gw"@),
{
    contains_text(listing, "steward-mcp-gw")
}

/// How a truth value is written.
pub open spec fn truth_words(truth: bool) -> Seq<char> {
    if truth {
        "true"@
    } else {
        "false"@
    }
}

/// What is said when the tool provider was not attached, or not detached, in time.
pub fn provider_attachment_expired(namespace: &str, name: &str, last: bool, expected: bool) -> (
    words: String)
    ensures
        words@ == "tool provider attachment for "@ + namespace@ + "/"@ + name@ + " remained "@
            + truth_words(last) + ", expected "@ + truth_words(expected),
{
    let mut words = concat5(
        "tool provider attachment for ",
        namespace,
        "/",
        name,
        " remained ",
    );
    words.append(
        if last {
            "true"
        } else {
            "false"
        },
    );
    words.append(", expected ");
    words.append(
        if expected {
            "true"
        } else {
            "false"
        },
    );
    words
}

/// What is said when a runtime could not call its tool.
pub open spec fn tool_refusal(response: Seq<char>) -> Seq<char> {
    "the acting user's runtime could not call its authorized tool: "@ + response
}

/// What the answer to a call of an authorized tool means: only while the token is not granted yet
/// is the call made again.
pub open spec fn authorized_call_meaning(response: Seq<char>) -> LookView {
    if has_text(response, "example-org/fixture-repository"@) {
        LookView::Reached
    } else if has_text(response, "token_grant_failed"@) {
        LookView::Again
    } else {
        LookView::Failed(tool_refusal(response))
    }
}

/// Takes the answer to a call of an authorized tool.
pub fn wait_authorized_tool_call(response: &str) -> (look: Look)
    ensures
        look@ == authorized_call_meaning(response@),
{
    if contains_text(response, "example-org/fixture-repository") {
        Look::Reached
    } else if contains_text(response, "token_grant_failed") {
        Look::Again
    } else {
        Look::Failed(authorized_tool_expired(response))
    }
}

/// What is said when a runtime could not call its tool in time.
pub fn authorized_tool_expired(last_response: &str) -> (words: String)
    ensures
        words@ == tool_refusal(last_response@),
{
    concat2("the acting user's runtime could not call its authorized tool: ", last_response)
}

/// Takes a look at a field of a runtime. The field is looked at before the time is, so that it
/// counts even where the time is over.
pub fn wait_for_runtime_field(
    name: &str,
    jsonpath: &str,
    expected: &str,
    value: &str,
    time_is_over: bool,
) -> (look: Look)
    ensures
        look@ == (if value@ == expected@ {
            LookView::Reached
        } else if time_is_over {
            LookView::Failed(
                "AgentRuntime "@ + name@ + " field "@ + jsonpath@ + " did not converge to "@
                    + quoted_text(expected@),
            )
        } else {
            LookView::Again
        }),
{
    if same_text(value, expected) {
        Look::Reached
    } else if time_is_over {
        let mut words = concat5(
            "AgentRuntime ",
            name,
            " field ",
            jsonpath,
            " did not converge to ",
        );
        words.append(quoted(expected).as_str());
        Look::Failed(words)
    } else {
        Look::Again
    }
}

/// What a look at a phase means: only what is seen counts. The phase that is waited for ends the
/// wait, a failure ends it in the suites that give up on failures, and any other phase does not.
pub proof fn law_looks_go_by_the_phase_that_is_seen(wait: PhaseWait, phase: Seq<char>)
    ensures
        ({
            let seen = wait.meaning(true, encode_utf8(phase));
            let gives_up = wait.suite == Suite::S1 || wait.suite == Suite::S2 || wait.suite
                == Suite::Connections;
            &&& seen == LookView::Reached <==> phase == wait.expected@
            &&& seen is Failed <==> phase != wait.expected@ && phase == "Failed"@ && gives_up
            &&& wait.last_after(true, encode_utf8(phase)) == phase
        }),
{
    encode_utf8_valid_utf8(phase);
    encode_utf8_decode_utf8(phase);
}

/// A failure names the runtime that failed, by its namespace and its name where the suite has more
/// than one namespace.
pub proof fn law_failures_name_their_runtime(wait: PhaseWait)
    ensures
        wait.suite == Suite::Connections ==> wait.failure() == "AgentRuntime "@ + wait.namespace@
            + "/"@ + wait.name@ + " failed"@,
        wait.suite == Suite::S1 ==> wait.failure() == "AgentRuntime "@ + wait.namespace@ + "/"@
            + wait.name@ + " reached Failed while waiting for "@ + wait.expected@,
        wait.suite == Suite::S2 ==> wait.failure() == wait.name@
            + " reached Failed while waiting for "@ + wait.expected@,
{
}

/// An authorized tool has answered where the fixture stands in its answer, whatever else it says; it
/// is called again only where its token is not granted yet, and any other answer is a refusal, told
/// as it is.
pub proof fn law_authorized_tools_answer_with_the_fixture(
    before: Seq<char>,
    after: Seq<char>,
    response: Seq<char>,
)
    ensures
        authorized_call_meaning(before + "example-org/fixture-repository"@ + after)
            == LookView::Reached,
        authorized_call_meaning(response) == LookView::Reached <==> has_text(
            response,
            "example-org/fixture-repository"@,
        ),
        authorized_call_meaning(response) == LookView::Again <==> !has_text(
            response,
            "example-org/fixture-repository"@,
        ) && has_text(response, "token_grant_failed"@),
        authorized_call_meaning(response) matches LookView::Failed(words) ==> words
            == "the acting user's runtime could not call its authorized tool: "@ + response,
{
    let fixture = "example-org/fixture-repository"@;
    let whole = before + fixture + after;
    let at = before.len() as int;
    assert(whole.subrange(at, at + fixture.len()) =~= fixture);
    assert(crate::text::occurs_at(whole, fixture, at));
}

} // verus!
