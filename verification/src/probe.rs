//! Replies of the processes that probe a cluster: their exit, their output and the HTTP status
//! that they report.
use crate::text::{
    concat2, concat3, decimal_digits, decode, decode_lossy, last_upto, lemma_decimal_digits,
    lemma_last_upto, lemma_trimmed, occurs_at, parse_u16, parted_last, rsplit_once, trim,
    trim_final_newlines, trimmed, u16_error_text, u16_value, utf8_error_text, utf8_lossy,
    without_final_newlines,
};
use vstd::prelude::*;
use vstd::utf8::*;

verus! {

/// What `curl` is told to write before the HTTP status of a reply.
pub const HTTP_STATUS_MARKER: &'static str = "__STEWARD_HTTP_STATUS:";

/// What a finished process left behind.
pub struct ProcessOutput {
    pub success: bool,
    pub stdout: Vec<u8>,
    pub stderr: Vec<u8>,
}

/// An HTTP reply.
pub struct HttpResponse {
    pub body: String,
    pub status: u16,
}

/// What a reply or a failure says.
pub open spec fn response_view(response: Result<HttpResponse, String>) -> Result<
    (Seq<char>, u16),
    Seq<char>,
> {
    match response {
        Ok(reply) => Ok((reply.body@, reply.status)),
        Err(words) => Err(words@),
    }
}

/// What a status or a failure says.
pub open spec fn status_view(status: Result<u16, String>) -> Result<u16, Seq<char>> {
    match status {
        Ok(number) => Ok(number),
        Err(words) => Err(words@),
    }
}

/// What a success or a failure says.
pub open spec fn outcome_view(outcome: Result<(), String>) -> Result<(), Seq<char>> {
    match outcome {
        Ok(()) => Ok(()),
        Err(words) => Err(words@),
    }
}

/// The reply that the text written by a probe holds: the body stands before the last status
/// marker, the status behind it.
pub open spec fn probed_reply(written: Seq<char>, context: Seq<char>) -> Result<
    (Seq<char>, u16),
    Seq<char>,
> {
    match parted_last(written, HTTP_STATUS_MARKER@) {
        None => Err(context + " did not return an HTTP status marker"@),
        Some((body, status)) => match u16_value(trimmed(status)) {
            None => Err(
                context + " returned an invalid HTTP status: "@ + u16_error_text(trimmed(status)),
            ),
            Some(number) => Ok((without_final_newlines(body), number)),
        },
    }
}

/// The reply that a finished probe reports.
pub open spec fn probed_response(
    success: bool,
    stdout: Seq<u8>,
    stderr: Seq<u8>,
    context: Seq<char>,
) -> Result<(Seq<char>, u16), Seq<char>> {
    if !success {
        Err(context + " did not complete: "@ + trimmed(utf8_lossy(stderr)))
    } else if !valid_utf8(stdout) {
        Err(utf8_error_text(stdout))
    } else {
        probed_reply(decode_utf8(stdout), context)
    }
}

/// Whether a tool call is made again: the relay answers so while the grant is being made.
pub fn retryable_provider_grant_status(status: u16) -> (retry: bool)
    ensures
        retry == (status == 502),
{
    status == 502
}

/// Reads the reply that a finished probe reports.
pub fn parse_http_response(output: ProcessOutput, context: &str) -> (response: Result<
    HttpResponse,
    String,
>)
    ensures
        response_view(response) == probed_response(
            output.success,
            output.stdout@,
            output.stderr@,
            context@,
        ),
{
    if !output.success {
        let stderr = decode_lossy(output.stderr.as_slice());
        return Err(concat3(context, " did not complete: ", trim(stderr.as_str())));
    }
    let stdout = match decode(output.stdout) {
        Ok(text) => text,
        Err(words) => return Err(words),
    };
    match rsplit_once(stdout.as_str(), HTTP_STATUS_MARKER) {
        None => Err(concat2(context, " did not return an HTTP status marker")),
        Some((body, status)) => match parse_u16(trim(status)) {
            Err(words) => Err(
                concat3(context, " returned an invalid HTTP status: ", words.as_str()),
            ),
            Ok(number) => Ok(
                HttpResponse { body: trim_final_newlines(body).to_owned(), status: number },
            ),
        },
    }
}

/// The status that a finished `curl` wrote, and nothing else with it.
pub open spec fn written_status(
    success: bool,
    stdout: Seq<u8>,
    stderr: Seq<u8>,
    context: Seq<char>,
) -> Result<u16, Seq<char>> {
    if !success {
        Err(context + " failed: "@ + utf8_lossy(stderr))
    } else if !valid_utf8(stdout) {
        Err(utf8_error_text(stdout))
    } else {
        match u16_value(decode_utf8(stdout)) {
            Some(number) => Ok(number),
            None => Err(u16_error_text(decode_utf8(stdout))),
        }
    }
}

/// Reads the status that a finished `curl` wrote.
pub fn curl_status(output: ProcessOutput, context: &str) -> (status: Result<u16, String>)
    ensures
        status_view(status) == written_status(
            output.success,
            output.stdout@,
            output.stderr@,
            context@,
        ),
{
    if !output.success {
        let stderr = decode_lossy(output.stderr.as_slice());
        return Err(concat3(context, " failed: ", stderr.as_str()));
    }
    match decode(output.stdout) {
        Ok(text) => parse_u16(text.as_str()),
        Err(words) => Err(words),
    }
}

/// Whether a finished process did what `context` names.
pub fn command(success: bool, context: &str) -> (outcome: Result<(), String>)
    ensures
        outcome_view(outcome) == (if success {
            Ok(())
        } else {
            Err::<(), Seq<char>>(context@ + " failed"@)
        }),
{
    if success {
        Ok(())
    } else {
        Err(concat2(context, " failed"))
    }
}

/// What `curl` writes for a reply: the body, a line feed, the marker, the status and a line
/// feed.
pub open spec fn marked_reply(body: Seq<char>, status: u16) -> Seq<char> {
    body + seq!['\n'] + HTTP_STATUS_MARKER@ + decimal_digits(status as nat) + seq!['\n']
}

/// A probe gives back the reply that `curl` wrote: its status, and its body but for the line
/// feeds at its end. It does so whatever the body holds, also where the body holds the marker.
pub proof fn law_probe_keeps_body_and_status(
    body: Seq<char>,
    status: u16,
    stderr: Seq<u8>,
    context: Seq<char>,
)
    ensures
        probed_response(true, encode_utf8(marked_reply(body, status)), stderr, context) == Ok::<
            (Seq<char>, u16),
            Seq<char>,
        >((without_final_newlines(body), status)),
{
    let written = marked_reply(body, status);
    encode_utf8_valid_utf8(written);
    encode_utf8_decode_utf8(written);
    let marker = HTTP_STATUS_MARKER@;
    reveal_strlit("__STEWARD_HTTP_STATUS:");
    let digits = decimal_digits(status as nat);
    lemma_decimal_digits(status as nat);
    assert(digits.len() <= 5) by {
        crate::text::lemma_decimal_width(status as nat);
    }
    let at: int = (body.len() + 1) as int;
    assert(written.subrange(at, at + marker.len()) =~= marker);
    assert(occurs_at(written, marker, at as int));
    let upto = written.len() - marker.len();
    assert forall|i: int| at < i <= upto implies !occurs_at(written, marker, i) by {
        let k = i - at;
        let last = written.subrange(i, i + marker.len())[marker.len() - 1];
        assert(last == written[at + marker.len() + k - 1]);
        assert(last == digits.push('\n')[k - 1]);
        assert(marker[marker.len() - 1] == ':');
    }
    lemma_last_upto(written, marker, upto);
    assert(last_upto(written, marker, upto) == Some(at as int));
    let status_part = written.subrange(at + marker.len(), written.len() as int);
    assert(status_part =~= digits.push('\n'));
    assert(trimmed(status_part) == digits) by {
        lemma_trimmed(Seq::empty(), digits, seq!['\n']);
        assert(Seq::<char>::empty() + digits + seq!['\n'] =~= status_part);
    }
    let head = written.subrange(0, at as int);
    assert(head =~= body.push('\n'));
    assert(head.drop_last() =~= body);
    assert(without_final_newlines(head) == without_final_newlines(body));
}

/// A status that `curl` wrote is read back, and nothing is read from a process that failed.
pub proof fn law_written_statuses_are_read_back(
    status: u16,
    stdout: Seq<u8>,
    stderr: Seq<u8>,
    context: Seq<char>,
)
    ensures
        written_status(true, encode_utf8(decimal_digits(status as nat)), stderr, context) == Ok::<
            u16,
            Seq<char>,
        >(status),
        written_status(false, stdout, stderr, context) == Err::<u16, Seq<char>>(
            context + " failed: "@ + utf8_lossy(stderr),
        ),
        probed_response(false, stdout, stderr, context) == Err::<(Seq<char>, u16), Seq<char>>(
            context + " did not complete: "@ + trimmed(utf8_lossy(stderr)),
        ),
{
    let digits = decimal_digits(status as nat);
    encode_utf8_valid_utf8(digits);
    encode_utf8_decode_utf8(digits);
    lemma_decimal_digits(status as nat);
}

/// What a probe reads was written: the status in decimal digits behind a marker, with white space
/// around it at most, and the body before that marker, without the line feeds at its end. The
/// marker is the last one.
pub proof fn law_probed_replies_were_written(written: Seq<char>, context: Seq<char>)
    ensures
        match probed_reply(written, context) {
            Ok((body, status)) => exists|at: int| #[trigger]
                stands_at(written, "__STEWARD_HTTP_STATUS:"@, at) && body
                    == without_final_newlines(written.take(at)) && u16_value(
                    trimmed(written.skip(at + 22)),
                ) == Some(status) && forall|i: int|
                    i > at ==> !#[trigger] stands_at(written, "__STEWARD_HTTP_STATUS:"@, i),
            Err(_) => true,
        },
        (forall|i: int| !#[trigger] stands_at(written, "__STEWARD_HTTP_STATUS:"@, i))
            ==> probed_reply(written, context) == Err::<(Seq<char>, u16), Seq<char>>(
            context + " did not return an HTTP status marker"@,
        ),
{
    let marker = "__STEWARD_HTTP_STATUS:"@;
    reveal_strlit("__STEWARD_HTTP_STATUS:");
    let upto = written.len() - marker.len();
    lemma_last_upto(written, marker, upto);
    match last_upto(written, marker, upto) {
        Some(at) => {
            assert(stands_at(written, marker, at));
            assert(written.take(at) =~= written.subrange(0, at));
            assert(written.skip(at + 22) =~= written.subrange(
                at + marker.len(),
                written.len() as int,
            ));
            assert forall|i: int| i > at implies !#[trigger] stands_at(written, marker, i) by {
                if stands_at(written, marker, i) {
                    assert(occurs_at(written, marker, i));
                }
            }
        },
        None => {},
    }
}

/// The words stand in the text at a position.
pub open spec fn stands_at(text: Seq<char>, words: Seq<char>, at: int) -> bool {
    0 <= at && at + words.len() <= text.len() && text.subrange(at, at + words.len()) == words
}

} // verus!
