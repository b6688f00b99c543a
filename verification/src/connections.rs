//! Governed connections to tool providers: their operations, the bridge runtimes that carry them
//! out and the authorization that a person gives in a browser.
use crate::envelopes::{long_running_envelope, long_running_view};
use crate::harness::{leftover, nothing_left};
use crate::probe::{outcome_view, ProcessOutput};
use crate::runtimes::{option_text, ModelRef};
use crate::task_store::{EnvelopeScope, SeededEnvelope, SeededEnvelopeView};
use crate::text::{
    ascii_lowered, concat2, concat3, contains_lowered, decode, decode_lossy, first_from,
    has_prefix, has_text, lemma_first_from, lines, lines_from, occurs_at, parted_once, same_text,
    split_once, starts_with, str_views, utf8_error_text, utf8_lossy,
};
use vstd::prelude::*;
use vstd::string::*;
use vstd::utf8::*;

verus! {

/// Where the bridge runtimes run.
pub const CONNECTIONS_NAMESPACE: &'static str = "steward-connections";

/// Where the tool gateway is.
pub const MCP_GW_ORIGIN: &'static str = "http://mcp-gw.steward-system.svc.cluster.local:8080";

/// Which version of the tool gateway connections are made for.
pub const MCP_GW_VERSION: &'static str = "0.3.2";

/// Where the tool gateway takes tool calls.
pub const MCP_URL: &'static str = "http://mcp-gw.steward-system.svc.cluster.local:8080/mcp";

/// The value of `state` in a query, from its start on: what stands before the next parameter.
pub open spec fn parameter_value(tail: Seq<char>) -> Seq<char> {
    match parted_once(tail, "&"@) {
        Some((value, _)) => value,
        None => tail,
    }
}

/// The opaque state in an authorization URL, if it has one.
pub open spec fn state_in(url: Seq<char>) -> Option<Seq<char>> {
    match parted_once(url, "state="@) {
        None => None,
        Some((_, tail)) => if parameter_value(tail).len() > 0 {
            Some(parameter_value(tail))
        } else {
            None
        },
    }
}

/// The opaque state in an authorization URL.
pub fn oauth_state<'a>(authorization_url: &'a str) -> (state: Result<&'a str, String>)
    ensures
        match state_in(authorization_url@) {
            Some(found) => state matches Ok(value) && value@ == found,
            None => state matches Err(words) && words@
                == "authorization URL omitted its opaque state"@,
        },
{
    if let Some((_, tail)) = split_once(authorization_url, "state=") {
        let value = match split_once(tail, "&") {
            Some((value, _)) => value,
            None => tail,
        };
        if !value.is_empty() {
            return Ok(value);
        }
    }
    Err("authorization URL omitted its opaque state".to_owned())
}

/// The state that was put into an authorization URL is the state that is read from it, wherever
/// in the query it stands and whatever parameters follow.
pub proof fn law_oauth_state_is_read_back(base: Seq<char>, state: Seq<char>, rest: Seq<char>)
    requires
        !has_text(base, "state="@),
        state.len() > 0,
        forall|i: int| 0 <= i < state.len() ==> #[trigger] state[i] != '&',
        rest.len() > 0 ==> rest[0] == '&',
    ensures
        state_in(base + "state="@ + state + rest) == Some(state),
{
    let key = "state="@;
    reveal_strlit("state=");
    reveal_strlit("&");
    let url = base + key + state + rest;
    let at = base.len() as int;
    assert(url.subrange(at, at + key.len()) =~= key);
    assert(occurs_at(url, key, at));
    assert forall|i: int| 0 <= i < at implies !occurs_at(url, key, i) by {
        if occurs_at(url, key, i) {
            let here = url.subrange(i, i + key.len());
            if i + key.len() <= at {
                assert(base.subrange(i, i + key.len()) =~= here);
                assert(occurs_at(base, key, i));
            } else {
                assert(here[at - i] == url[at]);
                assert(url[at] == key[0]);
            }
        }
    }
    lemma_first_from(url, key, 0);
    assert(first_from(url, key, 0) == Some(at));
    let tail = url.subrange(at + key.len(), url.len() as int);
    assert(tail =~= state + rest);
    let separator = "&"@;
    lemma_first_from(tail, separator, 0);
    let end = state.len() as int;
    if rest.len() > 0 {
        assert(tail.subrange(end, end + 1) =~= separator);
        assert(occurs_at(tail, separator, end));
    }
    assert forall|i: int| 0 <= i < end implies !occurs_at(tail, separator, i) by {
        assert(tail[i] == state[i]);
        assert(tail.subrange(i, i + 1)[0] == tail[i]);
    }
    if rest.len() > 0 {
        assert(first_from(tail, separator, 0) == Some(end));
        assert(tail.subrange(0, end) =~= state);
    } else {
        assert(tail =~= state);
        match first_from(tail, separator, 0) {
            Some(found) => {
                assert(occurs_at(tail, separator, found));
            },
            None => {},
        }
    }
}

/// Says of a failed operation that it was a connection operation.
pub fn connection_result<T>(result: Result<T, String>) -> (outcome: Result<T, String>)
    ensures
        match result {
            Ok(value) => outcome == Ok::<T, String>(value),
            Err(error) => outcome matches Err(words) && words@ == "connection operation failed: "@
                + error@,
        },
{
    match result {
        Ok(value) => Ok(value),
        Err(error) => Err(concat2("connection operation failed: ", error.as_str())),
    }
}

/// What keeps a port from doing what it was asked.
pub enum PortError {
    Unsupported { operation: String },
    Failed { reason: String },
}

/// What is known of a runtime's inference.
#[derive(PartialEq, Eq, Structural, Clone, Copy)]
pub enum InferenceObservation {
    Active,
    Absent,
}

/// Inference that no connection needs: it takes a configuration without models only and never
/// provides anything.
#[derive(PartialEq, Eq, Structural, Clone, Copy)]
pub struct NoInference;

/// The refusal to provide inference.
pub open spec fn refuses_inference(error: PortError) -> bool {
    error matches PortError::Unsupported { operation } && operation@
        == "governed Connections test inference"@
}

impl NoInference {
    /// Takes a configuration only where it names no models.
    pub fn validate_configuration(&self, models: &Vec<ModelRef>) -> (outcome: Result<(), PortError>)
        ensures
            match outcome {
                Ok(()) => models@.len() == 0,
                Err(error) => models@.len() > 0 && refuses_inference(error),
            },
    {
        if models.len() == 0 {
            Ok(())
        } else {
            self.provision()
        }
    }

    /// Provides nothing.
    pub fn provision(&self) -> (outcome: Result<(), PortError>)
        ensures
            outcome matches Err(error) && refuses_inference(error),
    {
        Err(PortError::Unsupported { operation: "governed Connections test inference".to_owned() })
    }

    /// There is nothing to reconcile.
    pub fn reconcile_configuration(&self) -> (outcome: Result<(), PortError>)
        ensures
            outcome is Ok,
    {
        Ok(())
    }

    /// There is never anything to be seen.
    pub fn observe(&self) -> (observation: InferenceObservation)
        ensures
            observation is Absent,
    {
        InferenceObservation::Absent
    }

    /// There is nothing to revoke.
    pub fn revoke(&self) -> (outcome: Result<(), PortError>)
        ensures
            outcome is Ok,
    {
        Ok(())
    }
}

/// What a connection operation is carried out with.
pub struct ConnectionExecutionBindings {
    pub artifact_trust_mode: Option<String>,
    pub bridge_image_digest: String,
    pub mcp_gw_origin: String,
    pub mcp_gw_version: String,
    pub namespace: String,
    pub runtime_class: String,
}

/// How connections are brokered: what their operations are carried out with, and where people are
/// led back to.
pub struct BrokerConfig {
    pub bindings: ConnectionExecutionBindings,
    pub origin: String,
}

/// How connections are brokered in a cluster: with the bridge of an image, in a runtime class.
pub fn broker(bridge_image: &str, runtime_class: &str) -> (config: BrokerConfig)
    ensures
        config.bindings.artifact_trust_mode is None,
        config.bindings.bridge_image_digest@ == bridge_image@,
        config.bindings.mcp_gw_origin@ == MCP_GW_ORIGIN@,
        config.bindings.mcp_gw_version@ == MCP_GW_VERSION@,
        config.bindings.namespace@ == CONNECTIONS_NAMESPACE@,
        config.bindings.runtime_class@ == runtime_class@,
        config.origin@ == "https://steward.example.test"@,
{
    BrokerConfig {
        bindings: ConnectionExecutionBindings {
            artifact_trust_mode: None,
            bridge_image_digest: bridge_image.to_owned(),
            mcp_gw_origin: MCP_GW_ORIGIN.to_owned(),
            mcp_gw_version: MCP_GW_VERSION.to_owned(),
            namespace: CONNECTIONS_NAMESPACE.to_owned(),
            runtime_class: runtime_class.to_owned(),
        },
        origin: "https://steward.example.test".to_owned(),
    }
}

/// What OpenShell is told of bridges: which image is one, which gateway it speaks to, and where it
/// runs. A stable bridge is one that outlives its operation.
pub struct BridgeConfig {
    pub full_task_logs: bool,
    pub stable_bridge_image: Option<String>,
    pub stable_bridge_gateway_origin: Option<String>,
    pub bridge_image: Option<String>,
    pub bridge_gateway_origin: Option<String>,
    pub bridge_gateway_version: Option<String>,
    pub bridge_runtime_namespace: Option<String>,
}

/// What OpenShell is told of the bridges of an image: there are no stable ones, and the others
/// speak to the gateway that connections are brokered with.
pub fn bridge_config(bridge_image: &str) -> (config: BridgeConfig)
    ensures
        config.full_task_logs,
        config.stable_bridge_image is None,
        config.stable_bridge_gateway_origin is None,
        option_text(config.bridge_image) == Some(bridge_image@),
        option_text(config.bridge_gateway_origin) == Some(MCP_GW_ORIGIN@),
        option_text(config.bridge_gateway_version) == Some(MCP_GW_VERSION@),
        option_text(config.bridge_runtime_namespace) == Some(CONNECTIONS_NAMESPACE@),
{
    BridgeConfig {
        full_task_logs: true,
        stable_bridge_image: None,
        stable_bridge_gateway_origin: None,
        bridge_image: Some(bridge_image.to_owned()),
        bridge_gateway_origin: Some(MCP_GW_ORIGIN.to_owned()),
        bridge_gateway_version: Some(MCP_GW_VERSION.to_owned()),
        bridge_runtime_namespace: Some(CONNECTIONS_NAMESPACE.to_owned()),
    }
}

/// Whose connections a session is about.
pub struct ConnectionSession {
    pub canonical_user_id: String,
    pub display_email: String,
}

/// A session of a user.
pub fn session(user_id: &str, email: &str) -> (session: ConnectionSession)
    ensures
        session.canonical_user_id@ == user_id@,
        session.display_email@ == email@,
{
    ConnectionSession { canonical_user_id: user_id.to_owned(), display_email: email.to_owned() }
}

/// The envelope of runtimes that run for long, for a role. `validated` is what came of validating
/// it: an envelope that is not valid is not put into the store.
pub fn seed_long_running_envelope(member_role: &str, validated: Result<(), String>) -> (seeded:
    Result<SeededEnvelope, String>)
    ensures
        match validated {
            Err(error) => seeded matches Err(words) && words@
                == "validate long-running envelope: "@ + error@,
            Ok(()) => seeded matches Ok(made) && made@ == (SeededEnvelopeView {
                scope: EnvelopeScope::MemberRole,
                scope_ref: member_role@,
                envelope: long_running_view(),
                actor: "e2e-admin"@,
            }),
        },
{
    match validated {
        Err(error) => Err(concat2("validate long-running envelope: ", error.as_str())),
        Ok(()) => Ok(
            SeededEnvelope {
                scope: EnvelopeScope::MemberRole,
                scope_ref: member_role.to_owned(),
                envelope: long_running_envelope(),
                actor: "e2e-admin".to_owned(),
            },
        ),
    }
}

/// The newest of the operations that were reserved, newest first, where there are more of them
/// than there were.
pub fn latest_operation(operations: &Vec<String>, after_count: i64) -> (newest: Option<String>)
    requires
        after_count >= 0 || operations@.len() > 0,
    ensures
        match newest {
            Some(found) => operations@.len() > after_count && found@ == operations@[0]@,
            None => operations@.len() <= after_count,
        },
{
    if operations.len() as i128 > after_count as i128 {
        Some(operations[0].clone())
    } else {
        None
    }
}

/// What is said when no operation was reserved in time.
pub fn no_new_operation(kind: &str) -> (words: String)
    ensures
        words@ == "no new "@ + kind@ + " connection operation was durably reserved"@,
{
    concat3("no new ", kind, " connection operation was durably reserved")
}

/// Whether an operation, given by the state of its finalization and whether its Task is
/// finalized, has come to its end.
pub fn operation_is_finalized(state: &Option<(String, bool)>) -> (finalized: bool)
    ensures
        finalized == (match *state {
            Some((word, task)) => word@ == "finalized"@ && task,
            None => false,
        }),
{
    match state {
        Some((word, task)) => same_text(word.as_str(), "finalized") && *task,
        None => false,
    }
}

/// What is said when an operation did not come to its end in time.
pub fn not_finalized(operation_id: &str) -> (words: String)
    ensures
        words@ == "connection operation "@ + operation_id@ + " did not finalize"@,
{
    concat3("connection operation ", operation_id, " did not finalize")
}

/// The workspace, the sandbox and the identity that the first three lines name, where none of
/// them is empty.
pub open spec fn bridge_refs(lines: Seq<Seq<char>>) -> Option<(Seq<char>, Seq<char>, Seq<char>)> {
    if lines.len() >= 3 && lines[0].len() > 0 && lines[1].len() > 0 && lines[2].len() > 0 {
        Some((lines[0], lines[1], lines[2]))
    } else {
        None
    }
}

/// Reads the references of a bridge runtime from a look at it; none where they are not there
/// yet.
pub fn capture_bridge_refs(output: ProcessOutput) -> (refs: Result<
    Option<(String, String, String)>,
    String,
>)
    ensures
        output.success && !valid_utf8(output.stdout@) ==> (refs matches Err(words) && words@
            == utf8_error_text(output.stdout@)),
        !output.success ==> refs == Ok::<Option<(String, String, String)>, String>(None),
        output.success && valid_utf8(output.stdout@) ==> match bridge_refs(
            lines_from(decode_utf8(output.stdout@), 0),
        ) {
            None => refs == Ok::<Option<(String, String, String)>, String>(None),
            Some((workspace, sandbox, uid)) => refs matches Ok(Some((a, b, c))) && a@ == workspace
                && b@ == sandbox && c@ == uid,
        },
{
    if !output.success {
        return Ok(None);
    }
    let values = match decode(output.stdout) {
        Ok(values) => values,
        Err(words) => return Err(words),
    };
    let found = lines(values.as_str());
    proof {
        let all = lines_from(values@, 0);
        assert(str_views(found@).len() == all.len());
        assert forall|i: int| 0 <= i < found@.len() implies all[i] == (#[trigger] found@[i])@ by {
            assert(str_views(found@)[i] == found@[i]@);
        }
    }
    if found.len() >= 3 && !found[0].is_empty() && !found[1].is_empty() && !found[2].is_empty() {
        Ok(Some((found[0].to_owned(), found[1].to_owned(), found[2].to_owned())))
    } else {
        Ok(None)
    }
}

/// What is left of a bridge runtime, if anything is, in the order in which it is looked for.
pub open spec fn bridge_remains(
    runtimes: Seq<char>,
    sandboxes: Seq<char>,
    secret_found: bool,
) -> Result<(), Seq<char>> {
    match leftover(runtimes, "governed bridge AgentRuntime survived finalization: "@) {
        Err(words) => Err(words),
        Ok(()) => match leftover(
            sandboxes,
            "bridge OpenShell sandbox survived finalization: "@,
        ) {
            Err(words) => Err(words),
            Ok(()) => if secret_found {
                Err("bridge runtime-scoped Secret survived finalization"@)
            } else {
                Ok(())
            },
        },
    }
}

/// Makes sure that nothing is left of a bridge runtime, by the listings of the runtimes and of
/// its sandboxes and by whether its Secret was found.
pub fn assert_bridge_runtime_absent(runtimes: &str, sandboxes: &str, secret_found: bool) -> (outcome:
    Result<(), String>)
    ensures
        outcome_view(outcome) == bridge_remains(runtimes@, sandboxes@, secret_found),
{
    if let Err(words) = nothing_left(
        runtimes,
        "governed bridge AgentRuntime survived finalization: ",
    ) {
        return Err(words);
    }
    if let Err(words) = nothing_left(sandboxes, "bridge OpenShell sandbox survived finalization: ") {
        return Err(words);
    }
    if secret_found {
        return Err("bridge runtime-scoped Secret survived finalization".to_owned());
    }
    Ok(())
}

/// The request that a browser makes when a person has given the authorization.
pub fn callback_request(state: &str) -> (request: String)
    ensures
        request@ == "GET /oauth/github/callback?code=fixture-code&state="@ + state@
            + " HTTP/1.1\r\nHost: localhost\r\nConnection: close\r\n\r\n"@,
{
    concat3(
        "GET /oauth/github/callback?code=fixture-code&state=",
        state,
        " HTTP/1.1\r\nHost: localhost\r\nConnection: close\r\n\r\n",
    )
}

/// Bytes hold the end of the headers of an HTTP reply.
pub open spec fn has_header_end(bytes: Seq<u8>) -> bool {
    exists|i: int|
        0 <= i && i + 4 <= bytes.len() && #[trigger] bytes[i] == 13u8 && bytes[i + 1] == 10u8
            && bytes[i + 2] == 13u8 && bytes[i + 3] == 10u8
}

/// Whether bytes hold the end of the headers of an HTTP reply.
fn headers_are_complete(bytes: &Vec<u8>) -> (complete: bool)
    ensures
        complete == has_header_end(bytes@),
{
    if bytes.len() < 4 {
        return false;
    }
    let mut i: usize = 0;
    while i <= bytes.len() - 4
        invariant
            4 <= bytes.len(),
            i <= bytes.len() - 3,
            forall|j: int|
                0 <= j < i ==> !(#[trigger] bytes@[j] == 13u8 && bytes@[j + 1] == 10u8 && bytes@[j
                    + 2] == 13u8 && bytes@[j + 3] == 10u8),
        decreases bytes.len() - i,
    {
        if bytes[i] == 13u8 && bytes[i + 1] == 10u8 && bytes[i + 2] == 13u8 && bytes[i + 3]
            == 10u8 {
            return true;
        }
        i = i + 1;
    }
    false
}

/// What a chunk of the reply means for the reading of it.
#[derive(PartialEq, Eq, Structural, Clone, Copy)]
pub enum Reading {
    More,
    Complete,
    Oversized,
}

/// The reply to a callback, as far as it was read.
pub struct CallbackReply {
    pub bytes: Vec<u8>,
}

impl CallbackReply {
    /// Nothing was read yet.
    pub fn new() -> (reply: CallbackReply)
        ensures
            reply.bytes@.len() == 0,
    {
        CallbackReply { bytes: Vec::new() }
    }

    /// Takes a chunk of the reply. Reading goes on until the headers are complete, and stops where
    /// the reply grows beyond what headers may need, or where nothing comes any more.
    pub fn take_chunk(&mut self, chunk: &[u8]) -> (reading: Reading)
        ensures
            final(self).bytes@ == old(self).bytes@ + chunk@,
            reading == (if chunk@.len() == 0 {
                Reading::Complete
            } else if final(self).bytes@.len() > 32 * 1024 {
                Reading::Oversized
            } else if has_header_end(final(self).bytes@) {
                Reading::Complete
            } else {
                Reading::More
            }),
    {
        self.bytes.extend_from_slice(chunk);
        assert(self.bytes@ =~= old(self).bytes@ + chunk@);
        if chunk.len() == 0 {
            Reading::Complete
        } else if self.bytes.len() > 32 * 1024 {
            Reading::Oversized
        } else if headers_are_complete(&self.bytes) {
            Reading::Complete
        } else {
            Reading::More
        }
    }

    /// Makes sure that the reply leads the browser back to Steward, connected.
    pub fn callback(&self) -> (outcome: Result<(), String>)
        ensures
            outcome_view(outcome) == (if has_prefix(utf8_lossy(self.bytes@), "HTTP/1.1 302"@)
                && has_text(
                ascii_lowered(utf8_lossy(self.bytes@)),
                "location: https://steward.example.test/connections#github-connected"@,
            ) {
                Ok(())
            } else {
                Err::<(), Seq<char>>("pinned MCP-GW callback did not complete safely"@)
            }),
    {
        let response = decode_lossy(self.bytes.as_slice());
        if starts_with(response.as_str(), "HTTP/1.1 302") && contains_lowered(
            response.as_str(),
            "location: https://steward.example.test/connections#github-connected",
        ) {
            Ok(())
        } else {
            Err("pinned MCP-GW callback did not complete safely".to_owned())
        }
    }
}

/// What is said of a reply that grows beyond what headers may need.
pub fn oversized_callback() -> (words: String)
    ensures
        words@ == "pinned MCP-GW callback response is oversized"@,
{
    "pinned MCP-GW callback response is oversized".to_owned()
}

/// What is said when the references of a bridge runtime were not there in time.
pub fn bridge_refs_expired() -> (words: String)
    ensures
        words@ == "bridge runtime refs were not observable"@,
{
    "bridge runtime refs were not observable".to_owned()
}

/// What is read as the state of an authorization stands in the URL, right behind the first `state=`
/// and up to the next parameter, and is not empty.
pub proof fn law_the_state_stands_in_the_url(url: Seq<char>, state: Seq<char>)
    requires
        state_in(url) == Some(state),
    ensures
        state.len() > 0,
        has_text(url, "state="@ + state),
        !has_text(state, "&"@),
{
    let key = "state="@;
    lemma_first_from(url, key, 0);
    let at = first_from(url, key, 0)->Some_0;
    let tail = url.subrange(at + key.len(), url.len() as int);
    let separator = "&"@;
    reveal_strlit("&");
    lemma_first_from(tail, separator, 0);
    let whole = key + state;
    match first_from(tail, separator, 0) {
        Some(end) => {
            assert(state == tail.subrange(0, end));
            assert forall|i: int| !occurs_at(state, separator, i) by {
                if occurs_at(state, separator, i) {
                    assert(tail.subrange(i, i + 1) =~= state.subrange(i, i + 1));
                    assert(occurs_at(tail, separator, i));
                }
            }
        },
        None => {
            assert(state == tail);
        },
    }
    assert(url.subrange(at, at + whole.len()) =~= whole) by {
        assert(url.subrange(at, at + key.len()) == key);
        assert forall|i: int| 0 <= i < whole.len() implies url[at + i] == whole[i] by {
            if i < key.len() {
                assert(url.subrange(at, at + key.len())[i] == url[at + i]);
            } else {
                assert(tail[i - key.len()] == url[at + i]);
            }
        }
    }
    assert(occurs_at(url, whole, at));
}

/// The headers of a reply are complete where an empty line ends them, and not before.
pub proof fn law_an_empty_line_ends_the_headers(headers: Seq<u8>, body: Seq<u8>)
    ensures
        has_header_end(headers + seq![13u8, 10u8, 13u8, 10u8] + body),
        headers.len() < 4 ==> !has_header_end(headers),
        (forall|i: int| 0 <= i < headers.len() ==> #[trigger] headers[i] != 13u8)
            ==> !has_header_end(headers),
{
    let whole = headers + seq![13u8, 10u8, 13u8, 10u8] + body;
    let at = headers.len() as int;
    assert(whole[at] == 13u8 && whole[at + 1] == 10u8 && whole[at + 2] == 13u8 && whole[at + 3]
        == 10u8);
}

/// The references of a bridge are the first three lines, in their order, and are there all together
/// or not at all.
pub proof fn law_bridge_references_are_the_first_lines(
    workspace: Seq<char>,
    sandbox: Seq<char>,
    uid: Seq<char>,
    more: Seq<Seq<char>>,
    lines: Seq<Seq<char>>,
)
    ensures
        bridge_refs(seq![workspace, sandbox, uid] + more) == (if workspace.len() > 0
            && sandbox.len() > 0 && uid.len() > 0 {
            Some((workspace, sandbox, uid))
        } else {
            None
        }),
        lines.len() < 3 ==> bridge_refs(lines) is None,
{
}

/// Nothing is left of a bridge exactly where its runtimes and its sandboxes are gone and its Secret
/// was not found.
pub proof fn law_bridges_leave_nothing(
    runtimes: Seq<char>,
    sandboxes: Seq<char>,
    secret_found: bool,
)
    ensures
        bridge_remains(runtimes, sandboxes, secret_found) is Ok <==> crate::text::trimmed(
            runtimes,
        ).len() == 0 && crate::text::trimmed(sandboxes).len() == 0 && !secret_found,
{
}

} // verus!
