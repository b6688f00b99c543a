//! SHA-256 digests and the texts that name them.
use crate::json::{
    copy, json_text, json_tree, member_tree, null, object, option_tree, put, render, text, JsonTree,
};
use crate::text::{concat2, hex, hex_digits};
use vstd::prelude::*;
use vstd::utf8::encode_utf8;

verus! {

/// The SHA-256 digest of `bytes`.
pub uninterp spec fn sha256(bytes: Seq<u8>) -> Seq<u8>;

/// `sha2::Sha256::digest`: the thirty-two bytes of the digest.
#[verifier::external_body]
fn sha256_bytes(bytes: &[u8]) -> (digest: Vec<u8>)
    ensures
        digest@ == sha256(bytes@),
        digest@.len() == 32,
{
    <sha2::Sha256 as sha2::Digest>::digest(bytes).to_vec()
}

/// The name of the digest of `bytes`.
pub open spec fn named_digest(bytes: Seq<u8>) -> Seq<char> {
    "sha256:"@ + hex_digits(sha256(bytes))
}

/// The name of the digest of a JSON value, as it is written without white space.
pub open spec fn tree_digest(tree: JsonTree) -> Seq<char> {
    named_digest(encode_utf8(json_text(tree)))
}

/// The name of the digest of `bytes`.
pub fn digest_of_bytes(bytes: &[u8]) -> (name: String)
    ensures
        name@ == named_digest(bytes@),
        name@.len() == 71,
{
    let digest = sha256_bytes(bytes);
    let hexed = hex(digest.as_slice());
    proof {
        reveal_strlit("sha256:");
        crate::text::lemma_hex_width(digest@);
    }
    concat2("sha256:", hexed.as_str())
}

/// Two byte strings have the same digest if they have the same name of it.
pub proof fn law_names_tell_digests_apart(left: Seq<u8>, right: Seq<u8>)
    ensures
        named_digest(left) == named_digest(right) <==> sha256(left) == sha256(right),
{
    if named_digest(left) == named_digest(right) {
        let prefix = "sha256:"@;
        let name = named_digest(left);
        assert(name.subrange(prefix.len() as int, name.len() as int) =~= hex_digits(sha256(left)));
        assert(name.subrange(prefix.len() as int, name.len() as int) =~= hex_digits(sha256(right)));
        crate::text::lemma_hex_tells_apart(sha256(left), sha256(right));
    }
}

/// The name of the digest of a JSON value.
pub fn digest(value: &serde_json::Value) -> (name: String)
    ensures
        name@ == tree_digest(json_tree(*value)),
{
    let text = render(value);
    digest_of_bytes(text.as_str().as_bytes())
}

/// Whether two byte strings have the same digest.
pub fn same_digest(left: &[u8], right: &[u8]) -> (same: bool)
    ensures
        same == (sha256(left@) == sha256(right@)),
{
    let a = sha256_bytes(left);
    let b = sha256_bytes(right);
    let mut i: usize = 0;
    while i < a.len()
        invariant
            i <= a.len(),
            a@ == sha256(left@),
            b@ == sha256(right@),
            a@.len() == b@.len(),
            forall|j: int| 0 <= j < i ==> a@[j] == b@[j],
        decreases a.len() - i,
    {
        if a[i] != b[i] {
            return false;
        }
        i = i + 1;
    }
    assert(a@ =~= b@);
    true
}

/// The digest of a runtime's written spec, in hexadecimal digits alone.
pub fn runtime_spec_digest(written: &[u8]) -> (digits: String)
    ensures
        digits@ == hex_digits(sha256(written@)),
{
    hex(sha256_bytes(written).as_slice())
}

/// What is digested of the runtime of a Task: the identities of the Task and of its operation,
/// the runtime and what it is to be.
pub open spec fn manifest_tree(
    task_uid: Seq<char>,
    operation_id: Seq<char>,
    runtime_name: Seq<char>,
    mode: Seq<char>,
    spec_tree: JsonTree,
    binding: Option<JsonTree>,
) -> JsonTree {
    JsonTree::Object(
        Map::empty().insert(
            "schemaVersion"@,
            JsonTree::Text("steward-task-runtime-manifest/v1"@),
        ).insert("taskUid"@, JsonTree::Text(task_uid)).insert(
            "operationId"@,
            JsonTree::Text(operation_id),
        ).insert("runtimeNamespace"@, JsonTree::Text("steward-test"@)).insert(
            "runtimeName"@,
            JsonTree::Text(runtime_name),
        ).insert("mode"@, JsonTree::Text(mode)).insert("spec"@, spec_tree).insert(
            "executionBinding"@,
            match binding {
                Some(tree) => tree,
                None => JsonTree::Null,
            },
        ),
    )
}

/// The name of the digest of a Task's runtime.
pub fn manifest_digest(
    task_uid: &str,
    operation_id: &str,
    runtime_name: &str,
    written_spec: &serde_json::Value,
    mode: &str,
) -> (name: String)
    ensures
        name@ == tree_digest(
            manifest_tree(
                task_uid@,
                operation_id@,
                runtime_name@,
                mode@,
                json_tree(*written_spec),
                None,
            ),
        ),
{
    manifest_digest_with_binding(task_uid, operation_id, runtime_name, written_spec, mode, None)
}

/// The name of the digest of a Task's runtime that is bound to the way in which it is executed.
pub fn manifest_digest_with_binding(
    task_uid: &str,
    operation_id: &str,
    runtime_name: &str,
    written_spec: &serde_json::Value,
    mode: &str,
    execution_binding: Option<&serde_json::Value>,
) -> (name: String)
    ensures
        name@ == tree_digest(
            manifest_tree(
                task_uid@,
                operation_id@,
                runtime_name@,
                mode@,
                json_tree(*written_spec),
                option_tree(execution_binding),
            ),
        ),
{
    let mut manifest = object();
    put(&mut manifest, "schemaVersion", text("steward-task-runtime-manifest/v1"));
    put(&mut manifest, "taskUid", text(task_uid));
    put(&mut manifest, "operationId", text(operation_id));
    put(&mut manifest, "runtimeNamespace", text("steward-test"));
    put(&mut manifest, "runtimeName", text(runtime_name));
    put(&mut manifest, "mode", text(mode));
    put(&mut manifest, "spec", copy(written_spec));
    let binding = match execution_binding {
        Some(value) => copy(value),
        None => null(),
    };
    put(&mut manifest, "executionBinding", binding);
    digest(&manifest)
}

/// What is digested of the runtime of a Task says all that makes it this one: each of these is a
/// member of its own, so that two runtimes that differ in one of them are not digested alike.
pub proof fn law_manifests_say_what_makes_them(
    task_uid: Seq<char>,
    operation_id: Seq<char>,
    runtime_name: Seq<char>,
    mode: Seq<char>,
    spec_tree: JsonTree,
    binding: Option<JsonTree>,
)
    ensures
        ({
            let made = manifest_tree(
                task_uid,
                operation_id,
                runtime_name,
                mode,
                spec_tree,
                binding,
            );
            &&& member_tree(made, "taskUid"@) == Some(JsonTree::Text(task_uid))
            &&& member_tree(made, "operationId"@) == Some(JsonTree::Text(operation_id))
            &&& member_tree(made, "runtimeName"@) == Some(JsonTree::Text(runtime_name))
            &&& member_tree(made, "runtimeNamespace"@) == Some(JsonTree::Text("steward-test"@))
            &&& member_tree(made, "mode"@) == Some(JsonTree::Text(mode))
            &&& member_tree(made, "spec"@) == Some(spec_tree)
            &&& member_tree(made, "executionBinding"@) == Some(
                if binding is Some {
                    binding->Some_0
                } else {
                    JsonTree::Null
                },
            )
            &&& member_tree(made, "schemaVersion"@) == Some(
                JsonTree::Text("steward-task-runtime-manifest/v1"@),
            )
        }),
{
    reveal_strlit("schemaVersion");
    reveal_strlit("taskUid");
    reveal_strlit("operationId");
    reveal_strlit("runtimeNamespace");
    reveal_strlit("runtimeName");
    reveal_strlit("mode");
    reveal_strlit("spec");
    reveal_strlit("executionBinding");
    assert("schemaVersion"@.len() == 13 && "taskUid"@.len() == 7 && "operationId"@.len() == 11
        && "runtimeNamespace"@.len() == 16 && "runtimeName"@.len() == 11 && "mode"@.len() == 4
        && "spec"@.len() == 4 && "executionBinding"@.len() == 16);
    assert("operationId"@[0] != "runtimeName"@[0]);
    assert("mode"@[0] != "spec"@[0]);
    assert("runtimeNamespace"@[0] != "executionBinding"@[0]);
}

/// The digest of a value has the name of its algorithm, and then the digits of the digest of the
/// value as it is written.
pub proof fn law_digests_are_named_by_their_algorithm(bytes: Seq<u8>, tree: JsonTree)
    ensures
        named_digest(bytes).take(7) == "sha256:"@,
        named_digest(bytes).skip(7) == hex_digits(sha256(bytes)),
        tree_digest(tree).take(7) == "sha256:"@,
        tree_digest(tree).skip(7) == hex_digits(sha256(encode_utf8(json_text(tree)))),
{
    reveal_strlit("sha256:");
    let written = encode_utf8(json_text(tree));
    assert(named_digest(bytes).take(7) =~= "sha256:"@);
    assert(named_digest(bytes).skip(7) =~= hex_digits(sha256(bytes)));
    assert(named_digest(written).take(7) =~= "sha256:"@);
    assert(named_digest(written).skip(7) =~= hex_digits(sha256(written)));
}

} // verus!
