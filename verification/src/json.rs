//! JSON documents, held as `serde_json::Value` and described by the tree of what they hold.
use crate::text::{all_digits, decimal_digits, digits_value};
use vstd::prelude::*;

verus! {

/// What a JSON value holds. A number is given by the `u64` that it is, if it is one, and by the
/// way it is written.
pub enum JsonTree {
    Null,
    Bool(bool),
    Number(Option<u64>, Seq<char>),
    Text(Seq<char>),
    Array(Seq<JsonTree>),
    Object(Map<Seq<char>, JsonTree>),
}

/// `serde_json::Value`, a JSON value.
#[verifier::external_type_specification]
#[verifier::external_body]
pub struct ExValue(serde_json::Value);

/// What a JSON value holds.
pub uninterp spec fn json_tree(value: serde_json::Value) -> JsonTree;

/// What the JSON document `bytes` holds; `None` where `bytes` is no JSON document.
pub uninterp spec fn json_document(bytes: Seq<u8>) -> Option<JsonTree>;

/// What the error says that bytes are no JSON document.
pub uninterp spec fn json_error_text(bytes: Seq<u8>) -> Seq<char>;

/// How a tree is written without white space between its tokens.
pub uninterp spec fn json_text(tree: JsonTree) -> Seq<char>;

/// How a tree is written with every member and every item on a line of its own, as bytes.
pub uninterp spec fn json_pretty(tree: JsonTree) -> Seq<u8>;

/// The member `name` of a tree; none where the tree is no object or has no such member.
pub open spec fn member_tree(tree: JsonTree, name: Seq<char>) -> Option<JsonTree> {
    match tree {
        JsonTree::Object(members) => if members.dom().contains(name) {
            Some(members[name])
        } else {
            None
        },
        _ => None,
    }
}

/// The member `inner` of the member `outer` of a tree.
pub open spec fn inner_tree(tree: JsonTree, outer: Seq<char>, inner: Seq<char>) -> Option<
    JsonTree,
> {
    match member_tree(tree, outer) {
        Some(found) => member_tree(found, inner),
        None => None,
    }
}

/// The text that an optional tree is, if it is one.
pub open spec fn tree_text(tree: Option<JsonTree>) -> Option<Seq<char>> {
    match tree {
        Some(JsonTree::Text(text)) => Some(text),
        _ => None,
    }
}

/// The truth value that an optional tree is, if it is one.
pub open spec fn tree_bool(tree: Option<JsonTree>) -> Option<bool> {
    match tree {
        Some(JsonTree::Bool(truth)) => Some(truth),
        _ => None,
    }
}

/// The `u64` that an optional tree is, if it is one.
pub open spec fn tree_u64(tree: Option<JsonTree>) -> Option<u64> {
    match tree {
        Some(JsonTree::Number(number, _)) => number,
        _ => None,
    }
}

/// The view of an optional text.
pub open spec fn text_view(text: Option<&str>) -> Option<Seq<char>> {
    match text {
        Some(found) => Some(found@),
        None => None,
    }
}

/// The trees of JSON values.
pub open spec fn json_trees(values: Seq<serde_json::Value>) -> Seq<JsonTree> {
    Seq::new(values.len(), |i: int| json_tree(values[i]))
}

/// The number `n`.
pub open spec fn number_tree(n: nat) -> JsonTree {
    JsonTree::Number(Some(n as u64), decimal_digits(n))
}

/// The number `n`, which has a sign where it is negative.
pub open spec fn signed_tree(n: int) -> JsonTree {
    if n >= 0 {
        number_tree(n as nat)
    } else {
        JsonTree::Number(None, "-"@ + decimal_digits((-n) as nat))
    }
}

/// The members of a tree that members can be put into: null is taken for an object without any.
pub open spec fn tree_members(tree: JsonTree) -> Map<Seq<char>, JsonTree> {
    match tree {
        JsonTree::Object(members) => members,
        _ => Map::empty(),
    }
}

/// `serde_json::from_slice`, into a `Value`: it gives the value that the document holds, and an
/// error, here by its words, on bytes that are no JSON document.
#[verifier::external_body]
pub(crate) fn parse(bytes: &[u8]) -> (parsed: Result<serde_json::Value, String>)
    ensures
        match parsed {
            Ok(value) => json_document(bytes@) == Some(json_tree(value)),
            Err(words) => json_document(bytes@) is None && words@ == json_error_text(bytes@),
        },
{
    serde_json::from_slice(bytes).map_err(|error| error.to_string())
}

/// `to_string` of a `serde_json::Value`: the value without white space between its tokens, with
/// the members of an object in the order of their names, so that the text rests on what the
/// value holds alone.
#[verifier::external_body]
pub(crate) fn render(value: &serde_json::Value) -> (text: String)
    ensures
        text@ == json_text(json_tree(*value)),
{
    value.to_string()
}

/// `serde_json::to_vec_pretty` of a `Value`: the value with every member and every item on a line
/// of its own, the members of an object in the order of their names. Writing a `Value` into a
/// vector does not fail.
#[verifier::external_body]
pub(crate) fn render_pretty(value: &serde_json::Value) -> (bytes: Vec<u8>)
    ensures
        bytes@ == json_pretty(json_tree(*value)),
{
    serde_json::to_vec_pretty(value).unwrap_or_default()
}

/// `serde_json::Value::get` with a name: the member of that name, if the value is an object
/// that has one.
#[verifier::external_body]
pub(crate) fn member<'a>(value: &'a serde_json::Value, name: &str) -> (found: Option<
    &'a serde_json::Value,
>)
    ensures
        match found {
            Some(inner) => member_tree(json_tree(*value), name@) == Some(json_tree(*inner)),
            None => member_tree(json_tree(*value), name@) is None,
        },
{
    value.get(name)
}

/// The tree of an optional JSON value.
pub open spec fn option_tree(value: Option<&serde_json::Value>) -> Option<JsonTree> {
    match value {
        Some(inner) => Some(json_tree(*inner)),
        None => None,
    }
}

/// The tree of an optional JSON value that is held.
pub open spec fn held_tree(value: Option<serde_json::Value>) -> Option<JsonTree> {
    match value {
        Some(inner) => Some(json_tree(inner)),
        None => None,
    }
}

/// The member or the item of a tree that a name in a JSON pointer leads to.
pub open spec fn token_tree(tree: JsonTree, token: Seq<char>) -> Option<JsonTree> {
    match tree {
        JsonTree::Object(_) => member_tree(tree, token),
        JsonTree::Array(items) => if all_digits(token) && (token[0] != '0' || token.len() == 1)
            && digits_value(token) < items.len() {
            Some(items[digits_value(token) as int])
        } else {
            None
        },
        _ => None,
    }
}

/// Where the token of a JSON pointer ends that begins at `from`.
pub open spec fn token_end(pointer: Seq<char>, from: int) -> int
    decreases pointer.len() - from,
{
    if from < 0 || from >= pointer.len() {
        pointer.len() as int
    } else if pointer[from] == '/' {
        from
    } else {
        token_end(pointer, from + 1)
    }
}

/// The name that a token of a JSON pointer stands for: `~1` is a slash in it, and `~0` is a tilde.
pub open spec fn unescaped(token: Seq<char>) -> Seq<char>
    decreases token.len(),
{
    if token.len() == 0 {
        seq![]
    } else if token.len() > 1 && token[0] == '~' && token[1] == '1' {
        seq!['/'] + unescaped(token.skip(2))
    } else if token.len() > 1 && token[0] == '~' && token[1] == '0' {
        seq!['~'] + unescaped(token.skip(2))
    } else {
        seq![token[0]] + unescaped(token.skip(1))
    }
}

/// What the tokens of a JSON pointer from `from` on lead to.
pub open spec fn followed(tree: JsonTree, pointer: Seq<char>, from: int) -> Option<JsonTree>
    decreases pointer.len() - from + 1,
{
    let end = token_end(pointer, from);
    if from < 0 || from > pointer.len() || end < from {
        None
    } else {
        match token_tree(tree, unescaped(pointer.subrange(from, end))) {
            None => None,
            Some(inner) => if end >= pointer.len() {
                Some(inner)
            } else {
                followed(inner, pointer, end + 1)
            },
        }
    }
}

/// What a JSON pointer leads to in a tree, if it leads to anything.
pub open spec fn pointed_tree(tree: JsonTree, pointer: Seq<char>) -> Option<JsonTree> {
    if pointer.len() == 0 {
        Some(tree)
    } else if pointer[0] != '/' {
        None
    } else {
        followed(tree, pointer, 1)
    }
}

/// `serde_json::Value::pointer`: what a JSON pointer leads to. Its tokens are followed one by one,
/// each with its escapes undone, to the member of that name or to the item of that number.
#[verifier::external_body]
pub(crate) fn pointed<'a>(value: &'a serde_json::Value, pointer: &str) -> (found: Option<
    &'a serde_json::Value,
>)
    ensures
        option_tree(found) == pointed_tree(json_tree(*value), pointer@),
{
    value.pointer(pointer)
}

/// `serde_json::Value::as_str`: the text that the value is, if it is one.
#[verifier::external_body]
pub(crate) fn as_text<'a>(value: &'a serde_json::Value) -> (text: Option<&'a str>)
    ensures
        text_view(text) == tree_text(Some(json_tree(*value))),
{
    value.as_str()
}

/// `serde_json::Value::as_bool`: the truth value that the value is, if it is one.
#[verifier::external_body]
pub(crate) fn as_truth(value: &serde_json::Value) -> (truth: Option<bool>)
    ensures
        truth == tree_bool(Some(json_tree(*value))),
{
    value.as_bool()
}

/// `serde_json::Value::as_u64`: the `u64` that the value is, if it is one.
#[verifier::external_body]
pub(crate) fn as_number(value: &serde_json::Value) -> (number: Option<u64>)
    ensures
        number == tree_u64(Some(json_tree(*value))),
{
    value.as_u64()
}

/// `serde_json::Value::as_array`: the items of the value, in their order, if it is an array.
#[verifier::external_body]
pub(crate) fn as_items(value: &serde_json::Value) -> (items: Option<&Vec<serde_json::Value>>)
    ensures
        match items {
            Some(found) => json_tree(*value) == JsonTree::Array(json_trees(found@)),
            None => !(json_tree(*value) is Array),
        },
{
    value.as_array()
}

/// `serde_json::Value::is_object`.
#[verifier::external_body]
pub(crate) fn is_object(value: &serde_json::Value) -> (is: bool)
    ensures
        is == (json_tree(*value) is Object),
{
    value.is_object()
}

/// `serde_json::Value::is_null`.
#[verifier::external_body]
pub(crate) fn is_null(value: &serde_json::Value) -> (is: bool)
    ensures
        is == (json_tree(*value) is Null),
{
    value.is_null()
}

/// `serde_json::Value`'s `Clone`: a value that holds the same.
#[verifier::external_body]
pub(crate) fn copy(value: &serde_json::Value) -> (copied: serde_json::Value)
    ensures
        json_tree(copied) == json_tree(*value),
{
    value.clone()
}

/// `serde_json::Map::new`: an object without members.
#[verifier::external_body]
pub(crate) fn object() -> (value: serde_json::Value)
    ensures
        json_tree(value) == JsonTree::Object(Map::empty()),
{
    serde_json::Value::Object(serde_json::Map::new())
}

/// `serde_json::Value::String`.
#[verifier::external_body]
pub(crate) fn text(content: &str) -> (value: serde_json::Value)
    ensures
        json_tree(value) == JsonTree::Text(content@),
{
    serde_json::Value::String(content.to_owned())
}

/// `serde_json::Value`'s `From<u64>`: the number, which is written in decimal digits.
#[verifier::external_body]
pub(crate) fn number(n: u64) -> (value: serde_json::Value)
    ensures
        json_tree(value) == number_tree(n as nat),
{
    serde_json::Value::from(n)
}

/// `serde_json::Value`'s `From<i64>`: the number, which is written in decimal digits, behind a
/// sign where it is negative. A number that is not negative is the same as the `u64`.
#[verifier::external_body]
pub(crate) fn signed(n: i64) -> (value: serde_json::Value)
    ensures
        json_tree(value) == signed_tree(n as int),
{
    serde_json::Value::from(n)
}

/// `serde_json::Value::Bool`.
#[verifier::external_body]
pub(crate) fn truth(content: bool) -> (value: serde_json::Value)
    ensures
        json_tree(value) == JsonTree::Bool(content),
{
    serde_json::Value::Bool(content)
}

/// `serde_json::Value::Null`.
#[verifier::external_body]
pub(crate) fn null() -> (value: serde_json::Value)
    ensures
        json_tree(value) == JsonTree::Null,
{
    serde_json::Value::Null
}

/// `serde_json::Value::Array`: the items in their order.
#[verifier::external_body]
pub(crate) fn array(items: Vec<serde_json::Value>) -> (value: serde_json::Value)
    ensures
        json_tree(value) == JsonTree::Array(json_trees(items@)),
{
    serde_json::Value::Array(items)
}

/// `IndexMut` of `serde_json::Value` with a name, on an object: the member of that name is
/// `member` afterwards, whether there was one before or not, and the others stay.
#[verifier::external_body]
pub(crate) fn put(object: &mut serde_json::Value, name: &str, member: serde_json::Value)
    requires
        json_tree(*old(object)) is Object,
    ensures
        json_tree(*final(object)) == JsonTree::Object(
            json_tree(*old(object))->Object_0.insert(name@, json_tree(member)),
        ),
{
    object[name] = member;
}

/// An optional value that holds the same.
pub fn copy_held(value: &Option<serde_json::Value>) -> (copied: Option<serde_json::Value>)
    ensures
        held_tree(copied) == held_tree(*value),
{
    match value {
        Some(inner) => Some(copy(inner)),
        None => None,
    }
}

/// The text member `name` of a value, if it has one.
pub fn member_text<'a>(value: &'a serde_json::Value, name: &str) -> (text: Option<&'a str>)
    ensures
        text_view(text) == tree_text(member_tree(json_tree(*value), name@)),
{
    match member(value, name) {
        Some(found) => as_text(found),
        None => None,
    }
}

} // verus!
