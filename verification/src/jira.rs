//! A Jira project that keeps the issues in which approvals are asked for, one for each request.
use crate::json::{
    array, as_items, as_text, copy, inner_tree, json_tree, json_trees, member, object, put, text,
    tree_text, truth, JsonTree,
};
use crate::text::{
    concat2, contains_text, decimal, decimal_digits, has_prefix, has_text, lemma_decimal_digits,
    lemma_text_before, lemma_text_before_transitive, same_text, starts_with, text_before,
    text_is_before,
};
use vstd::prelude::*;
use vstd::string::*;

verus! {

/// What the label that marks a request begins with.
pub const MARKER_PREFIX: &'static str = "steward-approval-";

/// An issue: the request that it was made for, the body that it was made from and what happened
/// to it since.
pub struct JiraIssue {
    pub key: String,
    pub request_marker: String,
    pub create_body: serde_json::Value,
    pub comments: Vec<serde_json::Value>,
    pub transitioned: bool,
}

/// The issues of the project in the order of their keys, and how many were made.
pub struct JiraData {
    pub issues: Vec<JiraIssue>,
    pub next_issue: u32,
}

#[verifier::ext_equal]
pub ghost struct IssueView {
    pub key: Seq<char>,
    pub request_marker: Seq<char>,
    pub create_body: JsonTree,
    pub comments: Seq<JsonTree>,
    pub transitioned: bool,
}

#[verifier::ext_equal]
pub ghost struct JiraView {
    pub issues: Seq<IssueView>,
    pub next_issue: u32,
}

impl View for JiraIssue {
    type V = IssueView;

    open spec fn view(&self) -> IssueView {
        IssueView {
            key: self.key@,
            request_marker: self.request_marker@,
            create_body: json_tree(self.create_body),
            comments: json_trees(self.comments@),
            transitioned: self.transitioned,
        }
    }
}

/// The views of issues.
pub open spec fn issue_views(issues: Seq<JiraIssue>) -> Seq<IssueView> {
    Seq::new(issues.len(), |i: int| issues[i]@)
}

impl View for JiraData {
    type V = JiraView;

    open spec fn view(&self) -> JiraView {
        JiraView { issues: issue_views(self.issues@), next_issue: self.next_issue }
    }
}

/// The key of the issue that is made as the `number`th.
pub open spec fn issue_key(number: nat) -> Seq<char> {
    "PROJ-"@ + decimal_digits(122 + number)
}

/// The key is that of one of the first `upto` issues.
pub open spec fn made_before(key: Seq<char>, upto: nat) -> bool {
    exists|number: nat| 1 <= number <= upto && key == #[trigger] issue_key(number)
}

/// The issues stand in the order of their keys, each has the key of one that was made, and no
/// two are of the same request.
pub open spec fn well_formed(data: JiraView) -> bool {
    &&& data.issues.len() == data.next_issue
    &&& forall|i: int, j: int|
        0 <= i < j < data.issues.len() ==> text_before(
            #[trigger] data.issues[i].key,
            #[trigger] data.issues[j].key,
        )
    &&& forall|i: int|
        0 <= i < data.issues.len() ==> made_before(
            #[trigger] data.issues[i].key,
            data.next_issue as nat,
        )
    &&& forall|i: int, j: int|
        0 <= i < j < data.issues.len() ==> (#[trigger] data.issues[i]).request_marker != (
        #[trigger] data.issues[j]).request_marker
}

/// The label marks a request.
pub open spec fn is_marker(label: Seq<char>) -> bool {
    has_prefix(label, MARKER_PREFIX@) && label.len() > MARKER_PREFIX@.len()
}

/// The first of `labels` from the position `from` on that marks a request.
pub open spec fn marker_from(labels: Seq<JsonTree>, from: int) -> Option<Seq<char>>
    decreases labels.len() - from,
{
    if from < 0 || from >= labels.len() {
        None
    } else {
        match tree_text(Some(labels[from])) {
            Some(label) => if is_marker(label) {
                Some(label)
            } else {
                marker_from(labels, from + 1)
            },
            None => marker_from(labels, from + 1),
        }
    }
}

/// The request that the body of a create is for.
pub open spec fn marker_of(body: JsonTree) -> Option<Seq<char>> {
    match inner_tree(body, "fields"@, "labels"@) {
        Some(JsonTree::Array(labels)) => marker_from(labels, 0),
        _ => None,
    }
}

/// Where the issue of a request stands, looking from the position `from` on.
pub open spec fn place_of_marker(issues: Seq<IssueView>, marker: Seq<char>, from: int) -> Option<
    int,
>
    decreases issues.len() - from,
{
    if from < 0 || from >= issues.len() {
        None
    } else if issues[from].request_marker == marker {
        Some(from)
    } else {
        place_of_marker(issues, marker, from + 1)
    }
}

/// Where the issue with a key stands, looking from the position `from` on.
pub open spec fn place_of_key(issues: Seq<IssueView>, key: Seq<char>, from: int) -> Option<int>
    decreases issues.len() - from,
{
    if from < 0 || from >= issues.len() {
        None
    } else if issues[from].key == key {
        Some(from)
    } else {
        place_of_key(issues, key, from + 1)
    }
}

/// How many of the issues from the position `from` on have their key before `key`, counted until
/// the first that has not.
pub open spec fn rank_from(issues: Seq<IssueView>, key: Seq<char>, from: int) -> int
    decreases issues.len() - from,
{
    if from < 0 || from >= issues.len() || !text_before(issues[from].key, key) {
        from
    } else {
        rank_from(issues, key, from + 1)
    }
}

/// An object with the key of an issue.
pub open spec fn key_tree(key: Seq<char>) -> JsonTree {
    JsonTree::Object(Map::empty().insert("key"@, JsonTree::Text(key)))
}

/// An object that says what is wrong.
pub open spec fn error_tree(words: Seq<char>) -> JsonTree {
    JsonTree::Object(Map::empty().insert("error"@, JsonTree::Text(words)))
}

/// A new issue.
pub open spec fn new_issue(key: Seq<char>, marker: Seq<char>, body: JsonTree) -> IssueView {
    IssueView {
        key,
        request_marker: marker,
        create_body: body,
        comments: Seq::empty(),
        transitioned: false,
    }
}

/// A create makes a new issue: it is for a request that has none.
pub open spec fn makes_an_issue(data: JiraView, body: JsonTree) -> bool {
    marker_of(body) matches Some(marker) && place_of_marker(data.issues, marker, 0) is None
}

/// There is a number left for a new issue.
pub open spec fn has_room(data: JiraView) -> bool {
    data.next_issue < u32::MAX - 122
}

/// The project behind a create, with the code and the body of the reply: a request that has an
/// issue is answered with that issue, another one gets a new issue.
pub open spec fn after_create(data: JiraView, body: JsonTree) -> (JiraView, u16, JsonTree) {
    match marker_of(body) {
        None => (data, 422, error_tree("Steward approval marker is required"@)),
        Some(marker) => match place_of_marker(data.issues, marker, 0) {
            Some(at) => (data, 200, key_tree(data.issues[at].key)),
            None => {
                let key = issue_key((data.next_issue + 1) as nat);
                (
                    JiraView {
                        issues: data.issues.insert(
                            rank_from(data.issues, key, 0),
                            new_issue(key, marker, body),
                        ),
                        next_issue: (data.next_issue + 1) as u32,
                    },
                    201,
                    key_tree(key),
                )
            },
        },
    }
}

/// The project behind a comment on the issue `key`, with the code of the reply.
pub open spec fn after_comment(data: JiraView, key: Seq<char>, body: JsonTree) -> (JiraView, u16) {
    match place_of_key(data.issues, key, 0) {
        None => (data, 404),
        Some(at) => {
            let issue = data.issues[at];
            (
                JiraView {
                    issues: data.issues.update(
                        at,
                        IssueView { comments: issue.comments.push(body), ..issue },
                    ),
                    ..data
                },
                201,
            )
        },
    }
}

/// The project behind a transition of the issue `key`, with the code of the reply.
pub open spec fn after_transition(data: JiraView, key: Seq<char>) -> (JiraView, u16) {
    match place_of_key(data.issues, key, 0) {
        None => (data, 404),
        Some(at) => (
            JiraView {
                issues: data.issues.update(
                    at,
                    IssueView { transitioned: true, ..data.issues[at] },
                ),
                ..data
            },
            204,
        ),
    }
}

/// The keys of the first `count` issues whose request stands in the query, each in an object.
pub open spec fn found_keys(issues: Seq<IssueView>, jql: Seq<char>, count: int) -> Seq<JsonTree>
    decreases count,
{
    if count <= 0 || count > issues.len() {
        Seq::empty()
    } else {
        let before = found_keys(issues, jql, count - 1);
        if has_text(jql, issues[count - 1].request_marker) {
            before.push(key_tree(issues[count - 1].key))
        } else {
            before
        }
    }
}

/// An object with issues in it.
pub open spec fn issues_tree(issues: Seq<JsonTree>) -> JsonTree {
    JsonTree::Object(Map::empty().insert("issues"@, JsonTree::Array(issues)))
}

/// What a search answers; without a query it looks in the empty text.
pub open spec fn search_tree(data: JiraView, jql: Option<Seq<char>>) -> JsonTree {
    let query = match jql {
        Some(query) => query,
        None => Seq::empty(),
    };
    issues_tree(found_keys(data.issues, query, data.issues.len() as int))
}

/// All of an issue.
pub open spec fn issue_tree(issue: IssueView) -> JsonTree {
    JsonTree::Object(
        Map::empty().insert("key"@, JsonTree::Text(issue.key)).insert(
            "requestMarker"@,
            JsonTree::Text(issue.request_marker),
        ).insert("createBody"@, issue.create_body).insert(
            "comments"@,
            JsonTree::Array(issue.comments),
        ).insert("transitioned"@, JsonTree::Bool(issue.transitioned)),
    )
}

/// All of the project.
pub open spec fn state_tree(data: JiraView) -> JsonTree {
    issues_tree(Seq::new(data.issues.len(), |i: int| issue_tree(data.issues[i])))
}

/// Copies of JSON values.
fn copy_all(values: &Vec<serde_json::Value>) -> (copies: Vec<serde_json::Value>)
    ensures
        json_trees(copies@) == json_trees(values@),
{
    let mut copies: Vec<serde_json::Value> = Vec::new();
    let mut i: usize = 0;
    while i < values.len()
        invariant
            i <= values.len(),
            copies@.len() == i,
            forall|j: int| 0 <= j < i ==> json_tree(#[trigger] copies@[j]) == json_tree(values@[j]),
        decreases values.len() - i,
    {
        copies.push(copy(&values[i]));
        i = i + 1;
    }
    assert(json_trees(copies@) =~= json_trees(values@));
    copies
}

/// An object with the key of an issue.
fn key_object(key: &str) -> (value: serde_json::Value)
    ensures
        json_tree(value) == key_tree(key@),
{
    let mut value = object();
    put(&mut value, "key", text(key));
    value
}

/// An object with issues in it.
fn issues_object(issues: Vec<serde_json::Value>) -> (value: serde_json::Value)
    ensures
        json_tree(value) == issues_tree(json_trees(issues@)),
{
    let mut value = object();
    put(&mut value, "issues", array(issues));
    value
}

/// The request that the body of a create is for.
fn find_marker(body: &serde_json::Value) -> (marker: Option<String>)
    ensures
        match marker {
            Some(found) => marker_of(json_tree(*body)) == Some(found@),
            None => marker_of(json_tree(*body)) is None,
        },
{
    let labels = match member(body, "fields") {
        None => return None,
        Some(fields) => match member(fields, "labels") {
            None => return None,
            Some(labels) => match as_items(labels) {
                None => return None,
                Some(items) => items,
            },
        },
    };
    let ghost trees = json_trees(labels@);
    let prefix_length: usize = MARKER_PREFIX.unicode_len();
    let mut i: usize = 0;
    while i < labels.len()
        invariant
            i <= labels.len(),
            trees == json_trees(labels@),
            prefix_length == MARKER_PREFIX@.len(),
            marker_of(json_tree(*body)) == marker_from(trees, i as int),
        decreases labels.len() - i,
    {
        assert(trees[i as int] == json_tree(labels@[i as int]));
        if let Some(label) = as_text(&labels[i]) {
            if starts_with(label, MARKER_PREFIX) && label.unicode_len() > prefix_length {
                return Some(label.to_owned());
            }
        }
        i = i + 1;
    }
    None
}

impl JiraData {
    /// A project without issues.
    pub fn new() -> (data: JiraData)
        ensures
            data@ == (JiraView { issues: Seq::empty(), next_issue: 0 }),
            well_formed(data@),
    {
        JiraData { issues: Vec::new(), next_issue: 0 }
    }

    /// Where the issue with a key stands.
    fn position(&self, key: &str) -> (at: Option<usize>)
        ensures
            match at {
                Some(i) => i < self.issues@.len() && place_of_key(self@.issues, key@, 0) == Some(
                    i as int,
                ),
                None => place_of_key(self@.issues, key@, 0) is None,
            },
    {
        let mut i: usize = 0;
        while i < self.issues.len()
            invariant
                i <= self.issues.len(),
                place_of_key(self@.issues, key@, 0) == place_of_key(self@.issues, key@, i as int),
            decreases self.issues.len() - i,
        {
            if same_text(self.issues[i].key.as_str(), key) {
                return Some(i);
            }
            i = i + 1;
        }
        None
    }

    /// Where the issue of a request stands.
    fn position_of_marker(&self, marker: &str) -> (at: Option<usize>)
        ensures
            match at {
                Some(i) => i < self.issues@.len() && place_of_marker(self@.issues, marker@, 0)
                    == Some(i as int),
                None => place_of_marker(self@.issues, marker@, 0) is None,
            },
    {
        let mut i: usize = 0;
        while i < self.issues.len()
            invariant
                i <= self.issues.len(),
                place_of_marker(self@.issues, marker@, 0) == place_of_marker(
                    self@.issues,
                    marker@,
                    i as int,
                ),
            decreases self.issues.len() - i,
        {
            if same_text(self.issues[i].request_marker.as_str(), marker) {
                return Some(i);
            }
            i = i + 1;
        }
        None
    }

    /// Where an issue with a new key belongs.
    fn rank(&self, key: &str) -> (at: usize)
        ensures
            at <= self.issues@.len(),
            at == rank_from(self@.issues, key@, 0),
    {
        let mut i: usize = 0;
        while i < self.issues.len() && text_is_before(self.issues[i].key.as_str(), key)
            invariant
                i <= self.issues.len(),
                rank_from(self@.issues, key@, 0) == rank_from(self@.issues, key@, i as int),
            decreases self.issues.len() - i,
        {
            i = i + 1;
        }
        i
    }

    /// Makes an issue for a request, unless the request has one. Gives the code and the body of
    /// the reply.
    pub fn create_issue(&mut self, body: serde_json::Value) -> (reply: (u16, serde_json::Value))
        requires
            makes_an_issue(old(self)@, json_tree(body)) ==> has_room(old(self)@),
        ensures
            (final(self)@, reply.0, json_tree(reply.1)) == after_create(
                old(self)@,
                json_tree(body),
            ),
            well_formed(old(self)@) ==> well_formed(final(self)@),
    {
        let marker = match find_marker(&body) {
            Some(marker) => marker,
            None => {
                let mut error = object();
                put(&mut error, "error", text("Steward approval marker is required"));
                return (422, error);
            },
        };
        if let Some(at) = self.position_of_marker(marker.as_str()) {
            return (200, key_object(self.issues[at].key.as_str()));
        }
        let number: u32 = self.next_issue + 1;
        let digits = decimal((122 + number) as u128);
        let key = concat2("PROJ-", digits.as_str());
        let at: usize = self.rank(key.as_str());
        let reply = key_object(key.as_str());
        let ghost before = self@.issues;
        self.next_issue = number;
        self.issues.insert(
            at,
            JiraIssue {
                key,
                request_marker: marker,
                create_body: body,
                comments: Vec::new(),
                transitioned: false,
            },
        );
        proof {
            let made = new_issue(
                issue_key(number as nat),
                marker@,
                json_tree(body),
            );
            assert(self@.issues[at as int] =~= made);
            assert(self@.issues =~= before.insert(at as int, made));
            if well_formed(old(self)@) {
                lemma_create_is_well_formed(old(self)@, marker@, json_tree(body));
            }
        }
        (201, reply)
    }

    /// Makes an issue for a request, unless the request has one, where there is a number left for
    /// it; otherwise the project stays as it is.
    pub fn create_numbered_issue(&mut self, body: serde_json::Value) -> (reply: Option<
        (u16, serde_json::Value),
    >)
        ensures
            if makes_an_issue(old(self)@, json_tree(body)) && !has_room(old(self)@) {
                reply is None && final(self)@ == old(self)@
            } else {
                reply matches Some((code, answer)) && (final(self)@, code, json_tree(answer))
                    == after_create(old(self)@, json_tree(body))
            },
            well_formed(old(self)@) ==> well_formed(final(self)@),
    {
        let makes = match find_marker(&body) {
            Some(marker) => self.position_of_marker(marker.as_str()).is_none(),
            None => false,
        };
        if makes && self.next_issue >= u32::MAX - 122 {
            None
        } else {
            Some(self.create_issue(body))
        }
    }

    /// Adds a comment to an issue. Gives the code of the reply.
    pub fn comment_issue(&mut self, key: &str, body: serde_json::Value) -> (code: u16)
        ensures
            (final(self)@, code) == after_comment(old(self)@, key@, json_tree(body)),
            well_formed(old(self)@) ==> well_formed(final(self)@),
    {
        match self.position(key) {
            None => 404,
            Some(at) => {
                let ghost before = self.issues@[at as int]@;
                self.issues[at].comments.push(body);
                assert(self.issues@[at as int]@.comments =~= before.comments.push(json_tree(body)));
                assert(self@.issues =~= after_comment(old(self)@, key@, json_tree(body)).0.issues);
                proof {
                    if well_formed(old(self)@) {
                        law_comment_changes_its_issue_only(old(self)@, key@, json_tree(body), at as int);
                    }
                }
                201
            },
        }
    }

    /// Marks an issue as transitioned. Gives the code of the reply.
    pub fn transition_issue(&mut self, key: &str) -> (code: u16)
        ensures
            (final(self)@, code) == after_transition(old(self)@, key@),
            well_formed(old(self)@) ==> well_formed(final(self)@),
    {
        match self.position(key) {
            None => 404,
            Some(at) => {
                self.issues[at].transitioned = true;
                assert(self@.issues =~= after_transition(old(self)@, key@).0.issues);
                proof {
                    if well_formed(old(self)@) {
                        law_transition_changes_its_issue_only(old(self)@, key@, at as int);
                    }
                }
                204
            },
        }
    }

    /// The issues whose request stands in a query.
    pub fn search_issues(&self, jql: Option<&str>) -> (reply: serde_json::Value)
        ensures
            json_tree(reply) == search_tree(
                self@,
                match jql {
                    Some(query) => Some(query@),
                    None => None,
                },
            ),
    {
        proof {
            reveal_strlit("");
            assert(""@ =~= Seq::empty());
        }
        let query = match jql {
            Some(query) => query,
            None => "",
        };
        let mut found: Vec<serde_json::Value> = Vec::new();
        let mut i: usize = 0;
        assert(json_trees(found@) =~= Seq::empty());
        while i < self.issues.len()
            invariant
                i <= self.issues.len(),
                json_trees(found@) == found_keys(self@.issues, query@, i as int),
            decreases self.issues.len() - i,
        {
            let ghost before = found@;
            if contains_text(query, self.issues[i].request_marker.as_str()) {
                found.push(key_object(self.issues[i].key.as_str()));
                assert(json_trees(found@) =~= json_trees(before).push(
                    key_tree(self.issues@[i as int].key@),
                ));
            }
            i = i + 1;
        }
        issues_object(found)
    }

    /// All of the project.
    pub fn jira_state(&self) -> (reply: serde_json::Value)
        ensures
            json_tree(reply) == state_tree(self@),
    {
        let mut listed: Vec<serde_json::Value> = Vec::new();
        let mut i: usize = 0;
        while i < self.issues.len()
            invariant
                i <= self.issues.len(),
                listed@.len() == i,
                forall|j: int|
                    0 <= j < i ==> json_tree(#[trigger] listed@[j]) == issue_tree(self@.issues[j]),
            decreases self.issues.len() - i,
        {
            let issue = &self.issues[i];
            let mut value = object();
            put(&mut value, "key", text(issue.key.as_str()));
            put(&mut value, "requestMarker", text(issue.request_marker.as_str()));
            put(&mut value, "createBody", copy(&issue.create_body));
            put(&mut value, "comments", array(copy_all(&issue.comments)));
            put(&mut value, "transitioned", truth(issue.transitioned));
            listed.push(value);
            i = i + 1;
        }
        assert(json_trees(listed@) =~= Seq::new(
            self@.issues.len(),
            |j: int| issue_tree(self@.issues[j]),
        ));
        issues_object(listed)
    }
}

/// The keys of two issues differ.
pub proof fn lemma_issue_keys_differ(a: nat, b: nat)
    requires
        issue_key(a) == issue_key(b),
    ensures
        a == b,
{
    let prefix = "PROJ-"@;
    lemma_decimal_digits(122 + a);
    lemma_decimal_digits(122 + b);
    assert(issue_key(a).subrange(prefix.len() as int, issue_key(a).len() as int)
        =~= decimal_digits(122 + a));
    assert(issue_key(b).subrange(prefix.len() as int, issue_key(b).len() as int)
        =~= decimal_digits(122 + b));
}

/// What `place_of_marker` finds is the issue of the request, and it finds one if there is one.
proof fn lemma_place_of_marker(issues: Seq<IssueView>, marker: Seq<char>, from: int)
    requires
        0 <= from,
    ensures
        match place_of_marker(issues, marker, from) {
            Some(at) => from <= at < issues.len() && issues[at].request_marker == marker,
            None => forall|i: int|
                from <= i < issues.len() ==> (#[trigger] issues[i]).request_marker != marker,
        },
    decreases issues.len() - from,
{
    if from < issues.len() && issues[from].request_marker != marker {
        lemma_place_of_marker(issues, marker, from + 1);
    }
}

/// What `place_of_key` finds is the issue with the key, and it finds one if there is one.
proof fn lemma_place_of_key(issues: Seq<IssueView>, key: Seq<char>, from: int)
    requires
        0 <= from,
    ensures
        match place_of_key(issues, key, from) {
            Some(at) => from <= at < issues.len() && issues[at].key == key,
            None => forall|i: int| from <= i < issues.len() ==> (#[trigger] issues[i]).key != key,
        },
    decreases issues.len() - from,
{
    if from < issues.len() && issues[from].key != key {
        lemma_place_of_key(issues, key, from + 1);
    }
}

/// The issues before the rank of a key have their keys before it, and the one at the rank has
/// not.
proof fn lemma_rank(issues: Seq<IssueView>, key: Seq<char>, from: int)
    requires
        0 <= from <= issues.len(),
    ensures
        from <= rank_from(issues, key, from) <= issues.len(),
        forall|i: int|
            from <= i < rank_from(issues, key, from) ==> text_before(
                (#[trigger] issues[i]).key,
                key,
            ),
        rank_from(issues, key, from) < issues.len() ==> !text_before(
            issues[rank_from(issues, key, from)].key,
            key,
        ),
    decreases issues.len() - from,
{
    if from < issues.len() && text_before(issues[from].key, key) {
        lemma_rank(issues, key, from + 1);
    }
}

/// A create keeps the project well formed.
proof fn lemma_create_is_well_formed(data: JiraView, marker: Seq<char>, body: JsonTree)
    requires
        well_formed(data),
        has_room(data),
        marker_of(body) == Some(marker),
        place_of_marker(data.issues, marker, 0) is None,
    ensures
        well_formed(after_create(data, body).0),
{
    let number = (data.next_issue + 1) as nat;
    let key = issue_key(number);
    let at = rank_from(data.issues, key, 0);
    let after = after_create(data, body).0;
    lemma_place_of_marker(data.issues, marker, 0);
    lemma_rank(data.issues, key, 0);
    assert forall|i: int| 0 <= i < data.issues.len() implies data.issues[i].key != key by {
        let made = data.issues[i].key;
        assert(made_before(made, data.next_issue as nat));
        let earlier = choose|n: nat|
            1 <= n <= data.next_issue as nat && made == #[trigger] issue_key(n);
        if made == key {
            lemma_issue_keys_differ(earlier, number);
        }
    }
    assert forall|i: int| at <= i < data.issues.len() implies text_before(
        key,
        #[trigger] data.issues[i].key,
    ) by {
        lemma_text_before(data.issues[at].key, key);
        if i > at {
            lemma_text_before_transitive(key, data.issues[at].key, data.issues[i].key);
        }
    }
    assert forall|i: int| 0 <= i < after.issues.len() implies made_before(
        #[trigger] after.issues[i].key,
        after.next_issue as nat,
    ) by {
        if i == at {
            assert(after.issues[i].key == issue_key(number));
        } else {
            let was = if i < at {
                i
            } else {
                i - 1
            };
            assert(after.issues[i] == data.issues[was]);
            let made = data.issues[was].key;
            assert(made_before(made, data.next_issue as nat));
            let earlier = choose|n: nat|
                1 <= n <= data.next_issue as nat && made == #[trigger] issue_key(n);
            assert(made == issue_key(earlier));
        }
    }
}

/// Where the issue of a request stands in a well-formed project.
proof fn lemma_only_issue_of_a_request(data: JiraView, marker: Seq<char>, at: int)
    requires
        well_formed(data),
        0 <= at < data.issues.len(),
        data.issues[at].request_marker == marker,
    ensures
        place_of_marker(data.issues, marker, 0) == Some(at),
{
    lemma_place_of_marker(data.issues, marker, 0);
    let found = place_of_marker(data.issues, marker, 0)->Some_0;
    if found < at {
        assert(data.issues[found].request_marker != data.issues[at].request_marker);
    } else if at < found {
        assert(data.issues[at].request_marker != data.issues[found].request_marker);
    }
}

/// After a create that was answered with a key, the project holds one issue of the request, and
/// it has that key.
pub proof fn law_a_marked_request_has_its_issue(data: JiraView, body: JsonTree) -> (at: int)
    requires
        well_formed(data),
        makes_an_issue(data, body) ==> has_room(data),
        marker_of(body) is Some,
    ensures
        ({
            let (after, code, reply) = after_create(data, body);
            let marker = marker_of(body)->Some_0;
            &&& well_formed(after)
            &&& code == 200 || code == 201
            &&& place_of_marker(after.issues, marker, 0) == Some(at)
            &&& 0 <= at < after.issues.len()
            &&& reply == key_tree(after.issues[at].key)
            &&& code == 201 ==> after.issues[at] == new_issue(
                issue_key(after.next_issue as nat),
                marker,
                body,
            )
        }),
{
    let marker = marker_of(body)->Some_0;
    let (after, code, reply) = after_create(data, body);
    lemma_place_of_marker(data.issues, marker, 0);
    if place_of_marker(data.issues, marker, 0) is Some {
        place_of_marker(data.issues, marker, 0)->Some_0
    } else {
        let key = issue_key((data.next_issue + 1) as nat);
        lemma_rank(data.issues, key, 0);
        lemma_create_is_well_formed(data, marker, body);
        let at = rank_from(data.issues, key, 0);
        assert(after.issues[at] == new_issue(key, marker, body));
        lemma_only_issue_of_a_request(after, marker, at);
        at
    }
}

/// A request that is made again gets the issue that it has: the second create is answered with
/// the same key and leaves the project as it is.
pub proof fn law_create_is_idempotent(data: JiraView, first: JsonTree, second: JsonTree)
    requires
        well_formed(data),
        makes_an_issue(data, first) ==> has_room(data),
        marker_of(first) is Some,
        marker_of(second) == marker_of(first),
    ensures
        ({
            let (after, code, reply) = after_create(data, first);
            after_create(after, second) == (after, 200u16, reply)
        }),
{
    let at = law_a_marked_request_has_its_issue(data, first);
}

/// A request without a marker makes no issue.
pub proof fn law_unmarked_requests_make_no_issue(data: JiraView, body: JsonTree)
    requires
        marker_of(body) is None,
    ensures
        after_create(data, body) == (
            data,
            422u16,
            error_tree("Steward approval marker is required"@),
        ),
{
}

/// The keys that are found are those of the issues whose requests stand in the query.
proof fn lemma_found_keys(issues: Seq<IssueView>, jql: Seq<char>, count: int, at: int)
    requires
        0 <= at < count <= issues.len(),
        has_text(jql, issues[at].request_marker),
    ensures
        found_keys(issues, jql, count).contains(key_tree(issues[at].key)),
    decreases count,
{
    let before = found_keys(issues, jql, count - 1);
    let all = found_keys(issues, jql, count);
    if at == count - 1 {
        assert(all[all.len() - 1] == key_tree(issues[at].key));
    } else {
        lemma_found_keys(issues, jql, count - 1, at);
        let i = before.index_of(key_tree(issues[at].key));
        assert(all[i] == key_tree(issues[at].key));
    }
}

/// A search whose query holds the request finds the issue that the create was answered with.
pub proof fn law_search_finds_what_was_created(data: JiraView, body: JsonTree, jql: Seq<char>)
    requires
        well_formed(data),
        makes_an_issue(data, body) ==> has_room(data),
        marker_of(body) is Some,
        has_text(jql, marker_of(body)->Some_0),
    ensures
        ({
            let (after, code, reply) = after_create(data, body);
            found_keys(after.issues, jql, after.issues.len() as int).contains(reply)
        }),
{
    let at = law_a_marked_request_has_its_issue(data, body);
    let after = after_create(data, body).0;
    lemma_place_of_marker(after.issues, marker_of(body)->Some_0, 0);
    lemma_found_keys(after.issues, jql, after.issues.len() as int, at);
}

/// A create makes at most one issue and leaves the others as they are.
pub proof fn law_create_keeps_the_other_issues(data: JiraView, body: JsonTree, i: int)
    requires
        well_formed(data),
        0 <= i < data.issues.len(),
    ensures
        after_create(data, body).0.issues.contains(data.issues[i]),
        after_create(data, body).0.issues.len() <= data.issues.len() + 1,
{
    let key = issue_key((data.next_issue + 1) as nat);
    lemma_rank(data.issues, key, 0);
    let at = rank_from(data.issues, key, 0);
    let after = after_create(data, body).0;
    if after != data {
        if i < at {
            assert(after.issues[i] == data.issues[i]);
        } else {
            assert(after.issues[i + 1] == data.issues[i]);
        }
    } else {
        assert(after.issues[i] == data.issues[i]);
    }
}

/// A comment is added behind the earlier ones of its issue and changes nothing else; on a key
/// that no issue has it changes nothing at all.
pub proof fn law_comment_changes_its_issue_only(
    data: JiraView,
    key: Seq<char>,
    body: JsonTree,
    i: int,
)
    requires
        well_formed(data),
        0 <= i < data.issues.len(),
    ensures
        ({
            let (after, code) = after_comment(data, key, body);
            &&& well_formed(after)
            &&& code == 404 <==> after == data
            &&& data.issues[i].key != key ==> after.issues[i] == data.issues[i]
            &&& data.issues[i].key == key ==> code == 201 && after.issues[i] == (IssueView {
                comments: data.issues[i].comments.push(body),
                ..data.issues[i]
            })
        }),
{
    lemma_place_of_key(data.issues, key, 0);
    lemma_only_issue_with_a_key(data, key, i);
    let (after, code) = after_comment(data, key, body);
    if code == 201 {
        let at = place_of_key(data.issues, key, 0)->Some_0;
        assert(after.issues[at].comments.len() == data.issues[at].comments.len() + 1);
        assert forall|j: int| 0 <= j < after.issues.len() implies #[trigger] after.issues[j].key
            == data.issues[j].key && after.issues[j].request_marker
            == data.issues[j].request_marker by {}
    }
}

/// A key that an issue has leads to that issue.
proof fn lemma_only_issue_with_a_key(data: JiraView, key: Seq<char>, at: int)
    requires
        well_formed(data),
        0 <= at < data.issues.len(),
    ensures
        data.issues[at].key == key ==> place_of_key(data.issues, key, 0) == Some(at),
{
    if data.issues[at].key == key {
        lemma_place_of_key(data.issues, key, 0);
        lemma_text_before(key, key);
        let found = place_of_key(data.issues, key, 0)->Some_0;
        if found < at {
            assert(text_before(data.issues[found].key, data.issues[at].key));
        } else if at < found {
            assert(text_before(data.issues[at].key, data.issues[found].key));
        }
    }
}

/// A transition marks its issue and changes nothing else; made again, it changes nothing at all.
pub proof fn law_transition_changes_its_issue_only(data: JiraView, key: Seq<char>, i: int)
    requires
        well_formed(data),
        0 <= i < data.issues.len(),
    ensures
        ({
            let (after, code) = after_transition(data, key);
            &&& well_formed(after)
            &&& code == 404 ==> after == data
            &&& data.issues[i].key != key ==> after.issues[i] == data.issues[i]
            &&& data.issues[i].key == key ==> code == 204 && after.issues[i] == (IssueView {
                transitioned: true,
                ..data.issues[i]
            })
            &&& after_transition(after, key) == (after, code)
        }),
{
    lemma_place_of_key(data.issues, key, 0);
    lemma_only_issue_with_a_key(data, key, i);
    let (after, code) = after_transition(data, key);
    if code == 204 {
        let at = place_of_key(data.issues, key, 0)->Some_0;
        assert forall|j: int| 0 <= j < after.issues.len() implies #[trigger] after.issues[j].key
            == data.issues[j].key && after.issues[j].request_marker
            == data.issues[j].request_marker by {}
        lemma_only_issue_with_a_key(after, key, at);
        assert(after.issues.update(at, IssueView { transitioned: true, ..after.issues[at] })
            =~= after.issues);
    }
}

/// The positions are those of the issues among the first `count` whose request stands in a query,
/// in their order, each once.
pub open spec fn are_the_matching(
    issues: Seq<IssueView>,
    query: Seq<char>,
    count: int,
    places: Seq<int>,
) -> bool {
    &&& forall|i: int|
        0 <= i < places.len() ==> 0 <= #[trigger] places[i] < count && has_text(
            query,
            issues[places[i]].request_marker,
        )
    &&& forall|i: int, j: int| 0 <= i < j < places.len() ==> #[trigger] places[i] < #[trigger] places[j]
    &&& forall|at: int|
        0 <= at < count && has_text(query, (#[trigger] issues[at]).request_marker)
            ==> places.contains(at)
}

/// What is found among the first `count` issues stands at positions of its own.
proof fn lemma_found_places(issues: Seq<IssueView>, query: Seq<char>, count: int) -> (places: Seq<
    int,
>)
    requires
        0 <= count <= issues.len(),
    ensures
        are_the_matching(issues, query, count, places),
        found_keys(issues, query, count).len() == places.len(),
        forall|i: int|
            0 <= i < places.len() ==> #[trigger] found_keys(issues, query, count)[i]
                == JsonTree::Object(
                Map::empty().insert("key"@, JsonTree::Text(issues[places[i]].key)),
            ),
    decreases count,
{
    if count == 0 {
        Seq::empty()
    } else {
        let before = lemma_found_places(issues, query, count - 1);
        let last = count - 1;
        if has_text(query, issues[last].request_marker) {
            let places = before.push(last);
            assert forall|at: int|
                0 <= at < count && has_text(
                    query,
                    (#[trigger] issues[at]).request_marker,
                ) implies places.contains(at) by {
                if at == last {
                    assert(places[before.len() as int] == at);
                } else {
                    let i = before.index_of(at);
                    assert(places[i] == at);
                }
            }
            places
        } else {
            assert forall|at: int|
                0 <= at < count && has_text(
                    query,
                    (#[trigger] issues[at]).request_marker,
                ) implies before.contains(at) by {
                assert(at != last);
            }
            before
        }
    }
}

/// A search finds the issues whose request stands in the query, and nothing else: the keys in the
/// answer are those of exactly these issues, each once and in the order of the issues, whatever else
/// was done to them. Without a query it looks in the empty text.
pub proof fn law_search_finds_exactly_the_matching_issues(data: JiraView, jql: Option<Seq<char>>)
    -> (places: Seq<int>)
    ensures
        ({
            let query = if jql is Some {
                jql->Some_0
            } else {
                Seq::empty()
            };
            &&& are_the_matching(data.issues, query, data.issues.len() as int, places)
            &&& search_tree(data, jql) == JsonTree::Object(
                Map::empty().insert(
                    "issues"@,
                    JsonTree::Array(
                        Seq::new(
                            places.len(),
                            |i: int|
                                JsonTree::Object(
                                    Map::empty().insert(
                                        "key"@,
                                        JsonTree::Text(data.issues[places[i]].key),
                                    ),
                                ),
                        ),
                    ),
                ),
            )
        }),
{
    let query = if jql is Some {
        jql->Some_0
    } else {
        Seq::empty()
    };
    let places = lemma_found_places(data.issues, query, data.issues.len() as int);
    let answer = Seq::new(
        places.len(),
        |i: int|
            JsonTree::Object(
                Map::empty().insert("key"@, JsonTree::Text(data.issues[places[i]].key)),
            ),
    );
    assert(found_keys(data.issues, query, data.issues.len() as int) =~= answer);
    places
}

/// What a search finds rests on the requests and the keys of the issues alone: comments and
/// transitions change no answer.
pub proof fn law_search_ignores_comments_and_transitions(
    data: JiraView,
    key: Seq<char>,
    body: JsonTree,
    jql: Option<Seq<char>>,
)
    ensures
        search_tree(after_comment(data, key, body).0, jql) == search_tree(data, jql),
        search_tree(after_transition(data, key).0, jql) == search_tree(data, jql),
{
    let query = if jql is Some {
        jql->Some_0
    } else {
        Seq::empty()
    };
    lemma_place_of_key(data.issues, key, 0);
    lemma_same_keys_are_found(
        data.issues,
        after_comment(data, key, body).0.issues,
        query,
        data.issues.len() as int,
    );
    lemma_same_keys_are_found(
        data.issues,
        after_transition(data, key).0.issues,
        query,
        data.issues.len() as int,
    );
}

/// Issues with the same requests and keys are found alike.
proof fn lemma_same_keys_are_found(
    left: Seq<IssueView>,
    right: Seq<IssueView>,
    query: Seq<char>,
    count: int,
)
    requires
        left.len() == right.len(),
        0 <= count <= left.len(),
        forall|i: int|
            0 <= i < left.len() ==> (#[trigger] left[i]).key == right[i].key
                && left[i].request_marker == right[i].request_marker,
    ensures
        found_keys(left, query, count) == found_keys(right, query, count),
    decreases count,
{
    if count > 0 {
        lemma_same_keys_are_found(left, right, query, count - 1);
        assert(left[count - 1].key == right[count - 1].key);
    }
}

/// The marker of a request is its first label that is a text, begins with the prefix of markers and
/// goes on behind it. The labels are the array `labels` in the object `fields` of the body.
pub proof fn law_a_request_is_marked_by_its_first_marker(
    members: Map<Seq<char>, JsonTree>,
    fields: Map<Seq<char>, JsonTree>,
    labels: Seq<JsonTree>,
    at: int,
)
    requires
        members.dom().contains("fields"@),
        members["fields"@] == JsonTree::Object(fields),
        fields.dom().contains("labels"@),
        fields["labels"@] == JsonTree::Array(labels),
    ensures
        ({
            let marks = |label: JsonTree|
                label matches JsonTree::Text(words) && words.len() > 17 && words.take(17)
                    == "steward-approval-"@;
            &&& 0 <= at < labels.len() && marks(labels[at]) && (forall|i: int|
                0 <= i < at ==> !marks(#[trigger] labels[i])) ==> marker_of(
                JsonTree::Object(members),
            ) == Some(labels[at]->Text_0)
            &&& (forall|i: int| 0 <= i < labels.len() ==> !marks(#[trigger] labels[i]))
                ==> marker_of(JsonTree::Object(members)) is None
        }),
{
    let marks = |label: JsonTree|
        label matches JsonTree::Text(words) && words.len() > 17 && words.take(17)
            == "steward-approval-"@;
    reveal_strlit("steward-approval-");
    assert forall|label: JsonTree| #[trigger]
        marks(label) == (label matches JsonTree::Text(words) && is_marker(words)) by {
        if let JsonTree::Text(words) = label {
            if words.len() > 17 {
                assert(words.take(17) =~= words.subrange(0, 17));
            }
        }
    }
    lemma_first_marker(labels, marks, 0, at);
}

/// The first label that marks a request is the one that is found.
proof fn lemma_first_marker(
    labels: Seq<JsonTree>,
    marks: spec_fn(JsonTree) -> bool,
    from: int,
    at: int,
)
    requires
        0 <= from,
        forall|label: JsonTree| #[trigger]
            marks(label) == (label matches JsonTree::Text(words) && is_marker(words)),
    ensures
        from <= at < labels.len() && marks(labels[at]) && (forall|i: int|
            from <= i < at ==> !marks(#[trigger] labels[i])) ==> marker_from(labels, from) == Some(
            labels[at]->Text_0,
        ),
        (forall|i: int| from <= i < labels.len() ==> !marks(#[trigger] labels[i]))
            ==> marker_from(labels, from) is None,
    decreases labels.len() - from,
{
    if from < labels.len() {
        assert(marks(labels[from]) == (labels[from] matches JsonTree::Text(words) && is_marker(
            words,
        )));
        lemma_first_marker(labels, marks, from + 1, at);
    }
}

/// A body without an array of labels in its fields is no request.
pub proof fn law_a_body_without_labels_is_no_request(body: JsonTree)
    requires
        !(body matches JsonTree::Object(members) && members.dom().contains("fields"@) && (
        members["fields"@] matches JsonTree::Object(fields) && fields.dom().contains("labels"@)
            && fields["labels"@] is Array)),
    ensures
        marker_of(body) is None,
{
}

/// A new issue holds what it was asked for: it has the next key, the marker and the body of its
/// request, no comments, and is not transitioned. It is put between the others, which stay as they
/// are and in their order.
pub proof fn law_a_new_issue_holds_its_request(data: JiraView, body: JsonTree) -> (at: int)
    requires
        well_formed(data),
        has_room(data),
        marker_of(body) is Some,
        forall|i: int|
            0 <= i < data.issues.len() ==> (#[trigger] data.issues[i]).request_marker != marker_of(
                body,
            )->Some_0,
    ensures
        ({
            let (after, code, reply) = after_create(data, body);
            let key = "PROJ-"@ + decimal_digits((123 + data.next_issue) as nat);
            &&& code == 201
            &&& reply == JsonTree::Object(Map::empty().insert("key"@, JsonTree::Text(key)))
            &&& after.next_issue == data.next_issue + 1
            &&& after.issues.len() == data.issues.len() + 1
            &&& 0 <= at < after.issues.len()
            &&& after.issues[at].key == key
            &&& Some(after.issues[at].request_marker) == marker_of(body)
            &&& after.issues[at].create_body == body
            &&& after.issues[at].comments.len() == 0
            &&& !after.issues[at].transitioned
            &&& forall|i: int| 0 <= i < at ==> #[trigger] after.issues[i] == data.issues[i]
            &&& forall|i: int|
                at < i < after.issues.len() ==> #[trigger] after.issues[i] == data.issues[i - 1]
        }),
{
    let marker = marker_of(body)->Some_0;
    lemma_place_of_marker(data.issues, marker, 0);
    match place_of_marker(data.issues, marker, 0) {
        Some(found) => {
            assert(data.issues[found].request_marker == marker);
        },
        None => {},
    }
    let key = issue_key((data.next_issue + 1) as nat);
    lemma_rank(data.issues, key, 0);
    rank_from(data.issues, key, 0)
}

/// A request that has an issue is answered with the key of that issue, and nothing changes.
pub proof fn law_a_known_request_gets_its_key(data: JiraView, body: JsonTree, at: int)
    requires
        well_formed(data),
        0 <= at < data.issues.len(),
        marker_of(body) == Some(data.issues[at].request_marker),
    ensures
        after_create(data, body) == (
            data,
            200u16,
            JsonTree::Object(Map::empty().insert("key"@, JsonTree::Text(data.issues[at].key))),
        ),
{
    lemma_only_issue_of_a_request(data, data.issues[at].request_marker, at);
}

/// A key that no issue has is neither commented nor transitioned, and changes nothing.
pub proof fn law_unknown_keys_change_nothing(data: JiraView, key: Seq<char>, body: JsonTree)
    requires
        forall|i: int| 0 <= i < data.issues.len() ==> (#[trigger] data.issues[i]).key != key,
    ensures
        after_comment(data, key, body) == (data, 404u16),
        after_transition(data, key) == (data, 404u16),
{
    lemma_place_of_key(data.issues, key, 0);
}

/// A request that is not marked is answered with what is missing.
pub proof fn law_unmarked_requests_are_told_what_is_missing(data: JiraView, body: JsonTree)
    requires
        marker_of(body) is None,
    ensures
        after_create(data, body) == (
            data,
            422u16,
            JsonTree::Object(
                Map::empty().insert(
                    "error"@,
                    JsonTree::Text("Steward approval marker is required"@),
                ),
            ),
        ),
{
}

/// The state shows every issue, in the order of the issues, with all that is known of it.
pub proof fn law_the_state_shows_every_issue(data: JiraView)
    ensures
        state_tree(data) matches JsonTree::Object(members) && members.dom() =~= set![
            "issues"@,
        ] && (members["issues"@] matches JsonTree::Array(shown) && shown.len() == data.issues.len()
            && forall|i: int|
            0 <= i < data.issues.len() ==> shows_issue(#[trigger] shown[i], data.issues[i])),
{
    assert forall|i: int| 0 <= i < data.issues.len() implies shows_issue(
        #[trigger] issue_tree(data.issues[i]),
        data.issues[i],
    ) by {
        lemma_issue_is_shown(data.issues[i]);
    }
}

/// The object has the members of an issue, and no others.
pub open spec fn shows_issue(shown: JsonTree, issue: IssueView) -> bool {
    shown matches JsonTree::Object(members) && members.dom() == set![
        "key"@,
        "requestMarker"@,
        "createBody"@,
        "comments"@,
        "transitioned"@,
    ] && members["key"@] == JsonTree::Text(issue.key) && members["requestMarker"@]
        == JsonTree::Text(issue.request_marker) && members["createBody"@] == issue.create_body
        && members["comments"@] == JsonTree::Array(issue.comments) && members["transitioned"@]
        == JsonTree::Bool(issue.transitioned)
}

/// All of an issue is shown.
proof fn lemma_issue_is_shown(issue: IssueView)
    ensures
        shows_issue(issue_tree(issue), issue),
{
    reveal_strlit("key");
    reveal_strlit("requestMarker");
    reveal_strlit("createBody");
    reveal_strlit("comments");
    reveal_strlit("transitioned");
    assert("key"@.len() == 3 && "requestMarker"@.len() == 13 && "createBody"@.len() == 10
        && "comments"@.len() == 8 && "transitioned"@.len() == 12);
    let members = issue_tree(issue)->Object_0;
    assert(members.dom() =~= set![
        "key"@,
        "requestMarker"@,
        "createBody"@,
        "comments"@,
        "transitioned"@,
    ]);
}

} // verus!
