//! The upgrade of a Task database: which migrations run, which rows of the earlier release it
//! starts from and what it makes of them.
use crate::identities::{authority_tree, ALICE_CANONICAL_USER};
use crate::json::{
    array, as_number, json_tree, json_trees, member, member_tree, number, number_tree, object, put,
    text, tree_u64, JsonTree,
};
use crate::runtimes::option_text;
use crate::task_store::{stand_in, stand_in_digest};
use crate::text::{concat2, decimal, decimal_digits, repeat, repeated, same_text};
use vstd::prelude::*;
use vstd::string::*;

verus! {

/// A migration runs under a maximum version; without a maximum every migration runs.
pub open spec fn runs_under(version: i64, maximum: Option<i64>) -> bool {
    match maximum {
        Some(limit) => version <= limit,
        None => true,
    }
}

/// Which of the first `count` migrations run, by their positions and in their order.
pub open spec fn kept(versions: Seq<i64>, maximum: Option<i64>, count: int) -> Seq<int>
    decreases count,
{
    if count <= 0 || count > versions.len() {
        Seq::empty()
    } else if runs_under(versions[count - 1], maximum) {
        kept(versions, maximum, count - 1).push(count - 1)
    } else {
        kept(versions, maximum, count - 1)
    }
}

/// The positions that places name.
pub open spec fn positions(places: Seq<usize>) -> Seq<int> {
    Seq::new(places.len(), |i: int| places[i] as int)
}

/// Which migrations run under a maximum version, by their positions and in their order.
pub fn migration_set(versions: &Vec<i64>, maximum_version: Option<i64>) -> (places: Vec<usize>)
    ensures
        positions(places@) == kept(versions@, maximum_version, versions@.len() as int),
{
    let mut places: Vec<usize> = Vec::new();
    let mut i: usize = 0;
    assert(positions(places@) =~= Seq::empty());
    while i < versions.len()
        invariant
            i <= versions.len(),
            positions(places@) == kept(versions@, maximum_version, i as int),
        decreases versions.len() - i,
    {
        let ghost before = places@;
        let runs = match maximum_version {
            Some(limit) => versions[i] <= limit,
            None => true,
        };
        if runs {
            places.push(i);
            assert(positions(places@) =~= positions(before).push(i as int));
        }
        i = i + 1;
    }
    places
}

/// A migration is kept where it runs, and nothing else is.
pub proof fn law_kept_migrations_are_those_that_run(
    versions: Seq<i64>,
    maximum: Option<i64>,
    count: int,
    at: int,
)
    requires
        0 <= count <= versions.len(),
    ensures
        kept(versions, maximum, count).contains(at) <==> 0 <= at < count && runs_under(
            versions[at],
            maximum,
        ),
    decreases count,
{
    if count > 0 {
        law_kept_migrations_are_those_that_run(versions, maximum, count - 1, at);
        let before = kept(versions, maximum, count - 1);
        let all = kept(versions, maximum, count);
        if runs_under(versions[count - 1], maximum) {
            if before.contains(at) {
                let i = before.index_of(at);
                assert(all[i] == at);
            }
            if all.contains(at) {
                let i = all.index_of(at);
                if i < before.len() {
                    assert(before[i] == at);
                }
            }
            assert(all[all.len() - 1] == count - 1);
        }
    }
}

/// What ran under a maximum version runs under a higher one too, so that a database can be brought
/// up in stages.
pub proof fn law_stages_build_on_each_other(versions: Seq<i64>, lower: i64, higher: i64, at: int)
    requires
        lower <= higher,
        kept(versions, Some(lower), versions.len() as int).contains(at),
    ensures
        kept(versions, Some(higher), versions.len() as int).contains(at),
        kept(versions, None, versions.len() as int).contains(at),
{
    let count = versions.len() as int;
    law_kept_migrations_are_those_that_run(versions, Some(lower), count, at);
    law_kept_migrations_are_those_that_run(versions, Some(higher), count, at);
    law_kept_migrations_are_those_that_run(versions, None, count, at);
}

/// Under which authority a Task of the earlier release ran.
#[derive(PartialEq, Eq, Structural, Clone, Copy, Debug)]
pub enum LegacyAuthority {
    Legacy,
    User,
    Internal,
}

/// A Task of the earlier release.
pub struct UpgradeRow {
    pub task_uid: String,
    pub operation_id: String,
    pub idempotency_key: String,
    pub workflow: String,
    pub runtime_name: String,
    pub phase: String,
    pub finalized: bool,
    pub workflow_name: Option<String>,
    pub workflow_version: Option<i64>,
    pub workflow_digest: Option<String>,
    pub user_envelope_instance_id: Option<String>,
    pub user_envelope_revision: Option<i64>,
    pub user_envelope_digest: Option<String>,
    pub internal_authority_id: Option<String>,
    pub internal_authority_version: Option<i64>,
    pub internal_authority_digest: Option<String>,
    pub execution_is_bound: bool,
    pub candidate_digest: String,
    pub service_envelope_digest: String,
}

pub ghost struct UpgradeRowView {
    pub task_uid: Seq<char>,
    pub operation_id: Seq<char>,
    pub idempotency_key: Seq<char>,
    pub workflow: Seq<char>,
    pub runtime_name: Seq<char>,
    pub phase: Seq<char>,
    pub finalized: bool,
    pub workflow_name: Option<Seq<char>>,
    pub workflow_version: Option<i64>,
    pub workflow_digest: Option<Seq<char>>,
    pub user_envelope_instance_id: Option<Seq<char>>,
    pub user_envelope_revision: Option<i64>,
    pub user_envelope_digest: Option<Seq<char>>,
    pub internal_authority_id: Option<Seq<char>>,
    pub internal_authority_version: Option<i64>,
    pub internal_authority_digest: Option<Seq<char>>,
    pub execution_is_bound: bool,
    pub candidate_digest: Seq<char>,
    pub service_envelope_digest: Seq<char>,
}

impl View for UpgradeRow {
    type V = UpgradeRowView;

    open spec fn view(&self) -> UpgradeRowView {
        UpgradeRowView {
            task_uid: self.task_uid@,
            operation_id: self.operation_id@,
            idempotency_key: self.idempotency_key@,
            workflow: self.workflow@,
            runtime_name: self.runtime_name@,
            phase: self.phase@,
            finalized: self.finalized,
            workflow_name: option_text(self.workflow_name),
            workflow_version: self.workflow_version,
            workflow_digest: option_text(self.workflow_digest),
            user_envelope_instance_id: option_text(self.user_envelope_instance_id),
            user_envelope_revision: self.user_envelope_revision,
            user_envelope_digest: option_text(self.user_envelope_digest),
            internal_authority_id: option_text(self.internal_authority_id),
            internal_authority_version: self.internal_authority_version,
            internal_authority_digest: option_text(self.internal_authority_digest),
            execution_is_bound: self.execution_is_bound,
            candidate_digest: self.candidate_digest@,
            service_envelope_digest: self.service_envelope_digest@,
        }
    }
}

/// A number in twelve decimal digits, or more where it needs them.
pub open spec fn twelve_digits(n: nat) -> Seq<char> {
    let digits = decimal_digits(n);
    if digits.len() < 12 {
        repeated('0', (12 - digits.len()) as nat) + digits
    } else {
        digits
    }
}

/// The identifier that ends in a number.
pub open spec fn numbered_uid(n: nat) -> Seq<char> {
    "00000000-0000-0000-0000-"@ + twelve_digits(n)
}

/// The identifier that ends in a number.
pub fn numbered(n: u128) -> (uid: String)
    ensures
        uid@ == numbered_uid(n as nat),
{
    let digits = decimal(n);
    let width: usize = digits.as_str().unicode_len();
    proof {
        reveal_strlit("0");
    }
    let zeros = if width < 12 {
        repeat("0", 12 - width)
    } else {
        String::new()
    };
    let mut uid = concat2("00000000-0000-0000-0000-", zeros.as_str());
    uid.append(digits.as_str());
    assert(uid@ =~= numbered_uid(n as nat));
    uid
}

/// An optional text that is there under a condition.
pub open spec fn text_if(condition: bool, words: Seq<char>) -> Option<Seq<char>> {
    if condition {
        Some(words)
    } else {
        None
    }
}

/// An optional number that is there under a condition.
pub open spec fn number_if(condition: bool, n: i64) -> Option<i64> {
    if condition {
        Some(n)
    } else {
        None
    }
}

/// A Task of the earlier release. Only a Task of a person has a workflow and an envelope, only an
/// internal one has an internal authority.
pub open spec fn row_view(
    task_number: u64,
    idempotency_key: Seq<char>,
    workflow: Seq<char>,
    finalized: bool,
    authority: LegacyAuthority,
) -> UpgradeRowView {
    let user = authority == LegacyAuthority::User;
    let internal = authority == LegacyAuthority::Internal;
    UpgradeRowView {
        task_uid: numbered_uid(task_number as nat),
        operation_id: numbered_uid((task_number + 1000) as nat),
        idempotency_key,
        workflow,
        runtime_name: "task-"@ + decimal_digits(task_number as nat),
        phase: if finalized {
            "succeeded"@
        } else {
            "submitted"@
        },
        finalized,
        workflow_name: text_if(user, "release-summary"@),
        workflow_version: number_if(user, 1),
        workflow_digest: text_if(user, stand_in_digest('e')),
        user_envelope_instance_id: text_if(user, "envelope-instance-7"@),
        user_envelope_revision: number_if(user, 7),
        user_envelope_digest: text_if(user, stand_in_digest('b')),
        internal_authority_id: text_if(internal, "connections.github.status"@),
        internal_authority_version: number_if(internal, 1),
        internal_authority_digest: text_if(internal, stand_in_digest('d')),
        execution_is_bound: user,
        candidate_digest: stand_in_digest('f'),
        service_envelope_digest: stand_in_digest('c'),
    }
}

/// A text that is there under a condition.
fn when(condition: bool, words: &str) -> (found: Option<String>)
    ensures
        option_text(found) == text_if(condition, words@),
{
    if condition {
        Some(words.to_owned())
    } else {
        None
    }
}

/// A number that is there under a condition.
fn count_when(condition: bool, n: i64) -> (found: Option<i64>)
    ensures
        found == number_if(condition, n),
{
    if condition {
        Some(n)
    } else {
        None
    }
}

/// A Task of the earlier release.
pub fn upgrade_row(
    task_number: u64,
    idempotency_key: &str,
    workflow: &str,
    finalized: bool,
    authority: LegacyAuthority,
) -> (row: UpgradeRow)
    ensures
        row@ == row_view(task_number, idempotency_key@, workflow@, finalized, authority),
{
    proof {
        reveal_strlit("b");
        reveal_strlit("c");
        reveal_strlit("d");
        reveal_strlit("e");
        reveal_strlit("f");
    }
    let user = authority == LegacyAuthority::User;
    let internal = authority == LegacyAuthority::Internal;
    let digits = decimal(task_number as u128);
    let phase = if finalized {
        "succeeded"
    } else {
        "submitted"
    };
    UpgradeRow {
        task_uid: numbered(task_number as u128),
        operation_id: numbered(task_number as u128 + 1000),
        idempotency_key: idempotency_key.to_owned(),
        workflow: workflow.to_owned(),
        runtime_name: concat2("task-", digits.as_str()),
        phase: phase.to_owned(),
        finalized,
        workflow_name: when(user, "release-summary"),
        workflow_version: count_when(user, 1),
        workflow_digest: when(user, stand_in("e").as_str()),
        user_envelope_instance_id: when(user, "envelope-instance-7"),
        user_envelope_revision: count_when(user, 7),
        user_envelope_digest: when(user, stand_in("b").as_str()),
        internal_authority_id: when(internal, "connections.github.status"),
        internal_authority_version: count_when(internal, 1),
        internal_authority_digest: when(internal, stand_in("d").as_str()),
        execution_is_bound: user,
        candidate_digest: stand_in("f"),
        service_envelope_digest: stand_in("c"),
    }
}

/// The Tasks of the earlier release: unfinished ones of each authority, and a finished one.
pub open spec fn fixture_rows() -> Seq<UpgradeRowView> {
    seq![
        row_view(1, "legacy-unfinished"@, "legacy-smoke"@, false, LegacyAuthority::Legacy),
        row_view(2, "user-unfinished"@, "release-summary@1"@, false, LegacyAuthority::User),
        row_view(
            3,
            "internal-unfinished"@,
            "connections.github.status"@,
            false,
            LegacyAuthority::Internal,
        ),
        row_view(4, "legacy-terminal"@, "legacy-history"@, true, LegacyAuthority::Legacy),
    ]
}

/// The views of rows.
pub open spec fn row_views(rows: Seq<UpgradeRow>) -> Seq<UpgradeRowView> {
    Seq::new(rows.len(), |i: int| rows[i]@)
}

/// The Tasks of the earlier release.
pub fn seed_v0123_upgrade_fixture() -> (rows: Vec<UpgradeRow>)
    ensures
        row_views(rows@) == fixture_rows(),
{
    let rows: Vec<UpgradeRow> = vec![
        upgrade_row(1, "legacy-unfinished", "legacy-smoke", false, LegacyAuthority::Legacy),
        upgrade_row(2, "user-unfinished", "release-summary@1", false, LegacyAuthority::User),
        upgrade_row(
            3,
            "internal-unfinished",
            "connections.github.status",
            false,
            LegacyAuthority::Internal,
        ),
        upgrade_row(4, "legacy-terminal", "legacy-history", true, LegacyAuthority::Legacy),
    ];
    assert(row_views(rows@) =~= fixture_rows());
    rows
}

/// The row names one authority completely: that of a person or an internal one, and not both.
pub open spec fn has_one_authority(row: UpgradeRowView) -> bool {
    let user = row.workflow_name is Some && row.workflow_version is Some && row.workflow_digest
        is Some && row.user_envelope_instance_id is Some && row.user_envelope_revision is Some
        && row.user_envelope_digest is Some && row.execution_is_bound;
    let no_user = row.workflow_name is None && row.workflow_version is None && row.workflow_digest
        is None && row.user_envelope_instance_id is None && row.user_envelope_revision is None
        && row.user_envelope_digest is None && !row.execution_is_bound;
    let internal = row.internal_authority_id is Some && row.internal_authority_version is Some
        && row.internal_authority_digest is Some;
    let no_internal = row.internal_authority_id is None && row.internal_authority_version is None
        && row.internal_authority_digest is None;
    (user && no_internal) || (no_user && internal)
}

/// A Task of the earlier release names one authority completely, unless it is a legacy one, which
/// names none: an upgrade that asks for one has to refuse it while it is unfinished.
pub proof fn law_only_legacy_rows_lack_authority(
    task_number: u64,
    idempotency_key: Seq<char>,
    workflow: Seq<char>,
    finalized: bool,
    authority: LegacyAuthority,
)
    ensures
        has_one_authority(row_view(task_number, idempotency_key, workflow, finalized, authority))
            <==> authority != LegacyAuthority::Legacy,
{
}

/// The envelope that was approved before the upgrade.
pub open spec fn approved_envelope_tree() -> JsonTree {
    let none = Seq::<JsonTree>::empty();
    let model = Map::<Seq<char>, JsonTree>::empty().insert(
        "provider"@,
        JsonTree::Text("provider-a"@),
    ).insert("model"@, JsonTree::Text("model-a"@));
    let budget = Map::<Seq<char>, JsonTree>::empty().insert(
        "monthlyLimit"@,
        JsonTree::Text("100.00"@),
    ).insert("currency"@, JsonTree::Text("USD"@));
    let runner = Map::<Seq<char>, JsonTree>::empty().insert(
        "platforms"@,
        JsonTree::Array(seq![JsonTree::Text("linux"@)]),
    ).insert("architectures"@, JsonTree::Array(none));
    let spec_members = Map::<Seq<char>, JsonTree>::empty().insert(
        "llms"@,
        JsonTree::Array(seq![JsonTree::Object(model)]),
    ).insert("tools"@, JsonTree::Array(none)).insert("budget"@, JsonTree::Object(budget)).insert(
        "ttl"@,
        JsonTree::Text("24h"@),
    ).insert("runner"@, JsonTree::Object(runner));
    JsonTree::Object(
        Map::empty().insert("revision"@, number_tree(7)).insert(
            "spec"@,
            JsonTree::Object(spec_members),
        ),
    )
}

/// The envelope that was approved before the upgrade.
pub fn approved_envelope() -> (envelope: serde_json::Value)
    ensures
        json_tree(envelope) == approved_envelope_tree(),
{
    let mut model = object();
    put(&mut model, "provider", text("provider-a"));
    put(&mut model, "model", text("model-a"));
    let models: Vec<serde_json::Value> = vec![model];
    assert(json_trees(models@) =~= seq![json_tree(model)]);
    let tools: Vec<serde_json::Value> = Vec::new();
    assert(json_trees(tools@) =~= Seq::empty());
    let mut budget = object();
    put(&mut budget, "monthlyLimit", text("100.00"));
    put(&mut budget, "currency", text("USD"));
    let platforms: Vec<serde_json::Value> = vec![text("linux")];
    assert(json_trees(platforms@) =~= seq![JsonTree::Text("linux"@)]);
    let architectures: Vec<serde_json::Value> = Vec::new();
    assert(json_trees(architectures@) =~= Seq::empty());
    let mut runner = object();
    put(&mut runner, "platforms", array(platforms));
    put(&mut runner, "architectures", array(architectures));
    let mut spec_value = object();
    put(&mut spec_value, "llms", array(models));
    put(&mut spec_value, "tools", array(tools));
    put(&mut spec_value, "budget", budget);
    put(&mut spec_value, "ttl", text("24h"));
    put(&mut spec_value, "runner", runner);
    let mut envelope = object();
    put(&mut envelope, "revision", number(7));
    put(&mut envelope, "spec", spec_value);
    envelope
}

/// What the Tasks of the earlier release run: nothing but their binding to Alice is known.
pub fn upgrade_runtime_spec() -> (written_spec: serde_json::Value)
    ensures
        json_tree(written_spec) == JsonTree::Object(
            Map::empty().insert("canonicalAuthority"@, authority_tree(ALICE_CANONICAL_USER@)),
        ),
{
    let mut binding = object();
    put(&mut binding, "schemaVersion", text("steward/canonical-authority-binding/v1"));
    put(&mut binding, "ownerUserId", text(ALICE_CANONICAL_USER));
    put(&mut binding, "actingUserId", text(ALICE_CANONICAL_USER));
    let mut written_spec = object();
    put(&mut written_spec, "canonicalAuthority", binding);
    written_spec
}

/// A Task of a person or an internal Task, as the upgrade left it.
pub struct UpgradedTask {
    pub orchestration_version: i16,
    pub authority_kind: Option<String>,
    pub user_envelope_snapshot: Option<serde_json::Value>,
    pub service_envelope_digest: Option<String>,
}

/// The revision of the envelope that a Task was upgraded with.
pub open spec fn snapshot_revision(task: UpgradedTask) -> Option<u64> {
    match task.user_envelope_snapshot {
        Some(snapshot) => tree_u64(member_tree(json_tree(snapshot), "revision"@)),
        None => None,
    }
}

/// What the upgrade has to make of the Tasks of the earlier release.
pub open spec fn upgraded_as_promised(
    user: UpgradedTask,
    internal: UpgradedTask,
    historical: (i16, Option<Seq<char>>, bool),
) -> bool {
    &&& user.orchestration_version == 3
    &&& option_text(user.authority_kind) == Some("user-envelope"@)
    &&& snapshot_revision(user) == Some(7u64)
    &&& user.service_envelope_digest is None
    &&& internal.orchestration_version == 3
    &&& option_text(internal.authority_kind) == Some("internal"@)
    &&& internal.service_envelope_digest is None
    &&& historical.0 == 2
    &&& historical.1 is None
    &&& historical.2
}

/// Whether an optional text is there and says something.
fn says(text: &Option<String>, words: &str) -> (same: bool)
    ensures
        same == (option_text(*text) == Some(words@)),
{
    match text {
        Some(found) => same_text(found.as_str(), words),
        None => false,
    }
}

/// Whether the upgrade made of the Tasks of the earlier release what it has to: the unfinished
/// ones got the new orchestration under the one authority that they had, without the envelope of
/// their service, and the finished one stayed as it was.
pub fn assert_v02_upgrade_result(
    user: &UpgradedTask,
    internal: &UpgradedTask,
    historical_version: i16,
    historical_authority_kind: &Option<String>,
    historical_finalized: bool,
) -> (promised: bool)
    ensures
        promised == upgraded_as_promised(
            *user,
            *internal,
            (historical_version, option_text(*historical_authority_kind), historical_finalized),
        ),
{
    let revision: Option<u64> = match &user.user_envelope_snapshot {
        Some(snapshot) => match member(snapshot, "revision") {
            Some(found) => as_number(found),
            None => None,
        },
        None => None,
    };
    let pinned = match revision {
        Some(found) => found == 7,
        None => false,
    };
    user.orchestration_version == 3 && says(&user.authority_kind, "user-envelope") && pinned
        && user.service_envelope_digest.is_none() && internal.orchestration_version == 3 && says(
        &internal.authority_kind,
        "internal",
    ) && internal.service_envelope_digest.is_none() && historical_version == 2
        && historical_authority_kind.is_none() && historical_finalized
}

/// The migrations that run do so once each and in their order.
pub proof fn law_kept_migrations_run_once_and_in_order(
    versions: Seq<i64>,
    maximum: Option<i64>,
    count: int,
)
    requires
        0 <= count <= versions.len(),
    ensures
        forall|i: int, j: int|
            0 <= i < j < kept(versions, maximum, count).len() ==> #[trigger] kept(
                versions,
                maximum,
                count,
            )[i] < #[trigger] kept(versions, maximum, count)[j],
        forall|i: int|
            0 <= i < kept(versions, maximum, count).len() ==> 0 <= #[trigger] kept(
                versions,
                maximum,
                count,
            )[i] < count,
        forall|version: i64, limit: i64|
            (#[trigger] runs_under(version, Some(limit)) <==> version <= limit) && runs_under(
                version,
                None,
            ),
    decreases count,
{
    if count > 0 {
        law_kept_migrations_run_once_and_in_order(versions, maximum, count - 1);
        let before = kept(versions, maximum, count - 1);
        let all = kept(versions, maximum, count);
        assert forall|i: int| 0 <= i < all.len() implies 0 <= #[trigger] all[i] < count by {
            if i < before.len() {
                assert(all[i] == before[i]);
            }
        }
        assert forall|i: int, j: int| 0 <= i < j < all.len() implies #[trigger] all[i]
            < #[trigger] all[j] by {
            assert(all[i] == before[i]);
            if j < before.len() {
                assert(all[j] == before[j]);
            }
        }
    }
}

/// A numbered identifier ends in its number, written in at least twelve digits.
pub proof fn law_numbered_identifiers_end_in_their_number(n: nat)
    ensures
        numbered_uid(n).take(24) == "00000000-0000-0000-0000-"@,
        numbered_uid(n).len() >= 36,
        crate::text::all_digits(numbered_uid(n).skip(24)),
        crate::text::digits_value(numbered_uid(n).skip(24)) == n,
{
    reveal_strlit("00000000-0000-0000-0000-");
    let digits = decimal_digits(n);
    crate::text::lemma_decimal_digits(n);
    assert(numbered_uid(n).take(24) =~= "00000000-0000-0000-0000-"@);
    assert(numbered_uid(n).skip(24) =~= twelve_digits(n));
    if digits.len() < 12 {
        let zeros = (12 - digits.len()) as nat;
        lemma_leading_zeros(digits, zeros);
    }
}

/// Zeros before a number do not change it.
proof fn lemma_leading_zeros(digits: Seq<char>, zeros: nat)
    requires
        crate::text::all_digits(digits),
    ensures
        crate::text::all_digits(repeated('0', zeros) + digits),
        crate::text::digits_value(repeated('0', zeros) + digits) == crate::text::digits_value(
            digits,
        ),
{
    let whole = repeated('0', zeros) + digits;
    assert forall|i: int| 0 <= i < whole.len() implies '0' <= #[trigger] whole[i] <= '9' by {
        if i >= zeros {
            assert(whole[i] == digits[i - zeros]);
        }
    }
    lemma_zeros_add_nothing(digits, zeros);
}

/// Zeros before digits add nothing to what they write.
proof fn lemma_zeros_add_nothing(digits: Seq<char>, zeros: nat)
    ensures
        crate::text::digits_value(repeated('0', zeros) + digits) == crate::text::digits_value(
            digits,
        ),
    decreases digits.len() + zeros,
{
    let whole = repeated('0', zeros) + digits;
    if digits.len() > 0 {
        assert(whole.drop_last() =~= repeated('0', zeros) + digits.drop_last());
        assert(whole.last() == digits.last());
        lemma_zeros_add_nothing(digits.drop_last(), zeros);
    } else if zeros > 0 {
        assert(whole.drop_last() =~= repeated('0', (zeros - 1) as nat) + digits);
        assert(whole.last() == '0');
        lemma_zeros_add_nothing(digits, (zeros - 1) as nat);
    } else {
        assert(whole =~= digits);
    }
}

/// A row of the earlier release is told by its number, is submitted until it is finished, and names
/// what its authority has: a person's workflow and envelope, or the internal authority.
pub proof fn law_rows_name_what_their_authority_has(
    n: u64,
    key: Seq<char>,
    workflow: Seq<char>,
    finalized: bool,
    authority: LegacyAuthority,
)
    ensures
        ({
            let row = row_view(n, key, workflow, finalized, authority);
            let user = authority == LegacyAuthority::User;
            let internal = authority == LegacyAuthority::Internal;
            &&& row.task_uid == numbered_uid(n as nat)
            &&& row.operation_id == numbered_uid((n + 1000) as nat)
            &&& row.runtime_name == "task-"@ + decimal_digits(n as nat)
            &&& row.idempotency_key == key && row.workflow == workflow
            &&& row.finalized == finalized
            &&& finalized ==> row.phase == "succeeded"@
            &&& !finalized ==> row.phase == "submitted"@
            &&& row.workflow_name == (if user { Some("release-summary"@) } else { None })
            &&& row.workflow_version == (if user { Some(1i64) } else { None })
            &&& row.user_envelope_instance_id == (if user { Some("envelope-instance-7"@) } else { None })
            &&& row.user_envelope_revision == (if user { Some(7i64) } else { None })
            &&& row.workflow_digest is Some <==> user
            &&& row.user_envelope_digest is Some <==> user
            &&& row.execution_is_bound <==> user
            &&& row.internal_authority_id == (if internal { Some("connections.github.status"@) } else { None })
            &&& row.internal_authority_version == (if internal { Some(1i64) } else { None })
            &&& row.internal_authority_digest is Some <==> internal
        }),
{
}

/// An upgrade is as promised only where each unfinished Task got the new orchestration under the
/// one authority that it had, the person's with the revision of the envelope that was approved, none
/// of them kept the envelope of its service, and what was finished stayed as it was.
pub proof fn law_upgrades_keep_the_authority_of_tasks(
    user: UpgradedTask,
    internal: UpgradedTask,
    version: i16,
    kind: Option<Seq<char>>,
    finalized: bool,
)
    requires
        upgraded_as_promised(user, internal, (version, kind, finalized)),
    ensures
        user.orchestration_version == internal.orchestration_version,
        version + 1 == user.orchestration_version,
        user.orchestration_version == 3,
        user.authority_kind matches Some(words) && words@ == "user-envelope"@,
        internal.authority_kind matches Some(words) && words@ == "internal"@,
        user.service_envelope_digest is None && internal.service_envelope_digest is None,
        user.user_envelope_snapshot is Some,
        tree_u64(member_tree(json_tree(user.user_envelope_snapshot->Some_0), "revision"@)) == Some(
            7u64,
        ),
        member_tree(approved_envelope_tree(), "revision"@) == Some(number_tree(7)),
        kind is None && finalized,
{
    reveal_strlit("revision");
    reveal_strlit("spec");
    assert("revision"@.len() == 8 && "spec"@.len() == 4);
}

} // verus!
