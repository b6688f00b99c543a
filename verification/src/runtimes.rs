//! Agent runtimes: their metadata, what they ask for and what is reported of them.
use crate::json::{copy, copy_held, held_tree, json_tree, json_trees, JsonTree};
use crate::text::views;
use vstd::prelude::*;

verus! {

/// Whom a runtime acts for.
#[allow(inconsistent_fields)]
pub enum Principal {
    User { acting_user: String },
    Service { name: String, acting_user: Option<String> },
}

/// The canonical users that a runtime is bound to.
pub struct CanonicalAuthority {
    pub schema_version: String,
    pub owner_user_id: String,
    pub acting_user_id: Option<String>,
}

/// A model of a provider.
pub struct ModelRef {
    pub provider: String,
    pub model: String,
}

/// An action on a resource of a tool provider.
pub struct ToolGrant {
    pub provider: String,
    pub resource: String,
    pub action: String,
}

/// What a runtime may spend.
pub struct Budget {
    pub monthly_limit: String,
    pub single_run_limit: Option<String>,
    pub currency: String,
}

/// Where a runtime may run.
pub struct RunnerRequirements {
    pub platforms: Vec<String>,
    pub architectures: Vec<String>,
}

/// What a runtime asks for. Without `runner` it asks for the default runner. Its bindings are kept
/// as they are written.
pub struct RuntimeSpec {
    pub principal: Principal,
    pub owner: String,
    pub canonical_authority: Option<CanonicalAuthority>,
    pub agent_type: String,
    pub llms: Vec<ModelRef>,
    pub tools: Vec<ToolGrant>,
    pub budget: Budget,
    pub ttl: String,
    pub runner: Option<RunnerRequirements>,
    pub bindings: Option<serde_json::Value>,
}

/// What a runtime is called and which of its states this is.
pub struct RuntimeMetadata {
    pub name: Option<String>,
    pub namespace: Option<String>,
    pub uid: Option<String>,
    pub resource_version: Option<String>,
    pub generation: Option<i64>,
}

/// What was made for a runtime.
pub struct RuntimeRefs {
    pub workspace: Option<String>,
    pub sandbox: Option<String>,
    pub litellm_key: Option<String>,
}

/// What is reported of a runtime.
pub struct RuntimeStatus {
    pub phase: String,
    pub observed_generation: i64,
    pub spec_digest: String,
    pub refs: RuntimeRefs,
    pub conditions: Vec<serde_json::Value>,
    pub spend: Option<serde_json::Value>,
}

/// An agent runtime. Whatever else its document says, such as its annotations, is kept in `rest`
/// and handed on as it is.
pub struct Runtime {
    pub metadata: RuntimeMetadata,
    pub spec: RuntimeSpec,
    pub status: Option<RuntimeStatus>,
    pub rest: serde_json::Value,
}

#[allow(inconsistent_fields)]
pub ghost enum PrincipalView {
    User { acting_user: Seq<char> },
    Service { name: Seq<char>, acting_user: Option<Seq<char>> },
}

pub ghost struct CanonicalAuthorityView {
    pub schema_version: Seq<char>,
    pub owner_user_id: Seq<char>,
    pub acting_user_id: Option<Seq<char>>,
}

pub ghost struct ModelRefView {
    pub provider: Seq<char>,
    pub model: Seq<char>,
}

pub ghost struct ToolGrantView {
    pub provider: Seq<char>,
    pub resource: Seq<char>,
    pub action: Seq<char>,
}

pub ghost struct BudgetView {
    pub monthly_limit: Seq<char>,
    pub single_run_limit: Option<Seq<char>>,
    pub currency: Seq<char>,
}

#[verifier::ext_equal]
pub ghost struct RunnerRequirementsView {
    pub platforms: Seq<Seq<char>>,
    pub architectures: Seq<Seq<char>>,
}

#[verifier::ext_equal]
pub ghost struct RuntimeSpecView {
    pub principal: PrincipalView,
    pub owner: Seq<char>,
    pub canonical_authority: Option<CanonicalAuthorityView>,
    pub agent_type: Seq<char>,
    pub llms: Seq<ModelRefView>,
    pub tools: Seq<ToolGrantView>,
    pub budget: BudgetView,
    pub ttl: Seq<char>,
    pub runner: Option<RunnerRequirementsView>,
    pub bindings: Option<JsonTree>,
}

pub ghost struct RuntimeMetadataView {
    pub name: Option<Seq<char>>,
    pub namespace: Option<Seq<char>>,
    pub uid: Option<Seq<char>>,
    pub resource_version: Option<Seq<char>>,
    pub generation: Option<i64>,
}

pub ghost struct RuntimeRefsView {
    pub workspace: Option<Seq<char>>,
    pub sandbox: Option<Seq<char>>,
    pub litellm_key: Option<Seq<char>>,
}

#[verifier::ext_equal]
pub ghost struct RuntimeStatusView {
    pub phase: Seq<char>,
    pub observed_generation: i64,
    pub spec_digest: Seq<char>,
    pub refs: RuntimeRefsView,
    pub conditions: Seq<JsonTree>,
    pub spend: Option<JsonTree>,
}

pub ghost struct RuntimeView {
    pub metadata: RuntimeMetadataView,
    pub spec: RuntimeSpecView,
    pub status: Option<RuntimeStatusView>,
    pub rest: JsonTree,
}

/// The view of an optional text.
pub open spec fn option_text(text: Option<String>) -> Option<Seq<char>> {
    match text {
        Some(inner) => Some(inner@),
        None => None,
    }
}

impl View for Principal {
    type V = PrincipalView;

    open spec fn view(&self) -> PrincipalView {
        match *self {
            Principal::User { acting_user } => PrincipalView::User { acting_user: acting_user@ },
            Principal::Service { name, acting_user } => PrincipalView::Service {
                name: name@,
                acting_user: option_text(acting_user),
            },
        }
    }
}

impl View for CanonicalAuthority {
    type V = CanonicalAuthorityView;

    open spec fn view(&self) -> CanonicalAuthorityView {
        CanonicalAuthorityView {
            schema_version: self.schema_version@,
            owner_user_id: self.owner_user_id@,
            acting_user_id: option_text(self.acting_user_id),
        }
    }
}

impl View for ModelRef {
    type V = ModelRefView;

    open spec fn view(&self) -> ModelRefView {
        ModelRefView { provider: self.provider@, model: self.model@ }
    }
}

impl View for ToolGrant {
    type V = ToolGrantView;

    open spec fn view(&self) -> ToolGrantView {
        ToolGrantView {
            provider: self.provider@,
            resource: self.resource@,
            action: self.action@,
        }
    }
}

impl View for Budget {
    type V = BudgetView;

    open spec fn view(&self) -> BudgetView {
        BudgetView {
            monthly_limit: self.monthly_limit@,
            single_run_limit: option_text(self.single_run_limit),
            currency: self.currency@,
        }
    }
}

impl View for RunnerRequirements {
    type V = RunnerRequirementsView;

    open spec fn view(&self) -> RunnerRequirementsView {
        RunnerRequirementsView {
            platforms: views(self.platforms@),
            architectures: views(self.architectures@),
        }
    }
}

/// The views of models.
pub open spec fn model_views(models: Seq<ModelRef>) -> Seq<ModelRefView> {
    Seq::new(models.len(), |i: int| models[i]@)
}

/// The views of tool grants.
pub open spec fn tool_views(tools: Seq<ToolGrant>) -> Seq<ToolGrantView> {
    Seq::new(tools.len(), |i: int| tools[i]@)
}

impl View for RuntimeSpec {
    type V = RuntimeSpecView;

    open spec fn view(&self) -> RuntimeSpecView {
        RuntimeSpecView {
            principal: self.principal@,
            owner: self.owner@,
            canonical_authority: match self.canonical_authority {
                Some(authority) => Some(authority@),
                None => None,
            },
            agent_type: self.agent_type@,
            llms: model_views(self.llms@),
            tools: tool_views(self.tools@),
            budget: self.budget@,
            ttl: self.ttl@,
            runner: match self.runner {
                Some(runner) => Some(runner@),
                None => None,
            },
            bindings: held_tree(self.bindings),
        }
    }
}

impl View for RuntimeMetadata {
    type V = RuntimeMetadataView;

    open spec fn view(&self) -> RuntimeMetadataView {
        RuntimeMetadataView {
            name: option_text(self.name),
            namespace: option_text(self.namespace),
            uid: option_text(self.uid),
            resource_version: option_text(self.resource_version),
            generation: self.generation,
        }
    }
}

impl View for RuntimeRefs {
    type V = RuntimeRefsView;

    open spec fn view(&self) -> RuntimeRefsView {
        RuntimeRefsView {
            workspace: option_text(self.workspace),
            sandbox: option_text(self.sandbox),
            litellm_key: option_text(self.litellm_key),
        }
    }
}

impl View for RuntimeStatus {
    type V = RuntimeStatusView;

    open spec fn view(&self) -> RuntimeStatusView {
        RuntimeStatusView {
            phase: self.phase@,
            observed_generation: self.observed_generation,
            spec_digest: self.spec_digest@,
            refs: self.refs@,
            conditions: json_trees(self.conditions@),
            spend: held_tree(self.spend),
        }
    }
}

impl View for Runtime {
    type V = RuntimeView;

    open spec fn view(&self) -> RuntimeView {
        RuntimeView {
            metadata: self.metadata@,
            spec: self.spec@,
            status: match self.status {
                Some(status) => Some(status@),
                None => None,
            },
            rest: json_tree(self.rest),
        }
    }
}

/// A copy of an optional text.
pub fn copy_text(text: &Option<String>) -> (copy: Option<String>)
    ensures
        copy == *text,
{
    match text {
        Some(inner) => Some(inner.clone()),
        None => None,
    }
}

/// A copy of texts.
pub fn copy_texts(texts: &Vec<String>) -> (copy: Vec<String>)
    ensures
        copy@ == texts@,
{
    let mut copy: Vec<String> = Vec::new();
    let mut i: usize = 0;
    while i < texts.len()
        invariant
            i <= texts.len(),
            copy@ == texts@.take(i as int),
        decreases texts.len() - i,
    {
        copy.push(texts[i].clone());
        assert(copy@ =~= texts@.take(i + 1));
        i = i + 1;
    }
    assert(texts@.take(texts@.len() as int) =~= texts@);
    copy
}

impl Principal {
    /// The same principal.
    pub fn copy(&self) -> (copy: Principal)
        ensures
            copy == *self,
    {
        match self {
            Principal::User { acting_user } => Principal::User {
                acting_user: acting_user.clone(),
            },
            Principal::Service { name, acting_user } => Principal::Service {
                name: name.clone(),
                acting_user: copy_text(acting_user),
            },
        }
    }
}

impl CanonicalAuthority {
    /// The same authority.
    pub fn copy(&self) -> (copy: CanonicalAuthority)
        ensures
            copy == *self,
    {
        CanonicalAuthority {
            schema_version: self.schema_version.clone(),
            owner_user_id: self.owner_user_id.clone(),
            acting_user_id: copy_text(&self.acting_user_id),
        }
    }
}

impl ModelRef {
    /// The same model.
    pub fn copy(&self) -> (copy: ModelRef)
        ensures
            copy == *self,
    {
        ModelRef { provider: self.provider.clone(), model: self.model.clone() }
    }
}

impl ToolGrant {
    /// The same grant.
    pub fn copy(&self) -> (copy: ToolGrant)
        ensures
            copy == *self,
    {
        ToolGrant {
            provider: self.provider.clone(),
            resource: self.resource.clone(),
            action: self.action.clone(),
        }
    }
}

impl Budget {
    /// The same budget.
    pub fn copy(&self) -> (copy: Budget)
        ensures
            copy == *self,
    {
        Budget {
            monthly_limit: self.monthly_limit.clone(),
            single_run_limit: copy_text(&self.single_run_limit),
            currency: self.currency.clone(),
        }
    }
}

/// A copy of models.
pub fn copy_models(models: &Vec<ModelRef>) -> (copy: Vec<ModelRef>)
    ensures
        copy@ == models@,
{
    let mut copy: Vec<ModelRef> = Vec::new();
    let mut i: usize = 0;
    while i < models.len()
        invariant
            i <= models.len(),
            copy@ == models@.take(i as int),
        decreases models.len() - i,
    {
        copy.push(models[i].copy());
        assert(copy@ =~= models@.take(i + 1));
        i = i + 1;
    }
    assert(models@.take(models@.len() as int) =~= models@);
    copy
}

/// A copy of tool grants.
pub fn copy_tools(tools: &Vec<ToolGrant>) -> (copy: Vec<ToolGrant>)
    ensures
        copy@ == tools@,
{
    let mut copy: Vec<ToolGrant> = Vec::new();
    let mut i: usize = 0;
    while i < tools.len()
        invariant
            i <= tools.len(),
            copy@ == tools@.take(i as int),
        decreases tools.len() - i,
    {
        copy.push(tools[i].copy());
        assert(copy@ =~= tools@.take(i + 1));
        i = i + 1;
    }
    assert(tools@.take(tools@.len() as int) =~= tools@);
    copy
}

impl RunnerRequirements {
    /// The same requirements.
    pub fn copy(&self) -> (copy: RunnerRequirements)
        ensures
            copy@ == self@,
    {
        RunnerRequirements {
            platforms: copy_texts(&self.platforms),
            architectures: copy_texts(&self.architectures),
        }
    }
}

impl RuntimeSpec {
    /// The same request.
    pub fn copy(&self) -> (copy: RuntimeSpec)
        ensures
            copy@ == self@,
    {
        RuntimeSpec {
            principal: self.principal.copy(),
            owner: self.owner.clone(),
            canonical_authority: match &self.canonical_authority {
                Some(authority) => Some(authority.copy()),
                None => None,
            },
            agent_type: self.agent_type.clone(),
            llms: copy_models(&self.llms),
            tools: copy_tools(&self.tools),
            budget: self.budget.copy(),
            ttl: self.ttl.clone(),
            runner: match &self.runner {
                Some(runner) => Some(runner.copy()),
                None => None,
            },
            bindings: copy_held(&self.bindings),
        }
    }
}

impl RuntimeMetadata {
    /// The same metadata.
    pub fn copy(&self) -> (copy: RuntimeMetadata)
        ensures
            copy == *self,
    {
        RuntimeMetadata {
            name: copy_text(&self.name),
            namespace: copy_text(&self.namespace),
            uid: copy_text(&self.uid),
            resource_version: copy_text(&self.resource_version),
            generation: self.generation,
        }
    }
}

impl RuntimeRefs {
    /// The same references.
    pub fn copy(&self) -> (copy: RuntimeRefs)
        ensures
            copy == *self,
    {
        RuntimeRefs {
            workspace: copy_text(&self.workspace),
            sandbox: copy_text(&self.sandbox),
            litellm_key: copy_text(&self.litellm_key),
        }
    }
}

/// Values that hold the same.
fn copy_values(values: &Vec<serde_json::Value>) -> (copied: Vec<serde_json::Value>)
    ensures
        json_trees(copied@) == json_trees(values@),
{
    let mut copied: Vec<serde_json::Value> = Vec::new();
    let mut i: usize = 0;
    while i < values.len()
        invariant
            i <= values.len(),
            copied@.len() == i,
            forall|j: int|
                0 <= j < i ==> json_tree(#[trigger] copied@[j]) == json_tree(values@[j]),
        decreases values.len() - i,
    {
        copied.push(copy(&values[i]));
        i = i + 1;
    }
    assert(json_trees(copied@) =~= json_trees(values@));
    copied
}

impl RuntimeStatus {
    /// The same report.
    pub fn copy(&self) -> (copy: RuntimeStatus)
        ensures
            copy@ == self@,
    {
        RuntimeStatus {
            phase: self.phase.clone(),
            observed_generation: self.observed_generation,
            spec_digest: self.spec_digest.clone(),
            refs: self.refs.copy(),
            conditions: copy_values(&self.conditions),
            spend: copy_held(&self.spend),
        }
    }
}

impl Runtime {
    /// The same runtime.
    pub fn copy(&self) -> (copy: Runtime)
        ensures
            copy@ == self@,
    {
        Runtime {
            metadata: self.metadata.copy(),
            spec: self.spec.copy(),
            status: match &self.status {
                Some(status) => Some(status.copy()),
                None => None,
            },
            rest: copy(&self.rest),
        }
    }
}

} // verus!
