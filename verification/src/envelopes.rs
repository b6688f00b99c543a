//! Envelopes, which say what runtimes may ask for, and the specs and envelopes that the suites
//! start from.
use crate::runtimes::{
    copy_models, copy_tools, model_views, tool_views, Budget, BudgetView, CanonicalAuthority,
    CanonicalAuthorityView, ModelRef, ModelRefView, Principal, PrincipalView, RunnerRequirements,
    RunnerRequirementsView, RuntimeSpec, RuntimeSpecView, ToolGrant, ToolGrantView,
};
use vstd::prelude::*;

verus! {

/// What an envelope admits. Without `runner` it admits the default runner.
pub struct EnvelopeSpec {
    pub llms: Vec<ModelRef>,
    pub tools: Vec<ToolGrant>,
    pub budget: Budget,
    pub ttl: String,
    pub runner: Option<RunnerRequirements>,
}

/// A revision of an envelope.
pub struct Envelope {
    pub revision: i64,
    pub spec: EnvelopeSpec,
}

#[verifier::ext_equal]
pub ghost struct EnvelopeSpecView {
    pub llms: Seq<ModelRefView>,
    pub tools: Seq<ToolGrantView>,
    pub budget: BudgetView,
    pub ttl: Seq<char>,
    pub runner: Option<RunnerRequirementsView>,
}

pub ghost struct EnvelopeView {
    pub revision: i64,
    pub spec: EnvelopeSpecView,
}

impl View for EnvelopeSpec {
    type V = EnvelopeSpecView;

    open spec fn view(&self) -> EnvelopeSpecView {
        EnvelopeSpecView {
            llms: model_views(self.llms@),
            tools: tool_views(self.tools@),
            budget: self.budget@,
            ttl: self.ttl@,
            runner: match self.runner {
                Some(runner) => Some(runner@),
                None => None,
            },
        }
    }
}

impl View for Envelope {
    type V = EnvelopeView;

    open spec fn view(&self) -> EnvelopeView {
        EnvelopeView { revision: self.revision, spec: self.spec@ }
    }
}

impl Envelope {
    /// The same envelope.
    pub fn copy(&self) -> (copy: Envelope)
        ensures
            copy@ == self@,
    {
        Envelope {
            revision: self.revision,
            spec: EnvelopeSpec {
                llms: copy_models(&self.spec.llms),
                tools: copy_tools(&self.spec.tools),
                budget: self.spec.budget.copy(),
                ttl: self.spec.ttl.clone(),
                runner: match &self.spec.runner {
                    Some(runner) => Some(runner.copy()),
                    None => None,
                },
            },
        }
    }
}

/// What a spec asks for beyond an envelope.
pub enum AdmissionDelta {
    Budget { requested: String, ceiling: String, currency: String },
    Ttl { requested: String, ceiling: String },
}

/// Whether a spec is admitted by an envelope.
pub enum AdmissionDecision {
    Admit,
    Reject { deltas: Vec<AdmissionDelta> },
}

/// A budget in US dollars without a limit of a single run.
pub open spec fn dollars(monthly_limit: Seq<char>) -> BudgetView {
    BudgetView { monthly_limit, single_run_limit: None, currency: "USD"@ }
}

/// What Alice proposes to run.
pub open spec fn proposed_view() -> RuntimeSpecView {
    RuntimeSpecView {
        principal: PrincipalView::User { acting_user: "alice@example.com"@ },
        owner: "alice@example.com"@,
        canonical_authority: None,
        agent_type: "base"@,
        llms: seq![ModelRefView { provider: "provider-a"@, model: "model-a"@ }],
        tools: Seq::empty(),
        budget: dollars("220.00"@),
        ttl: "24h"@,
        runner: None,
        bindings: None,
    }
}

/// The one model that the suites use.
fn model_a() -> (models: Vec<ModelRef>)
    ensures
        model_views(models@) == seq![ModelRefView { provider: "provider-a"@, model: "model-a"@ }],
{
    let models: Vec<ModelRef> = vec![
        ModelRef { provider: "provider-a".to_owned(), model: "model-a".to_owned() },
    ];
    assert(model_views(models@) =~= seq![
        ModelRefView { provider: "provider-a"@, model: "model-a"@ },
    ]);
    models
}

/// What Alice proposes to run.
pub fn proposed_spec() -> (spec: RuntimeSpec)
    ensures
        spec@ == proposed_view(),
{
    let tools: Vec<ToolGrant> = Vec::new();
    assert(tool_views(tools@) =~= Seq::empty());
    RuntimeSpec {
        principal: Principal::User { acting_user: "alice@example.com".to_owned() },
        owner: "alice@example.com".to_owned(),
        canonical_authority: None,
        agent_type: "base".to_owned(),
        llms: model_a(),
        tools,
        budget: Budget {
            monthly_limit: "220.00".to_owned(),
            single_run_limit: None,
            currency: "USD".to_owned(),
        },
        ttl: "24h".to_owned(),
        runner: None,
        bindings: None,
    }
}

/// What Alice runs within the envelope.
pub fn base_spec() -> (spec: RuntimeSpec)
    ensures
        spec@ == (RuntimeSpecView { budget: dollars("100.00"@), ..proposed_view() }),
{
    let mut spec = proposed_spec();
    spec.budget.monthly_limit = "100.00".to_owned();
    spec
}

/// The envelope with a limit.
pub open spec fn envelope_view(member_limit: Seq<char>, revision: i64) -> EnvelopeView {
    EnvelopeView {
        revision,
        spec: EnvelopeSpecView {
            llms: proposed_view().llms,
            tools: proposed_view().tools,
            budget: dollars(member_limit),
            ttl: proposed_view().ttl,
            runner: None,
        },
    }
}

/// The envelope with a limit, which admits what is proposed but for its budget.
pub fn envelope(member_limit: &str, revision: i64) -> (envelope: Envelope)
    ensures
        envelope@ == envelope_view(member_limit@, revision),
{
    let spec = proposed_spec();
    Envelope {
        revision,
        spec: EnvelopeSpec {
            llms: spec.llms,
            tools: spec.tools,
            budget: Budget {
                monthly_limit: member_limit.to_owned(),
                single_run_limit: None,
                currency: spec.budget.currency,
            },
            ttl: spec.ttl,
            runner: None,
        },
    }
}

/// By how much what is proposed exceeds the envelope of two hundred dollars.
pub fn budget_deltas() -> (deltas: Vec<AdmissionDelta>)
    ensures
        deltas@.len() == 1,
        deltas@[0] matches AdmissionDelta::Budget { requested, ceiling, currency } && requested@
            == proposed_view().budget.monthly_limit && ceiling@ == "200.00"@ && currency@ == "USD"@,
{
    vec![
        AdmissionDelta::Budget {
            requested: "220.00".to_owned(),
            ceiling: "200.00".to_owned(),
            currency: "USD".to_owned(),
        },
    ]
}

/// The envelope of a runtime that runs for long with one tool and no model.
pub open spec fn long_running_view() -> EnvelopeView {
    EnvelopeView {
        revision: 1,
        spec: EnvelopeSpecView {
            llms: Seq::empty(),
            tools: seq![
                ToolGrantView {
                    provider: "github"@,
                    resource: "get_file_contents"@,
                    action: "read"@,
                },
            ],
            budget: dollars("1.00"@),
            ttl: "1h"@,
            runner: None,
        },
    }
}

/// The envelope of a runtime that runs for long with one tool and no model.
pub fn long_running_envelope() -> (envelope: Envelope)
    ensures
        envelope@ == long_running_view(),
{
    let llms: Vec<ModelRef> = Vec::new();
    let tools: Vec<ToolGrant> = vec![
        ToolGrant {
            provider: "github".to_owned(),
            resource: "get_file_contents".to_owned(),
            action: "read".to_owned(),
        },
    ];
    assert(model_views(llms@) =~= Seq::empty());
    assert(tool_views(tools@) =~= seq![
        ToolGrantView { provider: "github"@, resource: "get_file_contents"@, action: "read"@ },
    ]);
    Envelope {
        revision: 1,
        spec: EnvelopeSpec {
            llms,
            tools,
            budget: Budget {
                monthly_limit: "1.00".to_owned(),
                single_run_limit: None,
                currency: "USD".to_owned(),
            },
            ttl: "1h".to_owned(),
            runner: None,
        },
    }
}

/// A spec that does nothing yet: without models and tools, and with no money to spend.
pub open spec fn inert(spec: RuntimeSpecView, envelope: EnvelopeView) -> RuntimeSpecView {
    RuntimeSpecView {
        llms: Seq::empty(),
        tools: Seq::empty(),
        budget: BudgetView {
            monthly_limit: "0"@,
            single_run_limit: Some("0"@),
            currency: envelope.spec.budget.currency,
        },
        ..spec
    }
}

/// A spec that does nothing yet.
pub fn inert_spec(spec: &RuntimeSpec, envelope: &Envelope) -> (inert_spec: RuntimeSpec)
    ensures
        inert_spec@ == inert(spec@, envelope@),
{
    let mut made = spec.copy();
    made.llms = Vec::new();
    made.tools = Vec::new();
    made.budget = Budget {
        monthly_limit: "0".to_owned(),
        single_run_limit: Some("0".to_owned()),
        currency: envelope.spec.budget.currency.clone(),
    };
    assert(model_views(made.llms@) =~= Seq::empty());
    assert(tool_views(made.tools@) =~= Seq::empty());
    made
}

/// A spec that does nothing yet stays the same when it is made inert again, and it keeps whom it
/// acts for.
pub proof fn law_inert_specs_are_inert(spec: RuntimeSpecView, envelope: EnvelopeView)
    ensures
        inert(inert(spec, envelope), envelope) == inert(spec, envelope),
        inert(spec, envelope).principal == spec.principal,
        inert(spec, envelope).owner == spec.owner,
        inert(spec, envelope).canonical_authority == spec.canonical_authority,
        inert(spec, envelope).ttl == spec.ttl,
{
}

/// A spec that a service runs for a person.
pub open spec fn delegated(
    spec: RuntimeSpecView,
    service: Seq<char>,
    email: Seq<char>,
    user_id: Seq<char>,
) -> RuntimeSpecView {
    RuntimeSpecView {
        principal: PrincipalView::Service { name: service, acting_user: Some(email) },
        owner: email,
        canonical_authority: Some(
            CanonicalAuthorityView {
                schema_version: "steward/canonical-authority-binding/v1"@,
                owner_user_id: user_id,
                acting_user_id: Some(user_id),
            },
        ),
        ..spec
    }
}

/// What is proposed, run by a service for a person.
pub fn delegated_spec(service: &str, email: &str, user_id: &str) -> (spec: RuntimeSpec)
    ensures
        spec@ == delegated(proposed_view(), service@, email@, user_id@),
{
    let mut spec = proposed_spec();
    spec.principal = Principal::Service {
        name: service.to_owned(),
        acting_user: Some(email.to_owned()),
    };
    spec.owner = email.to_owned();
    spec.canonical_authority = Some(
        CanonicalAuthority {
            schema_version: "steward/canonical-authority-binding/v1".to_owned(),
            owner_user_id: user_id.to_owned(),
            acting_user_id: Some(user_id.to_owned()),
        },
    );
    spec
}

/// A spec that is made inert can neither ask a model nor call a tool nor spend anything, and is
/// otherwise what it was: whom it acts for, what it is and where it runs stay. Its money is counted
/// in the currency of the envelope.
pub proof fn law_inert_specs_can_do_nothing(spec: RuntimeSpecView, envelope: EnvelopeView)
    ensures
        inert(spec, envelope).llms.len() == 0,
        inert(spec, envelope).tools.len() == 0,
        inert(spec, envelope).budget.monthly_limit == "0"@,
        inert(spec, envelope).budget.single_run_limit == Some("0"@),
        inert(spec, envelope).budget.currency == envelope.spec.budget.currency,
        inert(spec, envelope).principal == spec.principal,
        inert(spec, envelope).owner == spec.owner,
        inert(spec, envelope).canonical_authority == spec.canonical_authority,
        inert(spec, envelope).agent_type == spec.agent_type,
        inert(spec, envelope).ttl == spec.ttl,
        inert(spec, envelope).runner == spec.runner,
        inert(spec, envelope).bindings == spec.bindings,
{
}

/// A delegated spec is run by the service for one person, who owns it, who acts by it and to whom it
/// is bound; what it runs is what it was made from.
pub proof fn law_delegated_specs_act_for_their_owner(
    spec: RuntimeSpecView,
    service: Seq<char>,
    email: Seq<char>,
    user_id: Seq<char>,
)
    ensures
        ({
            let made = delegated(spec, service, email, user_id);
            &&& made.owner == email
            &&& made.principal matches PrincipalView::Service { name, acting_user }
            &&& name == service
            &&& acting_user == Some(made.owner)
            &&& made.canonical_authority matches Some(authority)
            &&& authority.owner_user_id == user_id
            &&& authority.acting_user_id == Some(user_id)
            &&& authority.schema_version == "steward/canonical-authority-binding/v1"@
            &&& made.agent_type == spec.agent_type
            &&& made.llms == spec.llms
            &&& made.tools == spec.tools
            &&& made.budget == spec.budget
            &&& made.ttl == spec.ttl
            &&& made.runner == spec.runner
            &&& made.bindings == spec.bindings
        }),
{
}

/// An envelope admits all of what is proposed but its budget, whose limit is the one that is asked
/// for, in the same currency; only its revision tells two envelopes of one limit apart.
pub proof fn law_envelopes_limit_the_budget_alone(limit: Seq<char>, first: i64, second: i64)
    ensures
        envelope_view(limit, first).revision == first,
        envelope_view(limit, first).spec.budget.monthly_limit == limit,
        envelope_view(limit, first).spec.budget.currency == proposed_view().budget.currency,
        envelope_view(limit, first).spec.budget.single_run_limit is None,
        envelope_view(limit, first).spec.llms == proposed_view().llms,
        envelope_view(limit, first).spec.tools == proposed_view().tools,
        envelope_view(limit, first).spec.ttl == proposed_view().ttl,
        envelope_view(limit, first).spec.runner == proposed_view().runner,
        envelope_view(limit, first).spec == envelope_view(limit, second).spec,
        proposed_view().owner == "alice@example.com"@,
        proposed_view().principal == (PrincipalView::User { acting_user: proposed_view().owner }),
{
}

} // verus!
