//! The manifests of the runtimes that the suites apply, and the tool calls that are made in them.
use crate::envelopes::AdmissionDecision;
use crate::harness::Suite;
use crate::identities::{authority_tree, canonical_authority, canonical_user};
use crate::json::{
    array, inner_tree, json_pretty, json_text, json_tree, json_trees, member_tree, null, number,
    number_tree, object, put, render, render_pretty, text, JsonTree,
};
use crate::text::{concat2, concat3};
use vstd::prelude::*;

verus! {

/// The version of the API of runtimes.
pub const API_VERSION: &'static str = "agents.apelogic.ai/v1alpha1";

/// The annotation that names the role of the member who runs a runtime.
pub const MEMBER_ROLE: &'static str = "agents.apelogic.ai/member-role";

/// The annotation that names the service that runs a runtime.
pub const SERVICE_PRINCIPAL: &'static str = "agents.apelogic.ai/service-principal";

/// What a manifest says of its runtime.
pub ghost struct ManifestView {
    pub api_version: Seq<char>,
    pub name: Seq<char>,
    pub namespace: Seq<char>,
    pub annotation: Option<(Seq<char>, Seq<char>)>,
    pub principal: JsonTree,
    pub owner: Seq<char>,
    pub authority: Option<JsonTree>,
    pub llms: Seq<JsonTree>,
    pub tools: Seq<JsonTree>,
    pub monthly_limit: Seq<char>,
    pub ttl: Seq<char>,
}

/// The metadata in a manifest.
pub open spec fn metadata_tree(manifest: ManifestView) -> JsonTree {
    let named = Map::<Seq<char>, JsonTree>::empty().insert(
        "name"@,
        JsonTree::Text(manifest.name),
    ).insert("namespace"@, JsonTree::Text(manifest.namespace));
    JsonTree::Object(
        match manifest.annotation {
            Some((key, value)) => named.insert(
                "annotations"@,
                JsonTree::Object(Map::empty().insert(key, JsonTree::Text(value))),
            ),
            None => named,
        },
    )
}

/// The spec in a manifest.
pub open spec fn spec_tree(manifest: ManifestView) -> JsonTree {
    let budget = Map::<Seq<char>, JsonTree>::empty().insert(
        "monthlyLimit"@,
        JsonTree::Text(manifest.monthly_limit),
    ).insert("currency"@, JsonTree::Text("USD"@));
    let agent = Map::<Seq<char>, JsonTree>::empty().insert("name"@, JsonTree::Text("base"@));
    let members = Map::<Seq<char>, JsonTree>::empty().insert(
        "principal"@,
        manifest.principal,
    ).insert("owner"@, JsonTree::Text(manifest.owner)).insert(
        "agentType"@,
        JsonTree::Object(agent),
    ).insert("llms"@, JsonTree::Array(manifest.llms)).insert(
        "tools"@,
        JsonTree::Array(manifest.tools),
    ).insert("budget"@, JsonTree::Object(budget)).insert("ttl"@, JsonTree::Text(manifest.ttl));
    JsonTree::Object(
        match manifest.authority {
            Some(tree) => members.insert("canonicalAuthority"@, tree),
            None => members,
        },
    )
}

/// A manifest.
pub open spec fn manifest_tree(manifest: ManifestView) -> JsonTree {
    JsonTree::Object(
        Map::empty().insert("apiVersion"@, JsonTree::Text(manifest.api_version)).insert(
            "kind"@,
            JsonTree::Text("AgentRuntime"@),
        ).insert("metadata"@, metadata_tree(manifest)).insert("spec"@, spec_tree(manifest)),
    )
}

/// The principal of a runtime that a person runs.
pub open spec fn user_tree(acting_user: Seq<char>) -> JsonTree {
    JsonTree::Object(
        Map::empty().insert("kind"@, JsonTree::Text("user"@)).insert(
            "actingUser"@,
            JsonTree::Text(acting_user),
        ),
    )
}

/// The principal of a runtime that a service runs, for a person or for nobody.
pub open spec fn service_tree(service: Seq<char>, acting_user: Option<Seq<char>>) -> JsonTree {
    let members = Map::<Seq<char>, JsonTree>::empty().insert(
        "kind"@,
        JsonTree::Text("service"@),
    ).insert("name"@, JsonTree::Text(service));
    JsonTree::Object(
        match acting_user {
            Some(user) => members.insert("actingUser"@, JsonTree::Text(user)),
            None => members,
        },
    )
}

/// A model in a manifest.
pub open spec fn model_tree(provider: Seq<char>, model: Seq<char>) -> JsonTree {
    JsonTree::Object(
        Map::empty().insert("provider"@, JsonTree::Text(provider)).insert(
            "model"@,
            JsonTree::Text(model),
        ),
    )
}

/// A tool of GitHub that may be read, in a manifest.
pub open spec fn tool_tree(resource: Seq<char>) -> JsonTree {
    JsonTree::Object(
        Map::empty().insert("provider"@, JsonTree::Text("github"@)).insert(
            "resource"@,
            JsonTree::Text(resource),
        ).insert("action"@, JsonTree::Text("read"@)),
    )
}

/// The principal of a runtime that a person runs.
fn user_principal(acting_user: &str) -> (principal: serde_json::Value)
    ensures
        json_tree(principal) == user_tree(acting_user@),
{
    let mut principal = object();
    put(&mut principal, "kind", text("user"));
    put(&mut principal, "actingUser", text(acting_user));
    principal
}

/// One model.
fn one_model(provider: &str, model: &str) -> (models: Vec<serde_json::Value>)
    ensures
        json_trees(models@) == seq![model_tree(provider@, model@)],
{
    let mut value = object();
    put(&mut value, "provider", text(provider));
    put(&mut value, "model", text(model));
    let models: Vec<serde_json::Value> = vec![value];
    assert(json_trees(models@) =~= seq![model_tree(provider@, model@)]);
    models
}

/// One tool.
fn one_tool(resource: &str) -> (tools: Vec<serde_json::Value>)
    ensures
        json_trees(tools@) == seq![tool_tree(resource@)],
{
    let mut value = object();
    put(&mut value, "provider", text("github"));
    put(&mut value, "resource", text(resource));
    put(&mut value, "action", text("read"));
    let tools: Vec<serde_json::Value> = vec![value];
    assert(json_trees(tools@) =~= seq![tool_tree(resource@)]);
    tools
}

/// Nothing.
fn nothing() -> (values: Vec<serde_json::Value>)
    ensures
        json_trees(values@) == Seq::<JsonTree>::empty(),
{
    let values: Vec<serde_json::Value> = Vec::new();
    assert(json_trees(values@) =~= Seq::empty());
    values
}

/// What a manifest says of its runtime.
struct Manifest<'a> {
    api_version: &'a str,
    name: &'a str,
    namespace: &'a str,
    annotation: Option<(&'a str, &'a str)>,
    principal: serde_json::Value,
    owner: &'a str,
    authority: Option<serde_json::Value>,
    llms: Vec<serde_json::Value>,
    tools: Vec<serde_json::Value>,
    monthly_limit: &'a str,
    ttl: &'a str,
}

impl<'a> Manifest<'a> {
    spec fn as_view(&self) -> ManifestView {
        ManifestView {
            api_version: self.api_version@,
            name: self.name@,
            namespace: self.namespace@,
            annotation: match self.annotation {
                Some((key, value)) => Some((key@, value@)),
                None => None,
            },
            principal: json_tree(self.principal),
            owner: self.owner@,
            authority: match self.authority {
                Some(authority) => Some(json_tree(authority)),
                None => None,
            },
            llms: json_trees(self.llms@),
            tools: json_trees(self.tools@),
            monthly_limit: self.monthly_limit@,
            ttl: self.ttl@,
        }
    }

    /// The manifest as a JSON value.
    fn value(self) -> (manifest: serde_json::Value)
        ensures
            json_tree(manifest) == manifest_tree(self.as_view()),
    {
        let mut metadata = object();
        put(&mut metadata, "name", text(self.name));
        put(&mut metadata, "namespace", text(self.namespace));
        if let Some((key, value)) = self.annotation {
            let mut annotations = object();
            put(&mut annotations, key, text(value));
            put(&mut metadata, "annotations", annotations);
        }
        let mut agent = object();
        put(&mut agent, "name", text("base"));
        let mut budget = object();
        put(&mut budget, "monthlyLimit", text(self.monthly_limit));
        put(&mut budget, "currency", text("USD"));
        let mut runtime = object();
        put(&mut runtime, "principal", self.principal);
        put(&mut runtime, "owner", text(self.owner));
        put(&mut runtime, "agentType", agent);
        put(&mut runtime, "llms", array(self.llms));
        put(&mut runtime, "tools", array(self.tools));
        put(&mut runtime, "budget", budget);
        put(&mut runtime, "ttl", text(self.ttl));
        if let Some(authority) = self.authority {
            put(&mut runtime, "canonicalAuthority", authority);
        }
        let mut manifest = object();
        put(&mut manifest, "apiVersion", text(self.api_version));
        put(&mut manifest, "kind", text("AgentRuntime"));
        put(&mut manifest, "metadata", metadata);
        put(&mut manifest, "spec", runtime);
        manifest
    }
}

/// A manifest as it is written to its file.
pub fn manifest_bytes(manifest: &serde_json::Value) -> (bytes: Vec<u8>)
    ensures
        bytes@ == json_pretty(json_tree(*manifest)),
{
    render_pretty(manifest)
}

/// The file of a manifest.
pub fn manifest_file(suite: Suite, name: &str) -> (file: String)
    ensures
        file@ == (match suite {
            Suite::S0 => "e2e-s0-runtime.json"@,
            Suite::S1 => "e2e-s1-"@ + name@ + ".json"@,
            Suite::S2 => "e2e-s2-"@ + name@ + ".json"@,
            Suite::S3 => name@,
            Suite::S4 => name@ + ".json"@,
            Suite::S5 => "e2e-s5-runtime.json"@,
            Suite::Connections => "governed-connections-"@ + name@ + ".json"@,
        }),
{
    match suite {
        Suite::S0 => "e2e-s0-runtime.json".to_owned(),
        Suite::S1 => concat3("e2e-s1-", name, ".json"),
        Suite::S2 => concat3("e2e-s2-", name, ".json"),
        Suite::S3 => name.to_owned(),
        Suite::S4 => concat2(name, ".json"),
        Suite::S5 => "e2e-s5-runtime.json".to_owned(),
        Suite::Connections => concat3("governed-connections-", name, ".json"),
    }
}

/// The runtime that is provided and torn down, as it is written to its file.
pub fn write_runtime_manifest(api_version: &str) -> (manifest: String)
    ensures
        manifest@ == "{\n  \"apiVersion\": \""@ + api_version@
            + "\",\n  \"kind\": \"AgentRuntime\",\n  \"metadata\": {\n    \"name\": \"runtime-a\",\n    \"namespace\": \"team-a\"\n  },\n  \"spec\": {\n    \"principal\": {\n      \"kind\": \"user\",\n      \"actingUser\": \"alice@example.com\"\n    },\n    \"owner\": \"alice@example.com\",\n    \"agentType\": {\n      \"name\": \"base\"\n    },\n    \"llms\": [],\n    \"tools\": [],\n    \"budget\": {\n      \"monthlyLimit\": \"1.00\",\n      \"currency\": \"USD\"\n    },\n    \"ttl\": \"1h\"\n  }\n}\n"@,
{
    concat3(
        "{\n  \"apiVersion\": \"",
        api_version,
        "\",\n  \"kind\": \"AgentRuntime\",\n  \"metadata\": {\n    \"name\": \"runtime-a\",\n    \"namespace\": \"team-a\"\n  },\n  \"spec\": {\n    \"principal\": {\n      \"kind\": \"user\",\n      \"actingUser\": \"alice@example.com\"\n    },\n    \"owner\": \"alice@example.com\",\n    \"agentType\": {\n      \"name\": \"base\"\n    },\n    \"llms\": [],\n    \"tools\": [],\n    \"budget\": {\n      \"monthlyLimit\": \"1.00\",\n      \"currency\": \"USD\"\n    },\n    \"ttl\": \"1h\"\n  }\n}\n",
    )
}

/// A runtime that a person runs, with a tool or without one.
pub open spec fn personal_manifest(
    api_version: Seq<char>,
    namespace: Seq<char>,
    name: Seq<char>,
    acting_user: Seq<char>,
    user: Seq<char>,
    tools_enabled: bool,
) -> ManifestView {
    ManifestView {
        api_version,
        name,
        namespace,
        annotation: None,
        principal: user_tree(acting_user),
        owner: acting_user,
        authority: Some(authority_tree(user)),
        llms: Seq::empty(),
        tools: if tools_enabled {
            seq![tool_tree("search_repositories"@)]
        } else {
            Seq::empty()
        },
        monthly_limit: "1.00"@,
        ttl: "1h"@,
    }
}

/// A runtime that a person runs, with a tool or without one. The person has to be a canonical
/// user.
pub fn write_runtime(
    api_version: &str,
    namespace: &str,
    name: &str,
    acting_user: &str,
    tools_enabled: bool,
) -> (manifest: Result<serde_json::Value, String>)
    ensures
        match canonical_user(acting_user@) {
            Some(user) => manifest matches Ok(value) && json_tree(value) == manifest_tree(
                personal_manifest(
                    api_version@,
                    namespace@,
                    name@,
                    acting_user@,
                    user,
                    tools_enabled,
                ),
            ),
            None => manifest matches Err(words) && words@
                == "S1 fixture has no canonical authority for acting user "@ + acting_user@,
        },
{
    let authority = match canonical_authority(acting_user) {
        Ok(authority) => authority,
        Err(words) => return Err(words),
    };
    let tools = if tools_enabled {
        one_tool("search_repositories")
    } else {
        nothing()
    };
    Ok(
        Manifest {
            api_version,
            name,
            namespace,
            annotation: None,
            principal: user_principal(acting_user),
            owner: acting_user,
            authority: Some(authority),
            llms: nothing(),
            tools,
            monthly_limit: "1.00",
            ttl: "1h",
        }.value(),
    )
}

/// A runtime that a service runs, for a person or for nobody.
pub open spec fn service_manifest(
    api_version: Seq<char>,
    namespace: Seq<char>,
    name: Seq<char>,
    service: Seq<char>,
    acting_user: Option<Seq<char>>,
    user: Option<Seq<char>>,
) -> ManifestView {
    ManifestView {
        api_version,
        name,
        namespace,
        annotation: Some((SERVICE_PRINCIPAL@, service)),
        principal: service_tree(service, acting_user),
        owner: "alice@example.com"@,
        authority: Some(
            match user {
                Some(id) => authority_tree(id),
                None => JsonTree::Null,
            },
        ),
        llms: Seq::empty(),
        tools: seq![tool_tree("search_repositories"@)],
        monthly_limit: "1.00"@,
        ttl: "1h"@,
    }
}

/// A runtime that a service runs, for a person or for nobody. A person has to be a canonical user.
pub fn write_service_runtime(
    api_version: &str,
    namespace: &str,
    name: &str,
    service: &str,
    acting_user: Option<&str>,
) -> (manifest: Result<serde_json::Value, String>)
    ensures
        match acting_user {
            None => manifest matches Ok(value) && json_tree(value) == manifest_tree(
                service_manifest(api_version@, namespace@, name@, service@, None, None),
            ),
            Some(person) => match canonical_user(person@) {
                Some(user) => manifest matches Ok(value) && json_tree(value) == manifest_tree(
                    service_manifest(
                        api_version@,
                        namespace@,
                        name@,
                        service@,
                        Some(person@),
                        Some(user),
                    ),
                ),
                None => manifest matches Err(words) && words@
                    == "S1 fixture has no canonical authority for acting user "@ + person@,
            },
        },
{
    let mut principal = object();
    put(&mut principal, "kind", text("service"));
    put(&mut principal, "name", text(service));
    let authority = match acting_user {
        Some(person) => {
            put(&mut principal, "actingUser", text(person));
            match canonical_authority(person) {
                Ok(authority) => authority,
                Err(words) => return Err(words),
            }
        },
        None => null(),
    };
    Ok(
        Manifest {
            api_version,
            name,
            namespace,
            annotation: Some((SERVICE_PRINCIPAL, service)),
            principal,
            owner: "alice@example.com",
            authority: Some(authority),
            llms: nothing(),
            tools: one_tool("search_repositories"),
            monthly_limit: "1.00",
            ttl: "1h",
        }.value(),
    )
}

/// A runtime that a person runs as an engineer.
pub open spec fn engineer_manifest(
    name: Seq<char>,
    acting_user: Seq<char>,
    provider: Seq<char>,
    model: Seq<char>,
    tools: Seq<JsonTree>,
    monthly_limit: Seq<char>,
    ttl: Seq<char>,
) -> ManifestView {
    ManifestView {
        api_version: API_VERSION@,
        name,
        namespace: "team-a"@,
        annotation: Some((MEMBER_ROLE@, "engineer"@)),
        principal: user_tree(acting_user),
        owner: acting_user,
        authority: None,
        llms: seq![model_tree(provider, model)],
        tools,
        monthly_limit,
        ttl,
    }
}

/// The runtime of the suite on budgets, with a model that has a price or has none.
pub fn write_priced_runtime(name: &str, model: &str, monthly_limit: &str, ttl: &str) -> (manifest:
    serde_json::Value)
    ensures
        json_tree(manifest) == manifest_tree(
            engineer_manifest(
                name@,
                "alice@example.com"@,
                "openai"@,
                model@,
                Seq::empty(),
                monthly_limit@,
                ttl@,
            ),
        ),
{
    Manifest {
        api_version: API_VERSION,
        name,
        namespace: "team-a",
        annotation: Some((MEMBER_ROLE, "engineer")),
        principal: user_principal("alice@example.com"),
        owner: "alice@example.com",
        authority: None,
        llms: one_model("openai", model),
        tools: nothing(),
        monthly_limit,
        ttl,
    }.value()
}

/// The runtime of the suite on composed edits, which names no role.
pub fn write_composed_runtime(budget: &str) -> (manifest: serde_json::Value)
    ensures
        json_tree(manifest) == manifest_tree(
            ManifestView {
                annotation: None,
                ..engineer_manifest(
                    "runtime-a"@,
                    "alice@example.com"@,
                    "provider-a"@,
                    "model-a"@,
                    Seq::empty(),
                    budget@,
                    "24h"@,
                )
            },
        ),
{
    Manifest {
        api_version: API_VERSION,
        name: "runtime-a",
        namespace: "team-a",
        annotation: None,
        principal: user_principal("alice@example.com"),
        owner: "alice@example.com",
        authority: None,
        llms: one_model("provider-a", "model-a"),
        tools: nothing(),
        monthly_limit: budget,
        ttl: "24h",
    }.value()
}

/// The runtime of the suite on grants.
pub fn write_granted_runtime(name: &str, acting_user: &str, budget: &str) -> (manifest:
    serde_json::Value)
    ensures
        json_tree(manifest) == manifest_tree(
            engineer_manifest(
                name@,
                acting_user@,
                "provider-a"@,
                "model-a"@,
                Seq::empty(),
                budget@,
                "24h"@,
            ),
        ),
{
    Manifest {
        api_version: API_VERSION,
        name,
        namespace: "team-a",
        annotation: Some((MEMBER_ROLE, "engineer")),
        principal: user_principal(acting_user),
        owner: acting_user,
        authority: None,
        llms: one_model("provider-a", "model-a"),
        tools: nothing(),
        monthly_limit: budget,
        ttl: "24h",
    }.value()
}

/// The runtime of the suite on revocation.
pub fn write_revoked_runtime() -> (manifest: serde_json::Value)
    ensures
        json_tree(manifest) == manifest_tree(
            engineer_manifest(
                "runtime-revocation"@,
                "alice@example.com"@,
                "openai"@,
                "priced-model"@,
                seq![tool_tree("search_repositories"@)],
                "10.00"@,
                "1h"@,
            ),
        ),
{
    Manifest {
        api_version: API_VERSION,
        name: "runtime-revocation",
        namespace: "team-a",
        annotation: Some((MEMBER_ROLE, "engineer")),
        principal: user_principal("alice@example.com"),
        owner: "alice@example.com",
        authority: None,
        llms: one_model("openai", "priced-model"),
        tools: one_tool("search_repositories"),
        monthly_limit: "10.00",
        ttl: "1h",
    }.value()
}

/// A runtime that runs for long with one tool.
pub open spec fn long_running_manifest(
    api_version: Seq<char>,
    namespace: Seq<char>,
    name: Seq<char>,
    user_id: Seq<char>,
    email: Seq<char>,
    member_role: Seq<char>,
) -> ManifestView {
    ManifestView {
        api_version,
        name,
        namespace,
        annotation: Some((MEMBER_ROLE@, member_role)),
        principal: user_tree(email),
        owner: email,
        authority: Some(authority_tree(user_id)),
        llms: Seq::empty(),
        tools: seq![tool_tree("get_file_contents"@)],
        monthly_limit: "1.00"@,
        ttl: "1h"@,
    }
}

/// A runtime that runs for long with one tool, which its envelope has to admit. `decision` is what
/// came of holding its spec against the envelope, and `shown` is that in words.
pub fn write_long_running_runtime(
    api_version: &str,
    namespace: &str,
    name: &str,
    user_id: &str,
    email: &str,
    member_role: &str,
    decision: Result<AdmissionDecision, String>,
    shown: &str,
) -> (manifest: Result<serde_json::Value, String>)
    ensures
        match decision {
            Err(error) => manifest matches Err(words) && words@
                == "evaluate long-running runtime: "@ + error@,
            Ok(AdmissionDecision::Admit) => manifest matches Ok(value) && json_tree(value)
                == manifest_tree(
                long_running_manifest(
                    api_version@,
                    namespace@,
                    name@,
                    user_id@,
                    email@,
                    member_role@,
                ),
            ),
            Ok(_) => manifest matches Err(words) && words@
                == "long-running runtime did not pass Steward admission: "@ + shown@,
        },
{
    match decision {
        Err(error) => return Err(concat2("evaluate long-running runtime: ", error.as_str())),
        Ok(AdmissionDecision::Admit) => {},
        Ok(_) => return Err(
            concat2("long-running runtime did not pass Steward admission: ", shown),
        ),
    }
    let mut authority = object();
    put(&mut authority, "schemaVersion", text("steward/canonical-authority-binding/v1"));
    put(&mut authority, "ownerUserId", text(user_id));
    put(&mut authority, "actingUserId", text(user_id));
    Ok(
        Manifest {
            api_version,
            name,
            namespace,
            annotation: Some((MEMBER_ROLE, member_role)),
            principal: user_principal(email),
            owner: email,
            authority: Some(authority),
            llms: nothing(),
            tools: one_tool("get_file_contents"),
            monthly_limit: "1.00",
            ttl: "1h",
        }.value(),
    )
}

/// A call of a tool.
pub open spec fn tool_call_tree(tool: Seq<char>, arguments: JsonTree) -> JsonTree {
    let params = Map::<Seq<char>, JsonTree>::empty().insert(
        "name"@,
        JsonTree::Text(tool),
    ).insert("arguments"@, arguments);
    JsonTree::Object(
        Map::empty().insert("jsonrpc"@, JsonTree::Text("2.0"@)).insert("id"@, number_tree(1)).insert(
            "method"@,
            JsonTree::Text("tools/call"@),
        ).insert("params"@, JsonTree::Object(params)),
    )
}

/// A call of a tool, as it is sent.
fn tool_call(tool: &str, arguments: serde_json::Value) -> (request: String)
    ensures
        request@ == json_text(tool_call_tree(tool@, json_tree(arguments))),
{
    let mut params = object();
    put(&mut params, "name", text(tool));
    put(&mut params, "arguments", arguments);
    let mut call = object();
    put(&mut call, "jsonrpc", text("2.0"));
    put(&mut call, "id", number(1));
    put(&mut call, "method", text("tools/call"));
    put(&mut call, "params", params);
    render(&call)
}

/// A call of a tool without arguments, as it is sent.
pub fn call_tool(tool: &str) -> (request: String)
    ensures
        request@ == json_text(tool_call_tree(tool@, JsonTree::Object(Map::empty()))),
{
    tool_call(tool, object())
}

/// A call for the contents of a file of the fixture, as it is sent.
pub fn call_file_contents() -> (request: String)
    ensures
        request@ == json_text(
            tool_call_tree(
                "get_file_contents"@,
                JsonTree::Object(
                    Map::empty().insert("owner"@, JsonTree::Text("example-org"@)).insert(
                        "repo"@,
                        JsonTree::Text("fixture"@),
                    ).insert("path"@, JsonTree::Text("README.md"@)),
                ),
            ),
        ),
{
    let mut arguments = object();
    put(&mut arguments, "owner", text("example-org"));
    put(&mut arguments, "repo", text("fixture"));
    put(&mut arguments, "path", text("README.md"));
    tool_call("get_file_contents", arguments)
}

/// A manifest says of its runtime what it was made from: its name and namespace in the metadata, and
/// in the spec who runs it, who owns it, what it may use and what it may spend. It names an authority
/// only where it has one.
pub proof fn law_manifests_say_what_they_were_made_from(manifest: ManifestView)
    ensures
        ({
            let made = manifest_tree(manifest);
            &&& member_tree(made, "apiVersion"@) == Some(JsonTree::Text(manifest.api_version))
            &&& member_tree(made, "kind"@) == Some(JsonTree::Text("AgentRuntime"@))
            &&& inner_tree(made, "metadata"@, "name"@) == Some(JsonTree::Text(manifest.name))
            &&& inner_tree(made, "metadata"@, "namespace"@) == Some(
                JsonTree::Text(manifest.namespace),
            )
            &&& inner_tree(made, "metadata"@, "annotations"@) is Some <==> manifest.annotation
                is Some
            &&& manifest.annotation matches Some((key, value)) ==> (inner_tree(
                made,
                "metadata"@,
                "annotations"@,
            ) matches Some(notes) && member_tree(notes, key) == Some(JsonTree::Text(value)))
            &&& inner_tree(made, "spec"@, "principal"@) == Some(manifest.principal)
            &&& inner_tree(made, "spec"@, "owner"@) == Some(JsonTree::Text(manifest.owner))
            &&& inner_tree(made, "spec"@, "canonicalAuthority"@) == manifest.authority
            &&& inner_tree(made, "spec"@, "llms"@) == Some(JsonTree::Array(manifest.llms))
            &&& inner_tree(made, "spec"@, "tools"@) == Some(JsonTree::Array(manifest.tools))
            &&& inner_tree(made, "spec"@, "ttl"@) == Some(JsonTree::Text(manifest.ttl))
            &&& inner_tree(made, "spec"@, "agentType"@) matches Some(agent)
            &&& member_tree(agent, "name"@) == Some(JsonTree::Text("base"@))
            &&& inner_tree(made, "spec"@, "budget"@) matches Some(budget)
            &&& member_tree(budget, "monthlyLimit"@) == Some(
                JsonTree::Text(manifest.monthly_limit),
            )
            &&& member_tree(budget, "currency"@) == Some(JsonTree::Text("USD"@))
        }),
{
    reveal_strlit("apiVersion");
    reveal_strlit("kind");
    reveal_strlit("metadata");
    reveal_strlit("spec");
    reveal_strlit("name");
    reveal_strlit("namespace");
    reveal_strlit("annotations");
    reveal_strlit("principal");
    reveal_strlit("owner");
    reveal_strlit("canonicalAuthority");
    reveal_strlit("agentType");
    reveal_strlit("llms");
    reveal_strlit("tools");
    reveal_strlit("budget");
    reveal_strlit("ttl");
    reveal_strlit("monthlyLimit");
    reveal_strlit("currency");
    assert("apiVersion"@.len() == 10 && "kind"@.len() == 4 && "metadata"@.len() == 8
        && "spec"@.len() == 4 && "name"@.len() == 4 && "namespace"@.len() == 9
        && "annotations"@.len() == 11 && "principal"@.len() == 9 && "owner"@.len() == 5
        && "canonicalAuthority"@.len() == 18 && "agentType"@.len() == 9 && "llms"@.len() == 4
        && "tools"@.len() == 5 && "budget"@.len() == 6 && "ttl"@.len() == 3
        && "monthlyLimit"@.len() == 12 && "currency"@.len() == 8);
    assert("kind"@[0] != "spec"@[0]);
    assert("principal"@[0] != "agentType"@[0]);
    assert("owner"@[0] != "tools"@[0]);
}

/// Who runs a runtime is told by its principal: a person by their address, a service by its name and,
/// where it acts for a person, by that person too.
pub proof fn law_principals_name_who_acts(
    acting_user: Seq<char>,
    service: Seq<char>,
    person: Option<Seq<char>>,
    provider: Seq<char>,
    model: Seq<char>,
    resource: Seq<char>,
)
    ensures
        member_tree(user_tree(acting_user), "kind"@) == Some(JsonTree::Text("user"@)),
        member_tree(user_tree(acting_user), "actingUser"@) == Some(JsonTree::Text(acting_user)),
        member_tree(service_tree(service, person), "kind"@) == Some(JsonTree::Text("service"@)),
        member_tree(service_tree(service, person), "name"@) == Some(JsonTree::Text(service)),
        member_tree(service_tree(service, person), "actingUser"@) == (match person {
            Some(user) => Some(JsonTree::Text(user)),
            None => None,
        }),
        member_tree(model_tree(provider, model), "provider"@) == Some(JsonTree::Text(provider)),
        member_tree(model_tree(provider, model), "model"@) == Some(JsonTree::Text(model)),
        member_tree(tool_tree(resource), "provider"@) == Some(JsonTree::Text("github"@)),
        member_tree(tool_tree(resource), "resource"@) == Some(JsonTree::Text(resource)),
        member_tree(tool_tree(resource), "action"@) == Some(JsonTree::Text("read"@)),
{
    reveal_strlit("kind");
    reveal_strlit("actingUser");
    reveal_strlit("name");
    reveal_strlit("provider");
    reveal_strlit("model");
    reveal_strlit("resource");
    reveal_strlit("action");
    assert("kind"@.len() == 4 && "actingUser"@.len() == 10 && "name"@.len() == 4
        && "provider"@.len() == 8 && "model"@.len() == 5 && "resource"@.len() == 8
        && "action"@.len() == 6);
    assert("kind"@[0] != "name"@[0]);
    assert("provider"@[0] != "resource"@[0]);
}

/// Whoever runs a runtime owns it, and it is bound to the canonical user that it was made for; it has
/// its tool exactly where tools are enabled. A service runs for Alice, under its own name.
pub proof fn law_runtimes_belong_to_who_runs_them(
    api_version: Seq<char>,
    namespace: Seq<char>,
    name: Seq<char>,
    person: Seq<char>,
    user: Seq<char>,
    enabled: bool,
    service: Seq<char>,
    acting_user: Option<Seq<char>>,
    acting_id: Option<Seq<char>>,
    role: Seq<char>,
)
    ensures
        ({
            let personal = personal_manifest(api_version, namespace, name, person, user, enabled);
            let long = long_running_manifest(api_version, namespace, name, user, person, role);
            let served = service_manifest(
                api_version,
                namespace,
                name,
                service,
                acting_user,
                acting_id,
            );
            &&& personal.api_version == api_version && personal.name == name && personal.namespace
                == namespace && personal.annotation is None
            &&& personal.principal == user_tree(personal.owner) && personal.owner == person
            &&& personal.authority == Some(authority_tree(user))
            &&& personal.tools == (if enabled {
                seq![tool_tree("search_repositories"@)]
            } else {
                Seq::empty()
            })
            &&& personal.llms.len() == 0 && personal.monthly_limit == "1.00"@ && personal.ttl
                == "1h"@
            &&& long.api_version == api_version && long.name == name && long.namespace == namespace
            &&& long.annotation == Some(("agents.apelogic.ai/member-role"@, role))
            &&& long.principal == user_tree(long.owner) && long.owner == person
            &&& long.authority == Some(authority_tree(user))
            &&& long.tools == seq![tool_tree("get_file_contents"@)]
            &&& long.llms.len() == 0 && long.monthly_limit == "1.00"@ && long.ttl == "1h"@
            &&& served.api_version == api_version && served.name == name && served.namespace
                == namespace
            &&& served.annotation == Some(("agents.apelogic.ai/service-principal"@, service))
            &&& served.principal == service_tree(service, acting_user)
            &&& served.owner == "alice@example.com"@
            &&& served.authority == (match acting_id {
                Some(id) => Some(authority_tree(id)),
                None => Some(JsonTree::Null),
            })
            &&& served.tools == seq![tool_tree("search_repositories"@)]
            &&& served.llms.len() == 0 && served.monthly_limit == "1.00"@ && served.ttl == "1h"@
        }),
{
}

/// A runtime of an engineer is owned by who runs it, names the role, and has the model, the tools, the
/// budget and the time that are asked for.
pub proof fn law_engineers_own_their_runtimes(
    name: Seq<char>,
    person: Seq<char>,
    provider: Seq<char>,
    model: Seq<char>,
    tools: Seq<JsonTree>,
    limit: Seq<char>,
    ttl: Seq<char>,
)
    ensures
        ({
            let made = engineer_manifest(name, person, provider, model, tools, limit, ttl);
            &&& made.api_version == "agents.apelogic.ai/v1alpha1"@
            &&& made.name == name && made.namespace == "team-a"@
            &&& made.annotation == Some(("agents.apelogic.ai/member-role"@, "engineer"@))
            &&& made.principal == user_tree(person) && made.owner == person
            &&& made.authority is None
            &&& made.llms == seq![model_tree(provider, model)]
            &&& made.tools == tools && made.monthly_limit == limit && made.ttl == ttl
        }),
{
}

/// A call of a tool names the tool and hands it its arguments.
pub proof fn law_tool_calls_name_their_tool(tool: Seq<char>, arguments: JsonTree)
    ensures
        inner_tree(tool_call_tree(tool, arguments), "params"@, "name"@) == Some(
            JsonTree::Text(tool),
        ),
        inner_tree(tool_call_tree(tool, arguments), "params"@, "arguments"@) == Some(arguments),
        member_tree(tool_call_tree(tool, arguments), "method"@) == Some(
            JsonTree::Text("tools/call"@),
        ),
        member_tree(tool_call_tree(tool, arguments), "jsonrpc"@) == Some(JsonTree::Text("2.0"@)),
        member_tree(tool_call_tree(tool, arguments), "id"@) == Some(number_tree(1)),
{
    reveal_strlit("jsonrpc");
    reveal_strlit("id");
    reveal_strlit("method");
    reveal_strlit("params");
    reveal_strlit("name");
    reveal_strlit("arguments");
    assert("jsonrpc"@.len() == 7 && "id"@.len() == 2 && "method"@.len() == 6 && "params"@.len() == 6
        && "name"@.len() == 4 && "arguments"@.len() == 9);
    assert("method"@[0] != "params"@[0]);
}

} // verus!
