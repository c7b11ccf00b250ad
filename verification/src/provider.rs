use vstd::prelude::*;
use vstd::string::*;

use crate::contracts::{get_canonical_tool_contract, spec_tool_contract};
use crate::json::{
    array_of, items_model, new_items, new_members, no_members, object_of, push_item,
    push_member, Json, JsonValue,
};
use crate::tools::{canonical_tool_names, law_canonical_names_round_trip, spec_canonical_tool_names};

verus! {

/// What the provider says of itself.
pub struct Manifest {
    pub name: String,
    pub version: String,
    pub display_name: String,
    pub description: String,
    pub provider_type: String,
    pub protocol_version: String,
    pub runtime: JsonValue,
    pub tools: Vec<String>,
    pub capabilities: Vec<String>,
}

/// Strings as a JSON array.
pub open spec fn strings_json(s: Seq<String>) -> Json {
    Json::Array(Seq::new(s.len(), |i: int| Json::Str(s[i]@)))
}

fn strings_to_json(s: &Vec<String>) -> (r: JsonValue)
    ensures
        r.model() == strings_json(s@),
{
    let mut out = new_items();
    let mut i: usize = 0;
    while i < s.len()
        invariant
            i <= s@.len(),
            items_model(out@) == Seq::new(i as nat, |k: int| Json::Str(s@[k]@)),
        decreases s@.len() - i,
    {
        push_item(&mut out, JsonValue::Str(s[i].clone()));
        assert(items_model(out@) =~= Seq::new((i + 1) as nat, |k: int| Json::Str(s@[k]@)));
        i = i + 1;
    }
    array_of(out)
}

impl Manifest {
    /// The manifest as JSON, its fields in declaration order.
    pub fn to_json(&self) -> (r: JsonValue)
        ensures
            r.model() == Json::Object(no_members()
                .push(("name"@, Json::Str(self.name@)))
                .push(("version"@, Json::Str(self.version@)))
                .push(("display_name"@, Json::Str(self.display_name@)))
                .push(("description"@, Json::Str(self.description@)))
                .push(("provider_type"@, Json::Str(self.provider_type@)))
                .push(("protocol_version"@, Json::Str(self.protocol_version@)))
                .push(("runtime"@, self.runtime.model()))
                .push(("tools"@, strings_json(self.tools@)))
                .push(("capabilities"@, strings_json(self.capabilities@)))),
    {
        let mut m = new_members();
        push_member(&mut m, "name", JsonValue::Str(self.name.clone()));
        push_member(&mut m, "version", JsonValue::Str(self.version.clone()));
        push_member(&mut m, "display_name", JsonValue::Str(self.display_name.clone()));
        push_member(&mut m, "description", JsonValue::Str(self.description.clone()));
        push_member(&mut m, "provider_type", JsonValue::Str(self.provider_type.clone()));
        push_member(&mut m, "protocol_version", JsonValue::Str(self.protocol_version.clone()));
        push_member(&mut m, "runtime", self.runtime.deep_clone());
        push_member(&mut m, "tools", strings_to_json(&self.tools));
        push_member(&mut m, "capabilities", strings_to_json(&self.capabilities));
        object_of(m)
    }
}

/// The provider's manifest: its identity, runtime, canonical tools and
/// capabilities.
pub fn provider_manifest() -> (r: Manifest)
    ensures
        r.name@ == "figma"@,
        r.version@ == "0.1.0"@,
        r.display_name@ == "Figma Tool Surface"@,
        r.description@ == "External Lonis provider for interacting with a live Figma session"@,
        r.provider_type@ == "external-executable"@,
        r.protocol_version@ == "0"@,
        r.tools@.len() == spec_canonical_tool_names().len(),
        forall|i: int| 0 <= i < r.tools@.len() ==> (#[trigger] r.tools@[i])@ == spec_canonical_tool_names()[i],
        r.runtime.model() == Json::Object(no_members()
            .push(("language"@, Json::Str("rust"@)))
            .push(("entrypoint"@, Json::Str("figma-provider"@)))),
        r.capabilities@.len() == 3,
        r.capabilities@[0]@ == "diagnostics"@,
        r.capabilities@[1]@ == "external_application"@,
        r.capabilities@[2]@ == "mutable_operations"@,
{
    let names = canonical_tool_names();
    let mut tools: Vec<String> = Vec::new();
    let mut i: usize = 0;
    while i < names.len()
        invariant
            names@.map_values(|s: &str| s@) == spec_canonical_tool_names(),
            i <= names@.len(),
            tools@.len() == i,
            forall|k: int| 0 <= k < i ==> (#[trigger] tools@[k])@ == spec_canonical_tool_names()[k],
        decreases names@.len() - i,
    {
        assert(names@.map_values(|s: &str| s@)[i as int] == names@[i as int]@);
        tools.push(String::from_str(names[i]));
        i = i + 1;
    }
    let mut runtime = new_members();
    push_member(&mut runtime, "language", JsonValue::string("rust"));
    push_member(&mut runtime, "entrypoint", JsonValue::string("figma-provider"));
    let mut capabilities: Vec<String> = Vec::new();
    capabilities.push(String::from_str("diagnostics"));
    capabilities.push(String::from_str("external_application"));
    capabilities.push(String::from_str("mutable_operations"));
    Manifest {
        name: String::from_str("figma"),
        version: String::from_str("0.1.0"),
        display_name: String::from_str("Figma Tool Surface"),
        description: String::from_str("External Lonis provider for interacting with a live Figma session"),
        provider_type: String::from_str("external-executable"),
        protocol_version: String::from_str("0"),
        runtime: object_of(runtime),
        tools,
        capabilities,
    }
}

/// The discovery summary of a canonical tool: its name, its contract's
/// description (empty where absent) and verification status
/// (`implemented` where absent).
pub open spec fn tool_summary(name: Seq<char>) -> Json {
    let contract = spec_tool_contract(name);
    Json::Object(no_members()
        .push(("name"@, Json::Str(name)))
        .push(("description"@, Json::Str(match contract.str_at("description"@) {
            Some(d) => d,
            None => Seq::empty(),
        })))
        .push(("verification_status"@, Json::Str(match contract.get("verification"@) {
            Some(v) => match v.str_at("status"@) {
                Some(s) => s,
                None => "implemented"@,
            },
            None => "implemented"@,
        }))))
}

/// The `tools list` answer: the provider and a summary of each canonical tool.
pub open spec fn tools_list_model() -> Json {
    Json::Object(no_members()
        .push(("provider"@, Json::Str("figma"@)))
        .push(("tools"@, Json::Array(Seq::new(spec_canonical_tool_names().len(), |i: int| tool_summary(spec_canonical_tool_names()[i]))))))
}

/// Builds the `tools list` answer.
pub fn tools_list() -> (r: JsonValue)
    ensures
        r.model() == tools_list_model(),
{
    let names = canonical_tool_names();
    let ghost specs = spec_canonical_tool_names();
    let mut out = new_items();
    let mut i: usize = 0;
    while i < names.len()
        invariant
            names@.map_values(|s: &str| s@) == specs,
            specs == spec_canonical_tool_names(),
            i <= names@.len(),
            items_model(out@) == Seq::new(i as nat, |k: int| tool_summary(specs[k])),
        decreases names@.len() - i,
    {
        let name = names[i];
        assert(names@.map_values(|s: &str| s@)[i as int] == name@);
        proof { law_canonical_names_round_trip(i as int); }
        match get_canonical_tool_contract(name) {
            Some(contract) => {
                let description = match contract.str_at("description") {
                    Some(d) => String::from_str(d),
                    None => String::new(),
                };
                let status = match contract.get("verification") {
                    Some(v) => match v.str_at("status") {
                        Some(s) => String::from_str(s),
                        None => String::from_str("implemented"),
                    },
                    None => String::from_str("implemented"),
                };
                let mut m = new_members();
                push_member(&mut m, "name", JsonValue::string(name));
                push_member(&mut m, "description", JsonValue::Str(description));
                push_member(&mut m, "verification_status", JsonValue::Str(status));
                push_item(&mut out, object_of(m));
                assert(items_model(out@) =~= Seq::new((i + 1) as nat, |k: int| tool_summary(specs[k])));
            },
            None => {},
        }
        i = i + 1;
    }
    let mut m = new_members();
    push_member(&mut m, "provider", JsonValue::string("figma"));
    push_member(&mut m, "tools", array_of(out));
    object_of(m)
}

} // verus!
