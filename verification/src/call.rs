use vstd::prelude::*;
use vstd::string::*;

use crate::contracts::{get_canonical_tool_contract, spec_tool_contract};
use crate::json::{
    array_of, member_insert, members_model, new_items, new_members, no_items, no_members,
    number_from, object_insert, object_of, push_item, push_member, Json, JsonValue,
};
use crate::schema::{check_args, member_lookup, spec_check_args, ArgProblem, ArgProblemModel};
use crate::text::{concat2, concat3, contains, contains_text, decimal, str_eq};
use crate::tools::{
    canonical_to_legacy_tool, plugin_command_name, resolve_external_tool_name, spec_legacy_name,
    spec_plugin_command, spec_resolve_tool,
};

verus! {

/// A request to call a tool, in the provider's canonical shape.
#[derive(Debug)]
pub struct CallRequest {
    pub tool: String,
    pub schema_version: String,
    pub input: JsonValue,
    pub context: JsonValue,
}

/// The schema version a request carries unless it names one.
pub fn default_schema_version() -> (r: String)
    ensures
        r@ == "1"@,
{
    String::from_str("1")
}

/// A failed call: a machine-readable code, a message and details.
#[derive(Debug)]
pub struct CallError {
    pub code: String,
    pub message: String,
    pub details: JsonValue,
}

/// The model of a failed call.
pub struct CallErrorModel {
    pub code: Seq<char>,
    pub message: Seq<char>,
    pub details: Json,
}

impl CallError {
    pub open spec fn model(&self) -> CallErrorModel {
        CallErrorModel { code: self.code@, message: self.message@, details: self.details.model() }
    }
}

pub open spec fn error_model(code: Seq<char>, message: Seq<char>, details: Json) -> CallErrorModel {
    CallErrorModel { code, message, details }
}

/// A failed call with the given code, message and details.
pub fn error_tuple(code: &str, message: String, details: JsonValue) -> (r: CallError)
    ensures
        r.model() == error_model(code@, message@, details.model()),
{
    CallError { code: String::from_str(code), message, details }
}

/// `{}`.
pub open spec fn empty_object() -> Json {
    Json::Object(no_members())
}

/// `{"field": name}`.
pub open spec fn field_details(name: Seq<char>) -> Json {
    Json::Object(no_members().push(("field"@, Json::Str(name))))
}

fn field_details_of(name: &str) -> (r: JsonValue)
    ensures
        r.model() == field_details(name@),
{
    let mut m = new_members();
    push_member(&mut m, "field", JsonValue::string(name));
    object_of(m)
}

fn empty_details() -> (r: JsonValue)
    ensures
        r.model() == empty_object(),
{
    object_of(new_members())
}

/// The string under `key` in a call's input, where that member is a string.
pub fn input_str<'a>(args: &'a Vec<(String, JsonValue)>, key: &str) -> (r: Option<&'a str>)
    ensures
        match r {
            Some(s) => Json::Object(members_model(args@)).str_at(key@) == Some(s@),
            None => Json::Object(members_model(args@)).str_at(key@) is None,
        },
{
    match member_lookup(args, key) {
        Some(v) => v.as_str(),
        None => None,
    }
}

/// The boolean under `key` in a call's input, where that member is a boolean.
pub fn input_bool(args: &Vec<(String, JsonValue)>, key: &str) -> (r: Option<bool>)
    ensures
        r == Json::Object(members_model(args@)).bool_at(key@),
{
    match member_lookup(args, key) {
        Some(v) => v.as_bool(),
        None => None,
    }
}

/// A copy of the value under `key` in a call's input, `null` where absent.
pub fn input_or_null(args: &Vec<(String, JsonValue)>, key: &str) -> (r: JsonValue)
    ensures
        r.model() == Json::Object(members_model(args@)).get_or_null(key@),
{
    match member_lookup(args, key) {
        Some(v) => v.deep_clone(),
        None => JsonValue::Null,
    }
}

// ---------------------------------------------------------------------------
// sessions

/// A plugin session as the bridge lists it.
#[derive(Clone, Debug, PartialEq)]
pub struct BridgeSession {
    pub channel: String,
    pub joined_at: u64,
    pub client_name: Option<String>,
    pub client_version: Option<String>,
}

/// The channels of the listed sessions, in order.
pub open spec fn session_channels(sessions: Seq<BridgeSession>) -> Seq<Seq<char>> {
    Seq::new(sessions.len(), |i: int| sessions[i].channel@)
}

/// The channel to use when none is named: that of the only session.
pub open spec fn spec_infer_channel(channels: Seq<Seq<char>>) -> Result<Seq<char>, Seq<char>> {
    if channels.len() == 1 {
        Ok(channels[0])
    } else if channels.len() == 0 {
        Err("No connected plugin sessions"@)
    } else {
        Err("Multiple plugin sessions active; channel must be specified"@)
    }
}

/// The channel of the only connected session; an error where there is none
/// or more than one.
pub fn infer_channel(sessions: &[BridgeSession]) -> (r: Result<String, String>)
    ensures
        match r {
            Ok(c) => spec_infer_channel(session_channels(sessions@)) == Ok::<Seq<char>, Seq<char>>(c@),
            Err(m) => spec_infer_channel(session_channels(sessions@)) == Err::<Seq<char>, Seq<char>>(m@),
        },
{
    if sessions.len() == 1 {
        Ok(sessions[0].channel.clone())
    } else if sessions.len() == 0 {
        Err(String::from_str("No connected plugin sessions"))
    } else {
        Err(String::from_str("Multiple plugin sessions active; channel must be specified"))
    }
}

/// The session a call goes to: the input's `session_id`, else its `channel`,
/// else the only connected session. `sessions` is `None` where the bridge did
/// not answer.
pub open spec fn spec_resolve_session_id(args: Seq<(Seq<char>, Json)>, sessions: Option<Seq<Seq<char>>>) -> Result<Seq<char>, Seq<char>> {
    match sessions {
        None => Err("Bridge unavailable. Start it with: figma-provider bridge-serve"@),
        Some(channels) => match Json::Object(args).str_at("session_id"@) {
            Some(s) => Ok(s),
            None => match Json::Object(args).str_at("channel"@) {
                Some(c) => Ok(c),
                None => match spec_infer_channel(channels) {
                    Ok(c) => Ok(c),
                    Err(_) => Err(no_session_message()),
                },
            },
        },
    }
}

pub open spec fn no_session_message() -> Seq<char> {
    "No session_id provided and unable to infer one. If exactly one plugin is connected, the session_id can be omitted; otherwise pass session_id explicitly."@
}

/// The failure of a call whose session could not be chosen.
pub fn session_error(message: String) -> (r: CallError)
    ensures
        r.model() == error_model("provider_unavailable"@, message@, empty_object()),
{
    error_tuple("provider_unavailable", message, empty_details())
}

/// Chooses the session a call goes to (see `spec_resolve_session_id`).
pub fn resolve_session_id(args: &Vec<(String, JsonValue)>, sessions: Option<&[BridgeSession]>) -> (r: Result<String, String>)
    ensures
        match r {
            Ok(s) => spec_resolve_session_id(members_model(args@), match sessions {
                Some(v) => Some(session_channels(v@)),
                None => None,
            }) == Ok::<Seq<char>, Seq<char>>(s@),
            Err(m) => spec_resolve_session_id(members_model(args@), match sessions {
                Some(v) => Some(session_channels(v@)),
                None => None,
            }) == Err::<Seq<char>, Seq<char>>(m@),
        },
{
    let sessions = match sessions {
        Some(v) => v,
        None => {
            return Err(String::from_str("Bridge unavailable. Start it with: figma-provider bridge-serve"));
        },
    };
    if let Some(s) = input_str(args, "session_id") {
        return Ok(String::from_str(s));
    }
    if let Some(c) = input_str(args, "channel") {
        return Ok(String::from_str(c));
    }
    match infer_channel(sessions) {
        Ok(c) => Ok(c),
        Err(_) => Err(String::from_str(
            "No session_id provided and unable to infer one. If exactly one plugin is connected, the session_id can be omitted; otherwise pass session_id explicitly.",
        )),
    }
}


// ---------------------------------------------------------------------------
// input validation

/// The error for an argument problem, code `invalid_input`.
pub open spec fn problem_error(p: ArgProblemModel) -> CallErrorModel {
    match p {
        ArgProblemModel::Missing(f) => error_model(
            "invalid_input"@,
            "Missing required argument: "@ + f,
            field_details(f),
        ),
        ArgProblemModel::Unexpected(n) => error_model(
            "invalid_input"@,
            "Unexpected argument: "@ + n,
            field_details(n),
        ),
        ArgProblemModel::WrongType(n, e) => error_model(
            "invalid_input"@,
            "Invalid argument type for "@ + n + ": expected "@ + e,
            Json::Object(no_members().push(("field"@, Json::Str(n))).push(("expected"@, Json::Str(e)))),
        ),
    }
}

/// What checking a call's input against a tool contract finds: the contract's
/// `input_schema` is applied with `additionalProperties` honoured.
pub open spec fn spec_validate_contract_input(contract: Json, args: Seq<(Seq<char>, Json)>) -> Result<(), CallErrorModel> {
    match spec_check_args(contract.get_or_null("input_schema"@), args, false, true) {
        None => Ok(()),
        Some(p) => Err(problem_error(p)),
    }
}

/// Checks a call's input against the `input_schema` of a tool contract.
pub fn validate_contract_input(contract: &JsonValue, args: &Vec<(String, JsonValue)>) -> (r: Result<(), CallError>)
    ensures
        match r {
            Ok(()) => spec_validate_contract_input(contract.model(), members_model(args@)) is Ok,
            Err(e) => spec_validate_contract_input(contract.model(), members_model(args@)) == Err::<(), CallErrorModel>(e.model()),
        },
{
    let schema = contract.get_or_null("input_schema");
    match check_args(&schema, args, false, true) {
        Ok(()) => Ok(()),
        Err(ArgProblem::Missing(f)) => {
            let details = field_details_of(f.as_str());
            Err(error_tuple("invalid_input", concat2("Missing required argument: ", f.as_str()), details))
        },
        Err(ArgProblem::Unexpected(n)) => {
            let details = field_details_of(n.as_str());
            Err(error_tuple("invalid_input", concat2("Unexpected argument: ", n.as_str()), details))
        },
        Err(ArgProblem::WrongType(n, e)) => {
            let mut m = concat3("Invalid argument type for ", n.as_str(), ": expected ");
            m.append(e.as_str());
            let mut d = new_members();
            push_member(&mut d, "field", JsonValue::string(n.as_str()));
            push_member(&mut d, "expected", JsonValue::string(e.as_str()));
            Err(error_tuple("invalid_input", m, object_of(d)))
        },
    }
}

/// A call whose tool is known and whose input fits the tool's contract.
pub struct PreparedCall {
    pub canonical_tool: &'static str,
    pub input: Vec<(String, JsonValue)>,
}

/// `unknown_tool` for a name.
pub open spec fn unknown_tool_error(name: Seq<char>) -> CallErrorModel {
    error_model("unknown_tool"@, "Unknown tool: "@ + name, empty_object())
}

/// The first stage of a call: the tool is resolved to its canonical name,
/// the input must be an object, and it must fit the tool's contract.
pub open spec fn spec_prepare_call(tool: Seq<char>, input: Json) -> Result<(Seq<char>, Seq<(Seq<char>, Json)>), CallErrorModel> {
    match spec_resolve_tool(tool) {
        None => Err(unknown_tool_error(tool)),
        Some(c) => match input {
            Json::Object(m) => match spec_validate_contract_input(spec_tool_contract(c), m) {
                Ok(()) => Ok((c, m)),
                Err(e) => Err(e),
            },
            _ => Err(error_model("invalid_input"@, "input must be an object"@, empty_object())),
        },
    }
}

/// Resolves and checks a call (see `spec_prepare_call`).
pub fn prepare_call(request: CallRequest) -> (r: Result<PreparedCall, CallError>)
    ensures
        match r {
            Ok(p) => spec_prepare_call(request.tool@, request.input.model())
                == Ok::<(Seq<char>, Seq<(Seq<char>, Json)>), CallErrorModel>((p.canonical_tool@, members_model(p.input@))),
            Err(e) => spec_prepare_call(request.tool@, request.input.model())
                == Err::<(Seq<char>, Seq<(Seq<char>, Json)>), CallErrorModel>(e.model()),
        },
{
    let canonical = match resolve_external_tool_name(request.tool.as_str()) {
        Some(c) => c,
        None => {
            return Err(error_tuple("unknown_tool", concat2("Unknown tool: ", request.tool.as_str()), empty_details()));
        },
    };
    let contract = match get_canonical_tool_contract(canonical) {
        Some(c) => c,
        None => {
            return Err(error_tuple("unknown_tool", concat2("Unknown tool: ", canonical), empty_details()));
        },
    };
    proof { crate::tools::law_resolution_is_idempotent(request.tool@); }
    let ghost input_model = request.input.model();
    let input = match request.input {
        JsonValue::Object(m) => {
            proof { crate::json::lemma_object_model(m); }
            m
        },
        _ => {
            return Err(error_tuple("invalid_input", String::from_str("input must be an object"), empty_details()));
        },
    };
    match validate_contract_input(&contract, &input) {
        Ok(()) => Ok(PreparedCall { canonical_tool: canonical, input }),
        Err(e) => Err(e),
    }
}

// ---------------------------------------------------------------------------
// bridge input

/// The key under which an input member reaches the plugin, or `None` for the
/// members that only route the call (`session_id`, `channel`).
pub open spec fn bridge_key(tool: Seq<char>, key: Seq<char>) -> Option<Seq<char>> {
    if key == "session_id"@ || key == "channel"@ {
        None
    } else if key == "page_id"@ {
        Some("pageId"@)
    } else if key == "node_id"@ {
        Some("nodeId"@)
    } else if key == "parent_id"@ {
        Some("parentId"@)
    } else if key == "dry_run"@ {
        Some("dryRun"@)
    } else if key == "text"@ && tool == "figma.create_text"@ {
        Some("characters"@)
    } else {
        Some(key)
    }
}

/// The members of the plugin's parameters: each input member in order,
/// renamed, and set as `Map::insert` sets it.
pub open spec fn bridge_members(tool: Seq<char>, input: Seq<(Seq<char>, Json)>) -> Seq<(Seq<char>, Json)>
    decreases input.len(),
{
    if input.len() == 0 {
        no_members()
    } else {
        let prev = bridge_members(tool, input.drop_last());
        match bridge_key(tool, input.last().0) {
            None => prev,
            Some(k) => member_insert(prev, k, input.last().1),
        }
    }
}

/// The plugin-side key of an input member.
fn bridge_key_of(tool: &str, key: &str) -> (r: Option<String>)
    ensures
        crate::session::opt_view(r) == bridge_key(tool@, key@),
{
    if str_eq(key, "session_id") || str_eq(key, "channel") {
        None
    } else if str_eq(key, "page_id") {
        Some(String::from_str("pageId"))
    } else if str_eq(key, "node_id") {
        Some(String::from_str("nodeId"))
    } else if str_eq(key, "parent_id") {
        Some(String::from_str("parentId"))
    } else if str_eq(key, "dry_run") {
        Some(String::from_str("dryRun"))
    } else if str_eq(key, "text") && str_eq(tool, "figma.create_text") {
        Some(String::from_str("characters"))
    } else {
        Some(String::from_str(key))
    }
}

/// The plugin's parameters for a call: the input with the routing members
/// dropped and the canonical names turned into the plugin's.
pub fn canonical_input_to_bridge_input(canonical_tool: &str, session_id: &str, input: &Vec<(String, JsonValue)>) -> (r: JsonValue)
    ensures
        r.model() == Json::Object(bridge_members(canonical_tool@, members_model(input@))),
{
    let ghost im = members_model(input@);
    let mut out = new_members();
    let mut i: usize = 0;
    while i < input.len()
        invariant
            im == members_model(input@),
            i <= input@.len(),
            members_model(out@) == bridge_members(canonical_tool@, im.subrange(0, i as int)),
        decreases input@.len() - i,
    {
        assert(im.subrange(0, i + 1).drop_last() =~= im.subrange(0, i as int));
        assert(im.subrange(0, i + 1).last() == im[i as int]);
        match bridge_key_of(canonical_tool, input[i].0.as_str()) {
            Some(k) => {
                let v = input[i].1.deep_clone();
                object_insert(&mut out, k.as_str(), v);
            },
            None => {},
        }
        i = i + 1;
    }
    assert(im.subrange(0, i as int) =~= im);
    object_of(out)
}


// ---------------------------------------------------------------------------
// planning the bridge command

/// What to do after a call was prepared and its session chosen.
pub enum CallPlan {
    /// Answer at once with this result; nothing goes to the plugin.
    Done(JsonValue),
    /// Send this command with these parameters to the plugin of the session.
    Send { session_id: String, command: String, params: JsonValue },
}

/// The model of a plan.
pub enum CallPlanModel {
    Done(Json),
    Send(Seq<char>, Seq<char>, Json),
}

impl CallPlan {
    pub open spec fn model(&self) -> CallPlanModel {
        match self {
            CallPlan::Done(v) => CallPlanModel::Done(v.model()),
            CallPlan::Send { session_id, command, params } => CallPlanModel::Send(session_id@, command@, params.model()),
        }
    }
}

/// The answer to a dry run of `figma.delete_node`.
pub open spec fn dry_run_result(node_id: Seq<char>) -> Json {
    Json::Object(no_members()
        .push(("node_id"@, Json::Str(node_id)))
        .push(("deleted"@, Json::Bool(false)))
        .push(("dry_run"@, Json::Bool(true))))
}

/// A boolean input member, `false` where absent or not a boolean.
pub open spec fn flag(input: Seq<(Seq<char>, Json)>, key: Seq<char>) -> bool {
    match Json::Object(input).bool_at(key) {
        Some(b) => b,
        None => false,
    }
}

/// The command to the plugin for a canonical tool, with its parameters.
pub open spec fn send_plan(tool: Seq<char>, input: Seq<(Seq<char>, Json)>, session_id: Seq<char>) -> CallPlanModel {
    CallPlanModel::Send(session_id, spec_plugin_command(spec_legacy_name(tool)), Json::Object(bridge_members(tool, input)))
}

/// The second stage of a call. `figma.delete_node` needs a string
/// `node_id` and `confirm` set to `true`; with `dry_run` set it answers
/// without touching the document. Every other call goes to the plugin.
pub open spec fn spec_plan_call(tool: Seq<char>, input: Seq<(Seq<char>, Json)>, session_id: Seq<char>) -> Result<CallPlanModel, CallErrorModel> {
    if tool == "figma.delete_node"@ {
        match Json::Object(input).str_at("node_id"@) {
            None => Err(error_model("invalid_input"@, "Missing required argument: node_id"@, field_details("node_id"@))),
            Some(node_id) => {
                if !flag(input, "confirm"@) {
                    Err(error_model(
                        "confirmation_required"@,
                        "Destructive action requires confirm=true"@,
                        field_details("confirm"@),
                    ))
                } else if flag(input, "dry_run"@) {
                    Ok(CallPlanModel::Done(dry_run_result(node_id)))
                } else {
                    Ok(send_plan(tool, input, session_id))
                }
            },
        }
    } else {
        Ok(send_plan(tool, input, session_id))
    }
}

/// Decides what a prepared call does (see `spec_plan_call`).
pub fn plan_call(prepared: &PreparedCall, session_id: String) -> (r: Result<CallPlan, CallError>)
    ensures
        match r {
            Ok(p) => spec_plan_call(prepared.canonical_tool@, members_model(prepared.input@), session_id@)
                == Ok::<CallPlanModel, CallErrorModel>(p.model()),
            Err(e) => spec_plan_call(prepared.canonical_tool@, members_model(prepared.input@), session_id@)
                == Err::<CallPlanModel, CallErrorModel>(e.model()),
        },
{
    let tool = prepared.canonical_tool;
    let input = &prepared.input;
    if str_eq(tool, "figma.delete_node") {
        let confirm = match input_bool(input, "confirm") {
            Some(b) => b,
            None => false,
        };
        let dry_run = match input_bool(input, "dry_run") {
            Some(b) => b,
            None => false,
        };
        let node_id = match input_str(input, "node_id") {
            Some(n) => n,
            None => {
                return Err(error_tuple(
                    "invalid_input",
                    String::from_str("Missing required argument: node_id"),
                    field_details_of("node_id"),
                ));
            },
        };
        if !confirm {
            return Err(error_tuple(
                "confirmation_required",
                String::from_str("Destructive action requires confirm=true"),
                field_details_of("confirm"),
            ));
        }
        if dry_run {
            let mut m = new_members();
            push_member(&mut m, "node_id", JsonValue::string(node_id));
            push_member(&mut m, "deleted", JsonValue::Bool(false));
            push_member(&mut m, "dry_run", JsonValue::Bool(true));
            return Ok(CallPlan::Done(object_of(m)));
        }
    }
    let params = canonical_input_to_bridge_input(tool, session_id.as_str(), input);
    let legacy = canonical_to_legacy_tool(tool);
    let command = plugin_command_name(legacy);
    Ok(CallPlan::Send { session_id, command, params })
}

// ---------------------------------------------------------------------------
// the plugin's answer

/// The error code for a failure reported by the bridge, read from its
/// message.
pub open spec fn bridge_error_code(message: Seq<char>) -> Seq<char> {
    if contains_text(message, "Bridge unavailable"@) || contains_text(message, "No plugin connected"@) {
        "provider_unavailable"@
    } else if contains_text(message, "timeout"@) {
        "timeout"@
    } else if contains_text(message, "Node not found"@) || contains_text(message, "Page not found"@) {
        "not_found"@
    } else {
        "internal_error"@
    }
}

/// Classifies a failure reported by the bridge by its message.
pub fn map_bridge_error(message: String) -> (r: CallError)
    ensures
        r.model() == error_model(bridge_error_code(message@), message@, empty_object()),
{
    let code = if contains(message.as_str(), "Bridge unavailable") || contains(message.as_str(), "No plugin connected") {
        "provider_unavailable"
    } else if contains(message.as_str(), "timeout") {
        "timeout"
    } else if contains(message.as_str(), "Node not found") || contains(message.as_str(), "Page not found") {
        "not_found"
    } else {
        "internal_error"
    };
    error_tuple(code, message, empty_details())
}

pub open spec fn page_summary(p: Json) -> Json {
    Json::Object(no_members().push(("id"@, p.get_or_null("id"@))).push(("name"@, p.get_or_null("name"@))))
}

pub open spec fn node_summary(n: Json) -> Json {
    Json::Object(no_members()
        .push(("id"@, n.get_or_null("id"@)))
        .push(("name"@, n.get_or_null("name"@)))
        .push(("type"@, n.get_or_null("type"@))))
}

/// The items of an array, or none.
pub open spec fn array_items(v: Option<Json>) -> Seq<Json> {
    match v {
        Some(Json::Array(items)) => items,
        _ => no_items(),
    }
}

/// A boolean under `key`, `true` where absent or not a boolean.
pub open spec fn success_flag(raw: Json) -> bool {
    match raw.bool_at("success"@) {
        Some(b) => b,
        None => true,
    }
}

/// The canonical result of a tool, made from the plugin's raw answer (and,
/// for some tools, from the call's input).
pub open spec fn spec_normalize_result(tool: Seq<char>, input: Seq<(Seq<char>, Json)>, raw: Json) -> Result<Json, CallErrorModel> {
    let inp = Json::Object(input);
    if tool == "figma.get_document"@ {
        let pages = array_items(raw.get("children"@));
        Ok(Json::Object(no_members()
            .push(("document_id"@, raw.get_or_null("id"@)))
            .push(("name"@, raw.get_or_null("name"@)))
            .push(("pages"@, Json::Array(Seq::new(pages.len(), |i: int| page_summary(pages[i])))))))
    } else if tool == "figma.get_page"@ {
        Ok(Json::Object(no_members()
            .push(("id"@, raw.get_or_null("id"@)))
            .push(("name"@, raw.get_or_null("name"@)))
            .push(("node_count"@, raw.get_or_null("childCount"@)))))
    } else if tool == "figma.get_selection"@ {
        let nodes = array_items(Some(raw));
        Ok(Json::Object(no_members()
            .push(("nodes"@, Json::Array(Seq::new(nodes.len(), |i: int| node_summary(nodes[i])))))))
    } else if tool == "figma.get_node"@ {
        Ok(Json::Object(no_members()
            .push(("id"@, raw.get_or_null("id"@)))
            .push(("name"@, raw.get_or_null("name"@)))
            .push(("type"@, raw.get_or_null("type"@)))
            .push(("parent_id"@, raw.get_or_null("parentId"@)))
            .push(("x"@, raw.get_or_null("x"@)))
            .push(("y"@, raw.get_or_null("y"@)))
            .push(("width"@, raw.get_or_null("width"@)))
            .push(("height"@, raw.get_or_null("height"@)))))
    } else if tool == "figma.create_frame"@ {
        Ok(Json::Object(no_members()
            .push(("node_id"@, raw.get_or_null("id"@)))
            .push(("name"@, raw.get_or_null("name"@)))
            .push(("type"@, Json::Str("FRAME"@)))))
    } else if tool == "figma.create_text"@ {
        Ok(Json::Object(no_members()
            .push(("node_id"@, raw.get_or_null("id"@)))
            .push(("type"@, Json::Str("TEXT"@)))
            .push(("text"@, inp.get_or_null("text"@)))))
    } else if tool == "figma.set_fill"@ {
        Ok(Json::Object(no_members()
            .push(("node_id"@, inp.get_or_null("node_id"@)))
            .push(("fill_applied"@, Json::Bool(success_flag(raw))))))
    } else if tool == "figma.move_node"@ {
        Ok(Json::Object(no_members()
            .push(("node_id"@, inp.get_or_null("node_id"@)))
            .push(("x"@, inp.get_or_null("x"@)))
            .push(("y"@, inp.get_or_null("y"@)))))
    } else if tool == "figma.delete_node"@ {
        Ok(Json::Object(no_members()
            .push(("node_id"@, inp.get_or_null("node_id"@)))
            .push(("deleted"@, Json::Bool(success_flag(raw))))
            .push(("dry_run"@, match inp.get("dry_run"@) {
                Some(v) => v,
                None => Json::Bool(false),
            }))))
    } else {
        Err(error_model("unknown_tool"@, "Unsupported canonical tool: "@ + tool, empty_object()))
    }
}

/// Builds the summaries of the items of an array, each with the keys
/// `id`, `name` and (where `with_type` holds) `type`.
fn summaries(items: &Vec<JsonValue>, with_type: bool) -> (r: JsonValue)
    ensures
        r.model() == Json::Array(Seq::new(items@.len(), |i: int|
            if with_type { node_summary(items@[i].model()) } else { page_summary(items@[i].model()) })),
{
    let mut out = new_items();
    let mut i: usize = 0;
    while i < items.len()
        invariant
            i <= items@.len(),
            crate::json::items_model(out@) == Seq::new(i as nat, |k: int|
                if with_type { node_summary(items@[k].model()) } else { page_summary(items@[k].model()) }),
        decreases items@.len() - i,
    {
        let item = &items[i];
        let mut m = new_members();
        push_member(&mut m, "id", item.get_or_null("id"));
        push_member(&mut m, "name", item.get_or_null("name"));
        if with_type {
            push_member(&mut m, "type", item.get_or_null("type"));
        }
        let ghost before = crate::json::items_model(out@);
        push_item(&mut out, object_of(m));
        assert(crate::json::items_model(out@) =~= Seq::new((i + 1) as nat, |k: int|
            if with_type { node_summary(items@[k].model()) } else { page_summary(items@[k].model()) }));
        i = i + 1;
    }
    array_of(out)
}

/// The plugin's raw answer turned into the tool's canonical result.
pub fn normalize_result(canonical_tool: &str, input: &Vec<(String, JsonValue)>, raw: &JsonValue) -> (r: Result<JsonValue, CallError>)
    ensures
        match r {
            Ok(v) => spec_normalize_result(canonical_tool@, members_model(input@), raw.model())
                == Ok::<Json, CallErrorModel>(v.model()),
            Err(e) => spec_normalize_result(canonical_tool@, members_model(input@), raw.model())
                == Err::<Json, CallErrorModel>(e.model()),
        },
{
    let mut m = new_members();
    if str_eq(canonical_tool, "figma.get_document") {
        push_member(&mut m, "document_id", raw.get_or_null("id"));
        push_member(&mut m, "name", raw.get_or_null("name"));
        let pages = match raw.get("children") {
            Some(JsonValue::Array(items)) => {
                let r = summaries(items, false);
                let ghost ps = array_items(raw.model().get("children"@));
                assert(ps.len() == items@.len());
                assert(r.model()->Array_0 =~= Seq::new(ps.len(), |i: int| page_summary(ps[i])));
                r
            },
            _ => {
                let r = array_of(new_items());
                assert(r.model()->Array_0 =~= Seq::new(0, |i: int| page_summary(no_items()[i])));
                r
            },
        };
        push_member(&mut m, "pages", pages);
        return Ok(object_of(m));
    } else if str_eq(canonical_tool, "figma.get_page") {
        push_member(&mut m, "id", raw.get_or_null("id"));
        push_member(&mut m, "name", raw.get_or_null("name"));
        push_member(&mut m, "node_count", raw.get_or_null("childCount"));
        return Ok(object_of(m));
    } else if str_eq(canonical_tool, "figma.get_selection") {
        let nodes = match raw {
            JsonValue::Array(items) => {
                let r = summaries(items, true);
                let ghost ns = array_items(Some(raw.model()));
                assert(ns.len() == items@.len());
                assert(r.model()->Array_0 =~= Seq::new(ns.len(), |i: int| node_summary(ns[i])));
                r
            },
            _ => {
                let r = array_of(new_items());
                assert(r.model()->Array_0 =~= Seq::new(0, |i: int| node_summary(no_items()[i])));
                r
            },
        };
        push_member(&mut m, "nodes", nodes);
        return Ok(object_of(m));
    } else if str_eq(canonical_tool, "figma.get_node") {
        push_member(&mut m, "id", raw.get_or_null("id"));
        push_member(&mut m, "name", raw.get_or_null("name"));
        push_member(&mut m, "type", raw.get_or_null("type"));
        push_member(&mut m, "parent_id", raw.get_or_null("parentId"));
        push_member(&mut m, "x", raw.get_or_null("x"));
        push_member(&mut m, "y", raw.get_or_null("y"));
        push_member(&mut m, "width", raw.get_or_null("width"));
        push_member(&mut m, "height", raw.get_or_null("height"));
        return Ok(object_of(m));
    } else if str_eq(canonical_tool, "figma.create_frame") {
        push_member(&mut m, "node_id", raw.get_or_null("id"));
        push_member(&mut m, "name", raw.get_or_null("name"));
        push_member(&mut m, "type", JsonValue::string("FRAME"));
        return Ok(object_of(m));
    } else if str_eq(canonical_tool, "figma.create_text") {
        push_member(&mut m, "node_id", raw.get_or_null("id"));
        push_member(&mut m, "type", JsonValue::string("TEXT"));
        push_member(&mut m, "text", input_or_null(input, "text"));
        return Ok(object_of(m));
    } else if str_eq(canonical_tool, "figma.set_fill") {
        push_member(&mut m, "node_id", input_or_null(input, "node_id"));
        let applied = match raw.bool_at("success") {
            Some(b) => b,
            None => true,
        };
        push_member(&mut m, "fill_applied", JsonValue::Bool(applied));
        return Ok(object_of(m));
    } else if str_eq(canonical_tool, "figma.move_node") {
        push_member(&mut m, "node_id", input_or_null(input, "node_id"));
        push_member(&mut m, "x", input_or_null(input, "x"));
        push_member(&mut m, "y", input_or_null(input, "y"));
        return Ok(object_of(m));
    } else if str_eq(canonical_tool, "figma.delete_node") {
        push_member(&mut m, "node_id", input_or_null(input, "node_id"));
        let deleted = match raw.bool_at("success") {
            Some(b) => b,
            None => true,
        };
        push_member(&mut m, "deleted", JsonValue::Bool(deleted));
        let dry = match member_lookup(input, "dry_run") {
            Some(v) => v.deep_clone(),
            None => JsonValue::Bool(false),
        };
        push_member(&mut m, "dry_run", dry);
        return Ok(object_of(m));
    } else {
        return Err(error_tuple(
            "unknown_tool",
            concat2("Unsupported canonical tool: ", canonical_tool),
            empty_details(),
        ));
    }
}

/// The last stage of a call: the bridge's failure classified, or the
/// plugin's answer normalized.
pub open spec fn spec_finish_call(tool: Seq<char>, input: Seq<(Seq<char>, Json)>, reply: Result<Json, Seq<char>>) -> Result<Json, CallErrorModel> {
    match reply {
        Err(m) => Err(error_model(bridge_error_code(m), m, empty_object())),
        Ok(raw) => spec_normalize_result(tool, input, raw),
    }
}

/// Finishes a call with what the bridge answered (see `spec_finish_call`).
pub fn finish_call(prepared: &PreparedCall, reply: Result<JsonValue, String>) -> (r: Result<JsonValue, CallError>)
    ensures
        match r {
            Ok(v) => spec_finish_call(prepared.canonical_tool@, members_model(prepared.input@), match reply {
                Ok(x) => Ok(x.model()),
                Err(m) => Err(m@),
            }) == Ok::<Json, CallErrorModel>(v.model()),
            Err(e) => spec_finish_call(prepared.canonical_tool@, members_model(prepared.input@), match reply {
                Ok(x) => Ok(x.model()),
                Err(m) => Err(m@),
            }) == Err::<Json, CallErrorModel>(e.model()),
        },
{
    match reply {
        Err(message) => Err(map_bridge_error(message)),
        Ok(raw) => normalize_result(prepared.canonical_tool, &prepared.input, &raw),
    }
}


// ---------------------------------------------------------------------------
// the answer envelope

/// `{"duration_ms": n, "warnings": [], "artifacts": []}`.
pub open spec fn meta_model(duration_ms: u128) -> Json {
    Json::Object(no_members()
        .push(("duration_ms"@, Json::Number(decimal(duration_ms as nat))))
        .push(("warnings"@, Json::Array(no_items())))
        .push(("artifacts"@, Json::Array(no_items()))))
}

/// The envelope a call answers with: `ok`, the tool as the request named it,
/// the provider, the schema version, then the result or the error, and the
/// call's duration.
pub open spec fn call_envelope_model(tool: Seq<char>, outcome: Result<Json, CallErrorModel>, duration_ms: u128) -> Json {
    let head = no_members()
        .push(("ok"@, Json::Bool(outcome is Ok)))
        .push(("tool"@, Json::Str(tool)))
        .push(("provider"@, Json::Str("figma"@)))
        .push(("schema_version"@, Json::Str("1"@)));
    match outcome {
        Ok(v) => Json::Object(head.push(("result"@, v)).push(("meta"@, meta_model(duration_ms)))),
        Err(e) => Json::Object(head.push(("error"@, Json::Object(no_members()
            .push(("code"@, Json::Str(e.code)))
            .push(("message"@, Json::Str(e.message)))
            .push(("details"@, e.details))))).push(("meta"@, meta_model(duration_ms)))),
    }
}

/// Builds the envelope a call answers with.
pub fn call_envelope(tool: &str, outcome: Result<JsonValue, CallError>, duration_ms: u128) -> (r: JsonValue)
    ensures
        r.model() == call_envelope_model(tool@, match outcome {
            Ok(v) => Ok(v.model()),
            Err(e) => Err(e.model()),
        }, duration_ms),
{
    let mut m = new_members();
    push_member(&mut m, "ok", JsonValue::Bool(outcome.is_ok()));
    push_member(&mut m, "tool", JsonValue::string(tool));
    push_member(&mut m, "provider", JsonValue::string("figma"));
    push_member(&mut m, "schema_version", JsonValue::string("1"));
    match outcome {
        Ok(v) => {
            push_member(&mut m, "result", v);
        },
        Err(e) => {
            let mut em = new_members();
            push_member(&mut em, "code", JsonValue::Str(e.code));
            push_member(&mut em, "message", JsonValue::Str(e.message));
            push_member(&mut em, "details", e.details);
            push_member(&mut m, "error", object_of(em));
        },
    }
    let mut meta = new_members();
    push_member(&mut meta, "duration_ms", number_from(duration_ms));
    push_member(&mut meta, "warnings", array_of(new_items()));
    push_member(&mut meta, "artifacts", array_of(new_items()));
    push_member(&mut m, "meta", object_of(meta));
    object_of(m)
}

// ---------------------------------------------------------------------------
// talking to the bridge

/// The body of a command posted to the bridge.
pub open spec fn bridge_command_body_model(command: Seq<char>, params: Json) -> Json {
    Json::Object(no_members()
        .push(("command"@, Json::Str(command)))
        .push(("params"@, params))
        .push(("timeout_ms"@, Json::Number(decimal(30000)))))
}

/// Builds the body of a command posted to the bridge.
pub fn bridge_command_body(command: &str, params: JsonValue) -> (r: JsonValue)
    ensures
        r.model() == bridge_command_body_model(command@, params.model()),
{
    let mut m = new_members();
    push_member(&mut m, "command", JsonValue::string(command));
    push_member(&mut m, "params", params);
    push_member(&mut m, "timeout_ms", number_from(30000));
    object_of(m)
}

/// What the bridge's answer to a command means: its `result` (`null` where
/// absent) where `success` is `true`, else its `error` string (a fixed
/// message where it has none).
pub open spec fn spec_bridge_reply(value: Json) -> Result<Json, Seq<char>> {
    if value.get("success"@) == Some(Json::Bool(true)) {
        Ok(value.get_or_null("result"@))
    } else {
        match value.str_at("error"@) {
            Some(m) => Err(m),
            None => Err("Bridge command failed"@),
        }
    }
}

/// Reads the bridge's answer to a command (see `spec_bridge_reply`).
pub fn interpret_bridge_reply(value: &JsonValue) -> (r: Result<JsonValue, String>)
    ensures
        match r {
            Ok(v) => spec_bridge_reply(value.model()) == Ok::<Json, Seq<char>>(v.model()),
            Err(m) => spec_bridge_reply(value.model()) == Err::<Json, Seq<char>>(m@),
        },
{
    let success = match value.get("success") {
        Some(JsonValue::Bool(true)) => true,
        _ => false,
    };
    if success {
        Ok(value.get_or_null("result"))
    } else {
        match value.str_at("error") {
            Some(m) => Err(String::from_str(m)),
            None => Err(String::from_str("Bridge command failed")),
        }
    }
}

// ---------------------------------------------------------------------------
// reading the request

/// A request made from a tool name and positional arguments.
pub fn request_from_args(tool: Option<String>, args: JsonValue) -> (r: Result<CallRequest, String>)
    ensures
        match r {
            Ok(req) => (tool matches Some(t) && req.tool@ == t@) && req.schema_version@ == "1"@
                && req.input.model() == args.model() && req.context.model() == Json::Object(no_members()),
            Err(m) => tool is None && m@ == "Tool name required when using positional args"@,
        },
{
    match tool {
        Some(t) => Ok(CallRequest {
            tool: t,
            schema_version: default_schema_version(),
            input: args,
            context: object_of(new_members()),
        }),
        None => Err(String::from_str("Tool name required when using positional args")),
    }
}

/// The message where no request was given.
pub open spec fn no_request_message() -> Seq<char> {
    "No request provided. Pass a canonical JSON request via stdin or use compatibility mode: call <tool> <args-json>"@
}

/// Refuses an empty request text (after trimming).
pub fn check_stdin_payload(trimmed: &str) -> (r: Result<(), String>)
    ensures
        r is Ok <==> trimmed@.len() > 0,
        r matches Err(m) ==> m@ == no_request_message(),
{
    if trimmed.unicode_len() == 0 {
        Err(String::from_str(
            "No request provided. Pass a canonical JSON request via stdin or use compatibility mode: call <tool> <args-json>",
        ))
    } else {
        Ok(())
    }
}

/// How a JSON value read as a request is taken.
pub enum StdinRequest {
    /// It is a canonical request (it has `tool` and `input`): read it as one.
    Canonical,
    /// It is the input of the named tool.
    Plain(CallRequest),
}

/// Takes the JSON value read as a request: a canonical request where it has
/// both `tool` and `input`; otherwise the input of the tool named on the
/// command line, which must then be named.
pub fn request_from_stdin(tool: Option<String>, parsed: JsonValue) -> (r: Result<StdinRequest, String>)
    ensures
        ({
            let canonical = parsed.model().get("tool"@) is Some && parsed.model().get("input"@) is Some;
            match r {
                Ok(StdinRequest::Canonical) => canonical,
                Ok(StdinRequest::Plain(req)) => !canonical && (tool matches Some(t) && req.tool@ == t@
                    && req.schema_version@ == "1"@ && req.input.model() == parsed.model()
                    && req.context.model() == Json::Object(no_members())),
                Err(m) => !canonical && tool is None
                    && m@ == "Tool name required when stdin payload is not a canonical request envelope"@,
            }
        }),
{
    if parsed.get("tool").is_some() && parsed.get("input").is_some() {
        return Ok(StdinRequest::Canonical);
    }
    match tool {
        Some(t) => Ok(StdinRequest::Plain(CallRequest {
            tool: t,
            schema_version: default_schema_version(),
            input: parsed,
            context: object_of(new_members()),
        })),
        None => Err(String::from_str("Tool name required when stdin payload is not a canonical request envelope")),
    }
}

} // verus!
