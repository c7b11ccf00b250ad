use vstd::prelude::*;
use vstd::string::*;

use crate::call::{
    spec_prepare_call, array_items, empty_object, spec_normalize_result,
    bridge_error_code, bridge_key, bridge_members, dry_run_result, error_model, field_details, flag,
    send_plan, spec_bridge_reply, spec_plan_call, CallErrorModel, CallPlanModel,
};
use crate::json::{first_key_at, lemma_first_occurrence, lemma_get_insert_other, lemma_get_insert_same, lemma_get_push_new, lemma_get_push_other, lemma_insert_keys, lemma_member_at, member_get, no_members, Json};
use crate::contracts::{lemma_contract_keys_distinct, spec_contract_delete_node, spec_tool_contract};
use crate::schema::{has_key, law_accepted_arguments_fit, properties_of, required_list};
use crate::tools::{ascii_upper, camel_from, lemma_tool_names_distinct, spec_canonical_tool_names, spec_legacy_name};
use crate::legacy_tools::{law_described_tools_are_the_listed_ones, spec_has_description, spec_tool_names};
use crate::session::{BridgeState, SessionInfoModel, opt_view, bridge_error_message, command_response_model, response_outcome, BridgeError, PendingModel, SessionModel};
use crate::text::{contains_text, decimal, digit_char, occurs_at};

verus! {

/// The keys of a command answer differ.
pub proof fn lemma_reply_keys_distinct()
    ensures
        "success"@ != "result"@,
        "success"@ != "error"@,
        "result"@ != "error"@,
{
    reveal_strlit("success");
    assert("success"@.len() == 7);
    reveal_strlit("result");
    assert("result"@.len() == 6);
    reveal_strlit("error");
    assert("error"@.len() == 5);
}

/// What the bridge's HTTP answer to a command says is read back unchanged by
/// the provider: the result of a success, the message of a failure.
pub proof fn law_command_answer_round_trip(result: Result<Json, Seq<char>>)
    ensures
        spec_bridge_reply(command_response_model(result)) == result,
{
    lemma_reply_keys_distinct();
    match result {
        Ok(v) => {
            let m = no_members().push(("success"@, Json::Bool(true))).push(("result"@, v));
            lemma_member_at(m, "success"@, 0);
            lemma_member_at(m, "result"@, 1);
        },
        Err(msg) => {
            let m = no_members().push(("success"@, Json::Bool(false))).push(("error"@, Json::Str(msg)));
            lemma_member_at(m, "success"@, 0);
            lemma_member_at(m, "error"@, 1);
        },
    }
}

/// Every character of a decimal text is a digit.
pub proof fn lemma_decimal_digits(n: nat)
    ensures
        forall|i: int| 0 <= i < decimal(n).len() ==> '0' <= #[trigger] decimal(n)[i] <= '9',
    decreases n,
{
    if n >= 10 {
        lemma_decimal_digits(n / 10);
        let p = decimal(n / 10);
        assert(decimal(n) == p.push(digit_char(n % 10)));
        assert forall|i: int| 0 <= i < decimal(n).len() implies '0' <= #[trigger] decimal(n)[i] <= '9' by {
            if i < p.len() {
                assert(decimal(n)[i] == p[i]);
            }
        }
    }
}

/// A text in which the first character of `needle` never occurs does not
/// contain `needle`.
pub proof fn lemma_missing_first_char(hay: Seq<char>, needle: Seq<char>)
    requires
        needle.len() > 0,
        forall|i: int| 0 <= i < hay.len() ==> hay[i] != needle[0],
    ensures
        !contains_text(hay, needle),
{
    assert forall|i: int| !occurs_at(hay, needle, i) by {
        if occurs_at(hay, needle, i) {
            assert(hay.subrange(i, i + needle.len())[0] == hay[i]);
        }
    }
}

/// The provider classifies the bridge's own failures: a channel with no
/// plugin as `provider_unavailable`, a timed-out command as `timeout`.
pub proof fn law_bridge_errors_classified(channel: String, ms: u64)
    ensures
        bridge_error_code(bridge_error_message(BridgeError::NoPluginConnected(channel))) == "provider_unavailable"@,
        bridge_error_code(bridge_error_message(BridgeError::Timeout(ms))) == "timeout"@,
{
    reveal_strlit("No plugin connected for channel: ");
    reveal_strlit("No plugin connected");
    reveal_strlit("Command timeout after ");
    reveal_strlit("timeout");
    reveal_strlit("ms");
    reveal_strlit("Bridge unavailable");
    reveal_strlit("provider_unavailable");
    reveal_strlit("Node not found");
    reveal_strlit("Page not found");
    let m1 = bridge_error_message(BridgeError::NoPluginConnected(channel));
    assert(m1.subrange(0, 19) =~= "No plugin connected"@);
    assert(occurs_at(m1, "No plugin connected"@, 0));
    let m2 = bridge_error_message(BridgeError::Timeout(ms));
    let d = decimal(ms as nat);
    assert(m2 == "Command timeout after "@ + d + "ms"@);
    lemma_decimal_digits(ms as nat);
    assert forall|i: int| 0 <= i < m2.len() implies m2[i] != 'B' && m2[i] != 'N' by {
        if i < 22 {
        } else if i < 22 + d.len() {
            assert(m2[i] == d[i - 22]);
        } else {
        }
    }
    assert("Bridge unavailable"@[0] == 'B');
    assert("No plugin connected"@[0] == 'N');
    lemma_missing_first_char(m2, "Bridge unavailable"@);
    lemma_missing_first_char(m2, "No plugin connected"@);
    assert(m2.subrange(8, 15) =~= "timeout"@);
    assert(occurs_at(m2, "timeout"@, 8));
}

/// The routing keys differ from the names the plugin receives.
pub proof fn lemma_routing_keys_distinct()
    ensures
        "session_id"@ != "channel"@,
        "session_id"@ != "pageId"@,
        "session_id"@ != "nodeId"@,
        "session_id"@ != "parentId"@,
        "session_id"@ != "dryRun"@,
        "session_id"@ != "characters"@,
        "channel"@ != "pageId"@,
        "channel"@ != "nodeId"@,
        "channel"@ != "parentId"@,
        "channel"@ != "dryRun"@,
        "channel"@ != "characters"@,
        "pageId"@ != "nodeId"@,
        "pageId"@ != "parentId"@,
        "pageId"@ != "dryRun"@,
        "pageId"@ != "characters"@,
        "nodeId"@ != "parentId"@,
        "nodeId"@ != "dryRun"@,
        "nodeId"@ != "characters"@,
        "parentId"@ != "dryRun"@,
        "parentId"@ != "characters"@,
        "dryRun"@ != "characters"@,
{
    reveal_strlit("session_id");
    assert("session_id"@.len() == 10);
    reveal_strlit("channel");
    assert("channel"@.len() == 7);
    reveal_strlit("pageId");
    assert("pageId"@.len() == 6);
    reveal_strlit("nodeId");
    assert("nodeId"@.len() == 6);
    reveal_strlit("parentId");
    assert("parentId"@.len() == 8);
    reveal_strlit("dryRun");
    assert("dryRun"@.len() == 6);
    reveal_strlit("characters");
    assert("characters"@.len() == 10);
    assert("session_id"@[0] != "characters"@[0]);
    assert("pageId"@[0] != "nodeId"@[0]);
    assert("pageId"@[0] != "dryRun"@[0]);
    assert("nodeId"@[0] != "dryRun"@[0]);
}

/// A confirmed `figma.delete_node` needs `confirm` set to `true`: without it
/// the call is refused with `confirmation_required` and nothing is sent.
pub proof fn law_delete_requires_confirmation(input: Seq<(Seq<char>, Json)>, session_id: Seq<char>)
    requires
        Json::Object(input).str_at("node_id"@) is Some,
        !flag(input, "confirm"@),
    ensures
        spec_plan_call("figma.delete_node"@, input, session_id) == Err::<CallPlanModel, CallErrorModel>(error_model(
            "confirmation_required"@,
            "Destructive action requires confirm=true"@,
            field_details("confirm"@),
        )),
{
}

/// A confirmed dry run of `figma.delete_node` answers that nothing was deleted
/// and sends nothing to the plugin.
pub proof fn law_delete_dry_run_sends_nothing(input: Seq<(Seq<char>, Json)>, session_id: Seq<char>)
    requires
        Json::Object(input).str_at("node_id"@) is Some,
        flag(input, "confirm"@),
        flag(input, "dry_run"@),
    ensures
        spec_plan_call("figma.delete_node"@, input, session_id) == Ok::<CallPlanModel, CallErrorModel>(
            CallPlanModel::Done(dry_run_result(Json::Object(input).str_at("node_id"@)->0)),
        ),
{
}

/// Every other call is sent to the plugin of its session.
pub proof fn law_other_tools_are_sent(tool: Seq<char>, input: Seq<(Seq<char>, Json)>, session_id: Seq<char>)
    requires
        tool != "figma.delete_node"@,
    ensures
        spec_plan_call(tool, input, session_id) == Ok::<CallPlanModel, CallErrorModel>(send_plan(tool, input, session_id)),
{
}

/// The members that only route a call (`session_id`, `channel`) never reach
/// the plugin.
pub proof fn law_routing_keys_never_reach_plugin(tool: Seq<char>, input: Seq<(Seq<char>, Json)>)
    ensures
        !has_key(bridge_members(tool, input), "session_id"@),
        !has_key(bridge_members(tool, input), "channel"@),
    decreases input.len(),
{
    if input.len() > 0 {
        law_routing_keys_never_reach_plugin(tool, input.drop_last());
        lemma_routing_keys_distinct();
        let prev = bridge_members(tool, input.drop_last());
        match bridge_key(tool, input.last().0) {
            None => {},
            Some(k) => {
                assert(k != "session_id"@ && k != "channel"@);
                lemma_insert_keys(prev, k, input.last().1, "session_id"@);
                lemma_insert_keys(prev, k, input.last().1, "channel"@);
            },
        }
    }
}

/// An answer to a command reaches the handle the command was sent with, and
/// only once: after it the request no longer awaits an answer (a second
/// answer finds nothing), and every other waiting request is as it was.
/// `sent` is a registry as `send_command` leaves it, `answered` as
/// `handle_response` then leaves it.
pub proof fn law_answer_reaches_requester<O, R>(
    before: BridgeState<O, R>,
    sent: BridgeState<O, R>,
    answered: BridgeState<O, R>,
    request_id: Seq<char>,
    channel: Seq<char>,
    reply: R,
)
    requires
        sent.pending() == before.pending().insert(request_id, PendingModel { channel, tx: reply }),
        answered.pending() == sent.pending().remove(request_id),
    ensures
        sent.pending().contains_key(request_id),
        sent.pending()[request_id].tx == reply,
        !answered.pending().contains_key(request_id),
        forall|k: Seq<char>| k != request_id && #[trigger] before.pending().contains_key(k)
            ==> answered.pending().contains_key(k) && answered.pending()[k] == before.pending()[k],
{
}

/// A plugin's error message wins over any result it sent along.
pub proof fn law_error_wins(result: Option<Json>, message: Seq<char>)
    ensures
        response_outcome(result, Some(message)) == Err::<Json, Seq<char>>(message),
{
}

/// When a plugin disconnects, its channel has no session left and no request
/// on it is left waiting (so a command to it fails), while every other
/// session and every request on another channel is kept as it was. `after`
/// is a registry as `unregister_session` leaves it.
pub proof fn law_disconnect_settles_its_requests<O, R>(before: BridgeState<O, R>, after: BridgeState<O, R>, channel: Seq<char>)
    requires
        after.sessions() == before.sessions().remove(channel),
        after.pending() == before.pending().restrict(
            before.pending().dom().filter(|k: Seq<char>| before.pending()[k].channel != channel),
        ),
    ensures
        !after.sessions().contains_key(channel),
        forall|c: Seq<char>| c != channel && #[trigger] before.sessions().contains_key(c)
            ==> after.sessions().contains_key(c) && after.sessions()[c] == before.sessions()[c],
        forall|k: Seq<char>| #[trigger] after.pending().contains_key(k) ==> after.pending()[k].channel != channel,
        forall|k: Seq<char>| #[trigger] before.pending().contains_key(k) && before.pending()[k].channel != channel
            ==> after.pending().contains_key(k) && after.pending()[k] == before.pending()[k],
{
}

proof fn lemma_insert_len<O>(sessions: Map<Seq<char>, SessionModel<O>>, channel: Seq<char>, session: SessionModel<O>)
    requires
        sessions.dom().finite(),
    ensures
        sessions.insert(channel, session).len() == sessions.len() + if sessions.contains_key(channel) { 0int } else { 1int },
{
    assert(sessions.insert(channel, session).dom() =~= sessions.dom().insert(channel));
}

/// A join on a channel that already has a plugin replaces that session; the
/// number of sessions grows only when the channel is new. `after` is a
/// registry as `register_session` leaves it.
pub proof fn law_join_counts_channels_once<O, R>(before: BridgeState<O, R>, after: BridgeState<O, R>, channel: Seq<char>, session: SessionModel<O>)
    requires
        before.wf(),
        after.sessions() == before.sessions().insert(channel, session),
    ensures
        after.sessions()[channel] == session,
        after.sessions().len() == before.sessions().len() + if before.sessions().contains_key(channel) { 0int } else { 1int },
{
    before.lemma_finite();
    lemma_insert_len(before.sessions(), channel, session);
}

/// What a plugin answers to a command is what the provider reads from the
/// bridge: the result (`null` where absent) where the plugin sent no error
/// message, the error message otherwise.
pub proof fn law_plugin_answer_reaches_provider(result: Option<Json>, error: Option<String>)
    ensures
        spec_bridge_reply(command_response_model(match response_outcome(result, opt_view(error)) {
            Ok(v) => Ok(v),
            Err(_) => Err(bridge_error_message(BridgeError::Plugin(error->0))),
        })) == response_outcome(result, opt_view(error)),
{
    match response_outcome(result, opt_view(error)) {
        Ok(v) => law_command_answer_round_trip(Ok(v)),
        Err(m) => law_command_answer_round_trip(Err(m)),
    }
}

/// The members of the delete input schema differ.
pub proof fn lemma_delete_input_keys_distinct()
    ensures
        "session_id"@ != "node_id"@,
        "session_id"@ != "confirm"@,
        "session_id"@ != "dry_run"@,
        "session_id"@ != "type"@,
        "node_id"@ != "confirm"@,
        "node_id"@ != "dry_run"@,
        "node_id"@ != "type"@,
        "confirm"@ != "dry_run"@,
        "confirm"@ != "type"@,
        "dry_run"@ != "type"@,
{
    reveal_strlit("session_id");
    assert("session_id"@.len() == 10);
    reveal_strlit("node_id");
    assert("node_id"@.len() == 7);
    reveal_strlit("confirm");
    assert("confirm"@.len() == 7);
    reveal_strlit("dry_run");
    assert("dry_run"@.len() == 7);
    reveal_strlit("type");
    assert("type"@.len() == 4);
    assert("node_id"@[0] != "confirm"@[0]);
    assert("node_id"@[0] != "dry_run"@[0]);
    assert("confirm"@[0] != "dry_run"@[0]);
}

/// A `figma.delete_node` call that passed preparation has a string
/// `node_id`: from there it is refused only for want of confirmation, never
/// for a missing node.
pub proof fn law_prepared_delete_names_its_node(tool: Seq<char>, input: Json)
    requires
        spec_prepare_call(tool, input) is Ok,
        spec_prepare_call(tool, input)->Ok_0.0 == "figma.delete_node"@,
    ensures
        Json::Object(spec_prepare_call(tool, input)->Ok_0.1).str_at("node_id"@) is Some,
{
    lemma_tool_names_distinct();
    lemma_contract_keys_distinct();
    lemma_delete_input_keys_distinct();
    let m = spec_prepare_call(tool, input)->Ok_0.1;
    let c = spec_contract_delete_node();
    assert(spec_tool_contract("figma.delete_node"@) == c);
    let top = c->Object_0;
    lemma_member_at(top, "input_schema"@, 4);
    let schema = top[4].1;
    let sm = schema->Object_0;
    lemma_member_at(sm, "required"@, 1);
    lemma_member_at(sm, "properties"@, 2);
    let props = sm[2].1->Object_0;
    assert(properties_of(schema) == props);
    lemma_member_at(props, "node_id"@, 1);
    let prop = props[1].1;
    lemma_member_at(prop->Object_0, "type"@, 0);
    assert(prop.str_at("type"@) == Some("string"@));
    assert(required_list(schema)[0] == Json::Str("node_id"@));
    law_accepted_arguments_fit(schema, m, false, true);
    assert(has_key(m, "node_id"@));
    let j = choose|j: int| #[trigger] first_key_at(m, "node_id"@, j);
    lemma_member_at(m, "node_id"@, j);
    assert(m[j].1 is Str);
}

/// Every canonical tool's legacy name is among the listed legacy tools, and
/// the legacy table describes it.
pub proof fn law_canonical_tools_have_legacy_descriptions(i: int)
    requires
        0 <= i < spec_canonical_tool_names().len(),
    ensures
        spec_tool_names().contains(spec_legacy_name(spec_canonical_tool_names()[i])),
        spec_has_description(spec_legacy_name(spec_canonical_tool_names()[i])),
{
    lemma_tool_names_distinct();
    if i == 0 {
        assert(spec_canonical_tool_names()[i] == "figma.get_document"@);
        assert(spec_legacy_name("figma.get_document"@) == "get_document_info"@);
        assert(spec_tool_names()[1] == "get_document_info"@);
    } else if i == 1 {
        assert(spec_canonical_tool_names()[i] == "figma.get_page"@);
        assert(spec_legacy_name("figma.get_page"@) == "get_page_info"@);
        assert(spec_tool_names()[2] == "get_page_info"@);
    } else if i == 2 {
        assert(spec_canonical_tool_names()[i] == "figma.get_selection"@);
        assert(spec_legacy_name("figma.get_selection"@) == "get_selection"@);
        assert(spec_tool_names()[3] == "get_selection"@);
    } else if i == 3 {
        assert(spec_canonical_tool_names()[i] == "figma.get_node"@);
        assert(spec_legacy_name("figma.get_node"@) == "get_node_info"@);
        assert(spec_tool_names()[5] == "get_node_info"@);
    } else if i == 4 {
        assert(spec_canonical_tool_names()[i] == "figma.create_frame"@);
        assert(spec_legacy_name("figma.create_frame"@) == "create_frame"@);
        assert(spec_tool_names()[7] == "create_frame"@);
    } else if i == 5 {
        assert(spec_canonical_tool_names()[i] == "figma.create_text"@);
        assert(spec_legacy_name("figma.create_text"@) == "create_text"@);
        assert(spec_tool_names()[10] == "create_text"@);
    } else if i == 6 {
        assert(spec_canonical_tool_names()[i] == "figma.set_fill"@);
        assert(spec_legacy_name("figma.set_fill"@) == "set_fill"@);
        assert(spec_tool_names()[16] == "set_fill"@);
    } else if i == 7 {
        assert(spec_canonical_tool_names()[i] == "figma.move_node"@);
        assert(spec_legacy_name("figma.move_node"@) == "move_node"@);
        assert(spec_tool_names()[14] == "move_node"@);
    } else if i == 8 {
        assert(spec_canonical_tool_names()[i] == "figma.delete_node"@);
        assert(spec_legacy_name("figma.delete_node"@) == "delete_node"@);
        assert(spec_tool_names()[12] == "delete_node"@);
    }
    law_described_tools_are_the_listed_ones(spec_legacy_name(spec_canonical_tool_names()[i]));
}
/// The member names of the normalized results differ.
proof fn lemma_result_keys_distinct()
    ensures
        "document_id"@ != "name"@,
        "document_id"@ != "pages"@,
        "document_id"@ != "type"@,
        "document_id"@ != "required"@,
        "document_id"@ != "properties"@,
        "document_id"@ != "id"@,
        "document_id"@ != "node_count"@,
        "document_id"@ != "nodes"@,
        "document_id"@ != "parent_id"@,
        "document_id"@ != "x"@,
        "document_id"@ != "y"@,
        "document_id"@ != "width"@,
        "document_id"@ != "height"@,
        "document_id"@ != "node_id"@,
        "document_id"@ != "text"@,
        "document_id"@ != "fill_applied"@,
        "document_id"@ != "deleted"@,
        "document_id"@ != "dry_run"@,
        "name"@ != "pages"@,
        "name"@ != "type"@,
        "name"@ != "required"@,
        "name"@ != "properties"@,
        "name"@ != "id"@,
        "name"@ != "node_count"@,
        "name"@ != "nodes"@,
        "name"@ != "parent_id"@,
        "name"@ != "x"@,
        "name"@ != "y"@,
        "name"@ != "width"@,
        "name"@ != "height"@,
        "name"@ != "node_id"@,
        "name"@ != "text"@,
        "name"@ != "fill_applied"@,
        "name"@ != "deleted"@,
        "name"@ != "dry_run"@,
        "pages"@ != "type"@,
        "pages"@ != "required"@,
        "pages"@ != "properties"@,
        "pages"@ != "id"@,
        "pages"@ != "node_count"@,
        "pages"@ != "nodes"@,
        "pages"@ != "parent_id"@,
        "pages"@ != "x"@,
        "pages"@ != "y"@,
        "pages"@ != "width"@,
        "pages"@ != "height"@,
        "pages"@ != "node_id"@,
        "pages"@ != "text"@,
        "pages"@ != "fill_applied"@,
        "pages"@ != "deleted"@,
        "pages"@ != "dry_run"@,
        "type"@ != "required"@,
        "type"@ != "properties"@,
        "type"@ != "id"@,
        "type"@ != "node_count"@,
        "type"@ != "nodes"@,
        "type"@ != "parent_id"@,
        "type"@ != "x"@,
        "type"@ != "y"@,
        "type"@ != "width"@,
        "type"@ != "height"@,
        "type"@ != "node_id"@,
        "type"@ != "text"@,
        "type"@ != "fill_applied"@,
        "type"@ != "deleted"@,
        "type"@ != "dry_run"@,
        "required"@ != "properties"@,
        "required"@ != "id"@,
        "required"@ != "node_count"@,
        "required"@ != "nodes"@,
        "required"@ != "parent_id"@,
        "required"@ != "x"@,
        "required"@ != "y"@,
        "required"@ != "width"@,
        "required"@ != "height"@,
        "required"@ != "node_id"@,
        "required"@ != "text"@,
        "required"@ != "fill_applied"@,
        "required"@ != "deleted"@,
        "required"@ != "dry_run"@,
        "properties"@ != "id"@,
        "properties"@ != "node_count"@,
        "properties"@ != "nodes"@,
        "properties"@ != "parent_id"@,
        "properties"@ != "x"@,
        "properties"@ != "y"@,
        "properties"@ != "width"@,
        "properties"@ != "height"@,
        "properties"@ != "node_id"@,
        "properties"@ != "text"@,
        "properties"@ != "fill_applied"@,
        "properties"@ != "deleted"@,
        "properties"@ != "dry_run"@,
        "id"@ != "node_count"@,
        "id"@ != "nodes"@,
        "id"@ != "parent_id"@,
        "id"@ != "x"@,
        "id"@ != "y"@,
        "id"@ != "width"@,
        "id"@ != "height"@,
        "id"@ != "node_id"@,
        "id"@ != "text"@,
        "id"@ != "fill_applied"@,
        "id"@ != "deleted"@,
        "id"@ != "dry_run"@,
        "node_count"@ != "nodes"@,
        "node_count"@ != "parent_id"@,
        "node_count"@ != "x"@,
        "node_count"@ != "y"@,
        "node_count"@ != "width"@,
        "node_count"@ != "height"@,
        "node_count"@ != "node_id"@,
        "node_count"@ != "text"@,
        "node_count"@ != "fill_applied"@,
        "node_count"@ != "deleted"@,
        "node_count"@ != "dry_run"@,
        "nodes"@ != "parent_id"@,
        "nodes"@ != "x"@,
        "nodes"@ != "y"@,
        "nodes"@ != "width"@,
        "nodes"@ != "height"@,
        "nodes"@ != "node_id"@,
        "nodes"@ != "text"@,
        "nodes"@ != "fill_applied"@,
        "nodes"@ != "deleted"@,
        "nodes"@ != "dry_run"@,
        "parent_id"@ != "x"@,
        "parent_id"@ != "y"@,
        "parent_id"@ != "width"@,
        "parent_id"@ != "height"@,
        "parent_id"@ != "node_id"@,
        "parent_id"@ != "text"@,
        "parent_id"@ != "fill_applied"@,
        "parent_id"@ != "deleted"@,
        "parent_id"@ != "dry_run"@,
        "x"@ != "y"@,
        "x"@ != "width"@,
        "x"@ != "height"@,
        "x"@ != "node_id"@,
        "x"@ != "text"@,
        "x"@ != "fill_applied"@,
        "x"@ != "deleted"@,
        "x"@ != "dry_run"@,
        "y"@ != "width"@,
        "y"@ != "height"@,
        "y"@ != "node_id"@,
        "y"@ != "text"@,
        "y"@ != "fill_applied"@,
        "y"@ != "deleted"@,
        "y"@ != "dry_run"@,
        "width"@ != "height"@,
        "width"@ != "node_id"@,
        "width"@ != "text"@,
        "width"@ != "fill_applied"@,
        "width"@ != "deleted"@,
        "width"@ != "dry_run"@,
        "height"@ != "node_id"@,
        "height"@ != "text"@,
        "height"@ != "fill_applied"@,
        "height"@ != "deleted"@,
        "height"@ != "dry_run"@,
        "node_id"@ != "text"@,
        "node_id"@ != "fill_applied"@,
        "node_id"@ != "deleted"@,
        "node_id"@ != "dry_run"@,
        "text"@ != "fill_applied"@,
        "text"@ != "deleted"@,
        "text"@ != "dry_run"@,
        "fill_applied"@ != "deleted"@,
        "fill_applied"@ != "dry_run"@,
        "deleted"@ != "dry_run"@,
{
    reveal_strlit("document_id");
    assert("document_id"@.len() == 11);
    reveal_strlit("name");
    assert("name"@.len() == 4);
    reveal_strlit("pages");
    assert("pages"@.len() == 5);
    reveal_strlit("type");
    assert("type"@.len() == 4);
    reveal_strlit("required");
    assert("required"@.len() == 8);
    reveal_strlit("properties");
    assert("properties"@.len() == 10);
    reveal_strlit("id");
    assert("id"@.len() == 2);
    reveal_strlit("node_count");
    assert("node_count"@.len() == 10);
    reveal_strlit("nodes");
    assert("nodes"@.len() == 5);
    reveal_strlit("parent_id");
    assert("parent_id"@.len() == 9);
    reveal_strlit("x");
    assert("x"@.len() == 1);
    reveal_strlit("y");
    assert("y"@.len() == 1);
    reveal_strlit("width");
    assert("width"@.len() == 5);
    reveal_strlit("height");
    assert("height"@.len() == 6);
    reveal_strlit("node_id");
    assert("node_id"@.len() == 7);
    reveal_strlit("text");
    assert("text"@.len() == 4);
    reveal_strlit("fill_applied");
    assert("fill_applied"@.len() == 12);
    reveal_strlit("deleted");
    assert("deleted"@.len() == 7);
    reveal_strlit("dry_run");
    assert("dry_run"@.len() == 7);
    assert("name"@[0] != "type"@[0]);
    assert("name"@[0] != "text"@[0]);
    assert("pages"@[0] != "nodes"@[0]);
    assert("pages"@[0] != "width"@[0]);
    assert("type"@[1] != "text"@[1]);
    assert("properties"@[0] != "node_count"@[0]);
    assert("nodes"@[0] != "width"@[0]);
    assert("x"@[0] != "y"@[0]);
    assert("node_id"@[0] != "deleted"@[0]);
    assert("node_id"@[0] != "dry_run"@[0]);
    assert("deleted"@[1] != "dry_run"@[1]);
}

/// The items of the `required` list of a canonical tool's output schema.
pub open spec fn output_required(tool: Seq<char>) -> Seq<Json> {
    array_items(spec_tool_contract(tool).get_or_null("output_schema"@).get("required"@))
}

/// An object holds a member for every name in `required`.
pub open spec fn has_required_keys(v: Json, required: Seq<Json>) -> bool {
    forall|j: int| 0 <= j < required.len() ==> match #[trigger] required[j] {
        Json::Str(k) => v.get(k) is Some,
        _ => false,
    }
}

/// The result of a canonical tool is an object that carries every member
/// its output schema requires (a field missing from the plugin's answer
/// stands there as `null`); any other tool name is refused as
/// `unknown_tool`.
pub proof fn law_normalized_results_carry_required_keys(tool: Seq<char>, input: Seq<(Seq<char>, Json)>, raw: Json)
    ensures
        spec_canonical_tool_names().contains(tool) ==> (spec_normalize_result(tool, input, raw) matches Ok(v)
            && v is Object && has_required_keys(v, output_required(tool))),
        !spec_canonical_tool_names().contains(tool) ==> spec_normalize_result(tool, input, raw)
            == Err::<Json, CallErrorModel>(error_model("unknown_tool"@, "Unsupported canonical tool: "@ + tool, empty_object())),
{
    lemma_contract_keys_distinct();
    lemma_result_keys_distinct();
    lemma_tool_names_distinct();
    if !spec_canonical_tool_names().contains(tool) {
        assert(spec_canonical_tool_names()[0] == "figma.get_document"@);
        assert(spec_canonical_tool_names()[1] == "figma.get_page"@);
        assert(spec_canonical_tool_names()[2] == "figma.get_selection"@);
        assert(spec_canonical_tool_names()[3] == "figma.get_node"@);
        assert(spec_canonical_tool_names()[4] == "figma.create_frame"@);
        assert(spec_canonical_tool_names()[5] == "figma.create_text"@);
        assert(spec_canonical_tool_names()[6] == "figma.set_fill"@);
        assert(spec_canonical_tool_names()[7] == "figma.move_node"@);
        assert(spec_canonical_tool_names()[8] == "figma.delete_node"@);
    }
    if tool == "figma.get_document"@ {
        let m = spec_tool_contract(tool)->Object_0;
        lemma_member_at(m, "output_schema"@, 5);
        let o = m[5].1->Object_0;
        lemma_member_at(o, "required"@, 1);
        let req = o[1].1->Array_0;
        let v = spec_normalize_result(tool, input, raw)->Ok_0->Object_0;
        assert forall|j: int| 0 <= j < req.len() implies match #[trigger] req[j] {
            Json::Str(k) => Json::Object(v).get(k) is Some,
            _ => false,
        } by {
            if j == 0 {
                assert(req[j] == Json::Str("document_id"@));
                lemma_member_at(v, "document_id"@, 0);
            } else if j == 1 {
                assert(req[j] == Json::Str("name"@));
                lemma_member_at(v, "name"@, 1);
            } else if j == 2 {
                assert(req[j] == Json::Str("pages"@));
                lemma_member_at(v, "pages"@, 2);
            }
        }
    } else if tool == "figma.get_page"@ {
        let m = spec_tool_contract(tool)->Object_0;
        lemma_member_at(m, "output_schema"@, 5);
        let o = m[5].1->Object_0;
        lemma_member_at(o, "required"@, 1);
        let req = o[1].1->Array_0;
        let v = spec_normalize_result(tool, input, raw)->Ok_0->Object_0;
        assert forall|j: int| 0 <= j < req.len() implies match #[trigger] req[j] {
            Json::Str(k) => Json::Object(v).get(k) is Some,
            _ => false,
        } by {
            if j == 0 {
                assert(req[j] == Json::Str("id"@));
                lemma_member_at(v, "id"@, 0);
            } else if j == 1 {
                assert(req[j] == Json::Str("name"@));
                lemma_member_at(v, "name"@, 1);
            }
        }
    } else if tool == "figma.get_selection"@ {
        let m = spec_tool_contract(tool)->Object_0;
        lemma_member_at(m, "output_schema"@, 5);
        let o = m[5].1->Object_0;
        lemma_member_at(o, "required"@, 1);
        let req = o[1].1->Array_0;
        let v = spec_normalize_result(tool, input, raw)->Ok_0->Object_0;
        assert forall|j: int| 0 <= j < req.len() implies match #[trigger] req[j] {
            Json::Str(k) => Json::Object(v).get(k) is Some,
            _ => false,
        } by {
            if j == 0 {
                assert(req[j] == Json::Str("nodes"@));
                lemma_member_at(v, "nodes"@, 0);
            }
        }
    } else if tool == "figma.get_node"@ {
        let m = spec_tool_contract(tool)->Object_0;
        lemma_member_at(m, "output_schema"@, 5);
        let o = m[5].1->Object_0;
        lemma_member_at(o, "required"@, 1);
        let req = o[1].1->Array_0;
        let v = spec_normalize_result(tool, input, raw)->Ok_0->Object_0;
        assert forall|j: int| 0 <= j < req.len() implies match #[trigger] req[j] {
            Json::Str(k) => Json::Object(v).get(k) is Some,
            _ => false,
        } by {
            if j == 0 {
                assert(req[j] == Json::Str("id"@));
                lemma_member_at(v, "id"@, 0);
            } else if j == 1 {
                assert(req[j] == Json::Str("name"@));
                lemma_member_at(v, "name"@, 1);
            } else if j == 2 {
                assert(req[j] == Json::Str("type"@));
                lemma_member_at(v, "type"@, 2);
            }
        }
    } else if tool == "figma.create_frame"@ {
        let m = spec_tool_contract(tool)->Object_0;
        lemma_member_at(m, "output_schema"@, 5);
        let o = m[5].1->Object_0;
        lemma_member_at(o, "required"@, 1);
        let req = o[1].1->Array_0;
        let v = spec_normalize_result(tool, input, raw)->Ok_0->Object_0;
        assert forall|j: int| 0 <= j < req.len() implies match #[trigger] req[j] {
            Json::Str(k) => Json::Object(v).get(k) is Some,
            _ => false,
        } by {
            if j == 0 {
                assert(req[j] == Json::Str("node_id"@));
                lemma_member_at(v, "node_id"@, 0);
            } else if j == 1 {
                assert(req[j] == Json::Str("name"@));
                lemma_member_at(v, "name"@, 1);
            } else if j == 2 {
                assert(req[j] == Json::Str("type"@));
                lemma_member_at(v, "type"@, 2);
            }
        }
    } else if tool == "figma.create_text"@ {
        let m = spec_tool_contract(tool)->Object_0;
        lemma_member_at(m, "output_schema"@, 5);
        let o = m[5].1->Object_0;
        lemma_member_at(o, "required"@, 1);
        let req = o[1].1->Array_0;
        let v = spec_normalize_result(tool, input, raw)->Ok_0->Object_0;
        assert forall|j: int| 0 <= j < req.len() implies match #[trigger] req[j] {
            Json::Str(k) => Json::Object(v).get(k) is Some,
            _ => false,
        } by {
            if j == 0 {
                assert(req[j] == Json::Str("node_id"@));
                lemma_member_at(v, "node_id"@, 0);
            } else if j == 1 {
                assert(req[j] == Json::Str("type"@));
                lemma_member_at(v, "type"@, 1);
            } else if j == 2 {
                assert(req[j] == Json::Str("text"@));
                lemma_member_at(v, "text"@, 2);
            }
        }
    } else if tool == "figma.set_fill"@ {
        let m = spec_tool_contract(tool)->Object_0;
        lemma_member_at(m, "output_schema"@, 5);
        let o = m[5].1->Object_0;
        lemma_member_at(o, "required"@, 1);
        let req = o[1].1->Array_0;
        let v = spec_normalize_result(tool, input, raw)->Ok_0->Object_0;
        assert forall|j: int| 0 <= j < req.len() implies match #[trigger] req[j] {
            Json::Str(k) => Json::Object(v).get(k) is Some,
            _ => false,
        } by {
            if j == 0 {
                assert(req[j] == Json::Str("node_id"@));
                lemma_member_at(v, "node_id"@, 0);
            }
        }
    } else if tool == "figma.move_node"@ {
        let m = spec_tool_contract(tool)->Object_0;
        lemma_member_at(m, "output_schema"@, 5);
        let o = m[5].1->Object_0;
        lemma_member_at(o, "required"@, 1);
        let req = o[1].1->Array_0;
        let v = spec_normalize_result(tool, input, raw)->Ok_0->Object_0;
        assert forall|j: int| 0 <= j < req.len() implies match #[trigger] req[j] {
            Json::Str(k) => Json::Object(v).get(k) is Some,
            _ => false,
        } by {
            if j == 0 {
                assert(req[j] == Json::Str("node_id"@));
                lemma_member_at(v, "node_id"@, 0);
            } else if j == 1 {
                assert(req[j] == Json::Str("x"@));
                lemma_member_at(v, "x"@, 1);
            } else if j == 2 {
                assert(req[j] == Json::Str("y"@));
                lemma_member_at(v, "y"@, 2);
            }
        }
    } else if tool == "figma.delete_node"@ {
        let m = spec_tool_contract(tool)->Object_0;
        lemma_member_at(m, "output_schema"@, 5);
        let o = m[5].1->Object_0;
        lemma_member_at(o, "required"@, 1);
        let req = o[1].1->Array_0;
        let v = spec_normalize_result(tool, input, raw)->Ok_0->Object_0;
        assert forall|j: int| 0 <= j < req.len() implies match #[trigger] req[j] {
            Json::Str(k) => Json::Object(v).get(k) is Some,
            _ => false,
        } by {
            if j == 0 {
                assert(req[j] == Json::Str("node_id"@));
                lemma_member_at(v, "node_id"@, 0);
            }
        }
    }
}

/// After a plugin joins `channel`, the list of sessions (as `list_sessions`
/// gives it) holds that channel exactly once, with the new session's report;
/// it grows by one only where the channel is new.
pub proof fn law_joined_channel_listed_once<O>(
    sessions: Map<Seq<char>, SessionModel<O>>,
    channel: Seq<char>,
    session: SessionModel<O>,
    list: Seq<SessionInfoModel>,
)
    requires
        sessions.dom().finite(),
        session.info.channel == channel,
        forall|i: int| 0 <= i < list.len() ==> sessions.insert(channel, session).contains_key((#[trigger] list[i]).channel)
            && sessions.insert(channel, session)[list[i].channel].info == list[i],
        forall|c: Seq<char>| #[trigger] sessions.insert(channel, session).contains_key(c)
            ==> exists|i: int| 0 <= i < list.len() && (#[trigger] list[i]).channel == c,
        list.len() == sessions.insert(channel, session).len(),
        forall|i: int, j: int| 0 <= i < list.len() && 0 <= j < list.len() && i != j
            ==> (#[trigger] list[i]).channel != (#[trigger] list[j]).channel,
    ensures
        exists|i: int| 0 <= i < list.len() && #[trigger] list[i] == session.info,
        forall|i: int, j: int| 0 <= i < list.len() && 0 <= j < list.len()
            && (#[trigger] list[i]).channel == channel && (#[trigger] list[j]).channel == channel ==> i == j,
        list.len() == sessions.len() + if sessions.contains_key(channel) { 0int } else { 1int },
{
    let after = sessions.insert(channel, session);
    assert(after.contains_key(channel));
    let i = choose|i: int| 0 <= i < list.len() && (#[trigger] list[i]).channel == channel;
    assert(list[i] == session.info);
    lemma_insert_len(sessions, channel, session);
}

/// A `figma.delete_node` call with a string `node_id` and `confirm` set to
/// `true` whose `dry_run` is not `true` (absent, `false` or not a boolean)
/// is sent to the plugin as `deleteNode`, with the input renamed for it.
pub proof fn law_confirmed_delete_is_sent(input: Seq<(Seq<char>, Json)>, session_id: Seq<char>)
    requires
        Json::Object(input).str_at("node_id"@) is Some,
        Json::Object(input).bool_at("confirm"@) == Some(true),
        Json::Object(input).bool_at("dry_run"@) != Some(true),
    ensures
        spec_plan_call("figma.delete_node"@, input, session_id) == Ok::<CallPlanModel, CallErrorModel>(
            CallPlanModel::Send(session_id, "deleteNode"@, Json::Object(bridge_members("figma.delete_node"@, input))),
        ),
{
    lemma_tool_names_distinct();
    assert(spec_legacy_name("figma.delete_node"@) == "delete_node"@);
    reveal_strlit("delete_node");
    reveal_strlit("deleteNode");
    reveal_strlit("get_node_info");
    reveal_strlit("set_font");
    assert("delete_node"@ != "get_node_info"@);
    assert("delete_node"@.len() != "set_font"@.len());
    let s = "delete_node"@;
    assert(camel_from(s.subrange(8, 11), false) =~= seq!['o', 'd', 'e']) by {
        reveal_with_fuel(camel_from, 4);
        assert(s.subrange(8, 11).drop_first() =~= s.subrange(9, 11));
        assert(s.subrange(9, 11).drop_first() =~= s.subrange(10, 11));
        assert(s.subrange(10, 11).drop_first() =~= Seq::<char>::empty());
    }
    assert(ascii_upper('n') == 'N');
    assert(camel_from(s.subrange(7, 11), true) =~= seq!['N', 'o', 'd', 'e']) by {
        assert(s.subrange(7, 11).drop_first() =~= s.subrange(8, 11));
    }
    assert(camel_from(s.subrange(6, 11), false) =~= seq!['N', 'o', 'd', 'e']) by {
        assert(s.subrange(6, 11).drop_first() =~= s.subrange(7, 11));
    }
    assert(camel_from(s, false) =~= "deleteNode"@) by {
        reveal_with_fuel(camel_from, 7);
        assert(s.drop_first() =~= s.subrange(1, 11));
        assert(s.subrange(1, 11).drop_first() =~= s.subrange(2, 11));
        assert(s.subrange(2, 11).drop_first() =~= s.subrange(3, 11));
        assert(s.subrange(3, 11).drop_first() =~= s.subrange(4, 11));
        assert(s.subrange(4, 11).drop_first() =~= s.subrange(5, 11));
        assert(s.subrange(5, 11).drop_first() =~= s.subrange(6, 11));
    }
}

/// The raw answer's `children` when they are an array, else none.
pub open spec fn answer_children(raw: Json) -> Seq<Json> {
    match raw.get("children"@) {
        Some(Json::Array(c)) => c,
        _ => Seq::empty(),
    }
}

/// The results of the tools that read or make one node take each member from
/// the raw answer's member of the same meaning (`null` where the answer has
/// none): `figma.get_node` from `id`, `name`, `type`, `parentId`, `x`, `y`,
/// `width` and `height`; `figma.get_page` from `id`, `name` and
/// `childCount`; `figma.create_frame` and `figma.create_text` the new node's
/// id from `id`, with a fixed `type`, the frame's `name` from the answer and
/// the text's `text` from the call's input.
pub proof fn law_node_results_come_from_the_answer(input: Seq<(Seq<char>, Json)>, raw: Json)
    ensures
        ({
            let r = spec_normalize_result("figma.get_node"@, input, raw);
            &&& r is Ok
            &&& r->Ok_0.get("id"@) == Some(raw.get_or_null("id"@))
            &&& r->Ok_0.get("name"@) == Some(raw.get_or_null("name"@))
            &&& r->Ok_0.get("type"@) == Some(raw.get_or_null("type"@))
            &&& r->Ok_0.get("parent_id"@) == Some(raw.get_or_null("parentId"@))
            &&& r->Ok_0.get("x"@) == Some(raw.get_or_null("x"@))
            &&& r->Ok_0.get("y"@) == Some(raw.get_or_null("y"@))
            &&& r->Ok_0.get("width"@) == Some(raw.get_or_null("width"@))
            &&& r->Ok_0.get("height"@) == Some(raw.get_or_null("height"@))
        }),
        ({
            let r = spec_normalize_result("figma.get_page"@, input, raw);
            &&& r is Ok
            &&& r->Ok_0.get("id"@) == Some(raw.get_or_null("id"@))
            &&& r->Ok_0.get("name"@) == Some(raw.get_or_null("name"@))
            &&& r->Ok_0.get("node_count"@) == Some(raw.get_or_null("childCount"@))
        }),
        ({
            let r = spec_normalize_result("figma.create_frame"@, input, raw);
            &&& r is Ok
            &&& r->Ok_0.get("node_id"@) == Some(raw.get_or_null("id"@))
            &&& r->Ok_0.get("name"@) == Some(raw.get_or_null("name"@))
            &&& r->Ok_0.get("type"@) == Some(Json::Str("FRAME"@))
        }),
        ({
            let r = spec_normalize_result("figma.create_text"@, input, raw);
            &&& r is Ok
            &&& r->Ok_0.get("node_id"@) == Some(raw.get_or_null("id"@))
            &&& r->Ok_0.get("type"@) == Some(Json::Str("TEXT"@))
            &&& r->Ok_0.get("text"@) == Some(Json::Object(input).get_or_null("text"@))
        }),
{
    lemma_result_keys_distinct();
    lemma_tool_names_distinct();
    let m = spec_normalize_result("figma.get_node"@, input, raw)->Ok_0->Object_0;
    lemma_member_at(m, "id"@, 0);
    lemma_member_at(m, "name"@, 1);
    lemma_member_at(m, "type"@, 2);
    lemma_member_at(m, "parent_id"@, 3);
    lemma_member_at(m, "x"@, 4);
    lemma_member_at(m, "y"@, 5);
    lemma_member_at(m, "width"@, 6);
    lemma_member_at(m, "height"@, 7);
    let m = spec_normalize_result("figma.get_page"@, input, raw)->Ok_0->Object_0;
    lemma_member_at(m, "id"@, 0);
    lemma_member_at(m, "name"@, 1);
    lemma_member_at(m, "node_count"@, 2);
    let m = spec_normalize_result("figma.create_frame"@, input, raw)->Ok_0->Object_0;
    lemma_member_at(m, "node_id"@, 0);
    lemma_member_at(m, "name"@, 1);
    lemma_member_at(m, "type"@, 2);
    let m = spec_normalize_result("figma.create_text"@, input, raw)->Ok_0->Object_0;
    lemma_member_at(m, "node_id"@, 0);
    lemma_member_at(m, "type"@, 1);
    lemma_member_at(m, "text"@, 2);
}

/// The results of the tools that change a node name it by the call's
/// `node_id`: `figma.move_node` reports the input's `x` and `y`;
/// `figma.set_fill` and `figma.delete_node` report the answer's `success`
/// (`true` where the answer has no boolean `success`), and `figma.delete_node`
/// reports the input's `dry_run` (`false` where absent).
pub proof fn law_edit_results_come_from_the_call(input: Seq<(Seq<char>, Json)>, raw: Json)
    ensures
        ({
            let r = spec_normalize_result("figma.set_fill"@, input, raw);
            &&& r is Ok
            &&& r->Ok_0.get("node_id"@) == Some(Json::Object(input).get_or_null("node_id"@))
            &&& r->Ok_0.get("fill_applied"@) == Some(Json::Bool(raw.bool_at("success"@) != Some(false)))
        }),
        ({
            let r = spec_normalize_result("figma.move_node"@, input, raw);
            &&& r is Ok
            &&& r->Ok_0.get("node_id"@) == Some(Json::Object(input).get_or_null("node_id"@))
            &&& r->Ok_0.get("x"@) == Some(Json::Object(input).get_or_null("x"@))
            &&& r->Ok_0.get("y"@) == Some(Json::Object(input).get_or_null("y"@))
        }),
        ({
            let r = spec_normalize_result("figma.delete_node"@, input, raw);
            &&& r is Ok
            &&& r->Ok_0.get("node_id"@) == Some(Json::Object(input).get_or_null("node_id"@))
            &&& r->Ok_0.get("deleted"@) == Some(Json::Bool(raw.bool_at("success"@) != Some(false)))
            &&& r->Ok_0.get("dry_run"@) == Some(match Json::Object(input).get("dry_run"@) {
                Some(v) => v,
                None => Json::Bool(false),
            })
        }),
{
    lemma_result_keys_distinct();
    lemma_tool_names_distinct();
    let m = spec_normalize_result("figma.set_fill"@, input, raw)->Ok_0->Object_0;
    lemma_member_at(m, "node_id"@, 0);
    lemma_member_at(m, "fill_applied"@, 1);
    let m = spec_normalize_result("figma.move_node"@, input, raw)->Ok_0->Object_0;
    lemma_member_at(m, "node_id"@, 0);
    lemma_member_at(m, "x"@, 1);
    lemma_member_at(m, "y"@, 2);
    let m = spec_normalize_result("figma.delete_node"@, input, raw)->Ok_0->Object_0;
    lemma_member_at(m, "node_id"@, 0);
    lemma_member_at(m, "deleted"@, 1);
    lemma_member_at(m, "dry_run"@, 2);
}

/// The listing results keep one summary per listed item, in order, each with
/// the item's own `id` and `name` (and, for a selection, `type`):
/// `figma.get_document` lists the answer's `children` as `pages` beside the
/// document's `id` and `name`; `figma.get_selection` lists the answer's
/// items as `nodes`.
pub proof fn law_listing_results_come_from_the_answer(input: Seq<(Seq<char>, Json)>, raw: Json)
    ensures
        ({
            let r = spec_normalize_result("figma.get_document"@, input, raw);
            let children = answer_children(raw);
            &&& r is Ok
            &&& r->Ok_0.get("document_id"@) == Some(raw.get_or_null("id"@))
            &&& r->Ok_0.get("name"@) == Some(raw.get_or_null("name"@))
            &&& (r->Ok_0.get("pages"@) matches Some(Json::Array(ps)) && ps.len() == children.len()
                && forall|i: int| 0 <= i < ps.len() ==> (#[trigger] ps[i]).get("id"@) == Some(children[i].get_or_null("id"@))
                    && ps[i].get("name"@) == Some(children[i].get_or_null("name"@)))
        }),
        ({
            let r = spec_normalize_result("figma.get_selection"@, input, raw);
            let items = match raw {
                Json::Array(a) => a,
                _ => Seq::empty(),
            };
            &&& r is Ok
            &&& (r->Ok_0.get("nodes"@) matches Some(Json::Array(ns)) && ns.len() == items.len()
                && forall|i: int| 0 <= i < ns.len() ==> (#[trigger] ns[i]).get("id"@) == Some(items[i].get_or_null("id"@))
                    && ns[i].get("name"@) == Some(items[i].get_or_null("name"@))
                    && ns[i].get("type"@) == Some(items[i].get_or_null("type"@)))
        }),
{
    lemma_result_keys_distinct();
    lemma_tool_names_distinct();
    let m = spec_normalize_result("figma.get_document"@, input, raw)->Ok_0->Object_0;
    lemma_member_at(m, "document_id"@, 0);
    lemma_member_at(m, "name"@, 1);
    lemma_member_at(m, "pages"@, 2);
    let ps = m[2].1->Array_0;
    let children = answer_children(raw);
    assert(children == array_items(raw.get("children"@)));
    assert forall|i: int| 0 <= i < ps.len() implies (#[trigger] ps[i]).get("id"@) == Some(children[i].get_or_null("id"@))
        && ps[i].get("name"@) == Some(children[i].get_or_null("name"@)) by {
        let pm = ps[i]->Object_0;
        lemma_member_at(pm, "id"@, 0);
        lemma_member_at(pm, "name"@, 1);
    }
    let m = spec_normalize_result("figma.get_selection"@, input, raw)->Ok_0->Object_0;
    lemma_member_at(m, "nodes"@, 0);
    let ns = m[0].1->Array_0;
    let items = match raw {
        Json::Array(a) => a,
        _ => Seq::<Json>::empty(),
    };
    assert(items == array_items(Some(raw)));
    assert forall|i: int| 0 <= i < ns.len() implies (#[trigger] ns[i]).get("id"@) == Some(items[i].get_or_null("id"@))
        && ns[i].get("name"@) == Some(items[i].get_or_null("name"@))
        && ns[i].get("type"@) == Some(items[i].get_or_null("type"@)) by {
        let nm = ns[i]->Object_0;
        lemma_member_at(nm, "id"@, 0);
        lemma_member_at(nm, "name"@, 1);
        lemma_member_at(nm, "type"@, 2);
    }
}

/// The input members hold no key twice.
pub open spec fn distinct_keys(input: Seq<(Seq<char>, Json)>) -> bool {
    forall|i: int, j: int| 0 <= i < input.len() && 0 <= j < input.len() && i != j ==> input[i].0 != input[j].0
}

proof fn lemma_absent_key(members: Seq<(Seq<char>, Json)>, key: Seq<char>, j: int)
    requires
        !has_key(members, key),
        0 <= j < members.len(),
    ensures
        members[j].0 != key,
{
    if members[j].0 == key {
        lemma_first_occurrence(members, key, j);
    }
}

/// Where `k` is the only input key that the plugin side names `t`, the
/// plugin's parameters hold under `t` what the input holds under `k`.
proof fn lemma_bridge_get(tool: Seq<char>, input: Seq<(Seq<char>, Json)>, k: Seq<char>, t: Seq<char>)
    requires
        distinct_keys(input),
        bridge_key(tool, k) == Some(t),
        forall|j: int| 0 <= j < input.len() && input[j].0 != k ==> bridge_key(tool, #[trigger] input[j].0) != Some(t),
    ensures
        member_get(bridge_members(tool, input), t) == member_get(input, k),
    decreases input.len(),
{
    if input.len() == 0 {
        assert(!exists|i: int| #[trigger] first_key_at(input, k, i));
        assert(!exists|i: int| #[trigger] first_key_at(no_members(), t, i));
    } else {
        let prev = input.drop_last();
        let last = input.last();
        assert forall|j: int| 0 <= j < prev.len() && prev[j].0 != k implies bridge_key(tool, #[trigger] prev[j].0) != Some(t) by {
            assert(prev[j] == input[j]);
        }
        lemma_bridge_get(tool, prev, k, t);
        assert(input =~= prev.push(last));
        let pp = bridge_members(tool, prev);
        match bridge_key(tool, last.0) {
            None => {
                lemma_get_push_other(prev, last.0, last.1, k);
            },
            Some(t2) => {
                if t2 == t {
                    assert(last.0 == k);
                    assert forall|j: int| 0 <= j < prev.len() implies prev[j].0 != k by {
                        assert(prev[j] == input[j]);
                        assert(input[input.len() - 1].0 == k);
                    }
                    assert(!exists|i: int| #[trigger] first_key_at(prev, k, i));
                    lemma_get_push_new(prev, k, last.1);
                    lemma_get_insert_same(pp, t, last.1);
                } else {
                    lemma_get_insert_other(pp, t2, last.1, t);
                    lemma_get_push_other(prev, last.0, last.1, k);
                }
            },
        }
    }
}

/// The plugin's parameters are the call's input renamed for it: `page_id`,
/// `node_id`, `parent_id` and `dry_run` become `pageId`, `nodeId`,
/// `parentId` and `dryRun`, the `text` of `figma.create_text` becomes
/// `characters`, and every other member but the routing keys keeps its name
/// and value (for input that does not itself use a renamed name).
pub proof fn law_parameters_are_renamed_for_the_plugin(tool: Seq<char>, input: Seq<(Seq<char>, Json)>)
    requires
        distinct_keys(input),
    ensures
        !has_key(input, "pageId"@) ==> member_get(bridge_members(tool, input), "pageId"@) == member_get(input, "page_id"@),
        !has_key(input, "nodeId"@) ==> member_get(bridge_members(tool, input), "nodeId"@) == member_get(input, "node_id"@),
        !has_key(input, "parentId"@) ==> member_get(bridge_members(tool, input), "parentId"@) == member_get(input, "parent_id"@),
        !has_key(input, "dryRun"@) ==> member_get(bridge_members(tool, input), "dryRun"@) == member_get(input, "dry_run"@),
        tool == "figma.create_text"@ && !has_key(input, "characters"@)
            ==> member_get(bridge_members(tool, input), "characters"@) == member_get(input, "text"@),
        tool != "figma.create_text"@ ==> member_get(bridge_members(tool, input), "text"@) == member_get(input, "text"@),
        forall|k: Seq<char>| k != "session_id"@ && k != "channel"@ && k != "page_id"@ && k != "node_id"@
            && k != "parent_id"@ && k != "dry_run"@ && k != "text"@ && k != "pageId"@ && k != "nodeId"@
            && k != "parentId"@ && k != "dryRun"@ && k != "characters"@
            ==> #[trigger] member_get(bridge_members(tool, input), k) == member_get(input, k),
{
    reveal_strlit("session_id");
    assert("session_id"@.len() == 10);
    reveal_strlit("channel");
    assert("channel"@.len() == 7);
    reveal_strlit("page_id");
    assert("page_id"@.len() == 7);
    reveal_strlit("node_id");
    assert("node_id"@.len() == 7);
    reveal_strlit("parent_id");
    assert("parent_id"@.len() == 9);
    reveal_strlit("dry_run");
    assert("dry_run"@.len() == 7);
    reveal_strlit("text");
    assert("text"@.len() == 4);
    reveal_strlit("pageId");
    assert("pageId"@.len() == 6);
    reveal_strlit("nodeId");
    assert("nodeId"@.len() == 6);
    reveal_strlit("parentId");
    assert("parentId"@.len() == 8);
    reveal_strlit("dryRun");
    assert("dryRun"@.len() == 6);
    reveal_strlit("characters");
    assert("characters"@.len() == 10);
    assert("session_id"@[0] != "characters"@[0]);
    assert("channel"@[0] != "page_id"@[0]);
    assert("channel"@[0] != "node_id"@[0]);
    assert("channel"@[0] != "dry_run"@[0]);
    assert("page_id"@[0] != "node_id"@[0]);
    assert("page_id"@[0] != "dry_run"@[0]);
    assert("node_id"@[0] != "dry_run"@[0]);
    assert("pageId"@[0] != "nodeId"@[0]);
    assert("pageId"@[0] != "dryRun"@[0]);
    assert("nodeId"@[0] != "dryRun"@[0]);
    if !has_key(input, "pageId"@) {
        assert forall|j: int| 0 <= j < input.len() && input[j].0 != "page_id"@ implies bridge_key(tool, #[trigger] input[j].0) != Some("pageId"@) by {
            lemma_absent_key(input, "pageId"@, j);
        }
        lemma_bridge_get(tool, input, "page_id"@, "pageId"@);
    }
    if !has_key(input, "nodeId"@) {
        assert forall|j: int| 0 <= j < input.len() && input[j].0 != "node_id"@ implies bridge_key(tool, #[trigger] input[j].0) != Some("nodeId"@) by {
            lemma_absent_key(input, "nodeId"@, j);
        }
        lemma_bridge_get(tool, input, "node_id"@, "nodeId"@);
    }
    if !has_key(input, "parentId"@) {
        assert forall|j: int| 0 <= j < input.len() && input[j].0 != "parent_id"@ implies bridge_key(tool, #[trigger] input[j].0) != Some("parentId"@) by {
            lemma_absent_key(input, "parentId"@, j);
        }
        lemma_bridge_get(tool, input, "parent_id"@, "parentId"@);
    }
    if !has_key(input, "dryRun"@) {
        assert forall|j: int| 0 <= j < input.len() && input[j].0 != "dry_run"@ implies bridge_key(tool, #[trigger] input[j].0) != Some("dryRun"@) by {
            lemma_absent_key(input, "dryRun"@, j);
        }
        lemma_bridge_get(tool, input, "dry_run"@, "dryRun"@);
    }
    if tool == "figma.create_text"@ && !has_key(input, "characters"@) {
        assert forall|j: int| 0 <= j < input.len() && input[j].0 != "text"@ implies bridge_key(tool, #[trigger] input[j].0) != Some("characters"@) by {
            lemma_absent_key(input, "characters"@, j);
        }
        lemma_bridge_get(tool, input, "text"@, "characters"@);
    }
    if tool != "figma.create_text"@ {
        lemma_bridge_get(tool, input, "text"@, "text"@);
    }
    assert forall|k: Seq<char>| k != "session_id"@ && k != "channel"@ && k != "page_id"@ && k != "node_id"@
        && k != "parent_id"@ && k != "dry_run"@ && k != "text"@ && k != "pageId"@ && k != "nodeId"@
        && k != "parentId"@ && k != "dryRun"@ && k != "characters"@
        implies #[trigger] member_get(bridge_members(tool, input), k) == member_get(input, k) by {
        lemma_bridge_get(tool, input, k, k);
    }
}

} // verus!
