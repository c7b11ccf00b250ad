use vstd::prelude::*;
use vstd::string::*;

use crate::json::{lemma_member_at, new_members, no_members, object_of, push_member, Json, JsonValue};
use crate::protocol::{envelope, is_uuid_v4_text, new_uuid_string, Envelope, MessageType};
use crate::session::{
    opt_view, response_outcome, BridgeState, SessionInfoModel, SessionModel,
};

verus! {

/// The port of the bridge's WebSocket server unless one is given.
pub const DEFAULT_WS_PORT: u16 = 3055;

/// The port of the bridge's HTTP server unless one is given.
pub const DEFAULT_HTTP_PORT: u16 = 3056;

/// How long a command waits for its answer unless a wait is given.
pub fn default_timeout_ms() -> (r: u64)
    ensures
        r == 30_000,
{
    30_000
}

/// The payload of the greeting a plugin receives when it connects.
pub open spec fn welcome_payload_model() -> Json {
    Json::Object(no_members().push(("message"@, Json::Str("Connected to Jyozu bridge"@))))
}

/// The greeting a plugin receives when it connects, stamped `now`.
pub fn welcome_envelope(now: u64) -> (r: Envelope)
    ensures
        r.model().message_type == MessageType::Ack,
        r.model().channel is None,
        r.model().payload == Some(welcome_payload_model()),
        is_uuid_v4_text(r.model().id),
        r.model().timestamp == now,
{
    let mut m = new_members();
    push_member(&mut m, "message", JsonValue::string("Connected to Jyozu bridge"));
    envelope(new_uuid_string(), MessageType::Ack, None, Some(object_of(m)), now)
}

/// The payload of the acknowledgement of a join.
pub open spec fn join_ack_payload_model(session_id: Seq<char>) -> Json {
    Json::Object(
        no_members()
            .push(("kind"@, Json::Str("join"@)))
            .push(("ok"@, Json::Bool(true)))
            .push(("success"@, Json::Bool(true)))
            .push(("sessionId"@, Json::Str(session_id)))
            .push(("message"@, Json::Str("Joined channel"@))),
    )
}

/// Builds the payload of the acknowledgement of a join.
pub fn join_ack_payload(session_id: &str) -> (r: JsonValue)
    ensures
        r.model() == join_ack_payload_model(session_id@),
{
    let mut m = new_members();
    push_member(&mut m, "kind", JsonValue::string("join"));
    push_member(&mut m, "ok", JsonValue::Bool(true));
    push_member(&mut m, "success", JsonValue::Bool(true));
    push_member(&mut m, "sessionId", JsonValue::string(session_id));
    push_member(&mut m, "message", JsonValue::string("Joined channel"));
    object_of(m)
}

/// A string member of the `client` object of a join payload.
pub open spec fn client_field(payload: Json, field: Seq<char>) -> Option<Seq<char>> {
    match payload.get("client"@) {
        Some(c) => c.str_at(field),
        None => None,
    }
}

/// The channel a join names: the message's channel, else the payload's
/// `sessionId`.
pub open spec fn join_channel(channel: Option<Seq<char>>, payload: Json) -> Option<Seq<char>> {
    match channel {
        Some(c) => Some(c),
        None => payload.str_at("sessionId"@),
    }
}

/// The error message of a plugin's answer: `error.message` where a string.
pub open spec fn answer_error(payload: Json) -> Option<Seq<char>> {
    match payload.get("error"@) {
        Some(e) => e.str_at("message"@),
        None => None,
    }
}

/// A payload's model, `null` where there is none.
pub open spec fn payload_or_null(p: Option<JsonValue>) -> Json {
    match p {
        Some(v) => v.model(),
        None => Json::Null,
    }
}

/// The session a join records.
pub open spec fn joined_session<O>(outbound: O, channel: Seq<char>, joined_at: u64, payload: Json) -> SessionModel<O> {
    SessionModel {
        outbound,
        info: SessionInfoModel {
            channel,
            joined_at,
            client_name: client_field(payload, "name"@),
            client_version: client_field(payload, "version"@),
        },
    }
}

/// What the connection does after a message from its plugin.
pub enum IncomingAction<R> {
    /// Send this message back to the plugin.
    Reply(Envelope),
    /// Hand this answer to the handle of the request it answers.
    Deliver(R, Result<JsonValue, String>),
    /// Nothing.
    Ignore,
}

fn clone_opt_str(s: Option<&str>) -> (r: Option<String>)
    ensures
        opt_view(r) == match s {
            Some(t) => Some(t@),
            None => None,
        },
{
    match s {
        Some(t) => Some(String::from_str(t)),
        None => None,
    }
}

impl<O, R> BridgeState<O, R> {
    /// Acts on a message from the plugin of one connection. A join records
    /// the plugin under the channel it names (the message's channel, else the
    /// payload's `sessionId`), makes it the connection's channel and answers
    /// with an acknowledgement; a join that names no channel is ignored. A
    /// `message` whose payload carries a string `requestId` answers that
    /// request: its `error.message` where present, else its `result`. Any
    /// other message is ignored. `now` is the time the message arrived: the
    /// time a join is recorded under, and the stamp of the acknowledgement.
    pub fn handle_incoming(&mut self, incoming: Envelope, outbound: O, current_channel: &mut Option<String>, now: u64) -> (r: IncomingAction<R>)
        requires
            old(self).wf(),
        ensures
            final(self).wf(),
            ({
                let payload = payload_or_null(incoming.payload);
                if incoming.message_type == MessageType::Join {
                    match join_channel(opt_view(incoming.channel), payload) {
                        Some(c) => {
                            &&& opt_view(*final(current_channel)) == Some(c)
                            &&& final(self).pending() == old(self).pending()
                            &&& final(self).sessions() == old(self).sessions().insert(
                                c, joined_session(outbound, c, now, payload))
                            &&& r matches IncomingAction::Reply(ack)
                            &&& is_uuid_v4_text(ack.model().id)
                            &&& ack.model().timestamp == now
                            &&& ack.model().message_type == MessageType::Ack
                            &&& ack.model().channel == Some(c)
                            &&& ack.model().payload == Some(join_ack_payload_model(
                                match payload.str_at("sessionId"@) { Some(s) => s, None => c }))
                        },
                        None => {
                            &&& *final(self) == *old(self)
                            &&& *final(current_channel) == *old(current_channel)
                            &&& r is Ignore
                        },
                    }
                } else if incoming.message_type == MessageType::Message && payload.str_at("requestId"@) is Some {
                    let id = payload.str_at("requestId"@)->0;
                    &&& *final(current_channel) == *old(current_channel)
                    &&& final(self).sessions() == old(self).sessions()
                    &&& final(self).pending() == old(self).pending().remove(id)
                    &&& (r is Deliver <==> old(self).pending().contains_key(id))
                    &&& (r matches IncomingAction::Deliver(tx, outcome) ==> {
                        &&& tx == old(self).pending()[id].tx
                        &&& match outcome {
                            Ok(v) => response_outcome(payload.get("result"@), answer_error(payload))
                                == Ok::<Json, Seq<char>>(v.model()),
                            Err(m) => response_outcome(payload.get("result"@), answer_error(payload))
                                == Err::<Json, Seq<char>>(m@),
                        }
                    })
                } else {
                    &&& *final(self) == *old(self)
                    &&& *final(current_channel) == *old(current_channel)
                    &&& r is Ignore
                }
            }),
    {
        let payload = match incoming.payload {
            Some(p) => p,
            None => JsonValue::Null,
        };
        match incoming.message_type {
            MessageType::Join => {
                let session_id = clone_opt_str(payload.str_at("sessionId"));
                let (client_name, client_version) = match payload.get("client") {
                    Some(c) => (clone_opt_str(c.str_at("name")), clone_opt_str(c.str_at("version"))),
                    None => (None, None),
                };
                let channel = match incoming.channel {
                    Some(c) => Some(c),
                    None => match &session_id {
                        Some(s) => Some(s.clone()),
                        None => None,
                    },
                };
                match channel {
                    Some(channel) => {
                        *current_channel = Some(channel.clone());
                        let joined_at = now;
                        let ghost before = self.sessions();
                        self.register_session(channel.clone(), outbound, joined_at, client_name, client_version);
                        assert(self.sessions() == before.insert(channel@, joined_session(outbound, channel@, joined_at, payload.model())));
                        let sid = match session_id {
                            Some(s) => s,
                            None => channel.clone(),
                        };
                        let ack = envelope(new_uuid_string(), MessageType::Ack, Some(channel), Some(join_ack_payload(sid.as_str())), now);
                        IncomingAction::Reply(ack)
                    },
                    None => IncomingAction::Ignore,
                }
            },
            MessageType::Message => {
                match payload.str_at("requestId") {
                    Some(request_id) => {
                        let result = match payload.get("result") {
                            Some(v) => Some(v.deep_clone()),
                            None => None,
                        };
                        let error = match payload.get("error") {
                            Some(e) => clone_opt_str(e.str_at("message")),
                            None => None,
                        };
                        match self.handle_response(request_id, result, error) {
                            Some((tx, outcome)) => IncomingAction::Deliver(tx, outcome),
                            None => IncomingAction::Ignore,
                        }
                    },
                    None => IncomingAction::Ignore,
                }
            },
            _ => IncomingAction::Ignore,
        }
    }
}

/// A plugin's answer whose `error` holds a string `message` is delivered as
/// that error, whatever result it carries; any other answer is delivered as
/// its `result`, `null` where it has none.
pub proof fn law_plugin_error_is_delivered(payload: Json)
    ensures
        ({
            let outcome = response_outcome(payload.get("result"@), answer_error(payload));
            match payload.get("error"@) {
                Some(e) => match e.str_at("message"@) {
                    Some(m) => outcome == Err::<Json, Seq<char>>(m),
                    None => outcome == Ok::<Json, Seq<char>>(payload.get_or_null("result"@)),
                },
                None => outcome == Ok::<Json, Seq<char>>(payload.get_or_null("result"@)),
            }
        }),
{
}

/// A join is acknowledged with a payload that reports a successful join
/// (`kind` `join`, `ok` and `success` true, the message `Joined channel`)
/// and names the session it joined.
pub proof fn law_join_ack_names_the_session(session_id: Seq<char>)
    ensures
        join_ack_payload_model(session_id).get("kind"@) == Some(Json::Str("join"@)),
        join_ack_payload_model(session_id).get("ok"@) == Some(Json::Bool(true)),
        join_ack_payload_model(session_id).get("success"@) == Some(Json::Bool(true)),
        join_ack_payload_model(session_id).get("sessionId"@) == Some(Json::Str(session_id)),
        join_ack_payload_model(session_id).get("message"@) == Some(Json::Str("Joined channel"@)),
{
    reveal_strlit("kind");
    assert("kind"@.len() == 4);
    reveal_strlit("ok");
    assert("ok"@.len() == 2);
    reveal_strlit("success");
    assert("success"@.len() == 7);
    reveal_strlit("sessionId");
    assert("sessionId"@.len() == 9);
    reveal_strlit("message");
    assert("message"@.len() == 7);
    assert("success"@[0] != "message"@[0]);
    let m = join_ack_payload_model(session_id)->Object_0;
    lemma_member_at(m, "kind"@, 0);
    lemma_member_at(m, "ok"@, 1);
    lemma_member_at(m, "success"@, 2);
    lemma_member_at(m, "sessionId"@, 3);
    lemma_member_at(m, "message"@, 4);
}

/// A join is recorded under the channel the message names; a message without
/// one is recorded under its payload's string `sessionId`, and one with
/// neither names no channel.
pub proof fn law_join_names_its_channel(channel: Option<Seq<char>>, payload: Json)
    ensures
        channel matches Some(c) ==> join_channel(channel, payload) == Some(c),
        channel is None ==> join_channel(channel, payload) == match payload.get("sessionId"@) {
            Some(Json::Str(s)) => Some(s),
            _ => None::<Seq<char>>,
        },
{
}

} // verus!
