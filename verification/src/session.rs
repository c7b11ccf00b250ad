use vstd::prelude::*;
use vstd::string::*;

use crate::assoc::{
    assoc_map, has_entry, keys_unique, lemma_assoc_absent, lemma_assoc_empty, lemma_assoc_index,
    lemma_assoc_len, lemma_assoc_push, lemma_assoc_remove, lemma_assoc_update,
};
use crate::json::{lemma_member_at, new_members, object_of, push_member, Json, JsonValue};
use vstd::pervasive::cloned;
use crate::protocol::{envelope, is_uuid_v4_text, new_uuid_string, Envelope, MessageType};
use crate::text::{concat2, concat3, decimal, str_eq, u128_decimal};

verus! {

/// What the bridge reports of a connected plugin session.
#[derive(Clone, Debug, PartialEq)]
pub struct SessionInfo {
    pub channel: String,
    pub joined_at: u64,
    pub client_name: Option<String>,
    pub client_version: Option<String>,
}

/// The model of a session's report.
pub struct SessionInfoModel {
    pub channel: Seq<char>,
    pub joined_at: u64,
    pub client_name: Option<Seq<char>>,
    pub client_version: Option<Seq<char>>,
}

pub open spec fn opt_view(s: Option<String>) -> Option<Seq<char>> {
    match s {
        Some(t) => Some(t@),
        None => None,
    }
}

impl SessionInfo {
    pub open spec fn model(&self) -> SessionInfoModel {
        SessionInfoModel {
            channel: self.channel@,
            joined_at: self.joined_at,
            client_name: opt_view(self.client_name),
            client_version: opt_view(self.client_version),
        }
    }
}

/// A connected plugin: its channel, the handle that carries text to it, and
/// what it said of itself when it joined.
struct Session<O> {
    channel: String,
    outbound: O,
    joined_at: u64,
    client_name: Option<String>,
    client_version: Option<String>,
}

/// The model of a session.
pub struct SessionModel<O> {
    pub outbound: O,
    pub info: SessionInfoModel,
}

/// A command sent to a plugin that awaits its answer: the channel it went to
/// and the handle that takes the answer.
struct PendingRequest<R> {
    request_id: String,
    channel: String,
    tx: R,
}

/// The model of a pending request.
pub struct PendingModel<R> {
    pub channel: Seq<char>,
    pub tx: R,
}

/// The bridge's registry: plugin sessions by channel and commands awaiting an
/// answer by request id. `O` is the handle that carries text to a plugin, `R`
/// the handle that takes a command's answer.
pub struct BridgeState<O, R> {
    sessions: Vec<Session<O>>,
    pending: Vec<PendingRequest<R>>,
}

/// Why a command to a plugin failed.
#[derive(Clone, Debug)]
pub enum BridgeError {
    /// No plugin has joined the channel.
    NoPluginConnected(String),
    /// The text could not be handed to the plugin's connection.
    SendFailed,
    /// The answer's handle was dropped before an answer came.
    ChannelClosed,
    /// No answer came within the given milliseconds.
    Timeout(u64),
    /// The plugin answered with an error message.
    Plugin(String),
}

/// The message of a bridge error.
pub open spec fn bridge_error_message(e: BridgeError) -> Seq<char> {
    match e {
        BridgeError::NoPluginConnected(c) => "No plugin connected for channel: "@ + c@,
        BridgeError::SendFailed => "Failed to send command to plugin"@,
        BridgeError::ChannelClosed => "Plugin response channel closed"@,
        BridgeError::Timeout(ms) => "Command timeout after "@ + decimal(ms as nat) + "ms"@,
        BridgeError::Plugin(m) => m@,
    }
}

impl BridgeError {
    /// The error's message, as the bridge reports it.
    pub fn message(&self) -> (r: String)
        ensures
            r@ == bridge_error_message(*self),
    {
        match self {
            BridgeError::NoPluginConnected(c) => concat2("No plugin connected for channel: ", c.as_str()),
            BridgeError::SendFailed => String::from_str("Failed to send command to plugin"),
            BridgeError::ChannelClosed => String::from_str("Plugin response channel closed"),
            BridgeError::Timeout(ms) => {
                let n = u128_decimal(*ms as u128);
                concat3("Command timeout after ", n.as_str(), "ms")
            },
            BridgeError::Plugin(m) => m.clone(),
        }
    }
}

/// How a command's wait for its answer ended.
pub enum CommandOutcome {
    /// The plugin answered (a result, or an error message).
    Replied(Result<JsonValue, String>),
    /// The answer's handle was dropped.
    Closed,
    /// The wait timed out.
    TimedOut,
}

/// A command ready to go to a plugin: the handle of its connection, the id
/// under which its answer is awaited, and the message to send.
pub struct OutgoingCommand<O> {
    pub outbound: O,
    pub request_id: String,
    pub envelope: Envelope,
}

/// What an answer from a plugin carries: its error message where it has one,
/// else its result (`null` where absent).
pub open spec fn response_outcome(result: Option<Json>, error: Option<Seq<char>>) -> Result<Json, Seq<char>> {
    match error {
        Some(m) => Err(m),
        None => match result {
            Some(v) => Ok(v),
            None => Ok(Json::Null),
        },
    }
}

/// The payload of a command message.
pub open spec fn command_payload_model(command: Seq<char>, params: Json, request_id: Seq<char>) -> Json {
    Json::Object(
        crate::json::no_members()
            .push(("command"@, Json::Str(command)))
            .push(("params"@, params))
            .push(("requestId"@, Json::Str(request_id))),
    )
}

/// The answer handles of the requests that await an answer on `channel`, in order.
pub open spec fn handles_on<R>(p: Seq<(Seq<char>, PendingModel<R>)>, channel: Seq<char>) -> Seq<R>
    decreases p.len(),
{
    if p.len() == 0 {
        Seq::empty()
    } else if p[0].1.channel == channel {
        seq![p[0].1.tx] + handles_on(p.drop_first(), channel)
    } else {
        handles_on(p.drop_first(), channel)
    }
}

/// The requests that await an answer on any other channel, in order.
pub open spec fn requests_off<R>(p: Seq<(Seq<char>, PendingModel<R>)>, channel: Seq<char>) -> Seq<(Seq<char>, PendingModel<R>)>
    decreases p.len(),
{
    if p.len() == 0 {
        Seq::empty()
    } else if p[0].1.channel == channel {
        requests_off(p.drop_first(), channel)
    } else {
        seq![p[0]] + requests_off(p.drop_first(), channel)
    }
}

proof fn lemma_requests_off_map<R>(p: Seq<(Seq<char>, PendingModel<R>)>, channel: Seq<char>)
    requires
        keys_unique(p),
    ensures
        keys_unique(requests_off(p, channel)),
        assoc_map(requests_off(p, channel)) == assoc_map(p).restrict(
            assoc_map(p).dom().filter(|k: Seq<char>| assoc_map(p)[k].channel != channel),
        ),
    decreases p.len(),
{
    let m = assoc_map(p);
    let target = m.restrict(m.dom().filter(|k: Seq<char>| m[k].channel != channel));
    if p.len() == 0 {
        lemma_assoc_empty(p);
        lemma_assoc_empty(requests_off(p, channel));
        assert(target =~= Map::<Seq<char>, PendingModel<R>>::empty());
    } else {
        let q = p.drop_first();
        assert(keys_unique(q)) by {
            assert forall|a: int, b: int| 0 <= a < q.len() && 0 <= b < q.len() && a != b implies q[a].0 != q[b].0 by {
                assert(q[a] == p[a + 1]);
                assert(q[b] == p[b + 1]);
            }
        }
        lemma_requests_off_map(q, channel);
        let r = requests_off(p, channel);
        let rq = requests_off(q, channel);
        let mq = assoc_map(q);
        // p = [p0] + q, and p0's key is not in q
        assert forall|i: int| 0 <= i < q.len() implies q[i].0 != p[0].0 by {
            assert(q[i] == p[i + 1]);
        }
        lemma_assoc_absent(q, p[0].0);
        lemma_assoc_index(p, 0);
        assert forall|k: Seq<char>| k != p[0].0 implies (#[trigger] m.contains_key(k)) == mq.contains_key(k)
            && (m.contains_key(k) ==> m[k] == mq[k]) by {
            if m.contains_key(k) {
                let i = choose|i: int| 0 <= i < p.len() && #[trigger] p[i].0 == k;
                assert(i != 0);
                assert(q[i - 1] == p[i]);
                lemma_assoc_index(p, i);
                lemma_assoc_index(q, i - 1);
            }
            if mq.contains_key(k) {
                let i = choose|i: int| 0 <= i < q.len() && #[trigger] q[i].0 == k;
                assert(p[i + 1] == q[i]);
                assert(has_entry(p, k));
            }
        }
        if p[0].1.channel == channel {
            assert(r == rq);
            assert(assoc_map(r) =~= target);
        } else {
            assert(r == seq![p[0]] + rq);
            assert(!assoc_map(rq).contains_key(p[0].0));
            assert forall|i: int| 0 <= i < rq.len() implies rq[i].0 != p[0].0 by {
                if rq[i].0 == p[0].0 {
                    assert(has_entry(rq, p[0].0));
                }
            }
            lemma_assoc_absent(rq, p[0].0);
            assert(keys_unique(r)) by {
                assert forall|a: int, b: int| 0 <= a < r.len() && 0 <= b < r.len() && a != b implies r[a].0 != r[b].0 by {
                    if a > 0 {
                        assert(r[a] == rq[a - 1]);
                    }
                    if b > 0 {
                        assert(r[b] == rq[b - 1]);
                    }
                }
            }
            assert forall|k: Seq<char>| #[trigger] assoc_map(r).contains_key(k) == target.contains_key(k)
                && (assoc_map(r).contains_key(k) ==> assoc_map(r)[k] == target[k]) by {
                if k == p[0].0 {
                    lemma_assoc_index(r, 0);
                } else {
                    if assoc_map(r).contains_key(k) {
                        let i = choose|i: int| 0 <= i < r.len() && #[trigger] r[i].0 == k;
                        assert(i != 0);
                        assert(r[i] == rq[i - 1]);
                        lemma_assoc_index(r, i);
                        lemma_assoc_index(rq, i - 1);
                    }
                    if assoc_map(rq).contains_key(k) {
                        let i = choose|i: int| 0 <= i < rq.len() && #[trigger] rq[i].0 == k;
                        assert(r[i + 1] == rq[i]);
                        assert(has_entry(r, k));
                    }
                }
            }
            assert(assoc_map(r) =~= target);
        }
    }
}

impl<O, R> BridgeState<O, R> {
    /// The sessions as a key-value list, keyed by channel.
    pub closed spec fn session_list(&self) -> Seq<(Seq<char>, SessionModel<O>)> {
        Seq::new(self.sessions@.len(), |i: int| (self.sessions@[i].channel@, SessionModel {
            outbound: self.sessions@[i].outbound,
            info: SessionInfoModel {
                channel: self.sessions@[i].channel@,
                joined_at: self.sessions@[i].joined_at,
                client_name: opt_view(self.sessions@[i].client_name),
                client_version: opt_view(self.sessions@[i].client_version),
            },
        }))
    }

    /// The pending requests as a key-value list, keyed by request id.
    pub closed spec fn pending_list(&self) -> Seq<(Seq<char>, PendingModel<R>)> {
        Seq::new(self.pending@.len(), |i: int| (self.pending@[i].request_id@, PendingModel {
            channel: self.pending@[i].channel@,
            tx: self.pending@[i].tx,
        }))
    }

    /// The connected sessions by channel.
    pub open spec fn sessions(&self) -> Map<Seq<char>, SessionModel<O>> {
        assoc_map(self.session_list())
    }

    /// The requests that await an answer, by request id.
    pub open spec fn pending(&self) -> Map<Seq<char>, PendingModel<R>> {
        assoc_map(self.pending_list())
    }

    /// No channel and no request id occurs twice.
    pub open spec fn wf(&self) -> bool {
        keys_unique(self.session_list()) && keys_unique(self.pending_list())
    }

    /// A well-formed registry holds finitely many sessions and requests.
    pub proof fn lemma_finite(&self)
        requires
            self.wf(),
        ensures
            self.sessions().dom().finite(),
            self.pending().dom().finite(),
    {
        lemma_assoc_len(self.session_list());
        lemma_assoc_len(self.pending_list());
    }

    /// An empty registry.
    pub fn new() -> (r: Self)
        ensures
            r.wf(),
            r.sessions() == Map::<Seq<char>, SessionModel<O>>::empty(),
            r.pending() == Map::<Seq<char>, PendingModel<R>>::empty(),
    {
        let r = BridgeState { sessions: Vec::new(), pending: Vec::new() };
        proof {
            lemma_assoc_empty(r.session_list());
            lemma_assoc_empty(r.pending_list());
        }
        r
    }

    /// Records the plugin that joined `channel`; a plugin that had joined the
    /// same channel before is replaced.
    #[verifier::loop_isolation(false)]
    pub fn register_session(
        &mut self,
        channel: String,
        outbound: O,
        joined_at: u64,
        client_name: Option<String>,
        client_version: Option<String>,
    )
        requires
            old(self).wf(),
        ensures
            final(self).wf(),
            final(self).sessions() == old(self).sessions().insert(channel@, SessionModel {
                outbound,
                info: SessionInfoModel {
                    channel: channel@,
                    joined_at,
                    client_name: opt_view(client_name),
                    client_version: opt_view(client_version),
                },
            }),
            final(self).pending() == old(self).pending(),
    {
        let ghost s0 = self.session_list();
        let ghost entry = SessionModel {
            outbound,
            info: SessionInfoModel {
                channel: channel@,
                joined_at,
                client_name: opt_view(client_name),
                client_version: opt_view(client_version),
            },
        };
        let mut i: usize = 0;
        while i < self.sessions.len()
            invariant
                s0 == self.session_list(),
                *self == *old(self),
                i <= self.sessions@.len(),
                forall|j: int| 0 <= j < i ==> s0[j].0 != channel@,
            decreases self.sessions@.len() - i,
        {
            if str_eq(self.sessions[i].channel.as_str(), channel.as_str()) {
                let session = Session { channel, outbound, joined_at, client_name, client_version };
                self.sessions.set(i, session);
                proof {
                    lemma_assoc_update(s0, i as int, entry);
                    assert(self.session_list() =~= s0.update(i as int, (s0[i as int].0, entry)));
                    assert(self.pending_list() =~= old(self).pending_list());
                }
                return;
            }
            i = i + 1;
        }
        proof { lemma_assoc_absent(s0, channel@); }
        let session = Session { channel, outbound, joined_at, client_name, client_version };
        self.sessions.push(session);
        proof {
            lemma_assoc_push(s0, entry.info.channel, entry);
            assert(self.session_list() =~= s0.push((entry.info.channel, entry)));
            assert(self.pending_list() =~= old(self).pending_list());
        }
    }

    /// Forgets the plugin of `channel` and takes out every request that
    /// awaits an answer on that channel; their answer handles are returned,
    /// in order, to be told that the plugin disconnected.
    #[verifier::loop_isolation(false)]
    pub fn unregister_session(&mut self, channel: &str) -> (r: Vec<R>)
        requires
            old(self).wf(),
        ensures
            final(self).wf(),
            final(self).sessions() == old(self).sessions().remove(channel@),
            final(self).pending() == old(self).pending().restrict(
                old(self).pending().dom().filter(|k: Seq<char>| old(self).pending()[k].channel != channel@),
            ),
            r@ == handles_on(old(self).pending_list(), channel@),
    {
        // the session
        let ghost s0 = self.session_list();
        let mut i: usize = 0;
        while i < self.sessions.len()
            invariant
                s0 == self.session_list(),
                *self == *old(self),
                i <= self.sessions@.len(),
                forall|j: int| 0 <= j < i ==> s0[j].0 != channel@,
            decreases self.sessions@.len() - i,
        {
            if str_eq(self.sessions[i].channel.as_str(), channel) {
                break;
            }
            i = i + 1;
        }
        if i < self.sessions.len() {
            assert(s0[i as int].0 == channel@);
            self.sessions.remove(i);
            proof {
                lemma_assoc_remove(s0, i as int);
                assert(self.session_list() =~= s0.remove(i as int));
            }
        } else {
            proof {
                lemma_assoc_absent(s0, channel@);
                assert(old(self).sessions().remove(channel@) =~= old(self).sessions());
            }
        }
        // the requests on that channel
        let ghost p0 = self.pending_list();
        assert(p0 == old(self).pending_list());
        let mut rest: Vec<PendingRequest<R>> = Vec::new();
        std::mem::swap(&mut rest, &mut self.pending);
        let mut kept: Vec<PendingRequest<R>> = Vec::new();
        let mut failed: Vec<R> = Vec::new();
        let ghost mut consumed: int = 0;
        assert(p0.subrange(0, p0.len() as int) =~= p0);
        assert(failed@ + handles_on(p0, channel@) =~= handles_on(p0, channel@));
        assert(Seq::new(kept@.len(), |j: int| (kept@[j].request_id@, PendingModel { channel: kept@[j].channel@, tx: kept@[j].tx }))
            + requests_off(p0, channel@) =~= requests_off(p0, channel@));
        while rest.len() > 0
            invariant
                consumed + rest@.len() == p0.len(),
                0 <= consumed <= p0.len(),
                forall|j: int| 0 <= j < rest@.len() ==> (#[trigger] rest@[j]).request_id@ == p0[consumed + j].0
                    && rest@[j].channel@ == p0[consumed + j].1.channel && rest@[j].tx == p0[consumed + j].1.tx,
                failed@ + handles_on(p0.subrange(consumed, p0.len() as int), channel@) == handles_on(p0, channel@),
                Seq::new(kept@.len(), |j: int| (kept@[j].request_id@, PendingModel { channel: kept@[j].channel@, tx: kept@[j].tx }))
                    + requests_off(p0.subrange(consumed, p0.len() as int), channel@) == requests_off(p0, channel@),
            decreases rest@.len(),
        {
            let ghost tail = p0.subrange(consumed, p0.len() as int);
            assert(tail.drop_first() =~= p0.subrange(consumed + 1, p0.len() as int));
            assert(tail[0] == p0[consumed]);
            let ghost kept_before = Seq::new(kept@.len(), |j: int| (kept@[j].request_id@, PendingModel { channel: kept@[j].channel@, tx: kept@[j].tx }));
            let ghost failed_before = failed@;
            let req = rest.remove(0);
            if str_eq(req.channel.as_str(), channel) {
                failed.push(req.tx);
                assert(failed@ + handles_on(p0.subrange(consumed + 1, p0.len() as int), channel@)
                    =~= failed_before + handles_on(tail, channel@)) by {
                    assert(handles_on(tail, channel@) == seq![tail[0].1.tx] + handles_on(tail.drop_first(), channel@));
                };
                let ghost kept_after = Seq::new(kept@.len(), |j: int| (kept@[j].request_id@, PendingModel { channel: kept@[j].channel@, tx: kept@[j].tx }));
                assert(kept_after =~= kept_before);
            } else {
                let ghost entry = (req.request_id@, PendingModel { channel: req.channel@, tx: req.tx });
                kept.push(req);
                let ghost kept_after = Seq::new(kept@.len(), |j: int| (kept@[j].request_id@, PendingModel { channel: kept@[j].channel@, tx: kept@[j].tx }));
                assert(kept_after =~= kept_before.push(entry));
                assert(requests_off(tail, channel@) == seq![tail[0]] + requests_off(tail.drop_first(), channel@));
                assert(kept_after + requests_off(p0.subrange(consumed + 1, p0.len() as int), channel@)
                    =~= kept_before + requests_off(tail, channel@));
            }
            proof { consumed = consumed + 1; }
        }
        assert(p0.subrange(consumed, p0.len() as int) =~= Seq::<(Seq<char>, PendingModel<R>)>::empty());
        self.pending = kept;
        proof {
            assert(self.pending_list() =~= requests_off(p0, channel@));
            lemma_requests_off_map(p0, channel@);
        }
        failed
    }

    /// Takes out the request `request_id` and pairs its answer handle with
    /// what the plugin answered: its error message where it gave one, else its
    /// result (`null` where absent). Nothing where no such request awaits.
    #[verifier::loop_isolation(false)]
    pub fn handle_response(&mut self, request_id: &str, result: Option<JsonValue>, error: Option<String>) -> (r: Option<(R, Result<JsonValue, String>)>)
        requires
            old(self).wf(),
        ensures
            final(self).wf(),
            final(self).sessions() == old(self).sessions(),
            final(self).pending() == old(self).pending().remove(request_id@),
            r is Some <==> old(self).pending().contains_key(request_id@),
            r matches Some((tx, outcome)) ==> tx == old(self).pending()[request_id@].tx
                && match outcome {
                    Ok(v) => response_outcome(
                        match result { Some(x) => Some(x.model()), None => None },
                        opt_view(error),
                    ) == Ok::<Json, Seq<char>>(v.model()),
                    Err(m) => response_outcome(
                        match result { Some(x) => Some(x.model()), None => None },
                        opt_view(error),
                    ) == Err::<Json, Seq<char>>(m@),
                },
    {
        let ghost p0 = self.pending_list();
        let mut i: usize = 0;
        while i < self.pending.len()
            invariant
                p0 == self.pending_list(),
                *self == *old(self),
                i <= self.pending@.len(),
                forall|j: int| 0 <= j < i ==> p0[j].0 != request_id@,
            decreases self.pending@.len() - i,
        {
            if str_eq(self.pending[i].request_id.as_str(), request_id) {
                break;
            }
            i = i + 1;
        }
        if i < self.pending.len() {
            proof { lemma_assoc_index(p0, i as int); }
            let req = self.pending.remove(i);
            proof {
                lemma_assoc_remove(p0, i as int);
                assert(self.pending_list() =~= p0.remove(i as int));
                assert(self.session_list() =~= old(self).session_list());
            }
            let outcome = match error {
                Some(message) => Err(message),
                None => match result {
                    Some(v) => Ok(v),
                    None => Ok(JsonValue::Null),
                },
            };
            Some((req.tx, outcome))
        } else {
            proof {
                lemma_assoc_absent(p0, request_id@);
                assert(old(self).pending().remove(request_id@) =~= old(self).pending());
            }
            None
        }
    }

    /// A report of each connected session, in the registry's order.
    #[verifier::loop_isolation(false)]
    pub fn list_sessions(&self) -> (r: Vec<SessionInfo>)
        requires
            self.wf(),
        ensures
            r@.len() == self.session_list().len(),
            forall|i: int| 0 <= i < r@.len() ==> (#[trigger] r@[i]).model() == self.session_list()[i].1.info,
            forall|i: int| 0 <= i < r@.len() ==> self.sessions().contains_key((#[trigger] r@[i]).channel@)
                && self.sessions()[r@[i].channel@].info == r@[i].model(),
            forall|c: Seq<char>| #[trigger] self.sessions().contains_key(c) ==> exists|i: int| 0 <= i < r@.len() && (#[trigger] r@[i]).channel@ == c,
            r@.len() == self.sessions().len(),
            forall|i: int, j: int| 0 <= i < r@.len() && 0 <= j < r@.len() && i != j
                ==> (#[trigger] r@[i]).channel@ != (#[trigger] r@[j]).channel@,
    {
        let ghost s0 = self.session_list();
        let mut out: Vec<SessionInfo> = Vec::new();
        let mut i: usize = 0;
        while i < self.sessions.len()
            invariant
                s0 == self.session_list(),
                i <= self.sessions@.len(),
                out@.len() == i,
                forall|j: int| 0 <= j < i ==> (#[trigger] out@[j]).model() == s0[j].1.info,
            decreases self.sessions@.len() - i,
        {
            let s = &self.sessions[i];
            let info = SessionInfo {
                channel: s.channel.clone(),
                joined_at: s.joined_at,
                client_name: match &s.client_name {
                    Some(n) => Some(n.clone()),
                    None => None,
                },
                client_version: match &s.client_version {
                    Some(v) => Some(v.clone()),
                    None => None,
                },
            };
            out.push(info);
            i = i + 1;
        }
        proof {
            assert forall|j: int| 0 <= j < out@.len() implies self.sessions().contains_key((#[trigger] out@[j]).channel@)
                && self.sessions()[out@[j].channel@].info == out@[j].model() by {
                lemma_assoc_index(s0, j);
            }
            assert forall|c: Seq<char>| #[trigger] self.sessions().contains_key(c) implies exists|j: int| 0 <= j < out@.len() && (#[trigger] out@[j]).channel@ == c by {
                let j = choose|j: int| 0 <= j < s0.len() && #[trigger] s0[j].0 == c;
                assert(out@[j].channel@ == c);
            }
            lemma_assoc_len(s0);
            assert forall|i: int, j: int| 0 <= i < out@.len() && 0 <= j < out@.len() && i != j
                implies (#[trigger] out@[i]).channel@ != (#[trigger] out@[j]).channel@ by {
                assert(out@[i].channel@ == out@[i].model().channel);
                assert(out@[j].channel@ == out@[j].model().channel);
                assert(s0[i].1.info.channel == s0[i].0);
                assert(s0[j].1.info.channel == s0[j].0);
            }
        }
        out
    }

    /// The number of connected sessions.
    pub fn session_count(&self) -> (r: usize)
        requires
            self.wf(),
        ensures
            r as nat == self.sessions().len(),
            self.sessions().dom().finite(),
    {
        proof { lemma_assoc_len(self.session_list()); }
        self.sessions.len()
    }

    /// Prepares a command for the plugin of `channel`: a fresh request id is
    /// made, the request is recorded as awaiting its answer (to go to
    /// `reply`), and the message that carries the command is built. Fails,
    /// recording nothing, where no plugin has joined the channel. The message
    /// is stamped `now`.
    #[verifier::loop_isolation(false)]
    pub fn send_command(&mut self, channel: &str, command: &str, params: JsonValue, reply: R, now: u64) -> (r: Result<OutgoingCommand<O>, BridgeError>)
        where
            O: Clone,
        requires
            old(self).wf(),
        ensures
            final(self).wf(),
            final(self).sessions() == old(self).sessions(),
            r is Ok <==> old(self).sessions().contains_key(channel@),
            r matches Err(e) ==> bridge_error_message(e) == "No plugin connected for channel: "@ + channel@
                && final(self).pending() == old(self).pending(),
            r matches Ok(out) ==> {
                &&& cloned(old(self).sessions()[channel@].outbound, out.outbound)
                &&& is_uuid_v4_text(out.request_id@)
                &&& final(self).pending() == old(self).pending().insert(
                    out.request_id@,
                    PendingModel { channel: channel@, tx: reply },
                )
                &&& is_uuid_v4_text(out.envelope.model().id)
                &&& out.envelope.model().message_type == MessageType::Message
                &&& out.envelope.model().timestamp == now
                &&& out.envelope.model().channel == Some(channel@)
                &&& out.envelope.model().payload == Some(command_payload_model(command@, params.model(), out.request_id@))
            },
    {
        let ghost s0 = self.session_list();
        let mut i: usize = 0;
        while i < self.sessions.len()
            invariant
                s0 == self.session_list(),
                *self == *old(self),
                i <= self.sessions@.len(),
                forall|j: int| 0 <= j < i ==> s0[j].0 != channel@,
            decreases self.sessions@.len() - i,
        {
            if str_eq(self.sessions[i].channel.as_str(), channel) {
                break;
            }
            i = i + 1;
        }
        if i == self.sessions.len() {
            proof { lemma_assoc_absent(s0, channel@); }
            return Err(BridgeError::NoPluginConnected(String::from_str(channel)));
        }
        proof { lemma_assoc_index(s0, i as int); }
        let outbound = self.sessions[i].outbound.clone();
        let request_id = new_uuid_string();
        // record the request (a repeated id replaces the older request)
        let ghost p0 = self.pending_list();
        let ghost entry = PendingModel { channel: channel@, tx: reply };
        let mut j: usize = 0;
        while j < self.pending.len()
            invariant
                p0 == self.pending_list(),
                *self == *old(self),
                j <= self.pending@.len(),
                forall|k: int| 0 <= k < j ==> p0[k].0 != request_id@,
            decreases self.pending@.len() - j,
        {
            if str_eq(self.pending[j].request_id.as_str(), request_id.as_str()) {
                break;
            }
            j = j + 1;
        }
        let req = PendingRequest { request_id: request_id.clone(), channel: String::from_str(channel), tx: reply };
        if j < self.pending.len() {
            self.pending.set(j, req);
            proof {
                lemma_assoc_update(p0, j as int, entry);
                assert(self.pending_list() =~= p0.update(j as int, (p0[j as int].0, entry)));
            }
        } else {
            proof { lemma_assoc_absent(p0, request_id@); }
            self.pending.push(req);
            proof {
                lemma_assoc_push(p0, request_id@, entry);
                assert(self.pending_list() =~= p0.push((request_id@, entry)));
            }
        }
        proof { assert(self.session_list() =~= s0); }
        let payload = command_payload(command, params, request_id.as_str());
        let env = envelope(new_uuid_string(), MessageType::Message, Some(String::from_str(channel)), Some(payload), now);
        Ok(OutgoingCommand { outbound, request_id, envelope: env })
    }

    /// Settles a command after its wait: the answer where one came; the
    /// plugin's error; the closed handle; or, on a timeout, the request is
    /// taken out and the timeout reported.
    pub fn finish_command(&mut self, request_id: &str, outcome: CommandOutcome, timeout_ms: u64) -> (r: Result<JsonValue, BridgeError>)
        requires
            old(self).wf(),
        ensures
            final(self).wf(),
            final(self).sessions() == old(self).sessions(),
            match outcome {
                CommandOutcome::Replied(Ok(v)) => r matches Ok(x) && x.model() == v.model()
                    && final(self).pending() == old(self).pending(),
                CommandOutcome::Replied(Err(m)) => r matches Err(e) && e == BridgeError::Plugin(m)
                    && final(self).pending() == old(self).pending(),
                CommandOutcome::Closed => r matches Err(e) && e == BridgeError::ChannelClosed
                    && final(self).pending() == old(self).pending(),
                CommandOutcome::TimedOut => r matches Err(e) && e == BridgeError::Timeout(timeout_ms)
                    && final(self).pending() == old(self).pending().remove(request_id@),
            },
    {
        match outcome {
            CommandOutcome::Replied(Ok(v)) => Ok(v),
            CommandOutcome::Replied(Err(m)) => Err(BridgeError::Plugin(m)),
            CommandOutcome::Closed => Err(BridgeError::ChannelClosed),
            CommandOutcome::TimedOut => {
                let _ = self.handle_response(request_id, None, None);
                Err(BridgeError::Timeout(timeout_ms))
            },
        }
    }
}

/// Builds the payload of a command message.
pub fn command_payload(command: &str, params: JsonValue, request_id: &str) -> (r: JsonValue)
    ensures
        r.model() == command_payload_model(command@, params.model(), request_id@),
{
    let mut m = new_members();
    push_member(&mut m, "command", JsonValue::string(command));
    push_member(&mut m, "params", params);
    push_member(&mut m, "requestId", JsonValue::string(request_id));
    object_of(m)
}

/// The body of the HTTP answer to a command: `success` and the result, or
/// `success: false` and the error's message.
pub open spec fn command_response_model(result: Result<Json, Seq<char>>) -> Json {
    match result {
        Ok(v) => Json::Object(crate::json::no_members().push(("success"@, Json::Bool(true))).push(("result"@, v))),
        Err(m) => Json::Object(crate::json::no_members().push(("success"@, Json::Bool(false))).push(("error"@, Json::Str(m)))),
    }
}

/// Builds the body of the HTTP answer to a command.
pub fn command_response(result: Result<JsonValue, BridgeError>) -> (r: JsonValue)
    ensures
        r.model() == command_response_model(match result {
            Ok(v) => Ok(v.model()),
            Err(e) => Err(bridge_error_message(e)),
        }),
{
    let mut m = new_members();
    match result {
        Ok(v) => {
            push_member(&mut m, "success", JsonValue::Bool(true));
            push_member(&mut m, "result", v);
        },
        Err(e) => {
            push_member(&mut m, "success", JsonValue::Bool(false));
            push_member(&mut m, "error", JsonValue::Str(e.message()));
        },
    }
    object_of(m)
}

/// The error a request receives when its plugin disconnects.
pub fn plugin_disconnected_error() -> (r: String)
    ensures
        r@ == "Plugin disconnected"@,
{
    String::from_str("Plugin disconnected")
}

/// The message of a command carries the command's name, the caller's
/// parameters unchanged and the request id, under `command`, `params` and
/// `requestId`, and nothing else.
pub proof fn law_command_message_carries_the_call(command: Seq<char>, params: Json, request_id: Seq<char>)
    ensures
        command_payload_model(command, params, request_id) is Object,
        command_payload_model(command, params, request_id)->Object_0.len() == 3,
        command_payload_model(command, params, request_id).get("command"@) == Some(Json::Str(command)),
        command_payload_model(command, params, request_id).get("params"@) == Some(params),
        command_payload_model(command, params, request_id).get("requestId"@) == Some(Json::Str(request_id)),
{
    reveal_strlit("command");
    assert("command"@.len() == 7);
    reveal_strlit("params");
    assert("params"@.len() == 6);
    reveal_strlit("requestId");
    assert("requestId"@.len() == 9);
    let m = command_payload_model(command, params, request_id)->Object_0;
    lemma_member_at(m, "command"@, 0);
    lemma_member_at(m, "params"@, 1);
    lemma_member_at(m, "requestId"@, 2);
}

} // verus!
