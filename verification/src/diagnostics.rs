use vstd::prelude::*;
use vstd::string::*;

use crate::call::BridgeSession;
use crate::json::{
    array_of, items_model, new_items, new_members, no_items, no_members, number_from, object_of,
    push_item, push_member, string_or_null, Json, JsonValue,
};
use crate::session::opt_view;
use crate::text::{concat2, concat3, decimal, u128_decimal};

verus! {

/// The bridge's answer to a health check.
#[derive(Clone, Debug)]
pub struct BridgeHealth {
    pub status: String,
    pub ws_port: u16,
    pub http_port: u16,
    pub session_count: usize,
}

/// An optional string as JSON: the string, or `null`.
pub open spec fn str_or_null(s: Option<Seq<char>>) -> Json {
    match s {
        Some(t) => Json::Str(t),
        None => Json::Null,
    }
}

/// A listed session as JSON.
pub open spec fn session_json(s: BridgeSession) -> Json {
    Json::Object(no_members()
        .push(("channel"@, Json::Str(s.channel@)))
        .push(("joined_at"@, Json::Number(decimal(s.joined_at as nat))))
        .push(("client_name"@, str_or_null(opt_view(s.client_name))))
        .push(("client_version"@, str_or_null(opt_view(s.client_version)))))
}

/// A health answer as JSON.
pub open spec fn health_json(h: BridgeHealth) -> Json {
    Json::Object(no_members()
        .push(("status"@, Json::Str(h.status@)))
        .push(("ws_port"@, Json::Number(decimal(h.ws_port as nat))))
        .push(("http_port"@, Json::Number(decimal(h.http_port as nat))))
        .push(("session_count"@, Json::Number(decimal(h.session_count as nat)))))
}

impl BridgeSession {
    /// The session as JSON.
    pub fn to_json(&self) -> (r: JsonValue)
        ensures
            r.model() == session_json(*self),
    {
        let mut m = new_members();
        push_member(&mut m, "channel", JsonValue::Str(self.channel.clone()));
        push_member(&mut m, "joined_at", number_from(self.joined_at as u128));
        push_member(&mut m, "client_name", string_or_null(&self.client_name));
        push_member(&mut m, "client_version", string_or_null(&self.client_version));
        object_of(m)
    }
}

impl BridgeHealth {
    /// The health answer as JSON.
    pub fn to_json(&self) -> (r: JsonValue)
        ensures
            r.model() == health_json(*self),
    {
        let mut m = new_members();
        push_member(&mut m, "status", JsonValue::Str(self.status.clone()));
        push_member(&mut m, "ws_port", number_from(self.ws_port as u128));
        push_member(&mut m, "http_port", number_from(self.http_port as u128));
        push_member(&mut m, "session_count", number_from(self.session_count as u128));
        object_of(m)
    }
}

/// The listed sessions as a JSON array.
fn sessions_json(sessions: &Vec<BridgeSession>) -> (r: JsonValue)
    ensures
        r.model() == Json::Array(Seq::new(sessions@.len(), |i: int| session_json(sessions@[i]))),
{
    let mut out = new_items();
    let mut i: usize = 0;
    while i < sessions.len()
        invariant
            i <= sessions@.len(),
            items_model(out@) == Seq::new(i as nat, |k: int| session_json(sessions@[k])),
        decreases sessions@.len() - i,
    {
        push_item(&mut out, sessions[i].to_json());
        assert(items_model(out@) =~= Seq::new((i + 1) as nat, |k: int| session_json(sessions@[k])));
        i = i + 1;
    }
    array_of(out)
}

/// The provider's status report.
pub open spec fn status_model(health: Option<BridgeHealth>, sessions: Seq<BridgeSession>) -> Json {
    Json::Object(no_members()
        .push(("provider"@, Json::Str("figma"@)))
        .push(("ok"@, Json::Bool(health is Some)))
        .push(("bridge_reachable"@, Json::Bool(health is Some)))
        .push(("plugin_connected"@, Json::Bool(sessions.len() > 0)))
        .push(("active_sessions"@, Json::Number(decimal(sessions.len()))))
        .push(("lock_present"@, Json::Bool(false)))
        .push(("audit_log_path"@, Json::Null))
        .push(("bridge"@, match health {
            Some(h) => health_json(h),
            None => Json::Null,
        }))
        .push(("sessions"@, Json::Array(Seq::new(sessions.len(), |i: int| session_json(sessions[i]))))))
}

/// Builds the provider's status report from the bridge's health answer
/// (`None` where the bridge did not answer) and its sessions.
pub fn status_report(health: &Option<BridgeHealth>, sessions: &Vec<BridgeSession>) -> (r: JsonValue)
    ensures
        r.model() == status_model(*health, sessions@),
{
    let mut m = new_members();
    push_member(&mut m, "provider", JsonValue::string("figma"));
    push_member(&mut m, "ok", JsonValue::Bool(health.is_some()));
    push_member(&mut m, "bridge_reachable", JsonValue::Bool(health.is_some()));
    push_member(&mut m, "plugin_connected", JsonValue::Bool(sessions.len() > 0));
    push_member(&mut m, "active_sessions", number_from(sessions.len() as u128));
    push_member(&mut m, "lock_present", JsonValue::Bool(false));
    push_member(&mut m, "audit_log_path", JsonValue::Null);
    let bridge = match health {
        Some(h) => h.to_json(),
        None => JsonValue::Null,
    };
    push_member(&mut m, "bridge", bridge);
    push_member(&mut m, "sessions", sessions_json(sessions));
    object_of(m)
}

/// One check of the doctor's report.
pub open spec fn check_model(name: Seq<char>, ok: bool, message: Seq<char>) -> Json {
    Json::Object(no_members()
        .push(("name"@, Json::Str(name)))
        .push(("ok"@, Json::Bool(ok)))
        .push(("message"@, Json::Str(message))))
}

fn check_json(name: &str, ok: bool, message: String) -> (r: JsonValue)
    ensures
        r.model() == check_model(name@, ok, message@),
{
    let mut m = new_members();
    push_member(&mut m, "name", JsonValue::string(name));
    push_member(&mut m, "ok", JsonValue::Bool(ok));
    push_member(&mut m, "message", JsonValue::Str(message));
    object_of(m)
}

/// The doctor's report: whether the bridge answers (at `base`), whether a
/// plugin is connected, and whether a session can be inferred.
pub open spec fn doctor_model(reachable: bool, session_count: nat, base: Seq<char>) -> Json {
    let bridge = check_model("bridge"@, reachable, if reachable {
        "Bridge reachable at "@ + base
    } else {
        "Bridge not responding on "@ + base + ". Start it with: figma-provider bridge-serve"@
    });
    let plugin = check_model("plugin_connection"@, session_count > 0, if session_count == 0 {
        "No active plugin connection found"@
    } else {
        decimal(session_count) + " active plugin session(s)"@
    });
    let inference = check_model("session_inference"@, session_count <= 1, if session_count == 1 {
        "Single plugin session detected; session_id may be omitted"@
    } else if session_count == 0 {
        "No plugin session available to infer"@
    } else {
        "Multiple sessions active; explicit session_id required"@
    });
    Json::Object(no_members()
        .push(("provider"@, Json::Str("figma"@)))
        .push(("ok"@, Json::Bool(reachable && session_count > 0)))
        .push(("checks"@, Json::Array(no_items().push(bridge).push(plugin).push(inference)))))
}

/// Builds the doctor's report.
pub fn doctor_report(reachable: bool, sessions: &Vec<BridgeSession>, base: &str) -> (r: JsonValue)
    ensures
        r.model() == doctor_model(reachable, sessions@.len(), base@),
{
    let n = sessions.len();
    let bridge_message = if reachable {
        concat2("Bridge reachable at ", base)
    } else {
        concat3("Bridge not responding on ", base, ". Start it with: figma-provider bridge-serve")
    };
    let plugin_message = if n == 0 {
        String::from_str("No active plugin connection found")
    } else {
        let count = u128_decimal(n as u128);
        concat2(count.as_str(), " active plugin session(s)")
    };
    let inference_message = if n == 1 {
        String::from_str("Single plugin session detected; session_id may be omitted")
    } else if n == 0 {
        String::from_str("No plugin session available to infer")
    } else {
        String::from_str("Multiple sessions active; explicit session_id required")
    };
    let mut checks = new_items();
    push_item(&mut checks, check_json("bridge", reachable, bridge_message));
    push_item(&mut checks, check_json("plugin_connection", n > 0, plugin_message));
    push_item(&mut checks, check_json("session_inference", n <= 1, inference_message));
    let mut m = new_members();
    push_member(&mut m, "provider", JsonValue::string("figma"));
    push_member(&mut m, "ok", JsonValue::Bool(reachable && n > 0));
    push_member(&mut m, "checks", array_of(checks));
    object_of(m)
}

} // verus!
