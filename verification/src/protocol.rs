use std::time::{Duration, SystemTime};

use vstd::prelude::*;

use crate::json::{Json, JsonValue};

verus! {

/// The kind of a bridge message.
#[derive(Clone, Copy, Debug, PartialEq, Eq, Structural)]
pub enum MessageType {
    Join,
    Ack,
    Message,
    Progress,
    Error,
    Ping,
    Pong,
}

/// A bridge message as it travels between the bridge and a plugin.
#[derive(Debug)]
pub struct Envelope {
    pub id: String,
    pub message_type: MessageType,
    pub channel: Option<String>,
    pub timestamp: u64,
    pub payload: Option<JsonValue>,
}

/// The model of an envelope, its strings as character sequences.
pub struct EnvelopeModel {
    pub id: Seq<char>,
    pub message_type: MessageType,
    pub channel: Option<Seq<char>>,
    pub timestamp: u64,
    pub payload: Option<Json>,
}

impl Envelope {
    pub open spec fn model(&self) -> EnvelopeModel {
        EnvelopeModel {
            id: self.id@,
            message_type: self.message_type,
            channel: match self.channel {
                Some(c) => Some(c@),
                None => None,
            },
            timestamp: self.timestamp,
            payload: match self.payload {
                Some(p) => Some(p.model()),
                None => None,
            },
        }
    }
}

/// `std::time::SystemTime`, held opaque.
#[verifier::external_type_specification]
#[verifier::external_body]
pub struct ExSystemTime(SystemTime);

/// The current time: `SystemTime::now`. What it returns depends on the clock,
/// so nothing is stated of it.
#[verifier::external_body]
fn system_now() -> SystemTime {
    SystemTime::now()
}

/// The time elapsed since the Unix epoch: `SystemTime::duration_since` with
/// `UNIX_EPOCH`, `None` where the clock is set before the epoch. It depends on
/// the clock, so nothing more is stated.
#[verifier::external_body]
fn since_unix_epoch(t: SystemTime) -> Option<Duration> {
    t.duration_since(std::time::UNIX_EPOCH).ok()
}

/// Whole milliseconds of a duration: `Duration::as_millis`. The duration is
/// opaque here, so nothing is stated of the count.
#[verifier::external_body]
fn duration_millis(d: Duration) -> u128 {
    d.as_millis()
}

/// The timestamp for a clock reading in milliseconds since the Unix epoch:
/// its low 64 bits (`as u64`).
pub fn millis_timestamp(since_epoch: u128) -> (r: u64)
    ensures
        r == since_epoch % 0x1_0000_0000_0000_0000,
{
    (since_epoch % 0x1_0000_0000_0000_0000) as u64
}

/// Milliseconds since the Unix epoch, truncated to 64 bits; `None` where the
/// clock stands before the epoch, a reading that has no timestamp. The
/// reading depends on the clock, so no value is stated; what is made of it
/// is `millis_timestamp`.
pub fn now_ms() -> Option<u64> {
    match since_unix_epoch(system_now()) {
        Some(d) => Some(millis_timestamp(duration_millis(d))),
        None => None,
    }
}

/// A lower-case hexadecimal digit.
pub open spec fn is_lower_hex(c: char) -> bool {
    ('0' <= c && c <= '9') || ('a' <= c && c <= 'f')
}

/// The hyphenated lower-case text of a version 4 UUID: 36 characters, hyphens
/// at 8, 13, 18 and 23, hexadecimal digits elsewhere, version digit `4` at 14
/// and a variant digit of `8`, `9`, `a` or `b` at 19.
pub open spec fn is_uuid_v4_text(s: Seq<char>) -> bool {
    &&& s.len() == 36
    &&& forall|i: int| 0 <= i < 36 ==> if i == 8 || i == 13 || i == 18 || i == 23 {
        #[trigger] s[i] == '-'
    } else {
        is_lower_hex(s[i])
    }
    &&& s[14] == '4'
    &&& (s[19] == '8' || s[19] == '9' || s[19] == 'a' || s[19] == 'b')
}

/// The text of a random (version 4) UUID: `Uuid::new_v4` then `to_string`.
/// `new_v4` sets the version and variant bits of random bits, and `Display`
/// writes the hyphenated lower-case form; which random digits come out is
/// not stated.
#[verifier::external_body]
pub(crate) fn new_uuid_string() -> (r: String)
    ensures
        is_uuid_v4_text(r@),
{
    uuid::Uuid::new_v4().to_string()
}

/// A message stamped with `timestamp`, the time it is made (`now_ms`).
pub fn envelope(id: String, message_type: MessageType, channel: Option<String>, payload: Option<JsonValue>, timestamp: u64) -> (r: Envelope)
    ensures
        r.id == id,
        r.message_type == message_type,
        r.channel == channel,
        r.payload == payload,
        r.timestamp == timestamp,
{
    Envelope { id, message_type, channel, timestamp, payload }
}

impl MessageType {
    /// The name of the kind on the wire (lower case).
    pub fn as_str(&self) -> (r: &'static str)
        ensures
            r@ == message_type_name(*self),
    {
        match self {
            MessageType::Join => "join",
            MessageType::Ack => "ack",
            MessageType::Message => "message",
            MessageType::Progress => "progress",
            MessageType::Error => "error",
            MessageType::Ping => "ping",
            MessageType::Pong => "pong",
        }
    }
}

/// The wire name of a message kind.
pub open spec fn message_type_name(t: MessageType) -> Seq<char> {
    match t {
        MessageType::Join => "join"@,
        MessageType::Ack => "ack"@,
        MessageType::Message => "message"@,
        MessageType::Progress => "progress"@,
        MessageType::Error => "error"@,
        MessageType::Ping => "ping"@,
        MessageType::Pong => "pong"@,
    }
}

} // verus!
