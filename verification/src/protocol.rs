//! The protocol between the PC and the heartbeat service: constants and messages.
//!
//! - Heartbeat: every [`HEARTBEAT_INTERVAL`] the PC sends an encrypted `ping` to
//!   `ws://<ip>:8123/ws`, and the service answers with a `pong` that carries the same nonce. With
//!   no success for [`HEARTBEAT_TIMEOUT`] the service counts as lost.
//! - Discovery: the PC broadcasts an encrypted `discover` to UDP port 8124, and every service
//!   answers the sender with an encrypted `announce`.
//!
//! Every message travels as one Base64 text; see [`crate::crypto`].
//!
//! Points in time and durations are `u64` counts of nanoseconds on one monotonic clock.
use vstd::prelude::*;

use crate::events::opt_text;
use crate::json::{self, Member, Members};

verus! {

/// TCP port of the WebSocket service.
pub const WS_PORT: u16 = 8123;

/// Path of the WebSocket service.
pub const WS_PATH: &'static str = "/ws";

/// UDP port of the discovery service.
pub const DISCOVERY_PORT: u16 = 8124;

/// One second.
pub const SECOND: u64 = 1_000_000_000;

/// Time between two heartbeats.
pub const HEARTBEAT_INTERVAL: u64 = 3 * SECOND;

/// With no successful heartbeat for this long the service counts as lost.
pub const HEARTBEAT_TIMEOUT: u64 = 60 * SECOND;

/// Length of the shutdown countdown, in seconds.
pub const COUNTDOWN_SECONDS: u64 = 60;

/// Time until the countdown comes back after "later", in seconds.
pub const SNOOZE_LATER_SECONDS: u64 = 30;

/// Pre-shared passphrase; both ends must be configured with the same text.
pub const PASSPHRASE: &'static str = "auto-shutdown-v1";

/// `value` is an object with the strings and unsigned integers of `members` under their keys and
/// none elsewhere, its members display as they do, and its compact text parses back to it.
pub open spec fn holds(value: serde_json::Value, members: Members) -> bool {
    let text = json::json_text(value);
    &&& forall|k: Seq<char>| #[trigger]
        json::json_str_at(text, k) == json::member_text(members.get(k))
    &&& forall|k: Seq<char>| #[trigger]
        json::json_u64_at(text, k) == json::member_count(members.get(k))
    &&& forall|k: Seq<char>|
        json::reads_as(members.get(k), #[trigger] json::json_display_at(text, k))
    &&& json::json_parsed(text) == Ok::<Seq<u8>, Seq<char>>(text)
}

/// Heartbeat request, from the PC to the service.
#[derive(Debug)]
pub struct Ping {
    /// Always `ping`.
    pub typ: String,
    /// Milliseconds since the Unix epoch; the service may ignore it.
    pub ts: u64,
    /// Random text that the answer repeats.
    pub nonce: String,
}

/// Heartbeat answer, from the service to the PC.
#[derive(Debug)]
pub struct Pong {
    /// Always `pong`.
    pub typ: String,
    /// The nonce of the ping.
    pub nonce: String,
    /// Seconds since the service started.
    pub uptime_s: Option<u64>,
    /// Identity of the device, which stays the same when its address changes.
    pub id: Option<String>,
}

/// Discovery request, broadcast by the PC.
#[derive(Debug)]
pub struct Discover {
    /// Always `discover`.
    pub typ: String,
    /// Random text.
    pub nonce: String,
}

/// Discovery answer, from a service to the PC.
#[derive(Debug)]
pub struct Announce {
    /// Always `announce`.
    pub typ: String,
    /// Name of the device, for display.
    pub name: String,
    /// Identity of the device, as in a pong.
    pub id: Option<String>,
    /// TCP port of the WebSocket service.
    pub ws_port: u16,
    /// Seconds since the service started.
    pub uptime_s: Option<u64>,
}

/// `members` with a string under `key`, where there is one.
pub open spec fn with_text(members: Members, key: Seq<char>, text: Option<String>) -> Members {
    match text {
        Some(t) => members.insert(key, Member::Text(t@)),
        None => members,
    }
}

/// `members` with an unsigned integer under `key`, where there is one.
pub open spec fn with_count(members: Members, key: Seq<char>, count: Option<u64>) -> Members {
    match count {
        Some(n) => members.insert(key, Member::Count(n)),
        None => members,
    }
}

/// Inserts a string where there is one.
fn insert_text_opt(
    object: &mut serde_json::Map<String, serde_json::Value>,
    key: &str,
    text: &Option<String>,
)
    ensures
        json::object_members(*final(object)) == with_text(
            json::object_members(*old(object)),
            key@,
            *text,
        ),
{
    match text {
        Some(t) => json::object_insert_text(object, key, t.as_str()),
        None => {},
    }
}

/// Inserts an unsigned integer where there is one.
fn insert_count_opt(
    object: &mut serde_json::Map<String, serde_json::Value>,
    key: &str,
    count: Option<u64>,
)
    ensures
        json::object_members(*final(object)) == with_count(
            json::object_members(*old(object)),
            key@,
            count,
        ),
{
    match count {
        Some(n) => json::object_insert_count(object, key, n),
        None => {},
    }
}

impl Ping {
    /// The members of the message.
    pub open spec fn members(self) -> Members {
        Members::empty().insert("type"@, Member::Text(self.typ@)).insert(
            "ts"@,
            Member::Count(self.ts),
        ).insert("nonce"@, Member::Text(self.nonce@))
    }

    /// The ping sent at `ts`.
    pub fn new(ts: u64, nonce: &str) -> (r: Self)
        ensures
            r.typ@ == "ping"@,
            r.ts == ts,
            r.nonce@ == nonce@,
    {
        Ping { typ: "ping".to_owned(), ts, nonce: nonce.to_owned() }
    }

    /// The message as a JSON object.
    pub fn to_json(&self) -> (r: serde_json::Value)
        ensures
            holds(r, self.members()),
    {
        let mut object = json::object_new();
        json::object_insert_text(&mut object, "type", self.typ.as_str());
        json::object_insert_count(&mut object, "ts", self.ts);
        json::object_insert_text(&mut object, "nonce", self.nonce.as_str());
        json::object_value(object)
    }
}

impl Pong {
    /// The members of the message.
    pub open spec fn members(self) -> Members {
        with_text(
            with_count(
                Members::empty().insert("type"@, Member::Text(self.typ@)).insert(
                    "nonce"@,
                    Member::Text(self.nonce@),
                ),
                "uptime_s"@,
                self.uptime_s,
            ),
            "id"@,
            self.id,
        )
    }

    /// The message as a JSON object.
    pub fn to_json(&self) -> (r: serde_json::Value)
        ensures
            holds(r, self.members()),
    {
        let mut object = json::object_new();
        json::object_insert_text(&mut object, "type", self.typ.as_str());
        json::object_insert_text(&mut object, "nonce", self.nonce.as_str());
        insert_count_opt(&mut object, "uptime_s", self.uptime_s);
        insert_text_opt(&mut object, "id", &self.id);
        json::object_value(object)
    }
}

impl Discover {
    /// The members of the message.
    pub open spec fn members(self) -> Members {
        Members::empty().insert("type"@, Member::Text(self.typ@)).insert(
            "nonce"@,
            Member::Text(self.nonce@),
        )
    }

    /// A discovery request.
    pub fn new(nonce: &str) -> (r: Self)
        ensures
            r.typ@ == "discover"@,
            r.nonce@ == nonce@,
    {
        Discover { typ: "discover".to_owned(), nonce: nonce.to_owned() }
    }

    /// The message as a JSON object.
    pub fn to_json(&self) -> (r: serde_json::Value)
        ensures
            holds(r, self.members()),
    {
        let mut object = json::object_new();
        json::object_insert_text(&mut object, "type", self.typ.as_str());
        json::object_insert_text(&mut object, "nonce", self.nonce.as_str());
        json::object_value(object)
    }
}

impl Announce {
    /// The members of the message.
    pub open spec fn members(self) -> Members {
        with_count(
            with_text(
                Members::empty().insert("type"@, Member::Text(self.typ@)).insert(
                    "name"@,
                    Member::Text(self.name@),
                ),
                "id"@,
                self.id,
            ).insert("ws_port"@, Member::Count(self.ws_port as u64)),
            "uptime_s"@,
            self.uptime_s,
        )
    }

    /// The message as a JSON object.
    pub fn to_json(&self) -> (r: serde_json::Value)
        ensures
            holds(r, self.members()),
    {
        let mut object = json::object_new();
        json::object_insert_text(&mut object, "type", self.typ.as_str());
        json::object_insert_text(&mut object, "name", self.name.as_str());
        insert_text_opt(&mut object, "id", &self.id);
        json::object_insert_count(&mut object, "ws_port", self.ws_port as u64);
        insert_count_opt(&mut object, "uptime_s", self.uptime_s);
        json::object_value(object)
    }
}

/// What a receiver reads out of a message, in terms of plain values.
pub struct MessageView {
    pub typ: Option<Seq<char>>,
    pub nonce: Option<Seq<char>>,
    pub id: Option<Seq<char>>,
    pub name: Option<Seq<char>>,
    pub ws_port: Option<u64>,
    pub up: Seq<char>,
    pub lv: Option<Seq<char>>,
    pub msg: Option<Seq<char>>,
}

/// What a receiver reads out of a message. Each member is there only if the message has it and it
/// is of the right kind.
#[derive(Debug)]
pub struct Message {
    /// Kind of the message.
    pub typ: Option<String>,
    /// Nonce of the request that is answered.
    pub nonce: Option<String>,
    /// Identity of the device.
    pub id: Option<String>,
    /// Name of the device.
    pub name: Option<String>,
    /// TCP port of the WebSocket service.
    pub ws_port: Option<u64>,
    /// JSON text of the uptime in a log line of the device.
    pub up: String,
    /// Level of a log line of the device.
    pub lv: Option<String>,
    /// Text of a log line of the device.
    pub msg: Option<String>,
}

impl View for Message {
    type V = MessageView;

    open spec fn view(&self) -> MessageView {
        MessageView {
            typ: opt_text(self.typ),
            nonce: opt_text(self.nonce),
            id: opt_text(self.id),
            name: opt_text(self.name),
            ws_port: self.ws_port,
            up: self.up@,
            lv: opt_text(self.lv),
            msg: opt_text(self.msg),
        }
    }
}

/// What a receiver reads out of the JSON value with the compact text `text`.
pub open spec fn message_of(text: Seq<u8>) -> MessageView {
    MessageView {
        typ: json::json_str_at(text, "type"@),
        nonce: json::json_str_at(text, "nonce"@),
        id: json::json_str_at(text, "id"@),
        name: json::json_str_at(text, "name"@),
        ws_port: json::json_u64_at(text, "ws_port"@),
        up: json::json_display_at(text, "up"@),
        lv: json::json_str_at(text, "lv"@),
        msg: json::json_str_at(text, "msg"@),
    }
}

impl Message {
    /// Reads a message out of a JSON value.
    pub fn from_json(value: &serde_json::Value) -> (r: Self)
        ensures
            r@ == message_of(json::json_text(*value)),
    {
        Message {
            typ: json::str_at(value, "type"),
            nonce: json::str_at(value, "nonce"),
            id: json::str_at(value, "id"),
            name: json::str_at(value, "name"),
            ws_port: json::u64_at(value, "ws_port"),
            up: json::display_at(value, "up"),
            lv: json::str_at(value, "lv"),
            msg: json::str_at(value, "msg"),
        }
    }
}

/// Keys of messages are different texts.
proof fn lemma_keys_differ()
    ensures
        "type"@ != "nonce"@,
        "type"@ != "ts"@,
        "type"@ != "id"@,
        "type"@ != "name"@,
        "type"@ != "ws_port"@,
        "type"@ != "uptime_s"@,
        "nonce"@ != "ts"@,
        "nonce"@ != "id"@,
        "nonce"@ != "name"@,
        "nonce"@ != "ws_port"@,
        "nonce"@ != "uptime_s"@,
        "id"@ != "ts"@,
        "id"@ != "name"@,
        "id"@ != "ws_port"@,
        "id"@ != "uptime_s"@,
        "name"@ != "ws_port"@,
        "name"@ != "uptime_s"@,
        "ws_port"@ != "uptime_s"@,
{
    reveal_strlit("type");
    reveal_strlit("nonce");
    reveal_strlit("ts");
    reveal_strlit("id");
    reveal_strlit("name");
    reveal_strlit("ws_port");
    reveal_strlit("uptime_s");
    assert("type"@.len() == 4 && "nonce"@.len() == 5 && "ts"@.len() == 2 && "id"@.len() == 2
        && "name"@.len() == 4 && "ws_port"@.len() == 7 && "uptime_s"@.len() == 8);
    assert("type"@[0] == 't' && "name"@[0] == 'n' && "ts"@[0] == 't' && "id"@[0] == 'i');
}

/// A pong that was written as JSON reads back with the kind, nonce and identity it was given.
pub proof fn law_pong_reads_back(pong: Pong, value: serde_json::Value)
    requires
        holds(value, pong.members()),
    ensures
        message_of(json::json_text(value)).typ == Some(pong.typ@),
        message_of(json::json_text(value)).nonce == Some(pong.nonce@),
        message_of(json::json_text(value)).id == opt_text(pong.id),
{
    lemma_keys_differ();
}

/// An announcement that was written as JSON reads back with the kind, name, identity and port it
/// was given.
pub proof fn law_announce_reads_back(announce: Announce, value: serde_json::Value)
    requires
        holds(value, announce.members()),
    ensures
        message_of(json::json_text(value)).typ == Some(announce.typ@),
        message_of(json::json_text(value)).name == Some(announce.name@),
        message_of(json::json_text(value)).id == opt_text(announce.id),
        message_of(json::json_text(value)).ws_port == Some(announce.ws_port as u64),
{
    lemma_keys_differ();
}

/// A ping that was written as JSON reads back with the kind, nonce and time it was given.
pub proof fn law_ping_reads_back(ping: Ping, value: serde_json::Value)
    requires
        holds(value, ping.members()),
    ensures
        message_of(json::json_text(value)).typ == Some(ping.typ@),
        message_of(json::json_text(value)).nonce == Some(ping.nonce@),
        json::json_u64_at(json::json_text(value), "ts"@) == Some(ping.ts),
{
    lemma_keys_differ();
}

/// A discovery request that was written as JSON reads back with the kind and nonce it was given.
pub proof fn law_discover_reads_back(discover: Discover, value: serde_json::Value)
    requires
        holds(value, discover.members()),
    ensures
        message_of(json::json_text(value)).typ == Some(discover.typ@),
        message_of(json::json_text(value)).nonce == Some(discover.nonce@),
{
    lemma_keys_differ();
}

} // verus!
