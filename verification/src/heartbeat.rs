//! One exchange of heartbeat messages with the service.
//!
//! The PC connects, sends a ping, and reads messages until the pong with the nonce of the ping
//! comes. The device may send log lines in between, and anything else is ignored.
use vstd::prelude::*;

use crate::crypto::{self, FrameError, FrameErrorView};
use crate::events::{opt_text, outcome_text};
use crate::json::{self, Member, Members};
use crate::protocol::{self, Message, MessageView, Ping, Pong, SECOND};
use crate::text;

verus! {

/// Time allowed for connecting, and for each message.
pub const STEP_TIMEOUT: u64 = 4 * SECOND;

/// One millisecond.
pub const MILLISECOND: u64 = 1_000_000;

/// The time in milliseconds since the epoch, as far as it fits; zero where the clock stands before
/// the epoch.
pub fn now_ms(since_epoch: Option<u128>) -> (r: u64)
    ensures
        r == match since_epoch {
            Some(ms) => (ms % 0x1_0000_0000_0000_0000) as u64,
            None => 0,
        },
{
    match since_epoch {
        Some(ms) => (ms % 0x1_0000_0000_0000_0000) as u64,
        None => 0,
    }
}

/// Draws a nonce: sixteen hexadecimal digits.
pub fn random_nonce() -> (r: String)
    ensures
        exists|bytes: Seq<u8>| bytes.len() == 8 && r@ == text::hex_digits(bytes),
        r@.len() == 16,
{
    let buf: [u8; 8] = crypto::random_bytes::<8>();
    let r = text::hex(&buf);
    assert(buf@.len() == 8 && r@ == text::hex_digits(buf@));
    r
}

/// The sealed ping sent at `ts`. It opens to the ping with the nonce and the time, and nothing else.
pub fn ping_frame(ts: u64, nonce: &str) -> (r: String)
    ensures
        crypto::opened_json(r@) matches Ok(t) && {
            &&& protocol::message_of(t).typ == Some("ping"@)
            &&& protocol::message_of(t).nonce == Some(nonce@)
            &&& json::json_u64_at(t, "ts"@) == Some(ts)
        },
        exists|ping: Ping, value: serde_json::Value|
            ping.typ@ == "ping"@ && ping.ts == ts && ping.nonce@ == nonce@
                && #[trigger] protocol::holds(value, ping.members()) && crypto::opened_json(r@)
                == Ok::<Seq<u8>, FrameErrorView>(json::json_text(value)),
{
    let ping = Ping::new(ts, nonce);
    let value = ping.to_json();
    proof {
        protocol::law_ping_reads_back(ping, value);
    }
    let r = crypto::seal_json(&value);
    assert(protocol::holds(value, ping.members()));
    r
}

/// Why a heartbeat failed.
#[derive(Debug)]
pub enum HeartbeatError {
    /// The URL makes no request.
    Request(String),
    /// Connecting took too long.
    ConnectTimeout,
    /// Connecting failed.
    Connect { url: String, error: String },
    /// The ping could not be sent.
    Send(String),
    /// No message came in time.
    ReplyTimeout,
    /// A message other than text came.
    NotText(String),
    /// Reading failed.
    Read(String),
    /// The service closed the connection.
    Closed,
    /// A message does not open.
    Decrypt(FrameError),
}

impl HeartbeatError {
    /// The words for the user.
    pub open spec fn message_text(self) -> Seq<char> {
        match self {
            HeartbeatError::Request(e) => "构造请求失败: "@ + e@,
            HeartbeatError::ConnectTimeout => "连接超时"@,
            HeartbeatError::Connect { url, error } => "连接失败 ("@ + url@ + "): "@ + error@,
            HeartbeatError::Send(e) => "发送心跳失败: "@ + e@,
            HeartbeatError::ReplyTimeout => "等待心跳应答超时"@,
            HeartbeatError::NotText(e) => "收到非文本报文: "@ + e@,
            HeartbeatError::Read(e) => "读取心跳应答失败: "@ + e@,
            HeartbeatError::Closed => "连接被对端关闭"@,
            HeartbeatError::Decrypt(e) => "心跳应答解密失败: "@ + e@.message(),
        }
    }

    /// The words for the user.
    pub fn message(&self) -> (r: String)
        ensures
            r@ == self.message_text(),
    {
        match self {
            HeartbeatError::Request(e) => text::join("构造请求失败: ", e.as_str()),
            HeartbeatError::ConnectTimeout => "连接超时".to_owned(),
            HeartbeatError::Connect { url, error } => text::join(
                text::join3("连接失败 (", url.as_str(), "): ").as_str(),
                error.as_str(),
            ),
            HeartbeatError::Send(e) => text::join("发送心跳失败: ", e.as_str()),
            HeartbeatError::ReplyTimeout => "等待心跳应答超时".to_owned(),
            HeartbeatError::NotText(e) => text::join("收到非文本报文: ", e.as_str()),
            HeartbeatError::Read(e) => text::join("读取心跳应答失败: ", e.as_str()),
            HeartbeatError::Closed => "连接被对端关闭".to_owned(),
            HeartbeatError::Decrypt(e) => text::join(
                "心跳应答解密失败: ",
                e.message().as_str(),
            ),
        }
    }
}

/// What a message means to a heartbeat that waits for its pong.
#[derive(Debug)]
pub enum Reply {
    /// A log line of the device, to be written down; go on waiting.
    Log(String),
    /// The pong; the heartbeat succeeded. The device may have given its identity.
    Pong(Option<String>),
    /// Something else; go on waiting.
    Other,
}

/// A reply in terms of plain values.
pub enum ReplyView {
    Log(Seq<char>),
    Pong(Option<Seq<char>>),
    Other,
}

impl View for Reply {
    type V = ReplyView;

    open spec fn view(&self) -> ReplyView {
        match self {
            Reply::Log(line) => ReplyView::Log(line@),
            Reply::Pong(id) => ReplyView::Pong(opt_text(*id)),
            Reply::Other => ReplyView::Other,
        }
    }
}

/// The line that is written down for a log message of the device.
pub open spec fn log_line(message: MessageView) -> Seq<char> {
    let lv = match message.lv {
        Some(t) => t,
        None => "info"@,
    };
    let msg = match message.msg {
        Some(t) => t,
        None => Seq::empty(),
    };
    "uptime="@ + message.up + "s ["@ + lv + "] "@ + msg
}

/// What a message means to the heartbeat that sent `nonce`.
pub open spec fn reply_of(nonce: Seq<char>, message: MessageView) -> ReplyView {
    if message.typ == Some("log"@) {
        ReplyView::Log(log_line(message))
    } else if message.typ == Some("pong"@) && message.nonce == Some(nonce) {
        ReplyView::Pong(message.id)
    } else {
        ReplyView::Other
    }
}

/// Tests whether an optional text is the given one.
pub(crate) fn is_text(text: &Option<String>, expected: &str) -> (r: bool)
    ensures
        r == (opt_text(*text) == Some(expected@)),
{
    match text {
        Some(t) => text::same(t.as_str(), expected),
        None => false,
    }
}

/// The text, or another one where there is none.
pub(crate) fn text_or<'a>(text: &'a Option<String>, other: &'a str) -> (r: &'a str)
    ensures
        r@ == match opt_text(*text) {
            Some(t) => t,
            None => other@,
        },
{
    match text {
        Some(t) => t.as_str(),
        None => other,
    }
}

/// Tells what a message means to the heartbeat that sent `nonce`.
pub fn classify_reply(nonce: &str, message: Message) -> (r: Reply)
    ensures
        r@ == reply_of(nonce@, message@),
{
    if is_text(&message.typ, "log") {
        let head = text::join3("uptime=", message.up.as_str(), "s [");
        let level = text::join3(head.as_str(), text_or(&message.lv, "info"), "] ");
        proof {
            reveal_strlit("");
            assert(""@ =~= Seq::<char>::empty());
        }
        Reply::Log(text::join(level.as_str(), text_or(&message.msg, "")))
    } else if is_text(&message.typ, "pong") && is_text(&message.nonce, nonce) {
        Reply::Pong(message.id)
    } else {
        Reply::Other
    }
}

/// Reads one text message on behalf of the heartbeat that sent `nonce`.
pub fn read_reply(nonce: &str, frame: &str) -> (r: Result<Reply, HeartbeatError>)
    ensures
        match crypto::opened_json(frame@) {
            Ok(t) => r matches Ok(reply) && reply@ == reply_of(nonce@, protocol::message_of(t)),
            Err(e) => r matches Err(HeartbeatError::Decrypt(error)) && error@ == e,
        },
{
    match crypto::open_frame(frame) {
        Ok(value) => Ok(classify_reply(nonce, Message::from_json(&value))),
        Err(error) => Err(HeartbeatError::Decrypt(error)),
    }
}

/// What came of connecting.
#[derive(Debug)]
pub enum Connecting {
    /// The URL makes no request.
    BadRequest(String),
    /// Connecting took too long.
    TimedOut,
    /// Connecting failed.
    Failed(String),
    /// The connection stands.
    Connected,
}

/// Tells whether the heartbeat goes on after an attempt to connect to `url`.
pub fn connected(url: &str, outcome: Connecting) -> (r: Result<(), HeartbeatError>)
    ensures
        match outcome {
            Connecting::BadRequest(e) => r == Err::<(), HeartbeatError>(HeartbeatError::Request(e)),
            Connecting::TimedOut => r == Err::<(), HeartbeatError>(HeartbeatError::ConnectTimeout),
            Connecting::Failed(e) => r matches Err(HeartbeatError::Connect { url: u, error })
                && u@ == url@ && error == e,
            Connecting::Connected => r is Ok,
        },
{
    match outcome {
        Connecting::BadRequest(e) => Err(HeartbeatError::Request(e)),
        Connecting::TimedOut => Err(HeartbeatError::ConnectTimeout),
        Connecting::Failed(error) => Err(HeartbeatError::Connect { url: url.to_owned(), error }),
        Connecting::Connected => Ok(()),
    }
}

/// What came of waiting for a message.
#[derive(Debug)]
pub enum Incoming {
    /// Nothing in time.
    TimedOut,
    /// A text message.
    Text(String),
    /// A message other than text.
    NotText(String),
    /// Reading failed.
    Failed(String),
    /// The service closed the connection.
    Closed,
}

/// What a heartbeat makes of what came: a reply, or the end of the heartbeat. The words of an error
/// stand for the error.
pub open spec fn received(nonce: Seq<char>, incoming: Incoming) -> Result<ReplyView, Seq<char>> {
    match incoming {
        Incoming::TimedOut => Err(HeartbeatError::ReplyTimeout.message_text()),
        Incoming::Text(frame) => match crypto::opened_json(frame@) {
            Ok(t) => Ok(reply_of(nonce, protocol::message_of(t))),
            Err(e) => Err("心跳应答解密失败: "@ + e.message()),
        },
        Incoming::NotText(e) => Err(HeartbeatError::NotText(e).message_text()),
        Incoming::Failed(e) => Err(HeartbeatError::Read(e).message_text()),
        Incoming::Closed => Err(HeartbeatError::Closed.message_text()),
    }
}

/// Tells what the heartbeat that sent `nonce` makes of what came.
pub fn receive(nonce: &str, incoming: Incoming) -> (r: Result<Reply, HeartbeatError>)
    ensures
        match incoming {
            Incoming::TimedOut => r matches Err(HeartbeatError::ReplyTimeout),
            Incoming::Text(frame) => match crypto::opened_json(frame@) {
                Ok(t) => r matches Ok(reply) && reply@ == reply_of(nonce@, protocol::message_of(t)),
                Err(e) => r matches Err(HeartbeatError::Decrypt(error)) && error@ == e,
            },
            Incoming::NotText(e) => r matches Err(HeartbeatError::NotText(error)) && error == e,
            Incoming::Failed(e) => r matches Err(HeartbeatError::Read(error)) && error == e,
            Incoming::Closed => r matches Err(HeartbeatError::Closed),
        },
        match r {
            Ok(reply) => received(nonce@, incoming) == Ok::<ReplyView, Seq<char>>(reply@),
            Err(e) => received(nonce@, incoming) == Err::<ReplyView, Seq<char>>(e.message_text()),
        },
{
    match incoming {
        Incoming::TimedOut => Err(HeartbeatError::ReplyTimeout),
        Incoming::Text(frame) => read_reply(nonce, frame.as_str()),
        Incoming::NotText(e) => Err(HeartbeatError::NotText(e)),
        Incoming::Failed(e) => Err(HeartbeatError::Read(e)),
        Incoming::Closed => Err(HeartbeatError::Closed),
    }
}

/// What a heartbeat comes to when these things come, one after the other: the first that is neither
/// a log line nor something to ignore decides. `None` says that it goes on waiting.
pub open spec fn exchange(nonce: Seq<char>, arrivals: Seq<Incoming>) -> Option<
    Result<Option<Seq<char>>, Seq<char>>,
>
    decreases arrivals.len(),
{
    if arrivals.len() == 0 {
        None
    } else {
        match received(nonce, arrivals.first()) {
            Ok(ReplyView::Pong(id)) => Some(Ok(id)),
            Ok(_) => exchange(nonce, arrivals.drop_first()),
            Err(e) => Some(Err(e)),
        }
    }
}

/// The result of a connection test as the user reads it; `Ok` holds the round-trip time.
pub fn test(outcome: Result<u64, HeartbeatError>) -> (r: Result<String, String>)
    ensures
        outcome_text(r) == match outcome {
            Ok(rtt) => Ok::<Seq<char>, Seq<char>>(
                "连接成功！ping/pong 往返耗时 "@ + text::decimal_digits((rtt / MILLISECOND) as nat)
                    + " ms。"@,
            ),
            Err(error) => Err(error.message_text()),
        },
{
    match outcome {
        Ok(rtt) => Ok(
            text::join3(
                "连接成功！ping/pong 往返耗时 ",
                text::decimal(rtt / MILLISECOND).as_str(),
                " ms。",
            ),
        ),
        Err(error) => Err(error.message()),
    }
}

/// The pong that repeats the nonce is accepted, and gives the identity of the device; the same
/// pong does nothing for a heartbeat with another nonce.
pub proof fn law_pong_answers_its_ping(
    pong: Pong,
    value: serde_json::Value,
    nonce: Seq<char>,
)
    requires
        pong.typ@ == "pong"@,
        protocol::holds(value, pong.members()),
    ensures
        reply_of(nonce, protocol::message_of(json::json_text(value))) == if pong.nonce@ == nonce {
            ReplyView::Pong(opt_text(pong.id))
        } else {
            ReplyView::Other
        },
{
    protocol::law_pong_reads_back(pong, value);
    reveal_strlit("log");
    reveal_strlit("pong");
    assert("log"@.len() != "pong"@.len());
}

/// The members of a log message of the device; each but the kind may be missing.
pub open spec fn log_members(up: Option<u64>, lv: Option<String>, msg: Option<String>) -> Members {
    protocol::with_text(
        protocol::with_text(
            protocol::with_count(
                Members::empty().insert("type"@, Member::Text("log"@)),
                "up"@,
                up,
            ),
            "lv"@,
            lv,
        ),
        "msg"@,
        msg,
    )
}

/// A log message of the device gives the line that is written down for it: its uptime in decimal,
/// its level and its text. Where they are missing, the line has `null`, `info` and nothing.
pub proof fn law_log_message_gives_its_line(
    value: serde_json::Value,
    up: Option<u64>,
    lv: Option<String>,
    msg: Option<String>,
    nonce: Seq<char>,
)
    requires
        protocol::holds(value, log_members(up, lv, msg)),
    ensures
        reply_of(nonce, protocol::message_of(json::json_text(value))) == ReplyView::Log(
            "uptime="@ + match up {
                Some(n) => text::decimal_digits(n as nat),
                None => "null"@,
            } + "s ["@ + match lv {
                Some(t) => t@,
                None => "info"@,
            } + "] "@ + match msg {
                Some(t) => t@,
                None => Seq::empty(),
            },
        ),
{
    reveal_strlit("type");
    reveal_strlit("up");
    reveal_strlit("lv");
    reveal_strlit("msg");
    assert("type"@.len() == 4 && "up"@.len() == 2 && "lv"@.len() == 2 && "msg"@.len() == 3);
    assert("up"@[0] == 'u' && "lv"@[0] == 'l');
    let m = log_members(up, lv, msg);
    let t = json::json_text(value);
    assert(json::reads_as(m.get("up"@), json::json_display_at(t, "up"@)));
    assert(json::json_str_at(t, "lv"@) == json::member_text(m.get("lv"@)));
    assert(json::json_str_at(t, "msg"@) == json::member_text(m.get("msg"@)));
    assert(json::json_str_at(t, "type"@) == json::member_text(m.get("type"@)));
}

/// Log lines and messages of other kinds in front change nothing: the heartbeat comes to what it
/// would come to without them.
pub proof fn law_noise_is_skipped(nonce: Seq<char>, noise: Seq<Incoming>, rest: Seq<Incoming>)
    requires
        forall|i: int|
            0 <= i < noise.len() ==> (received(nonce, #[trigger] noise[i]) matches Ok(reply)
                && !(reply is Pong)),
    ensures
        exchange(nonce, noise + rest) == exchange(nonce, rest),
    decreases noise.len(),
{
    if noise.len() == 0 {
        assert(noise + rest =~= rest);
    } else {
        let tail = noise.drop_first();
        assert(noise[0] == noise.first());
        assert((noise + rest).first() == noise.first());
        assert((noise + rest).drop_first() =~= tail + rest);
        assert forall|i: int| 0 <= i < tail.len() implies (received(nonce, #[trigger] tail[i])
            matches Ok(reply) && !(reply is Pong)) by {
            assert(tail[i] == noise[i + 1]);
        }
        law_noise_is_skipped(nonce, tail, rest);
    }
}

/// A heartbeat succeeds only by a pong that carries its nonce and opens under the passphrase.
pub proof fn law_only_its_pong_succeeds(nonce: Seq<char>, arrivals: Seq<Incoming>)
    requires
        exchange(nonce, arrivals) matches Some(Ok(_)),
    ensures
        exists|i: int|
            0 <= i < arrivals.len() && (#[trigger] arrivals[i] matches Incoming::Text(frame) && (
            crypto::opened_json(frame@) matches Ok(t) && protocol::message_of(t).typ == Some(
                "pong"@,
            ) && protocol::message_of(t).nonce == Some(nonce))),
    decreases arrivals.len(),
{
    let first = arrivals.first();
    assert(arrivals[0] == first);
    match received(nonce, first) {
        Ok(ReplyView::Pong(_)) => {
            assert(first is Text);
        },
        Ok(_) => {
            let rest = arrivals.drop_first();
            law_only_its_pong_succeeds(nonce, rest);
            let i = choose|i: int|
                0 <= i < rest.len() && (#[trigger] rest[i] matches Incoming::Text(frame) && (
                crypto::opened_json(frame@) matches Ok(t) && protocol::message_of(t).typ == Some(
                    "pong"@,
                ) && protocol::message_of(t).nonce == Some(nonce)));
            assert(arrivals[i + 1] == rest[i]);
        },
        Err(_) => {},
    }
}

} // verus!
