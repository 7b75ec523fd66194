//! What travels between the program and the device, call by call, in plain bytes and texts.
//!
//! Each law is about the result of a call, whatever it is. A frame has thirty-two bytes of tag,
//! sixteen of vector, and the ciphertext.
use vstd::prelude::*;
use vstd::utf8::encode_utf8;

use crate::crypto::{
    self, ctr_crypt, join_frame, mac_eq, open_bytes, open_frame, seal_bytes, seal_json, split_frame,
    FrameError, FrameParts,
};
use crate::heartbeat::{
    classify_reply, connected, now_ms, ping_frame, random_nonce, read_reply, receive,
    Connecting, HeartbeatError, Incoming, Reply,
};
use crate::json;
use crate::protocol::{Announce, Discover, Message, Ping, Pong};
use crate::text;
use crate::text_laws::{self, chars};

verus! {

/// A byte of the key stream that the passphrase gives with a vector.
pub open spec fn stream_byte(iv: Seq<u8>, i: int) -> u8 {
    crypto::aes256_block(
        crypto::sha256_digest(encode_utf8("auto-shutdown-v1:enc"@)),
        crypto::counter_block(iv, i as nat / 16),
    )[i % 16]
}

/// The tag that the passphrase gives for the rest of a frame.
pub open spec fn tag_of(rest: Seq<u8>) -> Seq<u8> {
    crypto::hmac_sha256_tag(
        crypto::sha256_digest(encode_utf8("auto-shutdown-v1:mac"@)),
        rest,
    )
}

/// Both errors are of the same kind, with the same number or words.
pub open spec fn same_error(a: FrameError, b: FrameError) -> bool {
    match (a, b) {
        (FrameError::NotBase64(s), FrameError::NotBase64(t)) => s@ == t@,
        (FrameError::TooShort(n), FrameError::TooShort(m)) => n == m,
        (FrameError::BadMac, FrameError::BadMac) => true,
        (FrameError::NotJson(s), FrameError::NotJson(t)) => s@ == t@,
        _ => false,
    }
}

/// Both replies are of the same kind, with the same words.
pub open spec fn same_reply(a: Reply, b: Reply) -> bool {
    match (a, b) {
        (Reply::Log(s), Reply::Log(t)) => s@ == t@,
        (Reply::Pong(s), Reply::Pong(t)) => chars(s) == chars(t),
        (Reply::Other, Reply::Other) => true,
        _ => false,
    }
}

/// The texts from which the keys come.
proof fn lemma_keys()
    ensures
        crypto::enc_key() == crypto::sha256_digest(encode_utf8("auto-shutdown-v1:enc"@)),
        crypto::mac_key() == crypto::sha256_digest(encode_utf8("auto-shutdown-v1:mac"@)),
{
    reveal_strlit("auto-shutdown-v1");
    reveal_strlit(":enc");
    reveal_strlit(":mac");
    reveal_strlit("auto-shutdown-v1:enc");
    reveal_strlit("auto-shutdown-v1:mac");
    assert("auto-shutdown-v1"@ + ":enc"@ =~= "auto-shutdown-v1:enc"@);
    assert("auto-shutdown-v1"@ + ":mac"@ =~= "auto-shutdown-v1:mac"@);
}

/// What is sealed is the Base64 text of the tag, the vector and the ciphertext: the plaintext
/// combined by exclusive or with the key stream. The tag is over all that follows it.
pub proof fn law_frame_has_its_layout(plain: &[u8], iv: &[u8; 16], r: String)
    requires
        plain@.len() <= isize::MAX,
        call_ensures(seal_bytes, (plain, iv), r),
    ensures
        crypto::base64_decoded(r@) matches Ok(data) && {
            &&& data.len() == 48 + plain@.len()
            &&& data.take(32) == tag_of(data.skip(32))
            &&& forall|i: int| 0 <= i < 16 ==> #[trigger] iv@[i] == data[32 + i]
            &&& forall|i: int|
                0 <= i < plain@.len() ==> #[trigger] plain@[i] ^ stream_byte(iv@, i) == data[48 + i]
        },
        r@ == crypto::base64_encoded(crypto::base64_decoded(r@)->Ok_0),
{
    lemma_keys();
    if r@.len() > 0 {
        assert(crypto::is_base64_char(r@[0]) && crypto::is_base64_char(r@[r@.len() - 1]));
    }
    assert(text::trimmed(r@) == r@);
    let data = crypto::base64_decoded(r@)->Ok_0;
    let ct = crypto::keystream_xor(crypto::enc_key(), iv@, plain@);
    let tag = crypto::frame_tag(iv@, ct);
    assert(data == tag + iv@ + ct);
    assert(data.len() == 48 + plain@.len());
    assert(data.take(32) =~= tag);
    assert(data.skip(32) =~= iv@ + ct);
}

/// A sealed frame opens to its plaintext; one without plaintext is too short by a byte.
pub proof fn law_sealed_frame_opens(
    plain: &[u8],
    iv: &[u8; 16],
    sealed: String,
    frame: &str,
    r: Result<Vec<u8>, FrameError>,
)
    requires
        plain@.len() <= isize::MAX,
        call_ensures(seal_bytes, (plain, iv), sealed),
        frame@ == sealed@,
        call_ensures(open_bytes, (frame,), r),
    ensures
        plain@.len() > 0 ==> (r matches Ok(p) && p@ == plain@),
        plain@.len() == 0 ==> (r matches Err(FrameError::TooShort(n)) && n == 48),
{
}

/// What opening a text gives, for every text there is. White space around it does not matter. What
/// is no Base64 is refused with the words of the decoder, what has no ciphertext with its length, and
/// what has another tag than the passphrase gives is refused. The rest opens to the ciphertext
/// combined by exclusive or with the key stream.
pub proof fn law_frame_is_checked_and_opened(
    frame: &str,
    before: Seq<char>,
    core: Seq<char>,
    after: Seq<char>,
    r: Result<Vec<u8>, FrameError>,
)
    requires
        call_ensures(open_bytes, (frame,), r),
        frame@ == before + core + after,
        forall|i: int| 0 <= i < before.len() ==> text_laws::is_blank(#[trigger] before[i] as int),
        forall|i: int| 0 <= i < after.len() ==> text_laws::is_blank(#[trigger] after[i] as int),
        core.len() > 0 ==> !text_laws::is_blank(core.first() as int) && !text_laws::is_blank(
            core.last() as int,
        ),
    ensures
        match crypto::base64_decoded(core) {
            Err(e) => r matches Err(FrameError::NotBase64(t)) && t@ == e,
            Ok(data) => if data.len() <= 48 {
                r matches Err(FrameError::TooShort(n)) && n == data.len()
            } else if data.take(32) != tag_of(data.skip(32)) {
                r matches Err(FrameError::BadMac)
            } else {
                r matches Ok(p) && p@.len() == data.len() - 48 && forall|i: int|
                    0 <= i < p@.len() ==> #[trigger] p@[i] == data[48 + i] ^ stream_byte(
                        data.subrange(32, 48),
                        i,
                    )
            },
        },
{
    lemma_keys();
    assert forall|i: int| 0 <= i < before.len() implies text::is_white_space(
        #[trigger] before[i],
    ) by {
        assert(text_laws::is_blank(before[i] as int));
    }
    assert forall|i: int| 0 <= i < after.len() implies text::is_white_space(#[trigger] after[i]) by {
        assert(text_laws::is_blank(after[i] as int));
    }
    text::lemma_trimmed_ignores_white_space(before, core, after);
    assert(text::trimmed(core) == core);
    if let Ok(data) = crypto::base64_decoded(core) {
        if data.len() > 48 {
            assert(data.take(32) =~= data.subrange(0, 32));
            assert(data.skip(32) =~= data.subrange(32, 48) + data.subrange(
                48,
                data.len() as int,
            ));
        }
    }
    if let Err(e) = r {
        assert(e is NotBase64 <==> e@ is NotBase64);
        assert(e is TooShort <==> e@ is TooShort);
        assert(e is BadMac <==> e@ is BadMac);
        assert(e is NotJson <==> e@ is NotJson);
    }
}

/// A JSON value is sealed by its compact text, and opens to it.
pub proof fn law_value_is_sealed(
    value: &serde_json::Value,
    sealed: String,
    frame: &str,
    bytes: Result<Vec<u8>, FrameError>,
    opened: Result<serde_json::Value, FrameError>,
)
    requires
        call_ensures(seal_json, (value,), sealed),
        frame@ == sealed@,
        call_ensures(open_bytes, (frame,), bytes),
        call_ensures(open_frame, (frame,), opened),
        json::json_parsed(json::json_text(*value)) == Ok::<Seq<u8>, Seq<char>>(
            json::json_text(*value),
        ),
    ensures
        bytes matches Ok(p) && p@ == json::json_text(*value),
        opened matches Ok(v) && json::json_text(v) == json::json_text(*value),
{
}

/// A frame gives the JSON value of what it opens to; what does not parse is refused with the words of
/// the parser, and what does not open as it is refused otherwise.
pub proof fn law_opened_frame_is_parsed(
    frame: &str,
    bytes: Result<Vec<u8>, FrameError>,
    r: Result<serde_json::Value, FrameError>,
)
    requires
        call_ensures(open_bytes, (frame,), bytes),
        call_ensures(open_frame, (frame,), r),
    ensures
        match bytes {
            Err(e) => r matches Err(other) && same_error(e, other),
            Ok(p) => match json::json_parsed(p@) {
                Ok(t) => r matches Ok(v) && json::json_text(v) == t,
                Err(words) => r matches Err(FrameError::NotJson(t)) && t@ == words,
            },
        },
{
    if let Err(e) = r {
        assert(e is NotBase64 <==> e@ is NotBase64);
        assert(e is TooShort <==> e@ is TooShort);
        assert(e is BadMac <==> e@ is BadMac);
        assert(e is NotJson <==> e@ is NotJson);
    }
    if let Err(e) = bytes {
        assert(e is NotBase64 <==> e@ is NotBase64);
        assert(e is TooShort <==> e@ is TooShort);
        assert(e is BadMac <==> e@ is BadMac);
        assert(e is NotJson <==> e@ is NotJson);
    }
}

/// Two tags are equal exactly if they have the same bytes.
pub proof fn law_tags_are_compared(a: &[u8], b: &[u8], r: bool)
    requires
        call_ensures(mac_eq, (a, b), r),
    ensures
        r <==> a@.len() == b@.len() && (forall|i: int|
            0 <= i < a@.len() ==> #[trigger] a@[i] == b@[i]),
{
    if a@.len() == b@.len() && (forall|i: int| 0 <= i < a@.len() ==> #[trigger] a@[i] == b@[i]) {
        assert(a@ =~= b@);
    }
}

/// The bytes of a frame come apart at thirty-two and forty-eight, where anything follows; otherwise
/// they are refused with their number.
pub proof fn law_frame_comes_apart(data: &[u8], r: Result<FrameParts, FrameError>)
    requires
        call_ensures(split_frame, (data,), r),
    ensures
        data@.len() <= 48 ==> (r matches Err(FrameError::TooShort(n)) && n == data@.len()),
        data@.len() > 48 ==> (r matches Ok(parts) && parts.mac@ == data@.take(32) && parts.iv@
            == data@.subrange(32, 48) && parts.ct@ == data@.skip(48)),
{
    if let Ok(parts) = r {
        assert(parts.mac@ =~= data@.take(32));
        assert(parts.iv@ =~= data@.subrange(32, 48));
        assert(parts.ct@ =~= data@.skip(48));
    }
    if let Err(e) = r {
        assert(e is TooShort <==> e@ is TooShort);
    }
}

/// The parts of a frame are put one behind the other.
pub proof fn law_frame_is_put_together(mac: &[u8], iv: &[u8], ct: &[u8], r: Vec<u8>)
    requires
        call_ensures(join_frame, (mac, iv, ct), r),
    ensures
        r@.len() == mac@.len() + iv@.len() + ct@.len(),
        forall|i: int| 0 <= i < mac@.len() ==> #[trigger] mac@[i] == r@[i],
        forall|i: int| 0 <= i < iv@.len() ==> #[trigger] iv@[i] == r@[mac@.len() + i],
        forall|i: int| 0 <= i < ct@.len() ==> #[trigger] ct@[i] == r@[mac@.len() + iv@.len() + i],
{
}

/// The cipher combines each byte by exclusive or with the byte of the key stream at its place: the
/// encrypted counter, sixteen bytes for each of its values.
pub proof fn law_cipher_combines_each_byte(key: &[u8; 32], iv: &[u8; 16], data: &mut [u8])
    requires
        call_ensures(ctr_crypt, (key, iv, data), ()),
    ensures
        final(data)@.len() == old(data)@.len(),
        forall|i: int|
            0 <= i < old(data)@.len() ==> #[trigger] final(data)@[i] == old(data)@[i]
                ^ crypto::aes256_block(key@, crypto::counter_block(iv@, i as nat / 16))[i % 16],
{
}

/// The words for a frame that is refused.
pub proof fn law_words_for_a_refused_frame(e: &FrameError, r: String)
    requires
        call_ensures(FrameError::message, (e,), r),
    ensures
        e matches FrameError::NotBase64(t) ==> r@ == "报文不是合法的 Base64: "@ + t@,
        e matches FrameError::TooShort(n) ==> r@ == "报文长度不足（"@ + text::decimal_digits(
            *n as nat,
        ) + " 字节），不是合法的加密帧"@,
        e is BadMac ==> r@ == "HMAC 校验失败：报文来源不是合法设备（口令不一致或数据被篡改）"@,
        e matches FrameError::NotJson(t) ==> r@ == "解密后的报文不是合法 JSON: "@ + t@,
{
}

/// The keys of the messages are different texts.
proof fn lemma_names_differ()
    ensures
        "type"@ != "nonce"@ && "type"@ != "ts"@ && "type"@ != "id"@ && "type"@ != "name"@ && "type"@
            != "ws_port"@ && "type"@ != "uptime_s"@,
        "nonce"@ != "ts"@ && "nonce"@ != "id"@ && "nonce"@ != "uptime_s"@ && "name"@ != "id"@
            && "name"@ != "ws_port"@ && "name"@ != "uptime_s"@ && "id"@ != "ws_port"@ && "id"@
            != "uptime_s"@ && "ws_port"@ != "uptime_s"@,
{
    reveal_strlit("type");
    reveal_strlit("nonce");
    reveal_strlit("ts");
    reveal_strlit("id");
    reveal_strlit("name");
    reveal_strlit("ws_port");
    reveal_strlit("uptime_s");
    assert("type"@.len() == 4 && "nonce"@.len() == 5 && "ts"@.len() == 2 && "id"@.len() == 2
        && "name"@.len() == 4 && "ws_port"@.len() == 7 && "uptime_s"@.len() == 8);
    assert("type"@[0] == 't' && "name"@[0] == 'n' && "ts"@[0] == 't' && "id"@[0] == 'i');
}

/// The ping holds its kind, its time and its nonce, and nothing else.
pub proof fn law_ping_holds_its_members(
    ts: u64,
    nonce: &str,
    fresh: Ping,
    p: &Ping,
    r: serde_json::Value,
    key: Seq<char>,
)
    requires
        call_ensures(Ping::new, (ts, nonce), fresh),
        call_ensures(Ping::to_json, (p,), r),
    ensures
        fresh.typ@ == "ping"@ && fresh.ts == ts && fresh.nonce@ == nonce@,
        ({
            let t = json::json_text(r);
            &&& json::json_parsed(t) == Ok::<Seq<u8>, Seq<char>>(t)
            &&& json::json_str_at(t, "type"@) == Some(p.typ@)
            &&& json::json_str_at(t, "nonce"@) == Some(p.nonce@)
            &&& json::json_u64_at(t, "ts"@) == Some(p.ts)
            &&& key != "type"@ && key != "nonce"@ ==> json::json_str_at(t, key) is None
            &&& key != "ts"@ ==> json::json_u64_at(t, key) is None
        }),
{
    lemma_names_differ();
}

/// The pong holds its kind, its nonce, and the uptime and the identity where it has them.
pub proof fn law_pong_holds_its_members(p: &Pong, r: serde_json::Value, key: Seq<char>)
    requires
        call_ensures(Pong::to_json, (p,), r),
    ensures
        ({
            let t = json::json_text(r);
            &&& json::json_parsed(t) == Ok::<Seq<u8>, Seq<char>>(t)
            &&& json::json_str_at(t, "type"@) == Some(p.typ@)
            &&& json::json_str_at(t, "nonce"@) == Some(p.nonce@)
            &&& json::json_str_at(t, "id"@) == chars(p.id)
            &&& json::json_u64_at(t, "uptime_s"@) == p.uptime_s
            &&& key != "type"@ && key != "nonce"@ && key != "id"@ ==> json::json_str_at(t, key)
                is None
            &&& key != "uptime_s"@ ==> json::json_u64_at(t, key) is None
        }),
{
    lemma_names_differ();
}

/// The discovery request holds its kind and its nonce, and nothing else.
pub proof fn law_discover_holds_its_members(
    nonce: &str,
    fresh: Discover,
    d: &Discover,
    r: serde_json::Value,
    key: Seq<char>,
)
    requires
        call_ensures(Discover::new, (nonce,), fresh),
        call_ensures(Discover::to_json, (d,), r),
    ensures
        fresh.typ@ == "discover"@ && fresh.nonce@ == nonce@,
        ({
            let t = json::json_text(r);
            &&& json::json_parsed(t) == Ok::<Seq<u8>, Seq<char>>(t)
            &&& json::json_str_at(t, "type"@) == Some(d.typ@)
            &&& json::json_str_at(t, "nonce"@) == Some(d.nonce@)
            &&& key != "type"@ && key != "nonce"@ ==> json::json_str_at(t, key) is None
            &&& json::json_u64_at(t, key) is None
        }),
{
    lemma_names_differ();
}

/// The announcement holds its kind, the name, the port, and the identity and the uptime where it has
/// them.
pub proof fn law_announce_holds_its_members(a: &Announce, r: serde_json::Value, key: Seq<char>)
    requires
        call_ensures(Announce::to_json, (a,), r),
    ensures
        ({
            let t = json::json_text(r);
            &&& json::json_parsed(t) == Ok::<Seq<u8>, Seq<char>>(t)
            &&& json::json_str_at(t, "type"@) == Some(a.typ@)
            &&& json::json_str_at(t, "name"@) == Some(a.name@)
            &&& json::json_str_at(t, "id"@) == chars(a.id)
            &&& json::json_u64_at(t, "ws_port"@) == Some(a.ws_port as u64)
            &&& json::json_u64_at(t, "uptime_s"@) == a.uptime_s
            &&& key != "type"@ && key != "name"@ && key != "id"@ ==> json::json_str_at(t, key)
                is None
            &&& key != "ws_port"@ && key != "uptime_s"@ ==> json::json_u64_at(t, key) is None
        }),
{
    lemma_names_differ();
}

/// Every part of a message is read under its own key.
pub proof fn law_message_is_read_by_key(value: &serde_json::Value, r: Message)
    requires
        call_ensures(Message::from_json, (value,), r),
    ensures
        ({
            let t = json::json_text(*value);
            &&& chars(r.typ) == json::json_str_at(t, "type"@)
            &&& chars(r.nonce) == json::json_str_at(t, "nonce"@)
            &&& chars(r.id) == json::json_str_at(t, "id"@)
            &&& chars(r.name) == json::json_str_at(t, "name"@)
            &&& r.ws_port == json::json_u64_at(t, "ws_port"@)
            &&& r.up@ == json::json_display_at(t, "up"@)
            &&& chars(r.lv) == json::json_str_at(t, "lv"@)
            &&& chars(r.msg) == json::json_str_at(t, "msg"@)
        }),
{
    assert(chars(r.typ) == r@.typ && chars(r.nonce) == r@.nonce && chars(r.id) == r@.id && chars(
        r.name,
    ) == r@.name && chars(r.lv) == r@.lv && chars(r.msg) == r@.msg);
}

/// The ping that is sent opens to an object with its kind, its time and its nonce, and nothing else.
pub proof fn law_sent_ping_holds_its_members(
    ts: u64,
    nonce: &str,
    r: String,
    frame: &str,
    opened: Result<serde_json::Value, FrameError>,
    key: Seq<char>,
)
    requires
        call_ensures(ping_frame, (ts, nonce), r),
        frame@ == r@,
        call_ensures(open_frame, (frame,), opened),
    ensures
        opened matches Ok(value) && {
            let t = json::json_text(value);
            &&& json::json_str_at(t, "type"@) == Some("ping"@)
            &&& json::json_str_at(t, "nonce"@) == Some(nonce@)
            &&& json::json_u64_at(t, "ts"@) == Some(ts)
            &&& key != "type"@ && key != "nonce"@ ==> json::json_str_at(t, key) is None
            &&& key != "ts"@ ==> json::json_u64_at(t, key) is None
        },
{
    lemma_names_differ();
}

/// The time is that of the clock, as far as sixty-four bits hold it; before the epoch it is zero.
pub proof fn law_time_is_cut_to_its_bits(ms: u128, r: u64, before: u64)
    requires
        call_ensures(now_ms, (Some(ms),), r),
        call_ensures(now_ms, (None,), before),
    ensures
        ms <= u64::MAX ==> r == ms,
        exists|q: int| ms == #[trigger] (q * 0x1_0000_0000_0000_0000) + r,
        before == 0,
{
    let q = ms as int / 0x1_0000_0000_0000_0000;
    assert(ms == q * 0x1_0000_0000_0000_0000 + r);
}

/// A nonce has sixteen hexadecimal digits.
pub proof fn law_nonce_has_sixteen_digits(r: String)
    requires
        call_ensures(random_nonce, (), r),
    ensures
        r@.len() == 16,
        forall|i: int| 0 <= i < 16 ==> text_laws::is_hex(#[trigger] r@[i]),
{
    let bytes = choose|bytes: Seq<u8>| bytes.len() == 8 && r@ == text::hex_digits(bytes);
    text_laws::law_hex_gives_the_bytes_back(bytes);
}

/// A log message is written down whatever else it holds. A pong is accepted exactly if it repeats the
/// nonce, and gives its identity. Everything else is ignored.
pub proof fn law_reply_is_told_by_kind_and_nonce(nonce: &str, message: Message, r: Reply)
    requires
        call_ensures(classify_reply, (nonce, message), r),
    ensures
        r is Log <==> chars(message.typ) == Some("log"@),
        r is Pong <==> chars(message.typ) == Some("pong"@) && chars(message.nonce) == Some(nonce@),
        r matches Reply::Pong(id) ==> chars(id) == chars(message.id),
        r matches Reply::Log(line) ==> line@ == "uptime="@ + message.up@ + "s ["@ + (
        match message.lv {
            Some(lv) => lv@,
            None => "info"@,
        }) + "] "@ + (match message.msg {
            Some(msg) => msg@,
            None => Seq::empty(),
        }),
{
    reveal_strlit("log");
    reveal_strlit("pong");
    assert("log"@.len() == 3 && "pong"@.len() == 4);
    assert(chars(message.typ) == message@.typ && chars(message.nonce) == message@.nonce && chars(
        message.id,
    ) == message@.id && chars(message.lv) == message@.lv && chars(message.msg) == message@.msg);
    assert(r is Log <==> r@ is Log);
    assert(r is Pong <==> r@ is Pong);
    if let Reply::Pong(id) = r {
        assert(chars(id) == r@->Pong_0);
    }
}

/// A text message is opened, read and told; where it does not open, the heartbeat fails for the same
/// reason.
pub proof fn law_reply_is_opened_and_told(
    nonce: &str,
    frame: &str,
    opened: Result<serde_json::Value, FrameError>,
    message: Message,
    told: Reply,
    r: Result<Reply, HeartbeatError>,
)
    requires
        call_ensures(read_reply, (nonce, frame), r),
        call_ensures(open_frame, (frame,), opened),
        opened matches Ok(value) ==> call_ensures(Message::from_json, (&value,), message),
        call_ensures(classify_reply, (nonce, message), told),
    ensures
        opened is Ok ==> (r matches Ok(reply) && same_reply(reply, told)),
        opened matches Err(e) ==> (r matches Err(HeartbeatError::Decrypt(other)) && same_error(
            e,
            other,
        )),
{
    lemma_same_reply(told);
    if let Ok(reply) = r {
        lemma_same_reply(reply);
    }
    if let Err(e) = opened {
        lemma_same_error(e);
    }
    if let Err(HeartbeatError::Decrypt(e)) = r {
        lemma_same_error(e);
    }
}

/// The kind of a reply is that of its view.
proof fn lemma_same_reply(a: Reply)
    ensures
        a matches Reply::Log(s) ==> a@ == crate::heartbeat::ReplyView::Log(s@),
        a matches Reply::Pong(s) ==> a@ == crate::heartbeat::ReplyView::Pong(chars(s)),
        a is Other ==> a@ is Other,
{
}

/// The kind of an error is that of its view.
proof fn lemma_same_error(e: FrameError)
    ensures
        e matches FrameError::NotBase64(t) ==> e@ == crypto::FrameErrorView::NotBase64(t@),
        e matches FrameError::TooShort(n) ==> e@ == crypto::FrameErrorView::TooShort(n as nat),
        e is BadMac ==> e@ is BadMac,
        e matches FrameError::NotJson(t) ==> e@ == crypto::FrameErrorView::NotJson(t@),
{
}

/// A connection that stands lets the heartbeat go on; otherwise it fails with what went wrong.
pub proof fn law_connection_decides(url: &str, outcome: Connecting, r: Result<(), HeartbeatError>)
    requires
        call_ensures(connected, (url, outcome), r),
    ensures
        outcome is Connected <==> r is Ok,
        outcome matches Connecting::BadRequest(e) ==> (r matches Err(HeartbeatError::Request(t))
            && t@ == e@),
        outcome is TimedOut ==> r matches Err(HeartbeatError::ConnectTimeout),
        outcome matches Connecting::Failed(e) ==> (r matches Err(
            HeartbeatError::Connect { url: u, error },
        ) && u@ == url@ && error@ == e@),
{
}

/// What comes is read where it is text; everything else ends the heartbeat with what went wrong.
pub proof fn law_arrivals_are_told(
    nonce: &str,
    incoming: Incoming,
    frame: &str,
    read: Result<Reply, HeartbeatError>,
    r: Result<Reply, HeartbeatError>,
)
    requires
        call_ensures(receive, (nonce, incoming), r),
        call_ensures(read_reply, (nonce, frame), read),
    ensures
        incoming is TimedOut ==> r matches Err(HeartbeatError::ReplyTimeout),
        incoming is Closed ==> r matches Err(HeartbeatError::Closed),
        incoming matches Incoming::NotText(e) ==> (r matches Err(HeartbeatError::NotText(t)) && t@
            == e@),
        incoming matches Incoming::Failed(e) ==> (r matches Err(HeartbeatError::Read(t)) && t@
            == e@),
        incoming matches Incoming::Text(t) ==> (t@ == frame@ ==> match read {
            Ok(told) => r matches Ok(reply) && same_reply(reply, told),
            Err(HeartbeatError::Decrypt(e)) => r matches Err(HeartbeatError::Decrypt(other))
                && same_error(e, other),
            Err(_) => false,
        }),
{
    if let Ok(reply) = r {
        lemma_same_reply(reply);
    }
    if let Ok(reply) = read {
        lemma_same_reply(reply);
    }
    if let Err(HeartbeatError::Decrypt(e)) = r {
        lemma_same_error(e);
    }
    if let Err(HeartbeatError::Decrypt(e)) = read {
        lemma_same_error(e);
    }
}

/// The words for a heartbeat that failed.
pub proof fn law_words_for_a_failed_heartbeat(e: &HeartbeatError, inner: String, r: String)
    requires
        call_ensures(HeartbeatError::message, (e,), r),
        e matches HeartbeatError::Decrypt(f) ==> call_ensures(FrameError::message, (f,), inner),
    ensures
        e matches HeartbeatError::Request(t) ==> r@ == "构造请求失败: "@ + t@,
        e is ConnectTimeout ==> r@ == "连接超时"@,
        e matches HeartbeatError::Connect { url, error } ==> r@ == "连接失败 ("@ + url@ + "): "@
            + error@,
        e matches HeartbeatError::Send(t) ==> r@ == "发送心跳失败: "@ + t@,
        e is ReplyTimeout ==> r@ == "等待心跳应答超时"@,
        e matches HeartbeatError::NotText(t) ==> r@ == "收到非文本报文: "@ + t@,
        e matches HeartbeatError::Read(t) ==> r@ == "读取心跳应答失败: "@ + t@,
        e is Closed ==> r@ == "连接被对端关闭"@,
        e is Decrypt ==> r@ == "心跳应答解密失败: "@ + inner@,
{
}

/// The user reads the round-trip time in whole milliseconds, or the words of the error.
pub proof fn law_test_is_told_in_words(
    rtt: u64,
    e: HeartbeatError,
    words: String,
    good: Result<String, String>,
    bad: Result<String, String>,
)
    requires
        call_ensures(crate::heartbeat::test, (Ok(rtt),), good),
        call_ensures(crate::heartbeat::test, (Err(e),), bad),
        call_ensures(HeartbeatError::message, (&e,), words),
    ensures
        good matches Ok(t) && t@ == "连接成功！ping/pong 往返耗时 "@ + text::decimal_digits(
            (rtt / 1_000_000) as nat,
        ) + " ms。"@,
        bad matches Err(t) && t@ == words@,
{
}

} // verus!
