use auto_shutdown::crypto::{open_frame, seal_json};
use auto_shutdown::heartbeat::{
    classify_reply, connected, now_ms, ping_frame, random_nonce, read_reply, receive,
    Connecting, HeartbeatError, Incoming, Reply,
};
use auto_shutdown::protocol::{Announce, Discover, Message, Ping, Pong};
use serde_json::Value;

fn pong(nonce: &str, id: Option<&str>) -> Pong {
    Pong {
        typ: "pong".to_string(),
        nonce: nonce.to_string(),
        uptime_s: Some(123),
        id: id.map(str::to_string),
    }
}

fn log_value(members: &[(&str, Value)]) -> Value {
    let mut map = serde_json::Map::new();
    map.insert("type".to_string(), Value::from("log"));
    for (key, value) in members {
        map.insert((*key).to_string(), value.clone());
    }
    Value::Object(map)
}

#[test]
fn messages_have_the_members_of_the_protocol() {
    let ping = Ping::new(1_700_000_000_000, "00ff").to_json();
    assert_eq!(ping["type"], "ping");
    assert_eq!(ping["ts"], 1_700_000_000_000u64);
    assert_eq!(ping["nonce"], "00ff");
    let discover = Discover::new("00ff").to_json();
    assert_eq!(discover["type"], "discover");
    assert_eq!(discover["nonce"], "00ff");
    let full = pong("n", Some("a1b2")).to_json();
    assert_eq!(full["uptime_s"], 123);
    assert_eq!(full["id"], "a1b2");
    let announce = Announce {
        typ: "announce".to_string(),
        name: "heartbeat-server".to_string(),
        id: None,
        ws_port: 8123,
        uptime_s: None,
    }
    .to_json();
    assert_eq!(announce["name"], "heartbeat-server");
    assert_eq!(announce["ws_port"], 8123);
    // Optional members that are missing are left out.
    assert!(announce.get("id").is_none());
    assert!(announce.get("uptime_s").is_none());
}

#[test]
fn message_reads_only_members_of_the_right_kind() {
    let mut map = serde_json::Map::new();
    map.insert("type".to_string(), Value::from(5));
    map.insert("ws_port".to_string(), Value::from(-1));
    map.insert("name".to_string(), Value::Null);
    let message = Message::from_json(&Value::Object(map));
    assert!(message.typ.is_none());
    assert!(message.ws_port.is_none());
    assert!(message.name.is_none());
    assert_eq!(message.up, "null");
}

#[test]
fn nonces_are_sixteen_hexadecimal_digits() {
    let nonce = random_nonce();
    assert_eq!(nonce.len(), 16);
    assert!(nonce.chars().all(|c| c.is_ascii_digit() || ('a'..='f').contains(&c)));
    assert_ne!(nonce, random_nonce());
}

#[test]
fn time_since_the_epoch() {
    assert_eq!(now_ms(Some(1_700_000_000_000)), 1_700_000_000_000);
    assert_eq!(now_ms(None), 0);
    assert_eq!(now_ms(Some((1u128 << 64) + 7)), 7);
}

#[test]
fn ping_frame_opens_to_the_ping() {
    let value = open_frame(&ping_frame(42, "abc")).unwrap();
    assert_eq!(value, Ping::new(42, "abc").to_json());
    assert_eq!(value.as_object().unwrap().len(), 3);
}

#[test]
fn pong_with_the_nonce_ends_the_heartbeat() {
    let frame = seal_json(&pong("abc", Some("a1b2")).to_json());
    match read_reply("abc", &frame).unwrap() {
        Reply::Pong(id) => assert_eq!(id.as_deref(), Some("a1b2")),
        other => panic!("{:?}", other),
    }
    assert!(matches!(read_reply("abd", &frame).unwrap(), Reply::Other));
    let old_firmware = seal_json(&pong("abc", None).to_json());
    assert!(matches!(read_reply("abc", &old_firmware).unwrap(), Reply::Pong(None)));
}

#[test]
fn log_lines_of_the_device_are_written_down() {
    let value = log_value(&[
        ("up", Value::from(77)),
        ("lv", Value::from("warn")),
        ("msg", Value::from("wifi weak")),
    ]);
    match classify_reply("n", Message::from_json(&value)) {
        Reply::Log(line) => assert_eq!(line, "uptime=77s [warn] wifi weak"),
        other => panic!("{:?}", other),
    }
    match classify_reply("n", Message::from_json(&log_value(&[]))) {
        Reply::Log(line) => assert_eq!(line, "uptime=nulls [info] "),
        other => panic!("{:?}", other),
    }
    match classify_reply("n", Message::from_json(&log_value(&[("up", Value::from("x"))]))) {
        Reply::Log(line) => assert_eq!(line, "uptime=\"x\"s [info] "),
        other => panic!("{:?}", other),
    }
}

#[test]
fn whatever_comes_is_told_apart() {
    let words = |incoming: Incoming| receive("abc", incoming).unwrap_err().message();
    assert_eq!(words(Incoming::TimedOut), "等待心跳应答超时");
    assert_eq!(words(Incoming::NotText("Binary".to_string())), "收到非文本报文: Binary");
    assert_eq!(words(Incoming::Failed("reset".to_string())), "读取心跳应答失败: reset");
    assert_eq!(words(Incoming::Closed), "连接被对端关闭");
    assert_eq!(
        words(Incoming::Text("AAAA".to_string())),
        "心跳应答解密失败: 报文长度不足（3 字节），不是合法的加密帧"
    );
    let frame = seal_json(&pong("abc", None).to_json());
    assert!(matches!(receive("abc", Incoming::Text(frame)), Ok(Reply::Pong(None))));
}

#[test]
fn connecting_can_fail_in_three_ways() {
    let url = "ws://host:8123/ws";
    let words = |outcome: Connecting| connected(url, outcome).unwrap_err().message();
    assert_eq!(words(Connecting::BadRequest("bad".to_string())), "构造请求失败: bad");
    assert_eq!(words(Connecting::TimedOut), "连接超时");
    assert_eq!(
        words(Connecting::Failed("refused".to_string())),
        "连接失败 (ws://host:8123/ws): refused"
    );
    assert!(connected(url, Connecting::Connected).is_ok());
    assert_eq!(HeartbeatError::Send("broken".to_string()).message(), "发送心跳失败: broken");
}

#[test]
fn connection_test_tells_the_round_trip() {
    assert_eq!(
        auto_shutdown::heartbeat::test(Ok(3_999_999)).unwrap(),
        "连接成功！ping/pong 往返耗时 3 ms。"
    );
    assert_eq!(
        auto_shutdown::heartbeat::test(Err(HeartbeatError::ConnectTimeout)).unwrap_err(),
        "连接超时"
    );
}
