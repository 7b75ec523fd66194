use auto_shutdown::crypto::{open_frame, seal_json};
use auto_shutdown::discovery::{
    broadcast_source, decode_announce, discover_frame, scan_sources, sender_step, Interface, Scan,
    ScanError, ScanSource, SenderStep, SCAN_BROADCAST_INTERVAL, SCAN_DURATION,
};
use auto_shutdown::events::Device;
use auto_shutdown::protocol::{Announce, Discover};
use serde_json::Value;

fn announce(name: &str, id: Option<&str>, ws_port: u16) -> Value {
    Announce {
        typ: "announce".to_string(),
        name: name.to_string(),
        id: id.map(str::to_string),
        ws_port,
        uptime_s: Some(1),
    }
    .to_json()
}

fn device(name: &str, addr: &str) -> Device {
    Device { name: name.to_string(), addr: addr.to_string(), id: None }
}

#[test]
fn announcement_gives_a_device() {
    let frame = seal_json(&announce("esp", Some("a1"), 9000));
    let found = decode_announce(frame.as_bytes(), "192.168.1.7").unwrap();
    assert_eq!(found.name, "esp");
    assert_eq!(found.addr, "192.168.1.7:9000");
    assert_eq!(found.id.as_deref(), Some("a1"));
}

#[test]
fn announcement_may_leave_things_out() {
    let mut map = serde_json::Map::new();
    map.insert("type".to_string(), Value::from("announce"));
    let bare = seal_json(&Value::Object(map.clone()));
    let found = decode_announce(bare.as_bytes(), "10.0.0.1").unwrap();
    assert_eq!(found.name, "heartbeat-server");
    assert_eq!(found.addr, "10.0.0.1:8123");
    assert!(found.id.is_none());
    map.insert("ws_port".to_string(), Value::from(65536 + 80));
    let large = seal_json(&Value::Object(map));
    assert_eq!(decode_announce(large.as_bytes(), "10.0.0.1").unwrap().addr, "10.0.0.1:80");
}

#[test]
fn noise_is_no_device() {
    assert!(decode_announce(b"noise", "10.0.0.1").is_none());
    assert!(decode_announce(&[0xff, 0xfe], "10.0.0.1").is_none());
    let other = seal_json(&Discover::new("n").to_json());
    assert!(decode_announce(other.as_bytes(), "10.0.0.1").is_none());
    let mut broken = seal_json(&announce("esp", None, 8123)).into_bytes();
    broken[0] = if broken[0] == b'A' { b'B' } else { b'A' };
    assert!(decode_announce(&broken, "10.0.0.1").is_none());
}

#[test]
fn discover_frame_opens_to_the_request() {
    assert_eq!(open_frame(&discover_frame("ab")).unwrap(), Discover::new("ab").to_json());
}

#[test]
fn every_interface_with_a_broadcast_address_sends() {
    let lan = Interface::V4 { ip: [192, 168, 1, 5], broadcast: Some([192, 168, 1, 255]) };
    let vpn = Interface::V4 { ip: [10, 8, 0, 2], broadcast: None };
    let loopback = Interface::V4 { ip: [127, 0, 0, 1], broadcast: Some([127, 255, 255, 255]) };
    let unset = Interface::V4 { ip: [1, 2, 3, 4], broadcast: Some([0, 0, 0, 0]) };
    assert_eq!(broadcast_source(vpn), None);
    assert_eq!(broadcast_source(loopback), None);
    assert_eq!(broadcast_source(unset), None);
    assert_eq!(broadcast_source(Interface::V6), None);
    let own = ScanSource { bind: [127, 0, 0, 1], dst: [127, 0, 0, 1] };
    assert_eq!(scan_sources(&vec![]), vec![own]);
    assert_eq!(
        scan_sources(&vec![vpn, lan, Interface::V6, loopback, unset, lan]),
        vec![
            ScanSource { bind: [192, 168, 1, 5], dst: [192, 168, 1, 255] },
            ScanSource { bind: [192, 168, 1, 5], dst: [192, 168, 1, 255] },
            own,
        ]
    );
}

#[test]
fn later_reply_from_an_address_replaces_the_earlier() {
    let mut scan = Scan::new(0);
    scan.sender_started();
    scan.reply(device("one", "10.0.0.1:8123"));
    scan.reply(device("two", "10.0.0.2:8123"));
    scan.reply(device("uno", "10.0.0.1:8123"));
    scan.reply(device("port", "10.0.0.1:9000"));
    let found = scan.finish().unwrap();
    let names: Vec<&str> = found.iter().map(|d| d.name.as_str()).collect();
    assert_eq!(names, vec!["uno", "two", "port"]);
}

#[test]
fn scan_without_a_sender_fails() {
    assert_eq!(
        Scan::new(0).finish().unwrap_err(),
        "未找到可发起扫描的网卡（没有可用的 IPv4 广播地址）"
    );
    let mut scan = Scan::new(0);
    scan.sender_started();
    assert!(scan.finish().unwrap().is_empty());
}

#[test]
fn scan_lasts_three_seconds() {
    let scan = Scan::new(1_000);
    assert_eq!(SCAN_DURATION, 3_000_000_000);
    assert_eq!(scan.deadline(), 3_000_001_000);
    assert_eq!(scan.wait(3_000_000_999), Some(1));
    assert_eq!(scan.wait(3_000_001_000), None);
    let again = SenderStep::Broadcast { listen: SCAN_BROADCAST_INTERVAL };
    assert_eq!(SCAN_BROADCAST_INTERVAL, 400_000_000);
    assert_eq!(sender_step(scan.deadline(), 3_000_000_999, true), again);
    assert_eq!(sender_step(scan.deadline(), 3_000_001_000, true), SenderStep::Stop);
    assert_eq!(sender_step(scan.deadline(), 0, false), SenderStep::Stop);
}

#[test]
fn scan_errors_have_words() {
    assert_eq!(ScanError::Task("gone".to_string()).message(), "枚举网卡任务失败: gone");
    assert_eq!(ScanError::Interfaces("denied".to_string()).message(), "枚举网卡失败: denied");
}
