use auto_shutdown::events::{AppEvent, Device, MonitorCommand};
use auto_shutdown::journal::{
    event_line, failure_line, probe_lines, success_lines, target_line, Level,
};
use auto_shutdown::monitor::{
    find_monitored, to_ws_url, AfterFailure, Monitor, MonitorWork, ALIVE_GRACE, PROBE_INTERVAL,
    VERIFY_AFTER,
};
use auto_shutdown::protocol::{HEARTBEAT_INTERVAL, HEARTBEAT_TIMEOUT, SECOND};

const ADDR: &str = "192.168.1.7:8123";

fn device(addr: &str, id: Option<&str>) -> Device {
    Device { name: "esp".to_string(), addr: addr.to_string(), id: id.map(str::to_string) }
}

/// A monitor of `ADDR` whose first heartbeat succeeded at `now`.
fn armed(id: Option<&str>, now: u64) -> Monitor {
    let mut monitor = Monitor::new();
    monitor.set_target(Some(ADDR.to_string()));
    let events = monitor.heartbeat_ok(id.map(str::to_string), now);
    assert_eq!(events.len(), 1);
    assert!(matches!(events[0], AppEvent::HeartbeatOk));
    monitor
}

/// Fails heartbeats, every probe unanswered, until a loss is reported. Returns the time of it.
fn fail_until_lost(monitor: &mut Monitor, mut now: u64) -> u64 {
    for _ in 0..1000 {
        now += HEARTBEAT_INTERVAL;
        let events = match monitor.heartbeat_failed(ADDR, "down", now) {
            AfterFailure::Probe(beat) => monitor.probe_finished(&beat, &Ok(vec![]), now),
            AfterFailure::Report(events) => events,
        };
        if !events.is_empty() {
            assert!(matches!(events[0], AppEvent::HeartbeatLost { .. }));
            return now;
        }
    }
    panic!("no loss was reported");
}

#[test]
fn addresses_can_be_written_in_three_ways() {
    assert_eq!(to_ws_url("192.168.1.100"), "ws://192.168.1.100:8123/ws");
    assert_eq!(to_ws_url("192.168.1.100:8123"), "ws://192.168.1.100:8123/ws");
    assert_eq!(to_ws_url("ws://192.168.1.100:8123"), "ws://192.168.1.100:8123/ws");
}

#[test]
fn addresses_are_tidied() {
    assert_eq!(to_ws_url("  host/// \n"), "ws://host:8123/ws");
    assert_eq!(to_ws_url("host:1//////"), to_ws_url("host:1"));
    assert_eq!(to_ws_url("wss://host:1/"), "wss://host:1/ws");
    assert_eq!(to_ws_url("ws://host"), "ws://host/ws");
    assert_eq!(to_ws_url(""), "ws://:8123/ws");
    assert_eq!(to_ws_url("WS://host"), "ws://WS://host/ws");
}

#[test]
fn commands_become_work() {
    let mut monitor = Monitor::new();
    assert!(matches!(monitor.tick(), MonitorWork::Nothing));
    assert!(matches!(monitor.command(Some(MonitorCommand::Scan)), MonitorWork::Scan));
    match monitor.command(Some(MonitorCommand::Test("a".to_string()))) {
        MonitorWork::Test(addr) => assert_eq!(addr, "a"),
        other => panic!("{:?}", other),
    }
    let set = MonitorCommand::SetTarget(Some(ADDR.to_string()));
    assert!(matches!(monitor.command(Some(set)), MonitorWork::Nothing));
    match monitor.tick() {
        MonitorWork::Heartbeat(addr) => assert_eq!(addr, ADDR),
        other => panic!("{:?}", other),
    }
    assert!(matches!(monitor.command(None), MonitorWork::Stop));
}

#[test]
fn nothing_is_reported_before_the_first_success() {
    let mut monitor = Monitor::new();
    monitor.set_target(Some(ADDR.to_string()));
    for i in 1..100u64 {
        match monitor.heartbeat_failed(ADDR, "down", i * HEARTBEAT_INTERVAL) {
            AfterFailure::Report(events) => assert!(events.is_empty()),
            AfterFailure::Probe(_) => panic!("a device that never answered is not probed"),
        }
    }
    assert_eq!(monitor.consec_fail, 99);
}

#[test]
fn first_success_is_reported_and_the_next_is_no_news() {
    let mut monitor = armed(Some("a1"), SECOND);
    assert!(monitor.heartbeat_ok(None, 4 * SECOND).is_empty());
    assert_eq!(monitor.device_id.as_deref(), Some("a1"));
    assert_eq!(monitor.last_ok, Some(4 * SECOND));
}

#[test]
fn probing_begins_after_ten_seconds_and_keeps_its_distance() {
    assert_eq!(VERIFY_AFTER, 10 * SECOND);
    assert_eq!(PROBE_INTERVAL, 12 * SECOND);
    assert_eq!(ALIVE_GRACE, 24 * SECOND);
    let mut monitor = armed(None, 0);
    let early = monitor.heartbeat_failed(ADDR, "down", VERIFY_AFTER - 1);
    assert!(matches!(early, AfterFailure::Report(_)));
    let first = monitor.heartbeat_failed(ADDR, "down", VERIFY_AFTER);
    match first {
        AfterFailure::Probe(beat) => {
            assert_eq!(beat.addr, ADDR);
            assert_eq!(beat.since_ok, VERIFY_AFTER);
            assert_eq!(beat.error, "down");
        }
        AfterFailure::Report(_) => panic!("a probe was due"),
    }
    let soon = monitor.heartbeat_failed(ADDR, "down", VERIFY_AFTER + PROBE_INTERVAL - 1);
    assert!(matches!(soon, AfterFailure::Report(_)));
    let next = monitor.heartbeat_failed(ADDR, "down", VERIFY_AFTER + PROBE_INTERVAL);
    assert!(matches!(next, AfterFailure::Probe(_)));
}

#[test]
fn silence_for_a_minute_is_a_loss_and_is_reported_once() {
    let mut monitor = armed(None, 0);
    let lost_at = fail_until_lost(&mut monitor, 0);
    assert_eq!(lost_at, HEARTBEAT_TIMEOUT);
    for i in 1..50u64 {
        let now = lost_at + i * HEARTBEAT_INTERVAL;
        let events = match monitor.heartbeat_failed(ADDR, "down", now) {
            AfterFailure::Probe(beat) => {
                monitor.probe_finished(&beat, &Err("no network".to_string()), now)
            }
            AfterFailure::Report(events) => events,
        };
        assert!(events.is_empty());
    }
    let events = monitor.heartbeat_ok(None, lost_at + 1000 * SECOND);
    assert!(matches!(events[0], AppEvent::HeartbeatOk));
    fail_until_lost(&mut monitor, lost_at + 1000 * SECOND);
}

#[test]
fn loss_comes_with_its_reason() {
    let mut monitor = armed(None, 0);
    match monitor.heartbeat_failed(ADDR, "连接超时", 61 * SECOND) {
        AfterFailure::Probe(beat) => {
            let events = monitor.probe_finished(&beat, &Ok(vec![]), 64 * SECOND);
            match &events[0] {
                AppEvent::HeartbeatLost { detail } => assert_eq!(
                    detail,
                    "心跳中断超过 60 秒，且局域网发现探测无应答，判定设备物理离线（最后一次心跳错误: 连接超时）"
                ),
                other => panic!("{:?}", other),
            }
            let line = event_line(&events[0], "连接超时").unwrap();
            assert_eq!(line.level, Level::Error);
            assert_eq!(
                line.text,
                "判定设备物理离线（距上次成功心跳已超过 60 秒，期间主动探测未发现任何设备，最后一次心跳错误: 连接超时）"
            );
        }
        AfterFailure::Report(_) => panic!("a probe was due"),
    }
}

#[test]
fn device_that_answers_a_probe_is_not_lost() {
    let mut monitor = armed(Some("a1"), 0);
    let found = Ok(vec![device("10.0.0.9:1", Some("zz")), device(ADDR, Some("a1"))]);
    for i in 1..200u64 {
        let now = i * HEARTBEAT_INTERVAL;
        let events = match monitor.heartbeat_failed(ADDR, "down", now) {
            AfterFailure::Probe(beat) => monitor.probe_finished(&beat, &found, now),
            AfterFailure::Report(events) => events,
        };
        assert!(events.is_empty());
    }
    assert_eq!(monitor.target.as_deref(), Some(ADDR));
}

#[test]
fn device_that_moved_is_followed() {
    let mut monitor = armed(Some("a1"), 0);
    let lost_at = fail_until_lost(&mut monitor, 0);
    let now = lost_at + PROBE_INTERVAL;
    match monitor.heartbeat_failed(ADDR, "down", now) {
        AfterFailure::Probe(beat) => {
            let found = Ok(vec![device("192.168.1.8:8123", Some("a1"))]);
            let lines = probe_lines(&monitor, ADDR, &found);
            assert_eq!(lines.len(), 1);
            assert_eq!(lines[0].level, Level::Warn);
            assert_eq!(
                lines[0].text,
                "失联验证探测：设备 esp 已改用新地址 192.168.1.8:8123（原 192.168.1.7:8123，IP 可能被重新分配），自动切换监控目标"
            );
            let events = monitor.probe_finished(&beat, &found, now);
            assert_eq!(events.len(), 2);
            match &events[0] {
                AppEvent::TargetAutoChanged { old, new } => {
                    assert_eq!(old, ADDR);
                    assert_eq!(new, "192.168.1.8:8123");
                }
                other => panic!("{:?}", other),
            }
            assert!(matches!(events[1], AppEvent::HeartbeatOk));
        }
        AfterFailure::Report(_) => panic!("a probe was due"),
    }
    assert_eq!(monitor.target.as_deref(), Some("192.168.1.8:8123"));
    assert_eq!(monitor.device_id.as_deref(), Some("a1"));
    assert!(!monitor.reported_lost);
}

#[test]
fn only_the_same_device_counts() {
    let id = Some("a1".to_string());
    let devices = vec![device(ADDR, None), device(ADDR, Some("zz")), device("x", Some("a1"))];
    assert_eq!(find_monitored(&devices, &id, ADDR).unwrap().addr, "x");
    assert!(find_monitored(&devices[..2].to_vec(), &id, ADDR).is_none());
    // Without a known identity only a device without one is taken, by its address.
    let found = find_monitored(&devices, &None, ADDR).unwrap();
    assert!(found.id.is_none());
    assert!(find_monitored(&devices[1..].to_vec(), &None, ADDR).is_none());
    assert!(find_monitored(&devices, &None, "elsewhere").is_none());
}

#[test]
fn new_target_starts_from_nothing() {
    let mut monitor = armed(Some("a1"), 0);
    fail_until_lost(&mut monitor, 0);
    monitor.set_target(Some("b".to_string()));
    assert!(!monitor.armed);
    assert!(!monitor.reported_lost);
    assert!(monitor.device_id.is_none());
    match monitor.heartbeat_failed("b", "down", 1000 * SECOND) {
        AfterFailure::Report(events) => assert!(events.is_empty()),
        AfterFailure::Probe(_) => panic!("the new target has not answered yet"),
    }
}

#[test]
fn heartbeats_leave_lines() {
    let mut monitor = Monitor::new();
    assert_eq!(target_line(&None).text, "设置监控目标: (停止监控)");
    assert_eq!(target_line(&Some(ADDR.to_string())).text, "设置监控目标: 192.168.1.7:8123");
    monitor.set_target(Some(ADDR.to_string()));
    let failed = failure_line(&monitor, ADDR, "连接超时");
    assert_eq!(failed.level, Level::Warn);
    assert_eq!(failed.text, "心跳失败（连续第 1 次）target=192.168.1.7:8123: 连接超时");
    monitor.heartbeat_failed(ADDR, "连接超时", SECOND);
    let id = Some("a1".to_string());
    let texts: Vec<String> =
        success_lines(&monitor, ADDR, &id, 2_500_000).into_iter().map(|l| l.text).collect();
    assert_eq!(
        texts,
        vec![
            "设备身份 id=a1（target=192.168.1.7:8123）",
            "心跳正常 rtt=2ms target=192.168.1.7:8123（此前连续失败 1 次，已恢复）",
            "首次连通，进入戒备状态（此后失联才会触发关机）",
        ]
    );
    monitor.heartbeat_ok(id.clone(), 2 * SECOND);
    let quiet = success_lines(&monitor, ADDR, &id, 0);
    assert_eq!(quiet.len(), 1);
    assert_eq!(quiet[0].text, "心跳正常 rtt=0ms target=192.168.1.7:8123");
    fail_until_lost(&mut monitor, 2 * SECOND);
    let back = success_lines(&monitor, ADDR, &None, 0);
    assert_eq!(back[1].text, "服务恢复，上报 HeartbeatOk");
}

#[test]
fn probes_leave_lines() {
    let mut monitor = armed(Some("a1"), 0);
    let text = |monitor: &Monitor, scan: Result<Vec<Device>, String>| -> Vec<String> {
        probe_lines(monitor, ADDR, &scan).into_iter().map(|l| l.text).collect()
    };
    assert_eq!(text(&monitor, Err("x".to_string())), vec!["失联验证探测失败（按未发现处理）: x"]);
    assert_eq!(text(&monitor, Ok(vec![])), vec!["失联验证探测：局域网内未发现任何设备"]);
    assert_eq!(
        text(&monitor, Ok(vec![device(ADDR, None), device(ADDR, Some("zz"))])),
        vec!["失联验证探测：发现 2 台设备但均非监控目标（按 id/地址识别），视为未发现"]
    );
    let alive = "失联验证探测：设备 esp（192.168.1.7:8123）仍应答发现广播，判定设备在线，疑似网络路径问题，暂不触发失联";
    assert_eq!(text(&monitor, Ok(vec![device(ADDR, Some("a1"))])), vec![alive]);
    fail_until_lost(&mut monitor, 0);
    assert_eq!(
        text(&monitor, Ok(vec![device(ADDR, Some("a1"))])),
        vec![alive, "设备经探测确认恢复，上报 HeartbeatOk"]
    );
}

#[test]
fn levels_have_names() {
    assert_eq!(Level::Info.name(), "INFO");
    assert_eq!(Level::Warn.name(), "WARN");
    assert_eq!(Level::Error.name(), "ERROR");
    assert!(event_line(&AppEvent::HeartbeatOk, "").is_none());
}
