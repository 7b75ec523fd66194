use auto_shutdown::app::{legacy_config_path, AppModel, Effect};
use auto_shutdown::countdown::{CountdownButton, CountdownView};
use auto_shutdown::events::{AppEvent, CountdownChoice, Device, HeartStatus};
use auto_shutdown::monitor::{AfterFailure, Monitor};
use auto_shutdown::protocol::SECOND;
use auto_shutdown::window::{input_placeholder, BannerKind, StatusIcon, Tone};

fn lost(detail: &str) -> AppEvent {
    AppEvent::HeartbeatLost { detail: detail.to_string() }
}

fn names(effects: &[Effect]) -> Vec<String> {
    effects.iter().map(|e| format!("{:?}", e)).collect()
}

fn hint(model: &AppModel) -> (&str, bool) {
    let hint = model.hint.as_ref().unwrap();
    (hint.text.as_str(), hint.is_error)
}

#[test]
fn program_starts_with_a_scan() {
    let (model, effects) = AppModel::new(true);
    assert_eq!(names(&effects), vec!["Send(Scan)"]);
    assert_eq!(model.status, HeartStatus::NotConfigured);
    assert!(model.scanning && model.autostart && !model.countdown);
    assert_eq!(hint(&model), ("正在扫描局域网（UDP 广播，发现端口 8124），请稍候…", false));
}

#[test]
fn loss_opens_the_countdown_and_recovery_closes_it() {
    let (mut model, _) = AppModel::new(false);
    model.handle_event(AppEvent::HeartbeatOk, SECOND);
    assert!(model.hint.is_none());
    let effects = model.handle_event(lost("down"), 2 * SECOND);
    assert_eq!(names(&effects), vec!["OpenCountdown", "Repaint"]);
    assert_eq!(model.lost_detail.as_deref(), Some("down"));
    assert_eq!(hint(&model), ("检测到心跳服务失联，已弹出关机倒计时！", true));
    // A second report changes nothing about the window that is open.
    assert_eq!(names(&model.handle_event(lost("again"), 3 * SECOND)), vec!["Repaint"]);
    let effects = model.handle_event(AppEvent::HeartbeatOk, 4 * SECOND);
    assert_eq!(names(&effects), vec!["CloseCountdown", "Repaint"]);
    assert_eq!(model.status, HeartStatus::Connected);
    assert!(model.lost_detail.is_none() && model.hint.is_none());
    assert_eq!(model.snooze_gen, 2);
    let mut more = Vec::new();
    model.on_heartbeat_ok(&mut more);
    assert_eq!(names(&more), vec!["Repaint"]);
    assert_eq!(model.snooze_gen, 3);
}

#[test]
fn cancel_stays_quiet_until_the_next_loss() {
    let (mut model, _) = AppModel::new(false);
    model.handle_event(lost("down"), 0);
    let cancel = AppEvent::CountdownAction(CountdownChoice::Cancel);
    assert_eq!(names(&model.handle_event(cancel, SECOND)), vec!["CloseCountdown", "Repaint"]);
    assert_eq!(
        hint(&model),
        ("已取消本次关机。心跳恢复后会重新开始监测，若再次失联超过 60 秒将再次提醒。", false)
    );
    assert_eq!(model.status, HeartStatus::Lost);
    model.handle_event(AppEvent::WindowHidden, 100 * SECOND);
    model.handle_event(AppEvent::TrayShow, 1000 * SECOND);
    assert!(!model.countdown);
    model.handle_event(AppEvent::HeartbeatOk, 2000 * SECOND);
    let effects = model.handle_event(lost("down"), 3000 * SECOND);
    assert_eq!(names(&effects), vec!["OpenCountdown", "Repaint"]);
}

#[test]
fn later_comes_back_after_thirty_seconds() {
    let (mut model, _) = AppModel::new(false);
    model.handle_event(lost("down"), 0);
    let later = AppEvent::CountdownAction(CountdownChoice::Later);
    let effects = model.handle_event(later, SECOND);
    assert_eq!(
        names(&effects),
        vec!["CloseCountdown", "StartSnooze { seconds: 30, generation: 1 }", "Repaint"]
    );
    assert_eq!(hint(&model), ("将在 30 秒后再次弹出关机倒计时。", false));
    assert_eq!(names(&model.handle_event(lost("again"), 30 * SECOND)), vec!["Repaint"]);
    assert!(!model.countdown);
    assert!(model.snooze_elapsed(0, 31 * SECOND).is_empty());
    assert_eq!(names(&model.snooze_elapsed(1, 31 * SECOND)), vec!["OpenCountdown"]);
    assert!(model.countdown && model.snooze_until.is_none());
}

#[test]
fn timer_of_an_ended_loss_does_nothing() {
    let (mut model, _) = AppModel::new(false);
    model.handle_event(lost("down"), 0);
    model.handle_event(AppEvent::CountdownAction(CountdownChoice::Later), 0);
    model.handle_event(AppEvent::HeartbeatOk, 10 * SECOND);
    assert!(model.snooze_elapsed(1, 30 * SECOND).is_empty());
    model.handle_event(lost("down"), 31 * SECOND);
    assert!(model.countdown);
    assert!(model.snooze_elapsed(1, 32 * SECOND).is_empty());
}

#[test]
fn shutdown_closes_the_countdown_first() {
    let (mut model, _) = AppModel::new(false);
    model.handle_event(lost("down"), 0);
    let effects = model.handle_event(AppEvent::ShutdownNow, SECOND);
    assert_eq!(names(&effects), vec!["CloseCountdown", "Repaint", "Shutdown"]);
    assert_eq!(hint(&model), ("正在执行关机…", false));
    assert_eq!(names(&model.shutdown_failed("denied")), vec!["Repaint"]);
    assert_eq!(hint(&model), ("关机命令执行失败: denied", true));
}

#[test]
fn first_device_found_is_monitored() {
    let (mut model, _) = AppModel::new(false);
    let devices = vec![
        Device { name: "esp".to_string(), addr: "10.0.0.1:8123".to_string(), id: None },
        Device { name: "nas".to_string(), addr: "10.0.0.2:8123".to_string(), id: None },
    ];
    let effects = model.handle_event(AppEvent::ScanFinished(Ok(devices)), 0);
    assert_eq!(
        names(&effects),
        vec![
            "SetInput(\"10.0.0.1:8123\")",
            "Send(SetTarget(Some(\"10.0.0.1:8123\")))",
            "Repaint",
        ]
    );
    assert_eq!(hint(&model), ("发现 2 台设备：esp（10.0.0.1:8123），已自动连接并开始监控。", false));
    assert_eq!(model.status, HeartStatus::Waiting);
    assert!(!model.scanning);
}

#[test]
fn scan_may_find_nothing_or_fail() {
    let (mut model, _) = AppModel::new(false);
    model.handle_event(AppEvent::ScanFinished(Ok(vec![])), 0);
    assert_eq!(
        hint(&model),
        ("未在局域网内发现心跳服务。请确认服务端已开机，或手动输入服务地址。", false)
    );
    assert!(!model.scanning);
    assert_eq!(names(&model.start_scan()), vec!["Send(Scan)", "Repaint"]);
    assert!(model.scanning);
    model.handle_event(AppEvent::ScanFinished(Err("x".to_string())), 0);
    assert_eq!(hint(&model), ("扫描失败: x", true));
    assert_eq!(model.status, HeartStatus::NotConfigured);
}

#[test]
fn buttons_need_an_address() {
    let (mut model, _) = AppModel::new(false);
    assert_eq!(names(&model.start_test(" \t")), vec!["Repaint"]);
    assert_eq!(model.test_result, Some(Err("请先输入服务地址".to_string())));
    assert_eq!(names(&model.save_and_start("")), vec!["Repaint"]);
    assert_eq!(hint(&model), ("请先输入服务地址", true));
    assert!(model.saved_server.is_none());
    assert_eq!(names(&model.start_test(" host ")), vec!["Send(Test(\"host\"))", "Repaint"]);
    assert_eq!(model.test_result, Some(Err("测试中…".to_string())));
    assert_eq!(
        names(&model.save_and_start(" host ")),
        vec!["Send(SetTarget(Some(\"host\")))", "Repaint"]
    );
    assert_eq!(model.saved_server.as_deref(), Some("host"));
    assert_eq!(model.status, HeartStatus::Waiting);
    assert!(model.test_result.is_none());
    assert_eq!(
        hint(&model),
        (
            "已开始监控（地址仅本次运行生效，重启后重新扫描或输入）。首次连通前不会触发关机（防误报）。",
            false
        )
    );
}

#[test]
fn small_events_do_what_they_say() {
    let (mut model, _) = AppModel::new(false);
    assert_eq!(names(&model.handle_event(AppEvent::TrayShow, 0)), vec!["ShowWindow"]);
    assert_eq!(names(&model.handle_event(AppEvent::Quit, 0)), vec!["Quit"]);
    assert!(model.handle_event(AppEvent::WindowHidden, 0).is_empty());
    model.handle_event(AppEvent::TestFinished(Ok("fine".to_string())), 0);
    assert_eq!(model.test_result, Some(Ok("fine".to_string())));
    assert_eq!(names(&model.handle_event(AppEvent::WindowHidden, 0)), vec!["Repaint"]);
    assert!(model.test_result.is_none());
    let moved = AppEvent::TargetAutoChanged { old: "a".to_string(), new: "b".to_string() };
    assert_eq!(names(&model.handle_event(moved, 0)), vec!["Repaint"]);
    assert_eq!(model.saved_server.as_deref(), Some("b"));
    assert_eq!(names(&model.toggle_config()), vec!["Repaint"]);
    assert!(model.config_open);
}

#[test]
fn start_at_logon_is_switched_from_both_sides() {
    let (mut model, _) = AppModel::new(false);
    assert_eq!(names(&model.toggle_autostart()), vec!["SetAutostart(true)"]);
    assert_eq!(names(&model.autostart_finished(true, Ok(()))), vec!["SyncTray(true)", "Repaint"]);
    assert!(model.autostart);
    assert_eq!(names(&model.toggle_autostart()), vec!["SetAutostart(false)"]);
    let failed = model.autostart_finished(false, Err("删除计划任务失败: x".to_string()));
    assert_eq!(names(&failed), vec!["Repaint"]);
    assert!(model.autostart);
    assert_eq!(hint(&model), ("删除计划任务失败: x", true));
    model.handle_event(AppEvent::AutostartChanged(false), 0);
    assert!(!model.autostart);
}

#[test]
fn window_shows_its_state() {
    let (mut model, _) = AppModel::new(false);
    let shown = model.render();
    assert_eq!(shown.target, "尚未配置");
    assert_eq!(shown.status_text, "尚未配置服务地址");
    assert_eq!((shown.status_tone, shown.status_icon), (Tone::Muted, StatusIcon::Info));
    assert_eq!(shown.scan_label, "扫描中…");
    assert!(shown.scan_disabled && shown.lost.is_none() && shown.test.is_none());
    assert_eq!(shown.hint.unwrap().kind, BannerKind::Info);
    model.handle_event(AppEvent::ScanFinished(Err("x".to_string())), 0);
    model.save_and_start("host");
    model.start_test("");
    let shown = model.render();
    assert_eq!(shown.target, "host");
    assert_eq!(shown.status_text, "等待首次连通心跳服务");
    assert_eq!((shown.status_tone, shown.status_icon), (Tone::Warning, StatusIcon::BatteryCharging));
    assert_eq!(shown.scan_label, "扫描局域网");
    assert_eq!(shown.test.unwrap().kind, BannerKind::Error);
    model.handle_event(AppEvent::HeartbeatOk, 0);
    model.handle_event(AppEvent::TestFinished(Ok("ok".to_string())), 0);
    let shown = model.render();
    assert_eq!(shown.status_text, "服务在线，心跳正常");
    assert_eq!((shown.status_tone, shown.status_icon), (Tone::Success, StatusIcon::CircleCheck));
    assert!(shown.hint.is_none());
    let banner = shown.test.unwrap();
    assert_eq!((banner.kind, banner.text.as_str()), (BannerKind::Success, "ok"));
    model.handle_event(lost("why"), 0);
    let shown = model.render();
    assert_eq!(shown.status_text, "心跳丢失！服务可能已离线");
    assert_eq!((shown.status_tone, shown.status_icon), (Tone::Danger, StatusIcon::TriangleAlert));
    assert_eq!(shown.lost.unwrap().text, "丢失原因: why");
    assert_eq!(shown.hint.unwrap().kind, BannerKind::Error);
    assert_eq!(input_placeholder(), "例如: 192.168.1.100（默认端口 8123）");
}

/// The monitor and the window together: nothing before the first success, a countdown for a loss,
/// and none once the service answers again.
#[test]
fn monitor_and_window_work_together() {
    let (mut model, _) = AppModel::new(false);
    let mut monitor = Monitor::new();
    let mut now = 0;
    for effect in model.save_and_start("host") {
        if let Effect::Send(command) = effect {
            monitor.command(Some(command));
        }
    }
    let mut fail = |monitor: &mut Monitor, model: &mut AppModel, seconds: u64| {
        for _ in 0..seconds / 3 {
            now += 3 * SECOND;
            let events = match monitor.heartbeat_failed("host", "down", now) {
                AfterFailure::Probe(beat) => monitor.probe_finished(&beat, &Ok(vec![]), now),
                AfterFailure::Report(events) => events,
            };
            for event in events {
                model.handle_event(event, now);
            }
        }
        now
    };
    fail(&mut monitor, &mut model, 300);
    assert!(!model.countdown);
    let at = fail(&mut monitor, &mut model, 3);
    for event in monitor.heartbeat_ok(None, at) {
        model.handle_event(event, at);
    }
    assert_eq!(model.status, HeartStatus::Connected);
    fail(&mut monitor, &mut model, 57);
    assert!(!model.countdown);
    let at = fail(&mut monitor, &mut model, 6);
    assert!(model.countdown);
    assert_eq!(model.status, HeartStatus::Lost);
    for event in monitor.heartbeat_ok(None, at) {
        model.handle_event(event, at);
    }
    assert!(!model.countdown);
    assert_eq!(model.status, HeartStatus::Connected);
}

#[test]
fn countdown_runs_for_a_minute() {
    let mut countdown = CountdownView::new();
    assert_eq!(countdown.render(), "60 秒后将自动关机");
    for left in (1..60u32).rev() {
        assert!(countdown.tick().is_none());
        assert_eq!(countdown.remaining, left);
    }
    assert_eq!(countdown.render(), "1 秒后将自动关机");
    assert!(matches!(countdown.tick(), Some(AppEvent::ShutdownNow)));
    assert_eq!(countdown.remaining, 0);
    assert!(matches!(countdown.tick(), Some(AppEvent::ShutdownNow)));
}

#[test]
fn countdown_has_three_buttons() {
    assert_eq!(CountdownButton::ShutdownNow.label(), "立即关机");
    assert_eq!(CountdownButton::Cancel.label(), "取消关机");
    assert_eq!(CountdownButton::Later.label(), "稍后关机 (30s)");
    assert!(matches!(CountdownButton::ShutdownNow.pressed(), AppEvent::ShutdownNow));
    assert!(matches!(
        CountdownButton::Cancel.pressed(),
        AppEvent::CountdownAction(CountdownChoice::Cancel)
    ));
    assert!(matches!(
        CountdownButton::Later.pressed(),
        AppEvent::CountdownAction(CountdownChoice::Later)
    ));
}

#[test]
fn old_configuration_is_found_below_the_application_data() {
    assert!(legacy_config_path(None).is_none());
    assert_eq!(
        legacy_config_path(Some("C:\\Data".to_string())).unwrap(),
        vec!["C:\\Data", "auto-shutdown", "config.json"]
    );
}
