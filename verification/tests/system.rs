use auto_shutdown::app::{shutdown_args, SHUTDOWN_PROGRAM};
use auto_shutdown::autostart::{
    current_user, is_enabled, opening_steps, set_enabled, TaskFailure, TaskProgress, TaskStep,
    NOT_FOUND,
};
use auto_shutdown::events::AppEvent;
use auto_shutdown::icon::{
    build_icon, icon_pixel, inside_bolt, inside_rounded_square, Point, ICON_SIZE,
};
use auto_shutdown::logger::{
    self, cleanup, expired, logs_dir, write_esp, AfterOpen, LogEntry, Logs, Stamp,
    RETENTION,
};
use auto_shutdown::text::{decimal, hex, padded, trim};
use auto_shutdown::tray::{
    autostart_switched, icon_event, menu, menu_event, sync_autostart_checked, IconEvent, MenuAction,
    MenuEntry, Tray,
};
use auto_shutdown::win32::{
    activate_existing_window, ensure_single_instance, hide_window, hides_in_tray,
    hook_minimize_to_tray, notify_hidden, set_event_tx, show_window, wide, Activation,
    Registration, WindowCall, WindowState, WM_SYSCOMMAND,
};

/// A task scheduler with one place for a task.
struct Scheduler {
    exists: bool,
    calls: usize,
}

impl Scheduler {
    fn call(&mut self, step: TaskStep) -> Result<(), TaskFailure> {
        self.calls += 1;
        match step {
            TaskStep::Register => self.exists = true,
            TaskStep::DeleteTask => {
                if !self.exists {
                    return Err(TaskFailure { code: NOT_FOUND, message: "not found".to_string() });
                }
                self.exists = false;
            }
            _ => {}
        }
        Ok(())
    }

    fn set_enabled(&mut self, enabled: bool) -> Result<(), String> {
        let (mut job, mut step) = set_enabled(enabled);
        loop {
            let outcome = self.call(step);
            match job.advance(outcome) {
                TaskProgress::Next(next) => step = next,
                TaskProgress::Done(result) => return result,
            }
        }
    }

    fn is_enabled(&self) -> bool {
        is_enabled(Ok(self.exists))
    }
}

/// The switch can be used again and again, and reads back as it was set.
#[test]
fn toggle_roundtrip() {
    for initial in [false, true] {
        let mut scheduler = Scheduler { exists: initial, calls: 0 };
        let initial = scheduler.is_enabled();

        scheduler.set_enabled(true).expect("注册计划任务失败");
        assert!(scheduler.is_enabled(), "注册后应读到已开启");

        scheduler.set_enabled(false).expect("删除计划任务失败");
        assert!(!scheduler.is_enabled(), "删除后应读到已关闭");
        scheduler.set_enabled(false).expect("重复删除应幂等");

        scheduler.set_enabled(initial).expect("恢复初始状态失败");
        assert_eq!(scheduler.is_enabled(), initial);
    }
}

#[test]
fn job_stops_at_the_first_failure() {
    let (mut job, step) = set_enabled(true);
    assert_eq!(step, TaskStep::CreateService);
    assert!(matches!(job.advance(Ok(())), TaskProgress::Next(TaskStep::Connect)));
    let failure = TaskFailure { code: NOT_FOUND, message: "x".to_string() };
    match job.advance(Err(failure)) {
        TaskProgress::Done(Err(words)) => assert_eq!(words, "连接任务计划服务失败: x"),
        other => panic!("{:?}", other),
    }
}

#[test]
fn deleting_may_really_fail() {
    let (mut job, _) = set_enabled(false);
    job.advance(Ok(()));
    job.advance(Ok(()));
    assert!(matches!(job.advance(Ok(())), TaskProgress::Next(TaskStep::DeleteTask)));
    let denied = TaskFailure { code: 0x8007_0005, message: "denied".to_string() };
    match job.advance(Err(denied)) {
        TaskProgress::Done(Err(words)) => assert_eq!(words, "删除计划任务失败: denied"),
        other => panic!("{:?}", other),
    }
}

#[test]
fn jobs_have_their_number_of_calls() {
    let mut scheduler = Scheduler { exists: false, calls: 0 };
    scheduler.set_enabled(true).unwrap();
    assert_eq!(scheduler.calls, 25);
    scheduler.set_enabled(false).unwrap();
    assert_eq!(scheduler.calls, 29);
    assert!(!is_enabled(Err("no service".to_string())));
}

#[test]
fn user_may_have_a_domain() {
    let text = |s: &str| Some(s.to_string());
    assert_eq!(current_user(text("HOME"), text("me")), "HOME\\me");
    assert_eq!(current_user(text(""), text("me")), "me");
    assert_eq!(current_user(None, text("me")), "me");
    assert_eq!(current_user(text("HOME"), None), "HOME\\");
    assert_eq!(current_user(None, None), "");
}

fn stamp(date: &str) -> Stamp {
    Stamp { date: date.to_string(), time: format!("{} 12:00:00.123", date) }
}

#[test]
fn stamps_are_padded() {
    let early = Stamp::at(2026, 1, 2, 3, 4, 5, 6);
    assert_eq!(early.date, "2026-01-02");
    assert_eq!(early.time, "2026-01-02 03:04:05.006");
    let late = Stamp::at(2026, 12, 31, 23, 59, 59, 999);
    assert_eq!(late.time, "2026-12-31 23:59:59.999");
    assert_eq!(Stamp::at(7, 1, 1, 0, 0, 0, 50).time, "0007-01-01 00:00:00.050");
    assert_eq!(padded(12345, 4), "12345");
    assert_eq!(padded(0, 0), "0");
}

#[test]
fn first_line_of_a_day_opens_its_file() {
    let mut logs = Logs::new();
    let plan = logger::write(&logs, "INFO", "程序启动", &stamp("2026-01-02"));
    assert_eq!(plan.open.as_deref(), Some("app-2026-01-02.log"));
    assert_eq!(plan.line, "2026-01-02 12:00:00.123 [INFO] 程序启动\n");
    assert_eq!(logs.app.open_finished("2026-01-02", true), AfterOpen::CleanUpAndWrite);
    assert!(logger::write(&logs, "WARN", "x", &stamp("2026-01-02")).open.is_none());
    let esp = write_esp(&logs, "uptime=1s [info] boot", &stamp("2026-01-02"));
    assert_eq!(esp.open.as_deref(), Some("esp-2026-01-02.log"));
    assert_eq!(esp.line, "2026-01-02 12:00:00.123 [ESP] uptime=1s [info] boot\n");
    let next = logger::write(&logs, "INFO", "x", &stamp("2026-01-03"));
    assert_eq!(next.open.as_deref(), Some("app-2026-01-03.log"));
}

#[test]
fn logs_are_kept_for_thirty_days() {
    let day: i128 = 24 * 3600 * 1_000_000_000;
    assert_eq!(RETENTION as i128, 30 * day);
    let now: i128 = 100 * day;
    let entry = |extension: Option<&str>, modified: Option<i128>| LogEntry {
        extension: extension.map(str::to_string),
        modified,
    };
    assert!(expired(&entry(Some("log"), Some(70 * day - 1)), now));
    assert!(!expired(&entry(Some("log"), Some(70 * day)), now));
    assert!(!expired(&entry(Some("txt"), Some(0)), now));
    assert!(!expired(&entry(None, Some(0)), now));
    assert!(!expired(&entry(Some("log"), None), now));
    let entries = vec![
        entry(Some("log"), Some(0)),
        entry(Some("log"), Some(now)),
        entry(Some("LOG"), Some(0)),
        entry(Some("log"), Some(-5)),
    ];
    assert_eq!(cleanup(&entries, now), vec![0, 3]);
    assert!(!expired(&entry(Some("log"), Some(i128::MIN)), i128::MIN));
}

#[test]
fn logs_lie_below_the_home_directory() {
    let text = |s: &str| Some(s.to_string());
    assert_eq!(logs_dir(text("C:\\me"), text("/me")), vec!["C:\\me", ".auto-shutdown", "logs"]);
    assert_eq!(logs_dir(None, text("/me")), vec!["/me", ".auto-shutdown", "logs"]);
    assert_eq!(logs_dir(None, None), vec!["", ".auto-shutdown", "logs"]);
}

#[test]
fn menu_has_three_entries() {
    assert_eq!(
        menu(true),
        vec![
            MenuEntry::Item { id: "show", label: "显示主窗口" },
            MenuEntry::Separator,
            MenuEntry::Check { id: "autostart", label: "开机启动", checked: true },
            MenuEntry::Separator,
            MenuEntry::Item { id: "quit", label: "退出程序" },
        ]
    );
    assert!(matches!(menu_event("show", false), MenuAction::Send(AppEvent::TrayShow)));
    assert!(matches!(menu_event("quit", false), MenuAction::Send(AppEvent::Quit)));
    assert!(matches!(menu_event("autostart", false), MenuAction::SwitchAutostart(true)));
    assert!(matches!(menu_event("autostart", true), MenuAction::SwitchAutostart(false)));
    assert!(matches!(menu_event("other", true), MenuAction::Ignore));
    assert!(matches!(icon_event(IconEvent::DoubleClick), Some(AppEvent::TrayShow)));
    assert!(icon_event(IconEvent::Other).is_none());
}

#[test]
fn check_mark_follows_the_switch() {
    let mut tray = Tray { autostart_item: None };
    sync_autostart_checked(&mut tray, true);
    assert_eq!(tray.autostart_item, None);
    let mut tray = Tray { autostart_item: Some(false) };
    sync_autostart_checked(&mut tray, true);
    assert_eq!(tray.autostart_item, Some(true));
    let event = autostart_switched(&mut tray, false, Ok(())).unwrap();
    assert!(matches!(event, AppEvent::AutostartChanged(false)));
    assert_eq!(tray.autostart_item, Some(false));
    let line = autostart_switched(&mut tray, true, Err("x".to_string())).unwrap_err();
    assert_eq!(line, "[tray] 切换开机启动失败: x");
    assert_eq!(tray.autostart_item, Some(false));
}

#[test]
fn minimizing_hides_in_the_tray() {
    assert_eq!(WM_SYSCOMMAND, 274);
    for low in 0..16usize {
        assert!(hides_in_tray(WM_SYSCOMMAND, 0xF020 + low));
    }
    assert!(!hides_in_tray(WM_SYSCOMMAND, 0xF030));
    assert!(!hides_in_tray(WM_SYSCOMMAND + 1, 0xF020));
    assert!(hides_in_tray(WM_SYSCOMMAND, 0x1F020));
}

#[test]
fn first_registration_is_told() {
    let mut registration: Registration<&str> = Registration { tx: None };
    assert!(notify_hidden(&registration).is_none());
    set_event_tx(&mut registration, "first");
    set_event_tx(&mut registration, "second");
    let (to, event) = notify_hidden(&registration).unwrap();
    assert_eq!(*to, "first");
    assert!(matches!(event, AppEvent::WindowHidden));
}

/// Where the file of the day does not open, the line is dropped and the next one tries again.
#[test]
fn file_that_does_not_open_is_tried_again() {
    let mut logs = Logs::new();
    logs.app.open_finished("2026-01-02", true);
    let plan = logger::write(&logs, "INFO", "x", &stamp("2026-01-03"));
    assert_eq!(plan.open.as_deref(), Some("app-2026-01-03.log"));
    assert_eq!(logs.app.open_finished("2026-01-03", false), AfterOpen::Drop);
    assert_eq!(logs.app.date, "2026-01-02");
    let again = logger::write(&logs, "INFO", "y", &stamp("2026-01-03"));
    assert_eq!(again.open.as_deref(), Some("app-2026-01-03.log"));
}

#[test]
fn shutdown_is_at_once_and_says_why() {
    assert_eq!(SHUTDOWN_PROGRAM, "shutdown");
    assert_eq!(
        shutdown_args(),
        vec!["/s", "/t", "0", "/c", "自动关机守护：心跳失联自动关机"]
    );
    assert_eq!(
        opening_steps(),
        vec![TaskStep::CreateService, TaskStep::Connect, TaskStep::OpenRoot]
    );
}

#[test]
fn windows_are_shown_and_hidden() {
    let state = |visible: bool, iconic: bool| Some(WindowState { visible, iconic });
    assert!(show_window(None).is_empty());
    assert_eq!(show_window(state(true, false)), vec![WindowCall::Raise, WindowCall::Activate]);
    assert_eq!(
        show_window(state(true, true)),
        vec![WindowCall::Restore, WindowCall::Raise, WindowCall::Activate]
    );
    assert_eq!(
        show_window(state(false, true)),
        vec![WindowCall::Show, WindowCall::Raise, WindowCall::Activate]
    );
    assert_eq!(hide_window(true), vec![WindowCall::Hide]);
    assert!(hide_window(false).is_empty());
}

#[test]
fn second_start_looks_twenty_times() {
    assert!(ensure_single_instance(false));
    assert!(!ensure_single_instance(true));
    assert_eq!(activate_existing_window(0, true), Activation::Show);
    assert_eq!(activate_existing_window(19, false), Activation::Wait(100));
    assert_eq!(activate_existing_window(20, true), Activation::GiveUp);
}

#[test]
fn hooking_can_fail() {
    assert_eq!(hook_minimize_to_tray("t", Some(5)), Ok(5));
    assert_eq!(
        hook_minimize_to_tray("t", None).unwrap_err(),
        "[win32] 未找到窗口，无法拦截最小化: t"
    );
    assert_eq!(
        hook_minimize_to_tray("t", Some(0)).unwrap_err(),
        "[win32] SetWindowLongPtrW 失败，最小化将只缩到任务栏"
    );
}

#[test]
fn wide_text_is_utf16_with_a_zero() {
    for text in ["", "abc", "自动关机守护 - 心跳失联自动关机", "a\u{1F50C}b\u{10FFFF}\u{FFFF}"] {
        let expected: Vec<u16> = text.encode_utf16().chain(std::iter::once(0)).collect();
        assert_eq!(wide(text), expected);
    }
}

#[test]
fn numbers_and_white_space() {
    assert_eq!(decimal(0), "0");
    assert_eq!(decimal(8123), "8123");
    assert_eq!(decimal(u64::MAX), "18446744073709551615");
    assert_eq!(hex(&[0x00, 0x0f, 0xa5, 0xff]), "000fa5ff");
    let spaced = "\u{9}\u{b}\u{c}\u{85}\u{a0}\u{1680}\u{2003}\u{2028}\u{202f}\u{205f}x y\u{3000}";
    assert_eq!(trim(spaced), spaced.trim());
    assert_eq!(trim("\u{200b}x"), "\u{200b}x");
    for c in 0..=0x3100u32 {
        if let Some(c) = char::from_u32(c) {
            let text = c.to_string();
            assert_eq!(trim(&text), text.trim());
        }
    }
}

fn float_inside_bolt(px: f32, py: f32, poly: &[(f32, f32)]) -> bool {
    let mut inside = false;
    let mut j = poly.len() - 1;
    for i in 0..poly.len() {
        let (xi, yi) = poly[i];
        let (xj, yj) = poly[j];
        if (yi > py) != (yj > py) && px < (xj - xi) * (py - yi) / (yj - yi) + xi {
            inside = !inside;
        }
        j = i;
    }
    inside
}

fn float_inside_square(px: f32, py: f32, size: f32, radius: f32) -> bool {
    let x = px.min(size - px);
    let y = py.min(size - py);
    if x < radius && y < radius {
        let dx = radius - x;
        let dy = radius - y;
        dx * dx + dy * dy <= radius * radius
    } else {
        true
    }
}

/// Drawing in floating point gives the same picture, byte for byte.
#[test]
fn icon_is_the_one_drawn_in_floating_point() {
    let bolt: [(f32, f32); 6] =
        [(19.0, 2.0), (8.0, 18.0), (15.0, 18.0), (12.0, 30.0), (24.0, 13.0), (16.5, 13.0)];
    let mut expected: Vec<u8> = Vec::new();
    for y in 0..32u32 {
        for x in 0..32u32 {
            let (mut r, mut g, mut b, mut hit) = (0.0f32, 0.0f32, 0.0f32, 0u32);
            for sy in 0..4u32 {
                for sx in 0..4u32 {
                    let px = x as f32 + (sx as f32 + 0.5) / 4.0;
                    let py = y as f32 + (sy as f32 + 0.5) / 4.0;
                    let color = if float_inside_bolt(px, py, &bolt) {
                        (255.0, 255.0, 255.0)
                    } else if float_inside_square(px, py, 32.0, 7.0) {
                        (245.0, 158.0, 11.0)
                    } else {
                        continue;
                    };
                    r += color.0;
                    g += color.1;
                    b += color.2;
                    hit += 1;
                }
            }
            let a = if hit == 0 { 0 } else { 255 };
            expected.extend_from_slice(&[(r / 16.0) as u8, (g / 16.0) as u8, (b / 16.0) as u8, a]);
        }
    }
    assert_eq!(build_icon(), expected);
}

#[test]
fn icon_has_clear_corners_and_a_white_bolt() {
    assert_eq!(ICON_SIZE, 32);
    assert_eq!(icon_pixel(0, 0), [0, 0, 0, 0]);
    assert_eq!(icon_pixel(31, 31), [0, 0, 0, 0]);
    assert_eq!(icon_pixel(16, 0), [245, 158, 11, 255]);
    assert_eq!(icon_pixel(15, 15), [255, 255, 255, 255]);
    assert_eq!(build_icon().len(), 4096);
}

#[test]
fn points_lie_inside_or_outside() {
    let square = [
        Point { x: 0, y: 0 },
        Point { x: 80, y: 0 },
        Point { x: 80, y: 80 },
        Point { x: 0, y: 80 },
    ];
    assert!(inside_bolt(Point { x: 40, y: 40 }, &square));
    assert!(!inside_bolt(Point { x: 81, y: 40 }, &square));
    assert!(!inside_bolt(Point { x: -1, y: 40 }, &square));
    assert!(inside_rounded_square(Point { x: 128, y: 0 }, 256, 56));
    assert!(!inside_rounded_square(Point { x: 0, y: 0 }, 256, 56));
    assert!(!inside_rounded_square(Point { x: 257, y: 128 }, 256, 56));
}
