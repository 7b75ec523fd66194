//! The main window and the master of events.
//!
//! [`AppModel`] holds what the main window shows, and turns every event into what is to be done:
//! open or close the countdown, shut down, send a command to the monitor. It does none of that
//! itself: each method returns its [`Effect`]s, in the order in which they are to happen.
use vstd::prelude::*;

use crate::events::{
    devices_view, opt_text, outcome_text, scan_view, AppEvent, AppEventView, CountdownChoice, Device,
    DeviceView, HeartStatus, MonitorCommand, MonitorCommandView,
};
use crate::protocol::{SECOND, SNOOZE_LATER_SECONDS};
use crate::text;

verus! {

/// Title of the main window. The window is found by it, so no other window may have it.
pub const MAIN_WINDOW_TITLE: &'static str = "自动关机守护 - 心跳失联自动关机";

/// The words that go with a shutdown.
pub const SHUTDOWN_COMMENT: &'static str = "自动关机守护：心跳失联自动关机";

/// The program that shuts the machine down.
pub const SHUTDOWN_PROGRAM: &'static str = "shutdown";

/// What the program that shuts the machine down is told: at once, and why.
pub fn shutdown_args() -> (r: Vec<&'static str>)
    ensures
        r@.map_values(|a: &'static str| a@) == seq!["/s"@, "/t"@, "0"@, "/c"@, SHUTDOWN_COMMENT@],
{
    let args: Vec<&'static str> = vec!["/s", "/t", "0", "/c", SHUTDOWN_COMMENT];
    assert(args@.map_values(|a: &'static str| a@) =~= seq![
        "/s"@,
        "/t"@,
        "0"@,
        "/c"@,
        SHUTDOWN_COMMENT@,
    ]);
    args
}

/// The configuration file that earlier releases left behind, as parts of a path; none without the
/// directory for application data.
pub fn legacy_config_path(appdata: Option<String>) -> (r: Option<Vec<String>>)
    ensures
        match appdata {
            Some(base) => r matches Some(parts) && parts@.len() == 3 && parts@[0]@ == base@
                && parts@[1]@ == "auto-shutdown"@ && parts@[2]@ == "config.json"@,
            None => r is None,
        },
{
    match appdata {
        Some(base) => Some(vec![base, "auto-shutdown".to_owned(), "config.json".to_owned()]),
        None => None,
    }
}

/// A line for the user, and whether it is an error.
#[derive(Debug)]
pub struct Hint {
    pub text: String,
    pub is_error: bool,
}

/// A line for the user in terms of plain values.
pub struct HintView {
    pub text: Seq<char>,
    pub is_error: bool,
}

impl View for Hint {
    type V = HintView;

    open spec fn view(&self) -> HintView {
        HintView { text: self.text@, is_error: self.is_error }
    }
}

/// An optional line in terms of plain values.
pub open spec fn opt_hint(hint: Option<Hint>) -> Option<HintView> {
    match hint {
        Some(h) => Some(h@),
        None => None,
    }
}

/// An optional test result in terms of plain values.
pub open spec fn opt_outcome(outcome: Option<Result<String, String>>) -> Option<
    Result<Seq<char>, Seq<char>>,
> {
    match outcome {
        Some(o) => Some(outcome_text(o)),
        None => None,
    }
}

/// The result of a switch in terms of plain values.
pub open spec fn switch_result(result: Result<(), String>) -> Result<(), Seq<char>> {
    match result {
        Ok(_) => Ok(()),
        Err(e) => Err(e@),
    }
}

/// Something to do outside the model.
#[derive(Debug)]
pub enum Effect {
    /// Draw the main window anew.
    Repaint,
    /// Bring the main window to the front.
    ShowWindow,
    /// End the program.
    Quit,
    /// Put this text into the address field.
    SetInput(String),
    /// Send this command to the monitor thread.
    Send(MonitorCommand),
    /// Open the countdown window.
    OpenCountdown,
    /// Close the countdown window.
    CloseCountdown,
    /// Call [`AppModel::snooze_elapsed`] with this generation after so many seconds.
    StartSnooze { seconds: u64, generation: u64 },
    /// Shut the machine down; call [`AppModel::shutdown_failed`] where that fails.
    Shutdown,
    /// Switch start at logon, then call [`AppModel::autostart_finished`].
    SetAutostart(bool),
    /// Bring the check mark in the tray menu in line.
    SyncTray(bool),
}

/// An effect in terms of plain values.
pub enum EffectView {
    Repaint,
    ShowWindow,
    Quit,
    SetInput(Seq<char>),
    Send(MonitorCommandView),
    OpenCountdown,
    CloseCountdown,
    StartSnooze { seconds: u64, generation: u64 },
    Shutdown,
    SetAutostart(bool),
    SyncTray(bool),
}

impl View for Effect {
    type V = EffectView;

    open spec fn view(&self) -> EffectView {
        match self {
            Effect::Repaint => EffectView::Repaint,
            Effect::ShowWindow => EffectView::ShowWindow,
            Effect::Quit => EffectView::Quit,
            Effect::SetInput(text) => EffectView::SetInput(text@),
            Effect::Send(command) => EffectView::Send(command@),
            Effect::OpenCountdown => EffectView::OpenCountdown,
            Effect::CloseCountdown => EffectView::CloseCountdown,
            Effect::StartSnooze { seconds, generation } => EffectView::StartSnooze {
                seconds: *seconds,
                generation: *generation,
            },
            Effect::Shutdown => EffectView::Shutdown,
            Effect::SetAutostart(on) => EffectView::SetAutostart(*on),
            Effect::SyncTray(on) => EffectView::SyncTray(*on),
        }
    }
}

/// A list of effects in terms of plain values.
pub open spec fn effects_view(effects: Seq<Effect>) -> Seq<EffectView> {
    effects.map_values(|e: Effect| e@)
}

/// State of the main window, in terms of plain values.
pub struct ModelView {
    pub status: HeartStatus,
    pub lost_detail: Option<Seq<char>>,
    pub saved_server: Option<Seq<char>>,
    pub scanning: bool,
    pub config_open: bool,
    pub test_result: Option<Result<Seq<char>, Seq<char>>>,
    pub hint: Option<HintView>,
    pub countdown: bool,
    pub snooze_until: Option<u64>,
    pub snooze_gen: u64,
    pub autostart: bool,
}

/// State of the main window.
#[derive(Debug)]
pub struct AppModel {
    /// State of the heartbeat.
    pub status: HeartStatus,
    /// Why the heartbeat is lost.
    pub lost_detail: Option<String>,
    /// Address that is monitored.
    pub saved_server: Option<String>,
    /// Whether a scan is going on.
    pub scanning: bool,
    /// Whether the configuration panel is unfolded.
    pub config_open: bool,
    /// Result of the last connection test.
    pub test_result: Option<Result<String, String>>,
    /// Line for the user.
    pub hint: Option<Hint>,
    /// Whether the countdown window is open.
    pub countdown: bool,
    /// Until when the countdown must not come back.
    pub snooze_until: Option<u64>,
    /// Generation of the snooze timer; timers of earlier generations do nothing.
    pub snooze_gen: u64,
    /// Whether the program starts at logon.
    pub autostart: bool,
}

impl View for AppModel {
    type V = ModelView;

    open spec fn view(&self) -> ModelView {
        ModelView {
            status: self.status,
            lost_detail: opt_text(self.lost_detail),
            saved_server: opt_text(self.saved_server),
            scanning: self.scanning,
            config_open: self.config_open,
            test_result: opt_outcome(self.test_result),
            hint: opt_hint(self.hint),
            countdown: self.countdown,
            snooze_until: self.snooze_until,
            snooze_gen: self.snooze_gen,
            autostart: self.autostart,
        }
    }
}

/// A line that is no error.
pub open spec fn info(text: Seq<char>) -> Option<HintView> {
    Some(HintView { text, is_error: false })
}

/// A line that is an error.
pub open spec fn error(text: Seq<char>) -> Option<HintView> {
    Some(HintView { text, is_error: true })
}

/// The line after a scan found devices.
pub open spec fn found_text(devices: Seq<DeviceView>) -> Seq<char> {
    "发现 "@ + text::decimal_digits(devices.len()) + " 台设备："@ + devices[0].name + "（"@
        + devices[0].addr + "），已自动连接并开始监控。"@
}

impl ModelView {
    /// The window at start: a scan is going on.
    pub open spec fn initial(autostart: bool) -> Self {
        ModelView {
            status: HeartStatus::NotConfigured,
            lost_detail: None,
            saved_server: None,
            scanning: true,
            config_open: false,
            test_result: None,
            hint: info("正在扫描局域网（UDP 广播，发现端口 8124），请稍候…"@),
            countdown: false,
            snooze_until: None,
            snooze_gen: 0,
            autostart,
        }
    }

    /// The countdown may open now: the heartbeat is lost, the countdown is not open yet, and it is
    /// not put off.
    pub open spec fn may_open(self, now: u64) -> bool {
        &&& self.status == HeartStatus::Lost
        &&& !self.countdown
        &&& self.snooze_until matches Some(until) ==> now >= until
    }

    /// The window after an attempt to open the countdown.
    pub open spec fn opened(self, now: u64) -> Self {
        if self.may_open(now) {
            ModelView {
                countdown: true,
                snooze_until: None,
                hint: error("检测到心跳服务失联，已弹出关机倒计时！"@),
                ..self
            }
        } else {
            self
        }
    }

    /// The effects of an attempt to open the countdown.
    pub open spec fn open_effects(self, now: u64) -> Seq<EffectView> {
        if self.may_open(now) {
            seq![EffectView::OpenCountdown]
        } else {
            Seq::empty()
        }
    }

    /// The window with the countdown closed.
    pub open spec fn closed(self) -> Self {
        ModelView { countdown: false, ..self }
    }

    /// The effects of closing the countdown.
    pub open spec fn close_effects(self) -> Seq<EffectView> {
        if self.countdown {
            seq![EffectView::CloseCountdown]
        } else {
            Seq::empty()
        }
    }

    /// The window after the heartbeat has recovered.
    pub open spec fn recovered(self) -> Self {
        ModelView {
            status: HeartStatus::Connected,
            lost_detail: if self.status == HeartStatus::Connected {
                self.lost_detail
            } else {
                None
            },
            hint: if self.status == HeartStatus::Connected {
                self.hint
            } else {
                None
            },
            countdown: false,
            snooze_until: None,
            snooze_gen: (self.snooze_gen + 1) as u64,
            ..self
        }
    }

    /// The window after the heartbeat was reported lost, before the countdown opens.
    pub open spec fn lost(self, detail: Seq<char>) -> Self {
        ModelView { status: HeartStatus::Lost, lost_detail: Some(detail), ..self }
    }

    /// The window with another address monitored.
    pub open spec fn with_server(self, addr: Seq<char>) -> Self {
        ModelView {
            saved_server: Some(addr),
            status: HeartStatus::Waiting,
            lost_detail: None,
            ..self
        }
    }

    /// The window after a scan. The first device found is monitored at once.
    pub open spec fn scanned(self, scan: Result<Seq<DeviceView>, Seq<char>>) -> Self {
        let done = ModelView { scanning: false, ..self };
        match scan {
            Ok(devices) => if devices.len() == 0 {
                ModelView {
                    hint: info(
                        "未在局域网内发现心跳服务。请确认服务端已开机，或手动输入服务地址。"@,
                    ),
                    ..done
                }
            } else {
                ModelView {
                    hint: info(found_text(devices)),
                    ..done.with_server(devices[0].addr)
                }
            },
            Err(e) => ModelView { hint: error("扫描失败: "@ + e), ..done },
        }
    }

    /// The effects after a scan.
    pub open spec fn scanned_effects(scan: Result<Seq<DeviceView>, Seq<char>>) -> Seq<EffectView> {
        match scan {
            Ok(devices) => if devices.len() == 0 {
                seq![EffectView::Repaint]
            } else {
                let addr = devices[0].addr;
                seq![
                    EffectView::SetInput(addr),
                    EffectView::Send(MonitorCommandView::SetTarget(Some(addr))),
                    EffectView::Repaint,
                ]
            },
            Err(_) => seq![EffectView::Repaint],
        }
    }

    /// The window after a choice in the countdown window.
    pub open spec fn chosen(self, choice: CountdownChoice, now: u64) -> Self {
        match choice {
            CountdownChoice::Cancel => ModelView {
                hint: info(
                    "已取消本次关机。心跳恢复后会重新开始监测，若再次失联超过 60 秒将再次提醒。"@,
                ),
                ..self.closed()
            },
            CountdownChoice::Later => ModelView {
                hint: info(
                    "将在 "@ + text::decimal_digits(SNOOZE_LATER_SECONDS as nat)
                        + " 秒后再次弹出关机倒计时。"@,
                ),
                snooze_until: Some((now + SNOOZE_LATER_SECONDS * SECOND) as u64),
                snooze_gen: (self.snooze_gen + 1) as u64,
                ..self.closed()
            },
        }
    }

    /// The effects of a choice in the countdown window.
    pub open spec fn chosen_effects(self, choice: CountdownChoice) -> Seq<EffectView> {
        let close = self.close_effects();
        match choice {
            CountdownChoice::Cancel => close + seq![EffectView::Repaint],
            CountdownChoice::Later => close + seq![
                EffectView::StartSnooze {
                    seconds: SNOOZE_LATER_SECONDS,
                    generation: (self.snooze_gen + 1) as u64,
                },
                EffectView::Repaint,
            ],
        }
    }

    /// The window after an event.
    pub open spec fn after_event(self, event: AppEventView, now: u64) -> Self {
        match event {
            AppEventView::HeartbeatOk => self.recovered(),
            AppEventView::HeartbeatLost { detail } => self.lost(detail).opened(now),
            AppEventView::TargetAutoChanged { old_addr, new_addr } => ModelView {
                saved_server: Some(new_addr),
                ..self
            },
            AppEventView::ScanFinished(scan) => self.scanned(scan),
            AppEventView::TestFinished(result) => ModelView { test_result: Some(result), ..self },
            AppEventView::TrayShow => self,
            AppEventView::Quit => self,
            AppEventView::AutostartChanged(on) => ModelView { autostart: on, ..self },
            AppEventView::WindowHidden => ModelView { test_result: None, ..self },
            AppEventView::ShutdownNow => ModelView {
                hint: info("正在执行关机…"@),
                ..self.closed()
            },
            AppEventView::CountdownAction(choice) => self.chosen(choice, now),
        }
    }

    /// The effects of an event.
    pub open spec fn event_effects(self, event: AppEventView, now: u64) -> Seq<EffectView> {
        match event {
            AppEventView::HeartbeatOk => self.close_effects() + seq![EffectView::Repaint],
            AppEventView::HeartbeatLost { detail } => self.lost(detail).open_effects(now) + seq![
                EffectView::Repaint,
            ],
            AppEventView::TargetAutoChanged { .. } => seq![EffectView::Repaint],
            AppEventView::ScanFinished(scan) => Self::scanned_effects(scan),
            AppEventView::TestFinished(_) => seq![EffectView::Repaint],
            AppEventView::TrayShow => seq![EffectView::ShowWindow],
            AppEventView::Quit => seq![EffectView::Quit],
            AppEventView::AutostartChanged(_) => seq![EffectView::Repaint],
            AppEventView::WindowHidden => if self.test_result is Some {
                seq![EffectView::Repaint]
            } else {
                Seq::empty()
            },
            AppEventView::ShutdownNow => self.close_effects() + seq![
                EffectView::Repaint,
                EffectView::Shutdown,
            ],
            AppEventView::CountdownAction(choice) => self.chosen_effects(choice),
        }
    }

    /// There is room for what an event counts: a further generation of timers, and the end of the
    /// time for which the countdown is put off.
    pub open spec fn has_room(self, event: AppEventView, now: u64) -> bool {
        match event {
            AppEventView::HeartbeatOk => self.snooze_gen < u64::MAX,
            AppEventView::CountdownAction(CountdownChoice::Later) => {
                &&& self.snooze_gen < u64::MAX
                &&& now + SNOOZE_LATER_SECONDS * SECOND <= u64::MAX
            },
            _ => true,
        }
    }

    /// The window after the snooze timer of a generation has run out.
    pub open spec fn after_snooze(self, generation: u64, now: u64) -> Self {
        if generation == self.snooze_gen {
            self.opened(now)
        } else {
            self
        }
    }

    /// The effects when the snooze timer of a generation has run out.
    pub open spec fn snooze_effects(self, generation: u64, now: u64) -> Seq<EffectView> {
        if generation == self.snooze_gen {
            self.open_effects(now)
        } else {
            Seq::empty()
        }
    }

    /// The window after the shutdown could not be started.
    pub open spec fn shutdown_refused(self, message: Seq<char>) -> Self {
        ModelView { hint: error("关机命令执行失败: "@ + message), ..self }
    }

    /// The window after the scan button was pressed.
    pub open spec fn scan_started(self) -> Self {
        ModelView { scanning: true, hint: info("正在扫描局域网，请稍候…"@), ..self }
    }

    /// The effects of the scan button.
    pub open spec fn scan_effects() -> Seq<EffectView> {
        seq![EffectView::Send(MonitorCommandView::Scan), EffectView::Repaint]
    }

    /// The window after the head of the configuration panel was clicked.
    pub open spec fn config_toggled(self) -> Self {
        ModelView { config_open: !self.config_open, ..self }
    }

    /// The window after start at logon was switched to `target`, or could not be.
    pub open spec fn autostart_set(self, target: bool, result: Result<(), Seq<char>>) -> Self {
        match result {
            Ok(_) => ModelView { autostart: target, ..self },
            Err(e) => ModelView { hint: error(e), ..self },
        }
    }

    /// The effects after start at logon was switched to `target`, or could not be.
    pub open spec fn autostart_effects(target: bool, result: Result<(), Seq<char>>) -> Seq<
        EffectView,
    > {
        match result {
            Ok(_) => seq![EffectView::SyncTray(target), EffectView::Repaint],
            Err(_) => seq![EffectView::Repaint],
        }
    }

    /// The window after the test button was pressed with this text in the address field.
    pub open spec fn testing(self, input: Seq<char>) -> Self {
        ModelView {
            test_result: Some(
                if text::trimmed(input).len() == 0 {
                    Err("请先输入服务地址"@)
                } else {
                    Err("测试中…"@)
                },
            ),
            ..self
        }
    }

    /// The effects of the test button.
    pub open spec fn testing_effects(input: Seq<char>) -> Seq<EffectView> {
        let addr = text::trimmed(input);
        if addr.len() == 0 {
            seq![EffectView::Repaint]
        } else {
            seq![EffectView::Send(MonitorCommandView::Test(addr)), EffectView::Repaint]
        }
    }

    /// The window after the save button was pressed with this text in the address field.
    pub open spec fn saved(self, input: Seq<char>) -> Self {
        let addr = text::trimmed(input);
        if addr.len() == 0 {
            ModelView { hint: error("请先输入服务地址"@), ..self }
        } else {
            ModelView {
                test_result: None,
                hint: info(
                    "已开始监控（地址仅本次运行生效，重启后重新扫描或输入）。首次连通前不会触发关机（防误报）。"@,
                ),
                ..self.with_server(addr)
            }
        }
    }

    /// The effects of the save button.
    pub open spec fn saved_effects(input: Seq<char>) -> Seq<EffectView> {
        let addr = text::trimmed(input);
        if addr.len() == 0 {
            seq![EffectView::Repaint]
        } else {
            seq![
                EffectView::Send(MonitorCommandView::SetTarget(Some(addr))),
                EffectView::Repaint,
            ]
        }
    }
}

/// A line that is no error.
fn info_hint(text: String) -> (r: Option<Hint>)
    ensures
        opt_hint(r) == info(text@),
{
    Some(Hint { text, is_error: false })
}

/// A line that is an error.
fn error_hint(text: String) -> (r: Option<Hint>)
    ensures
        opt_hint(r) == error(text@),
{
    Some(Hint { text, is_error: true })
}

/// Adds an effect.
fn push_effect(effects: &mut Vec<Effect>, effect: Effect)
    ensures
        effects_view(final(effects)@) == effects_view(old(effects)@).push(effect@),
{
    let ghost before = effects_view(effects@);
    effects.push(effect);
    assert(effects_view(effects@) =~= before.push(effect@));
}

impl AppModel {
    /// The window at start, and what to do first: each start scans the network anew.
    pub fn new(autostart: bool) -> (r: (Self, Vec<Effect>))
        ensures
            r.0@ == ModelView::initial(autostart),
            effects_view(r.1@) == seq![EffectView::Send(MonitorCommandView::Scan)],
    {
        let model = AppModel {
            status: HeartStatus::NotConfigured,
            lost_detail: None,
            saved_server: None,
            scanning: true,
            config_open: false,
            test_result: None,
            hint: info_hint("正在扫描局域网（UDP 广播，发现端口 8124），请稍候…".to_owned()),
            countdown: false,
            snooze_until: None,
            snooze_gen: 0,
            autostart,
        };
        let effects: Vec<Effect> = vec![Effect::Send(MonitorCommand::Scan)];
        assert(effects_view(effects@) =~= seq![EffectView::Send(MonitorCommandView::Scan)]);
        (model, effects)
    }

    /// Handles an event that came at `now`. Returns what to do.
    pub fn handle_event(&mut self, event: AppEvent, now: u64) -> (r: Vec<Effect>)
        requires
            old(self)@.has_room(event@, now),
        ensures
            final(self)@ == old(self)@.after_event(event@, now),
            effects_view(r@) == old(self)@.event_effects(event@, now),
    {
        let mut effects: Vec<Effect> = Vec::new();
        assert(effects_view(effects@) =~= Seq::empty());
        match event {
            AppEvent::HeartbeatOk => self.on_heartbeat_ok(&mut effects),
            AppEvent::HeartbeatLost { detail } => self.on_heartbeat_lost(detail, now, &mut effects),
            AppEvent::TargetAutoChanged { old: _, new: to } => {
                self.saved_server = Some(to);
                push_effect(&mut effects, Effect::Repaint);
            },
            AppEvent::ScanFinished(result) => self.on_scan_finished(result, &mut effects),
            AppEvent::TestFinished(result) => {
                self.test_result = Some(result);
                push_effect(&mut effects, Effect::Repaint);
            },
            AppEvent::TrayShow => push_effect(&mut effects, Effect::ShowWindow),
            AppEvent::Quit => push_effect(&mut effects, Effect::Quit),
            AppEvent::AutostartChanged(on) => {
                self.autostart = on;
                push_effect(&mut effects, Effect::Repaint);
            },
            AppEvent::WindowHidden => {
                if self.test_result.is_some() {
                    self.test_result = None;
                    push_effect(&mut effects, Effect::Repaint);
                }
            },
            AppEvent::ShutdownNow => self.shutdown(&mut effects),
            AppEvent::CountdownAction(choice) => self.on_countdown_choice(
                choice,
                now,
                &mut effects,
            ),
        }
        assert(effects_view(effects@) =~= old(self)@.event_effects(event@, now));
        effects
    }

    /// The heartbeat has recovered: whatever went on about the loss is over.
    pub fn on_heartbeat_ok(&mut self, effects: &mut Vec<Effect>)
        requires
            old(self)@.snooze_gen < u64::MAX,
        ensures
            final(self)@ == old(self)@.recovered(),
            effects_view(final(effects)@) == effects_view(old(effects)@)
                + old(self)@.close_effects() + seq![EffectView::Repaint],
    {
        if self.status != HeartStatus::Connected {
            self.status = HeartStatus::Connected;
            self.lost_detail = None;
            self.hint = None;
        }
        self.close_countdown(effects);
        self.snooze_until = None;
        self.snooze_gen = self.snooze_gen + 1;
        push_effect(effects, Effect::Repaint);
        assert(effects_view(effects@) =~= effects_view(old(effects)@) + old(self)@.close_effects()
            + seq![EffectView::Repaint]);
    }

    /// The heartbeat is lost: the countdown opens, unless it is put off.
    fn on_heartbeat_lost(&mut self, detail: String, now: u64, effects: &mut Vec<Effect>)
        ensures
            final(self)@ == old(self)@.lost(detail@).opened(now),
            effects_view(final(effects)@) == effects_view(old(effects)@) + old(self)@.lost(
                detail@,
            ).open_effects(now) + seq![EffectView::Repaint],
    {
        self.status = HeartStatus::Lost;
        self.lost_detail = Some(detail);
        self.try_open_countdown(now, effects);
        push_effect(effects, Effect::Repaint);
        assert(effects_view(effects@) =~= effects_view(old(effects)@) + old(self)@.lost(
            detail@,
        ).open_effects(now) + seq![EffectView::Repaint]);
    }

    /// A scan is done: the first device found is monitored at once.
    fn on_scan_finished(
        &mut self,
        result: Result<Vec<Device>, String>,
        effects: &mut Vec<Effect>,
    )
        ensures
            final(self)@ == old(self)@.scanned(scan_view(result)),
            effects_view(final(effects)@) == effects_view(old(effects)@)
                + ModelView::scanned_effects(scan_view(result)),
    {
        self.scanning = false;
        match &result {
            Ok(devices) => {
                if devices.len() == 0 {
                    self.hint = info_hint(
                        "未在局域网内发现心跳服务。请确认服务端已开机，或手动输入服务地址。".to_owned(),
                    );
                } else {
                    let first = &devices[0];
                    assert(devices_view(devices@)[0] == first@);
                    push_effect(effects, Effect::SetInput(first.addr.clone()));
                    self.apply_server(first.addr.clone(), effects);
                    let count = text::join3(
                        "发现 ",
                        text::decimal(devices.len() as u64).as_str(),
                        " 台设备：",
                    );
                    let named = text::join3(count.as_str(), first.name.as_str(), "（");
                    self.hint = info_hint(
                        text::join3(
                            named.as_str(),
                            first.addr.as_str(),
                            "），已自动连接并开始监控。",
                        ),
                    );
                }
            },
            Err(e) => {
                self.hint = error_hint(text::join("扫描失败: ", e.as_str()));
            },
        }
        push_effect(effects, Effect::Repaint);
        assert(effects_view(effects@) =~= effects_view(old(effects)@) + ModelView::scanned_effects(
            scan_view(result),
        ));
    }

    /// Monitors another address.
    fn apply_server(&mut self, addr: String, effects: &mut Vec<Effect>)
        ensures
            final(self)@ == old(self)@.with_server(addr@),
            effects_view(final(effects)@) == effects_view(old(effects)@).push(
                EffectView::Send(MonitorCommandView::SetTarget(Some(addr@))),
            ),
    {
        self.saved_server = Some(addr.clone());
        self.status = HeartStatus::Waiting;
        self.lost_detail = None;
        push_effect(effects, Effect::Send(MonitorCommand::SetTarget(Some(addr))));
    }

    /// The user made a choice in the countdown window.
    fn on_countdown_choice(
        &mut self,
        choice: CountdownChoice,
        now: u64,
        effects: &mut Vec<Effect>,
    )
        requires
            old(self)@.has_room(AppEventView::CountdownAction(choice), now),
        ensures
            final(self)@ == old(self)@.chosen(choice, now),
            effects_view(final(effects)@) == effects_view(old(effects)@)
                + old(self)@.chosen_effects(choice),
    {
        match choice {
            CountdownChoice::Cancel => {
                self.close_countdown(effects);
                self.hint = info_hint(
                    "已取消本次关机。心跳恢复后会重新开始监测，若再次失联超过 60 秒将再次提醒。".to_owned(),
                );
            },
            CountdownChoice::Later => {
                self.close_countdown(effects);
                self.hint = info_hint(
                    text::join3(
                        "将在 ",
                        text::decimal(SNOOZE_LATER_SECONDS).as_str(),
                        " 秒后再次弹出关机倒计时。",
                    ),
                );
                self.snooze_until = Some(now + SNOOZE_LATER_SECONDS * SECOND);
                self.snooze_gen = self.snooze_gen + 1;
                push_effect(
                    effects,
                    Effect::StartSnooze {
                        seconds: SNOOZE_LATER_SECONDS,
                        generation: self.snooze_gen,
                    },
                );
            },
        }
        push_effect(effects, Effect::Repaint);
        assert(effects_view(effects@) =~= effects_view(old(effects)@) + old(self)@.chosen_effects(
            choice,
        ));
    }

    /// Opens the countdown where it may open.
    fn try_open_countdown(&mut self, now: u64, effects: &mut Vec<Effect>)
        ensures
            final(self)@ == old(self)@.opened(now),
            effects_view(final(effects)@) == effects_view(old(effects)@)
                + old(self)@.open_effects(now),
    {
        assert(effects_view(effects@) =~= effects_view(effects@) + Seq::<EffectView>::empty());
        if self.status != HeartStatus::Lost || self.countdown {
            return ;
        }
        if let Some(until) = self.snooze_until {
            if now < until {
                return ;
            }
        }
        self.snooze_until = None;
        self.countdown = true;
        push_effect(effects, Effect::OpenCountdown);
        self.hint = error_hint("检测到心跳服务失联，已弹出关机倒计时！".to_owned());
        assert(effects_view(effects@) =~= effects_view(old(effects)@) + old(self)@.open_effects(
            now,
        ));
    }

    /// Closes the countdown where it is open.
    fn close_countdown(&mut self, effects: &mut Vec<Effect>)
        ensures
            final(self)@ == old(self)@.closed(),
            effects_view(final(effects)@) == effects_view(old(effects)@)
                + old(self)@.close_effects(),
    {
        if self.countdown {
            self.countdown = false;
            push_effect(effects, Effect::CloseCountdown);
        }
        assert(effects_view(effects@) =~= effects_view(old(effects)@)
            + old(self)@.close_effects());
    }

    /// Shuts the machine down.
    fn shutdown(&mut self, effects: &mut Vec<Effect>)
        ensures
            final(self)@ == old(self)@.after_event(AppEventView::ShutdownNow, 0),
            effects_view(final(effects)@) == effects_view(old(effects)@)
                + old(self)@.close_effects() + seq![EffectView::Repaint, EffectView::Shutdown],
    {
        self.close_countdown(effects);
        self.hint = info_hint("正在执行关机…".to_owned());
        push_effect(effects, Effect::Repaint);
        push_effect(effects, Effect::Shutdown);
        assert(effects_view(effects@) =~= effects_view(old(effects)@) + old(self)@.close_effects()
            + seq![EffectView::Repaint, EffectView::Shutdown]);
    }

    /// The shutdown could not be started.
    pub fn shutdown_failed(&mut self, message: &str) -> (r: Vec<Effect>)
        ensures
            final(self)@ == old(self)@.shutdown_refused(message@),
            effects_view(r@) == seq![EffectView::Repaint],
    {
        self.hint = error_hint(text::join("关机命令执行失败: ", message));
        repaint()
    }

    /// The snooze timer of a generation has run out at `now`.
    pub fn snooze_elapsed(&mut self, generation: u64, now: u64) -> (r: Vec<Effect>)
        ensures
            final(self)@ == old(self)@.after_snooze(generation, now),
            effects_view(r@) == old(self)@.snooze_effects(generation, now),
    {
        let mut effects: Vec<Effect> = Vec::new();
        if self.snooze_gen == generation {
            self.try_open_countdown(now, &mut effects);
        }
        assert(effects_view(effects@) =~= old(self)@.snooze_effects(generation, now));
        effects
    }

    /// The scan button was pressed.
    pub fn start_scan(&mut self) -> (r: Vec<Effect>)
        ensures
            final(self)@ == old(self)@.scan_started(),
            effects_view(r@) == ModelView::scan_effects(),
    {
        self.scanning = true;
        self.hint = info_hint("正在扫描局域网，请稍候…".to_owned());
        let effects: Vec<Effect> = vec![Effect::Send(MonitorCommand::Scan), Effect::Repaint];
        assert(effects_view(effects@) =~= ModelView::scan_effects());
        effects
    }

    /// The test button was pressed with this text in the address field.
    pub fn start_test(&mut self, input: &str) -> (r: Vec<Effect>)
        ensures
            final(self)@ == old(self)@.testing(input@),
            effects_view(r@) == ModelView::testing_effects(input@),
    {
        let addr = text::trim(input);
        let mut effects: Vec<Effect> = Vec::new();
        if text::is_empty(addr) {
            self.test_result = Some(Err("请先输入服务地址".to_owned()));
        } else {
            self.test_result = Some(Err("测试中…".to_owned()));
            effects.push(Effect::Send(MonitorCommand::Test(addr.to_owned())));
        }
        effects.push(Effect::Repaint);
        assert(effects_view(effects@) =~= ModelView::testing_effects(input@));
        effects
    }

    /// The save button was pressed with this text in the address field.
    pub fn save_and_start(&mut self, input: &str) -> (r: Vec<Effect>)
        ensures
            final(self)@ == old(self)@.saved(input@),
            effects_view(r@) == ModelView::saved_effects(input@),
    {
        let addr = text::trim(input);
        let mut effects: Vec<Effect> = Vec::new();
        if text::is_empty(addr) {
            self.hint = error_hint("请先输入服务地址".to_owned());
        } else {
            self.apply_server(addr.to_owned(), &mut effects);
            self.test_result = None;
            self.hint = info_hint(
                "已开始监控（地址仅本次运行生效，重启后重新扫描或输入）。首次连通前不会触发关机（防误报）。".to_owned(),
            );
        }
        push_effect(&mut effects, Effect::Repaint);
        assert(effects_view(effects@) =~= ModelView::saved_effects(input@));
        effects
    }

    /// The head of the configuration panel was clicked.
    pub fn toggle_config(&mut self) -> (r: Vec<Effect>)
        ensures
            final(self)@ == old(self)@.config_toggled(),
            effects_view(r@) == seq![EffectView::Repaint],
    {
        self.config_open = !self.config_open;
        repaint()
    }

    /// The switch for start at logon was clicked.
    pub fn toggle_autostart(&self) -> (r: Vec<Effect>)
        ensures
            effects_view(r@) == seq![EffectView::SetAutostart(!self@.autostart)],
    {
        let effects: Vec<Effect> = vec![Effect::SetAutostart(!self.autostart)];
        assert(effects_view(effects@) =~= seq![EffectView::SetAutostart(!self@.autostart)]);
        effects
    }

    /// Start at logon was switched to `target`, or that failed and everything stays as it is.
    pub fn autostart_finished(&mut self, target: bool, result: Result<(), String>) -> (r: Vec<
        Effect,
    >)
        ensures
            final(self)@ == old(self)@.autostart_set(target, switch_result(result)),
            effects_view(r@) == ModelView::autostart_effects(target, switch_result(result)),
    {
        match result {
            Ok(_) => {
                self.autostart = target;
                let effects: Vec<Effect> = vec![Effect::SyncTray(target), Effect::Repaint];
                assert(effects_view(effects@) =~= ModelView::autostart_effects(target, Ok(())));
                effects
            },
            Err(e) => {
                self.hint = error_hint(e);
                repaint()
            },
        }
    }
}

/// The effect of a change that only shows.
fn repaint() -> (r: Vec<Effect>)
    ensures
        effects_view(r@) == seq![EffectView::Repaint],
{
    let effects: Vec<Effect> = vec![Effect::Repaint];
    assert(effects_view(effects@) =~= seq![EffectView::Repaint]);
    effects
}

} // verus!
