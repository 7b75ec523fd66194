//! What the main window and the countdown do, call by call, in plain numbers and texts.
//!
//! Each law is about the result of a call, whatever it is, and the state before and after it.
use vstd::prelude::*;

use crate::app::{legacy_config_path, shutdown_args, AppModel, Effect, Hint};
use crate::countdown::{CountdownButton, CountdownView};
use crate::events::{AppEvent, CountdownChoice, Device, HeartStatus, MonitorCommand};
use crate::text;
use crate::text_laws::chars;
use crate::window::{input_placeholder, Banner, BannerKind, MainWindow, StatusIcon, Tone};

verus! {

/// An optional test result, by its characters.
pub open spec fn outcome(result: Option<Result<String, String>>) -> Option<
    Result<Seq<char>, Seq<char>>,
> {
    match result {
        Some(Ok(t)) => Some(Ok(t@)),
        Some(Err(t)) => Some(Err(t@)),
        None => None,
    }
}

/// An optional line, by its characters, and whether it is an error.
pub open spec fn line(hint: Option<Hint>) -> Option<(Seq<char>, bool)> {
    match hint {
        Some(h) => Some((h.text@, h.is_error)),
        None => None,
    }
}

/// What the window knows of the heartbeat and of the service is the same.
pub open spec fn same_service(o: AppModel, f: AppModel) -> bool {
    &&& f.status == o.status
    &&& chars(f.lost_detail) == chars(o.lost_detail)
    &&& chars(f.saved_server) == chars(o.saved_server)
}

/// What the window knows of the countdown is the same.
pub open spec fn same_countdown(o: AppModel, f: AppModel) -> bool {
    f.countdown == o.countdown && f.snooze_until == o.snooze_until && f.snooze_gen == o.snooze_gen
}

/// The scan, the panel and the switch are the same.
pub open spec fn same_controls(o: AppModel, f: AppModel) -> bool {
    f.scanning == o.scanning && f.config_open == o.config_open && f.autostart == o.autostart
}

/// The line and the test result are the same.
pub open spec fn same_lines(o: AppModel, f: AppModel) -> bool {
    line(f.hint) == line(o.hint) && outcome(f.test_result) == outcome(o.test_result)
}

/// The effects are to close the countdown where it was open, and then these.
pub open spec fn closes_first(effects: Seq<Effect>, was_open: bool, more: int) -> bool {
    &&& effects.len() == more + if was_open {
        1int
    } else {
        0
    }
    &&& was_open ==> effects[0] is CloseCountdown
}

/// The views of a window say what its fields say.
proof fn lemma_fields(m: AppModel)
    ensures
        chars(m.lost_detail) == m@.lost_detail,
        chars(m.saved_server) == m@.saved_server,
        outcome(m.test_result) == m@.test_result,
        line(m.hint) == match m@.hint {
            Some(h) => Some((h.text, h.is_error)),
            None => None,
        },
        m.status == m@.status,
        m.scanning == m@.scanning,
        m.config_open == m@.config_open,
        m.countdown == m@.countdown,
        m.snooze_until == m@.snooze_until,
        m.snooze_gen == m@.snooze_gen,
        m.autostart == m@.autostart,
{
}

/// The views of effects say what the effects are.
proof fn lemma_effects(effects: Seq<Effect>)
    ensures
        crate::app::effects_view(effects).len() == effects.len(),
        forall|i: int|
            0 <= i < effects.len() ==> crate::app::effects_view(effects)[i] == (
            #[trigger] effects[i])@,
{
}

/// The window begins with a scan, with nothing configured and nothing lost.
pub proof fn law_window_begins_with_a_scan(autostart: bool, r: (AppModel, Vec<Effect>))
    requires
        call_ensures(AppModel::new, (autostart,), r),
    ensures
        r.0.status == HeartStatus::NotConfigured && r.0.lost_detail is None && r.0.saved_server
            is None,
        r.0.scanning && !r.0.config_open && r.0.autostart == autostart && r.0.test_result is None,
        !r.0.countdown && r.0.snooze_until is None && r.0.snooze_gen == 0,
        line(r.0.hint) == Some(
            ("正在扫描局域网（UDP 广播，发现端口 8124），请稍候…"@, false),
        ),
        r.1@.len() == 1,
        r.1@[0] is Send && r.1@[0]->Send_0 is Scan,
{
    lemma_fields(r.0);
    lemma_effects(r.1@);
    let e = r.1@[0]@;
    assert(crate::app::effects_view(r.1@)[0] == e);
    assert(outcome(r.0.test_result) is None);
    assert(chars(r.0.lost_detail) is None && chars(r.0.saved_server) is None);
}

/// A report of a loss shows it with its reason, and opens the countdown exactly if that is not open
/// and is not put off beyond now, whatever else the window shows.
pub proof fn law_loss_opens_the_countdown(
    m: &mut AppModel,
    detail: String,
    now: u64,
    r: Vec<Effect>,
)
    requires
        call_ensures(AppModel::handle_event, (m, AppEvent::HeartbeatLost { detail }, now), r),
    ensures
        ({
            let o = *old(m);
            let f = *final(m);
            let opens = !o.countdown && (o.snooze_until is None || o.snooze_until->0 <= now);
            &&& f.status == HeartStatus::Lost && chars(f.lost_detail) == Some(detail@)
            &&& chars(f.saved_server) == chars(o.saved_server) && same_controls(o, f)
            &&& outcome(f.test_result) == outcome(o.test_result)
            &&& f.snooze_gen == o.snooze_gen
            &&& opens ==> f.countdown && f.snooze_until is None && line(f.hint) == Some(
                ("检测到心跳服务失联，已弹出关机倒计时！"@, true),
            ) && r@.len() == 2 && r@[0] is OpenCountdown && r@[1] is Repaint
            &&& !opens ==> same_countdown(o, f) && line(f.hint) == line(o.hint) && r@.len() == 1
                && r@[0] is Repaint
        }),
{
    lemma_fields(*old(m));
    lemma_fields(*final(m));
    lemma_effects(r@);
    let sent = crate::app::effects_view(r@);
    assert(r@.len() > 0 ==> sent[0] == r@[0]@);
    assert(r@.len() > 1 ==> sent[1] == r@[1]@);
}

/// A report of a recovery shows the service as up, closes the countdown, calls off what was put off,
/// and makes every timer that was started before stale.
pub proof fn law_recovery_closes_the_countdown(m: &mut AppModel, now: u64, r: Vec<Effect>)
    requires
        old(m).snooze_gen < u64::MAX,
        call_ensures(AppModel::handle_event, (m, AppEvent::HeartbeatOk, now), r),
    ensures
        ({
            let o = *old(m);
            let f = *final(m);
            &&& f.status == HeartStatus::Connected
            &&& !f.countdown && f.snooze_until is None && f.snooze_gen == o.snooze_gen + 1
            &&& chars(f.saved_server) == chars(o.saved_server) && same_controls(o, f)
            &&& outcome(f.test_result) == outcome(o.test_result)
            &&& o.status != HeartStatus::Connected ==> f.lost_detail is None && f.hint is None
            &&& o.status == HeartStatus::Connected ==> chars(f.lost_detail) == chars(o.lost_detail)
                && line(f.hint) == line(o.hint)
            &&& closes_first(r@, o.countdown, 1)
            &&& r@.last() is Repaint
        }),
{
    lemma_fields(*old(m));
    lemma_fields(*final(m));
    lemma_effects(r@);
    let sent = crate::app::effects_view(r@);
    assert(sent[0] == r@[0]@);
    assert(sent[sent.len() - 1] == r@[r@.len() - 1]@);
    assert(line(final(m).hint) is None ==> final(m).hint is None);
    assert(chars(final(m).lost_detail) is None ==> final(m).lost_detail is None);
}

/// The handler of a recovery does the same by itself, behind the effects that are there already.
pub proof fn law_recovery_handler_closes_the_countdown(m: &mut AppModel, effects: &mut Vec<Effect>)
    requires
        old(m).snooze_gen < u64::MAX,
        call_ensures(AppModel::on_heartbeat_ok, (m, effects), ()),
    ensures
        ({
            let o = *old(m);
            let f = *final(m);
            &&& f.status == HeartStatus::Connected
            &&& !f.countdown && f.snooze_until is None && f.snooze_gen == o.snooze_gen + 1
            &&& chars(f.saved_server) == chars(o.saved_server) && same_controls(o, f)
            &&& outcome(f.test_result) == outcome(o.test_result)
            &&& o.status != HeartStatus::Connected ==> f.lost_detail is None && f.hint is None
            &&& o.status == HeartStatus::Connected ==> chars(f.lost_detail) == chars(o.lost_detail)
                && line(f.hint) == line(o.hint)
            &&& forall|i: int|
                0 <= i < old(effects)@.len() ==> (#[trigger] final(effects)@[i])@ == old(
                    effects,
                )@[i]@
            &&& final(effects)@.len() == old(effects)@.len() + 1 + if o.countdown {
                1int
            } else {
                0
            }
            &&& final(effects)@.last() is Repaint
            &&& o.countdown ==> final(effects)@[final(effects)@.len() - 2] is CloseCountdown
        }),
{
    lemma_fields(*old(m));
    lemma_fields(*final(m));
    let new = final(effects)@;
    lemma_effects(old(effects)@);
    lemma_effects(new);
    let sent = crate::app::effects_view(new);
    let was = crate::app::effects_view(old(effects)@);
    assert forall|i: int| 0 <= i < old(effects)@.len() implies (#[trigger] new[i])@ == old(
        effects,
    )@[i]@ by {
        assert(sent[i] == was[i]);
    }
    assert(sent[sent.len() - 1] == new[new.len() - 1]@);
    if old(m).countdown {
        assert(sent[sent.len() - 2] == new[new.len() - 2]@);
    }
    assert(line(final(m).hint) is None ==> final(m).hint is None);
    assert(chars(final(m).lost_detail) is None ==> final(m).lost_detail is None);
}

/// A cancelled shutdown closes the countdown and says so. Nothing is put off or called off by it.
pub proof fn law_cancel_closes_the_countdown(m: &mut AppModel, now: u64, r: Vec<Effect>)
    requires
        call_ensures(
            AppModel::handle_event,
            (m, AppEvent::CountdownAction(CountdownChoice::Cancel), now),
            r,
        ),
    ensures
        ({
            let o = *old(m);
            let f = *final(m);
            &&& same_service(o, f) && same_controls(o, f)
            &&& outcome(f.test_result) == outcome(o.test_result)
            &&& !f.countdown && f.snooze_until == o.snooze_until && f.snooze_gen == o.snooze_gen
            &&& line(f.hint) == Some(
                (
                    "已取消本次关机。心跳恢复后会重新开始监测，若再次失联超过 60 秒将再次提醒。"@,
                    false,
                ),
            )
            &&& closes_first(r@, o.countdown, 1)
            &&& r@.last() is Repaint
        }),
{
    lemma_fields(*old(m));
    lemma_fields(*final(m));
    lemma_effects(r@);
    let sent = crate::app::effects_view(r@);
    assert(sent[0] == r@[0]@);
    assert(sent[sent.len() - 1] == r@[r@.len() - 1]@);
}

/// A shutdown that is put off closes the countdown for thirty seconds, and starts a timer of thirty
/// seconds with a generation of its own.
pub proof fn law_later_puts_the_countdown_off(m: &mut AppModel, now: u64, r: Vec<Effect>)
    requires
        old(m).snooze_gen < u64::MAX,
        now + 30_000_000_000 <= u64::MAX,
        call_ensures(
            AppModel::handle_event,
            (m, AppEvent::CountdownAction(CountdownChoice::Later), now),
            r,
        ),
    ensures
        ({
            let o = *old(m);
            let f = *final(m);
            &&& same_service(o, f) && same_controls(o, f)
            &&& outcome(f.test_result) == outcome(o.test_result)
            &&& !f.countdown && f.snooze_gen == o.snooze_gen + 1
            &&& f.snooze_until == Some((now + 30_000_000_000) as u64)
            &&& line(f.hint) == Some(("将在 "@ + "30"@ + " 秒后再次弹出关机倒计时。"@, false))
            &&& closes_first(r@, o.countdown, 2)
            &&& r@.last() is Repaint
            &&& r@[r@.len() - 2] is StartSnooze && r@[r@.len() - 2]->seconds == 30
                && r@[r@.len() - 2]->generation == f.snooze_gen
        }),
{
    reveal_strlit("30");
    reveal_with_fuel(text::decimal_digits, 3);
    assert(text::decimal_digits(30) =~= "30"@);
    lemma_fields(*old(m));
    lemma_fields(*final(m));
    lemma_effects(r@);
    let sent = crate::app::effects_view(r@);
    assert(sent[0] == r@[0]@);
    assert(sent[sent.len() - 1] == r@[r@.len() - 1]@);
    assert(sent[sent.len() - 2] == r@[r@.len() - 2]@);
}

/// A timer opens the countdown exactly if it is of the generation that counts, the service is lost,
/// and the countdown is not open and not put off beyond now. Otherwise it does nothing.
pub proof fn law_timer_brings_the_countdown_back(
    m: &mut AppModel,
    generation: u64,
    now: u64,
    r: Vec<Effect>,
)
    requires
        call_ensures(AppModel::snooze_elapsed, (m, generation, now), r),
    ensures
        ({
            let o = *old(m);
            let f = *final(m);
            let opens = generation == o.snooze_gen && o.status == HeartStatus::Lost && !o.countdown
                && (o.snooze_until is None || o.snooze_until->0 <= now);
            &&& same_service(o, f) && same_controls(o, f) && f.snooze_gen == o.snooze_gen
            &&& outcome(f.test_result) == outcome(o.test_result)
            &&& opens ==> f.countdown && f.snooze_until is None && line(f.hint) == Some(
                ("检测到心跳服务失联，已弹出关机倒计时！"@, true),
            ) && r@.len() == 1 && r@[0] is OpenCountdown
            &&& !opens ==> same_countdown(o, f) && line(f.hint) == line(o.hint) && r@.len() == 0
        }),
{
    lemma_fields(*old(m));
    lemma_fields(*final(m));
    lemma_effects(r@);
    let sent = crate::app::effects_view(r@);
    assert(r@.len() > 0 ==> sent[0] == r@[0]@);
}

/// The end of the countdown, or the wish of the user, closes the countdown and shuts down.
pub proof fn law_shutdown_is_carried_out(m: &mut AppModel, now: u64, r: Vec<Effect>)
    requires
        call_ensures(AppModel::handle_event, (m, AppEvent::ShutdownNow, now), r),
    ensures
        ({
            let o = *old(m);
            let f = *final(m);
            &&& same_service(o, f) && same_controls(o, f)
            &&& outcome(f.test_result) == outcome(o.test_result)
            &&& !f.countdown && f.snooze_until == o.snooze_until && f.snooze_gen == o.snooze_gen
            &&& line(f.hint) == Some(("正在执行关机…"@, false))
            &&& closes_first(r@, o.countdown, 2)
            &&& r@[r@.len() - 2] is Repaint && r@.last() is Shutdown
        }),
{
    lemma_fields(*old(m));
    lemma_fields(*final(m));
    lemma_effects(r@);
    let sent = crate::app::effects_view(r@);
    assert(sent[0] == r@[0]@);
    assert(sent[sent.len() - 1] == r@[r@.len() - 1]@);
    assert(sent[sent.len() - 2] == r@[r@.len() - 2]@);
}

/// A scan that found devices makes the first of them the target at once, and says how many it found.
pub proof fn law_scan_takes_the_first_device(
    m: &mut AppModel,
    devices: Vec<Device>,
    now: u64,
    r: Vec<Effect>,
)
    requires
        devices@.len() > 0,
        call_ensures(AppModel::handle_event, (m, AppEvent::ScanFinished(Ok(devices)), now), r),
    ensures
        ({
            let o = *old(m);
            let f = *final(m);
            let first = devices@[0];
            &&& f.status == HeartStatus::Waiting && f.lost_detail is None
            &&& chars(f.saved_server) == Some(first.addr@)
            &&& !f.scanning && f.config_open == o.config_open && f.autostart == o.autostart
            &&& same_countdown(o, f) && outcome(f.test_result) == outcome(o.test_result)
            &&& line(f.hint) == Some(
                (
                    "发现 "@ + text::decimal_digits(devices@.len()) + " 台设备："@ + first.name@
                        + "（"@ + first.addr@ + "），已自动连接并开始监控。"@,
                    false,
                ),
            )
            &&& r@.len() == 3
            &&& r@[0] is SetInput && r@[0]->SetInput_0@ == first.addr@
            &&& r@[1] is Send && (r@[1]->Send_0 matches MonitorCommand::SetTarget(Some(t)) && t@
                == first.addr@)
            &&& r@[2] is Repaint
        }),
{
    lemma_fields(*old(m));
    lemma_fields(*final(m));
    lemma_effects(r@);
    let sent = crate::app::effects_view(r@);
    assert(crate::events::devices_view(devices@)[0] == devices@[0]@);
    assert(crate::events::devices_view(devices@).len() == devices@.len());
    assert(sent[0] == r@[0]@ && sent[1] == r@[1]@ && sent[2] == r@[2]@);
    assert(chars(final(m).lost_detail) is None);
    let c = r@[1]->Send_0;
    assert(c@ is SetTarget);
    assert(c matches MonitorCommand::SetTarget(t) && chars(t) == c@->SetTarget_0);
}

/// A scan that found nothing, or failed, says so; the target stays.
pub proof fn law_empty_scan_changes_no_target(
    m: &mut AppModel,
    scan: Result<Vec<Device>, String>,
    now: u64,
    r: Vec<Effect>,
)
    requires
        scan matches Ok(devices) ==> devices@.len() == 0,
        call_ensures(AppModel::handle_event, (m, AppEvent::ScanFinished(scan), now), r),
    ensures
        ({
            let o = *old(m);
            let f = *final(m);
            &&& same_service(o, f) && same_countdown(o, f)
            &&& !f.scanning && f.config_open == o.config_open && f.autostart == o.autostart
            &&& outcome(f.test_result) == outcome(o.test_result)
            &&& line(f.hint) == match scan {
                Ok(_) => Some(
                    (
                        "未在局域网内发现心跳服务。请确认服务端已开机，或手动输入服务地址。"@,
                        false,
                    ),
                ),
                Err(e) => Some(("扫描失败: "@ + e@, true)),
            }
            &&& r@.len() == 1 && r@[0] is Repaint
        }),
{
    lemma_fields(*old(m));
    lemma_fields(*final(m));
    lemma_effects(r@);
    let sent = crate::app::effects_view(r@);
    if let Ok(devices) = scan {
        assert(crate::events::devices_view(devices@).len() == devices@.len());
    }
    assert(sent[0] == r@[0]@);
}

/// The smaller events: a test result is shown, a new address is shown, the switch follows the tray,
/// hiding the window clears the test result, and the tray shows the window or quits. Nothing else
/// changes.
pub proof fn law_small_events_do_one_thing(
    m: &mut AppModel,
    event: AppEvent,
    now: u64,
    r: Vec<Effect>,
)
    requires
        call_ensures(AppModel::handle_event, (m, event, now), r),
    ensures
        ({
            let o = *old(m);
            let f = *final(m);
            let rest = same_countdown(o, f) && line(f.hint) == line(o.hint) && f.scanning
                == o.scanning && f.config_open == o.config_open;
            match event {
                AppEvent::TestFinished(result) => {
                    &&& rest && same_service(o, f) && f.autostart == o.autostart
                    &&& outcome(f.test_result) == outcome(Some(result))
                    &&& r@.len() == 1 && r@[0] is Repaint
                },
                AppEvent::TargetAutoChanged { old: from, new: to } => {
                    &&& rest && f.status == o.status && f.autostart == o.autostart
                    &&& chars(f.lost_detail) == chars(o.lost_detail)
                    &&& chars(f.saved_server) == Some(to@)
                    &&& outcome(f.test_result) == outcome(o.test_result)
                    &&& r@.len() == 1 && r@[0] is Repaint
                },
                AppEvent::AutostartChanged(on) => {
                    &&& rest && same_service(o, f) && f.autostart == on
                    &&& outcome(f.test_result) == outcome(o.test_result)
                    &&& r@.len() == 1 && r@[0] is Repaint
                },
                AppEvent::WindowHidden => {
                    &&& rest && same_service(o, f) && f.autostart == o.autostart
                    &&& f.test_result is None
                    &&& o.test_result is None ==> r@.len() == 0
                    &&& o.test_result is Some ==> r@.len() == 1 && r@[0] is Repaint
                },
                AppEvent::TrayShow => {
                    &&& rest && same_service(o, f) && f.autostart == o.autostart
                    &&& outcome(f.test_result) == outcome(o.test_result)
                    &&& r@.len() == 1 && r@[0] is ShowWindow
                },
                AppEvent::Quit => {
                    &&& rest && same_service(o, f) && f.autostart == o.autostart
                    &&& outcome(f.test_result) == outcome(o.test_result)
                    &&& r@.len() == 1 && r@[0] is Quit
                },
                _ => true,
            }
        }),
{
    lemma_fields(*old(m));
    lemma_fields(*final(m));
    lemma_effects(r@);
    let sent = crate::app::effects_view(r@);
    assert(r@.len() > 0 ==> sent[0] == r@[0]@);
    assert(outcome(old(m).test_result) is None <==> old(m).test_result is None);
    assert(outcome(final(m).test_result) is None <==> final(m).test_result is None);
}

/// A shutdown that could not be started is shown as an error, with its reason.
pub proof fn law_failed_shutdown_is_shown(m: &mut AppModel, message: &str, r: Vec<Effect>)
    requires
        call_ensures(AppModel::shutdown_failed, (m, message), r),
    ensures
        ({
            let o = *old(m);
            let f = *final(m);
            &&& same_service(o, f) && same_countdown(o, f) && same_controls(o, f)
            &&& outcome(f.test_result) == outcome(o.test_result)
            &&& line(f.hint) == Some(("关机命令执行失败: "@ + message@, true))
            &&& r@.len() == 1 && r@[0] is Repaint
        }),
{
    lemma_fields(*old(m));
    lemma_fields(*final(m));
    lemma_effects(r@);
    assert(crate::app::effects_view(r@)[0] == r@[0]@);
}

/// The scan button asks for a scan and says so.
pub proof fn law_scan_button_scans(m: &mut AppModel, r: Vec<Effect>)
    requires
        call_ensures(AppModel::start_scan, (m,), r),
    ensures
        ({
            let o = *old(m);
            let f = *final(m);
            &&& same_service(o, f) && same_countdown(o, f)
            &&& f.scanning && f.config_open == o.config_open && f.autostart == o.autostart
            &&& outcome(f.test_result) == outcome(o.test_result)
            &&& line(f.hint) == Some(("正在扫描局域网，请稍候…"@, false))
            &&& r@.len() == 2 && r@[0] is Send && r@[0]->Send_0 is Scan && r@[1] is Repaint
        }),
{
    lemma_fields(*old(m));
    lemma_fields(*final(m));
    lemma_effects(r@);
    let sent = crate::app::effects_view(r@);
    assert(sent[0] == r@[0]@ && sent[1] == r@[1]@);
}

/// The test button tests what stands in the address field without the white space around it, and
/// asks for an address where there is nothing else.
pub proof fn law_test_button_tests(
    m: &mut AppModel,
    input: &str,
    before: Seq<char>,
    addr: Seq<char>,
    after: Seq<char>,
    r: Vec<Effect>,
)
    requires
        call_ensures(AppModel::start_test, (m, input), r),
        input@ == before + addr + after,
        forall|i: int| 0 <= i < before.len() ==> text::is_white_space(#[trigger] before[i]),
        forall|i: int| 0 <= i < after.len() ==> text::is_white_space(#[trigger] after[i]),
        addr.len() > 0 ==> !text::is_white_space(addr.first()) && !text::is_white_space(
            addr.last(),
        ),
    ensures
        ({
            let o = *old(m);
            let f = *final(m);
            &&& same_service(o, f) && same_countdown(o, f) && same_controls(o, f)
            &&& line(f.hint) == line(o.hint)
            &&& addr.len() == 0 ==> outcome(f.test_result) == Some(
                Err::<Seq<char>, Seq<char>>("请先输入服务地址"@),
            ) && r@.len() == 1 && r@[0] is Repaint
            &&& addr.len() > 0 ==> outcome(f.test_result) == Some(
                Err::<Seq<char>, Seq<char>>("测试中…"@),
            ) && r@.len() == 2 && r@[0] is Send && (r@[0]->Send_0 matches MonitorCommand::Test(t)
                && t@ == addr) && r@[1] is Repaint
        }),
{
    text::lemma_trimmed_ignores_white_space(before, addr, after);
    lemma_fields(*old(m));
    lemma_fields(*final(m));
    lemma_effects(r@);
    let sent = crate::app::effects_view(r@);
    assert(sent[0] == r@[0]@);
    assert(r@.len() > 1 ==> sent[1] == r@[1]@);
}

/// The save button makes the target what stands in the address field without the white space around
/// it, and asks for an address where there is nothing else.
pub proof fn law_save_button_saves(
    m: &mut AppModel,
    input: &str,
    before: Seq<char>,
    addr: Seq<char>,
    after: Seq<char>,
    r: Vec<Effect>,
)
    requires
        call_ensures(AppModel::save_and_start, (m, input), r),
        input@ == before + addr + after,
        forall|i: int| 0 <= i < before.len() ==> text::is_white_space(#[trigger] before[i]),
        forall|i: int| 0 <= i < after.len() ==> text::is_white_space(#[trigger] after[i]),
        addr.len() > 0 ==> !text::is_white_space(addr.first()) && !text::is_white_space(
            addr.last(),
        ),
    ensures
        ({
            let o = *old(m);
            let f = *final(m);
            &&& same_countdown(o, f) && same_controls(o, f)
            &&& addr.len() == 0 ==> same_service(o, f) && outcome(f.test_result) == outcome(
                o.test_result,
            ) && line(f.hint) == Some(("请先输入服务地址"@, true)) && r@.len() == 1 && r@[0]
                is Repaint
            &&& addr.len() > 0 ==> {
                &&& f.status == HeartStatus::Waiting && f.lost_detail is None
                &&& chars(f.saved_server) == Some(addr) && f.test_result is None
                &&& line(f.hint) == Some(
                    (
                        "已开始监控（地址仅本次运行生效，重启后重新扫描或输入）。首次连通前不会触发关机（防误报）。"@,
                        false,
                    ),
                )
                &&& r@.len() == 2 && r@[0] is Send && r@[1] is Repaint
                &&& r@[0]->Send_0 matches MonitorCommand::SetTarget(Some(t)) && t@ == addr
            }
        }),
{
    text::lemma_trimmed_ignores_white_space(before, addr, after);
    lemma_fields(*old(m));
    lemma_fields(*final(m));
    lemma_effects(r@);
    let sent = crate::app::effects_view(r@);
    assert(sent[0] == r@[0]@);
    assert(r@.len() > 1 ==> sent[1] == r@[1]@);
    if addr.len() > 0 {
        let c = r@[0]->Send_0;
        assert(c@ is SetTarget);
        assert(c matches MonitorCommand::SetTarget(t) && chars(t) == c@->SetTarget_0);
        assert(chars(final(m).lost_detail) is None);
        assert(outcome(final(m).test_result) is None);
    }
}

/// The head of the panel folds and unfolds it.
pub proof fn law_panel_is_toggled(m: &mut AppModel, r: Vec<Effect>)
    requires
        call_ensures(AppModel::toggle_config, (m,), r),
    ensures
        ({
            let o = *old(m);
            let f = *final(m);
            &&& same_service(o, f) && same_countdown(o, f) && same_lines(o, f)
            &&& f.config_open == !o.config_open && f.scanning == o.scanning && f.autostart
                == o.autostart
            &&& r@.len() == 1 && r@[0] is Repaint
        }),
{
    lemma_fields(*old(m));
    lemma_fields(*final(m));
    lemma_effects(r@);
    assert(crate::app::effects_view(r@)[0] == r@[0]@);
}

/// The switch asks for the other setting, and shows it once that has succeeded; a failure is shown
/// as an error and changes nothing else.
pub proof fn law_switch_follows_its_result(
    m: &AppModel,
    asked: Vec<Effect>,
    n: &mut AppModel,
    target: bool,
    result: Result<(), String>,
    r: Vec<Effect>,
)
    requires
        call_ensures(AppModel::toggle_autostart, (m,), asked),
        call_ensures(AppModel::autostart_finished, (n, target, result), r),
    ensures
        asked@.len() == 1 && asked@[0] is SetAutostart && asked@[0]->SetAutostart_0
            == !m.autostart,
        ({
            let o = *old(n);
            let f = *final(n);
            &&& same_service(o, f) && same_countdown(o, f)
            &&& f.scanning == o.scanning && f.config_open == o.config_open
            &&& outcome(f.test_result) == outcome(o.test_result)
            &&& match result {
                Ok(_) => {
                    &&& f.autostart == target && line(f.hint) == line(o.hint)
                    &&& r@.len() == 2 && r@[0] is SyncTray && r@[0]->SyncTray_0 == target && r@[1]
                        is Repaint
                },
                Err(e) => {
                    &&& f.autostart == o.autostart && line(f.hint) == Some((e@, true))
                    &&& r@.len() == 1 && r@[0] is Repaint
                },
            }
        }),
{
    lemma_fields(*old(n));
    lemma_fields(*final(n));
    lemma_effects(r@);
    lemma_effects(asked@);
    assert(crate::app::effects_view(asked@)[0] == asked@[0]@);
    let sent = crate::app::effects_view(r@);
    assert(sent[0] == r@[0]@);
    assert(r@.len() > 1 ==> sent[1] == r@[1]@);
}

/// A banner, by its kind and characters.
pub open spec fn banner(b: Option<Banner>) -> Option<(BannerKind, Seq<char>)> {
    match b {
        Some(x) => Some((x.kind, x.text@)),
        None => None,
    }
}

/// The window shows its state: the target, the status in words, colour and picture, the reason for
/// a loss, the line, the test result, the panel, the scan and the switch.
pub proof fn law_window_shows_its_state(m: &AppModel, r: MainWindow)
    requires
        call_ensures(AppModel::render, (m,), r),
    ensures
        r.target@ == match m.saved_server {
            Some(addr) => addr@,
            None => "尚未配置"@,
        },
        m.status == HeartStatus::NotConfigured ==> r.status_text@ == "尚未配置服务地址"@
            && r.status_tone == Tone::Muted && r.status_icon == StatusIcon::Info,
        m.status == HeartStatus::Waiting ==> r.status_text@ == "等待首次连通心跳服务"@
            && r.status_tone == Tone::Warning && r.status_icon == StatusIcon::BatteryCharging,
        m.status == HeartStatus::Connected ==> r.status_text@ == "服务在线，心跳正常"@
            && r.status_tone == Tone::Success && r.status_icon == StatusIcon::CircleCheck,
        m.status == HeartStatus::Lost ==> r.status_text@ == "心跳丢失！服务可能已离线"@
            && r.status_tone == Tone::Danger && r.status_icon == StatusIcon::TriangleAlert,
        banner(r.lost) == match m.lost_detail {
            Some(d) => Some((BannerKind::Error, "丢失原因: "@ + d@)),
            None => None,
        },
        banner(r.hint) == match m.hint {
            Some(h) => Some(
                (
                    if h.is_error {
                        BannerKind::Error
                    } else {
                        BannerKind::Info
                    },
                    h.text@,
                ),
            ),
            None => None,
        },
        banner(r.test) == match m.test_result {
            Some(Ok(t)) => Some((BannerKind::Success, t@)),
            Some(Err(t)) => Some((BannerKind::Error, t@)),
            None => None,
        },
        r.config_open == m.config_open && r.autostart == m.autostart,
        r.scan_disabled == m.scanning,
        m.scanning ==> r.scan_label@ == "扫描中…"@,
        !m.scanning ==> r.scan_label@ == "扫描局域网"@,
{
    lemma_fields(*m);
    assert(banner(r.lost) == match r@.lost {
        Some(b) => Some((b.kind, b.text)),
        None => None,
    });
    assert(banner(r.hint) == match r@.hint {
        Some(b) => Some((b.kind, b.text)),
        None => None,
    });
    assert(banner(r.test) == match r@.test {
        Some(b) => Some((b.kind, b.text)),
        None => None,
    });
}

/// The empty address field names the default port.
pub proof fn law_placeholder_names_the_port(r: String)
    requires
        call_ensures(input_placeholder, (), r),
    ensures
        r@ == "例如: 192.168.1.100（默认端口 "@ + "8123"@ + "）"@,
{
    reveal_strlit("8123");
    reveal_with_fuel(text::decimal_digits, 5);
    assert(text::decimal_digits(8123) =~= "8123"@);
}

/// The countdown begins at sixty, loses one second with each tick, and shuts down exactly when none
/// is left.
pub proof fn law_countdown_ticks(fresh: CountdownView, c: &mut CountdownView, r: Option<AppEvent>)
    requires
        call_ensures(CountdownView::new, (), fresh),
        call_ensures(CountdownView::tick, (c,), r),
    ensures
        fresh.remaining == 60,
        old(c).remaining > 0 ==> final(c).remaining == old(c).remaining - 1,
        old(c).remaining == 0 ==> final(c).remaining == 0,
        r is Some <==> final(c).remaining == 0,
        r matches Some(event) ==> event is ShutdownNow,
{
}

/// The countdown shows its seconds, and its buttons say and send what they are for.
pub proof fn law_countdown_shows_its_seconds(
    c: &CountdownView,
    words: String,
    b: CountdownButton,
    label: &'static str,
    event: AppEvent,
)
    requires
        call_ensures(CountdownView::render, (c,), words),
        call_ensures(CountdownButton::label, (b,), label),
        call_ensures(CountdownButton::pressed, (b,), event),
    ensures
        words@ == text::decimal_digits(c.remaining as nat) + " 秒后将自动关机"@,
        b is ShutdownNow ==> label@ == "立即关机"@ && event is ShutdownNow,
        b is Cancel ==> label@ == "取消关机"@ && event is CountdownAction
            && event->CountdownAction_0 == CountdownChoice::Cancel,
        b is Later ==> label@ == "稍后关机 (30s)"@ && event is CountdownAction
            && event->CountdownAction_0 == CountdownChoice::Later,
{
}

/// The shutdown is at once, with its reason, and the old configuration lies below the application
/// data.
pub proof fn law_paths_and_words(
    args: Vec<&'static str>,
    appdata: Option<String>,
    path: Option<Vec<String>>,
)
    requires
        call_ensures(shutdown_args, (), args),
        call_ensures(legacy_config_path, (appdata,), path),
    ensures
        args@.len() == 5 && args@[0]@ == "/s"@ && args@[1]@ == "/t"@ && args@[2]@ == "0"@
            && args@[3]@ == "/c"@ && args@[4]@ == "自动关机守护：心跳失联自动关机"@,
        appdata is None ==> path is None,
        appdata matches Some(base) ==> (path matches Some(parts) && parts@.len() == 3 && parts@[0]@
            == base@ && parts@[1]@ == "auto-shutdown"@ && parts@[2]@ == "config.json"@),
{
    let words = args@.map_values(|a: &'static str| a@);
    assert(words.len() == args@.len());
    assert(words[0] == args@[0]@ && words[1] == args@[1]@ && words[2] == args@[2]@ && words[3]
        == args@[3]@ && words[4] == args@[4]@);
}

} // verus!
