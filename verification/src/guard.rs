//! What holds of the monitor and the main window together.
//!
//! The two run in threads of their own and are joined by queues: events go from the monitor to the
//! window, and commands go the other way. Each side may lag behind the other by any amount.
use vstd::prelude::*;

use crate::app::{EffectView, ModelView};
use crate::app_history::{self, ModelStep};
use crate::events::{AppEventView, CountdownChoice, DeviceView, HeartStatus, MonitorCommandView};
use crate::history::{self, reports, MonitorStep};
use crate::monitor::MonitorView;

verus! {

/// The monitor, the main window, and what is under way between them.
pub struct GuardView {
    pub monitor: MonitorView,
    pub window: ModelView,
    /// Events that the monitor has sent and the window has not got yet, the oldest first.
    pub events: Seq<AppEventView>,
    /// Commands that the window has sent and the monitor has not got yet, the oldest first.
    pub commands: Seq<MonitorCommandView>,
    /// Generations of the snooze timers that are running.
    pub timers: Set<u64>,
    /// Whether the last report on the heartbeat that the window got was a loss.
    pub heard_loss: bool,
}

/// One step of the guard.
pub enum GuardStep {
    /// The monitor exchanges a heartbeat.
    Beat(MonitorStep),
    /// The monitor gets the oldest command. A scan or a test that it asks for has this result.
    Obey { scan: Result<Seq<DeviceView>, Seq<char>>, test: Result<Seq<char>, Seq<char>> },
    /// The window gets the oldest event of the monitor.
    Deliver { now: u64 },
    /// A snooze timer runs out.
    Timer { generation: u64, now: u64 },
    /// The user, the tray or the countdown makes the window take a step.
    Window(ModelStep),
}

/// The event comes from the monitor.
pub open spec fn is_of_monitor(event: AppEventView) -> bool {
    match event {
        AppEventView::HeartbeatOk => true,
        AppEventView::HeartbeatLost { .. } => true,
        AppEventView::TargetAutoChanged { .. } => true,
        AppEventView::ScanFinished(_) => true,
        AppEventView::TestFinished(_) => true,
        _ => false,
    }
}

/// The step can happen: a target comes by a command, what the monitor has to say comes by its
/// queue, and a timer runs out only where it is running.
pub open spec fn can_happen(g: GuardView, s: GuardStep) -> bool {
    match s {
        GuardStep::Beat(step) => !(step is SetTarget),
        GuardStep::Obey { .. } => g.commands.len() > 0,
        GuardStep::Deliver { .. } => g.events.len() > 0,
        GuardStep::Timer { generation, .. } => g.timers.contains(generation),
        GuardStep::Window(ModelStep::Event { event, .. }) => !is_of_monitor(event),
        GuardStep::Window(ModelStep::Snooze { .. }) => false,
        GuardStep::Window(_) => true,
    }
}

/// The commands among some effects, in order.
pub open spec fn commands_of(effects: Seq<EffectView>) -> Seq<MonitorCommandView>
    decreases effects.len(),
{
    if effects.len() == 0 {
        Seq::empty()
    } else {
        let before = commands_of(effects.drop_last());
        match effects.last() {
            EffectView::Send(command) => before.push(command),
            _ => before,
        }
    }
}

/// The timers that run after some effects.
pub open spec fn timers_after(timers: Set<u64>, effects: Seq<EffectView>) -> Set<u64>
    decreases effects.len(),
{
    if effects.len() == 0 {
        timers
    } else {
        let before = timers_after(timers, effects.drop_last());
        match effects.last() {
            EffectView::StartSnooze { generation, .. } => before.insert(generation),
            _ => before,
        }
    }
}

/// The guard after the window took a step.
pub open spec fn window_steps(g: GuardView, s: ModelStep) -> GuardView {
    let (window, effects) = app_history::step(g.window, s);
    GuardView {
        window,
        commands: g.commands + commands_of(effects),
        timers: timers_after(g.timers, effects),
        ..g
    }
}

/// Whether the last report heard is a loss, after one more event.
pub open spec fn heard(loss: bool, event: AppEventView) -> bool {
    match event {
        AppEventView::HeartbeatOk => false,
        AppEventView::HeartbeatLost { .. } => true,
        _ => loss,
    }
}

/// The guard after one step.
pub open spec fn after(g: GuardView, s: GuardStep) -> GuardView {
    match s {
        GuardStep::Beat(step) => {
            let (monitor, sent) = history::step(g.monitor, step);
            GuardView { monitor, events: g.events + sent, ..g }
        },
        GuardStep::Obey { scan, test } => {
            let rest = GuardView { commands: g.commands.drop_first(), ..g };
            match g.commands.first() {
                MonitorCommandView::SetTarget(target) => GuardView {
                    monitor: MonitorView::fresh(target),
                    ..rest
                },
                MonitorCommandView::Scan => GuardView {
                    events: g.events.push(AppEventView::ScanFinished(scan)),
                    ..rest
                },
                MonitorCommandView::Test(_) => GuardView {
                    events: g.events.push(AppEventView::TestFinished(test)),
                    ..rest
                },
            }
        },
        GuardStep::Deliver { now } => {
            let event = g.events.first();
            let shown = window_steps(g, ModelStep::Event { event, now });
            GuardView {
                events: g.events.drop_first(),
                heard_loss: heard(g.heard_loss, event),
                ..shown
            }
        },
        GuardStep::Timer { generation, now } => {
            let shown = window_steps(g, ModelStep::Snooze { generation, now });
            GuardView { timers: shown.timers.remove(generation), ..shown }
        },
        GuardStep::Window(step) => window_steps(g, step),
    }
}

/// The guard at start: nothing is monitored yet, and a scan is asked for.
pub open spec fn at_start(autostart: bool) -> GuardView {
    GuardView {
        monitor: MonitorView::fresh(None),
        window: ModelView::initial(autostart),
        events: Seq::empty(),
        commands: seq![MonitorCommandView::Scan],
        timers: Set::empty(),
        heard_loss: false,
    }
}

/// The guard after all of `steps`.
pub open spec fn after_all(g: GuardView, steps: Seq<GuardStep>) -> GuardView
    decreases steps.len(),
{
    if steps.len() == 0 {
        g
    } else {
        after(after_all(g, steps.drop_last()), steps.last())
    }
}

/// Every one of `steps` can happen when its turn comes.
pub open spec fn can_all_happen(g: GuardView, steps: Seq<GuardStep>) -> bool
    decreases steps.len(),
{
    if steps.len() == 0 {
        true
    } else {
        &&& can_all_happen(g, steps.drop_last())
        &&& can_happen(after_all(g, steps.drop_last()), steps.last())
    }
}

/// Whether the last report is a loss, when all of `events` have been heard.
pub open spec fn heard_all(loss: bool, events: Seq<AppEventView>) -> bool
    decreases events.len(),
{
    if events.len() == 0 {
        loss
    } else {
        heard(heard_all(loss, events.drop_last()), events.last())
    }
}

/// None of the losses among `events` follows another one without a recovery in between, where
/// `loss` says whether the last report before them was a loss.
pub open spec fn in_order(loss: bool, events: Seq<AppEventView>) -> bool {
    forall|i: int|
        0 <= i < events.len() && #[trigger] events[i] is HeartbeatLost ==> !heard_all(
            loss,
            events.take(i),
        )
}

/// What every guard keeps.
pub open spec fn is_sound(g: GuardView) -> bool {
    &&& history::is_consistent(g.monitor)
    &&& app_history::is_consistent(g.window)
    &&& g.window.status == HeartStatus::Connected ==> !g.window.countdown
    &&& forall|i: int| 0 <= i < g.events.len() ==> is_of_monitor(#[trigger] g.events[i])
    &&& in_order(g.heard_loss, g.events)
    &&& g.monitor.armed && !g.monitor.reported_lost ==> !heard_all(g.heard_loss, g.events)
}

/// In every state that the guard can come to, the countdown is closed while the service is known to
/// be up, and no loss is on its way to the window that follows another without a recovery in
/// between, not even across a change of the target.
pub proof fn law_guard_stays_sound(autostart: bool, steps: Seq<GuardStep>)
    requires
        can_all_happen(at_start(autostart), steps),
    ensures
        is_sound(after_all(at_start(autostart), steps)),
    decreases steps.len(),
{
    if steps.len() > 0 {
        law_guard_stays_sound(autostart, steps.drop_last());
        lemma_step_keeps_sound(after_all(at_start(autostart), steps.drop_last()), steps.last());
    }
}

/// As long as no heartbeat has succeeded, the countdown never opens, whatever else happens: a
/// service that was never up causes no shutdown.
pub proof fn law_no_countdown_before_first_success(autostart: bool, steps: Seq<GuardStep>)
    requires
        can_all_happen(at_start(autostart), steps),
        forall|i: int|
            0 <= i < steps.len() ==> !(#[trigger] steps[i] matches GuardStep::Beat(beat)
                && beat is Success),
    ensures
        !after_all(at_start(autostart), steps).window.countdown,
        !after_all(at_start(autostart), steps).monitor.armed,
        after_all(at_start(autostart), steps).window.status != HeartStatus::Lost,
        reports(after_all(at_start(autostart), steps).events).len() == 0,
    decreases steps.len(),
{
    if steps.len() > 0 {
        let rest = steps.drop_last();
        let s = steps.last();
        assert forall|i: int| 0 <= i < rest.len() implies !(#[trigger] rest[i]
            matches GuardStep::Beat(beat) && beat is Success) by {
            assert(rest[i] == steps[i]);
        }
        assert(steps[steps.len() - 1] == s);
        law_no_countdown_before_first_success(autostart, rest);
        law_guard_stays_sound(autostart, rest);
        let g = after_all(at_start(autostart), rest);
        match s {
            GuardStep::Beat(beat) => {
                let sent = history::step(g.monitor, beat).1;
                assert(sent =~= Seq::empty());
                assert(g.events + sent =~= g.events);
            },
            GuardStep::Obey { scan, test } => {
                lemma_reports_push(g.events, AppEventView::ScanFinished(scan));
                lemma_reports_push(g.events, AppEventView::TestFinished(test));
            },
            GuardStep::Deliver { now } => {
                lemma_reports_first(g.events);
                lemma_stays_closed(g.window, ModelStep::Event { event: g.events.first(), now });
            },
            GuardStep::Timer { generation, now } => {
                lemma_stays_closed(g.window, ModelStep::Snooze { generation, now });
            },
            GuardStep::Window(step) => {
                lemma_stays_closed(g.window, step);
            },
        }
    }
}

/// Some of the commands sets a target.
pub open spec fn sets_target(commands: Seq<MonitorCommandView>) -> bool {
    exists|i: int| 0 <= i < commands.len() && (#[trigger] commands[i]) is SetTarget
}

/// The event is the end of a scan that found a device, which the window takes for the new target.
pub open spec fn finds_target(event: AppEventView) -> bool {
    event matches AppEventView::ScanFinished(Ok(devices)) && devices.len() > 0
}

/// A new target is on its way: to the monitor as a command, or to the window as a device found.
pub open spec fn target_under_way(g: GuardView) -> bool {
    ||| sets_target(g.commands)
    ||| exists|i: int| 0 <= i < g.events.len() && finds_target(#[trigger] g.events[i])
}

/// The status that a window shows after a report; events of other kinds do not matter.
pub open spec fn reported(status: HeartStatus, event: AppEventView) -> HeartStatus {
    match event {
        AppEventView::HeartbeatOk => HeartStatus::Connected,
        AppEventView::HeartbeatLost { .. } => HeartStatus::Lost,
        _ => status,
    }
}

/// The status that a window shows when it has heard all reports among `events`.
pub open spec fn status_after(status: HeartStatus, events: Seq<AppEventView>) -> HeartStatus
    decreases events.len(),
{
    if events.len() == 0 {
        status
    } else {
        reported(status_after(status, events.drop_last()), events.last())
    }
}

/// When the window has got all that is on its way, it shows a loss exactly where the monitor has
/// the service lost. With nothing on its way, it shows that now.
pub open spec fn follows(g: GuardView) -> bool {
    status_after(g.window.status, g.events) == HeartStatus::Lost <==> g.monitor.reported_lost
}

/// The step crosses a loss of the old target: the monitor gets the last of the new targets while
/// the window still shows the loss, or has yet to hear of it and will then take it for one of the
/// new target.
pub open spec fn crosses(g: GuardView, s: GuardStep) -> bool {
    &&& s is Obey
    &&& g.commands.first() is SetTarget
    &&& !target_under_way(after(g, s))
    &&& status_after(g.window.status, g.events) == HeartStatus::Lost
}

/// None of `steps` crosses a loss.
pub open spec fn none_crosses(g: GuardView, steps: Seq<GuardStep>) -> bool
    decreases steps.len(),
{
    if steps.len() == 0 {
        true
    } else {
        &&& none_crosses(g, steps.drop_last())
        &&& !crosses(after_all(g, steps.drop_last()), steps.last())
    }
}

/// While no new target is on its way, the window follows the monitor: it shows a loss exactly where
/// the monitor has the service lost, as soon as it has got what is on its way. The one exception is
/// a loss that crosses a new target.
pub proof fn law_window_follows_the_monitor(autostart: bool, steps: Seq<GuardStep>)
    requires
        can_all_happen(at_start(autostart), steps),
        none_crosses(at_start(autostart), steps),
    ensures
        ({
            let g = after_all(at_start(autostart), steps);
            &&& !target_under_way(g) ==> follows(g)
            &&& !target_under_way(g) && g.events.len() == 0 ==> (g.window.status
                == HeartStatus::Lost <==> g.monitor.reported_lost)
        }),
    decreases steps.len(),
{
    if steps.len() > 0 {
        law_window_follows_the_monitor(autostart, steps.drop_last());
        law_guard_stays_sound(autostart, steps.drop_last());
        lemma_step_follows(after_all(at_start(autostart), steps.drop_last()), steps.last());
    }
}

/// The window hears of a recovery in this step.
pub open spec fn hears_recovery(g: GuardView, s: GuardStep) -> bool {
    s is Deliver && g.events.first() is HeartbeatOk
}

/// The user puts the shutdown off in this step.
pub open spec fn puts_off(s: GuardStep) -> bool {
    s matches GuardStep::Window(ModelStep::Event { event, .. }) && event
        == AppEventView::CountdownAction(CountdownChoice::Later)
}

/// In none of `steps` the window hears of a recovery, or the user puts the shutdown off.
pub open spec fn stays_lost(g: GuardView, steps: Seq<GuardStep>) -> bool
    decreases steps.len(),
{
    if steps.len() == 0 {
        true
    } else {
        &&& stays_lost(g, steps.drop_last())
        &&& !hears_recovery(after_all(g, steps.drop_last()), steps.last())
        &&& !puts_off(steps.last())
    }
}

/// The user cancels the shutdown in this step.
pub open spec fn cancel(now: u64) -> GuardStep {
    GuardStep::Window(
        ModelStep::Event { event: AppEventView::CountdownAction(CountdownChoice::Cancel), now },
    )
}

/// A timer is running that would bring the countdown back.
pub open spec fn has_current_timer(g: GuardView) -> bool {
    g.timers.contains(g.window.snooze_gen)
}

/// After the user has cancelled the shutdown of a loss, no countdown opens until the window hears
/// that the heartbeat has recovered, whatever the monitor and the network do meanwhile. That is, as
/// long as the user does not put the shutdown off themselves, neither later nor by a timer that is
/// still running when they cancel.
pub proof fn law_cancel_holds_until_recovery(
    autostart: bool,
    past: Seq<GuardStep>,
    now: u64,
    steps: Seq<GuardStep>,
)
    requires
        can_all_happen(at_start(autostart), past),
        after_all(at_start(autostart), past).heard_loss,
        !has_current_timer(after_all(at_start(autostart), past)),
        can_all_happen(after(after_all(at_start(autostart), past), cancel(now)), steps),
        stays_lost(after(after_all(at_start(autostart), past), cancel(now)), steps),
    ensures
        !after_all(
            after(after_all(at_start(autostart), past), cancel(now)),
            steps,
        ).window.countdown,
{
    law_guard_stays_sound(autostart, past);
    let g = after_all(at_start(autostart), past);
    lemma_cancel(g, now);
    lemma_cancelled(after(g, cancel(now)), steps);
}

/// What cancelling does.
proof fn lemma_cancel(g: GuardView, now: u64)
    requires
        is_sound(g),
    ensures
        is_sound(after(g, cancel(now))),
        !after(g, cancel(now)).window.countdown,
        after(g, cancel(now)).heard_loss == g.heard_loss,
        after(g, cancel(now)).timers == g.timers,
        after(g, cancel(now)).window.snooze_gen == g.window.snooze_gen,
{
    let event = AppEventView::CountdownAction(CountdownChoice::Cancel);
    lemma_step_keeps_sound(g, cancel(now));
    lemma_timers(g, ModelStep::Event { event, now });
}

/// A cancelled shutdown stays cancelled.
proof fn lemma_cancelled(g: GuardView, steps: Seq<GuardStep>)
    requires
        is_sound(g),
        g.heard_loss,
        !g.window.countdown,
        !has_current_timer(g),
        can_all_happen(g, steps),
        stays_lost(g, steps),
    ensures
        is_sound(after_all(g, steps)),
        after_all(g, steps).heard_loss,
        !after_all(g, steps).window.countdown,
        !has_current_timer(after_all(g, steps)),
    decreases steps.len(),
{
    if steps.len() > 0 {
        lemma_cancelled(g, steps.drop_last());
        let h = after_all(g, steps.drop_last());
        let s = steps.last();
        lemma_step_keeps_sound(h, s);
        match s {
            GuardStep::Deliver { now } => {
                let event = h.events.first();
                if event is HeartbeatLost {
                    assert(h.events[0] is HeartbeatLost);
                    assert(h.events.take(0) =~= Seq::empty());
                }
                assert(is_of_monitor(h.events[0]));
                let step = ModelStep::Event { event, now };
                lemma_timers(h, step);
                app_history::law_countdown_is_tracked(h.window, step);
                if app_history::opens_countdown(h.window, step) {
                    app_history::law_countdown_needs_a_loss(h.window, step);
                }
            },
            GuardStep::Timer { generation, now } => {
                let step = ModelStep::Snooze { generation, now };
                lemma_timers(h, step);
            },
            GuardStep::Window(step) => {
                lemma_timers(h, step);
                app_history::law_countdown_is_tracked(h.window, step);
                if app_history::opens_countdown(h.window, step) {
                    app_history::law_countdown_needs_a_loss(h.window, step);
                }
            },
            _ => {},
        }
    }
}

/// A step by which the user does not put the shutdown off leaves the timers alone, and, without a
/// recovery, the generation that counts.
proof fn lemma_timers(g: GuardView, s: ModelStep)
    requires
        !puts_off(GuardStep::Window(s)),
    ensures
        window_steps(g, s).timers == g.timers,
        !(s matches ModelStep::Event { event, .. } && event is HeartbeatOk) ==> window_steps(
            g,
            s,
        ).window.snooze_gen == g.window.snooze_gen,
{
    let effects = app_history::step(g.window, s).1;
    assert forall|i: int| 0 <= i < effects.len() implies !(#[trigger] effects[i]
        is StartSnooze) by {}
    lemma_no_timer(g.timers, effects);
}

/// Effects that put nothing off start no timer.
proof fn lemma_no_timer(timers: Set<u64>, effects: Seq<EffectView>)
    requires
        forall|i: int| 0 <= i < effects.len() ==> !(#[trigger] effects[i] is StartSnooze),
    ensures
        timers_after(timers, effects) == timers,
    decreases effects.len(),
{
    if effects.len() > 0 {
        let rest = effects.drop_last();
        assert forall|i: int| 0 <= i < rest.len() implies !(#[trigger] rest[i] is StartSnooze) by {
            assert(rest[i] == effects[i]);
        }
        lemma_no_timer(timers, rest);
        assert(!(effects[effects.len() - 1] is StartSnooze));
    }
}

/// Every step keeps the guard sound.
proof fn lemma_step_keeps_sound(g: GuardView, s: GuardStep)
    requires
        is_sound(g),
        can_happen(g, s),
    ensures
        is_sound(after(g, s)),
{
    match s {
        GuardStep::Beat(beat) => {
            let sent = history::step(g.monitor, beat).1;
            history::law_monitor_stays_consistent(g.monitor, beat);
            history::lemma_reports_of_step(g.monitor, beat);
            lemma_sent(g.monitor, beat);
            lemma_heard_more(g.heard_loss, g.events, sent);
        },
        GuardStep::Obey { scan, test } => {
            lemma_heard_more(g.heard_loss, g.events, seq![AppEventView::ScanFinished(scan)]);
            lemma_heard_more(g.heard_loss, g.events, seq![AppEventView::TestFinished(test)]);
            assert(g.events.push(AppEventView::ScanFinished(scan)) =~= g.events + seq![
                AppEventView::ScanFinished(scan),
            ]);
            assert(g.events.push(AppEventView::TestFinished(test)) =~= g.events + seq![
                AppEventView::TestFinished(test),
            ]);
        },
        GuardStep::Deliver { now } => {
            let step = ModelStep::Event { event: g.events.first(), now };
            app_history::law_window_stays_consistent(g.window, step);
            lemma_heard_first(g.heard_loss, g.events);
        },
        GuardStep::Timer { generation, now } => {
            let step = ModelStep::Snooze { generation, now };
            app_history::law_window_stays_consistent(g.window, step);
        },
        GuardStep::Window(step) => {
            app_history::law_window_stays_consistent(g.window, step);
        },
    }
}

/// What a heartbeat sends, and what that says of a loss.
proof fn lemma_sent(m: MonitorView, s: MonitorStep)
    requires
        !(s is SetTarget),
    ensures
        ({
            let (after, sent) = history::step(m, s);
            ||| sent.len() == 0 && after.reported_lost == m.reported_lost
            ||| sent.len() == 1 && sent[0] is HeartbeatLost && after.reported_lost && m.armed
                && !m.reported_lost
            ||| sent.len() == 1 && sent[0] is HeartbeatOk && !after.reported_lost
            ||| sent.len() == 1 && sent[0] is TargetAutoChanged && after.reported_lost
                == m.reported_lost && after.armed == m.armed
            ||| sent.len() == 2 && sent[0] is TargetAutoChanged && sent[1] is HeartbeatOk
                && !after.reported_lost
        }),
{
}

/// A few more events at the end of the queue.
proof fn lemma_heard_more(loss: bool, events: Seq<AppEventView>, more: Seq<AppEventView>)
    requires
        in_order(loss, events),
        more.len() <= 2,
        more.len() > 0 && more[0] is HeartbeatLost ==> !heard_all(loss, events),
        more.len() == 2 ==> !(more[1] is HeartbeatLost),
    ensures
        in_order(loss, events + more),
        more.len() == 0 ==> heard_all(loss, events + more) == heard_all(loss, events),
        more.len() == 1 ==> heard_all(loss, events + more) == heard(
            heard_all(loss, events),
            more[0],
        ),
        more.len() == 2 ==> heard_all(loss, events + more) == heard(
            heard(heard_all(loss, events), more[0]),
            more[1],
        ),
{
    let all = events + more;
    let n = events.len() as int;
    assert forall|i: int| 0 <= i < all.len() && #[trigger] all[i] is HeartbeatLost implies !heard_all(
        loss,
        all.take(i),
    ) by {
        if i < n {
            assert(all[i] == events[i]);
            assert(all.take(i) =~= events.take(i));
        } else {
            assert(all[i] == more[i - n]);
            assert(i == n);
            assert(all.take(i) =~= events);
        }
    }
    if more.len() == 0 {
        assert(all =~= events);
    } else if more.len() == 1 {
        assert(all.drop_last() =~= events);
    } else {
        assert(all.drop_last().drop_last() =~= events);
        assert(all.drop_last().last() == more[0]);
        assert(all.last() == more[1]);
        assert(heard_all(loss, all.drop_last()) == heard(heard_all(loss, events), more[0]));
    }
}

/// The first event of the queue has been heard.
proof fn lemma_heard_first(loss: bool, events: Seq<AppEventView>)
    requires
        events.len() > 0,
    ensures
        heard_all(heard(loss, events.first()), events.drop_first()) == heard_all(loss, events),
        in_order(loss, events) ==> in_order(heard(loss, events.first()), events.drop_first()),
    decreases events.len(),
{
    lemma_heard_split(loss, events);
    if in_order(loss, events) {
        let rest = events.drop_first();
        assert forall|i: int| 0 <= i < rest.len() && #[trigger] rest[i] is HeartbeatLost implies !heard_all(
            heard(loss, events.first()),
            rest.take(i),
        ) by {
            assert(rest[i] == events[i + 1]);
            let part = events.take(i + 1);
            lemma_heard_split(loss, part);
            assert(part.first() == events.first());
            assert(part.drop_first() =~= rest.take(i));
        }
    }
}

/// Hearing the first event, and then the rest, is hearing all.
proof fn lemma_heard_split(loss: bool, events: Seq<AppEventView>)
    requires
        events.len() > 0,
    ensures
        heard_all(heard(loss, events.first()), events.drop_first()) == heard_all(loss, events),
    decreases events.len(),
{
    if events.len() == 1 {
        assert(events.drop_first() =~= Seq::empty());
        assert(events.drop_last() =~= Seq::empty());
        assert(heard_all(loss, events.drop_last()) == loss);
    } else {
        lemma_heard_split(loss, events.drop_last());
        assert(events.drop_last().first() == events.first());
        assert(events.drop_last().drop_first() =~= events.drop_first().drop_last());
        assert(events.drop_first().last() == events.last());
    }
}

/// A window that shows no loss keeps the countdown closed, unless it hears of a loss.
proof fn lemma_stays_closed(window: ModelView, s: ModelStep)
    requires
        !window.countdown,
        window.status != HeartStatus::Lost,
        !(s matches ModelStep::Event { event, .. } && event is HeartbeatLost),
    ensures
        !app_history::step(window, s).0.countdown,
        app_history::step(window, s).0.status != HeartStatus::Lost,
{
    app_history::law_countdown_is_tracked(window, s);
    if app_history::opens_countdown(window, s) {
        app_history::law_countdown_needs_a_loss(window, s);
    }
}

/// An event that is no report at the end of the queue.
proof fn lemma_reports_push(events: Seq<AppEventView>, event: AppEventView)
    requires
        !(event is HeartbeatOk),
        !(event is HeartbeatLost),
    ensures
        reports(events.push(event)) == reports(events),
{
    assert(events.push(event).drop_last() =~= events);
}

/// A queue without reports begins with none, and has none behind its first event.
proof fn lemma_reports_first(events: Seq<AppEventView>)
    requires
        events.len() > 0,
        reports(events).len() == 0,
    ensures
        !(events.first() is HeartbeatOk),
        !(events.first() is HeartbeatLost),
        reports(events.drop_first()).len() == 0,
{
    let first = seq![events.first()];
    assert(events =~= first + events.drop_first());
    history::lemma_reports_join(first, events.drop_first());
    assert(first.drop_last() =~= Seq::empty());
    reveal_with_fuel(reports, 2);
}

/// Where no loss crosses a new target, a step keeps the window following the monitor.
proof fn lemma_step_follows(g: GuardView, s: GuardStep)
    requires
        can_happen(g, s),
        !crosses(g, s),
        !target_under_way(g) ==> follows(g),
    ensures
        !target_under_way(after(g, s)) ==> follows(after(g, s)),
{
    let h = after(g, s);
    if !target_under_way(h) {
        match s {
            GuardStep::Beat(beat) => {
                let sent = history::step(g.monitor, beat).1;
                assert forall|i: int| 0 <= i < g.events.len() implies !finds_target(
                    #[trigger] g.events[i],
                ) by {
                    assert(h.events[i] == g.events[i]);
                }
                lemma_sent(g.monitor, beat);
                lemma_status_more(g.window.status, g.events, sent);
            },
            GuardStep::Obey { scan, test } => {
                let first = g.commands.first();
                assert forall|i: int| 0 < i < g.commands.len() implies !(#[trigger] g.commands[i]
                    is SetTarget) by {
                    assert(h.commands[i - 1] == g.commands[i]);
                }
                assert forall|i: int| 0 <= i < g.events.len() implies !finds_target(
                    #[trigger] g.events[i],
                ) by {
                    assert(h.events[i] == g.events[i]);
                }
                if !(first is SetTarget) {
                    let more = if first is Scan {
                        seq![AppEventView::ScanFinished(scan)]
                    } else {
                        seq![AppEventView::TestFinished(test)]
                    };
                    assert(h.events =~= g.events + more);
                    lemma_status_more(g.window.status, g.events, more);
                }
            },
            GuardStep::Deliver { now } => {
                let event = g.events.first();
                let step = ModelStep::Event { event, now };
                lemma_no_target_sent(g, step);
                assert(!finds_target(event)) by {
                    lemma_sends_target(g.window, step);
                }
                assert forall|i: int| 0 <= i < g.events.len() implies !finds_target(
                    #[trigger] g.events[i],
                ) by {
                    if i > 0 {
                        assert(h.events[i - 1] == g.events[i]);
                    }
                }
                lemma_sends_target(g.window, step);
                lemma_status_first(g.window.status, g.events);
            },
            GuardStep::Timer { generation, now } => {
                let step = ModelStep::Snooze { generation, now };
                lemma_no_target_sent(g, step);
                lemma_sends_target(g.window, step);
            },
            GuardStep::Window(step) => {
                lemma_no_target_sent(g, step);
                lemma_sends_target(g.window, step);
            },
        }
    }
}

/// A step of the window that leaves no target under way to the monitor sent none, and there was
/// none before.
proof fn lemma_no_target_sent(g: GuardView, s: ModelStep)
    requires
        !sets_target(window_steps(g, s).commands),
    ensures
        !sets_target(g.commands),
        !sets_target(commands_of(app_history::step(g.window, s).1)),
{
    let new = commands_of(app_history::step(g.window, s).1);
    let all = g.commands + new;
    assert forall|i: int| 0 <= i < g.commands.len() implies !(#[trigger] g.commands[i]
        is SetTarget) by {
        assert(all[i] == g.commands[i]);
    }
    assert forall|i: int| 0 <= i < new.len() implies !(#[trigger] new[i] is SetTarget) by {
        assert(all[g.commands.len() + i] == new[i]);
    }
}

/// A step of the window sends a new target, and a scan that found a device always does, or it
/// leaves the status to the reports.
proof fn lemma_sends_target(window: ModelView, s: ModelStep)
    ensures
        ({
            let (shown, effects) = app_history::step(window, s);
            ||| sets_target(commands_of(effects))
            ||| shown.status == match s {
                ModelStep::Event { event, .. } => reported(window.status, event),
                _ => window.status,
            }
        }),
        s matches ModelStep::Event { event, .. } && finds_target(event) ==> sets_target(
            commands_of(app_history::step(window, s).1),
        ),
{
    reveal_with_fuel(commands_of, 4);
    let effects = app_history::step(window, s).1;
    let sent = commands_of(effects);
    if let ModelStep::Event { event, .. } = s {
        if finds_target(event) {
            assert(effects.drop_last().last() == effects[1]);
            assert(sent.last() is SetTarget);
            assert(sent[sent.len() - 1] is SetTarget);
        }
    }
    if let ModelStep::Save { input } = s {
        if effects.len() == 2 {
            assert(effects.drop_last().last() == effects[0]);
            assert(sent.last() is SetTarget);
            assert(sent[sent.len() - 1] is SetTarget);
        }
    }
}

/// A few more events at the end of the queue, and the status they come to.
proof fn lemma_status_more(
    status: HeartStatus,
    events: Seq<AppEventView>,
    more: Seq<AppEventView>,
)
    requires
        more.len() <= 2,
    ensures
        status_after(status, events + more) == if more.len() == 0 {
            status_after(status, events)
        } else if more.len() == 1 {
            reported(status_after(status, events), more[0])
        } else {
            reported(reported(status_after(status, events), more[0]), more[1])
        },
{
    let all = events + more;
    if more.len() == 0 {
        assert(all =~= events);
    } else if more.len() == 1 {
        assert(all.drop_last() =~= events);
    } else {
        assert(all.drop_last().drop_last() =~= events);
        assert(all.drop_last().last() == more[0]);
        assert(all.last() == more[1]);
        assert(status_after(status, all.drop_last()) == reported(
            status_after(status, events),
            more[0],
        ));
    }
}

/// The first event of the queue, and then the rest, come to the same status.
proof fn lemma_status_first(status: HeartStatus, events: Seq<AppEventView>)
    requires
        events.len() > 0,
    ensures
        status_after(reported(status, events.first()), events.drop_first()) == status_after(
            status,
            events,
        ),
    decreases events.len(),
{
    if events.len() == 1 {
        assert(events.drop_first() =~= Seq::empty());
        assert(events.drop_last() =~= Seq::empty());
        assert(status_after(status, events.drop_last()) == status);
    } else {
        lemma_status_first(status, events.drop_last());
        assert(events.drop_last().first() == events.first());
        assert(events.drop_last().drop_first() =~= events.drop_first().drop_last());
        assert(events.drop_first().last() == events.last());
    }
}

} // verus!
