//! What holds of the main window over time: when the countdown comes up, and when it does not.
use vstd::prelude::*;

use crate::app::{EffectView, ModelView};
use crate::events::{AppEventView, CountdownChoice, DeviceView, HeartStatus, MonitorCommandView};
use crate::protocol::{SECOND, SNOOZE_LATER_SECONDS};
use crate::tray::marked;

verus! {

/// One step in the life of the main window.
pub enum ModelStep {
    /// An event came.
    Event { event: AppEventView, now: u64 },
    /// The snooze timer of a generation ran out.
    Snooze { generation: u64, now: u64 },
    /// The shutdown could not be started.
    ShutdownFailed { message: Seq<char> },
    /// The scan button was pressed.
    Scan,
    /// The test button was pressed with this text in the address field.
    Test { input: Seq<char> },
    /// The head of the configuration panel was clicked.
    ToggleConfig,
    /// The switch for start at logon was clicked.
    ToggleAutostart,
    /// Start at logon was switched, or could not be.
    AutostartFinished { target: bool, result: Result<(), Seq<char>> },
    /// The save button was pressed with this text in the address field.
    Save { input: Seq<char> },
}

/// The window after one step, and the effects of the step.
pub open spec fn step(m: ModelView, s: ModelStep) -> (ModelView, Seq<EffectView>) {
    match s {
        ModelStep::Event { event, now } => (m.after_event(event, now), m.event_effects(event, now)),
        ModelStep::Snooze { generation, now } => (
            m.after_snooze(generation, now),
            m.snooze_effects(generation, now),
        ),
        ModelStep::ShutdownFailed { message } => (
            m.shutdown_refused(message),
            seq![EffectView::Repaint],
        ),
        ModelStep::Scan => (m.scan_started(), ModelView::scan_effects()),
        ModelStep::Test { input } => (m.testing(input), ModelView::testing_effects(input)),
        ModelStep::ToggleConfig => (m.config_toggled(), seq![EffectView::Repaint]),
        ModelStep::ToggleAutostart => (m, seq![EffectView::SetAutostart(!m.autostart)]),
        ModelStep::AutostartFinished { target, result } => (
            m.autostart_set(target, result),
            ModelView::autostart_effects(target, result),
        ),
        ModelStep::Save { input } => (m.saved(input), ModelView::saved_effects(input)),
    }
}

/// What every window keeps: the countdown is not open while it is put off, and a reason for a loss
/// is shown exactly while there is one.
pub open spec fn is_consistent(m: ModelView) -> bool {
    &&& m.snooze_until is Some ==> !m.countdown
    &&& m.lost_detail is Some <==> m.status == HeartStatus::Lost
}

/// The window is consistent at start, and every step keeps it so.
pub proof fn law_window_stays_consistent(m: ModelView, s: ModelStep)
    ensures
        forall|autostart: bool| is_consistent(#[trigger] ModelView::initial(autostart)),
        is_consistent(m) ==> is_consistent(step(m, s).0),
{
}

/// Events change only what they are about. A test result changes by the end of a test, which is
/// shown, and when the window is hidden, which clears it. The status changes by a report of the
/// monitor and by a scan that found a device. A reason for a loss is shown exactly while there is
/// one, before and after.
pub proof fn law_events_change_what_they_are_about(m: ModelView, event: AppEventView, now: u64)
    requires
        is_consistent(m),
    ensures
        ({
            let shown = m.after_event(event, now);
            &&& shown.lost_detail is Some <==> shown.status == HeartStatus::Lost
            &&& shown.test_result == match event {
                AppEventView::TestFinished(result) => Some(result),
                AppEventView::WindowHidden => None,
                _ => m.test_result,
            }
            &&& shown.status == match event {
                AppEventView::HeartbeatOk => HeartStatus::Connected,
                AppEventView::HeartbeatLost { .. } => HeartStatus::Lost,
                AppEventView::ScanFinished(Ok(devices)) => if devices.len() > 0 {
                    HeartStatus::Waiting
                } else {
                    m.status
                },
                _ => m.status,
            }
        }),
{
}

/// The window is consistent after any number of steps from its start.
pub proof fn law_window_is_always_consistent(autostart: bool, steps: Seq<ModelStep>)
    ensures
        is_consistent(history(ModelView::initial(autostart), steps).0),
    decreases steps.len(),
{
    if steps.len() > 0 {
        law_window_is_always_consistent(autostart, steps.drop_last());
        law_window_stays_consistent(
            history(ModelView::initial(autostart), steps.drop_last()).0,
            steps.last(),
        );
    }
}

/// The step opens the countdown.
pub open spec fn opens_countdown(m: ModelView, s: ModelStep) -> bool {
    step(m, s).1.contains(EffectView::OpenCountdown)
}

/// The countdown opens only while the heartbeat is lost, only where it is not open yet, and only
/// after the time for which it was put off. What opens it is the report of the loss, or the timer
/// of the last time it was put off.
pub proof fn law_countdown_needs_a_loss(m: ModelView, s: ModelStep)
    requires
        opens_countdown(m, s),
    ensures
        !m.countdown,
        step(m, s).0.countdown,
        step(m, s).0.status == HeartStatus::Lost,
        match s {
            ModelStep::Event { event, now } => event is HeartbeatLost && (m.snooze_until matches Some(
                until,
            ) ==> now >= until),
            ModelStep::Snooze { generation, now } => generation == m.snooze_gen && m.status
                == HeartStatus::Lost && (m.snooze_until matches Some(until) ==> now >= until),
            _ => false,
        },
{
    let sent = step(m, s).1;
    let i = choose|i: int| 0 <= i < sent.len() && sent[i] == EffectView::OpenCountdown;
    assert(sent[i] is OpenCountdown);
}

/// The window knows exactly whether the countdown is open: a step opens it just when it was closed
/// before and is open after, and closes it just the other way round.
pub proof fn law_countdown_is_tracked(m: ModelView, s: ModelStep)
    ensures
        opens_countdown(m, s) == (!m.countdown && step(m, s).0.countdown),
        step(m, s).1.contains(EffectView::CloseCountdown) == (m.countdown && !step(
            m,
            s,
        ).0.countdown),
{
    let (after, sent) = step(m, s);
    if opens_countdown(m, s) {
        law_countdown_needs_a_loss(m, s);
    }
    if !m.countdown && after.countdown {
        assert(sent[0] == EffectView::OpenCountdown);
    }
    if sent.contains(EffectView::CloseCountdown) {
        let i = choose|i: int| 0 <= i < sent.len() && sent[i] == EffectView::CloseCountdown;
        assert(sent[i] is CloseCountdown);
    }
    if m.countdown && !after.countdown {
        assert(sent[0] == EffectView::CloseCountdown);
    }
}

/// The heartbeat becomes lost by the report of the monitor, and by nothing else.
pub proof fn law_only_the_monitor_reports_a_loss(m: ModelView, s: ModelStep)
    requires
        m.status != HeartStatus::Lost,
        step(m, s).0.status == HeartStatus::Lost,
    ensures
        s matches ModelStep::Event { event, .. } && event is HeartbeatLost,
{
}

/// The machine is shut down when the countdown has run out or the user asks for it, and by nothing
/// else.
pub proof fn law_only_the_countdown_shuts_down(m: ModelView, s: ModelStep)
    ensures
        step(m, s).1.contains(EffectView::Shutdown) <==> (s matches ModelStep::Event { event, .. }
            && event is ShutdownNow),
{
    let sent = step(m, s).1;
    if sent.contains(EffectView::Shutdown) {
        let i = choose|i: int| 0 <= i < sent.len() && sent[i] == EffectView::Shutdown;
        assert(sent[i] is Shutdown);
    }
    if let ModelStep::Event { event, .. } = s {
        if event is ShutdownNow {
            assert(sent[sent.len() - 1] == EffectView::Shutdown);
        }
    }
}

/// When the heartbeat recovers, the countdown closes, the reason for the loss and the line about it
/// are gone, and every timer that was started before does nothing any more.
pub proof fn law_recovery_ends_the_loss(m: ModelView, now: u64, generation: u64, later: u64)
    requires
        is_consistent(m),
        m.snooze_gen < u64::MAX,
        generation <= m.snooze_gen,
    ensures
        ({
            let s = ModelStep::Event { event: AppEventView::HeartbeatOk, now };
            let timer = ModelStep::Snooze { generation, now: later };
            let after = step(m, s).0;
            &&& after.status == HeartStatus::Connected
            &&& after.lost_detail is None
            &&& !after.countdown
            &&& after.snooze_until is None
            &&& after.snooze_gen == m.snooze_gen + 1
            &&& m.status != HeartStatus::Connected ==> after.hint is None
            &&& m.countdown ==> step(m, s).1.contains(EffectView::CloseCountdown)
            &&& step(after, timer) == (after, Seq::<EffectView>::empty())
        }),
{
    let s = ModelStep::Event { event: AppEventView::HeartbeatOk, now };
    if m.countdown {
        assert(step(m, s).1[0] == EffectView::CloseCountdown);
    }
}

/// The window after all of `steps`, and the effects, in order.
pub open spec fn history(m: ModelView, steps: Seq<ModelStep>) -> (ModelView, Seq<EffectView>)
    decreases steps.len(),
{
    if steps.len() == 0 {
        (m, Seq::empty())
    } else {
        let before = history(m, steps.drop_last());
        let last = step(before.0, steps.last());
        (last.0, before.1 + last.1)
    }
}

/// The step can bring the countdown up: it reports a loss, or it is the timer of the generation
/// that counts.
pub open spec fn may_remind(m: ModelView, s: ModelStep) -> bool {
    match s {
        ModelStep::Event { event, .. } => event is HeartbeatLost,
        ModelStep::Snooze { generation, .. } => generation == m.snooze_gen,
        _ => false,
    }
}

/// After the user has cancelled the shutdown, the countdown stays away, whatever else happens,
/// until a loss is reported again or the user's own timer runs out.
pub proof fn law_cancel_keeps_quiet(m: ModelView, now: u64, steps: Seq<ModelStep>)
    requires
        ({
            let cancelled = step(
                m,
                ModelStep::Event {
                    event: AppEventView::CountdownAction(CountdownChoice::Cancel),
                    now,
                },
            ).0;
            forall|i: int|
                0 <= i < steps.len() ==> !may_remind(
                    history(cancelled, steps.take(i)).0,
                    #[trigger] steps[i],
                )
        }),
    ensures
        ({
            let cancelled = step(
                m,
                ModelStep::Event {
                    event: AppEventView::CountdownAction(CountdownChoice::Cancel),
                    now,
                },
            ).0;
            &&& !history(cancelled, steps).0.countdown
            &&& !history(cancelled, steps).1.contains(EffectView::OpenCountdown)
        }),
{
    let cancelled = step(
        m,
        ModelStep::Event { event: AppEventView::CountdownAction(CountdownChoice::Cancel), now },
    ).0;
    lemma_stays_closed(cancelled, steps);
}

/// A closed countdown stays closed over steps that cannot bring it up.
proof fn lemma_stays_closed(m: ModelView, steps: Seq<ModelStep>)
    requires
        !m.countdown,
        forall|i: int|
            0 <= i < steps.len() ==> !may_remind(history(m, steps.take(i)).0, #[trigger] steps[i]),
    ensures
        !history(m, steps).0.countdown,
        !history(m, steps).1.contains(EffectView::OpenCountdown),
    decreases steps.len(),
{
    if steps.len() > 0 {
        let rest = steps.drop_last();
        let n = rest.len() as int;
        assert forall|i: int| 0 <= i < rest.len() implies !may_remind(
            history(m, rest.take(i)).0,
            #[trigger] rest[i],
        ) by {
            assert(rest[i] == steps[i]);
            assert(rest.take(i) =~= steps.take(i));
        }
        lemma_stays_closed(m, rest);
        let before = history(m, rest);
        assert(steps.take(n) =~= rest);
        assert(steps[n] == steps.last());
        assert(!may_remind(before.0, steps.last()));
        if opens_countdown(before.0, steps.last()) {
            law_countdown_needs_a_loss(before.0, steps.last());
        }
        law_countdown_is_tracked(before.0, steps.last());
        let all = history(m, steps).1;
        if all.contains(EffectView::OpenCountdown) {
            let k = choose|k: int| 0 <= k < all.len() && all[k] == EffectView::OpenCountdown;
            let sent = step(before.0, steps.last()).1;
            if k < before.1.len() {
                assert(before.1[k] == EffectView::OpenCountdown);
            } else {
                assert(sent[k - before.1.len()] == EffectView::OpenCountdown);
            }
        }
    }
}

/// Where the user puts the shutdown off, the countdown closes, stays away until its time even if
/// the loss is reported again, and comes back by its timer as long as the loss goes on.
pub proof fn law_later_comes_back(m: ModelView, now: u64, detail: Seq<char>, early: u64, late: u64)
    requires
        m.status == HeartStatus::Lost,
        m.snooze_gen < u64::MAX,
        now + SNOOZE_LATER_SECONDS * SECOND <= u64::MAX,
        early < now + SNOOZE_LATER_SECONDS * SECOND <= late,
    ensures
        ({
            let choice = AppEventView::CountdownAction(CountdownChoice::Later);
            let (put_off, sent) = step(m, ModelStep::Event { event: choice, now });
            let again = ModelStep::Event {
                event: AppEventView::HeartbeatLost { detail },
                now: early,
            };
            let generation = put_off.snooze_gen;
            let timer = ModelStep::Snooze { generation, now: late };
            &&& !put_off.countdown
            &&& sent.contains(
                EffectView::StartSnooze { seconds: SNOOZE_LATER_SECONDS, generation },
            )
            &&& !opens_countdown(put_off, again)
            &&& !step(put_off, again).0.countdown
            &&& opens_countdown(put_off, timer)
            &&& opens_countdown(step(put_off, again).0, timer)
        }),
{
    let choice = AppEventView::CountdownAction(CountdownChoice::Later);
    let (put_off, sent) = step(m, ModelStep::Event { event: choice, now });
    let again = ModelStep::Event { event: AppEventView::HeartbeatLost { detail }, now: early };
    let generation = put_off.snooze_gen;
    let timer = ModelStep::Snooze { generation, now: late };
    assert(sent[sent.len() - 2] == EffectView::StartSnooze {
        seconds: SNOOZE_LATER_SECONDS,
        generation,
    });
    law_countdown_is_tracked(put_off, again);
    law_countdown_is_tracked(put_off, timer);
    law_countdown_is_tracked(step(put_off, again).0, timer);
}

/// Only the timer of the last time that counts: one that was started earlier does nothing.
pub proof fn law_stale_timer_does_nothing(m: ModelView, generation: u64, now: u64)
    requires
        generation != m.snooze_gen,
    ensures
        step(m, ModelStep::Snooze { generation, now }) == (m, Seq::<EffectView>::empty()),
{
}

/// The first device that a scan finds is monitored at once, and shown; nothing is lost of it yet.
pub proof fn law_found_device_is_monitored(m: ModelView, devices: Seq<DeviceView>, now: u64)
    requires
        devices.len() > 0,
    ensures
        ({
            let s = ModelStep::Event { event: AppEventView::ScanFinished(Ok(devices)), now };
            let (after, sent) = step(m, s);
            let addr = devices[0].addr;
            &&& after.saved_server == Some(addr)
            &&& after.status == HeartStatus::Waiting
            &&& !after.scanning
            &&& sent.contains(EffectView::Send(MonitorCommandView::SetTarget(Some(addr))))
        }),
{
    let s = ModelStep::Event { event: AppEventView::ScanFinished(Ok(devices)), now };
    assert(step(m, s).1[1] == EffectView::Send(
        MonitorCommandView::SetTarget(Some(devices[0].addr)),
    ));
}

/// The switch in the main window and the check mark in the tray show the same, whichever of them
/// was used: after a switch that succeeded, both show what was switched to.
pub proof fn law_switch_and_check_mark_agree(m: ModelView, item: bool, on: bool, now: u64)
    ensures
        ({
            let s = ModelStep::Event { event: AppEventView::AutostartChanged(on), now };
            marked(Some(item), on) == Some(step(m, s).0.autostart)
        }),
        ({
            let s = ModelStep::AutostartFinished { target: on, result: Ok(()) };
            &&& step(m, s).1.contains(EffectView::SyncTray(on))
            &&& marked(Some(item), on) == Some(step(m, s).0.autostart)
        }),
{
    let s = ModelStep::AutostartFinished { target: on, result: Ok(()) };
    assert(step(m, s).1[0] == EffectView::SyncTray(on));
}

} // verus!
