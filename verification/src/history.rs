//! What holds of the monitor over time: the steps of its life and the laws of its reports.
use vstd::prelude::*;

use crate::events::{AppEventView, DeviceView};
use crate::monitor::{elapsed, find_device, is_monitored_device, lost_detail, MonitorView};
use crate::protocol::HEARTBEAT_TIMEOUT;

verus! {

/// One step in the life of a monitor.
pub enum MonitorStep {
    /// The target was set.
    SetTarget(Option<Seq<char>>),
    /// A heartbeat to the target succeeded.
    Success { id: Option<Seq<char>>, now: u64 },
    /// A heartbeat to the target failed at `now`; where that called for a probe, its scan was
    /// done at `later`.
    Failure {
        error: Seq<char>,
        now: u64,
        scan: Result<Seq<DeviceView>, Seq<char>>,
        later: u64,
    },
}

/// The monitor after one step, and the events that the step sent.
pub open spec fn step(m: MonitorView, s: MonitorStep) -> (MonitorView, Seq<AppEventView>) {
    match (s, m.target) {
        (MonitorStep::SetTarget(target), _) => (MonitorView::fresh(target), Seq::empty()),
        (_, None) => (m, Seq::empty()),
        (MonitorStep::Success { id, now }, Some(_)) => (
            m.after_success(id, now),
            m.success_events(),
        ),
        (MonitorStep::Failure { error, now, scan, later }, Some(addr)) => {
            let failed = m.after_failure(now);
            let since_ok = m.since_ok(now);
            if m.wants_probe(now) {
                let found = failed.found(addr, scan);
                let probed = failed.after_probe(addr, found, later);
                (
                    probed.after_judging(since_ok, later),
                    failed.probe_events(addr, found) + probed.judging_events(
                        since_ok,
                        error,
                        later,
                    ),
                )
            } else {
                (failed.after_judging(since_ok, now), failed.judging_events(since_ok, error, now))
            }
        },
    }
}

/// The monitor after all of `steps`, and the events that they sent, in order.
pub open spec fn history(m: MonitorView, steps: Seq<MonitorStep>) -> (
    MonitorView,
    Seq<AppEventView>,
)
    decreases steps.len(),
{
    if steps.len() == 0 {
        (m, Seq::empty())
    } else {
        let before = history(m, steps.drop_last());
        let last = step(before.0, steps.last());
        (last.0, before.1 + last.1)
    }
}

/// What every monitor keeps: it is armed by a success only, and reports a loss only when armed.
pub open spec fn is_consistent(m: MonitorView) -> bool {
    &&& m.armed ==> m.last_ok is Some && m.last_seen_alive is Some && m.target is Some
    &&& m.reported_lost ==> m.armed
}

/// Every step keeps the monitor consistent, and a fresh one is.
pub proof fn law_monitor_stays_consistent(m: MonitorView, s: MonitorStep)
    ensures
        forall|target: Option<Seq<char>>| is_consistent(#[trigger] MonitorView::fresh(target)),
        is_consistent(m) ==> is_consistent(step(m, s).0),
{
}

/// A new target starts from nothing: whatever happened before does not matter.
pub proof fn law_new_target_forgets(
    m: MonitorView,
    other: MonitorView,
    target: Option<Seq<char>>,
    steps: Seq<MonitorStep>,
)
    ensures
        step(m, MonitorStep::SetTarget(target)) == step(other, MonitorStep::SetTarget(target)),
        step(m, MonitorStep::SetTarget(target)).1 == Seq::<AppEventView>::empty(),
        history(step(m, MonitorStep::SetTarget(target)).0, steps) == history(
            MonitorView::fresh(target),
            steps,
        ),
{
}

/// A device that never answered is never reported lost; indeed nothing at all is reported.
pub proof fn law_no_report_before_first_success(
    target: Option<Seq<char>>,
    steps: Seq<MonitorStep>,
)
    requires
        forall|i: int| 0 <= i < steps.len() ==> !(#[trigger] steps[i] is Success),
    ensures
        history(MonitorView::fresh(target), steps).1 == Seq::<AppEventView>::empty(),
        !history(MonitorView::fresh(target), steps).0.armed,
        !history(MonitorView::fresh(target), steps).0.reported_lost,
    decreases steps.len(),
{
    if steps.len() > 0 {
        law_no_report_before_first_success(target, steps.drop_last());
        assert(!(steps[steps.len() - 1] is Success));
    }
}

/// A loss is reported only of a device that has answered before, when its last answer is at least
/// the timeout old, when it gave no sign of life lately, and when the probe, if there was one, did
/// not find it.
pub proof fn law_loss_is_earned(m: MonitorView, s: MonitorStep, i: int)
    requires
        0 <= i < step(m, s).1.len(),
        step(m, s).1[i] is HeartbeatLost,
    ensures
        s is Failure,
        m.armed,
        !m.reported_lost,
        m.since_ok(s->Failure_now) >= HEARTBEAT_TIMEOUT,
        m.wants_probe(s->Failure_now) ==> m.found(m.target->0, s->scan) is None && !m.alive_recently(
            s->later,
        ),
        !m.wants_probe(s->Failure_now) ==> !m.alive_recently(s->Failure_now),
{
}

/// The other way round: a failure of a device that has answered before is reported as its loss as
/// soon as its last answer is at least the timeout old and there was no sign of life lately.
pub proof fn law_silence_is_reported(m: MonitorView, s: MonitorStep)
    requires
        s is Failure,
        m.target is Some,
        m.armed,
        !m.reported_lost,
        m.since_ok(s->Failure_now) >= HEARTBEAT_TIMEOUT,
        m.wants_probe(s->Failure_now) ==> m.found(m.target->0, s->scan) is None && !m.alive_recently(
            s->later,
        ),
        !m.wants_probe(s->Failure_now) ==> !m.alive_recently(s->Failure_now),
    ensures
        step(m, s).1.len() == 1,
        step(m, s).1[0] is HeartbeatLost,
        step(m, s).0.reported_lost,
{
}

/// Every loss that is reported follows a report that all is well, with no other loss in between:
/// one loss is never reported twice.
pub proof fn law_losses_are_reported_once(target: Option<Seq<char>>, steps: Seq<MonitorStep>)
    ensures
        forall|j: int|
            0 <= j < history(MonitorView::fresh(target), steps).1.len() && history(
                MonitorView::fresh(target),
                steps,
            ).1[j] is HeartbeatLost ==> follows_recovery(
                history(MonitorView::fresh(target), steps).1,
                j,
            ),
{
    lemma_reports_in_order(target, steps);
}

/// Between two losses that are reported there is always a report that all is well: whoever has
/// dealt with a loss hears of no other until the heartbeat has recovered.
pub proof fn law_recovery_lies_between_losses(
    target: Option<Seq<char>>,
    steps: Seq<MonitorStep>,
    first: int,
    second: int,
)
    requires
        ({
            let events = history(MonitorView::fresh(target), steps).1;
            &&& 0 <= first < second < events.len()
            &&& events[first] is HeartbeatLost
            &&& events[second] is HeartbeatLost
        }),
    ensures
        ({
            let events = history(MonitorView::fresh(target), steps).1;
            exists|i: int| first < i < second && #[trigger] events[i] is HeartbeatOk
        }),
{
    law_losses_are_reported_once(target, steps);
    let events = history(MonitorView::fresh(target), steps).1;
    assert(follows_recovery(events, second));
    let i = choose|i: int|
        0 <= i < second && (#[trigger] events[i]) is HeartbeatOk && (forall|k: int|
            i < k < second ==> !(#[trigger] events[k] is HeartbeatLost));
    assert(events[first] is HeartbeatLost);
    assert(first < i < second && events[i] is HeartbeatOk);
}

/// Before place `j` there is a report that all is well, with no loss between the two.
pub open spec fn follows_recovery(events: Seq<AppEventView>, j: int) -> bool {
    exists|i: int|
        0 <= i < j && (#[trigger] events[i]) is HeartbeatOk && (forall|k: int|
            i < k < j ==> !(#[trigger] events[k] is HeartbeatLost))
}

/// A longer list of events keeps what holds of a place in it.
proof fn lemma_follows_recovery_extends(
    events: Seq<AppEventView>,
    more: Seq<AppEventView>,
    j: int,
)
    requires
        0 <= j <= events.len(),
        follows_recovery(events, j),
    ensures
        follows_recovery(events + more, j),
{
    let all = events + more;
    let i = choose|i: int|
        0 <= i < j && (#[trigger] events[i]) is HeartbeatOk && (forall|k: int|
            i < k < j ==> !(#[trigger] events[k] is HeartbeatLost));
    assert(all[i] == events[i]);
    assert forall|k: int| i < k < j implies !(#[trigger] all[k] is HeartbeatLost) by {
        assert(all[k] == events[k]);
    }
}

/// Every loss follows a recovery, and an armed monitor without a loss stands after a recovery.
proof fn lemma_reports_in_order(target: Option<Seq<char>>, steps: Seq<MonitorStep>)
    ensures
        ({
            let h = history(MonitorView::fresh(target), steps);
            &&& forall|j: int|
                0 <= j < h.1.len() && (#[trigger] h.1[j]) is HeartbeatLost ==> follows_recovery(
                    h.1,
                    j,
                )
            &&& h.0.armed && !h.0.reported_lost ==> follows_recovery(h.1, h.1.len() as int)
        }),
    decreases steps.len(),
{
    if steps.len() > 0 {
        lemma_reports_in_order(target, steps.drop_last());
        let before = history(MonitorView::fresh(target), steps.drop_last());
        let s = steps.last();
        let (m, sent) = step(before.0, s);
        let all = before.1 + sent;
        let n = before.1.len() as int;
        assert(history(MonitorView::fresh(target), steps) == (m, all));
        if before.0.armed && !before.0.reported_lost {
            lemma_follows_recovery_extends(before.1, sent, n);
        }
        assert forall|j: int|
            0 <= j < all.len() && (#[trigger] all[j]) is HeartbeatLost implies follows_recovery(
            all,
            j,
        ) by {
            if j < n {
                assert(all[j] == before.1[j]);
                lemma_follows_recovery_extends(before.1, sent, j);
            } else {
                assert(all[j] == sent[j - n]);
                law_loss_is_earned(before.0, s, j - n);
                lemma_loss_is_alone(before.0, s, j - n);
                assert(j == n);
            }
        }
        if m.armed && !m.reported_lost {
            lemma_after_step_recovered(before.0, before.1, s);
        }
    }
}

/// A step that reports a loss reports nothing else.
proof fn lemma_loss_is_alone(m: MonitorView, s: MonitorStep, i: int)
    requires
        0 <= i < step(m, s).1.len(),
        step(m, s).1[i] is HeartbeatLost,
    ensures
        step(m, s).1.len() == 1,
{
}

/// An armed monitor that has no loss reported after a step stands after a recovery.
proof fn lemma_after_step_recovered(m: MonitorView, events: Seq<AppEventView>, s: MonitorStep)
    requires
        step(m, s).0.armed,
        !step(m, s).0.reported_lost,
        m.armed && !m.reported_lost ==> follows_recovery(events, events.len() as int),
    ensures
        follows_recovery(events + step(m, s).1, (events + step(m, s).1).len() as int),
{
    let sent = step(m, s).1;
    let all = events + sent;
    let n = events.len() as int;
    assert(forall|k: int| 0 <= k < sent.len() ==> all[n + k] == sent[k]);
    if m.armed && !m.reported_lost {
        lemma_follows_recovery_extends(events, sent, n);
        let i = choose|i: int|
            0 <= i < n && (#[trigger] all[i]) is HeartbeatOk && (forall|k: int|
                i < k < n ==> !(#[trigger] all[k] is HeartbeatLost));
        assert forall|k: int| i < k < all.len() implies !(#[trigger] all[k] is HeartbeatLost) by {
            if k >= n {
                assert(all[k] == sent[k - n]);
                if sent[k - n] is HeartbeatLost {
                    law_loss_is_earned(m, s, k - n);
                    assert(step(m, s).0.reported_lost);
                }
            }
        }
        assert(all[i] is HeartbeatOk);
    } else {
        let last = sent.len() - 1;
        assert(sent.len() > 0 && sent[last] is HeartbeatOk);
        assert(all[n + last] is HeartbeatOk);
    }
}

/// The reports on the heartbeat among some events: recoveries and losses, in order.
pub open spec fn reports(events: Seq<AppEventView>) -> Seq<AppEventView>
    decreases events.len(),
{
    if events.len() == 0 {
        Seq::empty()
    } else {
        let before = reports(events.drop_last());
        if events.last() is HeartbeatOk || events.last() is HeartbeatLost {
            before.push(events.last())
        } else {
            before
        }
    }
}

/// Reports alternate strictly, and begin with a recovery.
pub open spec fn alternates(reported: Seq<AppEventView>) -> bool {
    forall|i: int|
        0 <= i < reported.len() ==> if i % 2 == 0 {
            #[trigger] reported[i] is HeartbeatOk
        } else {
            reported[i] is HeartbeatLost
        }
}

/// As long as the target stays, recoveries and losses alternate strictly, beginning with a
/// recovery. The last report is a recovery exactly while the device has answered and is not lost.
pub proof fn law_reports_alternate(target: Option<Seq<char>>, steps: Seq<MonitorStep>)
    requires
        forall|i: int| 0 <= i < steps.len() ==> !(#[trigger] steps[i] is SetTarget),
    ensures
        ({
            let (m, events) = history(MonitorView::fresh(target), steps);
            &&& alternates(reports(events))
            &&& reports(events).len() % 2 == 1 <==> m.armed && !m.reported_lost
            &&& reports(events).len() == 0 <==> !m.armed
        }),
    decreases steps.len(),
{
    if steps.len() > 0 {
        let rest = steps.drop_last();
        assert forall|i: int| 0 <= i < rest.len() implies !(#[trigger] rest[i] is SetTarget) by {
            assert(rest[i] == steps[i]);
        }
        law_reports_alternate(target, rest);
        let (m, events) = history(MonitorView::fresh(target), rest);
        let s = steps.last();
        assert(steps[steps.len() - 1] == s);
        let (after, sent) = step(m, s);
        lemma_history_keeps_consistent(target, rest);
        lemma_reports_of_step(m, s);
        lemma_reports_join(events, sent);
        let before = reports(events);
        let new = reports(sent);
        let all = before + new;
        assert forall|i: int| 0 <= i < all.len() implies if i % 2 == 0 {
            #[trigger] all[i] is HeartbeatOk
        } else {
            all[i] is HeartbeatLost
        } by {
            if i < before.len() {
                assert(all[i] == before[i]);
            } else {
                assert(i == before.len());
                assert(all[i] == new[0]);
            }
        }
    }
}

/// A history from a fresh monitor leads to a consistent one.
proof fn lemma_history_keeps_consistent(target: Option<Seq<char>>, steps: Seq<MonitorStep>)
    ensures
        is_consistent(history(MonitorView::fresh(target), steps).0),
    decreases steps.len(),
{
    if steps.len() > 0 {
        lemma_history_keeps_consistent(target, steps.drop_last());
        law_monitor_stays_consistent(
            history(MonitorView::fresh(target), steps.drop_last()).0,
            steps.last(),
        );
    }
}

/// What a step reports on the heartbeat, and where that leaves the monitor.
pub proof fn lemma_reports_of_step(m: MonitorView, s: MonitorStep)
    requires
        !(s is SetTarget),
        is_consistent(m),
    ensures
        ({
            let (after, sent) = step(m, s);
            let new = reports(sent);
            ||| new.len() == 0 && after.armed == m.armed && after.reported_lost == m.reported_lost
            ||| new.len() == 1 && new[0] is HeartbeatOk && (!m.armed || m.reported_lost)
                && after.armed && !after.reported_lost
            ||| new.len() == 1 && new[0] is HeartbeatLost && m.armed && !m.reported_lost
                && after.armed && after.reported_lost
        }),
{
    reveal_with_fuel(reports, 3);
    let sent = step(m, s).1;
    if sent.len() == 1 {
        assert(sent.drop_last() =~= Seq::empty());
    } else if sent.len() == 2 {
        assert(sent.drop_last().drop_last() =~= Seq::empty());
        assert(sent.drop_last().last() == sent[0]);
    }
}

/// The reports of two lists of events, one after the other.
pub proof fn lemma_reports_join(events: Seq<AppEventView>, more: Seq<AppEventView>)
    ensures
        reports(events + more) == reports(events) + reports(more),
    decreases more.len(),
{
    if more.len() == 0 {
        assert(events + more =~= events);
        assert(reports(events) + reports(more) =~= reports(events));
    } else {
        lemma_reports_join(events, more.drop_last());
        assert((events + more).drop_last() =~= events + more.drop_last());
        assert((events + more).last() == more.last());
        assert(reports(events + more) =~= reports(events) + reports(more));
    }
}

/// A failure long after the last success.
pub open spec fn is_overdue(s: MonitorStep, last_ok: u64) -> bool {
    elapsed(last_ok, s->Failure_now) >= HEARTBEAT_TIMEOUT
}

/// A failure after the last success, whose scan, done after it, does not find the device that the
/// monitor `m` watches.
pub open spec fn is_silent(m: MonitorView, s: MonitorStep, last_ok: u64) -> bool {
    &&& s is Failure
    &&& last_ok <= s->Failure_now <= s->later
    &&& m.found(m.target->0, s->scan) is None
}

/// A silence that lasts gives exactly one report: a loss, at the first failure that comes at least
/// the timeout after the last success, with the words of that failure. Nothing is reported before,
/// and nothing after.
pub proof fn law_lasting_silence_is_one_loss(
    m: MonitorView,
    id: Option<Seq<char>>,
    last_ok: u64,
    steps: Seq<MonitorStep>,
)
    requires
        m.target is Some,
        forall|i: int|
            0 <= i < steps.len() ==> is_silent(
                m.after_success(id, last_ok),
                #[trigger] steps[i],
                last_ok,
            ),
    ensures
        ({
            let up = m.after_success(id, last_ok);
            &&& (forall|i: int|
                0 <= i < steps.len() ==> !is_overdue(#[trigger] steps[i], last_ok)) ==> history(
                up,
                steps,
            ).1 == Seq::<AppEventView>::empty()
            &&& forall|k: int|
                0 <= k < steps.len() && #[trigger] is_overdue(steps[k], last_ok) && (forall|i: int|
                    0 <= i < k ==> !is_overdue(#[trigger] steps[i], last_ok)) ==> history(
                    up,
                    steps,
                ).1 == seq![AppEventView::HeartbeatLost { detail: lost_detail(steps[k]->error) }]
        }),
{
    let up = m.after_success(id, last_ok);
    lemma_silence(up, last_ok, steps);
    if forall|i: int| 0 <= i < steps.len() ==> !is_overdue(#[trigger] steps[i], last_ok) {
        lemma_first_overdue_none(steps, last_ok);
    }
    assert forall|k: int|
        0 <= k < steps.len() && #[trigger] is_overdue(steps[k], last_ok) && (forall|i: int|
            0 <= i < k ==> !is_overdue(#[trigger] steps[i], last_ok)) implies history(up, steps).1
        == seq![AppEventView::HeartbeatLost { detail: lost_detail(steps[k]->error) }] by {
        lemma_first_overdue_at(steps, last_ok, k);
    }
}

/// The place of the first failure long after the last success.
spec fn first_overdue(steps: Seq<MonitorStep>, last_ok: u64) -> Option<int>
    decreases steps.len(),
{
    if steps.len() == 0 {
        None
    } else {
        match first_overdue(steps.drop_last(), last_ok) {
            Some(i) => Some(i),
            None => if is_overdue(steps.last(), last_ok) {
                Some(steps.len() - 1)
            } else {
                None
            },
        }
    }
}

/// Where no failure is overdue, there is no first one.
proof fn lemma_first_overdue_none(steps: Seq<MonitorStep>, last_ok: u64)
    requires
        forall|i: int| 0 <= i < steps.len() ==> !is_overdue(#[trigger] steps[i], last_ok),
    ensures
        first_overdue(steps, last_ok) is None,
    decreases steps.len(),
{
    if steps.len() > 0 {
        let rest = steps.drop_last();
        assert forall|i: int| 0 <= i < rest.len() implies !is_overdue(
            #[trigger] rest[i],
            last_ok,
        ) by {
            assert(rest[i] == steps[i]);
        }
        lemma_first_overdue_none(rest, last_ok);
        assert(!is_overdue(steps[steps.len() - 1], last_ok));
    }
}

/// The first failure that is overdue is the one with none before it.
proof fn lemma_first_overdue_at(steps: Seq<MonitorStep>, last_ok: u64, k: int)
    requires
        0 <= k < steps.len(),
        is_overdue(steps[k], last_ok),
        forall|i: int| 0 <= i < k ==> !is_overdue(#[trigger] steps[i], last_ok),
    ensures
        first_overdue(steps, last_ok) == Some(k),
    decreases steps.len(),
{
    let rest = steps.drop_last();
    assert forall|i: int| 0 <= i < k implies !is_overdue(#[trigger] rest[i], last_ok) by {
        assert(rest[i] == steps[i]);
    }
    if k < rest.len() {
        assert(rest[k] == steps[k]);
        lemma_first_overdue_at(rest, last_ok, k);
    } else {
        lemma_first_overdue_none(rest, last_ok);
    }
}

/// What a silence comes to, step by step.
proof fn lemma_silence(up: MonitorView, last_ok: u64, steps: Seq<MonitorStep>)
    requires
        up.target is Some,
        up.armed,
        !up.reported_lost,
        up.last_ok == Some(last_ok),
        up.last_seen_alive == Some(last_ok),
        forall|i: int| 0 <= i < steps.len() ==> is_silent(up, #[trigger] steps[i], last_ok),
    ensures
        ({
            let (m, events) = history(up, steps);
            &&& m.target == up.target
            &&& m.device_id == up.device_id
            &&& m.armed
            &&& m.last_ok == Some(last_ok)
            &&& m.last_seen_alive == Some(last_ok)
            &&& m.reported_lost == (first_overdue(steps, last_ok) is Some)
            &&& events == match first_overdue(steps, last_ok) {
                Some(k) => seq![
                    AppEventView::HeartbeatLost { detail: lost_detail(steps[k]->error) },
                ],
                None => Seq::empty(),
            }
            &&& first_overdue(steps, last_ok) matches Some(k) ==> 0 <= k < steps.len()
        }),
    decreases steps.len(),
{
    if steps.len() > 0 {
        let rest = steps.drop_last();
        assert forall|i: int| 0 <= i < rest.len() implies is_silent(
            up,
            #[trigger] rest[i],
            last_ok,
        ) by {
            assert(rest[i] == steps[i]);
        }
        lemma_silence(up, last_ok, rest);
        let s = steps.last();
        assert(steps[steps.len() - 1] == s);
        let (m, events) = history(up, rest);
        assert(m.found(m.target->0, s->scan) is None);
        let (after, sent) = step(m, s);
        assert(history(up, steps) == (after, events + sent));
        if first_overdue(rest, last_ok) is Some {
            assert(sent =~= Seq::empty());
            assert(events + sent =~= events);
        } else if is_overdue(s, last_ok) {
            assert(sent =~= seq![
                AppEventView::HeartbeatLost { detail: lost_detail(s->error) },
            ]);
            assert(events + sent =~= sent);
        } else {
            assert(sent =~= Seq::empty());
            assert(events + sent =~= Seq::empty());
        }
    }
}

/// A success after a loss, and the first success, are reported at once; the rest are no news.
pub proof fn law_recovery_is_reported(m: MonitorView, id: Option<Seq<char>>, now: u64)
    requires
        m.target is Some,
    ensures
        ({
            let (after, sent) = step(m, MonitorStep::Success { id, now });
            &&& sent == if m.reported_lost || !m.armed {
                seq![AppEventView::HeartbeatOk]
            } else {
                Seq::empty()
            }
            &&& after.armed
            &&& !after.reported_lost
        }),
{
}

/// While a loss is going on, a probe that finds the device reports its recovery, and the device is
/// not reported lost again in the same step.
pub proof fn law_found_device_recovers(m: MonitorView, s: MonitorStep)
    requires
        s is Failure,
        m.target is Some,
        m.reported_lost,
        m.wants_probe(s->Failure_now),
        m.found(m.target->0, s->scan) is Some,
    ensures
        step(m, s).1.len() > 0,
        step(m, s).1.last() is HeartbeatOk,
        !step(m, s).0.reported_lost,
{
}

/// A step of the heartbeat changes the target only where the identity of the device is known, and
/// only to the address at which a device with that identity answered. The identity itself changes
/// by a success alone.
pub proof fn law_only_the_same_device_is_followed(m: MonitorView, s: MonitorStep)
    requires
        !(s is SetTarget),
        step(m, s).0.target != m.target,
    ensures
        s is Failure,
        m.device_id is Some,
        step(m, s).0.device_id == m.device_id,
        s->scan is Ok,
        exists|i: int|
            0 <= i < s->scan->Ok_0.len() && (#[trigger] s->scan->Ok_0[i]).id == m.device_id
                && step(m, s).0.target == Some(s->scan->Ok_0[i].addr),
{
    let devices = s->scan->Ok_0;
    lemma_found_is_listed(devices, m.device_id, m.target->0);
}

/// The device that was found is one of those listed, and the one monitored.
proof fn lemma_found_is_listed(
    devices: Seq<DeviceView>,
    device_id: Option<Seq<char>>,
    addr: Seq<char>,
)
    ensures
        find_device(devices, device_id, addr) matches Some(d) ==> is_monitored_device(
            d,
            device_id,
            addr,
        ) && exists|i: int| 0 <= i < devices.len() && #[trigger] devices[i] == d,
    decreases devices.len(),
{
    if devices.len() > 0 && !is_monitored_device(devices.first(), device_id, addr) {
        lemma_found_is_listed(devices.drop_first(), device_id, addr);
        if let Some(d) = find_device(devices, device_id, addr) {
            let rest = devices.drop_first();
            let i = choose|i: int| 0 <= i < rest.len() && #[trigger] rest[i] == d;
            assert(devices[i + 1] == d);
        }
    } else if devices.len() > 0 {
        assert(devices[0] == devices.first());
    }
}

} // verus!
