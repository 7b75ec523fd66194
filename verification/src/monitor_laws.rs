//! What the monitor does, call by call, in plain numbers and texts.
//!
//! Each law is about the result of a call, whatever it is, and the state before and after it. Times
//! are nanoseconds: sixty thousand million of them are a minute.
use vstd::prelude::*;

use crate::events::{AppEvent, AppEventView, Device, DeviceView, MonitorCommand};
use crate::history::{self, MonitorStep};
use crate::monitor::{
    find_monitored, to_ws_url, AfterFailure, FailedBeat, Monitor, MonitorView, MonitorWork,
};
use crate::text;
use crate::text_laws::chars;

verus! {

/// At `now`, `t` lies at least `span` back, or there is no such time at all.
pub open spec fn is_past(t: Option<u64>, span: int, now: u64) -> bool {
    t matches Some(at) ==> now >= at + span
}

/// At `now`, `t` lies less than `span` back.
pub open spec fn is_recent(t: Option<u64>, span: int, now: u64) -> bool {
    t matches Some(at) && now < at + span
}

/// The device is the one with the known identity; without a known one, it is the one without an
/// identity at the address.
pub open spec fn is_same_device(d: Device, id: Option<String>, addr: Seq<char>) -> bool {
    match id {
        Some(known) => d.id matches Some(own) && own@ == known@,
        None => d.id is None && d.addr@ == addr,
    }
}

/// None of the devices is the one that is monitored.
pub open spec fn nobody(scan: Result<Vec<Device>, String>, id: Option<String>, addr: Seq<char>) -> bool {
    match scan {
        Ok(devices) => forall|i: int|
            0 <= i < devices@.len() ==> !is_same_device(#[trigger] devices@[i], id, addr),
        Err(_) => true,
    }
}

/// The device at place `k` is the first that is the one monitored.
pub open spec fn is_first_hit(
    scan: Result<Vec<Device>, String>,
    id: Option<String>,
    addr: Seq<char>,
    k: int,
) -> bool {
    scan matches Ok(devices) && 0 <= k < devices@.len() && is_same_device(devices@[k], id, addr)
        && forall|i: int| 0 <= i < k ==> !is_same_device(#[trigger] devices@[i], id, addr)
}

/// The words of a loss.
pub open spec fn is_loss_of(event: AppEvent, error: Seq<char>) -> bool {
    event matches AppEvent::HeartbeatLost { detail } && detail@ == "心跳中断超过 "@ + "60"@
        + " 秒，且局域网发现探测无应答，判定设备物理离线（最后一次心跳错误: "@ + error + "）"@
}

/// The first hit in a list is what a search through it gives.
pub proof fn lemma_found(devices: Seq<Device>, id: Option<String>, addr: Seq<char>)
    ensures
        ({
            let views = crate::events::devices_view(devices);
            let found = crate::monitor::find_device(views, crate::events::opt_text(id), addr);
            &&& (forall|i: int|
                0 <= i < devices.len() ==> !is_same_device(#[trigger] devices[i], id, addr))
                ==> found is None
            &&& forall|k: int|
                0 <= k < devices.len() && is_same_device(#[trigger] devices[k], id, addr) && (
                forall|i: int| 0 <= i < k ==> !is_same_device(#[trigger] devices[i], id, addr))
                    ==> found == Some(devices[k]@)
        }),
    decreases devices.len(),
{
    let views = crate::events::devices_view(devices);
    if devices.len() > 0 {
        let rest = devices.drop_first();
        lemma_found(rest, id, addr);
        assert(views.drop_first() =~= crate::events::devices_view(rest));
        assert(views.first() == devices[0]@);
        let hit = crate::monitor::is_monitored_device(
            devices[0]@,
            crate::events::opt_text(id),
            addr,
        );
        assert(hit == is_same_device(devices[0], id, addr));
        if forall|i: int|
            0 <= i < devices.len() ==> !is_same_device(#[trigger] devices[i], id, addr) {
            assert forall|i: int| 0 <= i < rest.len() implies !is_same_device(
                #[trigger] rest[i],
                id,
                addr,
            ) by {
                assert(rest[i] == devices[i + 1]);
            }
        }
        let found = crate::monitor::find_device(views, crate::events::opt_text(id), addr);
        assert forall|k: int|
            0 <= k < devices.len() && is_same_device(#[trigger] devices[k], id, addr) && (forall|
                i: int,
            |
                0 <= i < k ==> !is_same_device(#[trigger] devices[i], id, addr)) implies found
            == Some(devices[k]@) by {
            if k > 0 {
                assert(!is_same_device(devices[0], id, addr));
                assert(rest[k - 1] == devices[k]);
                assert forall|i: int| 0 <= i < k - 1 implies !is_same_device(
                    #[trigger] rest[i],
                    id,
                    addr,
                ) by {
                    assert(rest[i] == devices[i + 1]);
                }
            }
        }
    }
}

/// Sixty, written out.
proof fn lemma_sixty()
    ensures
        text::decimal_digits(60) == "60"@,
{
    reveal_strlit("60");
    reveal_with_fuel(text::decimal_digits, 3);
    assert(text::decimal_digits(60) =~= "60"@);
}

/// A search finds the first device that is the one monitored, and nothing where there is none.
pub proof fn law_search_finds_the_first_hit(
    devices: &Vec<Device>,
    id: &Option<String>,
    addr: &str,
    k: int,
    r: Option<&Device>,
)
    requires
        call_ensures(find_monitored, (devices, id, addr), r),
    ensures
        (forall|i: int|
            0 <= i < devices@.len() ==> !is_same_device(#[trigger] devices@[i], *id, addr@))
            ==> r is None,
        0 <= k < devices@.len() && is_same_device(devices@[k], *id, addr@) && (forall|i: int|
            0 <= i < k ==> !is_same_device(#[trigger] devices@[i], *id, addr@)) ==> (r matches Some(
            d,
        ) && d.addr@ == devices@[k].addr@ && d.name@ == devices@[k].name@ && chars(d.id) == chars(
            devices@[k].id,
        )),
{
    lemma_found(devices@, *id, addr@);
    if let Some(d) = r {
        assert(chars(d.id) == d@.id);
    }
    assert(chars(devices@[k].id) == devices@[k]@.id);
}

/// A monitor begins without a target and without any knowledge.
pub proof fn law_monitor_begins_with_nothing(r: Monitor)
    requires
        call_ensures(Monitor::new, (), r),
    ensures
        r.target is None && r.last_ok is None && !r.armed && !r.reported_lost && r.consec_fail == 0
            && r.device_id is None && r.last_probe is None && r.last_seen_alive is None,
{
    assert(chars(r.target) == r@.target && chars(r.device_id) == r@.device_id);
}

/// A new target is taken over, and everything known of the old one is gone.
pub proof fn law_new_target_is_taken_over(m: &mut Monitor, target: Option<String>)
    requires
        call_ensures(Monitor::set_target, (m, target), ()),
    ensures
        ({
            let f = *final(m);
            &&& chars(f.target) == chars(target)
            &&& f.last_ok is None && !f.armed && !f.reported_lost && f.consec_fail == 0
            &&& f.device_id is None && f.last_probe is None && f.last_seen_alive is None
        }),
{
    let f = *final(m);
    assert(chars(f.target) == f@.target && chars(f.device_id) == f@.device_id);
}

/// Nothing about a monitor has changed.
pub open spec fn is_unchanged(o: Monitor, f: Monitor) -> bool {
    &&& chars(f.target) == chars(o.target)
    &&& f.last_ok == o.last_ok
    &&& f.armed == o.armed
    &&& f.reported_lost == o.reported_lost
    &&& f.consec_fail == o.consec_fail
    &&& chars(f.device_id) == chars(o.device_id)
    &&& f.last_probe == o.last_probe
    &&& f.last_seen_alive == o.last_seen_alive
}

/// Commands set the target, or ask for a scan or a test of the given address and change nothing.
/// Without a further command to come, the monitor stops.
pub proof fn law_commands_are_obeyed(m: &mut Monitor, c: Option<MonitorCommand>, r: MonitorWork)
    requires
        call_ensures(Monitor::command, (m, c), r),
    ensures
        ({
            let o = *old(m);
            let f = *final(m);
            match c {
                Some(MonitorCommand::SetTarget(t)) => {
                    &&& r is Nothing
                    &&& chars(f.target) == chars(t)
                    &&& f.last_ok is None && !f.armed && !f.reported_lost && f.consec_fail == 0
                    &&& f.device_id is None && f.last_probe is None && f.last_seen_alive is None
                },
                Some(MonitorCommand::Scan) => r is Scan && is_unchanged(o, f),
                Some(MonitorCommand::Test(addr)) => (r matches MonitorWork::Test(a) && a@ == addr@)
                    && is_unchanged(o, f),
                None => r is Stop && is_unchanged(o, f),
            }
        }),
{
    let o = *old(m);
    let f = *final(m);
    assert(chars(f.target) == f@.target && chars(f.device_id) == f@.device_id);
    assert(chars(o.target) == o@.target && chars(o.device_id) == o@.device_id);
    assert(r is Nothing <==> r@ is Nothing);
    assert(r is Stop <==> r@ is Stop);
    assert(r is Scan <==> r@ is Scan);
    assert(r is Test <==> r@ is Test);
}

/// Every beat goes to the target, and none is due without one.
pub proof fn law_beats_go_to_the_target(m: &Monitor, r: MonitorWork)
    requires
        call_ensures(Monitor::tick, (m,), r),
    ensures
        match m.target {
            Some(t) => r matches MonitorWork::Heartbeat(addr) && addr@ == t@,
            None => r is Nothing,
        },
{
    assert(chars(m.target) == m@.target);
    assert(r is Nothing <==> r@ is Nothing);
    assert(r is Heartbeat <==> r@ is Heartbeat);
}

/// A success is remembered with its time, and with the identity where it gave one. It is reported
/// exactly where it is the first one or ends a loss. The target stays.
pub proof fn law_success_is_remembered(
    m: &mut Monitor,
    id: Option<String>,
    now: u64,
    r: Vec<AppEvent>,
)
    requires
        call_ensures(Monitor::heartbeat_ok, (m, id, now), r),
    ensures
        ({
            let o = *old(m);
            let f = *final(m);
            &&& f.last_ok == Some(now) && f.last_seen_alive == Some(now)
            &&& f.armed && !f.reported_lost && f.consec_fail == 0
            &&& chars(f.target) == chars(o.target) && f.last_probe == o.last_probe
            &&& id is Some ==> chars(f.device_id) == chars(id)
            &&& id is None ==> chars(f.device_id) == chars(o.device_id)
            &&& !o.armed || o.reported_lost ==> r@.len() == 1 && r@[0] is HeartbeatOk
            &&& o.armed && !o.reported_lost ==> r@.len() == 0
        }),
{
    let o = *old(m);
    let f = *final(m);
    assert(chars(f.target) == f@.target && chars(f.device_id) == f@.device_id);
    assert(chars(o.target) == o@.target && chars(o.device_id) == o@.device_id);
    let sent = crate::events::events_view(r@);
    assert(sent.len() == r@.len());
    if r@.len() > 0 {
        assert(sent[0] == r@[0]@);
    }
}

/// After a failure the device is probed exactly if it has answered before, the last success lies
/// ten seconds back and the last probe twelve. Without a probe the failure is judged at once: it is
/// a loss exactly if the device has answered before, no loss is reported yet, the last success lies
/// a minute back, and the last sign of life, of whatever kind, lies twenty-four seconds back.
/// Nothing else changes but the count of failures and the time of the probe.
pub proof fn law_failure_is_probed_or_judged(
    m: &mut Monitor,
    addr: &str,
    error: &str,
    now: u64,
    r: AfterFailure,
)
    requires
        old(m).consec_fail < u32::MAX,
        call_ensures(Monitor::heartbeat_failed, (m, addr, error, now), r),
    ensures
        ({
            let o = *old(m);
            let f = *final(m);
            let due = o.armed && is_past(o.last_ok, 10_000_000_000, now) && is_past(
                o.last_probe,
                12_000_000_000,
                now,
            );
            let lost = o.armed && !o.reported_lost && is_past(o.last_ok, 60_000_000_000, now)
                && !is_recent(o.last_seen_alive, 24_000_000_000, now);
            &&& f.consec_fail == o.consec_fail + 1
            &&& chars(f.target) == chars(o.target) && chars(f.device_id) == chars(o.device_id)
            &&& f.last_ok == o.last_ok && f.armed == o.armed
            &&& f.last_seen_alive == o.last_seen_alive
            &&& f.last_probe == if due {
                Some(now)
            } else {
                o.last_probe
            }
            &&& due <==> r is Probe
            &&& r matches AfterFailure::Probe(beat) ==> {
                &&& beat.addr@ == addr@ && beat.error@ == error@
                &&& beat.since_ok == match o.last_ok {
                    Some(t) => if now >= t {
                        now - t
                    } else {
                        0
                    },
                    None => u64::MAX as int,
                }
                &&& f.reported_lost == o.reported_lost
            }
            &&& r matches AfterFailure::Report(events) ==> {
                &&& f.reported_lost == (o.reported_lost || lost)
                &&& lost ==> events@.len() == 1 && is_loss_of(events@[0], error@)
                &&& !lost ==> events@.len() == 0
            }
        }),
{
    lemma_sixty();
    let o = *old(m);
    let f = *final(m);
    assert(chars(f.target) == f@.target && chars(f.device_id) == f@.device_id);
    assert(chars(o.target) == o@.target && chars(o.device_id) == o@.device_id);
    if let AfterFailure::Report(events) = r {
        let sent = crate::events::events_view(events@);
        assert(sent.len() == events@.len());
        if events@.len() > 0 {
            assert(sent[0] == events@[0]@);
        }
    }
}

/// A probe that does not find the device changes nothing, and the failure is judged at the end of
/// the probe: it is a loss exactly if the device has answered before, no loss is reported yet, the
/// last success lay a minute back, and the last sign of life, of whatever kind, lies twenty-four
/// seconds back.
pub proof fn law_unanswered_probe_is_judged(
    m: &mut Monitor,
    beat: &FailedBeat,
    scan: &Result<Vec<Device>, String>,
    now: u64,
    r: Vec<AppEvent>,
)
    requires
        call_ensures(Monitor::probe_finished, (m, beat, scan, now), r),
        nobody(*scan, old(m).device_id, beat.addr@),
    ensures
        ({
            let o = *old(m);
            let f = *final(m);
            let lost = o.armed && !o.reported_lost && beat.since_ok >= 60_000_000_000
                && !is_recent(o.last_seen_alive, 24_000_000_000, now);
            &&& chars(f.target) == chars(o.target) && chars(f.device_id) == chars(o.device_id)
            &&& f.last_ok == o.last_ok && f.armed == o.armed && f.consec_fail == o.consec_fail
            &&& f.last_seen_alive == o.last_seen_alive && f.last_probe == o.last_probe
            &&& f.reported_lost == (o.reported_lost || lost)
            &&& lost ==> r@.len() == 1 && is_loss_of(r@[0], beat.error@)
            &&& !lost ==> r@.len() == 0
        }),
{
    lemma_sixty();
    let o = *old(m);
    let f = *final(m);
    assert(chars(f.target) == f@.target && chars(f.device_id) == f@.device_id);
    assert(chars(o.target) == o@.target && chars(o.device_id) == o@.device_id);
    if let Ok(devices) = *scan {
        lemma_found(devices@, o.device_id, beat.addr@);
    }
    let sent = crate::events::events_view(r@);
    assert(sent.len() == r@.len());
    if r@.len() > 0 {
        assert(sent[0] == r@[0]@);
    }
}

/// A probe that finds the device is a sign of life and ends a loss, which is reported. Where the
/// first such device has another address, that is the target from now on, and the change is
/// reported, whether or not a loss was. Nothing else changes, and no loss is reported.
pub proof fn law_answered_probe_is_followed(
    m: &mut Monitor,
    beat: &FailedBeat,
    scan: &Result<Vec<Device>, String>,
    now: u64,
    k: int,
    r: Vec<AppEvent>,
)
    requires
        call_ensures(Monitor::probe_finished, (m, beat, scan, now), r),
        is_first_hit(*scan, old(m).device_id, beat.addr@, k),
    ensures
        ({
            let o = *old(m);
            let f = *final(m);
            let d = scan->Ok_0@[k];
            let moved = d.addr@ != beat.addr@;
            &&& chars(f.target) == if moved {
                Some(d.addr@)
            } else {
                chars(o.target)
            }
            &&& chars(f.device_id) == chars(o.device_id)
            &&& f.last_ok == o.last_ok && f.armed == o.armed && f.consec_fail == o.consec_fail
            &&& f.last_seen_alive == Some(now) && f.last_probe == o.last_probe
            &&& !f.reported_lost
            &&& r@.len() == if moved {
                1int
            } else {
                0
            } + if o.reported_lost {
                1int
            } else {
                0
            }
            &&& moved ==> (r@[0] matches AppEvent::TargetAutoChanged { old: from, new: to } && from@
                == beat.addr@ && to@ == d.addr@)
            &&& o.reported_lost ==> r@.last() is HeartbeatOk
        }),
{
    let o = *old(m);
    let f = *final(m);
    assert(chars(f.target) == f@.target && chars(f.device_id) == f@.device_id);
    assert(chars(o.target) == o@.target && chars(o.device_id) == o@.device_id);
    lemma_found(scan->Ok_0@, o.device_id, beat.addr@);
    let sent = crate::events::events_view(r@);
    assert(sent.len() == r@.len());
    assert(forall|i: int| 0 <= i < r@.len() ==> sent[i] == #[trigger] r@[i]@);
    if r@.len() > 0 {
        assert(sent[0] == r@[0]@);
        assert(sent[sent.len() - 1] == r@[r@.len() - 1]@);
    }
}

/// The step is a failure, and its scan, done no earlier, does not find the device.
pub open spec fn is_unanswered(m: MonitorView, s: MonitorStep) -> bool {
    &&& s is Failure
    &&& s->Failure_now <= s->later
    &&& m.found(m.target->0, s->scan) is None
}

/// Silence after a last success and a later sign of life, such as a probe that was answered: exactly
/// one loss is reported, at the first failure that comes a minute after the success and twenty-four
/// seconds after the sign of life. Of the failures before, the judgement must lie before one of
/// those two times.
pub proof fn law_silence_after_a_sign_of_life_is_one_loss(
    m: MonitorView,
    last_ok: u64,
    last_seen: u64,
    steps: Seq<MonitorStep>,
    k: int,
)
    requires
        m.target is Some,
        m.armed,
        !m.reported_lost,
        m.last_ok == Some(last_ok),
        m.last_seen_alive == Some(last_seen),
        0 <= k < steps.len(),
        forall|i: int| 0 <= i < steps.len() ==> is_unanswered(m, #[trigger] steps[i]),
        forall|i: int|
            0 <= i < k ==> (#[trigger] steps[i])->Failure_now < last_ok + 60_000_000_000
                || steps[i]->later < last_seen + 24_000_000_000,
        steps[k]->Failure_now >= last_ok + 60_000_000_000,
        steps[k]->Failure_now >= last_seen + 24_000_000_000,
    ensures
        history::history(m, steps.take(k)).1.len() == 0,
        history::history(m, steps.take(k + 1)).1.len() == 1,
        history::history(m, steps).1.len() == 1,
        history::history(m, steps).1[0] is HeartbeatLost,
    decreases steps.len(),
{
    let rest = steps.drop_last();
    let s = steps.last();
    assert(steps[steps.len() - 1] == s);
    if k == steps.len() - 1 {
        lemma_quiet(m, last_ok, last_seen, rest);
        assert(steps.take(k) =~= rest);
        assert(steps.take(k + 1) =~= steps);
    } else {
        assert forall|i: int| 0 <= i < rest.len() implies is_unanswered(m, #[trigger] rest[i]) by {
            assert(rest[i] == steps[i]);
        }
        assert forall|i: int| 0 <= i < k implies (#[trigger] rest[i])->Failure_now < last_ok
            + 60_000_000_000 || rest[i]->later < last_seen + 24_000_000_000 by {
            assert(rest[i] == steps[i]);
        }
        assert(rest[k] == steps[k]);
        law_silence_after_a_sign_of_life_is_one_loss(m, last_ok, last_seen, rest, k);
        assert(rest.take(k) =~= steps.take(k));
        assert(rest.take(k + 1) =~= steps.take(k + 1));
        lemma_lost_stays(m, last_ok, last_seen, rest);
        let before = history::history(m, rest);
        let sent = history::step(before.0, s).1;
        assert(before.0.reported_lost);
        assert(before.0.found(before.0.target->0, s->scan) is None);
        assert(sent.len() == 0);
        assert(history::history(m, steps).1 == before.1 + sent);
    }
}

/// Failures that are judged too early report nothing and change nothing that matters.
proof fn lemma_quiet(m: MonitorView, last_ok: u64, last_seen: u64, steps: Seq<MonitorStep>)
    requires
        m.target is Some,
        m.armed,
        !m.reported_lost,
        m.last_ok == Some(last_ok),
        m.last_seen_alive == Some(last_seen),
        forall|i: int| 0 <= i < steps.len() ==> is_unanswered(m, #[trigger] steps[i]),
        forall|i: int|
            0 <= i < steps.len() ==> (#[trigger] steps[i])->Failure_now < last_ok + 60_000_000_000
                || steps[i]->later < last_seen + 24_000_000_000,
    ensures
        ({
            let (f, sent) = history::history(m, steps);
            &&& sent.len() == 0
            &&& f.target == m.target && f.device_id == m.device_id && f.armed && !f.reported_lost
            &&& f.last_ok == Some(last_ok) && f.last_seen_alive == Some(last_seen)
        }),
    decreases steps.len(),
{
    if steps.len() > 0 {
        let rest = steps.drop_last();
        assert forall|i: int| 0 <= i < rest.len() implies is_unanswered(m, #[trigger] rest[i]) && (
        rest[i]->Failure_now < last_ok + 60_000_000_000 || rest[i]->later < last_seen
            + 24_000_000_000) by {
            assert(rest[i] == steps[i]);
        }
        lemma_quiet(m, last_ok, last_seen, rest);
        let s = steps[steps.len() - 1];
        let before = history::history(m, rest).0;
        assert(before.found(before.target->0, s->scan) is None);
        assert(history::step(before, s).1.len() == 0);
    }
}

/// Over failures that nobody answers, the target, the identity and the times stay.
proof fn lemma_lost_stays(m: MonitorView, last_ok: u64, last_seen: u64, steps: Seq<MonitorStep>)
    requires
        m.target is Some,
        m.armed,
        m.last_ok == Some(last_ok),
        m.last_seen_alive == Some(last_seen),
        forall|i: int| 0 <= i < steps.len() ==> is_unanswered(m, #[trigger] steps[i]),
    ensures
        ({
            let (f, sent) = history::history(m, steps);
            &&& f.target == m.target && f.device_id == m.device_id && f.armed
            &&& f.last_ok == Some(last_ok) && f.last_seen_alive == Some(last_seen)
            &&& sent.len() > 0 || m.reported_lost ==> f.reported_lost
        }),
    decreases steps.len(),
{
    if steps.len() > 0 {
        let rest = steps.drop_last();
        assert forall|i: int| 0 <= i < rest.len() implies is_unanswered(m, #[trigger] rest[i]) by {
            assert(rest[i] == steps[i]);
        }
        lemma_lost_stays(m, last_ok, last_seen, rest);
        let s = steps[steps.len() - 1];
        let before = history::history(m, rest).0;
        assert(before.found(before.target->0, s->scan) is None);
    }
}

/// Whenever a failure calls for a probe and the scan lists the device that is monitored, at another
/// address than the target, the target is the address of the first such device from then on, and
/// that is reported, whether or not a loss was.
pub proof fn law_moved_device_is_followed(m: MonitorView, s: MonitorStep, k: int)
    requires
        m.target is Some,
        s is Failure,
        m.armed,
        m.last_ok matches Some(t) ==> s->Failure_now >= t + 10_000_000_000,
        m.last_probe matches Some(t) ==> s->Failure_now >= t + 12_000_000_000,
        s->scan is Ok,
        0 <= k < s->scan->Ok_0.len(),
        is_hit(s->scan->Ok_0[k], m.device_id, m.target->0),
        forall|i: int|
            0 <= i < k ==> !is_hit(#[trigger] s->scan->Ok_0[i], m.device_id, m.target->0),
        s->scan->Ok_0[k].addr != m.target->0,
    ensures
        history::step(m, s).0.target == Some(s->scan->Ok_0[k].addr),
        history::step(m, s).0.device_id == m.device_id,
        history::step(m, s).1.len() > 0,
        history::step(m, s).1[0] == (AppEventView::TargetAutoChanged {
            old_addr: m.target->0,
            new_addr: s->scan->Ok_0[k].addr,
        }),
{
    lemma_found_view(s->scan->Ok_0, m.device_id, m.target->0, k);
}

/// The device is the one with the known identity; without a known one, it is the one without an
/// identity at the address.
pub open spec fn is_hit(d: DeviceView, id: Option<Seq<char>>, addr: Seq<char>) -> bool {
    (id is Some && d.id == id) || (id is None && d.id is None && d.addr == addr)
}

/// The first hit in a list is what a search through it gives.
proof fn lemma_found_view(devices: Seq<DeviceView>, id: Option<Seq<char>>, addr: Seq<char>, k: int)
    requires
        0 <= k < devices.len(),
        is_hit(devices[k], id, addr),
        forall|i: int| 0 <= i < k ==> !is_hit(#[trigger] devices[i], id, addr),
    ensures
        crate::monitor::find_device(devices, id, addr) == Some(devices[k]),
    decreases devices.len(),
{
    if k > 0 {
        let rest = devices.drop_first();
        assert(!is_hit(devices[0], id, addr));
        assert(rest[k - 1] == devices[k]);
        assert forall|i: int| 0 <= i < k - 1 implies !is_hit(#[trigger] rest[i], id, addr) by {
            assert(rest[i] == devices[i + 1]);
        }
        lemma_found_view(rest, id, addr, k - 1);
    }
}

/// The URL for every address there is. Any address is some white space, a core that does not end in
/// a slash, some slashes, and white space again, where core and slashes together neither begin nor
/// end with white space. The core decides: with a scheme it stays as it is, with a colon it gets the
/// scheme, and otherwise it gets the scheme and the default port.
pub proof fn law_url_keeps_the_address(
    addr: &str,
    before: Seq<char>,
    core: Seq<char>,
    slashes: Seq<char>,
    after: Seq<char>,
    r: String,
)
    requires
        call_ensures(to_ws_url, (addr,), r),
        addr@ == before + (core + slashes) + after,
        forall|i: int| 0 <= i < before.len() ==> text::is_white_space(#[trigger] before[i]),
        forall|i: int| 0 <= i < after.len() ==> text::is_white_space(#[trigger] after[i]),
        forall|i: int| 0 <= i < slashes.len() ==> #[trigger] slashes[i] == '/',
        core.len() > 0 ==> core.last() != '/',
        (core + slashes).len() > 0 ==> !text::is_white_space((core + slashes).first())
            && !text::is_white_space((core + slashes).last()),
    ensures
        ({
            let ws = "ws://"@.is_prefix_of(core) || "wss://"@.is_prefix_of(core);
            &&& ws ==> r@ == core + "/ws"@
            &&& !ws && core.contains(':') ==> r@ == "ws://"@ + core + "/ws"@
            &&& !ws && !core.contains(':') ==> r@ == "ws://"@ + core + ":8123/ws"@
        }),
{
    reveal_strlit(":");
    reveal_strlit("/ws");
    reveal_strlit(":8123/ws");
    reveal_with_fuel(text::decimal_digits, 5);
    text::lemma_trimmed_ignores_white_space(before, core + slashes, after);
    assert(text::trimmed(core + slashes) == core + slashes);
    text::lemma_without_trailing_more(core, slashes, '/');
    assert(text::without_trailing(core, '/') == core);
    assert(text::decimal_digits(8123) =~= seq!['8', '1', '2', '3']);
    assert("ws://"@ + core + ":"@ + text::decimal_digits(8123) + "/ws"@ =~= "ws://"@ + core
        + ":8123/ws"@);
}

/// Every port stays: the URL of a host with a port has that host and that port, and the scheme in
/// front makes no difference.
pub proof fn law_url_keeps_the_port(host: Seq<char>, port: nat, addr: &str, full: &str, r: String, q: String)
    requires
        host.len() > 0,
        !host.contains(':'),
        !text::is_white_space(host.first()),
        addr@ == host + ":"@ + text::decimal_digits(port),
        full@ == "ws://"@ + host + ":"@ + text::decimal_digits(port),
        call_ensures(to_ws_url, (addr,), r),
        call_ensures(to_ws_url, (full,), q),
    ensures
        r@ == "ws://"@ + host + ":"@ + text::decimal_digits(port) + "/ws"@,
        q@ == r@,
{
    reveal_strlit("ws://");
    reveal_strlit("wss://");
    reveal_strlit(":");
    let none = Seq::<char>::empty();
    let digits = text::decimal_digits(port);
    text::lemma_decimal_are_digits(port);
    assert(digits.len() > 0);
    assert(digits[digits.len() - 1] == digits.last());
    let a = addr@;
    assert(a.last() == digits.last());
    assert(a.first() == host.first());
    assert(a[host.len() as int] == ':');
    assert(a.contains(':'));
    assert(a[host.len() as int + 1] == digits[0]);
    if "ws://"@.is_prefix_of(a) {
        assert("ws://"@[2] == a.subrange(0, 5)[2]);
        assert("ws://"@[3] == a.subrange(0, 5)[3]);
        if host.len() > 2 {
            assert(host[2] == ':');
        } else if host.len() < 2 {
            assert("ws://"@[1] == a.subrange(0, 5)[1]);
        }
    }
    if "wss://"@.is_prefix_of(a) {
        assert("wss://"@[1] == a.subrange(0, 6)[1]);
        assert("wss://"@[2] == a.subrange(0, 6)[2]);
        assert("wss://"@[3] == a.subrange(0, 6)[3]);
        assert("wss://"@[4] == a.subrange(0, 6)[4]);
        if host.len() > 3 {
            assert(host[3] == ':');
        }
    }
    assert(none + (a + none) + none =~= a);
    assert(a + none =~= a);
    law_url_keeps_the_address(addr, none, a, none, none, r);
    let w = full@;
    assert(w.first() == 'w');
    assert(w.last() == digits.last());
    assert("ws://"@ =~= w.subrange(0, 5));
    assert(none + (w + none) + none =~= w);
    assert(w + none =~= w);
    law_url_keeps_the_address(full, none, w, none, none, q);
    assert(r@ =~= "ws://"@ + host + ":"@ + digits + "/ws"@);
    assert(q@ =~= r@);
}

} // verus!
