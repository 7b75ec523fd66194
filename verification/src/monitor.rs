//! The heartbeat monitor: when the service counts as lost, and when as recovered.
//!
//! A failed heartbeat alone says little: the router may hiccup, or the device may have moved to
//! another address. So a series of failures is checked by discovery broadcasts, which a device
//! answers as long as it has power and a network.
//!
//! - It answers from the same address: the device is up, and nothing is reported.
//! - It answers from another address: that address is monitored from now on.
//! - It does not answer, and the last successful heartbeat is a minute old: it counts as lost.
//!
//! Nothing is ever reported lost before the first success, so an address that was never reachable
//! causes no shutdown. Once a device has given its identity, only a device with that identity is
//! taken for it.
use vstd::prelude::*;

use crate::events::{
    devices_view, events_view, opt_text, scan_view, AppEvent, AppEventView, Device, DeviceView,
    MonitorCommand,
};
use crate::protocol::{HEARTBEAT_TIMEOUT, SECOND, WS_PATH, WS_PORT};
use crate::text;

verus! {

/// How long heartbeats must have failed before the device is probed.
pub const VERIFY_AFTER: u64 = 10 * SECOND;

/// Least time between two probes.
pub const PROBE_INTERVAL: u64 = 12 * SECOND;

/// How long an answered probe counts as a sign of life.
pub const ALIVE_GRACE: u64 = 2 * PROBE_INTERVAL;

/// The WebSocket URL for an address as the user writes it.
pub open spec fn ws_url(addr: Seq<char>) -> Seq<char> {
    let a = text::without_trailing(text::trimmed(addr), '/');
    if "ws://"@.is_prefix_of(a) || "wss://"@.is_prefix_of(a) {
        a + WS_PATH@
    } else if a.contains(':') {
        "ws://"@ + a + WS_PATH@
    } else {
        "ws://"@ + a + ":"@ + text::decimal_digits(WS_PORT as nat) + WS_PATH@
    }
}

/// The WebSocket URL for an address as the user writes it: `192.168.1.100`,
/// `192.168.1.100:8123` or `ws://192.168.1.100:8123`.
pub fn to_ws_url(addr: &str) -> (r: String)
    ensures
        r@ == ws_url(addr@),
{
    let a = text::trim_end_matches(text::trim(addr), '/');
    if text::starts_with(a, "ws://") || text::starts_with(a, "wss://") {
        text::join(a, WS_PATH)
    } else if text::contains_char(a, ':') {
        text::join3("ws://", a, WS_PATH)
    } else {
        let host = text::join3("ws://", a, ":");
        text::join3(host.as_str(), text::decimal(WS_PORT as u64).as_str(), WS_PATH)
    }
}

/// The time from `since` to `now`, and none where `since` lies ahead.
pub open spec fn elapsed(since: u64, now: u64) -> u64 {
    if now >= since {
        (now - since) as u64
    } else {
        0
    }
}

/// State of the monitor, in terms of plain values.
pub struct MonitorView {
    pub target: Option<Seq<char>>,
    pub last_ok: Option<u64>,
    pub armed: bool,
    pub reported_lost: bool,
    pub consec_fail: u32,
    pub device_id: Option<Seq<char>>,
    pub last_probe: Option<u64>,
    pub last_seen_alive: Option<u64>,
}

/// State of the monitor.
#[derive(Debug)]
pub struct Monitor {
    /// Address that is monitored; `None` while nothing is configured.
    pub target: Option<String>,
    /// When the last heartbeat succeeded.
    pub last_ok: Option<u64>,
    /// Whether the target has answered at least once.
    pub armed: bool,
    /// Whether the loss that is going on has been reported.
    pub reported_lost: bool,
    /// Number of failures since the last success.
    pub consec_fail: u32,
    /// Identity that the device gave.
    pub device_id: Option<String>,
    /// When the device was last probed.
    pub last_probe: Option<u64>,
    /// When the device last gave a sign of life.
    pub last_seen_alive: Option<u64>,
}

impl View for Monitor {
    type V = MonitorView;

    open spec fn view(&self) -> MonitorView {
        MonitorView {
            target: opt_text(self.target),
            last_ok: self.last_ok,
            armed: self.armed,
            reported_lost: self.reported_lost,
            consec_fail: self.consec_fail,
            device_id: opt_text(self.device_id),
            last_probe: self.last_probe,
            last_seen_alive: self.last_seen_alive,
        }
    }
}

/// A heartbeat that failed, while the device is being probed.
#[derive(Debug)]
pub struct FailedBeat {
    /// Address that did not answer.
    pub addr: String,
    /// Age of the last success when the heartbeat failed.
    pub since_ok: u64,
    /// Why the heartbeat failed.
    pub error: String,
}

/// What to do after a failed heartbeat.
#[derive(Debug)]
pub enum AfterFailure {
    /// Probe the device by a scan, then call [`Monitor::probe_finished`].
    Probe(FailedBeat),
    /// Send these events.
    Report(Vec<AppEvent>),
}

/// The next piece of work of the monitor thread.
#[derive(Debug)]
pub enum MonitorWork {
    /// Wait on.
    Nothing,
    /// Scan the local network, and send the result as [`AppEvent::ScanFinished`].
    Scan,
    /// Test this address, and send the result as [`AppEvent::TestFinished`].
    Test(String),
    /// Exchange a heartbeat with this address.
    Heartbeat(String),
    /// The main thread is gone; stop.
    Stop,
}

/// A piece of work in terms of plain values.
pub enum MonitorWorkView {
    Nothing,
    Scan,
    Test(Seq<char>),
    Heartbeat(Seq<char>),
    Stop,
}

impl View for MonitorWork {
    type V = MonitorWorkView;

    open spec fn view(&self) -> MonitorWorkView {
        match self {
            MonitorWork::Nothing => MonitorWorkView::Nothing,
            MonitorWork::Scan => MonitorWorkView::Scan,
            MonitorWork::Test(addr) => MonitorWorkView::Test(addr@),
            MonitorWork::Heartbeat(addr) => MonitorWorkView::Heartbeat(addr@),
            MonitorWork::Stop => MonitorWorkView::Stop,
        }
    }
}

/// `d` is the device that is monitored: by its identity where that is known, else by its address
/// among the devices without an identity.
pub open spec fn is_monitored_device(
    d: DeviceView,
    device_id: Option<Seq<char>>,
    addr: Seq<char>,
) -> bool {
    match device_id {
        Some(id) => d.id == Some(id),
        None => d.id is None && d.addr == addr,
    }
}

/// The first of `devices` that is the one monitored.
pub open spec fn find_device(
    devices: Seq<DeviceView>,
    device_id: Option<Seq<char>>,
    addr: Seq<char>,
) -> Option<DeviceView>
    decreases devices.len(),
{
    if devices.len() == 0 {
        None
    } else if is_monitored_device(devices.first(), device_id, addr) {
        Some(devices.first())
    } else {
        find_device(devices.drop_first(), device_id, addr)
    }
}

/// The words that go with a loss.
pub open spec fn lost_detail(error: Seq<char>) -> Seq<char> {
    "心跳中断超过 "@ + text::decimal_digits((HEARTBEAT_TIMEOUT / SECOND) as nat)
        + " 秒，且局域网发现探测无应答，判定设备物理离线（最后一次心跳错误: "@ + error + "）"@
}

impl MonitorView {
    /// The monitor with a target of which nothing is known yet.
    pub open spec fn fresh(target: Option<Seq<char>>) -> Self {
        MonitorView {
            target,
            last_ok: None,
            armed: false,
            reported_lost: false,
            consec_fail: 0,
            device_id: None,
            last_probe: None,
            last_seen_alive: None,
        }
    }

    /// Age of the last success; as old as can be where there was none.
    pub open spec fn since_ok(self, now: u64) -> u64 {
        match self.last_ok {
            Some(t) => elapsed(t, now),
            None => u64::MAX,
        }
    }

    /// A failed heartbeat at `now` calls for a probe.
    pub open spec fn wants_probe(self, now: u64) -> bool {
        &&& self.armed
        &&& self.since_ok(now) >= VERIFY_AFTER
        &&& self.last_probe matches Some(t) ==> elapsed(t, now) >= PROBE_INTERVAL
    }

    /// The device gave a sign of life a short while ago.
    pub open spec fn alive_recently(self, now: u64) -> bool {
        self.last_seen_alive matches Some(t) && elapsed(t, now) < ALIVE_GRACE
    }

    /// The monitor after a heartbeat succeeded.
    pub open spec fn after_success(self, id: Option<Seq<char>>, now: u64) -> Self {
        MonitorView {
            last_ok: Some(now),
            last_seen_alive: Some(now),
            device_id: if id is Some {
                id
            } else {
                self.device_id
            },
            consec_fail: 0,
            armed: true,
            reported_lost: false,
            ..self
        }
    }

    /// The events when a heartbeat succeeded: only the first success and a recovery are news.
    pub open spec fn success_events(self) -> Seq<AppEventView> {
        if !self.armed || self.reported_lost {
            seq![AppEventView::HeartbeatOk]
        } else {
            Seq::empty()
        }
    }

    /// The monitor after a heartbeat failed, before the failure is judged.
    pub open spec fn after_failure(self, now: u64) -> Self {
        MonitorView {
            consec_fail: (self.consec_fail + 1) as u32,
            last_probe: if self.wants_probe(now) {
                Some(now)
            } else {
                self.last_probe
            },
            ..self
        }
    }

    /// The device that is monitored at `addr`, as a scan found it; a scan that failed found none.
    pub open spec fn found(
        self,
        addr: Seq<char>,
        scan: Result<Seq<DeviceView>, Seq<char>>,
    ) -> Option<DeviceView> {
        match scan {
            Ok(devices) => find_device(devices, self.device_id, addr),
            Err(_) => None,
        }
    }

    /// The monitor after a probe of the device at `addr` was answered by `found`.
    pub open spec fn after_probe(
        self,
        addr: Seq<char>,
        found: Option<DeviceView>,
        now: u64,
    ) -> Self {
        match found {
            Some(d) => MonitorView {
                target: if d.addr == addr {
                    self.target
                } else {
                    Some(d.addr)
                },
                reported_lost: false,
                last_seen_alive: Some(now),
                ..self
            },
            None => self,
        }
    }

    /// The events when a probe of the device at `addr` was answered by `found`.
    pub open spec fn probe_events(self, addr: Seq<char>, found: Option<DeviceView>) -> Seq<
        AppEventView,
    > {
        match found {
            Some(d) => {
                let moved = if d.addr == addr {
                    Seq::empty()
                } else {
                    seq![
                        AppEventView::TargetAutoChanged { old_addr: addr, new_addr: d.addr },
                    ]
                };
                if self.reported_lost {
                    moved.push(AppEventView::HeartbeatOk)
                } else {
                    moved
                }
            },
            None => Seq::empty(),
        }
    }

    /// A failure makes the device count as lost now: it has answered before, the loss is news,
    /// the last success is old, and there was no sign of life lately.
    pub open spec fn counts_as_lost(self, since_ok: u64, now: u64) -> bool {
        &&& self.armed
        &&& !self.reported_lost
        &&& since_ok >= HEARTBEAT_TIMEOUT
        &&& !self.alive_recently(now)
    }

    /// The monitor after a failure was judged.
    pub open spec fn after_judging(self, since_ok: u64, now: u64) -> Self {
        MonitorView {
            reported_lost: self.reported_lost || self.counts_as_lost(since_ok, now),
            ..self
        }
    }

    /// The events when a failure was judged.
    pub open spec fn judging_events(self, since_ok: u64, error: Seq<char>, now: u64) -> Seq<
        AppEventView,
    > {
        if self.counts_as_lost(since_ok, now) {
            seq![AppEventView::HeartbeatLost { detail: lost_detail(error) }]
        } else {
            Seq::empty()
        }
    }
}

/// The time from `since` to `now`, and none where `since` lies ahead.
fn time_since(since: u64, now: u64) -> (r: u64)
    ensures
        r == elapsed(since, now),
{
    now.saturating_sub(since)
}

/// Copies an optional text.
pub(crate) fn copy_text(text: &Option<String>) -> (r: Option<String>)
    ensures
        opt_text(r) == opt_text(*text),
{
    match text {
        Some(t) => Some(t.clone()),
        None => None,
    }
}

/// Tests two optional texts for equality.
fn same_text(a: &Option<String>, b: &Option<String>) -> (r: bool)
    ensures
        r == (opt_text(*a) == opt_text(*b)),
{
    match (a, b) {
        (Some(x), Some(y)) => *x == *y,
        (None, None) => true,
        _ => false,
    }
}

/// Finds the first of `devices` that is the one monitored.
pub fn find_monitored<'a>(
    devices: &'a Vec<Device>,
    device_id: &Option<String>,
    addr: &str,
) -> (r: Option<&'a Device>)
    ensures
        match r {
            Some(d) => find_device(devices_view(devices@), opt_text(*device_id), addr@) == Some(
                d@,
            ),
            None => find_device(devices_view(devices@), opt_text(*device_id), addr@) is None,
        },
{
    let n: usize = devices.len();
    let mut i: usize = 0;
    let ghost all = devices_view(devices@);
    let ghost id = opt_text(*device_id);
    assert(all.subrange(0, n as int) =~= all);
    while i < n
        invariant
            i <= n,
            n == devices@.len(),
            all == devices_view(devices@),
            id == opt_text(*device_id),
            find_device(all, id, addr@) == find_device(all.subrange(i as int, n as int), id, addr@),
        decreases n - i,
    {
        let d = &devices[i];
        let hit: bool = match device_id {
            Some(_) => same_text(&d.id, device_id),
            None => d.id.is_none() && text::same(d.addr.as_str(), addr),
        };
        proof {
            let rest = all.subrange(i as int, n as int);
            assert(rest.first() == d@);
            assert(rest.drop_first() =~= all.subrange(i + 1, n as int));
        }
        if hit {
            return Some(d);
        }
        i = i + 1;
    }
    None
}

impl Monitor {
    /// A monitor without a target.
    pub fn new() -> (r: Self)
        ensures
            r@ == MonitorView::fresh(None),
    {
        Monitor {
            target: None,
            last_ok: None,
            armed: false,
            reported_lost: false,
            consec_fail: 0,
            device_id: None,
            last_probe: None,
            last_seen_alive: None,
        }
    }

    /// Monitors another target, of which nothing is known yet.
    pub fn set_target(&mut self, target: Option<String>)
        ensures
            final(self)@ == MonitorView::fresh(opt_text(target)),
    {
        self.target = target;
        self.last_ok = None;
        self.armed = false;
        self.reported_lost = false;
        self.consec_fail = 0;
        self.device_id = None;
        self.last_probe = None;
        self.last_seen_alive = None;
    }

    /// A command has come in; `None` says that no further one can come. Returns what to do.
    pub fn command(&mut self, command: Option<MonitorCommand>) -> (r: MonitorWork)
        ensures
            final(self)@ == match command {
                Some(MonitorCommand::SetTarget(target)) => MonitorView::fresh(opt_text(target)),
                _ => old(self)@,
            },
            r@ == match command {
                Some(MonitorCommand::SetTarget(_)) => MonitorWorkView::Nothing,
                Some(MonitorCommand::Scan) => MonitorWorkView::Scan,
                Some(MonitorCommand::Test(addr)) => MonitorWorkView::Test(addr@),
                None => MonitorWorkView::Stop,
            },
    {
        match command {
            Some(MonitorCommand::SetTarget(target)) => {
                self.set_target(target);
                MonitorWork::Nothing
            },
            Some(MonitorCommand::Scan) => MonitorWork::Scan,
            Some(MonitorCommand::Test(addr)) => MonitorWork::Test(addr),
            None => MonitorWork::Stop,
        }
    }

    /// It is time for a heartbeat. Returns what to do.
    pub fn tick(&self) -> (r: MonitorWork)
        ensures
            r@ == match self@.target {
                Some(addr) => MonitorWorkView::Heartbeat(addr),
                None => MonitorWorkView::Nothing,
            },
    {
        match &self.target {
            Some(addr) => MonitorWork::Heartbeat(addr.clone()),
            None => MonitorWork::Nothing,
        }
    }

    /// A heartbeat succeeded at `now`; the answer carried `id`. Returns the events to send.
    pub fn heartbeat_ok(&mut self, id: Option<String>, now: u64) -> (r: Vec<AppEvent>)
        ensures
            final(self)@ == old(self)@.after_success(opt_text(id), now),
            events_view(r@) == old(self)@.success_events(),
    {
        let mut events: Vec<AppEvent> = Vec::new();
        self.last_ok = Some(now);
        self.last_seen_alive = Some(now);
        if id.is_some() {
            self.device_id = id;
        }
        self.consec_fail = 0;
        if !self.armed || self.reported_lost {
            self.armed = true;
            self.reported_lost = false;
            events.push(AppEvent::HeartbeatOk);
        }
        assert(events_view(events@) =~= old(self)@.success_events());
        events
    }

    /// A heartbeat to `addr` failed at `now`. Returns what to do about it.
    pub fn heartbeat_failed(&mut self, addr: &str, error: &str, now: u64) -> (r: AfterFailure)
        requires
            old(self).consec_fail < u32::MAX,
        ensures
            match r {
                AfterFailure::Probe(beat) => {
                    &&& old(self)@.wants_probe(now)
                    &&& final(self)@ == old(self)@.after_failure(now)
                    &&& beat.addr@ == addr@
                    &&& beat.since_ok == old(self)@.since_ok(now)
                    &&& beat.error@ == error@
                },
                AfterFailure::Report(events) => {
                    let failed = old(self)@.after_failure(now);
                    let since_ok = old(self)@.since_ok(now);
                    &&& !old(self)@.wants_probe(now)
                    &&& final(self)@ == failed.after_judging(since_ok, now)
                    &&& events_view(events@) == failed.judging_events(since_ok, error@, now)
                },
            },
    {
        self.consec_fail = self.consec_fail + 1;
        let since_ok: u64 = match self.last_ok {
            Some(t) => time_since(t, now),
            None => u64::MAX,
        };
        let probe_due: bool = match self.last_probe {
            Some(t) => time_since(t, now) >= PROBE_INTERVAL,
            None => true,
        };
        if self.armed && since_ok >= VERIFY_AFTER && probe_due {
            self.last_probe = Some(now);
            AfterFailure::Probe(
                FailedBeat { addr: addr.to_owned(), since_ok, error: error.to_owned() },
            )
        } else {
            AfterFailure::Report(self.judge(since_ok, error, now))
        }
    }

    /// The probe for `beat` is done at `now`, with the result of its scan. Returns the events to
    /// send.
    pub fn probe_finished(
        &mut self,
        beat: &FailedBeat,
        scan: &Result<Vec<Device>, String>,
        now: u64,
    ) -> (r: Vec<AppEvent>)
        ensures
            ({
                let found = old(self)@.found(beat.addr@, scan_view(*scan));
                let probed = old(self)@.after_probe(beat.addr@, found, now);
                &&& final(self)@ == probed.after_judging(beat.since_ok, now)
                &&& events_view(r@) == old(self)@.probe_events(beat.addr@, found)
                    + probed.judging_events(beat.since_ok, beat.error@, now)
            }),
    {
        let mut events: Vec<AppEvent> = self.probe_adopt(beat.addr.as_str(), scan, now);
        let ghost first = events_view(events@);
        let mut judged: Vec<AppEvent> = self.judge(beat.since_ok, beat.error.as_str(), now);
        let ghost second = events_view(judged@);
        events.append(&mut judged);
        assert(events_view(events@) =~= first + second);
        events
    }

    /// Takes the result of a probe over: a device that answers is alive, and where it answers
    /// from another address, that becomes the target.
    fn probe_adopt(&mut self, addr: &str, scan: &Result<Vec<Device>, String>, now: u64) -> (r: Vec<
        AppEvent,
    >)
        ensures
            ({
                let found = old(self)@.found(addr@, scan_view(*scan));
                &&& final(self)@ == old(self)@.after_probe(addr@, found, now)
                &&& events_view(r@) == old(self)@.probe_events(addr@, found)
            }),
    {
        let mut events: Vec<AppEvent> = Vec::new();
        if let Ok(devices) = scan {
            if let Some(d) = find_monitored(devices, &self.device_id, addr) {
                self.last_seen_alive = Some(now);
                if !text::same(d.addr.as_str(), addr) {
                    self.target = Some(d.addr.clone());
                    events.push(
                        AppEvent::TargetAutoChanged { old: addr.to_owned(), new: d.addr.clone() },
                    );
                }
                if self.reported_lost {
                    self.reported_lost = false;
                    events.push(AppEvent::HeartbeatOk);
                }
                assert(events_view(events@) =~= old(self)@.probe_events(addr@, Some(d@)));
                return events;
            }
        }
        assert(events_view(events@) =~= Seq::empty());
        events
    }

    /// Judges a failure, and reports the device lost where it counts as that.
    fn judge(&mut self, since_ok: u64, error: &str, now: u64) -> (r: Vec<AppEvent>)
        ensures
            final(self)@ == old(self)@.after_judging(since_ok, now),
            events_view(r@) == old(self)@.judging_events(since_ok, error@, now),
    {
        let mut events: Vec<AppEvent> = Vec::new();
        let alive_recent: bool = match self.last_seen_alive {
            Some(t) => time_since(t, now) < ALIVE_GRACE,
            None => false,
        };
        if self.armed && !self.reported_lost && since_ok >= HEARTBEAT_TIMEOUT && !alive_recent {
            self.reported_lost = true;
            let head = text::join3(
                "心跳中断超过 ",
                text::decimal(HEARTBEAT_TIMEOUT / SECOND).as_str(),
                " 秒，且局域网发现探测无应答，判定设备物理离线（最后一次心跳错误: ",
            );
            let detail = text::join3(head.as_str(), error, "）");
            events.push(AppEvent::HeartbeatLost { detail });
        }
        assert(events_view(events@) =~= old(self)@.judging_events(since_ok, error@, now));
        events
    }
}

/// Every URL names a WebSocket scheme and ends in the path of the service.
pub proof fn law_url_shape(addr: Seq<char>)
    ensures
        "ws://"@.is_prefix_of(ws_url(addr)) || "wss://"@.is_prefix_of(ws_url(addr)),
        WS_PATH@.is_suffix_of(ws_url(addr)),
{
    let url = ws_url(addr);
    let head = url.subrange(0, url.len() - WS_PATH@.len());
    let a = text::without_trailing(text::trimmed(addr), '/');
    if "ws://"@.is_prefix_of(a) {
        assert("ws://"@ =~= url.subrange(0, "ws://"@.len() as int));
    } else if "wss://"@.is_prefix_of(a) {
        assert("wss://"@ =~= url.subrange(0, "wss://"@.len() as int));
    } else {
        assert("ws://"@ =~= url.subrange(0, "ws://"@.len() as int));
    }
    assert(url =~= head + WS_PATH@);
    assert(WS_PATH@ =~= url.subrange(url.len() - WS_PATH@.len(), url.len() as int));
}

/// Any number of slashes behind an address makes no difference, nor does white space around it.
pub proof fn law_trailing_slashes_do_not_matter(
    before: Seq<char>,
    addr: Seq<char>,
    slashes: Seq<char>,
    after: Seq<char>,
)
    requires
        forall|i: int| 0 <= i < before.len() ==> text::is_white_space(#[trigger] before[i]),
        forall|i: int| 0 <= i < slashes.len() ==> #[trigger] slashes[i] == '/',
        forall|i: int| 0 <= i < after.len() ==> text::is_white_space(#[trigger] after[i]),
    ensures
        ws_url(before + (text::trimmed(addr) + slashes) + after) == ws_url(addr),
        text::trimmed(addr) == addr ==> ws_url(addr + slashes) == ws_url(addr),
{
    let core = text::trimmed(addr);
    text::lemma_trimmed_ignores_white_space(before, core + slashes, after);
    text::lemma_trimmed_has_no_ends(addr);
    let full = core + slashes;
    if full.len() > 0 {
        if core.len() > 0 {
            assert(full.first() == core.first());
        } else {
            assert(full.first() == slashes[0]);
        }
        if slashes.len() > 0 {
            assert(full.last() == slashes[slashes.len() - 1]);
        } else {
            assert(full =~= core);
        }
    }
    assert(text::trimmed(full) == full);
    text::lemma_without_trailing_more(core, slashes, '/');
}

/// The three ways to write an address mean the same: a host alone, the host with the default
/// port, and the two with the scheme in front.
pub proof fn law_three_spellings_agree(host: Seq<char>)
    requires
        host.len() > 0,
        !host.contains(':'),
        text::trimmed(host) == host,
        host.last() != '/',
    ensures
        ws_url(host + ":8123"@) == ws_url(host),
        ws_url("ws://"@ + host + ":8123"@) == ws_url(host),
        ws_url(host) == "ws://"@ + host + ":8123/ws"@,
{
    reveal_strlit("ws://");
    reveal_strlit("wss://");
    reveal_strlit(":");
    reveal_strlit(":8123");
    reveal_strlit("/ws");
    reveal_strlit(":8123/ws");
    reveal_with_fuel(text::decimal_digits, 5);
    assert(text::decimal_digits(8123) =~= seq!['8', '1', '2', '3']);
    assert(":"@ + text::decimal_digits(8123) =~= ":8123"@);
    text::lemma_trimmed_ends(host);
    assert(host[0] == host.first());
    // The host alone.
    if "ws://"@.is_prefix_of(host) {
        assert(host[2] == ':') by {
            assert("ws://"@[2] == host.subrange(0, 5)[2]);
        }
        assert(host.contains(':'));
    }
    if "wss://"@.is_prefix_of(host) {
        assert(host[3] == ':') by {
            assert("wss://"@[3] == host.subrange(0, 6)[3]);
        }
        assert(host.contains(':'));
    }
    assert(ws_url(host) =~= "ws://"@ + host + ":8123/ws"@);
    // With the port.
    let with_port = host + ":8123"@;
    assert(with_port.last() == '3');
    assert(with_port.first() == host.first());
    assert(with_port[host.len() as int] == ':');
    assert(with_port.contains(':'));
    if "ws://"@.is_prefix_of(with_port) {
        assert("ws://"@[2] == with_port.subrange(0, 5)[2]);
        assert("ws://"@[3] == with_port.subrange(0, 5)[3]);
        assert(with_port[2] == ':' && with_port[3] == '/');
        if host.len() > 2 {
            assert(host[2] == ':');
            assert(host.contains(':'));
        }
    }
    if "wss://"@.is_prefix_of(with_port) {
        assert("wss://"@[3] == with_port.subrange(0, 6)[3]);
        assert("wss://"@[4] == with_port.subrange(0, 6)[4]);
        assert(with_port[3] == ':' && with_port[4] == '/');
        if host.len() > 3 {
            assert(host[3] == ':');
            assert(host.contains(':'));
        }
    }
    assert(text::trimmed(with_port) == with_port);
    assert(ws_url(with_port) =~= "ws://"@ + host + ":8123/ws"@);
    // With the scheme as well.
    let full = "ws://"@ + host + ":8123"@;
    assert(full.last() == '3');
    assert(full.first() == 'w');
    assert(text::trimmed(full) == full);
    assert("ws://"@ =~= full.subrange(0, 5));
    assert(ws_url(full) =~= "ws://"@ + host + ":8123/ws"@);
}

} // verus!
