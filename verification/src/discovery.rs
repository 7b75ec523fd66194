//! Discovery of heartbeat services in the local network.
//!
//! The discovery request goes out from every IPv4 interface to the broadcast address of its
//! network, and to this machine itself. Whoever holds the passphrase answers with an announcement;
//! everything that does not open is noise.
use vstd::prelude::*;
use vstd::utf8::{decode_utf8, encode_utf8, encode_utf8_decode_utf8, encode_utf8_valid_utf8, valid_utf8};

use crate::crypto;
use crate::events::{devices_view, opt_text, scan_view, Device, DeviceView};
use crate::heartbeat::{is_text, text_or, MILLISECOND};
use crate::json;
use crate::protocol::{self, Announce, Discover, Message, MessageView, SECOND, WS_PORT};
use crate::text;

verus! {

/// Length of a scan.
pub const SCAN_DURATION: u64 = 3 * SECOND;

/// Time between two broadcasts of a scan.
pub const SCAN_BROADCAST_INTERVAL: u64 = 400 * MILLISECOND;

/// Calls `std::str::from_utf8`: the bytes as text, where they are valid UTF-8.
#[verifier::external_body]
fn from_utf8(data: &[u8]) -> (r: Option<&str>)
    ensures
        match r {
            Some(s) => valid_utf8(data@) && s@ == decode_utf8(data@),
            None => !valid_utf8(data@),
        },
{
    std::str::from_utf8(data).ok()
}

/// The sealed discovery request. It opens to the request with the nonce, and nothing else.
pub fn discover_frame(nonce: &str) -> (r: String)
    ensures
        crypto::opened_json(r@) matches Ok(t) && {
            &&& protocol::message_of(t).typ == Some("discover"@)
            &&& protocol::message_of(t).nonce == Some(nonce@)
        },
        exists|discover: Discover, value: serde_json::Value|
            discover.typ@ == "discover"@ && discover.nonce@ == nonce@ && #[trigger] protocol::holds(
                value,
                discover.members(),
            ) && crypto::opened_json(r@) == Ok::<Seq<u8>, crypto::FrameErrorView>(
                json::json_text(value),
            ),
{
    let discover = Discover::new(nonce);
    let value = discover.to_json();
    proof {
        protocol::law_discover_reads_back(discover, value);
    }
    let r = crypto::seal_json(&value);
    assert(protocol::holds(value, discover.members()));
    r
}

/// The device behind an announcement that came from `ip`, in terms of plain values. A port outside
/// the range of ports counts modulo that range.
pub open spec fn announced_device(message: MessageView, ip: Seq<char>) -> Option<DeviceView> {
    if message.typ == Some("announce"@) {
        let port = match message.ws_port {
            Some(n) => n % 65536,
            None => WS_PORT as u64,
        };
        Some(
            DeviceView {
                name: match message.name {
                    Some(t) => t,
                    None => "heartbeat-server"@,
                },
                addr: ip + ":"@ + text::decimal_digits(port as nat),
                id: message.id,
            },
        )
    } else {
        None
    }
}

/// The device behind a datagram that came from `ip`: none where the datagram is not the text of a
/// frame that opens to an announcement.
pub open spec fn announced(data: Seq<u8>, ip: Seq<char>) -> Option<DeviceView> {
    if valid_utf8(data) {
        match crypto::opened_json(decode_utf8(data)) {
            Ok(t) => announced_device(protocol::message_of(t), ip),
            Err(_) => None,
        }
    } else {
        None
    }
}

/// An optional device in terms of plain values.
pub open spec fn opt_device(device: Option<Device>) -> Option<DeviceView> {
    match device {
        Some(d) => Some(d@),
        None => None,
    }
}

/// The device behind an announcement that came from `ip`.
pub fn read_announce(message: Message, ip: &str) -> (r: Option<Device>)
    ensures
        opt_device(r) == announced_device(message@, ip@),
{
    if !is_text(&message.typ, "announce") {
        return None;
    }
    let port: u64 = match message.ws_port {
        Some(n) => n % 65536,
        None => WS_PORT as u64,
    };
    let name = text_or(&message.name, "heartbeat-server").to_owned();
    let addr = text::join3(ip, ":", text::decimal(port).as_str());
    Some(Device { name, addr, id: message.id })
}

/// Decodes an answer to a discovery request that came from `ip`; noise gives `None`.
pub fn decode_announce(data: &[u8], ip: &str) -> (r: Option<Device>)
    ensures
        opt_device(r) == announced(data@, ip@),
{
    match from_utf8(data) {
        Some(frame) => match crypto::open_frame(frame) {
            Ok(value) => read_announce(Message::from_json(&value), ip),
            Err(_) => None,
        },
        None => None,
    }
}

/// An announcement gives the device its name and identity, at the address that it came from and
/// the port that it names.
pub proof fn law_announcement_gives_the_device(
    announce: Announce,
    value: serde_json::Value,
    frame: Seq<char>,
    ip: Seq<char>,
)
    requires
        announce.typ@ == "announce"@,
        protocol::holds(value, announce.members()),
        crypto::opened(frame) == Ok::<Seq<u8>, crypto::FrameErrorView>(json::json_text(value)),
    ensures
        announced(encode_utf8(frame), ip) == Some(
            DeviceView {
                name: announce.name@,
                addr: ip + ":"@ + text::decimal_digits(announce.ws_port as nat),
                id: opt_text(announce.id),
            },
        ),
{
    protocol::law_announce_reads_back(announce, value);
    encode_utf8_valid_utf8(frame);
    encode_utf8_decode_utf8(frame);
}

/// A network interface.
#[derive(Clone, Copy, Debug, PartialEq, Eq)]
pub enum Interface {
    /// With an IPv4 address, and the broadcast address of its network where it has one.
    V4 { ip: [u8; 4], broadcast: Option<[u8; 4]> },
    /// With an IPv6 address.
    V6,
}

/// One sender of discovery requests: the address to bind to, and the address to send to.
#[derive(Clone, Copy, Debug, PartialEq, Eq)]
pub struct ScanSource {
    pub bind: [u8; 4],
    pub dst: [u8; 4],
}

/// An address of this machine itself.
pub open spec fn is_loopback(ip: [u8; 4]) -> bool {
    ip@[0] == 127
}

/// The address that stands for none.
pub open spec fn is_unspecified(ip: [u8; 4]) -> bool {
    ip@[0] == 0 && ip@[1] == 0 && ip@[2] == 0 && ip@[3] == 0
}

/// The sender on an interface; none without a broadcast address that reaches a network.
pub open spec fn source_on(interface: Interface) -> Option<ScanSource> {
    match interface {
        Interface::V4 { ip, broadcast: Some(dst) } => if is_loopback(dst) || is_unspecified(dst) {
            None
        } else {
            Some(ScanSource { bind: ip, dst })
        },
        _ => None,
    }
}

/// The senders on the interfaces, in their order.
pub open spec fn sources_on(interfaces: Seq<Interface>) -> Seq<ScanSource>
    decreases interfaces.len(),
{
    if interfaces.len() == 0 {
        Seq::empty()
    } else {
        match source_on(interfaces.last()) {
            Some(source) => sources_on(interfaces.drop_last()).push(source),
            None => sources_on(interfaces.drop_last()),
        }
    }
}

/// The sender on an interface; none without a broadcast address that reaches a network.
pub fn broadcast_source(interface: Interface) -> (r: Option<ScanSource>)
    ensures
        r == source_on(interface),
{
    match interface {
        Interface::V4 { ip, broadcast: Some(dst) } => {
            if dst[0] == 127 || (dst[0] == 0 && dst[1] == 0 && dst[2] == 0 && dst[3] == 0) {
                None
            } else {
                Some(ScanSource { bind: ip, dst })
            }
        },
        _ => None,
    }
}

/// All senders of a scan: one on each interface that can broadcast, and last one to this machine
/// itself.
pub fn scan_sources(interfaces: &Vec<Interface>) -> (r: Vec<ScanSource>)
    ensures
        r@.len() == sources_on(interfaces@).len() + 1,
        r@.drop_last() == sources_on(interfaces@),
        r@.last().bind@ == seq![127u8, 0u8, 0u8, 1u8],
        r@.last().dst@ == seq![127u8, 0u8, 0u8, 1u8],
{
    let mut sources: Vec<ScanSource> = Vec::new();
    let n: usize = interfaces.len();
    let mut i: usize = 0;
    assert(interfaces@.subrange(0, 0) =~= Seq::<Interface>::empty());
    while i < n
        invariant
            i <= n,
            n == interfaces@.len(),
            sources@ == sources_on(interfaces@.subrange(0, i as int)),
        decreases n - i,
    {
        proof {
            assert(interfaces@.subrange(0, i + 1).drop_last() =~= interfaces@.subrange(
                0,
                i as int,
            ));
        }
        if let Some(source) = broadcast_source(interfaces[i]) {
            sources.push(source);
        }
        i = i + 1;
    }
    assert(interfaces@.subrange(0, n as int) =~= interfaces@);
    let loopback: [u8; 4] = [127, 0, 0, 1];
    let ghost before = sources@;
    sources.push(ScanSource { bind: loopback, dst: loopback });
    assert(sources@.drop_last() =~= before);
    assert(loopback@ =~= seq![127u8, 0u8, 0u8, 1u8]);
    sources
}

/// No two devices have the same address.
pub open spec fn distinct_addrs(devices: Seq<DeviceView>) -> bool {
    forall|i: int, j: int|
        0 <= i < j < devices.len() ==> (#[trigger] devices[i]).addr != (#[trigger] devices[j]).addr
}

/// The devices that a scan has found so far, one for each address.
pub struct Findings {
    devices: Vec<Device>,
}

impl View for Findings {
    type V = Seq<DeviceView>;

    closed spec fn view(&self) -> Seq<DeviceView> {
        devices_view(self.devices@)
    }
}

impl Findings {
    /// No two devices have the same address.
    pub open spec fn wf(&self) -> bool {
        distinct_addrs(self@)
    }

    /// Nothing found yet.
    pub fn new() -> (r: Self)
        ensures
            r.wf(),
            r@ == Seq::<DeviceView>::empty(),
    {
        let r = Findings { devices: Vec::new() };
        assert(r@ =~= Seq::<DeviceView>::empty());
        r
    }

    /// Takes a device in. It replaces the one found at the same address before, if there is one;
    /// the others stay.
    pub fn add(&mut self, device: Device)
        requires
            old(self).wf(),
        ensures
            final(self).wf(),
            final(self)@ == with_reply(old(self)@, device@),
    {
        let n: usize = self.devices.len();
        let mut i: usize = 0;
        let ghost was = self@;
        while i < n
            invariant
                i <= n,
                n == self.devices@.len(),
                was == self@,
                was == old(self)@,
                distinct_addrs(was),
                was == devices_view(self.devices@),
                forall|j: int| 0 <= j < i ==> (#[trigger] was[j]).addr != device@.addr,
            decreases n - i,
        {
            assert(was[i as int] == self.devices@[i as int]@);
            if self.devices[i].addr == device.addr {
                proof {
                    lemma_addr_index(was, device@.addr, i as int);
                }
                self.devices[i] = device;
                assert(self@ =~= was.update(i as int, device@));
                return ;
            }
            i = i + 1;
        }
        proof {
            lemma_addr_absent(was, device@.addr);
        }
        self.devices.push(device);
        assert(self@ =~= was.push(device@));
    }

    /// The devices found.
    pub fn into_devices(self) -> (r: Vec<Device>)
        ensures
            devices_view(r@) == self@,
    {
        self.devices
    }
}

/// The place of the device with an address, if there is one.
pub open spec fn addr_index(devices: Seq<DeviceView>, addr: Seq<char>) -> Option<int> {
    if exists|i: int| 0 <= i < devices.len() && (#[trigger] devices[i]).addr == addr {
        Some(choose|i: int| 0 <= i < devices.len() && (#[trigger] devices[i]).addr == addr)
    } else {
        None
    }
}

/// With distinct addresses, the place of an address is the only one where it stands.
proof fn lemma_addr_index(devices: Seq<DeviceView>, addr: Seq<char>, i: int)
    requires
        distinct_addrs(devices),
        0 <= i < devices.len(),
        devices[i].addr == addr,
    ensures
        addr_index(devices, addr) == Some(i),
{
    let k = addr_index(devices, addr)->0;
    assert(devices[k].addr == addr);
    if k < i {
        assert(devices[k].addr != devices[i].addr);
    } else if i < k {
        assert(devices[i].addr != devices[k].addr);
    }
}

/// An address that stands nowhere has no place.
proof fn lemma_addr_absent(devices: Seq<DeviceView>, addr: Seq<char>)
    requires
        forall|j: int| 0 <= j < devices.len() ==> (#[trigger] devices[j]).addr != addr,
    ensures
        addr_index(devices, addr) is None,
{
}

/// A scan that is going on.
pub struct Scan {
    deadline: u64,
    started: bool,
    found: Findings,
}

/// A scan in terms of plain values.
pub struct ScanView {
    pub deadline: u64,
    pub started: bool,
    pub found: Seq<DeviceView>,
}

impl View for Scan {
    type V = ScanView;

    closed spec fn view(&self) -> ScanView {
        ScanView { deadline: self.deadline, started: self.started, found: self.found@ }
    }
}

/// The findings after one more reply: it replaces the one from the same address, if there is one.
pub open spec fn with_reply(found: Seq<DeviceView>, device: DeviceView) -> Seq<DeviceView> {
    match addr_index(found, device.addr) {
        Some(i) => found.update(i, device),
        None => found.push(device),
    }
}

/// The findings after all of `replies`.
pub open spec fn collected(replies: Seq<DeviceView>) -> Seq<DeviceView>
    decreases replies.len(),
{
    if replies.len() == 0 {
        Seq::empty()
    } else {
        with_reply(collected(replies.drop_last()), replies.last())
    }
}

impl Scan {
    /// No two devices found have the same address.
    pub open spec fn wf(self) -> bool {
        distinct_addrs(self@.found)
    }

    /// Begins a scan at `now`.
    pub fn new(now: u64) -> (r: Self)
        requires
            now + SCAN_DURATION <= u64::MAX,
        ensures
            r.wf(),
            r@.deadline == now + SCAN_DURATION,
            !r@.started,
            r@.found == Seq::<DeviceView>::empty(),
    {
        Scan { deadline: now + SCAN_DURATION, started: false, found: Findings::new() }
    }

    /// The end of the scan.
    pub fn deadline(&self) -> (r: u64)
        ensures
            r == self@.deadline,
    {
        self.deadline
    }

    /// A sender has a socket of its own and goes to work.
    pub fn sender_started(&mut self)
        requires
            old(self).wf(),
        ensures
            final(self).wf(),
            final(self)@ == (ScanView { started: true, ..old(self)@ }),
    {
        self.started = true;
    }

    /// The time to wait for the next reply; `None` says that the scan is over.
    pub fn wait(&self, now: u64) -> (r: Option<u64>)
        ensures
            r == if now < self@.deadline {
                Some((self@.deadline - now) as u64)
            } else {
                None
            },
    {
        if now < self.deadline {
            Some(self.deadline - now)
        } else {
            None
        }
    }

    /// A device has replied.
    pub fn reply(&mut self, device: Device)
        requires
            old(self).wf(),
        ensures
            final(self).wf(),
            final(self)@ == (ScanView { found: with_reply(old(self)@.found, device@), ..old(self)@ }),
    {
        self.found.add(device);
    }

    /// Ends the scan. It failed where it had no sender at all.
    pub fn finish(self) -> (r: Result<Vec<Device>, String>)
        ensures
            scan_view(r) == if !self@.started {
                Err("未找到可发起扫描的网卡（没有可用的 IPv4 广播地址）"@)
            } else {
                Ok::<Seq<DeviceView>, Seq<char>>(self@.found)
            },
    {
        if !self.started {
            Err("未找到可发起扫描的网卡（没有可用的 IPv4 广播地址）".to_owned())
        } else {
            Ok(self.found.into_devices())
        }
    }
}

/// What a sender of discovery requests does next.
#[derive(Clone, Copy, Debug, PartialEq, Eq, Structural)]
pub enum SenderStep {
    /// Send the request, and then listen for so long.
    Broadcast { listen: u64 },
    /// Stop.
    Stop,
}

/// Tells a sender what to do at `now`, where `sent` says whether its last request went out.
pub fn sender_step(deadline: u64, now: u64, sent: bool) -> (r: SenderStep)
    ensures
        r == if sent && now < deadline {
            SenderStep::Broadcast { listen: SCAN_BROADCAST_INTERVAL }
        } else {
            SenderStep::Stop
        },
{
    if sent && now < deadline {
        SenderStep::Broadcast { listen: SCAN_BROADCAST_INTERVAL }
    } else {
        SenderStep::Stop
    }
}

/// Why a scan could not begin.
#[derive(Debug)]
pub enum ScanError {
    /// The interfaces could not be asked for.
    Task(String),
    /// The system did not tell the interfaces.
    Interfaces(String),
}

impl ScanError {
    /// The words for the user.
    pub fn message(&self) -> (r: String)
        ensures
            r@ == match self {
                ScanError::Task(e) => "枚举网卡任务失败: "@ + e@,
                ScanError::Interfaces(e) => "枚举网卡失败: "@ + e@,
            },
    {
        match self {
            ScanError::Task(e) => text::join("枚举网卡任务失败: ", e.as_str()),
            ScanError::Interfaces(e) => text::join("枚举网卡失败: ", e.as_str()),
        }
    }
}

/// Whoever replied is found, once, as it replied last: the devices found have distinct addresses,
/// each of them is the last reply from its address, and no address that replied is missing.
pub proof fn law_scan_finds_whoever_replied(replies: Seq<DeviceView>)
    ensures
        distinct_addrs(collected(replies)),
        forall|i: int|
            0 <= i < collected(replies).len() ==> last_reply(
                replies,
                #[trigger] collected(replies)[i],
            ),
        forall|j: int|
            0 <= j < replies.len() ==> addr_index(
                collected(replies),
                (#[trigger] replies[j]).addr,
            ) is Some,
    decreases replies.len(),
{
    if replies.len() > 0 {
        let before = collected(replies.drop_last());
        let device = replies.last();
        let all = collected(replies);
        law_scan_finds_whoever_replied(replies.drop_last());
        lemma_place_of_addr(before, device.addr);
        assert(replies[replies.len() - 1] == device);
        assert forall|i: int| 0 <= i < all.len() implies last_reply(replies, #[trigger] all[i]) by {
            if all[i] == device {
            } else {
                assert(all[i] == before[i]);
                let k = choose|k: int|
                    0 <= k < replies.len() - 1 && (#[trigger] replies.drop_last()[k]) == before[i]
                        && (forall|m: int|
                        k < m < replies.len() - 1 ==> (#[trigger] replies.drop_last()[m]).addr
                            != before[i].addr);
                assert(replies[k] == before[i]);
                assert(before[i].addr != device.addr) by {
                    if before[i].addr == device.addr {
                        lemma_addr_index(before, device.addr, i);
                    }
                }
                assert forall|m: int| k < m < replies.len() implies (#[trigger] replies[m]).addr
                    != all[i].addr by {
                    if m < replies.len() - 1 {
                        assert(replies.drop_last()[m] == replies[m]);
                    }
                }
            }
        }
        assert forall|j: int| 0 <= j < replies.len() implies addr_index(
            all,
            (#[trigger] replies[j]).addr,
        ) is Some by {
            let addr = replies[j].addr;
            if addr == device.addr {
                let at = match addr_index(before, addr) {
                    Some(i) => i,
                    None => before.len() as int,
                };
                assert(all[at].addr == addr);
            } else {
                assert(replies.drop_last()[j] == replies[j]);
                lemma_place_of_addr(before, addr);
                let i = addr_index(before, addr)->0;
                assert(all[i].addr == addr);
            }
        }
    }
}

/// The device is the last reply from its address.
pub open spec fn last_reply(replies: Seq<DeviceView>, device: DeviceView) -> bool {
    exists|k: int|
        0 <= k < replies.len() && (#[trigger] replies[k]) == device && (forall|m: int|
            k < m < replies.len() ==> (#[trigger] replies[m]).addr != device.addr)
}

/// The place of an address holds that address.
proof fn lemma_place_of_addr(devices: Seq<DeviceView>, addr: Seq<char>)
    ensures
        match addr_index(devices, addr) {
            Some(i) => 0 <= i < devices.len() && devices[i].addr == addr,
            None => forall|j: int|
                0 <= j < devices.len() ==> (#[trigger] devices[j]).addr != addr,
        },
{
}

} // verus!
