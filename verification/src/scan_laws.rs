//! What a scan does, call by call, in plain bytes, numbers and texts.
//!
//! Each law is about the result of a call, whatever it is. Times are nanoseconds.
use vstd::prelude::*;
use vstd::utf8::{decode_utf8, valid_utf8};

use crate::crypto::{open_frame, FrameError};
use crate::discovery::{
    broadcast_source, decode_announce, discover_frame, read_announce, scan_sources, sender_step,
    Findings, Interface, Scan, ScanError, ScanSource, SenderStep,
};
use crate::events::Device;
use crate::json;
use crate::protocol::Message;
use crate::text;
use crate::text_laws::chars;

verus! {

/// A broadcast address that reaches a network: neither on this machine nor no address at all.
pub open spec fn reaches(b: [u8; 4]) -> bool {
    b@[0] != 127 && !(b@[0] == 0 && b@[1] == 0 && b@[2] == 0 && b@[3] == 0)
}

/// The two devices have the same name, address and identity.
pub open spec fn is_like(a: Device, b: Device) -> bool {
    a.name@ == b.name@ && a.addr@ == b.addr@ && chars(a.id) == chars(b.id)
}

/// An interface with an IPv4 address and the broadcast address `b` has a sender, bound to its
/// address and sending to `b`, exactly if the first byte of `b` is not 127 and its bytes are not all
/// zero.
pub proof fn law_interface_has_its_sender(ip: [u8; 4], b: [u8; 4], r: Option<ScanSource>)
    requires
        call_ensures(broadcast_source, (Interface::V4 { ip, broadcast: Some(b) },), r),
    ensures
        r is Some <==> b@[0] != 127 && !(b@[0] == 0 && b@[1] == 0 && b@[2] == 0 && b@[3] == 0),
        r matches Some(source) ==> source.bind@ == ip@ && source.dst@ == b@,
{
}

/// An interface without a broadcast address has no sender.
pub proof fn law_other_interfaces_have_none(
    ip: [u8; 4],
    without: Option<ScanSource>,
    v6: Option<ScanSource>,
)
    requires
        call_ensures(broadcast_source, (Interface::V4 { ip, broadcast: None },), without),
        call_ensures(broadcast_source, (Interface::V6,), v6),
    ensures
        without is None,
        v6 is None,
{
}

/// The senders of a scan are those of the interfaces, and last one on this machine itself: every
/// interface whose broadcast address reaches a network has its sender among them, and every sender
/// but the last belongs to such an interface.
pub proof fn law_scan_has_every_sender(interfaces: &Vec<Interface>, r: Vec<ScanSource>)
    requires
        call_ensures(scan_sources, (interfaces,), r),
    ensures
        r@.len() > 0,
        r@.last().bind@ == seq![127u8, 0u8, 0u8, 1u8],
        r@.last().dst@ == seq![127u8, 0u8, 0u8, 1u8],
        forall|i: int, ip: [u8; 4], b: [u8; 4]|
            0 <= i < interfaces@.len() && #[trigger] interfaces@[i] == (#[trigger] sender_at(ip, b))
                && b@[0] != 127 && !(b@[0] == 0 && b@[1] == 0 && b@[2] == 0 && b@[3] == 0)
                ==> exists|j: int|
                0 <= j < r@.len() - 1 && (#[trigger] r@[j]).bind == ip && r@[j].dst == b,
        forall|j: int|
            0 <= j < r@.len() - 1 ==> exists|i: int|
                0 <= i < interfaces@.len() && #[trigger] interfaces@[i] == sender_at(
                    (#[trigger] r@[j]).bind,
                    r@[j].dst,
                ) && reaches(r@[j].dst),
{
    let sources = crate::discovery::sources_on(interfaces@);
    lemma_sources(interfaces@);
    assert forall|i: int, ip: [u8; 4], b: [u8; 4]|
        0 <= i < interfaces@.len() && #[trigger] interfaces@[i] == (#[trigger] sender_at(ip, b))
            && reaches(b) implies exists|j: int|
        0 <= j < r@.len() - 1 && (#[trigger] r@[j]).bind == ip && r@[j].dst == b by {
        let j = choose|j: int|
            0 <= j < sources.len() && (#[trigger] sources[j]).bind == ip && sources[j].dst == b;
        assert(r@.drop_last()[j] == r@[j]);
    }
    assert forall|j: int| 0 <= j < r@.len() - 1 implies exists|i: int|
        0 <= i < interfaces@.len() && #[trigger] interfaces@[i] == sender_at(
            (#[trigger] r@[j]).bind,
            r@[j].dst,
        ) && reaches(r@[j].dst) by {
        assert(r@.drop_last()[j] == r@[j]);
        assert(sources[j] == r@[j]);
    }
}

/// An interface with an IPv4 address and a broadcast address.
pub open spec fn sender_at(ip: [u8; 4], b: [u8; 4]) -> Interface {
    Interface::V4 { ip, broadcast: Some(b) }
}

/// Which senders the interfaces give.
proof fn lemma_sources(interfaces: Seq<Interface>)
    ensures
        ({
            let sources = crate::discovery::sources_on(interfaces);
            &&& forall|i: int, ip: [u8; 4], b: [u8; 4]|
                0 <= i < interfaces.len() && #[trigger] interfaces[i] == (#[trigger] sender_at(
                    ip,
                    b,
                )) && reaches(b) ==> exists|j: int|
                    0 <= j < sources.len() && (#[trigger] sources[j]).bind == ip && sources[j].dst
                        == b
            &&& forall|j: int|
                0 <= j < sources.len() ==> exists|i: int|
                    0 <= i < interfaces.len() && #[trigger] interfaces[i] == sender_at(
                        (#[trigger] sources[j]).bind,
                        sources[j].dst,
                    ) && reaches(sources[j].dst)
        }),
    decreases interfaces.len(),
{
    if interfaces.len() > 0 {
        let rest = interfaces.drop_last();
        let before = crate::discovery::sources_on(rest);
        let sources = crate::discovery::sources_on(interfaces);
        lemma_sources(rest);
        assert forall|i: int, ip: [u8; 4], b: [u8; 4]|
            0 <= i < interfaces.len() && #[trigger] interfaces[i] == (#[trigger] sender_at(ip, b))
                && reaches(b) implies exists|j: int|
            0 <= j < sources.len() && (#[trigger] sources[j]).bind == ip && sources[j].dst == b by {
            if i < rest.len() {
                assert(rest[i] == interfaces[i]);
                let j = choose|j: int|
                    0 <= j < before.len() && (#[trigger] before[j]).bind == ip && before[j].dst
                        == b;
                assert(sources[j] == before[j]);
            } else {
                assert(interfaces.last() == sender_at(ip, b));
                let j = sources.len() - 1;
                assert(sources[j].bind == ip && sources[j].dst == b);
            }
        }
        assert forall|j: int| 0 <= j < sources.len() implies exists|i: int|
            0 <= i < interfaces.len() && #[trigger] interfaces[i] == sender_at(
                (#[trigger] sources[j]).bind,
                sources[j].dst,
            ) && reaches(sources[j].dst) by {
            if j < before.len() {
                assert(sources[j] == before[j]);
                let i = choose|i: int|
                    0 <= i < rest.len() && #[trigger] rest[i] == sender_at(
                        before[j].bind,
                        before[j].dst,
                    ) && reaches(before[j].dst);
                assert(interfaces[i] == rest[i]);
            } else {
                let i = interfaces.len() - 1;
                assert(interfaces[i] == sender_at(sources[j].bind, sources[j].dst));
            }
        }
    }
}

/// One more interface adds its sender, where it has one, behind those of the interfaces before it;
/// without any interface there is only the sender on this machine.
pub proof fn law_senders_come_in_order(
    fewer: &Vec<Interface>,
    more: &Vec<Interface>,
    x: Interface,
    before: Vec<ScanSource>,
    own: Option<ScanSource>,
    after: Vec<ScanSource>,
)
    requires
        call_ensures(scan_sources, (fewer,), before),
        call_ensures(scan_sources, (more,), after),
        call_ensures(broadcast_source, (x,), own),
        more@ == fewer@.push(x),
    ensures
        fewer@.len() == 0 ==> before@.len() == 1,
        own is None ==> after@.drop_last() == before@.drop_last(),
        own matches Some(source) ==> after@.drop_last() == before@.drop_last().push(source),
{
    assert(more@.drop_last() =~= fewer@);
    assert(more@.last() == x);
}

/// A message gives a device exactly if it is an announcement. The device has the name that it gives,
/// or the usual one, its identity, and the address of its sender with the port that it gives, or the
/// usual one.
pub proof fn law_announcement_is_read(message: Message, ip: &str, r: Option<Device>)
    requires
        call_ensures(read_announce, (message, ip), r),
    ensures
        r is Some <==> chars(message.typ) == Some("announce"@),
        r matches Some(device) ==> {
            &&& device.name@ == match message.name {
                Some(name) => name@,
                None => "heartbeat-server"@,
            }
            &&& chars(device.id) == chars(message.id)
            &&& message.ws_port is None ==> device.addr@ == ip@ + ":8123"@
            &&& message.ws_port matches Some(n) ==> device.addr@ == ip@ + ":"@
                + text::decimal_digits((n % 65536) as nat)
        },
{
    assert(chars(message.typ) == message@.typ && chars(message.name) == message@.name && chars(
        message.id,
    ) == message@.id);
    if let Some(device) = r {
        assert(chars(device.id) == device@.id);
        if message.ws_port is None {
            reveal_strlit(":");
            reveal_strlit(":8123");
            reveal_with_fuel(text::decimal_digits, 5);
            assert(text::decimal_digits(8123) =~= seq!['8', '1', '2', '3']);
            assert(device.addr@ =~= ip@ + ":8123"@);
        }
    }
}

/// A datagram gives what opening it as a frame, reading the message and reading the announcement
/// give; where it is no text, or does not open, it gives nothing.
pub proof fn law_datagram_is_opened_and_read(
    data: &[u8],
    ip: &str,
    frame: &str,
    opened: Result<serde_json::Value, FrameError>,
    message: Message,
    read: Option<Device>,
    r: Option<Device>,
)
    requires
        call_ensures(decode_announce, (data, ip), r),
        call_ensures(open_frame, (frame,), opened),
        opened matches Ok(value) ==> call_ensures(Message::from_json, (&value,), message),
        call_ensures(read_announce, (message, ip), read),
    ensures
        !valid_utf8(data@) ==> r is None,
        valid_utf8(data@) && frame@ == decode_utf8(data@) ==> {
            &&& opened is Err ==> r is None
            &&& opened is Ok ==> {
                &&& r is Some <==> read is Some
                &&& r is Some ==> is_like(r->0, read->0)
            }
        },
{
    if let Some(device) = r {
        assert(chars(device.id) == device@.id);
    }
    if let Some(device) = read {
        assert(chars(device.id) == device@.id);
    }
}

/// The discovery request opens to an object with the kind and the nonce, and no other member.
pub proof fn law_request_holds_kind_and_nonce(
    nonce: &str,
    r: String,
    frame: &str,
    opened: Result<serde_json::Value, FrameError>,
    key: Seq<char>,
)
    requires
        call_ensures(discover_frame, (nonce,), r),
        frame@ == r@,
        call_ensures(open_frame, (frame,), opened),
    ensures
        opened matches Ok(value) && {
            let t = json::json_text(value);
            &&& json::json_str_at(t, "type"@) == Some("discover"@)
            &&& json::json_str_at(t, "nonce"@) == Some(nonce@)
            &&& key != "type"@ && key != "nonce"@ ==> json::json_str_at(t, key) is None
            &&& json::json_u64_at(t, key) is None
        },
{
}

/// Found nothing, then devices one by one: a new address comes last, and one that is known replaces
/// what was found there. No address is found twice.
pub proof fn law_devices_are_collected(
    empty: Findings,
    nothing: Vec<Device>,
    f: &mut Findings,
    device: Device,
    before: Vec<Device>,
    after: Vec<Device>,
    k: int,
)
    requires
        call_ensures(Findings::new, (), empty),
        call_ensures(Findings::into_devices, (empty,), nothing),
        old(f).wf(),
        call_ensures(Findings::into_devices, (*old(f),), before),
        call_ensures(Findings::add, (f, device), ()),
        call_ensures(Findings::into_devices, (*final(f),), after),
    ensures
        nothing@.len() == 0,
        forall|i: int, j: int|
            0 <= i < j < after@.len() ==> (#[trigger] after@[i]).addr@ != (#[trigger] after@[j]).addr@,
        (forall|i: int| 0 <= i < before@.len() ==> (#[trigger] before@[i]).addr@ != device.addr@)
            ==> after@.len() == before@.len() + 1 && is_like(after@.last(), device) && (forall|
            i: int,
        |
            0 <= i < before@.len() ==> is_like(#[trigger] after@[i], before@[i])),
        0 <= k < before@.len() && before@[k].addr@ == device.addr@ ==> after@.len() == before@.len()
            && is_like(after@[k], device) && (forall|i: int|
            0 <= i < before@.len() && i != k ==> is_like(#[trigger] after@[i], before@[i])),
{
    lemma_collected(old(f)@, final(f)@, before@, after@, device, k);
    assert(crate::events::devices_view(nothing@).len() == nothing@.len());
}

/// What is collected, in terms of the devices.
proof fn lemma_collected(
    was: Seq<crate::events::DeviceView>,
    is: Seq<crate::events::DeviceView>,
    before: Seq<Device>,
    after: Seq<Device>,
    device: Device,
    k: int,
)
    requires
        crate::events::devices_view(before) == was,
        crate::events::devices_view(after) == is,
        crate::discovery::distinct_addrs(was),
        crate::discovery::distinct_addrs(is),
        is == crate::discovery::with_reply(was, device@),
    ensures
        forall|i: int, j: int|
            0 <= i < j < after.len() ==> (#[trigger] after[i]).addr@ != (#[trigger] after[j]).addr@,
        (forall|i: int| 0 <= i < before.len() ==> (#[trigger] before[i]).addr@ != device.addr@)
            ==> after.len() == before.len() + 1 && is_like(after.last(), device) && (forall|i: int|
            0 <= i < before.len() ==> is_like(#[trigger] after[i], before[i])),
        0 <= k < before.len() && before[k].addr@ == device.addr@ ==> after.len() == before.len()
            && is_like(after[k], device) && (forall|i: int|
            0 <= i < before.len() && i != k ==> is_like(#[trigger] after[i], before[i])),
{
    assert(forall|i: int|
        0 <= i < before.len() ==> #[trigger] was[i] == before[i]@ && chars(before[i].id)
            == was[i].id);
    assert(forall|i: int|
        0 <= i < after.len() ==> #[trigger] is[i] == after[i]@ && chars(after[i].id) == is[i].id);
    assert(chars(device.id) == device@.id);
    assert(is.len() == after.len() && was.len() == before.len());
    assert forall|i: int, j: int| 0 <= i < j < after.len() implies (#[trigger] after[i]).addr@ != (
    #[trigger] after[j]).addr@ by {
        assert(is[i].addr != is[j].addr);
    }
    if forall|i: int| 0 <= i < before.len() ==> (#[trigger] before[i]).addr@ != device.addr@ {
        assert forall|i: int| 0 <= i < was.len() implies (#[trigger] was[i]).addr
            != device@.addr by {
            assert(before[i].addr@ != device.addr@);
        }
        assert(is == was.push(device@));
        assert(is[was.len() as int] == device@);
        assert forall|i: int| 0 <= i < before.len() implies is_like(
            #[trigger] after[i],
            before[i],
        ) by {
            assert(is[i] == was[i]);
        }
    }
    if 0 <= k < before.len() && before[k].addr@ == device.addr@ {
        assert(was[k].addr == device@.addr);
        let at = crate::discovery::addr_index(was, device@.addr)->0;
        assert(was[at].addr == device@.addr);
        if at < k {
            assert(was[at].addr != was[k].addr);
        } else if k < at {
            assert(was[k].addr != was[at].addr);
        }
        assert(is == was.update(k, device@));
        assert(is[k] == device@);
        assert forall|i: int| 0 <= i < before.len() && i != k implies is_like(
            #[trigger] after[i],
            before[i],
        ) by {
            assert(is[i] == was[i]);
        }
    }
}

/// A scan lasts three seconds, whatever comes, and until then it waits for the rest of them.
pub proof fn law_scan_lasts_three_seconds(
    begin: u64,
    s: Scan,
    end: u64,
    now: u64,
    left: Option<u64>,
)
    requires
        begin + 3_000_000_000 <= u64::MAX,
        call_ensures(Scan::new, (begin,), s),
        call_ensures(Scan::deadline, (&s,), end),
        call_ensures(Scan::wait, (&s, now), left),
    ensures
        end == begin + 3_000_000_000,
        left is Some <==> now < begin + 3_000_000_000,
        left matches Some(t) ==> now + t == begin + 3_000_000_000,
{
}

/// A sender that goes to work and a reply that comes change neither the end of the scan nor the time
/// to wait for it.
pub proof fn law_end_of_a_scan_stays(
    s: &mut Scan,
    t: &mut Scan,
    device: Device,
    ends: (u64, u64, u64, u64),
    now: u64,
    waits: (Option<u64>, Option<u64>, Option<u64>, Option<u64>),
)
    requires
        old(s).wf(),
        old(t).wf(),
        call_ensures(Scan::sender_started, (s,), ()),
        call_ensures(Scan::reply, (t, device), ()),
        call_ensures(Scan::deadline, (&*old(s),), ends.0),
        call_ensures(Scan::deadline, (&*final(s),), ends.1),
        call_ensures(Scan::deadline, (&*old(t),), ends.2),
        call_ensures(Scan::deadline, (&*final(t),), ends.3),
        call_ensures(Scan::wait, (&*old(s), now), waits.0),
        call_ensures(Scan::wait, (&*final(s), now), waits.1),
        call_ensures(Scan::wait, (&*old(t), now), waits.2),
        call_ensures(Scan::wait, (&*final(t), now), waits.3),
    ensures
        ends.1 == ends.0,
        ends.3 == ends.2,
        waits.1 == waits.0,
        waits.3 == waits.2,
{
}

/// A scan without any sender fails, however it goes on, and with one it gives what was found: nothing
/// at first, and then each reply, where a later one from an address replaces the earlier one.
pub proof fn law_scan_gives_what_replied(
    begin: u64,
    fresh: Scan,
    failed: Result<Vec<Device>, String>,
    s: &mut Scan,
    device: Device,
    before: Result<Vec<Device>, String>,
    after: Result<Vec<Device>, String>,
    k: int,
)
    requires
        begin + 3_000_000_000 <= u64::MAX,
        call_ensures(Scan::new, (begin,), fresh),
        call_ensures(Scan::finish, (fresh,), failed),
        old(s).wf(),
        call_ensures(Scan::finish, (*old(s),), before),
        call_ensures(Scan::reply, (s, device), ()),
        call_ensures(Scan::finish, (*final(s),), after),
    ensures
        failed matches Err(e) && e@ == "未找到可发起扫描的网卡（没有可用的 IPv4 广播地址）"@,
        before is Ok <==> after is Ok,
        after matches Err(e) ==> e@ == "未找到可发起扫描的网卡（没有可用的 IPv4 广播地址）"@,
        before matches Ok(o) ==> {
            let f = after->Ok_0;
            &&& forall|i: int, j: int|
                0 <= i < j < f@.len() ==> (#[trigger] f@[i]).addr@ != (#[trigger] f@[j]).addr@
            &&& (forall|i: int| 0 <= i < o@.len() ==> (#[trigger] o@[i]).addr@ != device.addr@)
                ==> f@.len() == o@.len() + 1 && is_like(f@.last(), device) && (forall|i: int|
                0 <= i < o@.len() ==> is_like(#[trigger] f@[i], o@[i]))
            &&& 0 <= k < o@.len() && o@[k].addr@ == device.addr@ ==> f@.len() == o@.len()
                && is_like(f@[k], device) && (forall|i: int|
                0 <= i < o@.len() && i != k ==> is_like(#[trigger] f@[i], o@[i]))
        },
{
    if let Ok(o) = before {
        let f = after->Ok_0;
        lemma_collected(old(s)@.found, final(s)@.found, o@, f@, device, k);
    }
}

/// A sender that goes to work makes a scan succeed, with the devices that it had found; a new scan
/// has found none.
pub proof fn law_sender_makes_a_scan_succeed(
    s: &mut Scan,
    before: Result<Vec<Device>, String>,
    after: Result<Vec<Device>, String>,
    begin: u64,
)
    requires
        old(s).wf(),
        call_ensures(Scan::finish, (*old(s),), before),
        call_ensures(Scan::sender_started, (s,), ()),
        call_ensures(Scan::finish, (*final(s),), after),
        begin + 3_000_000_000 <= u64::MAX,
    ensures
        after is Ok,
        before matches Ok(o) ==> after->Ok_0@.len() == o@.len() && forall|i: int|
            0 <= i < o@.len() ==> is_like(#[trigger] after->Ok_0@[i], o@[i]),
        call_ensures(Scan::new, (begin,), *old(s)) ==> after->Ok_0@.len() == 0,
{
    let f = after->Ok_0;
    let is = crate::events::devices_view(f@);
    assert(is.len() == f@.len());
    if let Ok(o) = before {
        let was = crate::events::devices_view(o@);
        assert(was.len() == o@.len());
        assert forall|i: int| 0 <= i < o@.len() implies is_like(#[trigger] f@[i], o@[i]) by {
            assert(was[i] == o@[i]@ && is[i] == f@[i]@);
            assert(chars(f@[i].id) == is[i].id && chars(o@[i].id) == was[i].id);
        }
    }
}

/// A sender sends every four tenths of a second until the scan ends, or a request could not be sent.
pub proof fn law_sender_repeats_its_request(deadline: u64, now: u64, sent: bool, r: SenderStep)
    requires
        call_ensures(sender_step, (deadline, now, sent), r),
    ensures
        r is Stop <==> !sent || now >= deadline,
        r matches SenderStep::Broadcast { listen } ==> listen == 400_000_000,
{
}

/// The words for a scan that cannot begin.
pub proof fn law_words_for_a_scan_that_cannot_begin(e: &ScanError, r: String)
    requires
        call_ensures(ScanError::message, (e,), r),
    ensures
        e matches ScanError::Task(t) ==> r@ == "枚举网卡任务失败: "@ + t@,
        e matches ScanError::Interfaces(t) ==> r@ == "枚举网卡失败: "@ + t@,
{
}

} // verus!
