//! What the monitor writes into the log of the program.
//!
//! Every heartbeat leaves a line, so that the log can be held against that of the device.
use vstd::prelude::*;

use crate::events::{devices_view, opt_text, scan_view, AppEvent, Device, DeviceView};
use crate::heartbeat::MILLISECOND;
use crate::monitor::{find_device, find_monitored, Monitor, MonitorView};
use crate::protocol::{HEARTBEAT_TIMEOUT, SECOND};
use crate::text;

verus! {

/// Weight of a line.
#[derive(Clone, Copy, Debug, PartialEq, Eq, Structural)]
pub enum Level {
    Info,
    Warn,
    Error,
}

impl Level {
    /// The name of the level, as the log writes it.
    pub fn name(self) -> (r: &'static str)
        ensures
            r@ == match self {
                Level::Info => "INFO"@,
                Level::Warn => "WARN"@,
                Level::Error => "ERROR"@,
            },
    {
        match self {
            Level::Info => "INFO",
            Level::Warn => "WARN",
            Level::Error => "ERROR",
        }
    }
}

/// A line for the log.
#[derive(Debug)]
pub struct Line {
    pub level: Level,
    pub text: String,
}

/// A line in terms of plain values.
pub struct LineView {
    pub level: Level,
    pub text: Seq<char>,
}

impl View for Line {
    type V = LineView;

    open spec fn view(&self) -> LineView {
        LineView { level: self.level, text: self.text@ }
    }
}

/// A list of lines in terms of plain values.
pub open spec fn lines_view(lines: Seq<Line>) -> Seq<LineView> {
    lines.map_values(|l: Line| l@)
}

/// A line of the lowest weight.
pub open spec fn info(text: Seq<char>) -> LineView {
    LineView { level: Level::Info, text }
}

/// A line that warns.
pub open spec fn warn(text: Seq<char>) -> LineView {
    LineView { level: Level::Warn, text }
}

/// Adds a line.
fn push_line(lines: &mut Vec<Line>, level: Level, text: String)
    ensures
        lines_view(final(lines)@) == lines_view(old(lines)@).push(
            LineView { level, text: text@ },
        ),
{
    let ghost before = lines_view(lines@);
    lines.push(Line { level, text });
    assert(lines_view(lines@) =~= before.push(LineView { level, text: text@ }));
}

/// The line when the target is set.
pub fn target_line(target: &Option<String>) -> (r: Line)
    ensures
        r@ == info(
            "设置监控目标: "@ + match opt_text(*target) {
                Some(addr) => addr,
                None => "(停止监控)"@,
            },
        ),
{
    let name = match target {
        Some(addr) => addr.as_str(),
        None => "(停止监控)",
    };
    Line { level: Level::Info, text: text::join("设置监控目标: ", name) }
}

/// The line for a heartbeat that succeeded after so many failures.
pub open spec fn beat_text(addr: Seq<char>, rtt: u64, failures: u32) -> Seq<char> {
    let head = "心跳正常 rtt="@ + text::decimal_digits((rtt / MILLISECOND) as nat) + "ms target="@
        + addr;
    if failures > 0 {
        head + ("（此前连续失败 "@ + text::decimal_digits(failures as nat) + " 次，已恢复）"@)
    } else {
        head
    }
}

/// The lines for a heartbeat that succeeded, by the state before it.
pub open spec fn success_text(
    m: MonitorView,
    addr: Seq<char>,
    id: Option<Seq<char>>,
    rtt: u64,
) -> Seq<LineView> {
    let identity = if id is Some && m.device_id != id {
        seq![info("设备身份 id="@ + id->0 + "（target="@ + addr + "）"@)]
    } else {
        Seq::empty()
    };
    let beat = seq![info(beat_text(addr, rtt, m.consec_fail))];
    let news = if !m.armed {
        seq![info("首次连通，进入戒备状态（此后失联才会触发关机）"@)]
    } else if m.reported_lost {
        seq![info("服务恢复，上报 HeartbeatOk"@)]
    } else {
        Seq::empty()
    };
    identity + beat + news
}

/// The lines for a heartbeat that succeeded, by the state before it.
pub fn success_lines(monitor: &Monitor, addr: &str, id: &Option<String>, rtt: u64) -> (r: Vec<Line>)
    ensures
        lines_view(r@) == success_text(monitor@, addr@, opt_text(*id), rtt),
{
    let mut lines: Vec<Line> = Vec::new();
    assert(lines_view(lines@) =~= Seq::empty());
    if let Some(new_id) = id {
        let known: bool = match &monitor.device_id {
            Some(old_id) => *old_id == *new_id,
            None => false,
        };
        if !known {
            let head = text::join3("设备身份 id=", new_id.as_str(), "（target=");
            push_line(&mut lines, Level::Info, text::join3(head.as_str(), addr, "）"));
        }
    }
    let head = text::join3(
        "心跳正常 rtt=",
        text::decimal(rtt / MILLISECOND).as_str(),
        "ms target=",
    );
    let beat = text::join(head.as_str(), addr);
    if monitor.consec_fail > 0 {
        let note = text::join3(
            "（此前连续失败 ",
            text::decimal(monitor.consec_fail as u64).as_str(),
            " 次，已恢复）",
        );
        push_line(&mut lines, Level::Info, text::join(beat.as_str(), note.as_str()));
    } else {
        push_line(&mut lines, Level::Info, beat);
    }
    if !monitor.armed {
        push_line(
            &mut lines,
            Level::Info,
            "首次连通，进入戒备状态（此后失联才会触发关机）".to_owned(),
        );
    } else if monitor.reported_lost {
        push_line(&mut lines, Level::Info, "服务恢复，上报 HeartbeatOk".to_owned());
    }
    assert(lines_view(lines@) =~= success_text(monitor@, addr@, opt_text(*id), rtt));
    lines
}

/// The line for a heartbeat that failed, by the state before it.
pub fn failure_line(monitor: &Monitor, addr: &str, error: &str) -> (r: Line)
    requires
        monitor.consec_fail < u32::MAX,
    ensures
        r@ == warn(
            "心跳失败（连续第 "@ + text::decimal_digits((monitor.consec_fail + 1) as nat)
                + " 次）target="@ + addr@ + ": "@ + error@,
        ),
{
    let count = text::join3(
        "心跳失败（连续第 ",
        text::decimal(monitor.consec_fail as u64 + 1).as_str(),
        " 次）target=",
    );
    let head = text::join3(count.as_str(), addr, ": ");
    Line { level: Level::Warn, text: text::join(head.as_str(), error) }
}

/// The lines for a probe, by the state before it.
pub open spec fn probe_text(
    m: MonitorView,
    addr: Seq<char>,
    scan: Result<Seq<DeviceView>, Seq<char>>,
) -> Seq<LineView> {
    match scan {
        Err(e) => seq![warn("失联验证探测失败（按未发现处理）: "@ + e)],
        Ok(devices) => match find_device(devices, m.device_id, addr) {
            None => if devices.len() == 0 {
                seq![info("失联验证探测：局域网内未发现任何设备"@)]
            } else {
                seq![
                    info(
                        "失联验证探测：发现 "@ + text::decimal_digits(devices.len())
                            + " 台设备但均非监控目标（按 id/地址识别），视为未发现"@,
                    ),
                ]
            },
            Some(d) => if d.addr == addr {
                let alive = seq![
                    info(
                        "失联验证探测：设备 "@ + d.name + "（"@ + d.addr
                            + "）仍应答发现广播，判定设备在线，疑似网络路径问题，暂不触发失联"@,
                    ),
                ];
                if m.reported_lost {
                    alive.push(info("设备经探测确认恢复，上报 HeartbeatOk"@))
                } else {
                    alive
                }
            } else {
                seq![
                    warn(
                        "失联验证探测：设备 "@ + d.name + " 已改用新地址 "@ + d.addr + "（原 "@ + addr
                            + "，IP 可能被重新分配），自动切换监控目标"@,
                    ),
                ]
            },
        },
    }
}

/// The lines for a probe, by the state before it.
pub fn probe_lines(monitor: &Monitor, addr: &str, scan: &Result<Vec<Device>, String>) -> (r: Vec<
    Line,
>)
    ensures
        lines_view(r@) == probe_text(monitor@, addr@, scan_view(*scan)),
{
    let mut lines: Vec<Line> = Vec::new();
    assert(lines_view(lines@) =~= Seq::empty());
    match scan {
        Err(e) => push_line(
            &mut lines,
            Level::Warn,
            text::join("失联验证探测失败（按未发现处理）: ", e.as_str()),
        ),
        Ok(devices) => match find_monitored(devices, &monitor.device_id, addr) {
            None => {
                assert(devices_view(devices@).len() == devices@.len());
                if devices.len() == 0 {
                    push_line(
                        &mut lines,
                        Level::Info,
                        "失联验证探测：局域网内未发现任何设备".to_owned(),
                    );
                } else {
                    push_line(
                        &mut lines,
                        Level::Info,
                        text::join3(
                            "失联验证探测：发现 ",
                            text::decimal(devices.len() as u64).as_str(),
                            " 台设备但均非监控目标（按 id/地址识别），视为未发现",
                        ),
                    );
                }
            },
            Some(d) => {
                let name = text::join("失联验证探测：设备 ", d.name.as_str());
                if text::same(d.addr.as_str(), addr) {
                    let place = text::join3(name.as_str(), "（", d.addr.as_str());
                    push_line(
                        &mut lines,
                        Level::Info,
                        text::join(
                            place.as_str(),
                            "）仍应答发现广播，判定设备在线，疑似网络路径问题，暂不触发失联",
                        ),
                    );
                    if monitor.reported_lost {
                        push_line(
                            &mut lines,
                            Level::Info,
                            "设备经探测确认恢复，上报 HeartbeatOk".to_owned(),
                        );
                    }
                } else {
                    let place = text::join3(name.as_str(), " 已改用新地址 ", d.addr.as_str());
                    let moved = text::join3(place.as_str(), "（原 ", addr);
                    push_line(
                        &mut lines,
                        Level::Warn,
                        text::join(moved.as_str(), "，IP 可能被重新分配），自动切换监控目标"),
                    );
                }
            },
        },
    }
    assert(lines_view(lines@) =~= probe_text(monitor@, addr@, scan_view(*scan)));
    lines
}

/// The line for a loss.
pub open spec fn lost_text(error: Seq<char>) -> Seq<char> {
    "判定设备物理离线（距上次成功心跳已超过 "@ + text::decimal_digits(
        (HEARTBEAT_TIMEOUT / SECOND) as nat,
    ) + " 秒，期间主动探测未发现任何设备，最后一次心跳错误: "@ + error + "）"@
}

/// The line for an event of the monitor that follows a failure: a loss leaves one, the rest do not.
pub fn event_line(event: &AppEvent, error: &str) -> (r: Option<Line>)
    ensures
        match event {
            AppEvent::HeartbeatLost { .. } => r matches Some(line) && line@ == (LineView {
                level: Level::Error,
                text: lost_text(error@),
            }),
            _ => r is None,
        },
{
    match event {
        AppEvent::HeartbeatLost { detail: _ } => {
            let head = text::join3(
                "判定设备物理离线（距上次成功心跳已超过 ",
                text::decimal(HEARTBEAT_TIMEOUT / SECOND).as_str(),
                " 秒，期间主动探测未发现任何设备，最后一次心跳错误: ",
            );
            Some(Line { level: Level::Error, text: text::join3(head.as_str(), error, "）") })
        },
        _ => None,
    }
}

} // verus!
