//! What goes into the logs, call by call, in plain texts and numbers.
//!
//! Each law is about the result of a call, whatever it is. Times are nanoseconds.
use vstd::prelude::*;

use crate::events::{AppEvent, Device};
use crate::journal::{
    event_line, failure_line, probe_lines, success_lines, target_line, Level, Line,
};
use crate::logger::{
    cleanup, expired, logs_dir, write_esp, AfterOpen, LogEntry, LogFile, LogPlan, Logs, Stamp,
};
use crate::monitor::Monitor;
use crate::monitor_laws;
use crate::text::{self, padded};
use crate::text_laws::chars;

verus! {

/// The line has this weight and these words.
pub open spec fn says(line: Line, level: Level, words: Seq<char>) -> bool {
    line.level == level && line.text@ == words
}

/// The names of the weights.
pub proof fn law_weights_have_their_names(level: Level, r: &'static str)
    requires
        call_ensures(Level::name, (level,), r),
    ensures
        level is Info ==> r@ == "INFO"@,
        level is Warn ==> r@ == "WARN"@,
        level is Error ==> r@ == "ERROR"@,
{
}

/// A new target is written down with its address, and that there is none any more in words.
pub proof fn law_target_is_written_down(target: &Option<String>, r: Line)
    requires
        call_ensures(target_line, (target,), r),
    ensures
        target matches Some(addr) ==> says(r, Level::Info, "设置监控目标: "@ + addr@),
        target is None ==> says(r, Level::Info, "设置监控目标: "@ + "(停止监控)"@),
{
    assert(r@.text == r.text@);
}

/// A success is written down with its round-trip time and its address, and with the number of
/// failures before it where there were any. Before that comes the identity, where it is a new one,
/// and after it that the service answers for the first time, or again after a loss.
pub proof fn law_success_is_written_down(
    m: &Monitor,
    addr: &str,
    id: &Option<String>,
    rtt: u64,
    r: Vec<Line>,
)
    requires
        call_ensures(success_lines, (m, addr, id, rtt), r),
    ensures
        ({
            let new = id is Some && chars(*id) != chars(m.device_id);
            let at = if new {
                1int
            } else {
                0
            };
            let first = !m.armed;
            let again = m.armed && m.reported_lost;
            let beat = "心跳正常 rtt="@ + text::decimal_digits((rtt / 1_000_000) as nat)
                + "ms target="@ + addr@;
            &&& r@.len() == at + 1 + if first || again {
                1int
            } else {
                0
            }
            &&& new ==> says(
                r@[0],
                Level::Info,
                "设备身份 id="@ + id->0@ + "（target="@ + addr@ + "）"@,
            )
            &&& m.consec_fail == 0 ==> says(r@[at], Level::Info, beat)
            &&& m.consec_fail > 0 ==> says(
                r@[at],
                Level::Info,
                beat + ("（此前连续失败 "@ + text::decimal_digits(m.consec_fail as nat)
                    + " 次，已恢复）"@),
            )
            &&& first ==> says(
                r@[at + 1],
                Level::Info,
                "首次连通，进入戒备状态（此后失联才会触发关机）"@,
            )
            &&& again ==> says(r@[at + 1], Level::Info, "服务恢复，上报 HeartbeatOk"@)
        }),
{
    assert(chars(m.device_id) == m@.device_id);
    assert(chars(*id) == crate::events::opt_text(*id));
    let lines = crate::journal::lines_view(r@);
    assert(lines.len() == r@.len());
    assert(forall|i: int| 0 <= i < r@.len() ==> lines[i] == #[trigger] r@[i]@);
    assert(r@.len() > 0 ==> lines[0] == r@[0]@);
    assert(r@.len() > 1 ==> lines[1] == r@[1]@);
    assert(r@.len() > 2 ==> lines[2] == r@[2]@);
}

/// A failure is written down with its number in the row, its address and its error.
pub proof fn law_failure_is_written_down(m: &Monitor, addr: &str, error: &str, r: Line)
    requires
        m.consec_fail < u32::MAX,
        call_ensures(failure_line, (m, addr, error), r),
    ensures
        says(
            r,
            Level::Warn,
            "心跳失败（连续第 "@ + text::decimal_digits((m.consec_fail + 1) as nat)
                + " 次）target="@ + addr@ + ": "@ + error@,
        ),
{
    assert(r@.text == r.text@);
}

/// A probe that did not find the device is written down with the reason: the scan failed, nothing
/// was found, or only others were.
pub proof fn law_unanswered_probe_is_written_down(
    m: &Monitor,
    addr: &str,
    scan: &Result<Vec<Device>, String>,
    r: Vec<Line>,
)
    requires
        call_ensures(probe_lines, (m, addr, scan), r),
        scan matches Ok(devices) ==> forall|i: int|
            0 <= i < devices@.len() ==> !monitor_laws::is_same_device(
                #[trigger] devices@[i],
                m.device_id,
                addr@,
            ),
    ensures
        r@.len() == 1,
        scan matches Err(e) ==> says(
            r@[0],
            Level::Warn,
            "失联验证探测失败（按未发现处理）: "@ + e@,
        ),
        scan matches Ok(devices) ==> {
            &&& devices@.len() == 0 ==> says(
                r@[0],
                Level::Info,
                "失联验证探测：局域网内未发现任何设备"@,
            )
            &&& devices@.len() > 0 ==> says(
                r@[0],
                Level::Info,
                "失联验证探测：发现 "@ + text::decimal_digits(devices@.len())
                    + " 台设备但均非监控目标（按 id/地址识别），视为未发现"@,
            )
        },
{
    assert(chars(m.device_id) == m@.device_id);
    let lines = crate::journal::lines_view(r@);
    assert(lines.len() == r@.len());
    if let Ok(devices) = *scan {
        monitor_laws::lemma_found(devices@, m.device_id, addr@);
        assert(crate::events::devices_view(devices@).len() == devices@.len());
    }
    assert(lines[0] == r@[0]@);
}

/// A probe that found the device is written down with its name and address. Where it answers from
/// its old address and a loss was reported, that the loss is over is written down too.
pub proof fn law_answered_probe_is_written_down(
    m: &Monitor,
    addr: &str,
    scan: &Result<Vec<Device>, String>,
    k: int,
    r: Vec<Line>,
)
    requires
        call_ensures(probe_lines, (m, addr, scan), r),
        monitor_laws::is_first_hit(*scan, m.device_id, addr@, k),
    ensures
        ({
            let d = scan->Ok_0@[k];
            &&& d.addr@ != addr@ ==> r@.len() == 1 && says(
                r@[0],
                Level::Warn,
                "失联验证探测：设备 "@ + d.name@ + " 已改用新地址 "@ + d.addr@ + "（原 "@ + addr@
                    + "，IP 可能被重新分配），自动切换监控目标"@,
            )
            &&& d.addr@ == addr@ ==> says(
                r@[0],
                Level::Info,
                "失联验证探测：设备 "@ + d.name@ + "（"@ + d.addr@
                    + "）仍应答发现广播，判定设备在线，疑似网络路径问题，暂不触发失联"@,
            )
            &&& d.addr@ == addr@ && !m.reported_lost ==> r@.len() == 1
            &&& d.addr@ == addr@ && m.reported_lost ==> r@.len() == 2 && says(
                r@[1],
                Level::Info,
                "设备经探测确认恢复，上报 HeartbeatOk"@,
            )
        }),
{
    assert(chars(m.device_id) == m@.device_id);
    let lines = crate::journal::lines_view(r@);
    assert(lines.len() == r@.len());
    monitor_laws::lemma_found(scan->Ok_0@, m.device_id, addr@);
    assert(lines[0] == r@[0]@);
    assert(r@.len() > 1 ==> lines[1] == r@[1]@);
}

/// A loss is written down with the error that came last; no other event is.
pub proof fn law_loss_is_written_down(event: &AppEvent, error: &str, r: Option<Line>)
    requires
        call_ensures(event_line, (event, error), r),
    ensures
        r is Some <==> event is HeartbeatLost,
        r matches Some(line) ==> says(
            line,
            Level::Error,
            "判定设备物理离线（距上次成功心跳已超过 "@ + "60"@
                + " 秒，期间主动探测未发现任何设备，最后一次心跳错误: "@ + error@ + "）"@,
        ),
{
    reveal_strlit("60");
    reveal_with_fuel(text::decimal_digits, 3);
    assert(text::decimal_digits(60) =~= "60"@);
    if let Some(line) = r {
        assert(line@.text == line.text@);
    }
}

/// A moment is written as its numbers, padded with zeros, with their separators.
pub proof fn law_moment_is_written(
    year: u32,
    month: u32,
    day: u32,
    hour: u32,
    minute: u32,
    second: u32,
    milli: u32,
    parts: (String, String, String, String, String, String, String),
    r: Stamp,
)
    requires
        call_ensures(Stamp::at, (year, month, day, hour, minute, second, milli), r),
        call_ensures(padded, (year as u64, 4), parts.0),
        call_ensures(padded, (month as u64, 2), parts.1),
        call_ensures(padded, (day as u64, 2), parts.2),
        call_ensures(padded, (hour as u64, 2), parts.3),
        call_ensures(padded, (minute as u64, 2), parts.4),
        call_ensures(padded, (second as u64, 2), parts.5),
        call_ensures(padded, (milli as u64, 3), parts.6),
    ensures
        r.date@ == parts.0@ + "-"@ + parts.1@ + "-"@ + parts.2@,
        r.time@ == r.date@ + " "@ + (parts.3@ + ":"@ + parts.4@ + ":"@ + parts.5@ + "."@
            + parts.6@),
{
}

/// A line goes into the file of the day: that is opened first exactly where it is not open. The line
/// has the moment, the weight and the words.
pub proof fn law_line_goes_into_the_file_of_the_day(
    prefix: &str,
    fresh: LogFile,
    f: &LogFile,
    level: &str,
    msg: &str,
    now: &Stamp,
    r: LogPlan,
)
    requires
        call_ensures(LogFile::new, (prefix,), fresh),
        call_ensures(LogFile::write_to, (f, level, msg, now), r),
    ensures
        fresh.prefix@ == prefix@ && fresh.date@.len() == 0,
        r.open is None <==> f.date@ == now.date@,
        r.open matches Some(name) ==> name@ == f.prefix@ + "-"@ + now.date@ + ".log"@,
        r.line@ == now.time@ + " ["@ + level@ + "] "@ + msg@ + "\n"@,
{
    assert(chars(r.open) == crate::events::opt_text(r.open));
}

/// A file that was opened is the open one from then on, old files are removed, and the line is
/// written; where it could not be opened, nothing of that happens.
pub proof fn law_opened_file_is_used(f: &mut LogFile, date: &str, ok: bool, r: AfterOpen)
    requires
        call_ensures(LogFile::open_finished, (f, date, ok), r),
    ensures
        final(f).prefix@ == old(f).prefix@,
        ok ==> final(f).date@ == date@ && r is CleanUpAndWrite,
        !ok ==> final(f).date@ == old(f).date@ && r is Drop,
{
}

/// The program and the device have files of their own, and the lines of the device say so.
pub proof fn law_sources_write_their_own_files(
    fresh: Logs,
    logs: &Logs,
    level: &str,
    msg: &str,
    now: &Stamp,
    own: LogPlan,
    esp: LogPlan,
)
    requires
        call_ensures(Logs::new, (), fresh),
        logs.app.prefix@ == "app"@ && logs.esp.prefix@ == "esp"@,
        call_ensures(crate::logger::write, (logs, level, msg, now), own),
        call_ensures(write_esp, (logs, msg, now), esp),
    ensures
        fresh.app.prefix@ == "app"@ && fresh.esp.prefix@ == "esp"@,
        fresh.app.date@.len() == 0 && fresh.esp.date@.len() == 0,
        own.open is None <==> logs.app.date@ == now.date@,
        own.open matches Some(name) ==> name@ == "app"@ + "-"@ + now.date@ + ".log"@,
        own.line@ == now.time@ + " ["@ + level@ + "] "@ + msg@ + "\n"@,
        esp.open is None <==> logs.esp.date@ == now.date@,
        esp.open matches Some(name) ==> name@ == "esp"@ + "-"@ + now.date@ + ".log"@,
        esp.line@ == now.time@ + " ["@ + "ESP"@ + "] "@ + msg@ + "\n"@,
{
    assert(chars(own.open) == crate::events::opt_text(own.open));
    assert(chars(esp.open) == crate::events::opt_text(esp.open));
}

/// The log files lie in the directory of the program below the home of the user.
pub proof fn law_logs_lie_below_the_home(
    profile: Option<String>,
    home: Option<String>,
    r: Vec<String>,
)
    requires
        call_ensures(logs_dir, (profile, home), r),
    ensures
        r@.len() == 3,
        profile matches Some(dir) ==> r@[0]@ == dir@,
        profile is None ==> (home matches Some(dir) ==> r@[0]@ == dir@),
        profile is None && home is None ==> r@[0]@.len() == 0,
        r@[1]@ == ".auto-shutdown"@,
        r@[2]@ == "logs"@,
{
}

/// The file is a log file that was last changed more than thirty days ago.
pub open spec fn is_old_log(entry: LogEntry, now: i128) -> bool {
    &&& entry.extension matches Some(extension) && extension@ == "log"@
    &&& entry.modified matches Some(t) && now - t > 2_592_000_000_000_000
}

/// Exactly the log files that were last changed more than thirty days ago are to be removed.
pub proof fn law_old_logs_expire(entry: &LogEntry, now: i128, r: bool)
    requires
        call_ensures(expired, (entry, now), r),
    ensures
        r <==> is_old_log(*entry, now),
{
    assert(chars(entry.extension) == crate::events::opt_text(entry.extension));
}

/// The places to be removed are those of the old logs, each once and in order.
pub proof fn law_old_logs_are_listed(entries: &Vec<LogEntry>, now: i128, r: Vec<usize>)
    requires
        call_ensures(cleanup, (entries, now), r),
    ensures
        forall|k: int|
            0 <= k < r@.len() ==> 0 <= #[trigger] r@[k] < entries@.len() && is_old_log(
                entries@[r@[k] as int],
                now,
            ),
        forall|k: int, n: int| 0 <= k < n < r@.len() ==> #[trigger] r@[k] < #[trigger] r@[n],
        forall|i: int|
            0 <= i < entries@.len() && is_old_log(#[trigger] entries@[i], now) ==> exists|k: int|
                0 <= k < r@.len() && #[trigger] r@[k] == i,
{
    let all = crate::logger::expired_at(entries@, now);
    lemma_listed(entries@, now);
    assert(all.len() == r@.len());
    assert(forall|k: int| 0 <= k < r@.len() ==> all[k] == #[trigger] r@[k] as int);
    assert forall|i: int|
        0 <= i < entries@.len() && is_old_log(#[trigger] entries@[i], now) implies exists|k: int|
        0 <= k < r@.len() && #[trigger] r@[k] == i by {
        let k = choose|k: int| 0 <= k < all.len() && #[trigger] all[k] == i;
        assert(r@[k] == i);
    }
}

/// The places listed.
proof fn lemma_listed(entries: Seq<LogEntry>, now: i128)
    ensures
        ({
            let all = crate::logger::expired_at(entries, now);
            &&& forall|k: int|
                0 <= k < all.len() ==> 0 <= #[trigger] all[k] < entries.len() && is_old_log(
                    entries[all[k]],
                    now,
                )
            &&& forall|k: int, n: int|
                0 <= k < n < all.len() ==> #[trigger] all[k] < #[trigger] all[n]
            &&& forall|i: int|
                0 <= i < entries.len() && is_old_log(#[trigger] entries[i], now) ==> exists|k: int|
                    0 <= k < all.len() && #[trigger] all[k] == i
        }),
    decreases entries.len(),
{
    if entries.len() > 0 {
        let rest = entries.drop_last();
        let before = crate::logger::expired_at(rest, now);
        let all = crate::logger::expired_at(entries, now);
        lemma_listed(rest, now);
        let last = entries.last();
        assert(chars(last.extension) == crate::events::opt_text(last.extension));
        assert(crate::logger::is_expired(last, now) == is_old_log(last, now));
        assert(forall|k: int| 0 <= k < before.len() ==> all[k] == #[trigger] before[k]);
        assert forall|k: int| 0 <= k < all.len() implies 0 <= #[trigger] all[k] < entries.len()
            && is_old_log(entries[all[k]], now) by {
            if k < before.len() {
                assert(all[k] == before[k]);
                assert(rest[before[k]] == entries[before[k]]);
            }
        }
        assert forall|k: int, n: int| 0 <= k < n < all.len() implies #[trigger] all[k]
            < #[trigger] all[n] by {
            assert(all[k] == before[k]);
            if n < before.len() {
                assert(all[n] == before[n]);
            }
        }
        assert forall|i: int|
            0 <= i < entries.len() && is_old_log(#[trigger] entries[i], now) implies exists|k: int|
            0 <= k < all.len() && #[trigger] all[k] == i by {
            if i < rest.len() {
                assert(rest[i] == entries[i]);
                let k = choose|k: int| 0 <= k < before.len() && #[trigger] before[k] == i;
                assert(all[k] == i);
            } else {
                assert(all[all.len() - 1] == i);
            }
        }
    }
}

} // verus!
