//! Log files, one for each day and source.
//!
//! The program writes `app-YYYY-MM-DD.log`. What the device reports goes to `esp-YYYY-MM-DD.log`.
//! Files that have not been changed for thirty days are removed, at the start and whenever a new
//! file is opened.
use vstd::prelude::*;

use crate::events::opt_text;
use crate::text;

verus! {

/// Number of days for which log files are kept.
pub const RETENTION_DAYS: u64 = 30;

/// That time in nanoseconds.
pub const RETENTION: u64 = RETENTION_DAYS * 24 * 3600 * 1_000_000_000;

/// One source of log lines.
#[derive(Debug)]
pub struct LogFile {
    /// First part of the file name.
    pub prefix: String,
    /// Day of the file that is open; empty while none is.
    pub date: String,
}

/// A moment, as the log writes it.
#[derive(Debug)]
pub struct Stamp {
    /// The day as `YYYY-MM-DD`.
    pub date: String,
    /// The moment as `YYYY-MM-DD HH:MM:SS.mmm`.
    pub time: String,
}

/// A day as `YYYY-MM-DD`.
pub open spec fn date_text(year: u32, month: u32, day: u32) -> Seq<char> {
    text::padded_digits(year as nat, 4) + "-"@ + text::padded_digits(month as nat, 2) + "-"@
        + text::padded_digits(day as nat, 2)
}

/// A time of day as `HH:MM:SS.mmm`.
pub open spec fn clock_text(hour: u32, minute: u32, second: u32, milli: u32) -> Seq<char> {
    text::padded_digits(hour as nat, 2) + ":"@ + text::padded_digits(minute as nat, 2) + ":"@
        + text::padded_digits(second as nat, 2) + "."@ + text::padded_digits(milli as nat, 3)
}

impl Stamp {
    /// The moment with these numbers on calendar and clock.
    pub fn at(
        year: u32,
        month: u32,
        day: u32,
        hour: u32,
        minute: u32,
        second: u32,
        milli: u32,
    ) -> (r: Self)
        ensures
            r.date@ == date_text(year, month, day),
            r.time@ == date_text(year, month, day) + " "@ + clock_text(
                hour,
                minute,
                second,
                milli,
            ),
    {
        let month_text = text::padded(month as u64, 2);
        let head = text::join3(text::padded(year as u64, 4).as_str(), "-", month_text.as_str());
        let date = text::join3(head.as_str(), "-", text::padded(day as u64, 2).as_str());
        let minutes = text::join3(
            text::padded(hour as u64, 2).as_str(),
            ":",
            text::padded(minute as u64, 2).as_str(),
        );
        let seconds = text::join3(minutes.as_str(), ":", text::padded(second as u64, 2).as_str());
        let clock = text::join3(seconds.as_str(), ".", text::padded(milli as u64, 3).as_str());
        let time = text::join3(date.as_str(), " ", clock.as_str());
        Stamp { date, time }
    }
}

/// What to do to write a line.
#[derive(Debug)]
pub struct LogPlan {
    /// Name of the file to open first; [`LogFile::open_finished`] says what then becomes of the
    /// line. Where none is to be opened, the line goes into the file that is open.
    pub open: Option<String>,
    /// The line.
    pub line: String,
}

/// What becomes of a line for which a file was to be opened.
#[derive(Clone, Copy, Debug, PartialEq, Eq, Structural)]
pub enum AfterOpen {
    /// Remove old files, then write the line into the new file.
    CleanUpAndWrite,
    /// Write the line nowhere, and remove nothing.
    Drop,
}

/// The name of a log file.
pub open spec fn file_name(prefix: Seq<char>, date: Seq<char>) -> Seq<char> {
    prefix + "-"@ + date + ".log"@
}

/// A line of a log file.
pub open spec fn log_line(time: Seq<char>, level: Seq<char>, msg: Seq<char>) -> Seq<char> {
    time + " ["@ + level + "] "@ + msg + "\n"@
}

impl LogFile {
    /// A source with no file open yet.
    pub fn new(prefix: &str) -> (r: Self)
        ensures
            r.prefix@ == prefix@,
            r.date@ == Seq::<char>::empty(),
    {
        proof {
            reveal_strlit("");
        }
        let date = "".to_owned();
        assert(date@ =~= Seq::<char>::empty());
        LogFile { prefix: prefix.to_owned(), date }
    }

    /// What to do to write a line now: the file of the day is opened first where it is not open.
    pub fn write_to(&self, level: &str, msg: &str, now: &Stamp) -> (r: LogPlan)
        ensures
            opt_text(r.open) == if self.date@ == now.date@ {
                None
            } else {
                Some(file_name(self.prefix@, now.date@))
            },
            r.line@ == log_line(now.time@, level@, msg@),
    {
        let open = if self.date == now.date {
            None
        } else {
            let head = text::join3(self.prefix.as_str(), "-", now.date.as_str());
            Some(text::join(head.as_str(), ".log"))
        };
        let head = text::join3(now.time.as_str(), " [", level);
        let body = text::join3(head.as_str(), "] ", msg);
        LogPlan { open, line: text::join(body.as_str(), "\n") }
    }

    /// The file of this day has been opened, or could not be. Where it could not be, everything
    /// stays as it was, so that the next line tries again.
    pub fn open_finished(&mut self, date: &str, ok: bool) -> (r: AfterOpen)
        ensures
            ok ==> final(self).date@ == date@ && final(self).prefix@ == old(self).prefix@ && r
                == AfterOpen::CleanUpAndWrite,
            !ok ==> *final(self) == *old(self) && r == AfterOpen::Drop,
    {
        if ok {
            self.date = date.to_owned();
            AfterOpen::CleanUpAndWrite
        } else {
            AfterOpen::Drop
        }
    }
}

/// The sources of log lines: the program itself, and the device.
#[derive(Debug)]
pub struct Logs {
    pub app: LogFile,
    pub esp: LogFile,
}

impl Logs {
    /// Each source has the file names of its own.
    pub open spec fn wf(self) -> bool {
        &&& self.app.prefix@ == "app"@
        &&& self.esp.prefix@ == "esp"@
    }

    /// Both sources, with no file open yet.
    pub fn new() -> (r: Self)
        ensures
            r.wf(),
            r.app.date@ == Seq::<char>::empty(),
            r.esp.date@ == Seq::<char>::empty(),
    {
        Logs { app: LogFile::new("app"), esp: LogFile::new("esp") }
    }
}

/// What to do to write a line of the program.
pub fn write(logs: &Logs, level: &str, msg: &str, now: &Stamp) -> (r: LogPlan)
    requires
        logs.wf(),
    ensures
        opt_text(r.open) == if logs.app.date@ == now.date@ {
            None
        } else {
            Some(file_name("app"@, now.date@))
        },
        r.line@ == log_line(now.time@, level@, msg@),
{
    logs.app.write_to(level, msg, now)
}

/// What to do to write a line that the device reported.
pub fn write_esp(logs: &Logs, msg: &str, now: &Stamp) -> (r: LogPlan)
    requires
        logs.wf(),
    ensures
        opt_text(r.open) == if logs.esp.date@ == now.date@ {
            None
        } else {
            Some(file_name("esp"@, now.date@))
        },
        r.line@ == log_line(now.time@, "ESP"@, msg@),
{
    logs.esp.write_to("ESP", msg, now)
}

/// The directory of the log files, as parts of a path below the home directory.
pub fn logs_dir(userprofile: Option<String>, home: Option<String>) -> (r: Vec<String>)
    ensures
        r@.len() == 3,
        r@[0]@ == match (userprofile, home) {
            (Some(dir), _) => dir@,
            (None, Some(dir)) => dir@,
            (None, None) => Seq::<char>::empty(),
        },
        r@[1]@ == ".auto-shutdown"@,
        r@[2]@ == "logs"@,
{
    let base = match (userprofile, home) {
        (Some(dir), _) => dir,
        (None, Some(dir)) => dir,
        (None, None) => {
            proof {
                reveal_strlit("");
                assert(""@ =~= Seq::<char>::empty());
            }
            "".to_owned()
        },
    };
    vec![base, ".auto-shutdown".to_owned(), "logs".to_owned()]
}

/// A file in the directory of the log files.
#[derive(Debug)]
pub struct LogEntry {
    /// What follows the last dot of the name.
    pub extension: Option<String>,
    /// When the file was last changed, in nanoseconds of the system's clock, as far as that can be
    /// told.
    pub modified: Option<i128>,
}

/// The file is a log file that has not been changed for too long.
pub open spec fn is_expired(entry: LogEntry, now: i128) -> bool {
    &&& opt_text(entry.extension) == Some("log"@)
    &&& entry.modified matches Some(t) && t < now - RETENTION
}

/// Tells whether a file is to be removed at `now`.
pub fn expired(entry: &LogEntry, now: i128) -> (r: bool)
    ensures
        r == is_expired(*entry, now),
{
    match &entry.extension {
        Some(extension) => {
            if !text::same(extension.as_str(), "log") {
                return false;
            }
        },
        None => {
            return false;
        },
    }
    if now < i128::MIN + RETENTION as i128 {
        return false;
    }
    let cutoff: i128 = now - RETENTION as i128;
    match entry.modified {
        Some(t) => t < cutoff,
        None => false,
    }
}

/// The places of the files to be removed at `now`.
pub open spec fn expired_at(entries: Seq<LogEntry>, now: i128) -> Seq<int>
    decreases entries.len(),
{
    if entries.len() == 0 {
        Seq::empty()
    } else {
        let before = expired_at(entries.drop_last(), now);
        if is_expired(entries.last(), now) {
            before.push(entries.len() - 1)
        } else {
            before
        }
    }
}

/// The places of the files to be removed at `now`, in order.
pub fn cleanup(entries: &Vec<LogEntry>, now: i128) -> (r: Vec<usize>)
    ensures
        r@.map_values(|i: usize| i as int) == expired_at(entries@, now),
{
    let n: usize = entries.len();
    let mut i: usize = 0;
    let mut places: Vec<usize> = Vec::new();
    assert(entries@.subrange(0, 0) =~= Seq::<LogEntry>::empty());
    assert(places@.map_values(|i: usize| i as int) =~= Seq::<int>::empty());
    while i < n
        invariant
            i <= n,
            n == entries@.len(),
            places@.map_values(|i: usize| i as int) == expired_at(
                entries@.subrange(0, i as int),
                now,
            ),
        decreases n - i,
    {
        let ghost part = entries@.subrange(0, i + 1);
        assert(part.drop_last() =~= entries@.subrange(0, i as int));
        assert(part.last() == entries@[i as int]);
        let ghost before = places@.map_values(|i: usize| i as int);
        if expired(&entries[i], now) {
            places.push(i);
            assert(places@.map_values(|i: usize| i as int) =~= before.push(i as int));
        }
        i = i + 1;
    }
    assert(entries@.subrange(0, n as int) =~= entries@);
    places
}

/// Dates and times have their fixed shapes, for every number that a calendar of four-digit years
/// and a clock can show.
pub proof fn law_stamps_have_their_shape(
    year: u32,
    month: u32,
    day: u32,
    hour: u32,
    minute: u32,
    second: u32,
    milli: u32,
)
    requires
        year <= 9999,
        month <= 99,
        day <= 99,
        hour <= 99,
        minute <= 99,
        second <= 99,
        milli <= 999,
    ensures
        ({
            let date = date_text(year, month, day);
            &&& date.len() == 10
            &&& date[4] == '-' && date[7] == '-'
            &&& forall|i: int|
                0 <= i < 10 && i != 4 && i != 7 ==> '0' <= #[trigger] date[i] <= '9'
        }),
        ({
            let clock = clock_text(hour, minute, second, milli);
            &&& clock.len() == 12
            &&& clock[2] == ':' && clock[5] == ':' && clock[8] == '.'
            &&& forall|i: int|
                0 <= i < 12 && i != 2 && i != 5 && i != 8 ==> '0' <= #[trigger] clock[i] <= '9'
        }),
{
    reveal_strlit("-");
    reveal_strlit(":");
    reveal_strlit(".");
    text::lemma_padded_digits(year as nat, 4);
    text::lemma_padded_digits(month as nat, 2);
    text::lemma_padded_digits(day as nat, 2);
    text::lemma_padded_digits(hour as nat, 2);
    text::lemma_padded_digits(minute as nat, 2);
    text::lemma_padded_digits(second as nat, 2);
    text::lemma_padded_digits(milli as nat, 3);
}

/// No two days share a file.
pub proof fn law_each_day_has_its_file(prefix: Seq<char>, one: Seq<char>, other: Seq<char>)
    ensures
        file_name(prefix, one) == file_name(prefix, other) <==> one == other,
{
    let p = prefix.len() as int + "-"@.len() as int;
    if file_name(prefix, one) == file_name(prefix, other) {
        assert(file_name(prefix, one).len() == p + one.len() + ".log"@.len());
        assert(file_name(prefix, other).len() == p + other.len() + ".log"@.len());
        assert(one =~= file_name(prefix, one).subrange(p, p + one.len()));
        assert(other =~= file_name(prefix, other).subrange(p, p + other.len()));
    }
}

/// The program and the device never write into the same file.
pub proof fn law_sources_have_their_own_files(one: Seq<char>, other: Seq<char>)
    ensures
        file_name("app"@, one) != file_name("esp"@, other),
{
    reveal_strlit("app");
    reveal_strlit("esp");
    assert(file_name("app"@, one)[0] == 'a');
    assert(file_name("esp"@, other)[0] == 'e');
}

/// Exactly the log files that were last changed before the time of keeping are removed: a place is
/// listed if and only if it holds such a file.
pub proof fn law_only_old_logs_are_removed(entries: Seq<LogEntry>, now: i128, i: int)
    requires
        0 <= i < entries.len(),
    ensures
        expired_at(entries, now).contains(i) <==> is_expired(entries[i], now),
    decreases entries.len(),
{
    lemma_expired_in_range(entries, now);
    let all = expired_at(entries, now);
    let before = expired_at(entries.drop_last(), now);
    lemma_expired_in_range(entries.drop_last(), now);
    if i < entries.len() - 1 {
        law_only_old_logs_are_removed(entries.drop_last(), now, i);
        assert(entries.drop_last()[i] == entries[i]);
        if before.contains(i) {
            let k = choose|k: int| 0 <= k < before.len() && before[k] == i;
            assert(all[k] == i);
        }
        if all.contains(i) {
            let k = choose|k: int| 0 <= k < all.len() && all[k] == i;
            assert(before[k] == i);
        }
    } else {
        if is_expired(entries.last(), now) {
            assert(all[all.len() - 1] == i);
        } else if all.contains(i) {
            let k = choose|k: int| 0 <= k < all.len() && all[k] == i;
            assert(before[k] == i);
        }
    }
}

/// The places listed are places of the list.
proof fn lemma_expired_in_range(entries: Seq<LogEntry>, now: i128)
    ensures
        forall|k: int|
            0 <= k < expired_at(entries, now).len() ==> 0 <= #[trigger] expired_at(entries, now)[k]
                < entries.len(),
    decreases entries.len(),
{
    if entries.len() > 0 {
        lemma_expired_in_range(entries.drop_last(), now);
        let before = expired_at(entries.drop_last(), now);
        let all = expired_at(entries, now);
        assert forall|k: int| 0 <= k < all.len() implies 0 <= #[trigger] all[k] < entries.len() by {
            if k < before.len() {
                assert(all[k] == before[k]);
            }
        }
    }
}

} // verus!
