//! The viewer's diagnostic log: each entry is stamped and levelled, and the
//! newest entries are kept for the on-screen log panel.
use vstd::prelude::*;

verus! {

/// Number of entries kept for display.
pub const MAX_UI_LOG_LINES: usize = 100;

/// The text of one log entry: `[<timestamp>] [<level>] <message>`.
pub open spec fn log_line(timestamp: Seq<char>, level: Seq<char>, msg: Seq<char>) -> Seq<char> {
    seq!['['] + timestamp + seq![']', ' ', '['] + level + seq![']', ' '] + msg
}

/// The displayed entries after `line` is logged: it is appended, and the
/// oldest entry goes once more than `MAX_UI_LOG_LINES` are held.
pub open spec fn push_bounded(lines: Seq<Seq<char>>, line: Seq<char>) -> Seq<Seq<char>> {
    let l = lines.push(line);
    if l.len() > MAX_UI_LOG_LINES {
        l.drop_first()
    } else {
        l
    }
}

/// Whether `c` is an ASCII digit.
pub open spec fn is_digit(c: char) -> bool {
    '0' <= c && c <= '9'
}

/// Whether `c` may stand at place `j` of `-MM-DD HH:MM:SS`.
pub open spec fn fits_date_tail(c: char, j: int) -> bool {
    if j == 0 || j == 3 {
        c == '-'
    } else if j == 6 {
        c == ' '
    } else if j == 9 || j == 12 {
        c == ':'
    } else {
        is_digit(c)
    }
}

/// Whether `t` has the shape of a UTC time written `%Y-%m-%d %H:%M:%S`: the
/// year in four digits (past 9999, a plus sign and five or more digits),
/// then `-MM-DD HH:MM:SS` with two digits for each field.
pub open spec fn is_utc_stamp(t: Seq<char>) -> bool {
    let y = t.len() - 15;
    &&& t.len() >= 19
    &&& forall|i: int| y <= i < t.len() ==> fits_date_tail(#[trigger] t[i], i - y)
    &&& (y == 4 && forall|i: int| 0 <= i < 4 ==> is_digit(#[trigger] t[i])) || (y >= 6 && t[0] == '+'
        && forall|i: int| 1 <= i < y ==> is_digit(#[trigger] t[i]))
}

/// Reads the system clock with `SystemTime::elapsed` on `UNIX_EPOCH`: the
/// seconds and the nanoseconds within the second since 1970, or `None` where
/// the clock reads earlier. Claimed of the reading only that the nanoseconds
/// are below one billion, as `Duration::subsec_nanos` documents; the value
/// is the clock's.
#[verifier::external_body]
fn unix_time_now() -> (r: Option<(u64, u32)>)
    ensures
        r matches Some((_, nanos)) ==> nanos < 1_000_000_000,
{
    match std::time::UNIX_EPOCH.elapsed() {
        Ok(d) => Some((d.as_secs(), d.subsec_nanos())),
        Err(_) => None,
    }
}

/// The UTC calendar time, written `%Y-%m-%d %H:%M:%S`, that lies `secs`
/// seconds and `nanos` nanoseconds after 1970, or `None` where chrono's
/// calendar does not reach so far.
pub uninterp spec fn utc_text_of(secs: u64, nanos: u32) -> Option<Seq<char>>;

/// Writes a time given since 1970 with `chrono::DateTime::from_timestamp`
/// and `format("%Y-%m-%d %H:%M:%S")`. Claimed: the result is `utc_text_of`
/// the arguments, and a text has the shape `is_utc_stamp` describes (chrono
/// pads every field as its format documentation says; the year is at least
/// 1970 here).
#[verifier::external_body]
fn utc_text(secs: u64, nanos: u32) -> (r: Option<String>)
    ensures
        match r {
            Some(t) => utc_text_of(secs, nanos) == Some(t@) && is_utc_stamp(t@),
            None => utc_text_of(secs, nanos) is None,
        },
{
    match i64::try_from(secs) {
        Ok(s) => match chrono::DateTime::from_timestamp(s, nanos) {
            Some(at) => Some(at.format("%Y-%m-%d %H:%M:%S").to_string()),
            None => None,
        },
        Err(_) => None,
    }
}

/// One call that changes a logger: an entry logged (by `log_at`, `log`,
/// `info`, `warn` or `error`), or the display cleared.
pub enum LogOp {
    Entry(Seq<char>),
    Clear,
}

/// What a logger holds: the displayed entries, oldest first, and the path of
/// its file.
pub struct LogState {
    pub lines: Seq<Seq<char>>,
    pub file_path: Seq<char>,
}

/// The logger after one call.
pub open spec fn apply_log_op(s: LogState, op: LogOp) -> LogState {
    match op {
        LogOp::Entry(line) => LogState { lines: push_bounded(s.lines, line), file_path: s.file_path },
        LogOp::Clear => LogState { lines: Seq::empty(), file_path: s.file_path },
    }
}

/// The logger after a run of calls, in order.
pub open spec fn replay_log_ops(s: LogState, ops: Seq<LogOp>) -> LogState
    decreases ops.len(),
{
    if ops.len() == 0 {
        s
    } else {
        apply_log_op(replay_log_ops(s, ops.drop_last()), ops.last())
    }
}

/// Log of the viewer. Writing the entries to the console and to the log file
/// is left to the caller, which gets each entry's text back.
pub struct ViewerLogger {
    logs: Vec<String>,
    log_file_path: String,
}

impl ViewerLogger {
    #[verifier::type_invariant]
    spec fn bounded(&self) -> bool {
        self.logs@.len() <= MAX_UI_LOG_LINES
    }

    /// The entries kept for display, oldest first.
    pub closed spec fn lines(&self) -> Seq<Seq<char>> {
        self.logs@.map_values(|s: String| s@)
    }

    /// The path of the log file.
    pub closed spec fn file_path(&self) -> Seq<char> {
        self.log_file_path@
    }

    /// The displayed entries and the file path together.
    pub open spec fn state(&self) -> LogState {
        LogState { lines: self.lines(), file_path: self.file_path() }
    }

    /// A logger with no entries that names `log_file_path` as its file.
    pub fn new(log_file_path: String) -> (r: Self)
        ensures
            r.lines() == Seq::<Seq<char>>::empty(),
            r.file_path() == log_file_path@,
    {
        let r = ViewerLogger { logs: Vec::new(), log_file_path };
        assert(r.lines() =~= Seq::<Seq<char>>::empty());
        r
    }

    /// Records an entry stamped with `timestamp` and returns its text.
    pub fn log_at(&mut self, timestamp: &str, level: &str, msg: &str) -> (line: String)
        ensures
            line@ == log_line(timestamp@, level@, msg@),
            final(self).lines() == push_bounded(old(self).lines(), line@),
            final(self).state() == apply_log_op(old(self).state(), LogOp::Entry(line@)),
            final(self).lines().len() <= MAX_UI_LOG_LINES,
            final(self).file_path() == old(self).file_path(),
    {
        proof {
            use_type_invariant(&*self);
            reveal_strlit("[");
            reveal_strlit("] [");
            reveal_strlit("] ");
        }
        let mut line = String::new();
        line.append("[");
        line.append(timestamp);
        line.append("] [");
        line.append(level);
        line.append("] ");
        line.append(msg);
        assert(line@ =~= log_line(timestamp@, level@, msg@));
        let ghost before = self.logs@;
        let mut logs: Vec<String> = Vec::new();
        std::mem::swap(&mut logs, &mut self.logs);
        logs.push(line.clone());
        if logs.len() > MAX_UI_LOG_LINES {
            logs.remove(0);
        }
        assert(logs@.map_values(|s: String| s@) =~= push_bounded(
            before.map_values(|s: String| s@),
            line@,
        ));
        self.logs = logs;
        line
    }

    /// Records an entry stamped with the clock reading `clock` (seconds and
    /// nanoseconds since 1970, or `None` where the clock reads earlier) and
    /// returns its text. The stamp is the UTC time of that very reading,
    /// `%Y-%m-%d %H:%M:%S`; where there is no reading, or its date is beyond
    /// the calendar, the stamp is `time unknown`.
    pub fn log_with_clock(&mut self, clock: Option<(u64, u32)>, level: &str, msg: &str) -> (line: String)
        ensures
            match clock {
                Some((secs, nanos)) => match utc_text_of(secs, nanos) {
                    Some(t) => line@ == log_line(t, level@, msg@) && is_utc_stamp(t),
                    None => line@ == log_line("time unknown"@, level@, msg@),
                },
                None => line@ == log_line("time unknown"@, level@, msg@),
            },
            final(self).lines() == push_bounded(old(self).lines(), line@),
            final(self).state() == apply_log_op(old(self).state(), LogOp::Entry(line@)),
            final(self).lines().len() <= MAX_UI_LOG_LINES,
            final(self).file_path() == old(self).file_path(),
    {
        let stamp = match clock {
            Some((secs, nanos)) => utc_text(secs, nanos),
            None => None,
        };
        let timestamp = match stamp {
            Some(t) => t,
            None => String::from_str("time unknown"),
        };
        self.log_at(timestamp.as_str(), level, msg)
    }

    /// Records an entry stamped with the current UTC time and returns its
    /// text. Where the clock cannot be read as a date, the entry is stamped
    /// `time unknown`.
    pub fn log(&mut self, level: &str, msg: &str) -> (line: String)
        ensures
            exists|ts: Seq<char>| line@ == #[trigger] log_line(ts, level@, msg@) && (is_utc_stamp(ts) || ts == "time unknown"@),
            final(self).lines() == push_bounded(old(self).lines(), line@),
            final(self).state() == apply_log_op(old(self).state(), LogOp::Entry(line@)),
            final(self).lines().len() <= MAX_UI_LOG_LINES,
            final(self).file_path() == old(self).file_path(),
    {
        let clock = unix_time_now();
        let line = self.log_with_clock(clock, level, msg);
        proof {
            match clock {
                Some((secs, nanos)) => match utc_text_of(secs, nanos) {
                    Some(t) => assert(line@ == log_line(t, level@, msg@)),
                    None => assert(line@ == log_line("time unknown"@, level@, msg@)),
                },
                None => assert(line@ == log_line("time unknown"@, level@, msg@)),
            }
        }
        line
    }

    /// Records an `INFO` entry and returns its text.
    pub fn info(&mut self, msg: &str) -> (line: String)
        ensures
            exists|ts: Seq<char>| line@ == #[trigger] log_line(ts, "INFO"@, msg@) && (is_utc_stamp(ts) || ts == "time unknown"@),
            final(self).lines() == push_bounded(old(self).lines(), line@),
            final(self).state() == apply_log_op(old(self).state(), LogOp::Entry(line@)),
            final(self).lines().len() <= MAX_UI_LOG_LINES,
            final(self).file_path() == old(self).file_path(),
    {
        self.log("INFO", msg)
    }

    /// Records a `WARN` entry and returns its text.
    pub fn warn(&mut self, msg: &str) -> (line: String)
        ensures
            exists|ts: Seq<char>| line@ == #[trigger] log_line(ts, "WARN"@, msg@) && (is_utc_stamp(ts) || ts == "time unknown"@),
            final(self).lines() == push_bounded(old(self).lines(), line@),
            final(self).state() == apply_log_op(old(self).state(), LogOp::Entry(line@)),
            final(self).lines().len() <= MAX_UI_LOG_LINES,
            final(self).file_path() == old(self).file_path(),
    {
        self.log("WARN", msg)
    }

    /// Records an `ERROR` entry and returns its text.
    pub fn error(&mut self, msg: &str) -> (line: String)
        ensures
            exists|ts: Seq<char>| line@ == #[trigger] log_line(ts, "ERROR"@, msg@) && (is_utc_stamp(ts) || ts == "time unknown"@),
            final(self).lines() == push_bounded(old(self).lines(), line@),
            final(self).state() == apply_log_op(old(self).state(), LogOp::Entry(line@)),
            final(self).lines().len() <= MAX_UI_LOG_LINES,
            final(self).file_path() == old(self).file_path(),
    {
        self.log("ERROR", msg)
    }

    /// The entries kept for display, oldest first.
    pub fn get_ui_logs(&self) -> (r: &[String])
        ensures
            r@.map_values(|s: String| s@) == self.lines(),
            r@.len() <= MAX_UI_LOG_LINES,
    {
        proof {
            use_type_invariant(self);
        }
        self.logs.as_slice()
    }

    /// Forgets the displayed entries.
    pub fn clear(&mut self)
        ensures
            final(self).lines() == Seq::<Seq<char>>::empty(),
            final(self).file_path() == old(self).file_path(),
            final(self).state() == apply_log_op(old(self).state(), LogOp::Clear),
    {
        let mut logs: Vec<String> = Vec::new();
        std::mem::swap(&mut logs, &mut self.logs);
        logs.clear();
        self.logs = logs;
        assert(self.lines() =~= Seq::<Seq<char>>::empty());
    }

    /// The path of the log file.
    pub fn file_path_str(&self) -> (r: String)
        ensures
            r@ == self.file_path(),
    {
        self.log_file_path.clone()
    }
}

/// The display log never holds more than `MAX_UI_LOG_LINES` entries, and the
/// entry just logged is always the newest one shown.
pub proof fn lemma_log_keeps_newest(lines: Seq<Seq<char>>, line: Seq<char>)
    requires
        lines.len() <= MAX_UI_LOG_LINES,
    ensures
        push_bounded(lines, line).len() <= MAX_UI_LOG_LINES,
        push_bounded(lines, line).last() == line,
        lines.len() < MAX_UI_LOG_LINES ==> push_bounded(lines, line) == lines.push(line),
{
}

/// The displayed entries after `entries` are logged one after another,
/// starting from the displayed entries `lines`.
pub open spec fn log_run(lines: Seq<Seq<char>>, entries: Seq<Seq<char>>) -> Seq<Seq<char>>
    decreases entries.len(),
{
    if entries.len() == 0 {
        lines
    } else {
        push_bounded(log_run(lines, entries.drop_last()), entries.last())
    }
}

/// Over any run of logged entries, the display holds exactly the newest
/// `MAX_UI_LOG_LINES` of everything logged (all of it where there is less),
/// oldest first, and never more than `MAX_UI_LOG_LINES` entries. From an
/// empty log (a new or cleared logger) that is the last `min(n, 100)` of the
/// `n` entries logged.
pub proof fn lemma_log_run_keeps_newest(lines: Seq<Seq<char>>, entries: Seq<Seq<char>>)
    requires
        lines.len() <= MAX_UI_LOG_LINES,
    ensures
        ({
            let all = lines + entries;
            let start = if all.len() <= MAX_UI_LOG_LINES { 0 } else { all.len() - MAX_UI_LOG_LINES };
            &&& log_run(lines, entries) == all.subrange(start, all.len() as int)
            &&& log_run(lines, entries).len() <= MAX_UI_LOG_LINES
        }),
    decreases entries.len(),
{
    let all = lines + entries;
    if entries.len() == 0 {
        assert(all =~= lines);
        assert(all.subrange(0, all.len() as int) =~= lines);
    } else {
        let prev = entries.drop_last();
        lemma_log_run_keeps_newest(lines, prev);
        let all0 = lines + prev;
        let start0 = if all0.len() <= MAX_UI_LOG_LINES { 0 } else { all0.len() - MAX_UI_LOG_LINES };
        assert(all0 =~= all.drop_last());
        let r0 = all0.subrange(start0, all0.len() as int);
        assert(r0.push(entries.last()) =~= all.subrange(start0, all.len() as int));
        if r0.len() + 1 > MAX_UI_LOG_LINES {
            assert(all.subrange(start0, all.len() as int).drop_first() =~= all.subrange(
                start0 + 1,
                all.len() as int,
            ));
        }
    }
}

/// Over any run of logging and clearing calls, the logger keeps the file
/// path it was made with, and its display never holds more than
/// `MAX_UI_LOG_LINES` entries.
pub proof fn lemma_log_ops_keep_file_and_bound(s: LogState, ops: Seq<LogOp>)
    requires
        s.lines.len() <= MAX_UI_LOG_LINES,
    ensures
        replay_log_ops(s, ops).file_path == s.file_path,
        replay_log_ops(s, ops).lines.len() <= MAX_UI_LOG_LINES,
    decreases ops.len(),
{
    if ops.len() > 0 {
        lemma_log_ops_keep_file_and_bound(s, ops.drop_last());
    }
}

} // verus!
