//! The dashboard's state machine: it consumes `AppEvent`s and keeps every
//! piece of state that rendering needs.  It holds no rendering logic.

use vstd::prelude::*;
use std::collections::VecDeque;
use std::time::Instant;
use crate::logging::LogLevel;
use chrono::Timelike;
use crate::digits::{decimal2, decimal2_string};
use crate::text::{chars_of, push_all, str_eq, string_of};
use crate::tui::event::{AppEvent, FileStatus, Stage};

verus! {

/// Capacity of the log ring buffer.
pub const LOG_BUFFER_MAX: usize = 500;

/// How many recent failures the statistics panel keeps.
pub const RECENT_FAILURES_MAX: usize = 3;

/// Lines moved by one page of log scrolling.
pub const LOG_PAGE_SCROLL: usize = 10;

/// Number of spinner frames.
pub const SPINNER_FRAME_COUNT: usize = 10;

/// Braille spinner frames.
pub const SPINNER_FRAMES: [&'static str; 10] = ["⠋", "⠙", "⠹", "⠸", "⠼", "⠴", "⠦", "⠧", "⠇", "⠏"];

/// The most tasks the task list shows; the rest are summarised.
pub const TASKS_VISIBLE_MAX: usize = 8;

/// The placeholder reason of a failure reported without one.
pub open spec fn unknown_reason() -> Seq<char> {
    "未知原因"@
}

/// A file being processed.
#[derive(Debug)]
pub struct TaskState {
    pub filename: String,
    pub stage: Option<Stage>,
}

/// Counters of the current round.
#[derive(Debug, Clone, Copy, PartialEq, Eq, Structural)]
pub struct Stats {
    pub success: u32,
    pub skipped: u32,
    pub failed: u32,
}

impl Default for Stats {
    fn default() -> (r: Self)
        ensures
            r == (Stats { success: 0, skipped: 0, failed: 0 }),
    {
        Stats { success: 0, skipped: 0, failed: 0 }
    }
}

impl Stats {
    /// Counts one more finished file of the given status.
    pub fn count(&mut self, status: FileStatus)
        requires
            stats_have_room(*old(self), status),
        ensures
            *final(self) == counted(*old(self), status),
    {
        match status {
            FileStatus::Success => self.success = self.success + 1,
            FileStatus::Skipped => self.skipped = self.skipped + 1,
            FileStatus::Failed => self.failed = self.failed + 1,
        }
    }
}

/// The result of a finished round.
#[derive(Debug)]
pub struct RoundSummary {
    pub success: u32,
    pub skipped: u32,
    pub failed: u32,
    /// The user quit before the round finished.
    pub interrupted: bool,
}

/// One line of the log panel.
#[derive(Debug)]
pub struct LogLine {
    pub time: String,
    pub level: LogLevel,
    pub message: String,
}

#[verifier::external_type_specification]
#[verifier::external_body]
pub struct ExInstant(std::time::Instant);

/// `Instant::now()`.  Nothing is claimed of the instant.
#[verifier::external_body]
fn instant_now() -> (r: Instant) {
    Instant::now()
}

/// `instant.elapsed().as_secs()`.  Nothing is claimed of the result, which
/// depends on the clock.
#[verifier::external_body]
fn secs_since(instant: &Instant) -> (r: u64) {
    instant.elapsed().as_secs()
}

/// `instant.elapsed().as_nanos()`.  Nothing is claimed of the result, which
/// depends on the clock.
#[verifier::external_body]
fn nanos_since(instant: &Instant) -> (r: u128) {
    instant.elapsed().as_nanos()
}

/// The hour, minute and second of the local wall-clock time
/// (`chrono::Local::now()` read through `Timelike`).  Of the values only their
/// documented ranges are claimed: hour 0 to 23, minute and second 0 to 59.
#[verifier::external_body]
fn local_clock() -> (r: (u32, u32, u32))
    ensures
        r.0 < 24,
        r.1 < 60,
        r.2 < 60,
{
    let now = chrono::Local::now();
    (now.hour(), now.minute(), now.second())
}

/// A time of day as `HH:MM:SS`.
pub open spec fn clock_text(h: nat, m: nat, s: nat) -> Seq<char> {
    decimal2(h) + ":"@ + decimal2(m) + ":"@ + decimal2(s)
}

/// The current local time of day as `HH:MM:SS`.
fn clock_now_text() -> (r: String)
    ensures
        exists|h: nat, m: nat, s: nat| h < 24 && m < 60 && s < 60 && r@ == #[trigger] clock_text(h, m, s),
{
    let (h, m, s) = local_clock();
    let mut out = decimal2_string(h as u64);
    push_all(&mut out, ":");
    let ms = decimal2_string(m as u64);
    push_all(&mut out, ms.as_str());
    push_all(&mut out, ":");
    let ss = decimal2_string(s as u64);
    push_all(&mut out, ss.as_str());
    assert(out@ =~= clock_text(h as nat, m as nat, s as nat));
    out
}

/// The dashboard state.
#[derive(Debug)]
pub struct App {
    /// Display name of the run mode.
    pub mode_label: &'static str,
    pub server_url: String,
    /// Dry-run mode, shown as a badge.
    pub dry_run: bool,
    pub concurrency: usize,
    /// A directory scan is in progress.
    pub scanning: bool,
    pub scan_dirs: usize,
    /// Progress of the current round.
    pub total: usize,
    pub done: usize,
    pub round_started_at: Option<Instant>,
    pub round_active: bool,
    /// Files being processed.
    pub tasks: Vec<TaskState>,
    pub stats: Stats,
    pub last_round: Option<RoundSummary>,
    /// Recent failures (file, reason), newest last.
    pub recent_failures: VecDeque<(String, String)>,
    /// A fatal error, shown first.
    pub fatal: Option<String>,
    /// The next scheduled run, in seconds since the Unix epoch.
    pub next_schedule: Option<i64>,
    pub watch_dir: Option<String>,
    pub logs: VecDeque<LogLine>,
    /// Log lines scrolled up from the newest (0 follows the newest).
    pub log_scroll_offset: usize,
    /// The help overlay is open.
    pub show_help: bool,
    /// Render tick, driving the spinner.
    pub tick: usize,
    /// When the session started.
    pub started_at: Instant,
    pub exit: bool,
}

/// What the state machine knows of the dashboard: everything but clock
/// readings (the instants, and the times of log lines).
#[verifier::ext_equal]
pub struct AppView {
    pub mode_label: Seq<char>,
    pub server_url: Seq<char>,
    pub dry_run: bool,
    pub concurrency: usize,
    pub scanning: bool,
    pub scan_dirs: usize,
    pub total: usize,
    pub done: usize,
    pub round_started: bool,
    pub round_active: bool,
    pub tasks: Seq<(Seq<char>, Option<Stage>)>,
    pub stats: Stats,
    pub last_round: Option<(u32, u32, u32, bool)>,
    pub recent_failures: Seq<(Seq<char>, Seq<char>)>,
    pub fatal: Option<Seq<char>>,
    pub next_schedule: Option<i64>,
    pub watch_dir: Option<Seq<char>>,
    pub logs: Seq<(LogLevel, Seq<char>)>,
    pub log_scroll_offset: usize,
    pub show_help: bool,
    pub tick: usize,
    pub exit: bool,
}

pub open spec fn task_views(tasks: Seq<TaskState>) -> Seq<(Seq<char>, Option<Stage>)> {
    tasks.map_values(|t: TaskState| (t.filename@, t.stage))
}

pub open spec fn failure_views(f: Seq<(String, String)>) -> Seq<(Seq<char>, Seq<char>)> {
    f.map_values(|p: (String, String)| (p.0@, p.1@))
}

pub open spec fn log_views(l: Seq<LogLine>) -> Seq<(LogLevel, Seq<char>)> {
    l.map_values(|x: LogLine| (x.level, x.message@))
}

/// The clock times of the log lines, oldest first.
pub open spec fn log_times(l: Seq<LogLine>) -> Seq<Seq<char>> {
    l.map_values(|x: LogLine| x.time@)
}

/// The log times after appending a line stamped `t`: the oldest drops out
/// when the buffer grows past its capacity.
pub open spec fn times_after(l: Seq<Seq<char>>, t: Seq<char>) -> Seq<Seq<char>> {
    let p = l.push(t);
    if p.len() > LOG_BUFFER_MAX {
        p.drop_first()
    } else {
        p
    }
}

/// The clock readings that the view leaves out are the same in both states:
/// the session's start, the round's start and the time of every log line.
pub open spec fn readings_kept(before: App, after: App) -> bool {
    &&& after.started_at == before.started_at
    &&& after.round_started_at == before.round_started_at
    &&& log_times(after.logs@) == log_times(before.logs@)
}

pub open spec fn opt_view(o: Option<String>) -> Option<Seq<char>> {
    match o {
        Some(s) => Some(s@),
        None => None,
    }
}

pub open spec fn summary_view(o: Option<RoundSummary>) -> Option<(u32, u32, u32, bool)> {
    match o {
        Some(r) => Some((r.success, r.skipped, r.failed, r.interrupted)),
        None => None,
    }
}

impl View for App {
    type V = AppView;

    open spec fn view(&self) -> AppView {
        AppView {
            mode_label: self.mode_label@,
            server_url: self.server_url@,
            dry_run: self.dry_run,
            concurrency: self.concurrency,
            scanning: self.scanning,
            scan_dirs: self.scan_dirs,
            total: self.total,
            done: self.done,
            round_started: self.round_started_at is Some,
            round_active: self.round_active,
            tasks: task_views(self.tasks@),
            stats: self.stats,
            last_round: summary_view(self.last_round),
            recent_failures: failure_views(self.recent_failures@),
            fatal: opt_view(self.fatal),
            next_schedule: self.next_schedule,
            watch_dir: opt_view(self.watch_dir),
            logs: log_views(self.logs@),
            log_scroll_offset: self.log_scroll_offset,
            show_help: self.show_help,
            tick: self.tick,
            exit: self.exit,
        }
    }
}

/// The position of the first task with this filename at or after `from`,
/// or -1.
pub open spec fn find_task(tasks: Seq<(Seq<char>, Option<Stage>)>, name: Seq<char>, from: int) -> int
    decreases tasks.len() - from,
{
    if from < 0 || from >= tasks.len() {
        -1
    } else if tasks[from].0 == name {
        from
    } else {
        find_task(tasks, name, from + 1)
    }
}

/// `s` with its element `i` replaced by its last element and the last
/// dropped (`Vec::swap_remove`).
pub open spec fn swap_removed<A>(s: Seq<A>, i: int) -> Seq<A> {
    s.update(i, s.last()).drop_last()
}

/// The newest `RECENT_FAILURES_MAX` entries.
pub open spec fn keep_recent(f: Seq<(Seq<char>, Seq<char>)>) -> Seq<(Seq<char>, Seq<char>)> {
    if f.len() > RECENT_FAILURES_MAX {
        f.subrange(f.len() - RECENT_FAILURES_MAX, f.len() as int)
    } else {
        f
    }
}

/// The log buffer after appending a line: the oldest line drops out when the
/// buffer grows past its capacity.
pub open spec fn logs_after(l: Seq<(LogLevel, Seq<char>)>, line: (LogLevel, Seq<char>)) -> Seq<(LogLevel, Seq<char>)> {
    let p = l.push(line);
    if p.len() > LOG_BUFFER_MAX {
        p.drop_first()
    } else {
        p
    }
}

/// The stats after one more file of the given status.
pub open spec fn counted(s: Stats, status: FileStatus) -> Stats {
    match status {
        FileStatus::Success => Stats { success: (s.success + 1) as u32, ..s },
        FileStatus::Skipped => Stats { skipped: (s.skipped + 1) as u32, ..s },
        FileStatus::Failed => Stats { failed: (s.failed + 1) as u32, ..s },
    }
}

/// Whether a counter has room for one more file of the given status.
pub open spec fn stats_have_room(s: Stats, status: FileStatus) -> bool {
    match status {
        FileStatus::Success => s.success < u32::MAX,
        FileStatus::Skipped => s.skipped < u32::MAX,
        FileStatus::Failed => s.failed < u32::MAX,
    }
}

/// Whether the counters have room for one more file of the given status.
pub open spec fn has_room(m: AppView, status: FileStatus) -> bool {
    &&& m.done < usize::MAX
    &&& stats_have_room(m.stats, status)
}

/// What an event does to the dashboard state (the clock readings aside).
pub open spec fn step(m: AppView, e: AppEvent) -> AppView {
    match e {
        AppEvent::ScanStart => AppView { scanning: true, scan_dirs: 0, ..m },
        AppEvent::ScanProgress { dirs } => AppView { scan_dirs: dirs, ..m },
        AppEvent::ScanDone => AppView { scanning: false, ..m },
        AppEvent::RoundStart { total } => AppView {
            total: total,
            done: 0,
            round_started: true,
            round_active: true,
            tasks: Seq::empty(),
            stats: Stats { success: 0, skipped: 0, failed: 0 },
            last_round: None,
            ..m
        },
        AppEvent::FileStart { filename } => AppView {
            tasks: m.tasks.push((filename@, None)),
            ..m
        },
        AppEvent::FileStage { filename, stage } => {
            let i = find_task(m.tasks, filename@, 0);
            if i >= 0 {
                AppView { tasks: m.tasks.update(i, (m.tasks[i].0, Some(stage))), ..m }
            } else {
                m
            }
        },
        AppEvent::FileDone { filename, status, reason } => {
            let i = find_task(m.tasks, filename@, 0);
            let tasks = if i >= 0 {
                swap_removed(m.tasks, i)
            } else {
                m.tasks
            };
            let failures = match status {
                FileStatus::Failed => keep_recent(
                    m.recent_failures.push(
                        (
                            filename@,
                            match reason {
                                Some(r) => r@,
                                None => unknown_reason(),
                            },
                        ),
                    ),
                ),
                _ => m.recent_failures,
            };
            AppView {
                tasks: tasks,
                done: (m.done + 1) as usize,
                stats: counted(m.stats, status),
                recent_failures: failures,
                ..m
            }
        },
        AppEvent::RoundDone { success, skipped, failed, interrupted } => AppView {
            round_active: false,
            tasks: Seq::empty(),
            last_round: Some((success, skipped, failed, interrupted)),
            ..m
        },
        AppEvent::NextSchedule { at } => AppView { next_schedule: Some(at), ..m },
        AppEvent::WatchReady { path } => AppView { watch_dir: Some(path@), ..m },
        AppEvent::Fatal { message } => AppView { fatal: Some(message@), ..m },
        AppEvent::Log { level, message } => AppView {
            logs: logs_after(m.logs, (level, message@)),
            ..m
        },
        AppEvent::Shutdown => AppView { exit: true, ..m },
    }
}

/// The furthest the log view can scroll: to the oldest line.
pub open spec fn max_scroll(m: AppView) -> nat {
    if m.logs.len() >= 1 {
        (m.logs.len() - 1) as nat
    } else {
        0
    }
}

/// The dashboard state with the log view scrolled to `offset`.
pub open spec fn scrolled(m: AppView, offset: usize) -> AppView {
    AppView { log_scroll_offset: offset, ..m }
}

/// The state that the event handler and the scroll commands keep: the
/// buffers within their capacities, the scroll offset within the log, the
/// round's completed count equal to the sum of its counters, and an active
/// round with a start time.
pub open spec fn well_bounded(m: AppView) -> bool {
    &&& m.logs.len() <= LOG_BUFFER_MAX
    &&& m.recent_failures.len() <= RECENT_FAILURES_MAX
    &&& m.log_scroll_offset <= max_scroll(m)
    &&& m.done == m.stats.success + m.stats.skipped + m.stats.failed
    &&& m.round_active ==> m.round_started
}

/// The dashboard state after a sequence of events, applied in order.
pub open spec fn after_events(m: AppView, events: Seq<AppEvent>) -> AppView
    decreases events.len(),
{
    if events.len() == 0 {
        m
    } else {
        step(after_events(m, events.drop_last()), events.last())
    }
}

/// Whether the counters have room for every completed file of a sequence of
/// events, each at the moment it arrives.
pub open spec fn room_throughout(m: AppView, events: Seq<AppEvent>) -> bool {
    forall|i: int|
        0 <= i < events.len() ==> (#[trigger] events[i] matches AppEvent::FileDone { status, .. }
            ==> has_room(after_events(m, events.take(i)), status))
}

/// The round's estimated remaining seconds, from the time elapsed since it
/// started: elapsed / done * remaining, rounded to the nearest second, and
/// saturated at `u64::MAX`.
pub open spec fn eta_estimate(elapsed_nanos: nat, done: nat, total: nat) -> nat {
    let num: int = elapsed_nanos * (total - done);
    let den: int = (done * 1_000_000_000) as int;
    if num > u128::MAX {
        u64::MAX as nat
    } else {
        let q = num / den;
        let rounded = if 2 * (num % den) >= den {
            q + 1
        } else {
            q
        };
        if rounded > u64::MAX {
            u64::MAX as nat
        } else {
            rounded as nat
        }
    }
}

/// Estimates the seconds left in a round from the nanoseconds elapsed since
/// it started; `None` before the first completed file and once every file
/// is done.
pub fn eta_from_elapsed(elapsed_nanos: u128, done: usize, total: usize) -> (r: Option<u64>)
    ensures
        done == 0 || total <= done ==> r is None,
        done > 0 && total > done ==> r == Some(
            eta_estimate(elapsed_nanos as nat, done as nat, total as nat) as u64,
        ),
{
    if done == 0 || total <= done {
        return None;
    }
    let left = (total - done) as u128;
    let num = match elapsed_nanos.checked_mul(left) {
        Some(n) => n,
        None => return Some(u64::MAX),
    };
    let den: u128 = (done as u128) * 1_000_000_000u128;
    let q = num / den;
    let rem = num % den;
    if q > u64::MAX as u128 {
        return Some(u64::MAX);
    }
    let rounded = if 2 * rem >= den {
        q + 1
    } else {
        q
    };
    if rounded > u64::MAX as u128 {
        Some(u64::MAX)
    } else {
        Some(rounded as u64)
    }
}

/// Sets the stage of the task at position `i`.
fn set_stage(tasks: &mut Vec<TaskState>, i: usize, stage: Stage)
    requires
        i < old(tasks)@.len(),
    ensures
        task_views(final(tasks)@) == task_views(old(tasks)@).update(
            i as int,
            (old(tasks)@[i as int].filename@, Some(stage)),
        ),
{
    let name = tasks[i].filename.clone();
    tasks.set(i, TaskState { filename: name, stage: Some(stage) });
    assert(task_views(tasks@) =~= task_views(old(tasks)@).update(
        i as int,
        (old(tasks)@[i as int].filename@, Some(stage)),
    ));
}

/// The position of the first task with this filename.
fn position_of(tasks: &Vec<TaskState>, name: &str) -> (r: Option<usize>)
    ensures
        match r {
            Some(i) => i as int == find_task(task_views(tasks@), name@, 0) && i < tasks@.len(),
            None => find_task(task_views(tasks@), name@, 0) == -1,
        },
{
    let ghost tv = task_views(tasks@);
    let mut i: usize = 0;
    while i < tasks.len()
        invariant
            tv == task_views(tasks@),
            i <= tasks@.len(),
            find_task(tv, name@, 0) == find_task(tv, name@, i as int),
        decreases tasks@.len() - i,
    {
        if str_eq(tasks[i].filename.as_str(), name) {
            return Some(i);
        }
        i = i + 1;
    }
    None
}

/// Appends a failure and drops the oldest beyond the capacity.
fn record_failure(q: &mut VecDeque<(String, String)>, entry: (String, String))
    ensures
        failure_views(final(q)@) == keep_recent(failure_views(old(q)@).push((entry.0@, entry.1@))),
{
    let ghost target = keep_recent(failure_views(old(q)@).push((entry.0@, entry.1@)));
    let ghost full = failure_views(old(q)@).push((entry.0@, entry.1@));
    q.push_back(entry);
    assert(failure_views(q@) =~= full);
    while q.len() > RECENT_FAILURES_MAX
        invariant
            full.len() >= failure_views(q@).len(),
            failure_views(q@) == full.subrange(full.len() - q@.len(), full.len() as int),
            target == keep_recent(full),
            full.len() > RECENT_FAILURES_MAX ==> q@.len() >= RECENT_FAILURES_MAX,
            full.len() <= RECENT_FAILURES_MAX ==> q@.len() == full.len(),
        decreases q@.len(),
    {
        let ghost before = q@;
        q.pop_front();
        assert(failure_views(q@) =~= failure_views(before).subrange(1, before.len() as int));
        assert(failure_views(q@) =~= full.subrange(full.len() - q@.len(), full.len() as int));
    }
    proof {
        if full.len() <= RECENT_FAILURES_MAX {
            assert(full.subrange(0, full.len() as int) =~= full);
        }
    }
}

/// Appends a log line and drops the oldest when past the capacity.
fn record_log(q: &mut VecDeque<LogLine>, line: LogLine)
    ensures
        log_views(final(q)@) == logs_after(log_views(old(q)@), (line.level, line.message@)),
        log_times(final(q)@) == times_after(log_times(old(q)@), line.time@),
{
    let ghost full = log_views(old(q)@).push((line.level, line.message@));
    let ghost full_times = log_times(old(q)@).push(line.time@);
    q.push_back(line);
    assert(log_views(q@) =~= full);
    assert(log_times(q@) =~= full_times);
    if q.len() > LOG_BUFFER_MAX {
        q.pop_front();
        assert(log_views(q@) =~= full.drop_first());
        assert(log_times(q@) =~= full_times.drop_first());
    }
}

/// A key press, as far as the dashboard tells keys apart.
#[derive(Debug, Clone, Copy, PartialEq, Eq, Structural)]
pub enum Key {
    Char(char),
    Esc,
    Up,
    Down,
    PageUp,
    PageDown,
    Home,
    End,
    Other,
}

/// Whether a key press asks to quit: `q`, `Esc` or `Ctrl+C`.
pub open spec fn quits(key: Key, ctrl: bool) -> bool {
    key == Key::Char('q') || key == Key::Esc || (key == Key::Char('c') && ctrl)
}

/// What a key press does to the dashboard, and whether it asks to quit.
/// While help is open, only `?` and `Esc` (closing it) do anything.
pub open spec fn key_step(m: AppView, key: Key, ctrl: bool) -> (AppView, bool) {
    if m.show_help {
        if key == Key::Char('?') || key == Key::Esc {
            (AppView { show_help: false, ..m }, false)
        } else {
            (m, false)
        }
    } else if quits(key, ctrl) {
        (AppView { exit: true, ..m }, true)
    } else {
        let o = m.log_scroll_offset;
        let n = match key {
            Key::Up => scrolled(m, if o < max_scroll(m) {
                (o + 1) as usize
            } else {
                o
            }),
            Key::Down => scrolled(m, if o >= 1 {
                (o - 1) as usize
            } else {
                0
            }),
            Key::PageUp => scrolled(m, if o + LOG_PAGE_SCROLL <= max_scroll(m) {
                (o + LOG_PAGE_SCROLL) as usize
            } else {
                max_scroll(m) as usize
            }),
            Key::PageDown => scrolled(m, if o >= LOG_PAGE_SCROLL {
                (o - LOG_PAGE_SCROLL) as usize
            } else {
                0
            }),
            Key::Home => scrolled(m, max_scroll(m) as usize),
            Key::End => scrolled(m, 0),
            Key::Char(c) => if c == '?' {
                AppView { show_help: true, ..m }
            } else {
                m
            },
            _ => m,
        };
        (n, false)
    }
}

/// The state of a fresh dashboard for a run mode and server.
pub open spec fn fresh_view(mode_label: Seq<char>, server_url: Seq<char>) -> AppView {
    AppView {
        mode_label: mode_label,
        server_url: server_url,
        dry_run: false,
        concurrency: 4,
        scanning: false,
        scan_dirs: 0,
        total: 0,
        done: 0,
        round_started: false,
        round_active: false,
        tasks: Seq::empty(),
        stats: Stats { success: 0, skipped: 0, failed: 0 },
        last_round: None,
        recent_failures: Seq::empty(),
        fatal: None,
        next_schedule: None,
        watch_dir: None,
        logs: Seq::empty(),
        log_scroll_offset: 0,
        show_help: false,
        tick: 0,
        exit: false,
    }
}

impl App {
    /// A fresh dashboard for a run mode and server.
    pub fn new(mode_label: &'static str, server_url: String) -> (r: Self)
        ensures
            r@ == fresh_view(mode_label@, server_url@),
            well_bounded(r@),
    {
        let r = App {
            mode_label,
            server_url,
            dry_run: false,
            concurrency: 4,
            scanning: false,
            scan_dirs: 0,
            total: 0,
            done: 0,
            round_started_at: None,
            round_active: false,
            tasks: Vec::new(),
            stats: Stats::default(),
            last_round: None,
            recent_failures: VecDeque::new(),
            fatal: None,
            next_schedule: None,
            watch_dir: None,
            logs: VecDeque::new(),
            log_scroll_offset: 0,
            show_help: false,
            tick: 0,
            started_at: instant_now(),
            exit: false,
        };
        assert(r@.tasks =~= Seq::empty());
        assert(r@.recent_failures =~= Seq::empty());
        assert(r@.logs =~= Seq::empty());
        r
    }

    /// Sets the display meta information (dry run, concurrency).
    pub fn with_meta(self, dry_run: bool, concurrency: usize) -> (r: Self)
        ensures
            r@ == (AppView { dry_run: dry_run, concurrency: concurrency, ..self@ }),
            readings_kept(self, r),
    {
        let mut s = self;
        s.dry_run = dry_run;
        s.concurrency = concurrency;
        s
    }

    /// Applies one event to the state.
    pub fn handle_event(&mut self, event: AppEvent)
        requires
            event matches AppEvent::FileDone { status, .. } ==> has_room(old(self)@, status),
        ensures
            final(self)@ == step(old(self)@, event),
            final(self).started_at == old(self).started_at,
            !(event is RoundStart) ==> final(self).round_started_at == old(self).round_started_at,
            !(event is Log) ==> log_times(final(self).logs@) == log_times(old(self).logs@),
            event is Log ==> exists|h: nat, m: nat, sec: nat|
                h < 24 && m < 60 && sec < 60 && log_times(final(self).logs@) == #[trigger] times_after(
                    log_times(old(self).logs@),
                    clock_text(h, m, sec),
                ),
    {
        let ghost e = event;
        match event {
            AppEvent::ScanStart => {
                self.scanning = true;
                self.scan_dirs = 0;
            },
            AppEvent::ScanProgress { dirs } => {
                self.scan_dirs = dirs;
            },
            AppEvent::ScanDone => {
                self.scanning = false;
            },
            AppEvent::RoundStart { total } => {
                self.total = total;
                self.done = 0;
                self.round_started_at = Some(instant_now());
                self.round_active = true;
                self.tasks.clear();
                self.stats = Stats::default();
                self.last_round = None;
                assert(task_views(self.tasks@) =~= Seq::empty());
            },
            AppEvent::FileStart { filename } => {
                self.tasks.push(TaskState { filename, stage: None });
                assert(task_views(self.tasks@) =~= task_views(old(self).tasks@).push(
                    (filename@, None),
                ));
            },
            AppEvent::FileStage { filename, stage } => {
                match position_of(&self.tasks, filename.as_str()) {
                    Some(i) => set_stage(&mut self.tasks, i, stage),
                    None => {},
                }
            },
            AppEvent::FileDone { filename, status, reason } => {
                match position_of(&self.tasks, filename.as_str()) {
                    Some(i) => {
                        let ghost before = self.tasks@;
                        self.tasks.swap_remove(i);
                        assert(task_views(self.tasks@) =~= swap_removed(
                            task_views(before),
                            i as int,
                        ));
                    },
                    None => {},
                }
                self.done = self.done + 1;
                match status {
                    FileStatus::Success => self.stats.success = self.stats.success + 1,
                    FileStatus::Skipped => self.stats.skipped = self.stats.skipped + 1,
                    FileStatus::Failed => {
                        self.stats.failed = self.stats.failed + 1;
                        let why = match reason {
                            Some(r) => r,
                            None => string_of(chars_of("未知原因").as_slice()),
                        };
                        record_failure(&mut self.recent_failures, (filename, why));
                    },
                }
            },
            AppEvent::RoundDone { success, skipped, failed, interrupted } => {
                self.round_active = false;
                self.tasks.clear();
                self.last_round = Some(RoundSummary { success, skipped, failed, interrupted });
                assert(task_views(self.tasks@) =~= Seq::empty());
            },
            AppEvent::NextSchedule { at } => {
                self.next_schedule = Some(at);
            },
            AppEvent::WatchReady { path } => {
                self.watch_dir = Some(path);
            },
            AppEvent::Fatal { message } => {
                self.fatal = Some(message);
            },
            AppEvent::Log { level, message } => {
                let time = clock_now_text();
                let ghost t = time@;
                record_log(&mut self.logs, LogLine { time, level, message });
                assert(log_times(self.logs@) == times_after(log_times(old(self).logs@), t));
                proof {
                    let (h, m, sec) = choose|h: nat, m: nat, sec: nat|
                        h < 24 && m < 60 && sec < 60 && t == #[trigger] clock_text(h, m, sec);
                    assert(log_times(self.logs@) == times_after(
                        log_times(old(self).logs@),
                        clock_text(h, m, sec),
                    ));
                }
            },
            AppEvent::Shutdown => {
                self.exit = true;
            },
        }
        assert(self@ =~= step(old(self)@, e));
    }

    /// Applies a key press; answers whether it asks to quit.
    pub fn handle_key(&mut self, key: Key, ctrl: bool) -> (quit: bool)
        requires
            key == Key::PageUp ==> old(self).log_scroll_offset + LOG_PAGE_SCROLL <= usize::MAX,
        ensures
            (final(self)@, quit) == key_step(old(self)@, key, ctrl),
            readings_kept(*old(self), *final(self)),
    {
        if self.show_help {
            if key == Key::Char('?') || key == Key::Esc {
                self.show_help = false;
            }
            assert(self@ =~= key_step(old(self)@, key, ctrl).0);
            return false;
        }
        let quit = key == Key::Char('q') || key == Key::Esc || (key == Key::Char('c') && ctrl);
        if quit {
            self.exit = true;
            assert(self@ =~= key_step(old(self)@, key, ctrl).0);
            return true;
        }
        match key {
            Key::Up => self.scroll_logs_up(),
            Key::Down => self.scroll_logs_down(),
            Key::PageUp => self.scroll_logs_page_up(),
            Key::PageDown => self.scroll_logs_page_down(),
            Key::Home => self.scroll_logs_top(),
            Key::End => self.scroll_logs_bottom(),
            Key::Char(c) => {
                if c == '?' {
                    self.show_help = true;
                }
            },
            _ => {},
        }
        assert(self@ =~= key_step(old(self)@, key, ctrl).0);
        false
    }

    /// The current spinner frame.
    pub fn spinner_frame(&self) -> (r: &'static str)
        ensures
            r == SPINNER_FRAMES[(self.tick % SPINNER_FRAME_COUNT) as int],
    {
        SPINNER_FRAMES[self.tick % SPINNER_FRAME_COUNT]
    }

    /// Estimated seconds left in the round; `None` before a round starts,
    /// before its first completed file, and once every file is done.
    pub fn eta_secs(&self) -> (r: Option<u64>)
        ensures
            self.round_started_at is None || self.done == 0 || self.total <= self.done
                ==> r is None,
            self.round_started_at is Some && self.done > 0 && self.total > self.done
                ==> exists|elapsed_nanos: u128|
                r == Some(
                    #[trigger] eta_estimate(
                        elapsed_nanos as nat,
                        self.done as nat,
                        self.total as nat,
                    ) as u64,
                ),
    {
        match &self.round_started_at {
            None => None,
            Some(started) => {
                let nanos = nanos_since(started);
                eta_from_elapsed(nanos, self.done, self.total)
            },
        }
    }

    /// Watch mode has no rounds: it is processing while tasks are active
    /// outside a round and outside a scan.
    pub fn watch_processing(&self) -> (r: bool)
        ensures
            r == (!self.round_active && !self.scanning && self.tasks@.len() > 0),
    {
        !self.round_active && !self.scanning && !self.tasks.is_empty()
    }

    /// Seconds since the session started.
    pub fn elapsed_secs(&self) -> u64 {
        secs_since(&self.started_at)
    }

    /// Scrolls the log view one line towards older lines.
    pub fn scroll_logs_up(&mut self)
        ensures
            final(self)@ == scrolled(
                old(self)@,
                if old(self).log_scroll_offset < max_scroll(old(self)@) {
                    (old(self).log_scroll_offset + 1) as usize
                } else {
                    old(self).log_scroll_offset
                },
            ),
            readings_kept(*old(self), *final(self)),
    {
        let max_offset = self.logs.len().saturating_sub(1);
        if self.log_scroll_offset < max_offset {
            self.log_scroll_offset = self.log_scroll_offset + 1;
        }
        assert(self@ =~= scrolled(old(self)@, self.log_scroll_offset));
    }

    /// Scrolls the log view one line towards the newest; at zero it follows
    /// the newest line again.
    pub fn scroll_logs_down(&mut self)
        ensures
            final(self)@ == scrolled(
                old(self)@,
                if old(self).log_scroll_offset >= 1 {
                    (old(self).log_scroll_offset - 1) as usize
                } else {
                    0
                },
            ),
            readings_kept(*old(self), *final(self)),
    {
        self.log_scroll_offset = self.log_scroll_offset.saturating_sub(1);
        assert(self@ =~= scrolled(old(self)@, self.log_scroll_offset));
    }

    /// Scrolls the log view one page towards older lines, no further than
    /// the oldest line.
    pub fn scroll_logs_page_up(&mut self)
        requires
            old(self).log_scroll_offset + LOG_PAGE_SCROLL <= usize::MAX,
        ensures
            final(self)@ == scrolled(
                old(self)@,
                if old(self).log_scroll_offset + LOG_PAGE_SCROLL <= max_scroll(old(self)@) {
                    (old(self).log_scroll_offset + LOG_PAGE_SCROLL) as usize
                } else {
                    max_scroll(old(self)@) as usize
                },
            ),
            readings_kept(*old(self), *final(self)),
    {
        let max_offset = self.logs.len().saturating_sub(1);
        self.log_scroll_offset = (self.log_scroll_offset + LOG_PAGE_SCROLL).min(max_offset);
        assert(self@ =~= scrolled(old(self)@, self.log_scroll_offset));
    }

    /// Scrolls the log view one page towards the newest line.
    pub fn scroll_logs_page_down(&mut self)
        ensures
            final(self)@ == scrolled(
                old(self)@,
                if old(self).log_scroll_offset >= LOG_PAGE_SCROLL {
                    (old(self).log_scroll_offset - LOG_PAGE_SCROLL) as usize
                } else {
                    0
                },
            ),
            readings_kept(*old(self), *final(self)),
    {
        self.log_scroll_offset = self.log_scroll_offset.saturating_sub(LOG_PAGE_SCROLL);
        assert(self@ =~= scrolled(old(self)@, self.log_scroll_offset));
    }

    /// Jumps the log view to the oldest line.
    pub fn scroll_logs_top(&mut self)
        ensures
            final(self)@ == scrolled(old(self)@, max_scroll(old(self)@) as usize),
            readings_kept(*old(self), *final(self)),
    {
        self.log_scroll_offset = self.logs.len().saturating_sub(1);
        assert(self@ =~= scrolled(old(self)@, self.log_scroll_offset));
    }

    /// Returns the log view to the newest line, following it again.
    pub fn scroll_logs_bottom(&mut self)
        ensures
            final(self)@ == scrolled(old(self)@, 0),
            readings_kept(*old(self), *final(self)),
    {
        self.log_scroll_offset = 0;
        assert(self@ =~= scrolled(old(self)@, 0));
    }
}


/// `find_task` answers -1 or a position inside the list from `from` on.
pub proof fn lemma_find_task_range(tasks: Seq<(Seq<char>, Option<Stage>)>, name: Seq<char>, from: int)
    requires
        0 <= from,
    ensures
        find_task(tasks, name, from) == -1 || (from <= find_task(tasks, name, from) < tasks.len()
            && tasks[find_task(tasks, name, from)].0 == name),
    decreases tasks.len() - from,
{
    if from < tasks.len() && tasks[from].0 != name {
        lemma_find_task_range(tasks, name, from + 1);
    }
}

/// Every event keeps the dashboard well bounded: the log buffer holds at
/// most its capacity, the recent failures at most three, the scroll offset
/// stays within the log, and the completed count equals the sum of the
/// success, skip and failure counters (given room in the counters).
pub proof fn law_event_keeps_bounds(m: AppView, e: AppEvent)
    requires
        well_bounded(m),
        e matches AppEvent::FileDone { status, .. } ==> has_room(m, status),
    ensures
        well_bounded(step(m, e)),
{
}

/// Any sequence of events keeps the dashboard well bounded, as long as the
/// counters have room for its completed files.
pub proof fn law_events_keep_bounds(m: AppView, events: Seq<AppEvent>)
    requires
        well_bounded(m),
        room_throughout(m, events),
    ensures
        well_bounded(after_events(m, events)),
    decreases events.len(),
{
    if events.len() > 0 {
        let init = events.drop_last();
        assert forall|i: int| 0 <= i < init.len() implies (#[trigger] init[i] matches AppEvent::FileDone {
            status,
            ..
        } ==> has_room(after_events(m, init.take(i)), status)) by {
            assert(init[i] == events[i]);
            assert(init.take(i) =~= events.take(i));
        }
        law_events_keep_bounds(m, init);
        let k = events.len() - 1;
        assert(events.take(k) =~= init);
        assert(events[k] == events.last());
        law_event_keeps_bounds(after_events(m, init), events.last());
    }
}

/// A fresh dashboard stays well bounded through any sequence of events
/// whose completed files fit in its counters.
pub proof fn law_fresh_dashboard_stays_bounded(
    mode_label: Seq<char>,
    server_url: Seq<char>,
    events: Seq<AppEvent>,
)
    requires
        room_throughout(fresh_view(mode_label, server_url), events),
    ensures
        well_bounded(after_events(fresh_view(mode_label, server_url), events)),
{
    law_events_keep_bounds(fresh_view(mode_label, server_url), events);
}

/// Every scroll command keeps the log view within the log.
pub proof fn law_scroll_keeps_bounds(m: AppView)
    requires
        well_bounded(m),
    ensures
        well_bounded(scrolled(m, if m.log_scroll_offset < max_scroll(m) {
            (m.log_scroll_offset + 1) as usize
        } else {
            m.log_scroll_offset
        })),
        well_bounded(scrolled(m, if m.log_scroll_offset >= 1 {
            (m.log_scroll_offset - 1) as usize
        } else {
            0
        })),
        m.log_scroll_offset + LOG_PAGE_SCROLL <= usize::MAX ==> well_bounded(scrolled(m, if m.log_scroll_offset + LOG_PAGE_SCROLL <= max_scroll(m) {
            (m.log_scroll_offset + LOG_PAGE_SCROLL) as usize
        } else {
            max_scroll(m) as usize
        })),
        well_bounded(scrolled(m, if m.log_scroll_offset >= LOG_PAGE_SCROLL {
            (m.log_scroll_offset - LOG_PAGE_SCROLL) as usize
        } else {
            0
        })),
        max_scroll(m) <= usize::MAX ==> well_bounded(scrolled(m, max_scroll(m) as usize)),
        well_bounded(scrolled(m, 0)),
{
}

/// A finished file ends exactly one task of that name (the first), when
/// there is one, and no task otherwise; the completed count grows by one.
pub proof fn law_file_done_ends_one_task(m: AppView, filename: String, status: FileStatus, reason: Option<String>)
    ensures
        ({
            let n = step(m, AppEvent::FileDone { filename, status, reason });
            &&& n.tasks.len() == m.tasks.len() - (if find_task(m.tasks, filename@, 0) >= 0 {
                1int
            } else {
                0int
            })
            &&& n.done == (m.done + 1) as usize
        }),
{
    lemma_find_task_range(m.tasks, filename@, 0);
}

/// A stage report never adds a task: the task list keeps its length and its
/// filenames.
pub proof fn law_stage_keeps_tasks(m: AppView, filename: String, stage: Stage)
    ensures
        step(m, AppEvent::FileStage { filename, stage }).tasks.len() == m.tasks.len(),
        forall|i: int|
            0 <= i < m.tasks.len() ==> #[trigger] step(
                m,
                AppEvent::FileStage { filename, stage },
            ).tasks[i].0 == m.tasks[i].0,
{
    lemma_find_task_range(m.tasks, filename@, 0);
}

/// The start of a round clears its progress, tasks, counters and summary.
pub proof fn law_round_start_resets(m: AppView, total: usize)
    ensures
        ({
            let n = step(m, AppEvent::RoundStart { total });
            &&& n.total == total && n.done == 0 && n.round_active
            &&& n.tasks.len() == 0
            &&& n.stats == (Stats { success: 0, skipped: 0, failed: 0 })
            &&& n.last_round is None
        }),
{
}

/// The spinner shows the same frame again after a full cycle of ticks.
pub proof fn law_spinner_cycles(tick: usize)
    requires
        tick + SPINNER_FRAME_COUNT <= usize::MAX,
    ensures
        SPINNER_FRAMES[(tick % SPINNER_FRAME_COUNT) as int] == SPINNER_FRAMES[(((tick
            + SPINNER_FRAME_COUNT) as usize) % SPINNER_FRAME_COUNT) as int],
{
}

/// A finished round's summary carries the event's counts field by field, and
/// the round is no longer active.
pub proof fn law_round_done_summary(m: AppView, success: u32, skipped: u32, failed: u32, interrupted: bool)
    ensures
        step(m, AppEvent::RoundDone { success, skipped, failed, interrupted }).last_round matches Some(r)
            && r.0 == success && r.1 == skipped && r.2 == failed && r.3 == interrupted,
        !step(m, AppEvent::RoundDone { success, skipped, failed, interrupted }).round_active,
        step(m, AppEvent::RoundDone { success, skipped, failed, interrupted }).stats == m.stats,
{
}

/// With help closed and the view within the log, `Up` moves the log view one
/// line towards older lines, stopping at the oldest, and `Down` one line
/// towards the newest, stopping at it; neither quits or changes anything
/// else.
pub proof fn law_arrow_keys_scroll(m: AppView, ctrl: bool)
    requires
        !m.show_help,
        m.log_scroll_offset <= max_scroll(m),
        m.logs.len() <= usize::MAX,
    ensures
        key_step(m, Key::Up, ctrl).0.log_scroll_offset == (if m.log_scroll_offset + 1 <= max_scroll(m) {
            m.log_scroll_offset + 1
        } else {
            max_scroll(m) as int
        }),
        key_step(m, Key::Up, ctrl).0.log_scroll_offset >= m.log_scroll_offset,
        key_step(m, Key::Down, ctrl).0.log_scroll_offset == (if m.log_scroll_offset >= 1 {
            m.log_scroll_offset - 1
        } else {
            0int
        }),
        key_step(m, Key::Down, ctrl).0.log_scroll_offset <= m.log_scroll_offset,
        key_step(m, Key::Up, ctrl).0 == (AppView { log_scroll_offset: key_step(m, Key::Up, ctrl).0.log_scroll_offset, ..m }),
        key_step(m, Key::Down, ctrl).0 == (AppView { log_scroll_offset: key_step(m, Key::Down, ctrl).0.log_scroll_offset, ..m }),
        !key_step(m, Key::Up, ctrl).1,
        !key_step(m, Key::Down, ctrl).1,
{
}

/// Every key press keeps the dashboard well bounded.
pub proof fn law_key_keeps_bounds(m: AppView, key: Key, ctrl: bool)
    requires
        well_bounded(m),
        key == Key::PageUp ==> m.log_scroll_offset + LOG_PAGE_SCROLL <= usize::MAX,
    ensures
        well_bounded(key_step(m, key, ctrl).0),
{
}

/// Only `q`, `Esc` and `Ctrl+C` quit, and never while help is open; a quit
/// marks the dashboard for exit.
pub proof fn law_quit_keys(m: AppView, key: Key, ctrl: bool)
    ensures
        key_step(m, key, ctrl).1 <==> (!m.show_help && quits(key, ctrl)),
        key_step(m, key, ctrl).1 ==> key_step(m, key, ctrl).0.exit,
{
}

} // verus!
