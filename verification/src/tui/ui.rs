//! The text the dashboard draws: durations, truncation and wrapping by
//! display width, labels, and placement of overlays.

use vstd::prelude::*;
use unicode_width::{UnicodeWidthChar, UnicodeWidthStr};
use crate::digits::{
    all_digits, decimal, decimal2, decimal2_string, decimal_string, digits_value,
    lemma_decimal2_reads_back,
};
use crate::logging::{abbr, level_abbr};
use crate::text::{
    chars_of, join, push_all, push_char, seq_contains, str_contains, string_of,
};
use crate::tui::app::{App, LogLine};

verus! {

/// Below this width or height the dashboard shows only a hint page.
pub const MIN_WIDTH: u16 = 50;

/// Below this width or height the dashboard shows only a hint page.
pub const MIN_HEIGHT: u16 = 25;

/// Below this inner width the header leaves out the server address.
pub const HEADER_COMPACT_WIDTH: u16 = 70;

/// `secs` as `MM:SS`, or `HH:MM:SS` from one hour on.
pub open spec fn duration_text(secs: nat) -> Seq<char> {
    let h = secs / 3600;
    let m = (secs % 3600) / 60;
    let s = secs % 60;
    if h > 0 {
        decimal2(h) + ":"@ + decimal2(m) + ":"@ + decimal2(s)
    } else {
        decimal2(m) + ":"@ + decimal2(s)
    }
}

/// The `:`-separated fields of `duration_text`: hours (from one hour on),
/// minutes and seconds.
pub open spec fn duration_fields(secs: nat) -> Seq<Seq<char>> {
    let h = secs / 3600;
    let m = (secs % 3600) / 60;
    let s = secs % 60;
    if h > 0 {
        seq![decimal2(h), decimal2(m), decimal2(s)]
    } else {
        seq![decimal2(m), decimal2(s)]
    }
}

/// A written duration reads back as the number of seconds: its fields are
/// runs of at least two digits joined by `:`, there are three from one hour
/// on and two below, minutes and seconds are below 60, and hours × 3600 +
/// minutes × 60 + seconds is the duration.
pub proof fn law_duration_reads_back(secs: nat)
    ensures
        duration_text(secs) == join(duration_fields(secs), ":"@),
        duration_fields(secs).len() == (if secs >= 3600 {
            3int
        } else {
            2int
        }),
        forall|i: int|
            0 <= i < duration_fields(secs).len() ==> all_digits(#[trigger] duration_fields(secs)[i])
                && duration_fields(secs)[i].len() >= 2,
        secs >= 3600 ==> digits_value(duration_fields(secs)[0]) * 3600 + digits_value(
            duration_fields(secs)[1],
        ) * 60 + digits_value(duration_fields(secs)[2]) == secs && digits_value(
            duration_fields(secs)[1],
        ) < 60 && digits_value(duration_fields(secs)[2]) < 60,
        secs < 3600 ==> digits_value(duration_fields(secs)[0]) * 60 + digits_value(
            duration_fields(secs)[1],
        ) == secs && digits_value(duration_fields(secs)[0]) < 60 && digits_value(
            duration_fields(secs)[1],
        ) < 60,
{
    let h = secs / 3600;
    let m = (secs % 3600) / 60;
    let s = secs % 60;
    lemma_decimal2_reads_back(h);
    lemma_decimal2_reads_back(m);
    lemma_decimal2_reads_back(s);
    assert(secs == h * 3600 + m * 60 + s) by (nonlinear_arith)
        requires
            h == secs / 3600,
            m == (secs % 3600) / 60,
            s == secs % 60,
    {
    }
    assert(m < 60 && s < 60);
    let f = duration_fields(secs);
    if h > 0 {
        assert(f.drop_last().drop_last() =~= seq![decimal2(h)]);
        assert(f.drop_last() =~= seq![decimal2(h), decimal2(m)]);
        assert(join(f.drop_last().drop_last(), ":"@) == decimal2(h));
        assert(join(f.drop_last(), ":"@) == decimal2(h) + ":"@ + decimal2(m));
        assert(join(f, ":"@) == decimal2(h) + ":"@ + decimal2(m) + ":"@ + decimal2(s));
    } else {
        assert(f.drop_last() =~= seq![decimal2(m)]);
        assert(join(f.drop_last(), ":"@) == decimal2(m));
        assert(join(f, ":"@) =~= decimal2(m) + ":"@ + decimal2(s));
    }
}

/// Writes a number of seconds as `MM:SS` or `HH:MM:SS`.
pub fn format_duration(secs: u64) -> (r: String)
    ensures
        r@ == duration_text(secs as nat),
{
    let h = secs / 3600;
    let m = (secs % 3600) / 60;
    let s = secs % 60;
    let mut out = String::new();
    if h > 0 {
        let hs = decimal2_string(h);
        push_all(&mut out, hs.as_str());
        push_all(&mut out, ":");
    }
    let ms = decimal2_string(m);
    push_all(&mut out, ms.as_str());
    push_all(&mut out, ":");
    let ss = decimal2_string(s);
    push_all(&mut out, ss.as_str());
    assert(out@ =~= duration_text(secs as nat));
    out
}

/// `text` cut to at most `max_chars` characters, the last one replaced by
/// `…` when anything was cut.
pub open spec fn truncated(text: Seq<char>, max_chars: nat) -> Seq<char> {
    if text.len() <= max_chars {
        text
    } else {
        text.take(if max_chars == 0 {
            0
        } else {
            max_chars - 1
        }).push('…')
    }
}

/// Cuts `text` to `max_chars` characters, ending in `…` when cut.
pub fn truncate(text: &str, max_chars: usize) -> (r: String)
    ensures
        r@ == truncated(text@, max_chars as nat),
        max_chars >= 1 ==> r@.len() <= max_chars,
{
    let cs = chars_of(text);
    if cs.len() <= max_chars {
        return string_of(cs.as_slice());
    }
    let keep = if max_chars == 0 {
        0
    } else {
        max_chars - 1
    };
    let mut out: Vec<char> = Vec::new();
    let mut i: usize = 0;
    while i < keep
        invariant
            cs@ == text@,
            keep < cs@.len(),
            i <= keep,
            out@ == cs@.take(i as int),
        decreases keep - i,
    {
        out.push(cs[i]);
        i = i + 1;
        assert(out@ =~= cs@.take(i as int));
    }
    out.push('…');
    string_of(out.as_slice())
}

/// The display width that `UnicodeWidthChar::width` gives a character:
/// `None` for control characters.
pub uninterp spec fn char_display_width(c: char) -> Option<usize>;

/// The display width that `UnicodeWidthStr::width` gives a string.
pub uninterp spec fn str_display_width(s: Seq<char>) -> usize;

/// `UnicodeWidthChar::width`.  The contract claims only that the result is
/// the name `char_display_width` of the character.
#[verifier::external_body]
fn char_width(c: char) -> (r: Option<usize>)
    ensures
        r == char_display_width(c),
{
    c.width()
}

/// `UnicodeWidthStr::width`.  The contract claims only that the result is the
/// name `str_display_width` of the text.
#[verifier::external_body]
fn str_width(s: &str) -> (r: usize)
    ensures
        r == str_display_width(s@),
{
    s.width()
}

/// The columns a character occupies (control characters count as none).
pub open spec fn columns(c: char) -> nat {
    match char_display_width(c) {
        Some(w) => w as nat,
        None => 0,
    }
}

/// The columns that the first `n` characters of `s` occupy.
pub open spec fn prefix_columns(s: Seq<char>, n: int) -> nat
    decreases n,
{
    if n <= 0 || n > s.len() {
        0
    } else {
        prefix_columns(s, n - 1) + columns(s[n - 1])
    }
}

/// The first position `idx >= from` (and `>= 1`) at which the characters up
/// to and including `idx` exceed `max_w` columns, or the length of `s`.
pub open spec fn split_search(s: Seq<char>, max_w: nat, from: int) -> int
    decreases s.len() - from,
{
    if from >= s.len() {
        s.len() as int
    } else if prefix_columns(s, from + 1) > max_w {
        from
    } else {
        split_search(s, max_w, from + 1)
    }
}

/// Where `split_at_width` cuts `s`: before the first character (after the
/// first) that would take the head past `max_w` columns.
pub open spec fn split_index(s: Seq<char>, max_w: nat) -> int {
    if s.len() == 0 {
        0
    } else {
        split_search(s, max_w, 1)
    }
}

/// `split_search` stays within `[from, len]` for a start inside the text.
pub proof fn lemma_split_search_bounds(s: Seq<char>, max_w: nat, from: int)
    requires
        0 <= from <= s.len(),
    ensures
        from <= split_search(s, max_w, from) <= s.len(),
    decreases s.len() - from,
{
    if from < s.len() && prefix_columns(s, from + 1) <= max_w {
        lemma_split_search_bounds(s, max_w, from + 1);
    }
}

/// A non-empty text always loses at least its first character to the head,
/// and the cut lies inside the text.
pub proof fn lemma_split_index_progress(s: Seq<char>, max_w: nat)
    ensures
        0 <= split_index(s, max_w) <= s.len(),
        s.len() > 0 ==> split_index(s, max_w) >= 1,
{
    if s.len() > 0 {
        lemma_split_search_bounds(s, max_w, 1);
    }
}

/// Splits `s` into a head that fits in `max_w` display columns and the rest.
/// The first character always goes to the head, even when it is wider, so
/// that repeated splitting always advances.
pub fn split_at_width(s: &str, max_w: usize) -> (r: (&str, &str))
    ensures
        r.0@ == s@.take(split_index(s@, max_w as nat)),
        r.1@ == s@.skip(split_index(s@, max_w as nat)),
        r.0@ + r.1@ == s@,
        s@.len() > 0 ==> r.0@.len() > 0,
{
    let cs = chars_of(s);
    let n = cs.len();
    proof {
        lemma_split_index_progress(s@, max_w as nat);
    }
    if n == 0 {
        assert(s@.take(0) =~= s@.skip(0));
        return (s.substring_char(0, 0), s.substring_char(0, 0));
    }
    let mut w: usize = match char_width(cs[0]) {
        Some(x) => x,
        None => 0,
    };
    assert(prefix_columns(s@, 0) == 0);
    assert(prefix_columns(s@, 1) == columns(s@[0]));
    let mut i: usize = 1;
    while i < n
        invariant
            cs@ == s@,
            n == cs@.len(),
            1 <= i <= n,
            w as nat == prefix_columns(s@, i as int),
            i >= 2 ==> w <= max_w,
            split_index(s@, max_w as nat) == split_search(s@, max_w as nat, i as int),
        decreases n - i,
    {
        let cw: usize = match char_width(cs[i]) {
            Some(x) => x,
            None => 0,
        };
        assert(prefix_columns(s@, i + 1) == prefix_columns(s@, i as int) + columns(s@[i as int]));
        let over = cw > max_w || w > max_w - cw;
        if over {
            let k = i;
            assert(s@.take(k as int) + s@.skip(k as int) =~= s@);
            return (s.substring_char(0, k), s.substring_char(k, n));
        }
        w = w + cw;
        i = i + 1;
    }
    assert(s@.take(n as int) =~= s@);
    assert(s@.skip(n as int) =~= Seq::<char>::empty());
    (s.substring_char(0, n), s.substring_char(n, n))
}

/// The parts a log message is cut into: the first part fits in `first_w`
/// columns, every later part in `rest_w` columns; an empty message gives
/// one empty part.
pub open spec fn message_parts(s: Seq<char>, first_w: nat, rest_w: nat) -> Seq<Seq<char>>
    decreases s.len(),
{
    let k = split_index(s, first_w);
    let head = s.take(k);
    let tail = s.skip(k);
    if tail.len() == 0 || tail.len() >= s.len() {
        seq![head]
    } else {
        seq![head] + message_parts(tail, rest_w, rest_w)
    }
}

/// The prefix of a log line: its time and a space.
pub open spec fn time_prefix(log_time: Seq<char>) -> Seq<char> {
    log_time + " "@
}

/// The prefix of a log line after the time: its level tag and a space.
pub open spec fn level_prefix(level_text: Seq<char>) -> Seq<char> {
    "["@ + level_text + "] "@
}

/// The columns available to the first part of a log message on a panel
/// `width` columns wide, after a prefix `prefix_w` columns wide (at least 1).
pub open spec fn first_part_width(width: nat, prefix_w: nat) -> nat {
    if width > prefix_w && width - prefix_w >= 1 {
        (width - prefix_w) as nat
    } else {
        1
    }
}

/// The display rows of one log line on a panel `width` columns wide: the
/// message cut so that the first row also holds the time and level prefix.
pub open spec fn log_rows(log_time: Seq<char>, level_text: Seq<char>, message: Seq<char>, width: nat) -> Seq<Seq<char>> {
    let prefix_w = str_display_width(time_prefix(log_time)) + str_display_width(
        level_prefix(level_text),
    );
    let rest_w: nat = if width >= 1 {
        width
    } else {
        1
    };
    message_parts(message, first_part_width(width, prefix_w as nat), rest_w)
}

/// Cuts a log message into display rows of a panel `width` columns wide,
/// the first row sharing its width with the time and level prefix.  The
/// rows hold the message text only; the caller adds the styled prefix.
pub fn build_log_lines(log: &LogLine, width: usize) -> (r: Vec<String>)
    ensures
        views_of(r@) == log_rows(log.time@, level_abbr(log.level), log.message@, width as nat),
        r@.len() >= 1,
{
    let mut time = string_of(chars_of(log.time.as_str()).as_slice());
    push_all(&mut time, " ");
    let mut level = String::new();
    push_all(&mut level, "[");
    push_all(&mut level, abbr(log.level));
    push_all(&mut level, "] ");
    assert(time@ =~= time_prefix(log.time@));
    assert(level@ =~= level_prefix(level_abbr(log.level)));
    let tw = str_width(time.as_str());
    let lw = str_width(level.as_str());
    let first_w: usize = if tw > width || lw > width - tw || width - tw - lw < 1 {
        1
    } else {
        width - tw - lw
    };
    let rest_w: usize = if width >= 1 {
        width
    } else {
        1
    };
    let ghost target = log_rows(log.time@, level_abbr(log.level), log.message@, width as nat);
    assert(target == message_parts(log.message@, first_w as nat, rest_w as nat));
    let mut lines: Vec<String> = Vec::new();
    let mut rest: &str = log.message.as_str();
    let mut avail = first_w;
    loop
        invariant
            rest_w >= 1,
            target == log_rows(log.time@, level_abbr(log.level), log.message@, width as nat),
            views_of(lines@) + message_parts(rest@, avail as nat, rest_w as nat) == target,
            lines@.len() >= 1 || rest@ == log.message@,
        decreases rest@.len(),
    {
        let (chunk, remaining) = split_at_width(rest, avail);
        proof {
            lemma_split_index_progress(rest@, avail as nat);
        }
        let ghost parts = message_parts(rest@, avail as nat, rest_w as nat);
        let done = remaining.unicode_len() == 0;
        let ghost old_lines = lines@;
        lines.push(string_of(chars_of(chunk).as_slice()));
        assert(views_of(lines@) =~= views_of(old_lines).push(chunk@));
        if done {
            assert(parts == seq![chunk@]);
            assert(views_of(lines@) =~= views_of(old_lines) + parts);
            return lines;
        }
        assert(parts == seq![chunk@] + message_parts(remaining@, rest_w as nat, rest_w as nat));
        assert(views_of(lines@) + message_parts(remaining@, rest_w as nat, rest_w as nat)
            =~= views_of(old_lines) + parts);
        rest = remaining;
        avail = rest_w;
    }
}

/// The views of a list of strings.
pub open spec fn views_of(v: Seq<String>) -> Seq<Seq<char>> {
    v.map_values(|s: String| s@)
}

/// A rectangle of terminal cells.
#[derive(Debug, Clone, Copy, PartialEq, Eq, Structural)]
pub struct Area {
    pub x: u16,
    pub y: u16,
    pub width: u16,
    pub height: u16,
}

/// The `w` by `h` rectangle centred in `area` (offset by half the spare
/// room, which is zero when the rectangle is larger).
pub open spec fn centered(area: Area, w: u16, h: u16) -> Area {
    let spare_w: int = if area.width >= w {
        area.width - w
    } else {
        0
    };
    let spare_h: int = if area.height >= h {
        area.height - h
    } else {
        0
    };
    Area { x: (area.x + spare_w / 2) as u16, y: (area.y + spare_h / 2) as u16, width: w, height: h }
}

/// Places a `w` by `h` rectangle in the middle of `area`.
pub fn center_rect(area: Area, w: u16, h: u16) -> (r: Area)
    requires
        area.x + (area.width - w) / 2 <= u16::MAX,
        area.y + (area.height - h) / 2 <= u16::MAX,
    ensures
        r == centered(area, w, h),
{
    let x = area.x + area.width.saturating_sub(w) / 2;
    let y = area.y + area.height.saturating_sub(h) / 2;
    Area { x, y, width: w, height: h }
}

/// The size of the help overlay on an area `width` by `height`: three fifths
/// of the width but at least 40 columns, and 10 rows, both leaving a margin
/// of 4.
pub open spec fn help_size(width: u16, height: u16) -> (u16, u16) {
    let wide: int = width * 3 / 5;
    let wide2: int = if wide >= 40 {
        wide
    } else {
        40
    };
    let room_w: int = if width >= 4 {
        width - 4
    } else {
        0
    };
    let room_h: int = if height >= 4 {
        height - 4
    } else {
        0
    };
    ((if wide2 <= room_w {
        wide2
    } else {
        room_w
    }) as u16, (if 10 <= room_h {
        10
    } else {
        room_h
    }) as u16)
}

/// Computes the size of the help overlay.
pub fn help_popup_size(width: u16, height: u16) -> (r: (u16, u16))
    requires
        width * 3 <= u16::MAX,
    ensures
        r == help_size(width, height),
{
    let w = (width * 3 / 5).max(40).min(width.saturating_sub(4));
    let h = 10u16.min(height.saturating_sub(4));
    (w, h)
}

/// The counter line of the statistics panel: the running total when the
/// round has no total (watch mode), otherwise `done/total`.
pub open spec fn progress_text(done: nat, total: nat) -> Seq<char> {
    if total == 0 {
        "累计    "@ + decimal(done)
    } else {
        "进度    "@ + decimal(done) + "/"@ + decimal(total)
    }
}

/// Writes the counter line of the statistics panel.
pub fn progress_line(done: usize, total: usize) -> (r: String)
    requires
        done <= u64::MAX,
        total <= u64::MAX,
    ensures
        r@ == progress_text(done as nat, total as nat),
{
    let mut s = String::new();
    if total == 0 {
        push_all(&mut s, "累计    ");
        let d = decimal_string(done as u64);
        push_all(&mut s, d.as_str());
    } else {
        push_all(&mut s, "进度    ");
        let d = decimal_string(done as u64);
        push_all(&mut s, d.as_str());
        push_all(&mut s, "/");
        let t = decimal_string(total as u64);
        push_all(&mut s, t.as_str());
    }
    assert(s@ =~= progress_text(done as nat, total as nat));
    s
}

/// The label inside the progress gauge: ` done/total ` with `  ETA ...`
/// when an estimate exists.
pub open spec fn gauge_text(done: nat, total: nat, eta: Option<u64>) -> Seq<char> {
    " "@ + decimal(done) + "/"@ + decimal(total) + match eta {
        Some(s) => "  ETA "@ + duration_text(s as nat),
        None => Seq::empty(),
    } + " "@
}

/// Writes the label inside the progress gauge.
pub fn gauge_label(done: usize, total: usize, eta: Option<u64>) -> (r: String)
    requires
        done <= u64::MAX,
        total <= u64::MAX,
    ensures
        r@ == gauge_text(done as nat, total as nat, eta),
{
    let mut s = String::new();
    push_all(&mut s, " ");
    let d = decimal_string(done as u64);
    push_all(&mut s, d.as_str());
    push_all(&mut s, "/");
    let t = decimal_string(total as u64);
    push_all(&mut s, t.as_str());
    match eta {
        Some(secs) => {
            push_all(&mut s, "  ETA ");
            let f = format_duration(secs);
            push_all(&mut s, f.as_str());
        },
        None => {},
    }
    push_all(&mut s, " ");
    assert(s@ =~= gauge_text(done as nat, total as nat, eta));
    s
}

/// The idle line of the progress area: waiting for files in watch mode,
/// getting ready otherwise.
pub open spec fn idle_text(mode_label: Seq<char>) -> Seq<char> {
    if seq_contains(mode_label, "监视"@) {
        "等待新视频文件..."@
    } else {
        "准备中..."@
    }
}

/// Chooses the idle line of the progress area.
pub fn idle_line(mode_label: &str) -> (r: &'static str)
    ensures
        r@ == idle_text(mode_label@),
{
    if str_contains(mode_label, "监视") {
        "等待新视频文件..."
    } else {
        "准备中..."
    }
}

/// The mark and title of a finished round's summary: paused and
/// `已中断` when the user quit before the end, a tick and `处理完成`
/// otherwise.
pub open spec fn round_heading(interrupted: bool) -> (Seq<char>, Seq<char>) {
    if interrupted {
        ("⏸ "@, "已中断"@)
    } else {
        ("✓ "@, "处理完成"@)
    }
}

/// Chooses the mark and title of a finished round's summary.
pub fn round_title(interrupted: bool) -> (r: (&'static str, &'static str))
    ensures
        (r.0@, r.1@) == round_heading(interrupted),
{
    if interrupted {
        ("⏸ ", "已中断")
    } else {
        ("✓ ", "处理完成")
    }
}

/// What the progress area shows, in order of precedence.
#[derive(Debug, Clone, Copy, PartialEq, Eq, Structural)]
pub enum ProgressPanel {
    /// A fatal error.
    Fatal,
    /// The summary of the last finished round.
    RoundSummary,
    /// A directory scan in progress.
    Scanning,
    /// The progress bar of the current round.
    Gauge,
    /// Files being processed in watch mode.
    WatchBusy,
    /// Nothing under way.
    Idle,
}

/// The panel for a dashboard state: a fatal error first, then the last
/// round's summary, a running scan, the progress bar of an active round with
/// files to do, watch-mode work, and otherwise the idle line.
pub open spec fn panel_for(
    fatal: bool,
    finished_round: bool,
    scanning: bool,
    round_active: bool,
    total: nat,
    watch_busy: bool,
) -> ProgressPanel {
    if fatal {
        ProgressPanel::Fatal
    } else if finished_round {
        ProgressPanel::RoundSummary
    } else if scanning {
        ProgressPanel::Scanning
    } else if round_active && total > 0 {
        ProgressPanel::Gauge
    } else if watch_busy {
        ProgressPanel::WatchBusy
    } else {
        ProgressPanel::Idle
    }
}

/// Chooses what the progress area shows.
pub fn progress_panel(app: &App) -> (r: ProgressPanel)
    ensures
        r == panel_for(
            app.fatal is Some,
            app.last_round is Some,
            app.scanning,
            app.round_active,
            app.total as nat,
            !app.round_active && !app.scanning && app.tasks@.len() > 0,
        ),
{
    if app.fatal.is_some() {
        ProgressPanel::Fatal
    } else if app.last_round.is_some() {
        ProgressPanel::RoundSummary
    } else if app.scanning {
        ProgressPanel::Scanning
    } else if app.round_active && app.total > 0 {
        ProgressPanel::Gauge
    } else if app.watch_processing() {
        ProgressPanel::WatchBusy
    } else {
        ProgressPanel::Idle
    }
}


/// Whether the terminal is too small for the normal layout.
pub fn terminal_too_small(width: u16, height: u16) -> (r: bool)
    ensures
        r == (width < MIN_WIDTH || height < MIN_HEIGHT),
{
    width < MIN_WIDTH || height < MIN_HEIGHT
}

/// The size line of the too-small page.
pub open spec fn size_hint_text(width: u16, height: u16) -> Seq<char> {
    "当前 "@ + decimal(width as nat) + "×"@ + decimal(height as nat) + "，建议至少 "@ + decimal(
        MIN_WIDTH as nat,
    ) + "×"@ + decimal(MIN_HEIGHT as nat)
}

/// Writes the size line of the too-small page.
pub fn size_hint(width: u16, height: u16) -> (r: String)
    ensures
        r@ == size_hint_text(width, height),
{
    let mut s = String::new();
    push_all(&mut s, "当前 ");
    push_all(&mut s, decimal_string(width as u64).as_str());
    push_all(&mut s, "×");
    push_all(&mut s, decimal_string(height as u64).as_str());
    push_all(&mut s, "，建议至少 ");
    push_all(&mut s, decimal_string(MIN_WIDTH as u64).as_str());
    push_all(&mut s, "×");
    push_all(&mut s, decimal_string(MIN_HEIGHT as u64).as_str());
    assert(s@ =~= size_hint_text(width, height));
    s
}

/// The note of an interrupted round: how many of its files were left.
pub open spec fn unfinished_text(interrupted: bool, done: nat, total: nat) -> Option<Seq<char>> {
    if interrupted && total > done {
        Some("（未完成 "@ + decimal((total - done) as nat) + "/"@ + decimal(total) + "）"@)
    } else {
        None
    }
}

/// Writes the note of an interrupted round, when files were left.
pub fn unfinished_note(interrupted: bool, done: usize, total: usize) -> (r: Option<String>)
    requires
        total <= u64::MAX,
    ensures
        match unfinished_text(interrupted, done as nat, total as nat) {
            Some(t) => (r matches Some(s) && s@ == t),
            None => r is None,
        },
{
    if interrupted && total > done {
        let mut s = String::new();
        push_all(&mut s, "（未完成 ");
        push_all(&mut s, decimal_string((total - done) as u64).as_str());
        push_all(&mut s, "/");
        push_all(&mut s, decimal_string(total as u64).as_str());
        push_all(&mut s, "）");
        assert(s@ =~= "（未完成 "@ + decimal((total - done) as nat) + "/"@ + decimal(total as nat)
            + "）"@);
        Some(s)
    } else {
        None
    }
}

/// How many tasks the task list shows on `visible` rows: at most eight, at
/// most one row less than the panel (but at least one), and whether a
/// "more tasks" line follows.
pub open spec fn tasks_shown(count: nat, visible: nat) -> (nat, bool) {
    let room: nat = if visible >= 2 {
        (visible - 1) as nat
    } else {
        1
    };
    let a: nat = if count <= 8 {
        count
    } else {
        8
    };
    let shown: nat = if a <= room {
        a
    } else {
        room
    };
    (shown, count > shown && shown < visible)
}

/// Decides how many tasks to list and whether to add a "more tasks" line.
pub fn visible_tasks(count: usize, visible: usize) -> (r: (usize, bool))
    ensures
        (r.0 as nat, r.1) == tasks_shown(count as nat, visible as nat),
{
    let room = visible.saturating_sub(1).max(1);
    let shown = count.min(8).min(room);
    let hidden = count.saturating_sub(shown);
    (shown, hidden > 0 && shown < visible)
}

/// A line of the recent failures: `file — reason` when the panel is wider
/// than the filename plus three columns, else the filename alone; cut to
/// the panel width (at least 8).
pub open spec fn failure_text(filename: Seq<char>, reason: Seq<char>, width: nat) -> Seq<char> {
    let text = if width > filename.len() + 3 {
        filename + " — "@ + reason
    } else {
        filename
    };
    truncated(
        text,
        if width >= 8 {
            width
        } else {
            8
        },
    )
}

/// Writes a line of the recent failures.
pub fn failure_line(filename: &str, reason: &str, width: usize) -> (r: String)
    ensures
        r@ == failure_text(filename@, reason@, width as nat),
{
    let n = filename.unicode_len();
    let mut text = string_of(chars_of(filename).as_slice());
    if width > n && width - n > 3 {
        push_all(&mut text, " — ");
        push_all(&mut text, reason);
    }
    let limit = if width >= 8 {
        width
    } else {
        8
    };
    truncate(text.as_str(), limit)
}

/// The log lines that fill the view: walking back from the newest line not
/// scrolled past, whole lines are taken until their rows fill `visible`
/// rows.  The answer is the first line taken and the rows taken.
pub open spec fn window_from(rows: Seq<usize>, end: int, visible: nat, taken: nat) -> (int, nat)
    decreases end,
{
    if end > 0 && taken < visible {
        window_from(rows, end - 1, visible, taken + rows[end - 1] as nat)
    } else {
        (end, taken)
    }
}

/// The first line of the log view and the rows of the lines shown, for
/// lines of the given row counts scrolled up by `offset` lines.
pub open spec fn log_window_spec(rows: Seq<usize>, offset: nat, visible: nat) -> (int, nat) {
    let end: int = if offset <= rows.len() {
        rows.len() - offset
    } else {
        0
    };
    window_from(rows, end, visible, 0)
}

/// Chooses the log lines to show: the first line and the rows they take
/// (the caller skips the rows beyond `visible` at the top).
pub fn log_window(rows: &[usize], offset: usize, visible: usize) -> (r: (usize, usize))
    requires
        forall|i: int| 0 <= i < rows@.len() ==> rows@[i] + visible <= usize::MAX,
    ensures
        (r.0 as int, r.1 as nat) == log_window_spec(rows@, offset as nat, visible as nat),
{
    let end = rows.len() - if offset <= rows.len() {
        offset
    } else {
        rows.len()
    };
    let mut idx = end;
    let mut taken: usize = 0;
    while idx > 0 && taken < visible
        invariant
            idx <= rows@.len(),
            forall|i: int| 0 <= i < rows@.len() ==> rows@[i] + visible <= usize::MAX,
            window_from(rows@, idx as int, visible as nat, taken as nat) == log_window_spec(
                rows@,
                offset as nat,
                visible as nat,
            ),
        decreases idx,
    {
        idx = idx - 1;
        taken = taken + rows[idx];
    }
    (idx, taken)
}
} // verus!
