//! When the next scheduled run is due, and how the wait is written.

use vstd::prelude::*;
use crate::digits::{all_digits, decimal, decimal_string, lemma_decimal_reads_back};
use crate::text::push_all;

verus! {

/// The wait before the next run: hours and minutes from one hour on,
/// minutes from one minute on, seconds below that.
pub open spec fn wait_text(seconds: nat) -> Seq<char> {
    if seconds >= 3600 {
        decimal(seconds / 3600) + " 小时 "@ + decimal((seconds % 3600) / 60) + " 分钟"@
    } else if seconds >= 60 {
        decimal(seconds / 60) + " 分钟"@
    } else {
        decimal(seconds) + " 秒"@
    }
}

/// A run of digits followed by a text that starts with something else splits
/// in one way only.
proof fn lemma_digit_run_split(a: Seq<char>, x: Seq<char>, b: Seq<char>, y: Seq<char>)
    requires
        all_digits(a),
        all_digits(b),
        x.len() > 0,
        y.len() > 0,
        !('0' <= x[0] <= '9'),
        !('0' <= y[0] <= '9'),
        a + x == b + y,
    ensures
        a == b,
        x == y,
{
    if a.len() < b.len() {
        assert((a + x)[a.len() as int] == x[0]);
        assert((b + y)[a.len() as int] == b[a.len() as int]);
    } else if b.len() < a.len() {
        assert((b + y)[b.len() as int] == y[0]);
        assert((a + x)[b.len() as int] == a[b.len() as int]);
    }
    assert(a =~= (a + x).take(a.len() as int));
    assert(b =~= (b + y).take(b.len() as int));
    assert(x =~= (a + x).skip(a.len() as int));
    assert(y =~= (b + y).skip(b.len() as int));
}

/// A wait of at least an hour is written as hours and minutes that read back
/// as the whole minutes of the wait: whenever the text is `H 小时 M 分钟`,
/// the wait is at least an hour, H is its whole hours, M is below 60 and
/// H × 60 + M is its whole minutes.
pub proof fn law_wait_reads_back(seconds: nat, h: nat, m: nat)
    requires
        wait_text(seconds) == decimal(h) + " 小时 "@ + decimal(m) + " 分钟"@,
    ensures
        seconds >= 3600,
        h == seconds / 3600,
        m < 60,
        h * 60 + m == seconds / 60,
{
    reveal_strlit(" 小时 ");
    reveal_strlit(" 分钟");
    reveal_strlit(" 秒");
    lemma_decimal_reads_back(h);
    lemma_decimal_reads_back(m);
    let hours = " 小时 "@;
    let minutes = " 分钟"@;
    let x = hours + decimal(m) + minutes;
    assert(decimal(h) + hours + decimal(m) + minutes =~= decimal(h) + x);
    assert(x[0] == ' ');
    if seconds >= 3600 {
        let hh = seconds / 3600;
        let mm = (seconds % 3600) / 60;
        lemma_decimal_reads_back(hh);
        lemma_decimal_reads_back(mm);
        let y = hours + decimal(mm) + minutes;
        assert(decimal(hh) + hours + decimal(mm) + minutes =~= decimal(hh) + y);
        assert(y[0] == ' ');
        lemma_digit_run_split(decimal(h), x, decimal(hh), y);
        assert(decimal(m) + minutes =~= x.skip(4));
        assert(decimal(mm) + minutes =~= y.skip(4));
        lemma_digit_run_split(decimal(m), minutes, decimal(mm), minutes);
        assert(h == hh);
        assert(m == mm);
        assert(mm < 60);
        assert(hh * 60 + mm == seconds / 60) by (nonlinear_arith)
            requires
                hh == seconds / 3600,
                mm == (seconds % 3600) / 60,
        {
        }
    } else if seconds >= 60 {
        let a = seconds / 60;
        lemma_decimal_reads_back(a);
        lemma_digit_run_split(decimal(h), x, decimal(a), minutes);
        assert(x.len() > minutes.len());
    } else {
        let secs = " 秒"@;
        lemma_decimal_reads_back(seconds);
        lemma_digit_run_split(decimal(h), x, decimal(seconds), secs);
        assert(x.len() > secs.len());
    }
}

/// Writes the wait before the next run.
pub fn format_duration(seconds: u64) -> (r: String)
    ensures
        r@ == wait_text(seconds as nat),
{
    let mut s = String::new();
    if seconds >= 3600 {
        let h = decimal_string(seconds / 3600);
        push_all(&mut s, h.as_str());
        push_all(&mut s, " 小时 ");
        let m = decimal_string((seconds % 3600) / 60);
        push_all(&mut s, m.as_str());
        push_all(&mut s, " 分钟");
    } else if seconds >= 60 {
        let m = decimal_string(seconds / 60);
        push_all(&mut s, m.as_str());
        push_all(&mut s, " 分钟");
    } else {
        let x = decimal_string(seconds);
        push_all(&mut s, x.as_str());
        push_all(&mut s, " 秒");
    }
    assert(s@ =~= wait_text(seconds as nat));
    s
}

/// The whole seconds from `now_ms` until `next_ms` (milliseconds since the
/// Unix epoch), zero when `next_ms` is not later.
pub open spec fn delay_secs(next_ms: i64, now_ms: i64) -> nat {
    if next_ms > now_ms {
        ((next_ms - now_ms) / 1000) as nat
    } else {
        0
    }
}

/// Computes the whole seconds to wait until `next_ms`.
pub fn delay_until(next_ms: i64, now_ms: i64) -> (r: u64)
    ensures
        r as nat == delay_secs(next_ms, now_ms),
{
    if next_ms > now_ms {
        let diff: i128 = (next_ms as i128) - (now_ms as i128);
        let secs = diff / 1000;
        assert(0 <= secs <= u64::MAX) by (nonlinear_arith)
            requires
                0 < diff <= 18446744073709551615int,
                secs == diff / 1000,
        ;
        secs as u64
    } else {
        0
    }
}

/// Whether `croner` accepts a cron expression.
pub uninterp spec fn cron_accepts(expr: Seq<char>) -> bool;

/// The first occurrence of a cron expression strictly after `now_ms`, in
/// milliseconds since the Unix epoch (UTC), as `croner` computes it.
pub uninterp spec fn cron_next_after(expr: Seq<char>, now_ms: i64) -> Option<i64>;

/// `croner::Cron::new(expr).parse()` succeeded.  The contract claims only
/// that the answer is the name `cron_accepts` of the expression.
#[verifier::external_body]
fn cron_parses(expr: &str) -> (r: bool)
    ensures
        r == cron_accepts(expr@),
{
    croner::Cron::new(expr).parse().is_ok()
}

/// `Cron::new(expr).parse()` then `find_next_occurrence(now, false)` in UTC;
/// `None` when the expression does not parse, the instant is out of range or
/// no occurrence is found.  The contract claims only that the result is the
/// name `cron_next_after` of the arguments.
#[verifier::external_body]
fn cron_next(expr: &str, now_ms: i64) -> (r: Option<i64>)
    ensures
        r == cron_next_after(expr@, now_ms),
{
    let now = chrono::DateTime::<chrono::Utc>::from_timestamp_millis(now_ms)?;
    let cron = croner::Cron::new(expr).parse().ok()?;
    let next = cron.find_next_occurrence(&now, false).ok()?;
    Some(next.timestamp_millis())
}

/// Whether a cron expression can drive the scheduler.
pub fn schedule_is_valid(expr: &str) -> (r: bool)
    ensures
        r == cron_accepts(expr@),
{
    cron_parses(expr)
}

/// The next run after `now_ms` and the whole seconds to wait for it; `None`
/// when the expression yields no next occurrence.
pub fn next_run(expr: &str, now_ms: i64) -> (r: Option<(i64, u64)>)
    ensures
        match cron_next_after(expr@, now_ms) {
            Some(n) => r == Some((n, delay_secs(n, now_ms) as u64)),
            None => r is None,
        },
{
    match cron_next(expr, now_ms) {
        Some(n) => Some((n, delay_until(n, now_ms))),
        None => None,
    }
}

/// Whether a scheduled round is under way: a tick that comes while one runs
/// is skipped.
#[derive(Debug)]
pub struct RoundGate {
    pub running: bool,
}

impl RoundGate {
    /// A gate with no round under way.
    pub fn new() -> (r: Self)
        ensures
            !r.running,
    {
        RoundGate { running: false }
    }

    /// A tick arrived: answers whether to start a round, which is so exactly
    /// when none runs; a round is under way afterwards either way.
    pub fn try_start(&mut self) -> (start: bool)
        ensures
            start == !old(self).running,
            final(self).running,
    {
        if self.running {
            false
        } else {
            self.running = true;
            true
        }
    }

    /// The round finished.
    pub fn finish(&mut self)
        ensures
            !final(self).running,
    {
        self.running = false;
    }
}

} // verus!
