//! The computations behind the system metrics: the CPU counters of
//! `/proc/stat`, the usage between two readings, and the uptime over the
//! last seven days.
use vstd::prelude::*;

use crate::background::heartbeat::{UptimeEvent, ONLINE_UNTIL};
use crate::clock::{
    at_least_zero, checked_sub_days, clamp, is_timestamp, lemma_div_add_le, seconds_between,
    whole_seconds, NANOS_PER_SEC,
};
use crate::text::{
    chars_of, cut, lemma_lines_from_len, lines, lines_from, next_line, parse_u64_range,
    parse_unsigned, range_starts_with, starts_with, ws_token_bounds, ws_tokens,
};

verus! {

/// The aggregate CPU counters of one reading of `/proc/stat`.
#[derive(Clone, Copy, Debug, PartialEq, Eq)]
pub struct CpuTicks {
    pub total: u64,
    pub idle: u64,
    pub iowait: u64,
    pub cores: usize,
}

pub open spec fn cpu_line_prefix() -> Seq<char> {
    seq!['c', 'p', 'u', ' ']
}

pub open spec fn cpu_word() -> Seq<char> {
    seq!['c', 'p', 'u']
}

/// A per-core line: it starts with `cpu` but is not the aggregate `cpu ` line.
pub open spec fn is_core_line(l: Seq<char>) -> bool {
    starts_with(l, cpu_word()) && !starts_with(l, cpu_line_prefix())
}

pub open spec fn count_core_lines(ls: Seq<Seq<char>>) -> nat
    decreases ls.len(),
{
    if ls.len() == 0 {
        0
    } else {
        count_core_lines(ls.drop_last()) + if is_core_line(ls.last()) {
            1nat
        } else {
            0nat
        }
    }
}

pub proof fn lemma_count_core_lines_le(ls: Seq<Seq<char>>)
    ensures
        count_core_lines(ls) <= ls.len(),
    decreases ls.len(),
{
    if ls.len() > 0 {
        lemma_count_core_lines_le(ls.drop_last());
    }
}

/// The `k`-th counter of the aggregate line (`user`, `nice`, `system`,
/// `idle`, `iowait`, `irq`, `softirq`, `steal`), as parsed.
pub open spec fn counter(toks: Seq<Seq<char>>, k: int) -> nat {
    parse_unsigned(toks[k + 1], u64::MAX as nat)->0
}

/// The reading of `/proc/stat` whose text is `content`, or `None` where the
/// first line is not the aggregate `cpu ` line, where it has fewer than eight
/// counters after the label, where one of the first eight is not a `u64`, or
/// where their sum does not fit in a `u64`. `cores` counts the per-core lines
/// that follow, and is 1 where there are none.
pub open spec fn spec_cpu_ticks(content: Seq<char>) -> Option<CpuTicks> {
    let ls = lines(content);
    if ls.len() == 0 || !starts_with(ls[0], cpu_line_prefix()) {
        None
    } else {
        let toks = ws_tokens(ls[0]);
        if toks.len() < 9 || exists|k: int|
            0 <= k < 8 && #[trigger] parse_unsigned(toks[k + 1], u64::MAX as nat) is None {
            None
        } else {
            let idle = counter(toks, 3) + counter(toks, 4);
            let busy = counter(toks, 0) + counter(toks, 1) + counter(toks, 2) + counter(toks, 5)
                + counter(toks, 6) + counter(toks, 7);
            if idle + busy > u64::MAX {
                None
            } else {
                let c = count_core_lines(ls.drop_first());
                Some(
                    CpuTicks {
                        total: (idle + busy) as u64,
                        idle: idle as u64,
                        iowait: counter(toks, 4) as u64,
                        cores: if c == 0 {
                            1usize
                        } else {
                            c as usize
                        },
                    },
                )
            }
        }
    }
}

/// Reads the CPU counters out of the text of `/proc/stat`.
#[verifier::loop_isolation(false)]
pub fn parse_cpu_ticks(content: &str) -> (r: Option<CpuTicks>)
    ensures
        r == spec_cpu_ticks(content@),
{
    let s = chars_of(content);
    let n = s.len();
    if n == 0 {
        assert(lines(s@) =~= Seq::<Seq<char>>::empty());
        return None;
    }
    let (e0, next) = next_line(&s, 0);
    let ghost ls = lines(s@);
    let ghost first = s@.subrange(0, e0 as int);
    assert(ls[0] == first);
    assert(ls.drop_first() =~= lines_from(s@, next as int));
    let prefix: Vec<char> = vec!['c', 'p', 'u', ' '];
    assert(prefix@ =~= cpu_line_prefix());
    if !range_starts_with(&s, 0, e0, &prefix) {
        return None;
    }
    let b = ws_token_bounds(&s, 0, e0);
    let ghost toks = ws_tokens(first);
    assert(cut(first, b@) == toks);
    if b.len() < 9 {
        return None;
    }
    let mut vals: Vec<u64> = Vec::new();
    let mut k: usize = 0;
    while k < 8
        invariant
            k <= 8,
            b@.len() >= 9,
            n == s@.len(),
            first == s@.subrange(0, e0 as int),
            e0 <= n,
            cut(first, b@) == toks,
            forall|j: int| 0 <= j < b@.len() ==> (#[trigger] b@[j]).0 <= b@[j].1 && b@[j].1 <= e0,
            vals@.len() == k,
            forall|j: int|
                0 <= j < k ==> parse_unsigned(#[trigger] toks[j + 1], u64::MAX as nat) == Some(
                    vals@[j] as nat,
                ),
        decreases 8 - k,
    {
        let (a, z) = b[k + 1];
        assert(s@.subrange(a as int, z as int) =~= first.subrange(a as int, z as int));
        assert(toks[k + 1] == first.subrange(a as int, z as int));
        match parse_u64_range(&s, a, z) {
            Some(v) => {
                vals.push(v);
            },
            None => {
                assert(parse_unsigned(toks[k as int + 1], u64::MAX as nat) is None);
                assert(exists|j: int|
                    0 <= j < 8 && #[trigger] parse_unsigned(toks[j + 1], u64::MAX as nat) is None);
                return None;
            },
        }
        k = k + 1;
    }
    assert(forall|j: int| 0 <= j < 8 ==> counter(toks, j) == vals@[j] as nat);
    assert(!exists|j: int|
        0 <= j < 8 && #[trigger] parse_unsigned(toks[j + 1], u64::MAX as nat) is None);
    let user = vals[0];
    let nice = vals[1];
    let system = vals[2];
    let idle = vals[3];
    let iowait = vals[4];
    let irq = vals[5];
    let softirq = vals[6];
    let steal = vals[7];
    let idle_ticks = match idle.checked_add(iowait) {
        Some(v) => v,
        None => return None,
    };
    let non_idle_ticks = match user.checked_add(nice) {
        Some(v) => v,
        None => return None,
    };
    let non_idle_ticks = match non_idle_ticks.checked_add(system) {
        Some(v) => v,
        None => return None,
    };
    let non_idle_ticks = match non_idle_ticks.checked_add(irq) {
        Some(v) => v,
        None => return None,
    };
    let non_idle_ticks = match non_idle_ticks.checked_add(softirq) {
        Some(v) => v,
        None => return None,
    };
    let non_idle_ticks = match non_idle_ticks.checked_add(steal) {
        Some(v) => v,
        None => return None,
    };
    let total_ticks = match idle_ticks.checked_add(non_idle_ticks) {
        Some(v) => v,
        None => return None,
    };
    // Count the per-core lines after the first.
    let word: Vec<char> = vec!['c', 'p', 'u'];
    assert(word@ =~= cpu_word());
    let mut cores: usize = 0;
    let mut i = next;
    let ghost mut seen: Seq<Seq<char>> = Seq::empty();
    proof {
        lemma_lines_from_len(s@, next as int);
    }
    while i < n
        invariant
            n == s@.len(),
            next <= i <= n,
            lines_from(s@, next as int) == seen + lines_from(s@, i as int),
            lines_from(s@, next as int).len() <= n - next,
            cores as nat == count_core_lines(seen),
            prefix@ == cpu_line_prefix(),
            word@ == cpu_word(),
        decreases n - i,
    {
        let (e, nx) = next_line(&s, i);
        let ghost l = s@.subrange(i as int, e as int);
        proof {
            lemma_count_core_lines_le(seen);
            assert(lines_from(s@, next as int) == seen.push(l) + lines_from(s@, nx as int));
            assert(seen.push(l).drop_last() =~= seen);
        }
        if range_starts_with(&s, i, e, &word) && !range_starts_with(&s, i, e, &prefix) {
            cores = cores + 1;
        }
        proof {
            seen = seen.push(l);
        }
        i = nx;
    }
    assert(lines_from(s@, n as int) =~= Seq::<Seq<char>>::empty());
    assert(seen =~= ls.drop_first());
    if cores == 0 {
        cores = 1;
    }
    Some(CpuTicks { total: total_ticks, idle: idle_ticks, iowait, cores })
}


// ---------------------------------------------------------------------------
// System uptime over the last seven days
// ---------------------------------------------------------------------------

/// Days of history that the uptime figure covers.
pub const UPTIME_WINDOW_DAYS: i64 = 7;

/// Seconds of "online until" that may trail the latest record and still
/// count as online (nine minutes).
pub const TRAILING_ONLINE_SECS: i128 = 540;

/// The uptime figure over the window.
#[derive(Clone, Copy, Debug, PartialEq, Eq)]
pub enum UptimeFigure {
    /// Nothing to measure: 100 percent.
    Full,
    /// `online_secs` of the `window_secs` seconds since the first record
    /// counted as online; the percentage is their ratio times 100, clamped
    /// to 0..=100.
    Measured { online_secs: i128, window_secs: i128 },
}

/// Where the window starts: seven days before `now`, or `None` where that
/// lies before the earliest `DateTime<Utc>`.
pub open spec fn uptime_window_start(now: int) -> Option<int> {
    let c = now - UPTIME_WINDOW_DAYS * 86_400_000_000_000;
    if is_timestamp(c) {
        Some(c)
    } else {
        None
    }
}

/// The start of the uptime window for the time `now`.
pub fn uptime_cutoff(now: i128) -> (r: Option<i128>)
    requires
        is_timestamp(now as int),
    ensures
        r matches Some(c) ==> uptime_window_start(now as int) == Some(c as int),
        r is None ==> uptime_window_start(now as int) is None,
{
    checked_sub_days(now, UPTIME_WINDOW_DAYS)
}

/// Online seconds and the end of the last counted span after the first `k`
/// records, scanning from `start`.
pub open spec fn uptime_scan(ev: Seq<UptimeEvent>, start: int, now: int, k: int) -> (int, int)
    decreases k,
{
    if k <= 0 {
        (0, start)
    } else {
        let p = uptime_scan(ev, start, now, k - 1);
        let et = clamp(ev[k - 1].timestamp as int, start, now);
        let d = at_least_zero(whole_seconds(et - p.1));
        (p.0 + if ev[k - 1].event == ONLINE_UNTIL {
            d
        } else {
            0
        }, et)
    }
}

/// The uptime figure of the records `ev` (those of the window, oldest first)
/// at the time `now`, for a window that starts at `cutoff`.
///
/// Each "online until" record counts the time since the previous record as
/// online; each "offline until" counts it as offline. After the latest
/// record, the time up to now counts as online where that record is an
/// "offline until" (the server came back), or an "online until" at most
/// nine minutes old. The window runs from the first record (or the cutoff,
/// if later) to now.
pub open spec fn spec_uptime(ev: Seq<UptimeEvent>, now: int, cutoff: int) -> UptimeFigure {
    if ev.len() == 0 {
        UptimeFigure::Full
    } else {
        let first = ev[0].timestamp as int;
        let start = if first > cutoff {
            first
        } else {
            cutoff
        };
        let scanned = uptime_scan(ev, start, now, ev.len() as int);
        let last = ev.last();
        let gap = at_least_zero(whole_seconds(now - last.timestamp));
        let tail = at_least_zero(whole_seconds(now - scanned.1));
        let online = scanned.0 + if last.event == ONLINE_UNTIL {
            if gap <= TRAILING_ONLINE_SECS {
                tail
            } else {
                0
            }
        } else {
            tail
        };
        let window = at_least_zero(whole_seconds(now - start));
        if window <= 0 {
            UptimeFigure::Full
        } else {
            UptimeFigure::Measured { online_secs: online as i128, window_secs: window as i128 }
        }
    }
}

pub open spec fn events_in_range(ev: Seq<UptimeEvent>) -> bool {
    forall|j: int| 0 <= j < ev.len() ==> is_timestamp((#[trigger] ev[j]).timestamp as int)
}

/// Largest whole-second span between two `DateTime<Utc>` values.
pub open spec fn max_span_secs() -> int {
    17_000_000_000_000
}

proof fn lemma_span_bound(a: int, b: int)
    requires
        is_timestamp(a),
        is_timestamp(b),
    ensures
        at_least_zero(whole_seconds(a - b)) <= max_span_secs(),
{
}

proof fn lemma_scan_bounds(ev: Seq<UptimeEvent>, start: int, now: int, k: int)
    requires
        0 <= k <= ev.len(),
        is_timestamp(start),
        is_timestamp(now),
        start <= now,
    ensures
        0 <= uptime_scan(ev, start, now, k).0 <= k * max_span_secs(),
        start <= uptime_scan(ev, start, now, k).1 <= now,
    decreases k,
{
    if k > 0 {
        lemma_scan_bounds(ev, start, now, k - 1);
        let p = uptime_scan(ev, start, now, k - 1);
        let et = clamp(ev[k - 1].timestamp as int, start, now);
        lemma_span_bound(et, p.1);
    }
}

/// The uptime figure from the records of the window (oldest first), the time
/// `now` and the window's start `cutoff`.
pub fn calculate_uptime(events: &[UptimeEvent], now: i128, cutoff: i128) -> (r: UptimeFigure)
    requires
        is_timestamp(now as int),
        is_timestamp(cutoff as int),
        cutoff <= now,
        events_in_range(events@),
        events@.len() > 0 ==> events@[0].timestamp <= now,
    ensures
        r == spec_uptime(events@, now as int, cutoff as int),
{
    let n = events.len();
    if n == 0 {
        return UptimeFigure::Full;
    }
    let first = events[0].timestamp;
    let start = if first > cutoff {
        first
    } else {
        cutoff
    };
    let ghost ev = events@;
    let mut online: i128 = 0;
    let mut last_time: i128 = start;
    let mut k: usize = 0;
    while k < n
        invariant
            n == ev.len(),
            ev == events@,
            events_in_range(ev),
            is_timestamp(now as int),
            is_timestamp(start as int),
            start <= now,
            k <= n,
            (online as int, last_time as int) == uptime_scan(ev, start as int, now as int, k as int),
        decreases n - k,
    {
        proof {
            lemma_scan_bounds(ev, start as int, now as int, k as int);
            assert(k * max_span_secs() <= usize::MAX * max_span_secs()) by (nonlinear_arith)
                requires
                    k <= usize::MAX,
            ;
        }
        let e = events[k];
        let e_time = if e.timestamp < start {
            start
        } else if e.timestamp > now {
            now
        } else {
            e.timestamp
        };
        let s = seconds_between(e_time, last_time);
        let duration = if s < 0 {
            0
        } else {
            s
        };
        proof {
            lemma_span_bound(e_time as int, last_time as int);
        }
        if e.event == ONLINE_UNTIL {
            online = online + duration;
        }
        last_time = e_time;
        k = k + 1;
    }
    let last = events[n - 1];
    let g = seconds_between(now, last.timestamp);
    let gap = if g < 0 {
        0
    } else {
        g
    };
    let t = seconds_between(now, last_time);
    let tail = if t < 0 {
        0
    } else {
        t
    };
    proof {
        lemma_scan_bounds(ev, start as int, now as int, n as int);
        lemma_span_bound(now as int, last_time as int);
        assert(n * max_span_secs() <= usize::MAX * max_span_secs()) by (nonlinear_arith)
            requires
                n <= usize::MAX,
        ;
    }
    if last.event == ONLINE_UNTIL {
        if gap <= TRAILING_ONLINE_SECS {
            online = online + tail;
        }
    } else {
        online = online + tail;
    }
    let w = seconds_between(now, start);
    let window = if w < 0 {
        0
    } else {
        w
    };
    if window <= 0 {
        UptimeFigure::Full
    } else {
        UptimeFigure::Measured { online_secs: online, window_secs: window }
    }
}

/// Records ordered oldest first, as the uptime query returns them.
pub open spec fn oldest_first(ev: Seq<UptimeEvent>) -> bool {
    forall|i: int, j: int|
        0 <= i <= j < ev.len() ==> (#[trigger] ev[i]).timestamp <= (#[trigger] ev[j]).timestamp
}

proof fn lemma_scan_within_window(ev: Seq<UptimeEvent>, start: int, now: int, k: int)
    requires
        0 <= k <= ev.len(),
        start <= now,
        oldest_first(ev),
    ensures
        0 <= uptime_scan(ev, start, now, k).0 <= whole_seconds(uptime_scan(ev, start, now, k).1
            - start),
        start <= uptime_scan(ev, start, now, k).1 <= now,
        k > 0 ==> uptime_scan(ev, start, now, k).1 == clamp(
            ev[k - 1].timestamp as int,
            start,
            now,
        ),
    decreases k,
{
    if k > 0 {
        lemma_scan_within_window(ev, start, now, k - 1);
        let p = uptime_scan(ev, start, now, k - 1);
        let et = clamp(ev[k - 1].timestamp as int, start, now);
        if k > 1 {
            assert(ev[k - 2].timestamp <= ev[k - 1].timestamp);
        }
        assert(p.1 <= et);
        lemma_div_add_le(p.1 - start, et - p.1, NANOS_PER_SEC as int);
    }
}

/// On records ordered oldest first, the online time never exceeds the
/// window: the uptime percentage lies in 0..=100 before any clamping.
pub proof fn lemma_uptime_within_window(ev: Seq<UptimeEvent>, now: int, cutoff: int)
    requires
        oldest_first(ev),
        events_in_range(ev),
        is_timestamp(now),
        is_timestamp(cutoff),
        cutoff <= now,
        ev.len() > 0 ==> ev[0].timestamp <= now,
    ensures
        spec_uptime(ev, now, cutoff) matches UptimeFigure::Measured { online_secs, window_secs }
            ==> 0 <= online_secs <= window_secs,
{
    if ev.len() > 0 {
        let first = ev[0].timestamp as int;
        let start = if first > cutoff {
            first
        } else {
            cutoff
        };
        lemma_scan_within_window(ev, start, now, ev.len() as int);
        let scanned = uptime_scan(ev, start, now, ev.len() as int);
        lemma_div_add_le(scanned.1 - start, now - scanned.1, NANOS_PER_SEC as int);
        let tail = at_least_zero(whole_seconds(now - scanned.1));
        assert(scanned.0 + tail <= whole_seconds(now - start));
        lemma_span_bound(now, start);
    }
}


// ---------------------------------------------------------------------------
// Usage between two readings
// ---------------------------------------------------------------------------

/// The counters that advanced between two readings.
#[derive(Clone, Copy, Debug, PartialEq, Eq)]
pub struct CpuUsage {
    /// Ticks that passed.
    pub total: u64,
    /// Ticks that were not idle.
    pub busy: u64,
    /// Ticks spent waiting for I/O.
    pub iowait: u64,
    /// Cores of the later reading.
    pub cores: usize,
}

/// `a - b`, or 0 where `b` is larger.
pub open spec fn saturating_diff(a: u64, b: u64) -> u64 {
    if a >= b {
        (a - b) as u64
    } else {
        0
    }
}

/// The usage between the readings `prev` and `curr`, or `None` where no tick
/// passed. The CPU percentage is `busy / total * 100`, the usage that times
/// the core count, and the I/O percentage `iowait / total * 100`.
pub open spec fn spec_cpu_usage(prev: CpuTicks, curr: CpuTicks) -> Option<CpuUsage> {
    let total = saturating_diff(curr.total, prev.total);
    let idle = saturating_diff(curr.idle, prev.idle);
    let iowait = saturating_diff(curr.iowait, prev.iowait);
    if total > 0 {
        Some(
            CpuUsage { total, busy: saturating_diff(total, idle), iowait, cores: curr.cores },
        )
    } else {
        None
    }
}

/// The usage between two readings.
pub fn cpu_usage_between(prev: &CpuTicks, curr: &CpuTicks) -> (r: Option<CpuUsage>)
    ensures
        r == spec_cpu_usage(*prev, *curr),
        r is Some <==> curr.total > prev.total,
        r matches Some(u) ==> (prev.idle <= curr.idle && curr.idle - prev.idle <= curr.total
            - prev.total ==> u.busy == (curr.total - prev.total) - (curr.idle - prev.idle)),
{
    proof {
        lemma_usage_counts_ticks(*prev, *curr);
    }
    let diff_total = curr.total.saturating_sub(prev.total);
    let diff_idle = curr.idle.saturating_sub(prev.idle);
    let diff_iowait = curr.iowait.saturating_sub(prev.iowait);
    if diff_total > 0 {
        Some(
            CpuUsage {
                total: diff_total,
                busy: diff_total.saturating_sub(diff_idle),
                iowait: diff_iowait,
                cores: curr.cores,
            },
        )
    } else {
        None
    }
}

/// The busy ticks never exceed the ticks that passed, so the CPU percentage
/// lies in 0..=100.
pub proof fn lemma_busy_within_total(prev: CpuTicks, curr: CpuTicks)
    ensures
        spec_cpu_usage(prev, curr) matches Some(u) ==> 0 < u.total && u.busy <= u.total,
{
}

/// The ticks that passed are counted from the two readings: there is a
/// usage exactly when the total counter advanced; it then covers
/// `curr.total - prev.total` ticks, of which the busy ones are those that
/// were not idle (`(curr.total - prev.total) - (curr.idle - prev.idle)`
/// where the idle counter advanced by no more than the total), and the I/O
/// wait ticks are `curr.iowait - prev.iowait` (none where that counter went
/// back); the cores are those of the later reading.
pub proof fn lemma_usage_counts_ticks(prev: CpuTicks, curr: CpuTicks)
    ensures
        spec_cpu_usage(prev, curr) is Some <==> curr.total > prev.total,
        spec_cpu_usage(prev, curr) matches Some(u) ==> {
            &&& u.total == curr.total - prev.total
            &&& u.cores == curr.cores
            &&& (curr.iowait >= prev.iowait ==> u.iowait == curr.iowait - prev.iowait)
            &&& (curr.iowait < prev.iowait ==> u.iowait == 0)
            &&& (prev.idle <= curr.idle && curr.idle - prev.idle <= curr.total - prev.total
                ==> u.busy == (curr.total - prev.total) - (curr.idle - prev.idle))
            &&& (curr.idle <= prev.idle ==> u.busy == curr.total - prev.total)
            &&& (prev.idle <= curr.idle && curr.idle - prev.idle >= curr.total - prev.total
                ==> u.busy == 0)
        },
{
}

/// Each further line that starts with `cpu` and not with `cpu ` is one more
/// core, whatever follows the prefix (`cpu0`, `cpu10`, `cpu127` alike);
/// any other line adds none.
pub proof fn lemma_core_line_counts(ls: Seq<Seq<char>>, l: Seq<char>)
    ensures
        (l.len() >= 3 && l[0] == 'c' && l[1] == 'p' && l[2] == 'u' && !(l.len() >= 4 && l[3]
            == ' ')) ==> count_core_lines(ls.push(l)) == count_core_lines(ls) + 1,
        !(l.len() >= 3 && l[0] == 'c' && l[1] == 'p' && l[2] == 'u' && !(l.len() >= 4 && l[3]
            == ' ')) ==> count_core_lines(ls.push(l)) == count_core_lines(ls),
{
    assert(ls.push(l).drop_last() =~= ls);
    assert(ls.push(l).last() == l);
    if l.len() >= 3 {
        assert(starts_with(l, cpu_word()) <==> (l[0] == 'c' && l[1] == 'p' && l[2] == 'u')) by {
            if l[0] == 'c' && l[1] == 'p' && l[2] == 'u' {
                assert(l.subrange(0, 3) =~= cpu_word());
            } else {
                if l.subrange(0, 3) == cpu_word() {
                    assert(l.subrange(0, 3)[0] == l[0]);
                    assert(l.subrange(0, 3)[1] == l[1]);
                    assert(l.subrange(0, 3)[2] == l[2]);
                }
            }
        }
    }
    if l.len() >= 4 {
        assert(starts_with(l, cpu_line_prefix()) <==> (l[0] == 'c' && l[1] == 'p' && l[2] == 'u'
            && l[3] == ' ')) by {
            if l[0] == 'c' && l[1] == 'p' && l[2] == 'u' && l[3] == ' ' {
                assert(l.subrange(0, 4) =~= cpu_line_prefix());
            } else {
                if l.subrange(0, 4) == cpu_line_prefix() {
                    assert(l.subrange(0, 4)[0] == l[0]);
                    assert(l.subrange(0, 4)[1] == l[1]);
                    assert(l.subrange(0, 4)[2] == l[2]);
                    assert(l.subrange(0, 4)[3] == l[3]);
                }
            }
        }
    }
}

/// Seconds for which a computed uptime figure is reused.
pub const UPTIME_REFRESH_SECS: u64 = 60;

/// The cached uptime figure is reused while it is younger than a minute;
/// `since_last` is the time since it was computed, in nanoseconds, or `None`
/// where none was.
pub fn reuse_cached_uptime(since_last: Option<u128>) -> (b: bool)
    ensures
        b == (since_last matches Some(d) && d < 60_000_000_000),
{
    match since_last {
        Some(d) => d < 60_000_000_000,
        None => false,
    }
}

} // verus!
