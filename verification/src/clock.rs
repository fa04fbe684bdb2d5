//! Wall-clock arithmetic for the recorder: day boundaries for session
//! rotation, run deadlines, and the cadence rule for the sampler's busy-wait.
//!
//! All instants are carried as plain unsigned counts: nanoseconds since the
//! epoch for wall-clock time, microseconds of a monotonic clock for cadence.

use vstd::prelude::*;

verus! {

/// Nanoseconds in one calendar day (UTC days have no leap seconds here).
pub const NANOS_PER_DAY: u64 = 86_400_000_000_000;

/// Nanoseconds in one minute.
pub const NANOS_PER_MINUTE: u64 = 60_000_000_000;

/// The calendar day that a wall-clock instant falls in, as a day count
/// since the epoch.
pub open spec fn day_index_of(nanos: u64) -> int {
    nanos as int / NANOS_PER_DAY as int
}

/// The first instant of the next calendar day after `nanos`: the instant at
/// which a session opened at `nanos` must rotate.
pub open spec fn spec_next_day_boundary(nanos: u64) -> int {
    (day_index_of(nanos) + 1) * NANOS_PER_DAY as int
}

/// Computes the next midnight strictly after `nanos`.
pub fn next_day_boundary(nanos: u64) -> (boundary: u64)
    requires
        nanos <= u64::MAX - NANOS_PER_DAY,
    ensures
        boundary == spec_next_day_boundary(nanos),
        nanos < boundary <= nanos + NANOS_PER_DAY,
        boundary as int % NANOS_PER_DAY as int == 0,
        day_index_of(nanos) + 1 == boundary as int / NANOS_PER_DAY as int,
{
    let day: u64 = nanos / NANOS_PER_DAY;
    proof {
        vstd::arithmetic::div_mod::lemma_fundamental_div_mod(
            nanos as int,
            NANOS_PER_DAY as int,
        );
        assert((day + 1) * NANOS_PER_DAY as int == day * NANOS_PER_DAY as int
            + NANOS_PER_DAY as int) by (nonlinear_arith);
        vstd::arithmetic::div_mod::lemma_div_multiples_vanish(
            day as int + 1,
            NANOS_PER_DAY as int,
        );
        vstd::arithmetic::div_mod::lemma_mod_multiples_basic(
            day as int + 1,
            NANOS_PER_DAY as int,
        );
    }
    (day + 1) * NANOS_PER_DAY
}

/// Computes the run deadline: the instant `minutes` minutes after `start_nanos`.
pub fn deadline_after_minutes(start_nanos: u64, minutes: u64) -> (deadline: u64)
    requires
        start_nanos + minutes * NANOS_PER_MINUTE <= u64::MAX,
    ensures
        deadline == start_nanos + minutes * NANOS_PER_MINUTE,
{
    start_nanos + minutes * NANOS_PER_MINUTE
}

/// The cadence rule: one tick's busy-wait may end only once a full period has
/// elapsed since the tick started.
pub open spec fn period_elapsed(tick_start_micros: u64, now_micros: u64, period_micros: u64) -> bool {
    now_micros - tick_start_micros >= period_micros
}

/// Decides whether the busy-wait of the tick that started at
/// `tick_start_micros` may end at `now_micros`.
pub fn cadence_elapsed(tick_start_micros: u64, now_micros: u64, period_micros: u64) -> (done: bool)
    requires
        tick_start_micros <= now_micros,
    ensures
        done == period_elapsed(tick_start_micros, now_micros, period_micros),
{
    now_micros - tick_start_micros >= period_micros
}

/// A run keeps cadence when each tick starts at least one period after the
/// tick before it: the busy-wait never returns early.
pub open spec fn keeps_cadence(tick_starts: Seq<u64>, period_micros: u64) -> bool {
    forall|i: int| 0 <= i && i + 1 < tick_starts.len()
        ==> #[trigger] tick_starts[i + 1] >= tick_starts[i] + period_micros
}

/// Cadence bound: in a run that keeps cadence, consecutive tick starts differ
/// by at least the period, and the k-th tick starts no earlier than k whole
/// periods after the first, so the cadence never runs ahead of the target.
pub proof fn lemma_cadence_bound(tick_starts: Seq<u64>, period_micros: u64, k: int)
    requires
        keeps_cadence(tick_starts, period_micros),
        0 <= k < tick_starts.len(),
    ensures
        tick_starts[k] >= tick_starts[0] + k * period_micros,
    decreases k,
{
    if k > 0 {
        lemma_cadence_bound(tick_starts, period_micros, k - 1);
        assert(tick_starts[(k - 1) + 1] >= tick_starts[k - 1] + period_micros);
        assert((k - 1) * period_micros + period_micros == k * period_micros)
            by (nonlinear_arith);
    }
}

} // verus!
