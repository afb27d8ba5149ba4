//! Rolling averages of how long frames take. Durations are in nanoseconds.

use std::collections::VecDeque;
use vstd::prelude::*;

verus! {

/// The frames that the render average runs over.
pub const RENDER_DURATION_WINDOW: usize = 60;

/// The render average, in milliseconds, above which there is a warning.
pub const RENDER_DURATION_WARN_MS: u64 = 8;

/// The ticks that the compositor average runs over.
pub const COMPOSITOR_DURATION_WINDOW: usize = 120;

/// The compositor average, in whole milliseconds, above which there is a warning.
pub const COMPOSITOR_DURATION_WARN_MS: u64 = 8;

const NANOS_PER_MS: u64 = 1_000_000;

/// The sum of the samples.
pub open spec fn total(samples: Seq<u64>) -> nat
    decreases samples.len(),
{
    if samples.len() == 0 {
        0
    } else {
        total(samples.drop_last()) + samples.last() as nat
    }
}

/// The average of the samples, rounded down.
pub open spec fn average(samples: Seq<u64>) -> nat {
    total(samples) / samples.len()
}

/// The last `window` samples once `sample` has been added.
pub open spec fn rolled(samples: Seq<u64>, sample: u64, window: nat) -> Seq<u64> {
    let all = samples.push(sample);
    if all.len() > window {
        all.skip(all.len() - window)
    } else {
        all
    }
}

/// Whether the samples fill the window and their average is above the limit.
pub open spec fn too_slow(samples: Seq<u64>, window: nat, limit_ms: u64) -> bool {
    &&& samples.len() == window
    &&& average(samples) > limit_ms * 1_000_000
}

/// Whether the samples fill the window and their average, cut to whole milliseconds,
/// is above the limit.
pub open spec fn whole_ms_too_slow(samples: Seq<u64>, window: nat, limit_ms: u64) -> bool {
    &&& samples.len() == window
    &&& average(samples) / 1_000_000 > limit_ms
}

/// The sum of samples is at most their number times a bound on each.
proof fn total_is_bounded(samples: Seq<u64>, bound: nat)
    requires
        forall|i: int| 0 <= i < samples.len() ==> #[trigger] samples[i] <= bound,
    ensures
        total(samples) <= samples.len() * bound,
    decreases samples.len(),
{
    if samples.len() > 0 {
        total_is_bounded(samples.drop_last(), bound);
        let n = samples.len();
        assert(n * bound == (n - 1) * bound + bound) by (nonlinear_arith)
            requires
                0 < n,
        ;
    } else {
        assert(0 * bound == 0);
    }
}

/// The sum of samples is at least their number times a lower bound on each.
proof fn total_is_at_least(samples: Seq<u64>, bound: nat)
    requires
        forall|i: int| 0 <= i < samples.len() ==> #[trigger] samples[i] >= bound,
    ensures
        total(samples) >= samples.len() * bound,
    decreases samples.len(),
{
    if samples.len() > 0 {
        total_is_at_least(samples.drop_last(), bound);
        let n = samples.len();
        assert(n * bound == (n - 1) * bound + bound) by (nonlinear_arith)
            requires
                0 < n,
        ;
    } else {
        assert(0 * bound == 0);
    }
}

/// Adds a sample to a rolling window, and gives the average.
fn record(durations: &mut VecDeque<u64>, sample: u64, window: usize) -> (r: u64)
    requires
        0 < window <= 1000,
    ensures
        final(durations)@ == rolled(old(durations)@, sample, window as nat),
        r == average(final(durations)@),
{
    durations.push_back(sample);
    let ghost all = durations@;
    let ghost mut dropped: int = 0;
    assert(all.skip(0) =~= all);
    while durations.len() > window
        invariant
            0 <= dropped,
            durations@ == all.skip(dropped),
            dropped + durations@.len() == all.len(),
            all.len() > window ==> dropped <= all.len() - window,
            dropped > 0 ==> all.len() > window,
        decreases durations@.len(),
    {
        let _ = durations.pop_front();
        proof {
            assert(durations@ =~= all.skip(dropped + 1));
            dropped = dropped + 1;
        }
    }
    assert(durations@ =~= rolled(old(durations)@, sample, window as nat));
    let count: usize = durations.len();
    let mut sum: u128 = 0;
    let mut i: usize = 0;
    assert(durations@.take(0) =~= seq![]);
    while i < count
        invariant
            i <= count,
            count == durations@.len(),
            count <= 1000,
            sum == total(durations@.take(i as int)),
        decreases count - i,
    {
        proof {
            total_is_bounded(durations@.take(i as int), u64::MAX as nat);
            assert(durations@.take(i + 1).drop_last() =~= durations@.take(i as int));
        }
        sum = sum + durations[i] as u128;
        i = i + 1;
    }
    proof {
        assert(durations@.take(i as int) =~= durations@);
        total_is_bounded(durations@, u64::MAX as nat);
        assert(sum / (count as u128) <= u64::MAX) by (nonlinear_arith)
            requires
                sum <= count * u64::MAX,
                0 < count,
        ;
    }
    (sum / count as u128) as u64
}

/// Adds how long a frame took to an app's rolling window. Gives the average, and
/// whether the window is full and the average above the limit: until it is full,
/// the first frames weigh too much.
pub fn record_render_duration(durations: &mut VecDeque<u64>, sample: u64) -> (r: (u64, bool))
    ensures
        final(durations)@ == rolled(old(durations)@, sample, 60),
        r.0 == average(final(durations)@),
        r.1 == too_slow(final(durations)@, 60, 8),
{
    let average: u64 = record(durations, sample, RENDER_DURATION_WINDOW);
    let full: bool = durations.len() == RENDER_DURATION_WINDOW;
    (average, full && average > RENDER_DURATION_WARN_MS * NANOS_PER_MS)
}

/// Adds how long a tick of the compositor took to its rolling window. Gives the
/// average, and whether the window is full and the average, in whole milliseconds,
/// above the limit.
pub fn record_compositor_duration(durations: &mut VecDeque<u64>, sample: u64) -> (r: (u64, bool))
    ensures
        final(durations)@ == rolled(old(durations)@, sample, 120),
        r.0 == average(final(durations)@),
        r.1 == whole_ms_too_slow(final(durations)@, 120, 8),
{
    let average: u64 = record(durations, sample, COMPOSITOR_DURATION_WINDOW);
    let full: bool = durations.len() == COMPOSITOR_DURATION_WINDOW;
    (average, full && average / NANOS_PER_MS > COMPOSITOR_DURATION_WARN_MS)
}

/// A window never holds more samples than its size, and always the newest one.
pub proof fn windows_are_bounded(samples: Seq<u64>, sample: u64, window: nat)
    requires
        0 < window,
    ensures
        0 < rolled(samples, sample, window).len() <= window,
        rolled(samples, sample, window).last() == sample,
{
}

/// A window that is not full yet never warns.
pub proof fn partial_windows_never_warn(samples: Seq<u64>, sample: u64, window: nat, limit_ms: u64)
    requires
        samples.len() + 1 < window,
    ensures
        !too_slow(rolled(samples, sample, window), window, limit_ms),
        !whole_ms_too_slow(rolled(samples, sample, window), window, limit_ms),
{
}

/// Where no sample is above the limit there is no warning.
pub proof fn fast_windows_never_warn(samples: Seq<u64>, window: nat, limit_ms: u64)
    requires
        0 < window,
        forall|i: int| 0 <= i < samples.len() ==> #[trigger] samples[i] <= limit_ms * 1_000_000,
    ensures
        !too_slow(samples, window, limit_ms),
        !whole_ms_too_slow(samples, window, limit_ms),
{
    if samples.len() > 0 {
        let bound = (limit_ms * 1_000_000) as nat;
        total_is_bounded(samples, bound);
        let t = total(samples);
        let n = samples.len();
        assert(t / n <= bound) by (nonlinear_arith)
            requires
                t <= n * bound,
                0 < n,
        ;
    }
}

/// A full window whose samples are all above the limit warns.
pub proof fn slow_windows_warn(samples: Seq<u64>, window: nat, limit_ms: u64)
    requires
        0 < window,
        samples.len() == window,
        forall|i: int| 0 <= i < samples.len() ==> #[trigger] samples[i] > limit_ms * 1_000_000,
    ensures
        too_slow(samples, window, limit_ms),
{
    let bound = (limit_ms * 1_000_000 + 1) as nat;
    total_is_at_least(samples, bound);
    let t = total(samples);
    assert(t / window >= bound) by (nonlinear_arith)
        requires
            t >= window * bound,
            0 < window,
    ;
}

} // verus!
