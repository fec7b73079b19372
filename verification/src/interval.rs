//! The process-wide sampling tick: one signal every thirty seconds,
//! aligned to the wall clock, that admits one viewer-count sample per
//! writer.

use vstd::prelude::*;

verus! {

/// The broadcast payload: the signal itself carries nothing.
#[derive(Clone, Copy, Debug)]
pub struct Tick;

/// The sampling period, in milliseconds.
pub const WATCH_INTERVAL: i64 = 30000;

/// How long to wait before the first tick so that ticks land on whole
/// multiples of the period: the remainder of the period after `now`.
pub fn tick_delay(now: i64, interval: i64) -> (r: i64)
    requires
        0 < interval,
        0 <= now,
        now + interval <= i64::MAX,
    ensures
        0 < r <= interval,
        ((now + r) as int) % (interval as int) == 0,
{
    proof {
        let n = now as int;
        let p = interval as int;
        assert(0 <= n / p * p <= n) by (nonlinear_arith)
            requires
                p > 0,
                n >= 0,
        ;
        assert(n - n / p * p == n % p) by (nonlinear_arith)
            requires
                p > 0,
                n >= 0,
        ;
        assert(0 <= n % p < p) by (nonlinear_arith)
            requires
                p > 0,
                n >= 0,
        ;
        assert((n + (p - n % p)) % p == 0) by (nonlinear_arith)
            requires
                p > 0,
                n >= 0,
        ;
    }
    let elapse = interval - (now - now / interval * interval);
    elapse
}

} // verus!
