//! Times between requests: as exact as numbers of double precision allow.
use crate::web::rate_limit::{
    nearest_double, replenish_nanos, replenish_period, round_half_even, small_double,
};
use vstd::prelude::*;

verus! {

/// A quotient is rounded to the nearest integer, and to the even one of two that are as near.
pub proof fn law_quotients_are_rounded_to_the_nearest(n: int, d: int)
    requires
        0 <= n,
        0 < d,
    ensures
        -d <= 2 * (round_half_even(n, d) * d - n) <= d,
        2 * (round_half_even(n, d) * d - n) == d || 2 * (n - round_half_even(n, d) * d) == d ==> round_half_even(n, d)
            % 2 == 0,
        round_half_even(n, d) >= 0,
{
    let q = n / d;
    let rest = n % d;
    assert(n == q * d + rest && 0 <= rest < d && q >= 0) by (nonlinear_arith)
        requires
            0 <= n,
            0 < d,
            q == n / d,
            rest == n % d,
    ;
    assert((q + 1) * d == q * d + d) by (nonlinear_arith);
}

proof fn lemma_small_double(n0: int, n: int, d: int, scale: int)
    requires
        0 < n0,
        0 < d,
        1 <= scale,
        n == n0 * scale,
        n < 0x20_0000_0000_0000 * d,
    ensures
        ({
            let (m, s) = small_double(n, d, scale);
            &&& s >= 1
            &&& m == round_half_even(n0 * s, d)
            &&& n0 * s >= 0x10_0000_0000_0000 * d
        }),
    decreases 0x20_0000_0000_0000 * d - n,
{
    assert(n0 * scale > 0) by (nonlinear_arith)
        requires
            0 < n0,
            1 <= scale,
    ;
    if n < 0x10_0000_0000_0000 * d {
        assert(2 * n == n0 * (2 * scale)) by (nonlinear_arith)
            requires
                n == n0 * scale,
        ;
        lemma_small_double(n0, 2 * n, d, 2 * scale);
    }
}

/// The time after which one more request may come is the seconds divided by the requests: to half a
/// nanosecond, and to what numbers of double precision leave out, which is less than a nanosecond for any
/// limit over less than a month.
pub proof fn law_time_between_requests_is_exact(period: int, burst: int)
    requires
        0 < period < 0x10_0000_0000_0000,
        0 < burst,
    ensures
        ({
            let error = 2 * (replenish_nanos(period, burst) * burst - period * 1_000_000_000);
            &&& error * 0x10_0000_0000_0000 <= burst * 0x10_0000_0000_0000 + period * 1_000_000_000
            &&& -error * 0x10_0000_0000_0000 <= burst * 0x10_0000_0000_0000 + period * 1_000_000_000
        }),
{
    let giga = 1_000_000_000int;
    let two = 0x10_0000_0000_0000int;
    let (m, s) = nearest_double(period, burst);
    assert(period < two * burst) by (nonlinear_arith)
        requires
            period < two,
            two == 0x10_0000_0000_0000int,
            0 < burst,
    ;
    lemma_small_double(period, period, burst, 1);
    assert(period * s >= 0) by (nonlinear_arith)
        requires
            0 < period,
            s >= 1,
    ;
    law_quotients_are_rounded_to_the_nearest(period * s, burst);
    assert(m * giga >= 0);
    law_quotients_are_rounded_to_the_nearest(m * giga, s);
    let nanos = replenish_nanos(period, burst);
    assert(nanos == round_half_even(m * giga, s));
    let a = 2 * (nanos * s - m * giga);
    let b = 2 * (m * burst - period * s);
    assert(-s <= a <= s && -burst <= b <= burst);
    let error = 2 * (nanos * burst - period * giga);
    assert(error * s == a * burst + b * giga) by (nonlinear_arith)
        requires
            error == 2 * (nanos * burst - period * giga),
            a == 2 * (nanos * s - m * giga),
            b == 2 * (m * burst - period * s),
    ;
    assert(-(s * burst + burst * giga) <= error * s <= s * burst + burst * giga) by (nonlinear_arith)
        requires
            error * s == a * burst + b * giga,
            -s <= a <= s,
            -burst <= b <= burst,
            0 < burst,
            giga == 1_000_000_000int,
    ;
    assert(error * two <= burst * two + period * giga && -error * two <= burst * two + period * giga)
        by (nonlinear_arith)
        requires
            -(s * burst + burst * giga) <= error * s <= s * burst + burst * giga,
            period * s >= two * burst,
            s >= 1,
            0 < burst,
            0 < period,
            giga == 1_000_000_000int,
            two == 0x10_0000_0000_0000int,
    ;
}

/// The time is calculated as that.
pub proof fn law_time_between_requests_is_calculated(period: u64, burst: u32, r: u128)
    requires
        call_ensures(replenish_period, (period, burst), r),
        0 < period < 0x10_0000_0000_0000,
        0 < burst,
    ensures
        ({
            let error = 2 * (r * burst - period * 1_000_000_000);
            &&& error * 0x10_0000_0000_0000 <= burst * 0x10_0000_0000_0000 + period * 1_000_000_000
            &&& -error * 0x10_0000_0000_0000 <= burst * 0x10_0000_0000_0000 + period * 1_000_000_000
        }),
{
    law_time_between_requests_is_exact(period as int, burst as int);
}

} // verus!
