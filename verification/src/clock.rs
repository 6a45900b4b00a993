//! Time for the daily reward: instants are UTC nanoseconds since the Unix
//! epoch, as `time::OffsetDateTime::unix_timestamp_nanos` gives them.

use vstd::prelude::*;

verus! {

/// Nanoseconds in one day.
pub const DAY_NANOS: i128 = 86_400_000_000_000;

/// Integer division rounded toward zero, as Rust's `/` on signed integers.
pub open spec fn div_toward_zero(a: int, b: int) -> int {
    if a >= 0 {
        a / b
    } else {
        -((-a) / b)
    }
}

/// The whole hours in a span of `d` nanoseconds, as
/// `time::Duration::whole_hours` counts them: whole seconds, then whole hours
/// of those, each rounded toward zero.
pub open spec fn whole_hours(d: int) -> int {
    div_toward_zero(div_toward_zero(d, 1_000_000_000), 3600)
}

/// The redemption test of the daily reward: at least 24 whole hours have
/// passed from the last redemption `last` to `now`.
pub open spec fn may_redeem(last: i128, now: i128) -> bool {
    whole_hours(now - last) >= 24
}

/// `may_redeem` holds exactly when `now` lies at least a day after `last`.
pub proof fn lemma_may_redeem_iff(last: i128, now: i128)
    ensures
        may_redeem(last, now) <==> now - last >= DAY_NANOS,
{
    let d: int = now - last;
    if d >= 0 {
        assert(div_toward_zero(d, 1_000_000_000) == d / 1_000_000_000);
        assert((d / 1_000_000_000) >= 0) by (nonlinear_arith)
            requires
                d >= 0,
        ;
        assert(whole_hours(d) == (d / 1_000_000_000) / 3600);
        assert(((d / 1_000_000_000) / 3600 >= 24) <==> (d >= 86_400_000_000_000)) by (
        nonlinear_arith)
            requires
                d >= 0,
        ;
    } else {
        assert((-d) / 1_000_000_000 >= 0) by (nonlinear_arith)
            requires
                d < 0,
        ;
        let s = div_toward_zero(d, 1_000_000_000);
        assert(s <= 0);
        assert(whole_hours(d) <= 0) by {
            if s < 0 {
                assert((-s) / 3600 >= 0) by (nonlinear_arith)
                    requires
                        s < 0,
                ;
            }
        }
    }
}

/// Decides `may_redeem` without overflow.
pub fn redeem_allowed(last: i128, now: i128) -> (b: bool)
    ensures
        b == may_redeem(last, now),
{
    proof {
        lemma_may_redeem_iff(last, now);
    }
    match now.checked_sub(last) {
        Some(d) => d >= DAY_NANOS,
        None => now > last,
    }
}

/// A bound on every instant the clock can give: `time::OffsetDateTime` only
/// holds years within ±999 999 (±9 999 without the `large-dates` feature),
/// less than 10^23 nanoseconds from the Unix epoch either way.
pub const CLOCK_BOUND: i128 = 100_000_000_000_000_000_000_000;

/// An instant the clock can give.
pub open spec fn is_clock_reading(t: i128) -> bool {
    -CLOCK_BOUND < t < CLOCK_BOUND
}

/// Reads the clock: calls `time::OffsetDateTime::now_utc` and converts the
/// instant with `unix_timestamp_nanos`. Claimed: the instant lies within the
/// years that `time::OffsetDateTime` can hold (`now_utc` adds the system
/// time's distance from the epoch to `UNIX_EPOCH`, which panics rather than
/// leave that range). Which instant it is, is whatever the system clock says.
#[verifier::external_body]
pub(crate) fn current_time_nanos() -> (t: i128)
    ensures
        is_clock_reading(t),
{
    time::OffsetDateTime::now_utc().unix_timestamp_nanos()
}

} // verus!
