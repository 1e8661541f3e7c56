use vstd::prelude::*;

verus! {

/// A point in time, in seconds.
pub type Moment = u64;

/// Length of one membership period, in seconds (366 days).
pub const SECOND_IN_YEAR: u64 = 31622400;

/// The largest number of periods one payment may buy.
pub const MAX_YEARS: u32 = 100;

/// The largest amount accepted in one payment at the given rate: the price
/// of `MAX_YEARS` periods. A payment above it is refused, so at a zero rate
/// only a payment of nothing is accepted.
pub open spec fn payment_bound(rate: u32) -> int {
    rate as int * MAX_YEARS as int
}

/// Seconds of membership that `amount` buys at `rate`: whole periods only.
/// A zero rate buys nothing.
pub open spec fn added_seconds(rate: u32, amount: u32) -> int {
    if rate == 0 {
        0
    } else {
        (amount as int / rate as int) * SECOND_IN_YEAR as int
    }
}

/// The paid-through moment after extending `paid_through` by `seconds`,
/// saturating at the largest moment rather than wrapping.
pub open spec fn extended(paid_through: Moment, seconds: int) -> Moment {
    if paid_through as int + seconds > u64::MAX as int {
        u64::MAX
    } else {
        (paid_through as int + seconds) as u64
    }
}

/// Whether `amount` is more than a payment at `rate` may be.
pub fn exceeds_payment_bound(rate: u32, amount: u32) -> (r: bool)
    ensures
        r == (amount as int > payment_bound(rate)),
{
    let r64: u64 = rate as u64;
    assert(r64 * 100 <= u32::MAX as int * 100) by (nonlinear_arith)
        requires
            r64 <= u32::MAX,
    ;
    (amount as u64) > r64 * (MAX_YEARS as u64)
}

/// Seconds of membership bought by `amount` at `rate`.
pub fn membership_duration(rate: u32, amount: u32) -> (r: u64)
    ensures
        r as int == added_seconds(rate, amount),
{
    if rate == 0 {
        0
    } else {
        let periods: u32 = amount / rate;
        assert(periods as int * SECOND_IN_YEAR as int <= u32::MAX as int * SECOND_IN_YEAR as int)
            by (nonlinear_arith)
            requires
                periods <= u32::MAX,
        ;
        (periods as u64) * SECOND_IN_YEAR
    }
}

/// The new paid-through moment after a payment of `amount` at `rate`:
/// nothing when the amount is above the bound, else the old moment extended
/// by the whole periods bought.
pub fn extend_membership(paid_through: Moment, rate: u32, amount: u32) -> (r: Option<Moment>)
    ensures
        amount as int > payment_bound(rate) ==> r is None,
        amount as int <= payment_bound(rate) ==> r == Some(
            extended(paid_through, added_seconds(rate, amount)),
        ),
{
    if exceeds_payment_bound(rate, amount) {
        None
    } else {
        let seconds = membership_duration(rate, amount);
        Some(paid_through.saturating_add(seconds))
    }
}

} // verus!
