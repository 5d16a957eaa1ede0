use vstd::prelude::*;

verus! {

/// Fees are expressed in basis points: this many make up the whole amount.
pub const BASIS_POINTS_DENOMINATOR: u64 = 10_000;

/// A fee rate is valid when it does not exceed the whole amount.
pub open spec fn valid_fee_percentage(fee_percentage: u16) -> bool {
    fee_percentage <= 10_000
}

/// The fee charged on `amount`, rounded down: whatever the division
/// truncates stays with the withdrawer.
pub open spec fn fee_of(amount: u64, fee_percentage: u16) -> int {
    (amount as int * fee_percentage as int) / 10_000
}

/// Whether at least `timelock` seconds separate `creation_time` from `now`.
pub open spec fn timelock_elapsed(creation_time: i64, now: i64, timelock: i64) -> bool {
    now as int - creation_time as int >= timelock as int
}

/// Splits a withdrawal of `amount` into the fee and what the withdrawer receives.
pub fn compute_fee(amount: u64, fee_percentage: u16) -> (r: (u64, u64))
    requires
        valid_fee_percentage(fee_percentage),
    ensures
        r.0 == fee_of(amount, fee_percentage),
        r.1 == amount - fee_of(amount, fee_percentage),
        r.0 + r.1 == amount,
        r.0 <= amount,
{
    proof {
        assert(amount as int * fee_percentage as int <= u64::MAX as int * 10_000) by (nonlinear_arith)
            requires
                fee_percentage <= 10_000,
                amount <= u64::MAX,
        ;
        assert(amount as int * fee_percentage as int <= amount as int * 10_000) by (nonlinear_arith)
            requires
                fee_percentage <= 10_000,
                amount >= 0,
        ;
        assert((amount as int * fee_percentage as int) / 10_000 <= amount as int) by (nonlinear_arith)
            requires
                amount as int * fee_percentage as int <= amount as int * 10_000,
                amount as int * fee_percentage as int >= 0,
        ;
    }
    let product: u128 = amount as u128 * fee_percentage as u128;
    let fee: u64 = (product / BASIS_POINTS_DENOMINATOR as u128) as u64;
    (fee, amount - fee)
}

/// Whether the timelock has run out at `now`; the boundary itself counts as elapsed.
pub fn check_timelock(creation_time: i64, now: i64, timelock: i64) -> (r: bool)
    ensures
        r == timelock_elapsed(creation_time, now, timelock),
{
    (now as i128) - (creation_time as i128) >= timelock as i128
}

/// Whether `amount` stays within the per-withdrawal ceiling.
pub fn check_limit(amount: u64, withdrawal_limit: u64) -> (r: bool)
    ensures
        r == (amount <= withdrawal_limit),
{
    amount <= withdrawal_limit
}

} // verus!
