use vstd::prelude::*;

verus! {

/// The arguments of the initialize instruction.
pub struct InitializeVault {
    pub name: String,
    pub fee_percentage: u16,
    pub withdrawal_timelock: i64,
    pub withdrawal_limit: u64,
}

/// The argument of the deposit instruction.
#[derive(Clone, Copy, Debug, PartialEq, Eq)]
pub struct Deposit {
    pub amount: u64,
}

/// The argument of the withdraw instruction.
#[derive(Clone, Copy, Debug, PartialEq, Eq)]
pub struct Withdraw {
    pub amount: u64,
}

} // verus!
