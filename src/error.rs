use vstd::prelude::*;

verus! {

/// Why a vault operation was refused.
#[derive(Clone, Copy, Debug, PartialEq, Eq, Structural)]
pub enum VaultError {
    /// A vault record already exists at the derived address.
    AlreadyInitialized,
    /// No vault record exists at the given address.
    VaultNotFound,
    /// The fee rate exceeds 10,000 basis points.
    InvalidFeeConfig,
    /// The amount of a deposit or withdrawal is zero.
    ZeroAmount,
    /// The depositor holds fewer tokens than the deposit.
    InsufficientFunds,
    /// The custody account holds fewer tokens than the withdrawal.
    InsufficientVaultBalance,
    /// The withdrawal exceeds the vault's per-operation ceiling.
    ExceedsWithdrawalLimit,
    /// The withdrawal comes before the timelock has elapsed.
    TimelockNotElapsed,
    /// The caller is not the vault's authority.
    Unauthorized,
    /// The custody balance would no longer fit in 64 bits.
    ArithmeticOverflow,
    /// No bump seed yields a program address for these seeds.
    AddressDerivationFailed,
}

} // verus!
