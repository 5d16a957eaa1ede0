use vstd::prelude::*;

use crate::address::Address;
use crate::error::VaultError;
use crate::policy::{compute_fee, check_limit, check_timelock, fee_of, timelock_elapsed, valid_fee_percentage};

verus! {

/// The persisted record of one vault.
#[derive(Debug)]
pub struct Vault {
    /// The identity that configured the vault and alone may withdraw from it.
    pub authority: Address,
    /// The fungible token this vault holds.
    pub token_mint: Address,
    /// The identity that receives withdrawal fees.
    pub fee_collector: Address,
    /// The withdrawal fee in basis points.
    pub fee_percentage: u16,
    /// Seconds after creation before the first withdrawal.
    pub withdrawal_timelock: i64,
    /// The largest amount one withdrawal may move.
    pub withdrawal_limit: u64,
    /// The tokens held in custody.
    pub total_deposited: u64,
    /// The label that takes part in the vault's address.
    pub name: String,
    /// The bump seed of the vault's address.
    pub bump: u8,
    /// When the vault was created; the timelock counts from here.
    pub creation_time: i64,
}

/// The record that a successful initialization creates.
pub open spec fn fresh_vault(
    authority: Address,
    token_mint: Address,
    name: String,
    fee_percentage: u16,
    withdrawal_timelock: i64,
    withdrawal_limit: u64,
    bump: u8,
    now: i64,
) -> Vault {
    Vault {
        authority,
        token_mint,
        fee_collector: authority,
        fee_percentage,
        withdrawal_timelock,
        withdrawal_limit,
        total_deposited: 0,
        name,
        bump,
        creation_time: now,
    }
}

/// The record after a deposit of `amount` by a depositor who holds
/// `depositor_balance`, or why the deposit is refused.
pub open spec fn deposit_result(v: Vault, amount: u64, depositor_balance: u64) -> Result<Vault, VaultError> {
    if amount == 0 {
        Err(VaultError::ZeroAmount)
    } else if depositor_balance < amount {
        Err(VaultError::InsufficientFunds)
    } else if v.total_deposited + amount > u64::MAX {
        Err(VaultError::ArithmeticOverflow)
    } else {
        Ok(Vault { total_deposited: (v.total_deposited + amount) as u64, ..v })
    }
}

/// Why a withdrawal of `amount` by `withdrawer` at `now` is refused, if it is.
/// The checks come in this order: amount, authority, limit, timelock, balance.
pub open spec fn withdraw_error(v: Vault, withdrawer: Address, amount: u64, now: i64) -> Option<VaultError> {
    if amount == 0 {
        Some(VaultError::ZeroAmount)
    } else if withdrawer.bytes@ != v.authority.bytes@ {
        Some(VaultError::Unauthorized)
    } else if amount > v.withdrawal_limit {
        Some(VaultError::ExceedsWithdrawalLimit)
    } else if !timelock_elapsed(v.creation_time, now, v.withdrawal_timelock) {
        Some(VaultError::TimelockNotElapsed)
    } else if amount > v.total_deposited {
        Some(VaultError::InsufficientVaultBalance)
    } else {
        None
    }
}

/// The record after a withdrawal of `amount`, or why it is refused.
pub open spec fn withdraw_result(v: Vault, withdrawer: Address, amount: u64, now: i64) -> Result<Vault, VaultError> {
    match withdraw_error(v, withdrawer, amount, now) {
        Some(e) => Err(e),
        None => Ok(Vault { total_deposited: (v.total_deposited - amount) as u64, ..v }),
    }
}

/// One operation on a vault, with what the ledger supplies alongside it.
pub enum VaultOp {
    Deposit { amount: u64, depositor_balance: u64 },
    Withdraw { withdrawer: Address, amount: u64, now: i64 },
}

/// The record after one operation, or why it is refused.
pub open spec fn apply_op(v: Vault, op: VaultOp) -> Result<Vault, VaultError> {
    match op {
        VaultOp::Deposit { amount, depositor_balance } => deposit_result(v, amount, depositor_balance),
        VaultOp::Withdraw { withdrawer, amount, now } => withdraw_result(v, withdrawer, amount, now),
    }
}

/// The record after the operations in order, or `None` if one is refused.
pub open spec fn replay(v: Vault, ops: Seq<VaultOp>) -> Option<Vault>
    decreases ops.len(),
{
    if ops.len() == 0 {
        Some(v)
    } else {
        match replay(v, ops.drop_last()) {
            Some(w) => match apply_op(w, ops.last()) {
                Ok(u) => Some(u),
                Err(_) => None,
            },
            None => None,
        }
    }
}

/// The deposited amounts minus the withdrawn amounts (before fees).
pub open spec fn net_flow(ops: Seq<VaultOp>) -> int
    decreases ops.len(),
{
    if ops.len() == 0 {
        0
    } else {
        net_flow(ops.drop_last()) + match ops.last() {
            VaultOp::Deposit { amount, .. } => amount as int,
            VaultOp::Withdraw { amount, .. } => -(amount as int),
        }
    }
}

/// Over any run of successful deposits and withdrawals, the custody balance
/// moves by exactly the deposits minus the withdrawal principals (fees
/// included), and never goes below zero; the configuration stays as it was.
pub proof fn total_tracks_net_flow(v: Vault, ops: Seq<VaultOp>)
    requires
        replay(v, ops) is Some,
    ensures
        replay(v, ops)->Some_0.total_deposited == v.total_deposited + net_flow(ops),
        v.total_deposited + net_flow(ops) >= 0,
        replay(v, ops)->Some_0.fee_percentage == v.fee_percentage,
        replay(v, ops)->Some_0.withdrawal_limit == v.withdrawal_limit,
        replay(v, ops)->Some_0.withdrawal_timelock == v.withdrawal_timelock,
        replay(v, ops)->Some_0.creation_time == v.creation_time,
    decreases ops.len(),
{
    if ops.len() > 0 {
        total_tracks_net_flow(v, ops.drop_last());
    }
}

/// The timelock boundary is inclusive: a withdrawal that passes the amount,
/// authority, limit and balance checks fails with `TimelockNotElapsed`
/// exactly while `now < creation_time + withdrawal_timelock`, and succeeds
/// from that instant on.
pub proof fn timelock_boundary(v: Vault, withdrawer: Address, amount: u64, now: i64)
    requires
        amount > 0,
        withdrawer.bytes@ == v.authority.bytes@,
        amount <= v.withdrawal_limit,
    ensures
        now < v.creation_time + v.withdrawal_timelock ==> withdraw_result(v, withdrawer, amount, now)
            == Err::<Vault, VaultError>(VaultError::TimelockNotElapsed),
        now >= v.creation_time + v.withdrawal_timelock && amount <= v.total_deposited ==> withdraw_result(
            v,
            withdrawer,
            amount,
            now,
        ) is Ok,
{
}

/// The withdrawal limit is inclusive: above it an authorized withdrawal fails
/// with `ExceedsWithdrawalLimit` whatever the balance; at it, it succeeds
/// once the timelock has elapsed and the balance allows.
pub proof fn limit_boundary(v: Vault, withdrawer: Address, amount: u64, now: i64)
    requires
        amount > 0,
        withdrawer.bytes@ == v.authority.bytes@,
    ensures
        amount > v.withdrawal_limit ==> withdraw_result(v, withdrawer, amount, now) == Err::<Vault, VaultError>(
            VaultError::ExceedsWithdrawalLimit,
        ),
        amount == v.withdrawal_limit && timelock_elapsed(v.creation_time, now, v.withdrawal_timelock)
            && amount <= v.total_deposited ==> withdraw_result(v, withdrawer, amount, now) is Ok,
{
}

impl Vault {
    /// The fields fixed at creation hold a valid configuration.
    pub open spec fn wf(&self) -> bool {
        valid_fee_percentage(self.fee_percentage)
    }

    /// Creates the record of a new, empty vault; the fee collector is the authority.
    pub fn new(
        authority: Address,
        token_mint: Address,
        name: String,
        fee_percentage: u16,
        withdrawal_timelock: i64,
        withdrawal_limit: u64,
        bump: u8,
        now: i64,
    ) -> (r: Result<Vault, VaultError>)
        ensures
            valid_fee_percentage(fee_percentage) ==> r == Ok::<Vault, VaultError>(
                fresh_vault(authority, token_mint, name, fee_percentage, withdrawal_timelock, withdrawal_limit, bump, now),
            ),
            !valid_fee_percentage(fee_percentage) ==> r == Err::<Vault, VaultError>(VaultError::InvalidFeeConfig),
    {
        if fee_percentage > 10_000 {
            return Err(VaultError::InvalidFeeConfig);
        }
        Ok(Vault {
            authority,
            token_mint,
            fee_collector: authority,
            fee_percentage,
            withdrawal_timelock,
            withdrawal_limit,
            total_deposited: 0,
            name,
            bump,
            creation_time: now,
        })
    }

    /// Adds `amount` to the custody balance, taken from a depositor who holds
    /// `depositor_balance`. Anyone may deposit.
    pub fn deposit(&mut self, amount: u64, depositor_balance: u64) -> (r: Result<(), VaultError>)
        ensures
            match deposit_result(*old(self), amount, depositor_balance) {
                Ok(v) => r is Ok && *final(self) == v,
                Err(e) => r == Err::<(), VaultError>(e) && *final(self) == *old(self),
            },
    {
        if amount == 0 {
            return Err(VaultError::ZeroAmount);
        }
        if depositor_balance < amount {
            return Err(VaultError::InsufficientFunds);
        }
        match self.total_deposited.checked_add(amount) {
            Some(total) => {
                self.total_deposited = total;
                Ok(())
            },
            None => Err(VaultError::ArithmeticOverflow),
        }
    }

    /// Takes `amount` out of custody for the authority: returns the fee, which
    /// goes to the fee collector, and the rest, which goes to the withdrawer.
    ///
    /// Only the authority may withdraw. Any other caller is refused with
    /// `Unauthorized`, so the fee, the timelock and the ceiling bound what
    /// the authority takes, and no other key can drain custody.
    pub fn withdraw(&mut self, withdrawer: &Address, amount: u64, now: i64) -> (r: Result<(u64, u64), VaultError>)
        requires
            old(self).wf(),
        ensures
            match withdraw_result(*old(self), *withdrawer, amount, now) {
                Ok(v) => r == Ok::<(u64, u64), VaultError>(
                    (
                        fee_of(amount, old(self).fee_percentage) as u64,
                        (amount - fee_of(amount, old(self).fee_percentage)) as u64,
                    ),
                ) && *final(self) == v,
                Err(e) => r == Err::<(u64, u64), VaultError>(e) && *final(self) == *old(self),
            },
            final(self).wf(),
    {
        if amount == 0 {
            return Err(VaultError::ZeroAmount);
        }
        if !withdrawer.same_as(&self.authority) {
            return Err(VaultError::Unauthorized);
        }
        if !check_limit(amount, self.withdrawal_limit) {
            return Err(VaultError::ExceedsWithdrawalLimit);
        }
        if !check_timelock(self.creation_time, now, self.withdrawal_timelock) {
            return Err(VaultError::TimelockNotElapsed);
        }
        if amount > self.total_deposited {
            return Err(VaultError::InsufficientVaultBalance);
        }
        let (fee, net) = compute_fee(amount, self.fee_percentage);
        self.total_deposited = self.total_deposited - amount;
        Ok((fee, net))
    }
}

} // verus!
