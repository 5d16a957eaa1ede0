use vstd::prelude::*;
use vstd::utf8::encode_utf8;

use crate::address::{vault_address, vault_address_of, Address};
use crate::error::VaultError;
use crate::policy::{fee_of, valid_fee_percentage};
use crate::token_vault::state::{deposit_result, fresh_vault, withdraw_result, Vault};

verus! {

/// The vault records of one program, each at its derived address. A record
/// is never overwritten and never removed.
pub struct VaultRegistry {
    entries: Vec<(Address, Vault)>,
}

/// Whether some entry is at `key`.
pub open spec fn has_key(entries: Seq<(Address, Vault)>, key: Seq<u8>) -> bool {
    exists|i: int| 0 <= i < entries.len() && #[trigger] entries[i].0.bytes@ == key
}

/// The position of the entry at `key`.
pub open spec fn slot_of(entries: Seq<(Address, Vault)>, key: Seq<u8>) -> int {
    choose|i: int| 0 <= i < entries.len() && #[trigger] entries[i].0.bytes@ == key
}

/// No two entries share an address, and every record is well formed.
pub open spec fn entries_wf(entries: Seq<(Address, Vault)>) -> bool {
    &&& forall|i: int, j: int|
        0 <= i < entries.len() && 0 <= j < entries.len() && i != j ==> #[trigger] entries[i].0.bytes@
            != #[trigger] entries[j].0.bytes@
    &&& forall|i: int| 0 <= i < entries.len() ==> (#[trigger] entries[i]).1.wf()
}

/// The record at `key`, if there is one.
pub open spec fn record_at(entries: Seq<(Address, Vault)>, key: Seq<u8>) -> Option<Vault> {
    if has_key(entries, key) {
        Some(entries[slot_of(entries, key)].1)
    } else {
        None
    }
}

/// Why initializing a vault at `key` with this fee rate is refused, if it is.
pub open spec fn initialize_error(entries: Seq<(Address, Vault)>, key: Seq<u8>, fee_percentage: u16) -> Option<VaultError> {
    if has_key(entries, key) {
        Some(VaultError::AlreadyInitialized)
    } else if !valid_fee_percentage(fee_percentage) {
        Some(VaultError::InvalidFeeConfig)
    } else {
        None
    }
}

/// The entries with the record at `key` replaced by `record`.
pub open spec fn replaced(entries: Seq<(Address, Vault)>, key: Seq<u8>, record: Vault) -> Seq<(Address, Vault)> {
    entries.update(slot_of(entries, key), (entries[slot_of(entries, key)].0, record))
}

/// Initializing is not idempotent: once a vault has been created at an
/// address, a second initialization there is refused with
/// `AlreadyInitialized`, whatever its configuration, and the record there
/// (its balance included) is the one first created.
pub proof fn second_initialize_refused(entries: Seq<(Address, Vault)>, vault: Address, record: Vault, fee_percentage: u16)
    requires
        entries_wf(entries),
        !has_key(entries, vault.bytes@),
    ensures
        initialize_error(entries.push((vault, record)), vault.bytes@, fee_percentage) == Some(
            VaultError::AlreadyInitialized,
        ),
        record_at(entries.push((vault, record)), vault.bytes@) == Some(record),
{
    let after = entries.push((vault, record));
    let n = entries.len() as int;
    assert(after[n].0.bytes@ == vault.bytes@);
    let j = slot_of(after, vault.bytes@);
    if j != n {
        assert(after[j] == entries[j]);
        assert(has_key(entries, vault.bytes@));
    }
}

/// Replacing the record at an occupied address keeps the set of occupied
/// addresses and every other record, and puts `record` at that address.
pub proof fn replaced_records(entries: Seq<(Address, Vault)>, key: Seq<u8>, record: Vault)
    requires
        entries_wf(entries),
        has_key(entries, key),
    ensures
        record_at(replaced(entries, key, record), key) == Some(record),
        forall|k: Seq<u8>| #[trigger] has_key(replaced(entries, key, record), k) == has_key(entries, k),
        forall|k: Seq<u8>|
            k != key ==> #[trigger] record_at(replaced(entries, key, record), k) == record_at(entries, k),
{
    let i = slot_of(entries, key);
    let after = replaced(entries, key, record);
    assert forall|k: Seq<u8>| #[trigger] has_key(after, k) == has_key(entries, k) by {
        if has_key(entries, k) {
            let j = slot_of(entries, k);
            assert(after[j].0 == entries[j].0);
        }
        if has_key(after, k) {
            let j = slot_of(after, k);
            assert(after[j].0 == entries[j].0);
        }
    }
    assert(after[i].0.bytes@ == key);
    let j = slot_of(after, key);
    assert(after[j].0 == entries[j].0);
    if j != i {
        assert(entries[j].0.bytes@ != entries[i].0.bytes@);
    }
    assert forall|k: Seq<u8>| k != key implies #[trigger] record_at(after, k) == record_at(entries, k) by {
        if has_key(entries, k) {
            let a = slot_of(entries, k);
            let b = slot_of(after, k);
            assert(after[b].0 == entries[b].0);
            if a != b {
                assert(entries[a].0.bytes@ != entries[b].0.bytes@);
            }
            assert(a != i);
        }
    }
}

impl View for VaultRegistry {
    type V = Seq<(Address, Vault)>;

    closed spec fn view(&self) -> Seq<(Address, Vault)> {
        self.entries@
    }
}

impl VaultRegistry {
    /// Addresses are unique and every record is well formed.
    pub open spec fn wf(&self) -> bool {
        entries_wf(self@)
    }

    /// A registry with no vaults.
    pub fn new() -> (r: VaultRegistry)
        ensures
            r@ == Seq::<(Address, Vault)>::empty(),
            r.wf(),
    {
        VaultRegistry { entries: Vec::new() }
    }

    /// The number of vaults.
    pub fn len(&self) -> (r: usize)
        ensures
            r == self@.len(),
    {
        self.entries.len()
    }

    /// The position of the entry at `key`.
    fn find(&self, key: &Address) -> (r: Option<usize>)
        requires
            self.wf(),
        ensures
            match r {
                Some(i) => has_key(self@, key.bytes@) && i == slot_of(self@, key.bytes@) && i < self@.len(),
                None => !has_key(self@, key.bytes@),
            },
    {
        let mut i: usize = 0;
        while i < self.entries.len()
            invariant
                0 <= i <= self.entries@.len(),
                self.wf(),
                forall|j: int| 0 <= j < i ==> self.entries@[j].0.bytes@ != key.bytes@,
            decreases self.entries@.len() - i,
        {
            if self.entries[i].0.same_as(key) {
                proof {
                    let j = slot_of(self@, key.bytes@);
                    assert(self@[i as int].0.bytes@ == key.bytes@);
                    assert(has_key(self@, key.bytes@));
                    assert(self@[j].0.bytes@ == key.bytes@);
                    if j != i as int {
                        assert(self@[j].0.bytes@ != self@[i as int].0.bytes@);
                    }
                }
                return Some(i);
            }
            i = i + 1;
        }
        None
    }

    /// Creates the vault record at `vault` with the given configuration,
    /// `now` as its creation time and the authority as fee collector. Fails
    /// with `AlreadyInitialized` when a record is there already, which is left
    /// as it was.
    pub fn initialize_at(
        &mut self,
        vault: Address,
        bump: u8,
        authority: Address,
        token_mint: Address,
        name: String,
        fee_percentage: u16,
        withdrawal_timelock: i64,
        withdrawal_limit: u64,
        now: i64,
    ) -> (r: Result<(), VaultError>)
        requires
            old(self).wf(),
        ensures
            final(self).wf(),
            match initialize_error(old(self)@, vault.bytes@, fee_percentage) {
                None => r is Ok && final(self)@ == old(self)@.push(
                    (vault, fresh_vault(authority, token_mint, name, fee_percentage, withdrawal_timelock, withdrawal_limit, bump, now)),
                ),
                Some(e) => r == Err::<(), VaultError>(e) && final(self)@ == old(self)@,
            },
            r is Ok ==> record_at(final(self)@, vault.bytes@) == Some(
                fresh_vault(authority, token_mint, name, fee_percentage, withdrawal_timelock, withdrawal_limit, bump, now),
            ),
    {
        if self.find(&vault).is_some() {
            return Err(VaultError::AlreadyInitialized);
        }
        match Vault::new(authority, token_mint, name, fee_percentage, withdrawal_timelock, withdrawal_limit, bump, now) {
            Ok(record) => {
                self.entries.push((vault, record));
                proof {
                    let entries = self@;
                    let n = entries.len() - 1;
                    assert forall|i: int, j: int|
                        0 <= i < entries.len() && 0 <= j < entries.len() && i != j implies #[trigger] entries[i].0.bytes@
                            != #[trigger] entries[j].0.bytes@ by {
                        if i == n {
                            assert(old(self)@[j] == entries[j]);
                        } else if j == n {
                            assert(old(self)@[i] == entries[i]);
                        } else {
                            assert(old(self)@[i] == entries[i]);
                            assert(old(self)@[j] == entries[j]);
                        }
                    }
                    assert forall|i: int| 0 <= i < entries.len() implies (#[trigger] entries[i]).1.wf() by {
                        if i < n {
                            assert(old(self)@[i] == entries[i]);
                        }
                    }
                    second_initialize_refused(old(self)@, vault, entries[n].1, fee_percentage);
                }
                Ok(())
            },
            Err(e) => Err(e),
        }
    }

    /// Derives the vault address of `(authority, token_mint, name)` under
    /// `program_id` and creates the vault there; returns the address.
    pub fn initialize_vault(
        &mut self,
        program_id: &Address,
        authority: Address,
        token_mint: Address,
        name: String,
        fee_percentage: u16,
        withdrawal_timelock: i64,
        withdrawal_limit: u64,
        now: i64,
    ) -> (r: Result<Address, VaultError>)
        requires
            old(self).wf(),
        ensures
            final(self).wf(),
            match vault_address_of(*program_id, authority, token_mint, encode_utf8(name@)) {
                None => r == Err::<Address, VaultError>(VaultError::AddressDerivationFailed) && final(self)@ == old(self)@,
                Some(d) => match initialize_error(old(self)@, d.0, fee_percentage) {
                    None => r is Ok && r->Ok_0.bytes@ == d.0 && final(self)@ == old(self)@.push(
                        (
                            r->Ok_0,
                            fresh_vault(authority, token_mint, name, fee_percentage, withdrawal_timelock, withdrawal_limit, d.1, now),
                        ),
                    ),
                    Some(e) => r == Err::<Address, VaultError>(e) && final(self)@ == old(self)@,
                },
            },
    {
        let derived = vault_address(program_id, &authority, &token_mint, name.as_str());
        match derived {
            None => Err(VaultError::AddressDerivationFailed),
            Some((vault, bump)) => {
                match self.initialize_at(vault, bump, authority, token_mint, name, fee_percentage, withdrawal_timelock, withdrawal_limit, now) {
                    Ok(()) => Ok(vault),
                    Err(e) => Err(e),
                }
            },
        }
    }

    /// The record of the vault at `vault`, or `VaultNotFound`.
    pub fn get_vault_info(&self, vault: &Address) -> (r: Result<&Vault, VaultError>)
        requires
            self.wf(),
        ensures
            match record_at(self@, vault.bytes@) {
                Some(record) => r is Ok && *r->Ok_0 == record,
                None => r is Err && r->Err_0 == VaultError::VaultNotFound,
            },
    {
        match self.find(vault) {
            Some(i) => Ok(&self.entries[i].1),
            None => Err(VaultError::VaultNotFound),
        }
    }

    /// Deposits `amount` into the vault at `vault` from a depositor who holds
    /// `depositor_balance`; see `Vault::deposit`.
    pub fn deposit(&mut self, vault: &Address, amount: u64, depositor_balance: u64) -> (r: Result<(), VaultError>)
        requires
            old(self).wf(),
        ensures
            final(self).wf(),
            match record_at(old(self)@, vault.bytes@) {
                None => r == Err::<(), VaultError>(VaultError::VaultNotFound) && final(self)@ == old(self)@,
                Some(record) => match deposit_result(record, amount, depositor_balance) {
                    Ok(updated) => r is Ok && final(self)@ == replaced(old(self)@, vault.bytes@, updated),
                    Err(e) => r == Err::<(), VaultError>(e) && final(self)@ == old(self)@,
                },
            },
            r is Ok ==> record_at(final(self)@, vault.bytes@) == Some(
                deposit_result(record_at(old(self)@, vault.bytes@)->Some_0, amount, depositor_balance)->Ok_0,
            ),
    {
        let i = match self.find(vault) {
            Some(i) => i,
            None => return Err(VaultError::VaultNotFound),
        };
        let (key, mut record) = self.entries.remove(i);
        let r = record.deposit(amount, depositor_balance);
        self.entries.insert(i, (key, record));
        proof {
            self.lemma_put_back(*old(self), i as int);
            replaced_records(old(self)@, vault.bytes@, self@[i as int].1);
        }
        r
    }

    /// Withdraws `amount` from the vault at `vault` for `withdrawer` at time
    /// `now`; returns the fee and the net amount. See `Vault::withdraw`.
    pub fn withdraw(&mut self, vault: &Address, withdrawer: &Address, amount: u64, now: i64) -> (r: Result<(u64, u64), VaultError>)
        requires
            old(self).wf(),
        ensures
            final(self).wf(),
            match record_at(old(self)@, vault.bytes@) {
                None => r == Err::<(u64, u64), VaultError>(VaultError::VaultNotFound) && final(self)@ == old(self)@,
                Some(record) => match withdraw_result(record, *withdrawer, amount, now) {
                    Ok(updated) => r == Ok::<(u64, u64), VaultError>(
                        (
                            fee_of(amount, record.fee_percentage) as u64,
                            (amount - fee_of(amount, record.fee_percentage)) as u64,
                        ),
                    ) && final(self)@ == replaced(old(self)@, vault.bytes@, updated),
                    Err(e) => r == Err::<(u64, u64), VaultError>(e) && final(self)@ == old(self)@,
                },
            },
            r is Ok ==> record_at(final(self)@, vault.bytes@) == Some(
                withdraw_result(record_at(old(self)@, vault.bytes@)->Some_0, *withdrawer, amount, now)->Ok_0,
            ),
    {
        let i = match self.find(vault) {
            Some(i) => i,
            None => return Err(VaultError::VaultNotFound),
        };
        let (key, mut record) = self.entries.remove(i);
        proof {
            assert(old(self)@[i as int] == (key, record));
        }
        let r = record.withdraw(withdrawer, amount, now);
        self.entries.insert(i, (key, record));
        proof {
            self.lemma_put_back(*old(self), i as int);
            replaced_records(old(self)@, vault.bytes@, self@[i as int].1);
        }
        r
    }

    /// Putting a well-formed record back at its position keeps the registry
    /// well formed and replaces exactly that record.
    proof fn lemma_put_back(&self, before: VaultRegistry, i: int)
        requires
            before.wf(),
            0 <= i < before@.len(),
            self@.len() == before@.len(),
            self@[i].0 == before@[i].0,
            self@[i].1.wf(),
            forall|j: int| 0 <= j < self@.len() && j != i ==> self@[j] == before@[j],
        ensures
            self.wf(),
            self@ == before@.update(i, self@[i]),
    {
        assert(self@ =~= before@.update(i, self@[i]));
        let entries = self@;
        assert forall|a: int, b: int|
            0 <= a < entries.len() && 0 <= b < entries.len() && a != b implies #[trigger] entries[a].0.bytes@
                != #[trigger] entries[b].0.bytes@ by {
            assert(entries[a].0 == before@[a].0);
            assert(entries[b].0 == before@[b].0);
        }
        assert forall|a: int| 0 <= a < entries.len() implies (#[trigger] entries[a]).1.wf() by {
            if a != i {
                assert(entries[a] == before@[a]);
            }
        }
    }
}

} // verus!
