use vstd::prelude::*;
use vstd::string::StringSliceAdditionalSpecFns;

use crate::address::{
    associated_address_of, associated_token_address, custody_address, custody_address_of, vault_address,
    vault_address_of, without_bump, Address,
};

verus! {

/// The vault and custody addresses of a new vault, if both derive.
pub open spec fn initialize_addresses_of(program_id: Address, authority: Address, token_mint: Address, name: Seq<u8>) -> Option<(Seq<u8>, Seq<u8>)> {
    match vault_address_of(program_id, authority, token_mint, name) {
        Some(v) => match custody_address_of(program_id, v.0) {
            Some(c) => Some((v.0, c.0)),
            None => None,
        },
        None => None,
    }
}

/// The custody account of the vault and the associated token account of
/// `owner`, if both derive.
pub open spec fn transfer_addresses_of(
    program_id: Address,
    vault: Address,
    owner: Address,
    token_mint: Address,
    token_program: Address,
    associated_token_program: Address,
) -> Option<(Seq<u8>, Seq<u8>)> {
    match (
        without_bump(custody_address_of(program_id, vault.bytes@)),
        associated_address_of(owner, token_mint, token_program, associated_token_program),
    ) {
        (Some(c), Some(o)) => Some((c, o)),
        _ => None,
    }
}

/// The accounts that the initialize instruction touches.
#[derive(Clone, Copy, Debug, PartialEq, Eq)]
pub struct InitializeVault {
    pub authority: Address,
    pub vault: Address,
    pub vault_token_account: Address,
    pub token_mint: Address,
    pub token_program: Address,
    pub system_program: Address,
    pub rent: Address,
}

/// The accounts that the deposit instruction touches.
#[derive(Clone, Copy, Debug, PartialEq, Eq)]
pub struct Deposit {
    pub depositor: Address,
    pub vault: Address,
    pub vault_token_account: Address,
    pub depositor_token_account: Address,
    pub token_program: Address,
}

/// The accounts that the withdraw instruction touches.
#[derive(Clone, Copy, Debug, PartialEq, Eq)]
pub struct Withdraw {
    pub withdrawer: Address,
    pub vault: Address,
    pub vault_token_account: Address,
    pub withdrawer_token_account: Address,
    pub fee_collector_token_account: Address,
    pub token_program: Address,
}

impl InitializeVault {
    /// Derives the vault and custody addresses of a new vault and lists the
    /// accounts of its initialize instruction; `None` when a derivation fails.
    pub fn new(
        program_id: &Address,
        authority: &Address,
        token_mint: &Address,
        name: &str,
        token_program: &Address,
        system_program: &Address,
        rent: &Address,
    ) -> (r: Option<InitializeVault>)
        ensures
            match r {
                Some(a) => initialize_addresses_of(*program_id, *authority, *token_mint, name.spec_bytes())
                    == Some((a.vault.bytes@, a.vault_token_account.bytes@)) && a.authority == *authority
                    && a.token_mint == *token_mint && a.token_program == *token_program
                    && a.system_program == *system_program && a.rent == *rent,
                None => initialize_addresses_of(*program_id, *authority, *token_mint, name.spec_bytes()) is None,
            },
    {
        let vault = match vault_address(program_id, authority, token_mint, name) {
            Some((v, _bump)) => v,
            None => return None,
        };
        let vault_token_account = match custody_address(program_id, &vault) {
            Some((c, _bump)) => c,
            None => return None,
        };
        Some(InitializeVault {
            authority: *authority,
            vault,
            vault_token_account,
            token_mint: *token_mint,
            token_program: *token_program,
            system_program: *system_program,
            rent: *rent,
        })
    }
}

impl Deposit {
    /// Lists the accounts of a deposit of `token_mint` tokens by `depositor`
    /// into the vault at `vault`; `None` when a derivation fails.
    pub fn new(
        program_id: &Address,
        vault: &Address,
        depositor: &Address,
        token_mint: &Address,
        token_program: &Address,
        associated_token_program: &Address,
    ) -> (r: Option<Deposit>)
        ensures
            match r {
                Some(a) => transfer_addresses_of(*program_id, *vault, *depositor, *token_mint, *token_program, *associated_token_program)
                    == Some((a.vault_token_account.bytes@, a.depositor_token_account.bytes@))
                    && a.depositor == *depositor && a.vault == *vault && a.token_program == *token_program,
                None => transfer_addresses_of(*program_id, *vault, *depositor, *token_mint, *token_program, *associated_token_program) is None,
            },
    {
        let vault_token_account = match custody_address(program_id, vault) {
            Some((c, _bump)) => c,
            None => return None,
        };
        let depositor_token_account = match associated_token_address(
            depositor,
            token_mint,
            token_program,
            associated_token_program,
        ) {
            Some(a) => a,
            None => return None,
        };
        Some(Deposit {
            depositor: *depositor,
            vault: *vault,
            vault_token_account,
            depositor_token_account,
            token_program: *token_program,
        })
    }
}

impl Withdraw {
    /// Lists the accounts of a withdrawal of `token_mint` tokens from the vault
    /// at `vault` by `withdrawer`, with fees going to `fee_collector`; `None`
    /// when a derivation fails.
    pub fn new(
        program_id: &Address,
        vault: &Address,
        withdrawer: &Address,
        fee_collector: &Address,
        token_mint: &Address,
        token_program: &Address,
        associated_token_program: &Address,
    ) -> (r: Option<Withdraw>)
        ensures
            match r {
                Some(a) => transfer_addresses_of(*program_id, *vault, *withdrawer, *token_mint, *token_program, *associated_token_program)
                    == Some((a.vault_token_account.bytes@, a.withdrawer_token_account.bytes@))
                    && associated_address_of(*fee_collector, *token_mint, *token_program, *associated_token_program)
                        == Some(a.fee_collector_token_account.bytes@)
                    && a.withdrawer == *withdrawer && a.vault == *vault && a.token_program == *token_program,
                None => transfer_addresses_of(*program_id, *vault, *withdrawer, *token_mint, *token_program, *associated_token_program) is None
                    || associated_address_of(*fee_collector, *token_mint, *token_program, *associated_token_program) is None,
            },
    {
        let vault_token_account = match custody_address(program_id, vault) {
            Some((c, _bump)) => c,
            None => return None,
        };
        let withdrawer_token_account = match associated_token_address(
            withdrawer,
            token_mint,
            token_program,
            associated_token_program,
        ) {
            Some(a) => a,
            None => return None,
        };
        let fee_collector_token_account = match associated_token_address(
            fee_collector,
            token_mint,
            token_program,
            associated_token_program,
        ) {
            Some(a) => a,
            None => return None,
        };
        Some(Withdraw {
            withdrawer: *withdrawer,
            vault: *vault,
            vault_token_account,
            withdrawer_token_account,
            fee_collector_token_account,
            token_program: *token_program,
        })
    }
}

} // verus!
