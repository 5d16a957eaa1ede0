use token_vault_client::address::{associated_token_address, custody_address, vault_address, Address};
use token_vault_client::error::VaultError;
use token_vault_client::policy::{check_limit, check_timelock, compute_fee};
use token_vault_client::registry::VaultRegistry;
use token_vault_client::token_vault::accounts;
use token_vault_client::token_vault::instruction;
use token_vault_client::token_vault::state::Vault;

fn addr(b: u8) -> Address {
    Address { bytes: [b; 32] }
}

const PROGRAM: u8 = 7;
const AUTHORITY: u8 = 1;
const MINT: u8 = 2;
const OTHER: u8 = 3;

fn registry_with_vault(fee: u16, timelock: i64, limit: u64, now: i64) -> (VaultRegistry, Address) {
    let mut reg = VaultRegistry::new();
    let v = reg
        .initialize_vault(&addr(PROGRAM), addr(AUTHORITY), addr(MINT), "My Token Vault".to_string(), fee, timelock, limit, now)
        .unwrap();
    (reg, v)
}

#[test]
fn fee_is_floor_of_basis_points() {
    assert_eq!(compute_fee(10_000, 550), (550, 9_450));
    assert_eq!(compute_fee(1, 1), (0, 1));
    assert_eq!(compute_fee(500_000_000, 100), (5_000_000, 495_000_000));
    assert_eq!(compute_fee(u64::MAX, 10_000), (u64::MAX, 0));
    assert_eq!(compute_fee(12_345, 0), (0, 12_345));
    assert_eq!(compute_fee(9_999, 1), (0, 9_999));
    assert_eq!(compute_fee(10_001, 1), (1, 10_000));
}

#[test]
fn timelock_check_is_inclusive() {
    assert!(!check_timelock(1_000, 1_000 + 86_399, 86_400));
    assert!(check_timelock(1_000, 1_000 + 86_400, 86_400));
    assert!(check_timelock(1_000, 1_000 + 86_401, 86_400));
    assert!(check_timelock(i64::MIN, i64::MAX, i64::MAX));
    assert!(!check_timelock(i64::MAX, i64::MIN, 0));
}

#[test]
fn limit_check_is_inclusive() {
    assert!(check_limit(10, 10));
    assert!(check_limit(9, 10));
    assert!(!check_limit(11, 10));
}

#[test]
fn derivation_is_deterministic() {
    let a = vault_address(&addr(PROGRAM), &addr(AUTHORITY), &addr(MINT), "vault one").unwrap();
    let b = vault_address(&addr(PROGRAM), &addr(AUTHORITY), &addr(MINT), "vault one").unwrap();
    assert_eq!(a, b);
    assert_ne!(a.0, addr(PROGRAM));
    assert_ne!(a.0, addr(AUTHORITY));
    let c = vault_address(&addr(PROGRAM), &addr(AUTHORITY), &addr(MINT), "vault two").unwrap();
    assert_ne!(a.0, c.0);
    let d = vault_address(&addr(PROGRAM), &addr(OTHER), &addr(MINT), "vault one").unwrap();
    assert_ne!(a.0, d.0);
    let e = vault_address(&addr(PROGRAM), &addr(AUTHORITY), &addr(OTHER), "vault one").unwrap();
    assert_ne!(a.0, e.0);
    let custody = custody_address(&addr(PROGRAM), &a.0).unwrap();
    assert_eq!(custody, custody_address(&addr(PROGRAM), &a.0).unwrap());
    assert_ne!(custody.0, a.0);
}

#[test]
fn overlong_name_does_not_derive() {
    let name = "a name that is longer than thirty-two bytes";
    assert!(vault_address(&addr(PROGRAM), &addr(AUTHORITY), &addr(MINT), name).is_none());
    let mut reg = VaultRegistry::new();
    let r = reg.initialize_vault(&addr(PROGRAM), addr(AUTHORITY), addr(MINT), name.to_string(), 100, 0, 10, 0);
    assert_eq!(r.unwrap_err(), VaultError::AddressDerivationFailed);
    assert_eq!(reg.len(), 0);
}

#[test]
fn initialize_creates_empty_vault() {
    let (reg, v) = registry_with_vault(100, 86_400, 1_000_000_000, 5_000);
    let expected = vault_address(&addr(PROGRAM), &addr(AUTHORITY), &addr(MINT), "My Token Vault").unwrap();
    assert_eq!(v, expected.0);
    let info = reg.get_vault_info(&v).unwrap();
    assert_eq!(info.total_deposited, 0);
    assert_eq!(info.authority, addr(AUTHORITY));
    assert_eq!(info.fee_collector, addr(AUTHORITY));
    assert_eq!(info.token_mint, addr(MINT));
    assert_eq!(info.fee_percentage, 100);
    assert_eq!(info.withdrawal_timelock, 86_400);
    assert_eq!(info.withdrawal_limit, 1_000_000_000);
    assert_eq!(info.creation_time, 5_000);
    assert_eq!(info.name, "My Token Vault");
    assert_eq!(info.bump, expected.1);
}

#[test]
fn second_initialize_is_refused() {
    let (mut reg, v) = registry_with_vault(100, 0, 1_000, 0);
    reg.deposit(&v, 300, 1_000).unwrap();
    let again = reg.initialize_vault(&addr(PROGRAM), addr(AUTHORITY), addr(MINT), "My Token Vault".to_string(), 200, 5, 9, 77);
    assert_eq!(again.unwrap_err(), VaultError::AlreadyInitialized);
    assert_eq!(reg.len(), 1);
    let info = reg.get_vault_info(&v).unwrap();
    assert_eq!(info.total_deposited, 300);
    assert_eq!(info.fee_percentage, 100);
    assert_eq!(info.creation_time, 0);
}

#[test]
fn distinct_names_give_distinct_vaults() {
    let (mut reg, v) = registry_with_vault(100, 0, 1_000, 0);
    let w = reg
        .initialize_vault(&addr(PROGRAM), addr(AUTHORITY), addr(MINT), "Second".to_string(), 0, 0, 1_000, 0)
        .unwrap();
    assert_ne!(v, w);
    assert_eq!(reg.len(), 2);
}

#[test]
fn invalid_fee_is_refused() {
    let mut reg = VaultRegistry::new();
    let r = reg.initialize_vault(&addr(PROGRAM), addr(AUTHORITY), addr(MINT), "v".to_string(), 10_001, 0, 1, 0);
    assert_eq!(r.unwrap_err(), VaultError::InvalidFeeConfig);
    assert_eq!(reg.len(), 0);
    let ok = reg.initialize_vault(&addr(PROGRAM), addr(AUTHORITY), addr(MINT), "v".to_string(), 10_000, 0, 1, 0);
    assert!(ok.is_ok());
}

#[test]
fn unknown_vault_is_reported() {
    let (mut reg, _v) = registry_with_vault(100, 0, 1_000, 0);
    let missing = addr(OTHER);
    assert_eq!(reg.get_vault_info(&missing).unwrap_err(), VaultError::VaultNotFound);
    assert_eq!(reg.deposit(&missing, 5, 5).unwrap_err(), VaultError::VaultNotFound);
    assert_eq!(reg.withdraw(&missing, &addr(AUTHORITY), 5, 0).unwrap_err(), VaultError::VaultNotFound);
}

#[test]
fn deposit_errors() {
    let (mut reg, v) = registry_with_vault(100, 0, 1_000, 0);
    assert_eq!(reg.deposit(&v, 0, 100).unwrap_err(), VaultError::ZeroAmount);
    assert_eq!(reg.deposit(&v, 101, 100).unwrap_err(), VaultError::InsufficientFunds);
    reg.deposit(&v, u64::MAX, u64::MAX).unwrap();
    assert_eq!(reg.deposit(&v, 1, 1).unwrap_err(), VaultError::ArithmeticOverflow);
    assert_eq!(reg.get_vault_info(&v).unwrap().total_deposited, u64::MAX);
}

#[test]
fn withdraw_errors() {
    let (mut reg, v) = registry_with_vault(100, 10, 1_000, 0);
    reg.deposit(&v, 500, 500).unwrap();
    assert_eq!(reg.withdraw(&v, &addr(AUTHORITY), 0, 100).unwrap_err(), VaultError::ZeroAmount);
    assert_eq!(reg.withdraw(&v, &addr(OTHER), 10, 100).unwrap_err(), VaultError::Unauthorized);
    assert_eq!(reg.withdraw(&v, &addr(AUTHORITY), 1_001, 100).unwrap_err(), VaultError::ExceedsWithdrawalLimit);
    assert_eq!(reg.withdraw(&v, &addr(AUTHORITY), 10, 9).unwrap_err(), VaultError::TimelockNotElapsed);
    assert_eq!(reg.withdraw(&v, &addr(AUTHORITY), 501, 100).unwrap_err(), VaultError::InsufficientVaultBalance);
    assert_eq!(reg.get_vault_info(&v).unwrap().total_deposited, 500);
}

#[test]
fn withdraw_at_timelock_boundary() {
    let (mut reg, v) = registry_with_vault(0, 100, 1_000, 50);
    reg.deposit(&v, 40, 40).unwrap();
    assert_eq!(reg.withdraw(&v, &addr(AUTHORITY), 10, 149).unwrap_err(), VaultError::TimelockNotElapsed);
    assert_eq!(reg.withdraw(&v, &addr(AUTHORITY), 10, 150).unwrap(), (0, 10));
    assert_eq!(reg.withdraw(&v, &addr(AUTHORITY), 10, 151).unwrap(), (0, 10));
}

#[test]
fn withdraw_at_limit_boundary() {
    let (mut reg, v) = registry_with_vault(0, 0, 100, 0);
    reg.deposit(&v, 1_000, 1_000).unwrap();
    assert_eq!(reg.withdraw(&v, &addr(AUTHORITY), 101, 0).unwrap_err(), VaultError::ExceedsWithdrawalLimit);
    assert_eq!(reg.withdraw(&v, &addr(AUTHORITY), 100, 0).unwrap(), (0, 100));
    assert_eq!(reg.get_vault_info(&v).unwrap().total_deposited, 900);
}

#[test]
fn total_is_deposits_minus_withdrawals() {
    let (mut reg, v) = registry_with_vault(550, 0, 1_000_000, 0);
    reg.deposit(&v, 10_000, 10_000).unwrap();
    reg.deposit(&v, 2_500, 3_000).unwrap();
    assert_eq!(reg.withdraw(&v, &addr(AUTHORITY), 10_000, 1).unwrap(), (550, 9_450));
    reg.deposit(&v, 1, 1).unwrap();
    assert_eq!(reg.withdraw(&v, &addr(AUTHORITY), 1, 1).unwrap(), (0, 1));
    assert_eq!(reg.get_vault_info(&v).unwrap().total_deposited, 10_000 + 2_500 - 10_000 + 1 - 1);
}

#[test]
fn scenario_one_day_timelock() {
    let start: i64 = 1_700_000_000;
    let (mut reg, v) = registry_with_vault(100, 86_400, 1_000_000_000, start);
    reg.deposit(&v, 1_000_000_000, 1_000_000_000).unwrap();
    let early = reg.withdraw(&v, &addr(AUTHORITY), 500_000_000, start + 3_600);
    assert_eq!(early.unwrap_err(), VaultError::TimelockNotElapsed);
    assert_eq!(reg.get_vault_info(&v).unwrap().total_deposited, 1_000_000_000);
    let later = reg.withdraw(&v, &addr(AUTHORITY), 500_000_000, start + 86_400);
    assert_eq!(later.unwrap(), (5_000_000, 495_000_000));
    assert_eq!(reg.get_vault_info(&v).unwrap().total_deposited, 500_000_000);
}

#[test]
fn vault_record_alone() {
    let mut v = Vault::new(addr(AUTHORITY), addr(MINT), "x".to_string(), 250, 0, 50, 254, 9).unwrap();
    assert!(Vault::new(addr(AUTHORITY), addr(MINT), "x".to_string(), 10_001, 0, 50, 254, 9).is_err());
    v.deposit(40, 40).unwrap();
    assert_eq!(v.withdraw(&addr(AUTHORITY), 40, 9).unwrap(), (1, 39));
    assert_eq!(v.total_deposited, 0);
}

#[test]
fn instruction_accounts_derive() {
    let token_program = addr(20);
    let ata_program = addr(21);
    let init = accounts::InitializeVault::new(
        &addr(PROGRAM),
        &addr(AUTHORITY),
        &addr(MINT),
        "My Token Vault",
        &token_program,
        &addr(22),
        &addr(23),
    )
    .unwrap();
    let (vault, _) = vault_address(&addr(PROGRAM), &addr(AUTHORITY), &addr(MINT), "My Token Vault").unwrap();
    let (custody, _) = custody_address(&addr(PROGRAM), &vault).unwrap();
    assert_eq!(init.vault, vault);
    assert_eq!(init.vault_token_account, custody);
    assert_eq!(init.rent, addr(23));

    let dep = accounts::Deposit::new(&addr(PROGRAM), &vault, &addr(OTHER), &addr(MINT), &token_program, &ata_program).unwrap();
    assert_eq!(dep.vault_token_account, custody);
    let ata = associated_token_address(&addr(OTHER), &addr(MINT), &token_program, &ata_program).unwrap();
    assert_eq!(dep.depositor_token_account, ata);
    assert_ne!(ata, addr(OTHER));

    let wd = accounts::Withdraw::new(
        &addr(PROGRAM),
        &vault,
        &addr(AUTHORITY),
        &addr(AUTHORITY),
        &addr(MINT),
        &token_program,
        &ata_program,
    )
    .unwrap();
    assert_eq!(wd.withdrawer_token_account, wd.fee_collector_token_account);
    assert_ne!(wd.withdrawer_token_account, ata);

    let args = instruction::Withdraw { amount: 5 };
    assert_eq!(args.amount, 5);
}
