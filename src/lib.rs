//! A custodial token vault: the derivation of its addresses, the vault
//! record and its transitions (initialize, deposit, withdraw), and the
//! withdrawal policy (fee, timelock, per-operation ceiling), with their
//! contracts proved.

pub mod address;
pub mod error;
pub mod policy;
pub mod registry;
pub mod token_vault;
