pub mod accounts;
pub mod instruction;
pub mod state;
