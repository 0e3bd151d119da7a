//! A token-custody state machine: a holder deposits a fungible token into a
//! program-controlled vault and later withdraws the whole deposit.

pub mod address;
pub mod custody;
pub mod errors;
pub mod instructions;
pub mod laws;
pub mod ledger;
pub mod state;
pub mod transitions;
pub mod vault;

pub use errors::AppError;
pub use instructions::{initialize, stake, unstake};
