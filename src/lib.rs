pub mod contract;
pub mod error;
pub mod farm;
pub mod laws;
pub mod msg;
pub mod state;

pub use crate::error::ContractError;
