//! Hashed-timelock escrow for a fungible token: instruction decoding,
//! address verification and the three state transitions.

pub mod error;
pub mod wire;
pub mod state;
pub mod instruction;
pub mod address;
pub mod processor;
pub mod lifecycle;
