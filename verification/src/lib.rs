//! Transaction-processing core of a tokenized treasury.
//!
//! The library maintains a fund's net-asset-value (NAV), total token supply,
//! and an administrator-controlled buyback/burn mechanism backed by
//! Bitcoin-denominated payments.  Every state transition is validated before
//! it is committed: NAV changes and supply changes are bounded by guards,
//! privileged actions require a 3-of-5 admin multisignature, and buyback
//! payments are checked against a Bitcoin UTXO claim.

pub mod burn;
pub mod client;
pub mod codec;
pub mod error;
pub mod fetch;
pub mod instruction;
pub mod keys;
pub mod multisig;
pub mod processor;
pub mod state;
pub mod system;
pub mod runes;
pub mod runtime;
pub mod testclient;
pub mod token;
pub mod utxo;

pub use error::{OVTError, ProgramError, ProgramResult};
pub use instruction::OVTInstruction;
pub use processor::{process_instruction, OVTProgram, Program};
pub use state::OVTState;

use vstd::prelude::*;

verus! {

/// Token identifier in the Runes protocol.
pub const OVT_RUNE_SYMBOL: &'static str = "OVT";

/// Number of decimal places of the token.
pub const OVT_DECIMALS: u8 = 8;

} // verus!
