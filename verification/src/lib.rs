//! Client-side library for the doppler oracle program: the byte layout of
//! oracle accounts, the update instruction and the transaction builder that
//! sizes compute and loaded-account budgets.

pub mod accounts;
pub mod constants;
pub mod encoding;
pub mod layout;
pub mod solana;
pub mod transaction;

pub use accounts::{AccountMeta, Instruction, Oracle, Payload, UpdateInstruction};
pub use constants::{id, PROGRAM_ID_BYTES};
pub use layout::PayloadLayout;
pub use transaction::Builder;
