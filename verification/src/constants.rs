//! Program identity and the budgets that a doppler update costs.
use vstd::prelude::*;
use solana_pubkey::Pubkey;
use crate::solana::{pubkey_from_array, pubkey_new_from_array};

verus! {

/// The doppler program's address, `fastRQJt3nLdY3QA7n8eZ8ETEVefy56ryfUGVkfZokm`, as bytes.
pub const PROGRAM_ID_BYTES: [u8; 32] = [
    0x09, 0xe2, 0x60, 0x40, 0xff, 0x10, 0xec, 0xcf, 0xc1, 0x6a, 0xf6, 0x16, 0x9a, 0x68, 0x04, 0x78,
    0x15, 0x14, 0x33, 0x02, 0xac, 0x6e, 0x98, 0x5f, 0x70, 0x85, 0x53, 0xe1, 0x0a, 0xb6, 0xf9, 0x22,
];

/// The compute budget program's address,
/// `ComputeBudget111111111111111111111111111111`, as bytes.
pub const COMPUTE_BUDGET_PROGRAM_ID_BYTES: [u8; 32] = [
    0x03, 0x06, 0x46, 0x6f, 0xe5, 0x21, 0x17, 0x32, 0xff, 0xec, 0xad, 0xba, 0x72, 0xc3, 0x9b, 0xe7,
    0xbc, 0x8c, 0xe5, 0xbb, 0xc5, 0xf7, 0x12, 0x6b, 0x2c, 0x43, 0x9b, 0x3a, 0x40, 0x00, 0x00, 0x00,
];

/// Compute units the program spends checking the sequence number.
pub const SEQUENCE_CHECK_CU: u32 = 5;

/// Compute units the program spends verifying the admin signature.
pub const ADMIN_VERIFICATION_CU: u32 = 6;

/// Compute units the program spends writing the payload.
pub const PAYLOAD_WRITE_CU: u32 = 6;

/// Compute units each compute budget instruction costs.
pub const COMPUTE_BUDGET_IX_CU: u32 = 150;

/// Bytes of metadata each unique loaded account counts besides its data
/// (SIMD-0186).
pub const ACCOUNT_METADATA: u32 = 64;

/// Data length of the compute budget program account.
pub const COMPUTE_BUDGET_PROGRAM_SIZE: u32 = 22;

/// Data length of the doppler program account (loader-v3 `Program`: a 4-byte
/// tag and the 32-byte programdata address).
pub const DOPPLER_PROGRAM_SIZE: u32 = 36;

/// Length of the deployed doppler ELF.
pub const DOPPLER_ELF_SIZE: u32 = 1144;

/// Data length of the programdata account: the 45-byte loader-v3 header and
/// the ELF, deployed without headroom.
pub const DOPPLER_PROGRAM_DATA_SIZE: u32 = 45 + DOPPLER_ELF_SIZE;

/// The doppler program's address.
pub open spec fn spec_program_id() -> Pubkey {
    pubkey_from_array(PROGRAM_ID_BYTES@)
}

/// The compute budget program's address.
pub open spec fn spec_compute_budget_program_id() -> Pubkey {
    pubkey_from_array(COMPUTE_BUDGET_PROGRAM_ID_BYTES@)
}

/// The doppler program's address.
pub fn id() -> (key: Pubkey)
    ensures
        key == spec_program_id(),
{
    pubkey_new_from_array(PROGRAM_ID_BYTES)
}

/// The compute budget program's address.
pub(crate) fn compute_budget_program_id() -> (key: Pubkey)
    ensures
        key == spec_compute_budget_program_id(),
{
    pubkey_new_from_array(COMPUTE_BUDGET_PROGRAM_ID_BYTES)
}

} // verus!
