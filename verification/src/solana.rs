//! The Solana types that the library carries, and the calls it makes into the
//! Solana crates. Everything here is trusted: its contracts are believed, not
//! proved.
use vstd::prelude::*;
use solana_compute_budget_interface::ComputeBudgetInstruction;
use solana_keypair::Keypair;
use solana_pubkey::Pubkey;
use solana_transaction::Transaction;
use crate::accounts::{AccountMeta, Instruction, InstructionView};
use crate::encoding::{u32_le_bytes, u64_le_bytes};
use crate::transaction::{compute_budget_instruction, message_keys, readonly_unsigned_keys};

verus! {

/// An account address, carried through unread.
#[verifier::external_type_specification]
#[verifier::external_body]
pub struct ExPubkey(solana_pubkey::Pubkey);

/// The key for a public key built from its 32 bytes: what
/// `solana_pubkey::Pubkey::new_from_array` returns for them.
pub uninterp spec fn pubkey_from_array(bytes: Seq<u8>) -> Pubkey;

/// Calls `solana_pubkey::Pubkey::new_from_array`, which wraps the 32 bytes as
/// they are; the contract names its result `pubkey_from_array` of the bytes.
#[verifier::external_body]
pub(crate) fn pubkey_new_from_array(bytes: [u8; 32]) -> (key: Pubkey)
    ensures
        key == pubkey_from_array(bytes@),
{
    Pubkey::new_from_array(bytes)
}

/// A keypair: the admin's signing key, carried through unread.
#[verifier::external_type_specification]
#[verifier::external_body]
pub struct ExKeypair(solana_keypair::Keypair);

/// A recent blockhash, carried through unread.
#[verifier::external_type_specification]
#[verifier::external_body]
pub struct ExHash(solana_hash::Hash);

/// A signed transaction, handed back to the caller.
#[verifier::external_type_specification]
#[verifier::external_body]
pub struct ExTransaction(solana_transaction::Transaction);

/// Calls `ComputeBudgetInstruction::set_compute_unit_price`, whose source
/// builds an instruction for the compute budget program with no accounts and
/// the data `3` followed by the eight little-endian bytes of the price.
#[verifier::external_body]
pub(crate) fn set_compute_unit_price(micro_lamports: u64) -> (ix: Instruction)
    ensures
        ix@ == compute_budget_instruction(3, u64_le_bytes(micro_lamports)),
{
    let ix = ComputeBudgetInstruction::set_compute_unit_price(micro_lamports);
    let accounts = ix.accounts.iter().map(|m| AccountMeta {
        pubkey: m.pubkey, is_signer: m.is_signer, is_writable: m.is_writable,
    }).collect();
    Instruction { program_id: ix.program_id, accounts, data: ix.data }
}

/// Calls `ComputeBudgetInstruction::set_compute_unit_limit`, whose source
/// builds an instruction for the compute budget program with no accounts and
/// the data `2` followed by the four little-endian bytes of the limit.
#[verifier::external_body]
pub(crate) fn set_compute_unit_limit(units: u32) -> (ix: Instruction)
    ensures
        ix@ == compute_budget_instruction(2, u32_le_bytes(units)),
{
    let ix = ComputeBudgetInstruction::set_compute_unit_limit(units);
    let accounts = ix.accounts.iter().map(|m| AccountMeta {
        pubkey: m.pubkey, is_signer: m.is_signer, is_writable: m.is_writable,
    }).collect();
    Instruction { program_id: ix.program_id, accounts, data: ix.data }
}

/// Calls `ComputeBudgetInstruction::set_loaded_accounts_data_size_limit`,
/// whose source builds an instruction for the compute budget program with no
/// accounts and the data `4` followed by the four little-endian bytes of the
/// limit.
#[verifier::external_body]
pub(crate) fn set_loaded_accounts_data_size_limit(bytes: u32) -> (ix: Instruction)
    ensures
        ix@ == compute_budget_instruction(4, u32_le_bytes(bytes)),
{
    let ix = ComputeBudgetInstruction::set_loaded_accounts_data_size_limit(bytes);
    let accounts = ix.accounts.iter().map(|m| AccountMeta {
        pubkey: m.pubkey, is_signer: m.is_signer, is_writable: m.is_writable,
    }).collect();
    Instruction { program_id: ix.program_id, accounts, data: ix.data }
}

/// The public key of a keypair: what `Signer::pubkey` returns for it (the
/// public half of the Ed25519 keypair it holds).
pub uninterp spec fn keypair_public_key(keypair: Keypair) -> Pubkey;

/// Calls `Signer::pubkey` on a keypair, which gives its public key; the
/// contract names it `keypair_public_key` of the keypair.
#[verifier::external_body]
pub(crate) fn keypair_pubkey(keypair: &Keypair) -> (key: Pubkey)
    ensures
        key == keypair_public_key(*keypair),
{
    solana_signer::Signer::pubkey(keypair)
}

/// Calls `==` on two public keys, which the derived `PartialEq` of `Pubkey`
/// computes by comparing their 32 bytes: true exactly when they are the same
/// key.
#[verifier::external_body]
pub(crate) fn pubkey_eq(a: &Pubkey, b: &Pubkey) -> (r: bool)
    ensures
        r == (*a == *b),
{
    a == b
}

/// The transaction that `Transaction::new_signed_with_payer` returns for these
/// instructions, fee payer, signer and blockhash: the message compiled from
/// them, signed by the signer (Ed25519 signatures are deterministic).
pub uninterp spec fn signed_transaction(
    instructions: Seq<InstructionView>,
    payer: Pubkey,
    signer: Keypair,
    recent_blockhash: solana_hash::Hash,
) -> Transaction;

/// Calls `Transaction::new_signed_with_payer` on the instructions (converted
/// one for one to Solana's types), with `payer` as fee payer and `signer` as
/// the only signer; the contract names the result `signed_transaction` of the
/// arguments. The call panics when a key that must sign is not `signer`'s;
/// when the message has more than 255 signer, read-only signer or read-only
/// unsigned keys; and when serializing the message for signing meets a list
/// longer than `u16::MAX` (its keys, its instructions, or an instruction's
/// accounts or data). The `requires` excludes these: the payer is the
/// signer's key, every signer account is the payer (so one key signs, and it
/// is writable), at most 255 keys are read-only unsigned, and no such list is
/// longer than `u16::MAX`.
#[verifier::external_body]
pub(crate) fn sign_transaction(
    instructions: &Vec<Instruction>,
    payer: Pubkey,
    signer: &Keypair,
    recent_blockhash: solana_hash::Hash,
) -> (tx: Transaction)
    requires
        payer == keypair_public_key(*signer),
        forall|i: int, j: int|
            0 <= i < instructions@.len() && 0 <= j < instructions@[i].accounts@.len()
                && (#[trigger] instructions@[i].accounts@[j]).is_signer
                ==> instructions@[i].accounts@[j].pubkey == payer,
        readonly_unsigned_keys(instructions@.map_values(|ix: Instruction| ix@), payer).finite(),
        readonly_unsigned_keys(instructions@.map_values(|ix: Instruction| ix@), payer).len() <= 255,
        message_keys(instructions@.map_values(|ix: Instruction| ix@), payer).finite(),
        message_keys(instructions@.map_values(|ix: Instruction| ix@), payer).len() <= u16::MAX,
        instructions@.len() <= u16::MAX,
        forall|i: int|
            0 <= i < instructions@.len() ==> (#[trigger] instructions@[i]).accounts@.len()
                <= u16::MAX && instructions@[i].data@.len() <= u16::MAX,
    ensures
        tx == signed_transaction(
            instructions@.map_values(|ix: Instruction| ix@),
            payer,
            *signer,
            recent_blockhash,
        ),
{
    let ixs: Vec<solana_instruction::Instruction> = instructions.iter().map(|ix|
        solana_instruction::Instruction {
            program_id: ix.program_id,
            accounts: ix.accounts.iter().map(|m| solana_instruction::AccountMeta {
                pubkey: m.pubkey, is_signer: m.is_signer, is_writable: m.is_writable,
            }).collect(),
            data: ix.data.clone(),
        }).collect();
    Transaction::new_signed_with_payer(&ixs, Some(&payer), &[signer], recent_blockhash)
}

} // verus!
