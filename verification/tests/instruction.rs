use doppler_sdk::{id, AccountMeta, Oracle, Payload, UpdateInstruction, PROGRAM_ID_BYTES};
use solana_pubkey::Pubkey;
use std::str::FromStr;

#[test]
fn program_id_is_doppler() {
    let expected = Pubkey::from_str("fastRQJt3nLdY3QA7n8eZ8ETEVefy56ryfUGVkfZokm").unwrap();
    assert_eq!(id(), expected);
    assert_eq!(id().to_bytes(), PROGRAM_ID_BYTES);
}

#[test]
fn update_instruction_accounts_and_data() {
    let admin = Pubkey::new_unique();
    let oracle_pubkey = Pubkey::new_unique();
    let oracle = Oracle {
        sequence: 1,
        payload: Payload::from_u64(1_100_000),
    };
    let data = oracle.to_bytes();
    let ix = UpdateInstruction { admin, oracle_pubkey, oracle }.into_instruction();
    assert_eq!(ix.program_id, id());
    assert_eq!(
        ix.accounts,
        vec![
            AccountMeta { pubkey: admin, is_signer: true, is_writable: false },
            AccountMeta { pubkey: oracle_pubkey, is_signer: false, is_writable: true },
        ]
    );
    assert_eq!(ix.data, data);
    assert_eq!(ix.data, vec![1, 0, 0, 0, 0, 0, 0, 0, 0xe0, 0xc8, 0x10, 0, 0, 0, 0, 0]);
    assert_eq!(ix.duplicate(), ix);
}

#[test]
fn account_meta_constructors() {
    let k = Pubkey::new_unique();
    let w = AccountMeta::new(k, false);
    assert!(w.is_writable && !w.is_signer && w.pubkey == k);
    let r = AccountMeta::new_readonly(k, true);
    assert!(!r.is_writable && r.is_signer && r.pubkey == k);
}
