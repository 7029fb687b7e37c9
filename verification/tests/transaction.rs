use doppler_sdk::{id, Builder, Oracle, Payload};
use solana_keypair::Keypair;
use solana_pubkey::Pubkey;
use solana_signer::Signer;

fn price_feed_oracle(price: u64) -> Oracle {
    Oracle {
        sequence: 1,
        payload: Payload::from_u64(price),
    }
}

#[test]
fn single_update_is_exact_simd0186_size() {
    let admin = Keypair::new();
    let builder = Builder::new(&admin).add_oracle_update(Pubkey::new_unique(), price_feed_oracle(1));

    // [0 + 22 + 36 + 1189 + 16] + 5*64 = 1583 (validator-confirmed).
    assert_eq!(builder.loaded_accounts_data_size(), 1583);
}

#[test]
fn unit_price_does_not_change_loaded_size() {
    let admin = Keypair::new();
    let without = Builder::new(&admin)
        .add_oracle_update(Pubkey::new_unique(), price_feed_oracle(1))
        .loaded_accounts_data_size();
    let with = Builder::new(&admin)
        .add_oracle_update(Pubkey::new_unique(), price_feed_oracle(1))
        .with_unit_price(1_000)
        .loaded_accounts_data_size();
    assert_eq!(without, with);
}

#[test]
fn each_distinct_oracle_adds_data_len_plus_metadata() {
    let admin = Keypair::new();
    let mut builder = Builder::new(&admin);
    for price in 0..3 {
        builder = builder.add_oracle_update(Pubkey::new_unique(), price_feed_oracle(price));
    }
    // 1583 + 2 * (16 + 64) = 1743.
    assert_eq!(builder.loaded_accounts_data_size(), 1743);
}

#[test]
fn empty_builder_loads_the_fixed_accounts() {
    let admin = Keypair::new();
    // 4 * 64 + 22 + 36 + 1189
    assert_eq!(Builder::new(&admin).loaded_accounts_data_size(), 1503);
}

#[test]
fn instructions_carry_the_limits() {
    let admin = Keypair::new();
    let oracle_key = Pubkey::new_unique();
    let builder = Builder::new(&admin)
        .add_oracle_update(oracle_key, price_feed_oracle(100_000))
        .with_unit_price(1_000);
    let ixs = builder.instructions();
    assert_eq!(ixs.len(), 4);
    let budget = solana_compute_budget_interface::id();
    for ix in &ixs[0..3] {
        assert_eq!(ix.program_id, budget);
        assert!(ix.accounts.is_empty());
    }
    // Price 1000 micro-lamports.
    assert_eq!(ixs[0].data, vec![3, 232, 3, 0, 0, 0, 0, 0, 0]);
    // Loaded-accounts data size limit 1583.
    assert_eq!(ixs[1].data, vec![4, 47, 6, 0, 0]);
    // Compute unit limit 3 * 150 + 21 = 471.
    assert_eq!(ixs[2].data, vec![2, 215, 1, 0, 0]);
    assert_eq!(ixs[3].program_id, id());
    assert_eq!(ixs[3].accounts[0].pubkey, admin.pubkey());
    assert_eq!(ixs[3].accounts[1].pubkey, oracle_key);
}

#[test]
fn instructions_without_price() {
    let admin = Keypair::new();
    let builder = Builder::new(&admin)
        .add_oracle_update(Pubkey::new_unique(), price_feed_oracle(1))
        .add_oracle_update(Pubkey::new_unique(), price_feed_oracle(2));
    let ixs = builder.instructions();
    assert_eq!(ixs.len(), 4);
    // 1503 + 2 * 80 = 1663
    assert_eq!(ixs[0].data, vec![4, 0x7f, 6, 0, 0]);
    // 2 * 150 + 2 * 21 = 342
    assert_eq!(ixs[1].data, vec![2, 0x56, 1, 0, 0]);
}

#[test]
fn build_signs_with_the_admin() {
    let admin = Keypair::new();
    let oracle_key = Pubkey::new_unique();
    let tx = Builder::new(&admin)
        .add_oracle_update(oracle_key, price_feed_oracle(42_000_000))
        .with_unit_price(1_000)
        .build(solana_hash::Hash::default());
    assert!(tx.is_signed());
    assert_eq!(tx.message.account_keys[0], admin.pubkey());
    assert_eq!(tx.message.instructions.len(), 4);
    assert_eq!(tx.signatures.len(), 1);
    // fee payer, oracle, compute budget program, doppler program
    assert_eq!(tx.message.account_keys.len(), 4);
    assert!(tx.message.account_keys.contains(&oracle_key));
    assert!(tx.message.account_keys.contains(&id()));
}

#[test]
fn repeated_oracle_account_is_loaded_once() {
    let admin = Keypair::new();
    let key = Pubkey::new_unique();
    let builder = Builder::new(&admin).add_oracle_update(key, price_feed_oracle(1));
    let once = builder.loaded_accounts_data_size();
    let builder = builder.add_oracle_update(key, price_feed_oracle(2));
    // SIMD-0186 counts each unique loaded account once.
    assert_eq!(once, 1583);
    assert_eq!(builder.loaded_accounts_data_size(), 1583);
    // Both updates still run: 2 * 150 + 2 * 21 compute units.
    let ixs = builder.instructions();
    assert_eq!(ixs.len(), 4);
    assert_eq!(ixs[1].data, vec![2, 0x56, 1, 0, 0]);
}

#[test]
fn fixed_account_as_oracle_adds_nothing() {
    let admin = Keypair::new();
    let b = Builder::new(&admin).add_oracle_update(admin.pubkey(), price_feed_oracle(1));
    assert_eq!(b.loaded_accounts_data_size(), 1503);
    let b = Builder::new(&admin).add_oracle_update(id(), price_feed_oracle(1));
    assert_eq!(b.loaded_accounts_data_size(), 1503);
}

#[test]
fn build_is_deterministic() {
    let admin = Keypair::new();
    let key = Pubkey::new_unique();
    let make = || {
        Builder::new(&admin)
            .add_oracle_update(key, price_feed_oracle(5))
            .build(solana_hash::Hash::new_from_array([7; 32]))
    };
    assert_eq!(make(), make());
}
