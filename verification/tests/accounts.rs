use doppler_sdk::{Oracle, Payload, PayloadLayout, UpdateInstruction};
use solana_pubkey::Pubkey;

fn price_feed(price: u64) -> Payload {
    Payload::from_u64(price)
}

fn prop_amm(bid: u64, ask: u64) -> Payload {
    let mut bytes = bid.to_le_bytes().to_vec();
    bytes.extend_from_slice(&ask.to_le_bytes());
    Payload::new(PayloadLayout::new(16, 8).unwrap(), bytes).unwrap()
}

fn market_data(price: u64, volume: u64, confidence: u32) -> Payload {
    let mut bytes = price.to_le_bytes().to_vec();
    bytes.extend_from_slice(&volume.to_le_bytes());
    bytes.extend_from_slice(&confidence.to_le_bytes());
    bytes.extend_from_slice(&[0u8; 4]);
    Payload::new(PayloadLayout::new(24, 8).unwrap(), bytes).unwrap()
}

fn u32_payload(value: u32) -> Payload {
    Payload::new(PayloadLayout::new(4, 4).unwrap(), value.to_le_bytes().to_vec()).unwrap()
}

fn update(payload: Payload) -> UpdateInstruction {
    UpdateInstruction {
        admin: Pubkey::new_unique(),
        oracle_pubkey: Pubkey::new_unique(),
        oracle: Oracle { sequence: 1, payload },
    }
}

#[test]
fn test_oracle_to_bytes() {
    let oracle = Oracle {
        sequence: 42,
        payload: u32_payload(123),
    };

    let bytes = oracle.to_bytes();
    assert_eq!(bytes.len(), 12);
    assert_eq!(&bytes[0..8], &42u64.to_le_bytes());
    assert_eq!(&bytes[8..12], &123u32.to_le_bytes());
}

#[test]
fn test_cu_limit_num_payload() {
    let update_instruction = update(Payload::from_u64(789));
    assert_eq!(update_instruction.compute_units(), 21);
}

#[test]
fn test_cu_limit_price_feed_payload() {
    let update_instruction = update(price_feed(1_100_000));
    assert_eq!(update_instruction.compute_units(), 21);
}

#[test]
fn test_cu_limit_prop_amm_payload() {
    let update_instruction = update(prop_amm(10_500_000, 10_550_000));
    assert_eq!(update_instruction.compute_units(), 23);
}

#[test]
fn test_cu_limit_market_data_payload() {
    let update_instruction = update(market_data(45_000_000, 150_000_000, 300));
    assert_eq!(update_instruction.compute_units(), 25);
}

#[test]
fn u32_payload_record_is_padded() {
    let u = update(u32_payload(7));
    // 8 sequence bytes + 4 payload bytes, padded up to the u64 alignment.
    assert_eq!(u.oracle_data_len(), 16);
    assert_eq!(u.compute_units(), 21);
}

#[test]
fn oracle_data_len_is_record_size() {
    assert_eq!(update(price_feed(1)).oracle_data_len(), 16);
    assert_eq!(update(prop_amm(1, 2)).oracle_data_len(), 24);
    assert_eq!(update(market_data(1, 2, 3)).oracle_data_len(), 32);
}

#[test]
fn over_aligned_payload_is_placed_at_its_alignment() {
    // A u128 payload: 16 bytes aligned to 16, so the record is 16 + 16 bytes.
    let layout = PayloadLayout::new(16, 16).unwrap();
    assert_eq!(layout.record_size(), 32);
    let byte_layout = PayloadLayout::new(1, 1).unwrap();
    assert_eq!(byte_layout.record_size(), 16);
}

#[test]
fn invalid_layouts_are_refused() {
    assert!(PayloadLayout::new(6, 3).is_none());
    assert!(PayloadLayout::new(6, 4).is_none());
    assert!(PayloadLayout::new(0, 0).is_none());
    assert!(PayloadLayout::new(0, 1 << 30).is_none());
    assert!(PayloadLayout::new(usize::MAX - 7, 8).is_none());
    assert!(PayloadLayout::new(0, 1).is_some());
    let l = PayloadLayout::new(24, 8).unwrap();
    assert_eq!(l.size(), 24);
    assert_eq!(l.align(), 8);
}

#[test]
fn payload_of_wrong_length_is_refused() {
    let layout = PayloadLayout::new(8, 8).unwrap();
    assert!(Payload::new(layout, vec![1, 2, 3]).is_none());
    let p = Payload::new(layout, vec![1, 2, 3, 4, 5, 6, 7, 8]).unwrap();
    assert_eq!(p.as_bytes(), &[1, 2, 3, 4, 5, 6, 7, 8]);
    assert_eq!(p.layout(), layout);
}

#[test]
fn from_bytes_reads_what_to_bytes_wrote() {
    let oracle = Oracle {
        sequence: 0x0102_0304_0506_0708,
        payload: prop_amm(10_500_000, 10_550_000),
    };
    let bytes = oracle.to_bytes();
    assert_eq!(bytes.len(), 24);
    let back = Oracle::from_bytes(PayloadLayout::new(16, 8).unwrap(), &bytes);
    assert_eq!(back.sequence, oracle.sequence);
    assert_eq!(back.payload.as_bytes(), oracle.payload.as_bytes());
    assert_eq!(back.to_bytes(), bytes);
}

#[test]
fn from_bytes_reads_padded_record() {
    let mut data = 9u64.to_le_bytes().to_vec();
    data.extend_from_slice(&77u32.to_le_bytes());
    data.extend_from_slice(&[0xaa; 4]);
    let oracle = Oracle::from_bytes(PayloadLayout::new(4, 4).unwrap(), &data);
    assert_eq!(oracle.sequence, 9);
    assert_eq!(oracle.payload.as_bytes(), &77u32.to_le_bytes());
}

#[test]
fn price_feed_payload_is_little_endian() {
    let p = Payload::from_u64(42_000_000);
    assert_eq!(p.as_bytes(), &42_000_000u64.to_le_bytes());
    assert_eq!(p.layout(), PayloadLayout::new(8, 8).unwrap());
}

#[test]
fn layout_of_rust_types() {
    assert_eq!(PayloadLayout::of::<u32>(), PayloadLayout::new(4, 4));
    assert_eq!(PayloadLayout::of::<u64>(), Some(PayloadLayout::of_u64()));
    let words = PayloadLayout::of::<[u64; 3]>().unwrap();
    assert_eq!(words, PayloadLayout::new(24, 8).unwrap());
    assert_eq!(words.record_size(), 32);
    let wide = PayloadLayout::of::<u128>().unwrap();
    assert_eq!(wide.size(), 16);
    // The u128 payload sits at its own alignment after the sequence number.
    let expected = if core::mem::align_of::<u128>() == 16 { 32 } else { 24 };
    assert_eq!(wide.record_size(), expected);
}

/// The account bytes an update of a price feed to 1,100,000 at sequence 1
/// leaves behind, read back.
#[test]
fn test_oracle_update() {
    let data: Vec<u8> = vec![1, 0, 0, 0, 0, 0, 0, 0, 224, 200, 16, 0, 0, 0, 0, 0];
    let oracle = Oracle::from_bytes(PayloadLayout::of_u64(), &data);
    assert_eq!(oracle.sequence, 1);
    assert_eq!(oracle.payload.as_bytes(), &1_100_000u64.to_le_bytes());
    let written = Oracle {
        sequence: 1,
        payload: Payload::from_u64(1_100_000),
    }
    .to_bytes();
    assert_eq!(written, data);
}
