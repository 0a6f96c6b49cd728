use arcium_client::idl::arcium::types::ArgumentRef;
use otc::arguments::{build_argument_list, encode_arguments, Argument, StorageReference};
use otc::circuits::{
    add_together, get_counter, increment_counter, init_counter, CounterState, InputValues,
};
use otc::codec::{decode, encode, RecordError};
use otc::state::{
    counter_layout, deal_layout, offer_layout, Counter, COUNTER_CIPHERTEXT_LENGTH,
    COUNTER_CIPHERTEXT_OFFSET, DEAL_CIPHERTEXT_LENGTH, DEAL_CIPHERTEXT_OFFSET,
    OFFER_CIPHERTEXT_LENGTH, OFFER_CIPHERTEXT_OFFSET,
};
use otc::status::{DealStatus, OfferStatus};
use otc::store::{same_bytes, Record};

fn block(seed: u8) -> [u8; 32] {
    let mut b = [0u8; 32];
    for (i, x) in b.iter_mut().enumerate() {
        *x = seed.wrapping_add(i as u8);
    }
    b
}

#[test]
fn encode_writes_nonce_then_blocks() {
    let nonce = [7u8; 16];
    let bytes = encode(&nonce, &vec![block(1), block(100)]);
    assert_eq!(bytes.len(), 16 + 64);
    assert_eq!(&bytes[..16], &[7u8; 16]);
    assert_eq!(&bytes[16..48], &block(1));
    assert_eq!(&bytes[48..80], &block(100));
}

#[test]
fn decode_inverts_encode() {
    let nonce: [u8; 16] = [1, 2, 3, 4, 5, 6, 7, 8, 9, 10, 11, 12, 13, 14, 15, 16];
    let blocks = vec![block(3), block(50), block(200)];
    let state = decode(&encode(&nonce, &blocks), 3).unwrap();
    assert_eq!(state.nonce, nonce);
    assert_eq!(state.blocks, blocks);
}

#[test]
fn decode_with_no_blocks() {
    let state = decode(&vec![9u8; 16], 0).unwrap();
    assert_eq!(state.nonce, [9u8; 16]);
    assert!(state.blocks.is_empty());
}

#[test]
fn decode_refuses_other_lengths() {
    assert_eq!(decode(&vec![0u8; 47], 1).unwrap_err(), RecordError::MalformedRecord);
    assert_eq!(decode(&vec![0u8; 49], 1).unwrap_err(), RecordError::MalformedRecord);
    assert_eq!(decode(&vec![0u8; 48], 2).unwrap_err(), RecordError::MalformedRecord);
    assert_eq!(decode(&vec![0u8; 80], 1).unwrap_err(), RecordError::MalformedRecord);
    assert_eq!(decode(&vec![], 0).unwrap_err(), RecordError::MalformedRecord);
    assert_eq!(decode(&vec![0u8; 15], 0).unwrap_err(), RecordError::MalformedRecord);
    assert!(decode(&vec![0u8; 48], 1).is_ok());
}

#[test]
fn arguments_are_encoded_in_order() {
    let entries = vec![
        Argument::X25519Pubkey(block(10)),
        Argument::PlaintextU128(0x0102_0304_0506_0708_090a_0b0c_0d0e_0f10),
        Argument::StorageReference(StorageReference { address: [5u8; 32], offset: 24, length: 32 }),
        Argument::InlineCiphertext(block(77)),
    ];
    let encoded = encode_arguments(&entries);
    assert_eq!(encoded.bytes.len(), 32 + 16 + 32);
    assert_eq!(&encoded.bytes[..32], &block(10));
    assert_eq!(
        &encoded.bytes[32..48],
        &[0x10, 0x0f, 0x0e, 0x0d, 0x0c, 0x0b, 0x0a, 0x09, 0x08, 0x07, 0x06, 0x05, 0x04, 0x03, 0x02, 0x01]
    );
    assert_eq!(&encoded.bytes[48..], &block(77));
    assert_eq!(
        encoded.references,
        vec![StorageReference { address: [5u8; 32], offset: 24, length: 32 }]
    );
}

#[test]
fn empty_argument_list_encodes_to_nothing() {
    let encoded = encode_arguments(&vec![]);
    assert!(encoded.bytes.is_empty());
    assert!(encoded.references.is_empty());
}

#[test]
fn executor_list_holds_the_entries() {
    let entries = vec![
        Argument::PlaintextU128(42),
        Argument::StorageReference(StorageReference { address: [5u8; 32], offset: 24, length: 32 }),
        Argument::X25519Pubkey(block(10)),
        Argument::InlineCiphertext(block(77)),
        Argument::PlaintextU128(43),
    ];
    let list = build_argument_list(&entries);
    assert_eq!(list.args.len(), 5);
    assert!(matches!(list.args[0], ArgumentRef::PlaintextU128(0)));
    assert!(matches!(list.args[1], ArgumentRef::Account(0)));
    assert!(matches!(list.args[2], ArgumentRef::X25519Pubkey(0)));
    assert!(matches!(list.args[3], ArgumentRef::EncryptedU8(1)));
    assert!(matches!(list.args[4], ArgumentRef::PlaintextU128(1)));
    assert_eq!(list.values_128_bit, vec![42, 43]);
    assert_eq!(list.byte_arrays, vec![block(10), block(77)]);
    assert!(list.plaintext_numbers.is_empty());
    assert_eq!(list.accounts.len(), 1);
    assert_eq!(list.accounts[0].pubkey.to_bytes(), [5u8; 32]);
    assert_eq!(list.accounts[0].offset, 24);
    assert_eq!(list.accounts[0].length, 32);
}

#[test]
fn executor_list_indices_wrap_at_256() {
    let entries: Vec<Argument> = (0..257).map(|i| Argument::PlaintextU128(i as u128)).collect();
    let list = build_argument_list(&entries);
    assert_eq!(list.values_128_bit.len(), 257);
    assert!(matches!(list.args[255], ArgumentRef::PlaintextU128(255)));
    assert!(matches!(list.args[256], ArgumentRef::PlaintextU128(0)));
}

#[test]
fn executor_list_variant_positions() {
    let list = build_argument_list(&vec![
        Argument::PlaintextU128(1),
        Argument::InlineCiphertext(block(1)),
        Argument::X25519Pubkey(block(2)),
        Argument::StorageReference(StorageReference { address: [1u8; 32], offset: 0, length: 0 }),
    ]);
    let tag = |r: &ArgumentRef| -> u8 {
        let mut out = Vec::new();
        anchor_lang::AnchorSerialize::serialize(r, &mut out).unwrap();
        out[0]
    };
    assert_eq!(tag(&list.args[0]), otc::executor::REF_PLAINTEXT_U128);
    assert_eq!(tag(&list.args[1]), otc::executor::REF_ENCRYPTED_U8);
    assert_eq!(tag(&list.args[2]), otc::executor::REF_X25519_PUBKEY);
    assert_eq!(tag(&list.args[3]), otc::executor::REF_ACCOUNT);
}

#[test]
fn layouts_and_offsets() {
    assert_eq!(counter_layout().ciphertext_offset(), COUNTER_CIPHERTEXT_OFFSET);
    assert_eq!(counter_layout().ciphertext_length(), COUNTER_CIPHERTEXT_LENGTH);
    assert_eq!(counter_layout().total_len(), 56);
    assert_eq!(deal_layout().ciphertext_offset(), DEAL_CIPHERTEXT_OFFSET);
    assert_eq!(deal_layout().ciphertext_length(), DEAL_CIPHERTEXT_LENGTH);
    assert_eq!(deal_layout().total_len(), 303);
    assert_eq!(offer_layout().ciphertext_offset(), OFFER_CIPHERTEXT_OFFSET);
    assert_eq!(offer_layout().ciphertext_length(), OFFER_CIPHERTEXT_LENGTH);
    assert_eq!(offer_layout().total_len(), 262);
    assert_eq!(COUNTER_CIPHERTEXT_OFFSET, 24);
    assert_eq!(COUNTER_CIPHERTEXT_LENGTH, 32);
    assert_eq!(DEAL_CIPHERTEXT_OFFSET, 24);
    assert_eq!(DEAL_CIPHERTEXT_LENGTH, 96);
    assert_eq!(OFFER_CIPHERTEXT_LENGTH, 96);
}

#[test]
fn record_allocation_and_region_write() {
    let mut record = counter_layout().allocate([3u8; 32]);
    assert_eq!(record.data, vec![0u8; 56]);
    assert!(!record.written);
    record.data[0] = 0xaa;
    let state = decode(&encode(&[4u8; 16], &vec![block(9)]), 1).unwrap();
    record.write_region(&state);
    assert!(record.written);
    assert_eq!(record.data[0], 0xaa);
    assert_eq!(&record.data[1..8], &[0u8; 7]);
    assert_eq!(&record.data[8..24], &[4u8; 16]);
    assert_eq!(&record.data[24..56], &block(9));
    assert!(record.has_nonce(&[4u8; 16]));
    assert!(!record.has_nonce(&[5u8; 16]));
    let counter = Counter::read(&record).unwrap();
    assert_eq!(counter.nonce, [4u8; 16]);
    assert_eq!(counter.state, [block(9)]);
    assert_eq!(counter.encrypted_state().blocks, vec![block(9)]);
    assert!(Counter::read(&deal_layout().allocate([1u8; 32])).is_none());
}

#[test]
fn record_new_needs_room_for_the_region() {
    assert!(Record::new([0u8; 32], 8, 1, 56).is_some());
    assert!(Record::new([0u8; 32], 8, 1, 55).is_none());
    assert!(Record::new([0u8; 32], 0, 0, 16).is_some());
    assert!(Record::new([0u8; 32], 0, 0, 15).is_none());
    assert!(Record::new([0u8; 32], 8, 3, 303).is_some());
}

#[test]
fn record_read_checks_the_range() {
    let mut record = counter_layout().allocate([3u8; 32]);
    for (i, b) in record.data.iter_mut().enumerate() {
        *b = i as u8;
    }
    assert_eq!(record.read(24, 32).unwrap(), (24u8..56).collect::<Vec<u8>>());
    assert_eq!(record.read(56, 0).unwrap(), Vec::<u8>::new());
    assert!(record.read(25, 32).is_none());
    assert!(record.read(u32::MAX, u32::MAX).is_none());
}

#[test]
fn same_bytes_compares_every_byte() {
    assert!(same_bytes(&[1u8, 2, 3], &[1u8, 2, 3]));
    assert!(!same_bytes(&[1u8, 2, 3], &[1u8, 2, 4]));
    assert!(!same_bytes(&[0u8, 2, 3], &[1u8, 2, 3]));
}

#[test]
fn status_codes() {
    assert_eq!(DealStatus::OPEN, 0);
    assert_eq!(DealStatus::EXECUTED, 1);
    assert_eq!(DealStatus::EXPIRED, 2);
    assert_eq!(OfferStatus::OPEN, 0);
    assert_eq!(OfferStatus::SETTLED, 1);
    assert!(DealStatus::is_known(2));
    assert!(!DealStatus::is_known(3));
    assert!(OfferStatus::is_known(1));
    assert!(!OfferStatus::is_known(2));
}

#[test]
fn circuits_on_plain_values() {
    assert_eq!(add_together(InputValues { v1: 3, v2: 5 }), 8);
    assert_eq!(add_together(InputValues { v1: 255, v2: 255 }), 510);
    assert_eq!(init_counter(), CounterState { counter: 0 });
    assert_eq!(increment_counter(init_counter()), CounterState { counter: 1 });
    assert_eq!(get_counter(CounterState { counter: 41 }), CounterState { counter: 41 });
}
