use otc::arguments::{encode_arguments, Argument, StorageReference};
use otc::callback::{
    count_signers, has_signature, message_of, read_notification, AppliedEffect, CallbackError,
    OutputStatus, Signature, SignedOutput,
};
use otc::callbacks::{
    add_together_callback, get_counter_callback, increment_counter_callback, init_counter_callback,
};
use otc::instructions::increment_counter::{callback_handler, handler, init_comp_def_handler};
use otc::program::{
    add_together, get_counter, increment_counter, init_add_together_comp_def, init_counter,
    init_get_counter_comp_def, init_increment_counter_comp_def, init_init_counter_comp_def,
    ErrorCode,
};
use otc::protocol::{CallbackTarget, DispatchError, Protocol};
use otc::state::counter_layout;
use solana_alt_bn128_bls::{G2CompressedPoint, PrivKey, Sha256Normalized};

const COUNTER: [u8; 32] = [0xc0; 32];

fn private_key(first: u8) -> PrivKey {
    PrivKey([
        first, 0x6f, 0x05, 0xb4, 0x64, 0xd2, 0xca, 0xb2, 0x72, 0x95, 0x4c, 0x66, 0x0d, 0xd4, 0x5c,
        0xf8, 0xab, 0x0b, 0x26, 0x13, 0x65, 0x4d, 0xcc, 0xc7, 0x4c, 0x11, 0x55, 0xfe, 0xba, 0xaf,
        0xb5, 0xc9,
    ])
}

fn public_key(key: &PrivKey) -> [u8; 64] {
    G2CompressedPoint::try_from(key).unwrap().0
}

fn block(seed: u8) -> [u8; 32] {
    let mut b = [0u8; 32];
    for (i, x) in b.iter_mut().enumerate() {
        *x = seed.wrapping_add(i as u8);
    }
    b
}

fn signed(keys: &[&PrivKey], request_id: u64, status: OutputStatus) -> SignedOutput {
    let mut output = SignedOutput { request_id, signatures: vec![], status };
    let message = message_of(&output);
    for key in keys {
        let signature = key.sign::<Sha256Normalized, &[u8]>(&message).unwrap().0;
        output.signatures.push(Signature { signer: public_key(key), signature });
    }
    output
}

fn region(nonce: u8, seed: u8) -> Vec<u8> {
    let mut bytes = vec![nonce; 16];
    bytes.extend_from_slice(&block(seed));
    bytes
}

fn notification(key: u8, nonce: u8, seed: u8) -> Vec<u8> {
    let mut bytes = vec![key; 32];
    bytes.extend_from_slice(&[nonce; 16]);
    bytes.extend_from_slice(&block(seed));
    bytes
}

fn protocol_with(cluster: &PrivKey) -> Protocol {
    let mut p = Protocol::new();
    init_add_together_comp_def(&mut p);
    init_init_counter_comp_def(&mut p);
    init_increment_counter_comp_def(&mut p);
    init_get_counter_comp_def(&mut p);
    assert!(p.register_cluster_key(public_key(cluster)));
    assert!(p.create_record(counter_layout().allocate(COUNTER)));
    p
}

fn with_counter(cluster: &PrivKey, nonce: u8, seed: u8) -> Protocol {
    let mut p = protocol_with(cluster);
    init_counter(&mut p, 1, COUNTER, 5).unwrap();
    let out = signed(&[cluster], 1, OutputStatus::Completed(region(nonce, seed)));
    assert_eq!(init_counter_callback(&mut p, &out), Ok(COUNTER));
    p
}

#[test]
fn kinds_are_filed_under_the_executor_offsets() {
    let mut p = Protocol::new();
    init_add_together_comp_def(&mut p);
    assert_eq!(p.kinds, vec![4005749700]);
    assert_eq!(p.kinds, vec![arcium_anchor::comp_def_offset("add_together")]);
    init_add_together_comp_def(&mut p);
    assert_eq!(p.kinds.len(), 1);
    init_get_counter_comp_def(&mut p);
    assert_eq!(p.kinds[1], arcium_anchor::comp_def_offset("get_counter"));
    assert!(p.kind_registered(4005749700));
    assert!(!p.kind_registered(1));
}

#[test]
fn scenario_add_together_emits_a_notification() {
    let cluster = private_key(0x21);
    let mut p = protocol_with(&cluster);
    let before = p.records.clone();
    let d = add_together(&mut p, 7, block(3), block(5), [0xaa; 32], 99).unwrap();
    assert_eq!(d.request.request_id, 7);
    assert_eq!(d.request.required_signers, 1);
    assert_eq!(d.request.callback_target, CallbackTarget::Notify);
    assert_eq!(d.request.computation_kind, arcium_anchor::comp_def_offset("add_together"));
    let mut expected = vec![0xaa; 32];
    expected.extend_from_slice(&99u128.to_le_bytes());
    expected.extend_from_slice(&block(3));
    expected.extend_from_slice(&block(5));
    assert_eq!(d.request.encoded_arguments, expected);
    assert!(d.request.resolved.is_empty());
    assert_eq!(d.arguments.byte_arrays, vec![[0xaa; 32], block(3), block(5)]);
    assert_eq!(d.arguments.values_128_bit, vec![99]);
    assert_eq!(p.pending.len(), 1);

    let out = signed(&[&cluster], 7, OutputStatus::Completed(notification(0xaa, 0x11, 8)));
    let event = add_together_callback(&mut p, &out).unwrap();
    assert_eq!(event.sum, block(8));
    assert_eq!(event.nonce, [0x11; 16]);
    assert!(p.pending.is_empty());
    assert_eq!(p.records.len(), before.len());
    assert_eq!(p.records[0].data, before[0].data);
    assert!(!p.records[0].written);
}

#[test]
fn scenario_init_counter_writes_the_fresh_record() {
    let cluster = private_key(0x21);
    let mut p = protocol_with(&cluster);
    let d = init_counter(&mut p, 1, COUNTER, 5).unwrap();
    assert_eq!(d.request.callback_target, CallbackTarget::UpdateRecord(COUNTER));
    assert_eq!(d.request.encoded_arguments, 5u128.to_le_bytes().to_vec());
    let out = signed(&[&cluster], 1, OutputStatus::Completed(region(0x01, 40)));
    assert_eq!(init_counter_callback(&mut p, &out), Ok(COUNTER));
    assert!(p.records[0].written);
    assert_eq!(&p.records[0].data[..8], &[0u8; 8]);
    assert_eq!(&p.records[0].data[8..24], &[0x01; 16]);
    assert_eq!(&p.records[0].data[24..56], &block(40));
    assert!(p.pending.is_empty());
}

#[test]
fn init_counter_accepts_a_zero_nonce_on_a_fresh_record() {
    let cluster = private_key(0x21);
    let mut p = protocol_with(&cluster);
    init_counter(&mut p, 1, COUNTER, 5).unwrap();
    let out = signed(&[&cluster], 1, OutputStatus::Completed(region(0x00, 40)));
    assert_eq!(init_counter_callback(&mut p, &out), Ok(COUNTER));
    assert_eq!(&p.records[0].data[24..56], &block(40));
}

#[test]
fn scenario_increment_counter_refers_to_the_ciphertext() {
    let cluster = private_key(0x21);
    let mut p = with_counter(&cluster, 0x01, 40);
    let d = increment_counter(&mut p, 2, COUNTER).unwrap();
    assert_eq!(d.request.encoded_arguments, vec![0x01; 16]);
    assert_eq!(d.request.resolved, vec![block(40).to_vec()]);
    assert_eq!(d.arguments.values_128_bit, vec![u128::from_le_bytes([0x01; 16])]);
    assert_eq!(d.arguments.accounts.len(), 1);
    assert_eq!(d.arguments.accounts[0].pubkey.to_bytes(), COUNTER);
    assert_eq!(d.arguments.accounts[0].offset, 24);
    assert_eq!(d.arguments.accounts[0].length, 32);
    let out = signed(&[&cluster], 2, OutputStatus::Completed(region(0x02, 41)));
    assert_eq!(increment_counter_callback(&mut p, &out), Ok(COUNTER));
    assert_eq!(&p.records[0].data[8..24], &[0x02; 16]);
    assert_eq!(&p.records[0].data[24..56], &block(41));
}

#[test]
fn increment_through_the_instruction_module() {
    let cluster = private_key(0x21);
    let mut p = Protocol::new();
    init_init_counter_comp_def(&mut p);
    init_comp_def_handler(&mut p);
    assert_eq!(p.kinds[1], arcium_anchor::comp_def_offset("increment_counter"));
    p.register_cluster_key(public_key(&cluster));
    p.create_record(counter_layout().allocate(COUNTER));
    init_counter(&mut p, 1, COUNTER, 5).unwrap();
    let out = signed(&[&cluster], 1, OutputStatus::Completed(region(0x01, 40)));
    init_counter_callback(&mut p, &out).unwrap();
    let d = handler(&mut p, 2, COUNTER).unwrap();
    assert_eq!(d.request.resolved, vec![block(40).to_vec()]);
    let out = signed(&[&cluster], 2, OutputStatus::Completed(region(0x02, 41)));
    assert_eq!(callback_handler(&mut p, &out), Ok(COUNTER));
    assert_eq!(&p.records[0].data[24..56], &block(41));
}

#[test]
fn scenario_get_counter_leaves_the_record_alone() {
    let cluster = private_key(0x21);
    let mut p = with_counter(&cluster, 0x01, 40);
    let before = p.records[0].data.clone();
    let d = get_counter(&mut p, 3, COUNTER, [0xbb; 32], 77).unwrap();
    let mut expected = vec![0x01; 16];
    expected.extend_from_slice(&[0xbb; 32]);
    expected.extend_from_slice(&77u128.to_le_bytes());
    assert_eq!(d.request.encoded_arguments, expected);
    assert_eq!(d.request.resolved, vec![block(40).to_vec()]);
    let out = signed(&[&cluster], 3, OutputStatus::Completed(notification(0xbb, 0x03, 90)));
    let event = get_counter_callback(&mut p, &out).unwrap();
    assert_eq!(event.encryption_key, [0xbb; 32]);
    assert_eq!(event.nonce, [0x03; 16]);
    assert_eq!(event.ciphertext, block(90));
    assert_eq!(p.records[0].data, before);
    assert!(p.pending.is_empty());
}

#[test]
fn second_callback_is_refused_and_changes_nothing() {
    let cluster = private_key(0x21);
    let mut p = with_counter(&cluster, 0x01, 40);
    increment_counter(&mut p, 2, COUNTER).unwrap();
    let out = signed(&[&cluster], 2, OutputStatus::Completed(region(0x02, 41)));
    assert_eq!(p.handle_callback(&out), Ok(AppliedEffect::RecordUpdated(COUNTER)));
    let data = p.records[0].data.clone();
    assert_eq!(p.handle_callback(&out), Err(CallbackError::UnknownOrAlreadyConsumedRequest));
    let other = signed(&[&cluster], 2, OutputStatus::Completed(region(0x03, 42)));
    assert_eq!(
        increment_counter_callback(&mut p, &other),
        Err(CallbackError::UnknownOrAlreadyConsumedRequest)
    );
    assert_eq!(p.records[0].data, data);
    assert!(p.pending.is_empty());
}

#[test]
fn too_few_signatures_are_refused() {
    let cluster = private_key(0x21);
    let mut p = with_counter(&cluster, 0x01, 40);
    increment_counter(&mut p, 2, COUNTER).unwrap();
    let data = p.records[0].data.clone();
    let out = signed(&[], 2, OutputStatus::Completed(region(0x02, 41)));
    assert_eq!(p.handle_callback(&out), Err(CallbackError::InsufficientOrInvalidSignatures));
    assert_eq!(p.records[0].data, data);
    assert_eq!(p.pending.len(), 1);
    let good = signed(&[&cluster], 2, OutputStatus::Completed(region(0x02, 41)));
    assert!(p.handle_callback(&good).is_ok());
}

#[test]
fn two_signers_required_one_given() {
    let first = private_key(0x21);
    let second = private_key(0x22);
    let mut p = protocol_with(&first);
    assert!(p.register_cluster_key(public_key(&second)));
    assert!(!p.register_cluster_key(public_key(&second)));
    let kind = arcium_anchor::comp_def_offset("add_together");
    p.dispatch(9, kind, encode_arguments(&vec![]), CallbackTarget::Notify, 2).unwrap();
    let bytes = notification(1, 2, 3);
    let one = signed(&[&first], 9, OutputStatus::Completed(bytes.clone()));
    assert_eq!(p.handle_callback(&one), Err(CallbackError::InsufficientOrInvalidSignatures));
    let twice = signed(&[&first, &first], 9, OutputStatus::Completed(bytes.clone()));
    assert_eq!(p.handle_callback(&twice), Err(CallbackError::InsufficientOrInvalidSignatures));
    let both = signed(&[&second, &first], 9, OutputStatus::Completed(bytes));
    assert!(matches!(p.handle_callback(&both), Ok(AppliedEffect::Notified(_))));
}

#[test]
fn forged_or_foreign_signers_are_refused() {
    let cluster = private_key(0x21);
    let stranger = private_key(0x23);
    let mut p = with_counter(&cluster, 0x01, 40);
    increment_counter(&mut p, 2, COUNTER).unwrap();
    let data = p.records[0].data.clone();
    let status = OutputStatus::Completed(region(0x02, 41));

    let foreign = signed(&[&stranger], 2, status.clone());
    assert_eq!(p.handle_callback(&foreign), Err(CallbackError::InsufficientOrInvalidSignatures));

    let mut forged = signed(&[&stranger], 2, status.clone());
    forged.signatures[0].signer = public_key(&cluster);
    assert_eq!(p.handle_callback(&forged), Err(CallbackError::InsufficientOrInvalidSignatures));

    let mut garbage = signed(&[&cluster], 2, status.clone());
    garbage.signatures[0].signature = [0x5a; 64];
    assert_eq!(p.handle_callback(&garbage), Err(CallbackError::InsufficientOrInvalidSignatures));

    let mut replayed = signed(&[&cluster], 3, status.clone());
    replayed.request_id = 2;
    assert_eq!(p.handle_callback(&replayed), Err(CallbackError::InsufficientOrInvalidSignatures));

    let mut swapped = signed(&[&cluster], 2, status);
    swapped.status = OutputStatus::Completed(region(0x02, 42));
    assert_eq!(p.handle_callback(&swapped), Err(CallbackError::InsufficientOrInvalidSignatures));

    assert_eq!(p.records[0].data, data);
    assert_eq!(p.pending.len(), 1);
}

#[test]
fn signature_counting() {
    let first = private_key(0x21);
    let second = private_key(0x22);
    let out = signed(&[&first], 4, OutputStatus::Aborted);
    let message = message_of(&out);
    assert_eq!(message, vec![4, 0, 0, 0, 0, 0, 0, 0, 1]);
    let done = SignedOutput { request_id: 0x0102, signatures: vec![], status: OutputStatus::Completed(vec![9, 8]) };
    assert_eq!(message_of(&done), vec![2, 1, 0, 0, 0, 0, 0, 0, 0, 9, 8]);
    assert!(has_signature(&public_key(&first), &out.signatures, &message));
    assert!(!has_signature(&public_key(&second), &out.signatures, &message));
    assert!(!has_signature(&public_key(&first), &out.signatures, &vec![1, 2, 3]));
    let keys = vec![public_key(&second), public_key(&first)];
    assert_eq!(count_signers(&keys, &out.signatures, &message), 1);
    assert_eq!(count_signers(&vec![], &out.signatures, &message), 0);
    let both = signed(&[&first, &second], 4, OutputStatus::Aborted);
    assert_eq!(count_signers(&keys, &both.signatures, &message), 2);
}

#[test]
fn aborted_computation_is_consumed_without_effect() {
    let cluster = private_key(0x21);
    let mut p = with_counter(&cluster, 0x01, 40);
    increment_counter(&mut p, 2, COUNTER).unwrap();
    let data = p.records[0].data.clone();
    let unsigned = signed(&[], 2, OutputStatus::Aborted);
    assert_eq!(p.handle_callback(&unsigned), Err(CallbackError::InsufficientOrInvalidSignatures));
    assert_eq!(p.pending.len(), 1);
    let out = signed(&[&cluster], 2, OutputStatus::Aborted);
    assert_eq!(increment_counter_callback(&mut p, &out), Err(CallbackError::AbortedComputation));
    assert_eq!(p.records[0].data, data);
    assert!(p.pending.is_empty());
    assert_eq!(p.handle_callback(&out), Err(CallbackError::UnknownOrAlreadyConsumedRequest));
}

#[test]
fn reused_nonce_is_refused() {
    let cluster = private_key(0x21);
    let mut p = with_counter(&cluster, 0x01, 40);
    increment_counter(&mut p, 2, COUNTER).unwrap();
    let data = p.records[0].data.clone();
    let out = signed(&[&cluster], 2, OutputStatus::Completed(region(0x01, 41)));
    assert_eq!(p.handle_callback(&out), Err(CallbackError::NonceReused));
    assert_eq!(p.records[0].data, data);
    assert_eq!(p.pending.len(), 1);
    let fresh = signed(&[&cluster], 2, OutputStatus::Completed(region(0x02, 41)));
    assert_eq!(p.handle_callback(&fresh), Ok(AppliedEffect::RecordUpdated(COUNTER)));
    assert_ne!(&p.records[0].data[8..24], &data[8..24]);
}

#[test]
fn malformed_output_is_refused() {
    let cluster = private_key(0x21);
    let mut p = with_counter(&cluster, 0x01, 40);
    increment_counter(&mut p, 2, COUNTER).unwrap();
    get_counter(&mut p, 3, COUNTER, [1; 32], 1).unwrap();
    let data = p.records[0].data.clone();
    let short = signed(&[&cluster], 2, OutputStatus::Completed(vec![0x02; 47]));
    assert_eq!(p.handle_callback(&short), Err(CallbackError::MalformedRecord));
    let long = signed(&[&cluster], 2, OutputStatus::Completed(vec![0x02; 80]));
    assert_eq!(p.handle_callback(&long), Err(CallbackError::MalformedRecord));
    let wrong = signed(&[&cluster], 3, OutputStatus::Completed(vec![0x02; 48]));
    assert_eq!(p.handle_callback(&wrong), Err(CallbackError::MalformedRecord));
    assert_eq!(p.records[0].data, data);
    assert_eq!(p.pending.len(), 2);
}

#[test]
fn callback_of_another_kind_is_refused() {
    let cluster = private_key(0x21);
    let mut p = with_counter(&cluster, 0x01, 40);
    increment_counter(&mut p, 2, COUNTER).unwrap();
    let out = signed(&[&cluster], 2, OutputStatus::Completed(region(0x02, 41)));
    assert_eq!(
        add_together_callback(&mut p, &out),
        Err(CallbackError::UnknownOrAlreadyConsumedRequest)
    );
    assert_eq!(
        init_counter_callback(&mut p, &out),
        Err(CallbackError::UnknownOrAlreadyConsumedRequest)
    );
    assert_eq!(p.pending.len(), 1);
    assert!(p.is_awaited(2, arcium_anchor::comp_def_offset("increment_counter"), false));
    assert!(!p.is_awaited(2, arcium_anchor::comp_def_offset("increment_counter"), true));
    assert_eq!(increment_counter_callback(&mut p, &out), Ok(COUNTER));
}

#[test]
fn dispatch_refuses_a_reference_past_the_record() {
    let cluster = private_key(0x21);
    let mut p = protocol_with(&cluster);
    let kind = arcium_anchor::comp_def_offset("increment_counter");
    let past = vec![Argument::StorageReference(StorageReference {
        address: COUNTER,
        offset: 25,
        length: 32,
    })];
    assert_eq!(
        p.dispatch(5, kind, encode_arguments(&past), CallbackTarget::Notify, 1).unwrap_err(),
        DispatchError::InvalidArgumentReference
    );
    let nowhere = vec![Argument::StorageReference(StorageReference {
        address: [1; 32],
        offset: 0,
        length: 1,
    })];
    assert_eq!(
        p.dispatch(5, kind, encode_arguments(&nowhere), CallbackTarget::Notify, 1).unwrap_err(),
        DispatchError::InvalidArgumentReference
    );
    assert_eq!(
        increment_counter(&mut p, 5, [1; 32]).err(),
        Some(DispatchError::InvalidArgumentReference)
    );
    assert_eq!(
        init_counter(&mut p, 5, [1; 32], 0).err(),
        Some(DispatchError::InvalidArgumentReference)
    );
    assert!(p.pending.is_empty());
    let edge = vec![Argument::StorageReference(StorageReference {
        address: COUNTER,
        offset: 24,
        length: 32,
    })];
    assert!(p.dispatch(5, kind, encode_arguments(&edge), CallbackTarget::Notify, 1).is_ok());
}

#[test]
fn dispatch_errors_in_order() {
    let cluster = private_key(0x21);
    let mut p = Protocol::new();
    p.register_cluster_key(public_key(&cluster));
    assert_eq!(
        add_together(&mut p, 1, [0; 32], [0; 32], [0; 32], 0).err(),
        Some(DispatchError::UnknownComputationKind)
    );
    init_add_together_comp_def(&mut p);
    assert!(add_together(&mut p, 1, [0; 32], [0; 32], [0; 32], 0).is_ok());
    assert_eq!(
        add_together(&mut p, 1, [0; 32], [0; 32], [0; 32], 0).err(),
        Some(DispatchError::DuplicateRequestId)
    );
    assert_eq!(
        increment_counter(&mut p, 1, COUNTER).err(),
        Some(DispatchError::DuplicateRequestId)
    );
    assert_eq!(
        increment_counter(&mut p, 2, COUNTER).err(),
        Some(DispatchError::UnknownComputationKind)
    );
    assert_eq!(p.pending.len(), 1);
}

#[test]
fn failed_handoff_leaves_nothing_pending() {
    let cluster = private_key(0x21);
    let mut p = protocol_with(&cluster);
    add_together(&mut p, 1, [0; 32], [0; 32], [0; 32], 0).unwrap();
    add_together(&mut p, 2, [0; 32], [0; 32], [0; 32], 0).unwrap();
    assert_eq!(p.handoff_failed(1), DispatchError::ExternalChannelUnavailable);
    assert_eq!(p.pending.len(), 1);
    assert_eq!(p.pending[0].request_id, 2);
    assert_eq!(p.handoff_failed(1), DispatchError::ExternalChannelUnavailable);
    assert_eq!(p.pending.len(), 1);
    assert!(add_together(&mut p, 1, [0; 32], [0; 32], [0; 32], 0).is_ok());
    assert_eq!(p.find_pending(1), Some(1));
    assert_eq!(p.find_pending(3), None);
}

#[test]
fn records_are_stored_once_per_address() {
    let mut p = Protocol::new();
    assert!(p.create_record(counter_layout().allocate(COUNTER)));
    assert!(!p.create_record(counter_layout().allocate(COUNTER)));
    let mut broken = counter_layout().allocate([2; 32]);
    broken.data.truncate(40);
    assert!(!p.create_record(broken));
    assert_eq!(p.records.len(), 1);
    assert_eq!(p.find_record(&COUNTER), Some(0));
    assert_eq!(p.find_record(&[2; 32]), None);
    let r = StorageReference { address: COUNTER, offset: 50, length: 6 };
    assert_eq!(p.resolve(&r), Some(vec![0u8; 6]));
    let r = StorageReference { address: COUNTER, offset: 50, length: 7 };
    assert_eq!(p.resolve(&r), None);
}

#[test]
fn error_texts() {
    assert_eq!(ErrorCode::AbortedComputation.message(), "The computation was aborted");
    assert_eq!(ErrorCode::ClusterNotSet.message(), "Cluster not set");
    assert_eq!(
        ErrorCode::of_callback(CallbackError::InsufficientOrInvalidSignatures),
        ErrorCode::AbortedComputation
    );
}

#[test]
fn notification_is_read_from_eighty_bytes() {
    let n = read_notification(&notification(0xbb, 0x03, 90)).unwrap();
    assert_eq!(n.audience_key, [0xbb; 32]);
    assert_eq!(n.nonce, [0x03; 16]);
    assert_eq!(n.ciphertext, block(90));
    assert!(read_notification(&vec![0u8; 79]).is_none());
    assert!(read_notification(&vec![0u8; 81]).is_none());
}
