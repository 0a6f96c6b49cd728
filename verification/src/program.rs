//! The four computations: adding two encrypted values, and creating,
//! incrementing and reading an encrypted counter. Each has a function that
//! registers its definition, one that dispatches it and one that handles
//! its callback.

use vstd::prelude::*;
use vstd::bytes::{spec_u128_from_le_bytes, u128_from_le_bytes};
use arcium_client::idl::arcium::types::ArgumentList;
use crate::arguments::{
    build_argument_list, encode_arguments, inline_bytes, list_holds, references, Argument,
    StorageReference,
};
use crate::callback::CallbackError;
use crate::executor::{comp_def_offset, kind_offset};
use crate::protocol::{CallbackTarget, DispatchError, OutboundRequest, Protocol};
use crate::state::{COUNTER_CIPHERTEXT_LENGTH, COUNTER_CIPHERTEXT_OFFSET};

verus! {

/// How many cluster keys must sign the output of each computation here.
pub const REQUIRED_SIGNERS: u32 = 1;

/// The errors a callback of this program reports to its caller.
#[derive(Clone, Copy, Debug, PartialEq, Eq, Structural)]
pub enum ErrorCode {
    AbortedComputation,
    ClusterNotSet,
}

impl ErrorCode {
    /// The code under which a refused callback fails its transaction:
    /// every refusal is reported as an aborted computation.
    pub fn of_callback(error: CallbackError) -> (code: ErrorCode)
        ensures
            code == ErrorCode::AbortedComputation,
    {
        ErrorCode::AbortedComputation
    }

    /// The text shown for the error.
    pub fn message(&self) -> (text: &'static str)
        ensures
            text@ == match *self {
                ErrorCode::AbortedComputation => "The computation was aborted"@,
                ErrorCode::ClusterNotSet => "Cluster not set"@,
            },
    {
        match self {
            ErrorCode::AbortedComputation => "The computation was aborted",
            ErrorCode::ClusterNotSet => "Cluster not set",
        }
    }
}

/// The encrypted sum, published for the key that asked for it.
#[derive(Clone, Copy, Debug, PartialEq, Eq)]
pub struct SumEvent {
    pub sum: [u8; 32],
    pub nonce: [u8; 16],
}

/// The counter's value, encrypted again for the reader that asked for it.
#[derive(Clone, Copy, Debug, PartialEq, Eq)]
pub struct CounterValueEvent {
    pub encryption_key: [u8; 32],
    pub nonce: [u8; 16],
    pub ciphertext: [u8; 32],
}

/// A dispatched computation: the request, and the arguments as the
/// executor's own list.
pub struct Dispatched {
    pub request: OutboundRequest,
    pub arguments: ArgumentList,
}

/// What a dispatch of `entries` does to the state and returns: refused, it
/// changes nothing; accepted, it appends the pending computation and
/// returns the request with every reference resolved.
pub open spec fn dispatch_outcome(
    before: Protocol,
    after: Protocol,
    r: Result<Dispatched, DispatchError>,
    request_id: u64,
    computation_kind: u32,
    entries: Seq<Argument>,
    callback_target: CallbackTarget,
) -> bool {
    &&& after.kinds == before.kinds
    &&& after.cluster_keys == before.cluster_keys
    &&& after.records == before.records
    &&& match before.dispatch_error(
        request_id,
        computation_kind,
        references(entries),
        callback_target,
    ) {
        Some(e) => r matches Err(x) && x == e && after.pending == before.pending,
        None => {
            &&& r matches Ok(d)
            &&& list_holds(d.arguments, entries)
            &&& d.request.request_id == request_id
            &&& d.request.computation_kind == computation_kind
            &&& d.request.encoded_arguments@ == inline_bytes(entries)
            &&& d.request.required_signers == REQUIRED_SIGNERS
            &&& d.request.callback_target == callback_target
            &&& d.request.resolved.len() == references(entries).len()
            &&& forall|i: int|
                0 <= i < d.request.resolved.len() ==> (#[trigger] d.request.resolved[i])@
                    == before.resolved_bytes(references(entries)[i])
            &&& after.pending@.len() == before.pending@.len() + 1
            &&& after.pending@.drop_last() == before.pending@
            &&& after.pending@.last().request_id == request_id
            &&& after.pending@.last().computation_kind == computation_kind
            &&& after.pending@.last().encoded_arguments@ == inline_bytes(entries)
            &&& after.pending@.last().callback_target == callback_target
            &&& after.pending@.last().required_signers == REQUIRED_SIGNERS
        },
    }
}

/// Dispatches a computation of `computation_kind` on `entries`.
pub fn dispatch_entries(
    protocol: &mut Protocol,
    request_id: u64,
    computation_kind: u32,
    entries: &Vec<Argument>,
    callback_target: CallbackTarget,
) -> (r: Result<Dispatched, DispatchError>)
    requires
        old(protocol).wf(),
    ensures
        final(protocol).wf(),
        dispatch_outcome(
            *old(protocol),
            *final(protocol),
            r,
            request_id,
            computation_kind,
            entries@,
            callback_target,
        ),
{
    let encoded = encode_arguments(entries);
    match protocol.dispatch(request_id, computation_kind, encoded, callback_target, REQUIRED_SIGNERS) {
        Err(e) => Err(e),
        Ok(request) => Ok(Dispatched { request, arguments: build_argument_list(entries) }),
    }
}

/// The arguments of `add_together`: the key the sum is encrypted for, the
/// nonce of the two ciphertexts, and the ciphertexts.
pub open spec fn add_together_entries(
    ciphertext_0: [u8; 32],
    ciphertext_1: [u8; 32],
    pubkey: [u8; 32],
    nonce: u128,
) -> Seq<Argument> {
    seq![
        Argument::X25519Pubkey(pubkey),
        Argument::PlaintextU128(nonce),
        Argument::InlineCiphertext(ciphertext_0),
        Argument::InlineCiphertext(ciphertext_1),
    ]
}

/// The arguments of `init_counter`: the nonce the new state is encrypted
/// under.
pub open spec fn init_counter_entries(nonce: u128) -> Seq<Argument> {
    seq![Argument::PlaintextU128(nonce)]
}

/// The reference to a counter's ciphertext.
pub open spec fn counter_reference(counter: [u8; 32]) -> StorageReference {
    StorageReference {
        address: counter,
        offset: COUNTER_CIPHERTEXT_OFFSET,
        length: COUNTER_CIPHERTEXT_LENGTH,
    }
}

/// The nonce the counter at `counter` holds, as a number; `0` where no
/// record that long is stored there.
pub open spec fn counter_nonce(protocol: Protocol, counter: [u8; 32]) -> u128 {
    if protocol.has_record(counter) && protocol.record_at(counter).data.len() >= 24 {
        spec_u128_from_le_bytes(protocol.record_at(counter).data@.subrange(8, 24))
    } else {
        0
    }
}

/// The arguments of `increment_counter`: the counter's nonce, and the
/// reference to its ciphertext.
pub open spec fn increment_counter_entries(protocol: Protocol, counter: [u8; 32]) -> Seq<
    Argument,
> {
    seq![
        Argument::PlaintextU128(counter_nonce(protocol, counter)),
        Argument::StorageReference(counter_reference(counter)),
    ]
}

/// The arguments of `get_counter`: the counter's nonce, the reference to
/// its ciphertext, and the reader's key and nonce.
pub open spec fn get_counter_entries(
    protocol: Protocol,
    counter: [u8; 32],
    recipient_pubkey: [u8; 32],
    recipient_nonce: u128,
) -> Seq<Argument> {
    seq![
        Argument::PlaintextU128(counter_nonce(protocol, counter)),
        Argument::StorageReference(counter_reference(counter)),
        Argument::X25519Pubkey(recipient_pubkey),
        Argument::PlaintextU128(recipient_nonce),
    ]
}

/// Reads the nonce of the counter at `counter` as a number.
pub fn read_counter_nonce(protocol: &Protocol, counter: &[u8; 32]) -> (nonce: u128)
    requires
        protocol.wf(),
    ensures
        nonce == counter_nonce(*protocol, *counter),
{
    match protocol.find_record(counter) {
        None => 0,
        Some(i) => {
            proof {
                protocol.lemma_record_index(i as int);
            }
            match protocol.records[i].read(8, 16) {
                None => 0,
                Some(bytes) => u128_from_le_bytes(bytes.as_slice()),
            }
        },
    }
}

/// Registers the definition of `add_together`.
pub fn init_add_together_comp_def(protocol: &mut Protocol)
    requires
        old(protocol).wf(),
    ensures
        final(protocol).wf(),
        final(protocol).has_kind(kind_offset("add_together"@)),
        forall|k: u32| old(protocol).has_kind(k) ==> final(protocol).has_kind(k),
        forall|k: u32|
            final(protocol).has_kind(k) ==> k == kind_offset("add_together"@) || old(
                protocol,
            ).has_kind(k),
        final(protocol).cluster_keys == old(protocol).cluster_keys,
        final(protocol).records == old(protocol).records,
        final(protocol).pending == old(protocol).pending,
{
    protocol.register_kind(comp_def_offset("add_together"));
}

/// Dispatches the addition of two encrypted values. The sum comes back
/// encrypted for `pubkey` and is published; no record changes.
pub fn add_together(
    protocol: &mut Protocol,
    computation_offset: u64,
    ciphertext_0: [u8; 32],
    ciphertext_1: [u8; 32],
    pubkey: [u8; 32],
    nonce: u128,
) -> (r: Result<Dispatched, DispatchError>)
    requires
        old(protocol).wf(),
    ensures
        final(protocol).wf(),
        dispatch_outcome(
            *old(protocol),
            *final(protocol),
            r,
            computation_offset,
            kind_offset("add_together"@),
            add_together_entries(ciphertext_0, ciphertext_1, pubkey, nonce),
            CallbackTarget::Notify,
        ),
{
    let mut entries: Vec<Argument> = Vec::new();
    entries.push(Argument::X25519Pubkey(pubkey));
    entries.push(Argument::PlaintextU128(nonce));
    entries.push(Argument::InlineCiphertext(ciphertext_0));
    entries.push(Argument::InlineCiphertext(ciphertext_1));
    assert(entries@ =~= add_together_entries(ciphertext_0, ciphertext_1, pubkey, nonce));
    let kind = comp_def_offset("add_together");
    dispatch_entries(protocol, computation_offset, kind, &entries, CallbackTarget::Notify)
}

/// Registers the definition of `init_counter`.
pub fn init_init_counter_comp_def(protocol: &mut Protocol)
    requires
        old(protocol).wf(),
    ensures
        final(protocol).wf(),
        final(protocol).has_kind(kind_offset("init_counter"@)),
        forall|k: u32| old(protocol).has_kind(k) ==> final(protocol).has_kind(k),
        forall|k: u32|
            final(protocol).has_kind(k) ==> k == kind_offset("init_counter"@) || old(
                protocol,
            ).has_kind(k),
        final(protocol).cluster_keys == old(protocol).cluster_keys,
        final(protocol).records == old(protocol).records,
        final(protocol).pending == old(protocol).pending,
{
    protocol.register_kind(comp_def_offset("init_counter"));
}

/// Dispatches the creation of a counter with value zero. The state comes
/// back encrypted for the executor alone and is written to the record at
/// `counter`.
pub fn init_counter(
    protocol: &mut Protocol,
    computation_offset: u64,
    counter: [u8; 32],
    nonce: u128,
) -> (r: Result<Dispatched, DispatchError>)
    requires
        old(protocol).wf(),
    ensures
        final(protocol).wf(),
        dispatch_outcome(
            *old(protocol),
            *final(protocol),
            r,
            computation_offset,
            kind_offset("init_counter"@),
            init_counter_entries(nonce),
            CallbackTarget::UpdateRecord(counter),
        ),
{
    let mut entries: Vec<Argument> = Vec::new();
    entries.push(Argument::PlaintextU128(nonce));
    assert(entries@ =~= init_counter_entries(nonce));
    let kind = comp_def_offset("init_counter");
    dispatch_entries(
        protocol,
        computation_offset,
        kind,
        &entries,
        CallbackTarget::UpdateRecord(counter),
    )
}

/// Registers the definition of `increment_counter`.
pub fn init_increment_counter_comp_def(protocol: &mut Protocol)
    requires
        old(protocol).wf(),
    ensures
        final(protocol).wf(),
        final(protocol).has_kind(kind_offset("increment_counter"@)),
        forall|k: u32| old(protocol).has_kind(k) ==> final(protocol).has_kind(k),
        forall|k: u32|
            final(protocol).has_kind(k) ==> k == kind_offset("increment_counter"@) || old(
                protocol,
            ).has_kind(k),
        final(protocol).cluster_keys == old(protocol).cluster_keys,
        final(protocol).records == old(protocol).records,
        final(protocol).pending == old(protocol).pending,
{
    protocol.register_kind(comp_def_offset("increment_counter"));
}

/// Dispatches the increment of the counter at `counter`. The executor gets
/// the counter's nonce in the clear and its ciphertext by reference; the
/// new state is written back to the same record.
pub fn increment_counter(protocol: &mut Protocol, computation_offset: u64, counter: [u8; 32]) -> (r:
    Result<Dispatched, DispatchError>)
    requires
        old(protocol).wf(),
    ensures
        final(protocol).wf(),
        dispatch_outcome(
            *old(protocol),
            *final(protocol),
            r,
            computation_offset,
            kind_offset("increment_counter"@),
            increment_counter_entries(*old(protocol), counter),
            CallbackTarget::UpdateRecord(counter),
        ),
{
    let nonce = read_counter_nonce(protocol, &counter);
    let mut entries: Vec<Argument> = Vec::new();
    entries.push(Argument::PlaintextU128(nonce));
    entries.push(
        Argument::StorageReference(
            StorageReference {
                address: counter,
                offset: COUNTER_CIPHERTEXT_OFFSET,
                length: COUNTER_CIPHERTEXT_LENGTH,
            },
        ),
    );
    assert(entries@ =~= increment_counter_entries(*old(protocol), counter));
    let kind = comp_def_offset("increment_counter");
    dispatch_entries(
        protocol,
        computation_offset,
        kind,
        &entries,
        CallbackTarget::UpdateRecord(counter),
    )
}

/// Registers the definition of `get_counter`.
pub fn init_get_counter_comp_def(protocol: &mut Protocol)
    requires
        old(protocol).wf(),
    ensures
        final(protocol).wf(),
        final(protocol).has_kind(kind_offset("get_counter"@)),
        forall|k: u32| old(protocol).has_kind(k) ==> final(protocol).has_kind(k),
        forall|k: u32|
            final(protocol).has_kind(k) ==> k == kind_offset("get_counter"@) || old(
                protocol,
            ).has_kind(k),
        final(protocol).cluster_keys == old(protocol).cluster_keys,
        final(protocol).records == old(protocol).records,
        final(protocol).pending == old(protocol).pending,
{
    protocol.register_kind(comp_def_offset("get_counter"));
}

/// Dispatches the reading of the counter at `counter` for a reader outside
/// the executor. The value comes back encrypted for `recipient_pubkey` and
/// is published; the record does not change.
pub fn get_counter(
    protocol: &mut Protocol,
    computation_offset: u64,
    counter: [u8; 32],
    recipient_pubkey: [u8; 32],
    recipient_nonce: u128,
) -> (r: Result<Dispatched, DispatchError>)
    requires
        old(protocol).wf(),
    ensures
        final(protocol).wf(),
        dispatch_outcome(
            *old(protocol),
            *final(protocol),
            r,
            computation_offset,
            kind_offset("get_counter"@),
            get_counter_entries(*old(protocol), counter, recipient_pubkey, recipient_nonce),
            CallbackTarget::Notify,
        ),
{
    let nonce = read_counter_nonce(protocol, &counter);
    let mut entries: Vec<Argument> = Vec::new();
    entries.push(Argument::PlaintextU128(nonce));
    entries.push(
        Argument::StorageReference(
            StorageReference {
                address: counter,
                offset: COUNTER_CIPHERTEXT_OFFSET,
                length: COUNTER_CIPHERTEXT_LENGTH,
            },
        ),
    );
    entries.push(Argument::X25519Pubkey(recipient_pubkey));
    entries.push(Argument::PlaintextU128(recipient_nonce));
    assert(entries@ =~= get_counter_entries(
        *old(protocol),
        counter,
        recipient_pubkey,
        recipient_nonce,
    ));
    let kind = comp_def_offset("get_counter");
    dispatch_entries(protocol, computation_offset, kind, &entries, CallbackTarget::Notify)
}

} // verus!
