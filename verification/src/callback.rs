//! Callback: a signed output is checked against the pending computation it
//! answers and against the cluster's keys, then applied once.

use vstd::prelude::*;
use vstd::bytes::{spec_u64_to_le_bytes, u64_to_le_bytes};
use crate::arguments::append;
use crate::codec::{read_block, read_nonce, region_len};
use crate::executor::{bls_accepts, bls_verify};
use crate::protocol::{CallbackTarget, PendingComputation, Protocol};
use crate::store::same_bytes;

verus! {

/// Why a callback was refused.
#[derive(Clone, Copy, Debug, PartialEq, Eq, Structural)]
pub enum CallbackError {
    /// No computation is pending under the request id.
    UnknownOrAlreadyConsumedRequest,
    /// Fewer cluster keys signed the output than the computation requires.
    InsufficientOrInvalidSignatures,
    /// The executor reports that it could not complete the computation.
    AbortedComputation,
    /// The output does not have the length of the result's layout.
    MalformedRecord,
    /// The output carries the nonce that the record already holds.
    NonceReused,
}

/// One signature on an output, with the key it is made under.
#[derive(Clone, Copy, Debug)]
pub struct Signature {
    pub signer: [u8; 64],
    pub signature: [u8; 64],
}

/// What the executor reports of a computation.
#[derive(Clone, Debug)]
pub enum OutputStatus {
    /// The computation ran; these are its output bytes.
    Completed(Vec<u8>),
    /// The computation could not be completed.
    Aborted,
}

/// The executor's answer to one request.
#[derive(Clone, Debug)]
pub struct SignedOutput {
    pub request_id: u64,
    pub signatures: Vec<Signature>,
    pub status: OutputStatus,
}

/// A result published for the audience that can decrypt it.
#[derive(Clone, Copy, Debug, PartialEq, Eq)]
pub struct Notification {
    pub audience_key: [u8; 32],
    pub nonce: [u8; 16],
    pub ciphertext: [u8; 32],
}

/// What a callback did.
#[derive(Clone, Copy, Debug, PartialEq, Eq)]
pub enum AppliedEffect {
    /// The encrypted region of the record at this address was overwritten.
    RecordUpdated([u8; 32]),
    /// A notification was made up for publication; no record changed.
    Notified(Notification),
}

/// Length in bytes of a notification output: a key, a nonce and one block.
pub const NOTIFICATION_LEN: usize = 80;

/// The bytes the cluster signs: the request id as eight little-endian
/// bytes, then `0` and the output bytes, or `1` for an aborted computation.
pub open spec fn signed_message(request_id: u64, status: OutputStatus) -> Seq<u8> {
    spec_u64_to_le_bytes(request_id) + match status {
        OutputStatus::Completed(bytes) => seq![0u8] + bytes@,
        OutputStatus::Aborted => seq![1u8],
    }
}

/// Whether some signature in `signatures` is made under `key` and accepted
/// for `message`.
pub open spec fn key_signed(key: [u8; 64], signatures: Seq<Signature>, message: Seq<u8>) -> bool {
    exists|i: int|
        0 <= i < signatures.len() && (#[trigger] signatures[i]).signer == key && bls_accepts(
            key@,
            message,
            signatures[i].signature@,
        )
}

/// How many of `keys` signed `message`.
pub open spec fn signer_count(keys: Seq<[u8; 64]>, signatures: Seq<Signature>, message: Seq<u8>) -> nat
    decreases keys.len(),
{
    if keys.len() == 0 {
        0
    } else {
        signer_count(keys.drop_last(), signatures, message) + if key_signed(
            keys.last(),
            signatures,
            message,
        ) {
            1nat
        } else {
            0nat
        }
    }
}

/// Makes up the bytes the cluster signs for `output`.
pub fn message_of(output: &SignedOutput) -> (message: Vec<u8>)
    ensures
        message@ == signed_message(output.request_id, output.status),
{
    let mut message = u64_to_le_bytes(output.request_id);
    match &output.status {
        OutputStatus::Completed(bytes) => {
            message.push(0u8);
            append(&mut message, bytes);
            assert(message@ =~= signed_message(output.request_id, output.status));
        },
        OutputStatus::Aborted => {
            message.push(1u8);
            assert(message@ =~= signed_message(output.request_id, output.status));
        },
    }
    message
}

/// Whether some signature is made under `key` and accepted for `message`.
pub fn has_signature(key: &[u8; 64], signatures: &Vec<Signature>, message: &Vec<u8>) -> (signed:
    bool)
    ensures
        signed == key_signed(*key, signatures@, message@),
{
    let mut i: usize = 0;
    while i < signatures.len()
        invariant
            i <= signatures.len(),
            forall|j: int|
                0 <= j < i ==> !((#[trigger] signatures[j]).signer == *key && bls_accepts(
                    key@,
                    message@,
                    signatures[j].signature@,
                )),
        decreases signatures.len() - i,
    {
        if same_bytes(&signatures[i].signer, key) {
            if bls_verify(key, message, &signatures[i].signature) {
                return true;
            }
        }
        i += 1;
    }
    false
}

/// Counts the keys among `keys` that signed `message`.
pub fn count_signers(keys: &Vec<[u8; 64]>, signatures: &Vec<Signature>, message: &Vec<u8>) -> (n:
    usize)
    ensures
        n == signer_count(keys@, signatures@, message@),
        n <= keys.len(),
{
    let mut n: usize = 0;
    let mut k: usize = 0;
    while k < keys.len()
        invariant
            k <= keys.len(),
            n <= k,
            n == signer_count(keys@.take(k as int), signatures@, message@),
        decreases keys.len() - k,
    {
        proof {
            assert(keys@.take(k + 1).drop_last() == keys@.take(k as int));
        }
        if has_signature(&keys[k], signatures, message) {
            n += 1;
        }
        k += 1;
    }
    proof {
        assert(keys@.take(keys.len() as int) == keys@);
    }
    n
}

/// Reads a notification from output bytes: the audience's key, then the
/// nonce, then one ciphertext block. `None` for bytes of another length.
pub fn read_notification(bytes: &Vec<u8>) -> (read: Option<Notification>)
    ensures
        read is Some <==> bytes.len() == NOTIFICATION_LEN,
        read matches Some(n) ==> {
            &&& n.audience_key@ == bytes@.subrange(0, 32)
            &&& n.nonce@ == bytes@.subrange(32, 48)
            &&& n.ciphertext@ == bytes@.subrange(48, 80)
        },
{
    if bytes.len() != NOTIFICATION_LEN {
        return None;
    }
    let audience_key = read_block(bytes, 0);
    let nonce = read_nonce(bytes, 32);
    let ciphertext = read_block(bytes, 48);
    assert(audience_key@ =~= bytes@.subrange(0, 32));
    assert(nonce@ =~= bytes@.subrange(32, 48));
    assert(ciphertext@ =~= bytes@.subrange(48, 80));
    Some(Notification { audience_key, nonce, ciphertext })
}

impl Protocol {
    /// The index of the pending computation with this request id.
    pub open spec fn pending_index(&self, request_id: u64) -> int {
        choose|i: int| 0 <= i < self.pending.len() && self.pending[i].request_id == request_id
    }

    /// The pending computation with this request id.
    pub open spec fn pending_of(&self, request_id: u64) -> PendingComputation {
        self.pending[self.pending_index(request_id)]
    }

    /// How many of the cluster's keys signed `output`.
    pub open spec fn valid_signers(&self, output: SignedOutput) -> nat {
        signer_count(
            self.cluster_keys@,
            output.signatures@,
            signed_message(output.request_id, output.status),
        )
    }

    /// The error that output bytes are refused with for a target, if they
    /// are refused: a length other than the result's layout, or, for a
    /// record that has been written, the nonce it holds already.
    pub open spec fn apply_error(&self, target: CallbackTarget, bytes: Seq<u8>) -> Option<
        CallbackError,
    > {
        match target {
            CallbackTarget::Notify => if bytes.len() != 80 {
                Some(CallbackError::MalformedRecord)
            } else {
                None
            },
            CallbackTarget::UpdateRecord(address) => {
                let record = self.record_at(address);
                if bytes.len() != region_len(record.block_count as nat) {
                    Some(CallbackError::MalformedRecord)
                } else if record.written && record.nonce() == bytes.subrange(0, 16) {
                    Some(CallbackError::NonceReused)
                } else {
                    None
                }
            },
        }
    }

    /// The error a callback is refused with, if it is refused: no pending
    /// computation, then too few signers, then an aborted computation, then
    /// output bytes that cannot be applied.
    pub open spec fn callback_error(&self, output: SignedOutput) -> Option<CallbackError> {
        if !self.is_pending(output.request_id) {
            Some(CallbackError::UnknownOrAlreadyConsumedRequest)
        } else if self.valid_signers(output) < self.pending_of(output.request_id).required_signers {
            Some(CallbackError::InsufficientOrInvalidSignatures)
        } else {
            match output.status {
                OutputStatus::Aborted => Some(CallbackError::AbortedComputation),
                OutputStatus::Completed(bytes) => self.apply_error(
                    self.pending_of(output.request_id).callback_target,
                    bytes@,
                ),
            }
        }
    }

    /// Whether a callback with this outcome consumes the pending
    /// computation: one that is applied does, and one that is aborted.
    pub open spec fn consumes(error: Option<CallbackError>) -> bool {
        error is None || error == Some(CallbackError::AbortedComputation)
    }

    /// With distinct request ids, the computation found at an index is the
    /// one pending under its request id.
    pub proof fn lemma_pending_index(&self, i: int)
        requires
            self.wf(),
            0 <= i < self.pending.len(),
        ensures
            self.pending_index(self.pending[i].request_id) == i,
    {
        let j = self.pending_index(self.pending[i].request_id);
        assert(0 <= j < self.pending.len() && self.pending[j].request_id
            == self.pending[i].request_id);
    }
}

} // verus!
