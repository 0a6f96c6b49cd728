//! What holds of the protocol across calls.

use vstd::prelude::*;
use crate::arguments::StorageReference;
use crate::callback::{key_signed, signer_count, CallbackError, OutputStatus, Signature, SignedOutput};
use crate::executor::bls_accepts;
use crate::protocol::{CallbackTarget, DispatchError, Protocol};

verus! {

/// A request id is consumed at most once: once a callback has consumed the
/// pending computation, every later callback under the same request id is
/// refused as unknown or already consumed, and so neither consumes nor
/// writes anything.
pub proof fn lemma_consumed_at_most_once(before: Protocol, after: Protocol, second: SignedOutput)
    requires
        before.wf(),
        before.is_pending(second.request_id),
        after.pending@ == before.pending@.remove(before.pending_index(second.request_id)),
    ensures
        !after.is_pending(second.request_id),
        after.callback_error(second) == Some(CallbackError::UnknownOrAlreadyConsumedRequest),
        !Protocol::consumes(after.callback_error(second)),
{
    let id = second.request_id;
    let at = before.pending_index(id);
    if after.is_pending(id) {
        let k = choose|k: int| 0 <= k < after.pending.len() && after.pending[k].request_id == id;
        let m = if k < at { k } else { k + 1 };
        assert(after.pending@[k] == before.pending@[m]);
        assert(before.pending[m].request_id == before.pending[at].request_id);
        assert(false);
    }
}

/// A callback that fewer cluster keys have signed than its computation
/// requires is refused for its signatures; the computation stays pending.
pub proof fn lemma_too_few_signers_refused(p: Protocol, output: SignedOutput)
    requires
        p.wf(),
        p.is_pending(output.request_id),
        p.valid_signers(output) < p.pending_of(output.request_id).required_signers,
    ensures
        p.callback_error(output) == Some(CallbackError::InsufficientOrInvalidSignatures),
        !Protocol::consumes(p.callback_error(output)),
{
}

/// Signatures of which none is both made under one of `keys` and accepted
/// count for nothing.
pub proof fn lemma_foreign_signatures_count_zero(
    keys: Seq<[u8; 64]>,
    signatures: Seq<Signature>,
    message: Seq<u8>,
)
    requires
        forall|i: int|
            0 <= i < signatures.len() ==> !(keys.contains((#[trigger] signatures[i]).signer)
                && bls_accepts(signatures[i].signer@, message, signatures[i].signature@)),
    ensures
        signer_count(keys, signatures, message) == 0,
    decreases keys.len(),
{
    if keys.len() > 0 {
        let rest = keys.drop_last();
        assert forall|i: int| 0 <= i < signatures.len() implies !(rest.contains(
            (#[trigger] signatures[i]).signer,
        ) && bls_accepts(signatures[i].signer@, message, signatures[i].signature@)) by {
            if rest.contains(signatures[i].signer) {
                let k = choose|k: int| 0 <= k < rest.len() && rest[k] == signatures[i].signer;
                assert(keys[k] == signatures[i].signer);
            }
        }
        lemma_foreign_signatures_count_zero(rest, signatures, message);
        if key_signed(keys.last(), signatures, message) {
            let i = choose|i: int|
                0 <= i < signatures.len() && (#[trigger] signatures[i]).signer == keys.last()
                    && bls_accepts(keys.last()@, message, signatures[i].signature@);
            assert(keys[keys.len() - 1] == signatures[i].signer);
            assert(false);
        }
    }
}

/// A callback whose signatures are forged, or made under keys that are not
/// the cluster's, is refused for its signatures although its request id is
/// pending, whenever the computation requires a signer at all.
pub proof fn lemma_forged_signers_refused(p: Protocol, output: SignedOutput)
    requires
        p.wf(),
        p.is_pending(output.request_id),
        p.pending_of(output.request_id).required_signers >= 1,
        forall|i: int|
            0 <= i < output.signatures.len() ==> !(p.has_key(
                (#[trigger] output.signatures[i]).signer,
            ) && bls_accepts(
                output.signatures[i].signer@,
                crate::callback::signed_message(output.request_id, output.status),
                output.signatures[i].signature@,
            )),
    ensures
        p.callback_error(output) == Some(CallbackError::InsufficientOrInvalidSignatures),
{
    lemma_foreign_signatures_count_zero(
        p.cluster_keys@,
        output.signatures@,
        crate::callback::signed_message(output.request_id, output.status),
    );
}

/// A callback that is applied to a record that has been written before
/// carries a nonce other than the one the record holds, and the record
/// holds the new nonce afterwards.
pub proof fn lemma_update_writes_fresh_nonce(
    p: Protocol,
    output: SignedOutput,
    bytes: Vec<u8>,
    address: [u8; 32],
)
    requires
        p.wf(),
        p.callback_error(output) is None,
        output.status == OutputStatus::Completed(bytes),
        p.pending_of(output.request_id).callback_target == CallbackTarget::UpdateRecord(address),
        p.record_at(address).written,
    ensures
        bytes@.subrange(0, 16) != p.record_at(address).nonce(),
        p.record_at(address).data_with_region(bytes@).subrange(
            p.record_at(address).header_len as int,
            p.record_at(address).header_len + 16,
        ) == bytes@.subrange(0, 16),
{
    let record = p.record_at(address);
    let at = p.pending_index(output.request_id);
    assert(p.target_stored(p.pending[at].callback_target));
    let k = p.record_index(address);
    assert(p.records[k].wf());
    assert(record.data_with_region(bytes@).subrange(
        record.header_len as int,
        record.header_len + 16,
    ) =~= bytes@.subrange(0, 16));
}

/// A dispatch with a storage reference that reaches past the end of its
/// record, or names no record, is refused: for that reference, unless the
/// request id or the kind is refused first. Nothing is handed out.
pub proof fn lemma_unresolved_reference_refused(
    p: Protocol,
    request_id: u64,
    computation_kind: u32,
    refs: Seq<StorageReference>,
    callback_target: CallbackTarget,
    i: int,
)
    requires
        p.wf(),
        0 <= i < refs.len(),
        !p.has_record(refs[i].address) || refs[i].offset + refs[i].length > p.record_at(
            refs[i].address,
        ).data.len(),
    ensures
        p.dispatch_error(request_id, computation_kind, refs, callback_target) is Some,
        !p.is_pending(request_id) && p.has_kind(computation_kind) ==> p.dispatch_error(
            request_id,
            computation_kind,
            refs,
            callback_target,
        ) == Some(DispatchError::InvalidArgumentReference),
{
    if p.resolves(refs[i]) {
        let k = choose|k: int|
            0 <= k < p.records.len() && p.records[k].address == refs[i].address && refs[i].offset
                + refs[i].length <= p.records[k].data.len();
        p.lemma_record_index(k);
        assert(false);
    }
    assert(!p.all_resolve(refs));
}

} // verus!
