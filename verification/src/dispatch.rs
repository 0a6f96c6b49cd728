//! Dispatch: a new pending computation is recorded and the request for the
//! executor is made up, with every storage reference resolved.

use vstd::prelude::*;
use crate::arguments::{EncodedArguments, StorageReference};
use crate::protocol::{
    CallbackTarget, DispatchError, OutboundRequest, PendingComputation, Protocol,
};
use crate::store::Record;

verus! {

impl Protocol {
    /// The record stored at `address`.
    pub open spec fn record_at(&self, address: [u8; 32]) -> Record {
        self.records[self.record_index(address)]
    }

    /// The index of the record stored at `address`.
    pub open spec fn record_index(&self, address: [u8; 32]) -> int {
        choose|i: int| 0 <= i < self.records.len() && self.records[i].address == address
    }

    /// The bytes a storage reference names.
    pub open spec fn resolved_bytes(&self, r: StorageReference) -> Seq<u8> {
        self.record_at(r.address).data@.subrange(r.offset as int, r.offset + r.length)
    }

    /// Whether every one of the references resolves.
    pub open spec fn all_resolve(&self, refs: Seq<StorageReference>) -> bool {
        forall|i: int| 0 <= i < refs.len() ==> self.resolves(#[trigger] refs[i])
    }

    /// The error a dispatch is refused with, if it is refused: a request id
    /// that is pending, then a kind that is not registered, then a reference
    /// or a target record that does not resolve.
    pub open spec fn dispatch_error(
        &self,
        request_id: u64,
        computation_kind: u32,
        refs: Seq<StorageReference>,
        callback_target: CallbackTarget,
    ) -> Option<DispatchError> {
        if self.is_pending(request_id) {
            Some(DispatchError::DuplicateRequestId)
        } else if !self.has_kind(computation_kind) {
            Some(DispatchError::UnknownComputationKind)
        } else if !self.all_resolve(refs) || !self.target_stored(callback_target) {
            Some(DispatchError::InvalidArgumentReference)
        } else {
            None
        }
    }

    /// With distinct addresses, the record found at an index is the record
    /// stored at its address.
    pub proof fn lemma_record_index(&self, i: int)
        requires
            self.wf(),
            0 <= i < self.records.len(),
        ensures
            self.record_index(self.records[i].address) == i,
    {
        let j = self.record_index(self.records[i].address);
        assert(0 <= j < self.records.len() && self.records[j].address == self.records[i].address);
    }

    /// Whether a target's record is stored depends on the records alone.
    pub proof fn lemma_target_stored(&self, other: &Protocol, target: CallbackTarget)
        requires
            self.records@ == other.records@,
            self.target_stored(target),
        ensures
            other.target_stored(target),
    {
        if let CallbackTarget::UpdateRecord(address) = target {
            let k = choose|k: int| 0 <= k < self.records.len() && self.records[k].address == address;
            assert(other.records[k].address == address);
        }
    }

    /// Reads the bytes that `r` names. `None` when `r` does not resolve.
    pub fn resolve(&self, r: &StorageReference) -> (bytes: Option<Vec<u8>>)
        requires
            self.wf(),
        ensures
            bytes is Some <==> self.resolves(*r),
            bytes matches Some(b) ==> b@ == self.resolved_bytes(*r),
    {
        match self.find_record(&r.address) {
            None => None,
            Some(i) => {
                proof {
                    self.lemma_record_index(i as int);
                    if self.resolves(*r) {
                        let k = choose|k: int|
                            0 <= k < self.records.len() && self.records[k].address == r.address
                                && r.offset + r.length <= self.records[k].data.len();
                        assert(k == i);
                    }
                }
                self.records[i].read(r.offset, r.length)
            },
        }
    }

    /// Records a new pending computation and returns the request to hand to
    /// the executor. A refused dispatch changes nothing.
    pub fn dispatch(
        &mut self,
        request_id: u64,
        computation_kind: u32,
        encoded_arguments: EncodedArguments,
        callback_target: CallbackTarget,
        required_signers: u32,
    ) -> (r: Result<OutboundRequest, DispatchError>)
        requires
            old(self).wf(),
        ensures
            final(self).wf(),
            final(self).kinds == old(self).kinds,
            final(self).cluster_keys == old(self).cluster_keys,
            final(self).records == old(self).records,
            match old(self).dispatch_error(
                request_id,
                computation_kind,
                encoded_arguments.references@,
                callback_target,
            ) {
                Some(e) => r == Err::<OutboundRequest, DispatchError>(e) && final(self).pending
                    == old(self).pending,
                None => {
                    &&& r matches Ok(out)
                    &&& out.request_id == request_id
                    &&& out.computation_kind == computation_kind
                    &&& out.encoded_arguments@ == encoded_arguments.bytes@
                    &&& out.required_signers == required_signers
                    &&& out.callback_target == callback_target
                    &&& out.resolved.len() == encoded_arguments.references.len()
                    &&& forall|i: int|
                        0 <= i < out.resolved.len() ==> (#[trigger] out.resolved[i])@
                            == old(self).resolved_bytes(encoded_arguments.references[i])
                    &&& final(self).pending@.len() == old(self).pending@.len() + 1
                    &&& final(self).pending@.drop_last() == old(self).pending@
                    &&& final(self).pending@.last().request_id == request_id
                    &&& final(self).pending@.last().computation_kind == computation_kind
                    &&& final(self).pending@.last().encoded_arguments@ == encoded_arguments.bytes@
                    &&& final(self).pending@.last().callback_target == callback_target
                    &&& final(self).pending@.last().required_signers == required_signers
                },
            },
    {
        if self.find_pending(request_id).is_some() {
            return Err(DispatchError::DuplicateRequestId);
        }
        if !self.kind_registered(computation_kind) {
            return Err(DispatchError::UnknownComputationKind);
        }
        let mut resolved: Vec<Vec<u8>> = Vec::new();
        let mut i: usize = 0;
        while i < encoded_arguments.references.len()
            invariant
                i <= encoded_arguments.references.len(),
                *self == *old(self),
                self.wf(),
                !self.is_pending(request_id),
                self.has_kind(computation_kind),
                resolved.len() == i,
                forall|j: int| 0 <= j < i ==> self.resolves(#[trigger] encoded_arguments.references[j]),
                forall|j: int|
                    0 <= j < i ==> (#[trigger] resolved[j])@ == self.resolved_bytes(
                        encoded_arguments.references[j],
                    ),
            decreases encoded_arguments.references.len() - i,
        {
            match self.resolve(&encoded_arguments.references[i]) {
                None => {
                    return Err(DispatchError::InvalidArgumentReference);
                },
                Some(bytes) => {
                    resolved.push(bytes);
                },
            }
            i += 1;
        }
        if let CallbackTarget::UpdateRecord(address) = callback_target {
            if self.find_record(&address).is_none() {
                return Err(DispatchError::InvalidArgumentReference);
            }
        }
        let bytes = encoded_arguments.bytes;
        let copy = copy_bytes(&bytes);
        self.pending.push(
            PendingComputation {
                request_id,
                computation_kind,
                encoded_arguments: copy,
                callback_target,
                required_signers,
            },
        );
        proof {
            assert(self.pending@.drop_last() == old(self).pending@);
            assert(old(self).target_stored(callback_target));
            assert forall|k: int| 0 <= k < self.pending.len() implies self.target_stored(
                (#[trigger] self.pending[k]).callback_target,
            ) by {
                if k < old(self).pending.len() {
                    assert(self.pending[k] == old(self).pending[k]);
                    assert(old(self).target_stored(old(self).pending[k].callback_target));
                }
                old(self).lemma_target_stored(self, self.pending[k].callback_target);
            }
            assert forall|a: int, b: int| 0 <= a < b < self.pending.len() implies self.pending[a].request_id
                != self.pending[b].request_id by {
                if b == self.pending.len() - 1 {
                    assert(old(self).pending[a].request_id != request_id);
                }
            }
        }
        Ok(
            OutboundRequest {
                request_id,
                computation_kind,
                encoded_arguments: bytes,
                resolved,
                required_signers,
                callback_target,
            },
        )
    }

    /// The executor did not take the request: the computation is no longer
    /// pending, and the caller may dispatch again under a new request id.
    pub fn handoff_failed(&mut self, request_id: u64) -> (e: DispatchError)
        requires
            old(self).wf(),
        ensures
            final(self).wf(),
            e == DispatchError::ExternalChannelUnavailable,
            !final(self).is_pending(request_id),
            forall|id: u64| id != request_id ==> (final(self).is_pending(id) <==> old(self).is_pending(id)),
            final(self).kinds == old(self).kinds,
            final(self).cluster_keys == old(self).cluster_keys,
            final(self).records == old(self).records,
    {
        match self.find_pending(request_id) {
            None => {},
            Some(i) => {
                self.remove_pending(i);
            },
        }
        DispatchError::ExternalChannelUnavailable
    }

    /// Takes the pending computation at index `i` out of the state.
    pub fn remove_pending(&mut self, i: usize) -> (p: PendingComputation)
        requires
            old(self).wf(),
            i < old(self).pending.len(),
        ensures
            final(self).wf(),
            p == old(self).pending[i as int],
            final(self).pending@ == old(self).pending@.remove(i as int),
            !final(self).is_pending(p.request_id),
            forall|id: u64|
                id != p.request_id ==> (final(self).is_pending(id) <==> old(self).is_pending(id)),
            final(self).kinds == old(self).kinds,
            final(self).cluster_keys == old(self).cluster_keys,
            final(self).records == old(self).records,
    {
        let p = self.pending.remove(i);
        proof {
            let before = old(self).pending@;
            let after = self.pending@;
            assert forall|k: int| 0 <= k < after.len() implies #[trigger] after[k] == before[if k
                < i {
                k
            } else {
                k + 1
            }] by {}
            assert forall|id: u64| id != p.request_id && old(self).is_pending(id) implies self.is_pending(
                id,
            ) by {
                let k = choose|k: int| 0 <= k < before.len() && before[k].request_id == id;
                if k < i {
                    assert(after[k].request_id == id);
                } else {
                    assert(after[k - 1].request_id == id);
                }
            }
            assert forall|k: int| 0 <= k < after.len() implies self.target_stored(
                (#[trigger] after[k]).callback_target,
            ) by {
                let m = if k < i { k } else { k + 1 };
                assert(after[k] == before[m]);
                assert(old(self).target_stored(old(self).pending[m].callback_target));
                old(self).lemma_target_stored(self, after[k].callback_target);
            }
        }
        p
    }
}

/// A copy of `bytes`.
pub fn copy_bytes(bytes: &Vec<u8>) -> (copy: Vec<u8>)
    ensures
        copy@ == bytes@,
{
    let mut copy: Vec<u8> = Vec::new();
    let mut i: usize = 0;
    while i < bytes.len()
        invariant
            i <= bytes.len(),
            copy@ == bytes@.take(i as int),
        decreases bytes.len() - i,
    {
        copy.push(bytes[i]);
        proof {
            assert(bytes@.take(i + 1) == bytes@.take(i as int).push(bytes[i as int]));
        }
        i += 1;
    }
    proof {
        assert(bytes@.take(bytes.len() as int) == bytes@);
    }
    copy
}

} // verus!
