//! Applying a callback: the pending computation is consumed and its result
//! written to the record it owns, or made into a notification.

use vstd::prelude::*;
use crate::callback::{
    count_signers, message_of, read_notification, AppliedEffect, CallbackError, OutputStatus,
    SignedOutput,
};
use crate::codec::{decode, EncryptedState};
use crate::protocol::{CallbackTarget, Protocol};
use crate::store::Record;

verus! {

impl Protocol {
    /// The records after `bytes` has been written to the region of the
    /// record at index `i`: that record holds `bytes` in its region and
    /// counts as written; nothing else differs.
    pub open spec fn records_after_write(&self, after: Seq<Record>, i: int, bytes: Seq<u8>) -> bool {
        &&& after.len() == self.records.len()
        &&& forall|j: int| 0 <= j < after.len() && j != i ==> after[j] == self.records[j]
        &&& after[i].address == self.records[i].address
        &&& after[i].header_len == self.records[i].header_len
        &&& after[i].block_count == self.records[i].block_count
        &&& after[i].written
        &&& after[i].data@ == self.records[i].data_with_region(bytes)
    }

    /// What a callback that ends with `error` does to the state: it takes
    /// the pending computation out if it consumes it, and writes the output
    /// to the target record if it is applied to one. Nothing else changes.
    pub open spec fn state_after_callback(
        &self,
        after: Protocol,
        output: SignedOutput,
        error: Option<CallbackError>,
    ) -> bool {
        let target = self.pending_of(output.request_id).callback_target;
        &&& after.kinds == self.kinds
        &&& after.cluster_keys == self.cluster_keys
        &&& if Self::consumes(error) {
            after.pending@ == self.pending@.remove(self.pending_index(output.request_id))
        } else {
            after.pending == self.pending
        }
        &&& if error is None && target is UpdateRecord {
            &&& output.status matches OutputStatus::Completed(bytes)
            &&& self.records_after_write(
                after.records@,
                self.record_index(target->UpdateRecord_0),
                bytes@,
            )
        } else {
            after.records == self.records
        }
    }

    /// Handles the executor's answer to a request. The pending computation
    /// is looked up, the signatures are counted, an aborted computation is
    /// surfaced, and the output is applied as the target bound at dispatch
    /// says. A refused callback changes nothing, except that an aborted
    /// computation is no longer pending.
    pub fn handle_callback(&mut self, output: &SignedOutput) -> (r: Result<
        AppliedEffect,
        CallbackError,
    >)
        requires
            old(self).wf(),
        ensures
            final(self).wf(),
            old(self).state_after_callback(
                *final(self),
                *output,
                old(self).callback_error(*output),
            ),
            r is Ok <==> old(self).callback_error(*output) is None,
            r matches Err(e) ==> old(self).callback_error(*output) == Some(e),
            r matches Ok(AppliedEffect::Notified(n)) ==> {
                &&& old(self).pending_of(output.request_id).callback_target == CallbackTarget::Notify
                &&& output.status matches OutputStatus::Completed(bytes)
                &&& n.audience_key@ == bytes@.subrange(0, 32)
                &&& n.nonce@ == bytes@.subrange(32, 48)
                &&& n.ciphertext@ == bytes@.subrange(48, 80)
            },
            r matches Ok(AppliedEffect::RecordUpdated(address)) ==> old(self).pending_of(
                output.request_id,
            ).callback_target == CallbackTarget::UpdateRecord(address),
    {
        let index = match self.find_pending(output.request_id) {
            None => {
                return Err(CallbackError::UnknownOrAlreadyConsumedRequest);
            },
            Some(index) => index,
        };
        proof {
            self.lemma_pending_index(index as int);
        }
        let message = message_of(output);
        let signers = count_signers(&self.cluster_keys, &output.signatures, &message);
        if (signers as u64) < self.pending[index].required_signers as u64 {
            return Err(CallbackError::InsufficientOrInvalidSignatures);
        }
        let bytes = match &output.status {
            OutputStatus::Aborted => {
                self.remove_pending(index);
                return Err(CallbackError::AbortedComputation);
            },
            OutputStatus::Completed(bytes) => bytes,
        };
        match self.pending[index].callback_target {
            CallbackTarget::Notify => {
                match read_notification(bytes) {
                    None => Err(CallbackError::MalformedRecord),
                    Some(notification) => {
                        self.remove_pending(index);
                        Ok(AppliedEffect::Notified(notification))
                    },
                }
            },
            CallbackTarget::UpdateRecord(address) => {
                assert(self.target_stored(self.pending[index as int].callback_target));
                let at = match self.find_record(&address) {
                    None => {
                        proof {
                            assert(false);
                        }
                        return Err(CallbackError::MalformedRecord);
                    },
                    Some(at) => at,
                };
                proof {
                    self.lemma_record_index(at as int);
                }
                let state = match decode(bytes, self.records[at].block_count) {
                    Err(_) => {
                        return Err(CallbackError::MalformedRecord);
                    },
                    Ok(state) => state,
                };
                assert(state.nonce@ =~= bytes@.subrange(0, 16)) by {
                    assert forall|i: int| 0 <= i < 16 implies state.nonce@[i] == bytes@[i] by {
                        assert(state.bytes()[i] == bytes@[i]);
                    }
                }
                if self.records[at].written && self.records[at].has_nonce(&state.nonce) {
                    return Err(CallbackError::NonceReused);
                }
                self.write_record(at, &state);
                self.remove_pending(index);
                Ok(AppliedEffect::RecordUpdated(address))
            },
        }
    }

    /// Writes `state` to the region of the record at index `at`.
    pub fn write_record(&mut self, at: usize, state: &EncryptedState)
        requires
            old(self).wf(),
            at < old(self).records.len(),
            state.blocks.len() == old(self).records[at as int].block_count,
        ensures
            final(self).wf(),
            final(self).kinds == old(self).kinds,
            final(self).cluster_keys == old(self).cluster_keys,
            final(self).pending == old(self).pending,
            old(self).records_after_write(final(self).records@, at as int, state.bytes()),
    {
        let mut record = self.records.remove(at);
        record.write_region(state);
        self.records.insert(at, record);
        proof {
            let before = old(self).records@;
            let after = self.records@;
            assert(after.len() == before.len());
            assert forall|j: int| 0 <= j < after.len() && j != at implies after[j] == before[j] by {}
            assert forall|j: int| 0 <= j < after.len() implies #[trigger] after[j].address
                == before[j].address by {}
            assert forall|j: int| 0 <= j < after.len() implies (#[trigger] after[j]).wf() by {
                if j != at {
                    assert(before[j].wf());
                }
            }
            assert forall|k: int| 0 <= k < self.pending.len() implies self.target_stored(
                (#[trigger] self.pending[k]).callback_target,
            ) by {
                let t = self.pending[k].callback_target;
                assert(old(self).target_stored(old(self).pending[k].callback_target));
                if let CallbackTarget::UpdateRecord(a) = t {
                    let m = choose|m: int| 0 <= m < before.len() && before[m].address == a;
                    assert(after[m].address == a);
                }
            }
        }
    }
}

} // verus!
