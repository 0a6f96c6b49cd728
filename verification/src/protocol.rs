//! The state of the dispatch protocol: registered computation kinds, the
//! executing cluster's keys, stored records and pending computations; and
//! the dispatch of a new computation.

use vstd::prelude::*;
use crate::arguments::StorageReference;
use crate::store::{same_bytes, Record};

verus! {

/// Why a computation was not dispatched.
#[derive(Clone, Copy, Debug, PartialEq, Eq, Structural)]
pub enum DispatchError {
    /// The request id belongs to a computation that is still pending.
    DuplicateRequestId,
    /// No computation definition is registered under the kind.
    UnknownComputationKind,
    /// A storage reference, or the record the callback is to update, names
    /// no record, or a range that does not lie within its record.
    InvalidArgumentReference,
    /// The executor did not take the request.
    ExternalChannelUnavailable,
}

/// What is done with a computation's result.
#[derive(Clone, Copy, Debug, PartialEq, Eq)]
pub enum CallbackTarget {
    /// Publish the result as a notification; no record changes.
    Notify,
    /// Overwrite the encrypted region of the record at this address.
    UpdateRecord([u8; 32]),
}

/// A computation that has been dispatched and not yet consumed.
#[derive(Clone, Debug)]
pub struct PendingComputation {
    pub request_id: u64,
    pub computation_kind: u32,
    pub encoded_arguments: Vec<u8>,
    pub callback_target: CallbackTarget,
    pub required_signers: u32,
}

/// What is handed to the executor for one computation.
#[derive(Clone, Debug)]
pub struct OutboundRequest {
    pub request_id: u64,
    pub computation_kind: u32,
    pub encoded_arguments: Vec<u8>,
    /// The bytes each storage reference named when the request was made.
    pub resolved: Vec<Vec<u8>>,
    pub required_signers: u32,
    pub callback_target: CallbackTarget,
}

/// The protocol's state.
pub struct Protocol {
    pub kinds: Vec<u32>,
    pub cluster_keys: Vec<[u8; 64]>,
    pub records: Vec<Record>,
    pub pending: Vec<PendingComputation>,
}

impl Protocol {
    /// Whether a computation with this request id is pending.
    pub open spec fn is_pending(&self, request_id: u64) -> bool {
        exists|i: int| 0 <= i < self.pending.len() && self.pending[i].request_id == request_id
    }

    /// Whether a record is stored at this address.
    pub open spec fn has_record(&self, address: [u8; 32]) -> bool {
        exists|i: int| 0 <= i < self.records.len() && self.records[i].address == address
    }

    /// Whether a computation definition is registered under this kind.
    pub open spec fn has_kind(&self, kind: u32) -> bool {
        self.kinds@.contains(kind)
    }

    /// Whether the reference names a range that lies within a stored record.
    pub open spec fn resolves(&self, r: StorageReference) -> bool {
        exists|i: int|
            0 <= i < self.records.len() && self.records[i].address == r.address && r.offset
                + r.length <= self.records[i].data.len()
    }

    /// Whether the record a callback is to update is stored.
    pub open spec fn target_stored(&self, target: CallbackTarget) -> bool {
        match target {
            CallbackTarget::Notify => true,
            CallbackTarget::UpdateRecord(address) => self.has_record(address),
        }
    }

    /// No two pending computations share a request id, no two records an
    /// address, no two cluster keys their bytes; every record holds its
    /// region; every pending computation's target record is stored.
    pub open spec fn wf(&self) -> bool {
        &&& forall|i: int, j: int|
            0 <= i < j < self.pending.len() ==> self.pending[i].request_id
                != self.pending[j].request_id
        &&& forall|i: int, j: int|
            0 <= i < j < self.records.len() ==> self.records[i].address != self.records[j].address
        &&& forall|i: int, j: int|
            0 <= i < j < self.cluster_keys.len() ==> self.cluster_keys[i] != self.cluster_keys[j]
        &&& forall|i: int| 0 <= i < self.records.len() ==> (#[trigger] self.records[i]).wf()
        &&& forall|i: int|
            0 <= i < self.pending.len() ==> self.target_stored(
                (#[trigger] self.pending[i]).callback_target,
            )
    }

    /// A state with nothing registered, stored or pending.
    pub fn new() -> (p: Protocol)
        ensures
            p.wf(),
            p.kinds@.len() == 0,
            p.cluster_keys@.len() == 0,
            p.records@.len() == 0,
            p.pending@.len() == 0,
    {
        Protocol {
            kinds: Vec::new(),
            cluster_keys: Vec::new(),
            records: Vec::new(),
            pending: Vec::new(),
        }
    }

    /// The index of the pending computation with this request id.
    pub fn find_pending(&self, request_id: u64) -> (found: Option<usize>)
        ensures
            found is Some <==> self.is_pending(request_id),
            found matches Some(i) ==> i < self.pending.len() && self.pending[i as int].request_id
                == request_id,
    {
        let mut i: usize = 0;
        while i < self.pending.len()
            invariant
                i <= self.pending.len(),
                forall|j: int| 0 <= j < i ==> self.pending[j].request_id != request_id,
            decreases self.pending.len() - i,
        {
            if self.pending[i].request_id == request_id {
                return Some(i);
            }
            i += 1;
        }
        None
    }

    /// The index of the record stored at this address.
    pub fn find_record(&self, address: &[u8; 32]) -> (found: Option<usize>)
        ensures
            found is Some <==> self.has_record(*address),
            found matches Some(i) ==> i < self.records.len() && self.records[i as int].address
                == *address,
    {
        let mut i: usize = 0;
        while i < self.records.len()
            invariant
                i <= self.records.len(),
                forall|j: int| 0 <= j < i ==> self.records[j].address != *address,
            decreases self.records.len() - i,
        {
            if same_bytes(&self.records[i].address, address) {
                return Some(i);
            }
            i += 1;
        }
        None
    }

    /// Whether a computation definition is registered under `kind`.
    pub fn kind_registered(&self, kind: u32) -> (known: bool)
        ensures
            known == self.has_kind(kind),
    {
        let mut i: usize = 0;
        while i < self.kinds.len()
            invariant
                i <= self.kinds.len(),
                forall|j: int| 0 <= j < i ==> self.kinds[j] != kind,
            decreases self.kinds.len() - i,
        {
            if self.kinds[i] == kind {
                return true;
            }
            i += 1;
        }
        false
    }

    /// Registers a computation definition under `kind`. Registering a kind
    /// twice changes nothing.
    pub fn register_kind(&mut self, kind: u32)
        requires
            old(self).wf(),
        ensures
            final(self).wf(),
            final(self).has_kind(kind),
            forall|k: u32| old(self).has_kind(k) ==> final(self).has_kind(k),
            forall|k: u32| final(self).has_kind(k) ==> k == kind || old(self).has_kind(k),
            final(self).cluster_keys == old(self).cluster_keys,
            final(self).records == old(self).records,
            final(self).pending == old(self).pending,
    {
        if !self.kind_registered(kind) {
            self.kinds.push(kind);
            proof {
                assert(self.kinds@.last() == kind);
                assert forall|k: u32| old(self).has_kind(k) implies self.has_kind(k) by {
                    let i = choose|i: int| 0 <= i < old(self).kinds.len() && old(self).kinds[i] == k;
                    assert(self.kinds[i] == k);
                }
            }
        }
    }

    /// Whether `key` is one of the cluster's keys.
    pub open spec fn has_key(&self, key: [u8; 64]) -> bool {
        self.cluster_keys@.contains(key)
    }

    /// Registers `key` as one of the executing cluster's keys. Returns
    /// whether the key was new.
    pub fn register_cluster_key(&mut self, key: [u8; 64]) -> (added: bool)
        requires
            old(self).wf(),
        ensures
            final(self).wf(),
            added == !old(self).has_key(key),
            added ==> final(self).cluster_keys@ == old(self).cluster_keys@.push(key),
            !added ==> final(self).cluster_keys@ == old(self).cluster_keys@,
            final(self).kinds == old(self).kinds,
            final(self).records == old(self).records,
            final(self).pending == old(self).pending,
    {
        let mut i: usize = 0;
        while i < self.cluster_keys.len()
            invariant
                i <= self.cluster_keys.len(),
                *self == *old(self),
                self.wf(),
                forall|j: int| 0 <= j < i ==> self.cluster_keys[j] != key,
            decreases self.cluster_keys.len() - i,
        {
            if same_bytes(&self.cluster_keys[i], &key) {
                return false;
            }
            i += 1;
        }
        self.cluster_keys.push(key);
        true
    }

    /// Stores a new record. Returns whether it was stored: a record whose
    /// address is taken, or whose region does not fit, is not.
    pub fn create_record(&mut self, record: Record) -> (created: bool)
        requires
            old(self).wf(),
        ensures
            final(self).wf(),
            created == (record.wf() && !old(self).has_record(record.address)),
            created ==> final(self).records@ == old(self).records@.push(record),
            !created ==> final(self).records@ == old(self).records@,
            final(self).kinds == old(self).kinds,
            final(self).cluster_keys == old(self).cluster_keys,
            final(self).pending == old(self).pending,
    {
        if record.data.len() < 16 || record.header_len > record.data.len() - 16 {
            return false;
        }
        if record.block_count > (record.data.len() - 16 - record.header_len) / 32 {
            return false;
        }
        if self.find_record(&record.address).is_some() {
            return false;
        }
        self.records.push(record);
        proof {
            assert forall|i: int| 0 <= i < self.pending.len() implies self.target_stored(
                (#[trigger] self.pending[i]).callback_target,
            ) by {
                let t = self.pending[i].callback_target;
                assert(old(self).target_stored(t));
                if let CallbackTarget::UpdateRecord(a) = t {
                    let k = choose|k: int|
                        0 <= k < old(self).records.len() && old(self).records[k].address == a;
                    assert(self.records[k].address == a);
                }
            }
        }
        true
    }
}

} // verus!
