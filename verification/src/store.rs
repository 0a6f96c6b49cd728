//! Stored records: raw bytes with an encrypted region at a fixed place.

use vstd::prelude::*;
use crate::codec::{region_len, EncryptedState};

verus! {

/// Whether two byte arrays hold the same bytes.
pub fn same_bytes<const N: usize>(a: &[u8; N], b: &[u8; N]) -> (same: bool)
    ensures
        same == (*a == *b),
{
    let mut i: usize = 0;
    while i < N
        invariant
            i <= N,
            forall|j: int| 0 <= j < i ==> a[j] == b[j],
        decreases N - i,
    {
        if a[i] != b[i] {
            return false;
        }
        i += 1;
    }
    assert(*a =~= *b);
    true
}

/// A stored record. Its encrypted region starts `header_len` bytes in and
/// holds `block_count` blocks; what lies before and after is plaintext.
#[derive(Clone, Debug)]
pub struct Record {
    pub address: [u8; 32],
    pub header_len: usize,
    pub block_count: usize,
    pub data: Vec<u8>,
    /// Whether an encrypted state has been written to the region yet.
    pub written: bool,
}

impl Record {
    /// The region lies within the record's bytes.
    pub open spec fn wf(&self) -> bool {
        self.header_len + region_len(self.block_count as nat) <= self.data.len()
    }

    /// The nonce the record holds now.
    pub open spec fn nonce(&self) -> Seq<u8> {
        self.data@.subrange(self.header_len as int, self.header_len + 16)
    }

    /// The bytes of the encrypted region.
    pub open spec fn region(&self) -> Seq<u8> {
        self.data@.subrange(
            self.header_len as int,
            self.header_len + region_len(self.block_count as nat),
        )
    }

    /// The record's bytes with `region` in place of the encrypted region.
    pub open spec fn data_with_region(&self, region: Seq<u8>) -> Seq<u8> {
        self.data@.subrange(0, self.header_len as int) + region + self.data@.subrange(
            self.header_len + region_len(self.block_count as nat),
            self.data.len() as int,
        )
    }

    /// A record of `total_len` zero bytes whose region has never been
    /// written. `None` when the region would not fit.
    pub fn new(address: [u8; 32], header_len: usize, block_count: usize, total_len: usize) -> (r:
        Option<Record>)
        ensures
            r is Some <==> header_len + region_len(block_count as nat) <= total_len,
            r matches Some(rec) ==> {
                &&& rec.wf()
                &&& rec.address == address
                &&& rec.header_len == header_len
                &&& rec.block_count == block_count
                &&& !rec.written
                &&& rec.data@ == Seq::new(total_len as nat, |i: int| 0u8)
            },
    {
        if total_len < 16 || header_len > total_len - 16 {
            return None;
        }
        if block_count > (total_len - 16 - header_len) / 32 {
            return None;
        }
        let mut data: Vec<u8> = Vec::new();
        let mut i: usize = 0;
        while i < total_len
            invariant
                i <= total_len,
                data.len() == i,
                forall|j: int| 0 <= j < i ==> data[j] == 0u8,
            decreases total_len - i,
        {
            data.push(0u8);
            i += 1;
        }
        assert(data@ =~= Seq::new(total_len as nat, |i: int| 0u8));
        Some(Record { address, header_len, block_count, data, written: false })
    }

    /// Whether the record's nonce is `nonce`.
    pub fn has_nonce(&self, nonce: &[u8; 16]) -> (same: bool)
        requires
            self.wf(),
        ensures
            same == (self.nonce() == nonce@),
    {
        let mut i: usize = 0;
        while i < 16
            invariant
                i <= 16,
                self.wf(),
                forall|j: int| 0 <= j < i ==> self.data[self.header_len + j] == nonce[j],
            decreases 16 - i,
        {
            if self.data[self.header_len + i] != nonce[i] {
                assert(self.nonce()[i as int] != nonce@[i as int]);
                return false;
            }
            i += 1;
        }
        assert(self.nonce() =~= nonce@);
        true
    }

    /// Overwrites the encrypted region with `state` and leaves every other
    /// byte as it was.
    pub fn write_region(&mut self, state: &EncryptedState)
        requires
            old(self).wf(),
            state.blocks.len() == old(self).block_count,
        ensures
            final(self).wf(),
            final(self).data@ == old(self).data_with_region(state.bytes()),
            final(self).region() == state.bytes(),
            final(self).data.len() == old(self).data.len(),
            final(self).address == old(self).address,
            final(self).header_len == old(self).header_len,
            final(self).block_count == old(self).block_count,
            final(self).written,
    {
        let region = crate::codec::encode(&state.nonce, &state.blocks);
        let mut i: usize = 0;
        while i < region.len()
            invariant
                i <= region.len(),
                region.len() == region_len(self.block_count as nat),
                self.wf(),
                self.data.len() == old(self).data.len(),
                self.address == old(self).address,
                self.header_len == old(self).header_len,
                self.block_count == old(self).block_count,
                forall|j: int| 0 <= j < i ==> self.data[self.header_len + j] == region[j],
                forall|j: int|
                    0 <= j < self.data.len() && !(self.header_len <= j < self.header_len + i)
                        ==> self.data[j] == old(self).data[j],
            decreases region.len() - i,
        {
            let at = self.header_len + i;
            let byte = region[i];
            self.data.set(at, byte);
            i += 1;
        }
        self.written = true;
        assert(self.data@ =~= old(self).data_with_region(state.bytes()));
        assert(self.region() =~= state.bytes());
    }

    /// Reads `length` bytes at `offset`. `None` when the range does not lie
    /// within the record.
    pub fn read(&self, offset: u32, length: u32) -> (bytes: Option<Vec<u8>>)
        ensures
            bytes is Some <==> offset + length <= self.data.len(),
            bytes matches Some(b) ==> b@ == self.data@.subrange(offset as int, offset + length),
    {
        let end: u64 = offset as u64 + length as u64;
        if end > self.data.len() as u64 {
            return None;
        }
        let mut out: Vec<u8> = Vec::new();
        let mut i: usize = 0;
        while i < length as usize
            invariant
                i <= length,
                offset + length <= self.data.len(),
                out.len() == i,
                forall|j: int| 0 <= j < i ==> out[j] == self.data[offset + j],
            decreases length - i,
        {
            out.push(self.data[offset as usize + i]);
            i += 1;
        }
        assert(out@ =~= self.data@.subrange(offset as int, offset + length));
        Some(out)
    }
}

} // verus!
