//! The record types and where each keeps its encrypted region.

use vstd::prelude::*;
use crate::codec::{region_len, EncryptedState};
use crate::store::Record;

verus! {

/// Where a record type keeps its encrypted region: after `header_len`
/// bytes, `block_count` blocks long, followed by `trailer_len` bytes.
#[derive(Clone, Copy, Debug, PartialEq, Eq, Structural)]
pub struct RecordLayout {
    pub header_len: u32,
    pub block_count: u32,
    pub trailer_len: u32,
}

impl RecordLayout {
    /// The sizes are small enough for every offset to fit 32 bits.
    pub open spec fn wf(&self) -> bool {
        self.header_len + region_len(self.block_count as nat) + self.trailer_len <= u32::MAX
    }

    /// Offset of the first ciphertext block: past the header and the nonce.
    pub open spec fn spec_ciphertext_offset(&self) -> int {
        self.header_len + 16
    }

    /// Length of the ciphertext blocks together.
    pub open spec fn spec_ciphertext_length(&self) -> int {
        32 * self.block_count
    }

    /// Length of a whole record: header, encrypted region and trailer.
    pub open spec fn spec_total_len(&self) -> int {
        self.header_len + region_len(self.block_count as nat) + self.trailer_len
    }

    /// Offset of the first ciphertext block.
    pub fn ciphertext_offset(&self) -> (offset: u32)
        requires
            self.wf(),
        ensures
            offset == self.spec_ciphertext_offset(),
    {
        self.header_len + 16
    }

    /// Length of the ciphertext blocks together.
    pub fn ciphertext_length(&self) -> (length: u32)
        requires
            self.wf(),
        ensures
            length == self.spec_ciphertext_length(),
    {
        32 * self.block_count
    }

    /// Length of a whole record.
    pub fn total_len(&self) -> (len: u32)
        requires
            self.wf(),
        ensures
            len == self.spec_total_len(),
    {
        self.header_len + 16 + 32 * self.block_count + self.trailer_len
    }

    /// A record of this layout at `address`, all zero and never written.
    pub fn allocate(&self, address: [u8; 32]) -> (record: Record)
        requires
            self.wf(),
        ensures
            record.wf(),
            record.address == address,
            record.header_len == self.header_len,
            record.block_count == self.block_count,
            !record.written,
            record.data@ == Seq::new(self.spec_total_len() as nat, |i: int| 0u8),
    {
        let total = self.total_len() as usize;
        match Record::new(address, self.header_len as usize, self.block_count as usize, total) {
            Some(record) => record,
            None => {
                proof {
                    assert(false);
                }
                Record {
                    address,
                    header_len: self.header_len as usize,
                    block_count: self.block_count as usize,
                    data: Vec::new(),
                    written: false,
                }
            },
        }
    }
}

/// A counter: the discriminator, then the encrypted region of one block.
pub open spec fn spec_counter_layout() -> RecordLayout {
    RecordLayout { header_len: 8, block_count: 1, trailer_len: 0 }
}

/// The layout of a counter record.
#[verifier::when_used_as_spec(spec_counter_layout)]
pub fn counter_layout() -> (layout: RecordLayout)
    ensures
        layout == spec_counter_layout(),
        layout.wf(),
{
    RecordLayout { header_len: 8, block_count: 1, trailer_len: 0 }
}

/// Offset of a counter's ciphertext: discriminator and nonce come first.
pub const COUNTER_CIPHERTEXT_OFFSET: u32 = 24;

/// Length of a counter's ciphertext: one block.
pub const COUNTER_CIPHERTEXT_LENGTH: u32 = 32;

/// A deal: the discriminator, the encrypted region of three blocks, then
/// 183 bytes of plaintext fields.
pub open spec fn spec_deal_layout() -> RecordLayout {
    RecordLayout { header_len: 8, block_count: 3, trailer_len: 183 }
}

/// The layout of a deal record.
#[verifier::when_used_as_spec(spec_deal_layout)]
pub fn deal_layout() -> (layout: RecordLayout)
    ensures
        layout == spec_deal_layout(),
        layout.wf(),
{
    RecordLayout { header_len: 8, block_count: 3, trailer_len: 183 }
}

/// Offset of a deal's ciphertext.
pub const DEAL_CIPHERTEXT_OFFSET: u32 = 24;

/// Length of a deal's ciphertext: three blocks.
pub const DEAL_CIPHERTEXT_LENGTH: u32 = 96;

/// An offer: the discriminator and 142 bytes of plaintext fields, then the
/// encrypted region of three blocks.
pub open spec fn spec_offer_layout() -> RecordLayout {
    RecordLayout { header_len: 150, block_count: 3, trailer_len: 0 }
}

/// The layout of an offer record.
#[verifier::when_used_as_spec(spec_offer_layout)]
pub fn offer_layout() -> (layout: RecordLayout)
    ensures
        layout == spec_offer_layout(),
        layout.wf(),
{
    RecordLayout { header_len: 150, block_count: 3, trailer_len: 0 }
}

/// Offset of an offer's ciphertext.
pub const OFFER_CIPHERTEXT_OFFSET: u32 = 166;

/// Length of an offer's ciphertext: three blocks.
pub const OFFER_CIPHERTEXT_LENGTH: u32 = 96;

/// The offsets by which arguments refer to ciphertext are those of the
/// layouts, and each layout's sizes add up to its record's length.
pub proof fn lemma_offsets_match_layouts()
    ensures
        counter_layout().wf() && deal_layout().wf() && offer_layout().wf(),
        COUNTER_CIPHERTEXT_OFFSET == counter_layout().spec_ciphertext_offset(),
        COUNTER_CIPHERTEXT_LENGTH == counter_layout().spec_ciphertext_length(),
        counter_layout().spec_total_len() == 56,
        DEAL_CIPHERTEXT_OFFSET == deal_layout().spec_ciphertext_offset(),
        DEAL_CIPHERTEXT_LENGTH == deal_layout().spec_ciphertext_length(),
        deal_layout().spec_total_len() == 303,
        OFFER_CIPHERTEXT_OFFSET == offer_layout().spec_ciphertext_offset(),
        OFFER_CIPHERTEXT_LENGTH == offer_layout().spec_ciphertext_length(),
        offer_layout().spec_total_len() == 262,
{
}

/// A counter's encrypted state. Only the executor can decrypt it.
#[derive(Clone, Copy, Debug, PartialEq, Eq)]
pub struct Counter {
    pub nonce: [u8; 16],
    pub state: [[u8; 32]; 1],
}

impl Counter {
    /// The counter as a nonce and its one block.
    pub fn encrypted_state(&self) -> (s: EncryptedState)
        ensures
            s.nonce == self.nonce,
            s.blocks@ == seq![self.state[0]],
    {
        let mut blocks: Vec<[u8; 32]> = Vec::new();
        blocks.push(self.state[0]);
        assert(blocks@ =~= seq![self.state[0]]);
        EncryptedState { nonce: self.nonce, blocks }
    }

    /// Reads the counter that a record of the counter layout holds. `None`
    /// for a record of another layout.
    pub fn read(record: &Record) -> (c: Option<Counter>)
        requires
            record.wf(),
        ensures
            c is Some <==> record.header_len == 8 && record.block_count == 1,
            c matches Some(counter) ==> counter.nonce@ == record.data@.subrange(8, 24)
                && counter.state[0]@ == record.data@.subrange(24, 56),
    {
        if record.header_len != 8 || record.block_count != 1 {
            return None;
        }
        let nonce = crate::codec::read_nonce(&record.data, 8);
        let block = crate::codec::read_block(&record.data, 24);
        assert(nonce@ =~= record.data@.subrange(8, 24));
        assert(block@ =~= record.data@.subrange(24, 56));
        Some(Counter { nonce, state: [block] })
    }
}

/// A deal that a seller has created.
#[derive(Clone, Copy, Debug, PartialEq, Eq)]
pub struct DealAccount {
    /// Nonce of the encrypted fields.
    pub nonce: [u8; 16],
    /// Three encrypted fields: amount, price, fill amount.
    pub ciphertexts: [[u8; 32]; 3],
    /// Ephemeral signer that makes the deal's address unique.
    pub create_key: [u8; 32],
    /// The signing authority.
    pub controller: [u8; 32],
    /// The key events for the creator are encrypted to.
    pub encryption_pubkey: [u8; 32],
    /// The token the creator sells.
    pub base_mint: [u8; 32],
    /// The token the creator receives.
    pub quote_mint: [u8; 32],
    /// When the deal was created, in seconds.
    pub created_at: i64,
    /// When the deal expires, in seconds.
    pub expires_at: i64,
    /// One of the codes of `DealStatus`.
    pub status: u8,
    /// Whether partial fills are allowed at expiry.
    pub allow_partial: bool,
    /// How many offers have been made on the deal.
    pub num_offers: u32,
    /// Bump seed of the deal's address.
    pub bump: u8,
}

/// An offer made on a deal.
#[derive(Clone, Copy, Debug, PartialEq, Eq)]
pub struct OfferAccount {
    /// Ephemeral signer that makes the offer's address unique.
    pub create_key: [u8; 32],
    /// The signing authority.
    pub controller: [u8; 32],
    /// The key events for the offerer are encrypted to.
    pub encryption_pubkey: [u8; 32],
    /// The deal the offer is made on.
    pub deal: [u8; 32],
    /// When the offer was submitted, in seconds.
    pub submitted_at: i64,
    /// Position of the offer among the deal's offers.
    pub offer_index: u32,
    /// One of the codes of `OfferStatus`.
    pub status: u8,
    /// Bump seed of the offer's address.
    pub bump: u8,
    /// Nonce of the encrypted fields.
    pub nonce: [u8; 16],
    /// Three encrypted fields: price, amount, amount to execute.
    pub ciphertexts: [[u8; 32]; 3],
}

} // verus!
