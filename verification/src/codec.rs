//! The byte layout of an encrypted region: a 16-byte nonce followed by a
//! fixed number of 32-byte ciphertext blocks.

use vstd::prelude::*;

verus! {

/// Why a byte string is not an encrypted region.
#[derive(Clone, Copy, Debug, PartialEq, Eq, Structural)]
pub enum RecordError {
    /// The byte length is not `16 + 32 * N` for the record type's `N`.
    MalformedRecord,
}

/// A nonce with the ciphertext blocks encrypted under it.
#[derive(Clone, Debug)]
pub struct EncryptedState {
    pub nonce: [u8; 16],
    pub blocks: Vec<[u8; 32]>,
}

/// Length in bytes of an encrypted region with `count` blocks.
pub open spec fn region_len(count: nat) -> nat {
    16 + 32 * count
}

/// The byte at position `i` of the region made of `nonce` and `blocks`.
pub open spec fn region_byte(nonce: [u8; 16], blocks: Seq<[u8; 32]>, i: int) -> u8 {
    if i < 16 {
        nonce[i]
    } else {
        blocks[(i - 16) / 32][(i - 16) % 32]
    }
}

/// The bytes of the region made of `nonce` and `blocks`: the nonce first,
/// then each block in order.
pub open spec fn region_bytes(nonce: [u8; 16], blocks: Seq<[u8; 32]>) -> Seq<u8> {
    Seq::new(region_len(blocks.len()), |i: int| region_byte(nonce, blocks, i))
}

/// Whether `block` is the block at index `k` of the region `bytes`.
pub open spec fn block_of(bytes: Seq<u8>, k: int, block: [u8; 32]) -> bool {
    forall|j: int| 0 <= j < 32 ==> block[j] == bytes[16 + 32 * k + j]
}

impl EncryptedState {
    /// The bytes this state is stored as.
    pub open spec fn bytes(&self) -> Seq<u8> {
        region_bytes(self.nonce, self.blocks@)
    }
}

/// Copies the 16 bytes of `bytes` that start at `start`.
pub fn read_nonce(bytes: &Vec<u8>, start: usize) -> (nonce: [u8; 16])
    requires
        start + 16 <= bytes.len(),
    ensures
        forall|i: int| 0 <= i < 16 ==> nonce[i] == bytes[start + i],
{
    let mut nonce: [u8; 16] = [0u8; 16];
    let mut i: usize = 0;
    while i < 16
        invariant
            i <= 16,
            start + 16 <= bytes.len(),
            forall|j: int| 0 <= j < i ==> nonce[j] == bytes[start + j],
        decreases 16 - i,
    {
        nonce[i] = bytes[start + i];
        i += 1;
    }
    nonce
}

/// Copies the 32 bytes of `bytes` that start at `start`.
pub fn read_block(bytes: &Vec<u8>, start: usize) -> (block: [u8; 32])
    requires
        start + 32 <= bytes.len(),
    ensures
        forall|i: int| 0 <= i < 32 ==> block[i] == bytes[start + i],
{
    let mut block: [u8; 32] = [0u8; 32];
    let mut i: usize = 0;
    while i < 32
        invariant
            i <= 32,
            start + 32 <= bytes.len(),
            forall|j: int| 0 <= j < i ==> block[j] == bytes[start + j],
        decreases 32 - i,
    {
        block[i] = bytes[start + i];
        i += 1;
    }
    block
}

/// Writes the region made of `nonce` and `blocks`: the nonce first, then
/// each block in order.
pub fn encode(nonce: &[u8; 16], blocks: &Vec<[u8; 32]>) -> (bytes: Vec<u8>)
    requires
        region_len(blocks.len() as nat) <= usize::MAX,
    ensures
        bytes@ == region_bytes(*nonce, blocks@),
        bytes.len() == region_len(blocks.len() as nat),
{
    let mut bytes: Vec<u8> = Vec::new();
    let mut i: usize = 0;
    while i < 16
        invariant
            i <= 16,
            bytes.len() == i,
            forall|j: int| 0 <= j < i ==> bytes[j] == region_byte(*nonce, blocks@, j),
        decreases 16 - i,
    {
        bytes.push(nonce[i]);
        i += 1;
    }
    let mut k: usize = 0;
    while k < blocks.len()
        invariant
            k <= blocks.len(),
            region_len(blocks.len() as nat) <= usize::MAX,
            bytes.len() == 16 + 32 * k,
            forall|j: int| 0 <= j < bytes.len() ==> bytes[j] == region_byte(*nonce, blocks@, j),
        decreases blocks.len() - k,
    {
        let block = &blocks[k];
        let mut b: usize = 0;
        while b < 32
            invariant
                b <= 32,
                k < blocks.len(),
                *block == blocks[k as int],
                region_len(blocks.len() as nat) <= usize::MAX,
                bytes.len() == 16 + 32 * k + b,
                forall|j: int| 0 <= j < bytes.len() ==> bytes[j] == region_byte(*nonce, blocks@, j),
            decreases 32 - b,
        {
            bytes.push(block[b]);
            b += 1;
        }
        k += 1;
    }
    assert(bytes@ =~= region_bytes(*nonce, blocks@));
    bytes
}

/// Reads a region of `count` blocks. Succeeds exactly when `bytes` is
/// `16 + 32 * count` bytes long, and then returns the one state whose bytes
/// are `bytes`.
pub fn decode(bytes: &Vec<u8>, count: usize) -> (state: Result<EncryptedState, RecordError>)
    ensures
        state is Ok <==> bytes.len() == region_len(count as nat),
        state matches Ok(s) ==> s.blocks.len() == count && s.bytes() == bytes@,
        state matches Err(e) ==> e == RecordError::MalformedRecord,
{
    let len = bytes.len();
    if len < 16 || (len - 16) % 32 != 0 || (len - 16) / 32 != count {
        return Err(RecordError::MalformedRecord);
    }
    let nonce = read_nonce(bytes, 0);
    let mut blocks: Vec<[u8; 32]> = Vec::new();
    let mut k: usize = 0;
    while k < count
        invariant
            k <= count,
            bytes.len() == 16 + 32 * count,
            blocks.len() == k,
            forall|m: int| 0 <= m < k ==> block_of(bytes@, m, #[trigger] blocks[m]),
        decreases count - k,
    {
        let block = read_block(bytes, 16 + 32 * k);
        blocks.push(block);
        k += 1;
    }
    let state = EncryptedState { nonce, blocks };
    proof {
        assert forall|i: int| 0 <= i < bytes.len() implies bytes[i] == region_byte(
            state.nonce,
            state.blocks@,
            i,
        ) by {
            if i >= 16 {
                let m = (i - 16) / 32;
                assert(block_of(bytes@, m, state.blocks[m]));
            }
        }
        assert(state.bytes() =~= bytes@);
    }
    Ok(state)
}

/// Reading back what `encode` wrote gives the nonce and the blocks that
/// went in.
pub proof fn lemma_decode_inverts_encode(
    nonce: [u8; 16],
    blocks: Seq<[u8; 32]>,
    state: EncryptedState,
)
    requires
        state.blocks.len() == blocks.len(),
        state.bytes() == region_bytes(nonce, blocks),
    ensures
        state.nonce == nonce,
        state.blocks@ == blocks,
{
    let bytes = region_bytes(nonce, blocks);
    assert forall|i: int| 0 <= i < 16 implies state.nonce[i] == nonce[i] by {
        assert(state.bytes()[i] == bytes[i]);
    }
    assert(state.nonce =~= nonce);
    assert forall|k: int| 0 <= k < blocks.len() implies state.blocks[k] == blocks[k] by {
        assert forall|j: int| 0 <= j < 32 implies state.blocks[k][j] == blocks[k][j] by {
            let i = 16 + 32 * k + j;
            assert(state.bytes()[i] == bytes[i]);
            assert((i - 16) / 32 == k && (i - 16) % 32 == j);
        }
        assert(state.blocks[k] =~= blocks[k]);
    }
    assert(state.blocks@ =~= blocks);
}

} // verus!
