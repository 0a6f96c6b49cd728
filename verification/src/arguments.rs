//! The ordered argument list of a computation, and the two forms it is
//! handed on in: one byte string with the storage references beside it, and
//! the executor's own argument list.

use vstd::prelude::*;
use vstd::bytes::{spec_u128_to_le_bytes, u128_to_le_bytes};
use arcium_anchor::arg_builder::ArgBuilder;
use arcium_client::idl::arcium::types::ArgumentList;
use crate::executor::{
    builder_account, builder_accounts, builder_byte_arrays, builder_refs, builder_wide_values,
    list_accounts, list_byte_arrays, list_refs, list_wide_values, pool_index, REF_ACCOUNT,
    REF_ENCRYPTED_U8, REF_PLAINTEXT_U128, REF_X25519_PUBKEY,
};

verus! {

/// A pointer to ciphertext that lies in a stored record.
#[derive(Clone, Copy, Debug, PartialEq, Eq)]
pub struct StorageReference {
    pub address: [u8; 32],
    pub offset: u32,
    pub length: u32,
}

/// One entry of an argument list.
#[derive(Clone, Copy, Debug, PartialEq, Eq)]
pub enum Argument {
    /// A value the executor needs in the clear, such as a nonce.
    PlaintextU128(u128),
    /// The key the executor encrypts the matching output for.
    X25519Pubkey([u8; 32]),
    /// A ciphertext block that the caller supplies.
    InlineCiphertext([u8; 32]),
    /// Ciphertext read from a record when the computation is dispatched.
    StorageReference(StorageReference),
}

/// An argument list as one byte string, with the storage references that
/// are resolved at dispatch time.
#[derive(Clone, Debug)]
pub struct EncodedArguments {
    pub bytes: Vec<u8>,
    pub references: Vec<StorageReference>,
}

/// The bytes that one entry adds to the byte string: a plaintext value as
/// 16 little-endian bytes, a key or a ciphertext as it is, a storage
/// reference nothing.
pub open spec fn entry_bytes(entry: Argument) -> Seq<u8> {
    match entry {
        Argument::PlaintextU128(v) => spec_u128_to_le_bytes(v),
        Argument::X25519Pubkey(k) => k@,
        Argument::InlineCiphertext(c) => c@,
        Argument::StorageReference(_) => Seq::empty(),
    }
}

/// The byte string of an argument list: the bytes of its entries in order.
pub open spec fn inline_bytes(entries: Seq<Argument>) -> Seq<u8>
    decreases entries.len(),
{
    if entries.len() == 0 {
        Seq::empty()
    } else {
        inline_bytes(entries.drop_last()) + entry_bytes(entries.last())
    }
}

/// The storage references of an argument list, in order.
pub open spec fn references(entries: Seq<Argument>) -> Seq<StorageReference>
    decreases entries.len(),
{
    if entries.len() == 0 {
        Seq::empty()
    } else {
        match entries.last() {
            Argument::StorageReference(r) => references(entries.drop_last()).push(r),
            _ => references(entries.drop_last()),
        }
    }
}

/// The keys and ciphertexts of an argument list, in order.
pub open spec fn byte_arrays(entries: Seq<Argument>) -> Seq<[u8; 32]>
    decreases entries.len(),
{
    if entries.len() == 0 {
        Seq::empty()
    } else {
        match entries.last() {
            Argument::X25519Pubkey(k) => byte_arrays(entries.drop_last()).push(k),
            Argument::InlineCiphertext(c) => byte_arrays(entries.drop_last()).push(c),
            _ => byte_arrays(entries.drop_last()),
        }
    }
}

/// The plaintext values of an argument list, in order.
pub open spec fn wide_values(entries: Seq<Argument>) -> Seq<u128>
    decreases entries.len(),
{
    if entries.len() == 0 {
        Seq::empty()
    } else {
        match entries.last() {
            Argument::PlaintextU128(v) => wide_values(entries.drop_last()).push(v),
            _ => wide_values(entries.drop_last()),
        }
    }
}

/// A storage reference as the executor's list holds it.
pub open spec fn account_of(r: StorageReference) -> ([u8; 32], u32, u32) {
    (r.address, r.offset, r.length)
}

/// The entry of the executor's list that stands for the entry at position
/// `i`: its kind, and the index of its value among the values of its kind.
pub open spec fn ref_at(entries: Seq<Argument>, i: int) -> (u8, u8) {
    let before = entries.take(i);
    match entries[i] {
        Argument::PlaintextU128(_) => (REF_PLAINTEXT_U128, pool_index(wide_values(before).len())),
        Argument::X25519Pubkey(_) => (REF_X25519_PUBKEY, pool_index(byte_arrays(before).len())),
        Argument::InlineCiphertext(_) => (REF_ENCRYPTED_U8, pool_index(byte_arrays(before).len())),
        Argument::StorageReference(_) => (REF_ACCOUNT, pool_index(references(before).len())),
    }
}

/// Whether the executor's list `list` holds exactly the entries `entries`,
/// in order.
pub open spec fn list_holds(list: ArgumentList, entries: Seq<Argument>) -> bool {
    &&& list_refs(list) == Seq::new(entries.len(), |i: int| ref_at(entries, i))
    &&& list_byte_arrays(list) == byte_arrays(entries)
    &&& list_wide_values(list) == wide_values(entries)
    &&& list_accounts(list) == references(entries).map_values(|r: StorageReference| account_of(r))
}

/// Writes an argument list as a byte string and its storage references.
pub fn encode_arguments(entries: &Vec<Argument>) -> (encoded: EncodedArguments)
    ensures
        encoded.bytes@ == inline_bytes(entries@),
        encoded.references@ == references(entries@),
{
    let mut bytes: Vec<u8> = Vec::new();
    let mut refs: Vec<StorageReference> = Vec::new();
    let mut i: usize = 0;
    while i < entries.len()
        invariant
            i <= entries.len(),
            bytes@ == inline_bytes(entries@.take(i as int)),
            refs@ == references(entries@.take(i as int)),
        decreases entries.len() - i,
    {
        proof {
            assert(entries@.take(i + 1).drop_last() == entries@.take(i as int));
        }
        match entries[i] {
            Argument::PlaintextU128(v) => {
                let le = u128_to_le_bytes(v);
                append(&mut bytes, &le);
            },
            Argument::X25519Pubkey(k) => {
                append_block(&mut bytes, &k);
            },
            Argument::InlineCiphertext(c) => {
                append_block(&mut bytes, &c);
            },
            Argument::StorageReference(r) => {
                refs.push(r);
                assert(bytes@ + Seq::<u8>::empty() == bytes@);
            },
        }
        i += 1;
    }
    proof {
        assert(entries@.take(entries.len() as int) == entries@);
    }
    EncodedArguments { bytes, references: refs }
}

/// Appends the bytes of `tail` to `bytes`.
pub fn append(bytes: &mut Vec<u8>, tail: &Vec<u8>)
    ensures
        final(bytes)@ == old(bytes)@ + tail@,
{
    let mut j: usize = 0;
    while j < tail.len()
        invariant
            j <= tail.len(),
            bytes@ == old(bytes)@ + tail@.take(j as int),
        decreases tail.len() - j,
    {
        bytes.push(tail[j]);
        proof {
            assert(tail@.take(j + 1) == tail@.take(j as int).push(tail[j as int]));
        }
        j += 1;
    }
    proof {
        assert(tail@.take(tail.len() as int) == tail@);
    }
}

/// Appends the 32 bytes of `block` to `bytes`.
pub fn append_block(bytes: &mut Vec<u8>, block: &[u8; 32])
    ensures
        final(bytes)@ == old(bytes)@ + block@,
{
    let mut j: usize = 0;
    while j < 32
        invariant
            j <= 32,
            bytes@ == old(bytes)@ + block@.take(j as int),
        decreases 32 - j,
    {
        bytes.push(block[j]);
        proof {
            assert(block@.take(j + 1) == block@.take(j as int).push(block[j as int]));
        }
        j += 1;
    }
    proof {
        assert(block@.take(32) == block@);
    }
}

/// Builds the executor's argument list from `entries`, one builder call for
/// each entry, in order.
pub fn build_argument_list(entries: &Vec<Argument>) -> (list: ArgumentList)
    ensures
        list_holds(list, entries@),
{
    let mut builder = ArgBuilder::new();
    let mut i: usize = 0;
    while i < entries.len()
        invariant
            i <= entries.len(),
            builder_refs(builder) == Seq::new(i as nat, |k: int| ref_at(entries@, k)),
            builder_byte_arrays(builder) == byte_arrays(entries@.take(i as int)),
            builder_wide_values(builder) == wide_values(entries@.take(i as int)),
            builder_accounts(builder) == references(entries@.take(i as int)).map_values(
                |r: StorageReference| account_of(r),
            ),
        decreases entries.len() - i,
    {
        proof {
            assert(entries@.take(i + 1).drop_last() == entries@.take(i as int));
        }
        let ghost before = builder_refs(builder);
        builder = match entries[i] {
            Argument::PlaintextU128(v) => builder.plaintext_u128(v),
            Argument::X25519Pubkey(k) => builder.x25519_pubkey(k),
            Argument::InlineCiphertext(c) => builder.encrypted_u8(c),
            Argument::StorageReference(r) => builder_account(builder, r.address, r.offset, r.length),
        };
        proof {
            assert(builder_refs(builder) == before.push(ref_at(entries@, i as int)));
            assert(builder_refs(builder) =~= Seq::new(
                (i + 1) as nat,
                |k: int| ref_at(entries@, k),
            ));
            assert(builder_accounts(builder) =~= references(entries@.take(i + 1)).map_values(
                |r: StorageReference| account_of(r),
            ));
        }
        i += 1;
    }
    proof {
        assert(entries@.take(entries.len() as int) == entries@);
    }
    builder.build()
}

} // verus!
