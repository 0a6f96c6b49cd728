//! The calls this library makes into the executor's client crates. Nothing
//! here is proved: each contract restates what the called function does.

use vstd::prelude::*;
use arcium_anchor::arg_builder::ArgBuilder;
use arcium_client::idl::arcium::types::ArgumentList;

verus! {

#[verifier::external_type_specification]
#[verifier::external_body]
pub struct ExArgBuilder(ArgBuilder);

#[verifier::external_type_specification]
#[verifier::external_body]
pub struct ExArgumentList(ArgumentList);

/// The argument references a builder holds, in order: the position of the
/// reference's variant in the executor's interface, then the index it
/// carries.
pub uninterp spec fn builder_refs(b: ArgBuilder) -> Seq<(u8, u8)>;

/// The 32-byte values a builder holds, in order.
pub uninterp spec fn builder_byte_arrays(b: ArgBuilder) -> Seq<[u8; 32]>;

/// The 128-bit values a builder holds, in order.
pub uninterp spec fn builder_wide_values(b: ArgBuilder) -> Seq<u128>;

/// The account references a builder holds, in order: address, offset,
/// length.
pub uninterp spec fn builder_accounts(b: ArgBuilder) -> Seq<([u8; 32], u32, u32)>;

/// The argument references of a finished list, as `builder_refs` gives them.
pub uninterp spec fn list_refs(l: ArgumentList) -> Seq<(u8, u8)>;

/// The 32-byte values of a finished list.
pub uninterp spec fn list_byte_arrays(l: ArgumentList) -> Seq<[u8; 32]>;

/// The 128-bit values of a finished list.
pub uninterp spec fn list_wide_values(l: ArgumentList) -> Seq<u128>;

/// The account references of a finished list.
pub uninterp spec fn list_accounts(l: ArgumentList) -> Seq<([u8; 32], u32, u32)>;

/// Position of `ArgumentRef::PlaintextU128` among the variants.
pub const REF_PLAINTEXT_U128: u8 = 6;

/// Position of `ArgumentRef::EncryptedU8` among the variants.
pub const REF_ENCRYPTED_U8: u8 = 9;

/// Position of `ArgumentRef::X25519Pubkey` among the variants.
pub const REF_X25519_PUBKEY: u8 = 15;

/// Position of `ArgumentRef::Account` among the variants.
pub const REF_ACCOUNT: u8 = 17;

/// The index a new entry gets in a pool that holds `len` values: the pool's
/// length, cut to eight bits.
pub open spec fn pool_index(len: nat) -> u8 {
    (len % 256) as u8
}

/// `ArgBuilder::new`: a builder that holds nothing.
pub assume_specification[ ArgBuilder::new ]() -> (b: ArgBuilder)
    ensures
        builder_refs(b) == Seq::<(u8, u8)>::empty(),
        builder_byte_arrays(b) == Seq::<[u8; 32]>::empty(),
        builder_wide_values(b) == Seq::<u128>::empty(),
        builder_accounts(b) == Seq::<([u8; 32], u32, u32)>::empty(),
;

/// `ArgBuilder::plaintext_u128`: appends the value to the 128-bit values
/// and a `PlaintextU128` reference to where it went.
pub assume_specification[ ArgBuilder::plaintext_u128 ](b: ArgBuilder, value: u128) -> (r:
    ArgBuilder)
    ensures
        builder_refs(r) == builder_refs(b).push(
            (REF_PLAINTEXT_U128, pool_index(builder_wide_values(b).len())),
        ),
        builder_wide_values(r) == builder_wide_values(b).push(value),
        builder_byte_arrays(r) == builder_byte_arrays(b),
        builder_accounts(r) == builder_accounts(b),
;

/// `ArgBuilder::x25519_pubkey`: appends the key to the 32-byte values and
/// an `X25519Pubkey` reference to where it went.
pub assume_specification[ ArgBuilder::x25519_pubkey ](b: ArgBuilder, value: [u8; 32]) -> (r:
    ArgBuilder)
    ensures
        builder_refs(r) == builder_refs(b).push(
            (REF_X25519_PUBKEY, pool_index(builder_byte_arrays(b).len())),
        ),
        builder_byte_arrays(r) == builder_byte_arrays(b).push(value),
        builder_wide_values(r) == builder_wide_values(b),
        builder_accounts(r) == builder_accounts(b),
;

/// `ArgBuilder::encrypted_u8`: appends the ciphertext to the 32-byte values
/// and an `EncryptedU8` reference to where it went.
pub assume_specification[ ArgBuilder::encrypted_u8 ](b: ArgBuilder, value: [u8; 32]) -> (r:
    ArgBuilder)
    ensures
        builder_refs(r) == builder_refs(b).push(
            (REF_ENCRYPTED_U8, pool_index(builder_byte_arrays(b).len())),
        ),
        builder_byte_arrays(r) == builder_byte_arrays(b).push(value),
        builder_wide_values(r) == builder_wide_values(b),
        builder_accounts(r) == builder_accounts(b),
;

/// `ArgBuilder::account`: appends the account reference and an `Account`
/// reference to where it went. The address is handed over as a `Pubkey`.
#[verifier::external_body]
pub(crate) fn builder_account(b: ArgBuilder, address: [u8; 32], offset: u32, length: u32) -> (r:
    ArgBuilder)
    ensures
        builder_refs(r) == builder_refs(b).push(
            (REF_ACCOUNT, pool_index(builder_accounts(b).len())),
        ),
        builder_accounts(r) == builder_accounts(b).push((address, offset, length)),
        builder_byte_arrays(r) == builder_byte_arrays(b),
        builder_wide_values(r) == builder_wide_values(b),
{
    b.account(anchor_lang::prelude::Pubkey::new_from_array(address), offset, length)
}

/// `ArgBuilder::build`: the list holds what the builder held.
pub assume_specification[ ArgBuilder::build ](b: ArgBuilder) -> (l: ArgumentList)
    ensures
        list_refs(l) == builder_refs(b),
        list_byte_arrays(l) == builder_byte_arrays(b),
        list_wide_values(l) == builder_wide_values(b),
        list_accounts(l) == builder_accounts(b),
;

/// What `comp_def_offset` returns for a computation's name: the first four
/// bytes of the name's SHA-256 digest, read as a little-endian number.
pub uninterp spec fn kind_offset(name: Seq<char>) -> u32;

/// `arcium_anchor::comp_def_offset`: the number under which the executor
/// files the computation called `name`.
#[verifier::external_body]
pub(crate) fn comp_def_offset(name: &str) -> (offset: u32)
    ensures
        offset == kind_offset(name@),
{
    arcium_anchor::comp_def_offset(name)
}

/// Whether `signature` is a BLS signature over `message` that the
/// compressed public key `key` accepts, under the SHA-256 normalised
/// hash-to-curve scheme.
pub uninterp spec fn bls_accepts(key: Seq<u8>, message: Seq<u8>, signature: Seq<u8>) -> bool;

/// `G2CompressedPoint::verify_signature`, with the key, the message and the
/// signature as bytes. Any error of the check counts as not accepted.
#[verifier::external_body]
pub(crate) fn bls_verify(key: &[u8; 64], message: &Vec<u8>, signature: &[u8; 64]) -> (accepted:
    bool)
    ensures
        accepted == bls_accepts(key@, message@, signature@),
{
    let key = solana_alt_bn128_bls::G2CompressedPoint(*key);
    let signature = solana_alt_bn128_bls::G1Point(*signature);
    key.verify_signature::<solana_alt_bn128_bls::Sha256Normalized, &[u8], solana_alt_bn128_bls::G1Point>(
        signature,
        message.as_slice(),
    ).is_ok()
}

} // verus!
