//! Status codes stored in the plaintext part of deal and offer records.

use vstd::prelude::*;

verus! {

/// Status codes of a deal record.
pub struct DealStatus;

impl DealStatus {
    /// The deal is open and accepts offers.
    pub const OPEN: u8 = 0;

    /// The deal has been fully executed.
    pub const EXECUTED: u8 = 1;

    /// The deal has expired, possibly after partial fills.
    pub const EXPIRED: u8 = 2;

    /// Whether `code` is one of the three deal status codes.
    pub open spec fn spec_is_known(code: u8) -> bool {
        code == 0 || code == 1 || code == 2
    }

    /// Tests whether `code` is a deal status code.
    #[verifier::when_used_as_spec(spec_is_known)]
    pub fn is_known(code: u8) -> (known: bool)
        ensures
            known == Self::spec_is_known(code),
    {
        code == Self::OPEN || code == Self::EXECUTED || code == Self::EXPIRED
    }
}

/// Status codes of an offer record.
pub struct OfferStatus;

impl OfferStatus {
    /// The offer is open and awaits settlement.
    pub const OPEN: u8 = 0;

    /// The offer has been settled: executed, partially filled or refunded.
    pub const SETTLED: u8 = 1;

    /// Whether `code` is one of the two offer status codes.
    pub open spec fn spec_is_known(code: u8) -> bool {
        code == 0 || code == 1
    }

    /// Tests whether `code` is an offer status code.
    #[verifier::when_used_as_spec(spec_is_known)]
    pub fn is_known(code: u8) -> (known: bool)
        ensures
            known == Self::spec_is_known(code),
    {
        code == Self::OPEN || code == Self::SETTLED
    }
}

} // verus!
