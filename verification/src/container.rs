//! The shared pieces of the layered commitment scheme: the error kinds and
//! the minimal proof that lets a container be rebuilt from an on-chain
//! object.

use vstd::prelude::*;
use crate::keys::Pubkey;
use crate::lnpbp1;
use crate::spk::ScriptEncodeData;

verus! {

/// Errors of the layered commitment scheme.
#[derive(Clone, Copy, PartialEq, Eq, Structural, Debug)]
pub enum Error {
    /// The key set does not include the target public key.
    NotKeysetMember,
    /// Elliptic-curve summation of the key set reached the point at infinity.
    SumInfiniteResult,
    /// The tweaking factor is out of range, or shifts the target key to an
    /// invalid point.
    InvalidTweak,
    /// The proof's source data is inconsistent with the resolved encoding
    /// method, or does not match the host script.
    InvalidProofStructure,
    /// The tweaked key cannot stand in the restricted OP_RETURN push form:
    /// its compressed serialization does not begin with the byte 0x02.
    InvalidOpReturnKey,
}

/// How a base-procedure error surfaces through the layered scheme.
pub open spec fn lift_error(e: lnpbp1::Error) -> Error {
    match e {
        lnpbp1::Error::NotKeysetMember => Error::NotKeysetMember,
        lnpbp1::Error::SumInfiniteResult => Error::SumInfiniteResult,
        lnpbp1::Error::InvalidTweak => Error::InvalidTweak,
    }
}

impl From<lnpbp1::Error> for Error {
    fn from(e: lnpbp1::Error) -> (r: Error) {
        match e {
            lnpbp1::Error::NotKeysetMember => Error::NotKeysetMember,
            lnpbp1::Error::SumInfiniteResult => Error::SumInfiniteResult,
            lnpbp1::Error::InvalidTweak => Error::InvalidTweak,
        }
    }
}

impl vstd::std_specs::convert::FromSpecImpl<lnpbp1::Error> for Error {
    open spec fn obeys_from_spec() -> bool {
        true
    }

    open spec fn from_spec(e: lnpbp1::Error) -> Error {
        lift_error(e)
    }
}

/// The minimal reconstructable witness of a commitment: the original
/// (untweaked) public key together with the script-encoding source data.
#[derive(Debug)]
pub struct Proof {
    /// The original public key before the tweak was applied.
    pub pubkey: Pubkey,
    /// The source data from which the committed script-pubkey was built.
    pub source: ScriptEncodeData,
}

/// The proof of a bare single-key commitment: the key itself, with
/// single-pubkey source data.
pub open spec fn proof_of_pubkey(pubkey: Pubkey) -> Proof {
    Proof { pubkey, source: ScriptEncodeData::SinglePubkey }
}

impl From<Pubkey> for Proof {
    fn from(pubkey: Pubkey) -> (r: Proof) {
        Proof { pubkey, source: ScriptEncodeData::SinglePubkey }
    }
}

impl vstd::std_specs::convert::FromSpecImpl<Pubkey> for Proof {
    open spec fn obeys_from_spec() -> bool {
        true
    }

    open spec fn from_spec(pubkey: Pubkey) -> Proof {
        proof_of_pubkey(pubkey)
    }
}

impl Clone for Proof {
    fn clone(&self) -> (r: Self)
        ensures
            r.pubkey@ == self.pubkey@,
            r.source@ == self.source@,
    {
        Proof { pubkey: self.pubkey.clone(), source: self.source.clone() }
    }
}

} // verus!
