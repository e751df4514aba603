//! Hash primitives consumed as black boxes, and the fixed-size byte types
//! built on them: 32-byte hashes (protocol tags, script roots) and 32-byte
//! tweaking factors.

use vstd::prelude::*;
use bitcoin::hashes::{HashEngine, Hmac, HmacEngine};
use crate::bytes::{bytes_eq, copy_bytes};

verus! {

/// The digest that SHA-256 assigns to a byte string.
pub uninterp spec fn sha256_of(data: Seq<u8>) -> [u8; 32];

/// The digest that HMAC-SHA256 assigns to a byte string under a key.
pub uninterp spec fn hmac_sha256_of(key: Seq<u8>, data: Seq<u8>) -> [u8; 32];

/// The digest that HASH160 (RIPEMD-160 of SHA-256) assigns to a byte string.
pub uninterp spec fn hash160_of(data: Seq<u8>) -> [u8; 20];

/// Relies on bitcoin::hashes::sha256::Hash::hash: the 32-byte SHA-256 digest
/// of the input, a function of the input bytes alone.
#[verifier::external_body]
pub(crate) fn sha256(data: &[u8]) -> (r: Vec<u8>)
    ensures
        r@ == sha256_of(data@)@,
{
    let h = <bitcoin::hashes::sha256::Hash as bitcoin::hashes::Hash>::hash(data);
    <bitcoin::hashes::sha256::Hash as bitcoin::hashes::Hash>::into_inner(h).to_vec()
}

/// Relies on bitcoin::hashes::HmacEngine and Hmac::from_engine: the 32-byte
/// HMAC-SHA256 of `data` under `key`, a function of the two byte strings
/// alone. Feeding the data in one piece equals feeding it piecewise, since
/// the engine consumes a byte stream.
#[verifier::external_body]
pub(crate) fn hmac_sha256(key: &[u8], data: &[u8]) -> (r: Vec<u8>)
    ensures
        r@ == hmac_sha256_of(key@, data@)@,
{
    let mut engine: HmacEngine<bitcoin::hashes::sha256::Hash> = HmacEngine::new(key);
    engine.input(data);
    let h = <Hmac<bitcoin::hashes::sha256::Hash> as bitcoin::hashes::Hash>::from_engine(engine);
    <Hmac<bitcoin::hashes::sha256::Hash> as bitcoin::hashes::Hash>::into_inner(h).to_vec()
}

/// Relies on bitcoin::hashes::hash160::Hash::hash: the 20-byte
/// RIPEMD160-of-SHA256 digest of the input, a function of the input bytes
/// alone.
#[verifier::external_body]
pub(crate) fn hash160(data: &[u8]) -> (r: Vec<u8>)
    ensures
        r@ == hash160_of(data@)@,
{
    let h = <bitcoin::hashes::hash160::Hash as bitcoin::hashes::Hash>::hash(data);
    <bitcoin::hashes::hash160::Hash as bitcoin::hashes::Hash>::into_inner(h).to_vec()
}

/// A 32-byte hash value: a protocol tag or a taproot script root.
#[derive(Debug)]
pub struct Hash32 {
    bytes: Vec<u8>,
}

impl View for Hash32 {
    type V = Seq<u8>;

    closed spec fn view(&self) -> Seq<u8> {
        self.bytes@
    }
}

impl Hash32 {
    #[verifier::type_invariant]
    spec fn inv(self) -> bool {
        self.bytes@.len() == 32
    }

    /// Wraps 32 bytes as a hash value; rejects any other length.
    pub fn from_vec(bytes: Vec<u8>) -> (r: Option<Hash32>)
        ensures
            match r {
                Some(h) => h@ == bytes@ && bytes@.len() == 32,
                None => bytes@.len() != 32,
            },
    {
        if bytes.len() == 32 {
            Some(Hash32 { bytes })
        } else {
            None
        }
    }

    /// The SHA-256 hash of the given bytes, as a hash value.
    pub fn new_sha256(data: &[u8]) -> (r: Hash32)
        ensures
            r@ == sha256_of(data@)@,
    {
        Hash32 { bytes: sha256(data) }
    }

    /// The raw 32 bytes.
    pub fn as_bytes(&self) -> (r: &Vec<u8>)
        ensures
            r@ == self@,
    {
        &self.bytes
    }

}

impl Clone for Hash32 {
    fn clone(&self) -> (r: Self)
        ensures
            r@ == self@,
    {
        proof {
            use_type_invariant(self);
        }
        Hash32 { bytes: copy_bytes(&self.bytes) }
    }
}

impl PartialEq for Hash32 {
    fn eq(&self, other: &Self) -> (r: bool) {
        bytes_eq(&self.bytes, &other.bytes)
    }
}

impl vstd::std_specs::cmp::PartialEqSpecImpl for Hash32 {
    open spec fn obeys_eq_spec() -> bool {
        true
    }

    open spec fn eq_spec(&self, other: &Hash32) -> bool {
        self@ == other@
    }
}

/// A 32-byte HMAC-SHA256 output used to shift a public key.
#[derive(Debug)]
pub struct TweakFactor {
    bytes: Vec<u8>,
}

impl View for TweakFactor {
    type V = Seq<u8>;

    closed spec fn view(&self) -> Seq<u8> {
        self.bytes@
    }
}

impl TweakFactor {
    #[verifier::type_invariant]
    spec fn inv(self) -> bool {
        self.bytes@.len() == 32
    }

    /// Wraps 32 bytes as a tweaking factor; rejects any other length.
    pub fn from_vec(bytes: Vec<u8>) -> (r: Option<TweakFactor>)
        ensures
            match r {
                Some(f) => f@ == bytes@ && bytes@.len() == 32,
                None => bytes@.len() != 32,
            },
    {
        if bytes.len() == 32 {
            Some(TweakFactor { bytes })
        } else {
            None
        }
    }

    /// The raw 32 bytes.
    pub fn as_bytes(&self) -> (r: &Vec<u8>)
        ensures
            r@ == self@,
    {
        &self.bytes
    }

    /// Wraps bytes already known to be 32 long.
    pub(crate) fn from_vec_exact(bytes: Vec<u8>) -> (r: TweakFactor)
        requires
            bytes@.len() == 32,
        ensures
            r@ == bytes@,
    {
        TweakFactor { bytes }
    }
}

impl Clone for TweakFactor {
    fn clone(&self) -> (r: Self)
        ensures
            r@ == self@,
    {
        proof {
            use_type_invariant(self);
        }
        TweakFactor { bytes: copy_bytes(&self.bytes) }
    }
}

impl PartialEq for TweakFactor {
    fn eq(&self, other: &Self) -> (r: bool) {
        bytes_eq(&self.bytes, &other.bytes)
    }
}

impl vstd::std_specs::cmp::PartialEqSpecImpl for TweakFactor {
    open spec fn obeys_eq_spec() -> bool {
        true
    }

    open spec fn eq_spec(&self, other: &TweakFactor) -> bool {
        self@ == other@
    }
}

} // verus!
