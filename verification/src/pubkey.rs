//! The public-key commitment layer: one key committed through the base
//! procedure on the one-key set holding it.

use vstd::prelude::*;
use crate::bytes::bytes_eq;
use crate::container::Proof;
use crate::hashes::{hmac_sha256_of, Hash32, TweakFactor};
use crate::keys::{insert_sorted, remove_sorted, tweak_of, Keyset, Pubkey};
use crate::lnpbp1;
use crate::lnpbp1::{commit_spec, factor_payload, sum_fold};

verus! {

/// What the single-key commitment determines: the tweaking factor and the
/// tweaked key.
pub open spec fn pubkey_commit_spec(pk: Seq<u8>, tag: Seq<u8>, msg: Seq<u8>) -> Result<
    (Seq<u8>, Seq<u8>),
    lnpbp1::Error,
> {
    let f = hmac_sha256_of(pk, factor_payload(tag, msg))@;
    match tweak_of(pk, f) {
        Option::None => Result::Err(lnpbp1::Error::InvalidTweak),
        Option::Some(t2) => Result::Ok((f, t2@)),
    }
}

/// The bytes of a recorded tweaking factor.
pub open spec fn factor_view(f: Option<TweakFactor>) -> Option<Seq<u8>> {
    match f {
        Option::Some(x) => Option::Some(x@),
        Option::None => Option::None,
    }
}

/// Law: on a one-key set the base procedure degenerates to the single-key
/// commitment — the key sum is the key itself, and the updated set holds
/// exactly the tweaked key.
pub proof fn lemma_single_key_commit(pk: Seq<u8>, tag: Seq<u8>, msg: Seq<u8>)
    ensures
        commit_spec(seq![pk], pk, tag, msg) == match pubkey_commit_spec(pk, tag, msg) {
            Result::Ok(o) => Result::Ok::<(Seq<u8>, Seq<u8>, Seq<Seq<u8>>), lnpbp1::Error>(
                (o.0, o.1, seq![o.1]),
            ),
            Result::Err(e) => Result::Err::<(Seq<u8>, Seq<u8>, Seq<Seq<u8>>), lnpbp1::Error>(e),
        },
{
    let ks = seq![pk];
    assert(ks[0] == pk);
    assert(ks.contains(pk));
    assert(ks.drop_first() =~= Seq::<Seq<u8>>::empty());
    assert(remove_sorted(ks, pk) =~= Seq::<Seq<u8>>::empty());
    assert(sum_fold(pk, remove_sorted(ks, pk)) == Option::Some(pk));
    match tweak_of(pk, hmac_sha256_of(pk, factor_payload(tag, msg))@) {
        Option::Some(t2) => {
            assert(insert_sorted(remove_sorted(ks, pk), t2@) =~= seq![t2@]);
        },
        Option::None => {
        },
    }
}

/// Working state for one public-key commitment attempt.
#[derive(Debug)]
pub struct PubkeyContainer {
    /// The original public key: the host of the commitment.
    pub pubkey: Pubkey,
    /// Single SHA-256 hash of the protocol-specific tag.
    pub tag: Hash32,
    /// The tweaking factor, recorded by a successful embed-commit call.
    pub tweaking_factor: Option<TweakFactor>,
}

impl PubkeyContainer {
    /// Rebuilds the container from a proof: the proof's key alone suffices,
    /// so no host object is consulted at this layer.
    pub fn reconstruct(proof: &Proof, supplement: &Hash32) -> (r: Result<
        PubkeyContainer,
        crate::container::Error,
    >)
        ensures
            r matches Result::Ok(c) && c.pubkey@ == proof.pubkey@ && c.tag@ == supplement@
                && c.tweaking_factor is None,
    {
        Result::Ok(
            PubkeyContainer {
                pubkey: proof.pubkey.clone(),
                tag: supplement.clone(),
                tweaking_factor: None,
            },
        )
    }

    /// Splits the container into its proof and the protocol tag.
    pub fn deconstruct(self) -> (r: (Proof, Hash32))
        ensures
            r.0.pubkey@ == self.pubkey@,
            r.0.source@ is SinglePubkey,
            r.1@ == self.tag@,
    {
        (Proof::from(self.pubkey), self.tag)
    }

    /// The proof of this container: the original public key itself.
    pub fn to_proof(&self) -> (r: Proof)
        ensures
            r.pubkey@ == self.pubkey@,
            r.source@ is SinglePubkey,
    {
        Proof::from(self.pubkey.clone())
    }

    /// The proof of this container, consuming it.
    pub fn into_proof(self) -> (r: Proof)
        ensures
            r.pubkey@ == self.pubkey@,
            r.source@ is SinglePubkey,
    {
        Proof::from(self.pubkey)
    }
}

impl Clone for PubkeyContainer {
    fn clone(&self) -> (r: Self)
        ensures
            r.pubkey@ == self.pubkey@,
            r.tag@ == self.tag@,
            factor_view(r.tweaking_factor) == factor_view(self.tweaking_factor),
    {
        PubkeyContainer {
            pubkey: self.pubkey.clone(),
            tag: self.tag.clone(),
            tweaking_factor: match &self.tweaking_factor {
                Option::Some(f) => Option::Some(f.clone()),
                Option::None => Option::None,
            },
        }
    }
}

/// A public key holding a commitment: the tweaked key.
#[derive(Debug)]
pub struct PubkeyCommitment(pub Pubkey);

impl Clone for PubkeyCommitment {
    fn clone(&self) -> (r: Self)
        ensures
            r.0@ == self.0@,
    {
        PubkeyCommitment(self.0.clone())
    }
}

impl PartialEq for PubkeyCommitment {
    fn eq(&self, other: &Self) -> (r: bool) {
        bytes_eq(self.0.as_bytes(), other.0.as_bytes())
    }
}

impl vstd::std_specs::cmp::PartialEqSpecImpl for PubkeyCommitment {
    open spec fn obeys_eq_spec() -> bool {
        true
    }

    open spec fn eq_spec(&self, other: &PubkeyCommitment) -> bool {
        self.0@ == other.0@
    }
}

impl PubkeyCommitment {
    /// Commits to the message by running the base procedure on the one-key
    /// set holding the container's key, recording the tweaking factor in the
    /// container and returning the tweaked key.
    pub fn embed_commit(pubkey_container: &mut PubkeyContainer, msg: &[u8]) -> (r: Result<
        PubkeyCommitment,
        lnpbp1::Error,
    >)
        ensures
            final(pubkey_container).pubkey@ == old(pubkey_container).pubkey@,
            final(pubkey_container).tag@ == old(pubkey_container).tag@,
            match r {
                Result::Ok(c) => pubkey_commit_spec(
                    old(pubkey_container).pubkey@,
                    old(pubkey_container).tag@,
                    msg@,
                ) matches Result::Ok(o) && c.0@ == o.1 && factor_view(
                    final(pubkey_container).tweaking_factor,
                ) == Option::Some(o.0),
                Result::Err(e) => pubkey_commit_spec(
                    old(pubkey_container).pubkey@,
                    old(pubkey_container).tag@,
                    msg@,
                ) == Result::Err::<(Seq<u8>, Seq<u8>), lnpbp1::Error>(e) && factor_view(
                    final(pubkey_container).tweaking_factor,
                ) == factor_view(old(pubkey_container).tweaking_factor),
            },
    {
        let mut keyset = Keyset::new();
        let _ = keyset.insert(pubkey_container.pubkey.clone());
        proof {
            assert(keyset@ =~= seq![pubkey_container.pubkey@]);
        }
        let mut pubkey = pubkey_container.pubkey.clone();
        let r = lnpbp1::commit(&mut keyset, &mut pubkey, &pubkey_container.tag, msg);
        proof {
            lemma_single_key_commit(
                old(pubkey_container).pubkey@,
                old(pubkey_container).tag@,
                msg@,
            );
        }
        match r {
            Result::Err(e) => Result::Err(e),
            Result::Ok(f) => {
                pubkey_container.tweaking_factor = Some(f);
                Result::Ok(PubkeyCommitment(pubkey))
            },
        }
    }

    /// Verifies by re-running embed-commit on a copy of the container and
    /// comparing the produced key; a failing commit surfaces as the error,
    /// never as a silent `false`.
    pub fn verify(&self, container: &PubkeyContainer, msg: &[u8]) -> (r: Result<
        bool,
        lnpbp1::Error,
    >)
        ensures
            match r {
                Result::Ok(b) => pubkey_commit_spec(container.pubkey@, container.tag@, msg@)
                    matches Result::Ok(o) && b == (self.0@ == o.1),
                Result::Err(e) => pubkey_commit_spec(container.pubkey@, container.tag@, msg@)
                    == Result::Err::<(Seq<u8>, Seq<u8>), lnpbp1::Error>(e),
            },
    {
        let mut c = container.clone();
        match PubkeyCommitment::embed_commit(&mut c, msg) {
            Result::Err(e) => Result::Err(e),
            Result::Ok(cmt) => Result::Ok(bytes_eq(cmt.0.as_bytes(), self.0.as_bytes())),
        }
    }
}

} // verus!
