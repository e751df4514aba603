//! The taproot commitment layer: commits through the intermediate key and
//! carries the script-merkle-root unchanged. Assembling the final taproot
//! script-pubkey is out of scope for this layer.

use vstd::prelude::*;
use crate::bytes::bytes_eq;
use crate::container::{Error, Proof};
use crate::hashes::{Hash32, TweakFactor};
use crate::lnpbp1;
use crate::pubkey::{factor_view, pubkey_commit_spec, PubkeyCommitment, PubkeyContainer};
use crate::spk::{ScriptEncodeData, SourceView};

verus! {

/// Working state for one taproot commitment attempt.
#[derive(Debug)]
pub struct TaprootContainer {
    /// The hash of the taproot script merkle-tree root.
    pub script_root: Hash32,
    /// The internal key that receives the tweak.
    pub intermediate_key: crate::keys::Pubkey,
    /// Single SHA-256 hash of the protocol-specific tag.
    pub tag: Hash32,
    /// The tweaking factor, recorded by a successful embed-commit call.
    pub tweaking_factor: Option<TweakFactor>,
}

impl TaprootContainer {
    /// Rebuilds the container from a proof whose source is the taproot
    /// variant; any other source shape is a structural error.
    pub fn reconstruct(proof: &Proof, supplement: &Hash32) -> (r: Result<TaprootContainer, Error>)
        ensures
            match r {
                Result::Ok(c) => proof.source@ matches SourceView::Taproot(h) && c.script_root@
                    == h && c.intermediate_key@ == proof.pubkey@ && c.tag@ == supplement@
                    && c.tweaking_factor is None,
                Result::Err(e) => !(proof.source@ is Taproot) && e == Error::InvalidProofStructure,
            },
    {
        match &proof.source {
            ScriptEncodeData::Taproot(tapscript_root) => Result::Ok(
                TaprootContainer {
                    script_root: tapscript_root.clone(),
                    intermediate_key: proof.pubkey.clone(),
                    tag: supplement.clone(),
                    tweaking_factor: None,
                },
            ),
            _ => Result::Err(Error::InvalidProofStructure),
        }
    }

    /// Splits the container into its proof and the protocol tag.
    pub fn deconstruct(self) -> (r: (Proof, Hash32))
        ensures
            r.0.pubkey@ == self.intermediate_key@,
            r.0.source@ matches SourceView::Taproot(h) && h == self.script_root@,
            r.1@ == self.tag@,
    {
        (
            Proof {
                pubkey: self.intermediate_key,
                source: ScriptEncodeData::Taproot(self.script_root),
            },
            self.tag,
        )
    }

    /// The proof of this container: the intermediate key and the root hash.
    pub fn to_proof(&self) -> (r: Proof)
        ensures
            r.pubkey@ == self.intermediate_key@,
            r.source@ matches SourceView::Taproot(h) && h == self.script_root@,
    {
        Proof {
            pubkey: self.intermediate_key.clone(),
            source: ScriptEncodeData::Taproot(self.script_root.clone()),
        }
    }

    /// The proof of this container, consuming it.
    pub fn into_proof(self) -> (r: Proof)
        ensures
            r.pubkey@ == self.intermediate_key@,
            r.source@ matches SourceView::Taproot(h) && h == self.script_root@,
    {
        Proof {
            pubkey: self.intermediate_key,
            source: ScriptEncodeData::Taproot(self.script_root),
        }
    }
}

impl Clone for TaprootContainer {
    fn clone(&self) -> (r: Self)
        ensures
            r.script_root@ == self.script_root@,
            r.intermediate_key@ == self.intermediate_key@,
            r.tag@ == self.tag@,
            factor_view(r.tweaking_factor) == factor_view(self.tweaking_factor),
    {
        TaprootContainer {
            script_root: self.script_root.clone(),
            intermediate_key: self.intermediate_key.clone(),
            tag: self.tag.clone(),
            tweaking_factor: match &self.tweaking_factor {
                Option::Some(f) => Option::Some(f.clone()),
                Option::None => Option::None,
            },
        }
    }
}

/// A taproot commitment: the committed intermediate key together with the
/// unchanged script root.
#[derive(Debug)]
pub struct TaprootCommitment {
    /// The hash of the taproot script merkle-tree root, carried unchanged.
    pub script_root: Hash32,
    /// The committed (tweaked) intermediate key.
    pub intermediate_key_commitment: PubkeyCommitment,
}

impl Clone for TaprootCommitment {
    fn clone(&self) -> (r: Self)
        ensures
            r.script_root@ == self.script_root@,
            r.intermediate_key_commitment.0@ == self.intermediate_key_commitment.0@,
    {
        TaprootCommitment {
            script_root: self.script_root.clone(),
            intermediate_key_commitment: self.intermediate_key_commitment.clone(),
        }
    }
}

impl TaprootCommitment {
    /// Commits to the message through the public-key layer on the
    /// intermediate key, re-attaching the script root unchanged and copying
    /// the tweaking factor up into this container.
    pub fn embed_commit(container: &mut TaprootContainer, msg: &[u8]) -> (r: Result<
        TaprootCommitment,
        Error,
    >)
        ensures
            final(container).script_root@ == old(container).script_root@,
            final(container).intermediate_key@ == old(container).intermediate_key@,
            final(container).tag@ == old(container).tag@,
            match r {
                Result::Ok(c) => pubkey_commit_spec(
                    old(container).intermediate_key@,
                    old(container).tag@,
                    msg@,
                ) matches Result::Ok(o) && c.intermediate_key_commitment.0@ == o.1
                    && c.script_root@ == old(container).script_root@ && factor_view(
                    final(container).tweaking_factor,
                ) == Option::Some(o.0),
                Result::Err(e) => pubkey_commit_spec(
                    old(container).intermediate_key@,
                    old(container).tag@,
                    msg@,
                ) matches Result::Err(e0) && e == crate::container::lift_error(e0) && factor_view(
                    final(container).tweaking_factor,
                ) == factor_view(old(container).tweaking_factor),
            },
    {
        let mut pubkey_container = PubkeyContainer {
            pubkey: container.intermediate_key.clone(),
            tag: container.tag.clone(),
            tweaking_factor: None,
        };
        match PubkeyCommitment::embed_commit(&mut pubkey_container, msg) {
            Result::Err(e) => Result::Err(Error::from(e)),
            Result::Ok(cmt) => {
                container.tweaking_factor = pubkey_container.tweaking_factor;
                Result::Ok(
                    TaprootCommitment {
                        script_root: container.script_root.clone(),
                        intermediate_key_commitment: cmt,
                    },
                )
            },
        }
    }

    /// Verifies by re-running embed-commit on a copy of the container and
    /// comparing both parts; a failing commit surfaces as the error.
    pub fn verify(&self, container: &TaprootContainer, msg: &[u8]) -> (r: Result<bool, Error>)
        ensures
            match r {
                Result::Ok(b) => pubkey_commit_spec(
                    container.intermediate_key@,
                    container.tag@,
                    msg@,
                ) matches Result::Ok(o) && b == (self.intermediate_key_commitment.0@ == o.1
                    && self.script_root@ == container.script_root@),
                Result::Err(e) => pubkey_commit_spec(
                    container.intermediate_key@,
                    container.tag@,
                    msg@,
                ) matches Result::Err(e0) && e == crate::container::lift_error(e0),
            },
    {
        let mut c = container.clone();
        match TaprootCommitment::embed_commit(&mut c, msg) {
            Result::Err(e) => Result::Err(e),
            Result::Ok(cmt) => {
                let keys_match = bytes_eq(
                    cmt.intermediate_key_commitment.0.as_bytes(),
                    self.intermediate_key_commitment.0.as_bytes(),
                );
                let roots_match = bytes_eq(
                    self.script_root.as_bytes(),
                    container.script_root.as_bytes(),
                );
                Result::Ok(keys_match && roots_match)
            },
        }
    }
}

} // verus!
