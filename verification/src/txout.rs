//! The transaction-output commitment layer: wraps the script-pubkey layer
//! with an output value. The value is observable from the host output and is
//! not committed to, so the proof never carries it.

use vstd::prelude::*;
use crate::bytes::bytes_eq;
use crate::container::{Error, Proof};
use crate::hashes::{Hash32, TweakFactor};
use crate::keys::Pubkey;
use crate::pubkey::factor_view;
use crate::script::PubkeyScript;
use crate::spk::{
    spk_embed_factor, spk_embed_spec, spk_reconstruct_spec, ScriptEncodeData, ScriptEncodeMethod,
    SpkCommitment, SpkContainer,
};

verus! {

/// A transaction output: a value in satoshis and a locking script.
#[derive(Debug)]
pub struct TxOut {
    /// The output value in satoshis.
    pub value: u64,
    /// The locking script of the output.
    pub script_pubkey: PubkeyScript,
}

impl Clone for TxOut {
    fn clone(&self) -> (r: Self)
        ensures
            r.value == self.value,
            r.script_pubkey@ == self.script_pubkey@,
    {
        TxOut { value: self.value, script_pubkey: self.script_pubkey.clone() }
    }
}

impl PartialEq for TxOut {
    fn eq(&self, other: &Self) -> (r: bool) {
        self.value == other.value && bytes_eq(
            self.script_pubkey.as_bytes(),
            other.script_pubkey.as_bytes(),
        )
    }
}

impl vstd::std_specs::cmp::PartialEqSpecImpl for TxOut {
    open spec fn obeys_eq_spec() -> bool {
        true
    }

    open spec fn eq_spec(&self, other: &TxOut) -> bool {
        self.value == other.value && self.script_pubkey@ == other.script_pubkey@
    }
}

/// Working state for one transaction-output commitment attempt.
#[derive(Debug)]
pub struct TxoutContainer {
    /// The output value, carried unchanged.
    pub value: u64,
    /// The nested script-pubkey container.
    pub script_container: SpkContainer,
    /// The tweaking factor, recorded by a successful embed-commit call.
    pub tweaking_factor: Option<TweakFactor>,
}

impl TxoutContainer {
    /// Assembles a fresh container from its parts.
    pub fn construct(
        protocol_tag: &Hash32,
        value: u64,
        pubkey: Pubkey,
        source: ScriptEncodeData,
        method: ScriptEncodeMethod,
    ) -> (r: TxoutContainer)
        ensures
            r.value == value,
            r.script_container.pubkey@ == pubkey@,
            r.script_container.method == method,
            r.script_container.source@ == source@,
            r.script_container.tag@ == protocol_tag@,
            r.script_container.tweaking_factor is None,
            r.tweaking_factor is None,
    {
        TxoutContainer {
            value,
            script_container: SpkContainer::construct(protocol_tag, pubkey, source, method),
            tweaking_factor: None,
        }
    }

    /// Rebuilds the container from a proof and the observed output: the
    /// value is taken from the host, the script container from the host's
    /// locking script.
    pub fn reconstruct(proof: &Proof, supplement: &Hash32, host: &TxOut) -> (r: Result<
        TxoutContainer,
        Error,
    >)
        ensures
            match r {
                Result::Ok(c) => spk_reconstruct_spec(
                    proof.pubkey@,
                    proof.source@,
                    host.script_pubkey@,
                ) matches Result::Ok(m) && c.value == host.value && c.script_container.method
                    == m.0 && c.script_container.source@ == m.1 && c.script_container.pubkey@
                    == proof.pubkey@ && c.script_container.tag@ == supplement@
                    && c.script_container.tweaking_factor is None && c.tweaking_factor is None,
                Result::Err(e) => spk_reconstruct_spec(
                    proof.pubkey@,
                    proof.source@,
                    host.script_pubkey@,
                ) == Result::Err::<(ScriptEncodeMethod, crate::spk::SourceView), Error>(e),
            },
    {
        match SpkContainer::reconstruct(proof, supplement, &host.script_pubkey) {
            Result::Err(e) => Result::Err(e),
            Result::Ok(script_container) => Result::Ok(
                TxoutContainer { value: host.value, script_container, tweaking_factor: None },
            ),
        }
    }

    /// Splits the container into its proof and the protocol tag, forwarding
    /// to the nested script container: the value is not part of the proof.
    pub fn deconstruct(self) -> (r: (Proof, Hash32))
        ensures
            r.0.pubkey@ == self.script_container.pubkey@,
            r.0.source@ == self.script_container.source@,
            r.1@ == self.script_container.tag@,
    {
        self.script_container.deconstruct()
    }

    /// The proof of this container.
    pub fn to_proof(&self) -> (r: Proof)
        ensures
            r.pubkey@ == self.script_container.pubkey@,
            r.source@ == self.script_container.source@,
    {
        self.script_container.to_proof()
    }

    /// The proof of this container, consuming it.
    pub fn into_proof(self) -> (r: Proof)
        ensures
            r.pubkey@ == self.script_container.pubkey@,
            r.source@ == self.script_container.source@,
    {
        self.script_container.into_proof()
    }
}

impl Clone for TxoutContainer {
    fn clone(&self) -> (r: Self)
        ensures
            r.value == self.value,
            r.script_container.pubkey@ == self.script_container.pubkey@,
            r.script_container.method == self.script_container.method,
            r.script_container.source@ == self.script_container.source@,
            r.script_container.tag@ == self.script_container.tag@,
            factor_view(r.script_container.tweaking_factor) == factor_view(
                self.script_container.tweaking_factor,
            ),
            factor_view(r.tweaking_factor) == factor_view(self.tweaking_factor),
    {
        TxoutContainer {
            value: self.value,
            script_container: self.script_container.clone(),
            tweaking_factor: match &self.tweaking_factor {
                Option::Some(f) => Option::Some(f.clone()),
                Option::None => Option::None,
            },
        }
    }
}

/// A whole transaction output holding a commitment.
#[derive(Debug)]
pub struct TxoutCommitment(pub TxOut);

impl Clone for TxoutCommitment {
    fn clone(&self) -> (r: Self)
        ensures
            r.0.value == self.0.value,
            r.0.script_pubkey@ == self.0.script_pubkey@,
    {
        TxoutCommitment(self.0.clone())
    }
}

impl TxoutCommitment {
    /// Commits to the message through the script-pubkey layer and
    /// reassembles the output from the carried value and the committed
    /// locking script, copying the tweaking factor up.
    pub fn embed_commit(container: &mut TxoutContainer, msg: &[u8]) -> (r: Result<
        TxoutCommitment,
        Error,
    >)
        requires
            !(old(container).script_container.source@ is Taproot
                && old(container).script_container.method is Taproot),
        ensures
            final(container).value == old(container).value,
            final(container).script_container.pubkey@ == old(container).script_container.pubkey@,
            final(container).script_container.method == old(container).script_container.method,
            final(container).script_container.source@ == old(container).script_container.source@,
            final(container).script_container.tag@ == old(container).script_container.tag@,
            match r {
                Result::Ok(c) => spk_embed_spec(
                    old(container).script_container.pubkey@,
                    old(container).script_container.method,
                    old(container).script_container.source@,
                    old(container).script_container.tag@,
                    msg@,
                ) matches Result::Ok(o) && c.0.value == old(container).value
                    && c.0.script_pubkey@ == o.1 && factor_view(final(container).tweaking_factor)
                    == Option::Some(o.0) && factor_view(
                    final(container).script_container.tweaking_factor,
                ) == Option::Some(o.0),
                Result::Err(e) => spk_embed_spec(
                    old(container).script_container.pubkey@,
                    old(container).script_container.method,
                    old(container).script_container.source@,
                    old(container).script_container.tag@,
                    msg@,
                ) == Result::Err::<(Seq<u8>, Seq<u8>), Error>(e) && factor_view(
                    final(container).tweaking_factor,
                ) == factor_view(old(container).tweaking_factor) && factor_view(
                    final(container).script_container.tweaking_factor,
                ) == (match spk_embed_factor(
                    old(container).script_container.pubkey@,
                    old(container).script_container.source@,
                    old(container).script_container.tag@,
                    msg@,
                ) {
                    Option::Some(f) => Option::Some(f),
                    Option::None => factor_view(old(container).script_container.tweaking_factor),
                }),
            },
    {
        match SpkCommitment::embed_commit(&mut container.script_container, msg) {
            Result::Err(e) => Result::Err(e),
            Result::Ok(cmt) => {
                let commitment = TxOut { value: container.value, script_pubkey: cmt.0 };
                match &container.script_container.tweaking_factor {
                    Option::Some(f) => {
                        container.tweaking_factor = Option::Some(f.clone());
                    },
                    Option::None => {
                    },
                }
                Result::Ok(TxoutCommitment(commitment))
            },
        }
    }

    /// Verifies by re-running embed-commit on a copy of the container and
    /// comparing the whole output; a failing commit surfaces as the error.
    pub fn verify(&self, container: &TxoutContainer, msg: &[u8]) -> (r: Result<bool, Error>)
        requires
            !(container.script_container.source@ is Taproot
                && container.script_container.method is Taproot),
        ensures
            match r {
                Result::Ok(b) => spk_embed_spec(
                    container.script_container.pubkey@,
                    container.script_container.method,
                    container.script_container.source@,
                    container.script_container.tag@,
                    msg@,
                ) matches Result::Ok(o) && b == (self.0.value == container.value
                    && self.0.script_pubkey@ == o.1),
                Result::Err(e) => spk_embed_spec(
                    container.script_container.pubkey@,
                    container.script_container.method,
                    container.script_container.source@,
                    container.script_container.tag@,
                    msg@,
                ) == Result::Err::<(Seq<u8>, Seq<u8>), Error>(e),
            },
    {
        let mut c = container.clone();
        match TxoutCommitment::embed_commit(&mut c, msg) {
            Result::Err(e) => Result::Err(e),
            Result::Ok(cmt) => {
                let scripts_match = bytes_eq(
                    cmt.0.script_pubkey.as_bytes(),
                    self.0.script_pubkey.as_bytes(),
                );
                Result::Ok(self.0.value == container.value && scripts_match)
            },
        }
    }
}

} // verus!
