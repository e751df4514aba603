//! The script-pubkey commitment layer: rendering a commitment into one of
//! the output-encoding methods, and recovering the method from an existing
//! script-pubkey.

use vstd::prelude::*;
use crate::bytes::{bytes_eq, copy_bytes};
use crate::container::{lift_error, Error, Proof};
use crate::hashes::{Hash32, TweakFactor};
use crate::keys::Pubkey;
use crate::lockscript::{lockscript_commit_spec, LockscriptCommitment, LockscriptContainer};
use crate::pubkey::{factor_view, pubkey_commit_spec, PubkeyCommitment, PubkeyContainer};
use crate::script::{
    classify, classify_spec, is_op_return, is_op_return_spec, lockscript_script_spec,
    lockscript_to_script, pk_opreturn_spec, pubkey_script_spec, pubkey_to_op_return,
    pubkey_to_script, Category, LockScript, PubkeyScript, ScriptCategory,
};

verus! {

/// How a script-pubkey is built from script data or a public key. The method
/// is not part of the proof: it is recovered from the proof and the observed
/// script-pubkey.
#[derive(Clone, Copy, PartialEq, Eq, Structural, Debug)]
#[non_exhaustive]
pub enum ScriptEncodeMethod {
    PublicKey,
    PubkeyHash,
    ScriptHash,
    WPubkeyHash,
    WScriptHash,
    ShWPubkeyHash,
    ShWScriptHash,
    Taproot,
    OpReturn,
    Bare,
}

/// Source data from which a committed script-pubkey is built. Exactly one
/// variant is consistent with each encoding method.
#[derive(Debug)]
#[non_exhaustive]
pub enum ScriptEncodeData {
    /// A bare public key: the proof's key suffices to rebuild everything.
    SinglePubkey,
    /// The full original script, kept byte for byte.
    LockScript(LockScript),
    /// Only the hash of the taproot script merkle-tree root.
    Taproot(Hash32),
}

/// The spec-level shape of script-encoding source data.
pub enum SourceView {
    SinglePubkey,
    LockScript(Seq<u8>),
    Taproot(Seq<u8>),
}

impl View for ScriptEncodeData {
    type V = SourceView;

    open spec fn view(&self) -> SourceView {
        match self {
            ScriptEncodeData::SinglePubkey => SourceView::SinglePubkey,
            ScriptEncodeData::LockScript(s) => SourceView::LockScript(s@),
            ScriptEncodeData::Taproot(h) => SourceView::Taproot(h@),
        }
    }
}

impl Default for ScriptEncodeData {
    fn default() -> (r: Self)
        ensures
            r@ is SinglePubkey,
    {
        ScriptEncodeData::SinglePubkey
    }
}

impl Clone for ScriptEncodeData {
    fn clone(&self) -> (r: Self)
        ensures
            r@ == self@,
    {
        match self {
            ScriptEncodeData::SinglePubkey => ScriptEncodeData::SinglePubkey,
            ScriptEncodeData::LockScript(s) => ScriptEncodeData::LockScript(s.clone()),
            ScriptEncodeData::Taproot(h) => ScriptEncodeData::Taproot(h.clone()),
        }
    }
}

impl PartialEq for ScriptEncodeData {
    fn eq(&self, other: &Self) -> (r: bool) {
        match (self, other) {
            (ScriptEncodeData::SinglePubkey, ScriptEncodeData::SinglePubkey) => true,
            (ScriptEncodeData::LockScript(a), ScriptEncodeData::LockScript(b)) => a.eq(b),
            (ScriptEncodeData::Taproot(a), ScriptEncodeData::Taproot(b)) => a.eq(b),
            _ => false,
        }
    }
}

impl vstd::std_specs::cmp::PartialEqSpecImpl for ScriptEncodeData {
    open spec fn obeys_eq_spec() -> bool {
        true
    }

    open spec fn eq_spec(&self, other: &ScriptEncodeData) -> bool {
        self@ == other@
    }
}

/// What reconstruction concludes from the proof and the observed host
/// script: the resolved encoding method, and the source data of the rebuilt
/// container (the proof's own source, except that a bare host re-tags it as
/// the observed script).
pub open spec fn spk_reconstruct_spec(pk: Seq<u8>, source: SourceView, host: Seq<u8>) -> Result<
    (ScriptEncodeMethod, SourceView),
    Error,
> {
    match classify_spec(host) {
        ScriptCategory::Sh => match source {
            SourceView::LockScript(ls) => if lockscript_script_spec(ls, Category::Hashed)
                == host {
                Result::Ok((ScriptEncodeMethod::ScriptHash, source))
            } else if lockscript_script_spec(ls, Category::Nested) == host {
                Result::Ok((ScriptEncodeMethod::ShWScriptHash, source))
            } else {
                Result::Err(Error::InvalidProofStructure)
            },
            _ => if pubkey_script_spec(pk, Category::Nested) == host {
                if source is SinglePubkey {
                    Result::Ok((ScriptEncodeMethod::ShWPubkeyHash, source))
                } else {
                    Result::Err(Error::InvalidProofStructure)
                }
            } else {
                Result::Err(Error::InvalidProofStructure)
            },
        },
        ScriptCategory::Bare => if is_op_return_spec(host) {
            if source is SinglePubkey {
                Result::Ok((ScriptEncodeMethod::OpReturn, source))
            } else {
                Result::Err(Error::InvalidProofStructure)
            }
        } else {
            Result::Ok((ScriptEncodeMethod::Bare, SourceView::LockScript(host)))
        },
        ScriptCategory::Pk => if source is SinglePubkey {
            Result::Ok((ScriptEncodeMethod::PublicKey, source))
        } else {
            Result::Err(Error::InvalidProofStructure)
        },
        ScriptCategory::Pkh => if source is SinglePubkey {
            Result::Ok((ScriptEncodeMethod::PubkeyHash, source))
        } else {
            Result::Err(Error::InvalidProofStructure)
        },
        ScriptCategory::Wpkh => if source is SinglePubkey {
            Result::Ok((ScriptEncodeMethod::WPubkeyHash, source))
        } else {
            Result::Err(Error::InvalidProofStructure)
        },
        ScriptCategory::Wsh => if source is LockScript {
            Result::Ok((ScriptEncodeMethod::WScriptHash, source))
        } else {
            Result::Err(Error::InvalidProofStructure)
        },
        ScriptCategory::Taproot => if source is Taproot {
            Result::Ok((ScriptEncodeMethod::Taproot, source))
        } else {
            Result::Err(Error::InvalidProofStructure)
        },
    }
}

/// What embedding determines: the tweaking factor and the rendered
/// script-pubkey, or the error it stops with.
pub open spec fn spk_embed_spec(
    pk: Seq<u8>,
    method: ScriptEncodeMethod,
    source: SourceView,
    tag: Seq<u8>,
    msg: Seq<u8>,
) -> Result<(Seq<u8>, Seq<u8>), Error> {
    match source {
        SourceView::LockScript(ls) => match lockscript_commit_spec(ls, pk, tag, msg) {
            Result::Err(e) => Result::Err(lift_error(e)),
            Result::Ok(o) => match method {
                ScriptEncodeMethod::Bare => Result::Ok((o.0, o.1)),
                ScriptEncodeMethod::ScriptHash => Result::Ok(
                    (o.0, lockscript_script_spec(o.1, Category::Hashed)),
                ),
                ScriptEncodeMethod::WScriptHash => Result::Ok(
                    (o.0, lockscript_script_spec(o.1, Category::SegWit)),
                ),
                ScriptEncodeMethod::ShWScriptHash => Result::Ok(
                    (o.0, lockscript_script_spec(o.1, Category::Nested)),
                ),
                _ => Result::Err(Error::InvalidProofStructure),
            },
        },
        SourceView::Taproot(_) => Result::Err(Error::InvalidProofStructure),
        SourceView::SinglePubkey => match pubkey_commit_spec(pk, tag, msg) {
            Result::Err(e) => Result::Err(lift_error(e)),
            Result::Ok(o) => match method {
                ScriptEncodeMethod::PublicKey => Result::Ok(
                    (o.0, pubkey_script_spec(o.1, Category::Bare)),
                ),
                ScriptEncodeMethod::PubkeyHash => Result::Ok(
                    (o.0, pubkey_script_spec(o.1, Category::Hashed)),
                ),
                ScriptEncodeMethod::WPubkeyHash => Result::Ok(
                    (o.0, pubkey_script_spec(o.1, Category::SegWit)),
                ),
                ScriptEncodeMethod::ShWPubkeyHash => Result::Ok(
                    (o.0, pubkey_script_spec(o.1, Category::Nested)),
                ),
                ScriptEncodeMethod::OpReturn => if o.1[0] == 2 {
                    Result::Ok((o.0, pk_opreturn_spec(o.1)))
                } else {
                    Result::Err(Error::InvalidOpReturnKey)
                },
                _ => Result::Err(Error::InvalidProofStructure),
            },
        },
    }
}

/// The tweaking factor that embedding records in the container, present
/// exactly when the inner commitment step succeeded, whether or not the
/// rendering step after it did.
pub open spec fn spk_embed_factor(pk: Seq<u8>, source: SourceView, tag: Seq<u8>, msg: Seq<u8>) -> Option<
    Seq<u8>,
> {
    match source {
        SourceView::LockScript(ls) => match lockscript_commit_spec(ls, pk, tag, msg) {
            Result::Ok(o) => Option::Some(o.0),
            Result::Err(_) => Option::None,
        },
        SourceView::Taproot(_) => Option::None,
        SourceView::SinglePubkey => match pubkey_commit_spec(pk, tag, msg) {
            Result::Ok(o) => Option::Some(o.0),
            Result::Err(_) => Option::None,
        },
    }
}

/// Working state for one script-pubkey commitment attempt.
#[derive(Debug)]
pub struct SpkContainer {
    /// The public key that receives the tweak.
    pub pubkey: Pubkey,
    /// How the script-pubkey is built from the source data.
    pub method: ScriptEncodeMethod,
    /// The source data from which the script-pubkey is built.
    pub source: ScriptEncodeData,
    /// Single SHA-256 hash of the protocol-specific tag.
    pub tag: Hash32,
    /// The tweaking factor, recorded by a successful embed-commit call.
    pub tweaking_factor: Option<TweakFactor>,
}

impl SpkContainer {
    /// Assembles a fresh container from its parts.
    pub fn construct(
        protocol_tag: &Hash32,
        pubkey: Pubkey,
        source: ScriptEncodeData,
        method: ScriptEncodeMethod,
    ) -> (r: SpkContainer)
        ensures
            r.pubkey@ == pubkey@,
            r.method == method,
            r.source@ == source@,
            r.tag@ == protocol_tag@,
            r.tweaking_factor is None,
    {
        SpkContainer {
            pubkey,
            source,
            method,
            tag: protocol_tag.clone(),
            tweaking_factor: None,
        }
    }

    /// Rebuilds the container from a proof and the observed host script:
    /// classifies the host byte shape, disambiguates pay-to-script-hash
    /// hosts by re-rendering from the proof, sorts bare hosts into OP_RETURN
    /// and re-tagged bare scripts, and cross-checks that the proof's source
    /// variant is the one legal for the resolved method.
    pub fn reconstruct(proof: &Proof, supplement: &Hash32, host: &PubkeyScript) -> (r: Result<
        SpkContainer,
        Error,
    >)
        ensures
            match r {
                Result::Ok(c) => spk_reconstruct_spec(proof.pubkey@, proof.source@, host@)
                    matches Result::Ok(m) && c.method == m.0 && c.source@ == m.1 && c.pubkey@
                    == proof.pubkey@ && c.tag@ == supplement@ && c.tweaking_factor is None,
                Result::Err(e) => spk_reconstruct_spec(proof.pubkey@, proof.source@, host@)
                    == Result::Err::<(ScriptEncodeMethod, SourceView), Error>(e),
            },
    {
        let category = classify(host);
        match category {
            ScriptCategory::Sh => match &proof.source {
                ScriptEncodeData::LockScript(ls) => {
                    let hashed = lockscript_to_script(ls, Category::Hashed);
                    if bytes_eq(hashed.as_bytes(), host.as_bytes()) {
                        Result::Ok(
                            Self::rebuilt(proof, supplement, ScriptEncodeMethod::ScriptHash),
                        )
                    } else {
                        let nested = lockscript_to_script(ls, Category::Nested);
                        if bytes_eq(nested.as_bytes(), host.as_bytes()) {
                            Result::Ok(
                                Self::rebuilt(proof, supplement, ScriptEncodeMethod::ShWScriptHash),
                            )
                        } else {
                            Result::Err(Error::InvalidProofStructure)
                        }
                    }
                },
                _ => {
                    let nested = pubkey_to_script(&proof.pubkey, Category::Nested);
                    if bytes_eq(nested.as_bytes(), host.as_bytes()) {
                        match &proof.source {
                            ScriptEncodeData::SinglePubkey => Result::Ok(
                                Self::rebuilt(proof, supplement, ScriptEncodeMethod::ShWPubkeyHash),
                            ),
                            _ => Result::Err(Error::InvalidProofStructure),
                        }
                    } else {
                        Result::Err(Error::InvalidProofStructure)
                    }
                },
            },
            ScriptCategory::Bare => {
                if is_op_return(host) {
                    match &proof.source {
                        ScriptEncodeData::SinglePubkey => Result::Ok(
                            Self::rebuilt(proof, supplement, ScriptEncodeMethod::OpReturn),
                        ),
                        _ => Result::Err(Error::InvalidProofStructure),
                    }
                } else {
                    Result::Ok(
                        SpkContainer {
                            pubkey: proof.pubkey.clone(),
                            method: ScriptEncodeMethod::Bare,
                            source: ScriptEncodeData::LockScript(
                                LockScript::from_vec(copy_bytes(host.as_bytes())),
                            ),
                            tag: supplement.clone(),
                            tweaking_factor: None,
                        },
                    )
                }
            },
            ScriptCategory::Pk => match &proof.source {
                ScriptEncodeData::SinglePubkey => Result::Ok(
                    Self::rebuilt(proof, supplement, ScriptEncodeMethod::PublicKey),
                ),
                _ => Result::Err(Error::InvalidProofStructure),
            },
            ScriptCategory::Pkh => match &proof.source {
                ScriptEncodeData::SinglePubkey => Result::Ok(
                    Self::rebuilt(proof, supplement, ScriptEncodeMethod::PubkeyHash),
                ),
                _ => Result::Err(Error::InvalidProofStructure),
            },
            ScriptCategory::Wpkh => match &proof.source {
                ScriptEncodeData::SinglePubkey => Result::Ok(
                    Self::rebuilt(proof, supplement, ScriptEncodeMethod::WPubkeyHash),
                ),
                _ => Result::Err(Error::InvalidProofStructure),
            },
            ScriptCategory::Wsh => match &proof.source {
                ScriptEncodeData::LockScript(_) => Result::Ok(
                    Self::rebuilt(proof, supplement, ScriptEncodeMethod::WScriptHash),
                ),
                _ => Result::Err(Error::InvalidProofStructure),
            },
            ScriptCategory::Taproot => match &proof.source {
                ScriptEncodeData::Taproot(_) => Result::Ok(
                    Self::rebuilt(proof, supplement, ScriptEncodeMethod::Taproot),
                ),
                _ => Result::Err(Error::InvalidProofStructure),
            },
        }
    }

    /// The container rebuilt from the proof under a resolved method.
    fn rebuilt(proof: &Proof, supplement: &Hash32, method: ScriptEncodeMethod) -> (r: SpkContainer)
        ensures
            r.pubkey@ == proof.pubkey@,
            r.method == method,
            r.source@ == proof.source@,
            r.tag@ == supplement@,
            r.tweaking_factor is None,
    {
        SpkContainer {
            pubkey: proof.pubkey.clone(),
            method,
            source: proof.source.clone(),
            tag: supplement.clone(),
            tweaking_factor: None,
        }
    }

    /// Splits the container into its proof and the protocol tag.
    pub fn deconstruct(self) -> (r: (Proof, Hash32))
        ensures
            r.0.pubkey@ == self.pubkey@,
            r.0.source@ == self.source@,
            r.1@ == self.tag@,
    {
        (Proof { pubkey: self.pubkey, source: self.source }, self.tag)
    }

    /// The proof of this container.
    pub fn to_proof(&self) -> (r: Proof)
        ensures
            r.pubkey@ == self.pubkey@,
            r.source@ == self.source@,
    {
        Proof { pubkey: self.pubkey.clone(), source: self.source.clone() }
    }

    /// The proof of this container, consuming it.
    pub fn into_proof(self) -> (r: Proof)
        ensures
            r.pubkey@ == self.pubkey@,
            r.source@ == self.source@,
    {
        Proof { pubkey: self.pubkey, source: self.source }
    }
}

impl Clone for SpkContainer {
    fn clone(&self) -> (r: Self)
        ensures
            r.pubkey@ == self.pubkey@,
            r.method == self.method,
            r.source@ == self.source@,
            r.tag@ == self.tag@,
            factor_view(r.tweaking_factor) == factor_view(self.tweaking_factor),
    {
        SpkContainer {
            pubkey: self.pubkey.clone(),
            method: self.method,
            source: self.source.clone(),
            tag: self.tag.clone(),
            tweaking_factor: match &self.tweaking_factor {
                Option::Some(f) => Option::Some(f.clone()),
                Option::None => Option::None,
            },
        }
    }
}

/// A script-pubkey holding a commitment.
#[derive(Debug)]
pub struct SpkCommitment(pub PubkeyScript);

impl Clone for SpkCommitment {
    fn clone(&self) -> (r: Self)
        ensures
            r.0@ == self.0@,
    {
        SpkCommitment(self.0.clone())
    }
}

impl PartialEq for SpkCommitment {
    fn eq(&self, other: &Self) -> (r: bool) {
        bytes_eq(self.0.as_bytes(), other.0.as_bytes())
    }
}

impl vstd::std_specs::cmp::PartialEqSpecImpl for SpkCommitment {
    open spec fn obeys_eq_spec() -> bool {
        true
    }

    open spec fn eq_spec(&self, other: &SpkCommitment) -> bool {
        self.0@ == other.0@
    }
}

impl SpkCommitment {
    /// Commits to the message through the layer matching the container's
    /// source — the lockscript layer for script sources, the public-key
    /// layer for single-key sources — then renders the committed material
    /// into a script-pubkey per the container's method, copying the tweaking
    /// factor up into this container. Taproot sources cannot be rendered
    /// into a script-pubkey here: rendering awaits the external standard,
    /// and a taproot source under any other method is a structural error.
    pub fn embed_commit(container: &mut SpkContainer, msg: &[u8]) -> (r: Result<
        SpkCommitment,
        Error,
    >)
        requires
            !(old(container).source@ is Taproot && old(container).method is Taproot),
        ensures
            final(container).pubkey@ == old(container).pubkey@,
            final(container).method == old(container).method,
            final(container).source@ == old(container).source@,
            final(container).tag@ == old(container).tag@,
            match r {
                Result::Ok(c) => spk_embed_spec(
                    old(container).pubkey@,
                    old(container).method,
                    old(container).source@,
                    old(container).tag@,
                    msg@,
                ) matches Result::Ok(o) && c.0@ == o.1 && factor_view(
                    final(container).tweaking_factor,
                ) == Option::Some(o.0),
                Result::Err(e) => spk_embed_spec(
                    old(container).pubkey@,
                    old(container).method,
                    old(container).source@,
                    old(container).tag@,
                    msg@,
                ) == Result::Err::<(Seq<u8>, Seq<u8>), Error>(e) && factor_view(
                    final(container).tweaking_factor,
                ) == (match spk_embed_factor(
                    old(container).pubkey@,
                    old(container).source@,
                    old(container).tag@,
                    msg@,
                ) {
                    Option::Some(f) => Option::Some(f),
                    Option::None => factor_view(old(container).tweaking_factor),
                }),
            },
    {
        let script_pubkey: PubkeyScript = match &container.source {
            ScriptEncodeData::LockScript(lockscript) => {
                let mut lockscript_container = LockscriptContainer {
                    script: lockscript.clone(),
                    pubkey: container.pubkey.clone(),
                    tag: container.tag.clone(),
                    tweaking_factor: None,
                };
                match LockscriptCommitment::embed_commit(&mut lockscript_container, msg) {
                    Result::Err(e) => {
                        return Result::Err(Error::from(e));
                    },
                    Result::Ok(cmt) => {
                        container.tweaking_factor = lockscript_container.tweaking_factor;
                        let committed = cmt.0;
                        match container.method {
                            ScriptEncodeMethod::Bare => lockscript_to_script(
                                &committed,
                                Category::Bare,
                            ),
                            ScriptEncodeMethod::ScriptHash => lockscript_to_script(
                                &committed,
                                Category::Hashed,
                            ),
                            ScriptEncodeMethod::WScriptHash => lockscript_to_script(
                                &committed,
                                Category::SegWit,
                            ),
                            ScriptEncodeMethod::ShWScriptHash => lockscript_to_script(
                                &committed,
                                Category::Nested,
                            ),
                            _ => {
                                return Result::Err(Error::InvalidProofStructure);
                            },
                        }
                    },
                }
            },
            ScriptEncodeData::Taproot(_) => {
                // Rendering the final taproot script-pubkey awaits the
                // external standard; the taproot method is excluded by the
                // precondition, and any other method is inconsistent with a
                // taproot source.
                return Result::Err(Error::InvalidProofStructure);
            },
            ScriptEncodeData::SinglePubkey => {
                let mut pubkey_container = PubkeyContainer {
                    pubkey: container.pubkey.clone(),
                    tag: container.tag.clone(),
                    tweaking_factor: None,
                };
                match PubkeyCommitment::embed_commit(&mut pubkey_container, msg) {
                    Result::Err(e) => {
                        return Result::Err(Error::from(e));
                    },
                    Result::Ok(cmt) => {
                        container.tweaking_factor = pubkey_container.tweaking_factor;
                        let pubkey = cmt.0;
                        match container.method {
                            ScriptEncodeMethod::PublicKey => pubkey_to_script(
                                &pubkey,
                                Category::Bare,
                            ),
                            ScriptEncodeMethod::PubkeyHash => pubkey_to_script(
                                &pubkey,
                                Category::Hashed,
                            ),
                            ScriptEncodeMethod::WPubkeyHash => pubkey_to_script(
                                &pubkey,
                                Category::SegWit,
                            ),
                            ScriptEncodeMethod::ShWPubkeyHash => pubkey_to_script(
                                &pubkey,
                                Category::Nested,
                            ),
                            ScriptEncodeMethod::OpReturn => {
                                let ser = pubkey.as_bytes();
                                if ser[0] != 0x02 {
                                    return Result::Err(Error::InvalidOpReturnKey);
                                }
                                pubkey_to_op_return(&pubkey)
                            },
                            _ => {
                                return Result::Err(Error::InvalidProofStructure);
                            },
                        }
                    },
                }
            },
        };
        Result::Ok(SpkCommitment(script_pubkey))
    }

    /// Verifies by re-running embed-commit on a copy of the container and
    /// comparing the rendered script-pubkey; a failing commit surfaces as
    /// the error.
    pub fn verify(&self, container: &SpkContainer, msg: &[u8]) -> (r: Result<bool, Error>)
        requires
            !(container.source@ is Taproot && container.method is Taproot),
        ensures
            match r {
                Result::Ok(b) => spk_embed_spec(
                    container.pubkey@,
                    container.method,
                    container.source@,
                    container.tag@,
                    msg@,
                ) matches Result::Ok(o) && b == (self.0@ == o.1),
                Result::Err(e) => spk_embed_spec(
                    container.pubkey@,
                    container.method,
                    container.source@,
                    container.tag@,
                    msg@,
                ) == Result::Err::<(Seq<u8>, Seq<u8>), Error>(e),
            },
    {
        let mut c = container.clone();
        match SpkCommitment::embed_commit(&mut c, msg) {
            Result::Err(e) => Result::Err(e),
            Result::Ok(cmt) => Result::Ok(bytes_eq(cmt.0.as_bytes(), self.0.as_bytes())),
        }
    }
}

/// Law: for the encoding methods whose host byte shape alone identifies them
/// — bare key, key hash, witness key hash, witness script hash and OP_RETURN
/// — reconstruction on the script-pubkey produced by a successful embedding,
/// with the proof of the same container, recovers exactly the original
/// method and source.
pub proof fn lemma_embed_reconstruct_roundtrip(
    pk: Seq<u8>,
    method: ScriptEncodeMethod,
    source: SourceView,
    tag: Seq<u8>,
    msg: Seq<u8>,
)
    requires
        method is PublicKey || method is PubkeyHash || method is WPubkeyHash || method
            is WScriptHash || method is OpReturn,
    ensures
        spk_embed_spec(pk, method, source, tag, msg) matches Result::Ok(o)
            ==> spk_reconstruct_spec(pk, source, o.1) == Result::Ok::<
            (ScriptEncodeMethod, SourceView),
            Error,
        >((method, source)),
{
    if spk_embed_spec(pk, method, source, tag, msg) is Ok {
        let host = spk_embed_spec(pk, method, source, tag, msg)->Ok_0.1;
        match method {
            ScriptEncodeMethod::PublicKey => {
                let po = pubkey_commit_spec(pk, tag, msg)->Ok_0;
                assert(po.1.len() == 33);
                assert(host == seq![0x21u8] + po.1 + seq![0xacu8]);
                assert(host.len() == 35);
                assert(host[0] == 0x21);
                assert(host[34] == 0xac);
                assert(classify_spec(host) == ScriptCategory::Pk);
            },
            ScriptEncodeMethod::PubkeyHash => {
                let po = pubkey_commit_spec(pk, tag, msg)->Ok_0;
                let h = crate::hashes::hash160_of(po.1)@;
                assert(h.len() == 20);
                assert(host == seq![0x76u8, 0xa9u8, 0x14u8] + h + seq![0x88u8, 0xacu8]);
                assert(host.len() == 25);
                assert(host[0] == 0x76);
                assert(host[1] == 0xa9);
                assert(host[2] == 0x14);
                assert(host[23] == 0x88);
                assert(host[24] == 0xac);
                assert(classify_spec(host) == ScriptCategory::Pkh);
            },
            ScriptEncodeMethod::WPubkeyHash => {
                let po = pubkey_commit_spec(pk, tag, msg)->Ok_0;
                let h = crate::hashes::hash160_of(po.1)@;
                assert(h.len() == 20);
                assert(host == seq![0x00u8, 0x14u8] + h);
                assert(host.len() == 22);
                assert(host[0] == 0x00);
                assert(host[1] == 0x14);
                assert(classify_spec(host) == ScriptCategory::Wpkh);
            },
            ScriptEncodeMethod::WScriptHash => {
                let lo = lockscript_commit_spec(source->LockScript_0, pk, tag, msg)->Ok_0;
                let h = crate::hashes::sha256_of(lo.1)@;
                assert(h.len() == 32);
                assert(host == seq![0x00u8, 0x20u8] + h);
                assert(host.len() == 34);
                assert(host[0] == 0x00);
                assert(host[1] == 0x20);
                assert(classify_spec(host) == ScriptCategory::Wsh);
            },
            ScriptEncodeMethod::OpReturn => {
                let po = pubkey_commit_spec(pk, tag, msg)->Ok_0;
                assert(po.1.len() == 33);
                assert(host == seq![0x6au8, 0x21u8] + po.1);
                assert(host.len() == 35);
                assert(host[0] == 0x6a);
                assert(classify_spec(host) == ScriptCategory::Bare);
                assert(is_op_return_spec(host));
            },
            _ => {
            },
        }
    }
}

/// Law: a bare embedding reconstructs to the bare method, with the source
/// re-tagged as the committed script — for committed scripts whose bytes do
/// not themselves take the shape of a standard output or an OP_RETURN
/// payload.
pub proof fn lemma_embed_reconstruct_bare(
    pk: Seq<u8>,
    source: SourceView,
    tag: Seq<u8>,
    msg: Seq<u8>,
)
    ensures
        spk_embed_spec(pk, ScriptEncodeMethod::Bare, source, tag, msg) matches Result::Ok(o)
            ==> ((classify_spec(o.1) is Bare && !is_op_return_spec(o.1))
            ==> spk_reconstruct_spec(pk, source, o.1) == Result::Ok::<
            (ScriptEncodeMethod, SourceView),
            Error,
        >((ScriptEncodeMethod::Bare, SourceView::LockScript(o.1)))),
{
}

} // verus!
