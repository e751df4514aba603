//! The lockscript commitment layer: committing inside an arbitrary script by
//! tweaking the public key it names and substituting the tweaked key for
//! every occurrence of the original key's serialization.

use vstd::prelude::*;
use crate::bytes::{bytes_eq, push_all};
use crate::hashes::{Hash32, TweakFactor};
use crate::keys::{Keyset, Pubkey};
use crate::lnpbp1;
use crate::pubkey::{factor_view, lemma_single_key_commit, pubkey_commit_spec};
use crate::script::LockScript;

verus! {

/// The script with every occurrence of `pat` replaced by `rep`, scanning
/// left to right without overlap.
pub open spec fn replace_keys(s: Seq<u8>, pat: Seq<u8>, rep: Seq<u8>) -> Seq<u8>
    decreases s.len(),
{
    if pat.len() == 0 || s.len() < pat.len() {
        s
    } else if s.subrange(0, pat.len() as int) == pat {
        rep + replace_keys(s.skip(pat.len() as int), pat, rep)
    } else {
        seq![s[0]] + replace_keys(s.drop_first(), pat, rep)
    }
}

/// Whether `pat` occurs in `src` at position `i`.
fn match_at(src: &Vec<u8>, i: usize, pat: &Vec<u8>) -> (r: bool)
    requires
        i + pat@.len() <= src@.len(),
    ensures
        r == (src@.subrange(i as int, i as int + pat@.len()) == pat@),
{
    let n: usize = src.len();
    let mut j: usize = 0;
    while j < pat.len()
        invariant
            i + pat@.len() <= src@.len(),
            n == src@.len(),
            j <= pat@.len(),
            forall|x: int| 0 <= x < j ==> src@[i + x] == pat@[x],
        decreases pat@.len() - j,
    {
        let idx: usize = i + j;
        if src[idx] != pat[j] {
            proof {
                assert(src@.subrange(i as int, i as int + pat@.len())[j as int] == src@[i + j]);
            }
            return false;
        }
        j = j + 1;
    }
    proof {
        assert(src@.subrange(i as int, i as int + pat@.len()) =~= pat@);
    }
    true
}

/// Replaces every left-to-right occurrence of `pat` in `src` by `rep`.
fn replace_all(src: &Vec<u8>, pat: &Vec<u8>, rep: &Vec<u8>) -> (r: Vec<u8>)
    requires
        pat@.len() > 0,
    ensures
        r@ == replace_keys(src@, pat@, rep@),
{
    let mut out: Vec<u8> = Vec::new();
    proof {
        assert(src@.skip(0) =~= src@);
    }
    let mut i: usize = 0;
    while i < src.len()
        invariant
            i <= src@.len(),
            pat@.len() > 0,
            replace_keys(src@, pat@, rep@) == out@ + replace_keys(src@.skip(i as int), pat@, rep@),
        decreases src@.len() - i,
    {
        let ghost suf = src@.skip(i as int);
        let ghost out0 = out@;
        if src.len() - i >= pat.len() && match_at(src, i, pat) {
            proof {
                assert(suf.subrange(0, pat@.len() as int) =~= src@.subrange(
                    i as int,
                    i as int + pat@.len(),
                ));
                assert(suf.skip(pat@.len() as int) =~= src@.skip(i as int + pat@.len()));
            }
            push_all(&mut out, rep);
            i = i + pat.len();
            proof {
                assert(out@ + replace_keys(src@.skip(i as int), pat@, rep@) =~= out0 + (rep@
                    + replace_keys(src@.skip(i as int), pat@, rep@)));
            }
        } else {
            proof {
                assert(suf[0] == src@[i as int]);
                assert(suf.drop_first() =~= src@.skip(i as int + 1));
                if suf.len() >= pat@.len() {
                    assert(suf.subrange(0, pat@.len() as int) =~= src@.subrange(
                        i as int,
                        i as int + pat@.len(),
                    ));
                } else {
                    assert(suf =~= seq![src@[i as int]] + src@.skip(i as int + 1));
                }
            }
            out.push(src[i]);
            i = i + 1;
            proof {
                assert(out@ + replace_keys(src@.skip(i as int), pat@, rep@) =~= out0 + (seq![
                    src@[i - 1],
                ] + replace_keys(src@.skip(i as int), pat@, rep@)));
            }
        }
    }
    proof {
        assert(src@.skip(src@.len() as int).len() == 0);
        assert(out@ + replace_keys(src@.skip(src@.len() as int), pat@, rep@) =~= out@);
    }
    out
}

/// What the lockscript commitment determines: the tweaking factor and the
/// script carrying the tweaked key in place of the original one.
pub open spec fn lockscript_commit_spec(
    script: Seq<u8>,
    pk: Seq<u8>,
    tag: Seq<u8>,
    msg: Seq<u8>,
) -> Result<(Seq<u8>, Seq<u8>), lnpbp1::Error> {
    match pubkey_commit_spec(pk, tag, msg) {
        Result::Ok(o) => Result::Ok((o.0, replace_keys(script, pk, o.1))),
        Result::Err(e) => Result::Err(e),
    }
}

/// Working state for one lockscript commitment attempt.
#[derive(Debug)]
pub struct LockscriptContainer {
    /// The original script.
    pub script: LockScript,
    /// The public key named by the script, to be tweaked.
    pub pubkey: Pubkey,
    /// Single SHA-256 hash of the protocol-specific tag.
    pub tag: Hash32,
    /// The tweaking factor, recorded by a successful embed-commit call.
    pub tweaking_factor: Option<TweakFactor>,
}

/// A script holding a commitment: the original script with the tweaked key
/// substituted for the original one.
#[derive(Debug)]
pub struct LockscriptCommitment(pub LockScript);

impl LockscriptCommitment {
    /// Commits to the message by tweaking the container's key and replacing
    /// each occurrence of the original key's serialization in the script by
    /// the tweaked key's, recording the factor in the container.
    pub fn embed_commit(container: &mut LockscriptContainer, msg: &[u8]) -> (r: Result<
        LockscriptCommitment,
        lnpbp1::Error,
    >)
        ensures
            final(container).script@ == old(container).script@,
            final(container).pubkey@ == old(container).pubkey@,
            final(container).tag@ == old(container).tag@,
            match r {
                Result::Ok(c) => lockscript_commit_spec(
                    old(container).script@,
                    old(container).pubkey@,
                    old(container).tag@,
                    msg@,
                ) matches Result::Ok(o) && c.0@ == o.1 && factor_view(
                    final(container).tweaking_factor,
                ) == Option::Some(o.0),
                Result::Err(e) => lockscript_commit_spec(
                    old(container).script@,
                    old(container).pubkey@,
                    old(container).tag@,
                    msg@,
                ) == Result::Err::<(Seq<u8>, Seq<u8>), lnpbp1::Error>(e) && factor_view(
                    final(container).tweaking_factor,
                ) == factor_view(old(container).tweaking_factor),
            },
    {
        let mut keyset = Keyset::new();
        let _ = keyset.insert(container.pubkey.clone());
        proof {
            assert(keyset@ =~= seq![container.pubkey@]);
        }
        let mut pubkey = container.pubkey.clone();
        let r = lnpbp1::commit(&mut keyset, &mut pubkey, &container.tag, msg);
        proof {
            lemma_single_key_commit(old(container).pubkey@, old(container).tag@, msg@);
        }
        match r {
            Result::Err(e) => Result::Err(e),
            Result::Ok(f) => {
                let script2 = replace_all(
                    container.script.as_bytes(),
                    container.pubkey.as_bytes(),
                    pubkey.as_bytes(),
                );
                container.tweaking_factor = Some(f);
                Result::Ok(LockscriptCommitment(LockScript::from_vec(script2)))
            },
        }
    }

    /// Verifies by re-running embed-commit on a copy of the container and
    /// comparing the produced script; a failing commit surfaces as the
    /// error.
    pub fn verify(&self, container: &LockscriptContainer, msg: &[u8]) -> (r: Result<
        bool,
        lnpbp1::Error,
    >)
        ensures
            match r {
                Result::Ok(b) => lockscript_commit_spec(
                    container.script@,
                    container.pubkey@,
                    container.tag@,
                    msg@,
                ) matches Result::Ok(o) && b == (self.0@ == o.1),
                Result::Err(e) => lockscript_commit_spec(
                    container.script@,
                    container.pubkey@,
                    container.tag@,
                    msg@,
                ) == Result::Err::<(Seq<u8>, Seq<u8>), lnpbp1::Error>(e),
            },
    {
        let mut c = LockscriptContainer {
            script: container.script.clone(),
            pubkey: container.pubkey.clone(),
            tag: container.tag.clone(),
            tweaking_factor: None,
        };
        match LockscriptCommitment::embed_commit(&mut c, msg) {
            Result::Err(e) => Result::Err(e),
            Result::Ok(cmt) => Result::Ok(bytes_eq(cmt.0.as_bytes(), self.0.as_bytes())),
        }
    }
}

} // verus!
