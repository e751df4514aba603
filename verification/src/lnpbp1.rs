//! The base commitment procedure: binding a message to the elliptic-curve
//! sum of a key set by shifting a target public key with an HMAC-SHA256
//! derived tweaking factor. Verification re-runs the procedure and compares.

use vstd::prelude::*;
use crate::bytes::{bytes_eq, push_all};
use crate::hashes::{hmac_sha256, hmac_sha256_of, sha256, sha256_of, Hash32, TweakFactor};
use crate::keys::{
    combine_of, combine_pubkeys, insert_sorted, remove_sorted, tweak_of, tweak_pubkey, Keyset,
    Pubkey,
};

verus! {

/// Single SHA-256 hash of the ASCII string "LNPBP1", prefixed to the data of
/// every tweaking-factor derivation. The fixed prefix binds all commitments,
/// across all protocols, to this scheme.
pub const LNPBP1_HASHED_TAG: [u8; 32] = [
    245, 8, 242, 142, 252, 192, 113, 82, 108, 168, 134, 200, 224, 124, 105, 212, 149, 78, 46, 201,
    252, 82, 171, 140, 204, 209, 41, 17, 12, 0, 64, 175,
];

/// Errors of the base commitment procedure.
#[derive(Clone, Copy, PartialEq, Eq, Structural, Debug)]
pub enum Error {
    /// The key set does not include the target public key.
    NotKeysetMember,
    /// Elliptic-curve summation of the key set reached the point at infinity.
    SumInfiniteResult,
    /// The tweaking factor is out of range, or shifts the target key to an
    /// invalid point.
    InvalidTweak,
}

/// The elliptic-curve sum of `acc` and all `keys` in order, by repeated
/// pairwise addition; `None` as soon as a partial sum is the point at
/// infinity.
pub open spec fn sum_fold(acc: Seq<u8>, keys: Seq<Seq<u8>>) -> Option<Seq<u8>>
    decreases keys.len(),
{
    if keys.len() == 0 {
        Option::Some(acc)
    } else {
        match combine_of(acc, keys[0]) {
            Option::None => Option::None,
            Option::Some(c) => sum_fold(c@, keys.drop_first()),
        }
    }
}

/// The byte string whose HMAC yields the tweaking factor: the fixed scheme
/// tag, then the protocol tag, then the SHA-256 hash of the message.
pub open spec fn factor_payload(tag: Seq<u8>, msg: Seq<u8>) -> Seq<u8> {
    LNPBP1_HASHED_TAG@ + tag + sha256_of(msg)@
}

/// Everything the commitment procedure determines from its inputs: the
/// tweaking factor, the tweaked target key, and the updated key set — or the
/// error it stops with.
pub open spec fn commit_spec(ks: Seq<Seq<u8>>, t: Seq<u8>, tag: Seq<u8>, msg: Seq<u8>) -> Result<
    (Seq<u8>, Seq<u8>, Seq<Seq<u8>>),
    Error,
> {
    if !ks.contains(t) {
        Result::Err(Error::NotKeysetMember)
    } else {
        let rem = remove_sorted(ks, t);
        match sum_fold(t, rem) {
            Option::None => Result::Err(Error::SumInfiniteResult),
            Option::Some(sum) => {
                let f = hmac_sha256_of(sum, factor_payload(tag, msg))@;
                match tweak_of(t, f) {
                    Option::None => Result::Err(Error::InvalidTweak),
                    Option::Some(t2) => Result::Ok((f, t2@, insert_sorted(rem, t2@))),
                }
            },
        }
    }
}

/// What verification concludes: the procedure succeeds on these inputs and
/// its tweaked key equals the verified key.
pub open spec fn verify_spec(
    v: Seq<u8>,
    ks: Seq<Seq<u8>>,
    t: Seq<u8>,
    tag: Seq<u8>,
    msg: Seq<u8>,
) -> bool {
    match commit_spec(ks, t, tag, msg) {
        Result::Ok(o) => o.1 == v,
        Result::Err(_) => false,
    }
}

/// The fixed scheme tag as a vector.
fn lnpbp1_prefix() -> (r: Vec<u8>)
    ensures
        r@ == LNPBP1_HASHED_TAG@,
{
    let mut v: Vec<u8> = Vec::new();
    let mut i: usize = 0;
    while i < 32
        invariant
            i <= 32,
            v@ == LNPBP1_HASHED_TAG@.subrange(0, i as int),
        decreases 32 - i,
    {
        v.push(LNPBP1_HASHED_TAG[i]);
        proof {
            assert(v@ =~= LNPBP1_HASHED_TAG@.subrange(0, i as int + 1));
        }
        i = i + 1;
    }
    proof {
        assert(v@ =~= LNPBP1_HASHED_TAG@);
    }
    v
}

/// Commits to `message` under the key set: removes `target_pubkey` from the
/// set, sums the target with the remaining keys, derives the tweaking factor
/// by HMAC-SHA256 over the scheme tag, the protocol tag and the hashed
/// message, shifts the target key by the factor, and re-inserts the shifted
/// key into the set.
///
/// On success the tweaked key and updated set are left in the two mutable
/// arguments and the factor is returned. On an error after membership was
/// established, the set is left without the target key: partial mutation is
/// a valid failure mode, and the caller must discard both values.
///
/// The outcome is pinned to a function of the four inputs alone, so repeated
/// calls on equal values return byte-identical factors, keys and sets.
pub fn commit(
    keyset: &mut Keyset,
    target_pubkey: &mut Pubkey,
    protocol_tag: &Hash32,
    message: &[u8],
) -> (r: Result<TweakFactor, Error>)
    ensures
        match r {
            Result::Ok(f) => commit_spec(
                old(keyset)@,
                old(target_pubkey)@,
                protocol_tag@,
                message@,
            ) == Result::Ok::<(Seq<u8>, Seq<u8>, Seq<Seq<u8>>), Error>(
                (f@, final(target_pubkey)@, final(keyset)@),
            ),
            Result::Err(e) => {
                &&& commit_spec(old(keyset)@, old(target_pubkey)@, protocol_tag@, message@)
                    == Result::Err::<(Seq<u8>, Seq<u8>, Seq<Seq<u8>>), Error>(e)
                &&& final(target_pubkey)@ == old(target_pubkey)@
                &&& (e is NotKeysetMember ==> final(keyset)@ == old(keyset)@)
                &&& (!(e is NotKeysetMember) ==> final(keyset)@ == remove_sorted(
                    old(keyset)@,
                    old(target_pubkey)@,
                ))
            },
        },
{
    let ghost ks0: Seq<Seq<u8>> = keyset@;
    let ghost t0: Seq<u8> = target_pubkey@;
    if !keyset.remove(target_pubkey) {
        return Result::Err(Error::NotKeysetMember);
    }
    let ghost rem: Seq<Seq<u8>> = keyset@;

    // The commitment target is the sum of all keys, not the bare target key;
    // a one-key set degenerates to the target itself.
    let mut sum: Pubkey = target_pubkey.clone();
    let n: usize = keyset.len();
    proof {
        assert(rem.skip(0) =~= rem);
    }
    let mut i: usize = 0;
    while i < n
        invariant
            n == keyset@.len(),
            keyset@ == rem,
            i <= n,
            sum_fold(t0, rem) == sum_fold(sum@, rem.skip(i as int)),
            old(keyset)@ == ks0,
            old(target_pubkey)@ == t0,
            target_pubkey@ == t0,
            ks0.contains(t0),
            rem == remove_sorted(ks0, t0),
        decreases n - i,
    {
        proof {
            assert(rem.skip(i as int)[0] == rem[i as int]);
            assert(rem.skip(i as int).drop_first() =~= rem.skip(i as int + 1));
        }
        match combine_pubkeys(&sum, keyset.key_at(i)) {
            Option::Some(s) => {
                sum = s;
            },
            Option::None => {
                return Result::Err(Error::SumInfiniteResult);
            },
        }
        i = i + 1;
    }
    proof {
        assert(rem.skip(n as int).len() == 0);
    }

    // Tweaking factor: HMAC-SHA256 keyed by the serialized key sum, over the
    // scheme tag, the protocol tag and the hashed message.
    let mut payload: Vec<u8> = Vec::new();
    let prefix = lnpbp1_prefix();
    push_all(&mut payload, &prefix);
    push_all(&mut payload, protocol_tag.as_bytes());
    let msg_hash = sha256(message);
    push_all(&mut payload, &msg_hash);
    proof {
        assert(payload@ =~= factor_payload(protocol_tag@, message@));
    }
    let factor_bytes = hmac_sha256(sum.as_bytes().as_slice(), payload.as_slice());

    // Apply the factor to the target key and re-insert the tweaked key.
    match tweak_pubkey(target_pubkey, &factor_bytes) {
        Option::None => Result::Err(Error::InvalidTweak),
        Option::Some(t2) => {
            *target_pubkey = t2.clone();
            let _ = keyset.insert(t2);
            Result::Ok(TweakFactor::from_vec_exact(factor_bytes))
        },
    }
}

/// Verifies a commitment by re-running the procedure on a copy of the
/// original key set and target key: `true` exactly when the procedure
/// succeeds and its tweaked key equals `verified_pubkey`. A failing
/// procedure means no such commitment could have been produced, so the
/// answer is `false`, not an error.
pub fn verify(
    verified_pubkey: &Pubkey,
    original_keyset: &Keyset,
    target_pubkey: &Pubkey,
    protocol_tag: &Hash32,
    message: &[u8],
) -> (r: bool)
    ensures
        r == verify_spec(
            verified_pubkey@,
            original_keyset@,
            target_pubkey@,
            protocol_tag@,
            message@,
        ),
{
    let mut ks = original_keyset.clone();
    let mut t = target_pubkey.clone();
    match commit(&mut ks, &mut t, protocol_tag, message) {
        Result::Err(_) => false,
        Result::Ok(_) => bytes_eq(t.as_bytes(), verified_pubkey.as_bytes()),
    }
}

/// Law: verification accepts every successful commitment — re-running the
/// procedure on the same key set, target key, protocol tag and message
/// reproduces the same tweaked key.
pub proof fn lemma_commit_roundtrip(ks: Seq<Seq<u8>>, t: Seq<u8>, tag: Seq<u8>, msg: Seq<u8>)
    ensures
        commit_spec(ks, t, tag, msg) matches Result::Ok(o) ==> verify_spec(o.1, ks, t, tag, msg),
{
}

/// Law: the procedure fails with NotKeysetMember exactly on key sets that do
/// not contain the target key.
pub proof fn lemma_membership(ks: Seq<Seq<u8>>, t: Seq<u8>, tag: Seq<u8>, msg: Seq<u8>)
    ensures
        (commit_spec(ks, t, tag, msg) == Result::Err::<(Seq<u8>, Seq<u8>, Seq<Seq<u8>>), Error>(
            Error::NotKeysetMember,
        )) <==> !ks.contains(t),
{
}

} // verus!
