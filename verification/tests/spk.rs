use bitcoin::hashes::hex::FromHex;
use bitcoin::hashes::sha256;

use dbc::container::Error;
use dbc::hashes::Hash32;
use dbc::keys::Pubkey;
use dbc::lnpbp1::LNPBP1_HASHED_TAG;
use dbc::pubkey::{PubkeyCommitment, PubkeyContainer};
use dbc::script::LockScript;
use dbc::spk::{ScriptEncodeData, ScriptEncodeMethod, SpkCommitment, SpkContainer};
use dbc::txout::{TxOut, TxoutCommitment, TxoutContainer};

const KEY_HEX: &str = "0218845781f631c48f1c9709e23092067d06837f30aa0cd0544ac887fe91ddd166";

fn test_key() -> Pubkey {
    Pubkey::from_bytes(Vec::from_hex(KEY_HEX).unwrap()).unwrap()
}

fn test_tag() -> Hash32 {
    Hash32::new_sha256(b"TEST_TAG")
}

fn roundtrip(method: ScriptEncodeMethod, source: ScriptEncodeData, msg: &[u8]) -> SpkContainer {
    let tag = test_tag();
    let mut container = SpkContainer::construct(&tag, test_key(), source, method);
    let commitment = SpkCommitment::embed_commit(&mut container, msg).unwrap();
    assert!(container.tweaking_factor.is_some());

    // Determinism: a fresh container produces the same commitment.
    let mut container2 = SpkContainer::construct(
        &tag,
        test_key(),
        container.source.clone(),
        container.method,
    );
    let commitment2 = SpkCommitment::embed_commit(&mut container2, msg).unwrap();
    assert_eq!(commitment, commitment2);

    // Verification accepts the commitment.
    assert!(commitment.verify(&container, msg).unwrap());

    let proof = container.to_proof();
    SpkContainer::reconstruct(&proof, &tag, &commitment.0).unwrap()
}

#[test]
fn spk_roundtrip_public_key() {
    let rebuilt = roundtrip(ScriptEncodeMethod::PublicKey, ScriptEncodeData::SinglePubkey, b"pk");
    assert_eq!(rebuilt.method, ScriptEncodeMethod::PublicKey);
    assert_eq!(rebuilt.source, ScriptEncodeData::SinglePubkey);
}

#[test]
fn spk_roundtrip_pubkey_hash() {
    let rebuilt = roundtrip(ScriptEncodeMethod::PubkeyHash, ScriptEncodeData::SinglePubkey, b"pkh");
    assert_eq!(rebuilt.method, ScriptEncodeMethod::PubkeyHash);
    assert_eq!(rebuilt.source, ScriptEncodeData::SinglePubkey);
}

#[test]
fn spk_roundtrip_wpubkey_hash() {
    let rebuilt =
        roundtrip(ScriptEncodeMethod::WPubkeyHash, ScriptEncodeData::SinglePubkey, b"wpkh");
    assert_eq!(rebuilt.method, ScriptEncodeMethod::WPubkeyHash);
    assert_eq!(rebuilt.source, ScriptEncodeData::SinglePubkey);
}

#[test]
fn spk_roundtrip_wscript_hash() {
    // A script that does not name the key: the committed script equals it.
    let script = LockScript::from_vec(vec![0x51]);
    let rebuilt = roundtrip(
        ScriptEncodeMethod::WScriptHash,
        ScriptEncodeData::LockScript(script.clone()),
        b"wsh",
    );
    assert_eq!(rebuilt.method, ScriptEncodeMethod::WScriptHash);
    assert_eq!(rebuilt.source, ScriptEncodeData::LockScript(script));
}

#[test]
fn spk_roundtrip_bare_without_key() {
    // The script does not name the key, so the commitment leaves its bytes
    // unchanged and the re-tagged source equals the original.
    let script = LockScript::from_vec(vec![0x52, 0x53]);
    let rebuilt = roundtrip(
        ScriptEncodeMethod::Bare,
        ScriptEncodeData::LockScript(script.clone()),
        b"bare",
    );
    assert_eq!(rebuilt.method, ScriptEncodeMethod::Bare);
    assert_eq!(rebuilt.source, ScriptEncodeData::LockScript(script));
}

#[test]
fn spk_roundtrip_bare_with_key() {
    // The script pushes the key, so the committed script differs from the
    // original: the method is recovered, the source is re-tagged as the
    // committed script.
    let mut bytes = vec![0x21];
    bytes.extend_from_slice(&Vec::from_hex(KEY_HEX).unwrap());
    bytes.push(0xad);
    let script = LockScript::from_vec(bytes);
    let rebuilt = roundtrip(
        ScriptEncodeMethod::Bare,
        ScriptEncodeData::LockScript(script.clone()),
        b"bare with key",
    );
    assert_eq!(rebuilt.method, ScriptEncodeMethod::Bare);
    assert_ne!(rebuilt.source, ScriptEncodeData::LockScript(script));
}

#[test]
fn spk_roundtrip_script_hash_without_key() {
    let script = LockScript::from_vec(vec![0x51, 0x51]);
    let rebuilt = roundtrip(
        ScriptEncodeMethod::ScriptHash,
        ScriptEncodeData::LockScript(script.clone()),
        b"sh",
    );
    assert_eq!(rebuilt.method, ScriptEncodeMethod::ScriptHash);
    assert_eq!(rebuilt.source, ScriptEncodeData::LockScript(script));
}

#[test]
fn spk_roundtrip_sh_wscript_hash_without_key() {
    let script = LockScript::from_vec(vec![0x51, 0x52]);
    let rebuilt = roundtrip(
        ScriptEncodeMethod::ShWScriptHash,
        ScriptEncodeData::LockScript(script.clone()),
        b"sh-wsh",
    );
    assert_eq!(rebuilt.method, ScriptEncodeMethod::ShWScriptHash);
    assert_eq!(rebuilt.source, ScriptEncodeData::LockScript(script));
}

#[test]
fn spk_script_hash_with_key_fails_reconstruction() {
    // The committed script differs from the original, so its hash in the
    // host no longer matches the hash recomputed from the proof's script.
    let tag = test_tag();
    let mut bytes = vec![0x21];
    bytes.extend_from_slice(&Vec::from_hex(KEY_HEX).unwrap());
    bytes.push(0xad);
    let script = LockScript::from_vec(bytes);
    let mut container = SpkContainer::construct(
        &tag,
        test_key(),
        ScriptEncodeData::LockScript(script),
        ScriptEncodeMethod::ScriptHash,
    );
    let commitment = SpkCommitment::embed_commit(&mut container, b"sh with key").unwrap();
    let proof = container.to_proof();
    assert_eq!(
        SpkContainer::reconstruct(&proof, &tag, &commitment.0).unwrap_err(),
        Error::InvalidProofStructure
    );
}

#[test]
fn spk_sh_wpubkey_hash_fails_reconstruction() {
    // The host wraps the tweaked key, the proof recomputes the wrapping of
    // the original key: the byte comparison cannot match.
    let tag = test_tag();
    let mut container = SpkContainer::construct(
        &tag,
        test_key(),
        ScriptEncodeData::SinglePubkey,
        ScriptEncodeMethod::ShWPubkeyHash,
    );
    let commitment = SpkCommitment::embed_commit(&mut container, b"sh-wpkh").unwrap();
    let proof = container.to_proof();
    assert_eq!(
        SpkContainer::reconstruct(&proof, &tag, &commitment.0).unwrap_err(),
        Error::InvalidProofStructure
    );
}

#[test]
fn spk_op_return_roundtrip_or_rejection() {
    // Whether an OP_RETURN embedding succeeds depends on the parity prefix
    // of the tweaked key; both outcomes must behave as specified.
    let tag = test_tag();
    let mut seen_success = false;
    let mut seen_rejection = false;
    for i in 0..64u32 {
        let msg = format!("op_return probe {}", i);
        let mut container = SpkContainer::construct(
            &tag,
            test_key(),
            ScriptEncodeData::SinglePubkey,
            ScriptEncodeMethod::OpReturn,
        );
        match SpkCommitment::embed_commit(&mut container, msg.as_bytes()) {
            Ok(commitment) => {
                seen_success = true;
                // The script is OP_RETURN of a 33-byte push of an even key.
                let bytes = commitment.0.as_bytes();
                assert_eq!(bytes.len(), 35);
                assert_eq!(bytes[0], 0x6a);
                assert_eq!(bytes[1], 0x21);
                assert_eq!(bytes[2], 0x02);
                let proof = container.to_proof();
                let rebuilt = SpkContainer::reconstruct(&proof, &tag, &commitment.0).unwrap();
                assert_eq!(rebuilt.method, ScriptEncodeMethod::OpReturn);
                assert_eq!(rebuilt.source, ScriptEncodeData::SinglePubkey);
            }
            Err(e) => {
                seen_rejection = true;
                assert_eq!(e, Error::InvalidOpReturnKey);
                // The factor was derived before the rejection and is kept.
                assert!(container.tweaking_factor.is_some());
                // The same inputs at the pubkey layer yield an odd-prefixed
                // tweaked key.
                let mut pc = PubkeyContainer {
                    pubkey: test_key(),
                    tag: test_tag(),
                    tweaking_factor: None,
                };
                let cmt = PubkeyCommitment::embed_commit(&mut pc, msg.as_bytes()).unwrap();
                assert_eq!(cmt.0.as_bytes()[0], 0x03);
            }
        }
    }
    assert!(seen_success);
    assert!(seen_rejection);
}

#[test]
fn spk_commitment_message_sensitivity() {
    let tag = test_tag();
    // A key-based embedding binds the message through the tweak.
    let mut container = SpkContainer::construct(
        &tag,
        test_key(),
        ScriptEncodeData::SinglePubkey,
        ScriptEncodeMethod::PubkeyHash,
    );
    let commitment = SpkCommitment::embed_commit(&mut container, b"msg one").unwrap();
    assert!(commitment.verify(&container, b"msg one").unwrap());
    assert!(!commitment.verify(&container, b"msg two").unwrap());

    // A script-based embedding binds the message once the script names the
    // key that carries the tweak.
    let mut bytes = vec![0x21];
    bytes.extend_from_slice(&Vec::from_hex(KEY_HEX).unwrap());
    bytes.push(0xac);
    let mut keyed = SpkContainer::construct(
        &tag,
        test_key(),
        ScriptEncodeData::LockScript(LockScript::from_vec(bytes)),
        ScriptEncodeMethod::ScriptHash,
    );
    let keyed_commitment = SpkCommitment::embed_commit(&mut keyed, b"msg one").unwrap();
    assert!(keyed_commitment.verify(&keyed, b"msg one").unwrap());
    assert!(!keyed_commitment.verify(&keyed, b"msg two").unwrap());
}

#[test]
fn spk_method_source_mismatch() {
    let tag = test_tag();
    let mut container = SpkContainer::construct(
        &tag,
        test_key(),
        ScriptEncodeData::SinglePubkey,
        ScriptEncodeMethod::ScriptHash,
    );
    assert_eq!(
        SpkCommitment::embed_commit(&mut container, b"mismatch").unwrap_err(),
        Error::InvalidProofStructure
    );
    // The inner commitment ran before the method check, so the factor is
    // recorded even on this failure.
    assert!(container.tweaking_factor.is_some());
}

#[test]
fn spk_taproot_host_reconstruction() {
    let tag = test_tag();
    let mut host_bytes = vec![0x51, 0x20];
    host_bytes.extend_from_slice(&[7u8; 32]);
    let host = dbc::script::PubkeyScript::from_vec(host_bytes);
    let root = Hash32::from_vec(vec![9u8; 32]).unwrap();
    let proof_ok = dbc::container::Proof {
        pubkey: test_key(),
        source: ScriptEncodeData::Taproot(root),
    };
    let rebuilt = SpkContainer::reconstruct(&proof_ok, &tag, &host).unwrap();
    assert_eq!(rebuilt.method, ScriptEncodeMethod::Taproot);
    let proof_bad = dbc::container::Proof {
        pubkey: test_key(),
        source: ScriptEncodeData::SinglePubkey,
    };
    assert_eq!(
        SpkContainer::reconstruct(&proof_bad, &tag, &host).unwrap_err(),
        Error::InvalidProofStructure
    );
}

#[test]
fn txout_roundtrip() {
    let tag = test_tag();
    let mut container = TxoutContainer::construct(
        &tag,
        100_000,
        test_key(),
        ScriptEncodeData::SinglePubkey,
        ScriptEncodeMethod::PubkeyHash,
    );
    let commitment = TxoutCommitment::embed_commit(&mut container, b"txout").unwrap();
    assert_eq!(commitment.0.value, 100_000);
    assert!(container.tweaking_factor.is_some());
    assert!(commitment.verify(&container, b"txout").unwrap());
    assert!(!commitment.verify(&container, b"other").unwrap());

    let proof = container.to_proof();
    let host = TxOut { value: 100_000, script_pubkey: commitment.0.script_pubkey.clone() };
    let rebuilt = TxoutContainer::reconstruct(&proof, &tag, &host).unwrap();
    assert_eq!(rebuilt.value, 100_000);
    assert_eq!(rebuilt.script_container.method, ScriptEncodeMethod::PubkeyHash);
    assert_eq!(rebuilt.script_container.source, ScriptEncodeData::SinglePubkey);
}

#[test]
fn pubkey_from_bytes_validation() {
    // Not a valid curve point encoding.
    assert!(Pubkey::from_bytes(vec![0x05; 33]).is_none());
    // Wrong length.
    assert!(Pubkey::from_bytes(vec![0x02; 32]).is_none());
    // A valid compressed key round-trips.
    let bytes = Vec::from_hex(KEY_HEX).unwrap();
    let pk = Pubkey::from_bytes(bytes.clone()).unwrap();
    assert_eq!(pk.as_bytes(), &bytes);
}

#[test]
fn sha256_wrapper_matches_reference() {
    // The library's hashing must agree with an independent implementation,
    // here on the fixed scheme tag.
    let ours = Hash32::new_sha256(b"LNPBP1");
    assert_eq!(ours.as_bytes().as_slice(), &LNPBP1_HASHED_TAG[..]);
    let h = <sha256::Hash as bitcoin::hashes::Hash>::hash(b"LNPBP1");
    let arr = <sha256::Hash as bitcoin::hashes::Hash>::into_inner(h);
    assert_eq!(arr.to_vec(), ours.as_bytes().clone());
}

#[test]
fn hash160_rendering_matches_reference() {
    // A P2PKH rendering embeds the HASH160 of the key; recompute it with an
    // independent implementation and compare the bytes in place.
    let key = test_key();
    let mut container = SpkContainer::construct(
        &test_tag(),
        key.clone(),
        ScriptEncodeData::SinglePubkey,
        ScriptEncodeMethod::PubkeyHash,
    );
    let commitment = SpkCommitment::embed_commit(&mut container, b"hash check").unwrap();
    let script = commitment.0.as_bytes();
    assert_eq!(script.len(), 25);
    assert_eq!(&script[0..3], &[0x76, 0xa9, 0x14]);
    assert_eq!(&script[23..25], &[0x88, 0xac]);
    // The committed key is what the pubkey layer yields for the same input.
    let mut pc = PubkeyContainer { pubkey: key, tag: test_tag(), tweaking_factor: None };
    let cmt = PubkeyCommitment::embed_commit(&mut pc, b"hash check").unwrap();
    let eh = <bitcoin::hashes::hash160::Hash as bitcoin::hashes::Hash>::hash(cmt.0.as_bytes());
    let expected = <bitcoin::hashes::hash160::Hash as bitcoin::hashes::Hash>::into_inner(eh);
    assert_eq!(&script[3..23], &expected[..]);
}
