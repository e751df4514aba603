use bitcoin::hashes::hex::{FromHex, ToHex};
use bitcoin::hashes::sha256;
use bitcoin::secp256k1;

use dbc::hashes::Hash32;
use dbc::keys::Pubkey;
use dbc::pubkey::{PubkeyCommitment, PubkeyContainer};

fn pk_of(k: &secp256k1::PublicKey) -> Pubkey {
    Pubkey::from_bytes(k.serialize().to_vec()).unwrap()
}

fn sha256_arr(data: &[u8]) -> [u8; 32] {
    let h = <sha256::Hash as bitcoin::hashes::Hash>::hash(data);
    <sha256::Hash as bitcoin::hashes::Hash>::into_inner(h)
}

fn tag_of(h: &[u8; 32]) -> Hash32 {
    Hash32::from_vec(h.to_vec()).unwrap()
}

fn gen_messages() -> Vec<Vec<u8>> {
    vec![
        // empty message
        b"".to_vec(),
        // zero byte message
        b"\x00".to_vec(),
        // text message
        b"test".to_vec(),
        // text length-extended message
        b"test*".to_vec(),
        // short binary message
        Vec::from_hex("deadbeef").unwrap(),
        // length-extended version
        Vec::from_hex("deadbeef00").unwrap(),
        // prefixed version
        Vec::from_hex("00deadbeef").unwrap(),
        // serialized public key as text
        b"0279be667ef9dcbbac55a06295ce870b07029bfcdb2dce28d959f2815b16f81798".to_vec(),
        // the same public key binary data
        Vec::from_hex("0279be667ef9dcbbac55a06295ce870b07029bfcdb2dce28d959f2815b16f81798")
            .unwrap(),
        // different public key
        Vec::from_hex("02f9308a019258c31049344f85f89d5229b531c845836f99b08601f113bce036f9")
            .unwrap(),
    ]
}

fn gen_secp_pubkeys(n: usize) -> Vec<secp256k1::PublicKey> {
    let mut ret = Vec::with_capacity(n);
    let mut sk = [0; 32];
    let secp = secp256k1::Secp256k1::new();

    for i in 1..n + 1 {
        sk[0] = i as u8;
        sk[1] = (i >> 8) as u8;
        sk[2] = (i >> 16) as u8;

        ret.push(secp256k1::PublicKey::from_secret_key(
            &secp,
            &secp256k1::SecretKey::from_slice(&sk[..]).unwrap(),
        ));
    }
    ret
}

/// Runs the commit-embed-verify round trip for a set of messages against one
/// container: commitments must be deterministic, verify against exactly
/// their own message, and never collide pairwise.
fn embed_commit_verify_suite(messages: Vec<Vec<u8>>, container: &mut PubkeyContainer) {
    let mut acc: Vec<PubkeyCommitment> = Vec::with_capacity(messages.len());
    for msg in messages.iter() {
        let commitment = PubkeyCommitment::embed_commit(container, msg).unwrap();

        // Commitments MUST be deterministic: each message should
        // produce unique commitment
        for _ in 1..10 {
            assert_eq!(PubkeyCommitment::embed_commit(container, msg).unwrap(), commitment);
        }

        // Testing verification
        assert!(commitment.verify(container, msg).unwrap());

        for m in messages.iter() {
            // Testing that commitment verification succeeds only
            // for the original message and fails for the rest
            assert_eq!(commitment.verify(container, m).unwrap(), m == msg);
        }

        for cmt in acc.iter() {
            // Testing that verification against other commitments
            // returns `false`
            assert!(!cmt.verify(container, msg).unwrap());
        }

        // Detecting collision
        assert!(!acc.contains(&commitment));
        acc.push(commitment);
    }
}

#[test]
fn test_pubkey_commitment() {
    let tag = sha256_arr(b"TEST_TAG");
    gen_secp_pubkeys(9).into_iter().for_each(|pubkey| {
        embed_commit_verify_suite(
            gen_messages(),
            &mut PubkeyContainer {
                pubkey: pk_of(&pubkey),
                tag: tag_of(&tag),
                tweaking_factor: None,
            },
        );
    });
}

#[test]
fn test_tweaking_results() {
    let tag = sha256_arr(b"TEST_TAG");
    let msg = "test message";
    let pubkey = Pubkey::from_bytes(
        Vec::from_hex("0218845781f631c48f1c9709e23092067d06837f30aa0cd0544ac887fe91ddd166")
            .unwrap(),
    )
    .unwrap();
    let commitment = PubkeyCommitment::embed_commit(
        &mut PubkeyContainer { pubkey, tag: tag_of(&tag), tweaking_factor: None },
        msg.as_bytes(),
    )
    .unwrap();
    assert_eq!(
        commitment.0.as_bytes().to_hex(),
        "02de6531527f7a453e0b53e4b33a78c60f9bcdb69abbf59866e33de347ceda0bdf"
    );
}
