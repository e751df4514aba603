use std::str::FromStr;

use bitcoin::hashes::hex::FromHex;
use bitcoin::hashes::{sha256, HashEngine, Hmac, HmacEngine};
use bitcoin::secp256k1;

use dbc::hashes::Hash32;
use dbc::keys::{Keyset, Pubkey};
use dbc::lnpbp1::{commit, verify, LNPBP1_HASHED_TAG};

fn sha256_arr(data: &[u8]) -> [u8; 32] {
    let h = <sha256::Hash as bitcoin::hashes::Hash>::hash(data);
    <sha256::Hash as bitcoin::hashes::Hash>::into_inner(h)
}

fn hmac_sha256_arr(key: &[u8], parts: &[&[u8]]) -> [u8; 32] {
    let mut engine = HmacEngine::<sha256::Hash>::new(key);
    for p in parts {
        engine.input(p);
    }
    let h = <Hmac<sha256::Hash> as bitcoin::hashes::Hash>::from_engine(engine);
    *<Hmac<sha256::Hash> as bitcoin::hashes::Hash>::as_inner(&h)
}

fn pk_of(k: &secp256k1::PublicKey) -> Pubkey {
    Pubkey::from_bytes(k.serialize().to_vec()).unwrap()
}

fn tag_of(h: &[u8; 32]) -> Hash32 {
    Hash32::from_vec(h.to_vec()).unwrap()
}

fn keyset_of(keys: &[secp256k1::PublicKey]) -> Keyset {
    let mut ks = Keyset::new();
    for k in keys {
        ks.insert(pk_of(k));
    }
    ks
}

fn gen_messages() -> Vec<Vec<u8>> {
    vec![
        // empty message
        b"".to_vec(),
        // zero byte message
        b"\x00".to_vec(),
        // text message
        b"test".to_vec(),
        // text length-extended message
        b"test*".to_vec(),
        // short binary message
        Vec::from_hex("deadbeef").unwrap(),
        // length-extended version
        Vec::from_hex("deadbeef00").unwrap(),
        // prefixed version
        Vec::from_hex("00deadbeef").unwrap(),
        // serialized public key as text
        b"0279be667ef9dcbbac55a06295ce870b07029bfcdb2dce28d959f2815b16f81798".to_vec(),
        // the same public key binary data
        Vec::from_hex("0279be667ef9dcbbac55a06295ce870b07029bfcdb2dce28d959f2815b16f81798")
            .unwrap(),
        // different public key
        Vec::from_hex("02f9308a019258c31049344f85f89d5229b531c845836f99b08601f113bce036f9")
            .unwrap(),
    ]
}

fn gen_secp_pubkeys(n: usize) -> Vec<secp256k1::PublicKey> {
    let mut ret = Vec::with_capacity(n);
    let mut sk = [0; 32];
    let secp = secp256k1::Secp256k1::new();

    for i in 1..n + 1 {
        sk[0] = i as u8;
        sk[1] = (i >> 8) as u8;
        sk[2] = (i >> 16) as u8;

        ret.push(secp256k1::PublicKey::from_secret_key(
            &secp,
            &secp256k1::SecretKey::from_slice(&sk[..]).unwrap(),
        ));
    }
    ret
}

#[test]
fn test_lnpbp1_tag() {
    assert_eq!(sha256_arr(b"LNPBP1"), LNPBP1_HASHED_TAG);
    assert_ne!(sha256_arr(b"LNPBP2"), LNPBP1_HASHED_TAG);
    assert_ne!(sha256_arr(b"LNPBP-1"), LNPBP1_HASHED_TAG);
    assert_ne!(sha256_arr(b"LNPBP_1"), LNPBP1_HASHED_TAG);
    assert_ne!(sha256_arr(b"lnpbp1"), LNPBP1_HASHED_TAG);
    assert_ne!(sha256_arr(b"lnpbp-1"), LNPBP1_HASHED_TAG);
    assert_ne!(sha256_arr(b"lnpbp_1"), LNPBP1_HASHED_TAG);
}

#[test]
fn test_single_key() {
    let tag = sha256_arr(b"ProtoTag");
    let tag2 = sha256_arr(b"Prototag");
    let dtag = tag_of(&tag);
    let dtag2 = tag_of(&tag2);
    let messages = gen_messages();
    let all_keys = gen_secp_pubkeys(6);
    let other_key = all_keys[0];
    let secp = secp256k1::Secp256k1::new();
    for msg in &messages {
        for pk0 in all_keys[1..].to_vec() {
            let original = pk_of(&pk0);
            let mut pk = pk_of(&pk0);
            let mut keyset = keyset_of(&[pk0]);
            let mut keyset2 = keyset_of(&[pk0]);
            let mut pk2 = pk_of(&pk0);
            let factor1 = commit(&mut keyset, &mut pk, &dtag, msg).unwrap();
            let factor2 = commit(&mut keyset2, &mut pk2, &dtag2, msg).unwrap();

            // Ensure that changing tag changes commitment and tweaking
            // factor (and tag is case-sensitive!)
            assert_ne!(factor1, factor2);
            assert_ne!(pk, pk2);

            // Ensure that factor value is not trivial
            assert_ne!(factor1.as_bytes().as_slice(), &[0u8; 32][..]);
            assert_ne!(factor1.as_bytes().as_slice(), &[1u8; 32][..]);
            assert_ne!(factor1.as_bytes().as_slice(), &[0xFFu8; 32][..]);
            assert_ne!(&factor1.as_bytes()[..], &tag[..]);
            assert_ne!(&factor1.as_bytes()[..], &msg[..]);

            // Verify that the key was indeed tweaked
            assert_ne!(pk, original);

            // Verify that the set updated
            assert_ne!(keyset_of(&[pk0]), keyset);
            let mut tweaked_set = Keyset::new();
            tweaked_set.insert(pk.clone());
            assert_eq!(tweaked_set, keyset);

            // Do commitment by hand
            let tweaking_factor =
                hmac_sha256_arr(&pk0.serialize(), &[&LNPBP1_HASHED_TAG, &tag[..], &sha256_arr(msg)[..]]);
            let mut altkey = pk0;
            altkey.add_exp_assign(&secp, &tweaking_factor[..]).unwrap();
            assert_eq!(pk_of(&altkey), pk);

            // Now try commitment with a different key, but the same data
            if pk_of(&other_key) != original {
                let mut other_commitment = pk_of(&other_key);
                let mut other_keyset = keyset_of(&[other_key]);
                let factor3 =
                    commit(&mut other_keyset, &mut other_commitment, &dtag, msg).unwrap();

                // Make sure we commit to the key value
                assert_ne!(factor1, factor3);

                // Make sure commitment value is not the same
                assert_ne!(pk, other_commitment);

                // Make sure we can't cross-verify
                assert_eq!(
                    verify(&other_commitment, &keyset_of(&[pk0]), &original, &dtag, msg),
                    false
                );
            }

            // Verify commitment
            assert!(verify(&pk, &keyset_of(&[pk0]), &original, &dtag, msg));

            // Make sure we can't cross-verify with different tag
            assert_eq!(verify(&pk, &keyset_of(&[pk0]), &original, &dtag2, msg), false);

            // Make sure we can't cross-verify with different message
            assert_eq!(
                verify(&pk, &keyset_of(&[pk0]), &original, &dtag2, b"some other message"),
                false
            );
        }
    }
}

#[test]
fn test_keyset() {
    let tag = sha256_arr(b"ProtoTag");
    let tag2 = sha256_arr(b"Prototag");
    let dtag = tag_of(&tag);
    let dtag2 = tag_of(&tag2);
    let messages = gen_messages();
    let all_keys = gen_secp_pubkeys(6);
    let other_key = all_keys[0];
    let secp = secp256k1::Secp256k1::new();
    let members = all_keys[1..].to_vec();
    let original_keyset = keyset_of(&members);
    for msg in &messages {
        for pk0 in members.clone() {
            let original = pk_of(&pk0);
            let mut pk = pk_of(&pk0);
            let mut keyset = original_keyset.clone();
            let mut keyset2 = original_keyset.clone();
            let mut pk2 = pk_of(&pk0);
            let factor1 = commit(&mut keyset, &mut pk, &dtag, msg).unwrap();
            let factor2 = commit(&mut keyset2, &mut pk2, &dtag2, msg).unwrap();

            // Ensure that changing tag changes commitment and tweaking
            // factor (and tag is case-sensitive!)
            assert_ne!(factor1, factor2);
            assert_ne!(pk, pk2);

            // Ensure that factor value is not trivial
            assert_ne!(factor1.as_bytes().as_slice(), &[0u8; 32][..]);
            assert_ne!(factor1.as_bytes().as_slice(), &[1u8; 32][..]);
            assert_ne!(factor1.as_bytes().as_slice(), &[0xFFu8; 32][..]);
            assert_ne!(&factor1.as_bytes()[..], &tag[..]);
            assert_ne!(&factor1.as_bytes()[..], &msg[..]);

            // Verify that the key was indeed tweaked
            assert_ne!(pk, original);

            // Verify that the set updated
            assert_ne!(original_keyset.clone(), keyset);
            // ... but only original key is touched
            let mut set = keyset.clone();
            set.remove(&pk);
            set.insert(original.clone());
            assert_eq!(set, original_keyset);

            // Do commitment by hand
            let tweaking_factor =
                hmac_sha256_arr(&pk0.serialize(), &[&LNPBP1_HASHED_TAG, &tag[..], msg]);
            let mut altkey = pk0;
            altkey.add_exp_assign(&secp, &tweaking_factor[..]).unwrap();
            // It must not match because done with a single key, not
            // their sum
            assert_ne!(pk_of(&altkey), pk);

            // Now try commitment with a different key, but the same data
            if pk_of(&other_key) != original {
                let mut other_pk = pk_of(&other_key);
                let mut other_keyset = original_keyset.clone();
                assert!(!other_keyset.contains(&other_pk));
                other_keyset.remove(&pk);
                other_keyset.insert(other_pk.clone());
                let factor3 = commit(&mut other_keyset, &mut other_pk, &dtag, msg).unwrap();

                // Make sure we commit to the key value
                assert_ne!(factor1, factor3);

                // Make sure commitment value is not the same
                assert_ne!(pk, other_pk);

                // Make sure we can't cross-verify
                assert_eq!(
                    verify(&other_pk, &keyset_of(&[pk0]), &original, &dtag, msg),
                    false
                );
                assert_eq!(verify(&other_pk, &original_keyset, &original, &dtag, msg), false);
            }

            // Verify commitment
            assert!(verify(&pk, &original_keyset, &original, &dtag, msg));

            // Make sure we can't cross-verify with a single key in a set
            assert_eq!(verify(&pk, &keyset_of(&[pk0]), &original, &dtag, msg), false);

            // Make sure we can't cross-verify with different tag
            assert_eq!(verify(&pk, &original_keyset, &original, &dtag2, msg), false);

            // Make sure we can't cross-verify with different message
            assert_eq!(
                verify(&pk, &original_keyset, &original, &dtag2, b"some other message"),
                false
            );
        }
    }
}

#[test]
#[should_panic(expected = "NotKeysetMember")]
fn test_failure_not_in_keyset() {
    let tag = sha256_arr(b"ProtoTag");
    let all_keys = gen_secp_pubkeys(6);
    let mut pk = pk_of(&all_keys[0]);
    let mut keyset = keyset_of(&all_keys[1..]);
    let _ = commit(&mut keyset, &mut pk, &tag_of(&tag), b"Message").unwrap();
}

#[test]
#[should_panic(expected = "SumInfiniteResult")]
fn test_crafted_negation() {
    let tag = sha256_arr(b"ProtoTag");
    let pubkey = secp256k1::PublicKey::from_str(
        "0218845781f631c48f1c9709e23092067d06837f30aa0cd0544ac887fe91ddd166",
    )
    .unwrap();
    let negkey = secp256k1::PublicKey::from_str(
        "0318845781f631c48f1c9709e23092067d06837f30aa0cd0544ac887fe91ddd166",
    )
    .unwrap();
    let mut keyset = keyset_of(&[pubkey, negkey]);
    let mut target = pk_of(&pubkey);
    let _ = commit(&mut keyset, &mut target, &tag_of(&tag), b"Message").unwrap();
}
