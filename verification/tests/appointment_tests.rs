//! Tests of the appointment fixture against the real hashing, encryption
//! and hex primitives.

use bitcoin::hashes::hex::FromHex;
use bitcoin::hashes::Hash as BtcHash;
use bitcoin::util::psbt::serialize::{Deserialize, Serialize};
use chacha20poly1305::aead::{Aead, NewAead};
use chacha20poly1305::{ChaCha20Poly1305, Key, Nonce};
use teos_fixtures::{generate_dummy_appointment, penalty_tx_bytes};

const PENALTY_TX_HEX: &str = "010000000001010000000000000000000000000000000000000000000000000000000000000000ffffffff54038e830a1b4d696e656420627920416e74506f6f6c373432c2005b005e7a0ae3fabe6d6d7841cd582ead8ea5dd8e3de1173cae6fcd2a53c7362ebb7fb6f815604fe07cbe0200000000000000ac0e060005f90000ffffffff04d9476026000000001976a91411dbe48cc6b617f9c6adaf4d9ed5f625b1c7cb5988ac0000000000000000266a24aa21a9ed7248c6efddd8d99bfddd7f499f0b915bffa8253003cc934df1ff14a81301e2340000000000000000266a24b9e11b6d7054937e13f39529d6ad7e685e9dd4efa426f247d5f5a5bed58cdddb2d0fa60100000000000000002b6a2952534b424c4f434b3a054a68aa5368740e8b3e3c67bce45619c2cfd07d4d4f0936a5612d2d0034fa0a0120000000000000000000000000000000000000000000000000000000000000000000000000";

#[test]
fn dummy_appointment_fixed_fields() {
    let txid = [0xAB; 32];
    let appointment = generate_dummy_appointment(Some(&txid));
    assert_eq!(appointment.inner.locator, [0xAB; 16]);
    assert_eq!(appointment.inner.to_self_delay, 21);
    assert_eq!(appointment.user_id, [2; 16]);
    assert_eq!(appointment.user_signature, vec![5, 6, 7, 8]);
    assert_eq!(appointment.start_block, 42);
}

#[test]
fn dummy_appointment_default_txid() {
    let appointment = generate_dummy_appointment(None);
    assert_eq!(appointment.inner.locator, [1; 16]);
}

#[test]
fn dummy_appointment_is_deterministic() {
    let txid = [0x42; 32];
    let a = generate_dummy_appointment(Some(&txid));
    let b = generate_dummy_appointment(Some(&txid));
    assert_eq!(a.inner.encrypted_blob, b.inner.encrypted_blob);
    let c = generate_dummy_appointment(Some(&[0x43; 32]));
    assert_ne!(a.inner.encrypted_blob, c.inner.encrypted_blob);
}

#[test]
fn penalty_tx_decodes_like_the_hex_crate() {
    let expected = Vec::from_hex(PENALTY_TX_HEX).unwrap();
    assert_eq!(penalty_tx_bytes(), expected);
}

#[test]
fn penalty_tx_is_a_wellformed_transaction() {
    let bytes = penalty_tx_bytes();
    let tx = bitcoin::blockdata::transaction::Transaction::deserialize(&bytes).unwrap();
    assert_eq!(tx.serialize(), bytes);
}

#[test]
fn encrypted_blob_matches_reference_encryption() {
    let txid = [0x5a; 32];
    let appointment = generate_dummy_appointment(Some(&txid));
    let key = bitcoin::hashes::sha256::Hash::hash(&txid).into_inner();
    let cipher = ChaCha20Poly1305::new(Key::from_slice(&key));
    let expected = cipher
        .encrypt(Nonce::from_slice(&[0u8; 12]), penalty_tx_bytes().as_slice())
        .unwrap();
    assert_eq!(appointment.inner.encrypted_blob, expected);
    assert_eq!(appointment.inner.encrypted_blob.len(), penalty_tx_bytes().len() + 16);
}

#[test]
fn hex_decode_reads_pairs() {
    assert_eq!(teos_fixtures::hex_decode("00ff10Ab"), vec![0x00, 0xff, 0x10, 0xab]);
    assert_eq!(teos_fixtures::hex_decode(""), Vec::<u8>::new());
}

#[test]
fn encrypt_is_keyed_by_the_txid() {
    let payload = vec![1, 2, 3, 4];
    let a = teos_fixtures::encrypt(&payload, &[7; 32]);
    let b = teos_fixtures::encrypt(&payload, &[8; 32]);
    assert_eq!(a.len(), payload.len() + 16);
    assert_ne!(a, b);
}
