//! The dummy appointment fixture: a watchtower appointment wrapping a fixed
//! penalty transaction, encrypted under a dispute transaction id, with fixed
//! user metadata. The hex literal holding the penalty transaction is decoded
//! by a verified decoder; the hashing and encryption are trusted calls.

use vstd::prelude::*;
use vstd::string::StrSliceExecFns;

use chacha20poly1305::aead::{Aead, NewAead};
use chacha20poly1305::{ChaCha20Poly1305, Key, Nonce};

verus! {

/// The value of a hex digit; any other character reads as zero. The
/// decoder is only ever fed the fixed, well-formed literal below, where
/// the default branch is unreachable in practice.
pub open spec fn hex_val(c: char) -> int {
    if '0' <= c && c <= '9' {
        c as int - '0' as int
    } else if 'a' <= c && c <= 'f' {
        c as int - 'a' as int + 10
    } else if 'A' <= c && c <= 'F' {
        c as int - 'A' as int + 10
    } else {
        0
    }
}

/// The bytes a sequence of hex digits stands for, two digits a byte; a
/// trailing odd digit is dropped.
pub open spec fn hex_decode_spec(s: Seq<char>) -> Seq<u8> {
    Seq::new((s.len() / 2) as nat, |k: int| (hex_val(s[2 * k]) * 16 + hex_val(s[2 * k + 1])) as u8)
}

/// The value of a hex digit, as `hex_val` gives it.
fn hex_digit_val(c: char) -> (r: u8)
    ensures
        r == hex_val(c),
        r <= 15,
{
    if c >= '0' && c <= '9' {
        (c as u32 - '0' as u32) as u8
    } else if c >= 'a' && c <= 'f' {
        (c as u32 - 'a' as u32) as u8 + 10
    } else if c >= 'A' && c <= 'F' {
        (c as u32 - 'A' as u32) as u8 + 10
    } else {
        0
    }
}

/// Decodes a string of hex digit pairs into bytes.
pub fn hex_decode(s: &str) -> (r: Vec<u8>)
    ensures
        r@ == hex_decode_spec(s@),
{
    let n = s.unicode_len();
    let half = n / 2;
    let mut out: Vec<u8> = Vec::new();
    let mut k: usize = 0;
    while k < half
        invariant
            half == s@.len() / 2,
            n == s@.len(),
            k <= half,
            out@.len() == k,
            forall|m: int| 0 <= m < k ==> out@[m] == hex_decode_spec(s@)[m],
        decreases half - k,
    {
        let hi = hex_digit_val(s.get_char(2 * k));
        let lo = hex_digit_val(s.get_char(2 * k + 1));
        out.push(hi * 16 + lo);
        k += 1;
    }
    proof {
        assert(out@ =~= hex_decode_spec(s@));
    }
    out
}

/// The SHA-256 digest of a byte sequence, a function of its input alone.
pub uninterp spec fn sha256_of(data: Seq<u8>) -> Seq<u8>;

/// Relies on bitcoin's `sha256::Hash::hash`: the digest is a function of
/// the input bytes alone.
#[verifier::external_body]
pub(crate) fn sha256_32(data: &[u8; 32]) -> (r: [u8; 32])
    ensures
        r@ == sha256_of(data@),
{
    let digest = <bitcoin::hashes::sha256::Hash as bitcoin::hashes::Hash>::hash(&data[..]);
    bitcoin::hashes::Hash::into_inner(digest)
}

/// The ChaCha20-Poly1305 ciphertext for a key, nonce and plaintext, a
/// function of the three alone.
pub uninterp spec fn cipher_of(key: Seq<u8>, nonce: Seq<u8>, payload: Seq<u8>) -> Seq<u8>;

/// Relies on chacha20poly1305's `Aead::encrypt`: the ciphertext is a
/// function of key, nonce and plaintext alone, and is 16 bytes (the tag)
/// longer than the plaintext. Encryption only fails for plaintexts beyond
/// roughly 2^38 bytes, which the length bound rules out.
#[verifier::external_body]
pub(crate) fn chacha_encrypt(key: &[u8; 32], nonce: &[u8; 12], payload: &Vec<u8>) -> (r: Vec<u8>)
    requires
        payload@.len() < 0x4000_0000,
    ensures
        r@ == cipher_of(key@, nonce@, payload@),
        r@.len() == payload@.len() + 16,
{
    let cipher = ChaCha20Poly1305::new(Key::from_slice(key));
    cipher.encrypt(Nonce::from_slice(nonce), payload.as_slice()).unwrap()
}

/// The all-zero 12-byte nonce the appointment encryption uses.
pub open spec fn zero_nonce() -> Seq<u8> {
    Seq::new(12, |i: int| 0u8)
}

/// Encrypts a payload under a key derived from a dispute transaction id:
/// ChaCha20-Poly1305 with the SHA-256 of the txid as key and a zero nonce.
pub fn encrypt(payload: &Vec<u8>, secret_txid: &[u8; 32]) -> (r: Vec<u8>)
    requires
        payload@.len() < 0x4000_0000,
    ensures
        r@ == cipher_of(sha256_of(secret_txid@), zero_nonce(), payload@),
        r@.len() == payload@.len() + 16,
{
    let key = sha256_32(secret_txid);
    let nonce: [u8; 12] = [0; 12];
    proof {
        assert(nonce@ =~= zero_nonce());
    }
    chacha_encrypt(&key, &nonce, payload)
}

/// A watchtower appointment: a locator, the encrypted penalty transaction,
/// and the delay the penalty reserves for itself.
#[derive(Clone, Debug)]
pub struct Appointment {
    pub locator: [u8; 16],
    pub encrypted_blob: Vec<u8>,
    pub to_self_delay: u32,
}

impl Appointment {
    /// An appointment from its three parts.
    pub fn new(locator: [u8; 16], encrypted_blob: Vec<u8>, to_self_delay: u32) -> (r: Appointment)
        ensures
            r.locator@ == locator@,
            r.encrypted_blob@ == encrypted_blob@,
            r.to_self_delay == to_self_delay,
    {
        Appointment { locator, encrypted_blob, to_self_delay }
    }
}

/// An appointment together with the user metadata the tower stores for it.
#[derive(Clone, Debug)]
pub struct ExtendedAppointment {
    pub inner: Appointment,
    pub user_id: [u8; 16],
    pub user_signature: Vec<u8>,
    pub start_block: u32,
}

impl ExtendedAppointment {
    /// An extended appointment from its parts.
    pub fn new(inner: Appointment, user_id: [u8; 16], user_signature: Vec<u8>, start_block: u32)
        -> (r: ExtendedAppointment)
        ensures
            r.inner.locator@ == inner.locator@,
            r.inner.encrypted_blob@ == inner.encrypted_blob@,
            r.inner.to_self_delay == inner.to_self_delay,
            r.user_id@ == user_id@,
            r.user_signature@ == user_signature@,
            r.start_block == start_block,
    {
        ExtendedAppointment { inner, user_id, user_signature, start_block }
    }
}

/// The hex spelling of the fixed penalty transaction the fixture hard
/// codes: a historical coinbase transaction used as test data.
pub open spec fn penalty_tx_hex() -> Seq<char> {
    "010000000001010000000000000000000000000000000000000000000000000000000000000000ffffffff54038e830a1b4d696e656420627920416e74506f6f6c373432c2005b005e7a0ae3fabe6d6d7841cd582ead8ea5dd8e3de1173cae6fcd2a53c7362ebb7fb6f815604fe07cbe0200000000000000ac0e060005f90000ffffffff04d9476026000000001976a91411dbe48cc6b617f9c6adaf4d9ed5f625b1c7cb5988ac0000000000000000266a24aa21a9ed7248c6efddd8d99bfddd7f499f0b915bffa8253003cc934df1ff14a81301e2340000000000000000266a24b9e11b6d7054937e13f39529d6ad7e685e9dd4efa426f247d5f5a5bed58cdddb2d0fa60100000000000000002b6a2952534b424c4f434b3a054a68aa5368740e8b3e3c67bce45619c2cfd07d4d4f0936a5612d2d0034fa0a0120000000000000000000000000000000000000000000000000000000000000000000000000"@
}

/// The serialized bytes of the fixed penalty transaction.
pub open spec fn penalty_tx_spec() -> Seq<u8> {
    hex_decode_spec(penalty_tx_hex())
}

/// The serialized penalty transaction, decoded from its hex spelling.
pub fn penalty_tx_bytes() -> (r: Vec<u8>)
    ensures
        r@ == penalty_tx_spec(),
        r@.len() < 0x1000,
{
    let r = hex_decode(
        "010000000001010000000000000000000000000000000000000000000000000000000000000000ffffffff54038e830a1b4d696e656420627920416e74506f6f6c373432c2005b005e7a0ae3fabe6d6d7841cd582ead8ea5dd8e3de1173cae6fcd2a53c7362ebb7fb6f815604fe07cbe0200000000000000ac0e060005f90000ffffffff04d9476026000000001976a91411dbe48cc6b617f9c6adaf4d9ed5f625b1c7cb5988ac0000000000000000266a24aa21a9ed7248c6efddd8d99bfddd7f499f0b915bffa8253003cc934df1ff14a81301e2340000000000000000266a24b9e11b6d7054937e13f39529d6ad7e685e9dd4efa426f247d5f5a5bed58cdddb2d0fa60100000000000000002b6a2952534b424c4f434b3a054a68aa5368740e8b3e3c67bce45619c2cfd07d4d4f0936a5612d2d0034fa0a0120000000000000000000000000000000000000000000000000000000000000000000000000",
    );
    proof {
        reveal_strlit(
            "010000000001010000000000000000000000000000000000000000000000000000000000000000ffffffff54038e830a1b4d696e656420627920416e74506f6f6c373432c2005b005e7a0ae3fabe6d6d7841cd582ead8ea5dd8e3de1173cae6fcd2a53c7362ebb7fb6f815604fe07cbe0200000000000000ac0e060005f90000ffffffff04d9476026000000001976a91411dbe48cc6b617f9c6adaf4d9ed5f625b1c7cb5988ac0000000000000000266a24aa21a9ed7248c6efddd8d99bfddd7f499f0b915bffa8253003cc934df1ff14a81301e2340000000000000000266a24b9e11b6d7054937e13f39529d6ad7e685e9dd4efa426f247d5f5a5bed58cdddb2d0fa60100000000000000002b6a2952534b424c4f434b3a054a68aa5368740e8b3e3c67bce45619c2cfd07d4d4f0936a5612d2d0034fa0a0120000000000000000000000000000000000000000000000000000000000000000000000000",
        );
    }
    r
}

/// The dummy appointment fixture. The locator is the first 16 bytes of the
/// dispute txid (the all-ones txid when none is given); the blob encrypts
/// the fixed penalty transaction under that txid; the metadata is fixed.
pub fn generate_dummy_appointment(dispute_txid: Option<&[u8; 32]>) -> (r: ExtendedAppointment)
    ensures
        ({
            let d = match dispute_txid {
                Some(t) => t@,
                None => Seq::new(32, |i: int| 1u8),
            };
            &&& r.inner.locator@ == d.subrange(0, 16)
            &&& r.inner.encrypted_blob@ == cipher_of(
                sha256_of(d),
                zero_nonce(),
                penalty_tx_spec(),
            )
            &&& r.inner.to_self_delay == 21
            &&& r.user_id@ == Seq::new(16, |i: int| 2u8)
            &&& r.user_signature@ == seq![5u8, 6u8, 7u8, 8u8]
            &&& r.start_block == 42
        }),
{
    let txid: [u8; 32] = match dispute_txid {
        Some(t) => *t,
        None => [1; 32],
    };
    proof {
        if dispute_txid is None {
            assert(txid@ =~= Seq::new(32, |i: int| 1u8));
        }
    }
    let penalty_tx = penalty_tx_bytes();
    let locator: [u8; 16] = [
        txid[0],
        txid[1],
        txid[2],
        txid[3],
        txid[4],
        txid[5],
        txid[6],
        txid[7],
        txid[8],
        txid[9],
        txid[10],
        txid[11],
        txid[12],
        txid[13],
        txid[14],
        txid[15],
    ];
    proof {
        assert(locator@ =~= txid@.subrange(0, 16));
    }
    let encrypted_blob = encrypt(&penalty_tx, &txid);
    let appointment = Appointment::new(locator, encrypted_blob, 21);
    let user_id: [u8; 16] = [2; 16];
    let user_signature: Vec<u8> = vec![5, 6, 7, 8];
    let start_block: u32 = 42;
    proof {
        assert(user_id@ =~= Seq::new(16, |i: int| 2u8));
        assert(user_signature@ =~= seq![5u8, 6u8, 7u8, 8u8]);
    }
    ExtendedAppointment::new(appointment, user_id, user_signature, start_block)
}

} // verus!
