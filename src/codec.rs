use vstd::prelude::*;
use crate::derive::fill_from_os_rng;
use crate::error::EncryptionError;
use aes_gcm::aead::generic_array::GenericArray;
use aes_gcm::aead::{Aead, KeyInit};
use aes_gcm::{Aes256Gcm, Nonce};

verus! {

/// Bytes of the random nonce that starts every payload.
pub const NONCE_LEN: usize = 12;

/// Bytes of the authentication tag that ends every ciphertext.
pub const TAG_LEN: usize = 16;

/// Longest plaintext that AES-256-GCM accepts, in bytes.
pub const MAX_PLAINTEXT_LEN: u64 = 0x10_0000_0000;

#[verifier::external_type_specification]
#[verifier::external_body]
pub struct ExAeadError(aes_gcm::Error);

/// The ciphertext-and-tag that AES-256-GCM makes of a plaintext under a key and
/// a nonce, with no associated data.
pub uninterp spec fn aes256gcm_seal(key: Seq<u8>, nonce: Seq<u8>, plaintext: Seq<u8>) -> Seq<u8>;

/// What AES-256-GCM recovers from a ciphertext-and-tag under a key and a nonce:
/// the plaintext when the tag verifies, nothing otherwise.
pub uninterp spec fn aes256gcm_open(key: Seq<u8>, nonce: Seq<u8>, ciphertext: Seq<u8>) -> Option<Seq<u8>>;

/// Relies on aes_gcm's Aes256Gcm::encrypt (trait Aead) with no associated data:
/// it fails only on a plaintext longer than P_MAX (2^36 bytes), and otherwise
/// returns the ciphertext followed by a 16-byte tag, which decryption under the
/// same key and nonce authenticates and turns back into the plaintext.
#[verifier::external_body]
fn aes_gcm_encrypt(key: &[u8; 32], nonce: &[u8; 12], plaintext: &[u8]) -> (r: Result<Vec<u8>, aes_gcm::Error>)
    ensures
        r is Err <==> plaintext@.len() > MAX_PLAINTEXT_LEN as nat,
        r is Ok ==> r->Ok_0@ == aes256gcm_seal(key@, nonce@, plaintext@),
        r is Ok ==> r->Ok_0@.len() == plaintext@.len() + TAG_LEN,
        r is Ok ==> aes256gcm_open(key@, nonce@, r->Ok_0@) == Some(plaintext@),
{
    let cipher = Aes256Gcm::new(GenericArray::from_slice(key));
    cipher.encrypt(Nonce::from_slice(nonce), plaintext)
}

/// Relies on aes_gcm's Aes256Gcm::decrypt (trait Aead) with no associated data:
/// it returns the plaintext when the tag verifies under the key and nonce, and
/// an error otherwise, never unauthenticated bytes.
#[verifier::external_body]
fn aes_gcm_decrypt(key: &[u8; 32], nonce: &[u8; 12], ciphertext: &[u8]) -> (r: Result<Vec<u8>, aes_gcm::Error>)
    ensures
        r is Ok ==> aes256gcm_open(key@, nonce@, ciphertext@) == Some(r->Ok_0@),
        r is Err ==> aes256gcm_open(key@, nonce@, ciphertext@) is None,
{
    let cipher = Aes256Gcm::new(GenericArray::from_slice(key));
    cipher.decrypt(Nonce::from_slice(nonce), ciphertext)
}

/// The wire form of an encrypted payload: the nonce, then ciphertext-and-tag.
pub open spec fn sealed_payload(key: Seq<u8>, nonce: Seq<u8>, plaintext: Seq<u8>) -> Seq<u8> {
    nonce + aes256gcm_seal(key, nonce, plaintext)
}

/// The nonce part of a payload.
pub open spec fn payload_nonce(payload: Seq<u8>) -> Seq<u8> {
    payload.subrange(0, NONCE_LEN as int)
}

/// The ciphertext-and-tag part of a payload.
pub open spec fn payload_body(payload: Seq<u8>) -> Seq<u8> {
    payload.subrange(NONCE_LEN as int, payload.len() as int)
}

/// `payload` is an encryption of `plaintext` under `key`: a nonce followed by
/// the ciphertext-and-tag made with that nonce, which authenticates.
pub open spec fn is_encryption_of(key: Seq<u8>, plaintext: Seq<u8>, payload: Seq<u8>) -> bool {
    &&& payload.len() >= NONCE_LEN
    &&& payload == sealed_payload(key, payload_nonce(payload), plaintext)
    &&& payload.len() == NONCE_LEN + plaintext.len() + TAG_LEN
    &&& aes256gcm_open(key, payload_nonce(payload), payload_body(payload)) == Some(plaintext)
}

/// What decrypting a payload gives: a payload shorter than a nonce, or one
/// whose tag does not verify, is a `CryptoFailure`.
pub open spec fn open_outcome(key: Seq<u8>, payload: Seq<u8>) -> Result<Seq<u8>, EncryptionError> {
    if payload.len() < NONCE_LEN {
        Err(EncryptionError::CryptoFailure)
    } else {
        match aes256gcm_open(key, payload_nonce(payload), payload_body(payload)) {
            Some(p) => Ok(p),
            None => Err(EncryptionError::CryptoFailure),
        }
    }
}

/// Spec view of a byte result.
pub open spec fn bytes_result_view(r: Result<Vec<u8>, EncryptionError>) -> Result<Seq<u8>, EncryptionError> {
    match r {
        Ok(v) => Ok(v@),
        Err(e) => Err(e),
    }
}

/// Encrypts a plaintext under a key with a given nonce, in the wire form.
pub fn seal_with_nonce(key: &[u8; 32], nonce: &[u8; 12], plaintext: &[u8]) -> (r: Result<Vec<u8>, EncryptionError>)
    ensures
        plaintext@.len() > MAX_PLAINTEXT_LEN as nat ==> r == Err::<Vec<u8>, EncryptionError>(EncryptionError::CryptoFailure),
        plaintext@.len() <= MAX_PLAINTEXT_LEN as nat ==> r is Ok && is_encryption_of(key@, plaintext@, r->Ok_0@)
            && payload_nonce(r->Ok_0@) == nonce@,
{
    match aes_gcm_encrypt(key, nonce, plaintext) {
        Ok(ct) => {
            let mut out: Vec<u8> = Vec::new();
            let mut i: usize = 0;
            while i < NONCE_LEN
                invariant
                    i <= NONCE_LEN,
                    out@ == nonce@.subrange(0, i as int),
                decreases NONCE_LEN - i,
            {
                out.push(nonce[i]);
                i = i + 1;
            }
            let mut j: usize = 0;
            while j < ct.len()
                invariant
                    j <= ct@.len(),
                    out@ == nonce@ + ct@.subrange(0, j as int),
                decreases ct@.len() - j,
            {
                out.push(ct[j]);
                j = j + 1;
            }
            proof {
                assert(ct@.subrange(0, ct@.len() as int) =~= ct@);
                assert(payload_nonce(out@) =~= nonce@);
                assert(payload_body(out@) =~= ct@);
            }
            Ok(out)
        },
        Err(_) => Err(EncryptionError::CryptoFailure),
    }
}

/// Encrypts a plaintext under a key with a fresh nonce from the operating
/// system's secure random source.
pub fn encrypt_payload(key: &[u8; 32], plaintext: &[u8]) -> (r: Result<Vec<u8>, EncryptionError>)
    ensures
        r is Ok ==> is_encryption_of(key@, plaintext@, r->Ok_0@),
        r is Ok ==> plaintext@.len() <= MAX_PLAINTEXT_LEN as nat,
        r is Err ==> r == Err::<Vec<u8>, EncryptionError>(EncryptionError::RandomFailure) || (
            r == Err::<Vec<u8>, EncryptionError>(EncryptionError::CryptoFailure)
            && plaintext@.len() > MAX_PLAINTEXT_LEN as nat),
{
    let mut nonce = [0u8; 12];
    match fill_from_os_rng(&mut nonce) {
        Ok(()) => seal_with_nonce(key, &nonce, plaintext),
        Err(_) => Err(EncryptionError::RandomFailure),
    }
}

/// Decrypts a payload in the wire form.
pub fn decrypt_payload(key: &[u8; 32], payload: &[u8]) -> (r: Result<Vec<u8>, EncryptionError>)
    ensures
        bytes_result_view(r) == open_outcome(key@, payload@),
{
    if payload.len() < NONCE_LEN {
        return Err(EncryptionError::CryptoFailure);
    }
    let mut nonce = [0u8; 12];
    let mut i: usize = 0;
    while i < NONCE_LEN
        invariant
            i <= NONCE_LEN,
            payload@.len() >= NONCE_LEN,
            nonce@.len() == NONCE_LEN,
            forall|k: int| 0 <= k < i ==> nonce@[k] == payload@[k],
        decreases NONCE_LEN - i,
    {
        nonce[i] = payload[i];
        i = i + 1;
    }
    let mut body: Vec<u8> = Vec::with_capacity(payload.len() - NONCE_LEN);
    let mut j: usize = NONCE_LEN;
    while j < payload.len()
        invariant
            NONCE_LEN <= j <= payload@.len(),
            body@ == payload@.subrange(NONCE_LEN as int, j as int),
        decreases payload@.len() - j,
    {
        body.push(payload[j]);
        j = j + 1;
    }
    proof {
        assert(nonce@ =~= payload_nonce(payload@));
        assert(body@ =~= payload_body(payload@));
    }
    match aes_gcm_decrypt(key, &nonce, body.as_slice()) {
        Ok(p) => Ok(p),
        Err(_) => Err(EncryptionError::CryptoFailure),
    }
}

/// Law: decrypting an encryption of a plaintext under the same key gives the
/// plaintext back.
pub proof fn lemma_round_trip(key: Seq<u8>, plaintext: Seq<u8>, payload: Seq<u8>)
    requires
        is_encryption_of(key, plaintext, payload),
    ensures
        open_outcome(key, payload) == Ok::<Seq<u8>, EncryptionError>(plaintext),
{
}

/// Law: decryption never yields bytes that do not authenticate; whatever it
/// returns is the authenticated opening of the payload under the key.
pub proof fn lemma_only_authenticated_plaintext(key: Seq<u8>, payload: Seq<u8>, plaintext: Seq<u8>)
    requires
        open_outcome(key, payload) == Ok::<Seq<u8>, EncryptionError>(plaintext),
    ensures
        payload.len() >= NONCE_LEN,
        aes256gcm_open(key, payload_nonce(payload), payload_body(payload)) == Some(plaintext),
{
}

} // verus!
