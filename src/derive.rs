use vstd::prelude::*;
use vstd::utf8::encode_utf8;
use crate::error::EncryptionError;
use rand::RngCore;
use ring::digest;
use ring::pbkdf2;

verus! {

/// Iteration count of the password-based derivation.
pub const PBKDF2_ITERATIONS: u32 = 100_000;

/// Bytes in a salt.
pub const SALT_LEN: usize = 16;

/// Longest secret or salt, in bytes, handed to the hash functions below: their
/// bit length must fit in 64 bits, and this bound leaves room for padding.
pub const MAX_SECRET_LEN: u64 = 0x1000_0000_0000_0000;

#[verifier::external_type_specification]
#[verifier::external_body]
pub struct ExRandError(rand::Error);

/// The 32-byte PBKDF2-HMAC-SHA256 output for an iteration count, a salt and a
/// secret.
pub uninterp spec fn pbkdf2_sha256_key(iterations: nat, salt: Seq<u8>, secret: Seq<u8>) -> Seq<u8>;

/// The SHA-256 digest of a byte string.
pub uninterp spec fn sha256_of(data: Seq<u8>) -> Seq<u8>;

/// Relies on ring::pbkdf2::derive with PBKDF2_HMAC_SHA256: it fills the 32-byte
/// output from the iteration count, the salt and the secret alone.
#[verifier::external_body]
fn pbkdf2_sha256(iterations: u32, salt: &[u8], secret: &[u8]) -> (r: [u8; 32])
    requires
        iterations > 0,
        salt@.len() <= MAX_SECRET_LEN as nat,
        secret@.len() <= MAX_SECRET_LEN as nat,
    ensures
        r@ == pbkdf2_sha256_key(iterations as nat, salt@, secret@),
{
    let mut out = [0u8; 32];
    let rounds = std::num::NonZeroU32::new(iterations).unwrap();
    pbkdf2::derive(pbkdf2::PBKDF2_HMAC_SHA256, rounds, salt, secret, &mut out);
    out
}

/// Relies on ring::digest::digest with SHA256: a 32-byte digest of the data
/// alone.
#[verifier::external_body]
fn sha256_digest(data: &[u8]) -> (r: [u8; 32])
    requires
        data@.len() <= MAX_SECRET_LEN as nat,
    ensures
        r@ == sha256_of(data@),
{
    let d = digest::digest(&digest::SHA256, data);
    let mut out = [0u8; 32];
    out.copy_from_slice(d.as_ref());
    out
}

/// Relies on rand's OsRng::try_fill_bytes: it fills the buffer from the
/// operating system's secure random source, or reports that source's failure.
#[verifier::external_body]
pub(crate) fn fill_from_os_rng(buf: &mut [u8]) -> (r: Result<(), rand::Error>)
    ensures
        final(buf)@.len() == old(buf)@.len(),
{
    rand::rngs::OsRng.try_fill_bytes(buf)
}

/// How a symmetric key is obtained from the operator's secret.
#[derive(Debug, Clone, Copy, PartialEq, Eq, Structural)]
pub enum KeyDerivation {
    /// PBKDF2-HMAC-SHA256 over the password and the vault's salt.
    Password,
    /// A single SHA-256 of the mnemonic; the salt is not used. Weaker than
    /// `Password`, and only ever chosen explicitly.
    Mnemonic,
}

/// The key that a strategy derives from a secret and a salt.
pub open spec fn derived_key(strategy: KeyDerivation, secret: Seq<u8>, salt: Seq<u8>) -> Seq<u8> {
    match strategy {
        KeyDerivation::Password => pbkdf2_sha256_key(PBKDF2_ITERATIONS as nat, salt, secret),
        KeyDerivation::Mnemonic => sha256_of(secret),
    }
}

/// The outcome of deriving a key: an empty secret is refused.
pub open spec fn derive_outcome(strategy: KeyDerivation, secret: Seq<char>, salt: Seq<u8>) -> Result<Seq<u8>, EncryptionError> {
    if secret.len() == 0 {
        Err(EncryptionError::DerivationFailure)
    } else {
        Ok(derived_key(strategy, encode_utf8(secret), salt))
    }
}

/// Spec view of a derivation result.
pub open spec fn key_result_view(r: Result<[u8; 32], EncryptionError>) -> Result<Seq<u8>, EncryptionError> {
    match r {
        Ok(k) => Ok(k@),
        Err(e) => Err(e),
    }
}

/// Derives a 32-byte key from a password and the vault's salt with
/// PBKDF2-HMAC-SHA256 at `PBKDF2_ITERATIONS` rounds.
pub fn derive_key_from_password(password: &str, salt: &[u8; 16]) -> (r: Result<[u8; 32], EncryptionError>)
    requires
        encode_utf8(password@).len() <= MAX_SECRET_LEN as nat,
    ensures
        key_result_view(r) == derive_outcome(KeyDerivation::Password, password@, salt@),
{
    if password.is_empty() {
        return Err(EncryptionError::DerivationFailure);
    }
    Ok(pbkdf2_sha256(PBKDF2_ITERATIONS, salt.as_slice(), password.as_bytes()))
}

/// Derives a 32-byte key from a mnemonic with one SHA-256.
pub fn derive_key_from_mnemonic(mnemonic: &str) -> (r: Result<[u8; 32], EncryptionError>)
    requires
        encode_utf8(mnemonic@).len() <= MAX_SECRET_LEN as nat,
    ensures
        mnemonic@.len() == 0 ==> r == Err::<[u8; 32], EncryptionError>(EncryptionError::DerivationFailure),
        mnemonic@.len() > 0 ==> r is Ok && r->Ok_0@ == sha256_of(encode_utf8(mnemonic@)),
{
    if mnemonic.is_empty() {
        return Err(EncryptionError::DerivationFailure);
    }
    Ok(sha256_digest(mnemonic.as_bytes()))
}

/// Derives a key with the chosen strategy.
pub fn derive_key(strategy: KeyDerivation, secret: &str, salt: &[u8; 16]) -> (r: Result<[u8; 32], EncryptionError>)
    requires
        encode_utf8(secret@).len() <= MAX_SECRET_LEN as nat,
    ensures
        key_result_view(r) == derive_outcome(strategy, secret@, salt@),
{
    match strategy {
        KeyDerivation::Password => derive_key_from_password(secret, salt),
        KeyDerivation::Mnemonic => derive_key_from_mnemonic(secret),
    }
}

/// Draws a fresh salt from the operating system's secure random source.
pub fn generate_salt() -> (r: Result<[u8; 16], EncryptionError>)
    ensures
        r is Err ==> r == Err::<[u8; 16], EncryptionError>(EncryptionError::RandomFailure),
{
    let mut salt = [0u8; 16];
    match fill_from_os_rng(&mut salt) {
        Ok(()) => Ok(salt),
        Err(_) => Err(EncryptionError::RandomFailure),
    }
}

/// Law: derivation is pure. The same strategy, secret and salt give the same
/// outcome, and on a non-empty secret the same key.
pub proof fn lemma_derive_deterministic(strategy: KeyDerivation, s1: Seq<char>, s2: Seq<char>, salt1: Seq<u8>, salt2: Seq<u8>)
    requires
        s1 == s2,
        salt1 == salt2,
    ensures
        derive_outcome(strategy, s1, salt1) == derive_outcome(strategy, s2, salt2),
        s1.len() > 0 ==> derive_outcome(strategy, s1, salt1) == Ok::<Seq<u8>, EncryptionError>(
            derived_key(strategy, encode_utf8(s2), salt2),
        ),
{
}

} // verus!
