use vstd::prelude::*;

verus! {

/// What can go wrong while deriving keys or moving key material between its
/// plaintext and encrypted forms.
#[derive(Debug, Clone, Copy, PartialEq, Eq, Structural)]
pub enum EncryptionError {
    /// Reading, writing or removing a file failed.
    IoFailure,
    /// The payload is malformed, or its authentication tag does not verify
    /// (wrong key and tampered data are not told apart).
    CryptoFailure,
    /// A file that the operation needs is missing.
    NotFound,
    /// The secret to derive a key from is empty.
    DerivationFailure,
    /// The stored salt does not hold exactly sixteen bytes.
    CorruptSalt,
    /// The operating system's random source failed.
    RandomFailure,
    /// The external step that used the plaintext reported failure.
    CommandFailure,
}

/// The description of each error.
pub open spec fn description_of(e: EncryptionError) -> Seq<char> {
    match e {
        EncryptionError::IoFailure => "I/O failure"@,
        EncryptionError::CryptoFailure => "authentication failure"@,
        EncryptionError::NotFound => "file not found"@,
        EncryptionError::DerivationFailure => "key derivation failure"@,
        EncryptionError::CorruptSalt => "invalid salt length"@,
        EncryptionError::RandomFailure => "random number generator failure"@,
        EncryptionError::CommandFailure => "external command failed"@,
    }
}

impl EncryptionError {
    /// A short human-readable description of the error.
    pub fn describe(&self) -> (r: String)
        ensures
            r@ == description_of(*self),
    {
        match self {
            EncryptionError::IoFailure => String::from_str("I/O failure"),
            EncryptionError::CryptoFailure => String::from_str("authentication failure"),
            EncryptionError::NotFound => String::from_str("file not found"),
            EncryptionError::DerivationFailure => String::from_str("key derivation failure"),
            EncryptionError::CorruptSalt => String::from_str("invalid salt length"),
            EncryptionError::RandomFailure => String::from_str("random number generator failure"),
            EncryptionError::CommandFailure => String::from_str("external command failed"),
        }
    }
}

} // verus!
