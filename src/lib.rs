//! Encryption at rest for named key files: password-based key derivation,
//! authenticated encryption of key material, the per-credential file states,
//! and the guard that removes the plaintext scratch copy on every exit path.
use vstd::prelude::*;

pub mod error;
pub mod derive;
pub mod codec;
pub mod encryption;
pub mod cleanup;
pub mod session;
pub mod cli;

verus! {

} // verus!
