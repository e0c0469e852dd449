use vstd::prelude::*;
use crate::cleanup::{GuardState, KeyFileGuard};
use crate::codec::{is_encryption_of, sealed_payload, MAX_PLAINTEXT_LEN};
use crate::derive::fill_from_os_rng;
use crate::encryption::{apply_actions, decrypt_key_file, decrypted_files, encrypt_key_file_with_nonce, FileAction, KeyFiles, KeyFilesView};
use crate::error::EncryptionError;

verus! {

proof fn lemma_apply_concat(v: KeyFilesView, a: Seq<FileAction>, b: Seq<FileAction>)
    ensures
        apply_actions(v, a + b) == apply_actions(apply_actions(v, a), b),
    decreases a.len(),
{
    if a.len() == 0 {
        assert(a + b =~= b);
    } else {
        assert((a + b).drop_first() =~= a.drop_first() + b);
        lemma_apply_concat(crate::encryption::apply_action(v, a[0]), a.drop_first(), b);
    }
}

/// Starts one use of a credential: its archive is decrypted into the plaintext
/// scratch file and a guard is armed for that file at once. On success the
/// returned actions, applied in order to the files as they were, give the
/// files as they are now.
pub fn begin_invocation(key_name: &str, files: &mut KeyFiles, key: &[u8; 32]) -> (r: Result<(KeyFileGuard, Vec<FileAction>), EncryptionError>)
    ensures
        match r {
            Ok((guard, actions)) => {
                &&& guard.state == GuardState::Armed
                &&& guard.key_name@ == key_name@
                &&& decrypted_files(key@, old(files)@) == Ok::<KeyFilesView, EncryptionError>(final(files)@)
                &&& apply_actions(old(files)@, actions@) == final(files)@
            },
            Err(e) => {
                &&& decrypted_files(key@, old(files)@) == Err::<KeyFilesView, EncryptionError>(e)
                &&& final(files)@ == old(files)@
            },
        },
{
    match decrypt_key_file(files, key) {
        Ok(actions) => {
            let mut guard = KeyFileGuard::new(key_name.to_owned());
            guard.arm();
            Ok((guard, actions))
        },
        Err(e) => Err(e),
    }
}

/// Ends one use of a credential with the given nonce, whatever the external
/// step reported: the plaintext it left is always sealed again, and the guard
/// is then released, so no plaintext remains. A failed re-encryption is
/// reported before a failed external step. The returned actions, applied in
/// order to the files as they were, give the files as they are now.
pub fn finish_invocation_with_nonce(guard: &mut KeyFileGuard, files: &mut KeyFiles, key: &[u8; 32], nonce: &[u8; 12], external_succeeded: bool) -> (r: (Result<(), EncryptionError>, Vec<FileAction>))
    requires
        old(guard).state == GuardState::Armed,
    ensures
        final(files)@.plaintext is None,
        final(guard).state != GuardState::Armed,
        final(guard).key_name@ == old(guard).key_name@,
        apply_actions(old(files)@, r.1@) == final(files)@,
        match old(files)@.plaintext {
            Some(p) => if p.len() <= MAX_PLAINTEXT_LEN as nat {
                &&& final(files)@.ciphertext == Some(sealed_payload(key@, nonce@, p))
                &&& is_encryption_of(key@, p, sealed_payload(key@, nonce@, p))
                &&& r.0 == if external_succeeded {
                    Ok::<(), EncryptionError>(())
                } else {
                    Err::<(), EncryptionError>(EncryptionError::CommandFailure)
                }
            } else {
                &&& final(files)@.ciphertext == old(files)@.ciphertext
                &&& r.0 == Err::<(), EncryptionError>(EncryptionError::CryptoFailure)
            },
            None => match old(files)@.ciphertext {
                Some(c) => {
                    &&& final(files)@.ciphertext == Some(c)
                    &&& r.0 == if external_succeeded {
                        Ok::<(), EncryptionError>(())
                    } else {
                        Err::<(), EncryptionError>(EncryptionError::CommandFailure)
                    }
                },
                None => {
                    &&& final(files)@.ciphertext is None
                    &&& r.0 == Err::<(), EncryptionError>(EncryptionError::NotFound)
                },
            },
        },
{
    let ghost start = files@;
    let (encrypted, mut actions) = match encrypt_key_file_with_nonce(files, key, nonce) {
        Ok(done) => (Ok(()), done),
        Err(e) => (Err(e), Vec::new()),
    };
    let mut cleanup = guard.release(files);
    proof {
        lemma_apply_concat(start, actions@, cleanup@);
    }
    actions.append(&mut cleanup);
    let outcome = match encrypted {
        Err(e) => Err(e),
        Ok(()) => if external_succeeded {
            Ok(())
        } else {
            Err(EncryptionError::CommandFailure)
        },
    };
    (outcome, actions)
}

/// Ends one use of a credential under a fresh nonce drawn from the operating
/// system's secure random source; see `finish_invocation_with_nonce`. If the
/// random source fails, the guard is still released, the archive is left as
/// it was, and `RandomFailure` is reported.
pub fn finish_invocation(guard: &mut KeyFileGuard, files: &mut KeyFiles, key: &[u8; 32], external_succeeded: bool) -> (r: (Result<(), EncryptionError>, Vec<FileAction>))
    requires
        old(guard).state == GuardState::Armed,
    ensures
        final(files)@.plaintext is None,
        final(guard).state != GuardState::Armed,
        final(guard).key_name@ == old(guard).key_name@,
        apply_actions(old(files)@, r.1@) == final(files)@,
        match old(files)@.plaintext {
            Some(p) => {
                ||| {
                    &&& r.0 == Err::<(), EncryptionError>(EncryptionError::RandomFailure)
                    &&& final(files)@.ciphertext == old(files)@.ciphertext
                }
                ||| {
                    &&& p.len() <= MAX_PLAINTEXT_LEN as nat
                    &&& final(files)@.ciphertext is Some
                    &&& is_encryption_of(key@, p, final(files)@.ciphertext->Some_0)
                    &&& r.0 == if external_succeeded {
                        Ok::<(), EncryptionError>(())
                    } else {
                        Err::<(), EncryptionError>(EncryptionError::CommandFailure)
                    }
                }
                ||| {
                    &&& p.len() > MAX_PLAINTEXT_LEN as nat
                    &&& final(files)@.ciphertext == old(files)@.ciphertext
                    &&& r.0 == Err::<(), EncryptionError>(EncryptionError::CryptoFailure)
                }
            },
            None => match old(files)@.ciphertext {
                Some(c) => {
                    &&& final(files)@.ciphertext == Some(c)
                    &&& r.0 == if external_succeeded {
                        Ok::<(), EncryptionError>(())
                    } else {
                        Err::<(), EncryptionError>(EncryptionError::CommandFailure)
                    }
                },
                None => {
                    &&& final(files)@.ciphertext is None
                    &&& r.0 == Err::<(), EncryptionError>(EncryptionError::NotFound)
                },
            },
        },
{
    if files.plaintext.is_none() {
        // Nothing is sealed on this path, so no nonce is drawn.
        return finish_invocation_with_nonce(guard, files, key, &[0u8; 12], external_succeeded);
    }
    let mut nonce = [0u8; 12];
    match fill_from_os_rng(&mut nonce) {
        Ok(()) => finish_invocation_with_nonce(guard, files, key, &nonce, external_succeeded),
        Err(_) => {
            let cleanup = guard.release(files);
            (Err(EncryptionError::RandomFailure), cleanup)
        },
    }
}

} // verus!
