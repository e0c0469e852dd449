use aes_gcm::aead::generic_array::GenericArray;
use aes_gcm::aead::{Aead, KeyInit};
use aes_gcm::{Aes256Gcm, Nonce};
use commune_vault::cleanup::{GuardState, KeyFileGuard};
use commune_vault::codec::{decrypt_payload, encrypt_payload, seal_with_nonce};
use commune_vault::derive::{
    derive_key, derive_key_from_mnemonic, derive_key_from_password, generate_salt, KeyDerivation,
    PBKDF2_ITERATIONS,
};
use commune_vault::encryption::{
    decrypt_key_file, encrypt_key_file, encrypt_key_file_with_nonce, erase_key, get_encrypted_key_path, get_encryption_key,
    get_key_directory, get_key_path, get_or_create_salt, get_salt_path, FileAction, KeyFileState,
    KeyFiles, Recovery, SaltSource,
};
use commune_vault::error::EncryptionError;
use commune_vault::session::{begin_invocation, finish_invocation, finish_invocation_with_nonce};

fn key_a() -> [u8; 32] {
    [7u8; 32]
}

fn key_b() -> [u8; 32] {
    let mut k = [7u8; 32];
    k[31] = 8;
    k
}

fn hex(b: &[u8]) -> String {
    b.iter().map(|x| format!("{:02x}", x)).collect()
}

#[test]
fn round_trip_restores_payload() {
    let key = key_a();
    for msg in [b"a".to_vec(), b"{\"x\":1}".to_vec(), vec![0u8; 1000]] {
        let payload = encrypt_payload(&key, &msg).unwrap();
        assert_eq!(payload.len(), 12 + msg.len() + 16);
        assert_eq!(decrypt_payload(&key, &payload).unwrap(), msg);
    }
}

#[test]
fn round_trip_empty_payload() {
    let key = key_a();
    let payload = encrypt_payload(&key, b"").unwrap();
    assert_eq!(payload.len(), 28);
    assert_eq!(decrypt_payload(&key, &payload).unwrap(), Vec::<u8>::new());
}

#[test]
fn fresh_nonce_per_encryption() {
    let key = key_a();
    let a = encrypt_payload(&key, b"secret").unwrap();
    let b = encrypt_payload(&key, b"secret").unwrap();
    assert_ne!(a[..12], b[..12]);
    assert_ne!(a, b);
}

#[test]
fn tampered_bit_is_rejected() {
    let key = key_a();
    let payload = encrypt_payload(&key, b"{\"x\":1}").unwrap();
    for byte in 0..payload.len() {
        for bit in 0..8 {
            let mut bad = payload.clone();
            bad[byte] ^= 1 << bit;
            assert_eq!(decrypt_payload(&key, &bad), Err(EncryptionError::CryptoFailure));
        }
    }
}

#[test]
fn wrong_key_is_rejected() {
    let payload = encrypt_payload(&key_a(), b"{\"x\":1}").unwrap();
    assert_eq!(decrypt_payload(&key_b(), &payload), Err(EncryptionError::CryptoFailure));
}

#[test]
fn short_payload_is_rejected() {
    let key = key_a();
    assert_eq!(decrypt_payload(&key, &[]), Err(EncryptionError::CryptoFailure));
    assert_eq!(decrypt_payload(&key, &[0u8; 11]), Err(EncryptionError::CryptoFailure));
    assert_eq!(decrypt_payload(&key, &[0u8; 12]), Err(EncryptionError::CryptoFailure));
    assert_eq!(decrypt_payload(&key, &[0u8; 28]), Err(EncryptionError::CryptoFailure));
}

#[test]
fn seal_with_nonce_matches_aes_gcm() {
    let key = key_a();
    let nonce = [3u8; 12];
    let msg = b"key material";
    let payload = seal_with_nonce(&key, &nonce, msg).unwrap();
    let cipher = Aes256Gcm::new(GenericArray::from_slice(&key));
    let expected = cipher.encrypt(Nonce::from_slice(&nonce), &msg[..]).unwrap();
    assert_eq!(&payload[..12], &nonce[..]);
    assert_eq!(&payload[12..], &expected[..]);
    assert_ne!(&payload[12..12 + msg.len()], &msg[..]);
    assert_eq!(decrypt_payload(&key, &payload).unwrap(), msg.to_vec());
}

#[test]
fn password_derivation_is_deterministic() {
    let salt = [1u8; 16];
    let a = derive_key_from_password("hunter2", &salt).unwrap();
    let b = derive_key_from_password("hunter2", &salt).unwrap();
    assert_eq!(a, b);
}

#[test]
fn password_derivation_depends_on_both_inputs() {
    let salt = [1u8; 16];
    let mut other_salt = salt;
    other_salt[0] = 2;
    let a = derive_key_from_password("hunter2", &salt).unwrap();
    assert_ne!(a, derive_key_from_password("hunter3", &salt).unwrap());
    assert_ne!(a, derive_key_from_password("hunter2", &other_salt).unwrap());
}

#[test]
fn password_derivation_matches_pbkdf2() {
    let salt = [9u8; 16];
    let mut expected = [0u8; 32];
    ring::pbkdf2::derive(
        ring::pbkdf2::PBKDF2_HMAC_SHA256,
        std::num::NonZeroU32::new(PBKDF2_ITERATIONS).unwrap(),
        &salt,
        b"correct horse",
        &mut expected,
    );
    let key = derive_key_from_password("correct horse", &salt).unwrap();
    assert_eq!(key, expected);
    assert_ne!(&key[..13], b"correct horse");
}

#[test]
fn empty_secret_is_refused() {
    let salt = [1u8; 16];
    assert_eq!(derive_key_from_password("", &salt), Err(EncryptionError::DerivationFailure));
    assert_eq!(derive_key_from_mnemonic(""), Err(EncryptionError::DerivationFailure));
    assert_eq!(derive_key(KeyDerivation::Password, "", &salt), Err(EncryptionError::DerivationFailure));
}

#[test]
fn mnemonic_derivation_is_sha256() {
    let key = derive_key_from_mnemonic("abc").unwrap();
    assert_eq!(hex(&key), "ba7816bf8f01cfea414140de5dae2223b00361a396177a9cb410ff61f20015ad");
}

#[test]
fn strategies_are_distinct() {
    let salt = [1u8; 16];
    let by_password = derive_key(KeyDerivation::Password, "abc", &salt).unwrap();
    let by_mnemonic = derive_key(KeyDerivation::Mnemonic, "abc", &salt).unwrap();
    assert_ne!(by_password, by_mnemonic);
    assert_eq!(by_password, derive_key_from_password("abc", &salt).unwrap());
    assert_eq!(by_mnemonic, derive_key_from_mnemonic("abc").unwrap());
}

#[test]
fn generated_salts_differ() {
    let a = generate_salt().unwrap();
    let b = generate_salt().unwrap();
    assert_ne!(a, b);
}

#[test]
fn stored_salt_is_used() {
    let stored = Some((0u8..16).collect::<Vec<u8>>());
    match get_or_create_salt(&stored).unwrap() {
        SaltSource::Stored(s) => assert_eq!(s.to_vec(), stored.unwrap()),
        SaltSource::Fresh(_) => panic!("expected the stored salt"),
    }
}

#[test]
fn corrupt_salt_is_refused() {
    assert_eq!(get_or_create_salt(&Some(vec![0u8; 15])).unwrap_err(), EncryptionError::CorruptSalt);
    assert_eq!(get_or_create_salt(&Some(vec![0u8; 17])).unwrap_err(), EncryptionError::CorruptSalt);
    assert_eq!(get_or_create_salt(&Some(Vec::new())).unwrap_err(), EncryptionError::CorruptSalt);
}

#[test]
fn missing_salt_is_generated() {
    let src = get_or_create_salt(&None).unwrap();
    assert!(matches!(src, SaltSource::Fresh(_)));
    assert_eq!(src.salt().len(), 16);
}

#[test]
fn encryption_key_erases_password() {
    let salt = [5u8; 16];
    let mut password = String::from("s3cret");
    let key = get_encryption_key(&mut password, &salt).unwrap();
    assert!(password.is_empty());
    assert_eq!(key, derive_key_from_password("s3cret", &salt).unwrap());
    let mut empty = String::new();
    assert_eq!(get_encryption_key(&mut empty, &salt), Err(EncryptionError::DerivationFailure));
}

#[test]
fn erase_key_zeroes() {
    let mut key = key_a();
    erase_key(&mut key);
    assert_eq!(key, [0u8; 32]);
}

#[test]
fn vault_paths() {
    assert_eq!(get_key_directory("/home/u/.commune"), "/home/u/.commune/key");
    assert_eq!(get_key_path("/home/u/.commune", "alice"), "/home/u/.commune/key/alice.json");
    assert_eq!(
        get_encrypted_key_path("/home/u/.commune", "alice"),
        "/home/u/.commune/key/encrypted/alice.enc"
    );
    assert_eq!(get_salt_path("/v"), "/v/key/encrypted/.vault_salt");
}

#[test]
fn file_states() {
    let f = |p: bool, c: bool| KeyFiles {
        plaintext: if p { Some(vec![1]) } else { None },
        ciphertext: if c { Some(vec![2]) } else { None },
    };
    assert_eq!(f(false, false).state(), KeyFileState::Absent);
    assert_eq!(f(true, false).state(), KeyFileState::PlaintextOnly);
    assert_eq!(f(false, true).state(), KeyFileState::CiphertextOnly);
    assert_eq!(f(true, true).state(), KeyFileState::Both);
}

#[test]
fn end_to_end_alice() {
    let key = key_a();
    let mut files = KeyFiles { plaintext: None, ciphertext: None };
    assert_eq!(decrypt_key_file(&mut files, &key).unwrap_err(), EncryptionError::NotFound);

    files.plaintext = Some(b"{\"x\":1}".to_vec());
    let actions = encrypt_key_file(&mut files, &key).unwrap();
    assert!(files.plaintext.is_none());
    let archive = files.ciphertext.clone().unwrap();
    assert_eq!(archive.len(), 12 + 7 + 16);
    assert_eq!(actions.len(), 2);
    assert!(matches!(&actions[0], FileAction::WriteCiphertext(b) if *b == archive));
    assert!(matches!(actions[1], FileAction::RemovePlaintext));

    let actions = decrypt_key_file(&mut files, &key).unwrap();
    assert_eq!(files.plaintext.as_deref(), Some(&b"{\"x\":1}"[..]));
    assert_eq!(files.ciphertext.as_deref(), Some(&archive[..]));
    assert_eq!(actions.len(), 1);
    assert!(matches!(&actions[0], FileAction::WritePlaintext(b) if b == b"{\"x\":1}"));
}

#[test]
fn encrypt_without_plaintext_is_idempotent() {
    let key = key_a();
    let archive = encrypt_payload(&key, b"{\"x\":1}").unwrap();
    let mut files = KeyFiles { plaintext: None, ciphertext: Some(archive.clone()) };
    let actions = encrypt_key_file(&mut files, &key).unwrap();
    assert!(actions.is_empty());
    assert_eq!(files.ciphertext, Some(archive.clone()));
    assert!(files.plaintext.is_none());
    assert!(encrypt_key_file(&mut files, &key).unwrap().is_empty());
    assert_eq!(files.ciphertext, Some(archive));
}

#[test]
fn encrypt_with_nothing_is_not_found() {
    let mut files = KeyFiles { plaintext: None, ciphertext: None };
    assert_eq!(encrypt_key_file(&mut files, &key_a()).unwrap_err(), EncryptionError::NotFound);
}

#[test]
fn encrypt_replaces_stale_archive() {
    let key = key_a();
    let mut files = KeyFiles { plaintext: Some(b"new".to_vec()), ciphertext: Some(vec![0u8; 40]) };
    encrypt_key_file(&mut files, &key).unwrap();
    assert!(files.plaintext.is_none());
    let archive = files.ciphertext.clone().unwrap();
    assert_eq!(decrypt_payload(&key, &archive).unwrap(), b"new".to_vec());
}

#[test]
fn decrypt_with_wrong_key_leaves_files() {
    let archive = encrypt_payload(&key_a(), b"{\"x\":1}").unwrap();
    let mut files = KeyFiles { plaintext: None, ciphertext: Some(archive.clone()) };
    assert_eq!(decrypt_key_file(&mut files, &key_b()).unwrap_err(), EncryptionError::CryptoFailure);
    assert!(files.plaintext.is_none());
    assert_eq!(files.ciphertext, Some(archive));
}

#[test]
fn decrypt_prefers_archive_over_stale_plaintext() {
    let key = key_a();
    let archive = encrypt_payload(&key, b"archived").unwrap();
    let mut files = KeyFiles { plaintext: Some(b"stale".to_vec()), ciphertext: Some(archive) };
    decrypt_key_file(&mut files, &key).unwrap();
    assert_eq!(files.plaintext, Some(b"archived".to_vec()));
}

#[test]
fn guard_fires_and_removes_plaintext() {
    let mut guard = KeyFileGuard::new(String::from("alice"));
    assert_eq!(guard.state, GuardState::Unarmed);
    assert!(!guard.is_armed());
    guard.arm();
    assert!(guard.is_armed());
    let mut files = KeyFiles { plaintext: Some(b"secret".to_vec()), ciphertext: Some(vec![1, 2]) };
    let actions = guard.release(&mut files);
    assert_eq!(guard.state, GuardState::Fired);
    assert_eq!(guard.key_name, "alice");
    assert!(files.plaintext.is_none());
    assert_eq!(files.ciphertext, Some(vec![1, 2]));
    assert_eq!(actions.len(), 1);
    assert!(matches!(actions[0], FileAction::RemovePlaintext));
}

#[test]
fn guard_disarms_when_nothing_left() {
    let mut guard = KeyFileGuard::new(String::from("alice"));
    guard.arm();
    let mut files = KeyFiles { plaintext: None, ciphertext: Some(vec![1]) };
    assert!(guard.release(&mut files).is_empty());
    assert_eq!(guard.state, GuardState::Disarmed);
}

#[test]
fn invocation_success_reencrypts() {
    let key = key_a();
    let archive = encrypt_payload(&key, b"{\"x\":1}").unwrap();
    let mut files = KeyFiles { plaintext: None, ciphertext: Some(archive) };
    let (mut guard, actions) = begin_invocation("alice", &mut files, &key).unwrap();
    assert!(guard.is_armed());
    assert_eq!(actions.len(), 1);
    assert_eq!(files.plaintext, Some(b"{\"x\":1}".to_vec()));
    files.plaintext = Some(b"{\"x\":2}".to_vec());
    let (outcome, actions) = finish_invocation(&mut guard, &mut files, &key, true);
    assert_eq!(outcome, Ok(()));
    assert!(files.plaintext.is_none());
    assert_eq!(guard.state, GuardState::Disarmed);
    assert_eq!(actions.len(), 2);
    let archive = files.ciphertext.clone().unwrap();
    assert_eq!(decrypt_payload(&key, &archive).unwrap(), b"{\"x\":2}".to_vec());
}

#[test]
fn invocation_failure_still_reencrypts_and_cleans() {
    let key = key_a();
    let archive = encrypt_payload(&key, b"{\"x\":1}").unwrap();
    let mut files = KeyFiles { plaintext: None, ciphertext: Some(archive) };
    let (mut guard, _) = begin_invocation("alice", &mut files, &key).unwrap();
    let (outcome, _) = finish_invocation(&mut guard, &mut files, &key, false);
    assert_eq!(outcome, Err(EncryptionError::CommandFailure));
    assert!(files.plaintext.is_none());
    let archive = files.ciphertext.clone().unwrap();
    assert_eq!(decrypt_payload(&key, &archive).unwrap(), b"{\"x\":1}".to_vec());
}

#[test]
fn invocation_with_deleted_plaintext_keeps_archive() {
    let key = key_a();
    let archive = encrypt_payload(&key, b"{\"x\":1}").unwrap();
    let mut files = KeyFiles { plaintext: None, ciphertext: Some(archive.clone()) };
    let (mut guard, _) = begin_invocation("alice", &mut files, &key).unwrap();
    files.plaintext = None;
    let (outcome, actions) = finish_invocation(&mut guard, &mut files, &key, false);
    assert_eq!(outcome, Err(EncryptionError::CommandFailure));
    assert!(actions.is_empty());
    assert_eq!(files.ciphertext, Some(archive));
}

#[test]
fn invocation_without_archive_is_not_found() {
    let mut files = KeyFiles { plaintext: None, ciphertext: None };
    assert_eq!(begin_invocation("alice", &mut files, &key_a()).unwrap_err(), EncryptionError::NotFound);
    let mut files = KeyFiles { plaintext: None, ciphertext: Some(vec![1, 2, 3]) };
    assert_eq!(begin_invocation("alice", &mut files, &key_a()).unwrap_err(), EncryptionError::CryptoFailure);
    assert!(files.plaintext.is_none());
}

#[test]
fn error_descriptions() {
    assert_eq!(EncryptionError::IoFailure.describe(), "I/O failure");
    assert_eq!(EncryptionError::CryptoFailure.describe(), "authentication failure");
    assert_eq!(EncryptionError::NotFound.describe(), "file not found");
    assert_eq!(EncryptionError::DerivationFailure.describe(), "key derivation failure");
    assert_eq!(EncryptionError::CorruptSalt.describe(), "invalid salt length");
    assert_eq!(EncryptionError::RandomFailure.describe(), "random number generator failure");
    assert_eq!(EncryptionError::CommandFailure.describe(), "external command failed");
}

#[test]
fn recovery_after_interruption() {
    let f = |p: bool, c: bool| KeyFiles {
        plaintext: if p { Some(vec![1]) } else { None },
        ciphertext: if c { Some(vec![2]) } else { None },
    };
    assert_eq!(f(false, true).recovery(), Recovery::Consistent);
    assert_eq!(f(false, false).recovery(), Recovery::NoCredential);
    assert_eq!(f(true, false).recovery(), Recovery::NeedsEncryption);
    assert_eq!(f(true, true).recovery(), Recovery::NeedsConfirmation);
}

#[test]
fn encrypt_with_nonce_is_exact() {
    let key = [0x42u8; 32];
    let nonce = [5u8; 12];
    let mut files = KeyFiles { plaintext: Some(b"{\"x\":1}".to_vec()), ciphertext: None };
    let actions = encrypt_key_file_with_nonce(&mut files, &key, &nonce).unwrap();
    let expected = seal_with_nonce(&key, &nonce, b"{\"x\":1}").unwrap();
    assert!(files.plaintext.is_none());
    assert_eq!(files.ciphertext, Some(expected.clone()));
    assert_eq!(actions.len(), 2);
    assert!(matches!(&actions[0], FileAction::WriteCiphertext(b) if *b == expected));
    assert!(matches!(actions[1], FileAction::RemovePlaintext));
}

#[test]
fn encrypt_with_nonce_without_plaintext() {
    let key = key_a();
    let mut files = KeyFiles { plaintext: None, ciphertext: Some(vec![9, 9]) };
    assert!(encrypt_key_file_with_nonce(&mut files, &key, &[1u8; 12]).unwrap().is_empty());
    assert_eq!(files.ciphertext, Some(vec![9, 9]));
    let mut files = KeyFiles { plaintext: None, ciphertext: None };
    assert_eq!(
        encrypt_key_file_with_nonce(&mut files, &key, &[1u8; 12]).unwrap_err(),
        EncryptionError::NotFound
    );
}

#[test]
fn finish_with_nonce_after_failed_command_reencrypts() {
    let key = key_a();
    let nonce = [8u8; 12];
    let archive = encrypt_payload(&key, b"{\"x\":1}").unwrap();
    let mut files = KeyFiles { plaintext: None, ciphertext: Some(archive) };
    let (mut guard, _) = begin_invocation("alice", &mut files, &key).unwrap();
    files.plaintext = Some(b"{\"x\":3}".to_vec());
    let (outcome, actions) = finish_invocation_with_nonce(&mut guard, &mut files, &key, &nonce, false);
    assert_eq!(outcome, Err(EncryptionError::CommandFailure));
    assert!(files.plaintext.is_none());
    assert_eq!(guard.state, GuardState::Disarmed);
    assert_eq!(actions.len(), 2);
    let expected = seal_with_nonce(&key, &nonce, b"{\"x\":3}").unwrap();
    assert_eq!(files.ciphertext, Some(expected));
}

#[test]
fn finish_with_nonce_success() {
    let key = key_a();
    let nonce = [8u8; 12];
    let archive = encrypt_payload(&key, b"k").unwrap();
    let mut files = KeyFiles { plaintext: None, ciphertext: Some(archive) };
    let (mut guard, _) = begin_invocation("alice", &mut files, &key).unwrap();
    let (outcome, _) = finish_invocation_with_nonce(&mut guard, &mut files, &key, &nonce, true);
    assert_eq!(outcome, Ok(()));
    assert_eq!(files.ciphertext, Some(seal_with_nonce(&key, &nonce, b"k").unwrap()));
}
