use vstd::prelude::*;
use vstd::string::StringExecFns;
use vstd::utf8::encode_utf8;
use crate::codec::{decrypt_payload, is_encryption_of, open_outcome, seal_with_nonce, sealed_payload, MAX_PLAINTEXT_LEN};
use crate::derive::{fill_from_os_rng, derive_key, derive_outcome, generate_salt, key_result_view, KeyDerivation, MAX_SECRET_LEN, SALT_LEN};
use crate::error::EncryptionError;
use zeroize::Zeroize;

verus! {

/// Relies on zeroize's impl for String: it overwrites the bytes with zeros and
/// clears the string.
#[verifier::external_body]
fn zeroize_string(s: &mut String)
    ensures
        final(s)@.len() == 0,
{
    s.zeroize()
}

/// Relies on zeroize's impl for arrays: it overwrites every element with zero.
#[verifier::external_body]
fn zeroize_key(k: &mut [u8; 32])
    ensures
        final(k)@ == Seq::new(32, |i: int| 0u8),
{
    k.zeroize()
}

/// The directory that holds the plaintext key files of a vault.
pub fn get_key_directory(vault_root: &str) -> (r: String)
    ensures
        r@ == vault_root@ + "/key"@,
{
    let mut path = String::from_str(vault_root);
    path.append("/key");
    path
}

/// The plaintext scratch file of a credential: `<root>/key/<name>.json`.
pub fn get_key_path(vault_root: &str, key_name: &str) -> (r: String)
    ensures
        r@ == vault_root@ + "/key"@ + "/"@ + key_name@ + ".json"@,
{
    let mut path = get_key_directory(vault_root);
    path.append("/");
    path.append(key_name);
    path.append(".json");
    path
}

/// The encrypted archive of a credential: `<root>/key/encrypted/<name>.enc`.
pub fn get_encrypted_key_path(vault_root: &str, key_name: &str) -> (r: String)
    ensures
        r@ == vault_root@ + "/key"@ + "/encrypted/"@ + key_name@ + ".enc"@,
{
    let mut path = get_key_directory(vault_root);
    path.append("/encrypted/");
    path.append(key_name);
    path.append(".enc");
    path
}

/// The vault's salt file: `<root>/key/encrypted/.vault_salt`.
pub fn get_salt_path(vault_root: &str) -> (r: String)
    ensures
        r@ == vault_root@ + "/key"@ + "/encrypted/.vault_salt"@,
{
    let mut path = get_key_directory(vault_root);
    path.append("/encrypted/.vault_salt");
    path
}

/// Where the salt for a derivation comes from.
#[derive(Debug, Clone, Copy)]
pub enum SaltSource {
    /// Read from the vault's salt file.
    Stored([u8; 16]),
    /// Freshly generated; the caller must persist it before deriving with it.
    Fresh([u8; 16]),
}

impl SaltSource {
    /// The salt bytes, whatever their source.
    pub fn salt(&self) -> (r: [u8; 16])
        ensures
            r == match *self {
                SaltSource::Stored(s) => s,
                SaltSource::Fresh(s) => s,
            },
    {
        match self {
            SaltSource::Stored(s) => *s,
            SaltSource::Fresh(s) => *s,
        }
    }
}

/// Takes the vault's salt from the contents of its salt file, if there is one,
/// or draws a fresh one. Stored contents must be exactly sixteen bytes.
pub fn get_or_create_salt(stored: &Option<Vec<u8>>) -> (r: Result<SaltSource, EncryptionError>)
    ensures
        match stored {
            Some(b) => if b@.len() == SALT_LEN {
                r is Ok && r->Ok_0 is Stored && r->Ok_0->Stored_0@ == b@
            } else {
                r == Err::<SaltSource, EncryptionError>(EncryptionError::CorruptSalt)
            },
            None => (r is Ok && r->Ok_0 is Fresh)
                || r == Err::<SaltSource, EncryptionError>(EncryptionError::RandomFailure),
        },
{
    match stored {
        Some(b) => {
            if b.len() != SALT_LEN {
                return Err(EncryptionError::CorruptSalt);
            }
            let mut salt = [0u8; 16];
            let mut i: usize = 0;
            while i < SALT_LEN
                invariant
                    i <= SALT_LEN,
                    b@.len() == SALT_LEN,
                    salt@.len() == SALT_LEN,
                    forall|k: int| 0 <= k < i ==> salt@[k] == b@[k],
                decreases SALT_LEN - i,
            {
                salt[i] = b[i];
                i = i + 1;
            }
            assert(salt@ =~= b@);
            Ok(SaltSource::Stored(salt))
        },
        None => match generate_salt() {
            Ok(s) => Ok(SaltSource::Fresh(s)),
            Err(e) => Err(e),
        },
    }
}

/// Derives the vault key from the operator's password and the vault's salt,
/// then erases the password.
pub fn get_encryption_key(password: &mut String, salt: &[u8; 16]) -> (r: Result<[u8; 32], EncryptionError>)
    requires
        encode_utf8(old(password)@).len() <= MAX_SECRET_LEN as nat,
    ensures
        key_result_view(r) == derive_outcome(KeyDerivation::Password, old(password)@, salt@),
        final(password)@.len() == 0,
{
    let r = derive_key(KeyDerivation::Password, password.as_str(), salt);
    zeroize_string(password);
    r
}

/// Overwrites a derived key with zeros once it is no longer needed.
pub fn erase_key(key: &mut [u8; 32])
    ensures
        final(key)@ == Seq::new(32, |i: int| 0u8),
{
    zeroize_key(key)
}

/// Which representations of a credential exist on durable storage.
#[derive(Debug, Clone, Copy, PartialEq, Eq, Structural)]
pub enum KeyFileState {
    Absent,
    PlaintextOnly,
    CiphertextOnly,
    /// Both exist; only while an operation is in flight.
    Both,
}

/// The two files of one credential as they stand on storage: the plaintext
/// scratch copy and the encrypted archive, each present or not.
#[derive(Debug, Clone)]
pub struct KeyFiles {
    pub plaintext: Option<Vec<u8>>,
    pub ciphertext: Option<Vec<u8>>,
}

/// The contents of a credential's two files.
pub struct KeyFilesView {
    pub plaintext: Option<Seq<u8>>,
    pub ciphertext: Option<Seq<u8>>,
}

/// Spec view of an optional file.
pub open spec fn file_view(f: Option<Vec<u8>>) -> Option<Seq<u8>> {
    match f {
        Some(b) => Some(b@),
        None => None,
    }
}

impl View for KeyFiles {
    type V = KeyFilesView;

    open spec fn view(&self) -> KeyFilesView {
        KeyFilesView { plaintext: file_view(self.plaintext), ciphertext: file_view(self.ciphertext) }
    }
}

/// The state that the presence of the two files puts a credential in.
pub open spec fn state_of(v: KeyFilesView) -> KeyFileState {
    match (v.plaintext, v.ciphertext) {
        (None, None) => KeyFileState::Absent,
        (Some(_), None) => KeyFileState::PlaintextOnly,
        (None, Some(_)) => KeyFileState::CiphertextOnly,
        (Some(_), Some(_)) => KeyFileState::Both,
    }
}

impl KeyFiles {
    /// The credential's current state.
    pub fn state(&self) -> (r: KeyFileState)
        ensures
            r == state_of(self@),
    {
        match (&self.plaintext, &self.ciphertext) {
            (None, None) => KeyFileState::Absent,
            (Some(_), None) => KeyFileState::PlaintextOnly,
            (None, Some(_)) => KeyFileState::CiphertextOnly,
            (Some(_), Some(_)) => KeyFileState::Both,
        }
    }
}

/// What a credential found at startup needs before it is used.
#[derive(Debug, Clone, Copy, PartialEq, Eq, Structural)]
pub enum Recovery {
    /// Only the archive exists, as it should at rest.
    Consistent,
    /// Nothing exists for this name.
    NoCredential,
    /// A plaintext is left without an archive: it must be encrypted.
    NeedsEncryption,
    /// Both exist, which is ambiguous: the operator must confirm, and the
    /// archive is taken as authoritative.
    NeedsConfirmation,
}

/// The recovery that a credential's state calls for.
pub open spec fn recovery_of(state: KeyFileState) -> Recovery {
    match state {
        KeyFileState::CiphertextOnly => Recovery::Consistent,
        KeyFileState::Absent => Recovery::NoCredential,
        KeyFileState::PlaintextOnly => Recovery::NeedsEncryption,
        KeyFileState::Both => Recovery::NeedsConfirmation,
    }
}

impl KeyFiles {
    /// Classifies the credential's files after a possible crash.
    pub fn recovery(&self) -> (r: Recovery)
        ensures
            r == recovery_of(state_of(self@)),
    {
        match self.state() {
            KeyFileState::CiphertextOnly => Recovery::Consistent,
            KeyFileState::Absent => Recovery::NoCredential,
            KeyFileState::PlaintextOnly => Recovery::NeedsEncryption,
            KeyFileState::Both => Recovery::NeedsConfirmation,
        }
    }
}

/// One change to make on storage, in the order given.
#[derive(Debug, Clone)]
pub enum FileAction {
    /// Write these bytes as the encrypted archive.
    WriteCiphertext(Vec<u8>),
    /// Write these bytes as the plaintext scratch file.
    WritePlaintext(Vec<u8>),
    /// Delete the plaintext scratch file.
    RemovePlaintext,
}

/// The files after one action.
pub open spec fn apply_action(v: KeyFilesView, a: FileAction) -> KeyFilesView {
    match a {
        FileAction::WriteCiphertext(b) => KeyFilesView { plaintext: v.plaintext, ciphertext: Some(b@) },
        FileAction::WritePlaintext(b) => KeyFilesView { plaintext: Some(b@), ciphertext: v.ciphertext },
        FileAction::RemovePlaintext => KeyFilesView { plaintext: None, ciphertext: v.ciphertext },
    }
}

/// The files after a sequence of actions, taken in order.
pub open spec fn apply_actions(v: KeyFilesView, actions: Seq<FileAction>) -> KeyFilesView
    decreases actions.len(),
{
    if actions.len() == 0 {
        v
    } else {
        apply_actions(apply_action(v, actions[0]), actions.drop_first())
    }
}

/// What decrypting a credential's archive leads to: the archive must exist,
/// and its decryption becomes the plaintext scratch file.
pub open spec fn decrypted_files(key: Seq<u8>, v: KeyFilesView) -> Result<KeyFilesView, EncryptionError> {
    match v.ciphertext {
        None => Err(EncryptionError::NotFound),
        Some(c) => match open_outcome(key, c) {
            Ok(p) => Ok(KeyFilesView { plaintext: Some(p), ciphertext: Some(c) }),
            Err(e) => Err(e),
        },
    }
}

proof fn lemma_apply_one(v: KeyFilesView, a: FileAction)
    ensures
        apply_actions(v, seq![a]) == apply_action(v, a),
{
    assert(seq![a].drop_first() =~= Seq::<FileAction>::empty());
    assert(apply_actions(apply_action(v, a), Seq::<FileAction>::empty()) == apply_action(v, a));
}

proof fn lemma_apply_two(v: KeyFilesView, a: FileAction, b: FileAction)
    ensures
        apply_actions(v, seq![a, b]) == apply_action(apply_action(v, a), b),
{
    assert(seq![a, b].drop_first() =~= seq![b]);
    lemma_apply_one(apply_action(v, a), b);
}

/// Moves a credential from its plaintext to its encrypted form with the given
/// nonce: the plaintext is sealed, the archive written, then the plaintext
/// removed. With the plaintext already gone and the archive present there is
/// nothing to do, and that succeeds. On success the returned actions, applied
/// in order to the files as they were, give the files as they are now.
pub fn encrypt_key_file_with_nonce(files: &mut KeyFiles, key: &[u8; 32], nonce: &[u8; 12]) -> (r: Result<Vec<FileAction>, EncryptionError>)
    ensures
        r is Ok ==> apply_actions(old(files)@, r->Ok_0@) == final(files)@,
        r is Err ==> final(files)@ == old(files)@,
        match old(files)@.plaintext {
            Some(p) => if p.len() <= MAX_PLAINTEXT_LEN as nat {
                &&& r is Ok
                &&& final(files)@.plaintext is None
                &&& final(files)@.ciphertext == Some(sealed_payload(key@, nonce@, p))
                &&& is_encryption_of(key@, p, sealed_payload(key@, nonce@, p))
                &&& r->Ok_0@.len() == 2
                &&& r->Ok_0@[0] is WriteCiphertext
                &&& r->Ok_0@[1] is RemovePlaintext
            } else {
                r == Err::<Vec<FileAction>, EncryptionError>(EncryptionError::CryptoFailure)
            },
            None => match old(files)@.ciphertext {
                Some(_) => r is Ok && r->Ok_0@.len() == 0 && final(files)@ == old(files)@,
                None => r == Err::<Vec<FileAction>, EncryptionError>(EncryptionError::NotFound),
            },
        },
{
    let sealed = match &files.plaintext {
        None => {
            if files.ciphertext.is_none() {
                return Err(EncryptionError::NotFound);
            }
            let actions: Vec<FileAction> = Vec::new();
            assert(apply_actions(files@, actions@) == files@);
            return Ok(actions);
        },
        Some(p) => seal_with_nonce(key, nonce, p.as_slice()),
    };
    match sealed {
        Ok(c) => {
            let ghost before = files@;
            let archive = c.clone();
            assert(archive@ =~= c@);
            files.ciphertext = Some(c);
            files.plaintext = None;
            let actions = vec![FileAction::WriteCiphertext(archive), FileAction::RemovePlaintext];
            proof {
                lemma_apply_two(before, actions@[0], actions@[1]);
                assert(actions@ =~= seq![actions@[0], actions@[1]]);
            }
            Ok(actions)
        },
        Err(e) => Err(e),
    }
}

/// Moves a credential from its plaintext to its encrypted form under a fresh
/// nonce drawn from the operating system's secure random source; see
/// `encrypt_key_file_with_nonce`. The nonce is drawn only when there is a
/// plaintext to seal.
pub fn encrypt_key_file(files: &mut KeyFiles, key: &[u8; 32]) -> (r: Result<Vec<FileAction>, EncryptionError>)
    ensures
        r is Ok ==> apply_actions(old(files)@, r->Ok_0@) == final(files)@,
        r is Err ==> final(files)@ == old(files)@,
        match old(files)@.plaintext {
            Some(p) => match r {
                Ok(actions) => {
                    &&& final(files)@.plaintext is None
                    &&& final(files)@.ciphertext is Some
                    &&& is_encryption_of(key@, p, final(files)@.ciphertext->Some_0)
                    &&& actions@.len() == 2
                    &&& actions@[0] is WriteCiphertext
                    &&& actions@[1] is RemovePlaintext
                },
                Err(e) => e == EncryptionError::RandomFailure
                    || (e == EncryptionError::CryptoFailure && p.len() > MAX_PLAINTEXT_LEN as nat),
            },
            None => match old(files)@.ciphertext {
                Some(_) => r is Ok && r->Ok_0@.len() == 0 && final(files)@ == old(files)@,
                None => r == Err::<Vec<FileAction>, EncryptionError>(EncryptionError::NotFound),
            },
        },
{
    if files.plaintext.is_none() {
        // Nothing is sealed on this path, so no nonce is drawn.
        return encrypt_key_file_with_nonce(files, key, &[0u8; 12]);
    }
    let mut nonce = [0u8; 12];
    match fill_from_os_rng(&mut nonce) {
        Ok(()) => encrypt_key_file_with_nonce(files, key, &nonce),
        Err(_) => Err(EncryptionError::RandomFailure),
    }
}

/// Restores a credential's plaintext scratch file from its encrypted archive.
/// The archive must exist; it is left as it is. On success the returned
/// actions, applied in order to the files as they were, give the files as they
/// are now.
pub fn decrypt_key_file(files: &mut KeyFiles, key: &[u8; 32]) -> (r: Result<Vec<FileAction>, EncryptionError>)
    ensures
        match r {
            Ok(actions) => {
                &&& decrypted_files(key@, old(files)@) == Ok::<KeyFilesView, EncryptionError>(final(files)@)
                &&& apply_actions(old(files)@, actions@) == final(files)@
                &&& actions@.len() == 1
                &&& actions@[0] is WritePlaintext
            },
            Err(e) => {
                &&& decrypted_files(key@, old(files)@) == Err::<KeyFilesView, EncryptionError>(e)
                &&& final(files)@ == old(files)@
            },
        },
{
    let opened = match &files.ciphertext {
        None => return Err(EncryptionError::NotFound),
        Some(c) => decrypt_payload(key, c.as_slice()),
    };
    match opened {
        Ok(p) => {
            let ghost before = files@;
            let scratch = p.clone();
            assert(scratch@ =~= p@);
            files.plaintext = Some(p);
            let actions = vec![FileAction::WritePlaintext(scratch)];
            proof {
                lemma_apply_one(before, actions@[0]);
                assert(actions@ =~= seq![actions@[0]]);
            }
            Ok(actions)
        },
        Err(e) => Err(e),
    }
}

/// Law: once a credential's plaintext has been encrypted into its archive and
/// the plaintext removed, decrypting the archive under the same key restores
/// exactly that plaintext and keeps the archive.
pub proof fn lemma_encrypt_then_decrypt(key: Seq<u8>, before: KeyFilesView, after: KeyFilesView)
    requires
        before.plaintext is Some,
        after.plaintext is None,
        after.ciphertext is Some,
        is_encryption_of(key, before.plaintext->Some_0, after.ciphertext->Some_0),
    ensures
        decrypted_files(key, after) == Ok::<KeyFilesView, EncryptionError>(
            KeyFilesView { plaintext: before.plaintext, ciphertext: after.ciphertext },
        ),
{
    crate::codec::lemma_round_trip(key, before.plaintext->Some_0, after.ciphertext->Some_0);
}

} // verus!
