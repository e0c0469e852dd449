use vstd::prelude::*;
use crate::encryption::{apply_actions, FileAction, KeyFiles};

verus! {

/// Where a guard stands in its life.
#[derive(Debug, Clone, Copy, PartialEq, Eq, Structural)]
pub enum GuardState {
    /// Created; the plaintext has not been restored yet.
    Unarmed,
    /// The plaintext scratch file exists and the guard answers for it.
    Armed,
    /// Released with nothing left to remove.
    Disarmed,
    /// Released by removing the plaintext scratch file.
    Fired,
}

/// Answers for one credential's plaintext scratch file: once armed, releasing
/// it leaves no plaintext behind.
#[derive(Debug)]
pub struct KeyFileGuard {
    pub key_name: String,
    pub state: GuardState,
}

impl KeyFileGuard {
    /// A guard for the named credential, not yet armed.
    pub fn new(key_name: String) -> (r: KeyFileGuard)
        ensures
            r.key_name@ == key_name@,
            r.state == GuardState::Unarmed,
    {
        KeyFileGuard { key_name, state: GuardState::Unarmed }
    }

    /// Arms the guard, right after the plaintext has been restored.
    pub fn arm(&mut self)
        requires
            old(self).state == GuardState::Unarmed,
        ensures
            final(self).state == GuardState::Armed,
            final(self).key_name@ == old(self).key_name@,
    {
        self.state = GuardState::Armed;
    }

    /// Whether the guard still answers for a plaintext file.
    pub fn is_armed(&self) -> (r: bool)
        ensures
            r == (self.state == GuardState::Armed),
    {
        match self.state {
            GuardState::Armed => true,
            _ => false,
        }
    }

    /// Releases the guard at scope exit, on success and on error alike: the
    /// plaintext scratch file is removed if it is there, and the archive is not
    /// touched. The returned actions, applied in order to the files as they
    /// were, give the files as they are now.
    pub fn release(&mut self, files: &mut KeyFiles) -> (r: Vec<FileAction>)
        requires
            old(self).state == GuardState::Armed,
        ensures
            final(files)@.plaintext is None,
            final(files)@.ciphertext == old(files)@.ciphertext,
            apply_actions(old(files)@, r@) == final(files)@,
            final(self).key_name@ == old(self).key_name@,
            old(files)@.plaintext is Some ==> final(self).state == GuardState::Fired && r@.len() == 1
                && r@[0] is RemovePlaintext,
            old(files)@.plaintext is None ==> final(self).state == GuardState::Disarmed && r@.len() == 0,
    {
        let mut actions: Vec<FileAction> = Vec::new();
        if files.plaintext.is_some() {
            files.plaintext = None;
            actions.push(FileAction::RemovePlaintext);
            self.state = GuardState::Fired;
            proof {
                assert(actions@.drop_first() =~= Seq::<FileAction>::empty());
                assert(apply_actions(files@, Seq::<FileAction>::empty()) == files@);
            }
        } else {
            self.state = GuardState::Disarmed;
        }
        actions
    }
}

} // verus!
