//! Best-effort permission hardening for the store directory and its sensitive files.
//!
//! The store holds the account's authentication key and the whole message archive. Files and
//! directories are created through the process umask, which usually leaves them readable by
//! every local user, so their permissions are tightened right after creation. A change that
//! fails is reported and never aborts the command.

use vstd::prelude::*;

#[allow(unused_imports)]
use crate::text::text_of;

verus! {

/// Read, write and search for the owner alone.
pub const OWNER_ONLY_DIRECTORY: u32 = 0o700;

/// Read and write for the owner alone.
pub const OWNER_ONLY_FILE: u32 = 0o600;

/// A change of permissions to be made.
#[derive(Debug)]
pub struct ModeChange {
    pub path: String,
    pub mode: u32,
    pub kind: &'static str,
}

/// What came of a change of permissions.
#[derive(Debug)]
pub enum ModeOutcome {
    /// The permissions were set.
    Applied,
    /// There is no file at the path.
    NotFound,
    /// The change failed, for the reason given.
    Failed(String),
}

/// The mode grants nothing to the group and to others.
pub open spec fn denies_others(mode: u32) -> bool {
    mode & 0o077 == 0
}

/// The mode lets the owner read and write.
pub open spec fn serves_owner(mode: u32) -> bool {
    mode & 0o600 == 0o600
}

/// Restricts a directory to its owner.
pub fn harden_dir(path: &str) -> (res: ModeChange)
    ensures
        res.path@ == path@,
        res.mode == 0o700,
        res.kind@ == "directory"@,
        denies_others(res.mode),
        serves_owner(res.mode),
{
    assert(0o700u32 & 0o077 == 0 && 0o700u32 & 0o600 == 0o600) by (bit_vector);
    ModeChange { path: path.to_string(), mode: OWNER_ONLY_DIRECTORY, kind: "directory" }
}

/// Restricts a file to reading and writing by its owner.
pub fn harden_file(path: &str) -> (res: ModeChange)
    ensures
        res.path@ == path@,
        res.mode == 0o600,
        res.kind@ == "file"@,
        denies_others(res.mode),
        serves_owner(res.mode),
{
    assert(0o600u32 & 0o077 == 0 && 0o600u32 & 0o600 == 0o600) by (bit_vector);
    ModeChange { path: path.to_string(), mode: OWNER_ONLY_FILE, kind: "file" }
}

/// The warning for a change that failed.
pub open spec fn mode_warning(change: ModeChange, reason: Seq<char>) -> Seq<char> {
    "could not restrict permissions on "@ + change.kind@ + " '"@ + change.path@ + "': "@ + reason
}

/// The warning that an outcome calls for: that of a change that failed, and none for one that was
/// made or that found no file.
pub open spec fn outcome_warning(change: ModeChange, outcome: ModeOutcome) -> Option<Seq<char>> {
    match outcome {
        ModeOutcome::Applied => None,
        ModeOutcome::NotFound => None,
        ModeOutcome::Failed(reason) => Some(mode_warning(change, reason@)),
    }
}

/// The warning that a change of permissions calls for. A file that does not exist, such as a
/// sidecar before its first write, calls for none.
pub fn set_mode(change: &ModeChange, outcome: &ModeOutcome) -> (res: Option<String>)
    ensures
        match *outcome {
            ModeOutcome::Failed(reason) => res matches Some(text) && text@ == mode_warning(
                *change,
                reason@,
            ),
            _ => res is None,
        },
        text_of(res) == outcome_warning(*change, *outcome),
{
    match outcome {
        ModeOutcome::Applied => None,
        ModeOutcome::NotFound => None,
        ModeOutcome::Failed(reason) => {
            let mut text = "could not restrict permissions on ".to_string();
            text.append(change.kind);
            text.append(" '");
            text.append(change.path.as_str());
            text.append("': ");
            text.append(reason.as_str());
            Some(text)
        },
    }
}

/// The warning names what the change was for, where it was to be made, and why it failed, and
/// comes exactly where something failed: a file that is not there is nothing to warn of.
pub proof fn warnings_name_what_failed(change: ModeChange, outcome: ModeOutcome)
    ensures
        outcome_warning(change, outcome) is Some <==> outcome is Failed,
        outcome matches ModeOutcome::Failed(reason) ==> outcome_warning(change, outcome) == Some(
            "could not restrict permissions on "@ + change.kind@ + " '"@ + change.path@ + "': "@
                + reason@,
        ),
{
}

} // verus!
