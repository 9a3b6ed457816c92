//! Files that are for the owner alone, replaced as a whole or not at all.

use crate::fsperm::OWNER_ONLY_FILE;
use crate::text::append_decimal;
use vstd::prelude::*;

#[allow(unused_imports)]
use crate::fsperm::{denies_others, serves_owner};
#[allow(unused_imports)]
use crate::text::{decimal, decimal_injective};

verus! {

/// Where a replacement stands.
#[derive(Clone, Copy, Debug, PartialEq, Eq, Structural)]
pub enum WriteStage {
    Begin,
    AwaitOpen,
    AwaitWrite,
    AwaitSync,
    AwaitRename,
    Finished,
}

/// What happened outside.
#[derive(Clone, Copy, Debug, PartialEq, Eq, Structural)]
pub enum WriteEvent {
    Started,
    Opened,
    Written,
    Synced,
    Renamed,
    /// What was awaited failed.
    Failed,
}

/// What is to be done next.
#[derive(Clone, Copy, Debug, PartialEq, Eq, Structural)]
pub enum WriteAction {
    /// Open the temporary file for writing, empty; where it is created, with this mode.
    OpenTemporary { mode: u32 },
    /// Write the value as JSON into the temporary file.
    WriteAll,
    /// Wait until the temporary file is on the disk.
    SyncAll,
    /// Give the temporary file the name of the target.
    Rename,
    Done,
    /// Report what failed.
    Fail,
}

/// The extension of the temporary file beside the target.
pub open spec fn temporary_extension_text(process_id: nat) -> Seq<char> {
    decimal(process_id) + ".tmp"@
}

/// The extension of the temporary file beside the target, one for each process.
pub fn temporary_extension(process_id: u32) -> (res: String)
    ensures
        res@ == temporary_extension_text(process_id as nat),
{
    let mut text = String::new();
    append_decimal(&mut text, process_id as u64);
    text.append(".tmp");
    text
}

impl WriteStage {
    /// The event is one that the replacement awaits.
    pub open spec fn admits(self, event: WriteEvent) -> bool {
        match (self, event) {
            (WriteStage::Begin, WriteEvent::Started) => true,
            (WriteStage::AwaitOpen, WriteEvent::Opened) => true,
            (WriteStage::AwaitWrite, WriteEvent::Written) => true,
            (WriteStage::AwaitSync, WriteEvent::Synced) => true,
            (WriteStage::AwaitRename, WriteEvent::Renamed) => true,
            (WriteStage::Begin, WriteEvent::Failed) => false,
            (WriteStage::Finished, WriteEvent::Failed) => false,
            (_, WriteEvent::Failed) => true,
            _ => false,
        }
    }

    /// The stage after an event.
    pub open spec fn after(self, event: WriteEvent) -> WriteStage {
        match event {
            WriteEvent::Started => WriteStage::AwaitOpen,
            WriteEvent::Opened => WriteStage::AwaitWrite,
            WriteEvent::Written => WriteStage::AwaitSync,
            WriteEvent::Synced => WriteStage::AwaitRename,
            WriteEvent::Renamed => WriteStage::Finished,
            WriteEvent::Failed => WriteStage::Finished,
        }
    }
}

/// What an event calls for.
pub open spec fn called_for(event: WriteEvent) -> WriteAction {
    match event {
        WriteEvent::Started => WriteAction::OpenTemporary { mode: OWNER_ONLY_FILE },
        WriteEvent::Opened => WriteAction::WriteAll,
        WriteEvent::Written => WriteAction::SyncAll,
        WriteEvent::Synced => WriteAction::Rename,
        WriteEvent::Renamed => WriteAction::Done,
        WriteEvent::Failed => WriteAction::Fail,
    }
}

/// Replaces a file by a value as JSON: moves on by what happened outside, and returns what is
/// to be done next.
pub fn write_private_json(stage: &mut WriteStage, event: WriteEvent) -> (res: WriteAction)
    requires
        old(stage).admits(event),
    ensures
        *final(stage) == old(stage).after(event),
        res == called_for(event),
{
    match event {
        WriteEvent::Started => {
            *stage = WriteStage::AwaitOpen;
            WriteAction::OpenTemporary { mode: OWNER_ONLY_FILE }
        },
        WriteEvent::Opened => {
            *stage = WriteStage::AwaitWrite;
            WriteAction::WriteAll
        },
        WriteEvent::Written => {
            *stage = WriteStage::AwaitSync;
            WriteAction::SyncAll
        },
        WriteEvent::Synced => {
            *stage = WriteStage::AwaitRename;
            WriteAction::Rename
        },
        WriteEvent::Renamed => {
            *stage = WriteStage::Finished;
            WriteAction::Done
        },
        WriteEvent::Failed => {
            *stage = WriteStage::Finished;
            WriteAction::Fail
        },
    }
}

/// A file: what it holds, and its mode.
pub struct FileView {
    pub bytes: Seq<u8>,
    pub mode: u32,
}

/// The target and the temporary file beside it, where they exist.
pub struct Files {
    pub target: Option<FileView>,
    pub temporary: Option<FileView>,
}

/// What an action may do to the files, by the event that answers it. A file that is created has
/// the mode that was asked for, less what the process clears by its mask. An action that failed
/// may have done anything to the temporary file, but not to the target.
pub open spec fn affects(
    umask: u32,
    before: Files,
    action: WriteAction,
    event: WriteEvent,
    bytes: Seq<u8>,
    after: Files,
) -> bool {
    match (action, event) {
        (WriteAction::OpenTemporary { mode }, WriteEvent::Opened) => {
            &&& after.target == before.target
            &&& after.temporary == Some(
                FileView {
                    bytes: Seq::empty(),
                    mode: match before.temporary {
                        Some(file) => file.mode,
                        None => mode & !umask,
                    },
                },
            )
        },
        (WriteAction::WriteAll, WriteEvent::Written) => {
            &&& after.target == before.target
            &&& after.temporary == Some(FileView { bytes, mode: before.temporary->0.mode })
        },
        (WriteAction::Rename, WriteEvent::Renamed) => {
            &&& after.target == before.temporary
            &&& after.temporary is None
        },
        (_, WriteEvent::Failed) => after.target == before.target,
        _ => after == before,
    }
}

/// A replacement, from its start: its stages, what happened outside, and the files beside them.
pub struct Replacement {
    /// What the process clears in the mode of each file that it creates.
    pub umask: u32,
    pub bytes: Seq<u8>,
    pub stages: Seq<WriteStage>,
    pub events: Seq<WriteEvent>,
    pub files: Seq<Files>,
}

impl Replacement {
    /// The event at the given position was awaited, and answers what the event before it called
    /// for.
    pub open spec fn step(self, k: int) -> bool {
        &&& self.stages[k].admits(self.events[k])
        &&& self.stages[k + 1] == self.stages[k].after(self.events[k])
        &&& if k == 0 {
            self.files[1] == self.files[0]
        } else {
            affects(
                self.umask,
                self.files[k],
                called_for(self.events[k - 1]),
                self.events[k],
                self.bytes,
                self.files[k + 1],
            )
        }
    }

    pub open spec fn wf(self) -> bool {
        &&& self.stages.len() == self.events.len() + 1
        &&& self.files.len() == self.stages.len()
        &&& self.stages[0] is Begin
        &&& forall|k: int| 0 <= k < self.events.len() ==> #[trigger] self.step(k)
    }

    /// The mode that the new file gets.
    pub open spec fn new_mode(self) -> u32 {
        match self.files[0].temporary {
            Some(file) => file.mode,
            None => OWNER_ONLY_FILE & !self.umask,
        }
    }
}

proof fn lemma_replacement(replacement: Replacement, n: int)
    requires
        replacement.wf(),
        0 <= n <= replacement.events.len(),
    ensures
        ({
            let files = replacement.files[n];
            let first = replacement.files[0];
            let new = FileView { bytes: replacement.bytes, mode: replacement.new_mode() };
            match replacement.stages[n] {
                WriteStage::Begin => n == 0,
                WriteStage::AwaitOpen => files == first && n == 1,
                WriteStage::AwaitWrite => {
                    &&& files.target == first.target
                    &&& files.temporary matches Some(file)
                    &&& file.mode == new.mode
                },
                WriteStage::AwaitSync => files.target == first.target && files.temporary == Some(
                    new,
                ),
                WriteStage::AwaitRename => files.target == first.target && files.temporary == Some(
                    new,
                ),
                WriteStage::Finished => if replacement.events[n - 1] is Failed {
                    files.target == first.target
                } else {
                    &&& files.target == Some(new)
                    &&& files.temporary is None
                    &&& replacement.events[n - 1] is Renamed
                },
            }
        }),
    decreases n,
{
    if n > 0 {
        lemma_replacement(replacement, n - 1);
        assert(replacement.step(n - 1));
        if n > 1 {
            assert(replacement.step(n - 2));
        }
    }
}

/// The target is replaced as a whole or not at all: at every moment it is the file that it was,
/// or the whole new one. Where the replacement is reported done it is the new one, and where it
/// is reported failed it is the old one.
pub proof fn replacement_is_atomic(replacement: Replacement, n: int)
    requires
        replacement.wf(),
        0 <= n <= replacement.events.len(),
    ensures
        replacement.files[n].target == replacement.files[0].target || (
        replacement.files[n].target matches Some(file) && file.bytes == replacement.bytes),
        n > 0 && called_for(replacement.events[n - 1]) is Done ==> (
        replacement.files[n].target matches Some(file) && file.bytes == replacement.bytes),
        n > 0 && called_for(replacement.events[n - 1]) is Fail ==> replacement.files[n].target
            == replacement.files[0].target,
{
    lemma_replacement(replacement, n);
    if n > 0 {
        assert(replacement.step(n - 1));
    }
}

/// The new file is for the owner alone, unless a temporary file with another mode was left
/// over, and no temporary file remains. Its mode is exactly the one asked for, unless the
/// process clears bits of the owner.
pub proof fn the_new_file_is_private(replacement: Replacement, n: int)
    requires
        replacement.wf(),
        0 < n <= replacement.events.len(),
        called_for(replacement.events[n - 1]) is Done,
    ensures
        replacement.files[n].temporary is None,
        (replacement.files[0].temporary matches Some(file) ==> file.mode == OWNER_ONLY_FILE) ==> (
        replacement.files[n].target matches Some(file) && denies_others(file.mode) && (
        replacement.umask & OWNER_ONLY_FILE == 0 ==> file.mode == OWNER_ONLY_FILE && serves_owner(
            file.mode,
        ))),
{
    lemma_replacement(replacement, n);
    assert(replacement.step(n - 1));
    let umask = replacement.umask;
    assert(0o600u32 & 0o077 == 0 && 0o600u32 & 0o600 == 0o600) by (bit_vector);
    assert((0o600u32 & !umask) & 0o077 == 0) by (bit_vector);
    assert(umask & 0o600 == 0 ==> 0o600u32 & !umask == 0o600) by (bit_vector);
}

/// A replacement is done only after the temporary file was opened, written and on the disk, in
/// that order, and renamed last; and it asks for a file that is for the owner alone.
pub proof fn replacement_goes_in_order(replacement: Replacement, n: int)
    requires
        replacement.wf(),
        0 < n <= replacement.events.len(),
        called_for(replacement.events[n - 1]) is Done,
    ensures
        n == 5,
        replacement.events[0] is Started,
        replacement.events[1] is Opened,
        replacement.events[2] is Written,
        replacement.events[3] is Synced,
        replacement.events[4] is Renamed,
        called_for(replacement.events[0]) == (WriteAction::OpenTemporary { mode: 0o600 }),
        called_for(replacement.events[1]) is WriteAll,
        called_for(replacement.events[2]) is SyncAll,
        called_for(replacement.events[3]) is Rename,
{
    assert(replacement.step(n - 1));
    assert(n >= 2);
    assert(replacement.step(n - 2));
    assert(n >= 3);
    assert(replacement.step(n - 3));
    assert(n >= 4);
    assert(replacement.step(n - 4));
    assert(n >= 5);
    assert(replacement.step(n - 5));
    if n > 5 {
        assert(replacement.step(n - 6));
    }
}

/// Whatever is awaited may fail, and a failure ends the replacement at once.
pub proof fn any_step_may_fail(stage: WriteStage)
    ensures
        stage.admits(WriteEvent::Failed) <==> !(stage is Begin || stage is Finished),
        stage.after(WriteEvent::Failed) is Finished,
        called_for(WriteEvent::Failed) is Fail,
{
}

/// Two processes never share a temporary file: the extension is the number of the process, with
/// the same ending for all.
pub proof fn temporary_files_are_not_shared(a: nat, b: nat)
    ensures
        temporary_extension_text(a) == temporary_extension_text(b) ==> a == b,
        temporary_extension_text(a) == decimal(a) + ".tmp"@,
{
    let one = temporary_extension_text(a);
    let other = temporary_extension_text(b);
    if one == other {
        assert(one.len() == decimal(a).len() + ".tmp"@.len());
        assert(other.len() == decimal(b).len() + ".tmp"@.len());
        assert(decimal(a) =~= one.take(decimal(a).len() as int));
        assert(decimal(b) =~= other.take(decimal(b).len() as int));
        decimal_injective(a, b);
    }
}

} // verus!
