//! Cloning files and trees natively, and holding trees against their receipts.

use crate::authority::{failure, or_fail, Error, Failure, Identity};
use crate::bytes::{copy_bytes, same_bytes, same_text, utf8, views};
use crate::inspection::first_of;
use crate::order::{sort_names, sorted_names};
use crate::probing::{unlink_failure, unlink_owned};
use crate::storage::{
    clone_destination_directory, is_clone_destination, is_digest, is_sealed_directory,
    is_stable_directory, is_worktree_directory, macos_xattr_name_list_allowed, sealed_directory,
    session_mode, session_mode_spec, stable_directory_node, storage_io, valid_digest,
    worktree_directory, CowReceipt, ManifestReceipt, PathSemantics, SealedTreeReceipt, SealedView,
};
use crate::walk::{binding_failure, check_binding, unsupported};
use vstd::prelude::*;

verus! {

/// How the system clones a file.
#[derive(Clone, Copy, Debug, PartialEq, Eq, Structural)]
pub enum CloneCall {
    /// The destination is made empty, and then given the source's data.
    Ficlone,
    /// The destination is made by the clone.
    Clonefileat,
}

/// Cloning one file.
#[derive(Debug)]
pub enum FileClone {
    /// Making the empty destination.
    Making,
    /// Looking at the source before it is cloned.
    SourceSeeing(Identity),
    Cloning(Identity),
    /// Asking for evidence that the data is shared.
    Proving(Identity),
    DestinationSeeing(Identity),
    /// Making the destination as a clone.
    CloneMaking,
    CloneSeeing,
    CloneOpening(Identity),
    AllSeeing(Identity),
    /// Taking the destination away again.
    Checking { call: CloneCall, destination: Identity, primary: Error },
    Unlinking(Error),
    Syncing(Error),
    Cloned,
    Failed(Error),
}

pub enum FileCloneView {
    Making,
    SourceSeeing(Identity),
    Cloning(Identity),
    Proving(Identity),
    DestinationSeeing(Identity),
    CloneMaking,
    CloneSeeing,
    CloneOpening(Identity),
    AllSeeing(Identity),
    Checking(CloneCall, Identity, Failure),
    Unlinking(Failure),
    Syncing(Failure),
    Cloned,
    Failed(Failure),
}

impl View for FileClone {
    type V = FileCloneView;

    open spec fn view(&self) -> FileCloneView {
        match self {
            FileClone::Making => FileCloneView::Making,
            FileClone::SourceSeeing(identity) => FileCloneView::SourceSeeing(*identity),
            FileClone::Cloning(identity) => FileCloneView::Cloning(*identity),
            FileClone::Proving(identity) => FileCloneView::Proving(*identity),
            FileClone::DestinationSeeing(identity) => FileCloneView::DestinationSeeing(*identity),
            FileClone::CloneMaking => FileCloneView::CloneMaking,
            FileClone::CloneSeeing => FileCloneView::CloneSeeing,
            FileClone::CloneOpening(identity) => FileCloneView::CloneOpening(*identity),
            FileClone::AllSeeing(identity) => FileCloneView::AllSeeing(*identity),
            FileClone::Checking { call, destination, primary } => FileCloneView::Checking(
                *call,
                *destination,
                primary@,
            ),
            FileClone::Unlinking(primary) => FileCloneView::Unlinking(primary@),
            FileClone::Syncing(primary) => FileCloneView::Syncing(primary@),
            FileClone::Cloned => FileCloneView::Cloned,
            FileClone::Failed(error) => FileCloneView::Failed(error@),
        }
    }
}

#[derive(Clone, Copy, Debug, PartialEq, Eq, Structural)]
pub enum FileCloneAction {
    MakeDestination,
    /// Look at the source's descriptor and name.
    StatSource,
    ShareData,
    /// Hold the extents of both files against each other.
    CompareExtents,
    /// Look at the destination's descriptor and name.
    StatDestination,
    CloneFile,
    StatCloneName,
    OpenClone,
    /// Look at the descriptors and names of both.
    StatAll,
    /// Look at the destination's name before it is unlinked.
    StatForUnlink,
    UnlinkDestination,
    SyncParent,
    Nothing,
}

#[derive(Debug)]
pub enum FileCloneEvent {
    Identity(Result<Identity, Error>),
    /// A descriptor, and the name that it was opened under.
    Pair(Result<Identity, Error>, Result<Identity, Error>),
    /// The source's descriptor and name, and the destination's.
    Four(
        Result<Identity, Error>,
        Result<Identity, Error>,
        Result<Identity, Error>,
        Result<Identity, Error>,
    ),
    Shared(Result<bool, Error>),
    Opened(Result<(), Error>),
    Done(Result<(), String>),
}

pub open spec fn clone_label(call: CloneCall) -> Seq<char> {
    match call {
        CloneCall::Ficlone => "FICLONE destination"@,
        CloneCall::Clonefileat => "clonefileat destination"@,
    }
}

/// Why the four bindings of a clone do not hold.
pub open spec fn four_failure(
    expected_source: Identity,
    destination: Identity,
    source_file: Result<Identity, Error>,
    source_name: Result<Identity, Error>,
    destination_file: Result<Identity, Error>,
    destination_name: Result<Identity, Error>,
) -> Option<Failure> {
    let detail = "clonefileat descriptor or basename binding changed"@;
    let f = or_fail(
        failure(source_file),
        source_file->Ok_0 == expected_source,
        "STORAGE_UNSUPPORTED"@,
        detail,
    );
    let f = first_of(f, failure(source_name));
    let f = or_fail(f, source_name->Ok_0 == expected_source, "STORAGE_UNSUPPORTED"@, detail);
    let f = first_of(f, failure(destination_file));
    let f = or_fail(f, destination_file->Ok_0 == destination, "STORAGE_UNSUPPORTED"@, detail);
    let f = first_of(f, failure(destination_name));
    or_fail(f, destination_name->Ok_0 == destination, "STORAGE_UNSUPPORTED"@, detail)
}

fn check_four(
    expected_source: Identity,
    destination: Identity,
    source_file: Result<Identity, Error>,
    source_name: Result<Identity, Error>,
    destination_file: Result<Identity, Error>,
    destination_name: Result<Identity, Error>,
) -> (checked: Result<(), Error>)
    ensures
        failure(checked) == four_failure(
            expected_source,
            destination,
            source_file,
            source_name,
            destination_file,
            destination_name,
        ),
{
    let detail = "clonefileat descriptor or basename binding changed";
    let source_file: Identity = source_file?;
    if source_file != expected_source {
        return Err(Error::new("STORAGE_UNSUPPORTED", detail));
    }
    let source_name: Identity = source_name?;
    if source_name != expected_source {
        return Err(Error::new("STORAGE_UNSUPPORTED", detail));
    }
    let destination_file: Identity = destination_file?;
    if destination_file != destination {
        return Err(Error::new("STORAGE_UNSUPPORTED", detail));
    }
    let destination_name: Identity = destination_name?;
    if destination_name != destination {
        return Err(Error::new("STORAGE_UNSUPPORTED", detail));
    }
    Ok(())
}

impl FileCloneView {
    pub open spec fn starting(call: CloneCall) -> FileCloneView {
        match call {
            CloneCall::Ficlone => FileCloneView::Making,
            CloneCall::Clonefileat => FileCloneView::CloneMaking,
        }
    }

    pub open spec fn undo(destination: Identity, primary: Failure) -> FileCloneView {
        FileCloneView::Checking(CloneCall::Ficlone, destination, primary)
    }

    /// Cloning after the driver's answer. An answer to another question changes nothing.
    pub open spec fn after(self, event: FileCloneEvent, expected_source: Identity, uid: u32) -> FileCloneView {
        match (self, event) {
            (FileCloneView::Making, FileCloneEvent::Identity(made)) => match made {
                Err(error) => FileCloneView::Failed(error@),
                Ok(destination) => FileCloneView::SourceSeeing(destination),
            },
            (
                FileCloneView::SourceSeeing(destination),
                FileCloneEvent::Pair(file, name),
            ) => match file {
                Err(error) => FileCloneView::Failed(error@),
                Ok(file) => {
                    let changed = FileCloneView::undo(
                        destination,
                        unsupported("FICLONE source binding changed before clone"@),
                    );
                    if file != expected_source {
                        changed
                    } else {
                        match name {
                            Err(error) => FileCloneView::Failed(error@),
                            Ok(name) => if name != expected_source {
                                changed
                            } else {
                                FileCloneView::Cloning(destination)
                            },
                        }
                    }
                },
            },
            (FileCloneView::Cloning(destination), FileCloneEvent::Done(done)) => match done {
                Err(words) => FileCloneView::undo(
                    destination,
                    unsupported("FICLONE cannot provide native copy-on-write"@ + ": "@ + words@),
                ),
                Ok(_) => FileCloneView::Proving(destination),
            },
            (FileCloneView::Proving(destination), FileCloneEvent::Shared(shared)) => match shared {
                Err(error) => FileCloneView::undo(destination, error@),
                Ok(shared) => if shared {
                    FileCloneView::DestinationSeeing(destination)
                } else {
                    FileCloneView::undo(
                        destination,
                        unsupported("FICLONE did not provide shared-extent evidence"@),
                    )
                },
            },
            (
                FileCloneView::DestinationSeeing(destination),
                FileCloneEvent::Pair(file, name),
            ) => match (file, name) {
                (Err(error), _) => FileCloneView::Failed(error@),
                (_, Err(error)) => FileCloneView::Failed(error@),
                (Ok(file), Ok(name)) => if file == name {
                    FileCloneView::Cloned
                } else {
                    FileCloneView::undo(
                        destination,
                        unsupported("FICLONE destination binding changed after clone"@),
                    )
                },
            },
            (FileCloneView::CloneMaking, FileCloneEvent::Done(done)) => match done {
                Err(words) => FileCloneView::Failed(
                    unsupported(
                        "clonefileat cannot provide native copy-on-write"@ + ": "@ + words@,
                    ),
                ),
                Ok(_) => FileCloneView::CloneSeeing,
            },
            (FileCloneView::CloneSeeing, FileCloneEvent::Identity(seen)) => match seen {
                Err(error) => FileCloneView::Failed(error@),
                Ok(destination) => FileCloneView::CloneOpening(destination),
            },
            (
                FileCloneView::CloneOpening(destination),
                FileCloneEvent::Opened(opened),
            ) => match opened {
                Err(error) => FileCloneView::Checking(
                    CloneCall::Clonefileat,
                    destination,
                    error@,
                ),
                Ok(_) => FileCloneView::AllSeeing(destination),
            },
            (
                FileCloneView::AllSeeing(destination),
                FileCloneEvent::Four(a, b, c, d),
            ) => match four_failure(expected_source, destination, a, b, c, d) {
                Some(failed) => FileCloneView::Checking(
                    CloneCall::Clonefileat,
                    destination,
                    failed,
                ),
                None => FileCloneView::Cloned,
            },
            (
                FileCloneView::Checking(call, destination, primary),
                FileCloneEvent::Identity(current),
            ) => match unlink_failure(current, destination, uid, clone_label(call)) {
                Some(failed) => FileCloneView::Failed(failed),
                None => FileCloneView::Unlinking(primary),
            },
            (FileCloneView::Unlinking(primary), FileCloneEvent::Done(done)) => match done {
                Err(words) => FileCloneView::Failed(
                    unsupported("cannot clean up native COW probe"@ + ": "@ + words@),
                ),
                Ok(_) => FileCloneView::Syncing(primary),
            },
            (FileCloneView::Syncing(primary), FileCloneEvent::Done(done)) => match done {
                Err(words) => FileCloneView::Failed(
                    (
                        "STORAGE_RECOVERY_REQUIRED"@,
                        "cannot sync native COW destination parent after cleanup"@ + ": "@ + words@,
                    ),
                ),
                Ok(_) => FileCloneView::Failed(primary),
            },
            _ => self,
        }
    }

    pub open spec fn asks(self) -> FileCloneAction {
        match self {
            FileCloneView::Making => FileCloneAction::MakeDestination,
            FileCloneView::SourceSeeing(_) => FileCloneAction::StatSource,
            FileCloneView::Cloning(_) => FileCloneAction::ShareData,
            FileCloneView::Proving(_) => FileCloneAction::CompareExtents,
            FileCloneView::DestinationSeeing(_) => FileCloneAction::StatDestination,
            FileCloneView::CloneMaking => FileCloneAction::CloneFile,
            FileCloneView::CloneSeeing => FileCloneAction::StatCloneName,
            FileCloneView::CloneOpening(_) => FileCloneAction::OpenClone,
            FileCloneView::AllSeeing(_) => FileCloneAction::StatAll,
            FileCloneView::Checking(_, _, _) => FileCloneAction::StatForUnlink,
            FileCloneView::Unlinking(_) => FileCloneAction::UnlinkDestination,
            FileCloneView::Syncing(_) => FileCloneAction::SyncParent,
            FileCloneView::Cloned | FileCloneView::Failed(_) => FileCloneAction::Nothing,
        }
    }
}

fn undo(destination: Identity, primary: Error) -> (clone: FileClone)
    ensures
        clone@ == FileCloneView::undo(destination, primary@),
{
    FileClone::Checking { call: CloneCall::Ficlone, destination, primary }
}

fn undo_with(destination: Identity, detail: &str) -> (clone: FileClone)
    ensures
        clone@ == FileCloneView::undo(destination, unsupported(detail@)),
{
    undo(destination, Error::new("STORAGE_UNSUPPORTED", detail))
}

impl FileClone {
    pub fn start(call: CloneCall) -> (clone: Self)
        ensures
            clone@ == FileCloneView::starting(call),
    {
        match call {
            CloneCall::Ficlone => FileClone::Making,
            CloneCall::Clonefileat => FileClone::CloneMaking,
        }
    }

    pub fn action(&self) -> (action: FileCloneAction)
        ensures
            action == self@.asks(),
    {
        match self {
            FileClone::Making => FileCloneAction::MakeDestination,
            FileClone::SourceSeeing(_) => FileCloneAction::StatSource,
            FileClone::Cloning(_) => FileCloneAction::ShareData,
            FileClone::Proving(_) => FileCloneAction::CompareExtents,
            FileClone::DestinationSeeing(_) => FileCloneAction::StatDestination,
            FileClone::CloneMaking => FileCloneAction::CloneFile,
            FileClone::CloneSeeing => FileCloneAction::StatCloneName,
            FileClone::CloneOpening(_) => FileCloneAction::OpenClone,
            FileClone::AllSeeing(_) => FileCloneAction::StatAll,
            FileClone::Checking { .. } => FileCloneAction::StatForUnlink,
            FileClone::Unlinking(_) => FileCloneAction::UnlinkDestination,
            FileClone::Syncing(_) => FileCloneAction::SyncParent,
            FileClone::Cloned => FileCloneAction::Nothing,
            FileClone::Failed(_) => FileCloneAction::Nothing,
        }
    }

    /// Takes the driver's answer. The file to be cloned is `expected_source`; `uid` is the user who
    /// runs the program.
    pub fn native_clone_file(self, event: FileCloneEvent, expected_source: Identity, uid: u32) -> (next:
        Self)
        ensures
            next@ == self@.after(event, expected_source, uid),
    {
        match (self, event) {
            (FileClone::Making, FileCloneEvent::Identity(made)) => match made {
                Err(error) => FileClone::Failed(error),
                Ok(destination) => FileClone::SourceSeeing(destination),
            },
            (FileClone::SourceSeeing(destination), FileCloneEvent::Pair(file, name)) => match file {
                Err(error) => FileClone::Failed(error),
                Ok(file) => if file != expected_source {
                    undo_with(destination, "FICLONE source binding changed before clone")
                } else {
                    match name {
                        Err(error) => FileClone::Failed(error),
                        Ok(name) => if name != expected_source {
                            undo_with(destination, "FICLONE source binding changed before clone")
                        } else {
                            FileClone::Cloning(destination)
                        },
                    }
                },
            },
            (FileClone::Cloning(destination), FileCloneEvent::Done(done)) => match done {
                Err(words) => undo(
                    destination,
                    storage_io("FICLONE cannot provide native copy-on-write", words.as_str()),
                ),
                Ok(_) => FileClone::Proving(destination),
            },
            (FileClone::Proving(destination), FileCloneEvent::Shared(shared)) => match shared {
                Err(error) => undo(destination, error),
                Ok(shared) => if shared {
                    FileClone::DestinationSeeing(destination)
                } else {
                    undo_with(destination, "FICLONE did not provide shared-extent evidence")
                },
            },
            (FileClone::DestinationSeeing(destination), FileCloneEvent::Pair(file, name)) => {
                match (file, name) {
                    (Err(error), _) => FileClone::Failed(error),
                    (_, Err(error)) => FileClone::Failed(error),
                    (Ok(file), Ok(name)) => if file == name {
                        FileClone::Cloned
                    } else {
                        undo_with(destination, "FICLONE destination binding changed after clone")
                    },
                }
            },
            (FileClone::CloneMaking, FileCloneEvent::Done(done)) => match done {
                Err(words) => FileClone::Failed(
                    storage_io("clonefileat cannot provide native copy-on-write", words.as_str()),
                ),
                Ok(_) => FileClone::CloneSeeing,
            },
            (FileClone::CloneSeeing, FileCloneEvent::Identity(seen)) => match seen {
                Err(error) => FileClone::Failed(error),
                Ok(destination) => FileClone::CloneOpening(destination),
            },
            (FileClone::CloneOpening(destination), FileCloneEvent::Opened(opened)) => match opened {
                Err(error) => FileClone::Checking {
                    call: CloneCall::Clonefileat,
                    destination,
                    primary: error,
                },
                Ok(_) => FileClone::AllSeeing(destination),
            },
            (FileClone::AllSeeing(destination), FileCloneEvent::Four(a, b, c, d)) => {
                match check_four(expected_source, destination, a, b, c, d) {
                    Err(error) => FileClone::Checking {
                        call: CloneCall::Clonefileat,
                        destination,
                        primary: error,
                    },
                    Ok(_) => FileClone::Cloned,
                }
            },
            (
                FileClone::Checking { call, destination, primary },
                FileCloneEvent::Identity(current),
            ) => {
                let label = match call {
                    CloneCall::Ficlone => "FICLONE destination",
                    CloneCall::Clonefileat => "clonefileat destination",
                };
                match unlink_owned(current, destination, uid, label) {
                    Err(error) => FileClone::Failed(error),
                    Ok(_) => FileClone::Unlinking(primary),
                }
            },
            (FileClone::Unlinking(primary), FileCloneEvent::Done(done)) => match done {
                Err(words) => FileClone::Failed(
                    storage_io("cannot clean up native COW probe", words.as_str()),
                ),
                Ok(_) => FileClone::Syncing(primary),
            },
            (FileClone::Syncing(primary), FileCloneEvent::Done(done)) => match done {
                Err(words) => FileClone::Failed(
                    Error::io(
                        "STORAGE_RECOVERY_REQUIRED",
                        "cannot sync native COW destination parent after cleanup",
                        words.as_str(),
                    ),
                ),
                Ok(_) => FileClone::Failed(primary),
            },
            (clone, _) => clone,
        }
    }
}

/// A file counts as cloned only with both its bindings seen unchanged; and where the data was shared
/// into a file made before, only from a stage that needs evidence of sharing.
pub proof fn law_clone_is_bound(
    clone: FileCloneView,
    event: FileCloneEvent,
    expected_source: Identity,
    uid: u32,
)
    requires
        clone !is Cloned,
        clone.after(event, expected_source, uid) is Cloned,
    ensures
        match (clone, event) {
            (
                FileCloneView::DestinationSeeing(_),
                FileCloneEvent::Pair(Ok(file), Ok(name)),
            ) => file == name,
            (
                FileCloneView::AllSeeing(destination),
                FileCloneEvent::Four(Ok(a), Ok(b), Ok(c), Ok(d)),
            ) => a == expected_source && b == expected_source && c == destination && d
                == destination,
            _ => false,
        },
{
}

/// The last look at a destination comes only behind evidence that it shares the source's data.
pub proof fn law_clone_needs_evidence(
    clone: FileCloneView,
    event: FileCloneEvent,
    expected_source: Identity,
    uid: u32,
)
    requires
        clone !is DestinationSeeing,
        clone.after(event, expected_source, uid) is DestinationSeeing,
    ensures
        clone is Proving,
        event matches FileCloneEvent::Shared(Ok(shared)) && shared,
{
}

/// A destination is unlinked only while it is the regular file of the user that was made.
pub proof fn law_clone_unlinks_only_its_own(
    clone: FileCloneView,
    event: FileCloneEvent,
    expected_source: Identity,
    uid: u32,
)
    requires
        clone !is Unlinking,
        clone.after(event, expected_source, uid) is Unlinking,
    ensures
        clone matches FileCloneView::Checking(_, destination, _) && (event
            matches FileCloneEvent::Identity(Ok(current)) && current == destination && current.uid
            == uid && current.is_regular()),
{
}

/// Why a cloned file may not stand in a worktree.
pub open spec fn cloned_regular_failure(
    entry: Result<Identity, Error>,
    metadata: Result<bool, Error>,
    source: Identity,
    uid: u32,
) -> Option<Failure> {
    match entry {
        Err(error) => Some(error@),
        Ok(entry) => binding_failure(
            entry.dev == source.dev && entry.ino != source.ino && entry.uid == uid && entry.nlink
                == 1 && entry.is_regular() && entry.mode == session_mode_spec(source.mode),
            metadata,
            "native COW destination metadata is unsupported"@,
        ),
    }
}

/// Judges a cloned file once it has its mode.
pub fn clone_regular(
    entry: Result<Identity, Error>,
    metadata: Result<bool, Error>,
    source: Identity,
    uid: u32,
) -> (checked: Result<(), Error>)
    ensures
        failure(checked) == cloned_regular_failure(entry, metadata, source, uid),
{
    let entry: Identity = entry?;
    check_binding(
        entry.dev == source.dev && entry.ino != source.ino && entry.uid == uid && entry.nlink == 1
            && entry.regular() && entry.mode == session_mode(source.mode),
        &metadata,
        "native COW destination metadata is unsupported",
    )
}

/// `.git` as it stands in a linked worktree: a regular file that only the user can write.
pub open spec fn is_private_link_file(entry: Identity, uid: u32) -> bool {
    entry.is_regular() && entry.uid == uid && entry.nlink == 1 && entry.mode & 0o022 == 0
}

pub open spec fn linked_entry(
    entry: Result<Identity, Error>,
    opened: Result<Identity, Error>,
    metadata: Result<bool, Error>,
    uid: u32,
) -> Result<bool, Failure> {
    match entry {
        Err(error) => Err(error@),
        Ok(entry) => if !is_private_link_file(entry, uid) {
            Ok(false)
        } else {
            match opened {
                Err(error) => Err(error@),
                Ok(opened) => if opened != entry {
                    Ok(false)
                } else {
                    match metadata {
                        Err(error) => Err(error@),
                        Ok(present) => Ok(!present),
                    }
                },
            }
        },
    }
}

/// What a result says, with its error taken by its view.
pub open spec fn told<T>(result: Result<T, Error>) -> Result<T, Failure> {
    match result {
        Ok(value) => Ok(value),
        Err(error) => Err(error@),
    }
}

/// Whether `.git` is the private file of a linked worktree.
pub fn linked_worktree_entry(
    entry: Result<Identity, Error>,
    opened: Result<Identity, Error>,
    metadata: Result<bool, Error>,
    uid: u32,
) -> (linked: Result<bool, Error>)
    ensures
        told(linked) == linked_entry(entry, opened, metadata, uid),
{
    let entry: Identity = entry?;
    if !entry.regular() || entry.uid != uid || entry.nlink != 1 || entry.mode & 0o022 != 0 {
        return Ok(false);
    }
    let opened: Identity = opened?;
    if opened != entry {
        return Ok(false);
    }
    match metadata {
        Err(error) => Err(error),
        Ok(present) => Ok(!present),
    }
}

/// Whether a directory holds nothing but the private file of a linked worktree.
pub fn linked_worktree_metadata(names: Result<Vec<Vec<u8>>, Error>, linked: Result<bool, Error>) -> (is:
    Result<bool, Error>)
    ensures
        told(is) == match names {
            Err(error) => Err(error@),
            Ok(names) => if views(names@) == seq![utf8(".git"@)] {
                told(linked)
            } else {
                Ok(false)
            },
        },
{
    let names = names?;
    if names.len() == 1 && same_bytes(names[0].as_slice(), ".git".as_bytes()) {
        proof {
            assert(views(names@) =~= seq![utf8(".git"@)]);
        }
        linked
    } else {
        proof {
            if views(names@) == seq![utf8(".git"@)] {
                assert(views(names@).len() == seq![utf8(".git"@)].len());
                assert(views(names@)[0] == names@[0]@);
                assert(seq![utf8(".git"@)][0] == utf8(".git"@));
            }
        }
        Ok(false)
    }
}

pub open spec fn is_dot_name(name: Seq<u8>) -> bool {
    name == utf8("."@) || name == utf8(".."@)
}

/// The names without those of the directory itself and its parent.
pub open spec fn proper_names(names: Seq<Seq<u8>>) -> Seq<Seq<u8>>
    decreases names.len(),
{
    if names.len() == 0 {
        Seq::empty()
    } else if is_dot_name(names.last()) {
        proper_names(names.drop_last())
    } else {
        proper_names(names.drop_last()).push(names.last())
    }
}

/// The names that a directory holds, in dictionary order.
pub fn directory_names(read: &Vec<Vec<u8>>) -> (names: Vec<Vec<u8>>)
    ensures
        sorted_names(proper_names(views(read@)), views(names@)),
{
    let mut proper: Vec<Vec<u8>> = Vec::new();
    let mut i: usize = 0;
    proof {
        assert(views(read@).subrange(0, 0) =~= Seq::<Seq<u8>>::empty());
        assert(views(proper@) =~= Seq::<Seq<u8>>::empty());
    }
    while i < read.len()
        invariant
            i <= read@.len(),
            views(proper@) == proper_names(views(read@).subrange(0, i as int)),
        decreases read@.len() - i,
    {
        let name = &read[i];
        let ghost part = views(read@).subrange(0, i + 1);
        proof {
            assert(part.drop_last() =~= views(read@).subrange(0, i as int));
            assert(part.last() == name@);
        }
        if !same_bytes(name.as_slice(), ".".as_bytes()) && !same_bytes(
            name.as_slice(),
            "..".as_bytes(),
        ) {
            let ghost before = views(proper@);
            proper.push(copy_bytes(name.as_slice()));
            proof {
                assert(views(proper@) =~= before.push(name@));
            }
        }
        i += 1;
    }
    proof {
        assert(views(read@).subrange(0, i as int) =~= views(read@));
    }
    sort_names(&proper)
}

/// What two name probes say of a directory.
pub fn path_semantics(
    parent: Result<(), Error>,
    case: Result<bool, Error>,
    normalization: Result<bool, Error>,
) -> (semantics: Result<PathSemantics, Error>)
    ensures
        told(semantics) == match (parent, case, normalization) {
            (Err(error), _, _) => Err(error@),
            (_, Err(error), _) => Err(error@),
            (_, _, Err(error)) => Err(error@),
            (Ok(_), Ok(case), Ok(normalization)) => Ok(
                (PathSemantics {
                    case_insensitive: case,
                    normalization_insensitive: normalization,
                }),
            ),
        },
{
    parent?;
    let case_insensitive: bool = case?;
    let normalization_insensitive: bool = normalization?;
    Ok(PathSemantics { case_insensitive, normalization_insensitive })
}

/// Whether a descriptor carries metadata: extended attributes, an access list, or flags. What comes
/// first decides.
pub fn metadata_present_fd(
    attributes: Result<bool, Error>,
    access: Result<bool, Error>,
    flags: Result<bool, Error>,
) -> (present: Result<bool, Error>)
    ensures
        told(present) == match attributes {
            Err(error) => Err(error@),
            Ok(true) => Ok(true),
            Ok(false) => match access {
                Err(error) => Err(error@),
                Ok(true) => Ok(true),
                Ok(false) => told(flags),
            },
        },
{
    if attributes? {
        return Ok(true);
    }
    if access? {
        return Ok(true);
    }
    flags
}

/// What a symbolic link is looked at for, on a system whose links carry attributes and flags.
#[derive(Debug)]
pub struct LinkSeen {
    pub opened: Result<Identity, Error>,
    pub entry_flags: bool,
    pub first_flags: Result<bool, Error>,
    pub names: Result<Vec<u8>, Error>,
    pub reopened: Result<Identity, Error>,
    pub final_flags: Result<bool, Error>,
    /// The name again, and whether it carries flags.
    pub entry_again: Result<(Identity, bool), Error>,
}

pub open spec fn link_metadata(expected: Identity, seen: LinkSeen) -> Result<bool, Failure> {
    let changed = unsupported("symbolic-link xattr descriptor binding changed"@);
    let f = or_fail(
        failure(seen.opened),
        seen.opened->Ok_0 == expected,
        changed.0,
        changed.1,
    );
    let f = first_of(f, failure(seen.first_flags));
    let f = first_of(f, failure(seen.names));
    let f = first_of(f, failure(seen.reopened));
    let f = first_of(f, failure(seen.final_flags));
    let f = first_of(f, failure(seen.entry_again));
    let f = or_fail(
        f,
        seen.reopened->Ok_0 == expected && seen.entry_again->Ok_0.0 == expected,
        changed.0,
        changed.1,
    );
    match f {
        Some(failed) => Err(failed),
        None => Ok(
            seen.entry_flags || seen.first_flags->Ok_0 || seen.final_flags->Ok_0
                || seen.entry_again->Ok_0.1 || !(seen.names->Ok_0@.len() == 0
                || seen.names->Ok_0@ == utf8("com.apple.provenance\0"@)),
        ),
    }
}

/// Whether a symbolic link carries metadata.
pub fn link_metadata_present(expected: Identity, seen: LinkSeen) -> (present: Result<bool, Error>)
    ensures
        told(present) == link_metadata(expected, seen),
{
    let LinkSeen { opened, entry_flags, first_flags, names, reopened, final_flags, entry_again } =
        seen;
    let opened: Identity = opened?;
    if opened != expected {
        return Err(
            Error::new("STORAGE_UNSUPPORTED", "symbolic-link xattr descriptor binding changed"),
        );
    }
    let first: bool = first_flags?;
    let names = names?;
    let reopened: Identity = reopened?;
    let last: bool = final_flags?;
    let again: (Identity, bool) = entry_again?;
    if reopened != expected || again.0 != expected {
        return Err(
            Error::new("STORAGE_UNSUPPORTED", "symbolic-link xattr descriptor binding changed"),
        );
    }
    Ok(entry_flags || first || last || again.1 || !macos_xattr_name_list_allowed(names.as_slice()))
}

/// Whether the size of an attribute list says that there is one.
pub fn has_xattrs_fd(size: Result<u64, String>) -> (has: Result<bool, Error>)
    ensures
        told(has) == match size {
            Err(words) => Err(unsupported("cannot inspect native COW xattrs"@ + ": "@ + words@)),
            Ok(size) => Ok(size > 0),
        },
{
    match size {
        Err(words) => Err(storage_io("cannot inspect native COW xattrs", words.as_str())),
        Ok(size) => Ok(size > 0),
    }
}

/// Whether a manifest can be sealed under.
pub fn seal_plan(manifest: &ManifestReceipt) -> (allowed: Result<(), Error>)
    ensures
        failure(allowed) == or_fail(
            None,
            is_digest(manifest.digest@),
            "STORAGE_UNSUPPORTED"@,
            "sealed tree lacks a canonical manifest receipt"@,
        ),
{
    if !valid_digest(manifest.digest.as_str()) {
        return Err(
            Error::new("STORAGE_UNSUPPORTED", "sealed tree lacks a canonical manifest receipt"),
        );
    }
    Ok(())
}

/// What a walk through a tree came to: the digest of its content, and the number of its entries.
pub type Walked = Result<(String, u64), Error>;

pub open spec fn seal_failure(
    manifest: ManifestReceipt,
    walked: Walked,
    root: Result<Identity, Error>,
    volume: Result<String, Error>,
    uid: u32,
) -> Option<Failure> {
    let f = or_fail(
        None,
        is_digest(manifest.digest@),
        "STORAGE_UNSUPPORTED"@,
        "sealed tree lacks a canonical manifest receipt"@,
    );
    let f = first_of(f, failure(walked));
    let f = or_fail(
        f,
        walked->Ok_0.1 == manifest.entries,
        "STORAGE_UNSUPPORTED"@,
        "sealed tree entry count did not match its manifest receipt"@,
    );
    let f = first_of(f, failure(root));
    let f = or_fail(
        f,
        is_sealed_directory(root->Ok_0, uid),
        "STORAGE_UNSUPPORTED"@,
        "sealed tree root did not retain its immutable binding"@,
    );
    first_of(f, failure(volume))
}

/// The receipt of a tree that was walked to seal it.
pub fn seal_tree(
    manifest: ManifestReceipt,
    walked: Walked,
    root: Result<Identity, Error>,
    volume: Result<String, Error>,
    uid: u32,
) -> (receipt: Result<SealedTreeReceipt, Error>)
    ensures
        failure(receipt) == seal_failure(manifest, walked, root, volume, uid),
        receipt matches Ok(receipt) ==> receipt@ == (SealedView {
            root: root->Ok_0,
            volume: volume->Ok_0@,
            digest: manifest.digest@,
            entries: manifest.entries,
            content_digest: walked->Ok_0.0@,
        }),
{
    seal_plan(&manifest)?;
    let (content_digest, entries) = walked?;
    if entries != manifest.entries {
        return Err(
            Error::new(
                "STORAGE_UNSUPPORTED",
                "sealed tree entry count did not match its manifest receipt",
            ),
        );
    }
    let root: Identity = root?;
    if !sealed_directory(root, uid) {
        return Err(
            Error::new(
                "STORAGE_UNSUPPORTED",
                "sealed tree root did not retain its immutable binding",
            ),
        );
    }
    let volume = volume?;
    Ok(SealedTreeReceipt { root, volume, manifest, content_digest })
}

/// Whether a receipt can be verified against.
pub fn verify_plan(expected: &SealedTreeReceipt) -> (allowed: Result<(), Error>)
    ensures
        failure(allowed) == or_fail(
            None,
            is_digest(expected@.digest) && is_digest(expected@.content_digest),
            "STORAGE_UNSUPPORTED"@,
            "sealed tree has an invalid expected content digest"@,
        ),
{
    if !valid_digest(expected.manifest.digest.as_str()) || !valid_digest(
        expected.content_digest.as_str(),
    ) {
        return Err(
            Error::new("STORAGE_UNSUPPORTED", "sealed tree has an invalid expected content digest"),
        );
    }
    Ok(())
}

pub open spec fn verify_failure(
    expected: SealedView,
    walked: Walked,
    root: Result<Identity, Error>,
    volume: Result<String, Error>,
) -> Option<Failure> {
    let detail = "sealed tree content or metadata does not match its receipt"@;
    let f = or_fail(
        None,
        is_digest(expected.digest) && is_digest(expected.content_digest),
        "STORAGE_UNSUPPORTED"@,
        "sealed tree has an invalid expected content digest"@,
    );
    let f = first_of(f, failure(walked));
    let f = first_of(f, failure(root));
    let f = or_fail(
        f,
        is_stable_directory(root->Ok_0, expected.root),
        "STORAGE_UNSUPPORTED"@,
        detail,
    );
    let f = first_of(f, failure(volume));
    or_fail(
        f,
        volume->Ok_0@ == expected.volume && walked->Ok_0.1 == expected.entries && walked->Ok_0.0@
            == expected.content_digest,
        "STORAGE_UNSUPPORTED"@,
        detail,
    )
}

/// Holds a sealed tree that was walked against its receipt.
pub fn verify_sealed_tree(
    expected: &SealedTreeReceipt,
    walked: Walked,
    root: Result<Identity, Error>,
    volume: Result<String, Error>,
) -> (verified: Result<(), Error>)
    ensures
        failure(verified) == verify_failure(expected@, walked, root, volume),
{
    let detail = "sealed tree content or metadata does not match its receipt";
    verify_plan(expected)?;
    let (digest, entries) = walked?;
    let root: Identity = root?;
    if !stable_directory_node(root, expected.root) {
        return Err(Error::new("STORAGE_UNSUPPORTED", detail));
    }
    let volume = volume?;
    if same_text(volume.as_str(), expected.volume.as_str()) && entries == expected.manifest.entries
        && same_text(digest.as_str(), expected.content_digest.as_str()) {
        Ok(())
    } else {
        Err(Error::new("STORAGE_UNSUPPORTED", detail))
    }
}

pub open spec fn worktree_plan_failure(
    expected: (SealedView, Identity),
    root: Result<Identity, Error>,
    volume: Result<String, Error>,
    linked: Result<bool, Error>,
    uid: u32,
) -> Option<Failure> {
    let code = "STORAGE_UNSUPPORTED"@;
    let detail = "cloned worktree no longer matches its durable receipt"@;
    let f = or_fail(
        failure(root),
        is_stable_directory(root->Ok_0, expected.1) && is_worktree_directory(root->Ok_0, uid),
        code,
        detail,
    );
    let f = first_of(f, failure(volume));
    let f = or_fail(
        f,
        volume->Ok_0@ == expected.0.volume && is_digest(expected.0.digest) && is_digest(
            expected.0.content_digest,
        ),
        code,
        detail,
    );
    let f = first_of(f, failure(linked));
    or_fail(f, linked->Ok_0, code, detail)
}

/// Whether a worktree is still the one of its receipt, before it is walked.
pub fn verify_worktree_plan(
    expected: &CowReceipt,
    root: Result<Identity, Error>,
    volume: Result<String, Error>,
    linked: Result<bool, Error>,
    uid: u32,
) -> (allowed: Result<(), Error>)
    ensures
        failure(allowed) == worktree_plan_failure(expected@, root, volume, linked, uid),
{
    let detail = "cloned worktree no longer matches its durable receipt";
    let root: Identity = root?;
    if !stable_directory_node(root, expected.destination) || !worktree_directory(root, uid) {
        return Err(Error::new("STORAGE_UNSUPPORTED", detail));
    }
    let volume = volume?;
    if !same_text(volume.as_str(), expected.source.volume.as_str()) || !valid_digest(
        expected.source.manifest.digest.as_str(),
    ) || !valid_digest(expected.source.content_digest.as_str()) {
        return Err(Error::new("STORAGE_UNSUPPORTED", detail));
    }
    let linked: bool = linked?;
    if !linked {
        return Err(Error::new("STORAGE_UNSUPPORTED", detail));
    }
    Ok(())
}

/// Holds a worktree that was walked against the receipt of the tree that it was cloned from.
pub fn verify_worktree(expected: &CowReceipt, walked: Walked) -> (verified: Result<(), Error>)
    ensures
        failure(verified) == or_fail(
            failure(walked),
            walked->Ok_0.1 == expected@.0.entries && walked->Ok_0.0@ == expected@.0.content_digest,
            "STORAGE_UNSUPPORTED"@,
            "cloned worktree content no longer matches its sealed template receipt"@,
        ),
{
    let (digest, entries) = walked?;
    if entries != expected.source.manifest.entries || !same_text(
        digest.as_str(),
        expected.source.content_digest.as_str(),
    ) {
        return Err(
            Error::new(
                "STORAGE_UNSUPPORTED",
                "cloned worktree content no longer matches its sealed template receipt",
            ),
        );
    }
    Ok(())
}

/// What a clone of a whole tree is planned from.
#[derive(Debug)]
pub struct CowPlan {
    pub source_receipt: SealedTreeReceipt,
    pub parent: Identity,
    pub destination: Identity,
}

/// What stands where the plan says, before anything is cloned.
#[derive(Debug)]
pub struct PlanSeen {
    pub source: Result<Identity, Error>,
    pub parent: Result<Identity, Error>,
    pub opened: Result<(), Error>,
    pub entry: Result<Identity, Error>,
    pub source_volume: Result<String, Error>,
    pub destination_volume: Result<String, Error>,
    pub destination: Result<Identity, Error>,
    /// Whether the destination holds nothing but a private `.git` file.
    pub linked: Result<bool, Error>,
}

pub struct PlanView {
    pub receipt: SealedView,
    pub parent: Identity,
    pub destination: Identity,
}

impl View for CowPlan {
    type V = PlanView;

    open spec fn view(&self) -> PlanView {
        PlanView {
            receipt: self.source_receipt@,
            parent: self.parent,
            destination: self.destination,
        }
    }
}

pub open spec fn plan_failure(plan: PlanView, seen: PlanSeen, uid: u32) -> Option<Failure> {
    let code = "STORAGE_UNSUPPORTED"@;
    let detail = "clone plan root, volume, or linked-worktree binding changed"@;
    let f = or_fail(
        None,
        is_digest(plan.receipt.digest) && is_digest(plan.receipt.content_digest),
        code,
        "clone plan lacks canonical manifest or content bindings"@,
    );
    let f = first_of(f, failure(seen.source));
    let f = first_of(f, failure(seen.parent));
    let f = first_of(f, failure(seen.opened));
    let f = first_of(f, failure(seen.entry));
    let f = first_of(f, failure(seen.source_volume));
    let f = first_of(f, failure(seen.destination_volume));
    let f = or_fail(
        f,
        is_stable_directory(seen.source->Ok_0, plan.receipt.root) && is_stable_directory(
            seen.parent->Ok_0,
            plan.parent,
        ) && is_stable_directory(seen.entry->Ok_0, plan.destination),
        code,
        detail,
    );
    let f = first_of(f, failure(seen.destination));
    let f = or_fail(
        f,
        is_stable_directory(seen.destination->Ok_0, plan.destination)
            && seen.source_volume->Ok_0@ == plan.receipt.volume && seen.destination_volume->Ok_0@
            == plan.receipt.volume && is_sealed_directory(seen.source->Ok_0, uid)
            && is_clone_destination(plan.destination, uid),
        code,
        detail,
    );
    let f = first_of(f, failure(seen.linked));
    or_fail(f, seen.linked->Ok_0, code, detail)
}

fn check_plan(plan: &CowPlan, seen: PlanSeen, uid: u32) -> (checked: Result<(), Error>)
    ensures
        failure(checked) == plan_failure(plan@, seen, uid),
{
    let detail = "clone plan root, volume, or linked-worktree binding changed";
    if !valid_digest(plan.source_receipt.manifest.digest.as_str()) || !valid_digest(
        plan.source_receipt.content_digest.as_str(),
    ) {
        return Err(
            Error::new(
                "STORAGE_UNSUPPORTED",
                "clone plan lacks canonical manifest or content bindings",
            ),
        );
    }
    let source: Identity = seen.source?;
    let parent: Identity = seen.parent?;
    seen.opened?;
    let entry: Identity = seen.entry?;
    let source_volume = seen.source_volume?;
    let destination_volume = seen.destination_volume?;
    if !stable_directory_node(source, plan.source_receipt.root) || !stable_directory_node(
        parent,
        plan.parent,
    ) || !stable_directory_node(entry, plan.destination) {
        return Err(Error::new("STORAGE_UNSUPPORTED", detail));
    }
    let destination: Identity = seen.destination?;
    if !stable_directory_node(destination, plan.destination) || !same_text(
        source_volume.as_str(),
        plan.source_receipt.volume.as_str(),
    ) || !same_text(destination_volume.as_str(), plan.source_receipt.volume.as_str())
        || !sealed_directory(source, uid) || !clone_destination_directory(plan.destination, uid) {
        return Err(Error::new("STORAGE_UNSUPPORTED", detail));
    }
    let linked: bool = seen.linked?;
    if !linked {
        return Err(Error::new("STORAGE_UNSUPPORTED", detail));
    }
    Ok(())
}

/// Cloning a whole tree.
#[derive(Debug)]
pub enum TreeClone {
    Planning,
    Walking,
    /// Giving the root the mode of a worktree.
    Protecting,
    RootSeeing,
    RootSyncing(Identity),
    ParentSyncing(Identity),
    Rebinding(Identity),
    Cloned(CowReceipt),
    Failed(Error),
}

pub enum TreeCloneView {
    Planning,
    Walking,
    Protecting,
    RootSeeing,
    RootSyncing(Identity),
    ParentSyncing(Identity),
    Rebinding(Identity),
    Cloned(SealedView, Identity),
    Failed(Failure),
}

impl View for TreeClone {
    type V = TreeCloneView;

    open spec fn view(&self) -> TreeCloneView {
        match self {
            TreeClone::Planning => TreeCloneView::Planning,
            TreeClone::Walking => TreeCloneView::Walking,
            TreeClone::Protecting => TreeCloneView::Protecting,
            TreeClone::RootSeeing => TreeCloneView::RootSeeing,
            TreeClone::RootSyncing(root) => TreeCloneView::RootSyncing(*root),
            TreeClone::ParentSyncing(root) => TreeCloneView::ParentSyncing(*root),
            TreeClone::Rebinding(root) => TreeCloneView::Rebinding(*root),
            TreeClone::Cloned(receipt) => TreeCloneView::Cloned(receipt@.0, receipt@.1),
            TreeClone::Failed(error) => TreeCloneView::Failed(error@),
        }
    }
}

#[derive(Clone, Copy, Debug, PartialEq, Eq, Structural)]
pub enum TreeCloneAction {
    SeePlan,
    /// Walk the source to clone it, and look at it again.
    WalkSource,
    ProtectRoot,
    /// Look at the cloned root, and for metadata on it.
    SeeRoot,
    SyncRoot,
    SyncParent,
    StatEntry,
    Nothing,
}

#[derive(Debug)]
pub enum TreeCloneEvent {
    Seen(PlanSeen),
    Walked(Walked, Result<Identity, Error>),
    Moded(Result<(), Error>),
    Root(Result<Identity, Error>, Result<bool, Error>),
    Synced(Result<(), String>),
    Identity(Result<Identity, Error>),
}

impl TreeCloneView {
    /// Cloning after the driver's answer. An answer to another question changes nothing.
    pub open spec fn after(self, event: TreeCloneEvent, plan: PlanView, uid: u32) -> TreeCloneView {
        match (self, event) {
            (TreeCloneView::Planning, TreeCloneEvent::Seen(seen)) => match plan_failure(
                plan,
                seen,
                uid,
            ) {
                Some(failed) => TreeCloneView::Failed(failed),
                None => TreeCloneView::Walking,
            },
            (TreeCloneView::Walking, TreeCloneEvent::Walked(walked, source)) => match (
                walked,
                source,
            ) {
                (Err(error), _) => TreeCloneView::Failed(error@),
                (_, Err(error)) => TreeCloneView::Failed(error@),
                (Ok((digest, entries)), Ok(source)) => if is_stable_directory(
                    source,
                    plan.receipt.root,
                ) && entries == plan.receipt.entries && digest@ == plan.receipt.content_digest {
                    TreeCloneView::Protecting
                } else {
                    TreeCloneView::Failed(
                        unsupported("clone receipt did not match its sealed source plan"@),
                    )
                },
            },
            (TreeCloneView::Protecting, TreeCloneEvent::Moded(moded)) => match moded {
                Err(error) => TreeCloneView::Failed(error@),
                Ok(_) => TreeCloneView::RootSeeing,
            },
            (TreeCloneView::RootSeeing, TreeCloneEvent::Root(root, metadata)) => match root {
                Err(error) => TreeCloneView::Failed(error@),
                Ok(root) => match binding_failure(
                    root.is_same_node(plan.destination) && is_clone_destination(root, uid)
                        && root.mode == 0o755,
                    metadata,
                    "clone destination root did not retain its receipt binding"@,
                ) {
                    Some(failed) => TreeCloneView::Failed(failed),
                    None => TreeCloneView::RootSyncing(root),
                },
            },
            (TreeCloneView::RootSyncing(root), TreeCloneEvent::Synced(synced)) => match synced {
                Err(words) => TreeCloneView::Failed(
                    unsupported("cannot sync cloned root"@ + ": "@ + words@),
                ),
                Ok(_) => TreeCloneView::ParentSyncing(root),
            },
            (TreeCloneView::ParentSyncing(root), TreeCloneEvent::Synced(synced)) => match synced {
                Err(words) => TreeCloneView::Failed(
                    unsupported("cannot sync cloned root parent"@ + ": "@ + words@),
                ),
                Ok(_) => TreeCloneView::Rebinding(root),
            },
            (TreeCloneView::Rebinding(root), TreeCloneEvent::Identity(entry)) => match entry {
                Err(error) => TreeCloneView::Failed(error@),
                Ok(entry) => if is_stable_directory(entry, root) {
                    TreeCloneView::Cloned(plan.receipt, root)
                } else {
                    TreeCloneView::Failed(
                        unsupported("clone destination parent binding changed after sync"@),
                    )
                },
            },
            _ => self,
        }
    }

    pub open spec fn asks(self) -> TreeCloneAction {
        match self {
            TreeCloneView::Planning => TreeCloneAction::SeePlan,
            TreeCloneView::Walking => TreeCloneAction::WalkSource,
            TreeCloneView::Protecting => TreeCloneAction::ProtectRoot,
            TreeCloneView::RootSeeing => TreeCloneAction::SeeRoot,
            TreeCloneView::RootSyncing(_) => TreeCloneAction::SyncRoot,
            TreeCloneView::ParentSyncing(_) => TreeCloneAction::SyncParent,
            TreeCloneView::Rebinding(_) => TreeCloneAction::StatEntry,
            TreeCloneView::Cloned(_, _) | TreeCloneView::Failed(_) => TreeCloneAction::Nothing,
        }
    }
}

fn refused(detail: &str) -> (clone: TreeClone)
    ensures
        clone@ == TreeCloneView::Failed(unsupported(detail@)),
{
    TreeClone::Failed(Error::new("STORAGE_UNSUPPORTED", detail))
}

impl TreeClone {
    pub fn start() -> (clone: Self)
        ensures
            clone@ == TreeCloneView::Planning,
    {
        TreeClone::Planning
    }

    pub fn action(&self) -> (action: TreeCloneAction)
        ensures
            action == self@.asks(),
    {
        match self {
            TreeClone::Planning => TreeCloneAction::SeePlan,
            TreeClone::Walking => TreeCloneAction::WalkSource,
            TreeClone::Protecting => TreeCloneAction::ProtectRoot,
            TreeClone::RootSeeing => TreeCloneAction::SeeRoot,
            TreeClone::RootSyncing(_) => TreeCloneAction::SyncRoot,
            TreeClone::ParentSyncing(_) => TreeCloneAction::SyncParent,
            TreeClone::Rebinding(_) => TreeCloneAction::StatEntry,
            TreeClone::Cloned(_) => TreeCloneAction::Nothing,
            TreeClone::Failed(_) => TreeCloneAction::Nothing,
        }
    }

    /// Takes the driver's answer; `uid` is the user who runs the program.
    pub fn cow_clone(self, event: TreeCloneEvent, plan: &CowPlan, uid: u32) -> (next: Self)
        ensures
            next@ == self@.after(event, plan@, uid),
    {
        match (self, event) {
            (TreeClone::Planning, TreeCloneEvent::Seen(seen)) => match check_plan(plan, seen, uid) {
                Err(error) => TreeClone::Failed(error),
                Ok(_) => TreeClone::Walking,
            },
            (TreeClone::Walking, TreeCloneEvent::Walked(walked, source)) => match (walked, source) {
                (Err(error), _) => TreeClone::Failed(error),
                (_, Err(error)) => TreeClone::Failed(error),
                (Ok((digest, entries)), Ok(source)) => if stable_directory_node(
                    source,
                    plan.source_receipt.root,
                ) && entries == plan.source_receipt.manifest.entries && same_text(
                    digest.as_str(),
                    plan.source_receipt.content_digest.as_str(),
                ) {
                    TreeClone::Protecting
                } else {
                    refused("clone receipt did not match its sealed source plan")
                },
            },
            (TreeClone::Protecting, TreeCloneEvent::Moded(moded)) => match moded {
                Err(error) => TreeClone::Failed(error),
                Ok(_) => TreeClone::RootSeeing,
            },
            (TreeClone::RootSeeing, TreeCloneEvent::Root(root, metadata)) => match root {
                Err(error) => TreeClone::Failed(error),
                Ok(root) => match check_binding(
                    root.same_node(plan.destination) && clone_destination_directory(root, uid)
                        && root.mode == 0o755,
                    &metadata,
                    "clone destination root did not retain its receipt binding",
                ) {
                    Err(error) => TreeClone::Failed(error),
                    Ok(_) => TreeClone::RootSyncing(root),
                },
            },
            (TreeClone::RootSyncing(root), TreeCloneEvent::Synced(synced)) => match synced {
                Err(words) => TreeClone::Failed(
                    storage_io("cannot sync cloned root", words.as_str()),
                ),
                Ok(_) => TreeClone::ParentSyncing(root),
            },
            (TreeClone::ParentSyncing(root), TreeCloneEvent::Synced(synced)) => match synced {
                Err(words) => TreeClone::Failed(
                    storage_io("cannot sync cloned root parent", words.as_str()),
                ),
                Ok(_) => TreeClone::Rebinding(root),
            },
            (TreeClone::Rebinding(root), TreeCloneEvent::Identity(entry)) => match entry {
                Err(error) => TreeClone::Failed(error),
                Ok(entry) => if stable_directory_node(entry, root) {
                    TreeClone::Cloned(
                        CowReceipt { source: plan.source_receipt.copy(), destination: root },
                    )
                } else {
                    refused("clone destination parent binding changed after sync")
                },
            },
            (clone, _) => clone,
        }
    }
}

/// A clone goes on behind its walk only where the walk hashed what the receipt of the sealed tree
/// says, entry for entry and byte for byte.
pub proof fn law_clone_matches_its_source(
    clone: TreeCloneView,
    event: TreeCloneEvent,
    plan: PlanView,
    uid: u32,
)
    requires
        clone !is Protecting,
        clone.after(event, plan, uid) is Protecting,
    ensures
        clone is Walking,
        event matches TreeCloneEvent::Walked(Ok((digest, entries)), Ok(source)) && digest@
            == plan.receipt.content_digest && entries == plan.receipt.entries
            && is_stable_directory(source, plan.receipt.root),
{
}

/// The receipt of a clone names the sealed tree of the plan and the destination of the plan, which is
/// a worktree directory of the user.
pub proof fn law_clone_receipt_is_of_the_plan(
    clone: TreeCloneView,
    event: TreeCloneEvent,
    plan: PlanView,
    uid: u32,
)
    requires
        clone !is Cloned,
        clone.holds_destination(plan, uid),
    ensures
        clone.after(event, plan, uid).holds_destination(plan, uid),
        clone.after(event, plan, uid) matches TreeCloneView::Cloned(source, destination) ==> source
            == plan.receipt && destination.is_same_node(plan.destination)
            && is_worktree_directory(destination, uid),
{
}

impl TreeCloneView {
    /// The destination at hand is the plan's, with the mode of a worktree.
    pub open spec fn holds_destination(self, plan: PlanView, uid: u32) -> bool {
        match self {
            TreeCloneView::RootSyncing(root)
            | TreeCloneView::ParentSyncing(root)
            | TreeCloneView::Rebinding(root) => {
                root.is_same_node(plan.destination) && is_worktree_directory(root, uid)
            },
            _ => true,
        }
    }
}

} // verus!
