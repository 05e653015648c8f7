//! Walking a tree: to seal it, to verify it, to clone it, or to verify a clone. Each entry is checked
//! before it is used, and what is hashed is exactly what was seen.

use crate::authority::{
    failure, Error, Failure, Identity, DIRECTORY_TYPE, REGULAR_TYPE, SYMLINK_TYPE,
};
use crate::bytes::{append, copy_bytes, same_bytes, utf8, views};
use crate::content::{content_message, counted_entries, Entry};
use crate::digest::{digest_text, MessageHasher, MESSAGE_LIMIT};
use crate::notation::all_lower_hex;
use crate::storage::{
    clone_destination_directory, content_hasher, content_start, cstring, directory_message,
    hash_directory, hash_regular, hash_symlink, is_clone_destination, is_private_directory,
    is_sealed_directory, is_sealed_regular, is_stable_directory, is_tree_basename,
    is_worktree_directory, is_worktree_regular, private_directory, regular_header, sealed_directory,
    sealed_mode, sealed_mode_spec, sealed_regular, stable_directory_node, symlink_message,
    validate_basename, worktree_directory, worktree_regular, MAX_SYMLINK,
};
use vstd::prelude::*;

verus! {

/// What the tree is walked for.
#[derive(Clone, Copy, Debug, PartialEq, Eq, Structural)]
pub enum Walk {
    /// Make a private tree immutable.
    Seal,
    /// Hash a sealed tree.
    Verify,
    /// Clone a sealed tree into a worktree.
    Clone,
    /// Hash a worktree as the sealed tree it was cloned from.
    Worktree,
}

/// How much of a file is read at once.
pub const READ_SIZE: u64 = 65536;

impl Walk {
    /// The directories that may be walked.
    pub open spec fn takes_directory(self, identity: Identity, uid: u32) -> bool {
        match self {
            Walk::Seal => is_private_directory(identity, uid),
            Walk::Worktree => is_worktree_directory(identity, uid),
            Walk::Verify | Walk::Clone => is_sealed_directory(identity, uid),
        }
    }

    /// What a directory has become when the walk leaves it.
    pub open spec fn leaves_directory(self, identity: Identity, uid: u32) -> bool {
        match self {
            Walk::Worktree => is_worktree_directory(identity, uid),
            _ => is_sealed_directory(identity, uid),
        }
    }

    pub open spec fn takes_regular(self, identity: Identity, uid: u32) -> bool {
        match self {
            Walk::Worktree => is_worktree_regular(identity, uid),
            _ => is_sealed_regular(identity, uid),
        }
    }

    /// The mode under which a file is hashed: that of the sealed tree.
    pub open spec fn hashed_mode(self, mode: u32) -> u32 {
        match self {
            Walk::Worktree => sealed_mode_spec(mode),
            _ => mode,
        }
    }

    fn accepts_directory(self, identity: Identity, uid: u32) -> (accepts: bool)
        ensures
            accepts == self.takes_directory(identity, uid),
    {
        match self {
            Walk::Seal => private_directory(identity, uid),
            Walk::Worktree => worktree_directory(identity, uid),
            Walk::Verify => sealed_directory(identity, uid),
            Walk::Clone => sealed_directory(identity, uid),
        }
    }

    fn accepts_left_directory(self, identity: Identity, uid: u32) -> (accepts: bool)
        ensures
            accepts == self.leaves_directory(identity, uid),
    {
        match self {
            Walk::Worktree => worktree_directory(identity, uid),
            _ => sealed_directory(identity, uid),
        }
    }

    fn accepts_regular(self, identity: Identity, uid: u32) -> (accepts: bool)
        ensures
            accepts == self.takes_regular(identity, uid),
    {
        match self {
            Walk::Worktree => worktree_regular(identity, uid),
            _ => sealed_regular(identity, uid),
        }
    }

    fn mode(self, mode: u32) -> (hashed: u32)
        ensures
            hashed == self.hashed_mode(mode),
    {
        match self {
            Walk::Worktree => sealed_mode(mode),
            _ => mode,
        }
    }
}

/// What a directory is when the walk comes to it.
#[derive(Debug)]
pub struct DirectorySeen {
    pub identity: Result<Identity, Error>,
    /// Whether it carries metadata that a tree may not have.
    pub metadata: Result<bool, Error>,
    /// The directory that it is cloned into; looked at only when cloning.
    pub destination: Result<Identity, Error>,
    pub destination_metadata: Result<bool, Error>,
    /// Whether `.git` is the private file of a linked worktree; looked at only at the root of a
    /// worktree.
    pub linked: Result<bool, Error>,
    /// The names in it, in order.
    pub names: Result<Vec<Vec<u8>>, Error>,
}

/// What was made of a symbolic link.
#[derive(Debug)]
pub struct LinkCloned {
    pub made: Result<(), Error>,
    pub identity: Result<Identity, Error>,
    pub metadata: Result<bool, Error>,
    pub target: Result<Vec<u8>, Error>,
}

/// What the driver is asked to do. The entry is the one that `TreeWalk::name` names, in the directory
/// that was entered last.
#[derive(Clone, Copy, Debug, PartialEq, Eq, Structural)]
pub enum WalkAction {
    /// Look at the directory that was opened last.
    SeeDirectory,
    StatEntry,
    OpenDirectory,
    /// Make the directory that the opened one is cloned into, and open it.
    MakeDirectory,
    OpenRegular,
    SizeRegular,
    ReadRegular(u64),
    RestatRegular,
    CloneRegular,
    /// Look for metadata on the link.
    InspectLink,
    ReadLink,
    CloneLink,
    /// Sync the directory that the entry was cloned into.
    SyncDestination,
    /// Sync the directory that was cloned into last, leave it, and sync its parent.
    SyncChild,
    /// Give the directory the mode of a sealed one.
    SealDirectory,
    /// Look at the directory again.
    SeeAgain,
    SyncDirectory,
    Nothing,
}

/// What the driver answers.
#[derive(Debug)]
pub enum WalkEvent {
    Directory(DirectorySeen),
    Identity(Result<Identity, Error>),
    /// What was found, and whether it carries metadata.
    Bound(Result<Identity, Error>, Result<bool, Error>),
    Size(Result<u64, String>),
    Content(Result<Vec<u8>, String>),
    Restat(Result<Identity, Error>, Result<u64, String>),
    Metadata(Result<bool, Error>),
    Target(Result<Vec<u8>, Error>),
    Link(LinkCloned),
    Done(Result<(), Error>),
    Synced(Result<(), String>),
    /// The child, then its parent.
    ChildSynced(Result<(), String>, Result<(), String>),
}

/// A directory that is being walked.
#[derive(Debug)]
pub struct Level {
    pub prefix: Vec<u8>,
    pub dev: u64,
    pub names: Vec<Vec<u8>>,
    /// The name at hand.
    pub next: usize,
}

#[verifier::ext_equal]
pub struct LevelView {
    pub prefix: Seq<u8>,
    pub dev: u64,
    pub names: Seq<Seq<u8>>,
    pub next: int,
}

impl View for Level {
    type V = LevelView;

    open spec fn view(&self) -> LevelView {
        LevelView {
            prefix: self.prefix@,
            dev: self.dev,
            names: views(self.names@),
            next: self.next as int,
        }
    }
}

pub open spec fn level_views(levels: Seq<Level>) -> Seq<LevelView> {
    Seq::new(levels.len(), |i: int| levels[i]@)
}

#[derive(Debug)]
pub enum WalkStage {
    /// A directory was opened, under this path.
    Entering(Vec<u8>),
    Stating,
    DirectoryOpening(Identity),
    DestinationMaking,
    RegularOpening(Identity),
    Sizing(Identity),
    Reading { entry: Identity, size: u64, remaining: u64 },
    Restating { entry: Identity, size: u64 },
    RegularCloning,
    RegularSyncing,
    LinkInspecting,
    LinkReading,
    LinkCloning(Vec<u8>),
    LinkSyncing,
    ChildSyncing,
    Sealing,
    Retaining,
    Syncing,
    Finished,
    Failed(Error),
}

#[verifier::ext_equal]
pub enum WalkStageView {
    Entering(Seq<u8>),
    Stating,
    DirectoryOpening(Identity),
    DestinationMaking,
    RegularOpening(Identity),
    Sizing(Identity),
    Reading(Identity, u64, u64),
    Restating(Identity, u64),
    RegularCloning,
    RegularSyncing,
    LinkInspecting,
    LinkReading,
    LinkCloning(Seq<u8>),
    LinkSyncing,
    ChildSyncing,
    Sealing,
    Retaining,
    Syncing,
    Finished,
    Failed(Failure),
}

impl View for WalkStage {
    type V = WalkStageView;

    open spec fn view(&self) -> WalkStageView {
        match self {
            WalkStage::Entering(prefix) => WalkStageView::Entering(prefix@),
            WalkStage::Stating => WalkStageView::Stating,
            WalkStage::DirectoryOpening(entry) => WalkStageView::DirectoryOpening(*entry),
            WalkStage::DestinationMaking => WalkStageView::DestinationMaking,
            WalkStage::RegularOpening(entry) => WalkStageView::RegularOpening(*entry),
            WalkStage::Sizing(entry) => WalkStageView::Sizing(*entry),
            WalkStage::Reading { entry, size, remaining } => WalkStageView::Reading(
                *entry,
                *size,
                *remaining,
            ),
            WalkStage::Restating { entry, size } => WalkStageView::Restating(*entry, *size),
            WalkStage::RegularCloning => WalkStageView::RegularCloning,
            WalkStage::RegularSyncing => WalkStageView::RegularSyncing,
            WalkStage::LinkInspecting => WalkStageView::LinkInspecting,
            WalkStage::LinkReading => WalkStageView::LinkReading,
            WalkStage::LinkCloning(target) => WalkStageView::LinkCloning(target@),
            WalkStage::LinkSyncing => WalkStageView::LinkSyncing,
            WalkStage::ChildSyncing => WalkStageView::ChildSyncing,
            WalkStage::Sealing => WalkStageView::Sealing,
            WalkStage::Retaining => WalkStageView::Retaining,
            WalkStage::Syncing => WalkStageView::Syncing,
            WalkStage::Finished => WalkStageView::Finished,
            WalkStage::Failed(error) => WalkStageView::Failed(error@),
        }
    }
}

/// What a walk has come to.
struct WalkState {
    walk: Walk,
    uid: u32,
    levels: Vec<Level>,
    stage: WalkStage,
    entries: u64,
    hasher: MessageHasher,
    listed: Ghost<Seq<Entry>>,
    reading: Ghost<Seq<u8>>,
}

/// A walk through a tree.
pub struct TreeWalk {
    state: WalkState,
}

#[verifier::ext_equal]
pub struct WalkView {
    pub walk: Walk,
    pub uid: u32,
    /// The directories from the root to the one at hand.
    pub levels: Seq<LevelView>,
    pub stage: WalkStageView,
    /// How many files and links have been walked.
    pub entries: u64,
    /// What has been hashed.
    pub hashed: Seq<u8>,
    /// The entries that have been hashed whole.
    pub listed: Seq<Entry>,
    /// What has been read of the file at hand.
    pub reading: Seq<u8>,
}

impl View for WalkState {
    type V = WalkView;

    closed spec fn view(&self) -> WalkView {
        WalkView {
            walk: self.walk,
            uid: self.uid,
            levels: level_views(self.levels@),
            stage: self.stage@,
            entries: self.entries,
            hashed: self.hasher.message(),
            listed: self.listed@,
            reading: self.reading@,
        }
    }
}

impl View for TreeWalk {
    type V = WalkView;

    closed spec fn view(&self) -> WalkView {
        self.state@
    }
}

pub open spec fn path_under(prefix: Seq<u8>, name: Seq<u8>) -> Seq<u8> {
    if prefix.len() == 0 {
        name
    } else {
        prefix.push(47) + name
    }
}

fn join_path(prefix: &[u8], name: &[u8]) -> (path: Vec<u8>)
    ensures
        path@ == path_under(prefix@, name@),
{
    let mut path = copy_bytes(prefix);
    if path.len() > 0 {
        path.push(47);
    }
    append(&mut path, name);
    proof {
        assert(path@ =~= path_under(prefix@, name@));
    }
    path
}

pub open spec fn unsupported(detail: Seq<char>) -> Failure {
    ("STORAGE_UNSUPPORTED"@, detail)
}

/// What is bound must be right, and must carry no metadata.
pub open spec fn binding_failure(right: bool, metadata: Result<bool, Error>, detail: Seq<char>) -> Option<
    Failure,
> {
    if !right {
        Some(unsupported(detail))
    } else {
        match metadata {
            Err(error) => Some(error@),
            Ok(present) => if present {
                Some(unsupported(detail))
            } else {
                None
            },
        }
    }
}

pub fn check_binding(right: bool, metadata: &Result<bool, Error>, detail: &str) -> (checked: Result<
    (),
    Error,
>)
    ensures
        failure(checked) == binding_failure(right, *metadata, detail@),
{
    if !right {
        return Err(Error::new("STORAGE_UNSUPPORTED", detail));
    }
    match metadata {
        Err(error) => Err(error.copy()),
        Ok(present) => if *present {
            Err(Error::new("STORAGE_UNSUPPORTED", detail))
        } else {
            Ok(())
        },
    }
}

pub open spec fn directory_seen_failure(
    walk: Walk,
    uid: u32,
    at_root: bool,
    seen: DirectorySeen,
) -> Option<Failure> {
    let directory = match seen.identity {
        Err(error) => Some(error@),
        Ok(identity) => binding_failure(
            walk.takes_directory(identity, uid),
            seen.metadata,
            "sealed-tree directory binding or metadata is unsupported"@,
        ),
    };
    let destination = if walk == Walk::Clone {
        match seen.destination {
            Err(error) => Some(error@),
            Ok(identity) => binding_failure(
                is_clone_destination(identity, uid),
                seen.destination_metadata,
                "clone destination directory binding or metadata is unsupported"@,
            ),
        }
    } else {
        None
    };
    let linked = if walk == Walk::Worktree && at_root {
        match seen.linked {
            Err(error) => Some(error@),
            Ok(linked) => if linked {
                None
            } else {
                Some(
                    unsupported(
                        "cloned worktree is missing its private linked-worktree metadata"@,
                    ),
                )
            },
        }
    } else {
        None
    };
    if directory is Some {
        directory
    } else if destination is Some {
        destination
    } else if linked is Some {
        linked
    } else {
        failure(seen.names)
    }
}

/// Judges the directory that the walk has come to.
pub fn check_directory(walk: Walk, uid: u32, at_root: bool, seen: &DirectorySeen) -> (checked: Result<
    (),
    Error,
>)
    ensures
        failure(checked) == directory_seen_failure(walk, uid, at_root, *seen),
{
    match &seen.identity {
        Err(error) => {
            return Err(error.copy());
        },
        Ok(identity) => {
            check_binding(
                walk.accepts_directory(*identity, uid),
                &seen.metadata,
                "sealed-tree directory binding or metadata is unsupported",
            )?;
        },
    }
    if walk == Walk::Clone {
        match &seen.destination {
            Err(error) => {
                return Err(error.copy());
            },
            Ok(identity) => {
                check_binding(
                    clone_destination_directory(*identity, uid),
                    &seen.destination_metadata,
                    "clone destination directory binding or metadata is unsupported",
                )?;
            },
        }
    }
    if walk == Walk::Worktree && at_root {
        match &seen.linked {
            Err(error) => {
                return Err(error.copy());
            },
            Ok(linked) => {
                if !*linked {
                    return Err(
                        Error::new(
                            "STORAGE_UNSUPPORTED",
                            "cloned worktree is missing its private linked-worktree metadata",
                        ),
                    );
                }
            },
        }
    }
    match &seen.names {
        Err(error) => Err(error.copy()),
        Ok(_) => Ok(()),
    }
}

pub open spec fn link_cloned_failure(cloned: LinkCloned, target: Seq<u8>) -> Option<Failure> {
    let detail = "cloned symbolic link binding or metadata changed"@;
    match (cloned.made, cloned.identity) {
        (Err(error), _) => Some(error@),
        (_, Err(error)) => Some(error@),
        (Ok(_), Ok(identity)) => match binding_failure(
            identity.kind == SYMLINK_TYPE,
            cloned.metadata,
            detail,
        ) {
            Some(failed) => Some(failed),
            None => match cloned.target {
                Err(error) => Some(error@),
                Ok(read) => if read@ == target {
                    None
                } else {
                    Some(unsupported(detail))
                },
            },
        },
    }
}

/// Judges the link that was made of a link with this target.
pub fn check_cloned_link(cloned: &LinkCloned, target: &[u8]) -> (checked: Result<(), Error>)
    ensures
        failure(checked) == link_cloned_failure(*cloned, target@),
{
    match (&cloned.made, &cloned.identity) {
        (Err(error), _) => Err(error.copy()),
        (_, Err(error)) => Err(error.copy()),
        (Ok(_), Ok(identity)) => {
            check_binding(
                identity.kind == SYMLINK_TYPE,
                &cloned.metadata,
                "cloned symbolic link binding or metadata changed",
            )?;
            match &cloned.target {
                Err(error) => Err(error.copy()),
                Ok(read) => if same_bytes(read.as_slice(), target) {
                    Ok(())
                } else {
                    Err(
                        Error::new(
                            "STORAGE_UNSUPPORTED",
                            "cloned symbolic link binding or metadata changed",
                        ),
                    )
                },
            }
        },
    }
}

/// Why the target of a link cannot be taken over.
pub open spec fn target_failure(target: Seq<u8>) -> Option<Failure> {
    if target.len() > MAX_SYMLINK {
        Some(unsupported("sealed symbolic link exceeds the supported limit"@))
    } else if target.contains(0) {
        Some(unsupported("symbolic link contains NUL"@))
    } else {
        None
    }
}

/// Checks what was read of a link.
pub fn read_link_at(target: &[u8]) -> (checked: Result<(), Error>)
    ensures
        failure(checked) == target_failure(target@),
{
    if target.len() > MAX_SYMLINK {
        return Err(
            Error::new("STORAGE_UNSUPPORTED", "sealed symbolic link exceeds the supported limit"),
        );
    }
    if crate::bytes::contains_byte(target, 0) {
        return Err(Error::new("STORAGE_UNSUPPORTED", "symbolic link contains NUL"));
    }
    Ok(())
}

/// The first name from `next` on that is not Git's own.
pub open spec fn past_git(names: Seq<Seq<u8>>, next: int) -> int
    decreases names.len() - next,
{
    if 0 <= next < names.len() && names[next] == utf8(".git"@) {
        past_git(names, next + 1)
    } else {
        next
    }
}

impl LevelView {
    pub open spec fn name(self) -> Seq<u8> {
        self.names[self.next]
    }

    pub open spec fn path(self) -> Seq<u8> {
        path_under(self.prefix, self.name())
    }
}

impl WalkView {
    pub open spec fn level(self) -> LevelView {
        self.levels.last()
    }

    pub open spec fn fail(self, failed: Failure) -> WalkView {
        WalkView { stage: WalkStageView::Failed(failed), ..self }
    }

    pub open spec fn at(self, stage: WalkStageView) -> WalkView {
        WalkView { stage, ..self }
    }

    pub open spec fn system(self, context: Seq<char>, words: String) -> WalkView {
        self.fail(unsupported(context + ": "@ + words@))
    }

    /// Goes on with the name at `next`, or leaves the directory behind its last name.
    pub open spec fn go_on(self, next: int) -> WalkView {
        let level = self.level();
        let at_root = level.prefix.len() == 0;
        let place = if self.walk == Walk::Worktree && at_root {
            past_git(level.names, next)
        } else {
            next
        };
        let moved = WalkView {
            levels: self.levels.drop_last().push(LevelView { next: place, ..level }),
            ..self
        };
        if place >= level.names.len() {
            if self.walk == Walk::Seal {
                moved.at(WalkStageView::Sealing)
            } else {
                moved.at(WalkStageView::Retaining)
            }
        } else if !is_tree_basename(level.names[place]) {
            moved.fail(unsupported("sealed tree contains an invalid pathname component"@))
        } else if level.names[place].contains(0) {
            moved.fail(unsupported("pathname contains NUL"@))
        } else {
            moved.at(WalkStageView::Stating)
        }
    }

    pub open spec fn next_name(self) -> WalkView {
        self.go_on(self.level().next + 1)
    }

    /// One more file or link.
    pub open spec fn count(self) -> WalkView {
        if self.entries == u64::MAX {
            self.fail(unsupported("sealed-tree entry count overflow"@))
        } else {
            WalkView { entries: (self.entries + 1) as u64, ..self }.next_name()
        }
    }

    /// Leaves a directory that was walked to its end.
    pub open spec fn leave(self) -> WalkView {
        let done = WalkView {
            listed: self.listed.push(Entry::Directory { path: self.level().prefix }),
            hashed: self.hashed + directory_message(self.level().prefix),
            levels: self.levels.drop_last(),
            ..self
        };
        if done.levels.len() == 0 {
            done.at(WalkStageView::Finished)
        } else if self.walk == Walk::Clone {
            done.at(WalkStageView::ChildSyncing)
        } else {
            done.next_name()
        }
    }

    pub open spec fn stated(self, entry: Identity) -> WalkView {
        if entry.uid != self.uid || entry.dev != self.level().dev {
            self.fail(unsupported("sealed-tree entry changed ownership or volume"@))
        } else if entry.kind == DIRECTORY_TYPE {
            if self.walk.takes_directory(entry, self.uid) {
                self.at(WalkStageView::DirectoryOpening(entry))
            } else {
                self.fail(unsupported("sealed-tree child directory is invalid"@))
            }
        } else if entry.kind == REGULAR_TYPE {
            if self.walk.takes_regular(entry, self.uid) {
                self.at(WalkStageView::RegularOpening(entry))
            } else {
                self.fail(unsupported("sealed-tree regular file is invalid"@))
            }
        } else if entry.kind == SYMLINK_TYPE {
            if entry.nlink == 1 {
                self.at(WalkStageView::LinkInspecting)
            } else {
                self.fail(unsupported("sealed-tree symbolic link has unsupported metadata"@))
            }
        } else {
            self.fail(unsupported("sealed tree contains a special file"@))
        }
    }

    /// A file of this size is to be read, as far as there is anything to read.
    pub open spec fn read_on(self, entry: Identity, size: u64, remaining: u64) -> WalkView {
        if remaining == 0 {
            self.at(WalkStageView::Restating(entry, size))
        } else {
            self.at(WalkStageView::Reading(entry, size, remaining))
        }
    }

    /// What an answer adds to the hashed message, apart from what leaving a directory adds.
    pub open spec fn chunk(self, event: WalkEvent) -> Seq<u8> {
        match (self.stage, event) {
            (WalkStageView::Sizing(entry), WalkEvent::Size(Ok(size))) => regular_header(
                self.level().path(),
                self.walk.hashed_mode(entry.mode),
                size,
            ),
            (
                WalkStageView::Reading(_, _, remaining),
                WalkEvent::Content(Ok(bytes)),
            ) => if bytes@.len() <= remaining {
                bytes@
            } else {
                Seq::empty()
            },
            (WalkStageView::LinkReading, WalkEvent::Target(Ok(target))) => if target_failure(
                target@,
            ) is None {
                symlink_message(target@, self.level().path())
            } else {
                Seq::empty()
            },
            (WalkStageView::Retaining, _) => directory_message(self.level().prefix),
            (WalkStageView::Syncing, _) => directory_message(self.level().prefix),
            _ => Seq::empty(),
        }
    }

    /// The message stays within the length that can be hashed.
    pub open spec fn has_room(self, event: WalkEvent) -> bool {
        self.hashed.len() + self.chunk(event).len() < MESSAGE_LIMIT
    }

    /// The walk after the driver's answer. An answer to another question changes nothing.
    pub open spec fn after(self, event: WalkEvent) -> WalkView {
        match (self.stage, event) {
            (
                WalkStageView::Entering(prefix),
                WalkEvent::Directory(seen),
            ) => match directory_seen_failure(self.walk, self.uid, prefix.len() == 0, seen) {
                Some(failed) => self.fail(failed),
                None => WalkView {
                    levels: self.levels.push(
                        LevelView {
                            prefix,
                            dev: seen.identity->Ok_0.dev,
                            names: views(seen.names->Ok_0@),
                            next: 0,
                        },
                    ),
                    ..self
                }.go_on(0),
            },
            (WalkStageView::Stating, WalkEvent::Identity(seen)) => match seen {
                Err(error) => self.fail(error@),
                Ok(entry) => self.stated(entry),
            },
            (WalkStageView::DirectoryOpening(entry), WalkEvent::Identity(seen)) => match seen {
                Err(error) => self.fail(error@),
                Ok(child) => if !is_stable_directory(child, entry) {
                    self.fail(unsupported("sealed-tree directory changed while opening"@))
                } else if self.walk == Walk::Clone {
                    self.at(WalkStageView::DestinationMaking)
                } else {
                    self.at(WalkStageView::Entering(self.level().path()))
                },
            },
            (WalkStageView::DestinationMaking, WalkEvent::Identity(seen)) => match seen {
                Err(error) => self.fail(error@),
                Ok(made) => if is_worktree_directory(made, self.uid) {
                    self.at(WalkStageView::Entering(self.level().path()))
                } else {
                    self.fail(unsupported("native COW destination directory is invalid"@))
                },
            },
            (
                WalkStageView::RegularOpening(entry),
                WalkEvent::Bound(seen, metadata),
            ) => match seen {
                Err(error) => self.fail(error@),
                Ok(opened) => match binding_failure(
                    opened == entry,
                    metadata,
                    "sealed-tree regular file binding or metadata changed"@,
                ) {
                    Some(failed) => self.fail(failed),
                    None => self.at(WalkStageView::Sizing(entry)),
                },
            },
            (WalkStageView::Sizing(entry), WalkEvent::Size(seen)) => match seen {
                Err(words) => self.system("cannot stat sealed regular file"@, words),
                Ok(size) => WalkView {
                    hashed: self.hashed + self.chunk(event),
                    reading: Seq::empty(),
                    ..self
                }.read_on(entry, size, size),
            },
            (
                WalkStageView::Reading(entry, size, remaining),
                WalkEvent::Content(read),
            ) => match read {
                Err(words) => self.system("cannot read sealed regular file"@, words),
                Ok(bytes) => if bytes@.len() == 0 {
                    self.fail(unsupported("sealed regular file was truncated"@))
                } else if bytes@.len() > remaining {
                    self.fail(unsupported("sealed regular file changed while hashing"@))
                } else {
                    WalkView {
                        hashed: self.hashed + self.chunk(event),
                        reading: self.reading + bytes@,
                        ..self
                    }.read_on(entry, size, (remaining - bytes@.len()) as u64)
                },
            },
            (
                WalkStageView::Restating(entry, size),
                WalkEvent::Restat(seen, length),
            ) => match seen {
                Err(error) => self.fail(error@),
                Ok(current) => if current != entry {
                    self.fail(unsupported("sealed regular file changed while hashing"@))
                } else {
                    match length {
                        Err(words) => self.system("cannot restat sealed regular file"@, words),
                        Ok(length) => if length != size {
                            self.fail(unsupported("sealed regular file changed while hashing"@))
                        } else {
                            let listed = WalkView {
                                listed: self.listed.push(
                                    Entry::Regular {
                                        path: self.level().path(),
                                        mode: self.walk.hashed_mode(entry.mode),
                                        content: self.reading,
                                    },
                                ),
                                ..self
                            };
                            if self.walk == Walk::Clone {
                                listed.at(WalkStageView::RegularCloning)
                            } else {
                                listed.count()
                            }
                        },
                    }
                },
            },
            (WalkStageView::RegularCloning, WalkEvent::Done(done)) => match done {
                Err(error) => self.fail(error@),
                Ok(_) => self.at(WalkStageView::RegularSyncing),
            },
            (WalkStageView::RegularSyncing, WalkEvent::Synced(synced)) => match synced {
                Err(words) => self.system("cannot sync native COW file parent"@, words),
                Ok(_) => self.count(),
            },
            (WalkStageView::LinkInspecting, WalkEvent::Metadata(metadata)) => match metadata {
                Err(error) => self.fail(error@),
                Ok(present) => if present {
                    self.fail(
                        unsupported("sealed-tree symbolic link has unsupported metadata"@),
                    )
                } else {
                    self.at(WalkStageView::LinkReading)
                },
            },
            (WalkStageView::LinkReading, WalkEvent::Target(read)) => match read {
                Err(error) => self.fail(error@),
                Ok(target) => match target_failure(target@) {
                    Some(failed) => self.fail(failed),
                    None => {
                        let listed = WalkView {
                            hashed: self.hashed + self.chunk(event),
                            listed: self.listed.push(
                                Entry::Symlink { path: self.level().path(), target: target@ },
                            ),
                            ..self
                        };
                        if self.walk == Walk::Clone {
                            listed.at(WalkStageView::LinkCloning(target@))
                        } else {
                            listed.count()
                        }
                    },
                },
            },
            (
                WalkStageView::LinkCloning(target),
                WalkEvent::Link(cloned),
            ) => match link_cloned_failure(cloned, target) {
                Some(failed) => self.fail(failed),
                None => self.at(WalkStageView::LinkSyncing),
            },
            (WalkStageView::LinkSyncing, WalkEvent::Synced(synced)) => match synced {
                Err(words) => self.system("cannot sync native COW symbolic-link parent"@, words),
                Ok(_) => self.count(),
            },
            (WalkStageView::ChildSyncing, WalkEvent::ChildSynced(child, parent)) => match (
                child,
                parent,
            ) {
                (Err(words), _) => self.system("cannot sync nested native COW destination"@, words),
                (_, Err(words)) => self.system(
                    "cannot sync nested native COW destination parent"@,
                    words,
                ),
                (Ok(_), Ok(_)) => self.next_name(),
            },
            (WalkStageView::Sealing, WalkEvent::Done(done)) => match done {
                Err(error) => self.fail(error@),
                Ok(_) => self.at(WalkStageView::Retaining),
            },
            (WalkStageView::Retaining, WalkEvent::Bound(seen, metadata)) => match seen {
                Err(error) => self.fail(error@),
                Ok(current) => match binding_failure(
                    self.walk.leaves_directory(current, self.uid),
                    metadata,
                    "sealed-tree directory was not retained as immutable"@,
                ) {
                    Some(failed) => self.fail(failed),
                    None => if self.walk == Walk::Seal {
                        self.at(WalkStageView::Syncing)
                    } else {
                        self.leave()
                    },
                },
            },
            (WalkStageView::Syncing, WalkEvent::Synced(synced)) => match synced {
                Err(words) => self.system("cannot sync sealed-tree directory"@, words),
                Ok(_) => self.leave(),
            },
            _ => self,
        }
    }

    pub open spec fn asks(self) -> WalkAction {
        match self.stage {
            WalkStageView::Entering(_) => WalkAction::SeeDirectory,
            WalkStageView::Stating => WalkAction::StatEntry,
            WalkStageView::DirectoryOpening(_) => WalkAction::OpenDirectory,
            WalkStageView::DestinationMaking => WalkAction::MakeDirectory,
            WalkStageView::RegularOpening(_) => WalkAction::OpenRegular,
            WalkStageView::Sizing(_) => WalkAction::SizeRegular,
            WalkStageView::Reading(_, _, remaining) => WalkAction::ReadRegular(
                if remaining < READ_SIZE {
                    remaining
                } else {
                    READ_SIZE
                },
            ),
            WalkStageView::Restating(_, _) => WalkAction::RestatRegular,
            WalkStageView::RegularCloning => WalkAction::CloneRegular,
            WalkStageView::RegularSyncing | WalkStageView::LinkSyncing => {
                WalkAction::SyncDestination
            },
            WalkStageView::LinkInspecting => WalkAction::InspectLink,
            WalkStageView::LinkReading => WalkAction::ReadLink,
            WalkStageView::LinkCloning(_) => WalkAction::CloneLink,
            WalkStageView::ChildSyncing => WalkAction::SyncChild,
            WalkStageView::Sealing => WalkAction::SealDirectory,
            WalkStageView::Retaining => WalkAction::SeeAgain,
            WalkStageView::Syncing => WalkAction::SyncDirectory,
            WalkStageView::Finished | WalkStageView::Failed(_) => WalkAction::Nothing,
        }
    }
}

impl WalkView {
    /// Behind which stages a directory is at hand.
    pub open spec fn has_level(self) -> bool {
        !(self.stage is Finished || self.stage is Failed || (self.stage is Entering
            && self.levels.len() == 0))
    }

    /// Behind which stages an entry of the directory is at hand.
    pub open spec fn has_name(self) -> bool {
        self.has_level() && !(self.stage is Sealing || self.stage is Retaining
            || self.stage is Syncing)
    }

    /// The directories on the way down each stand at a name.
    pub open spec fn well_placed(self) -> bool {
        &&& self.has_level() ==> self.levels.len() > 0
        &&& self.has_name() ==> 0 <= self.level().next < self.level().names.len()
        &&& forall|i: int|
            0 <= i < self.levels.len() - 1 ==> 0 <= (#[trigger] self.levels[i]).next
                < self.levels[i].names.len()
        &&& self.stage is Finished ==> self.levels.len() == 0
    }

    /// What is hashed of the file at hand.
    pub open spec fn partial(self) -> Seq<u8> {
        match self.stage {
            WalkStageView::Reading(entry, size, _) => regular_header(
                self.level().path(),
                self.walk.hashed_mode(entry.mode),
                size,
            ) + self.reading,
            WalkStageView::Restating(entry, size) => regular_header(
                self.level().path(),
                self.walk.hashed_mode(entry.mode),
                size,
            ) + self.reading,
            _ => Seq::empty(),
        }
    }

    /// The entry that is listed and not counted yet.
    pub open spec fn uncounted(self) -> nat {
        if self.stage is RegularCloning || self.stage is RegularSyncing || self.stage is LinkCloning
            || self.stage is LinkSyncing {
            1
        } else {
            0
        }
    }

    pub open spec fn read_so_far(self) -> bool {
        match self.stage {
            WalkStageView::Reading(_, size, remaining) => self.reading.len() + remaining == size,
            WalkStageView::Restating(_, size) => self.reading.len() == size,
            _ => true,
        }
    }

    /// What has been hashed is what has been listed, and what has been listed is counted.
    pub open spec fn accounts(self) -> bool {
        &&& self.hashed == content_message(self.listed) + self.partial()
        &&& self.entries + self.uncounted() == counted_entries(self.listed)
        &&& self.read_so_far()
    }

    pub open spec fn keeps_to_its_purpose(self) -> bool {
        &&& self.asks().clones() ==> self.walk == Walk::Clone
        &&& self.asks().seals() ==> self.walk == Walk::Seal
    }

    /// What holds of every walk, whatever the driver answers.
    pub open spec fn sound(self) -> bool {
        self.stage is Failed || (self.well_placed() && self.accounts())
    }
}

proof fn lemma_past_git(names: Seq<Seq<u8>>, next: int)
    requires
        0 <= next <= names.len(),
    ensures
        next <= past_git(names, next) <= names.len(),
    decreases names.len() - next,
{
    if next < names.len() && names[next] == utf8(".git"@) {
        lemma_past_git(names, next + 1);
    }
}

/// Going on keeps a walk sound.
proof fn lemma_go_on(walk: WalkView, next: int)
    requires
        walk.levels.len() > 0,
        0 <= next <= walk.level().names.len(),
        forall|i: int|
            0 <= i < walk.levels.len() - 1 ==> 0 <= (#[trigger] walk.levels[i]).next
                < walk.levels[i].names.len(),
        walk.hashed == content_message(walk.listed),
        walk.entries == counted_entries(walk.listed),
    ensures
        walk.go_on(next).sound(),
{
    lemma_past_git(walk.level().names, next);
    let after = walk.go_on(next);
    assert(after.levels.len() == walk.levels.len());
    assert forall|i: int| 0 <= i < after.levels.len() - 1 implies 0 <= (
    #[trigger] after.levels[i]).next < after.levels[i].names.len() by {
        assert(after.levels[i] == walk.levels[i]);
    }
    assert(after.hashed =~= content_message(after.listed) + after.partial());
}

proof fn lemma_listed(listed: Seq<Entry>, entry: Entry)
    ensures
        content_message(listed.push(entry)) == content_message(listed) + entry.message(),
        counted_entries(listed.push(entry)) == counted_entries(listed) + if entry.counts() {
            1nat
        } else {
            0nat
        },
{
    assert(listed.push(entry).drop_last() =~= listed);
    assert(content_message(listed.push(entry)) =~= content_message(listed) + entry.message());
}

proof fn lemma_leave(walk: WalkView)
    requires
        walk.sound(),
        walk.stage is Retaining || walk.stage is Syncing,
    ensures
        walk.leave().sound(),
{
    let entry = Entry::Directory { path: walk.level().prefix };
    lemma_listed(walk.listed, entry);
    let done = WalkView {
        listed: walk.listed.push(entry),
        hashed: walk.hashed + directory_message(walk.level().prefix),
        levels: walk.levels.drop_last(),
        ..walk
    };
    assert(walk.hashed =~= content_message(walk.listed));
    assert(done.hashed =~= content_message(done.listed));
    assert forall|i: int| 0 <= i < done.levels.len() implies 0 <= (
    #[trigger] done.levels[i]).next < done.levels[i].names.len() by {
        assert(done.levels[i] == walk.levels[i]);
    }
    if done.levels.len() > 0 {
        lemma_go_on(done, done.level().next + 1);
    }
    assert(done.hashed =~= content_message(done.listed) + Seq::<u8>::empty());
}

proof fn lemma_count(walk: WalkView)
    requires
        walk.well_placed(),
        walk.has_name(),
        walk.hashed == content_message(walk.listed),
        walk.entries + 1 == counted_entries(walk.listed),
    ensures
        walk.count().sound(),
{
    if walk.entries < u64::MAX {
        lemma_go_on(
            WalkView { entries: (walk.entries + 1) as u64, ..walk },
            walk.level().next + 1,
        );
    }
}

/// Whatever the driver answers, what a walk has hashed is the message of the entries it has listed,
/// and it has counted each file and link that it has listed.
pub proof fn law_walk_hashes_what_it_lists(walk: WalkView, event: WalkEvent)
    requires
        walk.sound(),
    ensures
        walk.after(event).sound(),
{
    let after = walk.after(event);
    match (walk.stage, event) {
        (WalkStageView::Entering(prefix), WalkEvent::Directory(seen)) => {
            if after.stage !is Failed {
                let entered = WalkView {
                    levels: walk.levels.push(
                        LevelView {
                            prefix,
                            dev: seen.identity->Ok_0.dev,
                            names: views(seen.names->Ok_0@),
                            next: 0,
                        },
                    ),
                    ..walk
                };
                assert(walk.hashed =~= content_message(walk.listed));
                assert forall|i: int| 0 <= i < entered.levels.len() - 1 implies 0 <= (
                #[trigger] entered.levels[i]).next < entered.levels[i].names.len() by {
                    assert(entered.levels[i] == walk.levels[i]);
                    if i == walk.levels.len() - 1 {
                        assert(walk.has_name());
                    }
                }
                lemma_go_on(entered, 0);
            }
        },
        (WalkStageView::Sizing(entry), WalkEvent::Size(seen)) => {
            if after.stage !is Failed {
                assert(after.hashed =~= content_message(after.listed) + after.partial());
            }
        },
        (WalkStageView::Reading(entry, size, remaining), WalkEvent::Content(read)) => {
            if after.stage !is Failed {
                assert(after.hashed =~= content_message(after.listed) + after.partial());
            }
        },
        (WalkStageView::Restating(entry, size), WalkEvent::Restat(seen, length)) => {
            if seen is Ok && seen->Ok_0 == entry && length is Ok && length->Ok_0 == size {
                let made = Entry::Regular {
                    path: walk.level().path(),
                    mode: walk.walk.hashed_mode(entry.mode),
                    content: walk.reading,
                };
                lemma_listed(walk.listed, made);
                let listed = WalkView { listed: walk.listed.push(made), ..walk };
                assert(listed.hashed =~= content_message(listed.listed));
                if walk.walk != Walk::Clone {
                    lemma_count(listed);
                } else {
                    assert(after.hashed =~= content_message(after.listed) + after.partial());
                }
            }
        },
        (WalkStageView::RegularSyncing, WalkEvent::Synced(synced)) => {
            assert(walk.hashed =~= content_message(walk.listed));
            lemma_count(walk);
        },
        (WalkStageView::LinkReading, WalkEvent::Target(read)) => {
            if read is Ok && target_failure(read->Ok_0@) is None {
                let made = Entry::Symlink { path: walk.level().path(), target: read->Ok_0@ };
                lemma_listed(walk.listed, made);
                let listed = WalkView {
                    hashed: walk.hashed + walk.chunk(event),
                    listed: walk.listed.push(made),
                    ..walk
                };
                assert(listed.hashed =~= content_message(listed.listed));
                if walk.walk != Walk::Clone {
                    lemma_count(listed);
                } else {
                    assert(after.hashed =~= content_message(after.listed) + after.partial());
                }
            }
        },
        (WalkStageView::LinkSyncing, WalkEvent::Synced(synced)) => {
            assert(walk.hashed =~= content_message(walk.listed));
            lemma_count(walk);
        },
        (WalkStageView::ChildSyncing, WalkEvent::ChildSynced(child, parent)) => {
            assert(walk.hashed =~= content_message(walk.listed));
            lemma_go_on(walk, walk.level().next + 1);
        },
        (WalkStageView::Retaining, WalkEvent::Bound(seen, metadata)) => {
            lemma_leave(walk);
        },
        (WalkStageView::Syncing, WalkEvent::Synced(synced)) => {
            lemma_leave(walk);
        },
        _ => {},
    }
}

proof fn lemma_go_on_asks(walk: WalkView, next: int)
    ensures
        walk.go_on(next).walk == walk.walk,
        !walk.go_on(next).asks().clones(),
        walk.go_on(next).asks().seals() ==> walk.walk == Walk::Seal,
{
}

/// Only a walk that clones asks for what clones, and only one that seals for what seals.
#[verifier::spinoff_prover]
proof fn lemma_after_asks(walk: WalkView, event: WalkEvent)
    requires
        walk.asks().clones() ==> walk.walk == Walk::Clone,
        walk.asks().seals() ==> walk.walk == Walk::Seal,
    ensures
        walk.after(event).walk == walk.walk,
        walk.after(event).asks().clones() ==> walk.walk == Walk::Clone,
        walk.after(event).asks().seals() ==> walk.walk == Walk::Seal,
{
    match walk.stage {
        WalkStageView::Entering(prefix) => {
            if let WalkEvent::Directory(seen) = event {
                let entered = WalkView {
                    levels: walk.levels.push(
                        LevelView {
                            prefix,
                            dev: seen.identity->Ok_0.dev,
                            names: views(seen.names->Ok_0@),
                            next: 0,
                        },
                    ),
                    ..walk
                };
                lemma_go_on_asks(entered, 0);
            }
        },
        WalkStageView::Restating(entry, size) => {
            let made = Entry::Regular {
                path: walk.level().path(),
                mode: walk.walk.hashed_mode(entry.mode),
                content: walk.reading,
            };
            let listed = WalkView {
                listed: walk.listed.push(made),
                entries: (walk.entries + 1) as u64,
                ..walk
            };
            lemma_go_on_asks(listed, listed.level().next + 1);
        },
        WalkStageView::LinkReading => {
            if let WalkEvent::Target(Ok(target)) = event {
                let made = Entry::Symlink { path: walk.level().path(), target: target@ };
                let listed = WalkView {
                    hashed: walk.hashed + walk.chunk(event),
                    listed: walk.listed.push(made),
                    entries: (walk.entries + 1) as u64,
                    ..walk
                };
                lemma_go_on_asks(listed, listed.level().next + 1);
            }
        },
        WalkStageView::RegularSyncing | WalkStageView::LinkSyncing => {
            let counted = WalkView { entries: (walk.entries + 1) as u64, ..walk };
            lemma_go_on_asks(counted, counted.level().next + 1);
        },
        WalkStageView::ChildSyncing => {
            lemma_go_on_asks(walk, walk.level().next + 1);
        },
        WalkStageView::Retaining | WalkStageView::Syncing => {
            let done = WalkView {
                listed: walk.listed.push(Entry::Directory { path: walk.level().prefix }),
                hashed: walk.hashed + directory_message(walk.level().prefix),
                levels: walk.levels.drop_last(),
                ..walk
            };
            lemma_go_on_asks(done, done.level().next + 1);
        },
        _ => {},
    }
}

/// A walk asks for what seals only to seal, and for what clones only to clone. So a walk that verifies
/// asks for nothing that changes the tree or anything beside it.
pub proof fn law_walks_change_only_what_they_are_for(walk: WalkView, event: WalkEvent)
    requires
        walk.keeps_to_its_purpose(),
    ensures
        walk.after(event).keeps_to_its_purpose(),
        walk.after(event).walk == walk.walk,
        walk.walk == Walk::Verify || walk.walk == Walk::Worktree ==> !walk.after(
            event,
        ).asks().changes(),
        forall|uid: u32| (#[trigger] WalkView::starting(walk.walk, uid)).keeps_to_its_purpose(),
{
    lemma_after_asks(walk, event);
}

/// An entry is opened or read only if its name may stand in a tree, and it is the user's own, on the
/// volume of its directory.
pub proof fn law_only_owned_entries_are_opened(walk: WalkView, entry: Identity)
    requires
        walk.stage is Stating,
        walk.after(WalkEvent::Identity(Ok(entry))).stage !is Failed,
    ensures
        entry.uid == walk.uid,
        entry.dev == walk.level().dev,
        entry.kind == DIRECTORY_TYPE || entry.kind == REGULAR_TYPE || entry.kind == SYMLINK_TYPE,
{
}

/// The driver of one walk.
impl TreeWalk {
    #[verifier::type_invariant]
    spec fn is_sound(self) -> bool {
        self.state@.sound()
    }

    /// A walk that has come to the root of a tree of the user `uid`.
    pub fn start(walk: Walk, uid: u32) -> (started: Self)
        ensures
            started@ == WalkView::starting(walk, uid),
            started@.sound(),
    {
        let message = content_hasher();
        proof {
            lemma_start_is_short();
            assert(Seq::<u8>::empty() + content_start() =~= content_start());
            assert(content_message(Seq::empty()) =~= content_start());
            assert(level_views(Seq::<Level>::empty()) =~= Seq::<LevelView>::empty());
            assert(content_start() =~= content_message(Seq::empty()) + Seq::<u8>::empty());
        }
        let state = WalkState {
            walk,
            uid,
            levels: Vec::new(),
            stage: WalkStage::Entering(Vec::new()),
            entries: 0,
            hasher: MessageHasher::new().update(message.as_slice()),
            listed: Ghost(Seq::empty()),
            reading: Ghost(Seq::empty()),
        };
        proof {
            assert(state@ =~= WalkView::starting(walk, uid));
        }
        TreeWalk { state }
    }

    pub fn action(&self) -> (action: WalkAction)
        ensures
            action == self@.asks(),
    {
        match &self.state.stage {
            WalkStage::Entering(_) => WalkAction::SeeDirectory,
            WalkStage::Stating => WalkAction::StatEntry,
            WalkStage::DirectoryOpening(_) => WalkAction::OpenDirectory,
            WalkStage::DestinationMaking => WalkAction::MakeDirectory,
            WalkStage::RegularOpening(_) => WalkAction::OpenRegular,
            WalkStage::Sizing(_) => WalkAction::SizeRegular,
            WalkStage::Reading { remaining, .. } => WalkAction::ReadRegular(
                if *remaining < READ_SIZE {
                    *remaining
                } else {
                    READ_SIZE
                },
            ),
            WalkStage::Restating { .. } => WalkAction::RestatRegular,
            WalkStage::RegularCloning => WalkAction::CloneRegular,
            WalkStage::RegularSyncing => WalkAction::SyncDestination,
            WalkStage::LinkSyncing => WalkAction::SyncDestination,
            WalkStage::LinkInspecting => WalkAction::InspectLink,
            WalkStage::LinkReading => WalkAction::ReadLink,
            WalkStage::LinkCloning(_) => WalkAction::CloneLink,
            WalkStage::ChildSyncing => WalkAction::SyncChild,
            WalkStage::Sealing => WalkAction::SealDirectory,
            WalkStage::Retaining => WalkAction::SeeAgain,
            WalkStage::Syncing => WalkAction::SyncDirectory,
            WalkStage::Finished => WalkAction::Nothing,
            WalkStage::Failed(_) => WalkAction::Nothing,
        }
    }

    /// The name of the entry at hand.
    pub fn name(&self) -> (name: Option<Vec<u8>>)
        ensures
            name is Some == self@.has_name(),
            name is Some ==> name->0@ == self@.level().name(),
    {
        proof {
            use_type_invariant(self);
        }
        match &self.state.stage {
            WalkStage::Sealing => None,
            WalkStage::Retaining => None,
            WalkStage::Syncing => None,
            WalkStage::Finished => None,
            WalkStage::Failed(_) => None,
            WalkStage::Entering(_) => if self.state.levels.len() == 0 {
                None
            } else {
                Some(self.state.current_name())
            },
            _ => Some(self.state.current_name()),
        }
    }

    /// The target with which the link at hand is made anew.
    pub fn link_target(&self) -> (target: Option<Vec<u8>>)
        ensures
            match target {
                Some(target) => self@.stage == WalkStageView::LinkCloning(target@),
                None => self@.stage !is LinkCloning,
            },
    {
        match &self.state.stage {
            WalkStage::LinkCloning(target) => Some(copy_bytes(target.as_slice())),
            _ => None,
        }
    }

    /// Whether the answer leaves the message within the length that can be hashed.
    pub fn fits(&self, event: &WalkEvent) -> (fits: bool)
        ensures
            fits == self@.has_room(*event),
    {
        proof {
            use_type_invariant(self);
        }
        let chunk = self.state.chunk(event);
        let room: u64 = MESSAGE_LIMIT - self.state.hasher.len();
        (chunk.len() as u64) < room
    }

    /// Takes the driver's answer.
    pub fn answer(self, event: WalkEvent) -> (next: Self)
        requires
            self@.has_room(event),
        ensures
            next@ == self@.after(event),
    {
        proof {
            use_type_invariant(&self);
            law_walk_hashes_what_it_lists(self@, event);
        }
        TreeWalk { state: self.state.answer(event) }
    }

    /// How the walk ended, once it has: the digest of what was hashed, and the number of files and
    /// links.
    pub fn finish(self) -> (ended: Option<Result<(String, u64), Error>>)
        ensures
            ended is None <==> !(self@.stage is Finished || self@.stage is Failed),
            ended is Some ==> match ended->0 {
                Ok((digest, entries)) => {
                    &&& self@.stage is Finished
                    &&& digest@ == digest_text(content_message(self@.listed))
                    &&& utf8(digest@).len() == 64
                    &&& all_lower_hex(utf8(digest@))
                    &&& entries == counted_entries(self@.listed)
                },
                Err(error) => self@.stage == WalkStageView::Failed(error@),
            },
    {
        proof {
            use_type_invariant(&self);
        }
        let TreeWalk { state } = self;
        match state.stage {
            WalkStage::Finished => {
                proof {
                    assert(self@.hashed =~= content_message(self@.listed));
                }
                Some(Ok((state.hasher.finish(), state.entries)))
            },
            WalkStage::Failed(error) => Some(Err(error)),
            _ => None,
        }
    }
}

impl WalkView {
    pub open spec fn starting(walk: Walk, uid: u32) -> WalkView {
        WalkView {
            walk,
            uid,
            levels: Seq::empty(),
            stage: WalkStageView::Entering(Seq::empty()),
            entries: 0,
            hashed: content_start(),
            listed: Seq::empty(),
            reading: Seq::empty(),
        }
    }
}

proof fn lemma_start_is_short()
    ensures
        content_start().len() < 64,
{
    reveal_strlit("git-vws/template-content/v1");
    crate::bytes::lemma_utf8_ascii("git-vws/template-content/v1"@);
    crate::notation::lemma_big_endian(utf8("git-vws/template-content/v1"@).len(), 0, 8);
}

impl WalkState {
    fn current_name(&self) -> (name: Vec<u8>)
        requires
            self@.well_placed(),
            self@.has_name(),
        ensures
            name@ == self@.level().name(),
    {
        let level = &self.levels[self.levels.len() - 1];
        proof {
            assert(self@.level() == level@);
            assert(views(level.names@)[level.next as int] == level.names@[level.next as int]@);
        }
        copy_bytes(level.names[level.next].as_slice())
    }

    fn current_path(&self) -> (path: Vec<u8>)
        requires
            self@.well_placed(),
            self@.has_name(),
        ensures
            path@ == self@.level().path(),
    {
        let name = self.current_name();
        let level = &self.levels[self.levels.len() - 1];
        proof {
            assert(self@.level() == level@);
        }
        join_path(level.prefix.as_slice(), name.as_slice())
    }

    fn chunk(&self, event: &WalkEvent) -> (chunk: Vec<u8>)
        requires
            self@.sound(),
        ensures
            chunk@ == self@.chunk(*event),
    {
        match (&self.stage, event) {
            (WalkStage::Sizing(entry), WalkEvent::Size(Ok(size))) => hash_regular(
                self.current_path().as_slice(),
                self.walk.mode(entry.mode),
                *size,
            ),
            (WalkStage::Reading { remaining, .. }, WalkEvent::Content(Ok(bytes))) => if (
            bytes.len() as u64) <= *remaining {
                copy_bytes(bytes.as_slice())
            } else {
                Vec::new()
            },
            (WalkStage::LinkReading, WalkEvent::Target(Ok(target))) => match read_link_at(
                target.as_slice(),
            ) {
                Ok(_) => hash_symlink(target.as_slice(), self.current_path().as_slice()),
                Err(_) => Vec::new(),
            },
            (WalkStage::Retaining, _) => {
                let level = &self.levels[self.levels.len() - 1];
                assert(self@.level() == level@);
                hash_directory(level.prefix.as_slice())
            },
            (WalkStage::Syncing, _) => {
                let level = &self.levels[self.levels.len() - 1];
                assert(self@.level() == level@);
                hash_directory(level.prefix.as_slice())
            },
            _ => Vec::new(),
        }
    }

    fn fail(self, error: Error) -> (next: Self)
        ensures
            next@ == self@.fail(error@),
    {
        WalkState { stage: WalkStage::Failed(error), ..self }
    }

    fn refuse(self, detail: &str) -> (next: Self)
        ensures
            next@ == self@.fail(unsupported(detail@)),
    {
        self.fail(Error::new("STORAGE_UNSUPPORTED", detail))
    }

    fn system(self, context: &str, words: String) -> (next: Self)
        ensures
            next@ == self@.system(context@, words),
    {
        self.fail(Error::io("STORAGE_UNSUPPORTED", context, words.as_str()))
    }

    fn at(self, stage: WalkStage) -> (next: Self)
        ensures
            next@ == self@.at(stage@),
    {
        WalkState { stage, ..self }
    }

    fn go_on(self, next: usize) -> (moved: Self)
        requires
            self.levels@.len() > 0,
            next <= self.levels@.last().names@.len(),
        ensures
            moved@ == self@.go_on(next as int),
    {
        let mut state = self;
        let mut place: usize = next;
        let ghost level = self.levels@.last();
        proof {
            assert(self@.level() == level@);
        }
        match state.levels.pop() {
            None => state,
            Some(level) => {
                let mut level = level;
                if state.walk == Walk::Worktree && level.prefix.len() == 0 {
                    while place < level.names.len() && same_bytes(
                        level.names[place].as_slice(),
                        ".git".as_bytes(),
                    )
                        invariant
                            next <= place <= level.names@.len(),
                            past_git(views(level.names@), place as int) == past_git(
                                views(level.names@),
                                next as int,
                            ),
                        decreases level.names@.len() - place,
                    {
                        place += 1;
                    }
                }
                level.next = place;
                let ghost moved_level = level@;
                let stage = if place >= level.names.len() {
                    if state.walk == Walk::Seal {
                        WalkStage::Sealing
                    } else {
                        WalkStage::Retaining
                    }
                } else {
                    let name = &level.names[place];
                    proof {
                        assert(views(level.names@)[place as int] == name@);
                    }
                    match validate_basename(name.as_slice()) {
                        Err(error) => WalkStage::Failed(error),
                        Ok(_) => match cstring(name.as_slice()) {
                            Err(error) => WalkStage::Failed(error),
                            Ok(_) => WalkStage::Stating,
                        },
                    }
                };
                state.levels.push(level);
                state.stage = stage;
                proof {
                    assert(level_views(state.levels@) =~= level_views(self.levels@).drop_last().push(
                        moved_level,
                    ));
                    assert(state@ =~= self@.go_on(next as int));
                }
                state
            },
        }
    }

    fn next_name(self) -> (moved: Self)
        requires
            self.levels@.len() > 0,
            self.levels@.last().next < self.levels@.last().names@.len(),
        ensures
            moved@ == self@.next_name(),
    {
        let level = &self.levels[self.levels.len() - 1];
        let count: usize = level.names.len();
        proof {
            assert(self@.level() == self.levels@.last()@);
            assert(level.next < count);
        }
        let next: usize = level.next + 1;
        self.go_on(next)
    }

    fn count(self) -> (counted: Self)
        requires
            self.levels@.len() > 0,
            self.levels@.last().next < self.levels@.last().names@.len(),
        ensures
            counted@ == self@.count(),
    {
        if self.entries == u64::MAX {
            return self.refuse("sealed-tree entry count overflow");
        }
        let mut state = self;
        state.entries = state.entries + 1;
        proof {
            assert(state@ =~= WalkView { entries: (self@.entries + 1) as u64, ..self@ });
        }
        state.next_name()
    }

    fn leave(self) -> (left: Self)
        requires
            self@.sound(),
            self@.stage is Retaining || self@.stage is Syncing,
            self@.hashed.len() + directory_message(self@.level().prefix).len() < MESSAGE_LIMIT,
        ensures
            left@ == self@.leave(),
    {
        let ghost before = self@;
        let WalkState { walk, uid, levels, stage, entries, hasher, listed, reading } = self;
        let mut levels = levels;
        match levels.pop() {
            None => WalkState { walk, uid, levels, stage, entries, hasher, listed, reading },
            Some(level) => {
                proof {
                    assert(before.level() == level@);
                }
                let message = hash_directory(level.prefix.as_slice());
                let state = WalkState {
                    walk,
                    uid,
                    levels,
                    stage,
                    entries,
                    hasher: hasher.update(message.as_slice()),
                    listed: Ghost(listed@.push(Entry::Directory { path: level.prefix@ })),
                    reading,
                };
                let ghost done = WalkView {
                    listed: before.listed.push(Entry::Directory { path: before.level().prefix }),
                    hashed: before.hashed + directory_message(before.level().prefix),
                    levels: before.levels.drop_last(),
                    ..before
                };
                proof {
                    assert(level_views(levels@) =~= before.levels.drop_last());
                    assert(state@ =~= done);
                }
                if state.levels.len() == 0 {
                    state.at(WalkStage::Finished)
                } else if state.walk == Walk::Clone {
                    state.at(WalkStage::ChildSyncing)
                } else {
                    proof {
                        let n = state.levels@.len() - 1;
                        assert(before.levels[n] == state.levels@[n]@);
                    }
                    state.next_name()
                }
            },
        }
    }

    fn stated(self, entry: Identity) -> (next: Self)
        requires
            self@.well_placed(),
            self@.has_name(),
        ensures
            next@ == self@.stated(entry),
    {
        let dev: u64 = self.levels[self.levels.len() - 1].dev;
        proof {
            assert(self@.level() == self.levels@.last()@);
        }
        if entry.uid != self.uid || entry.dev != dev {
            self.refuse("sealed-tree entry changed ownership or volume")
        } else if entry.kind == DIRECTORY_TYPE {
            if self.walk.accepts_directory(entry, self.uid) {
                self.at(WalkStage::DirectoryOpening(entry))
            } else {
                self.refuse("sealed-tree child directory is invalid")
            }
        } else if entry.kind == REGULAR_TYPE {
            if self.walk.accepts_regular(entry, self.uid) {
                self.at(WalkStage::RegularOpening(entry))
            } else {
                self.refuse("sealed-tree regular file is invalid")
            }
        } else if entry.kind == SYMLINK_TYPE {
            if entry.nlink == 1 {
                self.at(WalkStage::LinkInspecting)
            } else {
                self.refuse("sealed-tree symbolic link has unsupported metadata")
            }
        } else {
            self.refuse("sealed tree contains a special file")
        }
    }

    fn read_on(self, entry: Identity, size: u64, remaining: u64) -> (next: Self)
        ensures
            next@ == self@.read_on(entry, size, remaining),
    {
        if remaining == 0 {
            self.at(WalkStage::Restating { entry, size })
        } else {
            self.at(WalkStage::Reading { entry, size, remaining })
        }
    }

    fn enter(self, prefix: Vec<u8>, seen: DirectorySeen) -> (next: Self)
        requires
            self@.sound(),
            self@.stage == WalkStageView::Entering(prefix@),
        ensures
            next@ == self@.after(WalkEvent::Directory(seen)),
    {
        match check_directory(self.walk, self.uid, prefix.len() == 0, &seen) {
            Err(error) => self.fail(error),
            Ok(_) => match (seen.identity, seen.names) {
                (Ok(identity), Ok(names)) => {
                    let mut state = self;
                    let level = Level { prefix, dev: identity.dev, names, next: 0 };
                    let ghost entered = level@;
                    state.levels.push(level);
                    proof {
                        assert(level_views(state.levels@) =~= level_views(self.levels@).push(
                            entered,
                        ));
                        assert(state@ =~= WalkView { levels: self@.levels.push(entered), ..self@ });
                    }
                    state.go_on(0)
                },
                _ => self,
            },
        }
    }

    fn size(self, entry: Identity, seen: Result<u64, String>) -> (next: Self)
        requires
            self@.sound(),
            self@.stage == WalkStageView::Sizing(entry),
            self@.has_room(WalkEvent::Size(seen)),
        ensures
            next@ == self@.after(WalkEvent::Size(seen)),
    {
        match seen {
            Err(words) => self.system("cannot stat sealed regular file", words),
            Ok(size) => {
                let path = self.current_path();
                let message = hash_regular(path.as_slice(), self.walk.mode(entry.mode), size);
                let ghost before = self@;
                let WalkState { walk, uid, levels, stage, entries, hasher, listed, reading } = self;
                let state = WalkState {
                    walk,
                    uid,
                    levels,
                    stage,
                    entries,
                    hasher: hasher.update(message.as_slice()),
                    listed,
                    reading: Ghost(Seq::empty()),
                };
                proof {
                    assert(state@ =~= WalkView {
                        hashed: before.hashed + before.chunk(WalkEvent::Size(seen)),
                        reading: Seq::empty(),
                        ..before
                    });
                }
                state.read_on(entry, size, size)
            },
        }
    }

    fn content(self, entry: Identity, size: u64, remaining: u64, read: Result<Vec<u8>, String>) -> (next:
        Self)
        requires
            self@.sound(),
            self@.stage == WalkStageView::Reading(entry, size, remaining),
            self@.has_room(WalkEvent::Content(read)),
        ensures
            next@ == self@.after(WalkEvent::Content(read)),
    {
        match read {
            Err(words) => self.system("cannot read sealed regular file", words),
            Ok(bytes) => {
                if bytes.len() == 0 {
                    return self.refuse("sealed regular file was truncated");
                }
                let count: u64 = bytes.len() as u64;
                if count > remaining {
                    return self.refuse("sealed regular file changed while hashing");
                }
                let ghost before = self@;
                let WalkState { walk, uid, levels, stage, entries, hasher, listed, reading } = self;
                let state = WalkState {
                    walk,
                    uid,
                    levels,
                    stage,
                    entries,
                    hasher: hasher.update(bytes.as_slice()),
                    listed,
                    reading: Ghost(reading@ + bytes@),
                };
                proof {
                    assert(state@ =~= WalkView {
                        hashed: before.hashed + before.chunk(WalkEvent::Content(read)),
                        reading: before.reading + bytes@,
                        ..before
                    });
                }
                state.read_on(entry, size, remaining - count)
            },
        }
    }

    fn restat(
        self,
        entry: Identity,
        size: u64,
        seen: Result<Identity, Error>,
        length: Result<u64, String>,
    ) -> (next: Self)
        requires
            self@.sound(),
            self@.stage == WalkStageView::Restating(entry, size),
        ensures
            next@ == self@.after(WalkEvent::Restat(seen, length)),
    {
        match seen {
            Err(error) => self.fail(error),
            Ok(current) => {
                if current != entry {
                    return self.refuse("sealed regular file changed while hashing");
                }
                match length {
                    Err(words) => self.system("cannot restat sealed regular file", words),
                    Ok(length) => {
                        if length != size {
                            return self.refuse("sealed regular file changed while hashing");
                        }
                        let ghost made = Entry::Regular {
                            path: self@.level().path(),
                            mode: self@.walk.hashed_mode(entry.mode),
                            content: self@.reading,
                        };
                        let mut state = self;
                        state.listed = Ghost(state.listed@.push(made));
                        proof {
                            assert(state@ =~= WalkView { listed: self@.listed.push(made), ..self@ });
                            assert(self@.level() == self.levels@.last()@);
                        }
                        if state.walk == Walk::Clone {
                            state.at(WalkStage::RegularCloning)
                        } else {
                            state.count()
                        }
                    },
                }
            },
        }
    }

    fn target(self, read: Result<Vec<u8>, Error>) -> (next: Self)
        requires
            self@.sound(),
            self@.stage is LinkReading,
            self@.has_room(WalkEvent::Target(read)),
        ensures
            next@ == self@.after(WalkEvent::Target(read)),
    {
        match read {
            Err(error) => self.fail(error),
            Ok(target) => {
                match read_link_at(target.as_slice()) {
                    Err(error) => {
                        return self.fail(error);
                    },
                    Ok(_) => {},
                }
                let path = self.current_path();
                let message = hash_symlink(target.as_slice(), path.as_slice());
                let ghost before = self@;
                let ghost made = Entry::Symlink { path: path@, target: target@ };
                let WalkState { walk, uid, levels, stage, entries, hasher, listed, reading } = self;
                let state = WalkState {
                    walk,
                    uid,
                    levels,
                    stage,
                    entries,
                    hasher: hasher.update(message.as_slice()),
                    listed: Ghost(listed@.push(made)),
                    reading,
                };
                proof {
                    assert(state@ =~= WalkView {
                        hashed: before.hashed + before.chunk(WalkEvent::Target(read)),
                        listed: before.listed.push(made),
                        ..before
                    });
                    assert(before.level() == state.levels@.last()@);
                }
                if state.walk == Walk::Clone {
                    state.at(WalkStage::LinkCloning(target))
                } else {
                    state.count()
                }
            },
        }
    }

    fn retained(self, seen: Result<Identity, Error>, metadata: Result<bool, Error>) -> (next: Self)
        requires
            self@.sound(),
            self@.stage is Retaining,
            self@.has_room(WalkEvent::Bound(seen, metadata)),
        ensures
            next@ == self@.after(WalkEvent::Bound(seen, metadata)),
    {
        match seen {
            Err(error) => self.fail(error),
            Ok(current) => match check_binding(
                self.walk.accepts_left_directory(current, self.uid),
                &metadata,
                "sealed-tree directory was not retained as immutable",
            ) {
                Err(error) => self.fail(error),
                Ok(_) => if self.walk == Walk::Seal {
                    self.at(WalkStage::Syncing)
                } else {
                    self.leave()
                },
            },
        }
    }

    /// Answers about an entry that is opened or made.
    fn identified(self, seen: Result<Identity, Error>) -> (next: Self)
        requires
            self@.sound(),
        ensures
            next@ == self@.after(WalkEvent::Identity(seen)),
    {
        let found: Identity = match seen {
            Err(error) => {
                return match &self.stage {
                    WalkStage::Stating => self.fail(error),
                    WalkStage::DirectoryOpening(_) => self.fail(error),
                    WalkStage::DestinationMaking => self.fail(error),
                    _ => self,
                };
            },
            Ok(found) => found,
        };
        match &self.stage {
            WalkStage::Stating => self.stated(found),
            WalkStage::DirectoryOpening(entry) => {
                if !stable_directory_node(found, *entry) {
                    self.refuse("sealed-tree directory changed while opening")
                } else if self.walk == Walk::Clone {
                    self.at(WalkStage::DestinationMaking)
                } else {
                    let path = self.current_path();
                    self.at(WalkStage::Entering(path))
                }
            },
            WalkStage::DestinationMaking => {
                if worktree_directory(found, self.uid) {
                    let path = self.current_path();
                    self.at(WalkStage::Entering(path))
                } else {
                    self.refuse("native COW destination directory is invalid")
                }
            },
            _ => self,
        }
    }

    fn synced(self, synced: Result<(), String>) -> (next: Self)
        requires
            self@.sound(),
            self@.has_room(WalkEvent::Synced(synced)),
        ensures
            next@ == self@.after(WalkEvent::Synced(synced)),
    {
        proof {
            if self@.has_level() {
                assert(self@.level() == self.levels@.last()@);
            }
        }
        match (&self.stage, synced) {
            (WalkStage::RegularSyncing, Err(words)) => self.system(
                "cannot sync native COW file parent",
                words,
            ),
            (WalkStage::RegularSyncing, Ok(_)) => self.count(),
            (WalkStage::LinkSyncing, Err(words)) => self.system(
                "cannot sync native COW symbolic-link parent",
                words,
            ),
            (WalkStage::LinkSyncing, Ok(_)) => self.count(),
            (WalkStage::Syncing, Err(words)) => self.system(
                "cannot sync sealed-tree directory",
                words,
            ),
            (WalkStage::Syncing, Ok(_)) => self.leave(),
            _ => self,
        }
    }

    fn done(self, done: Result<(), Error>) -> (next: Self)
        ensures
            next@ == self@.after(WalkEvent::Done(done)),
    {
        match (&self.stage, done) {
            (WalkStage::RegularCloning, Err(error)) => self.fail(error),
            (WalkStage::RegularCloning, Ok(_)) => self.at(WalkStage::RegularSyncing),
            (WalkStage::Sealing, Err(error)) => self.fail(error),
            (WalkStage::Sealing, Ok(_)) => self.at(WalkStage::Retaining),
            _ => self,
        }
    }

    #[verifier::spinoff_prover]
    fn answer(self, event: WalkEvent) -> (next: Self)
        requires
            self@.sound(),
            self@.has_room(event),
        ensures
            next@ == self@.after(event),
    {
        match event {
            WalkEvent::Identity(seen) => self.identified(seen),
            WalkEvent::Synced(synced) => self.synced(synced),
            WalkEvent::Done(done) => self.done(done),
            WalkEvent::Directory(seen) => match &self.stage {
                WalkStage::Entering(prefix) => {
                    let prefix = copy_bytes(prefix.as_slice());
                    self.enter(prefix, seen)
                },
                _ => self,
            },
            WalkEvent::Bound(seen, metadata) => match &self.stage {
                WalkStage::RegularOpening(entry) => {
                    let entry: Identity = *entry;
                    match seen {
                        Err(error) => self.fail(error),
                        Ok(opened) => match check_binding(
                            opened == entry,
                            &metadata,
                            "sealed-tree regular file binding or metadata changed",
                        ) {
                            Err(error) => self.fail(error),
                            Ok(_) => self.at(WalkStage::Sizing(entry)),
                        },
                    }
                },
                WalkStage::Retaining => self.retained(seen, metadata),
                _ => self,
            },
            WalkEvent::Size(seen) => match &self.stage {
                WalkStage::Sizing(entry) => {
                    let entry: Identity = *entry;
                    self.size(entry, seen)
                },
                _ => self,
            },
            WalkEvent::Content(read) => match &self.stage {
                WalkStage::Reading { entry, size, remaining } => {
                    let entry: Identity = *entry;
                    let size: u64 = *size;
                    let remaining: u64 = *remaining;
                    self.content(entry, size, remaining, read)
                },
                _ => self,
            },
            WalkEvent::Restat(seen, length) => match &self.stage {
                WalkStage::Restating { entry, size } => {
                    let entry: Identity = *entry;
                    let size: u64 = *size;
                    self.restat(entry, size, seen, length)
                },
                _ => self,
            },
            WalkEvent::Metadata(metadata) => match &self.stage {
                WalkStage::LinkInspecting => match metadata {
                    Err(error) => self.fail(error),
                    Ok(present) => if present {
                        self.refuse("sealed-tree symbolic link has unsupported metadata")
                    } else {
                        self.at(WalkStage::LinkReading)
                    },
                },
                _ => self,
            },
            WalkEvent::Target(read) => match &self.stage {
                WalkStage::LinkReading => self.target(read),
                _ => self,
            },
            WalkEvent::Link(cloned) => match &self.stage {
                WalkStage::LinkCloning(target) => match check_cloned_link(
                    &cloned,
                    target.as_slice(),
                ) {
                    Err(error) => self.fail(error),
                    Ok(_) => self.at(WalkStage::LinkSyncing),
                },
                _ => self,
            },
            WalkEvent::ChildSynced(child, parent) => match &self.stage {
                WalkStage::ChildSyncing => {
                    proof {
                        assert(self@.level() == self.levels@.last()@);
                    }
                    match (child, parent) {
                        (Err(words), _) => self.system(
                            "cannot sync nested native COW destination",
                            words,
                        ),
                        (_, Err(words)) => self.system(
                            "cannot sync nested native COW destination parent",
                            words,
                        ),
                        (Ok(_), Ok(_)) => self.next_name(),
                    }
                },
                _ => self,
            },
        }
    }
}

impl WalkAction {
    pub open spec fn clones(self) -> bool {
        match self {
            WalkAction::MakeDirectory
            | WalkAction::CloneRegular
            | WalkAction::CloneLink
            | WalkAction::SyncDestination
            | WalkAction::SyncChild => true,
            _ => false,
        }
    }

    pub open spec fn seals(self) -> bool {
        match self {
            WalkAction::SealDirectory | WalkAction::SyncDirectory => true,
            _ => false,
        }
    }

    pub open spec fn changes(self) -> bool {
        self.clones() || self.seals()
    }
}

} // verus!
