//! Removing a tree of the user: every entry is looked at again before it goes, and nothing
//! that is not the user's own, on the tree's own volume, is touched.

use crate::authority::{Error, Failure, Identity, DIRECTORY_TYPE, REGULAR_TYPE, SYMLINK_TYPE};
use crate::bytes::{copy_bytes, views};
use crate::storage::{
    cstring, is_owned_tree, is_private_directory, is_stable_directory, owned_tree_binding,
    private_directory, stable_directory_node, storage_io,
};
use crate::template::{is_cleanup_mode, tombstone_cleanup_mode};
use crate::walk::unsupported;
use vstd::prelude::*;

verus! {

/// What kind of tree is removed.
#[derive(Clone, Copy, Debug, PartialEq, Eq, Structural)]
pub enum Tree {
    /// A private one.
    Private,
    /// A sealed one, whose directories are made private as they are entered.
    Sealed,
}

impl Tree {
    /// The directory is still the same. The mode of a sealed one changes while it is removed.
    pub open spec fn keeps(self, current: Identity, expected: Identity) -> bool {
        match self {
            Tree::Private => is_stable_directory(current, expected),
            Tree::Sealed => is_owned_tree(current, expected),
        }
    }

    /// The root as it may be found.
    pub open spec fn takes(self, current: Identity, expected: Identity, uid: u32) -> bool {
        match self {
            Tree::Private => is_stable_directory(current, expected) && is_private_directory(
                expected,
                uid,
            ),
            Tree::Sealed => is_owned_tree(current, expected) && is_cleanup_mode(current, uid),
        }
    }

    fn bound(self, current: Identity, expected: Identity) -> (same: bool)
        ensures
            same == self.keeps(current, expected),
    {
        match self {
            Tree::Private => stable_directory_node(current, expected),
            Tree::Sealed => owned_tree_binding(current, expected),
        }
    }

    fn accepts(self, current: Identity, expected: Identity, uid: u32) -> (accepts: bool)
        ensures
            accepts == self.takes(current, expected, uid),
    {
        match self {
            Tree::Private => stable_directory_node(current, expected) && private_directory(
                expected,
                uid,
            ),
            Tree::Sealed => owned_tree_binding(current, expected) && tombstone_cleanup_mode(
                current,
                uid,
            ),
        }
    }
}

/// A directory whose entries are being removed.
#[derive(Debug)]
pub struct RemovalLevel {
    pub names: Vec<Vec<u8>>,
    pub next: usize,
    /// The child directory that is being emptied.
    pub child: Option<Identity>,
}

#[verifier::ext_equal]
pub struct RemovalLevelView {
    pub names: Seq<Seq<u8>>,
    pub next: int,
    pub child: Option<Identity>,
}

impl View for RemovalLevel {
    type V = RemovalLevelView;

    open spec fn view(&self) -> RemovalLevelView {
        RemovalLevelView {
            names: views(self.names@),
            next: self.next as int,
            child: self.child,
        }
    }
}

pub open spec fn removal_levels(levels: Seq<RemovalLevel>) -> Seq<RemovalLevelView> {
    Seq::new(levels.len(), |i: int| levels[i]@)
}

#[derive(Debug)]
pub enum RemovalStage {
    /// Looking at the tree's name.
    RootSeeing,
    RootOpening,
    /// Looking at the directory that was opened last.
    Entering,
    /// Making the directory that was entered last private.
    Unsealing,
    EntrySeeing,
    ChildOpening(Identity),
    EntrySeeingAgain(Identity),
    EntryUnlinking,
    DirectorySyncing,
    ChildSeeingAgain(Identity),
    ChildRemoving,
    RootSeeingAgain,
    RootRemoving,
    ParentSyncing,
    Removed,
    Failed(Error),
}

#[verifier::ext_equal]
pub enum RemovalStageView {
    RootSeeing,
    RootOpening,
    Entering,
    Unsealing,
    EntrySeeing,
    ChildOpening(Identity),
    EntrySeeingAgain(Identity),
    EntryUnlinking,
    DirectorySyncing,
    ChildSeeingAgain(Identity),
    ChildRemoving,
    RootSeeingAgain,
    RootRemoving,
    ParentSyncing,
    Removed,
    Failed(Failure),
}

impl View for RemovalStage {
    type V = RemovalStageView;

    open spec fn view(&self) -> RemovalStageView {
        match self {
            RemovalStage::RootSeeing => RemovalStageView::RootSeeing,
            RemovalStage::RootOpening => RemovalStageView::RootOpening,
            RemovalStage::Entering => RemovalStageView::Entering,
            RemovalStage::Unsealing => RemovalStageView::Unsealing,
            RemovalStage::EntrySeeing => RemovalStageView::EntrySeeing,
            RemovalStage::ChildOpening(entry) => RemovalStageView::ChildOpening(*entry),
            RemovalStage::EntrySeeingAgain(entry) => RemovalStageView::EntrySeeingAgain(*entry),
            RemovalStage::EntryUnlinking => RemovalStageView::EntryUnlinking,
            RemovalStage::DirectorySyncing => RemovalStageView::DirectorySyncing,
            RemovalStage::ChildSeeingAgain(entry) => RemovalStageView::ChildSeeingAgain(*entry),
            RemovalStage::ChildRemoving => RemovalStageView::ChildRemoving,
            RemovalStage::RootSeeingAgain => RemovalStageView::RootSeeingAgain,
            RemovalStage::RootRemoving => RemovalStageView::RootRemoving,
            RemovalStage::ParentSyncing => RemovalStageView::ParentSyncing,
            RemovalStage::Removed => RemovalStageView::Removed,
            RemovalStage::Failed(error) => RemovalStageView::Failed(error@),
        }
    }
}

/// What the driver is asked to do. An entry is the one that `TreeRemoval::name` names, in the
/// directory that was entered last.
#[derive(Clone, Copy, Debug, PartialEq, Eq, Structural)]
pub enum RemovalAction {
    StatRoot,
    OpenRoot,
    /// Look at the directory that was opened last, and read its names.
    EnterDirectory,
    /// Give the directory at hand the mode of a private one.
    UnsealDirectory,
    StatEntry,
    OpenChild,
    UnlinkEntry,
    /// Sync the directory at hand, and leave it.
    SyncDirectory,
    RemoveChild,
    RemoveRoot,
    SyncParent,
    Nothing,
}

#[derive(Debug)]
pub enum RemovalEvent {
    Identity(Result<Identity, Error>),
    Directory(Result<Identity, Error>, Result<Vec<Vec<u8>>, Error>),
    Done(Result<(), String>),
}

/// Removing a tree.
#[derive(Debug)]
pub struct TreeRemoval {
    tree: Tree,
    expected: Identity,
    uid: u32,
    levels: Vec<RemovalLevel>,
    stage: RemovalStage,
}

#[verifier::ext_equal]
pub struct RemovalView {
    pub tree: Tree,
    /// The root of the tree.
    pub expected: Identity,
    pub uid: u32,
    pub levels: Seq<RemovalLevelView>,
    pub stage: RemovalStageView,
}

impl View for TreeRemoval {
    type V = RemovalView;

    closed spec fn view(&self) -> RemovalView {
        RemovalView {
            tree: self.tree,
            expected: self.expected,
            uid: self.uid,
            levels: removal_levels(self.levels@),
            stage: self.stage@,
        }
    }
}

pub open spec fn recovery(detail: Seq<char>) -> Failure {
    ("STORAGE_RECOVERY_REQUIRED"@, detail)
}

impl RemovalView {
    pub open spec fn starting(tree: Tree, expected: Identity, uid: u32) -> RemovalView {
        RemovalView {
            tree,
            expected,
            uid,
            levels: Seq::empty(),
            stage: RemovalStageView::RootSeeing,
        }
    }

    pub open spec fn level(self) -> RemovalLevelView {
        self.levels.last()
    }

    pub open spec fn at(self, stage: RemovalStageView) -> RemovalView {
        RemovalView { stage, ..self }
    }

    pub open spec fn fail(self, failed: Failure) -> RemovalView {
        self.at(RemovalStageView::Failed(failed))
    }

    pub open spec fn with_level(self, level: RemovalLevelView) -> RemovalView {
        RemovalView { levels: self.levels.drop_last().push(level), ..self }
    }

    /// Goes on with the name at `next`, or finishes the directory.
    pub open spec fn go_on(self, next: int) -> RemovalView {
        let moved = self.with_level(RemovalLevelView { next, child: None, ..self.level() });
        if next >= self.level().names.len() {
            moved.at(RemovalStageView::DirectorySyncing)
        } else if self.level().names[next].contains(0) {
            moved.fail(unsupported("pathname contains NUL"@))
        } else {
            moved.at(RemovalStageView::EntrySeeing)
        }
    }

    pub open spec fn owns(self, identity: Identity) -> bool {
        identity.uid == self.uid && identity.dev == self.expected.dev
    }

    pub open spec fn seen(self, entry: Identity) -> RemovalView {
        if !self.owns(entry) {
            self.fail(recovery("owned tree entry drifted during cleanup"@))
        } else if entry.kind == DIRECTORY_TYPE {
            self.at(RemovalStageView::ChildOpening(entry))
        } else if entry.kind == REGULAR_TYPE || entry.kind == SYMLINK_TYPE {
            self.at(RemovalStageView::EntrySeeingAgain(entry))
        } else {
            self.fail(recovery("owned tree contains a special entry during cleanup"@))
        }
    }

    /// The directory at hand is empty and synced.
    pub open spec fn left(self) -> RemovalView {
        let up = RemovalView { levels: self.levels.drop_last(), ..self };
        if up.levels.len() == 0 {
            up.at(RemovalStageView::RootSeeingAgain)
        } else {
            match up.level().child {
                Some(entry) => up.at(RemovalStageView::ChildSeeingAgain(entry)),
                None => up,
            }
        }
    }

    /// Removal after the driver's answer. An answer to another question changes nothing.
    pub open spec fn after(self, event: RemovalEvent) -> RemovalView {
        match (self.stage, event) {
            (RemovalStageView::RootSeeing, RemovalEvent::Identity(seen)) => match seen {
                Err(error) => self.fail(error@),
                Ok(entry) => if self.tree.takes(entry, self.expected, self.uid) {
                    self.at(RemovalStageView::RootOpening)
                } else {
                    self.fail(recovery("owned tree binding changed before cleanup"@))
                },
            },
            (RemovalStageView::RootOpening, RemovalEvent::Identity(seen)) => match seen {
                Err(error) => self.fail(error@),
                Ok(root) => if self.tree.keeps(root, self.expected) {
                    self.at(RemovalStageView::Entering)
                } else {
                    self.fail(recovery("owned tree descriptor changed before cleanup"@))
                },
            },
            (RemovalStageView::Entering, RemovalEvent::Directory(seen, names)) => match seen {
                Err(error) => self.fail(error@),
                Ok(directory) => if !(directory.is_directory() && self.owns(directory)) {
                    self.fail(recovery("owned tree directory drifted during cleanup"@))
                } else {
                    match names {
                        Err(error) => self.fail(error@),
                        Ok(names) => {
                            let entered = RemovalView {
                                levels: self.levels.push(
                                    RemovalLevelView { names: views(names@), next: 0, child: None },
                                ),
                                ..self
                            };
                            match self.tree {
                                Tree::Private => entered.go_on(0),
                                Tree::Sealed => entered.at(RemovalStageView::Unsealing),
                            }
                        },
                    }
                },
            },
            (RemovalStageView::Unsealing, RemovalEvent::Done(done)) => match done {
                Err(words) => self.fail(
                    unsupported("cannot set native COW file mode"@ + ": "@ + words@),
                ),
                Ok(_) => self.go_on(0),
            },
            (RemovalStageView::EntrySeeing, RemovalEvent::Identity(seen)) => match seen {
                Err(error) => self.fail(error@),
                Ok(entry) => self.seen(entry),
            },
            (RemovalStageView::ChildOpening(entry), RemovalEvent::Identity(seen)) => match seen {
                Err(error) => self.fail(error@),
                Ok(child) => if self.tree.keeps(child, entry) {
                    self.with_level(
                        RemovalLevelView { child: Some(entry), ..self.level() },
                    ).at(RemovalStageView::Entering)
                } else {
                    self.fail(recovery("owned tree child binding changed before cleanup"@))
                },
            },
            (
                RemovalStageView::EntrySeeingAgain(entry),
                RemovalEvent::Identity(seen),
            ) => match seen {
                Err(error) => self.fail(error@),
                Ok(current) => if current == entry {
                    self.at(RemovalStageView::EntryUnlinking)
                } else {
                    self.fail(recovery("owned tree entry binding changed before cleanup"@))
                },
            },
            (RemovalStageView::EntryUnlinking, RemovalEvent::Done(done)) => match done {
                Err(words) => self.fail(
                    unsupported("cannot remove owned tree entry"@ + ": "@ + words@),
                ),
                Ok(_) => self.go_on(self.level().next + 1),
            },
            (RemovalStageView::DirectorySyncing, RemovalEvent::Done(done)) => match done {
                Err(words) => self.fail(
                    recovery("cannot sync owned tree directory cleanup"@ + ": "@ + words@),
                ),
                Ok(_) => self.left(),
            },
            (
                RemovalStageView::ChildSeeingAgain(entry),
                RemovalEvent::Identity(seen),
            ) => match seen {
                Err(error) => self.fail(error@),
                Ok(current) => if self.tree.keeps(current, entry) {
                    self.at(RemovalStageView::ChildRemoving)
                } else {
                    self.fail(recovery("owned tree child binding changed during cleanup"@))
                },
            },
            (RemovalStageView::ChildRemoving, RemovalEvent::Done(done)) => match done {
                Err(words) => self.fail(
                    unsupported("cannot remove owned tree directory"@ + ": "@ + words@),
                ),
                Ok(_) => self.go_on(self.level().next + 1),
            },
            (RemovalStageView::RootSeeingAgain, RemovalEvent::Identity(seen)) => match seen {
                Err(error) => self.fail(error@),
                Ok(entry) => if self.tree.keeps(entry, self.expected) {
                    self.at(RemovalStageView::RootRemoving)
                } else {
                    self.fail(recovery("owned tree binding changed during cleanup"@))
                },
            },
            (RemovalStageView::RootRemoving, RemovalEvent::Done(done)) => match done {
                Err(words) => self.fail(
                    unsupported("cannot remove owned tree root"@ + ": "@ + words@),
                ),
                Ok(_) => self.at(RemovalStageView::ParentSyncing),
            },
            (RemovalStageView::ParentSyncing, RemovalEvent::Done(done)) => match done {
                Err(words) => self.fail(
                    recovery("cannot sync owned tree cleanup parent"@ + ": "@ + words@),
                ),
                Ok(_) => self.at(RemovalStageView::Removed),
            },
            _ => self,
        }
    }

    pub open spec fn asks(self) -> RemovalAction {
        match self.stage {
            RemovalStageView::RootSeeing | RemovalStageView::RootSeeingAgain => {
                RemovalAction::StatRoot
            },
            RemovalStageView::RootOpening => RemovalAction::OpenRoot,
            RemovalStageView::Entering => RemovalAction::EnterDirectory,
            RemovalStageView::Unsealing => RemovalAction::UnsealDirectory,
            RemovalStageView::EntrySeeing
            | RemovalStageView::EntrySeeingAgain(_)
            | RemovalStageView::ChildSeeingAgain(_) => RemovalAction::StatEntry,
            RemovalStageView::ChildOpening(_) => RemovalAction::OpenChild,
            RemovalStageView::EntryUnlinking => RemovalAction::UnlinkEntry,
            RemovalStageView::DirectorySyncing => RemovalAction::SyncDirectory,
            RemovalStageView::ChildRemoving => RemovalAction::RemoveChild,
            RemovalStageView::RootRemoving => RemovalAction::RemoveRoot,
            RemovalStageView::ParentSyncing => RemovalAction::SyncParent,
            RemovalStageView::Removed | RemovalStageView::Failed(_) => RemovalAction::Nothing,
        }
    }

    /// An entry of the directory at hand is meant.
    pub open spec fn has_name(self) -> bool {
        self.stage is EntrySeeing || self.stage is EntrySeeingAgain || self.stage
            is ChildSeeingAgain || self.stage is ChildOpening || self.stage is EntryUnlinking
            || self.stage is ChildRemoving
    }

    /// What holds of every removal, whatever the driver answers: each directory on the way down stands
    /// at the name of its child, which is the user's own on the tree's volume.
    pub open spec fn sound(self) -> bool {
        self.stage is Failed || {
            &&& self.has_name() || self.stage is DirectorySyncing || self.stage is Unsealing
                ==> self.levels.len() > 0
            &&& self.stage is RootSeeing || self.stage is RootOpening ==> self.levels.len() == 0
            &&& self.has_name() ==> 0 <= self.level().next < self.level().names.len()
            &&& forall|i: int|
                0 <= i < self.levels.len() - 1 ==> 0 <= (#[trigger] self.levels[i]).next
                    < self.levels[i].names.len() && self.levels[i].child is Some && self.owns(
                    self.levels[i].child->0,
                )
            &&& self.stage is Entering && self.levels.len() > 0 ==> 0 <= self.level().next
                < self.level().names.len() && self.level().child is Some && self.owns(
                self.level().child->0,
            )
            &&& match self.stage {
                RemovalStageView::ChildOpening(entry)
                | RemovalStageView::EntrySeeingAgain(entry)
                | RemovalStageView::ChildSeeingAgain(entry) => self.owns(entry),
                _ => true,
            }
        }
    }
}

/// Whatever the driver answers, a removal stays among the entries of its own tree.
pub proof fn law_removal_stays_in_its_tree(removal: RemovalView, event: RemovalEvent)
    requires
        removal.sound(),
    ensures
        removal.after(event).sound(),
        removal.after(event).expected == removal.expected,
        removal.after(event).uid == removal.uid,
{
    let after = removal.after(event);
    assert forall|i: int| 0 <= i < after.levels.len() - 1 && after.stage !is Failed implies 0 <= (
    #[trigger] after.levels[i]).next < after.levels[i].names.len() && after.levels[i].child is Some
        && after.owns(after.levels[i].child->0) by {
        assert(after.levels[i] == removal.levels[i]);
    }
    if removal.stage is DirectorySyncing && after.stage is ChildSeeingAgain {
        let n = removal.levels.len() - 2;
        assert(removal.levels[n] == after.level());
    }
}

/// A file or link is unlinked only if it is the user's own, on the tree's volume, and has not changed
/// since it was first seen.
pub proof fn law_removal_unlinks_only_what_was_seen(removal: RemovalView, event: RemovalEvent)
    requires
        removal.sound(),
        removal.stage !is EntryUnlinking,
        removal.after(event).stage is EntryUnlinking,
    ensures
        removal.stage matches RemovalStageView::EntrySeeingAgain(entry) && (event
            matches RemovalEvent::Identity(Ok(current)) && current == entry && current.uid
            == removal.uid && current.dev == removal.expected.dev),
{
}

/// The root goes only while it is still the directory that was to be removed.
pub proof fn law_removal_takes_only_its_root(removal: RemovalView, event: RemovalEvent)
    requires
        removal.stage !is RootRemoving,
        removal.after(event).stage is RootRemoving,
    ensures
        removal.stage is RootSeeingAgain,
        event matches RemovalEvent::Identity(Ok(current)) && removal.tree.keeps(
            current,
            removal.expected,
        ),
{
}

impl TreeRemoval {
    #[verifier::type_invariant]
    spec fn is_sound(self) -> bool {
        self@.sound()
    }

    /// Removing the tree whose root is `expected`; `uid` is the user who runs the program.
    pub fn start(tree: Tree, expected: Identity, uid: u32) -> (removal: Self)
        ensures
            removal@ == RemovalView::starting(tree, expected, uid),
    {
        let levels: Vec<RemovalLevel> = Vec::new();
        proof {
            assert(removal_levels(levels@) =~= Seq::<RemovalLevelView>::empty());
        }
        TreeRemoval { tree, expected, uid, levels, stage: RemovalStage::RootSeeing }
    }

    pub fn action(&self) -> (action: RemovalAction)
        ensures
            action == self@.asks(),
    {
        match &self.stage {
            RemovalStage::RootSeeing => RemovalAction::StatRoot,
            RemovalStage::RootSeeingAgain => RemovalAction::StatRoot,
            RemovalStage::RootOpening => RemovalAction::OpenRoot,
            RemovalStage::Entering => RemovalAction::EnterDirectory,
            RemovalStage::Unsealing => RemovalAction::UnsealDirectory,
            RemovalStage::EntrySeeing => RemovalAction::StatEntry,
            RemovalStage::EntrySeeingAgain(_) => RemovalAction::StatEntry,
            RemovalStage::ChildSeeingAgain(_) => RemovalAction::StatEntry,
            RemovalStage::ChildOpening(_) => RemovalAction::OpenChild,
            RemovalStage::EntryUnlinking => RemovalAction::UnlinkEntry,
            RemovalStage::DirectorySyncing => RemovalAction::SyncDirectory,
            RemovalStage::ChildRemoving => RemovalAction::RemoveChild,
            RemovalStage::RootRemoving => RemovalAction::RemoveRoot,
            RemovalStage::ParentSyncing => RemovalAction::SyncParent,
            RemovalStage::Removed => RemovalAction::Nothing,
            RemovalStage::Failed(_) => RemovalAction::Nothing,
        }
    }

    /// The name of the entry at hand.
    pub fn name(&self) -> (name: Option<Vec<u8>>)
        ensures
            name is Some == self@.has_name(),
            name is Some ==> name->0@ == self@.level().names[self@.level().next],
    {
        proof {
            use_type_invariant(self);
        }
        let named: bool = match &self.stage {
            RemovalStage::EntrySeeing => true,
            RemovalStage::EntrySeeingAgain(_) => true,
            RemovalStage::ChildSeeingAgain(_) => true,
            RemovalStage::ChildOpening(_) => true,
            RemovalStage::EntryUnlinking => true,
            RemovalStage::ChildRemoving => true,
            _ => false,
        };
        if !named {
            return None;
        }
        let level = &self.levels[self.levels.len() - 1];
        proof {
            assert(self@.level() == level@);
            assert(views(level.names@)[level.next as int] == level.names@[level.next as int]@);
        }
        Some(copy_bytes(level.names[level.next].as_slice()))
    }

    /// How removal ended, once it has.
    pub fn outcome(self) -> (ended: Option<Result<(), Error>>)
        ensures
            match ended {
                None => !(self@.stage is Removed || self@.stage is Failed),
                Some(Ok(_)) => self@.stage is Removed,
                Some(Err(error)) => self@.stage == RemovalStageView::Failed(error@),
            },
    {
        match self.stage {
            RemovalStage::Removed => Some(Ok(())),
            RemovalStage::Failed(error) => Some(Err(error)),
            _ => None,
        }
    }

    /// Takes the driver's answer.
    pub fn answer(self, event: RemovalEvent) -> (next: Self)
        ensures
            next@ == self@.after(event),
    {
        proof {
            use_type_invariant(&self);
            law_removal_stays_in_its_tree(self@, event);
        }
        let ghost before = self@;
        let TreeRemoval { tree, expected, uid, levels, stage } = self;
        let state = RemovalState { tree, expected, uid, levels, stage };
        proof {
            assert(state@ == before);
        }
        let RemovalState { tree, expected, uid, levels, stage } = state.answer(event);
        TreeRemoval { tree, expected, uid, levels, stage }
    }
}

/// What removal has come to.
struct RemovalState {
    tree: Tree,
    expected: Identity,
    uid: u32,
    levels: Vec<RemovalLevel>,
    stage: RemovalStage,
}

impl View for RemovalState {
    type V = RemovalView;

    closed spec fn view(&self) -> RemovalView {
        RemovalView {
            tree: self.tree,
            expected: self.expected,
            uid: self.uid,
            levels: removal_levels(self.levels@),
            stage: self.stage@,
        }
    }
}

impl RemovalState {
    fn at(self, stage: RemovalStage) -> (next: Self)
        ensures
            next@ == self@.at(stage@),
    {
        RemovalState { stage, ..self }
    }

    fn fail(self, error: Error) -> (next: Self)
        ensures
            next@ == self@.fail(error@),
    {
        self.at(RemovalStage::Failed(error))
    }

    fn recover(self, detail: &str) -> (next: Self)
        ensures
            next@ == self@.fail(recovery(detail@)),
    {
        self.fail(Error::new("STORAGE_RECOVERY_REQUIRED", detail))
    }

    fn owned(&self, identity: Identity) -> (owns: bool)
        ensures
            owns == self@.owns(identity),
    {
        identity.uid == self.uid && identity.dev == self.expected.dev
    }

    fn go_on(self, next: usize) -> (moved: Self)
        requires
            self.levels@.len() > 0,
            next <= self.levels@.last().names@.len(),
        ensures
            moved@ == self@.go_on(next as int),
    {
        let mut state = self;
        proof {
            assert(self@.level() == self.levels@.last()@);
        }
        match state.levels.pop() {
            None => state,
            Some(level) => {
                let mut level = level;
                level.next = next;
                level.child = None;
                let stage = if next >= level.names.len() {
                    RemovalStage::DirectorySyncing
                } else {
                    let name = &level.names[next];
                    proof {
                        assert(views(level.names@)[next as int] == name@);
                    }
                    match cstring(name.as_slice()) {
                        Err(error) => RemovalStage::Failed(error),
                        Ok(_) => RemovalStage::EntrySeeing,
                    }
                };
                let ghost moved_level = level@;
                state.levels.push(level);
                state.stage = stage;
                proof {
                    assert(removal_levels(state.levels@) =~= removal_levels(
                        self.levels@,
                    ).drop_last().push(moved_level));
                }
                state
            },
        }
    }

    fn next_name(self) -> (moved: Self)
        requires
            self.levels@.len() > 0,
            self.levels@.last().next < self.levels@.last().names@.len(),
        ensures
            moved@ == self@.go_on(self@.level().next + 1),
    {
        let level = &self.levels[self.levels.len() - 1];
        let count: usize = level.names.len();
        proof {
            assert(self@.level() == self.levels@.last()@);
            assert(level.next < count);
        }
        let next: usize = level.next + 1;
        self.go_on(next)
    }

    fn descend(self, entry: Identity) -> (next: Self)
        requires
            self.levels@.len() > 0,
        ensures
            next@ == self@.with_level(
                RemovalLevelView { child: Some(entry), ..self@.level() },
            ).at(RemovalStageView::Entering),
    {
        let mut state = self;
        proof {
            assert(self@.level() == self.levels@.last()@);
        }
        match state.levels.pop() {
            None => state,
            Some(level) => {
                let mut level = level;
                level.child = Some(entry);
                let ghost moved_level = level@;
                state.levels.push(level);
                state.stage = RemovalStage::Entering;
                proof {
                    assert(removal_levels(state.levels@) =~= removal_levels(
                        self.levels@,
                    ).drop_last().push(moved_level));
                }
                state
            },
        }
    }

    fn entered(self, seen: Result<Identity, Error>, names: Result<Vec<Vec<u8>>, Error>) -> (next:
        Self)
        requires
            self@.stage is Entering,
        ensures
            next@ == self@.after(RemovalEvent::Directory(seen, names)),
    {
        match seen {
            Err(error) => self.fail(error),
            Ok(directory) => if !directory.directory() || !self.owned(directory) {
                self.recover("owned tree directory drifted during cleanup")
            } else {
                match names {
                    Err(error) => self.fail(error),
                    Ok(names) => {
                        let mut state = self;
                        let level = RemovalLevel { names, next: 0, child: None };
                        let ghost entered = level@;
                        state.levels.push(level);
                        proof {
                            assert(removal_levels(state.levels@) =~= removal_levels(
                                self.levels@,
                            ).push(entered));
                        }
                        match state.tree {
                            Tree::Private => state.go_on(0),
                            Tree::Sealed => state.at(RemovalStage::Unsealing),
                        }
                    },
                }
            },
        }
    }

    fn left(self) -> (next: Self)
        requires
            self.levels@.len() > 0,
        ensures
            next@ == self@.left(),
    {
        let mut state = self;
        let _ = state.levels.pop();
        proof {
            assert(removal_levels(state.levels@) =~= removal_levels(self.levels@).drop_last());
        }
        if state.levels.len() == 0 {
            state.at(RemovalStage::RootSeeingAgain)
        } else {
            let child = state.levels[state.levels.len() - 1].child;
            proof {
                assert(state@.level() == state.levels@.last()@);
            }
            match child {
                Some(entry) => state.at(RemovalStage::ChildSeeingAgain(entry)),
                None => state,
            }
        }
    }

    fn identified(self, seen: Result<Identity, Error>) -> (next: Self)
        requires
            self@.sound(),
        ensures
            next@ == self@.after(RemovalEvent::Identity(seen)),
    {
        let waits: bool = match &self.stage {
            RemovalStage::Entering => false,
            RemovalStage::Unsealing => false,
            RemovalStage::EntryUnlinking => false,
            RemovalStage::DirectorySyncing => false,
            RemovalStage::ChildRemoving => false,
            RemovalStage::RootRemoving => false,
            RemovalStage::ParentSyncing => false,
            RemovalStage::Removed => false,
            RemovalStage::Failed(_) => false,
            _ => true,
        };
        if !waits {
            return self;
        }
        let found: Identity = match seen {
            Err(error) => {
                return self.fail(error);
            },
            Ok(found) => found,
        };
        match &self.stage {
            RemovalStage::RootSeeing => if self.tree.accepts(found, self.expected, self.uid) {
                self.at(RemovalStage::RootOpening)
            } else {
                self.recover("owned tree binding changed before cleanup")
            },
            RemovalStage::RootOpening => if self.tree.bound(found, self.expected) {
                self.at(RemovalStage::Entering)
            } else {
                self.recover("owned tree descriptor changed before cleanup")
            },
            RemovalStage::EntrySeeing => if !self.owned(found) {
                self.recover("owned tree entry drifted during cleanup")
            } else if found.kind == DIRECTORY_TYPE {
                self.at(RemovalStage::ChildOpening(found))
            } else if found.kind == REGULAR_TYPE || found.kind == SYMLINK_TYPE {
                self.at(RemovalStage::EntrySeeingAgain(found))
            } else {
                self.recover("owned tree contains a special entry during cleanup")
            },
            RemovalStage::ChildOpening(entry) => {
                let entry: Identity = *entry;
                if self.tree.bound(found, entry) {
                    self.descend(entry)
                } else {
                    self.recover("owned tree child binding changed before cleanup")
                }
            },
            RemovalStage::EntrySeeingAgain(entry) => if found == *entry {
                self.at(RemovalStage::EntryUnlinking)
            } else {
                self.recover("owned tree entry binding changed before cleanup")
            },
            RemovalStage::ChildSeeingAgain(entry) => if self.tree.bound(found, *entry) {
                self.at(RemovalStage::ChildRemoving)
            } else {
                self.recover("owned tree child binding changed during cleanup")
            },
            RemovalStage::RootSeeingAgain => if self.tree.bound(found, self.expected) {
                self.at(RemovalStage::RootRemoving)
            } else {
                self.recover("owned tree binding changed during cleanup")
            },
            _ => self,
        }
    }

    fn done(self, done: Result<(), String>) -> (next: Self)
        requires
            self@.sound(),
        ensures
            next@ == self@.after(RemovalEvent::Done(done)),
    {
        proof {
            if self@.levels.len() > 0 {
                assert(self@.level() == self.levels@.last()@);
            }
        }
        match (&self.stage, done) {
            (RemovalStage::Unsealing, Ok(_)) => self.go_on(0),
            (RemovalStage::Unsealing, Err(words)) => self.fail(
                storage_io("cannot set native COW file mode", words.as_str()),
            ),
            (RemovalStage::EntryUnlinking, Ok(_)) => self.next_name(),
            (RemovalStage::EntryUnlinking, Err(words)) => self.fail(
                storage_io("cannot remove owned tree entry", words.as_str()),
            ),
            (RemovalStage::DirectorySyncing, Ok(_)) => self.left(),
            (RemovalStage::DirectorySyncing, Err(words)) => self.fail(
                Error::io(
                    "STORAGE_RECOVERY_REQUIRED",
                    "cannot sync owned tree directory cleanup",
                    words.as_str(),
                ),
            ),
            (RemovalStage::ChildRemoving, Ok(_)) => self.next_name(),
            (RemovalStage::ChildRemoving, Err(words)) => self.fail(
                storage_io("cannot remove owned tree directory", words.as_str()),
            ),
            (RemovalStage::RootRemoving, Ok(_)) => self.at(RemovalStage::ParentSyncing),
            (RemovalStage::RootRemoving, Err(words)) => self.fail(
                storage_io("cannot remove owned tree root", words.as_str()),
            ),
            (RemovalStage::ParentSyncing, Ok(_)) => self.at(RemovalStage::Removed),
            (RemovalStage::ParentSyncing, Err(words)) => self.fail(
                Error::io(
                    "STORAGE_RECOVERY_REQUIRED",
                    "cannot sync owned tree cleanup parent",
                    words.as_str(),
                ),
            ),
            _ => self,
        }
    }

    fn answer(self, event: RemovalEvent) -> (next: Self)
        requires
            self@.sound(),
        ensures
            next@ == self@.after(event),
    {
        match event {
            RemovalEvent::Identity(seen) => self.identified(seen),
            RemovalEvent::Done(done) => self.done(done),
            RemovalEvent::Directory(seen, names) => match &self.stage {
                RemovalStage::Entering => self.entered(seen, names),
                _ => self,
            },
        }
    }
}

} // verus!
