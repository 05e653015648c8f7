//! Writing a tree through to the disk: every file, and every directory behind all that it holds.

use crate::authority::{Error, Failure, Identity, DIRECTORY_TYPE, REGULAR_TYPE, SYMLINK_TYPE};
use crate::bytes::{copy_bytes, views};
use crate::record_txn::basename_failure;
use crate::session::cstring;
use vstd::prelude::*;

verus! {

/// A directory whose entries are being written through.
#[derive(Debug)]
pub struct SyncLevel {
    pub names: Vec<Vec<u8>>,
    pub next: usize,
}

#[verifier::ext_equal]
pub struct SyncLevelView {
    pub names: Seq<Seq<u8>>,
    pub next: int,
}

impl View for SyncLevel {
    type V = SyncLevelView;

    open spec fn view(&self) -> SyncLevelView {
        SyncLevelView { names: views(self.names@), next: self.next as int }
    }
}

pub open spec fn sync_levels(levels: Seq<SyncLevel>) -> Seq<SyncLevelView> {
    Seq::new(levels.len(), |i: int| levels[i]@)
}

#[derive(Debug)]
pub enum SyncStage {
    Listing,
    Seeing,
    OpeningDirectory(Identity),
    OpeningFile(Identity),
    SyncingFile,
    SyncingDirectory,
    Synced,
    Failed(Error),
}

#[verifier::ext_equal]
pub enum SyncStageView {
    Listing,
    Seeing,
    OpeningDirectory(Identity),
    OpeningFile(Identity),
    SyncingFile,
    SyncingDirectory,
    Synced,
    Failed(Failure),
}

impl View for SyncStage {
    type V = SyncStageView;

    open spec fn view(&self) -> SyncStageView {
        match self {
            SyncStage::Listing => SyncStageView::Listing,
            SyncStage::Seeing => SyncStageView::Seeing,
            SyncStage::OpeningDirectory(entry) => SyncStageView::OpeningDirectory(*entry),
            SyncStage::OpeningFile(entry) => SyncStageView::OpeningFile(*entry),
            SyncStage::SyncingFile => SyncStageView::SyncingFile,
            SyncStage::SyncingDirectory => SyncStageView::SyncingDirectory,
            SyncStage::Synced => SyncStageView::Synced,
            SyncStage::Failed(error) => SyncStageView::Failed(error@),
        }
    }
}

/// The writing through of a tree whose root is open.
#[derive(Debug)]
pub struct TreeSync {
    pub levels: Vec<SyncLevel>,
    pub stage: SyncStage,
}

#[verifier::ext_equal]
pub struct TreeSyncView {
    pub levels: Seq<SyncLevelView>,
    pub stage: SyncStageView,
}

impl View for TreeSync {
    type V = TreeSyncView;

    open spec fn view(&self) -> TreeSyncView {
        TreeSyncView { levels: sync_levels(self.levels@), stage: self.stage@ }
    }
}

#[derive(Clone, Copy, Debug, PartialEq, Eq, Structural)]
pub enum SyncAction {
    /// List the directory that was opened last.
    List,
    /// Look at the next name in it.
    Stat,
    OpenDirectory,
    OpenFile,
    /// Write the file that was opened last through, and close it.
    SyncFile,
    /// Write the directory that was opened last through, and close it.
    SyncDirectory,
    Nothing,
}

#[derive(Debug)]
pub enum SyncEvent {
    Names(Result<Vec<Vec<u8>>, Error>),
    Identity(Result<Identity, Error>),
    /// The directory was opened and looked at.
    Opened(Result<Identity, Error>),
    /// The file was opened, in the system's words where it could not be, and looked at.
    FileOpened(Result<Result<Identity, Error>, String>),
    Synced(Result<(), String>),
}

pub open spec fn not_synced(detail: Seq<char>) -> Failure {
    ("SESSION_IO_FAILED"@, detail)
}

impl TreeSyncView {
    pub open spec fn at(self, stage: SyncStageView) -> TreeSyncView {
        TreeSyncView { stage, ..self }
    }

    pub open spec fn failed(self, error: Failure) -> TreeSyncView {
        self.at(SyncStageView::Failed(error))
    }

    /// The name that is next, in the directory that was opened last.
    pub open spec fn name(self) -> Option<Seq<u8>> {
        if self.levels.len() == 0 {
            None
        } else {
            let level = self.levels.last();
            if 0 <= level.next < level.names.len() {
                Some(level.names[level.next])
            } else {
                None
            }
        }
    }

    /// Goes on with the next name, or with the directory itself behind its last.
    pub open spec fn go_on(self) -> TreeSyncView {
        match self.name() {
            None => if self.levels.len() == 0 {
                self.at(SyncStageView::Synced)
            } else {
                self.at(SyncStageView::SyncingDirectory)
            },
            Some(name) => match basename_failure(
                name,
                "private Git metadata"@,
                "SESSION_CORRUPT"@,
            ) {
                Some(error) => self.failed(error),
                None => self.at(SyncStageView::Seeing),
            },
        }
    }

    /// The name is done with.
    pub open spec fn advance(self) -> TreeSyncView {
        if self.levels.len() == 0 {
            self.go_on()
        } else {
            let level = self.levels.last();
            TreeSyncView {
                levels: self.levels.drop_last().push(
                    SyncLevelView {
                        next: if level.next < level.names.len() {
                            level.next + 1
                        } else {
                            level.next
                        },
                        ..level
                    },
                ),
                ..self
            }.go_on()
        }
    }

    pub open spec fn leave(self) -> TreeSyncView {
        if self.levels.len() == 0 {
            self.at(SyncStageView::Synced)
        } else {
            TreeSyncView { levels: self.levels.drop_last(), ..self }.advance()
        }
    }

    pub open spec fn seen(self, entry: Identity) -> TreeSyncView {
        if entry.kind == DIRECTORY_TYPE {
            self.at(SyncStageView::OpeningDirectory(entry))
        } else if entry.kind == REGULAR_TYPE {
            self.at(SyncStageView::OpeningFile(entry))
        } else if entry.kind == SYMLINK_TYPE {
            self.advance()
        } else {
            self.failed(not_synced("private Git metadata is special"@))
        }
    }

    /// The writing through after the driver's answer. An answer to another question changes nothing.
    pub open spec fn after(self, event: SyncEvent) -> TreeSyncView {
        match (self.stage, event) {
            (SyncStageView::Listing, SyncEvent::Names(names)) => match names {
                Err(error) => self.failed(error@),
                Ok(names) => TreeSyncView {
                    levels: self.levels.push(SyncLevelView { names: views(names@), next: 0 }),
                    ..self
                }.go_on(),
            },
            (SyncStageView::Seeing, SyncEvent::Identity(seen)) => match seen {
                Err(error) => self.failed(error@),
                Ok(entry) => self.seen(entry),
            },
            (SyncStageView::OpeningDirectory(entry), SyncEvent::Opened(opened)) => match opened {
                Err(error) => self.failed(error@),
                Ok(child) => if child == entry {
                    self.at(SyncStageView::Listing)
                } else {
                    self.failed(not_synced("private directory binding changed"@))
                },
            },
            (SyncStageView::OpeningFile(entry), SyncEvent::FileOpened(opened)) => match opened {
                Err(words) => self.failed(
                    not_synced("cannot open private Git metadata"@ + ": "@ + words@),
                ),
                Ok(Err(error)) => self.failed(error@),
                Ok(Ok(file)) => if file == entry {
                    self.at(SyncStageView::SyncingFile)
                } else {
                    self.failed(not_synced("private metadata binding changed"@))
                },
            },
            (SyncStageView::SyncingFile, SyncEvent::Synced(synced)) => match synced {
                Err(words) => self.failed(
                    not_synced("cannot sync private Git metadata"@ + ": "@ + words@),
                ),
                Ok(_) => self.advance(),
            },
            (SyncStageView::SyncingDirectory, SyncEvent::Synced(synced)) => match synced {
                Err(words) => self.failed(
                    not_synced("cannot sync private Git directory"@ + ": "@ + words@),
                ),
                Ok(_) => self.leave(),
            },
            _ => self,
        }
    }

    pub open spec fn asks(self) -> SyncAction {
        match self.stage {
            SyncStageView::Listing => SyncAction::List,
            SyncStageView::Seeing => SyncAction::Stat,
            SyncStageView::OpeningDirectory(_) => SyncAction::OpenDirectory,
            SyncStageView::OpeningFile(_) => SyncAction::OpenFile,
            SyncStageView::SyncingFile => SyncAction::SyncFile,
            SyncStageView::SyncingDirectory => SyncAction::SyncDirectory,
            SyncStageView::Synced => SyncAction::Nothing,
            SyncStageView::Failed(_) => SyncAction::Nothing,
        }
    }
}

impl TreeSync {
    pub fn start() -> (sync: Self)
        ensures
            sync@ == (TreeSyncView { levels: Seq::empty(), stage: SyncStageView::Listing }),
    {
        let sync = TreeSync { levels: Vec::new(), stage: SyncStage::Listing };
        proof {
            assert(sync@.levels =~= Seq::<SyncLevelView>::empty());
        }
        sync
    }

    fn at(self, stage: SyncStage) -> (next: Self)
        ensures
            next@ == self@.at(stage@),
    {
        TreeSync { stage, ..self }
    }

    fn failed(self, error: Error) -> (next: Self)
        ensures
            next@ == self@.failed(error@),
    {
        TreeSync { stage: SyncStage::Failed(error), ..self }
    }

    /// The name that is next, in the directory that was opened last.
    pub fn name(&self) -> (name: Option<Vec<u8>>)
        ensures
            match name {
                Some(name) => self@.name() == Some(name@),
                None => self@.name() is None,
            },
    {
        let depth: usize = self.levels.len();
        if depth == 0 {
            return None;
        }
        proof {
            assert(self@.levels.last() == self.levels@[depth - 1]@);
        }
        let level = &self.levels[depth - 1];
        if level.next < level.names.len() {
            proof {
                assert(views(level.names@)[level.next as int] == level.names@[level.next as int]@);
            }
            Some(copy_bytes(level.names[level.next].as_slice()))
        } else {
            None
        }
    }

    fn go_on(self) -> (next: Self)
        ensures
            next@ == self@.go_on(),
    {
        match self.name() {
            None => if self.levels.len() == 0 {
                self.at(SyncStage::Synced)
            } else {
                self.at(SyncStage::SyncingDirectory)
            },
            Some(name) => match cstring(name.as_slice(), "private Git metadata") {
                Err(error) => self.failed(error),
                Ok(_) => self.at(SyncStage::Seeing),
            },
        }
    }

    fn enter(self, names: Vec<Vec<u8>>) -> (next: Self)
        ensures
            next@ == (TreeSyncView {
                levels: self@.levels.push(SyncLevelView { names: views(names@), next: 0 }),
                ..self@
            }).go_on(),
    {
        let ghost before = self@.levels;
        let TreeSync { levels, stage } = self;
        let mut levels = levels;
        levels.push(SyncLevel { names, next: 0 });
        proof {
            assert(sync_levels(levels@) =~= before.push(
                SyncLevelView { names: views(names@), next: 0 },
            ));
        }
        (TreeSync { levels, stage }).go_on()
    }

    fn advance(self) -> (next: Self)
        ensures
            next@ == self@.advance(),
    {
        let ghost before = self@.levels;
        let TreeSync { levels, stage } = self;
        let mut levels = levels;
        match levels.pop() {
            None => {
                proof {
                    assert(sync_levels(levels@) =~= before);
                }
                (TreeSync { levels, stage }).go_on()
            },
            Some(level) => {
                proof {
                    assert(before.last() == level@);
                    assert(sync_levels(levels@) =~= before.drop_last());
                }
                let SyncLevel { names, next } = level;
                let next: usize = if next < names.len() {
                    next + 1
                } else {
                    next
                };
                let ghost shorter = sync_levels(levels@);
                levels.push(SyncLevel { names, next });
                proof {
                    assert(sync_levels(levels@) =~= shorter.push(
                        SyncLevelView { names: views(names@), next: next as int },
                    ));
                }
                (TreeSync { levels, stage }).go_on()
            },
        }
    }

    fn leave(self) -> (next: Self)
        ensures
            next@ == self@.leave(),
    {
        let ghost before = self@.levels;
        let TreeSync { levels, stage } = self;
        let mut levels = levels;
        match levels.pop() {
            None => {
                proof {
                    assert(sync_levels(levels@) =~= before);
                }
                TreeSync { levels, stage: SyncStage::Synced }
            },
            Some(_) => {
                proof {
                    assert(sync_levels(levels@) =~= before.drop_last());
                }
                (TreeSync { levels, stage }).advance()
            },
        }
    }

    fn seen(self, entry: Identity) -> (next: Self)
        ensures
            next@ == self@.seen(entry),
    {
        if entry.kind == DIRECTORY_TYPE {
            self.at(SyncStage::OpeningDirectory(entry))
        } else if entry.kind == REGULAR_TYPE {
            self.at(SyncStage::OpeningFile(entry))
        } else if entry.kind == SYMLINK_TYPE {
            self.advance()
        } else {
            self.failed(Error::new("SESSION_IO_FAILED", "private Git metadata is special"))
        }
    }

    /// Takes the driver's answer to the question that the writing through asks.
    pub fn sync_tree(self, event: SyncEvent) -> (next: Self)
        ensures
            next@ == self@.after(event),
    {
        match (&self.stage, event) {
            (SyncStage::Listing, SyncEvent::Names(names)) => match names {
                Err(error) => self.failed(error),
                Ok(names) => self.enter(names),
            },
            (SyncStage::Seeing, SyncEvent::Identity(seen)) => match seen {
                Err(error) => self.failed(error),
                Ok(entry) => self.seen(entry),
            },
            (SyncStage::OpeningDirectory(entry), SyncEvent::Opened(opened)) => match opened {
                Err(error) => self.failed(error),
                Ok(child) => if child == *entry {
                    self.at(SyncStage::Listing)
                } else {
                    self.failed(Error::new("SESSION_IO_FAILED", "private directory binding changed"))
                },
            },
            (SyncStage::OpeningFile(entry), SyncEvent::FileOpened(opened)) => match opened {
                Err(words) => self.failed(
                    Error::io(
                        "SESSION_IO_FAILED",
                        "cannot open private Git metadata",
                        words.as_str(),
                    ),
                ),
                Ok(Err(error)) => self.failed(error),
                Ok(Ok(file)) => if file == *entry {
                    self.at(SyncStage::SyncingFile)
                } else {
                    self.failed(Error::new("SESSION_IO_FAILED", "private metadata binding changed"))
                },
            },
            (SyncStage::SyncingFile, SyncEvent::Synced(synced)) => match synced {
                Err(words) => self.failed(
                    Error::io(
                        "SESSION_IO_FAILED",
                        "cannot sync private Git metadata",
                        words.as_str(),
                    ),
                ),
                Ok(_) => self.advance(),
            },
            (SyncStage::SyncingDirectory, SyncEvent::Synced(synced)) => match synced {
                Err(words) => self.failed(
                    Error::io(
                        "SESSION_IO_FAILED",
                        "cannot sync private Git directory",
                        words.as_str(),
                    ),
                ),
                Ok(_) => self.leave(),
            },
            _ => self,
        }
    }

    /// What is to be done next.
    pub fn action(&self) -> (action: SyncAction)
        ensures
            action == self@.asks(),
    {
        match &self.stage {
            SyncStage::Listing => SyncAction::List,
            SyncStage::Seeing => SyncAction::Stat,
            SyncStage::OpeningDirectory(_) => SyncAction::OpenDirectory,
            SyncStage::OpeningFile(_) => SyncAction::OpenFile,
            SyncStage::SyncingFile => SyncAction::SyncFile,
            SyncStage::SyncingDirectory => SyncAction::SyncDirectory,
            SyncStage::Synced => SyncAction::Nothing,
            SyncStage::Failed(_) => SyncAction::Nothing,
        }
    }

    /// What became of the writing through, once nothing more is asked for.
    pub fn outcome(&self) -> (outcome: Option<Result<(), Error>>)
        ensures
            match self@.stage {
                SyncStageView::Synced => outcome == Some(Ok::<(), Error>(())),
                SyncStageView::Failed(failed) => outcome matches Some(Err(error)) && error@ == failed,
                _ => outcome is None,
            },
    {
        match &self.stage {
            SyncStage::Synced => Some(Ok(())),
            SyncStage::Failed(error) => Some(Err(error.copy())),
            _ => None,
        }
    }
}

impl TreeSyncView {
    /// A name is only looked at while there is one, and a directory is only written through behind all
    /// of its names.
    pub open spec fn is_sound(self) -> bool {
        &&& forall|i: int|
            0 <= i < self.levels.len() ==> 0 <= (#[trigger] self.levels[i]).next
                <= self.levels[i].names.len()
        &&& (self.stage is Seeing || self.stage is OpeningDirectory || self.stage is OpeningFile
            || self.stage is SyncingFile) ==> self.name() is Some
        &&& self.stage is SyncingDirectory ==> self.levels.len() > 0 && self.levels.last().next
            == self.levels.last().names.len()
        &&& self.stage is Synced ==> self.levels.len() == 0
        &&& self.stage is Listing && self.levels.len() > 0 ==> self.name() is Some
        &&& forall|i: int|
            0 <= i < self.levels.len() - 1 ==> (#[trigger] self.levels[i]).next
                < self.levels[i].names.len()
    }
}

proof fn lemma_go_on_is_sound(sync: TreeSyncView)
    requires
        forall|i: int|
            0 <= i < sync.levels.len() ==> 0 <= (#[trigger] sync.levels[i]).next
                <= sync.levels[i].names.len(),
        forall|i: int|
            0 <= i < sync.levels.len() - 1 ==> (#[trigger] sync.levels[i]).next
                < sync.levels[i].names.len(),
    ensures
        sync.go_on().is_sound(),
{
}

/// A tree that is written through begins sound and stays sound: each directory is written through
/// behind every name in it, and the tree is done only when its root is.
pub proof fn law_directories_follow_their_entries(sync: TreeSyncView, event: SyncEvent)
    requires
        sync.is_sound(),
    ensures
        sync.after(event).is_sound(),
        (TreeSyncView { levels: Seq::empty(), stage: SyncStageView::Listing }).is_sound(),
{
    match (sync.stage, event) {
        (SyncStageView::Listing, SyncEvent::Names(names)) => {
            if names is Ok {
                let next = TreeSyncView {
                    levels: sync.levels.push(
                        SyncLevelView { names: views(names->Ok_0@), next: 0 },
                    ),
                    ..sync
                };
                assert forall|i: int| 0 <= i < next.levels.len() - 1 implies (
                #[trigger] next.levels[i]).next < next.levels[i].names.len() by {
                    assert(next.levels[i] == sync.levels[i]);
                }
                lemma_go_on_is_sound(next);
            }
        },
        (SyncStageView::Seeing, SyncEvent::Identity(_)) => {
            lemma_advance_is_sound(sync);
        },
        (SyncStageView::SyncingFile, SyncEvent::Synced(_)) => {
            lemma_advance_is_sound(sync);
        },
        (SyncStageView::SyncingDirectory, SyncEvent::Synced(synced)) => {
            if synced is Ok {
                let upper = TreeSyncView { levels: sync.levels.drop_last(), ..sync };
                if upper.levels.len() > 0 {
                    assert(upper.levels.last() == sync.levels[sync.levels.len() - 2]);
                }
                lemma_advance_is_sound(upper);
            }
        },
        _ => {},
    }
}

proof fn lemma_advance_is_sound(sync: TreeSyncView)
    requires
        forall|i: int|
            0 <= i < sync.levels.len() ==> 0 <= (#[trigger] sync.levels[i]).next
                < sync.levels[i].names.len(),
    ensures
        sync.advance().is_sound(),
{
    if sync.levels.len() == 0 {
        lemma_go_on_is_sound(sync);
    } else {
        let level = sync.levels.last();
        let next = TreeSyncView {
            levels: sync.levels.drop_last().push(
                SyncLevelView {
                    next: if level.next < level.names.len() {
                        level.next + 1
                    } else {
                        level.next
                    },
                    ..level
                },
            ),
            ..sync
        };
        assert forall|i: int| 0 <= i < next.levels.len() - 1 implies next.levels[i]
            == sync.levels[i] by {}
        lemma_go_on_is_sound(next);
    }
}

} // verus!
