//! Writing one entry of a manifest into the directory in which a template is built.

use crate::authority::{Error, Failure, Identity, SYMLINK_TYPE};
use crate::bytes::{contains_byte, copy_bytes, same_bytes, split, split_at_each, views};
use crate::git;
use crate::manifest::{ManifestEntry, ManifestEntryView, LINK_MODE, PROGRAM_MODE};
use crate::opening::MakeEvent;
use crate::record_txn::basename_failure;
use crate::storage::{
    is_private_directory, is_sealed_regular, private_directory, sealed_regular, MAX_SYMLINK,
};
use crate::template::{cstring, git_error};
use crate::walk::READ_SIZE;
use vstd::prelude::*;

verus! {

/// How copying a piece of a file failed.
#[derive(Debug)]
pub enum CopyFailure {
    Read(git::Error),
    Write(String),
}

/// What the driver is asked to do. A directory is the one at hand: the root first, then each component
/// of the path as it is opened.
#[derive(Clone, Copy, Debug, PartialEq, Eq, Structural)]
pub enum WriteAction {
    StatRoot,
    /// Open the component in the directory at hand, and read the directory's names.
    OpenComponent,
    MakeComponent,
    OpenMade,
    SyncMade,
    SyncParent,
    /// Look at the component, and make it the directory at hand.
    StatComponent,
    CreateRegular,
    /// Copy this many bytes from Git into the file.
    CopyContent(u64),
    ReadTarget(u64),
    ReadDelimiter,
    /// Give the file this mode.
    SealRegular(u32),
    SyncRegular,
    StatRegular,
    CreateLink,
    StatLink,
    Nothing,
}

#[derive(Debug)]
pub enum WriteAnswer {
    Identity(Result<Identity, Error>),
    /// Whether the component could be opened, and the names beside it.
    Opened { found: bool, names: Result<Vec<Vec<u8>>, Error> },
    Made(MakeEvent),
    Done(Result<(), Error>),
    System(Result<(), String>),
    Copied(Result<(), CopyFailure>),
    Target(Result<Vec<u8>, git::Error>),
    Byte(Result<u8, git::Error>),
}

#[derive(Debug)]
pub enum WriteStage {
    RootSeeing,
    Opening,
    Making,
    MadeOpening,
    MadeSyncing,
    ParentSyncing,
    ComponentSeeing,
    Creating,
    Copying(u64),
    TargetReading,
    /// Behind the content of a file.
    FileDelimiting,
    /// Behind the target of a link.
    LinkDelimiting(Vec<u8>),
    Sealing,
    FileSyncing,
    FileSeeing,
    Linking(Vec<u8>),
    LinkSeeing,
    Written,
    Failed(Error),
}

#[verifier::ext_equal]
pub enum WriteStageView {
    RootSeeing,
    Opening,
    Making,
    MadeOpening,
    MadeSyncing,
    ParentSyncing,
    ComponentSeeing,
    Creating,
    Copying(u64),
    TargetReading,
    FileDelimiting,
    LinkDelimiting(Seq<u8>),
    Sealing,
    FileSyncing,
    FileSeeing,
    Linking(Seq<u8>),
    LinkSeeing,
    Written,
    Failed(Failure),
}

impl View for WriteStage {
    type V = WriteStageView;

    open spec fn view(&self) -> WriteStageView {
        match self {
            WriteStage::RootSeeing => WriteStageView::RootSeeing,
            WriteStage::Opening => WriteStageView::Opening,
            WriteStage::Making => WriteStageView::Making,
            WriteStage::MadeOpening => WriteStageView::MadeOpening,
            WriteStage::MadeSyncing => WriteStageView::MadeSyncing,
            WriteStage::ParentSyncing => WriteStageView::ParentSyncing,
            WriteStage::ComponentSeeing => WriteStageView::ComponentSeeing,
            WriteStage::Creating => WriteStageView::Creating,
            WriteStage::Copying(remaining) => WriteStageView::Copying(*remaining),
            WriteStage::TargetReading => WriteStageView::TargetReading,
            WriteStage::FileDelimiting => WriteStageView::FileDelimiting,
            WriteStage::LinkDelimiting(target) => WriteStageView::LinkDelimiting(target@),
            WriteStage::Sealing => WriteStageView::Sealing,
            WriteStage::FileSyncing => WriteStageView::FileSyncing,
            WriteStage::FileSeeing => WriteStageView::FileSeeing,
            WriteStage::Linking(target) => WriteStageView::Linking(target@),
            WriteStage::LinkSeeing => WriteStageView::LinkSeeing,
            WriteStage::Written => WriteStageView::Written,
            WriteStage::Failed(error) => WriteStageView::Failed(error@),
        }
    }
}

/// Writing one entry.
#[derive(Debug)]
pub struct EntryWriter {
    entry: ManifestEntry,
    root: Identity,
    uid: u32,
    components: Vec<Vec<u8>>,
    /// The component at hand.
    next: usize,
    stage: WriteStage,
}

#[verifier::ext_equal]
pub struct WriterView {
    pub entry: ManifestEntryView,
    pub root: Identity,
    pub uid: u32,
    /// The components of the path; the last is the entry's own name.
    pub components: Seq<Seq<u8>>,
    pub next: int,
    pub stage: WriteStageView,
}

impl View for EntryWriter {
    type V = WriterView;

    closed spec fn view(&self) -> WriterView {
        WriterView {
            entry: self.entry@,
            root: self.root,
            uid: self.uid,
            components: views(self.components@),
            next: self.next as int,
            stage: self.stage@,
        }
    }
}

pub open spec fn collided() -> Failure {
    ("TEMPLATE_UNSUPPORTED"@, "tree path collided under target volume semantics"@)
}

pub open spec fn io_failed(detail: Seq<char>) -> Failure {
    ("TEMPLATE_IO_FAILED"@, detail)
}

/// The mode under which a file of a tree is sealed.
pub open spec fn file_mode(mode: u32) -> u32 {
    if mode == PROGRAM_MODE {
        0o555
    } else {
        0o444
    }
}

/// The link is the user's own, under one name.
pub open spec fn is_own_link(identity: Identity, uid: u32) -> bool {
    identity.kind == SYMLINK_TYPE && identity.uid == uid && identity.nlink == 1
}

impl WriterView {
    pub open spec fn starting(entry: ManifestEntryView, root: Identity, uid: u32) -> WriterView {
        WriterView {
            entry,
            root,
            uid,
            components: split_at_each(entry.path, 47),
            next: 0,
            stage: WriteStageView::RootSeeing,
        }
    }

    pub open spec fn at(self, stage: WriteStageView) -> WriterView {
        WriterView { stage, ..self }
    }

    pub open spec fn fail(self, failed: Failure) -> WriterView {
        self.at(WriteStageView::Failed(failed))
    }

    pub open spec fn system(self, context: Seq<char>, words: String) -> WriterView {
        self.fail(io_failed(context + ": "@ + words@))
    }

    /// Goes down to the component at `next`, or writes the entry where that is the last.
    pub open spec fn go_on(self, next: int) -> WriterView {
        let moved = WriterView { next, ..self };
        if next + 1 < self.components.len() {
            match basename_failure(
                self.components[next],
                "template directory"@,
                "TEMPLATE_INVALID"@,
            ) {
                Some(failed) => moved.fail(failed),
                None => moved.at(WriteStageView::Opening),
            }
        } else {
            match basename_failure(self.components.last(), "template leaf"@, "TEMPLATE_INVALID"@) {
                Some(failed) => moved.fail(failed),
                None => if self.entry.mode != LINK_MODE {
                    moved.at(WriteStageView::Creating)
                } else if self.entry.size > MAX_SYMLINK {
                    moved.fail(
                        (
                            "TEMPLATE_UNSUPPORTED"@,
                            "symbolic link payload exceeds the supported limit"@,
                        ),
                    )
                } else {
                    moved.at(WriteStageView::TargetReading)
                },
            }
        }
    }

    pub open spec fn copy_on(self, remaining: u64) -> WriterView {
        if remaining == 0 {
            self.at(WriteStageView::FileDelimiting)
        } else {
            self.at(WriteStageView::Copying(remaining))
        }
    }

    /// How much is copied next.
    pub open spec fn piece(remaining: u64) -> u64 {
        if remaining < READ_SIZE {
            remaining
        } else {
            READ_SIZE
        }
    }

    pub open spec fn made(self, made: MakeEvent, next: WriteStageView, context: Seq<char>) -> WriterView {
        match made {
            MakeEvent::Created => self.at(next),
            MakeEvent::Exists => self.fail(collided()),
            MakeEvent::Failed(words) => self.system(context, words),
        }
    }

    pub open spec fn delimited(self, byte: Result<u8, git::Error>, next: WriterView) -> WriterView {
        match byte {
            Err(error) => self.fail(error@),
            Ok(byte) => if byte == 10 {
                next
            } else {
                self.fail(("TEMPLATE_INVALID"@, "cat-file payload lacked its delimiter"@))
            },
        }
    }

    /// The writing after the driver's answer. An answer to another question changes nothing.
    pub open spec fn after(self, event: WriteAnswer) -> WriterView {
        match (self.stage, event) {
            (WriteStageView::RootSeeing, WriteAnswer::Identity(seen)) => match seen {
                Err(error) => self.fail(error@),
                Ok(current) => if current.is_same_node(self.root) && is_private_directory(
                    current,
                    self.uid,
                ) {
                    self.go_on(0)
                } else {
                    self.fail(io_failed("template root binding changed"@))
                },
            },
            (WriteStageView::Opening, WriteAnswer::Opened { found, names }) => if !found {
                self.at(WriteStageView::Making)
            } else {
                match names {
                    Err(error) => self.fail(error@),
                    Ok(names) => if views(names@).contains(self.components[self.next]) {
                        self.at(WriteStageView::ComponentSeeing)
                    } else {
                        self.fail(collided())
                    },
                }
            },
            (WriteStageView::Making, WriteAnswer::Made(made)) => self.made(
                made,
                WriteStageView::MadeOpening,
                "cannot create template directory"@,
            ),
            (WriteStageView::MadeOpening, WriteAnswer::Done(done)) => match done {
                Err(error) => self.fail(error@),
                Ok(_) => self.at(WriteStageView::MadeSyncing),
            },
            (WriteStageView::MadeSyncing, WriteAnswer::System(done)) => match done {
                Err(words) => self.system("cannot sync new template directory"@, words),
                Ok(_) => self.at(WriteStageView::ParentSyncing),
            },
            (WriteStageView::ParentSyncing, WriteAnswer::System(done)) => match done {
                Err(words) => self.system("cannot sync new template directory parent"@, words),
                Ok(_) => self.at(WriteStageView::ComponentSeeing),
            },
            (WriteStageView::ComponentSeeing, WriteAnswer::Identity(seen)) => match seen {
                Err(error) => self.fail(error@),
                Ok(identity) => if is_private_directory(identity, self.uid) {
                    self.go_on(self.next + 1)
                } else {
                    self.fail(io_failed("template directory identity is invalid"@))
                },
            },
            (WriteStageView::Creating, WriteAnswer::Made(made)) => match made {
                MakeEvent::Created => self.copy_on(self.entry.size),
                MakeEvent::Exists => self.fail(collided()),
                MakeEvent::Failed(words) => self.system(
                    "cannot create template regular file"@,
                    words,
                ),
            },
            (WriteStageView::Copying(remaining), WriteAnswer::Copied(copied)) => match copied {
                Err(CopyFailure::Read(error)) => self.fail(error@),
                Err(CopyFailure::Write(words)) => self.system(
                    "cannot write template regular file"@,
                    words,
                ),
                Ok(_) => self.copy_on((remaining - WriterView::piece(remaining)) as u64),
            },
            (WriteStageView::FileDelimiting, WriteAnswer::Byte(byte)) => self.delimited(
                byte,
                self.at(WriteStageView::Sealing),
            ),
            (WriteStageView::Sealing, WriteAnswer::System(done)) => match done {
                Err(words) => self.system("cannot seal template regular file"@, words),
                Ok(_) => self.at(WriteStageView::FileSyncing),
            },
            (WriteStageView::FileSyncing, WriteAnswer::System(done)) => match done {
                Err(words) => self.system("cannot sync template regular file"@, words),
                Ok(_) => self.at(WriteStageView::FileSeeing),
            },
            (WriteStageView::FileSeeing, WriteAnswer::Identity(seen)) => match seen {
                Err(error) => self.fail(error@),
                Ok(identity) => if is_sealed_regular(identity, self.uid) {
                    self.at(WriteStageView::Written)
                } else {
                    self.fail(
                        io_failed("template regular file did not retain its sealed identity"@),
                    )
                },
            },
            (WriteStageView::TargetReading, WriteAnswer::Target(read)) => match read {
                Err(error) => self.fail(error@),
                Ok(target) => self.at(WriteStageView::LinkDelimiting(target@)),
            },
            (WriteStageView::LinkDelimiting(target), WriteAnswer::Byte(byte)) => self.delimited(
                byte,
                if target.contains(0) {
                    self.fail(("TEMPLATE_UNSUPPORTED"@, "symbolic link payload contains NUL"@))
                } else {
                    self.at(WriteStageView::Linking(target))
                },
            ),
            (WriteStageView::Linking(_), WriteAnswer::Made(made)) => self.made(
                made,
                WriteStageView::LinkSeeing,
                "cannot create template symbolic link"@,
            ),
            (WriteStageView::LinkSeeing, WriteAnswer::Identity(seen)) => match seen {
                Err(error) => self.fail(error@),
                Ok(identity) => if is_own_link(identity, self.uid) {
                    self.at(WriteStageView::Written)
                } else {
                    self.fail(io_failed("template symbolic link identity is invalid"@))
                },
            },
            _ => self,
        }
    }

    pub open spec fn asks(self) -> WriteAction {
        match self.stage {
            WriteStageView::RootSeeing => WriteAction::StatRoot,
            WriteStageView::Opening => WriteAction::OpenComponent,
            WriteStageView::Making => WriteAction::MakeComponent,
            WriteStageView::MadeOpening => WriteAction::OpenMade,
            WriteStageView::MadeSyncing => WriteAction::SyncMade,
            WriteStageView::ParentSyncing => WriteAction::SyncParent,
            WriteStageView::ComponentSeeing => WriteAction::StatComponent,
            WriteStageView::Creating => WriteAction::CreateRegular,
            WriteStageView::Copying(remaining) => WriteAction::CopyContent(
                WriterView::piece(remaining),
            ),
            WriteStageView::TargetReading => WriteAction::ReadTarget(self.entry.size),
            WriteStageView::FileDelimiting | WriteStageView::LinkDelimiting(_) => {
                WriteAction::ReadDelimiter
            },
            WriteStageView::Sealing => WriteAction::SealRegular(file_mode(self.entry.mode)),
            WriteStageView::FileSyncing => WriteAction::SyncRegular,
            WriteStageView::FileSeeing => WriteAction::StatRegular,
            WriteStageView::Linking(_) => WriteAction::CreateLink,
            WriteStageView::LinkSeeing => WriteAction::StatLink,
            WriteStageView::Written | WriteStageView::Failed(_) => WriteAction::Nothing,
        }
    }

    /// The component at hand is one of the path.
    pub open spec fn sound(self) -> bool {
        self.components.len() > 0 && 0 <= self.next < self.components.len() && (self.has_directory()
            ==> self.next + 1 < self.components.len())
    }

    /// A directory on the way is meant, not the entry itself.
    pub open spec fn has_directory(self) -> bool {
        self.stage is Opening || self.stage is Making || self.stage is MadeOpening || self.stage
            is MadeSyncing || self.stage is ParentSyncing || self.stage is ComponentSeeing
    }
}

/// Whatever the driver answers, the component at hand is one of the path.
pub proof fn law_writing_stays_on_the_path(writer: WriterView, event: WriteAnswer)
    requires
        writer.sound(),
    ensures
        writer.after(event).sound(),
        writer.after(event).components == writer.components,
        writer.after(event).entry == writer.entry,
{
}

/// An entry counts as written only as the sealed file of the user, or as the user's own link.
pub proof fn law_written_entries_are_sealed(writer: WriterView, event: WriteAnswer)
    requires
        writer.stage !is Written,
        writer.after(event).stage is Written,
    ensures
        event matches WriteAnswer::Identity(Ok(identity)) && (writer.stage is FileSeeing
            && is_sealed_regular(identity, writer.uid) || writer.stage is LinkSeeing && is_own_link(
            identity,
            writer.uid,
        )),
{
}

/// All of a file is copied: what remains falls to nothing before its delimiter is read.
pub proof fn law_files_are_copied_whole(writer: WriterView, event: WriteAnswer)
    requires
        writer.stage !is FileDelimiting,
        writer.after(event).stage is FileDelimiting,
    ensures
        writer.stage is Creating && writer.entry.size == 0 || (writer.stage
            matches WriteStageView::Copying(remaining) && remaining == WriterView::piece(remaining)),
{
}

fn holds_name(names: &Vec<Vec<u8>>, name: &[u8]) -> (holds: bool)
    ensures
        holds == views(names@).contains(name@),
{
    let mut i: usize = 0;
    while i < names.len()
        invariant
            i <= names@.len(),
            forall|k: int| 0 <= k < i ==> #[trigger] views(names@)[k] != name@,
        decreases names@.len() - i,
    {
        if same_bytes(names[i].as_slice(), name) {
            proof {
                assert(views(names@)[i as int] == name@);
            }
            return true;
        }
        proof {
            assert(views(names@)[i as int] == names@[i as int]@);
        }
        i += 1;
    }
    false
}

impl EntryWriter {
    #[verifier::type_invariant]
    spec fn is_sound(self) -> bool {
        self@.sound()
    }

    /// Writing an entry below the root that was made for it; `uid` is the user who runs the program.
    pub fn start(entry: ManifestEntry, root: Identity, uid: u32) -> (writer: Self)
        ensures
            writer@ == WriterView::starting(entry@, root, uid),
    {
        let components = split(entry.path.as_slice(), 47);
        EntryWriter { entry, root, uid, components, next: 0, stage: WriteStage::RootSeeing }
    }

    /// The component of the path that is at hand.
    pub fn component(&self) -> (component: Vec<u8>)
        ensures
            component@ == self@.components[self@.next],
    {
        proof {
            use_type_invariant(self);
            assert(views(self.components@)[self.next as int] == self.components@[self.next as int]@);
        }
        copy_bytes(self.components[self.next].as_slice())
    }

    /// The target with which the link is made.
    pub fn link_target(&self) -> (target: Option<Vec<u8>>)
        ensures
            match target {
                Some(target) => self@.stage == WriteStageView::Linking(target@),
                None => self@.stage !is Linking,
            },
    {
        match &self.stage {
            WriteStage::Linking(target) => Some(copy_bytes(target.as_slice())),
            _ => None,
        }
    }

    /// How writing ended, once it has.
    pub fn outcome(self) -> (ended: Option<Result<(), Error>>)
        ensures
            match ended {
                None => !(self@.stage is Written || self@.stage is Failed),
                Some(Ok(_)) => self@.stage is Written,
                Some(Err(error)) => self@.stage == WriteStageView::Failed(error@),
            },
    {
        match self.stage {
            WriteStage::Written => Some(Ok(())),
            WriteStage::Failed(error) => Some(Err(error)),
            _ => None,
        }
    }

    fn piece(remaining: u64) -> (piece: u64)
        ensures
            piece == WriterView::piece(remaining),
            piece <= remaining,
    {
        if remaining < READ_SIZE {
            remaining
        } else {
            READ_SIZE
        }
    }

    pub fn action(&self) -> (action: WriteAction)
        ensures
            action == self@.asks(),
    {
        match &self.stage {
            WriteStage::RootSeeing => WriteAction::StatRoot,
            WriteStage::Opening => WriteAction::OpenComponent,
            WriteStage::Making => WriteAction::MakeComponent,
            WriteStage::MadeOpening => WriteAction::OpenMade,
            WriteStage::MadeSyncing => WriteAction::SyncMade,
            WriteStage::ParentSyncing => WriteAction::SyncParent,
            WriteStage::ComponentSeeing => WriteAction::StatComponent,
            WriteStage::Creating => WriteAction::CreateRegular,
            WriteStage::Copying(remaining) => WriteAction::CopyContent(Self::piece(*remaining)),
            WriteStage::TargetReading => WriteAction::ReadTarget(self.entry.size),
            WriteStage::FileDelimiting => WriteAction::ReadDelimiter,
            WriteStage::LinkDelimiting(_) => WriteAction::ReadDelimiter,
            WriteStage::Sealing => WriteAction::SealRegular(
                if self.entry.mode == PROGRAM_MODE {
                    0o555
                } else {
                    0o444
                },
            ),
            WriteStage::FileSyncing => WriteAction::SyncRegular,
            WriteStage::FileSeeing => WriteAction::StatRegular,
            WriteStage::Linking(_) => WriteAction::CreateLink,
            WriteStage::LinkSeeing => WriteAction::StatLink,
            WriteStage::Written => WriteAction::Nothing,
            WriteStage::Failed(_) => WriteAction::Nothing,
        }
    }

    fn go_on(&self, next: usize) -> (moved: (usize, WriteStage))
        requires
            self@.components.len() > 0,
            next < self@.components.len(),
        ensures
            self@.go_on(next as int) == (WriterView {
                next: moved.0 as int,
                stage: moved.1@,
                ..self@
            }),
            moved.0 == next,
    {
        let count: usize = self.components.len();
        let last: bool = next >= count - 1;
        let component = self.components[next].as_slice();
        proof {
            assert(views(self.components@)[next as int] == component@);
            if last {
                assert(next == count - 1);
                assert(views(self.components@).last() == component@);
            }
        }
        if !last {
            match cstring(component, "template directory") {
                Err(error) => (next, WriteStage::Failed(error)),
                Ok(_) => (next, WriteStage::Opening),
            }
        } else {
            match cstring(component, "template leaf") {
                Err(error) => (next, WriteStage::Failed(error)),
                Ok(_) => if self.entry.mode != LINK_MODE {
                    (next, WriteStage::Creating)
                } else if self.entry.size > MAX_SYMLINK as u64 {
                    (
                        next,
                        WriteStage::Failed(
                            Error::new(
                                "TEMPLATE_UNSUPPORTED",
                                "symbolic link payload exceeds the supported limit",
                            ),
                        ),
                    )
                } else {
                    (next, WriteStage::TargetReading)
                },
            }
        }
    }

    fn copy_on(remaining: u64) -> (stage: WriteStage)
        ensures
            stage@ == (if remaining == 0 {
                WriteStageView::FileDelimiting
            } else {
                WriteStageView::Copying(remaining)
            }),
    {
        if remaining == 0 {
            WriteStage::FileDelimiting
        } else {
            WriteStage::Copying(remaining)
        }
    }

    fn io(context: &str, words: String) -> (stage: WriteStage)
        ensures
            stage@ == WriteStageView::Failed(io_failed(context@ + ": "@ + words@)),
    {
        WriteStage::Failed(Error::io("TEMPLATE_IO_FAILED", context, words.as_str()))
    }

    fn io_failed(detail: &str) -> (stage: WriteStage)
        ensures
            stage@ == WriteStageView::Failed(io_failed(detail@)),
    {
        WriteStage::Failed(Error::new("TEMPLATE_IO_FAILED", detail))
    }

    fn collision() -> (stage: WriteStage)
        ensures
            stage@ == WriteStageView::Failed(collided()),
    {
        WriteStage::Failed(
            Error::new("TEMPLATE_UNSUPPORTED", "tree path collided under target volume semantics"),
        )
    }

    fn system(done: Result<(), String>, next: WriteStage, context: &str) -> (stage: WriteStage)
        ensures
            stage@ == match done {
                Ok(_) => next@,
                Err(words) => WriteStageView::Failed(io_failed(context@ + ": "@ + words@)),
            },
    {
        match done {
            Ok(_) => next,
            Err(words) => Self::io(context, words),
        }
    }

    fn made(made: MakeEvent, next: WriteStage, context: &str) -> (stage: WriteStage)
        ensures
            stage@ == match made {
                MakeEvent::Created => next@,
                MakeEvent::Exists => WriteStageView::Failed(collided()),
                MakeEvent::Failed(words) => WriteStageView::Failed(
                    io_failed(context@ + ": "@ + words@),
                ),
            },
    {
        match made {
            MakeEvent::Created => next,
            MakeEvent::Exists => Self::collision(),
            MakeEvent::Failed(words) => Self::io(context, words),
        }
    }

    fn delimited(byte: Result<u8, git::Error>, next: WriteStage) -> (stage: WriteStage)
        ensures
            stage@ == match byte {
                Err(error) => WriteStageView::Failed(error@),
                Ok(byte) => if byte == 10 {
                    next@
                } else {
                    WriteStageView::Failed(
                        ("TEMPLATE_INVALID"@, "cat-file payload lacked its delimiter"@),
                    )
                },
            },
    {
        match byte {
            Err(error) => WriteStage::Failed(git_error(error)),
            Ok(byte) => if byte == 10 {
                next
            } else {
                WriteStage::Failed(
                    Error::new("TEMPLATE_INVALID", "cat-file payload lacked its delimiter"),
                )
            },
        }
    }

    fn identified(&self, seen: Result<Identity, Error>) -> (moved: (usize, Option<WriteStage>))
        requires
            self@.sound(),
        ensures
            match moved.1 {
                None => self@.after(WriteAnswer::Identity(seen)) == self@ && moved.0 == self@.next,
                Some(stage) => self@.after(WriteAnswer::Identity(seen)) == (WriterView {
                    next: moved.0 as int,
                    stage: stage@,
                    ..self@
                }),
            },
    {
        let waits: bool = match &self.stage {
            WriteStage::RootSeeing => true,
            WriteStage::ComponentSeeing => true,
            WriteStage::FileSeeing => true,
            WriteStage::LinkSeeing => true,
            _ => false,
        };
        if !waits {
            return (self.next, None);
        }
        let found: Identity = match seen {
            Err(error) => {
                return (self.next, Some(WriteStage::Failed(error)));
            },
            Ok(found) => found,
        };
        match &self.stage {
            WriteStage::RootSeeing => if found.same_node(self.root) && private_directory(
                found,
                self.uid,
            ) {
                let (next, stage) = self.go_on(0);
                (next, Some(stage))
            } else {
                (self.next, Some(Self::io_failed("template root binding changed")))
            },
            WriteStage::ComponentSeeing => if private_directory(found, self.uid) {
                let count: usize = self.components.len();
                assert(self.next < count);
                let (next, stage) = self.go_on(self.next + 1);
                (next, Some(stage))
            } else {
                (self.next, Some(Self::io_failed("template directory identity is invalid")))
            },
            WriteStage::FileSeeing => if sealed_regular(found, self.uid) {
                (self.next, Some(WriteStage::Written))
            } else {
                (
                    self.next,
                    Some(
                        Self::io_failed(
                            "template regular file did not retain its sealed identity",
                        ),
                    ),
                )
            },
            _ => if found.kind == SYMLINK_TYPE && found.uid == self.uid && found.nlink == 1 {
                (self.next, Some(WriteStage::Written))
            } else {
                (self.next, Some(Self::io_failed("template symbolic link identity is invalid")))
            },
        }
    }

    /// Takes the driver's answer.
    pub fn answer(self, event: WriteAnswer) -> (next: Self)
        ensures
            next@ == self@.after(event),
    {
        proof {
            use_type_invariant(&self);
            law_writing_stays_on_the_path(self@, event);
        }
        let ghost before = self@;
        if let WriteAnswer::Identity(seen) = event {
            let moved = self.identified(seen);
            return match moved.1 {
                None => self,
                Some(stage) => EntryWriter {
                    entry: self.entry,
                    root: self.root,
                    uid: self.uid,
                    components: self.components,
                    next: moved.0,
                    stage,
                },
            };
        }
        let EntryWriter { entry, root, uid, components, next, stage } = self;
        let stage = match (stage, event) {
            (WriteStage::Opening, WriteAnswer::Opened { found, names }) => if !found {
                WriteStage::Making
            } else {
                match names {
                    Err(error) => WriteStage::Failed(error),
                    Ok(names) => {
                        proof {
                            assert(views(components@)[next as int] == components@[next as int]@);
                        }
                        if holds_name(&names, components[next].as_slice()) {
                            WriteStage::ComponentSeeing
                        } else {
                            Self::collision()
                        }
                    },
                }
            },
            (WriteStage::Making, WriteAnswer::Made(made)) => Self::made(
                made,
                WriteStage::MadeOpening,
                "cannot create template directory",
            ),
            (WriteStage::MadeOpening, WriteAnswer::Done(done)) => match done {
                Err(error) => WriteStage::Failed(error),
                Ok(_) => WriteStage::MadeSyncing,
            },
            (WriteStage::MadeSyncing, WriteAnswer::System(done)) => Self::system(
                done,
                WriteStage::ParentSyncing,
                "cannot sync new template directory",
            ),
            (WriteStage::ParentSyncing, WriteAnswer::System(done)) => Self::system(
                done,
                WriteStage::ComponentSeeing,
                "cannot sync new template directory parent",
            ),
            (WriteStage::Creating, WriteAnswer::Made(made)) => Self::made(
                made,
                Self::copy_on(entry.size),
                "cannot create template regular file",
            ),
            (WriteStage::Copying(remaining), WriteAnswer::Copied(copied)) => match copied {
                Err(CopyFailure::Read(error)) => WriteStage::Failed(git_error(error)),
                Err(CopyFailure::Write(words)) => Self::io(
                    "cannot write template regular file",
                    words,
                ),
                Ok(_) => Self::copy_on(remaining - Self::piece(remaining)),
            },
            (WriteStage::FileDelimiting, WriteAnswer::Byte(byte)) => Self::delimited(
                byte,
                WriteStage::Sealing,
            ),
            (WriteStage::Sealing, WriteAnswer::System(done)) => Self::system(
                done,
                WriteStage::FileSyncing,
                "cannot seal template regular file",
            ),
            (WriteStage::FileSyncing, WriteAnswer::System(done)) => Self::system(
                done,
                WriteStage::FileSeeing,
                "cannot sync template regular file",
            ),
            (WriteStage::TargetReading, WriteAnswer::Target(read)) => match read {
                Err(error) => WriteStage::Failed(git_error(error)),
                Ok(target) => WriteStage::LinkDelimiting(target),
            },
            (WriteStage::LinkDelimiting(target), WriteAnswer::Byte(byte)) => {
                let next = if contains_byte(target.as_slice(), 0) {
                    WriteStage::Failed(
                        Error::new("TEMPLATE_UNSUPPORTED", "symbolic link payload contains NUL"),
                    )
                } else {
                    WriteStage::Linking(target)
                };
                Self::delimited(byte, next)
            },
            (WriteStage::Linking(_), WriteAnswer::Made(made)) => Self::made(
                made,
                WriteStage::LinkSeeing,
                "cannot create template symbolic link",
            ),
            (stage, _) => stage,
        };
        proof {
            assert(before.after(event) == (WriterView { stage: stage@, ..before }));
        }
        EntryWriter { entry, root, uid, components, next, stage }
    }
}

} // verus!
