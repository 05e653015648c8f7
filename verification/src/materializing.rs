//! Making a session of its prepared record: its private repository, its linked worktree, and the clone
//! of the template in it. A session that cannot be made is taken back, unless that would lose what may
//! still be needed.

use crate::authority::{failure, or_fail, Authority, AuthorityView, Error, Failure, Identity};
use crate::bytes::utf8;
use crate::git::{self, Output};
use crate::inspection::first_of;
use crate::paths::{join, joined};
use crate::record_txn::basename_failure;
use crate::session::{
    bound_record_error, cstring, is_owned_directory, keeps_creating, needs_recovery,
    owned_directory, retain_creating, CapabilityView, RecordCapability, SessionRecord, SessionView,
};
use crate::session_git::{
    add_linked_worktree, add_linked_worktree_command, alternate_entry, check_private_common,
    clean_failure, configure_command, configure_private_common, configured_command,
    configured_failure, git_dir, git_metadata, init_private_common, init_private_common_args,
    init_private_common_command, read_tree, read_tree_command, status_clean, status_command,
    status_failure, write_alternate, AlternateWritten, Command, CommandView, MetadataSeen,
};
use crate::session_roots::{
    bind_failure, bind_path, remove_empty_directory, removed_empty_directory, revalidate_failure,
    revalidate_record, EmptySeen,
};
use crate::storage::{
    is_private_directory, private_directory, CowReceipt, SealedTreeReceipt, SealedView,
};
use vstd::prelude::*;

verus! {

/// Where the making of a session stands. What is asked for at each stage is what the stage is named
/// after.
#[derive(Clone, Copy, Debug, PartialEq, Eq, Structural)]
pub enum MakingStage {
    PersistMaterializing,
    BindRoot,
    MakeTemplate,
    BindTemplate,
    BindRootForInit,
    InitCommon,
    OpenCommon,
    BindCommon,
    CheckTemplate,
    RemoveTemplate,
    WriteAlternate,
    SetFilemode,
    GetFilemode,
    SetSymlinks,
    GetSymlinks,
    BindRootForWorktree,
    AddWorktree,
    OpenWorktree,
    Clone,
    ReadTree,
    Status,
    SyncCommon,
    SyncWorktree,
    SyncRoot,
    SyncSessions,
    Revalidate,
    FinalRoot,
    BindRootForReady,
    Metadata,
    PersistReady,
    /// The session is taken back: its record is read, its tree removed, its record removed.
    UndoRead,
    UndoTree,
    UndoRecord,
    Ended,
}

impl MakingStage {
    /// The order of the stages.
    pub open spec fn rank(self) -> int {
        match self {
            MakingStage::PersistMaterializing => 0,
            MakingStage::BindRoot => 1,
            MakingStage::MakeTemplate => 2,
            MakingStage::BindTemplate => 3,
            MakingStage::BindRootForInit => 4,
            MakingStage::InitCommon => 5,
            MakingStage::OpenCommon => 6,
            MakingStage::BindCommon => 7,
            MakingStage::CheckTemplate => 8,
            MakingStage::RemoveTemplate => 9,
            MakingStage::WriteAlternate => 10,
            MakingStage::SetFilemode => 11,
            MakingStage::GetFilemode => 12,
            MakingStage::SetSymlinks => 13,
            MakingStage::GetSymlinks => 14,
            MakingStage::BindRootForWorktree => 15,
            MakingStage::AddWorktree => 16,
            MakingStage::OpenWorktree => 17,
            MakingStage::Clone => 18,
            MakingStage::ReadTree => 19,
            MakingStage::Status => 20,
            MakingStage::SyncCommon => 21,
            MakingStage::SyncWorktree => 22,
            MakingStage::SyncRoot => 23,
            MakingStage::SyncSessions => 24,
            MakingStage::Revalidate => 25,
            MakingStage::FinalRoot => 26,
            MakingStage::BindRootForReady => 27,
            MakingStage::Metadata => 28,
            MakingStage::PersistReady => 29,
            MakingStage::UndoRead => 30,
            MakingStage::UndoTree => 31,
            MakingStage::UndoRecord => 32,
            MakingStage::Ended => 33,
        }
    }
}

/// The making of a session under its prepared record.
#[derive(Debug)]
pub struct Making {
    pub authority: Authority,
    pub target: Vec<u8>,
    pub base: String,
    pub template: SealedTreeReceipt,
    pub root_path: Vec<u8>,
    pub root_name: String,
    pub root_identity: Identity,
    pub capability: RecordCapability,
    /// The identity of the directory that was looked at last, where a later stage needs it.
    pub noted: Identity,
    /// The record that is to be written next.
    pub next: SessionRecord,
    pub receipt: Option<CowReceipt>,
    pub stage: MakingStage,
    pub outcome: Option<Result<Vec<u8>, Error>>,
}

pub struct MakingView {
    pub authority: AuthorityView,
    pub target: Seq<u8>,
    pub base: Seq<char>,
    pub template: SealedView,
    pub root_path: Seq<u8>,
    pub root_name: Seq<char>,
    pub root_identity: Identity,
    pub capability: CapabilityView,
    pub noted: Identity,
    pub next: SessionView,
    pub receipt: Option<(SealedView, Identity)>,
    pub stage: MakingStage,
    pub outcome: Option<Result<Seq<u8>, Failure>>,
}

pub open spec fn made(outcome: Option<Result<Vec<u8>, Error>>) -> Option<Result<Seq<u8>, Failure>> {
    match outcome {
        None => None,
        Some(Ok(path)) => Some(Ok(path@)),
        Some(Err(error)) => Some(Err(error@)),
    }
}

pub open spec fn receipt_view(receipt: Option<CowReceipt>) -> Option<(SealedView, Identity)> {
    match receipt {
        None => None,
        Some(receipt) => Some(receipt@),
    }
}

impl View for Making {
    type V = MakingView;

    open spec fn view(&self) -> MakingView {
        MakingView {
            authority: self.authority@,
            target: self.target@,
            base: self.base@,
            template: self.template@,
            root_path: self.root_path@,
            root_name: self.root_name@,
            root_identity: self.root_identity,
            capability: self.capability@,
            noted: self.noted,
            next: self.next@,
            receipt: receipt_view(self.receipt),
            stage: self.stage,
            outcome: made(self.outcome),
        }
    }
}

#[derive(Debug)]
pub enum MakingAction {
    Run(Command),
    /// Replace the record.
    Persist(SessionRecord),
    /// Look at a path, and at the directory that is open for it.
    Bind(Vec<u8>),
    MakeTemplate,
    OpenCommon,
    LookAtTemplate,
    RemoveTemplate,
    /// Write the line that lends the authority's objects.
    WriteAlternate(Vec<u8>),
    OpenWorktree,
    /// Clone the template into the worktree.
    Clone,
    SyncCommon,
    SyncWorktree,
    SyncRoot,
    SyncSessions,
    ReadRecord,
    LookAtRoot,
    LookAtMetadata,
    RemoveTree,
    RemoveRecord,
    Nothing,
}

pub enum MakingAsk {
    Run(CommandView),
    Persist(SessionView),
    Bind(Seq<u8>),
    MakeTemplate,
    OpenCommon,
    LookAtTemplate,
    RemoveTemplate,
    WriteAlternate(Seq<u8>),
    OpenWorktree,
    Clone,
    SyncCommon,
    SyncWorktree,
    SyncRoot,
    SyncSessions,
    ReadRecord,
    LookAtRoot,
    LookAtMetadata,
    RemoveTree,
    RemoveRecord,
    Nothing,
}

impl View for MakingAction {
    type V = MakingAsk;

    open spec fn view(&self) -> MakingAsk {
        match self {
            MakingAction::Run(command) => MakingAsk::Run(command@),
            MakingAction::Persist(record) => MakingAsk::Persist(record@),
            MakingAction::Bind(path) => MakingAsk::Bind(path@),
            MakingAction::MakeTemplate => MakingAsk::MakeTemplate,
            MakingAction::OpenCommon => MakingAsk::OpenCommon,
            MakingAction::LookAtTemplate => MakingAsk::LookAtTemplate,
            MakingAction::RemoveTemplate => MakingAsk::RemoveTemplate,
            MakingAction::WriteAlternate(line) => MakingAsk::WriteAlternate(line@),
            MakingAction::OpenWorktree => MakingAsk::OpenWorktree,
            MakingAction::Clone => MakingAsk::Clone,
            MakingAction::SyncCommon => MakingAsk::SyncCommon,
            MakingAction::SyncWorktree => MakingAsk::SyncWorktree,
            MakingAction::SyncRoot => MakingAsk::SyncRoot,
            MakingAction::SyncSessions => MakingAsk::SyncSessions,
            MakingAction::ReadRecord => MakingAsk::ReadRecord,
            MakingAction::LookAtRoot => MakingAsk::LookAtRoot,
            MakingAction::LookAtMetadata => MakingAsk::LookAtMetadata,
            MakingAction::RemoveTree => MakingAsk::RemoveTree,
            MakingAction::RemoveRecord => MakingAsk::RemoveRecord,
            MakingAction::Nothing => MakingAsk::Nothing,
        }
    }
}

#[derive(Debug)]
pub enum MakingEvent {
    Ran(Result<Output, git::Error>),
    Persisted(Result<RecordCapability, Error>),
    Bound(Result<Identity, String>, Result<Identity, Error>),
    /// A directory was made.
    Made(Result<Identity, Error>),
    CommonOpened {
        opened: Result<(), Error>,
        protected: Result<(), String>,
        identity: Result<Identity, Error>,
    },
    Empty(EmptySeen),
    Removed { unlinked: Result<(), String>, synced: Result<(), String> },
    Alternate(AlternateWritten),
    /// The worktree, the root of the template, and the directory of the session, as they are found.
    WorktreeOpened {
        worktree: Result<Identity, Error>,
        template: Result<Identity, Error>,
        root: Result<Identity, Error>,
    },
    /// The clone, and the worktree as it is found behind it.
    Cloned(Result<CowReceipt, Error>, Result<Identity, Error>),
    Synced(Result<(), Error>),
    DirectorySynced(Result<(), String>),
    Read(Result<RecordCapability, Error>),
    Identity(Result<Identity, Error>),
    Metadata(Result<Identity, Error>, MetadataSeen),
    Done(Result<(), Error>),
}

impl MakingView {
    pub open spec fn common_path(self) -> Seq<u8> {
        joined(self.root_path, utf8("common.git"@))
    }

    pub open spec fn worktree_path(self) -> Seq<u8> {
        joined(self.root_path, utf8("worktree"@))
    }

    pub open spec fn template_path(self) -> Seq<u8> {
        joined(self.root_path, utf8(".git-vws-empty-template"@))
    }

    pub open spec fn objects_path(self) -> Seq<u8> {
        joined(self.authority.canonical, utf8("objects"@))
    }

    pub open spec fn at(self, stage: MakingStage) -> MakingView {
        MakingView { stage, ..self }
    }

    pub open spec fn ended(self, outcome: Result<Seq<u8>, Failure>) -> MakingView {
        MakingView { stage: MakingStage::Ended, outcome: Some(outcome), ..self }
    }

    /// What becomes of a session that cannot be made: it is kept where it may still be needed, and
    /// taken back otherwise.
    #[verifier::opaque]
    pub open spec fn abort(self, error: Failure) -> MakingView {
        if keeps_creating(error) {
            self.ended(Err(error))
        } else {
            match basename_failure(utf8(self.root_name), "session root"@, "SESSION_CORRUPT"@) {
                Some(other) => self.ended(Err(other)),
                None => MakingView {
                    stage: MakingStage::UndoRead,
                    outcome: Some(Err(error)),
                    ..self
                },
            }
        }
    }

    pub open spec fn step(self, checked: Option<Failure>, next: MakingStage) -> MakingView {
        match checked {
            Some(error) => self.abort(error),
            None => self.at(next),
        }
    }

    #[verifier::opaque]
    pub open spec fn after_building(self, event: MakingEvent, uid: u32) -> MakingView {
        match (self.stage, event) {
            (MakingStage::PersistMaterializing, MakingEvent::Persisted(persisted)) => {
                match persisted {
                    Err(error) => self.abort(error@),
                    Ok(capability) => MakingView {
                        capability: capability@,
                        stage: MakingStage::BindRoot,
                        ..self
                    },
                }
            },
            (MakingStage::BindRoot, MakingEvent::Bound(entry, descriptor)) => self.step(
                bind_failure(entry, descriptor, "session root"@),
                MakingStage::MakeTemplate,
            ),
            (MakingStage::MakeTemplate, MakingEvent::Made(made)) => match made {
                Err(error) => self.abort(error@),
                Ok(identity) => MakingView {
                    noted: identity,
                    stage: MakingStage::BindTemplate,
                    ..self
                },
            },
            (MakingStage::BindTemplate, MakingEvent::Bound(entry, descriptor)) => self.step(
                bind_failure(entry, descriptor, "empty Git template"@),
                MakingStage::BindRootForInit,
            ),
            (MakingStage::BindRootForInit, MakingEvent::Bound(entry, descriptor)) => self.step(
                bind_failure(entry, descriptor, "session root"@),
                MakingStage::InitCommon,
            ),
            (MakingStage::InitCommon, MakingEvent::Ran(answer)) => self.step(
                clean_failure(answer, "initialize private common-dir"@),
                MakingStage::OpenCommon,
            ),
            (
                MakingStage::OpenCommon,
                MakingEvent::CommonOpened { opened, protected, identity },
            ) => self.step(
                common_failure(opened, protected, identity, uid),
                MakingStage::BindCommon,
            ),
            (MakingStage::BindCommon, MakingEvent::Bound(entry, descriptor)) => self.step(
                bind_failure(entry, descriptor, "private common-dir"@),
                MakingStage::CheckTemplate,
            ),
            (MakingStage::CheckTemplate, MakingEvent::Empty(seen)) => self.step(
                seen.empty_failure(
                    utf8(".git-vws-empty-template"@),
                    self.noted,
                    "empty Git template"@,
                    uid,
                ),
                MakingStage::RemoveTemplate,
            ),
            (MakingStage::RemoveTemplate, MakingEvent::Removed { unlinked, synced }) => {
                match removal_failure(unlinked, synced, "empty Git template"@) {
                    Some(error) => self.abort(error),
                    None => if has_line_end(self.objects_path()) {
                        self.abort(
                            (
                                "SESSION_IO_FAILED"@,
                                "authority object path cannot be encoded as one alternate entry"@,
                            ),
                        )
                    } else {
                        self.at(MakingStage::WriteAlternate)
                    },
                }
            },
            (MakingStage::WriteAlternate, MakingEvent::Alternate(written)) => self.step(
                written.write_failure(),
                MakingStage::SetFilemode,
            ),
            (MakingStage::SetFilemode, MakingEvent::Ran(answer)) => self.step(
                clean_failure(answer, "configure private common-dir"@),
                MakingStage::GetFilemode,
            ),
            (MakingStage::GetFilemode, MakingEvent::Ran(answer)) => self.step(
                configured_failure(answer),
                MakingStage::SetSymlinks,
            ),
            (MakingStage::SetSymlinks, MakingEvent::Ran(answer)) => self.step(
                clean_failure(answer, "configure private common-dir"@),
                MakingStage::GetSymlinks,
            ),
            (MakingStage::GetSymlinks, MakingEvent::Ran(answer)) => self.step(
                configured_failure(answer),
                MakingStage::BindRootForWorktree,
            ),
            _ => self,
        }
    }

    #[verifier::opaque]
    pub open spec fn after_cloning(self, event: MakingEvent, uid: u32) -> MakingView {
        match (self.stage, event) {
            (MakingStage::BindRootForWorktree, MakingEvent::Bound(entry, descriptor)) => self.step(
                bind_failure(entry, descriptor, "session root"@),
                MakingStage::AddWorktree,
            ),
            (MakingStage::AddWorktree, MakingEvent::Ran(answer)) => self.step(
                clean_failure(answer, "create private linked worktree"@),
                MakingStage::OpenWorktree,
            ),
            (
                MakingStage::OpenWorktree,
                MakingEvent::WorktreeOpened { worktree, template, root },
            ) => match clone_failure(worktree, template, root, self.template.root, uid) {
                Some(error) => self.abort(error),
                None => MakingView {
                    noted: worktree->Ok_0,
                    stage: MakingStage::Clone,
                    ..self
                },
            },
            (MakingStage::Clone, MakingEvent::Cloned(cloned, worktree)) => match cloned {
                Err(error) => self.abort(error@),
                Ok(receipt) => match receipt_failure(receipt@, worktree, self.template, uid) {
                    Some(error) => self.abort(error),
                    None => MakingView {
                        receipt: Some(receipt@),
                        stage: MakingStage::ReadTree,
                        ..self
                    },
                },
            },
            (MakingStage::ReadTree, MakingEvent::Ran(answer)) => self.step(
                clean_failure(answer, "build linked-worktree index"@),
                MakingStage::Status,
            ),
            (MakingStage::Status, MakingEvent::Ran(answer)) => self.step(
                status_failure(answer),
                MakingStage::SyncCommon,
            ),
            (MakingStage::SyncCommon, MakingEvent::Synced(synced)) => self.step(
                failure(synced),
                MakingStage::SyncWorktree,
            ),
            (MakingStage::SyncWorktree, MakingEvent::Synced(synced)) => self.step(
                failure(synced),
                MakingStage::SyncRoot,
            ),
            (MakingStage::SyncRoot, MakingEvent::DirectorySynced(synced)) => self.step(
                crate::session_git::io_failed("cannot sync session root"@, synced),
                MakingStage::SyncSessions,
            ),
            (MakingStage::SyncSessions, MakingEvent::DirectorySynced(synced)) => self.step(
                crate::session_git::io_failed(
                    "cannot sync session container before READY"@,
                    synced,
                ),
                MakingStage::Revalidate,
            ),
            _ => self,
        }
    }

    #[verifier::opaque]
    pub open spec fn after_settling(self, event: MakingEvent, uid: u32) -> MakingView {
        match (self.stage, event) {
            (MakingStage::Revalidate, MakingEvent::Read(read)) => match revalidate_failure(
                read,
                self.capability,
            ) {
                Some(error) => self.abort(error),
                None => MakingView {
                    capability: read->Ok_0@,
                    stage: MakingStage::FinalRoot,
                    ..self
                },
            },
            (MakingStage::FinalRoot, MakingEvent::Identity(seen)) => match seen {
                Err(error) => self.abort(error@),
                Ok(identity) => if is_private_directory(identity, uid) {
                    MakingView { noted: identity, stage: MakingStage::BindRootForReady, ..self }
                } else {
                    self.abort(
                        ("SESSION_IO_FAILED"@, "session root changed before READY commit"@),
                    )
                },
            },
            (MakingStage::BindRootForReady, MakingEvent::Bound(entry, descriptor)) => self.step(
                bind_failure(entry, descriptor, "session root"@),
                MakingStage::Metadata,
            ),
            (MakingStage::Metadata, MakingEvent::Metadata(common, seen)) => match first_of(
                failure(common),
                seen.metadata_failure(uid),
            ) {
                Some(error) => self.abort(error),
                None => match self.receipt {
                    None => self.abort(
                        (
                            "SESSION_IO_FAILED"@,
                            "native COW receipt did not match the template record"@,
                        ),
                    ),
                    Some(receipt) => MakingView {
                        next: self.next.settle(
                            self.noted,
                            common->Ok_0,
                            receipt,
                            seen.digests(),
                        ),
                        stage: MakingStage::PersistReady,
                        ..self
                    },
                },
            },
            (MakingStage::PersistReady, MakingEvent::Persisted(persisted)) => match persisted {
                Err(error) => self.abort(error@),
                Ok(capability) => MakingView { capability: capability@, ..self }.ended(
                    Ok(self.root_path),
                ),
            },
            _ => self,
        }
    }

    #[verifier::opaque]
    pub open spec fn after_undoing(self, event: MakingEvent) -> MakingView {
        match (self.stage, event) {
            (MakingStage::UndoRead, MakingEvent::Read(read)) => match revalidate_failure(
                read,
                self.capability,
            ) {
                Some(error) => self.ended(Err(error)),
                None => MakingView {
                    capability: read->Ok_0@,
                    stage: MakingStage::UndoTree,
                    ..self
                },
            },
            (MakingStage::UndoTree, MakingEvent::Done(done)) => match done {
                Err(error) => self.ended(Err(error@)),
                Ok(_) => self.at(MakingStage::UndoRecord),
            },
            (MakingStage::UndoRecord, MakingEvent::Done(done)) => match done {
                Err(error) => self.ended(
                    Err(needs_recovery("cannot remove bound session record"@ + ": "@ + error@.1)),
                ),
                Ok(_) => self.at(MakingStage::Ended),
            },
            _ => self,
        }
    }

    /// The making after the driver's answer. An answer to another question changes nothing.
    pub open spec fn after(self, event: MakingEvent, uid: u32) -> MakingView {
        let rank = self.stage.rank();
        if rank < 15 {
            self.after_building(event, uid)
        } else if rank < 25 {
            self.after_cloning(event, uid)
        } else if rank < 30 {
            self.after_settling(event, uid)
        } else {
            self.after_undoing(event)
        }
    }
}

/// A path that cannot be written on a line.
pub open spec fn has_line_end(path: Seq<u8>) -> bool {
    path.contains(10) || path.contains(13)
}

/// The private repository was made, and only its owner can look into it.
pub open spec fn common_failure(
    opened: Result<(), Error>,
    protected: Result<(), String>,
    identity: Result<Identity, Error>,
    uid: u32,
) -> Option<Failure> {
    let f = failure(opened);
    let f = first_of(
        f,
        crate::session_git::io_failed("cannot protect private common-dir"@, protected),
    );
    let f = or_fail(
        f,
        identity is Ok,
        "SESSION_IO_FAILED"@,
        "cannot inspect private common-dir"@,
    );
    or_fail(
        f,
        is_private_directory(identity->Ok_0, uid),
        "SESSION_IO_FAILED"@,
        "private common-dir has invalid identity"@,
    )
}

pub open spec fn removal_failure(
    unlinked: Result<(), String>,
    synced: Result<(), String>,
    label: Seq<char>,
) -> Option<Failure> {
    first_of(
        match unlinked {
            Err(words) => Some(
                ("SESSION_IO_FAILED"@, "cannot clean up "@ + label + ": "@ + words@),
            ),
            Ok(_) => None,
        },
        match synced {
            Err(words) => Some(
                ("SESSION_IO_FAILED"@, "cannot sync session root cleanup"@ + ": "@ + words@),
            ),
            Ok(_) => None,
        },
    )
}

/// The worktree can be cloned into: it is owned, the template's root is the sealed one, and the
/// session's directory is still private.
pub open spec fn clone_failure(
    worktree: Result<Identity, Error>,
    template: Result<Identity, Error>,
    root: Result<Identity, Error>,
    sealed: Identity,
    uid: u32,
) -> Option<Failure> {
    let f = failure(worktree);
    let f = or_fail(
        f,
        is_owned_directory(worktree->Ok_0, uid),
        "SESSION_IO_FAILED"@,
        "linked worktree is not an owned directory"@,
    );
    let f = first_of(f, failure(template));
    let f = or_fail(
        f,
        template->Ok_0 == sealed,
        "TEMPLATE_CORRUPT"@,
        "template root binding changed before native clone"@,
    );
    let f = first_of(f, failure(root));
    or_fail(
        f,
        is_private_directory(root->Ok_0, uid),
        "SESSION_IO_FAILED"@,
        "session root changed before native clone"@,
    )
}

/// The clone is of the template, in the worktree.
pub open spec fn receipt_failure(
    receipt: (SealedView, Identity),
    worktree: Result<Identity, Error>,
    template: SealedView,
    uid: u32,
) -> Option<Failure> {
    let code = "SESSION_IO_FAILED"@;
    let detail = "native COW receipt did not match the template record"@;
    let f = or_fail(None, receipt.0 == template, code, detail);
    let f = first_of(f, failure(worktree));
    or_fail(
        f,
        receipt.1 == worktree->Ok_0 && is_owned_directory(receipt.1, uid),
        code,
        detail,
    )
}

impl MakingView {
    pub open spec fn start(
        authority: AuthorityView,
        capability: CapabilityView,
        target: Seq<u8>,
        base: Seq<char>,
        template: SealedView,
        root_path: Seq<u8>,
        root_identity: Identity,
    ) -> MakingView {
        MakingView {
            authority,
            target,
            base,
            template,
            root_path,
            root_name: crate::session::root_name_text(capability.record.sid),
            root_identity,
            capability,
            noted: root_identity,
            next: capability.record.materialize(root_identity),
            receipt: None,
            stage: MakingStage::PersistMaterializing,
            outcome: None,
        }
    }

    pub open spec fn set_args(self, key: Seq<char>) -> CommandView {
        CommandView::isolated(None).path(git_dir(self.common_path())).word("config"@).word(key).word(
            "true"@,
        )
    }

    pub open spec fn get_args(self, key: Seq<char>) -> CommandView {
        CommandView::isolated(None).path(git_dir(self.common_path())).word("config"@).word(
            "--get"@,
        ).word(key)
    }

    pub open spec fn worktree_args(self) -> CommandView {
        CommandView::isolated(None).path(git_dir(self.common_path())).word("worktree"@).word(
            "add"@,
        ).word("--quiet"@).word("--no-checkout"@).word("-b"@).path(self.target).path(
            self.worktree_path(),
        ).word(self.base)
    }

    pub open spec fn read_tree_args(self) -> CommandView {
        CommandView::isolated(Some(self.worktree_path())).word("read-tree"@).word("--reset"@).word(
            "HEAD"@,
        )
    }

    pub open spec fn status_args(self) -> CommandView {
        CommandView::isolated(Some(self.worktree_path())).word("status"@).word(
            "--porcelain=v1"@,
        ).word("--untracked-files=all"@)
    }

    pub open spec fn asks(self) -> MakingAsk {
        match self.stage {
            MakingStage::PersistMaterializing | MakingStage::PersistReady => MakingAsk::Persist(
                self.next,
            ),
            MakingStage::BindRoot | MakingStage::BindRootForInit | MakingStage::BindRootForWorktree
            | MakingStage::BindRootForReady => MakingAsk::Bind(self.root_path),
            MakingStage::BindTemplate => MakingAsk::Bind(self.template_path()),
            MakingStage::BindCommon => MakingAsk::Bind(self.common_path()),
            MakingStage::MakeTemplate => MakingAsk::MakeTemplate,
            MakingStage::InitCommon => MakingAsk::Run(
                init_private_common_args(self.authority, self.common_path(), self.template_path()),
            ),
            MakingStage::OpenCommon => MakingAsk::OpenCommon,
            MakingStage::CheckTemplate => MakingAsk::LookAtTemplate,
            MakingStage::RemoveTemplate => MakingAsk::RemoveTemplate,
            MakingStage::WriteAlternate => MakingAsk::WriteAlternate(self.objects_path().push(10)),
            MakingStage::SetFilemode => MakingAsk::Run(self.set_args("core.filemode"@)),
            MakingStage::GetFilemode => MakingAsk::Run(self.get_args("core.filemode"@)),
            MakingStage::SetSymlinks => MakingAsk::Run(self.set_args("core.symlinks"@)),
            MakingStage::GetSymlinks => MakingAsk::Run(self.get_args("core.symlinks"@)),
            MakingStage::AddWorktree => MakingAsk::Run(self.worktree_args()),
            MakingStage::OpenWorktree => MakingAsk::OpenWorktree,
            MakingStage::Clone => MakingAsk::Clone,
            MakingStage::ReadTree => MakingAsk::Run(self.read_tree_args()),
            MakingStage::Status => MakingAsk::Run(self.status_args()),
            MakingStage::SyncCommon => MakingAsk::SyncCommon,
            MakingStage::SyncWorktree => MakingAsk::SyncWorktree,
            MakingStage::SyncRoot => MakingAsk::SyncRoot,
            MakingStage::SyncSessions => MakingAsk::SyncSessions,
            MakingStage::Revalidate | MakingStage::UndoRead => MakingAsk::ReadRecord,
            MakingStage::FinalRoot => MakingAsk::LookAtRoot,
            MakingStage::Metadata => MakingAsk::LookAtMetadata,
            MakingStage::UndoTree => MakingAsk::RemoveTree,
            MakingStage::UndoRecord => MakingAsk::RemoveRecord,
            MakingStage::Ended => MakingAsk::Nothing,
        }
    }
}

fn common_opened(
    opened: Result<(), Error>,
    protected: Result<(), String>,
    identity: Result<Identity, Error>,
    uid: u32,
) -> (sound: Result<(), Error>)
    ensures
        failure(sound) == common_failure(opened, protected, identity, uid),
{
    opened?;
    match protected {
        Err(words) => {
            return Err(
                Error::io("SESSION_IO_FAILED", "cannot protect private common-dir", words.as_str()),
            );
        },
        Ok(_) => {},
    }
    match identity {
        Err(_) => Err(Error::new("SESSION_IO_FAILED", "cannot inspect private common-dir")),
        Ok(identity) => if private_directory(identity, uid) {
            Ok(())
        } else {
            Err(Error::new("SESSION_IO_FAILED", "private common-dir has invalid identity"))
        },
    }
}

fn may_clone(
    worktree: Result<Identity, Error>,
    template: Result<Identity, Error>,
    root: Result<Identity, Error>,
    sealed: Identity,
    uid: u32,
) -> (worktree_identity: Result<Identity, Error>)
    ensures
        failure(worktree_identity) == clone_failure(worktree, template, root, sealed, uid),
        worktree_identity matches Ok(found) ==> worktree == Ok::<Identity, Error>(found),
{
    let worktree = worktree?;
    if !owned_directory(worktree, uid) {
        return Err(Error::new("SESSION_IO_FAILED", "linked worktree is not an owned directory"));
    }
    let template = template?;
    if template != sealed {
        return Err(
            Error::new("TEMPLATE_CORRUPT", "template root binding changed before native clone"),
        );
    }
    let root = root?;
    if !private_directory(root, uid) {
        return Err(Error::new("SESSION_IO_FAILED", "session root changed before native clone"));
    }
    Ok(worktree)
}

fn check_receipt(
    receipt: &CowReceipt,
    worktree: Result<Identity, Error>,
    template: &SealedTreeReceipt,
    uid: u32,
) -> (sound: Result<(), Error>)
    ensures
        failure(sound) == receipt_failure(receipt@, worktree, template@, uid),
{
    let detail = "native COW receipt did not match the template record";
    if !receipt.source.same(template) {
        return Err(Error::new("SESSION_IO_FAILED", detail));
    }
    let worktree = worktree?;
    if receipt.destination != worktree || !owned_directory(receipt.destination, uid) {
        return Err(Error::new("SESSION_IO_FAILED", detail));
    }
    Ok(())
}

fn directory_synced(synced: Result<(), String>, context: &str) -> (done: Result<(), Error>)
    ensures
        failure(done) == crate::session_git::io_failed(context@, synced),
{
    match synced {
        Err(words) => Err(Error::io("SESSION_IO_FAILED", context, words.as_str())),
        Ok(_) => Ok(()),
    }
}

impl Making {
    pub fn start(
        authority: &Authority,
        capability: RecordCapability,
        target: Vec<u8>,
        base: String,
        template: SealedTreeReceipt,
        root_path: Vec<u8>,
        root_identity: Identity,
    ) -> (making: Self)
        ensures
            making@ == MakingView::start(
                authority@,
                capability@,
                target@,
                base@,
                template@,
                root_path@,
                root_identity,
            ),
    {
        let root_name = crate::session::root_name(capability.record.sid.as_str());
        let next = capability.record.materializing(root_identity);
        Making {
            authority: authority.copy(),
            target,
            base,
            template,
            root_path,
            root_name,
            root_identity,
            capability,
            noted: root_identity,
            next,
            receipt: None,
            stage: MakingStage::PersistMaterializing,
            outcome: None,
        }
    }

    fn at(self, stage: MakingStage) -> (next: Self)
        ensures
            next@ == self@.at(stage),
    {
        Making { stage, ..self }
    }

    fn failed(self, error: Error) -> (next: Self)
        ensures
            next@ == self@.ended(Err(error@)),
    {
        Making { stage: MakingStage::Ended, outcome: Some(Err(error)), ..self }
    }

    fn abort(self, error: Error) -> (next: Self)
        ensures
            next@ == self@.abort(error@),
    {
        proof {
            reveal(MakingView::abort);
        }
        if retain_creating(&error) {
            return self.failed(error);
        }
        match cstring(self.root_name.as_str().as_bytes(), "session root") {
            Err(other) => self.failed(other),
            Ok(_) => Making { stage: MakingStage::UndoRead, outcome: Some(Err(error)), ..self },
        }
    }

    fn step(self, checked: Result<(), Error>, next: MakingStage) -> (after: Self)
        ensures
            after@ == self@.step(failure(checked), next),
    {
        match checked {
            Err(error) => self.abort(error),
            Ok(_) => self.at(next),
        }
    }

    fn common_path(&self) -> (path: Vec<u8>)
        ensures
            path@ == self@.common_path(),
    {
        join(self.root_path.as_slice(), "common.git".as_bytes())
    }

    fn worktree_path(&self) -> (path: Vec<u8>)
        ensures
            path@ == self@.worktree_path(),
    {
        join(self.root_path.as_slice(), "worktree".as_bytes())
    }

    fn template_path(&self) -> (path: Vec<u8>)
        ensures
            path@ == self@.template_path(),
    {
        join(self.root_path.as_slice(), ".git-vws-empty-template".as_bytes())
    }

    fn objects_path(&self) -> (path: Vec<u8>)
        ensures
            path@ == self@.objects_path(),
    {
        join(self.authority.canonical.as_slice(), "objects".as_bytes())
    }

    fn removed(self, unlinked: Result<(), String>, synced: Result<(), String>) -> (next: Self)
        requires
            self@.stage is RemoveTemplate,
        ensures
            forall|uid: u32|
                next@ == #[trigger] self@.after_building(
                    MakingEvent::Removed { unlinked, synced },
                    uid,
                ),
    {
        proof {
            reveal(MakingView::after_building);
        }
        match removed_empty_directory(unlinked, synced, "empty Git template") {
            Err(error) => self.abort(error),
            Ok(_) => {
                let objects = self.objects_path();
                match alternate_entry(objects.as_slice()) {
                    Err(error) => self.abort(error),
                    Ok(_) => self.at(MakingStage::WriteAlternate),
                }
            },
        }
    }

    fn after_building(self, event: MakingEvent, uid: u32) -> (next: Self)
        ensures
            next@ == self@.after_building(event, uid),
    {
        proof {
            reveal(MakingView::after_building);
        }
        match (self.stage, event) {
            (MakingStage::PersistMaterializing, MakingEvent::Persisted(persisted)) => {
                match persisted {
                    Err(error) => self.abort(error),
                    Ok(capability) => Making { capability, stage: MakingStage::BindRoot, ..self },
                }
            },
            (MakingStage::BindRoot, MakingEvent::Bound(entry, descriptor)) => self.step(
                bind_path(entry, descriptor, "session root"),
                MakingStage::MakeTemplate,
            ),
            (MakingStage::MakeTemplate, MakingEvent::Made(made)) => match made {
                Err(error) => self.abort(error),
                Ok(identity) => Making {
                    noted: identity,
                    stage: MakingStage::BindTemplate,
                    ..self
                },
            },
            (MakingStage::BindTemplate, MakingEvent::Bound(entry, descriptor)) => self.step(
                bind_path(entry, descriptor, "empty Git template"),
                MakingStage::BindRootForInit,
            ),
            (MakingStage::BindRootForInit, MakingEvent::Bound(entry, descriptor)) => self.step(
                bind_path(entry, descriptor, "session root"),
                MakingStage::InitCommon,
            ),
            (MakingStage::InitCommon, MakingEvent::Ran(answer)) => self.step(
                init_private_common(answer),
                MakingStage::OpenCommon,
            ),
            (
                MakingStage::OpenCommon,
                MakingEvent::CommonOpened { opened, protected, identity },
            ) => self.step(
                common_opened(opened, protected, identity, uid),
                MakingStage::BindCommon,
            ),
            (MakingStage::BindCommon, MakingEvent::Bound(entry, descriptor)) => self.step(
                bind_path(entry, descriptor, "private common-dir"),
                MakingStage::CheckTemplate,
            ),
            (MakingStage::CheckTemplate, MakingEvent::Empty(seen)) => {
                let checked = remove_empty_directory(
                    seen,
                    ".git-vws-empty-template".as_bytes(),
                    self.noted,
                    "empty Git template",
                    uid,
                );
                self.step(checked, MakingStage::RemoveTemplate)
            },
            (MakingStage::RemoveTemplate, MakingEvent::Removed { unlinked, synced }) => {
                self.removed(unlinked, synced)
            },
            (MakingStage::WriteAlternate, MakingEvent::Alternate(written)) => self.step(
                write_alternate(written),
                MakingStage::SetFilemode,
            ),
            (MakingStage::SetFilemode, MakingEvent::Ran(answer)) => self.step(
                configure_private_common(answer),
                MakingStage::GetFilemode,
            ),
            (MakingStage::GetFilemode, MakingEvent::Ran(answer)) => self.step(
                check_private_common(answer),
                MakingStage::SetSymlinks,
            ),
            (MakingStage::SetSymlinks, MakingEvent::Ran(answer)) => self.step(
                configure_private_common(answer),
                MakingStage::GetSymlinks,
            ),
            (MakingStage::GetSymlinks, MakingEvent::Ran(answer)) => self.step(
                check_private_common(answer),
                MakingStage::BindRootForWorktree,
            ),
            _ => self,
        }
    }

    fn after_cloning(self, event: MakingEvent, uid: u32) -> (next: Self)
        ensures
            next@ == self@.after_cloning(event, uid),
    {
        proof {
            reveal(MakingView::after_cloning);
        }
        match (self.stage, event) {
            (MakingStage::BindRootForWorktree, MakingEvent::Bound(entry, descriptor)) => self.step(
                bind_path(entry, descriptor, "session root"),
                MakingStage::AddWorktree,
            ),
            (MakingStage::AddWorktree, MakingEvent::Ran(answer)) => self.step(
                add_linked_worktree(answer),
                MakingStage::OpenWorktree,
            ),
            (
                MakingStage::OpenWorktree,
                MakingEvent::WorktreeOpened { worktree, template, root },
            ) => match may_clone(worktree, template, root, self.template.root, uid) {
                Err(error) => self.abort(error),
                Ok(identity) => Making { noted: identity, stage: MakingStage::Clone, ..self },
            },
            (MakingStage::Clone, MakingEvent::Cloned(cloned, worktree)) => match cloned {
                Err(error) => self.abort(error),
                Ok(receipt) => match check_receipt(&receipt, worktree, &self.template, uid) {
                    Err(error) => self.abort(error),
                    Ok(_) => Making {
                        receipt: Some(receipt),
                        stage: MakingStage::ReadTree,
                        ..self
                    },
                },
            },
            (MakingStage::ReadTree, MakingEvent::Ran(answer)) => self.step(
                read_tree(answer),
                MakingStage::Status,
            ),
            (MakingStage::Status, MakingEvent::Ran(answer)) => self.step(
                status_clean(answer),
                MakingStage::SyncCommon,
            ),
            (MakingStage::SyncCommon, MakingEvent::Synced(synced)) => self.step(
                synced,
                MakingStage::SyncWorktree,
            ),
            (MakingStage::SyncWorktree, MakingEvent::Synced(synced)) => self.step(
                synced,
                MakingStage::SyncRoot,
            ),
            (MakingStage::SyncRoot, MakingEvent::DirectorySynced(synced)) => self.step(
                directory_synced(synced, "cannot sync session root"),
                MakingStage::SyncSessions,
            ),
            (MakingStage::SyncSessions, MakingEvent::DirectorySynced(synced)) => self.step(
                directory_synced(synced, "cannot sync session container before READY"),
                MakingStage::Revalidate,
            ),
            _ => self,
        }
    }

    fn described(self, common: Result<Identity, Error>, seen: MetadataSeen, uid: u32) -> (next: Self)
        requires
            self@.stage is Metadata,
        ensures
            next@ == self@.after_settling(MakingEvent::Metadata(common, seen), uid),
    {
        proof {
            reveal(MakingView::after_settling);
        }
        let common = match common {
            Err(error) => {
                return self.abort(error);
            },
            Ok(common) => common,
        };
        let git = match git_metadata(seen, uid) {
            Err(error) => {
                return self.abort(error);
            },
            Ok(git) => git,
        };
        match &self.receipt {
            None => self.abort(
                Error::new(
                    "SESSION_IO_FAILED",
                    "native COW receipt did not match the template record",
                ),
            ),
            Some(receipt) => {
                let worktree = CowReceipt {
                    source: receipt.source.copy(),
                    destination: receipt.destination,
                };
                let next = self.next.ready(self.noted, common, worktree, git);
                Making { next, stage: MakingStage::PersistReady, ..self }
            },
        }
    }

    fn after_settling(self, event: MakingEvent, uid: u32) -> (next: Self)
        ensures
            next@ == self@.after_settling(event, uid),
    {
        proof {
            reveal(MakingView::after_settling);
        }
        match (self.stage, event) {
            (MakingStage::Revalidate, MakingEvent::Read(read)) => match revalidate_record(
                read,
                &self.capability,
            ) {
                Err(error) => self.abort(error),
                Ok(capability) => Making { capability, stage: MakingStage::FinalRoot, ..self },
            },
            (MakingStage::FinalRoot, MakingEvent::Identity(seen)) => match seen {
                Err(error) => self.abort(error),
                Ok(identity) => if private_directory(identity, uid) {
                    Making { noted: identity, stage: MakingStage::BindRootForReady, ..self }
                } else {
                    self.abort(
                        Error::new(
                            "SESSION_IO_FAILED",
                            "session root changed before READY commit",
                        ),
                    )
                },
            },
            (MakingStage::BindRootForReady, MakingEvent::Bound(entry, descriptor)) => self.step(
                bind_path(entry, descriptor, "session root"),
                MakingStage::Metadata,
            ),
            (MakingStage::Metadata, MakingEvent::Metadata(common, seen)) => self.described(
                common,
                seen,
                uid,
            ),
            (MakingStage::PersistReady, MakingEvent::Persisted(persisted)) => match persisted {
                Err(error) => self.abort(error),
                Ok(capability) => {
                    let path = crate::bytes::copy_bytes(self.root_path.as_slice());
                    Making {
                        capability,
                        stage: MakingStage::Ended,
                        outcome: Some(Ok(path)),
                        ..self
                    }
                },
            },
            _ => self,
        }
    }

    fn after_undoing(self, event: MakingEvent) -> (next: Self)
        ensures
            next@ == self@.after_undoing(event),
    {
        proof {
            reveal(MakingView::after_undoing);
        }
        match (self.stage, event) {
            (MakingStage::UndoRead, MakingEvent::Read(read)) => match revalidate_record(
                read,
                &self.capability,
            ) {
                Err(error) => self.failed(error),
                Ok(capability) => Making { capability, stage: MakingStage::UndoTree, ..self },
            },
            (MakingStage::UndoTree, MakingEvent::Done(done)) => match done {
                Err(error) => self.failed(error),
                Ok(_) => self.at(MakingStage::UndoRecord),
            },
            (MakingStage::UndoRecord, MakingEvent::Done(done)) => match done {
                Err(error) => self.failed(
                    bound_record_error(error, "cannot remove bound session record"),
                ),
                Ok(_) => self.at(MakingStage::Ended),
            },
            _ => self,
        }
    }

    fn part(&self) -> (part: u8)
        ensures
            part == 0 <==> self@.stage.rank() < 15,
            part == 1 <==> 15 <= self@.stage.rank() < 25,
            part == 2 <==> 25 <= self@.stage.rank() < 30,
    {
        match self.stage {
            MakingStage::BindRootForWorktree | MakingStage::AddWorktree
            | MakingStage::OpenWorktree | MakingStage::Clone | MakingStage::ReadTree
            | MakingStage::Status | MakingStage::SyncCommon | MakingStage::SyncWorktree
            | MakingStage::SyncRoot | MakingStage::SyncSessions => 1,
            MakingStage::Revalidate | MakingStage::FinalRoot | MakingStage::BindRootForReady
            | MakingStage::Metadata | MakingStage::PersistReady => 2,
            MakingStage::UndoRead | MakingStage::UndoTree | MakingStage::UndoRecord
            | MakingStage::Ended => 3,
            _ => 0,
        }
    }

    /// Takes the driver's answer to the question that the making asks.
    pub fn materialize_session(self, event: MakingEvent, uid: u32) -> (next: Self)
        ensures
            next@ == self@.after(event, uid),
    {
        let part: u8 = self.part();
        if part == 0 {
            self.after_building(event, uid)
        } else if part == 1 {
            self.after_cloning(event, uid)
        } else if part == 2 {
            self.after_settling(event, uid)
        } else {
            self.after_undoing(event)
        }
    }

    /// What is to be done next.
    pub fn action(&self) -> (action: MakingAction)
        ensures
            action@ == self@.asks(),
    {
        let common = self.common_path();
        let worktree = self.worktree_path();
        let common = common.as_slice();
        let worktree = worktree.as_slice();
        match self.stage {
            MakingStage::PersistMaterializing | MakingStage::PersistReady => {
                MakingAction::Persist(self.next.copy())
            },
            MakingStage::BindRoot | MakingStage::BindRootForInit | MakingStage::BindRootForWorktree
            | MakingStage::BindRootForReady => MakingAction::Bind(
                crate::bytes::copy_bytes(self.root_path.as_slice()),
            ),
            MakingStage::BindTemplate => MakingAction::Bind(self.template_path()),
            MakingStage::BindCommon => MakingAction::Bind(self.common_path()),
            MakingStage::MakeTemplate => MakingAction::MakeTemplate,
            MakingStage::InitCommon => MakingAction::Run(
                init_private_common_command(
                    &self.authority,
                    common,
                    self.template_path().as_slice(),
                ),
            ),
            MakingStage::OpenCommon => MakingAction::OpenCommon,
            MakingStage::CheckTemplate => MakingAction::LookAtTemplate,
            MakingStage::RemoveTemplate => MakingAction::RemoveTemplate,
            MakingStage::WriteAlternate => {
                let mut line = self.objects_path();
                line.push(10);
                MakingAction::WriteAlternate(line)
            },
            MakingStage::SetFilemode => MakingAction::Run(
                configure_command(common, "core.filemode"),
            ),
            MakingStage::GetFilemode => MakingAction::Run(
                configured_command(common, "core.filemode"),
            ),
            MakingStage::SetSymlinks => MakingAction::Run(
                configure_command(common, "core.symlinks"),
            ),
            MakingStage::GetSymlinks => MakingAction::Run(
                configured_command(common, "core.symlinks"),
            ),
            MakingStage::AddWorktree => MakingAction::Run(
                add_linked_worktree_command(
                    common,
                    worktree,
                    self.target.as_slice(),
                    self.base.as_str(),
                ),
            ),
            MakingStage::OpenWorktree => MakingAction::OpenWorktree,
            MakingStage::Clone => MakingAction::Clone,
            MakingStage::ReadTree => MakingAction::Run(read_tree_command(worktree)),
            MakingStage::Status => MakingAction::Run(status_command(worktree)),
            MakingStage::SyncCommon => MakingAction::SyncCommon,
            MakingStage::SyncWorktree => MakingAction::SyncWorktree,
            MakingStage::SyncRoot => MakingAction::SyncRoot,
            MakingStage::SyncSessions => MakingAction::SyncSessions,
            MakingStage::Revalidate | MakingStage::UndoRead => MakingAction::ReadRecord,
            MakingStage::FinalRoot => MakingAction::LookAtRoot,
            MakingStage::Metadata => MakingAction::LookAtMetadata,
            MakingStage::UndoTree => MakingAction::RemoveTree,
            MakingStage::UndoRecord => MakingAction::RemoveRecord,
            MakingStage::Ended => MakingAction::Nothing,
        }
    }

    /// The path of the session, or why there is none, once nothing more is asked for.
    pub fn outcome(&self) -> (outcome: Option<Result<Vec<u8>, Error>>)
        ensures
            made(outcome) == if self@.stage is Ended {
                self@.outcome
            } else {
                None
            },
    {
        match self.stage {
            MakingStage::Ended => match &self.outcome {
                None => None,
                Some(Ok(path)) => Some(Ok(crate::bytes::copy_bytes(path.as_slice()))),
                Some(Err(error)) => Some(Err(error.copy())),
            },
            _ => None,
        }
    }
}

/// One stage further, or the same making; what was cloned is of the template, nothing is made but by
/// the last record, and nothing is removed but by a taking back.
pub open spec fn moves_on(before: MakingView, after: MakingView, uid: u32) -> bool {
    &&& after == before || after.stage.rank() > before.stage.rank()
    &&& after.template == before.template
    &&& before.is_sound(uid) ==> after.is_sound(uid)
    &&& after.has_made() ==> before.has_made() || before.stage is PersistReady
    &&& !(after.stage is UndoTree)
}

impl MakingView {
    pub open spec fn has_made(self) -> bool {
        self.outcome matches Some(Ok(_))
    }

    /// What was cloned is of the template, and it stands in a directory that is owned.
    pub open spec fn is_sound(self, uid: u32) -> bool {
        &&& self.receipt matches Some(receipt) ==> receipt.0 == self.template && is_owned_directory(
            receipt.1,
            uid,
        )
        &&& self.stage is PersistReady ==> self.next.payload is Ready
            && self.next.payload->Ready_worktree.0 == self.template
    }
}

proof fn lemma_abort_moves_on(making: MakingView, error: Failure, uid: u32)
    requires
        making.stage.rank() < 30,
    ensures
        moves_on(making, making.abort(error), uid),
{
    reveal(MakingView::abort);
}

proof fn lemma_step_moves_on(
    making: MakingView,
    checked: Option<Failure>,
    next: MakingStage,
    uid: u32,
)
    requires
        making.stage.rank() < 30,
        making.stage.rank() < next.rank() < 29,
    ensures
        moves_on(making, making.step(checked, next), uid),
{
    if checked is Some {
        lemma_abort_moves_on(making, checked->0, uid);
    }
}

#[verifier::spinoff_prover]
proof fn lemma_building_moves_on(making: MakingView, event: MakingEvent, uid: u32)
    requires
        making.stage.rank() < 15,
    ensures
        moves_on(making, making.after_building(event, uid), uid),
{
    reveal(MakingView::after_building);
    assert forall|error: Failure| moves_on(making, #[trigger] making.abort(error), uid) by {
        lemma_abort_moves_on(making, error, uid);
    }
    assert forall|checked: Option<Failure>, next: MakingStage|
        making.stage.rank() < next.rank() < 29 implies moves_on(
        making,
        #[trigger] making.step(checked, next),
        uid,
    ) by {
        lemma_step_moves_on(making, checked, next, uid);
    }
}

#[verifier::spinoff_prover]
proof fn lemma_cloning_moves_on(making: MakingView, event: MakingEvent, uid: u32)
    requires
        15 <= making.stage.rank() < 25,
    ensures
        moves_on(making, making.after_cloning(event, uid), uid),
{
    reveal(MakingView::after_cloning);
    assert forall|error: Failure| moves_on(making, #[trigger] making.abort(error), uid) by {
        lemma_abort_moves_on(making, error, uid);
    }
    assert forall|checked: Option<Failure>, next: MakingStage|
        making.stage.rank() < next.rank() < 29 implies moves_on(
        making,
        #[trigger] making.step(checked, next),
        uid,
    ) by {
        lemma_step_moves_on(making, checked, next, uid);
    }
}

#[verifier::spinoff_prover]
proof fn lemma_settling_moves_on(making: MakingView, event: MakingEvent, uid: u32)
    requires
        25 <= making.stage.rank() < 30,
    ensures
        moves_on(making, making.after_settling(event, uid), uid),
{
    reveal(MakingView::after_settling);
    assert forall|error: Failure| moves_on(making, #[trigger] making.abort(error), uid) by {
        lemma_abort_moves_on(making, error, uid);
    }
}

/// The making of a session only goes forward, and the record that says that the session is ready is
/// of a clone of its template.
pub proof fn law_making_goes_forward(making: MakingView, event: MakingEvent, uid: u32)
    requires
        making.is_sound(uid),
    ensures
        making.after(event, uid) == making || making.after(event, uid).stage.rank()
            > making.stage.rank(),
        making.after(event, uid).is_sound(uid),
        making.after(event, uid).template == making.template,
{
    reveal(MakingView::after_undoing);
    let rank = making.stage.rank();
    if rank < 15 {
        lemma_building_moves_on(making, event, uid);
    } else if rank < 25 {
        lemma_cloning_moves_on(making, event, uid);
    } else if rank < 30 {
        lemma_settling_moves_on(making, event, uid);
    }
}

/// A session is made only where its record says so: the path is given out with that answer alone.
pub proof fn law_made_sessions_are_recorded(making: MakingView, event: MakingEvent, uid: u32)
    requires
        !making.has_made(),
        making.after(event, uid).has_made(),
    ensures
        making.stage is PersistReady,
        event is Persisted && event->Persisted_0 is Ok,
        making.after(event, uid).outcome == Some(Ok::<Seq<u8>, Failure>(making.root_path)),
{
    let rank = making.stage.rank();
    if rank < 15 {
        lemma_building_moves_on(making, event, uid);
    } else if rank < 25 {
        lemma_cloning_moves_on(making, event, uid);
    } else if rank < 30 {
        lemma_settling_moves_on(making, event, uid);
        reveal(MakingView::after_settling);
        reveal(MakingView::abort);
    } else {
        reveal(MakingView::after_undoing);
    }
}

/// A session that cannot be made, and need not be kept, is taken back: its record is looked at, then
/// its tree is removed, then its record; and what is reported is why it could not be made.
pub proof fn law_failed_makings_are_taken_back(
    making: MakingView,
    error: Failure,
    read: Result<RecordCapability, Error>,
    uid: u32,
)
    requires
        !keeps_creating(error),
        basename_failure(utf8(making.root_name), "session root"@, "SESSION_CORRUPT"@) is None,
        revalidate_failure(read, making.capability) is None,
    ensures
        ({
            let undo = making.abort(error);
            let tree = undo.after(MakingEvent::Read(read), uid);
            let record = tree.after(MakingEvent::Done(Ok(())), uid);
            let ended = record.after(MakingEvent::Done(Ok(())), uid);
            &&& undo.asks() == MakingAsk::ReadRecord
            &&& tree.asks() == MakingAsk::RemoveTree
            &&& record.asks() == MakingAsk::RemoveRecord
            &&& ended.asks() == MakingAsk::Nothing
            &&& ended.outcome == Some(Err::<Seq<u8>, Failure>(error))
        }),
{
    reveal(MakingView::abort);
    reveal(MakingView::after_undoing);
}

/// A session that may still be needed is kept as it is: nothing of it is removed.
pub proof fn law_needed_makings_are_kept(making: MakingView, error: Failure)
    requires
        keeps_creating(error),
    ensures
        making.abort(error).asks() == MakingAsk::Nothing,
        making.abort(error).outcome == Some(Err::<Seq<u8>, Failure>(error)),
{
    reveal(MakingView::abort);
}

/// A tree is removed only by taking a session back, and only while its record is the one that was
/// written for it.
pub proof fn law_only_takings_back_remove(making: MakingView, event: MakingEvent, uid: u32)
    requires
        !(making.stage is UndoTree),
        making.after(event, uid).stage is UndoTree,
    ensures
        making.stage is UndoRead,
        event is Read && revalidate_failure(event->Read_0, making.capability) is None,
{
    let rank = making.stage.rank();
    if rank < 15 {
        lemma_building_moves_on(making, event, uid);
    } else if rank < 25 {
        lemma_cloning_moves_on(making, event, uid);
    } else if rank < 30 {
        lemma_settling_moves_on(making, event, uid);
    } else {
        reveal(MakingView::after_undoing);
    }
}

/// The template is cloned only into a directory that is owned, from the root that was sealed.
pub proof fn law_clones_are_well_prepared(making: MakingView, event: MakingEvent, uid: u32)
    requires
        making.after_cloning(event, uid) != making,
    ensures
        making.after_cloning(event, uid).stage is Clone ==> making.stage is OpenWorktree
            && event is WorktreeOpened && clone_failure(
            event->WorktreeOpened_worktree,
            event->WorktreeOpened_template,
            event->WorktreeOpened_root,
            making.template.root,
            uid,
        ) is None,
        making.after_cloning(event, uid).stage is ReadTree ==> making.stage is Clone
            && event is Cloned && event->Cloned_0 is Ok && receipt_failure(
            event->Cloned_0->Ok_0@,
            event->Cloned_1,
            making.template,
            uid,
        ) is None,
{
    reveal(MakingView::abort);
    reveal(MakingView::after_cloning);
}

} // verus!
