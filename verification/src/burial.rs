//! Removing the session of a record that says it is to go: its directory is renamed, removed, and only
//! at the end forgotten.

use crate::authority::{failure, Error, Failure, Identity};
use crate::bytes::utf8;
use crate::inspection::first_of;
use crate::record_txn::{basename_failure, RenameEvent};
use crate::session::{
    bound_record_error, corrupt, cstring, needs_recovery, session_recovery, CapabilityView,
    RecordCapability, SessionPayload, SessionPayloadView,
};
use crate::session_roots::{
    acquire_lease, ensure_record_container, entry_failure, entry_identity_if_present,
    open_authorized_root, revalidate_failure, revalidate_record, standing, stands, AuthorizedSeen,
    ContainerSeen, Standing,
};
use crate::template_roots::{name_identity, LeaseEvent, LeaseStep, NameSeen};
use vstd::prelude::*;

verus! {

/// Where a burial stands.
#[derive(Debug)]
pub enum BurialStage {
    Locating,
    OpeningRoot,
    OpeningTombstone,
    Leasing,
    Revalidating,
    Promoting,
    Renaming,
    Syncing,
    Checking,
    RevalidatingAgain,
    Removing,
    /// Nothing stands under either name any more.
    RevalidatingGone,
    Unrecording,
    Buried,
    Failed(Error),
}

pub enum BurialStageView {
    Locating,
    OpeningRoot,
    OpeningTombstone,
    Leasing,
    Revalidating,
    Promoting,
    Renaming,
    Syncing,
    Checking,
    RevalidatingAgain,
    Removing,
    RevalidatingGone,
    Unrecording,
    Buried,
    Failed(Failure),
}

impl View for BurialStage {
    type V = BurialStageView;

    open spec fn view(&self) -> BurialStageView {
        match self {
            BurialStage::Locating => BurialStageView::Locating,
            BurialStage::OpeningRoot => BurialStageView::OpeningRoot,
            BurialStage::OpeningTombstone => BurialStageView::OpeningTombstone,
            BurialStage::Leasing => BurialStageView::Leasing,
            BurialStage::Revalidating => BurialStageView::Revalidating,
            BurialStage::Promoting => BurialStageView::Promoting,
            BurialStage::Renaming => BurialStageView::Renaming,
            BurialStage::Syncing => BurialStageView::Syncing,
            BurialStage::Checking => BurialStageView::Checking,
            BurialStage::RevalidatingAgain => BurialStageView::RevalidatingAgain,
            BurialStage::Removing => BurialStageView::Removing,
            BurialStage::RevalidatingGone => BurialStageView::RevalidatingGone,
            BurialStage::Unrecording => BurialStageView::Unrecording,
            BurialStage::Buried => BurialStageView::Buried,
            BurialStage::Failed(error) => BurialStageView::Failed(error@),
        }
    }
}

/// The burial of a session: the record that asks for it, the names and the node of its directory.
#[derive(Debug)]
pub struct Burial {
    pub expected: RecordCapability,
    pub root_name: String,
    pub tombstone_name: String,
    pub root_identity: Identity,
    pub stage: BurialStage,
}

pub struct BurialView {
    pub expected: CapabilityView,
    pub root_name: Seq<char>,
    pub tombstone_name: Seq<char>,
    pub root_identity: Identity,
    pub stage: BurialStageView,
}

impl View for Burial {
    type V = BurialView;

    open spec fn view(&self) -> BurialView {
        BurialView {
            expected: self.expected@,
            root_name: self.root_name@,
            tombstone_name: self.tombstone_name@,
            root_identity: self.root_identity,
            stage: self.stage@,
        }
    }
}

#[derive(Clone, Copy, Debug, PartialEq, Eq, Structural)]
pub enum BurialAction {
    /// Look at the container, and at both names.
    Locate,
    OpenRoot,
    OpenTombstone,
    /// Lease the directory that was opened, exclusively.
    Lease,
    ReadRecord,
    /// Look at both names.
    StatNames,
    /// Rename the directory to its tombstone, where nothing stands under that.
    Rename,
    SyncContainer,
    StatTombstone,
    /// Remove the tree that stands under the tombstone's name.
    RemoveTree,
    RemoveRecord,
    Nothing,
}

#[derive(Debug)]
pub enum BurialEvent {
    Located { container: ContainerSeen, root: NameSeen, tombstone: NameSeen },
    Opened(AuthorizedSeen),
    Lease(LeaseEvent),
    Read(Result<RecordCapability, Error>),
    Names { root: NameSeen, tombstone: NameSeen },
    Renamed(RenameEvent),
    Synced(Result<(), String>),
    Name(NameSeen),
    Removed(Result<(), Error>),
}

/// What becomes of a try to lease the directory of a session.
pub open spec fn leased(event: LeaseEvent) -> Option<Failure> {
    match event {
        LeaseEvent::Locked => None,
        LeaseEvent::WouldBlock(_) => Some(
            ("SESSION_BUSY"@, "session root is leased by an active command"@),
        ),
        LeaseEvent::Interrupted(words) => Some(
            ("SESSION_BUSY"@, "cannot acquire session lease"@ + ": "@ + words@),
        ),
        LeaseEvent::Failed(words) => Some(
            ("SESSION_BUSY"@, "cannot acquire session lease"@ + ": "@ + words@),
        ),
    }
}

pub fn lease(event: LeaseEvent) -> (done: Result<(), Error>)
    ensures
        failure(done) == leased(event),
{
    match acquire_lease(event, true) {
        LeaseStep::Leased => Ok(()),
        LeaseStep::Failed(error) => Err(error),
        LeaseStep::Again => Ok(()),
    }
}

impl BurialView {
    pub open spec fn at(self, stage: BurialStageView) -> BurialView {
        BurialView { stage, ..self }
    }

    pub open spec fn step(self, checked: Option<Failure>, next: BurialStageView) -> BurialView {
        match checked {
            Some(error) => self.at(BurialStageView::Failed(error)),
            None => self.at(next),
        }
    }

    pub open spec fn start(expected: CapabilityView) -> BurialView {
        match expected.record.payload {
            SessionPayloadView::Tombstoned { root_name, tombstone_name, root_identity } => {
                let burial = BurialView {
                    expected,
                    root_name,
                    tombstone_name,
                    root_identity,
                    stage: BurialStageView::Locating,
                };
                burial.step(
                    first_of(
                        basename_failure(utf8(root_name), "session root"@, "SESSION_CORRUPT"@),
                        basename_failure(
                            utf8(tombstone_name),
                            "session tombstone"@,
                            "SESSION_CORRUPT"@,
                        ),
                    ),
                    BurialStageView::Locating,
                )
            },
            _ => BurialView {
                expected,
                root_name: Seq::empty(),
                tombstone_name: Seq::empty(),
                root_identity: expected.binding.1,
                stage: BurialStageView::Failed(corrupt("session record is not TOMBSTONED"@)),
            },
        }
    }

    pub open spec fn located(
        self,
        container: ContainerSeen,
        root: NameSeen,
        tombstone: NameSeen,
        uid: u32,
    ) -> BurialView {
        let f = container.container_failure(self.expected.record, uid);
        let f = first_of(f, entry_failure(root));
        let f = first_of(f, entry_failure(tombstone));
        match f {
            Some(error) => self.at(BurialStageView::Failed(error)),
            None => match standing(
                name_identity(root),
                name_identity(tombstone),
                self.root_identity,
            ) {
                Standing::Root => self.at(BurialStageView::OpeningRoot),
                Standing::Tombstone => self.at(BurialStageView::OpeningTombstone),
                Standing::Gone => self.at(BurialStageView::RevalidatingGone),
                Standing::Unclear => self.at(
                    BurialStageView::Failed(
                        needs_recovery("tombstone root bindings are ambiguous or changed"@),
                    ),
                ),
            },
        }
    }

    pub open spec fn promoted(self, root: NameSeen, tombstone: NameSeen) -> BurialView {
        match first_of(entry_failure(root), entry_failure(tombstone)) {
            Some(error) => self.at(BurialStageView::Failed(error)),
            None => match standing(
                name_identity(root),
                name_identity(tombstone),
                self.root_identity,
            ) {
                Standing::Root => self.at(BurialStageView::Renaming),
                Standing::Tombstone => self.at(BurialStageView::RevalidatingAgain),
                _ => self.at(
                    BurialStageView::Failed(
                        needs_recovery(
                            "session root and tombstone names are not safely recoverable"@,
                        ),
                    ),
                ),
            },
        }
    }

    pub open spec fn renamed(self, event: RenameEvent) -> BurialView {
        match event {
            RenameEvent::Done => self.at(BurialStageView::Syncing),
            RenameEvent::Interrupted(words) => self.at(
                BurialStageView::Failed(
                    needs_recovery(
                        "session tombstone rename has an unknown result"@ + ": "@ + words@,
                    ),
                ),
            ),
            RenameEvent::Exists(words) | RenameEvent::Failed(words) => self.at(
                BurialStageView::Failed(
                    needs_recovery(
                        "cannot rename session root into its tombstone namespace"@ + ": "@ + words@,
                    ),
                ),
            ),
        }
    }

    pub open spec fn checked(self, seen: NameSeen) -> BurialView {
        match entry_failure(seen) {
            Some(error) => self.at(BurialStageView::Failed(error)),
            None => if name_identity(seen) matches Some(identity) && identity.is_same_node(
                self.root_identity,
            ) {
                self.at(BurialStageView::RevalidatingAgain)
            } else {
                self.at(
                    BurialStageView::Failed(
                        needs_recovery("session tombstone binding changed after rename"@),
                    ),
                )
            },
        }
    }

    /// The record is still the one that asked for the burial.
    pub open spec fn reread(self, read: Result<RecordCapability, Error>, next: BurialStageView) -> BurialView {
        match revalidate_failure(read, self.expected) {
            Some(error) => self.at(BurialStageView::Failed(error)),
            None => if self.stage is Revalidating && read->Ok_0@.record != self.expected.record {
                self.at(
                    BurialStageView::Failed(
                        needs_recovery("tombstone record changed while its lease was held"@),
                    ),
                )
            } else {
                self.at(next)
            },
        }
    }

    /// The burial after the driver's answer. An answer to another question changes nothing.
    pub open spec fn after(self, event: BurialEvent, uid: u32) -> BurialView {
        match (self.stage, event) {
            (
                BurialStageView::Locating,
                BurialEvent::Located { container, root, tombstone },
            ) => self.located(container, root, tombstone, uid),
            (BurialStageView::OpeningRoot, BurialEvent::Opened(seen)) => self.step(
                seen.root_failure(self.expected.record, self.root_name, self.root_identity, uid),
                BurialStageView::Leasing,
            ),
            (BurialStageView::OpeningTombstone, BurialEvent::Opened(seen)) => self.step(
                seen.root_failure(
                    self.expected.record,
                    self.tombstone_name,
                    self.root_identity,
                    uid,
                ),
                BurialStageView::Leasing,
            ),
            (BurialStageView::Leasing, BurialEvent::Lease(event)) => self.step(
                leased(event),
                BurialStageView::Revalidating,
            ),
            (BurialStageView::Revalidating, BurialEvent::Read(read)) => self.reread(
                read,
                BurialStageView::Promoting,
            ),
            (BurialStageView::Promoting, BurialEvent::Names { root, tombstone }) => self.promoted(
                root,
                tombstone,
            ),
            (BurialStageView::Renaming, BurialEvent::Renamed(event)) => self.renamed(event),
            (BurialStageView::Syncing, BurialEvent::Synced(synced)) => match synced {
                Err(words) => self.at(
                    BurialStageView::Failed(
                        needs_recovery(
                            "cannot sync session container after tombstone rename"@ + ": "@ + words@,
                        ),
                    ),
                ),
                Ok(_) => self.at(BurialStageView::Checking),
            },
            (BurialStageView::Checking, BurialEvent::Name(seen)) => self.checked(seen),
            (BurialStageView::RevalidatingAgain, BurialEvent::Read(read)) => self.reread(
                read,
                BurialStageView::Removing,
            ),
            (BurialStageView::Removing, BurialEvent::Removed(removed)) => self.step(
                failure(removed),
                BurialStageView::Unrecording,
            ),
            (BurialStageView::RevalidatingGone, BurialEvent::Read(read)) => self.reread(
                read,
                BurialStageView::Unrecording,
            ),
            (BurialStageView::Unrecording, BurialEvent::Removed(removed)) => match removed {
                Err(error) => self.at(
                    BurialStageView::Failed(
                        needs_recovery("cannot remove bound session record"@ + ": "@ + error@.1),
                    ),
                ),
                Ok(_) => self.at(BurialStageView::Buried),
            },
            _ => self,
        }
    }

    pub open spec fn asks(self) -> BurialAction {
        match self.stage {
            BurialStageView::Locating => BurialAction::Locate,
            BurialStageView::OpeningRoot => BurialAction::OpenRoot,
            BurialStageView::OpeningTombstone => BurialAction::OpenTombstone,
            BurialStageView::Leasing => BurialAction::Lease,
            BurialStageView::Revalidating => BurialAction::ReadRecord,
            BurialStageView::Promoting => BurialAction::StatNames,
            BurialStageView::Renaming => BurialAction::Rename,
            BurialStageView::Syncing => BurialAction::SyncContainer,
            BurialStageView::Checking => BurialAction::StatTombstone,
            BurialStageView::RevalidatingAgain => BurialAction::ReadRecord,
            BurialStageView::Removing => BurialAction::RemoveTree,
            BurialStageView::RevalidatingGone => BurialAction::ReadRecord,
            BurialStageView::Unrecording => BurialAction::RemoveRecord,
            BurialStageView::Buried => BurialAction::Nothing,
            BurialStageView::Failed(_) => BurialAction::Nothing,
        }
    }
}

impl Burial {
    pub fn start(expected: RecordCapability) -> (burial: Self)
        ensures
            burial@ == BurialView::start(expected@),
    {
        let identity = expected.binding.identity;
        match &expected.record.payload {
            SessionPayload::Tombstoned { root_name, tombstone_name, root_identity } => {
                let root_name = root_name.clone();
                let tombstone_name = tombstone_name.clone();
                let root_identity: Identity = *root_identity;
                let root = cstring(root_name.as_str().as_bytes(), "session root");
                let tombstone = cstring(tombstone_name.as_str().as_bytes(), "session tombstone");
                let stage = match root {
                    Err(error) => BurialStage::Failed(error),
                    Ok(_) => match tombstone {
                        Err(error) => BurialStage::Failed(error),
                        Ok(_) => BurialStage::Locating,
                    },
                };
                Burial { expected, root_name, tombstone_name, root_identity, stage }
            },
            _ => {
                let root_name = String::new();
                let tombstone_name = String::new();
                proof {
                    assert(root_name@ =~= Seq::<char>::empty());
                    assert(tombstone_name@ =~= Seq::<char>::empty());
                }
                Burial {
                    expected,
                    root_name,
                    tombstone_name,
                    root_identity: identity,
                    stage: BurialStage::Failed(
                        Error::new("SESSION_CORRUPT", "session record is not TOMBSTONED"),
                    ),
                }
            },
        }
    }

    fn at(self, stage: BurialStage) -> (next: Self)
        ensures
            next@ == self@.at(stage@),
    {
        Burial { stage, ..self }
    }

    fn failed(self, error: Error) -> (next: Self)
        ensures
            next@ == self@.at(BurialStageView::Failed(error@)),
    {
        Burial { stage: BurialStage::Failed(error), ..self }
    }

    fn step(self, checked: Result<(), Error>, next: BurialStage) -> (after: Self)
        ensures
            after@ == self@.step(failure(checked), next@),
    {
        match checked {
            Err(error) => self.failed(error),
            Ok(_) => self.at(next),
        }
    }

    fn located(self, container: ContainerSeen, root: NameSeen, tombstone: NameSeen, uid: u32) -> (next:
        Self)
        ensures
            next@ == self@.located(container, root, tombstone, uid),
    {
        match ensure_record_container(container, &self.expected.record, uid) {
            Err(error) => {
                return self.failed(error);
            },
            Ok(_) => {},
        }
        let root = match entry_identity_if_present(root) {
            Err(error) => {
                return self.failed(error);
            },
            Ok(root) => root,
        };
        let tombstone = match entry_identity_if_present(tombstone) {
            Err(error) => {
                return self.failed(error);
            },
            Ok(tombstone) => tombstone,
        };
        match stands(root, tombstone, self.root_identity) {
            Standing::Root => self.at(BurialStage::OpeningRoot),
            Standing::Tombstone => self.at(BurialStage::OpeningTombstone),
            Standing::Gone => self.at(BurialStage::RevalidatingGone),
            Standing::Unclear => self.failed(
                session_recovery("tombstone root bindings are ambiguous or changed"),
            ),
        }
    }

    fn promote_tombstone(self, root: NameSeen, tombstone: NameSeen) -> (next: Self)
        ensures
            next@ == self@.promoted(root, tombstone),
    {
        let root = match entry_identity_if_present(root) {
            Err(error) => {
                return self.failed(error);
            },
            Ok(root) => root,
        };
        let tombstone = match entry_identity_if_present(tombstone) {
            Err(error) => {
                return self.failed(error);
            },
            Ok(tombstone) => tombstone,
        };
        match stands(root, tombstone, self.root_identity) {
            Standing::Root => self.at(BurialStage::Renaming),
            Standing::Tombstone => self.at(BurialStage::RevalidatingAgain),
            _ => self.failed(
                session_recovery("session root and tombstone names are not safely recoverable"),
            ),
        }
    }

    fn renamed(self, event: RenameEvent) -> (next: Self)
        ensures
            next@ == self@.renamed(event),
    {
        match event {
            RenameEvent::Done => self.at(BurialStage::Syncing),
            RenameEvent::Interrupted(words) => self.failed(
                Error::io(
                    "SESSION_RECOVERY_REQUIRED",
                    "session tombstone rename has an unknown result",
                    words.as_str(),
                ),
            ),
            RenameEvent::Exists(words) | RenameEvent::Failed(words) => self.failed(
                Error::io(
                    "SESSION_RECOVERY_REQUIRED",
                    "cannot rename session root into its tombstone namespace",
                    words.as_str(),
                ),
            ),
        }
    }

    fn checked(self, seen: NameSeen) -> (next: Self)
        ensures
            next@ == self@.checked(seen),
    {
        match entry_identity_if_present(seen) {
            Err(error) => self.failed(error),
            Ok(found) => {
                let same: bool = match found {
                    Some(identity) => identity.same_node(self.root_identity),
                    None => false,
                };
                if same {
                    self.at(BurialStage::RevalidatingAgain)
                } else {
                    self.failed(session_recovery("session tombstone binding changed after rename"))
                }
            },
        }
    }

    fn reread(self, read: Result<RecordCapability, Error>, next: BurialStage) -> (after: Self)
        ensures
            after@ == self@.reread(read, next@),
    {
        match revalidate_record(read, &self.expected) {
            Err(error) => self.failed(error),
            Ok(current) => {
                let leased: bool = match &self.stage {
                    BurialStage::Revalidating => true,
                    _ => false,
                };
                if leased && !current.record.same(&self.expected.record) {
                    return self.failed(
                        session_recovery("tombstone record changed while its lease was held"),
                    );
                }
                self.at(next)
            },
        }
    }

    /// Takes the driver's answer to the question that the burial asks.
    pub fn complete_tombstone(self, event: BurialEvent, uid: u32) -> (next: Self)
        ensures
            next@ == self@.after(event, uid),
    {
        match (&self.stage, event) {
            (BurialStage::Locating, BurialEvent::Located { container, root, tombstone }) => {
                self.located(container, root, tombstone, uid)
            },
            (BurialStage::OpeningRoot, BurialEvent::Opened(seen)) => {
                let bound = open_authorized_root(
                    seen,
                    &self.expected.record,
                    self.root_name.as_str(),
                    self.root_identity,
                    uid,
                );
                self.step(bound, BurialStage::Leasing)
            },
            (BurialStage::OpeningTombstone, BurialEvent::Opened(seen)) => {
                let bound = open_authorized_root(
                    seen,
                    &self.expected.record,
                    self.tombstone_name.as_str(),
                    self.root_identity,
                    uid,
                );
                self.step(bound, BurialStage::Leasing)
            },
            (BurialStage::Leasing, BurialEvent::Lease(event)) => self.step(
                lease(event),
                BurialStage::Revalidating,
            ),
            (BurialStage::Revalidating, BurialEvent::Read(read)) => self.reread(
                read,
                BurialStage::Promoting,
            ),
            (BurialStage::Promoting, BurialEvent::Names { root, tombstone }) => {
                self.promote_tombstone(root, tombstone)
            },
            (BurialStage::Renaming, BurialEvent::Renamed(event)) => self.renamed(event),
            (BurialStage::Syncing, BurialEvent::Synced(synced)) => match synced {
                Err(words) => self.failed(
                    Error::io(
                        "SESSION_RECOVERY_REQUIRED",
                        "cannot sync session container after tombstone rename",
                        words.as_str(),
                    ),
                ),
                Ok(_) => self.at(BurialStage::Checking),
            },
            (BurialStage::Checking, BurialEvent::Name(seen)) => self.checked(seen),
            (BurialStage::RevalidatingAgain, BurialEvent::Read(read)) => self.reread(
                read,
                BurialStage::Removing,
            ),
            (BurialStage::Removing, BurialEvent::Removed(removed)) => self.step(
                removed,
                BurialStage::Unrecording,
            ),
            (BurialStage::RevalidatingGone, BurialEvent::Read(read)) => self.reread(
                read,
                BurialStage::Unrecording,
            ),
            (BurialStage::Unrecording, BurialEvent::Removed(removed)) => match removed {
                Err(error) => self.failed(
                    bound_record_error(error, "cannot remove bound session record"),
                ),
                Ok(_) => self.at(BurialStage::Buried),
            },
            _ => self,
        }
    }

    /// What is to be done next.
    pub fn action(&self) -> (action: BurialAction)
        ensures
            action == self@.asks(),
    {
        match &self.stage {
            BurialStage::Locating => BurialAction::Locate,
            BurialStage::OpeningRoot => BurialAction::OpenRoot,
            BurialStage::OpeningTombstone => BurialAction::OpenTombstone,
            BurialStage::Leasing => BurialAction::Lease,
            BurialStage::Revalidating => BurialAction::ReadRecord,
            BurialStage::Promoting => BurialAction::StatNames,
            BurialStage::Renaming => BurialAction::Rename,
            BurialStage::Syncing => BurialAction::SyncContainer,
            BurialStage::Checking => BurialAction::StatTombstone,
            BurialStage::RevalidatingAgain => BurialAction::ReadRecord,
            BurialStage::Removing => BurialAction::RemoveTree,
            BurialStage::RevalidatingGone => BurialAction::ReadRecord,
            BurialStage::Unrecording => BurialAction::RemoveRecord,
            BurialStage::Buried => BurialAction::Nothing,
            BurialStage::Failed(_) => BurialAction::Nothing,
        }
    }

    /// What became of the burial, once nothing more is asked for.
    pub fn outcome(&self) -> (outcome: Option<Result<(), Error>>)
        ensures
            match self@.stage {
                BurialStageView::Buried => outcome == Some(Ok::<(), Error>(())),
                BurialStageView::Failed(failed) => outcome matches Some(Err(error)) && error@
                    == failed,
                _ => outcome is None,
            },
    {
        match &self.stage {
            BurialStage::Buried => Some(Ok(())),
            BurialStage::Failed(error) => Some(Err(error.copy())),
            _ => None,
        }
    }
}

impl BurialStageView {
    /// The order of the stages.
    pub open spec fn rank(self) -> int {
        match self {
            BurialStageView::Locating => 0,
            BurialStageView::OpeningRoot => 1,
            BurialStageView::OpeningTombstone => 1,
            BurialStageView::Leasing => 2,
            BurialStageView::Revalidating => 3,
            BurialStageView::Promoting => 4,
            BurialStageView::Renaming => 5,
            BurialStageView::Syncing => 6,
            BurialStageView::Checking => 7,
            BurialStageView::RevalidatingAgain => 8,
            BurialStageView::Removing => 9,
            BurialStageView::RevalidatingGone => 9,
            BurialStageView::Unrecording => 10,
            BurialStageView::Buried => 11,
            BurialStageView::Failed(_) => 12,
        }
    }
}

/// A burial only goes forward, and it never touches what it was started for.
pub proof fn law_burial_goes_forward(burial: BurialView, event: BurialEvent, uid: u32)
    ensures
        burial.after(event, uid) == burial || burial.after(event, uid).stage.rank()
            > burial.stage.rank(),
        burial.after(event, uid).expected == burial.expected,
        burial.after(event, uid).root_identity == burial.root_identity,
        burial.after(event, uid).tombstone_name == burial.tombstone_name,
{
}

/// A tree is removed only under the lease of its directory, which is the recorded one, with the record
/// unchanged, and only where that directory stands under the tombstone's name.
pub proof fn law_only_leased_tombstones_are_removed(burial: BurialView, event: BurialEvent, uid: u32)
    requires
        burial.after(event, uid) != burial,
    ensures
        ({
            let next = burial.after(event, uid).stage;
            &&& next is Removing ==> burial.stage is RevalidatingAgain && event is Read
                && revalidate_failure(event->Read_0, burial.expected) is None
            &&& next is RevalidatingAgain ==> {
                ||| burial.stage is Promoting && event is Names && standing(
                    name_identity(event->Names_root),
                    name_identity(event->Names_tombstone),
                    burial.root_identity,
                ) is Tombstone
                ||| burial.stage is Checking && event is Name && name_identity(
                    event->Name_0,
                ) is Some && name_identity(event->Name_0)->0.is_same_node(burial.root_identity)
            }
            &&& next is Promoting ==> burial.stage is Revalidating && event is Read
                && revalidate_failure(event->Read_0, burial.expected) is None
                && event->Read_0->Ok_0@.record == burial.expected.record
            &&& next is Revalidating ==> burial.stage is Leasing && event
                == BurialEvent::Lease(LeaseEvent::Locked)
            &&& next is Leasing ==> (burial.stage is OpeningRoot || burial.stage
                is OpeningTombstone) && event is Opened
        }),
{
}

/// A record is removed only once its tree is gone: removed, or found under neither name.
pub proof fn law_records_outlive_their_trees(burial: BurialView, event: BurialEvent, uid: u32)
    requires
        burial.after(event, uid) != burial,
        burial.after(event, uid).stage is Unrecording,
    ensures
        burial.stage is Removing && event is Removed && event->Removed_0 is Ok || burial.stage
            is RevalidatingGone,
{
}

} // verus!
