//! Registering an authority in an opened state root.

use crate::authority::{
    failure, record_name_text, Authority, AuthorityView, Error, Failure, Identity, Record,
};
use crate::bytes::{join2, utf8};
use crate::state_root::{
    entries_failure, final_collision_error, holds_record, law_added_record_is_held,
    law_recorded_authority_is_a_duplicate, RootEntry,
};
use vstd::prelude::*;

verus! {

/// What the driver is asked to do.
#[derive(Clone, Copy, Debug, PartialEq, Eq, Structural)]
pub enum RegisterAction {
    /// Lock the root and look at it again.
    LockRoot,
    /// Inspect the authority again.
    Inspect,
    ScanRecords,
    /// Write the record under a temporary name.
    BeginRecord,
    /// Give the written record up.
    AbortRecord,
    CommitRecord,
    /// Read the record under its final name.
    ReadRecord,
    SyncHome,
    RevalidateRoot,
    /// Remove the root that was made for this.
    CleanRoot,
    Nothing,
}

#[derive(Debug)]
pub enum RegisterEvent {
    Locked(Result<(), Error>),
    Inspected(Result<Authority, Error>),
    Scanned(Result<(), Error>),
    Begun(Result<(), Error>),
    /// What is left to report after the written record was given up for the pending error.
    Aborted(Error),
    Committed(Result<(), Error>),
    Read(Result<Record, Error>),
    HomeSynced(Result<(), String>),
    Revalidated(Result<(), Error>),
    Cleaned(Result<(), Error>),
}

#[derive(Debug)]
pub enum RegisterStage {
    Locking,
    LockedProbing,
    Scanning,
    Beginning,
    FinalProbing,
    Aborting(Error),
    Committing,
    Colliding,
    Rereading,
    HomeSyncing,
    RootRevalidating,
    RereadingAgain,
    RootCleaning(Error),
    Finished(Result<(), Error>),
}

pub enum RegisterStageView {
    Locking,
    LockedProbing,
    Scanning,
    Beginning,
    FinalProbing,
    Aborting(Failure),
    Committing,
    Colliding,
    Rereading,
    HomeSyncing,
    RootRevalidating,
    RereadingAgain,
    RootCleaning(Failure),
    Registered,
    Failed(Failure),
}

impl View for RegisterStage {
    type V = RegisterStageView;

    open spec fn view(&self) -> RegisterStageView {
        match self {
            RegisterStage::Locking => RegisterStageView::Locking,
            RegisterStage::LockedProbing => RegisterStageView::LockedProbing,
            RegisterStage::Scanning => RegisterStageView::Scanning,
            RegisterStage::Beginning => RegisterStageView::Beginning,
            RegisterStage::FinalProbing => RegisterStageView::FinalProbing,
            RegisterStage::Aborting(error) => RegisterStageView::Aborting(error@),
            RegisterStage::Committing => RegisterStageView::Committing,
            RegisterStage::Colliding => RegisterStageView::Colliding,
            RegisterStage::Rereading => RegisterStageView::Rereading,
            RegisterStage::HomeSyncing => RegisterStageView::HomeSyncing,
            RegisterStage::RootRevalidating => RegisterStageView::RootRevalidating,
            RegisterStage::RereadingAgain => RegisterStageView::RereadingAgain,
            RegisterStage::RootCleaning(error) => RegisterStageView::RootCleaning(error@),
            RegisterStage::Finished(Ok(_)) => RegisterStageView::Registered,
            RegisterStage::Finished(Err(error)) => RegisterStageView::Failed(error@),
        }
    }
}

/// A registration: the authority, whether the root was made for it, and whether the root has to stay.
#[derive(Debug)]
pub struct Registration {
    pub authority: Authority,
    pub created: bool,
    pub committed: bool,
    pub preserve_root: bool,
    pub stage: RegisterStage,
}

pub struct RegistrationView {
    pub authority: AuthorityView,
    pub created: bool,
    pub committed: bool,
    pub preserve_root: bool,
    pub stage: RegisterStageView,
}

impl View for Registration {
    type V = RegistrationView;

    open spec fn view(&self) -> RegistrationView {
        RegistrationView {
            authority: self.authority@,
            created: self.created,
            committed: self.committed,
            preserve_root: self.preserve_root,
            stage: self.stage@,
        }
    }
}

/// The errors after which the root holds something that must stay.
pub open spec fn preserves(failed: Failure) -> bool {
    ||| failed.0 == "AUTHORITY_DUPLICATE"@
    ||| failed.0 == "STATE_CORRUPT"@
    ||| failed.0 == "STATE_COMMITTED_RECOVERY_REQUIRED"@
    ||| failed.0 == "STATE_COMMITTED_UNSYNCED"@
}

fn must_preserve(error: &Error) -> (must: bool)
    ensures
        must == preserves(error@),
{
    error.has_code("AUTHORITY_DUPLICATE") || error.has_code("STATE_CORRUPT") || error.has_code(
        "STATE_COMMITTED_RECOVERY_REQUIRED",
    ) || error.has_code("STATE_COMMITTED_UNSYNCED")
}

pub open spec fn drifted(detail: Seq<char>) -> Failure {
    ("AUTHORITY_IDENTITY_DRIFT"@, detail)
}

pub open spec fn recovery_required(detail: Seq<char>) -> Failure {
    ("STATE_COMMITTED_RECOVERY_REQUIRED"@, detail)
}

impl RegistrationView {
    pub open spec fn at(self, stage: RegisterStageView) -> RegistrationView {
        RegistrationView { stage, ..self }
    }

    pub open spec fn preserved(self) -> RegistrationView {
        RegistrationView { preserve_root: true, ..self }
    }

    /// Ends in failure. A root that was made for this goes with it, unless something was committed
    /// or has to stay.
    pub open spec fn failing(self, failed: Failure) -> RegistrationView {
        if self.committed || self.preserve_root || !self.created {
            self.at(RegisterStageView::Failed(failed))
        } else {
            self.at(RegisterStageView::RootCleaning(failed))
        }
    }

    pub open spec fn commit_failed(self, failed: Failure) -> RegistrationView {
        if preserves(failed) {
            self.preserved().failing(failed)
        } else {
            self.failing(failed)
        }
    }

    /// After the record was in place, the home is synced where the root is new.
    pub open spec fn record_committed(self) -> RegistrationView {
        let done = RegistrationView { committed: true, ..self };
        if self.created {
            done.at(RegisterStageView::HomeSyncing)
        } else {
            done.at(RegisterStageView::RootRevalidating)
        }
    }

    pub open spec fn after(self, event: RegisterEvent) -> RegistrationView {
        match (self.stage, event) {
            (RegisterStageView::Locking, RegisterEvent::Locked(result)) => match result {
                Ok(_) => self.at(RegisterStageView::LockedProbing),
                Err(error) => self.failing(error@),
            },
            (RegisterStageView::LockedProbing, RegisterEvent::Inspected(probe)) => match probe {
                Err(error) => self.failing(error@),
                Ok(probe) => if self.authority.same_authority(probe@) {
                    self.at(RegisterStageView::Scanning)
                } else {
                    self.failing(drifted("authority changed before state transaction"@))
                },
            },
            (RegisterStageView::Scanning, RegisterEvent::Scanned(result)) => match result {
                Ok(_) => self.at(RegisterStageView::Beginning),
                Err(error) => self.failing(error@),
            },
            (RegisterStageView::Beginning, RegisterEvent::Begun(result)) => match result {
                Ok(_) => self.at(RegisterStageView::FinalProbing),
                Err(error) => self.failing(error@),
            },
            (RegisterStageView::FinalProbing, RegisterEvent::Inspected(probe)) => match probe {
                Err(error) => self.at(RegisterStageView::Aborting(error@)),
                Ok(probe) => if self.authority.same_authority(probe@) {
                    self.at(RegisterStageView::Committing)
                } else {
                    self.at(
                        RegisterStageView::Aborting(
                            drifted("authority changed before state commit"@),
                        ),
                    )
                },
            },
            (RegisterStageView::Aborting(_), RegisterEvent::Aborted(error)) => self.failing(error@),
            (RegisterStageView::Committing, RegisterEvent::Committed(result)) => match result {
                Ok(_) => self.at(RegisterStageView::Rereading),
                Err(error) => if error@.0 == "STATE_RECORD_EXISTS"@ {
                    self.at(RegisterStageView::Colliding)
                } else {
                    self.commit_failed(error@)
                },
            },
            (RegisterStageView::Colliding, RegisterEvent::Read(record)) => self.commit_failed(
                if record is Ok && record->Ok_0@.same_authority(self.authority) {
                    ("AUTHORITY_DUPLICATE"@, "authority already initialized"@)
                } else {
                    (
                        "STATE_CORRUPT"@,
                        "state record collision does not exactly match the authority"@,
                    )
                },
            ),
            (RegisterStageView::Rereading, RegisterEvent::Read(record)) => match record {
                Err(error) => self.failing(error@),
                Ok(record) => if record@.same_authority(self.authority) {
                    self.record_committed()
                } else {
                    self.preserved().failing(
                        recovery_required("state record binding changed after its final rename"@),
                    )
                },
            },
            (RegisterStageView::HomeSyncing, RegisterEvent::HomeSynced(result)) => match result {
                Ok(_) => self.at(RegisterStageView::RootRevalidating),
                Err(words) => self.preserved().failing(
                    (
                        "STATE_COMMITTED_UNSYNCED"@,
                        "cannot sync HOME after new state root commit"@ + ": "@ + words@,
                    ),
                ),
            },
            (RegisterStageView::RootRevalidating, RegisterEvent::Revalidated(result)) => {
                match result {
                    Ok(_) => self.at(RegisterStageView::RereadingAgain),
                    Err(_) => self.failing(
                        recovery_required("state root binding changed after record commit"@),
                    ),
                }
            },
            (RegisterStageView::RereadingAgain, RegisterEvent::Read(record)) => match record {
                Err(error) => self.failing(error@),
                Ok(record) => if record@.same_authority(self.authority) {
                    self.at(RegisterStageView::Registered)
                } else {
                    self.preserved().failing(
                        recovery_required("state record binding changed after parent sync"@),
                    )
                },
            },
            (RegisterStageView::RootCleaning(primary), RegisterEvent::Cleaned(result)) => {
                match result {
                    Ok(_) => self.at(RegisterStageView::Failed(primary)),
                    Err(error) => self.at(RegisterStageView::Failed(error@)),
                }
            },
            _ => self,
        }
    }

    pub open spec fn asks(self) -> RegisterAction {
        match self.stage {
            RegisterStageView::Locking => RegisterAction::LockRoot,
            RegisterStageView::LockedProbing | RegisterStageView::FinalProbing => {
                RegisterAction::Inspect
            },
            RegisterStageView::Scanning => RegisterAction::ScanRecords,
            RegisterStageView::Beginning => RegisterAction::BeginRecord,
            RegisterStageView::Aborting(_) => RegisterAction::AbortRecord,
            RegisterStageView::Committing => RegisterAction::CommitRecord,
            RegisterStageView::Colliding | RegisterStageView::Rereading
            | RegisterStageView::RereadingAgain => RegisterAction::ReadRecord,
            RegisterStageView::HomeSyncing => RegisterAction::SyncHome,
            RegisterStageView::RootRevalidating => RegisterAction::RevalidateRoot,
            RegisterStageView::RootCleaning(_) => RegisterAction::CleanRoot,
            RegisterStageView::Registered | RegisterStageView::Failed(_) => RegisterAction::Nothing,
        }
    }
}

impl Registration {
    pub fn start(authority: Authority, created: bool) -> (registration: Self)
        ensures
            registration@ == (RegistrationView {
                authority: authority@,
                created,
                committed: false,
                preserve_root: false,
                stage: RegisterStageView::Locking,
            }),
    {
        Registration {
            authority,
            created,
            committed: false,
            preserve_root: false,
            stage: RegisterStage::Locking,
        }
    }

    pub fn action(&self) -> (action: RegisterAction)
        ensures
            action == self@.asks(),
    {
        match &self.stage {
            RegisterStage::Locking => RegisterAction::LockRoot,
            RegisterStage::LockedProbing => RegisterAction::Inspect,
            RegisterStage::FinalProbing => RegisterAction::Inspect,
            RegisterStage::Scanning => RegisterAction::ScanRecords,
            RegisterStage::Beginning => RegisterAction::BeginRecord,
            RegisterStage::Aborting(_) => RegisterAction::AbortRecord,
            RegisterStage::Committing => RegisterAction::CommitRecord,
            RegisterStage::Colliding => RegisterAction::ReadRecord,
            RegisterStage::Rereading => RegisterAction::ReadRecord,
            RegisterStage::RereadingAgain => RegisterAction::ReadRecord,
            RegisterStage::HomeSyncing => RegisterAction::SyncHome,
            RegisterStage::RootRevalidating => RegisterAction::RevalidateRoot,
            RegisterStage::RootCleaning(_) => RegisterAction::CleanRoot,
            RegisterStage::Finished(_) => RegisterAction::Nothing,
        }
    }

    /// The error for which the written record is given up.
    pub fn abort_reason(&self) -> (reason: Option<Error>)
        ensures
            match self@.stage {
                RegisterStageView::Aborting(failed) => reason matches Some(error) && error@
                    == failed,
                _ => reason is None,
            },
    {
        match &self.stage {
            RegisterStage::Aborting(error) => Some(error.copy()),
            _ => None,
        }
    }

    fn fail(&mut self, error: Error)
        ensures
            final(self)@ == old(self)@.failing(error@),
    {
        if self.committed || self.preserve_root || !self.created {
            self.stage = RegisterStage::Finished(Err(error));
        } else {
            self.stage = RegisterStage::RootCleaning(error);
        }
    }

    fn fail_commit(&mut self, error: Error)
        ensures
            final(self)@ == old(self)@.commit_failed(error@),
    {
        if must_preserve(&error) {
            self.preserve_root = true;
        }
        self.fail(error);
    }

    /// Takes the driver's answer.
    pub fn answer(&mut self, event: RegisterEvent)
        ensures
            final(self)@ == old(self)@.after(event),
    {
        let mut stage = RegisterStage::Locking;
        std::mem::swap(&mut stage, &mut self.stage);
        match (stage, event) {
            (RegisterStage::Locking, RegisterEvent::Locked(result)) => match result {
                Ok(_) => {
                    self.stage = RegisterStage::LockedProbing;
                },
                Err(error) => {
                    self.fail(error);
                },
            },
            (RegisterStage::LockedProbing, RegisterEvent::Inspected(probe)) => match probe {
                Err(error) => {
                    self.fail(error);
                },
                Ok(probe) => if self.authority.matches(&probe) {
                    self.stage = RegisterStage::Scanning;
                } else {
                    self.fail(
                        Error::new(
                            "AUTHORITY_IDENTITY_DRIFT",
                            "authority changed before state transaction",
                        ),
                    );
                },
            },
            (RegisterStage::Scanning, RegisterEvent::Scanned(result)) => match result {
                Ok(_) => {
                    self.stage = RegisterStage::Beginning;
                },
                Err(error) => {
                    self.fail(error);
                },
            },
            (RegisterStage::Beginning, RegisterEvent::Begun(result)) => match result {
                Ok(_) => {
                    self.stage = RegisterStage::FinalProbing;
                },
                Err(error) => {
                    self.fail(error);
                },
            },
            (RegisterStage::FinalProbing, RegisterEvent::Inspected(probe)) => match probe {
                Err(error) => {
                    self.stage = RegisterStage::Aborting(error);
                },
                Ok(probe) => if self.authority.matches(&probe) {
                    self.stage = RegisterStage::Committing;
                } else {
                    self.stage =
                    RegisterStage::Aborting(
                        Error::new(
                            "AUTHORITY_IDENTITY_DRIFT",
                            "authority changed before state commit",
                        ),
                    );
                },
            },
            (RegisterStage::Aborting(_), RegisterEvent::Aborted(error)) => {
                self.fail(error);
            },
            (RegisterStage::Committing, RegisterEvent::Committed(result)) => match result {
                Ok(_) => {
                    self.stage = RegisterStage::Rereading;
                },
                Err(error) => if error.has_code("STATE_RECORD_EXISTS") {
                    self.stage = RegisterStage::Colliding;
                } else {
                    self.fail_commit(error);
                },
            },
            (RegisterStage::Colliding, RegisterEvent::Read(record)) => {
                let error = final_collision_error(record, &self.authority);
                self.fail_commit(error);
            },
            (RegisterStage::Rereading, RegisterEvent::Read(record)) => match record {
                Err(error) => {
                    self.fail(error);
                },
                Ok(record) => if record.exactly_matches(&self.authority) {
                    self.committed = true;
                    if self.created {
                        self.stage = RegisterStage::HomeSyncing;
                    } else {
                        self.stage = RegisterStage::RootRevalidating;
                    }
                } else {
                    self.preserve_root = true;
                    self.fail(
                        Error::new(
                            "STATE_COMMITTED_RECOVERY_REQUIRED",
                            "state record binding changed after its final rename",
                        ),
                    );
                },
            },
            (RegisterStage::HomeSyncing, RegisterEvent::HomeSynced(result)) => match result {
                Ok(_) => {
                    self.stage = RegisterStage::RootRevalidating;
                },
                Err(words) => {
                    self.preserve_root = true;
                    self.fail(
                        Error::io(
                            "STATE_COMMITTED_UNSYNCED",
                            "cannot sync HOME after new state root commit",
                            words.as_str(),
                        ),
                    );
                },
            },
            (RegisterStage::RootRevalidating, RegisterEvent::Revalidated(result)) => match result {
                Ok(_) => {
                    self.stage = RegisterStage::RereadingAgain;
                },
                Err(_) => {
                    self.fail(
                        Error::new(
                            "STATE_COMMITTED_RECOVERY_REQUIRED",
                            "state root binding changed after record commit",
                        ),
                    );
                },
            },
            (RegisterStage::RereadingAgain, RegisterEvent::Read(record)) => match record {
                Err(error) => {
                    self.fail(error);
                },
                Ok(record) => if record.exactly_matches(&self.authority) {
                    self.stage = RegisterStage::Finished(Ok(()));
                } else {
                    self.preserve_root = true;
                    self.fail(
                        Error::new(
                            "STATE_COMMITTED_RECOVERY_REQUIRED",
                            "state record binding changed after parent sync",
                        ),
                    );
                },
            },
            (RegisterStage::RootCleaning(primary), RegisterEvent::Cleaned(result)) => {
                self.stage =
                match result {
                    Ok(_) => RegisterStage::Finished(Err(primary)),
                    Err(error) => RegisterStage::Finished(Err(error)),
                };
            },
            (stage, _) => {
                self.stage = stage;
            },
        }
    }

    /// How the registration ended: with what is told, or with an error. `shown` is the path of the
    /// authority as it is shown.
    pub fn init(&self, shown: &str) -> (result: Option<Result<String, Error>>)
        ensures
            match self@.stage {
                RegisterStageView::Registered => result matches Some(Ok(text)) && text@
                    == "initialized bare authority "@ + shown@,
                RegisterStageView::Failed(failed) => result matches Some(Err(error)) && error@
                    == failed,
                _ => result is None,
            },
    {
        match &self.stage {
            RegisterStage::Finished(Ok(_)) => Some(Ok(join2("initialized bare authority ", shown))),
            RegisterStage::Finished(Err(error)) => Some(Err(error.copy())),
            _ => None,
        }
    }
}

/// An authority is registered only after its record was read back and registered exactly it, with
/// the record committed before.
pub proof fn law_registered_record_is_read_back(registration: RegistrationView, event: RegisterEvent)
    requires
        registration.stage !is Registered,
        registration.after(event).stage is Registered,
    ensures
        registration.stage is RereadingAgain,
        event matches RegisterEvent::Read(record) && record is Ok
            && record->Ok_0@.same_authority(registration.authority),
{
}

/// The record is written, and later committed, only while an inspection finds the authority unchanged.
pub proof fn law_commit_follows_an_unchanged_inspection(
    registration: RegistrationView,
    event: RegisterEvent,
)
    requires
        registration.asks() != RegisterAction::CommitRecord,
        registration.after(event).asks() == RegisterAction::CommitRecord,
    ensures
        registration.stage is FinalProbing,
        event matches RegisterEvent::Inspected(probe) && probe is Ok
            && registration.authority.same_authority(probe->Ok_0@),
{
}

/// The state root is cleaned away only where it was made for this registration, nothing was committed
/// and nothing has to stay.
pub proof fn law_committed_root_stays(registration: RegistrationView, event: RegisterEvent)
    requires
        registration.asks() != RegisterAction::CleanRoot,
        registration.after(event).asks() == RegisterAction::CleanRoot,
    ensures
        registration.after(event).created,
        !registration.after(event).committed,
        !registration.after(event).preserve_root,
{
}

/// Once something was committed, it stays so.
pub proof fn law_commit_is_not_forgotten(registration: RegistrationView, event: RegisterEvent)
    ensures
        registration.committed ==> registration.after(event).committed,
        registration.preserve_root ==> registration.after(event).preserve_root,
        registration.after(event).created == registration.created,
        registration.after(event).authority == registration.authority,
{
}

impl RegistrationView {
    /// A registration in a state root that was there before.
    pub open spec fn starting(authority: AuthorityView) -> RegistrationView {
        RegistrationView {
            authority,
            created: false,
            committed: false,
            preserve_root: false,
            stage: RegisterStageView::Locking,
        }
    }

    pub open spec fn after_all(self, events: Seq<RegisterEvent>) -> RegistrationView
        decreases events.len(),
    {
        if events.len() == 0 {
            self
        } else {
            self.after_all(events.drop_last()).after(events.last())
        }
    }

    /// It has asked for nothing but to look.
    pub open spec fn only_looks(self) -> bool {
        self.stage is Locking || self.stage is LockedProbing || self.stage is Scanning
            || self.stage is Failed
    }
}

/// Registering an authority whose record already stands in the state root changes nothing there: no
/// record is begun, committed or given up and the root is not removed, however the locking and the
/// inspections go, and the registration does not succeed.
pub proof fn law_registering_again_changes_nothing(
    authority: AuthorityView,
    entries: Seq<RootEntry>,
    place: int,
    root: Identity,
    uid: u32,
    events: Seq<RegisterEvent>,
)
    requires
        holds_record(entries, place, authority, root, uid),
        forall|i: int|
            0 <= i < events.len() ==> ((#[trigger] events[i]) matches RegisterEvent::Scanned(scanned)
                ==> failure(scanned) == entries_failure(entries, authority, root, uid)),
    ensures
        ({
            let asked = RegistrationView::starting(authority).after_all(events).asks();
            asked == RegisterAction::LockRoot || asked == RegisterAction::Inspect || asked
                == RegisterAction::ScanRecords || asked == RegisterAction::Nothing
        }),
        RegistrationView::starting(authority).after_all(events).stage !is Registered,
        RegistrationView::starting(authority).after_all(events).only_looks(),
        !RegistrationView::starting(authority).after_all(events).created,
    decreases events.len(),
{
    if events.len() > 0 {
        let front = events.drop_last();
        assert forall|i: int| 0 <= i < front.len() implies ((
        #[trigger] front[i]) matches RegisterEvent::Scanned(scanned) ==> failure(scanned)
            == entries_failure(entries, authority, root, uid)) by {
            assert(front[i] == events[i]);
        }
        law_registering_again_changes_nothing(authority, entries, place, root, uid, front);
        law_recorded_authority_is_a_duplicate(entries, place, authority, root, uid);
        assert(events.last() == events[events.len() - 1]);
    }
}

/// Registering an unchanged authority again is answered as a duplicate.
pub proof fn law_registering_again_is_refused(
    authority: AuthorityView,
    probe: Authority,
    entries: Seq<RootEntry>,
    place: int,
    root: Identity,
    uid: u32,
    scanned: Result<(), Error>,
)
    requires
        authority.same_authority(probe@),
        holds_record(entries, place, authority, root, uid),
        failure(scanned) == entries_failure(entries, authority, root, uid),
    ensures
        RegistrationView::starting(authority).after(RegisterEvent::Locked(Ok(()))).after(
            RegisterEvent::Inspected(Ok(probe)),
        ).after(RegisterEvent::Scanned(scanned)).stage == RegisterStageView::Failed(
            ("AUTHORITY_DUPLICATE"@, "authority already initialized"@),
        ),
{
    law_recorded_authority_is_a_duplicate(entries, place, authority, root, uid);
}

/// An authority that was registered, and registered again with neither it nor the state root changed
/// since, is refused as a duplicate: what the first scan found still stands, with the record that was
/// read back among it.
pub proof fn law_second_registration_is_a_duplicate(
    first: RegistrationView,
    read: Result<Record, Error>,
    before: Seq<RootEntry>,
    place: int,
    added: RootEntry,
    again: AuthorityView,
    probe: Authority,
    root: Identity,
    uid: u32,
    scanned: Result<(), Error>,
)
    requires
        first.stage !is Registered,
        first.after(RegisterEvent::Read(read)).stage is Registered,
        entries_failure(before, first.authority, root, uid) is None,
        0 <= place <= before.len(),
        added.record == read,
        added.name@ == utf8(record_name_text(read->Ok_0@.canonical)),
        first.authority.same_authority(again),
        again.same_authority(probe@),
        failure(scanned) == entries_failure(before.insert(place, added), again, root, uid),
    ensures
        RegistrationView::starting(again).after(RegisterEvent::Locked(Ok(()))).after(
            RegisterEvent::Inspected(Ok(probe)),
        ).after(RegisterEvent::Scanned(scanned)).stage == RegisterStageView::Failed(
            ("AUTHORITY_DUPLICATE"@, "authority already initialized"@),
        ),
        holds_record(before.insert(place, added), place, again, root, uid),
{
    law_registered_record_is_read_back(first, RegisterEvent::Read(read));
    law_added_record_is_held(before, place, added, first.authority, again, root, uid);
    law_registering_again_is_refused(
        again,
        probe,
        before.insert(place, added),
        place,
        root,
        uid,
        scanned,
    );
}

} // verus!
