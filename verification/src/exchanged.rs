//! What becomes of a record that is written: where nobody else interferes it is replaced whole or not at
//! all, and an authority that is registered has its record.

use crate::authority::{AuthorityView, Identity};
use crate::bytes::utf8;
use crate::git::{fixed_assignments, AuditConfig};
use crate::record_txn::{RenameEvent, StageView, TxnAction, TxnEvent, TxnView};
use crate::registration::{RegisterAction, RegisterEvent, RegisterStageView, RegistrationView};
use vstd::prelude::*;

verus! {

/// The bytes of a record, and the file that holds them.
pub type Held = (Seq<u8>, Identity);

/// What stands under the two names of a record that is being written.
pub struct Names {
    pub record: Option<Held>,
    pub temporary: Option<Held>,
}

/// An answer that is true, of names that nobody else touches: what is read is what stands there, what is
/// moved, exchanged or removed is so afterwards, and what fails changes nothing. A move that was
/// interrupted may have been made or not.
pub open spec fn is_true(before: Names, action: TxnAction, event: TxnEvent, after: Names) -> bool {
    match (action, event) {
        (TxnAction::ReadFinal(_), TxnEvent::Read(Ok(read))) => after == before && before.record == Some(
            read@,
        ),
        (TxnAction::ReadTemporary(_), TxnEvent::Read(Ok(read))) => after == before
            && before.temporary == Some(read@),
        (TxnAction::RenameNew, TxnEvent::Renamed(RenameEvent::Done)) => before.record is None
            && is_moved(before, after),
        (TxnAction::RenameNew, TxnEvent::Renamed(RenameEvent::Interrupted(_))) => after == before || (
        before.record is None && is_moved(before, after)),
        (TxnAction::RenameNew, TxnEvent::Renamed(RenameEvent::Exists(_))) => after == before
            && before.record is Some,
        (TxnAction::Exchange, TxnEvent::Renamed(RenameEvent::Done)) => is_exchanged(before, after),
        (TxnAction::Exchange, TxnEvent::Renamed(RenameEvent::Interrupted(_))) => after == before
            || is_exchanged(before, after),
        (TxnAction::UnlinkTemporary(identity), TxnEvent::Unlinked(Ok(_))) => after == (Names {
            temporary: None,
            ..before
        }) && (before.temporary matches Some(held) && held.1 == identity),
        _ => after == before,
    }
}

pub open spec fn is_moved(before: Names, after: Names) -> bool {
    after.record == before.temporary && after.temporary is None
}

pub open spec fn is_exchanged(before: Names, after: Names) -> bool {
    after.record == before.temporary && after.temporary == before.record
}

/// A transaction that runs, and the names that it works on.
pub struct TxnRun {
    pub txn: TxnView,
    pub names: Names,
}

/// An answer, and the names as they stand behind it.
pub struct TxnStep {
    pub event: TxnEvent,
    pub names: Names,
}

impl TxnRun {
    /// A transaction to put these bytes in the place of what is expected there. Its temporary record is
    /// written.
    pub open spec fn start(new: Held, old: Option<Held>) -> TxnRun {
        TxnRun {
            txn: TxnView {
                identity: new.1,
                expected_old: old,
                bytes: new.0,
                armed: true,
                stage: StageView::Checking,
            },
            names: Names { record: old, temporary: Some(new) },
        }
    }

    pub open spec fn after(self, step: TxnStep) -> TxnRun {
        TxnRun { txn: self.txn.after(step.event), names: step.names }
    }

    pub open spec fn after_all(self, steps: Seq<TxnStep>) -> TxnRun
        decreases steps.len(),
    {
        if steps.len() == 0 {
            self
        } else {
            self.after_all(steps.drop_last()).after(steps.last())
        }
    }

    /// Every answer is true.
    pub open spec fn is_answered(self, steps: Seq<TxnStep>) -> bool
        decreases steps.len(),
    {
        steps.len() > 0 ==> {
            let before = self.after_all(steps.drop_last());
            &&& self.is_answered(steps.drop_last())
            &&& is_true(before.names, before.txn.asks(), steps.last().event, steps.last().names)
        }
    }

    spec fn holds(self, record: Option<Held>, temporary: Option<Held>) -> bool {
        self.names.record == record && self.names.temporary == temporary
    }

    spec fn accounts(self, new: Held, old: Option<Held>) -> bool {
        &&& self.txn.bytes == new.0 && self.txn.identity == new.1 && self.txn.expected_old == old
        &&& match self.txn.stage {
            StageView::Checking => self.txn.armed && self.holds(old, Some(new)),
            StageView::Renaming => self.txn.armed && old is None && self.holds(old, Some(new)),
            StageView::OldChecking | StageView::Exchanging => self.txn.armed && old is Some
                && self.holds(old, Some(new)),
            StageView::NewVerifying | StageView::NewSyncing | StageView::NewReverifying => self.holds(
                Some(new),
                None,
            ),
            StageView::Published
            | StageView::Displaced(_)
            | StageView::RollbackFinal
            | StageView::RollbackTemporary(_)
            | StageView::RollingBack
            | StageView::Unlinking => old is Some && self.holds(Some(new), old),
            StageView::ExchangeSyncing | StageView::ExchangeVerifying | StageView::Committed => {
                self.holds(Some(new), None)
            },
            StageView::RestoredFinal
            | StageView::RestoredTemporary(_)
            | StageView::CleanupUnlinking(_) => self.holds(old, Some(new)),
            StageView::CleanupSyncing(_) => self.holds(old, None),
            StageView::Failed(_) => self.names.record == old || self.names.record == Some(new),
        }
    }
}

proof fn lemma_txn_step(run: TxnRun, step: TxnStep, new: Held, old: Option<Held>)
    requires
        run.accounts(new, old),
        is_true(run.names, run.txn.asks(), step.event, step.names),
    ensures
        run.after(step).accounts(new, old),
{
}

proof fn lemma_txn_run(steps: Seq<TxnStep>, new: Held, old: Option<Held>)
    requires
        TxnRun::start(new, old).is_answered(steps),
    ensures
        TxnRun::start(new, old).after_all(steps).accounts(new, old),
    decreases steps.len(),
{
    if steps.len() > 0 {
        lemma_txn_run(steps.drop_last(), new, old);
        lemma_txn_step(
            TxnRun::start(new, old).after_all(steps.drop_last()),
            steps.last(),
            new,
            old,
        );
    }
}

/// Where nobody else touches the names of a record, a transaction that commits leaves the new record
/// under its name and nothing under the temporary one; and one that fails leaves the old record or the
/// new one, and never loses both.
pub proof fn law_records_are_replaced_whole(steps: Seq<TxnStep>, new: Held, old: Option<Held>)
    requires
        TxnRun::start(new, old).is_answered(steps),
    ensures
        ({
            let done = TxnRun::start(new, old).after_all(steps);
            &&& done.txn.stage is Committed ==> done.names.record == Some(new)
                && done.names.temporary is None
            &&& done.txn.stage is Failed ==> done.names.record == old || done.names.record == Some(new)
            &&& done.txn.stage is CleanupSyncing ==> done.names.record == old
                && done.names.temporary is None
        }),
{
    lemma_txn_run(steps, new, old);
}

/// What the answers to a registration have told.
pub struct Register {
    pub locked: bool,
    /// The authority was inspected under the lock and found unchanged.
    pub inspected: bool,
    /// The records were scanned behind that, and nothing was found wrong.
    pub scanned: bool,
    pub begun: bool,
    /// The authority was found unchanged once more, with the record written.
    pub inspected_again: bool,
    pub committed: bool,
    /// The record was read behind its commit and is of the authority.
    pub read: bool,
    pub home_synced: bool,
    pub revalidated: bool,
    /// The record was read once more behind all of that.
    pub read_again: bool,
}

impl Register {
    pub open spec fn blank() -> Register {
        Register {
            locked: false,
            inspected: false,
            scanned: false,
            begun: false,
            inspected_again: false,
            committed: false,
            read: false,
            home_synced: false,
            revalidated: false,
            read_again: false,
        }
    }

    pub open spec fn after(
        self,
        action: RegisterAction,
        event: RegisterEvent,
        authority: AuthorityView,
    ) -> Register {
        match (action, event) {
            (RegisterAction::LockRoot, RegisterEvent::Locked(Ok(_))) => Register {
                locked: true,
                ..self
            },
            (RegisterAction::Inspect, RegisterEvent::Inspected(Ok(found))) => {
                let same = authority.same_authority(found@);
                if self.begun {
                    Register { inspected_again: same, ..self }
                } else {
                    Register { inspected: same && self.locked, ..self }
                }
            },
            (RegisterAction::ScanRecords, RegisterEvent::Scanned(Ok(_))) => Register {
                scanned: self.inspected,
                ..self
            },
            (RegisterAction::BeginRecord, RegisterEvent::Begun(Ok(_))) => Register {
                begun: self.scanned,
                ..self
            },
            (RegisterAction::CommitRecord, RegisterEvent::Committed(Ok(_))) => Register {
                committed: self.inspected_again,
                ..self
            },
            (RegisterAction::ReadRecord, RegisterEvent::Read(Ok(record))) => {
                let same = record@.same_authority(authority);
                if self.revalidated {
                    Register { read_again: same, ..self }
                } else {
                    Register { read: same && self.committed, ..self }
                }
            },
            (RegisterAction::SyncHome, RegisterEvent::HomeSynced(Ok(_))) => Register {
                home_synced: self.read,
                ..self
            },
            (RegisterAction::RevalidateRoot, RegisterEvent::Revalidated(Ok(_))) => Register {
                revalidated: self.read,
                ..self
            },
            _ => self,
        }
    }
}

/// A registration that runs.
pub struct RegisterRun {
    pub registration: RegistrationView,
    pub seen: Register,
}

impl RegisterRun {
    pub open spec fn start(authority: AuthorityView, created: bool) -> RegisterRun {
        RegisterRun {
            registration: RegistrationView { created, ..RegistrationView::starting(authority) },
            seen: Register::blank(),
        }
    }

    pub open spec fn after(self, event: RegisterEvent) -> RegisterRun {
        RegisterRun {
            registration: self.registration.after(event),
            seen: self.seen.after(self.registration.asks(), event, self.registration.authority),
        }
    }

    pub open spec fn after_all(self, events: Seq<RegisterEvent>) -> RegisterRun
        decreases events.len(),
    {
        if events.len() == 0 {
            self
        } else {
            self.after_all(events.drop_last()).after(events.last())
        }
    }

    spec fn accounts(self, authority: AuthorityView, created: bool) -> bool {
        let seen = self.seen;
        let ready = seen.locked && seen.inspected;
        let written = ready && seen.scanned && seen.begun;
        let committed = written && seen.inspected_again && seen.committed;
        &&& self.registration.authority == authority
        &&& self.registration.created == created
        &&& match self.registration.stage {
            RegisterStageView::Locking => seen == Register::blank(),
            RegisterStageView::LockedProbing => seen.locked && !seen.begun && !seen.revalidated,
            RegisterStageView::Scanning => ready && !seen.begun && !seen.revalidated,
            RegisterStageView::Beginning => ready && seen.scanned && !seen.begun && !seen.revalidated,
            RegisterStageView::FinalProbing => written && !seen.revalidated,
            RegisterStageView::Committing => written && seen.inspected_again && !seen.revalidated,
            RegisterStageView::Rereading => committed && !seen.revalidated,
            RegisterStageView::HomeSyncing => committed && seen.read && created && !seen.revalidated,
            RegisterStageView::RootRevalidating => committed && seen.read && !seen.revalidated && (
            created ==> seen.home_synced),
            RegisterStageView::RereadingAgain => committed && seen.read && seen.revalidated && (
            created ==> seen.home_synced),
            RegisterStageView::Registered => committed && seen.read && seen.revalidated
                && seen.read_again && (created ==> seen.home_synced),
            _ => true,
        }
    }
}

proof fn lemma_register_run(authority: AuthorityView, created: bool, events: Seq<RegisterEvent>)
    ensures
        RegisterRun::start(authority, created).after_all(events).accounts(authority, created),
    decreases events.len(),
{
    if events.len() > 0 {
        lemma_register_run(authority, created, events.drop_last());
        lemma_register_step(
            RegisterRun::start(authority, created).after_all(events.drop_last()),
            events.last(),
            authority,
            created,
        );
    }
}

proof fn lemma_register_step(
    run: RegisterRun,
    event: RegisterEvent,
    authority: AuthorityView,
    created: bool,
)
    requires
        run.accounts(authority, created),
    ensures
        run.after(event).accounts(authority, created),
{
}

/// An authority is registered only step by step: the state was locked, the authority was found
/// unchanged, nothing among the records spoke against it, its record was written, the authority was
/// found unchanged again, the record was committed and read, the home directory was synced where the
/// state root is new, the root was found unchanged, and the record was read once more.
pub proof fn law_registered_authorities_are_recorded(
    authority: AuthorityView,
    created: bool,
    events: Seq<RegisterEvent>,
)
    ensures
        ({
            let done = RegisterRun::start(authority, created).after_all(events);
            done.registration.stage is Registered ==> {
                &&& done.seen.locked && done.seen.inspected && done.seen.scanned && done.seen.begun
                &&& done.seen.inspected_again && done.seen.committed && done.seen.read
                &&& created ==> done.seen.home_synced
                &&& done.seen.revalidated && done.seen.read_again
            }
        }),
{
    lemma_register_run(authority, created, events);
}

/// Every child of Git is told to take no optional locks, to do no maintenance, to ask for nothing, to
/// fetch nothing and to replace nothing, and to read neither the system's nor the user's configuration;
/// one that is isolated not even the system's attributes.
pub proof fn law_children_are_told_what_to_leave(audit: AuditConfig)
    ensures
        fixed_assignments(audit).contains((utf8("LC_ALL"@), utf8("C"@))),
        fixed_assignments(audit).contains((utf8("GIT_OPTIONAL_LOCKS"@), utf8("0"@))),
        fixed_assignments(audit).contains((utf8("GIT_MAINTENANCE_AUTO"@), utf8("0"@))),
        fixed_assignments(audit).contains((utf8("GIT_TERMINAL_PROMPT"@), utf8("0"@))),
        fixed_assignments(audit).contains((utf8("GIT_NO_LAZY_FETCH"@), utf8("1"@))),
        fixed_assignments(audit).contains((utf8("GIT_NO_REPLACE_OBJECTS"@), utf8("1"@))),
        fixed_assignments(audit).contains((utf8("GIT_CONFIG_NOSYSTEM"@), utf8("1"@))),
        fixed_assignments(audit).contains((utf8("GIT_CONFIG_GLOBAL"@), utf8("/dev/null"@))),
        audit == AuditConfig::Isolated ==> fixed_assignments(audit).contains(
            (utf8("GIT_ATTR_NOSYSTEM"@), utf8("1"@)),
        ),
{
    let told = fixed_assignments(audit);
    assert(told[0] == (utf8("LC_ALL"@), utf8("C"@)));
    assert(told[1] == (utf8("GIT_OPTIONAL_LOCKS"@), utf8("0"@)));
    assert(told[2] == (utf8("GIT_MAINTENANCE_AUTO"@), utf8("0"@)));
    assert(told[3] == (utf8("GIT_TERMINAL_PROMPT"@), utf8("0"@)));
    assert(told[4] == (utf8("GIT_NO_LAZY_FETCH"@), utf8("1"@)));
    assert(told[5] == (utf8("GIT_NO_REPLACE_OBJECTS"@), utf8("1"@)));
    assert(told[6] == (utf8("GIT_CONFIG_NOSYSTEM"@), utf8("1"@)));
    assert(told[7] == (utf8("GIT_CONFIG_GLOBAL"@), utf8("/dev/null"@)));
    if audit == AuditConfig::Isolated {
        assert(told[8] == (utf8("GIT_ATTR_NOSYSTEM"@), utf8("1"@)));
    }
}

} // verus!
