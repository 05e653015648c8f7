//! Removing a session: what has to hold before it is marked to go, with and without force.

use crate::authority::{failure, Error, Failure, Identity};
use crate::burial::{lease, leased};
use crate::discard::{ensure_discard_safe, DiscardSeen};
use crate::session::{
    bound_record_error, ensure_publish_idle, idle_failure, needs_recovery, session_recovery, CapabilityView,
    RecordCapability, SessionPayload, SessionPayloadView, SessionRecord, SessionView,
};
use crate::session_roots::{
    ensure_record_container, entry_failure, open_authorized_root, open_payload_root, removable,
    revalidate_failure, revalidate_ready_lease, revalidate_record, root_or_tombstone_present,
    AuthorizedSeen, ContainerSeen, LeasedSeen, ReadyBinding, ReadyView,
};
use crate::template_roots::{name_identity, LeaseEvent, NameSeen};
use vstd::prelude::*;

verus! {

/// Where a removal stands.
#[derive(Debug)]
pub enum Remove {
    Finding,
    /// There is no record: nothing may stand under the session's names either.
    AbsentNames,
    Loading(RecordCapability),
    LeasingReady(RecordCapability, ReadyBinding),
    RevalidatingReady(RecordCapability, ReadyBinding),
    Judging(RecordCapability, ReadyBinding),
    OpeningPayload(RecordCapability),
    LeasingPayload(RecordCapability),
    RevalidatingPayload(RecordCapability),
    Persisting(RecordCapability),
    PreparedNames(RecordCapability),
    PreparedContainer(RecordCapability),
    Unrecording(RecordCapability),
    Burying(RecordCapability),
    Removed,
    Failed(Error),
}

pub enum RemoveView {
    Finding,
    AbsentNames,
    Loading(CapabilityView),
    LeasingReady(CapabilityView, ReadyView),
    RevalidatingReady(CapabilityView, ReadyView),
    Judging(CapabilityView, ReadyView),
    OpeningPayload(CapabilityView),
    LeasingPayload(CapabilityView),
    RevalidatingPayload(CapabilityView),
    Persisting(CapabilityView),
    PreparedNames(CapabilityView),
    PreparedContainer(CapabilityView),
    Unrecording(CapabilityView),
    Burying(CapabilityView),
    Removed,
    Failed(Failure),
}

impl View for Remove {
    type V = RemoveView;

    open spec fn view(&self) -> RemoveView {
        match self {
            Remove::Finding => RemoveView::Finding,
            Remove::AbsentNames => RemoveView::AbsentNames,
            Remove::Loading(record) => RemoveView::Loading(record@),
            Remove::LeasingReady(record, ready) => RemoveView::LeasingReady(record@, ready@),
            Remove::RevalidatingReady(record, ready) => RemoveView::RevalidatingReady(
                record@,
                ready@,
            ),
            Remove::Judging(record, ready) => RemoveView::Judging(record@, ready@),
            Remove::OpeningPayload(record) => RemoveView::OpeningPayload(record@),
            Remove::LeasingPayload(record) => RemoveView::LeasingPayload(record@),
            Remove::RevalidatingPayload(record) => RemoveView::RevalidatingPayload(record@),
            Remove::Persisting(record) => RemoveView::Persisting(record@),
            Remove::PreparedNames(record) => RemoveView::PreparedNames(record@),
            Remove::PreparedContainer(record) => RemoveView::PreparedContainer(record@),
            Remove::Unrecording(record) => RemoveView::Unrecording(record@),
            Remove::Burying(record) => RemoveView::Burying(record@),
            Remove::Removed => RemoveView::Removed,
            Remove::Failed(error) => RemoveView::Failed(error@),
        }
    }
}

#[derive(Clone, Copy, Debug, PartialEq, Eq, Structural)]
pub enum RemoveAction {
    /// Look for the record of the session.
    FindRecord,
    /// Look at both names of the session.
    StatNames,
    LoadReady,
    /// Open the directory that the record names.
    OpenPayload,
    /// Lease the directory that was opened, exclusively.
    Lease,
    /// Look at the session once more, under its lease.
    RevalidateReady,
    ReadRecord,
    /// Look for what would be lost.
    JudgeDiscard,
    /// Replace the record by one that says that the session is to go.
    Persist,
    LookAtContainer,
    RemoveRecord,
    /// Remove the session whose record says that it is to go.
    Bury,
    Nothing,
}

#[derive(Debug)]
pub enum RemoveEvent {
    Found(Result<Option<RecordCapability>, Error>),
    Names { root: NameSeen, tombstone: NameSeen },
    Loaded(Result<ReadyBinding, Error>),
    Opened(AuthorizedSeen),
    Lease(LeaseEvent),
    Leased(LeasedSeen),
    Read(Result<RecordCapability, Error>),
    Judged(DiscardSeen),
    Persisted(Result<RecordCapability, Error>),
    Container(ContainerSeen),
    Done(Result<(), Error>),
}

pub open spec fn no_force(detail: Seq<char>) -> RemoveView {
    RemoveView::Failed(("SESSION_DISCARD_RISK"@, detail))
}

/// Whether anything stands under the names of a session.
pub open spec fn names_failure(root: NameSeen, tombstone: NameSeen) -> Option<Failure> {
    match name_identity(root) {
        Some(_) => None,
        None => crate::inspection::first_of(entry_failure(root), entry_failure(tombstone)),
    }
}

pub open spec fn names_present(root: NameSeen, tombstone: NameSeen) -> bool {
    name_identity(root) is Some || name_identity(tombstone) is Some
}

impl RemoveView {
    /// What a removal begins with, by where the record stands. Only a session that is ready, or to go
    /// already, is removed without force; and none while it is being published.
    pub open spec fn found(capability: CapabilityView, force: bool) -> RemoveView {
        match idle_failure(capability.record.journal) {
            Some(error) => RemoveView::Failed(error),
            None => match capability.record.payload {
                SessionPayloadView::Tombstoned { .. } => RemoveView::Burying(capability),
                SessionPayloadView::Ready { .. } => RemoveView::Loading(capability),
                SessionPayloadView::Materializing { .. } => if force {
                    RemoveView::OpeningPayload(capability)
                } else {
                    no_force("incomplete session removal requires --force"@)
                },
                SessionPayloadView::Prepared { .. } => if force {
                    RemoveView::PreparedNames(capability)
                } else {
                    no_force("prepared session removal requires --force"@)
                },
            },
        }
    }

    pub open spec fn step(checked: Option<Failure>, next: RemoveView) -> RemoveView {
        match checked {
            Some(error) => RemoveView::Failed(error),
            None => next,
        }
    }

    /// The removal after the driver's answer. An answer to another question changes nothing.
    pub open spec fn after(self, event: RemoveEvent, force: bool, uid: u32) -> RemoveView {
        match (self, event) {
            (RemoveView::Finding, RemoveEvent::Found(found)) => match found {
                Err(error) => RemoveView::Failed(error@),
                Ok(None) => RemoveView::AbsentNames,
                Ok(Some(capability)) => RemoveView::found(capability@, force),
            },
            (RemoveView::AbsentNames, RemoveEvent::Names { root, tombstone }) => RemoveView::step(
                names_failure(root, tombstone),
                if names_present(root, tombstone) {
                    RemoveView::Failed(
                        needs_recovery("session record is absent while a managed root remains"@),
                    )
                } else {
                    RemoveView::Removed
                },
            ),
            (RemoveView::Loading(capability), RemoveEvent::Loaded(loaded)) => match loaded {
                Err(error) => RemoveView::Failed(error@),
                Ok(ready) => RemoveView::LeasingReady(capability, ready@),
            },
            (RemoveView::LeasingReady(capability, ready), RemoveEvent::Lease(event)) => {
                RemoveView::step(leased(event), RemoveView::RevalidatingReady(capability, ready))
            },
            (RemoveView::RevalidatingReady(capability, ready), RemoveEvent::Leased(seen)) => {
                RemoveView::step(
                    seen.lease_failure(capability, ready),
                    if force {
                        RemoveView::Persisting(seen.again->Ok_0@)
                    } else {
                        RemoveView::Judging(seen.again->Ok_0@, ready)
                    },
                )
            },
            (RemoveView::Judging(capability, _), RemoveEvent::Judged(seen)) => RemoveView::step(
                seen.discard_failure(capability.record),
                RemoveView::Persisting(capability),
            ),
            (RemoveView::OpeningPayload(capability), RemoveEvent::Opened(seen)) => RemoveView::step(
                match removable(capability.record) {
                    None => Some(
                        needs_recovery("session record has no removable descriptor-bound root"@),
                    ),
                    Some((name, identity)) => seen.root_failure(
                        capability.record,
                        name,
                        identity,
                        uid,
                    ),
                },
                RemoveView::LeasingPayload(capability),
            ),
            (RemoveView::LeasingPayload(capability), RemoveEvent::Lease(event)) => RemoveView::step(
                leased(event),
                RemoveView::RevalidatingPayload(capability),
            ),
            (RemoveView::RevalidatingPayload(capability), RemoveEvent::Read(read)) => {
                RemoveView::step(
                    revalidate_failure(read, capability),
                    RemoveView::Persisting(read->Ok_0@),
                )
            },
            (RemoveView::Persisting(_), RemoveEvent::Persisted(persisted)) => match persisted {
                Err(error) => RemoveView::Failed(error@),
                Ok(capability) => RemoveView::Burying(capability@),
            },
            (RemoveView::PreparedNames(capability), RemoveEvent::Names { root, tombstone }) => {
                RemoveView::step(
                    names_failure(root, tombstone),
                    if names_present(root, tombstone) {
                        RemoveView::Failed(
                            needs_recovery(
                                "prepared session has a root despite lacking its descriptor receipt"@,
                            ),
                        )
                    } else {
                        RemoveView::PreparedContainer(capability)
                    },
                )
            },
            (RemoveView::PreparedContainer(capability), RemoveEvent::Container(seen)) => {
                RemoveView::step(
                    seen.container_failure(capability.record, uid),
                    RemoveView::Unrecording(capability),
                )
            },
            (RemoveView::Unrecording(_), RemoveEvent::Done(done)) => match done {
                Err(error) => RemoveView::Failed(
                    needs_recovery("cannot remove bound session record"@ + ": "@ + error@.1),
                ),
                Ok(_) => RemoveView::Removed,
            },
            (RemoveView::Burying(_), RemoveEvent::Done(done)) => RemoveView::step(
                failure(done),
                RemoveView::Removed,
            ),
            _ => self,
        }
    }

    pub open spec fn asks(self) -> RemoveAction {
        match self {
            RemoveView::Finding => RemoveAction::FindRecord,
            RemoveView::AbsentNames => RemoveAction::StatNames,
            RemoveView::Loading(_) => RemoveAction::LoadReady,
            RemoveView::LeasingReady(_, _) => RemoveAction::Lease,
            RemoveView::RevalidatingReady(_, _) => RemoveAction::RevalidateReady,
            RemoveView::Judging(_, _) => RemoveAction::JudgeDiscard,
            RemoveView::OpeningPayload(_) => RemoveAction::OpenPayload,
            RemoveView::LeasingPayload(_) => RemoveAction::Lease,
            RemoveView::RevalidatingPayload(_) => RemoveAction::ReadRecord,
            RemoveView::Persisting(_) => RemoveAction::Persist,
            RemoveView::PreparedNames(_) => RemoveAction::StatNames,
            RemoveView::PreparedContainer(_) => RemoveAction::LookAtContainer,
            RemoveView::Unrecording(_) => RemoveAction::RemoveRecord,
            RemoveView::Burying(_) => RemoveAction::Bury,
            RemoveView::Removed => RemoveAction::Nothing,
            RemoveView::Failed(_) => RemoveAction::Nothing,
        }
    }
}

/// The record of a session that is to go, where the record that stands can become one.
pub open spec fn tombstone_of(record: SessionView) -> Option<SessionView> {
    match record.payload {
        SessionPayloadView::Ready { root_name, root_identity, .. } => Some(
            SessionView {
                payload: SessionPayloadView::Tombstoned {
                    root_name,
                    tombstone_name: crate::session::tombstone_name_text(record.sid),
                    root_identity,
                },
                ..record
            },
        ),
        SessionPayloadView::Materializing { root_name, root_identity } => Some(
            SessionView {
                payload: SessionPayloadView::Tombstoned {
                    root_name,
                    tombstone_name: crate::session::tombstone_name_text(record.sid),
                    root_identity,
                },
                ..record
            },
        ),
        _ => None,
    }
}

fn entombed(record: &SessionRecord, root_name: String, root_identity: Identity) -> (next: SessionRecord)
    ensures
        next@ == (SessionView {
            payload: SessionPayloadView::Tombstoned {
                root_name: root_name@,
                tombstone_name: crate::session::tombstone_name_text(record@.sid),
                root_identity,
            },
            ..record@
        }),
{
    let mut next = record.copy();
    next.payload = SessionPayload::Tombstoned {
        root_name,
        tombstone_name: crate::session::tombstone_name(record.sid.as_str()),
        root_identity,
    };
    next
}

pub fn transition_tombstone(record: &SessionRecord) -> (next: Result<SessionRecord, Error>)
    ensures
        failure(next) == match tombstone_of(record@) {
            Some(_) => None,
            None => Some(needs_recovery("session record cannot transition to a tombstone"@)),
        },
        next matches Ok(next) ==> tombstone_of(record@) == Some(next@),
{
    match &record.payload {
        SessionPayload::Ready { root_name, root_identity, .. } => Ok(
            entombed(record, root_name.clone(), *root_identity),
        ),
        SessionPayload::Materializing { root_name, root_identity } => Ok(
            entombed(record, root_name.clone(), *root_identity),
        ),
        _ => Err(session_recovery("session record cannot transition to a tombstone")),
    }
}

/// A valid record of a session that is not being published becomes a valid record of one that is to go.
pub proof fn law_tombstones_are_valid(record: SessionView, uid: u32)
    requires
        record.is_valid(uid),
        record.journal is Idle,
        record.payload is Ready || record.payload is Materializing,
    ensures
        tombstone_of(record) is Some,
        tombstone_of(record)->0.is_valid(uid),
        record.payload is Ready ==> record.steps_to(tombstone_of(record)->0),
{
}

impl Remove {
    pub fn start() -> (remove: Self)
        ensures
            remove@ == RemoveView::Finding,
    {
        Remove::Finding
    }

    fn found(capability: RecordCapability, force: bool) -> (next: Self)
        ensures
            next@ == RemoveView::found(capability@, force),
    {
        match ensure_publish_idle(&capability.record) {
            Err(error) => {
                return Remove::Failed(error);
            },
            Ok(_) => {},
        }
        match &capability.record.payload {
            SessionPayload::Tombstoned { .. } => Remove::Burying(capability),
            SessionPayload::Ready { .. } => Remove::Loading(capability),
            SessionPayload::Materializing { .. } => {
                if force {
                    Remove::OpeningPayload(capability)
                } else {
                    Remove::Failed(
                        Error::new(
                            "SESSION_DISCARD_RISK",
                            "incomplete session removal requires --force",
                        ),
                    )
                }
            },
            SessionPayload::Prepared { .. } => {
                if force {
                    Remove::PreparedNames(capability)
                } else {
                    Remove::Failed(
                        Error::new(
                            "SESSION_DISCARD_RISK",
                            "prepared session removal requires --force",
                        ),
                    )
                }
            },
        }
    }

    fn step(checked: Result<(), Error>, next: Remove) -> (after: Self)
        ensures
            after@ == RemoveView::step(failure(checked), next@),
    {
        match checked {
            Err(error) => Remove::Failed(error),
            Ok(_) => next,
        }
    }

    fn opened(capability: RecordCapability, seen: AuthorizedSeen, uid: u32) -> (next: Self)
        ensures
            next@ == RemoveView::OpeningPayload(capability@).after(
                RemoveEvent::Opened(seen),
                true,
                uid,
            ),
    {
        match open_payload_root(&capability.record) {
            Err(error) => Remove::Failed(error),
            Ok((name, identity)) => {
                let bound = open_authorized_root(
                    seen,
                    &capability.record,
                    name.as_str(),
                    identity,
                    uid,
                );
                Remove::step(bound, Remove::LeasingPayload(capability))
            },
        }
    }

    fn names(root: NameSeen, tombstone: NameSeen, detail: &str, next: Remove) -> (after: Self)
        ensures
            after@ == RemoveView::step(
                names_failure(root, tombstone),
                if names_present(root, tombstone) {
                    RemoveView::Failed(needs_recovery(detail@))
                } else {
                    next@
                },
            ),
    {
        match root_or_tombstone_present(root, tombstone) {
            Err(error) => Remove::Failed(error),
            Ok(present) => if present {
                Remove::Failed(session_recovery(detail))
            } else {
                next
            },
        }
    }

    /// Takes the driver's answer to the question that the removal asks.
    pub fn remove(self, event: RemoveEvent, force: bool, uid: u32) -> (next: Self)
        ensures
            next@ == self@.after(event, force, uid),
    {
        match (self, event) {
            (Remove::Finding, RemoveEvent::Found(found)) => match found {
                Err(error) => Remove::Failed(error),
                Ok(None) => Remove::AbsentNames,
                Ok(Some(capability)) => Remove::found(capability, force),
            },
            (Remove::AbsentNames, RemoveEvent::Names { root, tombstone }) => Remove::names(
                root,
                tombstone,
                "session record is absent while a managed root remains",
                Remove::Removed,
            ),
            (Remove::Loading(capability), RemoveEvent::Loaded(loaded)) => match loaded {
                Err(error) => Remove::Failed(error),
                Ok(ready) => Remove::LeasingReady(capability, ready),
            },
            (Remove::LeasingReady(capability, ready), RemoveEvent::Lease(event)) => Remove::step(
                lease(event),
                Remove::RevalidatingReady(capability, ready),
            ),
            (Remove::RevalidatingReady(capability, ready), RemoveEvent::Leased(seen)) => {
                match revalidate_ready_lease(seen, &capability, &ready) {
                    Err(error) => Remove::Failed(error),
                    Ok(current) => if force {
                        Remove::Persisting(current)
                    } else {
                        Remove::Judging(current, ready)
                    },
                }
            },
            (Remove::Judging(capability, _), RemoveEvent::Judged(seen)) => {
                let safe = ensure_discard_safe(seen, &capability.record);
                Remove::step(safe, Remove::Persisting(capability))
            },
            (Remove::OpeningPayload(capability), RemoveEvent::Opened(seen)) => Remove::opened(
                capability,
                seen,
                uid,
            ),
            (Remove::LeasingPayload(capability), RemoveEvent::Lease(event)) => Remove::step(
                lease(event),
                Remove::RevalidatingPayload(capability),
            ),
            (Remove::RevalidatingPayload(capability), RemoveEvent::Read(read)) => {
                match revalidate_record(read, &capability) {
                    Err(error) => Remove::Failed(error),
                    Ok(current) => Remove::Persisting(current),
                }
            },
            (Remove::Persisting(_), RemoveEvent::Persisted(persisted)) => match persisted {
                Err(error) => Remove::Failed(error),
                Ok(capability) => Remove::Burying(capability),
            },
            (Remove::PreparedNames(capability), RemoveEvent::Names { root, tombstone }) => {
                Remove::names(
                    root,
                    tombstone,
                    "prepared session has a root despite lacking its descriptor receipt",
                    Remove::PreparedContainer(capability),
                )
            },
            (Remove::PreparedContainer(capability), RemoveEvent::Container(seen)) => {
                let bound = ensure_record_container(seen, &capability.record, uid);
                Remove::step(bound, Remove::Unrecording(capability))
            },
            (Remove::Unrecording(_), RemoveEvent::Done(done)) => match done {
                Err(error) => Remove::Failed(
                    bound_record_error(error, "cannot remove bound session record"),
                ),
                Ok(_) => Remove::Removed,
            },
            (Remove::Burying(_), RemoveEvent::Done(done)) => Remove::step(done, Remove::Removed),
            (same, _) => same,
        }
    }

    /// What is to be done next.
    pub fn action(&self) -> (action: RemoveAction)
        ensures
            action == self@.asks(),
    {
        match self {
            Remove::Finding => RemoveAction::FindRecord,
            Remove::AbsentNames => RemoveAction::StatNames,
            Remove::Loading(_) => RemoveAction::LoadReady,
            Remove::LeasingReady(_, _) => RemoveAction::Lease,
            Remove::RevalidatingReady(_, _) => RemoveAction::RevalidateReady,
            Remove::Judging(_, _) => RemoveAction::JudgeDiscard,
            Remove::OpeningPayload(_) => RemoveAction::OpenPayload,
            Remove::LeasingPayload(_) => RemoveAction::Lease,
            Remove::RevalidatingPayload(_) => RemoveAction::ReadRecord,
            Remove::Persisting(_) => RemoveAction::Persist,
            Remove::PreparedNames(_) => RemoveAction::StatNames,
            Remove::PreparedContainer(_) => RemoveAction::LookAtContainer,
            Remove::Unrecording(_) => RemoveAction::RemoveRecord,
            Remove::Burying(_) => RemoveAction::Bury,
            Remove::Removed => RemoveAction::Nothing,
            Remove::Failed(_) => RemoveAction::Nothing,
        }
    }

    /// The record that the removal works on, once it is found.
    pub fn capability(&self) -> (capability: Option<&RecordCapability>)
        ensures
            match capability {
                Some(found) => self@.record() == Some(found@),
                None => self@.record() is None,
            },
    {
        match self {
            Remove::Loading(capability) => Some(capability),
            Remove::LeasingReady(capability, _) => Some(capability),
            Remove::RevalidatingReady(capability, _) => Some(capability),
            Remove::Judging(capability, _) => Some(capability),
            Remove::OpeningPayload(capability) => Some(capability),
            Remove::LeasingPayload(capability) => Some(capability),
            Remove::RevalidatingPayload(capability) => Some(capability),
            Remove::Persisting(capability) => Some(capability),
            Remove::PreparedNames(capability) => Some(capability),
            Remove::PreparedContainer(capability) => Some(capability),
            Remove::Unrecording(capability) => Some(capability),
            Remove::Burying(capability) => Some(capability),
            _ => None,
        }
    }

    /// What became of the removal, once nothing more is asked for.
    pub fn outcome(&self) -> (outcome: Option<Result<(), Error>>)
        ensures
            match self@ {
                RemoveView::Removed => outcome == Some(Ok::<(), Error>(())),
                RemoveView::Failed(failed) => outcome matches Some(Err(error)) && error@ == failed,
                _ => outcome is None,
            },
    {
        match self {
            Remove::Removed => Some(Ok(())),
            Remove::Failed(error) => Some(Err(error.copy())),
            _ => None,
        }
    }
}

impl RemoveView {
    pub open spec fn record(self) -> Option<CapabilityView> {
        match self {
            RemoveView::Loading(capability) => Some(capability),
            RemoveView::LeasingReady(capability, _) => Some(capability),
            RemoveView::RevalidatingReady(capability, _) => Some(capability),
            RemoveView::Judging(capability, _) => Some(capability),
            RemoveView::OpeningPayload(capability) => Some(capability),
            RemoveView::LeasingPayload(capability) => Some(capability),
            RemoveView::RevalidatingPayload(capability) => Some(capability),
            RemoveView::Persisting(capability) => Some(capability),
            RemoveView::PreparedNames(capability) => Some(capability),
            RemoveView::PreparedContainer(capability) => Some(capability),
            RemoveView::Unrecording(capability) => Some(capability),
            RemoveView::Burying(capability) => Some(capability),
            _ => None,
        }
    }
}

/// Without force, a session is marked to go only where nothing of it would be lost, under its lease;
/// and one that is not complete is not touched at all.
pub proof fn law_removal_without_force_loses_nothing(remove: RemoveView, event: RemoveEvent, uid: u32)
    requires
        !(remove is OpeningPayload),
        !(remove is LeasingPayload),
        !(remove is RevalidatingPayload),
        !(remove is PreparedNames),
        !(remove is PreparedContainer),
        !(remove is Unrecording),
    ensures
        ({
            let next = remove.after(event, false, uid);
            &&& next is Persisting ==> next == remove || remove is Judging && event is Judged
                && event->Judged_0.discard_failure(remove.record()->0.record) is None
            &&& next is Judging ==> next == remove || remove is RevalidatingReady && event is Leased
            &&& next is RevalidatingReady ==> next == remove || remove is LeasingReady
                && event == RemoveEvent::Lease(LeaseEvent::Locked)
            &&& !(next is OpeningPayload)
            &&& !(next is LeasingPayload)
            &&& !(next is RevalidatingPayload)
            &&& !(next is PreparedNames)
            &&& !(next is PreparedContainer)
            &&& !(next is Unrecording)
        }),
{
}

/// A session that is being published is not removed, with or without force.
pub proof fn law_published_sessions_are_not_removed(
    found: RecordCapability,
    force: bool,
    uid: u32,
)
    requires
        !(found@.record.journal is Idle),
    ensures
        RemoveView::Finding.after(RemoveEvent::Found(Ok(Some(found))), force, uid) is Failed,
{
}

/// A session without a record is removed already, unless something stands under its names.
pub proof fn law_removing_twice_is_removing_once(
    root: NameSeen,
    tombstone: NameSeen,
    force: bool,
    uid: u32,
)
    requires
        root is Absent,
        tombstone is Absent,
    ensures
        RemoveView::Finding.after(RemoveEvent::Found(Ok(None)), force, uid).after(
            RemoveEvent::Names { root, tombstone },
            force,
            uid,
        ) is Removed,
{
}

} // verus!
