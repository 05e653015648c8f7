//! Entering a session: the authority and the container that a command works in, and the session's lease,
//! under which its program runs or its branch is published.

use crate::authority::{failure, or_fail, Authority, AuthorityView, Error, Failure};
use crate::bytes::optional_view;
use crate::inspection::first_of;
use crate::session::{
    authority_from_record, decoded, ensure_publish_idle, idle_failure, optional_bytes,
    path_failure, selected_name, selection_failure, CapabilityView, RecordCapability, SessionRecord,
};
use crate::session_roots::{
    acquire_lease, revalidate_ready_lease, LeasedSeen, ReadyBinding, ReadyView,
};
use crate::template_roots::{LeaseEvent, LeaseStep};
use vstd::prelude::*;

verus! {

/// The state root, and whether the authority is registered in it.
pub fn registered(state: Result<(), Error>, present: Result<bool, Error>) -> (found: Result<(), Error>)
    ensures
        failure(found) == registration_failure(
            state,
            present,
            "create requires an existing exact authority record"@,
        ),
{
    ensure_registered(state, present, "create requires an existing exact authority record")
}

pub open spec fn registration_failure(
    state: Result<(), Error>,
    present: Result<bool, Error>,
    detail: Seq<char>,
) -> Option<Failure> {
    let f = failure(state);
    let f = first_of(f, failure(present));
    or_fail(f, present == Ok::<bool, Error>(true), "AUTHORITY_UNREGISTERED"@, detail)
}

fn ensure_registered(state: Result<(), Error>, present: Result<bool, Error>, detail: &str) -> (found:
    Result<(), Error>)
    ensures
        failure(found) == registration_failure(state, present, detail@),
{
    state?;
    if !present? {
        return Err(Error::new("AUTHORITY_UNREGISTERED", detail));
    }
    Ok(())
}

/// What is seen of the state for a command on a session: the authority, whether it is registered, and
/// the container of sessions, where it is there.
#[derive(Debug)]
pub struct ContextSeen {
    pub authority: Result<Authority, Error>,
    pub state: Result<(), Error>,
    pub present: Result<bool, Error>,
    pub path: Result<Vec<u8>, Error>,
    pub container: Result<bool, Error>,
}

impl ContextSeen {
    pub open spec fn context_failure(self) -> Option<Failure> {
        let f = failure(self.authority);
        let f = first_of(
            f,
            registration_failure(
                self.state,
                self.present,
                "session lifecycle requires an existing exact authority record"@,
            ),
        );
        let f = first_of(f, failure(self.path));
        first_of(f, failure(self.container))
    }
}

/// The authority, and the path of the container of sessions, where it is there.
pub fn optional_session_context(seen: ContextSeen) -> (context: Result<
    (Authority, Option<Vec<u8>>),
    Error,
>)
    ensures
        failure(context) == seen.context_failure(),
        context matches Ok(context) ==> {
            &&& seen.authority == Ok::<Authority, Error>(context.0)
            &&& context.1 == if seen.container->Ok_0 {
                Some(seen.path->Ok_0)
            } else {
                None
            }
        },
{
    let ContextSeen { authority, state, present, path, container } = seen;
    let authority = authority?;
    ensure_registered(
        state,
        present,
        "session lifecycle requires an existing exact authority record",
    )?;
    let path = path?;
    let container: bool = container?;
    Ok(
        (
            authority,
            if container {
                Some(path)
            } else {
                None
            },
        ),
    )
}

/// What a command on a session works in.
#[derive(Debug)]
pub struct SessionContext {
    pub authority: Authority,
    pub sessions_path: Vec<u8>,
}

pub fn session_context(seen: ContextSeen) -> (context: Result<SessionContext, Error>)
    ensures
        failure(context) == or_fail(
            seen.context_failure(),
            seen.container == Ok::<bool, Error>(true),
            "SESSION_ABSENT"@,
            "authority has no managed session container"@,
        ),
        context matches Ok(context) ==> {
            &&& seen.authority == Ok::<Authority, Error>(context.authority)
            &&& seen.path == Ok::<Vec<u8>, Error>(context.sessions_path)
        },
{
    let (authority, sessions) = optional_session_context(seen)?;
    match sessions {
        Some(sessions_path) => Ok(SessionContext { authority, sessions_path }),
        None => Err(Error::new("SESSION_ABSENT", "authority has no managed session container")),
    }
}

/// The path of the container of sessions, where it is there, whatever the authority.
pub fn sessions_for_read(
    state: Result<(), Error>,
    path: Result<Vec<u8>, Error>,
    container: Result<bool, Error>,
) -> (sessions: Result<Option<Vec<u8>>, Error>)
    ensures
        failure(sessions) == first_of(first_of(failure(state), failure(path)), failure(container)),
        sessions matches Ok(sessions) ==> sessions == if container->Ok_0 {
            Some(path->Ok_0)
        } else {
            None
        },
{
    state?;
    let path = path?;
    let container: bool = container?;
    if container {
        Ok(Some(path))
    } else {
        Ok(None)
    }
}

/// What maintenance works in for a session: the authority that its record names, in the container that
/// is open; `retained` is whether that could be kept open once more.
pub fn maintenance_context(
    record: &SessionRecord,
    retained: Result<(), String>,
    sessions_path: Vec<u8>,
) -> (context: Result<SessionContext, Error>)
    ensures
        failure(context) == first_of(
            path_failure(record@.authority_path),
            match retained {
                Ok(_) => None,
                Err(words) => Some(
                    (
                        "SESSION_RECOVERY_REQUIRED"@,
                        "cannot retain session container for maintenance"@ + ": "@ + words@,
                    ),
                ),
            },
        ),
        context matches Ok(context) ==> {
            &&& context.sessions_path == sessions_path
            &&& context.authority@ == (AuthorityView {
                canonical: decoded(record@.authority_path),
                identity: record@.authority_identity,
                object_format: Seq::empty(),
                ref_format: Seq::empty(),
            })
        },
{
    let authority = authority_from_record(record)?;
    match retained {
        Ok(_) => Ok(SessionContext { authority, sessions_path }),
        Err(words) => Err(
            Error::io(
                "SESSION_RECOVERY_REQUIRED",
                "cannot retain session container for maintenance",
                words.as_str(),
            ),
        ),
    }
}

/// A program to run in a session: the session's name, and the program with its arguments.
#[derive(Debug)]
pub struct ExecRequest {
    pub name: Vec<u8>,
    pub program: Vec<Vec<u8>>,
}

/// What a program is run in, and that there is one.
pub fn exec(raw_name: Option<Vec<u8>>, name_hex: Option<String>, program: Vec<Vec<u8>>) -> (request:
    Result<ExecRequest, Error>)
    ensures
        failure(request) == or_fail(
            selection_failure(optional_bytes(raw_name), optional_view(name_hex)),
            program@.len() > 0,
            "SESSION_USAGE"@,
            "exec requires a program after --"@,
        ),
        request matches Ok(request) ==> {
            &&& request.program == program
            &&& request.name@ == match raw_name {
                Some(raw) => raw@,
                None => decoded(name_hex->0@),
            }
        },
{
    let name = selected_name(raw_name, name_hex)?;
    if program.len() == 0 {
        return Err(Error::new("SESSION_USAGE", "exec requires a program after --"));
    }
    Ok(ExecRequest { name, program })
}

/// What a session is entered for.
#[derive(Clone, Copy, Debug, PartialEq, Eq, Structural)]
pub enum Purpose {
    /// To run a program, beside others that do.
    Exec,
    /// To publish its branch, alone.
    Publish,
}

/// Where entering a session stands.
#[derive(Debug)]
pub enum Entry {
    Finding,
    Loading(RecordCapability),
    Leasing(RecordCapability, ReadyBinding),
    Revalidating(RecordCapability, ReadyBinding),
    Entered(RecordCapability, ReadyBinding),
    Failed(Error),
}

pub enum EntryView {
    Finding,
    Loading(CapabilityView),
    Leasing(CapabilityView, ReadyView),
    Revalidating(CapabilityView, ReadyView),
    Entered(CapabilityView, ReadyView),
    Failed(Failure),
}

impl View for Entry {
    type V = EntryView;

    open spec fn view(&self) -> EntryView {
        match self {
            Entry::Finding => EntryView::Finding,
            Entry::Loading(record) => EntryView::Loading(record@),
            Entry::Leasing(record, ready) => EntryView::Leasing(record@, ready@),
            Entry::Revalidating(record, ready) => EntryView::Revalidating(record@, ready@),
            Entry::Entered(record, ready) => EntryView::Entered(record@, ready@),
            Entry::Failed(error) => EntryView::Failed(error@),
        }
    }
}

#[derive(Clone, Copy, Debug, PartialEq, Eq, Structural)]
pub enum EntryAction {
    /// Read the record, which has to be there.
    FindRecord,
    LoadReady,
    /// Lease the session's root: shared to run a program, exclusively to publish.
    Lease,
    /// Look at the session once more, under its lease.
    RevalidateReady,
    Nothing,
}

#[derive(Debug)]
pub enum EntryEvent {
    Found(Result<RecordCapability, Error>),
    Loaded(Result<ReadyBinding, Error>),
    Lease(LeaseEvent),
    Leased(LeasedSeen),
}

impl EntryView {
    pub open spec fn leased(
        self,
        capability: CapabilityView,
        ready: ReadyView,
        event: LeaseEvent,
        purpose: Purpose,
    ) -> EntryView {
        let busy = "SESSION_BUSY"@;
        match (event, purpose) {
            (LeaseEvent::Locked, _) => EntryView::Revalidating(capability, ready),
            (LeaseEvent::Interrupted(_), Purpose::Exec) => self,
            (LeaseEvent::WouldBlock(_), Purpose::Publish) => EntryView::Failed(
                (busy, "session root is leased by an active command"@),
            ),
            (LeaseEvent::Interrupted(words), Purpose::Publish)
            | (LeaseEvent::WouldBlock(words), Purpose::Exec)
            | (LeaseEvent::Failed(words), _) => EntryView::Failed(
                (busy, "cannot acquire session lease"@ + ": "@ + words@),
            ),
        }
    }

    /// The entry after the driver's answer. An answer to another question changes nothing.
    pub open spec fn after(self, event: EntryEvent, purpose: Purpose) -> EntryView {
        match (self, event) {
            (EntryView::Finding, EntryEvent::Found(found)) => match found {
                Err(error) => EntryView::Failed(error@),
                Ok(capability) => match (purpose, idle_failure(capability@.record.journal)) {
                    (Purpose::Exec, Some(error)) => EntryView::Failed(error),
                    _ => EntryView::Loading(capability@),
                },
            },
            (EntryView::Loading(capability), EntryEvent::Loaded(loaded)) => match loaded {
                Err(error) => EntryView::Failed(error@),
                Ok(ready) => EntryView::Leasing(capability, ready@),
            },
            (EntryView::Leasing(capability, ready), EntryEvent::Lease(event)) => self.leased(
                capability,
                ready,
                event,
                purpose,
            ),
            (EntryView::Revalidating(capability, ready), EntryEvent::Leased(seen)) => {
                match seen.lease_failure(capability, ready) {
                    Some(error) => EntryView::Failed(error),
                    None => EntryView::Entered(seen.again->Ok_0@, ready),
                }
            },
            _ => self,
        }
    }

    pub open spec fn asks(self) -> EntryAction {
        match self {
            EntryView::Finding => EntryAction::FindRecord,
            EntryView::Loading(_) => EntryAction::LoadReady,
            EntryView::Leasing(_, _) => EntryAction::Lease,
            EntryView::Revalidating(_, _) => EntryAction::RevalidateReady,
            EntryView::Entered(_, _) => EntryAction::Nothing,
            EntryView::Failed(_) => EntryAction::Nothing,
        }
    }
}

impl Entry {
    fn leased(capability: RecordCapability, ready: ReadyBinding, event: LeaseEvent, purpose: Purpose) -> (next:
        Self)
        ensures
            next@ == EntryView::Leasing(capability@, ready@).leased(
                capability@,
                ready@,
                event,
                purpose,
            ),
    {
        let exclusive: bool = match purpose {
            Purpose::Exec => false,
            Purpose::Publish => true,
        };
        match acquire_lease(event, exclusive) {
            LeaseStep::Leased => Entry::Revalidating(capability, ready),
            LeaseStep::Again => Entry::Leasing(capability, ready),
            LeaseStep::Failed(error) => Entry::Failed(error),
        }
    }

    /// Takes the driver's answer to the question that the entry asks.
    pub fn enter(self, event: EntryEvent, purpose: Purpose) -> (next: Self)
        ensures
            next@ == self@.after(event, purpose),
    {
        match (self, event) {
            (Entry::Finding, EntryEvent::Found(found)) => match found {
                Err(error) => Entry::Failed(error),
                Ok(capability) => match purpose {
                    Purpose::Exec => match ensure_publish_idle(&capability.record) {
                        Err(error) => Entry::Failed(error),
                        Ok(_) => Entry::Loading(capability),
                    },
                    Purpose::Publish => Entry::Loading(capability),
                },
            },
            (Entry::Loading(capability), EntryEvent::Loaded(loaded)) => match loaded {
                Err(error) => Entry::Failed(error),
                Ok(ready) => Entry::Leasing(capability, ready),
            },
            (Entry::Leasing(capability, ready), EntryEvent::Lease(event)) => Entry::leased(
                capability,
                ready,
                event,
                purpose,
            ),
            (Entry::Revalidating(capability, ready), EntryEvent::Leased(seen)) => {
                match revalidate_ready_lease(seen, &capability, &ready) {
                    Err(error) => Entry::Failed(error),
                    Ok(current) => Entry::Entered(current, ready),
                }
            },
            (entry, _) => entry,
        }
    }

    /// What is to be done next.
    pub fn action(&self) -> (action: EntryAction)
        ensures
            action == self@.asks(),
    {
        match self {
            Entry::Finding => EntryAction::FindRecord,
            Entry::Loading(_) => EntryAction::LoadReady,
            Entry::Leasing(_, _) => EntryAction::Lease,
            Entry::Revalidating(_, _) => EntryAction::RevalidateReady,
            Entry::Entered(_, _) => EntryAction::Nothing,
            Entry::Failed(_) => EntryAction::Nothing,
        }
    }
}

/// A session is entered only with its lease held.
pub proof fn law_sessions_are_entered_under_their_lease(entry: EntryView, event: EntryEvent, purpose: Purpose)
    requires
        !(entry is Entered),
        !(entry is Revalidating),
    ensures
        !(entry.after(event, purpose) is Entered),
        entry.after(event, purpose) is Revalidating ==> entry is Leasing && event
            == EntryEvent::Lease(LeaseEvent::Locked),
{
}

/// What is entered is, under the lease, still what was found: the record's file and bytes, and the
/// session that was loaded.
pub proof fn law_entered_sessions_are_unchanged(
    capability: CapabilityView,
    ready: ReadyView,
    event: EntryEvent,
    purpose: Purpose,
)
    requires
        EntryView::Revalidating(capability, ready).after(event, purpose) is Entered,
    ensures
        ({
            let entered = EntryView::Revalidating(capability, ready).after(event, purpose);
            entered->Entered_0.binding == capability.binding && entered->Entered_1 == ready
        }),
{
}

/// No program is run in a session that is being published.
pub proof fn law_programs_run_in_idle_sessions(entry: EntryView, event: EntryEvent)
    requires
        entry is Finding,
        entry.after(event, Purpose::Exec) is Loading,
    ensures
        entry.after(event, Purpose::Exec)->Loading_0.record.journal is Idle,
{
}

} // verus!
