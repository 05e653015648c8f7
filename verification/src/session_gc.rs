//! Taking stock of the sessions, and collecting what is left of those that are gone. Whatever is not
//! plainly collectable stays, and stops the collection.

use crate::authority::{failure, or_fail, Error, Failure};
use crate::bytes::{copy_bytes, ends_with, same_bytes, same_text, starts_with, utf8, views};
use crate::inspection::first_of;
use crate::private_objects::{PrivateObjectPlan, PrivateObjectView};
use crate::session::{
    authority_from_record, is_session_record_name, path_failure, session_precedes,
    session_record_name, session_recovery, CapabilityView, RecordCapability, SessionPayload,
    SessionPayloadView,
};
use crate::session_roots::{revalidate_failure, revalidate_record};
use crate::template::{entry_views, MaintenanceReport, ReportView};
use vstd::prelude::*;

verus! {

impl ReportView {
    /// One report and then another.
    pub open spec fn merged(self, other: ReportView) -> ReportView {
        ReportView {
            entries: self.entries + other.entries,
            recovery_required: self.recovery_required || other.recovery_required,
        }
    }
}

/// Moves what another report says to the end of this one.
pub fn merge_maintenance(report: &mut MaintenanceReport, other: &mut MaintenanceReport)
    ensures
        final(report)@ == old(report)@.merged(old(other)@),
        final(other)@ == (ReportView {
            entries: Seq::empty(),
            recovery_required: old(other)@.recovery_required,
        }),
{
    let ghost ours = report@;
    let ghost theirs = other@;
    report.recovery_required = report.recovery_required || other.recovery_required;
    report.entries.append(&mut other.entries);
    proof {
        assert(report@.entries =~= ours.entries + theirs.entries);
        assert(entry_views(other.entries@) =~= Seq::empty());
    }
}

/// A temporary record, and what it was left behind by.
#[derive(Debug)]
pub struct SessionTemporary {
    /// The record that it was to become, where its name says one.
    pub final_name: Option<Vec<u8>>,
    pub previous: Result<RecordCapability, Error>,
    pub current: Result<RecordCapability, Error>,
}

pub open spec fn temporary_failure(found: Result<SessionTemporary, Error>) -> Option<Failure> {
    let code = "SESSION_RECOVERY_REQUIRED"@;
    match found {
        Err(error) => Some(error@),
        Ok(found) => {
            let f = or_fail(
                None,
                found.final_name is Some,
                code,
                "temporary session record basename is not a RecordTxn predecessor"@,
            );
            let f = or_fail(
                f,
                is_session_record_name(found.final_name->0@),
                code,
                "temporary record does not name a session record"@,
            );
            let f = first_of(f, failure(found.previous));
            let f = first_of(f, failure(found.current));
            or_fail(
                f,
                found.previous->Ok_0@.record.steps_to(found.current->Ok_0@.record),
                code,
                "temporary session record is not the direct predecessor of its current record"@,
            )
        },
    }
}

/// Whether a temporary record is one that an exchange left behind: the direct predecessor of the
/// record that stands.
pub fn session_predecessor_temporary(found: Result<SessionTemporary, Error>) -> (current: Result<
    RecordCapability,
    Error,
>)
    ensures
        failure(current) == temporary_failure(found),
        current matches Ok(current) ==> found->Ok_0.current == Ok::<RecordCapability, Error>(current),
{
    let SessionTemporary { final_name, previous, current } = found?;
    match &final_name {
        None => {
            return Err(
                session_recovery("temporary session record basename is not a RecordTxn predecessor"),
            );
        },
        Some(name) => {
            if !session_record_name(name.as_slice()) {
                return Err(session_recovery("temporary record does not name a session record"));
            }
        },
    }
    let previous = previous?;
    let current = current?;
    if !session_precedes(&previous.record, &current.record) {
        return Err(
            session_recovery(
                "temporary session record is not the direct predecessor of its current record",
            ),
        );
    }
    Ok(current)
}

/// A temporary record that an exchange left behind, and how its removal went. What is no such record
/// is not removed.
pub fn gc_session_predecessor_temporary(
    found: Result<SessionTemporary, Error>,
    removed: Result<(), Error>,
) -> (current: Result<RecordCapability, Error>)
    ensures
        failure(current) == first_of(temporary_failure(found), failure(removed)),
        current matches Ok(current) ==> found->Ok_0.current == Ok::<RecordCapability, Error>(current),
{
    let current = session_predecessor_temporary(found)?;
    removed?;
    Ok(current)
}

/// What is seen of a session that is taken stock of. What does not bear on where its record stands is
/// not looked at.
#[derive(Debug)]
pub struct StockSeen {
    /// The template that it was cloned from is there.
    pub template: Result<(), Error>,
    /// The session is what its record says, where it is not READY.
    pub sound: Result<(), Error>,
    /// It could be loaded, and its private objects could be classified, where it is READY.
    pub loaded: Result<(), Error>,
    pub classified: Result<PrivateObjectPlan, Error>,
    pub current: Result<RecordCapability, Error>,
}

impl StockSeen {
    pub open spec fn stock_failure(self, capability: CapabilityView) -> Option<Failure> {
        let f = failure(self.template);
        let f = first_of(f, path_failure(capability.record.authority_path));
        if capability.record.payload is Ready {
            let f = first_of(f, failure(self.loaded));
            let f = first_of(f, failure(self.classified));
            first_of(f, revalidate_failure(self.current, capability))
        } else {
            first_of(f, failure(self.sound))
        }
    }
}

/// Whether a session stands as it should, and what is to become of its private objects.
pub fn take_stock(seen: StockSeen, capability: &RecordCapability) -> (plan: Result<
    Option<PrivateObjectPlan>,
    Error,
>)
    ensures
        failure(plan) == seen.stock_failure(capability@),
        plan matches Ok(plan) ==> match plan {
            Some(plan) => capability@.record.payload is Ready && seen.classified == Ok::<
                PrivateObjectPlan,
                Error,
            >(plan),
            None => !(capability@.record.payload is Ready),
        },
{
    let StockSeen { template, sound, loaded, classified, current } = seen;
    template?;
    authority_from_record(&capability.record)?;
    match &capability.record.payload {
        SessionPayload::Ready { .. } => {
            loaded?;
            let plan = classified?;
            revalidate_record(current, capability)?;
            Ok(Some(plan))
        },
        _ => {
            sound?;
            Ok(None)
        },
    }
}

/// What is found out about a name of the container of sessions.
#[derive(Debug)]
pub struct SessionName {
    pub name: Vec<u8>,
    /// What was read of it, where it is the name of a record, and how the session stands.
    pub record: Result<RecordCapability, Error>,
    pub stock: Result<Option<PrivateObjectPlan>, Error>,
    /// Whether it is something that the system leaves in every directory.
    pub ignorable: Result<bool, Error>,
    /// Whether it is a record that an exchange left behind, where it is the name of a temporary one.
    pub predecessor: Result<(), Error>,
}

pub struct SessionNameView {
    pub name: Seq<u8>,
    pub record: Option<CapabilityView>,
    pub sound: bool,
    pub plan: Option<PrivateObjectView>,
    pub ignorable: Result<bool, Failure>,
    pub predecessor: bool,
}

pub open spec fn plan_view(plan: Option<PrivateObjectPlan>) -> Option<PrivateObjectView> {
    match plan {
        Some(plan) => Some(plan@),
        None => None,
    }
}

impl View for SessionName {
    type V = SessionNameView;

    open spec fn view(&self) -> SessionNameView {
        SessionNameView {
            name: self.name@,
            record: match self.record {
                Ok(capability) => Some(capability@),
                Err(_) => None,
            },
            sound: self.stock is Ok,
            plan: match self.stock {
                Ok(plan) => plan_view(plan),
                Err(_) => None,
            },
            ignorable: match self.ignorable {
                Ok(is) => Ok(is),
                Err(error) => Err(error@),
            },
            predecessor: self.predecessor is Ok,
        }
    }
}

pub open spec fn session_name_views(names: Seq<SessionName>) -> Seq<SessionNameView> {
    Seq::new(names.len(), |i: int| names[i]@)
}

/// A session of a census: its record, and what is to become of its private objects.
#[derive(Debug)]
pub struct CensusCapability {
    pub capability: RecordCapability,
    pub private_objects: Option<PrivateObjectPlan>,
}

pub struct CensusCapabilityView {
    pub capability: CapabilityView,
    pub private_objects: Option<PrivateObjectView>,
}

impl View for CensusCapability {
    type V = CensusCapabilityView;

    open spec fn view(&self) -> CensusCapabilityView {
        CensusCapabilityView {
            capability: self.capability@,
            private_objects: plan_view(self.private_objects),
        }
    }
}

pub open spec fn census_capability_views(list: Seq<CensusCapability>) -> Seq<CensusCapabilityView> {
    Seq::new(list.len(), |i: int| list[i]@)
}

/// What there is of sessions.
#[derive(Debug)]
pub struct SessionCensus {
    /// The keys of the templates that sessions use, each once.
    pub reachable_templates: Vec<String>,
    pub capabilities: Vec<CensusCapability>,
    /// Records that an exchange left behind.
    pub temporaries: Vec<Vec<u8>>,
    pub report: MaintenanceReport,
}

#[verifier::ext_equal]
pub struct SessionCensusView {
    pub reachable_templates: Seq<Seq<char>>,
    pub capabilities: Seq<CensusCapabilityView>,
    pub temporaries: Seq<Seq<u8>>,
    pub report: ReportView,
}

pub open spec fn text_views(texts: Seq<String>) -> Seq<Seq<char>> {
    Seq::new(texts.len(), |i: int| texts[i]@)
}

impl View for SessionCensus {
    type V = SessionCensusView;

    open spec fn view(&self) -> SessionCensusView {
        SessionCensusView {
            reachable_templates: text_views(self.reachable_templates@),
            capabilities: census_capability_views(self.capabilities@),
            temporaries: views(self.temporaries@),
            report: self.report@,
        }
    }
}

impl SessionPayloadView {
    /// The names that stand in the container because of the record.
    pub open spec fn names(self) -> Seq<Seq<u8>> {
        match self {
            SessionPayloadView::Prepared { .. } => Seq::empty(),
            SessionPayloadView::Materializing { root_name, .. } => seq![utf8(root_name)],
            SessionPayloadView::Ready { root_name, .. } => seq![utf8(root_name)],
            SessionPayloadView::Tombstoned { root_name, tombstone_name, .. } => seq![
                utf8(root_name),
                utf8(tombstone_name),
            ],
        }
    }
}

impl SessionNameView {
    pub open spec fn is_record(self) -> bool {
        is_session_record_name(self.name)
    }

    /// The name belongs to the record, or is its own.
    pub open spec fn authorizes(self, name: Seq<u8>) -> bool {
        self.is_record() && (self.name == name || (self.record is Some
            && self.record->0.record.payload.names().contains(name)))
    }

    /// What a record says of its session.
    pub open spec fn told(self, report: ReportView) -> ReportView {
        let scope = "session"@;
        if !self.is_record() {
            report
        } else {
            match self.record {
                None => report.recovering(scope, self.name, self.name, "CORRUPT"@),
                Some(capability) => if !self.sound {
                    report.recovering(scope, self.name, self.name, capability.record.payload.state())
                } else if !(capability.record.journal is Idle) {
                    report.recovering(scope, self.name, self.name, "PUBLISH"@)
                } else {
                    report.with(
                        scope,
                        self.name,
                        self.name,
                        capability.record.payload.state(),
                        if capability.record.payload is Tombstoned {
                            "PENDING"@
                        } else {
                            "RETAINED"@
                        },
                    )
                },
            }
        }
    }

    /// What is said of a name that belongs to no record.
    pub open spec fn told_other(self, report: ReportView, report_temporary: bool) -> ReportView {
        let scope = "session"@;
        if self.is_temporary() {
            if !self.predecessor {
                report.recovering(scope, self.name, self.name, "TMP"@)
            } else if report_temporary {
                report.with(scope, self.name, self.name, "TMP"@, "RETAINED"@)
            } else {
                report
            }
        } else {
            report.recovering(scope, self.name, self.name, "UNKNOWN"@)
        }
    }

    pub open spec fn is_temporary(self) -> bool {
        utf8("."@).is_prefix_of(self.name) && utf8(".tmp"@).is_suffix_of(self.name)
    }
}

pub open spec fn is_authorized(names: Seq<SessionNameView>, name: Seq<u8>) -> bool {
    exists|i: int| 0 <= i < names.len() && (#[trigger] names[i]).authorizes(name)
}

/// The keys of the templates of the sessions that stand as they should, each once.
pub open spec fn reachable_keys(names: Seq<SessionNameView>) -> Seq<Seq<char>>
    decreases names.len(),
{
    if names.len() == 0 {
        Seq::empty()
    } else {
        let before = reachable_keys(names.drop_last());
        let last = names.last();
        if last.is_record() && last.record is Some && last.sound && !before.contains(
            last.record->0.record.template_key,
        ) {
            before.push(last.record->0.record.template_key)
        } else {
            before
        }
    }
}

pub open spec fn census_capabilities(names: Seq<SessionNameView>) -> Seq<CensusCapabilityView>
    decreases names.len(),
{
    if names.len() == 0 {
        Seq::empty()
    } else {
        let before = census_capabilities(names.drop_last());
        let last = names.last();
        if last.is_record() && last.record is Some {
            before.push(
                CensusCapabilityView { capability: last.record->0, private_objects: last.plan },
            )
        } else {
            before
        }
    }
}

pub open spec fn record_report(names: Seq<SessionNameView>) -> ReportView
    decreases names.len(),
{
    if names.len() == 0 {
        ReportView::blank()
    } else {
        names.last().told(record_report(names.drop_last()))
    }
}

/// Whether a name is passed over by the census: it belongs to a record of `all`, or to the system.
pub open spec fn is_passed_over(name: SessionNameView, all: Seq<SessionNameView>) -> bool {
    is_authorized(all, name.name) || name.ignorable == Ok::<bool, Failure>(true)
}

pub open spec fn left_behind(names: Seq<SessionNameView>, all: Seq<SessionNameView>) -> Seq<Seq<u8>>
    decreases names.len(),
{
    if names.len() == 0 {
        Seq::empty()
    } else {
        let before = left_behind(names.drop_last(), all);
        let last = names.last();
        if !is_passed_over(last, all) && last.is_temporary() && last.predecessor {
            before.push(last.name)
        } else {
            before
        }
    }
}

pub open spec fn other_report(
    report: ReportView,
    names: Seq<SessionNameView>,
    all: Seq<SessionNameView>,
    report_temporary: bool,
) -> ReportView
    decreases names.len(),
{
    if names.len() == 0 {
        report
    } else {
        let before = other_report(report, names.drop_last(), all, report_temporary);
        if is_passed_over(names.last(), all) {
            before
        } else {
            names.last().told_other(before, report_temporary)
        }
    }
}

/// The first name that belongs to no record and of which it cannot be told whether it is the system's.
pub open spec fn census_failure(names: Seq<SessionNameView>, all: Seq<SessionNameView>) -> Option<Failure>
    decreases names.len(),
{
    if names.len() == 0 {
        None
    } else {
        first_of(
            census_failure(names.drop_last(), all),
            if is_authorized(all, names.last().name) {
                None
            } else {
                match names.last().ignorable {
                    Err(error) => Some(error),
                    Ok(_) => None,
                }
            },
        )
    }
}

impl SessionCensusView {
    pub open spec fn of(names: Seq<SessionNameView>, report_temporary: bool) -> SessionCensusView {
        SessionCensusView {
            reachable_templates: reachable_keys(names),
            capabilities: census_capabilities(names),
            temporaries: left_behind(names, names),
            report: other_report(record_report(names), names, names, report_temporary),
        }
    }
}

fn payload_authorizes(payload: &SessionPayload, name: &[u8]) -> (does: bool)
    ensures
        does == payload@.names().contains(name@),
{
    let ghost names = payload@.names();
    match payload {
        SessionPayload::Prepared { .. } => false,
        SessionPayload::Materializing { root_name, .. } => {
            let same: bool = same_bytes(root_name.as_str().as_bytes(), name);
            proof {
                assert(names[0] == utf8(root_name@));
            }
            same
        },
        SessionPayload::Ready { root_name, .. } => {
            let same: bool = same_bytes(root_name.as_str().as_bytes(), name);
            proof {
                assert(names[0] == utf8(root_name@));
            }
            same
        },
        SessionPayload::Tombstoned { root_name, tombstone_name, .. } => {
            let same: bool = same_bytes(root_name.as_str().as_bytes(), name) || same_bytes(
                tombstone_name.as_str().as_bytes(),
                name,
            );
            proof {
                assert(names[0] == utf8(root_name@));
                assert(names[1] == utf8(tombstone_name@));
            }
            same
        },
    }
}

fn name_authorizes(found: &SessionName, name: &[u8]) -> (does: bool)
    ensures
        does == found@.authorizes(name@),
{
    if !session_record_name(found.name.as_slice()) {
        return false;
    }
    if same_bytes(found.name.as_slice(), name) {
        return true;
    }
    match &found.record {
        Ok(capability) => payload_authorizes(&capability.record.payload, name),
        Err(_) => false,
    }
}

fn authorized(names: &Vec<SessionName>, name: &[u8]) -> (is: bool)
    ensures
        is == is_authorized(session_name_views(names@), name@),
{
    let ghost all = session_name_views(names@);
    let mut i: usize = 0;
    while i < names.len()
        invariant
            i <= names@.len(),
            all == session_name_views(names@),
            forall|k: int| 0 <= k < i ==> !(#[trigger] all[k]).authorizes(name@),
        decreases names@.len() - i,
    {
        proof {
            assert(all[i as int] == names@[i as int]@);
        }
        if name_authorizes(&names[i], name) {
            return true;
        }
        i += 1;
    }
    false
}

fn has_text(texts: &Vec<String>, text: &str) -> (has: bool)
    ensures
        has == text_views(texts@).contains(text@),
{
    let mut i: usize = 0;
    while i < texts.len()
        invariant
            i <= texts@.len(),
            forall|k: int| 0 <= k < i ==> #[trigger] text_views(texts@)[k] != text@,
        decreases texts@.len() - i,
    {
        proof {
            assert(text_views(texts@)[i as int] == texts@[i as int]@);
        }
        if same_text(texts[i].as_str(), text) {
            return true;
        }
        i += 1;
    }
    proof {
        if text_views(texts@).contains(text@) {
            let k = choose|k: int| 0 <= k < text_views(texts@).len() && text_views(texts@)[k] == text@;
            assert(text_views(texts@)[k] != text@);
        }
    }
    false
}

/// Adds what a record says of its session to the report, and its template to those that are in use.
fn take_record(found: &SessionName, reachable: &mut Vec<String>, report: &mut MaintenanceReport)
    ensures
        final(report)@ == found@.told(old(report)@),
        text_views(final(reachable)@) == (if found@.is_record() && found@.record is Some
            && found@.sound && !text_views(old(reachable)@).contains(
            found@.record->0.record.template_key,
        ) {
            text_views(old(reachable)@).push(found@.record->0.record.template_key)
        } else {
            text_views(old(reachable)@)
        }),
{
    let name = found.name.as_slice();
    if !session_record_name(name) {
        return;
    }
    match &found.record {
        Err(_) => {
            report.recovery("session", name, name, "CORRUPT");
        },
        Ok(capability) => {
            let record = &capability.record;
            let (state, code): (&'static str, &'static str) = match &record.payload {
                SessionPayload::Prepared { .. } => ("CREATING", "RETAINED"),
                SessionPayload::Materializing { .. } => ("CREATING", "RETAINED"),
                SessionPayload::Ready { .. } => ("READY", "RETAINED"),
                SessionPayload::Tombstoned { .. } => ("TOMBSTONED", "PENDING"),
            };
            if found.stock.is_err() {
                report.recovery("session", name, name, state);
                return;
            }
            if !has_text(reachable, record.template_key.as_str()) {
                let ghost before = text_views(reachable@);
                reachable.push(record.template_key.clone());
                proof {
                    assert(text_views(reachable@) =~= before.push(record.template_key@));
                }
            }
            if !record.journal.is_idle() {
                report.recovery("session", name, name, "PUBLISH");
            } else {
                report.entry("session", name, name, state, code);
            }
        },
    }
}

fn take_capabilities(names: Vec<SessionName>) -> (capabilities: Vec<CensusCapability>)
    ensures
        census_capability_views(capabilities@) == census_capabilities(session_name_views(names@)),
{
    let ghost all = session_name_views(names@);
    let mut rest = names;
    let mut capabilities: Vec<CensusCapability> = Vec::new();
    let ghost mut i: int = 0;
    proof {
        assert(all.take(0) =~= Seq::<SessionNameView>::empty());
        assert(census_capability_views(capabilities@) =~= Seq::<CensusCapabilityView>::empty());
        assert(session_name_views(rest@) =~= all.skip(0));
    }
    while rest.len() > 0
        invariant
            0 <= i <= all.len(),
            session_name_views(rest@) == all.skip(i),
            census_capability_views(capabilities@) == census_capabilities(all.take(i)),
        decreases rest@.len(),
    {
        let ghost before = census_capability_views(capabilities@);
        let ghost left = rest@;
        proof {
            assert(session_name_views(left).len() == left.len());
            assert(session_name_views(left)[0] == left[0]@);
            assert(all.skip(i)[0] == all[i]);
            assert(all.take(i + 1).drop_last() =~= all.take(i));
            assert(all.take(i + 1).last() == all[i]);
        }
        let found = rest.remove(0);
        proof {
            assert(session_name_views(rest@) =~= all.skip(i + 1)) by {
                assert forall|k: int| 0 <= k < rest@.len() implies session_name_views(rest@)[k]
                    == all.skip(i + 1)[k] by {
                    assert(session_name_views(left)[k + 1] == left[k + 1]@);
                    assert(all.skip(i)[k + 1] == all[i + k + 1]);
                }
            }
        }
        let is_record: bool = session_record_name(found.name.as_slice());
        let SessionName { record, stock, .. } = found;
        let private_objects: Option<PrivateObjectPlan> = match stock {
            Ok(plan) => plan,
            Err(_) => None,
        };
        match record {
            Ok(capability) => {
                if is_record {
                    capabilities.push(CensusCapability { capability, private_objects });
                    proof {
                        let added = CensusCapabilityView {
                            capability: all[i].record->0,
                            private_objects: all[i].plan,
                        };
                        assert(capabilities@.last()@ == added);
                        assert(census_capability_views(capabilities@) =~= before.push(added));
                    }
                }
            },
            Err(_) => {},
        }
        proof {
            i = i + 1;
        }
    }
    proof {
        assert(session_name_views(rest@).len() == 0);
        assert(all.take(i) =~= all);
    }
    capabilities
}

/// What is said of a name that belongs to no record.
fn take_other(
    found: &SessionName,
    report_temporary: bool,
    temporaries: &mut Vec<Vec<u8>>,
    report: &mut MaintenanceReport,
)
    ensures
        final(report)@ == found@.told_other(old(report)@, report_temporary),
        views(final(temporaries)@) == (if found@.is_temporary() && found@.predecessor {
            views(old(temporaries)@).push(found@.name)
        } else {
            views(old(temporaries)@)
        }),
{
    let name = found.name.as_slice();
    if starts_with(name, ".".as_bytes()) && ends_with(name, ".tmp".as_bytes()) {
        match &found.predecessor {
            Ok(_) => {
                let ghost before = views(temporaries@);
                temporaries.push(copy_bytes(name));
                proof {
                    assert(views(temporaries@) =~= before.push(name@));
                }
                if report_temporary {
                    report.entry("session", name, name, "TMP", "RETAINED");
                }
            },
            Err(_) => {
                report.recovery("session", name, name, "TMP");
            },
        }
    } else {
        report.recovery("session", name, name, "UNKNOWN");
    }
}

/// What there is of sessions, from what was found out about each name.
pub fn session_census(names: Result<Vec<SessionName>, Error>, report_temporary: bool) -> (census: Result<
    SessionCensus,
    Error,
>)
    ensures
        failure(census) == match names {
            Err(error) => Some(error@),
            Ok(names) => census_failure(session_name_views(names@), session_name_views(names@)),
        },
        census matches Ok(census) ==> census@ == SessionCensusView::of(
            session_name_views(names->Ok_0@),
            report_temporary,
        ),
{
    match names {
        Err(error) => Err(error),
        Ok(names) => census_of(names, report_temporary),
    }
}

fn census_of(names: Vec<SessionName>, report_temporary: bool) -> (census: Result<
    SessionCensus,
    Error,
>)
    ensures
        failure(census) == census_failure(session_name_views(names@), session_name_views(names@)),
        census matches Ok(census) ==> census@ == SessionCensusView::of(
            session_name_views(names@),
            report_temporary,
        ),
{
    let ghost all = session_name_views(names@);
    let mut reachable_templates: Vec<String> = Vec::new();
    let mut temporaries: Vec<Vec<u8>> = Vec::new();
    let mut report = MaintenanceReport::blank();
    proof {
        assert(all.take(0) =~= Seq::<SessionNameView>::empty());
        assert(text_views(reachable_templates@) =~= Seq::<Seq<char>>::empty());
        assert(views(temporaries@) =~= Seq::<Seq<u8>>::empty());
    }
    let mut i: usize = 0;
    while i < names.len()
        invariant
            i <= names@.len(),
            all == session_name_views(names@),
            report@ == record_report(all.take(i as int)),
            text_views(reachable_templates@) == reachable_keys(all.take(i as int)),
        decreases names@.len() - i,
    {
        proof {
            assert(all[i as int] == names@[i as int]@);
            assert(all.take(i + 1).drop_last() =~= all.take(i as int));
            assert(all.take(i + 1).last() == all[i as int]);
        }
        take_record(&names[i], &mut reachable_templates, &mut report);
        i += 1;
    }
    proof {
        assert(all.take(i as int) =~= all);
    }
    let ghost records = report@;
    let mut i: usize = 0;
    while i < names.len()
        invariant
            i <= names@.len(),
            all == session_name_views(names@),
            report@ == other_report(records, all.take(i as int), all, report_temporary),
            views(temporaries@) == left_behind(all.take(i as int), all),
            census_failure(all.take(i as int), all) is None,
        decreases names@.len() - i,
    {
        let found = &names[i];
        proof {
            assert(all[i as int] == found@);
            assert(all.take(i + 1).drop_last() =~= all.take(i as int));
            assert(all.take(i + 1).last() == all[i as int]);
        }
        if !authorized(&names, found.name.as_slice()) {
            match &found.ignorable {
                Err(error) => {
                    proof {
                        lemma_first_census_failure(all, all, i + 1);
                    }
                    return Err(error.copy());
                },
                Ok(ignorable) => {
                    if !*ignorable {
                        take_other(found, report_temporary, &mut temporaries, &mut report);
                    }
                },
            }
        }
        i += 1;
    }
    proof {
        assert(all.take(i as int) =~= all);
    }
    let capabilities = take_capabilities(names);
    Ok(SessionCensus { reachable_templates, capabilities, temporaries, report })
}

proof fn lemma_first_census_failure(names: Seq<SessionNameView>, all: Seq<SessionNameView>, at: int)
    requires
        0 <= at <= names.len(),
        census_failure(names.take(at), all) is Some,
    ensures
        census_failure(names, all) == census_failure(names.take(at), all),
    decreases names.len(),
{
    if at == names.len() {
        assert(names.take(at) =~= names);
    } else {
        assert(names.drop_last().take(at) =~= names.take(at));
        lemma_first_census_failure(names.drop_last(), all, at);
    }
}

proof fn lemma_recovery_stays(
    report: ReportView,
    names: Seq<SessionNameView>,
    all: Seq<SessionNameView>,
    report_temporary: bool,
)
    ensures
        report.recovery_required ==> other_report(
            report,
            names,
            all,
            report_temporary,
        ).recovery_required,
    decreases names.len(),
{
    if names.len() > 0 {
        lemma_recovery_stays(report, names.drop_last(), all, report_temporary);
    }
}

proof fn lemma_records_are_told(names: Seq<SessionNameView>, at: int)
    requires
        0 <= at < names.len(),
        names[at].is_record(),
        !record_report(names).recovery_required,
    ensures
        names[at].record is Some,
        names[at].sound,
        names[at].record->0.record.journal is Idle,
        reachable_keys(names).contains(names[at].record->0.record.template_key),
    decreases names.len(),
{
    let before = reachable_keys(names.drop_last());
    let keys = reachable_keys(names);
    let last = names.last();
    if at == names.len() - 1 {
        let key = last.record->0.record.template_key;
        if before.contains(key) {
            assert(keys == before);
        } else {
            assert(keys.last() == key);
        }
    } else {
        lemma_records_are_told(names.drop_last(), at);
        let key = names[at].record->0.record.template_key;
        assert(names.drop_last()[at] == names[at]);
        let k = choose|k: int| 0 <= k < before.len() && before[k] == key;
        assert(keys[k] == key);
    }
}

/// A census that asks for no recovery has seen every record: each one can be trusted, its session stands
/// as it should and is not being published, and its template counts as used.
pub proof fn law_census_misses_no_record(names: Seq<SessionNameView>, report_temporary: bool, at: int)
    requires
        0 <= at < names.len(),
        names[at].is_record(),
        !SessionCensusView::of(names, report_temporary).report.recovery_required,
    ensures
        names[at].record is Some,
        names[at].sound,
        names[at].record->0.record.journal is Idle,
        SessionCensusView::of(names, report_temporary).reachable_templates.contains(
            names[at].record->0.record.template_key,
        ),
{
    lemma_recovery_stays(record_report(names), names, names, report_temporary);
    lemma_records_are_told(names, at);
}

/// Each template that is used is named once.
pub proof fn law_reachable_templates_are_distinct(names: Seq<SessionNameView>)
    ensures
        reachable_keys(names).no_duplicates(),
    decreases names.len(),
{
    if names.len() > 0 {
        law_reachable_templates_are_distinct(names.drop_last());
    }
}

proof fn lemma_others_are_told(
    report: ReportView,
    names: Seq<SessionNameView>,
    all: Seq<SessionNameView>,
    report_temporary: bool,
    at: int,
)
    requires
        0 <= at < names.len(),
        !other_report(report, names, all, report_temporary).recovery_required,
    ensures
        is_passed_over(names[at], all) || (names[at].is_temporary() && names[at].predecessor),
        !is_passed_over(names[at], all) ==> left_behind(names, all).contains(names[at].name),
    decreases names.len(),
{
    let before = left_behind(names.drop_last(), all);
    let left = left_behind(names, all);
    if at == names.len() - 1 {
        if !is_passed_over(names[at], all) {
            assert(left.last() == names[at].name);
        }
    } else {
        lemma_others_are_told(report, names.drop_last(), all, report_temporary, at);
        assert(names.drop_last()[at] == names[at]);
        if before.contains(names[at].name) {
            let k = choose|k: int| 0 <= k < before.len() && before[k] == names[at].name;
            assert(left[k] == names[at].name);
        }
    }
}

/// A census that asks for no recovery can place every name: it belongs to a record, or to the system, or
/// is a record that an exchange left behind.
pub proof fn law_census_places_every_name(names: Seq<SessionNameView>, report_temporary: bool, at: int)
    requires
        0 <= at < names.len(),
        !SessionCensusView::of(names, report_temporary).report.recovery_required,
    ensures
        is_passed_over(names[at], names) || SessionCensusView::of(
            names,
            report_temporary,
        ).temporaries.contains(names[at].name),
{
    lemma_others_are_told(record_report(names), names, names, report_temporary, at);
}

/// The collection of what a census has found.
#[derive(Debug)]
pub struct SessionGc {
    pub temporaries: Vec<Vec<u8>>,
    pub capabilities: Vec<CensusCapability>,
    pub report: MaintenanceReport,
    pub cleaned: usize,
    pub collected: usize,
    pub ended: bool,
}

pub struct SessionGcView {
    pub temporaries: Seq<Seq<u8>>,
    pub capabilities: Seq<CensusCapabilityView>,
    pub report: ReportView,
    pub cleaned: int,
    pub collected: int,
    pub ended: bool,
}

impl View for SessionGc {
    type V = SessionGcView;

    open spec fn view(&self) -> SessionGcView {
        SessionGcView {
            temporaries: views(self.temporaries@),
            capabilities: census_capability_views(self.capabilities@),
            report: self.report@,
            cleaned: self.cleaned as int,
            collected: self.collected as int,
            ended: self.ended,
        }
    }
}

#[derive(Clone, Copy, Debug, PartialEq, Eq, Structural)]
pub enum SessionGcAction {
    /// Remove the temporary record of this number.
    CleanTemporary(usize),
    /// Bury the session of this number, which is TOMBSTONED.
    Bury(usize),
    /// Collect the private objects of the session of this number, which is READY.
    CollectLoose(usize),
    Nothing,
}

/// What a collection has to do with a session.
pub open spec fn session_task(session: CensusCapabilityView, at: int) -> Option<SessionGcAction> {
    match session.capability.record.payload {
        SessionPayloadView::Tombstoned { .. } => Some(SessionGcAction::Bury(at as usize)),
        SessionPayloadView::Ready { .. } => if session.capability.record.journal is Idle {
            Some(SessionGcAction::CollectLoose(at as usize))
        } else {
            None
        },
        _ => None,
    }
}

impl SessionGcView {
    pub open spec fn starting(census: SessionCensusView) -> SessionGcView {
        SessionGcView {
            temporaries: census.temporaries,
            capabilities: census.capabilities,
            report: ReportView::blank(),
            cleaned: 0,
            collected: 0,
            ended: false,
        }.settle()
    }

    /// Goes on to the next session that there is something to do with. A READY session whose private
    /// objects were not classified stops the collection.
    pub open spec fn settle(self) -> SessionGcView
        decreases self.capabilities.len() - self.collected,
    {
        if self.cleaned < self.temporaries.len() {
            self
        } else if self.collected >= self.capabilities.len() {
            SessionGcView { ended: true, ..self }
        } else {
            let session = self.capabilities[self.collected];
            match session_task(session, self.collected) {
                None => SessionGcView { collected: self.collected + 1, ..self }.settle(),
                Some(SessionGcAction::CollectLoose(_)) => if session.private_objects is Some {
                    self
                } else {
                    self.stop(session.capability.basename, session.capability.basename, "READY"@)
                },
                Some(_) => self,
            }
        }
    }

    pub open spec fn stop(self, name: Seq<u8>, path: Seq<u8>, state: Seq<char>) -> SessionGcView {
        SessionGcView {
            report: self.report.recovering("session"@, name, path, state),
            ended: true,
            ..self
        }
    }

    pub open spec fn told(
        self,
        name: Seq<u8>,
        path: Seq<u8>,
        state: Seq<char>,
        code: Seq<char>,
    ) -> SessionGcView {
        SessionGcView { report: self.report.with("session"@, name, path, state, code), ..self }
    }

    pub open spec fn asks(self) -> SessionGcAction {
        if self.ended {
            SessionGcAction::Nothing
        } else if self.cleaned < self.temporaries.len() {
            SessionGcAction::CleanTemporary(self.cleaned as usize)
        } else if self.collected < self.capabilities.len() {
            match session_task(self.capabilities[self.collected], self.collected) {
                Some(task) => task,
                None => SessionGcAction::Nothing,
            }
        } else {
            SessionGcAction::Nothing
        }
    }

    /// A temporary record was removed, or not.
    pub open spec fn cleaned(self, done: Result<RecordCapability, Error>) -> SessionGcView {
        if !(self.asks() is CleanTemporary) {
            self
        } else {
            let name = self.temporaries[self.cleaned];
            match done {
                Err(_) => self.stop(name, name, "TMP"@),
                Ok(_) => SessionGcView { cleaned: self.cleaned + 1, ..self }.told(
                    name,
                    name,
                    "TMP"@,
                    "REMOVED"@,
                ).settle(),
            }
        }
    }

    pub open spec fn passed(self) -> SessionGcView {
        SessionGcView { collected: self.collected + 1, ..self }.settle()
    }

    /// A session was buried, or not.
    pub open spec fn buried(self, done: Result<(), Error>) -> SessionGcView {
        if !(self.asks() is Bury) {
            self
        } else {
            let capability = self.capabilities[self.collected].capability;
            let path = utf8(capability.record.payload->tombstone_name);
            match done {
                Err(_) => self.stop(capability.basename, path, "TOMBSTONED"@),
                Ok(_) => self.told(
                    capability.basename,
                    path,
                    "TOMBSTONED"@,
                    "REMOVED"@,
                ).passed(),
            }
        }
    }

    /// The private objects of a session were collected, or not; `report` says what was done in any case.
    pub open spec fn loosened(self, report: ReportView, done: Result<(), Error>) -> SessionGcView {
        if !(self.asks() is CollectLoose) {
            self
        } else {
            let name = self.capabilities[self.collected].capability.basename;
            let next = SessionGcView { report: self.report.merged(report), ..self };
            match done {
                Ok(_) => next.passed(),
                Err(error) => if error@.0 == "SESSION_BUSY"@ {
                    next.told(name, name, "READY"@, "BUSY"@).passed()
                } else {
                    next.stop(name, name, "READY"@)
                },
            }
        }
    }
}

impl SessionGc {
    fn settle(&mut self)
        ensures
            final(self)@ == old(self)@.settle(),
    {
        if self.cleaned < self.temporaries.len() {
            return;
        }
        let ghost start = self@;
        while self.collected < self.capabilities.len()
            invariant
                self@.cleaned >= self@.temporaries.len(),
                start == old(self)@,
                self@.settle() == start.settle(),
            decreases self.capabilities@.len() - self.collected,
        {
            let session = &self.capabilities[self.collected];
            proof {
                assert(self@.capabilities[self.collected as int] == session@);
            }
            match &session.capability.record.payload {
                SessionPayload::Tombstoned { .. } => {
                    return;
                },
                SessionPayload::Ready { .. } => {
                    if session.capability.record.journal.is_idle() {
                        if session.private_objects.is_none() {
                            let name = copy_bytes(session.capability.basename.as_slice());
                            self.stop(name.as_slice(), name.as_slice(), "READY");
                        }
                        return;
                    }
                },
                _ => {},
            }
            self.collected = self.collected + 1;
        }
        self.ended = true;
    }

    fn stop(&mut self, name: &[u8], path: &[u8], state: &'static str)
        ensures
            final(self)@ == old(self)@.stop(name@, path@, state@),
    {
        self.report.recovery("session", name, path, state);
        self.ended = true;
    }

    fn pass(&mut self)
        requires
            old(self)@.collected < old(self)@.capabilities.len(),
        ensures
            final(self)@ == old(self)@.passed(),
    {
        let count: usize = self.capabilities.len();
        assert(self.collected < count);
        self.collected = self.collected + 1;
        self.settle();
    }

    pub fn action(&self) -> (action: SessionGcAction)
        ensures
            action == self@.asks(),
    {
        if self.ended {
            return SessionGcAction::Nothing;
        }
        if self.cleaned < self.temporaries.len() {
            return SessionGcAction::CleanTemporary(self.cleaned);
        }
        if self.collected >= self.capabilities.len() {
            return SessionGcAction::Nothing;
        }
        let session = &self.capabilities[self.collected];
        proof {
            assert(self@.capabilities[self.collected as int] == session@);
        }
        match &session.capability.record.payload {
            SessionPayload::Tombstoned { .. } => SessionGcAction::Bury(self.collected),
            SessionPayload::Ready { .. } => if session.capability.record.journal.is_idle() {
                SessionGcAction::CollectLoose(self.collected)
            } else {
                SessionGcAction::Nothing
            },
            _ => SessionGcAction::Nothing,
        }
    }

    /// Takes note of how a temporary record was removed.
    pub fn clean(&mut self, done: Result<RecordCapability, Error>)
        ensures
            final(self)@ == old(self)@.cleaned(done),
    {
        match self.action() {
            SessionGcAction::CleanTemporary(_) => {},
            _ => {
                return;
            },
        }
        let count: usize = self.temporaries.len();
        let name = copy_bytes(self.temporaries[self.cleaned].as_slice());
        proof {
            assert(self.cleaned < count);
            assert(self@.temporaries[self.cleaned as int] == name@);
        }
        match done {
            Err(_) => {
                self.stop(name.as_slice(), name.as_slice(), "TMP");
            },
            Ok(_) => {
                self.cleaned = self.cleaned + 1;
                self.report.entry("session", name.as_slice(), name.as_slice(), "TMP", "REMOVED");
                self.settle();
            },
        }
    }

    /// Takes note of how a session was buried.
    pub fn bury(&mut self, done: Result<(), Error>)
        ensures
            final(self)@ == old(self)@.buried(done),
    {
        match self.action() {
            SessionGcAction::Bury(_) => {},
            _ => {
                return;
            },
        }
        let capability = &self.capabilities[self.collected].capability;
        proof {
            assert(self@.capabilities[self.collected as int].capability == capability@);
        }
        let name = copy_bytes(capability.basename.as_slice());
        let path = match &capability.record.payload {
            SessionPayload::Tombstoned { tombstone_name, .. } => copy_bytes(
                tombstone_name.as_str().as_bytes(),
            ),
            _ => {
                return;
            },
        };
        match done {
            Err(_) => {
                self.stop(name.as_slice(), path.as_slice(), "TOMBSTONED");
            },
            Ok(_) => {
                self.report.entry(
                    "session",
                    name.as_slice(),
                    path.as_slice(),
                    "TOMBSTONED",
                    "REMOVED",
                );
                self.pass();
            },
        }
    }

    /// Takes note of how the private objects of a session were collected.
    pub fn loosen(&mut self, report: MaintenanceReport, done: Result<(), Error>)
        ensures
            final(self)@ == old(self)@.loosened(report@, done),
    {
        match self.action() {
            SessionGcAction::CollectLoose(_) => {},
            _ => {
                return;
            },
        }
        let capability = &self.capabilities[self.collected].capability;
        proof {
            assert(self@.capabilities[self.collected as int].capability == capability@);
        }
        let name = copy_bytes(capability.basename.as_slice());
        let mut report = report;
        merge_maintenance(&mut self.report, &mut report);
        match done {
            Ok(_) => {
                self.pass();
            },
            Err(error) => {
                if error.has_code("SESSION_BUSY") {
                    self.report.entry("session", name.as_slice(), name.as_slice(), "READY", "BUSY");
                    self.pass();
                } else {
                    self.stop(name.as_slice(), name.as_slice(), "READY");
                }
            },
        }
    }
}

/// The collection of what a census of the sessions has found.
pub fn gc_sessions(census: SessionCensus) -> (gc: SessionGc)
    ensures
        gc@ == SessionGcView::starting(census@),
{
    let SessionCensus { capabilities, temporaries, .. } = census;
    let mut gc = SessionGc {
        temporaries,
        capabilities,
        report: MaintenanceReport::blank(),
        cleaned: 0,
        collected: 0,
        ended: false,
    };
    gc.settle();
    gc
}

proof fn lemma_settling(gc: SessionGcView)
    ensures
        gc.settle().report.recovery_required ==> gc.report.recovery_required || gc.settle().ended,
        gc.settle().collected >= gc.collected,
        gc.settle().cleaned == gc.cleaned,
    decreases gc.capabilities.len() - gc.collected,
{
    if gc.cleaned < gc.temporaries.len() {
    } else if gc.collected >= gc.capabilities.len() {
    } else if session_task(gc.capabilities[gc.collected], gc.collected) is None {
        lemma_settling(SessionGcView { collected: gc.collected + 1, ..gc });
    }
}

/// Once anything has to be recovered by hand, the collection has ended and asks for nothing more.
pub proof fn law_session_gc_fails_closed(
    gc: SessionGcView,
    temporary: Result<RecordCapability, Error>,
    done: Result<(), Error>,
    report: ReportView,
)
    requires
        gc.report.recovery_required ==> gc.ended,
        !report.recovery_required,
    ensures
        gc.cleaned(temporary).report.recovery_required ==> gc.cleaned(temporary).ended,
        gc.buried(done).report.recovery_required ==> gc.buried(done).ended,
        gc.loosened(report, done).report.recovery_required ==> gc.loosened(report, done).ended,
        gc.ended ==> gc.asks() is Nothing && gc.cleaned(temporary) == gc && gc.buried(done) == gc
            && gc.loosened(report, done) == gc,
{
    if !gc.ended {
        if gc.asks() is CleanTemporary {
            let name = gc.temporaries[gc.cleaned];
            lemma_settling(
                SessionGcView { cleaned: gc.cleaned + 1, ..gc }.told(
                    name,
                    name,
                    "TMP"@,
                    "REMOVED"@,
                ),
            );
        }
        if gc.asks() is Bury {
            let capability = gc.capabilities[gc.collected].capability;
            let told = gc.told(
                capability.basename,
                utf8(capability.record.payload->tombstone_name),
                "TOMBSTONED"@,
                "REMOVED"@,
            );
            lemma_settling(SessionGcView { collected: gc.collected + 1, ..told });
        }
        if gc.asks() is CollectLoose {
            let name = gc.capabilities[gc.collected].capability.basename;
            let next = SessionGcView { report: gc.report.merged(report), ..gc };
            lemma_settling(SessionGcView { collected: gc.collected + 1, ..next });
            lemma_settling(
                SessionGcView {
                    collected: gc.collected + 1,
                    ..next.told(name, name, "READY"@, "BUSY"@)
                },
            );
        }
    }
}

proof fn lemma_settled(gc: SessionGcView)
    ensures
        gc.settle().asks() is CollectLoose ==> gc.settle().capabilities[gc.settle().collected].private_objects is Some,
        gc.settle().capabilities == gc.capabilities,
    decreases gc.capabilities.len() - gc.collected,
{
    if gc.cleaned < gc.temporaries.len() {
    } else if gc.collected >= gc.capabilities.len() {
    } else if session_task(gc.capabilities[gc.collected], gc.collected) is None {
        lemma_settled(SessionGcView { collected: gc.collected + 1, ..gc });
    }
}

/// Only sessions that are TOMBSTONED are buried, and private objects are collected only of sessions that
/// are READY and are not being published.
pub proof fn law_collections_fit_their_records(gc: SessionGcView)
    ensures
        gc.asks() is Bury ==> gc.capabilities[gc.collected].capability.record.payload is Tombstoned,
        gc.asks() is CollectLoose ==> gc.capabilities[gc.collected].capability.record.payload is Ready
            && gc.capabilities[gc.collected].capability.record.journal is Idle,
        gc.settle().asks() is CollectLoose ==> gc.settle().capabilities[gc.settle().collected].private_objects is Some,
{
    lemma_settled(gc);
}

} // verus!
