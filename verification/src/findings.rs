//! What a report says has to be recovered by hand: its findings. A report asks for recovery exactly
//! where it holds one.

use crate::authority::Error;
use crate::bytes::utf8;
use crate::loose_gc::{LooseGcEvent, LooseGcView};
use crate::maintenance::{
    entry_keys, entry_lines, item_count, with_container, MaintainEvent, MaintainStageView,
    MaintainView, ScanView, StateName,
};
use crate::order::{is_arranged, law_arranging_sorts};
use crate::private_objects::PrivateObjectView;
use crate::session::{CapabilityView, RecordCapability};
use crate::session_gc::{
    other_report, record_report, session_task, SessionCensusView, SessionGcView, SessionNameView,
};
use crate::template::{EntryView, ReportView};
use crate::template_gc::{diagnosed, CensusNameView, CensusView, GcView};
use crate::template_roots::TemplateCapabilityView;
use vstd::prelude::*;

verus! {

pub open spec fn has_finding(entries: Seq<EntryView>) -> bool {
    exists|i: int| 0 <= i < entries.len() && !(#[trigger] entries[i]).is_item()
}

impl ReportView {
    /// It asks for recovery exactly where it holds a finding.
    pub open spec fn is_honest(self) -> bool {
        self.recovery_required == has_finding(self.entries)
    }
}

/// None of these codes is that of a finding.
proof fn lemma_item_codes()
    ensures
        "OK"@ != "RECOVERY_REQUIRED"@,
        "RECOVERY"@ != "RECOVERY_REQUIRED"@,
        "RETAINED"@ != "RECOVERY_REQUIRED"@,
        "PENDING"@ != "RECOVERY_REQUIRED"@,
        "REMOVED"@ != "RECOVERY_REQUIRED"@,
        "BUSY"@ != "RECOVERY_REQUIRED"@,
{
    reveal_strlit("OK");
    reveal_strlit("RECOVERY");
    reveal_strlit("RETAINED");
    reveal_strlit("PENDING");
    reveal_strlit("REMOVED");
    reveal_strlit("BUSY");
    reveal_strlit("RECOVERY_REQUIRED");
    let finding = "RECOVERY_REQUIRED"@.len();
    assert("OK"@.len() != finding && "RECOVERY"@.len() != finding && "RETAINED"@.len() != finding);
    assert("PENDING"@.len() != finding && "REMOVED"@.len() != finding && "BUSY"@.len() != finding);
}

proof fn lemma_with(
    report: ReportView,
    scope: Seq<char>,
    record_name: Seq<u8>,
    path_name: Seq<u8>,
    state: Seq<char>,
    code: Seq<char>,
)
    requires
        report.is_honest(),
        code != "RECOVERY_REQUIRED"@,
    ensures
        report.with(scope, record_name, path_name, state, code).is_honest(),
{
    let entries = report.with(scope, record_name, path_name, state, code).entries;
    assert forall|i: int| 0 <= i < report.entries.len() implies #[trigger] entries[i]
        == report.entries[i] by {}
    if has_finding(report.entries) {
        let i = choose|i: int|
            0 <= i < report.entries.len() && !(#[trigger] report.entries[i]).is_item();
        assert(!entries[i].is_item());
    }
}

proof fn lemma_recovering(
    report: ReportView,
    scope: Seq<char>,
    record_name: Seq<u8>,
    path_name: Seq<u8>,
    state: Seq<char>,
)
    ensures
        report.recovering(scope, record_name, path_name, state).is_honest(),
{
    let entries = report.recovering(scope, record_name, path_name, state).entries;
    assert(!entries[entries.len() - 1].is_item());
}

proof fn lemma_merged(report: ReportView, other: ReportView)
    requires
        report.is_honest(),
        other.is_honest(),
    ensures
        report.merged(other).is_honest(),
{
    let entries = report.merged(other).entries;
    let length = report.entries.len() as int;
    if has_finding(report.entries) {
        let i = choose|i: int|
            0 <= i < report.entries.len() && !(#[trigger] report.entries[i]).is_item();
        assert(!entries[i].is_item());
    }
    if has_finding(other.entries) {
        let i = choose|i: int|
            0 <= i < other.entries.len() && !(#[trigger] other.entries[i]).is_item();
        assert(!entries[length + i].is_item());
    }
    if has_finding(entries) {
        let i = choose|i: int| 0 <= i < entries.len() && !(#[trigger] entries[i]).is_item();
        if i < length {
            assert(!report.entries[i].is_item());
        } else {
            assert(!other.entries[i - length].is_item());
        }
    }
}

proof fn lemma_diagnosed(report: ReportView, capability: TemplateCapabilityView, valid: bool)
    requires
        report.is_honest(),
    ensures
        diagnosed(report, capability, valid).is_honest(),
{
    lemma_item_codes();
    assert forall|path: Seq<u8>, state: Seq<char>|
        #[trigger] report.recovering("template"@, capability.basename, path, state).is_honest() by {
        lemma_recovering(report, "template"@, capability.basename, path, state);
    }
    assert forall|path: Seq<u8>, state: Seq<char>, code: Seq<char>|
        code != "RECOVERY_REQUIRED"@ implies #[trigger] report.with(
        "template"@,
        capability.basename,
        path,
        state,
        code,
    ).is_honest() by {
        lemma_with(report, "template"@, capability.basename, path, state, code);
    }
}

proof fn lemma_template_records(names: Seq<CensusNameView>)
    ensures
        CensusView::records(names).report.is_honest(),
    decreases names.len(),
{
    if names.len() > 0 {
        let before = CensusView::records(names.drop_last());
        let name = names.last();
        lemma_template_records(names.drop_last());
        lemma_recovering(before.report, "template"@, name.name, name.name, "CORRUPT"@);
        if name.record is Some {
            lemma_diagnosed(before.report, name.record->0, name.valid);
        }
    }
}

proof fn lemma_template_others(
    census: CensusView,
    names: Seq<CensusNameView>,
    all: Seq<CensusNameView>,
    report_temporary: bool,
)
    requires
        census.report.is_honest(),
    ensures
        census.others(names, all, report_temporary).report.is_honest(),
    decreases names.len(),
{
    if names.len() > 0 {
        let before = census.others(names.drop_last(), all, report_temporary);
        let name = names.last().name;
        lemma_template_others(census, names.drop_last(), all, report_temporary);
        lemma_item_codes();
        lemma_with(before.report, "template"@, name, name, "TMP"@, "RETAINED"@);
        lemma_recovering(before.report, "template"@, name, name, "TMP"@);
        lemma_recovering(before.report, "template"@, name, name, "UNKNOWN"@);
    }
}

/// A census of the templates asks for recovery exactly where it reports a finding.
pub proof fn law_template_census_is_honest(names: Seq<CensusNameView>, report_temporary: bool)
    ensures
        CensusView::of(names, report_temporary).report.is_honest(),
{
    lemma_template_records(names);
    lemma_template_others(CensusView::records(names), names, names, report_temporary);
}

proof fn lemma_template_gc_adds(gc: GcView, name: Seq<u8>, state: Seq<char>, code: Seq<char>)
    requires
        gc.report.is_honest(),
    ensures
        gc.stop(name, state).report.is_honest(),
        code != "RECOVERY_REQUIRED"@ ==> gc.item(name, state, code).report.is_honest(),
        code != "RECOVERY_REQUIRED"@ ==> gc.item(name, state, code).settle().report.is_honest(),
        gc.settle().report.is_honest(),
{
    lemma_recovering(gc.report, "template"@, name, name, state);
    if gc.collected < gc.capabilities.len() {
        let basename = gc.capabilities[gc.collected].basename;
        lemma_recovering(gc.report, "template"@, basename, basename, "INCOMPLETE"@);
        lemma_recovering(
            gc.item(name, state, code).report,
            "template"@,
            basename,
            basename,
            "INCOMPLETE"@,
        );
    }
    if code != "RECOVERY_REQUIRED"@ {
        lemma_with(gc.report, "template"@, name, name, state, code);
    }
}

/// Collecting templates asks for recovery exactly where it reports a finding, whatever is answered.
pub proof fn law_template_gc_is_honest(
    gc: GcView,
    census: CensusView,
    done: Result<(), Error>,
    outcome: Result<bool, Error>,
)
    requires
        gc.report.is_honest(),
        census.report.is_honest(),
    ensures
        GcView::starting(census).report.is_honest(),
        gc.cleaned(done).report.is_honest(),
        gc.collected(outcome).report.is_honest(),
{
    lemma_item_codes();
    let fresh = GcView {
        temporaries: census.temporaries,
        capabilities: census.capabilities,
        report: ReportView { entries: Seq::empty(), recovery_required: false },
        cleaned: 0,
        collected: 0,
        ended: false,
    };
    lemma_template_gc_adds(fresh, Seq::empty(), ""@, "OK"@);
    if gc.is_cleaning() {
        let name = gc.temporaries[gc.cleaned];
        let next = GcView { cleaned: gc.cleaned + 1, ..gc };
        lemma_template_gc_adds(gc, name, "TMP"@, "OK"@);
        lemma_template_gc_adds(next, name, "TMP"@, "REMOVED"@);
    }
    if gc.is_collecting() {
        let name = gc.capabilities[gc.collected].basename;
        let next = GcView { collected: gc.collected + 1, ..gc };
        lemma_template_gc_adds(next, name, "TOMBSTONED"@, "REMOVED"@);
        lemma_template_gc_adds(next, name, "READY"@, "RETAINED"@);
        lemma_template_gc_adds(next, name, "TOMBSTONED"@, "RETAINED"@);
        lemma_template_gc_adds(next, name, "READY"@, "BUSY"@);
        lemma_template_gc_adds(gc, name, "READY"@, "OK"@);
        lemma_template_gc_adds(gc, name, "TOMBSTONED"@, "OK"@);
    }
}

proof fn lemma_session_told(name: SessionNameView, report: ReportView, report_temporary: bool)
    requires
        report.is_honest(),
    ensures
        name.told(report).is_honest(),
        name.told_other(report, report_temporary).is_honest(),
{
    lemma_item_codes();
    assert forall|state: Seq<char>|
        #[trigger] report.recovering("session"@, name.name, name.name, state).is_honest() by {
        lemma_recovering(report, "session"@, name.name, name.name, state);
    }
    assert forall|state: Seq<char>, code: Seq<char>|
        code != "RECOVERY_REQUIRED"@ implies #[trigger] report.with(
        "session"@,
        name.name,
        name.name,
        state,
        code,
    ).is_honest() by {
        lemma_with(report, "session"@, name.name, name.name, state, code);
    }
}

proof fn lemma_session_records(names: Seq<SessionNameView>)
    ensures
        record_report(names).is_honest(),
    decreases names.len(),
{
    if names.len() > 0 {
        lemma_session_records(names.drop_last());
        lemma_session_told(names.last(), record_report(names.drop_last()), false);
    }
}

proof fn lemma_session_others(
    report: ReportView,
    names: Seq<SessionNameView>,
    all: Seq<SessionNameView>,
    report_temporary: bool,
)
    requires
        report.is_honest(),
    ensures
        other_report(report, names, all, report_temporary).is_honest(),
    decreases names.len(),
{
    if names.len() > 0 {
        lemma_session_others(report, names.drop_last(), all, report_temporary);
        lemma_session_told(
            names.last(),
            other_report(report, names.drop_last(), all, report_temporary),
            report_temporary,
        );
    }
}

/// A census of the sessions asks for recovery exactly where it reports a finding.
pub proof fn law_session_census_is_honest(names: Seq<SessionNameView>, report_temporary: bool)
    ensures
        SessionCensusView::of(names, report_temporary).report.is_honest(),
{
    lemma_session_records(names);
    lemma_session_others(record_report(names), names, names, report_temporary);
}

proof fn lemma_session_settles(gc: SessionGcView)
    requires
        gc.report.is_honest(),
    ensures
        gc.settle().report.is_honest(),
    decreases gc.capabilities.len() - gc.collected,
{
    if gc.cleaned >= gc.temporaries.len() && gc.collected < gc.capabilities.len() {
        let session = gc.capabilities[gc.collected];
        let basename = session.capability.basename;
        match session_task(session, gc.collected) {
            None => {
                lemma_session_settles(SessionGcView { collected: gc.collected + 1, ..gc });
            },
            Some(_) => {
                lemma_recovering(gc.report, "session"@, basename, basename, "READY"@);
            },
        }
    }
}

proof fn lemma_session_gc_adds(
    gc: SessionGcView,
    name: Seq<u8>,
    path: Seq<u8>,
    state: Seq<char>,
    code: Seq<char>,
)
    requires
        gc.report.is_honest(),
        code != "RECOVERY_REQUIRED"@,
    ensures
        gc.stop(name, path, state).report.is_honest(),
        gc.told(name, path, state, code).settle().report.is_honest(),
        gc.told(name, path, state, code).passed().report.is_honest(),
        gc.passed().report.is_honest(),
{
    let told = gc.told(name, path, state, code);
    lemma_recovering(gc.report, "session"@, name, path, state);
    lemma_with(gc.report, "session"@, name, path, state, code);
    lemma_session_settles(told);
    lemma_session_settles(SessionGcView { collected: told.collected + 1, ..told });
    lemma_session_settles(SessionGcView { collected: gc.collected + 1, ..gc });
}

/// Collecting sessions asks for recovery exactly where it reports a finding, whatever is answered.
pub proof fn law_session_gc_is_honest(
    gc: SessionGcView,
    census: SessionCensusView,
    temporary: Result<RecordCapability, Error>,
    done: Result<(), Error>,
    loose: ReportView,
)
    requires
        gc.report.is_honest(),
        loose.is_honest(),
    ensures
        SessionGcView::starting(census).report.is_honest(),
        gc.cleaned(temporary).report.is_honest(),
        gc.buried(done).report.is_honest(),
        gc.loosened(loose, done).report.is_honest(),
{
    lemma_item_codes();
    lemma_session_settles(
        SessionGcView {
            temporaries: census.temporaries,
            capabilities: census.capabilities,
            report: ReportView::blank(),
            cleaned: 0,
            collected: 0,
            ended: false,
        },
    );
    if gc.asks() is CleanTemporary {
        let name = gc.temporaries[gc.cleaned];
        lemma_session_gc_adds(gc, name, name, "TMP"@, "REMOVED"@);
        lemma_session_gc_adds(
            SessionGcView { cleaned: gc.cleaned + 1, ..gc },
            name,
            name,
            "TMP"@,
            "REMOVED"@,
        );
    } else if gc.asks() is Bury {
        let capability = gc.capabilities[gc.collected].capability;
        let path = utf8(capability.record.payload->tombstone_name);
        lemma_session_gc_adds(gc, capability.basename, path, "TOMBSTONED"@, "REMOVED"@);
    } else if gc.asks() is CollectLoose {
        let name = gc.capabilities[gc.collected].capability.basename;
        lemma_merged(gc.report, loose);
        lemma_session_gc_adds(
            SessionGcView { report: gc.report.merged(loose), ..gc },
            name,
            name,
            "READY"@,
            "BUSY"@,
        );
    }
}

/// Collecting private objects asks for recovery exactly where it reports a finding, whatever is
/// answered.
pub proof fn law_loose_gc_is_honest(
    capability: CapabilityView,
    plan: PrivateObjectView,
    gc: LooseGcView,
    event: LooseGcEvent,
)
    requires
        gc.report.is_honest(),
    ensures
        LooseGcView::start(capability, plan).report.is_honest(),
        gc.after(event).report.is_honest(),
{
    lemma_item_codes();
    assert forall|name: Seq<u8>, path: Seq<u8>, state: Seq<char>, code: Seq<char>|
        code != "RECOVERY_REQUIRED"@ implies #[trigger] gc.report.with(
        "loose"@,
        name,
        path,
        state,
        code,
    ).is_honest() by {
        lemma_with(gc.report, "loose"@, name, path, state, code);
    }
}

proof fn lemma_scan(scan: ScanView, names: Seq<StateName>)
    requires
        scan.report.is_honest(),
    ensures
        scan.with_names(names).report.is_honest(),
    decreases names.len(),
{
    if names.len() > 0 {
        let before = scan.with_names(names.drop_last());
        let name = names.last().name@;
        lemma_scan(scan, names.drop_last());
        lemma_recovering(before.report, "state"@, name, name, "CORRUPT"@);
        lemma_recovering(before.report, "state"@, name, name, "UNKNOWN"@);
    }
}

proof fn lemma_contained(report: ReportView, opened: Result<bool, Error>, name: Seq<u8>)
    requires
        report.is_honest(),
    ensures
        with_container(report, opened, name).is_honest(),
{
    lemma_recovering(report, "state"@, utf8(""@), name, "CORRUPT"@);
}

impl MaintainEvent {
    /// The reports that it brings ask for recovery exactly where they hold a finding.
    pub open spec fn is_honest(self) -> bool {
        match self {
            MaintainEvent::Counted(Ok(census)) => census@.report.is_honest(),
            MaintainEvent::Templates(Ok(report)) => report@.is_honest(),
            MaintainEvent::Sessions(report) => report@.is_honest(),
            _ => true,
        }
    }
}

impl MaintainView {
    pub open spec fn after_all(self, events: Seq<MaintainEvent>) -> MaintainView
        decreases events.len(),
    {
        if events.len() == 0 {
            self
        } else {
            self.after_all(events.drop_last()).after(events.last())
        }
    }
}

/// Looking after the state keeps its report honest.
pub proof fn law_maintenance_is_honest(maintain: MaintainView, event: MaintainEvent)
    requires
        maintain.report.is_honest(),
        event.is_honest(),
    ensures
        maintain.after(event).report.is_honest(),
{
    assert forall|scope: Seq<char>, path: Seq<u8>, state: Seq<char>|
        #[trigger] maintain.stop(scope, path, state).report.is_honest() by {
        lemma_recovering(maintain.report, scope, utf8(""@), path, state);
    }
    match (maintain.stage, event) {
        (MaintainStageView::Scanning, MaintainEvent::Listed(names)) => {
            let scan = ScanView { report: maintain.report, safe: true, registered: false };
            lemma_recovering(maintain.report, "state"@, utf8(""@), utf8(""@), "CORRUPT"@);
            if let Ok(names) = names {
                lemma_scan(scan, names@);
                lemma_recovering(
                    scan.with_names(names@).report,
                    "state"@,
                    utf8(""@),
                    utf8(""@),
                    "AUTHORITY"@,
                );
            }
        },
        (MaintainStageView::Containing, MaintainEvent::Containers { templates, sessions }) => {
            let report = with_container(maintain.report, templates, utf8("templates"@));
            lemma_contained(maintain.report, templates, utf8("templates"@));
            lemma_contained(report, sessions, utf8("sessions"@));
            let report = with_container(report, sessions, utf8("sessions"@));
            lemma_recovering(report, "state"@, utf8(""@), utf8("sessions"@), "ABSENT"@);
            lemma_recovering(report, "state"@, utf8(""@), utf8("templates"@), "ABSENT"@);
        },
        (MaintainStageView::Counting, MaintainEvent::Counted(Ok(census))) => {
            lemma_merged(maintain.report, census@.report);
        },
        (_, MaintainEvent::Templates(Ok(report))) => {
            lemma_merged(maintain.report, report@);
        },
        (MaintainStageView::CollectingSessions(_), MaintainEvent::Sessions(report)) => {
            lemma_merged(maintain.report, report@);
        },
        _ => {},
    }
}

proof fn lemma_run_is_honest(cleanup: bool, events: Seq<MaintainEvent>)
    requires
        forall|i: int| 0 <= i < events.len() ==> (#[trigger] events[i]).is_honest(),
    ensures
        MaintainView::starting(cleanup).after_all(events).report.is_honest(),
        MaintainView::starting(cleanup).after_all(events).cleanup == cleanup,
    decreases events.len(),
{
    if events.len() > 0 {
        let front = events.drop_last();
        assert forall|i: int| 0 <= i < front.len() implies (#[trigger] front[i]).is_honest() by {
            assert(front[i] == events[i]);
        }
        lemma_run_is_honest(cleanup, front);
        assert(events.last() == events[events.len() - 1]);
        law_maintenance_is_honest(
            MaintainView::starting(cleanup).after_all(front),
            events.last(),
        );
    }
}

/// Once its report is written, looking after the state fails exactly where the report holds a finding.
pub proof fn law_maintenance_fails_on_findings(cleanup: bool, events: Seq<MaintainEvent>)
    requires
        forall|i: int| 0 <= i < events.len() ==> (#[trigger] events[i]).is_honest(),
        MaintainView::starting(cleanup).after_all(events).stage is Writing,
    ensures
        ({
            let maintain = MaintainView::starting(cleanup).after_all(events);
            maintain.after(MaintainEvent::Written(Ok(()))).stage == MaintainStageView::Ended(
                if has_finding(maintain.report.entries) {
                    Some(
                        (
                            if cleanup {
                                "GC_RECOVERY_REQUIRED"@
                            } else {
                                "DOCTOR_RECOVERY_REQUIRED"@
                            },
                            "maintenance found state that cannot be safely reclaimed"@,
                        ),
                    )
                } else {
                    None
                },
            )
        }),
{
    lemma_run_is_honest(cleanup, events);
}

proof fn lemma_item_count(entries: Seq<EntryView>)
    ensures
        item_count(entries) <= entries.len(),
        item_count(entries) < entries.len() <==> has_finding(entries),
    decreases entries.len(),
{
    if entries.len() > 0 {
        let front = entries.drop_last();
        lemma_item_count(front);
        if has_finding(front) {
            let i = choose|i: int| 0 <= i < front.len() && !(#[trigger] front[i]).is_item();
            assert(!entries[i].is_item());
        }
        if has_finding(entries) && entries.last().is_item() {
            let i = choose|i: int| 0 <= i < entries.len() && !(#[trigger] entries[i]).is_item();
            assert(!front[i].is_item());
        }
        if !entries.last().is_item() {
            assert(!entries[entries.len() - 1].is_item());
        }
    }
}

/// A report that holds a finding is written with a line that says so, and its summary counts one; a
/// report without any is written with neither.
pub proof fn law_findings_are_written(entries: Seq<EntryView>, sorted: Seq<EntryView>)
    requires
        entries.len() <= usize::MAX,
        is_arranged(entries, entry_keys(entries), sorted),
    ensures
        sorted.len() == entries.len(),
        item_count(sorted) < sorted.len() <==> has_finding(entries),
        (exists|i: int|
            0 <= i < sorted.len() && (#[trigger] entry_lines(sorted)[i]).kind == "finding"@)
            <==> has_finding(entries),
{
    law_arranging_sorts(entries, entry_keys(entries), sorted);
    lemma_item_count(sorted);
    reveal_strlit("finding");
    reveal_strlit("item");
    assert("finding"@.len() != "item"@.len());
    if has_finding(entries) {
        let i = choose|i: int| 0 <= i < entries.len() && !(#[trigger] entries[i]).is_item();
        assert(entries.contains(entries[i]));
        assert(sorted.contains(entries[i]));
        let k = choose|k: int| 0 <= k < sorted.len() && sorted[k] == entries[i];
        assert(!sorted[k].is_item());
        assert(entry_lines(sorted)[k].kind == "finding"@);
    }
    if has_finding(sorted) {
        let k = choose|k: int| 0 <= k < sorted.len() && !(#[trigger] sorted[k]).is_item();
        assert(sorted.contains(sorted[k]));
        assert(entries.contains(sorted[k]));
        let i = choose|i: int| 0 <= i < entries.len() && entries[i] == sorted[k];
        assert(!entries[i].is_item());
    }
    if exists|i: int|
        0 <= i < sorted.len() && (#[trigger] entry_lines(sorted)[i]).kind == "finding"@ {
        let k = choose|i: int|
            0 <= i < sorted.len() && (#[trigger] entry_lines(sorted)[i]).kind == "finding"@;
        assert(!sorted[k].is_item());
    }
}

} // verus!
