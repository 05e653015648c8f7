//! Looking after the whole state: what stands in it, what of it has to be recovered by hand, and what can
//! be collected. Nothing is collected before everything was looked at, and nothing where anything is
//! unclear.

use crate::authority::{failure, Error};
use crate::bytes::{copy_bytes, ends_with, same_bytes, same_text, starts_with, utf8};
use crate::inspection::first_of;
use crate::notation::{hex_text, to_hex};
use crate::order::{is_arranged, is_sorted_order, key_views, sorted_order, SortKey};
use crate::session_gc::{merge_maintenance, text_views, SessionCensus, SessionCensusView};
use crate::template::{entry_views, EntryView, MaintenanceEntry, MaintenanceReport, ReportView};
use vstd::prelude::*;

verus! {

/// One line of what is written about the state.
#[derive(Debug)]
pub struct MaintenanceLine {
    pub version: u8,
    pub kind: &'static str,
    pub scope: &'static str,
    pub record_name_hex: String,
    pub path_hex: String,
    pub state: &'static str,
    pub code: &'static str,
}

pub struct LineView {
    pub version: u8,
    pub kind: Seq<char>,
    pub scope: Seq<char>,
    pub record_name_hex: Seq<char>,
    pub path_hex: Seq<char>,
    pub state: Seq<char>,
    pub code: Seq<char>,
}

impl View for MaintenanceLine {
    type V = LineView;

    open spec fn view(&self) -> LineView {
        LineView {
            version: self.version,
            kind: self.kind@,
            scope: self.scope@,
            record_name_hex: self.record_name_hex@,
            path_hex: self.path_hex@,
            state: self.state@,
            code: self.code@,
        }
    }
}

/// The last line.
#[derive(Debug)]
pub struct MaintenanceSummary {
    pub version: u8,
    pub kind: &'static str,
    pub items: usize,
    pub findings: usize,
    pub recovery_required: bool,
}

impl EntryView {
    /// It is something that was done or kept, not something to be recovered by hand.
    pub open spec fn is_item(self) -> bool {
        self.code != "RECOVERY_REQUIRED"@
    }

    pub open spec fn line(self) -> LineView {
        LineView {
            version: 1,
            kind: if self.is_item() {
                "item"@
            } else {
                "finding"@
            },
            scope: self.scope,
            record_name_hex: hex_text(self.record_name),
            path_hex: hex_text(self.path_name),
            state: self.state,
            code: self.code,
        }
    }

    /// By what entries are ordered.
    pub open spec fn key(self) -> Seq<Seq<u8>> {
        seq![
            utf8(self.scope),
            self.record_name,
            self.path_name,
            utf8(self.state),
            utf8(self.code),
        ]
    }
}

pub open spec fn entry_keys(entries: Seq<EntryView>) -> Seq<Seq<Seq<u8>>> {
    Seq::new(entries.len(), |i: int| entries[i].key())
}

pub open spec fn entry_lines(entries: Seq<EntryView>) -> Seq<LineView> {
    Seq::new(entries.len(), |i: int| entries[i].line())
}

pub open spec fn line_views(lines: Seq<MaintenanceLine>) -> Seq<LineView> {
    Seq::new(lines.len(), |i: int| lines[i]@)
}

pub open spec fn item_count(entries: Seq<EntryView>) -> nat
    decreases entries.len(),
{
    if entries.len() == 0 {
        0
    } else {
        item_count(entries.drop_last()) + if entries.last().is_item() {
            1nat
        } else {
            0
        }
    }
}

fn entry_key(entry: &MaintenanceEntry) -> (key: SortKey)
    ensures
        key@ == entry@.key(),
{
    let parts: Vec<Vec<u8>> = vec![
        copy_bytes(entry.scope.as_bytes()),
        copy_bytes(entry.record_name.as_slice()),
        copy_bytes(entry.path_name.as_slice()),
        copy_bytes(entry.state.as_bytes()),
        copy_bytes(entry.code.as_bytes()),
    ];
    let key = SortKey { parts };
    proof {
        assert(key@ =~= entry@.key());
    }
    key
}

fn entry_line(entry: &MaintenanceEntry) -> (line: MaintenanceLine)
    ensures
        line@ == entry@.line(),
{
    MaintenanceLine {
        version: 1,
        kind: if same_text(entry.code, "RECOVERY_REQUIRED") {
            "finding"
        } else {
            "item"
        },
        scope: entry.scope,
        record_name_hex: to_hex(entry.record_name.as_slice()),
        path_hex: to_hex(entry.path_name.as_slice()),
        state: entry.state,
        code: entry.code,
    }
}

impl MaintenanceEntry {
    pub fn copy(&self) -> (same: Self)
        ensures
            same@ == self@,
    {
        MaintenanceEntry {
            scope: self.scope,
            record_name: copy_bytes(self.record_name.as_slice()),
            path_name: copy_bytes(self.path_name.as_slice()),
            state: self.state,
            code: self.code,
        }
    }
}

fn sort_entries(entries: &Vec<MaintenanceEntry>) -> (sorted: Vec<MaintenanceEntry>)
    ensures
        is_arranged(
            entry_views(entries@),
            entry_keys(entry_views(entries@)),
            entry_views(sorted@),
        ),
{
    let ghost all = entry_views(entries@);
    let mut keys: Vec<SortKey> = Vec::new();
    let mut i: usize = 0;
    while i < entries.len()
        invariant
            i <= entries@.len(),
            keys@.len() == i,
            forall|k: int| 0 <= k < i ==> (#[trigger] keys@[k])@ == entries@[k]@.key(),
        decreases entries@.len() - i,
    {
        keys.push(entry_key(&entries[i]));
        i += 1;
    }
    proof {
        assert(key_views(keys@) =~= entry_keys(all));
    }
    let order = sorted_order(&keys);
    let mut sorted: Vec<MaintenanceEntry> = Vec::new();
    let mut i: usize = 0;
    while i < order.len()
        invariant
            i <= order@.len(),
            all == entry_views(entries@),
            is_sorted_order(entry_keys(all), order@),
            sorted@.len() == i,
            forall|k: int| 0 <= k < i ==> (#[trigger] sorted@[k])@ == all[order@[k] as int],
        decreases order@.len() - i,
    {
        assert(order@[i as int] < entry_keys(all).len());
        sorted.push(entries[order[i]].copy());
        i += 1;
    }
    proof {
        assert(entry_views(sorted@) =~= Seq::new(order@.len(), |k: int| all[order@[k] as int]));
    }
    sorted
}

/// What is written of a report: its entries, sorted, each on a line, and then how many there were of
/// each kind. The report itself is sorted too.
pub fn write_maintenance(report: &mut MaintenanceReport) -> (written: (
    Vec<MaintenanceLine>,
    MaintenanceSummary,
))
    ensures
        is_arranged(
            old(report)@.entries,
            entry_keys(old(report)@.entries),
            final(report)@.entries,
        ),
        final(report)@.recovery_required == old(report)@.recovery_required,
        line_views(written.0@) == entry_lines(final(report)@.entries),
        written.1.version == 1,
        written.1.kind@ == "summary"@,
        written.1.items == item_count(final(report)@.entries),
        written.1.items + written.1.findings == final(report)@.entries.len(),
        written.1.recovery_required == old(report)@.recovery_required,
{
    let sorted = sort_entries(&report.entries);
    report.entries = sorted;
    let ghost all = report@.entries;
    let mut lines: Vec<MaintenanceLine> = Vec::new();
    let mut items: usize = 0;
    let mut findings: usize = 0;
    proof {
        assert(all.take(0) =~= Seq::<EntryView>::empty());
    }
    let mut i: usize = 0;
    while i < report.entries.len()
        invariant
            i <= report.entries@.len(),
            all == entry_views(report.entries@),
            lines@.len() == i,
            forall|k: int| 0 <= k < i ==> (#[trigger] lines@[k])@ == all[k].line(),
            items == item_count(all.take(i as int)),
            items + findings == i,
        decreases report.entries@.len() - i,
    {
        let entry = &report.entries[i];
        proof {
            assert(all[i as int] == entry@);
            assert(all.take(i + 1).drop_last() =~= all.take(i as int));
            assert(all.take(i + 1).last() == entry@);
        }
        if same_text(entry.code, "RECOVERY_REQUIRED") {
            findings += 1;
        } else {
            items += 1;
        }
        lines.push(entry_line(entry));
        i += 1;
    }
    proof {
        assert(all.take(i as int) =~= all);
        assert(line_views(lines@) =~= entry_lines(all));
    }
    let summary = MaintenanceSummary {
        version: 1,
        kind: "summary",
        items,
        findings,
        recovery_required: report.recovery_required,
    };
    (lines, summary)
}

/// How looking after the state ends, once the report is written: in an error where anything has to be
/// recovered by hand.
pub fn finish_maintenance(
    report: &MaintenanceReport,
    cleanup: bool,
    written: Result<(), Error>,
) -> (finished: Result<(), Error>)
    ensures
        failure(finished) == first_of(
            failure(written),
            if report@.recovery_required {
                Some(
                    (
                        if cleanup {
                            "GC_RECOVERY_REQUIRED"@
                        } else {
                            "DOCTOR_RECOVERY_REQUIRED"@
                        },
                        "maintenance found state that cannot be safely reclaimed"@,
                    ),
                )
            } else {
                None
            },
        ),
{
    written?;
    if report.recovery_required {
        return Err(
            Error::new(
                if cleanup {
                    "GC_RECOVERY_REQUIRED"
                } else {
                    "DOCTOR_RECOVERY_REQUIRED"
                },
                "maintenance found state that cannot be safely reclaimed",
            ),
        );
    }
    Ok(())
}

/// A container of the state that is opened, where it is there.
pub fn maintenance_container(
    opened: Result<bool, Error>,
    name: &[u8],
    report: &mut MaintenanceReport,
) -> (present: bool)
    ensures
        present == (opened == Ok::<bool, Error>(true)),
        final(report)@ == with_container(old(report)@, opened, name@),
{
    match opened {
        Ok(present) => present,
        Err(_) => {
            report.recovery("state", "".as_bytes(), name, "CORRUPT");
            false
        },
    }
}

pub open spec fn with_container(report: ReportView, opened: Result<bool, Error>, name: Seq<u8>) -> ReportView {
    match opened {
        Ok(_) => report,
        Err(_) => report.recovering("state"@, utf8(""@), name, "CORRUPT"@),
    }
}

/// What is found out about a name of the state root.
#[derive(Debug)]
pub struct StateName {
    pub name: Vec<u8>,
    /// Whether it is something that the system leaves in every directory.
    pub ignorable: Result<bool, Error>,
    /// Whether it is the sound record of an authority, where it is the name of one.
    pub valid: Result<(), Error>,
}

/// What a scan of the state root says: what it reports, whether all is as it should be, and whether
/// there is an authority.
#[verifier::ext_equal]
pub struct ScanView {
    pub report: ReportView,
    pub safe: bool,
    pub registered: bool,
}

impl ScanView {
    pub open spec fn unsafe_name(self, name: Seq<u8>, state: Seq<char>) -> ScanView {
        ScanView {
            report: self.report.recovering("state"@, name, name, state),
            safe: false,
            ..self
        }
    }

    pub open spec fn with_name(self, found: StateName) -> ScanView {
        let name = found.name@;
        if name == utf8("templates"@) || name == utf8("sessions"@) {
            self
        } else {
            match found.ignorable {
                Err(_) => self.unsafe_name(name, "CORRUPT"@),
                Ok(ignorable) => if ignorable {
                    self
                } else if !utf8("."@).is_prefix_of(name) && utf8(".record"@).is_suffix_of(name) {
                    match found.valid {
                        Ok(_) => ScanView { registered: true, ..self },
                        Err(_) => self.unsafe_name(name, "CORRUPT"@),
                    }
                } else {
                    self.unsafe_name(name, "UNKNOWN"@)
                },
            }
        }
    }

    pub open spec fn with_names(self, names: Seq<StateName>) -> ScanView
        decreases names.len(),
    {
        if names.len() == 0 {
            self
        } else {
            self.with_names(names.drop_last()).with_name(names.last())
        }
    }

    pub open spec fn of(report: ReportView, names: Result<Vec<StateName>, Error>) -> ScanView {
        match names {
            Err(_) => ScanView {
                report: report.recovering("state"@, utf8(""@), utf8(""@), "CORRUPT"@),
                safe: false,
                registered: false,
            },
            Ok(names) => {
                let scan = ScanView { report, safe: true, registered: false }.with_names(names@);
                if scan.registered {
                    scan
                } else {
                    ScanView {
                        report: scan.report.recovering(
                            "state"@,
                            utf8(""@),
                            utf8(""@),
                            "AUTHORITY"@,
                        ),
                        safe: false,
                        ..scan
                    }
                }
            },
        }
    }
}

/// Looks at what stands in the state root: the two containers, the records of authorities, and nothing
/// else but what the system leaves there.
pub fn scan_state_root(names: Result<Vec<StateName>, Error>, report: &mut MaintenanceReport) -> (safe: bool)
    ensures
        safe == ScanView::of(old(report)@, names).safe,
        final(report)@ == ScanView::of(old(report)@, names).report,
{
    match names {
        Err(_) => {
            report.recovery("state", "".as_bytes(), "".as_bytes(), "CORRUPT");
            false
        },
        Ok(names) => scan_names(&names, report),
    }
}

fn scan_names(names: &Vec<StateName>, report: &mut MaintenanceReport) -> (safe: bool)
    ensures
        safe == ScanView::of(old(report)@, Ok(*names)).safe,
        final(report)@ == ScanView::of(old(report)@, Ok(*names)).report,
{
    let ghost start = ScanView { report: report@, safe: true, registered: false };
    let mut safe: bool = true;
    let mut registered: bool = false;
    proof {
        assert(names@.take(0) =~= Seq::<StateName>::empty());
    }
    let mut i: usize = 0;
    while i < names.len()
        invariant
            i <= names@.len(),
            start == (ScanView { report: old(report)@, safe: true, registered: false }),
            (ScanView { report: report@, safe, registered }) == start.with_names(
                names@.take(i as int),
            ),
        decreases names@.len() - i,
    {
        proof {
            assert(names@.take(i + 1).drop_last() =~= names@.take(i as int));
            assert(names@.take(i + 1).last() == names@[i as int]);
        }
        let found = &names[i];
        let name = found.name.as_slice();
        if !same_bytes(name, "templates".as_bytes()) && !same_bytes(name, "sessions".as_bytes()) {
            match &found.ignorable {
                Err(_) => {
                    report.recovery("state", name, name, "CORRUPT");
                    safe = false;
                },
                Ok(ignorable) => {
                    if *ignorable {
                    } else if !starts_with(name, ".".as_bytes()) && ends_with(
                        name,
                        ".record".as_bytes(),
                    ) {
                        match &found.valid {
                            Ok(_) => {
                                registered = true;
                            },
                            Err(_) => {
                                report.recovery("state", name, name, "CORRUPT");
                                safe = false;
                            },
                        }
                    } else {
                        report.recovery("state", name, name, "UNKNOWN");
                        safe = false;
                    }
                },
            }
        }
        i += 1;
    }
    proof {
        assert(names@.take(i as int) =~= names@);
    }
    if !registered {
        report.recovery("state", "".as_bytes(), "".as_bytes(), "AUTHORITY");
        safe = false;
    }
    safe
}

/// The templates that sessions use, where a census can tell.
pub fn reachable_templates(census: Result<SessionCensus, Error>) -> (reachable: Result<
    Vec<String>,
    Error,
>)
    ensures
        failure(reachable) == match census {
            Err(error) => Some(error@),
            Ok(census) => if census@.report.recovery_required {
                Some(
                    (
                        "GC_RECOVERY_REQUIRED"@,
                        "session census cannot prove template reachability"@,
                    ),
                )
            } else {
                None
            },
        },
        reachable matches Ok(reachable) ==> text_views(reachable@)
            == census->Ok_0@.reachable_templates,
{
    let census = census?;
    if census.report.recovery_required {
        return Err(
            Error::new(
                "GC_RECOVERY_REQUIRED",
                "session census cannot prove template reachability",
            ),
        );
    }
    Ok(census.reachable_templates)
}

/// Whether a template is among those that sessions use.
pub fn is_reachable(reachable: &Vec<String>, key: &str) -> (is: bool)
    ensures
        is == text_views(reachable@).contains(key@),
{
    let mut i: usize = 0;
    while i < reachable.len()
        invariant
            i <= reachable@.len(),
            forall|k: int| 0 <= k < i ==> #[trigger] text_views(reachable@)[k] != key@,
        decreases reachable@.len() - i,
    {
        proof {
            assert(text_views(reachable@)[i as int] == reachable@[i as int]@);
        }
        if same_text(reachable[i].as_str(), key) {
            return true;
        }
        i += 1;
    }
    proof {
        if text_views(reachable@).contains(key@) {
            let k = choose|k: int|
                0 <= k < text_views(reachable@).len() && text_views(reachable@)[k] == key@;
            assert(text_views(reachable@)[k] != key@);
        }
    }
    false
}

/// Where looking after the state stands.
#[derive(Debug)]
pub enum MaintainStage {
    Opening,
    Scanning,
    Containing,
    Locating,
    Counting,
    /// The templates are looked at; the census of the sessions is kept.
    Diagnosing(SessionCensus),
    /// Templates are collected.
    CollectingTemplates(SessionCensus),
    /// What is left of sessions is collected.
    CollectingSessions(SessionCensus),
    Writing,
    Ended(Option<Error>),
}

pub enum MaintainStageView {
    Opening,
    Scanning,
    Containing,
    Locating,
    Counting,
    Diagnosing(SessionCensusView),
    CollectingTemplates(SessionCensusView),
    CollectingSessions(SessionCensusView),
    Writing,
    Ended(Option<(Seq<char>, Seq<char>)>),
}

impl View for MaintainStage {
    type V = MaintainStageView;

    open spec fn view(&self) -> MaintainStageView {
        match self {
            MaintainStage::Opening => MaintainStageView::Opening,
            MaintainStage::Scanning => MaintainStageView::Scanning,
            MaintainStage::Containing => MaintainStageView::Containing,
            MaintainStage::Locating => MaintainStageView::Locating,
            MaintainStage::Counting => MaintainStageView::Counting,
            MaintainStage::Diagnosing(census) => MaintainStageView::Diagnosing(census@),
            MaintainStage::CollectingTemplates(census) => MaintainStageView::CollectingTemplates(
                census@,
            ),
            MaintainStage::CollectingSessions(census) => MaintainStageView::CollectingSessions(
                census@,
            ),
            MaintainStage::Writing => MaintainStageView::Writing,
            MaintainStage::Ended(error) => MaintainStageView::Ended(
                match error {
                    Some(error) => Some(error@),
                    None => None,
                },
            ),
        }
    }
}

/// Looking after the state; with `cleanup`, what can be collected is.
#[derive(Debug)]
pub struct Maintain {
    pub cleanup: bool,
    pub report: MaintenanceReport,
    pub stage: MaintainStage,
}

pub struct MaintainView {
    pub cleanup: bool,
    pub report: ReportView,
    pub stage: MaintainStageView,
}

impl View for Maintain {
    type V = MaintainView;

    open spec fn view(&self) -> MaintainView {
        MaintainView { cleanup: self.cleanup, report: self.report@, stage: self.stage@ }
    }
}

#[derive(Clone, Copy, Debug, PartialEq, Eq, Structural)]
pub enum MaintainAction {
    /// Open the state root, where it is there.
    OpenState,
    /// List the state root, and find out about its names.
    ListState,
    OpenContainers,
    /// Tell the path of the container of sessions.
    LocateSessions,
    /// Take a census of the sessions; temporary records are told where this says so.
    CountSessions(bool),
    /// Look at the templates.
    DiagnoseTemplates,
    CollectTemplates,
    CollectSessions,
    /// Write the report.
    Write,
    Nothing,
}

#[derive(Debug)]
pub enum MaintainEvent {
    Opened(Result<(), Error>),
    Listed(Result<Vec<StateName>, Error>),
    Containers { templates: Result<bool, Error>, sessions: Result<bool, Error> },
    Located(Result<(), Error>),
    Counted(Result<SessionCensus, Error>),
    Templates(Result<MaintenanceReport, Error>),
    Sessions(MaintenanceReport),
    Written(Result<(), Error>),
}

impl MaintainView {
    pub open spec fn at(self, stage: MaintainStageView) -> MaintainView {
        MaintainView { stage, ..self }
    }

    pub open spec fn starting(cleanup: bool) -> MaintainView {
        MaintainView {
            cleanup,
            report: ReportView::blank(),
            stage: MaintainStageView::Opening,
        }
    }

    /// Something is to be recovered by hand; nothing more is looked at.
    pub open spec fn stop(self, scope: Seq<char>, path: Seq<u8>, state: Seq<char>) -> MaintainView {
        MaintainView {
            report: self.report.recovering(scope, utf8(""@), path, state),
            stage: MaintainStageView::Writing,
            ..self
        }
    }

    pub open spec fn opened(self, opened: Result<(), Error>) -> MaintainView {
        match opened {
            Ok(_) => self.at(MaintainStageView::Scanning),
            Err(error) => if error@ == ("STATE_UNAVAILABLE"@, "state root does not exist"@) {
                self.at(MaintainStageView::Writing)
            } else {
                self.stop("state"@, utf8(""@), "CORRUPT"@)
            },
        }
    }

    pub open spec fn listed(self, names: Result<Vec<StateName>, Error>) -> MaintainView {
        let scan = ScanView::of(self.report, names);
        MaintainView {
            report: scan.report,
            stage: if scan.safe {
                MaintainStageView::Containing
            } else {
                MaintainStageView::Writing
            },
            ..self
        }
    }

    pub open spec fn contained(
        self,
        templates: Result<bool, Error>,
        sessions: Result<bool, Error>,
    ) -> MaintainView {
        let report = with_container(self.report, templates, utf8("templates"@));
        let report = with_container(report, sessions, utf8("sessions"@));
        let next = MaintainView { report, ..self };
        let has_templates = templates == Ok::<bool, Error>(true);
        let has_sessions = sessions == Ok::<bool, Error>(true);
        if has_templates && has_sessions {
            next.at(MaintainStageView::Locating)
        } else if has_templates {
            next.stop("state"@, utf8("sessions"@), "ABSENT"@)
        } else if has_sessions {
            next.stop("state"@, utf8("templates"@), "ABSENT"@)
        } else {
            next.at(MaintainStageView::Writing)
        }
    }

    pub open spec fn counted(self, counted: Result<SessionCensus, Error>) -> MaintainView {
        match counted {
            Err(_) => self.stop("session"@, utf8(""@), "CORRUPT"@),
            Ok(census) => MaintainView {
                report: if !self.cleanup || census@.report.recovery_required {
                    self.report.merged(census@.report)
                } else {
                    self.report
                },
                stage: MaintainStageView::Diagnosing(census@),
                ..self
            },
        }
    }

    pub open spec fn diagnosed(
        self,
        census: SessionCensusView,
        templates: Result<MaintenanceReport, Error>,
    ) -> MaintainView {
        match templates {
            Err(_) => self.stop("template"@, utf8(""@), "CORRUPT"@),
            Ok(templates) => {
                let report = if !self.cleanup || templates@.recovery_required {
                    self.report.merged(templates@)
                } else {
                    self.report
                };
                MaintainView {
                    report,
                    stage: if !self.cleanup || census.report.recovery_required
                        || templates@.recovery_required || report.recovery_required {
                        MaintainStageView::Writing
                    } else {
                        MaintainStageView::CollectingTemplates(census)
                    },
                    ..self
                }
            },
        }
    }

    pub open spec fn collected(
        self,
        census: SessionCensusView,
        templates: Result<MaintenanceReport, Error>,
    ) -> MaintainView {
        match templates {
            Err(_) => self.stop("template"@, utf8(""@), "CORRUPT"@),
            Ok(templates) => {
                let report = self.report.merged(templates@);
                MaintainView {
                    report,
                    stage: if report.recovery_required {
                        MaintainStageView::Writing
                    } else {
                        MaintainStageView::CollectingSessions(census)
                    },
                    ..self
                }
            },
        }
    }

    /// The state of things after the driver's answer. An answer to another question changes nothing.
    pub open spec fn after(self, event: MaintainEvent) -> MaintainView {
        match (self.stage, event) {
            (MaintainStageView::Opening, MaintainEvent::Opened(opened)) => self.opened(opened),
            (MaintainStageView::Scanning, MaintainEvent::Listed(names)) => self.listed(names),
            (
                MaintainStageView::Containing,
                MaintainEvent::Containers { templates, sessions },
            ) => self.contained(templates, sessions),
            (MaintainStageView::Locating, MaintainEvent::Located(located)) => match located {
                Ok(_) => self.at(MaintainStageView::Counting),
                Err(_) => self.stop("state"@, utf8("sessions"@), "CORRUPT"@),
            },
            (MaintainStageView::Counting, MaintainEvent::Counted(counted)) => self.counted(counted),
            (MaintainStageView::Diagnosing(census), MaintainEvent::Templates(templates)) => {
                self.diagnosed(census, templates)
            },
            (
                MaintainStageView::CollectingTemplates(census),
                MaintainEvent::Templates(templates),
            ) => self.collected(census, templates),
            (MaintainStageView::CollectingSessions(_), MaintainEvent::Sessions(sessions)) => {
                MaintainView {
                    report: self.report.merged(sessions@),
                    stage: MaintainStageView::Writing,
                    ..self
                }
            },
            (MaintainStageView::Writing, MaintainEvent::Written(written)) => self.at(
                MaintainStageView::Ended(self.finish(written)),
            ),
            _ => self,
        }
    }

    pub open spec fn finish(self, written: Result<(), Error>) -> Option<(Seq<char>, Seq<char>)> {
        first_of(
            failure(written),
            if self.report.recovery_required {
                Some(
                    (
                        if self.cleanup {
                            "GC_RECOVERY_REQUIRED"@
                        } else {
                            "DOCTOR_RECOVERY_REQUIRED"@
                        },
                        "maintenance found state that cannot be safely reclaimed"@,
                    ),
                )
            } else {
                None
            },
        )
    }

    pub open spec fn asks(self) -> MaintainAction {
        match self.stage {
            MaintainStageView::Opening => MaintainAction::OpenState,
            MaintainStageView::Scanning => MaintainAction::ListState,
            MaintainStageView::Containing => MaintainAction::OpenContainers,
            MaintainStageView::Locating => MaintainAction::LocateSessions,
            MaintainStageView::Counting => MaintainAction::CountSessions(!self.cleanup),
            MaintainStageView::Diagnosing(_) => MaintainAction::DiagnoseTemplates,
            MaintainStageView::CollectingTemplates(_) => MaintainAction::CollectTemplates,
            MaintainStageView::CollectingSessions(_) => MaintainAction::CollectSessions,
            MaintainStageView::Writing => MaintainAction::Write,
            MaintainStageView::Ended(_) => MaintainAction::Nothing,
        }
    }
}

/// Looks at the whole state and changes nothing.
pub fn doctor() -> (maintain: Maintain)
    ensures
        maintain@ == MaintainView::starting(false),
{
    Maintain { cleanup: false, report: MaintenanceReport::blank(), stage: MaintainStage::Opening }
}

/// Looks at the whole state and collects what can be.
pub fn gc() -> (maintain: Maintain)
    ensures
        maintain@ == MaintainView::starting(true),
{
    Maintain { cleanup: true, report: MaintenanceReport::blank(), stage: MaintainStage::Opening }
}

impl Maintain {
    fn at(self, stage: MaintainStage) -> (next: Self)
        ensures
            next@ == self@.at(stage@),
    {
        Maintain { stage, ..self }
    }

    fn stop(self, scope: &'static str, path: &[u8], state: &'static str) -> (next: Self)
        ensures
            next@ == self@.stop(scope@, path@, state@),
    {
        let mut report = self.report;
        report.recovery(scope, "".as_bytes(), path, state);
        Maintain { cleanup: self.cleanup, report, stage: MaintainStage::Writing }
    }

    fn opened(self, opened: Result<(), Error>) -> (next: Self)
        ensures
            next@ == self@.opened(opened),
    {
        match opened {
            Ok(_) => self.at(MaintainStage::Scanning),
            Err(error) => if error.has_code("STATE_UNAVAILABLE") && same_text(
                error.detail.as_str(),
                "state root does not exist",
            ) {
                self.at(MaintainStage::Writing)
            } else {
                self.stop("state", "".as_bytes(), "CORRUPT")
            },
        }
    }

    fn listed(self, names: Result<Vec<StateName>, Error>) -> (next: Self)
        ensures
            next@ == self@.listed(names),
    {
        let mut report = self.report;
        let safe: bool = scan_state_root(names, &mut report);
        Maintain {
            cleanup: self.cleanup,
            report,
            stage: if safe {
                MaintainStage::Containing
            } else {
                MaintainStage::Writing
            },
        }
    }

    fn contained(self, templates: Result<bool, Error>, sessions: Result<bool, Error>) -> (next: Self)
        ensures
            next@ == self@.contained(templates, sessions),
    {
        let mut report = self.report;
        let has_templates: bool = maintenance_container(
            templates,
            "templates".as_bytes(),
            &mut report,
        );
        let has_sessions: bool = maintenance_container(sessions, "sessions".as_bytes(), &mut report);
        let next = Maintain { cleanup: self.cleanup, report, stage: MaintainStage::Writing };
        if has_templates && has_sessions {
            next.at(MaintainStage::Locating)
        } else if has_templates {
            next.stop("state", "sessions".as_bytes(), "ABSENT")
        } else if has_sessions {
            next.stop("state", "templates".as_bytes(), "ABSENT")
        } else {
            next
        }
    }

    fn counted(self, counted: Result<SessionCensus, Error>) -> (next: Self)
        ensures
            next@ == self@.counted(counted),
    {
        match counted {
            Err(_) => self.stop("session", "".as_bytes(), "CORRUPT"),
            Ok(census) => {
                let ghost found = census@;
                let SessionCensus { reachable_templates, capabilities, temporaries, report: told } =
                    census;
                let mut report = self.report;
                if !self.cleanup || told.recovery_required {
                    let mut merged = copy_report(&told);
                    merge_maintenance(&mut report, &mut merged);
                }
                let census = SessionCensus {
                    reachable_templates,
                    capabilities,
                    temporaries,
                    report: told,
                };
                proof {
                    assert(census@ =~= found);
                }
                Maintain {
                    cleanup: self.cleanup,
                    report,
                    stage: MaintainStage::Diagnosing(census),
                }
            },
        }
    }

    fn diagnosed(cleanup: bool, report: MaintenanceReport, census: SessionCensus, templates: Result<
        MaintenanceReport,
        Error,
    >) -> (next: Self)
        ensures
            next@ == (MaintainView {
                cleanup,
                report: report@,
                stage: MaintainStageView::Diagnosing(census@),
            }).diagnosed(census@, templates),
    {
        match templates {
            Err(_) => Maintain { cleanup, report, stage: MaintainStage::Writing }.stop(
                "template",
                "".as_bytes(),
                "CORRUPT",
            ),
            Ok(templates) => {
                let unclear: bool = census.report.recovery_required || templates.recovery_required;
                let mut report = report;
                let mut templates = templates;
                if !cleanup || templates.recovery_required {
                    merge_maintenance(&mut report, &mut templates);
                }
                let stage = if !cleanup || unclear || report.recovery_required {
                    MaintainStage::Writing
                } else {
                    MaintainStage::CollectingTemplates(census)
                };
                Maintain { cleanup, report, stage }
            },
        }
    }

    fn collected(cleanup: bool, report: MaintenanceReport, census: SessionCensus, templates: Result<
        MaintenanceReport,
        Error,
    >) -> (next: Self)
        ensures
            next@ == (MaintainView {
                cleanup,
                report: report@,
                stage: MaintainStageView::CollectingTemplates(census@),
            }).collected(census@, templates),
    {
        match templates {
            Err(_) => Maintain { cleanup, report, stage: MaintainStage::Writing }.stop(
                "template",
                "".as_bytes(),
                "CORRUPT",
            ),
            Ok(templates) => {
                let mut report = report;
                let mut templates = templates;
                merge_maintenance(&mut report, &mut templates);
                let stage = if report.recovery_required {
                    MaintainStage::Writing
                } else {
                    MaintainStage::CollectingSessions(census)
                };
                Maintain { cleanup, report, stage }
            },
        }
    }

    /// Takes the driver's answer to the question that is asked.
    pub fn maintain(self, event: MaintainEvent) -> (next: Self)
        ensures
            next@ == self@.after(event),
    {
        let Maintain { cleanup, report, stage } = self;
        match (stage, event) {
            (MaintainStage::Diagnosing(census), MaintainEvent::Templates(templates)) => {
                Maintain::diagnosed(cleanup, report, census, templates)
            },
            (MaintainStage::CollectingTemplates(census), MaintainEvent::Templates(templates)) => {
                Maintain::collected(cleanup, report, census, templates)
            },
            (stage, event) => {
                let maintain = Maintain { cleanup, report, stage };
                maintain.go_on(event)
            },
        }
    }

    fn go_on(self, event: MaintainEvent) -> (next: Self)
        requires
            !(event is Templates && (self@.stage is Diagnosing
                || self@.stage is CollectingTemplates)),
        ensures
            next@ == self@.after(event),
    {
        match (&self.stage, event) {
            (MaintainStage::Opening, MaintainEvent::Opened(opened)) => self.opened(opened),
            (MaintainStage::Scanning, MaintainEvent::Listed(names)) => self.listed(names),
            (MaintainStage::Containing, MaintainEvent::Containers { templates, sessions }) => {
                self.contained(templates, sessions)
            },
            (MaintainStage::Locating, MaintainEvent::Located(located)) => match located {
                Ok(_) => self.at(MaintainStage::Counting),
                Err(_) => self.stop("state", "sessions".as_bytes(), "CORRUPT"),
            },
            (MaintainStage::Counting, MaintainEvent::Counted(counted)) => self.counted(counted),
            (MaintainStage::CollectingSessions(_), MaintainEvent::Sessions(sessions)) => {
                let mut report = self.report;
                let mut sessions = sessions;
                merge_maintenance(&mut report, &mut sessions);
                Maintain { cleanup: self.cleanup, report, stage: MaintainStage::Writing }
            },
            (MaintainStage::Writing, MaintainEvent::Written(written)) => {
                let ended = match finish_maintenance(&self.report, self.cleanup, written) {
                    Ok(_) => None,
                    Err(error) => Some(error),
                };
                self.at(MaintainStage::Ended(ended))
            },
            _ => self,
        }
    }

    /// What is to be done next.
    pub fn action(&self) -> (action: MaintainAction)
        ensures
            action == self@.asks(),
    {
        match &self.stage {
            MaintainStage::Opening => MaintainAction::OpenState,
            MaintainStage::Scanning => MaintainAction::ListState,
            MaintainStage::Containing => MaintainAction::OpenContainers,
            MaintainStage::Locating => MaintainAction::LocateSessions,
            MaintainStage::Counting => MaintainAction::CountSessions(!self.cleanup),
            MaintainStage::Diagnosing(_) => MaintainAction::DiagnoseTemplates,
            MaintainStage::CollectingTemplates(_) => MaintainAction::CollectTemplates,
            MaintainStage::CollectingSessions(_) => MaintainAction::CollectSessions,
            MaintainStage::Writing => MaintainAction::Write,
            MaintainStage::Ended(_) => MaintainAction::Nothing,
        }
    }

    /// How it ended, once nothing more is asked for.
    pub fn outcome(&self) -> (outcome: Option<Result<(), Error>>)
        ensures
            match self@.stage {
                MaintainStageView::Ended(None) => outcome == Some(Ok::<(), Error>(())),
                MaintainStageView::Ended(Some(failed)) => outcome matches Some(Err(error)) && error@
                    == failed,
                _ => outcome is None,
            },
    {
        match &self.stage {
            MaintainStage::Ended(Some(error)) => Some(Err(error.copy())),
            MaintainStage::Ended(None) => Some(Ok(())),
            _ => None,
        }
    }
}

fn copy_report(report: &MaintenanceReport) -> (same: MaintenanceReport)
    ensures
        same@ == report@,
{
    let mut entries: Vec<MaintenanceEntry> = Vec::new();
    let mut i: usize = 0;
    while i < report.entries.len()
        invariant
            i <= report.entries@.len(),
            entries@.len() == i,
            forall|k: int| 0 <= k < i ==> (#[trigger] entries@[k])@ == report.entries@[k]@,
        decreases report.entries@.len() - i,
    {
        entries.push(report.entries[i].copy());
        i += 1;
    }
    proof {
        assert(entry_views(entries@) =~= entry_views(report.entries@));
    }
    MaintenanceReport { entries, recovery_required: report.recovery_required }
}

/// Looking without cleaning up never asks for anything to be collected.
pub proof fn law_doctor_collects_nothing(maintain: MaintainView, event: MaintainEvent)
    requires
        !maintain.cleanup,
        !(maintain.asks() is CollectTemplates),
        !(maintain.asks() is CollectSessions),
    ensures
        !maintain.after(event).cleanup,
        !(maintain.after(event).asks() is CollectTemplates),
        !(maintain.after(event).asks() is CollectSessions),
{
}

impl MaintainView {
    /// Something is collected only where that was asked for and nothing has to be recovered by hand.
    pub open spec fn is_careful(self) -> bool {
        self.asks() is CollectTemplates || self.asks() is CollectSessions ==> self.cleanup
            && !self.report.recovery_required
    }
}

/// Nothing is collected before the state root, the sessions and the templates were all looked at, and
/// nothing where any of them has to be recovered by hand.
pub proof fn law_collecting_fails_closed(maintain: MaintainView, event: MaintainEvent, cleanup: bool)
    requires
        maintain.is_careful(),
    ensures
        MaintainView::starting(cleanup).is_careful(),
        maintain.after(event).is_careful(),
        maintain.after(event) != maintain && maintain.after(event).asks() is CollectTemplates
            ==> maintain.stage is Diagnosing
            && !maintain.stage->Diagnosing_0.report.recovery_required && event is Templates
            && event->Templates_0 is Ok && !event->Templates_0->Ok_0@.recovery_required,
        maintain.after(event) != maintain && maintain.after(event).asks() is CollectSessions
            ==> maintain.stage is CollectingTemplates && event is Templates && event->Templates_0
            is Ok && !event->Templates_0->Ok_0@.recovery_required,
{
}

/// The places, in order.
pub open spec fn rank(stage: MaintainStageView) -> int {
    match stage {
        MaintainStageView::Opening => 0,
        MaintainStageView::Scanning => 1,
        MaintainStageView::Containing => 2,
        MaintainStageView::Locating => 3,
        MaintainStageView::Counting => 4,
        MaintainStageView::Diagnosing(_) => 5,
        MaintainStageView::CollectingTemplates(_) => 6,
        MaintainStageView::CollectingSessions(_) => 7,
        MaintainStageView::Writing => 8,
        MaintainStageView::Ended(_) => 9,
    }
}

/// It only goes forward, passes over no place on the way to a collection, and what once had to be
/// recovered by hand stays so to the end.
pub proof fn law_maintenance_goes_forward(maintain: MaintainView, event: MaintainEvent)
    ensures
        maintain.after(event) == maintain || rank(maintain.after(event).stage) > rank(maintain.stage),
        rank(maintain.after(event).stage) <= 7 ==> rank(maintain.after(event).stage) <= rank(
            maintain.stage,
        ) + 1,
        maintain.report.recovery_required ==> maintain.after(event).report.recovery_required,
        maintain.after(event).cleanup == maintain.cleanup,
{
    if maintain.stage is Scanning && event is Listed {
        if maintain.report.recovery_required {
            match event->Listed_0 {
                Ok(names) => lemma_scan_keeps_recovery(
                    ScanView { report: maintain.report, safe: true, registered: false },
                    names@,
                ),
                Err(_) => {},
            }
        }
    }
}

proof fn lemma_scan_keeps_recovery(scan: ScanView, names: Seq<StateName>)
    requires
        scan.report.recovery_required,
    ensures
        scan.with_names(names).report.recovery_required,
    decreases names.len(),
{
    if names.len() > 0 {
        lemma_scan_keeps_recovery(scan, names.drop_last());
    }
}

proof fn lemma_safe_scans(scan: ScanView, names: Seq<StateName>)
    requires
        scan.safe ==> !scan.report.recovery_required,
    ensures
        scan.with_names(names).safe ==> !scan.with_names(names).report.recovery_required && scan.safe,
    decreases names.len(),
{
    if names.len() > 0 {
        lemma_safe_scans(scan, names.drop_last());
    }
}

/// A scan that calls the state root safe has nothing to be recovered by hand, and has found an
/// authority.
pub proof fn law_safe_state_is_registered(names: Result<Vec<StateName>, Error>)
    requires
        ScanView::of(ReportView::blank(), names).safe,
    ensures
        ScanView::of(ReportView::blank(), names).registered,
        !ScanView::of(ReportView::blank(), names).report.recovery_required,
{
    lemma_safe_scans(
        ScanView { report: ReportView::blank(), safe: true, registered: false },
        names->Ok_0@,
    );
}

} // verus!
