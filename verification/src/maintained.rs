//! What `doctor` and `gc` have looked at and done when they succeed.

use crate::authority::Error;
use crate::maintenance::{
    MaintainAction, MaintainEvent, MaintainStageView, MaintainView, ScanView,
    StateName,
};
use crate::session_gc::SessionCensusView;
use crate::template::{EntryView, ReportView};
use vstd::prelude::*;

verus! {

/// Looking after the state, what was asked for, and what came back.
pub struct MaintainRun {
    pub maintain: MaintainView,
    pub asked: Set<MaintainAction>,
    /// There is no state, or it holds neither templates nor sessions.
    pub empty: bool,
    pub census: Option<SessionCensusView>,
    /// What was found of the templates, and what was done with them and with the sessions.
    pub diagnosis: Option<ReportView>,
    pub templates: Option<ReportView>,
    pub sessions: Option<ReportView>,
}

impl MaintainRun {
    pub open spec fn start(cleanup: bool) -> MaintainRun {
        MaintainRun {
            maintain: MaintainView::starting(cleanup),
            asked: Set::empty(),
            empty: false,
            census: None,
            diagnosis: None,
            templates: None,
            sessions: None,
        }
    }

    pub open spec fn after(self, event: MaintainEvent) -> MaintainRun {
        let next = MaintainRun {
            maintain: self.maintain.after(event),
            asked: self.asked.insert(self.maintain.asks()),
            ..self
        };
        match (self.maintain.asks(), event) {
            (MaintainAction::OpenState, MaintainEvent::Opened(opened)) => MaintainRun {
                empty: opened matches Err(error) && error@ == (
                    "STATE_UNAVAILABLE"@,
                    "state root does not exist"@,
                ),
                ..next
            },
            (MaintainAction::OpenContainers, MaintainEvent::Containers { templates, sessions }) => {
                MaintainRun {
                    empty: (templates matches Ok(present) && !present) && (
                    sessions matches Ok(present) && !present),
                    ..next
                }
            },
            (MaintainAction::CountSessions(_), MaintainEvent::Counted(Ok(census))) => MaintainRun {
                census: Some(census@),
                ..next
            },
            (MaintainAction::DiagnoseTemplates, MaintainEvent::Templates(Ok(report))) => {
                MaintainRun { diagnosis: Some(report@), ..next }
            },
            (MaintainAction::CollectTemplates, MaintainEvent::Templates(Ok(report))) => {
                MaintainRun { templates: Some(report@), ..next }
            },
            (MaintainAction::CollectSessions, MaintainEvent::Sessions(report)) => MaintainRun {
                sessions: Some(report@),
                ..next
            },
            _ => next,
        }
    }

    pub open spec fn after_all(self, events: Seq<MaintainEvent>) -> MaintainRun
        decreases events.len(),
    {
        if events.len() == 0 {
            self
        } else {
            self.after_all(events.drop_last()).after(events.last())
        }
    }

    /// All was looked at, and collected where that was asked for; and all that was found or done is
    /// reported, in this order.
    pub open spec fn is_whole(self, cleanup: bool) -> bool {
        let entries = self.maintain.report.entries;
        if cleanup {
            &&& self.asked.contains(MaintainAction::CountSessions(false))
            &&& self.asked.contains(MaintainAction::DiagnoseTemplates)
            &&& self.asked.contains(MaintainAction::CollectTemplates)
            &&& self.asked.contains(MaintainAction::CollectSessions)
            &&& self.census is Some && !self.census->0.report.recovery_required
            &&& self.diagnosis is Some && !self.diagnosis->0.recovery_required
            &&& self.templates is Some && self.sessions is Some
            &&& entries == self.templates->0.entries + self.sessions->0.entries
        } else {
            &&& self.asked.contains(MaintainAction::CountSessions(true))
            &&& self.asked.contains(MaintainAction::DiagnoseTemplates)
            &&& self.census is Some && self.diagnosis is Some
            &&& entries == self.census->0.report.entries + self.diagnosis->0.entries
        }
    }

    spec fn accounts(self, cleanup: bool) -> bool {
        let maintain = self.maintain;
        let entries = maintain.report.entries;
        let fine = !maintain.report.recovery_required;
        &&& maintain.cleanup == cleanup
        &&& (maintain.stage is Opening || maintain.stage is Scanning || maintain.stage is Containing
            || maintain.stage is Locating || maintain.stage is Counting) && fine ==> entries.len()
            == 0 && !self.empty
        &&& (maintain.stage matches MaintainStageView::Diagnosing(census) ==> self.census == Some(
            census,
        ) && self.asked.contains(MaintainAction::CountSessions(!cleanup)) && (fine
            ==> !census.report.recovery_required && entries == if cleanup {
            Seq::<EntryView>::empty()
        } else {
            census.report.entries
        }))
        &&& maintain.stage is CollectingTemplates ==> {
            &&& cleanup
            &&& fine
            &&& entries.len() == 0
            &&& self.asked.contains(MaintainAction::CountSessions(false))
            &&& self.asked.contains(MaintainAction::DiagnoseTemplates)
            &&& self.census is Some && !self.census->0.report.recovery_required
            &&& self.diagnosis is Some && !self.diagnosis->0.recovery_required
        }
        &&& maintain.stage is CollectingSessions ==> {
            &&& cleanup
            &&& fine
            &&& self.asked.contains(MaintainAction::CountSessions(false))
            &&& self.asked.contains(MaintainAction::DiagnoseTemplates)
            &&& self.asked.contains(MaintainAction::CollectTemplates)
            &&& self.census is Some && !self.census->0.report.recovery_required
            &&& self.diagnosis is Some && !self.diagnosis->0.recovery_required
            &&& self.templates is Some && entries == self.templates->0.entries
        }
        &&& (maintain.stage is Writing || maintain.stage is Ended) && fine ==> (self.empty
            && entries.len() == 0) || self.is_whole(cleanup)
        &&& maintain.stage is Ended ==> self.asked.contains(MaintainAction::Write)
        &&& (maintain.stage matches MaintainStageView::Ended(None) ==> fine)
    }
}

proof fn lemma_scan_says_nothing(scan: ScanView, names: Seq<StateName>)
    ensures
        scan.with_names(names).report.recovery_required || scan.with_names(names).report
            == scan.report,
        scan.report.recovery_required ==> scan.with_names(names).report.recovery_required,
        scan.safe && !scan.with_names(names).safe ==> scan.with_names(
            names,
        ).report.recovery_required,
    decreases names.len(),
{
    if names.len() > 0 {
        lemma_scan_says_nothing(scan, names.drop_last());
    }
}

#[verifier::spinoff_prover]
proof fn lemma_maintain_accounts(run: MaintainRun, event: MaintainEvent, cleanup: bool)
    requires
        run.accounts(cleanup),
    ensures
        run.after(event).accounts(cleanup),
{
    if let MaintainEvent::Listed(Ok(names)) = event {
        lemma_scan_says_nothing(
            ScanView { report: run.maintain.report, safe: true, registered: false },
            names@,
        );
    }
    let entries = run.maintain.report.entries;
    match (run.maintain.stage, event) {
        (MaintainStageView::Counting, MaintainEvent::Counted(Ok(census))) => {
            if entries.len() == 0 {
                assert(entries + census@.report.entries =~= census@.report.entries);
                assert(entries =~= Seq::<EntryView>::empty());
            }
        },
        (MaintainStageView::CollectingTemplates(_), MaintainEvent::Templates(Ok(report))) => {
            assert(entries + report@.entries =~= report@.entries);
        },
        _ => {},
    }
}

proof fn lemma_maintain_run(cleanup: bool, events: Seq<MaintainEvent>)
    ensures
        MaintainRun::start(cleanup).after_all(events).accounts(cleanup),
    decreases events.len(),
{
    if events.len() > 0 {
        lemma_maintain_run(cleanup, events.drop_last());
        lemma_maintain_accounts(
            MaintainRun::start(cleanup).after_all(events.drop_last()),
            events.last(),
            cleanup,
        );
    }
}

/// Where `doctor` or `gc` succeeds, it has looked at all there is: the sessions and the templates were
/// counted, and what was found of them is what is reported; and where it was to clean up, nothing asked
/// for recovery, the templates and then the sessions were collected, and what was done is what is
/// reported. Only where there is no state at all is there nothing to do.
pub proof fn law_successful_maintenance_is_whole(cleanup: bool, events: Seq<MaintainEvent>)
    ensures
        ({
            let done = MaintainRun::start(cleanup).after_all(events);
            done.maintain.stage matches MaintainStageView::Ended(None) ==> {
                &&& (done.empty && done.maintain.report.entries.len() == 0) || done.is_whole(
                    cleanup,
                )
                &&& !done.maintain.report.recovery_required
                &&& done.asked.contains(MaintainAction::Write)
            }
        }),
{
    lemma_maintain_run(cleanup, events);
}

/// What cannot be read, or stands alone, is a finding, and nothing more is looked at.
pub proof fn law_unreadable_state_is_a_finding(maintain: MaintainView, error: Error)
    ensures
        maintain.stage is Opening && error@ != ("STATE_UNAVAILABLE"@, "state root does not exist"@)
            ==> maintain.after(MaintainEvent::Opened(Err(error))).report.recovery_required
            && maintain.after(MaintainEvent::Opened(Err(error))).asks() == MaintainAction::Write,
        maintain.stage is Scanning ==> maintain.after(
            MaintainEvent::Listed(Err(error)),
        ).report.recovery_required,
        maintain.stage is Containing ==> maintain.after(
            MaintainEvent::Containers { templates: Ok(true), sessions: Ok(false) },
        ).report.recovery_required && maintain.after(
            MaintainEvent::Containers { templates: Ok(false), sessions: Ok(true) },
        ).report.recovery_required && maintain.after(
            MaintainEvent::Containers { templates: Err(error), sessions: Ok(true) },
        ).report.recovery_required && maintain.after(
            MaintainEvent::Containers { templates: Ok(true), sessions: Err(error) },
        ).report.recovery_required,
        maintain.stage is Locating ==> maintain.after(
            MaintainEvent::Located(Err(error)),
        ).report.recovery_required,
        maintain.stage is Counting ==> maintain.after(
            MaintainEvent::Counted(Err(error)),
        ).report.recovery_required,
        maintain.stage is Diagnosing || maintain.stage is CollectingTemplates ==> maintain.after(
            MaintainEvent::Templates(Err(error)),
        ).report.recovery_required,
{
}

} // verus!
