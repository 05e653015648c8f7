//! Collecting the private objects of a session that its authority has as well, under the session's
//! lease and by a plan that is made again before anything goes.

use crate::authority::{failure, or_fail, Error, Failure, Identity};
use crate::burial::{lease, leased};
use crate::bytes::{copy_bytes, utf8, views};
use crate::inspection::first_of;
use crate::objects::AuthorityObjectsPlan;
use crate::order::sorted_names;
use crate::private_objects::{
    loose_names, loose_plan_removes, planned_names, private_fanout_matches_plan,
    private_objects_matches_plan, FanoutView, LooseAction, LooseView, PrivateFanoutPlan,
    PrivateObjectPlan, PrivateObjectView,
};
use crate::record_txn::basename_failure;
use crate::session::{
    authority_from_record, cstring, ensure_publish_idle, idle_failure, loose_path, loose_path_name,
    needs_recovery, path_failure, session_recovery, CapabilityView, RecordCapability,
};
use crate::session_roots::{revalidate_ready_lease, LeasedSeen, ReadyBinding, ReadyView};
use crate::template::{MaintenanceReport, ReportView};
use crate::template_roots::LeaseEvent;
use vstd::prelude::*;

verus! {

/// Where a collection stands.
#[derive(Debug)]
pub enum LooseStage {
    Loading,
    Leasing(ReadyBinding),
    Revalidating(ReadyBinding),
    Classifying,
    AuthorityChecking,
    PrivateChecking,
    FanoutOpening,
    AuthorityOpening,
    LooseSeeing,
    LooseUnlinking,
    LooseSyncing,
    FanoutListing,
    FanoutUnlinking,
    ObjectsSyncing,
    Done,
    Failed(Error),
}

pub enum LooseStageView {
    Loading,
    Leasing(ReadyView),
    Revalidating(ReadyView),
    Classifying,
    AuthorityChecking,
    PrivateChecking,
    FanoutOpening,
    AuthorityOpening,
    LooseSeeing,
    LooseUnlinking,
    LooseSyncing,
    FanoutListing,
    FanoutUnlinking,
    ObjectsSyncing,
    Done,
    Failed(Failure),
}

impl View for LooseStage {
    type V = LooseStageView;

    open spec fn view(&self) -> LooseStageView {
        match self {
            LooseStage::Loading => LooseStageView::Loading,
            LooseStage::Leasing(ready) => LooseStageView::Leasing(ready@),
            LooseStage::Revalidating(ready) => LooseStageView::Revalidating(ready@),
            LooseStage::Classifying => LooseStageView::Classifying,
            LooseStage::AuthorityChecking => LooseStageView::AuthorityChecking,
            LooseStage::PrivateChecking => LooseStageView::PrivateChecking,
            LooseStage::FanoutOpening => LooseStageView::FanoutOpening,
            LooseStage::AuthorityOpening => LooseStageView::AuthorityOpening,
            LooseStage::LooseSeeing => LooseStageView::LooseSeeing,
            LooseStage::LooseUnlinking => LooseStageView::LooseUnlinking,
            LooseStage::LooseSyncing => LooseStageView::LooseSyncing,
            LooseStage::FanoutListing => LooseStageView::FanoutListing,
            LooseStage::FanoutUnlinking => LooseStageView::FanoutUnlinking,
            LooseStage::ObjectsSyncing => LooseStageView::ObjectsSyncing,
            LooseStage::Done => LooseStageView::Done,
            LooseStage::Failed(error) => LooseStageView::Failed(error@),
        }
    }
}

/// The collection of the private objects of one session: its record, the plan, what was done so far,
/// and which object of which directory is next.
#[derive(Debug)]
pub struct LooseGc {
    pub capability: RecordCapability,
    pub plan: PrivateObjectPlan,
    pub report: MaintenanceReport,
    pub fanout: usize,
    pub loose: usize,
    /// The authority's directory of the same name is open.
    pub authority_open: bool,
    pub stage: LooseStage,
}

pub struct LooseGcView {
    pub capability: CapabilityView,
    pub plan: PrivateObjectView,
    pub report: ReportView,
    pub fanout: int,
    pub loose: int,
    pub authority_open: bool,
    pub stage: LooseStageView,
}

impl View for LooseGc {
    type V = LooseGcView;

    open spec fn view(&self) -> LooseGcView {
        LooseGcView {
            capability: self.capability@,
            plan: self.plan@,
            report: self.report@,
            fanout: self.fanout as int,
            loose: self.loose as int,
            authority_open: self.authority_open,
            stage: self.stage@,
        }
    }
}

#[derive(Clone, Copy, Debug, PartialEq, Eq, Structural)]
pub enum LooseGcAction {
    LoadReady,
    Lease,
    RevalidateReady,
    /// Classify all private objects once more.
    Classify,
    /// Classify the authority's objects once more, and keep their directory open.
    ClassifyAuthority,
    /// Open the directory of the private objects, and list it.
    OpenObjects,
    /// Open the next directory of loose objects, and list it.
    OpenFanout,
    OpenAuthorityFanout,
    StatLoose,
    /// Unlink the loose object, where it still is the duplicate of the authority's.
    UnlinkLoose,
    SyncFanout,
    ListFanout,
    UnlinkFanout,
    SyncObjects,
    Nothing,
}

#[derive(Debug)]
pub enum LooseGcEvent {
    Loaded(Result<ReadyBinding, Error>),
    Lease(LeaseEvent),
    Leased(LeasedSeen),
    Classified(Result<PrivateObjectPlan, Error>),
    Authority(Result<AuthorityObjectsPlan, Error>),
    /// A directory was opened, and its names were listed.
    Opened { identity: Result<Identity, Error>, names: Result<Vec<Vec<u8>>, Error> },
    AuthorityFanout(Result<Option<Identity>, Error>),
    Entry(Result<Identity, Error>),
    Done(Result<(), Error>),
    Synced(Result<(), String>),
    Names(Result<Vec<Vec<u8>>, Error>),
}

pub open spec fn any_removes(loose: Seq<LooseView>) -> bool {
    exists|i: int| 0 <= i < loose.len() && (#[trigger] loose[i]).action is Remove
}

impl LooseGcView {
    pub open spec fn at(self, stage: LooseStageView) -> LooseGcView {
        LooseGcView { stage, ..self }
    }

    pub open spec fn failed(self, error: Failure) -> LooseGcView {
        self.at(LooseStageView::Failed(error))
    }

    pub open spec fn start(capability: CapabilityView, plan: PrivateObjectView) -> LooseGcView {
        LooseGcView {
            capability,
            plan,
            report: ReportView::blank(),
            fanout: 0,
            loose: 0,
            authority_open: false,
            stage: match path_failure(capability.record.authority_path) {
                Some(error) => LooseStageView::Failed(error),
                None => LooseStageView::Loading,
            },
        }
    }

    /// The directory of loose objects that is next.
    pub open spec fn fanout_plan(self) -> Option<FanoutView> {
        if 0 <= self.fanout < self.plan.fanouts.len() {
            Some(self.plan.fanouts[self.fanout])
        } else {
            None
        }
    }

    /// The loose object that is next in it.
    pub open spec fn loose_plan(self) -> Option<LooseView> {
        match self.fanout_plan() {
            Some(fanout) => if 0 <= self.loose < fanout.loose.len() {
                Some(fanout.loose[self.loose])
            } else {
                None
            },
            None => None,
        }
    }

    pub open spec fn go_to_fanout(self, fanout: int) -> LooseGcView {
        let next = LooseGcView { fanout, loose: 0, authority_open: false, ..self };
        match next.fanout_plan() {
            None => next.at(LooseStageView::Done),
            Some(plan) => match basename_failure(
                plan.name,
                "private loose object fanout"@,
                "SESSION_CORRUPT"@,
            ) {
                Some(error) => next.failed(error),
                None => next.at(LooseStageView::FanoutOpening),
            },
        }
    }

    pub open spec fn go_to_loose(self, loose: int) -> LooseGcView {
        let next = LooseGcView { loose, ..self };
        match next.loose_plan() {
            None => next.at(LooseStageView::FanoutListing),
            Some(plan) => match basename_failure(
                plan.name,
                "private loose object"@,
                "SESSION_CORRUPT"@,
            ) {
                Some(error) => next.failed(error),
                None => next.at(LooseStageView::LooseSeeing),
            },
        }
    }

    pub open spec fn revalidated(self, seen: LeasedSeen, ready: ReadyView) -> LooseGcView {
        match seen.lease_failure(self.capability, ready) {
            Some(error) => self.failed(error),
            None => match idle_failure(seen.again->Ok_0@.record.journal) {
                Some(error) => self.failed(error),
                None => LooseGcView {
                    capability: seen.again->Ok_0@,
                    stage: LooseStageView::Classifying,
                    ..self
                },
            },
        }
    }

    /// The path of what is next, below the container of sessions.
    pub open spec fn path(self, tail: bool) -> Seq<u8> {
        loose_path(
            self.capability.record,
            self.fanout_plan()->0.name,
            if tail {
                Some(self.loose_plan()->0.name)
            } else {
                None
            },
        )
    }

    pub open spec fn told(self, path: Seq<u8>, state: Seq<char>, code: Seq<char>) -> LooseGcView {
        LooseGcView {
            report: self.report.with("loose"@, self.capability.basename, path, state, code),
            ..self
        }
    }

    /// The directory of the private objects is the planned one.
    pub open spec fn objects_opened(
        self,
        identity: Result<Identity, Error>,
        names: Result<Vec<Vec<u8>>, Error>,
    ) -> LooseGcView {
        let code = "SESSION_RECOVERY_REQUIRED"@;
        let detail = "private object classifier binding changed before cleanup"@;
        let f = failure(identity);
        let f = or_fail(f, identity->Ok_0 == self.plan.objects_identity, code, detail);
        let f = first_of(f, failure(names));
        let f = or_fail(
            f,
            sorted_names(planned_names(self.plan), views(names->Ok_0@)),
            code,
            detail,
        );
        match f {
            Some(error) => self.failed(error),
            None => if self.plan.pack_present {
                self.told(
                    loose_path(self.capability.record, utf8("pack"@), None),
                    "PACK"@,
                    "RETAINED"@,
                ).go_to_fanout(0)
            } else {
                self.go_to_fanout(0)
            },
        }
    }

    /// The directory of loose objects is the planned one.
    pub open spec fn fanout_opened(
        self,
        plan: FanoutView,
        identity: Result<Identity, Error>,
        names: Result<Vec<Vec<u8>>, Error>,
    ) -> LooseGcView {
        let code = "SESSION_RECOVERY_REQUIRED"@;
        let detail = "private loose object fanout changed after classification"@;
        let f = failure(identity);
        let f = or_fail(f, identity->Ok_0 == plan.identity, code, detail);
        let f = first_of(f, failure(names));
        let f = or_fail(f, views(names->Ok_0@) == loose_names(plan), code, detail);
        match f {
            Some(error) => self.failed(error),
            None => if plan.authority_identity is Some && any_removes(plan.loose) {
                self.at(LooseStageView::AuthorityOpening)
            } else {
                self.go_to_loose(0)
            },
        }
    }

    pub open spec fn authority_opened(
        self,
        plan: FanoutView,
        found: Result<Option<Identity>, Error>,
    ) -> LooseGcView {
        match found {
            Err(error) => self.failed(error@),
            Ok(identity) => if identity is Some && identity == plan.authority_identity {
                LooseGcView { authority_open: true, ..self }.go_to_loose(0)
            } else {
                self.failed(
                    needs_recovery("authority loose object fanout changed after classification"@),
                )
            },
        }
    }

    pub open spec fn loose_seen(self, plan: LooseView, entry: Result<Identity, Error>) -> LooseGcView {
        match entry {
            Err(error) => self.failed(error@),
            Ok(identity) => if identity != plan.identity {
                self.failed(needs_recovery("private loose object changed after classification"@))
            } else {
                match plan.action {
                    LooseAction::Retain => self.told(
                        self.path(true),
                        "LOOSE"@,
                        "RETAINED"@,
                    ).go_to_loose(self.loose + 1),
                    LooseAction::Remove { .. } => if self.authority_open {
                        self.at(LooseStageView::LooseUnlinking)
                    } else {
                        self.failed(
                            needs_recovery("authority loose object plan lost its fanout binding"@),
                        )
                    },
                }
            },
        }
    }

    /// The collection after the driver's answer. An answer to another question changes nothing.
    pub open spec fn after(self, event: LooseGcEvent) -> LooseGcView {
        match (self.stage, event) {
            (LooseStageView::Loading, LooseGcEvent::Loaded(loaded)) => match loaded {
                Err(error) => self.failed(error@),
                Ok(ready) => self.at(LooseStageView::Leasing(ready@)),
            },
            (LooseStageView::Leasing(ready), LooseGcEvent::Lease(event)) => match leased(event) {
                Some(error) => self.failed(error),
                None => self.at(LooseStageView::Revalidating(ready)),
            },
            (LooseStageView::Revalidating(ready), LooseGcEvent::Leased(seen)) => self.revalidated(
                seen,
                ready,
            ),
            (LooseStageView::Classifying, LooseGcEvent::Classified(classified)) => {
                match classified {
                    Err(error) => self.failed(error@),
                    Ok(plan) => if plan@ == self.plan {
                        self.at(LooseStageView::AuthorityChecking)
                    } else {
                        self.failed(
                            needs_recovery(
                                "private object classifier binding changed while its lease was held"@,
                            ),
                        )
                    },
                }
            },
            (LooseStageView::AuthorityChecking, LooseGcEvent::Authority(authority)) => {
                match authority {
                    Err(error) => self.failed(error@),
                    Ok(plan) => if plan@ == self.plan.authority_objects {
                        self.at(LooseStageView::PrivateChecking)
                    } else {
                        self.failed(
                            needs_recovery(
                                "authority object classifier binding changed before cleanup"@,
                            ),
                        )
                    },
                }
            },
            (LooseStageView::PrivateChecking, LooseGcEvent::Opened { identity, names }) => {
                self.objects_opened(identity, names)
            },
            (LooseStageView::FanoutOpening, LooseGcEvent::Opened { identity, names }) => {
                match self.fanout_plan() {
                    None => self,
                    Some(plan) => self.fanout_opened(plan, identity, names),
                }
            },
            (LooseStageView::AuthorityOpening, LooseGcEvent::AuthorityFanout(found)) => {
                match self.fanout_plan() {
                    None => self,
                    Some(plan) => self.authority_opened(plan, found),
                }
            },
            (LooseStageView::LooseSeeing, LooseGcEvent::Entry(entry)) => match self.loose_plan() {
                None => self,
                Some(plan) => self.loose_seen(plan, entry),
            },
            (LooseStageView::LooseUnlinking, LooseGcEvent::Done(done)) => match done {
                Err(error) => self.failed(error@),
                Ok(_) => self.at(LooseStageView::LooseSyncing),
            },
            (LooseStageView::LooseSyncing, LooseGcEvent::Synced(synced)) => match synced {
                Err(words) => self.failed(
                    needs_recovery("cannot sync private loose object fanout"@ + ": "@ + words@),
                ),
                Ok(_) => match self.loose_plan() {
                    None => self,
                    Some(_) => self.told(self.path(true), "LOOSE"@, "REMOVED"@).go_to_loose(
                        self.loose + 1,
                    ),
                },
            },
            (LooseStageView::FanoutListing, LooseGcEvent::Names(names)) => match names {
                Err(error) => self.failed(error@),
                Ok(names) => match self.fanout_plan() {
                    None => self,
                    Some(_) => if names@.len() == 0 {
                        self.at(LooseStageView::FanoutUnlinking)
                    } else {
                        self.go_to_fanout(self.fanout + 1)
                    },
                },
            },
            (LooseStageView::FanoutUnlinking, LooseGcEvent::Done(done)) => match done {
                Err(error) => self.failed(error@),
                Ok(_) => self.at(LooseStageView::ObjectsSyncing),
            },
            (LooseStageView::ObjectsSyncing, LooseGcEvent::Synced(synced)) => match synced {
                Err(words) => self.failed(
                    needs_recovery(
                        "cannot sync private object directory after fanout cleanup"@ + ": "@ + words@,
                    ),
                ),
                Ok(_) => match self.fanout_plan() {
                    None => self,
                    Some(_) => self.told(self.path(false), "FANOUT"@, "REMOVED"@).go_to_fanout(
                        self.fanout + 1,
                    ),
                },
            },
            _ => self,
        }
    }

    pub open spec fn asks(self) -> LooseGcAction {
        match self.stage {
            LooseStageView::Loading => LooseGcAction::LoadReady,
            LooseStageView::Leasing(_) => LooseGcAction::Lease,
            LooseStageView::Revalidating(_) => LooseGcAction::RevalidateReady,
            LooseStageView::Classifying => LooseGcAction::Classify,
            LooseStageView::AuthorityChecking => LooseGcAction::ClassifyAuthority,
            LooseStageView::PrivateChecking => LooseGcAction::OpenObjects,
            LooseStageView::FanoutOpening => LooseGcAction::OpenFanout,
            LooseStageView::AuthorityOpening => LooseGcAction::OpenAuthorityFanout,
            LooseStageView::LooseSeeing => LooseGcAction::StatLoose,
            LooseStageView::LooseUnlinking => LooseGcAction::UnlinkLoose,
            LooseStageView::LooseSyncing => LooseGcAction::SyncFanout,
            LooseStageView::FanoutListing => LooseGcAction::ListFanout,
            LooseStageView::FanoutUnlinking => LooseGcAction::UnlinkFanout,
            LooseStageView::ObjectsSyncing => LooseGcAction::SyncObjects,
            LooseStageView::Done => LooseGcAction::Nothing,
            LooseStageView::Failed(_) => LooseGcAction::Nothing,
        }
    }
}

fn has_removal(fanout: &PrivateFanoutPlan) -> (has: bool)
    ensures
        has == any_removes(fanout@.loose),
{
    let mut i: usize = 0;
    while i < fanout.loose.len()
        invariant
            i <= fanout.loose@.len(),
            forall|k: int| 0 <= k < i ==> !((#[trigger] fanout@.loose[k]).action is Remove),
        decreases fanout.loose@.len() - i,
    {
        proof {
            assert(fanout@.loose[i as int] == fanout.loose@[i as int]@);
        }
        if loose_plan_removes(&fanout.loose[i]) {
            return true;
        }
        i = i + 1;
    }
    false
}

/// Notes that a loose object stays.
pub fn retain_loose(report: &mut MaintenanceReport, current: &RecordCapability, path: &[u8])
    ensures
        final(report)@ == old(report)@.with(
            "loose"@,
            current@.basename,
            path@,
            "LOOSE"@,
            "RETAINED"@,
        ),
{
    report.entry("loose", current.basename.as_slice(), path, "LOOSE", "RETAINED");
}

impl LooseGc {
    pub fn start(capability: RecordCapability, plan: PrivateObjectPlan) -> (gc: Self)
        ensures
            gc@ == LooseGcView::start(capability@, plan@),
    {
        let stage = match authority_from_record(&capability.record) {
            Err(error) => LooseStage::Failed(error),
            Ok(_) => LooseStage::Loading,
        };
        LooseGc {
            capability,
            plan,
            report: MaintenanceReport::blank(),
            fanout: 0,
            loose: 0,
            authority_open: false,
            stage,
        }
    }

    fn at(self, stage: LooseStage) -> (next: Self)
        ensures
            next@ == self@.at(stage@),
    {
        LooseGc { stage, ..self }
    }

    fn failed(self, error: Error) -> (next: Self)
        ensures
            next@ == self@.failed(error@),
    {
        LooseGc { stage: LooseStage::Failed(error), ..self }
    }

    /// The directory of loose objects that is next.
    pub fn fanout_plan(&self) -> (plan: Option<&PrivateFanoutPlan>)
        ensures
            match plan {
                Some(plan) => self@.fanout_plan() == Some(plan@),
                None => self@.fanout_plan() is None,
            },
    {
        if self.fanout < self.plan.fanouts.len() {
            proof {
                assert(self@.plan.fanouts[self.fanout as int] == self.plan.fanouts@[self.fanout as int]@);
            }
            Some(&self.plan.fanouts[self.fanout])
        } else {
            None
        }
    }

    /// The loose object that is next in it: its name, its node, and what becomes of it.
    pub fn loose_plan(&self) -> (plan: Option<(Vec<u8>, Identity, LooseAction)>)
        ensures
            match plan {
                Some(plan) => self@.loose_plan() == Some(
                    LooseView { name: plan.0@, identity: plan.1, action: plan.2 },
                ),
                None => self@.loose_plan() is None,
            },
    {
        match self.fanout_plan() {
            None => None,
            Some(fanout) => if self.loose < fanout.loose.len() {
                let loose = &fanout.loose[self.loose];
                proof {
                    assert(fanout@.loose[self.loose as int] == loose@);
                }
                Some((copy_bytes(loose.name.as_slice()), loose.identity, loose.action))
            } else {
                None
            },
        }
    }

    fn go_to_fanout(self, fanout: usize) -> (next: Self)
        ensures
            next@ == self@.go_to_fanout(fanout as int),
    {
        let next = LooseGc { fanout, loose: 0, authority_open: false, ..self };
        let checked = match next.fanout_plan() {
            None => {
                return next.at(LooseStage::Done);
            },
            Some(plan) => cstring(plan.name.as_slice(), "private loose object fanout"),
        };
        match checked {
            Err(error) => next.failed(error),
            Ok(_) => next.at(LooseStage::FanoutOpening),
        }
    }

    fn go_to_loose(self, loose: usize) -> (next: Self)
        ensures
            next@ == self@.go_to_loose(loose as int),
    {
        let next = LooseGc { loose, ..self };
        match next.loose_plan() {
            None => next.at(LooseStage::FanoutListing),
            Some((name, _, _)) => match cstring(name.as_slice(), "private loose object") {
                Err(error) => next.failed(error),
                Ok(_) => next.at(LooseStage::LooseSeeing),
            },
        }
    }

    fn told(self, path: &[u8], state: &'static str, code: &'static str) -> (next: Self)
        ensures
            next@ == self@.told(path@, state@, code@),
    {
        let LooseGc { capability, plan, report, fanout, loose, authority_open, stage } = self;
        let mut report = report;
        report.entry("loose", capability.basename.as_slice(), path, state, code);
        LooseGc { capability, plan, report, fanout, loose, authority_open, stage }
    }

    fn revalidated(self, seen: LeasedSeen, ready: ReadyBinding) -> (next: Self)
        ensures
            next@ == self@.revalidated(seen, ready@),
    {
        match revalidate_ready_lease(seen, &self.capability, &ready) {
            Err(error) => self.failed(error),
            Ok(capability) => match ensure_publish_idle(&capability.record) {
                Err(error) => self.failed(error),
                Ok(_) => LooseGc { capability, stage: LooseStage::Classifying, ..self },
            },
        }
    }

    fn objects_opened(self, identity: Result<Identity, Error>, names: Result<Vec<Vec<u8>>, Error>) -> (next:
        Self)
        ensures
            next@ == self@.objects_opened(identity, names),
    {
        let detail = "private object classifier binding changed before cleanup";
        let identity = match identity {
            Err(error) => {
                return self.failed(error);
            },
            Ok(identity) => identity,
        };
        if identity != self.plan.objects_identity {
            return self.failed(session_recovery(detail));
        }
        let names = match names {
            Err(error) => {
                return self.failed(error);
            },
            Ok(names) => names,
        };
        if !private_objects_matches_plan(&names, &self.plan) {
            return self.failed(session_recovery(detail));
        }
        if self.plan.pack_present {
            let path = loose_path_name(&self.capability.record, "pack".as_bytes(), None);
            self.told(path.as_slice(), "PACK", "RETAINED").go_to_fanout(0)
        } else {
            self.go_to_fanout(0)
        }
    }

    fn fanout_opened(self, identity: Result<Identity, Error>, names: Result<Vec<Vec<u8>>, Error>) -> (next:
        Self)
        ensures
            next@ == match self@.fanout_plan() {
                None => self@,
                Some(plan) => self@.fanout_opened(plan, identity, names),
            },
    {
        let detail = "private loose object fanout changed after classification";
        let checked: Result<bool, Error> = match self.fanout_plan() {
            None => {
                return self;
            },
            Some(plan) => match identity {
                Err(error) => Err(error),
                Ok(identity) => if identity != plan.identity {
                    Err(session_recovery(detail))
                } else {
                    match names {
                        Err(error) => Err(error),
                        Ok(names) => if !private_fanout_matches_plan(&names, plan) {
                            Err(session_recovery(detail))
                        } else {
                            Ok(plan.authority_identity.is_some() && has_removal(plan))
                        },
                    }
                },
            },
        };
        match checked {
            Err(error) => self.failed(error),
            Ok(authority) => if authority {
                self.at(LooseStage::AuthorityOpening)
            } else {
                self.go_to_loose(0)
            },
        }
    }

    fn authority_opened(self, found: Result<Option<Identity>, Error>) -> (next: Self)
        ensures
            next@ == match self@.fanout_plan() {
                None => self@,
                Some(plan) => self@.authority_opened(plan, found),
            },
    {
        let same: Result<bool, Error> = match self.fanout_plan() {
            None => {
                return self;
            },
            Some(plan) => match found {
                Err(error) => Err(error),
                Ok(found) => match (found, plan.authority_identity) {
                    (Some(found), Some(expected)) => Ok(found == expected),
                    _ => Ok(false),
                },
            },
        };
        match same {
            Err(error) => self.failed(error),
            Ok(same) => if same {
                let opened = LooseGc { authority_open: true, ..self };
                opened.go_to_loose(0)
            } else {
                self.failed(
                    session_recovery("authority loose object fanout changed after classification"),
                )
            },
        }
    }

    fn loose_path(&self) -> (path: Option<Vec<u8>>)
        ensures
            path is Some == self@.loose_plan() is Some,
            path matches Some(path) ==> path@ == self@.path(true),
    {
        match (self.fanout_plan(), self.loose_plan()) {
            (Some(fanout), Some((name, _, _))) => Some(
                loose_path_name(
                    &self.capability.record,
                    fanout.name.as_slice(),
                    Some(name.as_slice()),
                ),
            ),
            _ => None,
        }
    }

    fn gc_loose_fanout(self, entry: Result<Identity, Error>) -> (next: Self)
        ensures
            next@ == match self@.loose_plan() {
                None => self@,
                Some(plan) => self@.loose_seen(plan, entry),
            },
    {
        match (self.loose_plan(), self.loose_path()) {
            (Some((_, expected, action)), Some(path)) => match entry {
                Err(error) => self.failed(error),
                Ok(identity) => if identity != expected {
                    self.failed(
                        session_recovery("private loose object changed after classification"),
                    )
                } else {
                    match action {
                        LooseAction::Retain => {
                            let next: usize = self.after_this();
                            let LooseGc {
                                capability,
                                plan,
                                report,
                                fanout,
                                loose,
                                authority_open,
                                stage,
                            } = self;
                            let mut report = report;
                            retain_loose(&mut report, &capability, path.as_slice());
                            let told = LooseGc {
                                capability,
                                plan,
                                report,
                                fanout,
                                loose,
                                authority_open,
                                stage,
                            };
                            told.go_to_loose(next)
                        },
                        LooseAction::Remove { .. } => if self.authority_open {
                            self.at(LooseStage::LooseUnlinking)
                        } else {
                            self.failed(
                                session_recovery(
                                    "authority loose object plan lost its fanout binding",
                                ),
                            )
                        },
                    }
                },
            },
            _ => self,
        }
    }

    /// The number of the object behind the one that is next.
    fn after_this(&self) -> (next: usize)
        requires
            self@.loose_plan() is Some,
        ensures
            next == self@.loose + 1,
    {
        let count: usize = match self.fanout_plan() {
            Some(fanout) => {
                proof {
                    assert(fanout@.loose.len() == fanout.loose@.len());
                }
                fanout.loose.len()
            },
            None => self.loose,
        };
        proof {
            assert(self.loose < count);
        }
        self.loose + 1
    }

    fn loose_removed(self) -> (next: Self)
        ensures
            next@ == match self@.loose_plan() {
                None => self@,
                Some(_) => self@.told(self@.path(true), "LOOSE"@, "REMOVED"@).go_to_loose(
                    self@.loose + 1,
                ),
            },
    {
        match self.loose_path() {
            None => self,
            Some(path) => {
                let next: usize = self.after_this();
                self.told(path.as_slice(), "LOOSE", "REMOVED").go_to_loose(next)
            },
        }
    }

    fn fanout_listed(self, empty: bool) -> (next: Self)
        ensures
            next@ == match self@.fanout_plan() {
                None => self@,
                Some(_) => if empty {
                    self@.at(LooseStageView::FanoutUnlinking)
                } else {
                    self@.go_to_fanout(self@.fanout + 1)
                },
            },
    {
        if self.fanout >= self.plan.fanouts.len() {
            return self;
        }
        if empty {
            self.at(LooseStage::FanoutUnlinking)
        } else {
            let next: usize = self.fanout + 1;
            self.go_to_fanout(next)
        }
    }

    fn fanout_removed(self) -> (next: Self)
        ensures
            next@ == match self@.fanout_plan() {
                None => self@,
                Some(_) => self@.told(self@.path(false), "FANOUT"@, "REMOVED"@).go_to_fanout(
                    self@.fanout + 1,
                ),
            },
    {
        let path = match self.fanout_plan() {
            None => {
                return self;
            },
            Some(plan) => loose_path_name(&self.capability.record, plan.name.as_slice(), None),
        };
        let count: usize = self.plan.fanouts.len();
        proof {
            assert(self@.plan.fanouts.len() == count);
        }
        let next: usize = self.fanout + 1;
        self.told(path.as_slice(), "FANOUT", "REMOVED").go_to_fanout(next)
    }

    /// Takes the driver's answer to the question that the collection asks.
    pub fn gc_private_loose(self, event: LooseGcEvent) -> (next: Self)
        ensures
            next@ == self@.after(event),
    {
        let LooseGc { capability, plan, report, fanout, loose, authority_open, stage } = self;
        match (stage, event) {
            (LooseStage::Leasing(ready), LooseGcEvent::Lease(event)) => {
                let stage = match lease(event) {
                    Err(error) => LooseStage::Failed(error),
                    Ok(_) => LooseStage::Revalidating(ready),
                };
                LooseGc { capability, plan, report, fanout, loose, authority_open, stage }
            },
            (LooseStage::Revalidating(ready), LooseGcEvent::Leased(seen)) => {
                let gc = LooseGc {
                    capability,
                    plan,
                    report,
                    fanout,
                    loose,
                    authority_open,
                    stage: LooseStage::Classifying,
                };
                gc.revalidated(seen, ready)
            },
            (stage, event) => {
                let gc = LooseGc { capability, plan, report, fanout, loose, authority_open, stage };
                gc.collect(event)
            },
        }
    }

    fn collect(self, event: LooseGcEvent) -> (next: Self)
        requires
            !(self@.stage is Leasing && event is Lease),
            !(self@.stage is Revalidating && event is Leased),
        ensures
            next@ == self@.after(event),
    {
        match (&self.stage, event) {
            (LooseStage::Loading, LooseGcEvent::Loaded(loaded)) => match loaded {
                Err(error) => self.failed(error),
                Ok(ready) => self.at(LooseStage::Leasing(ready)),
            },
            (LooseStage::Classifying, LooseGcEvent::Classified(classified)) => match classified {
                Err(error) => self.failed(error),
                Ok(plan) => if plan.same(&self.plan) {
                    self.at(LooseStage::AuthorityChecking)
                } else {
                    self.failed(
                        session_recovery(
                            "private object classifier binding changed while its lease was held",
                        ),
                    )
                },
            },
            (LooseStage::AuthorityChecking, LooseGcEvent::Authority(authority)) => match authority {
                Err(error) => self.failed(error),
                Ok(plan) => if plan.same(&self.plan.authority_objects) {
                    self.at(LooseStage::PrivateChecking)
                } else {
                    self.failed(
                        session_recovery(
                            "authority object classifier binding changed before cleanup",
                        ),
                    )
                },
            },
            (LooseStage::PrivateChecking, LooseGcEvent::Opened { identity, names }) => {
                self.objects_opened(identity, names)
            },
            (LooseStage::FanoutOpening, LooseGcEvent::Opened { identity, names }) => {
                self.fanout_opened(identity, names)
            },
            (LooseStage::AuthorityOpening, LooseGcEvent::AuthorityFanout(found)) => {
                self.authority_opened(found)
            },
            (LooseStage::LooseSeeing, LooseGcEvent::Entry(entry)) => self.gc_loose_fanout(entry),
            (LooseStage::LooseUnlinking, LooseGcEvent::Done(done)) => match done {
                Err(error) => self.failed(error),
                Ok(_) => self.at(LooseStage::LooseSyncing),
            },
            (LooseStage::LooseSyncing, LooseGcEvent::Synced(synced)) => match synced {
                Err(words) => self.failed(
                    Error::io(
                        "SESSION_RECOVERY_REQUIRED",
                        "cannot sync private loose object fanout",
                        words.as_str(),
                    ),
                ),
                Ok(_) => self.loose_removed(),
            },
            (LooseStage::FanoutListing, LooseGcEvent::Names(names)) => match names {
                Err(error) => self.failed(error),
                Ok(names) => self.fanout_listed(names.len() == 0),
            },
            (LooseStage::FanoutUnlinking, LooseGcEvent::Done(done)) => match done {
                Err(error) => self.failed(error),
                Ok(_) => self.at(LooseStage::ObjectsSyncing),
            },
            (LooseStage::ObjectsSyncing, LooseGcEvent::Synced(synced)) => match synced {
                Err(words) => self.failed(
                    Error::io(
                        "SESSION_RECOVERY_REQUIRED",
                        "cannot sync private object directory after fanout cleanup",
                        words.as_str(),
                    ),
                ),
                Ok(_) => self.fanout_removed(),
            },
            _ => self,
        }
    }

    /// What is to be done next.
    pub fn action(&self) -> (action: LooseGcAction)
        ensures
            action == self@.asks(),
    {
        match &self.stage {
            LooseStage::Loading => LooseGcAction::LoadReady,
            LooseStage::Leasing(_) => LooseGcAction::Lease,
            LooseStage::Revalidating(_) => LooseGcAction::RevalidateReady,
            LooseStage::Classifying => LooseGcAction::Classify,
            LooseStage::AuthorityChecking => LooseGcAction::ClassifyAuthority,
            LooseStage::PrivateChecking => LooseGcAction::OpenObjects,
            LooseStage::FanoutOpening => LooseGcAction::OpenFanout,
            LooseStage::AuthorityOpening => LooseGcAction::OpenAuthorityFanout,
            LooseStage::LooseSeeing => LooseGcAction::StatLoose,
            LooseStage::LooseUnlinking => LooseGcAction::UnlinkLoose,
            LooseStage::LooseSyncing => LooseGcAction::SyncFanout,
            LooseStage::FanoutListing => LooseGcAction::ListFanout,
            LooseStage::FanoutUnlinking => LooseGcAction::UnlinkFanout,
            LooseStage::ObjectsSyncing => LooseGcAction::SyncObjects,
            LooseStage::Done => LooseGcAction::Nothing,
            LooseStage::Failed(_) => LooseGcAction::Nothing,
        }
    }

    /// What became of the collection, once nothing more is asked for.
    pub fn outcome(&self) -> (outcome: Option<Result<(), Error>>)
        ensures
            match self@.stage {
                LooseStageView::Done => outcome == Some(Ok::<(), Error>(())),
                LooseStageView::Failed(failed) => outcome matches Some(Err(error)) && error@
                    == failed,
                _ => outcome is None,
            },
    {
        match &self.stage {
            LooseStage::Done => Some(Ok(())),
            LooseStage::Failed(error) => Some(Err(error.copy())),
            _ => None,
        }
    }
}

/// An object is unlinked only where the plan lets it go, it still is the planned one, and the
/// authority's directory is open to compare it with; and the plan never changes on the way.
pub proof fn law_only_planned_objects_are_unlinked(gc: LooseGcView, event: LooseGcEvent)
    requires
        !(gc.stage is LooseUnlinking),
        gc.after(event).stage is LooseUnlinking,
    ensures
        gc.stage is LooseSeeing,
        gc.loose_plan() is Some,
        gc.loose_plan()->0.action is Remove,
        event is Entry && event->Entry_0 is Ok && event->Entry_0->Ok_0 == gc.loose_plan()->0.identity,
        gc.authority_open,
        gc.after(event).plan == gc.plan,
        gc.after(event).loose_plan() == gc.loose_plan(),
{
}

/// What a collection of private objects reports is done or kept, never to be recovered by hand: what
/// goes wrong is its outcome.
pub proof fn law_collections_report_no_recovery(gc: LooseGcView, event: LooseGcEvent)
    ensures
        gc.after(event).report.recovery_required == gc.report.recovery_required,
{
}

/// A directory is unlinked only where nothing is left in it.
pub proof fn law_only_empty_directories_are_unlinked(gc: LooseGcView, event: LooseGcEvent)
    requires
        !(gc.stage is FanoutUnlinking),
        gc.after(event).stage is FanoutUnlinking,
    ensures
        gc.stage is FanoutListing,
        event is Names && event->Names_0 is Ok && event->Names_0->Ok_0@.len() == 0,
{
}

/// Nothing is opened to be collected before the session is leased, and before the plan was made once
/// more under the lease and came out the same.
pub proof fn law_collection_follows_its_plan(gc: LooseGcView, event: LooseGcEvent)
    requires
        gc.after(event) != gc,
    ensures
        gc.after(event).plan == gc.plan,
        gc.after(event).stage is PrivateChecking ==> gc.stage is AuthorityChecking
            && event is Authority && event->Authority_0 is Ok && event->Authority_0->Ok_0@
            == gc.plan.authority_objects,
        gc.after(event).stage is AuthorityChecking ==> gc.stage is Classifying
            && event is Classified && event->Classified_0 is Ok && event->Classified_0->Ok_0@
            == gc.plan,
        gc.after(event).stage is Classifying ==> gc.stage is Revalidating && event is Leased,
        gc.after(event).stage is Revalidating ==> gc.stage is Leasing && event
            == LooseGcEvent::Lease(LeaseEvent::Locked),
{
}

} // verus!
