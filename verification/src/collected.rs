//! What a collection has done when it ends: everything that there was to do, or it says that something
//! has to be recovered by hand.

use crate::authority::Error;
use crate::bytes::utf8;
use crate::loose_gc::{LooseGcAction, LooseGcEvent, LooseGcView};
use crate::private_objects::PrivateObjectView;
use crate::session::{CapabilityView, RecordCapability, SessionPayloadView};
use crate::session_gc::{
    session_task, CensusCapabilityView, SessionCensusView, SessionGcAction, SessionGcView,
};
use crate::template::{EntryView, ReportView};
use crate::template_gc::{CensusView, GcAction, GcView};
use vstd::prelude::*;

verus! {

/// An answer to a collection of sessions.
pub enum SessionAnswer {
    Cleaned(Result<RecordCapability, Error>),
    Buried(Result<(), Error>),
    Loosened(ReportView, Result<(), Error>),
}

/// A collection of sessions, and all that it has asked for.
pub struct SessionCollection {
    pub gc: SessionGcView,
    pub asked: Set<SessionGcAction>,
}

/// What is said of a session that was buried.
pub open spec fn is_told_buried(entries: Seq<EntryView>, session: CensusCapabilityView) -> bool {
    exists|k: int|
        0 <= k < entries.len() && (#[trigger] entries[k]).record_name
            == session.capability.basename && entries[k].path_name == utf8(
            session.capability.record.payload->tombstone_name,
        ) && entries[k].scope == "session"@ && entries[k].state == "TOMBSTONED"@ && entries[k].code
            == "REMOVED"@
}

spec fn cleaning(i: int) -> SessionGcAction {
    SessionGcAction::CleanTemporary(i as usize)
}

impl SessionCollection {
    pub open spec fn start(census: SessionCensusView) -> SessionCollection {
        SessionCollection { gc: SessionGcView::starting(census), asked: Set::empty() }
    }

    pub open spec fn after(self, answer: SessionAnswer) -> SessionCollection {
        SessionCollection {
            gc: match answer {
                SessionAnswer::Cleaned(done) => self.gc.cleaned(done),
                SessionAnswer::Buried(done) => self.gc.buried(done),
                SessionAnswer::Loosened(report, done) => self.gc.loosened(report, done),
            },
            asked: self.asked.insert(self.gc.asks()),
        }
    }

    pub open spec fn after_all(self, answers: Seq<SessionAnswer>) -> SessionCollection
        decreases answers.len(),
    {
        if answers.len() == 0 {
            self
        } else {
            self.after_all(answers.drop_last()).after(answers.last())
        }
    }

    /// The session of this number was dealt with as its record asks for.
    pub open spec fn has_dealt_with(self, i: int) -> bool {
        let session = self.gc.capabilities[i];
        match session.capability.record.payload {
            SessionPayloadView::Tombstoned { .. } => self.asked.contains(
                SessionGcAction::Bury(i as usize),
            ) && is_told_buried(self.gc.report.entries, session),
            SessionPayloadView::Ready { .. } => session.capability.record.journal is Idle
                ==> self.asked.contains(SessionGcAction::CollectLoose(i as usize)),
            _ => true,
        }
    }

    spec fn accounts(self, census: SessionCensusView) -> bool {
        &&& self.gc.temporaries == census.temporaries
        &&& self.gc.capabilities == census.capabilities
        &&& 0 <= self.gc.cleaned <= self.gc.temporaries.len()
        &&& 0 <= self.gc.collected <= self.gc.capabilities.len()
        &&& forall|i: int|
            0 <= i < self.gc.cleaned ==> self.asked.contains(#[trigger] cleaning(i))
        &&& forall|i: int|
            #![trigger self.gc.capabilities[i]]
            0 <= i < self.gc.collected ==> self.has_dealt_with(i)
        &&& self.gc.ended ==> self.gc.report.recovery_required || (self.gc.cleaned
            == self.gc.temporaries.len() && self.gc.collected == self.gc.capabilities.len())
    }
}

proof fn lemma_told_stays(before: Seq<EntryView>, after: Seq<EntryView>, session: CensusCapabilityView)
    requires
        before.is_prefix_of(after),
        is_told_buried(before, session),
    ensures
        is_told_buried(after, session),
{
    let k = choose|k: int|
        0 <= k < before.len() && (#[trigger] before[k]).record_name == session.capability.basename
            && before[k].path_name == utf8(session.capability.record.payload->tombstone_name)
            && before[k].scope == "session"@ && before[k].state == "TOMBSTONED"@ && before[k].code
            == "REMOVED"@;
    assert(after[k] == before[k]);
}

/// Asking for more and saying more leaves what was dealt with as it is.
proof fn lemma_dealt_with_stays(before: SessionCollection, after: SessionCollection, i: int)
    requires
        before.has_dealt_with(i),
        before.gc.capabilities == after.gc.capabilities,
        before.asked.subset_of(after.asked),
        before.gc.report.entries.is_prefix_of(after.gc.report.entries),
    ensures
        after.has_dealt_with(i),
{
    let session = before.gc.capabilities[i];
    if session.capability.record.payload is Tombstoned {
        lemma_told_stays(before.gc.report.entries, after.gc.report.entries, session);
    }
}

/// Settling passes over nothing that is to be dealt with.
proof fn lemma_settle_accounts(collection: SessionCollection, census: SessionCensusView)
    requires
        collection.accounts(census),
        !collection.gc.ended,
    ensures
        (SessionCollection { gc: collection.gc.settle(), ..collection }).accounts(census),
    decreases collection.gc.capabilities.len() - collection.gc.collected,
{
    let gc = collection.gc;
    if gc.cleaned >= gc.temporaries.len() && gc.collected < gc.capabilities.len() {
        let session = gc.capabilities[gc.collected];
        match session_task(session, gc.collected) {
            None => {
                let next = SessionCollection {
                    gc: SessionGcView { collected: gc.collected + 1, ..gc },
                    ..collection
                };
                assert forall|i: int|
                    #![trigger next.gc.capabilities[i]]
                    0 <= i < next.gc.collected implies next.has_dealt_with(i) by {
                    if i < gc.collected {
                        assert(collection.has_dealt_with(i)) by {
                            assert(collection.gc.capabilities[i] == next.gc.capabilities[i]);
                        }
                        lemma_dealt_with_stays(collection, next, i);
                    }
                }
                lemma_settle_accounts(next, census);
            },
            Some(_) => {
                let after = SessionCollection { gc: gc.settle(), ..collection };
                lemma_keeps_dealt(collection, after);
            },
        }
    } else {
        let after = SessionCollection { gc: gc.settle(), ..collection };
        lemma_keeps_dealt(collection, after);
    }
}

proof fn lemma_keeps_dealt(before: SessionCollection, after: SessionCollection)
    requires
        forall|i: int|
            #![trigger before.gc.capabilities[i]]
            0 <= i < before.gc.collected ==> before.has_dealt_with(i),
        before.gc.capabilities == after.gc.capabilities,
        before.asked.subset_of(after.asked),
        before.gc.report.entries.is_prefix_of(after.gc.report.entries),
    ensures
        forall|i: int|
            #![trigger after.gc.capabilities[i]]
            0 <= i < before.gc.collected ==> after.has_dealt_with(i),
{
    assert forall|i: int|
        #![trigger after.gc.capabilities[i]]
        0 <= i < before.gc.collected implies after.has_dealt_with(i) by {
        assert(before.gc.capabilities[i] == after.gc.capabilities[i]);
        lemma_dealt_with_stays(before, after, i);
    }
}

proof fn lemma_answer_accounts(
    collection: SessionCollection,
    answer: SessionAnswer,
    census: SessionCensusView,
)
    requires
        collection.accounts(census),
        census.temporaries.len() <= usize::MAX,
        census.capabilities.len() <= usize::MAX,
    ensures
        collection.after(answer).accounts(census),
{
    let gc = collection.gc;
    let asked = collection.asked.insert(gc.asks());
    let same = SessionCollection { gc, asked };
    lemma_keeps_dealt(collection, same);
    assert(same.accounts(census));
    if gc.asks() is CleanTemporary {
        let name = gc.temporaries[gc.cleaned];
        if let SessionAnswer::Cleaned(done) = answer {
            match done {
                Err(_) => {
                    lemma_keeps_dealt(
                        same,
                        SessionCollection { gc: gc.stop(name, name, "TMP"@), asked },
                    );
                },
                Ok(_) => {
                    let told = SessionGcView { cleaned: gc.cleaned + 1, ..gc }.told(
                        name,
                        name,
                        "TMP"@,
                        "REMOVED"@,
                    );
                    let next = SessionCollection { gc: told, asked };
                    lemma_keeps_dealt(same, next);
                    lemma_settle_accounts(next, census);
                },
            }
        }
    } else if gc.asks() is Bury {
        if let SessionAnswer::Buried(done) = answer {
            let session = gc.capabilities[gc.collected];
            let name = session.capability.basename;
            let path = utf8(session.capability.record.payload->tombstone_name);
            match done {
                Err(_) => {
                    lemma_keeps_dealt(
                        same,
                        SessionCollection { gc: gc.stop(name, path, "TOMBSTONED"@), asked },
                    );
                },
                Ok(_) => {
                    let told = gc.told(name, path, "TOMBSTONED"@, "REMOVED"@);
                    let next = SessionCollection {
                        gc: SessionGcView { collected: gc.collected + 1, ..told },
                        asked,
                    };
                    lemma_keeps_dealt(same, next);
                    let entries = told.report.entries;
                    assert(entries[entries.len() - 1].record_name == name);
                    assert(is_told_buried(entries, session));
                    assert(next.has_dealt_with(gc.collected));
                    lemma_settle_accounts(next, census);
                },
            }
        }
    } else if gc.asks() is CollectLoose {
        if let SessionAnswer::Loosened(report, done) = answer {
            let session = gc.capabilities[gc.collected];
            let name = session.capability.basename;
            let merged = SessionGcView { report: gc.report.merged(report), ..gc };
            let busy = merged.told(name, name, "READY"@, "BUSY"@);
            let passed = SessionCollection {
                gc: SessionGcView { collected: gc.collected + 1, ..merged },
                asked,
            };
            let passed_busy = SessionCollection {
                gc: SessionGcView { collected: gc.collected + 1, ..busy },
                asked,
            };
            lemma_keeps_dealt(same, passed);
            lemma_keeps_dealt(same, passed_busy);
            lemma_keeps_dealt(
                same,
                SessionCollection { gc: merged.stop(name, name, "READY"@), asked },
            );
            assert(passed.has_dealt_with(gc.collected));
            assert(passed_busy.has_dealt_with(gc.collected));
            lemma_settle_accounts(passed, census);
            lemma_settle_accounts(passed_busy, census);
        }
    }
}

proof fn lemma_session_run_accounts(census: SessionCensusView, answers: Seq<SessionAnswer>)
    requires
        census.temporaries.len() <= usize::MAX,
        census.capabilities.len() <= usize::MAX,
    ensures
        SessionCollection::start(census).after_all(answers).accounts(census),
    decreases answers.len(),
{
    if answers.len() == 0 {
        let fresh = SessionCollection {
            gc: SessionGcView {
                temporaries: census.temporaries,
                capabilities: census.capabilities,
                report: ReportView::blank(),
                cleaned: 0,
                collected: 0,
                ended: false,
            },
            asked: Set::empty(),
        };
        lemma_settle_accounts(fresh, census);
    } else {
        lemma_session_run_accounts(census, answers.drop_last());
        lemma_answer_accounts(
            SessionCollection::start(census).after_all(answers.drop_last()),
            answers.last(),
            census,
        );
    }
}

/// A collection of sessions that asks for nothing more, and for no recovery, has dealt with everything
/// that the census found: it asked for each temporary record to be removed, for each session that is
/// TOMBSTONED to be buried, which it reports, and for the private objects of each that is READY and
/// idle to be collected.
pub proof fn law_session_collection_is_complete(
    census: SessionCensusView,
    answers: Seq<SessionAnswer>,
    i: int,
)
    requires
        census.temporaries.len() <= usize::MAX,
        census.capabilities.len() <= usize::MAX,
        SessionCollection::start(census).after_all(answers).gc.asks() == SessionGcAction::Nothing,
        !SessionCollection::start(census).after_all(answers).gc.report.recovery_required,
    ensures
        ({
            let done = SessionCollection::start(census).after_all(answers);
            &&& 0 <= i < census.temporaries.len() ==> done.asked.contains(
                SessionGcAction::CleanTemporary(i as usize),
            )
            &&& 0 <= i < census.capabilities.len() ==> {
                let session = census.capabilities[i];
                &&& session.capability.record.payload is Tombstoned ==> done.asked.contains(
                    SessionGcAction::Bury(i as usize),
                ) && is_told_buried(done.gc.report.entries, session)
                &&& session.capability.record.payload is Ready
                    && session.capability.record.journal is Idle ==> done.asked.contains(
                    SessionGcAction::CollectLoose(i as usize),
                )
            }
        }),
{
    lemma_session_run_accounts(census, answers);
    let done = SessionCollection::start(census).after_all(answers);
    lemma_session_run_settled(census, answers);
    if 0 <= i < census.temporaries.len() {
        assert(done.asked.contains(cleaning(i)));
    }
    if 0 <= i < census.capabilities.len() {
        assert(done.gc.capabilities[i] == census.capabilities[i]);
        assert(done.has_dealt_with(i));
    }
}

/// A collection that has not ended stands at something that there is to do.
proof fn lemma_settled(gc: SessionGcView)
    requires
        !gc.ended,
    ensures
        gc.settle().ended || gc.settle().asks() != SessionGcAction::Nothing,
    decreases gc.capabilities.len() - gc.collected,
{
    if gc.cleaned >= gc.temporaries.len() && gc.collected < gc.capabilities.len() {
        let session = gc.capabilities[gc.collected];
        if session_task(session, gc.collected) is None {
            lemma_settled(SessionGcView { collected: gc.collected + 1, ..gc });
        }
    }
}

proof fn lemma_session_run_settled(census: SessionCensusView, answers: Seq<SessionAnswer>)
    ensures
        ({
            let gc = SessionCollection::start(census).after_all(answers).gc;
            gc.ended || gc.asks() != SessionGcAction::Nothing
        }),
    decreases answers.len(),
{
    if answers.len() == 0 {
        lemma_settled(
            SessionGcView {
                temporaries: census.temporaries,
                capabilities: census.capabilities,
                report: ReportView::blank(),
                cleaned: 0,
                collected: 0,
                ended: false,
            },
        );
    } else {
        lemma_session_run_settled(census, answers.drop_last());
        let gc = SessionCollection::start(census).after_all(answers.drop_last()).gc;
        if gc.asks() is CleanTemporary {
            let name = gc.temporaries[gc.cleaned];
            lemma_settled(
                SessionGcView { cleaned: gc.cleaned + 1, ..gc }.told(
                    name,
                    name,
                    "TMP"@,
                    "REMOVED"@,
                ),
            );
        } else if gc.asks() is Bury {
            let capability = gc.capabilities[gc.collected].capability;
            let told = gc.told(
                capability.basename,
                utf8(capability.record.payload->tombstone_name),
                "TOMBSTONED"@,
                "REMOVED"@,
            );
            lemma_settled(SessionGcView { collected: told.collected + 1, ..told });
        } else if gc.asks() is CollectLoose {
            if let SessionAnswer::Loosened(report, done) = answers.last() {
                let name = gc.capabilities[gc.collected].capability.basename;
                let merged = SessionGcView { report: gc.report.merged(report), ..gc };
                let busy = merged.told(name, name, "READY"@, "BUSY"@);
                lemma_settled(SessionGcView { collected: gc.collected + 1, ..merged });
                lemma_settled(SessionGcView { collected: gc.collected + 1, ..busy });
            }
        }
    }
}

/// An answer to a collection of templates.
pub enum TemplateAnswer {
    Cleaned(Result<(), Error>),
    Collected(Result<bool, Error>),
}

/// A collection of templates, and all that it has asked for.
pub struct TemplateCollection {
    pub gc: GcView,
    pub asked: Set<GcAction>,
}

/// Something is said of what stands under this name.
pub open spec fn is_told_of(entries: Seq<EntryView>, name: Seq<u8>) -> bool {
    exists|k: int|
        0 <= k < entries.len() && (#[trigger] entries[k]).record_name == name && entries[k].scope
            == "template"@
}

proof fn lemma_told_of_stays(before: Seq<EntryView>, after: Seq<EntryView>, name: Seq<u8>)
    requires
        before.is_prefix_of(after),
        is_told_of(before, name),
    ensures
        is_told_of(after, name),
{
    let k = choose|k: int|
        0 <= k < before.len() && (#[trigger] before[k]).record_name == name && before[k].scope
            == "template"@;
    assert(after[k] == before[k]);
}

spec fn template_cleaning(i: int) -> GcAction {
    GcAction::CleanTemporary(i as usize)
}

spec fn template_collecting(i: int) -> GcAction {
    GcAction::CollectTemplate(i as usize)
}

impl TemplateCollection {
    pub open spec fn start(census: CensusView) -> TemplateCollection {
        TemplateCollection { gc: GcView::starting(census), asked: Set::empty() }
    }

    pub open spec fn after(self, answer: TemplateAnswer) -> TemplateCollection {
        TemplateCollection {
            gc: match answer {
                TemplateAnswer::Cleaned(done) => self.gc.cleaned(done),
                TemplateAnswer::Collected(outcome) => self.gc.collected(outcome),
            },
            asked: self.asked.insert(self.gc.asks()),
        }
    }

    pub open spec fn after_all(self, answers: Seq<TemplateAnswer>) -> TemplateCollection
        decreases answers.len(),
    {
        if answers.len() == 0 {
            self
        } else {
            self.after_all(answers.drop_last()).after(answers.last())
        }
    }

    spec fn accounts(self, census: CensusView) -> bool {
        &&& self.gc.temporaries == census.temporaries
        &&& self.gc.capabilities == census.capabilities
        &&& 0 <= self.gc.cleaned <= self.gc.temporaries.len()
        &&& 0 <= self.gc.collected <= self.gc.capabilities.len()
        &&& forall|i: int|
            0 <= i < self.gc.cleaned ==> self.asked.contains(#[trigger] template_cleaning(i))
        &&& forall|i: int|
            0 <= i < self.gc.collected ==> self.asked.contains(#[trigger] template_collecting(i))
        &&& forall|i: int|
            #![trigger self.gc.capabilities[i]]
            0 <= i < self.gc.collected ==> is_told_of(
                self.gc.report.entries,
                self.gc.capabilities[i].basename,
            )
        &&& self.gc.ended ==> self.gc.report.recovery_required || (self.gc.cleaned
            == self.gc.temporaries.len() && self.gc.collected == self.gc.capabilities.len())
        &&& !self.gc.ended ==> self.gc.cleaned < self.gc.temporaries.len() || self.gc.collected
            < self.gc.capabilities.len()
    }
}

proof fn lemma_template_told(before: GcView, after: GcView)
    requires
        before.capabilities == after.capabilities,
        before.report.entries.is_prefix_of(after.report.entries),
        forall|i: int|
            #![trigger before.capabilities[i]]
            0 <= i < before.collected ==> is_told_of(
                before.report.entries,
                before.capabilities[i].basename,
            ),
    ensures
        forall|i: int|
            #![trigger after.capabilities[i]]
            0 <= i < before.collected ==> is_told_of(
                after.report.entries,
                after.capabilities[i].basename,
            ),
{
    assert forall|i: int|
        #![trigger after.capabilities[i]]
        0 <= i < before.collected implies is_told_of(
        after.report.entries,
        after.capabilities[i].basename,
    ) by {
        assert(before.capabilities[i] == after.capabilities[i]);
        lemma_told_of_stays(
            before.report.entries,
            after.report.entries,
            before.capabilities[i].basename,
        );
    }
}

proof fn lemma_template_answer_accounts(
    collection: TemplateCollection,
    answer: TemplateAnswer,
    census: CensusView,
)
    requires
        collection.accounts(census),
        census.temporaries.len() <= usize::MAX,
        census.capabilities.len() <= usize::MAX,
    ensures
        collection.after(answer).accounts(census),
{
    let gc = collection.gc;
    let next = collection.after(answer);
    assert(gc.report.entries.is_prefix_of(next.gc.report.entries));
    lemma_template_told(gc, next.gc);
    if gc.is_collecting() && next.gc.collected > gc.collected {
        let entries = next.gc.report.entries;
        let at = gc.report.entries.len() as int;
        assert(entries[at].record_name == gc.capabilities[gc.collected].basename);
        assert(is_told_of(entries, next.gc.capabilities[gc.collected].basename));
    }
}

proof fn lemma_template_run_accounts(census: CensusView, answers: Seq<TemplateAnswer>)
    requires
        census.temporaries.len() <= usize::MAX,
        census.capabilities.len() <= usize::MAX,
    ensures
        TemplateCollection::start(census).after_all(answers).accounts(census),
    decreases answers.len(),
{
    if answers.len() > 0 {
        lemma_template_run_accounts(census, answers.drop_last());
        lemma_template_answer_accounts(
            TemplateCollection::start(census).after_all(answers.drop_last()),
            answers.last(),
            census,
        );
    }
}

/// A collection of templates that asks for nothing more, and for no recovery, has asked for each
/// temporary record to be removed and for each template of the census to be collected, and says of each
/// template what became of it.
pub proof fn law_template_collection_is_complete(
    census: CensusView,
    answers: Seq<TemplateAnswer>,
    i: int,
)
    requires
        census.temporaries.len() <= usize::MAX,
        census.capabilities.len() <= usize::MAX,
        TemplateCollection::start(census).after_all(answers).gc.asks() == GcAction::Nothing,
        !TemplateCollection::start(census).after_all(answers).gc.report.recovery_required,
    ensures
        ({
            let done = TemplateCollection::start(census).after_all(answers);
            &&& 0 <= i < census.temporaries.len() ==> done.asked.contains(
                GcAction::CleanTemporary(i as usize),
            )
            &&& 0 <= i < census.capabilities.len() ==> done.asked.contains(
                GcAction::CollectTemplate(i as usize),
            ) && is_told_of(done.gc.report.entries, census.capabilities[i].basename)
        }),
{
    lemma_template_run_accounts(census, answers);
    let done = TemplateCollection::start(census).after_all(answers);
    if 0 <= i < census.temporaries.len() {
        assert(done.asked.contains(template_cleaning(i)));
    }
    if 0 <= i < census.capabilities.len() {
        assert(done.asked.contains(template_collecting(i)));
        assert(done.gc.capabilities[i] == census.capabilities[i]);
    }
}

/// A collection of private objects, and which objects it has unlinked: by the number of their directory
/// and their own in it.
pub struct LooseCollection {
    pub gc: LooseGcView,
    pub unlinked: Set<(int, int)>,
}

impl LooseCollection {
    pub open spec fn start(capability: CapabilityView, plan: PrivateObjectView) -> LooseCollection {
        LooseCollection { gc: LooseGcView::start(capability, plan), unlinked: Set::empty() }
    }

    pub open spec fn after(self, event: LooseGcEvent) -> LooseCollection {
        LooseCollection {
            gc: self.gc.after(event),
            unlinked: match (self.gc.asks(), event) {
                (LooseGcAction::UnlinkLoose, LooseGcEvent::Done(Ok(_))) => self.unlinked.insert(
                    (self.gc.fanout, self.gc.loose),
                ),
                _ => self.unlinked,
            },
        }
    }

    pub open spec fn after_all(self, events: Seq<LooseGcEvent>) -> LooseCollection
        decreases events.len(),
    {
        if events.len() == 0 {
            self
        } else {
            self.after_all(events.drop_last()).after(events.last())
        }
    }

    spec fn has_passed(self, fanout: int, loose: int) -> bool {
        fanout < self.gc.fanout || (fanout == self.gc.fanout && loose < self.gc.loose)
    }

    spec fn accounts(self, plan: PrivateObjectView) -> bool {
        let gc = self.gc;
        let stage = gc.stage;
        &&& gc.plan == plan
        &&& 0 <= gc.fanout
        &&& 0 <= gc.loose
        &&& forall|f: int, l: int|
            #![trigger plan.fanouts[f].loose[l]]
            0 <= f < plan.fanouts.len() && 0 <= l < plan.fanouts[f].loose.len() && self.has_passed(
                f,
                l,
            ) ==> (self.unlinked.contains((f, l)) <==> plan.fanouts[f].loose[l].action is Remove)
        &&& forall|f: int, l: int| #[trigger]
            self.unlinked.contains((f, l)) ==> self.has_passed(f, l) || (stage is LooseSyncing
                || stage is Failed) && f == gc.fanout && l == gc.loose
        &&& (stage is Loading || stage is Leasing || stage is Revalidating || stage is Classifying
            || stage is AuthorityChecking || stage is PrivateChecking) ==> gc.fanout == 0
            && gc.loose == 0
        &&& (stage is FanoutOpening || stage is AuthorityOpening) ==> gc.loose == 0
        &&& (stage is LooseSeeing || stage is LooseUnlinking || stage is LooseSyncing)
            ==> gc.loose_plan() is Some
        &&& (stage is LooseUnlinking || stage is LooseSyncing)
            ==> gc.loose_plan()->0.action is Remove
        &&& stage is LooseSyncing ==> self.unlinked.contains((gc.fanout, gc.loose))
        &&& (stage is FanoutListing || stage is FanoutUnlinking || stage is ObjectsSyncing)
            ==> gc.fanout_plan() is Some && gc.loose >= gc.fanout_plan()->0.loose.len()
        &&& stage is Done ==> gc.fanout >= plan.fanouts.len()
    }
}

#[verifier::spinoff_prover]
proof fn lemma_loose_accounts(
    collection: LooseCollection,
    event: LooseGcEvent,
    plan: PrivateObjectView,
)
    requires
        collection.accounts(plan),
    ensures
        collection.after(event).accounts(plan),
{
}

proof fn lemma_loose_run_accounts(
    capability: CapabilityView,
    plan: PrivateObjectView,
    events: Seq<LooseGcEvent>,
)
    ensures
        LooseCollection::start(capability, plan).after_all(events).accounts(plan),
    decreases events.len(),
{
    if events.len() > 0 {
        lemma_loose_run_accounts(capability, plan, events.drop_last());
        lemma_loose_accounts(
            LooseCollection::start(capability, plan).after_all(events.drop_last()),
            events.last(),
            plan,
        );
    }
}

/// A collection of private objects that comes to its end has unlinked exactly the objects that its plan
/// says are to be removed; at no time has it unlinked another.
pub proof fn law_loose_collection_does_what_was_planned(
    capability: CapabilityView,
    plan: PrivateObjectView,
    events: Seq<LooseGcEvent>,
    fanout: int,
    loose: int,
)
    requires
        0 <= fanout < plan.fanouts.len(),
        0 <= loose < plan.fanouts[fanout].loose.len(),
    ensures
        ({
            let done = LooseCollection::start(capability, plan).after_all(events);
            &&& done.gc.stage is Done ==> (done.unlinked.contains((fanout, loose))
                <==> plan.fanouts[fanout].loose[loose].action is Remove)
            &&& done.unlinked.contains((fanout, loose)) && !(done.gc.stage is Failed)
                ==> plan.fanouts[fanout].loose[loose].action is Remove
        }),
{
    lemma_loose_run_accounts(capability, plan, events);
}

} // verus!
