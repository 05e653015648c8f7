//! What is left of a session that was removed: nothing.

use crate::authority::Identity;
use crate::bytes::views;
use crate::burial::{BurialAction, BurialEvent, BurialView};
use crate::record_txn::RenameEvent;
use crate::removal::{RemovalAction, RemovalEvent, RemovalView};
use crate::remove::{tombstone_of, RemoveAction, RemoveEvent, RemoveView};
use crate::session::{
    record_name_text, root_name_text, tombstone_name_text, CapabilityView, RecordCapability,
    SessionPayloadView, SessionView,
};
use crate::template::TemplatePayloadView;
use crate::template_gc::{CollectAction, CollectEvent, CollectView};
use crate::template_roots::NameSeen;
use vstd::prelude::*;

verus! {

/// What stands of a session in its container: its directory, under one name or the other, and its
/// record.
pub struct Remains {
    pub root: Option<Identity>,
    pub tombstone: Option<Identity>,
    pub record: bool,
}

/// What was seen under a name is what stands there.
pub open spec fn is_seen(seen: NameSeen, stands: Option<Identity>) -> bool {
    match seen {
        NameSeen::Found(identity) => stands == Some(identity),
        NameSeen::Absent => stands is None,
        NameSeen::Failed(_) => true,
    }
}

pub open spec fn is_node(stands: Option<Identity>, expected: Identity) -> bool {
    stands matches Some(identity) && identity.is_same_node(expected)
}

/// A burial, and what stands of its session.
pub struct Grave {
    pub burial: BurialView,
    pub remains: Remains,
}

impl Grave {
    pub open spec fn is_answered(self, event: BurialEvent) -> bool {
        match event {
            BurialEvent::Located { root, tombstone, .. } => is_seen(root, self.remains.root)
                && is_seen(tombstone, self.remains.tombstone),
            BurialEvent::Names { root, tombstone } => is_seen(root, self.remains.root) && is_seen(
                tombstone,
                self.remains.tombstone,
            ),
            BurialEvent::Name(seen) => is_seen(seen, self.remains.tombstone),
            _ => true,
        }
    }

    /// What was asked for is done where it is answered so.
    pub open spec fn after(self, event: BurialEvent, uid: u32) -> Grave {
        Grave {
            burial: self.burial.after(event, uid),
            remains: match (self.burial.asks(), event) {
                (BurialAction::Rename, BurialEvent::Renamed(RenameEvent::Done)) => Remains {
                    root: None,
                    tombstone: self.remains.root,
                    ..self.remains
                },
                (BurialAction::RemoveTree, BurialEvent::Removed(Ok(_))) => Remains {
                    tombstone: None,
                    ..self.remains
                },
                (BurialAction::RemoveRecord, BurialEvent::Removed(Ok(_))) => Remains {
                    record: false,
                    ..self.remains
                },
                _ => self.remains,
            },
        }
    }

    pub open spec fn after_all(self, events: Seq<BurialEvent>, uid: u32) -> Grave
        decreases events.len(),
    {
        if events.len() == 0 {
            self
        } else {
            self.after_all(events.drop_last(), uid).after(events.last(), uid)
        }
    }

    pub open spec fn is_answered_all(self, events: Seq<BurialEvent>, uid: u32) -> bool
        decreases events.len(),
    {
        events.len() == 0 || (self.is_answered_all(events.drop_last(), uid) && self.after_all(
            events.drop_last(),
            uid,
        ).is_answered(events.last()))
    }

    spec fn agrees(self, start: Grave) -> bool {
        let stage = self.burial.stage;
        let expected = self.burial.root_identity;
        &&& self.burial.expected == start.burial.expected
        &&& self.burial.root_name == start.burial.root_name
        &&& self.burial.tombstone_name == start.burial.tombstone_name
        &&& expected == start.burial.root_identity
        &&& stage is Renaming ==> is_node(self.remains.root, expected)
            && self.remains.tombstone is None
        &&& (stage is Syncing || stage is Checking) ==> self.remains.root is None && is_node(
            self.remains.tombstone,
            expected,
        )
        &&& (stage is RevalidatingAgain || stage is Removing) ==> self.remains.root is None
            && is_node(self.remains.tombstone, expected)
        &&& (stage is RevalidatingGone || stage is Unrecording || stage is Buried)
            ==> self.remains.root is None && self.remains.tombstone is None
        &&& stage is Buried ==> !self.remains.record
        &&& !(stage is Buried) ==> self.remains.record == start.remains.record
        &&& (start.remains.root matches Some(root) && !root.is_same_node(expected))
            ==> self.remains.root == start.remains.root
        &&& (start.remains.tombstone matches Some(found) && !found.is_same_node(expected))
            ==> self.remains.tombstone == start.remains.tombstone
    }
}

proof fn lemma_grave_agrees(grave: Grave, start: Grave, event: BurialEvent, uid: u32)
    requires
        grave.agrees(start),
        grave.is_answered(event),
    ensures
        grave.after(event, uid).agrees(start),
{
}

proof fn lemma_grave_run(start: Grave, events: Seq<BurialEvent>, uid: u32)
    requires
        start.agrees(start),
        start.is_answered_all(events, uid),
    ensures
        start.after_all(events, uid).agrees(start),
    decreases events.len(),
{
    if events.len() > 0 {
        lemma_grave_run(start, events.drop_last(), uid);
        lemma_grave_agrees(start.after_all(events.drop_last(), uid), start, events.last(), uid);
    }
}

/// A burial that succeeds leaves nothing of its session: no directory under either name, and no record.
/// Whatever happens, the record goes only with the directory, and a directory that is not the recorded
/// one is left where it stands.
pub proof fn law_buried_sessions_are_gone(
    expected: CapabilityView,
    remains: Remains,
    events: Seq<BurialEvent>,
    uid: u32,
)
    requires
        remains.record,
        (Grave { burial: BurialView::start(expected), remains }).is_answered_all(events, uid),
    ensures
        ({
            let start = Grave { burial: BurialView::start(expected), remains };
            let done = start.after_all(events, uid);
            &&& done.burial.stage is Buried ==> done.remains.root is None
                && done.remains.tombstone is None && !done.remains.record
            &&& !done.remains.record ==> done.remains.root is None && done.remains.tombstone is None
            &&& (remains.root matches Some(root) && !root.is_same_node(start.burial.root_identity))
                ==> done.remains.root == remains.root
            &&& (remains.tombstone matches Some(found) && !found.is_same_node(
                start.burial.root_identity,
            )) ==> done.remains.tombstone == remains.tombstone
            &&& done.burial.asks() == BurialAction::RemoveTree ==> is_node(
                done.remains.tombstone,
                start.burial.root_identity,
            )
        }),
        expected.record.payload matches SessionPayloadView::Tombstoned {
            root_name,
            tombstone_name,
            root_identity,
        } ==> {
            let burial = BurialView::start(expected);
            burial.root_name == root_name && burial.tombstone_name == tombstone_name
                && burial.root_identity == root_identity
        },
{
    lemma_grave_run(Grave { burial: BurialView::start(expected), remains }, events, uid);
}

/// A removal, and what stands of its session.
pub struct Leaving {
    pub remove: RemoveView,
    pub remains: Remains,
}

impl Leaving {
    pub open spec fn is_answered(self, event: RemoveEvent) -> bool {
        match event {
            RemoveEvent::Found(Ok(found)) => found is Some == self.remains.record,
            RemoveEvent::Names { root, tombstone } => is_seen(root, self.remains.root) && is_seen(
                tombstone,
                self.remains.tombstone,
            ),
            _ => true,
        }
    }

    /// What was asked for is done where it is answered so; a burial that succeeded leaves nothing.
    pub open spec fn after(self, event: RemoveEvent, force: bool, uid: u32) -> Leaving {
        Leaving {
            remove: self.remove.after(event, force, uid),
            remains: match (self.remove.asks(), event) {
                (RemoveAction::Bury, RemoveEvent::Done(Ok(_))) => Remains {
                    root: None,
                    tombstone: None,
                    record: false,
                },
                (RemoveAction::RemoveRecord, RemoveEvent::Done(Ok(_))) => Remains {
                    record: false,
                    ..self.remains
                },
                _ => self.remains,
            },
        }
    }

    pub open spec fn after_all(self, events: Seq<RemoveEvent>, force: bool, uid: u32) -> Leaving
        decreases events.len(),
    {
        if events.len() == 0 {
            self
        } else {
            self.after_all(events.drop_last(), force, uid).after(events.last(), force, uid)
        }
    }

    pub open spec fn is_answered_all(self, events: Seq<RemoveEvent>, force: bool, uid: u32) -> bool
        decreases events.len(),
    {
        events.len() == 0 || (self.is_answered_all(events.drop_last(), force, uid)
            && self.after_all(events.drop_last(), force, uid).is_answered(events.last()))
    }

    spec fn agrees(self, start: Remains) -> bool {
        let gone = self.remains.root is None && self.remains.tombstone is None;
        &&& self.remove is AbsentNames ==> !self.remains.record
        &&& (self.remove is PreparedContainer || self.remove is Unrecording) ==> gone
        &&& self.remove is Removed ==> gone && !self.remains.record
        &&& !(self.remove is Removed) ==> self.remains == start
    }
}

proof fn lemma_leaving_run(remains: Remains, events: Seq<RemoveEvent>, force: bool, uid: u32)
    requires
        (Leaving { remove: RemoveView::Finding, remains }).is_answered_all(events, force, uid),
    ensures
        (Leaving { remove: RemoveView::Finding, remains }).after_all(events, force, uid).agrees(
            remains,
        ),
    decreases events.len(),
{
    if events.len() > 0 {
        lemma_leaving_run(remains, events.drop_last(), force, uid);
    }
}

/// A removal that succeeds leaves nothing of its session: no directory under either name, and no record.
/// One that fails has removed nothing itself.
pub proof fn law_removed_sessions_are_gone(
    remains: Remains,
    events: Seq<RemoveEvent>,
    force: bool,
    uid: u32,
)
    requires
        (Leaving { remove: RemoveView::Finding, remains }).is_answered_all(events, force, uid),
    ensures
        ({
            let done = Leaving { remove: RemoveView::Finding, remains }.after_all(
                events,
                force,
                uid,
            );
            &&& done.remove is Removed ==> done.remains.root is None
                && done.remains.tombstone is None && !done.remains.record
            &&& done.remove is Failed ==> done.remains == remains
        }),
{
    lemma_leaving_run(remains, events, force, uid);
}

/// What a removal begins with: without force, only a session that is ready, or to go already, is
/// removed; one that is not complete is refused as a risk. Whatever is being published is refused.
pub proof fn law_unforced_removals_refuse_what_is_incomplete(found: RecordCapability, uid: u32)
    ensures
        ({
            let next = RemoveView::Finding.after(RemoveEvent::Found(Ok(Some(found))), false, uid);
            let payload = found@.record.payload;
            let idle = found@.record.journal is Idle;
            &&& idle && (payload is Prepared || payload is Materializing) ==> (
            next matches RemoveView::Failed(failed) && failed.0 == "SESSION_DISCARD_RISK"@)
            &&& idle && payload is Ready ==> next == RemoveView::Loading(found@)
            &&& idle && payload is Tombstoned ==> next == RemoveView::Burying(found@)
            &&& !idle ==> next is Failed
        }),
        ({
            let next = RemoveView::Finding.after(RemoveEvent::Found(Ok(Some(found))), true, uid);
            let payload = found@.record.payload;
            found@.record.journal is Idle ==> {
                &&& payload is Prepared ==> next == RemoveView::PreparedNames(found@)
                &&& payload is Materializing ==> next == RemoveView::OpeningPayload(found@)
                &&& payload is Ready ==> next == RemoveView::Loading(found@)
                &&& payload is Tombstoned ==> next == RemoveView::Burying(found@)
            }
        }),
{
}

/// The record of a session that is to go keeps all that it said, and names the directory that stands
/// and the name under which it goes.
pub proof fn law_tombstone_is_of_its_session(record: SessionView)
    ensures
        record.payload is Ready || record.payload is Materializing <==> tombstone_of(record) is Some,
        tombstone_of(record) matches Some(next) ==> {
            &&& next.version == record.version
            &&& next.sid == record.sid
            &&& next.authority_path == record.authority_path
            &&& next.authority_identity == record.authority_identity
            &&& next.name == record.name
            &&& next.base == record.base
            &&& next.target == record.target
            &&& next.expected_old == record.expected_old
            &&& next.template_key == record.template_key
            &&& next.template == record.template
            &&& next.container_identity == record.container_identity
            &&& next.volume == record.volume
            &&& next.journal == record.journal
            &&& next.payload is Tombstoned
            &&& next.payload->Tombstoned_tombstone_name == "session-"@ + record.sid + ".tombstone"@
            &&& record.payload is Ready ==> next.payload->Tombstoned_root_name
                == record.payload->Ready_root_name && next.payload->Tombstoned_root_identity
                == record.payload->Ready_root_identity
            &&& record.payload is Materializing ==> next.payload->Tombstoned_root_name
                == record.payload->Materializing_root_name
                && next.payload->Tombstoned_root_identity
                == record.payload->Materializing_root_identity
        },
{
}

/// The names of a session, written out; those of two sessions are different, and so are the three of
/// one session.
pub proof fn law_session_names_are_apart(sid: Seq<char>, other: Seq<char>)
    ensures
        root_name_text(sid) == "session-"@ + sid + ".root"@,
        tombstone_name_text(sid) == "session-"@ + sid + ".tombstone"@,
        record_name_text(sid) == "session-"@ + sid + ".record"@,
        root_name_text(sid) == root_name_text(other) ==> sid == other,
        tombstone_name_text(sid) == tombstone_name_text(other) ==> sid == other,
        record_name_text(sid) == record_name_text(other) ==> sid == other,
        sid.len() == other.len() ==> root_name_text(sid) != tombstone_name_text(other)
            && root_name_text(sid) != record_name_text(other) && tombstone_name_text(sid)
            != record_name_text(other),
{
    reveal_strlit("session-");
    reveal_strlit(".root");
    reveal_strlit(".tombstone");
    reveal_strlit(".record");
    lemma_between("session-"@, sid, other, ".root"@);
    lemma_between("session-"@, sid, other, ".tombstone"@);
    lemma_between("session-"@, sid, other, ".record"@);
    assert(root_name_text(sid).len() == 13 + sid.len());
    assert(tombstone_name_text(sid).len() == 18 + sid.len());
    assert(record_name_text(sid).len() == 15 + sid.len());
    assert(tombstone_name_text(other).len() == 18 + other.len());
    assert(record_name_text(other).len() == 15 + other.len());
}

proof fn lemma_between(front: Seq<char>, left: Seq<char>, right: Seq<char>, back: Seq<char>)
    ensures
        front + left + back == front + right + back ==> left == right,
{
    let l = front + left + back;
    let r = front + right + back;
    if l == r {
        let n = front.len() as int;
        assert(l.len() == front.len() + left.len() + back.len());
        assert(r.len() == front.len() + right.len() + back.len());
        assert(left =~= l.subrange(n, n + left.len()));
        assert(right =~= r.subrange(n, n + right.len()));
    }
}

/// The collection of a template, what stands of the template, and whether a session uses it.
pub struct Collecting {
    pub collect: CollectView,
    pub remains: Remains,
    pub used: bool,
}

impl Collecting {
    pub open spec fn is_answered(self, event: CollectEvent) -> bool {
        match event {
            CollectEvent::Used(Ok(used)) => used == self.used,
            CollectEvent::Names(own, tombstone) => (own matches Ok(own) ==> own
                == self.remains.root) && (tombstone matches Ok(tombstone) ==> tombstone
                == self.remains.tombstone),
            CollectEvent::Name(Ok(seen)) => seen == self.remains.tombstone,
            _ => true,
        }
    }

    pub open spec fn after(self, event: CollectEvent, root: Identity, uid: u32) -> Collecting {
        Collecting {
            collect: self.collect.after(event, root, uid),
            remains: match (self.collect.asks(), event) {
                (CollectAction::RenameRoot, CollectEvent::Renamed(RenameEvent::Done)) => Remains {
                    root: None,
                    tombstone: self.remains.root,
                    ..self.remains
                },
                (CollectAction::RemoveTree, CollectEvent::Done(Ok(_))) => Remains {
                    tombstone: None,
                    ..self.remains
                },
                (CollectAction::RemoveRecord, CollectEvent::Done(Ok(_))) => Remains {
                    record: false,
                    ..self.remains
                },
                _ => self.remains,
            },
            ..self
        }
    }

    pub open spec fn after_all(self, events: Seq<CollectEvent>, root: Identity, uid: u32) -> Collecting
        decreases events.len(),
    {
        if events.len() == 0 {
            self
        } else {
            self.after_all(events.drop_last(), root, uid).after(events.last(), root, uid)
        }
    }

    pub open spec fn is_answered_all(
        self,
        events: Seq<CollectEvent>,
        root: Identity,
        uid: u32,
    ) -> bool
        decreases events.len(),
    {
        events.len() == 0 || (self.is_answered_all(events.drop_last(), root, uid)
            && self.after_all(events.drop_last(), root, uid).is_answered(events.last()))
    }

    spec fn agrees(self, start: Collecting, root: Identity) -> bool {
        let gone = self.remains.root is None && self.remains.tombstone is None;
        let passed_use = match self.collect {
            CollectView::Burying => true,
            CollectView::NamesSeeing(counts)
            | CollectView::SealedChecking(counts)
            | CollectView::TombstoneChecking(counts)
            | CollectView::Leasing(counts)
            | CollectView::Revalidating(counts) => !counts,
            CollectView::PromoteSeeing
            | CollectView::Renaming
            | CollectView::ParentSyncing
            | CollectView::PromotedSeeing
            | CollectView::RevalidatingAgain
            | CollectView::TreeRemoving
            | CollectView::RecordRemoving => true,
            CollectView::Ended(removed) => removed,
            _ => false,
        };
        &&& self.used == start.used
        &&& passed_use ==> !self.used
        &&& self.used ==> self.remains == start.remains
        &&& self.collect is Renaming ==> self.remains.root == Some(root)
            && self.remains.tombstone is None
        &&& (self.collect is ParentSyncing || self.collect is PromotedSeeing
            || self.collect is RevalidatingAgain || self.collect is TreeRemoving)
            ==> self.remains.root is None
        &&& (self.collect is RecordRemoving || self.collect is GoneCounting) ==> gone
        &&& self.collect == CollectView::Ended(true) ==> gone && !self.remains.record
        &&& self.collect == CollectView::Ended(false) ==> self.used
        &&& self.collect != CollectView::Ended(true) ==> self.remains.record
            == start.remains.record
    }
}

proof fn lemma_collecting_agrees(
    collecting: Collecting,
    start: Collecting,
    event: CollectEvent,
    root: Identity,
    uid: u32,
)
    requires
        collecting.agrees(start, root),
        collecting.is_answered(event),
    ensures
        collecting.after(event, root, uid).agrees(start, root),
{
}

proof fn lemma_collecting_run(
    start: Collecting,
    events: Seq<CollectEvent>,
    root: Identity,
    uid: u32,
)
    requires
        start.agrees(start, root),
        start.is_answered_all(events, root, uid),
    ensures
        start.after_all(events, root, uid).agrees(start, root),
    decreases events.len(),
{
    if events.len() > 0 {
        lemma_collecting_run(start, events.drop_last(), root, uid);
        lemma_collecting_agrees(
            start.after_all(events.drop_last(), root, uid),
            start,
            events.last(),
            root,
            uid,
        );
    }
}

/// A template that a session uses stays as it is, record and directory, however its collection goes;
/// one that is said to have been removed is gone, under both of its names and with its record; and one
/// that is said to stay is used.
pub proof fn law_collected_templates_are_gone(
    payload: TemplatePayloadView,
    remains: Remains,
    used: bool,
    events: Seq<CollectEvent>,
    root: Identity,
    uid: u32,
)
    requires
        remains.record,
        (Collecting {
            collect: CollectView::starting(payload),
            remains,
            used,
        }).is_answered_all(events, root, uid),
    ensures
        ({
            let done = Collecting {
                collect: CollectView::starting(payload),
                remains,
                used,
            }.after_all(events, root, uid);
            &&& used ==> done.remains == remains && done.collect != CollectView::Ended(true)
            &&& done.collect == CollectView::Ended(true) ==> done.remains.root is None
                && done.remains.tombstone is None && !done.remains.record
            &&& done.collect == CollectView::Ended(false) ==> used
            &&& done.collect is Failed ==> done.remains.record
        }),
{
    lemma_collecting_run(
        Collecting { collect: CollectView::starting(payload), remains, used },
        events,
        root,
        uid,
    );
}

/// A READY template that no session uses, and that nothing is amiss with, is removed: each of these
/// answers is asked for in turn, and the last one ends its collection.
pub proof fn law_unused_templates_are_removed(root: Identity, uid: u32)
    ensures
        ({
            let done = CollectEvent::Done(Ok(()));
            let leased = CollectView::ReadyChecking.after(done, root, uid).after(done, root, uid);
            let counted = leased.after(done, root, uid).after(
                CollectEvent::Used(Ok(false)),
                root,
                uid,
            );
            let seen = counted.after(done, root, uid).after(
                CollectEvent::Names(Ok(Some(root)), Ok(None)),
                root,
                uid,
            );
            let promoting = seen.after(done, root, uid).after(done, root, uid).after(
                done,
                root,
                uid,
            );
            let renamed = promoting.after(
                CollectEvent::Names(Ok(Some(root)), Ok(None)),
                root,
                uid,
            ).after(CollectEvent::Renamed(RenameEvent::Done), root, uid);
            let checked = renamed.after(CollectEvent::Synced(Ok(())), root, uid).after(
                CollectEvent::Name(Ok(Some(root))),
                root,
                uid,
            );
            let removing = checked.after(done, root, uid);
            &&& leased.asks() == CollectAction::Revalidate
            &&& counted.asks() == CollectAction::BuryRecord
            &&& seen.asks() == CollectAction::CheckSealedRoot
            &&& promoting.asks() == CollectAction::SeeNames
            &&& renamed.asks() == CollectAction::SyncParent
            &&& removing.asks() == CollectAction::RemoveTree
            &&& removing.after(done, root, uid).asks() == CollectAction::RemoveRecord
            &&& removing.after(done, root, uid).after(done, root, uid) == CollectView::Ended(true)
        }),
{
}

/// Removing a tree passes over nothing: it goes on to another name of a directory only behind an entry
/// that was unlinked or a child that was removed, leaves a directory only behind its last name, and ends
/// only once the root itself was removed.
pub proof fn law_removal_passes_over_nothing(removal: RemovalView, event: RemovalEvent)
    requires
        removal.sound(),
    ensures
        ({
            let next = removal.after(event);
            &&& next.levels.len() == removal.levels.len() && next.levels.len() > 0
                && next.level().next != removal.level().next && !(removal.stage is Unsealing)
                ==> next.level().next == removal.level().next + 1 && next.level().names
                == removal.level().names && (removal.asks() == RemovalAction::UnlinkEntry
                || removal.asks() == RemovalAction::RemoveChild) && (
            event matches RemovalEvent::Done(Ok(_)))
            &&& next.levels.len() > removal.levels.len() ==> next.levels.len()
                == removal.levels.len() + 1 && next.level().next == 0 && (
            event matches RemovalEvent::Directory(_, Ok(names)) && next.level().names == views(
                names@,
            ))
            &&& next.stage is DirectorySyncing && !(removal.stage is DirectorySyncing)
                ==> next.level().next >= next.level().names.len()
            &&& next.levels.len() < removal.levels.len() ==> removal.asks()
                == RemovalAction::SyncDirectory
            &&& next.stage is Removed && !(removal.stage is Removed) ==> removal.stage
                is ParentSyncing
            &&& next.stage is ParentSyncing && !(removal.stage is ParentSyncing) ==> removal.asks()
                == RemovalAction::RemoveRoot && (event matches RemovalEvent::Done(Ok(_)))
            &&& next.stage is RootSeeingAgain && !(removal.stage is RootSeeingAgain)
                ==> removal.asks() == RemovalAction::SyncDirectory && next.levels.len() == 0
        }),
{
}

} // verus!
