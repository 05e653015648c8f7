//! What a successful clone and a successful probe have done: every file that had to be seen was seen as
//! expected, and nothing is left of a probe.

use crate::authority::Identity;
use crate::bytes::utf8;
use crate::cow::{
    CloneCall, FileCloneAction, FileCloneEvent, FileCloneView, PlanView, TreeCloneAction,
    TreeCloneEvent, TreeCloneView,
};
use crate::probing::{
    CleaningAction, CleaningEvent, CleaningStage, CleanupView, CowAction, CowEvent, CowProbeView,
    NameAction, NameEvent, NameView, SecondName,
};
use vstd::prelude::*;

verus! {

/// What the answers to the cloning of a file have told.
pub struct FileDesk {
    /// The destination, while there is one.
    pub destination: Option<Identity>,
    /// The source was seen under its descriptor and its name as it was expected.
    pub source_seen: bool,
    /// The data was shared after the source was seen.
    pub shared: bool,
    /// Evidence of the sharing was found after the data was shared.
    pub proven: bool,
    /// The destination was seen under its descriptor and its name as one file, or as the one made.
    pub bound: bool,
    /// The destination was taken away again, and its parent synced behind that.
    pub unlinked: bool,
    pub synced: bool,
}

impl FileDesk {
    pub open spec fn bare() -> FileDesk {
        FileDesk {
            destination: None,
            source_seen: false,
            shared: false,
            proven: false,
            bound: false,
            unlinked: false,
            synced: false,
        }
    }

    pub open spec fn after(
        self,
        action: FileCloneAction,
        event: FileCloneEvent,
        expected_source: Identity,
    ) -> FileDesk {
        match (action, event) {
            (FileCloneAction::MakeDestination, FileCloneEvent::Identity(Ok(made))) => FileDesk {
                destination: Some(made),
                ..self
            },
            (FileCloneAction::StatSource, FileCloneEvent::Pair(Ok(file), Ok(name))) => FileDesk {
                source_seen: file == expected_source && name == expected_source,
                ..self
            },
            (FileCloneAction::ShareData, FileCloneEvent::Done(Ok(_))) => FileDesk {
                shared: self.source_seen,
                ..self
            },
            (FileCloneAction::CompareExtents, FileCloneEvent::Shared(Ok(shared))) => FileDesk {
                proven: shared && self.shared,
                ..self
            },
            (FileCloneAction::StatDestination, FileCloneEvent::Pair(Ok(file), Ok(name))) => FileDesk {
                bound: file == name,
                ..self
            },
            (FileCloneAction::CloneFile, FileCloneEvent::Done(Ok(_))) => FileDesk {
                shared: true,
                ..self
            },
            (FileCloneAction::StatCloneName, FileCloneEvent::Identity(Ok(seen))) => FileDesk {
                destination: Some(seen),
                ..self
            },
            (
                FileCloneAction::StatAll,
                FileCloneEvent::Four(
                    Ok(source_file),
                    Ok(source_name),
                    Ok(destination_file),
                    Ok(destination_name),
                ),
            ) => FileDesk {
                source_seen: source_file == expected_source && source_name == expected_source,
                bound: self.destination == Some(destination_file) && self.destination == Some(
                    destination_name,
                ),
                ..self
            },
            (FileCloneAction::UnlinkDestination, FileCloneEvent::Done(Ok(_))) => FileDesk {
                unlinked: true,
                ..self
            },
            (FileCloneAction::SyncParent, FileCloneEvent::Done(Ok(_))) => FileDesk {
                synced: self.unlinked,
                ..self
            },
            _ => self,
        }
    }
}

/// A file that is being cloned.
pub struct FileRun {
    pub clone: FileCloneView,
    pub desk: FileDesk,
}

impl FileRun {
    pub open spec fn start(call: CloneCall) -> FileRun {
        FileRun { clone: FileCloneView::starting(call), desk: FileDesk::bare() }
    }

    pub open spec fn after(self, event: FileCloneEvent, expected_source: Identity, uid: u32) -> FileRun {
        FileRun {
            clone: self.clone.after(event, expected_source, uid),
            desk: self.desk.after(self.clone.asks(), event, expected_source),
        }
    }

    pub open spec fn after_all(
        self,
        events: Seq<FileCloneEvent>,
        expected_source: Identity,
        uid: u32,
    ) -> FileRun
        decreases events.len(),
    {
        if events.len() == 0 {
            self
        } else {
            self.after_all(events.drop_last(), expected_source, uid).after(
                events.last(),
                expected_source,
                uid,
            )
        }
    }

    spec fn accounts(self, call: CloneCall) -> bool {
        let desk = self.desk;
        match (call, self.clone) {
            (CloneCall::Ficlone, FileCloneView::Making) => desk == FileDesk::bare(),
            (CloneCall::Ficlone, FileCloneView::SourceSeeing(made)) => desk.destination == Some(made),
            (CloneCall::Ficlone, FileCloneView::Cloning(made)) => desk.destination == Some(made)
                && desk.source_seen,
            (CloneCall::Ficlone, FileCloneView::Proving(made)) => desk.destination == Some(made)
                && desk.source_seen && desk.shared,
            (CloneCall::Ficlone, FileCloneView::DestinationSeeing(made)) => desk.destination
                == Some(made) && desk.source_seen && desk.shared && desk.proven,
            (CloneCall::Clonefileat, FileCloneView::CloneMaking) => desk == FileDesk::bare(),
            (CloneCall::Clonefileat, FileCloneView::CloneSeeing) => desk.shared,
            (CloneCall::Clonefileat, FileCloneView::CloneOpening(seen))
            | (CloneCall::Clonefileat, FileCloneView::AllSeeing(seen)) => desk.shared
                && desk.destination == Some(seen),
            (_, FileCloneView::Checking(made_by, made, _)) => made_by == call && desk.destination
                == Some(made),
            (_, FileCloneView::Unlinking(_)) => true,
            (_, FileCloneView::Syncing(_)) => desk.unlinked,
            (_, FileCloneView::Cloned) => desk.destination is Some && desk.source_seen && desk.shared
                && desk.bound && (call == CloneCall::Ficlone ==> desk.proven),
            (_, FileCloneView::Failed(_)) => true,
            _ => false,
        }
    }
}

proof fn lemma_file_step(
    run: FileRun,
    event: FileCloneEvent,
    call: CloneCall,
    expected_source: Identity,
    uid: u32,
)
    requires
        run.accounts(call),
    ensures
        run.after(event, expected_source, uid).accounts(call),
{
}

proof fn lemma_file_run(
    events: Seq<FileCloneEvent>,
    call: CloneCall,
    expected_source: Identity,
    uid: u32,
)
    ensures
        FileRun::start(call).after_all(events, expected_source, uid).accounts(call),
    decreases events.len(),
{
    if events.len() > 0 {
        lemma_file_run(events.drop_last(), call, expected_source, uid);
        lemma_file_step(
            FileRun::start(call).after_all(events.drop_last(), expected_source, uid),
            events.last(),
            call,
            expected_source,
            uid,
        );
    }
}

/// A file that counts as cloned was cloned: its source was the expected one, the destination was made
/// and holds the source's data, with evidence of that where the system gives none by itself, and both
/// were seen under their names.
pub proof fn law_cloned_file_shares_its_source(
    events: Seq<FileCloneEvent>,
    call: CloneCall,
    expected_source: Identity,
    uid: u32,
)
    ensures
        ({
            let done = FileRun::start(call).after_all(events, expected_source, uid);
            done.clone is Cloned ==> {
                &&& done.desk.destination is Some
                &&& done.desk.source_seen
                &&& done.desk.shared
                &&& done.desk.bound
                &&& call == CloneCall::Ficlone ==> done.desk.proven
            }
        }),
{
    lemma_file_run(events, call, expected_source, uid);
}

/// A destination that is given up is the one that was made; what was wrong is reported once it is
/// unlinked and its parent is synced.
pub proof fn law_given_up_clone_is_taken_away(
    events: Seq<FileCloneEvent>,
    event: FileCloneEvent,
    call: CloneCall,
    expected_source: Identity,
    uid: u32,
)
    ensures
        ({
            let before = FileRun::start(call).after_all(events, expected_source, uid);
            let done = before.after(event, expected_source, uid);
            &&& before.clone matches FileCloneView::Checking(_, made, _) ==> before.desk.destination
                == Some(made)
            &&& before.clone matches FileCloneView::Syncing(primary) ==> before.desk.unlinked && (
            event matches FileCloneEvent::Done(Ok(_)) ==> done.clone == FileCloneView::Failed(
                primary,
            ) && done.desk.synced)
            &&& before.clone matches FileCloneView::Checking(_, made, primary) ==> (done.clone
                matches FileCloneView::Unlinking(kept) ==> kept == primary && event
                == FileCloneEvent::Identity(Ok(made)))
            &&& before.clone matches FileCloneView::Unlinking(primary) ==> (done.clone
                matches FileCloneView::Syncing(kept) ==> kept == primary)
        }),
{
    lemma_file_run(events, call, expected_source, uid);
}

/// What the answers to the cloning of a tree have told.
pub struct TreeDesk {
    /// Source, destination and volume were seen as the plan says, and the destination as linked.
    pub planned: bool,
    /// The source was walked, with the content of the sealed tree.
    pub walked: bool,
    /// The root was given the mode of a worktree behind that.
    pub protected: bool,
    /// The root as it was seen behind that, without metadata.
    pub root: Option<Identity>,
    pub root_synced: bool,
    pub parent_synced: bool,
    /// The root was seen under its name behind both.
    pub bound: bool,
}

impl TreeDesk {
    pub open spec fn bare() -> TreeDesk {
        TreeDesk {
            planned: false,
            walked: false,
            protected: false,
            root: None,
            root_synced: false,
            parent_synced: false,
            bound: false,
        }
    }

    pub open spec fn after(
        self,
        action: TreeCloneAction,
        event: TreeCloneEvent,
        plan: PlanView,
        uid: u32,
    ) -> TreeDesk {
        match (action, event) {
            (TreeCloneAction::SeePlan, TreeCloneEvent::Seen(seen)) => TreeDesk {
                planned: {
                    &&& seen.source matches Ok(source) && source.is_same_node(plan.receipt.root)
                        && source.is_directory() && source.uid == uid && source.mode == 0o555
                    &&& seen.parent matches Ok(parent) && parent.is_same_node(plan.parent)
                        && parent.is_directory()
                    &&& seen.opened is Ok
                    &&& seen.entry matches Ok(entry) && entry.is_same_node(plan.destination)
                        && entry.is_directory()
                    &&& seen.destination matches Ok(destination) && destination.is_same_node(
                        plan.destination,
                    ) && destination.is_directory()
                    &&& seen.source_volume matches Ok(volume) && volume@ == plan.receipt.volume
                    &&& seen.destination_volume matches Ok(volume) && volume@ == plan.receipt.volume
                    &&& seen.linked matches Ok(linked) && linked
                },
                ..self
            },
            (
                TreeCloneAction::WalkSource,
                TreeCloneEvent::Walked(Ok((digest, entries)), Ok(source)),
            ) => TreeDesk {
                walked: self.planned && digest@ == plan.receipt.content_digest && entries
                    == plan.receipt.entries && source.is_same_node(plan.receipt.root),
                ..self
            },
            (TreeCloneAction::ProtectRoot, TreeCloneEvent::Moded(Ok(_))) => TreeDesk {
                protected: self.walked,
                ..self
            },
            (TreeCloneAction::SeeRoot, TreeCloneEvent::Root(Ok(root), Ok(metadata))) => TreeDesk {
                root: if metadata {
                    None
                } else {
                    Some(root)
                },
                ..self
            },
            (TreeCloneAction::SyncRoot, TreeCloneEvent::Synced(Ok(_))) => TreeDesk {
                root_synced: self.root is Some,
                ..self
            },
            (TreeCloneAction::SyncParent, TreeCloneEvent::Synced(Ok(_))) => TreeDesk {
                parent_synced: self.root_synced,
                ..self
            },
            (TreeCloneAction::StatEntry, TreeCloneEvent::Identity(Ok(entry))) => TreeDesk {
                bound: self.parent_synced && entry.is_directory() && (self.root matches Some(root)
                    && entry.is_same_node(root)),
                ..self
            },
            _ => self,
        }
    }
}

/// A tree that is being cloned.
pub struct TreeRun {
    pub clone: TreeCloneView,
    pub desk: TreeDesk,
}

impl TreeRun {
    pub open spec fn start() -> TreeRun {
        TreeRun { clone: TreeCloneView::Planning, desk: TreeDesk::bare() }
    }

    pub open spec fn after(self, event: TreeCloneEvent, plan: PlanView, uid: u32) -> TreeRun {
        TreeRun {
            clone: self.clone.after(event, plan, uid),
            desk: self.desk.after(self.clone.asks(), event, plan, uid),
        }
    }

    pub open spec fn after_all(self, events: Seq<TreeCloneEvent>, plan: PlanView, uid: u32) -> TreeRun
        decreases events.len(),
    {
        if events.len() == 0 {
            self
        } else {
            self.after_all(events.drop_last(), plan, uid).after(events.last(), plan, uid)
        }
    }

    spec fn has_root(self, root: Identity, plan: PlanView, uid: u32) -> bool {
        &&& self.desk.planned && self.desk.walked && self.desk.protected
        &&& self.desk.root == Some(root)
        &&& root.is_same_node(plan.destination)
        &&& root.is_directory() && root.uid == uid && root.mode == 0o755 && root.nlink >= 2
    }

    spec fn accounts(self, plan: PlanView, uid: u32) -> bool {
        match self.clone {
            TreeCloneView::Planning => self.desk == TreeDesk::bare(),
            TreeCloneView::Walking => self.desk.planned,
            TreeCloneView::Protecting => self.desk.planned && self.desk.walked,
            TreeCloneView::RootSeeing => self.desk.planned && self.desk.walked && self.desk.protected,
            TreeCloneView::RootSyncing(root) => self.has_root(root, plan, uid),
            TreeCloneView::ParentSyncing(root) => self.has_root(root, plan, uid)
                && self.desk.root_synced,
            TreeCloneView::Rebinding(root) => self.has_root(root, plan, uid) && self.desk.root_synced
                && self.desk.parent_synced,
            TreeCloneView::Cloned(receipt, root) => self.has_root(root, plan, uid)
                && self.desk.root_synced && self.desk.parent_synced && self.desk.bound && receipt
                == plan.receipt,
            TreeCloneView::Failed(_) => true,
        }
    }
}

proof fn lemma_tree_step(run: TreeRun, event: TreeCloneEvent, plan: PlanView, uid: u32)
    requires
        run.accounts(plan, uid),
    ensures
        run.after(event, plan, uid).accounts(plan, uid),
{
}

proof fn lemma_tree_run(events: Seq<TreeCloneEvent>, plan: PlanView, uid: u32)
    ensures
        TreeRun::start().after_all(events, plan, uid).accounts(plan, uid),
    decreases events.len(),
{
    if events.len() > 0 {
        lemma_tree_run(events.drop_last(), plan, uid);
        lemma_tree_step(
            TreeRun::start().after_all(events.drop_last(), plan, uid),
            events.last(),
            plan,
            uid,
        );
    }
}

/// A tree that counts as cloned was cloned from the sealed tree of its plan into the destination of its
/// plan: both were seen on the volume of the seal, the walk gave the content of the seal, and the root
/// was given the mode of a worktree, seen without metadata, synced together with its parent, and seen
/// again under its name. The receipt names the seal and that root.
pub proof fn law_cloned_tree_is_the_sealed_one(
    events: Seq<TreeCloneEvent>,
    plan: PlanView,
    uid: u32,
)
    ensures
        ({
            let done = TreeRun::start().after_all(events, plan, uid);
            done.clone matches TreeCloneView::Cloned(receipt, root) ==> {
                &&& receipt == plan.receipt
                &&& done.desk.planned
                &&& done.desk.walked
                &&& done.desk.protected
                &&& done.desk.root == Some(root)
                &&& root.is_same_node(plan.destination)
                &&& root.is_directory() && root.uid == uid && root.mode == 0o755
                &&& done.desk.root_synced && done.desk.parent_synced && done.desk.bound
            }
        }),
{
    lemma_tree_run(events, plan, uid);
}

/// What stands in the directory of a probe.
pub struct Bench {
    pub source: bool,
    pub destination: bool,
    /// The directory was synced since its files last changed.
    pub synced: bool,
}

impl Bench {
    pub open spec fn bare() -> Bench {
        Bench { source: false, destination: false, synced: false }
    }

    pub open spec fn cleaned(self, action: CleaningAction, event: CleaningEvent) -> Bench {
        match (action, event) {
            (CleaningAction::UnlinkDestination, CleaningEvent::Unlinked(Ok(_))) => Bench {
                destination: false,
                synced: false,
                ..self
            },
            (CleaningAction::UnlinkSource, CleaningEvent::Unlinked(Ok(_))) => Bench {
                source: false,
                synced: false,
                ..self
            },
            (CleaningAction::SyncParent, CleaningEvent::Synced(Ok(_))) => Bench {
                synced: true,
                ..self
            },
            _ => self,
        }
    }

    /// What a cleanup that has not failed has done so far.
    spec fn is_being_cleaned(self, cleanup: CleanupView) -> bool {
        match cleanup.stage {
            CleaningStage::DestinationSeeing(_) | CleaningStage::DestinationUnlinking => {
                self.source ==> cleanup.source is Some
            },
            CleaningStage::SourceSeeing(_) | CleaningStage::SourceUnlinking => {
                cleanup.failed is None ==> !self.destination
            },
            CleaningStage::Syncing => cleanup.failed is None ==> !self.destination && !self.source,
            CleaningStage::Cleaned => cleanup.failed is None ==> !self.destination && !self.source
                && self.synced,
        }
    }
}

proof fn lemma_cleaning_step(bench: Bench, cleanup: CleanupView, event: CleaningEvent, uid: u32)
    requires
        bench.is_being_cleaned(cleanup),
    ensures
        bench.cleaned(cleanup.asks(), event).is_being_cleaned(cleanup.after(event, uid)),
{
}

/// A probe for colliding names that runs.
pub struct NameRun {
    pub probe: NameView,
    pub bench: Bench,
    /// The second name was taken when it was to be made.
    pub taken: Option<bool>,
}

impl NameRun {
    pub open spec fn start() -> NameRun {
        NameRun { probe: NameView::FirstMaking, bench: Bench::bare(), taken: None }
    }

    pub open spec fn after(self, event: NameEvent, uid: u32) -> NameRun {
        let asked = self.probe.asks();
        NameRun {
            probe: self.probe.after(event, uid),
            bench: match (asked, event) {
                (NameAction::MakeFirst, NameEvent::First(Ok(_))) => Bench {
                    source: true,
                    synced: false,
                    ..self.bench
                },
                (NameAction::MakeSecond, NameEvent::Second(SecondName::Created(Ok(_)))) => Bench {
                    destination: true,
                    synced: false,
                    ..self.bench
                },
                (NameAction::Clean(action), NameEvent::Cleaning(event)) => self.bench.cleaned(
                    action,
                    event,
                ),
                _ => self.bench,
            },
            taken: match (asked, event) {
                (NameAction::MakeSecond, NameEvent::Second(SecondName::Created(Ok(_)))) => Some(false),
                (NameAction::MakeSecond, NameEvent::Second(SecondName::Exists)) => Some(true),
                _ => self.taken,
            },
        }
    }

    pub open spec fn after_all(self, events: Seq<NameEvent>, uid: u32) -> NameRun
        decreases events.len(),
    {
        if events.len() == 0 {
            self
        } else {
            self.after_all(events.drop_last(), uid).after(events.last(), uid)
        }
    }

    spec fn accounts(self) -> bool {
        match self.probe {
            NameView::FirstMaking => self.bench == Bench::bare(),
            NameView::SecondMaking(_) => self.bench.source && !self.bench.destination,
            NameView::Cleaning(cleanup, collision, primary) => self.bench.is_being_cleaned(cleanup)
                && (primary is None ==> self.taken == Some(collision)),
            NameView::Ended(Some(collision), None) => self.taken == Some(collision)
                && !self.bench.source && !self.bench.destination && self.bench.synced,
            NameView::Ended(_, failed) => failed is Some,
        }
    }
}

proof fn lemma_name_run(events: Seq<NameEvent>, uid: u32)
    ensures
        NameRun::start().after_all(events, uid).accounts(),
    decreases events.len(),
{
    if events.len() > 0 {
        let before = NameRun::start().after_all(events.drop_last(), uid);
        lemma_name_run(events.drop_last(), uid);
        if let (NameView::Cleaning(cleanup, _, _), NameEvent::Cleaning(event)) = (
            before.probe,
            events.last(),
        ) {
            lemma_cleaning_step(before.bench, cleanup, event, uid);
        }
    }
}

/// A probe for colliding names answers whether the second name was taken once the first was made, and
/// leaves neither of them behind.
pub proof fn law_name_probe_tells_the_collision(events: Seq<NameEvent>, uid: u32)
    ensures
        ({
            let done = NameRun::start().after_all(events, uid);
            done.probe matches NameView::Ended(Some(collision), None) ==> {
                &&& done.taken == Some(collision)
                &&& !done.bench.source && !done.bench.destination && done.bench.synced
            }
        }),
{
    lemma_name_run(events, uid);
}

/// A probe for copy-on-write that runs, and what was seen of its two files.
pub struct CowRun {
    pub probe: CowProbeView,
    pub bench: Bench,
    pub written: bool,
    /// The source was protected behind its writing, and its clone made writable.
    pub protected: bool,
    pub writable: bool,
    /// The clone is a regular file of its own beside its source.
    pub apart: bool,
    /// Both files read the same before the clone was changed.
    pub same: bool,
    pub changed: bool,
    /// The source still read as it was written after its clone was changed.
    pub isolated: bool,
}

impl CowRun {
    pub open spec fn start() -> CowRun {
        CowRun {
            probe: CowProbeView::ParentSeeing,
            bench: Bench::bare(),
            written: false,
            protected: false,
            writable: false,
            apart: false,
            same: false,
            changed: false,
            isolated: false,
        }
    }

    pub open spec fn after(self, event: CowEvent, uid: u32) -> CowRun {
        let seen = CowRun { probe: self.probe.after(event, uid), ..self };
        match (self.probe.asks(), event) {
            (CowAction::MakeSource, CowEvent::Identity(Ok(_))) => CowRun {
                bench: Bench { source: true, synced: false, ..self.bench },
                ..seen
            },
            (CowAction::WriteSource, CowEvent::Written(Ok(_))) => CowRun {
                written: self.bench.source,
                ..seen
            },
            (CowAction::ProtectSource, CowEvent::Moded(Ok(_))) => CowRun {
                protected: self.written,
                ..seen
            },
            (CowAction::CloneSource, CowEvent::Identity(Ok(_))) => CowRun {
                bench: Bench { destination: true, synced: false, ..self.bench },
                ..seen
            },
            (CowAction::UnprotectDestination, CowEvent::Moded(Ok(_))) => CowRun {
                writable: self.bench.destination,
                ..seen
            },
            (CowAction::ReopenDestination, CowEvent::Identity(Ok(opened))) => CowRun {
                apart: self.probe matches CowProbeView::Reopening(source, _) && source.dev
                    == opened.dev && source.ino != opened.ino && source.is_regular()
                    && opened.is_regular(),
                ..seen
            },
            (CowAction::ReadBoth, CowEvent::Contents(Ok(original), Ok(cloned))) => CowRun {
                same: !self.changed && original@ == cloned@,
                ..seen
            },
            (CowAction::MutateDestination, CowEvent::Written(Ok(_))) => CowRun {
                changed: self.writable,
                ..seen
            },
            (CowAction::ReadSource, CowEvent::Content(Ok(bytes))) => CowRun {
                isolated: self.changed && bytes@ == utf8("g"@),
                ..seen
            },
            (CowAction::Clean(action), CowEvent::Cleaning(event)) => CowRun {
                bench: self.bench.cleaned(action, event),
                ..seen
            },
            _ => seen,
        }
    }

    pub open spec fn after_all(self, events: Seq<CowEvent>, uid: u32) -> CowRun
        decreases events.len(),
    {
        if events.len() == 0 {
            self
        } else {
            self.after_all(events.drop_last(), uid).after(events.last(), uid)
        }
    }

    spec fn is_convinced(self) -> bool {
        &&& self.written && self.protected && self.writable
        &&& self.apart && self.same && self.changed && self.isolated
    }

    spec fn accounts(self) -> bool {
        let source_only = self.bench.source && !self.bench.destination && !self.changed;
        let both = self.bench.source && self.bench.destination && self.written && self.protected;
        match self.probe {
            CowProbeView::ParentSeeing | CowProbeView::SourceMaking => self == (CowRun {
                probe: self.probe,
                ..CowRun::start()
            }),
            CowProbeView::Writing(_) => source_only,
            CowProbeView::Protecting(_) => source_only && self.written,
            CowProbeView::SourceSeeing(_) | CowProbeView::Cloning(_) => source_only && self.written
                && self.protected,
            CowProbeView::Unprotecting(_, _) => both && !self.changed,
            CowProbeView::Reopening(_, _) => both && self.writable && !self.changed,
            CowProbeView::Comparing(_, _) => both && self.writable && self.apart && !self.changed,
            CowProbeView::Mutating(_, _) => both && self.writable && self.apart && self.same,
            CowProbeView::Rereading(_, _) => both && self.writable && self.apart && self.same
                && self.changed,
            CowProbeView::Cleaning(cleanup, primary) => self.bench.is_being_cleaned(cleanup) && (
            primary is None ==> self.is_convinced()),
            CowProbeView::Ended(None) => self.is_convinced() && !self.bench.source
                && !self.bench.destination && self.bench.synced,
            CowProbeView::Ended(Some(_)) => true,
        }
    }
}

proof fn lemma_cow_run(events: Seq<CowEvent>, uid: u32)
    ensures
        CowRun::start().after_all(events, uid).accounts(),
    decreases events.len(),
{
    if events.len() > 0 {
        let before = CowRun::start().after_all(events.drop_last(), uid);
        lemma_cow_run(events.drop_last(), uid);
        if let (CowProbeView::Cleaning(cleanup, _), CowEvent::Cleaning(event)) = (
            before.probe,
            events.last(),
        ) {
            lemma_cleaning_step(before.bench, cleanup, event, uid);
        }
    }
}

/// A probe for copy-on-write succeeds only where a file that was written and protected was cloned into
/// another file that read the same, that other file was changed, and the first then still read as it
/// was written. Neither file is left behind.
pub proof fn law_cow_probe_tells_isolation(events: Seq<CowEvent>, uid: u32)
    ensures
        ({
            let done = CowRun::start().after_all(events, uid);
            done.probe == CowProbeView::Ended(None) ==> {
                &&& done.written && done.protected && done.writable
                &&& done.apart && done.same && done.changed && done.isolated
                &&& !done.bench.source && !done.bench.destination && done.bench.synced
            }
        }),
{
    lemma_cow_run(events, uid);
}

} // verus!
