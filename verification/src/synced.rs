//! What it takes for a tree to be written through, and what is known of a session that may be discarded.

use crate::authority::{DIRECTORY_TYPE, REGULAR_TYPE};
use crate::bytes::{split_at_each, utf8, views};
use crate::discard::{
    last_index, ref_failure, refs_failure, store_entries_failure, DiscardSeen, StoreSeen,
};
use crate::manifest::nonempty;
use crate::notation::unhex;
use crate::session::SessionView;
use crate::sync::{
    law_directories_follow_their_entries, SyncAction, SyncEvent, SyncLevelView, SyncStageView,
    TreeSyncView,
};
use vstd::prelude::*;

verus! {

/// How often each thing was done while a tree was written through.
pub struct Tally {
    /// Directories that were listed, and the names in all of them.
    pub listed: int,
    pub names: int,
    /// Names that were looked at, and those of directories and of files among them.
    pub seen: int,
    pub directories: int,
    pub files: int,
    /// Directories and files that were written through.
    pub synced_directories: int,
    pub synced_files: int,
}

impl Tally {
    pub open spec fn none() -> Tally {
        Tally {
            listed: 0,
            names: 0,
            seen: 0,
            directories: 0,
            files: 0,
            synced_directories: 0,
            synced_files: 0,
        }
    }

    pub open spec fn after(self, action: SyncAction, event: SyncEvent) -> Tally {
        match (action, event) {
            (SyncAction::List, SyncEvent::Names(Ok(names))) => Tally {
                listed: self.listed + 1,
                names: self.names + names@.len(),
                ..self
            },
            (SyncAction::Stat, SyncEvent::Identity(Ok(entry))) => Tally {
                seen: self.seen + 1,
                directories: if entry.kind == DIRECTORY_TYPE {
                    self.directories + 1
                } else {
                    self.directories
                },
                files: if entry.kind == REGULAR_TYPE {
                    self.files + 1
                } else {
                    self.files
                },
                ..self
            },
            (SyncAction::SyncFile, SyncEvent::Synced(Ok(_))) => Tally {
                synced_files: self.synced_files + 1,
                ..self
            },
            (SyncAction::SyncDirectory, SyncEvent::Synced(Ok(_))) => Tally {
                synced_directories: self.synced_directories + 1,
                ..self
            },
            _ => self,
        }
    }
}

/// The names that are still to be looked at. A name that was entered was looked at already.
spec fn unseen(levels: Seq<SyncLevelView>, entered: bool) -> int
    decreases levels.len(),
{
    if levels.len() == 0 {
        0
    } else {
        let level = levels.last();
        level.names.len() - level.next - (if entered {
            1int
        } else {
            0int
        }) + unseen(levels.drop_last(), true)
    }
}

/// A tree that is being written through.
pub struct SyncRun {
    pub sync: TreeSyncView,
    pub tally: Tally,
}

impl SyncRun {
    pub open spec fn start() -> SyncRun {
        SyncRun {
            sync: TreeSyncView { levels: Seq::empty(), stage: SyncStageView::Listing },
            tally: Tally::none(),
        }
    }

    pub open spec fn after(self, event: SyncEvent) -> SyncRun {
        SyncRun {
            sync: self.sync.after(event),
            tally: self.tally.after(self.sync.asks(), event),
        }
    }

    pub open spec fn after_all(self, events: Seq<SyncEvent>) -> SyncRun
        decreases events.len(),
    {
        if events.len() == 0 {
            self
        } else {
            self.after_all(events.drop_last()).after(events.last())
        }
    }

    spec fn accounts(self) -> bool {
        let stage = self.sync.stage;
        let tally = self.tally;
        let entered = !(stage is Seeing || stage is SyncingDirectory);
        stage is Failed || {
            &&& self.sync.is_sound()
            &&& tally.names - tally.seen == unseen(self.sync.levels, entered)
            &&& tally.listed - tally.synced_directories == self.sync.levels.len()
            &&& tally.files - tally.synced_files == if stage is OpeningFile || stage is SyncingFile {
                1int
            } else {
                0
            }
            &&& tally.directories + 1 - tally.listed == if stage is OpeningDirectory
                || stage is Listing {
                1int
            } else {
                0
            }
        }
    }
}

proof fn lemma_go_on_accounts(sync: TreeSyncView)
    requires
        sync.levels.len() > 0,
        sync.go_on().stage !is Failed,
        0 <= sync.levels.last().next <= sync.levels.last().names.len(),
    ensures
        sync.go_on().levels == sync.levels,
        sync.go_on().stage is Seeing || sync.go_on().stage is SyncingDirectory,
{
}

proof fn lemma_advance_accounts(sync: TreeSyncView)
    requires
        forall|i: int|
            0 <= i < sync.levels.len() ==> 0 <= (#[trigger] sync.levels[i]).next
                < sync.levels[i].names.len(),
        sync.advance().stage !is Failed,
    ensures
        sync.advance().levels.len() == sync.levels.len(),
        sync.levels.len() > 0 ==> unseen(sync.advance().levels, false) == unseen(sync.levels, true) && (
        sync.advance().stage is Seeing || sync.advance().stage is SyncingDirectory),
        sync.levels.len() == 0 ==> sync.advance().stage is Synced && sync.advance().levels
            == sync.levels,
{
    if sync.levels.len() > 0 {
        let level = sync.levels.last();
        let moved = sync.levels.drop_last().push(
            SyncLevelView {
                next: if level.next < level.names.len() {
                    level.next + 1
                } else {
                    level.next
                },
                ..level
            },
        );
        assert(moved.drop_last() =~= sync.levels.drop_last());
        assert(sync.levels.last() == sync.levels[sync.levels.len() - 1]);
        assert(sync.advance().levels == moved);
    }
}

proof fn lemma_sync_step(run: SyncRun, event: SyncEvent)
    requires
        run.accounts(),
    ensures
        run.after(event).accounts(),
{
    let sync = run.sync;
    let next = run.after(event);
    if sync.stage !is Failed && next.sync.stage !is Failed {
        law_directories_follow_their_entries(sync, event);
        match (sync.stage, event) {
            (SyncStageView::Listing, SyncEvent::Names(Ok(names))) => {
                let level = SyncLevelView { names: views(names@), next: 0 };
                let pushed = sync.levels.push(level);
                assert(pushed.drop_last() =~= sync.levels);
                lemma_go_on_accounts(TreeSyncView { levels: pushed, ..sync });
                assert(next.sync.levels == pushed);
                assert(unseen(pushed, false) == names@.len() + unseen(sync.levels, true));
            },
            (SyncStageView::Seeing, SyncEvent::Identity(Ok(entry))) => {
                assert(unseen(sync.levels, true) == unseen(sync.levels, false) - 1);
                if entry.kind != DIRECTORY_TYPE && entry.kind != REGULAR_TYPE {
                    lemma_levels_have_names(sync);
                    lemma_advance_accounts(sync);
                }
            },
            (SyncStageView::SyncingFile, SyncEvent::Synced(Ok(_))) => {
                lemma_levels_have_names(sync);
                lemma_advance_accounts(sync);
            },
            (SyncStageView::SyncingDirectory, SyncEvent::Synced(Ok(_))) => {
                let upper = TreeSyncView { levels: sync.levels.drop_last(), ..sync };
                assert forall|i: int| 0 <= i < upper.levels.len() implies 0 <= (
                #[trigger] upper.levels[i]).next < upper.levels[i].names.len() by {
                    assert(upper.levels[i] == sync.levels[i]);
                }
                lemma_advance_accounts(upper);
                assert(unseen(sync.levels, false) == unseen(upper.levels, true));
            },
            _ => {},
        }
    }
}

proof fn lemma_levels_have_names(sync: TreeSyncView)
    requires
        sync.is_sound(),
        sync.name() is Some,
    ensures
        forall|i: int|
            0 <= i < sync.levels.len() ==> 0 <= (#[trigger] sync.levels[i]).next
                < sync.levels[i].names.len(),
{
    assert(sync.levels.last() == sync.levels[sync.levels.len() - 1]);
}

proof fn lemma_sync_run(events: Seq<SyncEvent>)
    ensures
        SyncRun::start().after_all(events).accounts(),
    decreases events.len(),
{
    if events.len() > 0 {
        lemma_sync_run(events.drop_last());
        lemma_sync_step(SyncRun::start().after_all(events.drop_last()), events.last());
    }
}

/// A tree that is written through was written through whole: every name that was listed was looked at,
/// every directory that was seen was listed, and every directory and every file was written through.
pub proof fn law_trees_are_written_through_whole(events: Seq<SyncEvent>)
    ensures
        ({
            let done = SyncRun::start().after_all(events);
            done.sync.stage is Synced ==> {
                &&& done.tally.seen == done.tally.names
                &&& done.tally.listed == done.tally.directories + 1
                &&& done.tally.synced_directories == done.tally.listed
                &&& done.tally.synced_files == done.tally.files
            }
        }),
{
    lemma_sync_run(events);
}

proof fn lemma_last_index(bytes: Seq<u8>, byte: u8)
    ensures
        -1 <= last_index(bytes, byte) < bytes.len(),
        last_index(bytes, byte) >= 0 ==> bytes[last_index(bytes, byte)] == byte,
    decreases bytes.len(),
{
    if bytes.len() > 0 {
        lemma_last_index(bytes.drop_last(), byte);
    }
}

/// The one reference of a session that is as it began: its branch, at the commit that it began from.
pub open spec fn is_untouched_reference(line: Seq<u8>, record: SessionView) -> bool {
    line == utf8("refs/heads/"@) + unhex(utf8(record.target)) + seq![32u8] + utf8(record.base)
}

/// An entry among the objects of a session that has none of its own.
pub open spec fn is_bare_entry(name: Seq<u8>, store: StoreSeen) -> bool {
    ||| name == utf8("info"@) && (store.info matches Ok(names) && forall|i: int|
        0 <= i < names@.len() ==> (#[trigger] names@[i])@ == utf8("alternates"@))
    ||| name == utf8("pack"@) && (store.pack matches Ok(names) && names@.len() == 0)
}

proof fn lemma_store_entries(store: StoreSeen, names: Seq<Seq<u8>>, at: int)
    requires
        store_entries_failure(names, store.info, store.pack) is None,
        0 <= at < names.len(),
    ensures
        is_bare_entry(names[at], store),
    decreases names.len(),
{
    if at < names.len() - 1 {
        assert(names.drop_last()[at] == names[at]);
        lemma_store_entries(store, names.drop_last(), at);
    } else if names[at] == utf8("info"@) {
        let inner = store.info->Ok_0@;
        assert forall|i: int| 0 <= i < inner.len() implies (#[trigger] inner[i])@ == utf8(
            "alternates"@,
        ) by {
            assert(views(inner)[i] == inner[i]@);
        }
    }
}

/// A session that may be discarded without force holds nothing of its own. Git says nothing of its
/// worktree, not even of what it ignores; its one reference is its branch at the commit that it began
/// from; its repository holds neither loose objects nor packs; and Git finds no object there that
/// nothing leads to, and complains of nothing but the branch that the repository was made with.
pub proof fn law_discarded_sessions_hold_nothing(seen: DiscardSeen, record: SessionView, at: int)
    requires
        seen.discard_failure(record) is None,
    ensures
        seen.status matches Ok(output) && output.status.succeeded() && output.stdout@.len() == 0
            && output.stderr@.len() == 0,
        seen.refs.listing matches Ok(output) && output.status.succeeded() && nonempty(
            split_at_each(output.stdout@, 10),
        ).len() == 1 && is_untouched_reference(nonempty(split_at_each(output.stdout@, 10))[0], record),
        seen.refs.objects matches Ok(objects) && (seen.refs.common matches Ok(common) && objects.dev
            == common.dev),
        seen.store.names matches Ok(names) && (0 <= at < names@.len() ==> is_bare_entry(
            names@[at]@,
            seen.store,
        )),
        seen.closure.fsck matches Ok(output) && output.status.succeeded() && output.stdout@.len() == 0
            && (output.stderr@.len() == 0 || (seen.closure.head matches Ok(head) && exists|name: Seq<u8>|
            head@ == #[trigger] (utf8("ref: refs/heads/"@) + name).push(10) && name != unhex(
                utf8(record.target),
            ) && output.stderr@ == utf8("notice: HEAD points to an unborn branch ("@) + name + utf8(
                ")"@,
            ).push(10))),
{
    let lines = nonempty(split_at_each(seen.refs.listing->Ok_0.stdout@, 10));
    assert(lines.last() == lines[0]);
    assert(refs_failure(lines.drop_last(), record) is None);
    assert(ref_failure(lines[0], record) is None);
    lemma_last_index(lines[0], 32);
    let place = last_index(lines[0], 32);
    assert(lines[0] =~= lines[0].take(place) + seq![32u8] + lines[0].skip(place + 1));
    let names = seen.store.names->Ok_0@;
    if 0 <= at < names.len() {
        assert(views(names)[at] == names[at]@);
        lemma_store_entries(seen.store, views(names), at);
    }
    if seen.closure.fsck->Ok_0.stderr@.len() > 0 {
        let head = seen.closure.head->Ok_0@;
        let front = utf8("ref: refs/heads/"@);
        let rest = head.skip(front.len() as int);
        let name = rest.subrange(0, rest.len() - 1);
        assert(head.subrange(0, front.len() as int) =~= front);
        assert(rest.subrange(rest.len() - 1, rest.len() as int)[0] == 10);
        assert(head =~= (front + name).push(10));
        assert(utf8("notice: HEAD points to an unborn branch ("@) + name + utf8(")"@).push(10)
            =~= (utf8("notice: HEAD points to an unborn branch ("@) + name + utf8(")"@)).push(10));
    }
}

} // verus!
