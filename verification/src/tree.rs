//! The tree that a walk goes through, and what is listed of it.

use crate::authority::{DIRECTORY_TYPE, REGULAR_TYPE, SYMLINK_TYPE};
use crate::bytes::{utf8, views};
use crate::content::{content_message, counted_entries, Entry};
use crate::storage::{directory_message, session_mode_spec};
use crate::walk::{
    law_walk_hashes_what_it_lists, past_git, path_under, LevelView, Walk, WalkEvent, WalkStageView,
    WalkView,
};
use vstd::prelude::*;

verus! {

/// What stands on disk under a name.
pub enum Node {
    Regular { mode: u32, content: Seq<u8> },
    Symlink { target: Seq<u8> },
    Directory { children: Seq<Child> },
}

/// A name of a directory with what it names, in the order in which names are walked.
pub struct Child {
    pub name: Seq<u8>,
    pub node: Node,
}

pub open spec fn child_names(children: Seq<Child>) -> Seq<Seq<u8>> {
    Seq::new(children.len(), |i: int| children[i].name)
}

/// Git's own entry at the root of a worktree is no part of the tree.
pub open spec fn is_passed_over(walk: Walk, prefix: Seq<u8>, name: Seq<u8>) -> bool {
    walk == Walk::Worktree && prefix.len() == 0 && name == utf8(".git"@)
}

/// The entries of a tree in the order of a walk: a directory comes behind what it holds.
pub open spec fn listing(walk: Walk, path: Seq<u8>, node: Node) -> Seq<Entry>
    decreases node, 0int,
{
    match node {
        Node::Regular { mode, content } => seq![
            Entry::Regular { path, mode: walk.hashed_mode(mode), content },
        ],
        Node::Symlink { target } => seq![Entry::Symlink { path, target }],
        Node::Directory { children } => listing_from(walk, path, children, 0).push(
            Entry::Directory { path },
        ),
    }
}

/// The entries below a directory, from the name at `next` on.
pub open spec fn listing_from(walk: Walk, prefix: Seq<u8>, children: Seq<Child>, next: int) -> Seq<
    Entry,
>
    decreases children, children.len() - next,
{
    if next < 0 || next >= children.len() {
        Seq::empty()
    } else if is_passed_over(walk, prefix, children[next].name) {
        listing_from(walk, prefix, children, next + 1)
    } else {
        listing(walk, path_under(prefix, children[next].name), children[next].node)
            + listing_from(walk, prefix, children, next + 1)
    }
}

/// What stands under the name at hand; the root where no directory has been entered.
pub open spec fn node_at(root: Node, levels: Seq<LevelView>) -> Node
    decreases levels.len(),
{
    if levels.len() == 0 {
        root
    } else {
        match node_at(root, levels.drop_last()) {
            Node::Directory { children } => children[levels.last().next].node,
            node => node,
        }
    }
}

impl WalkView {
    /// The answer says what stands in the tree at the place of the walk.
    pub open spec fn is_told(self, root: Node, event: WalkEvent) -> bool {
        let node = node_at(root, self.levels);
        match (self.stage, event) {
            (WalkStageView::Entering(_), WalkEvent::Directory(seen)) => seen.names is Ok ==> {
                &&& node is Directory
                &&& views(seen.names->Ok_0@) == child_names(node->children)
            },
            (WalkStageView::Stating, WalkEvent::Identity(Ok(entry))) => {
                &&& entry.kind == DIRECTORY_TYPE ==> node is Directory
                &&& entry.kind == REGULAR_TYPE ==> node is Regular && node->mode == entry.mode
                &&& entry.kind == SYMLINK_TYPE ==> node is Symlink
            },
            (WalkStageView::Sizing(_), WalkEvent::Size(Ok(size))) => size == node->content.len(),
            (WalkStageView::Reading(_, _, _), WalkEvent::Content(Ok(bytes))) => {
                (self.reading + bytes@).is_prefix_of(node->content)
            },
            (WalkStageView::LinkReading, WalkEvent::Target(Ok(target))) => {
                target@ == node->target
            },
            _ => true,
        }
    }

    /// The walk after all these answers.
    pub open spec fn after_all(self, events: Seq<WalkEvent>) -> WalkView
        decreases events.len(),
    {
        if events.len() == 0 {
            self
        } else {
            self.after_all(events.drop_last()).after(events.last())
        }
    }

    /// All these answers say what stands in the tree.
    pub open spec fn is_told_all(self, root: Node, events: Seq<WalkEvent>) -> bool
        decreases events.len(),
    {
        events.len() == 0 || (self.is_told_all(root, events.drop_last()) && self.after_all(
            events.drop_last(),
        ).is_told(root, events.last()))
    }
}

/// The directories on the way down are those of the tree.
spec fn stands_in(root: Node, levels: Seq<LevelView>) -> bool
    decreases levels.len(),
{
    levels.len() == 0 || {
        let directory = node_at(root, levels.drop_last());
        &&& stands_in(root, levels.drop_last())
        &&& directory is Directory
        &&& levels.last().names == child_names(directory->children)
    }
}

/// The last directory stands at this name.
spec fn moved_to(levels: Seq<LevelView>, next: int) -> Seq<LevelView> {
    levels.drop_last().push(LevelView { next, ..levels.last() })
}

spec fn past_name(levels: Seq<LevelView>) -> Seq<LevelView> {
    if levels.len() == 0 {
        levels
    } else {
        moved_to(levels, levels.last().next + 1)
    }
}

/// What is still to be listed, from the name at hand on.
spec fn unlisted(walk: Walk, root: Node, levels: Seq<LevelView>) -> Seq<Entry>
    decreases levels.len(),
{
    if levels.len() == 0 {
        Seq::empty()
    } else {
        let level = levels.last();
        listing_from(
            walk,
            level.prefix,
            node_at(root, levels.drop_last())->children,
            level.next,
        ).push(Entry::Directory { path: level.prefix }) + unlisted(
            walk,
            root,
            past_name(levels.drop_last()),
        )
    }
}

impl WalkView {
    spec fn path_at_hand(self) -> Seq<u8> {
        if self.levels.len() == 0 {
            Seq::empty()
        } else {
            self.level().path()
        }
    }

    /// The entry at hand is a file of this mode.
    spec fn reads(self, root: Node, mode: u32) -> bool {
        let node = node_at(root, self.levels);
        node is Regular && node->mode == mode
    }

    /// The stage fits what stands at hand.
    spec fn fits_node(self, root: Node) -> bool {
        let node = node_at(root, self.levels);
        match self.stage {
            WalkStageView::DirectoryOpening(_) | WalkStageView::DestinationMaking => {
                node is Directory
            },
            WalkStageView::RegularOpening(entry) | WalkStageView::Sizing(entry) => {
                self.reads(root, entry.mode)
            },
            WalkStageView::Reading(entry, size, _) | WalkStageView::Restating(entry, size) => {
                &&& self.reads(root, entry.mode)
                &&& size == node->content.len()
                &&& self.reading.is_prefix_of(node->content)
            },
            WalkStageView::LinkInspecting | WalkStageView::LinkReading => node is Symlink,
            _ => true,
        }
    }

    /// What has been listed and what is still to be listed make up the listing of the tree.
    spec fn covers(self, root: Node) -> bool {
        let whole = listing(self.walk, Seq::empty(), root);
        match self.stage {
            WalkStageView::Failed(_) => true,
            WalkStageView::Finished => self.listed == whole,
            WalkStageView::Entering(prefix) => {
                &&& stands_in(root, self.levels)
                &&& prefix == self.path_at_hand()
                &&& self.levels.len() > 0 ==> !is_passed_over(
                    self.walk,
                    self.level().prefix,
                    self.level().name(),
                )
                &&& whole == self.listed + (listing(self.walk, prefix, node_at(root, self.levels))
                    + unlisted(self.walk, root, past_name(self.levels)))
            },
            WalkStageView::RegularCloning
            | WalkStageView::RegularSyncing
            | WalkStageView::LinkCloning(_)
            | WalkStageView::LinkSyncing
            | WalkStageView::ChildSyncing => {
                &&& stands_in(root, self.levels)
                &&& whole == self.listed + unlisted(self.walk, root, past_name(self.levels))
            },
            WalkStageView::Sealing | WalkStageView::Retaining | WalkStageView::Syncing => {
                &&& stands_in(root, self.levels)
                &&& self.level().next >= self.level().names.len()
                &&& whole == self.listed + unlisted(self.walk, root, self.levels)
            },
            _ => {
                &&& stands_in(root, self.levels)
                &&& self.fits_node(root)
                &&& !is_passed_over(self.walk, self.level().prefix, self.level().name())
                &&& whole == self.listed + unlisted(self.walk, root, self.levels)
            },
        }
    }
}

proof fn lemma_moved(root: Node, levels: Seq<LevelView>, next: int)
    requires
        levels.len() > 0,
        stands_in(root, levels),
    ensures
        moved_to(levels, next).len() == levels.len(),
        moved_to(levels, next).drop_last() == levels.drop_last(),
        moved_to(levels, next).last() == (LevelView { next, ..levels.last() }),
        stands_in(root, moved_to(levels, next)),
{
    assert(moved_to(levels, next).drop_last() =~= levels.drop_last());
}

/// Passing over Git's own entry leaves nothing out of the listing.
proof fn lemma_past_git_lists(prefix: Seq<u8>, children: Seq<Child>, next: int)
    requires
        prefix.len() == 0,
        0 <= next <= children.len(),
    ensures
        next <= past_git(child_names(children), next) <= children.len(),
        listing_from(Walk::Worktree, prefix, children, next) == listing_from(
            Walk::Worktree,
            prefix,
            children,
            past_git(child_names(children), next),
        ),
        past_git(child_names(children), next) < children.len() ==> children[past_git(
            child_names(children),
            next,
        )].name != utf8(".git"@),
    decreases children.len() - next,
{
    if next < children.len() && children[next].name == utf8(".git"@) {
        lemma_past_git_lists(prefix, children, next + 1);
    }
}

/// Going on to a name up to which everything is listed keeps a walk covering its tree.
proof fn lemma_go_on_covers(walk: WalkView, root: Node, next: int)
    requires
        walk.levels.len() > 0,
        0 <= next <= walk.level().names.len(),
        stands_in(root, walk.levels),
        listing(walk.walk, Seq::empty(), root) == walk.listed + unlisted(
            walk.walk,
            root,
            moved_to(walk.levels, next),
        ),
    ensures
        walk.go_on(next).covers(root),
{
    let level = walk.level();
    let children = node_at(root, walk.levels.drop_last())->children;
    let place = if walk.walk == Walk::Worktree && level.prefix.len() == 0 {
        past_git(level.names, next)
    } else {
        next
    };
    if walk.walk == Walk::Worktree && level.prefix.len() == 0 {
        lemma_past_git_lists(level.prefix, children, next);
    }
    lemma_moved(root, walk.levels, next);
    lemma_moved(root, walk.levels, place);
    assert(unlisted(walk.walk, root, moved_to(walk.levels, place)) == unlisted(
        walk.walk,
        root,
        moved_to(walk.levels, next),
    ));
    assert(walk.go_on(next).levels == moved_to(walk.levels, place));
}

/// What is left from the name at hand on is what stands there and what is left behind it.
proof fn lemma_unlisted(walk: Walk, root: Node, levels: Seq<LevelView>)
    requires
        levels.len() > 0,
        stands_in(root, levels),
        0 <= levels.last().next < levels.last().names.len(),
        !is_passed_over(walk, levels.last().prefix, levels.last().name()),
    ensures
        unlisted(walk, root, levels) == listing(
            walk,
            levels.last().path(),
            node_at(root, levels),
        ) + unlisted(walk, root, past_name(levels)),
{
    let level = levels.last();
    let children = node_at(root, levels.drop_last())->children;
    let rest = unlisted(walk, root, past_name(levels.drop_last()));
    let entry = Entry::Directory { path: level.prefix };
    lemma_moved(root, levels, level.next + 1);
    let here = listing(walk, level.path(), node_at(root, levels));
    let behind = listing_from(walk, level.prefix, children, level.next + 1);
    assert(level.name() == children[level.next].name);
    assert(unlisted(walk, root, levels) == (here + behind).push(entry) + rest);
    assert((here + behind).push(entry) + rest =~= here + (behind.push(entry) + rest));
}

/// An answer that is true of the tree keeps a walk covering it.
proof fn lemma_after_covers(walk: WalkView, root: Node, event: WalkEvent)
    requires
        walk.sound(),
        walk.covers(root),
        walk.is_told(root, event),
    ensures
        walk.after(event).covers(root),
{
    let after = walk.after(event);
    let node = node_at(root, walk.levels);
    let rest = unlisted(walk.walk, root, past_name(walk.levels));
    match (walk.stage, event) {
        (WalkStageView::Entering(prefix), WalkEvent::Directory(seen)) => {
            if after.stage !is Failed {
                let level = LevelView {
                    prefix,
                    dev: seen.identity->Ok_0.dev,
                    names: views(seen.names->Ok_0@),
                    next: 0,
                };
                let entered = WalkView { levels: walk.levels.push(level), ..walk };
                assert(entered.levels.drop_last() =~= walk.levels);
                assert(moved_to(entered.levels, 0) =~= entered.levels);
                assert(unlisted(walk.walk, root, entered.levels) == listing(
                    walk.walk,
                    prefix,
                    node,
                ) + rest);
                lemma_go_on_covers(entered, root, 0);
            }
        },
        (WalkStageView::DirectoryOpening(_), WalkEvent::Identity(_)) => {
            lemma_unlisted(walk.walk, root, walk.levels);
        },
        (WalkStageView::DestinationMaking, WalkEvent::Identity(_)) => {
            lemma_unlisted(walk.walk, root, walk.levels);
        },
        (WalkStageView::Restating(entry, _), WalkEvent::Restat(_, _)) => {
            if after.stage !is Failed {
                lemma_unlisted(walk.walk, root, walk.levels);
                let seen = Entry::Regular {
                    path: walk.level().path(),
                    mode: walk.walk.hashed_mode(entry.mode),
                    content: walk.reading,
                };
                assert(walk.reading =~= node->content);
                let listed = WalkView { listed: walk.listed.push(seen), ..walk };
                assert(walk.listed + (seq![seen] + rest) =~= listed.listed + rest);
                if walk.walk != Walk::Clone {
                    let counted = WalkView { entries: (walk.entries + 1) as u64, ..listed };
                    lemma_go_on_covers(counted, root, walk.level().next + 1);
                }
            }
        },
        (WalkStageView::LinkReading, WalkEvent::Target(Ok(target))) => {
            if after.stage !is Failed {
                lemma_unlisted(walk.walk, root, walk.levels);
                let seen = Entry::Symlink { path: walk.level().path(), target: target@ };
                let listed = WalkView {
                    hashed: walk.hashed + walk.chunk(event),
                    listed: walk.listed.push(seen),
                    ..walk
                };
                assert(walk.listed + (seq![seen] + rest) =~= listed.listed + rest);
                if walk.walk != Walk::Clone {
                    let counted = WalkView { entries: (walk.entries + 1) as u64, ..listed };
                    lemma_go_on_covers(counted, root, walk.level().next + 1);
                }
            }
        },
        (WalkStageView::RegularSyncing, WalkEvent::Synced(_))
        | (WalkStageView::LinkSyncing, WalkEvent::Synced(_)) => {
            if after.stage !is Failed {
                let counted = WalkView { entries: (walk.entries + 1) as u64, ..walk };
                lemma_go_on_covers(counted, root, walk.level().next + 1);
            }
        },
        (WalkStageView::ChildSyncing, WalkEvent::ChildSynced(_, _)) => {
            if after.stage !is Failed {
                lemma_go_on_covers(walk, root, walk.level().next + 1);
            }
        },
        (WalkStageView::Retaining, WalkEvent::Bound(_, _))
        | (WalkStageView::Syncing, WalkEvent::Synced(_)) => {
            if after.stage !is Failed && after.stage !is Syncing {
                lemma_leave_covers(walk, root);
            }
        },
        _ => {},
    }
}

proof fn lemma_leave_covers(walk: WalkView, root: Node)
    requires
        walk.sound(),
        walk.covers(root),
        walk.stage is Retaining || walk.stage is Syncing,
    ensures
        walk.leave().covers(root),
{
    let entry = Entry::Directory { path: walk.level().prefix };
    let outer = walk.levels.drop_last();
    let rest = unlisted(walk.walk, root, past_name(outer));
    let done = WalkView {
        listed: walk.listed.push(entry),
        hashed: walk.hashed + directory_message(walk.level().prefix),
        levels: outer,
        ..walk
    };
    assert(listing_from(
        walk.walk,
        walk.level().prefix,
        node_at(root, outer)->children,
        walk.level().next,
    ) =~= Seq::<Entry>::empty());
    assert(unlisted(walk.walk, root, walk.levels) =~= seq![entry] + rest);
    assert(walk.listed + (seq![entry] + rest) =~= done.listed + rest);
    if outer.len() > 0 {
        assert(outer.last() == walk.levels[outer.len() - 1]);
        if walk.walk != Walk::Clone {
            lemma_go_on_covers(done, root, done.level().next + 1);
        }
    } else {
        assert(done.listed + rest =~= done.listed);
    }
}

proof fn lemma_after_keeps_walk(walk: WalkView, event: WalkEvent)
    ensures
        walk.after(event).walk == walk.walk,
{
}

proof fn lemma_step_covers(walk: WalkView, root: Node, event: WalkEvent)
    requires
        walk.sound(),
        walk.covers(root),
        walk.is_told(root, event),
    ensures
        walk.after(event).sound(),
        walk.after(event).covers(root),
        walk.after(event).walk == walk.walk,
{
    law_walk_hashes_what_it_lists(walk, event);
    lemma_after_covers(walk, root, event);
    lemma_after_keeps_walk(walk, event);
}

proof fn lemma_start_covers(walk: Walk, uid: u32, root: Node)
    ensures
        WalkView::starting(walk, uid).sound(),
        WalkView::starting(walk, uid).covers(root),
{
    let start = WalkView::starting(walk, uid);
    assert(start.hashed =~= content_message(start.listed) + start.partial());
    let whole = listing(walk, Seq::empty(), root);
    assert(past_name(start.levels) == start.levels);
    assert(whole =~= start.listed + (whole + unlisted(walk, root, start.levels)));
}

proof fn lemma_run_covers(walk: Walk, uid: u32, root: Node, events: Seq<WalkEvent>)
    requires
        WalkView::starting(walk, uid).is_told_all(root, events),
    ensures
        WalkView::starting(walk, uid).after_all(events).sound(),
        WalkView::starting(walk, uid).after_all(events).covers(root),
        WalkView::starting(walk, uid).after_all(events).walk == walk,
    decreases events.len(),
{
    let start = WalkView::starting(walk, uid);
    if events.len() == 0 {
        lemma_start_covers(walk, uid, root);
    } else {
        lemma_run_covers(walk, uid, root, events.drop_last());
        let before = start.after_all(events.drop_last());
        let event = events.last();
        assert(start.after_all(events) == before.after(event));
        assert(before.is_told(root, event));
        lemma_step_covers(before, root, event);
    }
}

/// A walk that is told what stands in a tree, and comes to its end, has listed the tree whole: what it
/// hashed is the message of the tree's entries, and what it counted are the tree's files and links.
pub proof fn law_finished_walk_covers_the_tree(
    walk: Walk,
    uid: u32,
    root: Node,
    events: Seq<WalkEvent>,
)
    requires
        WalkView::starting(walk, uid).is_told_all(root, events),
        WalkView::starting(walk, uid).after_all(events).stage is Finished,
    ensures
        WalkView::starting(walk, uid).after_all(events).listed == listing(
            walk,
            Seq::empty(),
            root,
        ),
        WalkView::starting(walk, uid).after_all(events).hashed == content_message(
            listing(walk, Seq::empty(), root),
        ),
        WalkView::starting(walk, uid).after_all(events).entries == counted_entries(
            listing(walk, Seq::empty(), root),
        ),
{
    lemma_run_covers(walk, uid, root, events);
    let done = WalkView::starting(walk, uid).after_all(events);
    assert(done.hashed =~= content_message(done.listed));
}

/// How many files and links a tree holds.
pub open spec fn files_and_links(node: Node) -> nat
    decreases node, 0int,
{
    match node {
        Node::Directory { children } => files_and_links_from(children, 0),
        _ => 1,
    }
}

pub open spec fn files_and_links_from(children: Seq<Child>, next: int) -> nat
    decreases children, children.len() - next,
{
    if next < 0 || next >= children.len() {
        0
    } else {
        files_and_links(children[next].node) + files_and_links_from(children, next + 1)
    }
}

proof fn lemma_counted_concat(left: Seq<Entry>, right: Seq<Entry>)
    ensures
        counted_entries(left + right) == counted_entries(left) + counted_entries(right),
    decreases right.len(),
{
    if right.len() == 0 {
        assert(left + right =~= left);
    } else {
        lemma_counted_concat(left, right.drop_last());
        assert((left + right).drop_last() =~= left + right.drop_last());
    }
}

proof fn lemma_counted(walk: Walk, path: Seq<u8>, node: Node)
    requires
        walk != Walk::Worktree,
    ensures
        counted_entries(listing(walk, path, node)) == files_and_links(node),
    decreases node, 0int,
{
    let entries = listing(walk, path, node);
    assert(counted_entries(Seq::<Entry>::empty()) == 0);
    match node {
        Node::Directory { children } => {
            lemma_counted_from(walk, path, children, 0);
            assert(entries.drop_last() =~= listing_from(walk, path, children, 0));
        },
        _ => {
            assert(entries.drop_last() =~= Seq::<Entry>::empty());
        },
    }
}

proof fn lemma_counted_from(walk: Walk, prefix: Seq<u8>, children: Seq<Child>, next: int)
    requires
        walk != Walk::Worktree,
        0 <= next,
    ensures
        counted_entries(listing_from(walk, prefix, children, next)) == files_and_links_from(
            children,
            next,
        ),
    decreases children, children.len() - next,
{
    if next < children.len() {
        let path = path_under(prefix, children[next].name);
        lemma_counted(walk, path, children[next].node);
        lemma_counted_from(walk, prefix, children, next + 1);
        lemma_counted_concat(
            listing(walk, path, children[next].node),
            listing_from(walk, prefix, children, next + 1),
        );
    }
}

/// A clone of a sealed tree as it was made: the same names, contents and targets, each file under the
/// mode of a worktree.
pub open spec fn is_clone(copy: Node, sealed: Node) -> bool
    decreases sealed,
{
    match (copy, sealed) {
        (
            Node::Regular { mode, content },
            Node::Regular { mode: sealed_mode, content: sealed_content },
        ) => {
            &&& content == sealed_content
            &&& sealed_mode == 0o444 || sealed_mode == 0o555
            &&& mode == session_mode_spec(sealed_mode)
        },
        (Node::Symlink { target }, Node::Symlink { target: sealed_target }) => target
            == sealed_target,
        (Node::Directory { children }, Node::Directory { children: sealed_children }) => {
            &&& children.len() == sealed_children.len()
            &&& forall|i: int|
                0 <= i < sealed_children.len() ==> {
                    &&& sealed_children[i].name.len() > 0
                    &&& children[i].name == sealed_children[i].name
                    &&& is_clone(children[i].node, (#[trigger] sealed_children[i]).node)
                }
        },
        _ => false,
    }
}

/// A worktree: the tree, and Git's own entry among the names of its root.
pub open spec fn with_git(tree: Node, place: int, git: Node) -> Node {
    Node::Directory {
        children: tree->children.insert(place, Child { name: utf8(".git"@), node: git }),
    }
}

pub open spec fn lacks_git(tree: Node) -> bool {
    tree is Directory && forall|i: int|
        0 <= i < tree->children.len() ==> (#[trigger] tree->children[i]).name != utf8(".git"@)
}

proof fn lemma_clone_lists_alike(copy: Node, sealed: Node, path: Seq<u8>)
    requires
        is_clone(copy, sealed),
        path.len() > 0 || sealed !is Directory || lacks_git(sealed),
    ensures
        listing(Walk::Worktree, path, copy) == listing(Walk::Clone, path, sealed),
    decreases sealed, 0int,
{
    if let Node::Directory { children } = sealed {
        lemma_clones_list_alike(copy->children, children, path, 0);
    }
}

proof fn lemma_clones_list_alike(
    copies: Seq<Child>,
    children: Seq<Child>,
    prefix: Seq<u8>,
    next: int,
)
    requires
        0 <= next,
        is_clone(Node::Directory { children: copies }, Node::Directory { children }),
        prefix.len() > 0 || lacks_git(Node::Directory { children }),
    ensures
        listing_from(Walk::Worktree, prefix, copies, next) == listing_from(
            Walk::Clone,
            prefix,
            children,
            next,
        ),
    decreases children, children.len() - next,
{
    if next < children.len() {
        let child = children[next];
        assert(is_clone(copies[next].node, child.node));
        assert((Node::Directory { children })->children[next].name == child.name);
        lemma_clone_lists_alike(copies[next].node, child.node, path_under(prefix, child.name));
        lemma_clones_list_alike(copies, children, prefix, next + 1);
    }
}

/// Git's own entry adds nothing to the listing of a worktree.
proof fn lemma_git_is_unlisted(children: Seq<Child>, place: int, git: Child, next: int)
    requires
        0 <= place <= children.len(),
        0 <= next <= children.len() + 1,
        git.name == utf8(".git"@),
    ensures
        listing_from(
            Walk::Worktree,
            Seq::empty(),
            children.insert(place, git),
            next,
        ) == listing_from(
            Walk::Worktree,
            Seq::empty(),
            children,
            if next <= place {
                next
            } else {
                next - 1
            },
        ),
    decreases children.len() + 1 - next,
{
    let all = children.insert(place, git);
    if next <= children.len() {
        lemma_git_is_unlisted(children, place, git, next + 1);
        if next < place {
            assert(all[next] == children[next]);
        } else if next > place {
            assert(all[next] == children[next - 1]);
        } else {
            assert(all[next] == git);
        }
    }
}

/// Cloning a sealed tree, and later walking the clone as a worktree that nobody changed, hash the same
/// message and count the same entries: the files and links of the tree. Git's own entry at the root of
/// the worktree is neither hashed nor counted.
pub proof fn law_unchanged_clone_hashes_as_its_source(
    sealed: Node,
    copy: Node,
    git: Option<(int, Node)>,
    uid: u32,
    cloning: Seq<WalkEvent>,
    verifying: Seq<WalkEvent>,
)
    requires
        lacks_git(sealed),
        is_clone(copy, sealed),
        git matches Some((place, _)) ==> 0 <= place <= copy->children.len(),
        ({
            let worktree = match git {
                None => copy,
                Some((place, node)) => with_git(copy, place, node),
            };
            WalkView::starting(Walk::Worktree, uid).is_told_all(worktree, verifying)
        }),
        WalkView::starting(Walk::Worktree, uid).after_all(verifying).stage is Finished,
        WalkView::starting(Walk::Clone, uid).is_told_all(sealed, cloning),
        WalkView::starting(Walk::Clone, uid).after_all(cloning).stage is Finished,
    ensures
        WalkView::starting(Walk::Worktree, uid).after_all(verifying).hashed == WalkView::starting(
            Walk::Clone,
            uid,
        ).after_all(cloning).hashed,
        WalkView::starting(Walk::Worktree, uid).after_all(verifying).entries == WalkView::starting(
            Walk::Clone,
            uid,
        ).after_all(cloning).entries,
        WalkView::starting(Walk::Clone, uid).after_all(cloning).entries == files_and_links(sealed),
{
    law_finished_walk_covers_the_tree(Walk::Clone, uid, sealed, cloning);
    lemma_clone_lists_alike(copy, sealed, Seq::empty());
    lemma_counted(Walk::Clone, Seq::empty(), sealed);
    match git {
        None => {
            law_finished_walk_covers_the_tree(Walk::Worktree, uid, copy, verifying);
        },
        Some((place, node)) => {
            let child = Child { name: utf8(".git"@), node };
            lemma_git_is_unlisted(copy->children, place, child, 0);
            law_finished_walk_covers_the_tree(
                Walk::Worktree,
                uid,
                with_git(copy, place, node),
                verifying,
            );
        },
    }
}

} // verus!
