//! What it takes for a directory to count as the one that a record speaks of.

use crate::authority::{AuthorityView, Error, Identity};
use crate::bytes::utf8;
use crate::notation::hex_text;
use crate::paths::{joined, same_path_spec};
use crate::session::{CapabilityView, SessionPayloadView, SessionView};
use crate::session_roots::{
    registered_name, standing, AuthorizedSeen, ContainerSeen, EmptySeen, LeasedSeen, ReadySeen,
    ReadyView, Standing, TopologySeen,
};
use crate::storage::SealedView;
use crate::template_roots::{
    materializing_root_failure, prepared_sync_failure, private_root_failure, publishing_root_failure,
    revalidate_failure, sealed_root_failure, tombstone_root_failure, RootSeen, TemplateCapability,
    TemplateCapabilityView,
};
use vstd::prelude::*;

verus! {

/// The same node of the file system, with the same owner, mode and kind.
pub open spec fn is_one_node(left: Identity, right: Identity) -> bool {
    left.dev == right.dev && left.ino == right.ino && left.uid == right.uid && left.mode == right.mode
        && left.kind == right.kind
}

/// The expected node was seen.
pub open spec fn saw(seen: Result<Identity, Error>, expected: Identity) -> bool {
    seen matches Ok(identity) && is_one_node(identity, expected)
}

/// The volume was seen.
pub open spec fn saw_volume(seen: Result<String, Error>, expected: Seq<char>) -> bool {
    seen matches Ok(volume) && volume@ == expected
}

/// A directory of the user with this mode.
pub open spec fn is_with_mode(identity: Identity, uid: u32, mode: u32) -> bool {
    identity.is_directory() && identity.uid == uid && identity.mode == mode && identity.nlink >= 2
}

/// A directory to build a template in is taken only where it is private to the user, is on the volume,
/// is the expected one where one is expected, and is empty where it has to be.
pub proof fn law_building_roots_are_private(
    seen: RootSeen,
    volume: Seq<char>,
    expected: Option<Identity>,
    empty: bool,
    uid: u32,
)
    ensures
        private_root_failure(seen, volume, expected, empty, uid) is None <==> {
            &&& seen.entry matches Ok(Some(entry)) && is_with_mode(entry, uid, 0o700) && saw(
                seen.descriptor,
                entry,
            ) && (expected matches Some(expected) ==> is_one_node(entry, expected))
            &&& seen.opened
            &&& saw_volume(seen.volume, volume)
            &&& empty ==> (seen.names matches Ok(names) && names@.len() == 0)
        },
{
}

/// A build that was broken off is recognized by its node, and a sealed root by the whole of its
/// identity: that of the seal.
pub proof fn law_template_roots_are_the_recorded_ones(
    seen: RootSeen,
    sealed: SealedView,
    volume: Seq<char>,
    expected: Identity,
    uid: u32,
)
    ensures
        materializing_root_failure(seen, volume, expected, uid) is None <==> {
            &&& seen.entry matches Ok(Some(entry)) && entry.dev == expected.dev && entry.ino
                == expected.ino && (is_with_mode(entry, uid, 0o700) || is_with_mode(entry, uid, 0o555))
                && saw(seen.descriptor, entry)
            &&& seen.opened
            &&& saw_volume(seen.volume, volume)
        },
        sealed_root_failure(seen, sealed, volume, uid) is None <==> {
            &&& seen.entry matches Ok(Some(entry)) && entry == sealed.root
            &&& is_with_mode(sealed.root, uid, 0o555)
            &&& seen.opened
            &&& seen.descriptor matches Ok(descriptor) && descriptor == sealed.root
            &&& saw_volume(seen.volume, volume)
        },
        publishing_root_failure(seen, sealed, volume) is None <==> {
            &&& seen.entry matches Ok(Some(entry)) && is_on_its_way(entry, sealed.root)
            &&& seen.opened
            &&& seen.descriptor matches Ok(descriptor) && is_on_its_way(descriptor, sealed.root)
            &&& saw_volume(seen.volume, volume)
        },
        tombstone_root_failure(seen, sealed, volume, uid) is None <==> {
            &&& seen.entry matches Ok(Some(entry)) && seen.descriptor == Ok::<Identity, Error>(entry)
                && entry.dev == sealed.root.dev && entry.ino == sealed.root.ino && entry.uid
                == sealed.root.uid && sealed.root.is_directory() && (is_with_mode(entry, uid, 0o700)
                || is_with_mode(entry, uid, 0o555))
            &&& seen.opened
            &&& saw_volume(seen.volume, volume)
        },
{
}

/// A root between two names: the sealed node, sealed or made writable for the rename.
pub open spec fn is_on_its_way(identity: Identity, root: Identity) -> bool {
    identity.is_directory() && root.is_directory() && identity.dev == root.dev && identity.ino
        == root.ino && identity.uid == root.uid && (identity.mode == 0o555 || identity.mode == 0o755)
}

/// A prepared root stands for good once it and its parent were synced and it was seen unchanged, opened
/// and under its name.
pub proof fn law_prepared_roots_are_synced(
    root: Result<(), String>,
    container: Result<(), String>,
    descriptor: Result<Identity, Error>,
    entry: Result<Option<Identity>, Error>,
    expected: Identity,
)
    ensures
        prepared_sync_failure(root, container, descriptor, entry, expected) is None <==> {
            &&& root is Ok
            &&& container is Ok
            &&& descriptor matches Ok(seen) && seen == expected
            &&& entry matches Ok(Some(seen)) && seen == expected
        },
{
}

/// A template under its lease is the one that was read before: the same record in the same file, and the
/// same root where one is looked at.
pub proof fn law_leased_templates_are_unchanged(
    current: Result<Option<TemplateCapability>, Error>,
    expected: TemplateCapabilityView,
    root: Option<(Result<Identity, Error>, Identity)>,
)
    ensures
        revalidate_failure(current, expected, root) is None <==> {
            &&& current matches Ok(Some(current)) && current@.binding == expected.binding
                && current@.record == expected.record
            &&& root matches Some((seen, identity)) ==> (seen matches Ok(seen) && seen == identity)
        },
{
}

/// A record is used only in the container that it names, which is private to the user.
pub open spec fn is_container_of(seen: ContainerSeen, record: SessionView, uid: u32) -> bool {
    &&& saw(seen.identity, record.container_identity)
    &&& seen.identity matches Ok(identity) && is_with_mode(identity, uid, 0o700)
    &&& saw_volume(seen.volume, record.volume)
}

/// A directory counts as authorized by a record only in the container of the record, on its volume, as
/// the expected node, and private to the user.
pub proof fn law_authorized_roots_are_the_recorded_ones(
    seen: AuthorizedSeen,
    container: ContainerSeen,
    record: SessionView,
    name: Seq<char>,
    expected: Identity,
    uid: u32,
)
    ensures
        container.container_failure(record, uid) is None <==> is_container_of(container, record, uid),
        seen.root_failure(record, name, expected, uid) is None ==> {
            &&& is_container_of(seen.container, record, uid)
            &&& seen.opened is Ok
            &&& saw(seen.entry, expected)
            &&& saw(seen.descriptor, expected)
            &&& is_with_mode(expected, uid, 0o700)
            &&& saw_volume(seen.volume, record.volume)
        },
{
}

/// A session that counts as ready is there: its directory, its private repository and its worktree are
/// the recorded ones, private to the user and on the recorded volume, each under its path, and each the
/// same at the end as at the beginning.
pub proof fn law_ready_sessions_are_there(
    seen: ReadySeen,
    record: SessionView,
    authority: AuthorityView,
    uid: u32,
)
    requires
        seen.load_failure(record, authority, uid) is None,
    ensures
        record.payload matches SessionPayloadView::Ready {
            root_name,
            root_identity,
            common_identity,
            worktree,
            ..
        } && {
            &&& root_name == "session-"@ + record.sid + ".root"@
            &&& record.authority_path == hex_text(authority.canonical)
            &&& is_one_node(record.authority_identity, authority.identity)
            &&& worktree.0 == record.template
            &&& saw(seen.root, root_identity)
            &&& saw(seen.root_entry, root_identity)
            &&& saw(seen.root_again, root_identity)
            &&& saw(seen.root_entry_again, root_identity)
            &&& is_with_mode(root_identity, uid, 0o700)
            &&& saw(seen.container, record.container_identity)
            &&& saw(seen.common, common_identity)
            &&& saw(seen.common_again, common_identity)
            &&& saw(seen.common_entry, common_identity)
            &&& is_with_mode(common_identity, uid, 0o700)
            &&& saw(seen.worktree, worktree.1)
            &&& saw(seen.worktree_again, worktree.1)
            &&& saw(seen.worktree_entry, worktree.1)
            &&& worktree.1.is_directory() && worktree.1.uid == uid && worktree.1.mode == 0o755
            &&& saw_volume(seen.container_volume, record.volume)
            &&& saw_volume(seen.root_volume, record.volume)
            &&& saw_volume(seen.common_volume, record.volume)
            &&& saw_volume(seen.worktree_volume, record.volume)
            &&& seen.root_path matches Ok(path) && seen.root_bound == Ok::<Identity, Error>(path)
            &&& seen.worktree_path matches Ok(path) && seen.worktree_bound == Ok::<Identity, Error>(
                path,
            )
            &&& seen.common_path matches Ok(path) && seen.common_bound == Ok::<Identity, Error>(path)
            &&& seen.topology is Ok
        },
{
}

/// The parts of a session that is ready stand below the container of sessions, at the places that their
/// names say.
pub proof fn law_ready_sessions_have_their_places(record: SessionView, sessions: Seq<u8>)
    requires
        record.payload is Ready,
    ensures
        record.payload matches SessionPayloadView::Ready {
            root_name,
            root_identity,
            common_identity,
            ..
        } && record.ready_binding(sessions) == (ReadyView {
            root_name,
            root_identity,
            common_identity,
            root_path: joined(sessions, utf8(root_name)),
            worktree_path: joined(joined(sessions, utf8(root_name)), utf8("worktree"@)),
            common_path: joined(joined(sessions, utf8(root_name)), utf8("common.git"@)),
        }),
{
}

/// A linked worktree that passes leads to its private repository and back: it is registered there under
/// the name that its pointer gives, the registration points at the worktree and two directories up at
/// the repository, the repository borrows the objects of the authority and of nobody else, and nothing
/// of that moved meanwhile.
pub proof fn law_linked_worktrees_lead_back(
    seen: TopologySeen,
    common_path: Seq<u8>,
    worktree_path: Seq<u8>,
    canonical: Seq<u8>,
    uid: u32,
)
    requires
        seen.topology_failure(common_path, worktree_path, canonical, uid) is None,
    ensures
        seen.dot_git matches Ok(dot_git) && registered_name(dot_git@, common_path) matches Some(name)
            && dot_git@ == utf8("gitdir: "@) + (joined(common_path, utf8("worktrees"@)).push(47)
            + name).push(10),
        seen.gitdir matches Ok(bytes) && bytes@ == joined(worktree_path, utf8(".git"@)).push(10),
        seen.commondir matches Ok(bytes) && bytes@ == utf8("../.."@).push(10),
        seen.alternates matches Ok(bytes) && bytes@ == joined(canonical, utf8("objects"@)).push(10),
        seen.common matches Ok(common) && saw(seen.ancestor, common) && (seen.worktrees matches Ok(
            worktrees,
        ) && saw(seen.parent, worktrees) && saw(seen.worktrees_entry, worktrees) && saw(
            seen.worktrees_again,
            worktrees,
        ) && worktrees.is_directory() && worktrees.uid == uid && worktrees.dev == common.dev),
        seen.metadata matches Ok(metadata) && saw(seen.metadata_entry, metadata) && saw(
            seen.metadata_again,
            metadata,
        ) && metadata.is_directory() && metadata.uid == uid && metadata.dev
            == seen.worktrees->Ok_0.dev,
        seen.common_volume matches Ok(volume) && saw_volume(seen.worktrees_volume, volume@)
            && saw_volume(seen.metadata_volume, volume@),
{
    let dot_git = seen.dot_git->Ok_0@;
    let prefix = joined(common_path, utf8("worktrees"@)).push(47);
    let name = registered_name(dot_git, common_path)->0;
    let rest = dot_git.skip(utf8("gitdir: "@).len() as int);
    let path = rest.subrange(0, rest.len() - 1);
    assert(utf8("gitdir: "@) + rest =~= dot_git) by {
        assert(dot_git.subrange(0, utf8("gitdir: "@).len() as int) =~= utf8("gitdir: "@));
    }
    assert(path.push(10) =~= rest) by {
        assert(rest.subrange(rest.len() - 1, rest.len() as int)[0] == rest.last());
    }
    assert(prefix + name =~= path) by {
        assert(path.subrange(0, prefix.len() as int) =~= prefix);
    }
}

/// A session keeps its lease only as long as its record, its directory and its private repository are
/// those that were leased, at the same place.
pub proof fn law_leased_sessions_are_unchanged(
    seen: LeasedSeen,
    expected: CapabilityView,
    ready: ReadyView,
)
    ensures
        seen.lease_failure(expected, ready) is None <==> {
            &&& seen.current matches Ok(current) && current@.binding == expected.binding
            &&& seen.again matches Ok(again) && again@.binding == expected.binding
            &&& saw(seen.root, ready.root_identity)
            &&& saw(seen.root_entry, ready.root_identity)
            &&& saw(seen.checked_root, ready.root_identity)
            &&& saw(seen.common, ready.common_identity)
            &&& saw(seen.checked_common, ready.common_identity)
            &&& seen.checked matches Ok(checked) && same_path_spec(
                checked@.worktree_path,
                ready.worktree_path,
            )
        },
{
}

/// A session that is to go stands where its node stands: under one of its two names, and not under the
/// other; or under neither.
pub proof fn law_standing_tells_the_place(
    root: Option<Identity>,
    tombstone: Option<Identity>,
    expected: Identity,
)
    ensures
        standing(root, tombstone, expected) == Standing::Root <==> tombstone is None && (root
            matches Some(root) && is_one_node(root, expected)),
        standing(root, tombstone, expected) == Standing::Tombstone <==> root is None && (tombstone
            matches Some(tombstone) && is_one_node(tombstone, expected)),
        standing(root, tombstone, expected) == Standing::Gone <==> root is None && tombstone is None,
{
}

/// A directory that was made is taken away only where it is exactly the expected one, private to the
/// user, and empty.
pub proof fn law_only_empty_directories_go(
    seen: EmptySeen,
    name: Seq<u8>,
    expected: Identity,
    label: Seq<char>,
    uid: u32,
)
    requires
        seen.empty_failure(name, expected, label, uid) is None,
    ensures
        seen.entry == Ok::<Identity, Error>(expected),
        seen.descriptor == Ok::<Identity, Error>(expected),
        seen.opened is Ok,
        is_with_mode(expected, uid, 0o700),
        seen.names matches Ok(names) && names@.len() == 0,
{
}

} // verus!
