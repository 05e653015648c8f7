use git_vws::authority::{Error, Identity, DIRECTORY_TYPE, REGULAR_TYPE, SYMLINK_TYPE};
use git_vws::cow::{
    clone_regular, directory_names, has_xattrs_fd, link_metadata_present, linked_worktree_entry,
    linked_worktree_metadata, metadata_present_fd, path_semantics, seal_plan, seal_tree,
    verify_plan, verify_sealed_tree, verify_worktree, verify_worktree_plan, CloneCall, CowPlan,
    FileClone, FileCloneAction, FileCloneEvent, LinkSeen, PlanSeen, TreeClone, TreeCloneAction,
    TreeCloneEvent,
};
use git_vws::probing::{
    cleanup_clone_destination, unlink_owned, CleaningAction, CleaningEvent, CowAction, CowEvent,
    CowProbe, NameAction, NameEvent, NameProbe, Probe, ProbeCleanup, SecondName,
};
use git_vws::removal::{RemovalAction, RemovalEvent, Tree, TreeRemoval};
use git_vws::storage::{
    clone_destination_directory, content_hasher, cow_probe_name, descriptor_link,
    fiemap_proves_shared, filesystem_kind, hash_directory, hash_regular, hash_symlink,
    macos_xattr_name_list_allowed, macos_xattr_names, mount_id, owned_tree_binding,
    path_probe_name, path_semantics_parent, private_directory, publishing_binding, sealed_directory,
    sealed_mode, sealed_regular, session_mode, stable_directory_node, to_lower, valid_digest,
    validate_basename, volume_id, worktree_directory, worktree_regular, CowReceipt, Extent,
    Filesystem, ManifestReceipt, PathSemantics, SealedTreeReceipt, EXTENT_LAST, EXTENT_SHARED,
};
use git_vws::sync::{SyncAction, SyncEvent, TreeSync};
use git_vws::walk::{
    check_cloned_link, read_link_at, DirectorySeen, LinkCloned, TreeWalk, Walk, WalkAction,
    WalkEvent,
};

const UID: u32 = 1000;
const DIGEST: &str = "0123456789abcdef0123456789abcdef0123456789abcdef0123456789abcdef";

fn node(ino: u64, kind: u32, mode: u32) -> Identity {
    Identity {
        dev: 1,
        ino,
        uid: UID,
        mode,
        kind,
        nlink: if kind == DIRECTORY_TYPE { 2 } else { 1 },
    }
}

fn sealed_root() -> Identity {
    node(10, DIRECTORY_TYPE, 0o555)
}

fn missing() -> Error {
    Error::new("STORAGE_UNSUPPORTED", "missing")
}

fn receipt(content: &str, entries: u64) -> SealedTreeReceipt {
    SealedTreeReceipt {
        root: sealed_root(),
        volume: "volume".to_owned(),
        manifest: ManifestReceipt {
            digest: DIGEST.to_owned(),
            entries,
        },
        content_digest: content.to_owned(),
    }
}

#[test]
fn stable_directory_node_allows_only_link_count_drift() {
    let expected = Identity {
        dev: 1,
        ino: 2,
        uid: 3,
        mode: 0o700,
        kind: DIRECTORY_TYPE,
        nlink: 2,
    };
    let mut link_drift = expected;
    link_drift.nlink = 9;
    assert!(stable_directory_node(link_drift, expected));
    for current in [
        Identity { dev: 4, ..expected },
        Identity { ino: 4, ..expected },
        Identity { uid: 4, ..expected },
        Identity {
            mode: 0o755,
            ..expected
        },
        Identity {
            kind: REGULAR_TYPE,
            ..expected
        },
    ] {
        assert!(!stable_directory_node(current, expected));
    }
}

#[test]
fn macos_xattr_name_list_accepts_only_provenance() {
    for names in [b"".as_slice(), b"com.apple.provenance\0".as_slice()] {
        assert!(macos_xattr_name_list_allowed(names));
    }
    for names in [
        b"com.apple.quarantine\0".as_slice(),
        b"com.apple.provenance\0user.note\0".as_slice(),
        b"com.apple.provenance\0com.apple.provenance\0".as_slice(),
        b"\0".as_slice(),
        b"com.apple.provenance".as_slice(),
        b"com.apple.provenance\0\0".as_slice(),
        b"com.apple.Provenance\0".as_slice(),
    ] {
        assert!(!macos_xattr_name_list_allowed(names));
    }
}

#[test]
fn directories_and_files_are_known_by_their_modes() {
    assert!(private_directory(node(1, DIRECTORY_TYPE, 0o700), UID));
    assert!(sealed_directory(node(1, DIRECTORY_TYPE, 0o555), UID));
    assert!(worktree_directory(node(1, DIRECTORY_TYPE, 0o755), UID));
    assert!(clone_destination_directory(node(1, DIRECTORY_TYPE, 0o700), UID));
    assert!(!clone_destination_directory(node(1, DIRECTORY_TYPE, 0o555), UID));
    assert!(sealed_regular(node(1, REGULAR_TYPE, 0o444), UID));
    assert!(!sealed_regular(node(1, REGULAR_TYPE, 0o644), UID));
    assert!(worktree_regular(node(1, REGULAR_TYPE, 0o755), UID));
    let twice = Identity { nlink: 2, ..node(1, REGULAR_TYPE, 0o444) };
    assert!(!sealed_regular(twice, UID));
    assert!(!private_directory(node(1, DIRECTORY_TYPE, 0o700), UID + 1));
}

#[test]
fn modes_are_sealed_and_given_back() {
    for (worktree, sealed) in [(0o755, 0o555), (0o644, 0o444)] {
        assert_eq!(sealed_mode(worktree), sealed);
        assert_eq!(session_mode(sealed), worktree);
        assert_eq!(session_mode(sealed_mode(worktree)), worktree);
    }
}

#[test]
fn bindings_follow_what_may_change() {
    let root = sealed_root();
    assert!(owned_tree_binding(root, root));
    assert!(!owned_tree_binding(node(11, DIRECTORY_TYPE, 0o555), root));
    assert!(publishing_binding(root, root));
    assert!(!publishing_binding(node(11, DIRECTORY_TYPE, 0o555), root));
}

#[test]
fn tree_names_are_plain_and_not_gits_own() {
    assert!(validate_basename(b"a").is_ok());
    for name in [b"".as_slice(), b".", b"..", b"a/b", b".git", b".GIT"] {
        assert_eq!(
            validate_basename(name).expect_err("invalid name").code,
            "STORAGE_UNSUPPORTED"
        );
    }
    assert_eq!(to_lower(b"A.b"), b"a.b".to_vec());
    assert!(valid_digest(DIGEST));
    assert!(!valid_digest("0123"));
}

#[test]
fn volumes_are_named() {
    let linux = Filesystem::Linux { kind: 0x5846_5342, fsid: 0x0102 };
    assert_eq!(
        filesystem_kind(&linux).expect("xfs"),
        "linux-58465342:0000000000000102"
    );
    let tmpfs = Filesystem::Linux { kind: 0x0102_1994, fsid: 1 };
    assert_eq!(
        filesystem_kind(&tmpfs).expect_err("tmpfs").code,
        "STORAGE_UNSUPPORTED"
    );
    let apfs = Filesystem::Mac { name: b"apfs".to_vec(), fsid: 3 };
    assert_eq!(filesystem_kind(&apfs).expect("apfs"), "apfs:0000000000000003");
    let hfs = Filesystem::Mac { name: b"hfs".to_vec(), fsid: 3 };
    assert!(filesystem_kind(&hfs).is_err());
    let directory = node(1, DIRECTORY_TYPE, 0o700);
    assert_eq!(
        volume_id(Ok(directory), Ok(linux), Ok(9), UID).expect("volume"),
        "linux-58465342:0000000000000102:dev=1:mnt=9"
    );
    let linux = Filesystem::Linux { kind: 0x5846_5342, fsid: 0x0102 };
    assert!(volume_id(Ok(node(1, REGULAR_TYPE, 0o600)), Ok(linux), Ok(9), UID).is_err());
    assert_eq!(mount_id(Ok((true, 5))).expect("mount"), 5);
    assert!(mount_id(Ok((false, 5))).is_err());
    assert!(mount_id(Err("old kernel".to_owned())).is_err());
    assert_eq!(descriptor_link(7, b"a"), b"/proc/self/fd/7/a".to_vec());
}

#[test]
fn path_semantics_have_a_fingerprint() {
    let semantics = path_semantics(Ok(()), Ok(true), Ok(false)).expect("semantics");
    assert_eq!(
        semantics,
        PathSemantics { case_insensitive: true, normalization_insensitive: false }
    );
    assert_eq!(semantics.fingerprint("linux"), "linux:case=1:normalization=0");
    assert!(path_semantics(Err(missing()), Ok(true), Ok(false)).is_err());
    assert!(path_semantics_parent(Ok(node(1, DIRECTORY_TYPE, 0o700)), UID).is_ok());
    assert!(path_semantics_parent(Ok(node(1, DIRECTORY_TYPE, 0o777)), UID).is_err());
    assert_eq!(path_probe_name(4, "case"), ".git-vws-path-4-case");
    assert_eq!(cow_probe_name(12, 4, "source"), ".git-vws-cow-12-4.source");
}

#[test]
fn content_is_hashed_in_frames() {
    let start = content_hasher();
    assert_eq!(&start[..8], &[0, 0, 0, 0, 0, 0, 0, 27]);
    assert_eq!(&start[8..], b"git-vws/template-content/v1");
    let file = hash_regular(b"a", 0o444, 2);
    assert!(file.ends_with(&[0, 0, 0, 0, 0, 0, 0, 8, 0, 0, 0, 0, 0, 0, 0, 2]));
    assert!(hash_symlink(b"target", b"l").ends_with(b"target"));
    assert!(hash_directory(b"d").ends_with(b"555"));
    assert_ne!(hash_regular(b"a", 0o444, 2), hash_regular(b"a", 0o555, 2));
}

#[test]
fn only_wholly_shared_files_are_clones() {
    let shared = |physical: u64| {
        vec![
            Extent { logical: 0, physical, length: 4096, flags: EXTENT_SHARED },
            Extent {
                logical: 4096,
                physical: physical + 4096,
                length: 4096,
                flags: EXTENT_SHARED | EXTENT_LAST,
            },
        ]
    };
    assert!(fiemap_proves_shared(8192, 8192, &shared(8192), &shared(8192)));
    assert!(!fiemap_proves_shared(8192, 8192, &shared(8192), &shared(16384)));
    assert!(!fiemap_proves_shared(8192, 8193, &shared(8192), &shared(8192)));
    let mut unshared = shared(8192);
    unshared[0].flags = 0;
    assert!(!fiemap_proves_shared(8192, 8192, &unshared, &unshared));
    let mut gap = shared(8192);
    gap[1].logical = 8192;
    assert!(!fiemap_proves_shared(8192, 8192, &gap, &gap));
    assert!(fiemap_proves_shared(0, 0, &vec![], &vec![]));
}

fn seen(identity: Identity, names: &[&[u8]]) -> WalkEvent {
    WalkEvent::Directory(DirectorySeen {
        identity: Ok(identity),
        metadata: Ok(false),
        destination: Err(missing()),
        destination_metadata: Ok(false),
        linked: Ok(true),
        names: Ok(names.iter().map(|name| name.to_vec()).collect()),
    })
}

#[test]
fn walks_hash_what_they_list() {
    let file = node(20, REGULAR_TYPE, 0o444);
    let link = node(21, SYMLINK_TYPE, 0o777);
    let mut walk = TreeWalk::start(Walk::Verify, UID);
    for (action, event) in [
        (WalkAction::SeeDirectory, seen(sealed_root(), &[b"a", b"l"])),
        (WalkAction::StatEntry, WalkEvent::Identity(Ok(file))),
        (WalkAction::OpenRegular, WalkEvent::Bound(Ok(file), Ok(false))),
        (WalkAction::SizeRegular, WalkEvent::Size(Ok(2))),
        (WalkAction::ReadRegular(2), WalkEvent::Content(Ok(b"hi".to_vec()))),
        (WalkAction::RestatRegular, WalkEvent::Restat(Ok(file), Ok(2))),
        (WalkAction::StatEntry, WalkEvent::Identity(Ok(link))),
        (WalkAction::InspectLink, WalkEvent::Metadata(Ok(false))),
        (WalkAction::ReadLink, WalkEvent::Target(Ok(b"a".to_vec()))),
        (WalkAction::SeeAgain, WalkEvent::Bound(Ok(sealed_root()), Ok(false))),
    ] {
        assert_eq!(walk.action(), action);
        assert!(walk.fits(&event));
        walk = walk.answer(event);
    }
    let (digest, entries) = walk.finish().expect("ended").expect("walked");
    assert_eq!(entries, 2);
    assert_eq!(
        digest,
        "a6277259c8cf3079ffd8f5749245cca01dff1be0134c71be538ec7d351246d83"
    );
}

fn ended(start: TreeWalk, events: Vec<(WalkAction, WalkEvent)>) -> (String, u64) {
    let mut walk = start;
    for (action, event) in events {
        assert_eq!(walk.action(), action);
        assert!(walk.fits(&event));
        walk = walk.answer(event);
    }
    walk.finish().expect("ended").expect("walked")
}

fn cloning_into(source: Identity, destination: Identity, names: &[&[u8]]) -> WalkEvent {
    match seen(source, names) {
        WalkEvent::Directory(seen) => WalkEvent::Directory(DirectorySeen {
            destination: Ok(destination),
            ..seen
        }),
        other => other,
    }
}

#[test]
fn unchanged_clones_hash_as_their_source() {
    let file = node(20, REGULAR_TYPE, 0o555);
    let link = node(21, SYMLINK_TYPE, 0o777);
    let inner = node(22, DIRECTORY_TYPE, 0o555);
    let made = node(32, DIRECTORY_TYPE, 0o755);
    let cloned = ended(
        TreeWalk::start(Walk::Clone, UID),
        vec![
            (
                WalkAction::SeeDirectory,
                cloning_into(sealed_root(), node(30, DIRECTORY_TYPE, 0o700), &[b"a", b"d"]),
            ),
            (WalkAction::StatEntry, WalkEvent::Identity(Ok(file))),
            (WalkAction::OpenRegular, WalkEvent::Bound(Ok(file), Ok(false))),
            (WalkAction::SizeRegular, WalkEvent::Size(Ok(2))),
            (WalkAction::ReadRegular(2), WalkEvent::Content(Ok(b"hi".to_vec()))),
            (WalkAction::RestatRegular, WalkEvent::Restat(Ok(file), Ok(2))),
            (WalkAction::CloneRegular, WalkEvent::Done(Ok(()))),
            (WalkAction::SyncDestination, WalkEvent::Synced(Ok(()))),
            (WalkAction::StatEntry, WalkEvent::Identity(Ok(inner))),
            (WalkAction::OpenDirectory, WalkEvent::Identity(Ok(inner))),
            (WalkAction::MakeDirectory, WalkEvent::Identity(Ok(made))),
            (WalkAction::SeeDirectory, cloning_into(inner, made, &[b"l"])),
            (WalkAction::StatEntry, WalkEvent::Identity(Ok(link))),
            (WalkAction::InspectLink, WalkEvent::Metadata(Ok(false))),
            (WalkAction::ReadLink, WalkEvent::Target(Ok(b"../a".to_vec()))),
            (
                WalkAction::CloneLink,
                WalkEvent::Link(LinkCloned {
                    made: Ok(()),
                    identity: Ok(node(31, SYMLINK_TYPE, 0o777)),
                    metadata: Ok(false),
                    target: Ok(b"../a".to_vec()),
                }),
            ),
            (WalkAction::SyncDestination, WalkEvent::Synced(Ok(()))),
            (WalkAction::SeeAgain, WalkEvent::Bound(Ok(inner), Ok(false))),
            (WalkAction::SyncChild, WalkEvent::ChildSynced(Ok(()), Ok(()))),
            (WalkAction::SeeAgain, WalkEvent::Bound(Ok(sealed_root()), Ok(false))),
        ],
    );
    assert_eq!(cloned.1, 2);

    let worktree = |content: &[u8]| {
        let root = node(30, DIRECTORY_TYPE, 0o755);
        let copy = node(33, REGULAR_TYPE, 0o755);
        let link = node(31, SYMLINK_TYPE, 0o777);
        ended(
            TreeWalk::start(Walk::Worktree, UID),
            vec![
                (WalkAction::SeeDirectory, seen(root, &[b".git", b"a", b"d"])),
                (WalkAction::StatEntry, WalkEvent::Identity(Ok(copy))),
                (WalkAction::OpenRegular, WalkEvent::Bound(Ok(copy), Ok(false))),
                (WalkAction::SizeRegular, WalkEvent::Size(Ok(2))),
                (WalkAction::ReadRegular(2), WalkEvent::Content(Ok(content[..1].to_vec()))),
                (WalkAction::ReadRegular(1), WalkEvent::Content(Ok(content[1..].to_vec()))),
                (WalkAction::RestatRegular, WalkEvent::Restat(Ok(copy), Ok(2))),
                (WalkAction::StatEntry, WalkEvent::Identity(Ok(made))),
                (WalkAction::OpenDirectory, WalkEvent::Identity(Ok(made))),
                (WalkAction::SeeDirectory, seen(made, &[b"l"])),
                (WalkAction::StatEntry, WalkEvent::Identity(Ok(link))),
                (WalkAction::InspectLink, WalkEvent::Metadata(Ok(false))),
                (WalkAction::ReadLink, WalkEvent::Target(Ok(b"../a".to_vec()))),
                (WalkAction::SeeAgain, WalkEvent::Bound(Ok(made), Ok(false))),
                (WalkAction::SeeAgain, WalkEvent::Bound(Ok(root), Ok(false))),
            ],
        )
    };
    assert_eq!(worktree(b"hi"), cloned);
    let changed = worktree(b"ho");
    assert_ne!(changed.0, cloned.0);
    assert_eq!(changed.1, cloned.1);
}

#[test]
fn walks_refuse_what_changes_or_is_not_owned() {
    let file = node(20, REGULAR_TYPE, 0o444);
    let start = || {
        TreeWalk::start(Walk::Verify, UID).answer(seen(sealed_root(), &[b"a"]))
    };
    let foreign = start().answer(WalkEvent::Identity(Ok(Identity { uid: 0, ..file })));
    assert_eq!(
        foreign.finish().expect("ended").expect_err("foreign").detail,
        "sealed-tree entry changed ownership or volume"
    );
    let special = start().answer(WalkEvent::Identity(Ok(node(20, 0o010000, 0o600))));
    assert_eq!(
        special.finish().expect("ended").expect_err("special").detail,
        "sealed tree contains a special file"
    );
    let replaced = start()
        .answer(WalkEvent::Identity(Ok(file)))
        .answer(WalkEvent::Bound(Ok(node(22, REGULAR_TYPE, 0o444)), Ok(false)));
    assert_eq!(
        replaced.finish().expect("ended").expect_err("replaced").detail,
        "sealed-tree regular file binding or metadata changed"
    );
    let git = TreeWalk::start(Walk::Verify, UID).answer(seen(sealed_root(), &[b".git"]));
    assert_eq!(
        git.finish().expect("ended").expect_err("metadata").detail,
        "sealed tree contains an invalid pathname component"
    );
}

#[test]
fn sealing_and_cloning_walks_change_only_their_own() {
    let private = node(10, DIRECTORY_TYPE, 0o700);
    let mut sealing = TreeWalk::start(Walk::Seal, UID);
    sealing = sealing.answer(seen(private, &[]));
    assert_eq!(sealing.action(), WalkAction::SealDirectory);
    sealing = sealing.answer(WalkEvent::Done(Ok(())));
    sealing = sealing.answer(WalkEvent::Bound(Ok(sealed_root()), Ok(false)));
    assert_eq!(sealing.action(), WalkAction::SyncDirectory);
    sealing = sealing.answer(WalkEvent::Synced(Ok(())));
    let sealed = sealing.finish().expect("ended").expect("sealed");
    let mut verifying = TreeWalk::start(Walk::Verify, UID);
    verifying = verifying.answer(seen(sealed_root(), &[]));
    assert_eq!(verifying.action(), WalkAction::SeeAgain);
    verifying = verifying.answer(WalkEvent::Bound(Ok(sealed_root()), Ok(false)));
    assert_eq!(verifying.finish().expect("ended").expect("verified"), sealed);
}

#[test]
fn links_are_taken_over_whole() {
    assert!(read_link_at(b"target").is_ok());
    assert!(read_link_at(b"a\0b").is_err());
    assert!(read_link_at(&vec![b'a'; 4097]).is_err());
    let cloned = LinkCloned {
        made: Ok(()),
        identity: Ok(node(5, SYMLINK_TYPE, 0o777)),
        metadata: Ok(false),
        target: Ok(b"t".to_vec()),
    };
    assert!(check_cloned_link(&cloned, b"t").is_ok());
    assert!(check_cloned_link(&cloned, b"u").is_err());
}

#[test]
fn sealed_trees_are_verified_against_their_receipt() {
    let manifest = || ManifestReceipt { digest: DIGEST.to_owned(), entries: 2 };
    assert!(seal_plan(&manifest()).is_ok());
    assert!(seal_plan(&ManifestReceipt { digest: "x".to_owned(), entries: 2 }).is_err());
    let sealed = seal_tree(
        manifest(),
        Ok((DIGEST.to_owned(), 2)),
        Ok(sealed_root()),
        Ok("volume".to_owned()),
        UID,
    )
    .expect("sealed");
    assert!(sealed.same(&receipt(DIGEST, 2)));
    assert!(seal_tree(
        manifest(),
        Ok((DIGEST.to_owned(), 3)),
        Ok(sealed_root()),
        Ok("volume".to_owned()),
        UID,
    )
    .is_err());
    assert!(verify_plan(&sealed).is_ok());
    let verified = |digest: &str, entries: u64| {
        verify_sealed_tree(
            &sealed,
            Ok((digest.to_owned(), entries)),
            Ok(sealed_root()),
            Ok("volume".to_owned()),
        )
    };
    assert!(verified(DIGEST, 2).is_ok());
    assert!(verified(DIGEST, 3).is_err());
    assert!(verified("other", 2).is_err());
}

#[test]
fn worktrees_are_verified_against_their_clone_receipt() {
    let destination = node(30, DIRECTORY_TYPE, 0o755);
    let cow = CowReceipt { source: receipt(DIGEST, 2), destination };
    assert!(verify_worktree_plan(
        &cow,
        Ok(destination),
        Ok("volume".to_owned()),
        Ok(true),
        UID
    )
    .is_ok());
    assert!(verify_worktree_plan(
        &cow,
        Ok(destination),
        Ok("other".to_owned()),
        Ok(true),
        UID
    )
    .is_err());
    assert!(verify_worktree(&cow, Ok((DIGEST.to_owned(), 2))).is_ok());
    assert!(verify_worktree(&cow, Ok((DIGEST.to_owned(), 1))).is_err());
}

#[test]
fn files_are_cloned_with_evidence() {
    let source = node(20, REGULAR_TYPE, 0o444);
    let made = node(40, REGULAR_TYPE, 0o600);
    let mut clone = FileClone::start(CloneCall::Ficlone);
    for (action, event) in [
        (FileCloneAction::MakeDestination, FileCloneEvent::Identity(Ok(made))),
        (FileCloneAction::StatSource, FileCloneEvent::Pair(Ok(source), Ok(source))),
        (FileCloneAction::ShareData, FileCloneEvent::Done(Ok(()))),
        (FileCloneAction::CompareExtents, FileCloneEvent::Shared(Ok(true))),
        (FileCloneAction::StatDestination, FileCloneEvent::Pair(Ok(made), Ok(made))),
    ] {
        assert_eq!(clone.action(), action);
        clone = clone.native_clone_file(event, source, UID);
    }
    assert!(matches!(clone, FileClone::Cloned));
}

#[test]
fn unshared_clones_are_removed_again() {
    let source = node(20, REGULAR_TYPE, 0o444);
    let made = node(40, REGULAR_TYPE, 0o600);
    let mut clone = FileClone::start(CloneCall::Ficlone);
    for event in [
        FileCloneEvent::Identity(Ok(made)),
        FileCloneEvent::Pair(Ok(source), Ok(source)),
        FileCloneEvent::Done(Ok(())),
        FileCloneEvent::Shared(Ok(false)),
    ] {
        clone = clone.native_clone_file(event, source, UID);
    }
    assert_eq!(clone.action(), FileCloneAction::StatForUnlink);
    clone = clone.native_clone_file(FileCloneEvent::Identity(Ok(made)), source, UID);
    assert_eq!(clone.action(), FileCloneAction::UnlinkDestination);
    clone = clone.native_clone_file(FileCloneEvent::Done(Ok(())), source, UID);
    clone = clone.native_clone_file(FileCloneEvent::Done(Ok(())), source, UID);
    match clone {
        FileClone::Failed(error) => assert_eq!(
            error.detail,
            "FICLONE did not provide shared-extent evidence"
        ),
        other => panic!("{other:?}"),
    }
}

#[test]
fn clones_of_another_file_are_not_unlinked_by_name() {
    let source = node(20, REGULAR_TYPE, 0o444);
    let made = node(40, REGULAR_TYPE, 0o600);
    let mut clone = FileClone::start(CloneCall::Clonefileat);
    assert_eq!(clone.action(), FileCloneAction::CloneFile);
    for event in [
        FileCloneEvent::Done(Ok(())),
        FileCloneEvent::Identity(Ok(made)),
        FileCloneEvent::Opened(Ok(())),
        FileCloneEvent::Four(Ok(source), Ok(source), Ok(made), Ok(node(41, REGULAR_TYPE, 0o600))),
        FileCloneEvent::Identity(Ok(node(41, REGULAR_TYPE, 0o600))),
    ] {
        clone = clone.native_clone_file(event, source, UID);
    }
    assert_eq!(clone.action(), FileCloneAction::Nothing);
    assert!(matches!(clone, FileClone::Failed(_)));
    assert!(clone_regular(Ok(made), Ok(false), source, UID).is_err());
    assert!(unlink_owned(Ok(made), made, UID, "clone").is_ok());
    assert!(unlink_owned(Ok(source), made, UID, "clone").is_err());
}

#[test]
fn trees_are_cloned_as_planned() {
    let destination = node(30, DIRECTORY_TYPE, 0o700);
    let parent = node(31, DIRECTORY_TYPE, 0o700);
    let plan = CowPlan { source_receipt: receipt(DIGEST, 2), parent, destination };
    let plan_seen = |volume: &str| PlanSeen {
        source: Ok(sealed_root()),
        parent: Ok(parent),
        opened: Ok(()),
        entry: Ok(destination),
        source_volume: Ok("volume".to_owned()),
        destination_volume: Ok(volume.to_owned()),
        destination: Ok(destination),
        linked: Ok(true),
    };
    let mut clone = TreeClone::start();
    for (action, event) in [
        (TreeCloneAction::SeePlan, TreeCloneEvent::Seen(plan_seen("volume"))),
        (
            TreeCloneAction::WalkSource,
            TreeCloneEvent::Walked(Ok((DIGEST.to_owned(), 2)), Ok(sealed_root())),
        ),
        (TreeCloneAction::ProtectRoot, TreeCloneEvent::Moded(Ok(()))),
    ] {
        assert_eq!(clone.action(), action);
        clone = clone.cow_clone(event, &plan, UID);
    }
    assert_eq!(clone.action(), TreeCloneAction::SeeRoot);
    let far = TreeClone::start().cow_clone(TreeCloneEvent::Seen(plan_seen("far")), &plan, UID);
    assert!(matches!(far, TreeClone::Failed(_)));
    let changed = TreeClone::start()
        .cow_clone(TreeCloneEvent::Seen(plan_seen("volume")), &plan, UID)
        .cow_clone(
            TreeCloneEvent::Walked(Ok(("other".to_owned(), 2)), Ok(sealed_root())),
            &plan,
            UID,
        );
    match changed {
        TreeClone::Failed(error) => assert_eq!(
            error.detail,
            "clone receipt did not match its sealed source plan"
        ),
        other => panic!("{other:?}"),
    }
}

#[test]
fn probes_prove_isolation_and_clean_up() {
    let source = node(50, REGULAR_TYPE, 0o444);
    let clone = node(51, REGULAR_TYPE, 0o600);
    let mut probe = CowProbe::start();
    for (action, event) in [
        (CowAction::StatParent, CowEvent::Identity(Ok(node(1, DIRECTORY_TYPE, 0o700)))),
        (CowAction::MakeSource, CowEvent::Identity(Ok(source))),
        (CowAction::WriteSource, CowEvent::Written(Ok(()))),
        (CowAction::ProtectSource, CowEvent::Moded(Ok(()))),
        (CowAction::StatSource, CowEvent::Identity(Ok(source))),
        (CowAction::CloneSource, CowEvent::Identity(Ok(clone))),
        (CowAction::UnprotectDestination, CowEvent::Moded(Ok(()))),
        (CowAction::ReopenDestination, CowEvent::Identity(Ok(clone))),
        (
            CowAction::ReadBoth,
            CowEvent::Contents(Ok(b"gggg".to_vec()), Ok(b"gggg".to_vec())),
        ),
        (CowAction::MutateDestination, CowEvent::Written(Ok(()))),
        (CowAction::ReadSource, CowEvent::Content(Ok(b"g".to_vec()))),
        (
            CowAction::Clean(CleaningAction::StatDestination),
            CowEvent::Cleaning(CleaningEvent::Identity(Ok(clone))),
        ),
        (
            CowAction::Clean(CleaningAction::UnlinkDestination),
            CowEvent::Cleaning(CleaningEvent::Unlinked(Ok(()))),
        ),
        (
            CowAction::Clean(CleaningAction::StatSource),
            CowEvent::Cleaning(CleaningEvent::Identity(Ok(source))),
        ),
        (
            CowAction::Clean(CleaningAction::UnlinkSource),
            CowEvent::Cleaning(CleaningEvent::Unlinked(Ok(()))),
        ),
        (
            CowAction::Clean(CleaningAction::SyncParent),
            CowEvent::Cleaning(CleaningEvent::Synced(Ok(()))),
        ),
    ] {
        assert_eq!(probe.action(), action);
        probe = probe.probe_native_cow(event, UID);
    }
    assert!(matches!(probe, CowProbe::Ended(Ok(()))));
}

#[test]
fn shared_mutations_fail_the_probe() {
    let source = node(50, REGULAR_TYPE, 0o444);
    let clone = node(51, REGULAR_TYPE, 0o600);
    let mut probe = CowProbe::start();
    for event in [
        CowEvent::Identity(Ok(node(1, DIRECTORY_TYPE, 0o700))),
        CowEvent::Identity(Ok(source)),
        CowEvent::Written(Ok(())),
        CowEvent::Moded(Ok(())),
        CowEvent::Identity(Ok(source)),
        CowEvent::Identity(Ok(clone)),
        CowEvent::Moded(Ok(())),
        CowEvent::Identity(Ok(clone)),
        CowEvent::Contents(Ok(b"g".to_vec()), Ok(b"g".to_vec())),
        CowEvent::Written(Ok(())),
        CowEvent::Content(Ok(b"X".to_vec())),
        CowEvent::Cleaning(CleaningEvent::Identity(Ok(clone))),
        CowEvent::Cleaning(CleaningEvent::Unlinked(Ok(()))),
        CowEvent::Cleaning(CleaningEvent::Identity(Ok(source))),
        CowEvent::Cleaning(CleaningEvent::Unlinked(Ok(()))),
        CowEvent::Cleaning(CleaningEvent::Synced(Ok(()))),
    ] {
        probe = probe.probe_native_cow(event, UID);
    }
    match probe {
        CowProbe::Ended(Err(error)) => assert_eq!(
            error.detail,
            "native COW probe mutation changed its source"
        ),
        other => panic!("{other:?}"),
    }
}

#[test]
fn cleanups_keep_their_first_failure() {
    let source = node(50, REGULAR_TYPE, 0o444);
    let mut cleanup = ProbeCleanup::start(Probe::NativeCow, None, Some(source));
    assert_eq!(cleanup.action(), CleaningAction::StatSource);
    cleanup = cleanup.answer(CleaningEvent::Identity(Ok(node(52, REGULAR_TYPE, 0o444))), UID);
    assert_eq!(cleanup.action(), CleaningAction::SyncParent);
    cleanup = cleanup.answer(CleaningEvent::Synced(Err("io".to_owned())), UID);
    let failed = cleanup.failed.expect("failed");
    assert!(failed.detail.contains("source"));
    let error = cleanup_clone_destination(Ok(()), Ok(()), missing());
    assert_eq!(error.detail, "missing");
    let error = cleanup_clone_destination(Ok(()), Err("io".to_owned()), missing());
    assert_eq!(error.code, "STORAGE_RECOVERY_REQUIRED");
}

#[test]
fn names_that_collide_are_told() {
    let first = node(60, REGULAR_TYPE, 0o600);
    let mut probe = NameProbe::start();
    assert_eq!(probe.action(), NameAction::MakeFirst);
    probe = probe.probe_name_collision(NameEvent::First(Ok(first)), UID);
    assert_eq!(probe.action(), NameAction::MakeSecond);
    probe = probe.probe_name_collision(NameEvent::Second(SecondName::Exists), UID);
    for event in [
        CleaningEvent::Identity(Ok(first)),
        CleaningEvent::Unlinked(Ok(())),
        CleaningEvent::Synced(Ok(())),
    ] {
        probe = probe.probe_name_collision(NameEvent::Cleaning(event), UID);
    }
    assert!(matches!(probe, NameProbe::Ended(Ok(true))));
}

#[test]
fn linked_worktree_metadata_is_one_plain_file() {
    let file = node(70, REGULAR_TYPE, 0o644);
    assert!(linked_worktree_entry(Ok(file), Ok(file), Ok(false), UID).expect("linked"));
    let names = || Ok(vec![b".git".to_vec()]);
    assert!(linked_worktree_metadata(names(), Ok(true)).expect("metadata"));
    assert!(!linked_worktree_metadata(Ok(vec![]), Ok(true)).expect("no metadata"));
    assert_eq!(
        directory_names(&vec![b".".to_vec(), b"b".to_vec(), b"..".to_vec(), b"a".to_vec()]),
        vec![b"a".to_vec(), b"b".to_vec()]
    );
}

#[test]
fn metadata_is_any_of_its_kinds() {
    assert!(!metadata_present_fd(Ok(false), Ok(false), Ok(false)).expect("none"));
    assert!(metadata_present_fd(Ok(false), Ok(true), Ok(false)).expect("acl"));
    assert!(metadata_present_fd(Ok(false), Err(missing()), Ok(false)).is_err());
    assert!(!has_xattrs_fd(Ok(0)).expect("none"));
    assert!(has_xattrs_fd(Ok(4)).expect("some"));
    assert!(has_xattrs_fd(Err("io".to_owned())).is_err());
    assert_eq!(macos_xattr_names(3, b"ab\0".to_vec()).expect("list"), b"ab\0".to_vec());
    let link = node(80, SYMLINK_TYPE, 0o777);
    let seen = |names: &[u8]| LinkSeen {
        opened: Ok(link),
        entry_flags: false,
        first_flags: Ok(false),
        names: Ok(names.to_vec()),
        reopened: Ok(link),
        final_flags: Ok(false),
        entry_again: Ok((link, false)),
    };
    assert!(!link_metadata_present(link, seen(b"")).expect("none"));
    assert!(link_metadata_present(link, seen(b"user.note\0")).expect("note"));
}

#[test]
fn removals_unlink_what_they_saw() {
    let root = node(90, DIRECTORY_TYPE, 0o700);
    let file = node(91, REGULAR_TYPE, 0o600);
    let mut removal = TreeRemoval::start(Tree::Private, root, UID);
    for (action, event) in [
        (RemovalAction::StatRoot, RemovalEvent::Identity(Ok(root))),
        (RemovalAction::OpenRoot, RemovalEvent::Identity(Ok(root))),
        (
            RemovalAction::EnterDirectory,
            RemovalEvent::Directory(Ok(root), Ok(vec![b"f".to_vec()])),
        ),
        (RemovalAction::StatEntry, RemovalEvent::Identity(Ok(file))),
        (RemovalAction::StatEntry, RemovalEvent::Identity(Ok(file))),
        (RemovalAction::UnlinkEntry, RemovalEvent::Done(Ok(()))),
        (RemovalAction::SyncDirectory, RemovalEvent::Done(Ok(()))),
        (RemovalAction::StatRoot, RemovalEvent::Identity(Ok(root))),
        (RemovalAction::RemoveRoot, RemovalEvent::Done(Ok(()))),
        (RemovalAction::SyncParent, RemovalEvent::Done(Ok(()))),
    ] {
        assert_eq!(removal.action(), action);
        removal = removal.answer(event);
    }
    assert!(removal.outcome().expect("ended").is_ok());
}

#[test]
fn removals_stop_at_what_drifted() {
    let root = node(90, DIRECTORY_TYPE, 0o700);
    let removal = TreeRemoval::start(Tree::Private, root, UID)
        .answer(RemovalEvent::Identity(Ok(node(92, DIRECTORY_TYPE, 0o700))));
    let error = removal.outcome().expect("ended").expect_err("another root");
    assert_eq!(error.code, "STORAGE_RECOVERY_REQUIRED");
    let mut removal = TreeRemoval::start(Tree::Private, root, UID);
    for event in [
        RemovalEvent::Identity(Ok(root)),
        RemovalEvent::Identity(Ok(root)),
        RemovalEvent::Directory(Ok(root), Ok(vec![b"f".to_vec()])),
        RemovalEvent::Identity(Ok(Identity { dev: 2, ..node(91, REGULAR_TYPE, 0o600) })),
    ] {
        removal = removal.answer(event);
    }
    assert_eq!(
        removal.outcome().expect("ended").expect_err("other volume").detail,
        "owned tree entry drifted during cleanup"
    );
}

#[test]
fn directories_are_synced_behind_their_entries() {
    let file = node(91, REGULAR_TYPE, 0o600);
    let directory = node(92, DIRECTORY_TYPE, 0o700);
    let mut sync = TreeSync::start();
    for (action, event) in [
        (SyncAction::List, SyncEvent::Names(Ok(vec![b"d".to_vec()]))),
        (SyncAction::Stat, SyncEvent::Identity(Ok(directory))),
        (SyncAction::OpenDirectory, SyncEvent::Opened(Ok(directory))),
        (SyncAction::List, SyncEvent::Names(Ok(vec![b"f".to_vec()]))),
        (SyncAction::Stat, SyncEvent::Identity(Ok(file))),
        (SyncAction::OpenFile, SyncEvent::FileOpened(Ok(Ok(file)))),
        (SyncAction::SyncFile, SyncEvent::Synced(Ok(()))),
        (SyncAction::SyncDirectory, SyncEvent::Synced(Ok(()))),
        (SyncAction::SyncDirectory, SyncEvent::Synced(Ok(()))),
    ] {
        assert_eq!(sync.action(), action);
        sync = sync.sync_tree(event);
    }
    assert!(sync.outcome().expect("ended").is_ok());
}
