//! Which trees may be sealed, verified and cloned, and which files of theirs.

use crate::authority::{Error, Failure, Identity, SYMLINK_TYPE};
use crate::bytes::utf8;
use crate::cow::{
    cloned_regular_failure, link_metadata, linked_entry, proper_names, seal_failure, verify_failure,
    worktree_plan_failure, LinkSeen, Walked,
};
use crate::maintenance::MaintainView;
use crate::rooted::{is_one_node, is_with_mode, saw_volume};
use crate::storage::{ManifestReceipt, SealedView};
use crate::walk::{link_cloned_failure, LinkCloned, Walk};
use vstd::prelude::*;

verus! {

/// A regular file of the user with one name, of one of two modes.
pub open spec fn is_file_with(identity: Identity, uid: u32, plain: u32, program: u32) -> bool {
    identity.is_regular() && identity.uid == uid && identity.nlink == 1 && (identity.mode == plain
        || identity.mode == program)
}

/// A tree is sealed out of private directories and left sealed; a sealed one is verified and cloned; and
/// a worktree is walked as it is. A file counts with the mode that it has when it is sealed.
pub proof fn law_walks_take_what_they_are_for(identity: Identity, uid: u32)
    ensures
        Walk::Seal.takes_directory(identity, uid) <==> is_with_mode(identity, uid, 0o700),
        Walk::Verify.takes_directory(identity, uid) <==> is_with_mode(identity, uid, 0o555),
        Walk::Clone.takes_directory(identity, uid) <==> is_with_mode(identity, uid, 0o555),
        Walk::Worktree.takes_directory(identity, uid) <==> is_with_mode(identity, uid, 0o755),
        Walk::Seal.leaves_directory(identity, uid) <==> is_with_mode(identity, uid, 0o555),
        Walk::Verify.leaves_directory(identity, uid) <==> is_with_mode(identity, uid, 0o555),
        Walk::Clone.leaves_directory(identity, uid) <==> is_with_mode(identity, uid, 0o555),
        Walk::Worktree.leaves_directory(identity, uid) <==> is_with_mode(identity, uid, 0o755),
        Walk::Seal.takes_regular(identity, uid) <==> is_file_with(identity, uid, 0o444, 0o555),
        Walk::Verify.takes_regular(identity, uid) <==> is_file_with(identity, uid, 0o444, 0o555),
        Walk::Clone.takes_regular(identity, uid) <==> is_file_with(identity, uid, 0o444, 0o555),
        Walk::Worktree.takes_regular(identity, uid) <==> is_file_with(identity, uid, 0o644, 0o755),
        Walk::Worktree.hashed_mode(0o644) == 0o444,
        Walk::Worktree.hashed_mode(0o755) == 0o555,
        Walk::Seal.hashed_mode(identity.mode) == identity.mode,
        Walk::Verify.hashed_mode(identity.mode) == identity.mode,
        Walk::Clone.hashed_mode(identity.mode) == identity.mode,
{
}

/// A cloned file stands in a worktree only as a file of its own beside its source, the user's, with one
/// name and no metadata, writable where its source was sealed.
pub proof fn law_cloned_files_are_their_own(
    entry: Result<Identity, Error>,
    metadata: Result<bool, Error>,
    source: Identity,
    uid: u32,
)
    requires
        source.mode == 0o444 || source.mode == 0o555,
    ensures
        cloned_regular_failure(entry, metadata, source, uid) is None <==> {
            &&& entry matches Ok(entry) && entry.dev == source.dev && entry.ino != source.ino
                && entry.uid == uid && entry.nlink == 1 && entry.is_regular() && (source.mode == 0o444
                ==> entry.mode == 0o644) && (source.mode == 0o555 ==> entry.mode == 0o755)
            &&& metadata matches Ok(present) && !present
        },
{
}

/// A cloned link is a link to the same target, without metadata.
pub proof fn law_cloned_links_keep_their_target(cloned: LinkCloned, target: Seq<u8>)
    ensures
        link_cloned_failure(cloned, target) is None <==> {
            &&& cloned.made is Ok
            &&& cloned.identity matches Ok(identity) && identity.kind == SYMLINK_TYPE
            &&& cloned.metadata matches Ok(present) && !present
            &&& cloned.target matches Ok(read) && read@ == target
        },
{
}

/// A link counts as free of metadata only where it was the same link throughout, carried no flags, and
/// no attributes but the one that the system puts on everything.
pub proof fn law_bare_links_carry_nothing(expected: Identity, seen: LinkSeen)
    requires
        link_metadata(expected, seen) == Ok::<bool, Failure>(false),
    ensures
        seen.opened matches Ok(opened) && opened == expected,
        seen.reopened matches Ok(reopened) && reopened == expected,
        seen.entry_again matches Ok(again) && again.0 == expected && !again.1,
        !seen.entry_flags,
        seen.first_flags matches Ok(flags) && !flags,
        seen.final_flags matches Ok(flags) && !flags,
        seen.names matches Ok(names) && (names@.len() == 0 || names@ == utf8(
            "com.apple.provenance\0"@,
        )),
{
}

/// A worktree counts as linked only by a file that is the user's alone, opened as the file that was
/// seen, and without metadata.
pub proof fn law_linked_worktrees_have_a_private_file(
    entry: Result<Identity, Error>,
    opened: Result<Identity, Error>,
    metadata: Result<bool, Error>,
    uid: u32,
)
    ensures
        linked_entry(entry, opened, metadata, uid) == Ok::<bool, Failure>(true) <==> {
            &&& entry matches Ok(entry) && entry.is_regular() && entry.uid == uid && entry.nlink == 1
                && entry.mode & 0o022 == 0 && (opened matches Ok(opened) && opened == entry)
            &&& metadata matches Ok(present) && !present
        },
{
}

/// A tree is sealed only where the walk counted the entries of the listing and left the root sealed.
pub proof fn law_sealed_trees_have_every_entry(
    manifest: ManifestReceipt,
    walked: Walked,
    root: Result<Identity, Error>,
    volume: Result<String, Error>,
    uid: u32,
)
    requires
        seal_failure(manifest, walked, root, volume, uid) is None,
    ensures
        walked matches Ok((_, entries)) && entries == manifest.entries,
        root matches Ok(root) && is_with_mode(root, uid, 0o555),
        volume is Ok,
{
}

/// A sealed tree is what its receipt says only with the same root, on the same volume, with the same
/// entries and the same content.
pub proof fn law_verified_trees_are_unchanged(
    expected: SealedView,
    walked: Walked,
    root: Result<Identity, Error>,
    volume: Result<String, Error>,
)
    requires
        verify_failure(expected, walked, root, volume) is None,
    ensures
        walked matches Ok((digest, entries)) && entries == expected.entries && digest@
            == expected.content_digest,
        root matches Ok(root) && root.is_directory() && is_one_node(root, expected.root),
        saw_volume(volume, expected.volume),
{
}

/// A worktree is walked only as the directory of its receipt, the user's and writable, on the volume of
/// what it was cloned from, and linked.
pub proof fn law_walked_worktrees_are_the_recorded_ones(
    expected: (SealedView, Identity),
    root: Result<Identity, Error>,
    volume: Result<String, Error>,
    linked: Result<bool, Error>,
    uid: u32,
)
    requires
        worktree_plan_failure(expected, root, volume, linked, uid) is None,
    ensures
        root matches Ok(root) && is_one_node(root, expected.1) && is_with_mode(root, uid, 0o755),
        saw_volume(volume, expected.0.volume),
        linked matches Ok(linked) && linked,
{
}

/// The names of a directory are all that are read of it but for itself and its parent.
pub proof fn law_proper_names_are_all_but_two(names: Seq<Seq<u8>>, name: Seq<u8>)
    ensures
        proper_names(names).contains(name) <==> names.contains(name) && name != utf8("."@) && name
            != utf8(".."@),
    decreases names.len(),
{
    if names.len() > 0 {
        let shorter = names.drop_last();
        let before = proper_names(shorter);
        let after = proper_names(names);
        law_proper_names_are_all_but_two(shorter, name);
        assert(names[names.len() - 1] == names.last());
        if after.contains(name) {
            let k = choose|k: int| 0 <= k < after.len() && after[k] == name;
            if k < before.len() {
                assert(before[k] == name);
                assert(before.contains(name));
                let i = choose|i: int| 0 <= i < shorter.len() && shorter[i] == name;
                assert(names[i] == name);
            }
        }
        if names.contains(name) && name != utf8("."@) && name != utf8(".."@) {
            let i = choose|i: int| 0 <= i < names.len() && names[i] == name;
            if i < shorter.len() {
                assert(shorter[i] == name);
                assert(shorter.contains(name));
                let k = choose|k: int| 0 <= k < before.len() && before[k] == name;
                assert(after[k] == name);
            } else {
                assert(after[before.len() as int] == name);
            }
        }
    }
}

/// Maintenance ends well exactly where its report was written and asks for no recovery; each of the two
/// commands has its own word for the other end.
pub proof fn law_maintenance_ends_by_its_report(maintain: MaintainView, written: Result<(), Error>)
    ensures
        maintain.finish(written) is None <==> written is Ok && !maintain.report.recovery_required,
        written matches Err(error) ==> maintain.finish(written) == Some(error@),
        written is Ok && maintain.report.recovery_required && maintain.cleanup ==> (
        maintain.finish(written) matches Some(failed) && failed.0 == "GC_RECOVERY_REQUIRED"@),
        written is Ok && maintain.report.recovery_required && !maintain.cleanup ==> (
        maintain.finish(written) matches Some(failed) && failed.0 == "DOCTOR_RECOVERY_REQUIRED"@),
{
}

} // verus!
