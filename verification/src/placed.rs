//! How bytes are taken apart and put together: pieces between separators, lines of Git's answers, paths
//! and the places of shared data.

use crate::bytes::{first_index, split_at_each, utf8};
use crate::paths::{components, counted, counts, same_path_spec};
use crate::session_git::{
    single_line, target_fields, target_output_failure, AlternateWritten,
};
use crate::storage::{extents_prove_shared, lowered, shared_pair, Extent};
use crate::walk::path_under;
use vstd::prelude::*;

verus! {

/// Pieces put together, with a separator between each two.
pub open spec fn pieced(pieces: Seq<Seq<u8>>, separator: u8) -> Seq<u8>
    decreases pieces.len(),
{
    if pieces.len() == 0 {
        Seq::empty()
    } else if pieces.len() == 1 {
        pieces[0]
    } else {
        pieces[0] + seq![separator] + pieced(pieces.skip(1), separator)
    }
}

proof fn lemma_first_index_is_first(bytes: Seq<u8>, byte: u8)
    ensures
        0 <= first_index(bytes, byte) <= bytes.len(),
        forall|k: int| 0 <= k < first_index(bytes, byte) ==> bytes[k] != byte,
        first_index(bytes, byte) < bytes.len() ==> bytes[first_index(bytes, byte)] == byte,
    decreases bytes.len(),
{
    if bytes.len() > 0 && bytes[0] != byte {
        let rest = bytes.subrange(1, bytes.len() as int);
        lemma_first_index_is_first(rest, byte);
        assert forall|k: int| 0 <= k < first_index(bytes, byte) implies bytes[k] != byte by {
            if k > 0 {
                assert(rest[k - 1] == bytes[k]);
            }
        }
    }
}

/// Bytes are taken apart at every separator and nowhere else: the pieces put together again are the
/// bytes, no piece holds a separator, and there is always a piece.
pub proof fn law_pieces_make_the_whole(bytes: Seq<u8>, separator: u8)
    ensures
        pieced(split_at_each(bytes, separator), separator) == bytes,
        split_at_each(bytes, separator).len() > 0,
        forall|i: int|
            0 <= i < split_at_each(bytes, separator).len() ==> !(#[trigger] split_at_each(
                bytes,
                separator,
            )[i]).contains(separator),
    decreases bytes.len(),
{
    let at = first_index(bytes, separator);
    lemma_first_index_is_first(bytes, separator);
    let pieces = split_at_each(bytes, separator);
    if at < bytes.len() {
        let rest = bytes.subrange(at + 1, bytes.len() as int);
        let tail = split_at_each(rest, separator);
        law_pieces_make_the_whole(rest, separator);
        assert(pieces == seq![bytes.subrange(0, at)] + tail);
        assert(pieces.skip(1) =~= tail);
        assert(bytes =~= bytes.subrange(0, at) + seq![separator] + rest);
        assert forall|i: int| 0 <= i < pieces.len() implies !(#[trigger] pieces[i]).contains(
            separator,
        ) by {
            if i > 0 {
                assert(pieces[i] == tail[i - 1]);
            }
        }
    }
}

/// Where Git shows what a branch points at, it shows one line: the branch, the commit, the word that it
/// is a commit, and nothing behind that. Nothing at all is shown of a branch that does not exist.
pub proof fn law_shown_branches_are_commits(
    output: Seq<u8>,
    reference: Seq<u8>,
    format: Seq<char>,
)
    requires
        target_output_failure(output, reference, format) is None,
        output.len() > 0,
    ensures
        single_line(output) matches Some(line) && output == reference + seq![32u8] + target_fields(
            line,
        )[1] + seq![32u8] + utf8("commit"@) + seq![32u8, 10u8],
{
    let line = single_line(output)->0;
    let fields = target_fields(line);
    law_pieces_make_the_whole(line, 32);
    assert(fields.skip(1).skip(1).skip(1)[0] == fields[3]);
    assert(fields.skip(1).skip(1)[0] == fields[2]);
    assert(fields.skip(1)[0] == fields[1]);
    assert(pieced(fields.skip(1).skip(1).skip(1), 32) == fields[3]);
    assert(pieced(fields.skip(1).skip(1), 32) == fields[2] + seq![32u8] + fields[3]);
    assert(pieced(fields.skip(1), 32) == fields[1] + seq![32u8] + (fields[2] + seq![32u8]
        + fields[3]));
    assert(output =~= line + seq![10u8]) by {
        assert(output.subrange(output.len() - 1, output.len() as int)[0] == output.last());
    }
    assert(output =~= reference + seq![32u8] + fields[1] + seq![32u8] + utf8("commit"@)
        + seq![32u8, 10u8]);
}

/// Lower case changes the letters from A to Z and nothing else, and changes them once.
pub proof fn law_lower_case_changes_only_letters(bytes: Seq<u8>, i: int)
    requires
        0 <= i < bytes.len(),
    ensures
        lowered(bytes).len() == bytes.len(),
        65 <= bytes[i] <= 90 ==> lowered(bytes)[i] == bytes[i] + 32,
        !(65 <= bytes[i] <= 90) ==> lowered(bytes)[i] == bytes[i],
        lowered(lowered(bytes)) == lowered(bytes),
{
    assert(lowered(lowered(bytes)) =~= lowered(bytes));
}

/// Extents prove sharing only where each is plainly placed and marked as shared in both files, and only
/// the last of each is marked as the last.
pub proof fn law_shared_extents_are_plain(
    size: u64,
    left: Seq<Extent>,
    right: Seq<Extent>,
    i: int,
)
    requires
        extents_prove_shared(size, left, right),
        0 <= i < left.len(),
    ensures
        left.len() == right.len(),
        left.len() <= 32,
        left[i].logical == right[i].logical,
        left[i].physical == right[i].physical,
        left[i].length == right[i].length,
        left[i].length > 0,
        left[i].flags & 0x0f8e == 0 && right[i].flags & 0x0f8e == 0,
        left[i].flags & 0x2000 != 0 && right[i].flags & 0x2000 != 0,
        left[i].flags & 0x1 != 0 <==> i + 1 == left.len(),
        right[i].flags & 0x1 != 0 <==> i + 1 == right.len(),
{
    assert(shared_pair(left, right, i));
}

/// The path of an entry below a directory of a tree: the names, with one separator between each two.
pub proof fn law_tree_paths_are_joined(prefix: Seq<u8>, name: Seq<u8>)
    ensures
        path_under(Seq::empty(), name) == name,
        prefix.len() > 0 ==> path_under(prefix, name) == prefix + seq![47u8] + name,
{
    if prefix.len() > 0 {
        assert(path_under(prefix, name) =~= prefix + seq![47u8] + name);
    }
}

/// The note of whose objects are borrowed is written only where it was created, written and synced in
/// its place.
pub proof fn law_alternates_are_written_whole(written: AlternateWritten)
    ensures
        written.write_failure() is None <==> written.objects is Ok && written.info is Ok
            && written.created is Ok && written.written is Ok && written.synced is Ok,
{
}

proof fn lemma_counted_push(pieces: Seq<Seq<u8>>, piece: Seq<u8>)
    ensures
        counted(pieces.push(piece)) == if counts(piece) {
            counted(pieces).push(piece)
        } else {
            counted(pieces)
        },
{
    assert(pieces.push(piece).drop_last() =~= pieces);
}

proof fn lemma_split_push(bytes: Seq<u8>, separator: u8)
    ensures
        split_at_each(bytes.push(separator), separator) == split_at_each(bytes, separator).push(
            Seq::empty(),
        ),
    decreases bytes.len(),
{
    let more = bytes.push(separator);
    let at = first_index(bytes, separator);
    lemma_first_index_is_first(bytes, separator);
    lemma_first_index_is_first(more, separator);
    let there = first_index(more, separator);
    assert(there == at) by {
        if there < at {
            assert(more[there] == bytes[there]);
        }
        if at < there {
            assert(more[at] == separator);
        }
    }
    if at < bytes.len() {
        let rest = bytes.subrange(at + 1, bytes.len() as int);
        assert(more.subrange(at + 1, more.len() as int) =~= rest.push(separator));
        assert(more.subrange(0, at) =~= bytes.subrange(0, at));
        lemma_split_push(rest, separator);
        assert(split_at_each(more, separator) =~= split_at_each(bytes, separator).push(
            Seq::<u8>::empty(),
        ));
    } else {
        assert(more.subrange(at + 1, more.len() as int) =~= Seq::<u8>::empty());
        assert(more.subrange(0, at) =~= bytes);
        assert(split_at_each(Seq::<u8>::empty(), separator) == seq![Seq::<u8>::empty()]);
        assert(split_at_each(more, separator) =~= split_at_each(bytes, separator).push(
            Seq::<u8>::empty(),
        ));
    }
}

/// A separator at the end of a path changes nothing of what the path names, and neither does another
/// one behind it; two paths that name the same are each the same as themselves, in either order, and
/// an absolute path never names what a relative one does.
pub proof fn law_trailing_separators_do_not_count(path: Seq<u8>, other: Seq<u8>)
    requires
        path.len() > 0,
    ensures
        same_path_spec(path, path),
        components(path.push(47)) == components(path),
        same_path_spec(path, path.push(47)),
        same_path_spec(path, other) == same_path_spec(other, path),
        other.len() > 0 && (path[0] == 47) != (other[0] == 47) ==> !same_path_spec(path, other),
{
    lemma_split_push(path, 47);
    lemma_counted_push(split_at_each(path, 47), Seq::empty());
    law_pieces_make_the_whole(path, 47);
    assert(split_at_each(path.push(47), 47)[0] == split_at_each(path, 47)[0]);
}

} // verus!
