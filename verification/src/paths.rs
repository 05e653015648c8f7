//! Paths as byte strings: absoluteness, joining, and the equality that looks at components.

use crate::bytes::{append, copy_bytes, same_bytes, split, split_at_each, views};
use vstd::prelude::*;
use vstd::slice::slice_to_vec;

verus! {

pub open spec fn is_absolute_path(path: Seq<u8>) -> bool {
    path.len() > 0 && path[0] == 47
}

/// The path of `name` below `base`: an absolute name stands for itself, and one separator stands
/// between the two.
pub open spec fn joined(base: Seq<u8>, name: Seq<u8>) -> Seq<u8> {
    if is_absolute_path(name) {
        name
    } else if base.len() == 0 || base.last() == 47 {
        base + name
    } else {
        base.push(47) + name
    }
}

/// A component that counts: neither empty nor the current directory.
pub open spec fn counts(piece: Seq<u8>) -> bool {
    piece.len() > 0 && piece != seq![46u8]
}

/// The pieces that count, in their order.
pub open spec fn counted(pieces: Seq<Seq<u8>>) -> Seq<Seq<u8>>
    decreases pieces.len(),
{
    if pieces.len() == 0 {
        Seq::empty()
    } else if counts(pieces.last()) {
        counted(pieces.drop_last()).push(pieces.last())
    } else {
        counted(pieces.drop_last())
    }
}

/// The components of a path: repeated separators, a trailing one and inner current-directory marks
/// do not count.
pub open spec fn components(path: Seq<u8>) -> Seq<Seq<u8>> {
    counted(split_at_each(path, 47))
}

/// A relative path that starts at an explicit current directory.
pub open spec fn starts_at_dot(path: Seq<u8>) -> bool {
    split_at_each(path, 47)[0] == seq![46u8]
}

/// Two paths that name the same thing component by component.
pub open spec fn same_path_spec(left: Seq<u8>, right: Seq<u8>) -> bool {
    &&& is_absolute_path(left) == is_absolute_path(right)
    &&& starts_at_dot(left) == starts_at_dot(right)
    &&& components(left) == components(right)
}

pub fn is_absolute(path: &[u8]) -> (absolute: bool)
    ensures
        absolute == is_absolute_path(path@),
{
    path.len() > 0 && path[0] == 47
}

pub fn join(base: &[u8], name: &[u8]) -> (path: Vec<u8>)
    ensures
        path@ == joined(base@, name@),
{
    if is_absolute(name) {
        return slice_to_vec(name);
    }
    let mut path = slice_to_vec(base);
    if base.len() > 0 && base[base.len() - 1] != 47 {
        path.push(47);
    }
    append(&mut path, name);
    path
}

fn is_counted(piece: &Vec<u8>) -> (is: bool)
    ensures
        is == counts(piece@),
{
    let is: bool = piece.len() > 0 && !(piece.len() == 1 && piece[0] == 46);
    proof {
        if piece@.len() == 1 && piece@[0] == 46 {
            assert(piece@ =~= seq![46u8]);
        }
    }
    is
}

fn counted_pieces(pieces: &Vec<Vec<u8>>) -> (kept: Vec<Vec<u8>>)
    ensures
        views(kept@) == counted(views(pieces@)),
{
    let mut kept: Vec<Vec<u8>> = Vec::new();
    let mut i: usize = 0;
    proof {
        assert(views(kept@) =~= Seq::<Seq<u8>>::empty());
        assert(views(pieces@).subrange(0, 0) =~= Seq::<Seq<u8>>::empty());
    }
    while i < pieces.len()
        invariant
            i <= pieces@.len(),
            views(kept@) == counted(views(pieces@).subrange(0, i as int)),
        decreases pieces@.len() - i,
    {
        let ghost before = kept@;
        if is_counted(&pieces[i]) {
            kept.push(copy_bytes(pieces[i].as_slice()));
        }
        i += 1;
        proof {
            let done = views(pieces@).subrange(0, i as int);
            assert(done.drop_last() =~= views(pieces@).subrange(0, i - 1));
            assert(done.last() == pieces@[i - 1]@);
            if counts(done.last()) {
                assert(views(kept@) =~= views(before).push(done.last()));
            }
        }
    }
    proof {
        assert(views(pieces@).subrange(0, i as int) =~= views(pieces@));
    }
    kept
}

pub fn same_lists(left: &Vec<Vec<u8>>, right: &Vec<Vec<u8>>) -> (same: bool)
    ensures
        same == (views(left@) == views(right@)),
{
    if left.len() != right.len() {
        proof {
            assert(views(left@).len() != views(right@).len());
        }
        return false;
    }
    let mut i: usize = 0;
    while i < left.len()
        invariant
            left@.len() == right@.len(),
            i <= left@.len(),
            forall|k: int| 0 <= k < i ==> left@[k]@ == right@[k]@,
        decreases left@.len() - i,
    {
        if !same_bytes(left[i].as_slice(), right[i].as_slice()) {
            proof {
                assert(views(left@)[i as int] != views(right@)[i as int]);
            }
            return false;
        }
        i += 1;
    }
    proof {
        assert(views(left@) =~= views(right@));
    }
    true
}

fn starts_with_dot(pieces: &Vec<Vec<u8>>) -> (is: bool)
    requires
        pieces@.len() >= 1,
    ensures
        is == (views(pieces@)[0] == seq![46u8]),
{
    let is: bool = pieces[0].len() == 1 && pieces[0][0] == 46;
    proof {
        if pieces@[0]@.len() == 1 && pieces@[0]@[0] == 46 {
            assert(pieces@[0]@ =~= seq![46u8]);
        }
    }
    is
}

pub fn same_path(left: &[u8], right: &[u8]) -> (same: bool)
    ensures
        same == same_path_spec(left@, right@),
{
    let left_pieces = split(left, 47);
    let right_pieces = split(right, 47);
    is_absolute(left) == is_absolute(right) && starts_with_dot(&left_pieces) == starts_with_dot(
        &right_pieces,
    ) && same_lists(&counted_pieces(&left_pieces), &counted_pieces(&right_pieces))
}

} // verus!
