//! The order of byte strings and of rows of them, and sorting by it.

use crate::bytes::{copy_bytes, same_bytes, views};
use crate::notation::{big_endian, lemma_big_endian, pow256};
use vstd::prelude::*;

verus! {

/// Byte strings in dictionary order.
pub open spec fn bytes_before(left: Seq<u8>, right: Seq<u8>) -> bool
    decreases left.len(),
{
    if right.len() == 0 {
        false
    } else if left.len() == 0 {
        true
    } else if left[0] != right[0] {
        left[0] < right[0]
    } else {
        bytes_before(
            left.subrange(1, left.len() as int),
            right.subrange(1, right.len() as int),
        )
    }
}

/// Rows of byte strings in dictionary order.
pub open spec fn row_before(left: Seq<Seq<u8>>, right: Seq<Seq<u8>>) -> bool
    decreases left.len(),
{
    if right.len() == 0 {
        false
    } else if left.len() == 0 {
        true
    } else if left[0] != right[0] {
        bytes_before(left[0], right[0])
    } else {
        row_before(left.subrange(1, left.len() as int), right.subrange(1, right.len() as int))
    }
}

pub proof fn lemma_bytes_before_irreflexive(bytes: Seq<u8>)
    ensures
        !bytes_before(bytes, bytes),
    decreases bytes.len(),
{
    if bytes.len() > 0 {
        lemma_bytes_before_irreflexive(bytes.subrange(1, bytes.len() as int));
    }
}

pub proof fn lemma_bytes_before_total(left: Seq<u8>, right: Seq<u8>)
    ensures
        left == right || bytes_before(left, right) || bytes_before(right, left),
    decreases left.len(),
{
    if left.len() == 0 || right.len() == 0 {
        if left.len() == 0 && right.len() == 0 {
            assert(left =~= right);
        }
    } else if left[0] == right[0] {
        let l = left.subrange(1, left.len() as int);
        let r = right.subrange(1, right.len() as int);
        lemma_bytes_before_total(l, r);
        if l == r {
            assert(left =~= seq![left[0]] + l);
            assert(right =~= seq![right[0]] + r);
        }
    }
}

pub proof fn lemma_bytes_before_transitive(first: Seq<u8>, second: Seq<u8>, third: Seq<u8>)
    requires
        bytes_before(first, second),
        bytes_before(second, third),
    ensures
        bytes_before(first, third),
    decreases first.len(),
{
    if first.len() > 0 && second.len() > 0 && third.len() > 0 {
        if first[0] == second[0] && second[0] == third[0] {
            lemma_bytes_before_transitive(
                first.subrange(1, first.len() as int),
                second.subrange(1, second.len() as int),
                third.subrange(1, third.len() as int),
            );
        }
    }
}

pub proof fn lemma_row_before_irreflexive(row: Seq<Seq<u8>>)
    ensures
        !row_before(row, row),
    decreases row.len(),
{
    if row.len() > 0 {
        lemma_row_before_irreflexive(row.subrange(1, row.len() as int));
    }
}

pub proof fn lemma_row_before_total(left: Seq<Seq<u8>>, right: Seq<Seq<u8>>)
    ensures
        left == right || row_before(left, right) || row_before(right, left),
    decreases left.len(),
{
    if left.len() == 0 || right.len() == 0 {
        if left.len() == 0 && right.len() == 0 {
            assert(left =~= right);
        }
    } else if left[0] == right[0] {
        let l = left.subrange(1, left.len() as int);
        let r = right.subrange(1, right.len() as int);
        lemma_row_before_total(l, r);
        if l == r {
            assert(left =~= seq![left[0]] + l);
            assert(right =~= seq![right[0]] + r);
        }
    } else {
        lemma_bytes_before_total(left[0], right[0]);
    }
}

pub proof fn lemma_row_before_transitive(
    first: Seq<Seq<u8>>,
    second: Seq<Seq<u8>>,
    third: Seq<Seq<u8>>,
)
    requires
        row_before(first, second),
        row_before(second, third),
    ensures
        row_before(first, third),
    decreases first.len(),
{
    if first.len() > 0 && second.len() > 0 && third.len() > 0 {
        if first[0] == second[0] {
            if second[0] == third[0] {
                lemma_row_before_transitive(
                    first.subrange(1, first.len() as int),
                    second.subrange(1, second.len() as int),
                    third.subrange(1, third.len() as int),
                );
            }
        } else if second[0] != third[0] {
            lemma_bytes_before_transitive(first[0], second[0], third[0]);
            if first[0] == third[0] {
                lemma_bytes_before_irreflexive(first[0]);
            }
        }
    }
}

/// Whether `left` comes before `right`.
pub fn is_before(left: &[u8], right: &[u8]) -> (before: bool)
    ensures
        before == bytes_before(left@, right@),
{
    let mut i: usize = 0;
    proof {
        assert(left@.subrange(0, left@.len() as int) =~= left@);
        assert(right@.subrange(0, right@.len() as int) =~= right@);
    }
    while i < left.len() && i < right.len()
        invariant
            i <= left@.len(),
            i <= right@.len(),
            bytes_before(left@, right@) == bytes_before(
                left@.subrange(i as int, left@.len() as int),
                right@.subrange(i as int, right@.len() as int),
            ),
        decreases left@.len() - i,
    {
        let ghost l = left@.subrange(i as int, left@.len() as int);
        let ghost r = right@.subrange(i as int, right@.len() as int);
        proof {
            assert(l[0] == left@[i as int]);
            assert(r[0] == right@[i as int]);
            assert(l.subrange(1, l.len() as int) =~= left@.subrange(i + 1, left@.len() as int));
            assert(r.subrange(1, r.len() as int) =~= right@.subrange(i + 1, right@.len() as int));
        }
        if left[i] != right[i] {
            return left[i] < right[i];
        }
        i += 1;
    }
    i < right.len()
}

/// A row of byte strings by which something is ordered.
pub struct SortKey {
    pub parts: Vec<Vec<u8>>,
}

impl View for SortKey {
    type V = Seq<Seq<u8>>;

    open spec fn view(&self) -> Seq<Seq<u8>> {
        views(self.parts@)
    }
}

fn row_is_before(left: &SortKey, right: &SortKey) -> (before: bool)
    ensures
        before == row_before(left@, right@),
{
    let mut i: usize = 0;
    proof {
        assert(left@.subrange(0, left@.len() as int) =~= left@);
        assert(right@.subrange(0, right@.len() as int) =~= right@);
    }
    while i < left.parts.len() && i < right.parts.len()
        invariant
            i <= left@.len(),
            i <= right@.len(),
            left@.len() == left.parts@.len(),
            right@.len() == right.parts@.len(),
            row_before(left@, right@) == row_before(
                left@.subrange(i as int, left@.len() as int),
                right@.subrange(i as int, right@.len() as int),
            ),
        decreases left@.len() - i,
    {
        let ghost l = left@.subrange(i as int, left@.len() as int);
        let ghost r = right@.subrange(i as int, right@.len() as int);
        proof {
            assert(l[0] == left.parts@[i as int]@);
            assert(r[0] == right.parts@[i as int]@);
            assert(l.subrange(1, l.len() as int) =~= left@.subrange(i + 1, left@.len() as int));
            assert(r.subrange(1, r.len() as int) =~= right@.subrange(i + 1, right@.len() as int));
        }
        if !same_bytes(left.parts[i].as_slice(), right.parts[i].as_slice()) {
            return is_before(left.parts[i].as_slice(), right.parts[i].as_slice());
        }
        i += 1;
    }
    i < right.parts.len()
}

/// The keys of a list.
pub open spec fn key_views(keys: Seq<SortKey>) -> Seq<Seq<Seq<u8>>> {
    Seq::new(keys.len(), |i: int| keys[i]@)
}

/// The place `i` of a list comes before the place `j` in sorted order: by key, and among equal keys
/// by place.
pub open spec fn place_before(keys: Seq<Seq<Seq<u8>>>, i: int, j: int) -> bool {
    row_before(keys[i], keys[j]) || (keys[i] == keys[j] && i < j)
}

/// `order` lists every place of the keyed list once, in sorted order.
pub open spec fn is_sorted_order(keys: Seq<Seq<Seq<u8>>>, order: Seq<usize>) -> bool {
    &&& order.len() == keys.len()
    &&& forall|a: int| 0 <= a < order.len() ==> (#[trigger] order[a]) < keys.len()
    &&& forall|a: int, b: int|
        0 <= a < b < order.len() ==> place_before(
            keys,
            #[trigger] order[a] as int,
            #[trigger] order[b] as int,
        )
    &&& forall|place: int| 0 <= place < keys.len() ==> #[trigger] order.contains(place as usize)
}

/// Sorted order is determined: two sorted orders of the same keys are the same.
pub proof fn law_sorted_order_is_unique(
    keys: Seq<Seq<Seq<u8>>>,
    left: Seq<usize>,
    right: Seq<usize>,
)
    requires
        keys.len() <= usize::MAX,
        is_sorted_order(keys, left),
        is_sorted_order(keys, right),
    ensures
        left == right,
{
    assert forall|a: int| 0 <= a < left.len() implies left[a] == right[a] by {
        lemma_same_rank(keys, left, right, a);
    }
    assert(left =~= right);
}

proof fn lemma_place_before_order(keys: Seq<Seq<Seq<u8>>>, i: int, j: int, k: int)
    ensures
        !place_before(keys, i, i),
        place_before(keys, i, j) && place_before(keys, j, k) ==> place_before(keys, i, k),
{
    lemma_row_before_irreflexive(keys[i]);
    if place_before(keys, i, j) && place_before(keys, j, k) {
        if row_before(keys[i], keys[j]) && row_before(keys[j], keys[k]) {
            lemma_row_before_transitive(keys[i], keys[j], keys[k]);
        }
    }
}

proof fn lemma_same_rank(keys: Seq<Seq<Seq<u8>>>, left: Seq<usize>, right: Seq<usize>, a: int)
    requires
        keys.len() <= usize::MAX,
        is_sorted_order(keys, left),
        is_sorted_order(keys, right),
        0 <= a < left.len(),
    ensures
        left[a] == right[a],
    decreases a,
{
    assert forall|b: int| 0 <= b < a implies left[b] == right[b] by {
        lemma_same_rank(keys, left, right, b);
    }
    if left[a] != right[a] {
        // Each of the two must stand behind the other.
        assert(right.contains(left[a] as int as usize));
        assert(left.contains(right[a] as int as usize));
        let p = choose|p: int| 0 <= p < right.len() && right[p] == left[a];
        let q = choose|q: int| 0 <= q < left.len() && left[q] == right[a];
        if p < a {
            assert(left[p] == right[p]);
            assert(place_before(keys, left[p] as int, left[a] as int));
            lemma_place_before_order(keys, left[a] as int, left[a] as int, left[a] as int);
            assert(false);
        }
        if q < a {
            assert(left[q] == right[q]);
            assert(place_before(keys, right[q] as int, right[a] as int));
            lemma_place_before_order(keys, right[a] as int, right[a] as int, right[a] as int);
            assert(false);
        }
        assert(p > a && q > a);
        assert(place_before(keys, right[a] as int, right[p] as int));
        assert(place_before(keys, left[a] as int, left[q] as int));
        lemma_place_before_order(keys, left[a] as int, right[a] as int, left[a] as int);
        assert(false);
    }
}

/// The sorted order of the places of a keyed list.
pub fn sorted_order(keys: &Vec<SortKey>) -> (order: Vec<usize>)
    ensures
        is_sorted_order(key_views(keys@), order@),
{
    let mut order: Vec<usize> = Vec::new();
    let mut i: usize = 0;
    let ghost all = key_views(keys@);
    while i < keys.len()
        invariant
            i <= keys@.len(),
            all == key_views(keys@),
            order@.len() == i,
            forall|a: int| 0 <= a < order@.len() ==> (#[trigger] order@[a]) < i,
            forall|a: int, b: int|
                0 <= a < b < order@.len() ==> place_before(
                    all,
                    #[trigger] order@[a] as int,
                    #[trigger] order@[b] as int,
                ),
            forall|place: int| 0 <= place < i ==> #[trigger] order@.contains(place as usize),
        decreases keys@.len() - i,
    {
        let mut p: usize = order.len();
        while p > 0 && row_is_before(&keys[i], &keys[order[p - 1]])
            invariant
                p <= order@.len(),
                i < keys@.len(),
                all == key_views(keys@),
                order@.len() == i,
                forall|a: int| 0 <= a < order@.len() ==> (#[trigger] order@[a]) < i,
                forall|a: int|
                    p <= a < order@.len() ==> place_before(
                        all,
                        i as int,
                        #[trigger] order@[a] as int,
                    ),
            decreases p,
        {
            p -= 1;
        }
        let ghost before = order@;
        order.insert(p, i);
        proof {
            assert(order@ =~= before.insert(p as int, i));
            assert forall|a: int| 0 <= a < p implies place_before(
                all,
                #[trigger] before[a] as int,
                i as int,
            ) by {
                if p > 0 {
                    let last = before[p - 1] as int;
                    lemma_row_before_total(all[i as int], all[last]);
                    assert(place_before(all, last, i as int));
                    if a < p - 1 {
                        assert(place_before(all, before[a] as int, last));
                        lemma_place_before_order(all, before[a] as int, last, i as int);
                    }
                }
            }
            assert forall|a: int, b: int| 0 <= a < b < order@.len() implies place_before(
                all,
                #[trigger] order@[a] as int,
                #[trigger] order@[b] as int,
            ) by {
                let x = if a < p {
                    a
                } else {
                    a - 1
                };
                let y = if b < p {
                    b
                } else {
                    b - 1
                };
                if a != p {
                    assert(order@[a] == before[x]);
                }
                if b != p {
                    assert(order@[b] == before[y]);
                }
                if a != p && b != p {
                    assert(place_before(all, before[x] as int, before[y] as int));
                }
            }
            assert forall|place: int| 0 <= place < i + 1 implies #[trigger] order@.contains(
                place as usize,
            ) by {
                if place < i {
                    assert(before.contains(place as usize));
                    let a = choose|a: int| 0 <= a < before.len() && before[a] == place as usize;
                    if a < p {
                        assert(order@[a] == place as usize);
                    } else {
                        assert(order@[a + 1] == place as usize);
                    }
                } else {
                    assert(order@[p as int] == i);
                }
            }
        }
        i += 1;
    }
    order
}

/// `sorted` holds what `items` holds, in the order of the keys; among equal keys, what came first stays
/// first.
pub open spec fn is_arranged<T>(items: Seq<T>, keys: Seq<Seq<Seq<u8>>>, sorted: Seq<T>) -> bool {
    exists|order: Seq<usize>|
        is_sorted_order(keys, order) && sorted == Seq::new(
            order.len(),
            |i: int| items[order[i] as int],
        )
}

/// Nothing is lost or added by sorting, and no key stands before a lower one.
pub proof fn law_arranging_sorts<T>(items: Seq<T>, keys: Seq<Seq<Seq<u8>>>, sorted: Seq<T>)
    requires
        items.len() == keys.len(),
        keys.len() <= usize::MAX,
        is_arranged(items, keys, sorted),
    ensures
        sorted.len() == items.len(),
        forall|item: T| #[trigger] sorted.contains(item) <==> items.contains(item),
        exists|places: Seq<usize>|
            is_sorted_order(keys, places) && (forall|i: int, j: int|
                0 <= i < j < sorted.len() ==> sorted[i] == items[#[trigger] places[i] as int]
                    && sorted[j] == items[#[trigger] places[j] as int] && !row_before(
                    keys[places[j] as int],
                    keys[places[i] as int],
                )),
{
    let order = choose|order: Seq<usize>|
        is_sorted_order(keys, order) && sorted == Seq::new(
            order.len(),
            |i: int| items[order[i] as int],
        );
    assert forall|item: T| #[trigger] sorted.contains(item) <==> items.contains(item) by {
        if sorted.contains(item) {
            let i = choose|i: int| 0 <= i < sorted.len() && sorted[i] == item;
            assert(order[i] < keys.len());
            assert(items[order[i] as int] == item);
        }
        if items.contains(item) {
            let place = choose|place: int| 0 <= place < items.len() && items[place] == item;
            assert(order.contains(place as usize));
            let i = choose|i: int| 0 <= i < order.len() && order[i] == place as usize;
            assert(sorted[i] == item);
        }
    }
    assert forall|i: int, j: int| 0 <= i < j < sorted.len() implies sorted[i]
        == items[#[trigger] order[i] as int] && sorted[j] == items[#[trigger] order[j] as int]
        && !row_before(keys[order[j] as int], keys[order[i] as int]) by {
        let x = order[i] as int;
        let y = order[j] as int;
        assert(place_before(keys, x, y));
        if row_before(keys[y], keys[x]) {
            if row_before(keys[x], keys[y]) {
                lemma_row_before_transitive(keys[x], keys[y], keys[x]);
            }
            lemma_row_before_irreflexive(keys[x]);
        }
    }
}

proof fn lemma_bytes_before_push(left: Seq<u8>, right: Seq<u8>, x: u8, y: u8)
    requires
        left.len() == right.len(),
    ensures
        bytes_before(left.push(x), right.push(y)) == (bytes_before(left, right) || (left == right
            && x < y)),
    decreases left.len(),
{
    let l = left.push(x);
    let r = right.push(y);
    if left.len() == 0 {
        assert(left =~= right);
        assert(l.subrange(1, 1) =~= Seq::<u8>::empty());
        assert(r.subrange(1, 1) =~= Seq::<u8>::empty());
        assert(!bytes_before(l.subrange(1, 1), r.subrange(1, 1)));
    } else {
        let lt = left.subrange(1, left.len() as int);
        let rt = right.subrange(1, right.len() as int);
        assert(l.subrange(1, l.len() as int) =~= lt.push(x));
        assert(r.subrange(1, r.len() as int) =~= rt.push(y));
        lemma_bytes_before_push(lt, rt, x, y);
        if left[0] == right[0] && lt == rt {
            assert(left =~= seq![left[0]] + lt);
            assert(right =~= seq![right[0]] + rt);
        }
    }
}

/// Numbers written with the high byte first are ordered as the numbers are.
pub proof fn law_numbers_order_as_their_bytes(left: nat, right: nat, width: nat)
    requires
        left < pow256(width),
        right < pow256(width),
    ensures
        bytes_before(big_endian(left, width), big_endian(right, width)) == (left < right),
    decreases width,
{
    if width > 0 {
        let less = (width - 1) as nat;
        law_numbers_order_as_their_bytes(left / 256, right / 256, less);
        lemma_big_endian(left / 256, right / 256, less);
        lemma_big_endian(right / 256, left / 256, less);
        lemma_bytes_before_push(
            big_endian(left / 256, less),
            big_endian(right / 256, less),
            (left % 256) as u8,
            (right % 256) as u8,
        );
    }
}

/// The keys of names.
pub open spec fn name_keys(names: Seq<Seq<u8>>) -> Seq<Seq<Seq<u8>>> {
    Seq::new(names.len(), |i: int| seq![names[i]])
}

/// `sorted` holds the names in dictionary order.
pub open spec fn sorted_names(names: Seq<Seq<u8>>, sorted: Seq<Seq<u8>>) -> bool {
    exists|order: Seq<usize>|
        is_sorted_order(name_keys(names), order) && sorted == Seq::new(
            order.len(),
            |i: int| names[order[i] as int],
        )
}

pub fn sort_names(names: &Vec<Vec<u8>>) -> (sorted: Vec<Vec<u8>>)
    ensures
        sorted_names(views(names@), views(sorted@)),
{
    let mut keys: Vec<SortKey> = Vec::new();
    let mut i: usize = 0;
    while i < names.len()
        invariant
            i <= names@.len(),
            keys@.len() == i,
            forall|k: int| 0 <= k < i ==> (#[trigger] keys@[k])@ == seq![names@[k]@],
        decreases names@.len() - i,
    {
        let parts: Vec<Vec<u8>> = vec![copy_bytes(names[i].as_slice())];
        let key = SortKey { parts };
        proof {
            assert(key@ =~= seq![names@[i as int]@]);
        }
        keys.push(key);
        i += 1;
    }
    proof {
        assert(key_views(keys@) =~= name_keys(views(names@)));
    }
    let order = sorted_order(&keys);
    let mut sorted: Vec<Vec<u8>> = Vec::new();
    let mut i: usize = 0;
    while i < order.len()
        invariant
            i <= order@.len(),
            order@.len() == names@.len(),
            is_sorted_order(name_keys(views(names@)), order@),
            sorted@.len() == i,
            forall|k: int| 0 <= k < i ==> (#[trigger] sorted@[k])@ == names@[order@[k] as int]@,
        decreases order@.len() - i,
    {
        assert(order@[i as int] < name_keys(views(names@)).len());
        sorted.push(copy_bytes(names[order[i]].as_slice()));
        i += 1;
    }
    proof {
        let all = views(names@);
        let target = Seq::new(order@.len(), |k: int| all[order@[k] as int]);
        assert forall|k: int| 0 <= k < target.len() implies views(sorted@)[k] == target[k] by {
            assert(order@[k] < name_keys(all).len());
        }
        assert(views(sorted@) =~= target);
    }
    sorted
}

} // verus!
