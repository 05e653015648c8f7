//! Byte strings and text: comparison, affixes, splitting, and the number notations used in records.

use vstd::prelude::*;
use vstd::slice::slice_subrange;
use vstd::slice::slice_to_vec;
use vstd::string::StringExecFns;
use vstd::utf8::{decode_utf8, encode_utf8, is_ascii_chars, is_ascii_chars_encode_utf8, valid_utf8};

verus! {

/// The UTF-8 bytes of a text.
pub open spec fn utf8(text: Seq<char>) -> Seq<u8> {
    encode_utf8(text)
}

/// Two texts are the same exactly when their UTF-8 bytes are.
pub proof fn lemma_utf8_injective(left: Seq<char>, right: Seq<char>)
    ensures
        utf8(left) == utf8(right) <==> left == right,
{
    vstd::utf8::encode_utf8_decode_utf8(left);
    vstd::utf8::encode_utf8_decode_utf8(right);
}

/// The UTF-8 bytes of two texts put together are their bytes put together.
pub proof fn lemma_utf8_concat(left: Seq<char>, right: Seq<char>)
    ensures
        utf8(left + right) == utf8(left) + utf8(right),
    decreases left.len(),
{
    if left.len() == 0 {
        assert(left + right =~= right);
        assert(utf8(left) =~= Seq::<u8>::empty());
        assert(utf8(left) + utf8(right) =~= utf8(right));
    } else {
        assert((left + right).drop_first() =~= left.drop_first() + right);
        lemma_utf8_concat(left.drop_first(), right);
        let head = vstd::utf8::encode_scalar(left[0] as u32);
        assert(utf8(left) == head + utf8(left.drop_first()));
        assert((left + right)[0] == left[0]);
        assert(utf8(left + right) == head + utf8((left + right).drop_first()));
        assert(utf8(left + right) =~= utf8(left) + utf8(right));
    }
}

/// The bytes of an ASCII text are its characters, one for one.
pub proof fn lemma_utf8_ascii(text: Seq<char>)
    requires
        is_ascii_chars(text),
    ensures
        utf8(text).len() == text.len(),
        forall|i: int| 0 <= i < text.len() ==> #[trigger] utf8(text)[i] == text[i] as u8,
{
    is_ascii_chars_encode_utf8(text);
}

pub fn same_bytes(left: &[u8], right: &[u8]) -> (same: bool)
    ensures
        same == (left@ == right@),
{
    if left.len() != right.len() {
        return false;
    }
    let mut i: usize = 0;
    while i < left.len()
        invariant
            left@.len() == right@.len(),
            i <= left@.len(),
            forall|k: int| 0 <= k < i ==> left@[k] == right@[k],
        decreases left@.len() - i,
    {
        if left[i] != right[i] {
            return false;
        }
        i += 1;
    }
    assert(left@ =~= right@);
    true
}

pub fn same_text(left: &str, right: &str) -> (same: bool)
    ensures
        same == (left@ == right@),
{
    proof {
        lemma_utf8_injective(left@, right@);
    }
    same_bytes(left.as_bytes(), right.as_bytes())
}

/// The view of an optional text.
pub open spec fn optional_view(text: Option<String>) -> Option<Seq<char>> {
    match text {
        Some(value) => Some(value@),
        None => None,
    }
}

pub fn same_optional_text(left: &Option<String>, right: &Option<String>) -> (same: bool)
    ensures
        same == (optional_view(*left) == optional_view(*right)),
{
    match (left, right) {
        (Some(left), Some(right)) => same_text(left.as_str(), right.as_str()),
        (None, None) => true,
        _ => false,
    }
}

pub fn starts_with(bytes: &[u8], prefix: &[u8]) -> (found: bool)
    ensures
        found == prefix@.is_prefix_of(bytes@),
{
    bytes.len() >= prefix.len() && same_bytes(slice_subrange(bytes, 0, prefix.len()), prefix)
}

pub fn ends_with(bytes: &[u8], suffix: &[u8]) -> (found: bool)
    ensures
        found == suffix@.is_suffix_of(bytes@),
{
    bytes.len() >= suffix.len() && same_bytes(
        slice_subrange(bytes, bytes.len() - suffix.len(), bytes.len()),
        suffix,
    )
}

/// What is left of `bytes` behind `prefix`, where it starts with it.
pub open spec fn without_prefix(bytes: Seq<u8>, prefix: Seq<u8>) -> Option<Seq<u8>> {
    if prefix.is_prefix_of(bytes) {
        Some(bytes.subrange(prefix.len() as int, bytes.len() as int))
    } else {
        None
    }
}

/// What is left of `bytes` before `suffix`, where it ends with it.
pub open spec fn without_suffix(bytes: Seq<u8>, suffix: Seq<u8>) -> Option<Seq<u8>> {
    if suffix.is_suffix_of(bytes) {
        Some(bytes.subrange(0, bytes.len() - suffix.len()))
    } else {
        None
    }
}

/// The view of an optional borrowed byte string.
pub open spec fn slice_view(bytes: Option<&[u8]>) -> Option<Seq<u8>> {
    match bytes {
        Some(value) => Some(value@),
        None => None,
    }
}

pub fn strip_prefix<'a>(bytes: &'a [u8], prefix: &[u8]) -> (rest: Option<&'a [u8]>)
    ensures
        slice_view(rest) == without_prefix(bytes@, prefix@),
{
    if starts_with(bytes, prefix) {
        Some(slice_subrange(bytes, prefix.len(), bytes.len()))
    } else {
        None
    }
}

pub fn strip_suffix<'a>(bytes: &'a [u8], suffix: &[u8]) -> (rest: Option<&'a [u8]>)
    ensures
        slice_view(rest) == without_suffix(bytes@, suffix@),
{
    if ends_with(bytes, suffix) {
        Some(slice_subrange(bytes, 0, bytes.len() - suffix.len()))
    } else {
        None
    }
}

/// The first place at which `byte` stands in `bytes`, or its length where it does not.
pub open spec fn first_index(bytes: Seq<u8>, byte: u8) -> int
    decreases bytes.len(),
{
    if bytes.len() == 0 || bytes[0] == byte {
        0
    } else {
        1 + first_index(bytes.subrange(1, bytes.len() as int), byte)
    }
}

/// The first place is the place where `byte` stands with none before it.
pub proof fn lemma_first_index(bytes: Seq<u8>, byte: u8, at: int)
    requires
        0 <= at <= bytes.len(),
        forall|k: int| 0 <= k < at ==> bytes[k] != byte,
        at < bytes.len() ==> bytes[at] == byte,
    ensures
        first_index(bytes, byte) == at,
    decreases bytes.len(),
{
    if at > 0 {
        assert(bytes[0] != byte);
        let rest = bytes.subrange(1, bytes.len() as int);
        assert forall|k: int| 0 <= k < at - 1 implies rest[k] != byte by {
            assert(rest[k] == bytes[k + 1]);
        }
        lemma_first_index(rest, byte, at - 1);
    }
}

pub proof fn lemma_first_index_bounds(bytes: Seq<u8>, byte: u8)
    ensures
        0 <= first_index(bytes, byte) <= bytes.len(),
        first_index(bytes, byte) < bytes.len() ==> bytes[first_index(bytes, byte)] == byte,
        forall|k: int| 0 <= k < first_index(bytes, byte) ==> bytes[k] != byte,
        first_index(bytes, byte) < bytes.len() <==> bytes.contains(byte),
    decreases bytes.len(),
{
    if bytes.len() > 0 && bytes[0] != byte {
        let rest = bytes.subrange(1, bytes.len() as int);
        lemma_first_index_bounds(rest, byte);
        let at = first_index(bytes, byte);
        assert forall|k: int| 0 <= k < at implies bytes[k] != byte by {
            if k > 0 {
                assert(rest[k - 1] == bytes[k]);
            }
        }
        if bytes.contains(byte) {
            let k = choose|k: int| 0 <= k < bytes.len() && bytes[k] == byte;
            assert(k > 0);
            assert(rest[k - 1] == byte);
        }
    }
}

/// Where `byte` first stands in `bytes`; `bytes.len()` where it does not.
pub fn find_byte(bytes: &[u8], byte: u8) -> (at: usize)
    ensures
        at == first_index(bytes@, byte),
        at <= bytes@.len(),
        at < bytes@.len() <==> bytes@.contains(byte),
{
    let mut i: usize = 0;
    while i < bytes.len()
        invariant
            i <= bytes@.len(),
            forall|k: int| 0 <= k < i ==> bytes@[k] != byte,
        decreases bytes@.len() - i,
    {
        if bytes[i] == byte {
            proof {
                lemma_first_index(bytes@, byte, i as int);
                lemma_first_index_bounds(bytes@, byte);
            }
            return i;
        }
        i += 1;
    }
    proof {
        lemma_first_index(bytes@, byte, i as int);
        lemma_first_index_bounds(bytes@, byte);
    }
    i
}

pub fn contains_byte(bytes: &[u8], byte: u8) -> (found: bool)
    ensures
        found == bytes@.contains(byte),
{
    find_byte(bytes, byte) < bytes.len()
}

/// The pieces of `bytes` between the separators, as many as there are separators and one more.
pub open spec fn split_at_each(bytes: Seq<u8>, separator: u8) -> Seq<Seq<u8>>
    decreases bytes.len(),
    when bytes.len() >= 0
    via split_at_each_decreases
{
    let at = first_index(bytes, separator);
    if at >= bytes.len() {
        seq![bytes]
    } else {
        seq![bytes.subrange(0, at)] + split_at_each(bytes.subrange(at + 1, bytes.len() as int), separator)
    }
}

#[via_fn]
proof fn split_at_each_decreases(bytes: Seq<u8>, separator: u8) {
    lemma_first_index_bounds(bytes, separator);
}

/// The views of a list of byte strings.
pub open spec fn views(list: Seq<Vec<u8>>) -> Seq<Seq<u8>> {
    Seq::new(list.len(), |i: int| list[i]@)
}

pub fn split(bytes: &[u8], separator: u8) -> (pieces: Vec<Vec<u8>>)
    ensures
        views(pieces@) == split_at_each(bytes@, separator),
        pieces@.len() >= 1,
{
    let mut pieces: Vec<Vec<u8>> = Vec::new();
    let mut rest: &[u8] = bytes;
    loop
        invariant
            views(pieces@) + split_at_each(rest@, separator) == split_at_each(bytes@, separator),
        decreases rest@.len(),
    {
        let at: usize = find_byte(rest, separator);
        let ghost before = pieces@;
        if at == rest.len() {
            pieces.push(slice_to_vec(rest));
            proof {
                assert(split_at_each(rest@, separator) =~= seq![rest@]);
                assert(views(pieces@) =~= views(before) + seq![rest@]);
            }
            return pieces;
        }
        let piece = slice_subrange(rest, 0, at);
        pieces.push(slice_to_vec(piece));
        let tail = slice_subrange(rest, at + 1, rest.len());
        proof {
            assert(views(pieces@) =~= views(before) + seq![piece@]);
            assert(split_at_each(rest@, separator) =~= seq![piece@] + split_at_each(tail@, separator));
            assert(views(before) + (seq![piece@] + split_at_each(tail@, separator)) =~= (views(before)
                + seq![piece@]) + split_at_each(tail@, separator));
        }
        rest = tail;
    }
}

/// What stands before and behind an ASCII byte in UTF-8 is UTF-8.
pub proof fn lemma_utf8_around(bytes: Seq<u8>, at: int)
    requires
        valid_utf8(bytes),
        0 <= at < bytes.len(),
        bytes[at] < 128,
    ensures
        valid_utf8(bytes.subrange(0, at)),
        valid_utf8(bytes.subrange(at + 1, bytes.len() as int)),
{
    let byte = bytes[at];
    vstd::utf8::is_char_boundary_iff_not_is_continuation_byte(bytes, at);
    vstd::utf8::utf8_byte_ranges_bitwise(byte);
    vstd::utf8::valid_utf8_split(bytes, at);
    let rest = bytes.subrange(at, bytes.len() as int);
    assert(rest[0] == byte);
    assert(vstd::utf8::pop_first_scalar(rest) =~= bytes.subrange(at + 1, bytes.len() as int));
}

/// The pieces of UTF-8 between ASCII separators are UTF-8.
pub proof fn lemma_utf8_pieces(bytes: Seq<u8>, separator: u8)
    requires
        valid_utf8(bytes),
        separator < 128,
    ensures
        forall|i: int|
            0 <= i < split_at_each(bytes, separator).len() ==> valid_utf8(
                #[trigger] split_at_each(bytes, separator)[i],
            ),
    decreases bytes.len(),
{
    lemma_first_index_bounds(bytes, separator);
    let at = first_index(bytes, separator);
    if at < bytes.len() {
        lemma_utf8_around(bytes, at);
        let rest = bytes.subrange(at + 1, bytes.len() as int);
        lemma_utf8_pieces(rest, separator);
        assert forall|i: int| 0 <= i < split_at_each(bytes, separator).len() implies valid_utf8(
            #[trigger] split_at_each(bytes, separator)[i],
        ) by {
            if i > 0 {
                assert(split_at_each(bytes, separator)[i] == split_at_each(rest, separator)[i - 1]);
            }
        }
    }
}

/// Every piece with a separator behind it, one after another.
pub open spec fn ended(pieces: Seq<Seq<u8>>, separator: u8) -> Seq<u8>
    decreases pieces.len(),
{
    if pieces.len() == 0 {
        Seq::empty()
    } else {
        pieces[0].push(separator) + ended(pieces.subrange(1, pieces.len() as int), separator)
    }
}

/// Splitting undoes ending each piece with the separator, once the last separator is gone.
pub proof fn lemma_split_ended(pieces: Seq<Seq<u8>>, separator: u8)
    requires
        pieces.len() > 0,
        forall|i: int| 0 <= i < pieces.len() ==> !(#[trigger] pieces[i]).contains(separator),
    ensures
        ended(pieces, separator).len() > 0,
        ended(pieces, separator).last() == separator,
        split_at_each(ended(pieces, separator).drop_last(), separator) == pieces,
    decreases pieces.len(),
{
    let all = ended(pieces, separator);
    let rest = pieces.subrange(1, pieces.len() as int);
    let first = pieces[0];
    assert(!first.contains(separator));
    if pieces.len() == 1 {
        assert(rest.len() == 0);
        assert(ended(rest, separator) =~= Seq::<u8>::empty());
        assert(all == first.push(separator) + ended(rest, separator));
        assert(all =~= first.push(separator));
        assert(all.drop_last() =~= first);
        lemma_first_index_bounds(first, separator);
        assert(split_at_each(first, separator) =~= seq![first]);
        assert(pieces =~= seq![first]);
    } else {
        assert forall|i: int| 0 <= i < rest.len() implies !(#[trigger] rest[i]).contains(
            separator,
        ) by {
            assert(rest[i] == pieces[i + 1]);
        }
        lemma_split_ended(rest, separator);
        let tail = ended(rest, separator);
        assert(all == first.push(separator) + tail);
        let body = all.drop_last();
        assert(body =~= first.push(separator) + tail.drop_last());
        let n = first.len() as int;
        assert forall|k: int| 0 <= k < n implies body[k] != separator by {
            assert(body[k] == first[k]);
            assert(first.contains(first[k]));
        }
        assert(body[n] == separator);
        lemma_first_index(body, separator, n);
        assert(body.subrange(0, n) =~= first);
        assert(body.subrange(n + 1, body.len() as int) =~= tail.drop_last());
        assert(split_at_each(body, separator) =~= seq![first] + rest);
        assert(pieces =~= seq![first] + rest);
    }
}

pub fn append(target: &mut Vec<u8>, bytes: &[u8])
    ensures
        final(target)@ == old(target)@ + bytes@,
{
    let mut i: usize = 0;
    while i < bytes.len()
        invariant
            i <= bytes@.len(),
            target@ == old(target)@ + bytes@.subrange(0, i as int),
        decreases bytes@.len() - i,
    {
        target.push(bytes[i]);
        i += 1;
        proof {
            assert(bytes@.subrange(0, i as int) =~= bytes@.subrange(0, i - 1).push(bytes@[i - 1]));
        }
    }
    proof {
        assert(bytes@.subrange(0, i as int) =~= bytes@);
    }
}

pub fn copy_bytes(bytes: &[u8]) -> (copy: Vec<u8>)
    ensures
        copy@ == bytes@,
{
    slice_to_vec(bytes)
}

pub fn bytes_of(text: &str) -> (bytes: Vec<u8>)
    ensures
        bytes@ == utf8(text@),
{
    slice_to_vec(text.as_bytes())
}

pub fn concat(left: &[u8], right: &[u8]) -> (joined: Vec<u8>)
    ensures
        joined@ == left@ + right@,
{
    let mut joined = slice_to_vec(left);
    append(&mut joined, right);
    joined
}

pub fn text_of(text: &str) -> (owned: String)
    ensures
        owned@ == text@,
{
    text.to_owned()
}

/// Two texts put together.
pub fn join2(first: &str, second: &str) -> (joined: String)
    ensures
        joined@ == first@ + second@,
{
    let mut joined = first.to_owned();
    joined.append(second);
    joined
}

/// Three texts put together.
pub fn join3(first: &str, second: &str, third: &str) -> (joined: String)
    ensures
        joined@ == first@ + second@ + third@,
{
    let mut joined = first.to_owned();
    joined.append(second);
    joined.append(third);
    joined
}

/// Calls `std::string::String::from_utf8`: the text whose UTF-8 encoding the bytes are, where they
/// are a UTF-8 encoding at all.
#[verifier::external_body]
pub(crate) fn from_utf8(bytes: Vec<u8>) -> (text: Option<String>)
    ensures
        match text {
            Some(text) => utf8(text@) == bytes@,
            None => !valid_utf8(bytes@),
        },
{
    String::from_utf8(bytes).ok()
}

/// The text that `bytes` encode, where they are UTF-8.
pub open spec fn utf8_text(bytes: Seq<u8>) -> Option<Seq<char>> {
    if valid_utf8(bytes) {
        Some(decode_utf8(bytes))
    } else {
        None
    }
}

/// Reads `bytes` as UTF-8.
pub fn decode_text(bytes: &[u8]) -> (text: Option<String>)
    ensures
        optional_view(text) == utf8_text(bytes@),
        text matches Some(text) ==> utf8(text@) == bytes@,
{
    let text = from_utf8(slice_to_vec(bytes));
    proof {
        if text is Some {
            vstd::utf8::encode_utf8_decode_utf8(text->0@);
            vstd::utf8::encode_utf8_valid_utf8(text->0@);
        }
    }
    text
}

} // verus!
