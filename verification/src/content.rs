//! The message whose digest stands for the content of a tree.

use crate::bytes::{lemma_utf8_ascii, lemma_utf8_injective, utf8};
use crate::notation::{big_endian, digit_char, frame, lemma_big_endian, pow256, radix_text};
use crate::storage::{content_start, directory_message, regular_header, symlink_message};
use vstd::prelude::*;
use vstd::utf8::is_ascii_chars;

verus! {

/// One entry of a tree, under its path from the root.
pub enum Entry {
    Regular { path: Seq<u8>, mode: u32, content: Seq<u8> },
    Symlink { path: Seq<u8>, target: Seq<u8> },
    Directory { path: Seq<u8> },
}

impl Entry {
    pub open spec fn path(self) -> Seq<u8> {
        match self {
            Entry::Regular { path, .. } => path,
            Entry::Symlink { path, .. } => path,
            Entry::Directory { path } => path,
        }
    }

    pub open spec fn message(self) -> Seq<u8> {
        match self {
            Entry::Regular { path, mode, content } => regular_header(
                path,
                mode,
                content.len() as u64,
            ) + content,
            Entry::Symlink { path, target } => symlink_message(target, path),
            Entry::Directory { path } => directory_message(path),
        }
    }

    /// Its lengths fit the length prefixes.
    pub open spec fn fits(self) -> bool {
        &&& self.path().len() < pow256(8)
        &&& match self {
            Entry::Regular { content, .. } => content.len() <= u64::MAX,
            Entry::Symlink { target, .. } => target.len() <= u64::MAX,
            Entry::Directory { .. } => true,
        }
    }

    /// Files and links count as entries of a manifest; directories do not.
    pub open spec fn counts(self) -> bool {
        self !is Directory
    }
}

pub open spec fn entry_messages(entries: Seq<Entry>) -> Seq<u8>
    decreases entries.len(),
{
    if entries.len() == 0 {
        Seq::empty()
    } else {
        entry_messages(entries.drop_last()) + entries.last().message()
    }
}

/// What is hashed of a tree whose entries come in this order.
pub open spec fn content_message(entries: Seq<Entry>) -> Seq<u8> {
    content_start() + entry_messages(entries)
}

pub open spec fn counted_entries(entries: Seq<Entry>) -> nat
    decreases entries.len(),
{
    if entries.len() == 0 {
        0
    } else {
        counted_entries(entries.drop_last()) + if entries.last().counts() {
            1nat
        } else {
            0nat
        }
    }
}

proof fn lemma_messages_front(entries: Seq<Entry>)
    requires
        entries.len() > 0,
    ensures
        entry_messages(entries) == entries[0].message() + entry_messages(entries.drop_first()),
    decreases entries.len(),
{
    let rest = entries.drop_first();
    if entries.len() == 1 {
        assert(entries.drop_last() =~= Seq::<Entry>::empty());
        assert(rest =~= Seq::<Entry>::empty());
        assert(entry_messages(entries) =~= entries[0].message() + entry_messages(rest));
    } else {
        lemma_messages_front(entries.drop_last());
        assert(entries.drop_last().drop_first() =~= rest.drop_last());
        assert(rest.last() == entries.last());
        assert(entry_messages(entries) =~= entries[0].message() + entry_messages(rest));
    }
}

/// A frame ends where it says it ends.
proof fn lemma_frame_prefix(left: Seq<u8>, left_rest: Seq<u8>, right: Seq<u8>, right_rest: Seq<u8>)
    requires
        left.len() < pow256(8),
        right.len() < pow256(8),
        frame(left) + left_rest == frame(right) + right_rest,
    ensures
        left == right,
        left_rest == right_rest,
{
    let l = frame(left) + left_rest;
    let r = frame(right) + right_rest;
    lemma_big_endian(left.len(), right.len(), 8);
    lemma_big_endian(right.len(), left.len(), 8);
    assert(l.subrange(0, 8) =~= big_endian(left.len(), 8));
    assert(r.subrange(0, 8) =~= big_endian(right.len(), 8));
    let n = left.len() as int;
    assert(l.subrange(8, 8 + n) =~= left);
    assert(r.subrange(8, 8 + n) =~= right);
    assert(l.subrange(8 + n, l.len() as int) =~= left_rest);
    assert(r.subrange(8 + n, r.len() as int) =~= right_rest);
}

proof fn lemma_digit_char_injective(left: int, right: int)
    requires
        0 <= left < 16,
        0 <= right < 16,
        digit_char(left) == digit_char(right),
    ensures
        left == right,
{
}

/// Numbers with the same octal notation are the same.
pub proof fn lemma_octal_injective(left: nat, right: nat)
    requires
        radix_text(left, 8) == radix_text(right, 8),
    ensures
        left == right,
    decreases left,
{
    let l = radix_text(left, 8);
    let r = radix_text(right, 8);
    lemma_octal_nonempty(left / 8);
    lemma_octal_nonempty(right / 8);
    assert(l.last() == digit_char((left % 8) as int));
    assert(r.last() == digit_char((right % 8) as int));
    lemma_digit_char_injective((left % 8) as int, (right % 8) as int);
    if left < 8 {
        assert(l.len() == 1);
        assert(right < 8);
    } else {
        assert(l.len() > 1);
        assert(right >= 8);
        assert(l.drop_last() =~= radix_text(left / 8, 8));
        assert(r.drop_last() =~= radix_text(right / 8, 8));
        lemma_octal_injective(left / 8, right / 8);
    }
}

proof fn lemma_octal_nonempty(value: nat)
    ensures
        radix_text(value, 8).len() > 0,
    decreases value,
{
    if value >= 8 {
        lemma_octal_nonempty(value / 8);
    }
}

/// Octal notation is ASCII, and no longer than the number is large.
pub proof fn lemma_octal_ascii(value: nat)
    ensures
        is_ascii_chars(radix_text(value, 8)),
        radix_text(value, 8).len() <= value + 1,
    decreases value,
{
    if value >= 8 {
        lemma_octal_ascii(value / 8);
    }
}

/// Lengths of eight bytes are the 64-bit numbers.
pub proof fn lemma_pow256_eight()
    ensures
        pow256(8) == u64::MAX + 1,
{
    reveal_with_fuel(pow256, 9);
}

/// The tags of the three kinds of entry differ, and they are short.
proof fn lemma_tags()
    ensures
        utf8("file"@) != utf8("symlink"@),
        utf8("file"@) != utf8("directory"@),
        utf8("symlink"@) != utf8("directory"@),
        utf8("file"@).len() < pow256(8),
        utf8("symlink"@).len() < pow256(8),
        utf8("directory"@).len() < pow256(8),
        utf8("120000"@).len() < pow256(8),
        utf8("555"@).len() < pow256(8),
{
    lemma_pow256_eight();
    reveal_strlit("file");
    reveal_strlit("symlink");
    reveal_strlit("directory");
    reveal_strlit("120000");
    reveal_strlit("555");
    lemma_utf8_ascii("file"@);
    lemma_utf8_ascii("symlink"@);
    lemma_utf8_ascii("directory"@);
    lemma_utf8_ascii("120000"@);
    lemma_utf8_ascii("555"@);
}

/// The tag that an entry's message starts with.
spec fn tag(entry: Entry) -> Seq<u8> {
    match entry {
        Entry::Regular { .. } => utf8("file"@),
        Entry::Symlink { .. } => utf8("symlink"@),
        Entry::Directory { .. } => utf8("directory"@),
    }
}

/// What an entry's message holds behind its tag and its path.
spec fn body(entry: Entry) -> Seq<u8> {
    match entry {
        Entry::Regular { path, mode, content } => frame(utf8(radix_text(mode as nat, 8))) + (frame(
            big_endian(content.len(), 8),
        ) + content),
        Entry::Symlink { path, target } => frame(utf8("120000"@)) + (frame(
            big_endian(target.len(), 8),
        ) + target),
        Entry::Directory { .. } => frame(utf8("555"@)),
    }
}

proof fn lemma_message_shape(entry: Entry, rest: Seq<u8>)
    requires
        entry.fits(),
    ensures
        entry.message() + rest == frame(tag(entry)) + (frame(entry.path()) + (body(entry) + rest)),
{
    assert(entry.message() + rest =~= frame(tag(entry)) + (frame(entry.path()) + (body(entry)
        + rest)));
}

/// Content behind its length ends where the length says.
proof fn lemma_sized_prefix(left: Seq<u8>, left_rest: Seq<u8>, right: Seq<u8>, right_rest: Seq<u8>)
    requires
        left.len() <= u64::MAX,
        right.len() <= u64::MAX,
        frame(big_endian(left.len(), 8)) + (left + left_rest) == frame(big_endian(right.len(), 8))
            + (right + right_rest),
    ensures
        left == right,
        left_rest == right_rest,
{
    lemma_pow256_eight();
    lemma_big_endian(left.len(), right.len(), 8);
    lemma_big_endian(right.len(), left.len(), 8);
    lemma_frame_prefix(
        big_endian(left.len(), 8),
        left + left_rest,
        big_endian(right.len(), 8),
        right + right_rest,
    );
    let n = left.len() as int;
    let l = left + left_rest;
    let r = right + right_rest;
    assert(l.subrange(0, n) =~= left);
    assert(r.subrange(0, n) =~= right);
    assert(l.subrange(n, l.len() as int) =~= left_rest);
    assert(r.subrange(n, r.len() as int) =~= right_rest);
}

proof fn lemma_body_prefix(left: Entry, left_rest: Seq<u8>, right: Entry, right_rest: Seq<u8>)
    requires
        left.fits(),
        right.fits(),
        tag(left) == tag(right),
        left.path() == right.path(),
        body(left) + left_rest == body(right) + right_rest,
    ensures
        left == right,
        left_rest == right_rest,
{
    lemma_tags();
    lemma_pow256_eight();
    match (left, right) {
        (
            Entry::Regular { mode: a, content: x, .. },
            Entry::Regular { mode: b, content: y, .. },
        ) => {
            let ta = radix_text(a as nat, 8);
            let tb = radix_text(b as nat, 8);
            lemma_octal_ascii(a as nat);
            lemma_octal_ascii(b as nat);
            lemma_utf8_ascii(ta);
            lemma_utf8_ascii(tb);
            let sa = frame(big_endian(x.len(), 8)) + (x + left_rest);
            let sb = frame(big_endian(y.len(), 8)) + (y + right_rest);
            assert(body(left) + left_rest =~= frame(utf8(ta)) + sa);
            assert(body(right) + right_rest =~= frame(utf8(tb)) + sb);
            lemma_frame_prefix(utf8(ta), sa, utf8(tb), sb);
            lemma_utf8_injective(ta, tb);
            lemma_octal_injective(a as nat, b as nat);
            lemma_sized_prefix(x, left_rest, y, right_rest);
        },
        (Entry::Symlink { target: x, .. }, Entry::Symlink { target: y, .. }) => {
            let sa = frame(big_endian(x.len(), 8)) + (x + left_rest);
            let sb = frame(big_endian(y.len(), 8)) + (y + right_rest);
            assert(body(left) + left_rest =~= frame(utf8("120000"@)) + sa);
            assert(body(right) + right_rest =~= frame(utf8("120000"@)) + sb);
            lemma_frame_prefix(utf8("120000"@), sa, utf8("120000"@), sb);
            lemma_sized_prefix(x, left_rest, y, right_rest);
        },
        (Entry::Directory { .. }, Entry::Directory { .. }) => {
            lemma_frame_prefix(utf8("555"@), left_rest, utf8("555"@), right_rest);
        },
        _ => {
            assert(false);
        },
    }
}

proof fn lemma_entries_injective(left: Seq<Entry>, right: Seq<Entry>)
    requires
        forall|i: int| 0 <= i < left.len() ==> (#[trigger] left[i]).fits(),
        forall|i: int| 0 <= i < right.len() ==> (#[trigger] right[i]).fits(),
        entry_messages(left) == entry_messages(right),
    ensures
        left == right,
    decreases left.len(),
{
    if left.len() == 0 {
        if right.len() > 0 {
            lemma_messages_front(right);
            lemma_message_shape(right[0], Seq::empty());
            lemma_big_endian(tag(right[0]).len(), 0, 8);
            assert(entry_messages(left).len() == 0);
            assert((right[0].message() + Seq::<u8>::empty()) =~= right[0].message());
            assert(false);
        }
        assert(left =~= right);
    } else if right.len() == 0 {
        lemma_messages_front(left);
        lemma_message_shape(left[0], Seq::empty());
        lemma_big_endian(tag(left[0]).len(), 0, 8);
        assert((left[0].message() + Seq::<u8>::empty()) =~= left[0].message());
        assert(entry_messages(right).len() == 0);
        assert(false);
    } else {
        lemma_messages_front(left);
        lemma_messages_front(right);
        let a = left[0];
        let b = right[0];
        let ra = entry_messages(left.drop_first());
        let rb = entry_messages(right.drop_first());
        lemma_message_shape(a, ra);
        lemma_message_shape(b, rb);
        lemma_tags();
        lemma_frame_prefix(
            tag(a),
            frame(a.path()) + (body(a) + ra),
            tag(b),
            frame(b.path()) + (body(b) + rb),
        );
        lemma_frame_prefix(a.path(), body(a) + ra, b.path(), body(b) + rb);
        lemma_body_prefix(a, ra, b, rb);
        lemma_entries_injective(left.drop_first(), right.drop_first());
        assert(left =~= seq![left[0]] + left.drop_first());
        assert(right =~= seq![right[0]] + right.drop_first());
    }
}

/// The hashed message tells trees apart: trees with the same message have the same entries in the
/// same order, with the same paths, modes, contents and targets.
pub proof fn law_content_message_is_injective(left: Seq<Entry>, right: Seq<Entry>)
    requires
        forall|i: int| 0 <= i < left.len() ==> (#[trigger] left[i]).fits(),
        forall|i: int| 0 <= i < right.len() ==> (#[trigger] right[i]).fits(),
        content_message(left) == content_message(right),
    ensures
        left == right,
{
    let n = content_start().len() as int;
    let l = content_message(left);
    let r = content_message(right);
    assert(l.subrange(n, l.len() as int) =~= entry_messages(left));
    assert(r.subrange(n, r.len() as int) =~= entry_messages(right));
    lemma_entries_injective(left, right);
}

} // verus!
