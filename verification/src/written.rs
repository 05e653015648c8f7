//! What a template is written out of: the lines that Git lists a tree in, and what becomes of each.

use crate::authority::number_value;
use crate::bytes::{
    lemma_first_index, lemma_utf8_ascii, split_at_each, utf8,
};
use crate::manifest::{
    batch_header, entry_failure, is_supported_path, is_unsupported_component, listed_entry,
    listing_failure, nonempty, ManifestEntryView,
};
use crate::materialize::{WriteAction, WriteAnswer, WriteStageView, WriterView};
use crate::notation::{all_digits, all_hex, decimal_text, lemma_decimal_text};
use crate::opening::MakeEvent;
use crate::passes::{PassAction, PassEvent, PassStageView, PassView};
use crate::storage::lowered;
use vstd::prelude::*;

verus! {

/// The digits with which Git lists a mode.
pub open spec fn mode_digits(mode: u32) -> Seq<u8> {
    if mode == 0o100755 {
        utf8("100755"@)
    } else if mode == 0o120000 {
        utf8("120000"@)
    } else {
        utf8("100644"@)
    }
}

pub open spec fn spaces(count: nat) -> Seq<u8> {
    Seq::new(count, |i: int| 32u8)
}

/// What Git prints in front of the path of an entry; the size is padded to a column.
pub open spec fn listed_header(entry: ManifestEntryView, padding: nat) -> Seq<u8> {
    mode_digits(entry.mode) + seq![32u8] + (utf8("blob"@) + seq![32u8] + (utf8(entry.oid) + seq![
        32u8,
    ] + (spaces(padding) + utf8(decimal_text(entry.size as nat)))))
}

/// The line of an entry.
pub open spec fn listed_line(entry: ManifestEntryView, padding: nat) -> Seq<u8> {
    listed_header(entry, padding) + seq![9u8] + entry.path
}

/// An entry as it stands in a tree: a file, a program or a link, with an object of the format.
pub open spec fn is_tree_entry(entry: ManifestEntryView, object_format: Seq<char>) -> bool {
    &&& entry.mode == 0o100644 || entry.mode == 0o100755 || entry.mode == 0o120000
    &&& all_hex(utf8(entry.oid))
    &&& object_format == "sha1"@ && utf8(entry.oid).len() == 40 || object_format == "sha256"@
        && utf8(entry.oid).len() == 64
    &&& entry.path.len() > 0
}

proof fn lemma_split_first(first: Seq<u8>, rest: Seq<u8>)
    requires
        !first.contains(32),
    ensures
        split_at_each(first + seq![32u8] + rest, 32) == seq![first] + split_at_each(rest, 32),
{
    let all = first + seq![32u8] + rest;
    let n = first.len() as int;
    assert forall|k: int| 0 <= k < n implies all[k] != 32 by {
        assert(all[k] == first[k]);
        assert(first.contains(first[k]));
    }
    lemma_first_index(all, 32, n);
    assert(all.subrange(0, n) =~= first);
    assert(all.subrange(n + 1, all.len() as int) =~= rest);
}

proof fn lemma_split_none(only: Seq<u8>)
    requires
        !only.contains(32),
    ensures
        split_at_each(only, 32) == seq![only],
{
    assert forall|k: int| 0 <= k < only.len() implies only[k] != 32 by {
        assert(only.contains(only[k]));
    }
    lemma_first_index(only, 32, only.len() as int);
}

proof fn lemma_nonempty_front(first: Seq<u8>, rest: Seq<Seq<u8>>)
    ensures
        nonempty(seq![first] + rest) == if first.len() == 0 {
            nonempty(rest)
        } else {
            seq![first] + nonempty(rest)
        },
    decreases rest.len(),
{
    let all = seq![first] + rest;
    if rest.len() == 0 {
        assert(all.drop_last() =~= Seq::<Seq<u8>>::empty());
        assert(all.last() == first);
        assert(nonempty(all.drop_last()) =~= Seq::<Seq<u8>>::empty());
        assert(nonempty(rest) =~= Seq::<Seq<u8>>::empty());
        assert(nonempty(all) =~= if first.len() == 0 {
            nonempty(rest)
        } else {
            seq![first] + nonempty(rest)
        });
    } else {
        lemma_nonempty_front(first, rest.drop_last());
        assert(all.drop_last() =~= seq![first] + rest.drop_last());
        assert(all.last() == rest.last());
        assert(nonempty(all) =~= if first.len() == 0 {
            nonempty(rest)
        } else {
            seq![first] + nonempty(rest)
        });
    }
}

proof fn lemma_padding(padding: nat, only: Seq<u8>)
    requires
        !only.contains(32),
        only.len() > 0,
    ensures
        nonempty(split_at_each(spaces(padding) + only, 32)) == seq![only],
    decreases padding,
{
    if padding == 0 {
        assert(spaces(0) + only =~= only);
        lemma_split_none(only);
        lemma_nonempty_front(only, Seq::empty());
        assert(seq![only] + Seq::<Seq<u8>>::empty() =~= seq![only]);
        assert(nonempty(Seq::<Seq<u8>>::empty()) =~= Seq::<Seq<u8>>::empty());
        assert(nonempty(seq![only]) =~= seq![only]);
    } else {
        let less = (padding - 1) as nat;
        let rest = spaces(less) + only;
        assert(spaces(padding) + only =~= Seq::<u8>::empty() + seq![32u8] + rest);
        lemma_split_first(Seq::empty(), rest);
        lemma_nonempty_front(Seq::empty(), split_at_each(rest, 32));
        lemma_padding(less, only);
    }
}

proof fn lemma_no_space(bytes: Seq<u8>)
    requires
        all_hex(bytes) || all_digits(bytes),
    ensures
        !bytes.contains(32),
        !bytes.contains(9),
{
    assert forall|k: int| 0 <= k < bytes.len() implies bytes[k] != 32 && bytes[k] != 9 by {
        if all_hex(bytes) {
            assert(crate::notation::is_hex(bytes[k]));
        } else {
            assert(crate::notation::is_digit(bytes[k]));
        }
    }
}

proof fn lemma_words()
    ensures
        !utf8("blob"@).contains(32) && !utf8("blob"@).contains(9) && utf8("blob"@).len() == 4,
        forall|mode: u32|
            !(#[trigger] mode_digits(mode)).contains(32) && !mode_digits(mode).contains(9)
                && mode_digits(mode).len() == 6,
        utf8("100644"@) != utf8("100755"@),
        utf8("100644"@) != utf8("120000"@),
        utf8("100755"@) != utf8("120000"@),
        utf8("0"@) == seq![48u8],
{
    reveal_strlit("blob");
    reveal_strlit("100644");
    reveal_strlit("100755");
    reveal_strlit("120000");
    reveal_strlit("0");
    lemma_utf8_ascii("blob"@);
    lemma_utf8_ascii("100644"@);
    lemma_utf8_ascii("100755"@);
    lemma_utf8_ascii("120000"@);
    lemma_utf8_ascii("0"@);
    assert(utf8("0"@) =~= seq![48u8]);
    lemma_plain_word("blob"@);
    lemma_plain_word("100644"@);
    lemma_plain_word("100755"@);
    lemma_plain_word("120000"@);
    assert(utf8("100644"@)[3] == "100644"@[3] as u8);
    assert(utf8("100755"@)[3] == "100755"@[3] as u8);
    assert(utf8("100644"@)[1] == "100644"@[1] as u8);
    assert(utf8("120000"@)[1] == "120000"@[1] as u8);
    assert(utf8("100755"@)[1] == "100755"@[1] as u8);
}

proof fn lemma_plain_word(word: Seq<char>)
    requires
        vstd::utf8::is_ascii_chars(word),
        forall|i: int| 0 <= i < word.len() ==> #[trigger] word[i] != ' ' && word[i] != '\t',
    ensures
        !utf8(word).contains(32),
        !utf8(word).contains(9),
{
    lemma_utf8_ascii(word);
    assert forall|k: int| 0 <= k < utf8(word).len() implies utf8(word)[k] != 32 && utf8(word)[k]
        != 9 by {
        assert(utf8(word)[k] == word[k] as u8);
        assert(word[k] != ' ' && word[k] != '\t');
    }
}

proof fn lemma_header(entry: ManifestEntryView, padding: nat, object_format: Seq<char>)
    requires
        is_tree_entry(entry, object_format),
    ensures
        nonempty(split_at_each(listed_header(entry, padding), 32)) == seq![
            mode_digits(entry.mode),
            utf8("blob"@),
            utf8(entry.oid),
            utf8(decimal_text(entry.size as nat)),
        ],
        !listed_header(entry, padding).contains(9),
{
    lemma_words();
    let size = utf8(decimal_text(entry.size as nat));
    lemma_decimal_text(entry.size as nat);
    lemma_utf8_ascii(decimal_text(entry.size as nat));
    lemma_no_space(size);
    lemma_no_space(utf8(entry.oid));
    let tail = spaces(padding) + size;
    let after_oid = utf8(entry.oid) + seq![32u8] + tail;
    let after_kind = utf8("blob"@) + seq![32u8] + after_oid;
    lemma_padding(padding, size);
    lemma_split_first(utf8(entry.oid), tail);
    lemma_nonempty_front(utf8(entry.oid), split_at_each(tail, 32));
    lemma_split_first(utf8("blob"@), after_oid);
    lemma_nonempty_front(utf8("blob"@), split_at_each(after_oid, 32));
    lemma_split_first(mode_digits(entry.mode), after_kind);
    lemma_nonempty_front(mode_digits(entry.mode), split_at_each(after_kind, 32));
    let header = listed_header(entry, padding);
    assert(nonempty(split_at_each(header, 32)) =~= seq![
        mode_digits(entry.mode),
        utf8("blob"@),
        utf8(entry.oid),
        size,
    ]);
    assert forall|k: int| 0 <= k < header.len() implies header[k] != 9 by {
        let m = mode_digits(entry.mode);
        let o = utf8(entry.oid);
        if k < 6 {
            assert(m.contains(m[k]));
        } else if k == 6 {
        } else if k < 11 {
            assert(utf8("blob"@).contains(utf8("blob"@)[k - 7]));
        } else if k == 11 {
        } else if k < 12 + o.len() {
            assert(o.contains(o[k - 12]));
        } else if k == 12 + o.len() {
        } else if k < 13 + o.len() + padding {
        } else {
            assert(size.contains(size[k - 13 - o.len() - padding]));
        }
    }
}

/// A line in which Git lists a file, a program or a link of a tree is read as that entry: its mode, its
/// object, its size and its path.
pub proof fn law_listed_lines_are_read(
    entry: ManifestEntryView,
    padding: nat,
    object_format: Seq<char>,
)
    requires
        is_tree_entry(entry, object_format),
    ensures
        listing_failure(listed_line(entry, padding), object_format) is None,
        listed_entry(listed_line(entry, padding)) == entry,
        is_supported_path(entry.path) <==> entry_failure(
            listed_line(entry, padding),
            object_format,
        ) is None,
{
    let header = listed_header(entry, padding);
    let raw = listed_line(entry, padding);
    let n = header.len() as int;
    lemma_header(entry, padding, object_format);
    assert forall|k: int| 0 <= k < n implies raw[k] != 9 by {
        assert(raw[k] == header[k]);
        assert(header.contains(header[k]));
    }
    assert(raw[n] == 9);
    lemma_first_index(raw, 9, n);
    assert(raw.subrange(0, n) =~= header);
    assert(raw.subrange(n + 1, raw.len() as int) =~= entry.path);
    lemma_words();
    vstd::utf8::encode_utf8_decode_utf8(entry.oid);
    vstd::utf8::encode_utf8_valid_utf8(entry.oid);
    let text = decimal_text(entry.size as nat);
    vstd::utf8::encode_utf8_valid_utf8(text);
    lemma_decimal_text(entry.size as nat);
    lemma_utf8_ascii(text);
    lemma_number(entry.size);
    reveal_strlit("sha1");
    reveal_strlit("sha256");
    assert("sha1"@.len() != "sha256"@.len());
    let f = crate::manifest::header_fields(raw);
    assert(f[0] == mode_digits(entry.mode) && f[1] == utf8("blob"@) && f[2] == utf8(entry.oid)
        && f[3] == utf8(text));
}

/// A number is written without a leading zero, and read as it was written.
proof fn lemma_number(value: u64)
    ensures
        number_value(utf8(decimal_text(value as nat)), u64::MAX) == Some(value),
        utf8(decimal_text(value as nat))[0] == 48 ==> utf8(decimal_text(value as nat)) == utf8(
            "0"@,
        ),
{
    lemma_decimal_text(value as nat);
    lemma_utf8_ascii(decimal_text(value as nat));
    let digits = utf8(decimal_text(value as nat));
    assert(crate::notation::is_digit(digits[0]));
    lemma_words();
    lemma_leading(value as nat);
}

proof fn lemma_leading(value: nat)
    ensures
        decimal_text(value).len() >= 1,
        decimal_text(value)[0] == '0' ==> value == 0,
        value == 0 ==> utf8(decimal_text(value)) == seq![48u8],
        utf8(decimal_text(value))[0] == 48 ==> decimal_text(value)[0] == '0',
    decreases value,
{
    lemma_decimal_text(value);
    lemma_utf8_ascii(decimal_text(value));
    if value >= 10 {
        lemma_leading(value / 10);
    } else if value == 0 {
        assert(utf8(decimal_text(value)) =~= seq![48u8]);
    }
}

/// A pass through a tree, and the lines that were read on it.
pub struct PassRun {
    pub pass: PassView,
    pub lines: Seq<Seq<u8>>,
}

impl PassRun {
    pub open spec fn start(writes: bool, object_format: Seq<char>) -> PassRun {
        PassRun { pass: PassView::starting(writes, object_format), lines: Seq::empty() }
    }

    pub open spec fn after(self, event: PassEvent) -> PassRun {
        PassRun {
            pass: self.pass.after(event),
            lines: match (self.pass.asks(), event) {
                (PassAction::ReadRecord, PassEvent::Record(Ok(Some(raw)))) => self.lines.push(
                    raw@,
                ),
                _ => self.lines,
            },
        }
    }

    pub open spec fn after_all(self, events: Seq<PassEvent>) -> PassRun
        decreases events.len(),
    {
        if events.len() == 0 {
            self
        } else {
            self.after_all(events.drop_last()).after(events.last())
        }
    }

    spec fn accounts(self, writes: bool, object_format: Seq<char>) -> bool {
        let pass = self.pass;
        &&& pass.writes == writes
        &&& pass.object_format == object_format
        &&& pass.sound()
        &&& !(pass.stage matches PassStageView::Ended(Err(_))) ==> {
            &&& pass.listed.len() == self.lines.len()
            &&& forall|i: int|
                0 <= i < self.lines.len() ==> #[trigger] pass.listed[i] == listed_entry(
                    self.lines[i],
                ) && entry_failure(self.lines[i], object_format) is None
        }
    }
}

proof fn lemma_pass_accounts(
    run: PassRun,
    event: PassEvent,
    writes: bool,
    object_format: Seq<char>,
)
    requires
        run.accounts(writes, object_format),
    ensures
        run.after(event).accounts(writes, object_format),
{
    let after = run.after(event);
    assert(after.pass.sound());
    if !(after.pass.stage matches PassStageView::Ended(Err(_))) {
        assert forall|i: int| 0 <= i < after.lines.len() implies #[trigger] after.pass.listed[i]
            == listed_entry(after.lines[i]) && entry_failure(after.lines[i], object_format)
            is None by {
            if i < run.lines.len() {
                assert(run.pass.listed[i] == listed_entry(run.lines[i]));
            }
        }
    }
}

proof fn lemma_pass_run(writes: bool, object_format: Seq<char>, events: Seq<PassEvent>)
    ensures
        PassRun::start(writes, object_format).after_all(events).accounts(writes, object_format),
    decreases events.len(),
{
    if events.len() > 0 {
        lemma_pass_run(writes, object_format, events.drop_last());
        lemma_pass_accounts(
            PassRun::start(writes, object_format).after_all(events.drop_last()),
            events.last(),
            writes,
            object_format,
        );
    }
}

/// A pass that ends well has taken each line that it read for one entry, in order and none else; where
/// it writes, it has written each of them; and its receipt counts them and holds the digest of their
/// message.
pub proof fn law_passes_take_every_line(
    writes: bool,
    object_format: Seq<char>,
    events: Seq<PassEvent>,
)
    ensures
        ({
            let done = PassRun::start(writes, object_format).after_all(events);
            done.pass.stage matches PassStageView::Ended(Ok(receipt)) ==> {
                &&& done.pass.listed.len() == done.lines.len()
                &&& forall|i: int|
                    0 <= i < done.lines.len() ==> #[trigger] done.pass.listed[i] == listed_entry(
                        done.lines[i],
                    )
                &&& writes ==> done.pass.written == done.pass.listed
                &&& receipt.1 == done.lines.len()
                &&& receipt.0 == crate::digest::digest_text(
                    crate::manifest::manifest_message(done.pass.listed),
                )
            }
        }),
{
    lemma_pass_run(writes, object_format, events);
}

/// The writing of an entry, and what of what it asked for was done.
pub struct WriterRun {
    pub writer: WriterView,
    /// How many bytes were copied.
    pub copied: int,
    pub sealed: Option<u32>,
    /// How many bytes of a target were asked for, and what was read.
    pub target: Option<(u64, Seq<u8>)>,
    pub linked: bool,
}

impl WriterRun {
    pub open spec fn start(writer: WriterView) -> WriterRun {
        WriterRun { writer, copied: 0, sealed: None, target: None, linked: false }
    }

    pub open spec fn after(self, event: WriteAnswer) -> WriterRun {
        let next = WriterRun { writer: self.writer.after(event), ..self };
        match (self.writer.asks(), event) {
            (WriteAction::CopyContent(count), WriteAnswer::Copied(Ok(_))) => WriterRun {
                copied: self.copied + count,
                ..next
            },
            (WriteAction::SealRegular(mode), WriteAnswer::System(Ok(_))) => WriterRun {
                sealed: Some(mode),
                ..next
            },
            (WriteAction::ReadTarget(size), WriteAnswer::Target(Ok(target))) => WriterRun {
                target: Some((size, target@)),
                ..next
            },
            (WriteAction::CreateLink, WriteAnswer::Made(MakeEvent::Created)) => WriterRun {
                linked: true,
                ..next
            },
            _ => next,
        }
    }

    pub open spec fn after_all(self, events: Seq<WriteAnswer>) -> WriterRun
        decreases events.len(),
    {
        if events.len() == 0 {
            self
        } else {
            self.after_all(events.drop_last()).after(events.last())
        }
    }

    spec fn accounts(self, entry: ManifestEntryView) -> bool {
        let stage = self.writer.stage;
        let link = entry.mode == 0o120000;
        let components = split_at_each(entry.path, 47);
        &&& self.writer.entry == entry
        &&& self.writer.components == components
        &&& 0 <= self.writer.next
        &&& (stage is Creating || stage is Copying || stage is FileDelimiting || stage is Sealing
            || stage is FileSyncing || stage is FileSeeing) ==> !link && self.writer.next
            >= components.len() - 1
        &&& (stage is TargetReading || stage is LinkDelimiting || stage is Linking
            || stage is LinkSeeing) ==> link && self.writer.next >= components.len() - 1
        &&& (stage is RootSeeing || stage is Opening || stage is Making || stage is MadeOpening
            || stage is MadeSyncing || stage is ParentSyncing || stage is ComponentSeeing || stage
            is Creating) ==> self.copied == 0
        &&& (stage matches WriteStageView::Copying(remaining) ==> self.copied + remaining
            == entry.size)
        &&& (stage is FileDelimiting || stage is Sealing || stage is FileSyncing || stage
            is FileSeeing) ==> self.copied == entry.size
        &&& (stage is FileSyncing || stage is FileSeeing) ==> self.sealed == Some(
            if entry.mode == 0o100755 {
                0o555u32
            } else {
                0o444u32
            },
        )
        &&& (stage matches WriteStageView::LinkDelimiting(target) ==> self.target == Some(
            (entry.size, target),
        ))
        &&& (stage matches WriteStageView::Linking(target) ==> self.target == Some(
            (entry.size, target),
        ))
        &&& stage is LinkSeeing ==> self.linked && (self.target matches Some(read) && read.0
            == entry.size)
        &&& stage is Written ==> {
            &&& !link ==> self.copied == entry.size && self.sealed == Some(
                if entry.mode == 0o100755 {
                    0o555u32
                } else {
                    0o444u32
                },
            )
            &&& link ==> self.linked && (self.target matches Some(read) && read.0 == entry.size)
        }
    }
}

proof fn lemma_writer_accounts(run: WriterRun, event: WriteAnswer, entry: ManifestEntryView)
    requires
        run.accounts(entry),
    ensures
        run.after(event).accounts(entry),
{
}

proof fn lemma_writer_run(start: WriterRun, events: Seq<WriteAnswer>, entry: ManifestEntryView)
    requires
        start.accounts(entry),
    ensures
        start.after_all(events).accounts(entry),
    decreases events.len(),
{
    if events.len() > 0 {
        lemma_writer_run(start, events.drop_last(), entry);
        lemma_writer_accounts(start.after_all(events.drop_last()), events.last(), entry);
    }
}

/// An entry that is written is written whole, under the components of its path: a file with all of its
/// bytes, sealed as a program where it is one and as a plain file otherwise; a link with a target of as
/// many bytes as were listed.
pub proof fn law_written_entries_are_whole(
    entry: ManifestEntryView,
    root: crate::authority::Identity,
    uid: u32,
    events: Seq<WriteAnswer>,
)
    ensures
        ({
            let done = WriterRun::start(WriterView::starting(entry, root, uid)).after_all(events);
            &&& done.writer.components == split_at_each(entry.path, 47)
            &&& done.writer.stage is Written && entry.mode != 0o120000 ==> done.copied
                == entry.size && done.sealed == Some(
                if entry.mode == 0o100755 {
                    0o555u32
                } else {
                    0o444u32
                },
            )
            &&& done.writer.stage is Written && entry.mode == 0o120000 ==> done.linked && (
            done.target matches Some(read) && read.0 == entry.size)
            &&& (done.writer.asks() == WriteAction::CreateRegular || done.writer.asks()
                == WriteAction::CreateLink) ==> done.writer.next >= split_at_each(
                entry.path,
                47,
            ).len() - 1
        }),
{
    lemma_writer_run(
        WriterRun::start(WriterView::starting(entry, root, uid)),
        events,
        entry,
    );
}

/// An object is taken only as it was listed: announced with its name, as a blob, of its size.
pub proof fn law_objects_are_announced_as_listed(entry: ManifestEntryView)
    ensures
        batch_header(entry) == entry.oid + " blob "@ + decimal_text(entry.size as nat),
{
}

/// What no template holds: parts of a path that are no names, and files that steer Git, in whatever
/// case they are written.
pub proof fn law_steering_paths_are_unsupported(component: Seq<u8>)
    ensures
        is_unsupported_component(component) <==> component.len() == 0 || component == utf8("."@)
            || component == utf8(".."@) || lowered(component) == utf8(".git"@) || lowered(
            component,
        ) == utf8(".gitattributes"@) || lowered(component) == utf8(".lfsconfig"@),
{
}

} // verus!
