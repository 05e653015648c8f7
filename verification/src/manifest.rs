//! What a tree of the repository is made of, entry by entry, and the digest that stands for it.

use crate::authority::{failure, number_value, or_fail, read_number, Error, Failure};
use crate::bytes::{
    append, bytes_of, copy_bytes, decode_text, find_byte, first_index, join2, lemma_utf8_ascii,
    lemma_utf8_injective, same_bytes, split, split_at_each, utf8, utf8_text, views,
};
use crate::content::{lemma_octal_ascii, lemma_octal_injective, lemma_pow256_eight};
use crate::digest::{digest_text, MessageHasher, MESSAGE_LIMIT};
use crate::inspection::first_of;
use crate::notation::{
    all_hex, all_lower_hex, decimal_text, framed, law_framing_is_injective, lemma_decimal_text,
    only_hex, pow256, push_frame, radix_text, to_decimal, to_octal,
};
use crate::storage::{lowered, to_lower, ManifestReceipt};
use vstd::prelude::*;
use vstd::slice::slice_subrange;
use vstd::string::StringExecFns;

verus! {

/// How long one line of a tree's listing may be.
pub const MAX_LS_TREE_RECORD: usize = 1048576;

/// The modes of a tree's entries: a plain file, a program, and a symbolic link.
pub const PLAIN_MODE: u32 = 0o100644;

pub const PROGRAM_MODE: u32 = 0o100755;

pub const LINK_MODE: u32 = 0o120000;

/// A file or link of a tree.
#[derive(Debug)]
pub struct ManifestEntry {
    pub mode: u32,
    pub oid: String,
    pub size: u64,
    pub path: Vec<u8>,
}

#[verifier::ext_equal]
pub struct ManifestEntryView {
    pub mode: u32,
    pub oid: Seq<char>,
    pub size: u64,
    pub path: Seq<u8>,
}

impl View for ManifestEntry {
    type V = ManifestEntryView;

    open spec fn view(&self) -> ManifestEntryView {
        ManifestEntryView { mode: self.mode, oid: self.oid@, size: self.size, path: self.path@ }
    }
}

impl ManifestEntry {
    pub fn copy(&self) -> (same: Self)
        ensures
            same@ == self@,
    {
        ManifestEntry {
            mode: self.mode,
            oid: self.oid.clone(),
            size: self.size,
            path: copy_bytes(self.path.as_slice()),
        }
    }
}

/// How long an object's name is in an object format.
pub open spec fn oid_length(object_format: Seq<char>) -> Option<nat> {
    if object_format == "sha1"@ {
        Some(40)
    } else if object_format == "sha256"@ {
        Some(64)
    } else {
        None
    }
}

pub open spec fn oid_failure(oid: Seq<u8>, object_format: Seq<char>) -> Option<Failure> {
    match oid_length(object_format) {
        None => Some(("TEMPLATE_UNSUPPORTED"@, "object format is unsupported"@)),
        Some(length) => if oid.len() == length && all_hex(oid) {
            None
        } else {
            Some(("TEMPLATE_INVALID"@, "Git object ID is invalid"@))
        },
    }
}

pub fn validate_oid(oid: &str, object_format: &str) -> (valid: Result<(), Error>)
    ensures
        failure(valid) == oid_failure(utf8(oid@), object_format@),
{
    let length: usize = if crate::bytes::same_text(object_format, "sha1") {
        40
    } else if crate::bytes::same_text(object_format, "sha256") {
        64
    } else {
        return Err(Error::new("TEMPLATE_UNSUPPORTED", "object format is unsupported"));
    };
    let bytes = oid.as_bytes();
    if bytes.len() == length && only_hex(bytes) {
        Ok(())
    } else {
        Err(Error::new("TEMPLATE_INVALID", "Git object ID is invalid"))
    }
}

/// A component that no template may have: an empty one, a dot name, or one that Git reads itself.
pub open spec fn is_unsupported_component(component: Seq<u8>) -> bool {
    component.len() == 0 || component == utf8("."@) || component == utf8(".."@) || lowered(component)
        == utf8(".git"@) || lowered(component) == utf8(".gitattributes"@) || lowered(component)
        == utf8(".lfsconfig"@)
}

pub open spec fn is_supported_path(path: Seq<u8>) -> bool {
    forall|i: int|
        0 <= i < split_at_each(path, 47).len() ==> !is_unsupported_component(
            #[trigger] split_at_each(path, 47)[i],
        )
}

pub fn validate_path(path: &[u8]) -> (valid: Result<(), Error>)
    ensures
        failure(valid) == or_fail(
            None,
            is_supported_path(path@),
            "TEMPLATE_UNSUPPORTED"@,
            "tree path is unsupported"@,
        ),
{
    let components = split(path, 47);
    let mut i: usize = 0;
    while i < components.len()
        invariant
            i <= components@.len(),
            views(components@) == split_at_each(path@, 47),
            forall|k: int|
                0 <= k < i ==> !is_unsupported_component(
                    #[trigger] split_at_each(path@, 47)[k],
                ),
        decreases components@.len() - i,
    {
        let component = components[i].as_slice();
        proof {
            assert(views(components@)[i as int] == component@);
        }
        let low = to_lower(component);
        let low = low.as_slice();
        if component.len() == 0 || same_bytes(component, ".".as_bytes()) || same_bytes(
            component,
            "..".as_bytes(),
        ) || same_bytes(low, ".git".as_bytes()) || same_bytes(low, ".gitattributes".as_bytes())
            || same_bytes(low, ".lfsconfig".as_bytes()) {
            proof {
                assert(is_unsupported_component(split_at_each(path@, 47)[i as int]));
            }
            return Err(Error::new("TEMPLATE_UNSUPPORTED", "tree path is unsupported"));
        }
        i += 1;
    }
    proof {
        assert(views(components@).len() == split_at_each(path@, 47).len());
    }
    Ok(())
}

/// The pieces that are not empty.
pub open spec fn nonempty(pieces: Seq<Seq<u8>>) -> Seq<Seq<u8>>
    decreases pieces.len(),
{
    if pieces.len() == 0 {
        Seq::empty()
    } else if pieces.last().len() == 0 {
        nonempty(pieces.drop_last())
    } else {
        nonempty(pieces.drop_last()).push(pieces.last())
    }
}

pub fn keep_nonempty(pieces: &Vec<Vec<u8>>) -> (kept: Vec<Vec<u8>>)
    ensures
        views(kept@) == nonempty(views(pieces@)),
{
    let mut kept: Vec<Vec<u8>> = Vec::new();
    let mut i: usize = 0;
    proof {
        assert(views(pieces@).subrange(0, 0) =~= Seq::<Seq<u8>>::empty());
        assert(views(kept@) =~= Seq::<Seq<u8>>::empty());
    }
    while i < pieces.len()
        invariant
            i <= pieces@.len(),
            views(kept@) == nonempty(views(pieces@).subrange(0, i as int)),
        decreases pieces@.len() - i,
    {
        let ghost part = views(pieces@).subrange(0, i + 1);
        proof {
            assert(part.drop_last() =~= views(pieces@).subrange(0, i as int));
            assert(part.last() == pieces@[i as int]@);
        }
        if pieces[i].len() > 0 {
            let ghost before = views(kept@);
            kept.push(copy_bytes(pieces[i].as_slice()));
            proof {
                assert(views(kept@) =~= before.push(pieces@[i as int]@));
            }
        }
        i += 1;
    }
    proof {
        assert(views(pieces@).subrange(0, i as int) =~= views(pieces@));
    }
    kept
}

pub open spec fn tree_mode(field: Seq<u8>) -> Option<u32> {
    if field == utf8("100644"@) {
        Some(PLAIN_MODE)
    } else if field == utf8("100755"@) {
        Some(PROGRAM_MODE)
    } else if field == utf8("120000"@) {
        Some(LINK_MODE)
    } else {
        None
    }
}

/// The fields in front of the path.
pub open spec fn header_fields(raw: Seq<u8>) -> Seq<Seq<u8>> {
    nonempty(split_at_each(raw.subrange(0, first_index(raw, 9)), 32))
}

/// The path behind the tab.
pub open spec fn listed_path(raw: Seq<u8>) -> Seq<u8> {
    raw.subrange(first_index(raw, 9) + 1, raw.len() as int)
}

/// Why a line of a listing cannot be taken over.
pub open spec fn listing_failure(raw: Seq<u8>, object_format: Seq<char>) -> Option<Failure> {
    let fields = header_fields(raw);
    let f = or_fail(
        None,
        first_index(raw, 9) < raw.len(),
        "TEMPLATE_INVALID"@,
        "ls-tree entry has no path separator"@,
    );
    let f = or_fail(
        f,
        fields.len() == 4,
        "TEMPLATE_INVALID"@,
        "ls-tree entry header is invalid"@,
    );
    let f = or_fail(
        f,
        tree_mode(fields[0]) is Some,
        "TEMPLATE_UNSUPPORTED"@,
        "tree file mode is unsupported"@,
    );
    let f = or_fail(
        f,
        fields[1] == utf8("blob"@),
        "TEMPLATE_UNSUPPORTED"@,
        "tree contains a non-blob entry"@,
    );
    let f = or_fail(
        f,
        utf8_text(fields[2]) is Some,
        "TEMPLATE_INVALID"@,
        "object ID is not ASCII"@,
    );
    let f = first_of(f, oid_failure(fields[2], object_format));
    let f = or_fail(
        f,
        utf8_text(fields[3]) is Some,
        "TEMPLATE_INVALID"@,
        "object size is not ASCII"@,
    );
    let f = or_fail(
        f,
        !(fields[3].len() > 0 && fields[3][0] == 48 && fields[3] != utf8("0"@)) && listed_path(
            raw,
        ).len() > 0,
        "TEMPLATE_INVALID"@,
        "ls-tree entry is not canonical"@,
    );
    or_fail(
        f,
        number_value(fields[3], u64::MAX) is Some,
        "TEMPLATE_INVALID"@,
        "object size is invalid"@,
    )
}

pub open spec fn listed_entry(raw: Seq<u8>) -> ManifestEntryView {
    let fields = header_fields(raw);
    ManifestEntryView {
        mode: tree_mode(fields[0])->0,
        oid: utf8_text(fields[2])->0,
        size: number_value(fields[3], u64::MAX)->0,
        path: listed_path(raw),
    }
}

fn mode_of(field: &[u8]) -> (mode: Option<u32>)
    ensures
        mode == tree_mode(field@),
{
    if same_bytes(field, "100644".as_bytes()) {
        Some(PLAIN_MODE)
    } else if same_bytes(field, "100755".as_bytes()) {
        Some(PROGRAM_MODE)
    } else if same_bytes(field, "120000".as_bytes()) {
        Some(LINK_MODE)
    } else {
        None
    }
}

/// Reads one line of a tree's listing.
pub fn parse_ls_tree(raw: &[u8], object_format: &str) -> (entry: Result<ManifestEntry, Error>)
    ensures
        failure(entry) == listing_failure(raw@, object_format@),
        entry matches Ok(entry) ==> entry@ == listed_entry(raw@),
{
    let tab: usize = find_byte(raw, 9);
    if tab >= raw.len() {
        return Err(Error::new("TEMPLATE_INVALID", "ls-tree entry has no path separator"));
    }
    let pieces = split(slice_subrange(raw, 0, tab), 32);
    let fields = keep_nonempty(&pieces);
    proof {
        assert(views(fields@) == header_fields(raw@));
        assert(forall|i: int| 0 <= i < fields@.len() ==> views(fields@)[i] == #[trigger] fields@[i]@);
    }
    if fields.len() != 4 {
        return Err(Error::new("TEMPLATE_INVALID", "ls-tree entry header is invalid"));
    }
    let mode: u32 = match mode_of(fields[0].as_slice()) {
        Some(mode) => mode,
        None => {
            return Err(Error::new("TEMPLATE_UNSUPPORTED", "tree file mode is unsupported"));
        },
    };
    if !same_bytes(fields[1].as_slice(), "blob".as_bytes()) {
        return Err(Error::new("TEMPLATE_UNSUPPORTED", "tree contains a non-blob entry"));
    }
    let oid = match decode_text(fields[2].as_slice()) {
        Some(oid) => oid,
        None => {
            return Err(Error::new("TEMPLATE_INVALID", "object ID is not ASCII"));
        },
    };
    validate_oid(oid.as_str(), object_format)?;
    let size = fields[3].as_slice();
    if decode_text(size).is_none() {
        return Err(Error::new("TEMPLATE_INVALID", "object size is not ASCII"));
    }
    let path = slice_subrange(raw, tab + 1, raw.len());
    if (size.len() > 0 && size[0] == 48 && !same_bytes(size, "0".as_bytes())) || path.len() == 0 {
        return Err(Error::new("TEMPLATE_INVALID", "ls-tree entry is not canonical"));
    }
    match read_number(size, u64::MAX) {
        None => Err(Error::new("TEMPLATE_INVALID", "object size is invalid")),
        Some(size) => Ok(ManifestEntry { mode, oid, size, path: copy_bytes(path) }),
    }
}

/// Why a line of a tree's listing is refused.
pub open spec fn entry_failure(raw: Seq<u8>, object_format: Seq<char>) -> Option<Failure> {
    or_fail(
        listing_failure(raw, object_format),
        is_supported_path(listed_path(raw)),
        "TEMPLATE_UNSUPPORTED"@,
        "tree path is unsupported"@,
    )
}

/// Reads one line of a tree's listing, and checks that its path may stand in a template.
pub fn read_entry(raw: &[u8], object_format: &str) -> (entry: Result<ManifestEntry, Error>)
    ensures
        failure(entry) == entry_failure(raw@, object_format@),
        entry matches Ok(entry) ==> entry@ == listed_entry(raw@),
{
    let entry = parse_ls_tree(raw, object_format)?;
    validate_path(entry.path.as_slice())?;
    Ok(entry)
}

impl ManifestEntryView {
    /// What is hashed of an entry, field by field.
    pub open spec fn fields(self) -> Seq<Seq<u8>> {
        seq![
            utf8("entry"@),
            utf8(radix_text(self.mode as nat, 8)),
            utf8(self.oid),
            utf8(decimal_text(self.size as nat)),
            self.path,
        ]
    }

    /// Its lengths fit the length prefixes.
    pub open spec fn fits(self) -> bool {
        utf8(self.oid).len() < pow256(8) && self.path.len() < pow256(8)
    }
}

pub open spec fn manifest_fields(entries: Seq<ManifestEntryView>) -> Seq<Seq<u8>>
    decreases entries.len(),
{
    if entries.len() == 0 {
        Seq::empty()
    } else {
        manifest_fields(entries.drop_last()) + entries.last().fields()
    }
}

/// The message that a manifest is hashed as.
pub open spec fn manifest_message(entries: Seq<ManifestEntryView>) -> Seq<u8> {
    framed(manifest_fields(entries))
}

proof fn lemma_framed_concat(left: Seq<Seq<u8>>, right: Seq<Seq<u8>>)
    ensures
        framed(left + right) == framed(left) + framed(right),
    decreases right.len(),
{
    if right.len() == 0 {
        assert(left + right =~= left);
        assert(framed(left) + framed(right) =~= framed(left));
    } else {
        lemma_framed_concat(left, right.drop_last());
        assert((left + right).drop_last() =~= left + right.drop_last());
        assert((left + right).last() == right.last());
        assert(framed(left + right) =~= framed(left) + framed(right));
    }
}

/// What an entry adds to the message.
pub fn add_entry(entry: &ManifestEntry) -> (message: Vec<u8>)
    ensures
        message@ == framed(entry@.fields()),
{
    let mut message: Vec<u8> = Vec::new();
    push_frame(&mut message, "entry".as_bytes());
    push_frame(&mut message, to_octal(entry.mode as u64).as_str().as_bytes());
    push_frame(&mut message, entry.oid.as_str().as_bytes());
    push_frame(&mut message, to_decimal(entry.size).as_str().as_bytes());
    push_frame(&mut message, entry.path.as_slice());
    proof {
        let fields = entry@.fields();
        assert(fields.drop_last() =~= seq![fields[0], fields[1], fields[2], fields[3]]);
        assert(fields.drop_last().drop_last() =~= seq![fields[0], fields[1], fields[2]]);
        assert(fields.drop_last().drop_last().drop_last() =~= seq![fields[0], fields[1]]);
        assert(fields.drop_last().drop_last().drop_last().drop_last() =~= seq![fields[0]]);
        assert(fields.drop_last().drop_last().drop_last().drop_last().drop_last() =~= Seq::<
            Seq<u8>,
        >::empty());
        reveal_with_fuel(framed, 6);
        assert(message@ =~= framed(fields));
    }
    message
}

/// A manifest that is being read.
pub struct Manifest {
    hasher: MessageHasher,
    count: u64,
    listed: Ghost<Seq<ManifestEntryView>>,
}

impl View for Manifest {
    type V = Seq<ManifestEntryView>;

    closed spec fn view(&self) -> Seq<ManifestEntryView> {
        self.listed@
    }
}

impl Manifest {
    #[verifier::type_invariant]
    spec fn accounts(self) -> bool {
        &&& self.hasher.message() == manifest_message(self.listed@)
        &&& self.count == self.listed@.len()
    }

    pub fn new() -> (manifest: Self)
        ensures
            manifest@.len() == 0,
    {
        proof {
            assert(manifest_message(Seq::empty()) =~= Seq::<u8>::empty());
        }
        Manifest { hasher: MessageHasher::new(), count: 0, listed: Ghost(Seq::empty()) }
    }

    /// The message stays within the length that can be hashed.
    pub open spec fn has_room(self, entry: ManifestEntryView) -> bool {
        manifest_message(self@).len() + framed(entry.fields()).len() < MESSAGE_LIMIT
    }

    pub fn fits(&self, entry: &ManifestEntry) -> (fits: bool)
        ensures
            fits == self.has_room(entry@),
    {
        proof {
            use_type_invariant(self);
        }
        let message = add_entry(entry);
        let room: u64 = MESSAGE_LIMIT - self.hasher.len();
        (message.len() as u64) < room
    }

    /// Takes in one more entry.
    pub fn add_entry(self, entry: &ManifestEntry) -> (longer: Result<Self, Error>)
        requires
            self.has_room(entry@),
        ensures
            failure(longer) == or_fail(
                None,
                self@.len() < u64::MAX,
                "TEMPLATE_INVALID"@,
                "manifest entry count overflow"@,
            ),
            longer matches Ok(longer) ==> longer@ == self@.push(entry@),
    {
        proof {
            use_type_invariant(&self);
        }
        let message = add_entry(entry);
        let Manifest { hasher, count, listed } = self;
        if count == u64::MAX {
            return Err(Error::new("TEMPLATE_INVALID", "manifest entry count overflow"));
        }
        let ghost next = listed@.push(entry@);
        proof {
            assert(next.drop_last() =~= listed@);
            lemma_framed_concat(manifest_fields(listed@), entry@.fields());
        }
        Ok(
            Manifest {
                hasher: hasher.update(message.as_slice()),
                count: count + 1,
                listed: Ghost(next),
            },
        )
    }

    /// The receipt of the manifest.
    pub fn finish(self) -> (receipt: ManifestReceipt)
        ensures
            receipt.digest@ == digest_text(manifest_message(self@)),
            receipt.entries == self@.len(),
            utf8(receipt.digest@).len() == 64,
            all_lower_hex(utf8(receipt.digest@)),
    {
        proof {
            use_type_invariant(&self);
        }
        let Manifest { hasher, count, listed } = self;
        ManifestReceipt { digest: hasher.finish(), entries: count }
    }
}

proof fn lemma_fields_count(entries: Seq<ManifestEntryView>)
    ensures
        manifest_fields(entries).len() == 5 * entries.len(),
    decreases entries.len(),
{
    if entries.len() > 0 {
        lemma_fields_count(entries.drop_last());
    }
}

proof fn lemma_fields_fit(entries: Seq<ManifestEntryView>)
    requires
        forall|i: int| 0 <= i < entries.len() ==> (#[trigger] entries[i]).fits(),
    ensures
        forall|i: int|
            0 <= i < manifest_fields(entries).len() ==> (#[trigger] manifest_fields(
                entries,
            )[i]).len() < pow256(8),
    decreases entries.len(),
{
    if entries.len() > 0 {
        let rest = entries.drop_last();
        assert forall|i: int| 0 <= i < rest.len() implies (#[trigger] rest[i]).fits() by {
            assert(rest[i] == entries[i]);
        }
        lemma_fields_fit(rest);
        let last = entries.last();
        assert(last.fits()) by {
            assert(entries[entries.len() - 1].fits());
        }
        lemma_entry_fits(last);
        let n = manifest_fields(rest).len() as int;
        assert forall|i: int| 0 <= i < manifest_fields(entries).len() implies (
        #[trigger] manifest_fields(entries)[i]).len() < pow256(8) by {
            if i < n {
                assert(manifest_fields(entries)[i] == manifest_fields(rest)[i]);
            } else {
                assert(manifest_fields(entries)[i] == last.fields()[i - n]);
            }
        }
    }
}

proof fn lemma_entry_fits(entry: ManifestEntryView)
    requires
        entry.fits(),
    ensures
        forall|i: int| 0 <= i < 5 ==> (#[trigger] entry.fields()[i]).len() < pow256(8),
{
    lemma_pow256_eight();
    reveal_strlit("entry");
    lemma_utf8_ascii("entry"@);
    lemma_octal_ascii(entry.mode as nat);
    lemma_utf8_ascii(radix_text(entry.mode as nat, 8));
    lemma_decimal_length(entry.size as nat);
    lemma_decimal_text(entry.size as nat);
}

proof fn lemma_decimal_length(value: nat)
    ensures
        utf8(decimal_text(value)).len() <= value / 2 + 1,
    decreases value,
{
    lemma_decimal_text(value);
    if value >= 10 {
        lemma_decimal_length(value / 10);
        lemma_decimal_text(value / 10);
        let front = decimal_text(value / 10);
        let digit = crate::notation::digit_char((value % 10) as int);
        assert(decimal_text(value) =~= front + seq![digit]);
        crate::bytes::lemma_utf8_concat(front, seq![digit]);
        lemma_utf8_ascii(seq![digit]);
    } else {
        let digit = crate::notation::digit_char(value as int);
        assert(decimal_text(value) =~= seq![digit]);
        lemma_utf8_ascii(seq![digit]);
    }
}

/// The message tells manifests apart: manifests with the same message list the same entries in the same
/// order.
pub proof fn law_manifest_message_is_injective(
    left: Seq<ManifestEntryView>,
    right: Seq<ManifestEntryView>,
)
    requires
        forall|i: int| 0 <= i < left.len() ==> (#[trigger] left[i]).fits(),
        forall|i: int| 0 <= i < right.len() ==> (#[trigger] right[i]).fits(),
        manifest_message(left) == manifest_message(right),
    ensures
        left == right,
{
    lemma_fields_fit(left);
    lemma_fields_fit(right);
    law_framing_is_injective(manifest_fields(left), manifest_fields(right));
    lemma_same_fields(left, right);
}

proof fn lemma_same_fields(left: Seq<ManifestEntryView>, right: Seq<ManifestEntryView>)
    requires
        manifest_fields(left) == manifest_fields(right),
    ensures
        left == right,
    decreases left.len(),
{
    lemma_fields_count(left);
    lemma_fields_count(right);
    if left.len() == 0 {
        assert(left =~= right);
    } else {
        let a = left.last();
        let b = right.last();
        let l = manifest_fields(left);
        let r = manifest_fields(right);
        let n = l.len() - 5;
        lemma_fields_count(left.drop_last());
        lemma_fields_count(right.drop_last());
        assert(l.subrange(0, n) =~= manifest_fields(left.drop_last()));
        assert(r.subrange(0, n) =~= manifest_fields(right.drop_last()));
        lemma_same_fields(left.drop_last(), right.drop_last());
        assert(a.fields()[1] == l[n + 1] && b.fields()[1] == r[n + 1]);
        assert(a.fields()[2] == l[n + 2] && b.fields()[2] == r[n + 2]);
        assert(a.fields()[3] == l[n + 3] && b.fields()[3] == r[n + 3]);
        assert(a.fields()[4] == l[n + 4] && b.fields()[4] == r[n + 4]);
        lemma_utf8_injective(radix_text(a.mode as nat, 8), radix_text(b.mode as nat, 8));
        lemma_octal_injective(a.mode as nat, b.mode as nat);
        lemma_utf8_injective(a.oid, b.oid);
        lemma_decimal_text(a.size as nat);
        lemma_decimal_text(b.size as nat);
        assert(left =~= left.drop_last().push(a));
        assert(right =~= right.drop_last().push(b));
    }
}

/// The line with which an object is asked for.
pub fn batch_request(oid: &str) -> (request: Vec<u8>)
    ensures
        request@ == utf8(oid@ + "\n"@),
{
    bytes_of(join2(oid, "\n").as_str())
}

/// The line with which an object is announced.
pub open spec fn batch_header(entry: ManifestEntryView) -> Seq<char> {
    entry.oid + " blob "@ + decimal_text(entry.size as nat)
}

/// Holds the announcement of an object against the manifest.
pub fn check_batch_header(header: &[u8], entry: &ManifestEntry) -> (checked: Result<(), Error>)
    ensures
        failure(checked) == or_fail(
            None,
            header@ == utf8(batch_header(entry@)),
            "TEMPLATE_INVALID"@,
            "cat-file batch header did not match the raw manifest"@,
        ),
{
    let mut expected = join2(entry.oid.as_str(), " blob ");
    expected.append(to_decimal(entry.size).as_str());
    if !same_bytes(header, expected.as_str().as_bytes()) {
        return Err(
            Error::new(
                "TEMPLATE_INVALID",
                "cat-file batch header did not match the raw manifest",
            ),
        );
    }
    Ok(())
}

/// The arguments with which Git lists a tree.
pub fn listing_args(tree: &str) -> (args: Vec<Vec<u8>>)
    ensures
        views(args@) == seq![
            utf8("ls-tree"@),
            utf8("-rz"@),
            utf8("-r"@),
            utf8("--long"@),
            utf8(tree@),
        ],
{
    let args: Vec<Vec<u8>> = vec![
        bytes_of("ls-tree"),
        bytes_of("-rz"),
        bytes_of("-r"),
        bytes_of("--long"),
        bytes_of(tree),
    ];
    proof {
        assert(views(args@) =~= seq![
            utf8("ls-tree"@),
            utf8("-rz"@),
            utf8("-r"@),
            utf8("--long"@),
            utf8(tree@),
        ]);
    }
    args
}

} // verus!
