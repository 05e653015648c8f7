//! The objects of a session's private repository: which of them its authority has as well, and so may
//! go, and that nothing stands among them that is not known.

use crate::authority::{failure, or_fail, Error, Failure, Identity};
use crate::bytes::{
    concat, copy_bytes, same_bytes, same_text, slice_view, strip_prefix, strip_suffix, utf8,
    without_prefix, without_suffix,
};
use crate::inspection::{first_failure, first_of, lemma_first_failure, lemma_no_failure};
use crate::notation::all_lower_hex;
use crate::record_txn::basename_failure;
use crate::session::{
    authority_path_from_record, cstring, lower_hex, path_failure, require_session, session_recovery,
    SessionRecord, SessionView,
};
use crate::session_roots::{
    bind_failure, bind_path, is_git_metadata_directory, private_git_metadata_directory,
};
use vstd::prelude::*;

verus! {

/// The name of a directory of loose objects: the first two digits of theirs.
pub open spec fn is_fanout_name(name: Seq<u8>) -> bool {
    name.len() == 2 && all_lower_hex(name)
}

pub fn loose_fanout_name(name: &[u8]) -> (is: bool)
    ensures
        is == is_fanout_name(name@),
{
    name.len() == 2 && lower_hex(name)
}

pub open spec fn is_loose_owner(identity: Identity, uid: u32) -> bool {
    identity.is_regular() && identity.uid == uid
}

pub fn loose_regular_owner(identity: Identity, uid: u32) -> (is: bool)
    ensures
        is == is_loose_owner(identity, uid),
{
    identity.regular() && identity.uid == uid
}

/// What stands between the fixed parts of a name.
pub open spec fn between(name: Seq<u8>, prefix: Seq<u8>, suffix: Seq<u8>) -> Option<Seq<u8>> {
    match without_prefix(name, prefix) {
        None => None,
        Some(rest) => without_suffix(rest, suffix),
    }
}

fn strip_both<'a>(name: &'a [u8], prefix: &[u8], suffix: &[u8]) -> (rest: Option<&'a [u8]>)
    ensures
        slice_view(rest) == between(name@, prefix@, suffix@),
{
    match strip_prefix(name, prefix) {
        None => None,
        Some(rest) => strip_suffix(rest, suffix),
    }
}

pub open spec fn is_oid_text(oid: Option<Seq<u8>>, oid_length: nat) -> bool {
    oid matches Some(oid) && oid.len() == oid_length && all_lower_hex(oid)
}

/// The name of a pack, or of a file that belongs to one. The first suffix that fits decides.
pub open spec fn is_pack_entry(name: Seq<u8>, oid_length: nat) -> bool {
    let pack = between(name, utf8("pack-"@), utf8(".pack"@));
    let index = between(name, utf8("pack-"@), utf8(".idx"@));
    let reverse = between(name, utf8("pack-"@), utf8(".rev"@));
    if pack is Some {
        is_oid_text(pack, oid_length)
    } else if index is Some {
        is_oid_text(index, oid_length)
    } else {
        is_oid_text(reverse, oid_length)
    }
}

fn oid_text(oid: &[u8], oid_length: usize) -> (is: bool)
    ensures
        is == is_oid_text(Some(oid@), oid_length as nat),
{
    oid.len() == oid_length && lower_hex(oid)
}

pub fn pack_entry_name(name: &[u8], oid_length: usize) -> (is: bool)
    ensures
        is == is_pack_entry(name@, oid_length as nat),
{
    match strip_both(name, "pack-".as_bytes(), ".pack".as_bytes()) {
        Some(oid) => {
            return oid_text(oid, oid_length);
        },
        None => {},
    }
    match strip_both(name, "pack-".as_bytes(), ".idx".as_bytes()) {
        Some(oid) => {
            return oid_text(oid, oid_length);
        },
        None => {},
    }
    match strip_both(name, "pack-".as_bytes(), ".rev".as_bytes()) {
        Some(oid) => oid_text(oid, oid_length),
        None => false,
    }
}

/// The file without which an entry among packs is of no use.
pub open spec fn pack_pair(name: Seq<u8>) -> Option<Seq<u8>> {
    if without_suffix(name, utf8(".pack"@)) is Some {
        Some(without_suffix(name, utf8(".pack"@))->0 + utf8(".idx"@))
    } else if without_suffix(name, utf8(".idx"@)) is Some {
        Some(without_suffix(name, utf8(".idx"@))->0 + utf8(".pack"@))
    } else if without_suffix(name, utf8(".rev"@)) is Some {
        Some(without_suffix(name, utf8(".rev"@))->0 + utf8(".pack"@))
    } else {
        None
    }
}

pub fn pack_entry_pair(name: &[u8]) -> (pair: Option<Vec<u8>>)
    ensures
        match pair {
            Some(pair) => pack_pair(name@) == Some(pair@),
            None => pack_pair(name@) is None,
        },
{
    match strip_suffix(name, ".pack".as_bytes()) {
        Some(stem) => {
            return Some(concat(stem, ".idx".as_bytes()));
        },
        None => {},
    }
    match strip_suffix(name, ".idx".as_bytes()) {
        Some(stem) => {
            return Some(concat(stem, ".pack".as_bytes()));
        },
        None => {},
    }
    match strip_suffix(name, ".rev".as_bytes()) {
        Some(stem) => Some(concat(stem, ".pack".as_bytes())),
        None => None,
    }
}

/// A pack and its index are each other's pair.
pub proof fn law_packs_and_indexes_pair(stem: Seq<u8>)
    ensures
        pack_pair(stem + utf8(".pack"@)) == Some(stem + utf8(".idx"@)),
        pack_pair(stem + utf8(".idx"@)) == Some(stem + utf8(".pack"@)),
        pack_pair(stem + utf8(".rev"@)) == Some(stem + utf8(".pack"@)),
{
    lemma_pack_suffixes();
    let pack = utf8(".pack"@);
    let index = utf8(".idx"@);
    let reverse = utf8(".rev"@);
    lemma_ends(stem, pack);
    lemma_ends(stem, index);
    lemma_ends(stem, reverse);
    lemma_ends_otherwise(stem + index, pack);
    lemma_ends_otherwise(stem + reverse, pack);
    lemma_ends_otherwise(stem + reverse, index);
}

/// The suffixes of packs and what belongs to them end differently.
proof fn lemma_pack_suffixes()
    ensures
        utf8(".pack"@).len() == 5,
        utf8(".pack"@).last() == 107,
        utf8(".idx"@).len() == 4,
        utf8(".idx"@).last() == 120,
        utf8(".rev"@).len() == 4,
        utf8(".rev"@).last() == 118,
{
    reveal_strlit(".pack");
    reveal_strlit(".idx");
    reveal_strlit(".rev");
    crate::bytes::lemma_utf8_ascii(".pack"@);
    crate::bytes::lemma_utf8_ascii(".idx"@);
    crate::bytes::lemma_utf8_ascii(".rev"@);
}

proof fn lemma_ends(stem: Seq<u8>, suffix: Seq<u8>)
    ensures
        without_suffix(stem + suffix, suffix) == Some(stem),
{
    let name = stem + suffix;
    assert(suffix =~= name.subrange(name.len() - suffix.len(), name.len() as int));
    assert(name.subrange(0, name.len() - suffix.len()) =~= stem);
}

proof fn lemma_ends_otherwise(name: Seq<u8>, suffix: Seq<u8>)
    requires
        name.len() > 0,
        suffix.len() > 0,
        name.last() != suffix.last(),
    ensures
        without_suffix(name, suffix) is None,
{
    if suffix.is_suffix_of(name) {
        let end = name.subrange(name.len() - suffix.len(), name.len() as int);
        assert(suffix =~= end);
        assert(end.last() == name.last());
    }
}

/// A directory of Git's as it is found under a name.
#[derive(Debug)]
pub struct MetadataDirectory {
    pub entry: Result<Identity, Error>,
    pub opened: Result<(), Error>,
    pub descriptor: Result<Identity, Error>,
    pub volume: Result<String, Error>,
}

impl MetadataDirectory {
    pub open spec fn directory_failure(
        self,
        dev: u64,
        volume: Seq<char>,
        detail: Seq<char>,
        uid: u32,
    ) -> Option<Failure> {
        let code = "SESSION_RECOVERY_REQUIRED"@;
        let f = failure(self.entry);
        let f = first_of(f, failure(self.opened));
        let f = first_of(f, failure(self.descriptor));
        let f = or_fail(
            f,
            self.descriptor->Ok_0 == self.entry->Ok_0 && is_git_metadata_directory(
                self.entry->Ok_0,
                uid,
            ) && self.entry->Ok_0.dev == dev,
            code,
            detail,
        );
        let f = first_of(f, failure(self.volume));
        or_fail(f, self.volume->Ok_0@ == volume, code, detail)
    }
}

/// A directory of Git's is owned, on the expected volume, and the one that its name leads to.
pub fn open_git_metadata_directory(
    seen: MetadataDirectory,
    dev: u64,
    volume: &str,
    detail: &str,
    uid: u32,
) -> (identity: Result<Identity, Error>)
    ensures
        failure(identity) == seen.directory_failure(dev, volume@, detail@, uid),
        identity matches Ok(identity) ==> seen.entry == Ok::<Identity, Error>(identity),
{
    let identity = seen.entry?;
    seen.opened?;
    let descriptor = seen.descriptor?;
    require_session(
        descriptor == identity && private_git_metadata_directory(identity, uid) && identity.dev
            == dev,
        detail,
    )?;
    let found = seen.volume?;
    require_session(same_text(found.as_str(), volume), detail)?;
    Ok(identity)
}

/// A file among objects as it is found: opened and looked at, and whether it is on the volume.
#[derive(Debug)]
pub struct ObjectFile {
    pub opened: Result<Result<Identity, Error>, String>,
    pub same_volume: Result<bool, Error>,
}

/// A file that only its owner can write to, that has one name, beside the directory it stands in.
pub open spec fn is_object_file(identity: Identity, dev: u64, uid: u32) -> bool {
    &&& identity.is_regular()
    &&& identity.uid == uid
    &&& identity.nlink == 1
    &&& identity.mode & 0o022 == 0
    &&& identity.dev == dev
}

impl ObjectFile {
    pub open spec fn file_failure(
        self,
        expected: Identity,
        dev: u64,
        detail: Seq<char>,
        uid: u32,
    ) -> Option<Failure> {
        let code = "SESSION_RECOVERY_REQUIRED"@;
        let f = or_fail(None, is_object_file(expected, dev, uid), code, detail);
        let f = first_of(
            f,
            match self.opened {
                Err(words) => Some((code, detail + ": "@ + words@)),
                Ok(opened) => failure(opened),
            },
        );
        let f = or_fail(f, self.opened->Ok_0->Ok_0 == expected, code, detail);
        let f = first_of(f, failure(self.same_volume));
        or_fail(f, self.same_volume->Ok_0, code, detail)
    }
}

pub fn validate_authority_regular(
    seen: &ObjectFile,
    expected: Identity,
    dev: u64,
    detail: &str,
    uid: u32,
) -> (sound: Result<(), Error>)
    ensures
        failure(sound) == seen.file_failure(expected, dev, detail@, uid),
{
    require_session(
        expected.regular() && expected.uid == uid && expected.nlink == 1 && expected.mode & 0o022
            == 0 && expected.dev == dev,
        detail,
    )?;
    let opened = match &seen.opened {
        Err(words) => {
            return Err(Error::io("SESSION_RECOVERY_REQUIRED", detail, words.as_str()));
        },
        Ok(opened) => opened,
    };
    let opened = match opened {
        Err(error) => {
            return Err(error.copy());
        },
        Ok(opened) => *opened,
    };
    require_session(opened == expected, detail)?;
    match &seen.same_volume {
        Err(error) => Err(error.copy()),
        Ok(same) => require_session(*same, detail),
    }
}

/// What a directory among objects holds.
#[derive(Clone, Copy, Debug, PartialEq, Eq, Structural)]
pub enum Shelf {
    /// The loose objects of one fanout.
    Fanout,
    /// What Git notes of objects.
    Info,
    /// The packs of the authority.
    Pack,
    /// The packs of a private repository.
    PrivatePack,
}

impl Shelf {
    pub open spec fn label(self) -> Seq<char> {
        match self {
            Shelf::Fanout => "authority loose object"@,
            Shelf::Info => "authority object info"@,
            Shelf::Pack => "authority packed object"@,
            Shelf::PrivatePack => "private packed object"@,
        }
    }

    pub open spec fn takes(self, name: Seq<u8>, oid_length: nat) -> bool {
        match self {
            Shelf::Fanout => name.len() + 2 == oid_length && all_lower_hex(name),
            Shelf::Info => name == utf8("commit-graph"@) || name == utf8("packs"@),
            Shelf::Pack | Shelf::PrivatePack => is_pack_entry(name, oid_length),
        }
    }

    pub open spec fn name_detail(self) -> Seq<char> {
        match self {
            Shelf::Fanout => "authority loose object has an unrecognized name or type"@,
            Shelf::Info => "authority object info contains an unrecognized entry"@,
            Shelf::Pack | Shelf::PrivatePack => "packed object has an unrecognized name or type"@,
        }
    }

    pub open spec fn identity_detail(self) -> Seq<char> {
        match self {
            Shelf::Fanout => "authority loose object has an unsafe identity"@,
            Shelf::Info => "authority object info has an unsafe identity"@,
            Shelf::Pack | Shelf::PrivatePack => "packed object has an unsafe identity"@,
        }
    }

    pub open spec fn pairs(self) -> bool {
        self is Pack || self is PrivatePack
    }

    fn holds(self, name: &[u8], oid_length: usize) -> (takes: bool)
        ensures
            takes == self.takes(name@, oid_length as nat),
    {
        match self {
            Shelf::Fanout => oid_length >= 2 && name.len() == oid_length - 2 && lower_hex(name),
            Shelf::Info => same_bytes(name, "commit-graph".as_bytes()) || same_bytes(
                name,
                "packs".as_bytes(),
            ),
            Shelf::Pack | Shelf::PrivatePack => pack_entry_name(name, oid_length),
        }
    }

    fn words(self) -> (words: (&'static str, &'static str, &'static str))
        ensures
            words.0@ == self.label(),
            words.1@ == self.name_detail(),
            words.2@ == self.identity_detail(),
    {
        match self {
            Shelf::Fanout => (
                "authority loose object",
                "authority loose object has an unrecognized name or type",
                "authority loose object has an unsafe identity",
            ),
            Shelf::Info => (
                "authority object info",
                "authority object info contains an unrecognized entry",
                "authority object info has an unsafe identity",
            ),
            Shelf::Pack => (
                "authority packed object",
                "packed object has an unrecognized name or type",
                "packed object has an unsafe identity",
            ),
            Shelf::PrivatePack => (
                "private packed object",
                "packed object has an unrecognized name or type",
                "packed object has an unsafe identity",
            ),
        }
    }
}

/// An entry of such a directory as it is found.
#[derive(Debug)]
pub struct ChildSeen {
    pub name: Vec<u8>,
    pub entry: Result<Identity, Error>,
    pub file: ObjectFile,
}

pub open spec fn child_names(children: Seq<ChildSeen>) -> Seq<Seq<u8>> {
    Seq::new(children.len(), |i: int| children[i].name@)
}

/// The entries of a directory, each with its node.
pub open spec fn listed(children: Seq<ChildSeen>) -> Seq<(Seq<u8>, Identity)> {
    Seq::new(children.len(), |i: int| (children[i].name@, children[i].entry->Ok_0))
}

pub open spec fn child_failure(
    shelf: Shelf,
    child: ChildSeen,
    names: Seq<Seq<u8>>,
    dev: u64,
    oid_length: nat,
    uid: u32,
) -> Option<Failure> {
    let code = "SESSION_RECOVERY_REQUIRED"@;
    let f = basename_failure(child.name@, shelf.label(), "SESSION_CORRUPT"@);
    let f = first_of(f, failure(child.entry));
    let f = or_fail(f, shelf.takes(child.name@, oid_length), code, shelf.name_detail());
    let f = first_of(
        f,
        child.file.file_failure(child.entry->Ok_0, dev, shelf.identity_detail(), uid),
    );
    let f = or_fail(
        f,
        shelf.pairs() ==> pack_pair(child.name@) is Some,
        code,
        "packed object has an unrecognized name or type"@,
    );
    or_fail(
        f,
        shelf.pairs() ==> names.contains(pack_pair(child.name@)->0),
        code,
        "packed object is missing its pair"@,
    )
}

pub open spec fn child_failures(
    shelf: Shelf,
    children: Seq<ChildSeen>,
    dev: u64,
    oid_length: nat,
    uid: u32,
) -> Seq<Option<Failure>> {
    Seq::new(
        children.len(),
        |i: int| child_failure(shelf, children[i], child_names(children), dev, oid_length, uid),
    )
}

fn has_name(children: &Vec<ChildSeen>, name: &[u8]) -> (has: bool)
    ensures
        has == child_names(children@).contains(name@),
{
    let mut i: usize = 0;
    while i < children.len()
        invariant
            i <= children@.len(),
            forall|k: int| 0 <= k < i ==> child_names(children@)[k] != name@,
        decreases children@.len() - i,
    {
        if same_bytes(children[i].name.as_slice(), name) {
            proof {
                assert(child_names(children@)[i as int] == name@);
            }
            return true;
        }
        i = i + 1;
    }
    false
}

fn check_child(
    shelf: Shelf,
    child: &ChildSeen,
    all: &Vec<ChildSeen>,
    dev: u64,
    oid_length: usize,
    uid: u32,
) -> (identity: Result<Identity, Error>)
    ensures
        failure(identity) == child_failure(
            shelf,
            *child,
            child_names(all@),
            dev,
            oid_length as nat,
            uid,
        ),
        identity matches Ok(identity) ==> child.entry == Ok::<Identity, Error>(identity),
{
    let (label, name_detail, identity_detail) = shelf.words();
    cstring(child.name.as_slice(), label)?;
    let identity = match &child.entry {
        Err(error) => {
            return Err(error.copy());
        },
        Ok(identity) => *identity,
    };
    require_session(shelf.holds(child.name.as_slice(), oid_length), name_detail)?;
    validate_authority_regular(&child.file, identity, dev, identity_detail, uid)?;
    match shelf {
        Shelf::Pack | Shelf::PrivatePack => match pack_entry_pair(child.name.as_slice()) {
            None => {
                return Err(session_recovery("packed object has an unrecognized name or type"));
            },
            Some(pair) => {
                require_session(
                    has_name(all, pair.as_slice()),
                    "packed object is missing its pair",
                )?;
            },
        },
        _ => {},
    }
    Ok(identity)
}

/// The entries of a directory among objects, with their nodes.
#[derive(Debug)]
pub struct ObjectEntry {
    pub name: Vec<u8>,
    pub identity: Identity,
}

impl View for ObjectEntry {
    type V = (Seq<u8>, Identity);

    open spec fn view(&self) -> (Seq<u8>, Identity) {
        (self.name@, self.identity)
    }
}

pub open spec fn entries_view(entries: Seq<ObjectEntry>) -> Seq<(Seq<u8>, Identity)> {
    Seq::new(entries.len(), |i: int| entries[i]@)
}

fn classify_children(
    shelf: Shelf,
    children: &Vec<ChildSeen>,
    dev: u64,
    oid_length: usize,
    uid: u32,
) -> (entries: Result<Vec<ObjectEntry>, Error>)
    ensures
        failure(entries) == first_failure(
            child_failures(shelf, children@, dev, oid_length as nat, uid),
        ),
        entries matches Ok(entries) ==> entries_view(entries@) == listed(children@),
{
    let ghost failures = child_failures(shelf, children@, dev, oid_length as nat, uid);
    let mut entries: Vec<ObjectEntry> = Vec::new();
    let mut i: usize = 0;
    while i < children.len()
        invariant
            i <= children@.len(),
            failures == child_failures(shelf, children@, dev, oid_length as nat, uid),
            forall|k: int| 0 <= k < i ==> (#[trigger] failures[k]) is None,
            entries_view(entries@) == listed(children@).take(i as int),
        decreases children@.len() - i,
    {
        match check_child(shelf, &children[i], children, dev, oid_length, uid) {
            Err(error) => {
                proof {
                    lemma_first_failure(failures, i as int);
                }
                return Err(error);
            },
            Ok(identity) => {
                let ghost before = entries_view(entries@);
                entries.push(
                    ObjectEntry { name: copy_bytes(children[i].name.as_slice()), identity },
                );
                proof {
                    assert(entries_view(entries@) =~= before.push(
                        (children@[i as int].name@, identity),
                    ));
                    assert(listed(children@).take(i + 1) =~= listed(children@).take(
                        i as int,
                    ).push(listed(children@)[i as int]));
                }
            },
        }
        i = i + 1;
    }
    proof {
        lemma_first_failure(failures, children@.len() as int);
        assert(listed(children@).take(children@.len() as int) =~= listed(children@));
    }
    Ok(entries)
}

/// A directory among the authority's objects as it is found.
#[derive(Debug)]
pub struct ShelfSeen {
    pub name: Vec<u8>,
    pub directory: MetadataDirectory,
    pub children: Result<Vec<ChildSeen>, Error>,
    pub again: Result<Identity, Error>,
}

/// What a directory of this name holds, where the name is known.
pub open spec fn shelf_named(name: Seq<u8>) -> Option<Shelf> {
    if name == utf8("info"@) {
        Some(Shelf::Info)
    } else if name == utf8("pack"@) {
        Some(Shelf::Pack)
    } else if is_fanout_name(name) {
        Some(Shelf::Fanout)
    } else {
        None
    }
}

pub fn authority_shelf(name: &[u8]) -> (shelf: Option<Shelf>)
    ensures
        shelf == shelf_named(name@),
{
    if same_bytes(name, "info".as_bytes()) {
        Some(Shelf::Info)
    } else if same_bytes(name, "pack".as_bytes()) {
        Some(Shelf::Pack)
    } else if loose_fanout_name(name) {
        Some(Shelf::Fanout)
    } else {
        None
    }
}

/// The entries of a directory, all of them known, and the directory the same before and behind.
pub open spec fn shelf_failure(
    shelf: Shelf,
    children: Result<Vec<ChildSeen>, Error>,
    again: Result<Identity, Error>,
    directory: Identity,
    oid_length: nat,
    uid: u32,
) -> Option<Failure> {
    let f = failure(children);
    let f = first_of(
        f,
        first_failure(child_failures(shelf, children->Ok_0@, directory.dev, oid_length, uid)),
    );
    if shelf.pairs() {
        f
    } else {
        let f = first_of(f, failure(again));
        or_fail(
            f,
            again->Ok_0 == directory,
            "SESSION_RECOVERY_REQUIRED"@,
            if shelf is Info {
                "authority object info changed during classification"@
            } else {
                "authority loose object fanout changed during classification"@
            },
        )
    }
}

fn classify_shelf(
    shelf: Shelf,
    children: Result<Vec<ChildSeen>, Error>,
    again: Result<Identity, Error>,
    directory: Identity,
    oid_length: usize,
    uid: u32,
) -> (entries: Result<Vec<ObjectEntry>, Error>)
    ensures
        failure(entries) == shelf_failure(
            shelf,
            children,
            again,
            directory,
            oid_length as nat,
            uid,
        ),
        entries matches Ok(entries) ==> entries_view(entries@) == listed(children->Ok_0@),
{
    let children = children?;
    let entries = classify_children(shelf, &children, directory.dev, oid_length, uid)?;
    match shelf {
        Shelf::Pack | Shelf::PrivatePack => Ok(entries),
        Shelf::Info => {
            let again = again?;
            require_session(
                again == directory,
                "authority object info changed during classification",
            )?;
            Ok(entries)
        },
        Shelf::Fanout => {
            let again = again?;
            require_session(
                again == directory,
                "authority loose object fanout changed during classification",
            )?;
            Ok(entries)
        },
    }
}

pub fn classify_authority_fanout(
    children: Result<Vec<ChildSeen>, Error>,
    again: Result<Identity, Error>,
    fanout: Identity,
    oid_length: usize,
    uid: u32,
) -> (entries: Result<Vec<ObjectEntry>, Error>)
    ensures
        failure(entries) == shelf_failure(
            Shelf::Fanout,
            children,
            again,
            fanout,
            oid_length as nat,
            uid,
        ),
        entries matches Ok(entries) ==> entries_view(entries@) == listed(children->Ok_0@),
{
    classify_shelf(Shelf::Fanout, children, again, fanout, oid_length, uid)
}

pub fn classify_authority_info(
    children: Result<Vec<ChildSeen>, Error>,
    again: Result<Identity, Error>,
    info: Identity,
    oid_length: usize,
    uid: u32,
) -> (entries: Result<Vec<ObjectEntry>, Error>)
    ensures
        failure(entries) == shelf_failure(
            Shelf::Info,
            children,
            again,
            info,
            oid_length as nat,
            uid,
        ),
        entries matches Ok(entries) ==> entries_view(entries@) == listed(children->Ok_0@),
{
    classify_shelf(Shelf::Info, children, again, info, oid_length, uid)
}

/// The packs of the authority, or those of a private repository.
pub fn classify_pack_entries(
    children: Result<Vec<ChildSeen>, Error>,
    pack: Identity,
    private: bool,
    oid_length: usize,
    uid: u32,
) -> (entries: Result<Vec<ObjectEntry>, Error>)
    ensures
        failure(entries) == ({
            let shelf = if private {
                Shelf::PrivatePack
            } else {
                Shelf::Pack
            };
            let f = failure(children);
            first_of(
                f,
                first_failure(
                    child_failures(shelf, children->Ok_0@, pack.dev, oid_length as nat, uid),
                ),
            )
        }),
        entries matches Ok(entries) ==> entries_view(entries@) == listed(children->Ok_0@),
{
    let children = children?;
    let shelf = if private {
        Shelf::PrivatePack
    } else {
        Shelf::Pack
    };
    classify_children(shelf, &children, pack.dev, oid_length, uid)
}

/// Among packs that are classified, every one has its index, and everything else its pack.
pub proof fn law_packs_are_complete(
    children: Seq<ChildSeen>,
    private: bool,
    dev: u64,
    oid_length: nat,
    uid: u32,
    at: int,
)
    requires
        first_failure(
            child_failures(
                if private {
                    Shelf::PrivatePack
                } else {
                    Shelf::Pack
                },
                children,
                dev,
                oid_length,
                uid,
            ),
        ) is None,
        0 <= at < children.len(),
    ensures
        is_pack_entry(children[at].name@, oid_length),
        pack_pair(children[at].name@) is Some,
        child_names(children).contains(pack_pair(children[at].name@)->0),
        is_object_file(children[at].entry->Ok_0, dev, uid),
{
    let shelf = if private {
        Shelf::PrivatePack
    } else {
        Shelf::Pack
    };
    let failures = child_failures(shelf, children, dev, oid_length, uid);
    lemma_no_failure(failures);
    assert(failures[at] is None);
}

/// One directory among the authority's objects, as it was classified.
#[derive(Debug)]
pub struct AuthorityObjectPlan {
    pub name: Vec<u8>,
    pub identity: Identity,
    pub children: Vec<ObjectEntry>,
}

#[verifier::ext_equal]
pub struct AuthorityObjectView {
    pub name: Seq<u8>,
    pub identity: Identity,
    pub children: Seq<(Seq<u8>, Identity)>,
}

impl View for AuthorityObjectPlan {
    type V = AuthorityObjectView;

    open spec fn view(&self) -> AuthorityObjectView {
        AuthorityObjectView {
            name: self.name@,
            identity: self.identity,
            children: entries_view(self.children@),
        }
    }
}

pub open spec fn authority_entries(entries: Seq<AuthorityObjectPlan>) -> Seq<AuthorityObjectView> {
    Seq::new(entries.len(), |i: int| entries[i]@)
}

/// The objects of the authority, as they were classified.
#[derive(Debug)]
pub struct AuthorityObjectsPlan {
    pub identity: Identity,
    pub volume: String,
    pub entries: Vec<AuthorityObjectPlan>,
}

#[verifier::ext_equal]
pub struct AuthorityObjectsView {
    pub identity: Identity,
    pub volume: Seq<char>,
    pub entries: Seq<AuthorityObjectView>,
}

impl View for AuthorityObjectsPlan {
    type V = AuthorityObjectsView;

    open spec fn view(&self) -> AuthorityObjectsView {
        AuthorityObjectsView {
            identity: self.identity,
            volume: self.volume@,
            entries: authority_entries(self.entries@),
        }
    }
}

fn same_entries(left: &Vec<ObjectEntry>, right: &Vec<ObjectEntry>) -> (same: bool)
    ensures
        same == (entries_view(left@) == entries_view(right@)),
{
    if left.len() != right.len() {
        proof {
            assert(entries_view(left@).len() != entries_view(right@).len());
        }
        return false;
    }
    let mut i: usize = 0;
    while i < left.len()
        invariant
            i <= left@.len(),
            left@.len() == right@.len(),
            forall|k: int| 0 <= k < i ==> entries_view(left@)[k] == entries_view(right@)[k],
        decreases left@.len() - i,
    {
        if left[i].identity != right[i].identity || !same_bytes(
            left[i].name.as_slice(),
            right[i].name.as_slice(),
        ) {
            proof {
                assert(entries_view(left@)[i as int] != entries_view(right@)[i as int]);
            }
            return false;
        }
        i = i + 1;
    }
    proof {
        assert(entries_view(left@) =~= entries_view(right@));
    }
    true
}

impl AuthorityObjectsPlan {
    pub fn same(&self, other: &Self) -> (same: bool)
        ensures
            same == (self@ == other@),
    {
        if self.identity != other.identity || !same_text(
            self.volume.as_str(),
            other.volume.as_str(),
        ) || self.entries.len() != other.entries.len() {
            proof {
                assert(self@.entries.len() == self.entries@.len());
                assert(other@.entries.len() == other.entries@.len());
            }
            return false;
        }
        let mut i: usize = 0;
        while i < self.entries.len()
            invariant
                i <= self.entries@.len(),
                self.entries@.len() == other.entries@.len(),
                forall|k: int| 0 <= k < i ==> self@.entries[k] == other@.entries[k],
            decreases self.entries@.len() - i,
        {
            let left = &self.entries[i];
            let right = &other.entries[i];
            let same: bool = left.identity == right.identity && same_bytes(
                left.name.as_slice(),
                right.name.as_slice(),
            ) && same_entries(&left.children, &right.children);
            proof {
                assert(self@.entries[i as int] == left@);
                assert(other@.entries[i as int] == right@);
            }
            if !same {
                return false;
            }
            proof {
                assert(left@ =~= right@);
            }
            i = i + 1;
        }
        proof {
            assert(self@.entries =~= other@.entries);
        }
        true
    }
}

/// One directory among the authority's objects: its name is known, it is safe, and so is all in it.
pub open spec fn authority_shelf_failure(
    seen: ShelfSeen,
    dev: u64,
    volume: Seq<char>,
    oid_length: nat,
    uid: u32,
) -> Option<Failure> {
    let f = or_fail(
        None,
        shelf_named(seen.name@) is Some,
        "SESSION_RECOVERY_REQUIRED"@,
        "authority object store contains an unrecognized entry"@,
    );
    let f = first_of(
        f,
        basename_failure(seen.name@, "authority object metadata"@, "SESSION_CORRUPT"@),
    );
    let f = first_of(
        f,
        seen.directory.directory_failure(
            dev,
            volume,
            "authority object metadata is not an owned same-volume directory"@,
            uid,
        ),
    );
    first_of(
        f,
        shelf_failure(
            shelf_named(seen.name@)->0,
            seen.children,
            seen.again,
            seen.directory.entry->Ok_0,
            oid_length,
            uid,
        ),
    )
}

pub open spec fn shelf_plan(seen: ShelfSeen) -> AuthorityObjectView {
    AuthorityObjectView {
        name: seen.name@,
        identity: seen.directory.entry->Ok_0,
        children: listed(seen.children->Ok_0@),
    }
}

pub open spec fn shelf_failures(
    shelves: Seq<ShelfSeen>,
    dev: u64,
    volume: Seq<char>,
    oid_length: nat,
    uid: u32,
) -> Seq<Option<Failure>> {
    Seq::new(
        shelves.len(),
        |i: int| authority_shelf_failure(shelves[i], dev, volume, oid_length, uid),
    )
}

pub open spec fn shelf_plans(shelves: Seq<ShelfSeen>) -> Seq<AuthorityObjectView> {
    Seq::new(shelves.len(), |i: int| shelf_plan(shelves[i]))
}

fn check_shelf(seen: ShelfSeen, dev: u64, volume: &str, oid_length: usize, uid: u32) -> (plan: Result<
    AuthorityObjectPlan,
    Error,
>)
    ensures
        failure(plan) == authority_shelf_failure(seen, dev, volume@, oid_length as nat, uid),
        plan matches Ok(plan) ==> plan@ == shelf_plan(seen),
{
    let ShelfSeen { name, directory, children, again } = seen;
    let shelf = match authority_shelf(name.as_slice()) {
        None => {
            return Err(session_recovery("authority object store contains an unrecognized entry"));
        },
        Some(shelf) => shelf,
    };
    cstring(name.as_slice(), "authority object metadata")?;
    let identity = open_git_metadata_directory(
        directory,
        dev,
        volume,
        "authority object metadata is not an owned same-volume directory",
        uid,
    )?;
    let children = classify_shelf(shelf, children, again, identity, oid_length, uid)?;
    Ok(AuthorityObjectPlan { name, identity, children })
}

/// The objects of the authority, all of them known and safe.
pub fn classify_authority_objects(
    shelves: Result<Vec<ShelfSeen>, Error>,
    identity: Identity,
    volume: String,
    oid_length: usize,
    uid: u32,
) -> (plan: Result<AuthorityObjectsPlan, Error>)
    ensures
        failure(plan) == first_of(
            failure(shelves),
            first_failure(
                shelf_failures(shelves->Ok_0@, identity.dev, volume@, oid_length as nat, uid),
            ),
        ),
        plan matches Ok(plan) ==> plan@ == (AuthorityObjectsView {
            identity,
            volume: volume@,
            entries: shelf_plans(shelves->Ok_0@),
        }),
{
    let shelves = shelves?;
    let entries = classify_shelves(shelves, identity.dev, volume.as_str(), oid_length, uid)?;
    Ok(AuthorityObjectsPlan { identity, volume, entries })
}

fn classify_shelves(
    shelves: Vec<ShelfSeen>,
    dev: u64,
    volume: &str,
    oid_length: usize,
    uid: u32,
) -> (entries: Result<Vec<AuthorityObjectPlan>, Error>)
    ensures
        failure(entries) == first_failure(
            shelf_failures(shelves@, dev, volume@, oid_length as nat, uid),
        ),
        entries matches Ok(entries) ==> authority_entries(entries@) == shelf_plans(shelves@),
{
    let ghost all = shelves@;
    let ghost failures = shelf_failures(all, dev, volume@, oid_length as nat, uid);
    let mut rest = shelves;
    let mut entries: Vec<AuthorityObjectPlan> = Vec::new();
    let mut i: usize = 0;
    let count: usize = rest.len();
    while i < count
        invariant
            i <= count,
            count == all.len(),
            all == shelves@,
            rest@ == all.skip(i as int),
            failures == shelf_failures(all, dev, volume@, oid_length as nat, uid),
            forall|k: int| 0 <= k < i ==> (#[trigger] failures[k]) is None,
            authority_entries(entries@) == shelf_plans(all).take(i as int),
        decreases count - i,
    {
        let seen = rest.remove(0);
        proof {
            assert(seen == all[i as int]);
            assert(rest@ =~= all.skip(i + 1));
        }
        match check_shelf(seen, dev, volume, oid_length, uid) {
            Err(error) => {
                proof {
                    lemma_first_failure(failures, i as int);
                }
                return Err(error);
            },
            Ok(plan) => {
                let ghost before = authority_entries(entries@);
                entries.push(plan);
                proof {
                    assert(authority_entries(entries@) =~= before.push(plan@));
                    assert(shelf_plans(all).take(i + 1) =~= shelf_plans(all).take(i as int).push(
                        shelf_plans(all)[i as int],
                    ));
                }
            },
        }
        i = i + 1;
    }
    proof {
        lemma_first_failure(failures, count as int);
        assert(shelf_plans(all).take(count as int) =~= shelf_plans(all));
    }
    Ok(entries)
}

/// The authority and the directory of its objects as they are found.
#[derive(Debug)]
pub struct AuthorityRootSeen {
    pub opened: Result<Result<Identity, Error>, String>,
    pub path: Result<Identity, String>,
    pub bound: Result<Identity, Error>,
    pub again: Result<Identity, Error>,
    pub volume: Result<String, Error>,
    pub objects: MetadataDirectory,
}

impl AuthorityRootSeen {
    pub open spec fn root_failure(self, record: SessionView, uid: u32) -> Option<Failure> {
        let code = "SESSION_RECOVERY_REQUIRED"@;
        let f = path_failure(record.authority_path);
        let f = first_of(
            f,
            match self.opened {
                Err(words) => Some(
                    (
                        code,
                        "cannot open authority for loose object comparison"@ + ": "@ + words@,
                    ),
                ),
                Ok(opened) => failure(opened),
            },
        );
        let f = or_fail(
            f,
            self.opened->Ok_0->Ok_0.is_same_node(record.authority_identity)
                && record.authority_identity.is_directory(),
            code,
            "authority identity changed before loose object comparison"@,
        );
        let f = first_of(f, bind_failure(self.path, self.bound, "authority"@));
        let f = first_of(f, failure(self.again));
        let f = first_of(f, failure(self.volume));
        first_of(
            f,
            self.objects.directory_failure(
                self.again->Ok_0.dev,
                self.volume->Ok_0@,
                "authority object metadata is not an owned same-volume directory"@,
                uid,
            ),
        )
    }
}

/// The directory of the objects of the authority that a record is bound to, and its volume.
pub fn open_record_authority_objects(seen: AuthorityRootSeen, record: &SessionRecord, uid: u32) -> (found:
    Result<(Identity, String), Error>)
    ensures
        failure(found) == seen.root_failure(record@, uid),
        found matches Ok(found) ==> seen.objects.entry == Ok::<Identity, Error>(found.0)
            && seen.volume == Ok::<String, Error>(found.1),
{
    authority_path_from_record(record)?;
    let opened = match seen.opened {
        Err(words) => {
            return Err(
                Error::io(
                    "SESSION_RECOVERY_REQUIRED",
                    "cannot open authority for loose object comparison",
                    words.as_str(),
                ),
            );
        },
        Ok(opened) => opened?,
    };
    require_session(
        opened.same_node(record.authority_identity) && record.authority_identity.directory(),
        "authority identity changed before loose object comparison",
    )?;
    bind_path(seen.path, seen.bound, "authority")?;
    let root = seen.again?;
    let volume = seen.volume?;
    let identity = open_git_metadata_directory(
        seen.objects,
        root.dev,
        volume.as_str(),
        "authority object metadata is not an owned same-volume directory",
        uid,
    )?;
    Ok((identity, volume))
}

} // verus!
