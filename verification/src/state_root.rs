//! The state root below the home directory: finding it, opening or making it, and registering an
//! authority in it.

use crate::authority::{
    failure, fnv1a, or_fail, record_name, record_name_text, Authority, AuthorityView, Error, Failure,
    Identity, Record,
};
use crate::bytes::{
    ends_with, lemma_utf8_ascii, lemma_utf8_concat, same_bytes, same_text, split, split_at_each, starts_with, utf8, views,
};
use crate::inspection::{first_of, observed_failure};
use crate::notation::{big_endian, hex_text};
use crate::paths::{is_absolute, is_absolute_path, join, joined, same_path, same_path_spec};
use crate::record_txn::retold;
use vstd::prelude::*;
use vstd::slice::slice_subrange;
use vstd::string::StringExecFns;

verus! {

/// An owner-only directory.
pub open spec fn is_owner_only(identity: Identity, uid: u32) -> bool {
    &&& identity.is_directory()
    &&& identity.uid == uid
    &&& identity.mode == 0o700
    &&& identity.nlink >= 2
}

/// A directory that nobody else can reach.
pub open spec fn is_safe_new_root(identity: Identity, uid: u32) -> bool {
    &&& identity.is_directory()
    &&& identity.uid == uid
    &&& identity.mode & 0o077 == 0
    &&& identity.nlink >= 2
}

pub fn valid_state_root(identity: Identity, uid: u32) -> (valid: bool)
    ensures
        valid == is_owner_only(identity, uid),
{
    identity.directory() && identity.uid == uid && identity.mode == 0o700 && identity.nlink >= 2
}

pub fn valid_state_container(identity: Identity, uid: u32) -> (valid: bool)
    ensures
        valid == is_owner_only(identity, uid),
{
    identity.directory() && identity.uid == uid && identity.mode == 0o700 && identity.nlink >= 2
}

pub fn safe_new_root(identity: Identity, uid: u32) -> (safe: bool)
    ensures
        safe == is_safe_new_root(identity, uid),
{
    identity.directory() && identity.uid == uid && identity.mode & 0o077 == 0 && identity.nlink >= 2
}

/// A path component that leads down.
pub open spec fn safe_component(component: Seq<u8>) -> bool {
    component.len() > 0 && component != seq![46u8] && component != seq![46u8, 46u8]
}

fn is_safe_component(component: &Vec<u8>) -> (safe: bool)
    ensures
        safe == safe_component(component@),
{
    let dot: bool = component.len() == 1 && component[0] == 46;
    let dots: bool = component.len() == 2 && component[0] == 46 && component[1] == 46;
    proof {
        if component@.len() == 1 && component@[0] == 46 {
            assert(component@ =~= seq![46u8]);
        }
        if component@.len() == 2 && component@[0] == 46 && component@[1] == 46 {
            assert(component@ =~= seq![46u8, 46u8]);
        }
    }
    component.len() > 0 && !dot && !dots
}

/// The components of an absolute path, one between each two separators.
pub open spec fn raw_components(path: Seq<u8>) -> Seq<Seq<u8>> {
    split_at_each(path.subrange(1, path.len() as int), 47)
}

pub open spec fn all_safe(components: Seq<Seq<u8>>) -> bool {
    forall|i: int| 0 <= i < components.len() ==> safe_component(#[trigger] components[i])
}

fn are_all_safe(components: &Vec<Vec<u8>>) -> (safe: bool)
    ensures
        safe == all_safe(views(components@)),
{
    let mut i: usize = 0;
    while i < components.len()
        invariant
            i <= components@.len(),
            forall|k: int| 0 <= k < i ==> safe_component(#[trigger] views(components@)[k]),
        decreases components@.len() - i,
    {
        if !is_safe_component(&components[i]) {
            proof {
                assert(!safe_component(views(components@)[i as int]));
            }
            return false;
        }
        i += 1;
    }
    true
}

/// Where the state root is: below a home that is a safe absolute path.
pub fn state_root_path(home: Option<&[u8]>) -> (path: Result<Vec<u8>, Error>)
    ensures
        match home {
            None => failure(path) == Some(("STATE_UNAVAILABLE"@, "HOME is not set"@)),
            Some(home) => if is_absolute_path(home@) && all_safe(raw_components(home@)) {
                path matches Ok(path) && path@ == joined(home@, utf8(".git-vws"@))
            } else {
                failure(path) == Some(("STATE_UNAVAILABLE"@, "HOME is not a safe absolute path"@))
            },
        },
{
    match home {
        None => Err(Error::new("STATE_UNAVAILABLE", "HOME is not set")),
        Some(home) => {
            if !is_absolute(home) || !are_all_safe(&split(slice_subrange(home, 1, home.len()), 47)) {
                return Err(Error::new("STATE_UNAVAILABLE", "HOME is not a safe absolute path"));
            }
            Ok(join(home, ".git-vws".as_bytes()))
        },
    }
}

/// The directories that lead to the home, each to be opened below the one before.
pub fn open_home(home: Option<&[u8]>) -> (components: Result<Vec<Vec<u8>>, Error>)
    ensures
        match home {
            None => failure(components) == Some(("STATE_UNAVAILABLE"@, "HOME is not set"@)),
            Some(home) => {
                let f = or_fail(
                    None,
                    is_absolute_path(home@),
                    "STATE_UNAVAILABLE"@,
                    "HOME is not absolute"@,
                );
                let f = or_fail(
                    f,
                    all_safe(raw_components(home@)),
                    "STATE_UNAVAILABLE"@,
                    "HOME contains an unsafe path component"@,
                );
                &&& failure(components) == f
                &&& components matches Ok(components) ==> views(components@) == raw_components(
                    home@,
                )
            },
        },
{
    match home {
        None => Err(Error::new("STATE_UNAVAILABLE", "HOME is not set")),
        Some(home) => {
            if !is_absolute(home) {
                return Err(Error::new("STATE_UNAVAILABLE", "HOME is not absolute"));
            }
            let components = split(slice_subrange(home, 1, home.len()), 47);
            if !are_all_safe(&components) {
                return Err(Error::new("STATE_UNAVAILABLE", "HOME contains an unsafe path component"));
            }
            Ok(components)
        },
    }
}

/// The path of one of the two containers.
pub fn container_path(root: &[u8], name: &str) -> (path: Result<Vec<u8>, Error>)
    ensures
        if name@ == "templates"@ || name@ == "sessions"@ {
            path matches Ok(path) && path@ == joined(root@, utf8(name@))
        } else {
            failure(path) == Some(("STATE_CORRUPT"@, "unknown state container"@))
        },
{
    if !same_text(name, "templates") && !same_text(name, "sessions") {
        return Err(Error::new("STATE_CORRUPT", "unknown state container"));
    }
    Ok(join(root, name.as_bytes()))
}

/// A container is an owner-only directory on the volume of the state root.
pub open spec fn is_container(identity: Identity, root: Identity, uid: u32) -> bool {
    identity.dev == root.dev && is_owner_only(identity, uid)
}

/// Judges a container that was just made or found.
pub fn ensure_container(
    made: Result<bool, String>,
    identity: Result<Identity, Error>,
    root: Identity,
    uid: u32,
) -> (ensured: Result<(), Error>)
    ensures
        failure(ensured) == or_fail(
            first_of(
                observed_failure(made, "STATE_UNAVAILABLE"@, "cannot create state container"@),
                failure(identity),
            ),
            is_container(identity->Ok_0, root, uid),
            "STATE_CORRUPT"@,
            "state container is not an owner-only directory on the state volume"@,
        ),
{
    if let Err(words) = made {
        return Err(
            Error::io("STATE_UNAVAILABLE", "cannot create state container", words.as_str()),
        );
    }
    let identity: Identity = identity?;
    if identity.dev != root.dev || !valid_state_container(identity, uid) {
        return Err(
            Error::new(
                "STATE_CORRUPT",
                "state container is not an owner-only directory on the state volume",
            ),
        );
    }
    Ok(())
}

/// Judges a container that was opened.
pub fn open_container(identity: Result<Identity, Error>, root: Identity, uid: u32) -> (opened: Result<
    (),
    Error,
>)
    ensures
        failure(opened) == or_fail(
            failure(identity),
            is_container(identity->Ok_0, root, uid),
            "STATE_CORRUPT"@,
            "state container binding is invalid"@,
        ),
{
    let identity: Identity = identity?;
    if identity.dev != root.dev || !valid_state_container(identity, uid) {
        return Err(Error::new("STATE_CORRUPT", "state container binding is invalid"));
    }
    Ok(())
}

/// The state root still is the directory that was opened.
pub open spec fn root_failure(
    entry: Result<Identity, Error>,
    descriptor: Result<Identity, Error>,
    expected: Identity,
    uid: u32,
) -> Option<Failure> {
    let f = first_of(failure(entry), failure(descriptor));
    or_fail(
        f,
        entry->Ok_0.is_same_node(expected) && descriptor->Ok_0.is_same_node(expected)
            && is_owner_only(entry->Ok_0, uid) && is_owner_only(descriptor->Ok_0, uid),
        "STATE_UNAVAILABLE"@,
        "state root no longer matches its descriptor capability"@,
    )
}

pub fn revalidate_root(
    entry: Result<Identity, Error>,
    descriptor: Result<Identity, Error>,
    expected: Identity,
    uid: u32,
) -> (valid: Result<(), Error>)
    ensures
        failure(valid) == root_failure(entry, descriptor, expected, uid),
{
    let entry: Identity = entry?;
    let descriptor: Identity = descriptor?;
    if !entry.same_node(expected) || !descriptor.same_node(expected) || !valid_state_root(entry, uid)
        || !valid_state_root(descriptor, uid) {
        return Err(
            Error::new(
                "STATE_UNAVAILABLE",
                "state root no longer matches its descriptor capability",
            ),
        );
    }
    Ok(())
}

/// A new state root may be removed only while it is the empty directory that was made.
pub open spec fn new_root_failure(
    expected: Identity,
    descriptor: Result<Identity, Error>,
    entry: Result<Identity, Error>,
    names: Result<Vec<Vec<u8>>, Error>,
    uid: u32,
) -> Option<Failure> {
    let code = "STATE_CLEANUP_FAILED"@;
    let f = or_fail(
        None,
        is_safe_new_root(expected, uid),
        code,
        "new state root was not owner-only"@,
    );
    let f = first_of(
        f,
        retold(descriptor, code, "cannot revalidate new state root descriptor"@),
    );
    let f = or_fail(
        f,
        descriptor->Ok_0.is_same_node(expected) && is_safe_new_root(descriptor->Ok_0, uid),
        code,
        "new state root descriptor changed before cleanup"@,
    );
    let f = first_of(f, retold(entry, code, "cannot revalidate new state root parent entry"@));
    let f = or_fail(
        f,
        entry->Ok_0.is_same_node(expected) && is_safe_new_root(entry->Ok_0, uid),
        code,
        "new state root identity changed before cleanup"@,
    );
    let f = first_of(f, retold(names, code, "cannot enumerate new state root for cleanup"@));
    or_fail(
        f,
        names->Ok_0@.len() == 0,
        code,
        "new state root contains entries not owned by this transaction"@,
    )
}

pub fn cleanup_new_root(
    expected: Identity,
    descriptor: Result<Identity, Error>,
    entry: Result<Identity, Error>,
    names: Result<Vec<Vec<u8>>, Error>,
    uid: u32,
) -> (allowed: Result<(), Error>)
    ensures
        failure(allowed) == new_root_failure(expected, descriptor, entry, names, uid),
{
    if !safe_new_root(expected, uid) {
        return Err(Error::new("STATE_CLEANUP_FAILED", "new state root was not owner-only"));
    }
    let descriptor: Identity = match descriptor {
        Ok(descriptor) => descriptor,
        Err(_) => return Err(
            Error::new("STATE_CLEANUP_FAILED", "cannot revalidate new state root descriptor"),
        ),
    };
    if !descriptor.same_node(expected) || !safe_new_root(descriptor, uid) {
        return Err(
            Error::new("STATE_CLEANUP_FAILED", "new state root descriptor changed before cleanup"),
        );
    }
    let entry: Identity = match entry {
        Ok(entry) => entry,
        Err(_) => return Err(
            Error::new("STATE_CLEANUP_FAILED", "cannot revalidate new state root parent entry"),
        ),
    };
    if !entry.same_node(expected) || !safe_new_root(entry, uid) {
        return Err(
            Error::new("STATE_CLEANUP_FAILED", "new state root identity changed before cleanup"),
        );
    }
    match names {
        Err(_) => Err(
            Error::new("STATE_CLEANUP_FAILED", "cannot enumerate new state root for cleanup"),
        ),
        Ok(names) => if names.len() == 0 {
            Ok(())
        } else {
            Err(
                Error::new(
                    "STATE_CLEANUP_FAILED",
                    "new state root contains entries not owned by this transaction",
                ),
            )
        },
    }
}

/// What an entry of the state root is.
#[derive(Clone, Copy, Debug, PartialEq, Eq, Structural)]
pub enum RootEntryKind {
    Container,
    Record,
    Unexpected,
}

/// Containers, then visible records; nothing else belongs in a state root.
pub open spec fn root_entry_kind_spec(name: Seq<u8>) -> RootEntryKind {
    if name == utf8("templates"@) || name == utf8("sessions"@) {
        RootEntryKind::Container
    } else if utf8(".record"@).is_suffix_of(name) && !utf8("."@).is_prefix_of(name) {
        RootEntryKind::Record
    } else {
        RootEntryKind::Unexpected
    }
}

pub fn root_entry_kind(name: &[u8]) -> (kind: RootEntryKind)
    ensures
        kind == root_entry_kind_spec(name@),
{
    if same_bytes(name, "templates".as_bytes()) || same_bytes(name, "sessions".as_bytes()) {
        RootEntryKind::Container
    } else if ends_with(name, ".record".as_bytes()) && !starts_with(name, ".".as_bytes()) {
        RootEntryKind::Record
    } else {
        RootEntryKind::Unexpected
    }
}

/// An entry of the state root, with what it was found to be.
#[derive(Debug)]
pub struct RootEntry {
    pub name: Vec<u8>,
    /// For a container.
    pub identity: Result<Identity, Error>,
    /// For a record.
    pub record: Result<Record, Error>,
}

/// What is wrong with one entry, when `authority` is to be registered.
pub open spec fn entry_failure(
    entry: RootEntry,
    authority: AuthorityView,
    root: Identity,
    uid: u32,
) -> Option<Failure> {
    let code = "STATE_CORRUPT"@;
    match root_entry_kind_spec(entry.name@) {
        RootEntryKind::Container => or_fail(
            failure(entry.identity),
            is_container(entry.identity->Ok_0, root, uid),
            code,
            "state container is not an exact owned directory"@,
        ),
        RootEntryKind::Unexpected => Some((code, "state root contains an unexpected entry"@)),
        RootEntryKind::Record => match entry.record {
            Err(error) => Some(error@),
            Ok(record) => if entry.name@ != utf8(record_name_text(record@.canonical)) {
                Some((code, "state record filename does not match its canonical path"@))
            } else if same_path_spec(record@.canonical, authority.canonical) {
                if record@.same_authority(authority) {
                    Some(("AUTHORITY_DUPLICATE"@, "authority already initialized"@))
                } else {
                    Some(
                        (
                            "AUTHORITY_IDENTITY_DRIFT"@,
                            "canonical authority path identifies different data"@,
                        ),
                    )
                }
            } else if record@.identity.dev == authority.identity.dev && record@.identity.ino
                == authority.identity.ino {
                Some((code, "foreign state record claims the authority identity"@))
            } else {
                None
            },
        },
    }
}

/// The failure of the first entry that has one.
pub open spec fn entries_failure(
    entries: Seq<RootEntry>,
    authority: AuthorityView,
    root: Identity,
    uid: u32,
) -> Option<Failure>
    decreases entries.len(),
{
    if entries.len() == 0 {
        None
    } else {
        first_of(
            entries_failure(entries.drop_last(), authority, root, uid),
            entry_failure(entries.last(), authority, root, uid),
        )
    }
}

fn check_entry(entry: RootEntry, authority: &Authority, root: Identity, uid: u32) -> (checked: Result<
    (),
    Error,
>)
    ensures
        failure(checked) == entry_failure(entry, authority@, root, uid),
{
    match root_entry_kind(entry.name.as_slice()) {
        RootEntryKind::Container => {
            let identity: Identity = entry.identity?;
            if !valid_state_container(identity, uid) || identity.dev != root.dev {
                return Err(
                    Error::new("STATE_CORRUPT", "state container is not an exact owned directory"),
                );
            }
            Ok(())
        },
        RootEntryKind::Unexpected => Err(
            Error::new("STATE_CORRUPT", "state root contains an unexpected entry"),
        ),
        RootEntryKind::Record => {
            let record = entry.record?;
            if !same_bytes(
                entry.name.as_slice(),
                record_name(record.canonical.as_slice()).as_slice(),
            ) {
                return Err(
                    Error::new(
                        "STATE_CORRUPT",
                        "state record filename does not match its canonical path",
                    ),
                );
            }
            if same_path(record.canonical.as_slice(), authority.canonical.as_slice()) {
                return if record.exactly_matches(authority) {
                    Err(Error::new("AUTHORITY_DUPLICATE", "authority already initialized"))
                } else {
                    Err(
                        Error::new(
                            "AUTHORITY_IDENTITY_DRIFT",
                            "canonical authority path identifies different data",
                        ),
                    )
                };
            }
            if record.identity.dev == authority.identity.dev && record.identity.ino
                == authority.identity.ino {
                return Err(
                    Error::new(
                        "STATE_CORRUPT",
                        "foreign state record claims the authority identity",
                    ),
                );
            }
            Ok(())
        },
    }
}

/// Judges all entries of the state root, which come in the order of their names, before an authority
/// is registered. A root that was not just made holds something.
pub fn scan_records(
    entries: Vec<RootEntry>,
    created: bool,
    authority: &Authority,
    root: Identity,
    uid: u32,
) -> (scanned: Result<(), Error>)
    ensures
        failure(scanned) == first_of(
            or_fail(
                None,
                entries@.len() > 0 || created,
                "STATE_CORRUPT"@,
                "state root exists without an authority record"@,
            ),
            entries_failure(entries@, authority@, root, uid),
        ),
{
    if entries.len() == 0 && !created {
        return Err(Error::new("STATE_CORRUPT", "state root exists without an authority record"));
    }
    let ghost all = entries@;
    let mut rest = entries;
    let mut failed: Result<(), Error> = Ok(());
    while rest.len() > 0
        invariant
            rest@.len() <= all.len(),
            rest@ == all.subrange(0, rest@.len() as int),
            entries_failure(all, authority@, root, uid) == first_of(
                entries_failure(rest@, authority@, root, uid),
                failure(failed),
            ),
        decreases rest@.len(),
    {
        let ghost before = rest@;
        match rest.pop() {
            Some(entry) => {
                proof {
                    assert(before.drop_last() =~= rest@);
                    assert(rest@ =~= all.subrange(0, rest@.len() as int));
                }
                match check_entry(entry, authority, root, uid) {
                    Ok(_) => {},
                    Err(error) => {
                        failed = Err(error);
                    },
                }
            },
            None => {},
        }
    }
    failed
}

/// The record of an authority stands among the entries under its own name, behind nothing that is
/// wrong.
pub open spec fn holds_record(
    entries: Seq<RootEntry>,
    place: int,
    authority: AuthorityView,
    root: Identity,
    uid: u32,
) -> bool {
    &&& 0 <= place < entries.len()
    &&& entries[place].record matches Ok(record) && record@.same_authority(authority)
        && entries[place].name@ == utf8(record_name_text(record@.canonical))
    &&& forall|i: int|
        0 <= i < place ==> entry_failure(#[trigger] entries[i], authority, root, uid) is None
}

/// The name of a record is taken for that of a record.
proof fn lemma_record_name_kind(canonical: Seq<u8>)
    ensures
        root_entry_kind_spec(utf8(record_name_text(canonical))) == RootEntryKind::Record,
{
    let hex = hex_text(big_endian(fnv1a(canonical) as nat, 8));
    let name = utf8(record_name_text(canonical));
    lemma_utf8_concat("authority-"@ + hex, ".record"@);
    lemma_utf8_concat("authority-"@, hex);
    reveal_strlit("authority-");
    reveal_strlit(".record");
    reveal_strlit(".");
    reveal_strlit("templates");
    reveal_strlit("sessions");
    lemma_utf8_ascii("authority-"@);
    lemma_utf8_ascii(".record"@);
    lemma_utf8_ascii("."@);
    lemma_utf8_ascii("templates"@);
    lemma_utf8_ascii("sessions"@);
    assert(name == utf8("authority-"@) + utf8(hex) + utf8(".record"@));
    assert(name.subrange(name.len() - utf8(".record"@).len(), name.len() as int)
        =~= utf8(".record"@));
    assert(utf8(".record"@).is_suffix_of(name));
    assert(name[0] == utf8("authority-"@)[0]);
    assert(!utf8("."@).is_prefix_of(name));
}

/// An authority whose record already stands in the state root is found to be a duplicate, whatever
/// stands behind the record.
pub proof fn law_recorded_authority_is_a_duplicate(
    entries: Seq<RootEntry>,
    place: int,
    authority: AuthorityView,
    root: Identity,
    uid: u32,
)
    requires
        holds_record(entries, place, authority, root, uid),
    ensures
        entries_failure(entries, authority, root, uid) == Some(
            ("AUTHORITY_DUPLICATE"@, "authority already initialized"@),
        ),
    decreases entries.len(),
{
    if place < entries.len() - 1 {
        let front = entries.drop_last();
        assert(front[place] == entries[place]);
        assert forall|i: int| 0 <= i < place implies entry_failure(
            #[trigger] front[i],
            authority,
            root,
            uid,
        ) is None by {
            assert(front[i] == entries[i]);
        }
        law_recorded_authority_is_a_duplicate(front, place, authority, root, uid);
    } else {
        lemma_no_entry_fails(entries.drop_last(), authority, root, uid);
        lemma_record_name_kind(entries[place].record->Ok_0@.canonical);
    }
}

proof fn lemma_no_entry_fails(
    entries: Seq<RootEntry>,
    authority: AuthorityView,
    root: Identity,
    uid: u32,
)
    requires
        forall|i: int|
            0 <= i < entries.len() ==> entry_failure(#[trigger] entries[i], authority, root, uid)
                is None,
    ensures
        entries_failure(entries, authority, root, uid) is None,
    decreases entries.len(),
{
    if entries.len() > 0 {
        let front = entries.drop_last();
        assert forall|i: int| 0 <= i < front.len() implies entry_failure(
            #[trigger] front[i],
            authority,
            root,
            uid,
        ) is None by {
            assert(front[i] == entries[i]);
        }
        lemma_no_entry_fails(front, authority, root, uid);
        assert(entries.last() == entries[entries.len() - 1]);
    }
}

/// What a scan finds depends on which authority it is for, not on which inspection found it.
proof fn lemma_same_authority_fails_alike(
    entry: RootEntry,
    authority: AuthorityView,
    again: AuthorityView,
    root: Identity,
    uid: u32,
)
    requires
        authority.same_authority(again),
    ensures
        entry_failure(entry, authority, root, uid) == entry_failure(entry, again, root, uid),
{
}

proof fn lemma_sound_entries(
    entries: Seq<RootEntry>,
    authority: AuthorityView,
    root: Identity,
    uid: u32,
    at: int,
)
    requires
        entries_failure(entries, authority, root, uid) is None,
        0 <= at < entries.len(),
    ensures
        entry_failure(entries[at], authority, root, uid) is None,
    decreases entries.len(),
{
    if at < entries.len() - 1 {
        lemma_sound_entries(entries.drop_last(), authority, root, uid, at);
        assert(entries.drop_last()[at] == entries[at]);
    }
}

/// A state root in which a scan found nothing wrong, and which has since got the record of the
/// authority, holds that record for any later inspection of the same authority.
pub proof fn law_added_record_is_held(
    before: Seq<RootEntry>,
    place: int,
    added: RootEntry,
    authority: AuthorityView,
    again: AuthorityView,
    root: Identity,
    uid: u32,
)
    requires
        entries_failure(before, authority, root, uid) is None,
        0 <= place <= before.len(),
        added.record matches Ok(record) && record@.same_authority(authority) && added.name@ == utf8(
            record_name_text(record@.canonical),
        ),
        authority.same_authority(again),
    ensures
        holds_record(before.insert(place, added), place, again, root, uid),
{
    let entries = before.insert(place, added);
    assert(entries[place] == added);
    assert forall|i: int| 0 <= i < place implies entry_failure(
        #[trigger] entries[i],
        again,
        root,
        uid,
    ) is None by {
        assert(entries[i] == before[i]);
        lemma_sound_entries(before, authority, root, uid, i);
        lemma_same_authority_fails_alike(before[i], authority, again, root, uid);
    }
}

/// What a record that is already there means for the one that was to be made.
pub fn final_collision_error(record: Result<Record, Error>, authority: &Authority) -> (error: Error)
    ensures
        error@ == (if record is Ok && record->Ok_0@.same_authority(authority@) {
            ("AUTHORITY_DUPLICATE"@, "authority already initialized"@)
        } else {
            (
                "STATE_CORRUPT"@,
                "state record collision does not exactly match the authority"@,
            )
        }),
{
    match record {
        Ok(record) => if record.exactly_matches(authority) {
            Error::new("AUTHORITY_DUPLICATE", "authority already initialized")
        } else {
            Error::new(
                "STATE_CORRUPT",
                "state record collision does not exactly match the authority",
            )
        },
        Err(_) => Error::new(
            "STATE_CORRUPT",
            "state record collision does not exactly match the authority",
        ),
    }
}

/// Whether the record of an authority is there. A state that cannot be reached holds none.
pub fn authority_record_present(record: Result<Record, Error>, authority: &Authority) -> (present: Result<
    bool,
    Error,
>)
    ensures
        match record {
            Ok(record) => present == Ok::<bool, Error>(record@.same_authority(authority@)),
            Err(error) => if error@.0 == "STATE_UNAVAILABLE"@ {
                present == Ok::<bool, Error>(false)
            } else {
                failure(present) == Some(error@)
            },
        },
{
    match record {
        Ok(record) => Ok(record.exactly_matches(authority)),
        Err(error) => if error.has_code("STATE_UNAVAILABLE") {
            Ok(false)
        } else {
            Err(error)
        },
    }
}

} // verus!
