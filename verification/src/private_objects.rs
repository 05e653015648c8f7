//! The plan for the objects of a session's private repository: all of them are classified, and only an
//! exact duplicate of what the authority has is planned to go.

use crate::authority::{failure, or_fail, Authority, Error, Failure, Identity};
use crate::bytes::{copy_bytes, same_bytes, same_text, utf8, views};
use crate::inspection::{first_failure, first_of, lemma_first_failure};
use crate::notation::all_lower_hex;
use crate::objects::{
    child_failures, classify_pack_entries, is_fanout_name, is_loose_owner, loose_fanout_name,
    loose_regular_owner, open_git_metadata_directory, AuthorityObjectsPlan, AuthorityObjectsView,
    ChildSeen, MetadataDirectory, Shelf,
};
use crate::order::{is_sorted_order, law_sorted_order_is_unique, name_keys, sort_names, sorted_names};
use crate::paths::{join, joined, same_lists};
use crate::record_txn::basename_failure;
use crate::session::{
    cstring, lower_hex, needs_recovery, require_session, session_recovery, SessionRecord,
    SessionView,
};
use crate::session_roots::{
    entry_failure, entry_identity_if_present, is_git_metadata_directory,
    private_git_metadata_directory,
};
use crate::template_roots::{name_identity, NameSeen};
use vstd::prelude::*;

verus! {

/// What becomes of a loose object.
#[derive(Clone, Copy, Debug, PartialEq, Eq, Structural)]
pub enum LooseAction {
    Remove { authority_identity: Identity },
    Retain,
}

#[derive(Debug)]
pub struct PrivateLoosePlan {
    pub name: Vec<u8>,
    pub identity: Identity,
    pub action: LooseAction,
}

#[verifier::ext_equal]
pub struct LooseView {
    pub name: Seq<u8>,
    pub identity: Identity,
    pub action: LooseAction,
}

impl View for PrivateLoosePlan {
    type V = LooseView;

    open spec fn view(&self) -> LooseView {
        LooseView { name: self.name@, identity: self.identity, action: self.action }
    }
}

pub open spec fn loose_views(loose: Seq<PrivateLoosePlan>) -> Seq<LooseView> {
    Seq::new(loose.len(), |i: int| loose[i]@)
}

#[derive(Debug)]
pub struct PrivateFanoutPlan {
    pub name: Vec<u8>,
    pub identity: Identity,
    pub authority_identity: Option<Identity>,
    pub loose: Vec<PrivateLoosePlan>,
}

#[verifier::ext_equal]
pub struct FanoutView {
    pub name: Seq<u8>,
    pub identity: Identity,
    pub authority_identity: Option<Identity>,
    pub loose: Seq<LooseView>,
}

impl View for PrivateFanoutPlan {
    type V = FanoutView;

    open spec fn view(&self) -> FanoutView {
        FanoutView {
            name: self.name@,
            identity: self.identity,
            authority_identity: self.authority_identity,
            loose: loose_views(self.loose@),
        }
    }
}

pub open spec fn fanout_views(fanouts: Seq<PrivateFanoutPlan>) -> Seq<FanoutView> {
    Seq::new(fanouts.len(), |i: int| fanouts[i]@)
}

#[derive(Debug)]
pub struct PrivateObjectPlan {
    pub objects_identity: Identity,
    pub authority_objects: AuthorityObjectsPlan,
    pub pack_present: bool,
    pub fanouts: Vec<PrivateFanoutPlan>,
}

#[verifier::ext_equal]
pub struct PrivateObjectView {
    pub objects_identity: Identity,
    pub authority_objects: AuthorityObjectsView,
    pub pack_present: bool,
    pub fanouts: Seq<FanoutView>,
}

impl View for PrivateObjectPlan {
    type V = PrivateObjectView;

    open spec fn view(&self) -> PrivateObjectView {
        PrivateObjectView {
            objects_identity: self.objects_identity,
            authority_objects: self.authority_objects@,
            pack_present: self.pack_present,
            fanouts: fanout_views(self.fanouts@),
        }
    }
}

/// Whether a plan lets an object go.
pub fn loose_plan_removes(plan: &PrivateLoosePlan) -> (removes: bool)
    ensures
        removes == (plan@.action is Remove),
{
    match plan.action {
        LooseAction::Remove { .. } => true,
        LooseAction::Retain => false,
    }
}

/// An error that says no more than that two files differ.
pub open spec fn is_no_duplicate(error: Failure) -> bool {
    error.0 == "STORAGE_UNSUPPORTED"@ && error.1
        == "private loose object is not an exact authority duplicate"@
}

pub open spec fn loose_failure(
    authority_fanout: Option<Identity>,
    seen: NameSeen,
    identical: Result<(), Error>,
    uid: u32,
) -> Option<Failure> {
    match authority_fanout {
        None => None,
        Some(fanout) => match entry_failure(seen) {
            Some(error) => Some(error),
            None => match name_identity(seen) {
                None => None,
                Some(authority) => {
                    let f = or_fail(
                        None,
                        is_loose_owner(authority, uid) && authority.dev == fanout.dev,
                        "SESSION_RECOVERY_REQUIRED"@,
                        "authority loose object has an unsafe identity"@,
                    );
                    first_of(
                        f,
                        match identical {
                            Ok(_) => None,
                            Err(error) => if is_no_duplicate(error@) {
                                None
                            } else {
                                Some(error@)
                            },
                        },
                    )
                },
            },
        },
    }
}

/// An object may go where the authority has the very same one, and neither has another name.
pub open spec fn loose_action(
    private: Identity,
    authority_fanout: Option<Identity>,
    seen: NameSeen,
    identical: Result<(), Error>,
) -> LooseAction {
    if authority_fanout is Some && name_identity(seen) is Some && identical is Ok && private.nlink
        == 1 && name_identity(seen)->0.nlink == 1 {
        LooseAction::Remove { authority_identity: name_identity(seen)->0 }
    } else {
        LooseAction::Retain
    }
}

pub fn classify_private_loose(
    private: Identity,
    authority_fanout: Option<Identity>,
    seen: NameSeen,
    identical: Result<(), Error>,
    uid: u32,
) -> (action: Result<LooseAction, Error>)
    ensures
        failure(action) == loose_failure(authority_fanout, seen, identical, uid),
        action matches Ok(action) ==> action == loose_action(
            private,
            authority_fanout,
            seen,
            identical,
        ),
{
    let fanout = match authority_fanout {
        None => {
            return Ok(LooseAction::Retain);
        },
        Some(fanout) => fanout,
    };
    let authority = match entry_identity_if_present(seen)? {
        None => {
            return Ok(LooseAction::Retain);
        },
        Some(authority) => authority,
    };
    require_session(
        loose_regular_owner(authority, uid) && authority.dev == fanout.dev,
        "authority loose object has an unsafe identity",
    )?;
    match identical {
        Ok(_) => if private.nlink == 1 && authority.nlink == 1 {
            Ok(LooseAction::Remove { authority_identity: authority })
        } else {
            Ok(LooseAction::Retain)
        },
        Err(error) => if error.has_code("STORAGE_UNSUPPORTED") && same_text(
            error.detail.as_str(),
            "private loose object is not an exact authority duplicate",
        ) {
            Ok(LooseAction::Retain)
        } else {
            Err(error)
        },
    }
}

/// Only an object whose exact duplicate the authority has is planned to go.
pub proof fn law_only_duplicates_go(
    private: Identity,
    authority_fanout: Option<Identity>,
    seen: NameSeen,
    identical: Result<(), Error>,
    uid: u32,
)
    requires
        loose_failure(authority_fanout, seen, identical, uid) is None,
        loose_action(private, authority_fanout, seen, identical) is Remove,
    ensures
        identical is Ok,
        seen is Found,
        is_loose_owner(seen->Found_0, uid),
        private.nlink == 1 && seen->Found_0.nlink == 1,
        loose_action(private, authority_fanout, seen, identical) == (LooseAction::Remove {
            authority_identity: seen->Found_0,
        }),
{
}

pub open spec fn authority_fanout_failure(
    entry: NameSeen,
    directory: MetadataDirectory,
    objects: Identity,
    volume: Seq<char>,
    uid: u32,
) -> Option<Failure> {
    let f = entry_failure(entry);
    match name_identity(entry) {
        None => f,
        Some(expected) => {
            let f = or_fail(
                f,
                is_git_metadata_directory(expected, uid) && expected.dev == objects.dev,
                "SESSION_RECOVERY_REQUIRED"@,
                "authority loose object fanout has an unsafe identity"@,
            );
            let f = first_of(
                f,
                directory.directory_failure(
                    objects.dev,
                    volume,
                    "authority object metadata is not an owned same-volume directory"@,
                    uid,
                ),
            );
            or_fail(
                f,
                directory.entry->Ok_0 == expected,
                "SESSION_RECOVERY_REQUIRED"@,
                "authority loose object fanout changed while opening"@,
            )
        },
    }
}

/// The directory of the authority that would hold the same objects, where it has one.
pub fn open_authority_fanout(
    entry: NameSeen,
    directory: MetadataDirectory,
    objects: Identity,
    volume: &str,
    uid: u32,
) -> (fanout: Result<Option<Identity>, Error>)
    ensures
        failure(fanout) == authority_fanout_failure(entry, directory, objects, volume@, uid),
        fanout matches Ok(fanout) ==> fanout == name_identity(entry),
{
    let expected = match entry_identity_if_present(entry)? {
        None => {
            return Ok(None);
        },
        Some(expected) => expected,
    };
    require_session(
        private_git_metadata_directory(expected, uid) && expected.dev == objects.dev,
        "authority loose object fanout has an unsafe identity",
    )?;
    let identity = open_git_metadata_directory(
        directory,
        objects.dev,
        volume,
        "authority object metadata is not an owned same-volume directory",
        uid,
    )?;
    require_session(
        identity == expected,
        "authority loose object fanout changed while opening",
    )?;
    Ok(Some(identity))
}

/// A loose object as it is found: its entry, the authority's of the same name, and whether the two are
/// the same.
#[derive(Debug)]
pub struct LooseSeen {
    pub name: Vec<u8>,
    pub entry: Result<Identity, Error>,
    pub authority: NameSeen,
    pub identical: Result<(), Error>,
}

pub open spec fn loose_seen_failure(
    seen: LooseSeen,
    authority_fanout: Option<Identity>,
    oid_length: nat,
    uid: u32,
) -> Option<Failure> {
    let f = basename_failure(seen.name@, "private loose object"@, "SESSION_CORRUPT"@);
    let f = first_of(f, failure(seen.entry));
    let f = or_fail(
        f,
        seen.name@.len() + 2 == oid_length && all_lower_hex(seen.name@) && is_loose_owner(
            seen.entry->Ok_0,
            uid,
        ),
        "SESSION_RECOVERY_REQUIRED"@,
        "private loose object has an unrecognized name or type"@,
    );
    first_of(f, loose_failure(authority_fanout, seen.authority, seen.identical, uid))
}

pub open spec fn loose_plan(seen: LooseSeen, authority_fanout: Option<Identity>) -> LooseView {
    LooseView {
        name: seen.name@,
        identity: seen.entry->Ok_0,
        action: loose_action(
            seen.entry->Ok_0,
            authority_fanout,
            seen.authority,
            seen.identical,
        ),
    }
}

fn check_loose(seen: LooseSeen, authority_fanout: Option<Identity>, oid_length: usize, uid: u32) -> (plan:
    Result<PrivateLoosePlan, Error>)
    ensures
        failure(plan) == loose_seen_failure(seen, authority_fanout, oid_length as nat, uid),
        plan matches Ok(plan) ==> plan@ == loose_plan(seen, authority_fanout),
{
    let LooseSeen { name, entry, authority, identical } = seen;
    cstring(name.as_slice(), "private loose object")?;
    let identity = entry?;
    require_session(
        oid_length >= 2 && name.len() == oid_length - 2 && lower_hex(name.as_slice())
            && loose_regular_owner(identity, uid),
        "private loose object has an unrecognized name or type",
    )?;
    let action = classify_private_loose(identity, authority_fanout, authority, identical, uid)?;
    Ok(PrivateLoosePlan { name, identity, action })
}

pub open spec fn loose_failures(
    loose: Seq<LooseSeen>,
    authority_fanout: Option<Identity>,
    oid_length: nat,
    uid: u32,
) -> Seq<Option<Failure>> {
    Seq::new(
        loose.len(),
        |i: int| loose_seen_failure(loose[i], authority_fanout, oid_length, uid),
    )
}

pub open spec fn loose_plans(loose: Seq<LooseSeen>, authority_fanout: Option<Identity>) -> Seq<
    LooseView,
> {
    Seq::new(loose.len(), |i: int| loose_plan(loose[i], authority_fanout))
}

fn check_all_loose(
    loose: Vec<LooseSeen>,
    authority_fanout: Option<Identity>,
    oid_length: usize,
    uid: u32,
) -> (plans: Result<Vec<PrivateLoosePlan>, Error>)
    ensures
        failure(plans) == first_failure(
            loose_failures(loose@, authority_fanout, oid_length as nat, uid),
        ),
        plans matches Ok(plans) ==> loose_views(plans@) == loose_plans(loose@, authority_fanout),
{
    let ghost all = loose@;
    let ghost failures = loose_failures(all, authority_fanout, oid_length as nat, uid);
    let ghost expected = loose_plans(all, authority_fanout);
    let mut rest = loose;
    let mut plans: Vec<PrivateLoosePlan> = Vec::new();
    let mut i: usize = 0;
    let count: usize = rest.len();
    while i < count
        invariant
            i <= count,
            count == all.len(),
            all == loose@,
            rest@ == all.skip(i as int),
            failures == loose_failures(all, authority_fanout, oid_length as nat, uid),
            expected == loose_plans(all, authority_fanout),
            forall|k: int| 0 <= k < i ==> (#[trigger] failures[k]) is None,
            loose_views(plans@) == expected.take(i as int),
        decreases count - i,
    {
        let seen = rest.remove(0);
        proof {
            assert(seen == all[i as int]);
            assert(rest@ =~= all.skip(i + 1));
        }
        match check_loose(seen, authority_fanout, oid_length, uid) {
            Err(error) => {
                proof {
                    lemma_first_failure(failures, i as int);
                }
                return Err(error);
            },
            Ok(plan) => {
                let ghost before = loose_views(plans@);
                plans.push(plan);
                proof {
                    assert(loose_views(plans@) =~= before.push(plan@));
                    assert(expected.take(i + 1) =~= expected.take(i as int).push(
                        expected[i as int],
                    ));
                }
            },
        }
        i = i + 1;
    }
    proof {
        lemma_first_failure(failures, count as int);
        assert(expected.take(count as int) =~= expected);
    }
    Ok(plans)
}

/// A directory of loose objects as it is found, with the authority's of the same name.
#[derive(Debug)]
pub struct FanoutSeen {
    pub directory: MetadataDirectory,
    pub authority_entry: NameSeen,
    pub authority_directory: MetadataDirectory,
    pub loose: Result<Vec<LooseSeen>, Error>,
    pub authority_again: Result<Identity, Error>,
    pub authority_entry_again: Result<Identity, Error>,
    pub again: Result<Identity, Error>,
    pub entry_again: Result<Identity, Error>,
}

/// Something is still what it was, by its descriptor and by its name.
pub open spec fn still_failure(
    again: Result<Identity, Error>,
    entry: Result<Identity, Error>,
    expected: Identity,
    detail: Seq<char>,
) -> Option<Failure> {
    let code = "SESSION_RECOVERY_REQUIRED"@;
    let f = failure(again);
    let f = or_fail(f, again->Ok_0 == expected, code, detail);
    let f = first_of(f, failure(entry));
    or_fail(f, entry->Ok_0 == expected, code, detail)
}

fn still(again: Result<Identity, Error>, entry: Result<Identity, Error>, expected: Identity, detail: &str) -> (same:
    Result<(), Error>)
    ensures
        failure(same) == still_failure(again, entry, expected, detail@),
{
    let again = again?;
    require_session(again == expected, detail)?;
    let entry = entry?;
    require_session(entry == expected, detail)
}

impl FanoutSeen {
    pub open spec fn fanout_failure(
        self,
        name: Seq<u8>,
        objects: Identity,
        authority: AuthorityObjectsView,
        record: SessionView,
        uid: u32,
    ) -> Option<Failure> {
        let f = basename_failure(name, "private loose object fanout"@, "SESSION_CORRUPT"@);
        let f = first_of(
            f,
            self.directory.directory_failure(
                objects.dev,
                record.volume,
                "private object metadata is not an owned same-volume directory"@,
                uid,
            ),
        );
        let f = first_of(
            f,
            authority_fanout_failure(
                self.authority_entry,
                self.authority_directory,
                authority.identity,
                authority.volume,
                uid,
            ),
        );
        let f = first_of(f, failure(self.loose));
        let fanout = name_identity(self.authority_entry);
        let f = first_of(
            f,
            first_failure(
                loose_failures(self.loose->Ok_0@, fanout, utf8(record.base).len(), uid),
            ),
        );
        let f = match fanout {
            None => f,
            Some(expected) => first_of(
                f,
                still_failure(
                    self.authority_again,
                    self.authority_entry_again,
                    expected,
                    "authority loose object fanout changed during classification"@,
                ),
            ),
        };
        first_of(
            f,
            still_failure(
                self.again,
                self.entry_again,
                self.directory.entry->Ok_0,
                "private loose object fanout changed during classification"@,
            ),
        )
    }

    pub open spec fn plan(self, name: Seq<u8>) -> FanoutView {
        FanoutView {
            name,
            identity: self.directory.entry->Ok_0,
            authority_identity: name_identity(self.authority_entry),
            loose: loose_plans(self.loose->Ok_0@, name_identity(self.authority_entry)),
        }
    }
}

pub fn classify_private_fanout(
    seen: FanoutSeen,
    name: Vec<u8>,
    objects: Identity,
    authority: &AuthorityObjectsPlan,
    record: &SessionRecord,
    uid: u32,
) -> (plan: Result<PrivateFanoutPlan, Error>)
    ensures
        failure(plan) == seen.fanout_failure(name@, objects, authority@, record@, uid),
        plan matches Ok(plan) ==> plan@ == seen.plan(name@),
{
    let oid_length: usize = record.base.as_str().as_bytes().len();
    cstring(name.as_slice(), "private loose object fanout")?;
    let identity = open_git_metadata_directory(
        seen.directory,
        objects.dev,
        record.volume.as_str(),
        "private object metadata is not an owned same-volume directory",
        uid,
    )?;
    let authority_identity = open_authority_fanout(
        seen.authority_entry,
        seen.authority_directory,
        authority.identity,
        authority.volume.as_str(),
        uid,
    )?;
    let loose = seen.loose?;
    let loose = check_all_loose(loose, authority_identity, oid_length, uid)?;
    match authority_identity {
        None => {},
        Some(expected) => {
            still(
                seen.authority_again,
                seen.authority_entry_again,
                expected,
                "authority loose object fanout changed during classification",
            )?;
        },
    }
    still(
        seen.again,
        seen.entry_again,
        identity,
        "private loose object fanout changed during classification",
    )?;
    Ok(PrivateFanoutPlan { name, identity, authority_identity, loose })
}

/// The directory in which a private repository notes whose objects it borrows.
#[derive(Debug)]
pub struct InfoSeen {
    pub directory: MetadataDirectory,
    pub names: Result<Vec<Vec<u8>>, Error>,
    pub alternates: Result<Vec<u8>, Error>,
    pub again: Result<Identity, Error>,
    pub entry_again: Result<Identity, Error>,
}

impl InfoSeen {
    pub open spec fn info_failure(
        self,
        objects: Identity,
        canonical: Seq<u8>,
        record: SessionView,
        uid: u32,
    ) -> Option<Failure> {
        let code = "SESSION_RECOVERY_REQUIRED"@;
        let detail = "private object alternate changed during classification"@;
        let f = self.directory.directory_failure(
            objects.dev,
            record.volume,
            "private object metadata is not an owned same-volume directory"@,
            uid,
        );
        let f = first_of(f, failure(self.names));
        let f = or_fail(
            f,
            views(self.names->Ok_0@) == seq![utf8("alternates"@)],
            code,
            "private object info directory contains an unrecognized entry"@,
        );
        let f = first_of(f, failure(self.alternates));
        let f = or_fail(
            f,
            self.alternates->Ok_0@ == joined(canonical, utf8("objects"@)).push(10),
            code,
            detail,
        );
        first_of(
            f,
            still_failure(self.again, self.entry_again, self.directory.entry->Ok_0, detail),
        )
    }
}

pub fn classify_private_info(
    seen: InfoSeen,
    objects: Identity,
    authority: &Authority,
    record: &SessionRecord,
    uid: u32,
) -> (sound: Result<(), Error>)
    ensures
        failure(sound) == seen.info_failure(objects, authority@.canonical, record@, uid),
{
    let detail = "private object alternate changed during classification";
    let identity = open_git_metadata_directory(
        seen.directory,
        objects.dev,
        record.volume.as_str(),
        "private object metadata is not an owned same-volume directory",
        uid,
    )?;
    let names = seen.names?;
    let only: bool = names.len() == 1 && same_bytes(names[0].as_slice(), "alternates".as_bytes());
    proof {
        let expected = seq![utf8("alternates"@)];
        if names@.len() == 1 && names@[0]@ == utf8("alternates"@) {
            assert(views(names@) =~= expected);
        }
        if views(names@) == expected {
            assert(views(names@).len() == 1);
            assert(views(names@)[0] == names@[0]@);
            assert(expected[0] == utf8("alternates"@));
        }
    }
    require_session(only, "private object info directory contains an unrecognized entry")?;
    let alternates = seen.alternates?;
    let mut expected = join(authority.canonical.as_slice(), "objects".as_bytes());
    expected.push(10);
    require_session(same_bytes(alternates.as_slice(), expected.as_slice()), detail)?;
    still(seen.again, seen.entry_again, identity, detail)
}

/// The directory in which a private repository keeps its packs.
#[derive(Debug)]
pub struct PackSeen {
    pub directory: MetadataDirectory,
    pub children: Result<Vec<ChildSeen>, Error>,
    pub again: Result<Identity, Error>,
    pub entry_again: Result<Identity, Error>,
}

impl PackSeen {
    pub open spec fn pack_failure(self, objects: Identity, record: SessionView, uid: u32) -> Option<
        Failure,
    > {
        let f = self.directory.directory_failure(
            objects.dev,
            record.volume,
            "private object metadata is not an owned same-volume directory"@,
            uid,
        );
        let f = first_of(f, failure(self.children));
        let f = first_of(
            f,
            first_failure(
                child_failures(
                    Shelf::PrivatePack,
                    self.children->Ok_0@,
                    self.directory.entry->Ok_0.dev,
                    utf8(record.base).len(),
                    uid,
                ),
            ),
        );
        first_of(
            f,
            still_failure(
                self.again,
                self.entry_again,
                self.directory.entry->Ok_0,
                "private packed object directory changed during classification"@,
            ),
        )
    }
}

pub fn classify_private_pack(seen: PackSeen, objects: Identity, record: &SessionRecord, uid: u32) -> (sound:
    Result<(), Error>)
    ensures
        failure(sound) == seen.pack_failure(objects, record@, uid),
{
    let oid_length: usize = record.base.as_str().as_bytes().len();
    let identity = open_git_metadata_directory(
        seen.directory,
        objects.dev,
        record.volume.as_str(),
        "private object metadata is not an owned same-volume directory",
        uid,
    )?;
    classify_pack_entries(seen.children, identity, true, oid_length, uid)?;
    still(
        seen.again,
        seen.entry_again,
        identity,
        "private packed object directory changed during classification",
    )
}

/// What is seen of an entry among the private objects, by what its name says it is.
#[derive(Debug)]
pub enum EntrySeen {
    Info(InfoSeen),
    Pack(PackSeen),
    Fanout(FanoutSeen),
    Unknown,
}

#[derive(Debug)]
pub struct PrivateEntry {
    pub name: Vec<u8>,
    pub seen: EntrySeen,
}

/// What a name among the private objects says.
#[derive(Clone, Copy, Debug, PartialEq, Eq, Structural)]
pub enum EntryKind {
    Info,
    Pack,
    Fanout,
    Unknown,
}

pub open spec fn entry_kind(name: Seq<u8>) -> EntryKind {
    if name == utf8("info"@) {
        EntryKind::Info
    } else if name == utf8("pack"@) {
        EntryKind::Pack
    } else if is_fanout_name(name) {
        EntryKind::Fanout
    } else {
        EntryKind::Unknown
    }
}

pub fn private_entry_kind(name: &[u8]) -> (kind: EntryKind)
    ensures
        kind == entry_kind(name@),
{
    if same_bytes(name, "info".as_bytes()) {
        EntryKind::Info
    } else if same_bytes(name, "pack".as_bytes()) {
        EntryKind::Pack
    } else if loose_fanout_name(name) {
        EntryKind::Fanout
    } else {
        EntryKind::Unknown
    }
}

pub open spec fn private_entry_failure(
    entry: PrivateEntry,
    objects: Identity,
    authority: AuthorityObjectsView,
    canonical: Seq<u8>,
    record: SessionView,
    uid: u32,
) -> Option<Failure> {
    match (entry_kind(entry.name@), entry.seen) {
        (EntryKind::Info, EntrySeen::Info(seen)) => seen.info_failure(
            objects,
            canonical,
            record,
            uid,
        ),
        (EntryKind::Pack, EntrySeen::Pack(seen)) => seen.pack_failure(objects, record, uid),
        (EntryKind::Fanout, EntrySeen::Fanout(seen)) => seen.fanout_failure(
            entry.name@,
            objects,
            authority,
            record,
            uid,
        ),
        _ => Some(needs_recovery("private object store contains an unrecognized entry"@)),
    }
}

pub open spec fn private_failures(
    entries: Seq<PrivateEntry>,
    objects: Identity,
    authority: AuthorityObjectsView,
    canonical: Seq<u8>,
    record: SessionView,
    uid: u32,
) -> Seq<Option<Failure>> {
    Seq::new(
        entries.len(),
        |i: int| private_entry_failure(entries[i], objects, authority, canonical, record, uid),
    )
}

/// Some entry is of the kind.
pub open spec fn has_kind(entries: Seq<PrivateEntry>, kind: EntryKind) -> bool
    decreases entries.len(),
{
    entries.len() > 0 && (has_kind(entries.drop_last(), kind) || entry_kind(entries.last().name@)
        == kind)
}

/// The plans for the directories of loose objects, in the order of the entries.
pub open spec fn fanout_plans(entries: Seq<PrivateEntry>) -> Seq<FanoutView>
    decreases entries.len(),
{
    if entries.len() == 0 {
        Seq::empty()
    } else {
        let rest = fanout_plans(entries.drop_last());
        match entries.last().seen {
            EntrySeen::Fanout(seen) => if entry_kind(entries.last().name@) is Fanout {
                rest.push(seen.plan(entries.last().name@))
            } else {
                rest
            },
            _ => rest,
        }
    }
}

/// All that is seen of the objects of a private repository.
#[derive(Debug)]
pub struct PrivateObjectsSeen {
    pub authority: Result<AuthorityObjectsPlan, Error>,
    pub common: Result<Identity, Error>,
    pub objects: MetadataDirectory,
    pub entries: Result<Vec<PrivateEntry>, Error>,
    pub again: Result<Identity, Error>,
    pub entry_again: Result<Identity, Error>,
    pub authority_again: Result<Identity, Error>,
    pub authority_volume: Result<String, Error>,
}

/// The directory of a private repository's objects.
pub open spec fn private_directory_failure(
    common: Result<Identity, Error>,
    objects: MetadataDirectory,
    record: SessionView,
    uid: u32,
) -> Option<Failure> {
    first_of(
        failure(common),
        objects.directory_failure(
            common->Ok_0.dev,
            record.volume,
            "private object metadata is not an owned same-volume directory"@,
            uid,
        ),
    )
}

pub fn open_private_objects(
    common: Result<Identity, Error>,
    objects: MetadataDirectory,
    record: &SessionRecord,
    uid: u32,
) -> (identity: Result<Identity, Error>)
    ensures
        failure(identity) == private_directory_failure(common, objects, record@, uid),
        identity matches Ok(identity) ==> objects.entry == Ok::<Identity, Error>(identity),
{
    let common = common?;
    open_git_metadata_directory(
        objects,
        common.dev,
        record.volume.as_str(),
        "private object metadata is not an owned same-volume directory",
        uid,
    )
}

impl PrivateObjectsSeen {
    pub open spec fn objects_failure(
        self,
        canonical: Seq<u8>,
        record: SessionView,
        uid: u32,
    ) -> Option<Failure> {
        let code = "SESSION_RECOVERY_REQUIRED"@;
        let detail = "private object store changed during classification"@;
        let f = failure(self.authority);
        let f = first_of(f, private_directory_failure(self.common, self.objects, record, uid));
        let f = first_of(f, failure(self.entries));
        let objects = self.objects.entry->Ok_0;
        let f = first_of(
            f,
            first_failure(
                private_failures(
                    self.entries->Ok_0@,
                    objects,
                    self.authority->Ok_0@,
                    canonical,
                    record,
                    uid,
                ),
            ),
        );
        let f = or_fail(f, has_kind(self.entries->Ok_0@, EntryKind::Info), code, detail);
        let f = first_of(f, still_failure(self.again, self.entry_again, objects, detail));
        let f = first_of(f, failure(self.authority_again));
        let f = or_fail(
            f,
            self.authority_again->Ok_0 == self.authority->Ok_0@.identity,
            code,
            detail,
        );
        let f = first_of(f, failure(self.authority_volume));
        or_fail(
            f,
            self.authority_volume->Ok_0@ == self.authority->Ok_0@.volume,
            code,
            detail,
        )
    }

    pub open spec fn plan(self) -> PrivateObjectView {
        PrivateObjectView {
            objects_identity: self.objects.entry->Ok_0,
            authority_objects: self.authority->Ok_0@,
            pack_present: has_kind(self.entries->Ok_0@, EntryKind::Pack),
            fanouts: fanout_plans(self.entries->Ok_0@),
        }
    }
}

fn check_entry(
    entry: PrivateEntry,
    objects: Identity,
    plan: &AuthorityObjectsPlan,
    authority: &Authority,
    record: &SessionRecord,
    uid: u32,
) -> (fanout: Result<Option<PrivateFanoutPlan>, Error>)
    ensures
        failure(fanout) == private_entry_failure(
            entry,
            objects,
            plan@,
            authority@.canonical,
            record@,
            uid,
        ),
        fanout matches Ok(fanout) ==> match (entry_kind(entry.name@), entry.seen) {
            (EntryKind::Fanout, EntrySeen::Fanout(seen)) => fanout matches Some(fanout) && fanout@
                == seen.plan(entry.name@),
            _ => fanout is None,
        },
{
    let PrivateEntry { name, seen } = entry;
    match (private_entry_kind(name.as_slice()), seen) {
        (EntryKind::Info, EntrySeen::Info(seen)) => {
            classify_private_info(seen, objects, authority, record, uid)?;
            Ok(None)
        },
        (EntryKind::Pack, EntrySeen::Pack(seen)) => {
            classify_private_pack(seen, objects, record, uid)?;
            Ok(None)
        },
        (EntryKind::Fanout, EntrySeen::Fanout(seen)) => {
            let fanout = classify_private_fanout(seen, name, objects, plan, record, uid)?;
            Ok(Some(fanout))
        },
        _ => Err(session_recovery("private object store contains an unrecognized entry")),
    }
}

/// What is known of the entries that are through: whether the two fixed directories are among them,
/// and the plans for the others.
struct Classified {
    info: bool,
    pack: bool,
    fanouts: Vec<PrivateFanoutPlan>,
}

fn check_entries(
    entries: Vec<PrivateEntry>,
    objects: Identity,
    plan: &AuthorityObjectsPlan,
    authority: &Authority,
    record: &SessionRecord,
    uid: u32,
) -> (found: Result<Classified, Error>)
    ensures
        failure(found) == first_failure(
            private_failures(
                entries@,
                objects,
                plan@,
                authority@.canonical,
                record@,
                uid,
            ),
        ),
        found matches Ok(found) ==> {
            &&& found.info == has_kind(entries@, EntryKind::Info)
            &&& found.pack == has_kind(entries@, EntryKind::Pack)
            &&& fanout_views(found.fanouts@) == fanout_plans(entries@)
        },
{
    let ghost all = entries@;
    let ghost failures = private_failures(
        all,
        objects,
        plan@,
        authority@.canonical,
        record@,
        uid,
    );
    let mut rest = entries;
    let mut info: bool = false;
    let mut pack: bool = false;
    let mut fanouts: Vec<PrivateFanoutPlan> = Vec::new();
    let mut i: usize = 0;
    let count: usize = rest.len();
    proof {
        assert(all.take(0) =~= Seq::<PrivateEntry>::empty());
        assert(fanout_views(fanouts@) =~= Seq::<FanoutView>::empty());
    }
    while i < count
        invariant
            i <= count,
            count == all.len(),
            all == entries@,
            rest@ == all.skip(i as int),
            failures == private_failures(
                all,
                objects,
                plan@,
                authority@.canonical,
                record@,
                uid,
            ),
            forall|k: int| 0 <= k < i ==> (#[trigger] failures[k]) is None,
            info == has_kind(all.take(i as int), EntryKind::Info),
            pack == has_kind(all.take(i as int), EntryKind::Pack),
            fanout_views(fanouts@) == fanout_plans(all.take(i as int)),
        decreases count - i,
    {
        let entry = rest.remove(0);
        let ghost this = entry;
        proof {
            assert(entry == all[i as int]);
            assert(rest@ =~= all.skip(i + 1));
            assert(all.take(i + 1).drop_last() =~= all.take(i as int));
            assert(all.take(i + 1).last() == entry);
        }
        let kind = private_entry_kind(entry.name.as_slice());
        match check_entry(entry, objects, plan, authority, record, uid) {
            Err(error) => {
                proof {
                    lemma_first_failure(failures, i as int);
                }
                return Err(error);
            },
            Ok(None) => {},
            Ok(Some(fanout)) => {
                let ghost before = fanout_views(fanouts@);
                fanouts.push(fanout);
                proof {
                    assert(fanout_views(fanouts@) =~= before.push(fanout@));
                }
            },
        }
        match kind {
            EntryKind::Info => {
                info = true;
            },
            EntryKind::Pack => {
                pack = true;
            },
            _ => {},
        }
        i = i + 1;
    }
    proof {
        lemma_first_failure(failures, count as int);
        assert(all.take(count as int) =~= all);
    }
    Ok(Classified { info, pack, fanouts })
}

/// The plan for the objects of a private repository, where every one of them is known and safe.
pub fn classify_private_objects(
    seen: PrivateObjectsSeen,
    authority: &Authority,
    record: &SessionRecord,
    uid: u32,
) -> (plan: Result<PrivateObjectPlan, Error>)
    ensures
        failure(plan) == seen.objects_failure(authority@.canonical, record@, uid),
        plan matches Ok(plan) ==> plan@ == seen.plan(),
{
    let detail = "private object store changed during classification";
    let authority_objects = seen.authority?;
    let objects = open_private_objects(seen.common, seen.objects, record, uid)?;
    let entries = seen.entries?;
    let found = check_entries(entries, objects, &authority_objects, authority, record, uid)?;
    require_session(found.info, detail)?;
    still(seen.again, seen.entry_again, objects, detail)?;
    let again = seen.authority_again?;
    require_session(again == authority_objects.identity, detail)?;
    let volume = seen.authority_volume?;
    require_session(same_text(volume.as_str(), authority_objects.volume.as_str()), detail)?;
    Ok(
        PrivateObjectPlan {
            objects_identity: objects,
            authority_objects,
            pack_present: found.pack,
            fanouts: found.fanouts,
        },
    )
}

impl PrivateFanoutPlan {
    fn same(&self, other: &Self) -> (same: bool)
        ensures
            same == (self@ == other@),
    {
        let here = match (self.authority_identity, other.authority_identity) {
            (Some(left), Some(right)) => left == right,
            (None, None) => true,
            _ => false,
        };
        if !here || self.identity != other.identity || !same_bytes(
            self.name.as_slice(),
            other.name.as_slice(),
        ) || self.loose.len() != other.loose.len() {
            proof {
                assert(self@.loose.len() == self.loose@.len());
                assert(other@.loose.len() == other.loose@.len());
            }
            return false;
        }
        let mut i: usize = 0;
        while i < self.loose.len()
            invariant
                i <= self.loose@.len(),
                self.loose@.len() == other.loose@.len(),
                forall|k: int| 0 <= k < i ==> self@.loose[k] == other@.loose[k],
            decreases self.loose@.len() - i,
        {
            let left = &self.loose[i];
            let right = &other.loose[i];
            proof {
                assert(self@.loose[i as int] == left@);
                assert(other@.loose[i as int] == right@);
            }
            if left.identity != right.identity || left.action != right.action || !same_bytes(
                left.name.as_slice(),
                right.name.as_slice(),
            ) {
                return false;
            }
            i = i + 1;
        }
        proof {
            assert(self@.loose =~= other@.loose);
            assert(self@ =~= other@);
        }
        true
    }
}

impl PrivateObjectPlan {
    pub fn same(&self, other: &Self) -> (same: bool)
        ensures
            same == (self@ == other@),
    {
        if self.objects_identity != other.objects_identity || self.pack_present
            != other.pack_present || !self.authority_objects.same(&other.authority_objects)
            || self.fanouts.len() != other.fanouts.len() {
            proof {
                assert(self@.fanouts.len() == self.fanouts@.len());
                assert(other@.fanouts.len() == other.fanouts@.len());
            }
            return false;
        }
        let mut i: usize = 0;
        while i < self.fanouts.len()
            invariant
                i <= self.fanouts@.len(),
                self.fanouts@.len() == other.fanouts@.len(),
                forall|k: int| 0 <= k < i ==> self@.fanouts[k] == other@.fanouts[k],
            decreases self.fanouts@.len() - i,
        {
            proof {
                assert(self@.fanouts[i as int] == self.fanouts@[i as int]@);
                assert(other@.fanouts[i as int] == other.fanouts@[i as int]@);
            }
            if !self.fanouts[i].same(&other.fanouts[i]) {
                return false;
            }
            i = i + 1;
        }
        proof {
            assert(self@.fanouts =~= other@.fanouts);
            assert(self@ =~= other@);
        }
        true
    }
}

/// The names that a plan expects among the private objects, before they are put in order.
pub open spec fn planned_names(plan: PrivateObjectView) -> Seq<Seq<u8>> {
    let fixed = if plan.pack_present {
        seq![utf8("info"@), utf8("pack"@)]
    } else {
        seq![utf8("info"@)]
    };
    fixed + Seq::new(plan.fanouts.len(), |i: int| plan.fanouts[i].name)
}

/// The names among the private objects are the planned ones, in order.
pub fn private_objects_matches_plan(names: &Vec<Vec<u8>>, plan: &PrivateObjectPlan) -> (matches: bool)
    ensures
        matches == sorted_names(planned_names(plan@), views(names@)),
{
    let mut expected: Vec<Vec<u8>> = Vec::new();
    expected.push(crate::bytes::bytes_of("info"));
    if plan.pack_present {
        expected.push(crate::bytes::bytes_of("pack"));
    }
    let ghost fixed = views(expected@);
    let ghost tail = Seq::new(plan@.fanouts.len(), |i: int| plan@.fanouts[i].name);
    proof {
        assert(fixed =~= if plan.pack_present {
            seq![utf8("info"@), utf8("pack"@)]
        } else {
            seq![utf8("info"@)]
        });
    }
    let mut i: usize = 0;
    while i < plan.fanouts.len()
        invariant
            i <= plan.fanouts@.len(),
            tail == Seq::new(plan@.fanouts.len(), |i: int| plan@.fanouts[i].name),
            views(expected@) == fixed + tail.take(i as int),
        decreases plan.fanouts@.len() - i,
    {
        let ghost before = views(expected@);
        expected.push(copy_bytes(plan.fanouts[i].name.as_slice()));
        proof {
            assert(plan@.fanouts[i as int] == plan.fanouts@[i as int]@);
            assert(views(expected@) =~= before.push(tail[i as int]));
            assert(fixed + tail.take(i + 1) =~= before.push(tail[i as int]));
        }
        i = i + 1;
    }
    proof {
        assert(tail.take(plan.fanouts@.len() as int) =~= tail);
        assert(views(expected@) =~= planned_names(plan@));
    }
    let count: usize = expected.len();
    let sorted = sort_names(&expected);
    proof {
        let all = planned_names(plan@);
        assert(all.len() == count);
        if sorted_names(all, views(names@)) {
            let left = choose|order: Seq<usize>|
                is_sorted_order(name_keys(all), order) && views(names@) == Seq::new(
                    order.len(),
                    |i: int| all[order[i] as int],
                );
            let right = choose|order: Seq<usize>|
                is_sorted_order(name_keys(all), order) && views(sorted@) == Seq::new(
                    order.len(),
                    |i: int| all[order[i] as int],
                );
            law_sorted_order_is_unique(name_keys(all), left, right);
        }
    }
    same_lists(names, &sorted)
}

pub open spec fn loose_names(fanout: FanoutView) -> Seq<Seq<u8>> {
    Seq::new(fanout.loose.len(), |i: int| fanout.loose[i].name)
}

/// The names in a directory of loose objects are the planned ones.
pub fn private_fanout_matches_plan(names: &Vec<Vec<u8>>, plan: &PrivateFanoutPlan) -> (matches: bool)
    ensures
        matches == (views(names@) == loose_names(plan@)),
{
    if names.len() != plan.loose.len() {
        proof {
            assert(views(names@).len() != loose_names(plan@).len());
        }
        return false;
    }
    let mut i: usize = 0;
    while i < names.len()
        invariant
            i <= names@.len(),
            names@.len() == plan.loose@.len(),
            forall|k: int| 0 <= k < i ==> views(names@)[k] == loose_names(plan@)[k],
        decreases names@.len() - i,
    {
        proof {
            assert(views(names@)[i as int] == names@[i as int]@);
            assert(loose_names(plan@)[i as int] == plan.loose@[i as int].name@);
        }
        if !same_bytes(names[i].as_slice(), plan.loose[i].name.as_slice()) {
            return false;
        }
        i = i + 1;
    }
    proof {
        assert(views(names@) =~= loose_names(plan@));
    }
    true
}

} // verus!
