//! What it takes for the objects of a repository to be classified, and what a classification says of
//! them.

use crate::authority::{Error, Identity};
use crate::bytes::{lemma_utf8_injective, utf8, views};
use crate::inspection::{first_failure, lemma_no_failure};
use crate::objects::{
    child_failures, child_names, pack_pair, shelf_failures, shelf_named, shelf_plans,
    AuthorityObjectsView, ChildSeen, MetadataDirectory, Shelf, ShelfSeen,
};
use crate::paths::joined;
use crate::private_objects::{
    entry_kind, fanout_plans, has_kind, loose_action, loose_failure, loose_failures, private_failures,
    EntryKind, EntrySeen, FanoutSeen, FanoutView, LooseAction, LooseSeen, PrivateEntry,
    PrivateObjectsSeen,
};
use crate::session::SessionView;
use crate::template_roots::{name_identity, NameSeen};
use vstd::prelude::*;

verus! {

/// A directory of Git's: the user's, writable by nobody else, on the device and the volume, and the one
/// that its name leads to.
pub open spec fn is_at_home(directory: MetadataDirectory, dev: u64, volume: Seq<char>, uid: u32) -> bool {
    &&& directory.entry matches Ok(entry) && directory.descriptor == Ok::<Identity, Error>(entry)
        && entry.is_directory() && entry.uid == uid && entry.mode & 0o022 == 0 && entry.nlink >= 2
        && entry.dev == dev
    &&& directory.opened is Ok
    &&& directory.volume matches Ok(found) && found@ == volume
}

/// Digits of a hexadecimal number in lower case, this many.
pub open spec fn is_hex_of(name: Seq<u8>, len: int) -> bool {
    &&& name.len() == len
    &&& forall|i: int|
        0 <= i < name.len() ==> 48 <= #[trigger] name[i] <= 57 || 97 <= name[i] <= 102
}

/// A loose object may go exactly where the authority has an object under its name, the two are the
/// same, and neither has another name. What tells the two apart keeps the object; any other failure to
/// compare them stops the classification with that failure.
pub proof fn law_duplicates_and_only_they_go(
    private: Identity,
    fanout: Identity,
    authority: Identity,
    seen: NameSeen,
    identical: Result<(), Error>,
    uid: u32,
)
    ensures
        loose_action(private, None, seen, identical) == LooseAction::Retain,
        loose_failure(None, seen, identical, uid) is None,
        loose_action(private, Some(fanout), seen, identical) == (LooseAction::Remove {
            authority_identity: authority,
        }) <==> seen == NameSeen::Found(authority) && identical is Ok && private.nlink == 1
            && authority.nlink == 1,
        loose_action(private, Some(fanout), NameSeen::Absent, identical) == LooseAction::Retain,
        loose_failure(Some(fanout), NameSeen::Absent, identical, uid) is None,
        loose_failure(Some(fanout), NameSeen::Found(authority), identical, uid) is None <==> {
            &&& authority.is_regular() && authority.uid == uid && authority.dev == fanout.dev
            &&& identical matches Err(error) ==> error@ == (
                "STORAGE_UNSUPPORTED"@,
                "private loose object is not an exact authority duplicate"@,
            )
        },
        seen is Failed ==> loose_failure(Some(fanout), seen, identical, uid) is Some,
{
}

/// The plan for a directory of loose objects is for every object in it, each under its own name and of
/// its own node; every name is the rest of an object's name, and every object is a file of the user.
pub proof fn law_every_loose_object_is_planned(
    seen: FanoutSeen,
    name: Seq<u8>,
    objects: Identity,
    authority: AuthorityObjectsView,
    record: SessionView,
    uid: u32,
)
    requires
        seen.fanout_failure(name, objects, authority, record, uid) is None,
    ensures
        is_at_home(seen.directory, objects.dev, record.volume, uid),
        seen.directory.entry matches Ok(entry) && seen.again == Ok::<Identity, Error>(entry)
            && seen.entry_again == Ok::<Identity, Error>(entry) && seen.plan(name).identity == entry,
        seen.plan(name).name == name,
        seen.loose matches Ok(loose) && seen.plan(name).loose.len() == loose@.len(),
        forall|i: int|
            0 <= i < seen.loose->Ok_0@.len() ==> is_planned(
                #[trigger] seen.loose->Ok_0@[i],
                seen.plan(name),
                i,
                utf8(record.base).len() as int,
                uid,
            ),
        seen.plan(name).authority_identity matches Some(found) ==> seen.authority_entry
            == NameSeen::Found(found) && is_at_home(
            seen.authority_directory,
            authority.identity.dev,
            authority.volume,
            uid,
        ) && seen.authority_again == Ok::<Identity, Error>(found),
        seen.plan(name).authority_identity is None ==> seen.authority_entry is Absent,
{
    let loose = seen.loose->Ok_0@;
    let fanout = name_identity(seen.authority_entry);
    let failures = loose_failures(loose, fanout, utf8(record.base).len(), uid);
    lemma_no_failure(failures);
    assert forall|i: int| 0 <= i < loose.len() implies is_planned(
        #[trigger] loose[i],
        seen.plan(name),
        i,
        utf8(record.base).len() as int,
        uid,
    ) by {
        assert(failures[i] is None);
    }
}

/// The plan's i-th object is this one, and it is recognized.
pub open spec fn is_planned(loose: LooseSeen, plan: FanoutView, i: int, oid_length: int, uid: u32) -> bool {
    &&& loose.entry matches Ok(entry) && plan.loose[i].identity == entry && entry.is_regular()
        && entry.uid == uid
    &&& plan.loose[i].name == loose.name@
    &&& is_hex_of(loose.name@, oid_length - 2)
    &&& plan.loose[i].action matches LooseAction::Remove { authority_identity } ==> loose.identical is Ok
        && loose.authority == NameSeen::Found(authority_identity)
}

/// This entry among the private objects is of a known kind.
pub open spec fn is_known(entry: PrivateEntry) -> bool {
    ||| entry.name@ == utf8("info"@) && entry.seen is Info
    ||| entry.name@ == utf8("pack"@) && entry.seen is Pack
    ||| is_hex_of(entry.name@, 2) && entry.seen is Fanout
}

proof fn lemma_kinds_are_found(entries: Seq<PrivateEntry>, kind: EntryKind)
    ensures
        has_kind(entries, kind) <==> exists|i: int|
            0 <= i < entries.len() && entry_kind((#[trigger] entries[i]).name@) == kind,
    decreases entries.len(),
{
    if entries.len() > 0 {
        let shorter = entries.drop_last();
        lemma_kinds_are_found(shorter, kind);
        if has_kind(shorter, kind) {
            let i = choose|i: int|
                0 <= i < shorter.len() && entry_kind((#[trigger] shorter[i]).name@) == kind;
            assert(entries[i] == shorter[i]);
        }
        if entry_kind(entries.last().name@) == kind {
            assert(entries[entries.len() - 1] == entries.last());
        }
        if exists|i: int| 0 <= i < entries.len() && entry_kind((#[trigger] entries[i]).name@) == kind {
            let i = choose|i: int|
                0 <= i < entries.len() && entry_kind((#[trigger] entries[i]).name@) == kind;
            if i < shorter.len() {
                assert(shorter[i] == entries[i]);
            }
        }
    }
}

proof fn lemma_plans_are_found(entries: Seq<PrivateEntry>)
    ensures
        forall|i: int|
            0 <= i < entries.len() && (#[trigger] entries[i]).seen is Fanout && is_fanout_entry(
                entries[i],
            ) ==> fanout_plans(entries).contains(
                entries[i].seen->Fanout_0.plan(entries[i].name@),
            ),
        forall|j: int|
            0 <= j < fanout_plans(entries).len() ==> is_from_one_of(
                entries,
                #[trigger] fanout_plans(entries)[j],
            ),
    decreases entries.len(),
{
    if entries.len() > 0 {
        let shorter = entries.drop_last();
        let before = fanout_plans(shorter);
        let plans = fanout_plans(entries);
        lemma_plans_are_found(shorter);
        let last = entries.last();
        assert forall|i: int|
            0 <= i < entries.len() && (#[trigger] entries[i]).seen is Fanout && is_fanout_entry(
                entries[i],
            ) implies plans.contains(entries[i].seen->Fanout_0.plan(entries[i].name@)) by {
            let plan = entries[i].seen->Fanout_0.plan(entries[i].name@);
            if i < shorter.len() {
                assert(shorter[i] == entries[i]);
                let k = choose|k: int| 0 <= k < before.len() && before[k] == plan;
                assert(plans[k] == plan);
            } else {
                assert(plans == before.push(plan));
                assert(plans[before.len() as int] == plan);
            }
        }
        assert forall|j: int| 0 <= j < plans.len() implies is_from_one_of(
            entries,
            #[trigger] plans[j],
        ) by {
            if j < before.len() {
                assert(before[j] == plans[j]);
                let i = choose|i: int|
                    0 <= i < shorter.len() && #[trigger] is_plan_of(shorter[i], before[j]);
                assert(entries[i] == shorter[i]);
                assert(is_plan_of(entries[i], plans[j]));
            } else {
                assert(entries[entries.len() - 1] == last);
                assert(is_plan_of(entries[entries.len() - 1], plans[j]));
            }
        }
    }
}

spec fn is_fanout_entry(entry: PrivateEntry) -> bool {
    entry_kind(entry.name@) is Fanout && entry.seen is Fanout
}

/// This is the plan for this directory of loose objects.
pub open spec fn is_plan_of(entry: PrivateEntry, plan: FanoutView) -> bool {
    entry.seen matches EntrySeen::Fanout(fanout) && fanout.plan(entry.name@) == plan
}

pub open spec fn is_from_one_of(entries: Seq<PrivateEntry>, plan: FanoutView) -> bool {
    exists|i: int| 0 <= i < entries.len() && #[trigger] is_plan_of(entries[i], plan)
}

/// A private repository whose objects are classified holds nothing unknown: every entry is the
/// directory that names whose objects are borrowed, a directory of packs, or one of loose objects named
/// by two digits. The first is there, and names the objects of the authority alone. The plan has every
/// directory of loose objects, and no other; it tells of packs where there are some. The objects of the
/// authority were the same behind the classification as before it.
pub proof fn law_classified_objects_are_all_known(
    seen: PrivateObjectsSeen,
    canonical: Seq<u8>,
    record: SessionView,
    uid: u32,
)
    requires
        seen.objects_failure(canonical, record, uid) is None,
    ensures
        seen.common matches Ok(common) && is_at_home(seen.objects, common.dev, record.volume, uid),
        seen.objects.entry matches Ok(objects) && seen.plan().objects_identity == objects
            && seen.again == Ok::<Identity, Error>(objects) && seen.entry_again == Ok::<
            Identity,
            Error,
        >(objects),
        seen.authority matches Ok(authority) && seen.plan().authority_objects == authority@
            && seen.authority_again == Ok::<Identity, Error>(authority@.identity),
        seen.entries matches Ok(entries) && {
            &&& forall|i: int| 0 <= i < entries@.len() ==> is_known(#[trigger] entries@[i])
            &&& forall|i: int|
                0 <= i < entries@.len() ==> ((#[trigger] entries@[i]).seen matches EntrySeen::Info(info)
                    ==> views(info.names->Ok_0@) == seq![utf8("alternates"@)]
                    && info.alternates->Ok_0@ == joined(canonical, utf8("objects"@)).push(10))
            &&& exists|i: int| 0 <= i < entries@.len() && (#[trigger] entries@[i]).name@ == utf8("info"@)
            &&& seen.plan().pack_present <==> exists|i: int|
                0 <= i < entries@.len() && (#[trigger] entries@[i]).name@ == utf8("pack"@)
            &&& forall|i: int|
                0 <= i < entries@.len() ==> ((#[trigger] entries@[i]).seen matches EntrySeen::Fanout(
                    fanout,
                ) ==> seen.plan().fanouts.contains(fanout.plan(entries@[i].name@)))
            &&& forall|j: int|
                0 <= j < seen.plan().fanouts.len() ==> is_from_one_of(
                    entries@,
                    #[trigger] seen.plan().fanouts[j],
                )
        },
{
    let entries = seen.entries->Ok_0@;
    let failures = private_failures(
        entries,
        seen.objects.entry->Ok_0,
        seen.authority->Ok_0@,
        canonical,
        record,
        uid,
    );
    lemma_no_failure(failures);
    lemma_kinds_are_found(entries, EntryKind::Info);
    lemma_kinds_are_found(entries, EntryKind::Pack);
    lemma_plans_are_found(entries);
    lemma_info_is_no_pack();
    assert forall|i: int| 0 <= i < entries.len() implies is_known(#[trigger] entries[i]) by {
        assert(failures[i] is None);
    }
    assert forall|i: int|
        0 <= i < entries.len() implies ((#[trigger] entries[i]).seen matches EntrySeen::Info(info)
            ==> views(info.names->Ok_0@) == seq![utf8("alternates"@)] && info.alternates->Ok_0@
            == joined(canonical, utf8("objects"@)).push(10)) by {
        assert(failures[i] is None);
    }
    assert forall|i: int|
        0 <= i < entries.len() implies ((#[trigger] entries[i]).seen matches EntrySeen::Fanout(fanout)
            ==> seen.plan().fanouts.contains(fanout.plan(entries[i].name@))) by {
        assert(failures[i] is None);
    }
    if exists|i: int| 0 <= i < entries.len() && (#[trigger] entries[i]).name@ == utf8("pack"@) {
        let i = choose|i: int| 0 <= i < entries.len() && (#[trigger] entries[i]).name@ == utf8("pack"@);
        assert(entry_kind(entries[i].name@) == EntryKind::Pack);
    }
}

proof fn lemma_info_is_no_pack()
    ensures
        utf8("info"@) != utf8("pack"@),
{
    reveal_strlit("info");
    reveal_strlit("pack");
    assert("info"@[0] != "pack"@[0]);
    lemma_utf8_injective("info"@, "pack"@);
}

/// A file among objects is taken only under a name that its directory holds, as a regular file of the
/// user with one name, writable by nobody else, on the device of its directory; and a file of a pack
/// only together with the other half of its pair.
pub proof fn law_classified_files_are_safe(
    shelf: Shelf,
    children: Seq<ChildSeen>,
    dev: u64,
    oid_length: nat,
    uid: u32,
    i: int,
)
    requires
        first_failure(child_failures(shelf, children, dev, oid_length, uid)) is None,
        0 <= i < children.len(),
    ensures
        children[i].entry matches Ok(entry) && {
            &&& entry.is_regular() && entry.uid == uid && entry.nlink == 1 && entry.mode & 0o022 == 0
                && entry.dev == dev
            &&& children[i].file.opened == Ok::<Result<Identity, Error>, String>(Ok(entry))
            &&& children[i].file.same_volume matches Ok(same) && same
        },
        shelf is Fanout ==> is_hex_of(children[i].name@, oid_length - 2),
        shelf is Info ==> children[i].name@ == utf8("commit-graph"@) || children[i].name@ == utf8(
            "packs"@,
        ),
        shelf is Pack || shelf is PrivatePack ==> (pack_pair(children[i].name@) matches Some(pair)
            && exists|k: int| 0 <= k < children.len() && (#[trigger] children[k]).name@ == pair),
{
    let failures = child_failures(shelf, children, dev, oid_length, uid);
    lemma_no_failure(failures);
    assert(failures[i] is None);
    let names = child_names(children);
    if shelf is Pack || shelf is PrivatePack {
        let pair = pack_pair(children[i].name@)->0;
        let k = choose|k: int| 0 <= k < names.len() && names[k] == pair;
        assert(children[k].name@ == pair);
    }
}

/// The authority's objects are classified directory by directory: each has a known name and is at home,
/// and the plan lists the entries of each with their nodes.
pub proof fn law_every_authority_directory_is_planned(
    shelves: Seq<ShelfSeen>,
    dev: u64,
    volume: Seq<char>,
    oid_length: nat,
    uid: u32,
    i: int,
)
    requires
        first_failure(shelf_failures(shelves, dev, volume, oid_length, uid)) is None,
        0 <= i < shelves.len(),
    ensures
        shelf_plans(shelves).len() == shelves.len(),
        shelves[i].name@ == utf8("info"@) || shelves[i].name@ == utf8("pack"@) || is_hex_of(
            shelves[i].name@,
            2,
        ),
        is_at_home(shelves[i].directory, dev, volume, uid),
        shelf_plans(shelves)[i].name == shelves[i].name@,
        shelves[i].directory.entry == Ok::<Identity, Error>(shelf_plans(shelves)[i].identity),
        shelves[i].children matches Ok(children) && shelf_plans(shelves)[i].children.len()
            == children@.len() && forall|k: int|
            0 <= k < children@.len() ==> shelf_plans(shelves)[i].children[k].0 == (
            #[trigger] children@[k]).name@ && children@[k].entry == Ok::<Identity, Error>(
                shelf_plans(shelves)[i].children[k].1,
            ),
        shelf_named(shelves[i].name@) matches Some(shelf) && first_failure(
            child_failures(
                shelf,
                shelves[i].children->Ok_0@,
                shelves[i].directory.entry->Ok_0.dev,
                oid_length,
                uid,
            ),
        ) is None,
{
    let failures = shelf_failures(shelves, dev, volume, oid_length, uid);
    lemma_no_failure(failures);
    assert(failures[i] is None);
    let shelf = shelf_named(shelves[i].name@)->0;
    let children = shelves[i].children->Ok_0@;
    let inner = child_failures(
        shelf,
        children,
        shelves[i].directory.entry->Ok_0.dev,
        oid_length,
        uid,
    );
    lemma_no_failure(inner);
    assert forall|k: int| 0 <= k < children.len() implies shelf_plans(shelves)[i].children[k].0 == (
    #[trigger] children[k]).name@ && children[k].entry == Ok::<Identity, Error>(
        shelf_plans(shelves)[i].children[k].1,
    ) by {
        assert(inner[k] is None);
    }
}

} // verus!
