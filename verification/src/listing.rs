//! Listing the sessions: which records belong to the selected authority, which of them can be trusted,
//! and in which order they are told.

use crate::authority::{failure, Authority, AuthorityView, Error};
use crate::bytes::{copy_bytes, utf8, views};
use crate::notation::{big_endian, hex_text, to_big_endian, to_hex};
use crate::order::{
    is_arranged, is_sorted_order, key_views, law_arranging_sorts, name_keys, sort_names,
    sorted_names, sorted_order, SortKey,
};
use crate::paths::{same_path, same_path_spec};
use crate::session::{
    authority_path_from_record, decoded, is_bound_to, is_session_record_name, list_record,
    path_failure, record_authority_matches, session_record_name, CapabilityView, ListRecord,
    ListView, RecordCapability,
};
use vstd::prelude::*;

verus! {

/// A record that cannot be trusted, in a listing.
#[derive(Debug)]
pub struct CorruptRecord {
    pub version: u8,
    pub state: &'static str,
    pub record_name_hex: String,
    pub code: &'static str,
}

pub struct CorruptView {
    pub version: u8,
    pub state: Seq<char>,
    pub record_name_hex: Seq<char>,
    pub code: Seq<char>,
}

impl View for CorruptRecord {
    type V = CorruptView;

    open spec fn view(&self) -> CorruptView {
        CorruptView {
            version: self.version,
            state: self.state@,
            record_name_hex: self.record_name_hex@,
            code: self.code@,
        }
    }
}

pub open spec fn corrupt_line(name: Seq<u8>) -> CorruptView {
    CorruptView {
        version: 1,
        state: "CORRUPT"@,
        record_name_hex: hex_text(name),
        code: "SESSION_CORRUPT"@,
    }
}

pub fn corrupt_record(name: &[u8]) -> (line: CorruptRecord)
    ensures
        line@ == corrupt_line(name@),
{
    CorruptRecord {
        version: 1,
        state: "CORRUPT",
        record_name_hex: to_hex(name),
        code: "SESSION_CORRUPT",
    }
}

/// What becomes of a record in a listing, before its session is looked at.
#[derive(Clone, Copy, Debug, PartialEq, Eq, Structural)]
pub enum ListStep {
    /// It is not a record, or one of another authority.
    Skip,
    Corrupt,
    /// Its session is looked at.
    Diagnose,
}

pub open spec fn list_step(capability: Option<CapabilityView>, selected: Option<AuthorityView>) -> ListStep {
    match capability {
        None => ListStep::Corrupt,
        Some(capability) => if path_failure(capability.record.authority_path) is Some {
            ListStep::Corrupt
        } else {
            match selected {
                None => ListStep::Diagnose,
                Some(authority) => if !same_path_spec(
                    decoded(capability.record.authority_path),
                    authority.canonical,
                ) {
                    ListStep::Skip
                } else if is_bound_to(capability.record, authority) {
                    ListStep::Diagnose
                } else {
                    ListStep::Corrupt
                },
            }
        },
    }
}

pub open spec fn optional_authority(selected: Option<&Authority>) -> Option<AuthorityView> {
    match selected {
        Some(authority) => Some(authority@),
        None => None,
    }
}

pub open spec fn readable(capability: Result<RecordCapability, Error>) -> Option<CapabilityView> {
    match capability {
        Ok(capability) => Some(capability@),
        Err(_) => None,
    }
}

/// What becomes of what was read under the name of a record.
pub fn list_entry(capability: &Result<RecordCapability, Error>, selected: Option<&Authority>) -> (step:
    ListStep)
    ensures
        step == list_step(readable(*capability), optional_authority(selected)),
{
    match capability {
        Err(_) => ListStep::Corrupt,
        Ok(capability) => match authority_path_from_record(&capability.record) {
            Err(_) => ListStep::Corrupt,
            Ok(path) => match selected {
                None => ListStep::Diagnose,
                Some(authority) => if !same_path(path.as_slice(), authority.canonical.as_slice()) {
                    ListStep::Skip
                } else if record_authority_matches(&capability.record, authority) {
                    ListStep::Diagnose
                } else {
                    ListStep::Corrupt
                },
            },
        },
    }
}

/// What was found under a name of the container: the record, where it is the name of one, and whether
/// the session is what its record says.
#[derive(Debug)]
pub struct ListSeen {
    pub name: Vec<u8>,
    pub capability: Result<RecordCapability, Error>,
    pub sound: Result<(), Error>,
}

pub struct SeenView {
    pub name: Seq<u8>,
    pub capability: Option<CapabilityView>,
    pub sound: bool,
}

impl View for ListSeen {
    type V = SeenView;

    open spec fn view(&self) -> SeenView {
        SeenView {
            name: self.name@,
            capability: readable(self.capability),
            sound: self.sound is Ok,
        }
    }
}

pub open spec fn seen_views(seen: Seq<ListSeen>) -> Seq<SeenView> {
    Seq::new(seen.len(), |i: int| seen[i]@)
}

impl SeenView {
    pub open spec fn step(self, selected: Option<AuthorityView>) -> ListStep {
        if is_session_record_name(self.name) {
            list_step(self.capability, selected)
        } else {
            ListStep::Skip
        }
    }

    pub open spec fn is_healthy(self, selected: Option<AuthorityView>) -> bool {
        self.step(selected) is Diagnose && self.sound
    }

    pub open spec fn is_corrupt(self, selected: Option<AuthorityView>) -> bool {
        self.step(selected) is Corrupt || (self.step(selected) is Diagnose && !self.sound)
    }
}

/// The lines of the sessions that can be trusted, in the order in which they were found.
pub open spec fn healthy_lines(
    seen: Seq<SeenView>,
    selected: Option<AuthorityView>,
    sessions_path: Seq<u8>,
) -> Seq<ListView>
    decreases seen.len(),
{
    if seen.len() == 0 {
        Seq::empty()
    } else {
        let before = healthy_lines(seen.drop_last(), selected, sessions_path);
        if seen.last().is_healthy(selected) {
            before.push(seen.last().capability->0.record.listed(sessions_path))
        } else {
            before
        }
    }
}

/// The names of the records that cannot be trusted, in the order in which they were found.
pub open spec fn corrupt_names(seen: Seq<SeenView>, selected: Option<AuthorityView>) -> Seq<Seq<u8>>
    decreases seen.len(),
{
    if seen.len() == 0 {
        Seq::empty()
    } else {
        let before = corrupt_names(seen.drop_last(), selected);
        if seen.last().is_corrupt(selected) {
            before.push(seen.last().name)
        } else {
            before
        }
    }
}

/// By what a session is ordered in a listing: its authority's path and node, then its name.
pub open spec fn list_key(line: ListView) -> Seq<Seq<u8>> {
    let identity = line.authority_identity;
    seq![
        utf8(line.authority_path_hex),
        big_endian(identity.dev as nat, 8),
        big_endian(identity.ino as nat, 8),
        big_endian(identity.uid as nat, 8),
        big_endian(identity.mode as nat, 8),
        big_endian(identity.kind as nat, 8),
        big_endian(identity.nlink as nat, 8),
        utf8(line.name_hex),
    ]
}

pub open spec fn list_keys(lines: Seq<ListView>) -> Seq<Seq<Seq<u8>>> {
    Seq::new(lines.len(), |i: int| list_key(lines[i]))
}

pub open spec fn list_views(lines: Seq<ListRecord>) -> Seq<ListView> {
    Seq::new(lines.len(), |i: int| lines[i]@)
}

pub open spec fn corrupt_views(lines: Seq<CorruptRecord>) -> Seq<CorruptView> {
    Seq::new(lines.len(), |i: int| lines[i]@)
}

pub open spec fn corrupt_lines(names: Seq<Seq<u8>>) -> Seq<CorruptView> {
    Seq::new(names.len(), |i: int| corrupt_line(names[i]))
}

fn sort_key(line: &ListRecord) -> (key: SortKey)
    ensures
        key@ == list_key(line@),
{
    let identity = line.authority_identity;
    let parts: Vec<Vec<u8>> = vec![
        copy_bytes(line.authority_path_hex.as_str().as_bytes()),
        to_big_endian(identity.dev, 8),
        to_big_endian(identity.ino, 8),
        to_big_endian(identity.uid as u64, 8),
        to_big_endian(identity.mode as u64, 8),
        to_big_endian(identity.kind as u64, 8),
        to_big_endian(identity.nlink, 8),
        copy_bytes(line.name_hex.as_str().as_bytes()),
    ];
    let key = SortKey { parts };
    proof {
        assert(key@ =~= list_key(line@));
    }
    key
}

impl ListRecord {
    pub fn copy(&self) -> (same: Self)
        ensures
            same@ == self@,
    {
        ListRecord {
            version: self.version,
            authority_path_hex: self.authority_path_hex.clone(),
            authority_identity: self.authority_identity,
            name_hex: self.name_hex.clone(),
            state: self.state,
            publish_state: self.publish_state,
            base: self.base.clone(),
            target_hex: self.target_hex.clone(),
            managed_path_hex: self.managed_path_hex.clone(),
        }
    }
}

fn sort_lines(lines: &Vec<ListRecord>) -> (sorted: Vec<ListRecord>)
    ensures
        is_arranged(list_views(lines@), list_keys(list_views(lines@)), list_views(sorted@)),
{
    let ghost all = list_views(lines@);
    let mut keys: Vec<SortKey> = Vec::new();
    let mut i: usize = 0;
    while i < lines.len()
        invariant
            i <= lines@.len(),
            keys@.len() == i,
            forall|k: int| 0 <= k < i ==> (#[trigger] keys@[k])@ == list_key(lines@[k]@),
        decreases lines@.len() - i,
    {
        keys.push(sort_key(&lines[i]));
        i += 1;
    }
    proof {
        assert(key_views(keys@) =~= list_keys(all));
    }
    let order = sorted_order(&keys);
    let mut sorted: Vec<ListRecord> = Vec::new();
    let mut i: usize = 0;
    while i < order.len()
        invariant
            i <= order@.len(),
            all == list_views(lines@),
            is_sorted_order(list_keys(all), order@),
            sorted@.len() == i,
            forall|k: int| 0 <= k < i ==> (#[trigger] sorted@[k])@ == all[order@[k] as int],
        decreases order@.len() - i,
    {
        assert(order@[i as int] < list_keys(all).len());
        sorted.push(lines[order[i]].copy());
        i += 1;
    }
    proof {
        assert(list_views(sorted@) =~= Seq::new(order@.len(), |k: int| all[order@[k] as int]));
    }
    sorted
}

/// A listing: the sessions that can be trusted, and the records that cannot.
#[derive(Debug)]
pub struct Listing {
    pub healthy: Vec<ListRecord>,
    pub corrupt: Vec<CorruptRecord>,
}

/// Whether a listing of all authorities and one of a selected authority were asked for at once.
pub fn list_selection(all: bool, repository: bool) -> (accepted: Result<(), Error>)
    ensures
        failure(accepted) == if all && repository {
            Some(("SESSION_USAGE"@, "--all cannot be combined with --repo"@))
        } else {
            None
        },
{
    if all && repository {
        return Err(Error::new("SESSION_USAGE", "--all cannot be combined with --repo"));
    }
    Ok(())
}

impl Listing {
    /// What is listed of what was found, in order.
    pub open spec fn is_of(
        self,
        seen: Seq<SeenView>,
        selected: Option<AuthorityView>,
        sessions_path: Seq<u8>,
    ) -> bool {
        let healthy = healthy_lines(seen, selected, sessions_path);
        let corrupt = corrupt_names(seen, selected);
        &&& is_arranged(healthy, list_keys(healthy), list_views(self.healthy@))
        &&& exists|names: Seq<Seq<u8>>|
            #[trigger] sorted_names(corrupt, names) && corrupt_views(self.corrupt@)
                == corrupt_lines(names)
    }
}

/// Lists what was found under the names of the container.
pub fn list(seen: &Vec<ListSeen>, selected: Option<&Authority>, sessions_path: &[u8]) -> (listing:
    Listing)
    ensures
        listing.is_of(seen_views(seen@), optional_authority(selected), sessions_path@),
{
    let ghost all = seen_views(seen@);
    let ghost authority = optional_authority(selected);
    let mut healthy: Vec<ListRecord> = Vec::new();
    let mut corrupt: Vec<Vec<u8>> = Vec::new();
    proof {
        assert(all.take(0) =~= Seq::<SeenView>::empty());
        assert(list_views(healthy@) =~= Seq::<ListView>::empty());
        assert(views(corrupt@) =~= Seq::<Seq<u8>>::empty());
    }
    let mut i: usize = 0;
    while i < seen.len()
        invariant
            i <= seen@.len(),
            all == seen_views(seen@),
            authority == optional_authority(selected),
            list_views(healthy@) == healthy_lines(all.take(i as int), authority, sessions_path@),
            views(corrupt@) == corrupt_names(all.take(i as int), authority),
        decreases seen@.len() - i,
    {
        let found = &seen[i];
        let ghost lines = list_views(healthy@);
        let ghost names = views(corrupt@);
        proof {
            assert(all[i as int] == found@);
            assert(all.take(i + 1).drop_last() =~= all.take(i as int));
            assert(all.take(i + 1).last() == found@);
        }
        let step = if session_record_name(found.name.as_slice()) {
            list_entry(&found.capability, selected)
        } else {
            ListStep::Skip
        };
        match (step, &found.capability) {
            (ListStep::Diagnose, Ok(capability)) => {
                if found.sound.is_ok() {
                    healthy.push(list_record(&capability.record, sessions_path));
                    proof {
                        assert(list_views(healthy@) =~= lines.push(
                            capability@.record.listed(sessions_path@),
                        ));
                    }
                } else {
                    corrupt.push(copy_bytes(found.name.as_slice()));
                    proof {
                        assert(views(corrupt@) =~= names.push(found.name@));
                    }
                }
            },
            (ListStep::Corrupt, _) => {
                corrupt.push(copy_bytes(found.name.as_slice()));
                proof {
                    assert(views(corrupt@) =~= names.push(found.name@));
                }
            },
            _ => {},
        }
        i += 1;
    }
    proof {
        assert(all.take(i as int) =~= all);
    }
    let healthy = sort_lines(&healthy);
    let names = sort_names(&corrupt);
    let mut corrupt: Vec<CorruptRecord> = Vec::new();
    let mut i: usize = 0;
    while i < names.len()
        invariant
            i <= names@.len(),
            corrupt@.len() == i,
            forall|k: int| 0 <= k < i ==> (#[trigger] corrupt@[k])@ == corrupt_line(names@[k]@),
        decreases names@.len() - i,
    {
        corrupt.push(corrupt_record(names[i].as_slice()));
        i += 1;
    }
    proof {
        assert(corrupt_views(corrupt@) =~= corrupt_lines(views(names@)));
        assert(sorted_names(corrupt_names(all, authority), views(names@)));
    }
    Listing { healthy, corrupt }
}

/// A listing with a record that cannot be trusted is an error, once it is written.
pub fn list_outcome(listing: &Listing) -> (outcome: Result<(), Error>)
    ensures
        failure(outcome) == if listing.corrupt@.len() == 0 {
            None
        } else {
            Some(("SESSION_CORRUPT"@, "one or more session records could not be trusted"@))
        },
{
    if listing.corrupt.len() == 0 {
        Ok(())
    } else {
        Err(Error::new("SESSION_CORRUPT", "one or more session records could not be trusted"))
    }
}

proof fn lemma_lines_are_told(
    seen: Seq<SeenView>,
    selected: Option<AuthorityView>,
    sessions_path: Seq<u8>,
    at: int,
)
    requires
        0 <= at < seen.len(),
    ensures
        seen[at].is_healthy(selected) ==> healthy_lines(seen, selected, sessions_path).contains(
            seen[at].capability->0.record.listed(sessions_path),
        ),
        seen[at].is_corrupt(selected) ==> corrupt_names(seen, selected).contains(seen[at].name),
    decreases seen.len(),
{
    let before = healthy_lines(seen.drop_last(), selected, sessions_path);
    let names = corrupt_names(seen.drop_last(), selected);
    let lines = healthy_lines(seen, selected, sessions_path);
    let told = corrupt_names(seen, selected);
    if at == seen.len() - 1 {
        if seen[at].is_healthy(selected) {
            assert(lines.last() == seen[at].capability->0.record.listed(sessions_path));
        }
        if seen[at].is_corrupt(selected) {
            assert(told.last() == seen[at].name);
        }
    } else {
        lemma_lines_are_told(seen.drop_last(), selected, sessions_path, at);
        let line = seen[at].capability->0.record.listed(sessions_path);
        if before.contains(line) {
            let k = choose|k: int| 0 <= k < before.len() && before[k] == line;
            assert(lines[k] == line);
        }
        if names.contains(seen[at].name) {
            let k = choose|k: int| 0 <= k < names.len() && names[k] == seen[at].name;
            assert(told[k] == seen[at].name);
        }
    }
}

/// No record of the selected authority is passed over: its session is listed where it can be trusted,
/// and its name is told, and the listing fails, where it cannot.
pub proof fn law_every_record_is_told(
    listing: Listing,
    seen: Seq<SeenView>,
    selected: Option<AuthorityView>,
    sessions_path: Seq<u8>,
    at: int,
)
    requires
        seen.len() <= usize::MAX,
        listing.is_of(seen, selected, sessions_path),
        0 <= at < seen.len(),
        !(seen[at].step(selected) is Skip),
    ensures
        seen[at].is_healthy(selected) != seen[at].is_corrupt(selected),
        seen[at].is_healthy(selected) ==> list_views(listing.healthy@).contains(
            seen[at].capability->0.record.listed(sessions_path),
        ),
        seen[at].is_corrupt(selected) ==> corrupt_views(listing.corrupt@).contains(
            corrupt_line(seen[at].name),
        ),
{
    let healthy = healthy_lines(seen, selected, sessions_path);
    let corrupt = corrupt_names(seen, selected);
    lemma_lines_are_told(seen, selected, sessions_path, at);
    lemma_fewer_lines(seen, selected, sessions_path);
    law_arranging_sorts(healthy, list_keys(healthy), list_views(listing.healthy@));
    if seen[at].is_healthy(selected) {
        let line = seen[at].capability->0.record.listed(sessions_path);
        assert(healthy.contains(line));
        assert(list_views(listing.healthy@).contains(line));
    }
    if seen[at].is_corrupt(selected) {
        let names = choose|names: Seq<Seq<u8>>|
            #[trigger] sorted_names(corrupt, names) && corrupt_views(listing.corrupt@)
                == corrupt_lines(names);
        let order = choose|order: Seq<usize>|
            is_sorted_order(name_keys(corrupt), order) && names == Seq::new(
                order.len(),
                |i: int| corrupt[order[i] as int],
            );
        let place = choose|place: int| 0 <= place < corrupt.len() && corrupt[place] == seen[at].name;
        assert(order.contains(place as usize));
        let k = choose|k: int| 0 <= k < order.len() && order[k] == place as usize;
        assert(corrupt_lines(names)[k] == corrupt_line(seen[at].name));
    }
}

proof fn lemma_fewer_lines(
    seen: Seq<SeenView>,
    selected: Option<AuthorityView>,
    sessions_path: Seq<u8>,
)
    ensures
        healthy_lines(seen, selected, sessions_path).len() <= seen.len(),
        corrupt_names(seen, selected).len() <= seen.len(),
    decreases seen.len(),
{
    if seen.len() > 0 {
        lemma_fewer_lines(seen.drop_last(), selected, sessions_path);
    }
}

} // verus!
