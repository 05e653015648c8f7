//! What the commands tell: the lines of listings and reports, and exit codes, field by field.

use crate::authority::AuthorityView;
use crate::bytes::utf8;
use crate::cli::exit_code;
use crate::listing::{
    corrupt_line, corrupt_views, healthy_lines, law_every_record_is_told,
    list_keys, list_views, Listing, SeenView,
};
use crate::notation::{hex_text, lemma_hex_text, unhex};
use crate::order::law_arranging_sorts;
use crate::paths::same_path_spec;
use crate::publish::PublishView;
use crate::session::{
    decoded, is_bound_to, path_failure, SessionPayloadView, SessionView,
};
use crate::template::{EntryView, ReportView};
use vstd::prelude::*;

verus! {

/// A program that ends with a code has the command end with that code; one that a signal ends, with 128
/// and the signal. What does not fit an exit code is told as a failure, and never as a success.
pub proof fn law_exit_codes_are_the_programs(code: i32, other: i32, signal: Option<i32>)
    ensures
        0 <= code <= 255 ==> exit_code(Some(code), signal) == code,
        !(0 <= code <= 255) ==> exit_code(Some(code), signal) == 1,
        0 <= code <= 127 ==> exit_code(None, Some(code)) == 128 + code,
        code > 127 ==> exit_code(None, Some(code)) == 1,
        exit_code(None, None) == 129,
        exit_code(Some(code), signal) == 0 <==> code == 0,
        0 <= code <= 255 && 0 <= other <= 255 && exit_code(Some(code), signal) == exit_code(
            Some(other),
            signal,
        ) ==> code == other,
{
}

/// The name under which the directory of a session stands.
pub open spec fn directory_name(payload: SessionPayloadView) -> Seq<char> {
    match payload {
        SessionPayloadView::Prepared { root_name } => root_name,
        SessionPayloadView::Materializing { root_name, .. } => root_name,
        SessionPayloadView::Ready { root_name, .. } => root_name,
        SessionPayloadView::Tombstoned { tombstone_name, .. } => tombstone_name,
    }
}

/// The line of a record carries each of its fields: the authority, the name, the commit that the
/// session began from and the target as they are recorded, how far the session has come, and where it
/// stands.
pub proof fn law_listed_line_carries_its_record(record: SessionView, sessions_path: Seq<u8>)
    ensures
        ({
            let line = record.listed(sessions_path);
            &&& line.version == 1
            &&& line.authority_path_hex == record.authority_path
            &&& line.authority_identity == record.authority_identity
            &&& line.name_hex == record.name
            &&& line.base == record.base
            &&& line.target_hex == record.target
            &&& record.payload is Prepared || record.payload is Materializing ==> line.state
                == "CREATING"@
            &&& record.payload is Ready ==> line.state == "READY"@
            &&& record.payload is Tombstoned ==> line.state == "TOMBSTONED"@
            &&& record.journal is Idle ==> line.publish_state == "IDLE"@
            &&& record.journal is Prepared ==> line.publish_state == "PREPARED"@
            &&& record.journal is ObjectsImported ==> line.publish_state == "OBJECTS_IMPORTED"@
            &&& record.journal is CasAttempted ==> line.publish_state == "CAS_ATTEMPTED"@
            &&& record.journal is CasCommitted ==> line.publish_state == "CAS_COMMITTED"@
            &&& sessions_path.len() > 0 && sessions_path.last() != 47 && !(utf8(
                directory_name(record.payload),
            ).len() > 0 && utf8(directory_name(record.payload))[0] == 47) ==> unhex(
                utf8(line.managed_path_hex),
            ) == sessions_path + seq![47u8] + utf8(directory_name(record.payload))
        }),
{
    let name = utf8(directory_name(record.payload));
    let path = crate::paths::joined(sessions_path, name);
    lemma_hex_text(path);
    assert(sessions_path.push(47) + name =~= sessions_path + seq![47u8] + name);
}

/// The target that is listed is the branch that publishing the session would set.
pub proof fn law_listed_target_is_published(
    authority: AuthorityView,
    record: SessionView,
    sessions_path: Seq<u8>,
    common_path: Seq<u8>,
)
    requires
        PublishView::start(authority, record, common_path).outcome is None,
    ensures
        decoded(record.listed(sessions_path).target_hex) == PublishView::start(
            authority,
            record,
            common_path,
        ).target,
{
}

/// A session is listed under the name, and with the target, that it was recorded with; two sessions
/// that differ in one of them have different lines.
pub proof fn law_listed_names_are_the_recorded_ones(
    record: SessionView,
    other: SessionView,
    name: Seq<u8>,
    target: Seq<u8>,
    sessions_path: Seq<u8>,
)
    requires
        record.name == hex_text(name),
        record.target == hex_text(target),
    ensures
        unhex(utf8(record.listed(sessions_path).name_hex)) == name,
        unhex(utf8(record.listed(sessions_path).target_hex)) == target,
        record.listed(sessions_path) == other.listed(sessions_path) ==> other.name == record.name
            && other.target == record.target && other.base == record.base && other.authority_path
            == record.authority_path && other.authority_identity == record.authority_identity,
{
    lemma_hex_text(name);
    lemma_hex_text(target);
}

/// A record is one of those that a listing is about: of the selected authority, by its path and node,
/// or of any where none is selected.
pub open spec fn is_listed_for(record: SessionView, selected: Option<AuthorityView>) -> bool {
    match selected {
        None => true,
        Some(authority) => same_path_spec(decoded(record.authority_path), authority.canonical)
            && is_bound_to(record, authority),
    }
}

/// What stands under the name of a record, can be read, is of the selected authority and sound, is
/// listed with its own fields; what cannot be read, or is not sound, is told by its name.
pub proof fn law_sound_records_are_listed(
    listing: Listing,
    seen: Seq<SeenView>,
    selected: Option<AuthorityView>,
    sessions_path: Seq<u8>,
    at: int,
)
    requires
        seen.len() <= usize::MAX,
        listing.is_of(seen, selected, sessions_path),
        0 <= at < seen.len(),
        crate::session::is_session_record_name(seen[at].name),
    ensures
        seen[at].sound && (seen[at].capability matches Some(capability) && path_failure(
            capability.record.authority_path,
        ) is None && is_listed_for(capability.record, selected)) ==> (exists|k: int|
            0 <= k < listing.healthy@.len() && ({
                let line = (#[trigger] listing.healthy@[k])@;
                let record = seen[at].capability->0.record;
                &&& line.name_hex == record.name
                &&& line.target_hex == record.target
                &&& line.base == record.base
                &&& line.authority_path_hex == record.authority_path
                &&& line.authority_identity == record.authority_identity
            })),
        seen[at].capability is None ==> (exists|k: int|
            0 <= k < listing.corrupt@.len() && ({
                let line = (#[trigger] listing.corrupt@[k])@;
                &&& line.record_name_hex == hex_text(seen[at].name)
                &&& line.state == "CORRUPT"@
                &&& line.code == "SESSION_CORRUPT"@
            })),
        !seen[at].sound && (seen[at].capability matches Some(capability) && path_failure(
            capability.record.authority_path,
        ) is None && is_listed_for(capability.record, selected)) ==> (exists|k: int|
            0 <= k < listing.corrupt@.len() && (#[trigger] listing.corrupt@[k])@.record_name_hex
                == hex_text(seen[at].name)),
{
    if !(seen[at].step(selected) is Skip) {
        law_every_record_is_told(listing, seen, selected, sessions_path, at);
        if seen[at].is_healthy(selected) {
            let line = seen[at].capability->0.record.listed(sessions_path);
            let k = choose|k: int|
                0 <= k < list_views(listing.healthy@).len() && list_views(listing.healthy@)[k]
                    == line;
            assert(listing.healthy@[k]@ == line);
        }
        if seen[at].is_corrupt(selected) {
            let line = corrupt_line(seen[at].name);
            let k = choose|k: int|
                0 <= k < corrupt_views(listing.corrupt@).len() && corrupt_views(
                    listing.corrupt@,
                )[k] == line;
            assert(listing.corrupt@[k]@ == line);
        }
    }
}

proof fn lemma_lines_come_from_records(
    seen: Seq<SeenView>,
    selected: Option<AuthorityView>,
    sessions_path: Seq<u8>,
    k: int,
)
    requires
        0 <= k < healthy_lines(seen, selected, sessions_path).len(),
    ensures
        exists|at: int|
            0 <= at < seen.len() && (#[trigger] seen[at]).is_healthy(selected) && healthy_lines(
                seen,
                selected,
                sessions_path,
            )[k] == seen[at].capability->0.record.listed(sessions_path),
        healthy_lines(seen, selected, sessions_path).len() <= seen.len(),
    decreases seen.len(),
{
    let front = seen.drop_last();
    let before = healthy_lines(front, selected, sessions_path);
    lemma_count(front, selected, sessions_path);
    if k < before.len() {
        lemma_lines_come_from_records(front, selected, sessions_path, k);
        let at = choose|at: int|
            0 <= at < front.len() && (#[trigger] front[at]).is_healthy(selected) && before[k]
                == front[at].capability->0.record.listed(sessions_path);
        assert(seen[at].is_healthy(selected));
    } else {
        assert(seen[seen.len() - 1].is_healthy(selected));
    }
}

proof fn lemma_count(seen: Seq<SeenView>, selected: Option<AuthorityView>, sessions_path: Seq<u8>)
    ensures
        healthy_lines(seen, selected, sessions_path).len() <= seen.len(),
    decreases seen.len(),
{
    if seen.len() > 0 {
        lemma_count(seen.drop_last(), selected, sessions_path);
    }
}

/// Every line of a listing is of a record that was found, that is sound and of the selected authority.
pub proof fn law_listed_lines_are_of_sound_records(
    listing: Listing,
    seen: Seq<SeenView>,
    selected: Option<AuthorityView>,
    sessions_path: Seq<u8>,
    k: int,
)
    requires
        seen.len() <= usize::MAX,
        listing.is_of(seen, selected, sessions_path),
        0 <= k < listing.healthy@.len(),
    ensures
        exists|at: int|
            0 <= at < seen.len() && (#[trigger] seen[at]).sound && crate::session::is_session_record_name(
                seen[at].name,
            ) && (seen[at].capability matches Some(capability) && is_listed_for(
                capability.record,
                selected,
            ) && listing.healthy@[k]@ == capability.record.listed(sessions_path)),
{
    let healthy = healthy_lines(seen, selected, sessions_path);
    let told = list_views(listing.healthy@);
    lemma_count(seen, selected, sessions_path);
    law_arranging_sorts(healthy, list_keys(healthy), told);
    let line = listing.healthy@[k]@;
    assert(told[k] == line);
    assert(told.contains(line));
    assert(healthy.contains(line));
    let j = choose|j: int| 0 <= j < healthy.len() && healthy[j] == line;
    lemma_lines_come_from_records(seen, selected, sessions_path, j);
    let at = choose|at: int|
        0 <= at < seen.len() && (#[trigger] seen[at]).is_healthy(selected) && healthy[j]
            == seen[at].capability->0.record.listed(sessions_path);
    assert(seen[at].sound);
}

/// What is added to a report stands in it as it was said, behind what stood there; and nothing but a
/// recovery asks for one.
pub proof fn law_report_entries_are_kept(
    report: ReportView,
    other: ReportView,
    scope: Seq<char>,
    record_name: Seq<u8>,
    path_name: Seq<u8>,
    state: Seq<char>,
    code: Seq<char>,
)
    ensures
        ({
            let next = report.with(scope, record_name, path_name, state, code);
            let entry = next.entries.last();
            &&& next.entries.len() == report.entries.len() + 1
            &&& forall|i: int|
                0 <= i < report.entries.len() ==> #[trigger] next.entries[i] == report.entries[i]
            &&& entry.scope == scope && entry.record_name == record_name && entry.path_name
                == path_name && entry.state == state && entry.code == code
            &&& next.recovery_required == report.recovery_required
        }),
        ({
            let next = report.recovering(scope, record_name, path_name, state);
            let entry = next.entries.last();
            &&& next.entries.len() == report.entries.len() + 1
            &&& forall|i: int|
                0 <= i < report.entries.len() ==> #[trigger] next.entries[i] == report.entries[i]
            &&& entry.scope == scope && entry.record_name == record_name && entry.path_name
                == path_name && entry.state == state && entry.code == "RECOVERY_REQUIRED"@
            &&& next.recovery_required
        }),
        ({
            let next = report.merged(other);
            &&& next.entries.len() == report.entries.len() + other.entries.len()
            &&& forall|i: int|
                0 <= i < report.entries.len() ==> #[trigger] next.entries[i] == report.entries[i]
            &&& forall|i: int|
                0 <= i < other.entries.len() ==> next.entries[report.entries.len() + i]
                    == #[trigger] other.entries[i]
            &&& next.recovery_required == (report.recovery_required || other.recovery_required)
        }),
        ReportView::blank().entries.len() == 0 && !ReportView::blank().recovery_required,
{
}

/// The line of an entry carries each of its fields, and is a finding exactly where the entry asks for
/// recovery.
pub proof fn law_report_line_carries_its_entry(entry: EntryView)
    ensures
        ({
            let line = entry.line();
            &&& line.version == 1
            &&& line.scope == entry.scope
            &&& unhex(utf8(line.record_name_hex)) == entry.record_name
            &&& unhex(utf8(line.path_hex)) == entry.path_name
            &&& line.state == entry.state
            &&& line.code == entry.code
            &&& entry.code == "RECOVERY_REQUIRED"@ ==> line.kind == "finding"@
            &&& entry.code != "RECOVERY_REQUIRED"@ ==> line.kind == "item"@
        }),
{
    lemma_hex_text(entry.record_name);
    lemma_hex_text(entry.path_name);
}

} // verus!
