//! What a census counts: every record is told of as it stands, every record that could be read is
//! counted, and nothing else is.

use crate::authority::Error;
use crate::bytes::utf8;
use crate::session::{CapabilityView, SessionPayloadView};
use crate::session_gc::{
    census_capabilities, census_failure, is_authorized, is_passed_over, left_behind, other_report,
    reachable_keys, record_report, temporary_failure, CensusCapabilityView, SessionCensusView,
    SessionNameView, SessionTemporary, StockSeen,
};
use crate::storage::SealedView;
use crate::template::{EntryView, ReportView, TemplatePayloadView};
use crate::template_gc::{session_template_failure, CensusNameView, CensusView};
use crate::template_roots::{TemplateCapability, TemplateCapabilityView};
use vstd::prelude::*;

verus! {

/// A name is that of a session's record.
pub open spec fn is_record(name: Seq<u8>) -> bool {
    utf8("session-"@).is_prefix_of(name) && utf8(".record"@).is_suffix_of(name)
}

/// A name is one that a write goes by until it is done.
pub open spec fn is_unfinished(name: Seq<u8>) -> bool {
    utf8("."@).is_prefix_of(name) && utf8(".tmp"@).is_suffix_of(name)
}

/// What is told of something that is found under a name.
pub open spec fn told_of(scope: Seq<char>, name: Seq<u8>, state: Seq<char>, code: Seq<char>) -> EntryView {
    EntryView { scope, record_name: name, path_name: name, state, code }
}

/// Where a session stands, by its record.
pub open spec fn stage_of(payload: SessionPayloadView) -> Seq<char> {
    match payload {
        SessionPayloadView::Ready { .. } => "READY"@,
        SessionPayloadView::Tombstoned { .. } => "TOMBSTONED"@,
        _ => "CREATING"@,
    }
}

/// What is told of a record of a session: one that cannot be read is corrupt, a session that does not
/// stand as it should is told by its stage, one that is being published by that, and all three ask for
/// recovery. Any other is kept, or waits to go.
pub open spec fn told_of_record(name: SessionNameView) -> EntryView {
    match name.record {
        None => told_of("session"@, name.name, "CORRUPT"@, "RECOVERY_REQUIRED"@),
        Some(found) => if !name.sound {
            told_of("session"@, name.name, stage_of(found.record.payload), "RECOVERY_REQUIRED"@)
        } else if found.record.journal !is Idle {
            told_of("session"@, name.name, "PUBLISH"@, "RECOVERY_REQUIRED"@)
        } else if found.record.payload is Tombstoned {
            told_of("session"@, name.name, "TOMBSTONED"@, "PENDING"@)
        } else {
            told_of("session"@, name.name, stage_of(found.record.payload), "RETAINED"@)
        },
    }
}

/// Nothing is wrong with a name of the container of sessions.
pub open spec fn is_in_order(name: SessionNameView, all: Seq<SessionNameView>) -> bool {
    &&& is_record(name.name) ==> (name.record matches Some(found) && name.sound
        && found.record.journal is Idle)
    &&& is_passed_over(name, all) || (is_unfinished(name.name) && name.predecessor)
}

proof fn lemma_told_stays(
    report: ReportView,
    names: Seq<SessionNameView>,
    all: Seq<SessionNameView>,
    report_temporary: bool,
)
    ensures
        report.entries.is_prefix_of(
            other_report(report, names, all, report_temporary).entries,
        ),
    decreases names.len(),
{
    if names.len() > 0 {
        lemma_told_stays(report, names.drop_last(), all, report_temporary);
        let before = other_report(report, names.drop_last(), all, report_temporary).entries;
        let after = other_report(report, names, all, report_temporary).entries;
        assert(before.is_prefix_of(after)) by {
            assert(before =~= after.subrange(0, before.len() as int));
        }
        assert(report.entries =~= after.subrange(0, report.entries.len() as int)) by {
            assert(report.entries =~= before.subrange(0, report.entries.len() as int));
        }
    } else {
        assert(report.entries =~= report.entries.subrange(0, report.entries.len() as int));
    }
}

proof fn lemma_records_are_told_of(names: Seq<SessionNameView>, at: int)
    requires
        0 <= at < names.len(),
        is_record(names[at].name),
    ensures
        record_report(names).entries.contains(told_of_record(names[at])),
    decreases names.len(),
{
    let before = record_report(names.drop_last()).entries;
    let after = record_report(names).entries;
    if at == names.len() - 1 {
        assert(after =~= before.push(told_of_record(names[at])));
        assert(after[before.len() as int] == told_of_record(names[at]));
    } else {
        assert(names.drop_last()[at] == names[at]);
        lemma_records_are_told_of(names.drop_last(), at);
        let k = choose|k: int| 0 <= k < before.len() && before[k] == told_of_record(names[at]);
        assert(after[k] == before[k]);
    }
}

/// A census of sessions tells of every record, as it stands.
pub proof fn law_every_session_record_is_told_of(
    names: Seq<SessionNameView>,
    report_temporary: bool,
    at: int,
)
    requires
        0 <= at < names.len(),
        is_record(names[at].name),
    ensures
        SessionCensusView::of(names, report_temporary).report.entries.contains(
            told_of_record(names[at]),
        ),
{
    let told = record_report(names);
    lemma_records_are_told_of(names, at);
    lemma_told_stays(told, names, names, report_temporary);
    let all = other_report(told, names, names, report_temporary).entries;
    let k = choose|k: int|
        0 <= k < told.entries.len() && told.entries[k] == told_of_record(names[at]);
    assert(all.subrange(0, told.entries.len() as int)[k] == all[k]);
}

proof fn lemma_others_are_told_of(
    report: ReportView,
    names: Seq<SessionNameView>,
    all: Seq<SessionNameView>,
    report_temporary: bool,
    at: int,
)
    requires
        0 <= at < names.len(),
        !is_passed_over(names[at], all),
    ensures
        !is_unfinished(names[at].name) ==> other_report(
            report,
            names,
            all,
            report_temporary,
        ).entries.contains(told_of("session"@, names[at].name, "UNKNOWN"@, "RECOVERY_REQUIRED"@)),
        is_unfinished(names[at].name) && !names[at].predecessor ==> other_report(
            report,
            names,
            all,
            report_temporary,
        ).entries.contains(told_of("session"@, names[at].name, "TMP"@, "RECOVERY_REQUIRED"@)),
        is_unfinished(names[at].name) && names[at].predecessor && report_temporary ==> other_report(
            report,
            names,
            all,
            report_temporary,
        ).entries.contains(told_of("session"@, names[at].name, "TMP"@, "RETAINED"@)),
    decreases names.len(),
{
    let before = other_report(report, names.drop_last(), all, report_temporary).entries;
    let after = other_report(report, names, all, report_temporary).entries;
    if at == names.len() - 1 {
        if after.len() > before.len() {
            assert(after[before.len() as int] == after.last());
        }
    } else {
        assert(names.drop_last()[at] == names[at]);
        lemma_others_are_told_of(report, names.drop_last(), all, report_temporary, at);
        assert forall|entry: EntryView| before.contains(entry) implies after.contains(entry) by {
            let k = choose|k: int| 0 <= k < before.len() && before[k] == entry;
            assert(after[k] == before[k]);
        }
    }
}

/// A census of sessions tells of every name that belongs to no record: one that is not known asks for
/// recovery, and so does a record that was left unfinished and is no predecessor of another. One that
/// is, is told of where that is asked for.
pub proof fn law_every_stray_name_is_told_of(
    names: Seq<SessionNameView>,
    report_temporary: bool,
    at: int,
)
    requires
        0 <= at < names.len(),
        !is_passed_over(names[at], names),
    ensures
        ({
            let entries = SessionCensusView::of(names, report_temporary).report.entries;
            let name = names[at].name;
            if !is_unfinished(name) {
                entries.contains(told_of("session"@, name, "UNKNOWN"@, "RECOVERY_REQUIRED"@))
            } else if !names[at].predecessor {
                entries.contains(told_of("session"@, name, "TMP"@, "RECOVERY_REQUIRED"@))
            } else {
                report_temporary ==> entries.contains(
                    told_of("session"@, name, "TMP"@, "RETAINED"@),
                )
            }
        }),
{
    lemma_others_are_told_of(record_report(names), names, names, report_temporary, at);
}

proof fn lemma_record_recovery(names: Seq<SessionNameView>)
    ensures
        !record_report(names).recovery_required <==> forall|i: int|
            0 <= i < names.len() && is_record((#[trigger] names[i]).name) ==> (names[i].record matches Some(
                found,
            ) && names[i].sound && found.record.journal is Idle),
    decreases names.len(),
{
    if names.len() > 0 {
        let shorter = names.drop_last();
        lemma_record_recovery(shorter);
        assert(names[names.len() - 1] == names.last());
        assert forall|i: int| 0 <= i < shorter.len() implies #[trigger] shorter[i] == names[i] by {}
        if !record_report(shorter).recovery_required {
            assert forall|i: int| 0 <= i < names.len() - 1 && is_record((#[trigger] names[i]).name) implies (
            names[i].record matches Some(found) && names[i].sound && found.record.journal is Idle) by {
                assert(shorter[i] == names[i]);
            }
        }
    }
}

proof fn lemma_other_recovery(
    report: ReportView,
    names: Seq<SessionNameView>,
    all: Seq<SessionNameView>,
    report_temporary: bool,
)
    ensures
        !other_report(report, names, all, report_temporary).recovery_required <==> {
            &&& !report.recovery_required
            &&& forall|i: int|
                0 <= i < names.len() ==> is_passed_over(#[trigger] names[i], all) || (is_unfinished(
                    names[i].name,
                ) && names[i].predecessor)
        },
    decreases names.len(),
{
    if names.len() > 0 {
        let shorter = names.drop_last();
        lemma_other_recovery(report, shorter, all, report_temporary);
        assert(names[names.len() - 1] == names.last());
        assert forall|i: int| 0 <= i < shorter.len() implies #[trigger] shorter[i] == names[i] by {}
        if !other_report(report, shorter, all, report_temporary).recovery_required {
            assert forall|i: int| 0 <= i < names.len() - 1 implies is_passed_over(
                #[trigger] names[i],
                all,
            ) || (is_unfinished(names[i].name) && names[i].predecessor) by {
                assert(shorter[i] == names[i]);
            }
        }
    }
}

/// A census of sessions asks for recovery exactly where some name is not in order.
pub proof fn law_session_census_recovers_exactly_on_disorder(
    names: Seq<SessionNameView>,
    report_temporary: bool,
)
    ensures
        SessionCensusView::of(names, report_temporary).report.recovery_required <==> exists|i: int|
            0 <= i < names.len() && !is_in_order(#[trigger] names[i], names),
{
    lemma_record_recovery(names);
    lemma_other_recovery(record_report(names), names, names, report_temporary);
    if SessionCensusView::of(names, report_temporary).report.recovery_required {
        if record_report(names).recovery_required {
            let i = choose|i: int|
                0 <= i < names.len() && is_record((#[trigger] names[i]).name) && !(
                names[i].record matches Some(found) && names[i].sound && found.record.journal is Idle);
            assert(!is_in_order(names[i], names));
        } else {
            let i = choose|i: int|
                0 <= i < names.len() && !(is_passed_over(#[trigger] names[i], names) || (
                is_unfinished(names[i].name) && names[i].predecessor));
            assert(!is_in_order(names[i], names));
        }
    }
}

/// A session is counted under this name, with its record and the plan for its objects.
pub open spec fn counts(name: SessionNameView, session: CensusCapabilityView) -> bool {
    is_record(name.name) && name.record == Some(session.capability) && session.private_objects
        == name.plan
}

proof fn lemma_capabilities(names: Seq<SessionNameView>)
    ensures
        forall|i: int|
            0 <= i < names.len() && is_record((#[trigger] names[i]).name) && names[i].record is Some
                ==> census_capabilities(names).contains(
                CensusCapabilityView {
                    capability: names[i].record->0,
                    private_objects: names[i].plan,
                },
            ),
        forall|j: int|
            0 <= j < census_capabilities(names).len() ==> is_counted_once(
                names,
                #[trigger] census_capabilities(names)[j],
            ),
        census_capabilities(names).len() <= names.len(),
    decreases names.len(),
{
    if names.len() > 0 {
        let shorter = names.drop_last();
        let before = census_capabilities(shorter);
        let after = census_capabilities(names);
        lemma_capabilities(shorter);
        assert(names[names.len() - 1] == names.last());
        assert forall|i: int|
            0 <= i < names.len() && is_record((#[trigger] names[i]).name) && names[i].record is Some implies after.contains(
            CensusCapabilityView { capability: names[i].record->0, private_objects: names[i].plan },
        ) by {
            let session = CensusCapabilityView {
                capability: names[i].record->0,
                private_objects: names[i].plan,
            };
            if i < shorter.len() {
                assert(shorter[i] == names[i]);
                let k = choose|k: int| 0 <= k < before.len() && before[k] == session;
                assert(after[k] == session);
            } else {
                assert(after[before.len() as int] == session);
            }
        }
        assert forall|j: int| 0 <= j < after.len() implies is_counted_once(
            names,
            #[trigger] after[j],
        ) by {
            if j < before.len() {
                assert(before[j] == after[j]);
                let i = choose|i: int| 0 <= i < shorter.len() && #[trigger] counts(shorter[i], before[j]);
                assert(names[i] == shorter[i]);
                assert(counts(names[i], after[j]));
            } else {
                assert(counts(names[names.len() - 1], after[j]));
            }
        }
    }
}

pub open spec fn is_counted_once(names: Seq<SessionNameView>, session: CensusCapabilityView) -> bool {
    exists|i: int| 0 <= i < names.len() && #[trigger] counts(names[i], session)
}

/// A census counts every session whose record could be read, with the plan for its objects, and counts
/// nothing that is not there.
pub proof fn law_sessions_are_counted(names: Seq<SessionNameView>, report_temporary: bool, at: int)
    requires
        0 <= at < names.len(),
    ensures
        is_record(names[at].name) && names[at].record is Some ==> SessionCensusView::of(
            names,
            report_temporary,
        ).capabilities.contains(
            CensusCapabilityView {
                capability: names[at].record->0,
                private_objects: names[at].plan,
            },
        ),
        forall|j: int|
            0 <= j < SessionCensusView::of(names, report_temporary).capabilities.len()
                ==> is_counted_once(
                names,
                #[trigger] SessionCensusView::of(names, report_temporary).capabilities[j],
            ),
{
    lemma_capabilities(names);
}

/// A session that stands as it should uses the template of this key.
pub open spec fn uses(name: SessionNameView, key: Seq<char>) -> bool {
    is_record(name.name) && name.sound && (name.record matches Some(found) && found.record.template_key
        == key)
}

proof fn lemma_keys_are_used(names: Seq<SessionNameView>)
    ensures
        forall|key: Seq<char>| #[trigger]
            reachable_keys(names).contains(key) ==> exists|i: int|
                0 <= i < names.len() && #[trigger] uses(names[i], key),
        forall|i: int, key: Seq<char>|
            0 <= i < names.len() && #[trigger] uses(names[i], key) ==> reachable_keys(names).contains(key),
    decreases names.len(),
{
    if names.len() > 0 {
        let shorter = names.drop_last();
        let before = reachable_keys(shorter);
        let after = reachable_keys(names);
        lemma_keys_are_used(shorter);
        assert(names[names.len() - 1] == names.last());
        assert forall|key: Seq<char>| #[trigger] after.contains(key) implies exists|i: int|
            0 <= i < names.len() && #[trigger] uses(names[i], key) by {
            let k = choose|k: int| 0 <= k < after.len() && after[k] == key;
            if k < before.len() {
                assert(before[k] == key);
                assert(before.contains(key));
                let i = choose|i: int| 0 <= i < shorter.len() && #[trigger] uses(shorter[i], key);
                assert(names[i] == shorter[i]);
                assert(uses(names[i], key));
            } else {
                assert(uses(names[names.len() - 1], key));
            }
        }
        assert forall|i: int, key: Seq<char>|
            0 <= i < names.len() && #[trigger] uses(names[i], key) implies after.contains(key) by {
            if i < shorter.len() {
                assert(shorter[i] == names[i]);
                assert(uses(shorter[i], key));
                let k = choose|k: int| 0 <= k < before.len() && before[k] == key;
                assert(after[k] == key);
            } else if before.contains(key) {
                let k = choose|k: int| 0 <= k < before.len() && before[k] == key;
                assert(after[k] == key);
            } else {
                assert(after[before.len() as int] == key);
            }
        }
    }
}

/// The templates that a census finds in use are exactly those of the sessions that stand as they should.
pub proof fn law_used_templates_are_those_of_sessions(
    names: Seq<SessionNameView>,
    report_temporary: bool,
    key: Seq<char>,
)
    ensures
        SessionCensusView::of(names, report_temporary).reachable_templates.contains(key) <==> exists|
            i: int,
        | 0 <= i < names.len() && #[trigger] uses(names[i], key),
{
    lemma_keys_are_used(names);
}

/// A name is that of a record that an exchange left behind.
pub open spec fn is_left_over(name: SessionNameView, all: Seq<SessionNameView>, left: Seq<u8>) -> bool {
    name.name == left && !is_passed_over(name, all) && is_unfinished(left) && name.predecessor
}

proof fn lemma_left_behind(names: Seq<SessionNameView>, all: Seq<SessionNameView>)
    ensures
        forall|left: Seq<u8>| #[trigger]
            left_behind(names, all).contains(left) <==> exists|i: int|
                0 <= i < names.len() && #[trigger] is_left_over(names[i], all, left),
    decreases names.len(),
{
    if names.len() > 0 {
        let shorter = names.drop_last();
        let before = left_behind(shorter, all);
        let after = left_behind(names, all);
        lemma_left_behind(shorter, all);
        assert(names[names.len() - 1] == names.last());
        assert forall|left: Seq<u8>| #[trigger] after.contains(left) <==> exists|i: int|
            0 <= i < names.len() && #[trigger] is_left_over(names[i], all, left) by {
            if after.contains(left) {
                let k = choose|k: int| 0 <= k < after.len() && after[k] == left;
                if k < before.len() {
                    assert(before[k] == left);
                    assert(before.contains(left));
                    let i = choose|i: int|
                        0 <= i < shorter.len() && #[trigger] is_left_over(shorter[i], all, left);
                    assert(names[i] == shorter[i]);
                    assert(is_left_over(names[i], all, left));
                } else {
                    assert(is_left_over(names[names.len() - 1], all, left));
                }
            }
            if exists|i: int| 0 <= i < names.len() && #[trigger] is_left_over(names[i], all, left) {
                let i = choose|i: int|
                    0 <= i < names.len() && #[trigger] is_left_over(names[i], all, left);
                if i < shorter.len() {
                    assert(shorter[i] == names[i]);
                    assert(is_left_over(shorter[i], all, left));
                    assert(before.contains(left));
                    let k = choose|k: int| 0 <= k < before.len() && before[k] == left;
                    assert(after[k] == left);
                } else {
                    assert(after[before.len() as int] == left);
                }
            }
        }
    }
}

/// What a census hands on to be cleaned up is exactly what exchanges left behind.
pub proof fn law_left_over_records_are_found(
    names: Seq<SessionNameView>,
    report_temporary: bool,
    left: Seq<u8>,
)
    ensures
        SessionCensusView::of(names, report_temporary).temporaries.contains(left) <==> exists|i: int|
            0 <= i < names.len() && #[trigger] is_left_over(names[i], names, left),
{
    lemma_left_behind(names, names);
}

/// A census fails exactly where of some name that belongs to no record it cannot be told whether the
/// system left it.
pub proof fn law_census_fails_on_unclear_names(names: Seq<SessionNameView>, all: Seq<SessionNameView>)
    ensures
        census_failure(names, all) is Some <==> exists|i: int|
            0 <= i < names.len() && (#[trigger] names[i]).ignorable is Err && !is_authorized(
                all,
                names[i].name,
            ),
    decreases names.len(),
{
    if names.len() > 0 {
        let shorter = names.drop_last();
        law_census_fails_on_unclear_names(shorter, all);
        assert(names[names.len() - 1] == names.last());
        if census_failure(shorter, all) is Some {
            let i = choose|i: int|
                0 <= i < shorter.len() && (#[trigger] shorter[i]).ignorable is Err && !is_authorized(
                    all,
                    shorter[i].name,
                );
            assert(names[i] == shorter[i]);
        }
        if exists|i: int|
            0 <= i < names.len() && (#[trigger] names[i]).ignorable is Err && !is_authorized(
                all,
                names[i].name,
            ) {
            let i = choose|i: int|
                0 <= i < names.len() && (#[trigger] names[i]).ignorable is Err && !is_authorized(
                    all,
                    names[i].name,
                );
            if i < shorter.len() {
                assert(shorter[i] == names[i]);
            }
        }
    }
}

/// A session stands as it should only with its template there; one that is READY only where it could be
/// loaded, its objects could be classified, and its record is still the one that was read.
pub proof fn law_stock_is_taken_whole(seen: StockSeen, capability: CapabilityView)
    requires
        seen.stock_failure(capability) is None,
    ensures
        seen.template is Ok,
        capability.record.payload is Ready ==> seen.loaded is Ok && seen.classified is Ok && (
        seen.current matches Ok(current) && current@.binding == capability.binding),
        !(capability.record.payload is Ready) ==> seen.sound is Ok,
{
}

/// A temporary record is taken away only where its name is that of a session's record and it is the
/// step before the record that stands.
pub proof fn law_only_predecessors_are_left_over(found: Result<SessionTemporary, Error>)
    ensures
        temporary_failure(found) is None <==> (found matches Ok(found) && {
            &&& found.final_name matches Some(name) && is_record(name@)
            &&& found.previous matches Ok(previous) && (found.current matches Ok(current)
                && previous@.record.steps_to(current@.record))
        }),
{
}

/// A session's template is there only with the key, the volume and the listing of the session's seal,
/// under the very seal, READY or about to go.
pub proof fn law_session_templates_bear_the_seal(
    capability: Result<Option<TemplateCapability>, Error>,
    key: Seq<char>,
    expected: SealedView,
)
    ensures
        session_template_failure(capability, key, expected) is None <==> (capability matches Ok(
            Some(found),
        ) && {
            &&& found@.record.key == key
            &&& found@.record.volume == expected.volume
            &&& found@.record.digest == expected.digest
            &&& found@.record.entries == expected.entries
            &&& {
                ||| found@.record.payload matches TemplatePayloadView::Ready { sealed, .. } && sealed
                    == expected
                ||| found@.record.payload matches TemplatePayloadView::Tombstoned { sealed, .. }
                    && sealed == expected
            }
        }),
{
}

/// A name is that of a template's record.
pub open spec fn is_template_record(name: Seq<u8>) -> bool {
    utf8("template-"@).is_prefix_of(name) && utf8(".record"@).is_suffix_of(name)
}

/// What is told of a record of a template: by the directory that the record names, with what has to be
/// recovered marked.
pub open spec fn told_of_template(name: CensusNameView) -> EntryView {
    let entry = told_of("template"@, name.name, "CORRUPT"@, "RECOVERY_REQUIRED"@);
    match name.record {
        None => entry,
        Some(found) => {
            let entry = EntryView { record_name: found.basename, ..entry };
            match found.record.payload {
                TemplatePayloadView::Ready { root_name, .. } => EntryView {
                    path_name: utf8(root_name),
                    state: "READY"@,
                    code: if name.valid {
                        "OK"@
                    } else {
                        "RECOVERY_REQUIRED"@
                    },
                    ..entry
                },
                TemplatePayloadView::Tombstoned { tombstone_name, .. } => EntryView {
                    path_name: utf8(tombstone_name),
                    state: "TOMBSTONED"@,
                    code: if name.valid {
                        "RECOVERY"@
                    } else {
                        "RECOVERY_REQUIRED"@
                    },
                    ..entry
                },
                TemplatePayloadView::Prepared { building_name }
                | TemplatePayloadView::Materializing { building_name, .. }
                | TemplatePayloadView::Publishing { building_name, .. } => EntryView {
                    path_name: utf8(building_name),
                    state: "INCOMPLETE"@,
                    ..entry
                },
            }
        },
    }
}

proof fn lemma_template_records(names: Seq<CensusNameView>, at: int)
    requires
        0 <= at < names.len(),
        is_template_record(names[at].name),
    ensures
        CensusView::records(names).report.entries.contains(told_of_template(names[at])),
        names[at].record matches Some(found) ==> CensusView::records(names).capabilities.contains(
            found,
        ),
    decreases names.len(),
{
    let before = CensusView::records(names.drop_last());
    let after = CensusView::records(names);
    if at == names.len() - 1 {
        assert(after.report.entries.last() == told_of_template(names[at]));
        assert(after.report.entries[before.report.entries.len() as int] == told_of_template(names[at]));
        if names[at].record is Some {
            assert(after.capabilities[before.capabilities.len() as int] == names[at].record->0);
        }
    } else {
        assert(names.drop_last()[at] == names[at]);
        lemma_template_records(names.drop_last(), at);
        let k = choose|k: int|
            0 <= k < before.report.entries.len() && before.report.entries[k] == told_of_template(
                names[at],
            );
        assert(after.report.entries[k] == before.report.entries[k]);
        if names[at].record is Some {
            let k = choose|k: int|
                0 <= k < before.capabilities.len() && before.capabilities[k] == names[at].record->0;
            assert(after.capabilities[k] == before.capabilities[k]);
        }
    }
}

proof fn lemma_template_others_keep(
    census: CensusView,
    names: Seq<CensusNameView>,
    all: Seq<CensusNameView>,
    report_temporary: bool,
)
    ensures
        census.others(names, all, report_temporary).capabilities == census.capabilities,
        forall|entry: EntryView| #[trigger]
            census.report.entries.contains(entry) ==> census.others(
                names,
                all,
                report_temporary,
            ).report.entries.contains(entry),
    decreases names.len(),
{
    if names.len() > 0 {
        lemma_template_others_keep(census, names.drop_last(), all, report_temporary);
        let before = census.others(names.drop_last(), all, report_temporary).report.entries;
        let after = census.others(names, all, report_temporary).report.entries;
        assert forall|entry: EntryView| #[trigger] census.report.entries.contains(entry) implies after.contains(
            entry,
        ) by {
            assert(before.contains(entry));
            let k = choose|k: int| 0 <= k < before.len() && before[k] == entry;
            assert(after[k] == before[k]);
        }
    }
}

/// A census of templates tells of every record, as it stands, and counts every one that could be read.
pub proof fn law_every_template_record_is_told_of(
    names: Seq<CensusNameView>,
    report_temporary: bool,
    at: int,
)
    requires
        0 <= at < names.len(),
        is_template_record(names[at].name),
    ensures
        CensusView::of(names, report_temporary).report.entries.contains(told_of_template(names[at])),
        names[at].record matches Some(found) ==> CensusView::of(
            names,
            report_temporary,
        ).capabilities.contains(found),
{
    lemma_template_records(names, at);
    lemma_template_others_keep(CensusView::records(names), names, names, report_temporary);
}

/// A template is counted under this name.
pub open spec fn counts_template(name: CensusNameView, template: TemplateCapabilityView) -> bool {
    is_template_record(name.name) && name.record == Some(template)
}

pub open spec fn is_a_counted_template(
    names: Seq<CensusNameView>,
    template: TemplateCapabilityView,
) -> bool {
    exists|i: int| 0 <= i < names.len() && #[trigger] counts_template(names[i], template)
}

/// A census counts no template that is not there.
pub proof fn law_counted_templates_are_there(names: Seq<CensusNameView>, report_temporary: bool)
    ensures
        forall|j: int|
            0 <= j < CensusView::of(names, report_temporary).capabilities.len()
                ==> is_a_counted_template(
                names,
                #[trigger] CensusView::of(names, report_temporary).capabilities[j],
            ),
{
    lemma_template_others_keep(CensusView::records(names), names, names, report_temporary);
    lemma_counted_templates(names);
}

proof fn lemma_counted_templates(names: Seq<CensusNameView>)
    ensures
        forall|j: int|
            0 <= j < CensusView::records(names).capabilities.len() ==> is_a_counted_template(
                names,
                #[trigger] CensusView::records(names).capabilities[j],
            ),
    decreases names.len(),
{
    if names.len() > 0 {
        let shorter = names.drop_last();
        let before = CensusView::records(shorter).capabilities;
        let after = CensusView::records(names).capabilities;
        lemma_counted_templates(shorter);
        assert forall|j: int| 0 <= j < after.len() implies is_a_counted_template(
            names,
            #[trigger] after[j],
        ) by {
            if j < before.len() {
                assert(before[j] == after[j]);
                let i = choose|i: int|
                    0 <= i < shorter.len() && #[trigger] counts_template(shorter[i], before[j]);
                assert(names[i] == shorter[i]);
                assert(counts_template(names[i], after[j]));
            } else {
                assert(counts_template(names[names.len() - 1], after[j]));
            }
        }
    }
}

proof fn lemma_template_strays(
    census: CensusView,
    names: Seq<CensusNameView>,
    all: Seq<CensusNameView>,
    report_temporary: bool,
    at: int,
)
    requires
        0 <= at < names.len(),
        !CensusView::is_authorized(all, names[at].name),
    ensures
        is_told_stray(census.others(names, all, report_temporary), names[at], report_temporary),
    decreases names.len(),
{
    let before = census.others(names.drop_last(), all, report_temporary);
    let after = census.others(names, all, report_temporary);
    if at == names.len() - 1 {
        if after.report.entries.len() > before.report.entries.len() {
            assert(after.report.entries[before.report.entries.len() as int]
                == after.report.entries.last());
        }
        if after.temporaries.len() > before.temporaries.len() {
            assert(after.temporaries[before.temporaries.len() as int] == names[at].name);
        }
    } else {
        assert(names.drop_last()[at] == names[at]);
        lemma_template_strays(census, names.drop_last(), all, report_temporary, at);
        assert forall|entry: EntryView|
            before.report.entries.contains(entry) implies #[trigger] after.report.entries.contains(
            entry,
        ) by {
            let k = choose|k: int|
                0 <= k < before.report.entries.len() && before.report.entries[k] == entry;
            assert(after.report.entries[k] == entry);
        }
        assert forall|left: Seq<u8>|
            before.temporaries.contains(left) implies #[trigger] after.temporaries.contains(left) by {
            let k = choose|k: int| 0 <= k < before.temporaries.len() && before.temporaries[k] == left;
            assert(after.temporaries[k] == left);
        }
    }
}

/// What a census of templates does with a name that belongs to no record: one that is not known asks
/// for recovery, and so does an unfinished record that is no predecessor of another; one that is, is
/// handed on to be cleaned up, and told of where that is asked for.
pub open spec fn is_told_stray(census: CensusView, name: CensusNameView, report_temporary: bool) -> bool {
    let entries = census.report.entries;
    if !is_unfinished(name.name) {
        entries.contains(told_of("template"@, name.name, "UNKNOWN"@, "RECOVERY_REQUIRED"@))
    } else if !name.predecessor {
        entries.contains(told_of("template"@, name.name, "TMP"@, "RECOVERY_REQUIRED"@))
    } else {
        census.temporaries.contains(name.name) && (report_temporary ==> entries.contains(
            told_of("template"@, name.name, "TMP"@, "RETAINED"@),
        ))
    }
}

/// A census of templates passes over no name that belongs to no record.
pub proof fn law_stray_template_names_are_told_of(
    names: Seq<CensusNameView>,
    report_temporary: bool,
    at: int,
)
    requires
        0 <= at < names.len(),
        !CensusView::is_authorized(names, names[at].name),
    ensures
        is_told_stray(CensusView::of(names, report_temporary), names[at], report_temporary),
{
    lemma_template_strays(CensusView::records(names), names, names, report_temporary, at);
}

/// A record of a template is in order: it could be read, and its template is ready or about to go and
/// stands as it should.
pub open spec fn is_template_in_order(name: CensusNameView) -> bool {
    is_template_record(name.name) ==> (name.record matches Some(found) && name.valid && (
    found.record.payload is Ready || found.record.payload is Tombstoned))
}

proof fn lemma_template_recovery(names: Seq<CensusNameView>)
    ensures
        CensusView::records(names).report.recovery_required <==> exists|i: int|
            0 <= i < names.len() && !is_template_in_order(#[trigger] names[i]),
        CensusView::records(names).temporaries.len() == 0,
    decreases names.len(),
{
    if names.len() > 0 {
        let shorter = names.drop_last();
        lemma_template_recovery(shorter);
        assert(names[names.len() - 1] == names.last());
        if CensusView::records(shorter).report.recovery_required {
            let i = choose|i: int| 0 <= i < shorter.len() && !is_template_in_order(#[trigger] shorter[i]);
            assert(names[i] == shorter[i]);
        }
        if exists|i: int| 0 <= i < names.len() && !is_template_in_order(#[trigger] names[i]) {
            let i = choose|i: int| 0 <= i < names.len() && !is_template_in_order(#[trigger] names[i]);
            if i < shorter.len() {
                assert(shorter[i] == names[i]);
            }
        }
    }
}

proof fn lemma_template_stray_recovery(
    census: CensusView,
    names: Seq<CensusNameView>,
    all: Seq<CensusNameView>,
    report_temporary: bool,
)
    ensures
        census.others(names, all, report_temporary).report.recovery_required <==> {
            ||| census.report.recovery_required
            ||| exists|i: int|
                0 <= i < names.len() && !CensusView::is_authorized(all, (#[trigger] names[i]).name)
                    && !(is_unfinished(names[i].name) && names[i].predecessor)
        },
    decreases names.len(),
{
    if names.len() > 0 {
        let shorter = names.drop_last();
        lemma_template_stray_recovery(census, shorter, all, report_temporary);
        assert(names[names.len() - 1] == names.last());
        if exists|i: int|
            0 <= i < shorter.len() && !CensusView::is_authorized(all, (#[trigger] shorter[i]).name) && !(
            is_unfinished(shorter[i].name) && shorter[i].predecessor) {
            let i = choose|i: int|
                0 <= i < shorter.len() && !CensusView::is_authorized(all, (#[trigger] shorter[i]).name)
                    && !(is_unfinished(shorter[i].name) && shorter[i].predecessor);
            assert(names[i] == shorter[i]);
        }
        if exists|i: int|
            0 <= i < names.len() && !CensusView::is_authorized(all, (#[trigger] names[i]).name) && !(
            is_unfinished(names[i].name) && names[i].predecessor) {
            let i = choose|i: int|
                0 <= i < names.len() && !CensusView::is_authorized(all, (#[trigger] names[i]).name)
                    && !(is_unfinished(names[i].name) && names[i].predecessor);
            if i < shorter.len() {
                assert(shorter[i] == names[i]);
            }
        }
    }
}

/// A census of templates asks for recovery exactly where a record is not in order, or a name belongs to
/// no record and is none that an exchange left behind.
pub proof fn law_template_census_recovers_exactly_on_disorder(
    names: Seq<CensusNameView>,
    report_temporary: bool,
)
    ensures
        CensusView::of(names, report_temporary).report.recovery_required <==> {
            ||| exists|i: int| 0 <= i < names.len() && !is_template_in_order(#[trigger] names[i])
            ||| exists|i: int|
                0 <= i < names.len() && !CensusView::is_authorized(names, (#[trigger] names[i]).name)
                    && !(is_unfinished(names[i].name) && names[i].predecessor)
        },
{
    lemma_template_recovery(names);
    lemma_template_stray_recovery(CensusView::records(names), names, names, report_temporary);
}

} // verus!
