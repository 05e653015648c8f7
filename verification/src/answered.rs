//! Which answers of Git count, and what is read from them.

use crate::bytes::{
    ended, first_index, lemma_first_index, lemma_first_index_bounds, lemma_split_ended,
    split_at_each, utf8, without_suffix,
};
use crate::discard::changes_failure;
use crate::git::{self, ExitReport, Output};
use crate::notation::all_hex;
use crate::session::includes_at;
use crate::session_git::{
    checked_out_failure, clean_failure, closure_failure, config_failure, configured_failure,
    import_failure, imported_failure, is_checked_out, is_safe_config, is_safe_entry, is_safe_row,
    is_unsafe_key, oid_output_failure, publish_target_failure, relation_failure,
    resolve_base_failure, resolve_target_failure, single_line, status_failure,
};
use vstd::prelude::*;

verus! {

/// Git ended with the code of success.
pub open spec fn is_success(outcome: Result<Output, git::Error>) -> bool {
    outcome matches Ok(output) && output.status.code == Some(0i32)
}

/// And complained of nothing.
pub open spec fn is_quiet_success(outcome: Result<Output, git::Error>) -> bool {
    is_success(outcome) && outcome->Ok_0.stderr@.len() == 0
}

/// And said nothing.
pub open spec fn is_silent_success(outcome: Result<Output, git::Error>) -> bool {
    is_quiet_success(outcome) && outcome->Ok_0.stdout@.len() == 0
}

/// A child has succeeded only with the code of success: neither another code nor a signal counts.
pub proof fn law_only_success_succeeds(report: ExitReport, output: Output)
    ensures
        report.succeeded() <==> report.code == Some(0i32),
        report.code is None ==> !report.succeeded(),
        output.clean() <==> output.status.code == Some(0i32) && output.stderr@.len() == 0,
        output.silent() <==> output.status.code == Some(0i32) && output.stderr@.len() == 0
            && output.stdout@.len() == 0,
{
}

/// Which answers let a publication, a making or a removal go on: those that report success, and where
/// Git has nothing to say then, those without a word.
pub proof fn law_only_successful_answers_count(
    outcome: Result<Output, git::Error>,
    label: Seq<char>,
    target: Seq<u8>,
)
    ensures
        relation_failure(outcome) is None <==> is_silent_success(outcome),
        imported_failure(outcome) is None <==> is_silent_success(outcome),
        closure_failure(outcome) is None <==> is_silent_success(outcome),
        status_failure(outcome) is None <==> is_silent_success(outcome),
        changes_failure(outcome) is None <==> is_silent_success(outcome),
        import_failure(outcome) is None <==> is_success(outcome),
        publish_target_failure(outcome) is None <==> is_quiet_success(outcome),
        clean_failure(outcome, label) is None <==> is_quiet_success(outcome),
        configured_failure(outcome) is None <==> is_quiet_success(outcome)
            && outcome->Ok_0.stdout@ == utf8("true"@) + seq![10u8],
        config_failure(outcome) is None <==> is_quiet_success(outcome) && is_safe_config(
            outcome->Ok_0.stdout@,
        ),
        checked_out_failure(outcome, target) is None <==> is_quiet_success(outcome)
            && !is_checked_out(outcome->Ok_0.stdout@, target),
        (outcome matches Ok(output) && output.status.code == Some(1i32) && output.stdout@.len() == 0
            && output.stderr@.len() == 0) ==> (relation_failure(outcome) matches Some(failed)
            && failed.0 == "PUBLISH_NON_FAST_FORWARD"@),
{
    assert(utf8("true"@).push(10) =~= utf8("true"@) + seq![10u8]);
}

/// One line is read only from an answer that is exactly that line and its end.
pub proof fn law_single_lines_are_whole(output: Seq<u8>, line: Seq<u8>)
    ensures
        single_line(output) == Some(line) <==> output == line + seq![10u8] && !line.contains(10),
{
    if output == line + seq![10u8] {
        assert(output.subrange(output.len() - 1, output.len() as int) =~= seq![10u8]);
        assert(output.subrange(0, output.len() - 1) =~= line);
    }
    if single_line(output) is Some {
        assert(output =~= output.subrange(0, output.len() - 1) + output.subrange(
            output.len() - 1,
            output.len() as int,
        ));
    }
}

/// An object is read only from a line of as many hexadecimal digits as its format has.
pub proof fn law_objects_are_read_whole(output: Seq<u8>, format: Seq<char>)
    requires
        oid_output_failure(output, format) is None,
    ensures
        output.len() == 1 + if format == "sha1"@ {
            40nat
        } else {
            64nat
        },
        output.last() == 10,
        all_hex(output.drop_last()),
        single_line(output) == Some(output.drop_last()),
{
    let line = single_line(output)->0;
    law_single_lines_are_whole(output, line);
    assert(output.drop_last() =~= line);
}

/// A branch is taken not to exist only where Git fails without a word; and a revision is taken for a
/// commit or a tree only where Git succeeds without complaint.
pub proof fn law_resolved_names_exist(
    outcome: Result<Output, git::Error>,
    format: Seq<char>,
    detail: Seq<char>,
)
    ensures
        resolve_target_failure(outcome, format) is None <==> {
            &&& outcome is Ok
            &&& is_success(outcome) ==> oid_output_failure(outcome->Ok_0.stdout@, format) is None
            &&& !is_success(outcome) ==> outcome->Ok_0.stdout@.len() == 0
                && outcome->Ok_0.stderr@.len() == 0
        },
        resolve_base_failure(outcome, format, detail) is None <==> is_quiet_success(outcome)
            && oid_output_failure(outcome->Ok_0.stdout@, format) is None,
{
}

proof fn lemma_split_contains(before: Seq<u8>, line: Seq<u8>, after: Seq<u8>)
    requires
        before.len() == 0 || before.last() == 10,
        !line.contains(10),
    ensures
        split_at_each(before + line + seq![10u8] + after, 10).contains(line),
    decreases before.len(),
{
    let all = before + line + seq![10u8] + after;
    if before.len() == 0 {
        let n = line.len() as int;
        assert forall|k: int| 0 <= k < n implies all[k] != 10 by {
            assert(all[k] == line[k]);
            assert(line.contains(line[k]));
        }
        assert(all[n] == 10);
        lemma_first_index(all, 10, n);
        assert(all.subrange(0, n) =~= line);
        assert(split_at_each(all, 10)[0] == line);
    } else {
        lemma_first_index_bounds(before, 10);
        let at = first_index(before, 10);
        assert(before.contains(10u8)) by {
            assert(before[before.len() - 1] == 10);
        }
        assert forall|k: int| 0 <= k < at implies all[k] != 10 by {
            assert(all[k] == before[k]);
        }
        assert(all[at] == before[at]);
        lemma_first_index(all, 10, at);
        let rest = before.subrange(at + 1, before.len() as int);
        if rest.len() > 0 {
            assert(rest.last() == before.last());
        }
        lemma_split_contains(rest, line, after);
        assert(all.subrange(at + 1, all.len() as int) =~= rest + line + seq![10u8] + after);
        let more = split_at_each(rest + line + seq![10u8] + after, 10);
        let k = choose|k: int| 0 <= k < more.len() && more[k] == line;
        assert(split_at_each(all, 10)[k + 1] == line);
    }
}

/// A branch that a worktree has checked out, as Git lists it on a line, is not published to.
pub proof fn law_checked_out_branches_are_seen(before: Seq<u8>, target: Seq<u8>, after: Seq<u8>)
    requires
        before.len() == 0 || before.last() == 10,
        !target.contains(10),
    ensures
        is_checked_out(
            before + (utf8("branch refs/heads/"@) + target) + seq![10u8] + after,
            target,
        ),
{
    let line = utf8("branch refs/heads/"@) + target;
    reveal_strlit("branch refs/heads/");
    crate::bytes::lemma_utf8_ascii("branch refs/heads/"@);
    assert(!line.contains(10)) by {
        assert forall|k: int| 0 <= k < line.len() implies line[k] != 10 by {
            if k < utf8("branch refs/heads/"@).len() {
                assert(utf8("branch refs/heads/"@)[k] == "branch refs/heads/"@[k] as u8);
            } else {
                assert(line[k] == target[k - utf8("branch refs/heads/"@).len()]);
                assert(target.contains(line[k]));
            }
        }
    }
    lemma_split_contains(before, line, after);
}

/// The settings that a publication does not take: those that bring in others, that run programs, that
/// lead to other places, or by which objects are left out.
pub proof fn law_dangerous_settings_are_refused(rest: Seq<u8>, front: Seq<u8>)
    ensures
        is_unsafe_key(utf8("include."@) + rest),
        is_unsafe_key(utf8("includeif."@) + rest),
        is_unsafe_key(utf8("filter."@) + rest),
        is_unsafe_key(utf8("fsck."@) + rest),
        is_unsafe_key(utf8("url."@) + rest),
        is_unsafe_key(front + utf8("alternaterefscommand"@) + rest),
        is_unsafe_key(front + utf8("promisor"@) + rest),
        is_unsafe_key(front + utf8("partialclone"@) + rest),
        is_unsafe_key(utf8("remote."@) + rest + utf8(".uploadpack"@)),
        is_unsafe_key(utf8("remote."@) + rest + utf8(".vcs"@)),
{
    lemma_prefix(utf8("include."@), rest);
    lemma_prefix(utf8("includeif."@), rest);
    lemma_prefix(utf8("filter."@), rest);
    lemma_prefix(utf8("fsck."@), rest);
    lemma_prefix(utf8("url."@), rest);
    lemma_within(front, utf8("alternaterefscommand"@), rest);
    lemma_within(front, utf8("promisor"@), rest);
    lemma_within(front, utf8("partialclone"@), rest);
    lemma_around(utf8("remote."@), rest, utf8(".uploadpack"@));
    lemma_around(utf8("remote."@), rest, utf8(".vcs"@));
}

proof fn lemma_prefix(front: Seq<u8>, rest: Seq<u8>)
    ensures
        front.is_prefix_of(front + rest),
{
    assert((front + rest).subrange(0, front.len() as int) =~= front);
}

proof fn lemma_within(front: Seq<u8>, needle: Seq<u8>, rest: Seq<u8>)
    ensures
        crate::session::includes(front + needle + rest, needle),
{
    let all = front + needle + rest;
    assert(all.subrange(front.len() as int, front.len() as int + needle.len()) =~= needle);
    assert(includes_at(all, needle, front.len() as int));
}

proof fn lemma_around(front: Seq<u8>, rest: Seq<u8>, back: Seq<u8>)
    ensures
        front.is_prefix_of(front + rest + back),
        back.is_suffix_of(front + rest + back),
{
    let all = front + rest + back;
    assert(all.subrange(0, front.len() as int) =~= front);
    assert(all.subrange(all.len() - back.len(), all.len() as int) =~= back);
}

/// A configuration is taken only where each of its settings can be: listed as three fields, of a known
/// scope, out of a file, with a key that is none of the dangerous ones in whatever case it is written.
pub proof fn law_safe_configurations_are_safe_throughout(
    fields: Seq<Seq<u8>>,
    row: int,
)
    requires
        fields.len() > 0,
        fields.len() % 3 == 0,
        0 <= row < fields.len() / 3,
        forall|i: int| 0 <= i < fields.len() ==> !(#[trigger] fields[i]).contains(0),
    ensures
        is_safe_config(ended(fields, 0)) ==> is_safe_entry(
            fields[3 * row],
            fields[3 * row + 1],
            fields[3 * row + 2],
        ),
        (forall|i: int| 0 <= i < fields.len() / 3 ==> #[trigger] is_safe_row(fields, i))
            ==> is_safe_config(ended(fields, 0)),
{
    lemma_split_ended(fields, 0);
    let raw = ended(fields, 0);
    assert(raw.subrange(raw.len() - 1, raw.len() as int) =~= seq![0u8]);
    assert(without_suffix(raw, seq![0u8])->0 =~= raw.drop_last());
    if is_safe_config(raw) {
        assert(is_safe_row(fields, row));
    }
}

/// What a setting has to be to be taken.
pub proof fn law_safe_settings_come_from_files(scope: Seq<u8>, origin: Seq<u8>, entry: Seq<u8>)
    requires
        is_safe_entry(scope, origin, entry),
    ensures
        scope == utf8("system"@) || scope == utf8("global"@) || scope == utf8("local"@) || scope
            == utf8("worktree"@),
        utf8("file:"@).is_prefix_of(origin),
        entry.contains(10),
        !is_unsafe_key(crate::storage::lowered(entry.take(first_index(entry, 10)))),
{
}

} // verus!
