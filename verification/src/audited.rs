//! What an audit that finds nothing wrong says of a repository: a checkout of it copies objects as they
//! are.

use crate::audit::{
    all_accepted, attributes_failure, checkout_failure, config_failure, in_force, is_accepted,
    is_relevant_key, lines_failure, listed_fields, packs_failure, row_failure, row_setting,
    row_settings, rows_failure, AttributesLine, CheckoutSeen, PackListing,
};
use crate::bytes::{first_index, lemma_first_index, lemma_utf8_ascii, utf8};
use crate::paths::is_absolute_path;
use crate::storage::lowered;
use vstd::prelude::*;

verus! {

/// A row of a listed configuration has this key, in lower case: it is what stands before the first end
/// of a line in the row's last field.
pub open spec fn row_key(fields: Seq<Seq<u8>>, row: int) -> Seq<u8> {
    let item = fields[3 * row + 2];
    lowered(item.subrange(0, first_index(item, 10)))
}

/// A later row sets the key of this one again.
pub open spec fn is_set_again(fields: Seq<Seq<u8>>, row: int) -> bool {
    exists|later: int| row < later && 3 * later + 2 < fields.len() && #[trigger] row_key(fields, later)
        == row_key(fields, row)
}

proof fn lemma_row_of_rest(fields: Seq<Seq<u8>>, row: int)
    requires
        0 <= row,
        3 * row + 5 < fields.len(),
    ensures
        row_key(fields.skip(3), row) == row_key(fields, row + 1),
        fields.skip(3)[3 * row + 2] == fields[3 * (row + 1) + 2],
{
}

/// Every setting that matters is made by a row.
proof fn lemma_settings_are_from_rows(fields: Seq<Seq<u8>>, i: int)
    requires
        0 <= i < row_settings(fields).len(),
    ensures
        exists|row: int|
            0 <= row && 3 * row + 2 < fields.len() && #[trigger] row_key(fields, row)
                == row_settings(fields)[i].0,
    decreases fields.len(),
{
    if fields.len() >= 3 {
        let rest = fields.skip(3);
        let setting = row_setting(fields[2]);
        assert(row_key(fields, 0) == setting.0);
        if is_relevant_key(setting.0) {
            assert(row_settings(fields) == seq![setting] + row_settings(rest));
            if i > 0 {
                lemma_settings_are_from_rows(rest, i - 1);
                let row = choose|row: int|
                    0 <= row && 3 * row + 2 < rest.len() && #[trigger] row_key(rest, row)
                        == row_settings(rest)[i - 1].0;
                lemma_row_of_rest(fields, row);
                assert(row_key(fields, row + 1) == row_settings(fields)[i].0);
            }
        } else {
            lemma_settings_are_from_rows(rest, i);
            let row = choose|row: int|
                0 <= row && 3 * row + 2 < rest.len() && #[trigger] row_key(rest, row)
                    == row_settings(rest)[i].0;
            lemma_row_of_rest(fields, row);
            assert(row_key(fields, row + 1) == row_settings(fields)[i].0);
        }
    }
}

proof fn lemma_rest_is_accepted(setting: (Seq<u8>, Seq<u8>), rest: Seq<(Seq<u8>, Seq<u8>)>)
    requires
        all_accepted(seq![setting] + rest),
    ensures
        all_accepted(rest),
{
    let whole = seq![setting] + rest;
    assert forall|i: int| 0 <= i < rest.len() && #[trigger] in_force(rest, i) implies is_accepted(
        rest[i].0,
        rest[i].1,
    ) by {
        assert(whole[i + 1] == rest[i]);
        assert forall|k: int| i + 1 < k < whole.len() implies (#[trigger] whole[k]).0
            != whole[i + 1].0 by {
            assert(whole[k] == rest[k - 1]);
        }
        assert(in_force(whole, i + 1));
    }
}

/// A row that passed bears out what is said of one row.
#[verifier::opaque]
spec fn passes(fields: Seq<Seq<u8>>, row: int) -> bool {
    let item = fields[3 * row + 2];
    let key = row_key(fields, row);
    &&& row_failure(fields[3 * row], fields[3 * row + 1], item) is None
    &&& is_relevant_key(key) && !is_set_again(fields, row) ==> is_accepted(key, row_setting(item).1)
    &&& is_relevant_key(key) ==> {
        ||| key == utf8("core.autocrlf"@)
        ||| key == utf8("core.eol"@)
        ||| key == utf8("core.filemode"@)
        ||| key == utf8("core.symlinks"@)
    }
}

/// What was shown of the rows behind the first holds of them among all rows.
proof fn lemma_later_row_passes(fields: Seq<Seq<u8>>, row: int)
    requires
        0 < row,
        3 * row + 2 < fields.len(),
        passes(fields.skip(3), row - 1),
    ensures
        passes(fields, row),
{
    reveal(passes);
    let rest = fields.skip(3);
    lemma_row_of_rest(fields, row - 1);
    if is_set_again(rest, row - 1) {
        let later = choose|later: int|
            row - 1 < later && 3 * later + 2 < rest.len() && #[trigger] row_key(rest, later)
                == row_key(rest, row - 1);
        lemma_row_of_rest(fields, later);
        assert(row_key(fields, later + 1) == row_key(fields, row));
        assert(is_set_again(fields, row));
    }
    assert(fields[3 * row] == rest[3 * (row - 1)]);
    assert(fields[3 * row + 1] == rest[3 * (row - 1) + 1]);
}

/// The first row's setting is in force where no later row sets its key.
proof fn lemma_first_row_is_in_force(fields: Seq<Seq<u8>>)
    requires
        fields.len() >= 3,
        is_relevant_key(row_key(fields, 0)),
        !is_set_again(fields, 0),
    ensures
        in_force(row_settings(fields), 0),
        row_settings(fields).len() > 0,
        row_settings(fields)[0] == row_setting(fields[2]),
        row_setting(fields[2]).0 == row_key(fields, 0),
{
    let rest = fields.skip(3);
    let setting = row_setting(fields[2]);
    let settings = row_settings(fields);
    assert(row_key(fields, 0) == setting.0);
    assert(settings == seq![setting] + row_settings(rest));
    assert forall|k: int| 0 < k < settings.len() implies (#[trigger] settings[k]).0
        != settings[0].0 by {
        lemma_settings_are_from_rows(rest, k - 1);
        assert(settings[k] == row_settings(rest)[k - 1]);
        let row = choose|row: int|
            0 <= row && 3 * row + 2 < rest.len() && #[trigger] row_key(rest, row)
                == row_settings(rest)[k - 1].0;
        lemma_row_of_rest(fields, row);
        assert(row_key(fields, row + 1) == settings[k].0);
    }
}

proof fn lemma_first_row_passes(fields: Seq<Seq<u8>>)
    requires
        fields.len() >= 3,
        row_failure(fields[0], fields[1], fields[2]) is None,
        all_accepted(row_settings(fields)),
        forall|row: int|
            0 <= row && 3 * row + 2 < fields.skip(3).len() ==> #[trigger] passes(fields.skip(3), row),
    ensures
        passes(fields, 0),
{
    reveal(passes);
    let rest = fields.skip(3);
    assert(row_setting(fields[2]).0 == row_key(fields, 0));
    if is_relevant_key(row_key(fields, 0)) {
        if is_set_again(fields, 0) {
            let later = choose|later: int|
                0 < later && 3 * later + 2 < fields.len() && #[trigger] row_key(fields, later)
                    == row_key(fields, 0);
            lemma_row_of_rest(fields, later - 1);
            assert(passes(rest, later - 1));
        } else {
            lemma_first_row_is_in_force(fields);
        }
    }
}

proof fn lemma_rows_pass(fields: Seq<Seq<u8>>)
    requires
        rows_failure(fields) is None,
        all_accepted(row_settings(fields)),
    ensures
        fields.len() % 3 == 0,
        forall|row: int| 0 <= row && 3 * row + 2 < fields.len() ==> #[trigger] passes(fields, row),
    decreases fields.len(),
{
    if fields.len() >= 3 {
        let rest = fields.skip(3);
        let setting = row_setting(fields[2]);
        if is_relevant_key(setting.0) {
            assert(row_settings(fields) == seq![setting] + row_settings(rest));
            lemma_rest_is_accepted(setting, row_settings(rest));
        }
        lemma_rows_pass(rest);
        lemma_first_row_passes(fields);
        assert forall|row: int| 0 <= row && 3 * row + 2 < fields.len() implies #[trigger] passes(
            fields,
            row,
        ) by {
            if row > 0 {
                assert(passes(rest, row - 1));
                lemma_later_row_passes(fields, row);
            }
        }
    }
}

/// A configuration that passes the audit is made of rows of three fields. No row includes another file,
/// sets a filter or LFS, names an attributes file, asks for a sparse checkout, for a configuration of
/// its own for each worktree, or for objects that a remote promises. The last row that sets one of the
/// four settings that a checkout heeds gives it the value under which objects are copied as they are.
pub proof fn law_audited_settings_copy_objects(
    raw: Seq<u8>,
    row: int,
    key: Seq<u8>,
    value: Seq<u8>,
)
    requires
        config_failure(raw) is None,
        0 <= row,
        3 * row + 2 < listed_fields(raw).len(),
        listed_fields(raw)[3 * row + 2] == key + seq![10u8] + value,
        !key.contains(10),
    ensures
        raw.last() == 0,
        listed_fields(raw).len() % 3 == 0,
        key.len() > 0,
        !utf8("include."@).is_prefix_of(lowered(key)),
        !utf8("includeif."@).is_prefix_of(lowered(key)),
        !utf8("filter."@).is_prefix_of(lowered(key)),
        !utf8("lfs."@).is_prefix_of(lowered(key)),
        lowered(key) != utf8("core.attributesfile"@),
        lowered(key) != utf8("core.sparsecheckout"@),
        lowered(key) != utf8("core.sparsecheckoutcone"@),
        lowered(key) != utf8("extensions.worktreeconfig"@),
        lowered(key) != utf8("extensions.partialclone"@),
        !(utf8("remote."@).is_prefix_of(lowered(key)) && utf8(".promisor"@).is_suffix_of(
            lowered(key),
        )),
        !is_set_again(listed_fields(raw), row) ==> {
            &&& lowered(key) == utf8("core.autocrlf"@) ==> lowered(value) == utf8("false"@)
            &&& lowered(key) == utf8("core.eol"@) ==> lowered(value) == utf8("native"@)
            &&& lowered(key) == utf8("core.filemode"@) ==> lowered(value) == utf8("true"@)
            &&& lowered(key) == utf8("core.symlinks"@) ==> lowered(value) == utf8("true"@)
        },
{
    let fields = listed_fields(raw);
    let item = fields[3 * row + 2];
    lemma_rows_pass(fields);
    assert(passes(fields, row));
    reveal(passes);
    assert forall|k: int| 0 <= k < key.len() implies item[k] != 10 by {
        assert(key[k] == item[k]);
        assert(key.contains(key[k]));
    }
    assert(item[key.len() as int] == 10);
    lemma_first_index(item, 10, key.len() as int);
    assert(item.subrange(0, key.len() as int) =~= key);
    assert(item.subrange(key.len() as int + 1, item.len() as int) =~= value);
    if is_relevant_key(lowered(key)) {
        lemma_keys_are_apart(lowered(key));
    }
    if raw.len() == 0 {
        assert(raw.subrange(0, 0) =~= Seq::<u8>::empty());
    } else {
        assert(raw.subrange(raw.len() - 1, raw.len() as int)[0] == raw.last());
    }
}

/// The settings that a checkout heeds are none of those that rule a template out.
proof fn lemma_keys_are_apart(key: Seq<u8>)
    requires
        key == utf8("core.autocrlf"@) || key == utf8("core.eol"@) || key == utf8("core.filemode"@)
            || key == utf8("core.symlinks"@),
    ensures
        key != utf8("core.attributesfile"@),
        key != utf8("core.sparsecheckout"@),
        key != utf8("core.sparsecheckoutcone"@),
        key != utf8("extensions.worktreeconfig"@),
        key != utf8("extensions.partialclone"@),
        !utf8("remote."@).is_prefix_of(key),
        utf8("core.autocrlf"@) != utf8("core.filemode"@),
        utf8("core.autocrlf"@) != utf8("core.symlinks"@),
        utf8("core.autocrlf"@) != utf8("core.eol"@),
        utf8("core.eol"@) != utf8("core.filemode"@),
        utf8("core.eol"@) != utf8("core.symlinks"@),
{
    reveal_strlit("core.autocrlf");
    reveal_strlit("core.eol");
    reveal_strlit("core.filemode");
    reveal_strlit("core.symlinks");
    reveal_strlit("core.attributesfile");
    reveal_strlit("core.sparsecheckout");
    reveal_strlit("core.sparsecheckoutcone");
    reveal_strlit("extensions.worktreeconfig");
    reveal_strlit("extensions.partialclone");
    reveal_strlit("remote.");
    lemma_utf8_ascii("core.autocrlf"@);
    lemma_utf8_ascii("core.eol"@);
    lemma_utf8_ascii("core.filemode"@);
    lemma_utf8_ascii("core.symlinks"@);
    lemma_utf8_ascii("core.attributesfile"@);
    lemma_utf8_ascii("core.sparsecheckout"@);
    lemma_utf8_ascii("core.sparsecheckoutcone"@);
    lemma_utf8_ascii("extensions.worktreeconfig"@);
    lemma_utf8_ascii("extensions.partialclone"@);
    lemma_utf8_ascii("remote."@);
    assert(utf8("core.autocrlf"@)[5] == 97);
    assert(utf8("core.filemode"@)[5] == 102);
    assert(utf8("core.symlinks"@)[5] == 115);
    assert(key[0] == 99);
    assert(utf8("remote."@)[0] == 114);
    if utf8("remote."@).is_prefix_of(key) {
        assert(key.subrange(0, 7)[0] == key[0]);
    }
}

proof fn lemma_every_line_passes(lines: Seq<AttributesLine>)
    requires
        lines_failure(lines) is None,
    ensures
        forall|i: int| 0 <= i < lines.len() ==> #[trigger] attributes_failure(lines[i]) is None,
    decreases lines.len(),
{
    if lines.len() > 0 {
        lemma_every_line_passes(lines.drop_last());
        assert forall|i: int| 0 <= i < lines.len() implies #[trigger] attributes_failure(
            lines[i],
        ) is None by {
            if i < lines.len() - 1 {
                assert(attributes_failure(lines.drop_last()[i]) is None);
            }
        }
    }
}

proof fn lemma_every_pack_passes(entries: Seq<Result<Vec<u8>, String>>)
    requires
        packs_failure(entries) is None,
    ensures
        forall|i: int|
            0 <= i < entries.len() ==> ((#[trigger] entries[i]) matches Ok(name) && !utf8(
                ".promisor"@,
            ).is_suffix_of(name@)),
    decreases entries.len(),
{
    if entries.len() > 0 {
        lemma_every_pack_passes(entries.drop_last());
        assert forall|i: int| 0 <= i < entries.len() implies ((#[trigger] entries[i]) matches Ok(name)
            && !utf8(".promisor"@).is_suffix_of(name@)) by {
            if i < entries.len() - 1 {
                assert(entries.drop_last()[i] == entries[i]);
            }
        }
    }
}

/// A line of Git's attributes names a file that is not there.
pub open spec fn names_no_file(line: AttributesLine) -> bool {
    is_absolute_path(line.path@) && line.found is Absent
}

/// A repository that passes the audit has no attributes, grafts, alternates or replaced references of
/// its own, is not shallow and promises no objects. Git told its configuration, which passes, and names
/// no attributes file that is there.
pub proof fn law_audited_repository_is_plain(seen: CheckoutSeen)
    requires
        checkout_failure(seen) is None,
    ensures
        seen.attributes is Absent,
        seen.grafts is Absent,
        seen.shallow is Absent,
        seen.alternates is Absent,
        seen.replace is Absent,
        seen.packs is Absent || (seen.packs matches PackListing::Entries(entries) && forall|i: int|
            0 <= i < entries.len() ==> ((#[trigger] entries@[i]) matches Ok(name) && !utf8(
                ".promisor"@,
            ).is_suffix_of(name@))),
        seen.config matches Ok(output) && output.status.succeeded() && output.stderr@.len() == 0
            && config_failure(output.stdout@) is None,
        seen.system matches Ok(output) && output.status.succeeded() && output.stderr@.len() == 0,
        seen.global matches Ok(output) && output.status.succeeded() && output.stderr@.len() == 0,
        forall|i: int| 0 <= i < seen.system_lines.len() ==> #[trigger] names_no_file(
            seen.system_lines@[i],
        ),
        forall|i: int| 0 <= i < seen.global_lines.len() ==> #[trigger] names_no_file(
            seen.global_lines@[i],
        ),
        seen.is_shallow matches Ok(output) && output.status.succeeded() && output.stdout@ == utf8(
            "false\n"@,
        ),
{
    lemma_every_line_passes(seen.system_lines@);
    lemma_every_line_passes(seen.global_lines@);
    assert forall|i: int| 0 <= i < seen.system_lines.len() implies #[trigger] names_no_file(
        seen.system_lines@[i],
    ) by {
        assert(attributes_failure(seen.system_lines@[i]) is None);
    }
    assert forall|i: int| 0 <= i < seen.global_lines.len() implies #[trigger] names_no_file(
        seen.global_lines@[i],
    ) by {
        assert(attributes_failure(seen.global_lines@[i]) is None);
    }
    if let PackListing::Entries(entries) = seen.packs {
        lemma_every_pack_passes(entries@);
    }
}

} // verus!
