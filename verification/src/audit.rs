//! Whether a repository can be checked out by copying objects alone: no filters, no attributes, no
//! conversions, and nothing that is not in the repository itself.

use crate::authority::{failure, or_fail, Error, Failure};
use crate::bytes::{
    decode_text, ends_with, find_byte, first_index, join2, join3, same_bytes, split, split_at_each,
    starts_with, strip_suffix, utf8, utf8_text, views, without_suffix,
};
use crate::digest::{digest_hex, digest_text};
use crate::git;
use crate::git::Output;
use crate::inspection::{first_of, Presence};
use crate::manifest::{keep_nonempty, nonempty};
use crate::notation::{framed, push_frame};
use crate::paths::{is_absolute, is_absolute_path};
use crate::storage::{lowered, to_lower};
use crate::template::git_error;
use vstd::prelude::*;
use vstd::slice::slice_subrange;

verus! {

/// What a checkout of the repository depends on beside its objects.
#[derive(Debug)]
pub struct CheckoutAudit {
    pub config_fingerprint: String,
    pub attributes_fingerprint: String,
}

pub open spec fn not_supported(detail: Seq<char>) -> Failure {
    ("TEMPLATE_UNSUPPORTED"@, detail)
}

/// A setting of the configuration, its key and its value in lower case.
#[derive(Debug)]
pub struct Setting {
    pub key: Vec<u8>,
    pub value: Vec<u8>,
}

pub open spec fn settings(list: Seq<Setting>) -> Seq<(Seq<u8>, Seq<u8>)> {
    Seq::new(list.len(), |i: int| (list[i].key@, list[i].value@))
}

/// Settings that change what a checkout writes in a way that no template follows.
pub open spec fn is_forbidden_key(key: Seq<u8>) -> bool {
    utf8("include."@).is_prefix_of(key) || utf8("includeif."@).is_prefix_of(key) || utf8(
        "filter."@,
    ).is_prefix_of(key) || utf8("lfs."@).is_prefix_of(key)
}

/// Settings whose value decides whether a template can be made.
pub open spec fn is_relevant_key(key: Seq<u8>) -> bool {
    key == utf8("core.attributesfile"@) || key == utf8("core.sparsecheckout"@) || key == utf8(
        "core.sparsecheckoutcone"@,
    ) || key == utf8("extensions.worktreeconfig"@) || key == utf8("extensions.partialclone"@) || key
        == utf8("core.autocrlf"@) || key == utf8("core.eol"@) || key == utf8("core.filemode"@)
        || key == utf8("core.symlinks"@) || (utf8("remote."@).is_prefix_of(key) && utf8(
        ".promisor"@,
    ).is_suffix_of(key))
}

/// The only values under which a checkout copies objects as they are.
pub open spec fn is_accepted(key: Seq<u8>, value: Seq<u8>) -> bool {
    if key == utf8("core.autocrlf"@) {
        value == utf8("false"@)
    } else if key == utf8("core.eol"@) {
        value == utf8("native"@)
    } else if key == utf8("core.filemode"@) || key == utf8("core.symlinks"@) {
        value == utf8("true"@)
    } else {
        false
    }
}

fn forbidden_key(key: &[u8]) -> (is: bool)
    ensures
        is == is_forbidden_key(key@),
{
    starts_with(key, "include.".as_bytes()) || starts_with(key, "includeif.".as_bytes())
        || starts_with(key, "filter.".as_bytes()) || starts_with(key, "lfs.".as_bytes())
}

fn relevant_key(key: &[u8]) -> (is: bool)
    ensures
        is == is_relevant_key(key@),
{
    same_bytes(key, "core.attributesfile".as_bytes()) || same_bytes(
        key,
        "core.sparsecheckout".as_bytes(),
    ) || same_bytes(key, "core.sparsecheckoutcone".as_bytes()) || same_bytes(
        key,
        "extensions.worktreeconfig".as_bytes(),
    ) || same_bytes(key, "extensions.partialclone".as_bytes()) || same_bytes(
        key,
        "core.autocrlf".as_bytes(),
    ) || same_bytes(key, "core.eol".as_bytes()) || same_bytes(key, "core.filemode".as_bytes())
        || same_bytes(key, "core.symlinks".as_bytes()) || (starts_with(key, "remote.".as_bytes())
        && ends_with(key, ".promisor".as_bytes()))
}

fn accepted(key: &[u8], value: &[u8]) -> (is: bool)
    ensures
        is == is_accepted(key@, value@),
{
    if same_bytes(key, "core.autocrlf".as_bytes()) {
        same_bytes(value, "false".as_bytes())
    } else if same_bytes(key, "core.eol".as_bytes()) {
        same_bytes(value, "native".as_bytes())
    } else if same_bytes(key, "core.filemode".as_bytes()) || same_bytes(
        key,
        "core.symlinks".as_bytes(),
    ) {
        same_bytes(value, "true".as_bytes())
    } else {
        false
    }
}

/// One row of the listed configuration: its scope, its origin, and its key and value.
pub open spec fn row_failure(scope: Seq<u8>, origin: Seq<u8>, item: Seq<u8>) -> Option<Failure> {
    let code = "TEMPLATE_UNSUPPORTED"@;
    let at = first_index(item, 10);
    let key = lowered(item.subrange(0, at));
    let f = or_fail(None, at < item.len(), code, "config row lacked key/value separator"@);
    let f = or_fail(f, utf8_text(scope) is Some, code, "config scope was not UTF-8"@);
    let f = or_fail(f, utf8_text(origin) is Some, code, "config origin was not UTF-8"@);
    let f = or_fail(
        f,
        utf8_text(item.subrange(0, at)) is Some,
        code,
        "config key was not UTF-8"@,
    );
    let f = or_fail(
        f,
        scope.len() > 0 && origin.len() > 0 && key.len() > 0,
        code,
        "config protocol field was empty"@,
    );
    let f = or_fail(
        f,
        !scope.contains(10) && !origin.contains(10),
        code,
        "config protocol was ambiguous"@,
    );
    let f = or_fail(
        f,
        !is_forbidden_key(key),
        code,
        "Git config includes, filters, or LFS are unsupported"@,
    );
    or_fail(
        f,
        is_relevant_key(key) ==> utf8_text(item.subrange(at + 1, item.len() as int)) is Some,
        code,
        "checkout config was not UTF-8"@,
    )
}

/// The setting that a row makes.
pub open spec fn row_setting(item: Seq<u8>) -> (Seq<u8>, Seq<u8>) {
    let at = first_index(item, 10);
    (lowered(item.subrange(0, at)), lowered(item.subrange(at + 1, item.len() as int)))
}

/// Why the rows that are left cannot be taken over.
pub open spec fn rows_failure(fields: Seq<Seq<u8>>) -> Option<Failure>
    decreases fields.len(),
{
    if fields.len() == 0 {
        None
    } else if fields.len() < 2 {
        Some(not_supported("config row lacked origin"@))
    } else if fields.len() < 3 {
        Some(not_supported("config row lacked value"@))
    } else {
        match row_failure(fields[0], fields[1], fields[2]) {
            Some(failed) => Some(failed),
            None => rows_failure(fields.skip(3)),
        }
    }
}

/// The settings that matter, in the order in which they are listed.
pub open spec fn row_settings(fields: Seq<Seq<u8>>) -> Seq<(Seq<u8>, Seq<u8>)>
    decreases fields.len(),
{
    if fields.len() < 3 {
        Seq::empty()
    } else {
        let setting = row_setting(fields[2]);
        if is_relevant_key(setting.0) {
            seq![setting] + row_settings(fields.skip(3))
        } else {
            row_settings(fields.skip(3))
        }
    }
}

/// A setting is in force where no later one has its key.
pub open spec fn in_force(list: Seq<(Seq<u8>, Seq<u8>)>, i: int) -> bool {
    forall|k: int| i < k < list.len() ==> (#[trigger] list[k]).0 != list[i].0
}

/// Every setting in force has an accepted value.
pub open spec fn all_accepted(list: Seq<(Seq<u8>, Seq<u8>)>) -> bool {
    forall|i: int|
        0 <= i < list.len() && #[trigger] in_force(list, i) ==> is_accepted(list[i].0, list[i].1)
}

/// The fields of the fingerprint.
pub open spec fn config_fields() -> Seq<Seq<u8>> {
    seq![
        utf8("git-vws/config-fingerprint/v2"@),
        utf8("core.autocrlf"@),
        utf8("false"@),
        utf8("core.eol"@),
        utf8("native"@),
        utf8("core.filemode"@),
        utf8("true"@),
        utf8("core.symlinks"@),
        utf8("true"@),
    ]
}

/// The fields of a listed configuration.
pub open spec fn listed_fields(raw: Seq<u8>) -> Seq<Seq<u8>> {
    let body = match without_suffix(raw, seq![0u8]) {
        Some(body) => body,
        None => raw,
    };
    if body.len() == 0 {
        Seq::empty()
    } else {
        split_at_each(body, 0)
    }
}

/// Why a listed configuration rules templates out.
pub open spec fn config_failure(raw: Seq<u8>) -> Option<Failure> {
    let fields = listed_fields(raw);
    let f = or_fail(
        None,
        raw.len() == 0 || seq![0u8].is_suffix_of(raw),
        "TEMPLATE_UNSUPPORTED"@,
        "Git config audit output lacked NUL framing"@,
    );
    let f = first_of(f, rows_failure(fields));
    or_fail(
        f,
        all_accepted(row_settings(fields)),
        "TEMPLATE_UNSUPPORTED"@,
        "effective Git config requires unsupported checkout semantics"@,
    )
}

fn check_row(scope: &[u8], origin: &[u8], item: &[u8]) -> (row: Result<Option<Setting>, Error>)
    ensures
        failure(row) == row_failure(scope@, origin@, item@),
        row matches Ok(Some(setting)) ==> (setting.key@, setting.value@) == row_setting(item@)
            && is_relevant_key(setting.key@),
        row matches Ok(None) ==> !is_relevant_key(row_setting(item@).0),
{
    let at: usize = find_byte(item, 10);
    if at >= item.len() {
        return Err(Error::new("TEMPLATE_UNSUPPORTED", "config row lacked key/value separator"));
    }
    if decode_text(scope).is_none() {
        return Err(Error::new("TEMPLATE_UNSUPPORTED", "config scope was not UTF-8"));
    }
    if decode_text(origin).is_none() {
        return Err(Error::new("TEMPLATE_UNSUPPORTED", "config origin was not UTF-8"));
    }
    let raw_key = slice_subrange(item, 0, at);
    if decode_text(raw_key).is_none() {
        return Err(Error::new("TEMPLATE_UNSUPPORTED", "config key was not UTF-8"));
    }
    let key = to_lower(raw_key);
    if scope.len() == 0 || origin.len() == 0 || key.len() == 0 {
        return Err(Error::new("TEMPLATE_UNSUPPORTED", "config protocol field was empty"));
    }
    if crate::bytes::contains_byte(scope, 10) || crate::bytes::contains_byte(origin, 10) {
        return Err(Error::new("TEMPLATE_UNSUPPORTED", "config protocol was ambiguous"));
    }
    if forbidden_key(key.as_slice()) {
        return Err(
            Error::new(
                "TEMPLATE_UNSUPPORTED",
                "Git config includes, filters, or LFS are unsupported",
            ),
        );
    }
    if !relevant_key(key.as_slice()) {
        return Ok(None);
    }
    let raw_value = slice_subrange(item, at + 1, item.len());
    if decode_text(raw_value).is_none() {
        return Err(Error::new("TEMPLATE_UNSUPPORTED", "checkout config was not UTF-8"));
    }
    Ok(Some(Setting { key, value: to_lower(raw_value) }))
}

/// The fingerprint of settings of which none rules templates out. All such settings have the same one,
/// since each key has a single accepted value, which is also its default.
pub fn config_fingerprint(effective: &Vec<Setting>) -> (fingerprint: Result<String, Error>)
    ensures
        failure(fingerprint) == or_fail(
            None,
            all_accepted(settings(effective@)),
            "TEMPLATE_UNSUPPORTED"@,
            "effective Git config requires unsupported checkout semantics"@,
        ),
        fingerprint matches Ok(text) ==> text@ == digest_text(framed(config_fields())),
{
    let ghost list = settings(effective@);
    let mut i: usize = 0;
    while i < effective.len()
        invariant
            i <= effective@.len(),
            list == settings(effective@),
            forall|k: int|
                0 <= k < i && #[trigger] in_force(list, k) ==> is_accepted(list[k].0, list[k].1),
        decreases effective@.len() - i,
    {
        let mut last = true;
        let mut k: usize = i + 1;
        while k < effective.len()
            invariant
                i < k <= effective@.len(),
                list == settings(effective@),
                last == (forall|m: int| i < m < k ==> (#[trigger] list[m]).0 != list[i as int].0),
            decreases effective@.len() - k,
        {
            proof {
                assert(list[k as int].0 == effective@[k as int].key@);
                assert(list[i as int].0 == effective@[i as int].key@);
            }
            if same_bytes(effective[k].key.as_slice(), effective[i].key.as_slice()) {
                last = false;
            }
            k += 1;
        }
        proof {
            assert(last == in_force(list, i as int));
            assert(list[i as int] == (effective@[i as int].key@, effective@[i as int].value@));
        }
        if last && !accepted(effective[i].key.as_slice(), effective[i].value.as_slice()) {
            return Err(
                Error::new(
                    "TEMPLATE_UNSUPPORTED",
                    "effective Git config requires unsupported checkout semantics",
                ),
            );
        }
        i += 1;
    }
    let mut message: Vec<u8> = Vec::new();
    push_frame(&mut message, "git-vws/config-fingerprint/v2".as_bytes());
    push_frame(&mut message, "core.autocrlf".as_bytes());
    push_frame(&mut message, "false".as_bytes());
    push_frame(&mut message, "core.eol".as_bytes());
    push_frame(&mut message, "native".as_bytes());
    push_frame(&mut message, "core.filemode".as_bytes());
    push_frame(&mut message, "true".as_bytes());
    push_frame(&mut message, "core.symlinks".as_bytes());
    push_frame(&mut message, "true".as_bytes());
    proof {
        lemma_config_message(message@);
    }
    Ok(digest_hex(message.as_slice()))
}

proof fn lemma_framed_push(fields: Seq<Seq<u8>>, field: Seq<u8>)
    ensures
        framed(fields.push(field)) == framed(fields) + crate::notation::frame(field),
{
    assert(fields.push(field).drop_last() =~= fields);
}

proof fn lemma_config_message(message: Seq<u8>)
    requires
        message == Seq::<u8>::empty() + crate::notation::frame(
            utf8("git-vws/config-fingerprint/v2"@),
        ) + crate::notation::frame(utf8("core.autocrlf"@)) + crate::notation::frame(
            utf8("false"@),
        ) + crate::notation::frame(utf8("core.eol"@)) + crate::notation::frame(utf8("native"@))
            + crate::notation::frame(utf8("core.filemode"@)) + crate::notation::frame(utf8("true"@))
            + crate::notation::frame(utf8("core.symlinks"@)) + crate::notation::frame(
            utf8("true"@),
        ),
    ensures
        message == framed(config_fields()),
{
    let f = config_fields();
    let s0 = Seq::<Seq<u8>>::empty();
    let s1 = s0.push(f[0]);
    let s2 = s1.push(f[1]);
    let s3 = s2.push(f[2]);
    let s4 = s3.push(f[3]);
    let s5 = s4.push(f[4]);
    let s6 = s5.push(f[5]);
    let s7 = s6.push(f[6]);
    let s8 = s7.push(f[7]);
    let s9 = s8.push(f[8]);
    lemma_framed_push(s0, f[0]);
    lemma_framed_push(s1, f[1]);
    lemma_framed_push(s2, f[2]);
    lemma_framed_push(s3, f[3]);
    lemma_framed_push(s4, f[4]);
    lemma_framed_push(s5, f[5]);
    lemma_framed_push(s6, f[6]);
    lemma_framed_push(s7, f[7]);
    lemma_framed_push(s8, f[8]);
    assert(s9 =~= f);
    assert(framed(s0) =~= Seq::<u8>::empty());
}

/// Judges the configuration as Git lists it, and gives its fingerprint.
pub fn audit_config(raw: &[u8]) -> (fingerprint: Result<String, Error>)
    ensures
        failure(fingerprint) == config_failure(raw@),
        fingerprint matches Ok(text) ==> text@ == digest_text(framed(config_fields())),
{
    let end: Vec<u8> = vec![0u8];
    proof {
        assert(end@ =~= seq![0u8]);
    }
    if raw.len() > 0 && !ends_with(raw, end.as_slice()) {
        return Err(Error::new("TEMPLATE_UNSUPPORTED", "Git config audit output lacked NUL framing"));
    }
    let body = match strip_suffix(raw, end.as_slice()) {
        Some(body) => body,
        None => raw,
    };
    let mut effective: Vec<Setting> = Vec::new();
    let fields: Vec<Vec<u8>> = if body.len() == 0 {
        Vec::new()
    } else {
        split(body, 0)
    };
    let ghost all = views(fields@);
    proof {
        assert(all =~= listed_fields(raw@));
        assert(all.skip(0) =~= all);
        assert(settings(effective@) + row_settings(all.skip(0)) =~= row_settings(all));
    }
    let mut i: usize = 0;
    while i < fields.len()
        invariant
            i <= fields@.len(),
            all == views(fields@),
            rows_failure(all.skip(i as int)) == rows_failure(all),
            settings(effective@) + row_settings(all.skip(i as int)) == row_settings(all),
            all == listed_fields(raw@),
            raw@.len() == 0 || seq![0u8].is_suffix_of(raw@),
        decreases fields@.len() - i,
    {
        let ghost rest = all.skip(i as int);
        proof {
            assert(rest.len() == fields@.len() - i);
            assert(rest[0] == fields@[i as int]@);
        }
        let left: usize = fields.len() - i;
        if left < 2 {
            return Err(Error::new("TEMPLATE_UNSUPPORTED", "config row lacked origin"));
        }
        if left < 3 {
            return Err(Error::new("TEMPLATE_UNSUPPORTED", "config row lacked value"));
        }
        proof {
            assert(rest[1] == fields@[i + 1]@);
            assert(rest[2] == fields@[i + 2]@);
            assert(rest.skip(3) =~= all.skip(i + 3));
        }
        let row = check_row(
            fields[i].as_slice(),
            fields[i + 1].as_slice(),
            fields[i + 2].as_slice(),
        )?;
        match row {
            Some(setting) => {
                let ghost before = settings(effective@);
                let ghost made = (setting.key@, setting.value@);
                effective.push(setting);
                proof {
                    assert(settings(effective@) =~= before.push(made));
                    assert(settings(effective@) + row_settings(all.skip(i + 3)) =~= before
                        + row_settings(rest));
                }
            },
            None => {},
        }
        i += 3;
    }
    proof {
        assert(all.skip(i as int).len() == 0);
        assert(settings(effective@) =~= row_settings(all));
    }
    config_fingerprint(&effective)
}

/// A line of Git's answer about an attributes file, and what stands at the path that it gives.
#[derive(Debug)]
pub struct AttributesLine {
    pub path: Vec<u8>,
    pub found: Presence,
}

pub open spec fn attributes_failure(line: AttributesLine) -> Option<Failure> {
    let code = "TEMPLATE_UNSUPPORTED"@;
    let f = or_fail(
        None,
        utf8_text(line.path@) is Some,
        code,
        "Git attributes path was not UTF-8"@,
    );
    let f = or_fail(
        f,
        is_absolute_path(line.path@),
        code,
        "Git attributes path was not absolute"@,
    );
    first_of(
        f,
        match line.found {
            Presence::Absent(_) => None,
            Presence::Directory | Presence::Other => Some(
                not_supported("system or global Git attributes are unsupported"@),
            ),
            Presence::Failed(words) => Some(
                not_supported("cannot inspect effective Git attributes"@ + ": "@ + words@),
            ),
        },
    )
}

/// The first failure among the lines.
pub open spec fn lines_failure(lines: Seq<AttributesLine>) -> Option<Failure>
    decreases lines.len(),
{
    if lines.len() == 0 {
        None
    } else {
        first_of(lines_failure(lines.drop_last()), attributes_failure(lines.last()))
    }
}

/// The paths that Git names, one to a line.
pub fn attribute_paths(output: &[u8]) -> (paths: Vec<Vec<u8>>)
    ensures
        views(paths@) == nonempty(split_at_each(output@, 10)),
{
    let lines = split(output, 10);
    keep_nonempty(&lines)
}

fn check_attributes(line: &AttributesLine) -> (checked: Result<(), Error>)
    ensures
        failure(checked) == attributes_failure(*line),
{
    if decode_text(line.path.as_slice()).is_none() {
        return Err(Error::new("TEMPLATE_UNSUPPORTED", "Git attributes path was not UTF-8"));
    }
    if !is_absolute(line.path.as_slice()) {
        return Err(Error::new("TEMPLATE_UNSUPPORTED", "Git attributes path was not absolute"));
    }
    match &line.found {
        Presence::Absent(_) => Ok(()),
        Presence::Failed(words) => Err(
            Error::io(
                "TEMPLATE_UNSUPPORTED",
                "cannot inspect effective Git attributes",
                words.as_str(),
            ),
        ),
        _ => Err(
            Error::new("TEMPLATE_UNSUPPORTED", "system or global Git attributes are unsupported"),
        ),
    }
}

/// Judges the attributes files that Git would read beside those of the tree.
pub fn audit_attributes(lines: &Vec<AttributesLine>) -> (fingerprint: Result<String, Error>)
    ensures
        failure(fingerprint) == lines_failure(lines@),
        fingerprint matches Ok(text) ==> text@ == digest_text(
            framed(seq![utf8("git-vws/attributes-fingerprint/v1"@), utf8("none"@)]),
        ),
{
    let mut i: usize = 0;
    let mut failed: Option<Error> = None;
    proof {
        assert(lines@.subrange(0, 0) =~= Seq::<AttributesLine>::empty());
    }
    while i < lines.len()
        invariant
            i <= lines@.len(),
            crate::probing::optional_failure(failed) == lines_failure(
                lines@.subrange(0, i as int),
            ),
        decreases lines@.len() - i,
    {
        let ghost part = lines@.subrange(0, i + 1);
        proof {
            assert(part.drop_last() =~= lines@.subrange(0, i as int));
            assert(part.last() == lines@[i as int]);
        }
        if failed.is_none() {
            match check_attributes(&lines[i]) {
                Ok(_) => {},
                Err(error) => {
                    failed = Some(error);
                },
            }
        }
        i += 1;
    }
    proof {
        assert(lines@.subrange(0, i as int) =~= lines@);
    }
    match failed {
        Some(error) => Err(error),
        None => {
            let mut message: Vec<u8> = Vec::new();
            push_frame(&mut message, "git-vws/attributes-fingerprint/v1".as_bytes());
            push_frame(&mut message, "none".as_bytes());
            proof {
                let s0 = Seq::<Seq<u8>>::empty();
                let a = utf8("git-vws/attributes-fingerprint/v1"@);
                let b = utf8("none"@);
                lemma_framed_push(s0, a);
                lemma_framed_push(s0.push(a), b);
                assert(s0.push(a).push(b) =~= seq![a, b]);
                assert(framed(s0) =~= Seq::<u8>::empty());
            }
            Ok(digest_hex(message.as_slice()))
        },
    }
}

/// A file that changes what a checkout writes must not stand in the repository.
pub open spec fn present_failure(found: Presence, label: Seq<char>) -> Option<Failure> {
    match found {
        Presence::Absent(_) => None,
        Presence::Directory | Presence::Other => Some(
            not_supported(label + " requires unsupported checkout semantics"@),
        ),
        Presence::Failed(words) => Some(
            not_supported("cannot inspect "@ + label + ": "@ + words@),
        ),
    }
}

pub fn reject_present(found: &Presence, label: &str) -> (checked: Result<(), Error>)
    ensures
        failure(checked) == present_failure(*found, label@),
{
    match found {
        Presence::Absent(_) => Ok(()),
        Presence::Failed(words) => Err(
            Error::io(
                "TEMPLATE_UNSUPPORTED",
                join2("cannot inspect ", label).as_str(),
                words.as_str(),
            ),
        ),
        _ => Err(
            Error::new(
                "TEMPLATE_UNSUPPORTED",
                join2(label, " requires unsupported checkout semantics").as_str(),
            ),
        ),
    }
}

/// The directory of packs: absent, unreadable, or its entries.
#[derive(Debug)]
pub enum PackListing {
    Absent,
    Failed(String),
    /// Each entry's name, or why it could not be read.
    Entries(Vec<Result<Vec<u8>, String>>),
}

pub open spec fn pack_failure(entry: Result<Vec<u8>, String>) -> Option<Failure> {
    match entry {
        Err(words) => Some(
            not_supported("cannot inspect authority pack entry"@ + ": "@ + words@),
        ),
        Ok(name) => if utf8(".promisor"@).is_suffix_of(name@) {
            Some(not_supported("authority has a promisor pack"@))
        } else {
            None
        },
    }
}

pub open spec fn packs_failure(entries: Seq<Result<Vec<u8>, String>>) -> Option<Failure>
    decreases entries.len(),
{
    if entries.len() == 0 {
        None
    } else {
        first_of(packs_failure(entries.drop_last()), pack_failure(entries.last()))
    }
}

/// Objects that are promised and not there rule templates out.
pub fn reject_promisor_markers(listing: &PackListing) -> (checked: Result<(), Error>)
    ensures
        failure(checked) == match *listing {
            PackListing::Absent => None,
            PackListing::Failed(words) => Some(
                not_supported("cannot inspect authority promisor markers"@ + ": "@ + words@),
            ),
            PackListing::Entries(entries) => packs_failure(entries@),
        },
{
    match listing {
        PackListing::Absent => Ok(()),
        PackListing::Failed(words) => Err(
            Error::io(
                "TEMPLATE_UNSUPPORTED",
                "cannot inspect authority promisor markers",
                words.as_str(),
            ),
        ),
        PackListing::Entries(entries) => {
            let mut i: usize = 0;
            let mut failed: Option<Error> = None;
            proof {
                assert(entries@.subrange(0, 0) =~= Seq::<Result<Vec<u8>, String>>::empty());
            }
            while i < entries.len()
                invariant
                    i <= entries@.len(),
                    crate::probing::optional_failure(failed) == packs_failure(
                        entries@.subrange(0, i as int),
                    ),
                decreases entries@.len() - i,
            {
                let ghost part = entries@.subrange(0, i + 1);
                proof {
                    assert(part.drop_last() =~= entries@.subrange(0, i as int));
                    assert(part.last() == entries@[i as int]);
                }
                if failed.is_none() {
                    match &entries[i] {
                        Err(words) => {
                            failed = Some(
                                Error::io(
                                    "TEMPLATE_UNSUPPORTED",
                                    "cannot inspect authority pack entry",
                                    words.as_str(),
                                ),
                            );
                        },
                        Ok(name) => {
                            if ends_with(name.as_slice(), ".promisor".as_bytes()) {
                                failed = Some(
                                    Error::new(
                                        "TEMPLATE_UNSUPPORTED",
                                        "authority has a promisor pack",
                                    ),
                                );
                            }
                        },
                    }
                }
                i += 1;
            }
            proof {
                assert(entries@.subrange(0, i as int) =~= entries@);
            }
            match failed {
                Some(error) => Err(error),
                None => Ok(()),
            }
        },
    }
}

/// What Git must have printed: everything it was asked, and no complaint.
pub open spec fn captured_failure(outcome: Result<Output, git::Error>, code: Seq<char>) -> Option<
    Failure,
> {
    match outcome {
        Err(error) => Some(error@),
        Ok(output) => if output.clean() {
            None
        } else {
            Some((code, "Git preflight did not complete cleanly"@))
        },
    }
}

fn captured(outcome: Result<Output, git::Error>, code: &'static str) -> (stdout: Result<
    Vec<u8>,
    Error,
>)
    ensures
        failure(stdout) == captured_failure(outcome, code@),
        stdout matches Ok(stdout) ==> stdout@ == outcome->Ok_0.stdout@,
{
    match outcome {
        Err(error) => Err(git_error(error)),
        Ok(output) => if output.is_clean() {
            Ok(output.stdout)
        } else {
            Err(Error::new(code, "Git preflight did not complete cleanly"))
        },
    }
}

/// What Git printed without the user's configuration.
pub fn capture(outcome: Result<Output, git::Error>) -> (stdout: Result<Vec<u8>, Error>)
    ensures
        failure(stdout) == captured_failure(outcome, "TEMPLATE_INVALID"@),
        stdout matches Ok(stdout) ==> stdout@ == outcome->Ok_0.stdout@,
{
    captured(outcome, "TEMPLATE_INVALID")
}

/// What Git printed with the configuration that the repository has.
pub fn capture_audit(outcome: Result<Output, git::Error>) -> (stdout: Result<Vec<u8>, Error>)
    ensures
        failure(stdout) == captured_failure(outcome, "TEMPLATE_UNSUPPORTED"@),
        stdout matches Ok(stdout) ==> stdout@ == outcome->Ok_0.stdout@,
{
    captured(outcome, "TEMPLATE_UNSUPPORTED")
}

/// Why a child that was read to its end did not end well.
pub open spec fn finish_failure(outcome: Result<Output, git::Error>, command: Seq<char>) -> Option<
    Failure,
> {
    match outcome {
        Err(error) => Some(error@),
        Ok(output) => if output.silent() {
            None
        } else {
            Some(("TEMPLATE_INVALID"@, "Git "@ + command + " did not complete cleanly"@))
        },
    }
}

/// A command that streams must end with nothing left to say.
pub fn finish_clean(outcome: Result<Output, git::Error>, command: &str) -> (finished: Result<
    (),
    Error,
>)
    ensures
        failure(finished) == finish_failure(outcome, command@),
{
    match outcome {
        Err(error) => Err(git_error(error)),
        Ok(output) => if output.is_silent() {
            Ok(())
        } else {
            Err(
                Error::new(
                    "TEMPLATE_INVALID",
                    join3("Git ", command, " did not complete cleanly").as_str(),
                ),
            )
        },
    }
}

pub open spec fn version_failure(outcome: Result<Output, git::Error>) -> Option<Failure> {
    match outcome {
        Err(error) => Some(error@),
        Ok(output) => if !(output.clean() && utf8("\n"@).is_suffix_of(output.stdout@)) {
            Some(("TEMPLATE_INVALID"@, "cannot obtain Git version capability"@))
        } else if utf8_text(without_suffix(output.stdout@, utf8("\n"@))->0) is None {
            Some(("TEMPLATE_INVALID"@, "Git version was not UTF-8"@))
        } else {
            None
        },
    }
}

/// The version that Git gives itself, without the end of its line.
pub fn git_version(outcome: Result<Output, git::Error>) -> (version: Result<String, Error>)
    ensures
        failure(version) == version_failure(outcome),
        version matches Ok(version) ==> utf8_text(
            without_suffix(outcome->Ok_0.stdout@, utf8("\n"@))->0,
        ) == Some(version@),
{
    match outcome {
        Err(error) => Err(git_error(error)),
        Ok(output) => {
            if !output.is_clean() {
                return Err(Error::new("TEMPLATE_INVALID", "cannot obtain Git version capability"));
            }
            match strip_suffix(output.stdout.as_slice(), "\n".as_bytes()) {
                None => Err(Error::new("TEMPLATE_INVALID", "cannot obtain Git version capability")),
                Some(text) => match decode_text(text) {
                    None => Err(Error::new("TEMPLATE_INVALID", "Git version was not UTF-8")),
                    Some(version) => Ok(version),
                },
            }
        },
    }
}

/// What a repository is looked at for before anything is checked out.
#[derive(Debug)]
pub struct CheckoutSeen {
    pub attributes: Presence,
    pub grafts: Presence,
    pub shallow: Presence,
    pub alternates: Presence,
    pub replace: Presence,
    pub packs: PackListing,
    /// The listed configuration.
    pub config: Result<Output, git::Error>,
    /// Git's attributes files: that of the system, then the user's.
    pub system: Result<Output, git::Error>,
    pub system_lines: Vec<AttributesLine>,
    pub global: Result<Output, git::Error>,
    pub global_lines: Vec<AttributesLine>,
    pub is_shallow: Result<Output, git::Error>,
}

pub open spec fn packs_listing_failure(listing: PackListing) -> Option<Failure> {
    match listing {
        PackListing::Absent => None,
        PackListing::Failed(words) => Some(
            not_supported("cannot inspect authority promisor markers"@ + ": "@ + words@),
        ),
        PackListing::Entries(entries) => packs_failure(entries@),
    }
}

pub open spec fn checkout_failure(seen: CheckoutSeen) -> Option<Failure> {
    let f = present_failure(seen.attributes, "info/attributes"@);
    let f = first_of(f, present_failure(seen.grafts, "info/grafts"@));
    let f = first_of(f, present_failure(seen.shallow, "shallow"@));
    let f = first_of(f, present_failure(seen.alternates, "objects/info/alternates"@));
    let f = first_of(f, present_failure(seen.replace, "replace references"@));
    let f = first_of(f, packs_listing_failure(seen.packs));
    let f = first_of(f, captured_failure(seen.config, "TEMPLATE_UNSUPPORTED"@));
    let f = first_of(f, config_failure(seen.config->Ok_0.stdout@));
    let f = first_of(f, captured_failure(seen.system, "TEMPLATE_UNSUPPORTED"@));
    let f = first_of(f, lines_failure(seen.system_lines@));
    let f = first_of(f, captured_failure(seen.global, "TEMPLATE_UNSUPPORTED"@));
    let f = first_of(f, lines_failure(seen.global_lines@));
    let f = first_of(f, captured_failure(seen.is_shallow, "TEMPLATE_INVALID"@));
    or_fail(
        f,
        seen.is_shallow->Ok_0.stdout@ == utf8("false\n"@),
        "TEMPLATE_UNSUPPORTED"@,
        "shallow repositories are unsupported"@,
    )
}

/// Judges whether a repository can be checked out by copying objects.
pub fn checkout_audit(seen: CheckoutSeen) -> (audit: Result<CheckoutAudit, Error>)
    ensures
        failure(audit) == checkout_failure(seen),
        audit matches Ok(audit) ==> audit.config_fingerprint@ == digest_text(
            framed(config_fields()),
        ) && audit.attributes_fingerprint@ == digest_text(
            framed(seq![utf8("git-vws/attributes-fingerprint/v1"@), utf8("none"@)]),
        ),
{
    reject_present(&seen.attributes, "info/attributes")?;
    reject_present(&seen.grafts, "info/grafts")?;
    reject_present(&seen.shallow, "shallow")?;
    reject_present(&seen.alternates, "objects/info/alternates")?;
    reject_present(&seen.replace, "replace references")?;
    reject_promisor_markers(&seen.packs)?;
    let config = capture_audit(seen.config)?;
    let config_fingerprint = audit_config(config.as_slice())?;
    capture_audit(seen.system)?;
    audit_attributes(&seen.system_lines)?;
    capture_audit(seen.global)?;
    let attributes_fingerprint = audit_attributes(&seen.global_lines)?;
    let shallow = capture(seen.is_shallow)?;
    if !same_bytes(shallow.as_slice(), "false\n".as_bytes()) {
        return Err(Error::new("TEMPLATE_UNSUPPORTED", "shallow repositories are unsupported"));
    }
    Ok(CheckoutAudit { config_fingerprint, attributes_fingerprint })
}

} // verus!
