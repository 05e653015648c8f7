//! Authorities: what makes a Git repository one, the record that registers it, and the judgements
//! on the state that is kept about it.

use crate::bytes::{
    append, bytes_of, contains_byte, copy_bytes, decode_text, join2, join3, lemma_utf8_ascii,
    lemma_utf8_concat, optional_view, same_bytes, same_text, split, split_at_each, strip_prefix,
    strip_suffix, text_of, utf8, utf8_text, views, without_prefix, without_suffix,
};
use crate::git;
use crate::notation::{
    all_digits, all_lower_hex, big_endian, decimal_text, decimal_value, digit_value, hex_text,
    is_lower_hex, lemma_decimal_text, lemma_hex_text, only_digits, only_lower_hex, read_decimal,
    to_big_endian, to_decimal, to_hex, unhex,
};
use crate::paths::{is_absolute, is_absolute_path, same_path, same_path_spec};
use vstd::prelude::*;
use vstd::slice::slice_subrange;
use vstd::string::StringExecFns;
use vstd::utf8::valid_utf8;

verus! {

pub const STATE_ROOT: &'static str = ".git-vws";

/// How much a Git probe may write.
pub const MAX_GIT_OUTPUT: usize = 1024;

/// How long an authority record may be.
pub const MAX_RECORD_BYTES: usize = 4096;

/// The file type of a directory.
pub const DIRECTORY_TYPE: u32 = 0o040000;

/// The file type of a regular file.
pub const REGULAR_TYPE: u32 = 0o100000;

/// The file type of a symbolic link.
pub const SYMLINK_TYPE: u32 = 0o120000;

/// The bits of a mode that hold the file type.
pub const FILE_TYPE_MASK: u32 = 0o170000;

/// What an error says: its code and its detail.
pub type Failure = (Seq<char>, Seq<char>);

#[derive(Debug)]
pub struct Error {
    pub code: &'static str,
    pub detail: String,
}

impl View for Error {
    type V = Failure;

    open spec fn view(&self) -> Failure {
        (self.code@, self.detail@)
    }
}

/// What a result fails with, where it fails.
pub open spec fn failure<T>(result: Result<T, Error>) -> Option<Failure> {
    match result {
        Ok(_) => None,
        Err(error) => Some(error@),
    }
}

/// Adds a requirement to a row of them: what the first one that does not hold fails with.
pub open spec fn or_fail(
    earlier: Option<Failure>,
    holds: bool,
    code: Seq<char>,
    detail: Seq<char>,
) -> Option<Failure> {
    if earlier is Some {
        earlier
    } else if holds {
        None
    } else {
        Some((code, detail))
    }
}

impl Error {
    pub fn new(code: &'static str, detail: &str) -> (error: Self)
        ensures
            error@ == (code@, detail@),
    {
        Error { code, detail: text_of(detail) }
    }

    /// An error of the system, whose own words are `error`.
    pub fn io(code: &'static str, context: &str, error: &str) -> (made: Self)
        ensures
            made@ == (code@, context@ + ": "@ + error@),
    {
        Error { code, detail: join3(context, ": ", error) }
    }

    pub fn probe_failed(detail: &str) -> (error: Self)
        ensures
            error@ == ("GIT_PROBE_FAILED"@, detail@),
    {
        Error::new("GIT_PROBE_FAILED", detail)
    }

    pub fn copy(&self) -> (same: Self)
        ensures
            same@ == self@,
    {
        Error { code: self.code, detail: self.detail.clone() }
    }

    pub fn to_text(&self) -> (text: String)
        ensures
            text@ == git::shown(self@),
    {
        join3(self.code, ": ", self.detail.as_str())
    }

    pub fn has_code(&self, code: &str) -> (has: bool)
        ensures
            has == (self.code@ == code@),
    {
        same_text(self.code, code)
    }
}

pub fn from_git_error(error: git::Error) -> (same: Error)
    ensures
        same@ == error@,
{
    Error { code: error.code, detail: error.detail }
}

/// What a descriptor or a directory entry is: the node, its owner, mode, type and link count.
#[derive(Clone, Copy, Debug, PartialEq, Eq, Structural)]
pub struct Identity {
    pub dev: u64,
    pub ino: u64,
    pub uid: u32,
    pub mode: u32,
    pub kind: u32,
    pub nlink: u64,
}

impl Identity {
    pub open spec fn is_directory(self) -> bool {
        self.kind == DIRECTORY_TYPE
    }

    pub open spec fn is_regular(self) -> bool {
        self.kind == REGULAR_TYPE
    }

    /// The same node with the same owner, mode and type; the link count may differ.
    pub open spec fn is_same_node(self, other: Self) -> bool {
        &&& self.dev == other.dev
        &&& self.ino == other.ino
        &&& self.uid == other.uid
        &&& self.mode == other.mode
        &&& self.kind == other.kind
    }

    /// An identity out of the fields of a stat.
    pub fn from_stat(dev: u64, ino: u64, uid: u32, raw_mode: u32, nlink: u64) -> (identity: Self)
        ensures
            identity == (Identity {
                dev,
                ino,
                uid,
                mode: raw_mode & 0o7777,
                kind: raw_mode & FILE_TYPE_MASK,
                nlink,
            }),
    {
        Identity { dev, ino, uid, mode: raw_mode & 0o7777, kind: raw_mode & FILE_TYPE_MASK, nlink }
    }

    pub fn directory(&self) -> (is: bool)
        ensures
            is == self.is_directory(),
    {
        self.kind == DIRECTORY_TYPE
    }

    pub fn regular(&self) -> (is: bool)
        ensures
            is == self.is_regular(),
    {
        self.kind == REGULAR_TYPE
    }

    pub fn same_node(&self, other: Self) -> (same: bool)
        ensures
            same == self.is_same_node(other),
    {
        self.dev == other.dev && self.ino == other.ino && self.uid == other.uid && self.mode
            == other.mode && self.kind == other.kind
    }
}

/// Being the same node is an equivalence, and equal identities are the same node.
pub proof fn law_same_node_is_an_equivalence(first: Identity, second: Identity, third: Identity)
    ensures
        first.is_same_node(first),
        first.is_same_node(second) == second.is_same_node(first),
        first.is_same_node(second) && second.is_same_node(third) ==> first.is_same_node(third),
        first == second ==> first.is_same_node(second),
        first.is_same_node(second) && first.nlink == second.nlink ==> first == second,
{
}

/// A registered repository.
#[derive(Debug)]
pub struct Authority {
    pub canonical: Vec<u8>,
    pub identity: Identity,
    pub object_format: String,
    pub ref_format: String,
}

/// An authority as its path, its identity, and its two formats.
pub struct AuthorityView {
    pub canonical: Seq<u8>,
    pub identity: Identity,
    pub object_format: Seq<char>,
    pub ref_format: Seq<char>,
}

impl View for Authority {
    type V = AuthorityView;

    open spec fn view(&self) -> AuthorityView {
        AuthorityView {
            canonical: self.canonical@,
            identity: self.identity,
            object_format: self.object_format@,
            ref_format: self.ref_format@,
        }
    }
}

impl AuthorityView {
    /// Two inspections that found the same authority.
    pub open spec fn same_authority(self, other: Self) -> bool {
        &&& same_path_spec(self.canonical, other.canonical)
        &&& self.identity.is_same_node(other.identity)
        &&& self.object_format == other.object_format
        &&& self.ref_format == other.ref_format
    }
}

impl Authority {
    pub fn matches(&self, other: &Self) -> (same: bool)
        ensures
            same == self@.same_authority(other@),
    {
        same_path(self.canonical.as_slice(), other.canonical.as_slice()) && self.identity.same_node(
            other.identity,
        ) && same_text(self.object_format.as_str(), other.object_format.as_str()) && same_text(
            self.ref_format.as_str(),
            other.ref_format.as_str(),
        )
    }

    pub fn copy(&self) -> (same: Self)
        ensures
            same@ == self@,
    {
        Authority {
            canonical: copy_bytes(self.canonical.as_slice()),
            identity: self.identity,
            object_format: self.object_format.clone(),
            ref_format: self.ref_format.clone(),
        }
    }
}

/// What registers an authority. The link count of a repository changes as it is used and is not
/// part of it.
#[derive(Debug)]
pub struct Record {
    pub canonical: Vec<u8>,
    pub identity: Identity,
    pub object_format: String,
    pub ref_format: String,
}

impl View for Record {
    type V = AuthorityView;

    open spec fn view(&self) -> AuthorityView {
        AuthorityView {
            canonical: self.canonical@,
            identity: self.identity,
            object_format: self.object_format@,
            ref_format: self.ref_format@,
        }
    }
}

/// A line of a record.
pub open spec fn record_line(key: Seq<char>, value: Seq<char>) -> Seq<char> {
    key + "="@ + value + "\n"@
}

/// The text of an authority record.
pub open spec fn record_text(record: AuthorityView) -> Seq<char> {
    record_line("version"@, "1"@) + record_line("path"@, hex_text(record.canonical)) + record_line(
        "dev"@,
        decimal_text(record.identity.dev as nat),
    ) + record_line("ino"@, decimal_text(record.identity.ino as nat)) + record_line(
        "uid"@,
        decimal_text(record.identity.uid as nat),
    ) + record_line("mode"@, decimal_text(record.identity.mode as nat)) + record_line(
        "object"@,
        record.object_format,
    ) + record_line("ref"@, record.ref_format)
}

fn push_line(text: &mut String, key: &str, value: &str)
    ensures
        final(text)@ == old(text)@ + record_line(key@, value@),
{
    text.append(key);
    text.append("=");
    text.append(value);
    text.append("\n");
    proof {
        assert(text@ =~= old(text)@ + record_line(key@, value@));
    }
}

impl Record {
    pub fn from_authority(authority: &Authority) -> (record: Self)
        ensures
            record@ == authority@,
    {
        Record {
            canonical: copy_bytes(authority.canonical.as_slice()),
            identity: authority.identity,
            object_format: authority.object_format.clone(),
            ref_format: authority.ref_format.clone(),
        }
    }

    /// The record registers exactly this authority.
    pub fn exactly_matches(&self, authority: &Authority) -> (same: bool)
        ensures
            same == self@.same_authority(authority@),
    {
        same_path(self.canonical.as_slice(), authority.canonical.as_slice()) && self.identity.dev
            == authority.identity.dev && self.identity.ino == authority.identity.ino
            && self.identity.uid == authority.identity.uid && self.identity.mode
            == authority.identity.mode && self.identity.kind == authority.identity.kind
            && same_text(self.object_format.as_str(), authority.object_format.as_str())
            && same_text(self.ref_format.as_str(), authority.ref_format.as_str())
    }

    pub fn encode(&self) -> (bytes: Vec<u8>)
        ensures
            bytes@ == utf8(record_text(self@)),
    {
        let mut text = String::new();
        push_line(&mut text, "version", "1");
        push_line(&mut text, "path", hex(self.canonical.as_slice()).as_str());
        push_line(&mut text, "dev", to_decimal(self.identity.dev).as_str());
        push_line(&mut text, "ino", to_decimal(self.identity.ino).as_str());
        push_line(&mut text, "uid", to_decimal(self.identity.uid as u64).as_str());
        push_line(&mut text, "mode", to_decimal(self.identity.mode as u64).as_str());
        push_line(&mut text, "object", self.object_format.as_str());
        push_line(&mut text, "ref", self.ref_format.as_str());
        proof {
            assert(text@ =~= record_text(self@));
        }
        bytes_of(text.as_str())
    }
}

/// Lowercase hexadecimal.
pub fn hex(bytes: &[u8]) -> (text: String)
    ensures
        text@ == hex_text(bytes@),
{
    to_hex(bytes)
}

/// The value of a lowercase hexadecimal digit.
pub fn hex_digit(byte: u8) -> (value: Option<u8>)
    ensures
        value == digit_value(byte),
{
    if 48 <= byte && byte <= 57 {
        Some(byte - 48)
    } else if 97 <= byte && byte <= 102 {
        Some(byte - 97 + 10)
    } else {
        None
    }
}

/// The 64-bit FNV-1a hash: each byte is mixed in by exclusive or, then multiplied by the prime.
pub open spec fn fnv1a(bytes: Seq<u8>) -> u64
    decreases bytes.len(),
{
    if bytes.len() == 0 {
        0xcbf29ce484222325
    } else {
        vstd::wrapping::u64_specs::wrapping_mul(
            fnv1a(bytes.drop_last()) ^ (bytes.last() as u64),
            0x100000001b3,
        )
    }
}

pub fn path_hash(path: &[u8]) -> (hash: u64)
    ensures
        hash == fnv1a(path@),
{
    let mut hash: u64 = 0xcbf29ce484222325;
    let mut i: usize = 0;
    while i < path.len()
        invariant
            i <= path@.len(),
            hash == fnv1a(path@.subrange(0, i as int)),
        decreases path@.len() - i,
    {
        hash = (hash ^ (path[i] as u64)).wrapping_mul(0x100000001b3);
        i += 1;
        proof {
            assert(path@.subrange(0, i as int).drop_last() =~= path@.subrange(0, i - 1));
        }
    }
    proof {
        assert(path@.subrange(0, i as int) =~= path@);
    }
    hash
}

/// The name of the record that registers the authority at `path`.
pub open spec fn record_name_text(path: Seq<u8>) -> Seq<char> {
    "authority-"@ + hex_text(big_endian(fnv1a(path) as nat, 8)) + ".record"@
}

pub fn record_name(path: &[u8]) -> (name: Vec<u8>)
    ensures
        name@ == utf8(record_name_text(path@)),
{
    let hash = to_big_endian(path_hash(path), 8);
    let text = join3("authority-", to_hex(hash.as_slice()).as_str(), ".record");
    bytes_of(text.as_str())
}

/// The value of a `key=value` line, where it is not empty.
pub open spec fn field_value(line: Seq<u8>, key: Seq<char>) -> Option<Seq<u8>> {
    match without_prefix(line, utf8(key + "="@)) {
        Some(value) => if value.len() > 0 {
            Some(value)
        } else {
            None
        },
        None => None,
    }
}

pub fn field<'a>(line: &'a [u8], key: &str) -> (value: Result<&'a [u8], Error>)
    ensures
        match field_value(line@, key@) {
            Some(found) => value matches Ok(value) && value@ == found,
            None => value matches Err(error) && error@ == (
                "STATE_CORRUPT"@,
                "invalid "@ + key@ + " field"@,
            ),
        },
{
    let prefix = join2(key, "=");
    match strip_prefix(line, prefix.as_str().as_bytes()) {
        Some(value) => if value.len() > 0 {
            Ok(value)
        } else {
            Err(Error::new("STATE_CORRUPT", join3("invalid ", key, " field").as_str()))
        },
        None => Err(Error::new("STATE_CORRUPT", join3("invalid ", key, " field").as_str())),
    }
}

/// The digits of a number that may start with a plus sign.
pub open spec fn number_digits(value: Seq<u8>) -> Seq<u8> {
    if value.len() > 0 && value[0] == 43 {
        value.subrange(1, value.len() as int)
    } else {
        value
    }
}

/// The number that `value` is in decimal, where it is one of at most `limit`.
pub open spec fn number_value(value: Seq<u8>, limit: u64) -> Option<u64> {
    let digits = number_digits(value);
    if digits.len() > 0 && all_digits(digits) && decimal_value(digits) <= limit {
        Some(decimal_value(digits) as u64)
    } else {
        None
    }
}

/// Reads a decimal number of at most `limit`.
pub fn read_number(value: &[u8], limit: u64) -> (number: Option<u64>)
    ensures
        number == number_value(value@, limit),
{
    let digits: &[u8] = if value.len() > 0 && value[0] == 43 {
        slice_subrange(value, 1, value.len())
    } else {
        value
    };
    if digits.len() > 0 && only_digits(digits) {
        read_decimal(digits, limit)
    } else {
        None
    }
}

pub fn parse_number(value: &[u8], key: &str, limit: u64) -> (number: Result<u64, Error>)
    ensures
        match number_value(value@, limit) {
            Some(found) => number == Ok::<u64, Error>(found),
            None => number matches Err(error) && error@ == (
                "STATE_CORRUPT"@,
                "invalid "@ + key@ + " number"@,
            ),
        },
{
    match read_number(value, limit) {
        Some(number) => Ok(number),
        None => Err(Error::new("STATE_CORRUPT", join3("invalid ", key, " number").as_str())),
    }
}

/// A path that can be recorded.
pub open spec fn recordable(path: Seq<u8>) -> bool {
    is_absolute_path(path) && !path.contains(0)
}

/// Why `value` is not a recorded path.
pub open spec fn path_failure(value: Seq<u8>) -> Option<Failure> {
    let f = or_fail(
        None,
        value.len() % 2 == 0,
        "STATE_CORRUPT"@,
        "path encoding has odd length"@,
    );
    let f = or_fail(f, all_lower_hex(value), "STATE_CORRUPT"@, "path is not hex"@);
    or_fail(f, recordable(unhex(value)), "STATE_CORRUPT"@, "recorded path is not absolute"@)
}

pub fn decode_path(value: &[u8]) -> (path: Result<Vec<u8>, Error>)
    ensures
        failure(path) == path_failure(value@),
        path matches Ok(path) ==> path@ == unhex(value@),
{
    if value.len() % 2 != 0 {
        return Err(Error::new("STATE_CORRUPT", "path encoding has odd length"));
    }
    if !only_lower_hex(value) {
        return Err(Error::new("STATE_CORRUPT", "path is not hex"));
    }
    let path = crate::notation::from_hex(value);
    if !is_absolute(path.as_slice()) || contains_byte(path.as_slice(), 0) {
        return Err(Error::new("STATE_CORRUPT", "recorded path is not absolute"));
    }
    Ok(path)
}

pub open spec fn object_format_is_supported(format: Seq<char>) -> bool {
    format == "sha1"@ || format == "sha256"@
}

pub open spec fn ref_format_is_supported(format: Seq<char>) -> bool {
    format == "files"@ || format == "reftable"@
}

/// The text as Rust shows it for debugging: quoted, with escapes.
pub uninterp spec fn quoted_text(text: Seq<char>) -> Seq<char>;

/// Calls the `Debug` formatting of `str` through `format!`: quotes, with escapes where they are due.
#[verifier::external_body]
pub(crate) fn quoted(text: &str) -> (shown: String)
    ensures
        shown@ == quoted_text(text@),
{
    format!("{text:?}")
}

/// Accepts a format that is among the supported ones.
pub fn supported_format(value: &str, supported: &[&str], kind: &str) -> (format: Result<
    String,
    Error,
>)
    ensures
        (exists|i: int| 0 <= i < supported@.len() && (#[trigger] supported@[i])@ == value@) ==> (
        format matches Ok(format) && format@ == value@),
        !(exists|i: int| 0 <= i < supported@.len() && (#[trigger] supported@[i])@ == value@) ==> (
        format matches Err(error) && error@ == (
            "FORMAT_UNSUPPORTED"@,
            "unsupported "@ + kind@ + " format "@ + quoted_text(value@),
        )),
{
    let mut i: usize = 0;
    while i < supported.len()
        invariant
            i <= supported@.len(),
            forall|k: int| 0 <= k < i ==> (#[trigger] supported@[k])@ != value@,
        decreases supported@.len() - i,
    {
        if same_text(supported[i], value) {
            return Ok(text_of(value));
        }
        i += 1;
    }
    let mut detail = join3("unsupported ", kind, " format ");
    detail.append(quoted(value).as_str());
    Err(Error::new("FORMAT_UNSUPPORTED", detail.as_str()))
}

/// What a record with these lines says, where it says anything.
pub open spec fn lines_failure(lines: Seq<Seq<u8>>) -> Option<Failure> {
    let code = "STATE_CORRUPT"@;
    let f = or_fail(
        None,
        field_value(lines[0], "version"@) is Some,
        code,
        "invalid "@ + "version"@ + " field"@,
    );
    let f = or_fail(
        f,
        field_value(lines[1], "path"@) is Some,
        code,
        "invalid "@ + "path"@ + " field"@,
    );
    let f = or_fail(
        f,
        field_value(lines[2], "dev"@) is Some,
        code,
        "invalid "@ + "dev"@ + " field"@,
    );
    let f = or_fail(
        f,
        field_value(lines[3], "ino"@) is Some,
        code,
        "invalid "@ + "ino"@ + " field"@,
    );
    let f = or_fail(
        f,
        field_value(lines[4], "uid"@) is Some,
        code,
        "invalid "@ + "uid"@ + " field"@,
    );
    let f = or_fail(
        f,
        field_value(lines[5], "mode"@) is Some,
        code,
        "invalid "@ + "mode"@ + " field"@,
    );
    let f = or_fail(
        f,
        field_value(lines[6], "object"@) is Some,
        code,
        "invalid "@ + "object"@ + " field"@,
    );
    or_fail(
        f,
        field_value(lines[7], "ref"@) is Some,
        code,
        "invalid "@ + "ref"@ + " field"@,
    )
}

/// Why the values of a record cannot stand.
pub open spec fn values_failure(values: Seq<Seq<u8>>) -> Option<Failure> {
    let code = "STATE_CORRUPT"@;
    let f = or_fail(None, values[0] == utf8("1"@), code, "unknown state record version"@);
    let f = or_fail(
        f,
        values[6] == utf8("sha1"@) || values[6] == utf8("sha256"@),
        code,
        "invalid state object format"@,
    );
    let f = or_fail(
        f,
        values[7] == utf8("files"@) || values[7] == utf8("reftable"@),
        code,
        "invalid state ref format"@,
    );
    let f = if f is Some {
        f
    } else {
        path_failure(values[1])
    };
    let f = or_fail(
        f,
        number_value(values[2], u64::MAX) is Some,
        code,
        "invalid "@ + "dev"@ + " number"@,
    );
    let f = or_fail(
        f,
        number_value(values[3], u64::MAX) is Some,
        code,
        "invalid "@ + "ino"@ + " number"@,
    );
    let f = or_fail(
        f,
        number_value(values[4], u32::MAX as u64) is Some,
        code,
        "invalid "@ + "uid"@ + " number"@,
    );
    or_fail(
        f,
        number_value(values[5], u32::MAX as u64) is Some,
        code,
        "invalid "@ + "mode"@ + " number"@,
    )
}

/// The lines of a record, without the newline that ends it.
pub open spec fn record_lines(bytes: Seq<u8>) -> Seq<Seq<u8>> {
    split_at_each(without_suffix(bytes, utf8("\n"@))->0, 10)
}

/// The values of the eight lines of a record.
pub open spec fn record_values(lines: Seq<Seq<u8>>) -> Seq<Seq<u8>> {
    seq![
        field_value(lines[0], "version"@)->0,
        field_value(lines[1], "path"@)->0,
        field_value(lines[2], "dev"@)->0,
        field_value(lines[3], "ino"@)->0,
        field_value(lines[4], "uid"@)->0,
        field_value(lines[5], "mode"@)->0,
        field_value(lines[6], "object"@)->0,
        field_value(lines[7], "ref"@)->0,
    ]
}

/// What the values of a record say of an authority.
pub open spec fn record_of(values: Seq<Seq<u8>>) -> AuthorityView {
    AuthorityView {
        canonical: unhex(values[1]),
        identity: Identity {
            dev: number_value(values[2], u64::MAX)->0,
            ino: number_value(values[3], u64::MAX)->0,
            uid: number_value(values[4], u32::MAX as u64)->0 as u32,
            mode: number_value(values[5], u32::MAX as u64)->0 as u32,
            kind: DIRECTORY_TYPE,
            nlink: 0,
        },
        object_format: utf8_text(values[6])->0,
        ref_format: utf8_text(values[7])->0,
    }
}

/// Why bytes are not an authority record.
pub open spec fn record_failure(bytes: Seq<u8>) -> Option<Failure> {
    let code = "STATE_CORRUPT"@;
    let f = or_fail(None, valid_utf8(bytes), code, "state record is not UTF-8"@);
    let f = or_fail(
        f,
        utf8("\n"@).is_suffix_of(bytes),
        code,
        "state record lacks a final newline"@,
    );
    let lines = record_lines(bytes);
    let f = or_fail(f, lines.len() == 8, code, "state record has the wrong field count"@);
    if f is Some {
        f
    } else if lines_failure(lines) is Some {
        lines_failure(lines)
    } else {
        values_failure(record_values(lines))
    }
}

fn one_of(value: &[u8], first: &str, second: &str) -> (found: Option<String>)
    ensures
        found is Some <==> value@ == utf8(first@) || value@ == utf8(second@),
        found matches Some(text) ==> optional_view(Some(text)) == utf8_text(value@),
{
    proof {
        vstd::utf8::encode_utf8_decode_utf8(first@);
        vstd::utf8::encode_utf8_decode_utf8(second@);
        vstd::utf8::encode_utf8_valid_utf8(first@);
        vstd::utf8::encode_utf8_valid_utf8(second@);
    }
    if same_bytes(value, first.as_bytes()) {
        Some(text_of(first))
    } else if same_bytes(value, second.as_bytes()) {
        Some(text_of(second))
    } else {
        None
    }
}

pub fn parse_record(bytes: &[u8]) -> (record: Result<Record, Error>)
    ensures
        failure(record) == record_failure(bytes@),
        record matches Ok(record) ==> record@ == record_of(record_values(record_lines(bytes@))),
{
    if decode_text(bytes).is_none() {
        return Err(Error::new("STATE_CORRUPT", "state record is not UTF-8"));
    }
    let body: &[u8] = match strip_suffix(bytes, "\n".as_bytes()) {
        Some(body) => body,
        None => return Err(Error::new("STATE_CORRUPT", "state record lacks a final newline")),
    };
    let lines = split(body, 10);
    proof {
        assert(views(lines@) == record_lines(bytes@));
    }
    if lines.len() != 8 {
        return Err(Error::new("STATE_CORRUPT", "state record has the wrong field count"));
    }
    proof {
        assert(forall|i: int| 0 <= i < 8 ==> #[trigger] views(lines@)[i] == lines@[i]@);
    }
    let version = field(lines[0].as_slice(), "version")?;
    let path = field(lines[1].as_slice(), "path")?;
    let dev = field(lines[2].as_slice(), "dev")?;
    let ino = field(lines[3].as_slice(), "ino")?;
    let uid = field(lines[4].as_slice(), "uid")?;
    let mode = field(lines[5].as_slice(), "mode")?;
    let object = field(lines[6].as_slice(), "object")?;
    let reference = field(lines[7].as_slice(), "ref")?;
    let ghost values = record_values(record_lines(bytes@));
    proof {
        assert(values[0] == version@);
        assert(values[1] == path@);
        assert(values[2] == dev@);
        assert(values[3] == ino@);
        assert(values[4] == uid@);
        assert(values[5] == mode@);
        assert(values[6] == object@);
        assert(values[7] == reference@);
    }
    if !same_bytes(version, "1".as_bytes()) {
        return Err(Error::new("STATE_CORRUPT", "unknown state record version"));
    }
    let object_format = match one_of(object, "sha1", "sha256") {
        Some(format) => format,
        None => return Err(Error::new("STATE_CORRUPT", "invalid state object format")),
    };
    let ref_format = match one_of(reference, "files", "reftable") {
        Some(format) => format,
        None => return Err(Error::new("STATE_CORRUPT", "invalid state ref format")),
    };
    let canonical = decode_path(path)?;
    let dev: u64 = parse_number(dev, "dev", u64::MAX)?;
    let ino: u64 = parse_number(ino, "ino", u64::MAX)?;
    let uid: u64 = parse_number(uid, "uid", u32::MAX as u64)?;
    let mode: u64 = parse_number(mode, "mode", u32::MAX as u64)?;
    Ok(
        Record {
            canonical,
            identity: Identity {
                dev,
                ino,
                uid: uid as u32,
                mode: mode as u32,
                kind: DIRECTORY_TYPE,
                nlink: 0,
            },
            object_format,
            ref_format,
        },
    )
}

/// A record that can be written: the path is absolute and holds no NUL, the formats are supported,
/// and the identity is that of a directory, without its link count.
pub open spec fn writable(record: AuthorityView) -> bool {
    &&& recordable(record.canonical)
    &&& object_format_is_supported(record.object_format)
    &&& ref_format_is_supported(record.ref_format)
    &&& record.identity.is_directory()
    &&& record.identity.nlink == 0
}

spec fn line_bytes(key: Seq<char>, value: Seq<char>) -> Seq<u8> {
    utf8(key + "="@ + value)
}

/// A line of ASCII without a newline is one field with its value.
proof fn lemma_line(key: Seq<char>, value: Seq<char>)
    requires
        vstd::utf8::is_ascii_chars(key),
        vstd::utf8::is_ascii_chars(value),
        value.len() > 0,
        !key.contains('\n'),
        !value.contains('\n'),
    ensures
        utf8(record_line(key, value)) == line_bytes(key, value).push(10),
        !line_bytes(key, value).contains(10),
        field_value(line_bytes(key, value), key) == Some(utf8(value)),
{
    reveal_strlit("=");
    reveal_strlit("\n");
    let text = key + "="@ + value;
    assert(vstd::utf8::is_ascii_chars(text));
    lemma_utf8_ascii(text);
    assert(vstd::utf8::is_ascii_chars("\n"@));
    lemma_utf8_ascii("\n"@);
    lemma_utf8_concat(text, "\n"@);
    assert(record_line(key, value) =~= text + "\n"@);
    assert(utf8("\n"@) =~= seq![10u8]);
    assert(utf8(record_line(key, value)) =~= line_bytes(key, value).push(10));
    assert forall|i: int| 0 <= i < text.len() implies utf8(text)[i] != 10 by {
        assert(utf8(text)[i] == text[i] as u8);
        if i < key.len() {
            assert(text[i] == key[i]);
        } else if i > key.len() {
            assert(text[i] == value[i - key.len() - 1]);
        }
    }
    lemma_utf8_concat(key + "="@, value);
    lemma_utf8_ascii(value);
    let prefix = utf8(key + "="@);
    assert(line_bytes(key, value) == prefix + utf8(value));
    assert(line_bytes(key, value).subrange(0, prefix.len() as int) =~= prefix);
    assert(line_bytes(key, value).subrange(
        prefix.len() as int,
        line_bytes(key, value).len() as int,
    ) =~= utf8(value));
}

proof fn lemma_number_line(key: Seq<char>, value: u64)
    requires
        vstd::utf8::is_ascii_chars(key),
        !key.contains('\n'),
    ensures
        utf8(record_line(key, decimal_text(value as nat))) == line_bytes(
            key,
            decimal_text(value as nat),
        ).push(10),
        !line_bytes(key, decimal_text(value as nat)).contains(10),
        field_value(line_bytes(key, decimal_text(value as nat)), key) == Some(
            utf8(decimal_text(value as nat)),
        ),
{
    let text = decimal_text(value as nat);
    lemma_decimal_text(value as nat);
    lemma_utf8_ascii(text);
    let digits = utf8(text);
    assert forall|i: int| 0 <= i < text.len() implies text[i] != '\n' by {
        assert(digits[i] == text[i] as u8);
        assert(crate::notation::is_digit(digits[i]));
    }
    lemma_line(key, text);
}

/// The lines of a record that can be written.
spec fn written_lines(record: AuthorityView) -> Seq<Seq<u8>> {
    seq![
        line_bytes("version"@, "1"@),
        line_bytes("path"@, hex_text(record.canonical)),
        line_bytes("dev"@, decimal_text(record.identity.dev as nat)),
        line_bytes("ino"@, decimal_text(record.identity.ino as nat)),
        line_bytes("uid"@, decimal_text(record.identity.uid as nat)),
        line_bytes("mode"@, decimal_text(record.identity.mode as nat)),
        line_bytes("object"@, record.object_format),
        line_bytes("ref"@, record.ref_format),
    ]
}

/// The values of a record that can be written.
spec fn written_values(record: AuthorityView) -> Seq<Seq<u8>> {
    seq![
        utf8("1"@),
        utf8(hex_text(record.canonical)),
        utf8(decimal_text(record.identity.dev as nat)),
        utf8(decimal_text(record.identity.ino as nat)),
        utf8(decimal_text(record.identity.uid as nat)),
        utf8(decimal_text(record.identity.mode as nat)),
        utf8(record.object_format),
        utf8(record.ref_format),
    ]
}

proof fn lemma_path_line(path: Seq<u8>)
    requires
        path.len() > 0,
    ensures
        utf8(record_line("path"@, hex_text(path))) == line_bytes("path"@, hex_text(path)).push(10),
        !line_bytes("path"@, hex_text(path)).contains(10),
        field_value(line_bytes("path"@, hex_text(path)), "path"@) == Some(utf8(hex_text(path))),
{
    reveal_strlit("path");
    let text = hex_text(path);
    lemma_hex_text(path);
    lemma_utf8_ascii(text);
    assert forall|i: int| 0 <= i < text.len() implies text[i] != '\n' by {
        assert(utf8(text)[i] == text[i] as u8);
        assert(is_lower_hex(utf8(text)[i]));
    }
    lemma_line("path"@, text);
}

proof fn lemma_format_lines(record: AuthorityView)
    requires
        writable(record),
    ensures
        utf8(record_line("version"@, "1"@)) == line_bytes("version"@, "1"@).push(10),
        !line_bytes("version"@, "1"@).contains(10),
        field_value(line_bytes("version"@, "1"@), "version"@) == Some(utf8("1"@)),
        utf8(record_line("object"@, record.object_format)) == line_bytes(
            "object"@,
            record.object_format,
        ).push(10),
        !line_bytes("object"@, record.object_format).contains(10),
        field_value(line_bytes("object"@, record.object_format), "object"@) == Some(
            utf8(record.object_format),
        ),
        utf8(record_line("ref"@, record.ref_format)) == line_bytes(
            "ref"@,
            record.ref_format,
        ).push(10),
        !line_bytes("ref"@, record.ref_format).contains(10),
        field_value(line_bytes("ref"@, record.ref_format), "ref"@) == Some(
            utf8(record.ref_format),
        ),
{
    reveal_strlit("version");
    reveal_strlit("1");
    reveal_strlit("object");
    reveal_strlit("ref");
    reveal_strlit("sha1");
    reveal_strlit("sha256");
    reveal_strlit("files");
    reveal_strlit("reftable");
    lemma_line("version"@, "1"@);
    lemma_line("object"@, record.object_format);
    lemma_line("ref"@, record.ref_format);
}

/// Eight lines whose values are known, each ended by a newline, are read as those lines and values.
proof fn lemma_lines_read(bytes: Seq<u8>, lines: Seq<Seq<u8>>, values: Seq<Seq<u8>>)
    requires
        lines.len() == 8,
        values.len() == 8,
        bytes == crate::bytes::ended(lines, 10),
        forall|i: int| 0 <= i < lines.len() ==> !(#[trigger] lines[i]).contains(10),
        field_value(lines[0], "version"@) == Some(values[0]),
        field_value(lines[1], "path"@) == Some(values[1]),
        field_value(lines[2], "dev"@) == Some(values[2]),
        field_value(lines[3], "ino"@) == Some(values[3]),
        field_value(lines[4], "uid"@) == Some(values[4]),
        field_value(lines[5], "mode"@) == Some(values[5]),
        field_value(lines[6], "object"@) == Some(values[6]),
        field_value(lines[7], "ref"@) == Some(values[7]),
    ensures
        record_lines(bytes) == lines,
        utf8("\n"@).is_suffix_of(bytes),
        lines_failure(lines) is None,
        record_values(lines) == values,
{
    crate::bytes::lemma_split_ended(lines, 10);
    assert(utf8("\n"@) =~= seq![10u8]) by {
        reveal_strlit("\n");
        assert(vstd::utf8::is_ascii_chars("\n"@));
        lemma_utf8_ascii("\n"@);
    }
    assert(bytes.subrange(bytes.len() - 1, bytes.len() as int) =~= seq![10u8]);
    assert(without_suffix(bytes, utf8("\n"@))->0 =~= bytes.drop_last());
    assert(record_values(lines) =~= values);
}

/// A number that was written is read back.
proof fn lemma_number_reads(value: u64, limit: u64)
    requires
        value <= limit,
    ensures
        number_value(utf8(decimal_text(value as nat)), limit) == Some(value),
{
    lemma_decimal_text(value as nat);
    lemma_utf8_ascii(decimal_text(value as nat));
    let digits = utf8(decimal_text(value as nat));
    assert(crate::notation::is_digit(digits[0]));
}

/// A line of a record that can be written, and what is read of it.
spec fn line_reads(key: Seq<char>, text: Seq<char>) -> bool {
    &&& utf8(record_line(key, text)) == line_bytes(key, text).push(10)
    &&& !line_bytes(key, text).contains(10)
    &&& field_value(line_bytes(key, text), key) == Some(utf8(text))
}

proof fn lemma_all_lines_read(record: AuthorityView)
    requires
        writable(record),
    ensures
        line_reads("version"@, "1"@),
        line_reads("path"@, hex_text(record.canonical)),
        line_reads("dev"@, decimal_text(record.identity.dev as nat)),
        line_reads("ino"@, decimal_text(record.identity.ino as nat)),
        line_reads("uid"@, decimal_text(record.identity.uid as nat)),
        line_reads("mode"@, decimal_text(record.identity.mode as nat)),
        line_reads("object"@, record.object_format),
        line_reads("ref"@, record.ref_format),
{
    assert(line_reads("version"@, "1"@) && line_reads("object"@, record.object_format)
        && line_reads("ref"@, record.ref_format)) by {
        lemma_format_lines(record);
    }
    assert(line_reads("path"@, hex_text(record.canonical))) by {
        lemma_path_line(record.canonical);
    }
    assert(line_reads("dev"@, decimal_text(record.identity.dev as nat))) by {
        reveal_strlit("dev");
        lemma_number_line("dev"@, record.identity.dev);
    }
    assert(line_reads("ino"@, decimal_text(record.identity.ino as nat))) by {
        reveal_strlit("ino");
        lemma_number_line("ino"@, record.identity.ino);
    }
    assert(line_reads("uid"@, decimal_text(record.identity.uid as nat))) by {
        reveal_strlit("uid");
        lemma_number_line("uid"@, record.identity.uid as u64);
    }
    assert(line_reads("mode"@, decimal_text(record.identity.mode as nat))) by {
        reveal_strlit("mode");
        lemma_number_line("mode"@, record.identity.mode as u64);
    }
}

#[verifier::spinoff_prover]
proof fn lemma_written_lines(record: AuthorityView)
    requires
        writable(record),
    ensures
        record_lines(utf8(record_text(record))) == written_lines(record),
        utf8("\n"@).is_suffix_of(utf8(record_text(record))),
        lines_failure(written_lines(record)) is None,
        record_values(written_lines(record)) == written_values(record),
{
    let lines = written_lines(record);
    let values = written_values(record);
    lemma_all_lines_read(record);
    lemma_record_bytes(record, lines);
    assert forall|i: int| 0 <= i < lines.len() implies !(#[trigger] lines[i]).contains(10) by {
        assert(i == 0 || i == 1 || i == 2 || i == 3 || i == 4 || i == 5 || i == 6 || i == 7);
    }
    lemma_lines_read(utf8(record_text(record)), lines, values);
}

/// Values that are all as they should be give a record.
proof fn lemma_values_read(values: Seq<Seq<u8>>, record: AuthorityView)
    requires
        values.len() == 8,
        writable(record),
        values[0] == utf8("1"@),
        values[1].len() % 2 == 0,
        all_lower_hex(values[1]),
        unhex(values[1]) == record.canonical,
        number_value(values[2], u64::MAX) == Some(record.identity.dev),
        number_value(values[3], u64::MAX) == Some(record.identity.ino),
        number_value(values[4], u32::MAX as u64) == Some(record.identity.uid as u64),
        number_value(values[5], u32::MAX as u64) == Some(record.identity.mode as u64),
        values[6] == utf8(record.object_format),
        values[7] == utf8(record.ref_format),
    ensures
        values_failure(values) is None,
        record_of(values) == record,
{
    vstd::utf8::encode_utf8_decode_utf8(record.object_format);
    vstd::utf8::encode_utf8_decode_utf8(record.ref_format);
    vstd::utf8::encode_utf8_valid_utf8(record.object_format);
    vstd::utf8::encode_utf8_valid_utf8(record.ref_format);
    assert(record_of(values).identity == record.identity);
}

/// What a record says when it is read is what was written: a record that can be written is read back
/// without an error, and every field is the same.
pub proof fn law_record_round_trip(record: AuthorityView)
    requires
        writable(record),
    ensures
        record_failure(utf8(record_text(record))) is None,
        record_of(record_values(record_lines(utf8(record_text(record))))) == record,
{
    let values = written_values(record);
    assert(values_failure(values) is None && record_of(values) == record) by {
        lemma_number_reads(record.identity.dev, u64::MAX);
        lemma_number_reads(record.identity.ino, u64::MAX);
        lemma_number_reads(record.identity.uid as u64, u32::MAX as u64);
        lemma_number_reads(record.identity.mode as u64, u32::MAX as u64);
        lemma_hex_text(record.canonical);
        lemma_values_read(values, record);
    }
    lemma_written_lines(record);
    vstd::utf8::encode_utf8_valid_utf8(record_text(record));
    let lines = record_lines(utf8(record_text(record)));
    assert(lines.len() == 8);
}

proof fn lemma_record_bytes(record: AuthorityView, lines: Seq<Seq<u8>>)
    requires
        lines.len() == 8,
        utf8(record_line("version"@, "1"@)) == lines[0].push(10),
        utf8(record_line("path"@, hex_text(record.canonical))) == lines[1].push(10),
        utf8(record_line("dev"@, decimal_text(record.identity.dev as nat))) == lines[2].push(10),
        utf8(record_line("ino"@, decimal_text(record.identity.ino as nat))) == lines[3].push(10),
        utf8(record_line("uid"@, decimal_text(record.identity.uid as nat))) == lines[4].push(10),
        utf8(record_line("mode"@, decimal_text(record.identity.mode as nat))) == lines[5].push(10),
        utf8(record_line("object"@, record.object_format)) == lines[6].push(10),
        utf8(record_line("ref"@, record.ref_format)) == lines[7].push(10),
    ensures
        utf8(record_text(record)) == crate::bytes::ended(lines, 10),
{
    let t0 = record_line("version"@, "1"@);
    let t1 = record_line("path"@, hex_text(record.canonical));
    let t2 = record_line("dev"@, decimal_text(record.identity.dev as nat));
    let t3 = record_line("ino"@, decimal_text(record.identity.ino as nat));
    let t4 = record_line("uid"@, decimal_text(record.identity.uid as nat));
    let t5 = record_line("mode"@, decimal_text(record.identity.mode as nat));
    let t6 = record_line("object"@, record.object_format);
    let t7 = record_line("ref"@, record.ref_format);
    lemma_utf8_concat(t0, t1);
    lemma_utf8_concat(t0 + t1, t2);
    lemma_utf8_concat(t0 + t1 + t2, t3);
    lemma_utf8_concat(t0 + t1 + t2 + t3, t4);
    lemma_utf8_concat(t0 + t1 + t2 + t3 + t4, t5);
    lemma_utf8_concat(t0 + t1 + t2 + t3 + t4 + t5, t6);
    lemma_utf8_concat(t0 + t1 + t2 + t3 + t4 + t5 + t6, t7);
    assert(lines.subrange(1, 8).subrange(1, 7) =~= lines.subrange(2, 8));
    assert(lines.subrange(2, 8).subrange(1, 6) =~= lines.subrange(3, 8));
    assert(lines.subrange(3, 8).subrange(1, 5) =~= lines.subrange(4, 8));
    assert(lines.subrange(4, 8).subrange(1, 4) =~= lines.subrange(5, 8));
    assert(lines.subrange(5, 8).subrange(1, 3) =~= lines.subrange(6, 8));
    assert(lines.subrange(6, 8).subrange(1, 2) =~= lines.subrange(7, 8));
    assert(lines.subrange(7, 8).subrange(1, 1) =~= Seq::<Seq<u8>>::empty());
    reveal_with_fuel(crate::bytes::ended, 9);
    assert(utf8(record_text(record)) =~= crate::bytes::ended(lines, 10));
}

} // verus!
