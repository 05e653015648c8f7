//! Record files: reading one without being deceived, and replacing one atomically without moving
//! what somebody else put in its place.

use crate::authority::{
    failure, or_fail, parse_record, record_failure, record_lines, record_of, record_text,
    record_values, Error, Failure, Identity, Record, MAX_RECORD_BYTES,
};
use crate::bytes::{
    append, bytes_of, contains_byte, copy_bytes, ends_with, join2, join3, lemma_utf8_ascii,
    lemma_utf8_concat, same_bytes, utf8,
};
use crate::inspection::first_of;
use crate::notation::{all_digits, decimal_text, is_digit, lemma_decimal_text, to_decimal};
use vstd::prelude::*;
use vstd::slice::slice_subrange;
use vstd::string::StringExecFns;

verus! {

/// An owner-only record file.
pub open spec fn is_valid_record(identity: Identity, uid: u32) -> bool {
    &&& identity.is_regular()
    &&& identity.uid == uid
    &&& identity.mode == 0o600
    &&& identity.nlink == 1
}

/// A record file that nobody else can reach.
pub open spec fn is_private_record(identity: Identity, uid: u32) -> bool {
    &&& identity.is_regular()
    &&& identity.uid == uid
    &&& identity.mode & 0o077 == 0
    &&& identity.nlink == 1
}

pub fn valid_record(identity: Identity, uid: u32) -> (valid: bool)
    ensures
        valid == is_valid_record(identity, uid),
{
    identity.regular() && identity.uid == uid && identity.mode == 0o600 && identity.nlink == 1
}

pub fn valid_private_record(identity: Identity, uid: u32) -> (valid: bool)
    ensures
        valid == is_private_record(identity, uid),
{
    identity.regular() && identity.uid == uid && identity.mode & 0o077 == 0 && identity.nlink == 1
}

/// Every valid record is a private one.
pub proof fn law_valid_records_are_private(identity: Identity, uid: u32)
    requires
        is_valid_record(identity, uid),
    ensures
        is_private_record(identity, uid),
{
    assert(0o600u32 & 0o077 == 0) by (bit_vector);
}

/// A name that stands for one entry of a directory.
pub open spec fn is_basename(name: Seq<u8>) -> bool {
    &&& name.len() > 0
    &&& name != seq![46u8]
    &&& name != seq![46u8, 46u8]
    &&& !name.contains(47)
}

/// Why a name cannot be handed to the system.
pub open spec fn basename_failure(name: Seq<u8>, label: Seq<char>, code: Seq<char>) -> Option<
    Failure,
> {
    let f = or_fail(None, is_basename(name), code, "invalid "@ + label + " basename"@);
    or_fail(f, !name.contains(0), code, "invalid "@ + label + " bytes"@)
}

pub fn check_basename(name: &[u8], label: &str, code: &'static str) -> (checked: Result<(), Error>)
    ensures
        failure(checked) == basename_failure(name@, label@, code@),
{
    let dot: bool = name.len() == 1 && name[0] == 46;
    let dots: bool = name.len() == 2 && name[0] == 46 && name[1] == 46;
    proof {
        if name@.len() == 1 && name@[0] == 46 {
            assert(name@ =~= seq![46u8]);
        }
        if name@.len() == 2 && name@[0] == 46 && name@[1] == 46 {
            assert(name@ =~= seq![46u8, 46u8]);
        }
    }
    if name.len() == 0 || dot || dots || contains_byte(name, 47) {
        return Err(Error::new(code, join3("invalid ", label, " basename").as_str()));
    }
    if contains_byte(name, 0) {
        return Err(Error::new(code, join3("invalid ", label, " bytes").as_str()));
    }
    Ok(())
}

pub fn cstring(name: &[u8], label: &str) -> (checked: Result<(), Error>)
    ensures
        failure(checked) == basename_failure(name@, label@, "STATE_CORRUPT"@),
{
    check_basename(name, label, "STATE_CORRUPT")
}

/// The bytes of a record file and what file they stand in.
#[derive(Debug)]
pub struct RecordBinding {
    pub bytes: Vec<u8>,
    pub identity: Identity,
}

impl View for RecordBinding {
    type V = (Seq<u8>, Identity);

    open spec fn view(&self) -> (Seq<u8>, Identity) {
        (self.bytes@, self.identity)
    }
}

impl RecordBinding {
    pub fn same(&self, other: &Self) -> (same: bool)
        ensures
            same == (self@ == other@),
    {
        self.identity == other.identity && same_bytes(self.bytes.as_slice(), other.bytes.as_slice())
    }

    pub fn copy(&self) -> (same: Self)
        ensures
            same@ == self@,
    {
        RecordBinding { bytes: copy_bytes(self.bytes.as_slice()), identity: self.identity }
    }
}

/// The file that was opened is the one that is still open and still stands under its name.
pub open spec fn binding_holds(opened: Identity, descriptor: Identity, entry: Identity) -> bool {
    opened == descriptor && descriptor == entry
}

pub fn record_binding_matches(opened: Identity, descriptor: Identity, final_entry: Identity) -> (same:
    bool)
    ensures
        same == binding_holds(opened, descriptor, final_entry),
{
    opened == descriptor && descriptor == final_entry
}

/// What is seen of a record file while it is read: its entry, the opened file, its bytes, and both
/// again. Where it cannot be opened, `opened` holds that error; where the opened file cannot be
/// looked at, the inner one.
#[derive(Debug)]
pub struct FileReads {
    pub before: Result<Identity, Error>,
    pub opened: Result<Result<Identity, Error>, Error>,
    pub bytes: Result<Vec<u8>, String>,
    pub descriptor: Result<Identity, Error>,
    pub entry: Result<Identity, Error>,
}

pub open spec fn seen_identity(seen: Result<Result<Identity, Error>, Error>) -> Identity {
    seen->Ok_0->Ok_0
}

pub open spec fn opened_failure(opened: Result<Result<Identity, Error>, Error>) -> Option<Failure> {
    match opened {
        Err(error) => Some(error@),
        Ok(inner) => failure(inner),
    }
}

/// Why a file binding cannot be taken.
pub open spec fn binding_failure(name: Seq<u8>, seen: FileReads, limit: usize, uid: u32) -> Option<
    Failure,
> {
    let code = "STATE_CORRUPT"@;
    let f = basename_failure(name, "record"@, code);
    let f = first_of(f, failure(seen.before));
    let before = seen.before->Ok_0;
    let f = or_fail(
        f,
        is_valid_record(before, uid) || is_private_record(before, uid),
        code,
        "record is not an owner-only regular file"@,
    );
    let f = first_of(f, opened_failure(seen.opened));
    let opened = seen_identity(seen.opened);
    let f = or_fail(f, opened == before, code, "record changed while opening"@);
    let f = first_of(
        f,
        crate::inspection::observed_failure(seen.bytes, code, "cannot read record"@),
    );
    let f = or_fail(f, seen.bytes->Ok_0@.len() <= limit, code, "record exceeds the limit"@);
    let f = first_of(f, failure(seen.descriptor));
    let f = first_of(f, failure(seen.entry));
    or_fail(
        f,
        binding_holds(opened, seen.descriptor->Ok_0, seen.entry->Ok_0),
        code,
        "record binding changed while reading"@,
    )
}

fn opened_identity(opened: Result<Result<Identity, Error>, Error>) -> (identity: Result<Identity, Error>)
    ensures
        failure(identity) == opened_failure(opened),
        identity matches Ok(identity) ==> identity == seen_identity(opened),
{
    match opened {
        Err(error) => Err(error),
        Ok(inner) => inner,
    }
}

/// Judges the reads of a record file of at most `limit` bytes.
pub fn read_file_binding(name: &[u8], seen: FileReads, limit: usize, uid: u32) -> (binding: Result<
    RecordBinding,
    Error,
>)
    ensures
        failure(binding) == binding_failure(name@, seen, limit, uid),
        binding matches Ok(binding) ==> binding@ == (seen.bytes->Ok_0@, seen.entry->Ok_0),
{
    let FileReads { before, opened, bytes, descriptor, entry } = seen;
    cstring(name, "record")?;
    let before: Identity = before?;
    if !valid_record(before, uid) && !valid_private_record(before, uid) {
        return Err(Error::new("STATE_CORRUPT", "record is not an owner-only regular file"));
    }
    let opened: Identity = opened_identity(opened)?;
    if opened != before {
        return Err(Error::new("STATE_CORRUPT", "record changed while opening"));
    }
    let bytes = match bytes {
        Ok(bytes) => bytes,
        Err(words) => return Err(Error::io("STATE_CORRUPT", "cannot read record", words.as_str())),
    };
    if bytes.len() > limit {
        return Err(Error::new("STATE_CORRUPT", "record exceeds the limit"));
    }
    let descriptor: Identity = descriptor?;
    let entry: Identity = entry?;
    if !record_binding_matches(opened, descriptor, entry) {
        return Err(Error::new("STATE_CORRUPT", "record binding changed while reading"));
    }
    Ok(RecordBinding { bytes, identity: entry })
}

/// A record file that may be absent: `None` where it is.
pub fn read_file_if_present(
    name: &[u8],
    present: Result<bool, String>,
    seen: FileReads,
    limit: usize,
    uid: u32,
) -> (bytes: Result<Option<Vec<u8>>, Error>)
    ensures
        ({
            let f = basename_failure(name@, "record"@, "STATE_CORRUPT"@);
            let f = first_of(
                f,
                crate::inspection::observed_failure(
                    present,
                    "STATE_UNAVAILABLE"@,
                    "cannot inspect record"@,
                ),
            );
            if f is Some {
                failure(bytes) == f
            } else if !present->Ok_0 {
                bytes == Ok::<Option<Vec<u8>>, Error>(None)
            } else {
                &&& failure(bytes) == binding_failure(name@, seen, limit, uid)
                &&& bytes matches Ok(bytes) ==> bytes matches Some(bytes) && bytes@
                    == seen.bytes->Ok_0@
            }
        }),
{
    cstring(name, "record")?;
    match present {
        Err(words) => Err(
            Error::io("STATE_UNAVAILABLE", "cannot inspect record", words.as_str()),
        ),
        Ok(false) => Ok(None),
        Ok(true) => match read_file_binding(name, seen, limit, uid) {
            Ok(binding) => Ok(Some(binding.bytes)),
            Err(error) => Err(error),
        },
    }
}

/// A failure that is told in fixed words whatever it was.
pub open spec fn retold<T>(seen: Result<T, Error>, code: Seq<char>, detail: Seq<char>) -> Option<
    Failure,
> {
    match seen {
        Ok(_) => None,
        Err(_) => Some((code, detail)),
    }
}

/// Why an authority record cannot be read.
pub open spec fn authority_read_failure(name: Seq<u8>, seen: FileReads, uid: u32) -> Option<Failure> {
    let code = "STATE_CORRUPT"@;
    let f = basename_failure(name, "record"@, code);
    let f = first_of(f, failure(seen.before));
    let before = seen.before->Ok_0;
    let f = or_fail(
        f,
        is_valid_record(before, uid),
        code,
        "state record is not an owner-only regular file"@,
    );
    let f = first_of(f, failure(seen.opened));
    let f = first_of(
        f,
        retold(seen.opened->Ok_0, code, "cannot stat opened state record"@),
    );
    let opened = seen_identity(seen.opened);
    let f = or_fail(
        f,
        opened == before && is_valid_record(opened, uid),
        code,
        "state record changed while opening"@,
    );
    let f = first_of(
        f,
        crate::inspection::observed_failure(seen.bytes, code, "cannot read state record"@),
    );
    let bytes = seen.bytes->Ok_0@;
    let f = or_fail(
        f,
        bytes.len() <= MAX_RECORD_BYTES,
        code,
        "state record exceeds the limit"@,
    );
    let f = first_of(f, record_failure(bytes));
    let f = or_fail(
        f,
        utf8(record_text(record_of(record_values(record_lines(bytes))))) == bytes,
        code,
        "state record is not canonically encoded"@,
    );
    let f = first_of(f, retold(seen.descriptor, code, "cannot restat opened state record"@));
    let f = first_of(f, retold(seen.entry, code, "cannot restat state record basename"@));
    or_fail(
        f,
        binding_holds(opened, seen.descriptor->Ok_0, seen.entry->Ok_0),
        code,
        "state record binding changed while reading"@,
    )
}

/// Judges the reads of an authority record.
pub fn read_record_at(name: &[u8], seen: FileReads, uid: u32) -> (record: Result<Record, Error>)
    ensures
        failure(record) == authority_read_failure(name@, seen, uid),
        record matches Ok(record) ==> record@ == record_of(
            record_values(record_lines(seen.bytes->Ok_0@)),
        ) && utf8(record_text(record@)) == seen.bytes->Ok_0@,
{
    let FileReads { before, opened, bytes, descriptor, entry } = seen;
    cstring(name, "record")?;
    let before: Identity = before?;
    if !valid_record(before, uid) {
        return Err(Error::new("STATE_CORRUPT", "state record is not an owner-only regular file"));
    }
    let opened: Identity = match opened? {
        Ok(opened) => opened,
        Err(_) => return Err(Error::new("STATE_CORRUPT", "cannot stat opened state record")),
    };
    if opened != before || !valid_record(opened, uid) {
        return Err(Error::new("STATE_CORRUPT", "state record changed while opening"));
    }
    let bytes = match bytes {
        Ok(bytes) => bytes,
        Err(words) => return Err(
            Error::io("STATE_CORRUPT", "cannot read state record", words.as_str()),
        ),
    };
    if bytes.len() > MAX_RECORD_BYTES {
        return Err(Error::new("STATE_CORRUPT", "state record exceeds the limit"));
    }
    let record = parse_record(bytes.as_slice())?;
    if !same_bytes(record.encode().as_slice(), bytes.as_slice()) {
        return Err(Error::new("STATE_CORRUPT", "state record is not canonically encoded"));
    }
    let descriptor: Identity = match descriptor {
        Ok(descriptor) => descriptor,
        Err(_) => return Err(Error::new("STATE_CORRUPT", "cannot restat opened state record")),
    };
    let entry: Identity = match entry {
        Ok(entry) => entry,
        Err(_) => return Err(Error::new("STATE_CORRUPT", "cannot restat state record basename")),
    };
    if !record_binding_matches(opened, descriptor, entry) {
        return Err(Error::new("STATE_CORRUPT", "state record binding changed while reading"));
    }
    Ok(record)
}

/// How a rename ended.
#[derive(Debug)]
pub enum RenameEvent {
    Done,
    /// It was interrupted, and whether it happened is not known.
    Interrupted(String),
    /// Something already stands under the new name.
    Exists(String),
    Failed(String),
}

/// Whether a rename may or may not have happened.
pub fn rename_result_is_unknown(event: &RenameEvent) -> (unknown: bool)
    ensures
        unknown == (event is Interrupted),
{
    match event {
        RenameEvent::Interrupted(_) => true,
        _ => false,
    }
}

/// A temporary record may be removed only while it is the file that was made.
pub open spec fn unlink_failure(current: Result<Identity, Error>, expected: Identity, uid: u32) -> Option<
    Failure,
> {
    let f = failure(current);
    or_fail(
        f,
        current->Ok_0 == expected && is_private_record(expected, uid),
        "STATE_CLEANUP_FAILED"@,
        "temporary record identity changed before cleanup"@,
    )
}

pub fn unlink_capability(current: Result<Identity, Error>, expected: Identity, uid: u32) -> (allowed: Result<
    (),
    Error,
>)
    ensures
        failure(allowed) == unlink_failure(current, expected, uid),
{
    let current: Identity = current?;
    if current != expected || !valid_private_record(current, uid) {
        return Err(
            Error::new("STATE_CLEANUP_FAILED", "temporary record identity changed before cleanup"),
        );
    }
    Ok(())
}

/// The name under which a record is written before it takes its place.
pub fn temporary_name(basename: &str, process: u64, serial: u64) -> (name: Vec<u8>)
    ensures
        name@ == utf8(
            "."@ + basename@ + "-"@ + decimal_text(process as nat) + "-"@ + decimal_text(
                serial as nat,
            ) + ".tmp"@,
        ),
{
    let mut text = join3(".", basename, "-");
    text.append(to_decimal(process).as_str());
    text.append("-");
    text.append(to_decimal(serial).as_str());
    text.append(".tmp");
    bytes_of(text.as_str())
}

/// A name under which the record `base` is written before it takes its place: a dot, the name of
/// the record, the process and the serial number in digits, and the ending of a temporary.
pub open spec fn is_temporary_of(
    name: Seq<u8>,
    base: Seq<u8>,
    process: Seq<u8>,
    serial: Seq<u8>,
) -> bool {
    &&& name == seq![46u8] + base + seq![45u8] + process + seq![45u8] + serial + utf8(".tmp"@)
    &&& base.len() > 0
    &&& process.len() > 0 && all_digits(process)
    &&& serial.len() > 0 && all_digits(serial)
}

/// The name is that of a temporary of the record `base`.
pub open spec fn belongs_to(name: Seq<u8>, base: Seq<u8>) -> bool {
    exists|process: Seq<u8>, serial: Seq<u8>| is_temporary_of(name, base, process, serial)
}

/// Where the parts of a temporary's name stand in it.
proof fn lemma_temporary_parts(name: Seq<u8>, base: Seq<u8>, process: Seq<u8>, serial: Seq<u8>)
    requires
        is_temporary_of(name, base, process, serial),
    ensures
        utf8(".tmp"@).len() == 4,
        name.len() == base.len() + process.len() + serial.len() + 7,
        name[0] == 46,
        utf8(".tmp"@).is_suffix_of(name),
        base == name.subrange(1, (base.len() + 1) as int),
        name[(base.len() + 1) as int] == 45,
        forall|i: int|
            base.len() + 2 <= i < base.len() + 2 + process.len() ==> is_digit(#[trigger] name[i]),
        name[(base.len() + process.len() + 2) as int] == 45,
        forall|i: int|
            base.len() + process.len() + 3 <= i < name.len() - 4 ==> is_digit(#[trigger] name[i]),
{
    reveal_strlit(".tmp");
    lemma_utf8_ascii(".tmp"@);
    let tail = utf8(".tmp"@);
    assert(name.subrange(name.len() - 4, name.len() as int) =~= tail);
    assert(base =~= name.subrange(1, (base.len() + 1) as int));
    assert forall|i: int| base.len() + 2 <= i < base.len() + 2 + process.len() implies is_digit(
        #[trigger] name[i],
    ) by {
        assert(name[i] == process[i - base.len() - 2]);
    }
    assert forall|i: int|
        base.len() + process.len() + 3 <= i < name.len() - 4 implies is_digit(
        #[trigger] name[i],
    ) by {
        assert(name[i] == serial[i - base.len() - process.len() - 3]);
    }
}

/// A temporary belongs to one record: its name can be read in one way only.
pub proof fn law_temporaries_have_one_owner(
    name: Seq<u8>,
    base: Seq<u8>,
    process: Seq<u8>,
    serial: Seq<u8>,
    other_base: Seq<u8>,
    other_process: Seq<u8>,
    other_serial: Seq<u8>,
)
    requires
        is_temporary_of(name, base, process, serial),
        is_temporary_of(name, other_base, other_process, other_serial),
    ensures
        base == other_base,
        process == other_process,
        serial == other_serial,
{
    lemma_temporary_parts(name, base, process, serial);
    lemma_temporary_parts(name, other_base, other_process, other_serial);
    let second = (base.len() + process.len() + 2) as int;
    let other_second = (other_base.len() + other_process.len() + 2) as int;
    if second < other_second {
        assert(is_digit(name[other_second]));
    }
    if other_second < second {
        assert(is_digit(name[second]));
    }
    let first = (base.len() + 1) as int;
    let other_first = (other_base.len() + 1) as int;
    if first < other_first {
        assert(is_digit(name[other_first]));
    }
    if other_first < first {
        assert(is_digit(name[first]));
    }
    assert(process =~= name.subrange(first + 1, second));
    assert(other_process =~= name.subrange(first + 1, second));
    assert(serial =~= name.subrange(second + 1, name.len() - 4));
    assert(other_serial =~= name.subrange(second + 1, name.len() - 4));
}

/// The name that a record is written under first is a temporary of that record.
pub proof fn law_temporary_names_are_owned(basename: Seq<char>, process: u64, serial: u64)
    requires
        basename.len() > 0,
    ensures
        is_temporary_of(
            utf8(
                "."@ + basename + "-"@ + decimal_text(process as nat) + "-"@ + decimal_text(
                    serial as nat,
                ) + ".tmp"@,
            ),
            utf8(basename),
            utf8(decimal_text(process as nat)),
            utf8(decimal_text(serial as nat)),
        ),
{
    let first = "."@ + basename;
    let second = first + "-"@;
    let third = second + decimal_text(process as nat);
    let fourth = third + "-"@;
    let fifth = fourth + decimal_text(serial as nat);
    lemma_utf8_concat(fifth, ".tmp"@);
    lemma_utf8_concat(fourth, decimal_text(serial as nat));
    lemma_utf8_concat(third, "-"@);
    lemma_utf8_concat(second, decimal_text(process as nat));
    lemma_utf8_concat(first, "-"@);
    lemma_utf8_concat("."@, basename);
    lemma_decimal_text(process as nat);
    lemma_decimal_text(serial as nat);
    lemma_utf8_ascii(decimal_text(process as nat));
    lemma_utf8_ascii(decimal_text(serial as nat));
    reveal_strlit(".");
    reveal_strlit("-");
    lemma_utf8_ascii("."@);
    lemma_utf8_ascii("-"@);
    assert(utf8("."@) =~= seq![46u8]);
    assert(utf8("-"@) =~= seq![45u8]);
    assert(utf8(basename).len() > 0) by {
        let head = vstd::utf8::encode_scalar(basename[0] as u32);
        assert(utf8(basename) == head + utf8(basename.drop_first()));
    }
}

/// Where the digits begin that end at `end`.
fn digits_before(bytes: &[u8], end: usize) -> (start: usize)
    requires
        end <= bytes@.len(),
    ensures
        start <= end,
        forall|i: int| start <= i < end ==> is_digit(#[trigger] bytes@[i]),
        start > 0 ==> !is_digit(bytes@[start - 1]),
{
    let mut start: usize = end;
    while start > 0 && 48 <= bytes[start - 1] && bytes[start - 1] <= 57
        invariant
            start <= end <= bytes@.len(),
            forall|i: int| start <= i < end ==> is_digit(#[trigger] bytes@[i]),
        decreases start,
    {
        start = start - 1;
    }
    start
}

/// The record whose temporary has this name, where it is the name of one.
pub fn temporary_owner(name: &[u8]) -> (owner: Option<Vec<u8>>)
    ensures
        match owner {
            Some(base) => belongs_to(name@, base@),
            None => forall|base: Seq<u8>| !belongs_to(name@, base),
        },
{
    proof {
        reveal_strlit(".tmp");
        lemma_utf8_ascii(".tmp"@);
        assert forall|base: Seq<u8>, process: Seq<u8>, serial: Seq<u8>|
            is_temporary_of(name@, base, process, serial) implies {
            &&& name@.len() >= 10
            &&& name@[0] == 46
            &&& utf8(".tmp"@).is_suffix_of(name@)
        } by {
            lemma_temporary_parts(name@, base, process, serial);
        }
    }
    let tail = bytes_of(".tmp");
    if name.len() < 10 || name[0] != 46 || !ends_with(name, tail.as_slice()) {
        return None;
    }
    let end: usize = name.len() - 4;
    let serial_at: usize = digits_before(name, end);
    if serial_at == end || serial_at == 0 || name[serial_at - 1] != 45 {
        proof {
            assert forall|base: Seq<u8>, process: Seq<u8>, serial: Seq<u8>|
                !is_temporary_of(name@, base, process, serial) by {
                if is_temporary_of(name@, base, process, serial) {
                    lemma_temporary_parts(name@, base, process, serial);
                    lemma_last_digits(name@, base, process, serial, serial_at as int);
                }
            }
        }
        return None;
    }
    let process_end: usize = serial_at - 1;
    let process_at: usize = digits_before(name, process_end);
    if process_at == process_end || process_at < 3 || name[process_at - 1] != 45 {
        proof {
            assert forall|base: Seq<u8>, process: Seq<u8>, serial: Seq<u8>|
                !is_temporary_of(name@, base, process, serial) by {
                if is_temporary_of(name@, base, process, serial) {
                    lemma_temporary_parts(name@, base, process, serial);
                    lemma_last_digits(name@, base, process, serial, serial_at as int);
                    let first = (base.len() + 1) as int;
                    if process_at <= first {
                        assert(is_digit(name@[first]));
                    }
                    if first + 1 < process_at {
                        assert(is_digit(name@[process_at - 1]));
                    }
                }
            }
        }
        return None;
    }
    let base = copy_bytes(slice_subrange(name, 1, process_at - 1));
    proof {
        let process = name@.subrange(process_at as int, process_end as int);
        let serial = name@.subrange(serial_at as int, end as int);
        assert(name@ =~= seq![46u8] + base@ + seq![45u8] + process + seq![45u8] + serial + utf8(
            ".tmp"@,
        )) by {
            assert(name@.subrange(end as int, name@.len() as int) =~= utf8(".tmp"@));
        }
        assert(is_temporary_of(name@, base@, process, serial));
    }
    Some(base)
}

/// The last digits of a temporary's name are its serial number.
proof fn lemma_last_digits(
    name: Seq<u8>,
    base: Seq<u8>,
    process: Seq<u8>,
    serial: Seq<u8>,
    start: int,
)
    requires
        is_temporary_of(name, base, process, serial),
        0 <= start <= name.len() - 4,
        forall|i: int| start <= i < name.len() - 4 ==> is_digit(#[trigger] name[i]),
        start > 0 ==> !is_digit(name[start - 1]),
    ensures
        start == base.len() + process.len() + 3,
{
    lemma_temporary_parts(name, base, process, serial);
    let second = (base.len() + process.len() + 2) as int;
    if start <= second {
        assert(is_digit(name[second]));
    }
    if second + 1 < start {
        assert(is_digit(name[start - 1]));
    }
}

/// Whether the record that was read under `name`, and whose name was seen again as `entry`, may be
/// removed: its bytes must be the ones that are given up, and the name must still be bound to the
/// file that was read.
pub fn remove_record(
    read: Result<RecordBinding, Error>,
    name: &[u8],
    entry: Result<Identity, Error>,
    expected: &[u8],
    uid: u32,
) -> (allowed: Result<Identity, Error>)
    ensures
        failure(allowed) == first_of(
            or_fail(
                failure(read),
                read->Ok_0.bytes@ == expected@,
                "STATE_CORRUPT"@,
                "state record bytes changed before removal"@,
            ),
            first_of(
                basename_failure(name@, "record"@, "STATE_CORRUPT"@),
                unlink_failure(entry, read->Ok_0.identity, uid),
            ),
        ),
        allowed matches Ok(identity) ==> identity == read->Ok_0.identity,
{
    let read = read?;
    if !same_bytes(read.bytes.as_slice(), expected) {
        return Err(Error::new("STATE_CORRUPT", "state record bytes changed before removal"));
    }
    cstring(name, "record")?;
    unlink_capability(entry, read.identity, uid)?;
    Ok(read.identity)
}

/// A removal counts once the name is gone and the directory that held it is synced.
pub fn removed_record(unlinked: Result<(), String>, synced: Result<(), String>) -> (removed: Result<
    (),
    Error,
>)
    ensures
        failure(removed) == match (unlinked, synced) {
            (Err(words), _) => Some(
                ("STATE_CLEANUP_FAILED"@, "cannot remove temporary record"@ + ": "@ + words@),
            ),
            (_, Err(words)) => Some(
                (
                    "STATE_COMMITTED_UNSYNCED"@,
                    "cannot sync state record parent directory"@ + ": "@ + words@,
                ),
            ),
            _ => None,
        },
{
    match unlinked {
        Err(words) => {
            return Err(
                Error::io(
                    "STATE_CLEANUP_FAILED",
                    "cannot remove temporary record",
                    words.as_str(),
                ),
            );
        },
        Ok(_) => {},
    }
    match synced {
        Err(words) => Err(
            Error::io(
                "STATE_COMMITTED_UNSYNCED",
                "cannot sync state record parent directory",
                words.as_str(),
            ),
        ),
        Ok(_) => Ok(()),
    }
}

/// The bytes that are to be replaced must be the ones that stand there.
pub fn expect_bytes(current: Result<RecordBinding, Error>, expected: &[u8]) -> (binding: Result<
    RecordBinding,
    Error,
>)
    ensures
        failure(binding) == or_fail(
            failure(current),
            current->Ok_0.bytes@ == expected@,
            "STATE_CORRUPT"@,
            "state record bytes changed before its atomic replacement"@,
        ),
        binding matches Ok(binding) ==> current is Ok && binding@ == current->Ok_0@,
{
    let current = current?;
    if !same_bytes(current.bytes.as_slice(), expected) {
        return Err(
            Error::new(
                "STATE_CORRUPT",
                "state record bytes changed before its atomic replacement",
            ),
        );
    }
    Ok(current)
}

/// A temporary record that was just made must be owner-only before anything is written to it.
pub fn protect_temporary(protected: Result<(), String>, identity: Result<Identity, Error>, uid: u32) -> (made: Result<
    Identity,
    Error,
>)
    ensures
        failure(made) == or_fail(
            first_of(
                crate::inspection::observed_failure(
                    protected,
                    "STATE_UNAVAILABLE"@,
                    "cannot protect temporary state record"@,
                ),
                failure(identity),
            ),
            is_valid_record(identity->Ok_0, uid),
            "STATE_UNAVAILABLE"@,
            "temporary state record is not owner-only"@,
        ),
        made matches Ok(made) ==> identity is Ok && made == identity->Ok_0,
{
    if let Err(words) = protected {
        return Err(
            Error::io("STATE_UNAVAILABLE", "cannot protect temporary state record", words.as_str()),
        );
    }
    let identity: Identity = identity?;
    if !valid_record(identity, uid) {
        return Err(Error::new("STATE_UNAVAILABLE", "temporary state record is not owner-only"));
    }
    Ok(identity)
}

/// A temporary record that was written must still be the file that was made.
pub fn written_temporary(
    written: Result<(), String>,
    after: Result<Identity, Error>,
    made: Identity,
) -> (complete: Result<(), Error>)
    ensures
        failure(complete) == or_fail(
            first_of(
                crate::inspection::observed_failure(
                    written,
                    "STATE_UNAVAILABLE"@,
                    "cannot write temporary state record"@,
                ),
                failure(after),
            ),
            after->Ok_0 == made,
            "STATE_UNAVAILABLE"@,
            "temporary state record descriptor changed before commit"@,
        ),
{
    if let Err(words) = written {
        return Err(
            Error::io("STATE_UNAVAILABLE", "cannot write temporary state record", words.as_str()),
        );
    }
    let after: Identity = after?;
    if after != made {
        return Err(
            Error::new(
                "STATE_UNAVAILABLE",
                "temporary state record descriptor changed before commit",
            ),
        );
    }
    Ok(())
}

/// Which file is removed when a transaction is given up before its temporary record was identified:
/// the one that is open, if nobody else can reach it.
pub fn abort_unidentified(descriptor: Option<Result<Identity, Error>>, uid: u32) -> (identity: Result<
    Identity,
    Error,
>)
    ensures
        match descriptor {
            None => failure(identity) == Some(
                (
                    "STATE_CLEANUP_FAILED"@,
                    "temporary state record descriptor vanished before cleanup"@,
                ),
            ),
            Some(Err(error)) => failure(identity) == Some(error@),
            Some(Ok(found)) => if is_private_record(found, uid) {
                identity == Ok::<Identity, Error>(found)
            } else {
                failure(identity) == Some(
                    (
                        "STATE_CLEANUP_FAILED"@,
                        "temporary state record was unsafe before cleanup"@,
                    ),
                )
            },
        },
{
    match descriptor {
        None => Err(
            Error::new(
                "STATE_CLEANUP_FAILED",
                "temporary state record descriptor vanished before cleanup",
            ),
        ),
        Some(Err(error)) => Err(error),
        Some(Ok(found)) => if valid_private_record(found, uid) {
            Ok(found)
        } else {
            Err(
                Error::new(
                    "STATE_CLEANUP_FAILED",
                    "temporary state record was unsafe before cleanup",
                ),
            )
        },
    }
}

/// Where a record transaction stands.
#[derive(Debug)]
pub enum TxnStage {
    /// The temporary record has to be looked at once more.
    Checking,
    /// The temporary record is moved to a name that must be free.
    Renaming,
    NewVerifying,
    NewSyncing,
    NewReverifying,
    /// The record that is to be replaced has to be looked at once more.
    OldChecking,
    /// The two records change places.
    Exchanging,
    Published,
    Displaced { published: bool },
    /// The replaced record, which now has the temporary name, is removed.
    Unlinking,
    ExchangeSyncing,
    ExchangeVerifying,
    RollbackFinal,
    RollbackTemporary { owned: bool },
    /// The two records change places again.
    RollingBack,
    RestoredFinal,
    RestoredTemporary { restored: bool },
    /// The temporary record is removed, and then the directory synced.
    CleanupUnlinking(Error),
    CleanupSyncing(Error),
    Finished(Result<(), Error>),
}

pub enum StageView {
    Checking,
    Renaming,
    NewVerifying,
    NewSyncing,
    NewReverifying,
    OldChecking,
    Exchanging,
    Published,
    Displaced(bool),
    Unlinking,
    ExchangeSyncing,
    ExchangeVerifying,
    RollbackFinal,
    RollbackTemporary(bool),
    RollingBack,
    RestoredFinal,
    RestoredTemporary(bool),
    CleanupUnlinking(Failure),
    CleanupSyncing(Failure),
    Committed,
    Failed(Failure),
}

impl View for TxnStage {
    type V = StageView;

    open spec fn view(&self) -> StageView {
        match self {
            TxnStage::Checking => StageView::Checking,
            TxnStage::Renaming => StageView::Renaming,
            TxnStage::NewVerifying => StageView::NewVerifying,
            TxnStage::NewSyncing => StageView::NewSyncing,
            TxnStage::NewReverifying => StageView::NewReverifying,
            TxnStage::OldChecking => StageView::OldChecking,
            TxnStage::Exchanging => StageView::Exchanging,
            TxnStage::Published => StageView::Published,
            TxnStage::Displaced { published } => StageView::Displaced(*published),
            TxnStage::Unlinking => StageView::Unlinking,
            TxnStage::ExchangeSyncing => StageView::ExchangeSyncing,
            TxnStage::ExchangeVerifying => StageView::ExchangeVerifying,
            TxnStage::RollbackFinal => StageView::RollbackFinal,
            TxnStage::RollbackTemporary { owned } => StageView::RollbackTemporary(*owned),
            TxnStage::RollingBack => StageView::RollingBack,
            TxnStage::RestoredFinal => StageView::RestoredFinal,
            TxnStage::RestoredTemporary { restored } => StageView::RestoredTemporary(*restored),
            TxnStage::CleanupUnlinking(error) => StageView::CleanupUnlinking(error@),
            TxnStage::CleanupSyncing(error) => StageView::CleanupSyncing(error@),
            TxnStage::Finished(Ok(_)) => StageView::Committed,
            TxnStage::Finished(Err(error)) => StageView::Failed(error@),
        }
    }
}

/// What the driver does next for a record transaction.
#[derive(Clone, Copy, Debug, PartialEq, Eq, Structural)]
pub enum TxnAction {
    StatTemporary,
    /// Move the temporary record to the final name unless something stands there.
    RenameNew,
    /// Exchange what stands under the temporary and the final name.
    Exchange,
    /// Read the final name, or the temporary one, up to a limit.
    ReadFinal(usize),
    ReadTemporary(usize),
    /// Remove the temporary name while it is this file.
    UnlinkTemporary(Identity),
    SyncParent,
    Nothing,
}

/// What the driver answers.
#[derive(Debug)]
pub enum TxnEvent {
    Stat(Result<Identity, Error>),
    Renamed(RenameEvent),
    Read(Result<RecordBinding, Error>),
    Unlinked(Result<(), Error>),
    Synced(Result<(), String>),
}

/// The replacement or creation of one record.
#[derive(Debug)]
pub struct RecordTxn {
    pub identity: Identity,
    pub expected_old: Option<RecordBinding>,
    pub bytes: Vec<u8>,
    pub armed: bool,
    pub stage: TxnStage,
}

pub struct TxnView {
    pub identity: Identity,
    pub expected_old: Option<(Seq<u8>, Identity)>,
    pub bytes: Seq<u8>,
    pub armed: bool,
    pub stage: StageView,
}

pub open spec fn binding_view(binding: Option<RecordBinding>) -> Option<(Seq<u8>, Identity)> {
    match binding {
        Some(binding) => Some(binding@),
        None => None,
    }
}

impl View for RecordTxn {
    type V = TxnView;

    open spec fn view(&self) -> TxnView {
        TxnView {
            identity: self.identity,
            expected_old: binding_view(self.expected_old),
            bytes: self.bytes@,
            armed: self.armed,
            stage: self.stage@,
        }
    }
}

/// A read that found this binding.
pub open spec fn found(read: Result<RecordBinding, Error>, binding: (Seq<u8>, Identity)) -> bool {
    read matches Ok(read) && read@ == binding
}

pub open spec fn recovery(detail: Seq<char>) -> StageView {
    StageView::Failed(("STATE_COMMITTED_RECOVERY_REQUIRED"@, detail))
}

pub open spec fn longer(left: nat, right: nat) -> nat {
    if left > right {
        left
    } else {
        right
    }
}

impl TxnView {
    /// The binding that the transaction is to put in place.
    pub open spec fn new_binding(self) -> (Seq<u8>, Identity) {
        (self.bytes, self.identity)
    }

    pub open spec fn at(self, stage: StageView) -> TxnView {
        TxnView { stage, ..self }
    }

    pub open spec fn disarmed(self) -> TxnView {
        TxnView { armed: false, ..self }
    }

    /// Gives the transaction up: what it made is removed, if it is still its own to remove.
    pub open spec fn given_up(self, primary: Failure) -> TxnView {
        if self.armed {
            self.disarmed().at(StageView::CleanupUnlinking(primary))
        } else {
            self.at(StageView::Failed(primary))
        }
    }

    /// The record is in place if it is read back as it was written.
    pub open spec fn verified(self, read: Result<RecordBinding, Error>, then_at: StageView) -> TxnView {
        match read {
            Err(error) => self.at(StageView::Failed(error@)),
            Ok(read) => if read@ == self.new_binding() {
                self.at(then_at)
            } else {
                self.at(recovery("state record binding changed after its final rename"@))
            },
        }
    }

    /// The transaction after the driver's answer. An answer to another question changes nothing.
    pub open spec fn after(self, event: TxnEvent) -> TxnView {
        match (self.stage, event) {
            (StageView::Checking, TxnEvent::Stat(seen)) => match seen {
                Err(error) => self.at(StageView::Failed(error@)),
                Ok(seen) => if seen != self.identity {
                    self.given_up(
                        (
                            "STATE_CLEANUP_FAILED"@,
                            "temporary state record binding changed before commit"@,
                        ),
                    )
                } else if self.expected_old is Some {
                    self.at(StageView::OldChecking)
                } else {
                    self.at(StageView::Renaming)
                },
            },
            (StageView::Renaming, TxnEvent::Renamed(event)) => match event {
                RenameEvent::Done => self.disarmed().at(StageView::NewVerifying),
                RenameEvent::Interrupted(words) => self.disarmed().at(
                    recovery("state record rename has an unknown result"@ + ": "@ + words@),
                ),
                RenameEvent::Exists(_) => self.given_up(
                    ("STATE_RECORD_EXISTS"@, "state record already exists"@),
                ),
                RenameEvent::Failed(words) => self.given_up(
                    (
                        "STATE_UNAVAILABLE"@,
                        "cannot publish temporary state record"@ + ": "@ + words@,
                    ),
                ),
            },
            (StageView::NewVerifying, TxnEvent::Read(read)) => self.verified(
                read,
                StageView::NewSyncing,
            ),
            (StageView::NewSyncing, TxnEvent::Synced(synced)) => self.synced(
                synced,
                StageView::NewReverifying,
            ),
            (StageView::NewReverifying, TxnEvent::Read(read)) => self.verified(
                read,
                StageView::Committed,
            ),
            (StageView::OldChecking, TxnEvent::Read(read)) => match read {
                Err(error) => self.given_up(error@),
                Ok(read) => if self.expected_old == Some(read@) {
                    self.at(StageView::Exchanging)
                } else {
                    self.given_up(
                        (
                            "STATE_CORRUPT"@,
                            "state record bytes or identity changed before its atomic replacement"@,
                        ),
                    )
                },
            },
            (StageView::Exchanging, TxnEvent::Renamed(event)) => match event {
                RenameEvent::Done => self.disarmed().at(StageView::Published),
                RenameEvent::Interrupted(words) => self.disarmed().at(
                    recovery("state record exchange has an unknown result"@ + ": "@ + words@),
                ),
                RenameEvent::Exists(words) | RenameEvent::Failed(words) => self.given_up(
                    ("STATE_UNAVAILABLE"@, "cannot exchange state records"@ + ": "@ + words@),
                ),
            },
            (StageView::Published, TxnEvent::Read(read)) => self.at(
                StageView::Displaced(found(read, self.new_binding())),
            ),
            (StageView::Displaced(published), TxnEvent::Read(read)) => if published
                && self.expected_old is Some && found(read, self.expected_old->0) {
                self.at(StageView::Unlinking)
            } else {
                self.at(StageView::RollbackFinal)
            },
            (StageView::Unlinking, TxnEvent::Unlinked(unlinked)) => match unlinked {
                Ok(_) => self.at(StageView::ExchangeSyncing),
                Err(error) => self.at(
                    recovery(
                        "cannot remove exchanged expected-old record: "@ + crate::git::shown(
                            error@,
                        ),
                    ),
                ),
            },
            (StageView::ExchangeSyncing, TxnEvent::Synced(synced)) => self.synced(
                synced,
                StageView::ExchangeVerifying,
            ),
            (StageView::ExchangeVerifying, TxnEvent::Read(read)) => self.verified(
                read,
                StageView::Committed,
            ),
            (StageView::RollbackFinal, TxnEvent::Read(read)) => self.at(
                StageView::RollbackTemporary(found(read, self.new_binding())),
            ),
            (StageView::RollbackTemporary(owned), TxnEvent::Read(read)) => if owned
                && self.expected_old is Some && found(read, self.expected_old->0) {
                self.at(StageView::RollingBack)
            } else {
                self.at(
                    recovery(
                        "state record exchange drifted; rollback would move an external binding"@,
                    ),
                )
            },
            (StageView::RollingBack, TxnEvent::Renamed(event)) => match event {
                RenameEvent::Done => self.at(StageView::RestoredFinal),
                RenameEvent::Interrupted(words) | RenameEvent::Exists(words) | RenameEvent::Failed(
                    words,
                ) => self.at(
                    recovery("cannot roll back a verified state record exchange"@ + ": "@ + words@),
                ),
            },
            (StageView::RestoredFinal, TxnEvent::Read(read)) => self.at(
                StageView::RestoredTemporary(
                    self.expected_old is Some && found(read, self.expected_old->0),
                ),
            ),
            (StageView::RestoredTemporary(restored), TxnEvent::Read(read)) => if restored && found(
                read,
                self.new_binding(),
            ) {
                self.at(
                    StageView::CleanupUnlinking(
                        (
                            "STATE_COMMITTED_RECOVERY_REQUIRED"@,
                            "state record exchange bindings drifted before cleanup"@,
                        ),
                    ),
                )
            } else {
                self.at(recovery("state record rollback did not restore both verified bindings"@))
            },
            (StageView::CleanupUnlinking(primary), TxnEvent::Unlinked(unlinked)) => match unlinked {
                Ok(_) => self.at(StageView::CleanupSyncing(primary)),
                Err(error) => self.at(StageView::Failed(error@)),
            },
            (StageView::CleanupSyncing(primary), TxnEvent::Synced(synced)) => match synced {
                Ok(_) => self.at(StageView::Failed(primary)),
                Err(words) => self.at(
                    recovery("cannot sync state record parent after cleanup"@ + ": "@ + words@),
                ),
            },
            _ => self,
        }
    }

    pub open spec fn synced(self, synced: Result<(), String>, then_at: StageView) -> TxnView {
        match synced {
            Ok(_) => self.at(then_at),
            Err(words) => self.at(
                StageView::Failed(
                    (
                        "STATE_COMMITTED_UNSYNCED"@,
                        "cannot sync state record parent directory"@ + ": "@ + words@,
                    ),
                ),
            ),
        }
    }

    /// What the driver is asked to do.
    pub open spec fn asks(self) -> TxnAction {
        let new = self.bytes.len() as usize;
        let old = match self.expected_old {
            Some(binding) => binding.0.len() as usize,
            None => 0,
        };
        match self.stage {
            StageView::Checking => TxnAction::StatTemporary,
            StageView::Renaming => TxnAction::RenameNew,
            StageView::NewVerifying | StageView::NewReverifying | StageView::ExchangeVerifying => {
                TxnAction::ReadFinal(new)
            },
            StageView::NewSyncing | StageView::ExchangeSyncing | StageView::CleanupSyncing(_) => {
                TxnAction::SyncParent
            },
            StageView::OldChecking => TxnAction::ReadFinal(longer(old as nat, new as nat) as usize),
            StageView::Exchanging | StageView::RollingBack => TxnAction::Exchange,
            StageView::Published | StageView::RollbackFinal => TxnAction::ReadFinal(new),
            StageView::Displaced(_) | StageView::RollbackTemporary(_) => TxnAction::ReadTemporary(
                old,
            ),
            StageView::Unlinking => match self.expected_old {
                Some(binding) => TxnAction::UnlinkTemporary(binding.1),
                None => TxnAction::Nothing,
            },
            StageView::RestoredFinal => TxnAction::ReadFinal(old),
            StageView::RestoredTemporary(_) => TxnAction::ReadTemporary(new),
            StageView::CleanupUnlinking(_) => TxnAction::UnlinkTemporary(self.identity),
            StageView::Committed | StageView::Failed(_) => TxnAction::Nothing,
        }
    }
}

fn recovery_error(detail: &str) -> (stage: TxnStage)
    ensures
        stage@ == recovery(detail@),
{
    TxnStage::Finished(Err(Error::new("STATE_COMMITTED_RECOVERY_REQUIRED", detail)))
}

fn recovery_words(context: &str, words: &str) -> (stage: TxnStage)
    ensures
        stage@ == recovery(context@ + ": "@ + words@),
{
    TxnStage::Finished(Err(Error::io("STATE_COMMITTED_RECOVERY_REQUIRED", context, words)))
}

impl RecordTxn {
    /// A transaction whose temporary record is written.
    pub fn begin(identity: Identity, bytes: &[u8], expected_old: Option<RecordBinding>) -> (txn: Self)
        ensures
            txn@ == (TxnView {
                identity,
                expected_old: binding_view(expected_old),
                bytes: bytes@,
                armed: true,
                stage: StageView::Checking,
            }),
    {
        RecordTxn {
            identity,
            expected_old,
            bytes: copy_bytes(bytes),
            armed: true,
            stage: TxnStage::Checking,
        }
    }

    /// What the driver is asked to do.
    pub fn action(&self) -> (action: TxnAction)
        ensures
            action == self@.asks(),
    {
        let new: usize = self.bytes.len();
        let old: usize = match &self.expected_old {
            Some(binding) => binding.bytes.len(),
            None => 0,
        };
        match &self.stage {
            TxnStage::Checking => TxnAction::StatTemporary,
            TxnStage::Renaming => TxnAction::RenameNew,
            TxnStage::NewVerifying => TxnAction::ReadFinal(new),
            TxnStage::NewReverifying => TxnAction::ReadFinal(new),
            TxnStage::ExchangeVerifying => TxnAction::ReadFinal(new),
            TxnStage::NewSyncing => TxnAction::SyncParent,
            TxnStage::ExchangeSyncing => TxnAction::SyncParent,
            TxnStage::CleanupSyncing(_) => TxnAction::SyncParent,
            TxnStage::OldChecking => TxnAction::ReadFinal(
                if old > new {
                    old
                } else {
                    new
                },
            ),
            TxnStage::Exchanging => TxnAction::Exchange,
            TxnStage::RollingBack => TxnAction::Exchange,
            TxnStage::Published => TxnAction::ReadFinal(new),
            TxnStage::RollbackFinal => TxnAction::ReadFinal(new),
            TxnStage::Displaced { .. } => TxnAction::ReadTemporary(old),
            TxnStage::RollbackTemporary { .. } => TxnAction::ReadTemporary(old),
            TxnStage::Unlinking => match &self.expected_old {
                Some(binding) => TxnAction::UnlinkTemporary(binding.identity),
                None => TxnAction::Nothing,
            },
            TxnStage::RestoredFinal => TxnAction::ReadFinal(old),
            TxnStage::RestoredTemporary { .. } => TxnAction::ReadTemporary(new),
            TxnStage::CleanupUnlinking(_) => TxnAction::UnlinkTemporary(self.identity),
            TxnStage::Finished(_) => TxnAction::Nothing,
        }
    }

    fn is_new(&self, read: &Result<RecordBinding, Error>) -> (is: bool)
        ensures
            is == found(*read, self@.new_binding()),
    {
        match read {
            Ok(read) => read.identity == self.identity && same_bytes(
                read.bytes.as_slice(),
                self.bytes.as_slice(),
            ),
            Err(_) => false,
        }
    }

    fn is_old(&self, read: &Result<RecordBinding, Error>) -> (is: bool)
        ensures
            is == (self@.expected_old is Some && found(*read, self@.expected_old->0)),
    {
        match (read, &self.expected_old) {
            (Ok(read), Some(expected)) => read.same(expected),
            _ => false,
        }
    }

    fn verify_new_binding(&self, read: Result<RecordBinding, Error>, then_at: TxnStage) -> (stage: TxnStage)
        ensures
            self@.at(stage@) == self@.verified(read, then_at@),
    {
        let is_new: bool = self.is_new(&read);
        match read {
            Err(error) => TxnStage::Finished(Err(error)),
            Ok(_) => if is_new {
                then_at
            } else {
                recovery_error("state record binding changed after its final rename")
            },
        }
    }

    fn sync_record_parent(synced: Result<(), String>, then_at: TxnStage) -> (stage: TxnStage)
        ensures
            forall|txn: TxnView| #[trigger] txn.at(stage@) == txn.synced(synced, then_at@),
    {
        match synced {
            Ok(_) => then_at,
            Err(words) => TxnStage::Finished(
                Err(
                    Error::io(
                        "STATE_COMMITTED_UNSYNCED",
                        "cannot sync state record parent directory",
                        words.as_str(),
                    ),
                ),
            ),
        }
    }

    /// Gives the transaction up for `primary`.
    pub fn abort(&mut self, primary: Error)
        ensures
            final(self)@ == old(self)@.given_up(primary@),
    {
        if self.armed {
            self.armed = false;
            self.stage = TxnStage::CleanupUnlinking(primary);
        } else {
            self.stage = TxnStage::Finished(Err(primary));
        }
    }

    /// Takes the driver's answer.
    pub fn answer(&mut self, event: TxnEvent)
        ensures
            final(self)@ == old(self)@.after(event),
    {
        let mut stage = TxnStage::Checking;
        std::mem::swap(&mut stage, &mut self.stage);
        match (stage, event) {
            (TxnStage::Checking, TxnEvent::Stat(seen)) => match seen {
                Err(error) => {
                    self.stage = TxnStage::Finished(Err(error));
                },
                Ok(seen) => if seen != self.identity {
                    self.abort(
                        Error::new(
                            "STATE_CLEANUP_FAILED",
                            "temporary state record binding changed before commit",
                        ),
                    );
                } else if self.expected_old.is_some() {
                    self.stage = TxnStage::OldChecking;
                } else {
                    self.stage = TxnStage::Renaming;
                },
            },
            (TxnStage::Renaming, TxnEvent::Renamed(event)) => match event {
                RenameEvent::Done => {
                    self.armed = false;
                    self.stage = TxnStage::NewVerifying;
                },
                RenameEvent::Interrupted(words) => {
                    self.armed = false;
                    self.stage =
                    recovery_words("state record rename has an unknown result", words.as_str());
                },
                RenameEvent::Exists(_) => {
                    self.abort(Error::new("STATE_RECORD_EXISTS", "state record already exists"));
                },
                RenameEvent::Failed(words) => {
                    self.abort(
                        Error::io(
                            "STATE_UNAVAILABLE",
                            "cannot publish temporary state record",
                            words.as_str(),
                        ),
                    );
                },
            },
            (TxnStage::NewVerifying, TxnEvent::Read(read)) => {
                self.stage = self.verify_new_binding(read, TxnStage::NewSyncing);
            },
            (TxnStage::NewSyncing, TxnEvent::Synced(synced)) => {
                self.stage = Self::sync_record_parent(synced, TxnStage::NewReverifying);
            },
            (TxnStage::NewReverifying, TxnEvent::Read(read)) => {
                self.stage = self.verify_new_binding(read, TxnStage::Finished(Ok(())));
            },
            (TxnStage::OldChecking, TxnEvent::Read(read)) => {
                let is_old: bool = self.is_old(&read);
                match read {
                    Err(error) => {
                        self.abort(error);
                    },
                    Ok(_) => if is_old {
                        self.stage = TxnStage::Exchanging;
                    } else {
                        self.abort(
                            Error::new(
                                "STATE_CORRUPT",
                                "state record bytes or identity changed before its atomic replacement",
                            ),
                        );
                    },
                }
            },
            (TxnStage::Exchanging, TxnEvent::Renamed(event)) => match event {
                RenameEvent::Done => {
                    self.armed = false;
                    self.stage = TxnStage::Published;
                },
                RenameEvent::Interrupted(words) => {
                    self.armed = false;
                    self.stage =
                    recovery_words("state record exchange has an unknown result", words.as_str());
                },
                RenameEvent::Exists(words) => {
                    self.abort(
                        Error::io("STATE_UNAVAILABLE", "cannot exchange state records", words.as_str()),
                    );
                },
                RenameEvent::Failed(words) => {
                    self.abort(
                        Error::io("STATE_UNAVAILABLE", "cannot exchange state records", words.as_str()),
                    );
                },
            },
            (TxnStage::Published, TxnEvent::Read(read)) => {
                self.stage = TxnStage::Displaced { published: self.is_new(&read) };
            },
            (TxnStage::Displaced { published }, TxnEvent::Read(read)) => {
                self.stage =
                if published && self.is_old(&read) {
                    TxnStage::Unlinking
                } else {
                    TxnStage::RollbackFinal
                };
            },
            (TxnStage::Unlinking, TxnEvent::Unlinked(unlinked)) => match unlinked {
                Ok(_) => {
                    self.stage = TxnStage::ExchangeSyncing;
                },
                Err(error) => {
                    let words = error.to_text();
                    self.stage =
                    recovery_error(
                        join2("cannot remove exchanged expected-old record: ", words.as_str()).as_str(),
                    );
                },
            },
            (TxnStage::ExchangeSyncing, TxnEvent::Synced(synced)) => {
                self.stage = Self::sync_record_parent(synced, TxnStage::ExchangeVerifying);
            },
            (TxnStage::ExchangeVerifying, TxnEvent::Read(read)) => {
                self.stage = self.verify_new_binding(read, TxnStage::Finished(Ok(())));
            },
            (TxnStage::RollbackFinal, TxnEvent::Read(read)) => {
                self.stage = TxnStage::RollbackTemporary { owned: self.is_new(&read) };
            },
            (TxnStage::RollbackTemporary { owned }, TxnEvent::Read(read)) => {
                self.stage =
                if owned && self.is_old(&read) {
                    TxnStage::RollingBack
                } else {
                    recovery_error(
                        "state record exchange drifted; rollback would move an external binding",
                    )
                };
            },
            (TxnStage::RollingBack, TxnEvent::Renamed(event)) => match event {
                RenameEvent::Done => {
                    self.stage = TxnStage::RestoredFinal;
                },
                RenameEvent::Interrupted(words) => {
                    self.stage =
                    recovery_words(
                        "cannot roll back a verified state record exchange",
                        words.as_str(),
                    );
                },
                RenameEvent::Exists(words) => {
                    self.stage =
                    recovery_words(
                        "cannot roll back a verified state record exchange",
                        words.as_str(),
                    );
                },
                RenameEvent::Failed(words) => {
                    self.stage =
                    recovery_words(
                        "cannot roll back a verified state record exchange",
                        words.as_str(),
                    );
                },
            },
            (TxnStage::RestoredFinal, TxnEvent::Read(read)) => {
                self.stage = TxnStage::RestoredTemporary { restored: self.is_old(&read) };
            },
            (TxnStage::RestoredTemporary { restored }, TxnEvent::Read(read)) => {
                self.stage =
                if restored && self.is_new(&read) {
                    TxnStage::CleanupUnlinking(
                        Error::new(
                            "STATE_COMMITTED_RECOVERY_REQUIRED",
                            "state record exchange bindings drifted before cleanup",
                        ),
                    )
                } else {
                    recovery_error("state record rollback did not restore both verified bindings")
                };
            },
            (TxnStage::CleanupUnlinking(primary), TxnEvent::Unlinked(unlinked)) => {
                self.stage =
                match unlinked {
                    Ok(_) => TxnStage::CleanupSyncing(primary),
                    Err(error) => TxnStage::Finished(Err(error)),
                };
            },
            (TxnStage::CleanupSyncing(primary), TxnEvent::Synced(synced)) => {
                self.stage =
                match synced {
                    Ok(_) => TxnStage::Finished(Err(primary)),
                    Err(words) => recovery_words(
                        "cannot sync state record parent after cleanup",
                        words.as_str(),
                    ),
                };
            },
            (stage, _) => {
                self.stage = stage;
            },
        }
    }

    /// How the transaction ended, once the driver is asked for nothing more: with the binding that
    /// it put in place, or with an error.
    pub fn commit(&self) -> (result: Option<Result<RecordBinding, Error>>)
        ensures
            match self@.stage {
                StageView::Committed => result matches Some(Ok(binding)) && binding@
                    == self@.new_binding(),
                StageView::Failed(error) => result matches Some(Err(made)) && made@ == error,
                _ => result is None,
            },
    {
        match &self.stage {
            TxnStage::Finished(Ok(_)) => Some(
                Ok(
                    RecordBinding {
                        bytes: copy_bytes(self.bytes.as_slice()),
                        identity: self.identity,
                    },
                ),
            ),
            TxnStage::Finished(Err(error)) => Some(Err(error.copy())),
            _ => None,
        }
    }
}

/// The transaction after a row of answers.
pub open spec fn after_all(txn: TxnView, events: Seq<TxnEvent>) -> TxnView
    decreases events.len(),
{
    if events.len() == 0 {
        txn
    } else {
        after_all(txn, events.drop_last()).after(events.last())
    }
}

/// What a transaction is about never changes: its temporary file, the bytes it writes, and the
/// binding it replaces.
pub proof fn law_transaction_keeps_its_subject(txn: TxnView, events: Seq<TxnEvent>)
    ensures
        after_all(txn, events).new_binding() == txn.new_binding(),
        after_all(txn, events).expected_old == txn.expected_old,
    decreases events.len(),
{
    if events.len() > 0 {
        law_transaction_keeps_its_subject(txn, events.drop_last());
    }
}

/// A transaction that has ended stays as it ended.
pub proof fn law_ended_transaction_stays(txn: TxnView, event: TxnEvent)
    requires
        txn.asks() == TxnAction::Nothing,
        txn.stage !is Unlinking,
    ensures
        txn.after(event) == txn,
{
}

/// Two records change places only right after the answers showed that neither is somebody else's:
/// at first, that the final name holds the binding that is to be replaced; when the exchange is
/// taken back, that the final name holds the new binding and the temporary name the old one.
pub proof fn law_exchange_moves_no_external_binding(txn: TxnView, event: TxnEvent)
    requires
        txn.asks() != TxnAction::Exchange,
        txn.after(event).asks() == TxnAction::Exchange,
    ensures
        txn.expected_old is Some,
        event matches TxnEvent::Read(read) && found(read, txn.expected_old->0),
        txn.stage is OldChecking || txn.stage == StageView::RollbackTemporary(true),
{
}

/// A taken-back exchange is decided by two reads in a row: of the final name, which must be the new
/// binding, and of the temporary name, which must be the old one. Anything else leaves both names
/// alone and calls for recovery.
pub proof fn law_rollback_needs_both_bindings(txn: TxnView, final_read: Result<RecordBinding, Error>, temporary_read: Result<RecordBinding, Error>)
    requires
        txn.stage is RollbackFinal,
    ensures
        ({
            let end = txn.after(TxnEvent::Read(final_read)).after(TxnEvent::Read(temporary_read));
            if txn.expected_old is Some && found(final_read, txn.new_binding()) && found(
                temporary_read,
                txn.expected_old->0,
            ) {
                end.asks() == TxnAction::Exchange
            } else {
                &&& end.stage matches StageView::Failed(failure)
                &&& failure.0 == "STATE_COMMITTED_RECOVERY_REQUIRED"@
                &&& end.asks() == TxnAction::Nothing
            }
        }),
{
}

/// A transaction is committed only by a read that finds the new binding under the final name, asked
/// for after the directory was synced.
pub proof fn law_commit_is_synced_and_verified(txn: TxnView, synced: TxnEvent, read: TxnEvent)
    requires
        txn.asks() == TxnAction::SyncParent,
        txn.after(synced).asks() != TxnAction::SyncParent,
        txn.after(synced).after(read).stage is Committed,
    ensures
        synced matches TxnEvent::Synced(Ok(_)),
        read matches TxnEvent::Read(read) && found(read, txn.new_binding()),
{
}

/// The only ways into the committed stage are the last reads of the two kinds of commit, and each of
/// those reads is asked for only after the directory was synced.
pub proof fn law_commit_follows_verification(txn: TxnView, event: TxnEvent)
    ensures
        txn.stage !is Committed && txn.after(event).stage is Committed ==> (txn.stage
            is NewReverifying || txn.stage is ExchangeVerifying) && (event matches TxnEvent::Read(read)
            && found(read, txn.new_binding())),
        txn.stage !is NewReverifying && txn.after(event).stage is NewReverifying ==> txn.stage
            is NewSyncing && (event matches TxnEvent::Synced(Ok(_))),
        txn.stage !is ExchangeVerifying && txn.after(event).stage is ExchangeVerifying ==> txn.stage
            is ExchangeSyncing && (event matches TxnEvent::Synced(Ok(_))),
{
}

/// The temporary name is given up for removal either with the transaction's own file, or with the
/// replaced record after both names were read and found as the exchange left them.
pub proof fn law_unlink_needs_ownership(txn: TxnView, event: TxnEvent)
    requires
        txn.asks() !is UnlinkTemporary,
        txn.after(event).asks() is UnlinkTemporary,
    ensures
        txn.after(event).asks() == TxnAction::UnlinkTemporary(txn.identity) || (
        txn.stage == StageView::Displaced(true) && txn.expected_old is Some && (
        event matches TxnEvent::Read(read) && found(read, txn.expected_old->0))
            && txn.after(event).asks() == TxnAction::UnlinkTemporary((txn.expected_old->0).1)),
{
}

} // verus!
