//! The checkpoint protocol: a controller that holds the other end of a socket pair sees each step of
//! an operation and lets it go on.

use crate::authority::{failure, or_fail, Error, Failure};
use crate::bytes::{
    append, decode_text, find_byte, first_index, lemma_utf8_ascii, same_bytes, same_text, text_of,
    utf8, utf8_text,
};
use crate::inspection::first_of;
use crate::notation::{
    all_digits, all_lower_hex, big_endian, decimal_text, decimal_value, lemma_big_endian,
    only_digits, only_lower_hex, read_decimal, to_big_endian, to_decimal,
};
use vstd::prelude::*;
use vstd::slice::slice_subrange;
use vstd::string::StringExecFns;
use vstd::utf8::{is_ascii_chars, valid_utf8};

verus! {

pub const FD_ENV: &'static str = "GIT_VWS_M4_CONTROL_FD";

pub const NONCE_ENV: &'static str = "GIT_VWS_M4_NONCE";

pub const TARGET_ENV: &'static str = "GIT_VWS_M4_TARGET";

/// How long a frame may be.
pub const MAX_FRAME: usize = 1024;

pub fn fail(detail: &str) -> (error: Error)
    ensures
        error@ == ("M4_CHECKPOINT_FAILED"@, detail@),
{
    Error::new("M4_CHECKPOINT_FAILED", detail)
}

pub open spec fn is_lower_hex_of(text: Seq<char>, length: nat) -> bool {
    utf8(text).len() == length && all_lower_hex(utf8(text))
}

pub fn lower_hex(value: &str, length: usize) -> (is: bool)
    ensures
        is == is_lower_hex_of(value@, length as nat),
{
    let bytes = value.as_bytes();
    bytes.len() == length && only_lower_hex(bytes)
}

pub open spec fn is_token_byte(byte: u8) -> bool {
    97 <= byte <= 122 || 48 <= byte <= 57 || byte == 45
}

/// A name of a stage: up to 96 lowercase letters, digits and hyphens.
pub open spec fn is_token(text: Seq<u8>) -> bool {
    &&& 0 < text.len() <= 96
    &&& forall|i: int| 0 <= i < text.len() ==> is_token_byte(#[trigger] text[i])
}

fn token_bytes(bytes: &[u8]) -> (is: bool)
    ensures
        is == is_token(bytes@),
{
    if bytes.len() == 0 || bytes.len() > 96 {
        return false;
    }
    let mut i: usize = 0;
    while i < bytes.len()
        invariant
            i <= bytes@.len(),
            forall|k: int| 0 <= k < i ==> is_token_byte(#[trigger] bytes@[k]),
        decreases bytes@.len() - i,
    {
        let byte: u8 = bytes[i];
        if !(97 <= byte && byte <= 122 || 48 <= byte && byte <= 57 || byte == 45) {
            return false;
        }
        i += 1;
    }
    true
}

pub fn token(value: &str) -> (is: bool)
    ensures
        is == is_token(utf8(value@)),
{
    token_bytes(value.as_bytes())
}

/// An operation that can be watched.
pub open spec fn is_watched(operation: Seq<u8>) -> bool {
    operation == utf8("template"@) || operation == utf8("create"@) || operation == utf8("remove"@)
}

fn watched(operation: &[u8]) -> (is: bool)
    ensures
        is == is_watched(operation@),
{
    same_bytes(operation, "template".as_bytes()) || same_bytes(operation, "create".as_bytes())
        || same_bytes(operation, "remove".as_bytes())
}

/// A value of the environment.
pub open spec fn value_failure(value: Option<&str>) -> Option<Failure> {
    match value {
        Some(_) => None,
        None => Some(
            ("M4_CHECKPOINT_FAILED"@, "checkpoint control environment is incomplete"@),
        ),
    }
}

pub fn value<'a>(set: Option<&'a str>) -> (found: Result<&'a str, Error>)
    ensures
        failure(found) == value_failure(set),
        found matches Ok(found) ==> set == Some(found),
{
    match set {
        Some(text) => Ok(text),
        None => Err(fail("checkpoint control environment is incomplete")),
    }
}

/// The descriptor that a row of digits names.
pub open spec fn fd_value(text: Seq<char>) -> Option<i32> {
    let digits = utf8(text);
    if digits.len() > 0 && all_digits(digits) && decimal_value(digits) <= i32::MAX {
        Some(decimal_value(digits) as i32)
    } else {
        None
    }
}

pub fn parse_fd(value: &str) -> (fd: Result<i32, Error>)
    ensures
        match fd_value(value@) {
            Some(found) => fd == Ok::<i32, Error>(found),
            None => failure(fd) == Some(
                ("M4_CHECKPOINT_FAILED"@, "checkpoint control FD is invalid"@),
            ),
        },
{
    let digits = value.as_bytes();
    if digits.len() > 0 && only_digits(digits) {
        if let Some(number) = read_decimal(digits, i32::MAX as u64) {
            return Ok(number as i32);
        }
    }
    Err(fail("checkpoint control FD is invalid"))
}

/// What the environment says of the control socket.
#[derive(Debug)]
pub struct Arming {
    pub fd: i32,
    pub nonce: String,
    pub target: String,
}

/// A target names a watched operation and one of its stages.
pub open spec fn is_target(target: Seq<u8>) -> bool {
    let at = first_index(target, 47);
    &&& at < target.len()
    &&& is_watched(target.subrange(0, at))
    &&& is_token(target.subrange(at + 1, target.len() as int))
}

/// Why the environment does not arm the checkpoints.
pub open spec fn arm_failure(fd: Option<&str>, nonce: Option<&str>, target: Option<&str>) -> Option<
    Failure,
> {
    let code = "M4_CHECKPOINT_FAILED"@;
    let f = value_failure(fd);
    let f = or_fail(f, fd_value(fd->0@) is Some, code, "checkpoint control FD is invalid"@);
    let f = first_of(f, value_failure(nonce));
    let f = or_fail(f, is_lower_hex_of(nonce->0@, 32), code, "checkpoint nonce is invalid"@);
    let f = first_of(f, value_failure(target));
    or_fail(f, is_target(utf8(target->0@)), code, "checkpoint target is invalid"@)
}

pub fn arm(fd: Option<&str>, nonce: Option<&str>, target: Option<&str>) -> (armed: Result<
    Arming,
    Error,
>)
    ensures
        failure(armed) == arm_failure(fd, nonce, target),
        armed matches Ok(armed) ==> fd is Some && nonce is Some && target is Some && Some(armed.fd)
            == fd_value(fd->0@) && armed.nonce@ == nonce->0@ && armed.target@ == target->0@,
{
    let fd: i32 = parse_fd(value(fd)?)?;
    let nonce = value(nonce)?;
    if !lower_hex(nonce, 32) {
        return Err(fail("checkpoint nonce is invalid"));
    }
    let target = value(target)?;
    let bytes = target.as_bytes();
    let at: usize = find_byte(bytes, 47);
    if at == bytes.len() {
        return Err(fail("checkpoint target is invalid"));
    }
    if !watched(slice_subrange(bytes, 0, at)) || !token_bytes(
        slice_subrange(bytes, at + 1, bytes.len()),
    ) {
        return Err(fail("checkpoint target is invalid"));
    }
    Ok(Arming { fd, nonce: text_of(nonce), target: text_of(target) })
}

/// What the system says of the name of one end of the socket.
#[derive(Debug)]
pub struct SocketName {
    pub known: bool,
    pub length: usize,
    pub unix: bool,
    /// The whole path field of the address.
    pub path: Vec<u8>,
    /// Where the path field starts in the address.
    pub offset: usize,
}

/// An end that has no name: the part of the path field that the length covers is empty.
pub open spec fn is_anonymous(name: SocketName) -> bool {
    &&& name.known
    &&& name.offset <= name.length <= name.offset + name.path@.len()
    &&& name.unix
    &&& forall|i: int| 0 <= i < name.length - name.offset ==> #[trigger] name.path@[i] == 0
}

pub fn anonymous_unix_address(name: &SocketName) -> (anonymous: bool)
    ensures
        anonymous == is_anonymous(*name),
{
    if !name.known || name.length < name.offset || name.length - name.offset > name.path.len()
        || !name.unix {
        return false;
    }
    let covered: usize = name.length - name.offset;
    let mut i: usize = 0;
    while i < covered
        invariant
            i <= covered,
            covered == name.length - name.offset,
            covered <= name.path@.len(),
            forall|k: int| 0 <= k < i ==> #[trigger] name.path@[k] == 0,
        decreases covered - i,
    {
        if name.path[i] != 0 {
            return false;
        }
        i += 1;
    }
    true
}

/// The control descriptor is one end of an unnamed stream socket pair of the user.
pub fn validate_socket(
    owned_socket: bool,
    stream: bool,
    local: &SocketName,
    peer: &SocketName,
) -> (valid: Result<(), Error>)
    ensures
        ({
            let code = "M4_CHECKPOINT_FAILED"@;
            let f = or_fail(
                None,
                owned_socket,
                code,
                "checkpoint control FD is not an owned socket"@,
            );
            let f = or_fail(f, stream, code, "checkpoint control FD is not a stream socket"@);
            failure(valid) == or_fail(
                f,
                is_anonymous(*local) && is_anonymous(*peer),
                code,
                "checkpoint socketpair is invalid"@,
            )
        }),
{
    if !owned_socket {
        return Err(fail("checkpoint control FD is not an owned socket"));
    }
    if !stream {
        return Err(fail("checkpoint control FD is not a stream socket"));
    }
    if !anonymous_unix_address(local) || !anonymous_unix_address(peer) {
        return Err(fail("checkpoint socketpair is invalid"));
    }
    Ok(())
}

/// The armed control: who speaks, and how many checkpoints were passed.
#[derive(Debug)]
pub struct Control {
    pub nonce: String,
    pub pid: u64,
    pub pgid: u64,
    pub sequence: u64,
}

pub open spec fn hello_text(nonce: Seq<char>, pid: nat, pgid: nat) -> Seq<char> {
    "M4CP/1 HELLO "@ + nonce + " "@ + decimal_text(pid) + " "@ + decimal_text(pgid) + "\n"@
}

pub open spec fn arm_text(nonce: Seq<char>, pid: nat, pgid: nat, target: Seq<char>) -> Seq<char> {
    "M4CP/1 ARM "@ + nonce + " "@ + decimal_text(pid) + " "@ + decimal_text(pgid) + " "@ + target
        + "\n"@
}

/// What is said first.
pub fn hello(nonce: &str, pid: u64, pgid: u64) -> (text: String)
    ensures
        text@ == hello_text(nonce@, pid as nat, pgid as nat),
{
    let mut text = text_of("M4CP/1 HELLO ");
    text.append(nonce);
    text.append(" ");
    text.append(to_decimal(pid).as_str());
    text.append(" ");
    text.append(to_decimal(pgid).as_str());
    text.append("\n");
    text
}

/// The control is armed by the exact answer to what was said first.
pub fn armed(arming: &Arming, pid: u64, pgid: u64, answer: &str) -> (control: Result<Control, Error>)
    ensures
        if answer@ == arm_text(arming.nonce@, pid as nat, pgid as nat, arming.target@) {
            &&& control matches Ok(control)
            &&& control.nonce@ == arming.nonce@
            &&& control.pid == pid
            &&& control.pgid == pgid
            &&& control.sequence == 1
        } else {
            failure(control) == Some(
                ("M4_CHECKPOINT_FAILED"@, "controller ARM did not exactly match HELLO"@),
            )
        },
{
    let mut text = text_of("M4CP/1 ARM ");
    text.append(arming.nonce.as_str());
    text.append(" ");
    text.append(to_decimal(pid).as_str());
    text.append(" ");
    text.append(to_decimal(pgid).as_str());
    text.append(" ");
    text.append(arming.target.as_str());
    text.append("\n");
    if !same_text(answer, text.as_str()) {
        return Err(fail("controller ARM did not exactly match HELLO"));
    }
    Ok(Control { nonce: arming.nonce.clone(), pid, pgid, sequence: 1 })
}

/// The fields of a checkpoint.
pub struct Fields {
    pub operation: Seq<char>,
    pub sid: Seq<char>,
    pub key: Seq<char>,
    pub stage: Seq<char>,
}

/// One message of a checkpoint.
pub open spec fn message_text(
    kind: Seq<char>,
    nonce: Seq<char>,
    pid: nat,
    pgid: nat,
    sequence: nat,
    fields: Fields,
) -> Seq<char> {
    "M4CP/1 "@ + kind + " "@ + nonce + " "@ + decimal_text(pid) + " "@ + decimal_text(pgid) + " "@
        + decimal_text(sequence) + " "@ + nonce + "."@ + decimal_text(sequence) + " "@
        + fields.operation + " "@ + fields.sid + " "@ + fields.key + " "@ + fields.stage + "\n"@
}

fn message(
    kind: &str,
    control: &Control,
    sequence: u64,
    operation: &str,
    sid: &str,
    key: &str,
    stage: &str,
) -> (text: String)
    ensures
        text@ == message_text(
            kind@,
            control.nonce@,
            control.pid as nat,
            control.pgid as nat,
            sequence as nat,
            Fields { operation: operation@, sid: sid@, key: key@, stage: stage@ },
        ),
{
    let number = to_decimal(sequence);
    let mut text = text_of("M4CP/1 ");
    text.append(kind);
    text.append(" ");
    text.append(control.nonce.as_str());
    text.append(" ");
    text.append(to_decimal(control.pid).as_str());
    text.append(" ");
    text.append(to_decimal(control.pgid).as_str());
    text.append(" ");
    text.append(number.as_str());
    text.append(" ");
    text.append(control.nonce.as_str());
    text.append(".");
    text.append(number.as_str());
    text.append(" ");
    text.append(operation);
    text.append(" ");
    text.append(sid);
    text.append(" ");
    text.append(key);
    text.append(" ");
    text.append(stage);
    text.append("\n");
    text
}

/// The three messages of a checkpoint: what is sent, what must be answered, what is sent then.
#[derive(Debug)]
pub struct Checkpoint {
    pub cp: String,
    pub go: String,
    pub ack: String,
}

pub open spec fn valid_fields(fields: Fields) -> bool {
    &&& is_watched(utf8(fields.operation))
    &&& (fields.sid == "-"@ || is_lower_hex_of(fields.sid, 64))
    &&& (fields.key == "-"@ || is_lower_hex_of(fields.key, 64))
    &&& is_token(utf8(fields.stage))
}

impl Control {
    pub open spec fn message(self, kind: Seq<char>, fields: Fields) -> Seq<char> {
        message_text(
            kind,
            self.nonce@,
            self.pid as nat,
            self.pgid as nat,
            self.sequence as nat,
            fields,
        )
    }

    /// The control goes on to `after` with a checkpoint of these fields, or without one. A checkpoint
    /// that is refused for its fields uses no number up; behind the last number the count starts
    /// again.
    pub open spec fn reaches(
        self,
        fields: Fields,
        after: Control,
        checkpoint: Result<Checkpoint, Error>,
    ) -> bool {
        let code = "M4_CHECKPOINT_FAILED"@;
        let f = or_fail(None, valid_fields(fields), code, "checkpoint fields are invalid"@);
        let f = or_fail(f, self.sequence != u64::MAX, code, "checkpoint sequence overflowed"@);
        &&& failure(checkpoint) == f
        &&& checkpoint matches Ok(made) ==> {
            &&& made.cp@ == self.message("CP"@, fields)
            &&& made.go@ == self.message("GO"@, fields)
            &&& made.ack@ == self.message("ACK"@, fields)
        }
        &&& after == (Control {
            sequence: if !valid_fields(fields) {
                self.sequence
            } else if self.sequence == u64::MAX {
                0
            } else {
                (self.sequence + 1) as u64
            },
            ..self
        })
    }

    /// The next checkpoint. Each has a number of its own.
    pub fn checkpoint(&mut self, operation: &str, sid: &str, key: &str, stage: &str) -> (checkpoint: Result<
        Checkpoint,
        Error,
    >)
        ensures
            old(self).reaches(
                Fields { operation: operation@, sid: sid@, key: key@, stage: stage@ },
                *final(self),
                checkpoint,
            ),
    {
        if !watched(operation.as_bytes()) || !(same_text(sid, "-") || lower_hex(sid, 64)) || !(
        same_text(key, "-") || lower_hex(key, 64)) || !token(stage) {
            return Err(fail("checkpoint fields are invalid"));
        }
        let sequence: u64 = self.sequence;
        if sequence == u64::MAX {
            self.sequence = 0;
            return Err(fail("checkpoint sequence overflowed"));
        }
        let cp = message("CP", self, sequence, operation, sid, key, stage);
        let go = message("GO", self, sequence, operation, sid, key, stage);
        let ack = message("ACK", self, sequence, operation, sid, key, stage);
        self.sequence = sequence + 1;
        Ok(Checkpoint { cp, go, ack })
    }
}

/// The operation goes on only on the exact answer.
pub fn released(checkpoint: &Checkpoint, answer: &str) -> (go: Result<(), Error>)
    ensures
        failure(go) == or_fail(
            None,
            answer@ == checkpoint.go@,
            "M4_CHECKPOINT_FAILED"@,
            "controller GO did not exactly match checkpoint"@,
        ),
{
    if same_text(answer, checkpoint.go.as_str()) {
        Ok(())
    } else {
        Err(fail("controller GO did not exactly match checkpoint"))
    }
}

/// A frame: the length in four big-endian bytes, then the text.
pub open spec fn frame_bytes(text: Seq<char>) -> Seq<u8> {
    big_endian(utf8(text).len(), 4) + utf8(text)
}

pub open spec fn sendable(text: Seq<char>) -> bool {
    utf8(text).len() <= MAX_FRAME && is_ascii_chars(text)
}

/// The bytes that carry `frame`.
pub fn send(frame: &str) -> (bytes: Result<Vec<u8>, Error>)
    ensures
        failure(bytes) == or_fail(
            None,
            sendable(frame@),
            "M4_CHECKPOINT_FAILED"@,
            "checkpoint frame is invalid"@,
        ),
        bytes matches Ok(bytes) ==> bytes@ == frame_bytes(frame@),
{
    if frame.len() > MAX_FRAME || !frame.is_ascii() {
        return Err(fail("checkpoint frame is invalid"));
    }
    let content = frame.as_bytes();
    let mut bytes = to_big_endian(content.len() as u64, 4);
    append(&mut bytes, content);
    Ok(bytes)
}

/// The length that four bytes announce.
pub fn announced(length: [u8; 4]) -> (count: Result<usize, Error>)
    ensures
        ({
            let n = ((length@[0] as nat * 256 + length@[1] as nat) * 256 + length@[2] as nat) * 256
                + length@[3] as nat;
            &&& failure(count) == or_fail(
                None,
                0 < n <= MAX_FRAME,
                "M4_CHECKPOINT_FAILED"@,
                "checkpoint frame length is invalid"@,
            )
            &&& count matches Ok(count) ==> count == n
        }),
{
    let count: u64 = ((length[0] as u64 * 256 + length[1] as u64) * 256 + length[2] as u64) * 256
        + length[3] as u64;
    if count == 0 || count > MAX_FRAME as u64 {
        return Err(fail("checkpoint frame length is invalid"));
    }
    Ok(count as usize)
}

/// The text of a received frame.
pub fn receive(content: &[u8]) -> (text: Result<String, Error>)
    ensures
        failure(text) == or_fail(
            None,
            valid_utf8(content@) && is_ascii_chars(utf8_text(content@)->0),
            "M4_CHECKPOINT_FAILED"@,
            "checkpoint frame is not ASCII"@,
        ),
        text matches Ok(text) ==> utf8(text@) == content@,
{
    match decode_text(content) {
        None => Err(fail("checkpoint frame is not ASCII")),
        Some(text) => if text.as_str().is_ascii() {
            Ok(text)
        } else {
            Err(fail("checkpoint frame is not ASCII"))
        },
    }
}

/// A frame that can be sent arrives as it was sent: four bytes that announce its length, and a content
/// that reads as the text.
pub proof fn law_frame_round_trip(text: Seq<char>)
    requires
        sendable(text),
        text.len() > 0,
    ensures
        frame_bytes(text).len() == 4 + utf8(text).len(),
        frame_bytes(text).subrange(4, frame_bytes(text).len() as int) == utf8(text),
        ((frame_bytes(text)[0] as nat * 256 + frame_bytes(text)[1] as nat) * 256 + frame_bytes(
            text,
        )[2] as nat) * 256 + frame_bytes(text)[3] as nat == utf8(text).len(),
        0 < utf8(text).len() <= MAX_FRAME,
        utf8_text(utf8(text)) == Some(text),
        is_ascii_chars(utf8_text(utf8(text))->0),
{
    lemma_utf8_ascii(text);
    vstd::utf8::encode_utf8_decode_utf8(text);
    vstd::utf8::encode_utf8_valid_utf8(text);
    let n = utf8(text).len();
    lemma_big_endian(n, 0, 4);
    reveal_with_fuel(big_endian, 5);
    let head = big_endian(n, 4);
    assert(frame_bytes(text).subrange(4, frame_bytes(text).len() as int) =~= utf8(text));
    assert(head[3] == (n % 256) as u8);
    assert(head[2] == ((n / 256) % 256) as u8);
    assert(head[1] == ((n / 256 / 256) % 256) as u8);
    assert(head[0] == ((n / 256 / 256 / 256) % 256) as u8);
    assert(frame_bytes(text)[0] == head[0]);
    assert(frame_bytes(text)[1] == head[1]);
    assert(frame_bytes(text)[2] == head[2]);
    assert(frame_bytes(text)[3] == head[3]);
}

} // verus!
