//! Sessions: worktrees that are cloned from a template and bound to an authority. Their records, the
//! names that belong to them, and the steps from one record to the next.

use crate::authority::{failure, hex, or_fail, Authority, AuthorityView, Error, Failure, Identity};
use crate::bytes::{
    append, bytes_of, contains_byte, copy_bytes, ends_with, join2, join3, lemma_utf8_injective,
    optional_view, same_bytes, same_optional_text, same_text, starts_with, text_of, utf8,
};
use crate::content::lemma_pow256_eight;
use crate::digest::{digest_hex, digest_text};
use crate::git;
use crate::m4_checkpoint::{Checkpoint, Control, Fields};
use crate::notation::{
    all_hex, all_lower_hex, big_endian, framed, from_hex, hex_text, lemma_big_endian,
    lemma_hex_text, law_framing_is_injective, only_hex, only_lower_hex, pow256, push_frame,
    to_big_endian, unhex,
};
use crate::paths::{is_absolute_path, joined};
use crate::record_txn::{basename_failure, check_basename, RecordBinding};
use crate::storage::{
    is_private_directory, private_directory, CowReceipt, SealedTreeReceipt, SealedView,
};
use crate::template::lemma_empty_text;
use vstd::prelude::*;
use vstd::string::StringExecFns;

verus! {

/// How long a session record may be.
pub const MAX_RECORD: usize = 16384;

/// Where a session stands.
#[derive(Debug)]
pub enum SessionPayload {
    Prepared { root_name: String },
    Materializing { root_name: String, root_identity: Identity },
    Ready {
        root_name: String,
        root_identity: Identity,
        common_identity: Identity,
        worktree: CowReceipt,
        git: GitMetadataReceipt,
    },
    Tombstoned { root_name: String, tombstone_name: String, root_identity: Identity },
}

/// How far the publication of a session's commit has come. All stages but the first freeze what is
/// published.
#[derive(Debug)]
pub enum PublishJournal {
    Idle,
    Prepared {
        txid: String,
        new: String,
        expected_old: Option<String>,
        config_fingerprint: String,
    },
    ObjectsImported {
        txid: String,
        new: String,
        expected_old: Option<String>,
        config_fingerprint: String,
    },
    CasAttempted {
        txid: String,
        new: String,
        expected_old: Option<String>,
        config_fingerprint: String,
    },
    CasCommitted {
        txid: String,
        new: String,
        expected_old: Option<String>,
        config_fingerprint: String,
    },
}

/// The digests of the files that make a worktree a linked one.
#[derive(Debug)]
pub struct GitMetadataReceipt {
    pub dot_git: String,
    pub head: String,
    pub target_ref: String,
    pub index: String,
    pub worktrees: String,
    pub alternates: String,
}

#[derive(Debug)]
pub struct SessionRecord {
    pub version: u8,
    pub sid: String,
    pub authority_path: String,
    pub authority_identity: Identity,
    pub name: String,
    pub base: String,
    pub target: String,
    pub expected_old: Option<String>,
    pub template_key: String,
    pub template: SealedTreeReceipt,
    pub container_identity: Identity,
    pub volume: String,
    pub payload: SessionPayload,
    pub journal: PublishJournal,
}

pub struct GitMetadataView {
    pub dot_git: Seq<char>,
    pub head: Seq<char>,
    pub target_ref: Seq<char>,
    pub index: Seq<char>,
    pub worktrees: Seq<char>,
    pub alternates: Seq<char>,
}

pub enum SessionPayloadView {
    Prepared { root_name: Seq<char> },
    Materializing { root_name: Seq<char>, root_identity: Identity },
    Ready {
        root_name: Seq<char>,
        root_identity: Identity,
        common_identity: Identity,
        worktree: (SealedView, Identity),
        git: GitMetadataView,
    },
    Tombstoned { root_name: Seq<char>, tombstone_name: Seq<char>, root_identity: Identity },
}

/// What a publication freezes.
pub struct Frozen {
    pub txid: Seq<char>,
    pub new: Seq<char>,
    pub expected_old: Option<Seq<char>>,
    pub config_fingerprint: Seq<char>,
}

pub enum JournalView {
    Idle,
    Prepared(Frozen),
    ObjectsImported(Frozen),
    CasAttempted(Frozen),
    CasCommitted(Frozen),
}

pub struct SessionView {
    pub version: u8,
    pub sid: Seq<char>,
    pub authority_path: Seq<char>,
    pub authority_identity: Identity,
    pub name: Seq<char>,
    pub base: Seq<char>,
    pub target: Seq<char>,
    pub expected_old: Option<Seq<char>>,
    pub template_key: Seq<char>,
    pub template: SealedView,
    pub container_identity: Identity,
    pub volume: Seq<char>,
    pub payload: SessionPayloadView,
    pub journal: JournalView,
}

impl View for GitMetadataReceipt {
    type V = GitMetadataView;

    open spec fn view(&self) -> GitMetadataView {
        GitMetadataView {
            dot_git: self.dot_git@,
            head: self.head@,
            target_ref: self.target_ref@,
            index: self.index@,
            worktrees: self.worktrees@,
            alternates: self.alternates@,
        }
    }
}

impl View for SessionPayload {
    type V = SessionPayloadView;

    open spec fn view(&self) -> SessionPayloadView {
        match self {
            SessionPayload::Prepared { root_name } => SessionPayloadView::Prepared {
                root_name: root_name@,
            },
            SessionPayload::Materializing { root_name, root_identity } => {
                SessionPayloadView::Materializing {
                    root_name: root_name@,
                    root_identity: *root_identity,
                }
            },
            SessionPayload::Ready { root_name, root_identity, common_identity, worktree, git } => {
                SessionPayloadView::Ready {
                    root_name: root_name@,
                    root_identity: *root_identity,
                    common_identity: *common_identity,
                    worktree: worktree@,
                    git: git@,
                }
            },
            SessionPayload::Tombstoned { root_name, tombstone_name, root_identity } => {
                SessionPayloadView::Tombstoned {
                    root_name: root_name@,
                    tombstone_name: tombstone_name@,
                    root_identity: *root_identity,
                }
            },
        }
    }
}

pub open spec fn frozen(
    txid: String,
    new: String,
    expected_old: Option<String>,
    config_fingerprint: String,
) -> Frozen {
    Frozen {
        txid: txid@,
        new: new@,
        expected_old: optional_view(expected_old),
        config_fingerprint: config_fingerprint@,
    }
}

impl View for PublishJournal {
    type V = JournalView;

    open spec fn view(&self) -> JournalView {
        match *self {
            PublishJournal::Idle => JournalView::Idle,
            PublishJournal::Prepared { txid, new, expected_old, config_fingerprint } => {
                JournalView::Prepared(frozen(txid, new, expected_old, config_fingerprint))
            },
            PublishJournal::ObjectsImported { txid, new, expected_old, config_fingerprint } => {
                JournalView::ObjectsImported(frozen(txid, new, expected_old, config_fingerprint))
            },
            PublishJournal::CasAttempted { txid, new, expected_old, config_fingerprint } => {
                JournalView::CasAttempted(frozen(txid, new, expected_old, config_fingerprint))
            },
            PublishJournal::CasCommitted { txid, new, expected_old, config_fingerprint } => {
                JournalView::CasCommitted(frozen(txid, new, expected_old, config_fingerprint))
            },
        }
    }
}

impl View for SessionRecord {
    type V = SessionView;

    open spec fn view(&self) -> SessionView {
        SessionView {
            version: self.version,
            sid: self.sid@,
            authority_path: self.authority_path@,
            authority_identity: self.authority_identity,
            name: self.name@,
            base: self.base@,
            target: self.target@,
            expected_old: optional_view(self.expected_old),
            template_key: self.template_key@,
            template: self.template@,
            container_identity: self.container_identity,
            volume: self.volume@,
            payload: self.payload@,
            journal: self.journal@,
        }
    }
}

impl JournalView {
    /// What is frozen, where anything is.
    pub open spec fn frozen(self) -> Option<Frozen> {
        match self {
            JournalView::Idle => None,
            JournalView::Prepared(frozen) => Some(frozen),
            JournalView::ObjectsImported(frozen) => Some(frozen),
            JournalView::CasAttempted(frozen) => Some(frozen),
            JournalView::CasCommitted(frozen) => Some(frozen),
        }
    }

    pub open spec fn name(self) -> Seq<char> {
        match self {
            JournalView::Idle => "IDLE"@,
            JournalView::Prepared(_) => "PREPARED"@,
            JournalView::ObjectsImported(_) => "OBJECTS_IMPORTED"@,
            JournalView::CasAttempted(_) => "CAS_ATTEMPTED"@,
            JournalView::CasCommitted(_) => "CAS_COMMITTED"@,
        }
    }
}

/// The view of an optional borrowed text.
pub open spec fn optional_text(text: Option<&str>) -> Option<Seq<char>> {
    match text {
        Some(value) => Some(value@),
        None => None,
    }
}

fn as_deref(text: &Option<String>) -> (borrowed: Option<&str>)
    ensures
        optional_text(borrowed) == optional_view(*text),
{
    match text {
        Some(value) => Some(value.as_str()),
        None => None,
    }
}

fn owned(text: Option<&str>) -> (owned: Option<String>)
    ensures
        optional_view(owned) == optional_text(text),
{
    match text {
        Some(value) => Some(text_of(value)),
        None => None,
    }
}

pub fn copy_optional(text: &Option<String>) -> (same: Option<String>)
    ensures
        optional_view(same) == optional_view(*text),
{
    match text {
        Some(value) => Some(value.clone()),
        None => None,
    }
}

impl Default for PublishJournal {
    fn default() -> (journal: Self)
        ensures
            journal is Idle,
    {
        PublishJournal::Idle
    }
}

impl PublishJournal {
    pub fn is_idle(&self) -> (is: bool)
        ensures
            is == (self@ is Idle),
    {
        match self {
            PublishJournal::Idle => true,
            _ => false,
        }
    }

    pub fn state(&self) -> (name: &'static str)
        ensures
            name@ == self@.name(),
    {
        match self {
            PublishJournal::Idle => "IDLE",
            PublishJournal::Prepared { .. } => "PREPARED",
            PublishJournal::ObjectsImported { .. } => "OBJECTS_IMPORTED",
            PublishJournal::CasAttempted { .. } => "CAS_ATTEMPTED",
            PublishJournal::CasCommitted { .. } => "CAS_COMMITTED",
        }
    }

    /// What is frozen: the transaction, the commit, what the target pointed at, and the fingerprint of
    /// the authority's configuration.
    pub fn fields(&self) -> (fields: Option<(&str, &str, Option<&str>, &str)>)
        ensures
            fields is Some == self@.frozen() is Some,
            fields matches Some(found) ==> self@.frozen() == Some(
                Frozen {
                    txid: found.0@,
                    new: found.1@,
                    expected_old: optional_text(found.2),
                    config_fingerprint: found.3@,
                },
            ),
    {
        match self {
            PublishJournal::Idle => None,
            PublishJournal::Prepared { txid, new, expected_old, config_fingerprint } => Some(
                (txid.as_str(), new.as_str(), as_deref(expected_old), config_fingerprint.as_str()),
            ),
            PublishJournal::ObjectsImported { txid, new, expected_old, config_fingerprint } => Some(
                (txid.as_str(), new.as_str(), as_deref(expected_old), config_fingerprint.as_str()),
            ),
            PublishJournal::CasAttempted { txid, new, expected_old, config_fingerprint } => Some(
                (txid.as_str(), new.as_str(), as_deref(expected_old), config_fingerprint.as_str()),
            ),
            PublishJournal::CasCommitted { txid, new, expected_old, config_fingerprint } => Some(
                (txid.as_str(), new.as_str(), as_deref(expected_old), config_fingerprint.as_str()),
            ),
        }
    }

    pub fn copy(&self) -> (same: Self)
        ensures
            same@ == self@,
    {
        match self {
            PublishJournal::Idle => PublishJournal::Idle,
            PublishJournal::Prepared { txid, new, expected_old, config_fingerprint } => {
                PublishJournal::Prepared {
                    txid: txid.clone(),
                    new: new.clone(),
                    expected_old: copy_optional(expected_old),
                    config_fingerprint: config_fingerprint.clone(),
                }
            },
            PublishJournal::ObjectsImported { txid, new, expected_old, config_fingerprint } => {
                PublishJournal::ObjectsImported {
                    txid: txid.clone(),
                    new: new.clone(),
                    expected_old: copy_optional(expected_old),
                    config_fingerprint: config_fingerprint.clone(),
                }
            },
            PublishJournal::CasAttempted { txid, new, expected_old, config_fingerprint } => {
                PublishJournal::CasAttempted {
                    txid: txid.clone(),
                    new: new.clone(),
                    expected_old: copy_optional(expected_old),
                    config_fingerprint: config_fingerprint.clone(),
                }
            },
            PublishJournal::CasCommitted { txid, new, expected_old, config_fingerprint } => {
                PublishJournal::CasCommitted {
                    txid: txid.clone(),
                    new: new.clone(),
                    expected_old: copy_optional(expected_old),
                    config_fingerprint: config_fingerprint.clone(),
                }
            },
        }
    }
}

/// Whether the journal of a record is left out where the record is written.
pub fn publish_journal_is_idle(journal: &PublishJournal) -> (is: bool)
    ensures
        is == (journal@ is Idle),
{
    journal.is_idle()
}

pub open spec fn corrupt(detail: Seq<char>) -> Failure {
    ("SESSION_CORRUPT"@, detail)
}

pub open spec fn needs_recovery(detail: Seq<char>) -> Failure {
    ("SESSION_RECOVERY_REQUIRED"@, detail)
}

pub fn session_recovery(detail: &str) -> (error: Error)
    ensures
        error@ == needs_recovery(detail@),
{
    Error::new("SESSION_RECOVERY_REQUIRED", detail)
}

pub fn require_session(condition: bool, detail: &str) -> (checked: Result<(), Error>)
    ensures
        failure(checked) == or_fail(None, condition, "SESSION_RECOVERY_REQUIRED"@, detail@),
{
    if condition {
        Ok(())
    } else {
        Err(session_recovery(detail))
    }
}

/// An error at the boundary of a record, which leaves the record to be recovered.
pub fn record_binding_recovery(error: Error, boundary: &str) -> (made: Error)
    ensures
        made@ == needs_recovery(boundary@ + ": "@ + error@.1),
{
    Error::new(
        "SESSION_RECOVERY_REQUIRED",
        join3(boundary, ": ", error.detail.as_str()).as_str(),
    )
}

pub fn bound_record_error(error: Error, boundary: &str) -> (made: Error)
    ensures
        made@ == needs_recovery(boundary@ + ": "@ + error@.1),
{
    record_binding_recovery(error, boundary)
}

pub fn git_error(error: git::Error) -> (same: Error)
    ensures
        same@ == error@,
{
    Error::new(error.code, error.detail.as_str())
}

pub fn discard_risk(detail: &str) -> (error: Error)
    ensures
        error@ == ("SESSION_DISCARD_RISK"@, detail@),
{
    Error::new("SESSION_DISCARD_RISK", detail)
}

/// A name that can be handed to the system.
pub fn cstring(bytes: &[u8], label: &str) -> (checked: Result<(), Error>)
    ensures
        failure(checked) == basename_failure(bytes@, label@, "SESSION_CORRUPT"@),
{
    check_basename(bytes, label, "SESSION_CORRUPT")
}

pub open spec fn is_hash(text: Seq<char>) -> bool {
    utf8(text).len() == 64 && all_hex(utf8(text))
}

pub open spec fn is_lower_hash(text: Seq<char>) -> bool {
    utf8(text).len() == 64 && all_lower_hex(utf8(text))
}

pub open spec fn is_oid(text: Seq<char>) -> bool {
    (utf8(text).len() == 40 || utf8(text).len() == 64) && all_hex(utf8(text))
}

pub open spec fn is_lower_oid(text: Seq<char>) -> bool {
    (utf8(text).len() == 40 || utf8(text).len() == 64) && all_lower_hex(utf8(text))
}

/// Bytes that are written down in hexadecimal notation, at least one of them.
pub open spec fn is_lower_hex_text(text: Seq<char>) -> bool {
    utf8(text).len() > 0 && utf8(text).len() % 2 == 0 && all_lower_hex(utf8(text))
}

pub open spec fn is_session_name(name: Seq<u8>) -> bool {
    name.len() > 0 && !name.contains(0)
}

pub fn valid_hash(value: &str) -> (valid: bool)
    ensures
        valid == is_hash(value@),
{
    let bytes = value.as_bytes();
    bytes.len() == 64 && only_hex(bytes)
}

pub fn valid_lower_hash(value: &str) -> (valid: bool)
    ensures
        valid == is_lower_hash(value@),
{
    let bytes = value.as_bytes();
    bytes.len() == 64 && only_lower_hex(bytes)
}

pub fn valid_oid(value: &str) -> (valid: bool)
    ensures
        valid == is_oid(value@),
{
    let bytes = value.as_bytes();
    (bytes.len() == 40 || bytes.len() == 64) && only_hex(bytes)
}

pub fn valid_lower_oid(value: &str) -> (valid: bool)
    ensures
        valid == is_lower_oid(value@),
{
    let bytes = value.as_bytes();
    (bytes.len() == 40 || bytes.len() == 64) && only_lower_hex(bytes)
}

pub fn valid_lower_hex(value: &str) -> (valid: bool)
    ensures
        valid == is_lower_hex_text(value@),
{
    let bytes = value.as_bytes();
    bytes.len() > 0 && bytes.len() % 2 == 0 && only_lower_hex(bytes)
}

pub fn valid_hex(value: &str) -> (valid: bool)
    ensures
        valid == is_lower_hex_text(value@),
{
    valid_lower_hex(value)
}

pub fn valid_session_name(bytes: &[u8]) -> (valid: bool)
    ensures
        valid == is_session_name(bytes@),
{
    bytes.len() > 0 && !contains_byte(bytes, 0)
}

pub fn lower_hex(bytes: &[u8]) -> (only: bool)
    ensures
        only == all_lower_hex(bytes@),
{
    only_lower_hex(bytes)
}

/// The value of a lowercase hexadecimal digit.
pub fn hex_digit(byte: u8) -> (value: Option<u8>)
    ensures
        value == (if 48 <= byte <= 57 {
            Some((byte - 48) as u8)
        } else if 97 <= byte <= 102 {
            Some((byte - 87) as u8)
        } else {
            None
        }),
{
    if byte >= 48 && byte <= 57 {
        Some(byte - 48)
    } else if byte >= 97 && byte <= 102 {
        Some(byte - 97 + 10)
    } else {
        None
    }
}

/// The bytes that a text stands for.
pub open spec fn decoded(text: Seq<char>) -> Seq<u8> {
    unhex(utf8(text))
}

pub open spec fn decode_failure(text: Seq<char>) -> Option<Failure> {
    or_fail(
        None,
        is_lower_hex_text(text),
        "SESSION_CORRUPT"@,
        "stored session bytes are not hexadecimal"@,
    )
}

pub fn decode_hex(value: &str) -> (bytes: Result<Vec<u8>, Error>)
    ensures
        failure(bytes) == decode_failure(value@),
        bytes matches Ok(bytes) ==> bytes@ == decoded(value@),
{
    if !valid_hex(value) {
        return Err(Error::new("SESSION_CORRUPT", "stored session bytes are not hexadecimal"));
    }
    Ok(from_hex(value.as_bytes()))
}

/// Bytes that a record stores come back as they were.
pub proof fn law_stored_bytes_come_back(bytes: Seq<u8>)
    requires
        bytes.len() > 0,
    ensures
        decode_failure(hex_text(bytes)) is None,
        decoded(hex_text(bytes)) == bytes,
{
    lemma_hex_text(bytes);
}

pub open spec fn root_name_text(sid: Seq<char>) -> Seq<char> {
    "session-"@ + sid + ".root"@
}

pub open spec fn tombstone_name_text(sid: Seq<char>) -> Seq<char> {
    "session-"@ + sid + ".tombstone"@
}

pub open spec fn record_name_text(sid: Seq<char>) -> Seq<char> {
    "session-"@ + sid + ".record"@
}

pub fn root_name(sid: &str) -> (name: String)
    ensures
        name@ == root_name_text(sid@),
{
    join3("session-", sid, ".root")
}

pub fn tombstone_name(sid: &str) -> (name: String)
    ensures
        name@ == tombstone_name_text(sid@),
{
    join3("session-", sid, ".tombstone")
}

pub fn record_name(sid: &str) -> (name: Vec<u8>)
    ensures
        name@ == utf8(record_name_text(sid@)),
{
    bytes_of(join3("session-", sid, ".record").as_str())
}

pub open spec fn is_session_record_name(name: Seq<u8>) -> bool {
    utf8("session-"@).is_prefix_of(name) && utf8(".record"@).is_suffix_of(name)
}

pub fn session_record_name(name: &[u8]) -> (is: bool)
    ensures
        is == is_session_record_name(name@),
{
    starts_with(name, "session-".as_bytes()) && ends_with(name, ".record".as_bytes())
}

pub open spec fn is_owned_directory(identity: Identity, uid: u32) -> bool {
    identity.is_directory() && identity.uid == uid && identity.nlink >= 2
}

pub fn owned_directory(identity: Identity, uid: u32) -> (is: bool)
    ensures
        is == is_owned_directory(identity, uid),
{
    identity.directory() && identity.uid == uid && identity.nlink >= 2
}

pub open spec fn is_owned_worktree(identity: Identity, uid: u32) -> bool {
    is_owned_directory(identity, uid) && identity.mode == 0o755
}

pub fn owned_worktree(identity: Identity, uid: u32) -> (is: bool)
    ensures
        is == is_owned_worktree(identity, uid),
{
    identity.directory() && identity.uid == uid && identity.mode == 0o755 && identity.nlink >= 2
}

/// What a session is bound to: the authority's path and node, its owner, and the session's name.
pub struct Binding {
    pub path: Seq<u8>,
    pub dev: u64,
    pub ino: u64,
    pub uid: u32,
    pub name: Seq<u8>,
}

impl Binding {
    pub open spec fn of(path: Seq<u8>, identity: Identity, name: Seq<u8>) -> Binding {
        Binding { path, dev: identity.dev, ino: identity.ino, uid: identity.uid, name }
    }

    /// What is hashed into the identifier of a session.
    pub open spec fn fields(self) -> Seq<Seq<u8>> {
        seq![
            utf8("git-vws/session-id/v1"@),
            self.path,
            big_endian(self.dev as nat, 8),
            big_endian(self.ino as nat, 8),
            big_endian(self.uid as nat, 4),
            self.name,
        ]
    }

    pub open spec fn fits(self) -> bool {
        self.path.len() < pow256(8) && self.name.len() < pow256(8)
    }

    pub open spec fn sid(self) -> Seq<char> {
        digest_text(framed(self.fields()))
    }
}

proof fn lemma_short_fields()
    ensures
        utf8("git-vws/session-id/v1"@).len() < pow256(8),
        utf8("git-vws/publish-id/v1"@).len() < pow256(8),
        pow256(4) == u32::MAX + 1,
        pow256(8) == u64::MAX + 1,
{
    lemma_pow256_eight();
    reveal_with_fuel(pow256, 5);
    reveal_strlit("git-vws/session-id/v1");
    reveal_strlit("git-vws/publish-id/v1");
    crate::bytes::lemma_utf8_ascii("git-vws/session-id/v1"@);
    crate::bytes::lemma_utf8_ascii("git-vws/publish-id/v1"@);
}

/// What is hashed into a session's identifier tells its authority and its name apart from all others.
pub proof fn law_session_message_is_injective(left: Binding, right: Binding)
    requires
        left.fits(),
        right.fits(),
        framed(left.fields()) == framed(right.fields()),
    ensures
        left == right,
{
    lemma_short_fields();
    let l = left.fields();
    let r = right.fields();
    lemma_big_endian(left.dev as nat, right.dev as nat, 8);
    lemma_big_endian(left.ino as nat, right.ino as nat, 8);
    lemma_big_endian(left.uid as nat, right.uid as nat, 4);
    lemma_big_endian(right.dev as nat, left.dev as nat, 8);
    lemma_big_endian(right.ino as nat, left.ino as nat, 8);
    lemma_big_endian(right.uid as nat, left.uid as nat, 4);
    law_framing_is_injective(l, r);
    assert(l[1] == r[1] && l[2] == r[2] && l[3] == r[3] && l[4] == r[4] && l[5] == r[5]);
}

/// Appends one framed field to a message.
pub fn lp(message: &mut Vec<u8>, bytes: &[u8])
    ensures
        final(message)@ == old(message)@ + crate::notation::frame(bytes@),
{
    push_frame(message, bytes)
}

pub fn session_id_for_binding(authority_path: &[u8], authority_identity: Identity, name: &[u8]) -> (sid:
    String)
    ensures
        sid@ == Binding::of(authority_path@, authority_identity, name@).sid(),
        is_lower_hash(sid@),
{
    let mut message: Vec<u8> = Vec::new();
    let dev = to_big_endian(authority_identity.dev, 8);
    let ino = to_big_endian(authority_identity.ino, 8);
    let uid = to_big_endian(authority_identity.uid as u64, 4);
    lp(&mut message, "git-vws/session-id/v1".as_bytes());
    lp(&mut message, authority_path);
    lp(&mut message, dev.as_slice());
    lp(&mut message, ino.as_slice());
    lp(&mut message, uid.as_slice());
    lp(&mut message, name);
    proof {
        let f = Binding::of(authority_path@, authority_identity, name@).fields();
        lemma_framed_all(f);
        lemma_framed_next(f, 0);
        lemma_framed_next(f, 1);
        lemma_framed_next(f, 2);
        lemma_framed_next(f, 3);
        lemma_framed_next(f, 4);
        lemma_framed_next(f, 5);
        assert(message@ =~= framed(f));
    }
    digest_hex(message.as_slice())
}

/// Framing one more field after those before it frames them all.
proof fn lemma_framed_next(fields: Seq<Seq<u8>>, at: int)
    requires
        0 <= at < fields.len(),
    ensures
        framed(fields.take(at + 1)) == framed(fields.take(at)) + crate::notation::frame(fields[at]),
{
    assert(fields.take(at + 1).drop_last() =~= fields.take(at));
    assert(fields.take(at + 1).last() == fields[at]);
}

/// Framing fields from the first on.
proof fn lemma_framed_all(fields: Seq<Seq<u8>>)
    ensures
        framed(fields.take(0)) == Seq::<u8>::empty(),
        framed(fields.take(fields.len() as int)) == framed(fields),
{
    assert(fields.take(fields.len() as int) =~= fields);
    assert(fields.take(0) =~= Seq::<Seq<u8>>::empty());
    assert(framed(fields.take(0)) =~= Seq::<u8>::empty());
}

pub fn session_id(authority: &Authority, name: &[u8]) -> (sid: String)
    ensures
        sid@ == Binding::of(authority@.canonical, authority@.identity, name@).sid(),
        is_lower_hash(sid@),
{
    session_id_for_binding(authority.canonical.as_slice(), authority.identity, name)
}

pub open spec fn path_failure(text: Seq<char>) -> Option<Failure> {
    let f = decode_failure(text);
    or_fail(
        f,
        is_absolute_path(decoded(text)) && !decoded(text).contains(0),
        "SESSION_CORRUPT"@,
        "session record authority path is not absolute"@,
    )
}

impl SessionView {
    /// What the record says its session is bound to.
    pub open spec fn binding(self) -> Binding {
        Binding::of(decoded(self.authority_path), self.authority_identity, decoded(self.name))
    }

    /// What a journal freezes has its form, and only a session that is ready publishes.
    pub open spec fn journal_is_valid(self) -> bool {
        match self.journal.frozen() {
            None => true,
            Some(frozen) => {
                &&& self.payload is Ready
                &&& is_lower_hash(frozen.txid)
                &&& is_lower_oid(frozen.new)
                &&& frozen.expected_old matches Some(old) ==> is_lower_oid(old)
                &&& is_lower_hash(frozen.config_fingerprint)
            },
        }
    }

    pub open spec fn fields_are_valid(self, uid: u32) -> bool {
        &&& self.version == 2
        &&& is_hash(self.sid)
        &&& is_hash(self.template_key)
        &&& is_hash(self.template.digest)
        &&& is_hash(self.template.content_digest)
        &&& is_lower_hex_text(self.authority_path)
        &&& is_lower_hex_text(self.name)
        &&& is_lower_hex_text(self.target)
        &&& is_oid(self.base)
        &&& is_private_directory(self.container_identity, uid)
        &&& self.volume.len() > 0
        &&& self.template.volume == self.volume
        &&& self.expected_old matches Some(old) ==> is_oid(old)
        &&& self.journal_is_valid()
    }

    /// The identifier is the one of the authority and the name.
    pub open spec fn binding_is_valid(self) -> bool {
        &&& is_session_name(decoded(self.name))
        &&& self.authority_identity.is_directory()
        &&& self.sid == self.binding().sid()
    }

    pub open spec fn stage_is_valid(self, uid: u32) -> bool {
        match self.payload {
            SessionPayloadView::Prepared { root_name } => root_name == root_name_text(self.sid),
            SessionPayloadView::Materializing { root_name, root_identity } => root_name
                == root_name_text(self.sid) && is_private_directory(root_identity, uid),
            SessionPayloadView::Ready {
                root_name,
                root_identity,
                common_identity,
                worktree,
                git,
            } => {
                &&& root_name == root_name_text(self.sid)
                &&& is_private_directory(root_identity, uid)
                &&& is_private_directory(common_identity, uid)
                &&& worktree.0 == self.template
                &&& is_owned_directory(worktree.1, uid)
                &&& git.is_valid()
            },
            SessionPayloadView::Tombstoned { root_name, tombstone_name, root_identity } => root_name
                == root_name_text(self.sid) && tombstone_name == tombstone_name_text(self.sid)
                && is_private_directory(root_identity, uid),
        }
    }

    pub open spec fn is_valid(self, uid: u32) -> bool {
        &&& self.fields_are_valid(uid)
        &&& path_failure(self.authority_path) is None
        &&& self.binding_is_valid()
        &&& self.stage_is_valid(uid)
    }

    pub open spec fn validity_failure(self, uid: u32) -> Option<Failure> {
        if !self.fields_are_valid(uid) {
            Some(corrupt("session record contains invalid fields"@))
        } else {
            let f = path_failure(self.authority_path);
            let f = or_fail(
                f,
                self.binding_is_valid(),
                "SESSION_CORRUPT"@,
                "session record does not prove its authority and name binding"@,
            );
            or_fail(
                f,
                self.stage_is_valid(uid),
                "SESSION_CORRUPT"@,
                "session stage bindings are invalid"@,
            )
        }
    }
}

impl GitMetadataView {
    pub open spec fn is_valid(self) -> bool {
        is_hash(self.dot_git) && is_hash(self.head) && is_hash(self.target_ref) && is_hash(
            self.index,
        ) && is_hash(self.worktrees) && is_hash(self.alternates)
    }
}

/// A record is valid exactly when nothing speaks against it.
pub proof fn law_records_without_failure_are_valid(record: SessionView, uid: u32)
    ensures
        record.validity_failure(uid) is None <==> record.is_valid(uid),
{
}

impl GitMetadataReceipt {
    fn valid(&self) -> (valid: bool)
        ensures
            valid == self@.is_valid(),
    {
        valid_hash(self.dot_git.as_str()) && valid_hash(self.head.as_str()) && valid_hash(
            self.target_ref.as_str(),
        ) && valid_hash(self.index.as_str()) && valid_hash(self.worktrees.as_str()) && valid_hash(
            self.alternates.as_str(),
        )
    }

    pub fn same(&self, other: &Self) -> (same: bool)
        ensures
            same == (self@ == other@),
    {
        same_text(self.dot_git.as_str(), other.dot_git.as_str()) && same_text(
            self.head.as_str(),
            other.head.as_str(),
        ) && same_text(self.target_ref.as_str(), other.target_ref.as_str()) && same_text(
            self.index.as_str(),
            other.index.as_str(),
        ) && same_text(self.worktrees.as_str(), other.worktrees.as_str()) && same_text(
            self.alternates.as_str(),
            other.alternates.as_str(),
        )
    }

    pub fn copy(&self) -> (same: Self)
        ensures
            same@ == self@,
    {
        GitMetadataReceipt {
            dot_git: self.dot_git.clone(),
            head: self.head.clone(),
            target_ref: self.target_ref.clone(),
            index: self.index.clone(),
            worktrees: self.worktrees.clone(),
            alternates: self.alternates.clone(),
        }
    }
}

/// The path of the authority that a record is bound to.
pub fn authority_path_from_record(record: &SessionRecord) -> (path: Result<Vec<u8>, Error>)
    ensures
        failure(path) == path_failure(record@.authority_path),
        path matches Ok(path) ==> path@ == decoded(record@.authority_path),
{
    let bytes = decode_hex(record.authority_path.as_str())?;
    if bytes.len() == 0 || bytes[0] != 47 || contains_byte(bytes.as_slice(), 0) {
        return Err(Error::new("SESSION_CORRUPT", "session record authority path is not absolute"));
    }
    Ok(bytes)
}

/// The authority that a record is bound to, its formats left open.
pub fn authority_from_record(record: &SessionRecord) -> (authority: Result<Authority, Error>)
    ensures
        failure(authority) == path_failure(record@.authority_path),
        authority matches Ok(authority) ==> authority@ == (AuthorityView {
            canonical: decoded(record@.authority_path),
            identity: record@.authority_identity,
            object_format: Seq::empty(),
            ref_format: Seq::empty(),
        }),
{
    let canonical = authority_path_from_record(record)?;
    let authority = Authority {
        canonical,
        identity: record.authority_identity,
        object_format: String::new(),
        ref_format: String::new(),
    };
    proof {
        assert(authority@.object_format =~= Seq::empty());
        assert(authority@.ref_format =~= Seq::empty());
    }
    Ok(authority)
}

pub open spec fn is_bound_to(record: SessionView, authority: AuthorityView) -> bool {
    record.authority_path == hex_text(authority.canonical)
        && record.authority_identity.is_same_node(authority.identity)
}

pub fn record_authority_matches(record: &SessionRecord, authority: &Authority) -> (matches: bool)
    ensures
        matches == is_bound_to(record@, authority@),
{
    let path = hex(authority.canonical.as_slice());
    same_text(record.authority_path.as_str(), path.as_str()) && record.authority_identity.same_node(
        authority.identity,
    )
}

pub fn valid_publish_journal(record: &SessionRecord) -> (valid: bool)
    ensures
        valid == record@.journal_is_valid(),
{
    let ready: bool = match &record.payload {
        SessionPayload::Ready { .. } => true,
        _ => false,
    };
    match record.journal.fields() {
        None => true,
        Some((txid, new, expected_old, config_fingerprint)) => {
            let old: bool = match expected_old {
                Some(old) => valid_lower_oid(old),
                None => true,
            };
            ready && valid_lower_hash(txid) && valid_lower_oid(new) && old && valid_lower_hash(
                config_fingerprint,
            )
        },
    }
}

fn valid_record_fields(record: &SessionRecord, uid: u32) -> (valid: bool)
    ensures
        valid == record@.fields_are_valid(uid),
{
    proof {
        lemma_empty_text(record.volume@);
    }
    let old: bool = match &record.expected_old {
        Some(old) => valid_oid(old.as_str()),
        None => true,
    };
    record.version == 2 && valid_hash(record.sid.as_str()) && valid_hash(
        record.template_key.as_str(),
    ) && valid_hash(record.template.manifest.digest.as_str()) && valid_hash(
        record.template.content_digest.as_str(),
    ) && valid_hex(record.authority_path.as_str()) && valid_hex(record.name.as_str()) && valid_hex(
        record.target.as_str(),
    ) && valid_oid(record.base.as_str()) && private_directory(record.container_identity, uid)
        && record.volume.as_str().as_bytes().len() > 0 && same_text(
        record.template.volume.as_str(),
        record.volume.as_str(),
    ) && old && valid_publish_journal(record)
}

fn valid_record_stage(record: &SessionRecord, uid: u32) -> (valid: bool)
    ensures
        valid == record@.stage_is_valid(uid),
{
    let root = root_name(record.sid.as_str());
    let tombstone = tombstone_name(record.sid.as_str());
    match &record.payload {
        SessionPayload::Prepared { root_name } => same_text(root_name.as_str(), root.as_str()),
        SessionPayload::Materializing { root_name, root_identity } => same_text(
            root_name.as_str(),
            root.as_str(),
        ) && private_directory(*root_identity, uid),
        SessionPayload::Ready { root_name, root_identity, common_identity, worktree, git } => {
            same_text(root_name.as_str(), root.as_str()) && private_directory(*root_identity, uid)
                && private_directory(*common_identity, uid) && worktree.source.same(
                &record.template,
            ) && owned_directory(worktree.destination, uid) && git.valid()
        },
        SessionPayload::Tombstoned { root_name, tombstone_name, root_identity } => same_text(
            root_name.as_str(),
            root.as_str(),
        ) && same_text(tombstone_name.as_str(), tombstone.as_str()) && private_directory(
            *root_identity,
            uid,
        ),
    }
}

/// Whether a record says nothing that cannot be; `uid` is the user who runs the program.
pub fn validate_record(record: &SessionRecord, uid: u32) -> (valid: Result<(), Error>)
    ensures
        failure(valid) == record@.validity_failure(uid),
{
    if !valid_record_fields(record, uid) {
        return Err(Error::new("SESSION_CORRUPT", "session record contains invalid fields"));
    }
    let name = decode_hex(record.name.as_str())?;
    let path = authority_path_from_record(record)?;
    let sid = session_id_for_binding(path.as_slice(), record.authority_identity, name.as_slice());
    if !valid_session_name(name.as_slice()) || !record.authority_identity.directory() || !same_text(
        record.sid.as_str(),
        sid.as_str(),
    ) {
        return Err(
            Error::new(
                "SESSION_CORRUPT",
                "session record does not prove its authority and name binding",
            ),
        );
    }
    if valid_record_stage(record, uid) {
        Ok(())
    } else {
        Err(Error::new("SESSION_CORRUPT", "session stage bindings are invalid"))
    }
}

pub open spec fn encode_failure(
    record: SessionView,
    encoded: Result<Vec<u8>, String>,
    uid: u32,
) -> Option<Failure> {
    match record.validity_failure(uid) {
        Some(failed) => Some(failed),
        None => match encoded {
            Err(words) => Some(("SESSION_IO_FAILED"@, "cannot encode session record: "@ + words@)),
            Ok(bytes) => or_fail(
                None,
                bytes@.len() <= MAX_RECORD,
                "SESSION_CORRUPT"@,
                "session record exceeds its receipt limit"@,
            ),
        },
    }
}

/// The bytes of a record, as the serializer gave them: only of a record that can be, and only where
/// they are not too many.
pub fn encode_record(record: &SessionRecord, encoded: Result<Vec<u8>, String>, uid: u32) -> (bytes:
    Result<Vec<u8>, Error>)
    ensures
        failure(bytes) == encode_failure(record@, encoded, uid),
        bytes matches Ok(bytes) ==> encoded == Ok::<Vec<u8>, String>(bytes),
{
    validate_record(record, uid)?;
    match encoded {
        Err(words) => Err(
            Error::new(
                "SESSION_IO_FAILED",
                join2("cannot encode session record: ", words.as_str()).as_str(),
            ),
        ),
        Ok(bytes) => {
            if bytes.len() > MAX_RECORD {
                return Err(
                    Error::new("SESSION_CORRUPT", "session record exceeds its receipt limit"),
                );
            }
            Ok(bytes)
        },
    }
}

pub open spec fn parse_failure(
    parsed: Option<SessionRecord>,
    encoded: Result<Vec<u8>, String>,
    bytes: Seq<u8>,
    uid: u32,
) -> Option<Failure> {
    match parsed {
        None => Some(corrupt("session record is not valid JSON"@)),
        Some(record) => {
            let f = encode_failure(record@, encoded, uid);
            or_fail(
                f,
                encoded matches Ok(again) && again@ == bytes,
                "SESSION_CORRUPT"@,
                "session record is not canonically encoded"@,
            )
        },
    }
}

/// The record that was read from `bytes`: `parsed` is what they say, and `encoded` what that is written
/// as.
pub fn parse_record(
    parsed: Option<SessionRecord>,
    encoded: Result<Vec<u8>, String>,
    bytes: &[u8],
    uid: u32,
) -> (record: Result<SessionRecord, Error>)
    ensures
        failure(record) == parse_failure(parsed, encoded, bytes@, uid),
        record matches Ok(record) ==> parsed == Some(record) && record@.is_valid(uid),
{
    match parsed {
        None => Err(Error::new("SESSION_CORRUPT", "session record is not valid JSON")),
        Some(record) => {
            let again = encode_record(&record, encoded, uid)?;
            if !same_bytes(again.as_slice(), bytes) {
                return Err(
                    Error::new("SESSION_CORRUPT", "session record is not canonically encoded"),
                );
            }
            Ok(record)
        },
    }
}

/// A record and the file that it was read from.
#[derive(Debug)]
pub struct RecordCapability {
    pub basename: Vec<u8>,
    pub record: SessionRecord,
    pub binding: RecordBinding,
}

pub struct CapabilityView {
    pub basename: Seq<u8>,
    pub record: SessionView,
    pub binding: (Seq<u8>, Identity),
}

impl View for RecordCapability {
    type V = CapabilityView;

    open spec fn view(&self) -> CapabilityView {
        CapabilityView {
            basename: self.basename@,
            record: self.record@,
            binding: self.binding@,
        }
    }
}

impl RecordCapability {
    pub fn copy(&self) -> (same: Self)
        ensures
            same@ == self@,
    {
        RecordCapability {
            basename: copy_bytes(self.basename.as_slice()),
            record: self.record.copy(),
            binding: self.binding.copy(),
        }
    }
}

pub open spec fn capability_failure(
    basename: Seq<u8>,
    parsed: Option<SessionRecord>,
    encoded: Result<Vec<u8>, String>,
    bytes: Seq<u8>,
    uid: u32,
) -> Option<Failure> {
    let f = parse_failure(parsed, encoded, bytes, uid);
    or_fail(
        f,
        parsed matches Some(record) && basename == utf8(record_name_text(record@.sid)),
        "SESSION_CORRUPT"@,
        "session record basename does not match its session ID"@,
    )
}

/// The record of a file, which has to stand under the name that its identifier gives it.
pub fn record_capability_from_binding(
    basename: Vec<u8>,
    binding: RecordBinding,
    parsed: Option<SessionRecord>,
    encoded: Result<Vec<u8>, String>,
    uid: u32,
) -> (capability: Result<RecordCapability, Error>)
    ensures
        failure(capability) == capability_failure(
            basename@,
            parsed,
            encoded,
            binding@.0,
            uid,
        ),
        capability matches Ok(capability) ==> {
            &&& capability@.basename == basename@
            &&& capability@.binding == binding@
            &&& parsed == Some(capability.record)
            &&& capability@.record.is_valid(uid)
        },
{
    let record = parse_record(parsed, encoded, binding.bytes.as_slice(), uid)?;
    let name = record_name(record.sid.as_str());
    if !same_bytes(basename.as_slice(), name.as_slice()) {
        return Err(
            Error::new("SESSION_CORRUPT", "session record basename does not match its session ID"),
        );
    }
    Ok(RecordCapability { basename, record, binding })
}

/// What is read of a record file, and what is made of it.
pub fn read_record_capability(
    basename: Vec<u8>,
    read: Result<RecordBinding, Error>,
    parsed: Option<SessionRecord>,
    encoded: Result<Vec<u8>, String>,
    uid: u32,
) -> (capability: Result<RecordCapability, Error>)
    ensures
        failure(capability) == match read {
            Err(error) => Some(
                needs_recovery("cannot read session record capability"@ + ": "@ + error@.1),
            ),
            Ok(binding) => capability_failure(basename@, parsed, encoded, binding@.0, uid),
        },
        capability matches Ok(capability) ==> {
            &&& capability@.basename == basename@
            &&& read matches Ok(binding) && capability@.binding == binding@
            &&& parsed == Some(capability.record)
            &&& capability@.record.is_valid(uid)
        },
{
    match read {
        Err(error) => Err(record_binding_recovery(error, "cannot read session record capability")),
        Ok(binding) => record_capability_from_binding(basename, binding, parsed, encoded, uid),
    }
}

impl SessionPayload {
    pub fn copy(&self) -> (same: Self)
        ensures
            same@ == self@,
    {
        match self {
            SessionPayload::Prepared { root_name } => SessionPayload::Prepared {
                root_name: root_name.clone(),
            },
            SessionPayload::Materializing { root_name, root_identity } => {
                SessionPayload::Materializing {
                    root_name: root_name.clone(),
                    root_identity: *root_identity,
                }
            },
            SessionPayload::Ready { root_name, root_identity, common_identity, worktree, git } => {
                SessionPayload::Ready {
                    root_name: root_name.clone(),
                    root_identity: *root_identity,
                    common_identity: *common_identity,
                    worktree: CowReceipt {
                        source: worktree.source.copy(),
                        destination: worktree.destination,
                    },
                    git: git.copy(),
                }
            },
            SessionPayload::Tombstoned { root_name, tombstone_name, root_identity } => {
                SessionPayload::Tombstoned {
                    root_name: root_name.clone(),
                    tombstone_name: tombstone_name.clone(),
                    root_identity: *root_identity,
                }
            },
        }
    }
}

impl SessionPayload {
    pub fn same(&self, other: &Self) -> (same: bool)
        ensures
            same == (self@ == other@),
    {
        match (self, other) {
            (
                SessionPayload::Prepared { root_name: left },
                SessionPayload::Prepared { root_name: right },
            ) => same_text(left.as_str(), right.as_str()),
            (
                SessionPayload::Materializing { root_name: left, root_identity: from },
                SessionPayload::Materializing { root_name: right, root_identity: to },
            ) => same_text(left.as_str(), right.as_str()) && *from == *to,
            (
                SessionPayload::Ready {
                    root_name: left,
                    root_identity: from,
                    common_identity: from_common,
                    worktree: from_worktree,
                    git: from_git,
                },
                SessionPayload::Ready {
                    root_name: right,
                    root_identity: to,
                    common_identity: to_common,
                    worktree: to_worktree,
                    git: to_git,
                },
            ) => same_text(left.as_str(), right.as_str()) && *from == *to && *from_common
                == *to_common && from_worktree.source.same(&to_worktree.source)
                && from_worktree.destination == to_worktree.destination && from_git.same(to_git),
            (
                SessionPayload::Tombstoned {
                    root_name: left,
                    tombstone_name: left_tombstone,
                    root_identity: from,
                },
                SessionPayload::Tombstoned {
                    root_name: right,
                    tombstone_name: right_tombstone,
                    root_identity: to,
                },
            ) => same_text(left.as_str(), right.as_str()) && same_text(
                left_tombstone.as_str(),
                right_tombstone.as_str(),
            ) && *from == *to,
            _ => false,
        }
    }
}

impl PublishFields {
    pub fn same(&self, other: &Self) -> (same: bool)
        ensures
            same == (self@ == other@),
    {
        same_text(self.txid.as_str(), other.txid.as_str()) && same_text(
            self.new.as_str(),
            other.new.as_str(),
        ) && same_optional_text(&self.expected_old, &other.expected_old) && same_text(
            self.config_fingerprint.as_str(),
            other.config_fingerprint.as_str(),
        )
    }
}

impl PublishJournal {
    fn stage_number(&self) -> (number: u8)
        ensures
            number == match self@ {
                JournalView::Idle => 0u8,
                JournalView::Prepared(_) => 1u8,
                JournalView::ObjectsImported(_) => 2u8,
                JournalView::CasAttempted(_) => 3u8,
                JournalView::CasCommitted(_) => 4u8,
            },
    {
        match self {
            PublishJournal::Idle => 0,
            PublishJournal::Prepared { .. } => 1,
            PublishJournal::ObjectsImported { .. } => 2,
            PublishJournal::CasAttempted { .. } => 3,
            PublishJournal::CasCommitted { .. } => 4,
        }
    }

    fn frozen_fields(&self) -> (fields: Option<PublishFields>)
        ensures
            fields is Some == self@.frozen() is Some,
            fields matches Some(fields) ==> self@.frozen() == Some(fields@),
    {
        match self.fields() {
            None => None,
            Some((txid, new, expected_old, config_fingerprint)) => Some(
                PublishFields {
                    txid: text_of(txid),
                    new: text_of(new),
                    expected_old: owned(expected_old),
                    config_fingerprint: text_of(config_fingerprint),
                },
            ),
        }
    }

    pub fn same(&self, other: &Self) -> (same: bool)
        ensures
            same == (self@ == other@),
    {
        if self.stage_number() != other.stage_number() {
            return false;
        }
        match (self.frozen_fields(), other.frozen_fields()) {
            (Some(left), Some(right)) => left.same(&right),
            (None, None) => true,
            _ => false,
        }
    }
}

impl SessionRecord {
    pub fn same(&self, other: &Self) -> (same: bool)
        ensures
            same == (self@ == other@),
    {
        self.version == other.version && same_text(self.sid.as_str(), other.sid.as_str())
            && same_text(self.authority_path.as_str(), other.authority_path.as_str())
            && self.authority_identity == other.authority_identity && same_text(
            self.name.as_str(),
            other.name.as_str(),
        ) && same_text(self.base.as_str(), other.base.as_str()) && same_text(
            self.target.as_str(),
            other.target.as_str(),
        ) && same_optional_text(&self.expected_old, &other.expected_old) && same_text(
            self.template_key.as_str(),
            other.template_key.as_str(),
        ) && self.template.same(&other.template) && self.container_identity
            == other.container_identity && same_text(self.volume.as_str(), other.volume.as_str())
            && self.payload.same(&other.payload) && self.journal.same(&other.journal)
    }

    pub fn copy(&self) -> (same: Self)
        ensures
            same@ == self@,
    {
        SessionRecord {
            version: self.version,
            sid: self.sid.clone(),
            authority_path: self.authority_path.clone(),
            authority_identity: self.authority_identity,
            name: self.name.clone(),
            base: self.base.clone(),
            target: self.target.clone(),
            expected_old: copy_optional(&self.expected_old),
            template_key: self.template_key.clone(),
            template: self.template.copy(),
            container_identity: self.container_identity,
            volume: self.volume.clone(),
            payload: self.payload.copy(),
            journal: self.journal.copy(),
        }
    }

    /// The record of a session whose directory stands.
    pub fn materializing(&self, root_identity: Identity) -> (next: Self)
        ensures
            next@ == self@.materialize(root_identity),
    {
        let mut next = self.copy();
        next.payload = SessionPayload::Materializing {
            root_name: root_name(self.sid.as_str()),
            root_identity,
        };
        next
    }

    /// The record of a session whose worktree is cloned and linked.
    pub fn ready(
        &self,
        root_identity: Identity,
        common_identity: Identity,
        worktree: CowReceipt,
        git: GitMetadataReceipt,
    ) -> (next: Self)
        ensures
            next@ == self@.settle(root_identity, common_identity, worktree@, git@),
    {
        let mut next = self.copy();
        next.payload = SessionPayload::Ready {
            root_name: root_name(self.sid.as_str()),
            root_identity,
            common_identity,
            worktree,
            git,
        };
        next
    }

    /// The record of a session that is to go.
    pub fn tombstoned(&self, root_identity: Identity) -> (next: Self)
        ensures
            next@ == self@.bury(root_identity),
    {
        let mut next = self.copy();
        next.payload = SessionPayload::Tombstoned {
            root_name: root_name(self.sid.as_str()),
            tombstone_name: tombstone_name(self.sid.as_str()),
            root_identity,
        };
        next
    }

    pub fn with_journal(&self, journal: PublishJournal) -> (next: Self)
        ensures
            next@ == (SessionView { journal: journal@, ..self@ }),
    {
        let mut next = self.copy();
        next.journal = journal;
        next
    }

    /// The record once a publication is through: the target now points at what was published.
    pub fn published(&self, new: String) -> (next: Self)
        ensures
            next@ == self@.publish(new@),
    {
        let mut next = self.copy();
        next.expected_old = Some(new);
        next.journal = PublishJournal::Idle;
        next
    }
}

impl SessionView {
    pub open spec fn materialize(self, root_identity: Identity) -> SessionView {
        SessionView {
            payload: SessionPayloadView::Materializing {
                root_name: root_name_text(self.sid),
                root_identity,
            },
            ..self
        }
    }

    pub open spec fn settle(
        self,
        root_identity: Identity,
        common_identity: Identity,
        worktree: (SealedView, Identity),
        git: GitMetadataView,
    ) -> SessionView {
        SessionView {
            payload: SessionPayloadView::Ready {
                root_name: root_name_text(self.sid),
                root_identity,
                common_identity,
                worktree,
                git,
            },
            ..self
        }
    }

    pub open spec fn bury(self, root_identity: Identity) -> SessionView {
        SessionView {
            payload: SessionPayloadView::Tombstoned {
                root_name: root_name_text(self.sid),
                tombstone_name: tombstone_name_text(self.sid),
                root_identity,
            },
            ..self
        }
    }

    pub open spec fn publish(self, new: Seq<char>) -> SessionView {
        SessionView { expected_old: Some(new), journal: JournalView::Idle, ..self }
    }

    /// The same session, wherever the two records stand.
    pub open spec fn is_same_session(self, other: SessionView) -> bool {
        &&& self.version == 2
        &&& self.sid == other.sid
        &&& self.authority_path == other.authority_path
        &&& self.authority_identity == other.authority_identity
        &&& self.name == other.name
        &&& self.base == other.base
        &&& self.target == other.target
        &&& self.expected_old == other.expected_old
        &&& self.template_key == other.template_key
        &&& self.template == other.template
        &&& self.container_identity.is_same_node(other.container_identity)
        &&& self.volume == other.volume
    }

    /// The step from one record of a session to its next.
    pub open spec fn steps_to(self, next: SessionView) -> bool {
        &&& self.is_same_session(next)
        &&& self.journal is Idle
        &&& next.journal is Idle
        &&& match (self.payload, next.payload) {
            (
                SessionPayloadView::Prepared { root_name: left },
                SessionPayloadView::Materializing { root_name: right, .. },
            ) => left == right,
            (
                SessionPayloadView::Materializing { root_name: left, root_identity: from },
                SessionPayloadView::Ready { root_name: right, root_identity: to, .. },
            ) => left == right && from.is_same_node(to),
            (
                SessionPayloadView::Ready { root_name: left, root_identity: from, .. },
                SessionPayloadView::Tombstoned { root_name: right, root_identity: to, .. },
            ) => left == right && from.is_same_node(to),
            _ => false,
        }
    }

    /// How far a session has come.
    pub open spec fn rank(self) -> int {
        match self.payload {
            SessionPayloadView::Prepared { .. } => 0,
            SessionPayloadView::Materializing { .. } => 1,
            SessionPayloadView::Ready { .. } => 2,
            SessionPayloadView::Tombstoned { .. } => 3,
        }
    }
}

/// Each step takes a session one stage further, so no session comes back to a stage it has left.
pub proof fn law_session_steps_go_forward(previous: SessionView, next: SessionView)
    requires
        previous.steps_to(next),
    ensures
        next.rank() == previous.rank() + 1,
        !next.steps_to(previous),
{
}

/// Every step leads from a valid record to a valid one, given receipts that fit it.
pub proof fn law_session_steps_keep_records_valid(
    record: SessionView,
    root: Identity,
    common: Identity,
    worktree: (SealedView, Identity),
    git: GitMetadataView,
    uid: u32,
)
    requires
        record.is_valid(uid),
        is_private_directory(root, uid),
    ensures
        record.payload is Prepared ==> record.materialize(root).is_valid(uid) && record.steps_to(
            record.materialize(root),
        ),
        record.payload is Materializing && record.payload->Materializing_root_identity.is_same_node(
            root,
        ) && is_private_directory(common, uid) && worktree.0 == record.template
            && is_owned_directory(worktree.1, uid) && git.is_valid() ==> {
            &&& record.settle(root, common, worktree, git).is_valid(uid)
            &&& record.steps_to(record.settle(root, common, worktree, git))
        },
        record.payload is Ready && record.journal is Idle
            && record.payload->Ready_root_identity.is_same_node(root) ==> record.bury(
            root,
        ).is_valid(uid) && record.steps_to(record.bury(root)),
{
}

/// A session that is ready stays valid through each stage of a publication and at its end.
pub proof fn law_publication_keeps_records_valid(record: SessionView, frozen: Frozen, uid: u32)
    requires
        record.is_valid(uid),
        record.payload is Ready,
        is_lower_hash(frozen.txid),
        is_lower_oid(frozen.new),
        frozen.expected_old matches Some(old) ==> is_lower_oid(old),
        is_lower_hash(frozen.config_fingerprint),
    ensures
        (SessionView { journal: JournalView::Idle, ..record }).is_valid(uid),
        (SessionView { journal: JournalView::Prepared(frozen), ..record }).is_valid(uid),
        (SessionView { journal: JournalView::ObjectsImported(frozen), ..record }).is_valid(uid),
        (SessionView { journal: JournalView::CasAttempted(frozen), ..record }).is_valid(uid),
        (SessionView { journal: JournalView::CasCommitted(frozen), ..record }).is_valid(uid),
        record.publish(frozen.new).is_valid(uid),
{
    let bytes = utf8(frozen.new);
    assert forall|i: int| 0 <= i < bytes.len() implies crate::notation::is_hex(
        #[trigger] bytes[i],
    ) by {
        assert(crate::notation::is_lower_hex(bytes[i]));
    }
}

/// Whether a record that stands is the one that was about to be made.
pub fn matches_existing(existing: &SessionRecord, prepared: &SessionRecord) -> (matches: bool)
    ensures
        matches == existing@.is_same_session(prepared@),
{
    existing.version == 2 && same_text(existing.sid.as_str(), prepared.sid.as_str()) && same_text(
        existing.authority_path.as_str(),
        prepared.authority_path.as_str(),
    ) && existing.authority_identity == prepared.authority_identity && same_text(
        existing.name.as_str(),
        prepared.name.as_str(),
    ) && same_text(existing.base.as_str(), prepared.base.as_str()) && same_text(
        existing.target.as_str(),
        prepared.target.as_str(),
    ) && same_optional_text(&existing.expected_old, &prepared.expected_old) && same_text(
        existing.template_key.as_str(),
        prepared.template_key.as_str(),
    ) && existing.template.same(&prepared.template) && existing.container_identity.same_node(
        prepared.container_identity,
    ) && same_text(existing.volume.as_str(), prepared.volume.as_str())
}

/// Whether one record is the other's direct predecessor.
pub fn session_precedes(previous: &SessionRecord, current: &SessionRecord) -> (precedes: bool)
    ensures
        precedes == previous@.steps_to(current@),
{
    if !matches_existing(previous, current) || !previous.journal.is_idle()
        || !current.journal.is_idle() {
        return false;
    }
    match (&previous.payload, &current.payload) {
        (
            SessionPayload::Prepared { root_name: left },
            SessionPayload::Materializing { root_name: right, .. },
        ) => same_text(left.as_str(), right.as_str()),
        (
            SessionPayload::Materializing { root_name: left, root_identity: from },
            SessionPayload::Ready { root_name: right, root_identity: to, .. },
        ) => same_text(left.as_str(), right.as_str()) && from.same_node(*to),
        (
            SessionPayload::Ready { root_name: left, root_identity: from, .. },
            SessionPayload::Tombstoned { root_name: right, root_identity: to, .. },
        ) => same_text(left.as_str(), right.as_str()) && from.same_node(*to),
        _ => false,
    }
}

/// The name of a session as it was asked for: the name itself, or its bytes in hexadecimal notation.
pub open spec fn selection_failure(raw: Option<Seq<u8>>, encoded: Option<Seq<char>>) -> Option<
    Failure,
> {
    match (raw, encoded) {
        (Some(name), None) => or_fail(
            None,
            is_session_name(name),
            "SESSION_USAGE"@,
            "session name is invalid"@,
        ),
        (None, Some(text)) => {
            let f = or_fail(
                None,
                is_lower_hex_text(text),
                "SESSION_USAGE"@,
                "--name-hex must be lowercase non-empty even-length hexadecimal"@,
            );
            or_fail(
                f,
                is_session_name(decoded(text)),
                "SESSION_USAGE"@,
                "--name-hex decodes to an invalid name"@,
            )
        },
        _ => Some(("SESSION_USAGE"@, "select exactly one of NAME or --name-hex"@)),
    }
}

/// The view of optional bytes.
pub open spec fn optional_bytes(bytes: Option<Vec<u8>>) -> Option<Seq<u8>> {
    match bytes {
        Some(value) => Some(value@),
        None => None,
    }
}

pub fn selected_name(raw_name: Option<Vec<u8>>, name_hex: Option<String>) -> (name: Result<
    Vec<u8>,
    Error,
>)
    ensures
        failure(name) == selection_failure(optional_bytes(raw_name), optional_view(name_hex)),
        name matches Ok(name) ==> name@ == match raw_name {
            Some(raw) => raw@,
            None => decoded(name_hex->0@),
        },
{
    match (raw_name, name_hex) {
        (Some(name), None) => {
            if valid_session_name(name.as_slice()) {
                Ok(name)
            } else {
                Err(Error::new("SESSION_USAGE", "session name is invalid"))
            }
        },
        (None, Some(encoded)) => {
            if !valid_lower_hex(encoded.as_str()) {
                return Err(
                    Error::new(
                        "SESSION_USAGE",
                        "--name-hex must be lowercase non-empty even-length hexadecimal",
                    ),
                );
            }
            let bytes = decode_hex(encoded.as_str())?;
            if valid_session_name(bytes.as_slice()) {
                Ok(bytes)
            } else {
                Err(Error::new("SESSION_USAGE", "--name-hex decodes to an invalid name"))
            }
        },
        _ => Err(Error::new("SESSION_USAGE", "select exactly one of NAME or --name-hex")),
    }
}

/// A name selects the same session by itself and by its hexadecimal notation.
pub proof fn law_both_selections_agree(name: Seq<u8>)
    requires
        is_session_name(name),
    ensures
        selection_failure(Some(name), None) is None,
        selection_failure(None, Some(hex_text(name))) is None,
        decoded(hex_text(name)) == name,
{
    law_stored_bytes_come_back(name);
}

pub open spec fn idle_failure(journal: JournalView) -> Option<Failure> {
    match journal {
        JournalView::Idle => None,
        JournalView::CasCommitted(_) => Some(
            (
                "PUBLISH_COMMITTED_RECOVERY_REQUIRED"@,
                "session publish journal must be recovered before another lifecycle operation"@,
            ),
        ),
        _ => Some(
            (
                "PUBLISH_RECOVERY_REQUIRED"@,
                "session publish journal must be recovered before another lifecycle operation"@,
            ),
        ),
    }
}

pub fn ensure_publish_idle(record: &SessionRecord) -> (idle: Result<(), Error>)
    ensures
        failure(idle) == idle_failure(record@.journal),
{
    if record.journal.is_idle() {
        return Ok(());
    }
    let code = match &record.journal {
        PublishJournal::CasCommitted { .. } => "PUBLISH_COMMITTED_RECOVERY_REQUIRED",
        _ => "PUBLISH_RECOVERY_REQUIRED",
    };
    Err(
        Error::new(
            code,
            "session publish journal must be recovered before another lifecycle operation",
        ),
    )
}

pub fn publish_recovery(error: Error) -> (made: Error)
    ensures
        made@ == (
            "PUBLISH_RECOVERY_REQUIRED"@,
            "publish journal outcome requires recovery: "@ + error@.1,
        ),
{
    Error::new(
        "PUBLISH_RECOVERY_REQUIRED",
        join2("publish journal outcome requires recovery: ", error.detail.as_str()).as_str(),
    )
}

pub fn publish_committed_recovery(error: Error) -> (made: Error)
    ensures
        made@ == (
            "PUBLISH_COMMITTED_RECOVERY_REQUIRED"@,
            "publish commit outcome requires recovery: "@ + error@.1,
        ),
{
    Error::new(
        "PUBLISH_COMMITTED_RECOVERY_REQUIRED",
        join2("publish commit outcome requires recovery: ", error.detail.as_str()).as_str(),
    )
}

pub open spec fn success_text(record: SessionView, new: Seq<char>) -> Seq<char> {
    "published "@ + record.target + " "@ + new
}

pub fn publish_success(record: &SessionRecord, new: &str) -> (text: String)
    ensures
        text@ == success_text(record@, new@),
{
    let mut text = join3("published ", record.target.as_str(), " ");
    text.append(new);
    text
}

/// One session in a listing.
#[derive(Debug)]
pub struct ListRecord {
    pub version: u8,
    pub authority_path_hex: String,
    pub authority_identity: Identity,
    pub name_hex: String,
    pub state: &'static str,
    pub publish_state: &'static str,
    pub base: String,
    pub target_hex: String,
    pub managed_path_hex: String,
}

pub struct ListView {
    pub version: u8,
    pub authority_path_hex: Seq<char>,
    pub authority_identity: Identity,
    pub name_hex: Seq<char>,
    pub state: Seq<char>,
    pub publish_state: Seq<char>,
    pub base: Seq<char>,
    pub target_hex: Seq<char>,
    pub managed_path_hex: Seq<char>,
}

impl View for ListRecord {
    type V = ListView;

    open spec fn view(&self) -> ListView {
        ListView {
            version: self.version,
            authority_path_hex: self.authority_path_hex@,
            authority_identity: self.authority_identity,
            name_hex: self.name_hex@,
            state: self.state@,
            publish_state: self.publish_state@,
            base: self.base@,
            target_hex: self.target_hex@,
            managed_path_hex: self.managed_path_hex@,
        }
    }
}

impl SessionPayloadView {
    /// Where a session stands, as a listing says it.
    pub open spec fn state(self) -> Seq<char> {
        match self {
            SessionPayloadView::Prepared { .. } => "CREATING"@,
            SessionPayloadView::Materializing { .. } => "CREATING"@,
            SessionPayloadView::Ready { .. } => "READY"@,
            SessionPayloadView::Tombstoned { .. } => "TOMBSTONED"@,
        }
    }

    /// The name under which the session's directory is to be found.
    pub open spec fn managed_name(self) -> Seq<char> {
        match self {
            SessionPayloadView::Prepared { root_name } => root_name,
            SessionPayloadView::Materializing { root_name, .. } => root_name,
            SessionPayloadView::Ready { root_name, .. } => root_name,
            SessionPayloadView::Tombstoned { tombstone_name, .. } => tombstone_name,
        }
    }
}

impl SessionView {
    pub open spec fn listed(self, sessions_path: Seq<u8>) -> ListView {
        ListView {
            version: 1,
            authority_path_hex: self.authority_path,
            authority_identity: self.authority_identity,
            name_hex: self.name,
            state: self.payload.state(),
            publish_state: self.journal.name(),
            base: self.base,
            target_hex: self.target,
            managed_path_hex: hex_text(joined(sessions_path, utf8(self.payload.managed_name()))),
        }
    }
}

pub fn list_record(record: &SessionRecord, sessions_path: &[u8]) -> (listed: ListRecord)
    ensures
        listed@ == record@.listed(sessions_path@),
{
    let (state, root) = match &record.payload {
        SessionPayload::Prepared { root_name } => ("CREATING", root_name),
        SessionPayload::Materializing { root_name, .. } => ("CREATING", root_name),
        SessionPayload::Ready { root_name, .. } => ("READY", root_name),
        SessionPayload::Tombstoned { tombstone_name, .. } => ("TOMBSTONED", tombstone_name),
    };
    let managed = crate::paths::join(sessions_path, root.as_str().as_bytes());
    ListRecord {
        version: 1,
        authority_path_hex: record.authority_path.clone(),
        authority_identity: record.authority_identity,
        name_hex: record.name.clone(),
        state,
        publish_state: record.journal.state(),
        base: record.base.clone(),
        target_hex: record.target.clone(),
        managed_path_hex: hex(managed.as_slice()),
    }
}

/// What is written where a session was removed.
#[derive(Debug)]
pub struct RemoveEvent {
    pub version: u8,
    pub event: &'static str,
    pub authority_path_hex: String,
    pub authority_identity: Identity,
    pub name_hex: String,
}

pub fn remove_event(authority: &Authority, name: &[u8]) -> (event: RemoveEvent)
    ensures
        event.version == 1,
        event.event@ == "REMOVED"@,
        event.authority_path_hex@ == hex_text(authority@.canonical),
        event.authority_identity == authority@.identity,
        event.name_hex@ == hex_text(name@),
{
    RemoveEvent {
        version: 1,
        event: "REMOVED",
        authority_path_hex: hex(authority.canonical.as_slice()),
        authority_identity: authority.identity,
        name_hex: hex(name),
    }
}

/// The line of an event, as the serializer gave it.
pub fn encode_event(encoded: Result<String, String>) -> (line: Result<String, Error>)
    ensures
        failure(line) == match encoded {
            Ok(_) => None,
            Err(words) => Some(("SESSION_IO_FAILED"@, "cannot encode remove event: "@ + words@)),
        },
        line matches Ok(line) ==> encoded == Ok::<String, String>(line),
{
    match encoded {
        Ok(line) => Ok(line),
        Err(words) => Err(
            Error::new(
                "SESSION_IO_FAILED",
                join2("cannot encode remove event: ", words.as_str()).as_str(),
            ),
        ),
    }
}

/// Some bytes stand within others.
pub open spec fn includes_at(bytes: Seq<u8>, needle: Seq<u8>, at: int) -> bool {
    0 <= at <= bytes.len() - needle.len() && bytes.subrange(at, at + needle.len()) == needle
}

pub open spec fn includes(bytes: Seq<u8>, needle: Seq<u8>) -> bool {
    exists|at: int| includes_at(bytes, needle, at)
}

pub fn bytes_include(bytes: &[u8], needle: &[u8]) -> (found: bool)
    ensures
        found == includes(bytes@, needle@),
{
    if needle.len() > bytes.len() {
        return false;
    }
    let size: usize = bytes.len();
    let last: usize = size - needle.len();
    let mut at: usize = 0;
    while at <= last
        invariant
            size == bytes@.len(),
            needle@.len() + last == size,
            at <= last + 1,
            forall|i: int| 0 <= i < at ==> !includes_at(bytes@, needle@, i),
        decreases last + 1 - at,
    {
        if same_bytes(
            vstd::slice::slice_subrange(bytes, at, at + needle.len()),
            needle,
        ) {
            proof {
                assert(includes_at(bytes@, needle@, at as int));
            }
            return true;
        }
        if at == last {
            proof {
                assert forall|i: int| !includes_at(bytes@, needle@, i) by {
                    if 0 <= i < at {
                        assert(!includes_at(bytes@, needle@, i));
                    }
                }
            }
            return false;
        }
        at = at + 1;
    }
    proof {
        assert forall|i: int| !includes_at(bytes@, needle@, i) by {
            if 0 <= i < at {
                assert(!includes_at(bytes@, needle@, i));
            }
        }
    }
    false
}

/// A failure after which what a session was made of so far is kept, for it may still be needed.
pub open spec fn keeps_creating(error: Failure) -> bool {
    ||| utf8("GIT_"@).is_prefix_of(utf8(error.0))
    ||| includes(utf8(error.0), utf8("RECOVERY"@))
    ||| includes(utf8(error.0), utf8("UNSYNCED"@))
    ||| includes(utf8(error.0), utf8("_IO_"@))
    ||| error.0 == "STATE_UNAVAILABLE"@
    ||| includes(utf8(error.1), utf8("rename"@))
    ||| includes(utf8(error.1), utf8("sync"@))
}

pub fn retain_creating(error: &Error) -> (retain: bool)
    ensures
        retain == keeps_creating(error@),
{
    let code = error.code.as_bytes();
    let detail = error.detail.as_str().as_bytes();
    starts_with(code, "GIT_".as_bytes()) || bytes_include(code, "RECOVERY".as_bytes())
        || bytes_include(code, "UNSYNCED".as_bytes()) || bytes_include(code, "_IO_".as_bytes())
        || same_text(error.code, "STATE_UNAVAILABLE") || bytes_include(detail, "rename".as_bytes())
        || bytes_include(detail, "sync".as_bytes())
}

/// The name of a stage of removing a session, as the operation that removes it tells it.
pub open spec fn stage_name(operation: Seq<char>, stage: Seq<char>) -> Seq<char> {
    if operation != "gc"@ {
        stage
    } else if stage == "tombstone-renamed"@ {
        "session-tombstone-renamed"@
    } else if stage == "tombstone-parent-synced"@ {
        "session-tombstone-parent-synced"@
    } else if stage == "owned-tree-removed"@ {
        "session-owned-tree-removed"@
    } else {
        stage
    }
}

pub fn tombstone_stage(operation: &str, stage: &'static str) -> (name: &'static str)
    ensures
        name@ == stage_name(operation@, stage@),
{
    if !same_text(operation, "gc") {
        return stage;
    }
    if same_text(stage, "tombstone-renamed") {
        "session-tombstone-renamed"
    } else if same_text(stage, "tombstone-parent-synced") {
        "session-tombstone-parent-synced"
    } else if same_text(stage, "owned-tree-removed") {
        "session-owned-tree-removed"
    } else {
        stage
    }
}

/// The path of a private object or of the directory that holds it, below the container of sessions.
pub open spec fn loose_path(record: SessionView, fanout: Seq<u8>, tail: Option<Seq<u8>>) -> Seq<u8> {
    let directory = utf8(root_name_text(record.sid)) + utf8("/common.git/objects/"@) + fanout;
    match tail {
        None => directory,
        Some(tail) => directory.push(47) + tail,
    }
}

pub fn loose_path_name(record: &SessionRecord, fanout: &[u8], tail: Option<&[u8]>) -> (path: Vec<u8>)
    ensures
        path@ == loose_path(record@, fanout@, crate::bytes::slice_view(tail)),
{
    let mut path = bytes_of(root_name(record.sid.as_str()).as_str());
    append(&mut path, "/common.git/objects/".as_bytes());
    append(&mut path, fanout);
    match tail {
        None => {},
        Some(tail) => {
            path.push(47);
            append(&mut path, tail);
        },
    }
    path
}

/// What is hashed into the identifier of a publication.
pub struct Publication {
    pub authority: Seq<u8>,
    pub identity: Identity,
    pub sid: Seq<char>,
    pub template_key: Seq<char>,
    pub target: Seq<u8>,
    pub expected_old: Option<Seq<char>>,
    pub new: Seq<char>,
    pub config_fingerprint: Seq<char>,
}

impl Publication {
    pub open spec fn of(
        authority: AuthorityView,
        record: SessionView,
        target: Seq<u8>,
        expected_old: Option<Seq<char>>,
        new: Seq<char>,
        config_fingerprint: Seq<char>,
    ) -> Publication {
        Publication {
            authority: authority.canonical,
            identity: authority.identity,
            sid: record.sid,
            template_key: record.template_key,
            target,
            expected_old,
            new,
            config_fingerprint,
        }
    }

    pub open spec fn fields(self) -> Seq<Seq<u8>> {
        seq![
            utf8("git-vws/publish-id/v1"@),
            self.authority,
            big_endian(self.identity.dev as nat, 8),
            big_endian(self.identity.ino as nat, 8),
            big_endian(self.identity.uid as nat, 4),
            big_endian(self.identity.mode as nat, 4),
            big_endian(self.identity.kind as nat, 4),
            big_endian(self.identity.nlink as nat, 8),
            utf8(self.sid),
            utf8(self.template_key),
            self.target,
            utf8(
                match self.expected_old {
                    Some(old) => old,
                    None => "-"@,
                },
            ),
            utf8(self.new),
            utf8(self.config_fingerprint),
        ]
    }

    /// Every field can be framed, and what the target pointed at is no lone dash, which stands for a
    /// target that does not exist.
    pub open spec fn fits(self) -> bool {
        &&& self.expected_old != Some("-"@)
        &&& forall|i: int| 0 <= i < 14 ==> (#[trigger] self.fields()[i]).len() < pow256(8)
    }

    pub open spec fn txid(self) -> Seq<char> {
        digest_text(framed(self.fields()))
    }
}

/// What is hashed into the identifier of a publication tells it apart from all others.
pub proof fn law_publication_message_is_injective(left: Publication, right: Publication)
    requires
        left.fits(),
        right.fits(),
        framed(left.fields()) == framed(right.fields()),
    ensures
        left == right,
{
    lemma_short_fields();
    let l = left.fields();
    let r = right.fields();
    law_framing_is_injective(l, r);
    assert(l[1] == r[1] && l[2] == r[2] && l[3] == r[3] && l[4] == r[4] && l[5] == r[5] && l[6]
        == r[6] && l[7] == r[7] && l[8] == r[8] && l[9] == r[9] && l[10] == r[10] && l[11] == r[11]
        && l[12] == r[12] && l[13] == r[13]);
    lemma_big_endian(left.identity.dev as nat, right.identity.dev as nat, 8);
    lemma_big_endian(left.identity.ino as nat, right.identity.ino as nat, 8);
    lemma_big_endian(left.identity.uid as nat, right.identity.uid as nat, 4);
    lemma_big_endian(left.identity.mode as nat, right.identity.mode as nat, 4);
    lemma_big_endian(left.identity.kind as nat, right.identity.kind as nat, 4);
    lemma_big_endian(left.identity.nlink as nat, right.identity.nlink as nat, 8);
    lemma_utf8_injective(left.sid, right.sid);
    lemma_utf8_injective(left.template_key, right.template_key);
    lemma_utf8_injective(left.new, right.new);
    lemma_utf8_injective(left.config_fingerprint, right.config_fingerprint);
    let left_old = match left.expected_old {
        Some(old) => old,
        None => "-"@,
    };
    let right_old = match right.expected_old {
        Some(old) => old,
        None => "-"@,
    };
    lemma_utf8_injective(left_old, right_old);
}

pub fn publish_txid(
    authority: &Authority,
    record: &SessionRecord,
    target: &[u8],
    expected_old: Option<&str>,
    new: &str,
    config_fingerprint: &str,
) -> (txid: String)
    ensures
        txid@ == Publication::of(
            authority@,
            record@,
            target@,
            optional_text(expected_old),
            new@,
            config_fingerprint@,
        ).txid(),
        is_lower_hash(txid@),
{
    let mut message: Vec<u8> = Vec::new();
    let old = match expected_old {
        Some(old) => old,
        None => "-",
    };
    let dev = to_big_endian(authority.identity.dev, 8);
    let ino = to_big_endian(authority.identity.ino, 8);
    let uid = to_big_endian(authority.identity.uid as u64, 4);
    let mode = to_big_endian(authority.identity.mode as u64, 4);
    let kind = to_big_endian(authority.identity.kind as u64, 4);
    let nlink = to_big_endian(authority.identity.nlink, 8);
    lp(&mut message, "git-vws/publish-id/v1".as_bytes());
    lp(&mut message, authority.canonical.as_slice());
    lp(&mut message, dev.as_slice());
    lp(&mut message, ino.as_slice());
    lp(&mut message, uid.as_slice());
    lp(&mut message, mode.as_slice());
    lp(&mut message, kind.as_slice());
    lp(&mut message, nlink.as_slice());
    lp(&mut message, record.sid.as_str().as_bytes());
    lp(&mut message, record.template_key.as_str().as_bytes());
    lp(&mut message, target);
    lp(&mut message, old.as_bytes());
    lp(&mut message, new.as_bytes());
    lp(&mut message, config_fingerprint.as_bytes());
    proof {
        let f = Publication::of(
            authority@,
            record@,
            target@,
            optional_text(expected_old),
            new@,
            config_fingerprint@,
        ).fields();
        lemma_framed_all(f);
        lemma_framed_next(f, 0);
        lemma_framed_next(f, 1);
        lemma_framed_next(f, 2);
        lemma_framed_next(f, 3);
        lemma_framed_next(f, 4);
        lemma_framed_next(f, 5);
        lemma_framed_next(f, 6);
        lemma_framed_next(f, 7);
        lemma_framed_next(f, 8);
        lemma_framed_next(f, 9);
        lemma_framed_next(f, 10);
        lemma_framed_next(f, 11);
        lemma_framed_next(f, 12);
        lemma_framed_next(f, 13);
        assert(message@ =~= framed(f));
    }
    digest_hex(message.as_slice())
}

pub open spec fn target_failure(record: SessionView) -> Option<Failure> {
    let f = decode_failure(record.target);
    or_fail(
        f,
        is_session_name(decoded(record.target)),
        "SESSION_CORRUPT"@,
        "session record target is not a usable Git reference name"@,
    )
}

/// The target that a record names.
pub fn publish_target(record: &SessionRecord) -> (target: Result<Vec<u8>, Error>)
    ensures
        failure(target) == target_failure(record@),
        target matches Ok(target) ==> target@ == decoded(record@.target),
{
    let target = decode_hex(record.target.as_str())?;
    if target.len() == 0 || contains_byte(target.as_slice(), 0) {
        return Err(
            Error::new("SESSION_CORRUPT", "session record target is not a usable Git reference name"),
        );
    }
    Ok(target)
}

/// What a publication has frozen belongs to this record and this authority.
pub open spec fn frozen_failure(authority: AuthorityView, record: SessionView, target: Seq<u8>) -> Option<
    Failure,
> {
    match record.journal.frozen() {
        None => Some(corrupt("session record has no frozen publish journal fields"@)),
        Some(frozen) => or_fail(
            None,
            frozen.txid == Publication::of(
                authority,
                record,
                target,
                frozen.expected_old,
                frozen.new,
                frozen.config_fingerprint,
            ).txid(),
            "SESSION_CORRUPT"@,
            "publish journal transaction does not match its record binding"@,
        ),
    }
}

/// What a publication freezes: the transaction, the commit, what the target pointed at, and the
/// fingerprint of the authority's configuration.
#[derive(Debug)]
pub struct PublishFields {
    pub txid: String,
    pub new: String,
    pub expected_old: Option<String>,
    pub config_fingerprint: String,
}

impl View for PublishFields {
    type V = Frozen;

    open spec fn view(&self) -> Frozen {
        frozen(self.txid, self.new, self.expected_old, self.config_fingerprint)
    }
}

impl PublishFields {
    pub fn copy(&self) -> (same: Self)
        ensures
            same@ == self@,
    {
        PublishFields {
            txid: self.txid.clone(),
            new: self.new.clone(),
            expected_old: copy_optional(&self.expected_old),
            config_fingerprint: self.config_fingerprint.clone(),
        }
    }
}

pub fn frozen_publish_fields(authority: &Authority, record: &SessionRecord, target: &[u8]) -> (fields:
    Result<PublishFields, Error>)
    ensures
        failure(fields) == frozen_failure(authority@, record@, target@),
        fields matches Ok(fields) ==> record@.journal.frozen() == Some(fields@),
{
    match record.journal.fields() {
        None => Err(
            Error::new("SESSION_CORRUPT", "session record has no frozen publish journal fields"),
        ),
        Some((txid, new, expected_old, config_fingerprint)) => {
            let expected = publish_txid(
                authority,
                record,
                target,
                expected_old,
                new,
                config_fingerprint,
            );
            if !same_text(txid, expected.as_str()) {
                return Err(
                    Error::new(
                        "SESSION_CORRUPT",
                        "publish journal transaction does not match its record binding",
                    ),
                );
            }
            Ok(
                PublishFields {
                    txid: text_of(txid),
                    new: text_of(new),
                    expected_old: owned(expected_old),
                    config_fingerprint: text_of(config_fingerprint),
                },
            )
        },
    }
}

/// The checkpoint of a publication that has come to a stage.
pub fn publish_checkpoint(control: &mut Control, sid: &str, txid: &str, stage: &str) -> (checkpoint:
    Result<Checkpoint, Error>)
    ensures
        old(control).reaches(
            Fields { operation: "publish"@, sid: sid@, key: txid@, stage: stage@ },
            *final(control),
            checkpoint,
        ),
{
    control.checkpoint("publish", sid, txid, stage)
}

/// The checkpoint of an operation that has come to a stage with a session.
pub fn session_checkpoint(
    control: &mut Control,
    operation: &str,
    record: &SessionRecord,
    stage: &str,
) -> (checkpoint: Result<Checkpoint, Error>)
    ensures
        old(control).reaches(
            Fields {
                operation: operation@,
                sid: record@.sid,
                key: record@.template_key,
                stage: stage@,
            },
            *final(control),
            checkpoint,
        ),
{
    control.checkpoint(operation, record.sid.as_str(), record.template_key.as_str(), stage)
}

} // verus!
