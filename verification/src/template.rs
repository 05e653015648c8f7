//! Templates: sealed trees that worktrees are cloned from. Their records, the names that belong to
//! them, and the steps from one record to the next.

use crate::authority::{failure, or_fail, Error, Failure, Identity};
use crate::bytes::{
    bytes_of, copy_bytes, ends_with, join2, join3, lemma_utf8_concat, same_bytes, same_text,
    starts_with, utf8, views,
};
use crate::git;
use crate::m4_checkpoint::{Checkpoint, Control, Fields};
use crate::notation::{all_hex, only_hex};
use crate::record_txn::{basename_failure, check_basename};
use crate::storage::{
    is_private_directory, is_sealed_directory, private_directory, sealed_directory, ManifestReceipt,
    SealedTreeReceipt, SealedView,
};
use vstd::prelude::*;
use vstd::string::StringExecFns;

verus! {

/// How long a template record may be.
pub const MAX_RECORD: usize = 16384;

/// Where a template stands.
#[derive(Debug)]
pub enum TemplatePayload {
    Prepared { building_name: String },
    Materializing { building_name: String, root_identity: Identity },
    Publishing { building_name: String, ready_name: String, sealed: SealedTreeReceipt },
    Ready { root_name: String, sealed: SealedTreeReceipt },
    Tombstoned { root_name: String, tombstone_name: String, sealed: SealedTreeReceipt },
}

#[derive(Debug)]
pub struct TemplateRecord {
    pub version: u8,
    pub key: String,
    pub manifest: ManifestReceipt,
    pub volume: String,
    pub payload: TemplatePayload,
}

#[verifier::ext_equal]
pub enum TemplatePayloadView {
    Prepared { building_name: Seq<char> },
    Materializing { building_name: Seq<char>, root_identity: Identity },
    Publishing { building_name: Seq<char>, ready_name: Seq<char>, sealed: SealedView },
    Ready { root_name: Seq<char>, sealed: SealedView },
    Tombstoned { root_name: Seq<char>, tombstone_name: Seq<char>, sealed: SealedView },
}

#[verifier::ext_equal]
pub struct TemplateView {
    pub version: u8,
    pub key: Seq<char>,
    pub digest: Seq<char>,
    pub entries: u64,
    pub volume: Seq<char>,
    pub payload: TemplatePayloadView,
}

impl View for TemplatePayload {
    type V = TemplatePayloadView;

    open spec fn view(&self) -> TemplatePayloadView {
        match self {
            TemplatePayload::Prepared { building_name } => TemplatePayloadView::Prepared {
                building_name: building_name@,
            },
            TemplatePayload::Materializing { building_name, root_identity } => {
                TemplatePayloadView::Materializing {
                    building_name: building_name@,
                    root_identity: *root_identity,
                }
            },
            TemplatePayload::Publishing { building_name, ready_name, sealed } => {
                TemplatePayloadView::Publishing {
                    building_name: building_name@,
                    ready_name: ready_name@,
                    sealed: sealed@,
                }
            },
            TemplatePayload::Ready { root_name, sealed } => TemplatePayloadView::Ready {
                root_name: root_name@,
                sealed: sealed@,
            },
            TemplatePayload::Tombstoned { root_name, tombstone_name, sealed } => {
                TemplatePayloadView::Tombstoned {
                    root_name: root_name@,
                    tombstone_name: tombstone_name@,
                    sealed: sealed@,
                }
            },
        }
    }
}

impl View for TemplateRecord {
    type V = TemplateView;

    open spec fn view(&self) -> TemplateView {
        TemplateView {
            version: self.version,
            key: self.key@,
            digest: self.manifest.digest@,
            entries: self.manifest.entries,
            volume: self.volume@,
            payload: self.payload@,
        }
    }
}

pub fn template_recovery(detail: &str) -> (error: Error)
    ensures
        error@ == ("TEMPLATE_RECOVERY_REQUIRED"@, detail@),
{
    Error::new("TEMPLATE_RECOVERY_REQUIRED", detail)
}

pub fn git_error(error: git::Error) -> (same: Error)
    ensures
        same@ == error@,
{
    Error::new(error.code, error.detail.as_str())
}

pub open spec fn corrupt(detail: Seq<char>) -> Failure {
    ("TEMPLATE_CORRUPT"@, detail)
}

pub open spec fn needs_recovery(detail: Seq<char>) -> Failure {
    ("TEMPLATE_RECOVERY_REQUIRED"@, detail)
}

/// A name that can be handed to the system.
pub fn cstring(bytes: &[u8], label: &str) -> (checked: Result<(), Error>)
    ensures
        failure(checked) == basename_failure(bytes@, label@, "TEMPLATE_INVALID"@),
{
    check_basename(bytes, label, "TEMPLATE_INVALID")
}

pub open spec fn is_hash(text: Seq<char>) -> bool {
    utf8(text).len() == 64 && all_hex(utf8(text))
}

pub fn valid_hash(value: &str) -> (valid: bool)
    ensures
        valid == is_hash(value@),
{
    let bytes = value.as_bytes();
    bytes.len() == 64 && only_hex(bytes)
}

pub open spec fn record_name_text(key: Seq<char>) -> Seq<char> {
    "template-"@ + key + ".record"@
}

pub open spec fn root_name_text(key: Seq<char>) -> Seq<char> {
    "template-"@ + key + ".root"@
}

pub open spec fn tombstone_name_text(key: Seq<char>) -> Seq<char> {
    "template-"@ + key + ".tombstone"@
}

pub fn record_name(key: &str) -> (name: Vec<u8>)
    ensures
        name@ == utf8(record_name_text(key@)),
{
    bytes_of(join3("template-", key, ".record").as_str())
}

pub fn root_name(key: &str) -> (name: String)
    ensures
        name@ == root_name_text(key@),
{
    join3("template-", key, ".root")
}

pub fn tombstone_name(key: &str) -> (name: String)
    ensures
        name@ == tombstone_name_text(key@),
{
    join3("template-", key, ".tombstone")
}

/// The name of the directory in which a template is built, by the process and its count of builds.
pub fn building_name(key: &str, process: u64, build: u64) -> (name: String)
    ensures
        name@ == "template-"@ + key@ + "."@ + crate::notation::decimal_text(process as nat) + "-"@
            + crate::notation::decimal_text(build as nat) + ".building"@,
{
    let mut name = join3("template-", key, ".");
    name.append(crate::notation::to_decimal(process).as_str());
    name.append("-");
    name.append(crate::notation::to_decimal(build).as_str());
    name.append(".building");
    name
}

/// A name under which the template of this key may be built.
pub open spec fn is_building_name(name: Seq<char>, key: Seq<char>) -> bool {
    &&& utf8("template-"@ + key + "."@).is_prefix_of(utf8(name))
    &&& utf8(".building"@).is_suffix_of(utf8(name))
    &&& basename_failure(utf8(name), "building root"@, "TEMPLATE_INVALID"@) is None
}

pub fn valid_building_name(name: &str, key: &str) -> (valid: bool)
    ensures
        valid == is_building_name(name@, key@),
{
    let start = join3("template-", key, ".");
    starts_with(name.as_bytes(), start.as_str().as_bytes()) && ends_with(
        name.as_bytes(),
        ".building".as_bytes(),
    ) && cstring(name.as_bytes(), "building root").is_ok()
}

pub open spec fn is_template_record_name(name: Seq<u8>) -> bool {
    utf8("template-"@).is_prefix_of(name) && utf8(".record"@).is_suffix_of(name)
}

pub fn template_record_name(name: &[u8]) -> (is: bool)
    ensures
        is == is_template_record_name(name@),
{
    starts_with(name, "template-".as_bytes()) && ends_with(name, ".record".as_bytes())
}

/// The root of a template that is being removed: still sealed, or private already.
pub open spec fn is_cleanup_mode(identity: Identity, uid: u32) -> bool {
    is_sealed_directory(identity, uid) || is_private_directory(identity, uid)
}

pub fn tombstone_cleanup_mode(identity: Identity, uid: u32) -> (is: bool)
    ensures
        is == is_cleanup_mode(identity, uid),
{
    sealed_directory(identity, uid) || private_directory(identity, uid)
}

impl TemplateView {
    /// The receipt of the sealed tree is that of the record.
    pub open spec fn seals(self, sealed: SealedView, uid: u32) -> bool {
        &&& sealed.digest == self.digest
        &&& sealed.entries == self.entries
        &&& sealed.volume == self.volume
        &&& is_sealed_directory(sealed.root, uid)
        &&& is_hash(sealed.content_digest)
    }

    pub open spec fn fields_are_valid(self) -> bool {
        is_hash(self.key) && is_hash(self.digest) && self.volume.len() > 0
    }

    pub open spec fn stage_is_valid(self, uid: u32) -> bool {
        match self.payload {
            TemplatePayloadView::Prepared { building_name } => self.version == 3
                && is_building_name(building_name, self.key),
            TemplatePayloadView::Materializing { building_name, root_identity } => self.version == 3
                && is_building_name(building_name, self.key) && is_private_directory(
                root_identity,
                uid,
            ),
            TemplatePayloadView::Publishing { building_name, ready_name, sealed } => self.version
                == 3 && is_building_name(building_name, self.key) && ready_name == root_name_text(
                self.key,
            ) && self.seals(sealed, uid),
            TemplatePayloadView::Ready { root_name, sealed } => self.version == 3 && root_name
                == root_name_text(self.key) && self.seals(sealed, uid),
            TemplatePayloadView::Tombstoned { root_name, tombstone_name, sealed } => self.version
                == 4 && root_name == root_name_text(self.key) && tombstone_name
                == tombstone_name_text(self.key) && self.seals(sealed, uid),
        }
    }

    pub open spec fn is_valid(self, uid: u32) -> bool {
        self.fields_are_valid() && self.stage_is_valid(uid)
    }

    pub open spec fn validity_failure(self, uid: u32) -> Option<Failure> {
        let f = or_fail(
            None,
            self.fields_are_valid(),
            "TEMPLATE_CORRUPT"@,
            "template record fields are invalid"@,
        );
        or_fail(
            f,
            self.stage_is_valid(uid),
            "TEMPLATE_CORRUPT"@,
            "template record stage bindings are invalid"@,
        )
    }

    /// The step from one record of a template to its next.
    pub open spec fn steps_to(self, next: TemplateView) -> bool {
        &&& self.key == next.key
        &&& self.digest == next.digest
        &&& self.entries == next.entries
        &&& self.volume == next.volume
        &&& self.version == 3
        &&& match (self.payload, next.payload) {
            (
                TemplatePayloadView::Prepared { building_name: left },
                TemplatePayloadView::Materializing { building_name: right, .. },
            ) => next.version == 3 && left == right,
            (
                TemplatePayloadView::Materializing { building_name: left, .. },
                TemplatePayloadView::Publishing { building_name: right, .. },
            ) => next.version == 3 && left == right,
            (
                TemplatePayloadView::Publishing { ready_name, sealed: left, .. },
                TemplatePayloadView::Ready { root_name, sealed: right },
            ) => next.version == 3 && ready_name == root_name && left == right,
            (
                TemplatePayloadView::Ready { root_name: left_root, sealed: left },
                TemplatePayloadView::Tombstoned { root_name: right_root, sealed: right, .. },
            ) => next.version == 4 && left_root == right_root && left == right,
            _ => false,
        }
    }

    /// How far a template has come.
    pub open spec fn rank(self) -> int {
        match self.payload {
            TemplatePayloadView::Prepared { .. } => 0,
            TemplatePayloadView::Materializing { .. } => 1,
            TemplatePayloadView::Publishing { .. } => 2,
            TemplatePayloadView::Ready { .. } => 3,
            TemplatePayloadView::Tombstoned { .. } => 4,
        }
    }

    /// The names that belong to a template beside that of its record.
    pub open spec fn names(self) -> Seq<Seq<u8>> {
        match self.payload {
            TemplatePayloadView::Prepared { building_name } => seq![utf8(building_name)],
            TemplatePayloadView::Materializing { building_name, .. } => seq![utf8(building_name)],
            TemplatePayloadView::Publishing { building_name, ready_name, .. } => seq![
                utf8(building_name),
                utf8(ready_name),
            ],
            TemplatePayloadView::Ready { root_name, .. } => seq![utf8(root_name)],
            TemplatePayloadView::Tombstoned { root_name, tombstone_name, .. } => seq![
                utf8(root_name),
                utf8(tombstone_name),
            ],
        }
    }
}

/// Each step takes a template one stage further, so no template comes back to a stage it has left.
pub proof fn law_template_steps_go_forward(previous: TemplateView, next: TemplateView)
    requires
        previous.steps_to(next),
    ensures
        next.rank() == previous.rank() + 1,
        !next.steps_to(previous),
{
}

fn same_sealed(sealed: &SealedTreeReceipt, record: &TemplateRecord, uid: u32) -> (same: bool)
    ensures
        same == record@.seals(sealed@, uid),
{
    sealed.manifest.same(&record.manifest) && same_text(
        sealed.volume.as_str(),
        record.volume.as_str(),
    ) && sealed_directory(sealed.root, uid) && valid_hash(sealed.content_digest.as_str())
}

/// Whether a record says nothing that cannot be; `uid` is the user who runs the program.
pub fn validate_record(record: &TemplateRecord, uid: u32) -> (valid: Result<(), Error>)
    ensures
        failure(valid) == record@.validity_failure(uid),
{
    let empty: bool = record.volume.as_str().as_bytes().len() == 0;
    proof {
        lemma_empty_text(record.volume@);
    }
    if !valid_hash(record.key.as_str()) || !valid_hash(record.manifest.digest.as_str()) || empty {
        return Err(Error::new("TEMPLATE_CORRUPT", "template record fields are invalid"));
    }
    let root = root_name(record.key.as_str());
    let tombstone = tombstone_name(record.key.as_str());
    let valid: bool = match &record.payload {
        TemplatePayload::Prepared { building_name } => record.version == 3 && valid_building_name(
            building_name.as_str(),
            record.key.as_str(),
        ),
        TemplatePayload::Materializing { building_name, root_identity } => record.version == 3
            && valid_building_name(building_name.as_str(), record.key.as_str())
            && private_directory(*root_identity, uid),
        TemplatePayload::Publishing { building_name, ready_name, sealed } => record.version == 3
            && valid_building_name(building_name.as_str(), record.key.as_str()) && same_text(
            ready_name.as_str(),
            root.as_str(),
        ) && same_sealed(sealed, record, uid),
        TemplatePayload::Ready { root_name, sealed } => record.version == 3 && same_text(
            root_name.as_str(),
            root.as_str(),
        ) && same_sealed(sealed, record, uid),
        TemplatePayload::Tombstoned { root_name, tombstone_name, sealed } => record.version == 4
            && same_text(root_name.as_str(), root.as_str()) && same_text(
            tombstone_name.as_str(),
            tombstone.as_str(),
        ) && same_sealed(sealed, record, uid),
    };
    if valid {
        Ok(())
    } else {
        Err(Error::new("TEMPLATE_CORRUPT", "template record stage bindings are invalid"))
    }
}

/// A text is empty exactly when its bytes are.
pub proof fn lemma_empty_text(text: Seq<char>)
    ensures
        utf8(text).len() == 0 <==> text.len() == 0,
{
    let none = Seq::<char>::empty();
    assert(utf8(none) =~= Seq::<u8>::empty());
    if text.len() == 0 {
        assert(text =~= none);
    }
    if utf8(text).len() == 0 {
        assert(utf8(text) =~= utf8(none));
        crate::bytes::lemma_utf8_injective(text, none);
    }
}

/// A template record comes from its bytes: they have to be JSON, the very bytes that the record is
/// written as, and a record that can be.
pub open spec fn parse_failure(
    parsed: Option<TemplateRecord>,
    encoded: Result<Vec<u8>, String>,
    bytes: Seq<u8>,
    uid: u32,
) -> Option<Failure> {
    match parsed {
        None => Some(corrupt("template record was not JSON"@)),
        Some(record) => match encode_failure(encoded) {
            Some(failed) => Some(failed),
            None => if encoded->Ok_0@ != bytes {
                Some(corrupt("template record was not canonical"@))
            } else {
                record@.validity_failure(uid)
            },
        },
    }
}

pub open spec fn encode_failure(encoded: Result<Vec<u8>, String>) -> Option<Failure> {
    match encoded {
        Ok(_) => None,
        Err(words) => Some(
            ("TEMPLATE_IO_FAILED"@, "cannot encode template record: "@ + words@),
        ),
    }
}

/// The bytes of a record, as the serializer gave them.
pub fn encode_record(encoded: Result<Vec<u8>, String>) -> (bytes: Result<Vec<u8>, Error>)
    ensures
        failure(bytes) == encode_failure(encoded),
        bytes matches Ok(bytes) ==> bytes@ == encoded->Ok_0@,
{
    match encoded {
        Ok(bytes) => Ok(bytes),
        Err(words) => Err(
            Error::new(
                "TEMPLATE_IO_FAILED",
                join2("cannot encode template record: ", words.as_str()).as_str(),
            ),
        ),
    }
}

/// The record that was read from `bytes`: `parsed` is what they say, and `encoded` what that is written
/// as.
pub fn parse_record(
    parsed: Option<TemplateRecord>,
    encoded: Result<Vec<u8>, String>,
    bytes: &[u8],
    uid: u32,
) -> (record: Result<TemplateRecord, Error>)
    ensures
        failure(record) == parse_failure(parsed, encoded, bytes@, uid),
        record matches Ok(record) ==> parsed == Some(record) && record@.is_valid(uid),
{
    match parsed {
        None => Err(Error::new("TEMPLATE_CORRUPT", "template record was not JSON")),
        Some(record) => {
            let encoded = encode_record(encoded)?;
            if !same_bytes(encoded.as_slice(), bytes) {
                return Err(Error::new("TEMPLATE_CORRUPT", "template record was not canonical"));
            }
            validate_record(&record, uid)?;
            Ok(record)
        },
    }
}

/// Whether one record is the other's direct successor.
pub fn template_transition(previous: &TemplateRecord, current: &TemplateRecord) -> (is: bool)
    ensures
        is == previous@.steps_to(current@),
{
    if !same_text(previous.key.as_str(), current.key.as_str()) || !previous.manifest.same(
        &current.manifest,
    ) || !same_text(previous.volume.as_str(), current.volume.as_str()) || previous.version != 3 {
        return false;
    }
    match (&previous.payload, &current.payload) {
        (
            TemplatePayload::Prepared { building_name: left },
            TemplatePayload::Materializing { building_name: right, .. },
        ) => current.version == 3 && same_text(left.as_str(), right.as_str()),
        (
            TemplatePayload::Materializing { building_name: left, .. },
            TemplatePayload::Publishing { building_name: right, .. },
        ) => current.version == 3 && same_text(left.as_str(), right.as_str()),
        (
            TemplatePayload::Publishing { ready_name, sealed: left, .. },
            TemplatePayload::Ready { root_name, sealed: right },
        ) => current.version == 3 && same_text(ready_name.as_str(), root_name.as_str())
            && left.same(right),
        (
            TemplatePayload::Ready { root_name: left_root, sealed: left },
            TemplatePayload::Tombstoned { root_name: right_root, sealed: right, .. },
        ) => current.version == 4 && same_text(left_root.as_str(), right_root.as_str())
            && left.same(right),
        _ => false,
    }
}

/// Whether a record that was left behind is the one before or behind the current one. An exchange may
/// leave either of the two under the temporary name.
pub fn template_precedes(previous: &TemplateRecord, current: &TemplateRecord) -> (is: bool)
    ensures
        is == (previous@.steps_to(current@) || current@.steps_to(previous@)),
{
    template_transition(previous, current) || template_transition(current, previous)
}

pub fn template_payload_names(record: &TemplateRecord) -> (names: Vec<Vec<u8>>)
    ensures
        views(names@) == record@.names(),
{
    let mut names: Vec<Vec<u8>> = Vec::new();
    match &record.payload {
        TemplatePayload::Prepared { building_name } => {
            names.push(bytes_of(building_name.as_str()));
        },
        TemplatePayload::Materializing { building_name, .. } => {
            names.push(bytes_of(building_name.as_str()));
        },
        TemplatePayload::Publishing { building_name, ready_name, .. } => {
            names.push(bytes_of(building_name.as_str()));
            names.push(bytes_of(ready_name.as_str()));
        },
        TemplatePayload::Ready { root_name, .. } => {
            names.push(bytes_of(root_name.as_str()));
        },
        TemplatePayload::Tombstoned { root_name, tombstone_name, .. } => {
            names.push(bytes_of(root_name.as_str()));
            names.push(bytes_of(tombstone_name.as_str()));
        },
    }
    proof {
        assert(views(names@) =~= record@.names());
    }
    names
}

impl TemplatePayload {
    pub fn copy(&self) -> (same: Self)
        ensures
            same@ == self@,
    {
        match self {
            TemplatePayload::Prepared { building_name } => TemplatePayload::Prepared {
                building_name: building_name.clone(),
            },
            TemplatePayload::Materializing { building_name, root_identity } => {
                TemplatePayload::Materializing {
                    building_name: building_name.clone(),
                    root_identity: *root_identity,
                }
            },
            TemplatePayload::Publishing { building_name, ready_name, sealed } => {
                TemplatePayload::Publishing {
                    building_name: building_name.clone(),
                    ready_name: ready_name.clone(),
                    sealed: sealed.copy(),
                }
            },
            TemplatePayload::Ready { root_name, sealed } => TemplatePayload::Ready {
                root_name: root_name.clone(),
                sealed: sealed.copy(),
            },
            TemplatePayload::Tombstoned { root_name, tombstone_name, sealed } => {
                TemplatePayload::Tombstoned {
                    root_name: root_name.clone(),
                    tombstone_name: tombstone_name.clone(),
                    sealed: sealed.copy(),
                }
            },
        }
    }

    pub fn same(&self, other: &Self) -> (same: bool)
        ensures
            same == (self@ == other@),
    {
        match (self, other) {
            (
                TemplatePayload::Prepared { building_name: a },
                TemplatePayload::Prepared { building_name: b },
            ) => same_text(a.as_str(), b.as_str()),
            (
                TemplatePayload::Materializing { building_name: a, root_identity: x },
                TemplatePayload::Materializing { building_name: b, root_identity: y },
            ) => same_text(a.as_str(), b.as_str()) && *x == *y,
            (
                TemplatePayload::Publishing { building_name: a, ready_name: c, sealed: x },
                TemplatePayload::Publishing { building_name: b, ready_name: d, sealed: y },
            ) => same_text(a.as_str(), b.as_str()) && same_text(c.as_str(), d.as_str())
                && x.same(y),
            (
                TemplatePayload::Ready { root_name: a, sealed: x },
                TemplatePayload::Ready { root_name: b, sealed: y },
            ) => same_text(a.as_str(), b.as_str()) && x.same(y),
            (
                TemplatePayload::Tombstoned { root_name: a, tombstone_name: c, sealed: x },
                TemplatePayload::Tombstoned { root_name: b, tombstone_name: d, sealed: y },
            ) => same_text(a.as_str(), b.as_str()) && same_text(c.as_str(), d.as_str())
                && x.same(y),
            _ => false,
        }
    }
}

impl TemplateRecord {
    pub fn copy(&self) -> (same: Self)
        ensures
            same@ == self@,
    {
        TemplateRecord {
            version: self.version,
            key: self.key.clone(),
            manifest: self.manifest.copy(),
            volume: self.volume.clone(),
            payload: self.payload.copy(),
        }
    }

    pub fn same(&self, other: &Self) -> (same: bool)
        ensures
            same == (self@ == other@),
    {
        self.version == other.version && same_text(self.key.as_str(), other.key.as_str())
            && self.manifest.same(&other.manifest) && same_text(
            self.volume.as_str(),
            other.volume.as_str(),
        ) && self.payload.same(&other.payload)
    }

    /// The record with which a template begins.
    pub fn prepared(key: String, manifest: ManifestReceipt, volume: String, building_name: String) -> (record:
        Self)
        ensures
            record@ == TemplateView::preparing(
                key@,
                manifest.digest@,
                manifest.entries,
                volume@,
                building_name@,
            ),
    {
        TemplateRecord {
            version: 3,
            key,
            manifest,
            volume,
            payload: TemplatePayload::Prepared { building_name },
        }
    }

    fn with(self, payload: TemplatePayload) -> (next: Self)
        ensures
            next@ == (TemplateView { payload: payload@, ..self@ }),
    {
        TemplateRecord {
            version: self.version,
            key: self.key,
            manifest: self.manifest,
            volume: self.volume,
            payload,
        }
    }

    /// The record once the directory to build in stands.
    pub fn materializing(self, root_identity: Identity) -> (next: Self)
        ensures
            next@ == self@.materialize(root_identity),
    {
        match &self.payload {
            TemplatePayload::Prepared { building_name } => {
                let building_name = building_name.clone();
                self.with(TemplatePayload::Materializing { building_name, root_identity })
            },
            _ => self,
        }
    }

    /// The record once the tree is sealed.
    pub fn publishing(self, sealed: SealedTreeReceipt) -> (next: Self)
        ensures
            next@ == self@.publish(sealed@),
    {
        match &self.payload {
            TemplatePayload::Materializing { building_name, .. } => {
                let building_name = building_name.clone();
                let ready_name = root_name(self.key.as_str());
                self.with(TemplatePayload::Publishing { building_name, ready_name, sealed })
            },
            _ => self,
        }
    }

    /// The record once the sealed tree stands under its own name.
    pub fn ready(self) -> (next: Self)
        ensures
            next@ == self@.settle(),
    {
        match &self.payload {
            TemplatePayload::Publishing { ready_name, sealed, .. } => {
                let root_name = ready_name.clone();
                let sealed = sealed.copy();
                self.with(TemplatePayload::Ready { root_name, sealed })
            },
            _ => self,
        }
    }

    /// The record of a template that is to go.
    pub fn tombstoned(self) -> (next: Self)
        ensures
            next@ == self@.bury(),
    {
        match &self.payload {
            TemplatePayload::Ready { root_name, sealed } => {
                let root_name = root_name.clone();
                let sealed = sealed.copy();
                let tombstone_name = tombstone_name(self.key.as_str());
                let next = self.with(
                    TemplatePayload::Tombstoned { root_name, tombstone_name, sealed },
                );
                TemplateRecord {
                    version: 4,
                    key: next.key,
                    manifest: next.manifest,
                    volume: next.volume,
                    payload: next.payload,
                }
            },
            _ => self,
        }
    }
}

impl TemplateView {
    pub open spec fn preparing(
        key: Seq<char>,
        digest: Seq<char>,
        entries: u64,
        volume: Seq<char>,
        building_name: Seq<char>,
    ) -> TemplateView {
        TemplateView {
            version: 3,
            key,
            digest,
            entries,
            volume,
            payload: TemplatePayloadView::Prepared { building_name },
        }
    }

    pub open spec fn materialize(self, root_identity: Identity) -> TemplateView {
        match self.payload {
            TemplatePayloadView::Prepared { building_name } => TemplateView {
                payload: TemplatePayloadView::Materializing { building_name, root_identity },
                ..self
            },
            _ => self,
        }
    }

    pub open spec fn publish(self, sealed: SealedView) -> TemplateView {
        match self.payload {
            TemplatePayloadView::Materializing { building_name, .. } => TemplateView {
                payload: TemplatePayloadView::Publishing {
                    building_name,
                    ready_name: root_name_text(self.key),
                    sealed,
                },
                ..self
            },
            _ => self,
        }
    }

    pub open spec fn settle(self) -> TemplateView {
        match self.payload {
            TemplatePayloadView::Publishing { ready_name, sealed, .. } => TemplateView {
                payload: TemplatePayloadView::Ready { root_name: ready_name, sealed },
                ..self
            },
            _ => self,
        }
    }

    pub open spec fn bury(self) -> TemplateView {
        match self.payload {
            TemplatePayloadView::Ready { root_name, sealed } => TemplateView {
                version: 4,
                payload: TemplatePayloadView::Tombstoned {
                    root_name,
                    tombstone_name: tombstone_name_text(self.key),
                    sealed,
                },
                ..self
            },
            _ => self,
        }
    }
}

/// Each step of a template makes a valid record out of a valid one, and one that a cleanup recognises
/// as its direct successor.
pub proof fn law_template_steps_keep_records_valid(
    record: TemplateView,
    root: Identity,
    sealed: SealedView,
    uid: u32,
)
    requires
        record.is_valid(uid),
    ensures
        record.payload is Prepared && is_private_directory(root, uid) ==> record.materialize(
            root,
        ).is_valid(uid) && record.steps_to(record.materialize(root)),
        record.payload is Materializing && record.seals(sealed, uid) ==> record.publish(
            sealed,
        ).is_valid(uid) && record.steps_to(record.publish(sealed)),
        record.payload is Publishing ==> record.settle().is_valid(uid) && record.steps_to(
            record.settle(),
        ),
        record.payload is Ready ==> record.bury().is_valid(uid) && record.steps_to(record.bury()),
{
}

/// A name that `building_name` makes is one under which the template may be built.
pub proof fn law_built_names_are_building_names(key: Seq<char>, process: u64, build: u64)
    requires
        is_hash(key),
    ensures
        is_building_name(
            "template-"@ + key + "."@ + crate::notation::decimal_text(process as nat) + "-"@
                + crate::notation::decimal_text(build as nat) + ".building"@,
            key,
        ),
{
    let process_text = crate::notation::decimal_text(process as nat);
    let build_text = crate::notation::decimal_text(build as nat);
    let start = "template-"@ + key + "."@;
    let end = ".building"@;
    let middle = process_text + "-"@ + build_text;
    let name = start + process_text + "-"@ + build_text + end;
    assert(name =~= start + (middle + end));
    lemma_utf8_concat(start, middle + end);
    lemma_utf8_concat(middle, end);
    let bytes = utf8(name);
    assert(utf8(start).is_prefix_of(bytes)) by {
        assert(bytes.subrange(0, utf8(start).len() as int) =~= utf8(start));
    }
    assert(utf8(end).is_suffix_of(bytes)) by {
        assert(bytes.subrange(bytes.len() - utf8(end).len(), bytes.len() as int) =~= utf8(end));
    }
    assert forall|i: int| 0 <= i < bytes.len() implies bytes[i] != 47 && bytes[i] != 0 by {
        lemma_plain_name(key, process_text, build_text, i);
    }
    reveal_strlit("template-");
    crate::bytes::lemma_utf8_ascii("template-"@);
    lemma_utf8_concat("template-"@, key);
    lemma_utf8_concat("template-"@ + key, "."@);
    assert(bytes.len() > 2);
}

/// None of the bytes of such a name is a slash or NUL.
proof fn lemma_plain_name(key: Seq<char>, process: Seq<char>, build: Seq<char>, i: int)
    requires
        is_hash(key),
        exists|n: nat| process == crate::notation::decimal_text(n),
        exists|n: nat| build == crate::notation::decimal_text(n),
        0 <= i < utf8("template-"@ + key + "."@ + process + "-"@ + build + ".building"@).len(),
    ensures
        utf8("template-"@ + key + "."@ + process + "-"@ + build + ".building"@)[i] != 47,
        utf8("template-"@ + key + "."@ + process + "-"@ + build + ".building"@)[i] != 0,
{
    let p = choose|n: nat| process == crate::notation::decimal_text(n);
    let b = choose|n: nat| build == crate::notation::decimal_text(n);
    crate::notation::lemma_decimal_text(p);
    crate::notation::lemma_decimal_text(b);
    reveal_strlit("template-");
    reveal_strlit(".");
    reveal_strlit("-");
    reveal_strlit(".building");
    crate::bytes::lemma_utf8_ascii("template-"@);
    crate::bytes::lemma_utf8_ascii("."@);
    crate::bytes::lemma_utf8_ascii("-"@);
    crate::bytes::lemma_utf8_ascii(".building"@);
    lemma_utf8_concat("template-"@, key);
    lemma_utf8_concat("template-"@ + key, "."@);
    lemma_utf8_concat("template-"@ + key + "."@, process);
    lemma_utf8_concat("template-"@ + key + "."@ + process, "-"@);
    lemma_utf8_concat("template-"@ + key + "."@ + process + "-"@, build);
    lemma_utf8_concat("template-"@ + key + "."@ + process + "-"@ + build, ".building"@);
}

/// The checkpoint of a collection that has come to a stage with the template of this key.
pub fn template_checkpoint(control: &mut Control, key: &str, stage: &str) -> (checkpoint: Result<
    Checkpoint,
    Error,
>)
    ensures
        old(control).reaches(
            Fields { operation: "gc"@, sid: "-"@, key: key@, stage: stage@ },
            *final(control),
            checkpoint,
        ),
{
    control.checkpoint("gc", "-", key, stage)
}

/// One line of a report on the state.
#[derive(Debug)]
pub struct MaintenanceEntry {
    pub scope: &'static str,
    pub record_name: Vec<u8>,
    pub path_name: Vec<u8>,
    pub state: &'static str,
    pub code: &'static str,
}

#[verifier::ext_equal]
pub struct EntryView {
    pub scope: Seq<char>,
    pub record_name: Seq<u8>,
    pub path_name: Seq<u8>,
    pub state: Seq<char>,
    pub code: Seq<char>,
}

impl View for MaintenanceEntry {
    type V = EntryView;

    open spec fn view(&self) -> EntryView {
        EntryView {
            scope: self.scope@,
            record_name: self.record_name@,
            path_name: self.path_name@,
            state: self.state@,
            code: self.code@,
        }
    }
}

/// What was found in the state, or done to it.
#[derive(Debug)]
pub struct MaintenanceReport {
    pub entries: Vec<MaintenanceEntry>,
    pub recovery_required: bool,
}

#[verifier::ext_equal]
pub struct ReportView {
    pub entries: Seq<EntryView>,
    pub recovery_required: bool,
}

pub open spec fn entry_views(entries: Seq<MaintenanceEntry>) -> Seq<EntryView> {
    Seq::new(entries.len(), |i: int| entries[i]@)
}

impl View for MaintenanceReport {
    type V = ReportView;

    open spec fn view(&self) -> ReportView {
        ReportView {
            entries: entry_views(self.entries@),
            recovery_required: self.recovery_required,
        }
    }
}

impl ReportView {
    pub open spec fn blank() -> ReportView {
        ReportView { entries: Seq::empty(), recovery_required: false }
    }

    pub open spec fn with(
        self,
        scope: Seq<char>,
        record_name: Seq<u8>,
        path_name: Seq<u8>,
        state: Seq<char>,
        code: Seq<char>,
    ) -> ReportView {
        ReportView {
            entries: self.entries.push(EntryView { scope, record_name, path_name, state, code }),
            ..self
        }
    }

    pub open spec fn recovering(
        self,
        scope: Seq<char>,
        record_name: Seq<u8>,
        path_name: Seq<u8>,
        state: Seq<char>,
    ) -> ReportView {
        ReportView {
            recovery_required: true,
            ..self.with(scope, record_name, path_name, state, "RECOVERY_REQUIRED"@)
        }
    }

    /// A line about a template, under its own name.
    pub open spec fn item(self, name: Seq<u8>, state: Seq<char>, code: Seq<char>) -> ReportView {
        self.with("template"@, name, name, state, code)
    }
}

impl MaintenanceReport {
    pub fn blank() -> (report: Self)
        ensures
            report@ == ReportView::blank(),
    {
        let entries: Vec<MaintenanceEntry> = Vec::new();
        proof {
            assert(entry_views(entries@) =~= Seq::<EntryView>::empty());
        }
        MaintenanceReport { entries, recovery_required: false }
    }

    pub fn entry(
        &mut self,
        scope: &'static str,
        record_name: &[u8],
        path_name: &[u8],
        state: &'static str,
        code: &'static str,
    )
        ensures
            final(self)@ == old(self)@.with(scope@, record_name@, path_name@, state@, code@),
    {
        let ghost before = self@;
        self.entries.push(
            MaintenanceEntry {
                scope,
                record_name: copy_bytes(record_name),
                path_name: copy_bytes(path_name),
                state,
                code,
            },
        );
        proof {
            assert(self@ =~= before.with(scope@, record_name@, path_name@, state@, code@));
        }
    }

    pub fn recovery(
        &mut self,
        scope: &'static str,
        record_name: &[u8],
        path_name: &[u8],
        state: &'static str,
    )
        ensures
            final(self)@ == old(self)@.recovering(scope@, record_name@, path_name@, state@),
    {
        self.recovery_required = true;
        self.entry(scope, record_name, path_name, state, "RECOVERY_REQUIRED");
    }
}

/// Adds a line about a template, under its own name.
pub fn template_item(
    report: &mut MaintenanceReport,
    name: &[u8],
    state: &'static str,
    code: &'static str,
)
    ensures
        final(report)@ == old(report)@.item(name@, state@, code@),
{
    report.entry("template", name, name, state, code);
}

} // verus!
