//! What has to stand under the names of a template before it is built, published, used or removed.

use crate::authority::{failure, or_fail, Error, Failure, Identity};
use crate::bytes::{copy_bytes, decode_text, same_bytes, same_text, utf8, utf8_text};
use crate::inspection::first_of;
use crate::record_txn::RecordBinding;
use crate::storage::{
    is_owned_tree, is_private_directory, is_publishing, is_sealed_directory, owned_tree_binding,
    private_directory, publishing_binding, sealed_directory, SealedTreeReceipt, SealedView,
};
use crate::template::{
    is_cleanup_mode, needs_recovery, record_name, record_name_text, template_recovery,
    tombstone_cleanup_mode, TemplateRecord, TemplateView,
};
use vstd::prelude::*;

verus! {

/// What stands under a name of the container.
#[derive(Debug)]
pub enum NameSeen {
    Found(Identity),
    Absent,
    Failed(String),
}

pub open spec fn name_failure(seen: NameSeen) -> Option<Failure> {
    match seen {
        NameSeen::Failed(words) => Some(
            ("TEMPLATE_IO_FAILED"@, "cannot inspect template namespace entry"@ + ": "@ + words@),
        ),
        _ => None,
    }
}

pub open spec fn name_identity(seen: NameSeen) -> Option<Identity> {
    match seen {
        NameSeen::Found(identity) => Some(identity),
        _ => None,
    }
}

pub fn named_identity(seen: NameSeen) -> (found: Result<Option<Identity>, Error>)
    ensures
        failure(found) == name_failure(seen),
        found matches Ok(found) ==> found == name_identity(seen),
{
    match seen {
        NameSeen::Found(identity) => Ok(Some(identity)),
        NameSeen::Absent => Ok(None),
        NameSeen::Failed(words) => Err(
            Error::io(
                "TEMPLATE_IO_FAILED",
                "cannot inspect template namespace entry",
                words.as_str(),
            ),
        ),
    }
}

/// A root of a template as it is found: its name, whether it could be opened, what was opened, its
/// volume, and its names.
#[derive(Debug)]
pub struct RootSeen {
    pub entry: Result<Option<Identity>, Error>,
    pub opened: bool,
    pub descriptor: Result<Identity, Error>,
    pub volume: Result<String, Error>,
    pub names: Result<Vec<Vec<u8>>, Error>,
}

pub open spec fn private_root_failure(
    seen: RootSeen,
    volume: Seq<char>,
    expected: Option<Identity>,
    empty: bool,
    uid: u32,
) -> Option<Failure> {
    let code = "TEMPLATE_CORRUPT"@;
    let entry = seen.entry->Ok_0->0;
    let descriptor = seen.descriptor->Ok_0;
    let f = or_fail(
        failure(seen.entry),
        seen.entry->Ok_0 is Some,
        code,
        "template private root is absent"@,
    );
    let f = or_fail(
        f,
        is_private_directory(entry, uid) && (expected is Some ==> entry.is_same_node(expected->0)),
        code,
        "template private root identity is invalid"@,
    );
    let f = or_fail(f, seen.opened, code, "template private root type is invalid"@);
    let f = first_of(f, failure(seen.descriptor));
    let f = or_fail(
        f,
        descriptor.is_same_node(entry) && (expected is Some ==> descriptor.is_same_node(
            expected->0,
        )),
        code,
        "template private root binding is invalid"@,
    );
    let f = first_of(f, failure(seen.volume));
    let f = or_fail(
        f,
        seen.volume->Ok_0@ == volume,
        code,
        "template private root binding is invalid"@,
    );
    if !empty {
        f
    } else {
        or_fail(
            first_of(f, failure(seen.names)),
            seen.names->Ok_0@.len() == 0,
            code,
            "template private root binding is invalid"@,
        )
    }
}

/// The directory in which a template is built.
pub fn private_root(
    seen: RootSeen,
    volume: &str,
    expected: Option<Identity>,
    empty: bool,
    uid: u32,
) -> (root: Result<Identity, Error>)
    ensures
        failure(root) == private_root_failure(seen, volume@, expected, empty, uid),
        root matches Ok(root) ==> root == seen.descriptor->Ok_0,
{
    let entry: Identity = match seen.entry? {
        Some(entry) => entry,
        None => {
            return Err(Error::new("TEMPLATE_CORRUPT", "template private root is absent"));
        },
    };
    let expects: bool = match expected {
        Some(identity) => entry.same_node(identity),
        None => true,
    };
    if !private_directory(entry, uid) || !expects {
        return Err(Error::new("TEMPLATE_CORRUPT", "template private root identity is invalid"));
    }
    if !seen.opened {
        return Err(Error::new("TEMPLATE_CORRUPT", "template private root type is invalid"));
    }
    let descriptor: Identity = seen.descriptor?;
    let expects: bool = match expected {
        Some(identity) => descriptor.same_node(identity),
        None => true,
    };
    if !descriptor.same_node(entry) || !expects {
        return Err(Error::new("TEMPLATE_CORRUPT", "template private root binding is invalid"));
    }
    let found = seen.volume?;
    if !same_text(found.as_str(), volume) {
        return Err(Error::new("TEMPLATE_CORRUPT", "template private root binding is invalid"));
    }
    if empty {
        let names = seen.names?;
        if names.len() != 0 {
            return Err(Error::new("TEMPLATE_CORRUPT", "template private root binding is invalid"));
        }
    }
    Ok(descriptor)
}

pub open spec fn materializing_root_failure(
    seen: RootSeen,
    volume: Seq<char>,
    expected: Identity,
    uid: u32,
) -> Option<Failure> {
    let code = "TEMPLATE_CORRUPT"@;
    let detail = "template materializing root binding is invalid"@;
    let entry = seen.entry->Ok_0->0;
    let f = or_fail(
        failure(seen.entry),
        seen.entry->Ok_0 is Some,
        code,
        "template materializing root is absent"@,
    );
    let f = or_fail(f, seen.opened, code, "template materializing root type is invalid"@);
    let f = first_of(f, failure(seen.descriptor));
    let f = or_fail(
        f,
        entry.dev == expected.dev && entry.ino == expected.ino
            && seen.descriptor->Ok_0.is_same_node(entry) && is_cleanup_mode(entry, uid),
        code,
        detail,
    );
    let f = first_of(f, failure(seen.volume));
    or_fail(f, seen.volume->Ok_0@ == volume, code, detail)
}

/// A build that was broken off: its directory has to be the one that its record names.
pub fn materializing_root(seen: RootSeen, volume: &str, expected: Identity, uid: u32) -> (bound: Result<
    (),
    Error,
>)
    ensures
        failure(bound) == materializing_root_failure(seen, volume@, expected, uid),
{
    let detail = "template materializing root binding is invalid";
    let entry: Identity = match seen.entry? {
        Some(entry) => entry,
        None => {
            return Err(Error::new("TEMPLATE_CORRUPT", "template materializing root is absent"));
        },
    };
    if !seen.opened {
        return Err(Error::new("TEMPLATE_CORRUPT", "template materializing root type is invalid"));
    }
    let descriptor: Identity = seen.descriptor?;
    if entry.dev != expected.dev || entry.ino != expected.ino || !descriptor.same_node(entry)
        || !tombstone_cleanup_mode(entry, uid) {
        return Err(Error::new("TEMPLATE_CORRUPT", detail));
    }
    let found = seen.volume?;
    if !same_text(found.as_str(), volume) {
        return Err(Error::new("TEMPLATE_CORRUPT", detail));
    }
    Ok(())
}

pub open spec fn sealed_root_failure(
    seen: RootSeen,
    sealed: SealedView,
    volume: Seq<char>,
    uid: u32,
) -> Option<Failure> {
    let code = "TEMPLATE_CORRUPT"@;
    let detail = "sealed template root binding is invalid"@;
    let entry = seen.entry->Ok_0->0;
    let f = or_fail(
        failure(seen.entry),
        seen.entry->Ok_0 is Some,
        code,
        "sealed template root is absent"@,
    );
    let f = or_fail(
        f,
        entry == sealed.root && is_sealed_directory(entry, uid),
        code,
        "sealed template root identity is invalid"@,
    );
    let f = or_fail(f, seen.opened, code, "sealed template root type is invalid"@);
    let f = first_of(f, failure(seen.descriptor));
    let f = or_fail(f, seen.descriptor->Ok_0 == sealed.root, code, detail);
    let f = first_of(f, failure(seen.volume));
    or_fail(f, seen.volume->Ok_0@ == volume, code, detail)
}

/// The root of a sealed template, before its content is verified.
pub fn sealed_root(seen: RootSeen, sealed: &SealedTreeReceipt, volume: &str, uid: u32) -> (bound: Result<
    (),
    Error,
>)
    ensures
        failure(bound) == sealed_root_failure(seen, sealed@, volume@, uid),
{
    let detail = "sealed template root binding is invalid";
    let entry: Identity = match seen.entry? {
        Some(entry) => entry,
        None => {
            return Err(Error::new("TEMPLATE_CORRUPT", "sealed template root is absent"));
        },
    };
    if entry != sealed.root || !sealed_directory(entry, uid) {
        return Err(Error::new("TEMPLATE_CORRUPT", "sealed template root identity is invalid"));
    }
    if !seen.opened {
        return Err(Error::new("TEMPLATE_CORRUPT", "sealed template root type is invalid"));
    }
    let descriptor: Identity = seen.descriptor?;
    if descriptor != sealed.root {
        return Err(Error::new("TEMPLATE_CORRUPT", detail));
    }
    let found = seen.volume?;
    if !same_text(found.as_str(), volume) {
        return Err(Error::new("TEMPLATE_CORRUPT", detail));
    }
    Ok(())
}

pub open spec fn publishing_root_failure(seen: RootSeen, sealed: SealedView, volume: Seq<char>) -> Option<
    Failure,
> {
    let code = "TEMPLATE_CORRUPT"@;
    let detail = "publishing template root binding is invalid"@;
    let f = or_fail(
        failure(seen.entry),
        seen.entry->Ok_0 is Some,
        code,
        "publishing template root is absent"@,
    );
    let f = or_fail(f, seen.opened, code, "publishing template root is invalid"@);
    let f = first_of(f, failure(seen.descriptor));
    let f = or_fail(
        f,
        is_publishing(seen.entry->Ok_0->0, sealed.root) && is_publishing(
            seen.descriptor->Ok_0,
            sealed.root,
        ),
        code,
        detail,
    );
    let f = first_of(f, failure(seen.volume));
    or_fail(f, seen.volume->Ok_0@ == volume, code, detail)
}

/// The root of a template that is being published, before its content is verified.
pub fn publishing_root(seen: RootSeen, sealed: &SealedTreeReceipt, volume: &str) -> (bound: Result<
    (),
    Error,
>)
    ensures
        failure(bound) == publishing_root_failure(seen, sealed@, volume@),
{
    let detail = "publishing template root binding is invalid";
    let entry: Identity = match seen.entry? {
        Some(entry) => entry,
        None => {
            return Err(Error::new("TEMPLATE_CORRUPT", "publishing template root is absent"));
        },
    };
    if !seen.opened {
        return Err(Error::new("TEMPLATE_CORRUPT", "publishing template root is invalid"));
    }
    let descriptor: Identity = seen.descriptor?;
    if !publishing_binding(entry, sealed.root) || !publishing_binding(descriptor, sealed.root) {
        return Err(Error::new("TEMPLATE_CORRUPT", detail));
    }
    let found = seen.volume?;
    if !same_text(found.as_str(), volume) {
        return Err(Error::new("TEMPLATE_CORRUPT", detail));
    }
    Ok(())
}

pub open spec fn cleanup_root_failure(
    identity: Result<Identity, Error>,
    found: Result<String, Error>,
    sealed: SealedView,
    volume: Seq<char>,
    uid: u32,
) -> Option<Failure> {
    let code = "TEMPLATE_RECOVERY_REQUIRED"@;
    let detail = "template tombstone root binding is invalid"@;
    let f = or_fail(
        failure(identity),
        is_owned_tree(identity->Ok_0, sealed.root) && is_cleanup_mode(identity->Ok_0, uid),
        code,
        detail,
    );
    let f = first_of(f, failure(found));
    or_fail(f, found->Ok_0@ == volume, code, detail)
}

/// The root of a template that is being removed. Where it is still sealed its content is verified
/// besides, which the result says.
pub fn validate_template_tombstone_root(
    identity: Result<Identity, Error>,
    found: Result<String, Error>,
    sealed: &SealedTreeReceipt,
    volume: &str,
    uid: u32,
) -> (verify: Result<bool, Error>)
    ensures
        failure(verify) == cleanup_root_failure(identity, found, sealed@, volume@, uid),
        verify matches Ok(verify) ==> verify == is_sealed_directory(identity->Ok_0, uid),
{
    let detail = "template tombstone root binding is invalid";
    let identity: Identity = identity?;
    if !owned_tree_binding(identity, sealed.root) || !tombstone_cleanup_mode(identity, uid) {
        return Err(template_recovery(detail));
    }
    let found = found?;
    if !same_text(found.as_str(), volume) {
        return Err(template_recovery(detail));
    }
    Ok(sealed_directory(identity, uid))
}

pub open spec fn tombstone_root_failure(seen: RootSeen, sealed: SealedView, volume: Seq<char>, uid: u32) -> Option<
    Failure,
> {
    let code = "TEMPLATE_RECOVERY_REQUIRED"@;
    let f = or_fail(
        failure(seen.entry),
        seen.entry->Ok_0 is Some,
        code,
        "template tombstone root is absent"@,
    );
    let f = or_fail(f, seen.opened, code, "template tombstone root type is invalid"@);
    let f = first_of(f, failure(seen.descriptor));
    let f = or_fail(
        f,
        seen.entry->Ok_0->0 == seen.descriptor->Ok_0 && is_owned_tree(
            seen.entry->Ok_0->0,
            sealed.root,
        ),
        code,
        "template tombstone root binding changed while opening"@,
    );
    first_of(f, cleanup_root_failure(seen.descriptor, seen.volume, sealed, volume, uid))
}

/// The root of a template under the name that it is removed under.
pub fn tombstone_root(seen: RootSeen, sealed: &SealedTreeReceipt, volume: &str, uid: u32) -> (verify: Result<
    bool,
    Error,
>)
    ensures
        failure(verify) == tombstone_root_failure(seen, sealed@, volume@, uid),
        verify matches Ok(verify) ==> verify == is_sealed_directory(seen.descriptor->Ok_0, uid),
{
    let entry: Identity = match seen.entry? {
        Some(entry) => entry,
        None => {
            return Err(template_recovery("template tombstone root is absent"));
        },
    };
    if !seen.opened {
        return Err(template_recovery("template tombstone root type is invalid"));
    }
    let descriptor: Identity = seen.descriptor?;
    if entry != descriptor || !owned_tree_binding(entry, sealed.root) {
        return Err(template_recovery("template tombstone root binding changed while opening"));
    }
    validate_template_tombstone_root(Ok(descriptor), seen.volume, sealed, volume, uid)
}

pub open spec fn prepared_sync_failure(
    root: Result<(), String>,
    container: Result<(), String>,
    descriptor: Result<Identity, Error>,
    entry: Result<Option<Identity>, Error>,
    expected: Identity,
) -> Option<Failure> {
    let code = "TEMPLATE_CORRUPT"@;
    let detail = "prepared template root binding changed after sync"@;
    let f = match root {
        Err(words) => Some(
            ("TEMPLATE_IO_FAILED"@, "cannot sync prepared template root"@ + ": "@ + words@),
        ),
        Ok(_) => None,
    };
    let f = first_of(
        f,
        match container {
            Err(words) => Some(
                ("TEMPLATE_IO_FAILED"@, "cannot sync prepared template parent"@ + ": "@ + words@),
            ),
            Ok(_) => None,
        },
    );
    let f = first_of(f, failure(descriptor));
    let f = or_fail(f, descriptor->Ok_0 == expected, code, detail);
    let f = first_of(f, failure(entry));
    or_fail(f, entry->Ok_0 == Some(expected), code, detail)
}

/// The directory to build in is on the disk, and still the one that was made.
pub fn sync_prepared_root(
    root: Result<(), String>,
    container: Result<(), String>,
    descriptor: Result<Identity, Error>,
    entry: Result<Option<Identity>, Error>,
    expected: Identity,
) -> (synced: Result<(), Error>)
    ensures
        failure(synced) == prepared_sync_failure(root, container, descriptor, entry, expected),
{
    let detail = "prepared template root binding changed after sync";
    match root {
        Err(words) => {
            return Err(
                Error::io(
                    "TEMPLATE_IO_FAILED",
                    "cannot sync prepared template root",
                    words.as_str(),
                ),
            );
        },
        Ok(_) => {},
    }
    match container {
        Err(words) => {
            return Err(
                Error::io(
                    "TEMPLATE_IO_FAILED",
                    "cannot sync prepared template parent",
                    words.as_str(),
                ),
            );
        },
        Ok(_) => {},
    }
    let descriptor: Identity = descriptor?;
    if descriptor != expected {
        return Err(Error::new("TEMPLATE_CORRUPT", detail));
    }
    match entry? {
        Some(entry) => if entry == expected {
            Ok(())
        } else {
            Err(Error::new("TEMPLATE_CORRUPT", detail))
        },
        None => Err(Error::new("TEMPLATE_CORRUPT", detail)),
    }
}

/// The directory to build in was made, opened and made private.
pub fn create_directory(
    made: Result<(), String>,
    opened: Result<(), Error>,
    protected: bool,
    identity: Result<Identity, Error>,
    uid: u32,
) -> (created: Result<(), Error>)
    ensures
        failure(created) == ({
            let f = match made {
                Err(words) => Some(
                    ("TEMPLATE_IO_FAILED"@, "cannot create template root"@ + ": "@ + words@),
                ),
                Ok(_) => None,
            };
            let f = first_of(f, failure(opened));
            let f = or_fail(
                f,
                protected,
                "TEMPLATE_IO_FAILED"@,
                "template root identity is invalid"@,
            );
            let f = first_of(f, failure(identity));
            or_fail(
                f,
                is_private_directory(identity->Ok_0, uid),
                "TEMPLATE_IO_FAILED"@,
                "template root identity is invalid"@,
            )
        }),
{
    match made {
        Err(words) => {
            return Err(
                Error::io("TEMPLATE_IO_FAILED", "cannot create template root", words.as_str()),
            );
        },
        Ok(_) => {},
    }
    opened?;
    if !protected {
        return Err(Error::new("TEMPLATE_IO_FAILED", "template root identity is invalid"));
    }
    let identity: Identity = identity?;
    if !private_directory(identity, uid) {
        return Err(Error::new("TEMPLATE_IO_FAILED", "template root identity is invalid"));
    }
    Ok(())
}

/// Whether the root of a template that is being published may be given a mode.
pub fn may_set_publishing_mode(current: Result<Identity, Error>, expected: Identity, mode: u32) -> (allowed:
    Result<(), Error>)
    ensures
        failure(allowed) == ({
            let detail = "publishing template root changed before mode transition"@;
            if mode != 0o555 && mode != 0o755 {
                Some(needs_recovery(detail))
            } else {
                or_fail(
                    failure(current),
                    is_publishing(current->Ok_0, expected),
                    "TEMPLATE_RECOVERY_REQUIRED"@,
                    detail,
                )
            }
        }),
{
    if mode != 0o555 && mode != 0o755 {
        return Err(
            template_recovery("publishing template root changed before mode transition"),
        );
    }
    let current: Identity = current?;
    if !publishing_binding(current, expected) {
        return Err(
            template_recovery("publishing template root changed before mode transition"),
        );
    }
    Ok(())
}

/// The root of a template that is being published has the mode that it was given.
pub fn set_publishing_root_mode(
    changed: Result<(), String>,
    synced: Result<(), String>,
    current: Result<Identity, Error>,
    expected: Identity,
    mode: u32,
) -> (set: Result<(), Error>)
    ensures
        failure(set) == ({
            let f = match changed {
                Err(words) => Some(
                    needs_recovery(
                        "cannot change publishing template root mode"@ + ": "@ + words@,
                    ),
                ),
                Ok(_) => None,
            };
            let f = first_of(
                f,
                match synced {
                    Err(words) => Some(
                        needs_recovery(
                            "cannot sync publishing template root mode"@ + ": "@ + words@,
                        ),
                    ),
                    Ok(_) => None,
                },
            );
            let f = first_of(f, failure(current));
            or_fail(
                f,
                current->Ok_0.mode == mode && is_publishing(current->Ok_0, expected),
                "TEMPLATE_RECOVERY_REQUIRED"@,
                "publishing template root changed after mode transition"@,
            )
        }),
{
    match changed {
        Err(words) => {
            return Err(
                Error::io(
                    "TEMPLATE_RECOVERY_REQUIRED",
                    "cannot change publishing template root mode",
                    words.as_str(),
                ),
            );
        },
        Ok(_) => {},
    }
    match synced {
        Err(words) => {
            return Err(
                Error::io(
                    "TEMPLATE_RECOVERY_REQUIRED",
                    "cannot sync publishing template root mode",
                    words.as_str(),
                ),
            );
        },
        Ok(_) => {},
    }
    let current: Identity = current?;
    if current.mode != mode || !publishing_binding(current, expected) {
        return Err(
            template_recovery("publishing template root changed after mode transition"),
        );
    }
    Ok(())
}

/// The root of a template is still the one to be renamed, where its mode need not change for that.
pub fn prepare_publishing_root(current: Result<Identity, Error>, expected: Identity) -> (ready: Result<
    (),
    Error,
>)
    ensures
        failure(ready) == or_fail(
            failure(current),
            is_publishing(current->Ok_0, expected),
            "TEMPLATE_RECOVERY_REQUIRED"@,
            "publishing template root changed before rename"@,
        ),
{
    let current: Identity = current?;
    if publishing_binding(current, expected) {
        Ok(())
    } else {
        Err(template_recovery("publishing template root changed before rename"))
    }
}

/// How asking for a lease ended.
#[derive(Debug)]
pub enum LeaseEvent {
    Locked,
    Interrupted(String),
    WouldBlock(String),
    Failed(String),
}

#[derive(Debug)]
pub enum LeaseStep {
    Leased,
    /// Ask again.
    Again,
    Failed(Error),
}

/// What an answer to the request for a lease means. Session creation shares a lease and waits for it;
/// collection wants it alone, and does not wait.
pub fn acquire_template_lease(event: LeaseEvent, exclusive: bool) -> (step: LeaseStep)
    ensures
        match (event, exclusive) {
            (LeaseEvent::Locked, _) => step is Leased,
            (LeaseEvent::Interrupted(_), false) => step is Again,
            (LeaseEvent::WouldBlock(_), true) => step matches LeaseStep::Failed(error) && error@ == (
                "TEMPLATE_BUSY"@,
                "template root is leased by session creation"@,
            ),
            (LeaseEvent::Interrupted(words), true)
            | (LeaseEvent::WouldBlock(words), false)
            | (LeaseEvent::Failed(words), _) => step matches LeaseStep::Failed(error) && error@
                == needs_recovery("cannot acquire template lease"@ + ": "@ + words@),
        },
{
    let words: String = match event {
        LeaseEvent::Locked => {
            return LeaseStep::Leased;
        },
        LeaseEvent::Interrupted(words) => {
            if !exclusive {
                return LeaseStep::Again;
            }
            words
        },
        LeaseEvent::WouldBlock(words) => {
            if exclusive {
                return LeaseStep::Failed(
                    Error::new("TEMPLATE_BUSY", "template root is leased by session creation"),
                );
            }
            words
        },
        LeaseEvent::Failed(words) => words,
    };
    LeaseStep::Failed(
        Error::io("TEMPLATE_RECOVERY_REQUIRED", "cannot acquire template lease", words.as_str()),
    )
}

/// A record of a template, and the file that it stands in.
#[derive(Debug)]
pub struct TemplateCapability {
    pub basename: Vec<u8>,
    pub record: TemplateRecord,
    pub binding: RecordBinding,
}

#[verifier::ext_equal]
pub struct TemplateCapabilityView {
    pub basename: Seq<u8>,
    pub record: TemplateView,
    pub binding: (Seq<u8>, Identity),
}

impl View for TemplateCapability {
    type V = TemplateCapabilityView;

    open spec fn view(&self) -> TemplateCapabilityView {
        TemplateCapabilityView {
            basename: self.basename@,
            record: self.record@,
            binding: self.binding@,
        }
    }
}

impl TemplateCapability {
    pub fn copy(&self) -> (same: Self)
        ensures
            same@ == self@,
    {
        TemplateCapability {
            basename: copy_bytes(self.basename.as_slice()),
            record: self.record.copy(),
            binding: self.binding.copy(),
        }
    }
}

pub open spec fn read_failure(
    name: Seq<u8>,
    present: Result<bool, Error>,
    read: Result<RecordBinding, Error>,
    record: Result<TemplateRecord, Error>,
) -> Option<Failure> {
    let f = or_fail(
        None,
        utf8_text(name) is Some,
        "TEMPLATE_CORRUPT"@,
        "template record name is not UTF-8"@,
    );
    let f = first_of(f, failure(present));
    if f is Some || !present->Ok_0 {
        f
    } else {
        let f = first_of(failure(read), failure(record));
        or_fail(
            f,
            name == utf8(record_name_text(record->Ok_0@.key)),
            "TEMPLATE_CORRUPT"@,
            "template record basename does not match its key"@,
        )
    }
}

/// The record that stands under a name, where one does.
pub fn read_template_capability(
    name: &[u8],
    present: Result<bool, Error>,
    read: Result<RecordBinding, Error>,
    record: Result<TemplateRecord, Error>,
) -> (capability: Result<Option<TemplateCapability>, Error>)
    ensures
        failure(capability) == read_failure(name@, present, read, record),
        capability matches Ok(found) ==> (found is Some) == present->Ok_0,
        capability matches Ok(Some(found)) ==> found@ == (TemplateCapabilityView {
            basename: name@,
            record: record->Ok_0@,
            binding: read->Ok_0@,
        }),
{
    if decode_text(name).is_none() {
        return Err(Error::new("TEMPLATE_CORRUPT", "template record name is not UTF-8"));
    }
    let present: bool = present?;
    if !present {
        return Ok(None);
    }
    let binding = read?;
    let record = record?;
    let expected = record_name(record.key.as_str());
    if !same_bytes(name, expected.as_slice()) {
        return Err(
            Error::new("TEMPLATE_CORRUPT", "template record basename does not match its key"),
        );
    }
    Ok(Some(TemplateCapability { basename: copy_bytes(name), record, binding }))
}

pub open spec fn revalidate_failure(
    current: Result<Option<TemplateCapability>, Error>,
    expected: TemplateCapabilityView,
    root: Option<(Result<Identity, Error>, Identity)>,
) -> Option<Failure> {
    let code = "TEMPLATE_RECOVERY_REQUIRED"@;
    let f = or_fail(
        failure(current),
        current->Ok_0 is Some,
        code,
        "template record disappeared while its lease was held"@,
    );
    let f = or_fail(
        f,
        current->Ok_0->0@.binding == expected.binding && current->Ok_0->0@.record
            == expected.record,
        code,
        "template record changed while its lease was held"@,
    );
    match root {
        None => f,
        Some((seen, identity)) => or_fail(
            first_of(f, failure(seen)),
            seen->Ok_0 == identity,
            code,
            "template root changed while its lease was held"@,
        ),
    }
}

/// The record and the root of a template are still those that were read before its lease was taken.
pub fn revalidate_template_capability(
    current: Result<Option<TemplateCapability>, Error>,
    expected: &TemplateCapability,
    root: Option<(Result<Identity, Error>, Identity)>,
) -> (capability: Result<TemplateCapability, Error>)
    ensures
        failure(capability) == revalidate_failure(current, expected@, root),
        capability matches Ok(capability) ==> capability == current->Ok_0->0,
{
    let current = match current? {
        Some(current) => current,
        None => {
            return Err(template_recovery("template record disappeared while its lease was held"));
        },
    };
    if !current.binding.same(&expected.binding) || !current.record.same(&expected.record) {
        return Err(template_recovery("template record changed while its lease was held"));
    }
    match root {
        None => {},
        Some((seen, identity)) => {
            let seen: Identity = seen?;
            if seen != identity {
                return Err(template_recovery("template root changed while its lease was held"));
            }
        },
    }
    Ok(current)
}

} // verus!
