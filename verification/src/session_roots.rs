//! What has to stand under the names of a session before it is used, published or removed.

use crate::authority::{failure, or_fail, Authority, AuthorityView, Error, Failure, Identity};
use crate::bytes::{
    contains_byte, copy_bytes, join2, same_bytes, same_text, slice_view, strip_prefix, strip_suffix,
    utf8, without_prefix, without_suffix,
};
use crate::inspection::first_of;
use crate::paths::{join, joined, same_path, same_path_spec};
use crate::record_txn::basename_failure;
use crate::session::{
    corrupt, cstring, is_bound_to, is_owned_worktree, needs_recovery, owned_worktree,
    record_authority_matches, root_name, root_name_text, tombstone_name, tombstone_name_text,
    CapabilityView, RecordCapability, SessionPayload, SessionPayloadView, SessionRecord, SessionView,
};
use crate::storage::{is_private_directory, private_directory};
use crate::template_roots::{name_identity, LeaseEvent, LeaseStep, NameSeen};
use vstd::prelude::*;

verus! {

/// A node has to be seen, and it has to be the one that is expected.
pub open spec fn node_failure(
    seen: Result<Identity, Error>,
    expected: Identity,
    code: Seq<char>,
    detail: Seq<char>,
) -> Option<Failure> {
    let f = failure(seen);
    or_fail(f, seen matches Ok(identity) && identity.is_same_node(expected), code, detail)
}

fn same_node(seen: Result<Identity, Error>, expected: Identity, code: &'static str, detail: &str) -> (same:
    Result<(), Error>)
    ensures
        failure(same) == node_failure(seen, expected, code@, detail@),
{
    let identity = seen?;
    if identity.same_node(expected) {
        Ok(())
    } else {
        Err(Error::new(code, detail))
    }
}

/// A volume has to be known, and it has to be the one that is expected.
pub open spec fn volume_failure(
    seen: Result<String, Error>,
    expected: Seq<char>,
    code: Seq<char>,
    detail: Seq<char>,
) -> Option<Failure> {
    let f = failure(seen);
    or_fail(f, seen matches Ok(volume) && volume@ == expected, code, detail)
}

fn same_volume(seen: Result<String, Error>, expected: &str, code: &'static str, detail: &str) -> (same:
    Result<(), Error>)
    ensures
        failure(same) == volume_failure(seen, expected@, code@, detail@),
{
    let volume = seen?;
    if same_text(volume.as_str(), expected) {
        Ok(())
    } else {
        Err(Error::new(code, detail))
    }
}

fn require(holds: bool, code: &'static str, detail: &str) -> (checked: Result<(), Error>)
    ensures
        failure(checked) == or_fail(None, holds, code@, detail@),
{
    if holds {
        Ok(())
    } else {
        Err(Error::new(code, detail))
    }
}

pub open spec fn entry_failure(seen: NameSeen) -> Option<Failure> {
    match seen {
        NameSeen::Failed(words) => Some(
            needs_recovery("cannot inspect managed session root"@ + ": "@ + words@),
        ),
        _ => None,
    }
}

/// What stands under a name of the container of sessions.
pub fn entry_identity_if_present(seen: NameSeen) -> (found: Result<Option<Identity>, Error>)
    ensures
        failure(found) == entry_failure(seen),
        found matches Ok(found) ==> found == name_identity(seen),
{
    match seen {
        NameSeen::Found(identity) => Ok(Some(identity)),
        NameSeen::Absent => Ok(None),
        NameSeen::Failed(words) => Err(
            Error::io(
                "SESSION_RECOVERY_REQUIRED",
                "cannot inspect managed session root",
                words.as_str(),
            ),
        ),
    }
}

/// Whether a session has a directory under either of its names. The second name is looked at only
/// where nothing stands under the first.
pub fn root_or_tombstone_present(root: NameSeen, tombstone: NameSeen) -> (present: Result<bool, Error>)
    ensures
        failure(present) == match name_identity(root) {
            Some(_) => None,
            None => first_of(entry_failure(root), entry_failure(tombstone)),
        },
        present matches Ok(present) ==> present == (name_identity(root) is Some || name_identity(
            tombstone,
        ) is Some),
{
    if entry_identity_if_present(root)?.is_some() {
        return Ok(true);
    }
    Ok(entry_identity_if_present(tombstone)?.is_some())
}

/// The path of a directory leads to the directory that is open.
pub open spec fn bind_failure(
    entry: Result<Identity, String>,
    descriptor: Result<Identity, Error>,
    label: Seq<char>,
) -> Option<Failure> {
    match entry {
        Err(words) => Some(("SESSION_IO_FAILED"@, "cannot stat "@ + label + ": "@ + words@)),
        Ok(entry) => {
            let f = failure(descriptor);
            or_fail(
                f,
                descriptor == Ok::<Identity, Error>(entry),
                "SESSION_IO_FAILED"@,
                label + " path does not match its descriptor"@,
            )
        },
    }
}

pub fn bind_path(entry: Result<Identity, String>, descriptor: Result<Identity, Error>, label: &str) -> (bound:
    Result<(), Error>)
    ensures
        failure(bound) == bind_failure(entry, descriptor, label@),
{
    match entry {
        Err(words) => Err(
            Error::io("SESSION_IO_FAILED", join2("cannot stat ", label).as_str(), words.as_str()),
        ),
        Ok(entry) => {
            let descriptor = descriptor?;
            if entry != descriptor {
                return Err(
                    Error::new(
                        "SESSION_IO_FAILED",
                        join2(label, " path does not match its descriptor").as_str(),
                    ),
                );
            }
            Ok(())
        },
    }
}

/// The container of sessions as it is found.
#[derive(Debug)]
pub struct ContainerSeen {
    pub identity: Result<Identity, Error>,
    pub volume: Result<String, Error>,
}

impl ContainerSeen {
    pub open spec fn container_failure(self, record: SessionView, uid: u32) -> Option<Failure> {
        let code = "SESSION_RECOVERY_REQUIRED"@;
        let detail = "session container no longer matches the record binding"@;
        let f = node_failure(self.identity, record.container_identity, code, detail);
        let f = or_fail(f, is_private_directory(self.identity->Ok_0, uid), code, detail);
        first_of(f, volume_failure(self.volume, record.volume, code, detail))
    }
}

/// A record belongs to the container that it is read from.
pub fn ensure_record_container(seen: ContainerSeen, record: &SessionRecord, uid: u32) -> (bound: Result<
    (),
    Error,
>)
    ensures
        failure(bound) == seen.container_failure(record@, uid),
{
    let detail = "session container no longer matches the record binding";
    let identity = seen.identity?;
    if !identity.same_node(record.container_identity) || !private_directory(identity, uid) {
        return Err(Error::new("SESSION_RECOVERY_REQUIRED", detail));
    }
    same_volume(seen.volume, record.volume.as_str(), "SESSION_RECOVERY_REQUIRED", detail)
}

/// A directory of a session as it is found under a name.
#[derive(Debug)]
pub struct AuthorizedSeen {
    pub container: ContainerSeen,
    pub opened: Result<(), Error>,
    pub entry: Result<Identity, Error>,
    pub descriptor: Result<Identity, Error>,
    pub volume: Result<String, Error>,
}

impl AuthorizedSeen {
    pub open spec fn root_failure(
        self,
        record: SessionView,
        name: Seq<char>,
        expected: Identity,
        uid: u32,
    ) -> Option<Failure> {
        let code = "SESSION_RECOVERY_REQUIRED"@;
        let detail = "managed session root no longer matches the record binding"@;
        let f = self.container.container_failure(record, uid);
        let f = first_of(
            f,
            basename_failure(utf8(name), "managed session root"@, "SESSION_CORRUPT"@),
        );
        let f = first_of(f, failure(self.opened));
        let f = first_of(f, node_failure(self.entry, expected, code, detail));
        let f = first_of(f, node_failure(self.descriptor, expected, code, detail));
        let f = or_fail(f, is_private_directory(expected, uid), code, detail);
        first_of(f, volume_failure(self.volume, record.volume, code, detail))
    }
}

/// A directory is the one that the record authorizes.
pub fn open_authorized_root(
    seen: AuthorizedSeen,
    record: &SessionRecord,
    name: &str,
    expected: Identity,
    uid: u32,
) -> (bound: Result<(), Error>)
    ensures
        failure(bound) == seen.root_failure(record@, name@, expected, uid),
{
    let code = "SESSION_RECOVERY_REQUIRED";
    let detail = "managed session root no longer matches the record binding";
    ensure_record_container(seen.container, record, uid)?;
    cstring(name.as_bytes(), "managed session root")?;
    seen.opened?;
    same_node(seen.entry, expected, code, detail)?;
    same_node(seen.descriptor, expected, code, detail)?;
    require(private_directory(expected, uid), code, detail)?;
    same_volume(seen.volume, record.volume.as_str(), code, detail)
}

/// The name and the node of the directory that a record lets be removed.
pub open spec fn removable(record: SessionView) -> Option<(Seq<char>, Identity)> {
    match record.payload {
        SessionPayloadView::Materializing { root_name, root_identity } => Some(
            (root_name, root_identity),
        ),
        SessionPayloadView::Tombstoned { tombstone_name, root_identity, .. } => Some(
            (tombstone_name, root_identity),
        ),
        _ => None,
    }
}

pub fn open_payload_root(record: &SessionRecord) -> (found: Result<(String, Identity), Error>)
    ensures
        failure(found) == or_fail(
            None,
            removable(record@) is Some,
            "SESSION_RECOVERY_REQUIRED"@,
            "session record has no removable descriptor-bound root"@,
        ),
        found matches Ok(found) ==> removable(record@) == Some((found.0@, found.1)),
{
    match &record.payload {
        SessionPayload::Materializing { root_name, root_identity } => Ok(
            (root_name.clone(), *root_identity),
        ),
        SessionPayload::Tombstoned { tombstone_name, root_identity, .. } => Ok(
            (tombstone_name.clone(), *root_identity),
        ),
        _ => Err(
            Error::new(
                "SESSION_RECOVERY_REQUIRED",
                "session record has no removable descriptor-bound root",
            ),
        ),
    }
}

/// Leases the directory of a session: shared for a command that runs in it, exclusive for a change.
/// An exclusive lease is not waited for.
pub fn acquire_lease(event: LeaseEvent, exclusive: bool) -> (step: LeaseStep)
    ensures
        match (event, exclusive) {
            (LeaseEvent::Locked, _) => step is Leased,
            (LeaseEvent::Interrupted(_), false) => step is Again,
            (LeaseEvent::WouldBlock(_), true) => step matches LeaseStep::Failed(error) && error@ == (
                "SESSION_BUSY"@,
                "session root is leased by an active command"@,
            ),
            (LeaseEvent::Interrupted(words), true)
            | (LeaseEvent::WouldBlock(words), false)
            | (LeaseEvent::Failed(words), _) => step matches LeaseStep::Failed(error) && error@ == (
                "SESSION_BUSY"@,
                "cannot acquire session lease"@ + ": "@ + words@,
            ),
        },
{
    let words: String = match event {
        LeaseEvent::Locked => {
            return LeaseStep::Leased;
        },
        LeaseEvent::Interrupted(words) => {
            if !exclusive {
                return LeaseStep::Again;
            }
            words
        },
        LeaseEvent::WouldBlock(words) => {
            if exclusive {
                return LeaseStep::Failed(
                    Error::new("SESSION_BUSY", "session root is leased by an active command"),
                );
            }
            words
        },
        LeaseEvent::Failed(words) => words,
    };
    LeaseStep::Failed(Error::io("SESSION_BUSY", "cannot acquire session lease", words.as_str()))
}

pub open spec fn revalidate_failure(
    current: Result<RecordCapability, Error>,
    expected: CapabilityView,
) -> Option<Failure> {
    let f = failure(current);
    or_fail(
        f,
        current matches Ok(current) && current@.binding == expected.binding,
        "SESSION_RECOVERY_REQUIRED"@,
        "session record bytes or identity changed across a capability boundary"@,
    )
}

/// The record is still the one that was read, file and bytes.
pub fn revalidate_record(current: Result<RecordCapability, Error>, expected: &RecordCapability) -> (same:
    Result<RecordCapability, Error>)
    ensures
        failure(same) == revalidate_failure(current, expected@),
        same matches Ok(same) ==> current == Ok::<RecordCapability, Error>(same),
{
    let current = current?;
    if !current.binding.same(&expected.binding) {
        return Err(
            Error::new(
                "SESSION_RECOVERY_REQUIRED",
                "session record bytes or identity changed across a capability boundary",
            ),
        );
    }
    Ok(current)
}

/// A record that is looked for: `seen` is what stands under its name, and `read` what is read there.
pub open spec fn optional_record_failure(
    name: Seq<u8>,
    seen: NameSeen,
    read: Result<RecordCapability, Error>,
    authority: AuthorityView,
) -> Option<Failure> {
    let f = basename_failure(name, "session record"@, "SESSION_CORRUPT"@);
    let f = first_of(f, entry_failure(seen));
    if f is Some || seen is Absent {
        f
    } else {
        let f = failure(read);
        or_fail(
            f,
            read matches Ok(capability) && is_bound_to(capability@.record, authority),
            "SESSION_CORRUPT"@,
            "session record is bound to a different authority"@,
        )
    }
}

pub fn optional_record(
    name: &[u8],
    seen: NameSeen,
    read: Result<RecordCapability, Error>,
    authority: &Authority,
) -> (record: Result<Option<RecordCapability>, Error>)
    ensures
        failure(record) == optional_record_failure(name@, seen, read, authority@),
        record matches Ok(None) ==> seen is Absent,
        record matches Ok(Some(record)) ==> seen is Found && read == Ok::<RecordCapability, Error>(
            record,
        ),
{
    cstring(name, "session record")?;
    if entry_identity_if_present(seen)?.is_none() {
        return Ok(None);
    }
    let capability = read?;
    if !record_authority_matches(&capability.record, authority) {
        return Err(
            Error::new("SESSION_CORRUPT", "session record is bound to a different authority"),
        );
    }
    Ok(Some(capability))
}

pub fn required_record(
    name: &[u8],
    seen: NameSeen,
    read: Result<RecordCapability, Error>,
    authority: &Authority,
) -> (record: Result<RecordCapability, Error>)
    ensures
        failure(record) == ({
            let f = optional_record_failure(name@, seen, read, authority@);
            or_fail(
                f,
                !(seen is Absent),
                "SESSION_ABSENT"@,
                "managed session record does not exist"@,
            )
        }),
        record matches Ok(record) ==> read == Ok::<RecordCapability, Error>(record),
{
    match optional_record(name, seen, read, authority)? {
        Some(record) => Ok(record),
        None => Err(Error::new("SESSION_ABSENT", "managed session record does not exist")),
    }
}

/// A directory of Git's that only its owner can write to.
pub open spec fn is_git_metadata_directory(identity: Identity, uid: u32) -> bool {
    &&& identity.is_directory()
    &&& identity.uid == uid
    &&& identity.mode & 0o022 == 0
    &&& identity.nlink >= 2
}

pub fn private_git_metadata_directory(identity: Identity, uid: u32) -> (is: bool)
    ensures
        is == is_git_metadata_directory(identity, uid),
{
    identity.directory() && identity.uid == uid && identity.mode & 0o022 == 0 && identity.nlink >= 2
}

/// The path that a worktree's pointer to its Git directory holds.
pub open spec fn pointer(dot_git: Seq<u8>) -> Option<Seq<u8>> {
    match without_prefix(dot_git, utf8("gitdir: "@)) {
        None => None,
        Some(rest) => match without_suffix(rest, seq![10u8]) {
            None => None,
            Some(path) => if path.len() == 0 || path.contains(10) || path.contains(13) {
                None
            } else {
                Some(path)
            },
        },
    }
}

/// The directory below which the worktrees of a private repository are registered.
pub open spec fn registry_prefix(common_path: Seq<u8>) -> Seq<u8> {
    joined(common_path, utf8("worktrees"@)).push(47)
}

/// The name under which a worktree is registered, where it is registered in its own repository.
pub open spec fn registered_name(dot_git: Seq<u8>, common_path: Seq<u8>) -> Option<Seq<u8>> {
    match pointer(dot_git) {
        None => None,
        Some(path) => match without_prefix(path, registry_prefix(common_path)) {
            None => None,
            Some(name) => if name.len() == 0 || name.contains(47) {
                None
            } else {
                Some(name)
            },
        },
    }
}

pub open spec fn pointer_failure(dot_git: Seq<u8>, common_path: Seq<u8>) -> Option<Failure> {
    let f = or_fail(
        None,
        pointer(dot_git) is Some,
        "SESSION_CORRUPT"@,
        "linked .git pointer is invalid"@,
    );
    or_fail(
        f,
        registered_name(dot_git, common_path) is Some,
        "SESSION_CORRUPT"@,
        "linked .git pointer leaves private common-dir"@,
    )
}

fn read_pointer(dot_git: &[u8]) -> (path: Option<&[u8]>)
    ensures
        slice_view(path) == pointer(dot_git@),
{
    let end: [u8; 1] = [10u8];
    proof {
        assert(end@ =~= seq![10u8]);
    }
    match strip_prefix(dot_git, "gitdir: ".as_bytes()) {
        None => None,
        Some(rest) => match strip_suffix(rest, &end) {
            None => None,
            Some(path) => if path.len() == 0 || contains_byte(path, 10) || contains_byte(path, 13) {
                None
            } else {
                Some(path)
            },
        },
    }
}

/// The name under which a linked worktree is registered.
pub fn registered_worktree(dot_git: &[u8], common_path: &[u8]) -> (name: Result<Vec<u8>, Error>)
    ensures
        failure(name) == pointer_failure(dot_git@, common_path@),
        name matches Ok(name) ==> registered_name(dot_git@, common_path@) == Some(name@),
{
    match read_pointer(dot_git) {
        None => Err(Error::new("SESSION_CORRUPT", "linked .git pointer is invalid")),
        Some(path) => {
            let mut prefix = join(common_path, "worktrees".as_bytes());
            prefix.push(47);
            match strip_prefix(path, prefix.as_slice()) {
                None => Err(
                    Error::new("SESSION_CORRUPT", "linked .git pointer leaves private common-dir"),
                ),
                Some(name) => if name.len() == 0 || contains_byte(name, 47) {
                    Err(
                        Error::new(
                            "SESSION_CORRUPT",
                            "linked .git pointer leaves private common-dir",
                        ),
                    )
                } else {
                    Ok(copy_bytes(name))
                },
            }
        },
    }
}

/// A worktree that points at the directory where it is registered is registered under that name.
pub proof fn law_pointer_names_its_registration(common_path: Seq<u8>, name: Seq<u8>)
    requires
        name.len() > 0,
        !name.contains(47),
        !name.contains(10),
        !name.contains(13),
        !common_path.contains(10),
        !common_path.contains(13),
    ensures
        registered_name(
            (utf8("gitdir: "@) + registry_prefix(common_path) + name).push(10),
            common_path,
        ) == Some(name),
{
    let prefix = registry_prefix(common_path);
    let path = prefix + name;
    let dot_git = (utf8("gitdir: "@) + prefix + name).push(10);
    let rest = path.push(10);
    assert(dot_git =~= utf8("gitdir: "@) + rest);
    assert(utf8("gitdir: "@).is_prefix_of(dot_git));
    assert(without_prefix(dot_git, utf8("gitdir: "@)) == Some(rest)) by {
        assert(dot_git.skip(utf8("gitdir: "@).len() as int) =~= rest);
    }
    assert(without_suffix(rest, seq![10u8]) == Some(path)) by {
        assert(seq![10u8].is_suffix_of(rest));
        assert(rest.take(rest.len() - 1) =~= path);
    }
    reveal_strlit("worktrees");
    crate::bytes::lemma_utf8_ascii("worktrees"@);
    let word = utf8("worktrees"@);
    assert forall|i: int| 0 <= i < word.len() implies word[i] != 10 && word[i] != 13 by {
        assert(word[i] == "worktrees"@[i] as u8);
    }
    assert(!prefix.contains(10) && !prefix.contains(13)) by {
        assert forall|i: int| 0 <= i < prefix.len() implies prefix[i] != 10 && prefix[i] != 13 by {
            if i < common_path.len() {
                assert(prefix[i] == common_path[i] || prefix[i] == word[i] || prefix[i] == 47);
            }
        }
    }
    assert(!path.contains(10) && !path.contains(13)) by {
        assert forall|i: int| 0 <= i < path.len() implies path[i] != 10 && path[i] != 13 by {
            if i < prefix.len() {
                assert(path[i] == prefix[i]);
            } else {
                assert(path[i] == name[i - prefix.len()]);
            }
        }
    }
    assert(without_prefix(path, prefix) == Some(name)) by {
        assert(prefix.is_prefix_of(path));
        assert(path.skip(prefix.len() as int) =~= name);
    }
}

/// What is seen of the way between a linked worktree and its private repository.
#[derive(Debug)]
pub struct TopologySeen {
    pub dot_git: Result<Vec<u8>, Error>,
    pub common: Result<Identity, Error>,
    pub common_volume: Result<String, Error>,
    pub worktrees: Result<Identity, Error>,
    pub worktrees_volume: Result<String, Error>,
    pub metadata: Result<Identity, Error>,
    pub metadata_volume: Result<String, Error>,
    pub gitdir: Result<Vec<u8>, Error>,
    pub commondir: Result<Vec<u8>, Error>,
    pub parent_opened: Result<(), Error>,
    pub ancestor_opened: Result<(), Error>,
    pub parent: Result<Identity, Error>,
    pub ancestor: Result<Identity, Error>,
    pub objects: Result<(), Error>,
    pub info: Result<(), Error>,
    pub alternates: Result<Vec<u8>, Error>,
    pub worktrees_entry: Result<Identity, Error>,
    pub worktrees_again: Result<Identity, Error>,
    pub metadata_entry: Result<Identity, Error>,
    pub metadata_again: Result<Identity, Error>,
}

/// A directory within the private repository, on its volume.
pub open spec fn within_failure(
    identity: Result<Identity, Error>,
    volume: Result<String, Error>,
    dev: u64,
    common_volume: Seq<char>,
    uid: u32,
    detail: Seq<char>,
) -> Option<Failure> {
    let f = failure(identity);
    let f = or_fail(
        f,
        is_git_metadata_directory(identity->Ok_0, uid) && identity->Ok_0.dev == dev,
        "SESSION_CORRUPT"@,
        detail,
    );
    first_of(f, volume_failure(volume, common_volume, "SESSION_CORRUPT"@, detail))
}

fn within(
    identity: Result<Identity, Error>,
    volume: Result<String, Error>,
    dev: u64,
    common_volume: &str,
    uid: u32,
    detail: &str,
) -> (found: Result<Identity, Error>)
    ensures
        failure(found) == within_failure(identity, volume, dev, common_volume@, uid, detail@),
        found matches Ok(found) ==> identity == Ok::<Identity, Error>(found),
{
    let identity = identity?;
    if !private_git_metadata_directory(identity, uid) || identity.dev != dev {
        return Err(Error::new("SESSION_CORRUPT", detail));
    }
    same_volume(volume, common_volume, "SESSION_CORRUPT", detail)?;
    Ok(identity)
}

/// A file has to be read, and it has to hold what is expected.
pub open spec fn content_failure(
    read: Result<Vec<u8>, Error>,
    expected: Seq<u8>,
    detail: Seq<char>,
) -> Option<Failure> {
    let f = failure(read);
    or_fail(f, read matches Ok(bytes) && bytes@ == expected, "SESSION_CORRUPT"@, detail)
}

fn holds(read: Result<Vec<u8>, Error>, expected: &[u8], detail: &str) -> (held: Result<(), Error>)
    ensures
        failure(held) == content_failure(read, expected@, detail@),
{
    let bytes = read?;
    if same_bytes(bytes.as_slice(), expected) {
        Ok(())
    } else {
        Err(Error::new("SESSION_CORRUPT", detail))
    }
}

impl TopologySeen {
    /// Where the worktree is registered.
    pub open spec fn registry_failure(self, common_path: Seq<u8>, uid: u32) -> Option<Failure> {
        let f = failure(self.dot_git);
        let f = first_of(f, pointer_failure(self.dot_git->Ok_0@, common_path));
        let f = first_of(f, failure(self.common));
        let f = first_of(f, failure(self.common_volume));
        let f = first_of(
            f,
            within_failure(
                self.worktrees,
                self.worktrees_volume,
                self.common->Ok_0.dev,
                self.common_volume->Ok_0@,
                uid,
                "private Git worktree registry is not an owned same-volume directory"@,
            ),
        );
        let f = first_of(
            f,
            basename_failure(
                registered_name(self.dot_git->Ok_0@, common_path)->0,
                "private worktree metadata"@,
                "SESSION_CORRUPT"@,
            ),
        );
        first_of(
            f,
            within_failure(
                self.metadata,
                self.metadata_volume,
                self.worktrees->Ok_0.dev,
                self.common_volume->Ok_0@,
                uid,
                "private Git worktree metadata is not an owned same-volume directory"@,
            ),
        )
    }

    /// What the registration says, and where it leads.
    pub open spec fn links_failure(self, worktree_path: Seq<u8>, canonical: Seq<u8>) -> Option<
        Failure,
    > {
        let f = content_failure(
            self.gitdir,
            joined(worktree_path, utf8(".git"@)).push(10),
            "private Git worktree metadata does not point to the managed worktree"@,
        );
        let f = first_of(
            f,
            content_failure(
                self.commondir,
                utf8("../.."@).push(10),
                "private Git worktree commondir is not the canonical relative binding"@,
            ),
        );
        let f = first_of(f, failure(self.parent_opened));
        let f = first_of(f, failure(self.ancestor_opened));
        let detail =
            "private Git worktree commondir does not resolve to the verified common-dir"@;
        let f = first_of(
            f,
            node_failure(self.parent, self.worktrees->Ok_0, "SESSION_CORRUPT"@, detail),
        );
        let f = first_of(
            f,
            node_failure(self.ancestor, self.common->Ok_0, "SESSION_CORRUPT"@, detail),
        );
        let f = first_of(f, failure(self.objects));
        let f = first_of(f, failure(self.info));
        first_of(
            f,
            content_failure(
                self.alternates,
                joined(canonical, utf8("objects"@)).push(10),
                "private object alternate no longer matches the authority"@,
            ),
        )
    }

    /// Nothing has moved meanwhile.
    pub open spec fn still_failure(self) -> Option<Failure> {
        let code = "SESSION_CORRUPT"@;
        let detail = "private Git worktree topology changed while validating runtime metadata"@;
        let f = node_failure(self.worktrees_entry, self.worktrees->Ok_0, code, detail);
        let f = first_of(
            f,
            node_failure(self.worktrees_again, self.worktrees->Ok_0, code, detail),
        );
        let f = first_of(
            f,
            node_failure(self.metadata_entry, self.metadata->Ok_0, code, detail),
        );
        first_of(f, node_failure(self.metadata_again, self.metadata->Ok_0, code, detail))
    }

    pub open spec fn topology_failure(
        self,
        common_path: Seq<u8>,
        worktree_path: Seq<u8>,
        canonical: Seq<u8>,
        uid: u32,
    ) -> Option<Failure> {
        let f = self.registry_failure(common_path, uid);
        let f = first_of(f, self.links_failure(worktree_path, canonical));
        first_of(f, self.still_failure())
    }
}

/// A linked worktree, its registration and its private repository belong together, and the private
/// repository lends its objects from the authority.
pub fn verify_runtime_topology(
    seen: TopologySeen,
    common_path: &[u8],
    worktree_path: &[u8],
    authority: &Authority,
    uid: u32,
) -> (verified: Result<(), Error>)
    ensures
        failure(verified) == seen.topology_failure(
            common_path@,
            worktree_path@,
            authority@.canonical,
            uid,
        ),
{
    let code = "SESSION_CORRUPT";
    let dot_git = seen.dot_git?;
    let name = registered_worktree(dot_git.as_slice(), common_path)?;
    let common = seen.common?;
    let common_volume = seen.common_volume?;
    let worktrees = within(
        seen.worktrees,
        seen.worktrees_volume,
        common.dev,
        common_volume.as_str(),
        uid,
        "private Git worktree registry is not an owned same-volume directory",
    )?;
    cstring(name.as_slice(), "private worktree metadata")?;
    let metadata = within(
        seen.metadata,
        seen.metadata_volume,
        worktrees.dev,
        common_volume.as_str(),
        uid,
        "private Git worktree metadata is not an owned same-volume directory",
    )?;
    let mut gitdir = join(worktree_path, ".git".as_bytes());
    gitdir.push(10);
    holds(
        seen.gitdir,
        gitdir.as_slice(),
        "private Git worktree metadata does not point to the managed worktree",
    )?;
    let mut commondir = crate::bytes::bytes_of("../..");
    commondir.push(10);
    holds(
        seen.commondir,
        commondir.as_slice(),
        "private Git worktree commondir is not the canonical relative binding",
    )?;
    seen.parent_opened?;
    seen.ancestor_opened?;
    let detail = "private Git worktree commondir does not resolve to the verified common-dir";
    same_node(seen.parent, worktrees, code, detail)?;
    same_node(seen.ancestor, common, code, detail)?;
    seen.objects?;
    seen.info?;
    let mut alternate = join(authority.canonical.as_slice(), "objects".as_bytes());
    alternate.push(10);
    holds(
        seen.alternates,
        alternate.as_slice(),
        "private object alternate no longer matches the authority",
    )?;
    let detail = "private Git worktree topology changed while validating runtime metadata";
    same_node(seen.worktrees_entry, worktrees, code, detail)?;
    same_node(seen.worktrees_again, worktrees, code, detail)?;
    same_node(seen.metadata_entry, metadata, code, detail)?;
    same_node(seen.metadata_again, metadata, code, detail)
}

/// What is seen of a session that is ready, from its directory down and back.
#[derive(Debug)]
pub struct ReadySeen {
    pub root_opened: Result<(), Error>,
    pub root: Result<Identity, Error>,
    pub root_entry: Result<Identity, Error>,
    pub root_path: Result<Identity, String>,
    pub root_bound: Result<Identity, Error>,
    pub worktree_opened: Result<(), Error>,
    pub common_opened: Result<(), Error>,
    pub container: Result<Identity, Error>,
    pub worktree: Result<Identity, Error>,
    pub container_volume: Result<String, Error>,
    pub root_volume: Result<String, Error>,
    pub common_volume: Result<String, Error>,
    pub worktree_volume: Result<String, Error>,
    pub common: Result<Identity, Error>,
    pub worktree_path: Result<Identity, String>,
    pub worktree_bound: Result<Identity, Error>,
    pub common_path: Result<Identity, String>,
    pub common_bound: Result<Identity, Error>,
    pub topology: Result<(), Error>,
    pub root_again: Result<Identity, Error>,
    pub root_entry_again: Result<Identity, Error>,
    pub common_again: Result<Identity, Error>,
    pub common_entry: Result<Identity, Error>,
    pub worktree_again: Result<Identity, Error>,
    pub worktree_entry: Result<Identity, Error>,
}

/// What a record says of a session that is ready.
pub open spec fn ready_failure(record: SessionView, authority: AuthorityView) -> Option<Failure> {
    match record.payload {
        SessionPayloadView::Ready { root_name, worktree, .. } => {
            let f = or_fail(
                None,
                is_bound_to(record, authority) && root_name == root_name_text(record.sid)
                    && worktree.0 == record.template,
                "SESSION_CORRUPT"@,
                "READY session record has invalid authority or receipt bindings"@,
            );
            first_of(
                f,
                basename_failure(utf8(root_name), "session root"@, "SESSION_CORRUPT"@),
            )
        },
        _ => Some(corrupt("session record is not READY"@)),
    }
}

impl ReadySeen {
    /// The directory of the session is the recorded one.
    pub open spec fn root_failure(self, root: Identity, uid: u32) -> Option<Failure> {
        let code = "SESSION_CORRUPT"@;
        let detail = "READY session root binding changed"@;
        let f = failure(self.root_opened);
        let f = first_of(f, node_failure(self.root, root, code, detail));
        let f = first_of(f, node_failure(self.root_entry, root, code, detail));
        let f = or_fail(f, is_private_directory(root, uid), code, detail);
        first_of(f, bind_failure(self.root_path, self.root_bound, "session root"@))
    }

    /// The receipts of the session still hold.
    pub open spec fn receipts_failure(
        self,
        record: SessionView,
        common: Identity,
        destination: Identity,
        uid: u32,
    ) -> Option<Failure> {
        let code = "SESSION_CORRUPT"@;
        let detail = "READY session receipts no longer match their stable bindings"@;
        let f = failure(self.worktree_opened);
        let f = first_of(f, failure(self.common_opened));
        let f = first_of(f, failure(self.container));
        let f = first_of(f, failure(self.worktree));
        let f = or_fail(
            f,
            self.container->Ok_0.is_same_node(record.container_identity) && is_private_directory(
                self.container->Ok_0,
                uid,
            ),
            code,
            detail,
        );
        let f = first_of(f, volume_failure(self.container_volume, record.volume, code, detail));
        let f = first_of(f, volume_failure(self.root_volume, record.volume, code, detail));
        let f = first_of(f, volume_failure(self.common_volume, record.volume, code, detail));
        let f = first_of(f, volume_failure(self.worktree_volume, record.volume, code, detail));
        let f = first_of(f, failure(self.common));
        or_fail(
            f,
            common.is_same_node(self.common->Ok_0) && is_private_directory(common, uid)
                && destination.is_same_node(self.worktree->Ok_0) && is_owned_worktree(
                self.worktree->Ok_0,
                uid,
            ),
            code,
            detail,
        )
    }

    /// Nothing has moved meanwhile.
    pub open spec fn still_failure(self, root: Identity, common: Identity) -> Option<Failure> {
        let code = "SESSION_CORRUPT"@;
        let detail = "READY session topology changed while validating descriptor bindings"@;
        let f = node_failure(self.root_again, root, code, detail);
        let f = first_of(f, node_failure(self.root_entry_again, root, code, detail));
        let f = first_of(f, node_failure(self.common_again, common, code, detail));
        let f = first_of(f, node_failure(self.common_entry, common, code, detail));
        let f = first_of(
            f,
            node_failure(self.worktree_again, self.worktree->Ok_0, code, detail),
        );
        first_of(f, node_failure(self.worktree_entry, self.worktree->Ok_0, code, detail))
    }

    pub open spec fn load_failure(
        self,
        record: SessionView,
        authority: AuthorityView,
        uid: u32,
    ) -> Option<Failure> {
        let f = ready_failure(record, authority);
        match record.payload {
            SessionPayloadView::Ready { root_identity, common_identity, worktree, .. } => {
                let f = first_of(f, self.root_failure(root_identity, uid));
                let f = first_of(
                    f,
                    self.receipts_failure(record, common_identity, worktree.1, uid),
                );
                let f = first_of(
                    f,
                    bind_failure(self.worktree_path, self.worktree_bound, "linked worktree"@),
                );
                let f = first_of(
                    f,
                    bind_failure(self.common_path, self.common_bound, "private common-dir"@),
                );
                let f = first_of(f, failure(self.topology));
                first_of(f, self.still_failure(root_identity, common_identity))
            },
            _ => f,
        }
    }
}

/// A session that is ready: the node of its directory, that of its private repository, and the paths
/// to what it consists of.
#[derive(Debug)]
pub struct ReadyBinding {
    pub root_name: String,
    pub root_identity: Identity,
    pub common_identity: Identity,
    pub root_path: Vec<u8>,
    pub worktree_path: Vec<u8>,
    pub common_path: Vec<u8>,
}

pub struct ReadyView {
    pub root_name: Seq<char>,
    pub root_identity: Identity,
    pub common_identity: Identity,
    pub root_path: Seq<u8>,
    pub worktree_path: Seq<u8>,
    pub common_path: Seq<u8>,
}

impl View for ReadyBinding {
    type V = ReadyView;

    open spec fn view(&self) -> ReadyView {
        ReadyView {
            root_name: self.root_name@,
            root_identity: self.root_identity,
            common_identity: self.common_identity,
            root_path: self.root_path@,
            worktree_path: self.worktree_path@,
            common_path: self.common_path@,
        }
    }
}

impl SessionView {
    /// What a record binds a session that is ready to, below the container of sessions.
    pub open spec fn ready_binding(self, sessions_path: Seq<u8>) -> ReadyView {
        let root_name = self.payload->Ready_root_name;
        let root_path = joined(sessions_path, utf8(root_name));
        ReadyView {
            root_name,
            root_identity: self.payload->Ready_root_identity,
            common_identity: self.payload->Ready_common_identity,
            root_path,
            worktree_path: joined(root_path, utf8("worktree"@)),
            common_path: joined(root_path, utf8("common.git"@)),
        }
    }
}

/// What a record binds its session to, before anything of it is looked at.
pub fn ready_binding(record: &SessionRecord, authority: &Authority, sessions_path: &[u8]) -> (binding:
    Result<ReadyBinding, Error>)
    ensures
        failure(binding) == ready_failure(record@, authority@),
        binding matches Ok(binding) ==> record@.payload is Ready && binding@
            == record@.ready_binding(sessions_path@),
{
    match &record.payload {
        SessionPayload::Ready {
            root_name: record_root,
            root_identity,
            common_identity,
            worktree,
            ..
        } => {
            let root = root_name(record.sid.as_str());
            if !record_authority_matches(record, authority) || !same_text(
                record_root.as_str(),
                root.as_str(),
            ) || !worktree.source.same(&record.template) {
                return Err(
                    Error::new(
                        "SESSION_CORRUPT",
                        "READY session record has invalid authority or receipt bindings",
                    ),
                );
            }
            cstring(record_root.as_str().as_bytes(), "session root")?;
            let root_path = join(sessions_path, record_root.as_str().as_bytes());
            let worktree_path = join(root_path.as_slice(), "worktree".as_bytes());
            let common_path = join(root_path.as_slice(), "common.git".as_bytes());
            Ok(
                ReadyBinding {
                    root_name: record_root.clone(),
                    root_identity: *root_identity,
                    common_identity: *common_identity,
                    root_path,
                    worktree_path,
                    common_path,
                },
            )
        },
        _ => Err(Error::new("SESSION_CORRUPT", "session record is not READY")),
    }
}

/// A session is ready: all that its record binds it to stands where it should, and nothing moved
/// while it was looked at.
pub fn load_ready_session(
    seen: ReadySeen,
    record: &SessionRecord,
    authority: &Authority,
    sessions_path: &[u8],
    uid: u32,
) -> (ready: Result<ReadyBinding, Error>)
    ensures
        failure(ready) == seen.load_failure(record@, authority@, uid),
        ready matches Ok(ready) ==> record@.payload is Ready && ready@ == record@.ready_binding(
            sessions_path@,
        ),
{
    let binding = ready_binding(record, authority, sessions_path)?;
    let destination: Identity = match &record.payload {
        SessionPayload::Ready { worktree, .. } => worktree.destination,
        _ => binding.root_identity,
    };
    let root: Identity = binding.root_identity;
    let common: Identity = binding.common_identity;
    let code = "SESSION_CORRUPT";
    let detail = "READY session root binding changed";
    seen.root_opened?;
    same_node(seen.root, root, code, detail)?;
    same_node(seen.root_entry, root, code, detail)?;
    require(private_directory(root, uid), code, detail)?;
    bind_path(seen.root_path, seen.root_bound, "session root")?;
    let detail = "READY session receipts no longer match their stable bindings";
    seen.worktree_opened?;
    seen.common_opened?;
    let container = seen.container?;
    let worktree = seen.worktree?;
    require(
        container.same_node(record.container_identity) && private_directory(container, uid),
        code,
        detail,
    )?;
    let volume = record.volume.as_str();
    same_volume(seen.container_volume, volume, code, detail)?;
    same_volume(seen.root_volume, volume, code, detail)?;
    same_volume(seen.common_volume, volume, code, detail)?;
    same_volume(seen.worktree_volume, volume, code, detail)?;
    let found = seen.common?;
    require(
        common.same_node(found) && private_directory(common, uid) && destination.same_node(worktree)
            && owned_worktree(worktree, uid),
        code,
        detail,
    )?;
    bind_path(seen.worktree_path, seen.worktree_bound, "linked worktree")?;
    bind_path(seen.common_path, seen.common_bound, "private common-dir")?;
    seen.topology?;
    let detail = "READY session topology changed while validating descriptor bindings";
    same_node(seen.root_again, root, code, detail)?;
    same_node(seen.root_entry_again, root, code, detail)?;
    same_node(seen.common_again, common, code, detail)?;
    same_node(seen.common_entry, common, code, detail)?;
    same_node(seen.worktree_again, worktree, code, detail)?;
    same_node(seen.worktree_entry, worktree, code, detail)?;
    Ok(binding)
}

/// A session that is loaded, and its record, which has to be the same before and after.
pub fn load_ready_capability(
    ready: Result<ReadyBinding, Error>,
    current: Result<RecordCapability, Error>,
    expected: &RecordCapability,
) -> (loaded: Result<ReadyBinding, Error>)
    ensures
        failure(loaded) == first_of(failure(ready), revalidate_failure(current, expected@)),
        loaded matches Ok(loaded) ==> ready == Ok::<ReadyBinding, Error>(loaded),
{
    let ready = ready?;
    revalidate_record(current, expected)?;
    Ok(ready)
}

/// What is seen of a session once its lease is held.
#[derive(Debug)]
pub struct LeasedSeen {
    pub current: Result<RecordCapability, Error>,
    pub checked: Result<ReadyBinding, Error>,
    pub again: Result<RecordCapability, Error>,
    pub root: Result<Identity, Error>,
    pub root_entry: Result<Identity, Error>,
    pub checked_root: Result<Identity, Error>,
    pub common: Result<Identity, Error>,
    pub checked_common: Result<Identity, Error>,
}

impl LeasedSeen {
    pub open spec fn lease_failure(self, expected: CapabilityView, ready: ReadyView) -> Option<
        Failure,
    > {
        let code = "SESSION_RECOVERY_REQUIRED"@;
        let detail = "session root binding changed while its lease was held"@;
        let f = revalidate_failure(self.current, expected);
        let f = first_of(f, failure(self.checked));
        let f = first_of(f, revalidate_failure(self.again, self.current->Ok_0@));
        let f = first_of(f, node_failure(self.root, ready.root_identity, code, detail));
        let f = first_of(f, node_failure(self.root_entry, ready.root_identity, code, detail));
        let f = first_of(f, node_failure(self.checked_root, ready.root_identity, code, detail));
        let f = first_of(f, node_failure(self.common, ready.common_identity, code, detail));
        let f = first_of(f, node_failure(self.checked_common, ready.common_identity, code, detail));
        or_fail(
            f,
            same_path_spec(self.checked->Ok_0@.worktree_path, ready.worktree_path),
            code,
            detail,
        )
    }
}

/// A session is still the one that was leased, and so is its record.
pub fn revalidate_ready_lease(seen: LeasedSeen, expected: &RecordCapability, ready: &ReadyBinding) -> (current:
    Result<RecordCapability, Error>)
    ensures
        failure(current) == seen.lease_failure(expected@, ready@),
        current matches Ok(current) ==> seen.again == Ok::<RecordCapability, Error>(current)
            && current@.binding == expected@.binding,
{
    let code = "SESSION_RECOVERY_REQUIRED";
    let detail = "session root binding changed while its lease was held";
    let current = revalidate_record(seen.current, expected)?;
    let checked = seen.checked?;
    let current = revalidate_record(seen.again, &current)?;
    same_node(seen.root, ready.root_identity, code, detail)?;
    same_node(seen.root_entry, ready.root_identity, code, detail)?;
    same_node(seen.checked_root, ready.root_identity, code, detail)?;
    same_node(seen.common, ready.common_identity, code, detail)?;
    same_node(seen.checked_common, ready.common_identity, code, detail)?;
    require(
        same_path(checked.worktree_path.as_slice(), ready.worktree_path.as_slice()),
        code,
        detail,
    )?;
    Ok(current)
}

/// The record under a lease is the one that was read before: its bytes and its file.
pub proof fn law_lease_keeps_the_record(seen: LeasedSeen, expected: CapabilityView, ready: ReadyView)
    requires
        seen.lease_failure(expected, ready) is None,
    ensures
        seen.current->Ok_0@.binding == expected.binding,
        seen.again->Ok_0@.binding == expected.binding,
{
}

/// Where the directory of a session that is to go stands: under its own name, under that of its
/// tombstone, or nowhere any more.
#[derive(Clone, Copy, Debug, PartialEq, Eq, Structural)]
pub enum Standing {
    Root,
    Tombstone,
    Gone,
    /// Under both names, or something else stands there.
    Unclear,
}

pub open spec fn standing(
    root: Option<Identity>,
    tombstone: Option<Identity>,
    expected: Identity,
) -> Standing {
    match (root, tombstone) {
        (Some(root), None) => if root.is_same_node(expected) {
            Standing::Root
        } else {
            Standing::Unclear
        },
        (None, Some(tombstone)) => if tombstone.is_same_node(expected) {
            Standing::Tombstone
        } else {
            Standing::Unclear
        },
        (None, None) => Standing::Gone,
        _ => Standing::Unclear,
    }
}

pub fn stands(root: Option<Identity>, tombstone: Option<Identity>, expected: Identity) -> (found:
    Standing)
    ensures
        found == standing(root, tombstone, expected),
{
    match (root, tombstone) {
        (Some(root), None) => if root.same_node(expected) {
            Standing::Root
        } else {
            Standing::Unclear
        },
        (None, Some(tombstone)) => if tombstone.same_node(expected) {
            Standing::Tombstone
        } else {
            Standing::Unclear
        },
        (None, None) => Standing::Gone,
        _ => Standing::Unclear,
    }
}

/// What is seen of a session that is listed. What does not bear on where its record stands is not
/// looked at.
#[derive(Debug)]
pub struct DiagnoseSeen {
    pub sessions_path: Result<Identity, String>,
    pub sessions: Result<Identity, Error>,
    pub ready: Result<ReadyBinding, Error>,
    pub container: ContainerSeen,
    pub root_entry: NameSeen,
    pub tombstone_entry: NameSeen,
    pub root: AuthorizedSeen,
    pub tombstone: AuthorizedSeen,
    pub current: Result<RecordCapability, Error>,
}

/// The directory of a session that is to go stands under at most one of its names, and is the one that
/// the record authorizes.
pub open spec fn tombstoned_failure(
    container: ContainerSeen,
    root_entry: NameSeen,
    tombstone_entry: NameSeen,
    root: AuthorizedSeen,
    tombstone: AuthorizedSeen,
    record: SessionView,
    uid: u32,
) -> Option<Failure> {
    let root_name = record.payload->Tombstoned_root_name;
    let tombstone_name = record.payload->Tombstoned_tombstone_name;
    let root_identity = record.payload->Tombstoned_root_identity;
    let f = container.container_failure(record, uid);
    let f = first_of(f, basename_failure(utf8(root_name), "session root"@, "SESSION_CORRUPT"@));
    let f = first_of(
        f,
        basename_failure(utf8(tombstone_name), "session tombstone"@, "SESSION_CORRUPT"@),
    );
    let f = first_of(f, entry_failure(root_entry));
    let f = first_of(f, entry_failure(tombstone_entry));
    first_of(
        f,
        match standing(name_identity(root_entry), name_identity(tombstone_entry), root_identity) {
            Standing::Root => root.root_failure(record, root_name, root_identity, uid),
            Standing::Tombstone => tombstone.root_failure(
                record,
                tombstone_name,
                root_identity,
                uid,
            ),
            Standing::Gone => None,
            Standing::Unclear => Some(
                needs_recovery("tombstoned session roots are not record-authorized"@),
            ),
        },
    )
}

impl DiagnoseSeen {
    pub open spec fn diagnosis(self, capability: CapabilityView, uid: u32) -> Option<Failure> {
        let record = capability.record;
        let f = bind_failure(self.sessions_path, self.sessions, "session container"@);
        match record.payload {
            SessionPayloadView::Ready { .. } => {
                let f = first_of(f, failure(self.ready));
                first_of(f, revalidate_failure(self.current, capability))
            },
            SessionPayloadView::Prepared { .. } => {
                let f = first_of(f, self.container.container_failure(record, uid));
                first_of(f, revalidate_failure(self.current, capability))
            },
            SessionPayloadView::Materializing { root_name, root_identity } => {
                let f = first_of(f, self.root.root_failure(record, root_name, root_identity, uid));
                let f = first_of(
                    f,
                    basename_failure(
                        utf8(tombstone_name_text(record.sid)),
                        "session tombstone"@,
                        "SESSION_CORRUPT"@,
                    ),
                );
                let f = first_of(f, entry_failure(self.tombstone_entry));
                let f = or_fail(
                    f,
                    name_identity(self.tombstone_entry) is None,
                    "SESSION_RECOVERY_REQUIRED"@,
                    "materializing session has an unexpected tombstone"@,
                );
                first_of(f, revalidate_failure(self.current, capability))
            },
            SessionPayloadView::Tombstoned { .. } => {
                let f = first_of(
                    f,
                    tombstoned_failure(
                        self.container,
                        self.root_entry,
                        self.tombstone_entry,
                        self.root,
                        self.tombstone,
                        record,
                        uid,
                    ),
                );
                first_of(f, revalidate_failure(self.current, capability))
            },
        }
    }
}

fn diagnose_tombstoned(
    container: ContainerSeen,
    root_entry: NameSeen,
    tombstone_entry: NameSeen,
    root: AuthorizedSeen,
    tombstone: AuthorizedSeen,
    record: &SessionRecord,
    root_name: &str,
    tombstone_name: &str,
    root_identity: Identity,
    uid: u32,
) -> (sound: Result<(), Error>)
    requires
        record@.payload == (SessionPayloadView::Tombstoned {
            root_name: root_name@,
            tombstone_name: tombstone_name@,
            root_identity,
        }),
    ensures
        failure(sound) == tombstoned_failure(
            container,
            root_entry,
            tombstone_entry,
            root,
            tombstone,
            record@,
            uid,
        ),
{
    ensure_record_container(container, record, uid)?;
    cstring(root_name.as_bytes(), "session root")?;
    cstring(tombstone_name.as_bytes(), "session tombstone")?;
    let root_entry = entry_identity_if_present(root_entry)?;
    let tombstone_entry = entry_identity_if_present(tombstone_entry)?;
    match stands(root_entry, tombstone_entry, root_identity) {
        Standing::Root => open_authorized_root(root, record, root_name, root_identity, uid),
        Standing::Tombstone => open_authorized_root(
            tombstone,
            record,
            tombstone_name,
            root_identity,
            uid,
        ),
        Standing::Gone => Ok(()),
        Standing::Unclear => Err(
            Error::new(
                "SESSION_RECOVERY_REQUIRED",
                "tombstoned session roots are not record-authorized",
            ),
        ),
    }
}

/// Whether a session is what its record says.
pub fn diagnose_list_record(seen: DiagnoseSeen, capability: &RecordCapability, uid: u32) -> (sound:
    Result<(), Error>)
    ensures
        failure(sound) == seen.diagnosis(capability@, uid),
{
    let DiagnoseSeen {
        sessions_path,
        sessions,
        ready,
        container,
        root_entry,
        tombstone_entry,
        root,
        tombstone,
        current,
    } = seen;
    let record = &capability.record;
    bind_path(sessions_path, sessions, "session container")?;
    match &record.payload {
        SessionPayload::Ready { .. } => {
            ready?;
        },
        SessionPayload::Prepared { .. } => {
            ensure_record_container(container, record, uid)?;
        },
        SessionPayload::Materializing { root_name, root_identity } => {
            open_authorized_root(root, record, root_name.as_str(), *root_identity, uid)?;
            let name = tombstone_name(record.sid.as_str());
            cstring(name.as_str().as_bytes(), "session tombstone")?;
            if entry_identity_if_present(tombstone_entry)?.is_some() {
                return Err(
                    Error::new(
                        "SESSION_RECOVERY_REQUIRED",
                        "materializing session has an unexpected tombstone",
                    ),
                );
            }
        },
        SessionPayload::Tombstoned { root_name, tombstone_name, root_identity } => {
            diagnose_tombstoned(
                container,
                root_entry,
                tombstone_entry,
                root,
                tombstone,
                record,
                root_name.as_str(),
                tombstone_name.as_str(),
                *root_identity,
                uid,
            )?;
        },
    }
    revalidate_record(current, capability)?;
    Ok(())
}

/// A directory of a session was made, opened and made private.
pub open spec fn create_failure(
    name: Seq<u8>,
    made: Result<(), String>,
    opened: Result<(), Error>,
    protected: Result<(), String>,
    identity: Result<Identity, Error>,
    label: Seq<char>,
    uid: u32,
) -> Option<Failure> {
    let f = basename_failure(name, label, "SESSION_CORRUPT"@);
    let f = first_of(
        f,
        match made {
            Err(words) => Some(("SESSION_IO_FAILED"@, "cannot create "@ + label + ": "@ + words@)),
            Ok(_) => None,
        },
    );
    let f = first_of(f, failure(opened));
    let f = first_of(
        f,
        match protected {
            Err(words) => Some(("SESSION_IO_FAILED"@, "cannot protect "@ + label + ": "@ + words@)),
            Ok(_) => None,
        },
    );
    let f = first_of(f, failure(identity));
    or_fail(
        f,
        is_private_directory(identity->Ok_0, uid),
        "SESSION_IO_FAILED"@,
        label + " has an invalid identity"@,
    )
}

pub fn create_directory(
    name: &[u8],
    made: Result<(), String>,
    opened: Result<(), Error>,
    protected: Result<(), String>,
    identity: Result<Identity, Error>,
    label: &str,
    uid: u32,
) -> (created: Result<Identity, Error>)
    ensures
        failure(created) == create_failure(
            name@,
            made,
            opened,
            protected,
            identity,
            label@,
            uid,
        ),
        created matches Ok(created) ==> identity == Ok::<Identity, Error>(created),
{
    cstring(name, label)?;
    match made {
        Err(words) => {
            return Err(
                Error::io(
                    "SESSION_IO_FAILED",
                    join2("cannot create ", label).as_str(),
                    words.as_str(),
                ),
            );
        },
        Ok(_) => {},
    }
    opened?;
    match protected {
        Err(words) => {
            return Err(
                Error::io(
                    "SESSION_IO_FAILED",
                    join2("cannot protect ", label).as_str(),
                    words.as_str(),
                ),
            );
        },
        Ok(_) => {},
    }
    let identity = identity?;
    if !private_directory(identity, uid) {
        return Err(
            Error::new("SESSION_IO_FAILED", join2(label, " has an invalid identity").as_str()),
        );
    }
    Ok(identity)
}

/// An empty directory as it is found before it is removed.
#[derive(Debug)]
pub struct EmptySeen {
    pub entry: Result<Identity, Error>,
    pub opened: Result<(), Error>,
    pub descriptor: Result<Identity, Error>,
    pub names: Result<Vec<Vec<u8>>, Error>,
}

impl EmptySeen {
    pub open spec fn empty_failure(
        self,
        name: Seq<u8>,
        expected: Identity,
        label: Seq<char>,
        uid: u32,
    ) -> Option<Failure> {
        let f = basename_failure(name, label, "SESSION_CORRUPT"@);
        let f = first_of(f, failure(self.entry));
        let f = or_fail(
            f,
            self.entry->Ok_0 == expected && is_private_directory(expected, uid),
            "SESSION_IO_FAILED"@,
            label + " identity changed before cleanup"@,
        );
        let f = first_of(f, failure(self.opened));
        let detail = label + " is no longer an owned empty directory"@;
        let f = first_of(f, failure(self.descriptor));
        let f = or_fail(f, self.descriptor->Ok_0 == expected, "SESSION_IO_FAILED"@, detail);
        let f = first_of(f, failure(self.names));
        or_fail(f, self.names->Ok_0@.len() == 0, "SESSION_IO_FAILED"@, detail)
    }
}

/// Whether an empty directory may be removed: it is the expected one, and it is empty.
pub fn remove_empty_directory(
    seen: EmptySeen,
    name: &[u8],
    expected: Identity,
    label: &str,
    uid: u32,
) -> (may: Result<(), Error>)
    ensures
        failure(may) == seen.empty_failure(name@, expected, label@, uid),
{
    cstring(name, label)?;
    let entry = seen.entry?;
    if entry != expected || !private_directory(entry, uid) {
        return Err(
            Error::new(
                "SESSION_IO_FAILED",
                join2(label, " identity changed before cleanup").as_str(),
            ),
        );
    }
    seen.opened?;
    let descriptor = seen.descriptor?;
    if descriptor != expected {
        return Err(
            Error::new(
                "SESSION_IO_FAILED",
                join2(label, " is no longer an owned empty directory").as_str(),
            ),
        );
    }
    let names = seen.names?;
    if names.len() != 0 {
        return Err(
            Error::new(
                "SESSION_IO_FAILED",
                join2(label, " is no longer an owned empty directory").as_str(),
            ),
        );
    }
    Ok(())
}

/// How removing it went.
pub fn removed_empty_directory(unlinked: Result<(), String>, synced: Result<(), String>, label: &str) -> (removed:
    Result<(), Error>)
    ensures
        failure(removed) == first_of(
            match unlinked {
                Err(words) => Some(
                    ("SESSION_IO_FAILED"@, "cannot clean up "@ + label@ + ": "@ + words@),
                ),
                Ok(_) => None,
            },
            match synced {
                Err(words) => Some(
                    ("SESSION_IO_FAILED"@, "cannot sync session root cleanup"@ + ": "@ + words@),
                ),
                Ok(_) => None,
            },
        ),
{
    match unlinked {
        Err(words) => {
            return Err(
                Error::io(
                    "SESSION_IO_FAILED",
                    join2("cannot clean up ", label).as_str(),
                    words.as_str(),
                ),
            );
        },
        Ok(_) => {},
    }
    match synced {
        Err(words) => Err(
            Error::io("SESSION_IO_FAILED", "cannot sync session root cleanup", words.as_str()),
        ),
        Ok(_) => Ok(()),
    }
}

} // verus!
