//! Copy-on-write storage: receipts, the directories and files that may take part, the volume they
//! are on, and the evidence that two files share their data.

use crate::authority::{failure, or_fail, Error, Failure, Identity};
use crate::bytes::{append, bytes_of, contains_byte, join2, join3, same_bytes, same_text, utf8};
use crate::inspection::first_of;
use crate::notation::{
    all_hex, big_endian, decimal_text, frame, hex_text, only_hex, push_frame, radix_text,
    to_big_endian, to_decimal, to_hex, to_octal, to_short_hex,
};
use vstd::prelude::*;
use vstd::string::StringExecFns;

verus! {

/// How long the target of a symbolic link may be.
pub const MAX_SYMLINK: usize = 4096;

/// What a tree was made of: the digest of its manifest and the number of its files and links.
#[derive(Debug)]
pub struct ManifestReceipt {
    pub digest: String,
    pub entries: u64,
}

/// A sealed tree: its root, its volume, its manifest, and the digest of its content.
#[derive(Debug)]
pub struct SealedTreeReceipt {
    pub root: Identity,
    pub volume: String,
    pub manifest: ManifestReceipt,
    pub content_digest: String,
}

/// A worktree that was cloned from a sealed tree.
#[derive(Debug)]
pub struct CowReceipt {
    pub source: SealedTreeReceipt,
    pub destination: Identity,
}

pub struct SealedView {
    pub root: Identity,
    pub volume: Seq<char>,
    pub digest: Seq<char>,
    pub entries: u64,
    pub content_digest: Seq<char>,
}

impl View for SealedTreeReceipt {
    type V = SealedView;

    open spec fn view(&self) -> SealedView {
        SealedView {
            root: self.root,
            volume: self.volume@,
            digest: self.manifest.digest@,
            entries: self.manifest.entries,
            content_digest: self.content_digest@,
        }
    }
}

impl View for CowReceipt {
    type V = (SealedView, Identity);

    open spec fn view(&self) -> (SealedView, Identity) {
        (self.source@, self.destination)
    }
}

impl ManifestReceipt {
    pub fn copy(&self) -> (same: Self)
        ensures
            same.digest@ == self.digest@,
            same.entries == self.entries,
    {
        ManifestReceipt { digest: self.digest.clone(), entries: self.entries }
    }

    pub fn same(&self, other: &Self) -> (same: bool)
        ensures
            same == (self.digest@ == other.digest@ && self.entries == other.entries),
    {
        self.entries == other.entries && same_text(self.digest.as_str(), other.digest.as_str())
    }
}

impl SealedTreeReceipt {
    pub fn same(&self, other: &Self) -> (same: bool)
        ensures
            same == (self@ == other@),
    {
        self.root == other.root && same_text(self.volume.as_str(), other.volume.as_str())
            && self.manifest.same(&other.manifest) && same_text(
            self.content_digest.as_str(),
            other.content_digest.as_str(),
        )
    }

    pub fn copy(&self) -> (same: Self)
        ensures
            same@ == self@,
    {
        SealedTreeReceipt {
            root: self.root,
            volume: self.volume.clone(),
            manifest: self.manifest.copy(),
            content_digest: self.content_digest.clone(),
        }
    }
}

impl CowReceipt {
    pub fn same(&self, other: &Self) -> (same: bool)
        ensures
            same == (self@ == other@),
    {
        self.source.same(&other.source) && self.destination == other.destination
    }

    pub fn copy(&self) -> (same: Self)
        ensures
            same@ == self@,
    {
        CowReceipt { source: self.source.copy(), destination: self.destination }
    }
}

/// A directory of the user with this mode.
pub open spec fn is_directory_of(identity: Identity, uid: u32, mode: u32) -> bool {
    &&& identity.is_directory()
    &&& identity.uid == uid
    &&& identity.mode == mode
    &&& identity.nlink >= 2
}

/// A regular file of the user with one name.
pub open spec fn is_sole_regular_of(identity: Identity, uid: u32) -> bool {
    &&& identity.is_regular()
    &&& identity.uid == uid
    &&& identity.nlink == 1
}

pub open spec fn is_private_directory(identity: Identity, uid: u32) -> bool {
    is_directory_of(identity, uid, 0o700)
}

pub open spec fn is_sealed_directory(identity: Identity, uid: u32) -> bool {
    is_directory_of(identity, uid, 0o555)
}

pub open spec fn is_worktree_directory(identity: Identity, uid: u32) -> bool {
    is_directory_of(identity, uid, 0o755)
}

pub open spec fn is_clone_destination(identity: Identity, uid: u32) -> bool {
    is_directory_of(identity, uid, 0o700) || is_directory_of(identity, uid, 0o755)
}

pub open spec fn is_sealed_regular(identity: Identity, uid: u32) -> bool {
    is_sole_regular_of(identity, uid) && (identity.mode == 0o444 || identity.mode == 0o555)
}

pub open spec fn is_worktree_regular(identity: Identity, uid: u32) -> bool {
    is_sole_regular_of(identity, uid) && (identity.mode == 0o644 || identity.mode == 0o755)
}

pub fn private_directory(identity: Identity, uid: u32) -> (is: bool)
    ensures
        is == is_private_directory(identity, uid),
{
    identity.directory() && identity.uid == uid && identity.mode == 0o700 && identity.nlink >= 2
}

pub fn sealed_directory(identity: Identity, uid: u32) -> (is: bool)
    ensures
        is == is_sealed_directory(identity, uid),
{
    identity.directory() && identity.uid == uid && identity.mode == 0o555 && identity.nlink >= 2
}

pub fn sealed_regular(identity: Identity, uid: u32) -> (is: bool)
    ensures
        is == is_sealed_regular(identity, uid),
{
    identity.regular() && identity.uid == uid && identity.nlink == 1 && (identity.mode == 0o444
        || identity.mode == 0o555)
}

pub fn worktree_directory(identity: Identity, uid: u32) -> (is: bool)
    ensures
        is == is_worktree_directory(identity, uid),
{
    identity.directory() && identity.uid == uid && identity.mode == 0o755 && identity.nlink >= 2
}

pub fn worktree_regular(identity: Identity, uid: u32) -> (is: bool)
    ensures
        is == is_worktree_regular(identity, uid),
{
    identity.regular() && identity.uid == uid && identity.nlink == 1 && (identity.mode == 0o644
        || identity.mode == 0o755)
}

pub fn clone_destination_directory(identity: Identity, uid: u32) -> (is: bool)
    ensures
        is == is_clone_destination(identity, uid),
{
    identity.directory() && identity.uid == uid && (identity.mode == 0o700 || identity.mode
        == 0o755) && identity.nlink >= 2
}

/// The mode under which a file of a worktree stands in a sealed tree.
pub open spec fn sealed_mode_spec(mode: u32) -> u32 {
    if mode == 0o755 {
        0o555
    } else {
        0o444
    }
}

/// The mode under which a sealed file stands in a worktree.
pub open spec fn session_mode_spec(mode: u32) -> u32 {
    if mode == 0o555 {
        0o755
    } else {
        0o644
    }
}

pub fn sealed_mode(mode: u32) -> (sealed: u32)
    ensures
        sealed == sealed_mode_spec(mode),
{
    if mode == 0o755 {
        0o555
    } else {
        0o444
    }
}

pub fn session_mode(source_mode: u32) -> (mode: u32)
    ensures
        mode == session_mode_spec(source_mode),
{
    if source_mode == 0o555 {
        0o755
    } else {
        0o644
    }
}

/// Sealing the mode of a cloned file gives back the mode it was cloned from, and the other way round.
pub proof fn law_modes_are_inverse(sealed: Identity, worktree: Identity, uid: u32)
    ensures
        is_sealed_regular(sealed, uid) ==> sealed_mode_spec(session_mode_spec(sealed.mode))
            == sealed.mode,
        is_worktree_regular(worktree, uid) ==> session_mode_spec(sealed_mode_spec(worktree.mode))
            == worktree.mode,
{
}

/// The same directory as before; only its link count may have changed.
pub open spec fn is_stable_directory(current: Identity, expected: Identity) -> bool {
    current.is_directory() && expected.is_directory() && current.is_same_node(expected)
}

pub fn stable_directory_node(current: Identity, expected: Identity) -> (stable: bool)
    ensures
        stable == is_stable_directory(current, expected),
{
    current.directory() && expected.directory() && current.same_node(expected)
}

/// The same directory of the user as before, whatever its mode and its links have become. A tree that is
/// being removed loses the mode under which it was sealed.
pub open spec fn is_owned_tree(current: Identity, expected: Identity) -> bool {
    &&& current.is_directory()
    &&& expected.is_directory()
    &&& current.dev == expected.dev
    &&& current.ino == expected.ino
    &&& current.uid == expected.uid
}

pub fn owned_tree_binding(current: Identity, expected: Identity) -> (bound: bool)
    ensures
        bound == is_owned_tree(current, expected),
{
    current.directory() && expected.directory() && current.dev == expected.dev && current.ino
        == expected.ino && current.uid == expected.uid
}

/// The same directory as before, sealed or about to be renamed.
pub open spec fn is_publishing(current: Identity, expected: Identity) -> bool {
    is_owned_tree(current, expected) && (current.mode == 0o555 || current.mode == 0o755)
}

pub fn publishing_binding(current: Identity, expected: Identity) -> (bound: bool)
    ensures
        bound == is_publishing(current, expected),
{
    owned_tree_binding(current, expected) && (current.mode == 0o555 || current.mode == 0o755)
}

/// The extended attributes that a file may carry: none, or only the system's provenance mark.
pub fn macos_xattr_name_list_allowed(names: &[u8]) -> (allowed: bool)
    ensures
        allowed == (names@.len() == 0 || names@ == utf8("com.apple.provenance\0"@)),
{
    names.len() == 0 || same_bytes(names, "com.apple.provenance\0".as_bytes())
}

/// The list of extended attributes is as long as was announced.
pub fn macos_xattr_names(announced: usize, names: Vec<u8>) -> (list: Result<Vec<u8>, Error>)
    ensures
        failure(list) == or_fail(
            None,
            names@.len() == announced,
            "STORAGE_UNSUPPORTED"@,
            "native COW xattr list changed while reading"@,
        ),
        list matches Ok(list) ==> list@ == names@,
{
    if names.len() != announced {
        return Err(
            Error::new("STORAGE_UNSUPPORTED", "native COW xattr list changed while reading"),
        );
    }
    Ok(names)
}

pub open spec fn lower(byte: u8) -> u8 {
    if 65 <= byte <= 90 {
        (byte + 32) as u8
    } else {
        byte
    }
}

pub open spec fn lowered(bytes: Seq<u8>) -> Seq<u8> {
    Seq::new(bytes.len(), |i: int| lower(bytes[i]))
}

/// The bytes with ASCII letters in lower case.
pub fn to_lower(bytes: &[u8]) -> (low: Vec<u8>)
    ensures
        low@ == lowered(bytes@),
{
    let mut low: Vec<u8> = Vec::new();
    let mut i: usize = 0;
    while i < bytes.len()
        invariant
            i <= bytes@.len(),
            low@.len() == i,
            forall|k: int| 0 <= k < i ==> low@[k] == lower(bytes@[k]),
        decreases bytes@.len() - i,
    {
        let byte: u8 = bytes[i];
        low.push(
            if 65 <= byte && byte <= 90 {
                byte + 32
            } else {
                byte
            },
        );
        i += 1;
    }
    proof {
        assert(low@ =~= lowered(bytes@));
    }
    low
}

/// A name that may stand in a sealed tree: one entry, and not Git's own in any case.
pub open spec fn is_tree_basename(name: Seq<u8>) -> bool {
    &&& crate::record_txn::is_basename(name)
    &&& lowered(name) != utf8(".git"@)
}

pub fn validate_basename(bytes: &[u8]) -> (valid: Result<(), Error>)
    ensures
        failure(valid) == or_fail(
            None,
            is_tree_basename(bytes@),
            "STORAGE_UNSUPPORTED"@,
            "sealed tree contains an invalid pathname component"@,
        ),
{
    let dot: bool = bytes.len() == 1 && bytes[0] == 46;
    let dots: bool = bytes.len() == 2 && bytes[0] == 46 && bytes[1] == 46;
    proof {
        if bytes@.len() == 1 && bytes@[0] == 46 {
            assert(bytes@ =~= seq![46u8]);
        }
        if bytes@.len() == 2 && bytes@[0] == 46 && bytes@[1] == 46 {
            assert(bytes@ =~= seq![46u8, 46u8]);
        }
    }
    if bytes.len() == 0 || dot || dots || contains_byte(bytes, 47) || same_bytes(
        to_lower(bytes).as_slice(),
        ".git".as_bytes(),
    ) {
        Err(Error::new("STORAGE_UNSUPPORTED", "sealed tree contains an invalid pathname component"))
    } else {
        Ok(())
    }
}

pub fn cstring(bytes: &[u8]) -> (checked: Result<(), Error>)
    ensures
        failure(checked) == or_fail(
            None,
            !bytes@.contains(0),
            "STORAGE_UNSUPPORTED"@,
            "pathname contains NUL"@,
        ),
{
    if contains_byte(bytes, 0) {
        Err(Error::new("STORAGE_UNSUPPORTED", "pathname contains NUL"))
    } else {
        Ok(())
    }
}

pub open spec fn is_digest(text: Seq<char>) -> bool {
    utf8(text).len() == 64 && all_hex(utf8(text))
}

pub fn valid_digest(value: &str) -> (valid: bool)
    ensures
        valid == is_digest(value@),
{
    let bytes = value.as_bytes();
    bytes.len() == 64 && only_hex(bytes)
}

/// A storage error of the system, whose own words are `words`.
pub fn storage_io(context: &str, words: &str) -> (error: Error)
    ensures
        error@ == ("STORAGE_UNSUPPORTED"@, context@ + ": "@ + words@),
{
    Error::io("STORAGE_UNSUPPORTED", context, words)
}

/// The filesystem that a directory is on.
#[derive(Debug)]
pub enum Filesystem {
    Mac { name: Vec<u8>, fsid: u64 },
    Linux { kind: u64, fsid: u64 },
}

/// Linux filesystems that cannot share data between files: the temporary, the network and the
/// overlay one.
pub open spec fn never_shares(kind: u64) -> bool {
    kind == 0x0102_1994 || kind == 0x6969 || kind == 0x794c_7630
}

pub open spec fn filesystem_text(filesystem: Filesystem) -> Seq<char> {
    match filesystem {
        Filesystem::Mac { name: _, fsid } => "apfs:"@ + hex_text(big_endian(fsid as nat, 8)),
        Filesystem::Linux { kind, fsid } => "linux-"@ + radix_text(kind as nat, 16) + ":"@
            + hex_text(big_endian(fsid as nat, 8)),
    }
}

pub open spec fn filesystem_failure(filesystem: Filesystem) -> Option<Failure> {
    match filesystem {
        Filesystem::Mac { name, fsid: _ } => or_fail(
            None,
            name@ == utf8("apfs"@),
            "STORAGE_UNSUPPORTED"@,
            "native COW requires an APFS volume on macOS"@,
        ),
        Filesystem::Linux { kind, fsid: _ } => or_fail(
            None,
            !never_shares(kind),
            "STORAGE_UNSUPPORTED"@,
            "native COW is unavailable on this Linux filesystem"@,
        ),
    }
}

pub fn filesystem_kind(filesystem: &Filesystem) -> (kind: Result<String, Error>)
    ensures
        failure(kind) == filesystem_failure(*filesystem),
        kind matches Ok(kind) ==> kind@ == filesystem_text(*filesystem),
{
    match filesystem {
        Filesystem::Mac { name, fsid } => {
            if !same_bytes(name.as_slice(), "apfs".as_bytes()) {
                return Err(
                    Error::new(
                        "STORAGE_UNSUPPORTED",
                        "native COW requires an APFS volume on macOS",
                    ),
                );
            }
            let id = to_hex(to_big_endian(*fsid, 8).as_slice());
            Ok(join2("apfs:", id.as_str()))
        },
        Filesystem::Linux { kind, fsid } => {
            if *kind == 0x0102_1994 || *kind == 0x6969 || *kind == 0x794c_7630 {
                return Err(
                    Error::new(
                        "STORAGE_UNSUPPORTED",
                        "native COW is unavailable on this Linux filesystem",
                    ),
                );
            }
            let id = to_hex(to_big_endian(*fsid, 8).as_slice());
            let mut text = join3("linux-", to_short_hex(*kind).as_str(), ":");
            text.append(id.as_str());
            Ok(text)
        },
    }
}

/// What names a volume: the filesystem, the device, and the mount.
pub open spec fn volume_text(filesystem: Filesystem, dev: u64, mount: u64) -> Seq<char> {
    filesystem_text(filesystem) + ":dev="@ + decimal_text(dev as nat) + ":mnt="@ + decimal_text(
        mount as nat,
    )
}

/// Why the volume of a directory cannot be named.
pub open spec fn volume_failure(
    identity: Result<Identity, Error>,
    filesystem: Result<Filesystem, Error>,
    mount: Result<u64, Error>,
    uid: u32,
) -> Option<Failure> {
    let f = failure(identity);
    let f = or_fail(
        f,
        identity->Ok_0.is_directory() && identity->Ok_0.uid == uid,
        "STORAGE_UNSUPPORTED"@,
        "volume probe directory is not an owned directory"@,
    );
    let f = first_of(f, failure(filesystem));
    let f = first_of(f, filesystem_failure(filesystem->Ok_0));
    first_of(f, failure(mount))
}

pub fn volume_id(
    identity: Result<Identity, Error>,
    filesystem: Result<Filesystem, Error>,
    mount: Result<u64, Error>,
    uid: u32,
) -> (volume: Result<String, Error>)
    ensures
        failure(volume) == volume_failure(identity, filesystem, mount, uid),
        volume matches Ok(volume) ==> volume@ == volume_text(
            filesystem->Ok_0,
            identity->Ok_0.dev,
            mount->Ok_0,
        ),
{
    let identity: Identity = identity?;
    if !identity.directory() || identity.uid != uid {
        return Err(
            Error::new("STORAGE_UNSUPPORTED", "volume probe directory is not an owned directory"),
        );
    }
    let filesystem = filesystem?;
    let kind = filesystem_kind(&filesystem)?;
    let mount: u64 = mount?;
    let mut text = join2(kind.as_str(), ":dev=");
    text.append(to_decimal(identity.dev).as_str());
    text.append(":mnt=");
    text.append(to_decimal(mount).as_str());
    Ok(text)
}

/// The mount that a directory is on, as the system gave it: whether it gave one, and which.
pub fn mount_id(seen: Result<(bool, u64), String>) -> (mount: Result<u64, Error>)
    ensures
        failure(mount) == match seen {
            Err(words) => Some(
                ("STORAGE_UNSUPPORTED"@, "cannot obtain Linux mount id"@ + ": "@ + words@),
            ),
            Ok((given, _)) => if given {
                None
            } else {
                Some(
                    (
                        "STORAGE_UNSUPPORTED"@,
                        "Linux did not return a mount id for native COW"@,
                    ),
                )
            },
        },
        mount matches Ok(mount) ==> mount == seen->Ok_0.1,
{
    match seen {
        Err(words) => Err(storage_io("cannot obtain Linux mount id", words.as_str())),
        Ok((given, mount)) => if given {
            Ok(mount)
        } else {
            Err(
                Error::new(
                    "STORAGE_UNSUPPORTED",
                    "Linux did not return a mount id for native COW",
                ),
            )
        },
    }
}

/// The path under which the system reaches an entry of an open directory.
pub fn descriptor_link(parent: u64, name: &[u8]) -> (path: Vec<u8>)
    ensures
        path@ == utf8("/proc/self/fd/"@ + decimal_text(parent as nat) + "/"@) + name@,
{
    let mut path = bytes_of(join3("/proc/self/fd/", to_decimal(parent).as_str(), "/").as_str());
    append(&mut path, name);
    path
}

/// How a filesystem tells names apart.
#[derive(Clone, Copy, Debug, PartialEq, Eq, Structural)]
pub struct PathSemantics {
    pub case_insensitive: bool,
    pub normalization_insensitive: bool,
}

pub open spec fn bit(value: bool) -> Seq<char> {
    if value {
        "1"@
    } else {
        "0"@
    }
}

fn bit_text(value: bool) -> (text: &'static str)
    ensures
        text@ == bit(value),
{
    if value {
        "1"
    } else {
        "0"
    }
}

impl PathSemantics {
    /// The path semantics of a system, written out.
    pub fn fingerprint(self, system: &str) -> (text: String)
        ensures
            text@ == system@ + ":case="@ + bit(self.case_insensitive) + ":normalization="@ + bit(
                self.normalization_insensitive,
            ),
    {
        let mut text = join3(system, ":case=", bit_text(self.case_insensitive));
        text.append(":normalization=");
        text.append(bit_text(self.normalization_insensitive));
        text
    }
}

/// The directory in which path semantics are probed belongs to the state.
pub fn path_semantics_parent(parent: Result<Identity, Error>, uid: u32) -> (allowed: Result<(), Error>)
    ensures
        failure(allowed) == or_fail(
            failure(parent),
            is_clone_destination(parent->Ok_0, uid),
            "STORAGE_UNSUPPORTED"@,
            "path-semantics probe parent is not an owned state directory"@,
        ),
{
    let parent: Identity = parent?;
    if !clone_destination_directory(parent, uid) {
        return Err(
            Error::new(
                "STORAGE_UNSUPPORTED",
                "path-semantics probe parent is not an owned state directory",
            ),
        );
    }
    Ok(())
}

/// The names that differ in case only, or in normalization only.
pub fn path_probe_name(serial: u64, tail: &str) -> (name: String)
    ensures
        name@ == ".git-vws-path-"@ + decimal_text(serial as nat) + "-"@ + tail@,
{
    let mut name = join3(".git-vws-path-", to_decimal(serial).as_str(), "-");
    name.append(tail);
    name
}

/// The names of the two files of a copy-on-write probe.
pub fn cow_probe_name(process: u64, serial: u64, tail: &str) -> (name: String)
    ensures
        name@ == ".git-vws-cow-"@ + decimal_text(process as nat) + "-"@ + decimal_text(
            serial as nat,
        ) + "."@ + tail@,
{
    let mut name = join3(".git-vws-cow-", to_decimal(process).as_str(), "-");
    name.append(to_decimal(serial).as_str());
    name.append(".");
    name.append(tail);
    name
}

/// Every content digest starts with this frame.
pub open spec fn content_start() -> Seq<u8> {
    frame(utf8("git-vws/template-content/v1"@))
}

pub fn content_hasher() -> (message: Vec<u8>)
    ensures
        message@ == content_start(),
{
    let mut message: Vec<u8> = Vec::new();
    push_frame(&mut message, "git-vws/template-content/v1".as_bytes());
    proof {
        assert(message@ =~= content_start());
    }
    message
}

/// What a regular file adds to the content before its bytes.
pub open spec fn regular_header(path: Seq<u8>, mode: u32, size: u64) -> Seq<u8> {
    frame(utf8("file"@)) + frame(path) + frame(utf8(radix_text(mode as nat, 8))) + frame(
        big_endian(size as nat, 8),
    )
}

pub fn hash_regular(path: &[u8], mode: u32, size: u64) -> (message: Vec<u8>)
    ensures
        message@ == regular_header(path@, mode, size),
{
    let mut message: Vec<u8> = Vec::new();
    push_frame(&mut message, "file".as_bytes());
    push_frame(&mut message, path);
    push_frame(&mut message, to_octal(mode as u64).as_str().as_bytes());
    push_frame(&mut message, to_big_endian(size, 8).as_slice());
    proof {
        assert(message@ =~= regular_header(path@, mode, size));
    }
    message
}

/// What a symbolic link adds to the content.
pub open spec fn symlink_message(target: Seq<u8>, path: Seq<u8>) -> Seq<u8> {
    frame(utf8("symlink"@)) + frame(path) + frame(utf8("120000"@)) + frame(
        big_endian(target.len(), 8),
    ) + target
}

pub fn hash_symlink(target: &[u8], path: &[u8]) -> (message: Vec<u8>)
    ensures
        message@ == symlink_message(target@, path@),
{
    let mut message: Vec<u8> = Vec::new();
    push_frame(&mut message, "symlink".as_bytes());
    push_frame(&mut message, path);
    push_frame(&mut message, "120000".as_bytes());
    push_frame(&mut message, to_big_endian(target.len() as u64, 8).as_slice());
    append(&mut message, target);
    proof {
        assert(message@ =~= symlink_message(target@, path@));
    }
    message
}

/// What a directory adds to the content, behind what is in it.
pub open spec fn directory_message(path: Seq<u8>) -> Seq<u8> {
    frame(utf8("directory"@)) + frame(path) + frame(utf8("555"@))
}

pub fn hash_directory(path: &[u8]) -> (message: Vec<u8>)
    ensures
        message@ == directory_message(path@),
{
    let mut message: Vec<u8> = Vec::new();
    push_frame(&mut message, "directory".as_bytes());
    push_frame(&mut message, path);
    push_frame(&mut message, "555".as_bytes());
    proof {
        assert(message@ =~= directory_message(path@));
    }
    message
}

/// A piece of a file as the filesystem maps it.
#[derive(Clone, Copy, Debug, PartialEq, Eq, Structural)]
pub struct Extent {
    pub logical: u64,
    pub physical: u64,
    pub length: u64,
    pub flags: u32,
}

/// How many extents are asked for at once.
pub const MAX_EXTENTS: usize = 32;

/// The flag of the last extent of a file.
pub const EXTENT_LAST: u32 = 0x0000_0001;

/// The flag of an extent whose data another file shares.
pub const EXTENT_SHARED: u32 = 0x0000_2000;

/// The flags of extents whose place says nothing of their data: unknown, delayed, encoded, encrypted,
/// unaligned, inline, packed in a tail, or unwritten.
pub const EXTENT_FORBIDDEN: u32 = 0x0000_0f8e;

pub open spec fn total_length(extents: Seq<Extent>) -> nat
    decreases extents.len(),
{
    if extents.len() == 0 {
        0
    } else {
        total_length(extents.drop_last()) + extents.last().length as nat
    }
}

/// An extent of a shared row: it starts where the ones before it end, its data is plainly placed and
/// shared, and only the last one is the last.
pub open spec fn shared_extent(extents: Seq<Extent>, i: int) -> bool {
    let extent = extents[i];
    &&& extent.logical == total_length(extents.subrange(0, i))
    &&& extent.length > 0
    &&& extent.flags & EXTENT_FORBIDDEN == 0
    &&& extent.flags & EXTENT_SHARED != 0
    &&& (extent.flags & EXTENT_LAST != 0) == (i + 1 == extents.len())
}

/// The two extents are the same stretch of the volume.
pub open spec fn same_place(left: Extent, right: Extent) -> bool {
    left.logical == right.logical && left.physical == right.physical && left.length == right.length
}

pub open spec fn shared_pair(left: Seq<Extent>, right: Seq<Extent>, i: int) -> bool {
    shared_extent(left, i) && shared_extent(right, i) && same_place(left[i], right[i])
}

/// Two rows of extents that show that two files of this size share all of their data.
pub open spec fn extents_prove_shared(size: u64, left: Seq<Extent>, right: Seq<Extent>) -> bool {
    &&& left.len() == right.len()
    &&& left.len() <= MAX_EXTENTS
    &&& forall|i: int| 0 <= i < left.len() ==> #[trigger] shared_pair(left, right, i)
    &&& total_length(left) == size
}

proof fn lemma_total_prefix(extents: Seq<Extent>, i: int)
    requires
        0 <= i < extents.len(),
    ensures
        total_length(extents.subrange(0, i + 1)) == total_length(extents.subrange(0, i))
            + extents[i].length,
        total_length(extents.subrange(0, i + 1)) <= total_length(extents),
    decreases extents.len(),
{
    assert(extents.subrange(0, i + 1).drop_last() =~= extents.subrange(0, i));
    if i + 1 == extents.len() {
        assert(extents.subrange(0, i + 1) =~= extents);
    } else {
        let fewer = extents.drop_last();
        lemma_total_prefix(fewer, i);
        assert(fewer.subrange(0, i + 1) =~= extents.subrange(0, i + 1));
        assert(fewer.subrange(0, i) =~= extents.subrange(0, i));
    }
}

proof fn lemma_same_places_same_total(left: Seq<Extent>, right: Seq<Extent>)
    requires
        left.len() == right.len(),
        forall|i: int| 0 <= i < left.len() ==> left[i].length == right[i].length,
    ensures
        total_length(left) == total_length(right),
    decreases left.len(),
{
    if left.len() > 0 {
        lemma_same_places_same_total(left.drop_last(), right.drop_last());
    }
}

/// Judges the extents of a file and its clone.
pub fn fiemap_proves_shared(
    source_size: u64,
    destination_size: u64,
    source: &Vec<Extent>,
    destination: &Vec<Extent>,
) -> (shared: bool)
    ensures
        shared == (source_size == destination_size && extents_prove_shared(
            source_size,
            source@,
            destination@,
        )),
{
    if source_size != destination_size {
        return false;
    }
    let count: usize = source.len();
    if count != destination.len() || count > MAX_EXTENTS {
        return false;
    }
    let mut covered: u64 = 0;
    let mut index: usize = 0;
    proof {
        assert(source@.subrange(0, 0) =~= Seq::<Extent>::empty());
    }
    while index < count
        invariant
            count == source@.len(),
            count == destination@.len(),
            index <= count,
            covered == total_length(source@.subrange(0, index as int)),
            forall|i: int| 0 <= i < index ==> #[trigger] shared_pair(source@, destination@, i),
        decreases count - index,
    {
        let last: bool = index + 1 == count;
        let left: Extent = source[index];
        let right: Extent = destination[index];
        proof {
            let i = index as int;
            assert forall|k: int| 0 <= k < i implies source@.subrange(0, i)[k].length
                == destination@.subrange(0, i)[k].length by {
                assert(shared_pair(source@, destination@, k));
            }
            lemma_same_places_same_total(source@.subrange(0, i), destination@.subrange(0, i));
            lemma_total_prefix(source@, i);
        }
        if left.logical != covered || left.logical != right.logical || left.physical
            != right.physical || left.length == 0 || left.length != right.length || left.flags
            & EXTENT_FORBIDDEN != 0 || right.flags & EXTENT_FORBIDDEN != 0 || left.flags
            & EXTENT_SHARED == 0 || right.flags & EXTENT_SHARED == 0 || (left.flags & EXTENT_LAST
            != 0) != last || (right.flags & EXTENT_LAST != 0) != last {
            proof {
                assert(!shared_pair(source@, destination@, index as int));
            }
            return false;
        }
        match covered.checked_add(left.length) {
            Some(next) => {
                covered = next;
            },
            None => {
                return false;
            },
        }
        proof {
            assert(shared_pair(source@, destination@, index as int));
        }
        index += 1;
    }
    proof {
        assert(source@.subrange(0, index as int) =~= source@);
    }
    covered == source_size
}

/// Extents that prove a clone shared place every byte of both files: each offset lies in one extent,
/// and both files keep it at the same place of the volume, flagged as shared.
pub proof fn law_shared_extents_cover_every_byte(
    size: u64,
    left: Seq<Extent>,
    right: Seq<Extent>,
    offset: int,
)
    requires
        extents_prove_shared(size, left, right),
        0 <= offset < size,
    ensures
        exists|i: int|
            0 <= i < left.len() && (#[trigger] left[i]).logical <= offset < left[i].logical
                + left[i].length && same_place(left[i], right[i]) && left[i].flags & EXTENT_SHARED
                != 0 && right[i].flags & EXTENT_SHARED != 0,
{
    assert(left.subrange(0, left.len() as int) =~= left);
    lemma_offset_is_covered(left, offset, left.len() as int);
    let i = choose|i: int|
        0 <= i < left.len() && total_length(left.subrange(0, i)) <= offset < total_length(
            left.subrange(0, i),
        ) + (#[trigger] left[i]).length;
    assert(shared_pair(left, right, i));
    assert(left[i].logical <= offset < left[i].logical + left[i].length);
}

proof fn lemma_offset_is_covered(extents: Seq<Extent>, offset: int, upto: int)
    requires
        0 <= upto <= extents.len(),
        0 <= offset < total_length(extents.subrange(0, upto)),
    ensures
        exists|i: int|
            0 <= i < upto && total_length(extents.subrange(0, i)) <= offset < total_length(
                extents.subrange(0, i),
            ) + (#[trigger] extents[i]).length,
    decreases upto,
{
    if upto == 0 {
        assert(extents.subrange(0, 0) =~= Seq::<Extent>::empty());
        assert(false);
    } else {
        lemma_total_prefix(extents, upto - 1);
        if offset < total_length(extents.subrange(0, upto - 1)) {
            lemma_offset_is_covered(extents, offset, upto - 1);
            let i = choose|i: int|
                0 <= i < upto - 1 && total_length(extents.subrange(0, i)) <= offset < total_length(
                    extents.subrange(0, i),
                ) + (#[trigger] extents[i]).length;
            assert(0 <= i < upto);
        } else {
            let i = upto - 1;
            assert(total_length(extents.subrange(0, i)) <= offset < total_length(
                extents.subrange(0, i),
            ) + extents[i].length);
        }
    }
}

} // verus!
