use git_vws::authority::{Authority, Error, Identity, Record, DIRECTORY_TYPE, REGULAR_TYPE};
use git_vws::git::{ExitReport, Output};
use git_vws::inspection::{
    git_probe, git_probe_args, inspect, inspect_authority, Inspection, Presence, StorageProbe,
};
use git_vws::m4_checkpoint::{
    announced, arm, armed, hello, parse_fd, receive, released, send, token, validate_socket,
    SocketName,
};
use git_vws::opening::{MakeEvent, OpenAction, OpenEvent, RootOpening};
use git_vws::record_txn::{
    abort_unidentified, cstring, expect_bytes, protect_temporary, read_file_binding,
    read_file_if_present, read_record_at, remove_record, removed_record,
    rename_result_is_unknown, temporary_name, temporary_owner, unlink_capability, valid_private_record, valid_record, written_temporary, FileReads,
    RecordBinding, RecordTxn, RenameEvent, TxnAction, TxnEvent,
};
use git_vws::registration::{RegisterAction, RegisterEvent, Registration};
use git_vws::state_root::{
    authority_record_present, cleanup_new_root, container_path, ensure_container,
    final_collision_error, open_container, open_home, revalidate_root, root_entry_kind,
    scan_records, state_root_path, RootEntry, RootEntryKind,
};

const UID: u32 = 1000;

fn file(ino: u64) -> Identity {
    Identity {
        dev: 1,
        ino,
        uid: UID,
        mode: 0o600,
        kind: REGULAR_TYPE,
        nlink: 1,
    }
}

fn directory(ino: u64) -> Identity {
    Identity {
        dev: 1,
        ino,
        uid: UID,
        mode: 0o700,
        kind: DIRECTORY_TYPE,
        nlink: 2,
    }
}

fn authority() -> Authority {
    Authority {
        canonical: b"/repo.git".to_vec(),
        identity: Identity {
            mode: 0o755,
            ..directory(40)
        },
        object_format: "sha1".to_owned(),
        ref_format: "files".to_owned(),
    }
}

fn binding(bytes: &[u8], identity: Identity) -> RecordBinding {
    RecordBinding {
        bytes: bytes.to_vec(),
        identity,
    }
}

/// A directory with two names in it, as a record transaction sees it.
struct Names {
    last: Option<RecordBinding>,
    temporary: Option<RecordBinding>,
    moves: usize,
}

impl Names {
    fn read(&self, entry: &Option<RecordBinding>) -> Result<RecordBinding, Error> {
        match entry {
            Some(binding) => Ok(binding.copy()),
            None => Err(Error::new("STATE_UNAVAILABLE", "no such record")),
        }
    }

    /// Runs a transaction; behind the first exchange another writer truncates the final record and
    /// writes `drift` into it.
    fn run(&mut self, txn: &mut RecordTxn, drift: Option<&[u8]>) -> Result<RecordBinding, Error> {
        let mut drift = drift;
        for _ in 0..40 {
            let event = match txn.action() {
                TxnAction::StatTemporary => {
                    TxnEvent::Stat(self.read(&self.temporary).map(|found| found.identity))
                }
                TxnAction::RenameNew => {
                    self.moves += 1;
                    if self.last.is_some() {
                        TxnEvent::Renamed(RenameEvent::Exists("exists".to_owned()))
                    } else {
                        self.last = self.temporary.take();
                        TxnEvent::Renamed(RenameEvent::Done)
                    }
                }
                TxnAction::Exchange => {
                    self.moves += 1;
                    std::mem::swap(&mut self.last, &mut self.temporary);
                    if let (Some(written), Some(last)) = (drift.take(), self.last.as_mut()) {
                        last.bytes = written.to_vec();
                    }
                    TxnEvent::Renamed(RenameEvent::Done)
                }
                TxnAction::ReadFinal(_) => TxnEvent::Read(self.read(&self.last)),
                TxnAction::ReadTemporary(_) => TxnEvent::Read(self.read(&self.temporary)),
                TxnAction::UnlinkTemporary(expected) => {
                    let found = self.read(&self.temporary).map(|found| found.identity);
                    let allowed = unlink_capability(found, expected, UID);
                    if allowed.is_ok() {
                        self.temporary = None;
                    }
                    TxnEvent::Unlinked(allowed)
                }
                TxnAction::SyncParent => TxnEvent::Synced(Ok(())),
                TxnAction::Nothing => return txn.commit().expect("the transaction has ended"),
            };
            txn.answer(event);
        }
        panic!("the transaction does not end")
    }
}

#[test]
fn exchange_drift_does_not_move_an_external_binding() {
    let mut names = Names {
        last: None,
        temporary: Some(binding(b"old\n", file(1))),
        moves: 0,
    };
    let mut create = RecordTxn::begin(file(1), b"old\n", None);
    let old = names.run(&mut create, None).expect("commit old record");
    assert_eq!(old.bytes, b"old\n".to_vec());

    names.temporary = Some(binding(b"new\n", file(2)));
    names.moves = 0;
    let mut transaction = RecordTxn::begin(file(2), b"new\n", Some(old));
    let error = names
        .run(&mut transaction, Some(b"external\n"))
        .expect_err("exchange drift must fail");
    assert_eq!(error.code, "STATE_COMMITTED_RECOVERY_REQUIRED");
    let external = names.last.expect("external record");
    assert_eq!(external.bytes, b"external\n".to_vec());
    assert_eq!(external.identity, file(2));
    assert_eq!(names.moves, 1);
}

#[test]
fn exchanges_replace_exactly_the_expected_record() {
    let mut names = Names {
        last: Some(binding(b"old\n", file(1))),
        temporary: Some(binding(b"new\n", file(2))),
        moves: 0,
    };
    let mut txn = RecordTxn::begin(file(2), b"new\n", Some(binding(b"old\n", file(1))));
    let new = names.run(&mut txn, None).expect("exchange");
    assert_eq!((new.bytes, new.identity), (b"new\n".to_vec(), file(2)));
    assert!(names.temporary.is_none());

    names.temporary = Some(binding(b"third\n", file(3)));
    let mut stale = RecordTxn::begin(file(3), b"third\n", Some(binding(b"old\n", file(1))));
    let error = names.run(&mut stale, None).expect_err("stale exchange");
    assert_eq!(error.code, "STATE_CORRUPT");
    assert_eq!(names.last.expect("record").bytes, b"new\n".to_vec());
    assert!(names.temporary.is_none());
}

#[test]
fn new_records_take_only_a_free_name() {
    let mut names = Names {
        last: Some(binding(b"other\n", file(1))),
        temporary: Some(binding(b"new\n", file(2))),
        moves: 0,
    };
    let mut txn = RecordTxn::begin(file(2), b"new\n", None);
    let error = names.run(&mut txn, None).expect_err("the name is taken");
    assert_eq!(error.code, "STATE_RECORD_EXISTS");
    assert_eq!(names.last.expect("record").bytes, b"other\n".to_vec());
    assert!(names.temporary.is_none());
}

#[test]
fn unknown_renames_are_left_to_recovery() {
    assert!(rename_result_is_unknown(&RenameEvent::Interrupted(
        "interrupted".to_owned()
    )));
    assert!(!rename_result_is_unknown(&RenameEvent::Done));
    let mut txn = RecordTxn::begin(file(2), b"new\n", None);
    txn.answer(TxnEvent::Stat(Ok(file(2))));
    assert_eq!(txn.action(), TxnAction::RenameNew);
    txn.answer(TxnEvent::Renamed(RenameEvent::Interrupted("gone".to_owned())));
    assert_eq!(txn.action(), TxnAction::Nothing);
    let error = txn.commit().expect("ended").expect_err("unknown result");
    assert_eq!(error.code, "STATE_COMMITTED_RECOVERY_REQUIRED");
    assert_eq!(
        error.detail,
        "state record rename has an unknown result: gone"
    );
    txn.answer(TxnEvent::Synced(Ok(())));
    assert_eq!(txn.action(), TxnAction::Nothing);
}

#[test]
fn aborted_transactions_remove_what_they_made() {
    let mut names = Names {
        last: None,
        temporary: Some(binding(b"new\n", file(2))),
        moves: 0,
    };
    let mut txn = RecordTxn::begin(file(2), b"new\n", None);
    txn.abort(Error::new("AUTHORITY_IDENTITY_DRIFT", "changed"));
    let error = names.run(&mut txn, None).expect_err("aborted");
    assert_eq!(error.code, "AUTHORITY_IDENTITY_DRIFT");
    assert!(names.temporary.is_none());
    assert_eq!(names.moves, 0);
}

#[test]
fn private_records_are_owned_and_reached_once() {
    assert!(valid_record(file(1), UID));
    assert!(!valid_record(Identity { mode: 0o644, ..file(1) }, UID));
    assert!(!valid_record(Identity { nlink: 2, ..file(1) }, UID));
    assert!(!valid_record(file(1), UID + 1));
    assert!(valid_private_record(file(1), UID));
    assert!(unlink_capability(Ok(file(1)), file(1), UID).is_ok());
    assert_eq!(
        unlink_capability(Ok(file(2)), file(1), UID)
            .expect_err("another file")
            .code,
        "STATE_CLEANUP_FAILED"
    );
}

#[test]
fn record_names_are_single_components() {
    assert!(cstring(b"a.record", "state record").is_ok());
    for name in [b"".as_slice(), b".", b"..", b"a/b", b"a\0b"] {
        assert!(cstring(name, "state record").is_err());
    }
    assert_eq!(
        temporary_name("session.record", 12, 3),
        b".session.record-12-3.tmp".to_vec()
    );
}

fn reads(bytes: &[u8]) -> FileReads {
    FileReads {
        before: Ok(file(5)),
        opened: Ok(Ok(file(5))),
        bytes: Ok(bytes.to_vec()),
        descriptor: Ok(file(5)),
        entry: Ok(file(5)),
    }
}

#[test]
fn files_are_read_only_while_they_stand_still() {
    let read = read_file_binding(b"a.record", reads(b"x"), 8, UID).expect("binding");
    assert_eq!((read.bytes, read.identity), (b"x".to_vec(), file(5)));
    let mut moved = reads(b"x");
    moved.entry = Ok(file(6));
    assert!(read_file_binding(b"a.record", moved, 8, UID).is_err());
    assert!(read_file_binding(b"a.record", reads(b"123456789"), 8, UID).is_err());
    assert_eq!(
        read_file_if_present(b"a.record", Ok(false), reads(b"x"), 8, UID).expect("absent"),
        None
    );
    assert_eq!(
        read_file_if_present(b"a.record", Ok(true), reads(b"x"), 8, UID).expect("present"),
        Some(b"x".to_vec())
    );
    let record = Record::from_authority(&authority());
    let found =
        read_record_at(b"authority.record", reads(&record.encode()), UID).expect("record");
    assert!(found.exactly_matches(&authority()));
    let mut loose = record.encode();
    loose.push(b'\n');
    assert_eq!(
        read_record_at(b"authority.record", reads(&loose), UID)
            .expect_err("two newlines")
            .code,
        "STATE_CORRUPT"
    );
}

#[test]
fn temporary_records_are_watched_while_they_are_written() {
    assert_eq!(
        protect_temporary(Ok(()), Ok(file(3)), UID).expect("protected"),
        file(3)
    );
    assert_eq!(
        protect_temporary(Err("denied".to_owned()), Ok(file(3)), UID)
            .expect_err("not protected")
            .detail,
        "cannot protect temporary state record: denied"
    );
    assert!(written_temporary(Ok(()), Ok(file(3)), file(3)).is_ok());
    assert!(written_temporary(Ok(()), Ok(file(4)), file(3)).is_err());
    assert!(expect_bytes(Ok(binding(b"a", file(1))), b"a").is_ok());
    assert_eq!(
        expect_bytes(Ok(binding(b"b", file(1))), b"a")
            .expect_err("other bytes")
            .code,
        "STATE_CORRUPT"
    );
    assert_eq!(abort_unidentified(Some(Ok(file(1))), UID).expect("own"), file(1));
    assert_eq!(
        abort_unidentified(None, UID).expect_err("vanished").code,
        "STATE_CLEANUP_FAILED"
    );
}

#[test]
fn homes_are_safe_absolute_paths() {
    assert_eq!(
        state_root_path(Some(b"/home/me")).expect("home"),
        b"/home/me/.git-vws".to_vec()
    );
    for home in [b"home".as_slice(), b"/home/../me", b"/home//me", b"/"] {
        assert_eq!(
            state_root_path(Some(home)).expect_err("unsafe home").detail,
            "HOME is not a safe absolute path"
        );
    }
    assert_eq!(
        state_root_path(None).expect_err("no home").detail,
        "HOME is not set"
    );
    assert_eq!(
        open_home(Some(b"/home/me")).expect("components"),
        vec![b"home".to_vec(), b"me".to_vec()]
    );
    assert_eq!(
        container_path(b"/s", "sessions").expect("container"),
        b"/s/sessions".to_vec()
    );
    assert_eq!(
        container_path(b"/s", "others").expect_err("unknown").code,
        "STATE_CORRUPT"
    );
}

#[test]
fn containers_are_owner_only_on_the_state_volume() {
    let root = directory(1);
    assert!(ensure_container(Ok(true), Ok(directory(2)), root, UID).is_ok());
    assert!(open_container(Ok(directory(2)), root, UID).is_ok());
    for wrong in [
        Identity { dev: 2, ..directory(2) },
        Identity { mode: 0o755, ..directory(2) },
        Identity { uid: 0, ..directory(2) },
        file(2),
    ] {
        assert_eq!(
            open_container(Ok(wrong), root, UID).expect_err("container").code,
            "STATE_CORRUPT"
        );
    }
    assert!(revalidate_root(Ok(root), Ok(root), root, UID).is_ok());
    assert_eq!(
        revalidate_root(Ok(directory(3)), Ok(root), root, UID)
            .expect_err("moved root")
            .code,
        "STATE_UNAVAILABLE"
    );
}

#[test]
fn only_empty_new_roots_are_cleaned_up() {
    let root = directory(1);
    assert!(cleanup_new_root(root, Ok(root), Ok(root), Ok(vec![]), UID).is_ok());
    assert_eq!(
        cleanup_new_root(root, Ok(root), Ok(root), Ok(vec![b"a".to_vec()]), UID)
            .expect_err("not empty")
            .detail,
        "new state root contains entries not owned by this transaction"
    );
    assert_eq!(
        cleanup_new_root(root, Ok(root), Ok(directory(2)), Ok(vec![]), UID)
            .expect_err("replaced")
            .detail,
        "new state root identity changed before cleanup"
    );
}

fn entry(name: &[u8], record: Option<&Authority>) -> RootEntry {
    RootEntry {
        name: name.to_vec(),
        identity: Ok(directory(2)),
        record: match record {
            Some(authority) => Ok(Record::from_authority(authority)),
            None => Err(Error::new("STATE_CORRUPT", "not a record")),
        },
    }
}

#[test]
fn state_roots_hold_containers_and_records() {
    assert_eq!(root_entry_kind(b"templates"), RootEntryKind::Container);
    assert_eq!(root_entry_kind(b"a.record"), RootEntryKind::Record);
    assert_eq!(root_entry_kind(b".a.record"), RootEntryKind::Unexpected);
    assert_eq!(root_entry_kind(b"other"), RootEntryKind::Unexpected);

    let ours = authority();
    let name = b"authority-c30ae996a929a2cc.record";
    let root = directory(1);
    let error = scan_records(vec![entry(name, Some(&ours))], false, &ours, root, UID)
        .expect_err("registered twice");
    assert_eq!(error.code, "AUTHORITY_DUPLICATE");
    let mut moved = authority();
    moved.identity.ino = 77;
    let error = scan_records(vec![entry(name, Some(&moved))], false, &ours, root, UID)
        .expect_err("other data");
    assert_eq!(error.code, "AUTHORITY_IDENTITY_DRIFT");
    let error = scan_records(vec![entry(b"junk", None)], false, &ours, root, UID)
        .expect_err("unexpected entry");
    assert_eq!(error.code, "STATE_CORRUPT");
    assert_eq!(
        final_collision_error(Ok(Record::from_authority(&ours)), &ours).code,
        "AUTHORITY_DUPLICATE"
    );
    assert_eq!(
        final_collision_error(Ok(Record::from_authority(&moved)), &ours).code,
        "STATE_CORRUPT"
    );
    assert!(authority_record_present(Ok(Record::from_authority(&ours)), &ours).expect("present"));
}

#[test]
fn state_roots_are_opened_owner_only() {
    let root = directory(8);
    let mut opening = RootOpening::start();
    for (action, event) in [
        (OpenAction::StatHome, OpenEvent::Identity(Ok(Identity { mode: 0o755, ..directory(1) }))),
        (OpenAction::LockHome, OpenEvent::Locked(Ok(()))),
        (OpenAction::MakeRoot, OpenEvent::Made(MakeEvent::Created)),
        (OpenAction::OpenRoot, OpenEvent::Opened(Ok(()))),
        (OpenAction::StatRoot, OpenEvent::Identity(Ok(root))),
        (OpenAction::ProtectRoot, OpenEvent::Protected(Ok(()))),
        (OpenAction::StatRoot, OpenEvent::Identity(Ok(root))),
        (OpenAction::StatBindings, OpenEvent::Bindings(Ok(root), Ok(root))),
    ] {
        assert_eq!(opening.action(), action);
        opening = opening.answer(event, UID);
    }
    match opening {
        RootOpening::Opened { created, identity } => assert!(created && identity == root),
        other => panic!("{other:?}"),
    }
}

#[test]
fn found_state_roots_are_never_removed() {
    let mut opening = RootOpening::start();
    for event in [
        OpenEvent::Identity(Ok(directory(1))),
        OpenEvent::Locked(Ok(())),
        OpenEvent::Made(MakeEvent::Exists),
        OpenEvent::Opened(Ok(())),
        OpenEvent::Identity(Ok(Identity { mode: 0o755, ..directory(8) })),
    ] {
        opening = opening.answer(event, UID);
    }
    assert_eq!(opening.action(), OpenAction::Nothing);
    match opening {
        RootOpening::Failed(error) => assert_eq!(error.detail, "state root is not owner-only"),
        other => panic!("{other:?}"),
    }
}

#[test]
fn unsafe_new_state_roots_are_removed_while_empty() {
    let root = directory(8);
    let mut opening = RootOpening::start();
    for event in [
        OpenEvent::Identity(Ok(directory(1))),
        OpenEvent::Locked(Ok(())),
        OpenEvent::Made(MakeEvent::Created),
        OpenEvent::Opened(Ok(())),
        OpenEvent::Identity(Ok(root)),
        OpenEvent::Protected(Err("denied".to_owned())),
    ] {
        opening = opening.answer(event, UID);
    }
    assert_eq!(opening.action(), OpenAction::StatContents);
    opening = opening.answer(OpenEvent::Contents(Ok(root), Ok(root), Ok(vec![])), UID);
    assert_eq!(opening.action(), OpenAction::RemoveRoot);
    opening = opening.answer(OpenEvent::Removed(Ok(())), UID);
    match opening {
        RootOpening::Failed(error) => {
            assert_eq!(error.detail, "cannot protect new state root: denied")
        }
        other => panic!("{other:?}"),
    }
}

#[test]
fn registrations_read_their_record_back() {
    let mut registration = Registration::start(authority(), true);
    let record = || Record::from_authority(&authority());
    for (action, event) in [
        (RegisterAction::LockRoot, RegisterEvent::Locked(Ok(()))),
        (RegisterAction::Inspect, RegisterEvent::Inspected(Ok(authority()))),
        (RegisterAction::ScanRecords, RegisterEvent::Scanned(Ok(()))),
        (RegisterAction::BeginRecord, RegisterEvent::Begun(Ok(()))),
        (RegisterAction::Inspect, RegisterEvent::Inspected(Ok(authority()))),
        (RegisterAction::CommitRecord, RegisterEvent::Committed(Ok(()))),
        (RegisterAction::ReadRecord, RegisterEvent::Read(Ok(record()))),
        (RegisterAction::SyncHome, RegisterEvent::HomeSynced(Ok(()))),
        (RegisterAction::RevalidateRoot, RegisterEvent::Revalidated(Ok(()))),
        (RegisterAction::ReadRecord, RegisterEvent::Read(Ok(record()))),
    ] {
        assert_eq!(registration.action(), action);
        registration.answer(event);
    }
    assert!(registration.committed);
    let shown = registration.init("/repo.git").expect("ended").expect("registered");
    assert!(shown.contains("/repo.git"));
}

#[test]
fn registering_again_changes_nothing() {
    let ours = authority();
    let root = directory(1);
    let mut registration = Registration::start(authority(), false);
    for (action, event) in [
        (RegisterAction::LockRoot, RegisterEvent::Locked(Ok(()))),
        (RegisterAction::Inspect, RegisterEvent::Inspected(Ok(authority()))),
        (
            RegisterAction::ScanRecords,
            RegisterEvent::Scanned(scan_records(
                vec![
                    entry(b"authority-c30ae996a929a2cc.record", Some(&ours)),
                    entry(b"junk", None),
                ],
                false,
                &ours,
                root,
                UID,
            )),
        ),
    ] {
        assert_eq!(registration.action(), action);
        registration.answer(event);
    }
    assert_eq!(registration.action(), RegisterAction::Nothing);
    assert!(!registration.committed);
    let error = registration.init("/repo.git").expect("ended").expect_err("twice");
    assert_eq!(error.code, "AUTHORITY_DUPLICATE");
    assert_eq!(error.detail, "authority already initialized");
}

#[test]
fn changed_authorities_are_not_registered() {
    let mut registration = Registration::start(authority(), true);
    let mut moved = authority();
    moved.identity.ino = 99;
    registration.answer(RegisterEvent::Locked(Ok(())));
    registration.answer(RegisterEvent::Inspected(Ok(moved)));
    assert_eq!(registration.action(), RegisterAction::CleanRoot);
    registration.answer(RegisterEvent::Cleaned(Ok(())));
    let error = registration
        .init("/repo.git")
        .expect("ended")
        .expect_err("drifted");
    assert_eq!(error.code, "AUTHORITY_IDENTITY_DRIFT");
}

#[test]
fn committed_registrations_keep_their_root() {
    let mut registration = Registration::start(authority(), true);
    for event in [
        RegisterEvent::Locked(Ok(())),
        RegisterEvent::Inspected(Ok(authority())),
        RegisterEvent::Scanned(Ok(())),
        RegisterEvent::Begun(Ok(())),
        RegisterEvent::Inspected(Ok(authority())),
        RegisterEvent::Committed(Ok(())),
        RegisterEvent::Read(Ok(Record::from_authority(&authority()))),
        RegisterEvent::HomeSynced(Err("no space".to_owned())),
    ] {
        registration.answer(event);
    }
    assert!(registration.preserve_root && registration.committed);
    assert_eq!(registration.action(), RegisterAction::Nothing);
    assert_eq!(
        registration
            .init("/repo.git")
            .expect("ended")
            .expect_err("unsynced")
            .code,
        "STATE_COMMITTED_UNSYNCED"
    );
}

fn probe_output(text: &str) -> Output {
    Output {
        stdout: text.as_bytes().to_vec(),
        stderr: Vec::new(),
        status: ExitReport {
            code: Some(0),
            signal: None,
        },
    }
}

fn inspection(storage: StorageProbe) -> Inspection {
    let node = authority().identity;
    Inspection {
        canonical: Ok(b"/repo.git".to_vec()),
        identity: Ok(node),
        probe: Ok(probe_output("true\n/repo.git\n/repo.git\nsha1\nfiles\n")),
        git_dir: Ok(b"/repo.git".to_vec()),
        common_dir: Ok(b"/repo.git".to_vec()),
        git_identity: Ok(node),
        common_identity: Ok(node),
        storage,
    }
}

fn storage() -> StorageProbe {
    StorageProbe {
        objects: Presence::Directory,
        refs: Presence::Directory,
        worktrees: Presence::Absent("none".to_owned()),
        alternates: Presence::Absent("none".to_owned()),
    }
}

#[test]
fn inspections_find_an_authority() {
    assert_eq!(git_probe_args(b"/r")[1], b"/r".to_vec());
    let probe = git_probe(Ok(probe_output("true\n/r\n/r\nsha1\nfiles\n"))).expect("probe");
    assert_eq!(probe.object_format, "sha1");
    assert_eq!(
        git_probe(Ok(probe_output("true\n/r\n/r\nsha1\n")))
            .expect_err("four lines")
            .detail,
        "Git probe output was ambiguous"
    );
    let found = inspect_authority(inspection(storage())).expect("authority");
    assert!(found.matches(&authority()));
    let mut linked = storage();
    linked.worktrees = Presence::Directory;
    let error = inspect_authority(inspection(linked)).expect_err("linked worktrees");
    assert_eq!(error.code, "AUTHORITY_STORAGE_INVALID");
    assert!(inspect(Ok(authority()), Ok(authority())).is_ok());
    let mut moved = authority();
    moved.identity.ino = 3;
    assert_eq!(
        inspect(Ok(authority()), Ok(moved)).expect_err("drift").code,
        "AUTHORITY_IDENTITY_DRIFT"
    );
}

#[test]
fn checkpoint_frames_come_back() {
    let frame = send("GO a").expect("frame");
    let mut length = [0; 4];
    length.copy_from_slice(&frame[..4]);
    let count = announced(length).expect("length");
    assert_eq!(count, frame.len() - 4);
    assert_eq!(receive(&frame[4..]).expect("text"), "GO a");
    assert!(announced([0, 0, 0, 0]).is_err());
    assert!(announced([0xff, 0, 0, 0]).is_err());
    assert!(receive(&[0xff]).is_err());
}

#[test]
fn checkpoints_are_armed_by_their_environment() {
    let nonce = "0123456789abcdef0123456789abcdef";
    assert_eq!(parse_fd("7").expect("fd"), 7);
    assert!(parse_fd("x").is_err());
    assert!(token("ready-return"));
    assert!(!token("Ready"));
    assert!(arm(None, Some(nonce), Some("create/ready")).is_err());
    assert!(arm(Some("7"), Some("short"), Some("create/ready")).is_err());
    assert!(arm(Some("7"), Some(nonce), Some("list/ready")).is_err());
    let arming = arm(Some("7"), Some(nonce), Some("create/ready")).expect("armed");
    assert_eq!(
        hello(nonce, 12, 13),
        "M4CP/1 HELLO 0123456789abcdef0123456789abcdef 12 13\n"
    );
    assert!(armed(&arming, 12, 13, "M4CP/1 ARM\n").is_err());
    let mut control = armed(
        &arming,
        12,
        13,
        "M4CP/1 ARM 0123456789abcdef0123456789abcdef 12 13 create/ready\n",
    )
    .expect("control");
    let checkpoint = control
        .checkpoint("create", "-", "-", "ready")
        .expect("checkpoint");
    assert_eq!(control.sequence, 2);
    assert_eq!(checkpoint.cp.replace("CP ", "GO ").replace("M4GO", "M4CP"), checkpoint.go);
    assert!(released(&checkpoint, &checkpoint.go).is_ok());
    assert!(released(&checkpoint, &checkpoint.cp).is_err());
    assert!(control.checkpoint("create", "x", "-", "ready").is_err());
    let anonymous = |path: &[u8]| SocketName {
        known: true,
        length: 2 + path.len(),
        unix: true,
        path: path.to_vec(),
        offset: 2,
    };
    assert!(validate_socket(true, true, &anonymous(b""), &anonymous(b"")).is_ok());
    assert!(validate_socket(true, false, &anonymous(b""), &anonymous(b"")).is_err());
    assert!(validate_socket(false, true, &anonymous(b""), &anonymous(b"")).is_err());
    assert!(validate_socket(true, true, &anonymous(b"/x"), &anonymous(b"")).is_err());
}

#[test]
fn temporaries_name_their_record() {
    let name = temporary_name("session-a-7.record", 12, 3);
    assert_eq!(temporary_owner(&name), Some(b"session-a-7.record".to_vec()));
    assert_eq!(temporary_owner(b".x-1-2.tmp"), Some(b"x".to_vec()));
    assert_eq!(temporary_owner(b".-1-1-2.tmp"), Some(b"-1".to_vec()));
    for other in [
        &b"x-1-2.tmp"[..],
        b".x-1-2.record",
        b".x-1.tmp",
        b".x--2.tmp",
        b".x-1-.tmp",
        b".-11-2.tmp",
        b".x-a1-2.tmp",
        b".x-1_2.tmp",
        b".tmp",
        b"",
    ] {
        assert_eq!(temporary_owner(other), None);
    }
}

#[test]
fn records_are_removed_only_as_they_were_read() {
    let read = || Ok(binding(b"old\n", file(1)));
    assert_eq!(
        remove_record(read(), b"a.record", Ok(file(1)), b"old\n", UID).expect("the same file"),
        file(1)
    );
    let changed = remove_record(read(), b"a.record", Ok(file(1)), b"new\n", UID)
        .expect_err("other bytes");
    assert_eq!(changed.code, "STATE_CORRUPT");
    assert_eq!(changed.detail, "state record bytes changed before removal");
    let named = remove_record(read(), b"a/b", Ok(file(1)), b"old\n", UID).expect_err("a path");
    assert_eq!(named.detail, "invalid record basename");
    let moved = remove_record(read(), b"a.record", Ok(file(2)), b"old\n", UID)
        .expect_err("another file");
    assert_eq!(moved.code, "STATE_CLEANUP_FAILED");
    assert!(removed_record(Ok(()), Ok(())).is_ok());
    let kept = removed_record(Err("denied".to_owned()), Ok(())).expect_err("still there");
    assert_eq!(kept.detail, "cannot remove temporary record: denied");
    let unsynced = removed_record(Ok(()), Err("gone".to_owned())).expect_err("not synced");
    assert_eq!(unsynced.code, "STATE_COMMITTED_UNSYNCED");
}
