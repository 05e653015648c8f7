use git_vws::audit::{capture, capture_audit, checkout_audit, finish_clean, CheckoutSeen, PackListing};
use git_vws::authority::{hex, Authority, Error, Identity, DIRECTORY_TYPE, REGULAR_TYPE};
use git_vws::git::{self, ExitReport, Output};
use git_vws::inspection::Presence;
use git_vws::m4_checkpoint::Control;
use git_vws::objects::{
    classify_authority_fanout, classify_authority_info, open_git_metadata_directory,
    validate_authority_regular, ChildSeen, MetadataDirectory, ObjectFile,
};
use git_vws::private_objects::{open_authority_fanout, open_private_objects};
use git_vws::record_txn::RecordBinding;
use git_vws::session::{
    encode_record, publish_checkpoint, record_capability_from_binding, record_name, root_name,
    session_checkpoint, session_id_for_binding, tombstone_name, GitMetadataReceipt,
    PublishJournal, RecordCapability, SessionPayload, SessionRecord,
};
use git_vws::session_roots::{
    create_directory, diagnose_list_record, entry_identity_if_present, load_ready_capability,
    load_ready_session, ready_binding, removed_empty_directory, revalidate_ready_lease,
    AuthorizedSeen, ContainerSeen, DiagnoseSeen, LeasedSeen, ReadyBinding, ReadySeen,
};
use git_vws::storage::{CowReceipt, ManifestReceipt, SealedTreeReceipt};
use git_vws::template::{self, template_checkpoint, template_record_name};
use git_vws::template_gc::session_tombstone_name;
use git_vws::template_roots::{
    self, materializing_root, may_set_publishing_mode, prepare_publishing_root, publishing_root,
    set_publishing_root_mode, sync_prepared_root, tombstone_root,
    validate_template_tombstone_root, NameSeen, RootSeen,
};

const UID: u32 = 1000;
const PATH: &[u8] = b"/git-vws-test-authority";
const SESSIONS: &[u8] = b"/home/.git-vws/sessions";

fn directory() -> Identity {
    Identity {
        dev: 1,
        ino: 1,
        uid: UID,
        mode: 0o700,
        kind: DIRECTORY_TYPE,
        nlink: 2,
    }
}

fn file(ino: u64, mode: u32) -> Identity {
    Identity {
        ino,
        mode,
        kind: REGULAR_TYPE,
        nlink: 1,
        ..directory()
    }
}

fn worktree() -> Identity {
    Identity {
        ino: 3,
        mode: 0o755,
        ..directory()
    }
}

fn failed() -> Error {
    Error::new("STORAGE_UNSUPPORTED", "not there")
}

fn sealed(key: &str) -> SealedTreeReceipt {
    SealedTreeReceipt {
        root: Identity {
            mode: 0o555,
            ..directory()
        },
        volume: "volume".to_owned(),
        manifest: ManifestReceipt {
            digest: key.to_owned(),
            entries: 0,
        },
        content_digest: key.to_owned(),
    }
}

fn prepared_record() -> SessionRecord {
    let sid = session_id_for_binding(PATH, directory(), b"fixture");
    SessionRecord {
        version: 2,
        sid: sid.clone(),
        authority_path: hex(PATH),
        authority_identity: directory(),
        name: hex(b"fixture"),
        base: "b".repeat(40),
        target: hex(b"topic"),
        expected_old: None,
        template_key: sid.clone(),
        template: sealed(&sid),
        container_identity: directory(),
        volume: "volume".to_owned(),
        payload: SessionPayload::Prepared {
            root_name: root_name(&sid),
        },
        journal: PublishJournal::Idle,
    }
}

fn ready_record() -> SessionRecord {
    let record = prepared_record();
    let sid = record.sid.clone();
    let worktree = CowReceipt {
        source: record.template.copy(),
        destination: worktree(),
    };
    let git = GitMetadataReceipt {
        dot_git: sid.clone(),
        head: sid.clone(),
        target_ref: sid.clone(),
        index: sid.clone(),
        worktrees: sid.clone(),
        alternates: sid,
    };
    record
        .materializing(directory())
        .ready(directory(), directory(), worktree, git)
}

fn capability(record: SessionRecord) -> RecordCapability {
    RecordCapability {
        basename: record_name(&record.sid),
        record,
        binding: RecordBinding {
            bytes: b"bytes".to_vec(),
            identity: file(9, 0o600),
        },
    }
}

fn authority() -> Authority {
    Authority {
        canonical: PATH.to_vec(),
        identity: directory(),
        object_format: "sha1".to_owned(),
        ref_format: "files".to_owned(),
    }
}

fn volume() -> Result<String, Error> {
    Ok("volume".to_owned())
}

fn ready_seen() -> ReadySeen {
    ReadySeen {
        root_opened: Ok(()),
        root: Ok(directory()),
        root_entry: Ok(directory()),
        root_path: Ok(directory()),
        root_bound: Ok(directory()),
        worktree_opened: Ok(()),
        common_opened: Ok(()),
        container: Ok(directory()),
        worktree: Ok(worktree()),
        container_volume: volume(),
        root_volume: volume(),
        common_volume: volume(),
        worktree_volume: volume(),
        common: Ok(directory()),
        worktree_path: Ok(worktree()),
        worktree_bound: Ok(worktree()),
        common_path: Ok(directory()),
        common_bound: Ok(directory()),
        topology: Ok(()),
        root_again: Ok(directory()),
        root_entry_again: Ok(directory()),
        common_again: Ok(directory()),
        common_entry: Ok(directory()),
        worktree_again: Ok(worktree()),
        worktree_entry: Ok(worktree()),
    }
}

fn load(seen: ReadySeen) -> Result<ReadyBinding, Error> {
    load_ready_session(seen, &ready_record(), &authority(), SESSIONS, UID)
}

#[test]
fn ready_sessions_load_where_everything_stands() {
    let expected = ready_binding(&ready_record(), &authority(), SESSIONS).expect("a ready record");
    let loaded = load(ready_seen()).expect("everything stands");
    assert_eq!(loaded.root_name, expected.root_name);
    assert_eq!(loaded.worktree_path, expected.worktree_path);
    assert_eq!(loaded.common_path, expected.common_path);
    assert!(loaded.worktree_path.ends_with(b"/worktree"));
    assert!(loaded.common_path.ends_with(b"/common.git"));
    let other = || Ok(Identity { ino: 2, ..directory() });
    for seen in [
        ReadySeen {
            root: other(),
            ..ready_seen()
        },
        ReadySeen {
            root_entry: other(),
            ..ready_seen()
        },
        ReadySeen {
            root_volume: Ok("elsewhere".to_owned()),
            ..ready_seen()
        },
        ReadySeen {
            topology: Err(failed()),
            ..ready_seen()
        },
        ReadySeen {
            root_entry_again: other(),
            ..ready_seen()
        },
        ReadySeen {
            worktree_entry: other(),
            ..ready_seen()
        },
        ReadySeen {
            common_opened: Err(failed()),
            ..ready_seen()
        },
    ] {
        assert!(load(seen).is_err());
    }
    assert!(load_ready_session(
        ready_seen(),
        &prepared_record(),
        &authority(),
        SESSIONS,
        UID
    )
    .is_err());
}

#[test]
fn loaded_sessions_keep_their_record() {
    let expected = capability(ready_record());
    let loaded = load_ready_capability(
        load(ready_seen()),
        Ok(capability(ready_record())),
        &expected,
    );
    assert!(loaded.is_ok());
    let mut changed = capability(ready_record());
    changed.binding.bytes.push(b' ');
    let drifted = load_ready_capability(load(ready_seen()), Ok(changed), &expected);
    assert_eq!(drifted.expect_err("another record").code, "SESSION_RECOVERY_REQUIRED");
    let ready = load(ready_seen()).expect("everything stands");
    let leased = || LeasedSeen {
        current: Ok(capability(ready_record())),
        checked: load(ready_seen()),
        again: Ok(capability(ready_record())),
        root: Ok(directory()),
        root_entry: Ok(directory()),
        checked_root: Ok(directory()),
        common: Ok(directory()),
        checked_common: Ok(directory()),
    };
    assert!(revalidate_ready_lease(leased(), &expected, &ready).is_ok());
    let moved = LeasedSeen {
        root_entry: Ok(Identity { ino: 2, ..directory() }),
        ..leased()
    };
    assert!(revalidate_ready_lease(moved, &expected, &ready).is_err());
    let gone = LeasedSeen {
        checked: Err(failed()),
        ..leased()
    };
    assert!(revalidate_ready_lease(gone, &expected, &ready).is_err());
}

fn unopened() -> AuthorizedSeen {
    AuthorizedSeen {
        container: container(),
        opened: Err(failed()),
        entry: Err(failed()),
        descriptor: Err(failed()),
        volume: Err(failed()),
    }
}

fn container() -> ContainerSeen {
    ContainerSeen {
        identity: Ok(directory()),
        volume: volume(),
    }
}

fn diagnose_seen(record: SessionRecord) -> DiagnoseSeen {
    DiagnoseSeen {
        sessions_path: Ok(directory()),
        sessions: Ok(directory()),
        ready: Err(failed()),
        container: container(),
        root_entry: NameSeen::Absent,
        tombstone_entry: NameSeen::Absent,
        root: unopened(),
        tombstone: unopened(),
        current: Ok(capability(record)),
    }
}

#[test]
fn sessions_are_diagnosed_by_their_state() {
    let prepared = capability(prepared_record());
    assert!(diagnose_list_record(diagnose_seen(prepared_record()), &prepared, UID).is_ok());
    let moved = DiagnoseSeen {
        container: ContainerSeen {
            identity: Ok(worktree()),
            volume: volume(),
        },
        ..diagnose_seen(prepared_record())
    };
    assert!(diagnose_list_record(moved, &prepared, UID).is_err());
    let ready = capability(ready_record());
    let stands = DiagnoseSeen {
        ready: load(ready_seen()),
        ..diagnose_seen(ready_record())
    };
    assert!(diagnose_list_record(stands, &ready, UID).is_ok());
    assert!(diagnose_list_record(diagnose_seen(ready_record()), &ready, UID).is_err());
    let tombstoned = ready_record().tombstoned(directory());
    assert_eq!(
        tombstone_name(&tombstoned.sid),
        match &tombstoned.payload {
            SessionPayload::Tombstoned { tombstone_name, .. } => tombstone_name.clone(),
            _ => String::new(),
        }
    );
    let buried = capability(tombstoned.copy());
    let opened = || AuthorizedSeen {
        opened: Ok(()),
        entry: Ok(directory()),
        descriptor: Ok(directory()),
        volume: volume(),
        ..unopened()
    };
    let promoted = DiagnoseSeen {
        tombstone_entry: NameSeen::Found(directory()),
        tombstone: opened(),
        ..diagnose_seen(tombstoned.copy())
    };
    assert!(diagnose_list_record(promoted, &buried, UID).is_ok());
    let both = DiagnoseSeen {
        root_entry: NameSeen::Found(directory()),
        root: opened(),
        tombstone_entry: NameSeen::Found(directory()),
        tombstone: opened(),
        ..diagnose_seen(tombstoned)
    };
    assert!(diagnose_list_record(both, &buried, UID).is_err());
}

#[test]
fn session_directories_are_made_private() {
    let made = |made, opened, protected, identity| {
        create_directory(b"root", made, opened, protected, identity, "session root", UID)
    };
    assert_eq!(
        made(Ok(()), Ok(()), Ok(()), Ok(directory())).expect("a directory"),
        directory()
    );
    assert!(made(Err("exists".to_owned()), Ok(()), Ok(()), Ok(directory())).is_err());
    assert!(made(Ok(()), Err(failed()), Ok(()), Ok(directory())).is_err());
    assert!(made(Ok(()), Ok(()), Err("denied".to_owned()), Ok(directory())).is_err());
    let shared = Identity {
        mode: 0o755,
        ..directory()
    };
    assert!(made(Ok(()), Ok(()), Ok(()), Ok(shared)).is_err());
    assert!(removed_empty_directory(Ok(()), Ok(()), "empty Git template").is_ok());
    assert!(removed_empty_directory(Err("busy".to_owned()), Ok(()), "empty Git template").is_err());
    assert!(removed_empty_directory(Ok(()), Err("gone".to_owned()), "empty Git template").is_err());
    assert_eq!(
        entry_identity_if_present(NameSeen::Found(directory())).expect("seen"),
        Some(directory())
    );
    assert_eq!(entry_identity_if_present(NameSeen::Absent).expect("seen"), None);
    assert!(entry_identity_if_present(NameSeen::Failed("denied".to_owned())).is_err());
}

#[test]
fn records_are_capabilities_only_under_their_name() {
    let record = prepared_record();
    let encoded = || Ok(b"{}".to_vec());
    assert_eq!(
        encode_record(&record, encoded(), UID).expect("a sound record"),
        b"{}"
    );
    let binding = || RecordBinding {
        bytes: b"{}".to_vec(),
        identity: file(9, 0o600),
    };
    let name = record_name(&record.sid);
    let found = record_capability_from_binding(
        name.clone(),
        binding(),
        Some(record.copy()),
        encoded(),
        UID,
    )
    .expect("its own name");
    assert_eq!(found.basename, name);
    assert!(record_capability_from_binding(
        b"session-x.record".to_vec(),
        binding(),
        Some(record),
        encoded(),
        UID
    )
    .is_err());
    assert!(record_capability_from_binding(name, binding(), None, encoded(), UID).is_err());
}

fn root_seen(identity: Identity) -> RootSeen {
    RootSeen {
        entry: Ok(Some(identity)),
        opened: true,
        descriptor: Ok(identity),
        volume: volume(),
        names: Ok(Vec::new()),
    }
}

#[test]
fn template_roots_are_judged_by_their_stage() {
    let receipt = sealed("key");
    let open = Identity {
        mode: 0o755,
        ..receipt.root
    };
    let other = Identity {
        ino: 2,
        ..receipt.root
    };
    assert!(materializing_root(root_seen(directory()), "volume", directory(), UID).is_ok());
    assert!(materializing_root(root_seen(open), "volume", directory(), UID).is_err());
    assert!(materializing_root(root_seen(directory()), "elsewhere", directory(), UID).is_err());
    let absent = RootSeen {
        entry: Ok(None),
        ..root_seen(directory())
    };
    assert_eq!(
        materializing_root(absent, "volume", directory(), UID)
            .expect_err("nothing there")
            .detail,
        "template materializing root is absent"
    );
    assert!(publishing_root(root_seen(receipt.root), &receipt, "volume").is_ok());
    assert!(publishing_root(root_seen(open), &receipt, "volume").is_ok());
    assert!(publishing_root(root_seen(other), &receipt, "volume").is_err());
    assert!(tombstone_root(root_seen(receipt.root), &receipt, "volume", UID).expect("sealed"));
    assert!(!tombstone_root(root_seen(directory()), &receipt, "volume", UID).expect("opened up"));
    assert!(tombstone_root(root_seen(open), &receipt, "volume", UID).is_err());
    assert!(
        validate_template_tombstone_root(Ok(receipt.root), volume(), &receipt, "volume", UID)
            .expect("sealed")
    );
    assert!(
        validate_template_tombstone_root(Ok(other), volume(), &receipt, "volume", UID).is_err()
    );
}

#[test]
fn template_roots_change_their_mode_for_a_rename() {
    let root = sealed("key").root;
    let open = Identity {
        mode: 0o755,
        ..root
    };
    assert!(prepare_publishing_root(Ok(root), root).is_ok());
    assert!(prepare_publishing_root(Ok(directory()), root).is_err());
    assert!(may_set_publishing_mode(Ok(root), root, 0o755).is_ok());
    assert!(may_set_publishing_mode(Ok(root), root, 0o700).is_err());
    assert!(set_publishing_root_mode(Ok(()), Ok(()), Ok(open), root, 0o755).is_ok());
    assert!(set_publishing_root_mode(Ok(()), Ok(()), Ok(root), root, 0o755).is_err());
    let unchanged =
        set_publishing_root_mode(Err("denied".to_owned()), Ok(()), Ok(root), root, 0o755)
            .expect_err("no change");
    assert_eq!(unchanged.code, "TEMPLATE_RECOVERY_REQUIRED");
    assert_eq!(
        unchanged.detail,
        "cannot change publishing template root mode: denied"
    );
    let synced = |root_synced, parent_synced, seen| {
        sync_prepared_root(root_synced, parent_synced, Ok(seen), Ok(Some(seen)), directory())
    };
    assert!(synced(Ok(()), Ok(()), directory()).is_ok());
    assert!(synced(Err("gone".to_owned()), Ok(()), directory()).is_err());
    assert!(synced(Ok(()), Err("gone".to_owned()), directory()).is_err());
    assert!(synced(Ok(()), Ok(()), root).is_err());
    let made = |protected, identity| {
        template_roots::create_directory(Ok(()), Ok(()), protected, Ok(identity), UID)
    };
    assert!(made(true, directory()).is_ok());
    assert!(made(false, directory()).is_err());
    assert!(made(true, root).is_err());
}

#[test]
fn template_names_tell_records_apart() {
    assert!(template_record_name(b"template-key.record"));
    assert!(!template_record_name(b"template-key"));
    let root = sealed("key").root;
    assert!(session_tombstone_name(Ok(None), Ok(Some(root)), root).is_ok());
    assert!(session_tombstone_name(Err(failed()), Ok(None), root).is_err());
    let error = template::git_error(git::Error::new("GIT_PROBE_FAILED", "cannot execute git"));
    assert_eq!(error.detail, "cannot execute git");
}

fn metadata(identity: Identity) -> MetadataDirectory {
    MetadataDirectory {
        entry: Ok(identity),
        opened: Ok(()),
        descriptor: Ok(identity),
        volume: volume(),
    }
}

fn child(name: &[u8], identity: Identity) -> ChildSeen {
    ChildSeen {
        name: name.to_vec(),
        entry: Ok(identity),
        file: ObjectFile {
            opened: Ok(Ok(identity)),
            same_volume: Ok(true),
        },
    }
}

#[test]
fn object_directories_are_opened_on_their_volume() {
    let open = |identity, dev, of| {
        open_git_metadata_directory(metadata(identity), dev, of, "unsafe directory", UID)
    };
    assert_eq!(open(directory(), 1, "volume").expect("its own"), directory());
    assert!(open(directory(), 2, "volume").is_err());
    assert!(open(directory(), 1, "elsewhere").is_err());
    let shared = Identity {
        mode: 0o777,
        ..directory()
    };
    let refused = open(shared, 1, "volume").expect_err("others can write");
    assert_eq!(refused.code, "SESSION_RECOVERY_REQUIRED");
    assert_eq!(refused.detail, "unsafe directory");
    assert_eq!(
        open_private_objects(
            Ok(directory()),
            metadata(directory()),
            &ready_record(),
            UID
        )
        .expect("its own"),
        directory()
    );
    assert_eq!(
        open_authority_fanout(
            NameSeen::Found(directory()),
            metadata(directory()),
            directory(),
            "volume",
            UID
        )
        .expect("a fanout"),
        Some(directory())
    );
    assert_eq!(
        open_authority_fanout(
            NameSeen::Absent,
            metadata(directory()),
            directory(),
            "volume",
            UID
        )
        .expect("no fanout"),
        None
    );
}

#[test]
fn authority_objects_have_safe_names_and_owners() {
    let object = file(20, 0o444);
    let tail = "c".repeat(38);
    let fanout = |children: Vec<ChildSeen>| {
        classify_authority_fanout(Ok(children), Ok(directory()), directory(), 40, UID)
    };
    let listed = fanout(vec![child(tail.as_bytes(), object)]).expect("an object");
    assert_eq!(listed.len(), 1);
    assert_eq!(listed[0].name, tail.as_bytes());
    assert_eq!(listed[0].identity, object);
    assert!(fanout(vec![child(b"short", object)]).is_err());
    assert!(fanout(vec![child(tail.as_bytes(), file(20, 0o666))]).is_err());
    assert!(fanout(vec![child(tail.as_bytes(), Identity { nlink: 2, ..object })]).is_err());
    let info = |name: &[u8]| {
        classify_authority_info(
            Ok(vec![child(name, object)]),
            Ok(directory()),
            directory(),
            40,
            UID,
        )
    };
    assert!(info(b"packs").is_ok());
    assert!(info(b"commit-graph").is_ok());
    assert!(info(b"alternates").is_err());
    let seen = |opened, same| ObjectFile {
        opened,
        same_volume: Ok(same),
    };
    let valid = |seen: ObjectFile| validate_authority_regular(&seen, object, 1, "unsafe", UID);
    assert!(valid(seen(Ok(Ok(object)), true)).is_ok());
    assert!(valid(seen(Ok(Ok(object)), false)).is_err());
    assert!(valid(seen(Ok(Ok(file(21, 0o444))), true)).is_err());
    let unread = valid(seen(Err("denied".to_owned()), true)).expect_err("not opened");
    assert_eq!(unread.detail, "unsafe: denied");
}

fn output(stdout: &[u8], stderr: &[u8], code: i32) -> Output {
    Output {
        stdout: stdout.to_vec(),
        stderr: stderr.to_vec(),
        status: ExitReport {
            code: Some(code),
            signal: None,
        },
    }
}

fn absent() -> Presence {
    Presence::Absent("no such file".to_owned())
}

fn checkout() -> CheckoutSeen {
    CheckoutSeen {
        attributes: absent(),
        grafts: absent(),
        shallow: absent(),
        alternates: absent(),
        replace: absent(),
        packs: PackListing::Entries(Vec::new()),
        config: Ok(output(b"", b"", 0)),
        system: Ok(output(b"", b"", 0)),
        system_lines: Vec::new(),
        global: Ok(output(b"", b"", 0)),
        global_lines: Vec::new(),
        is_shallow: Ok(output(b"false\n", b"", 0)),
    }
}

#[test]
fn plain_repositories_can_be_checked_out() {
    let audit = checkout_audit(checkout()).expect("a plain repository");
    assert_eq!(
        audit.config_fingerprint,
        "6c0281e1066caae599caaf382428244f81f9f99ad08d08f3df43f14f5c936060"
    );
    assert_eq!(audit.attributes_fingerprint.len(), 64);
    let code = |seen: CheckoutSeen| checkout_audit(seen).err().map(|error| error.code);
    assert_eq!(
        code(CheckoutSeen {
            grafts: Presence::Other,
            ..checkout()
        }),
        Some("TEMPLATE_UNSUPPORTED")
    );
    assert_eq!(
        code(CheckoutSeen {
            is_shallow: Ok(output(b"true\n", b"", 0)),
            ..checkout()
        }),
        Some("TEMPLATE_UNSUPPORTED")
    );
    assert_eq!(
        code(CheckoutSeen {
            packs: PackListing::Entries(vec![Ok(b"pack-x.promisor".to_vec())]),
            ..checkout()
        }),
        Some("TEMPLATE_UNSUPPORTED")
    );
    assert!(capture(Ok(output(b"x", b"", 0))).is_ok());
    assert!(capture(Ok(output(b"x", b"loud", 0))).is_err());
    assert!(capture_audit(Ok(output(b"x", b"", 1))).is_err());
    assert!(finish_clean(Ok(output(b"", b"", 0)), "ls-tree").is_ok());
    assert!(finish_clean(Ok(output(b"", b"", 1)), "ls-tree").is_err());
}

#[test]
fn checkpoints_carry_what_they_stand_for() {
    let mut control = Control {
        nonce: "a".repeat(64),
        pid: 7,
        pgid: 7,
        sequence: 0,
    };
    let record = prepared_record();
    let reached = session_checkpoint(&mut control, "create", &record, "ready")
        .expect("a checkpoint");
    assert!(reached.cp.contains(&record.sid));
    assert!(reached.cp.contains("create"));
    assert_eq!(control.sequence, 1);
    let removed = session_checkpoint(&mut control, "remove", &record, "return")
        .expect("a checkpoint");
    assert!(removed.go.contains("remove"));
    assert_eq!(control.sequence, 2);
    for refused in [
        publish_checkpoint(&mut control, &record.sid, &record.sid, "prepared"),
        template_checkpoint(&mut control, &record.template_key, "return"),
    ] {
        assert_eq!(
            refused.err().map(|error| error.detail),
            Some("checkpoint fields are invalid".to_owned())
        );
    }
    assert_eq!(control.sequence, 2);
    assert!(session_checkpoint(&mut control, "Create", &record, "ready").is_err());
}
