use git_vws::acquire::{
    template_key, Acquire, AcquireAction, AcquireEvent, AcquireInputs, ReadyRename,
    ReadyRenameAction, ReadyRenameEvent,
};
use git_vws::audit::{
    attribute_paths, audit_attributes, audit_config, git_version, reject_present,
    reject_promisor_markers, AttributesLine, CheckoutAudit, PackListing,
};
use git_vws::authority::{Error, Identity, DIRECTORY_TYPE, REGULAR_TYPE};
use git_vws::git::{ExitReport, Output};
use git_vws::inspection::Presence;
use git_vws::manifest::{
    batch_request, check_batch_header, parse_ls_tree, read_entry, validate_oid, validate_path,
    Manifest, ManifestEntry,
};
use git_vws::materialize::{EntryWriter, WriteAction, WriteAnswer};
use git_vws::opening::MakeEvent;
use git_vws::passes::{manifest_pass, materialize, Pass, PassAction, PassEvent};
use git_vws::record_txn::{RecordBinding, RenameEvent};
use git_vws::storage::{ManifestReceipt, SealedTreeReceipt};
use git_vws::template::{
    building_name, encode_record, parse_record, record_name, root_name, template_payload_names,
    template_precedes, template_transition, tombstone_cleanup_mode, tombstone_name,
    valid_building_name, validate_record, MaintenanceReport, TemplatePayload, TemplateRecord,
};
use git_vws::template_gc::{
    template_census, template_predecessor_temporary, tombstone_stands, validate_session_template,
    CensusName, Collect, CollectAction, CollectEvent, GcAction, TemplateGc, TemporaryRecord,
};
use git_vws::template_roots::{
    acquire_template_lease, named_identity, private_root, sealed_root, LeaseEvent, LeaseStep,
    NameSeen, RootSeen, TemplateCapability,
};

const UID: u32 = 1000;
const OID: &str = "0123456789abcdef0123456789abcdef01234567";
const KEY: &str = "0123456789abcdef0123456789abcdef0123456789abcdef0123456789abcdef";

fn directory(ino: u64, mode: u32) -> Identity {
    Identity {
        dev: 1,
        ino,
        uid: UID,
        mode,
        kind: DIRECTORY_TYPE,
        nlink: 2,
    }
}

fn file(ino: u64, mode: u32) -> Identity {
    Identity {
        kind: REGULAR_TYPE,
        nlink: 1,
        ..directory(ino, mode)
    }
}

fn sealed() -> SealedTreeReceipt {
    SealedTreeReceipt {
        root: directory(10, 0o555),
        volume: "volume".to_owned(),
        manifest: manifest_receipt(),
        content_digest: KEY.to_owned(),
    }
}

fn manifest_receipt() -> ManifestReceipt {
    ManifestReceipt {
        digest: KEY.to_owned(),
        entries: 1,
    }
}

fn record(payload: TemplatePayload) -> TemplateRecord {
    TemplateRecord {
        version: 3,
        key: KEY.to_owned(),
        manifest: manifest_receipt(),
        volume: "volume".to_owned(),
        payload,
    }
}

fn prepared() -> TemplateRecord {
    TemplateRecord::prepared(
        KEY.to_owned(),
        manifest_receipt(),
        "volume".to_owned(),
        building_name(KEY, 12, 3),
    )
}

fn ready() -> TemplateRecord {
    prepared()
        .materializing(directory(10, 0o700))
        .publishing(sealed())
        .ready()
}

fn capability(record: TemplateRecord) -> TemplateCapability {
    TemplateCapability {
        basename: record_name(KEY),
        record,
        binding: RecordBinding {
            bytes: b"bytes".to_vec(),
            identity: file(5, 0o600),
        },
    }
}

fn output(stdout: &[u8]) -> Output {
    Output {
        stdout: stdout.to_vec(),
        stderr: Vec::new(),
        status: ExitReport {
            code: Some(0),
            signal: None,
        },
    }
}

fn failed() -> Error {
    Error::new("TEMPLATE_IO_FAILED", "failed")
}

#[test]
fn tree_listings_are_read_line_by_line() {
    let line = format!("100755 blob {OID}       5\tdir/a b");
    let entry = read_entry(line.as_bytes(), "sha1").expect("entry");
    assert_eq!(
        (entry.mode, entry.oid.as_str(), entry.size, entry.path),
        (0o100755, OID, 5, b"dir/a b".to_vec())
    );
    for (line, code) in [
        (format!("100644 blob {OID} 5 a"), "TEMPLATE_INVALID"),
        (format!("100644 blob {OID}\ta"), "TEMPLATE_INVALID"),
        (format!("160000 commit {OID} -\ta"), "TEMPLATE_UNSUPPORTED"),
        (format!("100644 tree {OID} 5\ta"), "TEMPLATE_UNSUPPORTED"),
        (format!("100644 blob {OID} 05\ta"), "TEMPLATE_INVALID"),
        (format!("100644 blob {OID} x\ta"), "TEMPLATE_INVALID"),
        ("100644 blob 0123 5\ta".to_owned(), "TEMPLATE_INVALID"),
        (format!("100644 blob {OID} 5\t"), "TEMPLATE_INVALID"),
    ] {
        assert_eq!(
            parse_ls_tree(line.as_bytes(), "sha1").expect_err("broken line").code,
            code
        );
    }
    assert_eq!(
        validate_oid(OID, "md5").expect_err("format").code,
        "TEMPLATE_UNSUPPORTED"
    );
}

#[test]
fn tree_paths_hold_nothing_of_gits() {
    assert!(validate_path(b"a/b").is_ok());
    for path in [b"a//b".as_slice(), b"../a", b".git/config", b"a/.GITATTRIBUTES", b".lfsconfig"] {
        assert_eq!(
            validate_path(path).expect_err("unsupported path").code,
            "TEMPLATE_UNSUPPORTED"
        );
    }
}

#[test]
fn manifests_are_digests_of_their_entries() {
    let entry = ManifestEntry {
        mode: 0o100644,
        oid: OID.to_owned(),
        size: 5,
        path: b"a".to_vec(),
    };
    let manifest = Manifest::new();
    assert!(manifest.fits(&entry));
    let receipt = manifest.add_entry(&entry).expect("entry").finish();
    assert_eq!(receipt.entries, 1);
    assert_eq!(
        receipt.digest,
        "f600609bd0bcfa4788f156d0612fc5111f5f9540e29721b5d67f70a1f2c70162"
    );
    let other = ManifestEntry {
        mode: 0o100644,
        oid: OID.to_owned(),
        size: 6,
        path: b"a".to_vec(),
    };
    let changed = Manifest::new().add_entry(&other).expect("entry").finish();
    assert_ne!(changed.digest, receipt.digest);
    assert_eq!(batch_request(OID), format!("{OID}\n").into_bytes());
    assert!(check_batch_header(format!("{OID} blob 5").as_bytes(), &entry).is_ok());
    assert!(check_batch_header(format!("{OID} blob 6").as_bytes(), &entry).is_err());
    assert!(check_batch_header(format!("{OID} missing").as_bytes(), &entry).is_err());
}

fn told(pass: Pass, event: PassEvent) -> Pass {
    assert!(pass.fits(&event));
    pass.answer(event)
}

#[test]
fn passes_have_the_receipt_of_what_they_list() {
    let line = format!("100644 blob {OID} 5\ta").into_bytes();
    let record = |raw: Option<&[u8]>| PassEvent::Record(Ok(raw.map(<[u8]>::to_vec)));
    let ended = || PassEvent::Finished(Ok(output(b"")));
    let mut pass = manifest_pass("sha1");
    assert_eq!(pass.action(), PassAction::ReadRecord);
    pass = told(pass, record(Some(&line)));
    assert!(pass.entry().is_none());
    pass = told(pass, record(None));
    assert_eq!(pass.action(), PassAction::FinishListing);
    pass = told(pass, ended());
    assert_eq!(pass.action(), PassAction::Nothing);
    let receipt = pass.outcome().expect("an end").expect("a receipt");
    assert_eq!(receipt.entries, 1);
    assert_eq!(
        receipt.digest,
        "f600609bd0bcfa4788f156d0612fc5111f5f9540e29721b5d67f70a1f2c70162"
    );

    let mut pass = materialize("sha1");
    pass = told(pass, record(Some(&line)));
    assert_eq!(pass.action(), PassAction::Request);
    assert_eq!(pass.request(), Some(format!("{OID}\n").into_bytes()));
    pass = told(pass, PassEvent::Requested(Ok(())));
    assert_eq!(pass.action(), PassAction::ReadHeader);
    pass = told(pass, PassEvent::Written(Ok(())));
    assert_eq!(pass.action(), PassAction::ReadHeader);
    pass = told(
        pass,
        PassEvent::Header(Ok(format!("{OID} blob 5").into_bytes())),
    );
    assert_eq!(pass.action(), PassAction::WriteEntry);
    assert_eq!(pass.entry().expect("an entry").path, b"a");
    pass = told(pass, PassEvent::Written(Ok(())));
    pass = told(pass, record(None));
    pass = told(pass, ended());
    assert_eq!(pass.action(), PassAction::FinishBatch);
    pass = told(pass, ended());
    let written = pass.outcome().expect("an end").expect("a receipt");
    assert_eq!(written.digest, receipt.digest);
    assert_eq!(written.entries, 1);
}

#[test]
fn passes_end_with_what_went_wrong() {
    let line = format!("100644 blob {OID} 5\ta").into_bytes();
    let code = |pass: Pass| match pass.outcome() {
        Some(Err(error)) => error.code,
        _ => "",
    };
    let read = |raw: &[u8]| PassEvent::Record(Ok(Some(raw.to_vec())));
    assert_eq!(
        code(told(manifest_pass("sha1"), read(b"no line"))),
        "TEMPLATE_INVALID"
    );
    let path = format!("100644 blob {OID} 5\t.git/a").into_bytes();
    assert_eq!(
        code(told(manifest_pass("sha1"), read(&path))),
        "TEMPLATE_UNSUPPORTED"
    );
    let lost = git_vws::git::Error::new("GIT_BATCH_FAILED", "gone");
    assert_eq!(
        code(told(manifest_pass("sha1"), PassEvent::Record(Err(lost)))),
        "GIT_BATCH_FAILED"
    );
    let announced = told(
        told(materialize("sha1"), read(&line)),
        PassEvent::Requested(Ok(())),
    );
    let missing = format!("{OID} missing").into_bytes();
    assert_eq!(
        code(told(announced, PassEvent::Header(Ok(missing)))),
        "TEMPLATE_INVALID"
    );
    let ending = told(manifest_pass("sha1"), PassEvent::Record(Ok(None)));
    let loud = Output {
        stderr: b"warning".to_vec(),
        ..output(b"")
    };
    assert_eq!(
        code(told(ending, PassEvent::Finished(Ok(loud)))),
        "TEMPLATE_INVALID"
    );
}

#[test]
fn template_keys_are_digests_of_their_inputs() {
    let audit = || CheckoutAudit {
        config_fingerprint: "cfg".to_owned(),
        attributes_fingerprint: "attr".to_owned(),
    };
    let key = template_key(
        "sha1",
        "tree",
        "git version 2.40",
        &audit(),
        "linux",
        "volume",
        "manifest",
    );
    assert_eq!(
        key,
        "5e312ffaf8657378607defb5fef6f92980695e666340528a8356b006072a5a18"
    );
    let moved = template_key(
        "sha1tree",
        "",
        "git version 2.40",
        &audit(),
        "linux",
        "volume",
        "manifest",
    );
    assert_ne!(moved, key);
}

#[test]
fn configurations_that_change_checkouts_are_refused() {
    let row = |key: &str, value: &str| format!("local\0file:config\0{key}\n{value}\0");
    let fingerprint = audit_config(row("core.autocrlf", "false").as_bytes()).expect("accepted");
    assert_eq!(
        fingerprint,
        "6c0281e1066caae599caaf382428244f81f9f99ad08d08f3df43f14f5c936060"
    );
    assert_eq!(audit_config(b"").expect("nothing set"), fingerprint);
    let last_wins = row("core.autocrlf", "true") + &row("core.autocrlf", "false");
    assert!(audit_config(last_wins.as_bytes()).is_ok());
    for raw in [
        row("core.autocrlf", "true"),
        row("core.sparsecheckout", "false"),
        row("filter.lfs.clean", "x"),
        row("include.path", "x"),
        row("remote.origin.promisor", "true"),
        "local\0file:config\0core.eol".to_owned(),
        "local\0file:config\0".to_owned(),
    ] {
        assert_eq!(
            audit_config(raw.as_bytes()).expect_err("refused").code,
            "TEMPLATE_UNSUPPORTED"
        );
    }
}

#[test]
fn attributes_and_promises_are_refused() {
    assert_eq!(
        attribute_paths(b"/a\n\n/b\n"),
        vec![b"/a".to_vec(), b"/b".to_vec()]
    );
    let line = |found: Presence| AttributesLine {
        path: b"/etc/gitattributes".to_vec(),
        found,
    };
    assert!(audit_attributes(&vec![line(Presence::Absent("none".to_owned()))]).is_ok());
    assert!(audit_attributes(&vec![line(Presence::Other)]).is_err());
    assert!(reject_present(&Presence::Absent("none".to_owned()), "grafts").is_ok());
    assert_eq!(
        reject_present(&Presence::Other, "grafts")
            .expect_err("grafts")
            .detail,
        "grafts requires unsupported checkout semantics"
    );
    assert!(reject_promisor_markers(&PackListing::Absent).is_ok());
    assert_eq!(
        reject_promisor_markers(&PackListing::Entries(vec![Ok(b"pack-1.promisor".to_vec())]))
            .expect_err("promisor")
            .detail,
        "authority has a promisor pack"
    );
    assert_eq!(
        git_version(Ok(output(b"git version 2.40.0\n"))).expect("version"),
        "git version 2.40.0"
    );
    assert!(git_version(Ok(output(b"git version 2.40.0"))).is_err());
}

#[test]
fn entries_are_written_sealed() {
    let root = directory(7, 0o700);
    let entry = ManifestEntry {
        mode: 0o100755,
        oid: OID.to_owned(),
        size: 5,
        path: b"d/a".to_vec(),
    };
    let mut writer = EntryWriter::start(entry, root, UID);
    let mut actions = Vec::new();
    for _ in 0..20 {
        let action = writer.action();
        actions.push(action);
        let answer = match action {
            WriteAction::StatRoot => WriteAnswer::Identity(Ok(root)),
            WriteAction::OpenComponent => WriteAnswer::Opened {
                found: false,
                names: Ok(vec![]),
            },
            WriteAction::MakeComponent | WriteAction::CreateRegular => {
                WriteAnswer::Made(MakeEvent::Created)
            }
            WriteAction::OpenMade => WriteAnswer::Done(Ok(())),
            WriteAction::SyncMade
            | WriteAction::SyncParent
            | WriteAction::SealRegular(_)
            | WriteAction::SyncRegular => WriteAnswer::System(Ok(())),
            WriteAction::StatComponent => WriteAnswer::Identity(Ok(directory(8, 0o700))),
            WriteAction::CopyContent(_) => WriteAnswer::Copied(Ok(())),
            WriteAction::ReadDelimiter => WriteAnswer::Byte(Ok(b'\n')),
            WriteAction::StatRegular => WriteAnswer::Identity(Ok(file(9, 0o555))),
            _ => break,
        };
        writer = writer.answer(answer);
    }
    assert!(actions.contains(&WriteAction::CopyContent(5)));
    assert!(actions.contains(&WriteAction::SealRegular(0o555)));
    assert!(writer.outcome().expect("ended").is_ok());
}

#[test]
fn links_are_written_from_their_object() {
    let root = directory(7, 0o700);
    let entry = || ManifestEntry {
        mode: 0o120000,
        oid: OID.to_owned(),
        size: 3,
        path: b"l".to_vec(),
    };
    let writer = EntryWriter::start(entry(), root, UID)
        .answer(WriteAnswer::Identity(Ok(root)))
        .answer(WriteAnswer::Target(Ok(b"a/b".to_vec())))
        .answer(WriteAnswer::Byte(Ok(b'\n')));
    assert_eq!(writer.action(), WriteAction::CreateLink);
    assert_eq!(writer.link_target(), Some(b"a/b".to_vec()));
    let cut = EntryWriter::start(entry(), root, UID)
        .answer(WriteAnswer::Identity(Ok(root)))
        .answer(WriteAnswer::Target(Ok(b"a/b".to_vec())))
        .answer(WriteAnswer::Byte(Ok(b'x')));
    assert_eq!(
        cut.outcome().expect("ended").expect_err("no delimiter").detail,
        "cat-file payload lacked its delimiter"
    );
    let moved = EntryWriter::start(entry(), root, UID)
        .answer(WriteAnswer::Identity(Ok(directory(8, 0o700))));
    assert_eq!(
        moved.outcome().expect("ended").expect_err("moved").detail,
        "template root binding changed"
    );
}

#[test]
fn template_records_step_forward() {
    let building = building_name(KEY, 12, 3);
    assert_eq!(building, format!("template-{KEY}.12-3.building"));
    assert!(valid_building_name(&building, KEY));
    assert!(!valid_building_name("template-x.building", KEY));
    assert_eq!(root_name(KEY), format!("template-{KEY}.root"));
    assert_eq!(tombstone_name(KEY), format!("template-{KEY}.tombstone"));
    assert_eq!(record_name(KEY), format!("template-{KEY}.record").into_bytes());

    let steps = [
        prepared(),
        prepared().materializing(directory(10, 0o700)),
        prepared().materializing(directory(10, 0o700)).publishing(sealed()),
        ready(),
        ready().tombstoned(),
    ];
    for step in steps.iter() {
        assert!(validate_record(step, UID).is_ok(), "{step:?}");
    }
    for at in 1..steps.len() {
        assert!(template_transition(&steps[at - 1], &steps[at]));
        assert!(!template_transition(&steps[at], &steps[at - 1]));
        assert!(template_precedes(&steps[at - 1], &steps[at]));
    }
    assert!(!template_transition(&steps[0], &steps[2]));
    assert_eq!(
        template_payload_names(&steps[4]),
        vec![
            root_name(KEY).into_bytes(),
            tombstone_name(KEY).into_bytes()
        ]
    );
}

#[test]
fn broken_template_records_are_corrupt() {
    let mut wrong = ready();
    wrong.version = 9;
    assert_eq!(
        validate_record(&wrong, UID).expect_err("version").code,
        "TEMPLATE_CORRUPT"
    );
    let mut wrong = ready();
    wrong.key = "short".to_owned();
    assert!(validate_record(&wrong, UID).is_err());
    let wrong = record(TemplatePayload::Ready {
        root_name: "elsewhere".to_owned(),
        sealed: sealed(),
    });
    assert!(validate_record(&wrong, UID).is_err());
    let bytes = b"stored".to_vec();
    assert!(parse_record(Some(ready()), Ok(bytes.clone()), &bytes, UID).is_ok());
    assert!(parse_record(Some(ready()), Ok(b"other".to_vec()), &bytes, UID).is_err());
    assert!(parse_record(None, Ok(bytes.clone()), &bytes, UID).is_err());
    assert_eq!(encode_record(Ok(bytes.clone())).expect("encoded"), bytes);
    assert_eq!(
        encode_record(Err("words".to_owned())).expect_err("words").detail,
        "cannot encode template record: words"
    );
}

#[test]
fn template_roots_are_bound_to_their_records() {
    let root = directory(10, 0o555);
    let seen = |entry: Option<Identity>, volume: &str| RootSeen {
        entry: Ok(entry),
        opened: true,
        descriptor: Ok(entry.unwrap_or(root)),
        volume: Ok(volume.to_owned()),
        names: Ok(vec![]),
    };
    assert!(sealed_root(seen(Some(root), "volume"), &sealed(), "volume", UID).is_ok());
    assert_eq!(
        sealed_root(seen(None, "volume"), &sealed(), "volume", UID)
            .expect_err("absent")
            .detail,
        "sealed template root is absent"
    );
    assert!(sealed_root(seen(Some(root), "far"), &sealed(), "volume", UID).is_err());
    let private = directory(11, 0o700);
    assert_eq!(
        private_root(seen(Some(private), "volume"), "volume", None, true, UID).expect("private"),
        private
    );
    assert!(private_root(seen(Some(root), "volume"), "volume", None, true, UID).is_err());
    assert!(tombstone_cleanup_mode(root, UID) && tombstone_cleanup_mode(private, UID));
    assert_eq!(named_identity(NameSeen::Found(root)).expect("found"), Some(root));
    assert_eq!(named_identity(NameSeen::Absent).expect("absent"), None);
    assert!(named_identity(NameSeen::Failed("io".to_owned())).is_err());
    assert!(matches!(
        acquire_template_lease(LeaseEvent::Locked, true),
        LeaseStep::Leased
    ));
    match acquire_template_lease(LeaseEvent::WouldBlock("busy".to_owned()), true) {
        LeaseStep::Failed(error) => assert_eq!(error.code, "TEMPLATE_BUSY"),
        other => panic!("{other:?}"),
    }
}

#[test]
fn ready_renames_verify_or_restore() {
    let root = directory(10, 0o555);
    let mut rename = ReadyRename::start();
    for (action, event) in [
        (ReadyRenameAction::StatBuilding, ReadyRenameEvent::Identity(Ok(root))),
        (ReadyRenameAction::PrepareRoot, ReadyRenameEvent::Done(Ok(()))),
        (ReadyRenameAction::RenameRoot, ReadyRenameEvent::Renamed(RenameEvent::Done)),
        (ReadyRenameAction::SealRoot, ReadyRenameEvent::Done(Ok(()))),
        (ReadyRenameAction::StatReady, ReadyRenameEvent::Identity(Ok(root))),
        (ReadyRenameAction::SyncParent, ReadyRenameEvent::Synced(Ok(()))),
        (ReadyRenameAction::StatReady, ReadyRenameEvent::Identity(Ok(root))),
        (ReadyRenameAction::VerifyRoot, ReadyRenameEvent::Done(Ok(()))),
    ] {
        assert_eq!(rename.action(), action);
        rename = rename.rename_ready(event, root);
    }
    assert!(matches!(rename, ReadyRename::Renamed));

    let mut rename = ReadyRename::start();
    for event in [
        ReadyRenameEvent::Identity(Ok(root)),
        ReadyRenameEvent::Done(Ok(())),
        ReadyRenameEvent::Renamed(RenameEvent::Failed("full".to_owned())),
    ] {
        rename = rename.rename_ready(event, root);
    }
    assert_eq!(rename.action(), ReadyRenameAction::SealRoot);
    rename = rename.rename_ready(ReadyRenameEvent::Done(Ok(())), root);
    match rename {
        ReadyRename::Failed(error) => assert_eq!(error.code, "TEMPLATE_IO_FAILED"),
        other => panic!("{other:?}"),
    }
}

fn inputs() -> AcquireInputs {
    AcquireInputs {
        key: KEY.to_owned(),
        volume: "volume".to_owned(),
        manifest: manifest_receipt(),
        building_name: building_name(KEY, 12, 3),
    }
}

#[test]
fn templates_are_built_recorded_and_leased() {
    let mut acquire = Acquire::start();
    let mut commits = 0;
    let mut renamed = false;
    for _ in 0..40 {
        let event = match acquire.action() {
            AcquireAction::ReadRecord => AcquireEvent::Record(Ok(None)),
            AcquireAction::RelistTree | AcquireAction::MaterializeTree => {
                AcquireEvent::Manifest(Ok(manifest_receipt()))
            }
            AcquireAction::SeeNames => {
                if commits == 3 {
                    AcquireEvent::Names(Ok(Some(directory(10, 0o555))), Ok(None))
                } else {
                    AcquireEvent::Names(Ok(None), Ok(None))
                }
            }
            AcquireAction::CommitRecord => {
                commits += 1;
                AcquireEvent::Done(Ok(()))
            }
            AcquireAction::CheckRoot => AcquireEvent::Root(Ok(directory(10, 0o700))),
            AcquireAction::SealTree => AcquireEvent::Sealed(Ok(sealed())),
            AcquireAction::RenameRoot => {
                renamed = true;
                AcquireEvent::Done(Ok(()))
            }
            AcquireAction::Nothing => break,
            _ => AcquireEvent::Done(Ok(())),
        };
        acquire = acquire.acquire(event, &inputs(), UID);
    }
    assert_eq!(commits, 4);
    assert!(renamed);
    match acquire {
        Acquire::Acquired(record) => assert!(record.same(&ready())),
        other => panic!("{other:?}"),
    }
}

#[test]
fn ready_templates_are_checked_again() {
    let acquire = Acquire::start()
        .acquire(AcquireEvent::Record(Ok(Some(ready()))), &inputs(), UID);
    assert_eq!(acquire.action(), AcquireAction::RelistTree);
    let drifted = acquire.acquire(
        AcquireEvent::Manifest(Ok(ManifestReceipt {
            digest: KEY.to_owned(),
            entries: 2,
        })),
        &inputs(),
        UID,
    );
    match drifted {
        Acquire::Failed(error) => assert_eq!(error.code, "TEMPLATE_INPUT_DRIFT"),
        other => panic!("{other:?}"),
    }
    let mut other = inputs();
    other.volume = "far".to_owned();
    match Acquire::start().acquire(AcquireEvent::Record(Ok(Some(ready()))), &other, UID) {
        Acquire::Failed(error) => assert_eq!(error.code, "TEMPLATE_CORRUPT"),
        other => panic!("{other:?}"),
    }
    match Acquire::start().acquire(
        AcquireEvent::Record(Ok(Some(ready().tombstoned()))),
        &inputs(),
        UID,
    ) {
        Acquire::Failed(error) => assert_eq!(error.code, "TEMPLATE_RECOVERY_REQUIRED"),
        other => panic!("{other:?}"),
    }
}

#[test]
fn used_templates_stay() {
    let root = directory(10, 0o555);
    let mut collect = Collect::start(&ready().payload);
    for event in [
        CollectEvent::Done(Ok(())),
        CollectEvent::Done(Ok(())),
        CollectEvent::Done(Ok(())),
    ] {
        collect = collect.complete_template_tombstone(event, root, UID);
    }
    assert_eq!(collect.action(), CollectAction::CountUses);
    collect = collect.complete_template_tombstone(CollectEvent::Used(Ok(true)), root, UID);
    assert!(matches!(collect, Collect::Ended(Ok(false))));
}

#[test]
fn unused_templates_go_under_their_lease() {
    let root = directory(10, 0o555);
    let mut collect = Collect::start(&ready().payload);
    let mut leased = 0;
    for _ in 0..40 {
        let event = match collect.action() {
            CollectAction::LeaseRoot => {
                leased += 1;
                CollectEvent::Done(Ok(()))
            }
            CollectAction::CountUses => CollectEvent::Used(Ok(false)),
            CollectAction::SeeNames => CollectEvent::Names(Ok(Some(root)), Ok(None)),
            CollectAction::RenameRoot => CollectEvent::Renamed(RenameEvent::Done),
            CollectAction::SyncParent => CollectEvent::Synced(Ok(())),
            CollectAction::StatTombstone => CollectEvent::Name(Ok(Some(root))),
            CollectAction::Nothing => break,
            _ => CollectEvent::Done(Ok(())),
        };
        collect = collect.complete_template_tombstone(event, root, UID);
    }
    assert_eq!(leased, 2);
    assert!(matches!(collect, Collect::Ended(Ok(true))));
    assert!(tombstone_stands(Ok(Some(root)), Ok(None), root, true, false));
    assert!(!tombstone_stands(Ok(Some(root)), Ok(Some(root)), root, true, true));
    assert!(tombstone_stands(Ok(None), Ok(None), root, false, false));
}

fn census_name(name: &[u8], record: Option<TemplateRecord>, valid: bool) -> CensusName {
    CensusName {
        name: name.to_vec(),
        record: Ok(record.map(capability)),
        valid,
        predecessor: false,
    }
}

#[test]
fn template_censuses_place_every_name() {
    let name = record_name(KEY);
    let root = root_name(KEY).into_bytes();
    let names = vec![
        census_name(&name, Some(ready()), true),
        census_name(&root, None, false),
    ];
    let census = template_census(&names, true);
    assert!(!census.report.recovery_required);
    assert_eq!(census.capabilities.len(), 1);
    assert_eq!(census.report.entries[0].code, "OK");

    let mut gc = TemplateGc::start(census);
    assert_eq!(gc.action(), GcAction::CollectTemplate(0));
    gc.collect(Ok(false));
    assert_eq!(gc.action(), GcAction::Nothing);
    assert_eq!(gc.report.entries[0].code, "RETAINED");

    let stray = vec![census_name(b"stray", None, false)];
    let census = template_census(&stray, true);
    assert!(census.report.recovery_required);
    let gc = TemplateGc::start(census);
    assert_eq!(gc.action(), GcAction::Nothing);
}

#[test]
fn template_collections_stop_at_a_failure() {
    let name = record_name(KEY);
    let census = || template_census(&vec![census_name(&name, Some(ready()), true)], false);
    let mut gc = TemplateGc::start(census());
    gc.collect(Err(failed()));
    assert!(gc.report.recovery_required);
    assert_eq!(gc.action(), GcAction::Nothing);
    let mut busy = TemplateGc::start(census());
    busy.collect(Err(Error::new("TEMPLATE_BUSY", "leased")));
    assert!(!busy.report.recovery_required);
    assert_eq!(busy.report.entries[0].code, "BUSY");
}

#[test]
fn left_behind_template_records_are_predecessors() {
    let found = |previous: TemplateRecord, current: TemplateRecord| {
        Ok(TemporaryRecord {
            final_name: Some(record_name(KEY)),
            current: Ok(Some(capability(current))),
            previous: Ok(previous),
        })
    };
    assert!(template_predecessor_temporary(found(ready(), ready().tombstoned())).is_ok());
    assert!(template_predecessor_temporary(found(prepared(), ready())).is_err());
    let nameless = TemporaryRecord {
        final_name: None,
        current: Ok(None),
        previous: Err(failed()),
    };
    assert_eq!(
        template_predecessor_temporary(Ok(nameless))
            .expect_err("no name")
            .code,
        "TEMPLATE_RECOVERY_REQUIRED"
    );
    assert!(validate_session_template(Ok(Some(capability(ready()))), KEY, &sealed()).is_ok());
    assert!(validate_session_template(Ok(Some(capability(prepared()))), KEY, &sealed()).is_err());
    assert!(validate_session_template(Ok(None), KEY, &sealed()).is_err());
}

#[test]
fn reports_ask_for_recovery_once() {
    let mut report = MaintenanceReport::blank();
    report.entry("template", b"r", b"p", "READY", "OK");
    assert!(!report.recovery_required);
    report.recovery("template", b"r", b"p", "READY");
    assert!(report.recovery_required);
    assert_eq!(report.entries[1].code, "RECOVERY_REQUIRED");
}
