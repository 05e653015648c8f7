use git_vws::authority::{hex, Authority, Error, Identity, DIRECTORY_TYPE, REGULAR_TYPE};
use git_vws::git::{AuditConfig, ExitReport, Output};

use git_vws::objects::{pack_entry_name, pack_entry_pair};
use git_vws::record_txn::RecordBinding;
use git_vws::session::{
    authority_from_record, authority_path_from_record, bound_record_error, bytes_include,
    decode_hex, encode_event, encode_record, ensure_publish_idle, frozen_publish_fields,
    list_record, loose_path_name, matches_existing, owned_directory, owned_worktree, parse_record,
    publish_committed_recovery, publish_journal_is_idle, publish_recovery, publish_success,
    publish_target, publish_txid, read_record_capability, record_authority_matches,
    record_binding_recovery, record_name, remove_event, retain_creating, root_name, selected_name,
    session_id, session_id_for_binding, session_precedes, session_record_name, tombstone_name,
    tombstone_stage, valid_hash, valid_lower_hash, valid_lower_oid, valid_oid,
    valid_publish_journal, valid_session_name, validate_record, GitMetadataReceipt,
    PublishJournal, SessionPayload, SessionRecord,
};
use git_vws::session_git::{
    add_linked_worktree_command, alternate_entry, audit_authority_config,
    authority_config_is_safe, authority_target_commit, branch_name, check_private_common,
    configured_command, ensure_authority_config, ensure_authority_expected_old,
    ensure_private_target, ensure_publish_relation, ensure_publish_target_unchecked_out,
    git_metadata, import_publish_objects, oid_matches_format, parse_oid_output,
    private_target_commit, publish_relation_command, read_regular_at, resolve_commit,
    resolve_target, resolve_target_command, status_clean, update_publish_ref,
    update_publish_ref_command, validate_branch, verify_authority_closure,
    verify_imported_commit, MetadataSeen, RegularSeen,
};
use git_vws::session_roots::{
    acquire_lease, bind_path, ensure_record_container, open_authorized_root, open_payload_root,
    optional_record, private_git_metadata_directory, ready_binding, registered_worktree,
    remove_empty_directory, required_record, revalidate_record, root_or_tombstone_present, stands,
    verify_runtime_topology, AuthorizedSeen, ContainerSeen, EmptySeen, Standing, TopologySeen,
};
use git_vws::storage::{CowReceipt, ManifestReceipt, SealedTreeReceipt};
use git_vws::template_roots::{LeaseEvent, LeaseStep, NameSeen};
use serde_json::Value;

const UID: u32 = 1000;
const OLD: &str = "1111111111111111111111111111111111111111";
const NEW: &str = "aaaaaaaaaaaaaaaaaaaaaaaaaaaaaaaaaaaaaaaa";
const PATH: &[u8] = b"/git-vws-test-authority";
const SID: &str = "16fc5119c994447e2c3f9927db77df09813fd49ecea7e0777efb6ad5f700f40d";

fn directory() -> Identity {
    Identity {
        dev: 1,
        ino: 1,
        uid: UID,
        mode: 0o700,
        kind: DIRECTORY_TYPE,
        nlink: 2,
    }
}

fn file(ino: u64, mode: u32) -> Identity {
    Identity {
        ino,
        mode,
        kind: REGULAR_TYPE,
        nlink: 1,
        ..directory()
    }
}

fn valid_record() -> SessionRecord {
    let directory = directory();
    let raw_name = b"fixture";
    let sid = session_id_for_binding(PATH, directory, raw_name);
    SessionRecord {
        version: 2,
        sid: sid.clone(),
        authority_path: hex(PATH),
        authority_identity: directory,
        name: hex(raw_name),
        base: "b".repeat(40),
        target: "00".to_owned(),
        expected_old: None,
        template_key: sid.clone(),
        template: SealedTreeReceipt {
            root: Identity {
                mode: 0o555,
                ..directory
            },
            volume: "volume".to_owned(),
            manifest: ManifestReceipt {
                digest: sid.clone(),
                entries: 0,
            },
            content_digest: sid.clone(),
        },
        container_identity: directory,
        volume: "volume".to_owned(),
        payload: SessionPayload::Prepared {
            root_name: root_name(&sid),
        },
        journal: PublishJournal::Idle,
    }
}

fn receipt(sid: &str) -> GitMetadataReceipt {
    GitMetadataReceipt {
        dot_git: sid.to_owned(),
        head: sid.to_owned(),
        target_ref: sid.to_owned(),
        index: sid.to_owned(),
        worktrees: sid.to_owned(),
        alternates: sid.to_owned(),
    }
}

fn ready_record() -> SessionRecord {
    let mut record = valid_record();
    record.target = hex(b"topic");
    let worktree = CowReceipt {
        source: record.template.copy(),
        destination: directory(),
    };
    let git = receipt(&record.sid);
    record
        .materializing(directory())
        .ready(directory(), directory(), worktree, git)
}

fn authority() -> Authority {
    Authority {
        canonical: PATH.to_vec(),
        identity: directory(),
        object_format: "sha1".to_owned(),
        ref_format: "files".to_owned(),
    }
}

fn text(value: &str) -> Value {
    Value::from(value)
}

fn object(fields: Vec<(&str, Value)>) -> Value {
    let mut map = serde_json::Map::new();
    for (name, value) in fields {
        map.insert(name.to_owned(), value);
    }
    Value::from(map)
}

fn identity_json(identity: &Identity) -> Value {
    object(vec![
        ("dev", Value::from(identity.dev)),
        ("ino", Value::from(identity.ino)),
        ("uid", Value::from(identity.uid)),
        ("mode", Value::from(identity.mode)),
        ("kind", Value::from(identity.kind)),
        ("nlink", Value::from(identity.nlink)),
    ])
}

fn sealed_json(sealed: &SealedTreeReceipt) -> Value {
    object(vec![
        ("root", identity_json(&sealed.root)),
        ("volume", text(&sealed.volume)),
        (
            "manifest",
            object(vec![
                ("digest", text(&sealed.manifest.digest)),
                ("entries", Value::from(sealed.manifest.entries)),
            ]),
        ),
        ("content_digest", text(&sealed.content_digest)),
    ])
}

fn payload_json(payload: &SessionPayload) -> Value {
    let (name, fields) = match payload {
        SessionPayload::Prepared { root_name } => {
            ("PREPARED", vec![("root_name", text(root_name))])
        }
        SessionPayload::Materializing {
            root_name,
            root_identity,
        } => (
            "MATERIALIZING",
            vec![
                ("root_name", text(root_name)),
                ("root_identity", identity_json(root_identity)),
            ],
        ),
        SessionPayload::Ready {
            root_name,
            root_identity,
            common_identity,
            worktree,
            git,
        } => (
            "READY",
            vec![
                ("root_name", text(root_name)),
                ("root_identity", identity_json(root_identity)),
                ("common_identity", identity_json(common_identity)),
                (
                    "worktree",
                    object(vec![
                        ("source", sealed_json(&worktree.source)),
                        ("destination", identity_json(&worktree.destination)),
                    ]),
                ),
                (
                    "git",
                    object(vec![
                        ("dot_git", text(&git.dot_git)),
                        ("head", text(&git.head)),
                        ("target_ref", text(&git.target_ref)),
                        ("index", text(&git.index)),
                        ("worktrees", text(&git.worktrees)),
                        ("alternates", text(&git.alternates)),
                    ]),
                ),
            ],
        ),
        SessionPayload::Tombstoned {
            root_name,
            tombstone_name,
            root_identity,
        } => (
            "TOMBSTONED",
            vec![
                ("root_name", text(root_name)),
                ("tombstone_name", text(tombstone_name)),
                ("root_identity", identity_json(root_identity)),
            ],
        ),
    };
    object(vec![(name, object(fields))])
}

fn encoded(record: &SessionRecord) -> Result<Vec<u8>, String> {
    let value = object(vec![
        ("version", Value::from(record.version)),
        ("sid", text(&record.sid)),
        ("authority_path", text(&record.authority_path)),
        ("authority_identity", identity_json(&record.authority_identity)),
        ("name", text(&record.name)),
        ("base", text(&record.base)),
        ("target", text(&record.target)),
        (
            "expected_old",
            match &record.expected_old {
                Some(old) => text(old),
                None => Value::Null,
            },
        ),
        ("template_key", text(&record.template_key)),
        ("template", sealed_json(&record.template)),
        ("container_identity", identity_json(&record.container_identity)),
        ("volume", text(&record.volume)),
        ("payload", payload_json(&record.payload)),
    ]);
    serde_json::to_vec(&value).map_err(|error| error.to_string())
}

fn outbound(record: &SessionRecord) -> Result<Vec<u8>, Error> {
    encode_record(record, encoded(record), UID)
}

fn output(stdout: &[u8], code: i32) -> Output {
    Output {
        stdout: stdout.to_vec(),
        stderr: Vec::new(),
        status: ExitReport {
            code: Some(code),
            signal: None,
        },
    }
}

fn complaining(code: i32) -> Output {
    Output {
        stderr: b"fatal".to_vec(),
        ..output(b"", code)
    }
}

fn failed() -> Error {
    Error::new("SESSION_IO_FAILED", "failed")
}

#[test]
fn session_record_outbound_gate_rejects_invalid_records_in_memory() {
    let record = valid_record();
    let mut empty = record.copy();
    empty.name.clear();
    assert_eq!(
        outbound(&empty).expect_err("empty name accepted").code,
        "SESSION_CORRUPT"
    );
    let mut oversized = record;
    let raw_name = vec![b'n'; 9 * 1024];
    oversized.name = hex(&raw_name);
    let authority_path = authority_path_from_record(&oversized).expect("fixture authority path");
    oversized.sid =
        session_id_for_binding(&authority_path, oversized.authority_identity, &raw_name);
    oversized.payload = SessionPayload::Prepared {
        root_name: root_name(&oversized.sid),
    };
    let error = outbound(&oversized).expect_err("oversized name accepted");
    assert_eq!(error.code, "SESSION_CORRUPT");
    assert!(error.detail.contains("receipt limit"));
}

#[test]
fn session_record_outbound_gate_distinguishes_ready_common_mode_in_memory() {
    let record = valid_record();
    assert!(outbound(&record).is_ok(), "Prepared pass");

    let directory = record.container_identity;
    let mut materializing = record.copy();
    materializing.payload = SessionPayload::Materializing {
        root_name: root_name(&record.sid),
        root_identity: directory,
    };
    assert!(
        outbound(&materializing).is_ok(),
        "Materializing root 0700 pass"
    );

    let mut ready = materializing;
    ready.payload = SessionPayload::Ready {
        root_name: root_name(&record.sid),
        root_identity: directory,
        common_identity: directory,
        worktree: CowReceipt {
            source: record.template.copy(),
            destination: directory,
        },
        git: receipt(&record.sid),
    };
    assert!(outbound(&ready).is_ok(), "Ready common 0700 pass");

    let SessionPayload::Ready {
        common_identity, ..
    } = &mut ready.payload
    else {
        panic!("Ready common mode 0755 setup");
    };
    common_identity.mode = 0o755;
    assert_eq!(
        outbound(&ready)
            .expect_err("Ready common mode 0755 accepted")
            .code,
        "SESSION_CORRUPT",
        "Ready common mode 0755 rejects"
    );
}

#[test]
fn pack_reverse_indexes_are_validated_as_pack_metadata() {
    let oid = "0123456789abcdef0123456789abcdef01234567";
    let rev = format!("pack-{oid}.rev");
    assert!(pack_entry_name(rev.as_bytes(), oid.len()));
    assert_eq!(
        pack_entry_pair(rev.as_bytes()),
        Some(format!("pack-{oid}.pack").into_bytes())
    );
    assert!(!pack_entry_name(b"pack-0123456789abcdef.rev", oid.len()));
}

#[test]
fn session_identifiers_are_digests_of_their_binding() {
    assert_eq!(session_id_for_binding(PATH, directory(), b"fixture"), SID);
    assert_eq!(session_id(&authority(), b"fixture"), SID);
    assert_ne!(session_id_for_binding(PATH, directory(), b"other"), SID);
    assert_ne!(
        session_id_for_binding(b"/git-vws-test-authorityf", directory(), b"ixture"),
        SID
    );
    assert_eq!(root_name("x"), "session-x.root");
    assert_eq!(tombstone_name("x"), "session-x.tombstone");
    assert_eq!(record_name("x"), b"session-x.record".to_vec());
    assert!(session_record_name(b"session-x.record"));
    assert!(!session_record_name(b"session-x.root"));
}

#[test]
fn publications_are_named_after_what_they_freeze() {
    let mut record = valid_record();
    record.target = hex(b"topic");
    let txid = publish_txid(
        &authority(),
        &record,
        b"topic",
        None,
        NEW,
        &"f".repeat(64),
    );
    assert_eq!(
        txid,
        "eb4423081ff71d65ecc32e316f39445db02eb1e77c446ef9a2ba5a6360a6e3de"
    );
    let other = publish_txid(
        &authority(),
        &record,
        b"topic",
        Some(OLD),
        NEW,
        &"f".repeat(64),
    );
    assert_ne!(txid, other);
    assert_eq!(publish_target(&record).expect("target"), b"topic".to_vec());
    record.target = "zz".to_owned();
    assert!(publish_target(&record).is_err());
}

#[test]
fn frozen_fields_are_bound_to_their_record() {
    let record = ready_record();
    let fingerprint = "f".repeat(64);
    let txid = publish_txid(&authority(), &record, b"topic", None, NEW, &fingerprint);
    let journal = |txid: String| PublishJournal::Prepared {
        txid,
        new: NEW.to_owned(),
        expected_old: None,
        config_fingerprint: "f".repeat(64),
    };
    let frozen = record.with_journal(journal(txid));
    assert!(valid_publish_journal(&frozen));
    assert!(!publish_journal_is_idle(&frozen.journal));
    assert_eq!(frozen.journal.state(), "PREPARED");
    let fields = frozen_publish_fields(&authority(), &frozen, b"topic").expect("frozen");
    assert_eq!(fields.new, NEW);
    assert_eq!(
        ensure_publish_idle(&frozen).expect_err("active").code,
        "PUBLISH_RECOVERY_REQUIRED"
    );
    assert!(ensure_publish_idle(&record).is_ok());
    let forged = record.with_journal(journal("0".repeat(64)));
    assert_eq!(
        frozen_publish_fields(&authority(), &forged, b"topic")
            .expect_err("forged")
            .detail,
        "publish journal transaction does not match its record binding"
    );
    assert!(frozen_publish_fields(&authority(), &record, b"topic").is_err());
    assert!(!valid_publish_journal(&valid_record().with_journal(journal("0".repeat(64)))));
    let published = frozen.published(NEW.to_owned());
    assert!(publish_journal_is_idle(&published.journal));
    assert_eq!(published.expected_old.as_deref(), Some(NEW));
    assert_eq!(
        publish_success(&published, NEW),
        format!("published {} {NEW}", hex(b"topic"))
    );
}

#[test]
fn session_records_step_forward() {
    let prepared = valid_record();
    let materializing = prepared.materializing(directory());
    let worktree = CowReceipt {
        source: prepared.template.copy(),
        destination: directory(),
    };
    let ready = materializing.ready(directory(), directory(), worktree, receipt(SID));
    let tombstoned = ready.tombstoned(directory());
    for record in [&prepared, &materializing, &ready, &tombstoned] {
        assert!(validate_record(record, UID).is_ok(), "{record:?}");
        assert!(validate_record(record, UID + 1).is_err());
    }
    assert!(session_precedes(&prepared, &materializing));
    assert!(session_precedes(&materializing, &ready));
    assert!(session_precedes(&ready, &tombstoned));
    assert!(!session_precedes(&prepared, &ready));
    assert!(!session_precedes(&ready, &materializing));
    assert!(matches_existing(&ready, &prepared));
    let mut other = valid_record();
    other.base = "c".repeat(40);
    assert!(!matches_existing(&other, &prepared));
    let mut wrong = valid_record();
    wrong.sid = "0".repeat(64);
    assert_eq!(
        validate_record(&wrong, UID).expect_err("binding").detail,
        "session record does not prove its authority and name binding"
    );
    let mut wrong = valid_record();
    wrong.payload = SessionPayload::Prepared {
        root_name: "elsewhere".to_owned(),
    };
    assert_eq!(
        validate_record(&wrong, UID).expect_err("stage").detail,
        "session stage bindings are invalid"
    );
    let mut wrong = valid_record();
    wrong.volume.clear();
    assert_eq!(
        validate_record(&wrong, UID).expect_err("fields").detail,
        "session record contains invalid fields"
    );
}

#[test]
fn stored_session_records_come_back() {
    let record = valid_record();
    let bytes = outbound(&record).expect("encoded");
    let read = parse_record(Some(record.copy()), encoded(&record), &bytes, UID).expect("parsed");
    assert!(read.same(&record));
    assert!(parse_record(None, encoded(&record), &bytes, UID).is_err());
    let mut longer = bytes.clone();
    longer.push(b' ');
    assert!(parse_record(Some(record.copy()), encoded(&record), &longer, UID).is_err());
    let binding = || RecordBinding {
        bytes: outbound(&valid_record()).expect("encoded"),
        identity: file(4, 0o600),
    };
    let capability = read_record_capability(
        record_name(SID),
        Ok(binding()),
        Some(record.copy()),
        encoded(&record),
        UID,
    )
    .expect("capability");
    assert!(capability.record.same(&record));
    assert!(read_record_capability(
        b"session-other.record".to_vec(),
        Ok(binding()),
        Some(record.copy()),
        encoded(&record),
        UID,
    )
    .is_err());
    assert!(revalidate_record(Ok(capability.copy()), &capability).is_ok());
    let mut moved = capability.copy();
    moved.binding.identity.ino = 9;
    assert!(revalidate_record(Ok(moved), &capability).is_err());
    assert!(record_authority_matches(&record, &authority()));
    assert_eq!(
        authority_from_record(&record).expect("authority").canonical,
        PATH.to_vec()
    );
}

#[test]
fn session_notation_is_strict() {
    assert!(valid_hash(SID) && valid_lower_hash(SID) && !valid_hash("12"));
    assert!(valid_oid(OLD) && valid_lower_oid(NEW));
    assert!(!valid_lower_oid(&"A".repeat(40)) && valid_oid(&"A".repeat(40)));
    assert!(valid_session_name(b"fixture"));
    for name in [b"".as_slice(), b"a\0"] {
        assert!(!valid_session_name(name));
    }
    assert_eq!(decode_hex("00ff").expect("bytes"), vec![0, 255]);
    assert!(decode_hex("0").is_err() && decode_hex("zz").is_err());
    assert_eq!(
        selected_name(Some(b"fixture".to_vec()), None).expect("raw"),
        selected_name(None, Some(hex(b"fixture"))).expect("hex")
    );
    for (raw, text) in [
        (None, None),
        (Some(b"a".to_vec()), Some("61".to_owned())),
        (None, Some("6".to_owned())),
        (None, Some("00".to_owned())),
        (Some(b"a\0".to_vec()), None),
    ] {
        assert_eq!(selected_name(raw, text).expect_err("usage").code, "SESSION_USAGE");
    }
    assert!(bytes_include(b"abc", b"bc") && !bytes_include(b"abc", b"ac"));
    assert!(owned_directory(directory(), UID) && !owned_worktree(directory(), UID));
    assert_eq!(
        loose_path_name(&valid_record(), b"ab", Some(b"cd")),
        format!("session-{SID}.root/common.git/objects/ab/cd").into_bytes()
    );
    assert_eq!(tombstone_stage("gc", "owned-tree-removed"), "session-owned-tree-removed");
    assert_eq!(tombstone_stage("remove", "owned-tree-removed"), "owned-tree-removed");
}

#[test]
fn session_errors_tell_their_boundary() {
    assert_eq!(
        publish_recovery(failed()).detail,
        "publish journal outcome requires recovery: failed"
    );
    assert_eq!(
        publish_committed_recovery(failed()).code,
        "PUBLISH_COMMITTED_RECOVERY_REQUIRED"
    );
    assert_eq!(
        record_binding_recovery(failed(), "boundary").code,
        "SESSION_RECOVERY_REQUIRED"
    );
    assert_eq!(
        bound_record_error(Error::new("RECORD_RECOVERY_REQUIRED", "x"), "boundary").code,
        "SESSION_RECOVERY_REQUIRED"
    );
    assert!(retain_creating(&Error::new("GIT_PROBE_FAILED", "x")));
    assert!(retain_creating(&failed()));
    assert!(retain_creating(&Error::new("SESSION_CORRUPT", "cannot sync")));
    assert!(!retain_creating(&Error::new("SESSION_CORRUPT", "x")));
    assert_eq!(encode_event(Ok("{}".to_owned())).expect("line"), "{}");
    assert_eq!(
        encode_event(Err("x".to_owned())).expect_err("words").detail,
        "cannot encode remove event: x"
    );
    let event = remove_event(&authority(), b"fixture");
    assert_eq!((event.version, event.name_hex), (1, hex(b"fixture")));
    let listed = list_record(&valid_record(), b"/state/sessions");
    assert_eq!((listed.state, listed.publish_state), ("CREATING", "IDLE"));
    assert_eq!(
        listed.managed_path_hex,
        hex(format!("/state/sessions/session-{SID}.root").as_bytes())
    );
}

#[test]
fn git_answers_are_read_strictly() {
    let line = format!("{NEW}\n");
    assert_eq!(parse_oid_output(line.as_bytes(), "sha1").expect("oid"), NEW);
    assert!(parse_oid_output(NEW.as_bytes(), "sha1").is_err());
    assert!(parse_oid_output(line.as_bytes(), "sha256").is_err());
    assert!(oid_matches_format(NEW, "sha1") && !oid_matches_format(NEW, "sha256"));
    assert_eq!(
        resolve_target(Ok(output(line.as_bytes(), 0)), "sha1").expect("target"),
        Some(NEW.to_owned())
    );
    assert_eq!(resolve_target(Ok(output(b"", 1)), "sha1").expect("none"), None);
    assert!(resolve_target(Ok(complaining(1)), "sha1").is_err());
    assert_eq!(
        resolve_commit(Ok(output(b"", 1)), "sha1").expect_err("base").code,
        "BASE_INVALID"
    );
    assert_eq!(
        validate_branch(Ok(output(b"", 1))).expect_err("branch").code,
        "TARGET_INVALID"
    );
    assert_eq!(branch_name(b"topic"), b"refs/heads/topic".to_vec());
    let reference = |kind: &str| format!("refs/heads/topic {NEW} {kind} \n");
    assert_eq!(
        authority_target_commit(Ok(output(reference("commit").as_bytes(), 0)), b"topic", "sha1")
            .expect("commit"),
        Some(NEW.to_owned())
    );
    assert!(
        authority_target_commit(Ok(output(reference("tag").as_bytes(), 0)), b"topic", "sha1")
            .is_err()
    );
    assert_eq!(
        authority_target_commit(Ok(output(b"", 0)), b"topic", "sha1").expect("absent"),
        None
    );
    assert!(private_target_commit(Ok(output(b"", 0)), b"topic", "sha1").is_err());
    let found = || Ok(output(reference("commit").as_bytes(), 0));
    assert!(ensure_private_target(found(), b"topic", "sha1", NEW).is_ok());
    assert!(ensure_private_target(found(), b"topic", "sha1", OLD).is_err());
    assert!(ensure_authority_expected_old(found(), b"topic", "sha1", Some(NEW)).is_ok());
    assert!(ensure_authority_expected_old(found(), b"topic", "sha1", None).is_err());
}

#[test]
fn publications_need_a_safe_authority() {
    let row = |key: &str| format!("local\0file:config\0{key}\nfalse\0").into_bytes();
    assert_eq!(
        audit_authority_config(Ok(output(&row("core.bare"), 0))).expect("safe"),
        "bfc7eb1f2264e7a0dbdfd05d686ee86fdcfa8e61e98547eb9158f11008b0558c"
    );
    for key in ["include.path", "url.x.insteadof", "remote.o.promisor", "fsck.skiplist"] {
        assert!(!authority_config_is_safe(&row(key)), "{key}");
    }
    assert!(ensure_authority_config("a", "a").is_ok());
    assert_eq!(
        ensure_authority_config("a", "b").expect_err("changed").code,
        "PUBLISH_VERIFY_FAILED"
    );
    let listing = b"worktree /w\nHEAD x\nbranch refs/heads/topic\n\n";
    assert_eq!(
        ensure_publish_target_unchecked_out(Ok(output(listing, 0)), b"topic")
            .expect_err("checked out")
            .code,
        "PUBLISH_TARGET_CHECKED_OUT"
    );
    assert!(ensure_publish_target_unchecked_out(Ok(output(listing, 0)), b"top").is_ok());
    assert!(ensure_publish_relation(Ok(output(b"", 0))).is_ok());
    assert_eq!(
        ensure_publish_relation(Ok(output(b"", 1)))
            .expect_err("no ancestor")
            .code,
        "PUBLISH_NON_FAST_FORWARD"
    );
    assert!(import_publish_objects(Ok(complaining(0))).is_ok());
    assert_eq!(
        import_publish_objects(Ok(output(b"", 1)))
            .expect_err("import")
            .code,
        "PUBLISH_IMPORT_FAILED"
    );
    assert!(verify_imported_commit(Ok(complaining(0))).is_err());
    assert!(verify_authority_closure(Ok(output(b"", 0))).is_ok());
    assert!(!update_publish_ref(Ok(output(b"", 1))).expect("refused"));
    assert!(publish_relation_command(b"/c", None, NEW).is_none());
    assert!(publish_relation_command(b"/c", Some(NEW), NEW).is_none());
    let command = publish_relation_command(b"/c", Some(OLD), NEW).expect("relation");
    assert_eq!(
        command.args,
        ["merge-base", "--is-ancestor", OLD, NEW].map(|arg| arg.as_bytes().to_vec())
    );
    let command = update_publish_ref_command(&authority(), b"topic", NEW, None);
    assert_eq!(command.args[6], "0".repeat(40).into_bytes());
    let command = resolve_target_command(&authority(), b"topic");
    assert_eq!(command.directory, Some(PATH.to_vec()));
    assert!(matches!(command.audit, AuditConfig::Isolated));
}

#[test]
fn private_repositories_are_set_up_by_git() {
    assert_eq!(alternate_entry(b"/o").expect("entry"), b"/o\n".to_vec());
    assert!(alternate_entry(b"/o\n").is_err());
    assert!(check_private_common(Ok(output(b"true\n", 0))).is_ok());
    assert!(check_private_common(Ok(output(b"false\n", 0))).is_err());
    assert_eq!(
        status_clean(Ok(output(b"?? a\0", 0))).expect_err("dirty").code,
        "SESSION_DIRTY"
    );
    let command = configured_command(b"/c", "core.symlinks");
    assert!(command.args.contains(&b"core.symlinks".to_vec()));
    let command = add_linked_worktree_command(b"/c", b"/w", b"topic", NEW);
    assert!(command.args.contains(&NEW.as_bytes().to_vec()));
}

fn regular(bytes: &[u8]) -> RegularSeen {
    RegularSeen {
        before: Ok(file(3, 0o600)),
        opened: Ok(Ok(file(3, 0o600))),
        bytes: Ok(bytes.to_vec()),
        descriptor: Ok(file(3, 0o600)),
        after: Ok(file(3, 0o600)),
    }
}

#[test]
fn metadata_is_read_from_files_that_stand_still() {
    assert_eq!(
        read_regular_at(regular(b"x"), "file", UID).expect("bytes"),
        b"x".to_vec()
    );
    let mut moved = regular(b"x");
    moved.after = Ok(file(4, 0o600));
    assert_eq!(
        read_regular_at(moved, "file", UID).expect_err("moved").detail,
        "file changed while reading"
    );
    let mut link = regular(b"x");
    link.before = Ok(directory());
    assert!(read_regular_at(link, "file", UID).is_err());
    assert!(read_regular_at(regular(&vec![b'x'; 16385]), "file", UID).is_err());
    let seen = MetadataSeen {
        dot_git: regular(b"a"),
        head: Ok(output(b"b", 0)),
        target_ref: Ok(output(b"c", 0)),
        index: Ok(output(b"d", 0)),
        worktrees: Ok(output(b"e", 0)),
        objects: Ok(()),
        info: Ok(()),
        alternates: regular(b"f"),
    };
    let receipt = git_metadata(seen, UID).expect("receipt");
    assert_eq!(
        receipt.dot_git,
        "ca978112ca1bbdcafac231b39a23dc4da786eff8147c4e72b9807785afee48bb"
    );
    assert_eq!(
        receipt.alternates,
        "252f10c83610ebca1a059c0bae8255eba2f95be4d1d7bcfa89d7248a82d9f111"
    );
}

fn container() -> ContainerSeen {
    ContainerSeen {
        identity: Ok(directory()),
        volume: Ok("volume".to_owned()),
    }
}

#[test]
fn session_roots_are_bound_to_their_records() {
    let record = ready_record();
    assert!(ensure_record_container(container(), &record, UID).is_ok());
    let mut far = container();
    far.volume = Ok("far".to_owned());
    assert_eq!(
        ensure_record_container(far, &record, UID).expect_err("far").code,
        "SESSION_RECOVERY_REQUIRED"
    );
    let seen = |ino: u64| AuthorizedSeen {
        container: container(),
        opened: Ok(()),
        entry: Ok(Identity { ino, ..directory() }),
        descriptor: Ok(directory()),
        volume: Ok("volume".to_owned()),
    };
    let name = root_name(SID);
    assert!(open_authorized_root(seen(1), &record, &name, directory(), UID).is_ok());
    assert!(open_authorized_root(seen(2), &record, &name, directory(), UID).is_err());
    let materializing = valid_record().materializing(directory());
    assert_eq!(open_payload_root(&materializing).expect("payload").0, name);
    let tombstoned = ready_record().tombstoned(directory());
    assert_eq!(
        open_payload_root(&tombstoned).expect("payload").0,
        tombstone_name(SID)
    );
    assert!(open_payload_root(&record).is_err());
    assert!(root_or_tombstone_present(NameSeen::Absent, NameSeen::Found(directory()))
        .expect("present"));
    assert!(!root_or_tombstone_present(NameSeen::Absent, NameSeen::Absent).expect("absent"));
    assert!(bind_path(Ok(directory()), Ok(directory()), "root").is_ok());
    assert!(bind_path(Ok(file(8, 0o600)), Ok(directory()), "root").is_err());
    assert!(matches!(stands(Some(directory()), None, directory()), Standing::Root));
    assert!(matches!(stands(None, Some(directory()), directory()), Standing::Tombstone));
    assert!(matches!(stands(None, None, directory()), Standing::Gone));
    assert!(matches!(
        stands(Some(directory()), Some(directory()), directory()),
        Standing::Unclear
    ));
    assert!(matches!(acquire_lease(LeaseEvent::Locked, true), LeaseStep::Leased));
    match acquire_lease(LeaseEvent::WouldBlock("x".to_owned()), true) {
        LeaseStep::Failed(error) => assert_eq!(error.code, "SESSION_BUSY"),
        other => panic!("{other:?}"),
    }
}

#[test]
fn session_records_are_found_by_name() {
    assert!(optional_record(b"fixture", NameSeen::Absent, Err(failed()), &authority())
        .expect("absent")
        .is_none());
    assert_eq!(
        required_record(b"fixture", NameSeen::Absent, Err(failed()), &authority())
            .expect_err("absent")
            .code,
        "SESSION_ABSENT"
    );
}

#[test]
fn ready_bindings_hold_their_paths() {
    let binding = ready_binding(&ready_record(), &authority(), b"/state").expect("binding");
    assert_eq!(
        binding.worktree_path,
        format!("/state/session-{SID}.root/worktree").into_bytes()
    );
    assert_eq!(
        binding.common_path,
        format!("/state/session-{SID}.root/common.git").into_bytes()
    );
    assert!(ready_binding(&valid_record(), &authority(), b"/state").is_err());
}

fn topology() -> TopologySeen {
    TopologySeen {
        dot_git: Ok(b"gitdir: /s/common.git/worktrees/w\n".to_vec()),
        common: Ok(directory()),
        common_volume: Ok("volume".to_owned()),
        worktrees: Ok(directory()),
        worktrees_volume: Ok("volume".to_owned()),
        metadata: Ok(directory()),
        metadata_volume: Ok("volume".to_owned()),
        gitdir: Ok(b"/s/worktree/.git\n".to_vec()),
        commondir: Ok(b"../..\n".to_vec()),
        parent_opened: Ok(()),
        ancestor_opened: Ok(()),
        parent: Ok(directory()),
        ancestor: Ok(directory()),
        objects: Ok(()),
        info: Ok(()),
        alternates: Ok(b"/git-vws-test-authority/objects\n".to_vec()),
        worktrees_entry: Ok(directory()),
        worktrees_again: Ok(directory()),
        metadata_entry: Ok(directory()),
        metadata_again: Ok(directory()),
    }
}

#[test]
fn linked_worktrees_lead_back_to_their_session() {
    assert_eq!(
        registered_worktree(b"gitdir: /s/common.git/worktrees/w\n", b"/s/common.git")
            .expect("name"),
        b"w".to_vec()
    );
    assert!(registered_worktree(b"gitdir: /else/worktrees/w\n", b"/s/common.git").is_err());
    let verify = |seen: TopologySeen| {
        verify_runtime_topology(seen, b"/s/common.git", b"/s/worktree", &authority(), UID)
    };
    let checked = verify(topology());
    assert!(checked.is_ok(), "{checked:?}");
    let mut other = topology();
    other.alternates = Ok(b"/elsewhere/objects\n".to_vec());
    assert!(verify(other).is_err());
    let mut other = topology();
    other.commondir = Ok(b"..\n".to_vec());
    assert!(verify(other).is_err());
    assert!(private_git_metadata_directory(directory(), UID));
}

#[test]
fn only_empty_directories_are_removed() {
    let seen = |names: Vec<Vec<u8>>| EmptySeen {
        entry: Ok(directory()),
        opened: Ok(()),
        descriptor: Ok(directory()),
        names: Ok(names),
    };
    assert!(remove_empty_directory(seen(vec![]), b"t", directory(), "template", UID).is_ok());
    assert!(
        remove_empty_directory(seen(vec![b"x".to_vec()]), b"t", directory(), "template", UID)
            .is_err()
    );
}
