use git_vws::authority::{hex, Authority, Error, Identity, DIRECTORY_TYPE, REGULAR_TYPE};
use git_vws::creation::{Create, CreateAction, CreateEvent, CreateRequest, SessionsSeen};
use git_vws::git::{ExitReport, Output};
use git_vws::materializing::{Making, MakingAction, MakingEvent};
use git_vws::record_txn::RecordBinding;
use git_vws::session::{
    record_name, root_name, session_id_for_binding, validate_record, GitMetadataReceipt,
    PublishJournal, RecordCapability, SessionPayload, SessionRecord,
};
use git_vws::session_git::{AlternateWritten, MetadataSeen, RegularSeen};
use git_vws::session_roots::{ready_binding, EmptySeen};
use git_vws::storage::{CowReceipt, ManifestReceipt, SealedTreeReceipt};

const UID: u32 = 1000;
const PATH: &[u8] = b"/git-vws-test-authority";

fn directory() -> Identity {
    Identity {
        dev: 1,
        ino: 1,
        uid: UID,
        mode: 0o700,
        kind: DIRECTORY_TYPE,
        nlink: 2,
    }
}

fn authority() -> Authority {
    Authority {
        canonical: PATH.to_vec(),
        identity: directory(),
        object_format: "sha1".to_owned(),
        ref_format: "files".to_owned(),
    }
}

fn prepared() -> SessionRecord {
    let sid = session_id_for_binding(PATH, directory(), b"fixture");
    SessionRecord {
        version: 2,
        sid: sid.clone(),
        authority_path: hex(PATH),
        authority_identity: directory(),
        name: hex(b"fixture"),
        base: "b".repeat(40),
        target: hex(b"topic"),
        expected_old: None,
        template_key: sid.clone(),
        template: SealedTreeReceipt {
            root: Identity {
                mode: 0o555,
                ..directory()
            },
            volume: "volume".to_owned(),
            manifest: ManifestReceipt {
                digest: sid.clone(),
                entries: 0,
            },
            content_digest: sid.clone(),
        },
        container_identity: directory(),
        volume: "volume".to_owned(),
        payload: SessionPayload::Prepared {
            root_name: root_name(&sid),
        },
        journal: PublishJournal::Idle,
    }
}

fn receipt() -> GitMetadataReceipt {
    let digest = || "0".repeat(64);
    GitMetadataReceipt {
        dot_git: digest(),
        head: digest(),
        target_ref: digest(),
        index: digest(),
        worktrees: digest(),
        alternates: digest(),
    }
}

fn ready() -> SessionRecord {
    let record = prepared();
    let worktree = CowReceipt {
        source: record.template.copy(),
        destination: directory(),
    };
    record
        .materializing(directory())
        .ready(directory(), directory(), worktree, receipt())
}

fn capability(record: SessionRecord) -> RecordCapability {
    RecordCapability {
        basename: record_name(&record.sid),
        record,
        binding: RecordBinding {
            bytes: b"bytes".to_vec(),
            identity: Identity {
                ino: 5,
                mode: 0o600,
                kind: REGULAR_TYPE,
                nlink: 1,
                ..directory()
            },
        },
    }
}

fn output(stdout: &[u8], code: i32) -> Output {
    Output {
        stdout: stdout.to_vec(),
        stderr: Vec::new(),
        status: ExitReport {
            code: Some(code),
            signal: None,
        },
    }
}

fn regular(bytes: &[u8]) -> RegularSeen {
    let file = Identity {
        ino: 6,
        mode: 0o600,
        kind: REGULAR_TYPE,
        nlink: 1,
        ..directory()
    };
    RegularSeen {
        before: Ok(file),
        opened: Ok(Ok(file)),
        bytes: Ok(bytes.to_vec()),
        descriptor: Ok(file),
        after: Ok(file),
    }
}

fn worktree() -> Identity {
    Identity {
        ino: 8,
        mode: 0o755,
        ..directory()
    }
}

/// Makes a session, with what Git says of the new worktree and of the clone; tells what was asked for.
fn make(status: &[u8], cloned: Option<Error>) -> (Vec<String>, Making) {
    let record = prepared();
    let template = record.template.copy();
    let making = Making::start(
        &authority(),
        capability(record),
        b"topic".to_vec(),
        "b".repeat(40),
        template,
        b"/state/root".to_vec(),
        directory(),
    );
    run_making(making, status, cloned)
}

fn run_making(start: Making, status: &[u8], cloned: Option<Error>) -> (Vec<String>, Making) {
    let mut making = start;
    let mut cloned = cloned;
    let mut asked = Vec::new();
    let mut current = capability(prepared());
    for _ in 0..60 {
        let action = making.action();
        let name = format!("{action:?}");
        let name = name.split(['(', ' ']).next().expect("name").to_owned();
        let event = match action {
            MakingAction::Run(command) => {
                let has = |word: &str| command.args.iter().any(|arg| arg == word.as_bytes());
                if has("status") {
                    MakingEvent::Ran(Ok(output(status, 0)))
                } else if has("config") {
                    MakingEvent::Ran(Ok(output(b"true\n", 0)))
                } else {
                    MakingEvent::Ran(Ok(output(b"", 0)))
                }
            }
            MakingAction::Persist(record) => {
                assert!(validate_record(&record, UID).is_ok());
                current = capability(record);
                MakingEvent::Persisted(Ok(current.copy()))
            }
            MakingAction::Bind(_) => MakingEvent::Bound(Ok(directory()), Ok(directory())),
            MakingAction::MakeTemplate => MakingEvent::Made(Ok(directory())),
            MakingAction::OpenCommon => MakingEvent::CommonOpened {
                opened: Ok(()),
                protected: Ok(()),
                identity: Ok(directory()),
            },
            MakingAction::LookAtTemplate => MakingEvent::Empty(EmptySeen {
                entry: Ok(directory()),
                opened: Ok(()),
                descriptor: Ok(directory()),
                names: Ok(vec![]),
            }),
            MakingAction::RemoveTemplate => MakingEvent::Removed {
                unlinked: Ok(()),
                synced: Ok(()),
            },
            MakingAction::WriteAlternate(line) => {
                assert_eq!(line, b"/git-vws-test-authority/objects\n".to_vec());
                MakingEvent::Alternate(AlternateWritten {
                    objects: Ok(()),
                    info: Ok(()),
                    created: Ok(()),
                    written: Ok(()),
                    synced: Ok(()),
                })
            }
            MakingAction::OpenWorktree => MakingEvent::WorktreeOpened {
                worktree: Ok(worktree()),
                template: Ok(prepared().template.root),
                root: Ok(directory()),
            },
            MakingAction::Clone => match cloned.take() {
                Some(error) => MakingEvent::Cloned(Err(error), Ok(worktree())),
                None => MakingEvent::Cloned(
                    Ok(CowReceipt {
                        source: prepared().template,
                        destination: worktree(),
                    }),
                    Ok(worktree()),
                ),
            },
            MakingAction::SyncCommon | MakingAction::SyncWorktree => MakingEvent::Synced(Ok(())),
            MakingAction::SyncRoot | MakingAction::SyncSessions => {
                MakingEvent::DirectorySynced(Ok(()))
            }
            MakingAction::ReadRecord => MakingEvent::Read(Ok(current.copy())),
            MakingAction::LookAtRoot => MakingEvent::Identity(Ok(directory())),
            MakingAction::LookAtMetadata => MakingEvent::Metadata(
                Ok(directory()),
                MetadataSeen {
                    dot_git: regular(b"a"),
                    head: Ok(output(b"b", 0)),
                    target_ref: Ok(output(b"c", 0)),
                    index: Ok(output(b"d", 0)),
                    worktrees: Ok(output(b"e", 0)),
                    objects: Ok(()),
                    info: Ok(()),
                    alternates: regular(b"f"),
                },
            ),
            MakingAction::RemoveTree | MakingAction::RemoveRecord => MakingEvent::Done(Ok(())),
            MakingAction::Nothing => break,
        };
        asked.push(name);
        making = making.materialize_session(event, UID);
    }
    (asked, making)
}

#[test]
fn made_sessions_are_recorded_last() {
    let (asked, making) = make(b"", None);
    let path = making.outcome().expect("ended").expect("made");
    assert_eq!(path, b"/state/root".to_vec());
    assert_eq!(asked.last().map(String::as_str), Some("Persist"));
    assert!(!asked.iter().any(|name| name == "RemoveTree"));
    match making.capability.record.payload {
        SessionPayload::Ready { worktree: made, .. } => assert_eq!(made.destination, worktree()),
        other => panic!("{other:?}"),
    }
}

#[test]
fn failed_makings_are_taken_back() {
    let (asked, making) = make(b"?? a\0", None);
    assert_eq!(
        making.outcome().expect("ended").expect_err("dirty").code,
        "SESSION_DIRTY"
    );
    assert_eq!(asked[asked.len() - 3..], ["ReadRecord", "RemoveTree", "RemoveRecord"]);
}

#[test]
fn makings_that_may_be_needed_are_kept() {
    let error = Error::new("STORAGE_IO_FAILED", "cannot clone");
    let (asked, making) = make(b"", Some(error));
    assert_eq!(
        making.outcome().expect("ended").expect_err("clone").code,
        "STORAGE_IO_FAILED"
    );
    assert!(!asked.iter().any(|name| name == "RemoveTree"));
}

fn request(target: Option<&[u8]>) -> CreateRequest {
    CreateRequest {
        name: b"fixture".to_vec(),
        from: None,
        target: target.map(<[u8]>::to_vec),
        path: None,
    }
}

/// Creates a session where `found` stands under its name.
fn create(found: Option<SessionRecord>, volume: &str) -> (Vec<String>, Result<Vec<u8>, Error>) {
    let mut create = Create::start(&authority(), request(Some(b"topic")));
    let mut asked = Vec::new();
    let line = |oid: &str| output(format!("{oid}\n").as_bytes(), 0);
    for _ in 0..30 {
        let action = create.action();
        let name = format!("{action:?}");
        let name = name.split(['(', ' ']).next().expect("name").to_owned();
        let event = match action {
            CreateAction::Run(command) => {
                let tree = command
                    .args
                    .iter()
                    .any(|arg| arg.ends_with(b"^{tree}"));
                let branch = command.args.iter().any(|arg| arg == b"check-ref-format");
                let head = command.args.iter().any(|arg| arg.ends_with(b"^{commit}"));
                CreateEvent::Ran(Ok(if branch {
                    output(b"topic\n", 0)
                } else if tree {
                    line(&"c".repeat(40))
                } else if head && asked.len() > 1 {
                    line(&"b".repeat(40))
                } else {
                    output(b"", 1)
                }))
            }
            CreateAction::Acquire(tree) => {
                assert_eq!(tree, "c".repeat(40));
                CreateEvent::Acquired(Ok((prepared().template_key, prepared().template)))
            }
            CreateAction::OpenSessions => CreateEvent::Sessions(SessionsSeen {
                opened: Ok(()),
                identity: Ok(directory()),
                volume: Ok(volume.to_owned()),
                path: Ok(b"/state".to_vec()),
                entry: Ok(directory()),
                bound: Ok(directory()),
            }),
            CreateAction::FindRecord => {
                CreateEvent::Found(Ok(found.as_ref().map(|record| capability(record.copy()))))
            }
            CreateAction::LoadReady => CreateEvent::Loaded(ready_binding(
                &ready(),
                &authority(),
                b"/state",
            )),
            CreateAction::CreateRecord(record) => {
                assert!(record.same(&prepared()), "{record:?}");
                assert!(validate_record(&record, UID).is_ok());
                CreateEvent::Recorded(Ok(capability(record)))
            }
            CreateAction::CreateRoot => CreateEvent::Made(Ok(directory())),
            CreateAction::Make => {
                let (_, making) = run_making(create.making().expect("making"), b"", None);
                let record = &making.capability.record;
                assert!(matches!(record.payload, SessionPayload::Ready { .. }));
                assert_eq!(record.name, hex(b"fixture"));
                assert_eq!(record.target, hex(b"topic"));
                assert_eq!(record.base, "b".repeat(40));
                assert_eq!(record.expected_old, None);
                CreateEvent::Finished(making.outcome().expect("ended"))
            }
            CreateAction::Nothing => break,
        };
        asked.push(name);
        create = create.create(event);
    }
    (asked, create.outcome().expect("ended"))
}

#[test]
fn sessions_are_created_once() {
    let root = format!("/state/{}", root_name(&prepared().sid)).into_bytes();
    let (asked, outcome) = create(None, "volume");
    assert_eq!(outcome.expect("created"), root);
    assert_eq!(asked.last().map(String::as_str), Some("Make"));

    let (asked, outcome) = create(Some(ready()), "volume");
    assert_eq!(outcome.expect("existing"), root);
    assert!(!asked.iter().any(|name| name == "Make" || name == "CreateRecord"));
}

#[test]
fn other_sessions_of_the_name_are_left_alone() {
    let mut other = ready();
    other.base = "d".repeat(40);
    let code = |found: SessionRecord| create(Some(found), "volume").1.expect_err("refused").code;
    assert_eq!(code(other), "SESSION_EXISTS");
    assert_eq!(code(prepared()), "SESSION_INCOMPLETE");
    assert_eq!(code(prepared().materializing(directory())), "SESSION_INCOMPLETE");
    assert_eq!(code(ready().tombstoned(directory())), "SESSION_RECOVERY_REQUIRED");
    assert_eq!(
        create(None, "far").1.expect_err("far").code,
        "STORAGE_UNSUPPORTED"
    );
    let create = Create::start(&authority(), request(Some(b"-x")));
    assert_eq!(
        create.outcome().expect("ended").expect_err("branch").code,
        "TARGET_INVALID"
    );
}
