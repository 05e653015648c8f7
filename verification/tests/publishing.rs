use git_vws::authority::{hex, Authority, Error, Identity, DIRECTORY_TYPE, REGULAR_TYPE};
use git_vws::burial::{Burial, BurialAction, BurialEvent};
use git_vws::discard::{
    ensure_discard_safe, ensure_no_unreachable_private_closure, ensure_private_object_store_empty,
    ensure_private_refs_safe, git_safe_unborn_head, unborn_head, ClosureSeen, DiscardSeen,
    RefsSeen, StoreSeen,
};
use git_vws::entry::{
    exec, maintenance_context, optional_session_context, session_context, sessions_for_read,
    ContextSeen, Entry, EntryAction, EntryEvent, Purpose,
};
use git_vws::git::{ExitReport, Output};
use git_vws::publish::{Publish, PublishAction, PublishEvent};
use git_vws::record_txn::{RecordBinding, RenameEvent};
use git_vws::remove::{transition_tombstone, Remove, RemoveAction, RemoveEvent};
use git_vws::session::{
    publish_txid, record_name, root_name, session_id_for_binding, GitMetadataReceipt,
    PublishJournal, RecordCapability, SessionPayload, SessionRecord,
};
use git_vws::session_roots::{
    ready_binding, AuthorizedSeen, ContainerSeen, LeasedSeen, ReadyBinding,
};
use git_vws::storage::{CowReceipt, ManifestReceipt, SealedTreeReceipt};
use git_vws::template_roots::{LeaseEvent, NameSeen};

const OLD: &str = "1111111111111111111111111111111111111111";
const NEW: &str = "aaaaaaaaaaaaaaaaaaaaaaaaaaaaaaaaaaaaaaaa";
const CONFIG: &[u8] = b"local\0file:config\0core.bare\nfalse\0";
const UID: u32 = 1000;
const PATH: &[u8] = b"/git-vws-test-authority";

fn directory() -> Identity {
    Identity {
        dev: 1,
        ino: 1,
        uid: UID,
        mode: 0o700,
        kind: DIRECTORY_TYPE,
        nlink: 2,
    }
}

fn authority() -> Authority {
    Authority {
        canonical: PATH.to_vec(),
        identity: directory(),
        object_format: "sha1".to_owned(),
        ref_format: "files".to_owned(),
    }
}

fn prepared() -> SessionRecord {
    let sid = session_id_for_binding(PATH, directory(), b"fixture");
    SessionRecord {
        version: 2,
        sid: sid.clone(),
        authority_path: hex(PATH),
        authority_identity: directory(),
        name: hex(b"fixture"),
        base: "b".repeat(40),
        target: hex(b"topic"),
        expected_old: None,
        template_key: sid.clone(),
        template: SealedTreeReceipt {
            root: Identity {
                mode: 0o555,
                ..directory()
            },
            volume: "volume".to_owned(),
            manifest: ManifestReceipt {
                digest: sid.clone(),
                entries: 0,
            },
            content_digest: sid.clone(),
        },
        container_identity: directory(),
        volume: "volume".to_owned(),
        payload: SessionPayload::Prepared {
            root_name: root_name(&sid),
        },
        journal: PublishJournal::Idle,
    }
}

fn receipt() -> GitMetadataReceipt {
    let digest = || "0".repeat(64);
    GitMetadataReceipt {
        dot_git: digest(),
        head: digest(),
        target_ref: digest(),
        index: digest(),
        worktrees: digest(),
        alternates: digest(),
    }
}

fn ready() -> SessionRecord {
    let record = prepared();
    let worktree = CowReceipt {
        source: record.template.copy(),
        destination: directory(),
    };
    record
        .materializing(directory())
        .ready(directory(), directory(), worktree, receipt())
}

fn capability(record: SessionRecord) -> RecordCapability {
    RecordCapability {
        basename: record_name(&record.sid),
        record,
        binding: RecordBinding {
            bytes: b"bytes".to_vec(),
            identity: Identity {
                ino: 5,
                mode: 0o600,
                kind: REGULAR_TYPE,
                nlink: 1,
                ..directory()
            },
        },
    }
}

fn output(stdout: &[u8], code: i32) -> Output {
    Output {
        stdout: stdout.to_vec(),
        stderr: Vec::new(),
        status: ExitReport {
            code: Some(code),
            signal: None,
        },
    }
}

fn failed() -> Error {
    Error::new("SESSION_IO_FAILED", "failed")
}

/// A pair of repositories: what the branch points at in each, and whether Git swaps it.
struct Repositories {
    authority: Option<String>,
    private: String,
    ancestor: bool,
    swaps: bool,
    persisted: Vec<&'static str>,
    updates: usize,
    written: Option<SessionRecord>,
}

impl Repositories {
    fn new(authority: Option<&str>) -> Self {
        Repositories {
            authority: authority.map(str::to_owned),
            private: NEW.to_owned(),
            ancestor: true,
            swaps: true,
            persisted: Vec::new(),
            updates: 0,
            written: None,
        }
    }

    fn answer(&mut self, args: &Vec<Vec<u8>>, isolated: bool) -> Output {
        let has = |word: &str| args.iter().any(|arg| arg.as_slice() == word.as_bytes());
        let reference = |oid: &str| output(format!("refs/heads/topic {oid} commit \n").as_bytes(), 0);
        if has("config") {
            output(CONFIG, 0)
        } else if has("for-each-ref") && isolated {
            reference(&self.private)
        } else if has("for-each-ref") {
            match &self.authority {
                Some(oid) => reference(oid),
                None => output(b"", 0),
            }
        } else if has("merge-base") {
            output(b"", if self.ancestor { 0 } else { 1 })
        } else if has("worktree") {
            output(b"worktree /w\n\n", 0)
        } else if has("update-ref") {
            self.updates += 1;
            if self.swaps {
                self.authority = Some(self.private.clone());
            }
            output(b"", if self.swaps { 0 } else { 1 })
        } else {
            output(b"", 0)
        }
    }

    fn run(&mut self, record: SessionRecord) -> Result<String, Error> {
        let mut publish = Publish::start(&authority(), record, b"/s/common.git".to_vec());
        for _ in 0..100 {
            let event = match publish.action() {
                PublishAction::Nothing => break,
                PublishAction::Run(command) => {
                    let isolated = command.directory.is_some();
                    PublishEvent::Ran(Ok(self.answer(&command.args, isolated)))
                }
                PublishAction::Persist(record) => {
                    self.persisted.push(record.journal.state());
                    self.written = Some(record);
                    PublishEvent::Persisted(Ok(()))
                }
            };
            publish = publish.publish(event);
        }
        publish.outcome.expect("ended")
    }
}

#[test]
fn publications_are_journaled_around_the_swap() {
    let mut repositories = Repositories::new(Some(OLD));
    let text = repositories.run(ready()).expect("published");
    assert_eq!(text, format!("published {} {NEW}", hex(b"topic")));
    assert_eq!(
        repositories.persisted,
        vec!["PREPARED", "OBJECTS_IMPORTED", "CAS_ATTEMPTED", "CAS_COMMITTED", "IDLE"]
    );
    assert_eq!(repositories.updates, 1);
    let written = repositories.written.expect("record");
    assert_eq!(written.expected_old.as_deref(), Some(NEW));
}

#[test]
fn the_same_commit_is_published_without_a_write() {
    let mut repositories = Repositories::new(Some(NEW));
    assert!(repositories.run(ready()).is_ok());
    assert!(repositories.persisted.is_empty());
    assert_eq!(repositories.updates, 0);
}

#[test]
fn new_branches_need_no_ancestor() {
    let mut repositories = Repositories::new(None);
    repositories.ancestor = false;
    assert!(repositories.run(ready()).is_ok());
}

#[test]
fn only_fast_forwards_are_published() {
    let mut repositories = Repositories::new(Some(OLD));
    repositories.ancestor = false;
    assert_eq!(
        repositories.run(ready()).expect_err("diverged").code,
        "PUBLISH_NON_FAST_FORWARD"
    );
    assert!(repositories.persisted.is_empty());
}

#[test]
fn refused_swaps_need_recovery() {
    let mut repositories = Repositories::new(Some(OLD));
    repositories.swaps = false;
    let error = repositories.run(ready()).expect_err("refused");
    assert_eq!(error.code, "PUBLISH_RECOVERY_REQUIRED");
    assert_eq!(repositories.persisted.last().copied(), Some("CAS_ATTEMPTED"));
    let attempted = repositories.written.expect("record");
    let mut again = Repositories::new(Some(OLD));
    assert_eq!(
        again.run(attempted).expect_err("replayed").detail,
        "a publish compare-and-swap was attempted and cannot be replayed"
    );
    assert_eq!(again.updates, 0);
}

#[test]
fn interrupted_publications_go_on() {
    let fingerprint = "bfc7eb1f2264e7a0dbdfd05d686ee86fdcfa8e61e98547eb9158f11008b0558c";
    let txid = publish_txid(&authority(), &ready(), b"topic", Some(OLD), NEW, fingerprint);
    let journal = PublishJournal::Prepared {
        txid,
        new: NEW.to_owned(),
        expected_old: Some(OLD.to_owned()),
        config_fingerprint: fingerprint.to_owned(),
    };
    let record = ready().with_journal(journal);
    let mut repositories = Repositories::new(Some(OLD));
    assert!(repositories.run(record.copy()).is_ok());
    assert_eq!(repositories.persisted[0], "OBJECTS_IMPORTED");

    let mut moved = Repositories::new(Some("2222222222222222222222222222222222222222"));
    assert_eq!(
        moved.run(record).expect_err("moved").code,
        "PUBLISH_CONFLICT"
    );
    assert_eq!(moved.persisted, vec!["IDLE"]);
    assert_eq!(moved.updates, 0);
}

fn refs(line: &str) -> RefsSeen {
    RefsSeen {
        listing: Ok(output(line.as_bytes(), 0)),
        objects_opened: Ok(()),
        objects: Ok(directory()),
        common: Ok(directory()),
    }
}

fn store(pack: Vec<Vec<u8>>) -> StoreSeen {
    StoreSeen {
        objects: Ok(()),
        names: Ok(vec![b"info".to_vec(), b"pack".to_vec()]),
        info: Ok(vec![b"alternates".to_vec()]),
        pack: Ok(pack),
    }
}

fn closure() -> ClosureSeen {
    ClosureSeen {
        fsck: Ok(output(b"", 0)),
        head: Ok(b"ref: refs/heads/main\n".to_vec()),
        head_again: Ok(b"ref: refs/heads/main\n".to_vec()),
    }
}

fn discard(status: &[u8]) -> DiscardSeen {
    DiscardSeen {
        status: Ok(output(status, 0)),
        refs: refs(&format!("refs/heads/topic {}\n", "b".repeat(40))),
        store: store(vec![]),
        closure: closure(),
    }
}

#[test]
fn only_sessions_that_hold_nothing_are_discarded() {
    assert!(ensure_discard_safe(discard(b""), &ready()).is_ok());
    assert_eq!(
        ensure_discard_safe(discard(b"?? a\0"), &ready())
            .expect_err("dirty")
            .code,
        "SESSION_DISCARD_RISK"
    );
    assert!(ensure_private_refs_safe(refs(&format!("refs/heads/topic {NEW}\n")), &ready()).is_err());
    assert!(ensure_private_refs_safe(refs("refs/heads/topic\n"), &ready()).is_err());
    assert!(ensure_private_object_store_empty(store(vec![b"pack-1.pack".to_vec()])).is_err());
    let mut dangling = closure();
    dangling.fsck = Ok(output(b"dangling commit\n", 0));
    assert!(ensure_no_unreachable_private_closure(dangling, &ready()).is_err());
    let mut noticed = closure();
    noticed.fsck = Ok(Output {
        stderr: b"notice: HEAD points to an unborn branch (main)\n".to_vec(),
        ..output(b"", 0)
    });
    let checked = ensure_no_unreachable_private_closure(noticed, &ready());
    assert!(checked.is_ok(), "{checked:?}");
    assert_eq!(
        unborn_head(b"ref: refs/heads/main\n", b"topic"),
        Some(b"main".as_slice())
    );
    assert!(unborn_head(b"ref: refs/heads/topic\n", b"topic").is_none());
    assert!(git_safe_unborn_head(b"main", b"topic"));
}

fn container() -> ContainerSeen {
    ContainerSeen {
        identity: Ok(directory()),
        volume: Ok("volume".to_owned()),
    }
}

fn authorized() -> AuthorizedSeen {
    AuthorizedSeen {
        container: container(),
        opened: Ok(()),
        entry: Ok(directory()),
        descriptor: Ok(directory()),
        volume: Ok("volume".to_owned()),
    }
}

/// Buries a session whose directory stands where `standing` says, and tells what was done.
fn bury(standing: Option<bool>, lease: LeaseEvent) -> (Vec<BurialAction>, Result<(), Error>) {
    let record = ready().tombstoned(directory());
    let mut lease = Some(lease);
    let mut burial = Burial::start(capability(record.copy()));
    let mut actions = Vec::new();
    let mut at_root = standing == Some(true);
    let there = standing.is_some();
    let seen = |is: bool| {
        if is {
            NameSeen::Found(directory())
        } else {
            NameSeen::Absent
        }
    };
    for _ in 0..30 {
        let action = burial.action();
        let event = match action {
            BurialAction::Locate => BurialEvent::Located {
                container: container(),
                root: seen(there && at_root),
                tombstone: seen(there && !at_root),
            },
            BurialAction::OpenRoot | BurialAction::OpenTombstone => {
                BurialEvent::Opened(authorized())
            }
            BurialAction::Lease => BurialEvent::Lease(lease.take().expect("one lease")),
            BurialAction::ReadRecord => BurialEvent::Read(Ok(capability(record.copy()))),
            BurialAction::StatNames => BurialEvent::Names {
                root: seen(at_root),
                tombstone: seen(!at_root),
            },
            BurialAction::Rename => {
                at_root = false;
                BurialEvent::Renamed(RenameEvent::Done)
            }
            BurialAction::SyncContainer => BurialEvent::Synced(Ok(())),
            BurialAction::StatTombstone => BurialEvent::Name(seen(true)),
            BurialAction::RemoveTree | BurialAction::RemoveRecord => BurialEvent::Removed(Ok(())),
            BurialAction::Nothing => break,
        };
        actions.push(action);
        burial = burial.complete_tombstone(event, UID);
    }
    (actions, burial.outcome().expect("ended"))
}

#[test]
fn trees_are_buried_under_their_lease() {
    let (actions, outcome) = bury(Some(true), LeaseEvent::Locked);
    assert!(outcome.is_ok(), "{outcome:?}");
    let at = |action: BurialAction| actions.iter().position(|a| *a == action).expect("asked");
    assert!(at(BurialAction::Lease) < at(BurialAction::Rename));
    assert!(at(BurialAction::Rename) < at(BurialAction::RemoveTree));
    assert!(at(BurialAction::RemoveTree) < at(BurialAction::RemoveRecord));

    let (actions, outcome) = bury(Some(false), LeaseEvent::Locked);
    assert!(outcome.is_ok() && !actions.contains(&BurialAction::Rename));

    let (actions, outcome) = bury(None, LeaseEvent::Locked);
    assert!(outcome.is_ok() && !actions.contains(&BurialAction::RemoveTree));

    let (actions, outcome) = bury(Some(true), LeaseEvent::WouldBlock("held".to_owned()));
    assert_eq!(outcome.expect_err("busy").code, "SESSION_BUSY");
    assert!(!actions.contains(&BurialAction::RemoveTree));
    let burial = Burial::start(capability(ready()));
    assert!(burial.outcome().expect("ended").is_err());
}

fn binding() -> ReadyBinding {
    ready_binding(&ready(), &authority(), b"/state").expect("binding")
}

fn leased(record: SessionRecord) -> LeasedSeen {
    LeasedSeen {
        current: Ok(capability(record.copy())),
        checked: Ok(binding()),
        again: Ok(capability(record)),
        root: Ok(directory()),
        root_entry: Ok(directory()),
        checked_root: Ok(directory()),
        common: Ok(directory()),
        checked_common: Ok(directory()),
    }
}

fn remove(
    found: Option<SessionRecord>,
    force: bool,
    status: &[u8],
) -> (Vec<RemoveAction>, Result<(), Error>) {
    let mut remove = Remove::start();
    let mut actions = Vec::new();
    for _ in 0..30 {
        let action = remove.action();
        let event = match action {
            RemoveAction::FindRecord => {
                RemoveEvent::Found(Ok(found.as_ref().map(|record| capability(record.copy()))))
            }
            RemoveAction::StatNames => RemoveEvent::Names {
                root: NameSeen::Absent,
                tombstone: NameSeen::Absent,
            },
            RemoveAction::LoadReady => RemoveEvent::Loaded(Ok(binding())),
            RemoveAction::OpenPayload => RemoveEvent::Opened(authorized()),
            RemoveAction::Lease => RemoveEvent::Lease(LeaseEvent::Locked),
            RemoveAction::RevalidateReady => RemoveEvent::Leased(leased(ready())),
            RemoveAction::ReadRecord => {
                RemoveEvent::Read(Ok(capability(found.as_ref().expect("record").copy())))
            }
            RemoveAction::JudgeDiscard => RemoveEvent::Judged(discard(status)),
            RemoveAction::Persist => {
                let capability_now = remove.capability().expect("capability");
                let next = transition_tombstone(&capability_now.record).expect("tombstone");
                RemoveEvent::Persisted(Ok(capability(next)))
            }
            RemoveAction::LookAtContainer => RemoveEvent::Container(container()),
            RemoveAction::RemoveRecord | RemoveAction::Bury => RemoveEvent::Done(Ok(())),
            RemoveAction::Nothing => break,
        };
        actions.push(action);
        remove = remove.remove(event, force, UID);
    }
    (actions, remove.outcome().expect("ended"))
}

#[test]
fn sessions_are_removed_without_loss() {
    let (actions, outcome) = remove(Some(ready()), false, b"");
    assert!(outcome.is_ok(), "{outcome:?}");
    assert!(actions.contains(&RemoveAction::JudgeDiscard) && actions.contains(&RemoveAction::Bury));

    let (actions, outcome) = remove(Some(ready()), false, b"?? a\0");
    assert_eq!(outcome.expect_err("risk").code, "SESSION_DISCARD_RISK");
    assert!(!actions.contains(&RemoveAction::Persist));

    let (actions, outcome) = remove(Some(ready()), true, b"?? a\0");
    assert!(outcome.is_ok() && !actions.contains(&RemoveAction::JudgeDiscard));

    let (actions, outcome) = remove(None, false, b"");
    assert!(outcome.is_ok(), "{outcome:?}");
    assert_eq!(actions, vec![RemoveAction::FindRecord, RemoveAction::StatNames]);

    let (actions, outcome) = remove(Some(prepared()), true, b"");
    assert!(outcome.is_ok() && actions.contains(&RemoveAction::RemoveRecord));

    let tombstoned = ready().tombstoned(directory());
    let (actions, outcome) = remove(Some(tombstoned), false, b"");
    assert!(outcome.is_ok());
    assert_eq!(actions, vec![RemoveAction::FindRecord, RemoveAction::Bury]);
}

#[test]
fn unsettled_publications_keep_their_session() {
    let journal = PublishJournal::CasAttempted {
        txid: "0".repeat(64),
        new: NEW.to_owned(),
        expected_old: None,
        config_fingerprint: "0".repeat(64),
    };
    let (actions, outcome) = remove(Some(ready().with_journal(journal)), true, b"");
    assert_eq!(outcome.expect_err("unsettled").code, "PUBLISH_RECOVERY_REQUIRED");
    assert_eq!(actions, vec![RemoveAction::FindRecord]);
    assert!(transition_tombstone(&prepared()).is_err());
}

fn enter(record: SessionRecord, purpose: Purpose, lease: LeaseEvent) -> Entry {
    let mut lease = Some(lease);
    let mut entry = Entry::Finding;
    for _ in 0..10 {
        let event = match entry.action() {
            EntryAction::FindRecord => EntryEvent::Found(Ok(capability(record.copy()))),
            EntryAction::LoadReady => EntryEvent::Loaded(Ok(binding())),
            EntryAction::Lease => EntryEvent::Lease(lease.take().expect("one lease")),
            EntryAction::RevalidateReady => EntryEvent::Leased(leased(record.copy())),
            EntryAction::Nothing => break,
        };
        entry = entry.enter(event, purpose);
    }
    entry
}

#[test]
fn sessions_are_entered_under_their_lease() {
    assert!(matches!(
        enter(ready(), Purpose::Exec, LeaseEvent::Locked),
        Entry::Entered(..)
    ));
    match enter(ready(), Purpose::Exec, LeaseEvent::WouldBlock("x".to_owned())) {
        Entry::Failed(error) => assert_eq!(error.code, "SESSION_BUSY"),
        other => panic!("{other:?}"),
    }
    let journal = || PublishJournal::CasCommitted {
        txid: "0".repeat(64),
        new: NEW.to_owned(),
        expected_old: None,
        config_fingerprint: "0".repeat(64),
    };
    match enter(ready().with_journal(journal()), Purpose::Exec, LeaseEvent::Locked) {
        Entry::Failed(error) => assert_eq!(error.code, "PUBLISH_COMMITTED_RECOVERY_REQUIRED"),
        other => panic!("{other:?}"),
    }
    assert!(matches!(
        enter(ready().with_journal(journal()), Purpose::Publish, LeaseEvent::Locked),
        Entry::Entered(..)
    ));
}

fn context(container: bool) -> ContextSeen {
    ContextSeen {
        authority: Ok(authority()),
        state: Ok(()),
        present: Ok(true),
        path: Ok(b"/state/sessions".to_vec()),
        container: Ok(container),
    }
}

#[test]
fn commands_need_a_registered_authority() {
    let (found, sessions) = optional_session_context(context(false)).expect("context");
    assert_eq!(found.canonical, PATH.to_vec());
    assert!(sessions.is_none());
    assert_eq!(
        session_context(context(true)).expect("context").sessions_path,
        b"/state/sessions".to_vec()
    );
    assert_eq!(
        session_context(context(false)).expect_err("absent").code,
        "SESSION_ABSENT"
    );
    let mut unregistered = context(true);
    unregistered.present = Ok(false);
    assert!(session_context(unregistered).is_err());
    assert!(sessions_for_read(Err(failed()), Ok(vec![]), Ok(true)).is_err());
    assert!(maintenance_context(&ready(), Ok(()), b"/s".to_vec()).is_ok());
    assert!(maintenance_context(&ready(), Err("gone".to_owned()), b"/s".to_vec()).is_err());
    let request = exec(Some(b"fixture".to_vec()), None, vec![b"true".to_vec()]).expect("request");
    assert_eq!(request.name, b"fixture".to_vec());
    assert_eq!(
        exec(Some(b"fixture".to_vec()), None, vec![])
            .expect_err("no program")
            .code,
        "SESSION_USAGE"
    );
}
