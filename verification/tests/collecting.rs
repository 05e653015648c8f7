use git_vws::authority::{hex, Authority, Error, Identity, DIRECTORY_TYPE, REGULAR_TYPE};
use git_vws::listing::{
    corrupt_record, list, list_entry, list_outcome, list_selection, ListSeen, ListStep,
};
use git_vws::loose_gc::{LooseGc, LooseGcAction, LooseGcEvent};
use git_vws::maintenance::{
    doctor, finish_maintenance, gc, is_reachable, maintenance_container, reachable_templates,
    scan_state_root, write_maintenance, Maintain, MaintainAction, MaintainEvent, StateName,
};
use git_vws::objects::{
    authority_shelf, classify_authority_objects, classify_pack_entries, loose_fanout_name,
    open_record_authority_objects, pack_entry_pair, AuthorityObjectsPlan, AuthorityRootSeen,
    ChildSeen, MetadataDirectory, ObjectFile, Shelf, ShelfSeen,
};
use git_vws::private_objects::{
    classify_private_loose, classify_private_objects, private_entry_kind,
    private_objects_matches_plan, EntryKind, EntrySeen, FanoutSeen, InfoSeen, LooseAction,
    LooseSeen, PrivateEntry, PrivateObjectPlan, PrivateObjectsSeen,
};
use git_vws::record_txn::RecordBinding;
use git_vws::session::{
    record_name, root_name, session_id_for_binding, tombstone_name, GitMetadataReceipt,
    PublishJournal, RecordCapability, SessionPayload, SessionRecord,
};
use git_vws::session_gc::{
    gc_session_predecessor_temporary, gc_sessions, merge_maintenance, session_census, take_stock,
    SessionCensus, SessionGcAction, SessionName, SessionTemporary, StockSeen,
};
use git_vws::session_roots::{ready_binding, LeasedSeen, ReadyBinding};
use git_vws::storage::{CowReceipt, ManifestReceipt, SealedTreeReceipt};
use git_vws::template::MaintenanceReport;
use git_vws::template_roots::{LeaseEvent, NameSeen};

const UID: u32 = 1000;
const PATH: &[u8] = b"/git-vws-test-authority";

fn directory() -> Identity {
    Identity {
        dev: 1,
        ino: 1,
        uid: UID,
        mode: 0o700,
        kind: DIRECTORY_TYPE,
        nlink: 2,
    }
}

fn authority() -> Authority {
    Authority {
        canonical: PATH.to_vec(),
        identity: directory(),
        object_format: "sha1".to_owned(),
        ref_format: "files".to_owned(),
    }
}

fn prepared() -> SessionRecord {
    let sid = session_id_for_binding(PATH, directory(), b"fixture");
    SessionRecord {
        version: 2,
        sid: sid.clone(),
        authority_path: hex(PATH),
        authority_identity: directory(),
        name: hex(b"fixture"),
        base: "b".repeat(40),
        target: hex(b"topic"),
        expected_old: None,
        template_key: sid.clone(),
        template: SealedTreeReceipt {
            root: Identity {
                mode: 0o555,
                ..directory()
            },
            volume: "volume".to_owned(),
            manifest: ManifestReceipt {
                digest: sid.clone(),
                entries: 0,
            },
            content_digest: sid.clone(),
        },
        container_identity: directory(),
        volume: "volume".to_owned(),
        payload: SessionPayload::Prepared {
            root_name: root_name(&sid),
        },
        journal: PublishJournal::Idle,
    }
}

fn receipt() -> GitMetadataReceipt {
    let digest = || "0".repeat(64);
    GitMetadataReceipt {
        dot_git: digest(),
        head: digest(),
        target_ref: digest(),
        index: digest(),
        worktrees: digest(),
        alternates: digest(),
    }
}

fn ready() -> SessionRecord {
    let record = prepared();
    let worktree = CowReceipt {
        source: record.template.copy(),
        destination: directory(),
    };
    record
        .materializing(directory())
        .ready(directory(), directory(), worktree, receipt())
}

fn capability(record: SessionRecord) -> RecordCapability {
    RecordCapability {
        basename: record_name(&record.sid),
        record,
        binding: RecordBinding {
            bytes: b"bytes".to_vec(),
            identity: Identity {
                ino: 5,
                mode: 0o600,
                kind: REGULAR_TYPE,
                nlink: 1,
                ..directory()
            },
        },
    }
}

const TAIL: &str = "23456789abcdef0123456789abcdef01234567";

fn failed() -> Error {
    Error::new("SESSION_IO_FAILED", "failed")
}

fn file(ino: u64) -> Identity {
    Identity {
        ino,
        mode: 0o444,
        kind: REGULAR_TYPE,
        nlink: 1,
        ..directory()
    }
}

fn metadata() -> MetadataDirectory {
    MetadataDirectory {
        entry: Ok(directory()),
        opened: Ok(()),
        descriptor: Ok(directory()),
        volume: Ok("volume".to_owned()),
    }
}

fn child(name: &str, ino: u64) -> ChildSeen {
    ChildSeen {
        name: name.as_bytes().to_vec(),
        entry: Ok(file(ino)),
        file: ObjectFile {
            opened: Ok(Ok(file(ino))),
            same_volume: Ok(true),
        },
    }
}

fn shelf(name: &str, children: Vec<ChildSeen>) -> ShelfSeen {
    ShelfSeen {
        name: name.as_bytes().to_vec(),
        directory: metadata(),
        children: Ok(children),
        again: Ok(directory()),
    }
}

fn authority_objects() -> AuthorityObjectsPlan {
    classify_authority_objects(
        Ok(vec![shelf("01", vec![child(TAIL, 20)]), shelf("info", vec![]), shelf("pack", vec![])]),
        directory(),
        "volume".to_owned(),
        40,
        UID,
    )
    .expect("plan")
}

#[test]
fn authority_objects_are_classified_whole() {
    assert!(loose_fanout_name(b"0a") && !loose_fanout_name(b"0A") && !loose_fanout_name(b"abc"));
    assert!(matches!(authority_shelf(b"info"), Some(Shelf::Info)));
    assert!(matches!(authority_shelf(b"0a"), Some(Shelf::Fanout)));
    assert!(authority_shelf(b"other").is_none());
    let plan = authority_objects();
    assert_eq!(plan.entries.len(), 3);
    assert_eq!(plan.entries[0].children[0].identity, file(20));
    assert!(plan.same(&authority_objects()));
    let classify = |shelves: Vec<ShelfSeen>| {
        classify_authority_objects(Ok(shelves), directory(), "volume".to_owned(), 40, UID)
    };
    assert!(classify(vec![shelf("other", vec![])]).is_err());
    assert!(classify(vec![shelf("01", vec![child("short", 20)])]).is_err());
    let mut open = child(TAIL, 20);
    open.entry = Ok(Identity {
        mode: 0o666,
        ..file(20)
    });
    assert_eq!(
        classify(vec![shelf("01", vec![open])]).expect_err("writable").code,
        "SESSION_RECOVERY_REQUIRED"
    );
    let mut moved = shelf("01", vec![]);
    moved.again = Ok(file(3));
    assert!(classify(vec![moved]).is_err());
}

#[test]
fn packs_come_with_their_indexes() {
    let oid = format!("01{TAIL}");
    let pack = |tails: &[&str]| {
        let children = tails
            .iter()
            .enumerate()
            .map(|(at, tail)| child(&format!("pack-{oid}.{tail}"), 30 + at as u64))
            .collect();
        classify_pack_entries(Ok(children), directory(), false, 40, UID)
    };
    assert_eq!(pack(&["idx", "pack"]).expect("pair").len(), 2);
    assert!(pack(&["pack"]).is_err());
    assert!(pack(&["idx"]).is_err());
    assert!(pack(&["idx", "pack", "other"]).is_err());
    assert_eq!(
        pack_entry_pair(format!("pack-{oid}.pack").as_bytes()),
        Some(format!("pack-{oid}.idx").into_bytes())
    );
}

#[test]
fn authorities_are_reopened_from_their_record() {
    let seen = |ino: u64| AuthorityRootSeen {
        opened: Ok(Ok(Identity { ino, ..directory() })),
        path: Ok(directory()),
        bound: Ok(directory()),
        again: Ok(directory()),
        volume: Ok("volume".to_owned()),
        objects: metadata(),
    };
    let (identity, volume) =
        open_record_authority_objects(seen(1), &ready(), UID).expect("objects");
    assert_eq!((identity, volume.as_str()), (directory(), "volume"));
    assert_eq!(
        open_record_authority_objects(seen(2), &ready(), UID)
            .expect_err("moved")
            .code,
        "SESSION_RECOVERY_REQUIRED"
    );
}

#[test]
fn only_duplicates_leave_a_session() {
    let classify = |authority: NameSeen, identical: Result<(), Error>| {
        classify_private_loose(file(21), Some(directory()), authority, identical, UID)
    };
    assert!(matches!(
        classify(NameSeen::Found(file(20)), Ok(())).expect("same"),
        LooseAction::Remove { authority_identity } if authority_identity == file(20)
    ));
    assert!(matches!(
        classify(NameSeen::Absent, Ok(())).expect("absent"),
        LooseAction::Retain
    ));
    let differs = Error::new(
        "STORAGE_UNSUPPORTED",
        "private loose object is not an exact authority duplicate",
    );
    assert!(matches!(
        classify(NameSeen::Found(file(20)), Err(differs)).expect("other bytes"),
        LooseAction::Retain
    ));
    assert!(classify(NameSeen::Found(file(20)), Err(failed())).is_err());
    let linked = Identity {
        nlink: 2,
        ..file(20)
    };
    assert!(matches!(
        classify(NameSeen::Found(linked), Ok(())).expect("linked"),
        LooseAction::Retain
    ));
    assert!(matches!(
        classify_private_loose(file(21), None, NameSeen::Absent, Ok(()), UID).expect("no fanout"),
        LooseAction::Retain
    ));
}

fn loose(identical: bool) -> LooseSeen {
    LooseSeen {
        name: TAIL.as_bytes().to_vec(),
        entry: Ok(file(21)),
        authority: if identical {
            NameSeen::Found(file(20))
        } else {
            NameSeen::Absent
        },
        identical: Ok(()),
    }
}

fn entries(identical: bool) -> Vec<PrivateEntry> {
    vec![
        PrivateEntry {
            name: b"01".to_vec(),
            seen: EntrySeen::Fanout(FanoutSeen {
                directory: metadata(),
                authority_entry: NameSeen::Found(directory()),
                authority_directory: metadata(),
                loose: Ok(vec![loose(identical)]),
                authority_again: Ok(directory()),
                authority_entry_again: Ok(directory()),
                again: Ok(directory()),
                entry_again: Ok(directory()),
            }),
        },
        PrivateEntry {
            name: b"info".to_vec(),
            seen: EntrySeen::Info(InfoSeen {
                directory: metadata(),
                names: Ok(vec![b"alternates".to_vec()]),
                alternates: Ok(b"/git-vws-test-authority/objects\n".to_vec()),
                again: Ok(directory()),
                entry_again: Ok(directory()),
            }),
        },
    ]
}

fn private_objects(entries: Vec<PrivateEntry>) -> Result<PrivateObjectPlan, Error> {
    let seen = PrivateObjectsSeen {
        authority: Ok(authority_objects()),
        common: Ok(directory()),
        objects: metadata(),
        entries: Ok(entries),
        again: Ok(directory()),
        entry_again: Ok(directory()),
        authority_again: Ok(directory()),
        authority_volume: Ok("volume".to_owned()),
    };
    classify_private_objects(seen, &authority(), &ready(), UID)
}

#[test]
fn private_objects_are_planned() {
    assert!(matches!(private_entry_kind(b"pack"), EntryKind::Pack));
    assert!(matches!(private_entry_kind(b"x"), EntryKind::Unknown));
    let plan = private_objects(entries(true)).expect("plan");
    assert!(!plan.pack_present);
    assert_eq!(plan.fanouts.len(), 1);
    assert!(matches!(plan.fanouts[0].loose[0].action, LooseAction::Remove { .. }));
    assert!(plan.same(&private_objects(entries(true)).expect("plan")));
    assert!(!plan.same(&private_objects(entries(false)).expect("plan")));
    assert!(private_objects_matches_plan(
        &vec![b"01".to_vec(), b"info".to_vec()],
        &plan
    ));
    assert!(!private_objects_matches_plan(&vec![b"info".to_vec()], &plan));
    let mut unknown = entries(true);
    unknown.push(PrivateEntry {
        name: b"other".to_vec(),
        seen: EntrySeen::Unknown,
    });
    assert!(private_objects(unknown).is_err());
    let mut alone = entries(true);
    alone.pop();
    assert!(private_objects(alone).is_err());
}

fn binding() -> ReadyBinding {
    ready_binding(&ready(), &authority(), b"/state").expect("binding")
}

fn leased() -> LeasedSeen {
    LeasedSeen {
        current: Ok(capability(ready())),
        checked: Ok(binding()),
        again: Ok(capability(ready())),
        root: Ok(directory()),
        root_entry: Ok(directory()),
        checked_root: Ok(directory()),
        common: Ok(directory()),
        checked_common: Ok(directory()),
    }
}

/// Collects the one loose object of a session, which is a duplicate or not.
fn collect(identical: bool, moved: bool) -> (Vec<LooseGcAction>, LooseGc) {
    let plan = || private_objects(entries(identical)).expect("plan");
    let mut gc = LooseGc::start(capability(ready()), plan());
    let mut actions = Vec::new();
    let mut unlinked = false;
    for _ in 0..40 {
        let action = gc.action();
        let event = match action {
            LooseGcAction::LoadReady => LooseGcEvent::Loaded(Ok(binding())),
            LooseGcAction::Lease => LooseGcEvent::Lease(LeaseEvent::Locked),
            LooseGcAction::RevalidateReady => LooseGcEvent::Leased(leased()),
            LooseGcAction::Classify => LooseGcEvent::Classified(Ok(plan())),
            LooseGcAction::ClassifyAuthority => LooseGcEvent::Authority(Ok(authority_objects())),
            LooseGcAction::OpenObjects => LooseGcEvent::Opened {
                identity: Ok(directory()),
                names: Ok(vec![b"01".to_vec(), b"info".to_vec()]),
            },
            LooseGcAction::OpenFanout => LooseGcEvent::Opened {
                identity: Ok(directory()),
                names: Ok(vec![TAIL.as_bytes().to_vec()]),
            },
            LooseGcAction::OpenAuthorityFanout => {
                LooseGcEvent::AuthorityFanout(Ok(Some(directory())))
            }
            LooseGcAction::StatLoose => {
                LooseGcEvent::Entry(Ok(if moved { file(99) } else { file(21) }))
            }
            LooseGcAction::UnlinkLoose => {
                unlinked = true;
                LooseGcEvent::Done(Ok(()))
            }
            LooseGcAction::UnlinkFanout => LooseGcEvent::Done(Ok(())),
            LooseGcAction::SyncFanout | LooseGcAction::SyncObjects => {
                LooseGcEvent::Synced(Ok(()))
            }
            LooseGcAction::ListFanout => LooseGcEvent::Names(Ok(if unlinked {
                vec![]
            } else {
                vec![TAIL.as_bytes().to_vec()]
            })),
            LooseGcAction::Nothing => break,
        };
        actions.push(action);
        gc = gc.gc_private_loose(event);
    }
    (actions, gc)
}

#[test]
fn planned_objects_are_collected_under_the_lease() {
    let (actions, gc) = collect(true, false);
    assert!(gc.outcome().expect("ended").is_ok(), "{:?}", gc.outcome());
    let at = |action: LooseGcAction| actions.iter().position(|a| *a == action).expect("asked");
    assert!(at(LooseGcAction::Lease) < at(LooseGcAction::UnlinkLoose));
    assert!(at(LooseGcAction::UnlinkLoose) < at(LooseGcAction::SyncFanout));
    assert!(at(LooseGcAction::ListFanout) < at(LooseGcAction::UnlinkFanout));
    assert_eq!(gc.report.entries[0].code, "REMOVED");
    assert!(!gc.report.recovery_required);

    let (actions, gc) = collect(false, false);
    assert!(gc.outcome().expect("ended").is_ok());
    assert!(!actions.contains(&LooseGcAction::UnlinkLoose));
    assert!(!actions.contains(&LooseGcAction::UnlinkFanout));
    assert_eq!(gc.report.entries[0].code, "RETAINED");

    let (actions, gc) = collect(true, true);
    assert_eq!(
        gc.outcome().expect("ended").expect_err("moved").code,
        "SESSION_RECOVERY_REQUIRED"
    );
    assert!(!actions.contains(&LooseGcAction::UnlinkLoose));
}

#[test]
fn stock_is_taken_of_every_session() {
    let seen = |classified: Result<PrivateObjectPlan, Error>| StockSeen {
        template: Ok(()),
        sound: Err(failed()),
        loaded: Ok(()),
        classified,
        current: Ok(capability(ready())),
    };
    let stock = take_stock(seen(private_objects(entries(true))), &capability(ready()));
    assert!(stock.expect("stock").is_some());
    assert!(take_stock(seen(Err(failed())), &capability(ready())).is_err());
    assert!(take_stock(seen(Err(failed())), &capability(prepared())).is_err());
}

fn named(record: SessionRecord) -> SessionName {
    SessionName {
        name: record_name(&record.sid),
        stock: match &record.payload {
            SessionPayload::Ready { .. } => private_objects(entries(true)).map(Some),
            _ => Ok(None),
        },
        record: Ok(capability(record)),
        ignorable: Ok(false),
        predecessor: Err(failed()),
    }
}

fn other(name: &[u8], ignorable: bool, predecessor: bool) -> SessionName {
    SessionName {
        name: name.to_vec(),
        record: Err(failed()),
        stock: Ok(None),
        ignorable: Ok(ignorable),
        predecessor: if predecessor { Ok(()) } else { Err(failed()) },
    }
}

fn census(names: Vec<SessionName>) -> SessionCensus {
    session_census(Ok(names), true).expect("census")
}

#[test]
fn censuses_place_every_name() {
    let root = root_name(&ready().sid).into_bytes();
    let counted = census(vec![
        named(ready()),
        other(&root, false, false),
        other(b".DS_Store", true, false),
        other(b".session.tmp", false, true),
    ]);
    assert!(!counted.report.recovery_required, "{:?}", counted.report);
    assert_eq!(counted.reachable_templates, vec![ready().template_key]);
    assert_eq!(counted.temporaries, vec![b".session.tmp".to_vec()]);
    assert_eq!(counted.capabilities.len(), 1);
    let codes: Vec<_> = counted.report.entries.iter().map(|entry| entry.code).collect();
    assert_eq!(codes, vec!["RETAINED", "RETAINED"]);

    for stray in [other(b"stray", false, false), other(b".x.tmp", false, false)] {
        assert!(census(vec![stray]).report.recovery_required);
    }
    assert!(session_census(Err(failed()), true).is_err());
    let twice = census(vec![named(ready()), named(ready())]);
    assert_eq!(twice.reachable_templates.len(), 1);
    assert!(is_reachable(&twice.reachable_templates, &ready().template_key));
    assert!(!is_reachable(&twice.reachable_templates, "other"));
    let stray = session_census(Ok(vec![other(b"stray", false, false)]), true);
    assert!(reachable_templates(stray).is_err());
}

#[test]
fn collections_fail_closed() {
    let mut gc = gc_sessions(census(vec![
        named(ready()),
        other(b".session.tmp", false, true),
    ]));
    assert!(matches!(gc.action(), SessionGcAction::CleanTemporary(0)));
    gc.clean(Ok(capability(ready())));
    assert!(matches!(gc.action(), SessionGcAction::CollectLoose(0)));
    let mut told = MaintenanceReport::blank();
    told.entry("loose", b"r", b"p", "LOOSE", "REMOVED");
    gc.loosen(told, Ok(()));
    assert!(matches!(gc.action(), SessionGcAction::Nothing));
    assert!(!gc.report.recovery_required);
    let codes: Vec<_> = gc.report.entries.iter().map(|entry| entry.code).collect();
    assert_eq!(codes, vec!["REMOVED", "REMOVED"]);

    let tombstoned = ready().tombstoned(directory());
    let mut gc = gc_sessions(census(vec![named(tombstoned)]));
    assert!(matches!(gc.action(), SessionGcAction::Bury(0)));
    gc.bury(Err(failed()));
    assert!(gc.report.recovery_required);
    assert_eq!(
        gc.report.entries[0].path_name,
        tombstone_name(&ready().sid).into_bytes()
    );
    assert!(matches!(gc.action(), SessionGcAction::Nothing));

    let mut gc = gc_sessions(census(vec![named(ready())]));
    gc.loosen(MaintenanceReport::blank(), Err(Error::new("SESSION_BUSY", "leased")));
    assert!(!gc.report.recovery_required);
    assert_eq!(gc.report.entries[0].code, "BUSY");
}

#[test]
fn left_behind_session_records_are_predecessors() {
    let found = |previous: SessionRecord, current: SessionRecord| {
        Ok(SessionTemporary {
            final_name: Some(record_name(&current.sid)),
            previous: Ok(capability(previous)),
            current: Ok(capability(current)),
        })
    };
    let older = || prepared().materializing(directory());
    assert!(gc_session_predecessor_temporary(found(older(), ready()), Ok(())).is_ok());
    assert!(gc_session_predecessor_temporary(found(older(), ready()), Err(failed())).is_err());
    assert!(gc_session_predecessor_temporary(found(prepared(), ready()), Ok(())).is_err());
    assert!(gc_session_predecessor_temporary(Err(failed()), Ok(())).is_err());
}

#[test]
fn reports_are_merged_in_order() {
    let mut left = MaintenanceReport::blank();
    left.entry("a", b"1", b"1", "S", "OK");
    let mut right = MaintenanceReport::blank();
    right.recovery("b", b"2", b"2", "S");
    merge_maintenance(&mut left, &mut right);
    assert!(left.recovery_required);
    assert_eq!(left.entries.len(), 2);
    assert_eq!(left.entries[1].scope, "b");
}

#[test]
fn listings_tell_every_record() {
    let seen = |record: SessionRecord, sound: Result<(), Error>| ListSeen {
        name: record_name(&record.sid),
        capability: Ok(capability(record)),
        sound,
    };
    let broken = ListSeen {
        name: b"session-x.record".to_vec(),
        capability: Err(failed()),
        sound: Ok(()),
    };
    let names = vec![seen(ready(), Ok(())), seen(prepared(), Err(failed())), broken];
    let listing = list(&names, None, b"/state");
    assert_eq!(listing.healthy.len(), 1);
    assert_eq!(listing.healthy[0].state, "READY");
    assert_eq!(listing.corrupt.len(), 2);
    assert_eq!(
        list_outcome(&listing).expect_err("corrupt").code,
        "SESSION_CORRUPT"
    );
    let mut elsewhere = authority();
    elsewhere.canonical = b"/elsewhere".to_vec();
    let mine = list(&vec![seen(ready(), Ok(()))], Some(&elsewhere), b"/state");
    assert!(mine.healthy.is_empty() && mine.corrupt.is_empty());
    assert!(list_outcome(&mine).is_ok());
    assert!(matches!(
        list_entry(&Ok(capability(ready())), Some(&authority())),
        ListStep::Diagnose
    ));
    assert!(matches!(list_entry(&Err(failed()), None), ListStep::Corrupt));
    let line = corrupt_record(b"r");
    assert_eq!((line.state, line.record_name_hex.as_str()), ("CORRUPT", "72"));
    assert!(list_selection(true, false).is_ok());
    assert_eq!(
        list_selection(true, true).expect_err("both").code,
        "SESSION_USAGE"
    );
}

fn state_name(name: &[u8]) -> StateName {
    StateName {
        name: name.to_vec(),
        ignorable: Ok(false),
        valid: Ok(()),
    }
}

fn state_names() -> Vec<StateName> {
    let record = format!("authority-{}.record", "0".repeat(64));
    vec![
        state_name(record.as_bytes()),
        state_name(b"sessions"),
        state_name(b"templates"),
    ]
}

/// Looks after a state in which `stray` stands beside the sessions.
fn maintain(start: Maintain, stray: bool) -> (Vec<MaintainAction>, Result<(), Error>) {
    let mut maintain = start;
    let mut actions = Vec::new();
    for _ in 0..20 {
        let action = maintain.action();
        let event = match action {
            MaintainAction::OpenState => MaintainEvent::Opened(Ok(())),
            MaintainAction::ListState => MaintainEvent::Listed(Ok(state_names())),
            MaintainAction::OpenContainers => MaintainEvent::Containers {
                templates: Ok(true),
                sessions: Ok(true),
            },
            MaintainAction::LocateSessions => MaintainEvent::Located(Ok(())),
            MaintainAction::CountSessions(report) => MaintainEvent::Counted(session_census(
                Ok(if stray {
                    vec![other(b"stray", false, false)]
                } else {
                    vec![named(ready())]
                }),
                report,
            )),
            MaintainAction::DiagnoseTemplates | MaintainAction::CollectTemplates => {
                MaintainEvent::Templates(Ok(MaintenanceReport::blank()))
            }
            MaintainAction::CollectSessions => {
                MaintainEvent::Sessions(MaintenanceReport::blank())
            }
            MaintainAction::Write => MaintainEvent::Written(Ok(())),
            MaintainAction::Nothing => break,
        };
        actions.push(action);
        maintain = maintain.maintain(event);
    }
    (actions, maintain.outcome().expect("ended"))
}

#[test]
fn maintenance_collects_only_what_it_understands() {
    let (actions, outcome) = maintain(gc(), false);
    assert!(outcome.is_ok(), "{outcome:?}");
    let at = |action: MaintainAction| actions.iter().position(|a| *a == action).expect("asked");
    assert!(at(MaintainAction::CollectTemplates) < at(MaintainAction::CollectSessions));

    let (actions, outcome) = maintain(gc(), true);
    assert_eq!(outcome.expect_err("stray").code, "GC_RECOVERY_REQUIRED");
    assert!(!actions.contains(&MaintainAction::CollectTemplates));
    assert!(!actions.contains(&MaintainAction::CollectSessions));
    assert!(actions.contains(&MaintainAction::Write));

    let (actions, outcome) = maintain(doctor(), false);
    assert!(outcome.is_ok());
    assert!(actions.contains(&MaintainAction::DiagnoseTemplates));
    assert!(!actions.contains(&MaintainAction::CollectTemplates));
    assert_eq!(
        maintain(doctor(), true).1.expect_err("stray").code,
        "DOCTOR_RECOVERY_REQUIRED"
    );
}

#[test]
fn reports_ask_for_recovery_where_they_hold_a_finding() {
    for stray in [false, true] {
        let names = if stray {
            vec![named(ready()), other(b"stray", false, false)]
        } else {
            vec![named(ready())]
        };
        let mut report = session_census(Ok(names), true).expect("census").report;
        let found = report.entries.iter().any(|entry| entry.code == "RECOVERY_REQUIRED");
        assert_eq!(found, stray);
        assert_eq!(report.recovery_required, stray);
        let (lines, summary) = write_maintenance(&mut report);
        assert_eq!(lines.iter().any(|line| line.kind == "finding"), stray);
        assert_eq!(summary.findings, if stray { 1 } else { 0 });
        assert_eq!(finish_maintenance(&report, false, Ok(())).is_err(), stray);
        assert_eq!(maintain(doctor(), stray).1.is_err(), stray);
    }
}

#[test]
fn states_hold_what_they_should() {
    let mut report = MaintenanceReport::blank();
    assert!(scan_state_root(Ok(state_names()), &mut report), "{report:?}");
    assert!(!report.recovery_required);
    let mut report = MaintenanceReport::blank();
    assert!(!scan_state_root(Ok(vec![state_name(b"stray")]), &mut report));
    assert!(report.recovery_required);
    let mut report = MaintenanceReport::blank();
    assert!(maintenance_container(Ok(true), b"sessions", &mut report));
    assert!(!maintenance_container(Err(failed()), b"sessions", &mut report));
    assert!(report.recovery_required);
    let mut report = MaintenanceReport::blank();
    report.entry("template", b"r2", b"p", "READY", "OK");
    report.recovery("session", b"r1", b"p", "CORRUPT");
    let (lines, summary) = write_maintenance(&mut report);
    assert_eq!((summary.items, summary.findings), (1, 1));
    assert!(summary.recovery_required);
    assert_eq!(lines[0].scope, "session");
    assert_eq!(lines[0].record_name_hex, hex(b"r1"));
    assert_eq!(
        finish_maintenance(&report, true, Ok(())).expect_err("finding").code,
        "GC_RECOVERY_REQUIRED"
    );
    assert!(finish_maintenance(&MaintenanceReport::blank(), false, Ok(())).is_ok());
}
