//! Collecting templates that no session uses. Whatever is not plainly collectable stays, and stops the
//! collection.

use crate::authority::{failure, or_fail, Error, Failure, Identity};
use crate::bytes::{copy_bytes, ends_with, same_bytes, same_text, starts_with, utf8, views};
use crate::inspection::first_of;
use crate::record_txn::RenameEvent;
use crate::storage::{is_owned_tree, owned_tree_binding, SealedTreeReceipt, SealedView};
use crate::template::{
    is_cleanup_mode, is_template_record_name, needs_recovery, template_item, template_payload_names,
    template_precedes, template_record_name, template_recovery, tombstone_cleanup_mode,
    MaintenanceReport, ReportView, TemplatePayload, TemplatePayloadView, TemplateRecord,
};
use crate::template_roots::{TemplateCapability, TemplateCapabilityView};
use vstd::prelude::*;

verus! {

/// What is found out about a name of the container.
#[derive(Debug)]
pub struct CensusName {
    pub name: Vec<u8>,
    /// What was read of it, where it is the name of a record, and whether what the record speaks of
    /// stands as it should.
    pub record: Result<Option<TemplateCapability>, Error>,
    pub valid: bool,
    /// Whether it is a record that an exchange left behind, where it is the name of a temporary one.
    pub predecessor: bool,
}

pub struct CensusNameView {
    pub name: Seq<u8>,
    pub record: Option<TemplateCapabilityView>,
    pub valid: bool,
    pub predecessor: bool,
}

impl View for CensusName {
    type V = CensusNameView;

    open spec fn view(&self) -> CensusNameView {
        CensusNameView {
            name: self.name@,
            record: match self.record {
                Ok(Some(capability)) => Some(capability@),
                _ => None,
            },
            valid: self.valid,
            predecessor: self.predecessor,
        }
    }
}

pub open spec fn name_views(names: Seq<CensusName>) -> Seq<CensusNameView> {
    Seq::new(names.len(), |i: int| names[i]@)
}

pub open spec fn capability_views(list: Seq<TemplateCapability>) -> Seq<TemplateCapabilityView> {
    Seq::new(list.len(), |i: int| list[i]@)
}

/// What a record says of its template.
pub open spec fn diagnosed(report: ReportView, capability: TemplateCapabilityView, valid: bool) -> ReportView {
    let name = capability.basename;
    match capability.record.payload {
        TemplatePayloadView::Ready { root_name, .. } => if valid {
            report.with("template"@, name, utf8(root_name), "READY"@, "OK"@)
        } else {
            report.recovering("template"@, name, utf8(root_name), "READY"@)
        },
        TemplatePayloadView::Tombstoned { tombstone_name, .. } => if valid {
            report.with("template"@, name, utf8(tombstone_name), "TOMBSTONED"@, "RECOVERY"@)
        } else {
            report.recovering("template"@, name, utf8(tombstone_name), "TOMBSTONED"@)
        },
        TemplatePayloadView::Prepared { building_name }
        | TemplatePayloadView::Materializing { building_name, .. }
        | TemplatePayloadView::Publishing { building_name, .. } => report.recovering(
            "template"@,
            name,
            utf8(building_name),
            "INCOMPLETE"@,
        ),
    }
}

/// Adds what a record says of its template; `valid` is whether its root stands as it should.
pub fn diagnose_template_capability(
    capability: &TemplateCapability,
    valid: bool,
    report: &mut MaintenanceReport,
)
    ensures
        final(report)@ == diagnosed(old(report)@, capability@, valid),
{
    let name = capability.basename.as_slice();
    match &capability.record.payload {
        TemplatePayload::Ready { root_name, .. } => {
            let path = root_name.as_str().as_bytes();
            if valid {
                report.entry("template", name, path, "READY", "OK");
            } else {
                report.recovery("template", name, path, "READY");
            }
        },
        TemplatePayload::Tombstoned { tombstone_name, .. } => {
            let path = tombstone_name.as_str().as_bytes();
            if valid {
                report.entry("template", name, path, "TOMBSTONED", "RECOVERY");
            } else {
                report.recovery("template", name, path, "TOMBSTONED");
            }
        },
        TemplatePayload::Prepared { building_name } => {
            report.recovery("template", name, building_name.as_str().as_bytes(), "INCOMPLETE");
        },
        TemplatePayload::Materializing { building_name, .. } => {
            report.recovery("template", name, building_name.as_str().as_bytes(), "INCOMPLETE");
        },
        TemplatePayload::Publishing { building_name, .. } => {
            report.recovery("template", name, building_name.as_str().as_bytes(), "INCOMPLETE");
        },
    }
}

/// Whether the names of a template that is being removed can be: the sealed root under its own name,
/// the root under the name it is removed under, or neither.
pub fn tombstone_stands(
    root: Result<Option<Identity>, Error>,
    tombstone: Result<Option<Identity>, Error>,
    sealed: Identity,
    sealed_holds: bool,
    tombstone_holds: bool,
) -> (stands: bool)
    ensures
        stands == match (root, tombstone) {
            (Ok(Some(root)), Ok(None)) => root == sealed && sealed_holds,
            (Ok(None), Ok(Some(_))) => tombstone_holds,
            (Ok(None), Ok(None)) => true,
            _ => false,
        },
{
    match (root, tombstone) {
        (Ok(Some(root)), Ok(None)) => root == sealed && sealed_holds,
        (Ok(None), Ok(Some(_))) => tombstone_holds,
        (Ok(None), Ok(None)) => true,
        _ => false,
    }
}

/// What there is of templates.
#[derive(Debug)]
pub struct TemplateCensus {
    pub capabilities: Vec<TemplateCapability>,
    /// Records that an exchange left behind.
    pub temporaries: Vec<Vec<u8>>,
    pub report: MaintenanceReport,
}

#[verifier::ext_equal]
pub struct CensusView {
    pub capabilities: Seq<TemplateCapabilityView>,
    pub temporaries: Seq<Seq<u8>>,
    pub report: ReportView,
}

impl View for TemplateCensus {
    type V = CensusView;

    open spec fn view(&self) -> CensusView {
        CensusView {
            capabilities: capability_views(self.capabilities@),
            temporaries: views(self.temporaries@),
            report: self.report@,
        }
    }
}

impl CensusView {
    pub open spec fn blank() -> CensusView {
        CensusView {
            capabilities: Seq::empty(),
            temporaries: Seq::empty(),
            report: ReportView::blank(),
        }
    }

    /// The census of the records among the names.
    pub open spec fn records(names: Seq<CensusNameView>) -> CensusView
        decreases names.len(),
    {
        if names.len() == 0 {
            CensusView::blank()
        } else {
            CensusView::records(names.drop_last()).with_record(names.last())
        }
    }

    pub open spec fn with_record(self, name: CensusNameView) -> CensusView {
        if !is_template_record_name(name.name) {
            self
        } else {
            match name.record {
                None => CensusView {
                    report: self.report.recovering("template"@, name.name, name.name, "CORRUPT"@),
                    ..self
                },
                Some(capability) => CensusView {
                    capabilities: self.capabilities.push(capability),
                    report: diagnosed(self.report, capability, name.valid),
                    ..self
                },
            }
        }
    }

    /// The names that belong to a record or are one.
    pub open spec fn is_authorized(names: Seq<CensusNameView>, name: Seq<u8>) -> bool {
        exists|i: int|
            0 <= i < names.len() && is_template_record_name((#[trigger] names[i]).name) && (
            names[i].name == name || (names[i].record is Some
                && names[i].record->0.record.names().contains(name)))
    }

    pub open spec fn with_other(self, name: CensusNameView, report_temporary: bool) -> CensusView {
        if utf8("."@).is_prefix_of(name.name) && utf8(".tmp"@).is_suffix_of(name.name) {
            if name.predecessor {
                CensusView {
                    temporaries: self.temporaries.push(name.name),
                    report: if report_temporary {
                        self.report.item(name.name, "TMP"@, "RETAINED"@)
                    } else {
                        self.report
                    },
                    ..self
                }
            } else {
                CensusView {
                    report: self.report.recovering("template"@, name.name, name.name, "TMP"@),
                    ..self
                }
            }
        } else {
            CensusView {
                report: self.report.recovering("template"@, name.name, name.name, "UNKNOWN"@),
                ..self
            }
        }
    }

    /// The census of all names: `all` says which belong to a record.
    pub open spec fn others(
        self,
        names: Seq<CensusNameView>,
        all: Seq<CensusNameView>,
        report_temporary: bool,
    ) -> CensusView
        decreases names.len(),
    {
        if names.len() == 0 {
            self
        } else {
            let before = self.others(names.drop_last(), all, report_temporary);
            if CensusView::is_authorized(all, names.last().name) {
                before
            } else {
                before.with_other(names.last(), report_temporary)
            }
        }
    }

    pub open spec fn of(names: Seq<CensusNameView>, report_temporary: bool) -> CensusView {
        CensusView::records(names).others(names, names, report_temporary)
    }
}

fn authorized(names: &Vec<CensusName>, name: &[u8]) -> (is: bool)
    ensures
        is == CensusView::is_authorized(name_views(names@), name@),
{
    let ghost all = name_views(names@);
    let mut i: usize = 0;
    while i < names.len()
        invariant
            i <= names@.len(),
            all == name_views(names@),
            forall|k: int|
                0 <= k < i ==> !(is_template_record_name((#[trigger] all[k]).name) && (all[k].name
                    == name@ || (all[k].record is Some
                    && all[k].record->0.record.names().contains(name@)))),
        decreases names@.len() - i,
    {
        proof {
            assert(all[i as int] == names@[i as int]@);
        }
        if template_record_name(names[i].name.as_slice()) {
            if same_bytes(names[i].name.as_slice(), name) {
                return true;
            }
            match &names[i].record {
                Ok(Some(capability)) => {
                    let owned = template_payload_names(&capability.record);
                    let mut k: usize = 0;
                    while k < owned.len()
                        invariant
                            k <= owned@.len(),
                            views(owned@) == capability.record@.names(),
                            forall|m: int| 0 <= m < k ==> #[trigger] views(owned@)[m] != name@,
                            i < names@.len(),
                            all == name_views(names@),
                            all[i as int] == names@[i as int]@,
                            names@[i as int].record == Ok::<Option<TemplateCapability>, Error>(
                                Some(*capability),
                            ),
                            is_template_record_name(all[i as int].name),
                        decreases owned@.len() - k,
                    {
                        if same_bytes(owned[k].as_slice(), name) {
                            proof {
                                assert(views(owned@)[k as int] == name@);
                                assert(all[i as int].record->0.record.names().contains(name@));
                            }
                            return true;
                        }
                        proof {
                            assert(views(owned@)[k as int] == owned@[k as int]@);
                        }
                        k += 1;
                    }
                    proof {
                        assert(!capability.record@.names().contains(name@)) by {
                            if capability.record@.names().contains(name@) {
                                let m = choose|m: int|
                                    0 <= m < views(owned@).len() && views(owned@)[m] == name@;
                                assert(views(owned@)[m] != name@);
                            }
                        }
                    }
                },
                _ => {},
            }
        }
        i += 1;
    }
    false
}

/// What there is of templates, from what was found out about each name.
pub fn template_census(names: &Vec<CensusName>, report_temporary: bool) -> (census: TemplateCensus)
    ensures
        census@ == CensusView::of(name_views(names@), report_temporary),
{
    let ghost all = name_views(names@);
    let mut census = TemplateCensus {
        capabilities: Vec::new(),
        temporaries: Vec::new(),
        report: MaintenanceReport::blank(),
    };
    proof {
        assert(census@ =~= CensusView::blank());
        assert(all.subrange(0, 0) =~= Seq::<CensusNameView>::empty());
    }
    let mut i: usize = 0;
    while i < names.len()
        invariant
            i <= names@.len(),
            all == name_views(names@),
            census@ == CensusView::records(all.subrange(0, i as int)),
        decreases names@.len() - i,
    {
        let ghost part = all.subrange(0, i + 1);
        let ghost before = census@;
        proof {
            assert(part.drop_last() =~= all.subrange(0, i as int));
            assert(part.last() == names@[i as int]@);
        }
        let entry = &names[i];
        if template_record_name(entry.name.as_slice()) {
            match &entry.record {
                Ok(Some(capability)) => {
                    diagnose_template_capability(capability, entry.valid, &mut census.report);
                    census.capabilities.push(capability.copy());
                    proof {
                        assert(capability_views(census.capabilities@)
                            =~= before.capabilities.push(capability@));
                    }
                },
                _ => {
                    census.report.recovery(
                        "template",
                        entry.name.as_slice(),
                        entry.name.as_slice(),
                        "CORRUPT",
                    );
                },
            }
        }
        proof {
            assert(census@ =~= before.with_record(entry@));
        }
        i += 1;
    }
    proof {
        assert(all.subrange(0, i as int) =~= all);
        assert(all.subrange(0, 0) =~= Seq::<CensusNameView>::empty());
    }
    let ghost records = census@;
    let mut i: usize = 0;
    while i < names.len()
        invariant
            i <= names@.len(),
            all == name_views(names@),
            census@ == records.others(all.subrange(0, i as int), all, report_temporary),
        decreases names@.len() - i,
    {
        let ghost part = all.subrange(0, i + 1);
        let ghost before = census@;
        proof {
            assert(part.drop_last() =~= all.subrange(0, i as int));
            assert(part.last() == names@[i as int]@);
        }
        let entry = &names[i];
        let name = entry.name.as_slice();
        if !authorized(names, name) {
            if starts_with(name, ".".as_bytes()) && ends_with(name, ".tmp".as_bytes()) {
                if entry.predecessor {
                    census.temporaries.push(copy_bytes(name));
                    if report_temporary {
                        template_item(&mut census.report, name, "TMP", "RETAINED");
                    }
                    proof {
                        assert(views(census.temporaries@) =~= before.temporaries.push(name@));
                    }
                } else {
                    census.report.recovery("template", name, name, "TMP");
                }
            } else {
                census.report.recovery("template", name, name, "UNKNOWN");
            }
            proof {
                assert(census@ =~= before.with_other(entry@, report_temporary));
            }
        }
        i += 1;
    }
    proof {
        assert(all.subrange(0, i as int) =~= all);
    }
    census
}

/// A temporary record, and what it was left behind by.
#[derive(Debug)]
pub struct TemporaryRecord {
    /// The record that it was to become, where its name says one.
    pub final_name: Option<Vec<u8>>,
    pub current: Result<Option<TemplateCapability>, Error>,
    pub previous: Result<TemplateRecord, Error>,
}

pub open spec fn predecessor_failure(found: Result<TemporaryRecord, Error>) -> Option<Failure> {
    let code = "TEMPLATE_RECOVERY_REQUIRED"@;
    match found {
        Err(error) => Some(error@),
        Ok(found) => {
            let f = or_fail(
                None,
                found.final_name is Some,
                code,
                "temporary template record basename is not a RecordTxn predecessor"@,
            );
            let f = or_fail(
                f,
                is_template_record_name(found.final_name->0@),
                code,
                "temporary record does not name a template record"@,
            );
            let f = first_of(f, failure(found.current));
            let f = or_fail(
                f,
                found.current->Ok_0 is Some,
                code,
                "temporary template record has no current successor"@,
            );
            let f = first_of(f, failure(found.previous));
            or_fail(
                f,
                found.previous->Ok_0@.steps_to(found.current->Ok_0->0@.record)
                    || found.current->Ok_0->0@.record.steps_to(found.previous->Ok_0@),
                code,
                "temporary template record is not the direct predecessor of its current record"@,
            )
        },
    }
}

/// Whether a temporary record is one that an exchange left behind: the direct predecessor of the
/// record that stands.
pub fn template_predecessor_temporary(found: Result<TemporaryRecord, Error>) -> (current: Result<
    TemplateCapability,
    Error,
>)
    ensures
        failure(current) == predecessor_failure(found),
        current matches Ok(current) ==> current == found->Ok_0.current->Ok_0->0,
{
    let found = found?;
    match &found.final_name {
        None => {
            return Err(
                template_recovery(
                    "temporary template record basename is not a RecordTxn predecessor",
                ),
            );
        },
        Some(name) => {
            if !template_record_name(name.as_slice()) {
                return Err(template_recovery("temporary record does not name a template record"));
            }
        },
    }
    let current = match found.current? {
        Some(current) => current,
        None => {
            return Err(template_recovery("temporary template record has no current successor"));
        },
    };
    let previous = found.previous?;
    if !template_precedes(&previous, &current.record) {
        return Err(
            template_recovery(
                "temporary template record is not the direct predecessor of its current record",
            ),
        );
    }
    Ok(current)
}

pub open spec fn session_template_failure(
    capability: Result<Option<TemplateCapability>, Error>,
    key: Seq<char>,
    expected: SealedView,
) -> Option<Failure> {
    let code = "TEMPLATE_RECOVERY_REQUIRED"@;
    let record = capability->Ok_0->0@.record;
    let f = or_fail(
        failure(capability),
        capability->Ok_0 is Some,
        code,
        "session template record is absent"@,
    );
    let f = or_fail(
        f,
        record.key == key && record.volume == expected.volume && record.digest == expected.digest
            && record.entries == expected.entries,
        code,
        "session template record does not match its receipt binding"@,
    );
    first_of(
        f,
        match record.payload {
            TemplatePayloadView::Ready { sealed, .. } => if sealed == expected {
                None
            } else {
                Some(
                    needs_recovery("session template receipt does not match the READY record"@),
                )
            },
            TemplatePayloadView::Tombstoned { sealed, .. } => if sealed == expected {
                None
            } else {
                Some(
                    needs_recovery(
                        "session template receipt does not match the TOMBSTONED record"@,
                    ),
                )
            },
            _ => Some(needs_recovery("session template record is not in a reachable state"@)),
        },
    )
}

/// The template that a session was cloned from: READY, or about to go and not gone yet. The roots of
/// it that are left are looked at next.
pub fn validate_session_template(
    capability: Result<Option<TemplateCapability>, Error>,
    key: &str,
    expected: &SealedTreeReceipt,
) -> (found: Result<TemplateCapability, Error>)
    ensures
        failure(found) == session_template_failure(capability, key@, expected@),
        found matches Ok(found) ==> found == capability->Ok_0->0 && (found@.record.payload is Ready
            || found@.record.payload is Tombstoned),
{
    let found = match capability? {
        Some(found) => found,
        None => {
            return Err(template_recovery("session template record is absent"));
        },
    };
    if !same_text(found.record.key.as_str(), key) || !same_text(
        found.record.volume.as_str(),
        expected.volume.as_str(),
    ) || !found.record.manifest.same(&expected.manifest) {
        return Err(template_recovery("session template record does not match its receipt binding"));
    }
    let matched: Option<bool> = match &found.record.payload {
        TemplatePayload::Ready { sealed, .. } => if sealed.same(expected) {
            None
        } else {
            Some(true)
        },
        TemplatePayload::Tombstoned { sealed, .. } => if sealed.same(expected) {
            None
        } else {
            Some(false)
        },
        _ => {
            return Err(template_recovery("session template record is not in a reachable state"));
        },
    };
    match matched {
        None => Ok(found),
        Some(ready) => if ready {
            Err(template_recovery("session template receipt does not match the READY record"))
        } else {
            Err(template_recovery("session template receipt does not match the TOMBSTONED record"))
        },
    }
}

/// Under which of its names the root of a template stands that is about to go: its own, or the one it
/// is removed under.
pub fn session_tombstone_name(
    own: Result<Option<Identity>, Error>,
    tombstone: Result<Option<Identity>, Error>,
    root: Identity,
) -> (is_own: Result<bool, Error>)
    ensures
        crate::cow::told(is_own) == match (own, tombstone) {
            (Err(error), _) => Err(error@),
            (_, Err(error)) => Err(error@),
            (Ok(Some(found)), Ok(None)) => if found == root {
                Ok(true)
            } else {
                Err(needs_recovery("session template tombstone names are not safely bound"@))
            },
            (Ok(None), Ok(Some(_))) => Ok(false),
            _ => Err(needs_recovery("session template tombstone names are not safely bound"@)),
        },
{
    match (own, tombstone) {
        (Err(error), _) => Err(error),
        (_, Err(error)) => Err(error),
        (Ok(Some(found)), Ok(None)) => if found == root {
            Ok(true)
        } else {
            Err(template_recovery("session template tombstone names are not safely bound"))
        },
        (Ok(None), Ok(Some(_))) => Ok(false),
        _ => Err(template_recovery("session template tombstone names are not safely bound")),
    }
}

/// Collecting one template.
#[derive(Debug)]
pub enum Collect {
    /// A READY template.
    ReadyChecking,
    ReadyLeasing,
    ReadyRevalidating,
    ReadyCounting,
    Burying,
    /// A template that is to go. `counts` is whether its use is still to be looked into.
    NamesSeeing { counts: bool },
    GoneCounting,
    SealedChecking { counts: bool },
    TombstoneChecking { counts: bool },
    Leasing { counts: bool },
    Revalidating { counts: bool },
    Counting,
    PromoteSeeing,
    Renaming,
    ParentSyncing,
    PromotedSeeing,
    RevalidatingAgain,
    TreeRemoving,
    RecordRemoving,
    Ended(Result<bool, Error>),
}

#[verifier::ext_equal]
pub enum CollectView {
    ReadyChecking,
    ReadyLeasing,
    ReadyRevalidating,
    ReadyCounting,
    Burying,
    NamesSeeing(bool),
    GoneCounting,
    SealedChecking(bool),
    TombstoneChecking(bool),
    Leasing(bool),
    Revalidating(bool),
    Counting,
    PromoteSeeing,
    Renaming,
    ParentSyncing,
    PromotedSeeing,
    RevalidatingAgain,
    TreeRemoving,
    RecordRemoving,
    /// Whether the template was removed.
    Ended(bool),
    Failed(Failure),
}

impl View for Collect {
    type V = CollectView;

    open spec fn view(&self) -> CollectView {
        match self {
            Collect::ReadyChecking => CollectView::ReadyChecking,
            Collect::ReadyLeasing => CollectView::ReadyLeasing,
            Collect::ReadyRevalidating => CollectView::ReadyRevalidating,
            Collect::ReadyCounting => CollectView::ReadyCounting,
            Collect::Burying => CollectView::Burying,
            Collect::NamesSeeing { counts } => CollectView::NamesSeeing(*counts),
            Collect::GoneCounting => CollectView::GoneCounting,
            Collect::SealedChecking { counts } => CollectView::SealedChecking(*counts),
            Collect::TombstoneChecking { counts } => CollectView::TombstoneChecking(*counts),
            Collect::Leasing { counts } => CollectView::Leasing(*counts),
            Collect::Revalidating { counts } => CollectView::Revalidating(*counts),
            Collect::Counting => CollectView::Counting,
            Collect::PromoteSeeing => CollectView::PromoteSeeing,
            Collect::Renaming => CollectView::Renaming,
            Collect::ParentSyncing => CollectView::ParentSyncing,
            Collect::PromotedSeeing => CollectView::PromotedSeeing,
            Collect::RevalidatingAgain => CollectView::RevalidatingAgain,
            Collect::TreeRemoving => CollectView::TreeRemoving,
            Collect::RecordRemoving => CollectView::RecordRemoving,
            Collect::Ended(Ok(removed)) => CollectView::Ended(*removed),
            Collect::Ended(Err(error)) => CollectView::Failed(error@),
        }
    }
}

#[derive(Clone, Copy, Debug, PartialEq, Eq, Structural)]
pub enum CollectAction {
    /// Look at the sealed root under its own name, and verify it.
    CheckSealedRoot,
    CheckTombstoneRoot,
    /// Take the template's lease alone.
    LeaseRoot,
    /// Look at the record and the root again.
    Revalidate,
    /// Ask whether a session uses the template.
    CountUses,
    /// Write the record of a template that is to go.
    BuryRecord,
    SeeNames,
    RenameRoot,
    SyncParent,
    StatTombstone,
    RemoveTree,
    RemoveRecord,
    Nothing,
}

#[derive(Debug)]
pub enum CollectEvent {
    Done(Result<(), Error>),
    Used(Result<bool, Error>),
    Names(Result<Option<Identity>, Error>, Result<Option<Identity>, Error>),
    Renamed(RenameEvent),
    Synced(Result<(), String>),
    Name(Result<Option<Identity>, Error>),
}

impl CollectView {
    pub open spec fn step(done: Result<(), Error>, next: CollectView) -> CollectView {
        match done {
            Err(error) => CollectView::Failed(error@),
            Ok(_) => next,
        }
    }

    /// A template that is used stays.
    pub open spec fn unless_used(used: Result<bool, Error>, next: CollectView) -> CollectView {
        match used {
            Err(error) => CollectView::Failed(error@),
            Ok(used) => if used {
                CollectView::Ended(false)
            } else {
                next
            },
        }
    }

    /// Collection after the driver's answer; `root` is the template's sealed root. An answer to another
    /// question changes nothing.
    pub open spec fn after(self, event: CollectEvent, root: Identity, uid: u32) -> CollectView {
        let unsafe_names = CollectView::Failed(
            needs_recovery("template root and tombstone names are not safely recoverable"@),
        );
        match (self, event) {
            (CollectView::ReadyChecking, CollectEvent::Done(done)) => CollectView::step(
                done,
                CollectView::ReadyLeasing,
            ),
            (CollectView::ReadyLeasing, CollectEvent::Done(done)) => CollectView::step(
                done,
                CollectView::ReadyRevalidating,
            ),
            (CollectView::ReadyRevalidating, CollectEvent::Done(done)) => CollectView::step(
                done,
                CollectView::ReadyCounting,
            ),
            (CollectView::ReadyCounting, CollectEvent::Used(used)) => CollectView::unless_used(
                used,
                CollectView::Burying,
            ),
            (CollectView::Burying, CollectEvent::Done(done)) => CollectView::step(
                done,
                CollectView::NamesSeeing(false),
            ),
            (CollectView::NamesSeeing(counts), CollectEvent::Names(own, tombstone)) => match (
                own,
                tombstone,
            ) {
                (Err(error), _) => CollectView::Failed(error@),
                (_, Err(error)) => CollectView::Failed(error@),
                (Ok(Some(found)), Ok(None)) => if found == root {
                    CollectView::SealedChecking(counts)
                } else {
                    unsafe_names
                },
                (Ok(None), Ok(Some(_))) => CollectView::TombstoneChecking(counts),
                (Ok(None), Ok(None)) => if counts {
                    CollectView::GoneCounting
                } else {
                    CollectView::RecordRemoving
                },
                _ => unsafe_names,
            },
            (CollectView::GoneCounting, CollectEvent::Used(used)) => CollectView::unless_used(
                used,
                CollectView::RecordRemoving,
            ),
            (CollectView::SealedChecking(counts), CollectEvent::Done(done)) => CollectView::step(
                done,
                CollectView::Leasing(counts),
            ),
            (CollectView::TombstoneChecking(counts), CollectEvent::Done(done)) => CollectView::step(
                done,
                CollectView::Leasing(counts),
            ),
            (CollectView::Leasing(counts), CollectEvent::Done(done)) => CollectView::step(
                done,
                CollectView::Revalidating(counts),
            ),
            (CollectView::Revalidating(counts), CollectEvent::Done(done)) => CollectView::step(
                done,
                if counts {
                    CollectView::Counting
                } else {
                    CollectView::PromoteSeeing
                },
            ),
            (CollectView::Counting, CollectEvent::Used(used)) => CollectView::unless_used(
                used,
                CollectView::PromoteSeeing,
            ),
            (CollectView::PromoteSeeing, CollectEvent::Names(own, tombstone)) => match (
                own,
                tombstone,
            ) {
                (Err(error), _) => CollectView::Failed(error@),
                (_, Err(error)) => CollectView::Failed(error@),
                (Ok(Some(found)), Ok(None)) => if found == root {
                    CollectView::Renaming
                } else {
                    unsafe_names
                },
                (Ok(None), Ok(Some(found))) => if is_owned_tree(found, root) && is_cleanup_mode(
                    found,
                    uid,
                ) {
                    CollectView::RevalidatingAgain
                } else {
                    unsafe_names
                },
                _ => unsafe_names,
            },
            (CollectView::Renaming, CollectEvent::Renamed(renamed)) => match renamed {
                RenameEvent::Done => CollectView::ParentSyncing,
                RenameEvent::Interrupted(words) => CollectView::Failed(
                    needs_recovery(
                        "template tombstone rename has an unknown result"@ + ": "@ + words@,
                    ),
                ),
                RenameEvent::Exists(words) | RenameEvent::Failed(words) => CollectView::Failed(
                    needs_recovery(
                        "cannot rename template root into its tombstone namespace"@ + ": "@ + words@,
                    ),
                ),
            },
            (CollectView::ParentSyncing, CollectEvent::Synced(synced)) => match synced {
                Err(words) => CollectView::Failed(
                    needs_recovery(
                        "cannot sync template container after tombstone rename"@ + ": "@ + words@,
                    ),
                ),
                Ok(_) => CollectView::PromotedSeeing,
            },
            (CollectView::PromotedSeeing, CollectEvent::Name(seen)) => match seen {
                Err(error) => CollectView::Failed(error@),
                Ok(found) => if found == Some(root) {
                    CollectView::RevalidatingAgain
                } else {
                    CollectView::Failed(
                        needs_recovery("template tombstone binding changed after rename"@),
                    )
                },
            },
            (CollectView::RevalidatingAgain, CollectEvent::Done(done)) => CollectView::step(
                done,
                CollectView::TreeRemoving,
            ),
            (CollectView::TreeRemoving, CollectEvent::Done(done)) => CollectView::step(
                done,
                CollectView::RecordRemoving,
            ),
            (CollectView::RecordRemoving, CollectEvent::Done(done)) => CollectView::step(
                done,
                CollectView::Ended(true),
            ),
            _ => self,
        }
    }

    pub open spec fn asks(self) -> CollectAction {
        match self {
            CollectView::ReadyChecking | CollectView::SealedChecking(_) => {
                CollectAction::CheckSealedRoot
            },
            CollectView::TombstoneChecking(_) => CollectAction::CheckTombstoneRoot,
            CollectView::ReadyLeasing | CollectView::Leasing(_) => CollectAction::LeaseRoot,
            CollectView::ReadyRevalidating
            | CollectView::Revalidating(_)
            | CollectView::RevalidatingAgain => CollectAction::Revalidate,
            CollectView::ReadyCounting | CollectView::GoneCounting | CollectView::Counting => {
                CollectAction::CountUses
            },
            CollectView::Burying => CollectAction::BuryRecord,
            CollectView::NamesSeeing(_) | CollectView::PromoteSeeing => CollectAction::SeeNames,
            CollectView::Renaming => CollectAction::RenameRoot,
            CollectView::ParentSyncing => CollectAction::SyncParent,
            CollectView::PromotedSeeing => CollectAction::StatTombstone,
            CollectView::TreeRemoving => CollectAction::RemoveTree,
            CollectView::RecordRemoving => CollectAction::RemoveRecord,
            CollectView::Ended(_) | CollectView::Failed(_) => CollectAction::Nothing,
        }
    }

    /// Where collection of a template begins.
    pub open spec fn starting(payload: TemplatePayloadView) -> CollectView {
        match payload {
            TemplatePayloadView::Ready { .. } => CollectView::ReadyChecking,
            _ => CollectView::NamesSeeing(true),
        }
    }
}

fn stepped(done: Result<(), Error>, next: Collect) -> (collect: Collect)
    ensures
        collect@ == CollectView::step(done, next@),
{
    match done {
        Err(error) => Collect::Ended(Err(error)),
        Ok(_) => next,
    }
}

fn unless_used(used: Result<bool, Error>, next: Collect) -> (collect: Collect)
    ensures
        collect@ == CollectView::unless_used(used, next@),
{
    match used {
        Err(error) => Collect::Ended(Err(error)),
        Ok(used) => if used {
            Collect::Ended(Ok(false))
        } else {
            next
        },
    }
}

fn recover(detail: &str) -> (collect: Collect)
    ensures
        collect@ == CollectView::Failed(needs_recovery(detail@)),
{
    Collect::Ended(Err(template_recovery(detail)))
}

fn recover_io(context: &str, words: String) -> (collect: Collect)
    ensures
        collect@ == CollectView::Failed(needs_recovery(context@ + ": "@ + words@)),
{
    Collect::Ended(Err(Error::io("TEMPLATE_RECOVERY_REQUIRED", context, words.as_str())))
}

impl Collect {
    pub fn start(payload: &TemplatePayload) -> (collect: Self)
        ensures
            collect@ == CollectView::starting(payload@),
    {
        match payload {
            TemplatePayload::Ready { .. } => Collect::ReadyChecking,
            _ => Collect::NamesSeeing { counts: true },
        }
    }

    pub fn action(&self) -> (action: CollectAction)
        ensures
            action == self@.asks(),
    {
        match self {
            Collect::ReadyChecking => CollectAction::CheckSealedRoot,
            Collect::SealedChecking { .. } => CollectAction::CheckSealedRoot,
            Collect::TombstoneChecking { .. } => CollectAction::CheckTombstoneRoot,
            Collect::ReadyLeasing => CollectAction::LeaseRoot,
            Collect::Leasing { .. } => CollectAction::LeaseRoot,
            Collect::ReadyRevalidating => CollectAction::Revalidate,
            Collect::Revalidating { .. } => CollectAction::Revalidate,
            Collect::RevalidatingAgain => CollectAction::Revalidate,
            Collect::ReadyCounting => CollectAction::CountUses,
            Collect::GoneCounting => CollectAction::CountUses,
            Collect::Counting => CollectAction::CountUses,
            Collect::Burying => CollectAction::BuryRecord,
            Collect::NamesSeeing { .. } => CollectAction::SeeNames,
            Collect::PromoteSeeing => CollectAction::SeeNames,
            Collect::Renaming => CollectAction::RenameRoot,
            Collect::ParentSyncing => CollectAction::SyncParent,
            Collect::PromotedSeeing => CollectAction::StatTombstone,
            Collect::TreeRemoving => CollectAction::RemoveTree,
            Collect::RecordRemoving => CollectAction::RemoveRecord,
            Collect::Ended(_) => CollectAction::Nothing,
        }
    }

    /// Takes the driver's answer; `root` is the template's sealed root, and `uid` the user who runs the
    /// program.
    #[verifier::spinoff_prover]
    pub fn complete_template_tombstone(self, event: CollectEvent, root: Identity, uid: u32) -> (next:
        Self)
        ensures
            next@ == self@.after(event, root, uid),
    {
        let unsafe_names = "template root and tombstone names are not safely recoverable";
        match (self, event) {
            (Collect::ReadyChecking, CollectEvent::Done(done)) => stepped(
                done,
                Collect::ReadyLeasing,
            ),
            (Collect::ReadyLeasing, CollectEvent::Done(done)) => stepped(
                done,
                Collect::ReadyRevalidating,
            ),
            (Collect::ReadyRevalidating, CollectEvent::Done(done)) => stepped(
                done,
                Collect::ReadyCounting,
            ),
            (Collect::ReadyCounting, CollectEvent::Used(used)) => unless_used(
                used,
                Collect::Burying,
            ),
            (Collect::Burying, CollectEvent::Done(done)) => stepped(
                done,
                Collect::NamesSeeing { counts: false },
            ),
            (Collect::NamesSeeing { counts }, CollectEvent::Names(own, tombstone)) => match (
                own,
                tombstone,
            ) {
                (Err(error), _) => Collect::Ended(Err(error)),
                (_, Err(error)) => Collect::Ended(Err(error)),
                (Ok(Some(found)), Ok(None)) => if found == root {
                    Collect::SealedChecking { counts }
                } else {
                    recover(unsafe_names)
                },
                (Ok(None), Ok(Some(_))) => Collect::TombstoneChecking { counts },
                (Ok(None), Ok(None)) => if counts {
                    Collect::GoneCounting
                } else {
                    Collect::RecordRemoving
                },
                _ => recover(unsafe_names),
            },
            (Collect::GoneCounting, CollectEvent::Used(used)) => unless_used(
                used,
                Collect::RecordRemoving,
            ),
            (Collect::SealedChecking { counts }, CollectEvent::Done(done)) => stepped(
                done,
                Collect::Leasing { counts },
            ),
            (Collect::TombstoneChecking { counts }, CollectEvent::Done(done)) => stepped(
                done,
                Collect::Leasing { counts },
            ),
            (Collect::Leasing { counts }, CollectEvent::Done(done)) => stepped(
                done,
                Collect::Revalidating { counts },
            ),
            (Collect::Revalidating { counts }, CollectEvent::Done(done)) => stepped(
                done,
                if counts {
                    Collect::Counting
                } else {
                    Collect::PromoteSeeing
                },
            ),
            (Collect::Counting, CollectEvent::Used(used)) => unless_used(
                used,
                Collect::PromoteSeeing,
            ),
            (Collect::PromoteSeeing, CollectEvent::Names(own, tombstone)) => match (own, tombstone) {
                (Err(error), _) => Collect::Ended(Err(error)),
                (_, Err(error)) => Collect::Ended(Err(error)),
                (Ok(Some(found)), Ok(None)) => if found == root {
                    Collect::Renaming
                } else {
                    recover(unsafe_names)
                },
                (Ok(None), Ok(Some(found))) => if owned_tree_binding(found, root)
                    && tombstone_cleanup_mode(found, uid) {
                    Collect::RevalidatingAgain
                } else {
                    recover(unsafe_names)
                },
                _ => recover(unsafe_names),
            },
            (Collect::Renaming, CollectEvent::Renamed(renamed)) => match renamed {
                RenameEvent::Done => Collect::ParentSyncing,
                RenameEvent::Interrupted(words) => recover_io(
                    "template tombstone rename has an unknown result",
                    words,
                ),
                RenameEvent::Exists(words) => recover_io(
                    "cannot rename template root into its tombstone namespace",
                    words,
                ),
                RenameEvent::Failed(words) => recover_io(
                    "cannot rename template root into its tombstone namespace",
                    words,
                ),
            },
            (Collect::ParentSyncing, CollectEvent::Synced(synced)) => match synced {
                Err(words) => recover_io(
                    "cannot sync template container after tombstone rename",
                    words,
                ),
                Ok(_) => Collect::PromotedSeeing,
            },
            (Collect::PromotedSeeing, CollectEvent::Name(seen)) => match seen {
                Err(error) => Collect::Ended(Err(error)),
                Ok(Some(found)) => if found == root {
                    Collect::RevalidatingAgain
                } else {
                    recover("template tombstone binding changed after rename")
                },
                Ok(None) => recover("template tombstone binding changed after rename"),
            },
            (Collect::RevalidatingAgain, CollectEvent::Done(done)) => stepped(
                done,
                Collect::TreeRemoving,
            ),
            (Collect::TreeRemoving, CollectEvent::Done(done)) => stepped(
                done,
                Collect::RecordRemoving,
            ),
            (Collect::RecordRemoving, CollectEvent::Done(done)) => stepped(
                done,
                Collect::Ended(Ok(true)),
            ),
            (collect, _) => collect,
        }
    }
}

/// What is known of a template while it is collected: that no session uses it, and that its lease is
/// held.
pub struct CollectGhost {
    pub collect: CollectView,
    pub unused: bool,
    pub leased: bool,
}

impl CollectGhost {
    pub open spec fn after(self, event: CollectEvent, root: Identity, uid: u32) -> CollectGhost {
        CollectGhost {
            collect: self.collect.after(event, root, uid),
            unused: self.unused || (self.collect.asks() == CollectAction::CountUses && (event
                matches CollectEvent::Used(Ok(used)) && !used)),
            leased: self.leased || (self.collect.asks() == CollectAction::LeaseRoot && (event
                matches CollectEvent::Done(Ok(_)))),
        }
    }

    /// What a stage takes for granted has been seen.
    pub open spec fn is_careful(self) -> bool {
        let unused = match self.collect {
            CollectView::NamesSeeing(counts)
            | CollectView::SealedChecking(counts)
            | CollectView::TombstoneChecking(counts)
            | CollectView::Leasing(counts)
            | CollectView::Revalidating(counts) => !counts,
            CollectView::Burying
            | CollectView::RecordRemoving
            | CollectView::PromoteSeeing
            | CollectView::Renaming
            | CollectView::ParentSyncing
            | CollectView::PromotedSeeing
            | CollectView::RevalidatingAgain
            | CollectView::TreeRemoving => true,
            CollectView::Ended(removed) => removed,
            _ => false,
        };
        let leased = match self.collect {
            CollectView::Revalidating(_)
            | CollectView::Counting
            | CollectView::PromoteSeeing
            | CollectView::Renaming
            | CollectView::ParentSyncing
            | CollectView::PromotedSeeing
            | CollectView::RevalidatingAgain
            | CollectView::TreeRemoving => true,
            _ => false,
        };
        (unused ==> self.unused) && (leased ==> self.leased)
    }
}

/// Nothing of a template is written, renamed or removed before it was found that no session uses it;
/// and its tree is touched only while its lease is held.
pub proof fn law_used_templates_stay(
    ghost: CollectGhost,
    event: CollectEvent,
    root: Identity,
    uid: u32,
)
    requires
        ghost.is_careful(),
    ensures
        ghost.after(event, root, uid).is_careful(),
        ghost.collect.asks() == CollectAction::RemoveTree ==> ghost.unused && ghost.leased,
        ghost.collect.asks() == CollectAction::RemoveRecord ==> ghost.unused,
        ghost.collect.asks() == CollectAction::BuryRecord ==> ghost.unused,
        forall|payload: TemplatePayloadView|
            (CollectGhost {
                collect: #[trigger] CollectView::starting(payload),
                unused: false,
                leased: false,
            }).is_careful(),
{
}

/// The collection of all templates.
#[derive(Debug)]
pub struct TemplateGc {
    pub temporaries: Vec<Vec<u8>>,
    pub capabilities: Vec<TemplateCapability>,
    pub report: MaintenanceReport,
    /// How many temporary records are cleaned, and how many templates are done.
    pub cleaned: usize,
    pub collected: usize,
    pub ended: bool,
}

#[verifier::ext_equal]
pub struct GcView {
    pub temporaries: Seq<Seq<u8>>,
    pub capabilities: Seq<TemplateCapabilityView>,
    pub report: ReportView,
    pub cleaned: int,
    pub collected: int,
    pub ended: bool,
}

impl View for TemplateGc {
    type V = GcView;

    open spec fn view(&self) -> GcView {
        GcView {
            temporaries: views(self.temporaries@),
            capabilities: capability_views(self.capabilities@),
            report: self.report@,
            cleaned: self.cleaned as int,
            collected: self.collected as int,
            ended: self.ended,
        }
    }
}

#[derive(Clone, Copy, Debug, PartialEq, Eq, Structural)]
pub enum GcAction {
    /// Remove the temporary record of this number.
    CleanTemporary(usize),
    /// Collect the template of this number.
    CollectTemplate(usize),
    Nothing,
}

impl GcView {
    pub open spec fn starting(census: CensusView) -> GcView {
        let gc = GcView {
            temporaries: census.temporaries,
            capabilities: census.capabilities,
            report: census.report,
            cleaned: 0,
            collected: 0,
            ended: census.report.recovery_required,
        };
        if gc.ended {
            gc
        } else {
            GcView {
                report: ReportView { entries: Seq::empty(), ..census.report },
                ..gc
            }.settle()
        }
    }

    /// Ends where nothing is left, and stops at a template that was never finished.
    pub open spec fn settle(self) -> GcView {
        if self.cleaned < self.temporaries.len() {
            self
        } else if self.collected >= self.capabilities.len() {
            GcView { ended: true, ..self }
        } else {
            let capability = self.capabilities[self.collected];
            match capability.record.payload {
                TemplatePayloadView::Ready { .. } | TemplatePayloadView::Tombstoned { .. } => self,
                _ => self.stop(capability.basename, "INCOMPLETE"@),
            }
        }
    }

    pub open spec fn stop(self, name: Seq<u8>, state: Seq<char>) -> GcView {
        GcView {
            report: self.report.recovering("template"@, name, name, state),
            ended: true,
            ..self
        }
    }

    pub open spec fn item(self, name: Seq<u8>, state: Seq<char>, code: Seq<char>) -> GcView {
        GcView { report: self.report.item(name, state, code), ..self }
    }

    pub open spec fn is_cleaning(self) -> bool {
        !self.ended && self.cleaned < self.temporaries.len()
    }

    pub open spec fn is_collecting(self) -> bool {
        !self.ended && self.cleaned >= self.temporaries.len() && self.collected
            < self.capabilities.len()
    }

    /// A temporary record was cleaned, or not.
    pub open spec fn cleaned(self, done: Result<(), Error>) -> GcView {
        if !self.is_cleaning() {
            self
        } else {
            let name = self.temporaries[self.cleaned];
            match done {
                Err(_) => self.stop(name, "TMP"@),
                Ok(_) => GcView { cleaned: self.cleaned + 1, ..self }.item(
                    name,
                    "TMP"@,
                    "REMOVED"@,
                ).settle(),
            }
        }
    }

    /// A template was removed, stayed, or could not be dealt with.
    pub open spec fn collected(self, outcome: Result<bool, Error>) -> GcView {
        if !self.is_collecting() {
            self
        } else {
            let capability = self.capabilities[self.collected];
            let name = capability.basename;
            let ready = capability.record.payload is Ready;
            let next = GcView { collected: self.collected + 1, ..self };
            match outcome {
                Ok(removed) => if removed {
                    next.item(name, "TOMBSTONED"@, "REMOVED"@).settle()
                } else if ready {
                    next.item(name, "READY"@, "RETAINED"@).settle()
                } else {
                    next.item(name, "TOMBSTONED"@, "RETAINED"@).settle()
                },
                Err(error) => if ready && error@.0 == "TEMPLATE_BUSY"@ {
                    next.item(name, "READY"@, "BUSY"@).settle()
                } else if ready {
                    self.stop(name, "READY"@)
                } else {
                    self.stop(name, "TOMBSTONED"@)
                },
            }
        }
    }

    pub open spec fn asks(self) -> GcAction {
        if self.is_cleaning() {
            GcAction::CleanTemporary(self.cleaned as usize)
        } else if self.is_collecting() {
            GcAction::CollectTemplate(self.collected as usize)
        } else {
            GcAction::Nothing
        }
    }
}

/// Once anything has to be recovered by hand, the collection has ended and does nothing more.
pub proof fn law_template_gc_fails_closed(
    gc: GcView,
    done: Result<(), Error>,
    outcome: Result<bool, Error>,
    census: CensusView,
)
    requires
        gc.report.recovery_required ==> gc.ended,
    ensures
        gc.cleaned(done).report.recovery_required ==> gc.cleaned(done).ended,
        gc.collected(outcome).report.recovery_required ==> gc.collected(outcome).ended,
        gc.ended ==> gc.cleaned(done) == gc && gc.collected(outcome) == gc && gc.asks()
            == GcAction::Nothing,
        GcView::starting(census).report.recovery_required ==> GcView::starting(census).ended,
        census.report.recovery_required ==> GcView::starting(census).report == census.report,
{
}

impl TemplateGc {
    /// The collection of what a census has found.
    pub fn start(census: TemplateCensus) -> (gc: Self)
        ensures
            gc@ == GcView::starting(census@),
    {
        let TemplateCensus { capabilities, temporaries, report } = census;
        let ended: bool = report.recovery_required;
        if ended {
            return TemplateGc {
                temporaries,
                capabilities,
                report,
                cleaned: 0,
                collected: 0,
                ended: true,
            };
        }
        let mut gc = TemplateGc {
            temporaries,
            capabilities,
            report: MaintenanceReport::blank(),
            cleaned: 0,
            collected: 0,
            ended: false,
        };
        gc.settle();
        gc
    }

    fn settle(&mut self)
        ensures
            final(self)@ == old(self)@.settle(),
    {
        if self.cleaned < self.temporaries.len() {
            return;
        }
        if self.collected >= self.capabilities.len() {
            self.ended = true;
            return;
        }
        let capability = &self.capabilities[self.collected];
        proof {
            assert(self@.capabilities[self.collected as int] == capability@);
        }
        match &capability.record.payload {
            TemplatePayload::Ready { .. } => {},
            TemplatePayload::Tombstoned { .. } => {},
            _ => {
                let name = copy_bytes(capability.basename.as_slice());
                self.stop(name.as_slice(), "INCOMPLETE");
            },
        }
    }

    fn stop(&mut self, name: &[u8], state: &'static str)
        ensures
            final(self)@ == old(self)@.stop(name@, state@),
    {
        self.report.recovery("template", name, name, state);
        self.ended = true;
    }

    pub fn action(&self) -> (action: GcAction)
        ensures
            action == self@.asks(),
    {
        if !self.ended && self.cleaned < self.temporaries.len() {
            GcAction::CleanTemporary(self.cleaned)
        } else if !self.ended && self.collected < self.capabilities.len() {
            GcAction::CollectTemplate(self.collected)
        } else {
            GcAction::Nothing
        }
    }

    /// Takes note of how a temporary record was cleaned.
    pub fn clean(&mut self, done: Result<(), Error>)
        ensures
            final(self)@ == old(self)@.cleaned(done),
    {
        if self.ended || self.cleaned >= self.temporaries.len() {
            return;
        }
        let name = copy_bytes(self.temporaries[self.cleaned].as_slice());
        proof {
            assert(self@.temporaries[self.cleaned as int] == name@);
        }
        match done {
            Err(_) => {
                self.stop(name.as_slice(), "TMP");
            },
            Ok(_) => {
                self.cleaned = self.cleaned + 1;
                template_item(&mut self.report, name.as_slice(), "TMP", "REMOVED");
                self.settle();
            },
        }
    }

    /// Takes note of how a template was collected.
    pub fn collect(&mut self, outcome: Result<bool, Error>)
        ensures
            final(self)@ == old(self)@.collected(outcome),
    {
        if self.ended || self.cleaned < self.temporaries.len() || self.collected
            >= self.capabilities.len() {
            return;
        }
        let capability = &self.capabilities[self.collected];
        proof {
            assert(self@.capabilities[self.collected as int] == capability@);
        }
        let name = copy_bytes(capability.basename.as_slice());
        let name = name.as_slice();
        let ready: bool = match &capability.record.payload {
            TemplatePayload::Ready { .. } => true,
            _ => false,
        };
        let (state, code): (&'static str, &'static str) = match outcome {
            Ok(removed) => if removed {
                ("TOMBSTONED", "REMOVED")
            } else if ready {
                ("READY", "RETAINED")
            } else {
                ("TOMBSTONED", "RETAINED")
            },
            Err(error) => if ready && error.has_code("TEMPLATE_BUSY") {
                ("READY", "BUSY")
            } else if ready {
                self.stop(name, "READY");
                return;
            } else {
                self.stop(name, "TOMBSTONED");
                return;
            },
        };
        self.collected = self.collected + 1;
        template_item(&mut self.report, name, state, code);
        self.settle();
    }
}

} // verus!
