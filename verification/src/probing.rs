//! Trying a directory out: whether it tells names apart, and whether it clones files natively. What a
//! try has made is taken away again, and a failure to take it away is never passed over.

use crate::authority::{failure, or_fail, Error, Failure, Identity};
use crate::bytes::{join2, same_bytes, utf8};
use crate::storage::{clone_destination_directory, is_clone_destination, storage_io};
use crate::walk::unsupported;
use vstd::prelude::*;

verus! {

/// Why a file may not be unlinked: it has to be the regular file of the user that was made.
pub open spec fn unlink_failure(
    current: Result<Identity, Error>,
    expected: Identity,
    uid: u32,
    label: Seq<char>,
) -> Option<Failure> {
    or_fail(
        failure(current),
        current->Ok_0 == expected && expected.uid == uid && expected.is_regular(),
        "STORAGE_UNSUPPORTED"@,
        label + " identity changed before cleanup"@,
    )
}

/// Whether the file that stands under a name may be unlinked.
pub fn unlink_owned(current: Result<Identity, Error>, expected: Identity, uid: u32, label: &str) -> (allowed:
    Result<(), Error>)
    ensures
        failure(allowed) == unlink_failure(current, expected, uid, label@),
{
    let current: Identity = current?;
    if current != expected || current.uid != uid || !current.regular() {
        return Err(
            Error::new(
                "STORAGE_UNSUPPORTED",
                join2(label, " identity changed before cleanup").as_str(),
            ),
        );
    }
    Ok(())
}

/// What a failed clone is reported as: that its destination could not be taken away, that this could
/// not be synced, or what failed first.
pub fn cleanup_clone_destination(
    unlinked: Result<(), Error>,
    synced: Result<(), String>,
    primary: Error,
) -> (error: Error)
    ensures
        error@ == match (unlinked, synced) {
            (Err(failed), _) => failed@,
            (Ok(_), Err(words)) => (
                "STORAGE_RECOVERY_REQUIRED"@,
                "cannot sync native COW destination parent after cleanup"@ + ": "@ + words@,
            ),
            (Ok(_), Ok(_)) => primary@,
        },
{
    match (unlinked, synced) {
        (Err(failed), _) => failed,
        (Ok(_), Err(words)) => Error::io(
            "STORAGE_RECOVERY_REQUIRED",
            "cannot sync native COW destination parent after cleanup",
            words.as_str(),
        ),
        (Ok(_), Ok(_)) => primary,
    }
}

/// Which try is made.
#[derive(Clone, Copy, Debug, PartialEq, Eq, Structural)]
pub enum Probe {
    PathSemantics,
    NativeCow,
}

impl Probe {
    pub open spec fn label(self) -> Seq<char> {
        match self {
            Probe::PathSemantics => "path-semantics probe"@,
            Probe::NativeCow => "native COW probe"@,
        }
    }

    fn name(self) -> (label: &'static str)
        ensures
            label@ == self.label(),
    {
        match self {
            Probe::PathSemantics => "path-semantics probe",
            Probe::NativeCow => "native COW probe",
        }
    }
}

/// Taking away what a try has made: the destination, then the source, then a sync of their directory.
/// Each is tried whatever became of the one before.
#[derive(Debug)]
pub struct ProbeCleanup {
    pub probe: Probe,
    pub stage: CleaningStage,
    pub source: Option<Identity>,
    /// The first failure.
    pub failed: Option<Error>,
}

#[derive(Clone, Copy, Debug, PartialEq, Eq, Structural)]
pub enum CleaningStage {
    DestinationSeeing(Identity),
    DestinationUnlinking,
    SourceSeeing(Identity),
    SourceUnlinking,
    Syncing,
    Cleaned,
}

#[derive(Clone, Copy, Debug, PartialEq, Eq, Structural)]
pub enum CleaningAction {
    StatDestination,
    UnlinkDestination,
    StatSource,
    UnlinkSource,
    SyncParent,
    Nothing,
}

#[derive(Debug)]
pub enum CleaningEvent {
    Identity(Result<Identity, Error>),
    Unlinked(Result<(), String>),
    Synced(Result<(), String>),
}

pub struct CleanupView {
    pub probe: Probe,
    pub stage: CleaningStage,
    pub source: Option<Identity>,
    pub failed: Option<Failure>,
}

pub open spec fn optional_failure(error: Option<Error>) -> Option<Failure> {
    match error {
        None => None,
        Some(error) => Some(error@),
    }
}

impl View for ProbeCleanup {
    type V = CleanupView;

    open spec fn view(&self) -> CleanupView {
        CleanupView {
            probe: self.probe,
            stage: self.stage,
            source: self.source,
            failed: optional_failure(self.failed),
        }
    }
}

/// The first failure is kept.
pub open spec fn keep_first(first: Option<Failure>, second: Option<Failure>) -> Option<Failure> {
    if first is Some {
        first
    } else {
        second
    }
}

fn keep(first: Option<Error>, second: Option<Error>) -> (kept: Option<Error>)
    ensures
        optional_failure(kept) == keep_first(optional_failure(first), optional_failure(second)),
{
    match first {
        Some(error) => Some(error),
        None => second,
    }
}

impl CleanupView {
    pub open spec fn starting(probe: Probe, destination: Option<Identity>, source: Option<Identity>) -> CleanupView {
        CleanupView {
            probe,
            stage: match destination {
                Some(identity) => CleaningStage::DestinationSeeing(identity),
                None => CleanupView::from_source(source),
            },
            source,
            failed: None,
        }
    }

    pub open spec fn from_source(source: Option<Identity>) -> CleaningStage {
        match source {
            Some(identity) => CleaningStage::SourceSeeing(identity),
            None => CleaningStage::Syncing,
        }
    }

    pub open spec fn on(self, stage: CleaningStage, failed: Option<Failure>) -> CleanupView {
        CleanupView { stage, failed: keep_first(self.failed, failed), ..self }
    }

    pub open spec fn unlinked(removed: Result<(), String>) -> Option<Failure> {
        match removed {
            Ok(_) => None,
            Err(words) => Some(unsupported("cannot clean up native COW probe"@ + ": "@ + words@)),
        }
    }

    /// Cleaning up after the driver's answer. An answer to another question changes nothing.
    pub open spec fn after(self, event: CleaningEvent, uid: u32) -> CleanupView {
        let rest = CleanupView::from_source(self.source);
        match (self.stage, event) {
            (
                CleaningStage::DestinationSeeing(expected),
                CleaningEvent::Identity(current),
            ) => match unlink_failure(current, expected, uid, self.probe.label() + " destination"@) {
                None => self.on(CleaningStage::DestinationUnlinking, None),
                Some(failed) => self.on(rest, Some(failed)),
            },
            (CleaningStage::DestinationUnlinking, CleaningEvent::Unlinked(removed)) => self.on(
                rest,
                CleanupView::unlinked(removed),
            ),
            (
                CleaningStage::SourceSeeing(expected),
                CleaningEvent::Identity(current),
            ) => match unlink_failure(current, expected, uid, self.probe.label() + " source"@) {
                None => self.on(CleaningStage::SourceUnlinking, None),
                Some(failed) => self.on(CleaningStage::Syncing, Some(failed)),
            },
            (CleaningStage::SourceUnlinking, CleaningEvent::Unlinked(removed)) => self.on(
                CleaningStage::Syncing,
                CleanupView::unlinked(removed),
            ),
            (CleaningStage::Syncing, CleaningEvent::Synced(synced)) => self.on(
                CleaningStage::Cleaned,
                match synced {
                    Ok(_) => None,
                    Err(words) => Some(
                        (
                            "STORAGE_RECOVERY_REQUIRED"@,
                            "cannot sync "@ + self.probe.label() + " cleanup"@ + ": "@ + words@,
                        ),
                    ),
                },
            ),
            _ => self,
        }
    }

    pub open spec fn asks(self) -> CleaningAction {
        match self.stage {
            CleaningStage::DestinationSeeing(_) => CleaningAction::StatDestination,
            CleaningStage::DestinationUnlinking => CleaningAction::UnlinkDestination,
            CleaningStage::SourceSeeing(_) => CleaningAction::StatSource,
            CleaningStage::SourceUnlinking => CleaningAction::UnlinkSource,
            CleaningStage::Syncing => CleaningAction::SyncParent,
            CleaningStage::Cleaned => CleaningAction::Nothing,
        }
    }
}

impl ProbeCleanup {
    pub fn start(probe: Probe, destination: Option<Identity>, source: Option<Identity>) -> (cleanup:
        Self)
        ensures
            cleanup@ == CleanupView::starting(probe, destination, source),
    {
        let stage = match destination {
            Some(identity) => CleaningStage::DestinationSeeing(identity),
            None => Self::rest(source),
        };
        ProbeCleanup { probe, stage, source, failed: None }
    }

    fn rest(source: Option<Identity>) -> (stage: CleaningStage)
        ensures
            stage == CleanupView::from_source(source),
    {
        match source {
            Some(identity) => CleaningStage::SourceSeeing(identity),
            None => CleaningStage::Syncing,
        }
    }

    fn on(self, stage: CleaningStage, failed: Option<Error>) -> (next: Self)
        ensures
            next@ == self@.on(stage, optional_failure(failed)),
    {
        ProbeCleanup {
            probe: self.probe,
            stage,
            source: self.source,
            failed: keep(self.failed, failed),
        }
    }

    fn unlinked(removed: Result<(), String>) -> (failed: Option<Error>)
        ensures
            optional_failure(failed) == CleanupView::unlinked(removed),
    {
        match removed {
            Ok(_) => None,
            Err(words) => Some(storage_io("cannot clean up native COW probe", words.as_str())),
        }
    }

    pub fn action(&self) -> (action: CleaningAction)
        ensures
            action == self@.asks(),
    {
        match self.stage {
            CleaningStage::DestinationSeeing(_) => CleaningAction::StatDestination,
            CleaningStage::DestinationUnlinking => CleaningAction::UnlinkDestination,
            CleaningStage::SourceSeeing(_) => CleaningAction::StatSource,
            CleaningStage::SourceUnlinking => CleaningAction::UnlinkSource,
            CleaningStage::Syncing => CleaningAction::SyncParent,
            CleaningStage::Cleaned => CleaningAction::Nothing,
        }
    }

    pub fn answer(self, event: CleaningEvent, uid: u32) -> (next: Self)
        ensures
            next@ == self@.after(event, uid),
    {
        let rest = Self::rest(self.source);
        let label = self.probe.name();
        match (self.stage, event) {
            (
                CleaningStage::DestinationSeeing(expected),
                CleaningEvent::Identity(current),
            ) => match unlink_owned(current, expected, uid, join2(label, " destination").as_str()) {
                Ok(_) => self.on(CleaningStage::DestinationUnlinking, None),
                Err(error) => self.on(rest, Some(error)),
            },
            (CleaningStage::DestinationUnlinking, CleaningEvent::Unlinked(removed)) => self.on(
                rest,
                Self::unlinked(removed),
            ),
            (CleaningStage::SourceSeeing(expected), CleaningEvent::Identity(current)) => {
                match unlink_owned(current, expected, uid, join2(label, " source").as_str()) {
                    Ok(_) => self.on(CleaningStage::SourceUnlinking, None),
                    Err(error) => self.on(CleaningStage::Syncing, Some(error)),
                }
            },
            (CleaningStage::SourceUnlinking, CleaningEvent::Unlinked(removed)) => self.on(
                CleaningStage::Syncing,
                Self::unlinked(removed),
            ),
            (CleaningStage::Syncing, CleaningEvent::Synced(synced)) => {
                let failed = match synced {
                    Ok(_) => None,
                    Err(words) => {
                        let context = crate::bytes::join3("cannot sync ", label, " cleanup");
                        Some(
                            Error::io(
                                "STORAGE_RECOVERY_REQUIRED",
                                context.as_str(),
                                words.as_str(),
                            ),
                        )
                    },
                };
                self.on(CleaningStage::Cleaned, failed)
            },
            _ => self,
        }
    }
}

/// A probe unlinks only the regular file of the user that it made itself.
pub proof fn law_probe_unlinks_only_its_own(cleanup: CleanupView, event: CleaningEvent, uid: u32)
    requires
        cleanup.asks() != CleaningAction::UnlinkDestination,
        cleanup.asks() != CleaningAction::UnlinkSource,
        cleanup.after(event, uid).asks() == CleaningAction::UnlinkDestination || cleanup.after(
            event,
            uid,
        ).asks() == CleaningAction::UnlinkSource,
    ensures
        match (cleanup.stage, event) {
            (
                CleaningStage::DestinationSeeing(expected),
                CleaningEvent::Identity(Ok(current)),
            ) => current == expected && current.uid == uid && current.is_regular(),
            (
                CleaningStage::SourceSeeing(expected),
                CleaningEvent::Identity(Ok(current)),
            ) => current == expected && current.uid == uid && current.is_regular(),
            _ => false,
        },
{
}

/// A failure to clean up is never forgotten.
pub proof fn law_cleanup_failure_is_kept(cleanup: CleanupView, event: CleaningEvent, uid: u32)
    ensures
        cleanup.failed is Some ==> cleanup.after(event, uid).failed == cleanup.failed,
{
}

/// How the second name of a pair was made.
#[derive(Debug)]
pub enum SecondName {
    Created(Result<Identity, Error>),
    Exists,
    Failed(String),
}

/// Whether two names collide: the first is made, then the second, then both are taken away.
#[derive(Debug)]
pub enum NameProbe {
    FirstMaking,
    SecondMaking(Identity),
    Cleaning { cleanup: ProbeCleanup, collision: bool, primary: Option<Error> },
    Ended(Result<bool, Error>),
}

#[derive(Debug)]
pub enum NameEvent {
    First(Result<Identity, Error>),
    Second(SecondName),
    Cleaning(CleaningEvent),
}

#[derive(Clone, Copy, Debug, PartialEq, Eq, Structural)]
pub enum NameAction {
    MakeFirst,
    MakeSecond,
    Clean(CleaningAction),
    Nothing,
}

pub enum NameView {
    FirstMaking,
    SecondMaking(Identity),
    Cleaning(CleanupView, bool, Option<Failure>),
    Ended(Option<bool>, Option<Failure>),
}

impl View for NameProbe {
    type V = NameView;

    open spec fn view(&self) -> NameView {
        match self {
            NameProbe::FirstMaking => NameView::FirstMaking,
            NameProbe::SecondMaking(identity) => NameView::SecondMaking(*identity),
            NameProbe::Cleaning { cleanup, collision, primary } => NameView::Cleaning(
                cleanup@,
                *collision,
                optional_failure(*primary),
            ),
            NameProbe::Ended(Ok(collision)) => NameView::Ended(Some(*collision), None),
            NameProbe::Ended(Err(error)) => NameView::Ended(None, Some(error@)),
        }
    }
}

impl NameView {
    /// Cleaning up ends together with the probe.
    pub open spec fn is_running(self) -> bool {
        self matches NameView::Cleaning(cleanup, _, _) ==> cleanup.stage != CleaningStage::Cleaned
    }

    pub open spec fn failed(failed: Failure) -> NameView {
        NameView::Ended(None, Some(failed))
    }

    /// What the probe has found, once all is taken away.
    pub open spec fn settle(cleanup: CleanupView, collision: bool, primary: Option<Failure>) -> NameView {
        if cleanup.stage != CleaningStage::Cleaned {
            NameView::Cleaning(cleanup, collision, primary)
        } else {
            match keep_first(cleanup.failed, primary) {
                Some(failed) => NameView::failed(failed),
                None => NameView::Ended(Some(collision), None),
            }
        }
    }

    /// The probe after the driver's answer. An answer to another question changes nothing.
    pub open spec fn after(self, event: NameEvent, uid: u32) -> NameView {
        match (self, event) {
            (NameView::FirstMaking, NameEvent::First(made)) => match made {
                Err(error) => NameView::failed(error@),
                Ok(identity) => NameView::SecondMaking(identity),
            },
            (NameView::SecondMaking(first), NameEvent::Second(second)) => {
                let starting = |destination: Option<Identity>|
                    CleanupView::starting(Probe::PathSemantics, destination, Some(first));
                match second {
                    SecondName::Created(Err(error)) => NameView::failed(error@),
                    SecondName::Created(Ok(identity)) => NameView::Cleaning(
                        starting(Some(identity)),
                        false,
                        None,
                    ),
                    SecondName::Exists => NameView::Cleaning(starting(None), true, None),
                    SecondName::Failed(words) => NameView::Cleaning(
                        starting(None),
                        false,
                        Some(
                            unsupported(
                                "cannot create path-semantics probe destination"@ + ": "@ + words@,
                            ),
                        ),
                    ),
                }
            },
            (NameView::Cleaning(cleanup, collision, primary), NameEvent::Cleaning(event)) => {
                NameView::settle(cleanup.after(event, uid), collision, primary)
            },
            _ => self,
        }
    }

    pub open spec fn asks(self) -> NameAction {
        match self {
            NameView::FirstMaking => NameAction::MakeFirst,
            NameView::SecondMaking(_) => NameAction::MakeSecond,
            NameView::Cleaning(cleanup, _, _) => NameAction::Clean(cleanup.asks()),
            NameView::Ended(_, _) => NameAction::Nothing,
        }
    }
}

impl NameProbe {
    pub fn start() -> (probe: Self)
        ensures
            probe@ == NameView::FirstMaking,
    {
        NameProbe::FirstMaking
    }

    pub fn action(&self) -> (action: NameAction)
        ensures
            action == self@.asks(),
    {
        match self {
            NameProbe::FirstMaking => NameAction::MakeFirst,
            NameProbe::SecondMaking(_) => NameAction::MakeSecond,
            NameProbe::Cleaning { cleanup, .. } => NameAction::Clean(cleanup.action()),
            NameProbe::Ended(_) => NameAction::Nothing,
        }
    }

    /// Takes the driver's answer; `uid` is the user who runs the program.
    pub fn probe_name_collision(self, event: NameEvent, uid: u32) -> (next: Self)
        ensures
            next@ == self@.after(event, uid),
    {
        match (self, event) {
            (NameProbe::FirstMaking, NameEvent::First(made)) => match made {
                Err(error) => NameProbe::Ended(Err(error)),
                Ok(identity) => NameProbe::SecondMaking(identity),
            },
            (NameProbe::SecondMaking(first), NameEvent::Second(second)) => match second {
                SecondName::Created(Err(error)) => NameProbe::Ended(Err(error)),
                SecondName::Created(Ok(identity)) => NameProbe::Cleaning {
                    cleanup: ProbeCleanup::start(Probe::PathSemantics, Some(identity), Some(first)),
                    collision: false,
                    primary: None,
                },
                SecondName::Exists => NameProbe::Cleaning {
                    cleanup: ProbeCleanup::start(Probe::PathSemantics, None, Some(first)),
                    collision: true,
                    primary: None,
                },
                SecondName::Failed(words) => NameProbe::Cleaning {
                    cleanup: ProbeCleanup::start(Probe::PathSemantics, None, Some(first)),
                    collision: false,
                    primary: Some(
                        storage_io("cannot create path-semantics probe destination", words.as_str()),
                    ),
                },
            },
            (
                NameProbe::Cleaning { cleanup, collision, primary },
                NameEvent::Cleaning(event),
            ) => {
                let cleanup = cleanup.answer(event, uid);
                if cleanup.stage != CleaningStage::Cleaned {
                    NameProbe::Cleaning { cleanup, collision, primary }
                } else {
                    match keep(cleanup.failed, primary) {
                        Some(error) => NameProbe::Ended(Err(error)),
                        None => NameProbe::Ended(Ok(collision)),
                    }
                }
            },
            (probe, _) => probe,
        }
    }
}

/// The name probe reports a collision only where the second name was taken already, and only after
/// the first was taken away and that was synced.
pub proof fn law_collision_is_reported_after_cleanup(probe: NameView, event: NameEvent, uid: u32)
    requires
        probe !is Ended,
        probe.is_running(),
        probe.after(event, uid) matches NameView::Ended(Some(_), _),
    ensures
        probe matches NameView::Cleaning(cleanup, collision, None) && cleanup.stage
            == CleaningStage::Syncing && cleanup.failed is None && (event
            matches NameEvent::Cleaning(CleaningEvent::Synced(Ok(_)))) && probe.after(event, uid)
            == NameView::Ended(Some(collision), None),
{
}

/// The try of native copy-on-write.
#[derive(Debug)]
pub enum CowProbe {
    ParentSeeing,
    SourceMaking,
    Writing(Identity),
    Protecting(Identity),
    SourceSeeing(Identity),
    Cloning(Identity),
    Unprotecting { source: Identity, destination: Identity },
    Reopening { source: Identity, destination: Identity },
    Comparing { source: Identity, destination: Identity },
    Mutating { source: Identity, destination: Identity },
    Rereading { source: Identity, destination: Identity },
    Cleaning { cleanup: ProbeCleanup, primary: Option<Error> },
    Ended(Result<(), Error>),
}

pub enum CowProbeView {
    ParentSeeing,
    SourceMaking,
    Writing(Identity),
    Protecting(Identity),
    SourceSeeing(Identity),
    Cloning(Identity),
    Unprotecting(Identity, Identity),
    Reopening(Identity, Identity),
    Comparing(Identity, Identity),
    Mutating(Identity, Identity),
    Rereading(Identity, Identity),
    Cleaning(CleanupView, Option<Failure>),
    Ended(Option<Failure>),
}

#[derive(Clone, Copy, Debug, PartialEq, Eq, Structural)]
pub enum CowAction {
    StatParent,
    MakeSource,
    /// Write 64 KiB of `g` and sync.
    WriteSource,
    /// Give the source the mode 0444.
    ProtectSource,
    StatSource,
    CloneSource,
    /// Give the destination the mode 0600.
    UnprotectDestination,
    ReopenDestination,
    /// Read the first 24 bytes of both.
    ReadBoth,
    /// Write `X` at the front of the destination and sync.
    MutateDestination,
    /// Read the first byte of the source.
    ReadSource,
    Clean(CleaningAction),
    Nothing,
}

#[derive(Debug)]
pub enum CowEvent {
    Identity(Result<Identity, Error>),
    Written(Result<(), String>),
    Moded(Result<(), Error>),
    Contents(Result<Vec<u8>, String>, Result<Vec<u8>, String>),
    Content(Result<Vec<u8>, String>),
    Cleaning(CleaningEvent),
}

impl View for CowProbe {
    type V = CowProbeView;

    open spec fn view(&self) -> CowProbeView {
        match self {
            CowProbe::ParentSeeing => CowProbeView::ParentSeeing,
            CowProbe::SourceMaking => CowProbeView::SourceMaking,
            CowProbe::Writing(source) => CowProbeView::Writing(*source),
            CowProbe::Protecting(source) => CowProbeView::Protecting(*source),
            CowProbe::SourceSeeing(source) => CowProbeView::SourceSeeing(*source),
            CowProbe::Cloning(source) => CowProbeView::Cloning(*source),
            CowProbe::Unprotecting { source, destination } => CowProbeView::Unprotecting(
                *source,
                *destination,
            ),
            CowProbe::Reopening { source, destination } => CowProbeView::Reopening(
                *source,
                *destination,
            ),
            CowProbe::Comparing { source, destination } => CowProbeView::Comparing(
                *source,
                *destination,
            ),
            CowProbe::Mutating { source, destination } => CowProbeView::Mutating(
                *source,
                *destination,
            ),
            CowProbe::Rereading { source, destination } => CowProbeView::Rereading(
                *source,
                *destination,
            ),
            CowProbe::Cleaning { cleanup, primary } => CowProbeView::Cleaning(
                cleanup@,
                optional_failure(*primary),
            ),
            CowProbe::Ended(Ok(_)) => CowProbeView::Ended(None),
            CowProbe::Ended(Err(error)) => CowProbeView::Ended(Some(error@)),
        }
    }
}

/// A clone that is a file of its own on the same volume.
pub open spec fn is_independent_clone(source: Identity, destination: Identity) -> bool {
    source.dev == destination.dev && source.ino != destination.ino && source.is_regular()
        && destination.is_regular()
}

impl CowProbeView {
    /// Cleaning up ends together with the probe.
    pub open spec fn is_running(self) -> bool {
        self matches CowProbeView::Cleaning(cleanup, _) ==> cleanup.stage != CleaningStage::Cleaned
    }

    pub open spec fn clean(
        destination: Option<Identity>,
        source: Option<Identity>,
        primary: Option<Failure>,
    ) -> CowProbeView {
        CowProbeView::Cleaning(
            CleanupView::starting(Probe::NativeCow, destination, source),
            primary,
        )
    }

    pub open spec fn failing(
        destination: Option<Identity>,
        source: Option<Identity>,
        context: Seq<char>,
        words: String,
    ) -> CowProbeView {
        CowProbeView::clean(
            destination,
            source,
            Some(unsupported(context + ": "@ + words@)),
        )
    }

    /// The probe after the driver's answer. An answer to another question changes nothing.
    pub open spec fn after(self, event: CowEvent, uid: u32) -> CowProbeView {
        match (self, event) {
            (CowProbeView::ParentSeeing, CowEvent::Identity(seen)) => match seen {
                Err(error) => CowProbeView::Ended(Some(error@)),
                Ok(parent) => if is_clone_destination(parent, uid) && parent.mode == 0o700 {
                    CowProbeView::SourceMaking
                } else {
                    CowProbeView::Ended(
                        Some(
                            unsupported("native COW probe parent is not an owned state directory"@),
                        ),
                    )
                },
            },
            (CowProbeView::SourceMaking, CowEvent::Identity(made)) => match made {
                Err(error) => CowProbeView::clean(None, None, Some(error@)),
                Ok(source) => CowProbeView::Writing(source),
            },
            (CowProbeView::Writing(source), CowEvent::Written(written)) => match written {
                Err(words) => CowProbeView::failing(
                    None,
                    Some(source),
                    "cannot write native COW probe"@,
                    words,
                ),
                Ok(_) => CowProbeView::Protecting(source),
            },
            (CowProbeView::Protecting(source), CowEvent::Moded(moded)) => match moded {
                Err(error) => CowProbeView::clean(None, Some(source), Some(error@)),
                Ok(_) => CowProbeView::SourceSeeing(source),
            },
            (CowProbeView::SourceSeeing(source), CowEvent::Identity(seen)) => match seen {
                Err(error) => CowProbeView::clean(None, Some(source), Some(error@)),
                Ok(current) => CowProbeView::Cloning(current),
            },
            (CowProbeView::Cloning(source), CowEvent::Identity(cloned)) => match cloned {
                Err(error) => CowProbeView::clean(None, Some(source), Some(error@)),
                Ok(destination) => CowProbeView::Unprotecting(source, destination),
            },
            (
                CowProbeView::Unprotecting(source, destination),
                CowEvent::Moded(moded),
            ) => match moded {
                Err(error) => CowProbeView::clean(Some(destination), Some(source), Some(error@)),
                Ok(_) => CowProbeView::Reopening(source, destination),
            },
            (
                CowProbeView::Reopening(source, destination),
                CowEvent::Identity(opened),
            ) => match opened {
                Err(error) => CowProbeView::clean(Some(destination), Some(source), Some(error@)),
                Ok(current) => if is_independent_clone(source, current) {
                    CowProbeView::Comparing(source, current)
                } else {
                    CowProbeView::clean(
                        Some(current),
                        Some(source),
                        Some(unsupported("native COW probe did not create an independent inode"@)),
                    )
                },
            },
            (
                CowProbeView::Comparing(source, destination),
                CowEvent::Contents(original, cloned),
            ) => match (original, cloned) {
                (Err(words), _) => CowProbeView::failing(
                    Some(destination),
                    Some(source),
                    "cannot read COW probe source"@,
                    words,
                ),
                (_, Err(words)) => CowProbeView::failing(
                    Some(destination),
                    Some(source),
                    "cannot read COW probe destination"@,
                    words,
                ),
                (Ok(original), Ok(cloned)) => if original@ == cloned@ {
                    CowProbeView::Mutating(source, destination)
                } else {
                    CowProbeView::clean(
                        Some(destination),
                        Some(source),
                        Some(unsupported("native COW probe content differs before mutation"@)),
                    )
                },
            },
            (
                CowProbeView::Mutating(source, destination),
                CowEvent::Written(written),
            ) => match written {
                Err(words) => CowProbeView::failing(
                    Some(destination),
                    Some(source),
                    "cannot mutate native COW probe destination"@,
                    words,
                ),
                Ok(_) => CowProbeView::Rereading(source, destination),
            },
            (
                CowProbeView::Rereading(source, destination),
                CowEvent::Content(read),
            ) => match read {
                Err(words) => CowProbeView::failing(
                    Some(destination),
                    Some(source),
                    "cannot verify COW probe isolation"@,
                    words,
                ),
                Ok(bytes) => CowProbeView::clean(
                    Some(destination),
                    Some(source),
                    if bytes@ == utf8("g"@) {
                        None
                    } else {
                        Some(unsupported("native COW probe mutation changed its source"@))
                    },
                ),
            },
            (CowProbeView::Cleaning(cleanup, primary), CowEvent::Cleaning(event)) => {
                let cleanup = cleanup.after(event, uid);
                if cleanup.stage != CleaningStage::Cleaned {
                    CowProbeView::Cleaning(cleanup, primary)
                } else {
                    CowProbeView::Ended(keep_first(cleanup.failed, primary))
                }
            },
            _ => self,
        }
    }

    pub open spec fn asks(self) -> CowAction {
        match self {
            CowProbeView::ParentSeeing => CowAction::StatParent,
            CowProbeView::SourceMaking => CowAction::MakeSource,
            CowProbeView::Writing(_) => CowAction::WriteSource,
            CowProbeView::Protecting(_) => CowAction::ProtectSource,
            CowProbeView::SourceSeeing(_) => CowAction::StatSource,
            CowProbeView::Cloning(_) => CowAction::CloneSource,
            CowProbeView::Unprotecting(_, _) => CowAction::UnprotectDestination,
            CowProbeView::Reopening(_, _) => CowAction::ReopenDestination,
            CowProbeView::Comparing(_, _) => CowAction::ReadBoth,
            CowProbeView::Mutating(_, _) => CowAction::MutateDestination,
            CowProbeView::Rereading(_, _) => CowAction::ReadSource,
            CowProbeView::Cleaning(cleanup, _) => CowAction::Clean(cleanup.asks()),
            CowProbeView::Ended(_) => CowAction::Nothing,
        }
    }
}

fn clean(destination: Option<Identity>, source: Option<Identity>, primary: Option<Error>) -> (probe:
    CowProbe)
    ensures
        probe@ == CowProbeView::clean(destination, source, optional_failure(primary)),
{
    CowProbe::Cleaning {
        cleanup: ProbeCleanup::start(Probe::NativeCow, destination, source),
        primary,
    }
}

fn failing(destination: Option<Identity>, source: Option<Identity>, context: &str, words: String) -> (probe:
    CowProbe)
    ensures
        probe@ == CowProbeView::failing(destination, source, context@, words),
{
    clean(destination, source, Some(storage_io(context, words.as_str())))
}

fn refused(destination: Identity, source: Identity, detail: &str) -> (probe: CowProbe)
    ensures
        probe@ == CowProbeView::clean(Some(destination), Some(source), Some(unsupported(detail@))),
{
    clean(Some(destination), Some(source), Some(Error::new("STORAGE_UNSUPPORTED", detail)))
}

impl CowProbe {
    pub fn start() -> (probe: Self)
        ensures
            probe@ == CowProbeView::ParentSeeing,
    {
        CowProbe::ParentSeeing
    }

    pub fn action(&self) -> (action: CowAction)
        ensures
            action == self@.asks(),
    {
        match self {
            CowProbe::ParentSeeing => CowAction::StatParent,
            CowProbe::SourceMaking => CowAction::MakeSource,
            CowProbe::Writing(_) => CowAction::WriteSource,
            CowProbe::Protecting(_) => CowAction::ProtectSource,
            CowProbe::SourceSeeing(_) => CowAction::StatSource,
            CowProbe::Cloning(_) => CowAction::CloneSource,
            CowProbe::Unprotecting { .. } => CowAction::UnprotectDestination,
            CowProbe::Reopening { .. } => CowAction::ReopenDestination,
            CowProbe::Comparing { .. } => CowAction::ReadBoth,
            CowProbe::Mutating { .. } => CowAction::MutateDestination,
            CowProbe::Rereading { .. } => CowAction::ReadSource,
            CowProbe::Cleaning { cleanup, .. } => CowAction::Clean(cleanup.action()),
            CowProbe::Ended(_) => CowAction::Nothing,
        }
    }

    /// Takes the driver's answer; `uid` is the user who runs the program.
    pub fn probe_native_cow(self, event: CowEvent, uid: u32) -> (next: Self)
        ensures
            next@ == self@.after(event, uid),
    {
        match (self, event) {
            (CowProbe::ParentSeeing, CowEvent::Identity(seen)) => match seen {
                Err(error) => CowProbe::Ended(Err(error)),
                Ok(parent) => if clone_destination_directory(parent, uid) && parent.mode == 0o700 {
                    CowProbe::SourceMaking
                } else {
                    CowProbe::Ended(
                        Err(
                            Error::new(
                                "STORAGE_UNSUPPORTED",
                                "native COW probe parent is not an owned state directory",
                            ),
                        ),
                    )
                },
            },
            (CowProbe::SourceMaking, CowEvent::Identity(made)) => match made {
                Err(error) => clean(None, None, Some(error)),
                Ok(source) => CowProbe::Writing(source),
            },
            (CowProbe::Writing(source), CowEvent::Written(written)) => match written {
                Err(words) => failing(None, Some(source), "cannot write native COW probe", words),
                Ok(_) => CowProbe::Protecting(source),
            },
            (CowProbe::Protecting(source), CowEvent::Moded(moded)) => match moded {
                Err(error) => clean(None, Some(source), Some(error)),
                Ok(_) => CowProbe::SourceSeeing(source),
            },
            (CowProbe::SourceSeeing(source), CowEvent::Identity(seen)) => match seen {
                Err(error) => clean(None, Some(source), Some(error)),
                Ok(current) => CowProbe::Cloning(current),
            },
            (CowProbe::Cloning(source), CowEvent::Identity(cloned)) => match cloned {
                Err(error) => clean(None, Some(source), Some(error)),
                Ok(destination) => CowProbe::Unprotecting { source, destination },
            },
            (CowProbe::Unprotecting { source, destination }, CowEvent::Moded(moded)) => {
                match moded {
                    Err(error) => clean(Some(destination), Some(source), Some(error)),
                    Ok(_) => CowProbe::Reopening { source, destination },
                }
            },
            (CowProbe::Reopening { source, destination }, CowEvent::Identity(opened)) => {
                match opened {
                    Err(error) => clean(Some(destination), Some(source), Some(error)),
                    Ok(current) => if source.dev == current.dev && source.ino != current.ino
                        && source.regular() && current.regular() {
                        CowProbe::Comparing { source, destination: current }
                    } else {
                        refused(
                            current,
                            source,
                            "native COW probe did not create an independent inode",
                        )
                    },
                }
            },
            (
                CowProbe::Comparing { source, destination },
                CowEvent::Contents(original, cloned),
            ) => match (original, cloned) {
                (Err(words), _) => failing(
                    Some(destination),
                    Some(source),
                    "cannot read COW probe source",
                    words,
                ),
                (_, Err(words)) => failing(
                    Some(destination),
                    Some(source),
                    "cannot read COW probe destination",
                    words,
                ),
                (Ok(original), Ok(cloned)) => if same_bytes(original.as_slice(), cloned.as_slice()) {
                    CowProbe::Mutating { source, destination }
                } else {
                    refused(
                        destination,
                        source,
                        "native COW probe content differs before mutation",
                    )
                },
            },
            (CowProbe::Mutating { source, destination }, CowEvent::Written(written)) => {
                match written {
                    Err(words) => failing(
                        Some(destination),
                        Some(source),
                        "cannot mutate native COW probe destination",
                        words,
                    ),
                    Ok(_) => CowProbe::Rereading { source, destination },
                }
            },
            (CowProbe::Rereading { source, destination }, CowEvent::Content(read)) => match read {
                Err(words) => failing(
                    Some(destination),
                    Some(source),
                    "cannot verify COW probe isolation",
                    words,
                ),
                Ok(bytes) => if same_bytes(bytes.as_slice(), "g".as_bytes()) {
                    clean(Some(destination), Some(source), None)
                } else {
                    refused(destination, source, "native COW probe mutation changed its source")
                },
            },
            (CowProbe::Cleaning { cleanup, primary }, CowEvent::Cleaning(event)) => {
                let cleanup = cleanup.answer(event, uid);
                if cleanup.stage != CleaningStage::Cleaned {
                    CowProbe::Cleaning { cleanup, primary }
                } else {
                    match keep(cleanup.failed, primary) {
                        Some(error) => CowProbe::Ended(Err(error)),
                        None => CowProbe::Ended(Ok(())),
                    }
                }
            },
            (probe, _) => probe,
        }
    }
}

/// A probe is never left cleaning up with nothing to clean.
pub proof fn law_probes_end_with_their_cleanup(
    name: NameView,
    name_event: NameEvent,
    cow: CowProbeView,
    cow_event: CowEvent,
    uid: u32,
)
    ensures
        name.is_running() ==> name.after(name_event, uid).is_running(),
        cow.is_running() ==> cow.after(cow_event, uid).is_running(),
        NameView::FirstMaking.is_running(),
        CowProbeView::ParentSeeing.is_running(),
{
}

/// The probe succeeds only with nothing left behind: both files were taken away and that was synced.
pub proof fn law_cow_probe_succeeds_clean(probe: CowProbeView, event: CowEvent, uid: u32)
    requires
        probe !is Ended,
        probe.is_running(),
        probe.after(event, uid) == CowProbeView::Ended(None),
    ensures
        probe matches CowProbeView::Cleaning(cleanup, None) && cleanup.failed is None
            && cleanup.stage == CleaningStage::Syncing && (event matches CowEvent::Cleaning(
            CleaningEvent::Synced(Ok(_)),
        )),
{
}

/// Cleaning up without a failure begins only once the source was read unchanged after its clone was
/// changed.
pub proof fn law_cow_probe_saw_isolation(probe: CowProbeView, event: CowEvent, uid: u32)
    requires
        probe !is Cleaning,
        probe.after(event, uid) matches CowProbeView::Cleaning(_, None),
    ensures
        probe is Rereading,
        event matches CowEvent::Content(Ok(bytes)) && bytes@ == utf8("g"@),
{
}

} // verus!
