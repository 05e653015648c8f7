//! Getting a template: using the one that stands, finishing one that was begun, or building it anew.

use crate::audit::CheckoutAudit;
use crate::authority::{failure, Error, Failure, Identity};
use crate::bytes::{lemma_utf8_injective, same_text, utf8};
use crate::digest::{digest_hex, digest_text};
use crate::notation::{framed, law_framing_is_injective, pow256, push_frame};
use crate::record_txn::RenameEvent;
use crate::storage::{
    is_publishing, is_sealed_directory, publishing_binding, sealed_directory, ManifestReceipt,
    SealedTreeReceipt,
};
use crate::template::{
    corrupt, needs_recovery, root_name, root_name_text, template_recovery, TemplatePayload,
    TemplatePayloadView, TemplateRecord, TemplateView,
};
use vstd::prelude::*;

verus! {

/// What a template is made from. Templates with the same key are the same tree.
pub struct KeyInputs {
    pub object_format: Seq<char>,
    pub tree: Seq<char>,
    pub version: Seq<char>,
    pub config: Seq<char>,
    pub attributes: Seq<char>,
    pub platform: Seq<char>,
    pub volume: Seq<char>,
    pub manifest: Seq<char>,
}

impl KeyInputs {
    pub open spec fn fields(self) -> Seq<Seq<u8>> {
        seq![
            utf8("git-vws/template-key/v1"@),
            utf8(self.object_format),
            utf8(self.tree),
            utf8("git-vws/checkout-policy/v1"@),
            utf8(self.version),
            utf8(self.config),
            utf8(self.attributes),
            utf8(self.platform),
            utf8(self.volume),
            utf8(self.manifest),
        ]
    }

    pub open spec fn fits(self) -> bool {
        forall|i: int| 0 <= i < self.fields().len() ==> (#[trigger] self.fields()[i]).len() < pow256(
            8,
        )
    }
}

proof fn lemma_framed_push(fields: Seq<Seq<u8>>, field: Seq<u8>)
    ensures
        framed(fields.push(field)) == framed(fields) + crate::notation::frame(field),
{
    assert(fields.push(field).drop_last() =~= fields);
}

/// The key of a template: the digest of what it is made from.
pub fn template_key(
    object_format: &str,
    tree: &str,
    version: &str,
    audit: &CheckoutAudit,
    platform: &str,
    volume: &str,
    manifest: &str,
) -> (key: String)
    ensures
        key@ == digest_text(
            framed(
                (KeyInputs {
                    object_format: object_format@,
                    tree: tree@,
                    version: version@,
                    config: audit.config_fingerprint@,
                    attributes: audit.attributes_fingerprint@,
                    platform: platform@,
                    volume: volume@,
                    manifest: manifest@,
                }).fields(),
            ),
        ),
        crate::template::is_hash(key@),
{
    let mut message: Vec<u8> = Vec::new();
    push_frame(&mut message, "git-vws/template-key/v1".as_bytes());
    push_frame(&mut message, object_format.as_bytes());
    push_frame(&mut message, tree.as_bytes());
    push_frame(&mut message, "git-vws/checkout-policy/v1".as_bytes());
    push_frame(&mut message, version.as_bytes());
    push_frame(&mut message, audit.config_fingerprint.as_str().as_bytes());
    push_frame(&mut message, audit.attributes_fingerprint.as_str().as_bytes());
    push_frame(&mut message, platform.as_bytes());
    push_frame(&mut message, volume.as_bytes());
    push_frame(&mut message, manifest.as_bytes());
    proof {
        let inputs = KeyInputs {
            object_format: object_format@,
            tree: tree@,
            version: version@,
            config: audit.config_fingerprint@,
            attributes: audit.attributes_fingerprint@,
            platform: platform@,
            volume: volume@,
            manifest: manifest@,
        };
        let f = inputs.fields();
        let s0 = Seq::<Seq<u8>>::empty();
        let s1 = s0.push(f[0]);
        let s2 = s1.push(f[1]);
        let s3 = s2.push(f[2]);
        let s4 = s3.push(f[3]);
        let s5 = s4.push(f[4]);
        let s6 = s5.push(f[5]);
        let s7 = s6.push(f[6]);
        let s8 = s7.push(f[7]);
        let s9 = s8.push(f[8]);
        let s10 = s9.push(f[9]);
        lemma_framed_push(s0, f[0]);
        lemma_framed_push(s1, f[1]);
        lemma_framed_push(s2, f[2]);
        lemma_framed_push(s3, f[3]);
        lemma_framed_push(s4, f[4]);
        lemma_framed_push(s5, f[5]);
        lemma_framed_push(s6, f[6]);
        lemma_framed_push(s7, f[7]);
        lemma_framed_push(s8, f[8]);
        lemma_framed_push(s9, f[9]);
        assert(s10 =~= f);
        assert(framed(s0) =~= Seq::<u8>::empty());
        assert(message@ == framed(f));
    }
    let key = digest_hex(message.as_slice());
    proof {
        assert forall|i: int| 0 <= i < utf8(key@).len() implies crate::notation::is_hex(
            #[trigger] utf8(key@)[i],
        ) by {
            assert(crate::notation::is_lower_hex(utf8(key@)[i]));
        }
    }
    key
}

/// What is hashed into a key tells its inputs apart, each of them.
pub proof fn law_key_message_is_injective(left: KeyInputs, right: KeyInputs)
    requires
        left.fits(),
        right.fits(),
        framed(left.fields()) == framed(right.fields()),
    ensures
        left == right,
{
    law_framing_is_injective(left.fields(), right.fields());
    let l = left.fields();
    let r = right.fields();
    assert(l[1] == r[1] && l[2] == r[2] && l[4] == r[4] && l[5] == r[5] && l[6] == r[6] && l[7]
        == r[7] && l[8] == r[8] && l[9] == r[9]);
    lemma_utf8_injective(left.object_format, right.object_format);
    lemma_utf8_injective(left.tree, right.tree);
    lemma_utf8_injective(left.version, right.version);
    lemma_utf8_injective(left.config, right.config);
    lemma_utf8_injective(left.attributes, right.attributes);
    lemma_utf8_injective(left.platform, right.platform);
    lemma_utf8_injective(left.volume, right.volume);
    lemma_utf8_injective(left.manifest, right.manifest);
}

/// Giving a sealed template its own name.
#[derive(Debug)]
pub enum ReadyRename {
    BuildingSeeing,
    Preparing,
    Renaming,
    /// The rename failed: the root is sealed again before that is reported.
    Restoring(String),
    Resealing,
    ReadySeeing,
    ParentSyncing,
    ReadySeeingAgain,
    Verifying,
    Renamed,
    Failed(Error),
}

pub enum ReadyRenameView {
    BuildingSeeing,
    Preparing,
    Renaming,
    Restoring(Seq<char>),
    Resealing,
    ReadySeeing,
    ParentSyncing,
    ReadySeeingAgain,
    Verifying,
    Renamed,
    Failed(Failure),
}

impl View for ReadyRename {
    type V = ReadyRenameView;

    open spec fn view(&self) -> ReadyRenameView {
        match self {
            ReadyRename::BuildingSeeing => ReadyRenameView::BuildingSeeing,
            ReadyRename::Preparing => ReadyRenameView::Preparing,
            ReadyRename::Renaming => ReadyRenameView::Renaming,
            ReadyRename::Restoring(words) => ReadyRenameView::Restoring(words@),
            ReadyRename::Resealing => ReadyRenameView::Resealing,
            ReadyRename::ReadySeeing => ReadyRenameView::ReadySeeing,
            ReadyRename::ParentSyncing => ReadyRenameView::ParentSyncing,
            ReadyRename::ReadySeeingAgain => ReadyRenameView::ReadySeeingAgain,
            ReadyRename::Verifying => ReadyRenameView::Verifying,
            ReadyRename::Renamed => ReadyRenameView::Renamed,
            ReadyRename::Failed(error) => ReadyRenameView::Failed(error@),
        }
    }
}

#[derive(Clone, Copy, Debug, PartialEq, Eq, Structural)]
pub enum ReadyRenameAction {
    StatBuilding,
    /// Make the root fit to be renamed.
    PrepareRoot,
    /// Rename the root to its own name, where nothing stands under that.
    RenameRoot,
    SealRoot,
    StatReady,
    SyncParent,
    /// Look at the root under its own name, and verify its content.
    VerifyRoot,
    Nothing,
}

#[derive(Debug)]
pub enum ReadyRenameEvent {
    Identity(Result<Identity, Error>),
    Done(Result<(), Error>),
    Renamed(RenameEvent),
    Synced(Result<(), String>),
}

impl ReadyRenameView {
    /// The rename after the driver's answer. An answer to another question changes nothing.
    pub open spec fn after(self, event: ReadyRenameEvent, root: Identity) -> ReadyRenameView {
        match (self, event) {
            (ReadyRenameView::BuildingSeeing, ReadyRenameEvent::Identity(seen)) => match seen {
                Err(error) => ReadyRenameView::Failed(error@),
                Ok(current) => if is_publishing(current, root) {
                    ReadyRenameView::Preparing
                } else {
                    ReadyRenameView::Failed(corrupt("template root changed before READY rename"@))
                },
            },
            (ReadyRenameView::Preparing, ReadyRenameEvent::Done(done)) => match done {
                Err(error) => ReadyRenameView::Failed(error@),
                Ok(_) => ReadyRenameView::Renaming,
            },
            (ReadyRenameView::Renaming, ReadyRenameEvent::Renamed(renamed)) => match renamed {
                RenameEvent::Done => ReadyRenameView::Resealing,
                RenameEvent::Interrupted(words) => ReadyRenameView::Failed(
                    needs_recovery("READY template rename has an unknown result"@ + ": "@ + words@),
                ),
                RenameEvent::Exists(words) | RenameEvent::Failed(words) => {
                    ReadyRenameView::Restoring(words@)
                },
            },
            (ReadyRenameView::Restoring(words), ReadyRenameEvent::Done(done)) => match done {
                Err(error) => ReadyRenameView::Failed(error@),
                Ok(_) => ReadyRenameView::Failed(
                    (
                        "TEMPLATE_IO_FAILED"@,
                        "cannot publish READY template root"@ + ": "@ + words,
                    ),
                ),
            },
            (ReadyRenameView::Resealing, ReadyRenameEvent::Done(done)) => match done {
                Err(error) => ReadyRenameView::Failed(error@),
                Ok(_) => ReadyRenameView::ReadySeeing,
            },
            (ReadyRenameView::ReadySeeing, ReadyRenameEvent::Identity(seen)) => match seen {
                Err(error) => ReadyRenameView::Failed(error@),
                Ok(current) => if current == root {
                    ReadyRenameView::ParentSyncing
                } else {
                    ReadyRenameView::Failed(
                        needs_recovery("READY template binding changed after rename"@),
                    )
                },
            },
            (ReadyRenameView::ParentSyncing, ReadyRenameEvent::Synced(synced)) => match synced {
                Err(words) => ReadyRenameView::Failed(
                    needs_recovery("cannot sync READY template parent"@ + ": "@ + words@),
                ),
                Ok(_) => ReadyRenameView::ReadySeeingAgain,
            },
            (ReadyRenameView::ReadySeeingAgain, ReadyRenameEvent::Identity(seen)) => match seen {
                Err(error) => ReadyRenameView::Failed(error@),
                Ok(current) => if current == root {
                    ReadyRenameView::Verifying
                } else {
                    ReadyRenameView::Failed(
                        needs_recovery("READY template binding changed after sync"@),
                    )
                },
            },
            (ReadyRenameView::Verifying, ReadyRenameEvent::Done(done)) => match done {
                Err(error) => ReadyRenameView::Failed(error@),
                Ok(_) => ReadyRenameView::Renamed,
            },
            _ => self,
        }
    }

    pub open spec fn asks(self) -> ReadyRenameAction {
        match self {
            ReadyRenameView::BuildingSeeing => ReadyRenameAction::StatBuilding,
            ReadyRenameView::Preparing => ReadyRenameAction::PrepareRoot,
            ReadyRenameView::Renaming => ReadyRenameAction::RenameRoot,
            ReadyRenameView::Restoring(_) | ReadyRenameView::Resealing => {
                ReadyRenameAction::SealRoot
            },
            ReadyRenameView::ReadySeeing | ReadyRenameView::ReadySeeingAgain => {
                ReadyRenameAction::StatReady
            },
            ReadyRenameView::ParentSyncing => ReadyRenameAction::SyncParent,
            ReadyRenameView::Verifying => ReadyRenameAction::VerifyRoot,
            ReadyRenameView::Renamed | ReadyRenameView::Failed(_) => ReadyRenameAction::Nothing,
        }
    }
}

fn stepped(done: Result<(), Error>, next: ReadyRename) -> (rename: ReadyRename)
    ensures
        rename@ == match done {
            Err(error) => ReadyRenameView::Failed(error@),
            Ok(_) => next@,
        },
{
    match done {
        Err(error) => ReadyRename::Failed(error),
        Ok(_) => next,
    }
}

impl ReadyRename {
    pub fn start() -> (rename: Self)
        ensures
            rename@ == ReadyRenameView::BuildingSeeing,
    {
        ReadyRename::BuildingSeeing
    }

    pub fn action(&self) -> (action: ReadyRenameAction)
        ensures
            action == self@.asks(),
    {
        match self {
            ReadyRename::BuildingSeeing => ReadyRenameAction::StatBuilding,
            ReadyRename::Preparing => ReadyRenameAction::PrepareRoot,
            ReadyRename::Renaming => ReadyRenameAction::RenameRoot,
            ReadyRename::Restoring(_) => ReadyRenameAction::SealRoot,
            ReadyRename::Resealing => ReadyRenameAction::SealRoot,
            ReadyRename::ReadySeeing => ReadyRenameAction::StatReady,
            ReadyRename::ReadySeeingAgain => ReadyRenameAction::StatReady,
            ReadyRename::ParentSyncing => ReadyRenameAction::SyncParent,
            ReadyRename::Verifying => ReadyRenameAction::VerifyRoot,
            ReadyRename::Renamed => ReadyRenameAction::Nothing,
            ReadyRename::Failed(_) => ReadyRenameAction::Nothing,
        }
    }

    /// Takes the driver's answer; `root` is the sealed root.
    pub fn rename_ready(self, event: ReadyRenameEvent, root: Identity) -> (next: Self)
        ensures
            next@ == self@.after(event, root),
    {
        match (self, event) {
            (ReadyRename::BuildingSeeing, ReadyRenameEvent::Identity(seen)) => match seen {
                Err(error) => ReadyRename::Failed(error),
                Ok(current) => if publishing_binding(current, root) {
                    ReadyRename::Preparing
                } else {
                    ReadyRename::Failed(
                        Error::new("TEMPLATE_CORRUPT", "template root changed before READY rename"),
                    )
                },
            },
            (ReadyRename::Preparing, ReadyRenameEvent::Done(done)) => stepped(
                done,
                ReadyRename::Renaming,
            ),
            (ReadyRename::Renaming, ReadyRenameEvent::Renamed(renamed)) => match renamed {
                RenameEvent::Done => ReadyRename::Resealing,
                RenameEvent::Interrupted(words) => ReadyRename::Failed(
                    Error::io(
                        "TEMPLATE_RECOVERY_REQUIRED",
                        "READY template rename has an unknown result",
                        words.as_str(),
                    ),
                ),
                RenameEvent::Exists(words) => ReadyRename::Restoring(words),
                RenameEvent::Failed(words) => ReadyRename::Restoring(words),
            },
            (ReadyRename::Restoring(words), ReadyRenameEvent::Done(done)) => match done {
                Err(error) => ReadyRename::Failed(error),
                Ok(_) => ReadyRename::Failed(
                    Error::io(
                        "TEMPLATE_IO_FAILED",
                        "cannot publish READY template root",
                        words.as_str(),
                    ),
                ),
            },
            (ReadyRename::Resealing, ReadyRenameEvent::Done(done)) => stepped(
                done,
                ReadyRename::ReadySeeing,
            ),
            (ReadyRename::ReadySeeing, ReadyRenameEvent::Identity(seen)) => match seen {
                Err(error) => ReadyRename::Failed(error),
                Ok(current) => if current == root {
                    ReadyRename::ParentSyncing
                } else {
                    ReadyRename::Failed(
                        template_recovery("READY template binding changed after rename"),
                    )
                },
            },
            (ReadyRename::ParentSyncing, ReadyRenameEvent::Synced(synced)) => match synced {
                Err(words) => ReadyRename::Failed(
                    Error::io(
                        "TEMPLATE_RECOVERY_REQUIRED",
                        "cannot sync READY template parent",
                        words.as_str(),
                    ),
                ),
                Ok(_) => ReadyRename::ReadySeeingAgain,
            },
            (ReadyRename::ReadySeeingAgain, ReadyRenameEvent::Identity(seen)) => match seen {
                Err(error) => ReadyRename::Failed(error),
                Ok(current) => if current == root {
                    ReadyRename::Verifying
                } else {
                    ReadyRename::Failed(
                        template_recovery("READY template binding changed after sync"),
                    )
                },
            },
            (ReadyRename::Verifying, ReadyRenameEvent::Done(done)) => stepped(
                done,
                ReadyRename::Renamed,
            ),
            (rename, _) => rename,
        }
    }
}

/// A failed rename is reported as one that may be tried again only once the root is sealed again.
pub proof fn law_failed_rename_leaves_the_root_sealed(
    rename: ReadyRenameView,
    event: ReadyRenameEvent,
    root: Identity,
)
    requires
        rename !is Failed,
        rename.after(event, root) matches ReadyRenameView::Failed(failed) && failed.0
            == "TEMPLATE_IO_FAILED"@,
    ensures
        rename is Restoring || (event matches ReadyRenameEvent::Done(Err(error)) && error@
            == rename.after(event, root)->Failed_0) || (event matches ReadyRenameEvent::Identity(
            Err(error),
        ) && error@ == rename.after(event, root)->Failed_0),
{
    reveal_strlit("TEMPLATE_IO_FAILED");
    reveal_strlit("TEMPLATE_CORRUPT");
    reveal_strlit("TEMPLATE_RECOVERY_REQUIRED");
    assert("TEMPLATE_IO_FAILED"@.len() != "TEMPLATE_CORRUPT"@.len());
    assert("TEMPLATE_IO_FAILED"@.len() != "TEMPLATE_RECOVERY_REQUIRED"@.len());
}

/// What a template is asked for with.
#[derive(Debug)]
pub struct AcquireInputs {
    pub key: String,
    pub volume: String,
    pub manifest: ManifestReceipt,
    /// The name to build under, where nothing stands yet.
    pub building_name: String,
}

pub struct AcquireInputsView {
    pub key: Seq<char>,
    pub volume: Seq<char>,
    pub digest: Seq<char>,
    pub entries: u64,
    pub building_name: Seq<char>,
}

impl View for AcquireInputs {
    type V = AcquireInputsView;

    open spec fn view(&self) -> AcquireInputsView {
        AcquireInputsView {
            key: self.key@,
            volume: self.volume@,
            digest: self.manifest.digest@,
            entries: self.manifest.entries,
            building_name: self.building_name@,
        }
    }
}

impl AcquireInputsView {
    pub open spec fn fit(self, record: TemplateView) -> bool {
        record.key == self.key && record.volume == self.volume && record.digest == self.digest
            && record.entries == self.entries
    }
}

/// Getting a template. Each stage holds the record that stands, or the one that is being written.
#[derive(Debug)]
pub enum Acquire {
    Reading,
    Rechecking(TemplateRecord),
    NamesSeeing,
    PreparedCommitting(TemplateRecord),
    BuildingSeeing(TemplateRecord),
    RootMaking(TemplateRecord),
    RootChecking(TemplateRecord),
    RootSyncing { record: TemplateRecord, root: Identity },
    MaterializingCommitting { record: TemplateRecord, root: Identity },
    Materializing { record: TemplateRecord, root: Identity },
    Sealing(TemplateRecord),
    PublishingCommitting(TemplateRecord),
    BrokenSeeing(TemplateRecord),
    BrokenChecking,
    PublishSeeing(TemplateRecord),
    PublishChecking(TemplateRecord),
    Renaming(TemplateRecord),
    FailedSeeing(TemplateRecord),
    FailedChecking,
    RenamedChecking(TemplateRecord),
    Resealing(TemplateRecord),
    ResealedChecking(TemplateRecord),
    ReadyCommitting(TemplateRecord),
    ReadyChecking(TemplateRecord),
    Leasing(TemplateRecord),
    Revalidating(TemplateRecord),
    Acquired(TemplateRecord),
    Failed(Error),
}

#[verifier::ext_equal]
pub enum AcquireView {
    Reading,
    Rechecking(TemplateView),
    NamesSeeing,
    PreparedCommitting(TemplateView),
    BuildingSeeing(TemplateView),
    RootMaking(TemplateView),
    RootChecking(TemplateView),
    RootSyncing(TemplateView, Identity),
    MaterializingCommitting(TemplateView, Identity),
    Materializing(TemplateView, Identity),
    Sealing(TemplateView),
    PublishingCommitting(TemplateView),
    BrokenSeeing(TemplateView),
    BrokenChecking,
    PublishSeeing(TemplateView),
    PublishChecking(TemplateView),
    Renaming(TemplateView),
    FailedSeeing(TemplateView),
    FailedChecking,
    RenamedChecking(TemplateView),
    Resealing(TemplateView),
    ResealedChecking(TemplateView),
    ReadyCommitting(TemplateView),
    ReadyChecking(TemplateView),
    Leasing(TemplateView),
    Revalidating(TemplateView),
    Acquired(TemplateView),
    Failed(Failure),
}

impl View for Acquire {
    type V = AcquireView;

    open spec fn view(&self) -> AcquireView {
        match self {
            Acquire::Reading => AcquireView::Reading,
            Acquire::Rechecking(record) => AcquireView::Rechecking(record@),
            Acquire::NamesSeeing => AcquireView::NamesSeeing,
            Acquire::PreparedCommitting(record) => AcquireView::PreparedCommitting(record@),
            Acquire::BuildingSeeing(record) => AcquireView::BuildingSeeing(record@),
            Acquire::RootMaking(record) => AcquireView::RootMaking(record@),
            Acquire::RootChecking(record) => AcquireView::RootChecking(record@),
            Acquire::RootSyncing { record, root } => AcquireView::RootSyncing(record@, *root),
            Acquire::MaterializingCommitting { record, root } => {
                AcquireView::MaterializingCommitting(record@, *root)
            },
            Acquire::Materializing { record, root } => AcquireView::Materializing(record@, *root),
            Acquire::Sealing(record) => AcquireView::Sealing(record@),
            Acquire::PublishingCommitting(record) => AcquireView::PublishingCommitting(record@),
            Acquire::BrokenSeeing(record) => AcquireView::BrokenSeeing(record@),
            Acquire::BrokenChecking => AcquireView::BrokenChecking,
            Acquire::PublishSeeing(record) => AcquireView::PublishSeeing(record@),
            Acquire::PublishChecking(record) => AcquireView::PublishChecking(record@),
            Acquire::Renaming(record) => AcquireView::Renaming(record@),
            Acquire::FailedSeeing(record) => AcquireView::FailedSeeing(record@),
            Acquire::FailedChecking => AcquireView::FailedChecking,
            Acquire::RenamedChecking(record) => AcquireView::RenamedChecking(record@),
            Acquire::Resealing(record) => AcquireView::Resealing(record@),
            Acquire::ResealedChecking(record) => AcquireView::ResealedChecking(record@),
            Acquire::ReadyCommitting(record) => AcquireView::ReadyCommitting(record@),
            Acquire::ReadyChecking(record) => AcquireView::ReadyChecking(record@),
            Acquire::Leasing(record) => AcquireView::Leasing(record@),
            Acquire::Revalidating(record) => AcquireView::Revalidating(record@),
            Acquire::Acquired(record) => AcquireView::Acquired(record@),
            Acquire::Failed(error) => AcquireView::Failed(error@),
        }
    }
}

#[derive(Clone, Copy, Debug, PartialEq, Eq, Structural)]
pub enum AcquireAction {
    ReadRecord,
    /// List the tree once more.
    RelistTree,
    /// Look at the name to build under and at the template's own name.
    SeeNames,
    /// Write the record at hand, in the place of the one before it.
    CommitRecord,
    MakeRoot,
    /// Look at the directory to build in, which has to be empty.
    CheckRoot,
    SyncRoot,
    /// Write the tree into the directory.
    MaterializeTree,
    SealTree,
    CheckBrokenRoot,
    CheckPublishingRoot,
    RenameRoot,
    /// Look at the sealed root under the name that it is built under.
    CheckBuiltRoot,
    CheckRenamedRoot,
    ResealRoot,
    /// Look at the sealed root under its own name.
    CheckReadyRoot,
    LeaseRoot,
    Revalidate,
    Nothing,
}

#[derive(Debug)]
pub enum AcquireEvent {
    Record(Result<Option<TemplateRecord>, Error>),
    Manifest(Result<ManifestReceipt, Error>),
    Names(Result<Option<Identity>, Error>, Result<Option<Identity>, Error>),
    Root(Result<Identity, Error>),
    Sealed(Result<SealedTreeReceipt, Error>),
    Done(Result<(), Error>),
}

pub open spec fn incomplete(detail: Seq<char>) -> Failure {
    ("TEMPLATE_INCOMPLETE"@, detail)
}

pub open spec fn drifted(detail: Seq<char>) -> Failure {
    ("TEMPLATE_INPUT_DRIFT"@, detail)
}

impl AcquireView {
    pub open spec fn step(done: Result<(), Error>, next: AcquireView) -> AcquireView {
        match done {
            Err(error) => AcquireView::Failed(error@),
            Ok(_) => next,
        }
    }

    /// A READY record has to bear out what was asked for.
    pub open spec fn check_ready(record: TemplateView) -> AcquireView {
        match record.payload {
            TemplatePayloadView::Ready { root_name, sealed } => if root_name == root_name_text(
                record.key,
            ) && sealed.digest == record.digest && sealed.entries == record.entries
                && sealed.volume == record.volume {
                AcquireView::ReadyChecking(record)
            } else {
                AcquireView::Failed(corrupt("READY template has an invalid durable receipt"@))
            },
            _ => AcquireView::Failed(corrupt("template record is not READY"@)),
        }
    }

    pub open spec fn found(inputs: AcquireInputsView, record: TemplateView) -> AcquireView {
        if !inputs.fit(record) {
            AcquireView::Failed(
                corrupt("template record does not match the immutable create inputs"@),
            )
        } else {
            match record.payload {
                TemplatePayloadView::Ready { .. } => AcquireView::Rechecking(record),
                TemplatePayloadView::Prepared { .. } => AcquireView::BuildingSeeing(record),
                TemplatePayloadView::Materializing { .. } => AcquireView::BrokenSeeing(record),
                TemplatePayloadView::Publishing { .. } => AcquireView::PublishSeeing(record),
                TemplatePayloadView::Tombstoned { .. } => AcquireView::Failed(
                    needs_recovery("template garbage collection is incomplete"@),
                ),
            }
        }
    }

    /// Getting a template after the driver's answer. An answer to another question changes nothing.
    pub open spec fn after(self, event: AcquireEvent, inputs: AcquireInputsView, uid: u32) -> AcquireView {
        match (self, event) {
            (AcquireView::Reading, AcquireEvent::Record(read)) => match read {
                Err(error) => AcquireView::Failed(error@),
                Ok(None) => AcquireView::NamesSeeing,
                Ok(Some(record)) => AcquireView::found(inputs, record@),
            },
            (AcquireView::Rechecking(record), AcquireEvent::Manifest(listed)) => match listed {
                Err(error) => AcquireView::Failed(error@),
                Ok(current) => if current.digest@ == inputs.digest && current.entries
                    == inputs.entries {
                    AcquireView::check_ready(record)
                } else {
                    AcquireView::Failed(
                        drifted("raw ls-tree changed while checking a READY template"@),
                    )
                },
            },
            (AcquireView::NamesSeeing, AcquireEvent::Names(building, ready)) => match (
                building,
                ready,
            ) {
                (Err(error), _) => AcquireView::Failed(error@),
                (Ok(Some(_)), _) => AcquireView::Failed(
                    corrupt("template namespace is occupied before the prepared record"@),
                ),
                (Ok(None), Err(error)) => AcquireView::Failed(error@),
                (Ok(None), Ok(Some(_))) => AcquireView::Failed(
                    corrupt("template namespace is occupied before the prepared record"@),
                ),
                (Ok(None), Ok(None)) => AcquireView::PreparedCommitting(
                    TemplateView::preparing(
                        inputs.key,
                        inputs.digest,
                        inputs.entries,
                        inputs.volume,
                        inputs.building_name,
                    ),
                ),
            },
            (AcquireView::PreparedCommitting(record), AcquireEvent::Done(done)) => {
                AcquireView::step(done, AcquireView::BuildingSeeing(record))
            },
            (AcquireView::BuildingSeeing(record), AcquireEvent::Names(building, ready)) => match (
                building,
                ready,
            ) {
                (Err(error), _) => AcquireView::Failed(error@),
                (_, Err(error)) => AcquireView::Failed(error@),
                (Ok(None), Ok(None)) => AcquireView::RootMaking(record),
                (Ok(Some(_)), Ok(None)) => AcquireView::RootChecking(record),
                _ => AcquireView::Failed(corrupt("PREPARED template namespace is contradictory"@)),
            },
            (AcquireView::RootMaking(record), AcquireEvent::Done(done)) => AcquireView::step(
                done,
                AcquireView::RootChecking(record),
            ),
            (AcquireView::RootChecking(record), AcquireEvent::Root(checked)) => match checked {
                Err(error) => AcquireView::Failed(error@),
                Ok(root) => AcquireView::RootSyncing(record, root),
            },
            (AcquireView::RootSyncing(record, root), AcquireEvent::Done(done)) => AcquireView::step(
                done,
                AcquireView::MaterializingCommitting(record.materialize(root), root),
            ),
            (AcquireView::MaterializingCommitting(record, root), AcquireEvent::Done(done)) => {
                AcquireView::step(done, AcquireView::Materializing(record, root))
            },
            (AcquireView::Materializing(record, _), AcquireEvent::Manifest(listed)) => match listed {
                Err(error) => AcquireView::Failed(error@),
                Ok(second) => if second.digest@ == record.digest && second.entries
                    == record.entries {
                    AcquireView::Sealing(record)
                } else {
                    AcquireView::Failed(drifted("raw ls-tree changed between template passes"@))
                },
            },
            (AcquireView::Sealing(record), AcquireEvent::Sealed(sealed)) => match sealed {
                Err(error) => AcquireView::Failed(error@),
                Ok(sealed) => if is_sealed_directory(sealed.root, uid) {
                    AcquireView::PublishingCommitting(record.publish(sealed@))
                } else {
                    AcquireView::Failed(corrupt("built template root was not sealed"@))
                },
            },
            (AcquireView::PublishingCommitting(record), AcquireEvent::Done(done)) => {
                AcquireView::step(done, AcquireView::PublishSeeing(record))
            },
            (AcquireView::BrokenSeeing(record), AcquireEvent::Names(building, ready)) => match (
                building,
                ready,
            ) {
                (Err(error), _) => AcquireView::Failed(error@),
                (_, Err(error)) => AcquireView::Failed(error@),
                (Ok(None), Ok(None)) => AcquireView::Failed(
                    needs_recovery("MATERIALIZING template root is absent"@),
                ),
                (Ok(Some(_)), Ok(None)) => AcquireView::BrokenChecking,
                _ => AcquireView::Failed(
                    corrupt("MATERIALIZING template namespace is contradictory"@),
                ),
            },
            (AcquireView::BrokenChecking, AcquireEvent::Done(done)) => AcquireView::step(
                done,
                AcquireView::Failed(
                    incomplete("template build record was retained for diagnosis"@),
                ),
            ),
            (AcquireView::PublishSeeing(record), AcquireEvent::Names(building, ready)) => match (
                building,
                ready,
            ) {
                (Err(error), _) => AcquireView::Failed(error@),
                (_, Err(error)) => AcquireView::Failed(error@),
                (Ok(Some(_)), Ok(None)) => AcquireView::PublishChecking(record),
                (Ok(None), Ok(Some(_))) => AcquireView::RenamedChecking(record),
                _ => AcquireView::Failed(
                    corrupt("PUBLISHING template namespace is contradictory"@),
                ),
            },
            (AcquireView::PublishChecking(record), AcquireEvent::Done(done)) => AcquireView::step(
                done,
                AcquireView::Renaming(record),
            ),
            (AcquireView::Renaming(record), AcquireEvent::Done(done)) => match done {
                Ok(_) => AcquireView::ReadyCommitting(record.settle()),
                Err(error) => if error@.0 == "TEMPLATE_IO_FAILED"@ {
                    AcquireView::FailedSeeing(record)
                } else {
                    AcquireView::Failed(error@)
                },
            },
            (AcquireView::FailedSeeing(record), AcquireEvent::Names(building, ready)) => match (
                building,
                ready,
            ) {
                (Err(error), _) => AcquireView::Failed(error@),
                (_, Err(error)) => AcquireView::Failed(error@),
                (Ok(Some(_)), Ok(None)) => AcquireView::FailedChecking,
                _ => AcquireView::Failed(
                    corrupt("PUBLISHING template namespace changed after rename failure"@),
                ),
            },
            (AcquireView::FailedChecking, AcquireEvent::Done(done)) => AcquireView::step(
                done,
                AcquireView::Failed(incomplete("PUBLISHING template rename did not complete"@)),
            ),
            (AcquireView::RenamedChecking(record), AcquireEvent::Done(done)) => AcquireView::step(
                done,
                AcquireView::Resealing(record),
            ),
            (AcquireView::Resealing(record), AcquireEvent::Done(done)) => AcquireView::step(
                done,
                AcquireView::ResealedChecking(record),
            ),
            (AcquireView::ResealedChecking(record), AcquireEvent::Done(done)) => AcquireView::step(
                done,
                AcquireView::ReadyCommitting(record.settle()),
            ),
            (AcquireView::ReadyCommitting(record), AcquireEvent::Done(done)) => AcquireView::step(
                done,
                AcquireView::check_ready(record),
            ),
            (AcquireView::ReadyChecking(record), AcquireEvent::Done(done)) => AcquireView::step(
                done,
                AcquireView::Leasing(record),
            ),
            (AcquireView::Leasing(record), AcquireEvent::Done(done)) => AcquireView::step(
                done,
                AcquireView::Revalidating(record),
            ),
            (AcquireView::Revalidating(record), AcquireEvent::Done(done)) => AcquireView::step(
                done,
                AcquireView::Acquired(record),
            ),
            _ => self,
        }
    }

    pub open spec fn asks(self) -> AcquireAction {
        match self {
            AcquireView::Reading => AcquireAction::ReadRecord,
            AcquireView::Rechecking(_) => AcquireAction::RelistTree,
            AcquireView::NamesSeeing
            | AcquireView::BuildingSeeing(_)
            | AcquireView::BrokenSeeing(_)
            | AcquireView::PublishSeeing(_)
            | AcquireView::FailedSeeing(_) => AcquireAction::SeeNames,
            AcquireView::PreparedCommitting(_)
            | AcquireView::MaterializingCommitting(_, _)
            | AcquireView::PublishingCommitting(_)
            | AcquireView::ReadyCommitting(_) => AcquireAction::CommitRecord,
            AcquireView::RootMaking(_) => AcquireAction::MakeRoot,
            AcquireView::RootChecking(_) => AcquireAction::CheckRoot,
            AcquireView::RootSyncing(_, _) => AcquireAction::SyncRoot,
            AcquireView::Materializing(_, _) => AcquireAction::MaterializeTree,
            AcquireView::Sealing(_) => AcquireAction::SealTree,
            AcquireView::BrokenChecking => AcquireAction::CheckBrokenRoot,
            AcquireView::PublishChecking(_) => AcquireAction::CheckPublishingRoot,
            AcquireView::Renaming(_) => AcquireAction::RenameRoot,
            AcquireView::FailedChecking => AcquireAction::CheckBuiltRoot,
            AcquireView::RenamedChecking(_) => AcquireAction::CheckRenamedRoot,
            AcquireView::Resealing(_) => AcquireAction::ResealRoot,
            AcquireView::ResealedChecking(_) | AcquireView::ReadyChecking(_) => {
                AcquireAction::CheckReadyRoot
            },
            AcquireView::Leasing(_) => AcquireAction::LeaseRoot,
            AcquireView::Revalidating(_) => AcquireAction::Revalidate,
            AcquireView::Acquired(_) | AcquireView::Failed(_) => AcquireAction::Nothing,
        }
    }

    /// The record at hand, where there is one.
    pub open spec fn record(self) -> Option<TemplateView> {
        match self {
            AcquireView::Rechecking(record)
            | AcquireView::PreparedCommitting(record)
            | AcquireView::BuildingSeeing(record)
            | AcquireView::RootMaking(record)
            | AcquireView::RootChecking(record)
            | AcquireView::RootSyncing(record, _)
            | AcquireView::MaterializingCommitting(record, _)
            | AcquireView::Materializing(record, _)
            | AcquireView::Sealing(record)
            | AcquireView::PublishingCommitting(record)
            | AcquireView::BrokenSeeing(record)
            | AcquireView::PublishSeeing(record)
            | AcquireView::PublishChecking(record)
            | AcquireView::Renaming(record)
            | AcquireView::FailedSeeing(record)
            | AcquireView::RenamedChecking(record)
            | AcquireView::Resealing(record)
            | AcquireView::ResealedChecking(record)
            | AcquireView::ReadyCommitting(record)
            | AcquireView::ReadyChecking(record)
            | AcquireView::Leasing(record)
            | AcquireView::Revalidating(record)
            | AcquireView::Acquired(record) => Some(record),
            _ => None,
        }
    }

    /// The stage of the record fits the stage of the work.
    pub open spec fn in_step(self) -> bool {
        match self {
            AcquireView::PreparedCommitting(record)
            | AcquireView::BuildingSeeing(record)
            | AcquireView::RootMaking(record)
            | AcquireView::RootChecking(record)
            | AcquireView::RootSyncing(record, _) => record.payload is Prepared && record.version
                == 3,
            AcquireView::MaterializingCommitting(record, _)
            | AcquireView::Materializing(record, _)
            | AcquireView::Sealing(record)
            | AcquireView::BrokenSeeing(record) => record.payload is Materializing && record.version
                == 3,
            AcquireView::PublishingCommitting(record)
            | AcquireView::PublishSeeing(record)
            | AcquireView::PublishChecking(record)
            | AcquireView::Renaming(record)
            | AcquireView::FailedSeeing(record)
            | AcquireView::RenamedChecking(record)
            | AcquireView::Resealing(record)
            | AcquireView::ResealedChecking(record) => record.payload is Publishing
                && record.version == 3,
            AcquireView::ReadyCommitting(record)
            | AcquireView::Rechecking(record)
            | AcquireView::ReadyChecking(record)
            | AcquireView::Leasing(record)
            | AcquireView::Revalidating(record)
            | AcquireView::Acquired(record) => record.payload is Ready && record.version == 3,
            _ => true,
        }
    }
}

fn step(done: Result<(), Error>, next: Acquire) -> (acquire: Acquire)
    ensures
        acquire@ == AcquireView::step(done, next@),
{
    match done {
        Err(error) => Acquire::Failed(error),
        Ok(_) => next,
    }
}

fn broken(detail: &str) -> (acquire: Acquire)
    ensures
        acquire@ == AcquireView::Failed(corrupt(detail@)),
{
    Acquire::Failed(Error::new("TEMPLATE_CORRUPT", detail))
}

/// A template that stands READY, checked against its own record.
pub fn ready_template(record: TemplateRecord) -> (acquire: Acquire)
    ensures
        acquire@ == AcquireView::check_ready(record@),
{
    let bears_out: bool = match &record.payload {
        TemplatePayload::Ready { root_name: found, sealed } => {
            let expected = root_name(record.key.as_str());
            same_text(found.as_str(), expected.as_str()) && sealed.manifest.same(&record.manifest)
                && same_text(sealed.volume.as_str(), record.volume.as_str())
        },
        _ => {
            return broken("template record is not READY");
        },
    };
    if bears_out {
        Acquire::ReadyChecking(record)
    } else {
        broken("READY template has an invalid durable receipt")
    }
}

fn found(inputs: &AcquireInputs, record: TemplateRecord) -> (acquire: Acquire)
    ensures
        acquire@ == AcquireView::found(inputs@, record@),
{
    if !same_text(record.key.as_str(), inputs.key.as_str()) || !same_text(
        record.volume.as_str(),
        inputs.volume.as_str(),
    ) || !record.manifest.same(&inputs.manifest) {
        return broken("template record does not match the immutable create inputs");
    }
    match &record.payload {
        TemplatePayload::Ready { .. } => Acquire::Rechecking(record),
        TemplatePayload::Prepared { .. } => Acquire::BuildingSeeing(record),
        TemplatePayload::Materializing { .. } => Acquire::BrokenSeeing(record),
        TemplatePayload::Publishing { .. } => Acquire::PublishSeeing(record),
        TemplatePayload::Tombstoned { .. } => Acquire::Failed(
            template_recovery("template garbage collection is incomplete"),
        ),
    }
}

impl Acquire {
    pub fn start() -> (acquire: Self)
        ensures
            acquire@ == AcquireView::Reading,
    {
        Acquire::Reading
    }

    pub fn action(&self) -> (action: AcquireAction)
        ensures
            action == self@.asks(),
    {
        match self {
            Acquire::Reading => AcquireAction::ReadRecord,
            Acquire::Rechecking(_) => AcquireAction::RelistTree,
            Acquire::NamesSeeing => AcquireAction::SeeNames,
            Acquire::BuildingSeeing(_) => AcquireAction::SeeNames,
            Acquire::BrokenSeeing(_) => AcquireAction::SeeNames,
            Acquire::PublishSeeing(_) => AcquireAction::SeeNames,
            Acquire::FailedSeeing(_) => AcquireAction::SeeNames,
            Acquire::PreparedCommitting(_) => AcquireAction::CommitRecord,
            Acquire::MaterializingCommitting { .. } => AcquireAction::CommitRecord,
            Acquire::PublishingCommitting(_) => AcquireAction::CommitRecord,
            Acquire::ReadyCommitting(_) => AcquireAction::CommitRecord,
            Acquire::RootMaking(_) => AcquireAction::MakeRoot,
            Acquire::RootChecking(_) => AcquireAction::CheckRoot,
            Acquire::RootSyncing { .. } => AcquireAction::SyncRoot,
            Acquire::Materializing { .. } => AcquireAction::MaterializeTree,
            Acquire::Sealing(_) => AcquireAction::SealTree,
            Acquire::BrokenChecking => AcquireAction::CheckBrokenRoot,
            Acquire::PublishChecking(_) => AcquireAction::CheckPublishingRoot,
            Acquire::Renaming(_) => AcquireAction::RenameRoot,
            Acquire::FailedChecking => AcquireAction::CheckBuiltRoot,
            Acquire::RenamedChecking(_) => AcquireAction::CheckRenamedRoot,
            Acquire::Resealing(_) => AcquireAction::ResealRoot,
            Acquire::ResealedChecking(_) => AcquireAction::CheckReadyRoot,
            Acquire::ReadyChecking(_) => AcquireAction::CheckReadyRoot,
            Acquire::Leasing(_) => AcquireAction::LeaseRoot,
            Acquire::Revalidating(_) => AcquireAction::Revalidate,
            Acquire::Acquired(_) => AcquireAction::Nothing,
            Acquire::Failed(_) => AcquireAction::Nothing,
        }
    }

    /// Takes the driver's answer; `uid` is the user who runs the program.
    #[verifier::spinoff_prover]
    pub fn acquire(self, event: AcquireEvent, inputs: &AcquireInputs, uid: u32) -> (next: Self)
        ensures
            next@ == self@.after(event, inputs@, uid),
    {
        match (self, event) {
            (Acquire::Reading, AcquireEvent::Record(read)) => match read {
                Err(error) => Acquire::Failed(error),
                Ok(None) => Acquire::NamesSeeing,
                Ok(Some(record)) => found(inputs, record),
            },
            (Acquire::Rechecking(record), AcquireEvent::Manifest(listed)) => match listed {
                Err(error) => Acquire::Failed(error),
                Ok(current) => if current.same(&inputs.manifest) {
                    ready_template(record)
                } else {
                    Acquire::Failed(
                        Error::new(
                            "TEMPLATE_INPUT_DRIFT",
                            "raw ls-tree changed while checking a READY template",
                        ),
                    )
                },
            },
            (Acquire::NamesSeeing, AcquireEvent::Names(building, ready)) => match (building, ready) {
                (Err(error), _) => Acquire::Failed(error),
                (Ok(Some(_)), _) => broken(
                    "template namespace is occupied before the prepared record",
                ),
                (Ok(None), Err(error)) => Acquire::Failed(error),
                (Ok(None), Ok(Some(_))) => broken(
                    "template namespace is occupied before the prepared record",
                ),
                (Ok(None), Ok(None)) => Acquire::PreparedCommitting(
                    TemplateRecord::prepared(
                        inputs.key.clone(),
                        inputs.manifest.copy(),
                        inputs.volume.clone(),
                        inputs.building_name.clone(),
                    ),
                ),
            },
            (Acquire::PreparedCommitting(record), AcquireEvent::Done(done)) => step(
                done,
                Acquire::BuildingSeeing(record),
            ),
            (Acquire::BuildingSeeing(record), AcquireEvent::Names(building, ready)) => match (
                building,
                ready,
            ) {
                (Err(error), _) => Acquire::Failed(error),
                (_, Err(error)) => Acquire::Failed(error),
                (Ok(None), Ok(None)) => Acquire::RootMaking(record),
                (Ok(Some(_)), Ok(None)) => Acquire::RootChecking(record),
                _ => broken("PREPARED template namespace is contradictory"),
            },
            (Acquire::RootMaking(record), AcquireEvent::Done(done)) => step(
                done,
                Acquire::RootChecking(record),
            ),
            (Acquire::RootChecking(record), AcquireEvent::Root(checked)) => match checked {
                Err(error) => Acquire::Failed(error),
                Ok(root) => Acquire::RootSyncing { record, root },
            },
            (Acquire::RootSyncing { record, root }, AcquireEvent::Done(done)) => step(
                done,
                Acquire::MaterializingCommitting { record: record.materializing(root), root },
            ),
            (Acquire::MaterializingCommitting { record, root }, AcquireEvent::Done(done)) => step(
                done,
                Acquire::Materializing { record, root },
            ),
            (Acquire::Materializing { record, root }, AcquireEvent::Manifest(listed)) => {
                match listed {
                    Err(error) => Acquire::Failed(error),
                    Ok(second) => if second.same(&record.manifest) {
                        Acquire::Sealing(record)
                    } else {
                        Acquire::Failed(
                            Error::new(
                                "TEMPLATE_INPUT_DRIFT",
                                "raw ls-tree changed between template passes",
                            ),
                        )
                    },
                }
            },
            (Acquire::Sealing(record), AcquireEvent::Sealed(sealed)) => match sealed {
                Err(error) => Acquire::Failed(error),
                Ok(sealed) => if sealed_directory(sealed.root, uid) {
                    Acquire::PublishingCommitting(record.publishing(sealed))
                } else {
                    broken("built template root was not sealed")
                },
            },
            (Acquire::PublishingCommitting(record), AcquireEvent::Done(done)) => step(
                done,
                Acquire::PublishSeeing(record),
            ),
            (Acquire::BrokenSeeing(record), AcquireEvent::Names(building, ready)) => match (
                building,
                ready,
            ) {
                (Err(error), _) => Acquire::Failed(error),
                (_, Err(error)) => Acquire::Failed(error),
                (Ok(None), Ok(None)) => Acquire::Failed(
                    template_recovery("MATERIALIZING template root is absent"),
                ),
                (Ok(Some(_)), Ok(None)) => Acquire::BrokenChecking,
                _ => broken("MATERIALIZING template namespace is contradictory"),
            },
            (Acquire::BrokenChecking, AcquireEvent::Done(done)) => step(
                done,
                Acquire::Failed(
                    Error::new(
                        "TEMPLATE_INCOMPLETE",
                        "template build record was retained for diagnosis",
                    ),
                ),
            ),
            (Acquire::PublishSeeing(record), AcquireEvent::Names(building, ready)) => match (
                building,
                ready,
            ) {
                (Err(error), _) => Acquire::Failed(error),
                (_, Err(error)) => Acquire::Failed(error),
                (Ok(Some(_)), Ok(None)) => Acquire::PublishChecking(record),
                (Ok(None), Ok(Some(_))) => Acquire::RenamedChecking(record),
                _ => broken("PUBLISHING template namespace is contradictory"),
            },
            (Acquire::PublishChecking(record), AcquireEvent::Done(done)) => step(
                done,
                Acquire::Renaming(record),
            ),
            (Acquire::Renaming(record), AcquireEvent::Done(done)) => match done {
                Ok(_) => Acquire::ReadyCommitting(record.ready()),
                Err(error) => if error.has_code("TEMPLATE_IO_FAILED") {
                    Acquire::FailedSeeing(record)
                } else {
                    Acquire::Failed(error)
                },
            },
            (Acquire::FailedSeeing(_), AcquireEvent::Names(building, ready)) => match (
                building,
                ready,
            ) {
                (Err(error), _) => Acquire::Failed(error),
                (_, Err(error)) => Acquire::Failed(error),
                (Ok(Some(_)), Ok(None)) => Acquire::FailedChecking,
                _ => broken("PUBLISHING template namespace changed after rename failure"),
            },
            (Acquire::FailedChecking, AcquireEvent::Done(done)) => step(
                done,
                Acquire::Failed(
                    Error::new("TEMPLATE_INCOMPLETE", "PUBLISHING template rename did not complete"),
                ),
            ),
            (Acquire::RenamedChecking(record), AcquireEvent::Done(done)) => step(
                done,
                Acquire::Resealing(record),
            ),
            (Acquire::Resealing(record), AcquireEvent::Done(done)) => step(
                done,
                Acquire::ResealedChecking(record),
            ),
            (Acquire::ResealedChecking(record), AcquireEvent::Done(done)) => step(
                done,
                Acquire::ReadyCommitting(record.ready()),
            ),
            (Acquire::ReadyCommitting(record), AcquireEvent::Done(done)) => step(
                done,
                ready_template(record),
            ),
            (Acquire::ReadyChecking(record), AcquireEvent::Done(done)) => step(
                done,
                Acquire::Leasing(record),
            ),
            (Acquire::Leasing(record), AcquireEvent::Done(done)) => step(
                done,
                Acquire::Revalidating(record),
            ),
            (Acquire::Revalidating(record), AcquireEvent::Done(done)) => step(
                done,
                Acquire::Acquired(record),
            ),
            (acquire, _) => acquire,
        }
    }
}

/// A record that is found has the stage that its payload says.
pub open spec fn found_in_step(event: AcquireEvent) -> bool {
    event matches AcquireEvent::Record(Ok(Some(record))) ==> (record@.payload !is Tombstoned
        ==> record@.version == 3)
}

/// The work on a template keeps in step with its record, whatever the driver answers; and records are
/// written one stage after another.
pub proof fn law_acquire_keeps_in_step(
    acquire: AcquireView,
    event: AcquireEvent,
    inputs: AcquireInputsView,
    uid: u32,
)
    requires
        acquire.in_step(),
        found_in_step(event),
    ensures
        acquire.after(event, inputs, uid).in_step(),
        acquire.asks() != AcquireAction::CommitRecord && acquire.after(event, inputs, uid).asks()
            == AcquireAction::CommitRecord && acquire.record() is Some ==> acquire.record()->0.steps_to(
            acquire.after(event, inputs, uid).record()->0,
        ),
{
}

/// A template is handed out only as a READY record that bears out its own receipt, behind a verified
/// root, a lease, and one more look at the record.
pub proof fn law_acquired_template_is_leased(
    acquire: AcquireView,
    event: AcquireEvent,
    inputs: AcquireInputsView,
    uid: u32,
)
    requires
        acquire !is Acquired,
        acquire.after(event, inputs, uid) is Acquired,
    ensures
        acquire == AcquireView::Revalidating(acquire.after(event, inputs, uid)->Acquired_0),
        event matches AcquireEvent::Done(Ok(_)),
{
}

/// A READY record is written only behind a rename of the verified root, or behind a root that stood
/// renamed already and was sealed and verified again.
pub proof fn law_ready_follows_the_rename(
    acquire: AcquireView,
    event: AcquireEvent,
    inputs: AcquireInputsView,
    uid: u32,
)
    requires
        acquire !is ReadyCommitting,
        acquire.after(event, inputs, uid) is ReadyCommitting,
    ensures
        acquire is Renaming || acquire is ResealedChecking,
        event matches AcquireEvent::Done(Ok(_)),
{
}

} // verus!
