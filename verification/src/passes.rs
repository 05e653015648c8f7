//! A pass through a tree of the repository: its listing is read entry by entry, and where the tree is
//! written out, each entry is asked for, announced and written before the next one is read.

use crate::audit::{finish_clean, finish_failure};
use crate::authority::{Error, Failure};
use crate::bytes::{text_of, utf8};
use crate::digest::{digest_text, MESSAGE_LIMIT};
use crate::git::{self, Output};
use crate::manifest::{
    batch_header, batch_request, check_batch_header, entry_failure, listed_entry,
    manifest_message, read_entry, Manifest, ManifestEntry, ManifestEntryView,
};
use crate::notation::framed;
use crate::storage::ManifestReceipt;
use crate::template::git_error;
use vstd::prelude::*;

verus! {

/// Where a pass is.
#[derive(Debug)]
pub enum PassStage {
    Reading,
    Requesting(ManifestEntry),
    Announcing(ManifestEntry),
    Writing(ManifestEntry),
    ListingEnding,
    BatchEnding,
    Ended(Result<ManifestReceipt, Error>),
}

pub enum PassStageView {
    Reading,
    Requesting(ManifestEntryView),
    Announcing(ManifestEntryView),
    Writing(ManifestEntryView),
    ListingEnding,
    BatchEnding,
    Ended(Result<(Seq<char>, nat), Failure>),
}

impl View for PassStage {
    type V = PassStageView;

    open spec fn view(&self) -> PassStageView {
        match self {
            PassStage::Reading => PassStageView::Reading,
            PassStage::Requesting(entry) => PassStageView::Requesting(entry@),
            PassStage::Announcing(entry) => PassStageView::Announcing(entry@),
            PassStage::Writing(entry) => PassStageView::Writing(entry@),
            PassStage::ListingEnding => PassStageView::ListingEnding,
            PassStage::BatchEnding => PassStageView::BatchEnding,
            PassStage::Ended(outcome) => PassStageView::Ended(
                match outcome {
                    Ok(receipt) => Ok((receipt.digest@, receipt.entries as nat)),
                    Err(error) => Err(error@),
                },
            ),
        }
    }
}

/// What the driver is asked to do.
#[derive(Clone, Copy, Debug, PartialEq, Eq, Structural)]
pub enum PassAction {
    /// Read the next record of the listing.
    ReadRecord,
    /// Ask for the object of the entry.
    Request,
    /// Read the line that announces the object.
    ReadHeader,
    /// Write the entry out.
    WriteEntry,
    /// Read the listing's child to its end.
    FinishListing,
    /// Let the child that hands objects out come to its end.
    FinishBatch,
    Nothing,
}

/// What the driver has to tell.
pub enum PassEvent {
    /// The next record, or that there is none.
    Record(Result<Option<Vec<u8>>, git::Error>),
    Requested(Result<(), git::Error>),
    Header(Result<Vec<u8>, git::Error>),
    Written(Result<(), Error>),
    Finished(Result<Output, git::Error>),
}

/// The receipt of a tree that is made of these entries.
pub open spec fn receipt_of(entries: Seq<ManifestEntryView>) -> (Seq<char>, nat) {
    (digest_text(manifest_message(entries)), entries.len())
}

/// A pass, as contracts speak of it.
pub struct PassView {
    /// Whether the entries are written out.
    pub writes: bool,
    pub object_format: Seq<char>,
    /// The entries that were read.
    pub listed: Seq<ManifestEntryView>,
    /// The entries that were written.
    pub written: Seq<ManifestEntryView>,
    pub stage: PassStageView,
}

impl PassView {
    pub open spec fn starting(writes: bool, object_format: Seq<char>) -> PassView {
        PassView {
            writes,
            object_format,
            listed: Seq::empty(),
            written: Seq::empty(),
            stage: PassStageView::Reading,
        }
    }

    pub open spec fn at(self, stage: PassStageView) -> PassView {
        PassView { stage, ..self }
    }

    pub open spec fn fail(self, failed: Failure) -> PassView {
        self.at(PassStageView::Ended(Err(failed)))
    }

    /// Goes on, unless something failed.
    pub open spec fn step(self, failed: Option<Failure>, stage: PassStageView) -> PassView {
        match failed {
            Some(failed) => self.fail(failed),
            None => self.at(stage),
        }
    }

    /// Takes in an entry of the listing.
    pub open spec fn take(self, entry: ManifestEntryView) -> PassView {
        if self.listed.len() >= u64::MAX {
            self.fail(("TEMPLATE_INVALID"@, "manifest entry count overflow"@))
        } else {
            PassView {
                listed: self.listed.push(entry),
                stage: if self.writes {
                    PassStageView::Requesting(entry)
                } else {
                    PassStageView::Reading
                },
                ..self
            }
        }
    }

    /// The end of a pass that went well.
    pub open spec fn whole(self) -> PassStageView {
        PassStageView::Ended(Ok(receipt_of(self.listed)))
    }

    /// The digest can take in what the driver read.
    pub open spec fn has_room(self, event: PassEvent) -> bool {
        match (self.stage, event) {
            (PassStageView::Reading, PassEvent::Record(Ok(Some(raw)))) => entry_failure(
                raw@,
                self.object_format,
            ) is None ==> manifest_message(self.listed).len() + framed(
                listed_entry(raw@).fields(),
            ).len() < MESSAGE_LIMIT,
            _ => true,
        }
    }

    /// The pass after the driver's answer. An answer to another question changes nothing.
    pub open spec fn after(self, event: PassEvent) -> PassView {
        match (self.stage, event) {
            (PassStageView::Reading, PassEvent::Record(read)) => match read {
                Err(error) => self.fail(error@),
                Ok(None) => self.at(PassStageView::ListingEnding),
                Ok(Some(raw)) => match entry_failure(raw@, self.object_format) {
                    Some(failed) => self.fail(failed),
                    None => self.take(listed_entry(raw@)),
                },
            },
            (PassStageView::Requesting(entry), PassEvent::Requested(done)) => match done {
                Err(error) => self.fail(error@),
                Ok(_) => self.at(PassStageView::Announcing(entry)),
            },
            (PassStageView::Announcing(entry), PassEvent::Header(read)) => match read {
                Err(error) => self.fail(error@),
                Ok(header) => if header@ == utf8(batch_header(entry)) {
                    self.at(PassStageView::Writing(entry))
                } else {
                    self.fail(
                        (
                            "TEMPLATE_INVALID"@,
                            "cat-file batch header did not match the raw manifest"@,
                        ),
                    )
                },
            },
            (PassStageView::Writing(entry), PassEvent::Written(done)) => match done {
                Err(error) => self.fail(error@),
                Ok(_) => PassView {
                    written: self.written.push(entry),
                    stage: PassStageView::Reading,
                    ..self
                },
            },
            (PassStageView::ListingEnding, PassEvent::Finished(outcome)) => self.step(
                finish_failure(outcome, "ls-tree"@),
                if self.writes {
                    PassStageView::BatchEnding
                } else {
                    self.whole()
                },
            ),
            (PassStageView::BatchEnding, PassEvent::Finished(outcome)) => self.step(
                finish_failure(outcome, "cat-file"@),
                self.whole(),
            ),
            _ => self,
        }
    }

    pub open spec fn asks(self) -> PassAction {
        match self.stage {
            PassStageView::Reading => PassAction::ReadRecord,
            PassStageView::Requesting(_) => PassAction::Request,
            PassStageView::Announcing(_) => PassAction::ReadHeader,
            PassStageView::Writing(_) => PassAction::WriteEntry,
            PassStageView::ListingEnding => PassAction::FinishListing,
            PassStageView::BatchEnding => PassAction::FinishBatch,
            PassStageView::Ended(_) => PassAction::Nothing,
        }
    }

    /// The entry that is at hand, where one is.
    pub open spec fn entry(self) -> Option<ManifestEntryView> {
        match self.stage {
            PassStageView::Requesting(entry) => Some(entry),
            PassStageView::Announcing(entry) => Some(entry),
            PassStageView::Writing(entry) => Some(entry),
            _ => None,
        }
    }

    /// What holds of every pass that has not failed: a pass that writes has written what it listed,
    /// but for the entry at hand; one that does not write has no entry at hand; and the receipt is
    /// that of what was listed.
    pub open spec fn sound(self) -> bool {
        &&& self.listed.len() <= u64::MAX
        &&& !(self.stage matches PassStageView::Ended(Err(_))) ==> {
            &&& self.entry() is Some ==> self.writes
            &&& self.stage is BatchEnding ==> self.writes
            &&& !self.writes ==> self.written.len() == 0
            &&& self.writes ==> self.listed == match self.entry() {
                Some(entry) => self.written.push(entry),
                None => self.written,
            }
        }
        &&& self.stage matches PassStageView::Ended(Ok(receipt)) ==> receipt == receipt_of(
            self.listed,
        )
    }
}

/// A pass through a tree.
pub struct Pass {
    writes: bool,
    object_format: String,
    manifest: Manifest,
    listed: Ghost<Seq<ManifestEntryView>>,
    written: Ghost<Seq<ManifestEntryView>>,
    stage: PassStage,
}

impl View for Pass {
    type V = PassView;

    closed spec fn view(&self) -> PassView {
        PassView {
            writes: self.writes,
            object_format: self.object_format@,
            listed: self.listed@,
            written: self.written@,
            stage: self.stage@,
        }
    }
}

/// The pass that only reads the listing.
pub fn manifest_pass(object_format: &str) -> (pass: Pass)
    ensures
        pass@ == PassView::starting(false, object_format@),
{
    Pass::start(false, object_format)
}

/// The pass that writes the tree out.
pub fn materialize(object_format: &str) -> (pass: Pass)
    ensures
        pass@ == PassView::starting(true, object_format@),
{
    Pass::start(true, object_format)
}

impl Pass {
    #[verifier::type_invariant]
    spec fn in_step(self) -> bool {
        self.stage is Ended || self.manifest@ == self.listed@
    }

    fn start(writes: bool, object_format: &str) -> (pass: Self)
        ensures
            pass@ == PassView::starting(writes, object_format@),
    {
        let manifest = Manifest::new();
        proof {
            assert(manifest@ =~= Seq::<ManifestEntryView>::empty());
        }
        Pass {
            writes,
            object_format: text_of(object_format),
            manifest,
            listed: Ghost(Seq::empty()),
            written: Ghost(Seq::empty()),
            stage: PassStage::Reading,
        }
    }

    pub fn action(&self) -> (action: PassAction)
        ensures
            action == self@.asks(),
    {
        match &self.stage {
            PassStage::Reading => PassAction::ReadRecord,
            PassStage::Requesting(_) => PassAction::Request,
            PassStage::Announcing(_) => PassAction::ReadHeader,
            PassStage::Writing(_) => PassAction::WriteEntry,
            PassStage::ListingEnding => PassAction::FinishListing,
            PassStage::BatchEnding => PassAction::FinishBatch,
            PassStage::Ended(_) => PassAction::Nothing,
        }
    }

    /// The entry at hand.
    pub fn entry(&self) -> (entry: Option<ManifestEntry>)
        ensures
            entry is Some == self@.entry() is Some,
            entry matches Some(entry) ==> entry@ == self@.entry()->0,
    {
        match &self.stage {
            PassStage::Requesting(entry) => Some(entry.copy()),
            PassStage::Announcing(entry) => Some(entry.copy()),
            PassStage::Writing(entry) => Some(entry.copy()),
            _ => None,
        }
    }

    /// The line with which the entry at hand is asked for.
    pub fn request(&self) -> (line: Option<Vec<u8>>)
        ensures
            line is Some == self@.stage is Requesting,
            line matches Some(line) ==> line@ == utf8(self@.entry()->0.oid + "\n"@),
    {
        match &self.stage {
            PassStage::Requesting(entry) => Some(batch_request(entry.oid.as_str())),
            _ => None,
        }
    }

    /// Whether the digest can take in what the driver read.
    pub fn fits(&self, event: &PassEvent) -> (fits: bool)
        ensures
            fits == self@.has_room(*event),
    {
        proof {
            use_type_invariant(self);
        }
        match (&self.stage, event) {
            (PassStage::Reading, PassEvent::Record(Ok(Some(raw)))) => {
                match read_entry(raw.as_slice(), self.object_format.as_str()) {
                    Ok(entry) => self.manifest.fits(&entry),
                    Err(_) => true,
                }
            },
            _ => true,
        }
    }

    /// Takes the driver's answer to the question that is asked.
    pub fn answer(self, event: PassEvent) -> (next: Self)
        requires
            self@.has_room(event),
        ensures
            next@ == self@.after(event),
    {
        proof {
            use_type_invariant(&self);
        }
        let Pass { writes, object_format, manifest, listed, written, stage } = self;
        match (stage, event) {
            (PassStage::Reading, PassEvent::Record(read)) => {
                let raw = match read {
                    Err(error) => {
                        let stage = PassStage::Ended(Err(git_error(error)));
                        return Pass { writes, object_format, manifest, listed, written, stage };
                    },
                    Ok(None) => {
                        let stage = PassStage::ListingEnding;
                        return Pass { writes, object_format, manifest, listed, written, stage };
                    },
                    Ok(Some(raw)) => raw,
                };
                match read_entry(raw.as_slice(), object_format.as_str()) {
                    Err(error) => {
                        let stage = PassStage::Ended(Err(error));
                        Pass { writes, object_format, manifest, listed, written, stage }
                    },
                    Ok(entry) => Self::take(writes, object_format, manifest, listed, written, entry),
                }
            },
            (PassStage::Requesting(entry), PassEvent::Requested(done)) => {
                let stage = match done {
                    Err(error) => PassStage::Ended(Err(git_error(error))),
                    Ok(_) => PassStage::Announcing(entry),
                };
                Pass { writes, object_format, manifest, listed, written, stage }
            },
            (PassStage::Announcing(entry), PassEvent::Header(read)) => {
                let stage = match read {
                    Err(error) => PassStage::Ended(Err(git_error(error))),
                    Ok(header) => match check_batch_header(header.as_slice(), &entry) {
                        Err(error) => PassStage::Ended(Err(error)),
                        Ok(_) => PassStage::Writing(entry),
                    },
                };
                Pass { writes, object_format, manifest, listed, written, stage }
            },
            (PassStage::Writing(entry), PassEvent::Written(done)) => match done {
                Err(error) => {
                    let stage = PassStage::Ended(Err(error));
                    Pass { writes, object_format, manifest, listed, written, stage }
                },
                Ok(_) => {
                    let written: Ghost<Seq<ManifestEntryView>> = Ghost(written@.push(entry@));
                    let stage = PassStage::Reading;
                    Pass { writes, object_format, manifest, listed, written, stage }
                },
            },
            (PassStage::ListingEnding, PassEvent::Finished(outcome)) => {
                match finish_clean(outcome, "ls-tree") {
                    Err(error) => {
                        let stage = PassStage::Ended(Err(error));
                        Pass { writes, object_format, manifest, listed, written, stage }
                    },
                    Ok(_) => if writes {
                        let stage = PassStage::BatchEnding;
                        Pass { writes, object_format, manifest, listed, written, stage }
                    } else {
                        let stage = PassStage::Ended(Ok(manifest.finish()));
                        let manifest = Manifest::new();
                        Pass { writes, object_format, manifest, listed, written, stage }
                    },
                }
            },
            (PassStage::BatchEnding, PassEvent::Finished(outcome)) => {
                match finish_clean(outcome, "cat-file") {
                    Err(error) => {
                        let stage = PassStage::Ended(Err(error));
                        Pass { writes, object_format, manifest, listed, written, stage }
                    },
                    Ok(_) => {
                        let stage = PassStage::Ended(Ok(manifest.finish()));
                        let manifest = Manifest::new();
                        Pass { writes, object_format, manifest, listed, written, stage }
                    },
                }
            },
            (stage, _) => Pass { writes, object_format, manifest, listed, written, stage },
        }
    }

    fn take(
        writes: bool,
        object_format: String,
        manifest: Manifest,
        listed: Ghost<Seq<ManifestEntryView>>,
        written: Ghost<Seq<ManifestEntryView>>,
        entry: ManifestEntry,
    ) -> (next: Self)
        requires
            manifest@ == listed@,
            manifest.has_room(entry@),
        ensures
            next@ == (PassView {
                writes,
                object_format: object_format@,
                listed: listed@,
                written: written@,
                stage: PassStageView::Reading,
            }).take(entry@),
    {
        match manifest.add_entry(&entry) {
            Err(error) => {
                let stage = PassStage::Ended(Err(error));
                let manifest = Manifest::new();
                Pass { writes, object_format, manifest, listed, written, stage }
            },
            Ok(manifest) => {
                let listed: Ghost<Seq<ManifestEntryView>> = Ghost(listed@.push(entry@));
                let stage = if writes {
                    PassStage::Requesting(entry)
                } else {
                    PassStage::Reading
                };
                Pass { writes, object_format, manifest, listed, written, stage }
            },
        }
    }

    /// How the pass ended, once nothing more is asked for.
    pub fn outcome(self) -> (outcome: Option<Result<ManifestReceipt, Error>>)
        ensures
            outcome is Some == self@.stage is Ended,
            self@.stage matches PassStageView::Ended(ended) ==> match outcome->0 {
                Ok(receipt) => ended == Ok::<(Seq<char>, nat), Failure>(
                    (receipt.digest@, receipt.entries as nat),
                ),
                Err(error) => ended == Err::<(Seq<char>, nat), Failure>(error@),
            },
    {
        match self.stage {
            PassStage::Ended(outcome) => Some(outcome),
            _ => None,
        }
    }
}

/// A pass after a row of answers.
pub open spec fn after_all(pass: PassView, events: Seq<PassEvent>) -> PassView
    decreases events.len(),
{
    if events.len() == 0 {
        pass
    } else {
        after_all(pass, events.drop_last()).after(events.last())
    }
}

/// Whatever the driver answers, a pass that ends well has the receipt of exactly the entries that it
/// listed, and one that writes the tree out has written each of them, in their order.
pub proof fn law_passes_account_for_every_entry(
    writes: bool,
    object_format: Seq<char>,
    events: Seq<PassEvent>,
)
    ensures
        after_all(PassView::starting(writes, object_format), events).sound(),
        after_all(PassView::starting(writes, object_format), events).writes == writes,
    decreases events.len(),
{
    if events.len() > 0 {
        law_passes_account_for_every_entry(writes, object_format, events.drop_last());
    }
}

/// What a pass has listed and written stays so, and a pass that has ended asks for nothing more and
/// does not change.
pub proof fn law_passes_go_forward(pass: PassView, event: PassEvent)
    ensures
        pass.listed.is_prefix_of(pass.after(event).listed),
        pass.written.is_prefix_of(pass.after(event).written),
        pass.stage is Ended ==> pass.after(event) == pass && pass.asks() == PassAction::Nothing,
{
}

/// Nothing is written that was not listed, asked for and announced as the listing says.
pub proof fn law_only_announced_entries_are_written(pass: PassView, event: PassEvent)
    requires
        pass.after(event).stage is Writing,
        !(pass.stage is Writing),
    ensures
        pass.stage is Announcing,
        pass.after(event).entry() == pass.entry(),
        event matches PassEvent::Header(Ok(header)) && header@ == utf8(
            batch_header(pass.entry()->0),
        ),
{
}

} // verus!
