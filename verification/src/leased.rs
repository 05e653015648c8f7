//! What a successful acquisition has got: a READY template of what was asked for, recorded, leased and
//! looked at again.

use crate::acquire::{AcquireAction, AcquireEvent, AcquireInputsView, AcquireView};
use crate::storage::SealedView;
use crate::template::{TemplatePayloadView, TemplateView};
use vstd::prelude::*;

verus! {

/// What stands on disk of a template, as far as the answers have told, and what was done with it.
pub struct Shelf {
    /// The record as it was read, once it was.
    pub found: Option<Option<TemplateView>>,
    /// The record as it stands.
    pub record: Option<TemplateView>,
    /// The digest and the length of the listing that the tree was last held against.
    pub listed: Option<(Seq<char>, u64)>,
    pub sealed: Option<SealedView>,
    /// The root stands under the template's own name.
    pub in_place: bool,
    /// The root was looked at under its own name since it came to stand there.
    pub checked: bool,
    pub leased: bool,
    /// The root was looked at again while it was leased.
    pub held: bool,
}

impl Shelf {
    pub open spec fn untouched() -> Shelf {
        Shelf {
            found: None,
            record: None,
            listed: None,
            sealed: None,
            in_place: false,
            checked: false,
            leased: false,
            held: false,
        }
    }

    /// The shelf after an action that the driver answered.
    pub open spec fn after(
        self,
        action: AcquireAction,
        at_hand: Option<TemplateView>,
        event: AcquireEvent,
    ) -> Shelf {
        match (action, event) {
            (AcquireAction::ReadRecord, AcquireEvent::Record(Ok(None))) => Shelf {
                found: Some(None),
                record: None,
                ..self
            },
            (AcquireAction::ReadRecord, AcquireEvent::Record(Ok(Some(record)))) => Shelf {
                found: Some(Some(record@)),
                record: Some(record@),
                ..self
            },
            (AcquireAction::CommitRecord, AcquireEvent::Done(Ok(_))) => Shelf {
                record: at_hand,
                ..self
            },
            (AcquireAction::RelistTree, AcquireEvent::Manifest(Ok(current)))
            | (AcquireAction::MaterializeTree, AcquireEvent::Manifest(Ok(current))) => Shelf {
                listed: Some((current.digest@, current.entries)),
                ..self
            },
            (AcquireAction::SealTree, AcquireEvent::Sealed(Ok(sealed))) => Shelf {
                sealed: Some(sealed@),
                ..self
            },
            (AcquireAction::SeeNames, AcquireEvent::Names(Ok(_), Ok(ready))) => Shelf {
                in_place: ready is Some,
                ..self
            },
            (AcquireAction::RenameRoot, AcquireEvent::Done(Ok(_))) => Shelf {
                in_place: true,
                checked: false,
                ..self
            },
            (AcquireAction::CheckReadyRoot, AcquireEvent::Done(Ok(_))) => Shelf {
                checked: true,
                ..self
            },
            (AcquireAction::LeaseRoot, AcquireEvent::Done(Ok(_))) => Shelf { leased: true, ..self },
            (AcquireAction::Revalidate, AcquireEvent::Done(Ok(_))) => Shelf {
                held: self.leased,
                ..self
            },
            _ => self,
        }
    }
}

/// An acquisition that runs, and the shelf that it works on.
pub struct Taking {
    pub stage: AcquireView,
    pub shelf: Shelf,
}

impl Taking {
    pub open spec fn start() -> Taking {
        Taking { stage: AcquireView::Reading, shelf: Shelf::untouched() }
    }

    pub open spec fn after(self, event: AcquireEvent, inputs: AcquireInputsView, uid: u32) -> Taking {
        Taking {
            stage: self.stage.after(event, inputs, uid),
            shelf: self.shelf.after(self.stage.asks(), self.stage.record(), event),
        }
    }

    pub open spec fn after_all(
        self,
        events: Seq<AcquireEvent>,
        inputs: AcquireInputsView,
        uid: u32,
    ) -> Taking
        decreases events.len(),
    {
        if events.len() == 0 {
            self
        } else {
            self.after_all(events.drop_last(), inputs, uid).after(events.last(), inputs, uid)
        }
    }

    /// The tree was written and sealed here, out of a record that had got no further than a plan.
    pub open spec fn is_built_here(self) -> bool {
        match self.shelf.found {
            Some(None) => true,
            Some(Some(found)) => found.payload is Prepared,
            None => false,
        }
    }

    spec fn seal(record: TemplateView) -> Option<SealedView> {
        match record.payload {
            TemplatePayloadView::Publishing { sealed, .. } => Some(sealed),
            TemplatePayloadView::Ready { sealed, .. } => Some(sealed),
            _ => None,
        }
    }

    /// Where the seal of the record at hand is from.
    spec fn accounts_for_the_seal(self, record: TemplateView, inputs: AcquireInputsView) -> bool {
        &&& self.is_built_here() ==> self.shelf.sealed == Taking::seal(record) && self.shelf.listed
            == Some((inputs.digest, inputs.entries))
        &&& !self.is_built_here() ==> (self.shelf.found matches Some(Some(found)) && Taking::seal(
            found,
        ) == Taking::seal(record))
    }

    spec fn is_found_ready(self) -> bool {
        self.shelf.found matches Some(Some(found)) && found.payload is Ready
    }

    spec fn accounts(self, inputs: AcquireInputsView) -> bool {
        let stage = self.stage;
        let shelf = self.shelf;
        &&& stage.record() matches Some(record) ==> inputs.fit(record)
        &&& match stage {
            AcquireView::Reading => shelf == Shelf::untouched(),
            AcquireView::Rechecking(record) => shelf.found == Some(Some(record)) && shelf.record
                == Some(record) && record.payload is Ready && !shelf.leased,
            AcquireView::NamesSeeing => shelf.found == Some(None::<TemplateView>) && !shelf.leased,
            AcquireView::PreparedCommitting(record) => self.is_built_here()
                && record.payload is Prepared,
            AcquireView::BuildingSeeing(record)
            | AcquireView::RootMaking(record)
            | AcquireView::RootChecking(record)
            | AcquireView::RootSyncing(record, _) => self.is_built_here()
                && record.payload is Prepared && shelf.record == Some(record),
            AcquireView::MaterializingCommitting(record, _) => self.is_built_here()
                && record.payload is Materializing,
            AcquireView::Materializing(record, _) => self.is_built_here()
                && record.payload is Materializing && shelf.record == Some(record),
            AcquireView::Sealing(record) => self.is_built_here()
                && record.payload is Materializing && shelf.record == Some(record) && shelf.listed
                == Some((inputs.digest, inputs.entries)),
            AcquireView::PublishingCommitting(record) => self.is_built_here()
                && record.payload is Publishing && self.accounts_for_the_seal(record, inputs),
            AcquireView::PublishSeeing(record)
            | AcquireView::PublishChecking(record)
            | AcquireView::Renaming(record)
            | AcquireView::FailedSeeing(record) => record.payload is Publishing && !self.is_found_ready()
                && shelf.record == Some(record) && self.accounts_for_the_seal(record, inputs),
            AcquireView::RenamedChecking(record)
            | AcquireView::Resealing(record)
            | AcquireView::ResealedChecking(record) => record.payload is Publishing
                && !self.is_found_ready() && shelf.record == Some(record)
                && self.accounts_for_the_seal(record, inputs) && shelf.in_place,
            AcquireView::ReadyCommitting(record) => record.payload is Ready
                && !self.is_found_ready() && self.accounts_for_the_seal(record, inputs)
                && shelf.in_place,
            AcquireView::ReadyChecking(record)
            | AcquireView::Leasing(record)
            | AcquireView::Revalidating(record)
            | AcquireView::Acquired(record) => {
                &&& record.payload matches TemplatePayloadView::Ready { root_name, sealed }
                &&& root_name == "template-"@ + record.key + ".root"@
                &&& sealed.digest == record.digest
                &&& sealed.entries == record.entries
                &&& sealed.volume == record.volume
                &&& shelf.record == Some(record)
                &&& self.accounts_for_the_seal(record, inputs)
                &&& self.is_found_ready() ==> shelf.found == Some(Some(record)) && shelf.listed
                    == Some((inputs.digest, inputs.entries))
                &&& !self.is_found_ready() ==> shelf.in_place
                &&& !(stage is ReadyChecking) ==> shelf.checked
                &&& (stage is Revalidating || stage is Acquired) ==> shelf.leased
                &&& stage is Acquired ==> shelf.held
            },
            _ => true,
        }
    }
}

proof fn lemma_step_accounts(run: Taking, event: AcquireEvent, inputs: AcquireInputsView, uid: u32)
    requires
        run.accounts(inputs),
    ensures
        run.after(event, inputs, uid).accounts(inputs),
{
}

proof fn lemma_run_accounts(events: Seq<AcquireEvent>, inputs: AcquireInputsView, uid: u32)
    ensures
        Taking::start().after_all(events, inputs, uid).accounts(inputs),
    decreases events.len(),
{
    if events.len() > 0 {
        lemma_run_accounts(events.drop_last(), inputs, uid);
        lemma_step_accounts(
            Taking::start().after_all(events.drop_last(), inputs, uid),
            events.last(),
            inputs,
            uid,
        );
    }
}

/// A template that was acquired is READY under its own name, of the key, the volume and the listing that
/// were asked for, and its seal is of that listing on that volume. Its record stands on disk as it is
/// handed out; its root was looked at, leased, and looked at again under the lease.
pub proof fn law_acquired_template_is_what_was_asked_for(
    events: Seq<AcquireEvent>,
    inputs: AcquireInputsView,
    uid: u32,
)
    ensures
        ({
            let done = Taking::start().after_all(events, inputs, uid);
            done.stage matches AcquireView::Acquired(record) ==> {
                &&& record.key == inputs.key
                &&& record.volume == inputs.volume
                &&& record.digest == inputs.digest
                &&& record.entries == inputs.entries
                &&& record.payload matches TemplatePayloadView::Ready { root_name, sealed }
                &&& root_name == "template-"@ + inputs.key + ".root"@
                &&& sealed.digest == inputs.digest
                &&& sealed.entries == inputs.entries
                &&& sealed.volume == inputs.volume
                &&& done.shelf.record == Some(record)
                &&& done.shelf.checked && done.shelf.leased && done.shelf.held
            }
        }),
{
    lemma_run_accounts(events, inputs, uid);
}

/// Where an acquired template is from. One that was READY is handed out as it was found, after the tree
/// was listed once more with the same outcome. One that was not there, or only planned, was written
/// from the listing that was asked for, sealed with the seal that its record bears, and brought to its
/// place. One whose publication had begun keeps the seal that it was published with, and stands in its
/// place. No other record comes to a template.
pub proof fn law_acquired_template_has_its_origin(
    events: Seq<AcquireEvent>,
    inputs: AcquireInputsView,
    uid: u32,
)
    ensures
        ({
            let done = Taking::start().after_all(events, inputs, uid);
            let fresh = (inputs.digest, inputs.entries);
            done.stage matches AcquireView::Acquired(record) ==> (
            record.payload matches TemplatePayloadView::Ready { sealed, .. } && (match done.shelf.found {
                Some(None) => done.shelf.listed == Some(fresh) && done.shelf.sealed == Some(sealed)
                    && done.shelf.in_place,
                Some(Some(found)) => match found.payload {
                    TemplatePayloadView::Ready { .. } => record == found && done.shelf.listed
                        == Some(fresh),
                    TemplatePayloadView::Prepared { .. } => done.shelf.listed == Some(fresh)
                        && done.shelf.sealed == Some(sealed) && done.shelf.in_place,
                    TemplatePayloadView::Publishing { sealed: before, .. } => sealed == before
                        && done.shelf.in_place,
                    _ => false,
                },
                None => false,
            }))
        }),
{
    lemma_run_accounts(events, inputs, uid);
}

} // verus!
