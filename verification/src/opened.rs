//! What an opened state root is, and what a scan of it that finds nothing wrong says of its entries.

use crate::authority::{record_name_text, AuthorityView, Identity};
use crate::bytes::utf8;
use crate::opening::{MakeEvent, OpenAction, OpenEvent, OpeningView};
use crate::paths::same_path_spec;
use crate::rooted::is_with_mode;
use crate::state_root::{entries_failure, entry_failure, RootEntry};
use vstd::prelude::*;

verus! {

/// What the answers to the opening of a state root have told.
pub struct Threshold {
    /// The home directory was seen as a directory of the user.
    pub home_seen: bool,
    /// It was locked behind that.
    pub locked: bool,
    /// The root was made under that lock, or stood there.
    pub made: Option<bool>,
    pub opened: bool,
    /// The new root was given its mode.
    pub protected: bool,
    /// The root as it was last seen by its descriptor alone.
    pub root: Option<Identity>,
    /// The root was seen unchanged under its name and by its descriptor.
    pub bound: bool,
    pub removed: bool,
}

impl Threshold {
    pub open spec fn untouched() -> Threshold {
        Threshold {
            home_seen: false,
            locked: false,
            made: None,
            opened: false,
            protected: false,
            root: None,
            bound: false,
            removed: false,
        }
    }

    pub open spec fn after(self, action: OpenAction, event: OpenEvent, uid: u32) -> Threshold {
        match (action, event) {
            (OpenAction::StatHome, OpenEvent::Identity(Ok(home))) => Threshold {
                home_seen: home.is_directory() && home.uid == uid,
                ..self
            },
            (OpenAction::LockHome, OpenEvent::Locked(Ok(_))) => Threshold {
                locked: self.home_seen,
                ..self
            },
            (OpenAction::MakeRoot, OpenEvent::Made(MakeEvent::Created)) => Threshold {
                made: Some(true),
                ..self
            },
            (OpenAction::MakeRoot, OpenEvent::Made(MakeEvent::Exists)) => Threshold {
                made: Some(false),
                ..self
            },
            (OpenAction::OpenRoot, OpenEvent::Opened(Ok(_))) => Threshold { opened: true, ..self },
            (OpenAction::ProtectRoot, OpenEvent::Protected(Ok(_))) => Threshold {
                protected: true,
                ..self
            },
            (OpenAction::StatRoot, OpenEvent::Identity(Ok(root))) => Threshold {
                root: Some(root),
                ..self
            },
            (OpenAction::StatBindings, OpenEvent::Bindings(Ok(entry), Ok(descriptor))) => Threshold {
                bound: self.root matches Some(root) && entry.is_same_node(root)
                    && descriptor.is_same_node(root) && is_with_mode(entry, uid, 0o700)
                    && is_with_mode(descriptor, uid, 0o700),
                ..self
            },
            (OpenAction::RemoveRoot, OpenEvent::Removed(Ok(_))) => Threshold { removed: true, ..self },
            _ => self,
        }
    }
}

/// A state root that is being opened.
pub struct OpeningRun {
    pub opening: OpeningView,
    pub seen: Threshold,
}

impl OpeningRun {
    pub open spec fn start() -> OpeningRun {
        OpeningRun { opening: OpeningView::HomeSeeing, seen: Threshold::untouched() }
    }

    pub open spec fn after(self, event: OpenEvent, uid: u32) -> OpeningRun {
        OpeningRun {
            opening: self.opening.after(event, uid),
            seen: self.seen.after(self.opening.asks(), event, uid),
        }
    }

    pub open spec fn after_all(self, events: Seq<OpenEvent>, uid: u32) -> OpeningRun
        decreases events.len(),
    {
        if events.len() == 0 {
            self
        } else {
            self.after_all(events.drop_last(), uid).after(events.last(), uid)
        }
    }

    spec fn accounts(self, uid: u32) -> bool {
        let seen = self.seen;
        let entered = seen.home_seen && seen.locked;
        match self.opening {
            OpeningView::HomeSeeing => seen == Threshold::untouched(),
            OpeningView::Locking => seen.home_seen && seen.made is None,
            OpeningView::Making => entered && seen.made is None,
            OpeningView::Opening(created) => entered && seen.made == Some(created),
            OpeningView::NewSeeing | OpeningView::Protecting(_) => entered && seen.made == Some(true)
                && seen.opened,
            OpeningView::NewSeeingAgain(_) => entered && seen.made == Some(true) && seen.opened
                && seen.protected,
            OpeningView::OldSeeing => entered && seen.made == Some(false) && seen.opened,
            OpeningView::Revalidating(created, identity) => entered && seen.made == Some(created)
                && seen.opened && (created ==> seen.protected) && seen.root == Some(identity)
                && is_with_mode(identity, uid, 0o700),
            OpeningView::Cleaning(_, _) | OpeningView::Removing(_) => seen.made == Some(true),
            OpeningView::Opened(created, identity) => entered && seen.made == Some(created)
                && seen.opened && (created ==> seen.protected) && seen.root == Some(identity)
                && is_with_mode(identity, uid, 0o700) && seen.bound,
            OpeningView::Failed(error) => seen.made == Some(true) && !seen.removed ==> error.0
                == "STATE_CLEANUP_FAILED"@,
        }
    }
}

proof fn lemma_opening_step(run: OpeningRun, event: OpenEvent, uid: u32)
    requires
        run.accounts(uid),
    ensures
        run.after(event, uid).accounts(uid),
{
}

proof fn lemma_opening_run(events: Seq<OpenEvent>, uid: u32)
    ensures
        OpeningRun::start().after_all(events, uid).accounts(uid),
    decreases events.len(),
{
    if events.len() > 0 {
        lemma_opening_run(events.drop_last(), uid);
        lemma_opening_step(
            OpeningRun::start().after_all(events.drop_last(), uid),
            events.last(),
            uid,
        );
    }
}

/// A state root is opened under the lock of a home directory of the user: it is the directory that was
/// seen, the user's and open to nobody else, and it was seen again under its name. It counts as new
/// exactly where it was made, and a new one was given its mode.
pub proof fn law_opened_root_is_the_one_seen(events: Seq<OpenEvent>, uid: u32)
    ensures
        ({
            let done = OpeningRun::start().after_all(events, uid);
            done.opening matches OpeningView::Opened(created, identity) ==> {
                &&& done.seen.home_seen && done.seen.locked
                &&& done.seen.made == Some(created)
                &&& done.seen.opened
                &&& created ==> done.seen.protected
                &&& done.seen.root == Some(identity)
                &&& is_with_mode(identity, uid, 0o700)
                &&& done.seen.bound
            }
        }),
{
    lemma_opening_run(events, uid);
}

/// An opening that fails leaves no root that it made, or says that it could not clean up.
pub proof fn law_failed_opening_leaves_no_root(events: Seq<OpenEvent>, uid: u32)
    ensures
        ({
            let done = OpeningRun::start().after_all(events, uid);
            done.opening matches OpeningView::Failed(error) ==> done.seen.made == Some(true)
                && !done.seen.removed ==> error.0 == "STATE_CLEANUP_FAILED"@
        }),
{
    lemma_opening_run(events, uid);
}

/// An entry of a state root that goes with an authority that is to be registered: a container of its
/// own kind, private and on the volume of the root; or the record of another authority, under the name
/// of that authority's path, at another path and of another node.
pub open spec fn goes_with(entry: RootEntry, authority: AuthorityView, root: Identity, uid: u32) -> bool {
    ||| (entry.name@ == utf8("templates"@) || entry.name@ == utf8("sessions"@)) && (
    entry.identity matches Ok(identity) && is_with_mode(identity, uid, 0o700) && identity.dev
        == root.dev)
    ||| utf8(".record"@).is_suffix_of(entry.name@) && (entry.record matches Ok(record) && entry.name@
        == utf8(record_name_text(record@.canonical)) && !same_path_spec(
        record@.canonical,
        authority.canonical,
    ) && !(record@.identity.dev == authority.identity.dev && record@.identity.ino
        == authority.identity.ino))
}

/// A scan that finds nothing wrong has looked at every entry: each goes with the authority that is to
/// be registered.
pub proof fn law_scanned_entries_go_with_the_authority(
    entries: Seq<RootEntry>,
    authority: AuthorityView,
    root: Identity,
    uid: u32,
    at: int,
)
    requires
        entries_failure(entries, authority, root, uid) is None,
        0 <= at < entries.len(),
    ensures
        goes_with(entries[at], authority, root, uid),
    decreases entries.len(),
{
    if at < entries.len() - 1 {
        assert(entries.drop_last()[at] == entries[at]);
        law_scanned_entries_go_with_the_authority(entries.drop_last(), authority, root, uid, at);
    }
}

/// An authority whose path is recorded is told apart: the very same one is a duplicate, and another one
/// at the same path has drifted. A record of the same node at another path is corrupt.
pub proof fn law_recorded_paths_are_told_apart(
    entry: RootEntry,
    authority: AuthorityView,
    root: Identity,
    uid: u32,
)
    requires
        utf8(".record"@).is_suffix_of(entry.name@),
        !utf8("."@).is_prefix_of(entry.name@),
        entry.name@ != utf8("templates"@),
        entry.name@ != utf8("sessions"@),
        entry.record matches Ok(record) && entry.name@ == utf8(record_name_text(record@.canonical)),
    ensures
        entry.record matches Ok(record) && {
            &&& same_path_spec(record@.canonical, authority.canonical) && record@.same_authority(
                authority,
            ) ==> entry_failure(entry, authority, root, uid) == Some(
                ("AUTHORITY_DUPLICATE"@, "authority already initialized"@),
            )
            &&& same_path_spec(record@.canonical, authority.canonical) && !record@.same_authority(
                authority,
            ) ==> entry_failure(entry, authority, root, uid) == Some(
                (
                    "AUTHORITY_IDENTITY_DRIFT"@,
                    "canonical authority path identifies different data"@,
                ),
            )
            &&& !same_path_spec(record@.canonical, authority.canonical) && record@.identity.dev
                == authority.identity.dev && record@.identity.ino == authority.identity.ino ==> (
            entry_failure(entry, authority, root, uid) matches Some(error) && error.0
                == "STATE_CORRUPT"@)
        },
{
}

} // verus!
