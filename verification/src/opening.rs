//! Opening the state root, or making it, with nothing left behind where that fails.

use crate::authority::{Error, Failure, Identity};
use crate::bytes::join2;
use crate::state_root::{
    cleanup_new_root, is_owner_only, is_safe_new_root, new_root_failure, revalidate_root,
    root_failure, safe_new_root, valid_state_root,
};
use vstd::prelude::*;

verus! {

/// How making the state root ended.
#[derive(Debug)]
pub enum MakeEvent {
    Created,
    Exists,
    Failed(String),
}

/// What the driver is asked to do.
#[derive(Clone, Copy, Debug, PartialEq, Eq, Structural)]
pub enum OpenAction {
    StatHome,
    LockHome,
    MakeRoot,
    OpenRoot,
    StatRoot,
    /// Give the new root its mode.
    ProtectRoot,
    /// Look at the root's entry and at its descriptor.
    StatBindings,
    /// Look at the new root's descriptor, entry and contents.
    StatContents,
    RemoveRoot,
    Nothing,
}

/// What the driver answers.
#[derive(Debug)]
pub enum OpenEvent {
    Identity(Result<Identity, Error>),
    Locked(Result<(), String>),
    Made(MakeEvent),
    Opened(Result<(), Error>),
    Protected(Result<(), String>),
    Bindings(Result<Identity, Error>, Result<Identity, Error>),
    Contents(Result<Identity, Error>, Result<Identity, Error>, Result<Vec<Vec<u8>>, Error>),
    Removed(Result<(), String>),
}

/// How far opening has come.
#[derive(Debug)]
pub enum RootOpening {
    HomeSeeing,
    Locking,
    Making,
    Opening { created: bool },
    NewSeeing,
    Protecting { identity: Identity },
    NewSeeingAgain { identity: Identity },
    OldSeeing,
    Revalidating { created: bool, identity: Identity },
    Cleaning { identity: Identity, primary: Error },
    Removing { primary: Error },
    Opened { created: bool, identity: Identity },
    Failed(Error),
}

pub enum OpeningView {
    HomeSeeing,
    Locking,
    Making,
    Opening(bool),
    NewSeeing,
    Protecting(Identity),
    NewSeeingAgain(Identity),
    OldSeeing,
    Revalidating(bool, Identity),
    Cleaning(Identity, Failure),
    Removing(Failure),
    Opened(bool, Identity),
    Failed(Failure),
}

impl View for RootOpening {
    type V = OpeningView;

    open spec fn view(&self) -> OpeningView {
        match self {
            RootOpening::HomeSeeing => OpeningView::HomeSeeing,
            RootOpening::Locking => OpeningView::Locking,
            RootOpening::Making => OpeningView::Making,
            RootOpening::Opening { created } => OpeningView::Opening(*created),
            RootOpening::NewSeeing => OpeningView::NewSeeing,
            RootOpening::Protecting { identity } => OpeningView::Protecting(*identity),
            RootOpening::NewSeeingAgain { identity } => OpeningView::NewSeeingAgain(*identity),
            RootOpening::OldSeeing => OpeningView::OldSeeing,
            RootOpening::Revalidating { created, identity } => OpeningView::Revalidating(
                *created,
                *identity,
            ),
            RootOpening::Cleaning { identity, primary } => OpeningView::Cleaning(
                *identity,
                primary@,
            ),
            RootOpening::Removing { primary } => OpeningView::Removing(primary@),
            RootOpening::Opened { created, identity } => OpeningView::Opened(*created, *identity),
            RootOpening::Failed(error) => OpeningView::Failed(error@),
        }
    }
}

pub open spec fn unavailable(detail: Seq<char>) -> Failure {
    ("STATE_UNAVAILABLE"@, detail)
}

impl OpeningView {
    /// The opening after the driver's answer. An answer to another question changes nothing.
    pub open spec fn after(self, event: OpenEvent, uid: u32) -> OpeningView {
        match (self, event) {
            (OpeningView::HomeSeeing, OpenEvent::Identity(seen)) => match seen {
                Err(error) => OpeningView::Failed(error@),
                Ok(home) => if home.is_directory() && home.uid == uid {
                    OpeningView::Locking
                } else {
                    OpeningView::Failed(unavailable("HOME is not an owned directory"@))
                },
            },
            (OpeningView::Locking, OpenEvent::Locked(locked)) => match locked {
                Ok(_) => OpeningView::Making,
                Err(words) => OpeningView::Failed(
                    ("STATE_BUSY"@, "cannot lock HOME"@ + ": "@ + words@),
                ),
            },
            (OpeningView::Making, OpenEvent::Made(made)) => match made {
                MakeEvent::Created => OpeningView::Opening(true),
                MakeEvent::Exists => OpeningView::Opening(false),
                MakeEvent::Failed(words) => OpeningView::Failed(
                    unavailable("cannot create state root"@ + ": "@ + words@),
                ),
            },
            (OpeningView::Opening(created), OpenEvent::Opened(opened)) => match opened {
                Ok(_) => if created {
                    OpeningView::NewSeeing
                } else {
                    OpeningView::OldSeeing
                },
                Err(error) => if created {
                    OpeningView::Failed(
                        (
                            "STATE_CLEANUP_FAILED"@,
                            "cannot arm newly created state root: "@ + crate::git::shown(error@),
                        ),
                    )
                } else {
                    OpeningView::Failed(error@)
                },
            },
            (OpeningView::NewSeeing, OpenEvent::Identity(seen)) => match seen {
                Err(_) => OpeningView::Failed(
                    ("STATE_CLEANUP_FAILED"@, "new state root identity was not established"@),
                ),
                Ok(identity) => if is_safe_new_root(identity, uid) {
                    OpeningView::Protecting(identity)
                } else {
                    OpeningView::Cleaning(
                        identity,
                        unavailable("new state root is not owner-only"@),
                    )
                },
            },
            (OpeningView::Protecting(identity), OpenEvent::Protected(done)) => match done {
                Ok(_) => OpeningView::NewSeeingAgain(identity),
                Err(words) => OpeningView::Cleaning(
                    identity,
                    unavailable("cannot protect new state root"@ + ": "@ + words@),
                ),
            },
            (OpeningView::NewSeeingAgain(first), OpenEvent::Identity(seen)) => match seen {
                Err(error) => OpeningView::Cleaning(first, error@),
                Ok(identity) => if !is_safe_new_root(identity, uid) {
                    OpeningView::Cleaning(
                        identity,
                        unavailable("new state root is not owner-only"@),
                    )
                } else if !is_owner_only(identity, uid) {
                    OpeningView::Cleaning(identity, unavailable("state root is not owner-only"@))
                } else {
                    OpeningView::Revalidating(true, identity)
                },
            },
            (OpeningView::OldSeeing, OpenEvent::Identity(seen)) => match seen {
                Err(error) => OpeningView::Failed(error@),
                Ok(identity) => if is_owner_only(identity, uid) {
                    OpeningView::Revalidating(false, identity)
                } else {
                    OpeningView::Failed(unavailable("state root is not owner-only"@))
                },
            },
            (
                OpeningView::Revalidating(created, identity),
                OpenEvent::Bindings(entry, descriptor),
            ) => match root_failure(entry, descriptor, identity, uid) {
                None => OpeningView::Opened(created, identity),
                Some(primary) => if created {
                    OpeningView::Cleaning(identity, primary)
                } else {
                    OpeningView::Failed(primary)
                },
            },
            (
                OpeningView::Cleaning(identity, primary),
                OpenEvent::Contents(descriptor, entry, names),
            ) => match new_root_failure(identity, descriptor, entry, names, uid) {
                None => OpeningView::Removing(primary),
                Some(failed) => OpeningView::Failed(failed),
            },
            (OpeningView::Removing(primary), OpenEvent::Removed(removed)) => match removed {
                Ok(_) => OpeningView::Failed(primary),
                Err(words) => OpeningView::Failed(
                    (
                        "STATE_CLEANUP_FAILED"@,
                        "cannot remove new state root"@ + ": "@ + words@,
                    ),
                ),
            },
            _ => self,
        }
    }

    pub open spec fn asks(self) -> OpenAction {
        match self {
            OpeningView::HomeSeeing => OpenAction::StatHome,
            OpeningView::Locking => OpenAction::LockHome,
            OpeningView::Making => OpenAction::MakeRoot,
            OpeningView::Opening(_) => OpenAction::OpenRoot,
            OpeningView::NewSeeing | OpeningView::NewSeeingAgain(_) | OpeningView::OldSeeing => {
                OpenAction::StatRoot
            },
            OpeningView::Protecting(_) => OpenAction::ProtectRoot,
            OpeningView::Revalidating(_, _) => OpenAction::StatBindings,
            OpeningView::Cleaning(_, _) => OpenAction::StatContents,
            OpeningView::Removing(_) => OpenAction::RemoveRoot,
            OpeningView::Opened(_, _) | OpeningView::Failed(_) => OpenAction::Nothing,
        }
    }
}

impl RootOpening {
    pub fn start() -> (opening: Self)
        ensures
            opening@ == OpeningView::HomeSeeing,
    {
        RootOpening::HomeSeeing
    }

    pub fn action(&self) -> (action: OpenAction)
        ensures
            action == self@.asks(),
    {
        match self {
            RootOpening::HomeSeeing => OpenAction::StatHome,
            RootOpening::Locking => OpenAction::LockHome,
            RootOpening::Making => OpenAction::MakeRoot,
            RootOpening::Opening { .. } => OpenAction::OpenRoot,
            RootOpening::NewSeeing => OpenAction::StatRoot,
            RootOpening::NewSeeingAgain { .. } => OpenAction::StatRoot,
            RootOpening::OldSeeing => OpenAction::StatRoot,
            RootOpening::Protecting { .. } => OpenAction::ProtectRoot,
            RootOpening::Revalidating { .. } => OpenAction::StatBindings,
            RootOpening::Cleaning { .. } => OpenAction::StatContents,
            RootOpening::Removing { .. } => OpenAction::RemoveRoot,
            RootOpening::Opened { .. } => OpenAction::Nothing,
            RootOpening::Failed(_) => OpenAction::Nothing,
        }
    }

    /// Takes the driver's answer; `uid` is the user who runs the program.
    pub fn answer(self, event: OpenEvent, uid: u32) -> (next: Self)
        ensures
            next@ == self@.after(event, uid),
    {
        match (self, event) {
            (RootOpening::HomeSeeing, OpenEvent::Identity(seen)) => match seen {
                Err(error) => RootOpening::Failed(error),
                Ok(home) => if home.directory() && home.uid == uid {
                    RootOpening::Locking
                } else {
                    RootOpening::Failed(
                        Error::new("STATE_UNAVAILABLE", "HOME is not an owned directory"),
                    )
                },
            },
            (RootOpening::Locking, OpenEvent::Locked(locked)) => match locked {
                Ok(_) => RootOpening::Making,
                Err(words) => RootOpening::Failed(
                    Error::io("STATE_BUSY", "cannot lock HOME", words.as_str()),
                ),
            },
            (RootOpening::Making, OpenEvent::Made(made)) => match made {
                MakeEvent::Created => RootOpening::Opening { created: true },
                MakeEvent::Exists => RootOpening::Opening { created: false },
                MakeEvent::Failed(words) => RootOpening::Failed(
                    Error::io("STATE_UNAVAILABLE", "cannot create state root", words.as_str()),
                ),
            },
            (RootOpening::Opening { created }, OpenEvent::Opened(opened)) => match opened {
                Ok(_) => if created {
                    RootOpening::NewSeeing
                } else {
                    RootOpening::OldSeeing
                },
                Err(error) => if created {
                    let words = error.to_text();
                    RootOpening::Failed(
                        Error::new(
                            "STATE_CLEANUP_FAILED",
                            join2("cannot arm newly created state root: ", words.as_str()).as_str(),
                        ),
                    )
                } else {
                    RootOpening::Failed(error)
                },
            },
            (RootOpening::NewSeeing, OpenEvent::Identity(seen)) => match seen {
                Err(_) => RootOpening::Failed(
                    Error::new(
                        "STATE_CLEANUP_FAILED",
                        "new state root identity was not established",
                    ),
                ),
                Ok(identity) => if safe_new_root(identity, uid) {
                    RootOpening::Protecting { identity }
                } else {
                    RootOpening::Cleaning {
                        identity,
                        primary: Error::new("STATE_UNAVAILABLE", "new state root is not owner-only"),
                    }
                },
            },
            (RootOpening::Protecting { identity }, OpenEvent::Protected(done)) => match done {
                Ok(_) => RootOpening::NewSeeingAgain { identity },
                Err(words) => RootOpening::Cleaning {
                    identity,
                    primary: Error::io(
                        "STATE_UNAVAILABLE",
                        "cannot protect new state root",
                        words.as_str(),
                    ),
                },
            },
            (RootOpening::NewSeeingAgain { identity: first }, OpenEvent::Identity(seen)) => {
                match seen {
                    Err(error) => RootOpening::Cleaning { identity: first, primary: error },
                    Ok(identity) => if !safe_new_root(identity, uid) {
                        RootOpening::Cleaning {
                            identity,
                            primary: Error::new(
                                "STATE_UNAVAILABLE",
                                "new state root is not owner-only",
                            ),
                        }
                    } else if !valid_state_root(identity, uid) {
                        RootOpening::Cleaning {
                            identity,
                            primary: Error::new("STATE_UNAVAILABLE", "state root is not owner-only"),
                        }
                    } else {
                        RootOpening::Revalidating { created: true, identity }
                    },
                }
            },
            (RootOpening::OldSeeing, OpenEvent::Identity(seen)) => match seen {
                Err(error) => RootOpening::Failed(error),
                Ok(identity) => if valid_state_root(identity, uid) {
                    RootOpening::Revalidating { created: false, identity }
                } else {
                    RootOpening::Failed(
                        Error::new("STATE_UNAVAILABLE", "state root is not owner-only"),
                    )
                },
            },
            (
                RootOpening::Revalidating { created, identity },
                OpenEvent::Bindings(entry, descriptor),
            ) => match revalidate_root(entry, descriptor, identity, uid) {
                Ok(_) => RootOpening::Opened { created, identity },
                Err(primary) => if created {
                    RootOpening::Cleaning { identity, primary }
                } else {
                    RootOpening::Failed(primary)
                },
            },
            (
                RootOpening::Cleaning { identity, primary },
                OpenEvent::Contents(descriptor, entry, names),
            ) => match cleanup_new_root(identity, descriptor, entry, names, uid) {
                Ok(_) => RootOpening::Removing { primary },
                Err(error) => RootOpening::Failed(error),
            },
            (RootOpening::Removing { primary }, OpenEvent::Removed(removed)) => match removed {
                Ok(_) => RootOpening::Failed(primary),
                Err(words) => RootOpening::Failed(
                    Error::io(
                        "STATE_CLEANUP_FAILED",
                        "cannot remove new state root",
                        words.as_str(),
                    ),
                ),
            },
            (opening, _) => opening,
        }
    }
}

/// An opened state root is an owner-only directory of the user, and it still stood under its name
/// when it was opened.
pub proof fn law_opened_root_is_owner_only(opening: OpeningView, event: OpenEvent, uid: u32)
    requires
        opening !is Opened,
        opening.after(event, uid) is Opened,
    ensures
        opening matches OpeningView::Revalidating(created, identity) && opening.after(event, uid)
            == OpeningView::Opened(created, identity) && (event matches OpenEvent::Bindings(
            entry,
            descriptor,
        ) && entry is Ok && descriptor is Ok && is_owner_only(entry->Ok_0, uid)
            && entry->Ok_0.is_same_node(identity) && descriptor->Ok_0.is_same_node(identity)),
{
}

/// A state root is removed only where this opening made it, and only while it is the empty directory
/// that was made.
pub proof fn law_only_an_empty_new_root_is_removed(opening: OpeningView, event: OpenEvent, uid: u32)
    requires
        opening.asks() != OpenAction::RemoveRoot,
        opening.after(event, uid).asks() == OpenAction::RemoveRoot,
    ensures
        opening matches OpeningView::Cleaning(identity, primary) && (event matches OpenEvent::Contents(
            descriptor,
            entry,
            names,
        ) && names is Ok && names->Ok_0@.len() == 0 && entry is Ok
            && entry->Ok_0.is_same_node(identity) && is_safe_new_root(entry->Ok_0, uid)),
{
}

/// Cleaning up is reached only by an opening that made the root itself.
pub proof fn law_a_found_root_is_never_cleaned(opening: OpeningView, event: OpenEvent, uid: u32)
    requires
        opening !is Cleaning,
        opening.after(event, uid) is Cleaning,
    ensures
        opening is NewSeeing || opening is Protecting || opening is NewSeeingAgain || (
        opening matches OpeningView::Revalidating(created, _) && created),
{
}

} // verus!
