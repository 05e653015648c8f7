//! Where a program of a session runs, and whose files and directories are touched on the way.

use crate::authority::{AuthorityView, Identity};
use crate::bytes::{lemma_utf8_ascii, lemma_utf8_concat, utf8};
use crate::entry::{EntryAction, EntryEvent, EntryView, Purpose};
use crate::made::inside;
use crate::notation::hex_text;
use crate::paths::joined;
use crate::session::{
    idle_failure, includes, is_bound_to, is_owned_directory, is_session_record_name,
    keeps_creating, record_name_text, CapabilityView, JournalView, SessionView,
};
use crate::session_roots::{ready_failure, ReadyView};
use crate::state_root::{is_container, is_owner_only, is_safe_new_root};
use crate::storage::{
    is_clone_destination, is_owned_tree, is_private_directory, is_sealed_directory,
    is_sealed_regular, is_worktree_directory, is_worktree_regular, sealed_mode_spec,
    session_mode_spec,
};
use crate::template::is_cleanup_mode;
use crate::template_roots::LeaseEvent;
use vstd::prelude::*;

verus! {

/// A session that is being entered, where sessions are kept, and the record that was found.
pub struct Entering {
    pub entry: EntryView,
    pub authority: AuthorityView,
    pub sessions: Seq<u8>,
    pub found: Option<CapabilityView>,
    pub leased: bool,
}

impl Entering {
    pub open spec fn start(authority: AuthorityView, sessions: Seq<u8>) -> Entering {
        Entering {
            entry: EntryView::Finding,
            authority,
            sessions,
            found: None,
            leased: false,
        }
    }

    /// A session that was loaded is the one that its record binds.
    pub open spec fn is_answered(self, event: EntryEvent) -> bool {
        match (self.entry, event) {
            (EntryView::Loading(capability), EntryEvent::Loaded(Ok(ready))) => ready_failure(
                capability.record,
                self.authority,
            ) is None && ready@ == capability.record.ready_binding(self.sessions),
            _ => true,
        }
    }

    pub open spec fn after(self, event: EntryEvent, purpose: Purpose) -> Entering {
        Entering {
            entry: self.entry.after(event, purpose),
            found: match (self.entry.asks(), event) {
                (EntryAction::FindRecord, EntryEvent::Found(Ok(capability))) => Some(capability@),
                _ => self.found,
            },
            leased: self.leased || (self.entry.asks() == EntryAction::Lease && (
            event matches EntryEvent::Lease(LeaseEvent::Locked))),
            ..self
        }
    }

    pub open spec fn after_all(self, events: Seq<EntryEvent>, purpose: Purpose) -> Entering
        decreases events.len(),
    {
        if events.len() == 0 {
            self
        } else {
            self.after_all(events.drop_last(), purpose).after(events.last(), purpose)
        }
    }

    pub open spec fn is_answered_all(self, events: Seq<EntryEvent>, purpose: Purpose) -> bool
        decreases events.len(),
    {
        events.len() == 0 || (self.is_answered_all(events.drop_last(), purpose) && self.after_all(
            events.drop_last(),
            purpose,
        ).is_answered(events.last()))
    }

    spec fn agrees(self, authority: AuthorityView, sessions: Seq<u8>, purpose: Purpose) -> bool {
        &&& self.authority == authority
        &&& self.sessions == sessions
        &&& !(self.entry is Finding || self.entry is Failed) ==> (self.found matches Some(found) && (
        purpose is Exec ==> found.record.journal is Idle))
        &&& self.entry matches EntryView::Loading(capability) ==> self.found == Some(capability)
        &&& (self.entry matches EntryView::Leasing(capability, ready) ==> self.found == Some(
            capability,
        ) && is_loaded(capability.record, ready, authority, sessions))
        &&& (self.entry matches EntryView::Revalidating(capability, ready) ==> self.leased
            && self.found == Some(capability) && is_loaded(
            capability.record,
            ready,
            authority,
            sessions,
        ))
        &&& (self.entry matches EntryView::Entered(capability, ready) ==> self.leased
            && capability.binding == self.found->0.binding && is_loaded(
            self.found->0.record,
            ready,
            authority,
            sessions,
        ))
    }
}

spec fn is_loaded(
    record: SessionView,
    ready: ReadyView,
    authority: AuthorityView,
    sessions: Seq<u8>,
) -> bool {
    ready_failure(record, authority) is None && ready == record.ready_binding(sessions)
}

proof fn lemma_entering_run(
    authority: AuthorityView,
    sessions: Seq<u8>,
    events: Seq<EntryEvent>,
    purpose: Purpose,
)
    requires
        Entering::start(authority, sessions).is_answered_all(events, purpose),
    ensures
        Entering::start(authority, sessions).after_all(events, purpose).agrees(
            authority,
            sessions,
            purpose,
        ),
    decreases events.len(),
{
    if events.len() > 0 {
        lemma_entering_run(authority, sessions, events.drop_last(), purpose);
    }
}

proof fn lemma_inside(base: Seq<u8>, name: Seq<char>)
    requires
        utf8(name).len() > 0,
        utf8(name)[0] != 47,
    ensures
        joined(base, utf8(name)) == inside(base, name),
{
    assert(joined(base, utf8(name)) =~= inside(base, name));
}

/// A session is entered only under its lease, as the record that was found says and with that record
/// unchanged; its program runs in the worktree of the session's own directory, and publishing takes its
/// commits from the repository beside it. A program runs only where nothing is being published.
pub proof fn law_entered_session_is_the_found_one(
    authority: AuthorityView,
    sessions: Seq<u8>,
    events: Seq<EntryEvent>,
    purpose: Purpose,
)
    requires
        Entering::start(authority, sessions).is_answered_all(events, purpose),
    ensures
        ({
            let done = Entering::start(authority, sessions).after_all(events, purpose);
            done.entry matches EntryView::Entered(capability, ready) ==> {
                let found = done.found->0;
                let root = inside(sessions, "session-"@ + found.record.sid + ".root"@);
                &&& done.found is Some
                &&& done.leased
                &&& capability.binding == found.binding
                &&& found.record.payload is Ready
                &&& found.record.authority_path == hex_text(authority.canonical)
                &&& found.record.authority_identity.is_same_node(authority.identity)
                &&& ready.root_path == root
                &&& ready.worktree_path == inside(root, "worktree"@)
                &&& ready.common_path == inside(root, "common.git"@)
                &&& ready.root_identity == found.record.payload->Ready_root_identity
                &&& ready.common_identity == found.record.payload->Ready_common_identity
                &&& purpose is Exec ==> found.record.journal is Idle
            }
        }),
{
    lemma_entering_run(authority, sessions, events, purpose);
    let done = Entering::start(authority, sessions).after_all(events, purpose);
    if let EntryView::Entered(capability, ready) = done.entry {
        let sid = done.found->0.record.sid;
        lemma_root_name(sid);
        reveal_strlit("worktree");
        reveal_strlit("common.git");
        lemma_utf8_ascii("worktree"@);
        lemma_utf8_ascii("common.git"@);
        let root = inside(sessions, "session-"@ + sid + ".root"@);
        lemma_inside(sessions, "session-"@ + sid + ".root"@);
        lemma_inside(root, "worktree"@);
        lemma_inside(root, "common.git"@);
    }
}

proof fn lemma_root_name(sid: Seq<char>)
    ensures
        utf8("session-"@ + sid + ".root"@).len() > 0,
        utf8("session-"@ + sid + ".root"@)[0] != 47,
{
    reveal_strlit("session-");
    lemma_utf8_ascii("session-"@);
    lemma_utf8_concat("session-"@, sid + ".root"@);
    assert("session-"@ + sid + ".root"@ =~= "session-"@ + (sid + ".root"@));
    assert(utf8("session-"@ + sid + ".root"@)[0] == utf8("session-"@)[0]);
}

/// Publishing wants the session for itself, and does not wait for it.
pub proof fn law_busy_sessions_are_not_published(
    capability: CapabilityView,
    ready: ReadyView,
    words: String,
)
    ensures
        (EntryView::Leasing(capability, ready).after(
            EntryEvent::Lease(LeaseEvent::WouldBlock(words)),
            Purpose::Publish,
        ) matches EntryView::Failed(failed) && failed.0 == "SESSION_BUSY"@),
        EntryView::Leasing(capability, ready).after(
            EntryEvent::Lease(LeaseEvent::Failed(words)),
            Purpose::Exec,
        ) is Failed,
        EntryView::Leasing(capability, ready).after(
            EntryEvent::Lease(LeaseEvent::Locked),
            Purpose::Publish,
        ).asks() == EntryAction::RevalidateReady,
        EntryView::Leasing(capability, ready).after(
            EntryEvent::Lease(LeaseEvent::Locked),
            Purpose::Exec,
        ).asks() == EntryAction::RevalidateReady,
{
}

/// What is under way is told from what is not by its journal alone; and what was swapped already is
/// told from what may have been.
pub proof fn law_only_idle_journals_are_idle(journal: JournalView)
    ensures
        idle_failure(journal) is None <==> journal is Idle,
        journal is CasCommitted ==> (idle_failure(journal) matches Some(failed) && failed.0
            == "PUBLISH_COMMITTED_RECOVERY_REQUIRED"@),
        journal is Prepared || journal is ObjectsImported || journal is CasAttempted ==> (
        idle_failure(journal) matches Some(failed) && failed.0 == "PUBLISH_RECOVERY_REQUIRED"@),
{
}

/// The directories and files that are taken for one's own: of the user, of the right type, with exactly
/// the mode that they were given, and a file under no second name.
pub proof fn law_owned_entries_are_ones_own(identity: Identity, root: Identity, uid: u32)
    ensures
        is_private_directory(identity, uid) <==> identity.kind == 0o040000 && identity.uid == uid
            && identity.mode == 0o700 && identity.nlink >= 2,
        is_sealed_directory(identity, uid) <==> identity.kind == 0o040000 && identity.uid == uid
            && identity.mode == 0o555 && identity.nlink >= 2,
        is_worktree_directory(identity, uid) <==> identity.kind == 0o040000 && identity.uid == uid
            && identity.mode == 0o755 && identity.nlink >= 2,
        is_clone_destination(identity, uid) <==> identity.kind == 0o040000 && identity.uid == uid
            && (identity.mode == 0o700 || identity.mode == 0o755) && identity.nlink >= 2,
        is_sealed_regular(identity, uid) <==> identity.kind == 0o100000 && identity.uid == uid
            && identity.nlink == 1 && (identity.mode == 0o444 || identity.mode == 0o555),
        is_worktree_regular(identity, uid) <==> identity.kind == 0o100000 && identity.uid == uid
            && identity.nlink == 1 && (identity.mode == 0o644 || identity.mode == 0o755),
        is_owned_directory(identity, uid) <==> identity.kind == 0o040000 && identity.uid == uid
            && identity.nlink >= 2,
        is_owner_only(identity, uid) <==> is_private_directory(identity, uid),
        is_container(identity, root, uid) <==> is_private_directory(identity, uid) && identity.dev
            == root.dev,
        is_safe_new_root(identity, uid) ==> identity.mode & 0o077 == 0 && identity.uid == uid
            && identity.kind == 0o040000,
        is_cleanup_mode(identity, uid) <==> is_private_directory(identity, uid)
            || is_sealed_directory(identity, uid),
        is_owned_tree(identity, root) <==> identity.kind == 0o040000 && root.kind == 0o040000
            && identity.dev == root.dev && identity.ino == root.ino && identity.uid == root.uid,
{
}

/// A program stays a program when it is sealed or cloned, and nothing else becomes one; what is sealed
/// can be written by nobody, and what is cloned by its owner.
pub proof fn law_programs_stay_programs(mode: u32)
    requires
        mode == 0o444 || mode == 0o555 || mode == 0o644 || mode == 0o755,
    ensures
        mode == 0o444 ==> session_mode_spec(mode) == 0o644,
        mode == 0o555 ==> session_mode_spec(mode) == 0o755,
        mode == 0o644 ==> sealed_mode_spec(mode) == 0o444,
        mode == 0o755 ==> sealed_mode_spec(mode) == 0o555,
{
}

/// The file of a session's record is taken for one, and the record for the authority's that it names.
pub proof fn law_records_are_found_by_their_names(
    sid: Seq<char>,
    record: SessionView,
    authority: AuthorityView,
)
    ensures
        is_session_record_name(utf8(record_name_text(sid))),
        is_bound_to(record, authority) <==> record.authority_path == hex_text(authority.canonical)
            && record.authority_identity.dev == authority.identity.dev
            && record.authority_identity.ino == authority.identity.ino
            && record.authority_identity.uid == authority.identity.uid
            && record.authority_identity.mode == authority.identity.mode
            && record.authority_identity.kind == authority.identity.kind,
{
    lemma_utf8_concat("session-"@ + sid, ".record"@);
    lemma_utf8_concat("session-"@, sid);
    let name = utf8(record_name_text(sid));
    let front = utf8("session-"@);
    let back = utf8(".record"@);
    assert(name == front + utf8(sid) + back);
    assert(name.subrange(0, front.len() as int) =~= front);
    assert(name.subrange(name.len() - back.len(), name.len() as int) =~= back);
}

/// A path below another is that other, a separator, and the name.
pub proof fn law_joined_paths_are_below(base: Seq<u8>, name: Seq<u8>)
    requires
        base.len() > 0,
        base.last() != 47,
        name.len() > 0,
        name[0] != 47,
    ensures
        joined(base, name) == base + seq![47u8] + name,
        joined(base.push(47), name) == base + seq![47u8] + name,
{
    assert(joined(base, name) =~= base + seq![47u8] + name);
    assert(joined(base.push(47), name) =~= base + seq![47u8] + name);
}

/// A session whose making failed is kept where what failed leaves its state unknown: where Git, the
/// disk or a rename was at fault, or recovery was asked for.
pub proof fn law_unclear_failures_keep_the_session(code: Seq<char>, detail: Seq<char>)
    ensures
        keeps_creating(("GIT_"@ + code, detail)),
        keeps_creating((code + "RECOVERY"@ + detail, detail)),
        keeps_creating((code + "_IO_"@ + detail, detail)),
        keeps_creating((code, "rename"@ + detail)),
        keeps_creating((code, "sync"@ + detail)),
        keeps_creating(("STATE_UNAVAILABLE"@, detail)),
{
    lemma_utf8_concat("GIT_"@, code);
    assert(utf8("GIT_"@ + code).subrange(0, utf8("GIT_"@).len() as int) =~= utf8("GIT_"@));
    lemma_includes(code, "RECOVERY"@, detail);
    lemma_includes(code, "_IO_"@, detail);
    lemma_includes(Seq::empty(), "rename"@, detail);
    lemma_includes(Seq::empty(), "sync"@, detail);
    assert(Seq::<char>::empty() + "rename"@ + detail =~= "rename"@ + detail);
    assert(Seq::<char>::empty() + "sync"@ + detail =~= "sync"@ + detail);
}

proof fn lemma_includes(front: Seq<char>, needle: Seq<char>, back: Seq<char>)
    ensures
        includes(utf8(front + needle + back), utf8(needle)),
{
    lemma_utf8_concat(front + needle, back);
    lemma_utf8_concat(front, needle);
    let all = utf8(front + needle + back);
    let at = utf8(front).len() as int;
    assert(all == utf8(front) + utf8(needle) + utf8(back));
    assert(all.subrange(at, at + utf8(needle).len()) =~= utf8(needle));
    assert(crate::session::includes_at(all, utf8(needle), at));
}

} // verus!
