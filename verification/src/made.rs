//! What has been done for a session when its making succeeds.

use crate::authority::{AuthorityView, Failure, Identity};
use crate::bytes::utf8;
use crate::git::{AuditConfig, DEFAULT_LIMIT};
use crate::materializing::{MakingAsk, MakingEvent, MakingView};
use crate::session::{CapabilityView, SessionView};
use crate::session_git::init_private_common_args;
use crate::storage::SealedView;
use vstd::prelude::*;

verus! {

/// A place in the directory of a session.
pub open spec fn inside(root_path: Seq<u8>, name: Seq<char>) -> Seq<u8> {
    if root_path.len() == 0 || root_path.last() == 47 {
        root_path + utf8(name)
    } else {
        root_path + seq![47u8] + utf8(name)
    }
}

/// What a making is about: the authority, the branch, the commit, and the directory.
#[verifier::ext_equal]
pub struct Site {
    pub authority: AuthorityView,
    pub target: Seq<u8>,
    pub base: Seq<char>,
    pub root_path: Seq<u8>,
}

impl MakingView {
    pub open spec fn site(self) -> Site {
        Site {
            authority: self.authority,
            target: self.target,
            base: self.base,
            root_path: self.root_path,
        }
    }
}

/// Makes the private repository, bare and in the formats of the authority, from an empty template.
#[verifier::opaque]
pub open spec fn init_words(site: Site) -> Seq<Seq<u8>> {
    let common = inside(site.root_path, "common.git"@);
    let template = utf8("--template="@) + inside(site.root_path, ".git-vws-empty-template"@);
    let format = utf8("--object-format="@) + utf8(site.authority.object_format);
    if site.authority.ref_format == "files"@ {
        seq![utf8("init"@), utf8("--bare"@), utf8("--quiet"@), format, template, common]
    } else {
        seq![
            utf8("init"@),
            utf8("--bare"@),
            utf8("--quiet"@),
            format,
            utf8("--ref-format="@) + utf8(site.authority.ref_format),
            template,
            common,
        ]
    }
}

/// Names the private repository.
pub open spec fn git_dir_word(site: Site) -> Seq<u8> {
    utf8("--git-dir="@) + inside(site.root_path, "common.git"@)
}

#[verifier::opaque]
pub open spec fn set_words(site: Site, key: Seq<char>) -> Seq<Seq<u8>> {
    seq![git_dir_word(site), utf8("config"@), utf8(key), utf8("true"@)]
}

#[verifier::opaque]
pub open spec fn get_words(site: Site, key: Seq<char>) -> Seq<Seq<u8>> {
    seq![git_dir_word(site), utf8("config"@), utf8("--get"@), utf8(key)]
}

/// Links the worktree of the session to it, on a new branch of the target's name at the base.
#[verifier::opaque]
pub open spec fn add_words(site: Site) -> Seq<Seq<u8>> {
    seq![
        git_dir_word(site),
        utf8("worktree"@),
        utf8("add"@),
        utf8("--quiet"@),
        utf8("--no-checkout"@),
        utf8("-b"@),
        site.target,
        inside(site.root_path, "worktree"@),
        utf8(site.base),
    ]
}

#[verifier::opaque]
pub open spec fn read_tree_words() -> Seq<Seq<u8>> {
    seq![utf8("read-tree"@), utf8("--reset"@), utf8("HEAD"@)]
}

#[verifier::opaque]
pub open spec fn status_words() -> Seq<Seq<u8>> {
    seq![utf8("status"@), utf8("--porcelain=v1"@), utf8("--untracked-files=all"@)]
}

/// Where the authority keeps its objects, on a line.
#[verifier::opaque]
pub open spec fn objects_line(site: Site) -> Seq<u8> {
    inside(site.authority.canonical, "objects"@).push(10)
}

proof fn lemma_names_are_relative()
    ensures
        utf8("common.git"@).len() > 0 && utf8("common.git"@)[0] != 47,
        utf8("worktree"@).len() > 0 && utf8("worktree"@)[0] != 47,
        utf8(".git-vws-empty-template"@).len() > 0 && utf8(".git-vws-empty-template"@)[0] != 47,
        utf8("objects"@).len() > 0 && utf8("objects"@)[0] != 47,
{
    reveal_strlit("common.git");
    reveal_strlit("worktree");
    reveal_strlit(".git-vws-empty-template");
    reveal_strlit("objects");
    crate::bytes::lemma_utf8_ascii("common.git"@);
    crate::bytes::lemma_utf8_ascii("worktree"@);
    crate::bytes::lemma_utf8_ascii(".git-vws-empty-template"@);
    crate::bytes::lemma_utf8_ascii("objects"@);
}

proof fn lemma_paths(making: MakingView)
    ensures
        making.common_path() == inside(making.root_path, "common.git"@),
        making.worktree_path() == inside(making.root_path, "worktree"@),
        making.template_path() == inside(making.root_path, ".git-vws-empty-template"@),
        making.objects_path() == inside(making.authority.canonical, "objects"@),
{
    lemma_names_are_relative();
    assert(making.common_path() =~= inside(making.root_path, "common.git"@));
    assert(making.worktree_path() =~= inside(making.root_path, "worktree"@));
    assert(making.template_path() =~= inside(making.root_path, ".git-vws-empty-template"@));
    assert(making.objects_path() =~= inside(making.authority.canonical, "objects"@));
}

proof fn lemma_init_words(making: MakingView)
    ensures
        init_private_common_args(
            making.authority,
            making.common_path(),
            making.template_path(),
        ).args == init_words(making.site()),
{
    lemma_paths(making);
    reveal(init_words);
    assert(init_private_common_args(
        making.authority,
        making.common_path(),
        making.template_path(),
    ).args =~= init_words(making.site()));
}

proof fn lemma_config_words(making: MakingView, key: Seq<char>)
    ensures
        making.set_args(key).args == set_words(making.site(), key),
        making.get_args(key).args == get_words(making.site(), key),
{
    lemma_paths(making);
    reveal(set_words);
    reveal(get_words);
    assert(making.set_args(key).args =~= set_words(making.site(), key));
    assert(making.get_args(key).args =~= get_words(making.site(), key));
}

proof fn lemma_add_words(making: MakingView)
    ensures
        making.worktree_args().args == add_words(making.site()),
{
    lemma_paths(making);
    reveal(add_words);
    assert(making.worktree_args().args =~= add_words(making.site()));
}

proof fn lemma_worktree_words(making: MakingView)
    ensures
        making.read_tree_args().args == read_tree_words(),
        making.status_args().args == status_words(),
{
    reveal(read_tree_words);
    reveal(status_words);
    assert(making.read_tree_args().args =~= read_tree_words());
    assert(making.status_args().args =~= status_words());
}

/// The commands of a making, written out; those that look at the worktree run in it.
pub proof fn law_making_commands_are_these(making: MakingView)
    ensures
        making.asks() matches MakingAsk::Run(command) ==> {
            &&& command.audit == AuditConfig::Isolated
            &&& command.limit == DEFAULT_LIMIT
            &&& making.stage is InitCommon ==> command.args == init_words(making.site())
            &&& making.stage is SetFilemode ==> command.args == set_words(making.site(), "core.filemode"@)
            &&& making.stage is GetFilemode ==> command.args == get_words(making.site(), "core.filemode"@)
            &&& making.stage is SetSymlinks ==> command.args == set_words(making.site(), "core.symlinks"@)
            &&& making.stage is GetSymlinks ==> command.args == get_words(making.site(), "core.symlinks"@)
            &&& making.stage is AddWorktree ==> command.args == add_words(making.site())
            &&& making.stage is ReadTree ==> command.args == read_tree_words() && command.directory
                == Some(inside(making.root_path, "worktree"@))
            &&& making.stage is Status ==> command.args == status_words() && command.directory
                == Some(inside(making.root_path, "worktree"@))
            &&& !(making.stage is ReadTree || making.stage is Status) ==> command.directory is None
        },
        making.asks() matches MakingAsk::WriteAlternate(line) ==> line == objects_line(making.site()),
        making.asks() matches MakingAsk::Persist(record) ==> record == making.next,
        making.stage is InitCommon || making.stage is SetFilemode || making.stage is GetFilemode
            || making.stage is SetSymlinks || making.stage is GetSymlinks || making.stage
            is AddWorktree || making.stage is ReadTree || making.stage is Status <==> making.asks()
            is Run,
        making.stage is WriteAlternate <==> making.asks() is WriteAlternate,
        making.stage is Clone <==> making.asks() is Clone,
        making.stage is PersistMaterializing || making.stage is PersistReady <==> making.asks()
            is Persist,
{
    lemma_init_words(making);
    lemma_config_words(making, "core.filemode"@);
    lemma_config_words(making, "core.symlinks"@);
    lemma_add_words(making);
    lemma_worktree_words(making);
    lemma_paths(making);
    reveal(objects_line);
}

/// A making, and what of what it asked for was done.
pub struct MakingRun {
    pub making: MakingView,
    /// The commands that ended well and without complaint, and those that said nothing at all.
    pub ran: Set<Seq<Seq<u8>>>,
    pub silent: Set<Seq<Seq<u8>>>,
    /// The lines that were written for the repository to borrow objects.
    pub lent: Set<Seq<u8>>,
    pub cloned: Option<(SealedView, Identity)>,
    pub written: Seq<SessionView>,
}

impl MakingRun {
    pub open spec fn start(making: MakingView) -> MakingRun {
        MakingRun {
            making,
            ran: Set::empty(),
            silent: Set::empty(),
            lent: Set::empty(),
            cloned: None,
            written: Seq::empty(),
        }
    }

    pub open spec fn after(self, event: MakingEvent, uid: u32) -> MakingRun {
        let next = MakingRun { making: self.making.after(event, uid), ..self };
        match (self.making.asks(), event) {
            (MakingAsk::Run(command), MakingEvent::Ran(Ok(output))) => {
                let well = output.status.code == Some(0i32) && output.stderr@.len() == 0;
                MakingRun {
                    ran: if well {
                        self.ran.insert(command.args)
                    } else {
                        self.ran
                    },
                    silent: if well && output.stdout@.len() == 0 {
                        self.silent.insert(command.args)
                    } else {
                        self.silent
                    },
                    ..next
                }
            },
            (MakingAsk::WriteAlternate(line), MakingEvent::Alternate(written)) => MakingRun {
                lent: if written.objects is Ok && written.info is Ok && written.created is Ok
                    && written.written is Ok && written.synced is Ok {
                    self.lent.insert(line)
                } else {
                    self.lent
                },
                ..next
            },
            (MakingAsk::Clone, MakingEvent::Cloned(Ok(receipt), _)) => MakingRun {
                cloned: Some(receipt@),
                ..next
            },
            (MakingAsk::Persist(record), MakingEvent::Persisted(Ok(_))) => MakingRun {
                written: self.written.push(record),
                ..next
            },
            _ => next,
        }
    }

    pub open spec fn after_all(self, events: Seq<MakingEvent>, uid: u32) -> MakingRun
        decreases events.len(),
    {
        if events.len() == 0 {
            self
        } else {
            self.after_all(events.drop_last(), uid).after(events.last(), uid)
        }
    }

    /// How far the making has come, where it is not being taken back.
    spec fn reached(self) -> int {
        if self.making.outcome matches Some(Ok(_)) {
            30
        } else if self.making.stage.rank() < 30 {
            self.making.stage.rank()
        } else {
            -1
        }
    }

    spec fn accounts(self, start: MakingView) -> bool {
        let making = self.making;
        let reached = self.reached();
        &&& making.site() == start.site()
        &&& making.template == start.template
        &&& making.stage.rank() < 30 ==> making.outcome is None
        &&& reached > 5 ==> self.ran.contains(init_words(start.site()))
        &&& reached > 10 ==> self.lent.contains(objects_line(start.site()))
        &&& reached > 11 ==> self.ran.contains(set_words(start.site(), "core.filemode"@))
        &&& reached > 12 ==> self.ran.contains(get_words(start.site(), "core.filemode"@))
        &&& reached > 13 ==> self.ran.contains(set_words(start.site(), "core.symlinks"@))
        &&& reached > 14 ==> self.ran.contains(get_words(start.site(), "core.symlinks"@))
        &&& reached > 16 ==> self.ran.contains(add_words(start.site()))
        &&& reached > 18 ==> (self.cloned matches Some(cloned) && cloned.0 == start.template
            && making.receipt == Some(cloned))
        &&& reached > 19 ==> self.ran.contains(read_tree_words())
        &&& reached > 20 ==> self.silent.contains(status_words())
        &&& reached == 0 ==> self.written.len() == 0
        &&& 0 < reached < 30 ==> self.written.len() == 1
        &&& 0 < reached ==> self.written[0].payload is Materializing
        &&& reached == 0 ==> making.next.payload is Materializing
        &&& reached == 29 ==> making.next.payload is Ready && Some(
            making.next.payload->Ready_worktree,
        ) == self.cloned
        &&& reached == 30 ==> self.written.len() == 2 && self.written[1].payload is Ready && Some(
            self.written[1].payload->Ready_worktree,
        ) == self.cloned
    }
}

/// A making that is given up makes no more claims.
proof fn lemma_abort(making: MakingView, error: Failure)
    requires
        making.stage.rank() < 30,
    ensures
        making.abort(error).site() == making.site(),
        making.abort(error).template == making.template,
        making.abort(error).stage.rank() >= 30,
        making.abort(error).outcome matches Some(Err(_)),
{
    reveal(MakingView::abort);
}

proof fn lemma_aborts(making: MakingView)
    requires
        making.stage.rank() < 30,
    ensures
        forall|error: Failure|
            {
                let aborted = #[trigger] making.abort(error);
                &&& aborted.site() == making.site()
                &&& aborted.template == making.template
                &&& aborted.stage.rank() >= 30
                &&& aborted.outcome matches Some(Err(_))
            },
{
    assert forall|error: Failure|
        {
            let aborted = #[trigger] making.abort(error);
            &&& aborted.site() == making.site()
            &&& aborted.template == making.template
            &&& aborted.stage.rank() >= 30
            &&& aborted.outcome matches Some(Err(_))
        } by {
        lemma_abort(making, error);
    }
}

#[verifier::spinoff_prover]
proof fn lemma_building_accounts(run: MakingRun, start: MakingView, event: MakingEvent, uid: u32)
    requires
        run.accounts(start),
        run.making.stage.rank() < 15,
    ensures
        run.after(event, uid).accounts(start),
{
    law_making_commands_are_these(run.making);
    reveal(MakingView::after_building);
    lemma_aborts(run.making);
}

#[verifier::spinoff_prover]
proof fn lemma_cloning_accounts(run: MakingRun, start: MakingView, event: MakingEvent, uid: u32)
    requires
        run.accounts(start),
        15 <= run.making.stage.rank() < 25,
    ensures
        run.after(event, uid).accounts(start),
{
    law_making_commands_are_these(run.making);
    reveal(MakingView::after_cloning);
    lemma_aborts(run.making);
}

#[verifier::spinoff_prover]
proof fn lemma_settling_accounts(run: MakingRun, start: MakingView, event: MakingEvent, uid: u32)
    requires
        run.accounts(start),
        25 <= run.making.stage.rank() < 30,
    ensures
        run.after(event, uid).accounts(start),
{
    law_making_commands_are_these(run.making);
    reveal(MakingView::after_settling);
    lemma_aborts(run.making);
}

#[verifier::spinoff_prover]
proof fn lemma_undoing_accounts(run: MakingRun, start: MakingView, event: MakingEvent, uid: u32)
    requires
        run.accounts(start),
        30 <= run.making.stage.rank(),
    ensures
        run.after(event, uid).accounts(start),
{
    law_making_commands_are_these(run.making);
    reveal(MakingView::after_undoing);
}

proof fn lemma_run_accounts(start: MakingView, events: Seq<MakingEvent>, uid: u32)
    requires
        MakingRun::start(start).accounts(start),
    ensures
        MakingRun::start(start).after_all(events, uid).accounts(start),
    decreases events.len(),
{
    if events.len() > 0 {
        lemma_run_accounts(start, events.drop_last(), uid);
        let run = MakingRun::start(start).after_all(events.drop_last(), uid);
        let event = events.last();
        let rank = run.making.stage.rank();
        if rank < 15 {
            lemma_building_accounts(run, start, event, uid);
        } else if rank < 25 {
            lemma_cloning_accounts(run, start, event, uid);
        } else if rank < 30 {
            lemma_settling_accounts(run, start, event, uid);
        } else {
            lemma_undoing_accounts(run, start, event, uid);
        }
    }
}

/// A making that succeeds has done all of this: the private repository was made and configured and
/// borrows the authority's objects, the worktree was linked on a new branch of the target's name at the
/// base, the template was cloned into it, its index was built, and Git then found nothing changed. Two
/// records were written, first that the session is being made, and last that it is ready, with the
/// clone's receipt.
pub proof fn law_made_session_is_whole(
    authority: AuthorityView,
    capability: CapabilityView,
    target: Seq<u8>,
    base: Seq<char>,
    template: SealedView,
    root_path: Seq<u8>,
    root_identity: Identity,
    events: Seq<MakingEvent>,
    uid: u32,
)
    ensures
        ({
            let start = MakingView::start(
                authority,
                capability,
                target,
                base,
                template,
                root_path,
                root_identity,
            );
            let done = MakingRun::start(start).after_all(events, uid);
            done.making.outcome matches Some(Ok(_)) ==> {
                &&& done.ran.contains(init_words(start.site()))
                &&& done.ran.contains(set_words(start.site(), "core.filemode"@))
                &&& done.ran.contains(get_words(start.site(), "core.filemode"@))
                &&& done.ran.contains(set_words(start.site(), "core.symlinks"@))
                &&& done.ran.contains(get_words(start.site(), "core.symlinks"@))
                &&& done.ran.contains(add_words(start.site()))
                &&& done.ran.contains(read_tree_words())
                &&& done.silent.contains(status_words())
                &&& done.lent.contains(objects_line(start.site()))
                &&& done.cloned matches Some(cloned) && cloned.0 == template
                &&& done.written.len() == 2
                &&& done.written[0].payload is Materializing
                &&& done.written[1].payload is Ready
                &&& Some(done.written[1].payload->Ready_worktree) == done.cloned
            }
        }),
        ({
            let start = MakingView::start(
                authority,
                capability,
                target,
                base,
                template,
                root_path,
                root_identity,
            );
            &&& start.authority == authority
            &&& start.target == target
            &&& start.base == base
            &&& start.template == template
            &&& start.root_path == root_path
        }),
{
    let start = MakingView::start(
        authority,
        capability,
        target,
        base,
        template,
        root_path,
        root_identity,
    );
    lemma_run_accounts(start, events, uid);
}

} // verus!
