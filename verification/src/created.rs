//! What a successful creation has made: the record of the session that was asked for, in the directory
//! that is managed for it.

use crate::authority::{AuthorityView, Failure};
use crate::bytes::utf8;
use crate::creation::{line_text, CreateAsk, CreateEvent, CreateStage, CreateView};
use crate::git::{AuditConfig, Output, DEFAULT_LIMIT};
use crate::materializing::{law_making_goes_forward, MakingEvent, MakingView};
use crate::notation::hex_text;
use crate::paths::{joined, same_path_spec};
use crate::session::{root_name_text, Binding, SessionView};
use crate::session_git::{
    oid_output_failure, resolve_base_failure, resolve_target_failure, single_line, CommandView,
};
use crate::session_roots::{ready_failure, ReadyBinding};
use crate::storage::SealedTreeReceipt;
use vstd::prelude::*;

verus! {

/// A session is asked for.
pub struct RequestView {
    pub authority: AuthorityView,
    pub name: Seq<u8>,
    pub from: Option<Seq<u8>>,
    pub target: Option<Seq<u8>>,
    pub path: Option<Seq<u8>>,
}

/// What the answers to a creation tell: the commit that the target points at, what the revision that
/// was asked for and the head of the authority resolve to, and where sessions are kept.
pub struct Setting {
    pub tip: Option<Seq<char>>,
    pub from: Seq<char>,
    pub head: Seq<char>,
    pub sessions: Seq<u8>,
}

impl RequestView {
    pub open spec fn start(self) -> CreateView {
        CreateView::start(self.authority, self.name, self.from, self.target, self.path)
    }

    pub open spec fn target_branch(self) -> Seq<u8> {
        match self.target {
            Some(target) => target,
            None => self.name,
        }
    }

    /// The commit that the session begins from.
    pub open spec fn base(self, setting: Setting) -> Seq<char> {
        match (self.from, setting.tip) {
            (Some(_), _) => setting.from,
            (None, Some(tip)) => tip,
            (None, None) => setting.head,
        }
    }

    pub open spec fn sid(self) -> Seq<char> {
        Binding::of(self.authority.canonical, self.authority.identity, self.name).sid()
    }

    /// The directory that is managed for the session.
    pub open spec fn managed_root(self, setting: Setting) -> Seq<u8> {
        joined(setting.sessions, utf8(root_name_text(self.sid())))
    }

    /// The record is of the session that was asked for.
    pub open spec fn is_met_by(self, setting: Setting, record: SessionView) -> bool {
        &&& record.sid == self.sid()
        &&& record.authority_path == hex_text(self.authority.canonical)
        &&& record.authority_identity == self.authority.identity
        &&& record.name == hex_text(self.name)
        &&& record.target == hex_text(self.target_branch())
        &&& record.base == self.base(setting)
        &&& record.expected_old == setting.tip
    }
}

impl CreateView {
    /// The answer tells the setting, a record that was written is the one that was asked for, and a
    /// session that was loaded is the recorded one.
    pub open spec fn is_told(self, setting: Setting, event: CreateEvent) -> bool {
        match (self.stage, event) {
            (CreateStage::Target, CreateEvent::Ran(answer)) => resolve_target_failure(
                answer,
                self.authority.object_format,
            ) is None ==> setting.tip == if answer->Ok_0.status.succeeded() {
                Some(line_text(answer))
            } else {
                None
            },
            (CreateStage::From, CreateEvent::Ran(answer)) => resolve_base_failure(
                answer,
                self.authority.object_format,
                "base revision does not resolve to a commit"@,
            ) is None ==> setting.from == line_text(answer),
            (CreateStage::Head, CreateEvent::Ran(answer)) => resolve_base_failure(
                answer,
                self.authority.object_format,
                "base revision does not resolve to a commit"@,
            ) is None ==> setting.head == line_text(answer),
            (CreateStage::Sessions, CreateEvent::Sessions(seen)) => seen.path matches Ok(path)
                ==> path@ == setting.sessions,
            (CreateStage::Load, CreateEvent::Loaded(Ok(ready))) => {
                let record = self.capability->0.record;
                &&& ready_failure(record, self.authority) is None
                &&& ready@ == record.ready_binding(setting.sessions)
            },
            (CreateStage::Record, CreateEvent::Recorded(Ok(written))) => {
                Some(written@.record) == self.prepared
            },
            _ => true,
        }
    }

    pub open spec fn after_all(self, events: Seq<CreateEvent>) -> CreateView
        decreases events.len(),
    {
        if events.len() == 0 {
            self
        } else {
            self.after_all(events.drop_last()).after(events.last())
        }
    }

    pub open spec fn is_told_all(self, setting: Setting, events: Seq<CreateEvent>) -> bool
        decreases events.len(),
    {
        events.len() == 0 || (self.is_told_all(setting, events.drop_last()) && self.after_all(
            events.drop_last(),
        ).is_told(setting, events.last()))
    }

    /// The making that the creation hands over to.
    pub open spec fn hands_over(self) -> MakingView {
        MakingView::start(
            self.authority,
            self.capability->0,
            self.target,
            self.base,
            self.template->0,
            self.root_path,
            self.root_identity->0,
        )
    }

    /// What the creation knows at its stage is what was asked for.
    spec fn serves(self, request: RequestView, setting: Setting) -> bool {
        let rank = self.stage.rank();
        &&& self.is_sound()
        &&& self.authority == request.authority
        &&& self.name == request.name
        &&& self.from == request.from
        &&& self.target == request.target_branch()
        &&& self.path == request.path
        &&& 2 <= rank < 12 ==> self.target_old == setting.tip
        &&& self.stage is From ==> request.from is Some
        &&& self.stage is Head ==> request.from is None && setting.tip is None
        &&& 4 <= rank < 12 ==> self.base == request.base(setting)
        &&& 7 <= rank < 12 ==> {
            &&& self.root_path == request.managed_root(setting)
            &&& request.path matches Some(path) ==> same_path_spec(path, self.root_path)
            &&& self.prepared matches Some(prepared) && request.is_met_by(setting, prepared)
                && prepared.journal is Idle
        }
        &&& self.stage is Load ==> {
            &&& self.capability->0.record.payload is Ready
            &&& self.capability->0.record.journal is Idle
            &&& self.capability->0.record.is_same_session(self.prepared->0)
        }
        &&& 10 <= rank < 12 ==> self.capability->0.record == self.prepared->0
    }
}

proof fn lemma_after_serves(
    create: CreateView,
    request: RequestView,
    setting: Setting,
    event: CreateEvent,
)
    requires
        create.serves(request, setting),
        create.is_told(setting, event),
    ensures
        create.after(event).serves(request, setting),
{
}

proof fn lemma_run_serves(request: RequestView, setting: Setting, events: Seq<CreateEvent>)
    requires
        request.start().is_told_all(setting, events),
    ensures
        request.start().after_all(events).serves(request, setting),
    decreases events.len(),
{
    if events.len() > 0 {
        lemma_run_serves(request, setting, events.drop_last());
        lemma_after_serves(
            request.start().after_all(events.drop_last()),
            request,
            setting,
            events.last(),
        );
    }
}

impl MakingView {
    /// A record that was written is the one that was asked for.
    pub open spec fn is_recorded(self, event: MakingEvent) -> bool {
        event matches MakingEvent::Persisted(Ok(written)) ==> written@.record == self.next
    }

    pub open spec fn after_all(self, events: Seq<MakingEvent>, uid: u32) -> MakingView
        decreases events.len(),
    {
        if events.len() == 0 {
            self
        } else {
            self.after_all(events.drop_last(), uid).after(events.last(), uid)
        }
    }

    pub open spec fn is_recorded_all(self, events: Seq<MakingEvent>, uid: u32) -> bool
        decreases events.len(),
    {
        events.len() == 0 || (self.is_recorded_all(events.drop_last(), uid) && self.after_all(
            events.drop_last(),
            uid,
        ).is_recorded(events.last()))
    }

    /// It makes the session of this record, in this directory.
    spec fn makes(self, record: SessionView, root_path: Seq<u8>) -> bool {
        &&& self.root_path == root_path
        &&& differs_in_payload(self.next, record)
        &&& self.outcome matches Some(Ok(path)) ==> {
            &&& path == root_path
            &&& self.capability.record.payload is Ready
            &&& differs_in_payload(self.capability.record, record)
        }
    }
}

/// The two records differ in how far their session has come, and in nothing else.
pub open spec fn differs_in_payload(left: SessionView, right: SessionView) -> bool {
    left == SessionView { payload: left.payload, ..right }
}

proof fn lemma_abort_makes(making: MakingView, error: Failure, record: SessionView, path: Seq<u8>)
    requires
        making.makes(record, path),
    ensures
        making.abort(error).makes(record, path),
{
    reveal(MakingView::abort);
}

#[verifier::spinoff_prover]
proof fn lemma_after_makes(
    making: MakingView,
    event: MakingEvent,
    uid: u32,
    record: SessionView,
    path: Seq<u8>,
)
    requires
        making.is_sound(uid),
        making.is_recorded(event),
        making.makes(record, path),
        making.outcome matches Some(Ok(_)) ==> making.stage is Ended,
    ensures
        making.after(event, uid).makes(record, path),
        making.after(event, uid).outcome matches Some(Ok(_)) ==> making.after(event, uid).stage
            is Ended,
{
    assert forall|error: Failure| (#[trigger] making.abort(error)).makes(record, path) by {
        lemma_abort_makes(making, error, record, path);
    }
    assert forall|error: Failure|
        (#[trigger] making.abort(error)).outcome matches Some(Ok(_)) implies making.abort(
        error,
    ).stage is Ended by {
        reveal(MakingView::abort);
    }
    let rank = making.stage.rank();
    if rank < 15 {
        reveal(MakingView::after_building);
    } else if rank < 25 {
        reveal(MakingView::after_cloning);
    } else if rank < 30 {
        reveal(MakingView::after_settling);
    } else {
        reveal(MakingView::after_undoing);
    }
}

proof fn lemma_run_makes(start: MakingView, events: Seq<MakingEvent>, uid: u32, record: SessionView)
    requires
        start.is_sound(uid),
        start.makes(record, start.root_path),
        start.outcome is None,
        start.is_recorded_all(events, uid),
    ensures
        start.after_all(events, uid).is_sound(uid),
        start.after_all(events, uid).makes(record, start.root_path),
        start.after_all(events, uid).outcome matches Some(Ok(_)) ==> start.after_all(
            events,
            uid,
        ).stage is Ended,
    decreases events.len(),
{
    if events.len() > 0 {
        let before = start.after_all(events.drop_last(), uid);
        lemma_run_makes(start, events.drop_last(), uid, record);
        law_making_goes_forward(before, events.last(), uid);
        lemma_after_makes(before, events.last(), uid, record, start.root_path);
    }
}

/// A creation that hands over to a making, and a making that succeeds, have made the session that was
/// asked for: the READY record has the name, the target, the commit to begin from and the expected tip
/// of the request, and the path that is given out is that of the managed directory, which is the one
/// that was asked for where one was.
pub proof fn law_created_session_is_the_requested_one(
    request: RequestView,
    setting: Setting,
    events: Seq<CreateEvent>,
    making_events: Seq<MakingEvent>,
    uid: u32,
    path: Vec<u8>,
)
    requires
        request.start().is_told_all(setting, events),
        request.start().after_all(events).stage is Make,
        request.start().after_all(events).hands_over().is_recorded_all(making_events, uid),
        request.start().after_all(events).hands_over().after_all(making_events, uid).outcome
            == Some(Ok::<Seq<u8>, Failure>(path@)),
    ensures
        ({
            let create = request.start().after_all(events);
            let record = create.hands_over().after_all(making_events, uid).capability.record;
            &&& record.payload is Ready
            &&& record.journal is Idle
            &&& request.is_met_by(setting, record)
            &&& path@ == request.managed_root(setting)
            &&& request.path matches Some(asked) ==> same_path_spec(asked, path@)
            &&& create.after(CreateEvent::Finished(Ok(path))).outcome == Some(
                Ok::<Seq<u8>, Failure>(request.managed_root(setting)),
            )
        }),
{
    lemma_run_serves(request, setting, events);
    let create = request.start().after_all(events);
    let start = create.hands_over();
    lemma_run_makes(start, making_events, uid, create.capability->0.record);
}

/// A creation that finds its session made already gives out that one: its READY record is of the
/// request too, and the path is that of the managed directory.
pub proof fn law_existing_session_is_the_requested_one(
    request: RequestView,
    setting: Setting,
    events: Seq<CreateEvent>,
    ready: ReadyBinding,
)
    requires
        request.start().is_told_all(setting, events),
        request.start().after_all(events).stage is Load,
        request.start().after_all(events).is_told(setting, CreateEvent::Loaded(Ok(ready))),
    ensures
        ({
            let create = request.start().after_all(events);
            let record = create.capability->0.record;
            &&& record.payload is Ready
            &&& record.journal is Idle
            &&& request.is_met_by(setting, record)
            &&& request.path matches Some(asked) ==> same_path_spec(
                asked,
                request.managed_root(setting),
            )
            &&& create.after(CreateEvent::Loaded(Ok(ready))).outcome == Some(
                Ok::<Seq<u8>, Failure>(request.managed_root(setting)),
            )
        }),
{
    lemma_run_serves(request, setting, events);
}

/// The repository that a session is made from, as far as its creation asks: what references point at,
/// which commits revisions name, and which trees commits have.
pub struct Repository {
    pub path: Seq<u8>,
    pub branches: Map<Seq<u8>, Seq<char>>,
    pub commits: Map<Seq<u8>, Seq<char>>,
    pub trees: Map<Seq<char>, Seq<char>>,
}

impl Repository {
    /// Whether Git, asked like this in the repository, answers what is true of it: a name on a line of
    /// its own where it succeeds, and nothing where a reference is asked for quietly and not there.
    pub open spec fn answers(self, command: CommandView, output: Output) -> bool {
        let succeeded = output.status.code == Some(0i32);
        command.directory == Some(self.path) ==> {
            &&& forall|name: Seq<u8>|
                command.args == #[trigger] quiet_question(name) ==> succeeded
                    == self.branches.contains_key(name) && (succeeded ==> output.stdout@ == line_of(
                    self.branches[name],
                ))
            &&& forall|revision: Seq<u8>|
                command.args == #[trigger] commit_question(revision) && succeeded
                    ==> self.commits.contains_key(revision) && output.stdout@ == line_of(
                    self.commits[revision],
                )
            &&& forall|commit: Seq<char>|
                command.args == #[trigger] tree_question(commit) && succeeded
                    ==> self.trees.contains_key(commit) && output.stdout@ == line_of(
                    self.trees[commit],
                )
        }
    }

    pub open spec fn tip(self, target: Seq<u8>) -> Option<Seq<char>> {
        let reference = utf8("refs/heads/"@) + target;
        if self.branches.contains_key(reference) {
            Some(self.branches[reference])
        } else {
            None
        }
    }

    /// The commit that a session begins from: what was asked for, or else the tip of its target, or
    /// else the head.
    pub open spec fn base(self, request: RequestView) -> Seq<char> {
        match (request.from, self.tip(request.target_branch())) {
            (Some(revision), _) => self.commits[revision],
            (None, Some(tip)) => tip,
            (None, None) => self.commits[utf8("HEAD"@)],
        }
    }
}

pub open spec fn line_of(text: Seq<char>) -> Seq<u8> {
    utf8(text).push(10)
}

pub open spec fn quiet_question(reference: Seq<u8>) -> Seq<Seq<u8>> {
    seq![utf8("rev-parse"@), utf8("--verify"@), utf8("--quiet"@), reference]
}

pub open spec fn commit_question(revision: Seq<u8>) -> Seq<Seq<u8>> {
    seq![utf8("rev-parse"@), utf8("--verify"@), revision + utf8("^{commit}"@)]
}

pub open spec fn tree_question(commit: Seq<char>) -> Seq<Seq<u8>> {
    seq![utf8("rev-parse"@), utf8("--verify"@), utf8(commit) + utf8("^{tree}"@)]
}

/// The commands of a creation, written out, and where they run.
pub proof fn law_create_commands_are_these(create: CreateView)
    ensures
        create.asks() matches CreateAsk::Run(command) ==> {
            &&& command.directory == Some(create.authority.canonical)
            &&& command.audit == AuditConfig::Isolated
            &&& command.limit == DEFAULT_LIMIT
            &&& create.stage is Branch ==> command.args == seq![
                utf8("check-ref-format"@),
                utf8("--branch"@),
                create.target,
            ]
            &&& create.stage is Target ==> command.args == quiet_question(
                utf8("refs/heads/"@) + create.target,
            )
            &&& create.stage is From ==> (create.from matches Some(from) && command.args
                == commit_question(from))
            &&& create.stage is Head ==> command.args == commit_question(utf8("HEAD"@))
            &&& create.stage is Tree ==> command.args == tree_question(create.base)
            &&& create.stage is Branch || create.stage is Target || create.stage is From
                || create.stage is Head || create.stage is Tree
        },
        create.asks() matches CreateAsk::Acquire(tree) ==> create.stage is Acquire && tree
            == create.tree,
        create.asks() matches CreateAsk::CreateRecord(record) ==> create.stage is Record
            && create.prepared == Some(record),
{
    if let CreateAsk::Run(command) = create.asks() {
        match create.stage {
            CreateStage::Branch => {
                assert(command.args =~= seq![
                    utf8("check-ref-format"@),
                    utf8("--branch"@),
                    create.target,
                ]);
            },
            CreateStage::Target => {
                assert(command.args =~= quiet_question(utf8("refs/heads/"@) + create.target));
            },
            CreateStage::From => {
                assert(command.args =~= commit_question(create.from->0));
            },
            CreateStage::Head => {
                assert(command.args =~= commit_question(utf8("HEAD"@)));
            },
            _ => {
                assert(command.args =~= tree_question(create.base));
            },
        }
    }
}

/// A creation and what it has asked the driver for.
pub struct Creating {
    pub create: CreateView,
    /// The tree of which a template was asked for.
    pub acquired: Option<Seq<char>>,
}

impl Creating {
    pub open spec fn start(request: RequestView) -> Creating {
        Creating { create: request.start(), acquired: None }
    }

    pub open spec fn after(self, event: CreateEvent) -> Creating {
        Creating {
            create: self.create.after(event),
            acquired: match self.create.asks() {
                CreateAsk::Acquire(tree) => Some(tree),
                _ => self.acquired,
            },
        }
    }

    /// The answer is true of the repository; a record that was written is the one that was asked for.
    pub open spec fn is_answered(self, repository: Repository, event: CreateEvent) -> bool {
        match (self.create.asks(), event) {
            (CreateAsk::Run(command), CreateEvent::Ran(Ok(output))) => repository.answers(
                command,
                output,
            ),
            (CreateAsk::CreateRecord(record), CreateEvent::Recorded(Ok(written))) => written@.record
                == record,
            _ => true,
        }
    }

    pub open spec fn after_all(self, events: Seq<CreateEvent>) -> Creating
        decreases events.len(),
    {
        if events.len() == 0 {
            self
        } else {
            self.after_all(events.drop_last()).after(events.last())
        }
    }

    pub open spec fn is_answered_all(self, repository: Repository, events: Seq<CreateEvent>) -> bool
        decreases events.len(),
    {
        events.len() == 0 || (self.is_answered_all(repository, events.drop_last())
            && self.after_all(events.drop_last()).is_answered(repository, events.last()))
    }

    spec fn follows(self, request: RequestView, repository: Repository) -> bool {
        let create = self.create;
        let rank = create.stage.rank();
        let tip = repository.tip(request.target_branch());
        &&& create.is_sound()
        &&& create.authority == request.authority
        &&& create.name == request.name
        &&& create.from == request.from
        &&& create.target == request.target_branch()
        &&& create.path == request.path
        &&& 2 <= rank < 12 ==> create.target_old == tip
        &&& create.stage is From ==> request.from is Some
        &&& create.stage is Head ==> request.from is None && tip is None
        &&& 4 <= rank < 12 ==> create.base == repository.base(request)
        &&& 5 <= rank < 12 ==> create.tree == repository.trees[repository.base(request)]
        &&& 6 <= rank < 12 ==> self.acquired == Some(create.tree)
        &&& 7 <= rank < 12 ==> (create.prepared matches Some(prepared) && {
            &&& prepared.name == hex_text(request.name)
            &&& prepared.target == hex_text(request.target_branch())
            &&& prepared.base == repository.base(request)
            &&& prepared.expected_old == tip
            &&& prepared.authority_path == hex_text(request.authority.canonical)
            &&& prepared.authority_identity == request.authority.identity
            &&& prepared.template_key == create.template_key
            &&& Some(prepared.template) == create.template
            &&& prepared.journal is Idle
        })
        &&& create.stage is Load ==> create.capability->0.record.is_same_session(
            create.prepared->0,
        ) && create.capability->0.record.payload is Ready
        &&& 10 <= rank < 12 ==> create.capability->0.record == create.prepared->0
    }
}

proof fn lemma_line_is_read(outcome: Result<Output, crate::git::Error>, text: Seq<char>, format: Seq<char>)
    requires
        outcome matches Ok(output) && output.stdout@ == line_of(text),
        oid_output_failure(outcome->Ok_0.stdout@, format) is None,
    ensures
        line_text(outcome) == text,
{
    let stdout = outcome->Ok_0.stdout@;
    let body = single_line(stdout)->0;
    assert(stdout.subrange(0, stdout.len() - 1) =~= utf8(text));
    vstd::utf8::encode_utf8_decode_utf8(text);
    vstd::utf8::encode_utf8_valid_utf8(text);
}

proof fn lemma_after_follows(
    creating: Creating,
    request: RequestView,
    repository: Repository,
    event: CreateEvent,
)
    requires
        repository.path == request.authority.canonical,
        creating.follows(request, repository),
        creating.is_answered(repository, event),
    ensures
        creating.after(event).follows(request, repository),
{
    let create = creating.create;
    law_create_commands_are_these(create);
    let format = create.authority.object_format;
    if let CreateEvent::Ran(Ok(output)) = event {
        let outcome: Result<Output, crate::git::Error> = Ok(output);
        if let CreateAsk::Run(command) = create.asks() {
            let reference = utf8("refs/heads/"@) + create.target;
            if create.stage is Target {
                assert(command.args == quiet_question(reference));
                if resolve_target_failure(outcome, format) is None && output.status.succeeded() {
                    lemma_line_is_read(outcome, repository.branches[reference], format);
                }
            } else if create.stage is From || create.stage is Head {
                let revision = if create.stage is From {
                    create.from->0
                } else {
                    utf8("HEAD"@)
                };
                assert(command.args == commit_question(revision));
                if resolve_base_failure(
                    outcome,
                    format,
                    "base revision does not resolve to a commit"@,
                ) is None {
                    lemma_line_is_read(outcome, repository.commits[revision], format);
                }
            } else if create.stage is Tree {
                assert(command.args == tree_question(create.base));
                if resolve_base_failure(
                    outcome,
                    format,
                    "base commit does not resolve to a tree"@,
                ) is None {
                    lemma_line_is_read(outcome, repository.trees[create.base], format);
                }
            }
        }
    }
}

proof fn lemma_run_follows(request: RequestView, repository: Repository, events: Seq<CreateEvent>)
    requires
        repository.path == request.authority.canonical,
        Creating::start(request).is_answered_all(repository, events),
    ensures
        Creating::start(request).after_all(events).follows(request, repository),
    decreases events.len(),
{
    if events.len() > 0 {
        lemma_run_follows(request, repository, events.drop_last());
        lemma_after_follows(
            Creating::start(request).after_all(events.drop_last()),
            request,
            repository,
            events.last(),
        );
    }
}

/// A creation whose questions to Git are answered truly makes the session of the commit that was asked
/// for, with that commit's files: the template that it leased is of the tree that the recorded base has.
/// The base is the revision that was asked for, or else the tip of the target, or else the head; and the
/// recorded expectation is the tip of the target, where it has one.
pub proof fn law_created_session_holds_the_tree_of_its_base(
    request: RequestView,
    repository: Repository,
    events: Seq<CreateEvent>,
)
    requires
        repository.path == request.authority.canonical,
        Creating::start(request).is_answered_all(repository, events),
    ensures
        ({
            let done = Creating::start(request).after_all(events);
            &&& done.create.asks() matches CreateAsk::Acquire(tree) ==> tree
                == repository.trees[repository.base(request)]
            &&& done.create.asks() matches CreateAsk::CreateRecord(record) ==> {
                &&& done.acquired == Some(repository.trees[record.base])
                &&& record.base == repository.base(request)
                &&& record.expected_old == repository.tip(request.target_branch())
                &&& record.name == hex_text(request.name)
                &&& record.target == hex_text(request.target_branch())
                &&& record.template_key == done.create.template_key
                &&& Some(record.template) == done.create.template
            }
            &&& done.create.stage is Make || done.create.stage is Load ==> {
                let record = done.create.capability->0.record;
                &&& done.acquired == Some(repository.trees[record.base])
                &&& record.base == repository.base(request)
                &&& record.expected_old == repository.tip(request.target_branch())
                &&& record.name == hex_text(request.name)
                &&& record.target == hex_text(request.target_branch())
            }
            &&& done.create.stage is Make ==> {
                let making = done.create.hands_over();
                &&& making.base == repository.base(request)
                &&& making.target == request.target_branch()
                &&& making.template == done.create.template->0
                &&& making.authority == request.authority
            }
        }),
{
    lemma_run_follows(request, repository, events);
    law_create_commands_are_these(Creating::start(request).after_all(events).create);
}

/// What was acquired for the tree is what the record of the session names.
pub proof fn law_acquired_template_is_recorded(create: CreateView, key: String, sealed: SealedTreeReceipt)
    requires
        create.asks() is Acquire,
    ensures
        ({
            let next = create.after(CreateEvent::Acquired(Ok((key, sealed))));
            &&& next.template_key == key@
            &&& next.template == Some(sealed@)
            &&& next.asks() is OpenSessions
        }),
{
}

} // verus!
