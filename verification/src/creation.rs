//! Creating a session: which branch, commit and template it begins with, and what becomes of a session
//! of that name that stands already.

use crate::authority::{failure, hex, or_fail, Authority, AuthorityView, Error, Failure, Identity};
use crate::bytes::{copy_bytes, optional_view, utf8, utf8_text};
use crate::git::{self, Output};
use crate::inspection::first_of;
use crate::materializing::{made, Making, MakingView};
use crate::notation::{hex_text, lemma_hex_text};
use crate::paths::{is_absolute_path, join, joined, same_path, same_path_spec};
use crate::session::{
    copy_optional, ensure_publish_idle, idle_failure, is_hash, is_oid, is_session_name,
    matches_existing, optional_bytes, root_name, root_name_text, session_id, Binding,
    CapabilityView, JournalView, PublishJournal, RecordCapability, SessionPayload,
    SessionPayloadView, SessionRecord, SessionView,
};
use crate::session_git::{
    branch_reference, is_plain_branch, resolve_base_failure, resolve_commit,
    resolve_commit_command, resolve_target, resolve_target_command, resolve_target_failure,
    resolve_tree, resolve_tree_command, single_line, validate_branch, validate_branch_command,
    Command, CommandView,
};
use crate::session_roots::{bind_failure, bind_path, ReadyBinding};
use crate::storage::{is_private_directory, SealedTreeReceipt, SealedView};
use vstd::prelude::*;

verus! {

/// What a session is asked for with. Where no target is named, it is the name; where no commit is
/// named to begin from, it is what the target points at, or the head of the authority.
#[derive(Debug)]
pub struct CreateRequest {
    pub name: Vec<u8>,
    pub from: Option<Vec<u8>>,
    pub target: Option<Vec<u8>>,
    pub path: Option<Vec<u8>>,
}

/// Where a creation stands.
#[derive(Clone, Copy, Debug, PartialEq, Eq, Structural)]
pub enum CreateStage {
    Branch,
    Target,
    From,
    Head,
    Tree,
    Acquire,
    Sessions,
    Find,
    Load,
    Record,
    Root,
    Make,
    Ended,
}

/// The creation of a session. What is not known yet is empty.
#[derive(Debug)]
pub struct Create {
    pub authority: Authority,
    pub name: Vec<u8>,
    pub from: Option<Vec<u8>>,
    pub target: Vec<u8>,
    pub path: Option<Vec<u8>>,
    pub target_old: Option<String>,
    pub base: String,
    pub tree: String,
    pub template_key: String,
    pub template: Option<SealedTreeReceipt>,
    pub root_path: Vec<u8>,
    pub prepared: Option<SessionRecord>,
    pub capability: Option<RecordCapability>,
    pub root_identity: Option<Identity>,
    pub stage: CreateStage,
    pub outcome: Option<Result<Vec<u8>, Error>>,
}

pub struct CreateView {
    pub authority: AuthorityView,
    pub name: Seq<u8>,
    pub from: Option<Seq<u8>>,
    pub target: Seq<u8>,
    pub path: Option<Seq<u8>>,
    pub target_old: Option<Seq<char>>,
    pub base: Seq<char>,
    pub tree: Seq<char>,
    pub template_key: Seq<char>,
    pub template: Option<SealedView>,
    pub root_path: Seq<u8>,
    pub prepared: Option<SessionView>,
    pub capability: Option<CapabilityView>,
    pub root_identity: Option<Identity>,
    pub stage: CreateStage,
    pub outcome: Option<Result<Seq<u8>, Failure>>,
}

pub open spec fn sealed_view(sealed: Option<SealedTreeReceipt>) -> Option<SealedView> {
    match sealed {
        Some(sealed) => Some(sealed@),
        None => None,
    }
}

pub open spec fn record_view(record: Option<SessionRecord>) -> Option<SessionView> {
    match record {
        Some(record) => Some(record@),
        None => None,
    }
}

pub open spec fn capability_view(capability: Option<RecordCapability>) -> Option<CapabilityView> {
    match capability {
        Some(capability) => Some(capability@),
        None => None,
    }
}

impl View for Create {
    type V = CreateView;

    open spec fn view(&self) -> CreateView {
        CreateView {
            authority: self.authority@,
            name: self.name@,
            from: optional_bytes(self.from),
            target: self.target@,
            path: optional_bytes(self.path),
            target_old: optional_view(self.target_old),
            base: self.base@,
            tree: self.tree@,
            template_key: self.template_key@,
            template: sealed_view(self.template),
            root_path: self.root_path@,
            prepared: record_view(self.prepared),
            capability: capability_view(self.capability),
            root_identity: self.root_identity,
            stage: self.stage,
            outcome: made(self.outcome),
        }
    }
}

#[derive(Debug)]
pub enum CreateAction {
    Run(Command),
    /// Lease a template of the tree, and make it where there is none.
    Acquire(String),
    OpenSessions,
    FindRecord,
    LoadReady,
    /// Write the first record of the session.
    CreateRecord(SessionRecord),
    /// Make the directory of the session.
    CreateRoot,
    /// Make what belongs into it.
    Make,
    Nothing,
}

pub enum CreateAsk {
    Run(CommandView),
    Acquire(Seq<char>),
    OpenSessions,
    FindRecord,
    LoadReady,
    CreateRecord(SessionView),
    CreateRoot,
    Make,
    Nothing,
}

impl View for CreateAction {
    type V = CreateAsk;

    open spec fn view(&self) -> CreateAsk {
        match self {
            CreateAction::Run(command) => CreateAsk::Run(command@),
            CreateAction::Acquire(tree) => CreateAsk::Acquire(tree@),
            CreateAction::OpenSessions => CreateAsk::OpenSessions,
            CreateAction::FindRecord => CreateAsk::FindRecord,
            CreateAction::LoadReady => CreateAsk::LoadReady,
            CreateAction::CreateRecord(record) => CreateAsk::CreateRecord(record@),
            CreateAction::CreateRoot => CreateAsk::CreateRoot,
            CreateAction::Make => CreateAsk::Make,
            CreateAction::Nothing => CreateAsk::Nothing,
        }
    }
}

/// The container of sessions as it is found.
#[derive(Debug)]
pub struct SessionsSeen {
    pub opened: Result<(), Error>,
    pub identity: Result<Identity, Error>,
    pub volume: Result<String, Error>,
    pub path: Result<Vec<u8>, Error>,
    pub entry: Result<Identity, String>,
    pub bound: Result<Identity, Error>,
}

#[derive(Debug)]
pub enum CreateEvent {
    Ran(Result<Output, git::Error>),
    /// The template's key and its seal.
    Acquired(Result<(String, SealedTreeReceipt), Error>),
    Sessions(SessionsSeen),
    Found(Result<Option<RecordCapability>, Error>),
    Loaded(Result<ReadyBinding, Error>),
    Recorded(Result<RecordCapability, Error>),
    Made(Result<Identity, Error>),
    Finished(Result<Vec<u8>, Error>),
}

/// The text of the one line that Git printed.
pub open spec fn line_text(outcome: Result<Output, git::Error>) -> Seq<char> {
    utf8_text(single_line(outcome->Ok_0.stdout@)->0)->0
}

impl CreateView {
    pub open spec fn at(self, stage: CreateStage) -> CreateView {
        CreateView { stage, ..self }
    }

    pub open spec fn failed(self, error: Failure) -> CreateView {
        CreateView { stage: CreateStage::Ended, outcome: Some(Err(error)), ..self }
    }

    pub open spec fn succeeded(self, path: Seq<u8>) -> CreateView {
        CreateView { stage: CreateStage::Ended, outcome: Some(Ok(path)), ..self }
    }

    /// What the target points at is known: the commit to begin from may be, too.
    pub open spec fn learn_target(self, answer: Result<Output, git::Error>) -> CreateView {
        match resolve_target_failure(answer, self.authority.object_format) {
            Some(error) => self.failed(error),
            None => {
                let old = if answer->Ok_0.status.succeeded() {
                    Some(line_text(answer))
                } else {
                    None
                };
                let known = CreateView { target_old: old, ..self };
                if self.from is Some {
                    known.at(CreateStage::From)
                } else {
                    match old {
                        Some(oid) => CreateView { base: oid, ..known }.at(CreateStage::Tree),
                        None => known.at(CreateStage::Head),
                    }
                }
            },
        }
    }

    pub open spec fn learn_base(self, answer: Result<Output, git::Error>) -> CreateView {
        match resolve_base_failure(
            answer,
            self.authority.object_format,
            "base revision does not resolve to a commit"@,
        ) {
            Some(error) => self.failed(error),
            None => CreateView {
                base: line_text(answer),
                stage: CreateStage::Tree,
                ..self
            },
        }
    }

    pub open spec fn learn_tree(self, answer: Result<Output, git::Error>) -> CreateView {
        match resolve_base_failure(
            answer,
            self.authority.object_format,
            "base commit does not resolve to a tree"@,
        ) {
            Some(error) => self.failed(error),
            None => CreateView {
                tree: line_text(answer),
                stage: CreateStage::Acquire,
                ..self
            },
        }
    }

    pub open spec fn binding(self) -> Binding {
        Binding::of(self.authority.canonical, self.authority.identity, self.name)
    }

    /// The first record of the session.
    pub open spec fn prepare(self, container: Identity, volume: Seq<char>) -> SessionView {
        SessionView {
            version: 2,
            sid: self.binding().sid(),
            authority_path: hex_text(self.authority.canonical),
            authority_identity: self.authority.identity,
            name: hex_text(self.name),
            base: self.base,
            target: hex_text(self.target),
            expected_old: self.target_old,
            template_key: self.template_key,
            template: self.template->0,
            container_identity: container,
            volume,
            payload: SessionPayloadView::Prepared {
                root_name: root_name_text(self.binding().sid()),
            },
            journal: JournalView::Idle,
        }
    }

    pub open spec fn sessions_failure(self, seen: SessionsSeen) -> Option<Failure> {
        let f = failure(seen.opened);
        let f = first_of(f, failure(seen.identity));
        let f = first_of(f, failure(seen.volume));
        let f = or_fail(
            f,
            self.template matches Some(template) && template.volume == seen.volume->Ok_0@,
            "STORAGE_UNSUPPORTED"@,
            "template and session containers are not on the same COW volume"@,
        );
        let f = first_of(f, failure(seen.path));
        let f = first_of(f, bind_failure(seen.entry, seen.bound, "session container"@));
        or_fail(
            f,
            self.path matches Some(path) ==> same_path_spec(path, self.managed(seen)),
            "SESSION_UNSUPPORTED"@,
            "--path must be the exact managed session root"@,
        )
    }

    /// The path of the session's directory.
    pub open spec fn managed(self, seen: SessionsSeen) -> Seq<u8> {
        joined(seen.path->Ok_0@, utf8(root_name_text(self.binding().sid())))
    }

    pub open spec fn learn_sessions(self, seen: SessionsSeen) -> CreateView {
        match self.sessions_failure(seen) {
            Some(error) => self.failed(error),
            None => CreateView {
                root_path: self.managed(seen),
                prepared: Some(self.prepare(seen.identity->Ok_0, seen.volume->Ok_0@)),
                stage: CreateStage::Find,
                ..self
            },
        }
    }

    /// A session of that name stands: it is given out where it is ready and was asked for with the same
    /// inputs, and left alone otherwise.
    pub open spec fn existing(self, capability: CapabilityView, prepared: SessionView) -> CreateView {
        let record = capability.record;
        match idle_failure(record.journal) {
            Some(error) => self.failed(error),
            None => if record == prepared {
                self.failed(
                    (
                        "SESSION_INCOMPLETE"@,
                        "session record is prepared but has no stable root"@,
                    ),
                )
            } else if record.is_same_session(prepared) {
                match record.payload {
                    SessionPayloadView::Ready { .. } => CreateView {
                        capability: Some(capability),
                        stage: CreateStage::Load,
                        ..self
                    },
                    SessionPayloadView::Tombstoned { .. } => self.failed(
                        (
                            "SESSION_RECOVERY_REQUIRED"@,
                            "session removal is incomplete and was retained for diagnosis"@,
                        ),
                    ),
                    _ => self.failed(
                        (
                            "SESSION_INCOMPLETE"@,
                            "session creation is incomplete and was retained for diagnosis"@,
                        ),
                    ),
                }
            } else {
                self.failed(
                    (
                        "SESSION_EXISTS"@,
                        "session name is already bound to different create inputs"@,
                    ),
                )
            },
        }
    }

    pub open spec fn learn_record(self, found: Result<Option<RecordCapability>, Error>) -> CreateView {
        match found {
            Err(error) => self.failed(error@),
            Ok(None) => self.at(CreateStage::Record),
            Ok(Some(capability)) => match self.prepared {
                Some(prepared) => self.existing(capability@, prepared),
                None => self,
            },
        }
    }

    /// The creation after the driver's answer. An answer to another question changes nothing.
    pub open spec fn after(self, event: CreateEvent) -> CreateView {
        match (self.stage, event) {
            (CreateStage::Branch, CreateEvent::Ran(answer)) => match answer {
                Err(error) => self.failed(error@),
                Ok(output) => if output.clean() {
                    self.at(CreateStage::Target)
                } else {
                    self.failed(("TARGET_INVALID"@, "target branch name is invalid"@))
                },
            },
            (CreateStage::Target, CreateEvent::Ran(answer)) => self.learn_target(answer),
            (CreateStage::From, CreateEvent::Ran(answer)) => self.learn_base(answer),
            (CreateStage::Head, CreateEvent::Ran(answer)) => self.learn_base(answer),
            (CreateStage::Tree, CreateEvent::Ran(answer)) => self.learn_tree(answer),
            (CreateStage::Acquire, CreateEvent::Acquired(acquired)) => match acquired {
                Err(error) => self.failed(error@),
                Ok((key, sealed)) => CreateView {
                    template_key: key@,
                    template: Some(sealed@),
                    stage: CreateStage::Sessions,
                    ..self
                },
            },
            (CreateStage::Sessions, CreateEvent::Sessions(seen)) => self.learn_sessions(seen),
            (CreateStage::Find, CreateEvent::Found(found)) => self.learn_record(found),
            (CreateStage::Load, CreateEvent::Loaded(loaded)) => match loaded {
                Err(error) => self.failed(error@),
                Ok(ready) => self.succeeded(ready@.root_path),
            },
            (CreateStage::Record, CreateEvent::Recorded(recorded)) => match recorded {
                Err(error) => self.failed(error@),
                Ok(capability) => CreateView {
                    capability: Some(capability@),
                    stage: CreateStage::Root,
                    ..self
                },
            },
            (CreateStage::Root, CreateEvent::Made(made)) => match made {
                Err(error) => self.failed(error@),
                Ok(identity) => CreateView {
                    root_identity: Some(identity),
                    stage: CreateStage::Make,
                    ..self
                },
            },
            (CreateStage::Make, CreateEvent::Finished(finished)) => match finished {
                Err(error) => self.failed(error@),
                Ok(path) => self.succeeded(path@),
            },
            _ => self,
        }
    }

    pub open spec fn asks(self) -> CreateAsk {
        let within = CommandView::isolated(Some(self.authority.canonical));
        match self.stage {
            CreateStage::Branch => if is_plain_branch(self.target) {
                CreateAsk::Run(within.word("check-ref-format"@).word("--branch"@).path(self.target))
            } else {
                CreateAsk::Nothing
            },
            CreateStage::Target => CreateAsk::Run(
                within.word("rev-parse"@).word("--verify"@).word("--quiet"@).path(
                    branch_reference(self.target),
                ),
            ),
            CreateStage::From => match self.from {
                Some(from) => CreateAsk::Run(
                    within.word("rev-parse"@).word("--verify"@).path(from + utf8("^{commit}"@)),
                ),
                None => CreateAsk::Nothing,
            },
            CreateStage::Head => CreateAsk::Run(
                within.word("rev-parse"@).word("--verify"@).path(
                    utf8("HEAD"@) + utf8("^{commit}"@),
                ),
            ),
            CreateStage::Tree => CreateAsk::Run(
                within.word("rev-parse"@).word("--verify"@).path(
                    utf8(self.base) + utf8("^{tree}"@),
                ),
            ),
            CreateStage::Acquire => CreateAsk::Acquire(self.tree),
            CreateStage::Sessions => CreateAsk::OpenSessions,
            CreateStage::Find => CreateAsk::FindRecord,
            CreateStage::Load => CreateAsk::LoadReady,
            CreateStage::Record => match self.prepared {
                Some(prepared) => CreateAsk::CreateRecord(prepared),
                None => CreateAsk::Nothing,
            },
            CreateStage::Root => CreateAsk::CreateRoot,
            CreateStage::Make => CreateAsk::Make,
            CreateStage::Ended => CreateAsk::Nothing,
        }
    }

    /// What is known at each stage.
    pub open spec fn is_sound(self) -> bool {
        &&& self.stage is Branch ==> is_plain_branch(self.target)
        &&& self.stage is From ==> self.from is Some
        &&& (self.stage is Sessions || self.stage is Find || self.stage is Record || self.stage
            is Root || self.stage is Make) ==> self.template is Some
        &&& (self.stage is Find || self.stage is Record || self.stage is Root || self.stage
            is Make) ==> self.prepared is Some
        &&& (self.stage is Load || self.stage is Root || self.stage is Make)
            ==> self.capability is Some
        &&& self.stage is Make ==> self.root_identity is Some
        &&& self.stage is Ended <==> self.outcome is Some
    }
}

/// The text of a line is the one that was read from it.
proof fn lemma_line_text(outcome: Result<Output, git::Error>, text: Seq<char>)
    requires
        outcome is Ok,
        single_line(outcome->Ok_0.stdout@) == Some(utf8(text)),
    ensures
        line_text(outcome) == text,
{
    vstd::utf8::encode_utf8_decode_utf8(text);
    vstd::utf8::encode_utf8_valid_utf8(text);
}

impl CreateView {
    pub open spec fn start(
        authority: AuthorityView,
        name: Seq<u8>,
        from: Option<Seq<u8>>,
        target: Option<Seq<u8>>,
        path: Option<Seq<u8>>,
    ) -> CreateView {
        let create = CreateView {
            authority,
            name,
            from,
            target: match target {
                Some(target) => target,
                None => name,
            },
            path,
            target_old: None,
            base: Seq::empty(),
            tree: Seq::empty(),
            template_key: Seq::empty(),
            template: None,
            root_path: Seq::empty(),
            prepared: None,
            capability: None,
            root_identity: None,
            stage: CreateStage::Branch,
            outcome: None,
        };
        if is_plain_branch(create.target) {
            create
        } else {
            create.failed(("TARGET_INVALID"@, "target branch name is invalid"@))
        }
    }
}

impl Create {
    pub fn start(authority: &Authority, request: CreateRequest) -> (create: Self)
        ensures
            create@ == CreateView::start(
                authority@,
                request.name@,
                optional_bytes(request.from),
                optional_bytes(request.target),
                optional_bytes(request.path),
            ),
    {
        let CreateRequest { name, from, target, path } = request;
        let target = match target {
            Some(target) => target,
            None => copy_bytes(name.as_slice()),
        };
        let create = Create {
            authority: authority.copy(),
            name,
            from,
            target,
            path,
            target_old: None,
            base: String::new(),
            tree: String::new(),
            template_key: String::new(),
            template: None,
            root_path: Vec::new(),
            prepared: None,
            capability: None,
            root_identity: None,
            stage: CreateStage::Branch,
            outcome: None,
        };
        proof {
            assert(create.base@ =~= Seq::<char>::empty());
            assert(create.tree@ =~= Seq::<char>::empty());
            assert(create.template_key@ =~= Seq::<char>::empty());
            assert(create.root_path@ =~= Seq::<u8>::empty());
        }
        match validate_branch_command(&create.authority, create.target.as_slice()) {
            Err(error) => create.failed(error),
            Ok(_) => create,
        }
    }

    fn at(self, stage: CreateStage) -> (next: Self)
        ensures
            next@ == self@.at(stage),
    {
        Create { stage, ..self }
    }

    fn failed(self, error: Error) -> (next: Self)
        ensures
            next@ == self@.failed(error@),
    {
        Create { stage: CreateStage::Ended, outcome: Some(Err(error)), ..self }
    }

    fn succeeded(self, path: Vec<u8>) -> (next: Self)
        ensures
            next@ == self@.succeeded(path@),
    {
        Create { stage: CreateStage::Ended, outcome: Some(Ok(path)), ..self }
    }

    fn learn_target(self, answer: Result<Output, git::Error>) -> (next: Self)
        ensures
            next@ == self@.learn_target(answer),
    {
        match resolve_target(answer, self.authority.object_format.as_str()) {
            Err(error) => self.failed(error),
            Ok(target_old) => {
                proof {
                    if target_old is Some {
                        lemma_line_text(answer, target_old->0@);
                        if !answer->Ok_0.status.succeeded() {
                            assert(answer->Ok_0.stdout@.len() == 0);
                            assert(single_line(answer->Ok_0.stdout@) is None);
                        }
                    }
                }
                let base: Option<String> = match &target_old {
                    Some(old) => Some(old.clone()),
                    None => None,
                };
                let asked: bool = self.from.is_some();
                let known = Create { target_old, ..self };
                if asked {
                    known.at(CreateStage::From)
                } else {
                    match base {
                        Some(base) => Create { base, stage: CreateStage::Tree, ..known },
                        None => known.at(CreateStage::Head),
                    }
                }
            },
        }
    }

    fn learn_base(self, answer: Result<Output, git::Error>) -> (next: Self)
        ensures
            next@ == self@.learn_base(answer),
    {
        match resolve_commit(answer, self.authority.object_format.as_str()) {
            Err(error) => self.failed(error),
            Ok(base) => {
                proof {
                    lemma_line_text(answer, base@);
                }
                Create { base, stage: CreateStage::Tree, ..self }
            },
        }
    }

    fn learn_tree(self, answer: Result<Output, git::Error>) -> (next: Self)
        ensures
            next@ == self@.learn_tree(answer),
    {
        match resolve_tree(answer, self.authority.object_format.as_str()) {
            Err(error) => self.failed(error),
            Ok(tree) => {
                proof {
                    lemma_line_text(answer, tree@);
                }
                Create { tree, stage: CreateStage::Acquire, ..self }
            },
        }
    }

    fn prepare(&self, template: &SealedTreeReceipt, container: Identity, volume: String) -> (record:
        SessionRecord)
        requires
            self@.template == Some(template@),
        ensures
            record@ == self@.prepare(container, volume@),
    {
        let sid = session_id(&self.authority, self.name.as_slice());
        let root_name = root_name(sid.as_str());
        SessionRecord {
            version: 2,
            sid,
            authority_path: hex(self.authority.canonical.as_slice()),
            authority_identity: self.authority.identity,
            name: hex(self.name.as_slice()),
            base: self.base.clone(),
            target: hex(self.target.as_slice()),
            expected_old: copy_optional(&self.target_old),
            template_key: self.template_key.clone(),
            template: template.copy(),
            container_identity: container,
            volume,
            payload: SessionPayload::Prepared { root_name },
            journal: PublishJournal::Idle,
        }
    }

    fn check_sessions(&self, seen: SessionsSeen) -> (found: Result<(Vec<u8>, SessionRecord), Error>)
        ensures
            failure(found) == self@.sessions_failure(seen),
            found matches Ok(found) ==> found.0@ == self@.managed(seen) && found.1@ == self@.prepare(
                seen.identity->Ok_0,
                seen.volume->Ok_0@,
            ),
    {
        let SessionsSeen { opened, identity, volume, path, entry, bound } = seen;
        opened?;
        let identity = identity?;
        let volume = volume?;
        let template = match &self.template {
            None => {
                return Err(
                    Error::new(
                        "STORAGE_UNSUPPORTED",
                        "template and session containers are not on the same COW volume",
                    ),
                );
            },
            Some(template) => template,
        };
        if !crate::bytes::same_text(template.volume.as_str(), volume.as_str()) {
            return Err(
                Error::new(
                    "STORAGE_UNSUPPORTED",
                    "template and session containers are not on the same COW volume",
                ),
            );
        }
        let path = path?;
        bind_path(entry, bound, "session container")?;
        let prepared = self.prepare(template, identity, volume);
        let name = root_name(prepared.sid.as_str());
        let root_path = join(path.as_slice(), name.as_str().as_bytes());
        let fits: bool = match &self.path {
            Some(asked) => same_path(asked.as_slice(), root_path.as_slice()),
            None => true,
        };
        if !fits {
            return Err(
                Error::new("SESSION_UNSUPPORTED", "--path must be the exact managed session root"),
            );
        }
        Ok((root_path, prepared))
    }

    fn learn_sessions(self, seen: SessionsSeen) -> (next: Self)
        ensures
            next@ == self@.learn_sessions(seen),
    {
        match self.check_sessions(seen) {
            Err(error) => self.failed(error),
            Ok((root_path, prepared)) => Create {
                root_path,
                prepared: Some(prepared),
                stage: CreateStage::Find,
                ..self
            },
        }
    }

    fn existing(self, capability: RecordCapability, same: bool, matches: bool) -> (next: Self)
        requires
            self@.prepared is Some,
            same == (capability@.record == self@.prepared->0),
            matches == capability@.record.is_same_session(self@.prepared->0),
        ensures
            next@ == self@.existing(capability@, self@.prepared->0),
    {
        match ensure_publish_idle(&capability.record) {
            Err(error) => {
                return self.failed(error);
            },
            Ok(_) => {},
        }
        if same {
            return self.failed(
                Error::new("SESSION_INCOMPLETE", "session record is prepared but has no stable root"),
            );
        }
        if !matches {
            return self.failed(
                Error::new(
                    "SESSION_EXISTS",
                    "session name is already bound to different create inputs",
                ),
            );
        }
        match &capability.record.payload {
            SessionPayload::Ready { .. } => Create {
                capability: Some(capability),
                stage: CreateStage::Load,
                ..self
            },
            SessionPayload::Tombstoned { .. } => self.failed(
                Error::new(
                    "SESSION_RECOVERY_REQUIRED",
                    "session removal is incomplete and was retained for diagnosis",
                ),
            ),
            _ => self.failed(
                Error::new(
                    "SESSION_INCOMPLETE",
                    "session creation is incomplete and was retained for diagnosis",
                ),
            ),
        }
    }

    fn learn_record(self, found: Result<Option<RecordCapability>, Error>) -> (next: Self)
        ensures
            next@ == self@.learn_record(found),
    {
        match found {
            Err(error) => self.failed(error),
            Ok(None) => self.at(CreateStage::Record),
            Ok(Some(capability)) => match &self.prepared {
                None => self,
                Some(prepared) => {
                    let same: bool = capability.record.same(prepared);
                    let matches: bool = matches_existing(&capability.record, prepared);
                    self.existing(capability, same, matches)
                },
            },
        }
    }

    /// Takes the driver's answer to the question that the creation asks.
    pub fn create(self, event: CreateEvent) -> (next: Self)
        ensures
            next@ == self@.after(event),
    {
        match (self.stage, event) {
            (CreateStage::Branch, CreateEvent::Ran(answer)) => match validate_branch(answer) {
                Err(error) => self.failed(error),
                Ok(_) => self.at(CreateStage::Target),
            },
            (CreateStage::Target, CreateEvent::Ran(answer)) => self.learn_target(answer),
            (CreateStage::From, CreateEvent::Ran(answer)) => self.learn_base(answer),
            (CreateStage::Head, CreateEvent::Ran(answer)) => self.learn_base(answer),
            (CreateStage::Tree, CreateEvent::Ran(answer)) => self.learn_tree(answer),
            (CreateStage::Acquire, CreateEvent::Acquired(acquired)) => match acquired {
                Err(error) => self.failed(error),
                Ok((template_key, sealed)) => Create {
                    template_key,
                    template: Some(sealed),
                    stage: CreateStage::Sessions,
                    ..self
                },
            },
            (CreateStage::Sessions, CreateEvent::Sessions(seen)) => self.learn_sessions(seen),
            (CreateStage::Find, CreateEvent::Found(found)) => self.learn_record(found),
            (CreateStage::Load, CreateEvent::Loaded(loaded)) => match loaded {
                Err(error) => self.failed(error),
                Ok(ready) => self.succeeded(ready.root_path),
            },
            (CreateStage::Record, CreateEvent::Recorded(recorded)) => match recorded {
                Err(error) => self.failed(error),
                Ok(capability) => Create {
                    capability: Some(capability),
                    stage: CreateStage::Root,
                    ..self
                },
            },
            (CreateStage::Root, CreateEvent::Made(made)) => match made {
                Err(error) => self.failed(error),
                Ok(identity) => Create {
                    root_identity: Some(identity),
                    stage: CreateStage::Make,
                    ..self
                },
            },
            (CreateStage::Make, CreateEvent::Finished(finished)) => match finished {
                Err(error) => self.failed(error),
                Ok(path) => self.succeeded(path),
            },
            _ => self,
        }
    }

    /// What is to be done next.
    pub fn action(&self) -> (action: CreateAction)
        ensures
            action@ == self@.asks(),
    {
        match self.stage {
            CreateStage::Branch => match validate_branch_command(
                &self.authority,
                self.target.as_slice(),
            ) {
                Ok(command) => CreateAction::Run(command),
                Err(_) => CreateAction::Nothing,
            },
            CreateStage::Target => CreateAction::Run(
                resolve_target_command(&self.authority, self.target.as_slice()),
            ),
            CreateStage::From => match &self.from {
                Some(from) => CreateAction::Run(
                    resolve_commit_command(&self.authority, from.as_slice()),
                ),
                None => CreateAction::Nothing,
            },
            CreateStage::Head => CreateAction::Run(
                resolve_commit_command(&self.authority, "HEAD".as_bytes()),
            ),
            CreateStage::Tree => CreateAction::Run(
                resolve_tree_command(&self.authority, self.base.as_str()),
            ),
            CreateStage::Acquire => CreateAction::Acquire(self.tree.clone()),
            CreateStage::Sessions => CreateAction::OpenSessions,
            CreateStage::Find => CreateAction::FindRecord,
            CreateStage::Load => CreateAction::LoadReady,
            CreateStage::Record => match &self.prepared {
                Some(prepared) => CreateAction::CreateRecord(prepared.copy()),
                None => CreateAction::Nothing,
            },
            CreateStage::Root => CreateAction::CreateRoot,
            CreateStage::Make => CreateAction::Make,
            CreateStage::Ended => CreateAction::Nothing,
        }
    }

    /// The making that a creation hands over to, once the directory of the session stands.
    pub fn making(&self) -> (making: Option<Making>)
        ensures
            making is Some == (self@.stage is Make && self@.capability is Some
                && self@.root_identity is Some && self@.template is Some),
            making matches Some(making) ==> making@ == MakingView::start(
                self@.authority,
                self@.capability->0,
                self@.target,
                self@.base,
                self@.template->0,
                self@.root_path,
                self@.root_identity->0,
            ),
    {
        match (self.stage, &self.capability, self.root_identity, &self.template) {
            (CreateStage::Make, Some(capability), Some(identity), Some(template)) => Some(
                Making::start(
                    &self.authority,
                    capability.copy(),
                    copy_bytes(self.target.as_slice()),
                    self.base.clone(),
                    template.copy(),
                    copy_bytes(self.root_path.as_slice()),
                    identity,
                ),
            ),
            _ => None,
        }
    }

    /// The path of the session, or why there is none, once nothing more is asked for.
    pub fn outcome(&self) -> (outcome: Option<Result<Vec<u8>, Error>>)
        ensures
            made(outcome) == self@.outcome,
    {
        match &self.outcome {
            None => None,
            Some(Ok(path)) => Some(Ok(copy_bytes(path.as_slice()))),
            Some(Err(error)) => Some(Err(error.copy())),
        }
    }
}

impl CreateStage {
    /// The order of the stages.
    pub open spec fn rank(self) -> int {
        match self {
            CreateStage::Branch => 0,
            CreateStage::Target => 1,
            CreateStage::From => 2,
            CreateStage::Head => 3,
            CreateStage::Tree => 4,
            CreateStage::Acquire => 5,
            CreateStage::Sessions => 6,
            CreateStage::Find => 7,
            CreateStage::Load => 8,
            CreateStage::Record => 9,
            CreateStage::Root => 10,
            CreateStage::Make => 11,
            CreateStage::Ended => 12,
        }
    }
}

/// A creation begins sound, stays sound, and only goes forward.
pub proof fn law_creation_goes_forward(create: CreateView, event: CreateEvent)
    requires
        create.is_sound(),
    ensures
        create.after(event).is_sound(),
        create.after(event) == create || create.after(event).stage.rank() > create.stage.rank(),
{
}

pub proof fn law_creation_begins_sound(
    authority: AuthorityView,
    name: Seq<u8>,
    from: Option<Seq<u8>>,
    target: Option<Seq<u8>>,
    path: Option<Seq<u8>>,
)
    ensures
        CreateView::start(authority, name, from, target, path).is_sound(),
{
}

/// Where a session of that name stands, none is made: it is given out or left alone.
pub proof fn law_existing_sessions_are_not_made_again(create: CreateView, found: RecordCapability)
    requires
        create.stage is Find,
        create.is_sound(),
    ensures
        ({
            let next = create.after(CreateEvent::Found(Ok(Some(found))));
            &&& next.stage is Load || next.stage is Ended
            &&& next.stage is Load ==> found@.record.payload is Ready
                && found@.record.is_same_session(create.prepared->0)
                && found@.record.journal is Idle
        }),
{
}

/// Asked for once more with the same inputs, a session that is ready is the one that is given out.
pub proof fn law_creation_is_repeatable(create: CreateView, found: RecordCapability)
    requires
        create.stage is Find,
        create.is_sound(),
        found@.record.is_same_session(create.prepared->0),
        found@.record.payload is Ready,
        found@.record.journal is Idle,
        create.prepared->0.payload is Prepared,
    ensures
        create.after(CreateEvent::Found(Ok(Some(found)))).asks() is LoadReady,
{
}

/// The first record of a session is a valid one, where what it is made of has its form.
pub proof fn law_prepared_records_are_valid(
    create: CreateView,
    container: Identity,
    volume: Seq<char>,
    uid: u32,
)
    requires
        create.template is Some,
        is_absolute_path(create.authority.canonical),
        !create.authority.canonical.contains(0),
        create.authority.identity.is_directory(),
        is_session_name(create.name),
        create.target.len() > 0,
        is_oid(create.base),
        create.target_old matches Some(old) ==> is_oid(old),
        is_hash(create.template_key),
        is_hash(create.template->0.digest),
        is_hash(create.template->0.content_digest),
        create.template->0.volume == volume,
        volume.len() > 0,
        is_private_directory(container, uid),
        is_hash(create.binding().sid()),
    ensures
        create.prepare(container, volume).is_valid(uid),
{
    lemma_hex_text(create.authority.canonical);
    lemma_hex_text(create.name);
    lemma_hex_text(create.target);
}

} // verus!
