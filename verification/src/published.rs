//! What a publication does to the branches of its authority and of its session, as far as Git does what
//! its commands say.

use crate::authority::AuthorityView;
use crate::bytes::{first_index, lemma_first_index_bounds, split_at_each, utf8, utf8_text};
use crate::git::{self, AuditConfig, Output, DEFAULT_LIMIT};
use crate::publish::{
    law_publication_begins_sound, law_publication_goes_forward, oid_bytes, oid_text, PublishAsk,
    PublishEvent, PublishStage, PublishView,
};
use crate::session::SessionView;
use crate::session_git::{
    old_text, single_line, target_commit_failure, target_commit_value, target_fields, CommandView,
};
use vstd::prelude::*;

verus! {

/// What the target's branch points at in the authority and in the session, and which commits are
/// ancestors of which.
pub struct Branches {
    pub authority: Option<Seq<u8>>,
    pub session: Option<Seq<u8>>,
    pub ancestors: Set<(Seq<u8>, Seq<u8>)>,
}

/// Where a publication takes place.
pub struct Place {
    pub authority: Seq<u8>,
    pub common: Seq<u8>,
    pub target: Seq<u8>,
}

pub open spec fn ended_well(outcome: Result<Output, git::Error>) -> bool {
    outcome matches Ok(output) && output.status.code == Some(0i32)
}

impl Place {
    pub open spec fn reference(self) -> Seq<u8> {
        utf8("refs/heads/"@) + self.target
    }

    /// What `for-each-ref` prints of the branch: nothing, or one line.
    pub open spec fn shown(self, tip: Option<Seq<u8>>) -> Seq<u8> {
        match tip {
            None => Seq::empty(),
            Some(oid) => self.reference() + seq![32u8] + oid + seq![32u8] + utf8("commit"@) + seq![
                32u8,
                10u8,
            ],
        }
    }

    pub open spec fn shows_authority(self, command: CommandView) -> bool {
        command.args == seq![
            utf8("-C"@),
            self.authority,
            utf8("for-each-ref"@),
            utf8("--format=%(refname) %(objectname) %(objecttype) %(symref)"@),
            self.reference(),
        ]
    }

    pub open spec fn shows_session(self, command: CommandView) -> bool {
        command.directory == Some(self.common) && command.args == seq![
            utf8("for-each-ref"@),
            utf8("--format=%(refname) %(objectname) %(objecttype) %(symref)"@),
            self.reference(),
        ]
    }

    pub open spec fn relates(self, command: CommandView, old: Seq<u8>, new: Seq<u8>) -> bool {
        command.directory == Some(self.common) && command.args == seq![
            utf8("merge-base"@),
            utf8("--is-ancestor"@),
            old,
            new,
        ]
    }

    /// The command sets the authority's branch to `new` where it points at `old`.
    pub open spec fn swaps(self, command: CommandView, old: Seq<u8>, new: Seq<u8>) -> bool {
        command.args == seq![
            utf8("-C"@),
            self.authority,
            utf8("update-ref"@),
            utf8("--no-deref"@),
            self.reference(),
            new,
            old,
        ]
    }
}

/// A tip as `update-ref` is told what it expects: all zeros where there is to be none.
pub open spec fn is_expected(tip: Option<Seq<u8>>, text: Seq<u8>) -> bool {
    match tip {
        Some(oid) => text == oid,
        None => text.len() > 0 && forall|i: int| 0 <= i < text.len() ==> #[trigger] text[i] == 48,
    }
}

impl Branches {
    /// What Git answers is true of the branches.
    pub open spec fn answer(
        self,
        place: Place,
        command: CommandView,
        outcome: Result<Output, git::Error>,
    ) -> bool {
        ended_well(outcome) ==> {
            &&& place.shows_authority(command) ==> outcome->Ok_0.stdout@ == place.shown(
                self.authority,
            )
            &&& place.shows_session(command) ==> outcome->Ok_0.stdout@ == place.shown(self.session)
            &&& forall|old: Seq<u8>, new: Seq<u8>| #[trigger]
                place.relates(command, old, new) ==> self.ancestors.contains((old, new))
            &&& forall|old: Seq<u8>, new: Seq<u8>| #[trigger]
                place.swaps(command, old, new) ==> is_expected(self.authority, old)
        }
    }

    /// The branches behind a command: only a swap that succeeded changes one.
    pub open spec fn after(
        self,
        place: Place,
        command: CommandView,
        outcome: Result<Output, git::Error>,
    ) -> Branches {
        if ended_well(outcome) && (exists|old: Seq<u8>, new: Seq<u8>|
            place.swaps(command, old, new)) {
            let (old, new) = choose|old: Seq<u8>, new: Seq<u8>| place.swaps(command, old, new);
            Branches { authority: Some(new), ..self }
        } else {
            self
        }
    }
}

/// A publication and the branches that it is about.
pub struct Scene {
    pub publish: PublishView,
    pub branches: Branches,
}

impl Scene {
    pub open spec fn place(self) -> Place {
        Place {
            authority: self.publish.authority.canonical,
            common: self.publish.common_path,
            target: self.publish.target,
        }
    }

    pub open spec fn is_answered(self, event: PublishEvent) -> bool {
        match (self.publish.asks(), event) {
            (PublishAsk::Run(command), PublishEvent::Ran(outcome)) => self.branches.answer(
                self.place(),
                command,
                outcome,
            ),
            _ => true,
        }
    }

    pub open spec fn after(self, event: PublishEvent) -> Scene {
        Scene {
            publish: self.publish.after(event),
            branches: match (self.publish.asks(), event) {
                (PublishAsk::Run(command), PublishEvent::Ran(outcome)) => self.branches.after(
                    self.place(),
                    command,
                    outcome,
                ),
                _ => self.branches,
            },
        }
    }

    pub open spec fn after_all(self, events: Seq<PublishEvent>) -> Scene
        decreases events.len(),
    {
        if events.len() == 0 {
            self
        } else {
            self.after_all(events.drop_last()).after(events.last())
        }
    }

    pub open spec fn is_answered_all(self, events: Seq<PublishEvent>) -> bool
        decreases events.len(),
    {
        events.len() == 0 || (self.is_answered_all(events.drop_last()) && self.after_all(
            events.drop_last(),
        ).is_answered(events.last()))
    }
}

/// Whatever a publication stands at, the command that it asks for is one of these, written out.
pub open spec fn is_publish_command(publish: PublishView, command: CommandView) -> bool {
    let place = Place {
        authority: publish.authority.canonical,
        common: publish.common_path,
        target: publish.target,
    };
    let new = utf8(publish.fields.new);
    match publish.stage {
        PublishStage::ChooseAudit
        | PublishStage::SameAudit
        | PublishStage::PreparedAudit
        | PublishStage::ImportedAudit
        | PublishStage::ReadyAudit => command.args == seq![
            utf8("-C"@),
            place.authority,
            utf8("config"@),
            utf8("--null"@),
            utf8("--show-origin"@),
            utf8("--show-scope"@),
            utf8("--includes"@),
            utf8("--list"@),
        ],
        PublishStage::ChooseTarget
        | PublishStage::SameTarget
        | PublishStage::PreparedTarget
        | PublishStage::ReadyTarget => command.args == seq![
            utf8("-C"@),
            place.authority,
            utf8("check-ref-format"@),
            utf8("--branch"@),
            place.target,
        ],
        PublishStage::ChooseOld
        | PublishStage::SameOld
        | PublishStage::FreshOld
        | PublishStage::PreparedOld
        | PublishStage::ReadyOld => place.shows_authority(command),
        PublishStage::ChooseNew
        | PublishStage::SamePrivate
        | PublishStage::PreparedPrivate
        | PublishStage::ImportedPrivate
        | PublishStage::ReadyPrivate => place.shows_session(command),
        PublishStage::ChooseRelation
        | PublishStage::PreparedRelation
        | PublishStage::ReadyRelation => publish.fields.expected_old matches Some(old)
            && place.relates(command, utf8(old), new),
        PublishStage::FreshCheckedOut
        | PublishStage::PreparedCheckedOut
        | PublishStage::ReadyCheckedOut => command.args == seq![
            utf8("-C"@),
            place.authority,
            utf8("worktree"@),
            utf8("list"@),
            utf8("--porcelain"@),
        ],
        PublishStage::SameCommit
        | PublishStage::ImportedCommit
        | PublishStage::ReadyCommit => command.args == seq![
            utf8("-C"@),
            place.authority,
            utf8("cat-file"@),
            utf8("-e"@),
            new + utf8("^{commit}"@),
        ],
        PublishStage::SameClosure
        | PublishStage::ImportedClosure
        | PublishStage::ReadyClosure => command.args == seq![
            utf8("-C"@),
            place.authority,
            utf8("fsck"@),
            utf8("--connectivity-only"@),
            utf8("--no-reflogs"@),
            utf8("--no-dangling"@),
            utf8("--no-progress"@),
            new + utf8("^{commit}"@),
        ],
        PublishStage::Import => command.args == seq![
            utf8("-C"@),
            place.authority,
            utf8("fetch"@),
            utf8("--quiet"@),
            utf8("--no-write-fetch-head"@),
            utf8("--no-tags"@),
            utf8("--no-auto-maintenance"@),
            utf8("--no-write-commit-graph"@),
            utf8("--recurse-submodules=no"@),
            place.common,
            new,
        ],
        PublishStage::Update => place.swaps(
            command,
            utf8(expected_text(publish)),
            new,
        ),
        _ => false,
    }
}

/// The commands of a publication, written out: in particular, the one that moves the branch names the
/// authority, the branch, the commit that was frozen as the new one and the one that was frozen as the
/// old one, in this order. Those in the authority run under its own configuration, those in the session
/// under none.
pub proof fn law_publish_commands_are_these(publish: PublishView)
    ensures
        publish.asks() matches PublishAsk::Run(command) ==> {
            &&& is_publish_command(publish, command)
            &&& command.limit == DEFAULT_LIMIT
            &&& command.directory is None ==> command.audit == AuditConfig::Authority
            &&& command.directory matches Some(directory) ==> directory == publish.common_path
                && command.audit == AuditConfig::Isolated
        },
        publish.stage is Update ==> publish.asks() is Run,
{
    lemma_config_args(publish);
    lemma_target_args(publish);
    lemma_old_args(publish);
    lemma_private_args(publish);
    lemma_relation_args(publish);
    lemma_worktrees_args(publish);
    lemma_commit_args(publish);
    lemma_closure_args(publish);
    lemma_import_args(publish);
    lemma_update_args(publish);
}

proof fn lemma_config_args(publish: PublishView)
    ensures
        publish.config_args().args == seq![
            utf8("-C"@),
            publish.authority.canonical,
            utf8("config"@),
            utf8("--null"@),
            utf8("--show-origin"@),
            utf8("--show-scope"@),
            utf8("--includes"@),
            utf8("--list"@),
        ],
        publish.config_args().directory == None::<Seq<u8>>,
        publish.config_args().audit == AuditConfig::Authority,
        publish.config_args().limit == DEFAULT_LIMIT,
{
}

proof fn lemma_target_args(publish: PublishView)
    ensures
        publish.target_args().args == seq![
            utf8("-C"@),
            publish.authority.canonical,
            utf8("check-ref-format"@),
            utf8("--branch"@),
            publish.target,
        ],
        publish.target_args().directory == None::<Seq<u8>>,
        publish.target_args().audit == AuditConfig::Authority,
        publish.target_args().limit == DEFAULT_LIMIT,
{
}

proof fn lemma_old_args(publish: PublishView)
    ensures
        publish.old_args().args == seq![
            utf8("-C"@),
            publish.authority.canonical,
            utf8("for-each-ref"@),
            utf8("--format=%(refname) %(objectname) %(objecttype) %(symref)"@),
            utf8("refs/heads/"@) + publish.target,
        ],
        publish.old_args().directory == None::<Seq<u8>>,
        publish.old_args().audit == AuditConfig::Authority,
        publish.old_args().limit == DEFAULT_LIMIT,
{
}

proof fn lemma_private_args(publish: PublishView)
    ensures
        publish.private_args().args == seq![
            utf8("for-each-ref"@),
            utf8("--format=%(refname) %(objectname) %(objecttype) %(symref)"@),
            utf8("refs/heads/"@) + publish.target,
        ],
        publish.private_args().directory == Some(publish.common_path),
        publish.private_args().audit == AuditConfig::Isolated,
        publish.private_args().limit == DEFAULT_LIMIT,
{
}

proof fn lemma_relation_args(publish: PublishView)
    ensures
        publish.relation_args().args == seq![
            utf8("merge-base"@),
            utf8("--is-ancestor"@),
            utf8(publish.fields.expected_old->0),
            utf8(publish.fields.new),
        ],
        publish.relation_args().directory == Some(publish.common_path),
        publish.relation_args().audit == AuditConfig::Isolated,
        publish.relation_args().limit == DEFAULT_LIMIT,
{
}

proof fn lemma_worktrees_args(publish: PublishView)
    ensures
        publish.worktrees_args().args == seq![
            utf8("-C"@),
            publish.authority.canonical,
            utf8("worktree"@),
            utf8("list"@),
            utf8("--porcelain"@),
        ],
        publish.worktrees_args().directory == None::<Seq<u8>>,
        publish.worktrees_args().audit == AuditConfig::Authority,
        publish.worktrees_args().limit == DEFAULT_LIMIT,
{
}

proof fn lemma_commit_args(publish: PublishView)
    ensures
        publish.commit_args().args == seq![
            utf8("-C"@),
            publish.authority.canonical,
            utf8("cat-file"@),
            utf8("-e"@),
            utf8(publish.fields.new) + utf8("^{commit}"@),
        ],
        publish.commit_args().directory == None::<Seq<u8>>,
        publish.commit_args().audit == AuditConfig::Authority,
        publish.commit_args().limit == DEFAULT_LIMIT,
{
}

proof fn lemma_closure_args(publish: PublishView)
    ensures
        publish.closure_args().args == seq![
            utf8("-C"@),
            publish.authority.canonical,
            utf8("fsck"@),
            utf8("--connectivity-only"@),
            utf8("--no-reflogs"@),
            utf8("--no-dangling"@),
            utf8("--no-progress"@),
            utf8(publish.fields.new) + utf8("^{commit}"@),
        ],
        publish.closure_args().directory == None::<Seq<u8>>,
        publish.closure_args().audit == AuditConfig::Authority,
        publish.closure_args().limit == DEFAULT_LIMIT,
{
}

proof fn lemma_import_args(publish: PublishView)
    ensures
        publish.import_args().args == seq![
            utf8("-C"@),
            publish.authority.canonical,
            utf8("fetch"@),
            utf8("--quiet"@),
            utf8("--no-write-fetch-head"@),
            utf8("--no-tags"@),
            utf8("--no-auto-maintenance"@),
            utf8("--no-write-commit-graph"@),
            utf8("--recurse-submodules=no"@),
            publish.common_path,
            utf8(publish.fields.new),
        ],
        publish.import_args().directory == None::<Seq<u8>>,
        publish.import_args().audit == AuditConfig::Authority,
        publish.import_args().limit == DEFAULT_LIMIT,
{
}

/// What `update-ref` is told to expect.
pub open spec fn expected_text(publish: PublishView) -> Seq<char> {
    match publish.fields.expected_old {
        Some(old) => old,
        None => Seq::new(
            if publish.authority.object_format == "sha1"@ {
                40
            } else {
                64
            },
            |i: int| '0',
        ),
    }
}

proof fn lemma_update_args(publish: PublishView)
    ensures
        publish.update_args().args == seq![
            utf8("-C"@),
            publish.authority.canonical,
            utf8("update-ref"@),
            utf8("--no-deref"@),
            utf8("refs/heads/"@) + publish.target,
            utf8(publish.fields.new),
            utf8(expected_text(publish)),
        ],
        publish.update_args().directory == None::<Seq<u8>>,
        publish.update_args().audit == AuditConfig::Authority,
        publish.update_args().limit == DEFAULT_LIMIT,
{
    assert(old_text(publish.fields.expected_old, publish.authority.object_format)
        =~= expected_text(publish));
}

proof fn lemma_split_front(bytes: Seq<u8>, separator: u8)
    requires
        split_at_each(bytes, separator).len() >= 2,
    ensures
        ({
            let pieces = split_at_each(bytes, separator);
            let rest = bytes.subrange(pieces[0].len() as int + 1, bytes.len() as int);
            &&& pieces[0].len() + 1 <= bytes.len()
            &&& bytes == pieces[0] + seq![separator] + rest
            &&& split_at_each(rest, separator) == pieces.drop_first()
        }),
{
    lemma_first_index_bounds(bytes, separator);
    let at = first_index(bytes, separator);
    let pieces = split_at_each(bytes, separator);
    let rest = bytes.subrange(at + 1, bytes.len() as int);
    assert(pieces[0] =~= bytes.subrange(0, at));
    assert(pieces.drop_first() =~= split_at_each(rest, separator));
    assert(bytes =~= pieces[0] + seq![separator] + rest);
}

/// The four fields of a line, put together again.
proof fn lemma_four_fields(line: Seq<u8>)
    requires
        split_at_each(line, 32).len() == 4,
    ensures
        ({
            let f = split_at_each(line, 32);
            line == f[0] + seq![32u8] + (f[1] + seq![32u8] + (f[2] + seq![32u8] + f[3]))
        }),
{
    let f = split_at_each(line, 32);
    lemma_split_front(line, 32);
    let rest1 = line.subrange(f[0].len() as int + 1, line.len() as int);
    lemma_split_front(rest1, 32);
    let rest2 = rest1.subrange(f[1].len() as int + 1, rest1.len() as int);
    lemma_split_front(rest2, 32);
    let rest3 = rest2.subrange(f[2].len() as int + 1, rest2.len() as int);
    lemma_first_index_bounds(rest3, 32);
    assert(split_at_each(rest3, 32) == f.drop_first().drop_first().drop_first());
    assert(split_at_each(rest3, 32).len() == 1);
    assert(rest3 == f[3]) by {
        let at = first_index(rest3, 32);
        if at < rest3.len() {
            let more = split_at_each(rest3.subrange(at + 1, rest3.len() as int), 32);
            lemma_first_index_bounds(rest3.subrange(at + 1, rest3.len() as int), 32);
            assert(more.len() >= 1);
        }
        assert(split_at_each(rest3, 32)[0] == rest3);
    }
}

/// What is read from the line that shows a tip is that tip.
proof fn lemma_tip_is_read(
    place: Place,
    tip: Option<Seq<u8>>,
    outcome: Result<Output, git::Error>,
    object_format: Seq<char>,
)
    requires
        target_commit_failure(outcome, place.target, object_format) is None,
        ended_well(outcome) ==> outcome->Ok_0.stdout@ == place.shown(tip),
    ensures
        ended_well(outcome),
        target_commit_value(outcome) == tip,
        tip matches Some(oid) ==> utf8_text(oid) is Some,
{
    let stdout = outcome->Ok_0.stdout@;
    match tip {
        None => {},
        Some(oid) => {
            let line = single_line(stdout)->0;
            let f = target_fields(line);
            lemma_four_fields(line);
            assert(stdout =~= line + seq![10u8]);
            let tail = seq![32u8] + utf8("commit"@) + seq![32u8];
            assert(f[3] =~= Seq::<u8>::empty());
            assert(line =~= place.reference() + seq![32u8] + (oid + tail)) by {
                assert(stdout.drop_last() =~= line);
                assert(stdout.drop_last() =~= place.reference() + seq![32u8] + (oid + tail));
            }
            assert(line =~= place.reference() + seq![32u8] + (f[1] + tail));
            let n = place.reference().len() as int + 1;
            assert(line.subrange(n, line.len() as int) =~= oid + tail);
            assert(line.subrange(n, line.len() as int) =~= f[1] + tail);
            assert((oid + tail).len() == (f[1] + tail).len());
            assert(oid =~= (oid + tail).subrange(0, oid.len() as int));
            assert(f[1] =~= (f[1] + tail).subrange(0, oid.len() as int));
        },
    }
}

proof fn lemma_text_of_tip(tip: Option<Seq<u8>>)
    requires
        tip matches Some(oid) ==> utf8_text(oid) is Some,
    ensures
        oid_bytes(oid_text(tip)) == tip,
{
    if let Some(oid) = tip {
        vstd::utf8::decode_utf8_encode_utf8(oid);
    }
}

/// The new commit is the old one, descends from it, or there is no old one.
pub open spec fn is_fast_forward(branches: Branches, old: Option<Seq<u8>>, new: Seq<u8>) -> bool {
    old matches Some(old) ==> old == new || branches.ancestors.contains((old, new))
}

impl Scene {
    /// What is known at each stage of what the branches are.
    spec fn agrees(self, start: Scene) -> bool {
        let publish = self.publish;
        let rank = publish.stage.rank();
        let new = utf8(publish.fields.new);
        let old = oid_bytes(publish.fields.expected_old);
        let tip = start.branches.authority;
        &&& publish.is_sound()
        &&& publish.authority == start.publish.authority
        &&& publish.common_path == start.publish.common_path
        &&& publish.target == start.publish.target
        &&& publish.record.target == start.publish.record.target
        &&& publish.record.name == start.publish.record.name
        &&& publish.record.base == start.publish.record.base
        &&& publish.record.payload == start.publish.record.payload
        &&& self.branches.session == start.branches.session
        &&& self.branches.ancestors == start.branches.ancestors
        &&& rank <= 35 ==> self.branches.authority == tip
        &&& self.branches.authority == tip || self.branches.authority == start.branches.session
        &&& 3 <= rank <= 13 ==> old == tip
        &&& 4 <= rank <= 13 ==> start.branches.session == Some(new)
        &&& 5 <= rank <= 13 ==> is_fast_forward(start.branches, old, new)
        &&& publish.stage.is_same() ==> publish.fields.expected_old == Some(publish.fields.new)
        &&& 29 <= rank <= 37 ==> start.branches.session == Some(new)
        &&& 30 <= rank <= 35 ==> is_fast_forward(start.branches, old, new)
        &&& 33 <= rank <= 35 ==> old == tip
        &&& 36 <= rank <= 37 ==> self.branches.authority == Some(new) && is_fast_forward(
            start.branches,
            tip,
            new,
        )
        &&& publish.outcome matches Some(Ok(text)) ==> {
            &&& self.branches.authority == Some(new)
            &&& self.branches.session == Some(new)
            &&& is_fast_forward(start.branches, tip, new)
            &&& publish.record.journal is Idle
            &&& publish.record.expected_old == Some(publish.fields.new) || (tip == Some(new)
                && publish.record == start.publish.record)
            &&& text == "published "@ + start.publish.record.target + " "@ + publish.fields.new
        }
        &&& rank <= 13 ==> publish.record == start.publish.record
    }
}

/// Only the swap is a command of so many words.
proof fn lemma_only_update_swaps(publish: PublishView, command: CommandView, place: Place)
    requires
        is_publish_command(publish, command),
        !(publish.stage is Update),
    ensures
        forall|old: Seq<u8>, new: Seq<u8>| !(#[trigger] place.swaps(command, old, new)),
{
    assert(command.args.len() != 7);
}

proof fn lemma_update_swaps(
    branches: Branches,
    publish: PublishView,
    command: CommandView,
    place: Place,
    outcome: Result<Output, git::Error>,
)
    requires
        is_publish_command(publish, command),
        publish.stage is Update,
        place.authority == publish.authority.canonical,
        place.target == publish.target,
        ended_well(outcome),
    ensures
        branches.after(place, command, outcome) == (Branches {
            authority: Some(utf8(publish.fields.new)),
            ..branches
        }),
{
    let new = utf8(publish.fields.new);
    assert(place.swaps(command, utf8(expected_text(publish)), new));
    let (old, other) = choose|old: Seq<u8>, new: Seq<u8>| place.swaps(command, old, new);
    assert(place.swaps(command, old, other));
    assert(command.args[5] == new && command.args[5] == other);
}

impl Scene {
    spec fn shows_old(self) -> bool {
        let stage = self.publish.stage;
        stage is ChooseOld || stage is SameOld || stage is FreshOld || stage is PreparedOld
            || stage is ReadyOld
    }

    spec fn shows_private(self) -> bool {
        let stage = self.publish.stage;
        stage is ChooseNew || stage is SamePrivate || stage is PreparedPrivate
            || stage is ImportedPrivate || stage is ReadyPrivate
    }

    spec fn relates(self) -> bool {
        let stage = self.publish.stage;
        stage is ChooseRelation || stage is PreparedRelation || stage is ReadyRelation
    }

    /// What an answer says of the branches, stage by stage.
    spec fn is_told(self, outcome: Result<Output, git::Error>) -> bool {
        ended_well(outcome) ==> {
            &&& self.shows_old() ==> outcome->Ok_0.stdout@ == self.place().shown(
                self.branches.authority,
            )
            &&& self.shows_private() ==> outcome->Ok_0.stdout@ == self.place().shown(
                self.branches.session,
            )
            &&& self.relates() ==> self.branches.ancestors.contains(
                (utf8(self.publish.fields.expected_old->0), utf8(self.publish.fields.new)),
            )
        }
    }
}

proof fn lemma_answers_tell(scene: Scene, command: CommandView, outcome: Result<Output, git::Error>)
    requires
        is_publish_command(scene.publish, command),
        scene.branches.answer(scene.place(), command, outcome),
    ensures
        scene.is_told(outcome),
{
    if scene.relates() {
        assert(scene.place().relates(
            command,
            utf8(scene.publish.fields.expected_old->0),
            utf8(scene.publish.fields.new),
        ));
    }
}

/// The tip that an answer shows, where the answer can be used.
proof fn lemma_shown(scene: Scene, outcome: Result<Output, git::Error>)
    requires
        scene.is_told(outcome),
        target_commit_failure(
            outcome,
            scene.publish.target,
            scene.publish.authority.object_format,
        ) is None,
    ensures
        ended_well(outcome),
        scene.shows_old() ==> target_commit_value(outcome) == scene.branches.authority
            && oid_bytes(oid_text(target_commit_value(outcome))) == target_commit_value(outcome),
        scene.shows_private() ==> target_commit_value(outcome) == scene.branches.session
            && oid_bytes(oid_text(target_commit_value(outcome))) == target_commit_value(outcome),
{
    let format = scene.publish.authority.object_format;
    if scene.shows_old() {
        lemma_tip_is_read(scene.place(), scene.branches.authority, outcome, format);
        lemma_text_of_tip(scene.branches.authority);
    }
    if scene.shows_private() {
        lemma_tip_is_read(scene.place(), scene.branches.session, outcome, format);
        lemma_text_of_tip(scene.branches.session);
    }
}

#[verifier::spinoff_prover]
proof fn lemma_choice_agrees(scene: Scene, start: Scene, outcome: Result<Output, git::Error>)
    requires
        scene.agrees(start),
        scene.is_told(outcome),
        scene.publish.stage.rank() < 14,
        scene.publish.after_choice(outcome).is_sound(),
    ensures
        (Scene { publish: scene.publish.after_choice(outcome), ..scene }).agrees(start),
{
    let format = scene.publish.authority.object_format;
    if target_commit_failure(outcome, scene.publish.target, format) is None {
        lemma_shown(scene, outcome);
    }
    match scene.publish.stage {
        PublishStage::ChooseOld => {},
        PublishStage::ChooseNew => {},
        PublishStage::ChooseRelation => {},
        PublishStage::SameOld => {},
        _ => {},
    }
}

#[verifier::spinoff_prover]
proof fn lemma_prepared_agrees(scene: Scene, start: Scene, outcome: Result<Output, git::Error>)
    requires
        scene.agrees(start),
        scene.is_told(outcome),
        14 <= scene.publish.stage.rank() < 26,
        scene.publish.after_prepared(outcome).is_sound(),
    ensures
        (Scene { publish: scene.publish.after_prepared(outcome), ..scene }).agrees(start),
{
}

#[verifier::spinoff_prover]
proof fn lemma_imported_agrees(scene: Scene, start: Scene, outcome: Result<Output, git::Error>)
    requires
        scene.agrees(start),
        scene.is_told(outcome),
        26 <= scene.publish.stage.rank(),
        scene.publish.after_imported(outcome).is_sound(),
        !(scene.publish.stage is Update),
    ensures
        (Scene { publish: scene.publish.after_imported(outcome), ..scene }).agrees(start),
{
    let format = scene.publish.authority.object_format;
    if target_commit_failure(outcome, scene.publish.target, format) is None {
        lemma_shown(scene, outcome);
    }
}

#[verifier::spinoff_prover]
proof fn lemma_swap_agrees(
    scene: Scene,
    start: Scene,
    outcome: Result<Output, git::Error>,
    branches: Branches,
)
    requires
        scene.agrees(start),
        scene.publish.stage is Update,
        scene.publish.after_imported(outcome).is_sound(),
        branches == if ended_well(outcome) {
            Branches { authority: Some(utf8(scene.publish.fields.new)), ..scene.branches }
        } else {
            scene.branches
        },
    ensures
        (Scene { publish: scene.publish.after_imported(outcome), branches }).agrees(start),
{
}

#[verifier::spinoff_prover]
proof fn lemma_persisting_agrees(scene: Scene, start: Scene, done: Result<(), crate::authority::Error>)
    requires
        scene.agrees(start),
        scene.publish.stage.persists(),
        scene.publish.after_persisting(done).is_sound(),
    ensures
        (Scene { publish: scene.publish.after_persisting(done), ..scene }).agrees(start),
{
}

/// The command that is asked for while nothing is to be persisted.
proof fn lemma_asks(publish: PublishView)
    requires
        publish.is_sound(),
    ensures
        publish.asks() is Nothing ==> publish.stage is Ended,
        publish.asks() is Persist ==> publish.stage.persists(),
        publish.asks() matches PublishAsk::Run(command) ==> is_publish_command(publish, command),
{
    law_publish_commands_are_these(publish);
}

#[verifier::spinoff_prover]
proof fn lemma_idle_answers(publish: PublishView, outcome: Result<Output, git::Error>)
    requires
        publish.stage is Ended || publish.stage.persists(),
    ensures
        publish.after(PublishEvent::Ran(outcome)) == publish,
{
}

proof fn lemma_step_agrees(scene: Scene, start: Scene, event: PublishEvent)
    requires
        scene.agrees(start),
        scene.is_answered(event),
    ensures
        scene.after(event).agrees(start),
{
    let publish = scene.publish;
    law_publication_goes_forward(publish, event);
    lemma_asks(publish);
    match event {
        PublishEvent::Ran(outcome) => match publish.asks() {
            PublishAsk::Run(command) => {
                lemma_answers_tell(scene, command, outcome);
                let branches = scene.branches.after(scene.place(), command, outcome);
                if publish.stage is Update {
                    if ended_well(outcome) {
                        lemma_update_swaps(
                            scene.branches,
                            publish,
                            command,
                            scene.place(),
                            outcome,
                        );
                    }
                    lemma_swap_agrees(scene, start, outcome, branches);
                } else {
                    lemma_only_update_swaps(publish, command, scene.place());
                    assert(branches == scene.branches);
                    if publish.stage.rank() < 14 {
                        lemma_choice_agrees(scene, start, outcome);
                    } else if publish.stage.rank() < 26 {
                        lemma_prepared_agrees(scene, start, outcome);
                    } else {
                        lemma_imported_agrees(scene, start, outcome);
                    }
                }
            },
            _ => {
                lemma_idle_answers(publish, outcome);
            },
        },
        PublishEvent::Persisted(done) => {
            if publish.stage.persists() {
                lemma_persisting_agrees(scene, start, done);
            }
        },
    }
}

proof fn lemma_run_agrees(start: Scene, events: Seq<PublishEvent>)
    requires
        start.agrees(start),
        start.is_answered_all(events),
    ensures
        start.after_all(events).agrees(start),
    decreases events.len(),
{
    if events.len() > 0 {
        lemma_run_agrees(start, events.drop_last());
        lemma_step_agrees(start.after_all(events.drop_last()), start, events.last());
    }
}

/// A publication that succeeds, while nobody else moves the two branches, leaves the authority's branch
/// at the commit that the session's branch points at; that commit is the one it pointed at before or a
/// descendant of it, and it is what the answer and the record say. However a publication goes, the
/// branch is set to nothing else, and not before its swap. (One that has been swapped already only has
/// its record to settle.)
pub proof fn law_published_branch_is_the_sessions(
    authority: AuthorityView,
    record: SessionView,
    common_path: Seq<u8>,
    branches: Branches,
    events: Seq<PublishEvent>,
)
    requires
        !(record.journal is CasCommitted),
        (Scene {
            publish: PublishView::start(authority, record, common_path),
            branches,
        }).is_answered_all(events),
    ensures
        ({
            let done = Scene {
                publish: PublishView::start(authority, record, common_path),
                branches,
            }.after_all(events);
            &&& done.branches.session == branches.session
            &&& done.publish.outcome matches Some(Ok(text)) ==> {
                &&& branches.session matches Some(tip) && utf8(done.publish.fields.new) == tip
                &&& done.branches.authority == branches.session
                &&& is_fast_forward(branches, branches.authority, branches.session->0)
                &&& text == "published "@ + record.target + " "@ + done.publish.fields.new
                &&& done.publish.record.journal is Idle
                &&& done.publish.record.target == record.target
                &&& done.publish.record.expected_old == Some(done.publish.fields.new)
                    || branches.authority == branches.session
            }
            &&& done.publish.stage.rank() <= 35 ==> done.branches.authority == branches.authority
            &&& done.branches.authority == branches.authority || done.branches.authority
                == branches.session
        }),
{
    let start = Scene { publish: PublishView::start(authority, record, common_path), branches };
    law_publication_begins_sound(authority, record, common_path);
    lemma_start_agrees(authority, record, common_path, branches);
    lemma_run_agrees(start, events);
}

#[verifier::spinoff_prover]
proof fn lemma_start_agrees(
    authority: AuthorityView,
    record: SessionView,
    common_path: Seq<u8>,
    branches: Branches,
)
    requires
        !(record.journal is CasCommitted),
        PublishView::start(authority, record, common_path).is_sound(),
    ensures
        ({
            let start = Scene {
                publish: PublishView::start(authority, record, common_path),
                branches,
            };
            &&& start.agrees(start)
            &&& start.publish.record == record
        }),
{
}

/// The branch that is published to is the one that the record of the session names.
pub proof fn law_published_branch_is_the_target(
    authority: AuthorityView,
    record: SessionView,
    common_path: Seq<u8>,
    target: Seq<u8>,
)
    requires
        record.target == crate::notation::hex_text(target),
        PublishView::start(authority, record, common_path).outcome is None,
    ensures
        PublishView::start(authority, record, common_path).target == target,
        PublishView::start(authority, record, common_path).authority == authority,
        PublishView::start(authority, record, common_path).common_path == common_path,
{
    crate::notation::lemma_hex_text(target);
}

} // verus!
