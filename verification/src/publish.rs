//! Publishing: the commit that a session's branch points at becomes what its authority's branch points
//! at, by one compare-and-swap that is made at most once.

use crate::authority::{failure, or_fail, Authority, AuthorityView, Error, Failure};
use crate::bytes::{optional_view, same_text, utf8, utf8_text};
use crate::digest::digest_text;
use crate::git::{self, Output};
use crate::session::{
    frozen_failure, frozen_publish_fields, optional_text, publish_committed_recovery,
    publish_recovery, publish_success, publish_target, publish_txid, success_text, target_failure,
    Frozen, JournalView, Publication, PublishFields, PublishJournal, SessionRecord, SessionView,
};
use crate::session_git::{
    asks_relation, audit_authority_config, authority_config_command, authority_target_command,
    authority_target_commit, authority_unchanged_failure, borrowed_bytes, branch_reference,
    checked_out_failure, closure_failure, config_failure, ensure_authority_config,
    ensure_authority_expected_old, ensure_private_target, ensure_publish_relation,
    ensure_publish_target_unchecked_out, import_failure, import_publish_objects,
    import_publish_objects_command, imported_closure_command, imported_commit_command,
    imported_failure, old_text, private_target_command, private_target_commit,
    private_target_failure, private_unchanged_failure, publish_relation_command,
    publish_target_failure, relation_failure, same_target, target_commit_failure,
    target_commit_value, update_publish_ref, update_publish_ref_command, validate_publish_target,
    validate_publish_target_command, verify_authority_closure, verify_imported_commit,
    worktree_list_command, Command, CommandView,
};
use vstd::prelude::*;

verus! {

/// Where a publication stands. What it asks for at each stage is what the stage is named after.
#[derive(Clone, Copy, Debug, PartialEq, Eq, Structural)]
pub enum PublishStage {
    ChooseAudit,
    ChooseTarget,
    ChooseOld,
    ChooseNew,
    ChooseRelation,
    /// The authority already has the commit: nothing is written, all of it is checked once more.
    SameCommit,
    SameClosure,
    SameAudit,
    SameTarget,
    SamePrivate,
    SameOld,
    FreshCheckedOut,
    FreshOld,
    PersistPrepared,
    PreparedAudit,
    PreparedTarget,
    PreparedCheckedOut,
    PreparedPrivate,
    PreparedRelation,
    PreparedOld,
    Import,
    ImportedAudit,
    ImportedPrivate,
    ImportedCommit,
    ImportedClosure,
    PersistImported,
    ReadyAudit,
    ReadyTarget,
    ReadyPrivate,
    ReadyRelation,
    ReadyCommit,
    ReadyClosure,
    ReadyOld,
    ReadyCheckedOut,
    PersistAttempted,
    Update,
    PersistCommitted,
    PersistFinal,
    /// The branch of the authority has moved: what was frozen is given up.
    PersistAborted,
    Ended,
}

/// The publication of a session's commit, under the session's exclusive lease.
#[derive(Debug)]
pub struct Publish {
    pub authority: Authority,
    pub target: Vec<u8>,
    pub common_path: Vec<u8>,
    pub record: SessionRecord,
    pub fields: PublishFields,
    pub stage: PublishStage,
    pub outcome: Option<Result<String, Error>>,
}

pub struct PublishView {
    pub authority: AuthorityView,
    pub target: Seq<u8>,
    pub common_path: Seq<u8>,
    pub record: SessionView,
    pub fields: Frozen,
    pub stage: PublishStage,
    pub outcome: Option<Result<Seq<char>, Failure>>,
}

pub open spec fn told(outcome: Option<Result<String, Error>>) -> Option<Result<Seq<char>, Failure>> {
    match outcome {
        None => None,
        Some(Ok(text)) => Some(Ok(text@)),
        Some(Err(error)) => Some(Err(error@)),
    }
}

impl View for Publish {
    type V = PublishView;

    open spec fn view(&self) -> PublishView {
        PublishView {
            authority: self.authority@,
            target: self.target@,
            common_path: self.common_path@,
            record: self.record@,
            fields: self.fields@,
            stage: self.stage,
            outcome: told(self.outcome),
        }
    }
}

#[derive(Debug)]
pub enum PublishAction {
    /// Run Git.
    Run(Command),
    /// Replace the record of the session.
    Persist(SessionRecord),
    Nothing,
}

pub enum PublishAsk {
    Run(CommandView),
    Persist(SessionView),
    Nothing,
}

impl View for PublishAction {
    type V = PublishAsk;

    open spec fn view(&self) -> PublishAsk {
        match self {
            PublishAction::Run(command) => PublishAsk::Run(command@),
            PublishAction::Persist(record) => PublishAsk::Persist(record@),
            PublishAction::Nothing => PublishAsk::Nothing,
        }
    }
}

#[derive(Debug)]
pub enum PublishEvent {
    Ran(Result<Output, git::Error>),
    Persisted(Result<(), Error>),
}

impl PublishStage {
    pub open spec fn persists(self) -> bool {
        self is PersistPrepared || self is PersistImported || self is PersistAttempted
            || self is PersistCommitted || self is PersistFinal || self is PersistAborted
    }

    pub open spec fn is_same(self) -> bool {
        self is SameCommit || self is SameClosure || self is SameAudit || self is SameTarget
            || self is SamePrivate || self is SameOld
    }

    /// The order of the stages.
    pub open spec fn rank(self) -> int {
        match self {
            PublishStage::ChooseAudit => 0,
            PublishStage::ChooseTarget => 1,
            PublishStage::ChooseOld => 2,
            PublishStage::ChooseNew => 3,
            PublishStage::ChooseRelation => 4,
            PublishStage::SameCommit => 5,
            PublishStage::SameClosure => 6,
            PublishStage::SameAudit => 7,
            PublishStage::SameTarget => 8,
            PublishStage::SamePrivate => 9,
            PublishStage::SameOld => 10,
            PublishStage::FreshCheckedOut => 11,
            PublishStage::FreshOld => 12,
            PublishStage::PersistPrepared => 13,
            PublishStage::PreparedAudit => 14,
            PublishStage::PreparedTarget => 15,
            PublishStage::PreparedCheckedOut => 16,
            PublishStage::PreparedPrivate => 17,
            PublishStage::PreparedRelation => 18,
            PublishStage::PreparedOld => 19,
            PublishStage::Import => 20,
            PublishStage::ImportedAudit => 21,
            PublishStage::ImportedPrivate => 22,
            PublishStage::ImportedCommit => 23,
            PublishStage::ImportedClosure => 24,
            PublishStage::PersistImported => 25,
            PublishStage::ReadyAudit => 26,
            PublishStage::ReadyTarget => 27,
            PublishStage::ReadyPrivate => 28,
            PublishStage::ReadyRelation => 29,
            PublishStage::ReadyCommit => 30,
            PublishStage::ReadyClosure => 31,
            PublishStage::ReadyOld => 32,
            PublishStage::ReadyCheckedOut => 33,
            PublishStage::PersistAttempted => 34,
            PublishStage::Update => 35,
            PublishStage::PersistCommitted => 36,
            PublishStage::PersistFinal => 37,
            PublishStage::PersistAborted => 38,
            PublishStage::Ended => 39,
        }
    }
}

/// The configuration is safe, and it is still the one that was frozen.
pub open spec fn same_config_failure(outcome: Result<Output, git::Error>, fingerprint: Seq<char>) -> Option<
    Failure,
> {
    let f = config_failure(outcome);
    or_fail(
        f,
        digest_text(outcome->Ok_0.stdout@) == fingerprint,
        "PUBLISH_VERIFY_FAILED"@,
        "authority config changed during the publish transaction"@,
    )
}

fn same_config(outcome: Result<Output, git::Error>, fingerprint: &str) -> (same: Result<(), Error>)
    ensures
        failure(same) == same_config_failure(outcome, fingerprint@),
{
    let current = audit_authority_config(outcome)?;
    ensure_authority_config(current.as_str(), fingerprint)
}

/// The text of an object that Git printed.
pub open spec fn oid_text(oid: Option<Seq<u8>>) -> Option<Seq<char>> {
    match oid {
        Some(bytes) => Some(utf8_text(bytes)->0),
        None => None,
    }
}

/// The bytes of an optional text.
pub open spec fn oid_bytes(oid: Option<Seq<char>>) -> Option<Seq<u8>> {
    match oid {
        Some(text) => Some(utf8(text)),
        None => None,
    }
}

proof fn lemma_oid_text(oid: Option<Seq<char>>)
    ensures
        oid_text(oid_bytes(oid)) == oid,
{
    if oid is Some {
        vstd::utf8::encode_utf8_decode_utf8(oid->0);
        vstd::utf8::encode_utf8_valid_utf8(oid->0);
    }
}

impl PublishView {
    pub open spec fn at(self, stage: PublishStage) -> PublishView {
        PublishView { stage, ..self }
    }

    pub open spec fn failed(self, error: Failure) -> PublishView {
        PublishView { stage: PublishStage::Ended, outcome: Some(Err(error)), ..self }
    }

    pub open spec fn succeeded(self) -> PublishView {
        PublishView {
            stage: PublishStage::Ended,
            outcome: Some(Ok(success_text(self.record, self.fields.new))),
            ..self
        }
    }

    pub open spec fn step(self, checked: Option<Failure>, next: PublishStage) -> PublishView {
        match checked {
            Some(error) => self.failed(error),
            None => self.at(next),
        }
    }

    /// Goes on with what the record has frozen, which has to belong to it.
    pub open spec fn enter(self, stage: PublishStage) -> PublishView {
        match frozen_failure(self.authority, self.record, self.target) {
            Some(error) => self.failed(error),
            None => PublishView { stage, fields: self.record.journal.frozen()->0, ..self },
        }
    }

    /// Goes on to the ancestry, where it has to be asked for.
    pub open spec fn relate(self, asked: PublishStage, next: PublishStage) -> PublishView {
        if asks_relation(self.fields.expected_old, self.fields.new) {
            self.at(asked)
        } else {
            self.at(next)
        }
    }

    /// The publication has its identifier; what is to be published may stand already.
    pub open spec fn decided(self) -> PublishView {
        let txid = Publication::of(
            self.authority,
            self.record,
            self.target,
            self.fields.expected_old,
            self.fields.new,
            self.fields.config_fingerprint,
        ).txid();
        let known = PublishView { fields: Frozen { txid, ..self.fields }, ..self };
        if self.fields.expected_old == Some(self.fields.new) {
            known.at(PublishStage::SameCommit)
        } else {
            known.at(PublishStage::FreshCheckedOut)
        }
    }

    pub open spec fn learn_config(self, outcome: Result<Output, git::Error>) -> PublishView {
        match config_failure(outcome) {
            Some(error) => self.failed(error),
            None => PublishView {
                fields: Frozen {
                    config_fingerprint: digest_text(outcome->Ok_0.stdout@),
                    ..self.fields
                },
                stage: PublishStage::ChooseTarget,
                ..self
            },
        }
    }

    pub open spec fn learn_old(self, outcome: Result<Output, git::Error>) -> PublishView {
        match target_commit_failure(outcome, self.target, self.authority.object_format) {
            Some(error) => self.failed(error),
            None => PublishView {
                fields: Frozen {
                    expected_old: oid_text(target_commit_value(outcome)),
                    ..self.fields
                },
                stage: PublishStage::ChooseNew,
                ..self
            },
        }
    }

    pub open spec fn learn_new(self, outcome: Result<Output, git::Error>) -> PublishView {
        match private_target_failure(outcome, self.target, self.authority.object_format) {
            Some(error) => self.failed(error),
            None => {
                let learned = PublishView {
                    fields: Frozen {
                        new: oid_text(target_commit_value(outcome))->0,
                        ..self.fields
                    },
                    ..self
                };
                if asks_relation(learned.fields.expected_old, learned.fields.new) {
                    learned.at(PublishStage::ChooseRelation)
                } else {
                    learned.decided()
                }
            },
        }
    }

    /// Looks whether the branch of the authority still points at what was frozen.
    pub open spec fn compare(self, outcome: Result<Output, git::Error>, next: PublishStage) -> PublishView {
        match target_commit_failure(outcome, self.target, self.authority.object_format) {
            Some(error) => self.failed(error),
            None => if target_commit_value(outcome) == oid_bytes(self.fields.expected_old) {
                self.at(next)
            } else {
                self.at(PublishStage::PersistAborted)
            },
        }
    }

    pub open spec fn private_failure(self, outcome: Result<Output, git::Error>) -> Option<Failure> {
        private_unchanged_failure(
            outcome,
            self.target,
            self.authority.object_format,
            self.fields.new,
        )
    }

    pub open spec fn old_failure(self, outcome: Result<Output, git::Error>) -> Option<Failure> {
        authority_unchanged_failure(
            outcome,
            self.target,
            self.authority.object_format,
            oid_bytes(self.fields.expected_old),
        )
    }

    pub open spec fn after_choice(self, outcome: Result<Output, git::Error>) -> PublishView {
        match self.stage {
            PublishStage::ChooseAudit => self.learn_config(outcome),
            PublishStage::ChooseTarget => self.step(
                publish_target_failure(outcome),
                PublishStage::ChooseOld,
            ),
            PublishStage::ChooseOld => self.learn_old(outcome),
            PublishStage::ChooseNew => self.learn_new(outcome),
            PublishStage::ChooseRelation => match relation_failure(outcome) {
                Some(error) => self.failed(error),
                None => self.decided(),
            },
            PublishStage::SameCommit => self.step(
                imported_failure(outcome),
                PublishStage::SameClosure,
            ),
            PublishStage::SameClosure => self.step(
                closure_failure(outcome),
                PublishStage::SameAudit,
            ),
            PublishStage::SameAudit => self.step(
                same_config_failure(outcome, self.fields.config_fingerprint),
                PublishStage::SameTarget,
            ),
            PublishStage::SameTarget => self.step(
                publish_target_failure(outcome),
                PublishStage::SamePrivate,
            ),
            PublishStage::SamePrivate => self.step(
                self.private_failure(outcome),
                PublishStage::SameOld,
            ),
            PublishStage::SameOld => match self.old_failure(outcome) {
                Some(error) => self.failed(error),
                None => self.succeeded(),
            },
            PublishStage::FreshCheckedOut => self.step(
                checked_out_failure(outcome, self.target),
                PublishStage::FreshOld,
            ),
            PublishStage::FreshOld => self.step(
                self.old_failure(outcome),
                PublishStage::PersistPrepared,
            ),
            _ => self,
        }
    }

    pub open spec fn after_prepared(self, outcome: Result<Output, git::Error>) -> PublishView {
        match self.stage {
            PublishStage::PreparedAudit => self.step(
                same_config_failure(outcome, self.fields.config_fingerprint),
                PublishStage::PreparedTarget,
            ),
            PublishStage::PreparedTarget => self.step(
                publish_target_failure(outcome),
                PublishStage::PreparedCheckedOut,
            ),
            PublishStage::PreparedCheckedOut => self.step(
                checked_out_failure(outcome, self.target),
                PublishStage::PreparedPrivate,
            ),
            PublishStage::PreparedPrivate => match self.private_failure(outcome) {
                Some(error) => self.failed(error),
                None => self.relate(PublishStage::PreparedRelation, PublishStage::PreparedOld),
            },
            PublishStage::PreparedRelation => self.step(
                relation_failure(outcome),
                PublishStage::PreparedOld,
            ),
            PublishStage::PreparedOld => self.compare(outcome, PublishStage::Import),
            PublishStage::Import => self.step(
                import_failure(outcome),
                PublishStage::ImportedAudit,
            ),
            PublishStage::ImportedAudit => self.step(
                same_config_failure(outcome, self.fields.config_fingerprint),
                PublishStage::ImportedPrivate,
            ),
            PublishStage::ImportedPrivate => self.step(
                self.private_failure(outcome),
                PublishStage::ImportedCommit,
            ),
            PublishStage::ImportedCommit => self.step(
                imported_failure(outcome),
                PublishStage::ImportedClosure,
            ),
            PublishStage::ImportedClosure => self.step(
                closure_failure(outcome),
                PublishStage::PersistImported,
            ),
            _ => self,
        }
    }

    pub open spec fn after_imported(self, outcome: Result<Output, git::Error>) -> PublishView {
        match self.stage {
            PublishStage::ReadyAudit => self.step(
                same_config_failure(outcome, self.fields.config_fingerprint),
                PublishStage::ReadyTarget,
            ),
            PublishStage::ReadyTarget => self.step(
                publish_target_failure(outcome),
                PublishStage::ReadyPrivate,
            ),
            PublishStage::ReadyPrivate => match self.private_failure(outcome) {
                Some(error) => self.failed(error),
                None => self.relate(PublishStage::ReadyRelation, PublishStage::ReadyCommit),
            },
            PublishStage::ReadyRelation => self.step(
                relation_failure(outcome),
                PublishStage::ReadyCommit,
            ),
            PublishStage::ReadyCommit => self.step(
                imported_failure(outcome),
                PublishStage::ReadyClosure,
            ),
            PublishStage::ReadyClosure => self.step(
                closure_failure(outcome),
                PublishStage::ReadyOld,
            ),
            PublishStage::ReadyOld => self.compare(outcome, PublishStage::ReadyCheckedOut),
            PublishStage::ReadyCheckedOut => self.step(
                checked_out_failure(outcome, self.target),
                PublishStage::PersistAttempted,
            ),
            PublishStage::Update => match outcome {
                Err(_) => self.failed(
                    (
                        "PUBLISH_RECOVERY_REQUIRED"@,
                        "publish journal outcome requires recovery: "@
                            + "publish CAS result is unknown"@,
                    ),
                ),
                Ok(output) => if output.status.succeeded() {
                    self.at(PublishStage::PersistCommitted)
                } else {
                    self.failed(
                        (
                            "PUBLISH_RECOVERY_REQUIRED"@,
                            "authority rejected the publish compare-and-swap and it cannot be replayed"@,
                        ),
                    )
                },
            },
            _ => self,
        }
    }

    /// The record that is to replace the one that stands.
    pub open spec fn proposed(self) -> SessionView {
        match self.stage {
            PublishStage::PersistPrepared => SessionView {
                journal: JournalView::Prepared(self.fields),
                ..self.record
            },
            PublishStage::PersistImported => SessionView {
                journal: JournalView::ObjectsImported(self.fields),
                ..self.record
            },
            PublishStage::PersistAttempted => SessionView {
                journal: JournalView::CasAttempted(self.fields),
                ..self.record
            },
            PublishStage::PersistCommitted => SessionView {
                journal: JournalView::CasCommitted(self.fields),
                ..self.record
            },
            PublishStage::PersistFinal => self.record.publish(self.fields.new),
            _ => SessionView { journal: JournalView::Idle, ..self.record },
        }
    }

    pub open spec fn after_persisting(self, done: Result<(), Error>) -> PublishView {
        match done {
            Err(error) => if self.stage is PersistCommitted || self.stage is PersistFinal {
                self.failed(
                    (
                        "PUBLISH_COMMITTED_RECOVERY_REQUIRED"@,
                        "publish commit outcome requires recovery: "@ + error@.1,
                    ),
                )
            } else {
                self.failed(
                    (
                        "PUBLISH_RECOVERY_REQUIRED"@,
                        "publish journal outcome requires recovery: "@ + error@.1,
                    ),
                )
            },
            Ok(_) => {
                let replaced = PublishView { record: self.proposed(), ..self };
                match self.stage {
                    PublishStage::PersistPrepared => replaced.enter(PublishStage::PreparedAudit),
                    PublishStage::PersistImported => replaced.enter(PublishStage::ReadyAudit),
                    PublishStage::PersistAttempted => replaced.at(PublishStage::Update),
                    PublishStage::PersistCommitted => replaced.enter(PublishStage::PersistFinal),
                    PublishStage::PersistFinal => replaced.succeeded(),
                    _ => replaced.failed(
                        (
                            "PUBLISH_CONFLICT"@,
                            "authority target changed before the publish compare-and-swap"@,
                        ),
                    ),
                }
            },
        }
    }

    /// The publication after the driver's answer. An answer to another question changes nothing.
    pub open spec fn after(self, event: PublishEvent) -> PublishView {
        match event {
            PublishEvent::Ran(outcome) => if self.stage.rank() < 14 {
                self.after_choice(outcome)
            } else if self.stage.rank() < 26 {
                self.after_prepared(outcome)
            } else {
                self.after_imported(outcome)
            },
            PublishEvent::Persisted(done) => if self.stage.persists() {
                self.after_persisting(done)
            } else {
                self
            },
        }
    }

    /// A publication begins, or goes on where an earlier one stopped. One whose compare-and-swap may
    /// have been made is never gone on with.
    pub open spec fn start(
        authority: AuthorityView,
        record: SessionView,
        common_path: Seq<u8>,
    ) -> PublishView {
        let blank = PublishView {
            authority,
            target: crate::session::decoded(record.target),
            common_path,
            record,
            fields: Frozen {
                txid: Seq::empty(),
                new: Seq::empty(),
                expected_old: None,
                config_fingerprint: Seq::empty(),
            },
            stage: PublishStage::ChooseAudit,
            outcome: None,
        };
        match target_failure(record) {
            Some(error) => PublishView { target: Seq::empty(), ..blank }.failed(error),
            None => match record.journal {
                JournalView::Idle => blank,
                JournalView::Prepared(_) => blank.enter(PublishStage::PreparedAudit),
                JournalView::ObjectsImported(_) => blank.enter(PublishStage::ReadyAudit),
                JournalView::CasAttempted(_) => match frozen_failure(
                    authority,
                    record,
                    blank.target,
                ) {
                    Some(error) => blank.failed(error),
                    None => blank.failed(
                        (
                            "PUBLISH_RECOVERY_REQUIRED"@,
                            "a publish compare-and-swap was attempted and cannot be replayed"@,
                        ),
                    ),
                },
                JournalView::CasCommitted(_) => blank.enter(PublishStage::PersistFinal),
            },
        }
    }
}

impl PublishView {
    pub open spec fn config_args(self) -> CommandView {
        CommandView::within(self.authority.canonical).word("config"@).word("--null"@).word(
            "--show-origin"@,
        ).word("--show-scope"@).word("--includes"@).word("--list"@)
    }

    pub open spec fn target_args(self) -> CommandView {
        CommandView::within(self.authority.canonical).word("check-ref-format"@).word(
            "--branch"@,
        ).path(self.target)
    }

    pub open spec fn old_args(self) -> CommandView {
        CommandView::within(self.authority.canonical).word("for-each-ref"@).word(
            "--format=%(refname) %(objectname) %(objecttype) %(symref)"@,
        ).path(branch_reference(self.target))
    }

    pub open spec fn private_args(self) -> CommandView {
        CommandView::isolated(Some(self.common_path)).word("for-each-ref"@).word(
            "--format=%(refname) %(objectname) %(objecttype) %(symref)"@,
        ).path(branch_reference(self.target))
    }

    pub open spec fn relation_args(self) -> CommandView {
        CommandView::isolated(Some(self.common_path)).word("merge-base"@).word(
            "--is-ancestor"@,
        ).word(self.fields.expected_old->0).word(self.fields.new)
    }

    pub open spec fn worktrees_args(self) -> CommandView {
        CommandView::within(self.authority.canonical).word("worktree"@).word("list"@).word(
            "--porcelain"@,
        )
    }

    pub open spec fn commit_args(self) -> CommandView {
        CommandView::within(self.authority.canonical).word("cat-file"@).word("-e"@).path(
            utf8(self.fields.new) + utf8("^{commit}"@),
        )
    }

    pub open spec fn closure_args(self) -> CommandView {
        CommandView::within(self.authority.canonical).word("fsck"@).word(
            "--connectivity-only"@,
        ).word("--no-reflogs"@).word("--no-dangling"@).word("--no-progress"@).path(
            utf8(self.fields.new) + utf8("^{commit}"@),
        )
    }

    pub open spec fn import_args(self) -> CommandView {
        CommandView::within(self.authority.canonical).word("fetch"@).word("--quiet"@).word(
            "--no-write-fetch-head"@,
        ).word("--no-tags"@).word("--no-auto-maintenance"@).word("--no-write-commit-graph"@).word(
            "--recurse-submodules=no"@,
        ).path(self.common_path).word(self.fields.new)
    }

    /// The compare-and-swap: from what was frozen as the old commit to what was frozen as the new one.
    pub open spec fn update_args(self) -> CommandView {
        CommandView::within(self.authority.canonical).word("update-ref"@).word("--no-deref"@).path(
            branch_reference(self.target),
        ).word(self.fields.new).word(
            old_text(self.fields.expected_old, self.authority.object_format),
        )
    }

    /// What holds of a publication at each of its stages: the ancestry is only asked for where there is
    /// one, and what is written or updated is what the record has frozen.
    pub open spec fn is_sound(self) -> bool {
        &&& (self.stage is ChooseRelation || self.stage is PreparedRelation
            || self.stage is ReadyRelation) ==> asks_relation(
            self.fields.expected_old,
            self.fields.new,
        )
        &&& self.stage is Update ==> self.record.journal == JournalView::CasAttempted(self.fields)
        &&& self.stage is PersistCommitted ==> self.record.journal == JournalView::CasAttempted(
            self.fields,
        )
        &&& self.stage is PersistFinal ==> self.record.journal == JournalView::CasCommitted(
            self.fields,
        )
        &&& self.stage is Ended <==> self.outcome is Some
        &&& self.stage.rank() < 14 ==> self.record.journal is Idle
    }

    pub open spec fn asks(self) -> PublishAsk {
        match self.stage {
            PublishStage::ChooseAudit | PublishStage::SameAudit | PublishStage::PreparedAudit
            | PublishStage::ImportedAudit | PublishStage::ReadyAudit => PublishAsk::Run(
                self.config_args(),
            ),
            PublishStage::ChooseTarget | PublishStage::SameTarget | PublishStage::PreparedTarget
            | PublishStage::ReadyTarget => PublishAsk::Run(self.target_args()),
            PublishStage::ChooseOld | PublishStage::SameOld | PublishStage::FreshOld
            | PublishStage::PreparedOld | PublishStage::ReadyOld => PublishAsk::Run(
                self.old_args(),
            ),
            PublishStage::ChooseNew | PublishStage::SamePrivate | PublishStage::PreparedPrivate
            | PublishStage::ImportedPrivate | PublishStage::ReadyPrivate => PublishAsk::Run(
                self.private_args(),
            ),
            PublishStage::ChooseRelation | PublishStage::PreparedRelation
            | PublishStage::ReadyRelation => if asks_relation(
                self.fields.expected_old,
                self.fields.new,
            ) {
                PublishAsk::Run(self.relation_args())
            } else {
                PublishAsk::Nothing
            },
            PublishStage::FreshCheckedOut | PublishStage::PreparedCheckedOut
            | PublishStage::ReadyCheckedOut => PublishAsk::Run(self.worktrees_args()),
            PublishStage::SameCommit | PublishStage::ImportedCommit | PublishStage::ReadyCommit => {
                PublishAsk::Run(self.commit_args())
            },
            PublishStage::SameClosure | PublishStage::ImportedClosure
            | PublishStage::ReadyClosure => PublishAsk::Run(self.closure_args()),
            PublishStage::Import => PublishAsk::Run(self.import_args()),
            PublishStage::Update => PublishAsk::Run(self.update_args()),
            PublishStage::Ended => PublishAsk::Nothing,
            PublishStage::PersistPrepared | PublishStage::PersistImported
            | PublishStage::PersistAttempted | PublishStage::PersistCommitted
            | PublishStage::PersistFinal | PublishStage::PersistAborted => PublishAsk::Persist(
                self.proposed(),
            ),
        }
    }
}

fn borrow(text: &Option<String>) -> (borrowed: Option<&str>)
    ensures
        optional_text(borrowed) == optional_view(*text),
        borrowed_bytes(borrowed) == oid_bytes(optional_view(*text)),
{
    match text {
        Some(value) => Some(value.as_str()),
        None => None,
    }
}

impl Publish {
    pub fn start(authority: &Authority, record: SessionRecord, common_path: Vec<u8>) -> (publish: Self)
        ensures
            publish@ == PublishView::start(authority@, record@, common_path@),
    {
        let fields = PublishFields {
            txid: String::new(),
            new: String::new(),
            expected_old: None,
            config_fingerprint: String::new(),
        };
        proof {
            assert(fields@.txid =~= Seq::<char>::empty());
            assert(fields@.new =~= Seq::<char>::empty());
            assert(fields@.config_fingerprint =~= Seq::<char>::empty());
        }
        let found = publish_target(&record);
        let blank = Publish {
            authority: authority.copy(),
            target: Vec::new(),
            common_path,
            record,
            fields,
            stage: PublishStage::ChooseAudit,
            outcome: None,
        };
        proof {
            assert(blank.target@ =~= Seq::<u8>::empty());
        }
        match found {
            Err(error) => blank.failed(error),
            Ok(target) => {
                let blank = Publish { target, ..blank };
                match &blank.record.journal {
                    PublishJournal::Idle => blank,
                    PublishJournal::Prepared { .. } => blank.enter(PublishStage::PreparedAudit),
                    PublishJournal::ObjectsImported { .. } => blank.enter(PublishStage::ReadyAudit),
                    PublishJournal::CasAttempted { .. } => {
                        match frozen_publish_fields(
                            &blank.authority,
                            &blank.record,
                            blank.target.as_slice(),
                        ) {
                            Err(error) => blank.failed(error),
                            Ok(_) => blank.failed(
                                Error::new(
                                    "PUBLISH_RECOVERY_REQUIRED",
                                    "a publish compare-and-swap was attempted and cannot be replayed",
                                ),
                            ),
                        }
                    },
                    PublishJournal::CasCommitted { .. } => blank.enter(PublishStage::PersistFinal),
                }
            },
        }
    }

    fn at(self, stage: PublishStage) -> (next: Self)
        ensures
            next@ == self@.at(stage),
    {
        Publish { stage, ..self }
    }

    fn failed(self, error: Error) -> (next: Self)
        ensures
            next@ == self@.failed(error@),
    {
        Publish { stage: PublishStage::Ended, outcome: Some(Err(error)), ..self }
    }

    fn succeeded(self) -> (next: Self)
        ensures
            next@ == self@.succeeded(),
    {
        let text = publish_success(&self.record, self.fields.new.as_str());
        Publish { stage: PublishStage::Ended, outcome: Some(Ok(text)), ..self }
    }

    fn step(self, checked: Result<(), Error>, next: PublishStage) -> (after: Self)
        ensures
            after@ == self@.step(failure(checked), next),
    {
        match checked {
            Err(error) => self.failed(error),
            Ok(_) => self.at(next),
        }
    }

    fn enter(self, stage: PublishStage) -> (next: Self)
        ensures
            next@ == self@.enter(stage),
    {
        match frozen_publish_fields(&self.authority, &self.record, self.target.as_slice()) {
            Err(error) => self.failed(error),
            Ok(fields) => Publish { stage, fields, ..self },
        }
    }

    fn asks_ancestry(&self) -> (asks: bool)
        ensures
            asks == asks_relation(self@.fields.expected_old, self@.fields.new),
    {
        match &self.fields.expected_old {
            None => false,
            Some(old) => !same_text(old.as_str(), self.fields.new.as_str()),
        }
    }

    fn relate(self, asked: PublishStage, next: PublishStage) -> (after: Self)
        ensures
            after@ == self@.relate(asked, next),
    {
        if self.asks_ancestry() {
            self.at(asked)
        } else {
            self.at(next)
        }
    }

    fn decided(self) -> (next: Self)
        ensures
            next@ == self@.decided(),
    {
        let txid = publish_txid(
            &self.authority,
            &self.record,
            self.target.as_slice(),
            borrow(&self.fields.expected_old),
            self.fields.new.as_str(),
            self.fields.config_fingerprint.as_str(),
        );
        let same: bool = match &self.fields.expected_old {
            Some(old) => same_text(old.as_str(), self.fields.new.as_str()),
            None => false,
        };
        let Publish { authority, target, common_path, record, fields, stage, outcome } = self;
        let PublishFields { txid: _, new, expected_old, config_fingerprint } = fields;
        let fields = PublishFields { txid, new, expected_old, config_fingerprint };
        let stage = if same {
            PublishStage::SameCommit
        } else {
            PublishStage::FreshCheckedOut
        };
        Publish { authority, target, common_path, record, fields, stage, outcome }
    }

    fn learn_config(self, answer: Result<Output, git::Error>) -> (next: Self)
        ensures
            next@ == self@.learn_config(answer),
    {
        match audit_authority_config(answer) {
            Err(error) => self.failed(error),
            Ok(config_fingerprint) => {
                let fields = PublishFields { config_fingerprint, ..self.fields };
                Publish { fields, stage: PublishStage::ChooseTarget, ..self }
            },
        }
    }

    fn learn_old(self, answer: Result<Output, git::Error>) -> (next: Self)
        ensures
            next@ == self@.learn_old(answer),
    {
        match authority_target_commit(
            answer,
            self.target.as_slice(),
            self.authority.object_format.as_str(),
        ) {
            Err(error) => self.failed(error),
            Ok(expected_old) => {
                proof {
                    lemma_oid_text(optional_view(expected_old));
                }
                let fields = PublishFields { expected_old, ..self.fields };
                Publish { fields, stage: PublishStage::ChooseNew, ..self }
            },
        }
    }

    fn learn_new(self, answer: Result<Output, git::Error>) -> (next: Self)
        ensures
            next@ == self@.learn_new(answer),
    {
        match private_target_commit(
            answer,
            self.target.as_slice(),
            self.authority.object_format.as_str(),
        ) {
            Err(error) => self.failed(error),
            Ok(new) => {
                proof {
                    lemma_oid_text(Some(new@));
                }
                let fields = PublishFields { new, ..self.fields };
                let learned = Publish { fields, ..self };
                if learned.asks_ancestry() {
                    learned.at(PublishStage::ChooseRelation)
                } else {
                    learned.decided()
                }
            },
        }
    }

    fn compare(self, answer: Result<Output, git::Error>, next: PublishStage) -> (after: Self)
        ensures
            after@ == self@.compare(answer, next),
    {
        match authority_target_commit(
            answer,
            self.target.as_slice(),
            self.authority.object_format.as_str(),
        ) {
            Err(error) => self.failed(error),
            Ok(oid) => if same_target(&oid, borrow(&self.fields.expected_old)) {
                self.at(next)
            } else {
                self.at(PublishStage::PersistAborted)
            },
        }
    }

    fn private_unchanged(&self, answer: Result<Output, git::Error>) -> (same: Result<(), Error>)
        ensures
            failure(same) == self@.private_failure(answer),
    {
        ensure_private_target(
            answer,
            self.target.as_slice(),
            self.authority.object_format.as_str(),
            self.fields.new.as_str(),
        )
    }

    fn old_unchanged(&self, answer: Result<Output, git::Error>) -> (same: Result<(), Error>)
        ensures
            failure(same) == self@.old_failure(answer),
    {
        ensure_authority_expected_old(
            answer,
            self.target.as_slice(),
            self.authority.object_format.as_str(),
            borrow(&self.fields.expected_old),
        )
    }

    fn config_unchanged(&self, answer: Result<Output, git::Error>) -> (same: Result<(), Error>)
        ensures
            failure(same) == same_config_failure(answer, self@.fields.config_fingerprint),
    {
        same_config(answer, self.fields.config_fingerprint.as_str())
    }

    fn not_checked_out(&self, answer: Result<Output, git::Error>) -> (checked: Result<(), Error>)
        ensures
            failure(checked) == checked_out_failure(answer, self@.target),
    {
        ensure_publish_target_unchecked_out(answer, self.target.as_slice())
    }

    fn after_choice(self, answer: Result<Output, git::Error>) -> (next: Self)
        ensures
            next@ == self@.after_choice(answer),
    {
        match self.stage {
            PublishStage::ChooseAudit => self.learn_config(answer),
            PublishStage::ChooseTarget => self.step(
                validate_publish_target(answer),
                PublishStage::ChooseOld,
            ),
            PublishStage::ChooseOld => self.learn_old(answer),
            PublishStage::ChooseNew => self.learn_new(answer),
            PublishStage::ChooseRelation => match ensure_publish_relation(answer) {
                Err(error) => self.failed(error),
                Ok(_) => self.decided(),
            },
            PublishStage::SameCommit => self.step(
                verify_imported_commit(answer),
                PublishStage::SameClosure,
            ),
            PublishStage::SameClosure => self.step(
                verify_authority_closure(answer),
                PublishStage::SameAudit,
            ),
            PublishStage::SameAudit => {
                let checked = self.config_unchanged(answer);
                self.step(checked, PublishStage::SameTarget)
            },
            PublishStage::SameTarget => self.step(
                validate_publish_target(answer),
                PublishStage::SamePrivate,
            ),
            PublishStage::SamePrivate => {
                let checked = self.private_unchanged(answer);
                self.step(checked, PublishStage::SameOld)
            },
            PublishStage::SameOld => match self.old_unchanged(answer) {
                Err(error) => self.failed(error),
                Ok(_) => self.succeeded(),
            },
            PublishStage::FreshCheckedOut => {
                let checked = self.not_checked_out(answer);
                self.step(checked, PublishStage::FreshOld)
            },
            PublishStage::FreshOld => {
                let checked = self.old_unchanged(answer);
                self.step(checked, PublishStage::PersistPrepared)
            },
            _ => self,
        }
    }

    /// A publication whose intention is recorded: its objects are brought to the authority.
    fn publish_prepared(self, answer: Result<Output, git::Error>) -> (next: Self)
        ensures
            next@ == self@.after_prepared(answer),
    {
        match self.stage {
            PublishStage::PreparedAudit => {
                let checked = self.config_unchanged(answer);
                self.step(checked, PublishStage::PreparedTarget)
            },
            PublishStage::PreparedTarget => self.step(
                validate_publish_target(answer),
                PublishStage::PreparedCheckedOut,
            ),
            PublishStage::PreparedCheckedOut => {
                let checked = self.not_checked_out(answer);
                self.step(checked, PublishStage::PreparedPrivate)
            },
            PublishStage::PreparedPrivate => match self.private_unchanged(answer) {
                Err(error) => self.failed(error),
                Ok(_) => self.relate(PublishStage::PreparedRelation, PublishStage::PreparedOld),
            },
            PublishStage::PreparedRelation => self.step(
                ensure_publish_relation(answer),
                PublishStage::PreparedOld,
            ),
            PublishStage::PreparedOld => self.compare(answer, PublishStage::Import),
            PublishStage::Import => self.step(
                import_publish_objects(answer),
                PublishStage::ImportedAudit,
            ),
            PublishStage::ImportedAudit => {
                let checked = self.config_unchanged(answer);
                self.step(checked, PublishStage::ImportedPrivate)
            },
            PublishStage::ImportedPrivate => {
                let checked = self.private_unchanged(answer);
                self.step(checked, PublishStage::ImportedCommit)
            },
            PublishStage::ImportedCommit => self.step(
                verify_imported_commit(answer),
                PublishStage::ImportedClosure,
            ),
            PublishStage::ImportedClosure => self.step(
                verify_authority_closure(answer),
                PublishStage::PersistImported,
            ),
            _ => self,
        }
    }

    /// A publication whose objects the authority has: its branch is set.
    fn publish_objects_imported(self, answer: Result<Output, git::Error>) -> (next: Self)
        ensures
            next@ == self@.after_imported(answer),
    {
        match self.stage {
            PublishStage::ReadyAudit => {
                let checked = self.config_unchanged(answer);
                self.step(checked, PublishStage::ReadyTarget)
            },
            PublishStage::ReadyTarget => self.step(
                validate_publish_target(answer),
                PublishStage::ReadyPrivate,
            ),
            PublishStage::ReadyPrivate => match self.private_unchanged(answer) {
                Err(error) => self.failed(error),
                Ok(_) => self.relate(PublishStage::ReadyRelation, PublishStage::ReadyCommit),
            },
            PublishStage::ReadyRelation => self.step(
                ensure_publish_relation(answer),
                PublishStage::ReadyCommit,
            ),
            PublishStage::ReadyCommit => self.step(
                verify_imported_commit(answer),
                PublishStage::ReadyClosure,
            ),
            PublishStage::ReadyClosure => self.step(
                verify_authority_closure(answer),
                PublishStage::ReadyOld,
            ),
            PublishStage::ReadyOld => self.compare(answer, PublishStage::ReadyCheckedOut),
            PublishStage::ReadyCheckedOut => {
                let checked = self.not_checked_out(answer);
                self.step(checked, PublishStage::PersistAttempted)
            },
            PublishStage::Update => match update_publish_ref(answer) {
                Err(error) => self.failed(publish_recovery(error)),
                Ok(updated) => if updated {
                    self.at(PublishStage::PersistCommitted)
                } else {
                    self.failed(
                        Error::new(
                            "PUBLISH_RECOVERY_REQUIRED",
                            "authority rejected the publish compare-and-swap and it cannot be replayed",
                        ),
                    )
                },
            },
            _ => self,
        }
    }

    fn proposed(&self) -> (record: SessionRecord)
        ensures
            record@ == self@.proposed(),
    {
        let fields = self.fields.copy();
        let PublishFields { txid, new, expected_old, config_fingerprint } = fields;
        match self.stage {
            PublishStage::PersistPrepared => self.record.with_journal(
                PublishJournal::Prepared { txid, new, expected_old, config_fingerprint },
            ),
            PublishStage::PersistImported => self.record.with_journal(
                PublishJournal::ObjectsImported { txid, new, expected_old, config_fingerprint },
            ),
            PublishStage::PersistAttempted => self.record.with_journal(
                PublishJournal::CasAttempted { txid, new, expected_old, config_fingerprint },
            ),
            PublishStage::PersistCommitted => self.record.with_journal(
                PublishJournal::CasCommitted { txid, new, expected_old, config_fingerprint },
            ),
            PublishStage::PersistFinal => self.record.published(new),
            _ => self.record.with_journal(PublishJournal::Idle),
        }
    }

    fn replace_publish_journal(self, done: Result<(), Error>) -> (next: Self)
        ensures
            next@ == self@.after_persisting(done),
    {
        match done {
            Err(error) => match self.stage {
                PublishStage::PersistCommitted | PublishStage::PersistFinal => self.failed(
                    publish_committed_recovery(error),
                ),
                _ => self.failed(publish_recovery(error)),
            },
            Ok(_) => {
                let record = self.proposed();
                let stage = self.stage;
                let replaced = Publish { record, ..self };
                match stage {
                    PublishStage::PersistPrepared => replaced.enter(PublishStage::PreparedAudit),
                    PublishStage::PersistImported => replaced.enter(PublishStage::ReadyAudit),
                    PublishStage::PersistAttempted => replaced.at(PublishStage::Update),
                    PublishStage::PersistCommitted => replaced.enter(PublishStage::PersistFinal),
                    PublishStage::PersistFinal => replaced.succeeded(),
                    _ => replaced.failed(
                        Error::new(
                            "PUBLISH_CONFLICT",
                            "authority target changed before the publish compare-and-swap",
                        ),
                    ),
                }
            },
        }
    }

    fn number(&self) -> (rank: u8)
        ensures
            rank < 14 <==> self@.stage.rank() < 14,
            rank < 26 <==> self@.stage.rank() < 26,
    {
        match self.stage {
            PublishStage::PreparedAudit | PublishStage::PreparedTarget
            | PublishStage::PreparedCheckedOut | PublishStage::PreparedPrivate
            | PublishStage::PreparedRelation | PublishStage::PreparedOld | PublishStage::Import
            | PublishStage::ImportedAudit | PublishStage::ImportedPrivate
            | PublishStage::ImportedCommit | PublishStage::ImportedClosure
            | PublishStage::PersistImported => 14,
            PublishStage::ReadyAudit | PublishStage::ReadyTarget | PublishStage::ReadyPrivate
            | PublishStage::ReadyRelation | PublishStage::ReadyCommit | PublishStage::ReadyClosure
            | PublishStage::ReadyOld | PublishStage::ReadyCheckedOut
            | PublishStage::PersistAttempted | PublishStage::Update
            | PublishStage::PersistCommitted | PublishStage::PersistFinal
            | PublishStage::PersistAborted | PublishStage::Ended => 26,
            _ => 0,
        }
    }

    /// Takes the driver's answer to the question that the publication asks.
    pub fn publish(self, event: PublishEvent) -> (next: Self)
        ensures
            next@ == self@.after(event),
    {
        match event {
            PublishEvent::Ran(answer) => {
                let rank: u8 = self.number();
                if rank < 14 {
                    self.after_choice(answer)
                } else if rank < 26 {
                    self.publish_prepared(answer)
                } else {
                    self.publish_objects_imported(answer)
                }
            },
            PublishEvent::Persisted(done) => match self.stage {
                PublishStage::PersistPrepared | PublishStage::PersistImported
                | PublishStage::PersistAttempted | PublishStage::PersistCommitted
                | PublishStage::PersistFinal | PublishStage::PersistAborted => {
                    self.replace_publish_journal(done)
                },
                _ => self,
            },
        }
    }

    /// What is to be done next.
    pub fn action(&self) -> (action: PublishAction)
        ensures
            action@ == self@.asks(),
    {
        let target = self.target.as_slice();
        let common = self.common_path.as_slice();
        let new = self.fields.new.as_str();
        match self.stage {
            PublishStage::ChooseAudit | PublishStage::SameAudit | PublishStage::PreparedAudit
            | PublishStage::ImportedAudit | PublishStage::ReadyAudit => PublishAction::Run(
                authority_config_command(&self.authority),
            ),
            PublishStage::ChooseTarget | PublishStage::SameTarget | PublishStage::PreparedTarget
            | PublishStage::ReadyTarget => PublishAction::Run(
                validate_publish_target_command(&self.authority, target),
            ),
            PublishStage::ChooseOld | PublishStage::SameOld | PublishStage::FreshOld
            | PublishStage::PreparedOld | PublishStage::ReadyOld => PublishAction::Run(
                authority_target_command(&self.authority, target),
            ),
            PublishStage::ChooseNew | PublishStage::SamePrivate | PublishStage::PreparedPrivate
            | PublishStage::ImportedPrivate | PublishStage::ReadyPrivate => PublishAction::Run(
                private_target_command(common, target),
            ),
            PublishStage::ChooseRelation | PublishStage::PreparedRelation
            | PublishStage::ReadyRelation => match publish_relation_command(
                common,
                borrow(&self.fields.expected_old),
                new,
            ) {
                Some(command) => PublishAction::Run(command),
                None => PublishAction::Nothing,
            },
            PublishStage::FreshCheckedOut | PublishStage::PreparedCheckedOut
            | PublishStage::ReadyCheckedOut => PublishAction::Run(
                worktree_list_command(&self.authority),
            ),
            PublishStage::SameCommit | PublishStage::ImportedCommit | PublishStage::ReadyCommit => {
                PublishAction::Run(imported_commit_command(&self.authority, new))
            },
            PublishStage::SameClosure | PublishStage::ImportedClosure
            | PublishStage::ReadyClosure => PublishAction::Run(
                imported_closure_command(&self.authority, new),
            ),
            PublishStage::Import => PublishAction::Run(
                import_publish_objects_command(&self.authority, common, new),
            ),
            PublishStage::Update => PublishAction::Run(
                update_publish_ref_command(
                    &self.authority,
                    target,
                    new,
                    borrow(&self.fields.expected_old),
                ),
            ),
            PublishStage::Ended => PublishAction::Nothing,
            PublishStage::PersistPrepared | PublishStage::PersistImported
            | PublishStage::PersistAttempted | PublishStage::PersistCommitted
            | PublishStage::PersistFinal | PublishStage::PersistAborted => PublishAction::Persist(
                self.proposed(),
            ),
        }
    }
}

/// One stage further, or the same publication.
pub open spec fn goes_on(before: PublishView, after: PublishView) -> bool {
    &&& before.is_sound() ==> after.is_sound()
    &&& after == before || after.stage.rank() > before.stage.rank()
}

proof fn lemma_step_goes_on(publish: PublishView, checked: Option<Failure>, next: PublishStage)
    requires
        publish.outcome is None || publish.stage is Ended,
        next.rank() > publish.stage.rank(),
        next.rank() < 35,
        !(next is ChooseRelation) && !(next is PreparedRelation) && !(next is ReadyRelation),
        next.rank() < 14 ==> publish.record.journal is Idle,
    ensures
        publish.is_sound() ==> publish.step(checked, next).is_sound(),
        publish.step(checked, next).stage.rank() > publish.stage.rank(),
{
}

#[verifier::spinoff_prover]
proof fn lemma_choice_goes_on(publish: PublishView, answer: Result<Output, git::Error>)
    requires
        publish.is_sound(),
    ensures
        goes_on(publish, publish.after_choice(answer)),
{
    match publish.stage {
        PublishStage::ChooseAudit => {},
        PublishStage::ChooseTarget => {
            lemma_step_goes_on(publish, publish_target_failure(answer), PublishStage::ChooseOld);
        },
        PublishStage::ChooseOld => {},
        PublishStage::ChooseNew => {},
        PublishStage::ChooseRelation => {},
        PublishStage::SameCommit => {
            lemma_step_goes_on(publish, imported_failure(answer), PublishStage::SameClosure);
        },
        PublishStage::SameClosure => {
            lemma_step_goes_on(publish, closure_failure(answer), PublishStage::SameAudit);
        },
        PublishStage::SameAudit => {
            lemma_step_goes_on(
                publish,
                same_config_failure(answer, publish.fields.config_fingerprint),
                PublishStage::SameTarget,
            );
        },
        PublishStage::SameTarget => {
            lemma_step_goes_on(publish, publish_target_failure(answer), PublishStage::SamePrivate);
        },
        PublishStage::SamePrivate => {
            lemma_step_goes_on(publish, publish.private_failure(answer), PublishStage::SameOld);
        },
        PublishStage::SameOld => {},
        PublishStage::FreshCheckedOut => {
            lemma_step_goes_on(
                publish,
                checked_out_failure(answer, publish.target),
                PublishStage::FreshOld,
            );
        },
        PublishStage::FreshOld => {
            lemma_step_goes_on(publish, publish.old_failure(answer), PublishStage::PersistPrepared);
        },
        _ => {},
    }
}

#[verifier::spinoff_prover]
proof fn lemma_prepared_goes_on(publish: PublishView, answer: Result<Output, git::Error>)
    requires
        publish.is_sound(),
    ensures
        goes_on(publish, publish.after_prepared(answer)),
{
    match publish.stage {
        PublishStage::PreparedAudit => {
            lemma_step_goes_on(
                publish,
                same_config_failure(answer, publish.fields.config_fingerprint),
                PublishStage::PreparedTarget,
            );
        },
        PublishStage::PreparedTarget => {
            lemma_step_goes_on(
                publish,
                publish_target_failure(answer),
                PublishStage::PreparedCheckedOut,
            );
        },
        PublishStage::PreparedCheckedOut => {
            lemma_step_goes_on(
                publish,
                checked_out_failure(answer, publish.target),
                PublishStage::PreparedPrivate,
            );
        },
        PublishStage::PreparedPrivate => {},
        PublishStage::PreparedRelation => {
            lemma_step_goes_on(publish, relation_failure(answer), PublishStage::PreparedOld);
        },
        PublishStage::PreparedOld => {},
        PublishStage::Import => {
            lemma_step_goes_on(publish, import_failure(answer), PublishStage::ImportedAudit);
        },
        PublishStage::ImportedAudit => {
            lemma_step_goes_on(
                publish,
                same_config_failure(answer, publish.fields.config_fingerprint),
                PublishStage::ImportedPrivate,
            );
        },
        PublishStage::ImportedPrivate => {
            lemma_step_goes_on(publish, publish.private_failure(answer), PublishStage::ImportedCommit);
        },
        PublishStage::ImportedCommit => {
            lemma_step_goes_on(publish, imported_failure(answer), PublishStage::ImportedClosure);
        },
        PublishStage::ImportedClosure => {
            lemma_step_goes_on(publish, closure_failure(answer), PublishStage::PersistImported);
        },
        _ => {},
    }
}

#[verifier::spinoff_prover]
proof fn lemma_imported_goes_on(publish: PublishView, answer: Result<Output, git::Error>)
    requires
        publish.is_sound(),
    ensures
        goes_on(publish, publish.after_imported(answer)),
        publish.stage is Update ==> !(publish.after_imported(answer).stage is Update),
{
    match publish.stage {
        PublishStage::ReadyAudit => {
            lemma_step_goes_on(
                publish,
                same_config_failure(answer, publish.fields.config_fingerprint),
                PublishStage::ReadyTarget,
            );
        },
        PublishStage::ReadyTarget => {
            lemma_step_goes_on(publish, publish_target_failure(answer), PublishStage::ReadyPrivate);
        },
        PublishStage::ReadyPrivate => {},
        PublishStage::ReadyRelation => {
            lemma_step_goes_on(publish, relation_failure(answer), PublishStage::ReadyCommit);
        },
        PublishStage::ReadyCommit => {
            lemma_step_goes_on(publish, imported_failure(answer), PublishStage::ReadyClosure);
        },
        PublishStage::ReadyClosure => {
            lemma_step_goes_on(publish, closure_failure(answer), PublishStage::ReadyOld);
        },
        PublishStage::ReadyOld => {},
        PublishStage::ReadyCheckedOut => {
            lemma_step_goes_on(
                publish,
                checked_out_failure(answer, publish.target),
                PublishStage::PersistAttempted,
            );
        },
        PublishStage::Update => {},
        _ => {},
    }
}

#[verifier::spinoff_prover]
proof fn lemma_persisting_goes_on(publish: PublishView, done: Result<(), Error>)
    requires
        publish.is_sound(),
        publish.stage.persists(),
    ensures
        goes_on(publish, publish.after_persisting(done)),
{
    match publish.stage {
        PublishStage::PersistPrepared => {},
        PublishStage::PersistImported => {},
        PublishStage::PersistAttempted => {},
        PublishStage::PersistCommitted => {},
        PublishStage::PersistFinal => {},
        _ => {},
    }
}

/// A publication begins sound and stays sound, whatever it is answered; and it only ever goes forward.
/// So it comes to its compare-and-swap at most once, and leaves it for good with the answer.
pub proof fn law_publication_goes_forward(publish: PublishView, event: PublishEvent)
    requires
        publish.is_sound(),
    ensures
        publish.after(event).is_sound(),
        publish.after(event) == publish || publish.after(event).stage.rank() > publish.stage.rank(),
        publish.stage is Update && event is Ran ==> !(publish.after(event).stage is Update),
{
    match event {
        PublishEvent::Ran(answer) => {
            if publish.stage.rank() < 14 {
                lemma_choice_goes_on(publish, answer);
            } else if publish.stage.rank() < 26 {
                lemma_prepared_goes_on(publish, answer);
            } else {
                lemma_imported_goes_on(publish, answer);
            }
        },
        PublishEvent::Persisted(done) => {
            if publish.stage.persists() {
                lemma_persisting_goes_on(publish, done);
            }
        },
    }
}

/// However a record stands, its publication begins sound.
pub proof fn law_publication_begins_sound(
    authority: AuthorityView,
    record: SessionView,
    common_path: Seq<u8>,
)
    ensures
        PublishView::start(authority, record, common_path).is_sound(),
{
}

/// The branch of the authority is updated only while the record says that the attempt is made, with
/// the very commits that the record has frozen.
pub proof fn law_update_follows_its_record(publish: PublishView)
    requires
        publish.is_sound(),
        publish.stage is Update,
    ensures
        publish.record.journal == JournalView::CasAttempted(publish.fields),
        publish.asks() == PublishAsk::Run(publish.update_args()),
{
}

/// A session whose record says that a compare-and-swap was attempted is never published again: its
/// publication ends before it asks for anything.
pub proof fn law_attempts_are_never_replayed(
    authority: AuthorityView,
    record: SessionView,
    common_path: Seq<u8>,
)
    requires
        record.journal is CasAttempted,
    ensures
        ({
            let publish = PublishView::start(authority, record, common_path);
            &&& publish.asks() == PublishAsk::Nothing
            &&& publish.outcome matches Some(Err(_))
        }),
{
}

/// Where the authority already has the commit, nothing is written, and the publication still looks at
/// everything before it says so.
pub proof fn law_same_commit_writes_nothing(publish: PublishView, event: PublishEvent)
    requires
        publish.stage.is_same(),
    ensures
        !(publish.asks() is Persist),
        publish.after(event).record == publish.record,
        publish.after(event).stage.is_same() || publish.after(event).stage is Ended,
        publish.after(event).outcome matches Some(Ok(_)) ==> publish.outcome == publish.after(
            event,
        ).outcome || publish.stage is SameOld,
{
}

/// Where a publication says that it is done, the record's journal is idle again; and where it wrote
/// anything, the record now expects the branch to point at what was published.
pub proof fn law_success_settles_the_record(publish: PublishView, event: PublishEvent)
    requires
        publish.is_sound(),
        publish.outcome is None,
        publish.after(event).outcome matches Some(Ok(_)),
    ensures
        publish.after(event).record.journal is Idle,
        publish.after(event).outcome == Some(
            Ok::<Seq<char>, Failure>(success_text(publish.record, publish.fields.new)),
        ),
        publish.stage is SameOld || publish.after(event).record == publish.record.publish(
            publish.fields.new,
        ),
{
}

/// The stage before each stage on the way from the imported objects to the compare-and-swap, and what
/// has to be answered there. So the branch is only set to a descendant of what it pointed at, whose
/// objects are all there, while the branch still points at what was frozen and no worktree has it
/// checked out.
pub proof fn law_update_is_well_prepared(publish: PublishView, answer: Result<Output, git::Error>)
    requires
        publish.is_sound(),
        publish.stage.rank() < PublishStage::Update.rank(),
    ensures
        ({
            let next = publish.after(PublishEvent::Ran(answer));
            &&& next.stage is ReadyTarget && next != publish ==> publish.stage is ReadyAudit
                && same_config_failure(answer, publish.fields.config_fingerprint) is None
            &&& next.stage is ReadyPrivate && next != publish ==> publish.stage is ReadyTarget
                && publish_target_failure(answer) is None
            &&& next.stage is ReadyRelation && next != publish ==> publish.stage is ReadyPrivate
                && publish.private_failure(answer) is None
            &&& next.stage is ReadyCommit && next != publish ==> {
                ||| publish.stage is ReadyRelation && relation_failure(answer) is None
                ||| publish.stage is ReadyPrivate && publish.private_failure(answer) is None
                    && !asks_relation(publish.fields.expected_old, publish.fields.new)
            }
            &&& next.stage is ReadyClosure && next != publish ==> publish.stage is ReadyCommit
                && imported_failure(answer) is None
            &&& next.stage is ReadyOld && next != publish ==> publish.stage is ReadyClosure
                && closure_failure(answer) is None
            &&& next.stage is ReadyCheckedOut && next != publish ==> publish.stage is ReadyOld
                && target_commit_value(answer) == oid_bytes(publish.fields.expected_old)
            &&& next.stage is PersistAttempted && next != publish ==> publish.stage
                is ReadyCheckedOut && checked_out_failure(answer, publish.target) is None
            &&& !(next.stage is Update)
        }),
{
}

/// A branch that has moved since it was frozen is not touched: what was frozen is given up.
pub proof fn law_moved_branch_is_a_conflict(publish: PublishView, answer: Result<Output, git::Error>)
    requires
        publish.stage is PreparedOld || publish.stage is ReadyOld,
        target_commit_failure(answer, publish.target, publish.authority.object_format) is None,
        target_commit_value(answer) != oid_bytes(publish.fields.expected_old),
    ensures
        ({
            let aborted = publish.after(PublishEvent::Ran(answer));
            let ended = aborted.after(PublishEvent::Persisted(Ok(())));
            &&& aborted.asks() == PublishAsk::Persist(
                SessionView { journal: JournalView::Idle, ..publish.record },
            )
            &&& ended.record.journal is Idle
            &&& ended.outcome matches Some(Err(error)) && error.0 == "PUBLISH_CONFLICT"@
        }),
{
    let aborted = publish.after(PublishEvent::Ran(answer));
    assert(aborted == publish.at(PublishStage::PersistAborted)) by {
        if publish.stage is PreparedOld {
            assert(aborted == publish.after_prepared(answer));
        } else {
            assert(aborted == publish.after_imported(answer));
        }
    }
    lemma_aborted(aborted);
}

proof fn lemma_aborted(publish: PublishView)
    requires
        publish.stage is PersistAborted,
    ensures
        publish.asks() == PublishAsk::Persist(
            SessionView { journal: JournalView::Idle, ..publish.record },
        ),
        publish.after(PublishEvent::Persisted(Ok(()))).record.journal is Idle,
        publish.after(PublishEvent::Persisted(Ok(()))).outcome matches Some(Err(error)) && error.0
            == "PUBLISH_CONFLICT"@,
{
}

} // verus!
