//! What sessions ask of Git, and what they make of its answers.

use crate::authority::{failure, or_fail, Authority, AuthorityView, Error, Failure, Identity};
use crate::bytes::{
    bytes_of, contains_byte, copy_bytes, decode_text, ends_with, find_byte, first_index, join2,
    same_bytes, same_text, split, split_at_each, starts_with, strip_suffix, utf8, utf8_text, views,
    without_suffix,
};
use crate::digest::{digest_hex, digest_text};
use crate::git::{self, AuditConfig, Output, DEFAULT_LIMIT};
use crate::inspection::first_of;
use crate::notation::{all_hex, all_lower_hex, only_hex, only_lower_hex};
use crate::session::{
    bytes_include, git_error, includes, is_lower_hash, optional_text, GitMetadataReceipt,
    GitMetadataView, MAX_RECORD,
};
use crate::storage::{lowered, to_lower};
use vstd::prelude::*;
use vstd::slice::slice_subrange;

verus! {

/// How long Git may take, in nanoseconds.
pub const GIT_TIMEOUT: u64 = 30000000000;

/// How much of an index Git may print.
pub const INDEX_RECEIPT_LIMIT: usize = 4194304;

/// A run of Git: its arguments, the directory it runs in, the configuration it may read, and how much
/// it may print.
#[derive(Debug)]
pub struct Command {
    pub args: Vec<Vec<u8>>,
    pub directory: Option<Vec<u8>>,
    pub audit: AuditConfig,
    pub limit: usize,
}

pub struct CommandView {
    pub args: Seq<Seq<u8>>,
    pub directory: Option<Seq<u8>>,
    pub audit: AuditConfig,
    pub limit: usize,
}

impl View for Command {
    type V = CommandView;

    open spec fn view(&self) -> CommandView {
        CommandView {
            args: views(self.args@),
            directory: match self.directory {
                Some(directory) => Some(directory@),
                None => None,
            },
            audit: self.audit,
            limit: self.limit,
        }
    }
}

impl CommandView {
    pub open spec fn isolated(directory: Option<Seq<u8>>) -> CommandView {
        CommandView {
            args: Seq::empty(),
            directory,
            audit: AuditConfig::Isolated,
            limit: DEFAULT_LIMIT,
        }
    }

    /// A run within an authority, with the configuration that is in force there.
    pub open spec fn within(canonical: Seq<u8>) -> CommandView {
        (CommandView {
            args: Seq::empty(),
            directory: None,
            audit: AuditConfig::Authority,
            limit: DEFAULT_LIMIT,
        }).word("-C"@).path(canonical)
    }

    pub open spec fn word(self, text: Seq<char>) -> CommandView {
        self.path(utf8(text))
    }

    pub open spec fn path(self, bytes: Seq<u8>) -> CommandView {
        CommandView { args: self.args.push(bytes), ..self }
    }

    pub open spec fn at_most(self, limit: usize) -> CommandView {
        CommandView { limit, ..self }
    }
}

impl Command {
    pub(crate) fn isolated(directory: Option<&[u8]>) -> (command: Command)
        ensures
            command@ == CommandView::isolated(crate::bytes::slice_view(directory)),
    {
        let directory: Option<Vec<u8>> = match directory {
            Some(directory) => Some(copy_bytes(directory)),
            None => None,
        };
        let args: Vec<Vec<u8>> = Vec::new();
        proof {
            assert(views(args@) =~= Seq::<Seq<u8>>::empty());
        }
        Command { args, directory, audit: AuditConfig::Isolated, limit: DEFAULT_LIMIT }
    }

    fn within(canonical: &[u8]) -> (command: Command)
        ensures
            command@ == CommandView::within(canonical@),
    {
        let args: Vec<Vec<u8>> = Vec::new();
        proof {
            assert(views(args@) =~= Seq::<Seq<u8>>::empty());
        }
        (Command {
            args,
            directory: None,
            audit: AuditConfig::Authority,
            limit: DEFAULT_LIMIT,
        }).word("-C").path(canonical)
    }

    /// A run in a repository that is named by its Git directory.
    pub(crate) fn in_git_dir(common: &[u8]) -> (command: Command)
        ensures
            command@ == CommandView::isolated(None).path(git_dir(common@)),
    {
        Command::isolated(None).path(git_dir_option(common).as_slice())
    }

    pub(crate) fn word(self, text: &str) -> (longer: Command)
        ensures
            longer@ == self@.word(text@),
    {
        self.path(text.as_bytes())
    }

    pub(crate) fn path(self, bytes: &[u8]) -> (longer: Command)
        ensures
            longer@ == self@.path(bytes@),
    {
        let Command { args, directory, audit, limit } = self;
        let mut args = args;
        let ghost before = views(args@);
        args.push(copy_bytes(bytes));
        proof {
            assert(views(args@) =~= before.push(bytes@));
        }
        Command { args, directory, audit, limit }
    }

    fn at_most(self, limit: usize) -> (limited: Command)
        ensures
            limited@ == self@.at_most(limit),
    {
        Command { limit, ..self }
    }
}

/// The name of a branch among all references.
pub open spec fn branch_reference(target: Seq<u8>) -> Seq<u8> {
    utf8("refs/heads/"@) + target
}

pub fn branch_name(target: &[u8]) -> (reference: Vec<u8>)
    ensures
        reference@ == branch_reference(target@),
{
    crate::bytes::concat("refs/heads/".as_bytes(), target)
}

/// What Git answered, as the error that a caller reports where Git could not be run.
fn ran(outcome: Result<Output, git::Error>, code: &'static str, detail: &str) -> (output: Result<
    Output,
    Error,
>)
    ensures
        failure(output) == match outcome {
            Ok(_) => None,
            Err(_) => Some((code@, detail@)),
        },
        output matches Ok(output) ==> outcome == Ok::<Output, git::Error>(output),
{
    match outcome {
        Ok(output) => Ok(output),
        Err(_) => Err(Error::new(code, detail)),
    }
}

fn ran_or_git_error(outcome: Result<Output, git::Error>) -> (output: Result<Output, Error>)
    ensures
        failure(output) == git_failure(outcome),
        output matches Ok(output) ==> outcome == Ok::<Output, git::Error>(output),
{
    match outcome {
        Ok(output) => Ok(output),
        Err(error) => Err(git_error(error)),
    }
}

/// What running Git itself failed with.
pub open spec fn git_failure(outcome: Result<Output, git::Error>) -> Option<Failure> {
    match outcome {
        Ok(_) => None,
        Err(error) => Some(error@),
    }
}

/// One line and nothing else.
pub open spec fn single_line(output: Seq<u8>) -> Option<Seq<u8>> {
    match without_suffix(output, seq![10u8]) {
        Some(body) => if body.contains(10) {
            None
        } else {
            Some(body)
        },
        None => None,
    }
}

fn one_line(output: &[u8]) -> (line: Option<&[u8]>)
    ensures
        crate::bytes::slice_view(line) == single_line(output@),
{
    let end: [u8; 1] = [10u8];
    proof {
        assert(end@ =~= seq![10u8]);
    }
    match strip_suffix(output, &end) {
        Some(body) => if contains_byte(body, 10) {
            None
        } else {
            Some(body)
        },
        None => None,
    }
}

pub open spec fn oid_width(object_format: Seq<char>) -> nat {
    if object_format == "sha1"@ {
        40
    } else {
        64
    }
}

pub open spec fn oid_output_failure(output: Seq<u8>, object_format: Seq<char>) -> Option<Failure> {
    match single_line(output) {
        None => Some(("GIT_PROBE_FAILED"@, "Git object ID output was ambiguous"@)),
        Some(body) => {
            let f = or_fail(
                None,
                utf8_text(body) is Some,
                "GIT_PROBE_FAILED"@,
                "Git object ID was not ASCII"@,
            );
            or_fail(
                f,
                body.len() == oid_width(object_format) && all_hex(body),
                "GIT_PROBE_FAILED"@,
                "Git object ID was invalid"@,
            )
        },
    }
}

/// The object that Git printed, alone on its line.
pub fn parse_oid_output(output: &[u8], object_format: &str) -> (oid: Result<String, Error>)
    ensures
        failure(oid) == oid_output_failure(output@, object_format@),
        oid matches Ok(oid) ==> single_line(output@) == Some(utf8(oid@)),
{
    match one_line(output) {
        None => Err(Error::new("GIT_PROBE_FAILED", "Git object ID output was ambiguous")),
        Some(body) => match decode_text(body) {
            None => Err(Error::new("GIT_PROBE_FAILED", "Git object ID was not ASCII")),
            Some(oid) => {
                let expected: usize = if same_text(object_format, "sha1") {
                    40
                } else {
                    64
                };
                if body.len() != expected || !only_hex(body) {
                    return Err(Error::new("GIT_PROBE_FAILED", "Git object ID was invalid"));
                }
                Ok(oid)
            },
        },
    }
}

pub fn resolve_target_command(authority: &Authority, target: &[u8]) -> (command: Command)
    ensures
        command@ == CommandView::isolated(Some(authority@.canonical)).word("rev-parse"@).word(
            "--verify"@,
        ).word("--quiet"@).path(branch_reference(target@)),
{
    Command::isolated(Some(authority.canonical.as_slice())).word("rev-parse").word("--verify").word(
        "--quiet",
    ).path(branch_name(target).as_slice())
}

pub open spec fn resolve_target_failure(
    outcome: Result<Output, git::Error>,
    object_format: Seq<char>,
) -> Option<Failure> {
    match outcome {
        Err(error) => Some(error@),
        Ok(output) => if output.status.succeeded() {
            oid_output_failure(output.stdout@, object_format)
        } else {
            or_fail(
                None,
                output.stdout@.len() == 0 && output.stderr@.len() == 0,
                "GIT_PROBE_FAILED"@,
                "cannot resolve the target branch"@,
            )
        },
    }
}

/// What a branch points at, where it exists.
pub fn resolve_target(outcome: Result<Output, git::Error>, object_format: &str) -> (oid: Result<
    Option<String>,
    Error,
>)
    ensures
        failure(oid) == resolve_target_failure(outcome, object_format@),
        oid matches Ok(None) ==> !outcome->Ok_0.status.succeeded(),
        oid matches Ok(Some(oid)) ==> single_line(outcome->Ok_0.stdout@) == Some(utf8(oid@)),
{
    let output = ran_or_git_error(outcome)?;
    if output.status.success() {
        let oid = parse_oid_output(output.stdout.as_slice(), object_format)?;
        return Ok(Some(oid));
    }
    if output.stdout.len() == 0 && output.stderr.len() == 0 {
        return Ok(None);
    }
    Err(Error::new("GIT_PROBE_FAILED", "cannot resolve the target branch"))
}

pub fn resolve_commit_command(authority: &Authority, revision: &[u8]) -> (command: Command)
    ensures
        command@ == CommandView::isolated(Some(authority@.canonical)).word("rev-parse"@).word(
            "--verify"@,
        ).path(revision@ + utf8("^{commit}"@)),
{
    Command::isolated(Some(authority.canonical.as_slice())).word("rev-parse").word("--verify").path(
        crate::bytes::concat(revision, "^{commit}".as_bytes()).as_slice(),
    )
}

pub fn resolve_tree_command(authority: &Authority, base: &str) -> (command: Command)
    ensures
        command@ == CommandView::isolated(Some(authority@.canonical)).word("rev-parse"@).word(
            "--verify"@,
        ).path(utf8(base@) + utf8("^{tree}"@)),
{
    Command::isolated(Some(authority.canonical.as_slice())).word("rev-parse").word("--verify").path(
        crate::bytes::concat(base.as_bytes(), "^{tree}".as_bytes()).as_slice(),
    )
}

pub open spec fn resolve_base_failure(
    outcome: Result<Output, git::Error>,
    object_format: Seq<char>,
    detail: Seq<char>,
) -> Option<Failure> {
    match outcome {
        Err(error) => Some(error@),
        Ok(output) => if output.clean() {
            oid_output_failure(output.stdout@, object_format)
        } else {
            Some(("BASE_INVALID"@, detail))
        },
    }
}

fn resolve_base(outcome: Result<Output, git::Error>, object_format: &str, detail: &str) -> (oid: Result<
    String,
    Error,
>)
    ensures
        failure(oid) == resolve_base_failure(outcome, object_format@, detail@),
        oid matches Ok(oid) ==> single_line(outcome->Ok_0.stdout@) == Some(utf8(oid@)),
{
    let output = ran_or_git_error(outcome)?;
    if !output.is_clean() {
        return Err(Error::new("BASE_INVALID", detail));
    }
    parse_oid_output(output.stdout.as_slice(), object_format)
}

/// The commit that a revision names.
pub fn resolve_commit(outcome: Result<Output, git::Error>, object_format: &str) -> (oid: Result<
    String,
    Error,
>)
    ensures
        failure(oid) == resolve_base_failure(
            outcome,
            object_format@,
            "base revision does not resolve to a commit"@,
        ),
        oid matches Ok(oid) ==> single_line(outcome->Ok_0.stdout@) == Some(utf8(oid@)),
{
    resolve_base(outcome, object_format, "base revision does not resolve to a commit")
}

/// The tree of a commit.
pub fn resolve_tree(outcome: Result<Output, git::Error>, object_format: &str) -> (oid: Result<
    String,
    Error,
>)
    ensures
        failure(oid) == resolve_base_failure(
            outcome,
            object_format@,
            "base commit does not resolve to a tree"@,
        ),
        oid matches Ok(oid) ==> single_line(outcome->Ok_0.stdout@) == Some(utf8(oid@)),
{
    resolve_base(outcome, object_format, "base commit does not resolve to a tree")
}

/// A name that Git would take for no option, and that is none at all.
pub open spec fn is_plain_branch(target: Seq<u8>) -> bool {
    target.len() > 0 && target[0] != 45
}

/// The question whether a name is one of a branch, where it is worth asking.
pub fn validate_branch_command(authority: &Authority, target: &[u8]) -> (command: Result<
    Command,
    Error,
>)
    ensures
        failure(command) == or_fail(
            None,
            is_plain_branch(target@),
            "TARGET_INVALID"@,
            "target branch name is invalid"@,
        ),
        command matches Ok(command) ==> command@ == CommandView::isolated(
            Some(authority@.canonical),
        ).word("check-ref-format"@).word("--branch"@).path(target@),
{
    if target.len() == 0 || target[0] == 45 {
        return Err(Error::new("TARGET_INVALID", "target branch name is invalid"));
    }
    Ok(
        Command::isolated(Some(authority.canonical.as_slice())).word("check-ref-format").word(
            "--branch",
        ).path(target),
    )
}

pub fn validate_branch(outcome: Result<Output, git::Error>) -> (valid: Result<(), Error>)
    ensures
        failure(valid) == match outcome {
            Err(error) => Some(error@),
            Ok(output) => or_fail(
                None,
                output.clean(),
                "TARGET_INVALID"@,
                "target branch name is invalid"@,
            ),
        },
{
    let output = ran_or_git_error(outcome)?;
    if output.is_clean() {
        Ok(())
    } else {
        Err(Error::new("TARGET_INVALID", "target branch name is invalid"))
    }
}

pub open spec fn verify_failed(detail: Seq<char>) -> Failure {
    ("PUBLISH_VERIFY_FAILED"@, detail)
}

pub fn validate_publish_target_command(authority: &Authority, target: &[u8]) -> (command: Command)
    ensures
        command@ == CommandView::within(authority@.canonical).word("check-ref-format"@).word(
            "--branch"@,
        ).path(target@),
{
    Command::within(authority.canonical.as_slice()).word("check-ref-format").word("--branch").path(
        target,
    )
}

pub open spec fn publish_target_failure(outcome: Result<Output, git::Error>) -> Option<Failure> {
    match outcome {
        Err(_) => Some(verify_failed("cannot validate publish target"@)),
        Ok(output) => or_fail(
            None,
            output.clean(),
            "PUBLISH_VERIFY_FAILED"@,
            "session target is not a valid direct branch name"@,
        ),
    }
}

pub fn validate_publish_target(outcome: Result<Output, git::Error>) -> (valid: Result<(), Error>)
    ensures
        failure(valid) == publish_target_failure(outcome),
{
    let output = ran(outcome, "PUBLISH_VERIFY_FAILED", "cannot validate publish target")?;
    if output.is_clean() {
        Ok(())
    } else {
        Err(
            Error::new("PUBLISH_VERIFY_FAILED", "session target is not a valid direct branch name"),
        )
    }
}

pub fn worktree_list_command(authority: &Authority) -> (command: Command)
    ensures
        command@ == CommandView::within(authority@.canonical).word("worktree"@).word("list"@).word(
            "--porcelain"@,
        ),
{
    Command::within(authority.canonical.as_slice()).word("worktree").word("list").word(
        "--porcelain",
    )
}

/// A worktree of the authority has the branch checked out.
pub open spec fn is_checked_out(listing: Seq<u8>, target: Seq<u8>) -> bool {
    split_at_each(listing, 10).contains(utf8("branch refs/heads/"@) + target)
}

pub open spec fn checked_out_failure(outcome: Result<Output, git::Error>, target: Seq<u8>) -> Option<
    Failure,
> {
    match outcome {
        Err(_) => Some(verify_failed("cannot inspect authority worktrees"@)),
        Ok(output) => {
            let f = or_fail(
                None,
                output.clean(),
                "PUBLISH_VERIFY_FAILED"@,
                "cannot inspect authority worktrees"@,
            );
            or_fail(
                f,
                !is_checked_out(output.stdout@, target),
                "PUBLISH_TARGET_CHECKED_OUT"@,
                "publish target is checked out by an authority worktree"@,
            )
        },
    }
}

fn has_line(listing: &[u8], line: &[u8]) -> (has: bool)
    ensures
        has == split_at_each(listing@, 10).contains(line@),
{
    let lines = split(listing, 10);
    let mut i: usize = 0;
    while i < lines.len()
        invariant
            i <= lines@.len(),
            views(lines@) == split_at_each(listing@, 10),
            forall|k: int| 0 <= k < i ==> views(lines@)[k] != line@,
        decreases lines@.len() - i,
    {
        if same_bytes(lines[i].as_slice(), line) {
            proof {
                assert(views(lines@)[i as int] == line@);
            }
            return true;
        }
        i = i + 1;
    }
    false
}

pub fn ensure_publish_target_unchecked_out(
    outcome: Result<Output, git::Error>,
    target: &[u8],
) -> (checked: Result<(), Error>)
    ensures
        failure(checked) == checked_out_failure(outcome, target@),
{
    let output = ran(outcome, "PUBLISH_VERIFY_FAILED", "cannot inspect authority worktrees")?;
    if !output.is_clean() {
        return Err(Error::new("PUBLISH_VERIFY_FAILED", "cannot inspect authority worktrees"));
    }
    let expected = crate::bytes::concat("branch refs/heads/".as_bytes(), target);
    if has_line(output.stdout.as_slice(), expected.as_slice()) {
        return Err(
            Error::new(
                "PUBLISH_TARGET_CHECKED_OUT",
                "publish target is checked out by an authority worktree",
            ),
        );
    }
    Ok(())
}

pub fn authority_config_command(authority: &Authority) -> (command: Command)
    ensures
        command@ == CommandView::within(authority@.canonical).word("config"@).word("--null"@).word(
            "--show-origin"@,
        ).word("--show-scope"@).word("--includes"@).word("--list"@),
{
    Command::within(authority.canonical.as_slice()).word("config").word("--null").word(
        "--show-origin",
    ).word("--show-scope").word("--includes").word("--list")
}

/// A key of the configuration under which a publication could be led astray.
pub open spec fn is_unsafe_key(key: Seq<u8>) -> bool {
    ||| utf8("include."@).is_prefix_of(key)
    ||| utf8("includeif."@).is_prefix_of(key)
    ||| utf8("filter."@).is_prefix_of(key)
    ||| utf8("fsck."@).is_prefix_of(key)
    ||| utf8("url."@).is_prefix_of(key)
    ||| includes(key, utf8("alternaterefscommand"@))
    ||| utf8("remote."@).is_prefix_of(key) && (utf8(".uploadpack"@).is_suffix_of(key) || utf8(
        ".vcs"@,
    ).is_suffix_of(key))
    ||| includes(key, utf8("promisor"@))
    ||| includes(key, utf8("partialclone"@))
}

pub open spec fn is_config_scope(scope: Seq<u8>) -> bool {
    scope == utf8("system"@) || scope == utf8("global"@) || scope == utf8("local"@) || scope
        == utf8("worktree"@)
}

/// A setting with its scope and its origin that no publication has to fear.
pub open spec fn is_safe_entry(scope: Seq<u8>, origin: Seq<u8>, entry: Seq<u8>) -> bool {
    &&& is_config_scope(scope)
    &&& utf8("file:"@).is_prefix_of(origin)
    &&& entry.contains(10)
    &&& !is_unsafe_key(lowered(entry.take(first_index(entry, 10))))
}

/// A listing of the configuration: settings of three fields each, all of them ended.
pub open spec fn is_safe_config(raw: Seq<u8>) -> bool {
    raw.len() == 0 || match without_suffix(raw, seq![0u8]) {
        None => false,
        Some(body) => {
            let fields = split_at_each(body, 0);
            &&& fields.len() % 3 == 0
            &&& forall|i: int|
                0 <= i < fields.len() / 3 ==> #[trigger] is_safe_row(fields, i)
        },
    }
}

pub open spec fn is_safe_row(fields: Seq<Seq<u8>>, row: int) -> bool {
    is_safe_entry(fields[3 * row], fields[3 * row + 1], fields[3 * row + 2])
}

fn unsafe_key(key: &[u8]) -> (is: bool)
    ensures
        is == is_unsafe_key(key@),
{
    starts_with(key, "include.".as_bytes()) || starts_with(key, "includeif.".as_bytes())
        || starts_with(key, "filter.".as_bytes()) || starts_with(key, "fsck.".as_bytes())
        || starts_with(key, "url.".as_bytes()) || bytes_include(
        key,
        "alternaterefscommand".as_bytes(),
    ) || (starts_with(key, "remote.".as_bytes()) && (ends_with(key, ".uploadpack".as_bytes())
        || ends_with(key, ".vcs".as_bytes()))) || bytes_include(key, "promisor".as_bytes())
        || bytes_include(key, "partialclone".as_bytes())
}

pub fn authority_config_entry_is_safe(scope: &[u8], origin: &[u8], entry: &[u8]) -> (safe: bool)
    ensures
        safe == is_safe_entry(scope@, origin@, entry@),
{
    if !(same_bytes(scope, "system".as_bytes()) || same_bytes(scope, "global".as_bytes())
        || same_bytes(scope, "local".as_bytes()) || same_bytes(scope, "worktree".as_bytes()))
        || !starts_with(origin, "file:".as_bytes()) {
        return false;
    }
    if !contains_byte(entry, 10) {
        return false;
    }
    proof {
        crate::bytes::lemma_first_index_bounds(entry@, 10);
    }
    let separator: usize = find_byte(entry, 10);
    let key = to_lower(slice_subrange(entry, 0, separator));
    proof {
        assert(entry@.subrange(0, separator as int) =~= entry@.take(separator as int));
    }
    !unsafe_key(key.as_slice())
}

/// Whether nothing in a configuration could lead a publication astray.
pub fn authority_config_is_safe(raw: &[u8]) -> (safe: bool)
    ensures
        safe == is_safe_config(raw@),
{
    if raw.len() == 0 {
        return true;
    }
    let end: [u8; 1] = [0u8];
    proof {
        assert(end@ =~= seq![0u8]);
    }
    match strip_suffix(raw, &end) {
        None => false,
        Some(body) => {
            let fields = split(body, 0);
            let ghost pieces = split_at_each(body@, 0);
            if fields.len() % 3 != 0 {
                return false;
            }
            let mut i: usize = 0;
            let mut row: Ghost<int> = Ghost(0);
            while i < fields.len()
                invariant
                    views(fields@) == pieces,
                    fields@.len() % 3 == 0,
                    i == 3 * row@,
                    0 <= row@ <= fields@.len() / 3,
                    i <= fields@.len(),
                    raw@.len() > 0,
                    without_suffix(raw@, seq![0u8]) == Some(body@),
                    pieces == split_at_each(body@, 0),
                    forall|k: int| 0 <= k < row@ ==> #[trigger] is_safe_row(pieces, k),
                decreases fields@.len() - i,
            {
                proof {
                    assert(pieces.len() == fields@.len());
                    assert(views(fields@)[i as int] == fields@[i as int]@);
                    assert(views(fields@)[i + 1] == fields@[i + 1]@);
                    assert(views(fields@)[i + 2] == fields@[i + 2]@);
                }
                if !authority_config_entry_is_safe(
                    fields[i].as_slice(),
                    fields[i + 1].as_slice(),
                    fields[i + 2].as_slice(),
                ) {
                    proof {
                        assert(!is_safe_row(pieces, row@));
                    }
                    return false;
                }
                proof {
                    assert(is_safe_row(pieces, row@));
                    row@ = row@ + 1;
                }
                i = i + 3;
            }
            true
        },
    }
}

pub open spec fn config_failure(outcome: Result<Output, git::Error>) -> Option<Failure> {
    match outcome {
        Err(_) => Some(verify_failed("cannot audit authority config"@)),
        Ok(output) => or_fail(
            None,
            output.clean() && is_safe_config(output.stdout@),
            "PUBLISH_VERIFY_FAILED"@,
            "authority config is not safe for fixed-object publish"@,
        ),
    }
}

pub fn hash_bytes(bytes: &[u8]) -> (text: String)
    ensures
        text@ == digest_text(bytes@),
        is_lower_hash(text@),
{
    digest_hex(bytes)
}

/// The fingerprint of an authority's configuration, where a publication has nothing to fear from it.
pub fn audit_authority_config(outcome: Result<Output, git::Error>) -> (fingerprint: Result<
    String,
    Error,
>)
    ensures
        failure(fingerprint) == config_failure(outcome),
        fingerprint matches Ok(fingerprint) ==> fingerprint@ == digest_text(
            outcome->Ok_0.stdout@,
        ) && is_lower_hash(fingerprint@),
{
    let output = ran(outcome, "PUBLISH_VERIFY_FAILED", "cannot audit authority config")?;
    if !output.is_clean() || !authority_config_is_safe(output.stdout.as_slice()) {
        return Err(
            Error::new(
                "PUBLISH_VERIFY_FAILED",
                "authority config is not safe for fixed-object publish",
            ),
        );
    }
    Ok(hash_bytes(output.stdout.as_slice()))
}

pub fn ensure_authority_config(current: &str, expected: &str) -> (same: Result<(), Error>)
    ensures
        failure(same) == or_fail(
            None,
            current@ == expected@,
            "PUBLISH_VERIFY_FAILED"@,
            "authority config changed during the publish transaction"@,
        ),
{
    if same_text(current, expected) {
        Ok(())
    } else {
        Err(
            Error::new(
                "PUBLISH_VERIFY_FAILED",
                "authority config changed during the publish transaction",
            ),
        )
    }
}

/// A reference with what it points at, in the private repository of a session.
pub fn private_target_command(common_path: &[u8], target: &[u8]) -> (command: Command)
    ensures
        command@ == CommandView::isolated(Some(common_path@)).word("for-each-ref"@).word(
            "--format=%(refname) %(objectname) %(objecttype) %(symref)"@,
        ).path(branch_reference(target@)),
{
    Command::isolated(Some(common_path)).word("for-each-ref").word(
        "--format=%(refname) %(objectname) %(objecttype) %(symref)",
    ).path(branch_name(target).as_slice())
}

/// A reference with what it points at, in the authority.
pub fn authority_target_command(authority: &Authority, target: &[u8]) -> (command: Command)
    ensures
        command@ == CommandView::within(authority@.canonical).word("for-each-ref"@).word(
            "--format=%(refname) %(objectname) %(objecttype) %(symref)"@,
        ).path(branch_reference(target@)),
{
    Command::within(authority.canonical.as_slice()).word("for-each-ref").word(
        "--format=%(refname) %(objectname) %(objecttype) %(symref)",
    ).path(branch_name(target).as_slice())
}

/// How wide the objects of a format are, where it is one.
pub open spec fn format_width(object_format: Seq<char>) -> Option<nat> {
    if object_format == "sha1"@ {
        Some(40)
    } else if object_format == "sha256"@ {
        Some(64)
    } else {
        None
    }
}

pub open spec fn is_oid_of(oid: Seq<u8>, object_format: Seq<char>) -> bool {
    format_width(object_format) == Some(oid.len()) && all_lower_hex(oid)
}

pub fn oid_matches_format(oid: &str, object_format: &str) -> (matches: bool)
    ensures
        matches == is_oid_of(utf8(oid@), object_format@),
{
    let width: usize = if same_text(object_format, "sha1") {
        40
    } else if same_text(object_format, "sha256") {
        64
    } else {
        return false;
    };
    oid.as_bytes().len() == width && only_lower_hex(oid.as_bytes())
}

pub open spec fn publish_oid_failure(oid: Seq<u8>, object_format: Seq<char>) -> Option<Failure> {
    let f = or_fail(
        None,
        utf8_text(oid) is Some,
        "PUBLISH_VERIFY_FAILED"@,
        "publish target object ID was not ASCII"@,
    );
    or_fail(
        f,
        is_oid_of(oid, object_format),
        "PUBLISH_VERIFY_FAILED"@,
        "publish target object ID did not match the authority format"@,
    )
}

pub fn parse_publish_oid(output: &[u8], object_format: &str) -> (oid: Result<String, Error>)
    ensures
        failure(oid) == publish_oid_failure(output@, object_format@),
        oid matches Ok(oid) ==> utf8(oid@) == output@,
{
    match decode_text(output) {
        None => Err(Error::new("PUBLISH_VERIFY_FAILED", "publish target object ID was not ASCII")),
        Some(oid) => if oid_matches_format(oid.as_str(), object_format) {
            Ok(oid)
        } else {
            Err(
                Error::new(
                    "PUBLISH_VERIFY_FAILED",
                    "publish target object ID did not match the authority format",
                ),
            )
        },
    }
}

/// The four fields of a reference as it is printed; the last of them takes the rest of the line.
pub open spec fn target_fields(line: Seq<u8>) -> Seq<Seq<u8>> {
    split_at_each(line, 32)
}

/// A line that shows one direct reference to a commit.
pub open spec fn is_direct_commit(fields: Seq<Seq<u8>>, expected_ref: Seq<u8>) -> bool {
    &&& fields[0] == expected_ref
    &&& fields[2] == utf8("commit"@)
    &&& fields.len() == 4
    &&& fields[3].len() == 0
}

pub open spec fn target_output_failure(
    output: Seq<u8>,
    expected_ref: Seq<u8>,
    object_format: Seq<char>,
) -> Option<Failure> {
    if output.len() == 0 {
        None
    } else {
        match single_line(output) {
            None => Some(verify_failed("publish target output was ambiguous"@)),
            Some(line) => {
                let fields = target_fields(line);
                let f = or_fail(
                    None,
                    fields.len() >= 4,
                    "PUBLISH_VERIFY_FAILED"@,
                    "publish target output was malformed"@,
                );
                let f = or_fail(
                    f,
                    is_direct_commit(fields, expected_ref),
                    "PUBLISH_VERIFY_FAILED"@,
                    "publish target is not one direct commit reference"@,
                );
                if f is Some {
                    f
                } else {
                    publish_oid_failure(fields[1], object_format)
                }
            },
        }
    }
}

/// What a reference points at, as Git prints it; nothing is printed where it does not exist.
pub fn parse_target_commit_output(output: &[u8], expected_ref: &[u8], object_format: &str) -> (oid:
    Result<Option<String>, Error>)
    ensures
        failure(oid) == target_output_failure(output@, expected_ref@, object_format@),
        oid matches Ok(oid) ==> match oid {
            None => output@.len() == 0,
            Some(oid) => output@.len() > 0 && single_line(output@) is Some && utf8(oid@)
                == target_fields(single_line(output@)->0)[1],
        },
{
    if output.len() == 0 {
        return Ok(None);
    }
    match one_line(output) {
        None => Err(Error::new("PUBLISH_VERIFY_FAILED", "publish target output was ambiguous")),
        Some(line) => {
            let fields = split(line, 32);
            if fields.len() < 4 {
                return Err(
                    Error::new("PUBLISH_VERIFY_FAILED", "publish target output was malformed"),
                );
            }
            proof {
                assert(views(fields@)[0] == fields@[0]@);
                assert(views(fields@)[1] == fields@[1]@);
                assert(views(fields@)[2] == fields@[2]@);
                assert(views(fields@)[3] == fields@[3]@);
            }
            if !same_bytes(fields[0].as_slice(), expected_ref) || !same_bytes(
                fields[2].as_slice(),
                "commit".as_bytes(),
            ) || fields.len() != 4 || fields[3].len() != 0 {
                return Err(
                    Error::new(
                        "PUBLISH_VERIFY_FAILED",
                        "publish target is not one direct commit reference",
                    ),
                );
            }
            let oid = parse_publish_oid(fields[1].as_slice(), object_format)?;
            Ok(Some(oid))
        },
    }
}

pub open spec fn target_commit_failure(
    outcome: Result<Output, git::Error>,
    target: Seq<u8>,
    object_format: Seq<char>,
) -> Option<Failure> {
    match outcome {
        Err(_) => Some(verify_failed("cannot read publish target"@)),
        Ok(output) => if output.clean() {
            target_output_failure(output.stdout@, branch_reference(target), object_format)
        } else {
            Some(verify_failed("cannot read publish target"@))
        },
    }
}

/// What the branch points at, where the answer is one that can be used: nothing, or a commit.
pub open spec fn target_commit_value(outcome: Result<Output, git::Error>) -> Option<Seq<u8>> {
    match outcome {
        Ok(output) => if output.stdout@.len() == 0 {
            None
        } else {
            Some(target_fields(single_line(output.stdout@)->0)[1])
        },
        Err(_) => None,
    }
}

/// The bytes of an optional text.
pub open spec fn text_bytes(text: Option<String>) -> Option<Seq<u8>> {
    match text {
        Some(value) => Some(utf8(value@)),
        None => None,
    }
}

pub fn target_commit(outcome: Result<Output, git::Error>, target: &[u8], object_format: &str) -> (oid:
    Result<Option<String>, Error>)
    ensures
        failure(oid) == target_commit_failure(outcome, target@, object_format@),
        oid matches Ok(oid) ==> text_bytes(oid) == target_commit_value(outcome) && (
        oid matches Some(oid) ==> is_oid_of(utf8(oid@), object_format@)),
{
    let output = ran(outcome, "PUBLISH_VERIFY_FAILED", "cannot read publish target")?;
    if !output.is_clean() {
        return Err(Error::new("PUBLISH_VERIFY_FAILED", "cannot read publish target"));
    }
    parse_target_commit_output(
        output.stdout.as_slice(),
        branch_name(target).as_slice(),
        object_format,
    )
}

pub fn authority_target_commit(
    outcome: Result<Output, git::Error>,
    target: &[u8],
    object_format: &str,
) -> (oid: Result<Option<String>, Error>)
    ensures
        failure(oid) == target_commit_failure(outcome, target@, object_format@),
        oid matches Ok(oid) ==> text_bytes(oid) == target_commit_value(outcome) && (
        oid matches Some(oid) ==> is_oid_of(utf8(oid@), object_format@)),
{
    target_commit(outcome, target, object_format)
}

pub open spec fn private_target_failure(
    outcome: Result<Output, git::Error>,
    target: Seq<u8>,
    object_format: Seq<char>,
) -> Option<Failure> {
    let f = target_commit_failure(outcome, target, object_format);
    or_fail(
        f,
        target_commit_value(outcome) is Some,
        "PUBLISH_VERIFY_FAILED"@,
        "private target is absent or not a direct commit"@,
    )
}

pub fn private_target_commit(
    outcome: Result<Output, git::Error>,
    target: &[u8],
    object_format: &str,
) -> (oid: Result<String, Error>)
    ensures
        failure(oid) == private_target_failure(outcome, target@, object_format@),
        oid matches Ok(oid) ==> Some(utf8(oid@)) == target_commit_value(outcome) && is_oid_of(
            utf8(oid@),
            object_format@,
        ),
{
    match target_commit(outcome, target, object_format)? {
        Some(oid) => Ok(oid),
        None => Err(
            Error::new(
                "PUBLISH_VERIFY_FAILED",
                "private target is absent or not a direct commit",
            ),
        ),
    }
}

pub open spec fn private_unchanged_failure(
    outcome: Result<Output, git::Error>,
    target: Seq<u8>,
    object_format: Seq<char>,
    expected: Seq<char>,
) -> Option<Failure> {
    let f = private_target_failure(outcome, target, object_format);
    or_fail(
        f,
        target_commit_value(outcome) == Some(utf8(expected)),
        "PUBLISH_VERIFY_FAILED"@,
        "private target changed after the publish journal was prepared"@,
    )
}

pub fn ensure_private_target(
    outcome: Result<Output, git::Error>,
    target: &[u8],
    object_format: &str,
    expected: &str,
) -> (same: Result<(), Error>)
    ensures
        failure(same) == private_unchanged_failure(outcome, target@, object_format@, expected@),
{
    let oid = private_target_commit(outcome, target, object_format)?;
    if same_bytes(oid.as_str().as_bytes(), expected.as_bytes()) {
        Ok(())
    } else {
        Err(
            Error::new(
                "PUBLISH_VERIFY_FAILED",
                "private target changed after the publish journal was prepared",
            ),
        )
    }
}

/// The bytes of an optional borrowed text.
pub open spec fn borrowed_bytes(text: Option<&str>) -> Option<Seq<u8>> {
    match text {
        Some(value) => Some(utf8(value@)),
        None => None,
    }
}

pub fn same_target(found: &Option<String>, expected: Option<&str>) -> (same: bool)
    ensures
        same == (text_bytes(*found) == borrowed_bytes(expected)),
{
    match (found, expected) {
        (Some(found), Some(expected)) => same_bytes(
            found.as_str().as_bytes(),
            expected.as_bytes(),
        ),
        (None, None) => true,
        _ => false,
    }
}

pub open spec fn authority_unchanged_failure(
    outcome: Result<Output, git::Error>,
    target: Seq<u8>,
    object_format: Seq<char>,
    expected: Option<Seq<u8>>,
) -> Option<Failure> {
    let f = target_commit_failure(outcome, target, object_format);
    or_fail(
        f,
        target_commit_value(outcome) == expected,
        "PUBLISH_CONFLICT"@,
        "authority target no longer matches the frozen expected-old"@,
    )
}

pub fn ensure_authority_expected_old(
    outcome: Result<Output, git::Error>,
    target: &[u8],
    object_format: &str,
    expected_old: Option<&str>,
) -> (same: Result<(), Error>)
    ensures
        failure(same) == authority_unchanged_failure(
            outcome,
            target@,
            object_format@,
            borrowed_bytes(expected_old),
        ),
{
    let oid = authority_target_commit(outcome, target, object_format)?;
    if same_target(&oid, expected_old) {
        Ok(())
    } else {
        Err(
            Error::new(
                "PUBLISH_CONFLICT",
                "authority target no longer matches the frozen expected-old",
            ),
        )
    }
}

/// Whether the ancestry of a commit has to be asked for: not where there is nothing to descend from,
/// nor of the commit itself.
pub open spec fn asks_relation(expected_old: Option<Seq<char>>, new: Seq<char>) -> bool {
    expected_old matches Some(old) && old != new
}

/// The question whether one commit descends from the other, where it has to be asked.
pub fn publish_relation_command(common_path: &[u8], expected_old: Option<&str>, new: &str) -> (command:
    Option<Command>)
    ensures
        command is Some == asks_relation(optional_text(expected_old), new@),
        command matches Some(command) ==> command@ == CommandView::isolated(
            Some(common_path@),
        ).word("merge-base"@).word("--is-ancestor"@).word(expected_old->0@).word(new@),
{
    match expected_old {
        None => None,
        Some(old) => if same_text(old, new) {
            None
        } else {
            Some(
                Command::isolated(Some(common_path)).word("merge-base").word("--is-ancestor").word(
                    old,
                ).word(new),
            )
        },
    }
}

pub open spec fn relation_failure(outcome: Result<Output, git::Error>) -> Option<Failure> {
    match outcome {
        Err(_) => Some(verify_failed("cannot verify publish ancestry"@)),
        Ok(output) => if output.silent() {
            None
        } else if output.status.code == Some(1i32) && output.stdout@.len() == 0
            && output.stderr@.len() == 0 {
            Some(
                (
                    "PUBLISH_NON_FAST_FORWARD"@,
                    "private target is not a fast-forward of the frozen authority target"@,
                ),
            )
        } else {
            Some(verify_failed("cannot prove the publish ancestry relation"@))
        },
    }
}

pub fn ensure_publish_relation(outcome: Result<Output, git::Error>) -> (holds: Result<(), Error>)
    ensures
        failure(holds) == relation_failure(outcome),
{
    let output = ran(outcome, "PUBLISH_VERIFY_FAILED", "cannot verify publish ancestry")?;
    if output.is_silent() {
        return Ok(());
    }
    let one: bool = match output.status.code {
        Some(code) => code == 1,
        None => false,
    };
    if one && output.stdout.len() == 0 && output.stderr.len() == 0 {
        return Err(
            Error::new(
                "PUBLISH_NON_FAST_FORWARD",
                "private target is not a fast-forward of the frozen authority target",
            ),
        );
    }
    Err(Error::new("PUBLISH_VERIFY_FAILED", "cannot prove the publish ancestry relation"))
}

pub fn import_publish_objects_command(authority: &Authority, common_path: &[u8], new: &str) -> (command:
    Command)
    ensures
        command@ == CommandView::within(authority@.canonical).word("fetch"@).word("--quiet"@).word(
            "--no-write-fetch-head"@,
        ).word("--no-tags"@).word("--no-auto-maintenance"@).word("--no-write-commit-graph"@).word(
            "--recurse-submodules=no"@,
        ).path(common_path@).word(new@),
{
    Command::within(authority.canonical.as_slice()).word("fetch").word("--quiet").word(
        "--no-write-fetch-head",
    ).word("--no-tags").word("--no-auto-maintenance").word("--no-write-commit-graph").word(
        "--recurse-submodules=no",
    ).path(common_path).word(new)
}

pub open spec fn import_failure(outcome: Result<Output, git::Error>) -> Option<Failure> {
    match outcome {
        Err(_) => Some(("PUBLISH_IMPORT_FAILED"@, "cannot import private objects"@)),
        Ok(output) => or_fail(
            None,
            output.status.succeeded(),
            "PUBLISH_IMPORT_FAILED"@,
            "Git rejected the fixed-object import"@,
        ),
    }
}

pub fn import_publish_objects(outcome: Result<Output, git::Error>) -> (imported: Result<(), Error>)
    ensures
        failure(imported) == import_failure(outcome),
{
    let output = ran(outcome, "PUBLISH_IMPORT_FAILED", "cannot import private objects")?;
    if output.status.success() {
        Ok(())
    } else {
        Err(Error::new("PUBLISH_IMPORT_FAILED", "Git rejected the fixed-object import"))
    }
}

pub fn imported_commit_command(authority: &Authority, new: &str) -> (command: Command)
    ensures
        command@ == CommandView::within(authority@.canonical).word("cat-file"@).word("-e"@).path(
            utf8(new@) + utf8("^{commit}"@),
        ),
{
    Command::within(authority.canonical.as_slice()).word("cat-file").word("-e").path(
        crate::bytes::concat(new.as_bytes(), "^{commit}".as_bytes()).as_slice(),
    )
}

pub fn imported_closure_command(authority: &Authority, new: &str) -> (command: Command)
    ensures
        command@ == CommandView::within(authority@.canonical).word("fsck"@).word(
            "--connectivity-only"@,
        ).word("--no-reflogs"@).word("--no-dangling"@).word("--no-progress"@).path(
            utf8(new@) + utf8("^{commit}"@),
        ),
{
    Command::within(authority.canonical.as_slice()).word("fsck").word("--connectivity-only").word(
        "--no-reflogs",
    ).word("--no-dangling").word("--no-progress").path(
        crate::bytes::concat(new.as_bytes(), "^{commit}".as_bytes()).as_slice(),
    )
}

pub open spec fn imported_failure(outcome: Result<Output, git::Error>) -> Option<Failure> {
    match outcome {
        Err(_) => Some(verify_failed("cannot verify imported commit"@)),
        Ok(output) => or_fail(
            None,
            output.silent(),
            "PUBLISH_VERIFY_FAILED"@,
            "authority does not contain the imported commit"@,
        ),
    }
}

pub open spec fn closure_failure(outcome: Result<Output, git::Error>) -> Option<Failure> {
    match outcome {
        Err(_) => Some(verify_failed("cannot verify imported closure"@)),
        Ok(output) => or_fail(
            None,
            output.silent(),
            "PUBLISH_VERIFY_FAILED"@,
            "authority does not prove the imported commit closure"@,
        ),
    }
}

/// Whether the authority has the commit.
pub fn verify_imported_commit(outcome: Result<Output, git::Error>) -> (has: Result<(), Error>)
    ensures
        failure(has) == imported_failure(outcome),
{
    let output = ran(outcome, "PUBLISH_VERIFY_FAILED", "cannot verify imported commit")?;
    if !output.is_silent() {
        return Err(
            Error::new("PUBLISH_VERIFY_FAILED", "authority does not contain the imported commit"),
        );
    }
    Ok(())
}

/// Whether the authority has all that the commit leads to.
pub fn verify_authority_closure(outcome: Result<Output, git::Error>) -> (has: Result<(), Error>)
    ensures
        failure(has) == closure_failure(outcome),
{
    let output = ran(outcome, "PUBLISH_VERIFY_FAILED", "cannot verify imported closure")?;
    if output.is_silent() {
        Ok(())
    } else {
        Err(
            Error::new(
                "PUBLISH_VERIFY_FAILED",
                "authority does not prove the imported commit closure",
            ),
        )
    }
}

pub open spec fn zeros(count: nat) -> Seq<char> {
    Seq::new(count, |i: int| '0')
}

/// What the reference must point at for the update to be made: nothing is written as all zeros.
pub open spec fn old_text(expected_old: Option<Seq<char>>, object_format: Seq<char>) -> Seq<char> {
    match expected_old {
        Some(old) => old,
        None => zeros(oid_width(object_format)),
    }
}

fn absent_oid(object_format: &str) -> (text: String)
    ensures
        text@ == zeros(oid_width(object_format@)),
{
    let text: String = if same_text(object_format, "sha1") {
        crate::bytes::text_of("0000000000000000000000000000000000000000")
    } else {
        crate::bytes::text_of("0000000000000000000000000000000000000000000000000000000000000000")
    };
    proof {
        reveal_strlit("0000000000000000000000000000000000000000");
        reveal_strlit("0000000000000000000000000000000000000000000000000000000000000000");
        assert(text@ =~= zeros(oid_width(object_format@)));
    }
    text
}

/// The compare-and-swap of a branch: it is set only where it still points at what was expected.
pub fn update_publish_ref_command(
    authority: &Authority,
    target: &[u8],
    new: &str,
    expected_old: Option<&str>,
) -> (command: Command)
    ensures
        command@ == CommandView::within(authority@.canonical).word("update-ref"@).word(
            "--no-deref"@,
        ).path(branch_reference(target@)).word(new@).word(
            old_text(optional_text(expected_old), authority@.object_format),
        ),
{
    let old = match expected_old {
        Some(old) => crate::bytes::text_of(old),
        None => absent_oid(authority.object_format.as_str()),
    };
    Command::within(authority.canonical.as_slice()).word("update-ref").word("--no-deref").path(
        branch_name(target).as_slice(),
    ).word(new).word(old.as_str())
}

/// What became of the compare-and-swap: whether the branch was set, where that is known.
pub fn update_publish_ref(outcome: Result<Output, git::Error>) -> (updated: Result<bool, Error>)
    ensures
        failure(updated) == match outcome {
            Err(_) => Some(("PUBLISH_RECOVERY_REQUIRED"@, "publish CAS result is unknown"@)),
            Ok(_) => None,
        },
        updated matches Ok(updated) ==> updated == outcome->Ok_0.status.succeeded(),
{
    let output = ran(outcome, "PUBLISH_RECOVERY_REQUIRED", "publish CAS result is unknown")?;
    Ok(output.status.success())
}

/// The option that names a repository.
pub open spec fn git_dir(common: Seq<u8>) -> Seq<u8> {
    utf8("--git-dir="@) + common
}

fn git_dir_option(common: &[u8]) -> (option: Vec<u8>)
    ensures
        option@ == git_dir(common@),
{
    crate::bytes::concat("--git-dir=".as_bytes(), common)
}

/// The run that makes the private repository of a session, in the formats of its authority.
pub open spec fn init_private_common_args(
    authority: AuthorityView,
    common: Seq<u8>,
    empty_template: Seq<u8>,
) -> CommandView {
    let start = CommandView::isolated(None).word("init"@).word("--bare"@).word("--quiet"@).path(
        utf8("--object-format="@) + utf8(authority.object_format),
    );
    let formats = if authority.ref_format == "files"@ {
        start
    } else {
        start.path(utf8("--ref-format="@) + utf8(authority.ref_format))
    };
    formats.path(utf8("--template="@) + empty_template).path(common)
}

pub fn init_private_common_command(authority: &Authority, common: &[u8], empty_template: &[u8]) -> (command:
    Command)
    ensures
        command@ == init_private_common_args(authority@, common@, empty_template@),
{
    let start = Command::isolated(None).word("init").word("--bare").word("--quiet").path(
        crate::bytes::concat(
            "--object-format=".as_bytes(),
            authority.object_format.as_str().as_bytes(),
        ).as_slice(),
    );
    let formats = if same_text(authority.ref_format.as_str(), "files") {
        start
    } else {
        start.path(
            crate::bytes::concat(
                "--ref-format=".as_bytes(),
                authority.ref_format.as_str().as_bytes(),
            ).as_slice(),
        )
    };
    formats.path(
        crate::bytes::concat("--template=".as_bytes(), empty_template).as_slice(),
    ).path(common)
}

pub open spec fn could_not(label: Seq<char>) -> Failure {
    ("SESSION_IO_FAILED"@, "Git could not "@ + label)
}

pub open spec fn clean_failure(outcome: Result<Output, git::Error>, label: Seq<char>) -> Option<
    Failure,
> {
    match outcome {
        Err(error) => Some(error@),
        Ok(output) => if output.clean() {
            None
        } else {
            Some(could_not(label))
        },
    }
}

/// What Git printed, where it had nothing to complain about.
pub fn clean_git_output(outcome: Result<Output, git::Error>, label: &str) -> (stdout: Result<
    Vec<u8>,
    Error,
>)
    ensures
        failure(stdout) == clean_failure(outcome, label@),
        stdout matches Ok(stdout) ==> stdout@ == outcome->Ok_0.stdout@,
{
    let output = ran_or_git_error(outcome)?;
    if output.is_clean() {
        Ok(output.stdout)
    } else {
        Err(Error::new("SESSION_IO_FAILED", join2("Git could not ", label).as_str()))
    }
}

pub fn require_clean(outcome: Result<Output, git::Error>, label: &str) -> (clean: Result<(), Error>)
    ensures
        failure(clean) == clean_failure(outcome, label@),
{
    let output = ran_or_git_error(outcome)?;
    if output.is_clean() {
        Ok(())
    } else {
        Err(Error::new("SESSION_IO_FAILED", join2("Git could not ", label).as_str()))
    }
}

pub fn init_private_common(outcome: Result<Output, git::Error>) -> (made: Result<(), Error>)
    ensures
        failure(made) == clean_failure(outcome, "initialize private common-dir"@),
{
    require_clean(outcome, "initialize private common-dir")
}

/// The line that lends a private repository the objects of its authority, where the path can be
/// written on a line.
pub fn alternate_entry(authority_objects: &[u8]) -> (line: Result<Vec<u8>, Error>)
    ensures
        failure(line) == or_fail(
            None,
            !authority_objects@.contains(10) && !authority_objects@.contains(13),
            "SESSION_IO_FAILED"@,
            "authority object path cannot be encoded as one alternate entry"@,
        ),
        line matches Ok(line) ==> line@ == authority_objects@.push(10),
{
    if contains_byte(authority_objects, 10) || contains_byte(authority_objects, 13) {
        return Err(
            Error::new(
                "SESSION_IO_FAILED",
                "authority object path cannot be encoded as one alternate entry",
            ),
        );
    }
    let mut line = copy_bytes(authority_objects);
    line.push(10);
    Ok(line)
}

/// How writing that line went, step by step.
#[derive(Debug)]
pub struct AlternateWritten {
    pub objects: Result<(), Error>,
    pub info: Result<(), Error>,
    pub created: Result<(), String>,
    pub written: Result<(), String>,
    pub synced: Result<(), String>,
}

pub open spec fn io_failed(context: Seq<char>, outcome: Result<(), String>) -> Option<Failure> {
    match outcome {
        Ok(_) => None,
        Err(words) => Some(("SESSION_IO_FAILED"@, context + ": "@ + words@)),
    }
}

fn io_done(outcome: Result<(), String>, context: &str) -> (done: Result<(), Error>)
    ensures
        failure(done) == io_failed(context@, outcome),
{
    match outcome {
        Ok(_) => Ok(()),
        Err(words) => Err(Error::io("SESSION_IO_FAILED", context, words.as_str())),
    }
}

impl AlternateWritten {
    pub open spec fn write_failure(self) -> Option<Failure> {
        first_of(
            failure(self.objects),
            first_of(
                failure(self.info),
                first_of(
                    io_failed("cannot create private object alternate"@, self.created),
                    first_of(
                        io_failed("cannot persist private object alternate"@, self.written),
                        io_failed("cannot sync alternate parent"@, self.synced),
                    ),
                ),
            ),
        )
    }
}

pub fn write_alternate(written: AlternateWritten) -> (done: Result<(), Error>)
    ensures
        failure(done) == written.write_failure(),
{
    written.objects?;
    written.info?;
    io_done(written.created, "cannot create private object alternate")?;
    io_done(written.written, "cannot persist private object alternate")?;
    io_done(written.synced, "cannot sync alternate parent")
}

pub fn configure_command(common: &[u8], key: &str) -> (command: Command)
    ensures
        command@ == CommandView::isolated(None).path(git_dir(common@)).word("config"@).word(
            key@,
        ).word("true"@),
{
    Command::in_git_dir(common).word("config").word(key).word(
        "true",
    )
}

pub fn configured_command(common: &[u8], key: &str) -> (command: Command)
    ensures
        command@ == CommandView::isolated(None).path(git_dir(common@)).word("config"@).word(
            "--get"@,
        ).word(key@),
{
    Command::in_git_dir(common).word("config").word(
        "--get",
    ).word(key)
}

pub open spec fn configured_failure(got: Result<Output, git::Error>) -> Option<Failure> {
    let f = git_failure(got);
    or_fail(
        f,
        got matches Ok(output) && output.clean() && output.stdout@ == utf8("true"@).push(10),
        "SESSION_IO_FAILED"@,
        "private common-dir did not retain required Git configuration"@,
    )
}

/// A setting is made.
pub fn configure_private_common(set: Result<Output, git::Error>) -> (done: Result<(), Error>)
    ensures
        failure(done) == clean_failure(set, "configure private common-dir"@),
{
    require_clean(set, "configure private common-dir")
}

/// A setting is there when it is asked for.
pub fn check_private_common(got: Result<Output, git::Error>) -> (retained: Result<(), Error>)
    ensures
        failure(retained) == configured_failure(got),
{
    let output = ran_or_git_error(got)?;
    let mut expected = bytes_of("true");
    expected.push(10);
    if !output.is_clean() || !same_bytes(output.stdout.as_slice(), expected.as_slice()) {
        return Err(
            Error::new(
                "SESSION_IO_FAILED",
                "private common-dir did not retain required Git configuration",
            ),
        );
    }
    Ok(())
}

pub fn add_linked_worktree_command(common: &[u8], worktree: &[u8], target: &[u8], base: &str) -> (command:
    Command)
    ensures
        command@ == CommandView::isolated(None).path(git_dir(common@)).word("worktree"@).word(
            "add"@,
        ).word("--quiet"@).word("--no-checkout"@).word("-b"@).path(target@).path(worktree@).word(
            base@,
        ),
{
    Command::in_git_dir(common).word("worktree").word(
        "add",
    ).word("--quiet").word("--no-checkout").word("-b").path(target).path(worktree).word(base)
}

pub fn add_linked_worktree(outcome: Result<Output, git::Error>) -> (made: Result<(), Error>)
    ensures
        failure(made) == clean_failure(outcome, "create private linked worktree"@),
{
    require_clean(outcome, "create private linked worktree")
}

pub fn read_tree_command(worktree: &[u8]) -> (command: Command)
    ensures
        command@ == CommandView::isolated(Some(worktree@)).word("read-tree"@).word("--reset"@).word(
            "HEAD"@,
        ),
{
    Command::isolated(Some(worktree)).word("read-tree").word("--reset").word("HEAD")
}

pub fn read_tree(outcome: Result<Output, git::Error>) -> (done: Result<(), Error>)
    ensures
        failure(done) == clean_failure(outcome, "build linked-worktree index"@),
{
    require_clean(outcome, "build linked-worktree index")
}

pub fn status_command(worktree: &[u8]) -> (command: Command)
    ensures
        command@ == CommandView::isolated(Some(worktree@)).word("status"@).word(
            "--porcelain=v1"@,
        ).word("--untracked-files=all"@),
{
    Command::isolated(Some(worktree)).word("status").word("--porcelain=v1").word(
        "--untracked-files=all",
    )
}

pub open spec fn status_failure(outcome: Result<Output, git::Error>) -> Option<Failure> {
    match outcome {
        Err(error) => Some(error@),
        Ok(output) => or_fail(
            None,
            output.silent(),
            "SESSION_DIRTY"@,
            "new linked worktree did not have a clean Git status"@,
        ),
    }
}

pub fn status_clean(outcome: Result<Output, git::Error>) -> (clean: Result<(), Error>)
    ensures
        failure(clean) == status_failure(outcome),
{
    let output = ran_or_git_error(outcome)?;
    if output.is_silent() {
        Ok(())
    } else {
        Err(Error::new("SESSION_DIRTY", "new linked worktree did not have a clean Git status"))
    }
}

/// What is seen of a file while it is read: its entry, the opened file, its bytes, and both again.
#[derive(Debug)]
pub struct RegularSeen {
    pub before: Result<Identity, Error>,
    pub opened: Result<Result<Identity, Error>, String>,
    pub bytes: Result<Vec<u8>, String>,
    pub descriptor: Result<Identity, Error>,
    pub after: Result<Identity, Error>,
}

pub open spec fn is_owned_regular(identity: Identity, uid: u32) -> bool {
    identity.is_regular() && identity.uid == uid && identity.nlink == 1
}

impl RegularSeen {
    pub open spec fn opened_failure(self, label: Seq<char>, uid: u32) -> Option<Failure> {
        let f = failure(self.before);
        let f = or_fail(
            f,
            self.before matches Ok(before) && is_owned_regular(before, uid),
            "SESSION_CORRUPT"@,
            label + " is not an owned regular file"@,
        );
        let f = first_of(
            f,
            match self.opened {
                Err(words) => Some(
                    ("SESSION_IO_FAILED"@, "cannot open "@ + label + ": "@ + words@),
                ),
                Ok(opened) => failure(opened),
            },
        );
        or_fail(
            f,
            self.opened matches Ok(Ok(opened)) && self.before == Ok::<Identity, Error>(opened),
            "SESSION_CORRUPT"@,
            label + " changed while opening"@,
        )
    }

    pub open spec fn read_failure(self, label: Seq<char>, uid: u32) -> Option<Failure> {
        let f = self.opened_failure(label, uid);
        let f = first_of(
            f,
            match self.bytes {
                Err(words) => Some(
                    ("SESSION_IO_FAILED"@, "cannot read "@ + label + ": "@ + words@),
                ),
                Ok(_) => None,
            },
        );
        let f = or_fail(
            f,
            self.bytes matches Ok(bytes) && bytes@.len() <= MAX_RECORD,
            "SESSION_CORRUPT"@,
            label + " exceeds its receipt limit"@,
        );
        let f = first_of(f, failure(self.descriptor));
        let f = or_fail(
            f,
            self.descriptor matches Ok(descriptor) && self.before == Ok::<Identity, Error>(
                descriptor,
            ),
            "SESSION_CORRUPT"@,
            label + " changed while reading"@,
        );
        let f = first_of(f, failure(self.after));
        or_fail(
            f,
            self.after matches Ok(after) && self.before == Ok::<Identity, Error>(after),
            "SESSION_CORRUPT"@,
            label + " changed while reading"@,
        )
    }
}

/// The bytes of a file that stayed what it was while it was read.
pub fn read_regular_at(seen: RegularSeen, label: &str, uid: u32) -> (bytes: Result<Vec<u8>, Error>)
    ensures
        failure(bytes) == seen.read_failure(label@, uid),
        bytes matches Ok(bytes) ==> seen.bytes == Ok::<Vec<u8>, String>(bytes),
{
    let before = seen.before?;
    if !before.regular() || before.uid != uid || before.nlink != 1 {
        return Err(
            Error::new("SESSION_CORRUPT", join2(label, " is not an owned regular file").as_str()),
        );
    }
    let opened = match seen.opened {
        Err(words) => {
            return Err(
                Error::io("SESSION_IO_FAILED", join2("cannot open ", label).as_str(), words.as_str()),
            );
        },
        Ok(opened) => opened?,
    };
    if opened != before {
        return Err(Error::new("SESSION_CORRUPT", join2(label, " changed while opening").as_str()));
    }
    let bytes = match seen.bytes {
        Err(words) => {
            return Err(
                Error::io("SESSION_IO_FAILED", join2("cannot read ", label).as_str(), words.as_str()),
            );
        },
        Ok(bytes) => bytes,
    };
    if bytes.len() > MAX_RECORD {
        return Err(
            Error::new("SESSION_CORRUPT", join2(label, " exceeds its receipt limit").as_str()),
        );
    }
    let descriptor = seen.descriptor?;
    if descriptor != before {
        return Err(Error::new("SESSION_CORRUPT", join2(label, " changed while reading").as_str()));
    }
    let after = seen.after?;
    if after != before {
        return Err(Error::new("SESSION_CORRUPT", join2(label, " changed while reading").as_str()));
    }
    Ok(bytes)
}

/// A file that was read is the one that stands there: owned, of one link, of a bounded size, and the
/// same before and after.
pub proof fn law_read_file_stood_still(seen: RegularSeen, label: Seq<char>, uid: u32)
    requires
        seen.read_failure(label, uid) is None,
    ensures
        seen.bytes is Ok,
        seen.bytes->Ok_0@.len() <= MAX_RECORD,
        is_owned_regular(seen.before->Ok_0, uid),
        seen.opened == Ok::<Result<Identity, Error>, String>(seen.before),
        seen.descriptor == seen.before,
        seen.after == seen.before,
{
}

pub fn head_command(worktree_path: &[u8]) -> (command: Command)
    ensures
        command@ == CommandView::isolated(None).word("-C"@).path(worktree_path@).word(
            "rev-parse"@,
        ).word("--verify"@).word("HEAD"@),
{
    Command::isolated(None).word("-C").path(worktree_path).word("rev-parse").word("--verify").word(
        "HEAD",
    )
}

pub fn target_ref_command(common_path: &[u8], target: &[u8]) -> (command: Command)
    ensures
        command@ == CommandView::isolated(None).path(git_dir(common_path@)).word("rev-parse"@).word(
            "--verify"@,
        ).path(branch_reference(target@)),
{
    Command::in_git_dir(common_path).word("rev-parse").word(
        "--verify",
    ).path(branch_name(target).as_slice())
}

pub fn index_command(worktree_path: &[u8]) -> (command: Command)
    ensures
        command@ == CommandView::isolated(None).word("-C"@).path(worktree_path@).word(
            "ls-files"@,
        ).word("--stage"@).word("-z"@).at_most(INDEX_RECEIPT_LIMIT),
{
    Command::isolated(None).word("-C").path(worktree_path).word("ls-files").word("--stage").word(
        "-z",
    ).at_most(INDEX_RECEIPT_LIMIT)
}

pub fn registry_command(common_path: &[u8]) -> (command: Command)
    ensures
        command@ == CommandView::isolated(None).path(git_dir(common_path@)).word("worktree"@).word(
            "list"@,
        ).word("--porcelain"@),
{
    Command::in_git_dir(common_path).word("worktree").word(
        "list",
    ).word("--porcelain")
}

/// What is seen of a linked worktree and its private repository.
#[derive(Debug)]
pub struct MetadataSeen {
    pub dot_git: RegularSeen,
    pub head: Result<Output, git::Error>,
    pub target_ref: Result<Output, git::Error>,
    pub index: Result<Output, git::Error>,
    pub worktrees: Result<Output, git::Error>,
    pub objects: Result<(), Error>,
    pub info: Result<(), Error>,
    pub alternates: RegularSeen,
}

impl MetadataSeen {
    pub open spec fn metadata_failure(self, uid: u32) -> Option<Failure> {
        let f = self.dot_git.read_failure("linked-worktree metadata"@, uid);
        let f = first_of(f, clean_failure(self.head, "read linked-worktree HEAD"@));
        let f = first_of(f, clean_failure(self.target_ref, "read private target ref"@));
        let f = first_of(f, clean_failure(self.index, "read linked-worktree index"@));
        let f = first_of(f, clean_failure(self.worktrees, "read private worktree registry"@));
        let f = first_of(f, failure(self.objects));
        let f = first_of(f, failure(self.info));
        first_of(f, self.alternates.read_failure("private alternate"@, uid))
    }

    /// The digest of each thing that was seen.
    pub open spec fn digests(self) -> GitMetadataView {
        GitMetadataView {
            dot_git: digest_text(self.dot_git.bytes->Ok_0@),
            head: digest_text(self.head->Ok_0.stdout@),
            target_ref: digest_text(self.target_ref->Ok_0.stdout@),
            index: digest_text(self.index->Ok_0.stdout@),
            worktrees: digest_text(self.worktrees->Ok_0.stdout@),
            alternates: digest_text(self.alternates.bytes->Ok_0@),
        }
    }
}

/// A digest is a hash in the sense of a record.
proof fn lemma_digests_are_hashes(text: Seq<char>)
    requires
        is_lower_hash(text),
    ensures
        crate::session::is_hash(text),
{
    assert forall|i: int| 0 <= i < utf8(text).len() implies crate::notation::is_hex(
        #[trigger] utf8(text)[i],
    ) by {
        assert(crate::notation::is_lower_hex(utf8(text)[i]));
    }
}

/// The receipt of a linked worktree.
pub fn git_metadata(seen: MetadataSeen, uid: u32) -> (receipt: Result<GitMetadataReceipt, Error>)
    ensures
        failure(receipt) == seen.metadata_failure(uid),
        receipt matches Ok(receipt) ==> receipt@ == seen.digests() && receipt@.is_valid(),
{
    let MetadataSeen { dot_git, head, target_ref, index, worktrees, objects, info, alternates } =
        seen;
    let dot_git = hash_bytes(read_regular_at(dot_git, "linked-worktree metadata", uid)?.as_slice());
    let head = hash_bytes(clean_git_output(head, "read linked-worktree HEAD")?.as_slice());
    let target_ref = hash_bytes(
        clean_git_output(target_ref, "read private target ref")?.as_slice(),
    );
    let index = hash_bytes(clean_git_output(index, "read linked-worktree index")?.as_slice());
    let worktrees = hash_bytes(
        clean_git_output(worktrees, "read private worktree registry")?.as_slice(),
    );
    objects?;
    info?;
    let alternates = hash_bytes(read_regular_at(alternates, "private alternate", uid)?.as_slice());
    proof {
        lemma_digests_are_hashes(dot_git@);
        lemma_digests_are_hashes(head@);
        lemma_digests_are_hashes(target_ref@);
        lemma_digests_are_hashes(index@);
        lemma_digests_are_hashes(worktrees@);
        lemma_digests_are_hashes(alternates@);
    }
    Ok(GitMetadataReceipt { dot_git, head, target_ref, index, worktrees, alternates })
}

} // verus!
