//! The command line: what its commands say of themselves, which options go together, and how a command
//! ends.

use crate::authority::{failure, Error};
use crate::bytes::join2;
use crate::git;
use crate::listing::list_selection;
use vstd::prelude::*;

verus! {

/// The help of the program itself.
pub const GETTING_STARTED: &'static str = r#"
QUICK START
  Use `git vws` (Git discovers the `git-vws` executable on PATH). Start with an
  existing bare repository or a normal project checkout.

  git clone --bare <source-url> <repo.git>
  git vws init <repo.git>
  git vws init <project>
  git vws --repo <repo.git> create feature-a --target feature/a
  git vws --repo <project> create feature-a --target feature/a
  git vws --repo <repo.git> list
  git vws --repo <repo.git> exec feature-a -- "$SHELL"
  # Edit files and run normal Git commands in the session shell:
  #   git status; git add .; git commit
  git vws --repo <repo.git> publish feature-a
  git vws --repo <repo.git> remove feature-a
  git vws gc

OPERATING MODEL
  A session is a normal writable directory with private HEAD, index, refs,
  uncommitted changes, and build output. Edit it with any editor; no editor
  plugin, FUSE mount, daemon, administrator service, or network is required.
  Initial file contents use native copy-on-write: APFS clonefile on macOS or
  FICLONE with shared-extent evidence on Linux. There is no full-copy fallback.
  Unsupported storage is rejected with STORAGE_UNSUPPORTED.

COMMAND ORDER
  init       Register and validate an existing Git repository.
  create     Create an isolated session and print its managed session root.
  list       Inspect sessions as one JSON object per line (NDJSON).
  exec       Run a program with the session worktree as its current directory.
  publish    Publish committed session work using expected-old fast-forward CAS.
  remove     Safely discard a session; --force permits destructive removal.
  doctor     Diagnose all registered state without reclaiming anything.
  gc         Reclaim only state that can be proven safe to remove.

REPOSITORY SELECTION
  Commands for one authority use --repo <PATH>; without it, the current
  directory is used. `init` takes a project or bare repository path. Normal
  project paths are canonicalized to their `.git` directory.
  `list --all`, `doctor`, and `gc` operate on all registered authorities and
  reject --repo. State is kept under $HOME/.git-vws and is shared by all
  registered repositories.

EDITING AND PUBLISHING
  After create, edit <printed-session-root>/worktree or use exec. Git sees a
  standard linked worktree, so status, diff, add, commit, checkout, reset,
  merge, and rebase are ordinary Git commands. publish does not commit for you:
  commit first, then publish with --repo. Publication never overwrites a target
  changed by another writer; resolve a conflict in the session and retry only
  after the target relation is valid.

OUTPUT AND RECOVERY
  list, doctor, and gc emit NDJSON intended for scripts and agents. Names and
  paths in list are hex-encoded OS-byte fields. Errors use stable codes such as
  SESSION_DISCARD_RISK, PUBLISH_RECOVERY_REQUIRED, and STORAGE_UNSUPPORTED.
  A recovery-required result is fail-closed: stop destructive actions, inspect
  the output with doctor, and preserve the session until the state is resolved.

SAFETY RULES
  remove refuses dirty sessions unless --force is explicit. Integrity and
  recovery failures are always refused. `--force` can discard uncommitted files
  and private Git objects. Run gc after successful removals. Do not put two
  sessions on the same target branch and expect both publishes to win;
  publication is intentionally CAS serialized by Git.

SUPPORTED SCOPE
  Git 2.34+ and Rust 1.85+ for builds. The ~/.git-vws state root must be on
  macOS APFS or a Linux filesystem that provides FICLONE plus verified shared
  FIEMAP extents. Windows, LFS, submodules, sparse or partial clones,
  clean/smudge filters, and unsupported ACL/xattr or file-flag combinations
  are outside the current release.

LICENSE
  GPL-3.0-only. Copyright (C) 2026 git-vws contributors. This program comes
  without any warranty; see the LICENSE file distributed with the source and
  release archive.

AI / AUTOMATION ENTRYPOINT
  First run `git vws -h`. Then run `git vws <command> -h` before executing an
  unfamiliar command. Use list/doctor/gc as machine-readable NDJSON streams,
  keep the exact session root returned by create, edit only
  <session-root>/worktree, and treat any non-zero exit or recovery code as a
  stop signal rather than guessing or deleting state.

Run `git vws <command> -h` for command-specific arguments and examples.
"#;

/// The help of `init`.
pub const INIT_HELP: &'static str = r#"
WHAT IT DOES
  Validates that PATH is a supported, sole Git repository and records it in the
  local $HOME/.git-vws registry. PATH may be a bare repository, a project root,
  or its `.git` directory. It does not create or clone a repository.

EXAMPLES
  git clone --bare <source-url> repo.git
  git vws init repo.git
  git vws init .
  git vws --repo repo.git create feature-a
  git vws --repo . create feature-a

REQUIREMENTS
  The authority must have git-dir == common-dir, use a supported object/ref
  format, and have no linked-worktree registry or object alternates. A bare
  path must be the Git directory itself; a normal project is recorded by its
  canonical `.git` directory.
  Initialization is idempotence-checked and fails closed if the path changes.
  Native COW support for $HOME/.git-vws is probed when a template is first
  created.
"#;

/// The help of `create`.
pub const CREATE_HELP: &'static str = r#"
WHAT IT DOES
  Creates a private Git state directory and a normal writable worktree. The
  worktree is populated with native copy-on-write file clones. The command
  prints the managed session root; the editable directory is
  <session-root>/worktree. Unchanged file data is shared; edits, new files, and
  build output belong only to this session.

DEFAULTS
  NAME is the local session name and, unless --target is supplied, also the
  target branch name. The starting commit is the existing target tip; if the
  target does not exist, HEAD is used. --from overrides the starting commit.

EXAMPLES
  git vws --repo repo.git create feature-a
  git vws --repo repo.git create bugfix --from main --target bugfix/login
  git vws --repo repo.git exec feature-a -- "$SHELL"

NEXT STEPS
  Open <printed-session-root>/worktree in an editor, or use exec. Inside the
  worktree, use ordinary Git commands: git status, git diff, git add,
  git commit, git checkout, git reset, git merge, and git rebase. Run publish
  with --repo only after committing changes you want on the target branch.

OPTIONS
  --path is an advanced recovery/topology assertion. It must equal the exact
  path managed by git-vws; it is not a general-purpose custom output path.
"#;

/// The help of `list`.
pub const LIST_HELP: &'static str = r#"
OUTPUT
  Each healthy session is one JSON object. Fields such as name_hex and
  managed_path_hex contain lowercase hexadecimal OS bytes so non-UTF-8 names
  remain unambiguous. A corrupt record is also emitted as JSON, then the command
  exits non-zero with SESSION_CORRUPT.

EXAMPLES
  git vws --repo repo.git list
  git vws list --all
  git vws --repo repo.git list | jq -c .

SELECTION
  Without --all, list inspects the selected authority (the current directory
  by default). --all scans every registered authority. --all and --repo cannot
  be combined. An empty, valid registry produces no data lines.
"#;

/// The help of `exec`.
pub const EXEC_HELP: &'static str = r#"
WHAT IT DOES
  Runs PROGRAM with the session worktree as its current directory, inherits
  standard input/output/error, and returns the child exit status. It does not
  start a daemon or alter the editor. Inherited GIT_* environment variables are
  removed so the child resolves Git metadata from this session.

EXAMPLES
  git vws --repo repo.git exec feature-a -- "$SHELL"
  git vws --repo repo.git exec feature-a -- cargo test
  git vws --repo repo.git exec feature-a -- git status --short

SYNTAX
  Put `--` before the program. NAME selects a session by its normal name. Use
  --name-hex when an exact lowercase hexadecimal OS-byte name is required.
  The command's exit code is the program's exit code; a git-vws failure uses a
  non-zero code and prints a stable error code.
"#;

/// The help of `remove`.
pub const REMOVE_HELP: &'static str = r#"
DEFAULT BEHAVIOR
  Refuses to remove a READY session when it has tracked, untracked, ignored, or
  private Git content that could be lost. Stop programs using the worktree
  first. Removal uses a tombstone transition so an interrupted cleanup can be
  diagnosed and completed by gc.

EXAMPLES
  git vws --repo repo.git remove feature-a
  git vws --repo repo.git remove feature-a --force
  git vws gc

WARNING
  --force is destructive. It permits discarding uncommitted files and private
  Git objects. It does not bypass integrity or recovery checks. If the command
  returns SESSION_RECOVERY_REQUIRED, preserve the session and run doctor; do
  not remove its files by hand.

OUTPUT
  A successful removal emits one JSON event. Removing an already absent name
  is an idempotent event for the selected authority.
"#;

/// The help of `publish`.
pub const PUBLISH_HELP: &'static str = r#"
WHAT IT DOES
  Publishes the session's committed target branch to the registered authority.
  It first verifies the private commit closure, imports missing
  objects, and performs an expected-old compare-and-swap on the target ref.

REQUIRED WORKFLOW
  1. Edit files in the session worktree.
  2. Run git add and git commit there.
  3. Run publish with --repo from any directory.

EXAMPLES
  git vws --repo repo.git exec feature-a -- git status
  git vws --repo repo.git exec feature-a -- git add .
  git vws --repo repo.git exec feature-a -- git commit -m "Implement change"
  git vws --repo repo.git publish feature-a

CONFLICTS AND RECOVERY
  New-target, same-tip, and fast-forward publication are supported. If another
  writer changes the target first, publish exits non-zero and never overwrites
  that update; rebase or merge in the session, then retry. A
  PUBLISH_RECOVERY_REQUIRED result means a CAS outcome is not safely replayable:
  stop publishing and inspect the state with doctor before taking action.

NOTE
  publish does not create a commit and does not publish uncommitted edits.
"#;

/// The help of `doctor`.
pub const DOCTOR_HELP: &'static str = r#"
WHAT IT DOES
  Scans the local $HOME/.git-vws registry, sessions, templates, bindings, and
  private Git storage. It emits NDJSON item/finding records plus a summary.
  doctor is read-only and never reclaims tombstones or objects.

EXAMPLES
  git vws doctor
  git vws doctor | jq -c .

EXIT STATUS
  A recovery finding produces DOCTOR_RECOVERY_REQUIRED. Preserve affected
  state and use the emitted scope, path_hex, and code to decide the next
  operation. This command operates globally; --repo is rejected.
"#;

/// The help of `gc`.
pub const GC_HELP: &'static str = r#"
WHAT IT DOES
  Removes completed tombstones and transaction leftovers, drops unreferenced
  templates, and reclaims authority-duplicate loose objects when the complete
  state census proves it safe. It emits the same NDJSON item/finding/summary
  shape as doctor.

EXAMPLES
  git vws doctor
  git vws gc
  git vws gc | jq -c .

SAFETY
  gc is fail-closed. Any uncertain binding, busy session, dirty state, or
  recovery condition is retained and reported instead of being force-deleted.
  Run remove first for sessions you intentionally want to discard, then run
  gc. This command operates globally; --repo is rejected.
"#;

/// What a command leaves to be printed, or the way in which the program that it ran ended.
#[derive(Debug)]
pub enum CommandOutput {
    Text(String),
    Silent,
    /// The exit code, or the signal that ended the program.
    Exit { code: Option<i32>, signal: Option<i32> },
}

/// What is printed at the end, and the exit code.
#[derive(Debug)]
pub struct Conclusion {
    pub printed: Option<String>,
    pub complaint: Option<String>,
    pub code: u8,
}

/// The exit code that stands for the way in which a program ended.
pub open spec fn exit_code(code: Option<i32>, signal: Option<i32>) -> int {
    let value = match (code, signal) {
        (Some(code), _) => code as int,
        (None, Some(signal)) => 128 + signal,
        (None, None) => 129,
    };
    if 0 <= value <= 255 {
        value
    } else {
        1
    }
}

/// The exit code of the program that was run: its own, or 128 and the signal that ended it.
pub fn exit_status_code(code: Option<i32>, signal: Option<i32>) -> (exit: u8)
    requires
        code is None && signal is Some ==> signal->0 <= i32::MAX - 128,
    ensures
        exit == exit_code(code, signal),
{
    let value: i32 = match code {
        Some(code) => code,
        None => match signal {
            Some(signal) => 128 + signal,
            None => 129,
        },
    };
    if 0 <= value && value <= 255 {
        value as u8
    } else {
        1
    }
}

/// How the command line ends: what a command has to say goes to one side, what went wrong to the other.
pub fn conclude(result: Result<CommandOutput, Error>) -> (conclusion: Conclusion)
    requires
        result matches Ok(CommandOutput::Exit { code: None, signal: Some(signal) }) ==> signal
            <= i32::MAX - 128,
    ensures
        match result {
            Ok(CommandOutput::Text(message)) => {
                &&& conclusion.printed == if message@.len() == 0 {
                    None
                } else {
                    Some(message)
                }
                &&& conclusion.complaint is None
                &&& conclusion.code == 0
            },
            Ok(CommandOutput::Silent) => conclusion.printed is None && conclusion.complaint is None
                && conclusion.code == 0,
            Ok(CommandOutput::Exit { code, signal }) => conclusion.printed is None
                && conclusion.complaint is None && conclusion.code == exit_code(code, signal),
            Err(error) => {
                &&& conclusion.printed is None
                &&& conclusion.complaint is Some
                &&& conclusion.complaint->0@ == "git-vws: "@ + git::shown(error@)
                &&& conclusion.code == 1
            },
        },
{
    match result {
        Ok(output) => match output {
            CommandOutput::Text(message) => {
                let printed = if message.as_str().unicode_len() == 0 {
                    None
                } else {
                    Some(message)
                };
                Conclusion { printed, complaint: None, code: 0 }
            },
            CommandOutput::Silent => Conclusion { printed: None, complaint: None, code: 0 },
            CommandOutput::Exit { code, signal } => Conclusion {
                printed: None,
                complaint: None,
                code: exit_status_code(code, signal),
            },
        },
        Err(error) => Conclusion {
            printed: None,
            complaint: Some(join2("git-vws: ", error.to_text().as_str())),
            code: 1,
        },
    }
}

/// Commands on the whole state take no repository; `repository` says whether one was selected, and
/// `outcome` how the command ended where none was.
pub fn global_maintenance(repository: bool, outcome: Result<(), Error>) -> (output: Result<
    CommandOutput,
    Error,
>)
    ensures
        failure(output) == if repository {
            Some(("SESSION_USAGE"@, "global maintenance commands do not accept --repo"@))
        } else {
            failure(outcome)
        },
        output matches Ok(output) ==> output is Silent,
{
    if repository {
        return Err(
            Error::new("SESSION_USAGE", "global maintenance commands do not accept --repo"),
        );
    }
    outcome?;
    Ok(CommandOutput::Silent)
}

/// The repository that a command is about: the selected one, or else the current directory.
pub fn repository(selected: Option<Vec<u8>>, current: Result<Vec<u8>, String>) -> (path: Result<
    Vec<u8>,
    Error,
>)
    ensures
        failure(path) == match (selected, current) {
            (None, Err(words)) => Some(
                (
                    "AUTHORITY_INVALID"@,
                    "cannot determine current directory"@ + ": "@ + words@,
                ),
            ),
            _ => None,
        },
        path matches Ok(path) ==> path == match selected {
            Some(selected) => selected,
            None => current->Ok_0,
        },
{
    match selected {
        Some(path) => Ok(path),
        None => match current {
            Ok(path) => Ok(path),
            Err(words) => Err(
                Error::io(
                    "AUTHORITY_INVALID",
                    "cannot determine current directory",
                    words.as_str(),
                ),
            ),
        },
    }
}

/// The repository that a listing is about; none where all are listed.
pub fn list_repository(all: bool, selected: Option<Vec<u8>>, current: Result<Vec<u8>, String>) -> (path:
    Result<Option<Vec<u8>>, Error>)
    ensures
        failure(path) == if all && selected is Some {
            Some(("SESSION_USAGE"@, "--all cannot be combined with --repo"@))
        } else if all {
            None
        } else {
            match (selected, current) {
                (None, Err(words)) => Some(
                    (
                        "AUTHORITY_INVALID"@,
                        "cannot determine current directory"@ + ": "@ + words@,
                    ),
                ),
                _ => None,
            }
        },
        path matches Ok(path) ==> path == if all {
            None
        } else {
            Some(
                match selected {
                    Some(selected) => selected,
                    None => current->Ok_0,
                },
            )
        },
{
    list_selection(all, selected.is_some())?;
    if all {
        return Ok(None);
    }
    let path = repository(selected, current)?;
    Ok(Some(path))
}

} // verus!
