use git_vws::authority::{Authority, Error, Identity, DIRECTORY_TYPE};
use git_vws::discard::{
    discard_status_command, ensure_worktree_unchanged, private_refs_command, unreachable_command,
};
use git_vws::git::{self, AuditConfig, ExitReport, Output, DEFAULT_LIMIT};
use git_vws::manifest::listing_args;
use git_vws::session_git::{
    add_linked_worktree, authority_config_command, authority_config_entry_is_safe,
    authority_target_command, clean_git_output, configure_command, configure_private_common,
    hash_bytes, head_command, import_publish_objects_command, imported_closure_command,
    imported_commit_command, index_command, init_private_common, init_private_common_command,
    parse_publish_oid, parse_target_commit_output, private_target_command, read_tree,
    read_tree_command, registry_command, require_clean, resolve_commit_command, resolve_tree,
    resolve_tree_command, same_target, status_command, target_commit, target_ref_command,
    validate_branch_command, validate_publish_target, validate_publish_target_command,
    worktree_list_command, write_alternate, AlternateWritten, Command, GIT_TIMEOUT,
    INDEX_RECEIPT_LIMIT,
};

const NEW: &str = "aaaaaaaaaaaaaaaaaaaaaaaaaaaaaaaaaaaaaaaa";

fn authority() -> Authority {
    Authority {
        canonical: b"/repo.git".to_vec(),
        identity: Identity {
            dev: 1,
            ino: 1,
            uid: 1000,
            mode: 0o755,
            kind: DIRECTORY_TYPE,
            nlink: 2,
        },
        object_format: "sha1".to_owned(),
        ref_format: "files".to_owned(),
    }
}

fn output(stdout: &[u8], stderr: &[u8], code: i32) -> Output {
    Output {
        stdout: stdout.to_vec(),
        stderr: stderr.to_vec(),
        status: ExitReport {
            code: Some(code),
            signal: None,
        },
    }
}

fn lost() -> git::Error {
    git::Error::new("GIT_PROBE_FAILED", "cannot execute git")
}

fn assert_command(command: Command, args: &[&str], directory: Option<&str>, audit: AuditConfig) {
    assert_eq!(command.limit, DEFAULT_LIMIT);
    let expected: Vec<Vec<u8>> = args.iter().map(|arg| arg.as_bytes().to_vec()).collect();
    assert_eq!(command.args, expected);
    assert_eq!(
        command.directory,
        directory.map(|directory| directory.as_bytes().to_vec())
    );
    assert_eq!(command.audit, audit);
}

fn code<T>(result: Result<T, Error>) -> &'static str {
    match result {
        Ok(_) => "",
        Err(error) => error.code,
    }
}

#[test]
fn revisions_are_resolved_in_the_authority() {
    assert_eq!(GIT_TIMEOUT, 30_000_000_000);
    assert_command(
        resolve_commit_command(&authority(), b"main"),
        &["rev-parse", "--verify", "main^{commit}"],
        Some("/repo.git"),
        AuditConfig::Isolated,
    );
    assert_command(
        resolve_tree_command(&authority(), NEW),
        &["rev-parse", "--verify", &format!("{NEW}^{{tree}}")],
        Some("/repo.git"),
        AuditConfig::Isolated,
    );
    assert_command(
        validate_branch_command(&authority(), b"topic").expect("a branch"),
        &["check-ref-format", "--branch", "topic"],
        Some("/repo.git"),
        AuditConfig::Isolated,
    );
    assert_eq!(code(validate_branch_command(&authority(), b"")), "TARGET_INVALID");
    assert_eq!(code(validate_branch_command(&authority(), b"-x")), "TARGET_INVALID");
    let line = format!("{NEW}\n");
    assert_eq!(
        resolve_tree(Ok(output(line.as_bytes(), b"", 0)), "sha1").expect("a tree"),
        NEW
    );
    let missing = resolve_tree(Ok(output(b"", b"", 1)), "sha1").expect_err("no tree");
    assert_eq!(missing.code, "BASE_INVALID");
    assert_eq!(missing.detail, "base commit does not resolve to a tree");
}

#[test]
fn publication_asks_the_authority_with_its_own_configuration() {
    let authority = authority();
    let at = AuditConfig::Authority;
    assert_command(
        validate_publish_target_command(&authority, b"topic"),
        &["-C", "/repo.git", "check-ref-format", "--branch", "topic"],
        None,
        at,
    );
    assert_command(
        worktree_list_command(&authority),
        &["-C", "/repo.git", "worktree", "list", "--porcelain"],
        None,
        at,
    );
    assert_command(
        authority_config_command(&authority),
        &[
            "-C",
            "/repo.git",
            "config",
            "--null",
            "--show-origin",
            "--show-scope",
            "--includes",
            "--list",
        ],
        None,
        at,
    );
    assert_command(
        authority_target_command(&authority, b"topic"),
        &[
            "-C",
            "/repo.git",
            "for-each-ref",
            "--format=%(refname) %(objectname) %(objecttype) %(symref)",
            "refs/heads/topic",
        ],
        None,
        at,
    );
    assert_command(
        private_target_command(b"/s/common.git", b"topic"),
        &[
            "for-each-ref",
            "--format=%(refname) %(objectname) %(objecttype) %(symref)",
            "refs/heads/topic",
        ],
        Some("/s/common.git"),
        AuditConfig::Isolated,
    );
    assert_command(
        import_publish_objects_command(&authority, b"/s/common.git", NEW),
        &[
            "-C",
            "/repo.git",
            "fetch",
            "--quiet",
            "--no-write-fetch-head",
            "--no-tags",
            "--no-auto-maintenance",
            "--no-write-commit-graph",
            "--recurse-submodules=no",
            "/s/common.git",
            NEW,
        ],
        None,
        at,
    );
    let commit = format!("{NEW}^{{commit}}");
    assert_command(
        imported_commit_command(&authority, NEW),
        &["-C", "/repo.git", "cat-file", "-e", &commit],
        None,
        at,
    );
    assert_command(
        imported_closure_command(&authority, NEW),
        &[
            "-C",
            "/repo.git",
            "fsck",
            "--connectivity-only",
            "--no-reflogs",
            "--no-dangling",
            "--no-progress",
            &commit,
        ],
        None,
        at,
    );
    assert!(validate_publish_target(Ok(output(b"topic\n", b"", 0))).is_ok());
    let unasked = validate_publish_target(Err(lost())).expect_err("Git did not run");
    assert_eq!(unasked.detail, "cannot validate publish target");
    let refused = validate_publish_target(Ok(output(b"", b"", 1))).expect_err("no branch");
    assert_eq!(
        refused.detail,
        "session target is not a valid direct branch name"
    );
}

#[test]
fn targets_are_read_as_direct_commits() {
    let line = format!("refs/heads/topic {NEW} commit \n");
    assert_eq!(
        parse_target_commit_output(line.as_bytes(), b"refs/heads/topic", "sha1")
            .expect("a commit"),
        Some(NEW.to_owned())
    );
    assert_eq!(
        parse_target_commit_output(b"", b"refs/heads/topic", "sha1").expect("no ref"),
        None
    );
    let symbolic = format!("refs/heads/topic {NEW} commit refs/heads/main\n");
    assert_eq!(
        code(parse_target_commit_output(
            symbolic.as_bytes(),
            b"refs/heads/topic",
            "sha1"
        )),
        "PUBLISH_VERIFY_FAILED"
    );
    let read = target_commit(Ok(output(line.as_bytes(), b"", 0)), b"topic", "sha1");
    assert_eq!(read.expect("a commit"), Some(NEW.to_owned()));
    let failed = target_commit(Err(lost()), b"topic", "sha1").expect_err("Git did not run");
    assert_eq!(failed.detail, "cannot read publish target");
    assert_eq!(
        parse_publish_oid(NEW.as_bytes(), "sha1").expect("an object"),
        NEW
    );
    assert_eq!(
        code(parse_publish_oid(NEW.as_bytes(), "sha256")),
        "PUBLISH_VERIFY_FAILED"
    );
    assert!(same_target(&Some(NEW.to_owned()), Some(NEW)));
    assert!(!same_target(&Some(NEW.to_owned()), None));
    assert!(same_target(&None, None));
}

#[test]
fn private_repositories_are_made_bare_and_linked() {
    let isolated = AuditConfig::Isolated;
    assert_command(
        init_private_common_command(&authority(), b"/s/common.git", b"/s/empty"),
        &[
            "init",
            "--bare",
            "--quiet",
            "--object-format=sha1",
            "--template=/s/empty",
            "/s/common.git",
        ],
        None,
        isolated,
    );
    let tables = Authority {
        ref_format: "reftable".to_owned(),
        ..authority()
    };
    assert_command(
        init_private_common_command(&tables, b"/s/common.git", b"/s/empty"),
        &[
            "init",
            "--bare",
            "--quiet",
            "--object-format=sha1",
            "--ref-format=reftable",
            "--template=/s/empty",
            "/s/common.git",
        ],
        None,
        isolated,
    );
    assert_command(
        configure_command(b"/s/common.git", "core.filemode"),
        &["--git-dir=/s/common.git", "config", "core.filemode", "true"],
        None,
        isolated,
    );
    assert_command(
        read_tree_command(b"/s/worktree"),
        &["read-tree", "--reset", "HEAD"],
        Some("/s/worktree"),
        isolated,
    );
    assert_command(
        status_command(b"/s/worktree"),
        &["status", "--porcelain=v1", "--untracked-files=all"],
        Some("/s/worktree"),
        isolated,
    );
    assert_command(
        head_command(b"/s/worktree"),
        &["-C", "/s/worktree", "rev-parse", "--verify", "HEAD"],
        None,
        isolated,
    );
    assert_command(
        target_ref_command(b"/s/common.git", b"topic"),
        &[
            "--git-dir=/s/common.git",
            "rev-parse",
            "--verify",
            "refs/heads/topic",
        ],
        None,
        isolated,
    );
    let index = index_command(b"/s/worktree");
    assert_eq!(index.limit, INDEX_RECEIPT_LIMIT);
    assert_command(
        Command { limit: DEFAULT_LIMIT, ..index },
        &["-C", "/s/worktree", "ls-files", "--stage", "-z"],
        None,
        isolated,
    );
    assert_command(
        registry_command(b"/s/common.git"),
        &["--git-dir=/s/common.git", "worktree", "list", "--porcelain"],
        None,
        isolated,
    );
}

#[test]
fn steps_of_the_making_must_be_silent() {
    let failed = |result: Result<(), Error>| result.expect_err("Git complained").detail;
    let loud = || Ok(output(b"", b"warning\n", 0));
    assert!(init_private_common(Ok(output(b"", b"", 0))).is_ok());
    assert_eq!(
        failed(init_private_common(loud())),
        "Git could not initialize private common-dir"
    );
    assert_eq!(
        failed(configure_private_common(loud())),
        "Git could not configure private common-dir"
    );
    assert_eq!(
        failed(add_linked_worktree(loud())),
        "Git could not create private linked worktree"
    );
    assert_eq!(
        failed(read_tree(loud())),
        "Git could not build linked-worktree index"
    );
    assert_eq!(
        failed(require_clean(Err(lost()), "run")),
        "cannot execute git"
    );
    assert_eq!(
        clean_git_output(Ok(output(b"x", b"", 0)), "read").expect("what Git told"),
        b"x"
    );
    assert_eq!(
        hash_bytes(b"abc"),
        "ba7816bf8f01cfea414140de5dae2223b00361a396177a9cb410ff61f20015ad"
    );
}

#[test]
fn alternates_count_once_they_are_synced() {
    let whole = || AlternateWritten {
        objects: Ok(()),
        info: Ok(()),
        created: Ok(()),
        written: Ok(()),
        synced: Ok(()),
    };
    assert!(write_alternate(whole()).is_ok());
    assert!(write_alternate(AlternateWritten {
        created: Err("exists".to_owned()),
        ..whole()
    })
    .is_err());
    assert!(write_alternate(AlternateWritten {
        written: Err("full".to_owned()),
        ..whole()
    })
    .is_err());
    assert!(write_alternate(AlternateWritten {
        synced: Err("gone".to_owned()),
        ..whole()
    })
    .is_err());
    let lost = write_alternate(AlternateWritten {
        objects: Err(Error::new("STORAGE_UNSUPPORTED", "no objects")),
        ..whole()
    })
    .expect_err("no store");
    assert_eq!(lost.detail, "no objects");
}

#[test]
fn a_discard_looks_at_everything_git_knows() {
    assert_command(
        discard_status_command(b"/s/worktree"),
        &[
            "status",
            "--porcelain=v1",
            "--untracked-files=all",
            "--ignored=matching",
        ],
        Some("/s/worktree"),
        AuditConfig::Isolated,
    );
    assert_command(
        private_refs_command(b"/s/common.git"),
        &[
            "--git-dir=/s/common.git",
            "for-each-ref",
            "--format=%(refname) %(objectname)",
        ],
        None,
        AuditConfig::Isolated,
    );
    assert_command(
        unreachable_command(b"/s/common.git"),
        &[
            "--git-dir=/s/common.git",
            "fsck",
            "--no-reflogs",
            "--unreachable",
            "--no-progress",
        ],
        None,
        AuditConfig::Isolated,
    );
    assert!(ensure_worktree_unchanged(Ok(output(b"", b"", 0))).is_ok());
    let dirty = ensure_worktree_unchanged(Ok(output(b"?? a\n", b"", 0))).expect_err("a new file");
    assert_eq!(dirty.code, "SESSION_DISCARD_RISK");
    let unknown = ensure_worktree_unchanged(Err(lost())).expect_err("Git did not run");
    assert_eq!(unknown.detail, "cannot inspect worktree changes");
}

#[test]
fn configuration_that_steers_fetches_is_unsafe() {
    let safe = |entry: &[u8]| authority_config_entry_is_safe(b"local", b"file:config", entry);
    assert!(safe(b"core.bare\ntrue"));
    assert!(safe(b"remote.origin.url\nhttps://example.invalid"));
    for entry in [
        &b"core.bare"[..],
        b"include.path\nx",
        b"includeIf.gitdir:x.path\nx",
        b"filter.lfs.smudge\nx",
        b"fsck.skipList\nx",
        b"url.x.insteadOf\ny",
        b"core.alternateRefsCommand\nx",
        b"remote.origin.uploadpack\nx",
        b"remote.origin.vcs\nx",
        b"remote.origin.promisor\ntrue",
        b"extensions.partialClone\norigin",
    ] {
        assert!(!safe(entry));
    }
    assert!(!authority_config_entry_is_safe(b"command", b"file:config", b"core.bare\ntrue"));
    assert!(!authority_config_entry_is_safe(b"local", b"blob:x", b"core.bare\ntrue"));
}

#[test]
fn trees_are_listed_whole() {
    let expected: Vec<Vec<u8>> = ["ls-tree", "-rz", "-r", "--long", NEW]
        .iter()
        .map(|arg| arg.as_bytes().to_vec())
        .collect();
    assert_eq!(listing_args(NEW), expected);
}
