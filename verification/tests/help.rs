use clap::error::ErrorKind;
use clap::{Arg, ArgAction, Command};
use git_vws::authority::Error;
use git_vws::cli::{
    conclude, exit_status_code, global_maintenance, list_repository, repository, CommandOutput,
    CREATE_HELP, DOCTOR_HELP, EXEC_HELP, GC_HELP, GETTING_STARTED, INIT_HELP, LIST_HELP,
    PUBLISH_HELP, REMOVE_HELP,
};

fn name_arguments(command: Command) -> Command {
    command
        .arg(
            Arg::new("name")
                .value_name("NAME")
                .required_unless_present("name_hex")
                .conflicts_with("name_hex")
                .help("Session name"),
        )
        .arg(
            Arg::new("name_hex")
                .long("name-hex")
                .value_name("HEX")
                .help("Exact lowercase hexadecimal session-name bytes"),
        )
}

fn command() -> Command {
    Command::new("git-vws")
        .version("1.0.2")
        .about("Native copy-on-write Git worktrees with isolated Git state")
        .arg_required_else_help(true)
        .subcommand_required(true)
        .after_help(GETTING_STARTED)
        .arg(
            Arg::new("repo")
                .long("repo")
                .global(true)
                .value_name("PATH")
                .help("Select an existing Git repository; default: current directory"),
        )
        .subcommand(
            Command::new("init")
                .about("Register an existing Git repository as an authority")
                .after_help(INIT_HELP)
                .arg(Arg::new("path").value_name("PATH").required(true)),
        )
        .subcommand(
            Command::new("create")
                .about("Create an isolated writable session")
                .after_help(CREATE_HELP)
                .arg(Arg::new("name").value_name("NAME").required(true))
                .arg(Arg::new("from").long("from").value_name("REV"))
                .arg(Arg::new("target").long("target").value_name("BRANCH"))
                .arg(Arg::new("path").long("path").value_name("MANAGED_PATH")),
        )
        .subcommand(
            Command::new("list")
                .about("List trusted sessions as newline-delimited JSON")
                .after_help(LIST_HELP)
                .arg(
                    Arg::new("all")
                        .long("all")
                        .conflicts_with("repo")
                        .action(ArgAction::SetTrue),
                ),
        )
        .subcommand(
            name_arguments(Command::new("exec"))
                .about("Run a program inside a session worktree")
                .after_help(EXEC_HELP)
                .arg(
                    Arg::new("program")
                        .last(true)
                        .required(true)
                        .num_args(1..)
                        .value_name("PROGRAM"),
                ),
        )
        .subcommand(
            name_arguments(Command::new("remove"))
                .about("Safely remove a managed session")
                .after_help(REMOVE_HELP)
                .arg(Arg::new("force").long("force").action(ArgAction::SetTrue)),
        )
        .subcommand(
            name_arguments(Command::new("publish"))
                .about("Publish committed session work with Git CAS")
                .after_help(PUBLISH_HELP),
        )
        .subcommand(
            Command::new("doctor")
                .about("Diagnose all registered state without deleting anything")
                .after_help(DOCTOR_HELP),
        )
        .subcommand(
            Command::new("gc")
                .about("Reclaim only provably safe global state")
                .after_help(GC_HELP),
        )
}

fn rendered_help(command_name: Option<&str>) -> String {
    match command_name {
        Some(name) => match command().try_get_matches_from(["git-vws", name, "-h"]) {
            Ok(_) => panic!("{name} help unexpectedly parsed as a command"),
            Err(error) => {
                assert_eq!(error.kind(), ErrorKind::DisplayHelp);
                error.to_string()
            }
        },
        None => command().render_help().to_string(),
    }
}

fn normalized_help(command_name: &str) -> String {
    rendered_help(Some(command_name))
        .split_whitespace()
        .collect::<Vec<_>>()
        .join(" ")
}

#[test]
fn top_level_help_is_a_complete_getting_started_contract() {
    let help = rendered_help(None);
    for required in [
        "QUICK START",
        "git clone --bare <source-url> <repo.git>",
        "git vws init <repo.git>",
        "git vws --repo <repo.git> create feature-a --target feature/a",
        "git vws --repo <repo.git> exec feature-a -- \"$SHELL\"",
        "git vws --repo <repo.git> publish feature-a",
        "git vws --repo <repo.git> remove feature-a",
        "git vws gc",
        "OPERATING MODEL",
        "<printed-session-root>/worktree",
        "REPOSITORY SELECTION",
        "OUTPUT AND RECOVERY",
        "SESSION_DISCARD_RISK",
        "PUBLISH_RECOVERY_REQUIRED",
        "STORAGE_UNSUPPORTED",
        "SUPPORTED SCOPE",
        "GPL-3.0-only",
        "AI / AUTOMATION ENTRYPOINT",
    ] {
        assert!(
            help.contains(required),
            "top-level help omitted {required:?}"
        );
    }
}

#[test]
fn every_public_subcommand_has_reference_help_and_examples() {
    for name in [
        "init", "create", "list", "exec", "remove", "publish", "doctor", "gc",
    ] {
        let help = rendered_help(Some(name));
        assert!(
            help.contains("EXAMPLES"),
            "{name} help omitted executable examples"
        );
        assert!(
            help.contains("--help"),
            "{name} help omitted its help entry"
        );
        assert!(
            help.lines().count() >= 14,
            "{name} help regressed to a parameter-only summary"
        );
    }
}

#[test]
fn short_help_and_missing_command_surface_the_getting_started_contract() {
    for (arguments, expected_kind) in [
        (vec!["git-vws", "-h"], ErrorKind::DisplayHelp),
        (
            vec!["git-vws"],
            ErrorKind::DisplayHelpOnMissingArgumentOrSubcommand,
        ),
    ] {
        let error = match command().try_get_matches_from(arguments) {
            Ok(_) => panic!("help request unexpectedly parsed as a command"),
            Err(error) => error,
        };
        assert_eq!(error.kind(), expected_kind);
        let help = error.to_string();
        assert!(help.contains("QUICK START"));
        assert!(help.contains("AI / AUTOMATION ENTRYPOINT"));
    }
}

#[test]
fn command_help_preserves_destructive_and_machine_output_boundaries() {
    let create = normalized_help("create");
    assert!(create.contains("prints the managed session root"));
    assert!(create.contains("<printed-session-root>/worktree"));

    let list = normalized_help("list");
    assert!(list.contains("name_hex"));
    assert!(list.contains("managed_path_hex"));
    assert!(list.contains("lowercase hexadecimal OS bytes"));

    let remove = normalized_help("remove");
    assert!(remove.contains("--force is destructive"));
    assert!(remove.contains("do not remove its files by hand"));

    let publish = normalized_help("publish");
    assert!(publish.contains("publish does not create a commit"));
    assert!(publish.contains("never overwrites"));

    let doctor = normalized_help("doctor");
    assert!(doctor.contains("read-only"));
    assert!(doctor.contains("--repo is rejected"));

    let gc = normalized_help("gc");
    assert!(gc.contains("fail-closed"));
    assert!(gc.contains("--repo is rejected"));
}

#[test]
fn exit_codes_follow_the_program() {
    assert_eq!(exit_status_code(Some(0), None), 0);
    assert_eq!(exit_status_code(Some(255), None), 255);
    assert_eq!(exit_status_code(Some(256), None), 1);
    assert_eq!(exit_status_code(Some(-1), None), 1);
    assert_eq!(exit_status_code(None, Some(9)), 137);
    assert_eq!(exit_status_code(None, None), 129);
}

#[test]
fn conclusions_print_or_complain() {
    let told = conclude(Ok(CommandOutput::Text("created session /s".to_owned())));
    assert_eq!(told.printed.as_deref(), Some("created session /s"));
    assert_eq!((told.complaint, told.code), (None, 0));

    let blank = conclude(Ok(CommandOutput::Text(String::new())));
    assert_eq!((blank.printed, blank.code), (None, 0));

    let silent = conclude(Ok(CommandOutput::Silent));
    assert_eq!((silent.printed, silent.complaint, silent.code), (None, None, 0));

    let exited = conclude(Ok(CommandOutput::Exit {
        code: None,
        signal: Some(15),
    }));
    assert_eq!(exited.code, 143);

    let failed = conclude(Err(Error::new("SESSION_ABSENT", "no such session")));
    assert_eq!(failed.printed, None);
    assert_eq!(
        failed.complaint.as_deref(),
        Some("git-vws: SESSION_ABSENT: no such session")
    );
    assert_eq!(failed.code, 1);
}

#[test]
fn global_commands_take_no_repository() {
    let error = global_maintenance(true, Ok(())).expect_err("--repo was accepted");
    assert_eq!(error.code, "SESSION_USAGE");
    assert_eq!(
        error.detail,
        "global maintenance commands do not accept --repo"
    );
    assert!(matches!(
        global_maintenance(false, Ok(())),
        Ok(CommandOutput::Silent)
    ));
    let error = global_maintenance(false, Err(Error::new("GC_RECOVERY_REQUIRED", "stop")))
        .expect_err("a failed collection succeeded");
    assert_eq!(error.code, "GC_RECOVERY_REQUIRED");
}

#[test]
fn repositories_default_to_the_current_directory() {
    assert_eq!(
        repository(Some(b"/a".to_vec()), Err("gone".to_owned())).expect("selected"),
        b"/a".to_vec()
    );
    assert_eq!(
        repository(None, Ok(b"/here".to_vec())).expect("current"),
        b"/here".to_vec()
    );
    let error = repository(None, Err("gone".to_owned())).expect_err("no directory");
    assert_eq!(error.code, "AUTHORITY_INVALID");
    assert_eq!(error.detail, "cannot determine current directory: gone");

    assert_eq!(
        list_repository(true, None, Ok(b"/here".to_vec())).expect("all"),
        None
    );
    assert_eq!(
        list_repository(false, None, Ok(b"/here".to_vec())).expect("current"),
        Some(b"/here".to_vec())
    );
    let error = list_repository(true, Some(b"/a".to_vec()), Ok(b"/here".to_vec()))
        .expect_err("--all with --repo");
    assert_eq!(error.code, "SESSION_USAGE");
    assert_eq!(error.detail, "--all cannot be combined with --repo");
}
