//! The command line.

use oxutrm::cli::{
    dispatch, exit_line, may_read_keyboard, run_connect, run_host, run_loopback, shell_of,
    Command, ConnectArgs, HostCommand, LoopbackCommand, HOST_USAGE, LOOPBACK_USAGE, USAGE,
};

fn args(all: &[&str]) -> Vec<String> {
    all.iter().map(|a| (*a).to_owned()).collect()
}

#[test]
fn the_help_text_agrees_with_what_is_actually_implemented() {
    for (name, text) in [("USAGE", USAGE), ("HOST_USAGE", HOST_USAGE)] {
        assert!(
            !text.contains("still being wired"),
            "{name} still claims the local half is unwired"
        );
        assert!(
            !text.contains("nobody to paint for"),
            "{name} still claims a served session has nobody to paint for"
        );
        assert!(
            !text.contains("does not work yet") && !text.contains("NOT IMPLEMENTED"),
            "{name} still claims --attach is unimplemented"
        );
        assert!(
            !text.contains("or reattach to a session already running"),
            "{name} promises reattach"
        );
    }
}

#[test]
fn help_is_the_default_and_names_every_subcommand() {
    for needle in [
        "oxutrm <ssh-target>",
        "oxutrm host --serve",
        "oxutrm host --list",
        "oxutrm host --attach",
        "oxutrm loopback",
    ] {
        assert!(USAGE.contains(needle), "usage is missing {needle:?}");
    }
}

#[test]
fn no_arguments_and_help_take_the_same_branch() {
    assert_eq!(dispatch(&args(&[])), Command::Help);
    assert_eq!(dispatch(&args(&["--help"])), Command::Help);
    assert_eq!(dispatch(&args(&["-h"])), Command::Help);
    assert_eq!(dispatch(&args(&["help"])), Command::Help);
}

#[test]
fn attach_without_an_id_says_where_to_find_one() {
    let HostCommand::NoSession(text) = run_host(&args(&["--attach"])) else {
        panic!("no id given");
    };
    assert!(
        text.contains("needs a session id"),
        "the error does not say an id is required: {text}"
    );
    assert!(
        text.contains("--list"),
        "the error does not tell the user how to find a session id: {text}"
    );
}

#[test]
fn loopback_help_works_without_a_terminal() {
    assert!(LOOPBACK_USAGE.contains("oxutrm loopback [shell]"));
    assert_eq!(run_loopback(&args(&["--help"])), LoopbackCommand::Help);
    assert_eq!(run_loopback(&args(&["-h"])), LoopbackCommand::Help);
}

#[test]
fn the_version_flag_is_accepted() {
    assert_eq!(dispatch(&args(&["--version"])), Command::Version);
    assert_eq!(dispatch(&args(&["-V"])), Command::Version);
}

#[test]
fn a_first_argument_is_a_subcommand_an_option_or_a_target() {
    assert_eq!(dispatch(&args(&["host", "--list"])), Command::Host);
    assert_eq!(dispatch(&args(&["loopback"])), Command::Loopback);
    assert_eq!(dispatch(&args(&["user@example.org"])), Command::Connect);
    assert_eq!(
        dispatch(&args(&["--frob"])),
        Command::Misuse("oxutrm: unknown option \"--frob\"\nTry `oxutrm --help`.".to_owned())
    );
}

#[test]
fn every_host_command() {
    assert_eq!(run_host(&args(&["--help"])), HostCommand::Help);
    assert_eq!(run_host(&args(&["--list"])), HostCommand::List);
    assert_eq!(run_host(&args(&["--serve"])), HostCommand::Serve);
    assert_eq!(
        run_host(&args(&["--attach", "abcd"])),
        HostCommand::Attach("abcd".to_owned())
    );
    assert_eq!(
        run_host(&args(&["--frob"])),
        HostCommand::Misuse(
            "oxutrm host: unknown option \"--frob\"\nTry `oxutrm host --help`.".to_owned()
        )
    );
    assert_eq!(
        run_host(&args(&[])),
        HostCommand::Misuse(
            "oxutrm host: needs one of --serve, --list or --attach <id>.\nTry `oxutrm host --help`."
                .to_owned()
        )
    );
}

#[test]
fn the_loopback_takes_a_shell() {
    assert_eq!(run_loopback(&args(&[])), LoopbackCommand::Run(None));
    assert_eq!(
        run_loopback(&args(&["/bin/zsh"])),
        LoopbackCommand::Run(Some("/bin/zsh".to_owned()))
    );
    assert_eq!(
        run_loopback(&args(&["-x"])),
        LoopbackCommand::Misuse(
            "oxutrm loopback: unknown option \"-x\"\nTry `oxutrm loopback --help`.".to_owned()
        )
    );
    assert_eq!(shell_of(Some("a".to_owned()), Some("b".to_owned())), "a");
    assert_eq!(shell_of(None, Some("b".to_owned())), "b");
    assert_eq!(shell_of(None, None), "/bin/sh");
}

#[test]
fn flags_come_before_the_target() {
    let asked = |attach: Option<&str>, new: bool| {
        Ok(ConnectArgs {
            target: "box".to_owned(),
            attach: attach.map(str::to_owned),
            new,
        })
    };
    assert_eq!(run_connect(&args(&["box"])), asked(None, false));
    assert_eq!(run_connect(&args(&["--new", "box", "--attach"])), asked(None, true));
    assert_eq!(run_connect(&args(&["--attach", "abcd", "box"])), asked(Some("abcd"), false));
    assert_eq!(
        run_connect(&args(&["--attach", "abcd", "--attach", "ef01", "box"])),
        asked(Some("ef01"), false),
        "the last one counts"
    );
}

#[test]
fn every_way_a_connect_can_be_asked_for_wrongly() {
    for (given, says) in [
        (
            args(&["--attach"]),
            "oxutrm: --attach needs a session id. Try `oxutrm --help`.",
        ),
        (
            args(&["--new", "--attach", "abcd", "box"]),
            "oxutrm: --attach and --new cannot both be given. Try `oxutrm --help`.",
        ),
        (
            args(&["--attach", "abcd"]),
            "oxutrm: needs an ssh target. Try `oxutrm --help`.",
        ),
        (args(&[]), "oxutrm: needs an ssh target. Try `oxutrm --help`."),
    ] {
        assert_eq!(run_connect(&given), Err(says.to_owned()));
    }
}

#[test]
fn the_last_line_names_the_exit_code() {
    assert_eq!(exit_line(0), "oxutrm: the shell exited (0).");
    assert_eq!(exit_line(137), "oxutrm: the shell exited (137).");
    assert_eq!(exit_line(-1), "oxutrm: the shell exited (-1).");
    assert_eq!(exit_line(i32::MIN), "oxutrm: the shell exited (-2147483648).");
}

#[test]
fn a_keyboard_that_is_not_our_own_is_asked_first() {
    assert!(may_read_keyboard(true, 0));
    assert!(may_read_keyboard(false, 1));
    assert!(!may_read_keyboard(false, 0));
}

#[test]
fn the_flags_of_a_connect_reach_it() {
    for given in [
        args(&["--new", "bastion.example.net"]),
        args(&["--attach", "abcd1111", "bastion.example.net"]),
    ] {
        assert_eq!(dispatch(&given), Command::Connect);
        assert_eq!(run_connect(&given).expect("a connect").target, "bastion.example.net");
    }
    assert!(matches!(dispatch(&args(&["--newer"])), Command::Misuse(_)));
    assert!(matches!(dispatch(&args(&["--attach=abcd"])), Command::Misuse(_)));
}
