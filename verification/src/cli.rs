//! What the command line asks for.

use vstd::prelude::*;

use crate::text::{beginning_is_agreeing, begins, quote, quoted, same, starts_with};

verus! {

pub const HOST_USAGE: &'static str = "\
oxutrm host — the remote half of a session. Normally spawned over ssh rather
than typed by hand.

USAGE
  oxutrm host --list          Sessions on this machine, oldest first.
  oxutrm host --serve         Create a session and hand it to a client.
  oxutrm host --attach <id>   Relay a new attach into a running session.

--serve creates the session and hands it to the first client, which connects,
paints and carries the shell's exit code back. --attach relays a second
client's signalling into that same running session.

A session that reached the far end over an ssh tunnel (rung 4) is listed as
NOT detachable: it carries its data inside that ssh connection, so it dies
with it and cannot be reattached.
";

pub const LOOPBACK_USAGE: &'static str = "\
oxutrm loopback — run both halves in one process, with no network in between.

Everything a real session does happens here: a shell on a pty, the terminal
emulator, the state diff, a Frame encoded to bytes and decoded again, and the
renderer. Only the transport is missing.

USAGE
  oxutrm loopback [shell]
      Run <shell>, or $SHELL, or /bin/sh.

OPTIONS
  -h, --help        Show this help.
";

/// What `oxutrm --help` prints. Its sentence on reattaching is behind the
/// flags: `--attach <id>` and `--new` before the target are taken.
pub const USAGE: &'static str = "\
oxutrm — a remote terminal that survives bad networks, changing IP addresses
and NAT on both ends.

USAGE
  oxutrm <ssh-target> [command ...]
      Start a session there and connect to it. Each connection starts a
      fresh session; reattaching to an existing one is not implemented.

  oxutrm host --serve
      Run the remote half. Spawned over SSH; not normally typed by hand.

  oxutrm host --list
      List sessions on this machine, pruning any whose process is gone.

  oxutrm host --attach <session-id>
      Relay a new client into a running session.

  oxutrm loopback
      Run both halves in one process, with no network in between.

OPTIONS
  -h, --help        Show this help.
      --version     Show the version.
";

/// What an invocation asks for.
#[derive(Debug, PartialEq, Eq)]
pub enum Command {
    Help,
    Version,
    /// The remote half, with the arguments after the first.
    Host,
    /// Both halves in one process, with the arguments after the first.
    Loopback,
    /// Connect, with all of the arguments.
    Connect,
    /// A mistake in the invocation: say this, and exit with 2.
    Misuse(String),
}

/// What is said of an option that does not exist.
pub open spec fn unknown_text(program: Seq<char>, option: Seq<char>) -> Seq<char> {
    program + ": unknown option "@ + quoted(option) + "\nTry `"@ + program + " --help`."@
}

/// What is said of an option that does not exist.
fn unknown(program: &str, option: &str) -> (s: String)
    ensures
        s@ == unknown_text(program@, option@),
{
    let mut s = program.to_owned();
    s.append(": unknown option ");
    s.append(quote(option).as_str());
    s.append("\nTry `");
    s.append(program);
    s.append(" --help`.");
    s
}

/// Whether an invocation asks for what its first argument asks for.
pub open spec fn dispatched(args: Seq<String>, c: Command) -> bool {
    if args.len() == 0 {
        c is Help
    } else {
        let first = args[0]@;
        if first == "-h"@ || first == "--help"@ || first == "help"@ {
            c is Help
        } else if first == "--version"@ || first == "-V"@ {
            c is Version
        } else if first == "host"@ {
            c is Host
        } else if first == "loopback"@ {
            c is Loopback
        } else if first == "--new"@ || first == "--attach"@ {
            c is Connect
        } else if begins(first, "-"@) {
            c matches Command::Misuse(s) && s@ == unknown_text("oxutrm"@, first)
        } else {
            c is Connect
        }
    }
}

/// What an invocation asks for. Anything that is no subcommand and no option
/// is an ssh target, which the flags of a connect come before.
pub fn dispatch(args: &Vec<String>) -> (c: Command)
    ensures
        dispatched(args@, c),
{
    if args.len() == 0 {
        return Command::Help;
    }
    let first = args[0].as_str();
    if same(first, "-h") || same(first, "--help") || same(first, "help") {
        Command::Help
    } else if same(first, "--version") || same(first, "-V") {
        Command::Version
    } else if same(first, "host") {
        Command::Host
    } else if same(first, "loopback") {
        Command::Loopback
    } else if same(first, "--new") || same(first, "--attach") {
        Command::Connect
    } else if starts_with(first, "-") {
        Command::Misuse(unknown("oxutrm", first))
    } else {
        Command::Connect
    }
}

/// What `oxutrm host` is asked for.
#[derive(Debug, PartialEq, Eq)]
pub enum HostCommand {
    Help,
    List,
    Serve,
    Attach(String),
    /// An attach to no session: fail with this.
    NoSession(String),
    /// A mistake in the invocation: say this, and exit with 2.
    Misuse(String),
}

/// Whether `oxutrm host` with these arguments asks for `c`.
pub open spec fn host_asked(args: Seq<String>, c: HostCommand) -> bool {
    if args.len() == 0 {
        c matches HostCommand::Misuse(s) && s@
            == "oxutrm host: needs one of --serve, --list or --attach <id>.\nTry `oxutrm host --help`."@
    } else {
        let first = args[0]@;
        if first == "-h"@ || first == "--help"@ {
            c is Help
        } else if first == "--list"@ {
            c is List
        } else if first == "--serve"@ {
            c is Serve
        } else if first == "--attach"@ {
            if args.len() > 1 {
                c matches HostCommand::Attach(id) && id@ == args[1]@
            } else {
                c matches HostCommand::NoSession(s) && s@
                    == "`oxutrm host --attach` needs a session id. `oxutrm host --list` shows them."@
            }
        } else {
            c matches HostCommand::Misuse(s) && s@ == unknown_text("oxutrm host"@, first)
        }
    }
}

/// What `oxutrm host` is asked for.
pub fn run_host(args: &Vec<String>) -> (c: HostCommand)
    ensures
        host_asked(args@, c),
{
    if args.len() == 0 {
        return HostCommand::Misuse(
            "oxutrm host: needs one of --serve, --list or --attach <id>.\nTry `oxutrm host --help`.".to_owned(),
        );
    }
    let first = args[0].as_str();
    if same(first, "-h") || same(first, "--help") {
        HostCommand::Help
    } else if same(first, "--list") {
        HostCommand::List
    } else if same(first, "--serve") {
        HostCommand::Serve
    } else if same(first, "--attach") {
        if args.len() > 1 {
            HostCommand::Attach(args[1].clone())
        } else {
            HostCommand::NoSession(
                "`oxutrm host --attach` needs a session id. `oxutrm host --list` shows them.".to_owned(),
            )
        }
    } else {
        HostCommand::Misuse(unknown("oxutrm host", first))
    }
}

/// What `oxutrm loopback` is asked for.
#[derive(Debug, PartialEq, Eq)]
pub enum LoopbackCommand {
    Help,
    /// Run this shell, or the default one.
    Run(Option<String>),
    /// A mistake in the invocation: say this, and exit with 2.
    Misuse(String),
}

/// Whether `oxutrm loopback` with these arguments asks for `c`.
pub open spec fn loopback_asked(args: Seq<String>, c: LoopbackCommand) -> bool {
    if args.len() == 0 {
        c == LoopbackCommand::Run(None)
    } else {
        let first = args[0]@;
        if first == "-h"@ || first == "--help"@ {
            c is Help
        } else if begins(first, "-"@) {
            c matches LoopbackCommand::Misuse(s) && s@ == unknown_text("oxutrm loopback"@, first)
        } else {
            c matches LoopbackCommand::Run(Some(shell)) && shell@ == first
        }
    }
}

/// What `oxutrm loopback` is asked for. Help comes before anything that needs
/// a terminal.
pub fn run_loopback(args: &Vec<String>) -> (c: LoopbackCommand)
    ensures
        loopback_asked(args@, c),
{
    if args.len() == 0 {
        return LoopbackCommand::Run(None);
    }
    let first = args[0].as_str();
    if same(first, "-h") || same(first, "--help") {
        LoopbackCommand::Help
    } else if starts_with(first, "-") {
        LoopbackCommand::Misuse(unknown("oxutrm loopback", first))
    } else {
        LoopbackCommand::Run(Some(args[0].clone()))
    }
}

/// The shell to run.
pub open spec fn chosen_shell(named: Option<String>, user: Option<String>) -> Seq<char> {
    match named {
        Some(s) => s@,
        None => match user {
            Some(s) => s@,
            None => "/bin/sh"@,
        },
    }
}

/// The shell to run: the one named, or the user's, or the one every system
/// has.
pub fn shell_of(named: Option<String>, user: Option<String>) -> (shell: String)
    ensures
        shell@ == (match named {
            Some(s) => s@,
            None => match user {
                Some(s) => s@,
                None => "/bin/sh"@,
            },
        }),
        shell@ == chosen_shell(named, user),
{
    match named {
        Some(s) => s,
        None => match user {
            Some(s) => s,
            None => "/bin/sh".to_owned(),
        },
    }
}

/// What a connect was asked for.
#[derive(Debug, PartialEq, Eq)]
pub struct ConnectArgs {
    pub target: String,
    pub attach: Option<String>,
    pub new: bool,
}

/// The flags in front of a target, and how many arguments they take. `bad` is
/// whether `--attach` came last, with no session id behind it.
pub struct Flags {
    pub attach: Option<Seq<char>>,
    pub new: bool,
    pub taken: int,
    pub bad: bool,
}

/// The flags from the argument at `i` on, after those already read.
pub open spec fn flags_from(
    args: Seq<String>,
    i: int,
    attach: Option<Seq<char>>,
    new: bool,
) -> Flags
    decreases args.len() - i,
{
    if 0 <= i < args.len() && args[i]@ == "--attach"@ {
        if i + 1 < args.len() {
            flags_from(args, i + 2, Some(args[i + 1]@), new)
        } else {
            Flags { attach, new, taken: i, bad: true }
        }
    } else if 0 <= i < args.len() && args[i]@ == "--new"@ {
        flags_from(args, i + 1, attach, true)
    } else {
        Flags { attach, new, taken: i, bad: false }
    }
}

/// Whether a connect with these arguments comes to `r`: `--attach <id>` and
/// `--new` come before the target, in either order, and exclude each other.
pub open spec fn connect_asked(args: Seq<String>, r: Result<ConnectArgs, String>) -> bool {
    let flags = flags_from(args, 0, None, false);
    if flags.bad {
        r matches Err(s) && s@
            == "oxutrm: --attach needs a session id. Try `oxutrm --help`."@
    } else if flags.attach is Some && flags.new {
        r matches Err(s) && s@
            == "oxutrm: --attach and --new cannot both be given. Try `oxutrm --help`."@
    } else if flags.taken >= args.len() {
        r matches Err(s) && s@ == "oxutrm: needs an ssh target. Try `oxutrm --help`."@
    } else {
        r matches Ok(a) && a.target@ == args[flags.taken]@ && a.new == flags.new && (
        match a.attach {
            Some(id) => flags.attach == Some(id@),
            None => flags.attach is None,
        })
    }
}

/// What a connect was asked for, or what to say before exiting with 2: a
/// mistake in the invocation is reported before anything has been started.
pub fn run_connect(args: &Vec<String>) -> (r: Result<ConnectArgs, String>)
    ensures
        connect_asked(args@, r),
{
    let mut attach: Option<String> = None;
    let mut new = false;
    let mut i: usize = 0;
    let ghost all = flags_from(args@, 0, None, false);
    while i < args.len()
        invariant_except_break
            all == flags_from(
                args@,
                i as int,
                match attach {
                    Some(id) => Some(id@),
                    None => None,
                },
                new,
            ),
        invariant
            i <= args@.len(),
            all == flags_from(args@, 0, None, false),
        ensures
            i <= args@.len(),
            all == (Flags {
                attach: match attach {
                    Some(id) => Some(id@),
                    None => None,
                },
                new,
                taken: i as int,
                bad: false,
            }),
        decreases args@.len() - i,
    {
        if same(args[i].as_str(), "--attach") {
            if i + 1 >= args.len() {
                return Err(
                    "oxutrm: --attach needs a session id. Try `oxutrm --help`.".to_owned(),
                );
            }
            attach = Some(args[i + 1].clone());
            i += 2;
        } else if same(args[i].as_str(), "--new") {
            new = true;
            i += 1;
        } else {
            break;
        }
    }
    if attach.is_some() && new {
        return Err(
            "oxutrm: --attach and --new cannot both be given. Try `oxutrm --help`.".to_owned(),
        );
    }
    if i >= args.len() {
        return Err("oxutrm: needs an ssh target. Try `oxutrm --help`.".to_owned());
    }
    Ok(ConnectArgs { target: args[i].clone(), attach, new })
}

/// The last thing a user is told.
pub open spec fn exit_text(code: i32) -> Seq<char> {
    "oxutrm: the shell exited ("@ + signed(code as int) + ")."@
}

/// A number in decimal, with a minus sign before it if it is negative.
pub open spec fn signed(n: int) -> Seq<char> {
    if n < 0 {
        "-"@ + crate::text::decimal((-n) as nat)
    } else {
        crate::text::decimal(n as nat)
    }
}

/// The last thing a user is told.
pub fn exit_line(code: i32) -> (s: String)
    ensures
        s@ == exit_text(code),
{
    let mut s = "oxutrm: the shell exited (".to_owned();
    let magnitude: i64 = if code < 0 {
        -(code as i64)
    } else {
        code as i64
    };
    let mut shown = if code < 0 {
        "-".to_owned()
    } else {
        String::new()
    };
    shown.append(crate::text::number(magnitude as u64).as_str());
    proof {
        if code >= 0 {
            assert(shown@ =~= signed(code as int));
        }
    }
    s.append(shown.as_str());
    s.append(").");
    s
}

/// Whether the keyboard may be read.
pub open spec fn keyboard_open(private: bool, ready: usize) -> bool {
    private || ready != 0
}

/// Whether the keyboard may be read. A description that is not our own must
/// not be made non-blocking, so it is asked first whether a read would block:
/// `ready` is how many descriptors had something.
pub fn may_read_keyboard(private: bool, ready: usize) -> (r: bool)
    ensures
        r == (private || ready != 0),
        r == keyboard_open(private, ready),
{
    private || ready != 0
}

/// The first argument decides what an invocation asks for, by these words and no
/// others. With none it is the help; another that begins with a dash is a
/// mistake, said with the argument; and anything else is a target to connect to.
pub proof fn the_first_argument_decides(args: Seq<String>, c: Command)
    requires
        dispatched(args, c),
    ensures
        args.len() == 0 ==> c is Help,
        args.len() > 0 ==> ({
            let first = args[0]@;
            &&& first == "-h"@ || first == "--help"@ || first == "help"@ ==> c is Help
            &&& first == "--version"@ || first == "-V"@ ==> c is Version
            &&& first == "host"@ ==> c is Host
            &&& first == "loopback"@ ==> c is Loopback
            &&& first == "--new"@ || first == "--attach"@ ==> c is Connect
            &&& first.len() == 0 ==> c is Connect
            &&& first.len() > 0 && first[0] != '-' && first != "help"@ && first != "host"@ && first
                != "loopback"@ ==> c is Connect
            &&& first.len() > 0 && first[0] == '-' && first != "-h"@ && first != "--help"@ && first
                != "--version"@ && first != "-V"@ && first != "--new"@ && first != "--attach"@ ==> (
            c matches Command::Misuse(s) && s@ == "oxutrm"@ + ": unknown option "@ + quoted(first)
                + "\nTry `"@ + "oxutrm"@ + " --help`."@)
        }),
{
    words_are_apart();
    if args.len() > 0 {
        begins_with_a_dash(args[0]@);
    }
}

/// A text begins with a dash exactly if its first scalar is one.
proof fn begins_with_a_dash(s: Seq<char>)
    ensures
        begins(s, "-"@) <==> s.len() > 0 && s[0] == '-',
{
    reveal_strlit("-");
    beginning_is_agreeing(s, "-"@);
    assert("-"@[0] == '-');
    if s.len() > 0 && s[0] == '-' {
        assert forall|i: int| 0 <= i < "-"@.len() implies s[i] == #[trigger] "-"@[i] by {
            assert(i == 0);
        }
    }
}

/// No two of the words an invocation is told by are the same.
proof fn words_are_apart()
    ensures
        "-h"@.len() == 2 && "-h"@[0] == '-',
        "--help"@.len() == 6 && "--help"@[0] == '-' && "--help"@[2] == 'h',
        "help"@.len() == 4 && "help"@[0] == 'h' && "help"@[1] == 'e',
        "--version"@.len() == 9 && "--version"@[0] == '-',
        "-V"@.len() == 2 && "-V"@[0] == '-' && "-V"@[1] == 'V' && "-h"@[1] == 'h',
        "host"@.len() == 4 && "host"@[0] == 'h' && "host"@[1] == 'o',
        "loopback"@.len() == 8 && "loopback"@[0] == 'l',
        "--new"@.len() == 5 && "--new"@[0] == '-',
        "--attach"@.len() == 8 && "--attach"@[0] == '-' && "--attach"@[2] == 'a',
        "--list"@.len() == 6 && "--list"@[0] == '-' && "--list"@[2] == 'l',
        "--serve"@.len() == 7 && "--serve"@[0] == '-',
{
    reveal_strlit("-h");
    reveal_strlit("--help");
    reveal_strlit("help");
    reveal_strlit("--version");
    reveal_strlit("-V");
    reveal_strlit("host");
    reveal_strlit("loopback");
    reveal_strlit("--new");
    reveal_strlit("--attach");
    reveal_strlit("--list");
    reveal_strlit("--serve");
}

/// `oxutrm host` takes one of three options or a plea for help: `--attach` takes
/// the session named behind it and fails without one, and anything else is a
/// mistake.
pub proof fn the_host_takes_one_of_three(args: Seq<String>, c: HostCommand)
    requires
        host_asked(args, c),
    ensures
        args.len() == 0 ==> (c matches HostCommand::Misuse(s) && s@
            == "oxutrm host: needs one of --serve, --list or --attach <id>.\nTry `oxutrm host --help`."@),
        args.len() > 0 ==> ({
            let first = args[0]@;
            &&& first == "-h"@ || first == "--help"@ ==> c is Help
            &&& first == "--list"@ ==> c is List
            &&& first == "--serve"@ ==> c is Serve
            &&& first == "--attach"@ && args.len() > 1 ==> (c matches HostCommand::Attach(id) && id@
                == args[1]@)
            &&& first == "--attach"@ && args.len() == 1 ==> (c matches HostCommand::NoSession(s)
                && s@
                == "`oxutrm host --attach` needs a session id. `oxutrm host --list` shows them."@)
            &&& first != "-h"@ && first != "--help"@ && first != "--list"@ && first != "--serve"@
                && first != "--attach"@ ==> (c matches HostCommand::Misuse(s) && s@
                == "oxutrm host"@ + ": unknown option "@ + quoted(first) + "\nTry `"@
                + "oxutrm host"@ + " --help`."@)
        }),
{
    words_are_apart();
}

/// `oxutrm loopback` runs the shell named, or the default one if none is; an
/// option it does not know is a mistake.
pub proof fn a_loopback_runs_the_shell_named(args: Seq<String>, c: LoopbackCommand)
    requires
        loopback_asked(args, c),
    ensures
        args.len() == 0 ==> c == LoopbackCommand::Run(None),
        args.len() > 0 ==> ({
            let first = args[0]@;
            &&& first == "-h"@ || first == "--help"@ ==> c is Help
            &&& first.len() == 0 || first[0] != '-' ==> (c matches LoopbackCommand::Run(Some(shell))
                && shell@ == first)
            &&& first.len() > 0 && first[0] == '-' && first != "-h"@ && first != "--help"@ ==> (
            c matches LoopbackCommand::Misuse(s) && s@ == "oxutrm loopback"@
                + ": unknown option "@ + quoted(first) + "\nTry `"@ + "oxutrm loopback"@
                + " --help`."@)
        }),
{
    words_are_apart();
    if args.len() > 0 {
        begins_with_a_dash(args[0]@);
    }
}

/// The shell to run is the one named, else the user's own, else `/bin/sh`.
pub proof fn a_named_shell_comes_first(named: Option<String>, user: Option<String>)
    ensures
        named matches Some(s) ==> chosen_shell(named, user) == s@,
        named is None ==> (user matches Some(s) ==> chosen_shell(named, user) == s@),
        named is None && user is None ==> chosen_shell(named, user) == "/bin/sh"@,
{
}

/// A connect takes its flags from in front of its target, in either order, and
/// its target is the first argument that is no flag. `--attach` takes the
/// argument behind it, whatever that is.
pub proof fn flags_come_before_the_target(args: Seq<String>, r: Result<ConnectArgs, String>)
    requires
        connect_asked(args, r),
    ensures
        args.len() == 0 ==> (r matches Err(s) && s@
            == "oxutrm: needs an ssh target. Try `oxutrm --help`."@),
        args.len() > 0 && args[0]@ != "--attach"@ && args[0]@ != "--new"@ ==> (r matches Ok(a)
            && a.target@ == args[0]@ && a.attach is None && !a.new),
        args.len() > 1 && args[0]@ == "--new"@ && args[1]@ != "--attach"@ && args[1]@ != "--new"@
            ==> (r matches Ok(a) && a.target@ == args[1]@ && a.attach is None && a.new),
        args.len() > 2 && args[0]@ == "--attach"@ && args[2]@ != "--attach"@ && args[2]@ != "--new"@
            ==> (r matches Ok(a) && a.target@ == args[2]@ && (a.attach matches Some(id) && id@
            == args[1]@) && !a.new),
        args.len() == 1 && args[0]@ == "--attach"@ ==> (r matches Err(s) && s@
            == "oxutrm: --attach needs a session id. Try `oxutrm --help`."@),
        args.len() == 1 && args[0]@ == "--new"@ ==> (r matches Err(s) && s@
            == "oxutrm: needs an ssh target. Try `oxutrm --help`."@),
        args.len() == 2 && args[0]@ == "--attach"@ ==> (r matches Err(s) && s@
            == "oxutrm: needs an ssh target. Try `oxutrm --help`."@),
        args.len() > 3 && args[0]@ == "--new"@ && args[1]@ == "--attach"@ && args[3]@
            != "--attach"@ && args[3]@ != "--new"@ ==> (r matches Err(s) && s@
            == "oxutrm: --attach and --new cannot both be given. Try `oxutrm --help`."@),
        args.len() > 3 && args[0]@ == "--attach"@ && args[2]@ == "--new"@ && args[3]@
            != "--attach"@ && args[3]@ != "--new"@ ==> (r matches Err(s) && s@
            == "oxutrm: --attach and --new cannot both be given. Try `oxutrm --help`."@),
{
    words_are_apart();
    reveal_with_fuel(flags_from, 4);
}

/// However many flags there are, a target that comes through is an argument, and
/// every argument before it is a flag or an id behind `--attach`; a connect is
/// never both told to attach and told to start anew.
pub proof fn a_connect_is_told_one_thing(args: Seq<String>, r: Result<ConnectArgs, String>)
    requires
        connect_asked(args, r),
    ensures
        r matches Ok(a) ==> {
            &&& !(a.new && a.attach is Some)
            &&& exists|i: int|
                0 <= i < args.len() && (#[trigger] args[i])@ == a.target@ && args[i]@ != "--attach"@
                    && args[i]@ != "--new"@
            &&& a.attach matches Some(id) ==> exists|i: int|
                0 < i < args.len() && (#[trigger] args[i])@ == id@ && args[i - 1]@ == "--attach"@
        },
{
    words_are_apart();
    flags_are_read_off(args, 0, None, false);
    let flags = flags_from(args, 0, None, false);
    if let Ok(a) = r {
        assert(args[flags.taken]@ == a.target@);
    }
}

/// What the flags come to was there to be read.
proof fn flags_are_read_off(args: Seq<String>, i: int, attach: Option<Seq<char>>, new: bool)
    requires
        0 <= i <= args.len(),
    ensures
        ({
            let flags = flags_from(args, i, attach, new);
            &&& i <= flags.taken <= args.len()
            &&& !flags.bad && flags.taken < args.len() ==> args[flags.taken]@ != "--attach"@
                && args[flags.taken]@ != "--new"@
            &&& flags.attach == attach || exists|k: int|
                0 < k < args.len() && flags.attach == Some((#[trigger] args[k])@) && args[k - 1]@
                    == "--attach"@
        }),
    decreases args.len() - i,
{
    if i < args.len() && args[i]@ == "--attach"@ {
        if i + 1 < args.len() {
            flags_are_read_off(args, i + 2, Some(args[i + 1]@), new);
            if flags_from(args, i, attach, new).attach == Some(args[i + 1]@) {
                assert(args[i + 1 - 1]@ == "--attach"@);
            }
        }
    } else if i < args.len() && args[i]@ == "--new"@ {
        flags_are_read_off(args, i + 1, attach, true);
    }
}

/// The last line says the code as a number, with a minus sign if it is negative.
pub proof fn the_last_line_says_the_code(code: i32)
    ensures
        code >= 0 ==> exit_text(code) == "oxutrm: the shell exited ("@ + crate::text::decimal(
            code as nat,
        ) + ")."@,
        code < 0 ==> exit_text(code) == "oxutrm: the shell exited ("@ + ("-"@
            + crate::text::decimal((-code) as nat)) + ")."@,
{
}

/// A keyboard of our own may be read at any time, and one that is shared only when
/// something is there.
pub proof fn a_shared_keyboard_is_asked_first(private: bool, ready: usize)
    ensures
        private ==> keyboard_open(private, ready),
        !private ==> (keyboard_open(private, ready) <==> ready >= 1),
{
}

} // verus!
