//! The command line of the daemon.

use vstd::prelude::*;

use crate::text::{parse_u64, same, told, u64_of};

verus! {

/// The usage text of the daemon.
pub const USAGE: &'static str = "\
kelpied [--database PATH] [--socket PATH] [--herdr-socket PATH] [--herdr-wait-ms MS]
kelpied --version

Defaults:
  database       $XDG_STATE_HOME/kelpie/kelpie.sqlite3
  socket         $XDG_RUNTIME_DIR/kelpie/kelpie.sock
  Herdr socket   $HERDR_SOCKET_PATH or $XDG_CONFIG_HOME/herdr/herdr.sock
  Herdr wait     120000 ms; 0 fails immediately when Herdr is absent
";

/// How long startup waits for a Herdr socket that has not appeared yet.
pub const DEFAULT_HERDR_WAIT_MS: u64 = 120_000;

/// How often startup looks for the Herdr socket.
pub const HERDR_POLL_MS: u64 = 500;

/// One argument: its text, or where it stands if it is no valid UTF-8.
#[derive(Debug, PartialEq, Eq)]
pub enum Argument {
    Text(String),
    Raw(usize),
}

impl Clone for Argument {
    fn clone(&self) -> (r: Self)
        ensures
            r == *self,
    {
        match self {
            Argument::Text(text) => Argument::Text(text.clone()),
            Argument::Raw(at) => Argument::Raw(*at),
        }
    }
}

impl Argument {
    /// Whether the argument is that text.
    pub open spec fn is(self, text: Seq<char>) -> bool {
        self matches Argument::Text(t) && t@ == text
    }

    fn matches(&self, text: &str) -> (r: bool)
        ensures
            r == self.is(text@),
    {
        match self {
            Argument::Text(t) => same(t.as_str(), text),
            Argument::Raw(_) => false,
        }
    }
}

/// Where the daemon finds what it works on.
#[derive(Debug, PartialEq, Eq)]
pub struct Options {
    pub database: Option<Argument>,
    pub socket: Option<Argument>,
    pub herdr_socket: Option<Argument>,
    pub herdr_wait_ms: Option<u64>,
}

impl Options {
    /// The options with nothing chosen.
    pub open spec fn unset() -> Options {
        Options { database: None, socket: None, herdr_socket: None, herdr_wait_ms: None }
    }

    /// How long startup waits for Herdr, in milliseconds. Zero is a choice of its
    /// own and not the default.
    pub fn herdr_wait(&self) -> (ms: u64)
        ensures
            ms == (match self.herdr_wait_ms {
                Some(ms) => ms,
                None => DEFAULT_HERDR_WAIT_MS,
            }),
            self.herdr_wait_ms is None ==> ms == 120_000,
    {
        match self.herdr_wait_ms {
            Some(ms) => ms,
            None => DEFAULT_HERDR_WAIT_MS,
        }
    }
}

impl Default for Options {
    fn default() -> (r: Self)
        ensures
            r == Options::unset(),
    {
        Options { database: None, socket: None, herdr_socket: None, herdr_wait_ms: None }
    }
}

/// What the daemon is asked to do.
#[derive(Debug, PartialEq, Eq)]
pub enum Invocation {
    Run(Options),
    Help,
    Version,
}

/// Whether a flag asks for help or the version.
pub open spec fn is_question(flag: Seq<char>) -> bool {
    flag == "--help"@ || flag == "-h"@ || flag == "--version"@ || flag == "-V"@
}

/// Whether a flag is one that takes a value.
pub open spec fn is_option(flag: Seq<char>) -> bool {
    flag == "--database"@ || flag == "--socket"@ || flag == "--herdr-socket"@ || flag
        == "--herdr-wait-ms"@
}

/// The options with one more flag and its value, or what is wrong with it.
pub open spec fn option_set(so_far: Options, flag: Seq<char>, value: Argument) -> Result<
    Options,
    Seq<char>,
> {
    if value.is(""@) {
        Err(flag + " requires a non-empty value"@)
    } else if flag == "--herdr-wait-ms"@ {
        if so_far.herdr_wait_ms is Some {
            Err(flag + " specified more than once"@)
        } else {
            match value {
                Argument::Raw(_) => Err("arguments must be valid UTF-8"@),
                Argument::Text(text) => match u64_of(text@) {
                    None => Err(flag + " requires a non-negative whole number"@),
                    Some(ms) => Ok(Options { herdr_wait_ms: Some(ms), ..so_far }),
                },
            }
        }
    } else if flag == "--database"@ {
        if so_far.database is Some {
            Err(flag + " specified more than once"@)
        } else {
            Ok(Options { database: Some(value), ..so_far })
        }
    } else if flag == "--socket"@ {
        if so_far.socket is Some {
            Err(flag + " specified more than once"@)
        } else {
            Ok(Options { socket: Some(value), ..so_far })
        }
    } else {
        if so_far.herdr_socket is Some {
            Err(flag + " specified more than once"@)
        } else {
            Ok(Options { herdr_socket: Some(value), ..so_far })
        }
    }
}

/// The options from `index` on, behind those already read.
pub open spec fn options_from(args: Seq<Argument>, index: int, so_far: Options) -> Result<
    Options,
    Seq<char>,
>
    decreases args.len() - index,
{
    if index >= args.len() {
        Ok(so_far)
    } else {
        match args[index] {
            Argument::Raw(_) => Err("arguments must be valid UTF-8"@),
            Argument::Text(flag) => if is_question(flag@) {
                Err(flag@ + " cannot be combined with other arguments"@)
            } else if !is_option(flag@) {
                Err("unknown argument "@ + flag@ + "\n"@ + USAGE@)
            } else if index + 1 >= args.len() {
                Err(flag@ + " requires a value"@)
            } else {
                match option_set(so_far, flag@, args[index + 1]) {
                    Err(e) => Err(e),
                    Ok(next) => options_from(args, index + 2, next),
                }
            },
        }
    }
}

/// What the arguments of the daemon mean.
pub open spec fn invocation_of(args: Seq<Argument>) -> Result<Invocation, Seq<char>> {
    if args.len() == 1 && (args[0].is("--version"@) || args[0].is("-V"@)) {
        Ok(Invocation::Version)
    } else if args.len() == 1 && (args[0].is("--help"@) || args[0].is("-h"@)) {
        Ok(Invocation::Help)
    } else {
        match options_from(args, 0, Options::unset()) {
            Ok(options) => Ok(Invocation::Run(options)),
            Err(e) => Err(e),
        }
    }
}

/// Set one option.
fn set_option(options: Options, flag: &str, value: &Argument) -> (r: Result<Options, String>)
    ensures
        told(r, option_set(options, flag@, *value)),
{
    if value.matches("") {
        return Err(flag.to_owned().concat(" requires a non-empty value"));
    }
    if same(flag, "--herdr-wait-ms") {
        if options.herdr_wait_ms.is_some() {
            return Err(flag.to_owned().concat(" specified more than once"));
        }
        return match value {
            Argument::Raw(_) => Err("arguments must be valid UTF-8".to_owned()),
            Argument::Text(text) => match parse_u64(text.as_str()) {
                None => Err(flag.to_owned().concat(" requires a non-negative whole number")),
                Some(ms) => Ok(Options { herdr_wait_ms: Some(ms), ..options }),
            },
        };
    }
    if same(flag, "--database") {
        if options.database.is_some() {
            return Err(flag.to_owned().concat(" specified more than once"));
        }
        Ok(Options { database: Some(value.clone()), ..options })
    } else if same(flag, "--socket") {
        if options.socket.is_some() {
            return Err(flag.to_owned().concat(" specified more than once"));
        }
        Ok(Options { socket: Some(value.clone()), ..options })
    } else {
        if options.herdr_socket.is_some() {
            return Err(flag.to_owned().concat(" specified more than once"));
        }
        Ok(Options { herdr_socket: Some(value.clone()), ..options })
    }
}

/// Parse the arguments of the daemon. Unknown, duplicate and missing values fail
/// closed.
pub fn parse_args(args: &Vec<Argument>) -> (r: Result<Invocation, String>)
    ensures
        told(r, invocation_of(args@)),
{
    if args.len() == 1 && (args[0].matches("--version") || args[0].matches("-V")) {
        return Ok(Invocation::Version);
    }
    if args.len() == 1 && (args[0].matches("--help") || args[0].matches("-h")) {
        return Ok(Invocation::Help);
    }
    let mut options = Options::default();
    let mut index: usize = 0;
    while index < args.len()
        invariant
            index <= args@.len(),
            options_from(args@, 0, Options::unset()) == options_from(
                args@,
                index as int,
                options,
            ),
            !(args@.len() == 1 && (args@[0].is("--version"@) || args@[0].is("-V"@))),
            !(args@.len() == 1 && (args@[0].is("--help"@) || args@[0].is("-h"@))),
        decreases args@.len() - index,
    {
        let flag = match &args[index] {
            Argument::Text(flag) => flag.as_str(),
            Argument::Raw(_) => {
                return Err("arguments must be valid UTF-8".to_owned());
            },
        };
        if same(flag, "--help") || same(flag, "-h") || same(flag, "--version") || same(flag, "-V") {
            return Err(flag.to_owned().concat(" cannot be combined with other arguments"));
        }
        if !(same(flag, "--database") || same(flag, "--socket") || same(flag, "--herdr-socket")
            || same(flag, "--herdr-wait-ms")) {
            return Err("unknown argument ".to_owned().concat(flag).concat("\n").concat(USAGE));
        }
        if index + 1 >= args.len() {
            return Err(flag.to_owned().concat(" requires a value"));
        }
        match set_option(options, flag, &args[index + 1]) {
            Ok(next) => {
                options = next;
            },
            Err(e) => {
                return Err(e);
            },
        }
        index = index + 2;
    }
    Ok(Invocation::Run(options))
}

/// An option is set to its value once, and leaves the others as they were.
#[verifier::spinoff_prover]
#[verifier::rlimit(60)]
pub proof fn law_option_sets_its_own_part(so_far: Options, flag: Seq<char>, value: Argument)
    ensures
        flag == "--database"@ ==> (option_set(so_far, flag, value) matches Ok(set) ==> set.database == Some(
            value,
        ) && set.socket == so_far.socket && set.herdr_socket == so_far.herdr_socket && set.herdr_wait_ms == so_far.herdr_wait_ms),
        flag == "--database"@ ==> (option_set(so_far, flag, value) is Ok <==> so_far.database is None
            && !value.is(""@)),
        flag == "--socket"@ ==> (option_set(so_far, flag, value) matches Ok(set) ==> set.socket == Some(
            value,
        ) && set.database == so_far.database && set.herdr_socket == so_far.herdr_socket && set.herdr_wait_ms == so_far.herdr_wait_ms),
        flag == "--socket"@ ==> (option_set(so_far, flag, value) is Ok <==> so_far.socket is None
            && !value.is(""@)),
        flag == "--herdr-socket"@ ==> (option_set(so_far, flag, value) matches Ok(set) ==> set.herdr_socket == Some(
            value,
        ) && set.database == so_far.database && set.socket == so_far.socket && set.herdr_wait_ms == so_far.herdr_wait_ms),
        flag == "--herdr-socket"@ ==> (option_set(so_far, flag, value) is Ok <==> so_far.herdr_socket is None
            && !value.is(""@)),
        flag == "--herdr-wait-ms"@ ==> (option_set(so_far, flag, value) matches Ok(set)
            ==> set.database == so_far.database && set.socket == so_far.socket && set.herdr_socket
            == so_far.herdr_socket && set.herdr_wait_ms is Some),
        flag == "--herdr-wait-ms"@ ==> (value matches Argument::Text(text) ==> (u64_of(
            text@,
        ) matches Some(ms) ==> (option_set(so_far, flag, value) matches Ok(set)
            ==> set.herdr_wait_ms == Some(ms)))),
{
    reveal_strlit("--database");
    reveal_strlit("--socket");
    reveal_strlit("--herdr-socket");
    reveal_strlit("--herdr-wait-ms");
    assert("--database"@.len() == 10);
    assert("--socket"@.len() == 8);
    assert("--herdr-socket"@.len() == 14);
    assert("--herdr-wait-ms"@.len() == 15);
}

/// The questions are answered where they stand alone: for the version, and for help.
#[verifier::spinoff_prover]
#[verifier::rlimit(60)]
pub proof fn law_question_is_answered(args: Seq<Argument>)
    requires
        args.len() == 1,
    ensures
        args[0].is("--version"@) || args[0].is("-V"@) ==> (invocation_of(args) matches Ok(
            invocation,
        ) && invocation is Version),
        args[0].is("--help"@) || args[0].is("-h"@) ==> (invocation_of(args) matches Ok(invocation)
            && invocation is Help),
{
    reveal_strlit("--version");
    reveal_strlit("-V");
    reveal_strlit("--help");
    reveal_strlit("-h");
    assert("--version"@.len() == 9);
    assert("-V"@.len() == 2);
    assert("--help"@.len() == 6);
    assert("-h"@.len() == 2);
    assert("-V"@[1] == 'V');
    assert("-h"@[1] == 'h');
}

} // verus!
