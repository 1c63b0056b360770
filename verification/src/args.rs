//! The command surface: subcommand types and their parser.
//!
//! The grammar is the shell's own: `list [--source NAME] [--outdated]`,
//! `install <module-id> [version]`, `search <query>`, `reload`, `update`,
//! preceded by the invoking word itself.  A malformed command line is a
//! usage error and the command aborts with no side effects.

use vstd::prelude::*;
use vstd::string::StringExecFns;

verus! {

/// A parsed command line.
pub struct Args {
    pub subcommand: SubCommand,
}

/// The five module subcommands.
pub enum SubCommand {
    /// List installed modules.
    List(List),
    /// Install a module from the registry.
    Install(Install),
    /// Search modules in the registry.
    Search(Search),
    /// Reload all modules from their source definitions.
    Reload(Reload),
    /// Update all installed, non-private modules.
    Update(Update),
}

/// Options of `list`.
pub struct List {
    /// Only show modules with this input source.
    pub source: Option<String>,
    /// Only show modules the ledger marks outdated.
    pub outdated: bool,
}

/// Arguments of `install`.
pub struct Install {
    pub module: String,
    pub version: Option<String>,
}

/// Arguments of `search`.
pub struct Search {
    pub query: String,
}

/// `reload` takes no arguments.
pub struct Reload {}

/// `update` takes no arguments.
pub struct Update {}

/// A malformed command line.
#[derive(Debug)]
pub struct UsageError {}

/// The flags of `list` read left to right from position `i`, on top of the
/// options gathered so far; `--source` consumes the following word as the
/// filter value, a repeated flag overwrites, anything else is a usage
/// error.
pub open spec fn spec_parse_list(args: Seq<String>, i: int, acc: List) -> Option<Args>
    decreases args.len() - i when i <= args.len()
{
    if i >= args.len() {
        Some(Args { subcommand: SubCommand::List(acc) })
    } else if args[i]@ == "--outdated"@ {
        spec_parse_list(args, i + 1, List { source: acc.source, outdated: true })
    } else if args[i]@ == "--source"@ {
        if i + 1 < args.len() {
            spec_parse_list(args, i + 2, List { source: Some(args[i + 1]), outdated: acc.outdated })
        } else {
            None
        }
    } else {
        None
    }
}

/// What a command line parses to, or nothing when it is malformed: the word
/// at position 1 selects the subcommand, and the rest must fit its grammar
/// exactly.
pub open spec fn spec_parse(args: Seq<String>) -> Option<Args> {
    if args.len() < 2 {
        None
    } else if args[1]@ == "list"@ {
        spec_parse_list(args, 2, List { source: None, outdated: false })
    } else if args[1]@ == "install"@ {
        if args.len() == 3 {
            Some(
                Args {
                    subcommand: SubCommand::Install(Install { module: args[2], version: None }),
                },
            )
        } else if args.len() == 4 {
            Some(
                Args {
                    subcommand: SubCommand::Install(
                        Install { module: args[2], version: Some(args[3]) },
                    ),
                },
            )
        } else {
            None
        }
    } else if args[1]@ == "search"@ {
        if args.len() == 3 {
            Some(Args { subcommand: SubCommand::Search(Search { query: args[2] }) })
        } else {
            None
        }
    } else if args[1]@ == "reload"@ {
        if args.len() == 2 {
            Some(Args { subcommand: SubCommand::Reload(Reload {}) })
        } else {
            None
        }
    } else if args[1]@ == "update"@ {
        if args.len() == 2 {
            Some(Args { subcommand: SubCommand::Update(Update {}) })
        } else {
            None
        }
    } else {
        None
    }
}

/// Parse a command line, routing to exactly one subcommand; a malformed one
/// is a usage error and nothing else.
pub fn parse_args(args: &Vec<String>) -> (r: Result<Args, UsageError>)
    ensures
        match r {
            Ok(a) => spec_parse(args@) == Some(a),
            Err(_) => spec_parse(args@) is None,
        },
{
    let n = args.len();
    if n < 2 {
        return Err(UsageError {});
    }
    let word = &args[1];
    if *word == String::from_str("list") {
        let mut source: Option<String> = None;
        let mut outdated = false;
        let mut i: usize = 2;
        let flag_outdated = String::from_str("--outdated");
        let flag_source = String::from_str("--source");
        while i < n
            invariant
                2 <= i <= n,
                n == args@.len(),
                flag_outdated@ == "--outdated"@,
                flag_source@ == "--source"@,
                spec_parse(args@) == spec_parse_list(args@, 2, List { source: None, outdated: false }),
                spec_parse_list(args@, 2, List { source: None, outdated: false })
                    == spec_parse_list(args@, i as int, List { source, outdated }),
            decreases n - i,
        {
            if args[i] == flag_outdated {
                outdated = true;
                i = i + 1;
            } else if args[i] == flag_source {
                if i + 1 < n {
                    source = Some(args[i + 1].clone());
                    i = i + 2;
                } else {
                    return Err(UsageError {});
                }
            } else {
                return Err(UsageError {});
            }
        }
        Ok(Args { subcommand: SubCommand::List(List { source, outdated }) })
    } else if *word == String::from_str("install") {
        if n == 3 {
            Ok(
                Args {
                    subcommand: SubCommand::Install(
                        Install { module: args[2].clone(), version: None },
                    ),
                },
            )
        } else if n == 4 {
            Ok(
                Args {
                    subcommand: SubCommand::Install(
                        Install { module: args[2].clone(), version: Some(args[3].clone()) },
                    ),
                },
            )
        } else {
            Err(UsageError {})
        }
    } else if *word == String::from_str("search") {
        if n == 3 {
            Ok(Args { subcommand: SubCommand::Search(Search { query: args[2].clone() }) })
        } else {
            Err(UsageError {})
        }
    } else if *word == String::from_str("reload") {
        if n == 2 {
            Ok(Args { subcommand: SubCommand::Reload(Reload {}) })
        } else {
            Err(UsageError {})
        }
    } else if *word == String::from_str("update") {
        if n == 2 {
            Ok(Args { subcommand: SubCommand::Update(Update {}) })
        } else {
            Err(UsageError {})
        }
    } else {
        Err(UsageError {})
    }
}

/// Installing and updating additionally perform an implicit, synchronous
/// reload as a follow-up once their primary action completes; no other
/// subcommand does.
pub fn triggers_reload(cmd: &SubCommand) -> (r: bool)
    ensures
        r == (cmd is Install || cmd is Update),
{
    match cmd {
        SubCommand::Install(_) => true,
        SubCommand::Update(_) => true,
        _ => false,
    }
}

} // verus!
