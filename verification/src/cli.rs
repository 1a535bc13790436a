//! The command line of the maintenance tool.
use vstd::prelude::*;
use crate::text::str_equal;

verus! {

/// What the command line asks for.
#[derive(Debug, Clone, Copy, PartialEq, Eq, Structural)]
pub enum Command {
    /// Not exactly one argument: show the help and stop.
    Usage,
    /// `--setup`: create the tables.
    Setup,
    /// `--prod`: check, and stop on failure.
    Prod,
    /// `--check`: check and report.
    Check,
    /// Any other single argument: show the help.
    Unknown,
}

/// The command that the arguments (the program's name first) ask for.
pub open spec fn spec_command(args: Seq<Seq<char>>) -> Command {
    if args.len() != 2 {
        Command::Usage
    } else if args[1] == "--setup"@ {
        Command::Setup
    } else if args[1] == "--prod"@ {
        Command::Prod
    } else if args[1] == "--check"@ {
        Command::Check
    } else {
        Command::Unknown
    }
}

/// The command that the arguments (the program's name first) ask for.
pub fn parse_command(args: &Vec<String>) -> (c: Command)
    ensures
        c == spec_command(args@.map_values(|a: String| a@)),
{
    let ghost views = args@.map_values(|a: String| a@);
    if args.len() != 2 {
        return Command::Usage;
    }
    let arg = args[1].as_str();
    assert(arg@ == views[1]);
    if str_equal(arg, "--setup") {
        Command::Setup
    } else if str_equal(arg, "--prod") {
        Command::Prod
    } else if str_equal(arg, "--check") {
        Command::Check
    } else {
        Command::Unknown
    }
}

/// The lines of the help text.
pub open spec fn spec_help_lines() -> Seq<Seq<char>> {
    seq![
        "Crypto Trendfollowing Tool"@,
        "Commands are:"@,
        "--setup\tChecks and then performs an interactive setup of the database"@,
        "--prod\tRuns in production mode. Fails if checks fails"@,
        "--check\tPerforms check to make sure everything is all right"@,
        "--help\tDisplays help"@,
    ]
}

/// The lines of the help text.
pub fn help_lines() -> (lines: Vec<String>)
    ensures
        lines@.map_values(|line: String| line@) == spec_help_lines(),
{
    let mut lines: Vec<String> = Vec::new();
    lines.push(String::from_str("Crypto Trendfollowing Tool"));
    lines.push(String::from_str("Commands are:"));
    lines.push(
        String::from_str("--setup\tChecks and then performs an interactive setup of the database"),
    );
    lines.push(String::from_str("--prod\tRuns in production mode. Fails if checks fails"));
    lines.push(String::from_str("--check\tPerforms check to make sure everything is all right"));
    lines.push(String::from_str("--help\tDisplays help"));
    assert(lines@.map_values(|line: String| line@) =~= spec_help_lines());
    lines
}

} // verus!
