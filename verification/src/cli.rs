//! The command entry point: which mode the command line selects.

use vstd::prelude::*;

use crate::text::views_of;

verus! {

/// What the command line asks for.
#[derive(Clone, Copy, PartialEq, Eq, Structural, Debug)]
pub enum CliMode {
    /// No argument: the full interactive selection flow.
    Interactive,
    /// The single argument `disconnect`: disconnect the first discovered
    /// station, with no prompt.
    Disconnect,
    /// Any other argument: report it as unrecognized and do nothing.
    Unrecognized,
}

/// The mode that an argument vector selects; its first entry is the
/// program's own name.
pub open spec fn spec_cli_mode(args: Seq<Seq<char>>) -> CliMode {
    if args.len() <= 1 {
        CliMode::Interactive
    } else if args[1] == "disconnect"@ {
        CliMode::Disconnect
    } else {
        CliMode::Unrecognized
    }
}

/// Reads the mode off the argument vector.
pub fn parse_cli(args: &Vec<String>) -> (r: CliMode)
    ensures
        r == spec_cli_mode(views_of(args@)),
{
    if args.len() <= 1 {
        return CliMode::Interactive;
    }
    let keyword = String::from_str("disconnect");
    if args[1] == keyword {
        CliMode::Disconnect
    } else {
        CliMode::Unrecognized
    }
}

/// The message printed for an argument that selects no mode.
pub fn unrecognized_argument_text() -> (r: String)
    ensures
        r@ == "Unrecognized argument"@,
{
    String::from_str("Unrecognized argument")
}

} // verus!
