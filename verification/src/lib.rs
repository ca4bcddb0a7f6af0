//! Vidown: a terminal video downloader. This library holds its state machine,
//! parsers and decisions; the terminal, processes and files are driven from
//! outside it.
use vstd::prelude::*;

pub mod text;
pub mod app;
pub mod clipboard;
pub mod config;
pub mod deps;
pub mod downloader;
pub mod events;
pub mod history;
pub mod ui;

use crate::text::str_eq;

verus! {

/// CLI argument action.
#[derive(Debug, Clone, Copy, PartialEq, Eq, Structural)]
pub enum CliAction {
    Version,
    Help,
    RunApp,
}

/// The action a single argument asks for, if it is one of the flags.
pub open spec fn flag_action(arg: Seq<char>) -> Option<CliAction> {
    if arg == "--version"@ || arg == "-v"@ || arg == "-V"@ {
        Some(CliAction::Version)
    } else if arg == "--help"@ || arg == "-h"@ {
        Some(CliAction::Help)
    } else {
        None
    }
}

/// The action of the first flag among `args`, or running the application.
pub open spec fn first_flag_action(args: Seq<Seq<char>>) -> CliAction
    decreases args.len(),
{
    if args.len() == 0 {
        CliAction::RunApp
    } else {
        match flag_action(args[0]) {
            Some(a) => a,
            None => first_flag_action(args.drop_first()),
        }
    }
}

/// What the command line asks for: its first argument is the program's name.
pub open spec fn spec_cli_action(args: Seq<Seq<char>>) -> CliAction {
    if args.len() == 0 {
        CliAction::RunApp
    } else {
        first_flag_action(args.drop_first())
    }
}

fn flag_of(arg: &str) -> (r: Option<CliAction>)
    ensures
        r == flag_action(arg@),
{
    if str_eq(arg, "--version") || str_eq(arg, "-v") || str_eq(arg, "-V") {
        Some(CliAction::Version)
    } else if str_eq(arg, "--help") || str_eq(arg, "-h") {
        Some(CliAction::Help)
    } else {
        None
    }
}

/// Parses command-line arguments to determine whether to display version, help, or launch the TUI.
pub fn handle_cli_args(args: &[&str]) -> (r: CliAction)
    ensures
        r == spec_cli_action(args@.map_values(|s: &str| s@)),
{
    let ghost all = args@.map_values(|s: &str| s@);
    if args.len() == 0 {
        return CliAction::RunApp;
    }
    let mut i: usize = 1;
    while i < args.len()
        invariant
            1 <= i <= args@.len(),
            all == args@.map_values(|s: &str| s@),
            spec_cli_action(all) == first_flag_action(all.skip(i as int)),
        decreases args@.len() - i,
    {
        assert(all.skip(i as int).drop_first() =~= all.skip(i + 1));
        if let Some(a) = flag_of(args[i]) {
            return a;
        }
        i += 1;
    }
    CliAction::RunApp
}

} // verus!
