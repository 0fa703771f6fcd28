//! The command line, once parsed, and what it asks for.

pub mod verbose;

use crate::commands::{activate, install, list, remove};
use crate::lifecycle::Step;
use crate::utils::Platform;
use vstd::prelude::*;

verus! {

/// The parsed command line.
#[derive(Debug, Clone, PartialEq, Eq)]
pub struct Cli {
    pub command: Option<Commands>,
    /// Print the version of the tool.
    pub version: bool,
    /// Explain what is being done.
    pub verbose: bool,
}

/// The commands of the tool.
#[derive(Debug, Clone, PartialEq, Eq)]
pub enum Commands {
    /// Install a version.
    Install { version: String },
    /// Make an installed version the active one.
    Use { version: String },
    /// Remove an installed version.
    Remove { version: String },
    /// List the installed versions, or the published ones with `remote`.
    List { remote: bool },
    /// List the globally installed packages of the active version.
    GlobalList,
    /// Update the tool itself.
    Update,
}

/// What a command line asks for.
#[derive(Debug, Clone, PartialEq, Eq)]
pub enum Invocation {
    /// Print the version of the tool, after a note on verbose mode where
    /// `verbose` is set. Nothing else is done.
    ShowVersion { verbose: bool },
    /// Run a lifecycle operation, of which this is the first step.
    Run(Step),
    /// List the globally installed packages.
    GlobalList,
    /// Update the tool.
    Update,
    /// No command was given: print the help text.
    Help,
}

/// Decides what a command line asks for. The version flag wins over any
/// command; each lifecycle command is started by its `execute`.
pub fn dispatch(cli: Cli, platform: Platform) -> (invocation: Invocation)
    ensures
        cli.version ==> invocation == (Invocation::ShowVersion { verbose: cli.verbose }),
        !cli.version ==> match cli.command {
            Some(Commands::Install { version }) => invocation matches Invocation::Run(step)
                && step@ == install::begun(version@, platform),
            Some(Commands::Use { version }) => invocation matches Invocation::Run(step) && step@
                == activate::begun(version@),
            Some(Commands::Remove { version }) => invocation matches Invocation::Run(step)
                && step@ == remove::begun(version@),
            Some(Commands::List { remote }) => invocation matches Invocation::Run(step) && step@
                == list::begun(remote),
            Some(Commands::GlobalList) => invocation is GlobalList,
            Some(Commands::Update) => invocation is Update,
            None => invocation is Help,
        },
{
    if cli.version {
        return Invocation::ShowVersion { verbose: cli.verbose };
    }
    match cli.command {
        Some(Commands::Install { version }) => Invocation::Run(
            install::execute(version.as_str(), platform),
        ),
        Some(Commands::Use { version }) => Invocation::Run(activate::execute(version.as_str())),
        Some(Commands::Remove { version }) => Invocation::Run(remove::execute(version.as_str())),
        Some(Commands::List { remote }) => Invocation::Run(list::execute(remote)),
        Some(Commands::GlobalList) => Invocation::GlobalList,
        Some(Commands::Update) => Invocation::Update,
        None => Invocation::Help,
    }
}

} // verus!
