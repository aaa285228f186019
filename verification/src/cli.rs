//! Command-line argument types and their plain-value decisions.

use vstd::prelude::*;

verus! {

/// The logging verbosity the process runs with.
#[derive(Clone, Copy, Debug, PartialEq, Eq, Structural)]
pub enum LogLevel {
    Debug,
    Info,
}

/// Flags that apply to every subcommand.
#[derive(Clone, Copy, Debug, PartialEq, Eq, Structural)]
pub struct GlobalArgs {
    /// Enable debug logging.
    pub debug: bool,
}

impl GlobalArgs {
    /// Debug logging exactly when `--debug` was given, info otherwise.
    pub fn log_level(&self) -> (l: LogLevel)
        ensures
            l == (if self.debug {
                LogLevel::Debug
            } else {
                LogLevel::Info
            }),
    {
        if self.debug {
            LogLevel::Debug
        } else {
            LogLevel::Info
        }
    }

    /// The command-line words that reproduce these flags.
    pub fn to_args(&self) -> (args: Vec<String>)
        ensures
            self.debug ==> args@.len() == 1 && args@[0]@ == "--debug"@,
            !self.debug ==> args@.len() == 0,
    {
        let mut args: Vec<String> = Vec::new();
        if self.debug {
            args.push("--debug".to_owned());
        }
        args
    }
}

impl Default for GlobalArgs {
    /// Debug logging is off by default.
    fn default() -> (r: Self)
        ensures
            !r.debug,
    {
        GlobalArgs { debug: false }
    }
}

/// Arguments of the listing subcommand. It has no flags of its own yet.
#[derive(Clone, Copy, Debug, PartialEq, Eq, Structural)]
pub struct ListResourceGroupsArgs {}

impl ListResourceGroupsArgs {
    /// The command-line words that reproduce these flags: none yet.
    pub fn to_args(&self) -> (args: Vec<String>)
        ensures
            args@.len() == 0,
    {
        Vec::new()
    }
}

/// Arguments of the interactive subcommand. It has no flags of its own yet.
#[derive(Clone, Copy, Debug, PartialEq, Eq, Structural)]
pub struct ResourceGroupTuiArgs {}

impl ResourceGroupTuiArgs {
    /// The command-line words that reproduce these flags: none yet.
    pub fn to_args(&self) -> (args: Vec<String>)
        ensures
            args@.len() == 0,
    {
        Vec::new()
    }
}

/// The subcommand to run.
#[derive(Clone, Copy, Debug, PartialEq, Eq, Structural)]
pub enum Command {
    ListResourceGroups(ListResourceGroupsArgs),
    ResourceGroupTui(ResourceGroupTuiArgs),
}

impl Command {
    /// The command-line words that reproduce this subcommand: its name,
    /// followed by its own flags.
    pub fn to_args(&self) -> (args: Vec<String>)
        ensures
            args@.len() == 1,
            *self is ListResourceGroups ==> args@[0]@ == "list-resource-groups"@,
            *self is ResourceGroupTui ==> args@[0]@ == "resource-group-tui"@,
    {
        let mut args: Vec<String> = Vec::new();
        match self {
            Command::ListResourceGroups(inner) => {
                args.push("list-resource-groups".to_owned());
                let mut rest = inner.to_args();
                args.append(&mut rest);
            },
            Command::ResourceGroupTui(inner) => {
                args.push("resource-group-tui".to_owned());
                let mut rest = inner.to_args();
                args.append(&mut rest);
            },
        }
        args
    }
}

} // verus!
