use vstd::prelude::*;

verus! {

/// The command line: one subcommand.
#[derive(Debug, Clone, PartialEq, Eq)]
pub struct Opts {
    pub sub_command: SubCommand,
}

/// What the command line asks for.
#[derive(Debug, Clone, PartialEq, Eq)]
pub enum SubCommand {
    /// Lists profiles and current sessions.
    Profile,
    /// Lists the environment variables of the AWS command line interface.
    Env,
    /// Shows the profile in effect.
    Show,
    /// Creates a session or assumes a role, by the profile's type.
    In { profile: String, token: String },
    /// Prints the shell script that exports a profile's credentials.
    Export { profile: String },
    /// Clears the saved sessions or the environment variables.
    Clear { command: ClearCommand },
}

/// What `Clear` clears.
#[derive(Debug, Clone, Copy, PartialEq, Eq)]
pub enum ClearCommand {
    /// Removes the file of saved sessions.
    Session,
    /// Unsets the environment variables.
    Env,
}

} // verus!
