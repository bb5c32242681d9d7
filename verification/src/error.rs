//! What can go wrong while the shell evaluates input.

use vstd::prelude::*;

verus! {

/// An error of the evaluator or of the script runner.
#[derive(Debug)]
pub enum EvalError {
    /// A statement held nothing but white space.
    EmptyStatement,
    /// No command or alias has this name. `suggestion` is the registered
    /// name closest to it, if one is close enough.
    UnknownCommand { name: String, suggestion: Option<String> },
    /// The command declares `expected` arguments and got `received`.
    ArityMismatch { name: String, expected: usize, received: usize },
    /// The script's file name does not end in the script suffix.
    BadScriptExtension { path: String },
    /// The script file could not be read as text.
    UnreadableScript { path: String },
    /// The script holds nothing but white space.
    EmptyScript,
    /// Scripts are nested deeper than the ceiling allows.
    RecursionLimit { ceiling: usize },
    /// The command ran and reported a failure of its own.
    CommandFailed { name: String, message: String },
}

/// Why a registration was turned down.
#[derive(Debug)]
pub enum ConfigError {
    /// The alias is taken. `alias` is the name in lowercase.
    AliasExists { alias: String },
    /// No command has the name that the alias should stand for. `name` is
    /// that name in lowercase.
    UnknownCommand { name: String },
}

} // verus!
