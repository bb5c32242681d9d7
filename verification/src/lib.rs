//! Command-dispatch engine of the Zenyx interactive shell.
//!
//! The crate holds the shell's core: a tokenizer, a registry of named
//! commands with aliases and categories, a matcher that suggests a near-miss
//! name, an evaluator that dispatches the statements of one input, and the
//! bookkeeping of nested script execution. Each part states its behaviour in
//! a contract over plain mathematical models (`Seq<char>` for text).

pub mod builtins;
pub mod chars;
pub mod completion;
pub mod component;
pub mod dispatch;
pub mod engine;
pub mod error;
pub mod hash_db;
pub mod handler;
pub mod input;
pub mod keyed;
pub mod plugin;
pub mod script;
pub mod similarity;
pub mod startup;
pub mod workspace;

use vstd::prelude::*;

verus! {

/// The sum of two numbers, where it fits.
pub fn add(left: u64, right: u64) -> (sum: u64)
    requires
        left + right <= u64::MAX,
    ensures
        sum == left + right,
{
    left + right
}

} // verus!
