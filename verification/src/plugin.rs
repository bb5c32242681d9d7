//! What a plugin offers to the shell.

use vstd::prelude::*;

verus! {

/// The interface of a plugin.
pub trait PluginAPI {
    /// Lets the plugin show that it is loaded.
    fn test(&self);
}

} // verus!
