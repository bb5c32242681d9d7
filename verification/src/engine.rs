//! Tasks of the build tool.

use vstd::prelude::*;

verus! {

/// Builds the whole engine. There is nothing to build yet.
pub fn build_engine() {
}

} // verus!
