//! Linux.

use vstd::prelude::*;

verus! {

/// Prepares the application for Linux, which asks for nothing.
pub fn init() {
}

} // verus!
