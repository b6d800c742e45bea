//! macOS.

use vstd::prelude::*;

verus! {

/// Prepares the application for macOS, which asks for nothing.
pub fn init() {
}

} // verus!
