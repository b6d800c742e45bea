//! Windows.

use vstd::prelude::*;

verus! {

/// Prepares the application for Windows, which asks for nothing.
pub fn init() {
}

} // verus!
