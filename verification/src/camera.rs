//! The camera that shows the menu.

use vstd::prelude::*;

verus! {

/// Marks the one camera of the application.
#[derive(Debug, Clone, Copy, PartialEq, Eq, Structural, Hash)]
pub struct MainCamera;

} // verus!
