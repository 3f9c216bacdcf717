//! Keyboard layouts.

use vstd::prelude::*;

verus! {

/// The layout that decides which symbol a shifted key gives. `Other` carries the
/// platform's identifier of a layout that has no table here.
#[derive(Debug, Clone, Copy, PartialEq, Eq, Structural)]
pub enum KeyboardLayout {
    UnitedStates,
    UnitedKingdom,
    Other(u16),
}

} // verus!
