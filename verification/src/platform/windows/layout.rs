//! The layout behind an input locale identifier.

use crate::input::layout::KeyboardLayout;
use vstd::prelude::*;

verus! {

/// The language identifier in an input locale identifier: its bits 16 to 31.
pub open spec fn language_id(locale: u64) -> u16 {
    ((locale / 0x1_0000) % 0x1_0000) as u16
}

/// The layout of a language identifier: 0x0809 is United Kingdom, 0x0409 United
/// States; any other identifier is carried along.
pub open spec fn layout_of_language(id: u16) -> KeyboardLayout {
    if id == 0x0809 {
        KeyboardLayout::UnitedKingdom
    } else if id == 0x0409 {
        KeyboardLayout::UnitedStates
    } else {
        KeyboardLayout::Other(id)
    }
}

/// Gives the layout that an input locale identifier stands for.
pub fn layout_from_locale(locale: u64) -> (layout: KeyboardLayout)
    ensures
        layout == layout_of_language(language_id(locale)),
{
    let id: u16 = ((locale / 0x1_0000) % 0x1_0000) as u16;
    if id == 0x0809 {
        KeyboardLayout::UnitedKingdom
    } else if id == 0x0409 {
        KeyboardLayout::UnitedStates
    } else {
        KeyboardLayout::Other(id)
    }
}

} // verus!
