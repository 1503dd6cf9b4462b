//! Key presses as the browser reads them.

use vstd::prelude::*;

verus! {

/// The key of one key press. Keys that the browser gives no meaning to are
/// all `Other`.
#[derive(Clone, Copy, Debug, PartialEq, Eq)]
pub enum Key {
    Enter,
    Esc,
    Left,
    Right,
    Up,
    Down,
    Backspace,
    Char(char),
    Other,
}

/// Whether the shift bit is set in the modifier bits of a key press.
pub open spec fn shift_held(modifiers: u8) -> bool {
    modifiers & 1 == 1
}

/// Asks crossterm's `KeyModifiers`, made of `modifiers` by
/// `from_bits_truncate`, whether it `contains` `KeyModifiers::SHIFT`.
/// The contract says that this is so exactly when the lowest bit is set:
/// `SHIFT` is that bit, truncation keeps it, and `contains` tests it.
#[verifier::external_body]
pub(crate) fn has_shift(modifiers: u8) -> (held: bool)
    ensures
        held == shift_held(modifiers),
{
    crossterm::event::KeyModifiers::from_bits_truncate(modifiers).contains(
        crossterm::event::KeyModifiers::SHIFT,
    )
}

} // verus!
