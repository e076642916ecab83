//! Verified core of a keypad shortcut board for desktop applications: shortcut
//! expressions, key capture, board and settings data, and the rules that tie
//! them together.
use vstd::prelude::*;

pub mod text;
pub mod input;
pub mod domain;
pub mod settings;
pub mod model;
pub mod components;
pub mod actions;
pub mod profiles;

verus! {

/// Low word of a 32-bit message parameter.
pub fn loword(value: u32) -> (r: u16)
    ensures
        r == value % 0x10000,
{
    assert(value & 0xffff == value % 0x10000) by (bit_vector);
    (value & 0xffff) as u16
}

} // verus!
