//! Which pad a key selects: the digit keys and the numeric keypad keys, in the
//! keypad's own order or in the natural reading order.
use vstd::prelude::*;
use crate::input::keys::vkey::{
    VK_1, VK_2, VK_3, VK_4, VK_5, VK_6, VK_7, VK_8, VK_9, VK_NUMPAD1, VK_NUMPAD2, VK_NUMPAD3,
    VK_NUMPAD4, VK_NUMPAD5, VK_NUMPAD6, VK_NUMPAD7, VK_NUMPAD8, VK_NUMPAD9,
};
use crate::model::data::PadId;

verus! {

/// The pad number that a key selects, 0 for none. The numeric keypad keys select
/// the pad of their number. The digit keys do the same, unless the natural key
/// order is set: then the digit rows are read from the top, so `7`, `8`, `9`
/// select pads 1 to 3 and `1`, `2`, `3` select pads 7 to 9.
pub open spec fn pad_number_of_key(vk: u16, natural_key_order: bool) -> int {
    if VK_NUMPAD1 <= vk <= VK_NUMPAD9 {
        vk - VK_NUMPAD1 + 1
    } else if VK_1 <= vk <= VK_9 {
        let d = vk - VK_1 + 1;
        if natural_key_order && d <= 3 {
            d + 6
        } else if natural_key_order && d >= 7 {
            d - 6
        } else {
            d
        }
    } else {
        0
    }
}

/// The pad that a key selects, if any.
pub fn map_pad_id(vk_code: u16, natural_key_order: bool) -> (r: Option<PadId>)
    ensures
        match r {
            Some(p) => p.num() == pad_number_of_key(vk_code, natural_key_order),
            None => pad_number_of_key(vk_code, natural_key_order) == 0,
        },
{
    if !natural_key_order {
        if vk_code == VK_NUMPAD1 || vk_code == VK_1 {
            Some(PadId::One)
        } else if vk_code == VK_NUMPAD2 || vk_code == VK_2 {
            Some(PadId::Two)
        } else if vk_code == VK_NUMPAD3 || vk_code == VK_3 {
            Some(PadId::Three)
        } else if vk_code == VK_NUMPAD4 || vk_code == VK_4 {
            Some(PadId::Four)
        } else if vk_code == VK_NUMPAD5 || vk_code == VK_5 {
            Some(PadId::Five)
        } else if vk_code == VK_NUMPAD6 || vk_code == VK_6 {
            Some(PadId::Six)
        } else if vk_code == VK_NUMPAD7 || vk_code == VK_7 {
            Some(PadId::Seven)
        } else if vk_code == VK_NUMPAD8 || vk_code == VK_8 {
            Some(PadId::Eight)
        } else if vk_code == VK_NUMPAD9 || vk_code == VK_9 {
            Some(PadId::Nine)
        } else {
            None
        }
    } else {
        if vk_code == VK_NUMPAD1 || vk_code == VK_7 {
            Some(PadId::One)
        } else if vk_code == VK_NUMPAD2 || vk_code == VK_8 {
            Some(PadId::Two)
        } else if vk_code == VK_NUMPAD3 || vk_code == VK_9 {
            Some(PadId::Three)
        } else if vk_code == VK_NUMPAD4 || vk_code == VK_4 {
            Some(PadId::Four)
        } else if vk_code == VK_NUMPAD5 || vk_code == VK_5 {
            Some(PadId::Five)
        } else if vk_code == VK_NUMPAD6 || vk_code == VK_6 {
            Some(PadId::Six)
        } else if vk_code == VK_NUMPAD7 || vk_code == VK_1 {
            Some(PadId::Seven)
        } else if vk_code == VK_NUMPAD8 || vk_code == VK_2 {
            Some(PadId::Eight)
        } else if vk_code == VK_NUMPAD9 || vk_code == VK_3 {
            Some(PadId::Nine)
        } else {
            None
        }
    }
}

/// Every pad is selected by exactly its own numeric keypad key, whatever the key
/// order.
pub proof fn law_numpad_keys_select_their_pad(p: PadId, natural_key_order: bool)
    ensures
        pad_number_of_key((VK_NUMPAD1 + p.num() - 1) as u16, natural_key_order) == p.num(),
{
}


/// The keypad keys select the pad of their number, and so do the digit keys in the
/// keypad order. In the natural key order a digit key selects the pad in the same
/// column of the mirrored row: the top digit row 7 8 9 selects the top pads 1 2 3,
/// the bottom row 1 2 3 the bottom pads 7 8 9, and the middle row stays.
pub proof fn law_natural_order_mirrors_the_rows(d: int)
    requires
        1 <= d <= 9,
    ensures
        pad_number_of_key((VK_NUMPAD1 + d - 1) as u16, true) == d,
        pad_number_of_key((VK_NUMPAD1 + d - 1) as u16, false) == d,
        pad_number_of_key((VK_1 + d - 1) as u16, false) == d,
        ({
            let p = pad_number_of_key((VK_1 + d - 1) as u16, true);
            &&& 1 <= p <= 9
            &&& (p - 1) % 3 == (d - 1) % 3
            &&& (p - 1) / 3 == 2 - (d - 1) / 3
        }),
{
}

} // verus!
