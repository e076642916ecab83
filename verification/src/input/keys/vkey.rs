//! The virtual keys that shortcut expressions can name, with their titles.
use vstd::prelude::*;
use crate::text::str_eq;

verus! {

/// Virtual-key code of the key titled "back".
pub const VK_BACK: u16 = 0x08;
/// Virtual-key code of the key titled "shift".
pub const VK_SHIFT: u16 = 0x10;
/// Virtual-key code of the key titled "ctrl".
pub const VK_CTRL: u16 = 0x11;
/// Virtual-key code of the key titled "alt".
pub const VK_ALT: u16 = 0x12;
/// Virtual-key code of the key titled "enter".
pub const VK_ENTER: u16 = 0x0D;
/// Virtual-key code of the key titled "esc".
pub const VK_ESC: u16 = 0x1B;
/// Virtual-key code of the key titled "space".
pub const VK_SPACE: u16 = 0x20;
/// Virtual-key code of the key titled "tab".
pub const VK_TAB: u16 = 0x09;
/// Virtual-key code of the key titled "ins".
pub const VK_INS: u16 = 0x2D;
/// Virtual-key code of the key titled "del".
pub const VK_DEL: u16 = 0x2E;
/// Virtual-key code of the key titled "f1".
pub const VK_F1: u16 = 0x70;
/// Virtual-key code of the key titled "f2".
pub const VK_F2: u16 = 0x71;
/// Virtual-key code of the key titled "numlock".
pub const VK_NUMLOCK: u16 = 0x90;
/// Virtual-key code of the key titled "p".
pub const VK_P: u16 = 0x50;
/// Virtual-key code of the key titled "a".
pub const VK_A: u16 = 0x41;
/// Virtual-key code of the key titled "b".
pub const VK_B: u16 = 0x42;
/// Virtual-key code of the key titled "c".
pub const VK_C: u16 = 0x43;
/// Virtual-key code of the key titled "d".
pub const VK_D: u16 = 0x44;
/// Virtual-key code of the key titled "e".
pub const VK_E: u16 = 0x45;
/// Virtual-key code of the key titled "f".
pub const VK_F: u16 = 0x46;
/// Virtual-key code of the key titled "k".
pub const VK_K: u16 = 0x4B;
/// Virtual-key code of the key titled "r".
pub const VK_R: u16 = 0x52;
/// Virtual-key code of the key titled "s".
pub const VK_S: u16 = 0x53;
/// Virtual-key code of the key titled "t".
pub const VK_T: u16 = 0x54;
/// Virtual-key code of the key titled "v".
pub const VK_V: u16 = 0x56;
/// Virtual-key code of the key titled "w".
pub const VK_W: u16 = 0x57;
/// Virtual-key code of the key titled "x".
pub const VK_X: u16 = 0x58;
/// Virtual-key code of the key titled "lctrl".
pub const VK_LCTRL: u16 = 0xA2;
/// Virtual-key code of the key titled "rctrl".
pub const VK_RCTRL: u16 = 0xA3;
/// Virtual-key code of the key titled "lshift".
pub const VK_LSHIFT: u16 = 0xA0;
/// Virtual-key code of the key titled "rshift".
pub const VK_RSHIFT: u16 = 0xA1;
/// Virtual-key code of the key titled "lalt".
pub const VK_LALT: u16 = 0xA4;
/// Virtual-key code of the key titled "ralt".
pub const VK_RALT: u16 = 0xA5;
/// Virtual-key code of the key titled "larrow".
pub const VK_LARROW: u16 = 0x25;
/// Virtual-key code of the key titled "uarrow".
pub const VK_UARROW: u16 = 0x26;
/// Virtual-key code of the key titled "rarrow".
pub const VK_RARROW: u16 = 0x27;
/// Virtual-key code of the key titled "darrow".
pub const VK_DARROW: u16 = 0x28;
/// Virtual-key code of the key titled "numpad0".
pub const VK_NUMPAD0: u16 = 0x60;
/// Virtual-key code of the key titled "numpad1".
pub const VK_NUMPAD1: u16 = 0x61;
/// Virtual-key code of the key titled "numpad2".
pub const VK_NUMPAD2: u16 = 0x62;
/// Virtual-key code of the key titled "numpad3".
pub const VK_NUMPAD3: u16 = 0x63;
/// Virtual-key code of the key titled "numpad4".
pub const VK_NUMPAD4: u16 = 0x64;
/// Virtual-key code of the key titled "numpad5".
pub const VK_NUMPAD5: u16 = 0x65;
/// Virtual-key code of the key titled "numpad6".
pub const VK_NUMPAD6: u16 = 0x66;
/// Virtual-key code of the key titled "numpad7".
pub const VK_NUMPAD7: u16 = 0x67;
/// Virtual-key code of the key titled "numpad8".
pub const VK_NUMPAD8: u16 = 0x68;
/// Virtual-key code of the key titled "numpad9".
pub const VK_NUMPAD9: u16 = 0x69;
/// Virtual-key code of the key titled "0".
pub const VK_0: u16 = 0x30;
/// Virtual-key code of the key titled "1".
pub const VK_1: u16 = 0x31;
/// Virtual-key code of the key titled "2".
pub const VK_2: u16 = 0x32;
/// Virtual-key code of the key titled "3".
pub const VK_3: u16 = 0x33;
/// Virtual-key code of the key titled "4".
pub const VK_4: u16 = 0x34;
/// Virtual-key code of the key titled "5".
pub const VK_5: u16 = 0x35;
/// Virtual-key code of the key titled "6".
pub const VK_6: u16 = 0x36;
/// Virtual-key code of the key titled "7".
pub const VK_7: u16 = 0x37;
/// Virtual-key code of the key titled "8".
pub const VK_8: u16 = 0x38;
/// Virtual-key code of the key titled "9".
pub const VK_9: u16 = 0x39;

/// A virtual key and the title by which shortcut expressions name it.
#[derive(Debug, Clone, PartialEq, Eq)]
pub struct VirtualKey {
    pub vkey: u16,
    pub title: &'static str,
}

impl VirtualKey {
    /// A key with the given code and title.
    pub fn new(vkey: u16, title: &'static str) -> (r: Self)
        ensures
            r.vkey == vkey,
            r.title == title,
    {
        Self { vkey, title }
    }

    /// The key's title is exactly `text`.
    pub fn matches(&self, text: &str) -> (r: bool)
        ensures
            r == (self.title@ == text@),
    {
        str_eq(self.title, text)
    }
}

/// The code of the key whose title is `t`, if `t` is the title of a known key.
pub open spec fn vkey_code(t: Seq<char>) -> Option<u16> {
    if t == "back"@ {
        Some(0x08u16)
    } else if t == "tab"@ {
        Some(0x09u16)
    } else if t == "clear"@ {
        Some(0x0Cu16)
    } else if t == "enter"@ {
        Some(0x0Du16)
    } else if t == "shift"@ {
        Some(0x10u16)
    } else if t == "ctrl"@ {
        Some(0x11u16)
    } else if t == "alt"@ {
        Some(0x12u16)
    } else if t == "pause"@ {
        Some(0x13u16)
    } else if t == "capslock"@ {
        Some(0x14u16)
    } else if t == "esc"@ {
        Some(0x1Bu16)
    } else if t == "space"@ {
        Some(0x20u16)
    } else if t == "pgup"@ {
        Some(0x21u16)
    } else if t == "pgdown"@ {
        Some(0x22u16)
    } else if t == "end"@ {
        Some(0x23u16)
    } else if t == "home"@ {
        Some(0x24u16)
    } else if t == "larrow"@ {
        Some(0x25u16)
    } else if t == "uarrow"@ {
        Some(0x26u16)
    } else if t == "rarrow"@ {
        Some(0x27u16)
    } else if t == "darrow"@ {
        Some(0x28u16)
    } else if t == "select"@ {
        Some(0x29u16)
    } else if t == "print"@ {
        Some(0x2Au16)
    } else if t == "execute"@ {
        Some(0x2Bu16)
    } else if t == "prtscrn"@ {
        Some(0x2Cu16)
    } else if t == "ins"@ {
        Some(0x2Du16)
    } else if t == "del"@ {
        Some(0x2Eu16)
    } else if t == "help"@ {
        Some(0x2Fu16)
    } else if t == "0"@ {
        Some(0x30u16)
    } else if t == "1"@ {
        Some(0x31u16)
    } else if t == "2"@ {
        Some(0x32u16)
    } else if t == "3"@ {
        Some(0x33u16)
    } else if t == "4"@ {
        Some(0x34u16)
    } else if t == "5"@ {
        Some(0x35u16)
    } else if t == "6"@ {
        Some(0x36u16)
    } else if t == "7"@ {
        Some(0x37u16)
    } else if t == "8"@ {
        Some(0x38u16)
    } else if t == "9"@ {
        Some(0x39u16)
    } else if t == "a"@ {
        Some(0x41u16)
    } else if t == "b"@ {
        Some(0x42u16)
    } else if t == "c"@ {
        Some(0x43u16)
    } else if t == "d"@ {
        Some(0x44u16)
    } else if t == "e"@ {
        Some(0x45u16)
    } else if t == "f"@ {
        Some(0x46u16)
    } else if t == "g"@ {
        Some(0x47u16)
    } else if t == "h"@ {
        Some(0x48u16)
    } else if t == "i"@ {
        Some(0x49u16)
    } else if t == "j"@ {
        Some(0x4Au16)
    } else if t == "k"@ {
        Some(0x4Bu16)
    } else if t == "l"@ {
        Some(0x4Cu16)
    } else if t == "m"@ {
        Some(0x4Du16)
    } else if t == "n"@ {
        Some(0x4Eu16)
    } else if t == "o"@ {
        Some(0x4Fu16)
    } else if t == "p"@ {
        Some(0x50u16)
    } else if t == "q"@ {
        Some(0x51u16)
    } else if t == "r"@ {
        Some(0x52u16)
    } else if t == "s"@ {
        Some(0x53u16)
    } else if t == "t"@ {
        Some(0x54u16)
    } else if t == "u"@ {
        Some(0x55u16)
    } else if t == "v"@ {
        Some(0x56u16)
    } else if t == "w"@ {
        Some(0x57u16)
    } else if t == "x"@ {
        Some(0x58u16)
    } else if t == "y"@ {
        Some(0x59u16)
    } else if t == "z"@ {
        Some(0x5Au16)
    } else if t == "lwin"@ {
        Some(0x5Bu16)
    } else if t == "rwin"@ {
        Some(0x5Cu16)
    } else if t == "numpad0"@ {
        Some(0x60u16)
    } else if t == "numpad1"@ {
        Some(0x61u16)
    } else if t == "numpad2"@ {
        Some(0x62u16)
    } else if t == "numpad3"@ {
        Some(0x63u16)
    } else if t == "numpad4"@ {
        Some(0x64u16)
    } else if t == "numpad5"@ {
        Some(0x65u16)
    } else if t == "numpad6"@ {
        Some(0x66u16)
    } else if t == "numpad7"@ {
        Some(0x67u16)
    } else if t == "numpad8"@ {
        Some(0x68u16)
    } else if t == "numpad9"@ {
        Some(0x69u16)
    } else if t == "multiply"@ {
        Some(0x6Au16)
    } else if t == "add"@ {
        Some(0x6Bu16)
    } else if t == "subtract"@ {
        Some(0x6Du16)
    } else if t == "decimal"@ {
        Some(0x6Eu16)
    } else if t == "divide"@ {
        Some(0x6Fu16)
    } else if t == "f1"@ {
        Some(0x70u16)
    } else if t == "f2"@ {
        Some(0x71u16)
    } else if t == "f3"@ {
        Some(0x72u16)
    } else if t == "f4"@ {
        Some(0x73u16)
    } else if t == "f5"@ {
        Some(0x74u16)
    } else if t == "f6"@ {
        Some(0x75u16)
    } else if t == "f7"@ {
        Some(0x76u16)
    } else if t == "f8"@ {
        Some(0x77u16)
    } else if t == "f9"@ {
        Some(0x78u16)
    } else if t == "f10"@ {
        Some(0x79u16)
    } else if t == "f11"@ {
        Some(0x7Au16)
    } else if t == "f12"@ {
        Some(0x7Bu16)
    } else if t == "f13"@ {
        Some(0x7Cu16)
    } else if t == "f14"@ {
        Some(0x7Du16)
    } else if t == "f15"@ {
        Some(0x7Eu16)
    } else if t == "f16"@ {
        Some(0x7Fu16)
    } else if t == "f17"@ {
        Some(0x80u16)
    } else if t == "f18"@ {
        Some(0x81u16)
    } else if t == "f19"@ {
        Some(0x82u16)
    } else if t == "f20"@ {
        Some(0x83u16)
    } else if t == "f21"@ {
        Some(0x84u16)
    } else if t == "f22"@ {
        Some(0x85u16)
    } else if t == "f23"@ {
        Some(0x86u16)
    } else if t == "f24"@ {
        Some(0x87u16)
    } else if t == "numlock"@ {
        Some(0x90u16)
    } else if t == "scrllock"@ {
        Some(0x91u16)
    } else if t == "lshift"@ {
        Some(0xA0u16)
    } else if t == "rshift"@ {
        Some(0xA1u16)
    } else if t == "lctrl"@ {
        Some(0xA2u16)
    } else if t == "rctrl"@ {
        Some(0xA3u16)
    } else if t == "lalt"@ {
        Some(0xA4u16)
    } else if t == "ralt"@ {
        Some(0xA5u16)
    } else if t == ";"@ {
        Some(0xBAu16)
    } else if t == "="@ {
        Some(0xBBu16)
    } else if t == ","@ {
        Some(0xBCu16)
    } else if t == "-"@ {
        Some(0xBDu16)
    } else if t == "."@ {
        Some(0xBEu16)
    } else if t == "/"@ {
        Some(0xBFu16)
    } else if t == "`"@ {
        Some(0xC0u16)
    } else if t == "["@ {
        Some(0xDBu16)
    } else if t == "\\"@ {
        Some(0xDCu16)
    } else if t == "]"@ {
        Some(0xDDu16)
    } else if t == "'"@ {
        Some(0xDEu16)
    } else {
        None
    }
}

/// The known key whose title is `text`.
#[verifier::rlimit(50)]
pub fn find_vkey(text: String) -> (r: Option<VirtualKey>)
    ensures
        match r {
            Some(k) => vkey_code(text@) == Some(k.vkey) && k.title@ == text@,
            None => vkey_code(text@) is None,
        },
{
    let t = text.as_str();
    if str_eq(t, "back") {
        return Some(VirtualKey::new(0x08, "back"));
    }
    if str_eq(t, "tab") {
        return Some(VirtualKey::new(0x09, "tab"));
    }
    if str_eq(t, "clear") {
        return Some(VirtualKey::new(0x0C, "clear"));
    }
    if str_eq(t, "enter") {
        return Some(VirtualKey::new(0x0D, "enter"));
    }
    if str_eq(t, "shift") {
        return Some(VirtualKey::new(0x10, "shift"));
    }
    if str_eq(t, "ctrl") {
        return Some(VirtualKey::new(0x11, "ctrl"));
    }
    if str_eq(t, "alt") {
        return Some(VirtualKey::new(0x12, "alt"));
    }
    if str_eq(t, "pause") {
        return Some(VirtualKey::new(0x13, "pause"));
    }
    if str_eq(t, "capslock") {
        return Some(VirtualKey::new(0x14, "capslock"));
    }
    if str_eq(t, "esc") {
        return Some(VirtualKey::new(0x1B, "esc"));
    }
    if str_eq(t, "space") {
        return Some(VirtualKey::new(0x20, "space"));
    }
    if str_eq(t, "pgup") {
        return Some(VirtualKey::new(0x21, "pgup"));
    }
    if str_eq(t, "pgdown") {
        return Some(VirtualKey::new(0x22, "pgdown"));
    }
    if str_eq(t, "end") {
        return Some(VirtualKey::new(0x23, "end"));
    }
    if str_eq(t, "home") {
        return Some(VirtualKey::new(0x24, "home"));
    }
    if str_eq(t, "larrow") {
        return Some(VirtualKey::new(0x25, "larrow"));
    }
    if str_eq(t, "uarrow") {
        return Some(VirtualKey::new(0x26, "uarrow"));
    }
    if str_eq(t, "rarrow") {
        return Some(VirtualKey::new(0x27, "rarrow"));
    }
    if str_eq(t, "darrow") {
        return Some(VirtualKey::new(0x28, "darrow"));
    }
    if str_eq(t, "select") {
        return Some(VirtualKey::new(0x29, "select"));
    }
    if str_eq(t, "print") {
        return Some(VirtualKey::new(0x2A, "print"));
    }
    if str_eq(t, "execute") {
        return Some(VirtualKey::new(0x2B, "execute"));
    }
    if str_eq(t, "prtscrn") {
        return Some(VirtualKey::new(0x2C, "prtscrn"));
    }
    if str_eq(t, "ins") {
        return Some(VirtualKey::new(0x2D, "ins"));
    }
    if str_eq(t, "del") {
        return Some(VirtualKey::new(0x2E, "del"));
    }
    if str_eq(t, "help") {
        return Some(VirtualKey::new(0x2F, "help"));
    }
    if str_eq(t, "0") {
        return Some(VirtualKey::new(0x30, "0"));
    }
    if str_eq(t, "1") {
        return Some(VirtualKey::new(0x31, "1"));
    }
    if str_eq(t, "2") {
        return Some(VirtualKey::new(0x32, "2"));
    }
    if str_eq(t, "3") {
        return Some(VirtualKey::new(0x33, "3"));
    }
    if str_eq(t, "4") {
        return Some(VirtualKey::new(0x34, "4"));
    }
    if str_eq(t, "5") {
        return Some(VirtualKey::new(0x35, "5"));
    }
    if str_eq(t, "6") {
        return Some(VirtualKey::new(0x36, "6"));
    }
    if str_eq(t, "7") {
        return Some(VirtualKey::new(0x37, "7"));
    }
    if str_eq(t, "8") {
        return Some(VirtualKey::new(0x38, "8"));
    }
    if str_eq(t, "9") {
        return Some(VirtualKey::new(0x39, "9"));
    }
    if str_eq(t, "a") {
        return Some(VirtualKey::new(0x41, "a"));
    }
    if str_eq(t, "b") {
        return Some(VirtualKey::new(0x42, "b"));
    }
    if str_eq(t, "c") {
        return Some(VirtualKey::new(0x43, "c"));
    }
    if str_eq(t, "d") {
        return Some(VirtualKey::new(0x44, "d"));
    }
    if str_eq(t, "e") {
        return Some(VirtualKey::new(0x45, "e"));
    }
    if str_eq(t, "f") {
        return Some(VirtualKey::new(0x46, "f"));
    }
    if str_eq(t, "g") {
        return Some(VirtualKey::new(0x47, "g"));
    }
    if str_eq(t, "h") {
        return Some(VirtualKey::new(0x48, "h"));
    }
    if str_eq(t, "i") {
        return Some(VirtualKey::new(0x49, "i"));
    }
    if str_eq(t, "j") {
        return Some(VirtualKey::new(0x4A, "j"));
    }
    if str_eq(t, "k") {
        return Some(VirtualKey::new(0x4B, "k"));
    }
    if str_eq(t, "l") {
        return Some(VirtualKey::new(0x4C, "l"));
    }
    if str_eq(t, "m") {
        return Some(VirtualKey::new(0x4D, "m"));
    }
    if str_eq(t, "n") {
        return Some(VirtualKey::new(0x4E, "n"));
    }
    if str_eq(t, "o") {
        return Some(VirtualKey::new(0x4F, "o"));
    }
    if str_eq(t, "p") {
        return Some(VirtualKey::new(0x50, "p"));
    }
    if str_eq(t, "q") {
        return Some(VirtualKey::new(0x51, "q"));
    }
    if str_eq(t, "r") {
        return Some(VirtualKey::new(0x52, "r"));
    }
    if str_eq(t, "s") {
        return Some(VirtualKey::new(0x53, "s"));
    }
    if str_eq(t, "t") {
        return Some(VirtualKey::new(0x54, "t"));
    }
    if str_eq(t, "u") {
        return Some(VirtualKey::new(0x55, "u"));
    }
    if str_eq(t, "v") {
        return Some(VirtualKey::new(0x56, "v"));
    }
    if str_eq(t, "w") {
        return Some(VirtualKey::new(0x57, "w"));
    }
    if str_eq(t, "x") {
        return Some(VirtualKey::new(0x58, "x"));
    }
    if str_eq(t, "y") {
        return Some(VirtualKey::new(0x59, "y"));
    }
    if str_eq(t, "z") {
        return Some(VirtualKey::new(0x5A, "z"));
    }
    if str_eq(t, "lwin") {
        return Some(VirtualKey::new(0x5B, "lwin"));
    }
    if str_eq(t, "rwin") {
        return Some(VirtualKey::new(0x5C, "rwin"));
    }
    if str_eq(t, "numpad0") {
        return Some(VirtualKey::new(0x60, "numpad0"));
    }
    if str_eq(t, "numpad1") {
        return Some(VirtualKey::new(0x61, "numpad1"));
    }
    if str_eq(t, "numpad2") {
        return Some(VirtualKey::new(0x62, "numpad2"));
    }
    if str_eq(t, "numpad3") {
        return Some(VirtualKey::new(0x63, "numpad3"));
    }
    if str_eq(t, "numpad4") {
        return Some(VirtualKey::new(0x64, "numpad4"));
    }
    if str_eq(t, "numpad5") {
        return Some(VirtualKey::new(0x65, "numpad5"));
    }
    if str_eq(t, "numpad6") {
        return Some(VirtualKey::new(0x66, "numpad6"));
    }
    if str_eq(t, "numpad7") {
        return Some(VirtualKey::new(0x67, "numpad7"));
    }
    if str_eq(t, "numpad8") {
        return Some(VirtualKey::new(0x68, "numpad8"));
    }
    if str_eq(t, "numpad9") {
        return Some(VirtualKey::new(0x69, "numpad9"));
    }
    if str_eq(t, "multiply") {
        return Some(VirtualKey::new(0x6A, "multiply"));
    }
    if str_eq(t, "add") {
        return Some(VirtualKey::new(0x6B, "add"));
    }
    if str_eq(t, "subtract") {
        return Some(VirtualKey::new(0x6D, "subtract"));
    }
    if str_eq(t, "decimal") {
        return Some(VirtualKey::new(0x6E, "decimal"));
    }
    if str_eq(t, "divide") {
        return Some(VirtualKey::new(0x6F, "divide"));
    }
    if str_eq(t, "f1") {
        return Some(VirtualKey::new(0x70, "f1"));
    }
    if str_eq(t, "f2") {
        return Some(VirtualKey::new(0x71, "f2"));
    }
    if str_eq(t, "f3") {
        return Some(VirtualKey::new(0x72, "f3"));
    }
    if str_eq(t, "f4") {
        return Some(VirtualKey::new(0x73, "f4"));
    }
    if str_eq(t, "f5") {
        return Some(VirtualKey::new(0x74, "f5"));
    }
    if str_eq(t, "f6") {
        return Some(VirtualKey::new(0x75, "f6"));
    }
    if str_eq(t, "f7") {
        return Some(VirtualKey::new(0x76, "f7"));
    }
    if str_eq(t, "f8") {
        return Some(VirtualKey::new(0x77, "f8"));
    }
    if str_eq(t, "f9") {
        return Some(VirtualKey::new(0x78, "f9"));
    }
    if str_eq(t, "f10") {
        return Some(VirtualKey::new(0x79, "f10"));
    }
    if str_eq(t, "f11") {
        return Some(VirtualKey::new(0x7A, "f11"));
    }
    if str_eq(t, "f12") {
        return Some(VirtualKey::new(0x7B, "f12"));
    }
    if str_eq(t, "f13") {
        return Some(VirtualKey::new(0x7C, "f13"));
    }
    if str_eq(t, "f14") {
        return Some(VirtualKey::new(0x7D, "f14"));
    }
    if str_eq(t, "f15") {
        return Some(VirtualKey::new(0x7E, "f15"));
    }
    if str_eq(t, "f16") {
        return Some(VirtualKey::new(0x7F, "f16"));
    }
    if str_eq(t, "f17") {
        return Some(VirtualKey::new(0x80, "f17"));
    }
    if str_eq(t, "f18") {
        return Some(VirtualKey::new(0x81, "f18"));
    }
    if str_eq(t, "f19") {
        return Some(VirtualKey::new(0x82, "f19"));
    }
    if str_eq(t, "f20") {
        return Some(VirtualKey::new(0x83, "f20"));
    }
    if str_eq(t, "f21") {
        return Some(VirtualKey::new(0x84, "f21"));
    }
    if str_eq(t, "f22") {
        return Some(VirtualKey::new(0x85, "f22"));
    }
    if str_eq(t, "f23") {
        return Some(VirtualKey::new(0x86, "f23"));
    }
    if str_eq(t, "f24") {
        return Some(VirtualKey::new(0x87, "f24"));
    }
    if str_eq(t, "numlock") {
        return Some(VirtualKey::new(0x90, "numlock"));
    }
    if str_eq(t, "scrllock") {
        return Some(VirtualKey::new(0x91, "scrllock"));
    }
    if str_eq(t, "lshift") {
        return Some(VirtualKey::new(0xA0, "lshift"));
    }
    if str_eq(t, "rshift") {
        return Some(VirtualKey::new(0xA1, "rshift"));
    }
    if str_eq(t, "lctrl") {
        return Some(VirtualKey::new(0xA2, "lctrl"));
    }
    if str_eq(t, "rctrl") {
        return Some(VirtualKey::new(0xA3, "rctrl"));
    }
    if str_eq(t, "lalt") {
        return Some(VirtualKey::new(0xA4, "lalt"));
    }
    if str_eq(t, "ralt") {
        return Some(VirtualKey::new(0xA5, "ralt"));
    }
    if str_eq(t, ";") {
        return Some(VirtualKey::new(0xBA, ";"));
    }
    if str_eq(t, "=") {
        return Some(VirtualKey::new(0xBB, "="));
    }
    if str_eq(t, ",") {
        return Some(VirtualKey::new(0xBC, ","));
    }
    if str_eq(t, "-") {
        return Some(VirtualKey::new(0xBD, "-"));
    }
    if str_eq(t, ".") {
        return Some(VirtualKey::new(0xBE, "."));
    }
    if str_eq(t, "/") {
        return Some(VirtualKey::new(0xBF, "/"));
    }
    if str_eq(t, "`") {
        return Some(VirtualKey::new(0xC0, "`"));
    }
    if str_eq(t, "[") {
        return Some(VirtualKey::new(0xDB, "["));
    }
    if str_eq(t, "\\") {
        return Some(VirtualKey::new(0xDC, "\\"));
    }
    if str_eq(t, "]") {
        return Some(VirtualKey::new(0xDD, "]"));
    }
    if str_eq(t, "'") {
        return Some(VirtualKey::new(0xDE, "'"));
    }
    None
}

} // verus!
