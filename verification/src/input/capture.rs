//! Capturing keyboard input: modifier tracking, typed text and key combinations.
use vstd::prelude::*;
use super::keys::{modifier_names, ModifierState};
use super::keys::vkey::{VK_BACK, VK_ENTER, VK_ESC, VK_INS, VK_SPACE, VK_V};
use crate::text::{
    append_chars, ascii_lower, ascii_upper, char_ascii_lower, char_ascii_upper, join,
    join_strings, lowercase_of, owned, str_eq, string_chars, string_from_chars, to_lowercase,
    to_uppercase, uppercase_of,
};

verus! {

/// Virtual-key codes of the Ctrl keys: left, right and either.
pub open spec fn is_ctrl_key(vk: u16) -> bool {
    vk == 0xA2 || vk == 0xA3 || vk == 0x11
}

/// Virtual-key codes of the Shift keys: left, right and either.
pub open spec fn is_shift_key(vk: u16) -> bool {
    vk == 0xA0 || vk == 0xA1 || vk == 0x10
}

/// Virtual-key codes of the Alt keys: left, right and either.
pub open spec fn is_alt_key(vk: u16) -> bool {
    vk == 0xA4 || vk == 0xA5 || vk == 0x12
}

/// The state after `vk` goes down (`down`) or comes up (not `down`).
pub open spec fn modifier_after(m: ModifierState, vk: u16, down: bool) -> ModifierState {
    if is_ctrl_key(vk) {
        ModifierState { ctrl: down, ..m }
    } else if is_shift_key(vk) {
        ModifierState { shift: down, ..m }
    } else if is_alt_key(vk) {
        ModifierState { alt: down, ..m }
    } else {
        m
    }
}

/// Tracks which modifiers are held as key events arrive.
pub struct ModifierHandler {
    state: ModifierState,
}

impl ModifierHandler {
    /// The tracked state.
    pub closed spec fn current(&self) -> ModifierState {
        self.state
    }

    /// A handler starting from `initial_state`.
    pub fn new(initial_state: ModifierState) -> (r: Self)
        ensures
            r.current() == initial_state,
    {
        Self { state: initial_state }
    }

    /// The current state.
    pub fn state(&self) -> (r: &ModifierState)
        ensures
            *r == self.current(),
    {
        &self.state
    }

    /// A key went down; returns whether it is a Ctrl, Shift or Alt key, which is
    /// then held.
    pub fn handle_key_press(&mut self, vk_code: u16) -> (r: bool)
        ensures
            r == Self::spec_is_modifier(vk_code),
            final(self).current() == modifier_after(old(self).current(), vk_code, true),
    {
        if vk_code == 0xA2 || vk_code == 0xA3 || vk_code == 0x11 {
            self.state.ctrl = true;
            true
        } else if vk_code == 0xA0 || vk_code == 0xA1 || vk_code == 0x10 {
            self.state.shift = true;
            true
        } else if vk_code == 0xA4 || vk_code == 0xA5 || vk_code == 0x12 {
            self.state.alt = true;
            true
        } else {
            false
        }
    }

    /// A key came up; returns whether it is a Ctrl, Shift or Alt key, which is
    /// then released.
    pub fn handle_key_release(&mut self, vk_code: u16) -> (r: bool)
        ensures
            r == Self::spec_is_modifier(vk_code),
            final(self).current() == modifier_after(old(self).current(), vk_code, false),
    {
        if vk_code == 0xA2 || vk_code == 0xA3 || vk_code == 0x11 {
            self.state.ctrl = false;
            true
        } else if vk_code == 0xA0 || vk_code == 0xA1 || vk_code == 0x10 {
            self.state.shift = false;
            true
        } else if vk_code == 0xA4 || vk_code == 0xA5 || vk_code == 0x12 {
            self.state.alt = false;
            true
        } else {
            false
        }
    }

    /// `vk` is a Ctrl, Shift or Alt key.
    pub open spec fn spec_is_modifier(vk: u16) -> bool {
        is_ctrl_key(vk) || is_shift_key(vk) || is_alt_key(vk)
    }

    /// Whether `vk` is a Ctrl, Shift or Alt key.
    pub fn is_modifier(vk: u16) -> (r: bool)
        ensures
            r == Self::spec_is_modifier(vk),
    {
        vk == 0xA4 || vk == 0xA5 || vk == 0x12 || vk == 0xA2 || vk == 0xA3 || vk == 0x11 || vk
            == 0xA0 || vk == 0xA1 || vk == 0x10
    }
}

/// The key combination that pastes: Ctrl+V or Shift+Insert.
pub open spec fn spec_is_paste(vk: u16, m: ModifierState) -> bool {
    (m.ctrl && vk == VK_V) || (m.shift && vk == VK_INS)
}

/// Whether the key with these modifiers asks to paste (Ctrl+V or Shift+Insert).
pub fn is_paste(vk: u16, m: ModifierState) -> (r: bool)
    ensures
        r == spec_is_paste(vk, m),
{
    (m.ctrl && vk == VK_V) || (m.shift && vk == VK_INS)
}

/// The text after one key press. Backspace with Ctrl or Shift clears, Backspace
/// deletes the last character, Space adds a space, Escape does nothing. The paste
/// combination appends the (non-empty) clipboard text, then goes on like any other
/// key. Shift+Enter adds a line break where line breaks are allowed, and Enter does
/// nothing else. Any other key appends the text it types, `typed`.
pub open spec fn text_after_key(
    text: Seq<char>,
    allow_newline: bool,
    vk: u16,
    m: ModifierState,
    clipboard: Option<Seq<char>>,
    typed: Option<Seq<char>>,
) -> Seq<char> {
    if vk == VK_BACK && (m.ctrl || m.shift) {
        Seq::empty()
    } else if vk == VK_BACK {
        if text.len() > 0 {
            text.drop_last()
        } else {
            text
        }
    } else if vk == VK_SPACE {
        text.push(' ')
    } else if vk == VK_ESC {
        text
    } else {
        let pasted = if spec_is_paste(vk, m) {
            match clipboard {
                Some(c) => text + c,
                None => text,
            }
        } else {
            text
        };
        if allow_newline && vk == VK_ENTER && m.shift {
            pasted.push('\n')
        } else if vk == VK_ENTER {
            pasted
        } else {
            match typed {
                Some(t) => pasted + t,
                None => pasted,
            }
        }
    }
}

/// Text typed key by key.
pub struct TextCapture {
    allow_newline: bool,
    text: String,
}

impl TextCapture {
    /// The text captured so far.
    pub closed spec fn content(&self) -> Seq<char> {
        self.text@
    }

    /// Whether Shift+Enter adds a line break.
    pub closed spec fn newline_allowed(&self) -> bool {
        self.allow_newline
    }

    /// A capture starting from `text` (empty when `None`).
    pub fn new(text: Option<String>, allow_newline: bool) -> (r: Self)
        ensures
            r.content() == match text {
                Some(t) => t@,
                None => Seq::empty(),
            },
            r.newline_allowed() == allow_newline,
    {
        let text = match text {
            Some(t) => t,
            None => String::new(),
        };
        Self { text, allow_newline }
    }

    /// The captured text, `None` when it is empty.
    pub fn text(&self) -> (r: Option<String>)
        ensures
            match r {
                Some(t) => t@ == self.content() && self.content().len() > 0,
                None => self.content().len() == 0,
            },
    {
        let chars = string_chars(&self.text);
        if chars.len() == 0 {
            None
        } else {
            Some(self.text.clone())
        }
    }

    /// One key went down. `clipboard` is the clipboard's text, consulted only for
    /// the paste combination (an empty text pastes nothing); `typed` is the text the
    /// key types with the Shift state of `modifiers` alone.
    pub fn on_keydown(
        &mut self,
        vk_code: u16,
        modifiers: ModifierState,
        clipboard: Option<String>,
        typed: Option<String>,
    )
        ensures
            final(self).newline_allowed() == old(self).newline_allowed(),
            final(self).content() == text_after_key(
                old(self).content(),
                old(self).newline_allowed(),
                vk_code,
                modifiers,
                match clipboard {
                    Some(c) => if c@.len() > 0 {
                        Some(c@)
                    } else {
                        None
                    },
                    None => None,
                },
                match typed {
                    Some(t) => Some(t@),
                    None => None,
                },
            ),
    {
        self.append_input(vk_code, modifiers, clipboard, typed);
    }

    /// One key came up; the text does not change.
    pub fn on_keyup(&mut self, _vk_code: u16, _modifiers: ModifierState)
        ensures
            final(self).content() == old(self).content(),
            final(self).newline_allowed() == old(self).newline_allowed(),
    {
    }

    fn append_input(
        &mut self,
        vkey: u16,
        modifiers: ModifierState,
        clipboard: Option<String>,
        typed: Option<String>,
    )
        ensures
            final(self).newline_allowed() == old(self).newline_allowed(),
            final(self).content() == text_after_key(
                old(self).content(),
                old(self).newline_allowed(),
                vkey,
                modifiers,
                match clipboard {
                    Some(c) => if c@.len() > 0 {
                        Some(c@)
                    } else {
                        None
                    },
                    None => None,
                },
                match typed {
                    Some(t) => Some(t@),
                    None => None,
                },
            ),
    {
        let mut chars = string_chars(&self.text);
        if vkey == VK_BACK && (modifiers.ctrl || modifiers.shift) {
            self.text = String::new();
            return ;
        }
        if vkey == VK_BACK {
            if chars.len() > 0 {
                chars.pop();
                self.text = string_from_chars(&chars);
            }
            return ;
        }
        if vkey == VK_SPACE {
            chars.push(' ');
            self.text = string_from_chars(&chars);
            return ;
        }
        if vkey == VK_ESC {
            return ;
        }
        if is_paste(vkey, modifiers) {
            match clipboard {
                Some(c) => {
                    let cc = string_chars(&c);
                    if cc.len() > 0 {
                        append_chars(&mut chars, &cc);
                    }
                },
                None => {},
            }
        }
        if self.allow_newline && vkey == VK_ENTER && modifiers.shift {
            chars.push('\n');
            self.text = string_from_chars(&chars);
            return ;
        }
        if vkey == VK_ENTER {
            self.text = string_from_chars(&chars);
            return ;
        }
        match typed {
            Some(t) => {
                let tc = string_chars(&t);
                append_chars(&mut chars, &tc);
            },
            None => {},
        }
        self.text = string_from_chars(&chars);
    }
}

/// A keyboard key combination (e.g. "Ctrl+K"); the key is absent while only
/// modifiers are held.
#[derive(Debug, Clone, Copy, PartialEq, Eq, Structural)]
pub struct Combination {
    pub modifiers: ModifierState,
    pub key: Option<u16>,
}

/// Records key combinations as they are typed.
pub struct KeyCombinationCapture {
    records: Vec<Combination>,
    has_active_record: bool,
    modifiers: ModifierState,
}

/// The combinations shown for a capture: nothing when nothing was captured;
/// otherwise the last one or two, depending on whether the number of recorded
/// combinations (counting one being typed) is odd or even. A combination being
/// typed shows its modifiers without a key.
pub open spec fn capture_display(records: Seq<Combination>, active: bool, m: ModifierState) -> Seq<
    Combination,
> {
    let pending = Combination { modifiers: m, key: None };
    let total = records.len() + if active { 1int } else { 0int };
    if records.len() == 0 && !active && m == ModifierState::none() {
        Seq::empty()
    } else if total == 0 {
        Seq::empty()
    } else if total % 2 == 1 {
        if active {
            seq![pending]
        } else {
            seq![records.last()]
        }
    } else if !active {
        seq![records[records.len() - 2], records.last()]
    } else if records.len() > 0 {
        seq![records.last(), pending]
    } else {
        seq![pending]
    }
}

impl KeyCombinationCapture {
    /// The combinations recorded so far.
    pub closed spec fn recorded(&self) -> Seq<Combination> {
        self.records@
    }

    /// A combination is being typed (modifiers changed, no key yet).
    pub closed spec fn active(&self) -> bool {
        self.has_active_record
    }

    /// The modifiers currently held.
    pub closed spec fn held(&self) -> ModifierState {
        self.modifiers
    }

    /// An empty capture.
    pub fn new() -> (r: Self)
        ensures
            r.recorded() == Seq::<Combination>::empty(),
            !r.active(),
            r.held() == ModifierState::none(),
    {
        Self { records: Vec::new(), has_active_record: false, modifiers: ModifierState::default() }
    }

    fn activate_record(&mut self)
        ensures
            final(self).active(),
            final(self).recorded() == old(self).recorded(),
            final(self).held() == old(self).held(),
    {
        if !self.has_active_record {
            self.has_active_record = true;
        }
    }

    fn finalize_record(&mut self, vk_code: u16)
        ensures
            !final(self).active(),
            final(self).recorded() == old(self).recorded().push(
                Combination { modifiers: old(self).held(), key: Some(vk_code) },
            ),
            final(self).held() == old(self).held(),
    {
        self.has_active_record = false;
        self.records.push(Combination { modifiers: self.modifiers, key: Some(vk_code) });
    }

    /// A key went down with the given modifiers held. A change of modifiers starts
    /// a combination; otherwise the key completes one, which is recorded.
    pub fn on_keydown(&mut self, vk_code: u16, modifiers: ModifierState)
        ensures
            old(self).held() != modifiers ==> {
                &&& final(self).held() == modifiers
                &&& final(self).active()
                &&& final(self).recorded() == old(self).recorded()
            },
            old(self).held() == modifiers ==> {
                &&& final(self).held() == modifiers
                &&& !final(self).active()
                &&& final(self).recorded() == old(self).recorded().push(
                    Combination { modifiers, key: Some(vk_code) },
                )
            },
    {
        let old_state = self.modifiers;
        let is_modifier = old_state != modifiers;
        if is_modifier {
            self.modifiers = modifiers;
            if !self.has_active_record {
                self.activate_record();
            }
        } else {
            self.finalize_record(vk_code);
        }
    }

    /// A key came up; the held modifiers become `modifiers`.
    pub fn on_keyup(&mut self, _vk_code: u16, modifiers: ModifierState)
        ensures
            final(self).held() == modifiers,
            final(self).active() == old(self).active(),
            final(self).recorded() == old(self).recorded(),
    {
        self.modifiers = modifiers;
    }

    /// Whether anything was recorded, is being typed, or a modifier is held.
    pub fn has_captured_anything(&self) -> (r: bool)
        ensures
            r == !(self.recorded().len() == 0 && !self.active() && self.held()
                == ModifierState::none()),
    {
        !(self.records.len() == 0 && !self.has_active_record && self.modifiers.is_none())
    }

    /// The last one or two combinations to show (see `capture_display`).
    pub fn get_current_capture(&self) -> (r: Vec<Combination>)
        ensures
            r@ == capture_display(self.recorded(), self.active(), self.held()),
    {
        if !self.has_captured_anything() {
            return Vec::new();
        }
        let mut parts: Vec<Combination> = Vec::new();
        let n = self.records.len();
        if n == 0 && !self.has_active_record {
            return parts;
        }
        let odd = if self.has_active_record {
            n % 2 == 0
        } else {
            n % 2 == 1
        };
        if odd {
            if self.has_active_record {
                parts.push(Combination { modifiers: self.modifiers, key: None });
            } else {
                parts.push(self.records[n - 1]);
            }
        } else {
            if !self.has_active_record {
                parts.push(self.records[n - 2]);
                parts.push(self.records[n - 1]);
            } else {
                if n > 0 {
                    parts.push(self.records[n - 1]);
                }
                parts.push(Combination { modifiers: self.modifiers, key: None });
            }
        }
        assert(parts@ =~= capture_display(self.recorded(), self.active(), self.held()));
        parts
    }

    /// The last recorded combination.
    pub fn last_record(&self) -> (r: Option<&Combination>)
        ensures
            match r {
                Some(c) => self.recorded().len() > 0 && *c == self.recorded().last(),
                None => self.recorded().len() == 0,
            },
    {
        if self.records.len() == 0 {
            None
        } else {
            Some(&self.records[self.records.len() - 1])
        }
    }

    /// Drops the last recorded combination, if any.
    pub fn remove_last_record(&mut self)
        ensures
            final(self).recorded() == if old(self).recorded().len() > 0 {
                old(self).recorded().drop_last()
            } else {
                old(self).recorded()
            },
            final(self).active() == old(self).active(),
            final(self).held() == old(self).held(),
    {
        self.records.pop();
    }

    /// Stops the combination being typed, without recording it.
    pub fn deactivate_record(&mut self)
        ensures
            !final(self).active(),
            final(self).recorded() == old(self).recorded(),
            final(self).held() == old(self).held(),
    {
        self.has_active_record = false;
    }
}

/// A separator between keys or combinations when displayed.
#[derive(Debug, Clone, Copy, PartialEq, Eq, Structural)]
pub enum DisplaySeparator {
    Space,
    Plus,
    SpacePlusSpace,
}

/// The text of a separator.
pub open spec fn separator_text(s: DisplaySeparator) -> Seq<char> {
    match s {
        DisplaySeparator::Space => " "@,
        DisplaySeparator::Plus => "+"@,
        DisplaySeparator::SpacePlusSpace => " + "@,
    }
}

impl DisplaySeparator {
    /// " ", "+" or " + ".
    pub fn to_str(&self) -> (r: &'static str)
        ensures
            r@ == separator_text(*self),
    {
        match self {
            DisplaySeparator::Space => " ",
            DisplaySeparator::Plus => "+",
            DisplaySeparator::SpacePlusSpace => " + ",
        }
    }
}

/// Letter case used when displaying key names.
#[derive(Debug, Clone, Copy, PartialEq, Eq, Structural)]
pub enum DisplayCase {
    Upper,
    Lower,
    Title,
}

/// ASCII lower case with the first character in ASCII upper case.
pub open spec fn title_case(s: Seq<char>) -> Seq<char> {
    Seq::new(
        s.len(),
        |i: int|
            if i == 0 {
                ascii_upper(ascii_lower(s[i]))
            } else {
                ascii_lower(s[i])
            },
    )
}

/// The text in the given case.
pub open spec fn case_applied(c: DisplayCase, s: Seq<char>) -> Seq<char> {
    match c {
        DisplayCase::Upper => uppercase_of(s),
        DisplayCase::Lower => lowercase_of(s),
        DisplayCase::Title => title_case(s),
    }
}

impl DisplayCase {
    /// The text in this case.
    pub fn apply(&self, s: String) -> (r: String)
        ensures
            r@ == case_applied(*self, s@),
    {
        match self {
            DisplayCase::Upper => to_uppercase(s.as_str()),
            DisplayCase::Lower => to_lowercase(s.as_str()),
            DisplayCase::Title => {
                let chars = string_chars(&s);
                let mut out: Vec<char> = Vec::new();
                let mut i: usize = 0;
                while i < chars.len()
                    invariant
                        i <= chars@.len(),
                        out@.len() == i,
                        forall|k: int| 0 <= k < i ==> #[trigger] out@[k] == title_case(chars@)[k],
                    decreases chars.len() - i,
                {
                    let low = char_ascii_lower(chars[i]);
                    if i == 0 {
                        out.push(char_ascii_upper(low));
                    } else {
                        out.push(low);
                    }
                    i = i + 1;
                }
                assert(out@ =~= title_case(chars@));
                string_from_chars(&out)
            },
        }
    }
}

/// How key combinations are displayed.
#[derive(Debug, Clone, Copy, PartialEq, Eq, Structural)]
pub struct DisplayFormat {
    pub key_separator: DisplaySeparator,
    pub combination_separator: DisplaySeparator,
    pub display_case: DisplayCase,
}

/// The display formats offered.
#[derive(Debug, Clone, Copy, PartialEq, Eq, Structural)]
pub enum DisplayFormats {
    /// Keys joined with "+", combinations with " ".
    Standard,
    /// Keys joined with " ", combinations with "+".
    Inverse,
    /// Keys joined with " ", combinations with " + ".
    InverseSpaced,
}

/// The format of each offered display format; all use title case.
pub open spec fn format_of(f: DisplayFormats) -> DisplayFormat {
    match f {
        DisplayFormats::Standard => DisplayFormat {
            key_separator: DisplaySeparator::Plus,
            combination_separator: DisplaySeparator::Space,
            display_case: DisplayCase::Title,
        },
        DisplayFormats::Inverse => DisplayFormat {
            key_separator: DisplaySeparator::Space,
            combination_separator: DisplaySeparator::Plus,
            display_case: DisplayCase::Title,
        },
        DisplayFormats::InverseSpaced => DisplayFormat {
            key_separator: DisplaySeparator::Space,
            combination_separator: DisplaySeparator::SpacePlusSpace,
            display_case: DisplayCase::Title,
        },
    }
}

impl DisplayFormats {
    /// The format this choice stands for.
    pub fn get_format(&self) -> (r: DisplayFormat)
        ensures
            r == format_of(*self),
    {
        match self {
            DisplayFormats::Standard => DisplayFormat {
                key_separator: DisplaySeparator::Plus,
                combination_separator: DisplaySeparator::Space,
                display_case: DisplayCase::Title,
            },
            DisplayFormats::Inverse => DisplayFormat {
                key_separator: DisplaySeparator::Space,
                combination_separator: DisplaySeparator::Plus,
                display_case: DisplayCase::Title,
            },
            DisplayFormats::InverseSpaced => DisplayFormat {
                key_separator: DisplaySeparator::Space,
                combination_separator: DisplaySeparator::SpacePlusSpace,
                display_case: DisplayCase::Title,
            },
        }
    }
}

/// The names under which keys are displayed: what the keyboard layout calls each
/// key code.
#[derive(Debug, Clone, PartialEq, Eq)]
pub struct KeyNames {
    pub entries: Vec<(u16, String)>,
}

/// The name of the first entry for `vk`, if any.
pub open spec fn name_of(entries: Seq<(u16, String)>, vk: u16) -> Option<Seq<char>>
    decreases entries.len(),
{
    if entries.len() == 0 {
        None
    } else if entries[0].0 == vk {
        Some(entries[0].1@)
    } else {
        name_of(entries.skip(1), vk)
    }
}

impl KeyNames {
    /// The name of key `vk`.
    pub fn name(&self, vk: u16) -> (r: Option<String>)
        ensures
            match r {
                Some(s) => name_of(self.entries@, vk) == Some(s@),
                None => name_of(self.entries@, vk) is None,
            },
    {
        let mut i: usize = 0;
        assert(self.entries@.skip(0) =~= self.entries@);
        while i < self.entries.len()
            invariant
                i <= self.entries@.len(),
                name_of(self.entries@.skip(i as int), vk) == name_of(self.entries@, vk),
            decreases self.entries.len() - i,
        {
            assert(self.entries@.skip(i as int).skip(1) =~= self.entries@.skip(i + 1));
            if self.entries[i].0 == vk {
                return Some(self.entries[i].1.clone());
            }
            i = i + 1;
        }
        None
    }
}

/// The parts displayed for a combination: its modifiers' names, then the key's name
/// ("'+'" for the plus key), before case is applied.
pub open spec fn combination_parts(c: Combination, names: Seq<(u16, String)>) -> Seq<Seq<char>> {
    (if c.modifiers != ModifierState::none() {
        modifier_names(c.modifiers)
    } else {
        Seq::empty()
    }) + match c.key {
        Some(k) => match name_of(names, k) {
            Some(n) => if n == "+"@ {
                seq!["'+'"@]
            } else {
                seq![n]
            },
            None => Seq::empty(),
        },
        None => Seq::empty(),
    }
}

/// How a combination is displayed in a format.
pub open spec fn combination_text(c: Combination, f: DisplayFormat, names: Seq<(u16, String)>) -> Seq<
    char,
> {
    join(
        combination_parts(c, names).map_values(|p: Seq<char>| case_applied(f.display_case, p)),
        separator_text(f.key_separator),
    )
}

/// How a sequence of combinations is displayed in a format: "(empty)" when there is
/// none.
pub open spec fn combinations_text(cs: Seq<Combination>, f: DisplayFormat, names: Seq<(u16, String)>) -> Seq<
    char,
> {
    if cs.len() == 0 {
        "(empty)"@
    } else {
        join(
            cs.map_values(|c: Combination| combination_text(c, f, names)),
            separator_text(f.combination_separator),
        )
    }
}

/// Things that can be displayed in a display format.
pub trait DisplayFormatable {
    /// The displayed text, with key names from `names`.
    fn display_format(&self, fmt: &DisplayFormat, names: &KeyNames) -> String;
}

/// The displayed text of one combination.
pub fn combination_display(c: &Combination, fmt: &DisplayFormat, names: &KeyNames) -> (r: String)
    ensures
        r@ == combination_text(*c, *fmt, names.entries@),
{
    let mut parts: Vec<String> = Vec::new();
    if !c.modifiers.is_none() {
        let ds = c.modifiers.display_state();
        let mut i: usize = 0;
        while i < ds.len()
            invariant
                i <= ds@.len(),
                ds@.len() == modifier_names(c.modifiers).len(),
                forall|k: int| 0 <= k < ds@.len() ==> #[trigger] ds@[k]@ == modifier_names(c.modifiers)[k],
                parts@.len() == i,
                forall|k: int| 0 <= k < i ==> #[trigger] parts@[k]@ == modifier_names(c.modifiers)[k],
            decreases ds.len() - i,
        {
            parts.push(owned(ds[i]));
            i = i + 1;
        }
    }
    let ghost mods = parts@.map_values(|p: String| p@);
    assert(mods =~= if c.modifiers != ModifierState::none() {
        modifier_names(c.modifiers)
    } else {
        Seq::empty()
    });
    match c.key {
        Some(key) => {
            match names.name(key) {
                Some(ch) => {
                    if str_eq(ch.as_str(), "+") {
                        parts.push(owned("'+'"));
                    } else {
                        parts.push(ch);
                    }
                },
                None => {},
            }
        },
        None => {},
    }
    let ghost raw = parts@.map_values(|p: String| p@);
    assert(raw =~= combination_parts(*c, names.entries@));
    let mut cased: Vec<String> = Vec::new();
    let mut j: usize = 0;
    while j < parts.len()
        invariant
            j <= parts@.len(),
            raw == parts@.map_values(|p: String| p@),
            cased@.len() == j,
            forall|k: int|
                0 <= k < j ==> #[trigger] cased@[k]@ == case_applied(fmt.display_case, raw[k]),
        decreases parts.len() - j,
    {
        let p = parts[j].clone();
        cased.push(fmt.display_case.apply(p));
        j = j + 1;
    }
    assert(cased@.map_values(|p: String| p@) =~= raw.map_values(
        |p: Seq<char>| case_applied(fmt.display_case, p),
    ));
    join_strings(&cased, fmt.key_separator.to_str())
}

impl DisplayFormatable for Combination {
    fn display_format(&self, fmt: &DisplayFormat, names: &KeyNames) -> (r: String)
        ensures
            r@ == combination_text(*self, *fmt, names.entries@),
    {
        combination_display(self, fmt, names)
    }
}

/// The displayed text of a sequence of combinations.
pub fn combinations_display(cs: &Vec<Combination>, fmt: &DisplayFormat, names: &KeyNames) -> (r:
    String)
    ensures
        r@ == combinations_text(cs@, *fmt, names.entries@),
{
    if cs.len() == 0 {
        return owned("(empty)");
    }
    let mut parts: Vec<String> = Vec::new();
    let mut i: usize = 0;
    while i < cs.len()
        invariant
            i <= cs@.len(),
            parts@.len() == i,
            forall|k: int|
                0 <= k < i ==> #[trigger] parts@[k]@ == combination_text(cs@[k], *fmt, names.entries@),
        decreases cs.len() - i,
    {
        parts.push(combination_display(&cs[i], fmt, names));
        i = i + 1;
    }
    assert(parts@.map_values(|p: String| p@) =~= cs@.map_values(
        |c: Combination| combination_text(c, *fmt, names.entries@),
    ));
    join_strings(&parts, fmt.combination_separator.to_str())
}

impl DisplayFormatable for Vec<Combination> {
    fn display_format(&self, fmt: &DisplayFormat, names: &KeyNames) -> (r: String)
        ensures
            r@ == combinations_text(self@, *fmt, names.entries@),
    {
        combinations_display(self, fmt, names)
    }
}


/// With an even number of combinations recorded and none being typed, the capture
/// shows the last two, in the order they were typed: both halves of a chord such
/// as Ctrl K, Ctrl B. With an odd number and none being typed, it shows the last
/// one alone.
pub proof fn law_capture_shows_the_last_chord(records: Seq<Combination>, m: ModifierState)
    requires
        records.len() >= 1,
    ensures
        records.len() % 2 == 0 ==> capture_display(records, false, m).len() == 2
            && capture_display(records, false, m)[0] == records[records.len() - 2]
            && capture_display(records, false, m)[1] == records[records.len() - 1],
        records.len() % 2 == 1 ==> capture_display(records, false, m).len() == 1
            && capture_display(records, false, m)[0] == records[records.len() - 1],
{
}

/// While a combination is being typed, the capture ends with it: its modifiers,
/// no key yet.
pub proof fn law_capture_ends_with_the_combination_being_typed(records: Seq<Combination>, m: ModifierState)
    ensures
        capture_display(records, true, m).len() >= 1,
        capture_display(records, true, m).last() == (Combination { modifiers: m, key: None }),
        records.len() % 2 == 1 ==> capture_display(records, true, m).len() == 2
            && capture_display(records, true, m)[0] == records[records.len() - 1],
{
}

/// Combinations are shown one after another with the format's combination
/// separator between them (" + " in the inverse spaced format: "Ctrl K + Ctrl B"),
/// each as the format shows one combination; a single combination is shown alone.
pub proof fn law_combinations_are_joined_by_the_combination_separator(
    cs: Seq<Combination>,
    c: Combination,
    f: DisplayFormat,
    names: Seq<(u16, String)>,
)
    ensures
        combinations_text(seq![c], f, names) == combination_text(c, f, names),
        cs.len() > 0 ==> combinations_text(cs.push(c), f, names) == combinations_text(cs, f, names)
            + separator_text(f.combination_separator) + combination_text(c, f, names),
        separator_text(format_of(DisplayFormats::InverseSpaced).combination_separator) == " + "@,
        separator_text(format_of(DisplayFormats::InverseSpaced).key_separator) == " "@,
{
    let g = |x: Combination| combination_text(x, f, names);
    assert(seq![c].map_values(g) =~= seq![g(c)]);
    if cs.len() > 0 {
        let all = cs.push(c).map_values(g);
        assert(all.drop_last() =~= cs.map_values(g));
        assert(all.last() == g(c));
        assert(all.len() >= 2);
    }
}

/// Backspace without Ctrl or Shift deletes the last character and keeps the rest;
/// with Ctrl or Shift it clears the text. Space adds a space at the end, Escape
/// leaves the text as it is, and a key that types text (and is none of these, nor
/// Enter nor the paste combination) adds what it types at the end.
pub proof fn law_text_keys_edit_at_the_end(
    text: Seq<char>,
    allow_newline: bool,
    m: ModifierState,
    clipboard: Option<Seq<char>>,
    typed: Option<Seq<char>>,
    vk: u16,
)
    ensures
        text.len() > 0 && !m.ctrl && !m.shift ==> ({
            let r = text_after_key(text, allow_newline, VK_BACK, m, clipboard, typed);
            r.len() + 1 == text.len() && r.push(text.last()) == text
        }),
        (m.ctrl || m.shift) ==> text_after_key(text, allow_newline, VK_BACK, m, clipboard, typed).len() == 0,
        ({
            let r = text_after_key(text, allow_newline, VK_SPACE, m, clipboard, typed);
            r.len() == text.len() + 1 && r.drop_last() == text && r.last() == ' '
        }),
        text_after_key(text, allow_newline, VK_ESC, m, clipboard, typed) == text,
        (vk != VK_BACK && vk != VK_SPACE && vk != VK_ESC && vk != VK_ENTER && !spec_is_paste(vk, m)
            && typed is Some) ==> ({
            let r = text_after_key(text, allow_newline, vk, m, clipboard, typed);
            r.len() == text.len() + typed->0.len() && r.subrange(0, text.len() as int) == text
                && r.subrange(text.len() as int, r.len() as int) == typed->0
        }),
{
    if text.len() > 0 {
        assert(text.drop_last().push(text.last()) =~= text);
    }
    assert(text.push(' ').drop_last() =~= text);
    if typed is Some {
        let t = typed->0;
        assert((text + t).subrange(0, text.len() as int) =~= text);
        assert((text + t).subrange(text.len() as int, (text + t).len() as int) =~= t);
    }
}


/// Enter adds a line break at the end with Shift held where line breaks are
/// allowed, and otherwise leaves the text as it is; the paste combination adds the
/// clipboard's text at the end.
pub proof fn law_enter_and_paste_edit_at_the_end(
    text: Seq<char>,
    allow_newline: bool,
    m: ModifierState,
    clipboard: Option<Seq<char>>,
    typed: Option<Seq<char>>,
)
    ensures
        allow_newline && m.shift ==> ({
            let r = text_after_key(text, allow_newline, VK_ENTER, m, clipboard, typed);
            r.len() == text.len() + 1 && r.drop_last() == text && r.last() == '\n'
        }),
        !(allow_newline && m.shift) && !spec_is_paste(VK_ENTER, m) ==> text_after_key(
            text,
            allow_newline,
            VK_ENTER,
            m,
            clipboard,
            typed,
        ) == text,
        m.ctrl && clipboard is Some && typed is None ==> ({
            let c = clipboard->0;
            let r = text_after_key(text, allow_newline, VK_V, m, clipboard, typed);
            r.len() == text.len() + c.len() && r.subrange(0, text.len() as int) == text
                && r.subrange(text.len() as int, r.len() as int) == c
        }),
{
    assert(text.push('\n').drop_last() =~= text);
    if clipboard is Some {
        let c = clipboard->0;
        assert((text + c).subrange(0, text.len() as int) =~= text);
        assert((text + c).subrange(text.len() as int, (text + c).len() as int) =~= c);
    }
}

} // verus!
