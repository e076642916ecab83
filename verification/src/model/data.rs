//! The model that boards are drawn from: the nine pads of the numeric keypad,
//! where text is pinned in a pad, colors, and the fonts of text styles.
use vstd::prelude::*;
use vstd::utf8::{encode_utf8, is_ascii_chars, is_continuation_byte};
use crate::domain::data::{ColorScheme, ColorSchemeV, TextStyle};
use crate::domain::integration::{all_digits, digits_value, lemma_digits_nonneg, parse_u64, parse_u64_spec};
use crate::text::{
    ascii_lower, char_from_ascii, chars_of, concat, is_white, is_whitespace, join, join_strings,
    lowercase_of, owned, str_eq, string_chars, string_from_chars, to_lowercase,
};

verus! {

/// A pad of the 3x3 keypad board, numbered as on the numeric keypad.
#[derive(Debug, Clone, Copy, PartialEq, Eq, Structural, Hash)]
pub enum PadId {
    One,
    Two,
    Three,
    Four,
    Five,
    Six,
    Seven,
    Eight,
    Nine,
}

impl PadId {
    /// The keypad number of the pad, 1 to 9.
    pub open spec fn num(self) -> int {
        match self {
            PadId::One => 1,
            PadId::Two => 2,
            PadId::Three => 3,
            PadId::Four => 4,
            PadId::Five => 5,
            PadId::Six => 6,
            PadId::Seven => 7,
            PadId::Eight => 8,
            PadId::Nine => 9,
        }
    }

    /// The pad of a keypad number from 1 to 9.
    pub open spec fn of_num(n: int) -> PadId {
        if n <= 1 {
            PadId::One
        } else if n == 2 {
            PadId::Two
        } else if n == 3 {
            PadId::Three
        } else if n == 4 {
            PadId::Four
        } else if n == 5 {
            PadId::Five
        } else if n == 6 {
            PadId::Six
        } else if n == 7 {
            PadId::Seven
        } else if n == 8 {
            PadId::Eight
        } else {
            PadId::Nine
        }
    }

    /// All pads, by keypad number.
    pub open spec fn all_spec() -> Seq<PadId> {
        seq![
            PadId::One,
            PadId::Two,
            PadId::Three,
            PadId::Four,
            PadId::Five,
            PadId::Six,
            PadId::Seven,
            PadId::Eight,
            PadId::Nine,
        ]
    }

    /// The digit that names the pad.
    pub open spec fn digit(self) -> char {
        match self {
            PadId::One => '1',
            PadId::Two => '2',
            PadId::Three => '3',
            PadId::Four => '4',
            PadId::Five => '5',
            PadId::Six => '6',
            PadId::Seven => '7',
            PadId::Eight => '8',
            PadId::Nine => '9',
        }
    }

    /// The pad of a keypad number; other numbers are not pads.
    pub fn from_keypad_int(value: i32) -> (r: Self)
        requires
            1 <= value <= 9,
        ensures
            r.num() == value,
            r == PadId::of_num(value as int),
    {
        match value {
            1 => PadId::One,
            2 => PadId::Two,
            3 => PadId::Three,
            4 => PadId::Four,
            5 => PadId::Five,
            6 => PadId::Six,
            7 => PadId::Seven,
            8 => PadId::Eight,
            _ => PadId::Nine,
        }
    }

    /// The keypad number of the pad.
    pub fn as_keypad_int(&self) -> (r: i32)
        ensures
            r == self.num(),
    {
        match self {
            PadId::One => 1,
            PadId::Two => 2,
            PadId::Three => 3,
            PadId::Four => 4,
            PadId::Five => 5,
            PadId::Six => 6,
            PadId::Seven => 7,
            PadId::Eight => 8,
            PadId::Nine => 9,
        }
    }

    /// The row of the pad, counted from the top: 0 to 2.
    pub fn row(&self) -> (r: i32)
        ensures
            r == (self.num() - 1) / 3,
    {
        (self.as_keypad_int() - 1) / 3
    }

    /// The column of the pad, counted from the left: 0 to 2.
    pub fn col(&self) -> (r: i32)
        ensures
            r == (self.num() - 1) % 3,
    {
        (self.as_keypad_int() - 1) % 3
    }

    /// The pads from one up to this one.
    pub fn up_to(&self) -> (r: Vec<PadId>)
        ensures
            r@ == PadId::all_spec().take(self.num()),
    {
        let all = PadId::all();
        let n = self.as_keypad_int();
        let mut out: Vec<PadId> = Vec::new();
        let mut i: usize = 0;
        while i < n as usize
            invariant
                0 <= i <= n <= 9,
                n == self.num(),
                all@ == PadId::all_spec(),
                out@ == PadId::all_spec().take(i as int),
            decreases n - i,
        {
            out.push(all[i]);
            i = i + 1;
            assert(out@ =~= PadId::all_spec().take(i as int));
        }
        out
    }

    /// All pads, by keypad number.
    pub fn all() -> (r: Vec<PadId>)
        ensures
            r@ == PadId::all_spec(),
    {
        let r = vec![
            PadId::One,
            PadId::Two,
            PadId::Three,
            PadId::Four,
            PadId::Five,
            PadId::Six,
            PadId::Seven,
            PadId::Eight,
            PadId::Nine,
        ];
        assert(r@ =~= PadId::all_spec());
        r
    }

    /// The keypad number of the pad as text.
    pub fn to_string(&self) -> (r: String)
        ensures
            r@ == seq![self.digit()],
    {
        let c = match self {
            PadId::One => '1',
            PadId::Two => '2',
            PadId::Three => '3',
            PadId::Four => '4',
            PadId::Five => '5',
            PadId::Six => '6',
            PadId::Seven => '7',
            PadId::Eight => '8',
            PadId::Nine => '9',
        };
        let v = vec![c];
        assert(v@ =~= seq![self.digit()]);
        string_from_chars(&v)
    }
}

/// The keypad number names each pad once: the pad of a pad's number is that pad,
/// and the numbers run from 1 to 9.
pub proof fn law_keypad_number_roundtrip(p: PadId)
    ensures
        PadId::of_num(p.num()) == p,
        1 <= p.num() <= 9,
        PadId::of_num(p.num()).num() == p.num(),
{
}

/// A pad's row and column place it on the keypad grid: both are from 0 to 2, and
/// `3 * row + col + 1` is its number.
pub proof fn law_row_col_place(p: PadId)
    ensures
        0 <= (p.num() - 1) / 3 < 3,
        0 <= (p.num() - 1) % 3 < 3,
        3 * ((p.num() - 1) / 3) + (p.num() - 1) % 3 + 1 == p.num(),
{
}

/// `DrawText` flag: align text to the left.
pub const DT_LEFT: u32 = 0;
/// `DrawText` flag: center text horizontally.
pub const DT_CENTER: u32 = 1;
/// `DrawText` flag: align text to the right.
pub const DT_RIGHT: u32 = 2;

/// The point of a text that is pinned to its anchor.
#[derive(Debug, Clone, Copy, PartialEq, Eq, Structural)]
pub enum AnchorPin {
    NW,
    N,
    NE,
    W,
    C,
    E,
    SW,
    S,
    SE,
}

impl AnchorPin {
    /// The horizontal alignment of text pinned at this point.
    pub open spec fn dt_flags_spec(self) -> u32 {
        match self {
            AnchorPin::W | AnchorPin::NW | AnchorPin::SW => DT_LEFT,
            AnchorPin::C | AnchorPin::N | AnchorPin::S => DT_CENTER,
            AnchorPin::E | AnchorPin::NE | AnchorPin::SE => DT_RIGHT,
        }
    }

    /// The `DrawText` alignment flag of the pin: left for the west side, centered
    /// for the middle column, right for the east side.
    pub fn to_dt_flags(self) -> (r: u32)
        ensures
            r == self.dt_flags_spec(),
    {
        match self {
            AnchorPin::W | AnchorPin::NW | AnchorPin::SW => DT_LEFT,
            AnchorPin::C | AnchorPin::N | AnchorPin::S => DT_CENTER,
            AnchorPin::E | AnchorPin::NE | AnchorPin::SE => DT_RIGHT,
        }
    }
}

/// An RGB color.
#[derive(Debug, Clone, Copy, PartialEq, Eq, Structural)]
pub struct Color {
    pub r: u8,
    pub g: u8,
    pub b: u8,
}

/// An ASCII hexadecimal digit, in either case.
pub open spec fn is_hex_digit(c: u8) -> bool {
    (0x30 <= c <= 0x39) || (0x61 <= c <= 0x66) || (0x41 <= c <= 0x46)
}

/// The value of a hexadecimal digit.
pub open spec fn hex_digit_value(c: u8) -> int {
    if c <= 0x39 {
        c - 0x30
    } else if c >= 0x61 {
        c - 0x61 + 10
    } else {
        c - 0x41 + 10
    }
}

/// What `u8::from_str_radix(.., 16)` gives for two bytes, or 0 where it fails: an
/// optional `+` and a digit, or two digits.
pub open spec fn pair_value(x: u8, y: u8) -> u8 {
    if x == 0x2b {
        if is_hex_digit(y) {
            hex_digit_value(y) as u8
        } else {
            0
        }
    } else if is_hex_digit(x) && is_hex_digit(y) {
        (16 * hex_digit_value(x) + hex_digit_value(y)) as u8
    } else {
        0
    }
}

/// The bytes of a hex color after a leading `0x` and then a leading `#` are
/// dropped.
pub open spec fn hex_body(b: Seq<u8>) -> Seq<u8> {
    let b1 = if b.len() >= 2 && b[0] == 0x30 && b[1] == 0x78 {
        b.skip(2)
    } else {
        b
    };
    if b1.len() >= 1 && b1[0] == 0x23 {
        b1.skip(1)
    } else {
        b1
    }
}

/// The bytes of the lower-cased hex text, without its prefixes.
pub open spec fn hex_bytes(hex: Seq<char>) -> Seq<u8> {
    hex_body(encode_utf8(lowercase_of(hex)))
}

/// The color that six bytes of hex digits give; other lengths give none.
pub open spec fn color_from_bytes(b: Seq<u8>) -> Option<Color> {
    if b.len() == 6 {
        Some(Color { r: pair_value(b[0], b[1]), g: pair_value(b[2], b[3]), b: pair_value(b[4], b[5]) })
    } else {
        None
    }
}

/// The color of a hex text such as `#ff8000`.
pub open spec fn hex_color(hex: Seq<char>) -> Option<Color> {
    color_from_bytes(hex_bytes(hex))
}

/// The text can be cut into its three two-byte parts: it is ASCII, or its six
/// bytes do not split a character at the cuts.
pub open spec fn hex_cuttable(hex: Seq<char>) -> bool {
    is_ascii_chars(hex) || (hex_bytes(hex).len() == 6 ==> !is_continuation_byte(hex_bytes(hex)[2])
        && !is_continuation_byte(hex_bytes(hex)[4]))
}

/// The lower case hexadecimal digit of a value below 16.
pub open spec fn hex_char(d: int) -> char {
    if d < 10 {
        (('0' as int) + d) as char
    } else {
        (('a' as int) + d - 10) as char
    }
}

/// Two lower case hexadecimal digits of a byte.
pub open spec fn hex2(v: u8) -> Seq<char> {
    seq![hex_char((v / 16) as int), hex_char((v % 16) as int)]
}

/// The hex text of a color: `#` and two digits for each of red, green, blue.
pub open spec fn hex_text(c: Color) -> Seq<char> {
    seq!['#'] + hex2(c.r) + hex2(c.g) + hex2(c.b)
}

/// The COLORREF value of a color: blue in the third byte, green in the second, red
/// in the lowest.
pub open spec fn colorref_of(c: Color) -> u32 {
    (c.b * 65536 + c.g * 256 + c.r) as u32
}

/// The color of a COLORREF value.
pub open spec fn color_of_ref(v: u32) -> Color {
    Color { r: (v % 256) as u8, g: ((v / 256) % 256) as u8, b: ((v / 65536) % 256) as u8 }
}

/// The color with each component subtracted from 255.
pub open spec fn inverted_spec(c: Color) -> Color {
    Color { r: (255 - c.r) as u8, g: (255 - c.g) as u8, b: (255 - c.b) as u8 }
}

/// The value of a hexadecimal digit byte.
fn digit_of(c: u8) -> (r: u8)
    requires
        is_hex_digit(c),
    ensures
        r == hex_digit_value(c),
{
    if c <= 0x39 {
        c - 0x30
    } else if c >= 0x61 {
        c - 0x61 + 10
    } else {
        c - 0x41 + 10
    }
}

/// What `u8::from_str_radix(.., 16)` gives for two bytes, 0 where it fails.
fn parse_pair(x: u8, y: u8) -> (r: u8)
    ensures
        r == pair_value(x, y),
{
    if x == 0x2b {
        if is_hex_byte(y) {
            digit_of(y)
        } else {
            0
        }
    } else if is_hex_byte(x) && is_hex_byte(y) {
        digit_of(x) * 16 + digit_of(y)
    } else {
        0
    }
}

/// Whether a byte is an ASCII hexadecimal digit.
fn is_hex_byte(c: u8) -> (r: bool)
    ensures
        r == is_hex_digit(c),
{
    (0x30 <= c && c <= 0x39) || (0x61 <= c && c <= 0x66) || (0x41 <= c && c <= 0x46)
}

/// Where the body of a hex text starts, after its prefixes.
fn body_start(b: &[u8]) -> (r: usize)
    ensures
        r <= b@.len(),
        b@.skip(r as int) == hex_body(b@),
{
    let mut s: usize = 0;
    if b.len() >= 2 && b[0] == 0x30 && b[1] == 0x78 {
        s = 2;
    }
    let ghost b1 = if b@.len() >= 2 && b@[0] == 0x30 && b@[1] == 0x78 { b@.skip(2) } else { b@ };
    assert(b1 =~= b@.skip(s as int));
    if b.len() >= s + 1 && b[s] == 0x23 {
        s = s + 1;
        assert(b1.skip(1) =~= b@.skip(s as int));
    }
    s
}

/// The lower-cased text of ASCII characters is ASCII.
proof fn lemma_lower_ascii(s: Seq<char>)
    requires
        is_ascii_chars(s),
    ensures
        is_ascii_chars(s.map_values(|c: char| ascii_lower(c))),
{
    let m = s.map_values(|c: char| ascii_lower(c));
    assert forall|i: int| 0 <= i < m.len() implies '\0' <= #[trigger] m[i] <= '\u{7f}' by {
        assert('\0' <= s[i] <= '\u{7f}');
    }
}

impl Color {
    /// The color of a hex text such as `#FF8000`, `0xff8000` or `ff8000`, case
    /// ignored; none unless six bytes remain after the prefixes. A pair that is not
    /// a hexadecimal number gives 0.
    pub fn from_hex(hex: &str) -> (r: Option<Color>)
        requires
            hex_cuttable(hex@),
        ensures
            r == hex_color(hex@),
            is_ascii_chars(hex@) ==> r == color_from_bytes(
                hex_body(encode_utf8(hex@.map_values(|c: char| ascii_lower(c)))),
            ),
    {
        let low = to_lowercase(hex);
        let b = low.as_str().as_bytes();
        let s = body_start(b);
        proof {
            if is_ascii_chars(hex@) {
                lemma_lower_ascii(hex@);
                vstd::utf8::is_ascii_chars_encode_utf8(low@);
            }
        }
        if b.len() - s != 6 {
            return None;
        }
        let ghost body = b@.skip(s as int);
        assert(body[0] == b@[s as int] && body[1] == b@[s + 1] && body[2] == b@[s + 2]);
        assert(body[3] == b@[s + 3] && body[4] == b@[s + 4] && body[5] == b@[s + 5]);
        Some(Color { r: parse_pair(b[s], b[s + 1]), g: parse_pair(b[s + 2], b[s + 3]), b: parse_pair(b[s + 4], b[s + 5]) })
    }

    /// Whether the hex text can be read without cutting a character apart.
    pub fn hex_is_cuttable(hex: &str) -> (r: bool)
        ensures
            r == hex_cuttable(hex@),
    {
        if hex.is_ascii() {
            return true;
        }
        let low = to_lowercase(hex);
        let b = low.as_str().as_bytes();
        let s = body_start(b);
        if b.len() - s != 6 {
            return true;
        }
        let ghost body = b@.skip(s as int);
        assert(body[2] == b@[s + 2] && body[4] == b@[s + 4]);
        !(0x80 <= b[s + 2] && b[s + 2] <= 0xbf) && !(0x80 <= b[s + 4] && b[s + 4] <= 0xbf)
    }

    /// The color of a hex text, or `None` where the text cannot be cut into its
    /// parts (where reading it fails outright); else as `from_hex`.
    pub fn try_from_hex(hex: &str) -> (r: Option<Option<Color>>)
        ensures
            match r {
                Some(c) => hex_cuttable(hex@) && c == hex_color(hex@),
                None => !hex_cuttable(hex@),
            },
    {
        if Color::hex_is_cuttable(hex) {
            Some(Color::from_hex(hex))
        } else {
            None
        }
    }

    /// The color of the first hex text, or else of the second.
    pub fn from_hex_or(hex: &str, optb: &str) -> (r: Option<Color>)
        requires
            hex_cuttable(hex@),
            hex_cuttable(optb@),
        ensures
            r == match hex_color(hex@) {
                Some(c) => Some(c),
                None => hex_color(optb@),
            },
    {
        let first = Color::from_hex(hex);
        let second = Color::from_hex(optb);
        match first {
            Some(c) => Some(c),
            None => second,
        }
    }

    /// The hex text of the color, in lower case: `#rrggbb`.
    pub fn to_hex(&self) -> (r: String)
        ensures
            r@ == hex_text(*self),
    {
        let mut v: Vec<char> = Vec::new();
        v.push('#');
        push_hex2(&mut v, self.r);
        push_hex2(&mut v, self.g);
        push_hex2(&mut v, self.b);
        assert(v@ =~= hex_text(*self));
        string_from_chars(&v)
    }

    /// The red, green and blue components.
    pub fn to_rgb(&self) -> (r: (u8, u8, u8))
        ensures
            r == (self.r, self.g, self.b),
    {
        (self.r, self.g, self.b)
    }

    /// The COLORREF value of the color.
    pub fn to_colorref(self) -> (r: u32)
        ensures
            r == colorref_of(self),
    {
        (self.b as u32) * 65536 + (self.g as u32) * 256 + (self.r as u32)
    }

    /// The color of a COLORREF value; its highest byte is ignored.
    pub fn from_colorref(color: u32) -> (r: Color)
        ensures
            r == color_of_ref(color),
    {
        let r = (color & 0xff) as u8;
        let g = ((color & 0xff00) >> 8) as u8;
        let b = ((color & 0xff0000) >> 16) as u8;
        assert(r == (color % 256) as u8 && g == ((color / 256) % 256) as u8 && b == ((color / 65536)
            % 256) as u8) by (bit_vector)
            requires
                r == (color & 0xff) as u8,
                g == ((color & 0xff00) >> 8) as u8,
                b == ((color & 0xff0000) >> 16) as u8,
        ;
        Color { r, g, b }
    }

    /// The color with each component subtracted from 255.
    pub fn inverted(self) -> (r: Color)
        ensures
            r == inverted_spec(self),
    {
        Color { r: 255 - self.r, g: 255 - self.g, b: 255 - self.b }
    }
}

/// Appends the two lower case hexadecimal digits of `v`.
fn push_hex2(out: &mut Vec<char>, v: u8)
    ensures
        final(out)@ == old(out)@ + hex2(v),
{
    let hi = hex_digit_char(v / 16);
    let lo = hex_digit_char(v % 16);
    out.push(hi);
    out.push(lo);
    assert(final(out)@ =~= old(out)@ + hex2(v));
}

/// The lower case hexadecimal digit of a value below 16.
pub fn hex_digit_char(d: u8) -> (r: char)
    requires
        d < 16,
    ensures
        r == hex_char(d as int),
{
    if d < 10 {
        char_from_ascii(48 + d as u32)
    } else {
        char_from_ascii(97 + (d as u32) - 10)
    }
}


/// The color of a hex text, or `d` where it gives none.
pub open spec fn color_or(value: Seq<char>, d: Color) -> Color {
    match hex_color(value) {
        Some(c) => c,
        None => d,
    }
}

/// The color of a hex text, or the color `dc` whose hex text `default` is.
fn color_or_known(value: &str, default: &str, Ghost(dc): Ghost<Color>) -> (r: Color)
    requires
        hex_cuttable(value@),
        default@ == hex_text(dc),
    ensures
        r == color_or(value@, dc),
{
    proof {
        law_hex_roundtrip(dc);
    }
    let a = Color::from_hex(value);
    let b = Color::from_hex(default);
    match a {
        Some(c) => c,
        None => b.unwrap(),
    }
}

/// The background of a scheme whose background color does not read.
pub open spec fn fallback_background() -> Color {
    Color { r: 0x00, g: 0x00, b: 0x7f }
}

/// The first foreground of a scheme whose color does not read.
pub open spec fn fallback_foreground1() -> Color {
    Color { r: 0x54, g: 0x54, b: 0xa9 }
}

/// The second foreground of a scheme whose color does not read.
pub open spec fn fallback_foreground2() -> Color {
    Color { r: 0xdb, g: 0xdb, b: 0xec }
}

/// The tag color of a scheme whose color does not read, and of unreadable palette
/// entries.
pub open spec fn fallback_tag() -> Color {
    Color { r: 0xff, g: 0x00, b: 0x00 }
}

/// Every color text of the scheme can be read without cutting a character apart.
pub open spec fn scheme_cuttable(c: ColorSchemeV) -> bool {
    &&& hex_cuttable(c.background)
    &&& hex_cuttable(c.foreground1)
    &&& hex_cuttable(c.foreground2)
    &&& hex_cuttable(c.tag_foreground)
    &&& forall|i: int| 0 <= i < c.palette.len() ==> hex_cuttable(#[trigger] c.palette[i])
}

/// The inverted scheme of `c`: its name marked, each color inverted and written as
/// hex text.
pub open spec fn inverted_scheme(c: ColorSchemeV) -> ColorSchemeV {
    ColorSchemeV {
        name: c.name + " (inverted)"@,
        opacity: c.opacity,
        background: hex_text(inverted_spec(color_or(c.background, fallback_background()))),
        foreground1: hex_text(inverted_spec(color_or(c.foreground1, fallback_foreground1()))),
        foreground2: hex_text(inverted_spec(color_or(c.foreground2, fallback_foreground2()))),
        tag_foreground: hex_text(inverted_spec(color_or(c.tag_foreground, fallback_tag()))),
        palette: c.palette.map_values(|p: Seq<char>| hex_text(inverted_spec(color_or(p, fallback_tag())))),
    }
}

impl ColorScheme {
    /// The background color, `#00007f` where it does not read.
    pub fn background(&self) -> (r: Color)
        requires
            hex_cuttable(self.background@),
        ensures
            r == color_or(self.background@, fallback_background()),
    {
        proof {
            reveal_strlit("#00007f");
            assert("#00007f"@ =~= hex_text(fallback_background()));
        }
        color_or_known(self.background.as_str(), "#00007f", Ghost(fallback_background()))
    }

    /// The first foreground color, `#5454a9` where it does not read.
    pub fn foreground1(&self) -> (r: Color)
        requires
            hex_cuttable(self.foreground1@),
        ensures
            r == color_or(self.foreground1@, fallback_foreground1()),
    {
        proof {
            reveal_strlit("#5454a9");
            assert("#5454a9"@ =~= hex_text(fallback_foreground1()));
        }
        color_or_known(self.foreground1.as_str(), "#5454a9", Ghost(fallback_foreground1()))
    }

    /// The second foreground color, `#dbdbec` where it does not read.
    pub fn foreground2(&self) -> (r: Color)
        requires
            hex_cuttable(self.foreground2@),
        ensures
            r == color_or(self.foreground2@, fallback_foreground2()),
    {
        proof {
            reveal_strlit("#dbdbec");
            assert("#dbdbec"@ =~= hex_text(fallback_foreground2()));
        }
        color_or_known(self.foreground2.as_str(), "#dbdbec", Ghost(fallback_foreground2()))
    }

    /// The tag color, `#ff0000` where it does not read.
    pub fn tag_foreground(&self) -> (r: Color)
        requires
            hex_cuttable(self.tag_foreground@),
        ensures
            r == color_or(self.tag_foreground@, fallback_tag()),
    {
        proof {
            reveal_strlit("#ff0000");
            assert("#ff0000"@ =~= hex_text(fallback_tag()));
        }
        color_or_known(self.tag_foreground.as_str(), "#ff0000", Ghost(fallback_tag()))
    }

    /// The color of `value`, or else of `default`; one of them must read.
    pub fn to_color(&self, value: &String, default: &str) -> (r: Color)
        requires
            hex_cuttable(value@),
            hex_cuttable(default@),
            hex_color(value@) is Some || hex_color(default@) is Some,
        ensures
            r == match hex_color(value@) {
                Some(c) => c,
                None => hex_color(default@)->0,
            },
    {
        Color::from_hex_or(value.as_str(), default).unwrap()
    }

    /// The color of `value`, or else of `default`; `None` where a text cannot be
    /// cut into its parts or neither reads (where `to_color` fails outright).
    pub fn try_to_color(&self, value: &String, default: &str) -> (r: Option<Color>)
        ensures
            match r {
                Some(c) => hex_cuttable(value@) && hex_cuttable(default@) && (hex_color(value@) is Some
                    || hex_color(default@) is Some) && c == match hex_color(value@) {
                    Some(v) => v,
                    None => hex_color(default@)->0,
                },
                None => !(hex_cuttable(value@) && hex_cuttable(default@) && (hex_color(value@) is Some
                    || hex_color(default@) is Some)),
            },
    {
        if !Color::hex_is_cuttable(value.as_str()) || !Color::hex_is_cuttable(default) {
            return None;
        }
        let a = Color::from_hex(value.as_str());
        let b = Color::from_hex(default);
        if a.is_none() && b.is_none() {
            return None;
        }
        Some(self.to_color(value, default))
    }

    /// The palette of colors, as hex texts.
    pub fn palette(&self) -> (r: &Vec<String>)
        ensures
            r@ == self.palette@,
    {
        &self.palette
    }

    /// The palette color at `index`, if there is one and it reads.
    pub fn palette_color(&self, index: usize) -> (r: Option<Color>)
        requires
            index < self.palette@.len() ==> hex_cuttable(self.palette@[index as int]@),
        ensures
            r == if index < self.palette@.len() {
                hex_color(self.palette@[index as int]@)
            } else {
                None
            },
    {
        if index < self.palette.len() {
            Color::from_hex(self.palette[index].as_str())
        } else {
            None
        }
    }

    /// Whether every color text of the scheme can be read without cutting a
    /// character apart.
    pub fn colors_cuttable(&self) -> (r: bool)
        ensures
            r == scheme_cuttable(self@),
    {
        if !Color::hex_is_cuttable(self.background.as_str()) || !Color::hex_is_cuttable(
            self.foreground1.as_str(),
        ) || !Color::hex_is_cuttable(self.foreground2.as_str()) || !Color::hex_is_cuttable(
            self.tag_foreground.as_str(),
        ) {
            return false;
        }
        let mut i: usize = 0;
        while i < self.palette.len()
            invariant
                i <= self.palette@.len(),
                forall|k: int| 0 <= k < i ==> hex_cuttable(#[trigger] self.palette@[k]@),
            decreases self.palette.len() - i,
        {
            if !Color::hex_is_cuttable(self.palette[i].as_str()) {
                assert(self@.palette[i as int] == self.palette@[i as int]@);
                return false;
            }
            i = i + 1;
        }
        assert forall|k: int| 0 <= k < self@.palette.len() implies hex_cuttable(
            #[trigger] self@.palette[k],
        ) by {
            assert(self@.palette[k] == self.palette@[k]@);
        }
        true
    }

    /// The scheme with every color inverted and " (inverted)" after its name.
    pub fn inverted(&self) -> (r: ColorScheme)
        requires
            scheme_cuttable(self@),
        ensures
            r@ == inverted_scheme(self@),
    {
        proof {
            reveal_strlit("#ff0000");
            assert("#ff0000"@ =~= hex_text(fallback_tag()));
        }
        let mut palette: Vec<String> = Vec::new();
        let mut i: usize = 0;
        while i < self.palette.len()
            invariant
                i <= self.palette@.len(),
                scheme_cuttable(self@),
                "#ff0000"@ == hex_text(fallback_tag()),
                palette@.len() == i,
                forall|k: int|
                    0 <= k < i ==> (#[trigger] palette@[k])@ == hex_text(
                        inverted_spec(color_or(self.palette@[k]@, fallback_tag())),
                    ),
            decreases self.palette.len() - i,
        {
            assert(self@.palette[i as int] == self.palette@[i as int]@);
            let c = color_or_known(self.palette[i].as_str(), "#ff0000", Ghost(fallback_tag()));
            palette.push(c.inverted().to_hex());
            i = i + 1;
        }
        let r = ColorScheme {
            name: concat(self.name.as_str(), " (inverted)"),
            opacity: self.opacity,
            background: self.background().inverted().to_hex(),
            foreground1: self.foreground1().inverted().to_hex(),
            foreground2: self.foreground2().inverted().to_hex(),
            tag_foreground: self.tag_foreground().inverted().to_hex(),
            palette,
        };
        assert(r@.palette =~= inverted_scheme(self@).palette);
        r
    }

    /// The inverted scheme, or `None` where a color text cannot be cut into its
    /// parts (where inverting fails outright).
    pub fn try_inverted(&self) -> (r: Option<ColorScheme>)
        ensures
            match r {
                Some(c) => scheme_cuttable(self@) && c@ == inverted_scheme(self@),
                None => !scheme_cuttable(self@),
            },
    {
        if self.colors_cuttable() {
            Some(self.inverted())
        } else {
            None
        }
    }

    /// The palette color at `index`, or `None` where its text cannot be cut into
    /// its parts (where reading it fails outright); else as `palette_color`.
    pub fn try_palette_color(&self, index: usize) -> (r: Option<Option<Color>>)
        ensures
            match r {
                Some(c) => (index < self.palette@.len() ==> hex_cuttable(self.palette@[index as int]@))
                    && c == if index < self.palette@.len() {
                    hex_color(self.palette@[index as int]@)
                } else {
                    None
                },
                None => index < self.palette@.len() && !hex_cuttable(self.palette@[index as int]@),
            },
    {
        if index < self.palette.len() && !Color::hex_is_cuttable(self.palette[index].as_str()) {
            return None;
        }
        Some(self.palette_color(index))
    }

    /// The palette color at `index`, or `fallback` when there is none or it does
    /// not read.
    pub fn palette_color_or(&self, index: usize, fallback: Color) -> (r: Color)
        requires
            index < self.palette@.len() ==> hex_cuttable(self.palette@[index as int]@),
        ensures
            r == match (if index < self.palette@.len() {
                hex_color(self.palette@[index as int]@)
            } else {
                None
            }) {
                Some(c) => c,
                None => fallback,
            },
    {
        match self.palette_color(index) {
            Some(c) => c,
            None => fallback,
        }
    }
}


/// The words of `s` between white space, none of them empty, where `cur` is the
/// word begun before `s`.
pub open spec fn ws_words_from(cur: Seq<char>, s: Seq<char>) -> Seq<Seq<char>>
    decreases s.len(),
{
    if s.len() == 0 {
        if cur.len() > 0 {
            seq![cur]
        } else {
            Seq::empty()
        }
    } else if is_white(s[0]) {
        (if cur.len() > 0 {
            seq![cur]
        } else {
            Seq::empty()
        }) + ws_words_from(Seq::empty(), s.skip(1))
    } else {
        ws_words_from(cur.push(s[0]), s.skip(1))
    }
}

/// The words of `s` between white space, as `str::split_whitespace` gives them.
pub open spec fn ws_words(s: Seq<char>) -> Seq<Seq<char>> {
    ws_words_from(Seq::empty(), s)
}

/// The words of `s` between white space, in order.
pub fn split_whitespace(s: &str) -> (r: Vec<String>)
    ensures
        r@.len() == ws_words(s@).len(),
        forall|k: int| 0 <= k < r@.len() ==> #[trigger] r@[k]@ == ws_words(s@)[k],
{
    let c = chars_of(s);
    let mut out: Vec<String> = Vec::new();
    let mut cur: Vec<char> = Vec::new();
    let mut i: usize = 0;
    assert(c@.skip(0) =~= c@);
    assert(out@.map_values(|w: String| w@) + ws_words_from(cur@, c@.skip(0)) =~= ws_words(s@)) by {
        assert(cur@ =~= Seq::<char>::empty());
    }
    while i < c.len()
        invariant
            i <= c@.len(),
            c@ == s@,
            out@.map_values(|w: String| w@) + ws_words_from(cur@, c@.skip(i as int)) == ws_words(s@),
        decreases c.len() - i,
    {
        let ghost rest = c@.skip(i as int);
        let ghost old_cur = cur@;
        let ghost before = out@.map_values(|w: String| w@);
        assert(rest[0] == c@[i as int]);
        assert(rest.skip(1) =~= c@.skip(i + 1));
        let ch = c[i];
        if is_whitespace(ch) {
            assert(ws_words_from(old_cur, rest) == (if old_cur.len() > 0 {
                seq![old_cur]
            } else {
                Seq::<Seq<char>>::empty()
            }) + ws_words_from(Seq::empty(), rest.skip(1)));
            if cur.len() > 0 {
                let w = string_from_chars(&cur);
                out.push(w);
                assert(out@.map_values(|w: String| w@) =~= before.push(old_cur));
                cur = Vec::new();
                assert(before.push(old_cur) + ws_words_from(cur@, c@.skip(i + 1)) =~= before + (seq![
                    old_cur,
                ] + ws_words_from(Seq::empty(), rest.skip(1)))) by {
                    assert(cur@ =~= Seq::<char>::empty());
                }
            } else {
                assert(old_cur =~= Seq::<char>::empty());
                assert(Seq::<Seq<char>>::empty() + ws_words_from(Seq::empty(), c@.skip(i + 1))
                    =~= ws_words_from(Seq::empty(), c@.skip(i + 1)));
            }
        } else {
            assert(ws_words_from(old_cur, rest) == ws_words_from(old_cur.push(ch), rest.skip(1)));
            cur.push(ch);
        }
        i = i + 1;
    }
    assert(c@.skip(i as int) =~= Seq::<char>::empty());
    if cur.len() > 0 {
        let ghost before = out@;
        let w = string_from_chars(&cur);
        out.push(w);
        assert(out@.map_values(|w: String| w@) =~= before.map_values(|w: String| w@).push(cur@));
    } else {
        assert(out@.map_values(|w: String| w@) + Seq::<Seq<char>>::empty() =~= out@.map_values(
            |w: String| w@,
        ));
    }
    assert(out@.map_values(|w: String| w@) =~= ws_words(s@));
    assert forall|k: int| 0 <= k < out@.len() implies #[trigger] out@[k]@ == ws_words(s@)[k] by {
        assert(out@.map_values(|w: String| w@)[k] == out@[k]@);
    }
    out
}

/// What `i32::from_str` accepts: an optional sign, then at least one digit, with
/// a value that fits.
pub open spec fn parse_i32_spec(s: Seq<char>) -> Option<i32> {
    if s.len() > 0 && s[0] == '-' {
        let d = s.skip(1);
        if d.len() > 0 && all_digits(d) && digits_value(d) <= 2147483648 {
            Some((0 - digits_value(d)) as i32)
        } else {
            None
        }
    } else {
        let d = if s.len() > 0 && s[0] == '+' {
            s.skip(1)
        } else {
            s
        };
        if d.len() > 0 && all_digits(d) && digits_value(d) <= 2147483647 {
            Some(digits_value(d) as i32)
        } else {
            None
        }
    }
}

/// Reads a decimal `i32` with an optional sign, as `str::parse::<i32>` does.
pub fn parse_i32(s: &str) -> (r: Option<i32>)
    ensures
        r == parse_i32_spec(s@),
{
    let c = chars_of(s);
    if c.len() > 0 && c[0] == '-' {
        if c.len() > 1 && c[1] == '+' {
            assert(!all_digits(s@.skip(1))) by {
                assert(s@.skip(1)[0] == '+');
            }
            return None;
        }
        let mut rest: Vec<char> = Vec::new();
        let mut i: usize = 1;
        while i < c.len()
            invariant
                1 <= i <= c@.len(),
                c@ == s@,
                rest@ == c@.subrange(1, i as int),
            decreases c.len() - i,
        {
            rest.push(c[i]);
            i = i + 1;
            assert(rest@ =~= c@.subrange(1, i as int));
        }
        assert(rest@ =~= s@.skip(1));
        assert(rest@.len() > 0 ==> rest@[0] != '+');
        let t = string_from_chars(&rest);
        assert(parse_u64_spec(t@) == (if rest@.len() > 0 && all_digits(rest@) && digits_value(rest@)
            <= u64::MAX {
            Some(digits_value(rest@) as u64)
        } else {
            None
        }));
        let ghost d = s@.skip(1);
        proof {
            if all_digits(d) {
                lemma_digits_nonneg(d);
            }
        }
        match parse_u64(t.as_str()) {
            Some(v) => {
                assert(v == digits_value(d) && d.len() > 0 && all_digits(d));
                if v <= 2147483648 {
                    let r = (0 - (v as i64)) as i32;
                    assert(r == (0 - digits_value(d)) as i32);
                    Some(r)
                } else {
                    None
                }
            },
            None => {
                assert(!(d.len() > 0 && all_digits(d) && digits_value(d) <= 2147483648));
                None
            },
        }
    } else {
        let ghost d = if s@.len() > 0 && s@[0] == '+' { s@.skip(1) } else { s@ };
        proof {
            if all_digits(d) {
                lemma_digits_nonneg(d);
            }
        }
        match parse_u64(s) {
            Some(v) => {
                assert(v == digits_value(d) && d.len() > 0 && all_digits(d));
                if v <= 2147483647 {
                    Some(v as i32)
                } else {
                    None
                }
            },
            None => {
                assert(!(d.len() > 0 && all_digits(d) && digits_value(d) <= 2147483647));
                None
            },
        }
    }
}

/// Whether one of the first `n` words is, lower-cased, `word`.
pub open spec fn has_word_upto(ws: Seq<Seq<char>>, n: int, word: Seq<char>) -> bool
    decreases n,
{
    if n <= 0 {
        false
    } else {
        has_word_upto(ws, n - 1, word) || lowercase_of(ws[n - 1]) == word
    }
}

/// The first `n` words that are, lower-cased, neither `bold` nor `italic`.
pub open spec fn face_words_upto(ws: Seq<Seq<char>>, n: int) -> Seq<Seq<char>>
    decreases n,
{
    if n <= 0 {
        Seq::empty()
    } else if lowercase_of(ws[n - 1]) == "bold"@ || lowercase_of(ws[n - 1]) == "italic"@ {
        face_words_upto(ws, n - 1)
    } else {
        face_words_upto(ws, n - 1).push(ws[n - 1])
    }
}

/// What a font text such as `Comic Sans MS Bold 36` stands for: the face (the
/// words before the last one that are not `bold` or `italic`, joined by spaces, or
/// `Arial` if none), whether it is bold, whether it is italic, and the size (the
/// last word as a number, or 12).
pub open spec fn font_spec(s: Seq<char>) -> (Seq<char>, bool, bool, int) {
    let parts = ws_words(s);
    if parts.len() == 0 {
        ("Arial"@, false, false, 12)
    } else {
        let n = parts.len() - 1;
        let faces = face_words_upto(parts, n);
        (
            if faces.len() == 0 {
                "Arial"@
            } else {
                join(faces, " "@)
            },
            has_word_upto(parts, n, "bold"@),
            has_word_upto(parts, n, "italic"@),
            match parse_i32_spec(parts[n]) {
                Some(v) => v as int,
                None => 12,
            },
        )
    }
}

impl TextStyle {
    /// The face, boldness, italics and size of a font text.
    pub fn parse_font(font_str: &str) -> (r: (String, bool, bool, i32))
        ensures
            r.0@ == font_spec(font_str@).0,
            r.1 == font_spec(font_str@).1,
            r.2 == font_spec(font_str@).2,
            r.3 == font_spec(font_str@).3,
    {
        let parts = split_whitespace(font_str);
        let ghost ws = ws_words(font_str@);
        if parts.len() == 0 {
            return (owned("Arial"), false, false, 12);
        }
        let n = parts.len() - 1;
        let size = match parse_i32(parts[n].as_str()) {
            Some(v) => v,
            None => 12,
        };
        let mut faces: Vec<String> = Vec::new();
        let mut bold = false;
        let mut italic = false;
        let mut i: usize = 0;
        while i < n
            invariant
                i <= n,
                n == parts@.len() - 1,
                parts@.len() == ws.len(),
                ws == ws_words(font_str@),
                forall|k: int| 0 <= k < parts@.len() ==> #[trigger] parts@[k]@ == ws[k],
                bold == has_word_upto(ws, i as int, "bold"@),
                italic == has_word_upto(ws, i as int, "italic"@),
                faces@.map_values(|w: String| w@) == face_words_upto(ws, i as int),
            decreases n - i,
        {
            let low = to_lowercase(parts[i].as_str());
            assert(parts@[i as int]@ == ws[i as int]);
            proof {
                reveal_strlit("bold");
                reveal_strlit("italic");
                assert("bold"@.len() != "italic"@.len());
            }
            let ghost before = faces@;
            if str_eq(low.as_str(), "bold") {
                bold = true;
            } else if str_eq(low.as_str(), "italic") {
                italic = true;
            } else {
                faces.push(parts[i].clone());
                assert(faces@.map_values(|w: String| w@) =~= before.map_values(|w: String| w@).push(
                    ws[i as int],
                ));
            }
            i = i + 1;
        }
        let face = if faces.len() == 0 {
            owned("Arial")
        } else {
            join_strings(&faces, " ")
        };
        assert(parts@[n as int]@ == ws[n as int]);
        (face, bold, italic, size)
    }

    /// The palette of fonts, as font texts.
    pub fn palette(&self) -> (r: &Vec<String>)
        ensures
            r@ == self.palette@,
    {
        &self.palette
    }
}

/// A color survives the trip through its COLORREF value.
pub proof fn law_colorref_roundtrip(c: Color)
    ensures
        color_of_ref(colorref_of(c)) == c,
{
    let v = colorref_of(c);
    assert(v == c.b * 65536 + c.g * 256 + c.r);
    assert(v % 256 == c.r && (v / 256) % 256 == c.g && (v / 65536) % 256 == c.b) by (nonlinear_arith)
        requires
            v == c.b * 65536 + c.g * 256 + c.r,
            c.r < 256,
            c.g < 256,
            c.b < 256,
    ;
}

/// A hexadecimal digit of a value below 16 is an ASCII hexadecimal digit of that
/// value, already in lower case.
proof fn lemma_hex_char(d: int)
    requires
        0 <= d < 16,
    ensures
        is_hex_digit(hex_char(d) as u8),
        hex_digit_value(hex_char(d) as u8) == d,
        ascii_lower(hex_char(d)) == hex_char(d),
        '\0' <= hex_char(d) <= '\u{7f}',
{
}

/// The two digits of a byte read back as that byte.
proof fn lemma_hex2(v: u8)
    ensures
        pair_value(hex2(v)[0] as u8, hex2(v)[1] as u8) == v,
{
    lemma_hex_char((v / 16) as int);
    lemma_hex_char((v % 16) as int);
    assert(16 * (v / 16) + v % 16 == v);
}

/// The hex text of a color reads back as the color: it is ASCII, and once lower
/// cased and cut into pairs it gives the color's components.
pub proof fn law_hex_roundtrip(c: Color)
    ensures
        is_ascii_chars(hex_text(c)),
        color_from_bytes(hex_body(encode_utf8(hex_text(c).map_values(|x: char| ascii_lower(x))))) == Some(
            c,
        ),
{
    let t = hex_text(c);
    lemma_hex_char((c.r / 16) as int);
    lemma_hex_char((c.r % 16) as int);
    lemma_hex_char((c.g / 16) as int);
    lemma_hex_char((c.g % 16) as int);
    lemma_hex_char((c.b / 16) as int);
    lemma_hex_char((c.b % 16) as int);
    assert(t.len() == 7);
    assert forall|i: int| 0 <= i < t.len() implies '\0' <= #[trigger] t[i] <= '\u{7f}' by {
        if i == 0 {
            assert(t[0] == '#');
        }
    }
    let m = t.map_values(|x: char| ascii_lower(x));
    assert(m =~= t) by {
        assert(ascii_lower('#') == '#');
    }
    vstd::utf8::is_ascii_chars_encode_utf8(t);
    let b = encode_utf8(t);
    assert(b[0] == 0x23);
    assert(hex_body(b) =~= b.skip(1));
    lemma_hex2(c.r);
    lemma_hex2(c.g);
    lemma_hex2(c.b);
    assert(b[1] == t[1] as u8 && b[2] == t[2] as u8 && b[3] == t[3] as u8);
    assert(b[4] == t[4] as u8 && b[5] == t[5] as u8 && b[6] == t[6] as u8);
}

/// Inverting a color twice gives the color back.
pub proof fn law_inverted_twice(c: Color)
    ensures
        inverted_spec(inverted_spec(c)) == c,
{
}

} // verus!
