//! Shortcut expressions ("Ctrl K + Ctrl B"), text and pauses turned into input scripts.
use vstd::prelude::*;
use super::keys::ModifierState;
use super::keys::vkey::{find_vkey, vkey_code, VK_ALT, VK_CTRL, VK_ENTER, VK_SHIFT};
use super::steps::{InputStep, KeyInput, KeyInputs, NoInput, StepView};
use crate::text::{
    ascii_lower, chars_of, lowercase_of, replace_all, replace_chars, split_from, split_on, string_chars,
    string_from_chars, to_lowercase, words_of, words_on,
};
use vstd::utf8::is_ascii_chars;

verus! {

/// A script of input steps, played in order.
#[derive(Debug, Clone, PartialEq, Eq)]
pub struct InputScript {
    pub steps: Vec<InputStep>,
}

/// A lexical token of a shortcut expression.
#[allow(non_camel_case_types)]
#[derive(Debug, Clone, PartialEq, Eq)]
pub enum Token {
    /// A separator between key combinations.
    PLUS,
    /// A single character.
    CHAR(String),
    /// A single character in single quotes (the quotes removed).
    QUOTED(String),
    /// A key or modifier name.
    WORD(String),
}

/// What a token stands for.
pub enum TokenView {
    Plus,
    Char(Seq<char>),
    Quoted(Seq<char>),
    Word(Seq<char>),
}

impl View for Token {
    type V = TokenView;

    open spec fn view(&self) -> TokenView {
        match self {
            Token::PLUS => TokenView::Plus,
            Token::CHAR(s) => TokenView::Char(s@),
            Token::QUOTED(s) => TokenView::Quoted(s@),
            Token::WORD(s) => TokenView::Word(s@),
        }
    }
}

/// The keys pressed together for one combination, in press order.
#[derive(Debug, Clone, PartialEq, Eq)]
pub struct KeyCombination {
    pub keys: Vec<u16>,
}

impl Default for KeyCombination {
    fn default() -> (r: Self)
        ensures
            r.keys@ == Seq::<u16>::empty(),
    {
        Self { keys: Vec::new() }
    }
}

/// One entry of a keyboard layout: the key and the modifiers that type a character.
#[derive(Debug, Clone, Copy, PartialEq, Eq)]
pub struct CharKey {
    pub ch: char,
    pub vk_code: u16,
    pub modifiers: ModifierState,
}

/// The characters of a keyboard layout and the keys that type them.
#[derive(Debug, Clone, PartialEq, Eq)]
pub struct CharKeys {
    pub entries: Vec<CharKey>,
}

/// The key and modifiers of the first entry for `c`, if any.
pub open spec fn lookup_char(entries: Seq<CharKey>, c: char) -> Option<(u16, ModifierState)>
    decreases entries.len(),
{
    if entries.len() == 0 {
        None
    } else if entries[0].ch == c {
        Some((entries[0].vk_code, entries[0].modifiers))
    } else {
        lookup_char(entries.skip(1), c)
    }
}

impl CharKeys {
    /// The layout made of the given entries.
    pub fn new(entries: Vec<CharKey>) -> (r: Self)
        ensures
            r.entries@ == entries@,
    {
        Self { entries }
    }

    /// The key and modifiers that type `ch` in this layout.
    pub fn char_to_vkey(&self, ch: char) -> (r: Option<(u16, ModifierState)>)
        ensures
            r == lookup_char(self.entries@, ch),
    {
        let mut i: usize = 0;
        assert(self.entries@.skip(0) =~= self.entries@);
        while i < self.entries.len()
            invariant
                i <= self.entries@.len(),
                lookup_char(self.entries@.skip(i as int), ch) == lookup_char(self.entries@, ch),
            decreases self.entries.len() - i,
        {
            assert(self.entries@.skip(i as int).skip(1) =~= self.entries@.skip(i + 1));
            if self.entries[i].ch == ch {
                return Some((self.entries[i].vk_code, self.entries[i].modifiers));
            }
            i = i + 1;
        }
        None
    }
}

/// The expression with " + " around every unquoted `+`.
pub open spec fn spaced_expression(text: Seq<char>) -> Seq<char> {
    replace_all(
        replace_all(replace_all(text, "'+'"@, "_PLUS_"@), "+"@, " + "@),
        "_PLUS_"@,
        "'+'"@,
    )
}

/// The token that a lower-cased word stands for.
pub open spec fn classify(low: Seq<char>) -> TokenView {
    if low.len() == 3 && low[0] == '\'' && low[2] == '\'' {
        TokenView::Quoted(seq![low[1]])
    } else if low.len() == 1 && low[0] == '+' {
        TokenView::Plus
    } else if low.len() == 1 {
        TokenView::Char(seq![low[0]])
    } else {
        TokenView::Word(low)
    }
}

/// The tokens of a shortcut expression: its space-separated words, lower-cased and
/// classified.
pub open spec fn scan_spec(text: Seq<char>) -> Seq<TokenView> {
    words_on(spaced_expression(text), ' ').map_values(|w: Seq<char>| classify(lowercase_of(w)))
}

fn classify_word(low: &Vec<char>) -> (r: Token)
    ensures
        r@ == classify(low@),
{
    let len = low.len();
    if len == 3 && low[0] == '\'' && low[2] == '\'' {
        let v = vec![low[1]];
        assert(v@ =~= seq![low@[1]]);
        Token::QUOTED(string_from_chars(&v))
    } else if len == 1 && low[0] == '+' {
        Token::PLUS
    } else if len == 1 {
        let v = vec![low[0]];
        assert(v@ =~= seq![low@[0]]);
        Token::CHAR(string_from_chars(&v))
    } else {
        Token::WORD(string_from_chars(low))
    }
}

/// ASCII text in ASCII lower case.
pub open spec fn lower_ascii(s: Seq<char>) -> Seq<char> {
    s.map_values(|c: char| ascii_lower(c))
}

/// The tokens of an ASCII shortcut expression, its words put in lower case.
pub open spec fn scan_ascii(text: Seq<char>) -> Seq<TokenView> {
    words_on(spaced_expression(text), ' ').map_values(|w: Seq<char>| classify(lower_ascii(w)))
}

/// The key combinations of an ASCII shortcut expression.
pub open spec fn parse_ascii(text: Seq<char>, layout: Seq<CharKey>) -> Seq<Seq<u16>> {
    parse_tokens(scan_ascii(lower_ascii(text)), layout)
}

proof fn lemma_ascii_concat(a: Seq<char>, b: Seq<char>)
    requires
        is_ascii_chars(a),
        is_ascii_chars(b),
    ensures
        is_ascii_chars(a + b),
{
    assert forall|i: int| 0 <= i < (a + b).len() implies '\0' <= #[trigger] (a + b)[i] <= '\u{7f}' by {
        if i < a.len() {
            assert((a + b)[i] == a[i]);
        } else {
            assert((a + b)[i] == b[i - a.len()]);
        }
    }
}

proof fn lemma_ascii_skip(s: Seq<char>, n: int)
    requires
        is_ascii_chars(s),
        0 <= n <= s.len(),
    ensures
        is_ascii_chars(s.skip(n)),
{
    assert forall|i: int| 0 <= i < s.skip(n).len() implies '\0' <= #[trigger] s.skip(n)[i] <= '\u{7f}' by {
        assert(s.skip(n)[i] == s[i + n]);
    }
}

proof fn lemma_replace_ascii(s: Seq<char>, pat: Seq<char>, rep: Seq<char>)
    requires
        is_ascii_chars(s),
        is_ascii_chars(rep),
    ensures
        is_ascii_chars(replace_all(s, pat, rep)),
    decreases s.len(),
{
    if s.len() == 0 {
    } else if pat.len() > 0 && crate::text::starts_with(s, pat) {
        lemma_ascii_skip(s, pat.len() as int);
        lemma_replace_ascii(s.skip(pat.len() as int), pat, rep);
        lemma_ascii_concat(rep, replace_all(s.skip(pat.len() as int), pat, rep));
    } else {
        lemma_ascii_skip(s, 1);
        lemma_replace_ascii(s.skip(1), pat, rep);
        assert(is_ascii_chars(seq![s[0]]));
        lemma_ascii_concat(seq![s[0]], replace_all(s.skip(1), pat, rep));
    }
}

proof fn lemma_split_ascii(cur: Seq<char>, s: Seq<char>, sep: char)
    requires
        is_ascii_chars(cur),
        is_ascii_chars(s),
    ensures
        forall|k: int|
            0 <= k < split_from(cur, s, sep).len() ==> is_ascii_chars(#[trigger] split_from(cur, s, sep)[k]),
    decreases s.len(),
{
    if s.len() == 0 {
        assert(split_from(cur, s, sep) == seq![cur]);
    } else if s[0] == sep {
        lemma_ascii_skip(s, 1int);
        lemma_split_ascii(Seq::empty(), s.skip(1), sep);
        assert(split_from(cur, s, sep) == seq![cur] + split_from(Seq::empty(), s.skip(1), sep));
        assert forall|k: int| 0 <= k < split_from(cur, s, sep).len() implies is_ascii_chars(
            #[trigger] split_from(cur, s, sep)[k],
        ) by {
            if k > 0 {
                assert(split_from(cur, s, sep)[k] == split_from(Seq::empty(), s.skip(1), sep)[k - 1]);
            }
        }
    } else {
        lemma_ascii_skip(s, 1int);
        assert(is_ascii_chars(seq![s[0]]));
        lemma_ascii_concat(cur, seq![s[0]]);
        assert(cur + seq![s[0]] =~= cur.push(s[0]));
        lemma_split_ascii(cur.push(s[0]), s.skip(1), sep);
        assert(split_from(cur, s, sep) == split_from(cur.push(s[0]), s.skip(1), sep));
    }
}

proof fn lemma_words_ascii(s: Seq<char>, sep: char)
    requires
        is_ascii_chars(s),
    ensures
        forall|k: int| 0 <= k < words_on(s, sep).len() ==> is_ascii_chars(#[trigger] words_on(s, sep)[k]),
{
    let pieces = split_on(s, sep);
    let pred = |w: Seq<char>| w.len() > 0;
    lemma_split_ascii(Seq::empty(), s, sep);
    assert forall|k: int| 0 <= k < words_on(s, sep).len() implies is_ascii_chars(#[trigger] words_on(s, sep)[k]) by {
        let w = words_on(s, sep)[k];
        assert(pieces.filter(pred).contains(w));
        pieces.lemma_filter_contains_rev(pred, w);
        let j = choose|j: int| 0 <= j < pieces.len() && pieces[j] == w;
        assert(is_ascii_chars(pieces[j]));
    }
}

proof fn lemma_lower_ascii(s: Seq<char>)
    requires
        is_ascii_chars(s),
    ensures
        is_ascii_chars(lower_ascii(s)),
        lower_ascii(lower_ascii(s)) == lower_ascii(s),
{
    assert forall|i: int| 0 <= i < lower_ascii(s).len() implies '\0' <= #[trigger] lower_ascii(s)[i] <= '\u{7f}' by {
        let c = s[i];
        assert('\0' <= c <= '\u{7f}');
    }
    assert(lower_ascii(lower_ascii(s)) =~= lower_ascii(s));
}

/// Shortcut expressions in ASCII do not depend on case: two that are the same
/// in lower case denote the same key combinations, as does an expression and its
/// lower case.
pub proof fn law_shortcuts_ignore_case(a: Seq<char>, b: Seq<char>, layout: Seq<CharKey>)
    requires
        is_ascii_chars(a),
        is_ascii_chars(b),
        lower_ascii(a) == lower_ascii(b),
    ensures
        parse_ascii(a, layout) == parse_ascii(b, layout),
        parse_ascii(lower_ascii(a), layout) == parse_ascii(a, layout),
{
    lemma_lower_ascii(a);
}

/// Shortcut expressions do not depend on case: two expressions with the same
/// lower case (as `str::to_lowercase` gives it) denote the same key combinations.
pub proof fn law_shortcuts_ignore_case_of_any_text(a: Seq<char>, b: Seq<char>, layout: Seq<CharKey>)
    requires
        lowercase_of(a) == lowercase_of(b),
    ensures
        parse_spec(a, layout) == parse_spec(b, layout),
{
}

/// Replacing a pattern that holds no `c` works on each side of a `c` apart.
proof fn lemma_replace_around(x: Seq<char>, c: char, y: Seq<char>, pat: Seq<char>, rep: Seq<char>)
    requires
        pat.len() > 0,
        !pat.contains(c),
    ensures
        replace_all(x + seq![c] + y, pat, rep) == replace_all(x, pat, rep) + seq![c] + replace_all(y, pat, rep),
    decreases x.len(),
{
    let s = x + seq![c] + y;
    if x.len() == 0 {
        assert(s =~= seq![c] + y);
        if crate::text::starts_with(s, pat) {
            assert(pat[0] == s[0]);
            assert(pat.contains(c));
        }
        assert(s.skip(1) =~= y);
        assert(replace_all(x, pat, rep) =~= Seq::<char>::empty());
        assert(replace_all(s, pat, rep) =~= seq![c] + replace_all(y, pat, rep));
    } else if crate::text::starts_with(s, pat) {
        if pat.len() > x.len() {
            assert(pat[x.len() as int] == s.subrange(0, pat.len() as int)[x.len() as int]);
            assert(pat.contains(c));
        } else {
            assert(x.subrange(0, pat.len() as int) =~= s.subrange(0, pat.len() as int));
            assert(crate::text::starts_with(x, pat));
            let n = pat.len() as int;
            assert(s.skip(n) =~= x.skip(n) + seq![c] + y);
            lemma_replace_around(x.skip(n), c, y, pat, rep);
            assert(replace_all(s, pat, rep) =~= replace_all(x, pat, rep) + seq![c] + replace_all(y, pat, rep));
        }
    } else {
        if crate::text::starts_with(x, pat) {
            assert(s.subrange(0, pat.len() as int) =~= x.subrange(0, pat.len() as int));
        }
        assert(s[0] == x[0]);
        assert(s.skip(1) =~= x.skip(1) + seq![c] + y);
        lemma_replace_around(x.skip(1), c, y, pat, rep);
        assert(replace_all(s, pat, rep) =~= replace_all(x, pat, rep) + seq![c] + replace_all(y, pat, rep));
    }
}

/// The pieces around a separator are the pieces on its left, then those on its
/// right.
proof fn lemma_split_around(cur: Seq<char>, x: Seq<char>, sep: char, y: Seq<char>)
    ensures
        split_from(cur, x + seq![sep] + y, sep) == split_from(cur, x, sep) + split_from(Seq::empty(), y, sep),
    decreases x.len(),
{
    let s = x + seq![sep] + y;
    if x.len() == 0 {
        assert(s.skip(1) =~= y);
        assert(s[0] == sep);
    } else if x[0] == sep {
        assert(s[0] == sep);
        assert(s.skip(1) =~= x.skip(1) + seq![sep] + y);
        lemma_split_around(Seq::empty(), x.skip(1), sep, y);
        assert(split_from(cur, s, sep) =~= split_from(cur, x, sep) + split_from(Seq::empty(), y, sep));
    } else {
        assert(s[0] == x[0]);
        assert(s.skip(1) =~= x.skip(1) + seq![sep] + y);
        lemma_split_around(cur.push(x[0]), x.skip(1), sep, y);
    }
}

/// The words around a separator are the words on its left, then those on its
/// right.
proof fn lemma_words_around(x: Seq<char>, sep: char, y: Seq<char>)
    ensures
        words_on(x + seq![sep] + y, sep) == words_on(x, sep) + words_on(y, sep),
{
    lemma_split_around(Seq::empty(), x, sep, y);
    let pred = |w: Seq<char>| w.len() > 0;
    Seq::filter_distributes_over_add(split_on(x, sep), split_on(y, sep), pred);
}

/// The spaced form of an expression works on each side of a space apart.
proof fn lemma_spaced_around(x: Seq<char>, y: Seq<char>)
    ensures
        spaced_expression(x + seq![' '] + y) == spaced_expression(x) + seq![' '] + spaced_expression(y),
{
    reveal_strlit("'+'");
    reveal_strlit("+");
    reveal_strlit("_PLUS_");
    reveal_strlit(" + ");
    assert(!"'+'"@.contains(' ')) by {
        assert forall|i: int| 0 <= i < "'+'"@.len() implies "'+'"@[i] != ' ' by {}
    }
    assert(!"+"@.contains(' ')) by {
        assert forall|i: int| 0 <= i < "+"@.len() implies "+"@[i] != ' ' by {}
    }
    assert(!"_PLUS_"@.contains(' ')) by {
        assert forall|i: int| 0 <= i < "_PLUS_"@.len() implies "_PLUS_"@[i] != ' ' by {}
    }
    lemma_replace_around(x, ' ', y, "'+'"@, "_PLUS_"@);
    let x1 = replace_all(x, "'+'"@, "_PLUS_"@);
    let y1 = replace_all(y, "'+'"@, "_PLUS_"@);
    lemma_replace_around(x1, ' ', y1, "+"@, " + "@);
    let x2 = replace_all(x1, "+"@, " + "@);
    let y2 = replace_all(y1, "+"@, " + "@);
    lemma_replace_around(x2, ' ', y2, "_PLUS_"@, "'+'"@);
}

/// Extra spaces in an ASCII shortcut expression do not matter: a space doubled
/// between two parts denotes the same key combinations.
pub proof fn law_shortcuts_ignore_extra_spaces(x: Seq<char>, y: Seq<char>, layout: Seq<CharKey>)
    ensures
        parse_ascii(x + seq![' '] + y, layout) == parse_ascii(x + seq![' ', ' '] + y, layout),
{
    let lx = lower_ascii(x);
    let ly = lower_ascii(y);
    assert(lower_ascii(x + seq![' '] + y) =~= lx + seq![' '] + ly);
    assert(lower_ascii(x + seq![' ', ' '] + y) =~= lx + seq![' '] + (seq![' '] + ly));
    lemma_spaced_around(lx, ly);
    lemma_spaced_around(lx, seq![' '] + ly);
    lemma_spaced_around(Seq::empty(), ly);
    assert(Seq::<char>::empty() + seq![' '] + ly =~= seq![' '] + ly);
    assert(spaced_expression(Seq::<char>::empty()) =~= Seq::<char>::empty());
    let sx = spaced_expression(lx);
    let sy = spaced_expression(ly);
    assert(Seq::<char>::empty() + seq![' '] + sy =~= seq![' '] + sy);
    lemma_words_around(sx, ' ', sy);
    lemma_words_around(sx, ' ', seq![' '] + sy);
    lemma_words_around(Seq::empty(), ' ', sy);
    assert(words_on(Seq::<char>::empty(), ' ') =~= Seq::<Seq<char>>::empty()) by {
        reveal_with_fuel(Seq::<_>::filter, 2);
        assert(split_on(Seq::<char>::empty(), ' ') == seq![Seq::<char>::empty()]);
    }
    assert(words_on(seq![' '] + sy, ' ') =~= words_on(sy, ' '));
    assert(words_on(sx + seq![' '] + (seq![' '] + sy), ' ') =~= words_on(sx + seq![' '] + sy, ' '));
    assert(x + seq![' ', ' '] + y =~= x + seq![' '] + (seq![' '] + y));
    assert(scan_ascii(lower_ascii(x + seq![' ', ' '] + y)) =~= scan_ascii(lower_ascii(x + seq![' '] + y)));
}

/// Replacing a pattern that holds a character absent from `s` changes nothing.
proof fn lemma_replace_absent(s: Seq<char>, pat: Seq<char>, rep: Seq<char>, d: char)
    requires
        pat.contains(d),
        !s.contains(d),
    ensures
        replace_all(s, pat, rep) == s,
    decreases s.len(),
{
    if s.len() == 0 {
        assert(replace_all(s, pat, rep) =~= s);
    } else if pat.len() > 0 && crate::text::starts_with(s, pat) {
        let j = choose|j: int| 0 <= j < pat.len() && pat[j] == d;
        assert(s.subrange(0, pat.len() as int)[j] == s[j]);
        assert(s.contains(d));
    } else {
        assert forall|i: int| 0 <= i < s.skip(1).len() implies s.skip(1)[i] != d by {
            assert(s.skip(1)[i] == s[i + 1]);
        }
        lemma_replace_absent(s.skip(1), pat, rep, d);
        assert(seq![s[0]] + s.skip(1) =~= s);
    }
}

/// A text without the separator is one piece.
proof fn lemma_split_whole(cur: Seq<char>, s: Seq<char>, sep: char)
    requires
        !s.contains(sep),
    ensures
        split_from(cur, s, sep) == seq![cur + s],
    decreases s.len(),
{
    if s.len() == 0 {
        assert(cur + s =~= cur);
    } else {
        assert(s[0] != sep);
        assert forall|i: int| 0 <= i < s.skip(1).len() implies s.skip(1)[i] != sep by {
            assert(s.skip(1)[i] == s[i + 1]);
        }
        lemma_split_whole(cur.push(s[0]), s.skip(1), sep);
        assert(cur.push(s[0]) + s.skip(1) =~= cur + s);
    }
}

/// A word without spaces, `+`, and `L` or `P`, is its own spaced form, and its
/// one word.
proof fn lemma_word_alone(w: Seq<char>)
    requires
        w.len() > 0,
        !w.contains(' '),
        !w.contains('+'),
        !w.contains('L') || !w.contains('P'),
    ensures
        words_on(spaced_expression(w), ' ') == seq![w],
{
    reveal_strlit("'+'");
    reveal_strlit("+");
    reveal_strlit("_PLUS_");
    reveal_strlit(" + ");
    assert("'+'"@[1] == '+');
    assert("+"@[0] == '+');
    assert("_PLUS_"@[2] == 'L');
    assert("_PLUS_"@[1] == 'P');
    lemma_replace_absent(w, "'+'"@, "_PLUS_"@, '+');
    lemma_replace_absent(w, "+"@, " + "@, '+');
    if !w.contains('L') {
        lemma_replace_absent(w, "_PLUS_"@, "'+'"@, 'L');
    } else {
        lemma_replace_absent(w, "_PLUS_"@, "'+'"@, 'P');
    }
    lemma_split_whole(Seq::empty(), w, ' ');
    assert(Seq::<char>::empty() + w =~= w);
    let pred = |v: Seq<char>| v.len() > 0;
    assert(seq![w].filter(pred) =~= seq![w]) by {
        reveal_with_fuel(Seq::<_>::filter, 2);
        assert(seq![w].drop_last() =~= Seq::<Seq<char>>::empty());
    }
}

/// The spaced form and the words of an empty expression are empty.
proof fn lemma_words_empty()
    ensures
        words_on(spaced_expression(Seq::empty()), ' ') == Seq::<Seq<char>>::empty(),
{
    assert(spaced_expression(Seq::<char>::empty()) =~= Seq::<char>::empty());
    assert(words_on(Seq::<char>::empty(), ' ') =~= Seq::<Seq<char>>::empty()) by {
        reveal_with_fuel(Seq::<_>::filter, 2);
        assert(split_on(Seq::<char>::empty(), ' ') == seq![Seq::<char>::empty()]);
    }
}

/// The words of an expression split at a space are those on its left, then those
/// on its right.
proof fn lemma_words_at_space(a: Seq<char>, b: Seq<char>)
    ensures
        words_on(spaced_expression(a + seq![' '] + b), ' ') == words_on(spaced_expression(a), ' ') + words_on(
            spaced_expression(b),
            ' ',
        ),
{
    lemma_spaced_around(a, b);
    lemma_words_around(spaced_expression(a), ' ', spaced_expression(b));
}

/// A word standing between spaces (or at an end of the expression) is one word of
/// the expression, between the words on its left and those on its right.
proof fn lemma_words_with(x: Seq<char>, w: Seq<char>, y: Seq<char>)
    requires
        x.len() == 0 || x.last() == ' ',
        y.len() == 0 || y[0] == ' ',
        w.len() > 0,
        !w.contains(' '),
        !w.contains('+'),
        !w.contains('L') || !w.contains('P'),
    ensures
        words_on(spaced_expression(x + w + y), ' ') == words_on(spaced_expression(x), ' ') + seq![w]
            + words_on(spaced_expression(y), ' '),
{
    lemma_word_alone(w);
    lemma_words_empty();
    let e = Seq::<char>::empty();
    let ww = words_on(spaced_expression(w), ' ');
    // the words of `w + y`
    if y.len() == 0 {
        assert(w + y =~= w);
        assert(words_on(spaced_expression(w + y), ' ') =~= seq![w] + words_on(spaced_expression(y), ' '));
    } else {
        let y0 = y.skip(1);
        assert(w + y =~= w + seq![' '] + y0);
        assert(y =~= e + seq![' '] + y0);
        lemma_words_at_space(w, y0);
        lemma_words_at_space(e, y0);
        assert(words_on(spaced_expression(w + y), ' ') =~= seq![w] + words_on(spaced_expression(y), ' '));
    }
    if x.len() == 0 {
        assert(x + w + y =~= w + y);
        assert(words_on(spaced_expression(x), ' ') =~= Seq::<Seq<char>>::empty());
        assert(words_on(spaced_expression(x + w + y), ' ') =~= words_on(spaced_expression(x), ' ') + seq![w]
            + words_on(spaced_expression(y), ' '));
    } else {
        let x0 = x.drop_last();
        assert(x + w + y =~= x0 + seq![' '] + (w + y));
        assert(x =~= x0 + seq![' '] + e);
        lemma_words_at_space(x0, w + y);
        lemma_words_at_space(x0, e);
        assert(words_on(spaced_expression(x + w + y), ' ') =~= words_on(spaced_expression(x), ' ') + seq![w]
            + words_on(spaced_expression(y), ' '));
    }
}

/// A quoted character and the bare character have the same effect among the
/// tokens.
proof fn lemma_parse_quoted_as_char(p: Seq<TokenView>, t: Seq<char>, s: Seq<TokenView>, layout: Seq<CharKey>)
    ensures
        parse_tokens(p + seq![TokenView::Quoted(t)] + s, layout) == parse_tokens(
            p + seq![TokenView::Char(t)] + s,
            layout,
        ),
    decreases s.len(),
{
    let a = p + seq![TokenView::Quoted(t)] + s;
    let b = p + seq![TokenView::Char(t)] + s;
    if s.len() == 0 {
        assert(a.drop_last() =~= p);
        assert(b.drop_last() =~= p);
    } else {
        assert(a.drop_last() =~= p + seq![TokenView::Quoted(t)] + s.drop_last());
        assert(b.drop_last() =~= p + seq![TokenView::Char(t)] + s.drop_last());
        lemma_parse_quoted_as_char(p, t, s.drop_last(), layout);
    }
}

/// Quoting a single character other than `+` does not matter in an ASCII shortcut
/// expression: a word `'c'` denotes what the word `c` does ("ctrl alt 'P'" is
/// "ctrl alt P").
pub proof fn law_shortcuts_ignore_quotes(x: Seq<char>, c: char, y: Seq<char>, layout: Seq<CharKey>)
    requires
        c != '+',
        c != ' ',
        x.len() == 0 || x.last() == ' ',
        y.len() == 0 || y[0] == ' ',
    ensures
        parse_ascii(x + seq!['\'', c, '\''] + y, layout) == parse_ascii(x + seq![c] + y, layout),
{
    let lc = ascii_lower(c);
    let lx = lower_ascii(x);
    let ly = lower_ascii(y);
    let q = seq!['\'', lc, '\''];
    let one = seq![lc];
    assert(lower_ascii(x + seq!['\'', c, '\''] + y) =~= lx + q + ly);
    assert(lower_ascii(x + seq![c] + y) =~= lx + one + ly);
    assert(lx.len() == 0 || lx.last() == ' ') by {
        if lx.len() > 0 {
            assert(lx.last() == ascii_lower(x.last()));
        }
    }
    assert(ly.len() == 0 || ly[0] == ' ') by {
        if ly.len() > 0 {
            assert(ly[0] == ascii_lower(y[0]));
        }
    }
    assert(lc != ' ' && lc != '+' && lc != 'L' && ascii_lower(lc) == lc);
    assert(!q.contains(' ') && !q.contains('+') && !q.contains('L')) by {
        assert forall|i: int| 0 <= i < q.len() implies q[i] != ' ' && q[i] != '+' && q[i] != 'L' by {}
    }
    assert(!one.contains(' ') && !one.contains('+') && !one.contains('L')) by {
        assert forall|i: int| 0 <= i < one.len() implies one[i] != ' ' && one[i] != '+' && one[i] != 'L' by {}
    }
    lemma_words_with(lx, q, ly);
    lemma_words_with(lx, one, ly);
    let f = |w: Seq<char>| classify(lower_ascii(w));
    let wx = words_on(spaced_expression(lx), ' ');
    let wy = words_on(spaced_expression(ly), ' ');
    assert(lower_ascii(q) =~= q);
    assert(lower_ascii(one) =~= one);
    assert(f(q) == TokenView::Quoted(one));
    assert(f(one) == TokenView::Char(one));
    assert(scan_ascii(lx + q + ly) =~= wx.map_values(f) + seq![TokenView::Quoted(one)] + wy.map_values(f));
    assert(scan_ascii(lx + one + ly) =~= wx.map_values(f) + seq![TokenView::Char(one)] + wy.map_values(f));
    lemma_parse_quoted_as_char(wx.map_values(f), one, wy.map_values(f), layout);
}

/// Doubling a space leaves the words of an expression as they were.
proof fn lemma_words_extra_space(x: Seq<char>, y: Seq<char>)
    ensures
        words_on(spaced_expression(x + seq![' '] + y), ' ') == words_on(
            spaced_expression(x + seq![' ', ' '] + y),
            ' ',
        ),
{
    let e = Seq::<char>::empty();
    lemma_words_empty();
    assert(x + seq![' ', ' '] + y =~= x + seq![' '] + (seq![' '] + y));
    assert(seq![' '] + y =~= e + seq![' '] + y);
    lemma_words_at_space(x, y);
    lemma_words_at_space(x, seq![' '] + y);
    lemma_words_at_space(e, y);
    assert(words_on(spaced_expression(seq![' '] + y), ' ') =~= words_on(spaced_expression(y), ' '));
}

/// Extra spaces do not matter in any shortcut expression: two expressions whose
/// lower cases (as `str::to_lowercase` gives them) differ by a doubled space
/// denote the same key combinations.
pub proof fn law_shortcuts_ignore_extra_spaces_of_any_text(
    a: Seq<char>,
    b: Seq<char>,
    x: Seq<char>,
    y: Seq<char>,
    layout: Seq<CharKey>,
)
    requires
        lowercase_of(a) == x + seq![' '] + y,
        lowercase_of(b) == x + seq![' ', ' '] + y,
    ensures
        parse_spec(a, layout) == parse_spec(b, layout),
{
    lemma_words_extra_space(x, y);
}

/// Quoting a single character other than `+` does not matter in any shortcut
/// expression: of two expressions whose lower cases (as `str::to_lowercase`
/// gives them) have the word `'c'` and the word `c` in the same place, both denote
/// the same key combinations, for a character `c` that lower-casing leaves as it
/// is.
pub proof fn law_shortcuts_ignore_quotes_of_any_text(
    a: Seq<char>,
    b: Seq<char>,
    x: Seq<char>,
    c: char,
    y: Seq<char>,
    layout: Seq<CharKey>,
)
    requires
        c != '+',
        c != ' ',
        x.len() == 0 || x.last() == ' ',
        y.len() == 0 || y[0] == ' ',
        lowercase_of(a) == x + seq!['\'', c, '\''] + y,
        lowercase_of(b) == x + seq![c] + y,
        lowercase_of(seq!['\'', c, '\'']) == seq!['\'', c, '\''],
        lowercase_of(seq![c]) == seq![c],
    ensures
        parse_spec(a, layout) == parse_spec(b, layout),
{
    let q = seq!['\'', c, '\''];
    let one = seq![c];
    assert(!q.contains(' ') && !q.contains('+') && (!q.contains('L') || !q.contains('P'))) by {
        if q.contains('L') {
            let i = choose|i: int| 0 <= i < q.len() && q[i] == 'L';
            assert(c == 'L');
        }
        assert forall|i: int| 0 <= i < q.len() implies q[i] != ' ' && q[i] != '+' by {}
    }
    assert(!one.contains(' ') && !one.contains('+') && (!one.contains('L') || !one.contains('P'))) by {
        assert forall|i: int| 0 <= i < one.len() implies one[i] != ' ' && one[i] != '+' by {}
        if one.contains('L') {
            let i = choose|i: int| 0 <= i < one.len() && one[i] == 'L';
            assert(c == 'L');
        }
    }
    lemma_words_with(x, q, y);
    lemma_words_with(x, one, y);
    let f = |w: Seq<char>| classify(lowercase_of(w));
    let wx = words_on(spaced_expression(x), ' ');
    let wy = words_on(spaced_expression(y), ' ');
    assert(f(q) == TokenView::Quoted(one));
    assert(f(one) == TokenView::Char(one));
    assert(scan_spec(x + q + y) =~= wx.map_values(f) + seq![TokenView::Quoted(one)] + wy.map_values(f));
    assert(scan_spec(x + one + y) =~= wx.map_values(f) + seq![TokenView::Char(one)] + wy.map_values(f));
    lemma_parse_quoted_as_char(wx.map_values(f), one, wy.map_values(f), layout);
}

/// Splits a shortcut expression into tokens.
pub fn scan_shortcut_expression(text: &str) -> (r: Vec<Token>)
    ensures
        r@.len() == scan_spec(text@).len(),
        forall|i: int| 0 <= i < r@.len() ==> #[trigger] r@[i]@ == scan_spec(text@)[i],
        is_ascii_chars(text@) ==> forall|i: int| 0 <= i < r@.len() ==> #[trigger] r@[i]@ == scan_ascii(text@)[i],
{
    proof {
        reveal_strlit("'+'");
        reveal_strlit("+");
        reveal_strlit("_PLUS_");
    }
    let t0 = chars_of(text);
    let t1 = replace_chars(&t0, &chars_of("'+'"), &chars_of("_PLUS_"));
    let t2 = replace_chars(&t1, &chars_of("+"), &chars_of(" + "));
    let t3 = replace_chars(&t2, &chars_of("_PLUS_"), &chars_of("'+'"));
    let words = words_of(&t3, ' ');
    let ghost ws = words_on(spaced_expression(text@), ' ');
    proof {
        if is_ascii_chars(text@) {
            reveal_strlit("'+'");
            reveal_strlit(" + ");
            assert(is_ascii_chars("_PLUS_"@));
            assert(is_ascii_chars(" + "@));
            assert(is_ascii_chars("'+'"@));
            lemma_replace_ascii(text@, "'+'"@, "_PLUS_"@);
            lemma_replace_ascii(replace_all(text@, "'+'"@, "_PLUS_"@), "+"@, " + "@);
            lemma_replace_ascii(
                replace_all(replace_all(text@, "'+'"@, "_PLUS_"@), "+"@, " + "@),
                "_PLUS_"@,
                "'+'"@,
            );
            lemma_words_ascii(spaced_expression(text@), ' ');
        }
    }
    let mut tokens: Vec<Token> = Vec::new();
    let mut i: usize = 0;
    while i < words.len()
        invariant
            i <= words@.len(),
            ws == words_on(spaced_expression(text@), ' '),
            words@.len() == ws.len(),
            forall|k: int| 0 <= k < words@.len() ==> #[trigger] words@[k]@ == ws[k],
            tokens@.len() == i,
            forall|k: int|
                0 <= k < i ==> #[trigger] tokens@[k]@ == classify(lowercase_of(ws[k])),
            is_ascii_chars(text@) ==> forall|k: int|
                0 <= k < i ==> #[trigger] tokens@[k]@ == classify(lower_ascii(ws[k])),
            is_ascii_chars(text@) ==> forall|k: int| 0 <= k < ws.len() ==> is_ascii_chars(#[trigger] ws[k]),
        decreases words.len() - i,
    {
        let w = string_from_chars(&words[i]);
        assert(w@ == ws[i as int]);
        let low = to_lowercase(w.as_str());
        let lc = string_chars(&low);
        let tok = classify_word(&lc);
        tokens.push(tok);
        i = i + 1;
    }
    proof {
        if is_ascii_chars(text@) {
            assert forall|k: int| 0 <= k < tokens@.len() implies #[trigger] tokens@[k]@ == scan_ascii(text@)[k] by {
                assert(scan_ascii(text@)[k] == classify(lower_ascii(ws[k])));
            }
        }
    }
    tokens
}

/// The combinations after appending `c` to the last one.
pub open spec fn add_key(acc: Seq<Seq<u16>>, c: u16) -> Seq<Seq<u16>> {
    acc.update(acc.len() - 1, acc.last().push(c))
}

/// The combinations with an empty one started if there is none yet.
pub open spec fn ensure_started(acc: Seq<Seq<u16>>) -> Seq<Seq<u16>> {
    if acc.len() == 0 {
        seq![Seq::empty()]
    } else {
        acc
    }
}

/// The effect of one token on the combinations parsed so far. A word adds the key
/// it names; a character adds the key that types it without modifiers; a plus
/// starts a new combination. A word or character that maps to no such key adds
/// nothing.
pub open spec fn parse_step(acc: Seq<Seq<u16>>, tok: TokenView, layout: Seq<CharKey>) -> Seq<
    Seq<u16>,
> {
    match tok {
        TokenView::Plus => acc.push(Seq::empty()),
        TokenView::Word(t) => match vkey_code(t) {
            Some(c) => add_key(ensure_started(acc), c),
            None => ensure_started(acc),
        },
        TokenView::Char(t) => char_step(ensure_started(acc), t, layout),
        TokenView::Quoted(t) => char_step(ensure_started(acc), t, layout),
    }
}

/// Adds the key typing the character of `t`, when it needs no modifier.
pub open spec fn char_step(acc: Seq<Seq<u16>>, t: Seq<char>, layout: Seq<CharKey>) -> Seq<Seq<u16>> {
    match lookup_char(layout, t[0]) {
        Some((vk, m)) => if vk > 0 && m == ModifierState::none() {
            add_key(acc, vk)
        } else {
            acc
        },
        None => acc,
    }
}

/// The combinations that a token sequence denotes, folding `parse_step` from the left.
pub open spec fn parse_tokens(toks: Seq<TokenView>, layout: Seq<CharKey>) -> Seq<Seq<u16>>
    decreases toks.len(),
{
    if toks.len() == 0 {
        Seq::empty()
    } else {
        parse_step(parse_tokens(toks.drop_last(), layout), toks.last(), layout)
    }
}

/// The key combinations of a shortcut expression, which is lower-cased first.
pub open spec fn parse_spec(text: Seq<char>, layout: Seq<CharKey>) -> Seq<Seq<u16>> {
    parse_tokens(scan_spec(lowercase_of(text)), layout)
}

/// Views of the combinations' keys.
pub open spec fn combos_view(v: Seq<KeyCombination>) -> Seq<Seq<u16>> {
    v.map_values(|c: KeyCombination| c.keys@)
}

fn push_key(acc: &mut Vec<KeyCombination>, c: u16)
    requires
        old(acc).len() > 0,
    ensures
        combos_view(final(acc)@) == add_key(combos_view(old(acc)@), c),
{
    let mut comb = acc.pop().unwrap();
    comb.keys.push(c);
    acc.push(comb);
    assert(combos_view(acc@) =~= add_key(combos_view(old(acc)@), c));
}

fn start_if_empty(acc: &mut Vec<KeyCombination>)
    ensures
        combos_view(final(acc)@) == ensure_started(combos_view(old(acc)@)),
        final(acc).len() > 0,
{
    if acc.len() == 0 {
        acc.push(KeyCombination::default());
        assert(combos_view(acc@) =~= seq![Seq::<u16>::empty()]);
    }
}

/// Parses a shortcut expression into key combinations, looking characters up in
/// `layout`.
pub fn parse_shortcut_expression(text: &str, layout: &CharKeys) -> (r: Vec<KeyCombination>)
    ensures
        combos_view(r@) == parse_spec(text@, layout.entries@),
        is_ascii_chars(text@) ==> combos_view(r@) == parse_ascii(text@, layout.entries@),
{
    let low = to_lowercase(text);
    proof {
        if is_ascii_chars(text@) {
            lemma_lower_ascii(text@);
            assert(low@ =~= lower_ascii(text@));
        }
    }
    let tokens = scan_shortcut_expression(low.as_str());
    proof {
        if is_ascii_chars(text@) {
            assert(scan_spec(lowercase_of(text@)) =~= scan_ascii(lower_ascii(text@))) by {
                assert forall|k: int| 0 <= k < tokens@.len() implies scan_spec(lowercase_of(text@))[k] == scan_ascii(
                    lower_ascii(text@),
                )[k] by {
                    assert(tokens@[k]@ == scan_spec(low@)[k]);
                    assert(tokens@[k]@ == scan_ascii(low@)[k]);
                }
            }
        }
    }
    let ghost toks = scan_spec(lowercase_of(text@));
    let mut acc: Vec<KeyCombination> = Vec::new();
    let mut i: usize = 0;
    while i < tokens.len()
        invariant
            i <= tokens@.len(),
            toks == scan_spec(lowercase_of(text@)),
            tokens@.len() == toks.len(),
            forall|k: int| 0 <= k < tokens@.len() ==> #[trigger] tokens@[k]@ == toks[k],
            combos_view(acc@) == parse_tokens(toks.take(i as int), layout.entries@),
        decreases tokens.len() - i,
    {
        assert(toks.take(i + 1).drop_last() =~= toks.take(i as int));
        assert(toks.take(i + 1).last() == toks[i as int]);
        let ghost before = combos_view(acc@);
        assert(toks[i as int] == classify(
            lowercase_of(words_on(spaced_expression(lowercase_of(text@)), ' ')[i as int]),
        ));
        assert(tokens@[i as int]@ == toks[i as int]);
        match &tokens[i] {
            Token::WORD(t) => {
                start_if_empty(&mut acc);
                match find_vkey(t.clone()) {
                    Some(vk) => {
                        push_key(&mut acc, vk.vkey);
                    },
                    None => {},
                }
            },
            Token::CHAR(t) | Token::QUOTED(t) => {
                start_if_empty(&mut acc);
                let tc = string_chars(t);
                assert(tc@.len() == 1);
                match layout.char_to_vkey(tc[0]) {
                    Some((vk, m)) => {
                        if vk > 0 && m.is_none() {
                            push_key(&mut acc, vk);
                        }
                    },
                    None => {},
                }
            },
            Token::PLUS => {
                acc.push(KeyCombination::default());
                assert(combos_view(acc@) =~= before.push(Seq::empty()));
            },
        }
        i = i + 1;
    }
    assert(toks.take(tokens.len() as int) =~= toks);
    acc
}

/// Key events that press the keys in order.
pub open spec fn presses(keys: Seq<u16>) -> Seq<KeyInput> {
    keys.map_values(|k: u16| KeyInput { vk_code: k, key_down: true })
}

/// Key events that release the keys in reverse order.
pub open spec fn releases(keys: Seq<u16>) -> Seq<KeyInput> {
    keys.reverse().map_values(|k: u16| KeyInput { vk_code: k, key_down: false })
}

/// The key events of a shortcut: each combination's keys pressed in order, then
/// released in reverse order, combination after combination.
pub open spec fn shortcut_events(combos: Seq<Seq<u16>>) -> Seq<KeyInput>
    decreases combos.len(),
{
    if combos.len() == 0 {
        Seq::empty()
    } else {
        shortcut_events(combos.drop_last()) + presses(combos.last()) + releases(combos.last())
    }
}

/// The event for a key going down or up.
pub fn map_vk_code(vk_code: u16, key_down: bool) -> (r: KeyInput)
    ensures
        r == (KeyInput { vk_code, key_down }),
{
    KeyInput { vk_code, key_down }
}

/// All steps are single key events, and these events are `events`.
pub open spec fn steps_are_events(steps: Seq<InputStep>, events: Seq<KeyInput>) -> bool {
    &&& steps.len() == events.len()
    &&& forall|i: int| 0 <= i < steps.len() ==> #[trigger] steps[i]@ == StepView::Key(events[i])
}

/// The script that types a shortcut expression: each combination's keys go down in
/// order and come up in reverse order.
pub fn for_shortcut(text: String, layout: &CharKeys) -> (r: InputScript)
    ensures
        steps_are_events(r.steps@, shortcut_events(parse_spec(text@, layout.entries@))),
{
    let combos = parse_shortcut_expression(text.as_str(), layout);
    let ghost cv = combos_view(combos@);
    let mut steps: Vec<InputStep> = Vec::new();
    let mut i: usize = 0;
    while i < combos.len()
        invariant
            i <= combos@.len(),
            cv == combos_view(combos@),
            steps_are_events(steps@, shortcut_events(cv.take(i as int))),
        decreases combos.len() - i,
    {
        assert(cv.take(i + 1).drop_last() =~= cv.take(i as int));
        let keys = &combos[i].keys;
        let ghost ks = keys@;
        assert(cv.take(i + 1).last() == ks);
        let ghost base = shortcut_events(cv.take(i as int));
        let mut j: usize = 0;
        while j < keys.len()
            invariant
                j <= keys@.len(),
                ks == keys@,
                steps_are_events(steps@, base + presses(ks.take(j as int))),
            decreases keys.len() - j,
        {
            steps.push(InputStep::Key(map_vk_code(keys[j], true)));
            j = j + 1;
            assert(base + presses(ks.take(j as int)) =~= (base + presses(ks.take(j - 1))).push(
                KeyInput { vk_code: ks[j - 1], key_down: true },
            ));
        }
        assert(ks.take(ks.len() as int) =~= ks);
        let ghost mid = base + presses(ks);
        let mut k: usize = keys.len();
        while k > 0
            invariant
                k <= keys@.len(),
                ks == keys@,
                steps_are_events(steps@, mid + releases(ks.skip(k as int))),
            decreases k,
        {
            k = k - 1;
            steps.push(InputStep::Key(map_vk_code(keys[k], false)));
            assert(mid + releases(ks.skip(k as int)) =~= (mid + releases(ks.skip(k + 1))).push(
                KeyInput { vk_code: ks[k as int], key_down: false },
            ));
        }
        assert(ks.skip(0) =~= ks);
        i = i + 1;
    }
    assert(cv.take(combos.len() as int) =~= cv);
    InputScript { steps }
}

/// The script that waits `pause` milliseconds.
pub fn for_pause(pause: u64) -> (r: InputScript)
    ensures
        r.steps@.len() == 1,
        r.steps@[0]@ == StepView::Pause(pause),
{
    InputScript { steps: vec![InputStep::Pause(NoInput { pause })] }
}

/// Key events that type a key with modifiers: Ctrl, Shift and Alt go down (those
/// held), the key goes down and up, then the modifiers come up in reverse order.
pub open spec fn character_events(vk_code: u16, m: ModifierState) -> Seq<KeyInput> {
    (if m.ctrl { seq![KeyInput { vk_code: VK_CTRL, key_down: true }] } else { Seq::empty() }) + (
    if m.shift {
        seq![KeyInput { vk_code: VK_SHIFT, key_down: true }]
    } else {
        Seq::empty()
    }) + (if m.alt { seq![KeyInput { vk_code: VK_ALT, key_down: true }] } else { Seq::empty() })
        + seq![KeyInput { vk_code, key_down: true }, KeyInput { vk_code, key_down: false }] + (
    if m.alt {
        seq![KeyInput { vk_code: VK_ALT, key_down: false }]
    } else {
        Seq::empty()
    }) + (if m.shift {
        seq![KeyInput { vk_code: VK_SHIFT, key_down: false }]
    } else {
        Seq::empty()
    }) + (if m.ctrl { seq![KeyInput { vk_code: VK_CTRL, key_down: false }] } else { Seq::empty() })
}

/// The key events that type `vk_code` with the given modifiers.
pub fn map_character_key(vk_code: u16, modifiers: &ModifierState) -> (r: Vec<KeyInput>)
    ensures
        r@ == character_events(vk_code, *modifiers),
{
    let mut inputs: Vec<KeyInput> = Vec::new();
    if modifiers.ctrl {
        inputs.push(KeyInput { vk_code: VK_CTRL, key_down: true });
    }
    if modifiers.shift {
        inputs.push(KeyInput { vk_code: VK_SHIFT, key_down: true });
    }
    if modifiers.alt {
        inputs.push(KeyInput { vk_code: VK_ALT, key_down: true });
    }
    inputs.push(KeyInput { vk_code, key_down: true });
    inputs.push(KeyInput { vk_code, key_down: false });
    if modifiers.alt {
        inputs.push(KeyInput { vk_code: VK_ALT, key_down: false });
    }
    if modifiers.shift {
        inputs.push(KeyInput { vk_code: VK_SHIFT, key_down: false });
    }
    if modifiers.ctrl {
        inputs.push(KeyInput { vk_code: VK_CTRL, key_down: false });
    }
    assert(inputs@ =~= character_events(vk_code, *modifiers));
    inputs
}

/// The steps typing the characters of `chars`: one group of key events for each
/// character the layout can type, characters it cannot type skipped.
pub open spec fn text_steps(chars: Seq<char>, layout: Seq<CharKey>) -> Seq<StepView>
    decreases chars.len(),
{
    if chars.len() == 0 {
        Seq::empty()
    } else {
        text_steps(chars.drop_last(), layout) + match lookup_char(layout, chars.last()) {
            Some((vk, m)) => seq![StepView::Keys(character_events(vk, m))],
            None => Seq::empty(),
        }
    }
}

/// The steps of typing `text`, followed by Enter when `new_line` holds.
pub open spec fn text_or_line_steps(text: Seq<char>, new_line: bool, layout: Seq<CharKey>) -> Seq<
    StepView,
> {
    text_steps(text, layout) + if new_line {
        seq![StepView::Keys(character_events(VK_ENTER, ModifierState::none()))]
    } else {
        Seq::empty()
    }
}

/// The views of the steps.
pub open spec fn steps_view(steps: Seq<InputStep>) -> Seq<StepView> {
    steps.map_values(|s: InputStep| s@)
}

/// The script that types `text`, followed by Enter when `new_line` holds.
pub fn for_text_or_line(text: String, new_line: bool, layout: &CharKeys) -> (r: InputScript)
    ensures
        steps_view(r.steps@) == text_or_line_steps(text@, new_line, layout.entries@),
{
    let chars = string_chars(&text);
    let mut steps: Vec<InputStep> = Vec::new();
    let mut i: usize = 0;
    while i < chars.len()
        invariant
            i <= chars@.len(),
            chars@ == text@,
            steps_view(steps@) == text_steps(chars@.take(i as int), layout.entries@),
        decreases chars.len() - i,
    {
        assert(chars@.take(i + 1).drop_last() =~= chars@.take(i as int));
        assert(chars@.take(i + 1).last() == chars@[i as int]);
        let ghost before = steps_view(steps@);
        match layout.char_to_vkey(chars[i]) {
            Some((vk_code, modifiers)) => {
                let inputs = map_character_key(vk_code, &modifiers);
                steps.push(InputStep::Keys(KeyInputs { inputs }));
                assert(steps_view(steps@) =~= before + seq![
                    StepView::Keys(character_events(vk_code, modifiers)),
                ]);
            },
            None => {
                assert(before + Seq::<StepView>::empty() =~= before);
            },
        }
        i = i + 1;
    }
    assert(chars@.take(chars.len() as int) =~= chars@);
    let ghost typed = steps_view(steps@);
    if new_line {
        let enter_inputs = map_character_key(VK_ENTER, &ModifierState::default());
        steps.push(InputStep::Keys(KeyInputs { inputs: enter_inputs }));
        assert(steps_view(steps@) =~= typed + seq![
            StepView::Keys(character_events(VK_ENTER, ModifierState::none())),
        ]);
    } else {
        assert(typed + Seq::<StepView>::empty() =~= typed);
    }
    InputScript { steps }
}

/// The script that types `text`.
pub fn for_text(text: String, layout: &CharKeys) -> (r: InputScript)
    ensures
        steps_view(r.steps@) == text_or_line_steps(text@, false, layout.entries@),
{
    for_text_or_line(text, false, layout)
}

/// The script that types `text` and then Enter.
pub fn for_line(text: String, layout: &CharKeys) -> (r: InputScript)
    ensures
        steps_view(r.steps@) == text_or_line_steps(text@, true, layout.entries@),
{
    for_text_or_line(text, true, layout)
}

} // verus!
