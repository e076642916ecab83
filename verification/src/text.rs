//! Character-sequence utilities shared by the parsers of the library.
//!
//! Strings are handled as sequences of `char`; each function states its
//! result over the spec functions below.
use vstd::prelude::*;

verus! {

/// `p` is a prefix of `s`.
pub open spec fn starts_with(s: Seq<char>, p: Seq<char>) -> bool {
    p.len() <= s.len() && s.subrange(0, p.len() as int) == p
}

/// `p` occurs somewhere inside `s`.
pub open spec fn contains_seq(s: Seq<char>, p: Seq<char>) -> bool {
    exists|i: int| 0 <= i && i + p.len() <= s.len() && #[trigger] s.subrange(i, i + p.len()) == p
}

/// Left-to-right replacement of every non-overlapping occurrence of `pat`.
pub open spec fn replace_all(s: Seq<char>, pat: Seq<char>, rep: Seq<char>) -> Seq<char>
    decreases s.len(),
{
    if s.len() == 0 {
        Seq::empty()
    } else if pat.len() > 0 && starts_with(s, pat) {
        rep + replace_all(s.skip(pat.len() as int), pat, rep)
    } else {
        seq![s[0]] + replace_all(s.skip(1), pat, rep)
    }
}

/// Replacing keeps a property that every character of `s` and of `rep` has.
pub proof fn lemma_replace_all_keeps(s: Seq<char>, pat: Seq<char>, rep: Seq<char>, p: spec_fn(char) -> bool)
    requires
        forall|i: int| 0 <= i < s.len() ==> p(#[trigger] s[i]),
        forall|i: int| 0 <= i < rep.len() ==> p(#[trigger] rep[i]),
    ensures
        forall|i: int| 0 <= i < replace_all(s, pat, rep).len() ==> p(#[trigger] replace_all(s, pat, rep)[i]),
    decreases s.len(),
{
    if s.len() == 0 {
    } else if pat.len() > 0 && starts_with(s, pat) {
        lemma_replace_all_keeps(s.skip(pat.len() as int), pat, rep, p);
        let t = replace_all(s.skip(pat.len() as int), pat, rep);
        assert forall|i: int| 0 <= i < (rep + t).len() implies p(#[trigger] (rep + t)[i]) by {
            if i >= rep.len() {
                assert((rep + t)[i] == t[i - rep.len()]);
            }
        }
    } else {
        lemma_replace_all_keeps(s.skip(1), pat, rep, p);
        let t = replace_all(s.skip(1), pat, rep);
        assert forall|i: int| 0 <= i < (seq![s[0]] + t).len() implies p(#[trigger] (seq![s[0]] + t)[i]) by {
            if i >= 1 {
                assert((seq![s[0]] + t)[i] == t[i - 1]);
            }
        }
    }
}

/// Replacing every `c` by a text without `c` leaves no `c`.
pub proof fn lemma_replace_all_removes(s: Seq<char>, c: char, rep: Seq<char>)
    requires
        forall|i: int| 0 <= i < rep.len() ==> #[trigger] rep[i] != c,
    ensures
        forall|i: int| 0 <= i < replace_all(s, seq![c], rep).len() ==> #[trigger] replace_all(s, seq![c], rep)[i] != c,
    decreases s.len(),
{
    if s.len() == 0 {
    } else if starts_with(s, seq![c]) {
        lemma_replace_all_removes(s.skip(1), c, rep);
        let t = replace_all(s.skip(1), seq![c], rep);
        assert forall|i: int| 0 <= i < (rep + t).len() implies #[trigger] (rep + t)[i] != c by {
            if i >= rep.len() {
                assert((rep + t)[i] == t[i - rep.len()]);
            }
        }
    } else {
        assert(s.subrange(0, 1) =~= seq![s[0]]);
        lemma_replace_all_removes(s.skip(1), c, rep);
        let t = replace_all(s.skip(1), seq![c], rep);
        assert forall|i: int| 0 <= i < (seq![s[0]] + t).len() implies #[trigger] (seq![s[0]] + t)[i] != c by {
            if i >= 1 {
                assert((seq![s[0]] + t)[i] == t[i - 1]);
            }
        }
    }
}

/// The pieces of `s` between occurrences of `sep`, where `cur` is the start of the
/// first piece.
pub open spec fn split_from(cur: Seq<char>, s: Seq<char>, sep: char) -> Seq<Seq<char>>
    decreases s.len(),
{
    if s.len() == 0 {
        seq![cur]
    } else if s[0] == sep {
        seq![cur] + split_from(Seq::empty(), s.skip(1), sep)
    } else {
        split_from(cur.push(s[0]), s.skip(1), sep)
    }
}

/// The pieces of `s` between occurrences of `sep`, empty pieces included.
pub open spec fn split_on(s: Seq<char>, sep: char) -> Seq<Seq<char>> {
    split_from(Seq::empty(), s, sep)
}

/// The non-empty pieces of `s` between occurrences of `sep`.
pub open spec fn words_on(s: Seq<char>, sep: char) -> Seq<Seq<char>> {
    split_on(s, sep).filter(|w: Seq<char>| w.len() > 0)
}

/// The characters for which `char::is_whitespace` holds (the Unicode White_Space
/// property).
pub open spec fn is_white(c: char) -> bool {
    ||| ('\u{9}' <= c && c <= '\u{d}')
    ||| c == ' '
    ||| c == '\u{85}'
    ||| c == '\u{a0}'
    ||| c == '\u{1680}'
    ||| ('\u{2000}' <= c && c <= '\u{200a}')
    ||| c == '\u{2028}'
    ||| c == '\u{2029}'
    ||| c == '\u{202f}'
    ||| c == '\u{205f}'
    ||| c == '\u{3000}'
}

/// `s` without leading white space.
pub open spec fn trim_start(s: Seq<char>) -> Seq<char>
    decreases s.len(),
{
    if s.len() > 0 && is_white(s[0]) {
        trim_start(s.skip(1))
    } else {
        s
    }
}

/// `s` without trailing white space.
pub open spec fn trim_end(s: Seq<char>) -> Seq<char>
    decreases s.len(),
{
    if s.len() > 0 && is_white(s.last()) {
        trim_end(s.drop_last())
    } else {
        s
    }
}

/// `s` without leading and trailing white space.
pub open spec fn trim(s: Seq<char>) -> Seq<char> {
    trim_end(trim_start(s))
}

/// ASCII lower case of one character.
pub open spec fn ascii_lower(c: char) -> char {
    if 'A' <= c && c <= 'Z' {
        ((c as u32) + 32) as char
    } else {
        c
    }
}

/// ASCII upper case of one character.
pub open spec fn ascii_upper(c: char) -> char {
    if 'a' <= c && c <= 'z' {
        ((c as u32) - 32) as char
    } else {
        c
    }
}

/// The result of `str::to_lowercase` on a string whose characters are `s`.
pub uninterp spec fn lowercase_of(s: Seq<char>) -> Seq<char>;

/// The result of `str::to_uppercase` on a string whose characters are `s`.
pub uninterp spec fn uppercase_of(s: Seq<char>) -> Seq<char>;

/// Calls `str::to_lowercase`; its result is the Unicode lower case of `s`,
/// named `lowercase_of`. Of ASCII text it is the ASCII lower case, one character
/// for one, as Unicode's case mapping gives it. Of any text, no ASCII capital
/// letter is left: the mapping turns each capital into its small letter and maps
/// no character to a capital. What the mapping is otherwise for non-ASCII
/// characters is left to the name.
#[verifier::external_body]
pub(crate) fn to_lowercase(s: &str) -> (r: String)
    ensures
        r@ == lowercase_of(s@),
        vstd::utf8::is_ascii_chars(s@) ==> r@ == s@.map_values(|c: char| ascii_lower(c)),
        forall|i: int| 0 <= i < r@.len() ==> !('A' <= #[trigger] r@[i] <= 'Z'),
{
    s.to_lowercase()
}

/// Calls `str::to_uppercase`; its result is the Unicode upper case of `s`,
/// named `uppercase_of`.
#[verifier::external_body]
pub(crate) fn to_uppercase(s: &str) -> (r: String)
    ensures
        r@ == uppercase_of(s@),
{
    s.to_uppercase()
}

/// Calls `String::from_iter` on the characters of `v`: the string holds exactly
/// these characters, in order.
#[verifier::external_body]
pub(crate) fn string_from_chars(v: &Vec<char>) -> (r: String)
    ensures
        r@ == v@,
{
    String::from_iter(v.iter())
}

/// The characters of `s`, in order.
pub fn chars_of(s: &str) -> (r: Vec<char>)
    ensures
        r@ == s@,
{
    let n = s.unicode_len();
    let mut out: Vec<char> = Vec::new();
    let mut i: usize = 0;
    while i < n
        invariant
            n == s@.len(),
            i <= n,
            out@ == s@.subrange(0, i as int),
        decreases n - i,
    {
        let c = s.get_char(i);
        out.push(c);
        i = i + 1;
        assert(out@ =~= s@.subrange(0, i as int));
    }
    assert(out@ =~= s@);
    out
}

/// The characters of a `String`, in order.
pub fn string_chars(s: &String) -> (r: Vec<char>)
    ensures
        r@ == s@,
{
    chars_of(s.as_str())
}

/// Copy of a string literal or slice as an owned `String`.
pub fn owned(s: &str) -> (r: String)
    ensures
        r@ == s@,
{
    s.to_owned()
}

/// Equality of two character sequences.
pub fn chars_eq(a: &Vec<char>, b: &Vec<char>) -> (r: bool)
    ensures
        r == (a@ == b@),
{
    if a.len() != b.len() {
        return false;
    }
    let mut i: usize = 0;
    while i < a.len()
        invariant
            a.len() == b.len(),
            i <= a.len(),
            forall|j: int| 0 <= j < i ==> a@[j] == b@[j],
        decreases a.len() - i,
    {
        if a[i] != b[i] {
            return false;
        }
        i = i + 1;
    }
    assert(a@ =~= b@);
    true
}

/// Equality of two string slices.
pub fn str_eq(a: &str, b: &str) -> (r: bool)
    ensures
        r == (a@ == b@),
{
    let ca = chars_of(a);
    let cb = chars_of(b);
    chars_eq(&ca, &cb)
}

/// Appends all characters of `src` to `out`.
pub fn append_chars(out: &mut Vec<char>, src: &Vec<char>)
    ensures
        final(out)@ == old(out)@ + src@,
{
    let ghost start = out@;
    let mut i: usize = 0;
    while i < src.len()
        invariant
            i <= src.len(),
            out@ == start + src@.subrange(0, i as int),
        decreases src.len() - i,
    {
        out.push(src[i]);
        i = i + 1;
        assert(out@ =~= start + src@.subrange(0, i as int));
    }
    assert(src@.subrange(0, src@.len() as int) =~= src@);
}

/// Concatenation of two strings.
pub fn concat(a: &str, b: &str) -> (r: String)
    ensures
        r@ == a@ + b@,
{
    let mut v = chars_of(a);
    let w = chars_of(b);
    append_chars(&mut v, &w);
    string_from_chars(&v)
}

/// Concatenation of three strings.
pub fn concat3(a: &str, b: &str, c: &str) -> (r: String)
    ensures
        r@ == a@ + b@ + c@,
{
    let ab = concat(a, b);
    concat(ab.as_str(), c)
}

/// Whether `pat` occurs in `s` starting at position `i`.
pub fn matches_at(s: &Vec<char>, pat: &Vec<char>, i: usize) -> (r: bool)
    requires
        i <= s.len(),
    ensures
        r == starts_with(s@.skip(i as int), pat@),
{
    if pat.len() > s.len() - i {
        return false;
    }
    let mut j: usize = 0;
    while j < pat.len()
        invariant
            i <= s.len(),
            pat.len() <= s.len() - i,
            j <= pat.len(),
            forall|k: int| 0 <= k < j ==> s@[i + k] == pat@[k],
        decreases pat.len() - j,
    {
        if s[i + j] != pat[j] {
            assert(s@.skip(i as int).subrange(0, pat@.len() as int)[j as int] != pat@[j as int]);
            return false;
        }
        j = j + 1;
    }
    assert(s@.skip(i as int).subrange(0, pat@.len() as int) =~= pat@);
    true
}

/// Whether `pat` occurs in `s`.
pub fn contains_chars(s: &Vec<char>, pat: &Vec<char>) -> (r: bool)
    ensures
        r == contains_seq(s@, pat@),
{
    if pat.len() > s.len() {
        return false;
    }
    if pat.len() == 0 {
        assert(s@.subrange(0, 0int + pat@.len()) =~= pat@);
        return true;
    }
    let last = s.len() - pat.len();
    let mut i: usize = 0;
    while i <= last
        invariant
            last == s.len() - pat.len(),
            pat.len() > 0,
            i <= last + 1,
            forall|k: int|
                0 <= k < i && k + pat@.len() <= s@.len() ==> #[trigger] s@.subrange(k, k + pat@.len())
                    != pat@,
        decreases last + 1 - i,
    {
        assert(s@.subrange(i as int, i + pat@.len()) =~= s@.skip(i as int).subrange(
            0,
            pat@.len() as int,
        ));
        if matches_at(s, pat, i) {
            return true;
        }
        i = i + 1;
    }
    false
}

proof fn lemma_replace_step(s: Seq<char>, i: int, pat: Seq<char>, rep: Seq<char>)
    requires
        0 <= i < s.len(),
        pat.len() > 0,
    ensures
        starts_with(s.skip(i), pat) ==> replace_all(s.skip(i), pat, rep) == rep + replace_all(
            s.skip(i + pat.len()),
            pat,
            rep,
        ),
        !starts_with(s.skip(i), pat) ==> replace_all(s.skip(i), pat, rep) == seq![s[i]]
            + replace_all(s.skip(i + 1), pat, rep),
{
    if starts_with(s.skip(i), pat) {
        assert(s.skip(i).skip(pat.len() as int) =~= s.skip(i + pat.len()));
    } else {
        assert(s.skip(i).skip(1) =~= s.skip(i + 1));
    }
}

/// Replaces every occurrence of `pat` in `s` by `rep`, as `str::replace` does.
pub fn replace_chars(s: &Vec<char>, pat: &Vec<char>, rep: &Vec<char>) -> (r: Vec<char>)
    requires
        pat.len() > 0,
    ensures
        r@ == replace_all(s@, pat@, rep@),
{
    let mut out: Vec<char> = Vec::new();
    let mut i: usize = 0;
    assert(s@.skip(0) =~= s@);
    while i < s.len()
        invariant
            i <= s.len(),
            pat.len() > 0,
            out@ + replace_all(s@.skip(i as int), pat@, rep@) == replace_all(s@, pat@, rep@),
        decreases s.len() - i,
    {
        proof {
            lemma_replace_step(s@, i as int, pat@, rep@);
        }
        if matches_at(s, pat, i) {
            let ghost before = out@;
            append_chars(&mut out, rep);
            assert(before + (rep@ + replace_all(s@.skip(i + pat@.len()), pat@, rep@)) =~= out@
                + replace_all(s@.skip(i + pat@.len()), pat@, rep@));
            i = i + pat.len();
        } else {
            let ghost before = out@;
            out.push(s[i]);
            assert(before + (seq![s@[i as int]] + replace_all(s@.skip(i + 1), pat@, rep@))
                =~= out@ + replace_all(s@.skip(i + 1), pat@, rep@));
            i = i + 1;
        }
    }
    assert(s@.skip(i as int) =~= Seq::<char>::empty());
    assert(out@ + Seq::<char>::empty() =~= out@);
    out
}

proof fn lemma_split_end(cur: Seq<char>, s: Seq<char>, sep: char)
    requires
        s.len() == 0,
    ensures
        split_from(cur, s, sep) == seq![cur],
{
}

proof fn lemma_split_step(cur: Seq<char>, s: Seq<char>, i: int, sep: char)
    requires
        0 <= i < s.len(),
    ensures
        s[i] == sep ==> split_from(cur, s.skip(i), sep) == seq![cur] + split_from(
            Seq::empty(),
            s.skip(i + 1),
            sep,
        ),
        s[i] != sep ==> split_from(cur, s.skip(i), sep) == split_from(
            cur.push(s[i]),
            s.skip(i + 1),
            sep,
        ),
{
    assert(s.skip(i).skip(1) =~= s.skip(i + 1));
    assert(s.skip(i)[0] == s[i]);
}

/// Splits `s` at every occurrence of `sep`, as `str::split` with a character does.
pub fn split_chars(s: &Vec<char>, sep: char) -> (r: Vec<Vec<char>>)
    ensures
        r@.len() == split_on(s@, sep).len(),
        forall|k: int| 0 <= k < r@.len() ==> #[trigger] r@[k]@ == split_on(s@, sep)[k],
{
    let mut out: Vec<Vec<char>> = Vec::new();
    let ghost mut done: Seq<Seq<char>> = Seq::empty();
    let mut cur: Vec<char> = Vec::new();
    let mut i: usize = 0;
    assert(s@.skip(0) =~= s@);
    while i < s.len()
        invariant
            i <= s.len(),
            out@.len() == done.len(),
            forall|k: int| 0 <= k < out@.len() ==> #[trigger] out@[k]@ == done[k],
            done + split_from(cur@, s@.skip(i as int), sep) == split_on(s@, sep),
        decreases s.len() - i,
    {
        proof {
            lemma_split_step(cur@, s@, i as int, sep);
        }
        if s[i] == sep {
            let piece = cur;
            proof {
                assert(done.push(piece@) + split_from(Seq::empty(), s@.skip(i + 1), sep) =~= done
                    + (seq![piece@] + split_from(Seq::empty(), s@.skip(i + 1), sep)));
                done = done.push(piece@);
            }
            out.push(piece);
            cur = Vec::new();
        } else {
            cur.push(s[i]);
        }
        i = i + 1;
    }
    proof {
        lemma_split_end(cur@, s@.skip(i as int), sep);
        assert(done.push(cur@) =~= done + seq![cur@]);
        done = done.push(cur@);
    }
    out.push(cur);
    out
}

/// The non-empty pieces of `s` between occurrences of `sep`, as
/// `str::split(sep)` followed by dropping the empty pieces.
pub fn words_of(s: &Vec<char>, sep: char) -> (r: Vec<Vec<char>>)
    ensures
        r@.len() == words_on(s@, sep).len(),
        forall|k: int| 0 <= k < r@.len() ==> #[trigger] r@[k]@ == words_on(s@, sep)[k],
{
    let pieces = split_chars(s, sep);
    let ghost all = split_on(s@, sep);
    let ghost pred = |w: Seq<char>| w.len() > 0;
    let mut out: Vec<Vec<char>> = Vec::new();
    let mut i: usize = 0;
    proof {
        reveal_with_fuel(Seq::<_>::filter, 1);
        assert(all.take(0) =~= Seq::<Seq<char>>::empty());
    }
    while i < pieces.len()
        invariant
            i <= pieces.len(),
            pieces@.len() == all.len(),
            forall|k: int| 0 <= k < pieces@.len() ==> #[trigger] pieces@[k]@ == all[k],
            pred == (|w: Seq<char>| w.len() > 0),
            out@.len() == all.take(i as int).filter(pred).len(),
            forall|k: int|
                0 <= k < out@.len() ==> #[trigger] out@[k]@ == all.take(i as int).filter(pred)[k],
        decreases pieces.len() - i,
    {
        proof {
            assert(all.take(i + 1) =~= all.take(i as int).push(all[i as int]));
            all.take(i as int).lemma_filter_push(all[i as int], pred);
        }
        if pieces[i].len() > 0 {
            out.push(pieces[i].clone());
        }
        i = i + 1;
    }
    assert(all.take(i as int) =~= all);
    out
}

/// Whether `c` is white space in the sense of `char::is_whitespace`.
pub fn is_whitespace(c: char) -> (r: bool)
    ensures
        r == is_white(c),
{
    ('\u{9}' <= c && c <= '\u{d}') || c == ' ' || c == '\u{85}' || c == '\u{a0}' || c
        == '\u{1680}' || ('\u{2000}' <= c && c <= '\u{200a}') || c == '\u{2028}' || c
        == '\u{2029}' || c == '\u{202f}' || c == '\u{205f}' || c == '\u{3000}'
}

proof fn lemma_trim_start_skip(s: Seq<char>, i: int)
    requires
        0 <= i <= s.len(),
        forall|k: int| 0 <= k < i ==> is_white(s[k]),
    ensures
        trim_start(s) == trim_start(s.skip(i)),
    decreases i,
{
    if i > 0 {
        lemma_trim_start_skip(s, i - 1);
        assert(s.skip(i - 1).skip(1) =~= s.skip(i));
        assert(s.skip(i - 1)[0] == s[i - 1]);
    } else {
        assert(s.skip(0) =~= s);
    }
}

proof fn lemma_trim_end_take(s: Seq<char>, j: int)
    requires
        0 <= j <= s.len(),
        forall|k: int| j <= k < s.len() ==> is_white(s[k]),
    ensures
        trim_end(s) == trim_end(s.take(j)),
    decreases s.len() - j,
{
    if j < s.len() {
        lemma_trim_end_take(s, j + 1);
        assert(s.take(j + 1).drop_last() =~= s.take(j));
        assert(s.take(j + 1).last() == s[j]);
    } else {
        assert(s.take(j) =~= s);
    }
}

/// `s` without leading and trailing white space, as `str::trim` does.
pub fn trim_chars(s: &Vec<char>) -> (r: Vec<char>)
    ensures
        r@ == trim(s@),
{
    let mut i: usize = 0;
    while i < s.len() && is_whitespace(s[i])
        invariant
            i <= s.len(),
            forall|k: int| 0 <= k < i ==> is_white(s@[k]),
        decreases s.len() - i,
    {
        i = i + 1;
    }
    proof {
        lemma_trim_start_skip(s@, i as int);
    }
    let ghost t = s@.skip(i as int);
    let mut j: usize = s.len();
    while j > i && is_whitespace(s[j - 1])
        invariant
            i <= j <= s.len(),
            t == s@.skip(i as int),
            forall|k: int| j <= k < s@.len() ==> is_white(s@[k]),
        decreases j,
    {
        j = j - 1;
    }
    proof {
        if i < s@.len() {
            assert(!is_white(s@[i as int]));
            assert(trim_start(t) == t);
        } else {
            assert(t.len() == 0);
        }
        lemma_trim_end_take(t, (j - i) as int);
    }
    let mut out: Vec<char> = Vec::new();
    let mut k: usize = i;
    while k < j
        invariant
            i <= k <= j <= s.len(),
            out@ == s@.subrange(i as int, k as int),
        decreases j - k,
    {
        out.push(s[k]);
        k = k + 1;
        assert(out@ =~= s@.subrange(i as int, k as int));
    }
    assert(t.take((j - i) as int) =~= s@.subrange(i as int, j as int));
    out
}

/// `s` without leading and trailing white space, as `str::trim` does.
pub fn trim_str(s: &str) -> (r: String)
    ensures
        r@ == trim(s@),
{
    let v = chars_of(s);
    let t = trim_chars(&v);
    string_from_chars(&t)
}

/// ASCII lower case of one character, as `char::to_ascii_lowercase` does.
pub fn char_ascii_lower(c: char) -> (r: char)
    ensures
        r == ascii_lower(c),
{
    if 'A' <= c && c <= 'Z' {
        let n = (c as u32) + 32;
        char_from_ascii(n)
    } else {
        c
    }
}

/// ASCII upper case of one character, as `char::to_ascii_uppercase` does.
pub fn char_ascii_upper(c: char) -> (r: char)
    ensures
        r == ascii_upper(c),
{
    if 'a' <= c && c <= 'z' {
        let n = (c as u32) - 32;
        char_from_ascii(n)
    } else {
        c
    }
}

/// Calls `char::from_u32` on an ASCII code, which always yields that character.
#[verifier::external_body]
pub(crate) fn char_from_ascii(n: u32) -> (r: char)
    requires
        n < 128,
    ensures
        r == n as char,
{
    char::from_u32(n).unwrap()
}

/// The pieces joined with `sep` between consecutive pieces, as `slice::join` does.
pub open spec fn join(parts: Seq<Seq<char>>, sep: Seq<char>) -> Seq<char>
    decreases parts.len(),
{
    if parts.len() == 0 {
        Seq::empty()
    } else if parts.len() == 1 {
        parts[0]
    } else {
        join(parts.drop_last(), sep) + sep + parts.last()
    }
}

/// Splitting always gives at least one piece.
pub proof fn lemma_split_from_nonempty(cur: Seq<char>, s: Seq<char>, sep: char)
    ensures
        split_from(cur, s, sep).len() >= 1,
    decreases s.len(),
{
    if s.len() == 0 {
    } else if s[0] == sep {
        lemma_split_from_nonempty(Seq::empty(), s.skip(1), sep);
    } else {
        lemma_split_from_nonempty(cur.push(s[0]), s.skip(1), sep);
    }
}

/// Joining a piece in front of at least one other piece puts `sep` between them.
pub proof fn lemma_join_prepend(a: Seq<char>, rest: Seq<Seq<char>>, sep: Seq<char>)
    requires
        rest.len() >= 1,
    ensures
        join(seq![a] + rest, sep) == a + sep + join(rest, sep),
    decreases rest.len(),
{
    let all = seq![a] + rest;
    assert(all.len() >= 2);
    assert(all.last() == rest.last());
    assert(join(all, sep) == join(all.drop_last(), sep) + sep + all.last());
    if rest.len() == 1 {
        assert(all.drop_last() =~= seq![a]);
        assert(join(rest, sep) == rest[0]);
        assert(join(seq![a], sep) == a);
    } else {
        assert(all.drop_last() =~= seq![a] + rest.drop_last());
        lemma_join_prepend(a, rest.drop_last(), sep);
        assert(join(rest, sep) == join(rest.drop_last(), sep) + sep + rest.last());
        assert(a + sep + join(rest.drop_last(), sep) + sep + rest.last() =~= a + sep + (join(
            rest.drop_last(),
            sep,
        ) + sep + rest.last()));
    }
}

/// Joining the pieces of a split with the separator gives the text back, after
/// the start `cur` of the first piece.
pub proof fn lemma_join_split_from(cur: Seq<char>, s: Seq<char>, sep: char)
    ensures
        join(split_from(cur, s, sep), seq![sep]) == cur + s,
    decreases s.len(),
{
    if s.len() == 0 {
        assert(cur + s =~= cur);
    } else if s[0] == sep {
        let rest = split_from(Seq::empty(), s.skip(1), sep);
        lemma_split_from_nonempty(Seq::empty(), s.skip(1), sep);
        lemma_join_split_from(Seq::empty(), s.skip(1), sep);
        lemma_join_prepend(cur, rest, seq![sep]);
        assert(Seq::<char>::empty() + s.skip(1) =~= s.skip(1));
        assert(cur + seq![sep] + s.skip(1) =~= cur + s);
    } else {
        lemma_join_split_from(cur.push(s[0]), s.skip(1), sep);
        assert(cur.push(s[0]) + s.skip(1) =~= cur + s);
    }
}

/// Joining the pieces of a split with the separator gives the text back.
pub proof fn lemma_join_split(s: Seq<char>, sep: char)
    ensures
        join(split_on(s, sep), seq![sep]) == s,
{
    lemma_join_split_from(Seq::empty(), s, sep);
    assert(Seq::<char>::empty() + s =~= s);
}

/// Joins the pieces with `sep` between consecutive pieces.
pub fn join_chars(parts: &Vec<Vec<char>>, sep: &Vec<char>) -> (r: Vec<char>)
    ensures
        r@ == join(parts@.map_values(|p: Vec<char>| p@), sep@),
{
    let ghost all = parts@.map_values(|p: Vec<char>| p@);
    let mut out: Vec<char> = Vec::new();
    let mut i: usize = 0;
    while i < parts.len()
        invariant
            i <= parts.len(),
            all == parts@.map_values(|p: Vec<char>| p@),
            out@ == join(all.take(i as int), sep@),
        decreases parts.len() - i,
    {
        assert(all.take(i + 1).drop_last() =~= all.take(i as int));
        if i > 0 {
            append_chars(&mut out, sep);
        }
        append_chars(&mut out, &parts[i]);
        i = i + 1;
        proof {
            if i == 1 {
                assert(out@ =~= join(all.take(1), sep@));
            }
        }
    }
    assert(all.take(parts.len() as int) =~= all);
    out
}

/// Joins the strings with `sep` between consecutive strings.
pub fn join_strings(parts: &Vec<String>, sep: &str) -> (r: String)
    ensures
        r@ == join(parts@.map_values(|p: String| p@), sep@),
{
    let mut v: Vec<Vec<char>> = Vec::new();
    let mut i: usize = 0;
    while i < parts.len()
        invariant
            i <= parts.len(),
            v@.len() == i,
            forall|k: int| 0 <= k < i ==> #[trigger] v@[k]@ == parts@[k]@,
        decreases parts.len() - i,
    {
        let c = string_chars(&parts[i]);
        v.push(c);
        i = i + 1;
    }
    assert(v@.map_values(|p: Vec<char>| p@) =~= parts@.map_values(|p: String| p@));
    let sepv = chars_of(sep);
    let r = join_chars(&v, &sepv);
    string_from_chars(&r)
}


/// The decimal digits of `n`, without leading zeros.
pub open spec fn decimal(n: nat) -> Seq<char>
    decreases n,
{
    if n < 10 {
        seq![(48 + n) as char]
    } else {
        decimal(n / 10).push((48 + n % 10) as char)
    }
}

/// Appends the decimal digits of `n`.
pub fn push_decimal(out: &mut Vec<char>, n: u64)
    ensures
        final(out)@ == old(out)@ + decimal(n as nat),
    decreases n,
{
    if n >= 10 {
        push_decimal(out, n / 10);
    }
    let d = char_from_ascii((48 + n % 10) as u32);
    out.push(d);
    assert(final(out)@ =~= old(out)@ + decimal(n as nat));
}

/// The decimal text of `n`, as `n.to_string()` gives it.
pub fn decimal_string(n: u64) -> (r: String)
    ensures
        r@ == decimal(n as nat),
{
    let mut v: Vec<char> = Vec::new();
    push_decimal(&mut v, n);
    assert(v@ =~= decimal(n as nat));
    string_from_chars(&v)
}


/// `a` comes before `b` or equals it in the order of `String`: character by
/// character, a prefix first.
pub open spec fn str_le(a: Seq<char>, b: Seq<char>) -> bool
    decreases a.len(),
{
    if a.len() == 0 {
        true
    } else if b.len() == 0 {
        false
    } else if a[0] != b[0] {
        a[0] < b[0]
    } else {
        str_le(a.skip(1), b.skip(1))
    }
}

/// Of two texts, one comes before the other or equals it.
pub proof fn lemma_str_le_total(a: Seq<char>, b: Seq<char>)
    ensures
        str_le(a, b) || str_le(b, a),
    decreases a.len(),
{
    if a.len() > 0 && b.len() > 0 && a[0] == b[0] {
        lemma_str_le_total(a.skip(1), b.skip(1));
    }
}

/// Whether `a` comes before `b` or equals it in the order of `String`.
pub fn str_le_exec(a: &str, b: &str) -> (r: bool)
    ensures
        r == str_le(a@, b@),
{
    let ca = chars_of(a);
    let cb = chars_of(b);
    let mut i: usize = 0;
    assert(ca@.skip(0) =~= ca@);
    assert(cb@.skip(0) =~= cb@);
    while i < ca.len() && i < cb.len() && ca[i] == cb[i]
        invariant
            i <= ca@.len(),
            i <= cb@.len(),
            str_le(ca@.skip(i as int), cb@.skip(i as int)) == str_le(a@, b@),
            ca@ == a@,
            cb@ == b@,
        decreases ca.len() - i,
    {
        assert(ca@.skip(i as int).skip(1) =~= ca@.skip(i + 1));
        assert(cb@.skip(i as int).skip(1) =~= cb@.skip(i + 1));
        i = i + 1;
    }
    if i == ca.len() {
        true
    } else if i == cb.len() {
        false
    } else {
        ca[i] < cb[i]
    }
}

/// Each text comes before the next or equals it.
pub open spec fn sorted_strs(s: Seq<Seq<char>>) -> bool {
    forall|i: int, j: int| 0 <= i && j == i + 1 && j < s.len() ==> str_le(#[trigger] s[i], #[trigger] s[j])
}

/// The texts in the order of `String`.
pub fn sort_strings(v: Vec<String>) -> (r: Vec<String>)
    ensures
        sorted_strs(r@.map_values(|s: String| s@)),
        r@.map_values(|s: String| s@).to_multiset() == v@.map_values(|s: String| s@).to_multiset(),
{
    let ghost vv = v@.map_values(|s: String| s@);
    let mut out: Vec<String> = Vec::new();
    let mut i: usize = 0;
    assert(out@.map_values(|s: String| s@) =~= vv.take(0));
    while i < v.len()
        invariant
            i <= v@.len(),
            vv == v@.map_values(|s: String| s@),
            sorted_strs(out@.map_values(|s: String| s@)),
            out@.map_values(|s: String| s@).to_multiset() == vv.take(i as int).to_multiset(),
        decreases v.len() - i,
    {
        let x = v[i].clone();
        let ghost ov = out@.map_values(|s: String| s@);
        let mut p: usize = 0;
        while p < out.len() && str_le_exec(out[p].as_str(), x.as_str())
            invariant
                p <= out@.len(),
                ov == out@.map_values(|s: String| s@),
                forall|q: int| 0 <= q < p ==> str_le(#[trigger] ov[q], x@),
            decreases out.len() - p,
        {
            p = p + 1;
        }
        proof {
            if p < out@.len() {
                lemma_str_le_total(ov[p as int], x@);
            }
        }
        out.insert(p, x);
        proof {
            let nv = out@.map_values(|s: String| s@);
            assert(nv =~= ov.insert(p as int, x@));
            assert(x@ == vv[i as int]);
            assert(vv.take(i + 1) =~= vv.take(i as int).push(vv[i as int]));
            vstd::seq_lib::to_multiset_insert(ov, p as int, x@);
            vstd::seq_lib::to_multiset_build(vv.take(i as int), vv[i as int]);
            assert(ov.insert(p as int, x@).to_multiset() == ov.to_multiset().insert(x@));
            assert(vv.take(i as int).push(vv[i as int]).to_multiset() == vv.take(i as int).to_multiset().insert(
                vv[i as int],
            ));
            assert forall|a: int, b: int| 0 <= a && b == a + 1 && b < nv.len() implies str_le(
                #[trigger] nv[a],
                #[trigger] nv[b],
            ) by {
                if b < p {
                    assert(nv[a] == ov[a] && nv[b] == ov[b]);
                } else if b == p {
                    assert(nv[a] == ov[a]);
                } else if a == p {
                    assert(nv[b] == ov[a]);
                } else {
                    assert(nv[a] == ov[a - 1] && nv[b] == ov[b - 1]);
                }
            }
        }
        i = i + 1;
    }
    assert(vv.take(v.len() as int) =~= vv);
    out
}

} // verus!
