//! Named parameters, paths, actions and board kinds.
use vstd::prelude::*;
use crate::text::{
    chars_of, join, join_strings, lemma_join_split, lowercase_of, owned, split_chars, split_on, str_eq,
    string_chars, string_from_chars, to_lowercase, trim, trim_chars, trim_str,
};

verus! {

/// The separator between the parts of a path.
pub const PATH_SEPARATOR: char = '/';

/// A named parameter.
#[derive(Debug)]
pub struct Param {
    pub name: String,
    pub value: String,
}

impl Clone for Param {
    fn clone(&self) -> (r: Self)
        ensures
            r.name@ == self.name@,
            r.value@ == self.value@,
    {
        Param { name: self.name.clone(), value: self.value.clone() }
    }
}

/// A parameter as a pair of character sequences.
pub open spec fn param_view(p: Param) -> (Seq<char>, Seq<char>) {
    (p.name@, p.value@)
}

/// The parameters as pairs of character sequences.
pub open spec fn params_view(ps: Seq<Param>) -> Seq<(Seq<char>, Seq<char>)> {
    ps.map_values(|p: Param| param_view(p))
}

/// The value of the first parameter named `name`.
pub open spec fn find_param(ps: Seq<(Seq<char>, Seq<char>)>, name: Seq<char>) -> Option<Seq<char>>
    decreases ps.len(),
{
    if ps.len() == 0 {
        None
    } else if ps[0].0 == name {
        Some(ps[0].1)
    } else {
        find_param(ps.skip(1), name)
    }
}

/// The value of a string of decimal digits.
pub open spec fn digits_value(d: Seq<char>) -> int
    decreases d.len(),
{
    if d.len() == 0 {
        0
    } else {
        digits_value(d.drop_last()) * 10 + (d.last() as int - '0' as int)
    }
}

/// Every character is an ASCII digit.
pub open spec fn all_digits(d: Seq<char>) -> bool {
    forall|i: int| 0 <= i < d.len() ==> '0' <= #[trigger] d[i] && d[i] <= '9'
}

/// What `u64::from_str` accepts: an optional `+`, then at least one digit, with a
/// value that fits.
pub open spec fn parse_u64_spec(s: Seq<char>) -> Option<u64> {
    let d = if s.len() > 0 && s[0] == '+' { s.skip(1) } else { s };
    if d.len() > 0 && all_digits(d) && digits_value(d) <= u64::MAX {
        Some(digits_value(d) as u64)
    } else {
        None
    }
}

pub proof fn lemma_digits_nonneg(d: Seq<char>)
    requires
        all_digits(d),
    ensures
        digits_value(d) >= 0,
    decreases d.len(),
{
    if d.len() > 0 {
        assert(all_digits(d.drop_last()));
        lemma_digits_nonneg(d.drop_last());
    }
}

proof fn lemma_digits_grow(d: Seq<char>, k: int)
    requires
        all_digits(d),
        0 <= k <= d.len(),
    ensures
        digits_value(d.take(k)) <= digits_value(d),
    decreases d.len() - k,
{
    if k < d.len() {
        lemma_digits_grow(d, k + 1);
        assert(d.take(k + 1).drop_last() =~= d.take(k));
        assert(all_digits(d.take(k)));
        lemma_digits_nonneg(d.take(k));
    } else {
        assert(d.take(k) =~= d);
    }
}

/// Parses a decimal `u64` as `u64::from_str` does.
pub fn parse_u64(s: &str) -> (r: Option<u64>)
    ensures
        r == parse_u64_spec(s@),
{
    let c = chars_of(s);
    let start: usize = if c.len() > 0 && c[0] == '+' {
        1
    } else {
        0
    };
    let ghost d = if s@.len() > 0 && s@[0] == '+' { s@.skip(1) } else { s@ };
    assert(d =~= c@.skip(start as int));
    if c.len() == start {
        assert(d.len() == 0);
        return None;
    }
    let mut value: u64 = 0;
    let mut i: usize = start;
    while i < c.len()
        invariant
            start <= i <= c@.len(),
            d == c@.skip(start as int),
            c@ == s@,
            d == (if s@.len() > 0 && s@[0] == '+' { s@.skip(1) } else { s@ }),
            all_digits(d.take(i - start)),
            value as int == digits_value(d.take(i - start)),
        decreases c.len() - i,
    {
        let ch = c[i];
        assert(d.take(i + 1 - start).drop_last() =~= d.take(i - start));
        assert(d.take(i + 1 - start).last() == ch);
        if ch < '0' || ch > '9' {
            assert(!all_digits(d)) by {
                assert(d[(i - start) as int] == c@[i as int]);
            }
            return None;
        }
        let digit = (ch as u32 - '0' as u32) as u64;
        if value > (u64::MAX - digit) / 10 {
            proof {
                assert(value * 10 + digit > u64::MAX) by (nonlinear_arith)
                    requires
                        value > (u64::MAX - digit) / 10,
                        digit <= 9,
                ;
                assert(all_digits(d.take(i + 1 - start)));
                assert(digits_value(d.take(i + 1 - start)) == value * 10 + digit);
                if all_digits(d) {
                    lemma_digits_grow(d, i + 1 - start);
                }
            }
            return None;
        }
        proof {
            assert(value * 10 + digit <= u64::MAX) by (nonlinear_arith)
                requires
                    value <= (u64::MAX - digit) / 10,
                    digit <= 9,
            ;
        }
        value = value * 10 + digit;
        i = i + 1;
    }
    assert(d.take(c.len() - start) =~= d);
    Some(value)
}

/// The words that `Param` reads as true: "1", "true", "yes", "on", in any case.
pub open spec fn truthy(low: Seq<char>) -> bool {
    low == "1"@ || low == "true"@ || low == "yes"@ || low == "on"@
}

/// What `bool::from_str` accepts: exactly "true" or "false".
pub open spec fn parse_bool_spec(s: Seq<char>) -> Option<bool> {
    if s == "true"@ {
        Some(true)
    } else if s == "false"@ {
        Some(false)
    } else {
        None
    }
}

/// Parses a `bool` as `bool::from_str` does.
pub fn parse_bool(s: &str) -> (r: Option<bool>)
    ensures
        r == parse_bool_spec(s@),
{
    if str_eq(s, "true") {
        Some(true)
    } else if str_eq(s, "false") {
        Some(false)
    } else {
        None
    }
}

impl Param {
    /// A parameter with the given name and value.
    pub fn new(name: String, value: String) -> (r: Self)
        ensures
            r.name@ == name@,
            r.value@ == value@,
    {
        Self { name, value }
    }

    /// This parameter with its value made relative to `value_base`: the base's path
    /// parts are removed from the front of the value's path when they are its prefix.
    pub fn with_sub_value(&self, value_base: String) -> (r: Self)
        ensures
            r.name@ == self.name@,
            r.value@ == join(sub_path_spec(path_spec(self.value@), path_spec(value_base@)), "/"@),
    {
        let base = value_base.path();
        let sub = self.value.sub_path(base);
        Self { name: self.name.clone(), value: join_path(sub) }
    }

    /// The value read as a number: its decimal value, 0 when it is not one.
    pub fn into_u64(self) -> (r: u64)
        ensures
            r == match parse_u64_spec(self.value@) {
                Some(v) => v,
                None => 0,
            },
    {
        match parse_u64(self.value.as_str()) {
            Some(v) => v,
            None => 0,
        }
    }

    /// The value itself.
    pub fn into_string(self) -> (r: String)
        ensures
            r@ == self.value@,
    {
        self.value
    }

    /// The value read as a flag: true for "1", "true", "yes", "on" in any case.
    pub fn into_bool(self) -> (r: bool)
        ensures
            r == truthy(lowercase_of(self.value@)),
    {
        let low = to_lowercase(self.value.as_str());
        str_eq(low.as_str(), "1") || str_eq(low.as_str(), "true") || str_eq(low.as_str(), "yes")
            || str_eq(low.as_str(), "on")
    }
}

/// Things that carry named parameters.
pub trait Params {
    /// The parameters as pairs.
    spec fn params_spec(&self) -> Seq<(Seq<char>, Seq<char>)>;

    /// Where `get_param` looks: the parameters that can be asked for by name.
    spec fn lookup_spec(&self) -> Seq<(Seq<char>, Seq<char>)>;

    /// The parameter named `name`.
    fn get_param(&self, name: &str) -> (r: Option<Param>)
        ensures
            match r {
                Some(p) => p.name@ == name@ && find_param(self.lookup_spec(), name@) == Some(
                    p.value@,
                ),
                None => find_param(self.lookup_spec(), name@) is None,
            },
    ;

    /// All parameters.
    fn get_params(&self) -> (r: Vec<Param>)
        ensures
            params_view(r@) == self.params_spec(),
    ;

    /// The value of the parameter named `name`, read as a number.
    fn get_param_as_u64(&self, name: &str) -> (r: Option<u64>)
        ensures
            r == match find_param(self.lookup_spec(), name@) {
                Some(v) => parse_u64_spec(v),
                None => None,
            },
    {
        match self.get_param(name) {
            Some(p) => parse_u64(p.value.as_str()),
            None => None,
        }
    }

    /// The value of the parameter named `name`, read as `bool::from_str` reads it.
    fn get_param_as_bool(&self, name: &str) -> (r: Option<bool>)
        ensures
            r == match find_param(self.lookup_spec(), name@) {
                Some(v) => parse_bool_spec(v),
                None => None,
            },
    {
        match self.get_param(name) {
            Some(p) => parse_bool(p.value.as_str()),
            None => None,
        }
    }

    /// The value of the parameter named `name`.
    fn get_param_as_string(&self, name: &str) -> (r: Option<String>)
        ensures
            match r {
                Some(v) => find_param(self.lookup_spec(), name@) == Some(v@),
                None => find_param(self.lookup_spec(), name@) is None,
            },
    {
        match self.get_param(name) {
            Some(p) => Some(p.value),
            None => None,
        }
    }

    /// All parameters with `params` laid over them: a parameter whose name is
    /// already present replaces the value of the first one of that name, any other
    /// is appended.
    fn merge_params(&self, params: Vec<Param>) -> (r: Vec<Param>)
        ensures
            params_view(r@) == merge_spec(self.params_spec(), params_view(params@)),
    {
        let merged = self.get_params();
        merge_into(merged, params)
    }
}

/// `base` with `p` laid over it.
pub open spec fn overlay_one(base: Seq<(Seq<char>, Seq<char>)>, p: (Seq<char>, Seq<char>)) -> Seq<
    (Seq<char>, Seq<char>),
> {
    if exists|i: int| 0 <= i < base.len() && #[trigger] base[i].0 == p.0 {
        let i = choose|i: int|
            0 <= i < base.len() && #[trigger] base[i].0 == p.0 && forall|j: int|
                0 <= j < i ==> base[j].0 != p.0;
        base.update(i, (base[i].0, p.1))
    } else {
        base.push(p)
    }
}

/// `base` with the parameters of `over` laid over it one after the other.
pub open spec fn merge_spec(
    base: Seq<(Seq<char>, Seq<char>)>,
    over: Seq<(Seq<char>, Seq<char>)>,
) -> Seq<(Seq<char>, Seq<char>)>
    decreases over.len(),
{
    if over.len() == 0 {
        base
    } else {
        overlay_one(merge_spec(base, over.drop_last()), over.last())
    }
}

fn position_of(ps: &Vec<Param>, name: &String) -> (r: Option<usize>)
    ensures
        match r {
            Some(i) => i < ps@.len() && ps@[i as int].name@ == name@ && forall|j: int|
                0 <= j < i ==> ps@[j].name@ != name@,
            None => forall|j: int| 0 <= j < ps@.len() ==> ps@[j].name@ != name@,
        },
{
    let mut i: usize = 0;
    while i < ps.len()
        invariant
            i <= ps@.len(),
            forall|j: int| 0 <= j < i ==> ps@[j].name@ != name@,
        decreases ps.len() - i,
    {
        if ps[i].name == *name {
            return Some(i);
        }
        i = i + 1;
    }
    None
}

/// `merged` with `params` laid over it.
pub fn merge_into(merged: Vec<Param>, params: Vec<Param>) -> (r: Vec<Param>)
    ensures
        params_view(r@) == merge_spec(params_view(merged@), params_view(params@)),
{
    let mut merged = merged;
    let ghost base = params_view(merged@);
    let ghost over = params_view(params@);
    let mut i: usize = 0;
    while i < params.len()
        invariant
            i <= params@.len(),
            over == params_view(params@),
            params_view(merged@) == merge_spec(base, over.take(i as int)),
        decreases params.len() - i,
    {
        assert(over.take(i + 1).drop_last() =~= over.take(i as int));
        assert(over.take(i + 1).last() == param_view(params@[i as int]));
        let ghost cur = params_view(merged@);
        let p = params[i].clone();
        match position_of(&merged, &p.name) {
            Some(k) => {
                let existing_name = merged[k].name.clone();
                merged.set(k, Param { name: existing_name, value: p.value });
                proof {
                    assert(cur[k as int].0 == p.name@);
                    let c = choose|c: int|
                        0 <= c < cur.len() && #[trigger] cur[c].0 == p.name@ && forall|j: int|
                            0 <= j < c ==> cur[j].0 != p.name@;
                    if c < k {
                        assert(cur[c].0 != p.name@);
                    }
                    if k < c {
                        assert(cur[k as int].0 != p.name@);
                    }
                    assert(params_view(merged@) =~= cur.update(k as int, (cur[k as int].0, p.value@)));
                }
            },
            None => {
                merged.push(p);
                proof {
                    assert forall|j: int| 0 <= j < cur.len() implies #[trigger] cur[j].0 != p.name@ by {
                        assert(cur[j] == param_view(merged@[j]));
                    }
                    assert(params_view(merged@) =~= cur.push(param_view(params@[i as int])));
                }
            },
        }
        i = i + 1;
    }
    assert(over.take(params.len() as int) =~= over);
    merged
}

/// The first parameter named `name`.
pub fn find_param_in(ps: &Vec<Param>, name: &str) -> (r: Option<Param>)
    ensures
        match r {
            Some(p) => p.name@ == name@ && find_param(params_view(ps@), name@) == Some(p.value@),
            None => find_param(params_view(ps@), name@) is None,
        },
{
    let ghost all = params_view(ps@);
    let mut i: usize = 0;
    assert(all.skip(0) =~= all);
    while i < ps.len()
        invariant
            i <= ps@.len(),
            all == params_view(ps@),
            find_param(all.skip(i as int), name@) == find_param(all, name@),
        decreases ps.len() - i,
    {
        assert(all.skip(i as int).skip(1) =~= all.skip(i + 1));
        assert(all.skip(i as int)[0] == param_view(ps@[i as int]));
        if str_eq(ps[i].name.as_str(), name) {
            return Some(ps[i].clone());
        }
        i = i + 1;
    }
    None
}

impl Params for Vec<Param> {
    open spec fn params_spec(&self) -> Seq<(Seq<char>, Seq<char>)> {
        params_view(self@)
    }

    open spec fn lookup_spec(&self) -> Seq<(Seq<char>, Seq<char>)> {
        params_view(self@)
    }

    fn get_params(&self) -> (r: Vec<Param>) {
        clone_params(self)
    }

    fn get_param(&self, name: &str) -> (r: Option<Param>) {
        find_param_in(self, name)
    }
}

/// A copy of the parameters.
pub fn clone_params(ps: &Vec<Param>) -> (r: Vec<Param>)
    ensures
        params_view(r@) == params_view(ps@),
{
    let mut out: Vec<Param> = Vec::new();
    let mut i: usize = 0;
    while i < ps.len()
        invariant
            i <= ps@.len(),
            out@.len() == i,
            forall|k: int| 0 <= k < i ==> #[trigger] param_view(out@[k]) == param_view(ps@[k]),
        decreases ps.len() - i,
    {
        out.push(ps[i].clone());
        i = i + 1;
    }
    assert(params_view(out@) =~= params_view(ps@));
    out
}

/// The parts of a path: the trimmed text split at every `/`.
pub open spec fn path_spec(s: Seq<char>) -> Seq<Seq<char>> {
    split_on(trim(s), '/')
}

/// `p` without the leading parts `base`, when `base` is its prefix.
pub open spec fn sub_path_spec(p: Seq<Seq<char>>, base: Seq<Seq<char>>) -> Seq<Seq<char>> {
    if base.len() <= p.len() && p.take(base.len() as int) == base {
        p.skip(base.len() as int)
    } else {
        p
    }
}

/// The views of a list of strings.
pub open spec fn strings_view(v: Seq<String>) -> Seq<Seq<char>> {
    v.map_values(|s: String| s@)
}

/// Text that reads as a `/`-separated path.
pub trait PathString {
    /// The path's parts.
    spec fn path_view(&self) -> Seq<char>;

    /// The parts of the path.
    fn path(&self) -> (r: Vec<String>)
        ensures
            strings_view(r@) == path_spec(self.path_view()),
    ;

    /// The parts of the path after `base_path`, when `base_path` is its beginning;
    /// all parts otherwise.
    fn sub_path(&self, base_path: Vec<String>) -> (r: Vec<String>)
        ensures
            strings_view(r@) == sub_path_spec(path_spec(self.path_view()), strings_view(base_path@)),
    {
        let self_path = self.path();
        let ghost p = strings_view(self_path@);
        let ghost b = strings_view(base_path@);
        if base_path.len() <= self_path.len() {
            let mut i: usize = 0;
            let mut prefix = true;
            while i < base_path.len()
                invariant
                    i <= base_path@.len() <= self_path@.len(),
                    p == strings_view(self_path@),
                    b == strings_view(base_path@),
                    prefix == (forall|k: int| 0 <= k < i ==> p[k] == b[k]),
                decreases base_path.len() - i,
            {
                assert(p[i as int] == self_path@[i as int]@);
                assert(b[i as int] == base_path@[i as int]@);
                if !(self_path[i] == base_path[i]) {
                    prefix = false;
                }
                i = i + 1;
            }
            if prefix {
                assert(p.take(b.len() as int) =~= b);
                let mut out: Vec<String> = Vec::new();
                let mut k: usize = base_path.len();
                while k < self_path.len()
                    invariant
                        base_path@.len() <= k <= self_path@.len(),
                        p == strings_view(self_path@),
                        strings_view(out@) == p.subrange(base_path@.len() as int, k as int),
                    decreases self_path.len() - k,
                {
                    let ghost before = strings_view(out@);
                    out.push(self_path[k].clone());
                    assert(strings_view(out@) =~= before.push(p[k as int]));
                    k = k + 1;
                    assert(strings_view(out@) =~= p.subrange(base_path@.len() as int, k as int));
                }
                assert(p.skip(b.len() as int) =~= p.subrange(b.len() as int, p.len() as int));
                return out;
            } else {
                assert(p.take(b.len() as int) != b) by {
                    let k = choose|k: int| 0 <= k < b.len() && p[k] != b[k];
                    assert(p.take(b.len() as int)[k] != b[k]);
                }
            }
        }
        self_path
    }
}

impl PathString for String {
    open spec fn path_view(&self) -> Seq<char> {
        self@
    }

    fn path(&self) -> (r: Vec<String>) {
        let c = string_chars(self);
        let t = trim_chars(&c);
        let pieces = split_chars(&t, '/');
        let mut out: Vec<String> = Vec::new();
        let mut i: usize = 0;
        while i < pieces.len()
            invariant
                i <= pieces@.len(),
                pieces@.len() == split_on(trim(self@), '/').len(),
                forall|k: int|
                    0 <= k < pieces@.len() ==> #[trigger] pieces@[k]@ == split_on(trim(self@), '/')[k],
                out@.len() == i,
                forall|k: int| 0 <= k < i ==> #[trigger] out@[k]@ == pieces@[k]@,
            decreases pieces.len() - i,
        {
            out.push(string_from_chars(&pieces[i]));
            i = i + 1;
        }
        assert(strings_view(out@) =~= path_spec(self@));
        out
    }
}

/// The parts joined with `/`.
pub fn join_path(vector: Vec<String>) -> (r: String)
    ensures
        r@ == join(strings_view(vector@), "/"@),
{
    join_strings(&vector, "/")
}

/// Joining the parts of a path string with "/" (what `join_path` does with what
/// `path` gives) yields the trimmed string back.
pub proof fn law_join_path_of_parts(s: Seq<char>)
    ensures
        join(path_spec(s), "/"@) == trim(s),
{
    reveal_strlit("/");
    assert("/"@ == seq!['/']);
    lemma_join_split(trim(s), '/');
}

/// A copy of a string.
pub fn copy_string(s: &String) -> (r: String)
    ensures
        r@ == s@,
{
    s.clone()
}

/// What a pad does when selected.
#[derive(Debug)]
pub enum ActionType {
    Shortcut(String),
    Text(String),
    Line(String),
    Paste(String),
    PasteEnter(String),
    Pause(u64),
    OpenUrl(String),
    Custom(ActionParams),
}

/// The kind of a board.
#[derive(Debug)]
pub enum BoardType {
    Static,
    Home,
    Chain(ChainParams),
    Custom(BoardParams),
}

/// A custom action: its type name and parameters.
#[derive(Debug)]
pub struct ActionParams {
    pub action_type: String,
    pub params: Vec<Param>,
}

/// A custom board: its type name and parameters.
#[derive(Debug)]
pub struct BoardParams {
    pub board_type: String,
    pub params: Vec<Param>,
}

/// A chain of boards: their names separated by commas, the board to start with,
/// and further parameters.
#[derive(Debug)]
pub struct ChainParams {
    pub boards: String,
    pub initial_board: Option<String>,
    pub params: Vec<Param>,
}

impl Clone for ActionParams {
    fn clone(&self) -> (r: Self)
        ensures
            r.action_type@ == self.action_type@,
            params_view(r.params@) == params_view(self.params@),
    {
        ActionParams { action_type: self.action_type.clone(), params: clone_params(&self.params) }
    }
}

impl Clone for BoardParams {
    fn clone(&self) -> (r: Self)
        ensures
            r.board_type@ == self.board_type@,
            params_view(r.params@) == params_view(self.params@),
    {
        BoardParams { board_type: self.board_type.clone(), params: clone_params(&self.params) }
    }
}

/// An optional string as an optional character sequence.
pub open spec fn opt_view(o: Option<String>) -> Option<Seq<char>> {
    match o {
        Some(s) => Some(s@),
        None => None,
    }
}

/// A copy of an optional string.
pub fn clone_opt(o: &Option<String>) -> (r: Option<String>)
    ensures
        opt_view(r) == opt_view(*o),
{
    match o {
        Some(s) => Some(s.clone()),
        None => None,
    }
}

impl Clone for ChainParams {
    fn clone(&self) -> (r: Self)
        ensures
            r.boards@ == self.boards@,
            opt_view(r.initial_board) == opt_view(self.initial_board),
            params_view(r.params@) == params_view(self.params@),
    {
        ChainParams {
            boards: self.boards.clone(),
            initial_board: clone_opt(&self.initial_board),
            params: clone_params(&self.params),
        }
    }
}

impl Clone for ActionType {
    fn clone(&self) -> (r: Self)
        ensures
            action_view(r) == action_view(*self),
    {
        match self {
            ActionType::Shortcut(s) => ActionType::Shortcut(s.clone()),
            ActionType::Text(s) => ActionType::Text(s.clone()),
            ActionType::Line(s) => ActionType::Line(s.clone()),
            ActionType::Paste(s) => ActionType::Paste(s.clone()),
            ActionType::PasteEnter(s) => ActionType::PasteEnter(s.clone()),
            ActionType::Pause(n) => ActionType::Pause(*n),
            ActionType::OpenUrl(s) => ActionType::OpenUrl(s.clone()),
            ActionType::Custom(p) => ActionType::Custom(p.clone()),
        }
    }
}

impl Clone for BoardType {
    fn clone(&self) -> (r: Self)
        ensures
            board_type_view(r) == board_type_view(*self),
    {
        match self {
            BoardType::Static => BoardType::Static,
            BoardType::Home => BoardType::Home,
            BoardType::Chain(c) => BoardType::Chain(c.clone()),
            BoardType::Custom(p) => BoardType::Custom(p.clone()),
        }
    }
}

/// What an action stands for.
pub enum ActionView {
    Shortcut(Seq<char>),
    Text(Seq<char>),
    Line(Seq<char>),
    Paste(Seq<char>),
    PasteEnter(Seq<char>),
    Pause(u64),
    OpenUrl(Seq<char>),
    Custom(Seq<char>, Seq<(Seq<char>, Seq<char>)>),
}

/// The view of an action.
pub open spec fn action_view(a: ActionType) -> ActionView {
    match a {
        ActionType::Shortcut(s) => ActionView::Shortcut(s@),
        ActionType::Text(s) => ActionView::Text(s@),
        ActionType::Line(s) => ActionView::Line(s@),
        ActionType::Paste(s) => ActionView::Paste(s@),
        ActionType::PasteEnter(s) => ActionView::PasteEnter(s@),
        ActionType::Pause(n) => ActionView::Pause(n),
        ActionType::OpenUrl(s) => ActionView::OpenUrl(s@),
        ActionType::Custom(p) => ActionView::Custom(p.action_type@, params_view(p.params@)),
    }
}

/// What a board kind stands for.
pub enum BoardTypeView {
    Static,
    Home,
    Chain(Seq<char>, Option<Seq<char>>, Seq<(Seq<char>, Seq<char>)>),
    Custom(Seq<char>, Seq<(Seq<char>, Seq<char>)>),
}

/// The view of a board kind.
pub open spec fn board_type_view(b: BoardType) -> BoardTypeView {
    match b {
        BoardType::Static => BoardTypeView::Static,
        BoardType::Home => BoardTypeView::Home,
        BoardType::Chain(c) => BoardTypeView::Chain(
            c.boards@,
            opt_view(c.initial_board),
            params_view(c.params@),
        ),
        BoardType::Custom(p) => BoardTypeView::Custom(p.board_type@, params_view(p.params@)),
    }
}

impl BoardType {
    /// The board is a plain static board.
    pub fn is_static(&self) -> (r: bool)
        ensures
            r == (*self is Static),
    {
        match self {
            BoardType::Static => true,
            _ => false,
        }
    }
}

impl Default for BoardType {
    fn default() -> (r: Self)
        ensures
            r is Static,
    {
        BoardType::Static
    }
}

impl Params for BoardParams {
    open spec fn params_spec(&self) -> Seq<(Seq<char>, Seq<char>)> {
        params_view(self.params@)
    }

    open spec fn lookup_spec(&self) -> Seq<(Seq<char>, Seq<char>)> {
        params_view(self.params@)
    }

    fn get_params(&self) -> (r: Vec<Param>) {
        clone_params(&self.params)
    }

    fn get_param(&self, name: &str) -> (r: Option<Param>) {
        find_param_in(&self.params, name)
    }
}

/// The names of the boards in a chain: the comma-separated parts, trimmed.
pub open spec fn chain_boards_spec(boards: Seq<char>) -> Seq<Seq<char>> {
    split_on(boards, ',').map_values(|b: Seq<char>| trim(b))
}

impl ChainParams {
    /// The names of the boards in the chain, in order.
    pub fn boards(&self) -> (r: Vec<String>)
        ensures
            strings_view(r@) == chain_boards_spec(self.boards@),
    {
        let c = string_chars(&self.boards);
        let pieces = split_chars(&c, ',');
        let mut out: Vec<String> = Vec::new();
        let mut i: usize = 0;
        while i < pieces.len()
            invariant
                i <= pieces@.len(),
                pieces@.len() == split_on(c@, ',').len(),
                forall|k: int| 0 <= k < pieces@.len() ==> #[trigger] pieces@[k]@ == split_on(c@, ',')[k],
                out@.len() == i,
                forall|k: int| 0 <= k < i ==> #[trigger] out@[k]@ == trim(pieces@[k]@),
            decreases pieces.len() - i,
        {
            let t = trim_chars(&pieces[i]);
            out.push(string_from_chars(&t));
            i = i + 1;
        }
        assert(strings_view(out@) =~= chain_boards_spec(self.boards@));
        out
    }
}

/// The parameters of a chain: "boards", then "initial_board" (empty when unset),
/// then the further parameters.
pub open spec fn chain_params_spec(c: ChainParams) -> Seq<(Seq<char>, Seq<char>)> {
    seq![
        ("boards"@, c.boards@),
        (
            "initial_board"@,
            match c.initial_board {
                Some(s) => s@,
                None => Seq::empty(),
            },
        ),
    ] + params_view(c.params@)
}

impl Params for ChainParams {
    open spec fn params_spec(&self) -> Seq<(Seq<char>, Seq<char>)> {
        chain_params_spec(*self)
    }

    open spec fn lookup_spec(&self) -> Seq<(Seq<char>, Seq<char>)> {
        params_view(self.params@)
    }

    fn get_params(&self) -> (r: Vec<Param>) {
        let mut out: Vec<Param> = Vec::new();
        out.push(Param::new(owned("boards"), self.boards.clone()));
        let initial = match &self.initial_board {
            Some(s) => s.clone(),
            None => String::new(),
        };
        out.push(Param::new(owned("initial_board"), initial));
        let rest = clone_params(&self.params);
        let mut i: usize = 0;
        while i < rest.len()
            invariant
                i <= rest@.len(),
                params_view(rest@) == params_view(self.params@),
                out@.len() == 2 + i,
                params_view(out@).take(2) == chain_params_spec(*self).take(2),
                forall|k: int|
                    0 <= k < i ==> #[trigger] param_view(out@[2 + k]) == param_view(rest@[k]),
            decreases rest.len() - i,
        {
            let ghost before = params_view(out@);
            out.push(rest[i].clone());
            i = i + 1;
            assert(params_view(out@).take(2) =~= before.take(2));
        }
        assert(params_view(out@) =~= chain_params_spec(*self)) by {
            assert forall|k: int| 0 <= k < params_view(out@).len() implies params_view(out@)[k]
                == chain_params_spec(*self)[k] by {
                if k < 2 {
                    assert(params_view(out@).take(2)[k] == chain_params_spec(*self).take(2)[k]);
                } else {
                    assert(param_view(out@[2 + (k - 2)]) == param_view(rest@[k - 2]));
                    assert(params_view(rest@)[k - 2] == params_view(self.params@)[k - 2]);
                }
            }
        }
        out
    }

    fn get_param(&self, name: &str) -> (r: Option<Param>) {
        find_param_in(&self.params, name)
    }
}

/// The parameters other than "boards" and "initial_board".
pub open spec fn other_params(ps: Seq<(Seq<char>, Seq<char>)>) -> Seq<(Seq<char>, Seq<char>)> {
    ps.filter(|p: (Seq<char>, Seq<char>)| p.0 != "boards"@ && p.0 != "initial_board"@)
}

impl ChainParams {
    /// The chain described by parameters: "boards" (empty when absent),
    /// "initial_board", and the other parameters in order.
    pub fn from_params(params: Vec<Param>) -> (r: Self)
        ensures
            r.boards@ == match find_param(params_view(params@), "boards"@) {
                Some(v) => v,
                None => Seq::empty(),
            },
            opt_view(r.initial_board) == find_param(params_view(params@), "initial_board"@),
            params_view(r.params@) == other_params(params_view(params@)),
    {
        let boards = match params.get_param_as_string("boards") {
            Some(b) => b,
            None => String::new(),
        };
        let initial = params.get_param_as_string("initial_board");
        let ghost all = params_view(params@);
        let ghost pred = |p: (Seq<char>, Seq<char>)| p.0 != "boards"@ && p.0 != "initial_board"@;
        let mut others: Vec<Param> = Vec::new();
        let mut i: usize = 0;
        proof {
            reveal_with_fuel(Seq::<_>::filter, 1);
            assert(all.take(0) =~= Seq::<(Seq<char>, Seq<char>)>::empty());
        }
        while i < params.len()
            invariant
                i <= params@.len(),
                all == params_view(params@),
                pred == (|p: (Seq<char>, Seq<char>)| p.0 != "boards"@ && p.0 != "initial_board"@),
                params_view(others@) == all.take(i as int).filter(pred),
            decreases params.len() - i,
        {
            proof {
                assert(all.take(i + 1) =~= all.take(i as int).push(all[i as int]));
                all.take(i as int).lemma_filter_push(all[i as int], pred);
            }
            let keep = !str_eq(params[i].name.as_str(), "boards") && !str_eq(
                params[i].name.as_str(),
                "initial_board",
            );
            if keep {
                let ghost before = params_view(others@);
                others.push(params[i].clone());
                assert(params_view(others@) =~= before.push(all[i as int]));
            }
            i = i + 1;
        }
        assert(all.take(params.len() as int) =~= all);
        Self { boards, initial_board: initial, params: others }
    }
}

} // verus!
