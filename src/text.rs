//! Character-level helpers over `str` and `String`, each specified over the
//! `Seq<char>` view.
use vstd::prelude::*;
use vstd::string::*;

verus! {

/// The views of a vector of strings.
pub open spec fn texts(v: Seq<String>) -> Seq<Seq<char>> {
    v.map_values(|s: String| s@)
}

/// Whether `c` is a white-space character in the sense of Unicode's
/// `White_Space` property (the set `char::is_whitespace` accepts).
pub open spec fn is_space(c: char) -> bool {
    let n = c as u32;
    (9 <= n && n <= 13) || n == 32 || n == 0x85 || n == 0xa0 || n == 0x1680 || (0x2000 <= n && n
        <= 0x200a) || n == 0x2028 || n == 0x2029 || n == 0x202f || n == 0x205f || n == 0x3000
}

pub fn char_is_space(c: char) -> (r: bool)
    ensures
        r == is_space(c),
{
    let n = c as u32;
    (9 <= n && n <= 13) || n == 32 || n == 0x85 || n == 0xa0 || n == 0x1680 || (0x2000 <= n && n
        <= 0x200a) || n == 0x2028 || n == 0x2029 || n == 0x202f || n == 0x205f || n == 0x3000
}

/// The first index at or after `i` that holds no white space (or the length).
pub open spec fn skip_space(s: Seq<char>, i: int) -> int
    decreases s.len() - i,
{
    if i < 0 || i >= s.len() {
        if i < 0 { 0 } else { s.len() as int }
    } else if is_space(s[i]) {
        skip_space(s, i + 1)
    } else {
        i
    }
}

/// The first index at or after `i` that holds white space (or the length).
pub open spec fn word_end(s: Seq<char>, i: int) -> int
    decreases s.len() - i,
{
    if i < 0 || i >= s.len() {
        if i < 0 { 0 } else { s.len() as int }
    } else if is_space(s[i]) {
        i
    } else {
        word_end(s, i + 1)
    }
}

proof fn lemma_skip_space_bounds(s: Seq<char>, i: int)
    requires
        0 <= i <= s.len(),
    ensures
        i <= skip_space(s, i) <= s.len(),
        skip_space(s, i) < s.len() ==> !is_space(s[skip_space(s, i)]),
        forall|k: int| i <= k < skip_space(s, i) ==> is_space(#[trigger] s[k]),
    decreases s.len() - i,
{
    if i < s.len() && is_space(s[i]) {
        lemma_skip_space_bounds(s, i + 1);
    }
}

proof fn lemma_word_end_bounds(s: Seq<char>, i: int)
    requires
        0 <= i <= s.len(),
    ensures
        i <= word_end(s, i) <= s.len(),
        word_end(s, i) < s.len() ==> is_space(s[word_end(s, i)]),
        forall|k: int| i <= k < word_end(s, i) ==> !is_space(#[trigger] s[k]),
    decreases s.len() - i,
{
    if i < s.len() && !is_space(s[i]) {
        lemma_word_end_bounds(s, i + 1);
    }
}

/// The word (maximal run of non-space characters) that starts at the first
/// non-space index at or after `i`; empty when only white space follows.
pub open spec fn word_from(s: Seq<char>, i: int) -> Seq<char> {
    s.subrange(skip_space(s, i), word_end(s, skip_space(s, i)))
}

/// The first white-space separated word of `s`, if any.
pub open spec fn first_word(s: Seq<char>) -> Option<Seq<char>> {
    if skip_space(s, 0) < s.len() {
        Some(word_from(s, 0))
    } else {
        None
    }
}

/// The second white-space separated word of `s`, if any.
pub open spec fn second_word(s: Seq<char>) -> Option<Seq<char>> {
    let b = word_end(s, skip_space(s, 0));
    if skip_space(s, b) < s.len() {
        Some(word_from(s, b))
    } else {
        None
    }
}

/// Returns the index of the first non-space character at or after `i`.
fn skip_space_at(s: &str, i: usize) -> (r: usize)
    requires
        i <= s@.len(),
    ensures
        r == skip_space(s@, i as int),
{
    let n = s.unicode_len();
    let mut j = i;
    while j < n && char_is_space(s.get_char(j))
        invariant
            n == s@.len(),
            i <= j <= n,
            skip_space(s@, j as int) == skip_space(s@, i as int),
        decreases n - j,
    {
        j = j + 1;
    }
    j
}

/// Returns the index of the first space character at or after `i`.
fn word_end_at(s: &str, i: usize) -> (r: usize)
    requires
        i <= s@.len(),
    ensures
        r == word_end(s@, i as int),
{
    let n = s.unicode_len();
    let mut j = i;
    while j < n && !char_is_space(s.get_char(j))
        invariant
            n == s@.len(),
            i <= j <= n,
            word_end(s@, j as int) == word_end(s@, i as int),
        decreases n - j,
    {
        j = j + 1;
    }
    j
}

/// The first two white-space separated words of `s`.
pub fn leading_words(s: &str) -> (r: (Option<String>, Option<String>))
    ensures
        r.0.is_some() == first_word(s@).is_some(),
        r.0.is_some() ==> r.0.unwrap()@ == first_word(s@).unwrap(),
        r.1.is_some() == second_word(s@).is_some(),
        r.1.is_some() ==> r.1.unwrap()@ == second_word(s@).unwrap(),
{
    let n = s.unicode_len();
    let a = skip_space_at(s, 0);
    proof {
        lemma_skip_space_bounds(s@, 0);
    }
    let b = word_end_at(s, a);
    proof {
        lemma_word_end_bounds(s@, a as int);
    }
    let first = if a < n {
        Some(s.substring_char(a, b).to_owned())
    } else {
        None
    };
    let c = skip_space_at(s, b);
    proof {
        lemma_skip_space_bounds(s@, b as int);
    }
    let d = word_end_at(s, c);
    proof {
        lemma_word_end_bounds(s@, c as int);
    }
    let second = if c < n {
        Some(s.substring_char(c, d).to_owned())
    } else {
        None
    };
    (first, second)
}

/// Whether two strings hold the same characters.
pub fn same_text(a: &str, b: &str) -> (r: bool)
    ensures
        r == (a@ == b@),
{
    let n = a.unicode_len();
    if n != b.unicode_len() {
        return false;
    }
    let mut i: usize = 0;
    while i < n
        invariant
            n == a@.len(),
            n == b@.len(),
            i <= n,
            a@.subrange(0, i as int) == b@.subrange(0, i as int),
        decreases n - i,
    {
        if a.get_char(i) != b.get_char(i) {
            assert(a@[i as int] != b@[i as int]);
            return false;
        }
        assert(a@.subrange(0, i + 1) == a@.subrange(0, i as int).push(a@[i as int]));
        assert(b@.subrange(0, i + 1) == b@.subrange(0, i as int).push(b@[i as int]));
        i = i + 1;
    }
    assert(a@ == a@.subrange(0, n as int));
    assert(b@ == b@.subrange(0, n as int));
    true
}

/// Relies on `String::push`: appends one character.
#[verifier::external_body]
fn push_char(s: &mut String, c: char)
    ensures
        final(s)@ == old(s)@.push(c),
{
    s.push(c)
}

/// The upper-case form of a text, as `str::to_uppercase` gives it.
pub uninterp spec fn upper_of(s: Seq<char>) -> Seq<char>;

/// Relies on `str::to_uppercase`: the text in upper case; it depends on the
/// characters alone.
#[verifier::external_body]
fn uppercase(s: &str) -> (r: String)
    ensures
        r@ == upper_of(s@),
{
    s.to_uppercase()
}

/// A character of an environment-variable name: `-` becomes `_`.
pub open spec fn env_char(c: char) -> char {
    if c == '-' {
        '_'
    } else {
        c
    }
}

/// The environment variable named after a tool: the name in upper case, with
/// `_` for `-` (`wasm-opt` gives `WASM_OPT`).
pub open spec fn env_var_name_of(tool: Seq<char>) -> Seq<char> {
    upper_of(tool).map_values(|c: char| env_char(c))
}

/// The environment variable named after `tool`.
pub fn env_var_name(tool: &str) -> (r: String)
    ensures
        r@ == env_var_name_of(tool@),
{
    let upper = uppercase(tool);
    let up = upper.as_str();
    let n = up.unicode_len();
    let mut r = String::new();
    let mut i: usize = 0;
    while i < n
        invariant
            n == up@.len(),
            up@ == upper_of(tool@),
            i <= n,
            r@ == up@.subrange(0, i as int).map_values(|c: char| env_char(c)),
        decreases n - i,
    {
        let c = up.get_char(i);
        let e = if c == '-' {
            '_'
        } else {
            c
        };
        push_char(&mut r, e);
        assert(up@.subrange(0, i + 1).map_values(|c: char| env_char(c)) =~= up@.subrange(
            0,
            i as int,
        ).map_values(|c: char| env_char(c)).push(env_char(c)));
        i = i + 1;
    }
    assert(up@.subrange(0, n as int) =~= up@);
    r
}

/// Whether `s` begins with `prefix`.
pub fn starts_with(s: &str, prefix: &str) -> (r: bool)
    ensures
        r == (prefix@.len() <= s@.len() && s@.subrange(0, prefix@.len() as int) == prefix@),
{
    let n = prefix.unicode_len();
    if n > s.unicode_len() {
        return false;
    }
    let head = s.substring_char(0, n);
    same_text(head, prefix)
}

} // verus!
