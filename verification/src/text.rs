//! Character-level text rules shared by the validators and the achievement
//! evaluator: substring search, whitespace and trimming.

use vstd::prelude::*;

verus! {

/// `pattern` occurs in `text` as a contiguous run of characters starting at `at`.
pub open spec fn occurs_at(text: Seq<char>, pattern: Seq<char>, at: int) -> bool {
    &&& 0 <= at
    &&& at + pattern.len() <= text.len()
    &&& text.subrange(at, at + pattern.len()) == pattern
}

/// `pattern` occurs somewhere in `text`. The empty pattern occurs in every text.
pub open spec fn is_substring(text: Seq<char>, pattern: Seq<char>) -> bool {
    exists|at: int| occurs_at(text, pattern, at)
}

/// Some pattern of `patterns` occurs in `text`.
pub open spec fn matches_any(text: Seq<char>, patterns: Seq<Seq<char>>) -> bool {
    exists|i: int| 0 <= i < patterns.len() && is_substring(text, #[trigger] patterns[i])
}

/// The characters of a string slice, in order.
pub fn chars_of(s: &str) -> (v: Vec<char>)
    ensures
        v@ == s@,
{
    broadcast use vstd::string::group_string_axioms;

    let mut v: Vec<char> = Vec::new();
    for c in it: s.chars()
        invariant
            it.seq() == s@,
            v@ == it.seq().take(it.index()),
    {
        v.push(c);
    }
    v
}

/// Whether `pattern` stands in `text` at position `at`.
fn matches_at(text: &Vec<char>, pattern: &Vec<char>, at: usize) -> (r: bool)
    requires
        at + pattern.len() <= text.len(),
    ensures
        r == occurs_at(text@, pattern@, at as int),
{
    let ghost window = text@.subrange(at as int, at + pattern@.len());
    let mut k: usize = 0;
    while k < pattern.len()
        invariant
            k <= pattern.len(),
            at + pattern.len() <= text.len(),
            window == text@.subrange(at as int, at + pattern@.len()),
            forall|j: int| 0 <= j < k ==> window[j] == pattern@[j],
        decreases pattern.len() - k,
    {
        if text[at + k] != pattern[k] {
            return false;
        }
        k += 1;
    }
    assert(window =~= pattern@);
    true
}

/// Substring search over characters: whether `pattern` occurs in `text`.
pub fn contains_chars(text: &Vec<char>, pattern: &Vec<char>) -> (r: bool)
    ensures
        r == is_substring(text@, pattern@),
{
    if pattern.len() == 0 {
        assert(text@.subrange(0, 0) =~= pattern@);
        assert(occurs_at(text@, pattern@, 0));
        return true;
    }
    if pattern.len() > text.len() {
        return false;
    }
    let last: usize = text.len() - pattern.len();
    let mut at: usize = 0;
    while at <= last
        invariant
            0 < pattern.len() <= text.len(),
            last == text.len() - pattern.len(),
            at <= last + 1,
            forall|j: int| 0 <= j < at ==> !occurs_at(text@, pattern@, j),
        decreases last + 1 - at,
    {
        if matches_at(text, pattern, at) {
            return true;
        }
        at += 1;
    }
    false
}

/// Whether `pattern` occurs in `text`, character by character.
pub fn contains(text: &str, pattern: &str) -> (r: bool)
    ensures
        r == is_substring(text@, pattern@),
{
    let t = chars_of(text);
    let p = chars_of(pattern);
    contains_chars(&t, &p)
}

/// Whether any of `patterns` occurs in `text`.
pub fn contains_any(text: &str, patterns: &Vec<String>) -> (r: bool)
    ensures
        r == matches_any(text@, views(patterns@)),
{
    let t = chars_of(text);
    let mut i: usize = 0;
    while i < patterns.len()
        invariant
            i <= patterns.len(),
            t@ == text@,
            forall|j: int| 0 <= j < i ==> !is_substring(text@, #[trigger] views(patterns@)[j]),
        decreases patterns.len() - i,
    {
        let p = chars_of(patterns[i].as_str());
        assert(views(patterns@)[i as int] == p@);
        if contains_chars(&t, &p) {
            return true;
        }
        i += 1;
    }
    false
}

/// The character sequences of a list of strings.
pub open spec fn views(strings: Seq<String>) -> Seq<Seq<char>> {
    Seq::new(strings.len(), |i: int| strings[i]@)
}

/// The view of an optional string.
pub open spec fn opt_view(s: Option<String>) -> Option<Seq<char>> {
    match s {
        Some(s) => Some(s@),
        None => None,
    }
}

/// The characters with the Unicode property White_Space.
pub open spec fn is_whitespace(c: char) -> bool {
    let u = c as u32;
    ||| 0x09 <= u <= 0x0D
    ||| u == 0x20
    ||| u == 0x85
    ||| u == 0xA0
    ||| u == 0x1680
    ||| 0x2000 <= u <= 0x200A
    ||| u == 0x2028
    ||| u == 0x2029
    ||| u == 0x202F
    ||| u == 0x205F
    ||| u == 0x3000
}

/// Whether `c` is a whitespace character.
pub fn char_is_whitespace(c: char) -> (r: bool)
    ensures
        r == is_whitespace(c),
{
    let u: u32 = c as u32;
    (0x09 <= u && u <= 0x0D) || u == 0x20 || u == 0x85 || u == 0xA0 || u == 0x1680 || (0x2000 <= u
        && u <= 0x200A) || u == 0x2028 || u == 0x2029 || u == 0x202F || u == 0x205F || u == 0x3000
}

/// `s` without its leading whitespace.
pub open spec fn trimmed_start(s: Seq<char>) -> Seq<char>
    decreases s.len(),
{
    if s.len() > 0 && is_whitespace(s[0]) {
        trimmed_start(s.drop_first())
    } else {
        s
    }
}

/// `s` without its trailing whitespace.
pub open spec fn trimmed_end(s: Seq<char>) -> Seq<char>
    decreases s.len(),
{
    if s.len() > 0 && is_whitespace(s.last()) {
        trimmed_end(s.drop_last())
    } else {
        s
    }
}

/// `s` without leading and trailing whitespace.
pub open spec fn trimmed(s: Seq<char>) -> Seq<char> {
    trimmed_end(trimmed_start(s))
}

/// The bounds of the trimmed part of `chars`: the characters from `r.0` up to
/// `r.1` are `chars` without leading and trailing whitespace.
pub fn trim_bounds(chars: &Vec<char>) -> (r: (usize, usize))
    ensures
        r.0 <= r.1 <= chars.len(),
        chars@.subrange(r.0 as int, r.1 as int) == trimmed(chars@),
{
    let n = chars.len();
    let mut a: usize = 0;
    assert(chars@.skip(0) =~= chars@);
    while a < n && char_is_whitespace(chars[a])
        invariant
            a <= n,
            n == chars.len(),
            trimmed_start(chars@) == trimmed_start(chars@.skip(a as int)),
        decreases n - a,
    {
        assert(chars@.skip(a as int).drop_first() =~= chars@.skip(a + 1));
        a += 1;
    }
    let mut b: usize = n;
    while b > a && char_is_whitespace(chars[b - 1])
        invariant
            a <= b <= n,
            n == chars.len(),
            trimmed(chars@) == trimmed_end(chars@.subrange(a as int, b as int)),
        decreases b - a,
    {
        assert(chars@.subrange(a as int, b as int).drop_last() =~= chars@.subrange(
            a as int,
            b - 1,
        ));
        b -= 1;
    }
    (a, b)
}

/// `s` without leading and trailing whitespace.
pub fn trim(s: &str) -> (r: &str)
    ensures
        r@ == trimmed(s@),
{
    let chars = chars_of(s);
    let (a, b) = trim_bounds(&chars);
    s.substring_char(a, b)
}

} // verus!
