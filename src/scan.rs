//! Character-level helpers of the executable parsers.
use crate::grammar::{in_class, is_alpha_or_underscore, is_digit, lit, run, CharClass};
use vstd::prelude::*;
use vstd::string::StrSliceExecFns;

verus! {

/// Relies on `String::from_iter`: the string holds the given characters, in order.
#[verifier::external_body]
fn string_from(cs: Vec<char>) -> (r: String)
    ensures
        r@ == cs@,
{
    String::from_iter(cs)
}

/// Relies on `char::from_u32`: a value that is a Unicode scalar value gives the
/// character of that code point; any other value gives `None`.
#[verifier::external_body]
pub(crate) fn char_from_u32(v: u32) -> (r: Option<char>)
    ensures
        r is Some <==> (v < 0xD800 || (0xE000 <= v && v <= 0x10FFFF)),
        r matches Some(c) ==> c as u32 == v && c == v as char,
{
    char::from_u32(v)
}

/// The characters of `s`, in order.
pub(crate) fn chars_of(s: &str) -> (r: Vec<char>)
    ensures
        r@ == s@,
{
    let mut r: Vec<char> = Vec::new();
    for c in it: s.chars()
        invariant
            r@ == it.seq().take(it.index() as int),
    {
        r.push(c);
    }
    r
}

/// A string of the given characters.
pub(crate) fn string_of(cs: Vec<char>) -> (r: String)
    ensures
        r@ == cs@,
{
    string_from(cs)
}

/// The text between positions `a` and `b`.
pub(crate) fn text(s: &Vec<char>, a: usize, b: usize) -> (r: String)
    requires
        a <= b <= s.len(),
    ensures
        r@ == s@.subrange(a as int, b as int),
{
    let mut cs: Vec<char> = Vec::new();
    let mut i: usize = a;
    while i < b
        invariant
            a <= i <= b <= s.len(),
            cs@ == s@.subrange(a as int, i as int),
        decreases b - i,
    {
        cs.push(s[i]);
        i = i + 1;
    }
    string_from(cs)
}

pub(crate) fn is_digit_char(c: char) -> (r: bool)
    ensures
        r == is_digit(c),
{
    '0' <= c && c <= '9'
}

pub(crate) fn is_alpha_or_underscore_char(c: char) -> (r: bool)
    ensures
        r == is_alpha_or_underscore(c),
{
    ('a' <= c && c <= 'z') || ('A' <= c && c <= 'Z') || c == '_'
}

fn in_class_char(c: char, k: CharClass) -> (r: bool)
    ensures
        r == in_class(c, k),
{
    match k {
        CharClass::Digit => is_digit_char(c),
        CharClass::Word => is_alpha_or_underscore_char(c) || is_digit_char(c),
        CharClass::Loose => c != '=' && c != '&' && c != '(' && c != ')',
    }
}

/// The end of the longest run of characters of class `k` from `p`.
pub(crate) fn run_end(s: &Vec<char>, p: usize, k: CharClass) -> (e: usize)
    requires
        p <= s.len(),
    ensures
        e == p + run(s@, p as int, k),
        e <= s.len(),
{
    let mut e: usize = p;
    while e < s.len() && in_class_char(s[e], k)
        invariant
            p <= e <= s.len(),
            run(s@, p as int, k) == (e - p) + run(s@, e as int, k),
        decreases s.len() - e,
    {
        e = e + 1;
    }
    e
}

/// Whether `s` holds character `c` at `p`.
pub(crate) fn at_char(s: &Vec<char>, p: usize, c: char) -> (r: bool)
    ensures
        r == crate::grammar::at(s@, p as int, c),
{
    p < s.len() && s[p] == c
}

/// Whether `s` holds the text `t` from `p`.
pub(crate) fn lit_at(s: &Vec<char>, p: usize, t: &str) -> (r: bool)
    requires
        p <= s.len(),
    ensures
        r == lit(s@, p as int, t@),
{
    let n = t.unicode_len();
    if n > s.len() - p {
        return false;
    }
    let mut i: usize = 0;
    while i < n
        invariant
            n == t@.len(),
            p + n <= s.len(),
            i <= n,
            forall|j: int| 0 <= j < i ==> s@[p + j] == t@[j],
        decreases n - i,
    {
        if s[p + i] != t.get_char(i) {
            assert(s@.subrange(p as int, p + n)[i as int] != t@[i as int]);
            return false;
        }
        i = i + 1;
    }
    assert(s@.subrange(p as int, p + n) =~= t@);
    true
}

} // verus!
