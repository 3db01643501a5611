//! Small helpers for building `String`s out of `char`s and reading them back.

use vstd::prelude::*;
use vstd::string::*;

verus! {

/// Calls `String::push`. Trusted, not proved: the contract claims, as the
/// standard library documents, that the string gains `c` at its end and is
/// otherwise unchanged.
#[verifier::external_body]
pub(crate) fn push_char(s: &mut String, c: char)
    ensures
        final(s)@ == old(s)@.push(c),
{
    s.push(c);
}

/// Whether `x` is a Unicode scalar value, i.e. a value that a `char` can hold.
pub open spec fn is_scalar_value(x: int) -> bool {
    (0 <= x < 0xD800) || (0xE000 <= x <= 0x10FFFF)
}

/// Calls `char::from_u32`. Trusted, not proved: the contract claims, as the
/// standard library documents, that the result is `Some` exactly for Unicode
/// scalar values, and that the `char` then has the value `x`.
#[verifier::external_body]
pub(crate) fn char_from_u32(x: u32) -> (r: Option<char>)
    ensures
        r is Some <==> is_scalar_value(x as int),
        r matches Some(ch) ==> ch as u32 == x,
{
    char::from_u32(x)
}

/// A `char` is determined by its scalar value.
pub proof fn lemma_char_from_code(k: char, x: u32)
    requires
        k as u32 == x,
    ensures
        k == x as char,
{
}

/// Builds a `String` holding exactly the given characters.
pub fn string_from_chars(chars: &Vec<char>) -> (s: String)
    ensures
        s@ == chars@,
{
    let mut s = String::new();
    let n = chars.len();
    let mut i: usize = 0;
    while i < n
        invariant
            n == chars@.len(),
            i <= n,
            s@ == chars@.take(i as int),
        decreases n - i,
    {
        push_char(&mut s, chars[i]);
        assert(chars@.take(i as int).push(chars@[i as int]) =~= chars@.take(i + 1));
        i = i + 1;
    }
    assert(chars@.take(n as int) =~= chars@);
    s
}

/// The characters of a string slice, in order.
pub fn chars_of(s: &str) -> (v: Vec<char>)
    ensures
        v@ == s@,
{
    let n = s.unicode_len();
    let mut v: Vec<char> = Vec::new();
    let mut i: usize = 0;
    while i < n
        invariant
            n == s@.len(),
            i <= n,
            v@ == s@.take(i as int),
        decreases n - i,
    {
        let c = s.get_char(i);
        v.push(c);
        assert(s@.take(i as int).push(c) =~= s@.take(i + 1));
        i = i + 1;
    }
    assert(s@.take(n as int) =~= s@);
    v
}

/// Appends the characters of `extra` to `s`.
pub fn push_chars(s: &mut String, extra: &Vec<char>)
    ensures
        final(s)@ == old(s)@ + extra@,
{
    let n = extra.len();
    let mut i: usize = 0;
    while i < n
        invariant
            n == extra@.len(),
            i <= n,
            s@ == old(s)@ + extra@.take(i as int),
        decreases n - i,
    {
        push_char(s, extra[i]);
        assert(old(s)@ + extra@.take(i as int) + seq![extra@[i as int]] =~= old(s)@ + extra@.take(i + 1));
        i = i + 1;
    }
    assert(extra@.take(n as int) =~= extra@);
}

} // verus!
