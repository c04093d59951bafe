//! Conversions between strings and vectors of code points, and the one
//! primitive that builds a character from a numeric scalar value.

use vstd::prelude::*;
use vstd::string::StrSliceExecFns;

verus! {

/// True of the numeric values that are Unicode scalar values, that is,
/// the values a `char` can hold: code points outside the surrogate range.
pub open spec fn is_scalar_value(u: u32) -> bool {
    u < 0xD800 || (0xE000 <= u && u <= 0x10FFFF)
}

/// Relies on `char::from_u32` of std: it returns the character with the
/// given scalar value, and `None` exactly on surrogates and values above
/// the Unicode maximum.
pub assume_specification[ char::from_u32 ](u: u32) -> (r: Option<char>)
    ensures
        r == (if is_scalar_value(u) {
            Some(u as char)
        } else {
            None::<char>
        }),
;

/// Relies on `String`'s `FromIterator<char>`: collecting an iterator of
/// characters yields the string of exactly those characters in order.
#[verifier::external_body]
pub(crate) fn chars_to_string(v: Vec<char>) -> (s: String)
    ensures
        s@ == v@,
{
    v.into_iter().collect()
}

/// The code points of a string as a vector, in order.
pub(crate) fn to_char_vec(s: &str) -> (v: Vec<char>)
    ensures
        v@ == s@,
{
    let n = s.unicode_len();
    let mut v: Vec<char> = Vec::new();
    let mut i: usize = 0;
    while i < n
        invariant
            i <= n,
            n == s@.len(),
            v@ == s@.subrange(0, i as int),
        decreases n - i,
    {
        v.push(s.get_char(i));
        i = i + 1;
        assert(v@ =~= s@.subrange(0, i as int));
    }
    assert(s@.subrange(0, n as int) =~= s@);
    v
}

} // verus!
