//! Conversion between the half-width ASCII block and its full-width
//! variants: U+0021..U+007E aligns with U+FF01..U+FF5E at a fixed offset,
//! and the ASCII space aligns with the ideographic space U+3000.

use vstd::prelude::*;
use crate::chars::{chars_to_string, to_char_vec};

verus! {

/// What one code point becomes under conversion to half width: the
/// ideographic space becomes the ASCII space, a full-width ASCII variant
/// shifts down to its ASCII original, everything else is unchanged.
pub open spec fn half_width_char(c: char) -> char {
    if c == '\u{3000}' {
        ' '
    } else if 0xFF01 <= c as int && c as int <= 0xFF5E {
        (c as int - 0xFEE0) as char
    } else {
        c
    }
}

/// What one code point becomes under conversion to full width: the ASCII
/// space becomes the ideographic space, a printable ASCII code point
/// shifts up to its full-width variant, everything else is unchanged.
pub open spec fn full_width_char(c: char) -> char {
    if c == ' ' {
        '\u{3000}'
    } else if 0x0021 <= c as int && c as int <= 0x007E {
        (c as int + 0xFEE0) as char
    } else {
        c
    }
}

/// A sequence of code points converted to half width, pointwise.
pub open spec fn half_width_seq(s: Seq<char>) -> Seq<char> {
    s.map_values(|c: char| half_width_char(c))
}

/// A sequence of code points converted to full width, pointwise.
pub open spec fn full_width_seq(s: Seq<char>) -> Seq<char> {
    s.map_values(|c: char| full_width_char(c))
}

/// Converts full-width ASCII variants (U+FF01..U+FF5E) and the
/// ideographic space to their half-width counterparts; all other code
/// points pass through unchanged.
pub fn to_half_width(input: &str) -> (r: String)
    ensures
        r@ == half_width_seq(input@),
        r@.len() == input@.len(),
{
    let v = to_char_vec(input);
    let n = v.len();
    let mut out: Vec<char> = Vec::new();
    let mut i: usize = 0;
    while i < n
        invariant
            i <= n,
            n == v@.len(),
            v@ == input@,
            out@.len() == i,
            forall|j: int| 0 <= j < i ==> out@[j] == half_width_char(v@[j]),
        decreases n - i,
    {
        let c = v[i];
        let u = c as u32;
        let d: char = if u == 0x3000 {
            ' '
        } else if 0xFF01 <= u && u <= 0xFF5E {
            match char::from_u32(u - 0xFEE0) {
                Some(x) => x,
                None => c,
            }
        } else {
            c
        };
        out.push(d);
        i = i + 1;
    }
    assert(out@ =~= half_width_seq(input@));
    chars_to_string(out)
}

/// Converts printable ASCII (U+0021..U+007E) and the ASCII space to
/// their full-width counterparts; all other code points pass through
/// unchanged.
pub fn to_full_width(input: &str) -> (r: String)
    ensures
        r@ == full_width_seq(input@),
        r@.len() == input@.len(),
{
    let v = to_char_vec(input);
    let n = v.len();
    let mut out: Vec<char> = Vec::new();
    let mut i: usize = 0;
    while i < n
        invariant
            i <= n,
            n == v@.len(),
            v@ == input@,
            out@.len() == i,
            forall|j: int| 0 <= j < i ==> out@[j] == full_width_char(v@[j]),
        decreases n - i,
    {
        let c = v[i];
        let u = c as u32;
        let d: char = if u == 0x20 {
            '\u{3000}'
        } else if 0x21 <= u && u <= 0x7E {
            match char::from_u32(u + 0xFEE0) {
                Some(x) => x,
                None => c,
            }
        } else {
            c
        };
        out.push(d);
        i = i + 1;
    }
    assert(out@ =~= full_width_seq(input@));
    chars_to_string(out)
}

/// Converting a code point of the half-width subset (the ASCII space or
/// printable ASCII) to full width and back yields the code point again.
pub proof fn lemma_half_full_half_char(c: char)
    requires
        0x20 <= c as int <= 0x7E,
    ensures
        half_width_char(full_width_char(c)) == c,
{
}

/// Converting a code point of the full-width subset (the ideographic
/// space or a full-width ASCII variant) to half width and back yields
/// the code point again.
pub proof fn lemma_full_half_full_char(c: char)
    requires
        c as int == 0x3000 || 0xFF01 <= c as int <= 0xFF5E,
    ensures
        full_width_char(half_width_char(c)) == c,
{
}

/// A string of half-width-subset code points converted to full width and
/// back is the original string.
pub proof fn lemma_width_round_trip(s: Seq<char>)
    requires
        forall|i: int| 0 <= i < s.len() ==> 0x20 <= #[trigger] (s[i] as int) <= 0x7E,
    ensures
        half_width_seq(full_width_seq(s)) == s,
{
    assert forall|i: int| 0 <= i < s.len() implies half_width_seq(full_width_seq(s))[i] == s[i] by {
        lemma_half_full_half_char(s[i]);
    }
    assert(half_width_seq(full_width_seq(s)) =~= s);
}

/// A string of full-width-subset code points converted to half width and
/// back is the original string.
pub proof fn lemma_width_round_trip_full(s: Seq<char>)
    requires
        forall|i: int| 0 <= i < s.len() ==> (#[trigger] (s[i] as int) == 0x3000
            || 0xFF01 <= s[i] as int <= 0xFF5E),
    ensures
        full_width_seq(half_width_seq(s)) == s,
{
    assert forall|i: int| 0 <= i < s.len() implies full_width_seq(half_width_seq(s))[i] == s[i] by {
        lemma_full_half_full_char(s[i]);
    }
    assert(full_width_seq(half_width_seq(s)) =~= s);
}

} // verus!
