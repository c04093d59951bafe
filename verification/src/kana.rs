//! Conversion between the two kana scripts: the katakana block
//! U+30A1..U+30F6 aligns with the hiragana block U+3041..U+3096 at a
//! fixed offset of 0x60.

use vstd::prelude::*;
use crate::chars::{chars_to_string, to_char_vec};

verus! {

/// What one code point becomes under conversion to hiragana: a katakana
/// code point shifts down into the hiragana block, everything else is
/// unchanged.
pub open spec fn hiragana_char(c: char) -> char {
    if 0x30A1 <= c as int && c as int <= 0x30F6 {
        (c as int - 0x60) as char
    } else {
        c
    }
}

/// What one code point becomes under conversion to katakana: a hiragana
/// code point shifts up into the katakana block, everything else is
/// unchanged.
pub open spec fn katakana_char(c: char) -> char {
    if 0x3041 <= c as int && c as int <= 0x3096 {
        (c as int + 0x60) as char
    } else {
        c
    }
}

/// A sequence of code points converted to hiragana, pointwise.
pub open spec fn hiragana_seq(s: Seq<char>) -> Seq<char> {
    s.map_values(|c: char| hiragana_char(c))
}

/// A sequence of code points converted to katakana, pointwise.
pub open spec fn katakana_seq(s: Seq<char>) -> Seq<char> {
    s.map_values(|c: char| katakana_char(c))
}

/// Converts katakana (U+30A1..U+30F6) to the corresponding hiragana;
/// all other code points pass through unchanged.
pub fn to_hiragana(input: &str) -> (r: String)
    ensures
        r@ == hiragana_seq(input@),
        r@.len() == input@.len(),
{
    let v = to_char_vec(input);
    let n = v.len();
    let mut out: Vec<char> = Vec::new();
    let mut i: usize = 0;
    while i < n
        invariant
            i <= n,
            n == v@.len(),
            v@ == input@,
            out@.len() == i,
            forall|j: int| 0 <= j < i ==> out@[j] == hiragana_char(v@[j]),
        decreases n - i,
    {
        let c = v[i];
        let u = c as u32;
        let d: char = if 0x30A1 <= u && u <= 0x30F6 {
            match char::from_u32(u - 0x60) {
                Some(x) => x,
                None => c,
            }
        } else {
            c
        };
        out.push(d);
        i = i + 1;
    }
    assert(out@ =~= hiragana_seq(input@));
    chars_to_string(out)
}

/// Converts hiragana (U+3041..U+3096) to the corresponding katakana;
/// all other code points pass through unchanged.
pub fn to_katakana(input: &str) -> (r: String)
    ensures
        r@ == katakana_seq(input@),
        r@.len() == input@.len(),
{
    let v = to_char_vec(input);
    let n = v.len();
    let mut out: Vec<char> = Vec::new();
    let mut i: usize = 0;
    while i < n
        invariant
            i <= n,
            n == v@.len(),
            v@ == input@,
            out@.len() == i,
            forall|j: int| 0 <= j < i ==> out@[j] == katakana_char(v@[j]),
        decreases n - i,
    {
        let c = v[i];
        let u = c as u32;
        let d: char = if 0x3041 <= u && u <= 0x3096 {
            match char::from_u32(u + 0x60) {
                Some(x) => x,
                None => c,
            }
        } else {
            c
        };
        out.push(d);
        i = i + 1;
    }
    assert(out@ =~= katakana_seq(input@));
    chars_to_string(out)
}

/// A katakana code point survives the round trip to hiragana and back,
/// and converting its hiragana form to hiragana again changes nothing,
/// so conversion to hiragana is idempotent on the mapped range.
pub proof fn lemma_kana_round_trip_char(c: char)
    requires
        0x30A1 <= c as int <= 0x30F6,
    ensures
        katakana_char(hiragana_char(c)) == c,
        hiragana_char(katakana_char(hiragana_char(c))) == hiragana_char(c),
{
}

/// A string of katakana code points converted to hiragana and back is
/// the original string, and a second conversion to hiragana of its
/// hiragana form changes nothing.
pub proof fn lemma_kana_round_trip(s: Seq<char>)
    requires
        forall|i: int| 0 <= i < s.len() ==> 0x30A1 <= #[trigger] (s[i] as int) <= 0x30F6,
    ensures
        katakana_seq(hiragana_seq(s)) == s,
        hiragana_seq(katakana_seq(hiragana_seq(s))) == hiragana_seq(s),
{
    assert forall|i: int| 0 <= i < s.len() implies katakana_seq(hiragana_seq(s))[i] == s[i]
        && hiragana_seq(katakana_seq(hiragana_seq(s)))[i] == hiragana_seq(s)[i] by {
        lemma_kana_round_trip_char(s[i]);
    }
    assert(katakana_seq(hiragana_seq(s)) =~= s);
    assert(hiragana_seq(katakana_seq(hiragana_seq(s))) =~= hiragana_seq(s));
}

} // verus!
