//! Expansion of the kana iteration marks: each mark repeats the code
//! point just before it, the voiced marks adding a dakuten to it by a
//! closed voicing table over the ka, sa, ta and ha rows of both kana
//! scripts.

use vstd::prelude::*;
use crate::chars::{chars_to_string, to_char_vec};

verus! {

/// The voiced form of a kana: the ka, sa, ta and ha rows of hiragana
/// and katakana each gain a dakuten; anything outside the table is
/// unchanged.
pub open spec fn dakuten_char(c: char) -> char {
    if c == '\u{304B}' {
        '\u{304C}'
    } else if c == '\u{304D}' {
        '\u{304E}'
    } else if c == '\u{304F}' {
        '\u{3050}'
    } else if c == '\u{3051}' {
        '\u{3052}'
    } else if c == '\u{3053}' {
        '\u{3054}'
    } else if c == '\u{3055}' {
        '\u{3056}'
    } else if c == '\u{3057}' {
        '\u{3058}'
    } else if c == '\u{3059}' {
        '\u{305A}'
    } else if c == '\u{305B}' {
        '\u{305C}'
    } else if c == '\u{305D}' {
        '\u{305E}'
    } else if c == '\u{305F}' {
        '\u{3060}'
    } else if c == '\u{3061}' {
        '\u{3062}'
    } else if c == '\u{3064}' {
        '\u{3065}'
    } else if c == '\u{3066}' {
        '\u{3067}'
    } else if c == '\u{3068}' {
        '\u{3069}'
    } else if c == '\u{306F}' {
        '\u{3070}'
    } else if c == '\u{3072}' {
        '\u{3073}'
    } else if c == '\u{3075}' {
        '\u{3076}'
    } else if c == '\u{3078}' {
        '\u{3079}'
    } else if c == '\u{307B}' {
        '\u{307C}'
    } else if c == '\u{30AB}' {
        '\u{30AC}'
    } else if c == '\u{30AD}' {
        '\u{30AE}'
    } else if c == '\u{30AF}' {
        '\u{30B0}'
    } else if c == '\u{30B1}' {
        '\u{30B2}'
    } else if c == '\u{30B3}' {
        '\u{30B4}'
    } else if c == '\u{30B5}' {
        '\u{30B6}'
    } else if c == '\u{30B7}' {
        '\u{30B8}'
    } else if c == '\u{30B9}' {
        '\u{30BA}'
    } else if c == '\u{30BB}' {
        '\u{30BC}'
    } else if c == '\u{30BD}' {
        '\u{30BE}'
    } else if c == '\u{30BF}' {
        '\u{30C0}'
    } else if c == '\u{30C1}' {
        '\u{30C2}'
    } else if c == '\u{30C4}' {
        '\u{30C5}'
    } else if c == '\u{30C6}' {
        '\u{30C7}'
    } else if c == '\u{30C8}' {
        '\u{30C9}'
    } else if c == '\u{30CF}' {
        '\u{30D0}'
    } else if c == '\u{30D2}' {
        '\u{30D3}'
    } else if c == '\u{30D5}' {
        '\u{30D6}'
    } else if c == '\u{30D8}' {
        '\u{30D9}'
    } else if c == '\u{30DB}' {
        '\u{30DC}'
    } else {
        c
    }
}

/// Looks one code point up in the voicing table.
fn add_dakuten(c: char) -> (r: char)
    ensures
        r == dakuten_char(c),
{
    if c == '\u{304B}' {
        '\u{304C}'
    } else if c == '\u{304D}' {
        '\u{304E}'
    } else if c == '\u{304F}' {
        '\u{3050}'
    } else if c == '\u{3051}' {
        '\u{3052}'
    } else if c == '\u{3053}' {
        '\u{3054}'
    } else if c == '\u{3055}' {
        '\u{3056}'
    } else if c == '\u{3057}' {
        '\u{3058}'
    } else if c == '\u{3059}' {
        '\u{305A}'
    } else if c == '\u{305B}' {
        '\u{305C}'
    } else if c == '\u{305D}' {
        '\u{305E}'
    } else if c == '\u{305F}' {
        '\u{3060}'
    } else if c == '\u{3061}' {
        '\u{3062}'
    } else if c == '\u{3064}' {
        '\u{3065}'
    } else if c == '\u{3066}' {
        '\u{3067}'
    } else if c == '\u{3068}' {
        '\u{3069}'
    } else if c == '\u{306F}' {
        '\u{3070}'
    } else if c == '\u{3072}' {
        '\u{3073}'
    } else if c == '\u{3075}' {
        '\u{3076}'
    } else if c == '\u{3078}' {
        '\u{3079}'
    } else if c == '\u{307B}' {
        '\u{307C}'
    } else if c == '\u{30AB}' {
        '\u{30AC}'
    } else if c == '\u{30AD}' {
        '\u{30AE}'
    } else if c == '\u{30AF}' {
        '\u{30B0}'
    } else if c == '\u{30B1}' {
        '\u{30B2}'
    } else if c == '\u{30B3}' {
        '\u{30B4}'
    } else if c == '\u{30B5}' {
        '\u{30B6}'
    } else if c == '\u{30B7}' {
        '\u{30B8}'
    } else if c == '\u{30B9}' {
        '\u{30BA}'
    } else if c == '\u{30BB}' {
        '\u{30BC}'
    } else if c == '\u{30BD}' {
        '\u{30BE}'
    } else if c == '\u{30BF}' {
        '\u{30C0}'
    } else if c == '\u{30C1}' {
        '\u{30C2}'
    } else if c == '\u{30C4}' {
        '\u{30C5}'
    } else if c == '\u{30C6}' {
        '\u{30C7}'
    } else if c == '\u{30C8}' {
        '\u{30C9}'
    } else if c == '\u{30CF}' {
        '\u{30D0}'
    } else if c == '\u{30D2}' {
        '\u{30D3}'
    } else if c == '\u{30D5}' {
        '\u{30D6}'
    } else if c == '\u{30D8}' {
        '\u{30D9}'
    } else if c == '\u{30DB}' {
        '\u{30DC}'
    } else {
        c
    }
}

/// What the scan emits at one position: an unvoiced iteration mark
/// (U+309D hiragana, U+30FD katakana) repeats the preceding code point
/// verbatim, a voiced one (U+309E, U+30FE) repeats its voiced form, and
/// a mark at the first position, with nothing before it, stays itself;
/// every other code point stays itself.
pub open spec fn expand_at(s: Seq<char>, i: int) -> char
    recommends
        0 <= i < s.len(),
{
    if s[i] == '\u{309D}' || s[i] == '\u{30FD}' {
        if i > 0 {
            s[i - 1]
        } else {
            s[i]
        }
    } else if s[i] == '\u{309E}' || s[i] == '\u{30FE}' {
        if i > 0 {
            dakuten_char(s[i - 1])
        } else {
            s[i]
        }
    } else {
        s[i]
    }
}

/// A sequence with every iteration mark expanded, position by position.
pub open spec fn expand_marks(s: Seq<char>) -> Seq<char> {
    Seq::new(s.len(), |i: int| expand_at(s, i))
}

/// Expands the hiragana and katakana iteration marks: each is replaced
/// by the code point immediately before it in the input, voiced marks
/// by its voiced form, and a mark at the very start passes through
/// unchanged.
pub fn expand_iteration_marks(input: &str) -> (r: String)
    ensures
        r@ == expand_marks(input@),
        r@.len() == input@.len(),
{
    let v = to_char_vec(input);
    let n = v.len();
    let mut out: Vec<char> = Vec::new();
    let mut i: usize = 0;
    while i < n
        invariant
            i <= n,
            n == v@.len(),
            v@ == input@,
            out@.len() == i,
            forall|j: int| 0 <= j < i ==> out@[j] == expand_at(v@, j),
        decreases n - i,
    {
        let c = v[i];
        let d: char = if c == '\u{309D}' || c == '\u{30FD}' {
            if i > 0 {
                v[i - 1]
            } else {
                c
            }
        } else if c == '\u{309E}' || c == '\u{30FE}' {
            if i > 0 {
                add_dakuten(v[i - 1])
            } else {
                c
            }
        } else {
            c
        };
        out.push(d);
        i = i + 1;
    }
    assert(out@ =~= expand_marks(input@));
    chars_to_string(out)
}

} // verus!
