//! Whitespace normalization — every whitespace run becomes one ASCII
//! space, with leading and trailing whitespace removed — and the
//! normalization of prolonged-sound marks.

use vstd::prelude::*;
use crate::chars::{chars_to_string, to_char_vec};

verus! {

/// The Unicode whitespace code points: those with the White_Space
/// property, which is also what the ideographic space U+3000 carries.
pub open spec fn is_space_char(c: char) -> bool {
    (0x09 <= c as int && c as int <= 0x0D) || c as int == 0x20 || c as int == 0x85
        || c as int == 0xA0 || c as int == 0x1680 || (0x2000 <= c as int && c as int <= 0x200A)
        || c as int == 0x2028 || c as int == 0x2029 || c as int == 0x202F || c as int == 0x205F
        || c as int == 0x3000
}

/// Decides `is_space_char` for one code point.
fn is_space(c: char) -> (r: bool)
    ensures
        r == is_space_char(c),
{
    let u = c as u32;
    (0x09 <= u && u <= 0x0D) || u == 0x20 || u == 0x85 || u == 0xA0 || u == 0x1680 || (0x2000 <= u
        && u <= 0x200A) || u == 0x2028 || u == 0x2029 || u == 0x202F || u == 0x205F || u == 0x3000
}

/// The normalized form of a sequence no word of which has been emitted
/// yet: leading whitespace is dropped, and the first word opens the
/// output.
pub open spec fn normalize_ws(s: Seq<char>) -> Seq<char>
    decreases s.len(),
{
    if s.len() == 0 {
        Seq::empty()
    } else if is_space_char(s[0]) {
        normalize_ws(s.drop_first())
    } else {
        seq![s[0]] + norm_word(s.drop_first())
    }
}

/// The rest of the normalized form while inside a word: word characters
/// pass through, and whitespace ends the word.
pub open spec fn norm_word(s: Seq<char>) -> Seq<char>
    decreases s.len(),
{
    if s.len() == 0 {
        Seq::empty()
    } else if is_space_char(s[0]) {
        norm_gap(s.drop_first())
    } else {
        seq![s[0]] + norm_word(s.drop_first())
    }
}

/// The rest of the normalized form inside whitespace that follows a
/// word: more whitespace is dropped, and a next word, if any, is
/// preceded by a single separating space.
pub open spec fn norm_gap(s: Seq<char>) -> Seq<char>
    decreases s.len(),
{
    if s.len() == 0 {
        Seq::empty()
    } else if is_space_char(s[0]) {
        norm_gap(s.drop_first())
    } else {
        seq![' ', s[0]] + norm_word(s.drop_first())
    }
}

/// Whitespace normalization never lengthens the text: dropped
/// whitespace pays for every separating space that is emitted.
pub proof fn lemma_normalize_ws_len(s: Seq<char>)
    ensures
        normalize_ws(s).len() <= s.len(),
        norm_word(s).len() <= s.len(),
        norm_gap(s).len() <= s.len() + 1,
    decreases s.len(),
{
    if s.len() == 0 {
    } else {
        lemma_normalize_ws_len(s.drop_first());
    }
}

/// Replaces every whitespace code point (the Unicode whitespace set,
/// which includes the ideographic space) by the ASCII space, collapses
/// each whitespace run to a single space, and trims leading and
/// trailing whitespace.
pub fn normalize_whitespace(input: &str) -> (r: String)
    ensures
        r@ == normalize_ws(input@),
{
    let v = to_char_vec(input);
    let n = v.len();
    let mut out: Vec<char> = Vec::new();
    // 0 before the first word, 1 inside a word, 2 in whitespace after a word
    let mut state: u8 = 0;
    let mut i: usize = 0;
    proof {
        assert(v@.subrange(0, n as int) =~= v@);
        assert(Seq::<char>::empty() + normalize_ws(v@) =~= normalize_ws(v@));
    }
    while i < n
        invariant
            i <= n,
            n == v@.len(),
            v@ == input@,
            state == 0 || state == 1 || state == 2,
            state == 0 ==> normalize_ws(v@) == out@ + normalize_ws(v@.subrange(i as int, n as int)),
            state == 1 ==> normalize_ws(v@) == out@ + norm_word(v@.subrange(i as int, n as int)),
            state == 2 ==> normalize_ws(v@) == out@ + norm_gap(v@.subrange(i as int, n as int)),
        decreases n - i,
    {
        let ghost rem = v@.subrange(i as int, n as int);
        let c = v[i];
        if is_space(c) {
            if state == 1 {
                state = 2;
            }
        } else {
            if state == 2 {
                out.push(' ');
            }
            out.push(c);
            state = 1;
        }
        i = i + 1;
        proof {
            assert(rem[0] == c);
            assert(rem.drop_first() =~= v@.subrange(i as int, n as int));
        }
    }
    proof {
        assert(v@.subrange(0, n as int) =~= v@);
        assert(v@.subrange(n as int, n as int) =~= Seq::<char>::empty());
    }
    chars_to_string(out)
}

/// What one code point becomes under prolonged-sound normalization: the
/// wave dash U+301C and the fullwidth tilde U+FF5E become the prolonged
/// sound mark U+30FC, everything else is unchanged.
pub open spec fn prolonged_char(c: char) -> char {
    if c as int == 0x301C || c as int == 0xFF5E {
        '\u{30FC}'
    } else {
        c
    }
}

/// A sequence of code points under prolonged-sound normalization,
/// pointwise.
pub open spec fn prolonged_seq(s: Seq<char>) -> Seq<char> {
    s.map_values(|c: char| prolonged_char(c))
}

/// Maps one code point as `prolonged_char` says.
fn map_prolonged(c: char) -> (r: char)
    ensures
        r == prolonged_char(c),
{
    let u = c as u32;
    if u == 0x301C || u == 0xFF5E {
        '\u{30FC}'
    } else {
        c
    }
}

/// Replaces the wave dash U+301C and the fullwidth tilde U+FF5E by the
/// katakana-hiragana prolonged sound mark U+30FC; all other code points
/// pass through unchanged.
pub fn normalize_prolonged_sound(input: &str) -> (r: String)
    ensures
        r@ == prolonged_seq(input@),
        r@.len() == input@.len(),
{
    let v = to_char_vec(input);
    let n = v.len();
    let mut out: Vec<char> = Vec::new();
    let mut i: usize = 0;
    while i < n
        invariant
            i <= n,
            n == v@.len(),
            v@ == input@,
            out@.len() == i,
            forall|j: int| 0 <= j < i ==> out@[j] == prolonged_char(v@[j]),
        decreases n - i,
    {
        let d = map_prolonged(v[i]);
        out.push(d);
        i = i + 1;
    }
    assert(out@ =~= prolonged_seq(input@));
    chars_to_string(out)
}

} // verus!
