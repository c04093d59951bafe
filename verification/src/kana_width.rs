//! Conversion of half-width katakana (U+FF61..U+FF9F) to full-width
//! katakana. A base followed by the half-width voiced mark U+FF9E or
//! semi-voiced mark U+FF9F becomes one precomposed glyph; every other
//! code point of the block maps one-to-one; the rest pass through.

use vstd::prelude::*;
use crate::chars::{chars_to_string, to_char_vec};

verus! {

/// The precomposed voiced glyph for a half-width base followed by the
/// voiced-sound mark U+FF9E: the ka, sa, ta and ha rows and the vowel u
/// combine, everything else does not.
pub open spec fn voiced_combo(b: char) -> Option<char> {
    if b == '\u{FF76}' {
        Some('\u{30AC}')
    } else if b == '\u{FF77}' {
        Some('\u{30AE}')
    } else if b == '\u{FF78}' {
        Some('\u{30B0}')
    } else if b == '\u{FF79}' {
        Some('\u{30B2}')
    } else if b == '\u{FF7A}' {
        Some('\u{30B4}')
    } else if b == '\u{FF7B}' {
        Some('\u{30B6}')
    } else if b == '\u{FF7C}' {
        Some('\u{30B8}')
    } else if b == '\u{FF7D}' {
        Some('\u{30BA}')
    } else if b == '\u{FF7E}' {
        Some('\u{30BC}')
    } else if b == '\u{FF7F}' {
        Some('\u{30BE}')
    } else if b == '\u{FF80}' {
        Some('\u{30C0}')
    } else if b == '\u{FF81}' {
        Some('\u{30C2}')
    } else if b == '\u{FF82}' {
        Some('\u{30C5}')
    } else if b == '\u{FF83}' {
        Some('\u{30C7}')
    } else if b == '\u{FF84}' {
        Some('\u{30C9}')
    } else if b == '\u{FF8A}' {
        Some('\u{30D0}')
    } else if b == '\u{FF8B}' {
        Some('\u{30D3}')
    } else if b == '\u{FF8C}' {
        Some('\u{30D6}')
    } else if b == '\u{FF8D}' {
        Some('\u{30D9}')
    } else if b == '\u{FF8E}' {
        Some('\u{30DC}')
    } else if b == '\u{FF73}' {
        Some('\u{30F4}')
    } else {
        None
    }
}

/// The precomposed semi-voiced glyph for a half-width base followed by
/// the semi-voiced mark U+FF9F: only the ha row combines.
pub open spec fn semivoiced_combo(b: char) -> Option<char> {
    if b == '\u{FF8A}' {
        Some('\u{30D1}')
    } else if b == '\u{FF8B}' {
        Some('\u{30D4}')
    } else if b == '\u{FF8C}' {
        Some('\u{30D7}')
    } else if b == '\u{FF8D}' {
        Some('\u{30DA}')
    } else if b == '\u{FF8E}' {
        Some('\u{30DD}')
    } else {
        None
    }
}

/// The one-to-one full-width equivalent of a single half-width katakana
/// code point, covering the kana, the small kana, the prolonged mark
/// and the four punctuation marks of the block; code points without an
/// entry, the bare voicing marks among them, are unchanged.
pub open spec fn hw_single(c: char) -> char {
    if c == '\u{FF61}' {
        '\u{3002}'
    } else if c == '\u{FF62}' {
        '\u{300C}'
    } else if c == '\u{FF63}' {
        '\u{300D}'
    } else if c == '\u{FF64}' {
        '\u{3001}'
    } else if c == '\u{FF65}' {
        '\u{30FB}'
    } else if c == '\u{FF66}' {
        '\u{30F2}'
    } else if c == '\u{FF67}' {
        '\u{30A1}'
    } else if c == '\u{FF68}' {
        '\u{30A3}'
    } else if c == '\u{FF69}' {
        '\u{30A5}'
    } else if c == '\u{FF6A}' {
        '\u{30A7}'
    } else if c == '\u{FF6B}' {
        '\u{30A9}'
    } else if c == '\u{FF6C}' {
        '\u{30E3}'
    } else if c == '\u{FF6D}' {
        '\u{30E5}'
    } else if c == '\u{FF6E}' {
        '\u{30E7}'
    } else if c == '\u{FF6F}' {
        '\u{30C3}'
    } else if c == '\u{FF70}' {
        '\u{30FC}'
    } else if c == '\u{FF71}' {
        '\u{30A2}'
    } else if c == '\u{FF72}' {
        '\u{30A4}'
    } else if c == '\u{FF73}' {
        '\u{30A6}'
    } else if c == '\u{FF74}' {
        '\u{30A8}'
    } else if c == '\u{FF75}' {
        '\u{30AA}'
    } else if c == '\u{FF76}' {
        '\u{30AB}'
    } else if c == '\u{FF77}' {
        '\u{30AD}'
    } else if c == '\u{FF78}' {
        '\u{30AF}'
    } else if c == '\u{FF79}' {
        '\u{30B1}'
    } else if c == '\u{FF7A}' {
        '\u{30B3}'
    } else if c == '\u{FF7B}' {
        '\u{30B5}'
    } else if c == '\u{FF7C}' {
        '\u{30B7}'
    } else if c == '\u{FF7D}' {
        '\u{30B9}'
    } else if c == '\u{FF7E}' {
        '\u{30BB}'
    } else if c == '\u{FF7F}' {
        '\u{30BD}'
    } else if c == '\u{FF80}' {
        '\u{30BF}'
    } else if c == '\u{FF81}' {
        '\u{30C1}'
    } else if c == '\u{FF82}' {
        '\u{30C4}'
    } else if c == '\u{FF83}' {
        '\u{30C6}'
    } else if c == '\u{FF84}' {
        '\u{30C8}'
    } else if c == '\u{FF85}' {
        '\u{30CA}'
    } else if c == '\u{FF86}' {
        '\u{30CB}'
    } else if c == '\u{FF87}' {
        '\u{30CC}'
    } else if c == '\u{FF88}' {
        '\u{30CD}'
    } else if c == '\u{FF89}' {
        '\u{30CE}'
    } else if c == '\u{FF8A}' {
        '\u{30CF}'
    } else if c == '\u{FF8B}' {
        '\u{30D2}'
    } else if c == '\u{FF8C}' {
        '\u{30D5}'
    } else if c == '\u{FF8D}' {
        '\u{30D8}'
    } else if c == '\u{FF8E}' {
        '\u{30DB}'
    } else if c == '\u{FF8F}' {
        '\u{30DE}'
    } else if c == '\u{FF90}' {
        '\u{30DF}'
    } else if c == '\u{FF91}' {
        '\u{30E0}'
    } else if c == '\u{FF92}' {
        '\u{30E1}'
    } else if c == '\u{FF93}' {
        '\u{30E2}'
    } else if c == '\u{FF94}' {
        '\u{30E4}'
    } else if c == '\u{FF95}' {
        '\u{30E6}'
    } else if c == '\u{FF96}' {
        '\u{30E8}'
    } else if c == '\u{FF97}' {
        '\u{30E9}'
    } else if c == '\u{FF98}' {
        '\u{30EA}'
    } else if c == '\u{FF99}' {
        '\u{30EB}'
    } else if c == '\u{FF9A}' {
        '\u{30EC}'
    } else if c == '\u{FF9B}' {
        '\u{30ED}'
    } else if c == '\u{FF9C}' {
        '\u{30EF}'
    } else if c == '\u{FF9D}' {
        '\u{30F3}'
    } else {
        c
    }
}

/// The whole conversion: a left-to-right scan with one code point of
/// lookahead that consumes two code points for a voicing combination
/// and one otherwise.
pub open spec fn combine_kana(s: Seq<char>) -> Seq<char>
    decreases s.len(),
{
    if s.len() == 0 {
        Seq::empty()
    } else if s.len() >= 2 && s[1] == '\u{FF9E}' && voiced_combo(s[0]) is Some {
        seq![voiced_combo(s[0])->0] + combine_kana(s.skip(2))
    } else if s.len() >= 2 && s[1] == '\u{FF9F}' && semivoiced_combo(s[0]) is Some {
        seq![semivoiced_combo(s[0])->0] + combine_kana(s.skip(2))
    } else {
        seq![hw_single(s[0])] + combine_kana(s.skip(1))
    }
}

/// The conversion never lengthens the text: it emits one code point for
/// every one or two it consumes.
pub proof fn lemma_combine_kana_len(s: Seq<char>)
    ensures
        combine_kana(s).len() <= s.len(),
    decreases s.len(),
{
    if s.len() == 0 {
    } else if s.len() >= 2 && s[1] == '\u{FF9E}' && voiced_combo(s[0]) is Some {
        lemma_combine_kana_len(s.skip(2));
    } else if s.len() >= 2 && s[1] == '\u{FF9F}' && semivoiced_combo(s[0]) is Some {
        lemma_combine_kana_len(s.skip(2));
    } else {
        lemma_combine_kana_len(s.skip(1));
    }
}

/// Looks one half-width base up in the voiced-combination table.
fn voiced_combo_of(b: char) -> (r: Option<char>)
    ensures
        r == voiced_combo(b),
{
    if b == '\u{FF76}' {
        Some('\u{30AC}')
    } else if b == '\u{FF77}' {
        Some('\u{30AE}')
    } else if b == '\u{FF78}' {
        Some('\u{30B0}')
    } else if b == '\u{FF79}' {
        Some('\u{30B2}')
    } else if b == '\u{FF7A}' {
        Some('\u{30B4}')
    } else if b == '\u{FF7B}' {
        Some('\u{30B6}')
    } else if b == '\u{FF7C}' {
        Some('\u{30B8}')
    } else if b == '\u{FF7D}' {
        Some('\u{30BA}')
    } else if b == '\u{FF7E}' {
        Some('\u{30BC}')
    } else if b == '\u{FF7F}' {
        Some('\u{30BE}')
    } else if b == '\u{FF80}' {
        Some('\u{30C0}')
    } else if b == '\u{FF81}' {
        Some('\u{30C2}')
    } else if b == '\u{FF82}' {
        Some('\u{30C5}')
    } else if b == '\u{FF83}' {
        Some('\u{30C7}')
    } else if b == '\u{FF84}' {
        Some('\u{30C9}')
    } else if b == '\u{FF8A}' {
        Some('\u{30D0}')
    } else if b == '\u{FF8B}' {
        Some('\u{30D3}')
    } else if b == '\u{FF8C}' {
        Some('\u{30D6}')
    } else if b == '\u{FF8D}' {
        Some('\u{30D9}')
    } else if b == '\u{FF8E}' {
        Some('\u{30DC}')
    } else if b == '\u{FF73}' {
        Some('\u{30F4}')
    } else {
        None
    }
}

/// Looks one half-width base up in the semi-voiced-combination table.
fn semivoiced_combo_of(b: char) -> (r: Option<char>)
    ensures
        r == semivoiced_combo(b),
{
    if b == '\u{FF8A}' {
        Some('\u{30D1}')
    } else if b == '\u{FF8B}' {
        Some('\u{30D4}')
    } else if b == '\u{FF8C}' {
        Some('\u{30D7}')
    } else if b == '\u{FF8D}' {
        Some('\u{30DA}')
    } else if b == '\u{FF8E}' {
        Some('\u{30DD}')
    } else {
        None
    }
}

/// Looks one code point up in the one-to-one table.
fn hw_single_of(c: char) -> (r: char)
    ensures
        r == hw_single(c),
{
    if c == '\u{FF61}' {
        '\u{3002}'
    } else if c == '\u{FF62}' {
        '\u{300C}'
    } else if c == '\u{FF63}' {
        '\u{300D}'
    } else if c == '\u{FF64}' {
        '\u{3001}'
    } else if c == '\u{FF65}' {
        '\u{30FB}'
    } else if c == '\u{FF66}' {
        '\u{30F2}'
    } else if c == '\u{FF67}' {
        '\u{30A1}'
    } else if c == '\u{FF68}' {
        '\u{30A3}'
    } else if c == '\u{FF69}' {
        '\u{30A5}'
    } else if c == '\u{FF6A}' {
        '\u{30A7}'
    } else if c == '\u{FF6B}' {
        '\u{30A9}'
    } else if c == '\u{FF6C}' {
        '\u{30E3}'
    } else if c == '\u{FF6D}' {
        '\u{30E5}'
    } else if c == '\u{FF6E}' {
        '\u{30E7}'
    } else if c == '\u{FF6F}' {
        '\u{30C3}'
    } else if c == '\u{FF70}' {
        '\u{30FC}'
    } else if c == '\u{FF71}' {
        '\u{30A2}'
    } else if c == '\u{FF72}' {
        '\u{30A4}'
    } else if c == '\u{FF73}' {
        '\u{30A6}'
    } else if c == '\u{FF74}' {
        '\u{30A8}'
    } else if c == '\u{FF75}' {
        '\u{30AA}'
    } else if c == '\u{FF76}' {
        '\u{30AB}'
    } else if c == '\u{FF77}' {
        '\u{30AD}'
    } else if c == '\u{FF78}' {
        '\u{30AF}'
    } else if c == '\u{FF79}' {
        '\u{30B1}'
    } else if c == '\u{FF7A}' {
        '\u{30B3}'
    } else if c == '\u{FF7B}' {
        '\u{30B5}'
    } else if c == '\u{FF7C}' {
        '\u{30B7}'
    } else if c == '\u{FF7D}' {
        '\u{30B9}'
    } else if c == '\u{FF7E}' {
        '\u{30BB}'
    } else if c == '\u{FF7F}' {
        '\u{30BD}'
    } else if c == '\u{FF80}' {
        '\u{30BF}'
    } else if c == '\u{FF81}' {
        '\u{30C1}'
    } else if c == '\u{FF82}' {
        '\u{30C4}'
    } else if c == '\u{FF83}' {
        '\u{30C6}'
    } else if c == '\u{FF84}' {
        '\u{30C8}'
    } else if c == '\u{FF85}' {
        '\u{30CA}'
    } else if c == '\u{FF86}' {
        '\u{30CB}'
    } else if c == '\u{FF87}' {
        '\u{30CC}'
    } else if c == '\u{FF88}' {
        '\u{30CD}'
    } else if c == '\u{FF89}' {
        '\u{30CE}'
    } else if c == '\u{FF8A}' {
        '\u{30CF}'
    } else if c == '\u{FF8B}' {
        '\u{30D2}'
    } else if c == '\u{FF8C}' {
        '\u{30D5}'
    } else if c == '\u{FF8D}' {
        '\u{30D8}'
    } else if c == '\u{FF8E}' {
        '\u{30DB}'
    } else if c == '\u{FF8F}' {
        '\u{30DE}'
    } else if c == '\u{FF90}' {
        '\u{30DF}'
    } else if c == '\u{FF91}' {
        '\u{30E0}'
    } else if c == '\u{FF92}' {
        '\u{30E1}'
    } else if c == '\u{FF93}' {
        '\u{30E2}'
    } else if c == '\u{FF94}' {
        '\u{30E4}'
    } else if c == '\u{FF95}' {
        '\u{30E6}'
    } else if c == '\u{FF96}' {
        '\u{30E8}'
    } else if c == '\u{FF97}' {
        '\u{30E9}'
    } else if c == '\u{FF98}' {
        '\u{30EA}'
    } else if c == '\u{FF99}' {
        '\u{30EB}'
    } else if c == '\u{FF9A}' {
        '\u{30EC}'
    } else if c == '\u{FF9B}' {
        '\u{30ED}'
    } else if c == '\u{FF9C}' {
        '\u{30EF}'
    } else if c == '\u{FF9D}' {
        '\u{30F3}'
    } else {
        c
    }
}

/// Converts half-width katakana to full-width katakana, combining a
/// base with a following voiced or semi-voiced mark into the single
/// precomposed glyph; code points outside the tables pass through
/// unchanged.
pub fn half_width_katakana_to_full_width(input: &str) -> (r: String)
    ensures
        r@ == combine_kana(input@),
{
    let v = to_char_vec(input);
    let n = v.len();
    let mut out: Vec<char> = Vec::new();
    let mut i: usize = 0;
    proof {
        assert(v@.subrange(0, n as int) =~= v@);
        assert(Seq::<char>::empty() + combine_kana(v@) =~= combine_kana(v@));
    }
    while i < n
        invariant
            i <= n,
            n == v@.len(),
            v@ == input@,
            combine_kana(v@) == out@ + combine_kana(v@.subrange(i as int, n as int)),
        decreases n - i,
    {
        let ghost rem = v@.subrange(i as int, n as int);
        let c = v[i];
        let mut used_pair = false;
        if i + 1 < n {
            let m = v[i + 1];
            if m == '\u{FF9E}' {
                match voiced_combo_of(c) {
                    Some(g) => {
                        out.push(g);
                        used_pair = true;
                    },
                    None => {},
                }
            } else if m == '\u{FF9F}' {
                match semivoiced_combo_of(c) {
                    Some(g) => {
                        out.push(g);
                        used_pair = true;
                    },
                    None => {},
                }
            }
        }
        if used_pair {
            i = i + 2;
            proof {
                assert(rem.skip(2) =~= v@.subrange(i as int, n as int));
            }
        } else {
            out.push(hw_single_of(c));
            i = i + 1;
            proof {
                assert(rem.skip(1) =~= v@.subrange(i as int, n as int));
            }
        }
    }
    proof {
        assert(v@.subrange(n as int, n as int) =~= Seq::<char>::empty());
    }
    chars_to_string(out)
}

} // verus!
