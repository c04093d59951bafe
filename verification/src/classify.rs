//! Classification of code points into fixed inclusive Unicode ranges,
//! and the per-category tally of a string.

use vstd::prelude::*;
use crate::chars::to_char_vec;

verus! {

/// Membership in the hiragana block U+3041..U+3096.
pub open spec fn spec_is_hiragana(c: char) -> bool {
    0x3041 <= c as int && c as int <= 0x3096
}

/// Membership in the katakana block U+30A1..U+30F6.
pub open spec fn spec_is_katakana(c: char) -> bool {
    0x30A1 <= c as int && c as int <= 0x30F6
}

/// Membership in the half-width katakana block U+FF61..U+FF9F.
pub open spec fn spec_is_half_width_katakana(c: char) -> bool {
    0xFF61 <= c as int && c as int <= 0xFF9F
}

/// Membership in the CJK unified ideograph block U+4E00..U+9FFF.
pub open spec fn spec_is_kanji(c: char) -> bool {
    0x4E00 <= c as int && c as int <= 0x9FFF
}

/// Membership in the full-width ASCII block U+FF01..U+FF5E, or the
/// ideographic space U+3000.
pub open spec fn spec_is_full_width(c: char) -> bool {
    (0xFF01 <= c as int && c as int <= 0xFF5E) || c as int == 0x3000
}

/// True of code points below 0x80, the ASCII range.
fn is_ascii_char(c: char) -> (r: bool)
    ensures
        r == ((c as int) < 0x80),
{
    (c as u32) < 0x80
}

/// True of hiragana: code points in U+3041..U+3096.
#[verifier::when_used_as_spec(spec_is_hiragana)]
pub fn is_hiragana(c: char) -> (r: bool)
    ensures
        r == spec_is_hiragana(c),
{
    let u = c as u32;
    0x3041 <= u && u <= 0x3096
}

/// True of katakana: code points in U+30A1..U+30F6.
#[verifier::when_used_as_spec(spec_is_katakana)]
pub fn is_katakana(c: char) -> (r: bool)
    ensures
        r == spec_is_katakana(c),
{
    let u = c as u32;
    0x30A1 <= u && u <= 0x30F6
}

/// True of half-width katakana: code points in U+FF61..U+FF9F.
#[verifier::when_used_as_spec(spec_is_half_width_katakana)]
pub fn is_half_width_katakana(c: char) -> (r: bool)
    ensures
        r == spec_is_half_width_katakana(c),
{
    let u = c as u32;
    0xFF61 <= u && u <= 0xFF9F
}

/// True of CJK unified ideographs of the basic plane: U+4E00..U+9FFF.
#[verifier::when_used_as_spec(spec_is_kanji)]
pub fn is_kanji(c: char) -> (r: bool)
    ensures
        r == spec_is_kanji(c),
{
    let u = c as u32;
    0x4E00 <= u && u <= 0x9FFF
}

/// True of full-width ASCII variants (U+FF01..U+FF5E) and the
/// ideographic space U+3000.
#[verifier::when_used_as_spec(spec_is_full_width)]
pub fn is_full_width(c: char) -> (r: bool)
    ensures
        r == spec_is_full_width(c),
{
    let u = c as u32;
    (0xFF01 <= u && u <= 0xFF5E) || u == 0x3000
}

/// The seven disjoint buckets a code point is tallied into.
pub enum CharClass {
    Hiragana,
    Katakana,
    HalfWidthKatakana,
    Kanji,
    Ascii,
    FullWidth,
    Other,
}

/// The bucket of one code point, decided in priority order: the four
/// script ranges first, then anything below 0x80 as ASCII, then the
/// full-width range, then the fallback bucket.
pub open spec fn class_of(c: char) -> CharClass {
    if spec_is_hiragana(c) {
        CharClass::Hiragana
    } else if spec_is_katakana(c) {
        CharClass::Katakana
    } else if spec_is_half_width_katakana(c) {
        CharClass::HalfWidthKatakana
    } else if spec_is_kanji(c) {
        CharClass::Kanji
    } else if (c as int) < 0x80 {
        CharClass::Ascii
    } else if spec_is_full_width(c) {
        CharClass::FullWidth
    } else {
        CharClass::Other
    }
}

/// How many code points of a sequence fall in the given bucket.
pub open spec fn count_class(s: Seq<char>, k: CharClass) -> nat
    decreases s.len(),
{
    if s.len() == 0 {
        0
    } else {
        count_class(s.drop_last(), k) + (if class_of(s.last()) == k {
            1nat
        } else {
            0nat
        })
    }
}

/// The per-bucket tally of one string: one count per category, summing
/// to the number of code points scanned.
#[derive(Debug, Clone, Copy, PartialEq, Eq, Structural)]
pub struct CharacterTypes {
    pub hiragana: usize,
    pub katakana: usize,
    pub half_width_katakana: usize,
    pub kanji: usize,
    pub ascii: usize,
    pub full_width: usize,
    pub other: usize,
}

/// The sum of the seven counts of a tally.
pub open spec fn tally_sum(t: CharacterTypes) -> int {
    t.hiragana + t.katakana + t.half_width_katakana + t.kanji + t.ascii + t.full_width + t.other
}

/// Tallies the code points of the input by bucket. Each count is the
/// number of code points of that category, and the counts sum to the
/// number of code points in the input.
pub fn count_character_types(input: &str) -> (r: CharacterTypes)
    ensures
        r.hiragana == count_class(input@, CharClass::Hiragana),
        r.katakana == count_class(input@, CharClass::Katakana),
        r.half_width_katakana == count_class(input@, CharClass::HalfWidthKatakana),
        r.kanji == count_class(input@, CharClass::Kanji),
        r.ascii == count_class(input@, CharClass::Ascii),
        r.full_width == count_class(input@, CharClass::FullWidth),
        r.other == count_class(input@, CharClass::Other),
        tally_sum(r) == input@.len(),
{
    let v = to_char_vec(input);
    let n = v.len();
    let mut counts = CharacterTypes {
        hiragana: 0,
        katakana: 0,
        half_width_katakana: 0,
        kanji: 0,
        ascii: 0,
        full_width: 0,
        other: 0,
    };
    let mut i: usize = 0;
    while i < n
        invariant
            i <= n,
            n == v@.len(),
            v@ == input@,
            counts.hiragana == count_class(v@.subrange(0, i as int), CharClass::Hiragana),
            counts.katakana == count_class(v@.subrange(0, i as int), CharClass::Katakana),
            counts.half_width_katakana == count_class(
                v@.subrange(0, i as int),
                CharClass::HalfWidthKatakana,
            ),
            counts.kanji == count_class(v@.subrange(0, i as int), CharClass::Kanji),
            counts.ascii == count_class(v@.subrange(0, i as int), CharClass::Ascii),
            counts.full_width == count_class(v@.subrange(0, i as int), CharClass::FullWidth),
            counts.other == count_class(v@.subrange(0, i as int), CharClass::Other),
            tally_sum(counts) == i,
        decreases n - i,
    {
        let c = v[i];
        if is_hiragana(c) {
            counts.hiragana = counts.hiragana + 1;
        } else if is_katakana(c) {
            counts.katakana = counts.katakana + 1;
        } else if is_half_width_katakana(c) {
            counts.half_width_katakana = counts.half_width_katakana + 1;
        } else if is_kanji(c) {
            counts.kanji = counts.kanji + 1;
        } else if is_ascii_char(c) {
            counts.ascii = counts.ascii + 1;
        } else if is_full_width(c) {
            counts.full_width = counts.full_width + 1;
        } else {
            counts.other = counts.other + 1;
        }
        i = i + 1;
        assert(v@.subrange(0, i as int).drop_last() =~= v@.subrange(0, i - 1));
    }
    assert(v@.subrange(0, n as int) =~= v@);
    counts
}

/// The four script classifications are pairwise exclusive: no code point
/// is in two of the hiragana, katakana, half-width katakana and kanji
/// ranges at once.
pub proof fn lemma_classes_exclusive(c: char)
    ensures
        !(spec_is_hiragana(c) && spec_is_katakana(c)),
        !(spec_is_hiragana(c) && spec_is_half_width_katakana(c)),
        !(spec_is_hiragana(c) && spec_is_kanji(c)),
        !(spec_is_katakana(c) && spec_is_half_width_katakana(c)),
        !(spec_is_katakana(c) && spec_is_kanji(c)),
        !(spec_is_half_width_katakana(c) && spec_is_kanji(c)),
{
}

} // verus!
