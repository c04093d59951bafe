//! The classification predicates and the per-category tally.

use japanese_text::count_character_types;
use japanese_text::is_full_width;
use japanese_text::is_half_width_katakana;
use japanese_text::is_hiragana;
use japanese_text::is_kanji;
use japanese_text::is_katakana;

#[test]
fn test_is_hiragana() {
    assert_eq!(is_hiragana('\u{3042}'), true);
    assert_eq!(is_hiragana('\u{3093}'), true);
    assert_eq!(is_hiragana('\u{30A2}'), false);
    assert_eq!(is_hiragana('A'), false);
    assert_eq!(is_hiragana('\u{6F22}'), false);
}

#[test]
fn test_is_katakana() {
    assert_eq!(is_katakana('\u{30A2}'), true);
    assert_eq!(is_katakana('\u{30F3}'), true);
    assert_eq!(is_katakana('\u{3042}'), false);
    assert_eq!(is_katakana('A'), false);
}

#[test]
fn test_is_half_width_katakana() {
    assert_eq!(is_half_width_katakana('\u{FF71}'), true);
    assert_eq!(is_half_width_katakana('\u{FF9D}'), true);
    assert_eq!(is_half_width_katakana('\u{30A2}'), false);
    assert_eq!(is_half_width_katakana('A'), false);
}

#[test]
fn test_is_kanji() {
    assert_eq!(is_kanji('\u{6F22}'), true);
    assert_eq!(is_kanji('\u{5B57}'), true);
    assert_eq!(is_kanji('\u{3042}'), false);
    assert_eq!(is_kanji('A'), false);
}

#[test]
fn test_is_full_width() {
    assert_eq!(is_full_width('\u{FF21}'), true);
    assert_eq!(is_full_width('\u{FF11}'), true);
    assert_eq!(is_full_width('\u{3000}'), true);
    assert_eq!(is_full_width('A'), false);
}

#[test]
fn test_count_character_types() {
    let counts = count_character_types("\u{3042}\u{30A2}\u{6F22}ABC123\u{FF71}\u{FF72}\u{FF73}");
    assert_eq!(counts.hiragana, 1);
    assert_eq!(counts.katakana, 1);
    assert_eq!(counts.kanji, 1);
    assert_eq!(counts.ascii, 6);
    assert_eq!(counts.half_width_katakana, 3);
}
