//! The width and script conversions, their round trips, and empty
//! input.

use japanese_text::to_full_width;
use japanese_text::to_half_width;
use japanese_text::to_hiragana;
use japanese_text::to_katakana;

#[test]
fn test_to_half_width() {
    assert_eq!(to_half_width("\u{FF21}\u{FF22}\u{FF23}"), "ABC");
    assert_eq!(to_half_width("\u{FF11}\u{FF12}\u{FF13}"), "123");
    assert_eq!(to_half_width("\u{FF01}\u{FF20}\u{FF03}"), "!@#");
    assert_eq!(to_half_width("\u{3000}"), " ");
    assert_eq!(to_half_width("\u{FF28}\u{FF45}\u{FF4C}\u{FF4C}\u{FF4F}\u{3000}\u{FF37}\u{FF4F}\u{FF52}\u{FF4C}\u{FF44}"), "Hello World");
    // Mixed content
    assert_eq!(to_half_width("\u{FF21}\u{FF22}\u{FF23}\u{3042}\u{3044}\u{3046}"), "ABC\u{3042}\u{3044}\u{3046}");
}

#[test]
fn test_to_full_width() {
    assert_eq!(to_full_width("ABC"), "\u{FF21}\u{FF22}\u{FF23}");
    assert_eq!(to_full_width("123"), "\u{FF11}\u{FF12}\u{FF13}");
    assert_eq!(to_full_width("!@#"), "\u{FF01}\u{FF20}\u{FF03}");
    assert_eq!(to_full_width(" "), "\u{3000}");
    assert_eq!(to_full_width("Hello World"), "\u{FF28}\u{FF45}\u{FF4C}\u{FF4C}\u{FF4F}\u{3000}\u{FF37}\u{FF4F}\u{FF52}\u{FF4C}\u{FF44}");
    // Mixed content
    assert_eq!(to_full_width("ABC\u{3042}\u{3044}\u{3046}"), "\u{FF21}\u{FF22}\u{FF23}\u{3042}\u{3044}\u{3046}");
}

#[test]
fn test_to_hiragana() {
    assert_eq!(to_hiragana("\u{30AB}\u{30BF}\u{30AB}\u{30CA}"), "\u{304B}\u{305F}\u{304B}\u{306A}");
    assert_eq!(to_hiragana("\u{30B3}\u{30F3}\u{30CB}\u{30C1}\u{30CF}"), "\u{3053}\u{3093}\u{306B}\u{3061}\u{306F}");
    assert_eq!(to_hiragana("\u{30A2}\u{30A4}\u{30A6}\u{30A8}\u{30AA}"), "\u{3042}\u{3044}\u{3046}\u{3048}\u{304A}");
    assert_eq!(to_hiragana("\u{30F4}\u{30A1}\u{30A4}\u{30AA}\u{30EA}\u{30F3}"), "\u{3094}\u{3041}\u{3044}\u{304A}\u{308A}\u{3093}");
    // Mixed content
    assert_eq!(to_hiragana("\u{30AB}\u{30BF}\u{30AB}\u{30CA}ABC"), "\u{304B}\u{305F}\u{304B}\u{306A}ABC");
}

#[test]
fn test_to_katakana() {
    assert_eq!(to_katakana("\u{3072}\u{3089}\u{304C}\u{306A}"), "\u{30D2}\u{30E9}\u{30AC}\u{30CA}");
    assert_eq!(to_katakana("\u{3053}\u{3093}\u{306B}\u{3061}\u{306F}"), "\u{30B3}\u{30F3}\u{30CB}\u{30C1}\u{30CF}");
    assert_eq!(to_katakana("\u{3042}\u{3044}\u{3046}\u{3048}\u{304A}"), "\u{30A2}\u{30A4}\u{30A6}\u{30A8}\u{30AA}");
    assert_eq!(to_katakana("\u{3094}\u{3041}\u{3044}\u{304A}\u{308A}\u{3093}"), "\u{30F4}\u{30A1}\u{30A4}\u{30AA}\u{30EA}\u{30F3}");
    // Mixed content
    assert_eq!(to_katakana("\u{3072}\u{3089}\u{304C}\u{306A}ABC"), "\u{30D2}\u{30E9}\u{30AC}\u{30CA}ABC");
}

#[test]
fn test_roundtrip_full_half_width() {
    let original = "ABC123!@#";
    let full = to_full_width(original);
    let back = to_half_width(&full);
    assert_eq!(original, back);
}

#[test]
fn test_roundtrip_hiragana_katakana() {
    let original = "\u{3053}\u{3093}\u{306B}\u{3061}\u{306F}";
    let katakana = to_katakana(original);
    let back = to_hiragana(&katakana);
    assert_eq!(original, back);
}

#[test]
fn test_empty_string() {
    assert_eq!(to_half_width(""), "");
    assert_eq!(to_full_width(""), "");
    assert_eq!(to_hiragana(""), "");
    assert_eq!(to_katakana(""), "");
}
