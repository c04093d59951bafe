//! Spot checks of the library's general guarantees on concrete values:
//! round trips over the whole mapped ranges, tally sums, exclusivity of
//! the classification ranges, empty inputs, and literal scenarios.

use japanese_text::count_character_types;
use japanese_text::expand_iteration_marks;
use japanese_text::half_width_katakana_to_full_width;
use japanese_text::is_half_width_katakana;
use japanese_text::is_hiragana;
use japanese_text::is_kanji;
use japanese_text::is_katakana;
use japanese_text::normalize_prolonged_sound;
use japanese_text::normalize_whitespace;
use japanese_text::to_full_width;
use japanese_text::to_half_width;
use japanese_text::to_hiragana;
use japanese_text::to_katakana;

#[test]
fn width_round_trip_whole_ascii_range() {
    for u in 0x21u32..=0x7E {
        let c = char::from_u32(u).unwrap();
        let s = c.to_string();
        let full = to_full_width(&s);
        assert_ne!(full, s);
        assert_eq!(to_half_width(&full), s);
    }
}

#[test]
fn width_round_trip_whole_full_width_range() {
    for u in 0xFF01u32..=0xFF5E {
        let c = char::from_u32(u).unwrap();
        let s = c.to_string();
        let half = to_half_width(&s);
        assert_ne!(half, s);
        assert_eq!(to_full_width(&half), s);
    }
}

#[test]
fn kana_round_trip_whole_katakana_range() {
    for u in 0x30A1u32..=0x30F6 {
        let k = char::from_u32(u).unwrap();
        let s = k.to_string();
        let hira = to_hiragana(&s);
        assert_ne!(hira, s);
        assert_eq!(to_katakana(&hira), s);
        assert_eq!(to_hiragana(&to_katakana(&to_hiragana(&s))), hira);
    }
}

#[test]
fn count_buckets_sum_to_length() {
    let samples = [
        "",
        "abc",
        "\u{3042}\u{30A2}\u{6F22}ABC123\u{FF71}\u{FF72}\u{FF73}",
        "\u{FF21}\u{3000}\u{30FB}\u{1F600}xyz",
    ];
    for s in samples {
        let counts = count_character_types(s);
        let sum = counts.hiragana + counts.katakana + counts.half_width_katakana + counts.kanji
            + counts.ascii + counts.full_width + counts.other;
        assert_eq!(sum, s.chars().count());
    }
}

#[test]
fn script_ranges_are_exclusive() {
    for u in 0u32..=0x10FFFF {
        if let Some(c) = char::from_u32(u) {
            let mut hits = 0;
            if is_hiragana(c) {
                hits += 1;
            }
            if is_katakana(c) {
                hits += 1;
            }
            if is_half_width_katakana(c) {
                hits += 1;
            }
            if is_kanji(c) {
                hits += 1;
            }
            assert!(hits <= 1);
        }
    }
}

#[test]
fn remaining_transforms_keep_empty_empty() {
    assert_eq!(normalize_whitespace(""), "");
    assert_eq!(half_width_katakana_to_full_width(""), "");
    assert_eq!(normalize_prolonged_sound(""), "");
    assert_eq!(expand_iteration_marks(""), "");
}

#[test]
fn half_width_digits_scenario() {
    assert_eq!(to_half_width("\u{FF21}\u{FF22}\u{FF23}\u{FF11}\u{FF12}\u{FF13}"), "ABC123");
}

#[test]
fn full_width_sentence_scenario() {
    assert_eq!(
        to_full_width("Hello World 123"),
        "\u{FF28}\u{FF45}\u{FF4C}\u{FF4C}\u{FF4F}\u{3000}\u{FF37}\u{FF4F}\u{FF52}\u{FF4C}\u{FF44}\u{3000}\u{FF11}\u{FF12}\u{FF13}"
    );
}

#[test]
fn whitespace_mixed_runs_scenario() {
    assert_eq!(
        normalize_whitespace("Hello\u{3000}\u{3000}World\t\tTest"),
        "Hello World Test",
    );
}

#[test]
fn prolonged_sound_fullwidth_tilde() {
    assert_eq!(
        normalize_prolonged_sound("\u{30B3}\u{FF5E}\u{30D2}\u{FF5E}"),
        "\u{30B3}\u{30FC}\u{30D2}\u{30FC}",
    );
}

#[test]
fn iteration_mark_at_start_passes_through() {
    assert_eq!(expand_iteration_marks("\u{309D}"), "\u{309D}");
}

#[test]
fn iteration_mark_voiced_katakana() {
    assert_eq!(expand_iteration_marks("\u{30C8}\u{30FE}"), "\u{30C8}\u{30C9}");
}

#[test]
fn combiner_handles_lone_marks_and_punctuation() {
    assert_eq!(half_width_katakana_to_full_width("\u{FF9E}"), "\u{FF9E}");
    assert_eq!(half_width_katakana_to_full_width("\u{FF9F}"), "\u{FF9F}");
    assert_eq!(
        half_width_katakana_to_full_width("\u{FF61}\u{FF62}\u{FF63}\u{FF64}\u{FF65}"),
        "\u{3002}\u{300C}\u{300D}\u{3001}\u{30FB}",
    );
    assert_eq!(half_width_katakana_to_full_width("\u{FF73}\u{FF9E}"), "\u{30F4}");
}

#[test]
fn combiner_leaves_unvoicable_pairs_separate() {
    assert_eq!(
        half_width_katakana_to_full_width("\u{FF71}\u{FF9E}"),
        "\u{30A2}\u{FF9E}",
    );
}
