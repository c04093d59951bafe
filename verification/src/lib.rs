//! Normalization of Japanese text: conversion between full-width and
//! half-width ASCII, between katakana and hiragana, combination of
//! half-width katakana with voicing marks, expansion of iteration marks,
//! and classification of code points, each with a verified contract.

pub mod chars;
pub mod classify;
pub mod iteration;
pub mod kana;
pub mod kana_width;
pub mod normalize;
pub mod width;

pub use classify::count_character_types;
pub use classify::is_full_width;
pub use classify::is_half_width_katakana;
pub use classify::is_hiragana;
pub use classify::is_kanji;
pub use classify::is_katakana;
pub use classify::CharacterTypes;
pub use iteration::expand_iteration_marks;
pub use kana::to_hiragana;
pub use kana::to_katakana;
pub use kana_width::half_width_katakana_to_full_width;
pub use normalize::normalize_prolonged_sound;
pub use normalize::normalize_whitespace;
pub use width::to_full_width;
pub use width::to_half_width;

use vstd::prelude::*;

verus! {

/// Every transformation of the library turns an empty input into an
/// empty output.
pub proof fn lemma_empty_input(s: Seq<char>)
    requires
        s.len() == 0,
    ensures
        width::half_width_seq(s).len() == 0,
        width::full_width_seq(s).len() == 0,
        kana::hiragana_seq(s).len() == 0,
        kana::katakana_seq(s).len() == 0,
        normalize::normalize_ws(s).len() == 0,
        normalize::prolonged_seq(s).len() == 0,
        kana_width::combine_kana(s).len() == 0,
        iteration::expand_marks(s).len() == 0,
{
}

} // verus!
