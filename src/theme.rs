//! The two theme states and how preference text maps onto them.
use crate::text::{chars_of, contains_chars, contains_seq};
use vstd::prelude::*;

verus! {

/// The desktop-wide display preference, always exactly one of two states.
#[derive(Clone, Copy, Debug, PartialEq, Eq, Structural)]
pub enum ThemePreference {
    Dark,
    Light,
}

/// The theme that preference text `s` stands for: dark exactly when the text
/// holds the marker `prefer-dark`, light for any other text, empty or unknown.
pub open spec fn theme_of(s: Seq<char>) -> ThemePreference {
    if contains_seq(s, "prefer-dark"@) {
        ThemePreference::Dark
    } else {
        ThemePreference::Light
    }
}

/// Maps one line (or the whole output) of the preference source to a theme.
pub fn infer_theme(input: &str) -> (r: ThemePreference)
    ensures
        r == theme_of(input@),
{
    let text = chars_of(input);
    let marker = chars_of("prefer-dark");
    proof {
        reveal_strlit("prefer-dark");
    }
    if contains_chars(&text, &marker) {
        ThemePreference::Dark
    } else {
        ThemePreference::Light
    }
}

} // verus!
