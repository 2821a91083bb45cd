//! Theme modes, the theme actually rendered, and text scales.
use crate::text::{ascii_lower_seq, chars_of, chars_eq, lower_chars, trim, trim_chars};
use vstd::prelude::*;

verus! {

/// The theme mode the user chose; `System` follows the system theme.
#[derive(Debug, Clone, Copy, PartialEq, Eq, Structural)]
pub enum ThemeMode {
    System,
    Light,
    Dark,
}

/// The theme actually rendered, as opposed to the user's choice.
#[derive(Debug, Clone, Copy, PartialEq, Eq, Structural)]
pub enum EffectiveTheme {
    Light,
    Dark,
}

/// The text scale steps a user can choose.
#[derive(Debug, Clone, Copy, PartialEq, Eq, Structural)]
pub enum TextScale {
    Default,
    Large,
    ExtraLarge,
}

/// The stored text of a theme mode.
pub open spec fn theme_mode_text(m: ThemeMode) -> Seq<char> {
    match m {
        ThemeMode::System => "system"@,
        ThemeMode::Light => "light"@,
        ThemeMode::Dark => "dark"@,
    }
}

/// A configured value, normalized: trimmed and lower-cased (ASCII).
pub open spec fn normalized(value: Seq<char>) -> Seq<char> {
    ascii_lower_seq(trim(value))
}

/// The theme mode a configured value names; anything unknown follows the system.
pub open spec fn spec_parse_theme_mode(value: Seq<char>) -> ThemeMode {
    let n = normalized(value);
    if n == "light"@ {
        ThemeMode::Light
    } else if n == "dark"@ {
        ThemeMode::Dark
    } else {
        ThemeMode::System
    }
}

/// The theme rendered for a mode, the system theme (when it is known) and
/// whether a dark theme is available.
pub open spec fn spec_resolve(m: ThemeMode, system: Option<EffectiveTheme>, dark_available: bool) -> EffectiveTheme {
    match m {
        ThemeMode::Light => EffectiveTheme::Light,
        ThemeMode::Dark => if dark_available {
            EffectiveTheme::Dark
        } else {
            EffectiveTheme::Light
        },
        ThemeMode::System => if system == Some(EffectiveTheme::Dark) && dark_available {
            EffectiveTheme::Dark
        } else {
            EffectiveTheme::Light
        },
    }
}

/// The trimmed, ASCII-lower-cased characters of `value`.
pub fn normalize(value: &str) -> (r: Vec<char>)
    ensures
        r@ == normalized(value@),
{
    let cs = chars_of(value);
    let t = trim_chars(cs.as_slice());
    lower_chars(t.as_slice())
}

/// Whether the characters `a` are the text `b`.
pub fn is_text(a: &[char], b: &str) -> (r: bool)
    ensures
        r == (a@ == b@),
{
    let bc = chars_of(b);
    chars_eq(a, bc.as_slice())
}

impl ThemeMode {
    /// New and unconfigured users follow the system.
    pub const DEFAULT: ThemeMode = ThemeMode::System;

    /// The stored text of the mode.
    pub fn as_str(self) -> (r: &'static str)
        ensures
            r@ == theme_mode_text(self),
    {
        match self {
            ThemeMode::System => "system",
            ThemeMode::Light => "light",
            ThemeMode::Dark => "dark",
        }
    }

    /// Reads a configured value, ignoring surrounding whitespace and ASCII case;
    /// an unknown value follows the system.
    pub fn parse(value: &str) -> (r: Self)
        ensures
            r == spec_parse_theme_mode(value@),
    {
        let n = normalize(value);
        if is_text(n.as_slice(), "light") {
            ThemeMode::Light
        } else if is_text(n.as_slice(), "dark") {
            ThemeMode::Dark
        } else {
            ThemeMode::System
        }
    }

    /// The theme rendered for this mode, given the system theme (when known) and
    /// whether a dark theme is available.
    pub fn resolve(self, system_theme: Option<EffectiveTheme>, dark_available: bool) -> (r: EffectiveTheme)
        ensures
            r == spec_resolve(self, system_theme, dark_available),
    {
        match self {
            ThemeMode::Light => EffectiveTheme::Light,
            ThemeMode::Dark => if dark_available {
                EffectiveTheme::Dark
            } else {
                EffectiveTheme::Light
            },
            ThemeMode::System => match (system_theme, dark_available) {
                (Some(EffectiveTheme::Dark), true) => EffectiveTheme::Dark,
                _ => EffectiveTheme::Light,
            },
        }
    }
}

impl EffectiveTheme {
    /// The text of the rendered theme.
    pub fn as_str(self) -> (r: &'static str)
        ensures
            self == EffectiveTheme::Light ==> r@ == "light"@,
            self == EffectiveTheme::Dark ==> r@ == "dark"@,
    {
        match self {
            EffectiveTheme::Light => "light",
            EffectiveTheme::Dark => "dark",
        }
    }
}

/// The stored text of a text scale.
pub open spec fn text_scale_text(s: TextScale) -> Seq<char> {
    match s {
        TextScale::Default => "default"@,
        TextScale::Large => "large"@,
        TextScale::ExtraLarge => "extra-large"@,
    }
}

/// The text scale a configured value names; anything unknown is the default.
pub open spec fn spec_parse_text_scale(value: Seq<char>) -> TextScale {
    let n = normalized(value);
    if n == "large"@ {
        TextScale::Large
    } else if n == "extra-large"@ || n == "extralarge"@ {
        TextScale::ExtraLarge
    } else {
        TextScale::Default
    }
}

impl TextScale {
    /// The stored text of the scale.
    pub fn as_str(self) -> (r: &'static str)
        ensures
            r@ == text_scale_text(self),
    {
        match self {
            TextScale::Default => "default",
            TextScale::Large => "large",
            TextScale::ExtraLarge => "extra-large",
        }
    }

    /// Reads a configured value, ignoring surrounding whitespace and ASCII case;
    /// an unknown value is the default scale.
    pub fn parse(value: &str) -> (r: Self)
        ensures
            r == spec_parse_text_scale(value@),
    {
        let n = normalize(value);
        if is_text(n.as_slice(), "large") {
            TextScale::Large
        } else if is_text(n.as_slice(), "extra-large") || is_text(n.as_slice(), "extralarge") {
            TextScale::ExtraLarge
        } else {
            TextScale::Default
        }
    }
}

/// The theme the system asks for, from the `AppsUseLightTheme` value of the
/// personalization settings when it could be read: zero asks for dark, any
/// other value for light; an unreadable value asks for nothing.
pub fn theme_from_apps_use_light_theme(value: Option<u32>) -> (r: Option<EffectiveTheme>)
    ensures
        value is None ==> r is None,
        value == Some(0u32) ==> r == Some(EffectiveTheme::Dark),
        value matches Some(v) && v != 0 ==> r == Some(EffectiveTheme::Light),
{
    match value {
        Some(0) => Some(EffectiveTheme::Dark),
        Some(_) => Some(EffectiveTheme::Light),
        None => None,
    }
}

/// The rendering tokens have both a light and a dark mapping.
pub fn dark_theme_available() -> (r: bool)
    ensures
        r,
{
    true
}

/// A word of ASCII letters, dashes and underscores is normalized by lower-casing it.
pub proof fn lemma_normalized_word(w: Seq<char>)
    requires
        forall|i: int|
            0 <= i < w.len() ==> ('a' <= #[trigger] w[i] <= 'z' || 'A' <= w[i] <= 'Z' || w[i] == '-' || w[i]
                == '_'),
    ensures
        normalized(w) == ascii_lower_seq(w),
{
    crate::text::lemma_trim_fixed(w);
    if w.len() > 0 {
        assert(!crate::text::is_ws(w[0]));
        assert(!crate::text::is_ws(w.last()));
    }
    assert(trim(w) == w);
}

/// A word of ASCII letters, dashes and underscores, in any ASCII case and with
/// whitespace around it, is normalized to the word lower-cased.
pub proof fn lemma_normalized_padded_word(left: Seq<char>, w: Seq<char>, right: Seq<char>)
    requires
        crate::text::all_ws(left),
        crate::text::all_ws(right),
        w.len() > 0,
        forall|i: int|
            0 <= i < w.len() ==> ('a' <= #[trigger] w[i] <= 'z' || 'A' <= w[i] <= 'Z' || w[i] == '-' || w[i]
                == '_'),
    ensures
        normalized(left + crate::text::ascii_upper_seq(w) + right) == ascii_lower_seq(w),
        normalized(left + w + right) == ascii_lower_seq(w),
{
    let u = crate::text::ascii_upper_seq(w);
    assert forall|i: int| 0 <= i < u.len() implies ('a' <= #[trigger] u[i] <= 'z' || 'A' <= u[i] <= 'Z' || u[i]
        == '-' || u[i] == '_') by {
        let c = w[i];
        if 'a' <= c && c <= 'z' {
            let d = ((c as u32) - 32) as char;
            assert(d as u32 == (c as u32) - 32);
        }
    }
    assert(!crate::text::is_ws(w[0]));
    assert(!crate::text::is_ws(w.last()));
    assert(!crate::text::is_ws(u[0]));
    assert(!crate::text::is_ws(u.last()));
    crate::text::lemma_trim_padded(left, w, right);
    crate::text::lemma_trim_padded(left, u, right);
    crate::text::lemma_lower_of_upper(w);
}

proof fn lemma_normalized_lower_word(w: Seq<char>)
    requires
        forall|i: int| 0 <= i < w.len() ==> 'a' <= #[trigger] w[i] <= 'z' || w[i] == '-',
    ensures
        normalized(w) == w,
{
    crate::text::lemma_trim_fixed(w);
    if w.len() > 0 {
        assert(!crate::text::is_ws(w[0]));
        assert(!crate::text::is_ws(w.last()));
    }
    assert(trim(w) == w);
    assert(ascii_lower_seq(w) =~= w);
}

/// Reading back the stored text of a theme mode gives the mode.
pub proof fn law_theme_mode_round_trip(m: ThemeMode)
    ensures
        spec_parse_theme_mode(theme_mode_text(m)) == m,
{
    reveal_strlit("system");
    reveal_strlit("light");
    reveal_strlit("dark");
    lemma_normalized_lower_word(theme_mode_text(m));
}

/// Reading back the stored text of a text scale gives the scale.
pub proof fn law_text_scale_round_trip(s: TextScale)
    ensures
        spec_parse_text_scale(text_scale_text(s)) == s,
{
    reveal_strlit("default");
    reveal_strlit("large");
    reveal_strlit("extra-large");
    reveal_strlit("extralarge");
    lemma_normalized_lower_word(text_scale_text(s));
}

/// A dark theme is rendered only when it is available, and only for the dark
/// mode or for the system mode under a dark system theme; the light mode is
/// always light.
pub proof fn law_resolve_dark_only_when_chosen(m: ThemeMode, system: Option<EffectiveTheme>, dark_available: bool)
    ensures
        spec_resolve(m, system, dark_available) == EffectiveTheme::Dark <==> (dark_available && (m
            == ThemeMode::Dark || (m == ThemeMode::System && system == Some(EffectiveTheme::Dark)))),
{
}

} // verus!
