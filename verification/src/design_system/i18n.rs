//! Interface languages and the shared text catalog.
use crate::design_system::theme::{is_text, normalize, normalized};
use vstd::prelude::*;

pub mod locale;

verus! {

/// The interface languages; their text form is a BCP-47 locale tag.
#[derive(Debug, Clone, Copy, PartialEq, Eq, Structural)]
pub enum Locale {
    ZhCn,
    EnUs,
}

/// The locale tag of a language.
pub open spec fn locale_text(l: Locale) -> Seq<char> {
    match l {
        Locale::ZhCn => "zh-CN"@,
        Locale::EnUs => "en-US"@,
    }
}

/// The language a configured value names, by its common aliases; anything
/// unknown is the default language (Simplified Chinese).
pub open spec fn spec_parse_locale(value: Seq<char>) -> Locale {
    let n = normalized(value);
    if n == "en"@ || n == "en-us"@ || n == "en_us"@ {
        Locale::EnUs
    } else {
        Locale::ZhCn
    }
}

impl Locale {
    /// An unconfigured language is Simplified Chinese.
    pub const DEFAULT: Locale = Locale::ZhCn;

    /// The locale tag of the language.
    pub fn as_str(self) -> (r: &'static str)
        ensures
            r@ == locale_text(self),
    {
        match self {
            Locale::ZhCn => "zh-CN",
            Locale::EnUs => "en-US",
        }
    }

    /// Reads a configured language by its common aliases (`en`, `en-us`,
    /// `en_us`, `zh`, `zh-cn`, `zh_cn`, `zh-hans`), ignoring surrounding
    /// whitespace and ASCII case; an unknown value is the default language.
    pub fn parse(value: &str) -> (r: Self)
        ensures
            r == spec_parse_locale(value@),
    {
        let n = normalize(value);
        if is_text(n.as_slice(), "en") || is_text(n.as_slice(), "en-us") || is_text(n.as_slice(), "en_us") {
            Locale::EnUs
        } else {
            Locale::ZhCn
        }
    }
}

/// The keys of the visible texts the shared interface shows.
#[derive(Debug, Clone, Copy, PartialEq, Eq, Structural)]
pub enum TextKey {
    AppTitle,
    NavWelcome,
    NavConfigure,
    NavSearch,
    NavTasks,
}

/// The text of a key in a language.
pub open spec fn catalog_text(locale: Locale, key: TextKey) -> Seq<char> {
    match (locale, key) {
        (Locale::ZhCn, TextKey::AppTitle) => "yt-dlp 图形界面"@,
        (Locale::ZhCn, TextKey::NavWelcome) => "欢迎"@,
        (Locale::ZhCn, TextKey::NavConfigure) => "配置"@,
        (Locale::ZhCn, TextKey::NavSearch) => "检索"@,
        (Locale::ZhCn, TextKey::NavTasks) => "任务"@,
        (Locale::EnUs, TextKey::AppTitle) => "yt-dlp GUI"@,
        (Locale::EnUs, TextKey::NavWelcome) => "Welcome"@,
        (Locale::EnUs, TextKey::NavConfigure) => "Configure"@,
        (Locale::EnUs, TextKey::NavSearch) => "Search"@,
        (Locale::EnUs, TextKey::NavTasks) => "Tasks"@,
    }
}

/// The stateless shared catalog; every key has a text in every language.
#[derive(Debug, Clone, Copy, Default)]
pub struct I18nCatalog;

impl I18nCatalog {
    /// The text to show for a key in a language (never the key itself).
    pub fn text(locale: Locale, key: TextKey) -> (r: &'static str)
        ensures
            r@ == catalog_text(locale, key),
    {
        match (locale, key) {
            (Locale::ZhCn, TextKey::AppTitle) => "yt-dlp 图形界面",
            (Locale::ZhCn, TextKey::NavWelcome) => "欢迎",
            (Locale::ZhCn, TextKey::NavConfigure) => "配置",
            (Locale::ZhCn, TextKey::NavSearch) => "检索",
            (Locale::ZhCn, TextKey::NavTasks) => "任务",
            (Locale::EnUs, TextKey::AppTitle) => "yt-dlp GUI",
            (Locale::EnUs, TextKey::NavWelcome) => "Welcome",
            (Locale::EnUs, TextKey::NavConfigure) => "Configure",
            (Locale::EnUs, TextKey::NavSearch) => "Search",
            (Locale::EnUs, TextKey::NavTasks) => "Tasks",
        }
    }

    /// The text of a key, with a fallback entry point for catalogs that may lack
    /// a text; this catalog has them all.
    pub fn text_or_default(locale: Locale, key: TextKey) -> (r: &'static str)
        ensures
            r@ == catalog_text(locale, key),
    {
        Self::text(locale, key)
    }
}

/// Every key has a non-empty text in every language.
pub proof fn law_catalog_is_complete(locale: Locale, key: TextKey)
    ensures
        catalog_text(locale, key).len() > 0,
{
    reveal_strlit("yt-dlp 图形界面");
    reveal_strlit("欢迎");
    reveal_strlit("配置");
    reveal_strlit("检索");
    reveal_strlit("任务");
    reveal_strlit("yt-dlp GUI");
    reveal_strlit("Welcome");
    reveal_strlit("Configure");
    reveal_strlit("Search");
    reveal_strlit("Tasks");
}

/// Reading back the locale tag of a language gives the language.
pub proof fn law_locale_round_trip(l: Locale)
    ensures
        spec_parse_locale(locale_text(l)) == l,
{
    reveal_strlit("zh-CN");
    reveal_strlit("en-US");
    reveal_strlit("en");
    reveal_strlit("en-us");
    reveal_strlit("en_us");
    reveal_strlit("zh-cn");
    let t = locale_text(l);
    crate::design_system::theme::lemma_normalized_word(t);
    match l {
        Locale::ZhCn => {
            assert(normalized(t) =~= "zh-cn"@);
            assert(normalized(t)[0] != "en-us"@[0]);
            assert(normalized(t)[0] != "en_us"@[0]);
        },
        Locale::EnUs => {
            assert(normalized(t) =~= "en-us"@);
        },
    }
}

/// A language's tag is read back as that language whatever whitespace surrounds
/// it and whether it is written in upper or lower case.
pub proof fn law_padded_locale_in_any_case(l: Locale, left: Seq<char>, right: Seq<char>)
    requires
        crate::text::all_ws(left),
        crate::text::all_ws(right),
    ensures
        spec_parse_locale(left + locale_text(l) + right) == l,
        spec_parse_locale(left + crate::text::ascii_upper_seq(locale_text(l)) + right) == l,
{
    reveal_strlit("zh-CN");
    reveal_strlit("en-US");
    let t = locale_text(l);
    assert(t.len() > 0);
    crate::design_system::theme::lemma_normalized_padded_word(left, t, right);
    crate::design_system::theme::lemma_normalized_word(t);
    law_locale_round_trip(l);
}

} // verus!
