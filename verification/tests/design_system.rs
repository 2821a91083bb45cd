use yt_dlp_gui::design_system::i18n::locale::Locale as TagLocale;
use yt_dlp_gui::design_system::theme::dark_theme_available;
use yt_dlp_gui::design_system::{EffectiveTheme, I18nCatalog, Locale, TextKey, TextScale, ThemeMode};

#[test]
fn theme_modes_parse_loosely_and_fall_back_to_system() {
    assert_eq!(ThemeMode::parse(" DARK "), ThemeMode::Dark);
    assert_eq!(ThemeMode::parse("light"), ThemeMode::Light);
    assert_eq!(ThemeMode::parse("sepia"), ThemeMode::System);
    assert_eq!(ThemeMode::DEFAULT, ThemeMode::System);
    for mode in [ThemeMode::System, ThemeMode::Light, ThemeMode::Dark] {
        assert_eq!(ThemeMode::parse(mode.as_str()), mode);
    }
}

#[test]
fn rendered_theme_follows_choice_system_and_availability() {
    assert_eq!(ThemeMode::Dark.resolve(None, true), EffectiveTheme::Dark);
    assert_eq!(ThemeMode::Dark.resolve(None, false), EffectiveTheme::Light);
    assert_eq!(ThemeMode::System.resolve(Some(EffectiveTheme::Dark), true), EffectiveTheme::Dark);
    assert_eq!(ThemeMode::System.resolve(None, true), EffectiveTheme::Light);
    assert_eq!(ThemeMode::Light.resolve(Some(EffectiveTheme::Dark), true), EffectiveTheme::Light);
    assert!(dark_theme_available());
    assert_eq!(EffectiveTheme::Dark.as_str(), "dark");
}

#[test]
fn text_scales_parse_with_aliases() {
    assert_eq!(TextScale::parse("Extra-Large"), TextScale::ExtraLarge);
    assert_eq!(TextScale::parse("extralarge"), TextScale::ExtraLarge);
    assert_eq!(TextScale::parse("large "), TextScale::Large);
    assert_eq!(TextScale::parse("huge"), TextScale::Default);
    for scale in [TextScale::Default, TextScale::Large, TextScale::ExtraLarge] {
        assert_eq!(TextScale::parse(scale.as_str()), scale);
    }
}

#[test]
fn locales_parse_aliases_and_default_to_chinese() {
    assert_eq!(Locale::parse("EN_us"), Locale::EnUs);
    assert_eq!(Locale::parse("zh-hans"), Locale::ZhCn);
    assert_eq!(Locale::parse("fr"), Locale::ZhCn);
    assert_eq!(Locale::EnUs.as_str(), "en-US");
    assert_eq!(Locale::DEFAULT, Locale::ZhCn);
}

#[test]
fn language_tags_parse_and_default_to_english() {
    assert_eq!(TagLocale::parse("en-GB"), TagLocale::EnUs);
    assert_eq!(TagLocale::parse(" zh-CN "), TagLocale::ZhCn);
    assert_eq!(TagLocale::parse("zh"), TagLocale::ZhCn);
    assert_eq!(TagLocale::parse("zh-TW"), TagLocale::EnUs);
    assert_eq!(TagLocale::parse("zh-Hans-CN"), TagLocale::ZhCn);
    assert_eq!(TagLocale::parse("de"), TagLocale::EnUs);
    assert_eq!(TagLocale::DEFAULT, TagLocale::EnUs);
}

#[test]
fn the_catalog_has_every_text() {
    assert_eq!(I18nCatalog::text(Locale::ZhCn, TextKey::NavSearch), "检索");
    assert_eq!(I18nCatalog::text(Locale::EnUs, TextKey::AppTitle), "yt-dlp GUI");
    assert_eq!(I18nCatalog::text_or_default(Locale::EnUs, TextKey::NavTasks), "Tasks");
    for locale in [Locale::ZhCn, Locale::EnUs] {
        for key in [TextKey::AppTitle, TextKey::NavWelcome, TextKey::NavConfigure, TextKey::NavSearch, TextKey::NavTasks] {
            assert!(!I18nCatalog::text(locale, key).is_empty());
        }
    }
}

#[test]
fn the_first_preferred_ui_language_decides_the_locale() {
    let units = |s: &str| s.encode_utf16().collect::<Vec<u16>>();
    assert_eq!(TagLocale::from_preferred_ui_languages(&units("zh-CN\0en-US\0\0")), TagLocale::ZhCn);
    assert_eq!(TagLocale::from_preferred_ui_languages(&units("\0\0en-GB\0zh-CN\0\0")), TagLocale::EnUs);
    assert_eq!(TagLocale::from_preferred_ui_languages(&units("zh-Hans\0")), TagLocale::ZhCn);
    assert_eq!(TagLocale::from_preferred_ui_languages(&units("fr-FR\0zh-CN\0")), TagLocale::EnUs);
    assert_eq!(TagLocale::from_preferred_ui_languages(&units("\0\0")), TagLocale::EnUs);
    assert_eq!(TagLocale::from_preferred_ui_languages(&[]), TagLocale::EnUs);
}

#[test]
fn padded_upper_case_tags_parse_back() {
    for locale in [TagLocale::ZhCn, TagLocale::EnUs] {
        let padded = format!("  {}  ", locale.as_str().to_ascii_uppercase());
        assert_eq!(TagLocale::parse(&padded), locale);
        assert_eq!(TagLocale::parse(&format!("\t{}\n", locale.as_str())), locale);
    }
    for locale in [Locale::ZhCn, Locale::EnUs] {
        let padded = format!("  {}  ", locale.as_str().to_ascii_uppercase());
        assert_eq!(Locale::parse(&padded), locale);
    }
}
