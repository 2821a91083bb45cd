//! The design system: themes, text scales, locales and the text catalog.
pub mod i18n;
pub mod theme;

pub use i18n::{I18nCatalog, Locale, TextKey};
pub use theme::{EffectiveTheme, TextScale, ThemeMode};
