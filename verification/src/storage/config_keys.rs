//! The keys of the settings stored one per row.
use crate::app::state::{theme_mode_of, theme_mode_text, AppSettings, ThemeMode};
use crate::download_task::parser::{digits_value, all_digits};
use crate::error::AppError;
use crate::paths::{path_from_str, path_text};
use crate::text::{chars_of, decimal, push_decimal, string_of, trim, trim_str};
use std::path::PathBuf;
use vstd::prelude::*;

verus! {

/// A setting stored under its own key.
#[derive(Debug, Clone, Copy, PartialEq, Eq, Structural)]
pub enum AppConfigKey {
    YtDlpPath,
    FfmpegPath,
    DefaultDownloadDirectory,
    Proxy,
    MaxConcurrency,
    Language,
    Theme,
}

/// The stored key of a setting.
pub open spec fn key_text(k: AppConfigKey) -> Seq<char> {
    match k {
        AppConfigKey::YtDlpPath => "yt_dlp_path"@,
        AppConfigKey::FfmpegPath => "ffmpeg_path"@,
        AppConfigKey::DefaultDownloadDirectory => "default_download_directory"@,
        AppConfigKey::Proxy => "proxy"@,
        AppConfigKey::MaxConcurrency => "max_concurrency"@,
        AppConfigKey::Language => "language"@,
        AppConfigKey::Theme => "theme_preference"@,
    }
}

/// The stored value of a setting.
pub open spec fn stored_value(k: AppConfigKey, s: AppSettings) -> Seq<char> {
    match k {
        AppConfigKey::YtDlpPath => s.yt_dlp_path@,
        AppConfigKey::FfmpegPath => s.ffmpeg_path@,
        AppConfigKey::DefaultDownloadDirectory => s.default_download_directory@,
        AppConfigKey::Proxy => s.proxy@,
        AppConfigKey::MaxConcurrency => decimal(s.max_concurrency as nat),
        AppConfigKey::Language => s.language@,
        AppConfigKey::Theme => theme_mode_text(s.theme),
    }
}

/// The `u32` written `s`, as `u32::from_str` reads it.
pub open spec fn u32_text(s: Seq<char>) -> Option<u32> {
    match crate::download_task::parser::u64_text(s) {
        Some(v) => if v <= u32::MAX {
            Some(v as u32)
        } else {
            None
        },
        None => None,
    }
}

/// A concurrency read back from storage, kept within 1 to 16.
pub open spec fn clamp_concurrency(v: u32) -> u32 {
    if v < 1 {
        1
    } else if v > 16 {
        16
    } else {
        v
    }
}

impl AppConfigKey {
    /// Every stored setting, in the order they are saved.
    pub fn all() -> (r: Vec<AppConfigKey>)
        ensures
            r@ == seq![
                AppConfigKey::YtDlpPath,
                AppConfigKey::FfmpegPath,
                AppConfigKey::DefaultDownloadDirectory,
                AppConfigKey::Proxy,
                AppConfigKey::MaxConcurrency,
                AppConfigKey::Language,
                AppConfigKey::Theme,
            ],
    {
        vec![
            AppConfigKey::YtDlpPath,
            AppConfigKey::FfmpegPath,
            AppConfigKey::DefaultDownloadDirectory,
            AppConfigKey::Proxy,
            AppConfigKey::MaxConcurrency,
            AppConfigKey::Language,
            AppConfigKey::Theme,
        ]
    }

    /// The stored key of the setting.
    pub fn as_str(self) -> (r: &'static str)
        ensures
            r@ == key_text(self),
    {
        match self {
            AppConfigKey::YtDlpPath => "yt_dlp_path",
            AppConfigKey::FfmpegPath => "ffmpeg_path",
            AppConfigKey::DefaultDownloadDirectory => "default_download_directory",
            AppConfigKey::Proxy => "proxy",
            AppConfigKey::MaxConcurrency => "max_concurrency",
            AppConfigKey::Language => "language",
            AppConfigKey::Theme => "theme_preference",
        }
    }

    /// The value the setting is stored as; the concurrency in decimal.
    pub fn value_from(self, settings: &AppSettings) -> (r: String)
        ensures
            r@ == stored_value(self, *settings),
    {
        match self {
            AppConfigKey::YtDlpPath => string_of(settings.yt_dlp_path.as_str()),
            AppConfigKey::FfmpegPath => string_of(settings.ffmpeg_path.as_str()),
            AppConfigKey::DefaultDownloadDirectory => string_of(settings.default_download_directory.as_str()),
            AppConfigKey::Proxy => string_of(settings.proxy.as_str()),
            AppConfigKey::MaxConcurrency => {
                let mut s = String::new();
                push_decimal(&mut s, settings.max_concurrency as u64);
                assert(Seq::<char>::empty() + decimal(settings.max_concurrency as u64 as nat) =~= decimal(
                    settings.max_concurrency as nat,
                ));
                s
            },
            AppConfigKey::Language => string_of(settings.language.as_str()),
            AppConfigKey::Theme => string_of(settings.theme.as_str()),
        }
    }

    /// Puts a stored value back into the settings. A concurrency that is not a
    /// number leaves the setting as it was; a number is kept within 1 to 16. An
    /// unknown theme follows the system.
    pub fn apply_to(self, settings: &mut AppSettings, value: String)
        ensures
            self == AppConfigKey::YtDlpPath ==> final(settings).yt_dlp_path@ == value@,
            self == AppConfigKey::FfmpegPath ==> final(settings).ffmpeg_path@ == value@,
            self == AppConfigKey::DefaultDownloadDirectory ==> final(settings).default_download_directory@
                == value@,
            self == AppConfigKey::Proxy ==> final(settings).proxy@ == value@,
            self == AppConfigKey::Language ==> final(settings).language@ == value@,
            self == AppConfigKey::MaxConcurrency ==> final(settings).max_concurrency == (match u32_text(value@) {
                Some(v) => clamp_concurrency(v),
                None => old(settings).max_concurrency,
            }),
            self != AppConfigKey::YtDlpPath ==> final(settings).yt_dlp_path == old(settings).yt_dlp_path,
            self != AppConfigKey::FfmpegPath ==> final(settings).ffmpeg_path == old(settings).ffmpeg_path,
            self != AppConfigKey::DefaultDownloadDirectory ==> final(settings).default_download_directory == old(
                settings,
            ).default_download_directory,
            self != AppConfigKey::Proxy ==> final(settings).proxy == old(settings).proxy,
            self != AppConfigKey::MaxConcurrency ==> final(settings).max_concurrency == old(
                settings,
            ).max_concurrency,
            self != AppConfigKey::Language ==> final(settings).language == old(settings).language,
            self == AppConfigKey::Theme ==> final(settings).theme == theme_mode_of(value@),
            self != AppConfigKey::Theme ==> final(settings).theme == old(settings).theme,
            settings_text(*final(settings)) == applied(self, settings_text(*old(settings)), value@),
    {
        match self {
            AppConfigKey::YtDlpPath => {
                settings.yt_dlp_path = value;
            },
            AppConfigKey::FfmpegPath => {
                settings.ffmpeg_path = value;
            },
            AppConfigKey::DefaultDownloadDirectory => {
                settings.default_download_directory = value;
            },
            AppConfigKey::Proxy => {
                settings.proxy = value;
            },
            AppConfigKey::MaxConcurrency => {
                let cs = chars_of(value.as_str());
                match crate::download_task::parser::parse_u64_chars(cs.as_slice()) {
                    Some(v) => if v <= 4294967295u64 {
                        let n = v as u32;
                        settings.max_concurrency = if n < 1 {
                            1
                        } else if n > 16 {
                            16
                        } else {
                            n
                        };
                    },
                    None => {},
                }
            },
            AppConfigKey::Language => {
                settings.language = value;
            },
            AppConfigKey::Theme => {
                settings.theme = ThemeMode::from_storage(value.as_str());
            },
        }
    }
}

/// The stored settings as text: the paths, the proxy, the concurrency, the
/// language and the theme.
pub open spec fn settings_text(s: AppSettings) -> (Seq<char>, Seq<char>, Seq<char>, Seq<char>, u32, Seq<char>, ThemeMode) {
    (
        s.yt_dlp_path@,
        s.ffmpeg_path@,
        s.default_download_directory@,
        s.proxy@,
        s.max_concurrency,
        s.language@,
        s.theme,
    )
}

/// The settings after a stored value of the key is put back: text settings take
/// it as it is; the concurrency takes it when it is a number, within 1 to 16;
/// the theme is the one the value names, or follows the system.
pub open spec fn applied(
    k: AppConfigKey,
    t: (Seq<char>, Seq<char>, Seq<char>, Seq<char>, u32, Seq<char>, ThemeMode),
    value: Seq<char>,
) -> (Seq<char>, Seq<char>, Seq<char>, Seq<char>, u32, Seq<char>, ThemeMode) {
    match k {
        AppConfigKey::YtDlpPath => (value, t.1, t.2, t.3, t.4, t.5, t.6),
        AppConfigKey::FfmpegPath => (t.0, value, t.2, t.3, t.4, t.5, t.6),
        AppConfigKey::DefaultDownloadDirectory => (t.0, t.1, value, t.3, t.4, t.5, t.6),
        AppConfigKey::Proxy => (t.0, t.1, t.2, value, t.4, t.5, t.6),
        AppConfigKey::MaxConcurrency => match u32_text(value) {
            Some(n) => (t.0, t.1, t.2, t.3, clamp_concurrency(n), t.5, t.6),
            None => t,
        },
        AppConfigKey::Language => (t.0, t.1, t.2, t.3, t.4, value, t.6),
        AppConfigKey::Theme => (t.0, t.1, t.2, t.3, t.4, t.5, theme_mode_of(value)),
    }
}

/// Puts back the stored value of the key, if one is stored.
pub open spec fn apply_stored(
    k: AppConfigKey,
    t: (Seq<char>, Seq<char>, Seq<char>, Seq<char>, u32, Seq<char>, ThemeMode),
    stored: Map<AppConfigKey, Seq<char>>,
) -> (Seq<char>, Seq<char>, Seq<char>, Seq<char>, u32, Seq<char>, ThemeMode) {
    if stored.dom().contains(k) {
        applied(k, t, stored[k])
    } else {
        t
    }
}

/// The settings loaded from `stored`, starting from `t`: each key in the order
/// of `AppConfigKey::all` puts back its stored value.
pub open spec fn loaded(
    stored: Map<AppConfigKey, Seq<char>>,
    t: (Seq<char>, Seq<char>, Seq<char>, Seq<char>, u32, Seq<char>, ThemeMode),
) -> (Seq<char>, Seq<char>, Seq<char>, Seq<char>, u32, Seq<char>, ThemeMode) {
    apply_stored(
        AppConfigKey::Theme,
        apply_stored(
        AppConfigKey::Language,
        apply_stored(
            AppConfigKey::MaxConcurrency,
            apply_stored(
                AppConfigKey::Proxy,
                apply_stored(
                    AppConfigKey::DefaultDownloadDirectory,
                    apply_stored(AppConfigKey::FfmpegPath, apply_stored(AppConfigKey::YtDlpPath, t, stored), stored),
                    stored,
                ),
                stored,
            ),
            stored,
        ),
        stored,
    ),
        stored,
    )
}

/// What saving the settings stores: every key with its value.
pub open spec fn saved(s: AppSettings) -> Map<AppConfigKey, Seq<char>> {
    Map::new(|k: AppConfigKey| true, |k: AppConfigKey| stored_value(k, s))
}

/// Law: loading what saving stored gives the settings back, whatever they are
/// loaded onto, when the concurrency is within the 1 to 16 that loading keeps.
pub proof fn law_saved_settings_load_back(
    s: AppSettings,
    t: (Seq<char>, Seq<char>, Seq<char>, Seq<char>, u32, Seq<char>, ThemeMode),
)
    requires
        1 <= s.max_concurrency <= 16,
    ensures
        loaded(saved(s), t) == settings_text(s),
{
    law_stored_concurrency_reads_back(s.max_concurrency);
    crate::app::state::law_theme_mode_round_trip(s.theme);
}

/// The stored concurrency reads back as the number it was, and a concurrency
/// within 1 to 16 is put back unchanged.
pub proof fn law_stored_concurrency_reads_back(v: u32)
    ensures
        u32_text(decimal(v as nat)) == Some(v),
        1 <= v <= 16 ==> clamp_concurrency(v) == v,
{
    lemma_decimal_reads_back(v as nat);
}

proof fn lemma_decimal_reads_back(n: nat)
    ensures
        decimal(n).len() > 0,
        all_digits(decimal(n)),
        digits_value(decimal(n)) == n,
    decreases n,
{
    reveal_with_fuel(crate::text::decimal, 2);
    if n >= 10 {
        lemma_decimal_reads_back(n / 10);
        let d = decimal(n / 10);
        let e = decimal(n);
        assert(e == d.push(crate::text::digit_char(n % 10)));
        assert(e.drop_last() =~= d);
        assert(e.last() == crate::text::digit_char(n % 10));
        crate::text::lemma_digit_char(n % 10);
        assert(digits_value(e) == 10 * digits_value(d) + (e.last() as int - '0' as int));
        assert(n == 10 * (n / 10) + n % 10);
    } else {
        crate::text::lemma_digit_char(n);
        assert(decimal(n).drop_last() =~= Seq::<char>::empty());
        assert(digits_value(decimal(n)) == 10 * digits_value(Seq::<char>::empty()) + (decimal(n).last() as int
            - '0' as int));
    }
}

/// The `yt-dlp` path a command needs, from the stored value: a missing or blank
/// value is an error naming which; otherwise the value, trimmed, as a path. The
/// file system is not consulted.
pub fn require_yt_dlp_path(stored: Option<String>) -> (r: Result<PathBuf, AppError>)
    ensures
        stored is None ==> (r matches Err(AppError::NotFound(m)) && m@
            == "Required configuration 'yt_dlp_path' is missing"@),
        (stored matches Some(v) && trim(v@).len() == 0) ==> (r matches Err(AppError::NotFound(m)) && m@
            == "Required configuration 'yt_dlp_path' is empty"@),
        (stored matches Some(v) && trim(v@).len() > 0) ==> (r matches Ok(p) && path_text(p) == trim(
            stored->Some_0@,
        )),
{
    match stored {
        None => Err(AppError::NotFound(string_of("Required configuration 'yt_dlp_path' is missing"))),
        Some(value) => {
            let trimmed = trim_str(value.as_str());
            if trimmed.as_str().unicode_len() == 0 {
                Err(AppError::NotFound(string_of("Required configuration 'yt_dlp_path' is empty")))
            } else {
                Ok(path_from_str(trimmed.as_str()))
            }
        },
    }
}

} // verus!
