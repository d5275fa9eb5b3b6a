//! Application-wide preferences of the desktop app: language, theme and the
//! defaults applied to new backups.

use vstd::prelude::*;
use crate::numeric::{parse_u8, parse_unsigned};
use crate::profile_loader::{join_lines, joined_lines};
use crate::text_lines::texts;
use crate::text::str_equal;

verus! {

/// The language of the interface.
#[derive(Clone, Copy, PartialEq, Eq, Structural, Debug)]
pub enum Language {
    Pt,
    En,
}

/// The colour theme of the interface.
#[derive(Clone, Copy, PartialEq, Eq, Structural, Debug)]
pub enum Theme {
    System,
    Light,
    Dark,
}

/// Preferences that apply to the whole application.
pub struct AppPreferences {
    pub language: Language,
    pub theme: Theme,
    pub exclude_patterns: String,
    pub encrypt_patterns: String,
    pub backup_mode: String,
    pub pause_on_low_battery: u8,
    pub pause_on_high_cpu: u8,
    pub compression_level: u8,
}

/// The number read from a settings field, or `default` when the field does
/// not hold a number from 0 to 255.
pub open spec fn setting_or(text: Seq<char>, default: u8) -> u8 {
    match parse_unsigned(text, 255) {
        Some(v) => v as u8,
        None => default,
    }
}

fn read_setting(text: &str, default: u8) -> (r: u8)
    ensures
        r == setting_or(text@, default),
{
    match parse_u8(text) {
        Some(v) => v,
        None => default,
    }
}

impl AppPreferences {
    /// The preferences of a first start: Portuguese, the system's theme, the
    /// backup engine's default exclusions one per line, PDF and Word files and
    /// `private/` encrypted, incremental backups, pauses below 20% battery and
    /// above 90% processor use, compression level 3.
    pub fn defaults(default_exclude_patterns: &Vec<String>) -> (r: AppPreferences)
        ensures
            r.language == Language::Pt,
            r.theme == Theme::System,
            r.exclude_patterns@ == joined_lines(texts(default_exclude_patterns@)),
            r.encrypt_patterns@ == "*.pdf\n*.docx\nprivate/"@,
            r.backup_mode@ == "incremental"@,
            r.pause_on_low_battery == 20,
            r.pause_on_high_cpu == 90,
            r.compression_level == 3,
    {
        AppPreferences {
            language: Language::Pt,
            theme: Theme::System,
            exclude_patterns: join_lines(default_exclude_patterns),
            encrypt_patterns: "*.pdf\n*.docx\nprivate/".to_string(),
            backup_mode: "incremental".to_string(),
            pause_on_low_battery: 20,
            pause_on_high_cpu: 90,
            compression_level: 3,
        }
    }

    /// The preferences saved from the settings forms: number fields that do
    /// not hold a number from 0 to 255 fall back to 20, 90 and 3.
    pub fn from_settings(
        language: Language,
        theme: Theme,
        exclude_patterns: String,
        encrypt_patterns: String,
        backup_mode: String,
        pause_on_low_battery: &str,
        pause_on_high_cpu: &str,
        compression_level: &str,
    ) -> (r: AppPreferences)
        ensures
            r.language == language,
            r.theme == theme,
            r.exclude_patterns == exclude_patterns,
            r.encrypt_patterns == encrypt_patterns,
            r.backup_mode == backup_mode,
            r.pause_on_low_battery == setting_or(pause_on_low_battery@, 20),
            r.pause_on_high_cpu == setting_or(pause_on_high_cpu@, 90),
            r.compression_level == setting_or(compression_level@, 3),
    {
        AppPreferences {
            language,
            theme,
            exclude_patterns,
            encrypt_patterns,
            backup_mode,
            pause_on_low_battery: read_setting(pause_on_low_battery, 20),
            pause_on_high_cpu: read_setting(pause_on_high_cpu, 90),
            compression_level: read_setting(compression_level, 3),
        }
    }
}

/// The language chosen in the settings list: `en` is English, anything else Portuguese.
pub fn language_from_choice(value: &str) -> (r: Language)
    ensures
        r == (if value@ == "en"@ {
            Language::En
        } else {
            Language::Pt
        }),
{
    if str_equal(value, "en") {
        Language::En
    } else {
        Language::Pt
    }
}

/// The theme chosen in the settings list: `light`, `dark`, and the system's
/// theme for anything else.
pub fn theme_from_choice(value: &str) -> (r: Theme)
    ensures
        r == (if value@ == "light"@ {
            Theme::Light
        } else if value@ == "dark"@ {
            Theme::Dark
        } else {
            Theme::System
        }),
{
    if str_equal(value, "light") {
        Theme::Light
    } else if str_equal(value, "dark") {
        Theme::Dark
    } else {
        Theme::System
    }
}

/// Whether the interface is drawn dark: the theme decides, and for the
/// system's theme the system's own preference (`system_prefers_dark`) does.
pub fn uses_dark_mode(theme: Theme, system_prefers_dark: bool) -> (r: bool)
    ensures
        r == (match theme {
            Theme::Dark => true,
            Theme::Light => false,
            Theme::System => system_prefers_dark,
        }),
{
    match theme {
        Theme::Dark => true,
        Theme::Light => false,
        Theme::System => system_prefers_dark,
    }
}

} // verus!
