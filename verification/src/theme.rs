//! Which color theme the dashboard uses, and which tone a health score is
//! drawn in. The palettes themselves belong to the terminal front end.

use vstd::prelude::*;
use crate::text::{lower, str_eq, to_lower};

verus! {

/// The color themes.
#[derive(Debug, Clone, Copy, PartialEq, Eq, Structural)]
pub enum ThemeKind {
    Dark,
    Light,
    Ansi16,
}

/// The theme to use: `NO_COLOR` forces the sixteen named colors; else the
/// `PULSOS_THEME` variable, else the configured name, chooses (ASCII case
/// ignored) light or ansi16, anything else meaning dark.
pub open spec fn chosen_theme(no_color: bool, env_theme: Option<Seq<char>>, config_theme: Seq<char>) -> ThemeKind {
    if no_color {
        ThemeKind::Ansi16
    } else {
        let name = lower(
            match env_theme {
                Some(t) => t,
                None => config_theme,
            },
        );
        if name == "light"@ {
            ThemeKind::Light
        } else if name == "ansi16"@ {
            ThemeKind::Ansi16
        } else {
            ThemeKind::Dark
        }
    }
}

/// The theme to use.
pub fn theme_for(no_color: bool, env_theme: Option<&str>, config_theme: &str) -> (r: ThemeKind)
    ensures
        r == chosen_theme(
            no_color,
            match env_theme {
                Some(t) => Some(t@),
                None => None,
            },
            config_theme@,
        ),
{
    if no_color {
        return ThemeKind::Ansi16;
    }
    let name = match env_theme {
        Some(t) => to_lower(t),
        None => to_lower(config_theme),
    };
    if str_eq(name.as_str(), "light") {
        ThemeKind::Light
    } else if str_eq(name.as_str(), "ansi16") {
        ThemeKind::Ansi16
    } else {
        ThemeKind::Dark
    }
}

/// The tone a health score is drawn in.
#[derive(Debug, Clone, Copy, PartialEq, Eq, Structural)]
pub enum HealthTone {
    Success,
    Warning,
    Failure,
}

/// At least 90 is healthy, at least 70 a warning, below that a failure.
pub fn health_tone(score: u8) -> (r: HealthTone)
    ensures
        r == (if score >= 90 {
            HealthTone::Success
        } else if score >= 70 {
            HealthTone::Warning
        } else {
            HealthTone::Failure
        }),
{
    if score >= 90 {
        HealthTone::Success
    } else if score >= 70 {
        HealthTone::Warning
    } else {
        HealthTone::Failure
    }
}

} // verus!
