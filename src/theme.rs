//! The application's theme choice.
use vstd::prelude::*;

verus! {

/// The theme that the interface follows.
#[derive(Debug, Clone, Copy, PartialEq, Eq, Structural)]
pub enum AppThemeType {
    Auto,
    Light,
    Dark,
}

/// The number that stands for a theme: -1 automatic, 0 light, 1 dark.
pub open spec fn theme_code(t: AppThemeType) -> int {
    match t {
        AppThemeType::Auto => -1,
        AppThemeType::Light => 0,
        AppThemeType::Dark => 1,
    }
}

impl AppThemeType {
    /// The number that stands for the theme.
    pub fn code(&self) -> (r: i8)
        ensures
            r == theme_code(*self),
    {
        match self {
            AppThemeType::Auto => -1,
            AppThemeType::Light => 0,
            AppThemeType::Dark => 1,
        }
    }

    /// The theme that a number stands for, if any.
    pub fn from_code(code: i8) -> (r: Option<AppThemeType>)
        ensures
            r matches Some(t) ==> theme_code(t) == code,
            r is None <==> (code < -1 || code > 1),
    {
        if code == -1 {
            Some(AppThemeType::Auto)
        } else if code == 0 {
            Some(AppThemeType::Light)
        } else if code == 1 {
            Some(AppThemeType::Dark)
        } else {
            None
        }
    }
}

} // verus!
