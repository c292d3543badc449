//! Light and dark, as the application and as the toolkit see them.

use vstd::prelude::*;

verus! {

/// The look that an application asks for or is told of.
#[derive(Clone, Copy, Debug, PartialEq, Eq, Structural, Hash)]
pub enum Theme {
    Light,
    Dark,
}

/// The toolkit's colour-scheme setting.
///
/// The toolkit may grow settings that this backend does not know: they
/// arrive as `Unknown`.
#[derive(Clone, Copy, Debug, PartialEq, Eq, Structural, Hash)]
pub enum ColorScheme {
    /// Whatever the system prefers.
    Default,
    /// Light, whatever the system prefers.
    ForceLight,
    /// Light, unless the system asks for dark.
    PreferLight,
    /// Dark, unless the system asks for light.
    PreferDark,
    /// Dark, whatever the system prefers.
    ForceDark,
    /// A setting that this backend has no name for.
    Unknown,
}

/// The theme that a toolkit setting stands for: light for the two light
/// settings, dark for the two dark ones, none for anything else.
pub open spec fn theme_of(scheme: ColorScheme) -> Option<Theme> {
    match scheme {
        ColorScheme::PreferLight | ColorScheme::ForceLight => Some(Theme::Light),
        ColorScheme::PreferDark | ColorScheme::ForceDark => Some(Theme::Dark),
        ColorScheme::Default | ColorScheme::Unknown => None,
    }
}

/// The toolkit setting by which a window states its preference: a
/// preference, never a forced scheme.
pub open spec fn preferred_scheme(theme: Theme) -> ColorScheme {
    match theme {
        Theme::Light => ColorScheme::PreferLight,
        Theme::Dark => ColorScheme::PreferDark,
    }
}

impl ColorScheme {
    /// The theme that this setting stands for, if it stands for one.
    pub fn theme(self) -> (theme: Option<Theme>)
        ensures
            theme == theme_of(self),
    {
        match self {
            ColorScheme::Default => None,
            ColorScheme::PreferLight | ColorScheme::ForceLight => Some(Theme::Light),
            ColorScheme::PreferDark | ColorScheme::ForceDark => Some(Theme::Dark),
            _ => None,
        }
    }
}

impl Theme {
    /// The toolkit setting that asks for this theme without forcing it.
    pub fn color_scheme(self) -> (scheme: ColorScheme)
        ensures
            scheme == preferred_scheme(self),
    {
        match self {
            Theme::Light => ColorScheme::PreferLight,
            Theme::Dark => ColorScheme::PreferDark,
        }
    }
}

} // verus!
