//! The stored GUI settings and the choice of the colour theme.
use vstd::prelude::*;

verus! {

/// Which colour theme the user asked for.
#[derive(Clone, Copy, Debug, PartialEq, Eq, Structural)]
pub enum ThemePreference {
    Dark,
    Light,
    System,
}

/// A colour theme that the window can be drawn in.
#[derive(Clone, Copy, Debug, PartialEq, Eq, Structural)]
pub enum Theme {
    Dark,
    Light,
}

/// The settings that are kept between two runs of the program and that the
/// panel logic reads.  The window size, which is a pair of floating-point
/// numbers, is kept beside it by the window code.
#[derive(Clone, Debug, PartialEq)]
pub struct GuiSettingsContainer {
    pub device: String,
    pub baud: u32,
    pub debug: bool,
    pub save_absolute_time: bool,
    pub dark_mode: bool,
    pub theme_preference: ThemePreference,
}

/// The settings of a first start: no device, 115200 baud, debug output on,
/// relative time stamps, dark mode, and the theme of the system.
pub open spec fn is_default_settings(s: GuiSettingsContainer) -> bool {
    &&& s.device@ == Seq::<char>::empty()
    &&& s.baud == 115_200
    &&& s.debug
    &&& !s.save_absolute_time
    &&& s.dark_mode
    &&& s.theme_preference == ThemePreference::System
}

impl Default for GuiSettingsContainer {
    fn default() -> (s: Self)
        ensures
            is_default_settings(s),
    {
        GuiSettingsContainer {
            device: String::new(),
            baud: 115_200,
            debug: true,
            save_absolute_time: false,
            dark_mode: true,
            theme_preference: ThemePreference::System,
        }
    }
}

/// What the program goes on with after it tried to read the stored settings:
/// the settings that were read, or, where none could be read, the default
/// settings together with the request to store them.
pub fn settings_or_default(loaded: Option<GuiSettingsContainer>) -> (r: (
    GuiSettingsContainer,
    bool,
))
    ensures
        match loaded {
            Some(s) => r.0 == s && !r.1,
            None => is_default_settings(r.0) && r.1,
        },
{
    match loaded {
        Some(s) => (s, false),
        None => (GuiSettingsContainer::default(), true),
    }
}

/// The theme the window is drawn in: the one asked for, or for `System` the
/// theme that the system reports, dark where it reports none.
pub open spec fn theme_for(preference: ThemePreference, system: Option<Theme>) -> Theme {
    match preference {
        ThemePreference::Dark => Theme::Dark,
        ThemePreference::Light => Theme::Light,
        ThemePreference::System => match system {
            Some(t) => t,
            None => Theme::Dark,
        },
    }
}

/// Chooses the theme to draw in (see `theme_for`).
pub fn resolve_theme(preference: ThemePreference, system: Option<Theme>) -> (t: Theme)
    ensures
        t == theme_for(preference, system),
        preference == ThemePreference::Dark ==> t == Theme::Dark,
        preference == ThemePreference::Light ==> t == Theme::Light,
        preference == ThemePreference::System && system is None ==> t == Theme::Dark,
        preference == ThemePreference::System && system is Some ==> t == system->0,
{
    match preference {
        ThemePreference::Dark => Theme::Dark,
        ThemePreference::Light => Theme::Light,
        ThemePreference::System => match system {
            Some(t) => t,
            None => Theme::Dark,
        },
    }
}

/// A preference for dark or light wins over whatever the system reports; the
/// system's theme counts only for `System`, and dark stands in where it
/// reports none.
pub proof fn lemma_explicit_preference_wins(preference: ThemePreference, system: Option<Theme>)
    ensures
        preference == ThemePreference::Dark ==> theme_for(preference, system) == Theme::Dark,
        preference == ThemePreference::Light ==> theme_for(preference, system) == Theme::Light,
        preference == ThemePreference::System ==> theme_for(preference, system) == (
        match system {
            Some(t) => t,
            None => Theme::Dark,
        }),
{
}

} // verus!
