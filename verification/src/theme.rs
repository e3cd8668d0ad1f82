//! The fixed set of highlighting themes and the window appearance each one
//! implies.

use vstd::prelude::*;

verus! {

/// A syntax-highlighting theme, one of a fixed enumerated set.
#[derive(Clone, Copy, Debug, PartialEq, Eq, Structural)]
pub enum Theme {
    SolarizedDark,
    Base16Mocha,
    Base16Ocean,
    Base16Eighties,
    InspiredGitHub,
}

/// The overall light or dark appearance of the window chrome.
#[derive(Clone, Copy, Debug, PartialEq, Eq, Structural)]
pub enum Appearance {
    Light,
    Dark,
}

impl Theme {
    /// Whether the theme uses a dark background.
    pub open spec fn is_dark_spec(self) -> bool {
        !(self is InspiredGitHub)
    }

    /// Returns whether the theme uses a dark background; only the
    /// light-on-white theme does not.
    pub fn is_dark(&self) -> (dark: bool)
        ensures
            dark == self.is_dark_spec(),
    {
        match self {
            Theme::InspiredGitHub => false,
            _ => true,
        }
    }

    /// Returns the window appearance the theme calls for: dark themes get a
    /// dark window, the rest a light one.
    pub fn appearance(&self) -> (a: Appearance)
        ensures
            a == (if self.is_dark_spec() {
                Appearance::Dark
            } else {
                Appearance::Light
            }),
    {
        if self.is_dark() {
            Appearance::Dark
        } else {
            Appearance::Light
        }
    }
}

/// Returns every selectable theme, in the order the theme picker offers
/// them.
pub fn all_themes() -> (themes: Vec<Theme>)
    ensures
        themes@ == seq![
            Theme::SolarizedDark,
            Theme::Base16Mocha,
            Theme::Base16Ocean,
            Theme::Base16Eighties,
            Theme::InspiredGitHub,
        ],
{
    let mut themes: Vec<Theme> = Vec::new();
    themes.push(Theme::SolarizedDark);
    themes.push(Theme::Base16Mocha);
    themes.push(Theme::Base16Ocean);
    themes.push(Theme::Base16Eighties);
    themes.push(Theme::InspiredGitHub);
    proof {
        assert(themes@ =~= seq![
            Theme::SolarizedDark,
            Theme::Base16Mocha,
            Theme::Base16Ocean,
            Theme::Base16Eighties,
            Theme::InspiredGitHub,
        ]);
    }
    themes
}

} // verus!
