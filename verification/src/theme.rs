//! The colour theme of the application.

use crate::text::{lowercase, lowercased};
use vstd::prelude::*;
use vstd::std_specs::convert::FromSpecImpl;
use vstd::string::*;

verus! {

/// A colour theme: light, dark, or whatever the system shows.
#[derive(Debug, Clone, Copy, PartialEq, Eq, Structural)]
pub enum Theme {
    Auto,
    Light,
    Dark,
}

impl Theme {
    /// The theme that a name in lowercase stands for: `light`, `dark`, and
    /// the system's theme for any other name.
    pub open spec fn named(lower: Seq<char>) -> Theme {
        if lower == "light"@ {
            Theme::Light
        } else if lower == "dark"@ {
            Theme::Dark
        } else {
            Theme::Auto
        }
    }

    /// The name of a theme.
    pub open spec fn name(self) -> Seq<char> {
        match self {
            Theme::Auto => "auto"@,
            Theme::Light => "light"@,
            Theme::Dark => "dark"@,
        }
    }

    /// The theme that a name in lowercase stands for.
    pub fn from_lowercase(lower: &str) -> (theme: Theme)
        ensures
            theme == Theme::named(lower@),
    {
        let lower = String::from_str(lower);
        if lower == String::from_str("light") {
            Theme::Light
        } else if lower == String::from_str("dark") {
            Theme::Dark
        } else {
            Theme::Auto
        }
    }

    /// The name of this theme.
    pub fn to_string(&self) -> (name: String)
        ensures
            name@ == self.name(),
    {
        match self {
            Theme::Auto => String::from_str("auto"),
            Theme::Light => String::from_str("light"),
            Theme::Dark => String::from_str("dark"),
        }
    }
}

impl From<&str> for Theme {
    /// The theme that a name stands for, whatever the case of its letters.
    fn from(name: &str) -> (theme: Theme) {
        let lower = lowercase(name);
        Theme::from_lowercase(lower.as_str())
    }
}

impl FromSpecImpl<&str> for Theme {
    open spec fn obeys_from_spec() -> bool {
        true
    }

    open spec fn from_spec(name: &str) -> Theme {
        Theme::named(lowercased(name@))
    }
}

/// The theme that the application shows: the system's.
pub fn get_theme() -> (theme: Theme)
    ensures
        theme == Theme::Auto,
{
    saved_theme_value()
}

/// The theme that was saved: none is kept, so the system's.
pub fn saved_theme_value() -> (theme: Theme)
    ensures
        theme == Theme::Auto,
{
    Theme::Auto
}

/// The names of the three themes are three different texts, and each theme is
/// the one that its own name stands for.
pub proof fn lemma_name_round_trip(theme: Theme)
    ensures
        Theme::named(theme.name()) == theme,
{
    reveal_strlit("auto");
    reveal_strlit("light");
    reveal_strlit("dark");
    assert("auto"@.len() == 4);
    assert("light"@.len() == 5);
    assert("dark"@.len() == 4);
    assert("auto"@[0] == 'a');
    assert("dark"@[0] == 'd');
}

} // verus!
