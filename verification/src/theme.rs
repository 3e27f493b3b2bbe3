//! The tri-state theme preference and its string encodings.

use vstd::prelude::*;

verus! {

/// Display preference attached to a session and, for authenticated users, to
/// the user record. `System` is the default everywhere.
#[derive(Clone, Copy, Debug, PartialEq, Eq, Structural)]
pub enum ThemePreference {
    System,
    Light,
    Dark,
}

/// The strict parse of a theme name: exactly `light`, `dark` or `system`.
pub open spec fn spec_theme_from_str(s: Seq<char>) -> Result<ThemePreference, ()> {
    if s == "light"@ {
        Ok(ThemePreference::Light)
    } else if s == "dark"@ {
        Ok(ThemePreference::Dark)
    } else if s == "system"@ {
        Ok(ThemePreference::System)
    } else {
        Err(())
    }
}

/// The canonical name a preference is stored under.
pub open spec fn spec_theme_str(t: ThemePreference) -> Seq<char> {
    match t {
        ThemePreference::Light => "light"@,
        ThemePreference::Dark => "dark"@,
        ThemePreference::System => "system"@,
    }
}

impl Default for ThemePreference {
    /// The default preference is `System`.
    fn default() -> (r: Self)
        ensures
            r == ThemePreference::System,
    {
        ThemePreference::System
    }
}

impl ThemePreference {
    /// Strict parse of a client-supplied theme name (for example the value of
    /// a browser colour-scheme hint); unknown names are rejected.
    pub fn from_str(s: &str) -> (r: Result<ThemePreference, ()>)
        ensures
            r == spec_theme_from_str(s@),
    {
        if crate::strutil::str_eq(s, "light") {
            Ok(ThemePreference::Light)
        } else if crate::strutil::str_eq(s, "dark") {
            Ok(ThemePreference::Dark)
        } else if crate::strutil::str_eq(s, "system") {
            Ok(ThemePreference::System)
        } else {
            Err(())
        }
    }

    /// Lenient decode of a stored theme column: anything but the two explicit
    /// themes falls back to the default.
    pub fn from_stored_str(s: &str) -> (r: ThemePreference)
        ensures
            r == (if s@ == "light"@ {
                ThemePreference::Light
            } else if s@ == "dark"@ {
                ThemePreference::Dark
            } else {
                ThemePreference::System
            }),
    {
        if crate::strutil::str_eq(s, "light") {
            ThemePreference::Light
        } else if crate::strutil::str_eq(s, "dark") {
            ThemePreference::Dark
        } else {
            ThemePreference::System
        }
    }

    /// The canonical name this preference is stored under.
    pub fn as_str(&self) -> (r: &'static str)
        ensures
            r@ == spec_theme_str(*self),
    {
        match self {
            ThemePreference::Light => "light",
            ThemePreference::Dark => "dark",
            ThemePreference::System => "system",
        }
    }
}

} // verus!
