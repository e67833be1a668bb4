use vstd::prelude::*;
use vstd::string::StringExecFns;

use crate::text::opt_view;

verus! {

/// CSS colour overrides for a single theme palette entry, per colour scheme.
///
/// Each field, when `Some`, overrides that entry's built-in colour for the
/// matching scheme; `None` keeps the default. The value is any CSS colour, e.g.
/// `"#0d1117"` or `"oklch(92.9% 0.013 255.508)"`, and is emitted verbatim into
/// a CSS custom-property declaration.
#[derive(Clone, Debug, PartialEq, Eq)]
pub struct ThemeColor {
    /// Colour for the light scheme; `None` keeps the default light colour.
    pub light: Option<String>,
    /// Colour for the dark scheme; `None` keeps the default dark colour.
    pub dark: Option<String>,
}

impl Default for ThemeColor {
    fn default() -> (color: Self)
        ensures
            color.light is None,
            color.dark is None,
    {
        ThemeColor { light: None, dark: None }
    }
}

impl ThemeColor {
    /// Returns a `ThemeColor` overriding both schemes, e.g.
    /// `ThemeColor::new("#ffffff", "#0d1117")`.
    pub fn new(light: &str, dark: &str) -> (color: Self)
        ensures
            opt_view(color.light) == Some(light@),
            opt_view(color.dark) == Some(dark@),
    {
        ThemeColor { light: Some(String::from_str(light)), dark: Some(String::from_str(dark)) }
    }

    /// Returns a `ThemeColor` overriding only the light scheme.
    pub fn light_only(light: &str) -> (color: Self)
        ensures
            opt_view(color.light) == Some(light@),
            color.dark is None,
    {
        ThemeColor { light: Some(String::from_str(light)), dark: None }
    }

    /// Returns a `ThemeColor` overriding only the dark scheme.
    pub fn dark_only(dark: &str) -> (color: Self)
        ensures
            color.light is None,
            opt_view(color.dark) == Some(dark@),
    {
        ThemeColor { light: None, dark: Some(String::from_str(dark)) }
    }
}

} // verus!
