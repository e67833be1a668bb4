use vstd::prelude::*;

verus! {

/// Color theme for an editor.
///
/// Drives the `data-theme` attribute on the editor's mount element, which the
/// stylesheet keys off to choose its light or dark CSS variables.
#[derive(Clone, Copy, Debug, PartialEq, Eq, Structural)]
pub enum Theme {
    /// Follow the operating system's `prefers-color-scheme`. The default.
    Auto,
    /// Always use the light palette.
    Light,
    /// Always use the dark palette.
    Dark,
}

impl Default for Theme {
    fn default() -> (theme: Self)
        ensures
            theme == Theme::Auto,
    {
        Theme::Auto
    }
}

/// The `data-theme` attribute value for `theme`.
pub open spec fn theme_attr_spec(theme: Theme) -> Seq<char> {
    match theme {
        Theme::Auto => "auto"@,
        Theme::Light => "light"@,
        Theme::Dark => "dark"@,
    }
}

impl Theme {
    /// The `data-theme` attribute value the stylesheet matches on, e.g.
    /// `Theme::Dark` becomes `"dark"`.
    pub fn theme_attr(self) -> (attr: &'static str)
        ensures
            attr@ == theme_attr_spec(self),
    {
        match self {
            Theme::Auto => "auto",
            Theme::Light => "light",
            Theme::Dark => "dark",
        }
    }
}

/// Distinct themes select distinct `data-theme` attributes, so the stylesheet
/// can tell every theme apart.
pub proof fn lemma_theme_attr_injective(a: Theme, b: Theme)
    ensures
        theme_attr_spec(a) == theme_attr_spec(b) ==> a == b,
{
    reveal_strlit("auto");
    reveal_strlit("light");
    reveal_strlit("dark");
    if a != b {
        match (a, b) {
            (Theme::Auto, Theme::Light) => assert(theme_attr_spec(a)[0] != theme_attr_spec(b)[0]),
            (Theme::Light, Theme::Auto) => assert(theme_attr_spec(a)[0] != theme_attr_spec(b)[0]),
            (Theme::Auto, Theme::Dark) => assert(theme_attr_spec(a)[0] != theme_attr_spec(b)[0]),
            (Theme::Dark, Theme::Auto) => assert(theme_attr_spec(a)[0] != theme_attr_spec(b)[0]),
            (Theme::Light, Theme::Dark) => assert(theme_attr_spec(a)[0] != theme_attr_spec(b)[0]),
            (Theme::Dark, Theme::Light) => assert(theme_attr_spec(a)[0] != theme_attr_spec(b)[0]),
            _ => {},
        }
    }
}

} // verus!
