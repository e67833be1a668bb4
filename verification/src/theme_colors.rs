use vstd::prelude::*;
use vstd::string::StringExecFns;

use crate::text::{join, lemma_join_push};
use crate::text::opt_view;
use crate::theme_color::ThemeColor;

verus! {

/// Per-editor CSS colour overrides for the theme palette.
///
/// Each field overrides one entry of the built-in palette for the light and/or
/// dark scheme (see [`ThemeColor`]); unset fields keep the defaults. Overrides
/// are emitted as inline CSS custom properties on the editor's mount element
/// (see [`Self::style_attr`]), so they apply to that editor only.
#[derive(Clone, Debug, PartialEq, Eq)]
pub struct ThemeColors {
    /// Editor background. CSS var `--dxcm-bg`.
    pub bg: ThemeColor,
    /// Editor foreground (default text). CSS var `--dxcm-fg`.
    pub fg: ThemeColor,
    /// Text cursor colour. CSS var `--dxcm-caret`.
    pub caret: ThemeColor,
    /// Selection background (unfocused). CSS var `--dxcm-selection`.
    pub selection: ThemeColor,
    /// Selection background (focused). CSS var `--dxcm-selection-focused`.
    pub selection_focused: ThemeColor,
    /// Other selection-match occurrences. CSS var `--dxcm-selection-match`.
    pub selection_match: ThemeColor,
    /// Active selection-match occurrence. CSS var `--dxcm-selection-match-main`.
    pub selection_match_main: ThemeColor,
    /// Gutter background. CSS var `--dxcm-gutter-bg`.
    pub gutter_bg: ThemeColor,
    /// Gutter foreground (line numbers). CSS var `--dxcm-gutter-fg`.
    pub gutter_fg: ThemeColor,
    /// Rendered-whitespace dots. CSS var `--dxcm-highlight-space`.
    pub highlight_space: ThemeColor,
    /// Active line background. CSS var `--dxcm-active-line`.
    pub active_line: ThemeColor,
    /// Active line gutter background. CSS var `--dxcm-active-line-gutter-bg`.
    pub active_line_gutter_bg: ThemeColor,
    /// Borders / focus outline. CSS var `--dxcm-border`.
    pub border: ThemeColor,
    /// Tooltip background. CSS var `--dxcm-tooltip-bg`.
    pub tooltip_bg: ThemeColor,
    /// Tooltip foreground. CSS var `--dxcm-tooltip-fg`.
    pub tooltip_fg: ThemeColor,
    /// Selected tooltip item background. CSS var `--dxcm-tooltip-selected-bg`.
    pub tooltip_selected_bg: ThemeColor,
    /// Selected tooltip item foreground. CSS var `--dxcm-tooltip-selected-fg`.
    pub tooltip_selected_fg: ThemeColor,
    /// Completion-info panel background. CSS var `--dxcm-tooltip-info-bg`.
    pub tooltip_info_bg: ThemeColor,
    /// Syntax: keywords. CSS var `--dxcm-syntax-keyword`.
    pub syntax_keyword: ThemeColor,
    /// Syntax: strings. CSS var `--dxcm-syntax-string`.
    pub syntax_string: ThemeColor,
    /// Syntax: comments. CSS var `--dxcm-syntax-comment`.
    pub syntax_comment: ThemeColor,
    /// Syntax: numbers. CSS var `--dxcm-syntax-number`.
    pub syntax_number: ThemeColor,
    /// Syntax: functions. CSS var `--dxcm-syntax-function`.
    pub syntax_function: ThemeColor,
    /// Syntax: types. CSS var `--dxcm-syntax-type`.
    pub syntax_type: ThemeColor,
    /// Syntax: constants. CSS var `--dxcm-syntax-constant`.
    pub syntax_constant: ThemeColor,
    /// Syntax: operators. CSS var `--dxcm-syntax-operator`.
    pub syntax_operator: ThemeColor,
    /// Syntax: properties. CSS var `--dxcm-syntax-property`.
    pub syntax_property: ThemeColor,
    /// Syntax: headings. CSS var `--dxcm-syntax-heading`.
    pub syntax_heading: ThemeColor,
    /// Syntax: links. CSS var `--dxcm-syntax-link`.
    pub syntax_link: ThemeColor,
    /// Syntax: invalid tokens. CSS var `--dxcm-syntax-invalid`.
    pub syntax_invalid: ThemeColor,
}

impl Default for ThemeColors {
    fn default() -> (colors: Self)
        ensures
            forall|i: int|
                0 <= i < PALETTE_LEN ==> (#[trigger] colors.palette()[i]).light is None
                    && colors.palette()[i].dark is None,
    {
        ThemeColors {
            bg: ThemeColor::default(),
            fg: ThemeColor::default(),
            caret: ThemeColor::default(),
            selection: ThemeColor::default(),
            selection_focused: ThemeColor::default(),
            selection_match: ThemeColor::default(),
            selection_match_main: ThemeColor::default(),
            gutter_bg: ThemeColor::default(),
            gutter_fg: ThemeColor::default(),
            highlight_space: ThemeColor::default(),
            active_line: ThemeColor::default(),
            active_line_gutter_bg: ThemeColor::default(),
            border: ThemeColor::default(),
            tooltip_bg: ThemeColor::default(),
            tooltip_fg: ThemeColor::default(),
            tooltip_selected_bg: ThemeColor::default(),
            tooltip_selected_fg: ThemeColor::default(),
            tooltip_info_bg: ThemeColor::default(),
            syntax_keyword: ThemeColor::default(),
            syntax_string: ThemeColor::default(),
            syntax_comment: ThemeColor::default(),
            syntax_number: ThemeColor::default(),
            syntax_function: ThemeColor::default(),
            syntax_type: ThemeColor::default(),
            syntax_constant: ThemeColor::default(),
            syntax_operator: ThemeColor::default(),
            syntax_property: ThemeColor::default(),
            syntax_heading: ThemeColor::default(),
            syntax_link: ThemeColor::default(),
            syntax_invalid: ThemeColor::default(),
        }
    }
}

/// Number of entries in the theme palette.
pub const PALETTE_LEN: usize = 30;

/// The CSS-variable suffix of each palette entry (the hyphenated
/// `--dxcm-<suffix>` name), in palette order.
pub open spec fn palette_names() -> Seq<Seq<char>> {
    seq![
        "bg"@,
        "fg"@,
        "caret"@,
        "selection"@,
        "selection-focused"@,
        "selection-match"@,
        "selection-match-main"@,
        "gutter-bg"@,
        "gutter-fg"@,
        "highlight-space"@,
        "active-line"@,
        "active-line-gutter-bg"@,
        "border"@,
        "tooltip-bg"@,
        "tooltip-fg"@,
        "tooltip-selected-bg"@,
        "tooltip-selected-fg"@,
        "tooltip-info-bg"@,
        "syntax-keyword"@,
        "syntax-string"@,
        "syntax-comment"@,
        "syntax-number"@,
        "syntax-function"@,
        "syntax-type"@,
        "syntax-constant"@,
        "syntax-operator"@,
        "syntax-property"@,
        "syntax-heading"@,
        "syntax-link"@,
        "syntax-invalid"@,
    ]
}

/// The inline-style declaration `--dxcm-<scheme>-<name>: <value>;` of one
/// source CSS variable.
pub open spec fn declaration(scheme: Seq<char>, name: Seq<char>, value: Seq<char>) -> Seq<char> {
    "--dxcm-"@ + scheme + "-"@ + name + ": "@ + value + ";"@
}

/// The declarations one palette entry contributes: its light override, then
/// its dark override, each only when set.
pub open spec fn entry_declarations(name: Seq<char>, color: ThemeColor) -> Seq<Seq<char>> {
    let light = match opt_view(color.light) {
        Some(v) => seq![declaration("light"@, name, v)],
        None => Seq::empty(),
    };
    let dark = match opt_view(color.dark) {
        Some(v) => seq![declaration("dark"@, name, v)],
        None => Seq::empty(),
    };
    light + dark
}

/// The declarations of the first `n` palette entries of `colors`, in palette
/// order.
pub open spec fn declarations_upto(colors: ThemeColors, n: nat) -> Seq<Seq<char>>
    decreases n,
{
    if n == 0 {
        Seq::empty()
    } else {
        declarations_upto(colors, (n - 1) as nat) + entry_declarations(
            palette_names()[n - 1],
            colors.palette()[n - 1],
        )
    }
}

/// Every overriding declaration of `colors`, in palette order.
pub open spec fn declarations(colors: ThemeColors) -> Seq<Seq<char>> {
    declarations_upto(colors, PALETTE_LEN as nat)
}

/// The inline `style` attribute value of `colors`: its declarations separated
/// by single spaces, or `None` when nothing is overridden.
pub open spec fn style_attr_spec(colors: ThemeColors) -> Option<Seq<char>> {
    if declarations(colors).len() == 0 {
        None
    } else {
        Some(join(declarations(colors), " "@))
    }
}

/// The first `n` entries contribute no declaration exactly when none of them
/// overrides either scheme.
proof fn lemma_declarations_upto_empty(colors: ThemeColors, n: nat)
    requires
        n <= PALETTE_LEN,
    ensures
        declarations_upto(colors, n).len() == 0 <==> forall|i: int|
            0 <= i < n ==> (#[trigger] colors.palette()[i]).light is None
                && colors.palette()[i].dark is None,
    decreases n,
{
    if n > 0 {
        lemma_declarations_upto_empty(colors, (n - 1) as nat);
    }
}

/// An editor gets an inline style exactly when at least one palette entry
/// overrides a colour; with no override set (e.g. the default palette) no
/// style attribute is emitted.
pub proof fn lemma_style_attr_none_iff_no_override(colors: ThemeColors)
    ensures
        style_attr_spec(colors) is None <==> forall|i: int|
            0 <= i < PALETTE_LEN ==> (#[trigger] colors.palette()[i]).light is None
                && colors.palette()[i].dark is None,
{
    lemma_declarations_upto_empty(colors, PALETTE_LEN as nat);
}

/// Every colour override of `colors` is declared, under its own scheme and
/// palette name, in the inline style.
pub proof fn lemma_style_attr_declares_every_override(colors: ThemeColors, i: int)
    requires
        0 <= i < PALETTE_LEN,
    ensures
        colors.palette()[i].light matches Some(v) ==> declarations(colors).contains(
            declaration("light"@, palette_names()[i], v@),
        ),
        colors.palette()[i].dark matches Some(v) ==> declarations(colors).contains(
            declaration("dark"@, palette_names()[i], v@),
        ),
{
    lemma_declarations_upto_contains(colors, PALETTE_LEN as nat, i);
}

/// A declaration reads `--dxcm-<scheme>-<name>: <value>;`.
proof fn lemma_declaration_text()
    ensures
        forall|name: Seq<char>, value: Seq<char>|
            #[trigger] declaration("light"@, name, value) == "--dxcm-light-"@ + name + ": "@ + value
                + ";"@,
        forall|name: Seq<char>, value: Seq<char>|
            #[trigger] declaration("dark"@, name, value) == "--dxcm-dark-"@ + name + ": "@ + value
                + ";"@,
{
    reveal_strlit("--dxcm-");
    reveal_strlit("light");
    reveal_strlit("dark");
    reveal_strlit("-");
    reveal_strlit("--dxcm-light-");
    reveal_strlit("--dxcm-dark-");
    assert("--dxcm-"@ + "light"@ + "-"@ =~= "--dxcm-light-"@);
    assert("--dxcm-"@ + "dark"@ + "-"@ =~= "--dxcm-dark-"@);
    assert forall|name: Seq<char>, value: Seq<char>|
        #[trigger] declaration("light"@, name, value) == "--dxcm-light-"@ + name + ": "@ + value
            + ";"@ by {
        assert(declaration("light"@, name, value) =~= "--dxcm-light-"@ + name + ": "@ + value
            + ";"@);
    }
    assert forall|name: Seq<char>, value: Seq<char>|
        #[trigger] declaration("dark"@, name, value) == "--dxcm-dark-"@ + name + ": "@ + value
            + ";"@ by {
        assert(declaration("dark"@, name, value) =~= "--dxcm-dark-"@ + name + ": "@ + value
            + ";"@);
    }
}

/// Each field's override is declared under that field's own CSS variable,
/// `--dxcm-<scheme>-<field>` with the field name hyphenated, e.g. a light
/// `gutter_bg` of `#f6f8fa` as `--dxcm-light-gutter-bg: #f6f8fa;`.
#[verifier::rlimit(50)]
pub proof fn lemma_style_attr_field_variables(colors: ThemeColors)
    ensures
        colors.bg.light matches Some(v) ==> declarations(colors).contains(
            "--dxcm-light-"@ + "bg"@ + ": "@ + v@ + ";"@,
        ),
        colors.bg.dark matches Some(v) ==> declarations(colors).contains(
            "--dxcm-dark-"@ + "bg"@ + ": "@ + v@ + ";"@,
        ),
        colors.fg.light matches Some(v) ==> declarations(colors).contains(
            "--dxcm-light-"@ + "fg"@ + ": "@ + v@ + ";"@,
        ),
        colors.fg.dark matches Some(v) ==> declarations(colors).contains(
            "--dxcm-dark-"@ + "fg"@ + ": "@ + v@ + ";"@,
        ),
        colors.caret.light matches Some(v) ==> declarations(colors).contains(
            "--dxcm-light-"@ + "caret"@ + ": "@ + v@ + ";"@,
        ),
        colors.caret.dark matches Some(v) ==> declarations(colors).contains(
            "--dxcm-dark-"@ + "caret"@ + ": "@ + v@ + ";"@,
        ),
        colors.selection.light matches Some(v) ==> declarations(colors).contains(
            "--dxcm-light-"@ + "selection"@ + ": "@ + v@ + ";"@,
        ),
        colors.selection.dark matches Some(v) ==> declarations(colors).contains(
            "--dxcm-dark-"@ + "selection"@ + ": "@ + v@ + ";"@,
        ),
        colors.selection_focused.light matches Some(v) ==> declarations(colors).contains(
            "--dxcm-light-"@ + "selection-focused"@ + ": "@ + v@ + ";"@,
        ),
        colors.selection_focused.dark matches Some(v) ==> declarations(colors).contains(
            "--dxcm-dark-"@ + "selection-focused"@ + ": "@ + v@ + ";"@,
        ),
        colors.selection_match.light matches Some(v) ==> declarations(colors).contains(
            "--dxcm-light-"@ + "selection-match"@ + ": "@ + v@ + ";"@,
        ),
        colors.selection_match.dark matches Some(v) ==> declarations(colors).contains(
            "--dxcm-dark-"@ + "selection-match"@ + ": "@ + v@ + ";"@,
        ),
        colors.selection_match_main.light matches Some(v) ==> declarations(colors).contains(
            "--dxcm-light-"@ + "selection-match-main"@ + ": "@ + v@ + ";"@,
        ),
        colors.selection_match_main.dark matches Some(v) ==> declarations(colors).contains(
            "--dxcm-dark-"@ + "selection-match-main"@ + ": "@ + v@ + ";"@,
        ),
        colors.gutter_bg.light matches Some(v) ==> declarations(colors).contains(
            "--dxcm-light-"@ + "gutter-bg"@ + ": "@ + v@ + ";"@,
        ),
        colors.gutter_bg.dark matches Some(v) ==> declarations(colors).contains(
            "--dxcm-dark-"@ + "gutter-bg"@ + ": "@ + v@ + ";"@,
        ),
        colors.gutter_fg.light matches Some(v) ==> declarations(colors).contains(
            "--dxcm-light-"@ + "gutter-fg"@ + ": "@ + v@ + ";"@,
        ),
        colors.gutter_fg.dark matches Some(v) ==> declarations(colors).contains(
            "--dxcm-dark-"@ + "gutter-fg"@ + ": "@ + v@ + ";"@,
        ),
        colors.highlight_space.light matches Some(v) ==> declarations(colors).contains(
            "--dxcm-light-"@ + "highlight-space"@ + ": "@ + v@ + ";"@,
        ),
        colors.highlight_space.dark matches Some(v) ==> declarations(colors).contains(
            "--dxcm-dark-"@ + "highlight-space"@ + ": "@ + v@ + ";"@,
        ),
        colors.active_line.light matches Some(v) ==> declarations(colors).contains(
            "--dxcm-light-"@ + "active-line"@ + ": "@ + v@ + ";"@,
        ),
        colors.active_line.dark matches Some(v) ==> declarations(colors).contains(
            "--dxcm-dark-"@ + "active-line"@ + ": "@ + v@ + ";"@,
        ),
        colors.active_line_gutter_bg.light matches Some(v) ==> declarations(colors).contains(
            "--dxcm-light-"@ + "active-line-gutter-bg"@ + ": "@ + v@ + ";"@,
        ),
        colors.active_line_gutter_bg.dark matches Some(v) ==> declarations(colors).contains(
            "--dxcm-dark-"@ + "active-line-gutter-bg"@ + ": "@ + v@ + ";"@,
        ),
        colors.border.light matches Some(v) ==> declarations(colors).contains(
            "--dxcm-light-"@ + "border"@ + ": "@ + v@ + ";"@,
        ),
        colors.border.dark matches Some(v) ==> declarations(colors).contains(
            "--dxcm-dark-"@ + "border"@ + ": "@ + v@ + ";"@,
        ),
        colors.tooltip_bg.light matches Some(v) ==> declarations(colors).contains(
            "--dxcm-light-"@ + "tooltip-bg"@ + ": "@ + v@ + ";"@,
        ),
        colors.tooltip_bg.dark matches Some(v) ==> declarations(colors).contains(
            "--dxcm-dark-"@ + "tooltip-bg"@ + ": "@ + v@ + ";"@,
        ),
        colors.tooltip_fg.light matches Some(v) ==> declarations(colors).contains(
            "--dxcm-light-"@ + "tooltip-fg"@ + ": "@ + v@ + ";"@,
        ),
        colors.tooltip_fg.dark matches Some(v) ==> declarations(colors).contains(
            "--dxcm-dark-"@ + "tooltip-fg"@ + ": "@ + v@ + ";"@,
        ),
        colors.tooltip_selected_bg.light matches Some(v) ==> declarations(colors).contains(
            "--dxcm-light-"@ + "tooltip-selected-bg"@ + ": "@ + v@ + ";"@,
        ),
        colors.tooltip_selected_bg.dark matches Some(v) ==> declarations(colors).contains(
            "--dxcm-dark-"@ + "tooltip-selected-bg"@ + ": "@ + v@ + ";"@,
        ),
        colors.tooltip_selected_fg.light matches Some(v) ==> declarations(colors).contains(
            "--dxcm-light-"@ + "tooltip-selected-fg"@ + ": "@ + v@ + ";"@,
        ),
        colors.tooltip_selected_fg.dark matches Some(v) ==> declarations(colors).contains(
            "--dxcm-dark-"@ + "tooltip-selected-fg"@ + ": "@ + v@ + ";"@,
        ),
        colors.tooltip_info_bg.light matches Some(v) ==> declarations(colors).contains(
            "--dxcm-light-"@ + "tooltip-info-bg"@ + ": "@ + v@ + ";"@,
        ),
        colors.tooltip_info_bg.dark matches Some(v) ==> declarations(colors).contains(
            "--dxcm-dark-"@ + "tooltip-info-bg"@ + ": "@ + v@ + ";"@,
        ),
        colors.syntax_keyword.light matches Some(v) ==> declarations(colors).contains(
            "--dxcm-light-"@ + "syntax-keyword"@ + ": "@ + v@ + ";"@,
        ),
        colors.syntax_keyword.dark matches Some(v) ==> declarations(colors).contains(
            "--dxcm-dark-"@ + "syntax-keyword"@ + ": "@ + v@ + ";"@,
        ),
        colors.syntax_string.light matches Some(v) ==> declarations(colors).contains(
            "--dxcm-light-"@ + "syntax-string"@ + ": "@ + v@ + ";"@,
        ),
        colors.syntax_string.dark matches Some(v) ==> declarations(colors).contains(
            "--dxcm-dark-"@ + "syntax-string"@ + ": "@ + v@ + ";"@,
        ),
        colors.syntax_comment.light matches Some(v) ==> declarations(colors).contains(
            "--dxcm-light-"@ + "syntax-comment"@ + ": "@ + v@ + ";"@,
        ),
        colors.syntax_comment.dark matches Some(v) ==> declarations(colors).contains(
            "--dxcm-dark-"@ + "syntax-comment"@ + ": "@ + v@ + ";"@,
        ),
        colors.syntax_number.light matches Some(v) ==> declarations(colors).contains(
            "--dxcm-light-"@ + "syntax-number"@ + ": "@ + v@ + ";"@,
        ),
        colors.syntax_number.dark matches Some(v) ==> declarations(colors).contains(
            "--dxcm-dark-"@ + "syntax-number"@ + ": "@ + v@ + ";"@,
        ),
        colors.syntax_function.light matches Some(v) ==> declarations(colors).contains(
            "--dxcm-light-"@ + "syntax-function"@ + ": "@ + v@ + ";"@,
        ),
        colors.syntax_function.dark matches Some(v) ==> declarations(colors).contains(
            "--dxcm-dark-"@ + "syntax-function"@ + ": "@ + v@ + ";"@,
        ),
        colors.syntax_type.light matches Some(v) ==> declarations(colors).contains(
            "--dxcm-light-"@ + "syntax-type"@ + ": "@ + v@ + ";"@,
        ),
        colors.syntax_type.dark matches Some(v) ==> declarations(colors).contains(
            "--dxcm-dark-"@ + "syntax-type"@ + ": "@ + v@ + ";"@,
        ),
        colors.syntax_constant.light matches Some(v) ==> declarations(colors).contains(
            "--dxcm-light-"@ + "syntax-constant"@ + ": "@ + v@ + ";"@,
        ),
        colors.syntax_constant.dark matches Some(v) ==> declarations(colors).contains(
            "--dxcm-dark-"@ + "syntax-constant"@ + ": "@ + v@ + ";"@,
        ),
        colors.syntax_operator.light matches Some(v) ==> declarations(colors).contains(
            "--dxcm-light-"@ + "syntax-operator"@ + ": "@ + v@ + ";"@,
        ),
        colors.syntax_operator.dark matches Some(v) ==> declarations(colors).contains(
            "--dxcm-dark-"@ + "syntax-operator"@ + ": "@ + v@ + ";"@,
        ),
        colors.syntax_property.light matches Some(v) ==> declarations(colors).contains(
            "--dxcm-light-"@ + "syntax-property"@ + ": "@ + v@ + ";"@,
        ),
        colors.syntax_property.dark matches Some(v) ==> declarations(colors).contains(
            "--dxcm-dark-"@ + "syntax-property"@ + ": "@ + v@ + ";"@,
        ),
        colors.syntax_heading.light matches Some(v) ==> declarations(colors).contains(
            "--dxcm-light-"@ + "syntax-heading"@ + ": "@ + v@ + ";"@,
        ),
        colors.syntax_heading.dark matches Some(v) ==> declarations(colors).contains(
            "--dxcm-dark-"@ + "syntax-heading"@ + ": "@ + v@ + ";"@,
        ),
        colors.syntax_link.light matches Some(v) ==> declarations(colors).contains(
            "--dxcm-light-"@ + "syntax-link"@ + ": "@ + v@ + ";"@,
        ),
        colors.syntax_link.dark matches Some(v) ==> declarations(colors).contains(
            "--dxcm-dark-"@ + "syntax-link"@ + ": "@ + v@ + ";"@,
        ),
        colors.syntax_invalid.light matches Some(v) ==> declarations(colors).contains(
            "--dxcm-light-"@ + "syntax-invalid"@ + ": "@ + v@ + ";"@,
        ),
        colors.syntax_invalid.dark matches Some(v) ==> declarations(colors).contains(
            "--dxcm-dark-"@ + "syntax-invalid"@ + ": "@ + v@ + ";"@,
        ),
{
    lemma_declaration_text();
    lemma_style_attr_declares_every_override(colors, 0);
    lemma_style_attr_declares_every_override(colors, 1);
    lemma_style_attr_declares_every_override(colors, 2);
    lemma_style_attr_declares_every_override(colors, 3);
    lemma_style_attr_declares_every_override(colors, 4);
    lemma_style_attr_declares_every_override(colors, 5);
    lemma_style_attr_declares_every_override(colors, 6);
    lemma_style_attr_declares_every_override(colors, 7);
    lemma_style_attr_declares_every_override(colors, 8);
    lemma_style_attr_declares_every_override(colors, 9);
    lemma_style_attr_declares_every_override(colors, 10);
    lemma_style_attr_declares_every_override(colors, 11);
    lemma_style_attr_declares_every_override(colors, 12);
    lemma_style_attr_declares_every_override(colors, 13);
    lemma_style_attr_declares_every_override(colors, 14);
    lemma_style_attr_declares_every_override(colors, 15);
    lemma_style_attr_declares_every_override(colors, 16);
    lemma_style_attr_declares_every_override(colors, 17);
    lemma_style_attr_declares_every_override(colors, 18);
    lemma_style_attr_declares_every_override(colors, 19);
    lemma_style_attr_declares_every_override(colors, 20);
    lemma_style_attr_declares_every_override(colors, 21);
    lemma_style_attr_declares_every_override(colors, 22);
    lemma_style_attr_declares_every_override(colors, 23);
    lemma_style_attr_declares_every_override(colors, 24);
    lemma_style_attr_declares_every_override(colors, 25);
    lemma_style_attr_declares_every_override(colors, 26);
    lemma_style_attr_declares_every_override(colors, 27);
    lemma_style_attr_declares_every_override(colors, 28);
    lemma_style_attr_declares_every_override(colors, 29);
}

/// The declarations of entry `i` are among those of the first `n` entries,
/// for `i < n`.
proof fn lemma_declarations_upto_contains(colors: ThemeColors, n: nat, i: int)
    requires
        0 <= i < n <= PALETTE_LEN,
    ensures
        colors.palette()[i].light matches Some(v) ==> declarations_upto(colors, n).contains(
            declaration("light"@, palette_names()[i], v@),
        ),
        colors.palette()[i].dark matches Some(v) ==> declarations_upto(colors, n).contains(
            declaration("dark"@, palette_names()[i], v@),
        ),
    decreases n,
{
    let prev = declarations_upto(colors, (n - 1) as nat);
    let here = entry_declarations(palette_names()[n - 1], colors.palette()[n - 1]);
    if i < n - 1 {
        lemma_declarations_upto_contains(colors, (n - 1) as nat, i);
        if let Some(v) = colors.palette()[i].light {
            let d = declaration("light"@, palette_names()[i], v@);
            let k = choose|k: int| 0 <= k < prev.len() && prev[k] == d;
            assert((prev + here)[k] == d);
        }
        if let Some(v) = colors.palette()[i].dark {
            let d = declaration("dark"@, palette_names()[i], v@);
            let k = choose|k: int| 0 <= k < prev.len() && prev[k] == d;
            assert((prev + here)[k] == d);
        }
    } else {
        if let Some(v) = colors.palette()[i].light {
            let d = declaration("light"@, palette_names()[i], v@);
            assert((prev + here)[prev.len() as int] == d);
        }
        if let Some(v) = colors.palette()[i].dark {
            let d = declaration("dark"@, palette_names()[i], v@);
            assert((prev + here)[(prev.len() + here.len() - 1) as int] == d);
        }
    }
}

impl ThemeColors {
    /// The palette entries, in palette order.
    pub open spec fn palette(self) -> Seq<ThemeColor> {
        seq![
            self.bg,
            self.fg,
            self.caret,
            self.selection,
            self.selection_focused,
            self.selection_match,
            self.selection_match_main,
            self.gutter_bg,
            self.gutter_fg,
            self.highlight_space,
            self.active_line,
            self.active_line_gutter_bg,
            self.border,
            self.tooltip_bg,
            self.tooltip_fg,
            self.tooltip_selected_bg,
            self.tooltip_selected_fg,
            self.tooltip_info_bg,
            self.syntax_keyword,
            self.syntax_string,
            self.syntax_comment,
            self.syntax_number,
            self.syntax_function,
            self.syntax_type,
            self.syntax_constant,
            self.syntax_operator,
            self.syntax_property,
            self.syntax_heading,
            self.syntax_link,
            self.syntax_invalid,
        ]
    }

    /// Returns the palette entries paired with their CSS-variable suffix, in
    /// palette order, e.g. `("syntax-keyword", &self.syntax_keyword)`.
    fn entries(&self) -> (entries: [(&'static str, &ThemeColor); 30])
        ensures
            entries@.len() == PALETTE_LEN,
            forall|i: int|
                0 <= i < PALETTE_LEN ==> (#[trigger] entries@[i]).0@ == palette_names()[i]
                    && *entries@[i].1 == self.palette()[i],
    {
        let entries = [
            ("bg", &self.bg),
            ("fg", &self.fg),
            ("caret", &self.caret),
            ("selection", &self.selection),
            ("selection-focused", &self.selection_focused),
            ("selection-match", &self.selection_match),
            ("selection-match-main", &self.selection_match_main),
            ("gutter-bg", &self.gutter_bg),
            ("gutter-fg", &self.gutter_fg),
            ("highlight-space", &self.highlight_space),
            ("active-line", &self.active_line),
            ("active-line-gutter-bg", &self.active_line_gutter_bg),
            ("border", &self.border),
            ("tooltip-bg", &self.tooltip_bg),
            ("tooltip-fg", &self.tooltip_fg),
            ("tooltip-selected-bg", &self.tooltip_selected_bg),
            ("tooltip-selected-fg", &self.tooltip_selected_fg),
            ("tooltip-info-bg", &self.tooltip_info_bg),
            ("syntax-keyword", &self.syntax_keyword),
            ("syntax-string", &self.syntax_string),
            ("syntax-comment", &self.syntax_comment),
            ("syntax-number", &self.syntax_number),
            ("syntax-function", &self.syntax_function),
            ("syntax-type", &self.syntax_type),
            ("syntax-constant", &self.syntax_constant),
            ("syntax-operator", &self.syntax_operator),
            ("syntax-property", &self.syntax_property),
            ("syntax-heading", &self.syntax_heading),
            ("syntax-link", &self.syntax_link),
            ("syntax-invalid", &self.syntax_invalid),
        ];
        assert(entries@.len() == PALETTE_LEN);
        entries
    }

    /// Returns the inline `style` attribute value declaring the overridden
    /// source CSS variables, e.g.
    /// `"--dxcm-light-bg: #ffffff; --dxcm-dark-bg: #0d1117;"`, or `None` when
    /// no overrides are set.
    ///
    /// Only source variables (`--dxcm-light-<name>` / `--dxcm-dark-<name>`)
    /// are emitted; the stylesheet's active aliases resolve to these, so
    /// scheme switching still works.
    pub fn style_attr(&self) -> (style: Option<String>)
        ensures
            opt_view(style) == style_attr_spec(*self),
    {
        let entries = self.entries();
        let mut style = String::new();
        let mut any = false;
        let ghost mut done: Seq<Seq<char>> = Seq::empty();
        let mut i: usize = 0;
        while i < PALETTE_LEN
            invariant
                i <= PALETTE_LEN,
                entries@.len() == PALETTE_LEN,
                forall|k: int|
                    0 <= k < PALETTE_LEN ==> (#[trigger] entries@[k]).0@ == palette_names()[k]
                        && *entries@[k].1 == self.palette()[k],
                done == declarations_upto(*self, i as nat),
                style@ == join(done, " "@),
                any == (done.len() > 0),
            decreases PALETTE_LEN - i,
        {
            let (name, theme_color) = entries[i];
            let ghost before = done;
            if let Some(light) = theme_color.light.as_ref() {
                let ghost d = declaration("light"@, name@, light@);
                proof {
                    lemma_join_push(done, " "@, d);
                    done = done.push(d);
                }
                if any {
                    style.append(" ");
                }
                style.append("--dxcm-");
                style.append("light");
                style.append("-");
                style.append(name);
                style.append(": ");
                style.append(light.as_str());
                style.append(";");
                any = true;
                assert(style@ =~= join(done, " "@));
            }
            if let Some(dark) = theme_color.dark.as_ref() {
                let ghost d = declaration("dark"@, name@, dark@);
                proof {
                    lemma_join_push(done, " "@, d);
                    done = done.push(d);
                }
                if any {
                    style.append(" ");
                }
                style.append("--dxcm-");
                style.append("dark");
                style.append("-");
                style.append(name);
                style.append(": ");
                style.append(dark.as_str());
                style.append(";");
                any = true;
                assert(style@ =~= join(done, " "@));
            }
            assert(done =~= declarations_upto(*self, (i + 1) as nat));
            i = i + 1;
        }
        if any {
            Some(style)
        } else {
            None
        }
    }
}

} // verus!
