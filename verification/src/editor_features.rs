use vstd::prelude::*;

verus! {

/// Optional CodeMirror editor features, each toggled independently.
///
/// Field names mirror the CodeMirror extension they enable. All default to
/// off; construct with [`EditorFeatures::default`] and the chained builder
/// methods, e.g.
/// `EditorFeatures::default().allow_multiple_selections().tab_size(2)`.
#[derive(Clone, Copy, Debug, PartialEq, Eq, Structural)]
pub struct EditorFeatures {
    /// Allow multiple selections / cursors (e.g. via `Alt`-click), mapping to
    /// `EditorState.allowMultipleSelections`.
    pub allow_multiple_selections: bool,
    /// Highlight other occurrences of the current word/selection, and bind
    /// `Mod-d` to select the next occurrence.
    pub highlight_selection_matches: bool,
    /// Highlight the line the primary cursor is on, mapping to
    /// `highlightActiveLine`.
    pub highlight_active_line: bool,
    /// Highlight the bracket matching the one next to the cursor, mapping to
    /// `bracketMatching`.
    pub bracket_matching: bool,
    /// Auto-insert closing brackets and quotes, mapping to `closeBrackets`.
    pub close_brackets: bool,
    /// Allow rectangular (block) selection via `Alt`-drag, mapping to
    /// `rectangularSelection` plus `crosshairCursor`.
    pub rectangular_selection: bool,
    /// Re-indent lines as you type, mapping to `indentOnInput`.
    pub indent_on_input: bool,
    /// Render whitespace characters visibly, mapping to `highlightWhitespace`.
    pub highlight_whitespace: bool,
    /// Wrap long lines instead of scrolling horizontally, mapping to
    /// `EditorView.lineWrapping`.
    pub line_wrapping: bool,
    /// Make the document read-only, mapping to `EditorState.readOnly`.
    pub read_only: bool,
    /// Width of a tab in spaces, mapping to `EditorState.tabSize`, e.g.
    /// `Some(2)`. `None` keeps CodeMirror's default.
    pub tab_size: Option<u8>,
}

impl Default for EditorFeatures {
    fn default() -> (features: Self)
        ensures
            !features.allow_multiple_selections,
            !features.highlight_selection_matches,
            !features.highlight_active_line,
            !features.bracket_matching,
            !features.close_brackets,
            !features.rectangular_selection,
            !features.indent_on_input,
            !features.highlight_whitespace,
            !features.line_wrapping,
            !features.read_only,
            features.tab_size is None,
    {
        EditorFeatures {
            allow_multiple_selections: false,
            highlight_selection_matches: false,
            highlight_active_line: false,
            bracket_matching: false,
            close_brackets: false,
            rectangular_selection: false,
            indent_on_input: false,
            highlight_whitespace: false,
            line_wrapping: false,
            read_only: false,
            tab_size: None,
        }
    }
}

impl EditorFeatures {
    /// Enables [`Self::allow_multiple_selections`], keeping every other feature.
    pub fn allow_multiple_selections(self) -> (features: Self)
        ensures
            features == (EditorFeatures { allow_multiple_selections: true, ..self }),
    {
        EditorFeatures { allow_multiple_selections: true, ..self }
    }

    /// Enables [`Self::highlight_selection_matches`], keeping every other feature.
    pub fn highlight_selection_matches(self) -> (features: Self)
        ensures
            features == (EditorFeatures { highlight_selection_matches: true, ..self }),
    {
        EditorFeatures { highlight_selection_matches: true, ..self }
    }

    /// Enables [`Self::highlight_active_line`], keeping every other feature.
    pub fn highlight_active_line(self) -> (features: Self)
        ensures
            features == (EditorFeatures { highlight_active_line: true, ..self }),
    {
        EditorFeatures { highlight_active_line: true, ..self }
    }

    /// Enables [`Self::bracket_matching`], keeping every other feature.
    pub fn bracket_matching(self) -> (features: Self)
        ensures
            features == (EditorFeatures { bracket_matching: true, ..self }),
    {
        EditorFeatures { bracket_matching: true, ..self }
    }

    /// Enables [`Self::close_brackets`], keeping every other feature.
    pub fn close_brackets(self) -> (features: Self)
        ensures
            features == (EditorFeatures { close_brackets: true, ..self }),
    {
        EditorFeatures { close_brackets: true, ..self }
    }

    /// Enables [`Self::rectangular_selection`], keeping every other feature.
    pub fn rectangular_selection(self) -> (features: Self)
        ensures
            features == (EditorFeatures { rectangular_selection: true, ..self }),
    {
        EditorFeatures { rectangular_selection: true, ..self }
    }

    /// Enables [`Self::indent_on_input`], keeping every other feature.
    pub fn indent_on_input(self) -> (features: Self)
        ensures
            features == (EditorFeatures { indent_on_input: true, ..self }),
    {
        EditorFeatures { indent_on_input: true, ..self }
    }

    /// Enables [`Self::highlight_whitespace`], keeping every other feature.
    pub fn highlight_whitespace(self) -> (features: Self)
        ensures
            features == (EditorFeatures { highlight_whitespace: true, ..self }),
    {
        EditorFeatures { highlight_whitespace: true, ..self }
    }

    /// Enables [`Self::line_wrapping`], keeping every other feature.
    pub fn line_wrapping(self) -> (features: Self)
        ensures
            features == (EditorFeatures { line_wrapping: true, ..self }),
    {
        EditorFeatures { line_wrapping: true, ..self }
    }

    /// Enables [`Self::read_only`], keeping every other feature.
    pub fn read_only(self) -> (features: Self)
        ensures
            features == (EditorFeatures { read_only: true, ..self }),
    {
        EditorFeatures { read_only: true, ..self }
    }

    /// Sets [`Self::tab_size`] to `tab_size` spaces, e.g. `2`, keeping every
    /// other feature.
    pub fn tab_size(self, tab_size: u8) -> (features: Self)
        ensures
            features == (EditorFeatures { tab_size: Some(tab_size), ..self }),
    {
        EditorFeatures { tab_size: Some(tab_size), ..self }
    }
}

} // verus!
