use vstd::prelude::*;

use crate::language::Language;

verus! {

/// Commands sent to the editor's glue script.
///
/// Each variant crosses the wire as a JSON object tagged with a `type` field
/// holding the variant's snake_case name, e.g.
/// `{ "type": "doc_set", "doc": "fn main() {}" }`.
#[derive(Clone, Debug, PartialEq, Eq)]
pub enum Cmd {
    /// First message sent to the glue script, carrying the editor
    /// configuration.
    ///
    /// `mount_id`: the DOM id of the element the editor mounts into, e.g.
    /// `"cm-editor-0"`. `cm_base`: base URL of the vendored CodeMirror assets.
    /// `doc`: the initial document text. `language`: syntax highlighting
    /// language, or `None` for plain text. The flags toggle optional CodeMirror
    /// features. `lsp_uri`: the file URI to attach the LSP client for, or
    /// `None` to disable LSP.
    Init {
        mount_id: String,
        cm_base: String,
        doc: String,
        allow_multiple_selections: bool,
        bracket_matching: bool,
        close_brackets: bool,
        code_actions: bool,
        code_folding: bool,
        highlight_active_line: bool,
        highlight_selection_matches: bool,
        highlight_whitespace: bool,
        indent_on_input: bool,
        indent_with_tab: bool,
        language: Option<Language>,
        line_numbers: bool,
        line_wrapping: bool,
        lsp_uri: Option<String>,
        read_only: bool,
        rectangular_selection: bool,
        tab_size: Option<u8>,
    },
    /// Replace the editor's document with `doc`, e.g. when the bound data
    /// changes elsewhere on the page.
    DocSet { doc: String },
    /// A JSON-RPC message from the language server to the editor's LSP client.
    LspMessageSend { json: String },
    /// Tear down the editor (e.g. on component unmount).
    Destroy,
}


/// The content of a [`Cmd`], with its text as character sequences.
pub enum CmdView {
    /// See [`Cmd::Init`].
    Init {
        mount_id: Seq<char>,
        cm_base: Seq<char>,
        doc: Seq<char>,
        allow_multiple_selections: bool,
        bracket_matching: bool,
        close_brackets: bool,
        code_actions: bool,
        code_folding: bool,
        highlight_active_line: bool,
        highlight_selection_matches: bool,
        highlight_whitespace: bool,
        indent_on_input: bool,
        indent_with_tab: bool,
        language: Option<Language>,
        line_numbers: bool,
        line_wrapping: bool,
        lsp_uri: Option<Seq<char>>,
        read_only: bool,
        rectangular_selection: bool,
        tab_size: Option<u8>,
    },
    /// See [`Cmd::DocSet`].
    DocSet { doc: Seq<char> },
    /// See [`Cmd::LspMessageSend`].
    LspMessageSend { json: Seq<char> },
    /// See [`Cmd::Destroy`].
    Destroy,
}

impl View for Cmd {
    type V = CmdView;

    open spec fn view(&self) -> CmdView {
        match self {
            Cmd::Init {
                mount_id,
                cm_base,
                doc,
                allow_multiple_selections,
                bracket_matching,
                close_brackets,
                code_actions,
                code_folding,
                highlight_active_line,
                highlight_selection_matches,
                highlight_whitespace,
                indent_on_input,
                indent_with_tab,
                language,
                line_numbers,
                line_wrapping,
                lsp_uri,
                read_only,
                rectangular_selection,
                tab_size,
            } => CmdView::Init {
                mount_id: mount_id@,
                cm_base: cm_base@,
                doc: doc@,
                allow_multiple_selections: *allow_multiple_selections,
                bracket_matching: *bracket_matching,
                close_brackets: *close_brackets,
                code_actions: *code_actions,
                code_folding: *code_folding,
                highlight_active_line: *highlight_active_line,
                highlight_selection_matches: *highlight_selection_matches,
                highlight_whitespace: *highlight_whitespace,
                indent_on_input: *indent_on_input,
                indent_with_tab: *indent_with_tab,
                language: *language,
                line_numbers: *line_numbers,
                line_wrapping: *line_wrapping,
                lsp_uri: match lsp_uri {
                    Some(uri) => Some(uri@),
                    None => None,
                },
                read_only: *read_only,
                rectangular_selection: *rectangular_selection,
                tab_size: *tab_size,
            },
            Cmd::DocSet { doc } => CmdView::DocSet { doc: doc@ },
            Cmd::LspMessageSend { json } => CmdView::LspMessageSend { json: json@ },
            Cmd::Destroy => CmdView::Destroy,
        }
    }
}

} // verus!
