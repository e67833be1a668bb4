use vstd::prelude::*;

verus! {

/// Events received from the editor's glue script.
///
/// Each variant crosses the wire as a JSON object tagged with a `type` field
/// holding the variant's snake_case name, e.g.
/// `{ "type": "doc_changed", "doc": "fn main() {}" }`.
#[derive(Clone, Debug, PartialEq, Eq)]
pub enum Evt {
    /// The editor has been created and mounted.
    Ready,
    /// The user changed the document; `doc` is the full new text.
    DocChanged { doc: String },
    /// A JSON-RPC message from the editor's LSP client to the language server,
    /// as a single serialized JSON-RPC object.
    LspMessageRecv { json: String },
}

/// The content of an [`Evt`], with its text as character sequences.
pub enum EvtView {
    /// See [`Evt::Ready`].
    Ready,
    /// See [`Evt::DocChanged`].
    DocChanged { doc: Seq<char> },
    /// See [`Evt::LspMessageRecv`].
    LspMessageRecv { json: Seq<char> },
}

impl View for Evt {
    type V = EvtView;

    open spec fn view(&self) -> EvtView {
        match self {
            Evt::Ready => EvtView::Ready,
            Evt::DocChanged { doc } => EvtView::DocChanged { doc: doc@ },
            Evt::LspMessageRecv { json } => EvtView::LspMessageRecv { json: json@ },
        }
    }
}

} // verus!
