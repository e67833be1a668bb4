use vstd::prelude::*;

use crate::lsp::lsp_message::LspMessage;

verus! {

/// A language server that runs in-page (typically compiled to WASM).
///
/// This is the extension point for connecting a real language server to the
/// editor. The transport is message-based, so the seam is simply "feed one
/// message in, get zero or more messages out".
pub trait LspServer {
    /// Handles a JSON-RPC `message` sent by the editor's LSP client to the
    /// server, returning any JSON-RPC messages the server replies with.
    ///
    /// For example, given an `initialize` request the server returns a single
    /// message containing the `InitializeResult`; a notification with no `id`
    /// may return an empty `Vec`.
    fn lsp_message_handle(&mut self, message: LspMessage) -> Vec<LspMessage>;
}

} // verus!
