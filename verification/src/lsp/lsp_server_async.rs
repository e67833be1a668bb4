use vstd::prelude::*;

use crate::lsp::{lsp_message::LspMessage, lsp_pusher::LspPusher};

verus! {

/// An async / worker-capable language server.
///
/// Where the synchronous [`LspServer`](crate::lsp::lsp_server::LspServer)
/// returns its replies, an `LspServerAsync` pushes them: it is handed an
/// [`LspPusher`] once via [`lsp_pusher_set`](LspServerAsync::lsp_pusher_set),
/// then for each message from the editor it pushes any resulting messages --
/// replies and unprompted notifications such as
/// `textDocument/publishDiagnostics` alike -- onto the pusher whenever they
/// are ready.
pub trait LspServerAsync {
    /// Hands the server an [`LspPusher`] to emit messages to the editor.
    ///
    /// Called once, before any `lsp_message_handle` call.
    fn lsp_pusher_set(&mut self, pusher: LspPusher);

    /// Handles a JSON-RPC `message` sent by the editor's LSP client. Replies,
    /// if any, are pushed via the pusher rather than returned.
    fn lsp_message_handle(&mut self, message: LspMessage);
}

} // verus!
