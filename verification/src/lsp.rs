//! Plumbing to connect the editor to a language server.

pub mod lsp_message;
pub mod lsp_pusher;
pub mod lsp_server;
pub mod lsp_server_async;
