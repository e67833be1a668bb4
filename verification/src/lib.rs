//! Verified core of a CodeMirror 6 editor component: the typed command and
//! event protocol exchanged with the editor's glue script, theme and feature
//! configuration, the editor session's synchronisation decisions, the LSP
//! message plumbing with two in-page mock language servers, and the rules for
//! vendoring CodeMirror from esm.sh.

pub mod cmd;
pub mod code_mirror;
pub mod editor_features;
pub mod evt;
pub mod language;
pub mod lsp;
pub mod mock_lsp_server;
pub mod mock_lsp_server_async;
pub mod rpc;
pub mod text;
pub mod theme;
pub mod theme_color;
pub mod theme_colors;
pub mod vendor;

pub use crate::{
    cmd::Cmd,
    code_mirror::{EditorConfig, EditorSession},
    editor_features::EditorFeatures,
    evt::Evt,
    language::Language,
    lsp::{
        lsp_message::LspMessage, lsp_pusher::LspPusher, lsp_server::LspServer,
        lsp_server_async::LspServerAsync,
    },
    theme::Theme,
    theme_color::ThemeColor,
    theme_colors::ThemeColors,
};
