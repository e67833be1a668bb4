//! A stand-in language server that returns canned JSON-RPC responses.

use vstd::prelude::*;
use vstd::string::StringExecFns;

use crate::lsp::lsp_message::LspMessage;
use crate::lsp::lsp_server::LspServer;
use crate::rpc::{
    normalized_or_same, opt_str_is, rpc_request_of, request_read, response_build, response_text,
    RpcId, RpcIdView,
};
use crate::text::string_views;

verus! {

/// The `result` the mock server answers a request of `method` with: its
/// capabilities and name for `initialize`, a canned hover for
/// `textDocument/hover`, `null` otherwise.
pub open spec fn sync_result(method: Option<Seq<char>>) -> Seq<char> {
    if method == Some("initialize"@) {
        "{\"capabilities\":{\"textDocumentSync\":1,\"hoverProvider\":true},\"serverInfo\":{\"name\":\"mock-lsp\",\"version\":\"0.1.0\"}}"@
    } else if method == Some("textDocument/hover"@) {
        "{\"contents\":{\"kind\":\"markdown\",\"value\":\"**mock hover** -- response from the in-page LSP\"}}"@
    } else {
        "null"@
    }
}

/// The reply the mock server sends to the message `json`: only requests
/// (which carry a non-null `id`) get a response; notifications do not.
pub open spec fn sync_reply(json: Seq<char>) -> Option<Seq<char>> {
    let request = rpc_request_of(json);
    match request.id {
        RpcIdView::Json(id) => Some(normalized_or_same(response_text(id, sync_result(request.method)))),
        _ => None,
    }
}

/// A stand-in language server that returns canned JSON-RPC responses.
///
/// It demonstrates the LSP transport plumbing end-to-end without a real
/// language server: requests with an `id` receive a response, while
/// notifications are logged and acknowledged with no reply.
#[derive(Clone, PartialEq, Eq)]
pub struct MockLspServer {
    /// Log of messages received (`-->`) and sent (`<--`), newest last.
    pub log: Vec<String>,
}

impl Default for MockLspServer {
    fn default() -> (server: Self)
        ensures
            server.log@.len() == 0,
    {
        MockLspServer { log: Vec::new() }
    }
}

/// `prefix` followed by `text`, as an owned string.
fn prefixed(prefix: &str, text: &str) -> (s: String)
    ensures
        s@ == prefix@ + text@,
{
    String::from_str(prefix).concat(text)
}

impl LspServer for MockLspServer {
    fn lsp_message_handle(&mut self, message: LspMessage) -> (replies: Vec<LspMessage>)
        ensures
            ({
                let received = "--> "@ + message@;
                match sync_reply(message@) {
                    Some(reply) => {
                        &&& replies@.len() == 1
                        &&& replies@[0]@ == reply
                        &&& string_views(final(self).log@) == string_views(old(self).log@).push(
                            received,
                        ).push("<-- "@ + reply)
                    },
                    None => {
                        &&& replies@.len() == 0
                        &&& string_views(final(self).log@) == string_views(old(self).log@).push(
                            received,
                        )
                    },
                }
            }),
    {
        let ghost log0 = string_views(self.log@);
        self.log.push(prefixed("--> ", message.json()));
        assert(string_views(self.log@) =~= log0.push("--> "@ + message@));
        let request = request_read(message.json());
        let id = match &request.id {
            RpcId::Json(id) => id,
            _ => {
                return Vec::new();
            },
        };
        let result = if opt_str_is(&request.method, "initialize") {
            "{\"capabilities\":{\"textDocumentSync\":1,\"hoverProvider\":true},\"serverInfo\":{\"name\":\"mock-lsp\",\"version\":\"0.1.0\"}}"
        } else if opt_str_is(&request.method, "textDocument/hover") {
            "{\"contents\":{\"kind\":\"markdown\",\"value\":\"**mock hover** -- response from the in-page LSP\"}}"
        } else {
            "null"
        };
        let response = response_build(id.as_str(), result);
        let ghost log1 = string_views(self.log@);
        self.log.push(prefixed("<-- ", response.as_str()));
        assert(string_views(self.log@) =~= log1.push("<-- "@ + response@));
        let mut replies: Vec<LspMessage> = Vec::new();
        replies.push(LspMessage::new(response.as_str()));
        replies
    }
}

} // verus!
