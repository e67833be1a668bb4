//! A stand-in async language server that pushes its messages back.

use vstd::prelude::*;
use vstd::std_specs::cmp::PartialEqSpecImpl;
use vstd::string::StringExecFns;

use crate::lsp::lsp_message::LspMessage;
use crate::lsp::lsp_pusher::LspPusher;
use crate::lsp::lsp_server_async::LspServerAsync;
use crate::rpc::{
    normalize, normalized_or_same, opt_str_is, rpc_request_of, request_read, response_build,
    response_text, RpcId, RpcIdView,
};
use crate::text::string_views;

verus! {

/// The `result` the async mock server answers a request of `method` with.
pub open spec fn async_result(method: Option<Seq<char>>) -> Seq<char> {
    if method == Some("initialize"@) {
        "{\"capabilities\":{\"textDocumentSync\":1,\"hoverProvider\":true},\"serverInfo\":{\"name\":\"mock-lsp-async\",\"version\":\"0.1.0\"}}"@
    } else if method == Some("textDocument/hover"@) {
        "{\"contents\":{\"kind\":\"markdown\",\"value\":\"**mock hover** -- pushed by the async LSP server\"}}"@
    } else {
        "null"@
    }
}

/// The canned `publishDiagnostics` notification text for the document whose
/// URI has the JSON text `uri_json`.
pub open spec fn diagnostics_text(uri_json: Seq<char>) -> Seq<char> {
    "{\"jsonrpc\":\"2.0\",\"method\":\"textDocument/publishDiagnostics\",\"params\":{\"uri\":"@
        + uri_json
        + ",\"diagnostics\":[{\"range\":{\"start\":{\"line\":0,\"character\":0},\"end\":{\"line\":0,\"character\":2}},\"severity\":2,\"source\":\"mock-lsp-async\",\"message\":\"mock diagnostic -- pushed by the async LSP server\"}]}}"@
}

/// The messages the async mock server pushes for the message `json`, in
/// order: a response to a request (a message with a non-null `id`), then
/// diagnostics when the message opens or changes a document.
pub open spec fn async_pushes(json: Seq<char>) -> Seq<Seq<char>> {
    let request = rpc_request_of(json);
    let response = match request.id {
        RpcIdView::Json(id) => seq![
            normalized_or_same(response_text(id, async_result(request.method))),
        ],
        _ => Seq::empty(),
    };
    let opens_or_changes = request.method == Some("textDocument/didOpen"@) || request.method
        == Some("textDocument/didChange"@);
    let diagnostics = match request.uri_json {
        Some(uri) => if opens_or_changes {
            seq![normalized_or_same(diagnostics_text(uri))]
        } else {
            Seq::empty()
        },
        None => Seq::empty(),
    };
    response + diagnostics
}

/// The log lines for `pushes`: each marked as sent.
pub open spec fn sent_lines(pushes: Seq<Seq<char>>) -> Seq<Seq<char>> {
    pushes.map_values(|p: Seq<char>| "<-- "@ + p)
}

/// A stand-in async language server that pushes its messages back.
///
/// It holds an [`LspPusher`] and pushes everything onto it: request
/// responses, and unprompted `textDocument/publishDiagnostics` notifications
/// it emits when a document opens or changes.
#[derive(Clone)]
pub struct MockLspServerAsync {
    /// Channel to push messages to the editor; set once via `lsp_pusher_set`.
    pusher: Option<LspPusher>,
    /// Log of messages received (`-->`) and pushed (`<--`), newest last.
    pub log: Vec<String>,
}

impl Default for MockLspServerAsync {
    fn default() -> (server: Self)
        ensures
            server.log_lines().len() == 0,
            !server.pusher_connected(),
    {
        MockLspServerAsync { pusher: None, log: Vec::new() }
    }
}

/// Whether two logs hold the same lines.
fn logs_eq(a: &Vec<String>, b: &Vec<String>) -> (same: bool)
    ensures
        same == (string_views(a@) == string_views(b@)),
{
    if a.len() != b.len() {
        assert(string_views(a@).len() != string_views(b@).len());
        return false;
    }
    let mut i: usize = 0;
    while i < a.len()
        invariant
            a@.len() == b@.len(),
            i <= a@.len(),
            forall|k: int| 0 <= k < i ==> a@[k]@ == b@[k]@,
        decreases a.len() - i,
    {
        if a[i] != b[i] {
            assert(string_views(a@)[i as int] != string_views(b@)[i as int]);
            return false;
        }
        i = i + 1;
    }
    assert(string_views(a@) =~= string_views(b@));
    true
}

impl PartialEq for MockLspServerAsync {
    fn eq(&self, other: &Self) -> (same: bool) {
        // The pusher has no meaningful equality; the log drives UI updates.
        logs_eq(&self.log, &other.log)
    }
}

impl PartialEqSpecImpl for MockLspServerAsync {
    open spec fn obeys_eq_spec() -> bool {
        true
    }

    open spec fn eq_spec(&self, other: &Self) -> bool {
        self.log_lines() == other.log_lines()
    }
}

impl MockLspServerAsync {
    /// The lines of the log.
    pub closed spec fn log_lines(&self) -> Seq<Seq<char>> {
        string_views(self.log@)
    }

    /// Whether the server holds a pusher.
    pub closed spec fn pusher_connected(&self) -> bool {
        self.pusher is Some
    }

    /// Pushes `message` to the editor and logs it as sent, if the pusher is
    /// connected; without a pusher nothing is sent and the log is unchanged.
    fn lsp_message_push(&mut self, message: LspMessage)
        ensures
            old(self).pusher_connected() ==> final(self).log_lines() == old(self).log_lines().push(
                "<-- "@ + message@,
            ),
            !old(self).pusher_connected() ==> final(self).log_lines() == old(self).log_lines(),
            final(self).pusher_connected() == old(self).pusher_connected(),
    {
        if let Some(pusher) = self.pusher.as_ref() {
            let ghost log0 = string_views(self.log@);
            let line = String::from_str("<-- ").concat(message.json());
            pusher.lsp_message_push(message);
            self.log.push(line);
            assert(string_views(self.log@) =~= log0.push("<-- "@ + message@));
        }
    }

    /// The canned `publishDiagnostics` notification for the document whose
    /// URI has the JSON text `uri_json`: a real server would compute these;
    /// here it always flags the first two characters of the first line.
    fn lsp_diagnostics_publish(uri_json: &str) -> (notification: LspMessage)
        ensures
            notification@ == normalized_or_same(diagnostics_text(uri_json@)),
    {
        let mut text = String::from_str(
            "{\"jsonrpc\":\"2.0\",\"method\":\"textDocument/publishDiagnostics\",\"params\":{\"uri\":",
        );
        text.append(uri_json);
        text.append(
            ",\"diagnostics\":[{\"range\":{\"start\":{\"line\":0,\"character\":0},\"end\":{\"line\":0,\"character\":2}},\"severity\":2,\"source\":\"mock-lsp-async\",\"message\":\"mock diagnostic -- pushed by the async LSP server\"}]}}",
        );
        LspMessage::new(normalize(text).as_str())
    }
}

impl LspServerAsync for MockLspServerAsync {
    fn lsp_pusher_set(&mut self, pusher: LspPusher)
        ensures
            final(self).pusher_connected(),
            final(self).log_lines() == old(self).log_lines(),
    {
        self.pusher = Some(pusher);
    }

    fn lsp_message_handle(&mut self, message: LspMessage)
        ensures
            final(self).log_lines() == old(self).log_lines().push("--> "@ + message@) + if old(
                self,
            ).pusher_connected() {
                sent_lines(async_pushes(message@))
            } else {
                Seq::empty()
            },
            final(self).pusher_connected() == old(self).pusher_connected(),
    {
        let ghost log0 = string_views(self.log@).push("--> "@ + message@);
        self.log.push(String::from_str("--> ").concat(message.json()));
        assert(string_views(self.log@) =~= log0);
        let request = request_read(message.json());
        let ghost connected = self.pusher_connected();
        let ghost pushes = if connected {
            async_pushes(message@)
        } else {
            Seq::empty()
        };
        let ghost response_part: Seq<Seq<char>> = match request@.id {
            RpcIdView::Json(id) => if connected {
                seq![normalized_or_same(response_text(id, async_result(request@.method)))]
            } else {
                Seq::empty()
            },
            _ => Seq::empty(),
        };
        // Requests (which carry an `id`) get a response pushed back.
        if let RpcId::Json(id) = &request.id {
            let result = if opt_str_is(&request.method, "initialize") {
                "{\"capabilities\":{\"textDocumentSync\":1,\"hoverProvider\":true},\"serverInfo\":{\"name\":\"mock-lsp-async\",\"version\":\"0.1.0\"}}"
            } else if opt_str_is(&request.method, "textDocument/hover") {
                "{\"contents\":{\"kind\":\"markdown\",\"value\":\"**mock hover** -- pushed by the async LSP server\"}}"
            } else {
                "null"
            };
            let response = response_build(id.as_str(), result);
            self.lsp_message_push(LspMessage::new(response.as_str()));
        }
        assert(string_views(self.log@) =~= log0 + sent_lines(response_part));
        // When the document opens or changes, push diagnostics out-of-band.
        if opt_str_is(&request.method, "textDocument/didOpen") || opt_str_is(
            &request.method,
            "textDocument/didChange",
        ) {
            if let Some(uri_json) = &request.uri_json {
                let diagnostics = Self::lsp_diagnostics_publish(uri_json.as_str());
                self.lsp_message_push(diagnostics);
            }
        }
        assert(string_views(self.log@) =~= log0 + sent_lines(pushes));
    }
}

} // verus!
