use vstd::prelude::*;
use vstd::string::StringExecFns;

verus! {

/// A single JSON-RPC message exchanged between the editor's LSP client and a
/// language server.
///
/// The message is the serialized JSON-RPC object as a string, without
/// `Content-Length` framing: the transport is message-based, so each
/// `LspMessage` is exactly one JSON-RPC object, e.g.
/// `{"jsonrpc":"2.0","id":1,"method":"initialize","params":{}}`.
#[derive(Clone, Debug, PartialEq, Eq)]
pub struct LspMessage {
    json: String,
}

impl View for LspMessage {
    type V = Seq<char>;

    /// The JSON-RPC text of the message.
    closed spec fn view(&self) -> Seq<char> {
        self.json@
    }
}

impl LspMessage {
    /// Returns a new `LspMessage` wrapping the given JSON-RPC `json` string.
    pub fn new(json: &str) -> (message: Self)
        ensures
            message@ == json@,
    {
        LspMessage { json: String::from_str(json) }
    }

    /// Returns the JSON-RPC message as a string slice.
    pub fn json(&self) -> (json: &str)
        ensures
            json@ == self@,
    {
        self.json.as_str()
    }

    /// Consumes the message, returning the owned JSON-RPC string.
    pub fn json_into(self) -> (json: String)
        ensures
            json@ == self@,
    {
        self.json
    }
}

} // verus!
