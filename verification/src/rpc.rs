//! What the in-page mock language servers read from a JSON-RPC message, and
//! the normalised JSON text they send back. Parsing and printing JSON is
//! `serde_json`'s; the rules about what to answer are the servers' own.

use vstd::prelude::*;

use vstd::string::StringExecFns;

use crate::text::str_eq;
use crate::text::opt_view;

verus! {

/// The `id` member of a JSON-RPC message.
pub enum RpcId {
    /// No `id` member: a notification.
    Absent,
    /// An explicit `null` id.
    Null,
    /// Any other id, as its JSON text, e.g. `1` or `"abc"`.
    Json(String),
}

/// What a mock language server reads from a JSON-RPC message.
pub struct RpcRequest {
    /// The `method` member, when it is a string.
    pub method: Option<String>,
    /// The `id` member.
    pub id: RpcId,
    /// The `params.textDocument.uri` member, when it is a string, as its JSON
    /// text (the quoted, escaped string).
    pub uri_json: Option<String>,
}

/// The content of an [`RpcId`].
pub enum RpcIdView {
    Absent,
    Null,
    Json(Seq<char>),
}

/// The content of an [`RpcRequest`].
pub struct RpcRequestView {
    pub method: Option<Seq<char>>,
    pub id: RpcIdView,
    pub uri_json: Option<Seq<char>>,
}

impl View for RpcRequest {
    type V = RpcRequestView;

    open spec fn view(&self) -> RpcRequestView {
        RpcRequestView {
            method: opt_view(self.method),
            id: match self.id {
                RpcId::Absent => RpcIdView::Absent,
                RpcId::Null => RpcIdView::Null,
                RpcId::Json(t) => RpcIdView::Json(t@),
            },
            uri_json: opt_view(self.uri_json),
        }
    }
}

/// What `serde_json` yields for the member `key` of the JSON text `json`: the
/// text it prints for that member's value, or `None` when `json` is not an
/// object with that member, or when `serde_json` does not parse it (it is not
/// valid JSON, or nests deeper than `serde_json`'s recursion limit).
pub uninterp spec fn json_member(json: Seq<char>, key: Seq<char>) -> Option<Seq<char>>;

/// Parses `json` with `serde_json::from_str` into a `serde_json::Value`,
/// looks up the member `key` with `Value::get`, and prints the member back
/// with `Value::to_string`. The result is named, not described: it is
/// [`json_member`] of the text and the key.
#[verifier::external_body]
fn json_member_get(json: &str, key: &str) -> (member: Option<String>)
    ensures
        opt_view(member) == json_member(json@, key@),
{
    let value: serde_json::Value = serde_json::from_str(json).ok()?;
    value.get(key).map(|member| member.to_string())
}

/// What `serde_json` yields for the JSON text `json` read as a string: the
/// characters of the string it spells (quotes removed, escapes decoded), or
/// `None` when it spells another kind of value or `serde_json` does not
/// parse it.
pub uninterp spec fn json_string_content(json: Seq<char>) -> Option<Seq<char>>;

/// Parses `json` with `serde_json::from_str` into a `serde_json::Value` and
/// takes its string with `Value::as_str`. The result is named, not
/// described: it is [`json_string_content`] of the text.
#[verifier::external_body]
fn json_str_get(json: &str) -> (content: Option<String>)
    ensures
        opt_view(content) == json_string_content(json@),
{
    let value: serde_json::Value = serde_json::from_str(json).ok()?;
    value.as_str().map(|content| content.to_string())
}

/// The member at `keys`, one key after another, of the JSON text `json`.
pub open spec fn json_path(json: Seq<char>, keys: Seq<Seq<char>>) -> Option<Seq<char>>
    decreases keys.len(),
{
    if keys.len() == 0 {
        Some(json)
    } else {
        match json_member(json, keys[0]) {
            Some(member) => json_path(member, keys.skip(1)),
            None => None,
        }
    }
}

/// What a mock language server reads from the JSON-RPC message `json`: the
/// `method` member when it is a string; the `id` member, absent, `null` or
/// as its JSON text; and the `params.textDocument.uri` member as its JSON
/// text when it is a string. A text that is not valid JSON reads as a message
/// with no members.
pub open spec fn rpc_request_of(json: Seq<char>) -> RpcRequestView {
    RpcRequestView {
        method: match json_member(json, "method"@) {
            Some(m) => json_string_content(m),
            None => None,
        },
        id: match json_member(json, "id"@) {
            None => RpcIdView::Absent,
            Some(t) => if t == "null"@ {
                RpcIdView::Null
            } else {
                RpcIdView::Json(t)
            },
        },
        uri_json: match json_path(json, seq!["params"@, "textDocument"@, "uri"@]) {
            Some(u) => if json_string_content(u) is Some {
                Some(u)
            } else {
                None
            },
            None => None,
        },
    }
}

/// The text `serde_json` prints for the JSON value that `text` spells, or
/// `None` when `serde_json` does not parse it (it is not valid JSON, or nests
/// deeper than `serde_json`'s recursion limit).
pub uninterp spec fn json_normalized(text: Seq<char>) -> Option<Seq<char>>;

/// Parses `text` with `serde_json::from_str` into a `serde_json::Value` and
/// prints it back with `Value::to_string`, so it reads exactly as a value
/// built by `serde_json` would. The result is named, not described: it is
/// [`json_normalized`] of the text.
#[verifier::external_body]
pub(crate) fn json_normalize(text: &str) -> (normal: Option<String>)
    ensures
        opt_view(normal) == json_normalized(text@),
{
    match serde_json::from_str::<serde_json::Value>(text) {
        Ok(value) => Some(value.to_string()),
        Err(_) => None,
    }
}

/// Reads the members a mock server needs from the JSON-RPC message `json`;
/// a text that is not valid JSON reads as a message with no members.
pub fn request_read(json: &str) -> (request: RpcRequest)
    ensures
        request@ == rpc_request_of(json@),
{
    let method = match json_member_get(json, "method") {
        Some(m) => json_str_get(m.as_str()),
        None => None,
    };
    let id = match json_member_get(json, "id") {
        None => RpcId::Absent,
        Some(t) => if str_eq(t.as_str(), "null") {
            RpcId::Null
        } else {
            RpcId::Json(t)
        },
    };
    let uri = match json_member_get(json, "params") {
        Some(params) => match json_member_get(params.as_str(), "textDocument") {
            Some(document) => json_member_get(document.as_str(), "uri"),
            None => None,
        },
        None => None,
    };
    proof {
        let keys = seq!["params"@, "textDocument"@, "uri"@];
        assert(keys.skip(1) =~= seq!["textDocument"@, "uri"@]);
        assert(keys.skip(1).skip(1) =~= seq!["uri"@]);
        assert(keys.skip(1).skip(1).skip(1) =~= Seq::<Seq<char>>::empty());
        assert(opt_view(uri) == json_path(json@, keys)) by {
            reveal_with_fuel(json_path, 4);
        }
    }
    let uri_json = match uri {
        Some(u) => if json_str_get(u.as_str()).is_some() {
            Some(u)
        } else {
            None
        },
        None => None,
    };
    RpcRequest { method, id, uri_json }
}

/// `text` as `serde_json` prints the value it spells, or `text` itself when
/// it is not valid JSON.
pub open spec fn normalized_or_same(text: Seq<char>) -> Seq<char> {
    match json_normalized(text) {
        Some(t) => t,
        None => text,
    }
}

/// `text` as `serde_json` prints the value it spells, or `text` itself when
/// it is not valid JSON.
pub fn normalize(text: String) -> (normal: String)
    ensures
        normal@ == normalized_or_same(text@),
{
    match json_normalize(text.as_str()) {
        Some(normal) => normal,
        None => text,
    }
}

/// The JSON-RPC response text carrying `result` for the request `id`.
pub open spec fn response_text(id_json: Seq<char>, result_json: Seq<char>) -> Seq<char> {
    "{\"jsonrpc\":\"2.0\",\"id\":"@ + id_json + ",\"result\":"@ + result_json + "}"@
}

/// Builds the JSON-RPC response text carrying `result_json` for the request
/// `id_json`, as `serde_json` prints it.
pub fn response_build(id_json: &str, result_json: &str) -> (response: String)
    ensures
        response@ == normalized_or_same(response_text(id_json@, result_json@)),
{
    let mut text = String::from_str("{\"jsonrpc\":\"2.0\",\"id\":");
    text.append(id_json);
    text.append(",\"result\":");
    text.append(result_json);
    text.append("}");
    normalize(text)
}

/// Whether the optional string `s` holds the characters of `text`.
pub fn opt_str_is(s: &Option<String>, text: &str) -> (b: bool)
    ensures
        b == (opt_view(*s) == Some(text@)),
{
    match s {
        Some(s) => str_eq(s.as_str(), text),
        None => false,
    }
}

} // verus!
