//! The messages of the two protocols and the records kept in the shared
//! state.

use crate::json::{
    items_view, lemma_items_view_push, opt_json_view, Json, JsonView,
};
use crate::text::opt_text;
use vstd::prelude::*;
use vstd::string::*;

verus! {

/// The protocol revision written into every JSON-RPC message.
pub const JSONRPC_VERSION: &'static str = "2.0";

// ─── JSON-RPC 2.0 ────────────────────────────────────────────

/// An incoming JSON-RPC message. Without an `id` it is a notification.
#[derive(Debug, PartialEq)]
pub struct JsonRpcMessage {
    pub jsonrpc: String,
    pub id: Option<Json>,
    pub method: String,
    pub params: Json,
}

pub struct JsonRpcMessageView {
    pub jsonrpc: Seq<char>,
    pub id: Option<JsonView>,
    pub method: Seq<char>,
    pub params: JsonView,
}

impl View for JsonRpcMessage {
    type V = JsonRpcMessageView;

    open spec fn view(&self) -> JsonRpcMessageView {
        JsonRpcMessageView {
            jsonrpc: self.jsonrpc@,
            id: opt_json_view(self.id),
            method: self.method@,
            params: self.params@,
        }
    }
}

pub const MSG_NOT_AN_OBJECT: &'static str = "invalid type: expected a JSON-RPC message object";

pub const MSG_MISSING_JSONRPC: &'static str = "missing field `jsonrpc`";

pub const MSG_BAD_JSONRPC: &'static str = "invalid type: expected a string for `jsonrpc`";

pub const MSG_MISSING_METHOD: &'static str = "missing field `method`";

pub const MSG_BAD_METHOD: &'static str = "invalid type: expected a string for `method`";

/// The string that a message must carry under `key`, or the reason why it
/// does not.
pub open spec fn required_text(
    doc: JsonView,
    key: Seq<char>,
    missing: Seq<char>,
    bad: Seq<char>,
) -> Result<Seq<char>, Seq<char>> {
    match doc.member(key) {
        None => Err(missing),
        Some(v) => match v.as_str() {
            Some(s) => Ok(s),
            None => Err(bad),
        },
    }
}

/// The id of a message: absent where the member is missing or `null`.
pub open spec fn message_id(doc: JsonView) -> Option<JsonView> {
    match doc.member("id"@) {
        Some(v) => if v is Null {
            None
        } else {
            Some(v)
        },
        None => None,
    }
}

/// The parameters of a message: `null` where the member is missing.
pub open spec fn message_params(doc: JsonView) -> JsonView {
    match doc.member("params"@) {
        Some(v) => v,
        None => JsonView::Null,
    }
}

/// The message that a JSON document holds, or the reason why it holds
/// none. A message is an object with the strings `jsonrpc` and `method`;
/// `id` and `params` are optional.
pub open spec fn message_of(doc: JsonView) -> Result<JsonRpcMessageView, Seq<char>> {
    if !(doc is Object) {
        Err(MSG_NOT_AN_OBJECT@)
    } else {
        match required_text(doc, "jsonrpc"@, MSG_MISSING_JSONRPC@, MSG_BAD_JSONRPC@) {
            Err(e) => Err(e),
            Ok(jsonrpc) => match required_text(
                doc,
                "method"@,
                MSG_MISSING_METHOD@,
                MSG_BAD_METHOD@,
            ) {
                Err(e) => Err(e),
                Ok(method) => Ok(
                    JsonRpcMessageView {
                        jsonrpc,
                        id: message_id(doc),
                        method,
                        params: message_params(doc),
                    },
                ),
            },
        }
    }
}

/// What reading a message gave, with the message by its value and the
/// error by its characters.
pub open spec fn message_outcome(r: Result<JsonRpcMessage, String>) -> Result<
    JsonRpcMessageView,
    Seq<char>,
> {
    match r {
        Ok(m) => Ok(m@),
        Err(e) => Err(e@),
    }
}

/// The string under `key`, or the reason why there is none.
fn required_member(doc: &Json, key: &str, missing: &str, bad: &str) -> (r: Result<String, String>)
    ensures
        match r {
            Ok(s) => required_text(doc@, key@, missing@, bad@) == Ok::<Seq<char>, Seq<char>>(s@),
            Err(e) => required_text(doc@, key@, missing@, bad@) == Err::<Seq<char>, Seq<char>>(
                e@,
            ),
        },
{
    match doc.get(key) {
        None => Err(String::from_str(missing)),
        Some(v) => match v.as_str() {
            Some(s) => Ok(String::from_str(s)),
            None => Err(String::from_str(bad)),
        },
    }
}

impl JsonRpcMessage {
    /// Reads a message from a JSON document.
    pub fn from_json(doc: &Json) -> (r: Result<JsonRpcMessage, String>)
        ensures
            message_outcome(r) == message_of(doc@),
    {
        if !doc.is_object() {
            return Err(String::from_str(MSG_NOT_AN_OBJECT));
        }
        let jsonrpc = match required_member(doc, "jsonrpc", MSG_MISSING_JSONRPC, MSG_BAD_JSONRPC) {
            Ok(s) => s,
            Err(e) => {
                return Err(e);
            },
        };
        let method = match required_member(doc, "method", MSG_MISSING_METHOD, MSG_BAD_METHOD) {
            Ok(s) => s,
            Err(e) => {
                return Err(e);
            },
        };
        let id = match doc.get("id") {
            Some(v) => if v.is_null() {
                None
            } else {
                Some(v.duplicate())
            },
            None => None,
        };
        let params = match doc.get("params") {
            Some(v) => v.duplicate(),
            None => Json::Null,
        };
        Ok(JsonRpcMessage { jsonrpc, id, method, params })
    }
}

/// The error member of a JSON-RPC response.
#[derive(Debug, PartialEq)]
pub struct JsonRpcError {
    pub code: i64,
    pub message: String,
    pub data: Option<Json>,
}

pub struct JsonRpcErrorView {
    pub code: int,
    pub message: Seq<char>,
    pub data: Option<JsonView>,
}

impl View for JsonRpcError {
    type V = JsonRpcErrorView;

    open spec fn view(&self) -> JsonRpcErrorView {
        JsonRpcErrorView {
            code: self.code as int,
            message: self.message@,
            data: opt_json_view(self.data),
        }
    }
}

/// An outgoing JSON-RPC response: either a result or an error.
#[derive(Debug, PartialEq)]
pub struct JsonRpcResponse {
    pub jsonrpc: String,
    pub id: Json,
    pub result: Option<Json>,
    pub error: Option<JsonRpcError>,
}

pub struct JsonRpcResponseView {
    pub jsonrpc: Seq<char>,
    pub id: JsonView,
    pub result: Option<JsonView>,
    pub error: Option<JsonRpcErrorView>,
}

impl View for JsonRpcResponse {
    type V = JsonRpcResponseView;

    open spec fn view(&self) -> JsonRpcResponseView {
        JsonRpcResponseView {
            jsonrpc: self.jsonrpc@,
            id: self.id@,
            result: opt_json_view(self.result),
            error: match self.error {
                Some(e) => Some(e@),
                None => None,
            },
        }
    }
}

/// An outgoing JSON-RPC notification.
#[derive(Debug, PartialEq)]
pub struct JsonRpcNotification {
    pub jsonrpc: String,
    pub method: String,
    pub params: Option<Json>,
}

/// The successful response to request `id`.
pub open spec fn success_response(id: JsonView, result: JsonView) -> JsonRpcResponseView {
    JsonRpcResponseView { jsonrpc: JSONRPC_VERSION@, id, result: Some(result), error: None }
}

/// The error response to request `id`.
pub open spec fn error_response(id: JsonView, code: int, message: Seq<char>) -> JsonRpcResponseView {
    JsonRpcResponseView {
        jsonrpc: JSONRPC_VERSION@,
        id,
        result: None,
        error: Some(JsonRpcErrorView { code, message, data: None }),
    }
}

/// The JSON object of an error member: `code`, `message`, and `data` where
/// there is one.
pub open spec fn error_json(e: JsonRpcErrorView) -> JsonView {
    let head = JsonView::empty_object().with(
        "code"@,
        JsonView::Number(crate::json::int_number(e.code)),
    ).with("message"@, JsonView::Str(e.message));
    match e.data {
        Some(d) => head.with("data"@, d),
        None => head,
    }
}

/// The JSON object of a response: `jsonrpc`, `id`, then `result` and
/// `error`, each only where present.
pub open spec fn response_json(r: JsonRpcResponseView) -> JsonView {
    let head = JsonView::empty_object().with("jsonrpc"@, JsonView::Str(r.jsonrpc)).with(
        "id"@,
        r.id,
    );
    let with_result = match r.result {
        Some(v) => head.with("result"@, v),
        None => head,
    };
    match r.error {
        Some(e) => with_result.with("error"@, error_json(e)),
        None => with_result,
    }
}

impl JsonRpcError {
    /// The error as a JSON object.
    pub fn to_json(&self) -> (r: Json)
        ensures
            r@ == error_json(self@),
    {
        let head = Json::empty_object().with("code", Json::integer(self.code)).with(
            "message",
            Json::Str(self.message.clone()),
        );
        match &self.data {
            Some(d) => head.with("data", d.duplicate()),
            None => head,
        }
    }
}

impl JsonRpcResponse {
    /// The response that carries `result` for request `id`.
    pub fn success(id: Json, result: Json) -> (r: JsonRpcResponse)
        ensures
            r@ == success_response(id@, result@),
    {
        JsonRpcResponse {
            jsonrpc: String::from_str(JSONRPC_VERSION),
            id,
            result: Some(result),
            error: None,
        }
    }

    /// The response that reports a protocol error for request `id`.
    pub fn error(id: Json, code: i64, message: &str) -> (r: JsonRpcResponse)
        ensures
            r@ == error_response(id@, code as int, message@),
    {
        JsonRpcResponse {
            jsonrpc: String::from_str(JSONRPC_VERSION),
            id,
            result: None,
            error: Some(JsonRpcError { code, message: String::from_str(message), data: None }),
        }
    }

    /// The response as a JSON object.
    pub fn to_json(&self) -> (r: Json)
        ensures
            r@ == response_json(self@),
    {
        let head = Json::empty_object().with("jsonrpc", Json::Str(self.jsonrpc.clone())).with(
            "id",
            self.id.duplicate(),
        );
        let with_result = match &self.result {
            Some(v) => head.with("result", v.duplicate()),
            None => head,
        };
        match &self.error {
            Some(e) => with_result.with("error", e.to_json()),
            None => with_result,
        }
    }

    /// The response as one line of compact JSON, without the line break.
    pub fn to_line(&self) -> (r: String)
        ensures
            r@ == crate::json::compact_text(response_json(self@)),
    {
        self.to_json().to_text()
    }
}

// ─── MCP Types ────────────────────────────────────────────────

/// One tool as it is advertised by `tools/list`.
#[derive(Debug, PartialEq)]
pub struct McpToolDef {
    pub name: String,
    pub description: Option<String>,
    pub input_schema: Json,
}

pub struct McpToolDefView {
    pub name: Seq<char>,
    pub description: Option<Seq<char>>,
    pub input_schema: JsonView,
}

impl View for McpToolDef {
    type V = McpToolDefView;

    open spec fn view(&self) -> McpToolDefView {
        McpToolDefView {
            name: self.name@,
            description: opt_text(self.description),
            input_schema: self.input_schema@,
        }
    }
}

/// The JSON object of a tool: `name`, `description` where there is one,
/// and `inputSchema`.
pub open spec fn tool_def_json(t: McpToolDefView) -> JsonView {
    let head = JsonView::empty_object().with("name"@, JsonView::Str(t.name));
    let with_description = match t.description {
        Some(d) => head.with("description"@, JsonView::Str(d)),
        None => head,
    };
    with_description.with("inputSchema"@, t.input_schema)
}

impl McpToolDef {
    /// The tool as a JSON object.
    pub fn to_json(&self) -> (r: Json)
        ensures
            r@ == tool_def_json(self@),
    {
        let head = Json::empty_object().with("name", Json::Str(self.name.clone()));
        let with_description = match &self.description {
            Some(d) => head.with("description", Json::Str(d.clone())),
            None => head,
        };
        with_description.with("inputSchema", self.input_schema.duplicate())
    }
}

/// One piece of content in a tool result.
#[derive(Debug, Clone, PartialEq, Eq)]
pub enum McpContent {
    Text { text: String },
    Image { data: String, mime_type: String },
}

pub enum McpContentView {
    Text { text: Seq<char> },
    Image { data: Seq<char>, mime_type: Seq<char> },
}

impl View for McpContent {
    type V = McpContentView;

    open spec fn view(&self) -> McpContentView {
        match *self {
            McpContent::Text { text } => McpContentView::Text { text: text@ },
            McpContent::Image { data, mime_type } => McpContentView::Image {
                data: data@,
                mime_type: mime_type@,
            },
        }
    }
}

/// The JSON object of a piece of content, tagged by `type`.
pub open spec fn content_json(c: McpContentView) -> JsonView {
    match c {
        McpContentView::Text { text } => JsonView::empty_object().with(
            "type"@,
            JsonView::Str("text"@),
        ).with("text"@, JsonView::Str(text)),
        McpContentView::Image { data, mime_type } => JsonView::empty_object().with(
            "type"@,
            JsonView::Str("image"@),
        ).with("data"@, JsonView::Str(data)).with("mimeType"@, JsonView::Str(mime_type)),
    }
}

impl McpContent {
    /// The content as a JSON object.
    pub fn to_json(&self) -> (r: Json)
        ensures
            r@ == content_json(self@),
    {
        match self {
            McpContent::Text { text } => {
                Json::empty_object().with("type", Json::string("text")).with(
                    "text",
                    Json::Str(text.clone()),
                )
            },
            McpContent::Image { data, mime_type } => {
                Json::empty_object().with("type", Json::string("image")).with(
                    "data",
                    Json::Str(data.clone()),
                ).with("mimeType", Json::Str(mime_type.clone()))
            },
        }
    }
}

/// What a tool call hands back to the caller.
#[derive(Debug, Clone, PartialEq, Eq)]
pub struct McpToolResult {
    pub content: Vec<McpContent>,
    pub is_error: bool,
}

pub struct McpToolResultView {
    pub content: Seq<McpContentView>,
    pub is_error: bool,
}

impl View for McpToolResult {
    type V = McpToolResultView;

    open spec fn view(&self) -> McpToolResultView {
        McpToolResultView {
            content: self.content@.map_values(|c: McpContent| c@),
            is_error: self.is_error,
        }
    }
}

/// The JSON object of a tool result: `content` and `isError`.
pub open spec fn tool_result_json(r: McpToolResultView) -> JsonView {
    JsonView::empty_object().with(
        "content"@,
        JsonView::Array(r.content.map_values(|c: McpContentView| content_json(c))),
    ).with("isError"@, JsonView::Bool(r.is_error))
}

/// A tool result with one piece of text.
pub open spec fn text_result(text: Seq<char>, is_error: bool) -> McpToolResultView {
    McpToolResultView { content: seq![McpContentView::Text { text }], is_error }
}

impl McpToolResult {
    /// A successful result with one piece of text.
    pub fn text(text: &str) -> (r: McpToolResult)
        ensures
            r@ == text_result(text@, false),
    {
        let mut content: Vec<McpContent> = Vec::new();
        content.push(McpContent::Text { text: String::from_str(text) });
        let out = McpToolResult { content, is_error: false };
        assert(out@.content =~= text_result(text@, false).content);
        out
    }

    /// A failed result with one piece of text.
    pub fn error_text(text: &str) -> (r: McpToolResult)
        ensures
            r@ == text_result(text@, true),
    {
        let mut content: Vec<McpContent> = Vec::new();
        content.push(McpContent::Text { text: String::from_str(text) });
        let out = McpToolResult { content, is_error: true };
        assert(out@.content =~= text_result(text@, true).content);
        out
    }

    /// The result as a JSON object.
    pub fn to_value(&self) -> (r: Json)
        ensures
            r@ == tool_result_json(self@),
    {
        let ghost wanted = self@.content.map_values(|c: McpContentView| content_json(c));
        let mut items: Vec<Json> = Vec::new();
        let mut i: usize = 0;
        while i < self.content.len()
            invariant
                i <= self.content.len(),
                wanted == self@.content.map_values(|c: McpContentView| content_json(c)),
                items_view(items@) == wanted.subrange(0, i as int),
            decreases self.content.len() - i,
        {
            let item = self.content[i].to_json();
            proof {
                lemma_items_view_push(items@, item);
                assert(wanted.subrange(0, i as int).push(item@) =~= wanted.subrange(
                    0,
                    i as int + 1,
                ));
            }
            items.push(item);
            i = i + 1;
        }
        assert(wanted.subrange(0, i as int) =~= wanted);
        Json::empty_object().with("content", Json::array(items)).with(
            "isError",
            Json::Bool(self.is_error),
        )
    }
}

// ─── Bridge Types (server ↔ plugin) ───────────────────────────

/// A tool request on its way to a plugin.
#[derive(Debug, PartialEq)]
pub struct BridgeToolRequest {
    pub request_id: String,
    pub tool_name: String,
    pub arguments: Json,
}

pub struct BridgeToolRequestView {
    pub request_id: Seq<char>,
    pub tool_name: Seq<char>,
    pub arguments: JsonView,
}

impl View for BridgeToolRequest {
    type V = BridgeToolRequestView;

    open spec fn view(&self) -> BridgeToolRequestView {
        BridgeToolRequestView {
            request_id: self.request_id@,
            tool_name: self.tool_name@,
            arguments: self.arguments@,
        }
    }
}

/// A plugin's answer to a tool request.
#[derive(Debug, PartialEq)]
pub struct BridgeToolResponse {
    pub request_id: String,
    pub success: bool,
    pub result: Option<Json>,
    pub error: Option<String>,
}

pub struct BridgeToolResponseView {
    pub request_id: Seq<char>,
    pub success: bool,
    pub result: Option<JsonView>,
    pub error: Option<Seq<char>>,
}

impl View for BridgeToolResponse {
    type V = BridgeToolResponseView;

    open spec fn view(&self) -> BridgeToolResponseView {
        BridgeToolResponseView {
            request_id: self.request_id@,
            success: self.success,
            result: opt_json_view(self.result),
            error: opt_text(self.error),
        }
    }
}

/// The body of `POST /register`.
#[derive(Debug, Clone, PartialEq, Eq)]
pub struct BridgeRegisterRequest {
    pub plugin_version: String,
}

/// The answer to `POST /register`.
#[derive(Debug, Clone, PartialEq, Eq)]
pub struct BridgeRegisterResponse {
    pub client_id: String,
    pub server_version: String,
}

/// An event that a plugin emits.
#[derive(Debug, PartialEq)]
pub struct BridgeEvent {
    pub event_type: String,
    pub data: Json,
}

pub struct BridgeEventView {
    pub event_type: Seq<char>,
    pub data: JsonView,
}

impl View for BridgeEvent {
    type V = BridgeEventView;

    open spec fn view(&self) -> BridgeEventView {
        BridgeEventView { event_type: self.event_type@, data: self.data@ }
    }
}

/// The body of `POST /push`.
#[derive(Debug, PartialEq)]
pub struct BridgePushPayload {
    pub responses: Vec<BridgeToolResponse>,
    pub events: Vec<BridgeEvent>,
}

/// The answer to `GET /status`.
#[derive(Debug, Clone, Copy, PartialEq, Eq)]
pub struct BridgeStatusResponse {
    pub connected_clients: usize,
    pub pending_calls: usize,
    pub log_buffer_size: usize,
    pub playtest_active: bool,
}

// ─── Domain Types ─────────────────────────────────────────────

/// One line of plugin log output.
///
/// `ts` is the time of arrival in milliseconds since the Unix epoch.
#[derive(Debug, PartialEq, Eq)]
pub struct LogEntry {
    pub seq: u64,
    pub ts: i64,
    pub level: String,
    pub message: String,
    pub session_id: Option<String>,
}

pub struct LogEntryView {
    pub seq: nat,
    pub ts: int,
    pub level: Seq<char>,
    pub message: Seq<char>,
    pub session_id: Option<Seq<char>>,
}

impl View for LogEntry {
    type V = LogEntryView;

    open spec fn view(&self) -> LogEntryView {
        LogEntryView {
            seq: self.seq as nat,
            ts: self.ts as int,
            level: self.level@,
            message: self.message@,
            session_id: opt_text(self.session_id),
        }
    }
}

impl Clone for LogEntry {
    fn clone(&self) -> (r: LogEntry)
        ensures
            r@ == self@,
    {
        LogEntry {
            seq: self.seq,
            ts: self.ts,
            level: self.level.clone(),
            message: self.message.clone(),
            session_id: match &self.session_id {
                Some(s) => Some(s.clone()),
                None => None,
            },
        }
    }
}

/// The record of one capture in the capture index.
#[derive(Debug, Clone, PartialEq, Eq)]
pub struct CaptureMetadata {
    pub id: String,
    pub capture_type: String,
    pub timestamp: String,
    pub file_path: Option<String>,
    pub tag: Option<String>,
    pub session_id: Option<String>,
    pub content_id: Option<String>,
    pub note: Option<String>,
}

} // verus!
