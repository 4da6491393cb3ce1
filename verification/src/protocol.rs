//! The messages of the protocol: JSON-RPC 2.0 envelopes and the payloads
//! that the server puts into them, each with its JSON encoding.

use serde_json::Value;
use vstd::prelude::*;

use crate::json::array;
use crate::json::as_str;
use crate::json::get;
use crate::json::insert;
use crate::json::insert_bool;
use crate::json::insert_str;
use crate::json::integer;
use crate::json::integer_tree;
use crate::json::is_null;
use crate::json::member;
use crate::json::null;
use crate::json::object;
use crate::json::tree_of;
use crate::json::with_member;
use crate::json::JsonTree;

verus! {

/// The input line is not a JSON-RPC message.
pub const PARSE_ERROR: i32 = -32700;

/// The method is not one the server knows.
pub const METHOD_NOT_FOUND: i32 = -32601;

/// The parameters do not fit the method, or name something that is not
/// there.
pub const INVALID_PARAMS: i32 = -32602;

/// Reserved for failures inside the server.
pub const INTERNAL_ERROR: i32 = -32603;

/// The tree of an optional value.
pub open spec fn option_tree(v: Option<Value>) -> Option<JsonTree> {
    match v {
        Some(x) => Some(tree_of(x)),
        None => None,
    }
}

// ---------------------------------------------------------------------------
// Requests
// ---------------------------------------------------------------------------

/// A decoded message. Without an `id` it is a notification and is never
/// answered.
#[derive(Debug)]
pub struct JsonRpcRequest {
    pub jsonrpc: String,
    pub id: Option<Value>,
    pub method: String,
    pub params: Option<Value>,
}

/// The view of a request.
pub struct RequestView {
    pub jsonrpc: Seq<char>,
    pub id: Option<JsonTree>,
    pub method: Seq<char>,
    pub params: Option<JsonTree>,
}

impl View for JsonRpcRequest {
    type V = RequestView;

    open spec fn view(&self) -> RequestView {
        RequestView {
            jsonrpc: self.jsonrpc@,
            id: option_tree(self.id),
            method: self.method@,
            params: option_tree(self.params),
        }
    }
}

/// An optional member: a member that is missing or `null` counts as absent.
pub open spec fn optional_member(t: JsonTree, key: Seq<char>) -> Option<JsonTree> {
    match member(t, key) {
        Some(JsonTree::Null) => None,
        Some(x) => Some(x),
        None => None,
    }
}

/// The request that a JSON tree stands for, or why it stands for none. A
/// request is an object with the string members `jsonrpc` and `method`; `id`
/// and `params` are optional, other members are ignored.
pub open spec fn decoded_request(t: JsonTree) -> Result<RequestView, Seq<char>> {
    match member(t, "jsonrpc"@) {
        None => Err("missing field `jsonrpc`"@),
        Some(JsonTree::Str(version)) => match member(t, "method"@) {
            None => Err("missing field `method`"@),
            Some(JsonTree::Str(method)) => Ok(
                RequestView {
                    jsonrpc: version,
                    id: optional_member(t, "id"@),
                    method: method,
                    params: optional_member(t, "params"@),
                },
            ),
            Some(_) => Err("field `method` is not a string"@),
        },
        Some(_) => Err("field `jsonrpc` is not a string"@),
    }
}

fn get_optional(v: &Value, key: &str) -> (r: Option<Value>)
    ensures
        option_tree(r) == optional_member(tree_of(*v), key@),
{
    match get(v, key) {
        Some(x) => if is_null(x) {
            None
        } else {
            Some(x.clone())
        },
        None => None,
    }
}

impl JsonRpcRequest {
    /// Decodes a request from a JSON value.
    pub fn from_json(v: &Value) -> (r: Result<JsonRpcRequest, String>)
        ensures
            match r {
                Ok(request) => decoded_request(tree_of(*v)) == Ok::<RequestView, Seq<char>>(
                    request@,
                ),
                Err(e) => decoded_request(tree_of(*v)) == Err::<RequestView, Seq<char>>(e@),
            },
    {
        let version = match get(v, "jsonrpc") {
            None => {
                return Err("missing field `jsonrpc`".to_string());
            },
            Some(x) => match as_str(x) {
                Some(s) => s.to_string(),
                None => {
                    return Err("field `jsonrpc` is not a string".to_string());
                },
            },
        };
        let method = match get(v, "method") {
            None => {
                return Err("missing field `method`".to_string());
            },
            Some(x) => match as_str(x) {
                Some(s) => s.to_string(),
                None => {
                    return Err("field `method` is not a string".to_string());
                },
            },
        };
        Ok(
            JsonRpcRequest {
                jsonrpc: version,
                id: get_optional(v, "id"),
                method: method,
                params: get_optional(v, "params"),
            },
        )
    }
}

// ---------------------------------------------------------------------------
// Responses
// ---------------------------------------------------------------------------

/// Why a request failed: a code, a message, and optional data.
#[derive(Debug)]
pub struct JsonRpcError {
    pub code: i32,
    pub message: String,
    pub data: Option<Value>,
}

/// The view of an error.
pub struct ErrorView {
    pub code: int,
    pub message: Seq<char>,
    pub data: Option<JsonTree>,
}

impl View for JsonRpcError {
    type V = ErrorView;

    open spec fn view(&self) -> ErrorView {
        ErrorView { code: self.code as int, message: self.message@, data: option_tree(self.data) }
    }
}

/// The JSON of an error: `code` and `message`, and `data` only if there is
/// some.
pub open spec fn error_tree(e: ErrorView) -> JsonTree {
    let base = JsonTree::Object(
        map!["code"@ => integer_tree(e.code), "message"@ => JsonTree::Str(e.message)],
    );
    match e.data {
        Some(d) => with_member(base, "data"@, d),
        None => base,
    }
}

impl JsonRpcError {
    /// Encodes the value as JSON.
    pub fn to_json(&self) -> (r: Value)
        ensures
            tree_of(r) == error_tree(self@),
    {
        let mut o = object();
        insert(&mut o, "code", integer(self.code as i64));
        insert_str(&mut o, "message", self.message.as_str());
        match &self.data {
            Some(d) => {
                insert(&mut o, "data", d.clone());
            },
            None => {},
        }
        o
    }
}

/// The answer to a request: the id of the request and either a result or an
/// error.
#[derive(Debug)]
pub struct JsonRpcResponse {
    pub jsonrpc: String,
    pub id: Option<Value>,
    pub result: Option<Value>,
    pub error: Option<JsonRpcError>,
}

/// The view of a response.
pub struct ResponseView {
    pub jsonrpc: Seq<char>,
    pub id: Option<JsonTree>,
    pub result: Option<JsonTree>,
    pub error: Option<ErrorView>,
}

impl View for JsonRpcResponse {
    type V = ResponseView;

    open spec fn view(&self) -> ResponseView {
        ResponseView {
            jsonrpc: self.jsonrpc@,
            id: option_tree(self.id),
            result: option_tree(self.result),
            error: match self.error {
                Some(e) => Some(e@),
                None => None,
            },
        }
    }
}

/// The response that carries a result.
pub open spec fn success_response(id: Option<JsonTree>, result: JsonTree) -> ResponseView {
    ResponseView { jsonrpc: "2.0"@, id: id, result: Some(result), error: None }
}

/// The response that carries an error.
pub open spec fn failure_response(id: Option<JsonTree>, error: ErrorView) -> ResponseView {
    ResponseView { jsonrpc: "2.0"@, id: id, result: None, error: Some(error) }
}

/// The response to a handler's outcome.
pub open spec fn response_to(id: Option<JsonTree>, outcome: Result<JsonTree, ErrorView>) -> ResponseView {
    match outcome {
        Ok(result) => success_response(id, result),
        Err(error) => failure_response(id, error),
    }
}

/// The JSON of a response: `jsonrpc`, `id` (`null` without one), and
/// `result` or `error` as far as they are there.
pub open spec fn response_tree(r: ResponseView) -> JsonTree {
    let id = match r.id {
        Some(t) => t,
        None => JsonTree::Null,
    };
    let base = JsonTree::Object(map!["jsonrpc"@ => JsonTree::Str(r.jsonrpc), "id"@ => id]);
    let with_result = match r.result {
        Some(t) => with_member(base, "result"@, t),
        None => base,
    };
    match r.error {
        Some(e) => with_member(with_result, "error"@, error_tree(e)),
        None => with_result,
    }
}

impl JsonRpcResponse {
    /// Encodes the value as JSON.
    pub fn to_json(&self) -> (r: Value)
        ensures
            tree_of(r) == response_tree(self@),
    {
        let mut o = object();
        insert_str(&mut o, "jsonrpc", self.jsonrpc.as_str());
        match &self.id {
            Some(id) => {
                insert(&mut o, "id", id.clone());
            },
            None => {
                insert(&mut o, "id", null());
            },
        }
        match &self.result {
            Some(t) => {
                insert(&mut o, "result", t.clone());
            },
            None => {},
        }
        match &self.error {
            Some(e) => {
                insert(&mut o, "error", e.to_json());
            },
            None => {},
        }
        o
    }
}

/// The JSON of a response that carries a result has the member `result` and
/// no member `error`, and its `id` is the id of the request.
pub proof fn lemma_success_tree(id: Option<JsonTree>, result: JsonTree)
    ensures
        member(response_tree(success_response(id, result)), "result"@) == Some(result),
        member(response_tree(success_response(id, result)), "error"@) is None,
        member(response_tree(success_response(id, result)), "jsonrpc"@) == Some(
            JsonTree::Str("2.0"@),
        ),
        member(response_tree(success_response(id, result)), "id"@) == Some(
            match id {
                Some(t) => t,
                None => JsonTree::Null,
            },
        ),
{
    lemma_member_names_differ();
}

/// The JSON of a response that carries an error has the member `error` and
/// no member `result`, and its `id` is the id of the request.
pub proof fn lemma_failure_tree(id: Option<JsonTree>, error: ErrorView)
    ensures
        member(response_tree(failure_response(id, error)), "error"@) == Some(error_tree(error)),
        member(response_tree(failure_response(id, error)), "result"@) is None,
        member(response_tree(failure_response(id, error)), "jsonrpc"@) == Some(
            JsonTree::Str("2.0"@),
        ),
        member(response_tree(failure_response(id, error)), "id"@) == Some(
            match id {
                Some(t) => t,
                None => JsonTree::Null,
            },
        ),
        member(error_tree(error), "code"@) == Some(integer_tree(error.code)),
        member(error_tree(error), "message"@) == Some(JsonTree::Str(error.message)),
{
    lemma_member_names_differ();
}

/// The member names of responses and errors are pairwise different.
pub proof fn lemma_member_names_differ()
    ensures
        "jsonrpc"@ != "id"@,
        "jsonrpc"@ != "result"@,
        "jsonrpc"@ != "error"@,
        "id"@ != "result"@,
        "id"@ != "error"@,
        "result"@ != "error"@,
        "code"@ != "message"@,
        "code"@ != "data"@,
        "message"@ != "data"@,
{
    reveal_strlit("jsonrpc");
    reveal_strlit("id");
    reveal_strlit("result");
    reveal_strlit("error");
    reveal_strlit("code");
    reveal_strlit("message");
    reveal_strlit("data");
    assert("id"@.len() == 2);
    assert("result"@.len() == 6);
    assert("error"@.len() == 5);
    assert("code"@[0] == 'c' && "data"@[0] == 'd');
}

// ---------------------------------------------------------------------------
// Handshake
// ---------------------------------------------------------------------------

/// Name and version of the server.
#[derive(Debug)]
pub struct ServerInfo {
    pub name: String,
    pub version: String,
}

/// The view of the server information.
pub struct ServerInfoView {
    pub name: Seq<char>,
    pub version: Seq<char>,
}

impl View for ServerInfo {
    type V = ServerInfoView;

    open spec fn view(&self) -> ServerInfoView {
        ServerInfoView { name: self.name@, version: self.version@ }
    }
}

/// The JSON of the server information.
pub open spec fn server_info_tree(v: ServerInfoView) -> JsonTree {
    JsonTree::Object(map!["name"@ => JsonTree::Str(v.name), "version"@ => JsonTree::Str(v.version)])
}

impl ServerInfo {
    /// Encodes the value as JSON.
    pub fn to_json(&self) -> (r: Value)
        ensures
            tree_of(r) == server_info_tree(self@),
    {
        let mut o = object();
        insert_str(&mut o, "name", self.name.as_str());
        insert_str(&mut o, "version", self.version.as_str());
        o
    }
}

/// What the server offers for tools.
#[derive(Clone, Copy, Debug)]
pub struct ToolsCapability {
    pub list_changed: bool,
}

/// The JSON of the tools capability.
pub open spec fn tools_capability_tree(c: ToolsCapability) -> JsonTree {
    JsonTree::Object(map!["listChanged"@ => JsonTree::Bool(c.list_changed)])
}

impl ToolsCapability {
    /// Encodes the value as JSON.
    pub fn to_json(&self) -> (r: Value)
        ensures
            tree_of(r) == tools_capability_tree(*self),
    {
        let mut o = object();
        insert_bool(&mut o, "listChanged", self.list_changed);
        o
    }
}

/// What the server offers for resources.
#[derive(Clone, Copy, Debug)]
pub struct ResourcesCapability {
    pub list_changed: bool,
    pub subscribe: bool,
}

/// The JSON of the resources capability.
pub open spec fn resources_capability_tree(c: ResourcesCapability) -> JsonTree {
    JsonTree::Object(
        map![
            "listChanged"@ => JsonTree::Bool(c.list_changed),
            "subscribe"@ => JsonTree::Bool(c.subscribe),
        ],
    )
}

impl ResourcesCapability {
    /// Encodes the value as JSON.
    pub fn to_json(&self) -> (r: Value)
        ensures
            tree_of(r) == resources_capability_tree(*self),
    {
        let mut o = object();
        insert_bool(&mut o, "listChanged", self.list_changed);
        insert_bool(&mut o, "subscribe", self.subscribe);
        o
    }
}

/// The capabilities the server announces.
#[derive(Clone, Copy, Debug)]
pub struct ServerCapabilities {
    pub tools: ToolsCapability,
    pub resources: ResourcesCapability,
}

/// The JSON of the capabilities.
pub open spec fn server_capabilities_tree(c: ServerCapabilities) -> JsonTree {
    JsonTree::Object(
        map![
            "tools"@ => tools_capability_tree(c.tools),
            "resources"@ => resources_capability_tree(c.resources),
        ],
    )
}

impl ServerCapabilities {
    /// Encodes the value as JSON.
    pub fn to_json(&self) -> (r: Value)
        ensures
            tree_of(r) == server_capabilities_tree(*self),
    {
        let mut o = object();
        insert(&mut o, "tools", self.tools.to_json());
        insert(&mut o, "resources", self.resources.to_json());
        o
    }
}

/// The answer to `initialize`.
#[derive(Debug)]
pub struct InitializeResult {
    pub protocol_version: String,
    pub capabilities: ServerCapabilities,
    pub server_info: ServerInfo,
}

/// The view of the answer to `initialize`.
pub struct InitializeResultView {
    pub protocol_version: Seq<char>,
    pub capabilities: ServerCapabilities,
    pub server_info: ServerInfoView,
}

impl View for InitializeResult {
    type V = InitializeResultView;

    open spec fn view(&self) -> InitializeResultView {
        InitializeResultView {
            protocol_version: self.protocol_version@,
            capabilities: self.capabilities,
            server_info: self.server_info@,
        }
    }
}

/// The JSON of the answer to `initialize`.
pub open spec fn initialize_result_tree(v: InitializeResultView) -> JsonTree {
    JsonTree::Object(
        map![
            "protocolVersion"@ => JsonTree::Str(v.protocol_version),
            "capabilities"@ => server_capabilities_tree(v.capabilities),
            "serverInfo"@ => server_info_tree(v.server_info),
        ],
    )
}

impl InitializeResult {
    /// Encodes the value as JSON.
    pub fn to_json(&self) -> (r: Value)
        ensures
            tree_of(r) == initialize_result_tree(self@),
    {
        let mut o = object();
        insert_str(&mut o, "protocolVersion", self.protocol_version.as_str());
        insert(&mut o, "capabilities", self.capabilities.to_json());
        insert(&mut o, "serverInfo", self.server_info.to_json());
        o
    }
}

// ---------------------------------------------------------------------------
// Tools and resources
// ---------------------------------------------------------------------------

/// The descriptor of a tool: name, description, and the JSON schema of its
/// arguments.
#[derive(Debug)]
pub struct Tool {
    pub name: String,
    pub description: String,
    pub input_schema: Value,
}

/// The view of a tool descriptor.
pub struct ToolView {
    pub name: Seq<char>,
    pub description: Seq<char>,
    pub input_schema: JsonTree,
}

impl View for Tool {
    type V = ToolView;

    open spec fn view(&self) -> ToolView {
        ToolView {
            name: self.name@,
            description: self.description@,
            input_schema: tree_of(self.input_schema),
        }
    }
}

/// The JSON of a tool descriptor.
pub open spec fn tool_tree(v: ToolView) -> JsonTree {
    JsonTree::Object(
        map![
            "name"@ => JsonTree::Str(v.name),
            "description"@ => JsonTree::Str(v.description),
            "inputSchema"@ => v.input_schema,
        ],
    )
}

impl Tool {
    /// Encodes the value as JSON.
    pub fn to_json(&self) -> (r: Value)
        ensures
            tree_of(r) == tool_tree(self@),
    {
        let mut o = object();
        insert_str(&mut o, "name", self.name.as_str());
        insert_str(&mut o, "description", self.description.as_str());
        insert(&mut o, "inputSchema", self.input_schema.clone());
        o
    }
}

/// The views of a list of tools.
pub open spec fn tool_views(v: Seq<Tool>) -> Seq<ToolView> {
    v.map_values(|t: Tool| t@)
}

/// The JSON array of a list of tools.
pub open spec fn tools_tree(v: Seq<ToolView>) -> JsonTree {
    JsonTree::Array(v.map_values(|t: ToolView| tool_tree(t)))
}

/// Encodes a list of tools as a JSON array.
pub fn tools_to_json(tools: &Vec<Tool>) -> (r: Value)
    ensures
        tree_of(r) == tools_tree(tool_views(tools@)),
{
    let mut out: Vec<Value> = Vec::new();
    let mut i: usize = 0;
    while i < tools.len()
        invariant
            i <= tools.len(),
            out@.len() == i,
            forall|k: int| 0 <= k < i ==> tree_of(#[trigger] out@[k]) == tool_tree(tools@[k]@),
        decreases tools.len() - i,
    {
        out.push(tools[i].to_json());
        i += 1;
    }
    let r = array(out);
    assert(crate::json::trees(out@) =~= tool_views(tools@).map_values(|t: ToolView| tool_tree(t)));
    r
}

/// A resource the server lists.
#[derive(Debug)]
pub struct Resource {
    pub uri: String,
    pub name: String,
    pub description: String,
    pub mime_type: String,
}

/// The view of a resource.
pub struct ResourceView {
    pub uri: Seq<char>,
    pub name: Seq<char>,
    pub description: Seq<char>,
    pub mime_type: Seq<char>,
}

impl View for Resource {
    type V = ResourceView;

    open spec fn view(&self) -> ResourceView {
        ResourceView {
            uri: self.uri@,
            name: self.name@,
            description: self.description@,
            mime_type: self.mime_type@,
        }
    }
}

/// The JSON of a resource.
pub open spec fn resource_tree(v: ResourceView) -> JsonTree {
    JsonTree::Object(
        map![
            "uri"@ => JsonTree::Str(v.uri),
            "name"@ => JsonTree::Str(v.name),
            "description"@ => JsonTree::Str(v.description),
            "mimeType"@ => JsonTree::Str(v.mime_type),
        ],
    )
}

impl Resource {
    /// Encodes the value as JSON.
    pub fn to_json(&self) -> (r: Value)
        ensures
            tree_of(r) == resource_tree(self@),
    {
        let mut o = object();
        insert_str(&mut o, "uri", self.uri.as_str());
        insert_str(&mut o, "name", self.name.as_str());
        insert_str(&mut o, "description", self.description.as_str());
        insert_str(&mut o, "mimeType", self.mime_type.as_str());
        o
    }
}

/// The views of a list of resources.
pub open spec fn resource_views(v: Seq<Resource>) -> Seq<ResourceView> {
    v.map_values(|r: Resource| r@)
}

/// The JSON array of a list of resources.
pub open spec fn resources_tree(v: Seq<ResourceView>) -> JsonTree {
    JsonTree::Array(v.map_values(|r: ResourceView| resource_tree(r)))
}

/// Encodes a list of resources as a JSON array.
pub fn resources_to_json(resources: &Vec<Resource>) -> (r: Value)
    ensures
        tree_of(r) == resources_tree(resource_views(resources@)),
{
    let mut out: Vec<Value> = Vec::new();
    let mut i: usize = 0;
    while i < resources.len()
        invariant
            i <= resources.len(),
            out@.len() == i,
            forall|k: int|
                0 <= k < i ==> tree_of(#[trigger] out@[k]) == resource_tree(resources@[k]@),
        decreases resources.len() - i,
    {
        out.push(resources[i].to_json());
        i += 1;
    }
    let r = array(out);
    assert(crate::json::trees(out@) =~= resource_views(resources@).map_values(
        |r: ResourceView| resource_tree(r),
    ));
    r
}

/// One piece of what a tool returns.
#[derive(Debug)]
pub struct ToolContent {
    pub content_type: String,
    pub text: String,
}

/// The view of a piece of content.
pub struct ToolContentView {
    pub content_type: Seq<char>,
    pub text: Seq<char>,
}

impl View for ToolContent {
    type V = ToolContentView;

    open spec fn view(&self) -> ToolContentView {
        ToolContentView { content_type: self.content_type@, text: self.text@ }
    }
}

/// The JSON of a piece of content.
pub open spec fn tool_content_tree(v: ToolContentView) -> JsonTree {
    JsonTree::Object(
        map!["type"@ => JsonTree::Str(v.content_type), "text"@ => JsonTree::Str(v.text)],
    )
}

impl ToolContent {
    /// Encodes the value as JSON.
    pub fn to_json(&self) -> (r: Value)
        ensures
            tree_of(r) == tool_content_tree(self@),
    {
        let mut o = object();
        insert_str(&mut o, "type", self.content_type.as_str());
        insert_str(&mut o, "text", self.text.as_str());
        o
    }
}

/// What a tool returns. A failure of the tool is told by `is_error`, inside
/// a response that itself is a success.
#[derive(Debug)]
pub struct ToolResult {
    pub content: Vec<ToolContent>,
    pub is_error: Option<bool>,
}

/// The view of a tool result.
pub struct ToolResultView {
    pub content: Seq<ToolContentView>,
    pub is_error: Option<bool>,
}

/// The views of a list of contents.
pub open spec fn content_views(v: Seq<ToolContent>) -> Seq<ToolContentView> {
    v.map_values(|c: ToolContent| c@)
}

impl View for ToolResult {
    type V = ToolResultView;

    open spec fn view(&self) -> ToolResultView {
        ToolResultView { content: content_views(self.content@), is_error: self.is_error }
    }
}

/// The JSON of a tool result: `content`, and `isError` only if it is set.
pub open spec fn tool_result_tree(v: ToolResultView) -> JsonTree {
    let base = JsonTree::Object(
        map![
            "content"@ => JsonTree::Array(
                v.content.map_values(|c: ToolContentView| tool_content_tree(c)),
            ),
        ],
    );
    match v.is_error {
        Some(b) => with_member(base, "isError"@, JsonTree::Bool(b)),
        None => base,
    }
}

impl ToolResult {
    /// Encodes the value as JSON.
    pub fn to_json(&self) -> (r: Value)
        ensures
            tree_of(r) == tool_result_tree(self@),
    {
        let mut out: Vec<Value> = Vec::new();
        let mut i: usize = 0;
        while i < self.content.len()
            invariant
                i <= self.content.len(),
                out@.len() == i,
                forall|k: int|
                    0 <= k < i ==> tree_of(#[trigger] out@[k]) == tool_content_tree(
                        self.content@[k]@,
                    ),
            decreases self.content.len() - i,
        {
            out.push(self.content[i].to_json());
            i += 1;
        }
        let items = array(out);
        assert(crate::json::trees(out@) =~= content_views(self.content@).map_values(
            |c: ToolContentView| tool_content_tree(c),
        ));
        let mut o = object();
        insert(&mut o, "content", items);
        match self.is_error {
            Some(b) => {
                insert_bool(&mut o, "isError", b);
            },
            None => {},
        }
        o
    }
}

/// The text result of a tool, as the view of a tool result: one content of
/// type `text`; a failure sets `is_error`.
pub open spec fn text_result(outcome: Result<Seq<char>, Seq<char>>) -> ToolResultView {
    match outcome {
        Ok(text) => ToolResultView {
            content: seq![ToolContentView { content_type: "text"@, text: text }],
            is_error: None,
        },
        Err(text) => ToolResultView {
            content: seq![ToolContentView { content_type: "text"@, text: text }],
            is_error: Some(true),
        },
    }
}

impl ToolResult {
    /// Wraps what a tool returned: its text on success, its message with the
    /// error flag on failure.
    pub fn from_outcome(outcome: Result<String, String>) -> (r: ToolResult)
        ensures
            r@ == text_result(
                match outcome {
                    Ok(t) => Ok(t@),
                    Err(e) => Err(e@),
                },
            ),
    {
        match outcome {
            Ok(text) => {
                let content = vec![ToolContent { content_type: "text".to_string(), text: text }];
                let r = ToolResult { content: content, is_error: None };
                assert(r@.content =~= seq![ToolContentView { content_type: "text"@, text: text@ }]);
                r
            },
            Err(text) => {
                let content = vec![ToolContent { content_type: "text".to_string(), text: text }];
                let r = ToolResult { content: content, is_error: Some(true) };
                assert(r@.content =~= seq![ToolContentView { content_type: "text"@, text: text@ }]);
                r
            },
        }
    }
}

/// The content of a resource that was read.
#[derive(Debug)]
pub struct ResourceContent {
    pub uri: String,
    pub mime_type: String,
    pub text: String,
}

/// The view of the content of a resource.
pub struct ResourceContentView {
    pub uri: Seq<char>,
    pub mime_type: Seq<char>,
    pub text: Seq<char>,
}

impl View for ResourceContent {
    type V = ResourceContentView;

    open spec fn view(&self) -> ResourceContentView {
        ResourceContentView { uri: self.uri@, mime_type: self.mime_type@, text: self.text@ }
    }
}

/// The JSON of the content of a resource.
pub open spec fn resource_content_tree(v: ResourceContentView) -> JsonTree {
    JsonTree::Object(
        map![
            "uri"@ => JsonTree::Str(v.uri),
            "mimeType"@ => JsonTree::Str(v.mime_type),
            "text"@ => JsonTree::Str(v.text),
        ],
    )
}

impl ResourceContent {
    /// Encodes the value as JSON.
    pub fn to_json(&self) -> (r: Value)
        ensures
            tree_of(r) == resource_content_tree(self@),
    {
        let mut o = object();
        insert_str(&mut o, "uri", self.uri.as_str());
        insert_str(&mut o, "mimeType", self.mime_type.as_str());
        insert_str(&mut o, "text", self.text.as_str());
        o
    }
}

} // verus!
