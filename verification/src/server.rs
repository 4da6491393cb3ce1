//! The protocol handlers, the dispatcher, and the handling of one input
//! line.
//!
//! A line holds one message. A blank line is ignored. A message without an
//! id is a notification: it is handled, and never answered. Every other
//! message gets exactly one answer, which carries the id of the message and
//! either a result or an error. A line that is not blank and holds no
//! message gets one answer too, a parse error without an id.

use serde_json::Value;
use vstd::prelude::*;
use vstd::string::StringExecFns;

use crate::encoding::agent_tree;
use crate::instructions::instructions_markdown;
use crate::instructions::render_instructions_markdown;
use crate::json::array;
use crate::json::empty_object;
use crate::json::get;
use crate::json::get_str;
use crate::json::insert;
use crate::json::insert_bool;
use crate::json::integer_tree;
use crate::json::json_parse;
use crate::json::json_pretty;
use crate::json::json_text;
use crate::json::member;
use crate::json::object;
use crate::json::parse;
use crate::json::text_member;
use crate::json::to_pretty_text;
use crate::json::to_text;
use crate::json::tree_of;
use crate::json::JsonTree;
use crate::models::agent_views;
use crate::models::Agent;
use crate::models::AgentView;
use crate::protocol::decoded_request;
use crate::protocol::failure_response;
use crate::protocol::initialize_result_tree;
use crate::protocol::lemma_failure_tree;
use crate::protocol::lemma_success_tree;
use crate::protocol::option_tree;
use crate::protocol::resource_content_tree;
use crate::protocol::resource_views;
use crate::protocol::resources_to_json;
use crate::protocol::resources_tree;
use crate::protocol::response_to;
use crate::protocol::response_tree;
use crate::protocol::text_result;
use crate::protocol::tool_result_tree;
use crate::protocol::tools_to_json;
use crate::protocol::tools_tree;
use crate::protocol::ErrorView;
use crate::protocol::InitializeResult;
use crate::protocol::InitializeResultView;
use crate::protocol::JsonRpcError;
use crate::protocol::JsonRpcRequest;
use crate::protocol::JsonRpcResponse;
use crate::protocol::RequestView;
use crate::protocol::Resource;
use crate::protocol::ResourceContent;
use crate::protocol::ResourceContentView;
use crate::protocol::ResourceView;
use crate::protocol::ResourcesCapability;
use crate::protocol::ResponseView;
use crate::protocol::ServerCapabilities;
use crate::protocol::ServerInfo;
use crate::protocol::ServerInfoView;
use crate::protocol::ToolResult;
use crate::protocol::ToolsCapability;
use crate::protocol::INVALID_PARAMS;
use crate::protocol::METHOD_NOT_FOUND;
use crate::protocol::PARSE_ERROR;
use crate::snapshot::McpServer;
use crate::snapshot::SnapshotView;
use crate::text::blank;
use crate::text::is_blank;
use crate::text::str_eq;
use crate::tools::catalogue;
use crate::tools::tool_catalogue;
use crate::tools::tool_outcome;

verus! {

// ---------------------------------------------------------------------------
// What each method answers
// ---------------------------------------------------------------------------

/// An error without data.
pub open spec fn plain_error(code: int, message: Seq<char>) -> ErrorView {
    ErrorView { code: code, message: message, data: None }
}

/// The fixed answer to `initialize`.
pub open spec fn initialize_result() -> InitializeResultView {
    InitializeResultView {
        protocol_version: "2024-11-05"@,
        capabilities: ServerCapabilities {
            tools: ToolsCapability { list_changed: false },
            resources: ResourcesCapability { list_changed: false, subscribe: false },
        },
        server_info: ServerInfoView { name: "prompt-forge"@, version: "0.1.0"@ },
    }
}

/// The answer to `tools/list`: the six descriptors.
pub open spec fn tools_list_tree() -> JsonTree {
    JsonTree::Object(map!["tools"@ => tools_tree(catalogue())])
}

/// The arguments of a tool call: the member `arguments`, or an empty object
/// without one.
pub open spec fn call_arguments(params: JsonTree) -> JsonTree {
    match member(params, "arguments"@) {
        Some(a) => a,
        None => empty_object(),
    }
}

/// The answer to `tools/call`. Without parameters, or without a tool name
/// that is a text, the request fails with invalid parameters. Otherwise it
/// succeeds, whatever the tool returns: the failure of a tool is told inside
/// the result.
pub open spec fn tools_call_outcome(s: SnapshotView, params: Option<JsonTree>) -> Result<
    JsonTree,
    ErrorView,
> {
    match params {
        None => Err(plain_error(INVALID_PARAMS as int, "Invalid params"@)),
        Some(p) => match text_member(p, "name"@) {
            None => Err(plain_error(INVALID_PARAMS as int, "Missing tool name"@)),
            Some(name) => Ok(
                tool_result_tree(text_result(tool_outcome(s, name, call_arguments(p)))),
            ),
        },
    }
}

/// The address of the resource of an agent.
pub open spec fn agent_uri(id: Seq<char>) -> Seq<char> {
    "prompt-forge://agents/"@ + id
}

/// The resource of an agent.
pub open spec fn agent_resource(a: AgentView) -> ResourceView {
    ResourceView {
        uri: agent_uri(a.id),
        name: a.name,
        description: a.description,
        mime_type: "application/json"@,
    }
}

/// The resource that holds all enabled instructions.
pub open spec fn instructions_resource() -> ResourceView {
    ResourceView {
        uri: "prompt-forge://instructions/all"@,
        name: "All Instructions"@,
        description: "All enabled instructions combined"@,
        mime_type: "text/markdown"@,
    }
}

/// The resources of a snapshot: one per agent, in snapshot order, then the
/// instructions.
pub open spec fn listed_resources(s: SnapshotView) -> Seq<ResourceView> {
    s.agents.map_values(|a: AgentView| agent_resource(a)).push(instructions_resource())
}

/// The answer to `resources/list`.
pub open spec fn resources_list_tree(s: SnapshotView) -> JsonTree {
    JsonTree::Object(map!["resources"@ => resources_tree(listed_resources(s))])
}

/// The first agent at or after `from` whose resource has the address `uri`.
pub open spec fn agent_by_uri(agents: Seq<AgentView>, uri: Seq<char>, from: int) -> Option<int>
    decreases agents.len() - from,
{
    if from < 0 || from >= agents.len() {
        None
    } else if agent_uri(agents[from].id) == uri {
        Some(from)
    } else {
        agent_by_uri(agents, uri, from + 1)
    }
}

/// The answer that carries the content of one resource.
pub open spec fn contents_tree(c: ResourceContentView) -> JsonTree {
    JsonTree::Object(map!["contents"@ => JsonTree::Array(seq![resource_content_tree(c)])])
}

/// The answer to `resources/read`. The address has to be that of the
/// instructions or that of an agent, exactly; any other address fails with
/// invalid parameters and is echoed in the message.
pub open spec fn resources_read_outcome(s: SnapshotView, params: Option<JsonTree>) -> Result<
    JsonTree,
    ErrorView,
> {
    match params {
        None => Err(plain_error(INVALID_PARAMS as int, "Invalid params"@)),
        Some(p) => match text_member(p, "uri"@) {
            None => Err(plain_error(INVALID_PARAMS as int, "Missing uri"@)),
            Some(uri) => if uri == "prompt-forge://instructions/all"@ {
                Ok(
                    contents_tree(
                        ResourceContentView {
                            uri: uri,
                            mime_type: "text/markdown"@,
                            text: instructions_markdown(s.instructions),
                        },
                    ),
                )
            } else {
                match agent_by_uri(s.agents, uri, 0) {
                    Some(i) => Ok(
                        contents_tree(
                            ResourceContentView {
                                uri: uri,
                                mime_type: "application/json"@,
                                text: json_pretty(agent_tree(s.agents[i])),
                            },
                        ),
                    ),
                    None => Err(
                        plain_error(INVALID_PARAMS as int, "Resource not found: "@ + uri),
                    ),
                }
            },
        },
    }
}

/// The answer to the notification that asks for a reload.
pub open spec fn reloaded_tree() -> JsonTree {
    JsonTree::Object(map!["reloaded"@ => JsonTree::Bool(true)])
}

/// Whether a method asks the caller to reload the snapshot.
pub open spec fn is_reload(method: Seq<char>) -> bool {
    method == "notifications/reload"@
}

/// What the handler of a method returns. Method names are matched exactly;
/// a name that is none of the known ones fails with method not found.
pub open spec fn method_outcome(s: SnapshotView, method: Seq<char>, params: Option<JsonTree>) -> Result<
    JsonTree,
    ErrorView,
> {
    if method == "initialize"@ {
        Ok(initialize_result_tree(initialize_result()))
    } else if method == "initialized"@ {
        Ok(empty_object())
    } else if method == "tools/list"@ {
        Ok(tools_list_tree())
    } else if method == "tools/call"@ {
        tools_call_outcome(s, params)
    } else if method == "resources/list"@ {
        Ok(resources_list_tree(s))
    } else if method == "resources/read"@ {
        resources_read_outcome(s, params)
    } else if method == "ping"@ {
        Ok(empty_object())
    } else if method == "notifications/reload"@ {
        Ok(reloaded_tree())
    } else {
        Err(plain_error(METHOD_NOT_FOUND as int, "Method not found: "@ + method))
    }
}

/// The response to a request: the id of the request, and what the handler
/// of its method returns.
pub open spec fn handled(s: SnapshotView, request: RequestView) -> ResponseView {
    response_to(request.id, method_outcome(s, request.method, request.params))
}

/// The response to a line that holds no message: a parse error without an
/// id.
pub open spec fn parse_failure(detail: Seq<char>) -> ResponseView {
    failure_response(None, plain_error(PARSE_ERROR as int, "Parse error: "@ + detail))
}

/// The message that a line holds, or why it holds none.
pub open spec fn line_request(line: Seq<char>) -> Result<RequestView, Seq<char>> {
    match json_parse(line) {
        Ok(t) => decoded_request(t),
        Err(e) => Err(e),
    }
}

/// The response to send for what a line was decoded to, if any. What is no
/// message is answered by a parse error, a request by the response to it,
/// and a notification not at all.
pub open spec fn answer_to(s: SnapshotView, decoded: Result<RequestView, Seq<char>>) -> Option<
    ResponseView,
> {
    match decoded {
        Err(e) => Some(parse_failure(e)),
        Ok(request) => if request.id is None {
            None
        } else {
            Some(handled(s, request))
        },
    }
}

/// Whether what a line was decoded to asks the caller to reload the
/// snapshot: it is a message with the method for that, with or without id.
pub open spec fn reload_for(decoded: Result<RequestView, Seq<char>>) -> bool {
    match decoded {
        Ok(request) => is_reload(request.method),
        Err(_) => false,
    }
}

/// The line to write in answer to an input line, if any. A blank line, that
/// is a line that is empty or holds only white space, is ignored; so is a
/// notification.
pub open spec fn line_output(s: SnapshotView, line: Seq<char>) -> Option<Seq<char>> {
    if blank(line) {
        None
    } else {
        match answer_to(s, line_request(line)) {
            Some(response) => Some(json_text(response_tree(response))),
            None => None,
        }
    }
}

/// Whether an input line asks the caller to reload the snapshot. A blank
/// line never does.
pub open spec fn line_reloads(line: Seq<char>) -> bool {
    !blank(line) && reload_for(line_request(line))
}

/// The view of what a line was decoded to.
pub open spec fn decoded_view(decoded: Result<JsonRpcRequest, String>) -> Result<
    RequestView,
    Seq<char>,
> {
    match decoded {
        Ok(request) => Ok(request@),
        Err(e) => Err(e@),
    }
}

/// Whether an exec outcome of a handler is the given outcome.
pub open spec fn is_answer(r: Result<Value, JsonRpcError>, outcome: Result<JsonTree, ErrorView>) -> bool {
    match r {
        Ok(v) => outcome == Ok::<JsonTree, ErrorView>(tree_of(v)),
        Err(e) => outcome == Err::<JsonTree, ErrorView>(e@),
    }
}

// ---------------------------------------------------------------------------
// The handlers
// ---------------------------------------------------------------------------

fn error(code: i32, message: String) -> (r: JsonRpcError)
    ensures
        r@ == plain_error(code as int, message@),
{
    JsonRpcError { code: code, message: message, data: None }
}

fn error_about(code: i32, what: &str, subject: &str) -> (r: JsonRpcError)
    ensures
        r@ == plain_error(code as int, what@ + subject@),
{
    let mut message = String::from_str(what);
    message.append(subject);
    error(code, message)
}

fn agent_address(agent: &Agent) -> (r: String)
    ensures
        r@ == agent_uri(agent@.id),
{
    let mut r = String::from_str("prompt-forge://agents/");
    r.append(agent.id.as_str());
    r
}

fn find_agent_by_uri(agents: &Vec<Agent>, uri: &str) -> (r: Option<usize>)
    ensures
        match r {
            Some(i) => i < agents.len() && agent_by_uri(agent_views(agents@), uri@, 0) == Some(
                i as int,
            ),
            None => agent_by_uri(agent_views(agents@), uri@, 0) is None,
        },
{
    let mut i: usize = 0;
    while i < agents.len()
        invariant
            i <= agents.len(),
            agent_by_uri(agent_views(agents@), uri@, 0) == agent_by_uri(
                agent_views(agents@),
                uri@,
                i as int,
            ),
        decreases agents.len() - i,
    {
        let address = agent_address(&agents[i]);
        if str_eq(address.as_str(), uri) {
            return Some(i);
        }
        i += 1;
    }
    None
}

fn contents(uri: &str, mime_type: &str, text: String) -> (r: Value)
    ensures
        tree_of(r) == contents_tree(
            ResourceContentView { uri: uri@, mime_type: mime_type@, text: text@ },
        ),
{
    let content = ResourceContent {
        uri: uri.to_string(),
        mime_type: mime_type.to_string(),
        text: text,
    };
    let items: Vec<Value> = vec![content.to_json()];
    assert(crate::json::trees(items@) =~= seq![resource_content_tree(content@)]);
    let mut o = object();
    insert(&mut o, "contents", array(items));
    o
}

impl McpServer {
    /// The fixed capability descriptor. It is given at any time: no message
    /// has to come before another.
    pub fn handle_initialize(&self) -> (r: Result<Value, JsonRpcError>)
        ensures
            is_answer(r, Ok(initialize_result_tree(initialize_result()))),
    {
        let result = InitializeResult {
            protocol_version: "2024-11-05".to_string(),
            capabilities: ServerCapabilities {
                tools: ToolsCapability { list_changed: false },
                resources: ResourcesCapability { list_changed: false, subscribe: false },
            },
            server_info: ServerInfo {
                name: "prompt-forge".to_string(),
                version: "0.1.0".to_string(),
            },
        };
        Ok(result.to_json())
    }

    /// The descriptors of the six tools.
    pub fn handle_tools_list(&self) -> (r: Result<Value, JsonRpcError>)
        ensures
            is_answer(r, Ok(tools_list_tree())),
    {
        let tools = tool_catalogue();
        let mut o = object();
        insert(&mut o, "tools", tools_to_json(&tools));
        Ok(o)
    }

    /// Calls a tool. Parameters without a tool name fail the request; what the
    /// tool returns, failure included, is the result of the request.
    pub fn handle_tools_call(&self, params: Option<Value>) -> (r: Result<Value, JsonRpcError>)
        ensures
            is_answer(r, tools_call_outcome(self@, option_tree(params))),
    {
        let params = match params {
            Some(p) => p,
            None => {
                return Err(error(INVALID_PARAMS, "Invalid params".to_string()));
            },
        };
        let name = match get_str(&params, "name") {
            Some(name) => name,
            None => {
                return Err(error(INVALID_PARAMS, "Missing tool name".to_string()));
            },
        };
        let outcome = match get(&params, "arguments") {
            Some(arguments) => self.call_tool(name, arguments),
            None => {
                let arguments = object();
                self.call_tool(name, &arguments)
            },
        };
        Ok(ToolResult::from_outcome(outcome).to_json())
    }

    /// The resources: one per agent, and the instructions.
    pub fn handle_resources_list(&self) -> (r: Result<Value, JsonRpcError>)
        ensures
            is_answer(r, Ok(resources_list_tree(self@))),
    {
        let snapshot = self.snapshot();
        let mut resources: Vec<Resource> = Vec::new();
        let mut i: usize = 0;
        while i < snapshot.agents.len()
            invariant
                i <= snapshot.agents.len(),
                resources@.len() == i,
                forall|k: int|
                    0 <= k < i ==> (#[trigger] resources@[k])@ == agent_resource(
                        snapshot.agents@[k]@,
                    ),
            decreases snapshot.agents.len() - i,
        {
            let agent = &snapshot.agents[i];
            resources.push(
                Resource {
                    uri: agent_address(agent),
                    name: agent.name.clone(),
                    description: agent.description.clone(),
                    mime_type: "application/json".to_string(),
                },
            );
            i += 1;
        }
        resources.push(
            Resource {
                uri: "prompt-forge://instructions/all".to_string(),
                name: "All Instructions".to_string(),
                description: "All enabled instructions combined".to_string(),
                mime_type: "text/markdown".to_string(),
            },
        );
        assert(resource_views(resources@) =~= listed_resources(self@));
        let mut o = object();
        insert(&mut o, "resources", resources_to_json(&resources));
        Ok(o)
    }

    /// The content of the resource at `params.uri`.
    pub fn handle_resources_read(&self, params: Option<Value>) -> (r: Result<Value, JsonRpcError>)
        ensures
            is_answer(r, resources_read_outcome(self@, option_tree(params))),
    {
        let snapshot = self.snapshot();
        let params = match params {
            Some(p) => p,
            None => {
                return Err(error(INVALID_PARAMS, "Invalid params".to_string()));
            },
        };
        let uri = match get_str(&params, "uri") {
            Some(uri) => uri,
            None => {
                return Err(error(INVALID_PARAMS, "Missing uri".to_string()));
            },
        };
        if str_eq(uri, "prompt-forge://instructions/all") {
            let text = self.get_all_instructions_markdown();
            return Ok(contents(uri, "text/markdown", text));
        }
        match find_agent_by_uri(&snapshot.agents, uri) {
            Some(i) => {
                let text = to_pretty_text(&snapshot.agents[i].to_json());
                Ok(contents(uri, "application/json", text))
            },
            None => Err(error_about(INVALID_PARAMS, "Resource not found: ", uri)),
        }
    }

    /// All enabled instructions as one document, the more important first.
    pub fn get_all_instructions_markdown(&self) -> (r: String)
        ensures
            r@ == instructions_markdown(self@.instructions),
    {
        render_instructions_markdown(&self.snapshot().instructions)
    }

    /// Handles one message and gives the response to it. The response to a
    /// notification is not to be sent. Whether the caller has to reload the
    /// snapshot is told by the method alone, see `wants_reload`.
    pub fn handle_request(&self, request: JsonRpcRequest) -> (r: JsonRpcResponse)
        ensures
            r@ == handled(self@, request@),
    {
        let method = request.method.as_str();
        let outcome = if str_eq(method, "initialize") {
            self.handle_initialize()
        } else if str_eq(method, "initialized") {
            Ok(object())
        } else if str_eq(method, "tools/list") {
            self.handle_tools_list()
        } else if str_eq(method, "tools/call") {
            self.handle_tools_call(request.params)
        } else if str_eq(method, "resources/list") {
            self.handle_resources_list()
        } else if str_eq(method, "resources/read") {
            self.handle_resources_read(request.params)
        } else if str_eq(method, "ping") {
            Ok(object())
        } else if str_eq(method, "notifications/reload") {
            let mut o = object();
            insert_bool(&mut o, "reloaded", true);
            Ok(o)
        } else {
            Err(error_about(METHOD_NOT_FOUND, "Method not found: ", method))
        };
        match outcome {
            Ok(result) => JsonRpcResponse {
                jsonrpc: "2.0".to_string(),
                id: request.id,
                result: Some(result),
                error: None,
            },
            Err(error) => JsonRpcResponse {
                jsonrpc: "2.0".to_string(),
                id: request.id,
                result: None,
                error: Some(error),
            },
        }
    }
}

/// Whether a method asks the caller to reload the snapshot.
pub fn wants_reload(method: &str) -> (r: bool)
    ensures
        r == is_reload(method@),
{
    str_eq(method, "notifications/reload")
}

/// The response to a line that holds no message.
pub fn parse_error_response(detail: &str) -> (r: JsonRpcResponse)
    ensures
        r@ == parse_failure(detail@),
{
    JsonRpcResponse {
        jsonrpc: "2.0".to_string(),
        id: None,
        result: None,
        error: Some(error_about(PARSE_ERROR, "Parse error: ", detail)),
    }
}

/// Decodes the message that a line holds.
pub fn decode_line(line: &str) -> (r: Result<JsonRpcRequest, String>)
    ensures
        decoded_view(r) == line_request(line@),
{
    match parse(line) {
        Ok(v) => JsonRpcRequest::from_json(&v),
        Err(e) => Err(e),
    }
}

/// What is to be done about one input line.
#[derive(Debug)]
pub struct LineOutcome {
    /// The line to write and flush before the next line is read, if any.
    pub output: Option<String>,
    /// Whether the snapshot is to be loaded anew before the answer is
    /// written.
    pub reload: bool,
}

/// What is to be done about what a line was decoded to.
#[derive(Debug)]
pub struct Answer {
    /// The response to send, if any.
    pub response: Option<JsonRpcResponse>,
    /// Whether the snapshot is to be loaded anew.
    pub reload: bool,
}

impl McpServer {
    /// Decides what to do about what a line was decoded to: which response
    /// to send, if any, and whether to reload.
    pub fn answer(&self, decoded: Result<JsonRpcRequest, String>) -> (r: Answer)
        ensures
            match r.response {
                Some(response) => answer_to(self@, decoded_view(decoded)) == Some(response@),
                None => answer_to(self@, decoded_view(decoded)) is None,
            },
            r.reload == reload_for(decoded_view(decoded)),
    {
        match decoded {
            Err(detail) => Answer {
                response: Some(parse_error_response(detail.as_str())),
                reload: false,
            },
            Ok(request) => {
                let reload = wants_reload(request.method.as_str());
                let notification = request.id.is_none();
                let response = self.handle_request(request);
                if notification {
                    Answer { response: None, reload: reload }
                } else {
                    Answer { response: Some(response), reload: reload }
                }
            },
        }
    }

    /// Handles one input line.
    pub fn handle_line(&self, line: &str) -> (r: LineOutcome)
        ensures
            match r.output {
                Some(text) => line_output(self@, line@) == Some(text@) && !text@.contains('\n'),
                None => line_output(self@, line@) is None,
            },
            r.reload == line_reloads(line@),
    {
        if is_blank(line) {
            return LineOutcome { output: None, reload: false };
        }
        let answer = self.answer(decode_line(line));
        match answer.response {
            Some(response) => LineOutcome {
                output: Some(to_text(&response.to_json())),
                reload: answer.reload,
            },
            None => LineOutcome { output: None, reload: answer.reload },
        }
    }
}

// ---------------------------------------------------------------------------
// What holds of every line
// ---------------------------------------------------------------------------

/// A blank line is ignored: it is not answered and asks for no reload,
/// whatever the parser would make of it.
pub proof fn lemma_blank_line_is_ignored(s: SnapshotView, line: Seq<char>)
    requires
        blank(line),
    ensures
        line_output(s, line) is None,
        !line_reloads(line),
{
}

/// A line is answered if and only if it is not blank and either holds no
/// message or holds a message with an id. So the answers to a run of lines
/// are as many as the lines of that kind.
pub proof fn lemma_line_is_answered_iff(s: SnapshotView, line: Seq<char>)
    ensures
        line_output(s, line) is Some <==> !blank(line) && (line_request(line) is Err
            || line_request(line)->Ok_0.id is Some),
{
}

/// A notification is never answered, whatever its method is and whatever
/// its handler returns.
pub proof fn lemma_notification_is_not_answered(s: SnapshotView, line: Seq<char>)
    requires
        line_request(line) is Ok,
        line_request(line)->Ok_0.id is None,
    ensures
        line_output(s, line) is None,
{
}

/// A request is answered by exactly one line. The line is the text of a
/// JSON object that carries the id of the request and either a result or an
/// error, never both and never neither.
pub proof fn lemma_request_is_answered_once(s: SnapshotView, line: Seq<char>)
    requires
        !blank(line),
        line_request(line) is Ok,
        line_request(line)->Ok_0.id is Some,
    ensures
        ({
            let request = line_request(line)->Ok_0;
            let answer = response_tree(handled(s, request));
            &&& line_output(s, line) == Some(json_text(answer))
            &&& member(answer, "jsonrpc"@) == Some(JsonTree::Str("2.0"@))
            &&& member(answer, "id"@) == Some(request.id->0)
            &&& (member(answer, "result"@) is Some) != (member(answer, "error"@) is Some)
        }),
{
    let request = line_request(line)->Ok_0;
    match method_outcome(s, request.method, request.params) {
        Ok(result) => {
            lemma_success_tree(request.id, result);
        },
        Err(error) => {
            lemma_failure_tree(request.id, error);
        },
    }
}

/// A line that is not blank and holds no message is answered by exactly one
/// line: a parse error whose id is `null`.
pub proof fn lemma_malformed_line_is_answered_with_parse_error(s: SnapshotView, line: Seq<char>)
    requires
        !blank(line),
        line_request(line) is Err,
    ensures
        ({
            let answer = response_tree(parse_failure(line_request(line)->Err_0));
            &&& line_output(s, line) == Some(json_text(answer))
            &&& member(answer, "id"@) == Some(JsonTree::Null)
            &&& member(answer, "result"@) is None
            &&& member(answer, "error"@) is Some
            &&& member(member(answer, "error"@)->0, "code"@) == Some(integer_tree(-32700))
        }),
{
    let detail = line_request(line)->Err_0;
    lemma_failure_tree(None, plain_error(PARSE_ERROR as int, "Parse error: "@ + detail));
}

/// A text that is no JSON at all holds no message.
pub proof fn lemma_malformed_json_holds_no_message(line: Seq<char>)
    requires
        json_parse(line) is Err,
    ensures
        line_request(line) is Err,
{
}

/// A tool call without a tool name fails as a request, with invalid
/// parameters; no tool runs and no tool result is made.
pub proof fn lemma_call_without_name_is_invalid(s: SnapshotView, params: JsonTree)
    requires
        text_member(params, "name"@) is None,
    ensures
        tools_call_outcome(s, Some(params)) is Err,
        tools_call_outcome(s, Some(params))->Err_0.code == -32602,
        method_outcome(s, "tools/call"@, Some(params)) == tools_call_outcome(s, Some(params)),
{
    lemma_method_names_differ();
}

/// Whether a name is that of one of the six tools.
pub open spec fn is_tool_name(name: Seq<char>) -> bool {
    exists|i: int| 0 <= i < catalogue().len() && (#[trigger] catalogue()[i]).name == name
}

/// A call of a tool that does not exist succeeds as a request. Its result is
/// a tool result whose error flag is set and whose text names the tool.
pub proof fn lemma_unknown_tool_is_tool_error(s: SnapshotView, params: JsonTree)
    requires
        text_member(params, "name"@) is Some,
        !is_tool_name(text_member(params, "name"@)->0),
    ensures
        ({
            let name = text_member(params, "name"@)->0;
            &&& tool_outcome(s, name, call_arguments(params)) == Err::<Seq<char>, Seq<char>>(
                "Unknown tool: "@ + name,
            )
            &&& tools_call_outcome(s, Some(params)) is Ok
            &&& member(tools_call_outcome(s, Some(params))->Ok_0, "isError"@) == Some(
                JsonTree::Bool(true),
            )
        }),
{
    reveal_strlit("content");
    reveal_strlit("isError");
}

proof fn lemma_agent_by_uri_finds(agents: Seq<AgentView>, uri: Seq<char>, from: int, k: int)
    requires
        0 <= from <= k < agents.len(),
        agent_uri(agents[k].id) == uri,
    ensures
        agent_by_uri(agents, uri, from) is Some,
    decreases k - from,
{
    if from < k && agent_uri(agents[from].id) != uri {
        lemma_agent_by_uri_finds(agents, uri, from + 1, k);
    }
}

/// The parameters that ask for the resource at an address.
pub open spec fn read_params(uri: Seq<char>) -> JsonTree {
    JsonTree::Object(map!["uri"@ => JsonTree::Str(uri)])
}

/// Every resource that is listed can be read: asking for the address of a
/// listed resource succeeds.
pub proof fn lemma_listed_resources_can_be_read(s: SnapshotView, k: int)
    requires
        0 <= k < listed_resources(s).len(),
    ensures
        resources_read_outcome(s, Some(read_params(listed_resources(s)[k].uri))) is Ok,
{
    let uri = listed_resources(s)[k].uri;
    if k < s.agents.len() {
        lemma_agent_by_uri_finds(s.agents, uri, 0, k);
    }
}

/// The names of the methods are pairwise different, so that each has its
/// own handler.
pub proof fn lemma_method_names_differ()
    ensures
        "tools/call"@ != "initialize"@,
        "tools/call"@ != "initialized"@,
        "tools/call"@ != "tools/list"@,
        "resources/list"@ != "initialize"@,
        "resources/list"@ != "initialized"@,
        "resources/list"@ != "tools/list"@,
        "resources/list"@ != "tools/call"@,
        "resources/read"@ != "initialize"@,
        "resources/read"@ != "initialized"@,
        "resources/read"@ != "tools/list"@,
        "resources/read"@ != "tools/call"@,
        "resources/read"@ != "resources/list"@,
{
    reveal_strlit("initialize");
    reveal_strlit("initialized");
    reveal_strlit("tools/list");
    reveal_strlit("tools/call");
    reveal_strlit("resources/list");
    reveal_strlit("resources/read");
    assert("tools/call"@.len() == 10 && "tools/call"@[0] == 't' && "tools/call"@[6] == 'c');
    assert("resources/list"@.len() == 14 && "resources/list"@[10] == 'l');
    assert("resources/read"@.len() == 14 && "resources/read"@[10] == 'r');
}

} // verus!
