use prompt_forge::protocol::JsonRpcError;
use prompt_forge::protocol::JsonRpcRequest;
use prompt_forge::protocol::JsonRpcResponse;
use prompt_forge::protocol::InitializeResult;
use prompt_forge::protocol::Resource;
use prompt_forge::protocol::ResourceContent;
use prompt_forge::protocol::ResourcesCapability;
use prompt_forge::protocol::ServerCapabilities;
use prompt_forge::protocol::ServerInfo;
use prompt_forge::protocol::Tool;
use prompt_forge::protocol::ToolContent;
use prompt_forge::protocol::ToolResult;
use prompt_forge::protocol::ToolsCapability;
use prompt_forge::protocol::INTERNAL_ERROR;
use prompt_forge::protocol::INVALID_PARAMS;
use prompt_forge::protocol::METHOD_NOT_FOUND;
use prompt_forge::protocol::PARSE_ERROR;
use serde_json::Value;

fn json(text: &str) -> Value {
    serde_json::from_str(text).unwrap()
}

#[test]
fn error_codes() {
    assert_eq!(PARSE_ERROR, -32700);
    assert_eq!(METHOD_NOT_FOUND, -32601);
    assert_eq!(INVALID_PARAMS, -32602);
    assert_eq!(INTERNAL_ERROR, -32603);
}

#[test]
fn request_is_decoded_from_an_object() {
    let r = JsonRpcRequest::from_json(&json(
        r#"{"jsonrpc":"2.0","id":7,"method":"tools/call","params":{"name":"x"},"extra":true}"#,
    ))
    .unwrap();
    assert_eq!(r.jsonrpc, "2.0");
    assert_eq!(r.id, Some(json("7")));
    assert_eq!(r.method, "tools/call");
    assert_eq!(r.params, Some(json(r#"{"name":"x"}"#)));
}

#[test]
fn request_without_id_or_params() {
    let r = JsonRpcRequest::from_json(&json(r#"{"jsonrpc":"2.0","method":"ping"}"#)).unwrap();
    assert_eq!(r.id, None);
    assert_eq!(r.params, None);
    assert_eq!(r.method, "ping");
}

#[test]
fn null_id_and_null_params_count_as_absent() {
    let r = JsonRpcRequest::from_json(&json(
        r#"{"jsonrpc":"2.0","id":null,"method":"ping","params":null}"#,
    ))
    .unwrap();
    assert_eq!(r.id, None);
    assert_eq!(r.params, None);
}

#[test]
fn request_ids_of_any_kind_are_kept() {
    let text = JsonRpcRequest::from_json(&json(r#"{"jsonrpc":"2.0","id":"abc","method":"ping"}"#))
        .unwrap();
    assert_eq!(text.id, Some(json(r#""abc""#)));
    let fraction =
        JsonRpcRequest::from_json(&json(r#"{"jsonrpc":"2.0","id":1.5,"method":"ping"}"#)).unwrap();
    assert_eq!(fraction.id, Some(json("1.5")));
    let zero = JsonRpcRequest::from_json(&json(r#"{"jsonrpc":"2.0","id":0,"method":"ping"}"#))
        .unwrap();
    assert_eq!(zero.id, Some(json("0")));
}

#[test]
fn request_needs_its_two_text_members() {
    let missing_version = JsonRpcRequest::from_json(&json(r#"{"id":1,"method":"ping"}"#));
    assert_eq!(missing_version.unwrap_err(), "missing field `jsonrpc`");
    let missing_method = JsonRpcRequest::from_json(&json(r#"{"jsonrpc":"2.0","id":1}"#));
    assert_eq!(missing_method.unwrap_err(), "missing field `method`");
    let bad_version = JsonRpcRequest::from_json(&json(r#"{"jsonrpc":2,"method":"ping"}"#));
    assert_eq!(bad_version.unwrap_err(), "field `jsonrpc` is not a string");
    let bad_method = JsonRpcRequest::from_json(&json(r#"{"jsonrpc":"2.0","method":null}"#));
    assert_eq!(bad_method.unwrap_err(), "field `method` is not a string");
    let no_object = JsonRpcRequest::from_json(&json(r#"["2.0",1,"ping"]"#));
    assert_eq!(no_object.unwrap_err(), "missing field `jsonrpc`");
    let number = JsonRpcRequest::from_json(&json("42"));
    assert_eq!(number.unwrap_err(), "missing field `jsonrpc`");
}

#[test]
fn success_response_has_result_and_no_error() {
    let r = JsonRpcResponse {
        jsonrpc: "2.0".to_string(),
        id: Some(json("7")),
        result: Some(json("{}")),
        error: None,
    };
    assert_eq!(r.to_json(), json(r#"{"jsonrpc":"2.0","id":7,"result":{}}"#));
}

#[test]
fn error_response_has_error_and_no_result() {
    let r = JsonRpcResponse {
        jsonrpc: "2.0".to_string(),
        id: Some(json(r#""x""#)),
        result: None,
        error: Some(JsonRpcError { code: -32601, message: "Method not found: x".to_string(), data: None }),
    };
    assert_eq!(
        r.to_json(),
        json(r#"{"jsonrpc":"2.0","id":"x","error":{"code":-32601,"message":"Method not found: x"}}"#)
    );
}

#[test]
fn response_without_id_has_a_null_id() {
    let r = JsonRpcResponse {
        jsonrpc: "2.0".to_string(),
        id: None,
        result: None,
        error: Some(JsonRpcError { code: -32700, message: "Parse error: x".to_string(), data: None }),
    };
    assert_eq!(
        r.to_json(),
        json(r#"{"jsonrpc":"2.0","id":null,"error":{"code":-32700,"message":"Parse error: x"}}"#)
    );
}

#[test]
fn error_data_is_left_out_when_absent() {
    let without = JsonRpcError { code: 1, message: "m".to_string(), data: None };
    assert_eq!(without.to_json(), json(r#"{"code":1,"message":"m"}"#));
    let with = JsonRpcError { code: i32::MIN, message: "m".to_string(), data: Some(json("[1]")) };
    assert_eq!(with.to_json(), json(r#"{"code":-2147483648,"message":"m","data":[1]}"#));
    let max = JsonRpcError { code: i32::MAX, message: "".to_string(), data: Some(json("null")) };
    assert_eq!(max.to_json(), json(r#"{"code":2147483647,"message":"","data":null}"#));
}

#[test]
fn initialize_result_encoding() {
    let r = InitializeResult {
        protocol_version: "2024-11-05".to_string(),
        capabilities: ServerCapabilities {
            tools: ToolsCapability { list_changed: true },
            resources: ResourcesCapability { list_changed: false, subscribe: true },
        },
        server_info: ServerInfo { name: "n".to_string(), version: "v".to_string() },
    };
    assert_eq!(
        r.to_json(),
        json(
            r#"{"protocolVersion":"2024-11-05",
                "capabilities":{"tools":{"listChanged":true},"resources":{"listChanged":false,"subscribe":true}},
                "serverInfo":{"name":"n","version":"v"}}"#
        )
    );
}

#[test]
fn tool_and_resource_encodings() {
    let t = Tool {
        name: "n".to_string(),
        description: "d".to_string(),
        input_schema: json(r#"{"type":"object"}"#),
    };
    assert_eq!(t.to_json(), json(r#"{"name":"n","description":"d","inputSchema":{"type":"object"}}"#));
    let r = Resource {
        uri: "u".to_string(),
        name: "n".to_string(),
        description: "d".to_string(),
        mime_type: "text/plain".to_string(),
    };
    assert_eq!(r.to_json(), json(r#"{"uri":"u","name":"n","description":"d","mimeType":"text/plain"}"#));
    let c = ResourceContent {
        uri: "u".to_string(),
        mime_type: "text/plain".to_string(),
        text: "line\n\"quoted\"".to_string(),
    };
    assert_eq!(
        c.to_json(),
        json(r#"{"uri":"u","mimeType":"text/plain","text":"line\n\"quoted\""}"#)
    );
}

#[test]
fn tool_result_encoding() {
    let ok = ToolResult::from_outcome(Ok("fine".to_string()));
    assert_eq!(ok.is_error, None);
    assert_eq!(ok.to_json(), json(r#"{"content":[{"type":"text","text":"fine"}]}"#));
    let failed = ToolResult::from_outcome(Err("bad".to_string()));
    assert_eq!(failed.is_error, Some(true));
    assert_eq!(
        failed.to_json(),
        json(r#"{"content":[{"type":"text","text":"bad"}],"isError":true}"#)
    );
    let several = ToolResult {
        content: vec![
            ToolContent { content_type: "text".to_string(), text: "a".to_string() },
            ToolContent { content_type: "text".to_string(), text: "b".to_string() },
        ],
        is_error: Some(false),
    };
    assert_eq!(
        several.to_json(),
        json(r#"{"content":[{"type":"text","text":"a"},{"type":"text","text":"b"}],"isError":false}"#)
    );
}
