use prompt_forge::models::Agent;
use prompt_forge::models::Instruction;
use prompt_forge::models::InstructionCategory;
use prompt_forge::models::Personality;
use prompt_forge::models::Skill;
use prompt_forge::models::SkillDefinition;
use prompt_forge::models::SkillType;
use prompt_forge::protocol::JsonRpcRequest;
use prompt_forge::server::decode_line;
use prompt_forge::server::parse_error_response;
use prompt_forge::server::wants_reload;
use prompt_forge::snapshot::McpServer;
use prompt_forge::snapshot::Snapshot;
use serde_json::Value;

fn json(text: &str) -> Value {
    serde_json::from_str(text).unwrap()
}

fn agent(id: &str, name: &str) -> Agent {
    Agent {
        id: id.to_string(),
        name: name.to_string(),
        description: format!("About {}", name),
        avatar_emoji: "\u{1F916}".to_string(),
        personality: Personality {
            tone: "friendly".to_string(),
            verbosity: "balanced".to_string(),
            creativity: Value::from(0.5),
            formality: Value::from(0.5),
            traits: vec![],
        },
        system_prompt: "You help.".to_string(),
        skills: vec![],
        instructions: vec!["i1".to_string()],
        tags: vec![],
        created_at: "2024-01-01T00:00:00Z".to_string(),
        updated_at: "2024-01-01T00:00:00Z".to_string(),
        usage_count: 2,
        last_used_at: Some("2024-02-01T00:00:00Z".to_string()),
    }
}

fn instruction(id: &str, name: &str, content: &str, priority: u8) -> Instruction {
    Instruction {
        id: id.to_string(),
        name: name.to_string(),
        description: "An instruction".to_string(),
        icon_emoji: "\u{1F4CB}".to_string(),
        category: InstructionCategory::General,
        content: content.to_string(),
        priority,
        tags: vec![],
        enabled: true,
        created_at: "2024-01-01T00:00:00Z".to_string(),
        updated_at: "2024-01-01T00:00:00Z".to_string(),
    }
}

fn snapshot() -> Snapshot {
    Snapshot {
        agents: vec![agent("a1", "Helper"), agent("a2", "Writer")],
        skills: vec![Skill {
            id: "s1".to_string(),
            name: "Review".to_string(),
            description: "A skill".to_string(),
            icon_emoji: "\u{26A1}".to_string(),
            skill_type: SkillType::Prompt,
            definition: SkillDefinition::Prompt { template: "Do it.".to_string() },
            enabled: true,
            created_at: "2024-01-01T00:00:00Z".to_string(),
            updated_at: "2024-01-01T00:00:00Z".to_string(),
        }],
        instructions: vec![instruction("i1", "Low", "X", 3), instruction("i2", "High", "Y", 9)],
    }
}

fn server() -> McpServer {
    let mut s = McpServer::new();
    s.load_data(snapshot());
    s
}

fn answer(s: &McpServer, line: &str) -> Value {
    let outcome = s.handle_line(line);
    let text = outcome.output.expect("the line is answered");
    assert!(!text.contains('\n'));
    json(&text)
}

fn has_exactly_one_of_result_and_error(v: &Value) -> bool {
    v.get("result").is_some() != v.get("error").is_some()
}

#[test]
fn new_server_has_no_records() {
    let s = McpServer::new();
    assert!(s.snapshot().agents.is_empty());
    assert!(s.snapshot().skills.is_empty());
    assert!(s.snapshot().instructions.is_empty());
}

#[test]
fn load_data_replaces_the_snapshot_as_a_whole() {
    let mut s = server();
    assert_eq!(s.snapshot().agents.len(), 2);
    s.load_data(Snapshot { agents: vec![agent("b", "Other")], skills: vec![], instructions: vec![] });
    assert_eq!(s.snapshot().agents.len(), 1);
    assert_eq!(s.snapshot().agents[0].id, "b");
    assert!(s.snapshot().skills.is_empty());
    assert!(s.snapshot().instructions.is_empty());
}

#[test]
fn empty_line_is_ignored() {
    let outcome = server().handle_line("");
    assert_eq!(outcome.output, None);
    assert!(!outcome.reload);
}

#[test]
fn line_of_white_space_is_ignored() {
    let s = server();
    for line in [" ", "\t", "   \t  ", "\r", " \u{A0} ", "\u{2003}\u{3000}"] {
        let outcome = s.handle_line(line);
        assert_eq!(outcome.output, None, "{:?}", line);
        assert!(!outcome.reload);
    }
}

#[test]
fn white_space_around_a_message_does_not_hide_it() {
    let s = server();
    let v = answer(&s, "  {\"jsonrpc\":\"2.0\",\"id\":1,\"method\":\"ping\"}\t");
    assert_eq!(v, json(r#"{"jsonrpc":"2.0","id":1,"result":{}}"#));
    let reload = s.handle_line(" {\"jsonrpc\":\"2.0\",\"method\":\"notifications/reload\"} ");
    assert!(reload.reload);
    assert_eq!(reload.output, None);
}

#[test]
fn answers_are_as_many_as_the_lines_that_call_for_one() {
    let s = server();
    let lines = [
        "",
        r#"{"jsonrpc":"2.0","id":1,"method":"ping"}"#,
        "   ",
        r#"{"jsonrpc":"2.0","method":"ping"}"#,
        "nonsense",
        r#"{"jsonrpc":"2.0","id":2,"method":"nothing"}"#,
        "\t",
        r#"{"id":3}"#,
        r#"{"jsonrpc":"2.0","method":"notifications/reload"}"#,
    ];
    let answers: Vec<Value> =
        lines.iter().filter_map(|l| s.handle_line(l).output).map(|t| json(&t)).collect();
    assert_eq!(answers.len(), 4);
    assert_eq!(answers[0]["id"], 1);
    assert_eq!(answers[1]["id"], Value::Null);
    assert_eq!(answers[1]["error"]["code"], -32700);
    assert_eq!(answers[2]["id"], 2);
    assert_eq!(answers[2]["error"]["code"], -32601);
    assert_eq!(answers[3]["id"], Value::Null);
    assert_eq!(answers[3]["error"]["code"], -32700);
}

#[test]
fn answer_decides_on_what_was_decoded() {
    let s = server();
    let failed = s.answer(Err("boom".to_string()));
    assert!(!failed.reload);
    let response = failed.response.unwrap();
    assert_eq!(response.id, None);
    assert_eq!(response.result, None);
    let error = response.error.unwrap();
    assert_eq!(error.code, -32700);
    assert_eq!(error.message, "Parse error: boom");

    let note = s.answer(Ok(JsonRpcRequest {
        jsonrpc: "2.0".to_string(),
        id: None,
        method: "tools/list".to_string(),
        params: None,
    }));
    assert!(note.response.is_none());
    assert!(!note.reload);

    let reload = s.answer(Ok(JsonRpcRequest {
        jsonrpc: "2.0".to_string(),
        id: None,
        method: "notifications/reload".to_string(),
        params: None,
    }));
    assert!(reload.response.is_none());
    assert!(reload.reload);

    let request = s.answer(Ok(JsonRpcRequest {
        jsonrpc: "2.0".to_string(),
        id: Some(json("\"q\"")),
        method: "ping".to_string(),
        params: None,
    }));
    assert!(!request.reload);
    let response = request.response.unwrap();
    assert_eq!(response.id, Some(json("\"q\"")));
    assert_eq!(response.result, Some(json("{}")));
    assert!(response.error.is_none());

    let asked = s.answer(Ok(JsonRpcRequest {
        jsonrpc: "2.0".to_string(),
        id: Some(json("5")),
        method: "notifications/reload".to_string(),
        params: None,
    }));
    assert!(asked.reload);
    assert_eq!(asked.response.unwrap().result, Some(json(r#"{"reloaded":true}"#)));
}

#[test]
fn notification_is_never_answered() {
    let s = server();
    for line in [
        r#"{"jsonrpc":"2.0","method":"initialized"}"#,
        r#"{"jsonrpc":"2.0","method":"ping"}"#,
        r#"{"jsonrpc":"2.0","method":"tools/list"}"#,
        r#"{"jsonrpc":"2.0","method":"tools/call"}"#,
        r#"{"jsonrpc":"2.0","method":"tools/call","params":{"name":"no_such_tool"}}"#,
        r#"{"jsonrpc":"2.0","method":"resources/read","params":{"uri":"nowhere"}}"#,
        r#"{"jsonrpc":"2.0","method":"no/such/method"}"#,
        r#"{"jsonrpc":"2.0","id":null,"method":"no/such/method"}"#,
    ] {
        let outcome = s.handle_line(line);
        assert_eq!(outcome.output, None, "{}", line);
        assert!(!outcome.reload);
    }
}

#[test]
fn request_is_answered_once_with_its_id() {
    let s = server();
    for (line, id) in [
        (r#"{"jsonrpc":"2.0","id":1,"method":"ping"}"#, "1"),
        (r#"{"jsonrpc":"2.0","id":"abc","method":"initialize"}"#, r#""abc""#),
        (r#"{"jsonrpc":"2.0","id":0,"method":"tools/list"}"#, "0"),
        (r#"{"jsonrpc":"2.0","id":-5,"method":"tools/call"}"#, "-5"),
        (r#"{"jsonrpc":"2.0","id":2.5,"method":"resources/list"}"#, "2.5"),
        (r#"{"jsonrpc":"2.0","id":[1],"method":"resources/read"}"#, "[1]"),
        (r#"{"jsonrpc":"2.0","id":false,"method":"nothing"}"#, "false"),
        (r#"{"jsonrpc":"1.0","id":"","method":""}"#, r#""""#),
    ] {
        let v = answer(&s, line);
        assert_eq!(v["jsonrpc"], "2.0");
        assert_eq!(v["id"], json(id), "{}", line);
        assert!(has_exactly_one_of_result_and_error(&v), "{}", line);
    }
}

#[test]
fn malformed_json_gets_a_parse_error_without_id() {
    let s = server();
    for line in ["{", "not json", "{\"jsonrpc\":\"2.0\",\"id\":1,\"method\":\"ping\"} trailing", " {", "[1,2"] {
        let outcome = s.handle_line(line);
        assert!(!outcome.reload);
        let v = json(&outcome.output.expect("a parse error is reported"));
        assert_eq!(v["jsonrpc"], "2.0");
        assert_eq!(v.get("id"), Some(&Value::Null));
        assert_eq!(v["error"]["code"], -32700);
        assert!(v["error"]["message"].as_str().unwrap().starts_with("Parse error: "));
        assert_eq!(v["error"].get("data"), None);
        assert_eq!(v.get("result"), None);
    }
}

#[test]
fn parse_error_carries_the_message_of_the_parser() {
    let v = answer(&server(), "{");
    let detail = serde_json::from_str::<Value>("{").unwrap_err().to_string();
    assert_eq!(v["error"]["message"], format!("Parse error: {}", detail));
}

#[test]
fn json_that_is_no_message_gets_a_parse_error_without_id() {
    let s = server();
    let v = answer(&s, r#"{"id":1,"method":"ping"}"#);
    assert_eq!(v, json(r#"{"jsonrpc":"2.0","id":null,"error":{"code":-32700,"message":"Parse error: missing field `jsonrpc`"}}"#));
    let w = answer(&s, r#"{"jsonrpc":"2.0","id":1}"#);
    assert_eq!(w["error"]["message"], "Parse error: missing field `method`");
    assert_eq!(w["id"], Value::Null);
    let x = answer(&s, "17");
    assert_eq!(x["error"]["code"], -32700);
}

#[test]
fn ping_and_initialized_answer_an_empty_object() {
    let s = server();
    assert_eq!(
        answer(&s, r#"{"jsonrpc":"2.0","id":1,"method":"ping"}"#),
        json(r#"{"jsonrpc":"2.0","id":1,"result":{}}"#)
    );
    assert_eq!(
        answer(&s, r#"{"jsonrpc":"2.0","id":2,"method":"initialized"}"#),
        json(r#"{"jsonrpc":"2.0","id":2,"result":{}}"#)
    );
}

#[test]
fn initialize_answers_the_fixed_descriptor_at_any_time() {
    let s = server();
    let expected = json(
        r#"{"jsonrpc":"2.0","id":1,"result":{
            "protocolVersion":"2024-11-05",
            "capabilities":{"tools":{"listChanged":false},"resources":{"listChanged":false,"subscribe":false}},
            "serverInfo":{"name":"prompt-forge","version":"0.1.0"}}}"#,
    );
    let line = r#"{"jsonrpc":"2.0","id":1,"method":"initialize","params":{"anything":1}}"#;
    assert_eq!(answer(&s, r#"{"jsonrpc":"2.0","id":1,"method":"ping"}"#)["result"], json("{}"));
    assert_eq!(answer(&s, line), expected);
    assert_eq!(answer(&s, line), expected);
    assert_eq!(s.handle_initialize().unwrap(), expected["result"]);
}

#[test]
fn unknown_method_is_named_in_the_error() {
    let s = server();
    let v = answer(&s, r#"{"jsonrpc":"2.0","id":9,"method":"tools/List"}"#);
    assert_eq!(
        v,
        json(r#"{"jsonrpc":"2.0","id":9,"error":{"code":-32601,"message":"Method not found: tools/List"}}"#)
    );
    let w = answer(&s, r#"{"jsonrpc":"2.0","id":9,"method":"Ping"}"#);
    assert_eq!(w["error"]["code"], -32601);
    assert_eq!(w["error"]["message"], "Method not found: Ping");
}

#[test]
fn tools_list_answers_six_descriptors() {
    let v = answer(&server(), r#"{"jsonrpc":"2.0","id":1,"method":"tools/list"}"#);
    let tools = v["result"]["tools"].as_array().unwrap();
    let names: Vec<&str> = tools.iter().map(|t| t["name"].as_str().unwrap()).collect();
    assert_eq!(
        names,
        vec!["get_agent", "list_agents", "get_instructions", "get_skill", "list_skills", "apply_agent"]
    );
    for t in tools {
        assert!(t["description"].is_string());
        assert_eq!(t["inputSchema"]["type"], "object");
        assert!(t["inputSchema"]["properties"].is_object());
    }
    assert_eq!(tools[5]["inputSchema"]["required"], json(r#"["agent_id"]"#));
    assert_eq!(tools[2]["inputSchema"].get("required"), None);
}

#[test]
fn tools_call_without_name_is_invalid_params() {
    let s = server();
    let v = answer(&s, r#"{"jsonrpc":"2.0","id":1,"method":"tools/call","params":{"arguments":{}}}"#);
    assert_eq!(
        v,
        json(r#"{"jsonrpc":"2.0","id":1,"error":{"code":-32602,"message":"Missing tool name"}}"#)
    );
    let w = answer(&s, r#"{"jsonrpc":"2.0","id":1,"method":"tools/call","params":{"name":5}}"#);
    assert_eq!(w["error"]["code"], -32602);
    assert_eq!(w["error"]["message"], "Missing tool name");
    assert_eq!(w.get("result"), None);
}

#[test]
fn tools_call_without_params_is_invalid_params() {
    let s = server();
    let v = answer(&s, r#"{"jsonrpc":"2.0","id":1,"method":"tools/call"}"#);
    assert_eq!(
        v,
        json(r#"{"jsonrpc":"2.0","id":1,"error":{"code":-32602,"message":"Invalid params"}}"#)
    );
    let w = answer(&s, r#"{"jsonrpc":"2.0","id":1,"method":"tools/call","params":null}"#);
    assert_eq!(w["error"]["message"], "Invalid params");
}

#[test]
fn tools_call_of_an_unknown_tool_succeeds_with_error_flag() {
    let v = answer(
        &server(),
        r#"{"jsonrpc":"2.0","id":1,"method":"tools/call","params":{"name":"no_such_tool"}}"#,
    );
    assert_eq!(
        v,
        json(
            r#"{"jsonrpc":"2.0","id":1,"result":{"content":[{"type":"text","text":"Unknown tool: no_such_tool"}],"isError":true}}"#
        )
    );
}

#[test]
fn tools_call_success_has_no_error_flag() {
    let s = server();
    let v = answer(
        &s,
        r#"{"jsonrpc":"2.0","id":1,"method":"tools/call","params":{"name":"apply_agent","arguments":{"agent_id":"a1"}}}"#,
    );
    assert_eq!(v["result"].get("isError"), None);
    assert_eq!(v["result"]["content"].as_array().unwrap().len(), 1);
    assert_eq!(v["result"]["content"][0]["type"], "text");
    assert_eq!(
        v["result"]["content"][0]["text"],
        "# Agent Configuration\n\n**Agent:** \u{1F916} Helper\n\n**Tone:** friendly | **Verbosity:** balanced\n\n\
## System Prompt\n\nYou help.\n\n\
## Attached Instructions\n\n### \u{1F4CB} Low\nX\n\n\
## Global Instructions\n\n### \u{1F4CB} High (general)\nY\n\n"
    );
}

#[test]
fn tools_call_domain_failure_is_a_tool_error() {
    let s = server();
    let v = answer(
        &s,
        r#"{"jsonrpc":"2.0","id":1,"method":"tools/call","params":{"name":"get_agent","arguments":{"agent_id":"ghost"}}}"#,
    );
    assert_eq!(v.get("error"), None);
    assert_eq!(v["result"]["isError"], true);
    assert_eq!(
        v["result"]["content"][0]["text"],
        "Agent not found: 'ghost'. Use list_agents to see available agents."
    );
    let w = answer(&s, r#"{"jsonrpc":"2.0","id":1,"method":"tools/call","params":{"name":"get_agent"}}"#);
    assert_eq!(w["result"]["isError"], true);
    assert_eq!(w["result"]["content"][0]["text"], "Missing agent_id");
}

#[test]
fn tools_call_get_instructions_without_match() {
    let v = answer(
        &server(),
        r#"{"jsonrpc":"2.0","id":1,"method":"tools/call","params":{"name":"get_instructions","arguments":{"category":"testing"}}}"#,
    );
    assert_eq!(v["result"].get("isError"), None);
    assert_eq!(v["result"]["content"][0]["text"], "No instructions found.");
}

#[test]
fn resources_list_has_one_per_agent_and_the_instructions() {
    let v = answer(&server(), r#"{"jsonrpc":"2.0","id":1,"method":"resources/list"}"#);
    assert_eq!(
        v["result"],
        json(
            r#"{"resources":[
                {"uri":"prompt-forge://agents/a1","name":"Helper","description":"About Helper","mimeType":"application/json"},
                {"uri":"prompt-forge://agents/a2","name":"Writer","description":"About Writer","mimeType":"application/json"},
                {"uri":"prompt-forge://instructions/all","name":"All Instructions","description":"All enabled instructions combined","mimeType":"text/markdown"}]}"#
        )
    );
    let empty = answer(&McpServer::new(), r#"{"jsonrpc":"2.0","id":1,"method":"resources/list"}"#);
    assert_eq!(empty["result"]["resources"].as_array().unwrap().len(), 1);
}

#[test]
fn resources_read_instructions_by_priority() {
    let s = server();
    let v = answer(
        &s,
        r#"{"jsonrpc":"2.0","id":1,"method":"resources/read","params":{"uri":"prompt-forge://instructions/all"}}"#,
    );
    let contents = v["result"]["contents"].as_array().unwrap();
    assert_eq!(contents.len(), 1);
    assert_eq!(contents[0]["uri"], "prompt-forge://instructions/all");
    assert_eq!(contents[0]["mimeType"], "text/markdown");
    assert_eq!(
        contents[0]["text"],
        "# Prompt Forge Instructions\n\n\
## \u{1F4CB} High (Priority: 9)\n*Category: general*\n\nY\n\n---\n\n\
## \u{1F4CB} Low (Priority: 3)\n*Category: general*\n\nX\n\n---\n\n"
    );
    assert_eq!(contents[0]["text"], s.get_all_instructions_markdown());
}

#[test]
fn resources_read_agent_as_pretty_json() {
    let v = answer(
        &server(),
        r#"{"jsonrpc":"2.0","id":1,"method":"resources/read","params":{"uri":"prompt-forge://agents/a2"}}"#,
    );
    let content = &v["result"]["contents"][0];
    assert_eq!(content["uri"], "prompt-forge://agents/a2");
    assert_eq!(content["mimeType"], "application/json");
    let text = content["text"].as_str().unwrap();
    let record = json(text);
    assert_eq!(record["id"], "a2");
    assert_eq!(record["name"], "Writer");
    assert_eq!(record["usage_count"], 2);
    assert_eq!(record["last_used_at"], "2024-02-01T00:00:00Z");
    assert_eq!(record["instructions"], json(r#"["i1"]"#));
    assert_eq!(text, serde_json::to_string_pretty(&record).unwrap());
}

#[test]
fn resources_read_of_an_unknown_address_echoes_it() {
    let s = server();
    for uri in [
        "prompt-forge://agents/nobody",
        "prompt-forge://agents/A1",
        "prompt-forge://agents/a1/",
        "prompt-forge://instructions/all/",
        "prompt-forge://instructions",
        "a1",
        "",
    ] {
        let line = format!(
            r#"{{"jsonrpc":"2.0","id":1,"method":"resources/read","params":{{"uri":"{}"}}}}"#,
            uri
        );
        let v = answer(&s, &line);
        assert_eq!(v["error"]["code"], -32602, "{}", uri);
        assert_eq!(v["error"]["message"], format!("Resource not found: {}", uri));
        assert_eq!(v.get("result"), None);
    }
}

#[test]
fn resources_read_without_uri() {
    let s = server();
    let v = answer(&s, r#"{"jsonrpc":"2.0","id":1,"method":"resources/read","params":{}}"#);
    assert_eq!(v["error"], json(r#"{"code":-32602,"message":"Missing uri"}"#));
    let w = answer(&s, r#"{"jsonrpc":"2.0","id":1,"method":"resources/read"}"#);
    assert_eq!(w["error"], json(r#"{"code":-32602,"message":"Invalid params"}"#));
}

#[test]
fn reload_is_asked_for_by_its_method_alone() {
    let s = server();
    let note = s.handle_line(r#"{"jsonrpc":"2.0","method":"notifications/reload"}"#);
    assert!(note.reload);
    assert_eq!(note.output, None);
    let request = s.handle_line(r#"{"jsonrpc":"2.0","id":4,"method":"notifications/reload"}"#);
    assert!(request.reload);
    assert_eq!(
        json(&request.output.unwrap()),
        json(r#"{"jsonrpc":"2.0","id":4,"result":{"reloaded":true}}"#)
    );
    assert!(!s.handle_line(r#"{"jsonrpc":"2.0","id":4,"method":"ping"}"#).reload);
    assert!(!s.handle_line(r#"{"jsonrpc":"2.0","id":4,"method":"Notifications/Reload"}"#).reload);
    assert!(wants_reload("notifications/reload"));
    assert!(!wants_reload("reload"));
}

#[test]
fn answers_come_from_the_snapshot_that_was_loaded_last() {
    let mut s = server();
    let line = r#"{"jsonrpc":"2.0","id":1,"method":"tools/call","params":{"name":"get_agent","arguments":{"agent_id":"a1"}}}"#;
    assert_eq!(answer(&s, line)["result"].get("isError"), None);
    s.load_data(Snapshot::new());
    assert_eq!(answer(&s, line)["result"]["isError"], true);
    s.load_data(snapshot());
    assert_eq!(answer(&s, line)["result"].get("isError"), None);
}

#[test]
fn handle_request_gives_the_response_of_a_notification_too() {
    let s = server();
    let response = s.handle_request(JsonRpcRequest {
        jsonrpc: "2.0".to_string(),
        id: None,
        method: "ping".to_string(),
        params: None,
    });
    assert_eq!(response.jsonrpc, "2.0");
    assert_eq!(response.id, None);
    assert_eq!(response.result, Some(json("{}")));
    assert!(response.error.is_none());
    let failed = s.handle_request(JsonRpcRequest {
        jsonrpc: "2.0".to_string(),
        id: Some(json("3")),
        method: "nope".to_string(),
        params: Some(json("{}")),
    });
    assert_eq!(failed.id, Some(json("3")));
    assert_eq!(failed.result, None);
    let error = failed.error.unwrap();
    assert_eq!(error.code, -32601);
    assert_eq!(error.message, "Method not found: nope");
    assert_eq!(error.data, None);
}

#[test]
fn decode_line_tells_messages_from_other_text() {
    let ok = decode_line(r#"{"jsonrpc":"2.0","id":1,"method":"ping"}"#).unwrap();
    assert_eq!(ok.method, "ping");
    assert_eq!(ok.id, Some(json("1")));
    assert!(decode_line("").is_err());
    assert!(decode_line("nonsense").is_err());
    assert_eq!(decode_line("{}").unwrap_err(), "missing field `jsonrpc`");
}

#[test]
fn parse_error_response_has_the_code_and_no_id() {
    let r = parse_error_response("boom");
    assert_eq!(r.id, None);
    assert_eq!(r.result, None);
    let e = r.error.unwrap();
    assert_eq!(e.code, -32700);
    assert_eq!(e.message, "Parse error: boom");
}
