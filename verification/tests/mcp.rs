use tapedeck::doctor::{deps, DoctorChecks};
use tapedeck::mcp::{
    execute, handle_message, inspect_reply, list, protocol_version, server_name, tool_reply,
    Incoming, Reply, ReplyBody, RpcMessage, ServerState, Step, ToolAction, ToolArgs, ToolError,
    ToolOutcome,
};

/// The string, integer and boolean members of a JSON object of arguments.
fn tool_args(arguments: Option<&serde_json::Value>) -> ToolArgs {
    let mut args = ToolArgs { text: Vec::new(), integer: Vec::new(), flag: Vec::new() };
    if let Some(serde_json::Value::Object(map)) = arguments {
        for (k, v) in map {
            if let Some(s) = v.as_str() {
                args.text.push((k.clone(), s.to_owned()));
            } else if let Some(b) = v.as_bool() {
                args.flag.push((k.clone(), b));
            } else if let Some(u) = v.as_u64() {
                args.integer.push((k.clone(), u));
            }
        }
    }
    args
}

fn no_args() -> ToolArgs {
    ToolArgs { text: Vec::new(), integer: Vec::new(), flag: Vec::new() }
}

/// Reads one JSON-RPC line the way the stdio loop does.
fn incoming(line: &str) -> Incoming {
    match serde_json::from_str::<serde_json::Value>(line) {
        Err(e) => Incoming::Malformed(e.to_string()),
        Ok(v) => Incoming::Message(RpcMessage {
            id: v.get("id").map(|i| i.to_string()),
            method: v.get("method").and_then(|m| m.as_str()).map(str::to_owned),
            protocol_version: v
                .get("params")
                .and_then(|p| p.get("protocolVersion"))
                .and_then(|x| x.as_str())
                .map(str::to_owned),
            tool_name: v
                .get("params")
                .and_then(|p| p.get("name"))
                .and_then(|x| x.as_str())
                .map(str::to_owned),
            arguments: tool_args(v.get("params").and_then(|p| p.get("arguments"))),
        }),
    }
}

fn step(line: &str, state: &mut ServerState) -> Step {
    handle_message(&incoming(line), state).expect("應有 response")
}

fn handle(line: &str, state: &mut ServerState) -> Reply {
    match step(line, state) {
        Step::Send(r) => r,
        Step::Perform(..) => panic!("expected a reply"),
    }
}

fn checks(all_ok: bool) -> DoctorChecks {
    DoctorChecks {
        deps_available: vec![all_ok; deps().len()],
        uinput_device: all_ok,
        uinput_module: all_ok,
        uinput_writable: all_ok,
        dri: false,
        encoders: 0,
        save_error: None,
    }
}

const INIT: &str = r#"{"jsonrpc":"2.0","id":1,"method":"initialize","params":{
    "protocolVersion":"2025-06-18","capabilities":{},
    "clientInfo":{"name":"test","version":"0.1"}}}"#;

#[test]
fn initialize_handshake_returns_negotiated_version() {
    let mut s = ServerState::default();
    let resp = handle(INIT, &mut s);
    assert_eq!(resp, Reply::Result("1".to_owned(), ReplyBody::Initialize(protocol_version())));
    assert_eq!(protocol_version(), "2025-06-18");
    assert_eq!(server_name(), "tapedeck");
    assert!(s.initialized);
}

#[test]
fn initialized_notification_returns_none() {
    let mut s = ServerState::default();
    let _ = handle(INIT, &mut s);
    assert!(handle_message(
        &incoming(r#"{"jsonrpc":"2.0","method":"notifications/initialized"}"#),
        &mut s
    )
    .is_none());
}

#[test]
fn tools_list_returns_six_tools() {
    let mut s = ServerState::default();
    let _ = handle(INIT, &mut s);
    let resp = handle(r#"{"jsonrpc":"2.0","id":2,"method":"tools/list"}"#, &mut s);
    assert_eq!(resp, Reply::Result("2".to_owned(), ReplyBody::Tools));
    let tools = list();
    assert_eq!(tools.len(), 6);
    let names: Vec<&str> = tools.iter().map(|t| t.name.as_str()).collect();
    assert!(names.contains(&"tapedeck_run"));
    assert!(names.contains(&"tapedeck_clean"));
}

#[test]
fn ping_returns_empty_result() {
    let mut s = ServerState::default();
    let _ = handle(INIT, &mut s);
    let resp = handle(r#"{"jsonrpc":"2.0","id":3,"method":"ping"}"#, &mut s);
    assert_eq!(resp, Reply::Result("3".to_owned(), ReplyBody::Empty));
}

#[test]
fn unknown_method_returns_32601() {
    let mut s = ServerState::default();
    let _ = handle(INIT, &mut s);
    let resp = handle(r#"{"jsonrpc":"2.0","id":4,"method":"bogus"}"#, &mut s);
    match resp {
        Reply::Error(_, code, _) => assert_eq!(code, -32601),
        other => panic!("unexpected {other:?}"),
    }
}

#[test]
fn request_before_initialize_is_rejected() {
    let mut s = ServerState::default();
    let resp = handle(r#"{"jsonrpc":"2.0","id":1,"method":"tools/list"}"#, &mut s);
    match resp {
        Reply::Error(_, code, _) => assert_eq!(code, -32000),
        other => panic!("unexpected {other:?}"),
    }
}

// ── own tests ──

#[test]
fn parse_error_and_tool_calls() {
    let mut s = ServerState::default();
    let resp = handle("{not json", &mut s);
    match resp {
        Reply::Error(id, code, msg) => {
            assert_eq!(id, "null");
            assert_eq!(code, -32700);
            assert!(msg.starts_with("Parse error: "));
        }
        other => panic!("unexpected {other:?}"),
    }
    let _ = handle(INIT, &mut s);
    let resp = handle(
        r#"{"jsonrpc":"2.0","id":"a","method":"tools/call","params":{"name":"tapedeck_run"}}"#,
        &mut s,
    );
    assert_eq!(
        resp,
        Reply::Result("\"a\"".to_owned(), ReplyBody::ToolFailure("缺少參數：script".to_owned()))
    );
    let resp = handle(r#"{"jsonrpc":"2.0","id":5,"method":"tools/call","params":{"name":"nope"}}"#, &mut s);
    assert_eq!(resp, Reply::Error("5".to_owned(), -32602, "Unknown tool: nope".to_owned()));
}

#[test]
fn ping_allowed_before_initialize_and_state_kept() {
    let mut s = ServerState::default();
    let resp = handle(r#"{"jsonrpc":"2.0","id":9,"method":"ping"}"#, &mut s);
    assert_eq!(resp, Reply::Result("9".to_owned(), ReplyBody::Empty));
    assert!(!s.initialized);
    assert!(handle_message(&incoming(r#"{"jsonrpc":"2.0","id":1,"result":{}}"#), &mut s).is_none());
}

#[test]
fn execute_distinguishes_unknown_tools() {
    assert_eq!(
        execute("tapedeck_x", &no_args()).err(),
        Some(ToolError::Unknown("tapedeck_x".to_owned()))
    );
    assert!(matches!(
        execute("tapedeck_clean", &no_args()),
        Ok(ToolOutcome::Perform(ToolAction::Clean { dry_run: true }))
    ));
}

#[test]
fn handshake_tools_list_and_error_paths() {
    let mut s = ServerState::default();
    // 1. initialize
    let resp = handle(INIT, &mut s);
    assert_eq!(resp, Reply::Result("1".to_owned(), ReplyBody::Initialize("2025-06-18".to_owned())));
    assert_eq!(server_name(), "tapedeck");
    assert!(handle_message(
        &incoming(r#"{"jsonrpc":"2.0","method":"notifications/initialized"}"#),
        &mut s
    )
    .is_none());

    // 2. tools/list: six tools, each with an object schema
    let resp = handle(r#"{"jsonrpc":"2.0","id":2,"method":"tools/list"}"#, &mut s);
    assert_eq!(resp, Reply::Result("2".to_owned(), ReplyBody::Tools));
    let tools = list();
    assert_eq!(tools.len(), 6, "六工具");
    let names: Vec<&str> = tools.iter().map(|t| t.name.as_str()).collect();
    for expected in [
        "tapedeck_run",
        "tapedeck_inspect_environment",
        "tapedeck_extract_frames",
        "tapedeck_link",
        "tapedeck_optimize",
        "tapedeck_clean",
    ] {
        assert!(names.contains(&expected), "缺少工具 {expected}");
    }
    for t in &tools {
        let schema: serde_json::Value = serde_json::from_str(&t.input_schema).expect("schema JSON");
        assert!(schema.is_object(), "inputSchema 缺失: {}", t.name);
    }

    // 3. unknown method -> -32601
    match handle(r#"{"jsonrpc":"2.0","id":3,"method":"foo/bar"}"#, &mut s) {
        Reply::Error(_, code, _) => assert_eq!(code, -32601),
        other => panic!("unexpected {other:?}"),
    }

    // 4. unknown tool -> -32602
    match handle(
        r#"{"jsonrpc":"2.0","id":4,"method":"tools/call","params":{"name":"no_such_tool","arguments":{}}}"#,
        &mut s,
    ) {
        Reply::Error(_, code, _) => assert_eq!(code, -32602),
        other => panic!("unexpected {other:?}"),
    }

    // 5. missing argument -> isError (tapedeck_link without media_file)
    match handle(
        r#"{"jsonrpc":"2.0","id":5,"method":"tools/call","params":{"name":"tapedeck_link","arguments":{}}}"#,
        &mut s,
    ) {
        Reply::Result(id, ReplyBody::ToolFailure(text)) => {
            assert_eq!(id, "5");
            assert!(text.contains("缺少參數"), "錯誤訊息: {text}");
        }
        other => panic!("缺參數應 isError: {other:?}"),
    }
}

#[test]
fn inspect_environment_reports_text() {
    let mut s = ServerState::default();
    let _ = handle(INIT, &mut s);
    let st = step(
        r#"{"jsonrpc":"2.0","id":2,"method":"tools/call","params":{"name":"tapedeck_inspect_environment","arguments":{}}}"#,
        &mut s,
    );
    let (id, action) = match st {
        Step::Perform(id, action) => (id, action),
        Step::Send(r) => panic!("unexpected {r:?}"),
    };
    assert_eq!(id, "2");
    assert!(matches!(action, ToolAction::InspectEnvironment));
    match inspect_reply(&id, &checks(true)) {
        Reply::Result(rid, ReplyBody::ToolText(text)) => {
            assert_eq!(rid, "2");
            assert!(
                text.contains("Checking system dependencies")
                    && text.contains("Input Provider Diagnostic"),
                "doctor 摘要內容: {text:?}"
            );
        }
        other => panic!("unexpected {other:?}"),
    }
}

#[test]
fn link_tool_answers_with_markup() {
    let mut s = ServerState::default();
    let _ = handle(INIT, &mut s);
    let resp = handle(
        r#"{"jsonrpc":"2.0","id":7,"method":"tools/call","params":{"name":"tapedeck_link","arguments":{"media_file":"/tmp/demo.gif"}}}"#,
        &mut s,
    );
    assert_eq!(resp, Reply::Result("7".to_owned(), ReplyBody::ToolText("![](/tmp/demo.gif)".to_owned())));
    let resp = handle(
        r#"{"jsonrpc":"2.0","id":8,"method":"tools/call","params":{"name":"tapedeck_link","arguments":{"media_file":"a.gif","format":"rst"}}}"#,
        &mut s,
    );
    assert_eq!(
        resp,
        Reply::Result(
            "8".to_owned(),
            ReplyBody::ToolFailure("不支援的格式 'rst'，支援：md, html, zola".to_owned())
        )
    );
}

#[test]
fn tool_calls_hand_their_arguments_to_the_action() {
    let args = tool_args(Some(&serde_json::from_str(r#"{"input": "a.gif", "fps": 12}"#).unwrap()));
    match execute("tapedeck_optimize", &args) {
        Ok(ToolOutcome::Perform(ToolAction::Optimize { input, format, quality, fps })) => {
            assert_eq!(input, "a.gif");
            assert_eq!(format, None);
            assert_eq!(quality, 80);
            assert_eq!(fps, 12);
        }
        _ => panic!("expected an optimize action"),
    }
    let args = tool_args(Some(&serde_json::from_str(r#"{"script": "Type \"ls\"", "max_size": 5}"#).unwrap()));
    match execute("tapedeck_run", &args) {
        Ok(ToolOutcome::Perform(ToolAction::Run { script, output, max_size })) => {
            assert_eq!(script, "Type \"ls\"");
            assert_eq!(output, None);
            assert_eq!(max_size, Some(5));
        }
        _ => panic!("expected a run action"),
    }
    let args = tool_args(Some(&serde_json::from_str(r#"{"media": "x.webm"}"#).unwrap()));
    assert!(matches!(
        execute("tapedeck_extract_frames", &args),
        Ok(ToolOutcome::Perform(ToolAction::ExtractFrames { count: 8, .. }))
    ));
    let args = tool_args(Some(&serde_json::from_str(r#"{"dry_run": false}"#).unwrap()));
    assert!(matches!(
        execute("tapedeck_clean", &args),
        Ok(ToolOutcome::Perform(ToolAction::Clean { dry_run: false }))
    ));
    assert_eq!(
        tool_reply("3", Ok("錄製完成".to_owned())),
        Reply::Result("3".to_owned(), ReplyBody::ToolText("錄製完成".to_owned()))
    );
    assert_eq!(
        tool_reply("3", Err("boom".to_owned())),
        Reply::Result("3".to_owned(), ReplyBody::ToolFailure("boom".to_owned()))
    );
}
