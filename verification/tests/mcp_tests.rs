use aish::mcp::{argument_text, text_argument, text_argument_or, tool_call_target};
use aish::mcp::{
    decide_request_line, decode_incoming_line, incoming_line, request_decision, IncomingLine, LineDecision,
};
use aish::mcp::{
    answer_id, classify_incoming, method_not_found_message, next_request, parse_error_message, protocol_version,
    route, text_content, tool_error_message, tool_not_found_message, Incoming, JsonRpcRequest, RequestIds, Route,
    TcpTransport, ToolCatalog, UnixSocketTransport, INTERNAL_ERROR, METHOD_NOT_FOUND, PARSE_ERROR,
};

#[test]
fn test_mcp_jsonrpc_request() {
    let req = JsonRpcRequest::new(1, "tools/list", None);
    assert_eq!(req.jsonrpc, "2.0");
    assert_eq!(req.id, Some(1));
    assert_eq!(req.method, "tools/list");

    let notif = JsonRpcRequest::notification("notifications/task/progress", None);
    assert_eq!(notif.id, None);
    assert_eq!(notif.method, "notifications/task/progress");
}

#[test]
fn error_codes_and_version() {
    assert_eq!(PARSE_ERROR, -32700);
    assert_eq!(METHOD_NOT_FOUND, -32601);
    assert_eq!(INTERNAL_ERROR, -32603);
    assert_eq!(protocol_version(), "2024-11-05");
}

#[test]
fn routing() {
    assert_eq!(route("initialize", true), Route::Initialize);
    assert_eq!(route("ping", true), Route::Ping);
    // Notifications get no answer, whatever their method.
    assert_eq!(route("ping", false), Route::Ignore);
    assert_eq!(route("initialize", false), Route::Ignore);
    assert_eq!(route("tools/call", false), Route::Ignore);
    assert_eq!(route("notifications/initialized", true), Route::Initialized);
    assert_eq!(route("tools/list", true), Route::ListTools);
    assert_eq!(route("tools/call", true), Route::CallTool);
    assert_eq!(route("notifications/initialized", false), Route::Initialized);
    assert_eq!(route("resources/list", true), Route::MethodNotFound);
    assert_eq!(route("notifications/other", false), Route::Ignore);
    assert_eq!(answer_id(Some(9)), 9);
    assert_eq!(answer_id(None), 0);
}

#[test]
fn messages() {
    assert_eq!(method_not_found_message("x/y"), "Method not found: x/y");
    assert_eq!(tool_not_found_message("t"), "Tool not found: t");
    assert_eq!(tool_error_message("bad"), "Tool error: bad");
    assert_eq!(parse_error_message("eof"), "Parse error: eof");
}

#[test]
fn incoming_messages() {
    assert_eq!(classify_incoming(true, false), Incoming::Response);
    assert_eq!(classify_incoming(true, true), Incoming::Notification);
    assert_eq!(classify_incoming(false, true), Incoming::Notification);
    assert_eq!(classify_incoming(false, false), Incoming::Dropped);
}

#[test]
fn text_answer() {
    let r = text_content("hello");
    assert!(!r.is_error);
    assert_eq!(r.content.len(), 1);
    assert_eq!(r.content[0].content_type, "text");
    assert_eq!(r.content[0].text.as_deref(), Some("hello"));
    assert!(r.content[0].data.is_none());
    assert!(r.content[0].mime_type.is_none());
}

#[test]
fn catalog_register_then_find() {
    let mut c = ToolCatalog::new();
    assert_eq!(c.len(), 0);
    assert_eq!(c.register("agent.status", "Get agent status", serde_json::Value::Null), 0);
    assert_eq!(c.register("task.submit", "Submit", serde_json::Value::Null), 1);
    assert_eq!(c.find("agent.status"), Some(0));
    assert_eq!(c.find("task.submit"), Some(1));
    assert_eq!(c.find("missing"), None);
    // Registering a name again replaces it in place.
    assert_eq!(c.register("agent.status", "Again", serde_json::Value::Bool(true)), 0);
    assert_eq!(c.len(), 2);
    assert_eq!(c.tool(0).description.as_deref(), Some("Again"));
    assert_eq!(c.tool(0).input_schema, serde_json::Value::Bool(true));
}

#[test]
fn transports_not_built_yet() {
    let req = JsonRpcRequest::new(1, "ping", None);
    assert_eq!(UnixSocketTransport.send(&req).unwrap_err(), "Unix socket transport not yet implemented");
    assert_eq!(TcpTransport.send(&req).unwrap_err(), "TCP transport not yet implemented");
    assert!(!UnixSocketTransport.is_alive());
    assert!(!TcpTransport.is_alive());
    assert!(UnixSocketTransport.shutdown().is_ok());
    assert!(TcpTransport.shutdown().is_ok());
}

#[test]
fn request_ids_count_up_from_one() {
    let mut ids = RequestIds::new();
    let a = next_request(&mut ids, "initialize", None);
    let b = next_request(&mut ids, "tools/list", None);
    assert_eq!(a.id, Some(1));
    assert_eq!(b.id, Some(2));
    assert_eq!(b.method, "tools/list");
    let mut ids = RequestIds { next: u64::MAX };
    assert_eq!(ids.take(), u64::MAX);
    assert_eq!(ids.take(), 0);
}

fn json(text: &str) -> serde_json::Value {
    serde_json::from_str(text).unwrap()
}

#[test]
fn request_line_that_is_not_json_gets_a_parse_error() {
    match decide_request_line("this is not json") {
        LineDecision::ParseError { message } => {
            assert!(message.starts_with("Parse error: "));
            assert!(message.len() > "Parse error: ".len());
        }
        other => panic!("expected a parse error, got {:?}", other),
    }
}

#[test]
fn request_line_with_id_is_routed_by_method() {
    match decide_request_line(r#"{"jsonrpc":"2.0","id":7,"method":"ping"}"#) {
        LineDecision::Request { method, id, params, route } => {
            assert_eq!(method, "ping");
            assert_eq!(id, Some(7));
            assert_eq!(params, None);
            assert_eq!(route, Route::Ping);
        }
        other => panic!("expected a request, got {:?}", other),
    }
    match decide_request_line(r#"{"jsonrpc":"2.0","id":8,"method":"tools/call","params":{"name":"echo"}}"#) {
        LineDecision::Request { method, id, params, route } => {
            assert_eq!(method, "tools/call");
            assert_eq!(id, Some(8));
            assert_eq!(params, Some(json(r#"{"name":"echo"}"#)));
            assert_eq!(route, Route::CallTool);
        }
        other => panic!("expected a request, got {:?}", other),
    }
}

#[test]
fn request_line_without_id_is_not_answered() {
    match decide_request_line(r#"{"jsonrpc":"2.0","method":"initialize"}"#) {
        LineDecision::Request { id, route, .. } => {
            assert_eq!(id, None);
            assert_eq!(route, Route::Ignore);
        }
        other => panic!("expected a request, got {:?}", other),
    }
    match decide_request_line(r#"{"jsonrpc":"2.0","method":"notifications/initialized"}"#) {
        LineDecision::Request { route, .. } => assert_eq!(route, Route::Initialized),
        other => panic!("expected a request, got {:?}", other),
    }
}

#[test]
fn request_line_with_odd_fields() {
    // A method that is not a string reads as empty; a negative id as none.
    match decide_request_line(r#"{"id":-1,"method":5}"#) {
        LineDecision::Request { method, id, route, .. } => {
            assert_eq!(method, "");
            assert_eq!(id, None);
            assert_eq!(route, Route::Ignore);
        }
        other => panic!("expected a request, got {:?}", other),
    }
    match decide_request_line(r#"{"id":4,"method":"resources/list"}"#) {
        LineDecision::Request { route, .. } => assert_eq!(route, Route::MethodNotFound),
        other => panic!("expected a request, got {:?}", other),
    }
}

#[test]
fn request_decision_from_fields() {
    match request_decision(None, Some(2), None) {
        LineDecision::Request { method, id, params, route } => {
            assert_eq!(method, "");
            assert_eq!(id, Some(2));
            assert_eq!(params, None);
            assert_eq!(route, Route::MethodNotFound);
        }
        other => panic!("expected a request, got {:?}", other),
    }
    match request_decision(Some("tools/list".to_string()), Some(3), Some(json("{}"))) {
        LineDecision::Request { method, route, params, .. } => {
            assert_eq!(method, "tools/list");
            assert_eq!(route, Route::ListTools);
            assert_eq!(params, Some(json("{}")));
        }
        other => panic!("expected a request, got {:?}", other),
    }
}

#[test]
fn incoming_lines_are_sorted() {
    assert!(decode_incoming_line("{not json").is_none());
    match decode_incoming_line(r#"{"jsonrpc":"2.0","id":5,"result":{"ok":true}}"#) {
        Some(IncomingLine::Response { id, result }) => {
            assert_eq!(id, 5);
            assert_eq!(result, Some(json(r#"{"ok":true}"#)));
        }
        other => panic!("expected a response, got {:?}", other),
    }
    match decode_incoming_line(r#"{"jsonrpc":"2.0","method":"notifications/progress","params":{"p":1}}"#) {
        Some(IncomingLine::Notification { method, params }) => {
            assert_eq!(method, "notifications/progress");
            assert_eq!(params, Some(json(r#"{"p":1}"#)));
        }
        other => panic!("expected a notification, got {:?}", other),
    }
    match decode_incoming_line(r#"{"jsonrpc":"2.0","id":9,"method":"sampling/create"}"#) {
        Some(IncomingLine::Notification { method, params }) => {
            assert_eq!(method, "sampling/create");
            assert_eq!(params, None);
        }
        other => panic!("expected a notification, got {:?}", other),
    }
    match decode_incoming_line(r#"{"jsonrpc":"2.0"}"#) {
        Some(IncomingLine::Dropped) => {}
        other => panic!("expected a dropped line, got {:?}", other),
    }
}

#[test]
fn incoming_line_from_fields() {
    match incoming_line(Some(4), false, None, None, Some(json("[1]"))) {
        IncomingLine::Response { id, result } => {
            assert_eq!(id, 4);
            assert_eq!(result, Some(json("[1]")));
        }
        other => panic!("expected a response, got {:?}", other),
    }
    match incoming_line(None, true, None, None, None) {
        IncomingLine::Notification { method, params } => {
            assert_eq!(method, "");
            assert_eq!(params, None);
        }
        other => panic!("expected a notification, got {:?}", other),
    }
    assert!(matches!(incoming_line(None, false, None, None, None), IncomingLine::Dropped));
}

#[test]
fn fresh_request_ids_are_one_to_n() {
    let mut ids = RequestIds::new();
    let taken: Vec<u64> = (0..5).map(|_| ids.take()).collect();
    assert_eq!(taken, vec![1, 2, 3, 4, 5]);
    assert_eq!(ids.next, 6);
}

#[test]
fn tool_call_target_reads_name_and_arguments() {
    let (name, args) = tool_call_target(r#"{"name":"echo","arguments":{"text":"hi"}}"#);
    assert_eq!(name, "echo");
    assert_eq!(args, Some(json(r#"{"text":"hi"}"#)));
    let (name, args) = tool_call_target(r#"{"name":3}"#);
    assert_eq!(name, "");
    assert_eq!(args, None);
    let (name, args) = tool_call_target("null");
    assert_eq!(name, "");
    assert_eq!(args, None);
}

#[test]
fn text_arguments_with_and_without_defaults() {
    let args = r#"{"prompt":"write tests","model":"opus","n":2}"#;
    assert_eq!(text_argument(args, "prompt"), "write tests");
    assert_eq!(text_argument(args, "n"), "");
    assert_eq!(text_argument(args, "missing"), "");
    assert_eq!(argument_text(args, "model"), Some("opus".to_string()));
    assert_eq!(argument_text(args, "n"), None);
    assert_eq!(text_argument_or(args, "permit", "Ask"), "Ask");
    assert_eq!(text_argument_or(args, "model", "default"), "opus");
    assert_eq!(text_argument("not json", "prompt"), "");
}
