use mcp_server::{parse_request, ErrorResponse, ParseError, RequestId, Response, Server};
use mcp_server::render_response;

#[test]
fn test_initialization() {
    let server = Server::new("test-server", "1.0.0");

    let init_request = "{\"jsonrpc\":\"2.0\",\"id\":1,\"method\":\"initialize\",\"params\":{\"protocolVersion\":\"2024-11-05\",\"capabilities\":{},\"clientInfo\":{\"name\":\"test-client\",\"version\":\"1.0.0\"}}}";

    let response = server.handle_message(init_request).unwrap().unwrap();
    let response_value: serde_json::Value = serde_json::from_str(&response).unwrap();

    assert_eq!(response_value["result"]["protocolVersion"], "2024-11-05");
    assert!(response_value["result"]["capabilities"].is_object());
}

#[test]
fn test_ping() {
    let server = Server::new("test-server", "1.0.0");

    let ping_request = "{\"jsonrpc\":\"2.0\",\"id\":1,\"method\":\"ping\"}";

    let response = server.handle_message(ping_request).unwrap().unwrap();
    let response_value: serde_json::Value = serde_json::from_str(&response).unwrap();

    assert!(response_value["result"].is_object());
    assert!(response_value["error"].is_null());
}

#[test]
fn initialize_exact_output() {
    let server = Server::new("test-server", "1.0.0");
    let input = "{\"jsonrpc\":\"2.0\",\"id\":1,\"method\":\"initialize\",\"params\":{}}";
    let output = server.handle_message(input).unwrap().unwrap();
    assert_eq!(
        output,
        "{\"jsonrpc\":\"2.0\",\"id\":1,\"result\":{\"protocolVersion\":\"2024-11-05\",\
         \"capabilities\":{\"logging\":{},\"prompts\":{\"listChanged\":false},\
         \"resources\":{\"subscribe\":false,\"listChanged\":false},\
         \"tools\":{\"listChanged\":false}},\
         \"serverInfo\":{\"name\":\"test-server\",\"version\":\"1.0.0\"}}}"
    );
}

#[test]
fn ping_exact_output() {
    let server = Server::new("test-server", "1.0.0");
    let input = "{\"jsonrpc\":\"2.0\",\"id\":1,\"method\":\"ping\"}";
    let output = server.handle_message(input).unwrap().unwrap();
    assert_eq!(output, "{\"jsonrpc\":\"2.0\",\"id\":1,\"result\":{}}");
}

#[test]
fn unknown_method_exact_output() {
    let server = Server::new("test-server", "1.0.0");
    let input = "{\"jsonrpc\":\"2.0\",\"id\":5,\"method\":\"doesNotExist\"}";
    let output = server.handle_message(input).unwrap().unwrap();
    assert_eq!(
        output,
        "{\"jsonrpc\":\"2.0\",\"id\":5,\"error\":{\"code\":-32601,\"message\":\"Method not found\"}}"
    );
}

#[test]
fn initialized_notification_no_output() {
    let server = Server::new("test-server", "1.0.0");
    let input = "{\"jsonrpc\":\"2.0\",\"method\":\"notifications/initialized\"}";
    assert_eq!(server.handle_message(input), Ok(None));
}

#[test]
fn unknown_notification_no_output() {
    let server = Server::new("test-server", "1.0.0");
    let input = "{\"jsonrpc\":\"2.0\",\"method\":\"something/else\",\"params\":{\"x\":1}}";
    assert_eq!(server.handle_message(input), Ok(None));
}

#[test]
fn malformed_text_fails() {
    let server = Server::new("test-server", "1.0.0");
    assert_eq!(server.handle_message("not json at all"), Err(ParseError::Syntax));
    assert_eq!(server.handle_message(""), Err(ParseError::Syntax));
    assert_eq!(server.handle_message("{\"jsonrpc\":"), Err(ParseError::Syntax));
}

#[test]
fn invalid_id_is_still_a_request() {
    let server = Server::new("test-server", "1.0.0");
    // As a notification this method would be accepted silently; the presence
    // of `id` — even one that is no valid identifier — routes it to request
    // handling, where strict parsing rejects it.
    let input = "{\"jsonrpc\":\"2.0\",\"id\":true,\"method\":\"notifications/initialized\"}";
    assert_eq!(server.handle_message(input), Err(ParseError::Shape));
    let null_id = "{\"jsonrpc\":\"2.0\",\"id\":null,\"method\":\"ping\"}";
    assert_eq!(server.handle_message(null_id), Err(ParseError::Shape));
}

#[test]
fn nested_id_is_not_an_id() {
    let server = Server::new("test-server", "1.0.0");
    // Only a top-level `id` field classifies a message as a request.
    let input = "{\"jsonrpc\":\"2.0\",\"method\":\"ping\",\"params\":{\"id\":1}}";
    assert_eq!(server.handle_message(input), Ok(None));
}

#[test]
fn notification_missing_fields_fails() {
    let server = Server::new("test-server", "1.0.0");
    assert_eq!(server.handle_message("{\"method\":\"ping\"}"), Err(ParseError::Shape));
    assert_eq!(server.handle_message("{\"jsonrpc\":\"2.0\"}"), Err(ParseError::Shape));
    assert_eq!(server.handle_message("[1,2,3]"), Err(ParseError::Shape));
    assert_eq!(server.handle_message("\"just a string\""), Err(ParseError::Shape));
}

#[test]
fn request_missing_fields_fails() {
    let server = Server::new("test-server", "1.0.0");
    assert_eq!(server.handle_message("{\"id\":1}"), Err(ParseError::Shape));
    assert_eq!(
        server.handle_message("{\"id\":1,\"method\":\"ping\"}"),
        Err(ParseError::Shape)
    );
    assert_eq!(
        server.handle_message("{\"jsonrpc\":\"2.0\",\"id\":1,\"method\":7}"),
        Err(ParseError::Shape)
    );
}

#[test]
fn string_id_echo() {
    let server = Server::new("test-server", "1.0.0");
    let input = "{\"jsonrpc\":\"2.0\",\"id\":\"abc-123\",\"method\":\"ping\"}";
    let output = server.handle_message(input).unwrap().unwrap();
    assert_eq!(output, "{\"jsonrpc\":\"2.0\",\"id\":\"abc-123\",\"result\":{}}");
}

#[test]
fn negative_id_echo() {
    let server = Server::new("test-server", "1.0.0");
    let input = "{\"jsonrpc\":\"2.0\",\"id\":-7,\"method\":\"ping\"}";
    let output = server.handle_message(input).unwrap().unwrap();
    assert_eq!(output, "{\"jsonrpc\":\"2.0\",\"id\":-7,\"result\":{}}");
}

#[test]
fn extreme_ids_echo() {
    let server = Server::new("test-server", "1.0.0");
    let input = "{\"jsonrpc\":\"2.0\",\"id\":-9223372036854775808,\"method\":\"ping\"}";
    let output = server.handle_message(input).unwrap().unwrap();
    assert_eq!(output, "{\"jsonrpc\":\"2.0\",\"id\":-9223372036854775808,\"result\":{}}");
    let input = "{\"jsonrpc\":\"2.0\",\"id\":9223372036854775807,\"method\":\"ping\"}";
    let output = server.handle_message(input).unwrap().unwrap();
    assert_eq!(output, "{\"jsonrpc\":\"2.0\",\"id\":9223372036854775807,\"result\":{}}");
}

#[test]
fn out_of_range_ids_fail() {
    let server = Server::new("test-server", "1.0.0");
    // A number beyond i64, or a float, is no valid identifier.
    let input = "{\"jsonrpc\":\"2.0\",\"id\":9223372036854775808,\"method\":\"ping\"}";
    assert_eq!(server.handle_message(input), Err(ParseError::Shape));
    let input = "{\"jsonrpc\":\"2.0\",\"id\":1.5,\"method\":\"ping\"}";
    assert_eq!(server.handle_message(input), Err(ParseError::Shape));
}

#[test]
fn string_id_is_escaped_in_reply() {
    let server = Server::new("test-server", "1.0.0");
    let input = "{\"jsonrpc\":\"2.0\",\"id\":\"a\\\"b\\\\c\",\"method\":\"ping\"}";
    let output = server.handle_message(input).unwrap().unwrap();
    assert_eq!(output, "{\"jsonrpc\":\"2.0\",\"id\":\"a\\\"b\\\\c\",\"result\":{}}");
    let input = "{\"jsonrpc\":\"2.0\",\"id\":\"\\n\\u0001\",\"method\":\"ping\"}";
    let output = server.handle_message(input).unwrap().unwrap();
    assert_eq!(output, "{\"jsonrpc\":\"2.0\",\"id\":\"\\n\\u0001\",\"result\":{}}");
}

#[test]
fn jsonrpc_tag_is_not_validated() {
    // The strict shape only asks the `jsonrpc` field to hold a string; its
    // value is not negotiated, and the reply always carries the fixed tag.
    let server = Server::new("test-server", "1.0.0");
    let input = "{\"jsonrpc\":\"1.0\",\"id\":2,\"method\":\"ping\"}";
    let output = server.handle_message(input).unwrap().unwrap();
    assert_eq!(output, "{\"jsonrpc\":\"2.0\",\"id\":2,\"result\":{}}");
}

#[test]
fn ping_before_initialize_is_answered() {
    // No handshake order is enforced: each call is independent.
    let server = Server::new("test-server", "1.0.0");
    let ping = "{\"jsonrpc\":\"2.0\",\"id\":1,\"method\":\"ping\"}";
    assert!(server.handle_message(ping).unwrap().is_some());
    let init = "{\"jsonrpc\":\"2.0\",\"id\":2,\"method\":\"initialize\"}";
    assert!(server.handle_message(init).unwrap().is_some());
}

#[test]
fn capabilities_groups_in_initialize_result() {
    let server = Server::new("srv", "0.2.1");
    let input = "{\"jsonrpc\":\"2.0\",\"id\":1,\"method\":\"initialize\",\"params\":{}}";
    let output = server.handle_message(input).unwrap().unwrap();
    let v: serde_json::Value = serde_json::from_str(&output).unwrap();
    let caps = &v["result"]["capabilities"];
    assert!(caps["logging"].is_object());
    assert_eq!(caps["prompts"]["listChanged"], false);
    assert_eq!(caps["resources"]["subscribe"], false);
    assert_eq!(caps["resources"]["listChanged"], false);
    assert_eq!(caps["tools"]["listChanged"], false);
    assert_eq!(v["result"]["serverInfo"]["name"], "srv");
    assert_eq!(v["result"]["serverInfo"]["version"], "0.2.1");
    assert!(v.get("error").is_none());
}

#[test]
fn parse_request_reads_the_fields() {
    let doc: serde_json::Value =
        serde_json::from_str("{\"jsonrpc\":\"2.0\",\"id\":41,\"method\":\"ping\",\"params\":{}}")
            .unwrap();
    let req = parse_request(&doc).unwrap();
    assert_eq!(req.jsonrpc, "2.0");
    assert_eq!(req.method, "ping");
    assert!(matches!(req.id, RequestId::Num(41)));
    assert!(req.params.is_some());

    let doc: serde_json::Value =
        serde_json::from_str("{\"jsonrpc\":\"2.0\",\"id\":\"x\",\"method\":\"m\"}").unwrap();
    let req = parse_request(&doc).unwrap();
    assert!(matches!(req.id, RequestId::Str(ref s) if s == "x"));
    assert!(req.params.is_none());

    let doc: serde_json::Value = serde_json::from_str("{\"jsonrpc\":\"2.0\",\"id\":1}").unwrap();
    match parse_request(&doc) {
        Err(e) => assert_eq!(e, ParseError::Shape),
        Ok(_) => panic!("a request without a method must be rejected"),
    }
}

#[test]
fn render_error_response_with_data() {
    let resp = Response {
        jsonrpc: String::from("2.0"),
        id: RequestId::Num(0),
        result: None,
        error: Some(ErrorResponse {
            code: -32000,
            message: String::from("boom"),
            data: Some(String::from("{\"detail\":4}")),
        }),
    };
    assert_eq!(
        render_response(&resp),
        "{\"jsonrpc\":\"2.0\",\"id\":0,\"error\":{\"code\":-32000,\"message\":\"boom\",\"data\":{\"detail\":4}}}"
    );
}

#[test]
fn duplicate_field_keeps_the_last() {
    // The generic parse resolves duplicate keys before field extraction, and
    // the later value wins.
    let server = Server::new("test-server", "1.0.0");
    let input = "{\"jsonrpc\":\"2.0\",\"id\":1,\"id\":2,\"method\":\"ping\"}";
    let output = server.handle_message(input).unwrap().unwrap();
    assert_eq!(output, "{\"jsonrpc\":\"2.0\",\"id\":2,\"result\":{}}");
}
