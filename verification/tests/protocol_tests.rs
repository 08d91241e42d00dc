//! Protocol tests: the codec round trip, dispatch on each method, the
//! two transports' framing, and the full request scenarios.

use outline_mcp_rs::codec::{decode_json, encode_json};
use outline_mcp_rs::envelope::{decode_envelope, encode_envelope, DecodeError, Envelope};
use outline_mcp_rs::http::{
    header_content_length, http_no_content, http_not_found, http_reply_for,
    request_line_targets_mcp,
};
use outline_mcp_rs::json::JsonVal;
use outline_mcp_rs::mcp::{finish_request, handle_request, missing_name_error, process_line, Step};
use outline_mcp_rs::outline::interpret_api_response;

fn str_of(v: &JsonVal) -> String {
    v.as_str().expect("expected a string value").clone()
}

fn create_mcp_request(method: &str, params: Option<JsonVal>) -> String {
    let env = Envelope::Request {
        method: method.to_string(),
        params: params.unwrap_or(JsonVal::Obj(vec![])),
        id: JsonVal::Int(1),
    };
    encode_envelope(&env)
}

fn parse_mcp_response(response: &str) -> Result<Envelope, DecodeError> {
    decode_envelope(response)
}

fn is_success_response(e: &Envelope) -> bool {
    matches!(e, Envelope::Success { .. })
}

#[test]
fn test_mcp_response_parsing() {
    let success_response = r#"{"jsonrpc":"2.0","id":1,"result":{"tools":[]}}"#;
    let parsed = parse_mcp_response(success_response).unwrap();
    assert!(is_success_response(&parsed));

    let error_response = r#"{"jsonrpc":"2.0","id":1,"error":{"code":-32601,"message":"Method not found"}}"#;
    let parsed = parse_mcp_response(error_response).unwrap();
    assert!(!is_success_response(&parsed));
}

#[test]
fn test_create_mcp_request() {
    let request = create_mcp_request(
        "test_method",
        Some(JsonVal::Obj(vec![(
            "key".to_string(),
            JsonVal::Str("value".to_string()),
        )])),
    );
    let parsed = decode_envelope(&request).unwrap();
    match parsed {
        Envelope::Request { method, params, .. } => {
            assert_eq!(method, "test_method");
            assert_eq!(str_of(params.get("key").unwrap()), "value");
        }
        _ => panic!("not a request"),
    }
}

#[test]
fn test_parse_mcp_response() {
    let response_str = r#"{"jsonrpc":"2.0","id":1,"result":{"success":true}}"#;
    let response = parse_mcp_response(response_str).unwrap();
    assert!(is_success_response(&response));
    match response {
        Envelope::Success { result, .. } => match result.get("success").unwrap() {
            JsonVal::Bool(b) => assert!(*b),
            _ => panic!("success is not a bool"),
        },
        _ => panic!("not a success"),
    }
}

#[test]
fn test_mcp_initialize() {
    let request = create_mcp_request(
        "initialize",
        Some(JsonVal::Obj(vec![
            (
                "protocolVersion".to_string(),
                JsonVal::Str("2024-11-05".to_string()),
            ),
            ("capabilities".to_string(), JsonVal::Obj(vec![])),
        ])),
    );
    let parsed = decode_envelope(&request).unwrap();
    match parsed {
        Envelope::Request { method, .. } => assert_eq!(method, "initialize"),
        _ => panic!("not a request"),
    }
}

#[test]
fn test_tools_list_request() {
    let request = create_mcp_request("tools/list", None);
    let parsed = decode_envelope(&request).unwrap();
    match parsed {
        Envelope::Request { method, params, .. } => {
            assert_eq!(method, "tools/list");
            assert!(params.is_object());
        }
        _ => panic!("not a request"),
    }
}

#[test]
fn test_tools_call_request() {
    let request = create_mcp_request(
        "tools/call",
        Some(JsonVal::Obj(vec![
            ("name".to_string(), JsonVal::Str("create_document".to_string())),
            (
                "arguments".to_string(),
                JsonVal::Obj(vec![
                    ("title".to_string(), JsonVal::Str("Test Document".to_string())),
                    ("text".to_string(), JsonVal::Str("Test content".to_string())),
                ]),
            ),
        ])),
    );
    let parsed = decode_envelope(&request).unwrap();
    match parsed {
        Envelope::Request { method, params, .. } => {
            assert_eq!(method, "tools/call");
            assert_eq!(str_of(params.get("name").unwrap()), "create_document");
        }
        _ => panic!("not a request"),
    }
}

#[test]
fn test_envelope_round_trip_all_kinds() {
    let request = Envelope::Request {
        method: "tools/call".to_string(),
        params: JsonVal::Obj(vec![
            ("name".to_string(), JsonVal::Str("x".to_string())),
            (
                "arguments".to_string(),
                JsonVal::Arr(vec![JsonVal::Int(-7), JsonVal::Bool(false), JsonVal::Null]),
            ),
        ]),
        id: JsonVal::Str("req-1".to_string()),
    };
    let text = encode_envelope(&request);
    match decode_envelope(&text).unwrap() {
        Envelope::Request { method, params, id } => {
            assert_eq!(method, "tools/call");
            assert_eq!(str_of(params.get("name").unwrap()), "x");
            assert_eq!(str_of(&JsonVal::Str("req-1".to_string())), str_of(&id));
        }
        _ => panic!("round trip changed the kind"),
    }

    let notification = Envelope::Notification {
        method: "notifications/initialized".to_string(),
        params: JsonVal::Obj(vec![]),
    };
    let text = encode_envelope(&notification);
    assert!(matches!(
        decode_envelope(&text).unwrap(),
        Envelope::Notification { .. }
    ));

    let success = Envelope::Success {
        result: JsonVal::Obj(vec![("ok".to_string(), JsonVal::Bool(true))]),
        id: Some(JsonVal::Int(3)),
    };
    let text = encode_envelope(&success);
    assert!(matches!(decode_envelope(&text).unwrap(), Envelope::Success { .. }));

    let failure = Envelope::Failure {
        code: -32603,
        message: "a \"quoted\" message\nwith control\tchars".to_string(),
        id: None,
    };
    let text = encode_envelope(&failure);
    match decode_envelope(&text).unwrap() {
        Envelope::Failure { code, message, id } => {
            assert_eq!(code, -32603);
            assert_eq!(message, "a \"quoted\" message\nwith control\tchars");
            assert!(id.is_none());
        }
        _ => panic!("round trip changed the kind"),
    }
}

#[test]
fn test_round_trip_keeps_null_and_absent_ids_distinct() {
    let with_null = Envelope::Request {
        method: "m".to_string(),
        params: JsonVal::Obj(vec![]),
        id: JsonVal::Null,
    };
    let text = encode_envelope(&with_null);
    assert!(text.contains("\"id\":null"));
    assert!(matches!(
        decode_envelope(&text).unwrap(),
        Envelope::Request { id: JsonVal::Null, .. }
    ));

    let without_id = Envelope::Notification {
        method: "m".to_string(),
        params: JsonVal::Obj(vec![]),
    };
    let text = encode_envelope(&without_id);
    assert!(!text.contains("\"id\""));
    assert!(matches!(
        decode_envelope(&text).unwrap(),
        Envelope::Notification { .. }
    ));
}

#[test]
fn test_json_codec_edges() {
    let value = JsonVal::Arr(vec![
        JsonVal::Int(i64::MIN),
        JsonVal::Int(i64::MAX),
        JsonVal::Int(0),
        JsonVal::Str(String::new()),
        JsonVal::Str("escape \\ \"quotes\" \r\n\t".to_string()),
        JsonVal::Obj(vec![]),
        JsonVal::Arr(vec![]),
    ]);
    let text = encode_json(&value);
    let back = decode_json(&text).unwrap();
    assert_eq!(encode_json(&back), text);

    assert!(decode_json("").is_none());
    assert!(decode_json("{").is_none());
    assert!(decode_json("[1,]").is_none());
    assert!(decode_json("12x").is_none());
    assert!(decode_json("99999999999999999999999").is_none());
    assert!(decode_json(" { \"a\" : [ 1 , true ] } ").is_some());
}

#[test]
fn test_codec_agrees_with_reference_parser() {
    let value = JsonVal::Obj(vec![
        ("n".to_string(), JsonVal::Int(-42)),
        (
            "items".to_string(),
            JsonVal::Arr(vec![JsonVal::Bool(true), JsonVal::Str("x\ny".to_string())]),
        ),
    ]);
    let text = encode_json(&value);
    let reference: serde_json::Value = serde_json::from_str(&text).unwrap();
    assert_eq!(reference.get("n").and_then(|v| v.as_i64()), Some(-42));
    let items = reference.get("items").and_then(|v| v.as_array()).unwrap();
    assert_eq!(items.len(), 2);
    assert_eq!(items[0].as_bool(), Some(true));
    assert_eq!(items[1].as_str(), Some("x\ny"));
}

#[test]
fn test_initialize_scenario() {
    let step = handle_request(r#"{"jsonrpc":"2.0","id":1,"method":"initialize","params":{}}"#);
    match step {
        Step::Reply(line) => {
            assert_eq!(
                line,
                r#"{"jsonrpc":"2.0","result":{"protocolVersion":"2024-11-05","capabilities":{"tools":{}},"serverInfo":{"name":"outline-mcp-rs","version":"0.1.0"}},"id":1}"#
            );
        }
        _ => panic!("initialize did not reply"),
    }
}

#[test]
fn test_initialized_notification_scenario() {
    let step = handle_request(r#"{"jsonrpc":"2.0","method":"notifications/initialized"}"#);
    assert!(matches!(step, Step::Silent));
}

#[test]
fn test_initialized_with_id_is_still_silent() {
    let step = handle_request(r#"{"jsonrpc":"2.0","id":5,"method":"notifications/initialized"}"#);
    assert!(matches!(step, Step::Silent));
}

#[test]
fn test_unknown_method_echoes_id() {
    let step = handle_request(r#"{"jsonrpc":"2.0","id":7,"method":"foo"}"#);
    match step {
        Step::Reply(line) => match decode_envelope(&line).unwrap() {
            Envelope::Failure { code, message, id } => {
                assert_eq!(code, -32603);
                assert_eq!(message, "Protocol error: MCP - Unknown method: foo");
                assert!(matches!(id, Some(JsonVal::Int(7))));
            }
            _ => panic!("expected an error response"),
        },
        _ => panic!("unknown method did not reply"),
    }
}

#[test]
fn test_tools_list_via_dispatch() {
    let step = handle_request(r#"{"jsonrpc":"2.0","id":2,"method":"tools/list"}"#);
    match step {
        Step::Reply(line) => match decode_envelope(&line).unwrap() {
            Envelope::Success { result, id } => {
                match result.get("tools").unwrap() {
                    JsonVal::Arr(items) => assert_eq!(items.len(), 18),
                    _ => panic!("tools is not an array"),
                }
                assert!(matches!(id, Some(JsonVal::Int(2))));
            }
            _ => panic!("expected a success response"),
        },
        _ => panic!("tools/list did not reply"),
    }
}

#[test]
fn test_tools_call_create_document_succeeds() {
    let step = handle_request(
        r#"{"jsonrpc":"2.0","id":9,"method":"tools/call","params":{"name":"create_document","arguments":{"title":"T","text":"X"}}}"#,
    );
    let pending = match step {
        Step::Call(p) => p,
        _ => panic!("tools/call did not ask for an upstream call"),
    };
    assert_eq!(pending.endpoint, "documents.create");
    assert_eq!(pending.body, r#"{"title":"T","text":"X"}"#);

    let line = finish_request(pending.id, 200, r#"{"ok":true}"#);
    match decode_envelope(&line).unwrap() {
        Envelope::Success { result, id } => {
            let content = match result.get("content").unwrap() {
                JsonVal::Arr(items) => items,
                _ => panic!("content is not an array"),
            };
            assert_eq!(str_of(content[0].get("type").unwrap()), "text");
            assert_eq!(str_of(content[0].get("text").unwrap()), r#"{"ok":true}"#);
            assert!(matches!(id, Some(JsonVal::Int(9))));
        }
        _ => panic!("expected a success response"),
    }
}

#[test]
fn test_tools_call_upstream_failure() {
    let step = handle_request(
        r#"{"jsonrpc":"2.0","id":9,"method":"tools/call","params":{"name":"get_document","arguments":{"id":"d1"}}}"#,
    );
    let pending = match step {
        Step::Call(p) => p,
        _ => panic!("tools/call did not ask for an upstream call"),
    };
    let line = finish_request(pending.id, 503, "unavailable");
    match decode_envelope(&line).unwrap() {
        Envelope::Failure { code, message, .. } => {
            assert_eq!(code, -32603);
            assert_eq!(message, "API error: 503 - API request failed with status 503");
        }
        _ => panic!("expected an error response"),
    }
}

#[test]
fn test_tools_call_missing_name() {
    let step = handle_request(
        r#"{"jsonrpc":"2.0","id":4,"method":"tools/call","params":{"arguments":{}}}"#,
    );
    match step {
        Step::Reply(line) => match decode_envelope(&line).unwrap() {
            Envelope::Failure { code, message, id } => {
                assert_eq!(code, -32603);
                assert_eq!(message, "Protocol error: MCP - Missing 'name' parameter");
                assert!(matches!(id, Some(JsonVal::Int(4))));
            }
            _ => panic!("expected an error response"),
        },
        Step::Call(_) => panic!("missing name must not reach the registry"),
        _ => panic!("missing name did not reply"),
    }
    match missing_name_error() {
        outline_mcp_rs::error::Error::Protocol { code, .. } => {
            assert_eq!(code, Some(-32602));
        }
        _ => panic!("missing-name failure is not a protocol error"),
    }
}

#[test]
fn test_malformed_input_gets_error_reply() {
    let step = handle_request("this is not structured text");
    match step {
        Step::ErrorReply(line) => match decode_envelope(&line).unwrap() {
            Envelope::Failure { code, message, id } => {
                assert_eq!(code, -32603);
                assert_eq!(message, "JSON error: JSON operation failed");
                assert!(matches!(id, Some(JsonVal::Null)));
            }
            _ => panic!("expected an error response"),
        },
        _ => panic!("malformed input did not yield an error reply"),
    }
}

#[test]
fn test_method_less_object_gets_error_reply() {
    let step = handle_request(r#"{"jsonrpc":"2.0","id":1,"params":{}}"#);
    match step {
        Step::ErrorReply(line) => match decode_envelope(&line).unwrap() {
            Envelope::Failure { message, .. } => {
                assert_eq!(message, "Protocol error: JSON-RPC - Missing 'method' field");
            }
            _ => panic!("expected an error response"),
        },
        _ => panic!("method-less input did not yield an error reply"),
    }
}

#[test]
fn test_blank_line_is_skipped() {
    assert!(matches!(process_line("   "), Step::Silent));
    assert!(matches!(process_line(""), Step::Silent));
    assert!(matches!(process_line("{"), Step::ErrorReply(_)));
}

#[test]
fn test_http_silent_is_bodiless_no_content() {
    let step = handle_request(r#"{"jsonrpc":"2.0","method":"notifications/initialized"}"#);
    let reply = http_reply_for(&step).unwrap();
    assert_eq!(reply, "HTTP/1.1 204 No Content\r\n\r\n");
}

#[test]
fn test_http_not_found_for_other_paths() {
    assert!(!request_line_targets_mcp("GET /other HTTP/1.1"));
    assert!(request_line_targets_mcp("POST /mcp HTTP/1.1"));
    assert_eq!(http_not_found(), "HTTP/1.1 404 Not Found\r\nContent-Length: 0\r\n\r\n");
}

#[test]
fn test_http_ok_reply_frames_body() {
    let step = handle_request(r#"{"jsonrpc":"2.0","id":1,"method":"initialize"}"#);
    let reply = http_reply_for(&step).unwrap();
    assert!(reply.starts_with("HTTP/1.1 200 OK\r\nContent-Type: application/json\r\nContent-Length: "));
    let body = reply.split("\r\n\r\n").nth(1).unwrap();
    let header_len: usize = reply
        .split("Content-Length: ")
        .nth(1)
        .unwrap()
        .split('\r')
        .next()
        .unwrap()
        .parse()
        .unwrap();
    assert_eq!(header_len, body.len());
}

#[test]
fn test_http_500_for_malformed_body() {
    let step = handle_request("not structured");
    let reply = http_reply_for(&step).unwrap();
    assert!(reply.starts_with("HTTP/1.1 500 Internal Server Error\r\n"));
}

#[test]
fn test_header_content_length() {
    assert_eq!(header_content_length("Content-Length: 42\r\n"), Some(42));
    assert_eq!(header_content_length("content-length:7"), Some(7));
    assert_eq!(header_content_length("CONTENT-LENGTH:  123  "), Some(123));
    assert_eq!(header_content_length("Content-Length: abc"), Some(0));
    assert_eq!(header_content_length("Content-Type: text/plain"), None);
    assert_eq!(header_content_length("Host: example.com"), None);
    assert_eq!(http_no_content(), "HTTP/1.1 204 No Content\r\n\r\n");
}

#[test]
fn test_decode_escapes() {
    let v = decode_json(r#""a\n\t\"\\\/\u0041b""#).unwrap();
    match v {
        JsonVal::Str(s) => assert_eq!(s, "a\n\t\"\\/Ab"),
        _ => panic!("not a string"),
    }
    assert!(decode_json(r#""unterminated"#).is_none());
    assert!(decode_json(r#""bad \x escape""#).is_none());
}

#[test]
fn test_decode_numbers() {
    assert!(matches!(decode_json("-9223372036854775808"), Some(JsonVal::Int(i64::MIN))));
    assert!(matches!(decode_json("9223372036854775807"), Some(JsonVal::Int(i64::MAX))));
    assert!(decode_json("9223372036854775808").is_none());
    assert!(decode_json("-9223372036854775809").is_none());
    assert!(matches!(decode_json("0"), Some(JsonVal::Int(0))));
}

#[test]
fn test_interpret_api_response() {
    let ok = interpret_api_response(200, r#"{"a":1}"#).unwrap();
    assert_eq!(ok.get("a").unwrap().as_i64(), Some(1));
    let parse_err = interpret_api_response(204, "not structured").unwrap_err();
    assert_eq!(
        parse_err.message(),
        "JSON error: Failed to parse API response: not structured"
    );
    let api_err = interpret_api_response(404, "gone").unwrap_err();
    assert_eq!(api_err.message(), "API error: 404 - API request failed with status 404");
}
