//! Workflow tests: request sequences and configuration checks as a
//! client of the library would run them.

use outline_mcp_rs::config::{ApiKey, Config, LogLevel, Port};
use outline_mcp_rs::envelope::{encode_envelope, Envelope};
use outline_mcp_rs::json::JsonVal;

fn create_test_config() -> Config {
    Config {
        outline_api_key: ApiKey::new("test_api_key".to_string()).unwrap(),
        outline_api_url: "https://test.example.com".to_string(),
        http_host: "127.0.0.1".to_string(),
        http_port: Port::new(3000).unwrap(),
        log_level: LogLevel::new("info").unwrap(),
    }
}

fn create_mcp_request(method: &str, params: Option<JsonVal>) -> String {
    let env = Envelope::Request {
        method: method.to_string(),
        params: params.unwrap_or(JsonVal::Obj(vec![])),
        id: JsonVal::Int(1),
    };
    encode_envelope(&env)
}

#[test]
fn test_create_test_config() {
    let config = create_test_config();
    assert_eq!(config.outline_api_key.as_str(), "test_api_key");
    assert_eq!(config.http_host, "127.0.0.1");
}

#[test]
fn test_full_document_workflow() {
    let config = create_test_config();
    assert!(!config.outline_api_key.as_str().is_empty());

    let requests = [
        create_mcp_request(
            "initialize",
            Some(JsonVal::Obj(vec![(
                "protocolVersion".to_string(),
                JsonVal::Str("2024-11-05".to_string()),
            )])),
        ),
        create_mcp_request("tools/list", None),
        create_mcp_request(
            "tools/call",
            Some(JsonVal::Obj(vec![
                (
                    "name".to_string(),
                    JsonVal::Str("create_document".to_string()),
                ),
                (
                    "arguments".to_string(),
                    JsonVal::Obj(vec![
                        (
                            "title".to_string(),
                            JsonVal::Str("E2E Test Document".to_string()),
                        ),
                        (
                            "text".to_string(),
                            JsonVal::Str("This is an end-to-end test document".to_string()),
                        ),
                    ]),
                ),
            ])),
        ),
    ];

    assert_eq!(requests.len(), 3);
}

#[test]
fn test_error_handling_workflow() {
    let invalid_request = create_mcp_request("invalid_method", None);
    assert!(invalid_request.contains("invalid_method"));
}

#[test]
fn test_configuration_validation() {
    let config = create_test_config();
    assert!(config.outline_api_url.as_str().starts_with("https://"));
    assert!(config.http_port.as_u16() > 0);
}
