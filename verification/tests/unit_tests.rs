//! Unit tests for configuration values, the CLI vocabulary, errors, the
//! tool registry, and the upstream request builders.

use outline_mcp_rs::config::{ApiKey, Config, LogLevel, Port};
use outline_mcp_rs::error::Error;
use outline_mcp_rs::json::JsonVal;
use outline_mcp_rs::outline::{
    create_collection_request, create_comment_request, create_document_request, join_api_url,
    search_documents_request, update_document_request,
};
use outline_mcp_rs::cli::{command_for_arg, CliCommand};
use outline_mcp_rs::tools::{
    call_tool, get_optional_number_arg, get_optional_string_arg, get_string_arg, get_tools_list,
    tool_definition, ParamDef, ToolDef,
};

fn str_of(v: &JsonVal) -> String {
    v.as_str().expect("expected a string value").clone()
}

#[test]
fn test_name_constant() {
    assert_eq!(outline_mcp_rs::server_name(), "outline-mcp-rs");
}

#[test]
fn test_version_constant() {
    assert!(!outline_mcp_rs::server_version().is_empty());
    assert!(outline_mcp_rs::server_version().contains('.'));
}

#[test]
fn test_help_content() {
    assert!(outline_mcp_rs::cli::help_text().contains("USAGE:"));
    assert!(outline_mcp_rs::cli::help_text().contains("CURSOR IDE"));
}

#[test]
fn test_api_key_validation() {
    assert!(ApiKey::new(String::new()).is_err());
    assert!(ApiKey::new("short".to_string()).is_err());
    assert!(ApiKey::new("valid-api-key-123".to_string()).is_ok());
}

#[test]
fn test_blank_api_key_rejected() {
    assert!(ApiKey::new("   ".to_string()).is_err());
}

#[test]
fn test_port_validation() {
    assert!(Port::new(80).is_err());
    assert!(Port::new(1024).is_ok());
    assert!(Port::new(8080).is_ok());
}

#[test]
fn test_log_level_validation() {
    assert!(LogLevel::new("invalid").is_err());
    assert!(LogLevel::new("info").is_ok());
    assert!(LogLevel::new("DEBUG").is_ok());
}

#[test]
fn test_log_level_normalizes() {
    let level = LogLevel::new("DEBUG").unwrap();
    assert_eq!(level.as_str(), "debug");
}

#[test]
fn test_config_creation() {
    let config = Config::for_testing();
    assert!(config.validate().is_ok());
}

#[test]
fn test_config_rejects_other_schemes() {
    let mut config = Config::for_testing();
    config.outline_api_url = "ftp://example.com".to_string();
    assert!(config.validate().is_err());
}

#[test]
fn test_error_types() {
    let _error = Error::Config {
        message: "test error".to_string(),
    };
}

#[test]
fn test_error_messages() {
    let api = Error::Api {
        status: 500,
        message: "API request failed with status 500".to_string(),
        body: Some("oops".to_string()),
    };
    assert_eq!(api.message(), "API error: 500 - API request failed with status 500");
    let tool = Error::Tool {
        tool_name: "nope".to_string(),
        message: "Unknown tool".to_string(),
    };
    assert_eq!(tool.message(), "Tool error 'nope': Unknown tool");
    let config = Error::Config {
        message: "bad".to_string(),
    };
    assert_eq!(config.message(), "Configuration error: bad");
}

#[test]
fn test_cli_commands() {
    assert_eq!(command_for_arg(None), Some(CliCommand::Stdio));
    assert_eq!(command_for_arg(Some("--http")), Some(CliCommand::Http));
    assert_eq!(command_for_arg(Some("http")), Some(CliCommand::Http));
    assert_eq!(command_for_arg(Some("--help")), Some(CliCommand::Help));
    assert_eq!(command_for_arg(Some("-v")), Some(CliCommand::Version));
    assert_eq!(command_for_arg(Some("--bogus")), None);
}

#[test]
fn test_create_document_request() {
    let request = create_document_request("Test Title", "Test content", Some("collection-id"));
    assert_eq!(str_of(request.get("title").unwrap()), "Test Title");
    assert_eq!(str_of(request.get("text").unwrap()), "Test content");
    assert_eq!(str_of(request.get("collectionId").unwrap()), "collection-id");
}

#[test]
fn test_search_documents_request() {
    let request = search_documents_request("test query", Some(10));
    assert_eq!(str_of(request.get("query").unwrap()), "test query");
    assert_eq!(request.get("limit").unwrap().as_i64(), Some(10));
}

#[test]
fn test_update_document_request_optional_fields() {
    let request = update_document_request("doc-1", Some("New title"), None);
    assert_eq!(str_of(request.get("id").unwrap()), "doc-1");
    assert_eq!(str_of(request.get("title").unwrap()), "New title");
    assert!(request.get("text").is_none());
}

#[test]
fn test_collection_and_comment_requests() {
    let collection = create_collection_request("Notes", None);
    assert_eq!(str_of(collection.get("name").unwrap()), "Notes");
    assert!(collection.get("description").is_none());
    let comment = create_comment_request("doc-1", "hello");
    assert_eq!(str_of(comment.get("documentId").unwrap()), "doc-1");
    assert_eq!(str_of(comment.get("data").unwrap()), "hello");
}

#[test]
fn test_join_api_url() {
    assert_eq!(
        join_api_url("https://app.example.com/api", "documents.create"),
        "https://app.example.com/api/documents.create"
    );
    assert_eq!(
        join_api_url("https://app.example.com/api/", "documents.create"),
        "https://app.example.com/api/documents.create"
    );
}

#[test]
fn mod_test_get_tools_list() {
    let tools = get_tools_list();
    assert_eq!(tools.len(), 18);

    let first_tool = &tools[0];
    assert_eq!(str_of(first_tool.get("name").unwrap()), "create_document");
    assert!(str_of(first_tool.get("description").unwrap()).contains("Create"));
}

#[test]
fn test_tools_list_names_nonempty() {
    for tool in get_tools_list() {
        assert!(!str_of(tool.get("name").unwrap()).is_empty());
        assert!(!str_of(tool.get("description").unwrap()).is_empty());
    }
}

#[test]
fn test_required_excludes_optional_params() {
    let tools = get_tools_list();
    let first = &tools[0];
    let schema = first.get("inputSchema").unwrap();
    let required = match schema.get("required").unwrap() {
        JsonVal::Arr(items) => items
            .iter()
            .map(|v| str_of(v))
            .collect::<Vec<String>>(),
        _ => panic!("required is not an array"),
    };
    assert_eq!(required, vec!["title".to_string(), "text".to_string()]);
}

#[test]
fn test_tool_definition() {
    let def = ToolDef {
        name: "test_tool".to_string(),
        description: "Test description".to_string(),
        params: vec![ParamDef {
            name: "param1".to_string(),
            ptype: "string".to_string(),
            desc: "First parameter".to_string(),
        }],
    };
    let tool = tool_definition(&def);
    assert_eq!(str_of(tool.get("name").unwrap()), "test_tool");
    assert_eq!(str_of(tool.get("description").unwrap()), "Test description");
    assert!(tool
        .get("inputSchema")
        .unwrap()
        .get("properties")
        .unwrap()
        .get("param1")
        .unwrap()
        .is_object());
}

fn args_obj(pairs: Vec<(&str, &str)>) -> JsonVal {
    JsonVal::Obj(
        pairs
            .into_iter()
            .map(|(k, v)| (k.to_string(), JsonVal::Str(v.to_string())))
            .collect(),
    )
}

#[test]
fn tools_test_get_string_arg() {
    let args = args_obj(vec![("title", "Test Title")]);
    assert_eq!(get_string_arg(&args, "title").unwrap(), "Test Title");
    assert!(get_string_arg(&args, "missing").is_err());
}

#[test]
fn tools_test_get_optional_string_arg() {
    let args = args_obj(vec![("title", "Test Title")]);
    assert_eq!(get_optional_string_arg(&args, "title"), Some("Test Title".to_string()));
    assert_eq!(get_optional_string_arg(&args, "missing"), None);
}

#[test]
fn common_test_get_string_arg() {
    let args = args_obj(vec![("title", "Test Title")]);
    assert_eq!(get_string_arg(&args, "title").unwrap(), "Test Title");
    assert!(get_string_arg(&args, "missing").is_err());
}

#[test]
fn common_test_get_optional_string_arg() {
    let args = args_obj(vec![("title", "Test Title")]);
    assert_eq!(get_optional_string_arg(&args, "title"), Some("Test Title".to_string()));
    assert_eq!(get_optional_string_arg(&args, "missing"), None);
}

#[test]
fn test_call_tool_translates() {
    let args = args_obj(vec![("title", "T"), ("text", "X")]);
    let u = call_tool("create_document", &args).unwrap();
    assert_eq!(u.endpoint, "documents.create");
    assert_eq!(str_of(u.body.get("title").unwrap()), "T");
    assert_eq!(str_of(u.body.get("text").unwrap()), "X");
    assert!(u.body.get("collectionId").is_none());
}

#[test]
fn test_call_tool_unknown_tool() {
    let args = args_obj(vec![]);
    let e = call_tool("does_not_exist", &args).unwrap_err();
    assert_eq!(e.message(), "Tool error 'does_not_exist': Unknown tool");
}

#[test]
fn test_call_tool_missing_argument() {
    let args = args_obj(vec![("title", "T")]);
    let e = call_tool("create_document", &args).unwrap_err();
    assert_eq!(
        e.message(),
        "Tool error 'argument_parser': Missing required parameter 'text'"
    );
}

#[test]
fn test_search_limit_narrowing() {
    let args = JsonVal::Obj(vec![
        ("query".to_string(), JsonVal::Str("q".to_string())),
        ("limit".to_string(), JsonVal::Int(-5)),
    ]);
    let u = call_tool("search_documents", &args).unwrap();
    assert!(u.body.get("limit").is_none());
}

#[test]
fn test_get_optional_number_arg() {
    let args = JsonVal::Obj(vec![
        ("limit".to_string(), JsonVal::Int(25)),
        ("name".to_string(), JsonVal::Str("x".to_string())),
    ]);
    assert_eq!(get_optional_number_arg(&args, "limit"), Some(25));
    assert_eq!(get_optional_number_arg(&args, "name"), None);
    assert_eq!(get_optional_number_arg(&args, "missing"), None);
}

#[test]
fn test_remaining_error_messages() {
    let network = Error::Network {
        context: "HTTP request failed".to_string(),
    };
    assert_eq!(network.message(), "Network error: HTTP request failed");
    let io = Error::Io {
        operation: "read".to_string(),
    };
    assert_eq!(io.message(), "I/O error: read");
    let transport = Error::Transport {
        transport_type: "STDIO".to_string(),
    };
    assert_eq!(transport.message(), "Transport error: STDIO");
    let validation = Error::Validation {
        field: "port".to_string(),
        message: "too small".to_string(),
    };
    assert_eq!(validation.message(), "Validation error: port - too small");
    let serialization = Error::Serialization {
        context: "body".to_string(),
    };
    assert_eq!(serialization.message(), "Serialization error: body");
    let internal = Error::Internal {
        message: "boom".to_string(),
        context: None,
    };
    assert_eq!(internal.message(), "Internal error: boom");
    let protocol = Error::Protocol {
        protocol: "MCP".to_string(),
        message: "nope".to_string(),
        code: Some(-32601),
    };
    assert_eq!(protocol.message(), "Protocol error: MCP - nope");
    let json = Error::Json {
        context: "JSON operation failed".to_string(),
    };
    assert_eq!(json.message(), "JSON error: JSON operation failed");
    let constructed = Error::api_with_body(404, "missing".to_string(), "{}".to_string());
    assert_eq!(constructed.message(), "API error: 404 - missing");
}

#[test]
fn test_list_documents_optional_fields() {
    let args = JsonVal::Obj(vec![
        (
            "collection_id".to_string(),
            JsonVal::Str("c1".to_string()),
        ),
        ("limit".to_string(), JsonVal::Int(5)),
    ]);
    let u = call_tool("list_documents", &args).unwrap();
    assert_eq!(u.endpoint, "documents.list");
    assert_eq!(
        u.body.get("collectionId").unwrap().as_str().unwrap(),
        "c1"
    );
    assert_eq!(u.body.get("limit").unwrap().as_i64(), Some(5));

    let empty = JsonVal::Obj(vec![]);
    let u = call_tool("list_documents", &empty).unwrap();
    assert!(u.body.get("collectionId").is_none());
    assert!(u.body.get("limit").is_none());
}

#[test]
fn test_ask_documents_passes_array_through() {
    let args = JsonVal::Obj(vec![
        ("query".to_string(), JsonVal::Str("what".to_string())),
        (
            "document_ids".to_string(),
            JsonVal::Arr(vec![
                JsonVal::Str("a".to_string()),
                JsonVal::Str("b".to_string()),
            ]),
        ),
    ]);
    let u = call_tool("ask_documents", &args).unwrap();
    assert_eq!(u.endpoint, "documents.answerQuestion");
    match u.body.get("documentIds").unwrap() {
        JsonVal::Arr(items) => assert_eq!(items.len(), 2),
        _ => panic!("documentIds is not an array"),
    }
}

#[test]
fn test_config_from_values_defaults() {
    let config = Config::from_values("valid-api-key-123".to_string(), None, None, None, None)
        .unwrap();
    assert_eq!(config.outline_api_url, "https://app.getoutline.com/api");
    assert_eq!(config.http_host, "127.0.0.1");
    assert_eq!(config.http_port.as_u16(), 3000);
    assert_eq!(config.log_level.as_str(), "info");
    assert!(Config::from_values("short".to_string(), None, None, None, None).is_err());
    assert!(
        Config::from_values("valid-api-key-123".to_string(), None, None, Some(80), None).is_err()
    );
}
