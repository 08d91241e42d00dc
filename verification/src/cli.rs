//! Command-line vocabulary: the commands, the identity strings, and the
//! help text. Reading the process arguments and exiting stays outside.

use vstd::prelude::*;

use crate::text::str_eq;

verus! {

/// What the command line asks for.
#[derive(Debug, PartialEq, Eq, Structural)]
pub enum CliCommand {
    /// Serve over the connection transport.
    Http,
    /// Serve over the standard streams (the default).
    Stdio,
    /// Print the help text.
    Help,
    /// Print the version.
    Version,
}

/// The name the program goes by.
pub fn server_name() -> (r: &'static str)
    ensures
        r@ == "outline-mcp-rs"@,
{
    "outline-mcp-rs"
}

/// The program version.
pub fn server_version() -> (r: &'static str)
    ensures
        r@ == "0.1.0"@,
{
    "0.1.0"
}

/// The command a first argument selects: the default transport with no
/// argument, and nothing at all for an unknown argument.
pub fn command_for_arg(arg: Option<&str>) -> (r: Option<CliCommand>)
    ensures
        match arg {
            Option::None => r == Option::Some(CliCommand::Stdio),
            Option::Some(a) => {
                if a@ == "--help"@ || a@ == "-h"@ || a@ == "help"@ {
                    r == Option::Some(CliCommand::Help)
                } else if a@ == "--version"@ || a@ == "-v"@ || a@ == "version"@ {
                    r == Option::Some(CliCommand::Version)
                } else if a@ == "--http"@ || a@ == "http"@ {
                    r == Option::Some(CliCommand::Http)
                } else {
                    r is None
                }
            },
        },
{
    match arg {
        Option::None => Some(CliCommand::Stdio),
        Option::Some(a) => {
            if str_eq(a, "--help") || str_eq(a, "-h") || str_eq(a, "help") {
                Some(CliCommand::Help)
            } else if str_eq(a, "--version") || str_eq(a, "-v") || str_eq(a, "version") {
                Some(CliCommand::Version)
            } else if str_eq(a, "--http") || str_eq(a, "http") {
                Some(CliCommand::Http)
            } else {
                None
            }
        },
    }
}

/// The help text.
pub fn help_text() -> (r: &'static str)
    ensures
        r@.len() > 0,
{
    let r = "outline-mcp-rs - an MCP server for an Outline knowledge base\n\nUSAGE:\n    outline-mcp-rs [COMMAND]\n\nCOMMANDS:\n    --http, http        serve MCP over HTTP on the configured address\n    --help, -h, help    print this help\n    --version, -v       print the version\n\nWith no command the server speaks MCP over the standard streams.\n\nENVIRONMENT:\n    OUTLINE_API_KEY     required; the upstream API key\n    OUTLINE_API_URL     the upstream API base URL\n    HTTP_HOST           bind host for HTTP mode\n    HTTP_PORT           bind port for HTTP mode (1024 or above)\n    RUST_LOG            log verbosity\n\nCURSOR IDE:\n    register the binary as an MCP server command with OUTLINE_API_KEY\n    set in the server environment.\n";
    proof {
        reveal_strlit(
            "outline-mcp-rs - an MCP server for an Outline knowledge base\n\nUSAGE:\n    outline-mcp-rs [COMMAND]\n\nCOMMANDS:\n    --http, http        serve MCP over HTTP on the configured address\n    --help, -h, help    print this help\n    --version, -v       print the version\n\nWith no command the server speaks MCP over the standard streams.\n\nENVIRONMENT:\n    OUTLINE_API_KEY     required; the upstream API key\n    OUTLINE_API_URL     the upstream API base URL\n    HTTP_HOST           bind host for HTTP mode\n    HTTP_PORT           bind port for HTTP mode (1024 or above)\n    RUST_LOG            log verbosity\n\nCURSOR IDE:\n    register the binary as an MCP server command with OUTLINE_API_KEY\n    set in the server environment.\n",
        );
    }
    r
}

} // verus!
