//! The method dispatcher: one inbound text in, one step out. A step is
//! the exact bytes to write back, silence, or the upstream call to make,
//! whose outcome `finish_request` turns into the final bytes.

use vstd::prelude::*;
use vstd::string::StringExecFns;

use crate::codec::{encode_json, spec_enc_json};
use crate::envelope::{
    decode_envelope, encode_envelope, spec_envelope_text, spec_text_envelope, DecodeError, EnvSpec,
    Envelope,
};
use crate::error::{spec_message, Error};
use crate::json::{copy_json, j_view_list, j_view_members, obj_push, spec_get, JsonSpec, JsonVal};
use crate::text::str_eq;
use crate::tools::{
    call_tool, get_tools_list, spec_call_tool, spec_opt_str, spec_tools_list, ToolErrSpec,
};

verus! {

/// The result of `initialize`: protocol version, capabilities, and the
/// server identity.
pub open spec fn spec_initialize_result() -> JsonSpec {
    JsonSpec::Obj(
        seq![
            ("protocolVersion"@, JsonSpec::Str("2024-11-05"@)),
            (
                "capabilities"@,
                JsonSpec::Obj(seq![("tools"@, JsonSpec::Obj(Seq::empty()))]),
            ),
            (
                "serverInfo"@,
                JsonSpec::Obj(
                    seq![
                        ("name"@, JsonSpec::Str("outline-mcp-rs"@)),
                        ("version"@, JsonSpec::Str("0.1.0"@)),
                    ],
                ),
            ),
        ],
    )
}

/// The result of `tools/list`: the registry descriptors.
pub open spec fn spec_tools_list_result() -> JsonSpec {
    JsonSpec::Obj(seq![("tools"@, JsonSpec::Arr(spec_tools_list()))])
}

/// The wire text of a success response.
pub open spec fn spec_success_text(result: JsonSpec, id: Option<JsonSpec>) -> Seq<char> {
    spec_envelope_text(EnvSpec::Success { result, id })
}

/// The wire text of an error response: the collapsed wire code, the
/// failure's text, and the echoed id.
pub open spec fn spec_error_text(msg: Seq<char>, id: Option<JsonSpec>) -> Seq<char> {
    spec_envelope_text(EnvSpec::Failure { code: -32603, message: msg, id })
}

/// The text of a failed tool translation.
pub open spec fn spec_tool_err_text(te: ToolErrSpec) -> Seq<char> {
    match te {
        ToolErrSpec::UnknownTool(n) => "Tool error '"@ + n + "': "@ + "Unknown tool"@,
        ToolErrSpec::MissingArg(a) => "Tool error '"@ + "argument_parser"@ + "': "@
            + crate::tools::spec_missing_arg_message(a),
    }
}

/// A tool result wrapped as MCP content: one text block holding the
/// upstream value's canonical text.
pub open spec fn spec_wrap_content(v: JsonSpec) -> JsonSpec {
    JsonSpec::Obj(
        seq![
            (
                "content"@,
                JsonSpec::Arr(
                    seq![
                        JsonSpec::Obj(
                            seq![
                                ("type"@, JsonSpec::Str("text"@)),
                                ("text"@, JsonSpec::Str(spec_enc_json(v))),
                            ],
                        ),
                    ],
                ),
            ),
        ],
    )
}

/// The known methods, and everything else as one explicit case.
#[derive(Debug, Clone, Copy, PartialEq, Eq, Structural)]
pub enum Method {
    /// `initialize`.
    Initialize,
    /// `tools/list`.
    ToolsList,
    /// `tools/call`.
    ToolsCall,
    /// `notifications/initialized`.
    InitializedNotice,
    /// Any other name.
    Unrecognized,
}

/// The method a name selects, by exact, case-sensitive match.
pub open spec fn spec_classify_method(m: Seq<char>) -> Method {
    if m == "initialize"@ {
        Method::Initialize
    } else if m == "tools/list"@ {
        Method::ToolsList
    } else if m == "notifications/initialized"@ {
        Method::InitializedNotice
    } else if m == "tools/call"@ {
        Method::ToolsCall
    } else {
        Method::Unrecognized
    }
}

/// Classifies a method name.
pub fn classify_method(m: &str) -> (r: Method)
    ensures
        r == spec_classify_method(m@),
{
    if str_eq(m, "initialize") {
        Method::Initialize
    } else if str_eq(m, "tools/list") {
        Method::ToolsList
    } else if str_eq(m, "notifications/initialized") {
        Method::InitializedNotice
    } else if str_eq(m, "tools/call") {
        Method::ToolsCall
    } else {
        Method::Unrecognized
    }
}

/// Model of one dispatch step.
pub enum StepSpec {
    /// A complete response line.
    Reply(Seq<char>),
    /// A response line for a failure ahead of dispatch.
    ErrorReply(Seq<char>),
    /// No bytes at all.
    Silent,
    /// An upstream call to make before a reply exists.
    Call { endpoint: Seq<char>, body: Seq<char>, id: Option<JsonSpec> },
}

/// An upstream call a step asks for: the endpoint, the encoded body, and
/// the id the final response echoes.
#[derive(Debug)]
pub struct PendingCall {
    pub endpoint: String,
    pub body: String,
    pub id: Option<JsonVal>,
}

/// One dispatch step: the bytes to write, silence, or a pending call.
#[derive(Debug)]
pub enum Step {
    Reply(String),
    ErrorReply(String),
    Silent,
    Call(PendingCall),
}

impl View for Step {
    type V = StepSpec;

    open spec fn view(&self) -> StepSpec {
        match self {
            Step::Reply(s) => StepSpec::Reply(s@),
            Step::ErrorReply(s) => StepSpec::ErrorReply(s@),
            Step::Silent => StepSpec::Silent,
            Step::Call(p) => StepSpec::Call {
                endpoint: p.endpoint@,
                body: p.body@,
                id: match &p.id {
                    Option::Some(v) => Option::Some(v@),
                    Option::None => Option::None,
                },
            },
        }
    }
}

/// The step a method and its parameters produce.
pub open spec fn spec_dispatch(
    method: Seq<char>,
    params: JsonSpec,
    id: Option<JsonSpec>,
) -> StepSpec {
    match spec_classify_method(method) {
        Method::Initialize => StepSpec::Reply(spec_success_text(spec_initialize_result(), id)),
        Method::ToolsList => StepSpec::Reply(spec_success_text(spec_tools_list_result(), id)),
        Method::InitializedNotice => StepSpec::Silent,
        Method::ToolsCall => match spec_opt_str(params, "name"@) {
            Option::None => StepSpec::Reply(
                spec_error_text(
                    "Protocol error: "@ + "MCP"@ + " - "@ + "Missing 'name' parameter"@,
                    id,
                ),
            ),
            Option::Some(n) => {
                let args = match spec_get(params, "arguments"@) {
                    Option::Some(a) => a,
                    Option::None => JsonSpec::Obj(Seq::empty()),
                };
                match spec_call_tool(n, args) {
                    Result::Ok((ep, body)) => StepSpec::Call {
                        endpoint: ep,
                        body: spec_enc_json(body),
                        id,
                    },
                    Result::Err(te) => StepSpec::Reply(spec_error_text(spec_tool_err_text(te), id)),
                }
            },
        },
        Method::Unrecognized => StepSpec::Reply(
            spec_error_text(
                "Protocol error: "@ + "MCP"@ + " - "@ + "Unknown method: "@ + method,
                id,
            ),
        ),
    }
}

/// The text of the error response sent when the input is no structured
/// text at all.
pub open spec fn spec_parse_error_text() -> Seq<char> {
    spec_error_text("JSON error: "@ + "JSON operation failed"@, Option::Some(JsonSpec::Null))
}

/// The text of the error response sent when the input has no `method`.
pub open spec fn spec_missing_method_text() -> Seq<char> {
    spec_error_text(
        "Protocol error: "@ + "JSON-RPC"@ + " - "@ + "Missing 'method' field"@,
        Option::Some(JsonSpec::Null),
    )
}

/// The step one inbound text produces: malformed text and method-less
/// envelopes fail ahead of dispatch; requests and notifications dispatch
/// by method, the notification without an id to echo.
pub open spec fn spec_handle_request(s: Seq<char>) -> StepSpec {
    match spec_text_envelope(s) {
        Result::Err(true) => StepSpec::ErrorReply(spec_parse_error_text()),
        Result::Err(false) => StepSpec::ErrorReply(spec_missing_method_text()),
        Result::Ok(e) => match e {
            EnvSpec::Request { method, params, id } => spec_dispatch(
                method,
                params,
                Option::Some(id),
            ),
            EnvSpec::Notification { method, params } => spec_dispatch(method, params, Option::None),
            _ => StepSpec::ErrorReply(spec_missing_method_text()),
        },
    }
}

/// The fixed `initialize` result.
pub fn handle_initialize() -> (r: JsonVal)
    ensures
        r@ == spec_initialize_result(),
{
    let mut caps: Vec<(String, JsonVal)> = Vec::new();
    proof {
        assert(j_view_members(caps@) =~= Seq::<(Seq<char>, JsonSpec)>::empty());
    }
    obj_push(&mut caps, "tools", JsonVal::Obj(Vec::new()));
    let mut info: Vec<(String, JsonVal)> = Vec::new();
    proof {
        assert(j_view_members(info@) =~= Seq::<(Seq<char>, JsonSpec)>::empty());
    }
    obj_push(&mut info, "name", crate::json::str_val("outline-mcp-rs"));
    obj_push(&mut info, "version", crate::json::str_val("0.1.0"));
    let mut top: Vec<(String, JsonVal)> = Vec::new();
    proof {
        assert(j_view_members(top@) =~= Seq::<(Seq<char>, JsonSpec)>::empty());
    }
    obj_push(&mut top, "protocolVersion", crate::json::str_val("2024-11-05"));
    obj_push(&mut top, "capabilities", JsonVal::Obj(caps));
    obj_push(&mut top, "serverInfo", JsonVal::Obj(info));
    let r = JsonVal::Obj(top);
    proof {
        assert(j_view_members(Seq::<(String, JsonVal)>::empty())
            =~= Seq::<(Seq<char>, JsonSpec)>::empty());
        assert(j_view_members(caps@) =~= seq![("tools"@, JsonSpec::Obj(Seq::empty()))]);
        assert(j_view_members(info@) =~= seq![
            ("name"@, JsonSpec::Str("outline-mcp-rs"@)),
            ("version"@, JsonSpec::Str("0.1.0"@)),
        ]);
        assert(r@->Obj_0 =~= spec_initialize_result()->Obj_0);
    }
    r
}

/// The `tools/list` result.
pub fn handle_tools_list() -> (r: JsonVal)
    ensures
        r@ == spec_tools_list_result(),
{
    let tools = get_tools_list();
    let mut top: Vec<(String, JsonVal)> = Vec::new();
    proof {
        assert(j_view_members(top@) =~= Seq::<(Seq<char>, JsonSpec)>::empty());
    }
    obj_push(&mut top, "tools", JsonVal::Arr(tools));
    let r = JsonVal::Obj(top);
    proof {
        assert(r@->Obj_0 =~= spec_tools_list_result()->Obj_0);
    }
    r
}

/// A success envelope with the echoed id.
pub fn create_success_response(id: Option<&JsonVal>, result: JsonVal) -> (r: Envelope)
    ensures
        r@ == (EnvSpec::Success {
            result: result@,
            id: match id {
                Option::Some(v) => Option::Some(v@),
                Option::None => Option::None,
            },
        }),
{
    let idc = match id {
        Option::Some(v) => Option::Some(copy_json(v)),
        Option::None => Option::None,
    };
    Envelope::Success { result, id: idc }
}

/// A failure envelope with the echoed id and the collapsed wire code.
pub fn create_error_response_with_id(id: Option<&JsonVal>, e: &Error) -> (r: Envelope)
    ensures
        r@ == (EnvSpec::Failure {
            code: -32603,
            message: spec_message(*e),
            id: match id {
                Option::Some(v) => Option::Some(v@),
                Option::None => Option::None,
            },
        }),
{
    let idc = match id {
        Option::Some(v) => Option::Some(copy_json(v)),
        Option::None => Option::None,
    };
    Envelope::Failure { code: -32603i64, message: e.message(), id: idc }
}

/// The wire text of a failure that could not be tied to a request: the
/// collapsed wire code with a null id.
pub fn create_error_response(e: &Error) -> (r: String)
    ensures
        r@ == spec_error_text(spec_message(*e), Option::Some(JsonSpec::Null)),
{
    let env = Envelope::Failure { code: -32603i64, message: e.message(), id: Some(JsonVal::Null) };
    encode_envelope(&env)
}

/// The protocol failure for a `tools/call` without a `name`: it carries
/// the specific code of the invalid-params class before the wire collapse.
pub fn missing_name_error() -> (r: Error)
    ensures
        r matches Error::Protocol { protocol, message, code } && protocol@ == "MCP"@ && message@
            == "Missing 'name' parameter"@ && code == Option::Some(-32602i64),
{
    Error::Protocol {
        protocol: String::from_str("MCP"),
        message: String::from_str("Missing 'name' parameter"),
        code: Some(-32602i64),
    }
}

fn reply_success(result: JsonVal, id: Option<JsonVal>) -> (r: String)
    ensures
        r@ == spec_success_text(
            result@,
            match id {
                Option::Some(v) => Option::Some(v@),
                Option::None => Option::None,
            },
        ),
{
    let env = Envelope::Success { result, id };
    encode_envelope(&env)
}

fn reply_error(e: &Error, id: Option<JsonVal>) -> (r: String)
    ensures
        r@ == spec_error_text(
            spec_message(*e),
            match id {
                Option::Some(v) => Option::Some(v@),
                Option::None => Option::None,
            },
        ),
{
    let env = Envelope::Failure { code: -32603i64, message: e.message(), id };
    encode_envelope(&env)
}

fn dispatch(method: &String, params: JsonVal, id: Option<JsonVal>) -> (r: Step)
    ensures
        r@ == spec_dispatch(
            method@,
            params@,
            match id {
                Option::Some(v) => Option::Some(v@),
                Option::None => Option::None,
            },
        ),
{
    match classify_method(method.as_str()) {
        Method::Initialize => Step::Reply(reply_success(handle_initialize(), id)),
        Method::ToolsList => Step::Reply(reply_success(handle_tools_list(), id)),
        Method::InitializedNotice => Step::Silent,
        Method::ToolsCall => {
            let name: Option<String> = match params.get("name") {
            Option::Some(v) => match v.as_str() {
                Option::Some(s) => Option::Some(s.clone()),
                Option::None => Option::None,
            },
            Option::None => Option::None,
        };
            match name {
                Option::None => {
                    let e = missing_name_error();
                    Step::Reply(reply_error(&e, id))
                },
                Option::Some(n) => {
                    let args = match params.get("arguments") {
                        Option::Some(a) => copy_json(a),
                        Option::None => JsonVal::Obj(Vec::new()),
                    };
                    proof {
                        assert(j_view_members(Seq::<(String, JsonVal)>::empty())
                            =~= Seq::<(Seq<char>, JsonSpec)>::empty());
                    }
                    match call_tool(n.as_str(), &args) {
                        Result::Ok(u) => {
                            let body = encode_json(&u.body);
                            Step::Call(PendingCall { endpoint: u.endpoint, body, id })
                        },
                        Result::Err(e) => Step::Reply(reply_error(&e, id)),
                    }
                },
            }
        },
        Method::Unrecognized => {
            let e = Error::Protocol {
                protocol: String::from_str("MCP"),
                message: crate::text::concat2("Unknown method: ", method.as_str()),
                code: Some(-32601i64),
            };
            proof {
                assert(spec_message(e) =~= "Protocol error: "@ + "MCP"@ + " - "@
                    + "Unknown method: "@ + method@);
            }
            Step::Reply(reply_error(&e, id))
        },
    }
}

/// Processes one inbound message text into its step.
pub fn handle_request(input: &str) -> (r: Step)
    ensures
        r@ == spec_handle_request(input@),
{
    match decode_envelope(input) {
        Result::Err(DecodeError::Parse) => {
            let e = Error::Json { context: String::from_str("JSON operation failed") };
            Step::ErrorReply(create_error_response(&e))
        },
        Result::Err(DecodeError::Protocol) => {
            let e = Error::Protocol {
                protocol: String::from_str("JSON-RPC"),
                message: String::from_str("Missing 'method' field"),
                code: Some(-32600i64),
            };
            Step::ErrorReply(create_error_response(&e))
        },
        Result::Ok(env) => match env {
            Envelope::Request { method, params, id } => dispatch(&method, params, Some(id)),
            Envelope::Notification { method, params } => dispatch(&method, params, None),
            _ => {
                let e = Error::Protocol {
                    protocol: String::from_str("JSON-RPC"),
                    message: String::from_str("Missing 'method' field"),
                    code: Some(-32600i64),
                };
                Step::ErrorReply(create_error_response(&e))
            },
        },
    }
}

/// The final reply of an upstream exchange: a success status with a
/// well-formed body yields the content-wrapped result; everything else
/// yields the failure's error response. The reply always echoes `id`.
pub open spec fn spec_finish_request(
    id: Option<JsonSpec>,
    status: u16,
    body: Seq<char>,
) -> Seq<char> {
    if 200 <= status < 300 {
        match crate::codec::spec_parse_text(body) {
            Option::Some(v) => spec_success_text(spec_wrap_content(v), id),
            Option::None => spec_error_text(
                "JSON error: "@ + "Failed to parse API response: "@ + body,
                id,
            ),
        }
    } else {
        spec_error_text(
            "API error: "@ + crate::codec::spec_enc_nat(status as nat) + " - "@
                + "API request failed with status "@ + crate::codec::spec_enc_nat(status as nat),
            id,
        )
    }
}

/// Wraps an upstream value as MCP content.
pub fn wrap_tool_result(v: &JsonVal) -> (r: JsonVal)
    ensures
        r@ == spec_wrap_content(v@),
{
    let text = encode_json(v);
    let mut block: Vec<(String, JsonVal)> = Vec::new();
    proof {
        assert(j_view_members(block@) =~= Seq::<(Seq<char>, JsonSpec)>::empty());
    }
    obj_push(&mut block, "type", crate::json::str_val("text"));
    obj_push(&mut block, "text", JsonVal::Str(text));
    let mut arr: Vec<JsonVal> = Vec::new();
    arr.push(JsonVal::Obj(block));
    let mut top: Vec<(String, JsonVal)> = Vec::new();
    proof {
        assert(j_view_members(top@) =~= Seq::<(Seq<char>, JsonSpec)>::empty());
    }
    obj_push(&mut top, "content", JsonVal::Arr(arr));
    let r = JsonVal::Obj(top);
    proof {
        broadcast use crate::json::lemma_j_view_list_index;

        assert(j_view_members(block@) =~= seq![
            ("type"@, JsonSpec::Str("text"@)),
            ("text"@, JsonSpec::Str(text@)),
        ]);
        assert(j_view_list(arr@).len() == 1);
        assert(j_view_list(arr@)[0] == crate::json::j_view(arr@[0]));
        assert(j_view_list(arr@) =~= spec_wrap_content(v@)->Obj_0[0].1->Arr_0);
        assert(r@->Obj_0 =~= spec_wrap_content(v@)->Obj_0);
    }
    r
}

/// Turns the upstream outcome of a pending call into the reply line.
pub fn finish_request(id: Option<JsonVal>, status: u16, body: &str) -> (r: String)
    ensures
        r@ == spec_finish_request(
            match id {
                Option::Some(v) => Option::Some(v@),
                Option::None => Option::None,
            },
            status,
            body@,
        ),
{
    match crate::outline::interpret_api_response(status, body) {
        Result::Ok(v) => {
            let wrapped = wrap_tool_result(&v);
            reply_success(wrapped, id)
        },
        Result::Err(e) => {
            proof {
                match &e {
                    Error::Json { context } => {
                        assert(spec_message(e) =~= "JSON error: "@
                            + "Failed to parse API response: "@ + body@);
                    },
                    Error::Api { status: st, message, body: b } => {
                        assert(spec_message(e) =~= "API error: "@ + crate::codec::spec_enc_nat(
                            status as nat,
                        ) + " - "@ + "API request failed with status "@
                            + crate::codec::spec_enc_nat(status as nat));
                    },
                    _ => {},
                }
            }
            reply_error(&e, id)
        },
    }
}

/// The step of one transport line: blank lines are skipped in silence.
pub open spec fn spec_process_line(s: Seq<char>) -> StepSpec {
    if crate::text::spec_all_blank(s) {
        StepSpec::Silent
    } else {
        spec_handle_request(s)
    }
}

/// Processes one line of the line transport.
pub fn process_line(input: &str) -> (r: Step)
    ensures
        r@ == spec_process_line(input@),
{
    if crate::text::is_blank(input) {
        Step::Silent
    } else {
        handle_request(input)
    }
}


proof fn lemma_method_names_distinct()
    ensures
        "notifications/initialized"@ != "initialize"@,
        "notifications/initialized"@ != "tools/list"@,
        "notifications/initialized"@ != "tools/call"@,
        "tools/call"@ != "initialize"@,
        "tools/call"@ != "tools/list"@,
{
    reveal_strlit("notifications/initialized");
    reveal_strlit("initialize");
    reveal_strlit("tools/list");
    reveal_strlit("tools/call");
    assert("notifications/initialized"@.len() == 25 && "initialize"@.len() == 10
        && "tools/list"@.len() == 10 && "tools/call"@.len() == 10);
    assert("tools/call"@[6] == 'c' && "tools/list"@[6] == 'l' && "initialize"@[6] == 'l');
}

/// An `initialized` notification produces no response bytes at all,
/// whether the message carries an id or none.
pub proof fn lemma_initialized_is_silent(s: Seq<char>)
    requires
        match spec_text_envelope(s) {
            Result::Ok(e) => match e {
                EnvSpec::Request { method, params, id } => method
                    == "notifications/initialized"@,
                EnvSpec::Notification { method, params } => method
                    == "notifications/initialized"@,
                _ => false,
            },
            Result::Err(_) => false,
        },
    ensures
        spec_handle_request(s) == StepSpec::Silent,
{
    lemma_method_names_distinct();
}

/// An unknown method yields an error response that echoes the request id;
/// the response carries the collapsed wire code, which no success uses.
pub proof fn lemma_unknown_method_echoes_id(
    s: Seq<char>,
    method: Seq<char>,
    params: JsonSpec,
    id: JsonSpec,
)
    requires
        spec_text_envelope(s) == Result::<EnvSpec, bool>::Ok(
            EnvSpec::Request { method, params, id },
        ),
        method != "initialize"@,
        method != "tools/list"@,
        method != "tools/call"@,
        method != "notifications/initialized"@,
    ensures
        spec_handle_request(s) == StepSpec::Reply(
            spec_error_text(
                "Protocol error: "@ + "MCP"@ + " - "@ + "Unknown method: "@ + method,
                Option::Some(id),
            ),
        ),
{
}

/// A `tools/call` whose parameters bind no string to `name` fails with
/// the missing-name protocol error, the invalid-params class, and asks
/// for no upstream call: the registry is never consulted.
pub proof fn lemma_tools_call_missing_name(s: Seq<char>, params: JsonSpec, id: JsonSpec)
    requires
        spec_text_envelope(s) == Result::<EnvSpec, bool>::Ok(
            EnvSpec::Request { method: "tools/call"@, params, id },
        ),
        spec_opt_str(params, "name"@) is None,
    ensures
        spec_handle_request(s) == StepSpec::Reply(
            spec_error_text(
                "Protocol error: "@ + "MCP"@ + " - "@ + "Missing 'name' parameter"@,
                Option::Some(id),
            ),
        ),
        !(spec_handle_request(s) is Call),
{
    lemma_method_names_distinct();
}

} // verus!

