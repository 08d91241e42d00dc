//! Failure taxonomy and the texts that reach the wire.

use vstd::prelude::*;

use crate::codec::spec_enc_nat;
use crate::text::{chars_to_string, concat2, concat3};

verus! {

/// A failure inside the engine. Kinds below the dispatcher are collapsed
/// into one wire code; the kind and its code stay visible here.
#[derive(Debug)]
pub enum Error {
    /// Invalid configuration.
    Config { message: String },
    /// A network-level failure around an outbound call.
    Network { context: String },
    /// A non-success status from the upstream API.
    Api { status: u16, message: String, body: Option<String> },
    /// A protocol violation, with the JSON-RPC code it corresponds to.
    Protocol { protocol: String, message: String, code: Option<i64> },
    /// A tool that failed or does not exist.
    Tool { tool_name: String, message: String },
    /// A transport-level failure.
    Transport { transport_type: String },
    /// Text that could not be read or written as structured data.
    Json { context: String },
    /// An input that failed validation.
    Validation { field: String, message: String },
    /// A value that could not be serialized.
    Serialization { context: String },
    /// A failed stream operation.
    Io { operation: String },
    /// Any other internal failure.
    Internal { message: String, context: Option<String> },
}

/// The human-readable text of a failure, as the wire carries it.
pub open spec fn spec_message(e: Error) -> Seq<char> {
    match e {
        Error::Config { message } => "Configuration error: "@ + message@,
        Error::Network { context } => "Network error: "@ + context@,
        Error::Api { status, message, body } => "API error: "@ + spec_enc_nat(status as nat)
            + " - "@ + message@,
        Error::Protocol { protocol, message, code } => "Protocol error: "@ + protocol@ + " - "@
            + message@,
        Error::Tool { tool_name, message } => "Tool error '"@ + tool_name@ + "': "@ + message@,
        Error::Transport { transport_type } => "Transport error: "@ + transport_type@,
        Error::Json { context } => "JSON error: "@ + context@,
        Error::Validation { field, message } => "Validation error: "@ + field@ + " - "@ + message@,
        Error::Serialization { context } => "Serialization error: "@ + context@,
        Error::Io { operation } => "I/O error: "@ + operation@,
        Error::Internal { message, context } => "Internal error: "@ + message@,
    }
}

/// Decimal text of an unsigned 16-bit value.
pub fn u16_string(n: u16) -> (r: String)
    ensures
        r@ == spec_enc_nat(n as nat),
{
    let mut out: Vec<char> = Vec::new();
    crate::codec::enc_nat_into(n as u64, &mut out);
    proof {
        assert(out@ =~= spec_enc_nat(n as nat));
    }
    chars_to_string(&out)
}

impl Error {
    /// The text of this failure.
    pub fn message(&self) -> (r: String)
        ensures
            r@ == spec_message(*self),
    {
        match self {
            Error::Config { message } => concat2("Configuration error: ", message.as_str()),
            Error::Network { context } => concat2("Network error: ", context.as_str()),
            Error::Api { status, message, body } => {
                let digits = u16_string(*status);
                let head = concat2("API error: ", digits.as_str());
                let r = concat3(head.as_str(), " - ", message.as_str());
                proof {
                    assert(r@ =~= spec_message(*self));
                }
                r
            },
            Error::Protocol { protocol, message, code } => {
                let head = concat2("Protocol error: ", protocol.as_str());
                let r = concat3(head.as_str(), " - ", message.as_str());
                proof {
                    assert(r@ =~= spec_message(*self));
                }
                r
            },
            Error::Tool { tool_name, message } => {
                let head = concat2("Tool error '", tool_name.as_str());
                let r = concat3(head.as_str(), "': ", message.as_str());
                proof {
                    assert(r@ =~= spec_message(*self));
                }
                r
            },
            Error::Transport { transport_type } => concat2(
                "Transport error: ",
                transport_type.as_str(),
            ),
            Error::Json { context } => concat2("JSON error: ", context.as_str()),
            Error::Validation { field, message } => {
                let head = concat2("Validation error: ", field.as_str());
                let r = concat3(head.as_str(), " - ", message.as_str());
                proof {
                    assert(r@ =~= spec_message(*self));
                }
                r
            },
            Error::Serialization { context } => concat2("Serialization error: ", context.as_str()),
            Error::Io { operation } => concat2("I/O error: ", operation.as_str()),
            Error::Internal { message, context } => concat2("Internal error: ", message.as_str()),
        }
    }

    /// A configuration failure.
    pub fn config(message: String) -> (r: Error)
        ensures
            r == (Error::Config { message }),
    {
        Error::Config { message }
    }

    /// An upstream failure without a captured body.
    pub fn api(status: u16, message: String) -> (r: Error)
        ensures
            r == (Error::Api { status, message, body: Option::None }),
    {
        Error::Api { status, message, body: None }
    }

    /// An upstream failure with the response body kept.
    pub fn api_with_body(status: u16, message: String, body: String) -> (r: Error)
        ensures
            r == (Error::Api { status, message, body: Option::Some(body) }),
    {
        Error::Api { status, message, body: Some(body) }
    }

    /// A structured-data failure.
    pub fn json(context: String) -> (r: Error)
        ensures
            r == (Error::Json { context }),
    {
        Error::Json { context }
    }

    /// A stream failure.
    pub fn io(operation: String) -> (r: Error)
        ensures
            r == (Error::Io { operation }),
    {
        Error::Io { operation }
    }

    /// A transport failure.
    pub fn transport(transport_type: String) -> (r: Error)
        ensures
            r == (Error::Transport { transport_type }),
    {
        Error::Transport { transport_type }
    }
}

} // verus!
