//! JSON-RPC 2.0 envelopes: requests, notifications and the two response
//! shapes, with a faithful distinction between an absent `id` key and an
//! `id` of `null`.

use vstd::prelude::*;
use vstd::string::StringExecFns;

use crate::codec::{spec_enc_json, spec_parse_text};
use crate::json::{copy_json, j_view, spec_get, wf_json, JsonSpec, JsonVal};

verus! {

/// One inbound or outbound protocol envelope.
#[derive(Debug)]
pub enum Envelope {
    /// A call that expects a response; `id` is echoed back, `null` included.
    Request { method: String, params: JsonVal, id: JsonVal },
    /// A call without an `id` key; the caller expects no correlation.
    Notification { method: String, params: JsonVal },
    /// A response carrying a result.
    Success { result: JsonVal, id: Option<JsonVal> },
    /// A response carrying an error object.
    Failure { code: i64, message: String, id: Option<JsonVal> },
}

/// Mathematical model of an envelope.
pub enum EnvSpec {
    Request { method: Seq<char>, params: JsonSpec, id: JsonSpec },
    Notification { method: Seq<char>, params: JsonSpec },
    Success { result: JsonSpec, id: Option<JsonSpec> },
    Failure { code: int, message: Seq<char>, id: Option<JsonSpec> },
}

impl View for Envelope {
    type V = EnvSpec;

    open spec fn view(&self) -> EnvSpec {
        match self {
            Envelope::Request { method, params, id } => EnvSpec::Request {
                method: method@,
                params: params@,
                id: id@,
            },
            Envelope::Notification { method, params } => EnvSpec::Notification {
                method: method@,
                params: params@,
            },
            Envelope::Success { result, id } => EnvSpec::Success {
                result: result@,
                id: match id {
                    Option::Some(v) => Option::Some(v@),
                    Option::None => Option::None,
                },
            },
            Envelope::Failure { code, message, id } => EnvSpec::Failure {
                code: *code as int,
                message: message@,
                id: match id {
                    Option::Some(v) => Option::Some(v@),
                    Option::None => Option::None,
                },
            },
        }
    }
}

/// A well-formed envelope: integers fit 64 bits and the method is non-empty.
pub open spec fn wf_envelope(e: EnvSpec) -> bool {
    match e {
        EnvSpec::Request { method, params, id } => method.len() > 0 && wf_json(params) && wf_json(
            id,
        ),
        EnvSpec::Notification { method, params } => method.len() > 0 && wf_json(params),
        EnvSpec::Success { result, id } => wf_json(result) && (match id {
            Option::Some(v) => wf_json(v),
            Option::None => true,
        }),
        EnvSpec::Failure { code, message, id } => i64::MIN <= code <= i64::MAX && (match id {
            Option::Some(v) => wf_json(v),
            Option::None => true,
        }),
    }
}

/// Structured form of an envelope, `jsonrpc` first, then the payload, then
/// the `id` where one belongs.
pub open spec fn spec_envelope_json(e: EnvSpec) -> JsonSpec {
    match e {
        EnvSpec::Request { method, params, id } => JsonSpec::Obj(
            seq![
                ("jsonrpc"@, JsonSpec::Str("2.0"@)),
                ("method"@, JsonSpec::Str(method)),
                ("params"@, params),
                ("id"@, id),
            ],
        ),
        EnvSpec::Notification { method, params } => JsonSpec::Obj(
            seq![
                ("jsonrpc"@, JsonSpec::Str("2.0"@)),
                ("method"@, JsonSpec::Str(method)),
                ("params"@, params),
            ],
        ),
        EnvSpec::Success { result, id } => JsonSpec::Obj(
            match id {
                Option::Some(v) => seq![
                    ("jsonrpc"@, JsonSpec::Str("2.0"@)),
                    ("result"@, result),
                    ("id"@, v),
                ],
                Option::None => seq![("jsonrpc"@, JsonSpec::Str("2.0"@)), ("result"@, result)],
            },
        ),
        EnvSpec::Failure { code, message, id } => JsonSpec::Obj(
            {
                let err = JsonSpec::Obj(
                    seq![("code"@, JsonSpec::Int(code)), ("message"@, JsonSpec::Str(message))],
                );
                match id {
                    Option::Some(v) => seq![
                        ("jsonrpc"@, JsonSpec::Str("2.0"@)),
                        ("error"@, err),
                        ("id"@, v),
                    ],
                    Option::None => seq![("jsonrpc"@, JsonSpec::Str("2.0"@)), ("error"@, err)],
                }
            },
        ),
    }
}

/// Classification of a structured value as an envelope. A `method` member
/// that is a string makes it a request or a notification, by the presence
/// of the `id` key; otherwise a `result` member makes it a success and a
/// well-shaped `error` member a failure. `params` defaults to an empty
/// object. `None` stands for a value of no envelope shape.
pub open spec fn spec_json_envelope(v: JsonSpec) -> Option<EnvSpec> {
    match spec_get(v, "method"@) {
        Option::Some(JsonSpec::Str(m)) => {
            let params = match spec_get(v, "params"@) {
                Option::Some(p) => p,
                Option::None => JsonSpec::Obj(Seq::empty()),
            };
            match spec_get(v, "id"@) {
                Option::Some(idv) => Option::Some(
                    EnvSpec::Request { method: m, params: params, id: idv },
                ),
                Option::None => Option::Some(
                    EnvSpec::Notification { method: m, params: params },
                ),
            }
        },
        _ => match spec_get(v, "result"@) {
            Option::Some(r) => Option::Some(
                EnvSpec::Success { result: r, id: spec_get(v, "id"@) },
            ),
            Option::None => match spec_get(v, "error"@) {
                Option::Some(err) => match (spec_get(err, "code"@), spec_get(err, "message"@)) {
                    (Option::Some(JsonSpec::Int(c)), Option::Some(JsonSpec::Str(msg))) =>
                        Option::Some(
                        EnvSpec::Failure { code: c, message: msg, id: spec_get(v, "id"@) },
                    ),
                    _ => Option::None,
                },
                _ => Option::None,
            },
        },
    }
}

/// The wire text of an envelope.
pub open spec fn spec_envelope_text(e: EnvSpec) -> Seq<char> {
    spec_enc_json(spec_envelope_json(e))
}

/// Decode of wire text into an envelope: `Err(true)` is malformed text,
/// `Err(false)` a structured value of no envelope shape.
pub open spec fn spec_text_envelope(s: Seq<char>) -> Result<EnvSpec, bool> {
    match spec_parse_text(s) {
        Option::None => Result::Err(true),
        Option::Some(v) => match spec_json_envelope(v) {
            Option::Some(e) => Result::Ok(e),
            Option::None => Result::Err(false),
        },
    }
}

proof fn lemma_keys_distinct()
    ensures
        "jsonrpc"@ != "method"@,
        "jsonrpc"@ != "params"@,
        "jsonrpc"@ != "id"@,
        "jsonrpc"@ != "result"@,
        "jsonrpc"@ != "error"@,
        "method"@ != "params"@,
        "method"@ != "id"@,
        "method"@ != "result"@,
        "method"@ != "error"@,
        "params"@ != "id"@,
        "result"@ != "id"@,
        "error"@ != "id"@,
        "error"@ != "result"@,
        "code"@ != "message"@,
{
    reveal_strlit("jsonrpc");
    reveal_strlit("method");
    reveal_strlit("params");
    reveal_strlit("id");
    reveal_strlit("result");
    reveal_strlit("error");
    reveal_strlit("code");
    reveal_strlit("message");
    assert("jsonrpc"@.len() == 7 && "method"@.len() == 6 && "params"@.len() == 6 && "id"@.len()
        == 2 && "result"@.len() == 6 && "error"@.len() == 5 && "code"@.len() == 4
        && "message"@.len() == 7);
    assert("method"@[0] == 'm' && "params"@[0] == 'p' && "result"@[0] == 'r');
    assert("jsonrpc"@[0] == 'j' && "message"@[0] == 'm');
}

proof fn lemma_obj_get_found(ms: Seq<(Seq<char>, JsonSpec)>, key: Seq<char>)
    requires
        ms.len() > 0,
        ms[0].0 == key,
    ensures
        crate::json::spec_obj_get(ms, key) == Option::Some(ms[0].1),
{
}

proof fn lemma_obj_get_step(ms: Seq<(Seq<char>, JsonSpec)>, key: Seq<char>)
    requires
        ms.len() > 0,
        ms[0].0 != key,
    ensures
        crate::json::spec_obj_get(ms, key) == crate::json::spec_obj_get(ms.drop_first(), key),
{
}

proof fn lemma_obj_get_all(ms: Seq<(Seq<char>, JsonSpec)>, key: Seq<char>)
    requires
        forall|k: int| 0 <= k < ms.len() ==> (#[trigger] ms[k]).0 != key,
    ensures
        crate::json::spec_obj_get(ms, key) is None,
    decreases ms.len(),
{
    if ms.len() > 0 {
        lemma_obj_get_all(ms.drop_first(), key);
    }
}

proof fn lemma_wf_members_all(ms: Seq<(Seq<char>, JsonSpec)>)
    requires
        forall|k: int| 0 <= k < ms.len() ==> wf_json((#[trigger] ms[k]).1),
    ensures
        crate::json::wf_json_members(ms),
    decreases ms.len(),
{
    if ms.len() > 0 {
        lemma_wf_members_all(ms.drop_first());
    }
}

/// Reading an envelope back from its structured form yields the envelope.
pub proof fn lemma_envelope_json_round_trip(e: EnvSpec)
    requires
        wf_envelope(e),
    ensures
        spec_json_envelope(spec_envelope_json(e)) == Option::Some(e),
{
    lemma_keys_distinct();
    let v = spec_envelope_json(e);
    match e {
        EnvSpec::Request { method, params, id } => {
            let ms = spec_envelope_json(e)->Obj_0;
            lemma_obj_get_step(ms, "method"@);
            lemma_obj_get_found(ms.drop_first(), "method"@);
            lemma_obj_get_step(ms, "params"@);
            lemma_obj_get_step(ms.drop_first(), "params"@);
            lemma_obj_get_found(ms.drop_first().drop_first(), "params"@);
            lemma_obj_get_step(ms, "id"@);
            lemma_obj_get_step(ms.drop_first(), "id"@);
            lemma_obj_get_step(ms.drop_first().drop_first(), "id"@);
            lemma_obj_get_found(ms.drop_first().drop_first().drop_first(), "id"@);
        },
        EnvSpec::Notification { method, params } => {
            let ms = spec_envelope_json(e)->Obj_0;
            lemma_obj_get_step(ms, "method"@);
            lemma_obj_get_found(ms.drop_first(), "method"@);
            lemma_obj_get_step(ms, "params"@);
            lemma_obj_get_step(ms.drop_first(), "params"@);
            lemma_obj_get_found(ms.drop_first().drop_first(), "params"@);
            assert forall|k: int| 0 <= k < ms.len() implies (#[trigger] ms[k]).0 != "id"@ by {}
            lemma_obj_get_all(ms, "id"@);
        },
        EnvSpec::Success { result, id } => {
            let ms = spec_envelope_json(e)->Obj_0;
            assert forall|k: int| 0 <= k < ms.len() implies (#[trigger] ms[k]).0 != "method"@
                by {}
            lemma_obj_get_all(ms, "method"@);
            lemma_obj_get_step(ms, "result"@);
            lemma_obj_get_found(ms.drop_first(), "result"@);
            match id {
                Option::Some(_idv) => {
                    lemma_obj_get_step(ms, "id"@);
                    lemma_obj_get_step(ms.drop_first(), "id"@);
                    lemma_obj_get_found(ms.drop_first().drop_first(), "id"@);
                },
                Option::None => {
                    assert forall|k: int| 0 <= k < ms.len() implies (#[trigger] ms[k]).0 != "id"@
                        by {}
                    lemma_obj_get_all(ms, "id"@);
                },
            }
        },
        EnvSpec::Failure { code, message, id } => {
            let ms = spec_envelope_json(e)->Obj_0;
            assert forall|k: int| 0 <= k < ms.len() implies (#[trigger] ms[k]).0 != "method"@
                by {}
            lemma_obj_get_all(ms, "method"@);
            assert forall|k: int| 0 <= k < ms.len() implies (#[trigger] ms[k]).0 != "result"@
                by {}
            lemma_obj_get_all(ms, "result"@);
            lemma_obj_get_step(ms, "error"@);
            lemma_obj_get_found(ms.drop_first(), "error"@);
            let err = ms.drop_first()[0].1;
            let ems = err->Obj_0;
            lemma_obj_get_found(ems, "code"@);
            lemma_obj_get_step(ems, "message"@);
            lemma_obj_get_found(ems.drop_first(), "message"@);
            match id {
                Option::Some(_idv) => {
                    lemma_obj_get_step(ms, "id"@);
                    lemma_obj_get_step(ms.drop_first(), "id"@);
                    lemma_obj_get_found(ms.drop_first().drop_first(), "id"@);
                },
                Option::None => {
                    assert forall|k: int| 0 <= k < ms.len() implies (#[trigger] ms[k]).0 != "id"@
                        by {}
                    lemma_obj_get_all(ms, "id"@);
                },
            }
        },
    }
}

/// Encoding keeps the structured form well-formed.
pub proof fn lemma_envelope_json_wf(e: EnvSpec)
    requires
        wf_envelope(e),
    ensures
        wf_json(spec_envelope_json(e)),
{
    let v = spec_envelope_json(e);
    let ms = v->Obj_0;
    match e {
        EnvSpec::Failure { code, message, id } => {
            let err = ms[1].1;
            let ems = err->Obj_0;
            assert forall|k: int| 0 <= k < ems.len() implies wf_json((#[trigger] ems[k]).1) by {}
            lemma_wf_members_all(ems);
            assert forall|k: int| 0 <= k < ms.len() implies wf_json((#[trigger] ms[k]).1) by {}
            lemma_wf_members_all(ms);
        },
        _ => {
            assert forall|k: int| 0 <= k < ms.len() implies wf_json((#[trigger] ms[k]).1) by {}
            lemma_wf_members_all(ms);
        },
    }
}

/// Decoding the wire text of a well-formed envelope yields the envelope:
/// the codec round trip, absent and null `id` kept distinct.
pub proof fn lemma_envelope_round_trip(e: EnvSpec)
    requires
        wf_envelope(e),
    ensures
        spec_text_envelope(spec_envelope_text(e)) == Result::<EnvSpec, bool>::Ok(e),
{
    lemma_envelope_json_wf(e);
    crate::codec::lemma_parse_enc(spec_envelope_json(e));
    lemma_envelope_json_round_trip(e);
}


/// Why a text failed to decode into an envelope.
#[derive(Debug, PartialEq, Eq, Structural)]
pub enum DecodeError {
    /// The text is not well-formed.
    Parse,
    /// The text is well-formed but has no envelope shape.
    Protocol,
}

fn envelope_to_json(e: &Envelope) -> (r: JsonVal)
    ensures
        r@ == spec_envelope_json(e@),
{
    proof {
        broadcast use crate::json::lemma_j_view_members_index;

    }
    match e {
        Envelope::Request { method, params, id } => {
            let mut ms: Vec<(String, JsonVal)> = Vec::new();
            ms.push((String::from_str("jsonrpc"), JsonVal::Str(String::from_str("2.0"))));
            ms.push((String::from_str("method"), JsonVal::Str(method.clone())));
            ms.push((String::from_str("params"), copy_json(params)));
            ms.push((String::from_str("id"), copy_json(id)));
            let r = JsonVal::Obj(ms);
            proof {
                broadcast use crate::json::lemma_j_view_members_index;

                assert(ms@[0].0@ == "jsonrpc"@ && j_view(ms@[0].1) == JsonSpec::Str("2.0"@));
                assert(ms@[1].0@ == "method"@ && j_view(ms@[1].1) == JsonSpec::Str(method@));
                assert(ms@[2].0@ == "params"@ && j_view(ms@[2].1) == params@);
                assert(ms@[3].0@ == "id"@ && j_view(ms@[3].1) == id@);
                assert(e@ == EnvSpec::Request { method: method@, params: params@, id: id@ });
                assert(crate::json::j_view_members(ms@).len() == 4);
                assert(crate::json::j_view_members(ms@)[0] == (ms@[0].0@, j_view(ms@[0].1)));
                assert(r@->Obj_0 =~= spec_envelope_json(e@)->Obj_0);
            }
            r
        },
        Envelope::Notification { method, params } => {
            let mut ms: Vec<(String, JsonVal)> = Vec::new();
            ms.push((String::from_str("jsonrpc"), JsonVal::Str(String::from_str("2.0"))));
            ms.push((String::from_str("method"), JsonVal::Str(method.clone())));
            ms.push((String::from_str("params"), copy_json(params)));
            let r = JsonVal::Obj(ms);
            proof {
                broadcast use crate::json::lemma_j_view_members_index;

                assert(ms@[0].0@ == "jsonrpc"@ && j_view(ms@[0].1) == JsonSpec::Str("2.0"@));
                assert(ms@[1].0@ == "method"@ && j_view(ms@[1].1) == JsonSpec::Str(method@));
                assert(ms@[2].0@ == "params"@ && j_view(ms@[2].1) == params@);
                assert(e@ == EnvSpec::Notification { method: method@, params: params@ });
                assert(crate::json::j_view_members(ms@).len() == 3);
                assert(crate::json::j_view_members(ms@)[0] == (ms@[0].0@, j_view(ms@[0].1)));
                assert(r@->Obj_0 =~= spec_envelope_json(e@)->Obj_0);
            }
            r
        },
        Envelope::Success { result, id } => {
            let mut ms: Vec<(String, JsonVal)> = Vec::new();
            ms.push((String::from_str("jsonrpc"), JsonVal::Str(String::from_str("2.0"))));
            ms.push((String::from_str("result"), copy_json(result)));
            match id {
                Option::Some(idv) => {
                    ms.push((String::from_str("id"), copy_json(idv)));
                    proof {
                        broadcast use crate::json::lemma_j_view_members_index;

                        assert(ms@[2].0@ == "id"@ && j_view(ms@[2].1) == idv@);
                    }
                },
                Option::None => {},
            }
            let r = JsonVal::Obj(ms);
            proof {
                broadcast use crate::json::lemma_j_view_members_index;

                assert(ms@[0].0@ == "jsonrpc"@ && j_view(ms@[0].1) == JsonSpec::Str("2.0"@));
                assert(ms@[1].0@ == "result"@ && j_view(ms@[1].1) == result@);
                assert(crate::json::j_view_members(ms@)[0] == (ms@[0].0@, j_view(ms@[0].1)));
                match id {
                    Option::Some(idv) => {
                        assert(e@ == EnvSpec::Success {
                            result: result@,
                            id: Option::Some(idv@),
                        });
                        assert(crate::json::j_view_members(ms@).len() == 3);
                    },
                    Option::None => {
                        assert(e@ == EnvSpec::Success { result: result@, id: Option::None });
                        assert(crate::json::j_view_members(ms@).len() == 2);
                    },
                }
                assert(r@->Obj_0 =~= spec_envelope_json(e@)->Obj_0);
            }
            r
        },
        Envelope::Failure { code, message, id } => {
            let mut ems: Vec<(String, JsonVal)> = Vec::new();
            ems.push((String::from_str("code"), JsonVal::Int(*code)));
            ems.push((String::from_str("message"), JsonVal::Str(message.clone())));
            let mut ms: Vec<(String, JsonVal)> = Vec::new();
            ms.push((String::from_str("jsonrpc"), JsonVal::Str(String::from_str("2.0"))));
            ms.push((String::from_str("error"), JsonVal::Obj(ems)));
            match id {
                Option::Some(idv) => {
                    ms.push((String::from_str("id"), copy_json(idv)));
                    proof {
                        broadcast use crate::json::lemma_j_view_members_index;

                        assert(ms@[2].0@ == "id"@ && j_view(ms@[2].1) == idv@);
                    }
                },
                Option::None => {},
            }
            let r = JsonVal::Obj(ms);
            proof {
                broadcast use crate::json::lemma_j_view_members_index;

                assert(ems@[0].0@ == "code"@ && j_view(ems@[0].1) == JsonSpec::Int(*code as int));
                assert(ems@[1].0@ == "message"@ && j_view(ems@[1].1) == JsonSpec::Str(message@));
                assert(crate::json::j_view_members(ems@).len() == 2);
                assert(crate::json::j_view_members(ems@)[0] == (ems@[0].0@, j_view(ems@[0].1)));
                assert(crate::json::j_view_members(ems@) =~= seq![
                    ("code"@, JsonSpec::Int(*code as int)),
                    ("message"@, JsonSpec::Str(message@)),
                ]);
                assert(ms@[0].0@ == "jsonrpc"@ && j_view(ms@[0].1) == JsonSpec::Str("2.0"@));
                assert(ms@[1].0@ == "error"@);
                assert(crate::json::j_view_members(ms@)[0] == (ms@[0].0@, j_view(ms@[0].1)));
                match id {
                    Option::Some(idv) => {
                        assert(e@ == EnvSpec::Failure {
                            code: *code as int,
                            message: message@,
                            id: Option::Some(idv@),
                        });
                        assert(crate::json::j_view_members(ms@).len() == 3);
                    },
                    Option::None => {
                        assert(e@ == EnvSpec::Failure {
                            code: *code as int,
                            message: message@,
                            id: Option::None,
                        });
                        assert(crate::json::j_view_members(ms@).len() == 2);
                    },
                }
                assert(r@->Obj_0 =~= spec_envelope_json(e@)->Obj_0);
            }
            r
        },
    }
}

/// The wire text of an envelope.
pub fn encode_envelope(e: &Envelope) -> (r: String)
    ensures
        r@ == spec_envelope_text(e@),
{
    let j = envelope_to_json(e);
    crate::codec::encode_json(&j)
}

fn json_to_envelope(v: &JsonVal) -> (r: Result<Envelope, DecodeError>)
    ensures
        match r {
            Result::Ok(e) => spec_json_envelope(v@) == Option::Some(e@),
            Result::Err(d) => spec_json_envelope(v@) is None && d == DecodeError::Protocol,
        },
{
    if let Option::Some(mv) = v.get("method") {
        if let Option::Some(mstr) = mv.as_str() {
            let method = mstr.clone();
            let params = match v.get("params") {
                Option::Some(p) => copy_json(p),
                Option::None => JsonVal::Obj(Vec::new()),
            };
            proof {
                assert(crate::json::j_view_members(Seq::<(String, JsonVal)>::empty())
                    =~= Seq::<(Seq<char>, JsonSpec)>::empty());
            }
            return match v.get("id") {
                Option::Some(idv) => Result::Ok(
                    Envelope::Request { method, params, id: copy_json(idv) },
                ),
                Option::None => Result::Ok(Envelope::Notification { method, params }),
            };
        }
    }
    if let Option::Some(rv) = v.get("result") {
        let result = copy_json(rv);
        let id = match v.get("id") {
            Option::Some(idv) => Option::Some(copy_json(idv)),
            Option::None => Option::None,
        };
        return Result::Ok(Envelope::Success { result, id });
    }
    if let Option::Some(ev) = v.get("error") {
        if let Option::Some(cv) = ev.get("code") {
            if let Option::Some(c) = cv.as_i64() {
                if let Option::Some(mv2) = ev.get("message") {
                    if let Option::Some(msg) = mv2.as_str() {
                        let id = match v.get("id") {
                            Option::Some(idv) => Option::Some(copy_json(idv)),
                            Option::None => Option::None,
                        };
                        return Result::Ok(
                            Envelope::Failure { code: c, message: msg.clone(), id },
                        );
                    }
                }
            }
        }
    }
    Result::Err(DecodeError::Protocol)
}

/// Decode of wire text into an envelope. `Parse` is malformed text;
/// `Protocol` a well-formed text of no envelope shape.
pub fn decode_envelope(s: &str) -> (r: Result<Envelope, DecodeError>)
    ensures
        match r {
            Result::Ok(e) => spec_text_envelope(s@) == Result::<EnvSpec, bool>::Ok(e@),
            Result::Err(d) => spec_text_envelope(s@) == Result::<EnvSpec, bool>::Err(
                d == DecodeError::Parse,
            ),
        },
{
    match crate::codec::decode_json(s) {
        Option::None => Result::Err(DecodeError::Parse),
        Option::Some(v) => json_to_envelope(&v),
    }
}

} // verus!

