//! The compute side of the upstream knowledge-base API client: request
//! bodies, endpoint URL joining, and the reading of upstream responses.
//! The network call itself lives outside the library and hands its status
//! and body back in.

use vstd::prelude::*;
use vstd::string::StringExecFns;

use crate::error::Error;
use crate::json::{j_view_members, obj_push, str_val, JsonSpec, JsonVal};
use crate::text::{concat2, concat3};

verus! {

/// Model of a document-creation request body.
pub open spec fn spec_create_document_request(
    title: Seq<char>,
    text: Seq<char>,
    collection_id: Option<Seq<char>>,
) -> JsonSpec {
    JsonSpec::Obj(
        seq![("title"@, JsonSpec::Str(title)), ("text"@, JsonSpec::Str(text))] + (match collection_id {
            Option::Some(c) => seq![("collectionId"@, JsonSpec::Str(c))],
            Option::None => Seq::empty(),
        }),
    )
}

/// Body for creating a document: title, text, and the target collection
/// when one is given.
pub fn create_document_request(title: &str, text: &str, collection_id: Option<&str>) -> (r:
    JsonVal)
    ensures
        r@ == spec_create_document_request(
            title@,
            text@,
            match collection_id {
                Option::Some(c) => Option::Some(c@),
                Option::None => Option::None,
            },
        ),
{
    let mut ms: Vec<(String, JsonVal)> = Vec::new();
    proof {
        assert(j_view_members(ms@) =~= Seq::<(Seq<char>, JsonSpec)>::empty());
    }
    obj_push(&mut ms, "title", str_val(title));
    obj_push(&mut ms, "text", str_val(text));
    match collection_id {
        Option::Some(c) => {
            obj_push(&mut ms, "collectionId", str_val(c));
        },
        Option::None => {},
    }
    let r = JsonVal::Obj(ms);
    proof {
        assert(r@->Obj_0 =~= spec_create_document_request(
            title@,
            text@,
            match collection_id {
                Option::Some(c) => Option::Some(c@),
                Option::None => Option::None,
            },
        )->Obj_0);
    }
    r
}

/// Model of a document-update request body.
pub open spec fn spec_update_document_request(
    id: Seq<char>,
    title: Option<Seq<char>>,
    text: Option<Seq<char>>,
) -> JsonSpec {
    JsonSpec::Obj(
        seq![("id"@, JsonSpec::Str(id))] + (match title {
            Option::Some(t) => seq![("title"@, JsonSpec::Str(t))],
            Option::None => Seq::empty(),
        }) + (match text {
            Option::Some(t) => seq![("text"@, JsonSpec::Str(t))],
            Option::None => Seq::empty(),
        }),
    )
}

/// Body for updating a document: its id, and each field that changes.
pub fn update_document_request(id: &str, title: Option<&str>, text: Option<&str>) -> (r: JsonVal)
    ensures
        r@ == spec_update_document_request(
            id@,
            match title {
                Option::Some(t) => Option::Some(t@),
                Option::None => Option::None,
            },
            match text {
                Option::Some(t) => Option::Some(t@),
                Option::None => Option::None,
            },
        ),
{
    let mut ms: Vec<(String, JsonVal)> = Vec::new();
    proof {
        assert(j_view_members(ms@) =~= Seq::<(Seq<char>, JsonSpec)>::empty());
    }
    obj_push(&mut ms, "id", str_val(id));
    match title {
        Option::Some(t) => {
            obj_push(&mut ms, "title", str_val(t));
        },
        Option::None => {},
    }
    match text {
        Option::Some(t) => {
            obj_push(&mut ms, "text", str_val(t));
        },
        Option::None => {},
    }
    let r = JsonVal::Obj(ms);
    proof {
        assert(r@->Obj_0 =~= spec_update_document_request(
            id@,
            match title {
                Option::Some(t) => Option::Some(t@),
                Option::None => Option::None,
            },
            match text {
                Option::Some(t) => Option::Some(t@),
                Option::None => Option::None,
            },
        )->Obj_0);
    }
    r
}

/// Model of a document-search request body.
pub open spec fn spec_search_documents_request(query: Seq<char>, limit: Option<u32>) -> JsonSpec {
    JsonSpec::Obj(
        seq![("query"@, JsonSpec::Str(query))] + (match limit {
            Option::Some(l) => seq![("limit"@, JsonSpec::Int(l as int))],
            Option::None => Seq::empty(),
        }),
    )
}

/// Body for searching documents: the query, and a result cap when given.
pub fn search_documents_request(query: &str, limit: Option<u32>) -> (r: JsonVal)
    ensures
        r@ == spec_search_documents_request(query@, limit),
{
    let mut ms: Vec<(String, JsonVal)> = Vec::new();
    proof {
        assert(j_view_members(ms@) =~= Seq::<(Seq<char>, JsonSpec)>::empty());
    }
    obj_push(&mut ms, "query", str_val(query));
    match limit {
        Option::Some(l) => {
            obj_push(&mut ms, "limit", JsonVal::Int(l as i64));
        },
        Option::None => {},
    }
    let r = JsonVal::Obj(ms);
    proof {
        assert(r@->Obj_0 =~= spec_search_documents_request(query@, limit)->Obj_0);
    }
    r
}

/// Model of a collection-creation request body.
pub open spec fn spec_create_collection_request(
    name: Seq<char>,
    description: Option<Seq<char>>,
) -> JsonSpec {
    JsonSpec::Obj(
        seq![("name"@, JsonSpec::Str(name))] + (match description {
            Option::Some(d) => seq![("description"@, JsonSpec::Str(d))],
            Option::None => Seq::empty(),
        }),
    )
}

/// Body for creating a collection: its name, and a description when given.
pub fn create_collection_request(name: &str, description: Option<&str>) -> (r: JsonVal)
    ensures
        r@ == spec_create_collection_request(
            name@,
            match description {
                Option::Some(d) => Option::Some(d@),
                Option::None => Option::None,
            },
        ),
{
    let mut ms: Vec<(String, JsonVal)> = Vec::new();
    proof {
        assert(j_view_members(ms@) =~= Seq::<(Seq<char>, JsonSpec)>::empty());
    }
    obj_push(&mut ms, "name", str_val(name));
    match description {
        Option::Some(d) => {
            obj_push(&mut ms, "description", str_val(d));
        },
        Option::None => {},
    }
    let r = JsonVal::Obj(ms);
    proof {
        assert(r@->Obj_0 =~= spec_create_collection_request(
            name@,
            match description {
                Option::Some(d) => Option::Some(d@),
                Option::None => Option::None,
            },
        )->Obj_0);
    }
    r
}

/// Model of a comment-creation request body.
pub open spec fn spec_create_comment_request(document_id: Seq<char>, data: Seq<char>) -> JsonSpec {
    JsonSpec::Obj(
        seq![("documentId"@, JsonSpec::Str(document_id)), ("data"@, JsonSpec::Str(data))],
    )
}

/// Body for creating a comment on a document.
pub fn create_comment_request(document_id: &str, data: &str) -> (r: JsonVal)
    ensures
        r@ == spec_create_comment_request(document_id@, data@),
{
    let mut ms: Vec<(String, JsonVal)> = Vec::new();
    proof {
        assert(j_view_members(ms@) =~= Seq::<(Seq<char>, JsonSpec)>::empty());
    }
    obj_push(&mut ms, "documentId", str_val(document_id));
    obj_push(&mut ms, "data", str_val(data));
    let r = JsonVal::Obj(ms);
    proof {
        assert(r@->Obj_0 =~= spec_create_comment_request(document_id@, data@)->Obj_0);
    }
    r
}

/// Model of an endpoint URL: the base, a slash when the base lacks one,
/// then the endpoint.
pub open spec fn spec_join_api_url(base: Seq<char>, endpoint: Seq<char>) -> Seq<char> {
    if base.len() > 0 && base[base.len() - 1] == '/' {
        base + endpoint
    } else {
        base + seq!['/'] + endpoint
    }
}

/// The full URL of an API endpoint under a base URL.
pub fn join_api_url(base: &str, endpoint: &str) -> (r: String)
    ensures
        r@ == spec_join_api_url(base@, endpoint@),
{
    let n = base.unicode_len();
    if n > 0 && base.get_char(n - 1) == '/' {
        concat2(base, endpoint)
    } else {
        let r = concat3(base, "/", endpoint);
        proof {
            reveal_strlit("/");
            assert(r@ =~= spec_join_api_url(base@, endpoint@));
        }
        r
    }
}

/// Interprets the status and body of one upstream exchange: a success
/// status yields the parsed body; a malformed body on success is a
/// structured-data failure carrying the body text; a failure status is an
/// API failure carrying the status and the body.
pub fn interpret_api_response(status: u16, body: &str) -> (r: Result<JsonVal, Error>)
    ensures
        match r {
            Result::Ok(v) => 200 <= status < 300 && crate::codec::spec_parse_text(body@)
                == Option::Some(v@),
            Result::Err(e) => match e {
                Error::Json { context } => 200 <= status < 300 && crate::codec::spec_parse_text(
                    body@,
                ) is None && context@ == "Failed to parse API response: "@ + body@,
                Error::Api { status: st, message, body: b } => !(200 <= status < 300) && st
                    == status && message@ == "API request failed with status "@
                    + crate::codec::spec_enc_nat(status as nat) && (b matches Option::Some(bs)
                    && bs@ == body@),
                _ => false,
            },
        },
{
    if 200 <= status && status < 300 {
        match crate::codec::decode_json(body) {
            Option::Some(v) => Result::Ok(v),
            Option::None => Result::Err(
                Error::Json { context: concat2("Failed to parse API response: ", body) },
            ),
        }
    } else {
        let digits = crate::error::u16_string(status);
        Result::Err(
            Error::Api {
                status,
                message: concat2("API request failed with status ", digits.as_str()),
                body: Some(body.to_owned()),
            },
        )
    }
}

} // verus!
