//! The tool registry: the fixed set of knowledge-base tools the server
//! exposes, and the JSON descriptors that `tools/list` returns.

use vstd::prelude::*;
use vstd::string::StringExecFns;

use crate::error::Error;
use crate::json::{copy_json, j_view, j_view_list, j_view_members, spec_get, JsonSpec, JsonVal};
use crate::text::{spec_contains, str_contains};

verus! {

broadcast use vstd::std_specs::vec::group_vec_axioms;

/// One named parameter of a tool, with its type and description.
#[derive(Debug)]
pub struct ParamDef {
    pub name: String,
    pub ptype: String,
    pub desc: String,
}

/// Model of a parameter.
pub struct ParamSpec {
    pub name: Seq<char>,
    pub ptype: Seq<char>,
    pub desc: Seq<char>,
}

impl View for ParamDef {
    type V = ParamSpec;

    open spec fn view(&self) -> ParamSpec {
        ParamSpec { name: self.name@, ptype: self.ptype@, desc: self.desc@ }
    }
}

/// One tool: its name, description and parameters.
#[derive(Debug)]
pub struct ToolDef {
    pub name: String,
    pub description: String,
    pub params: Vec<ParamDef>,
}

/// Model of a tool.
pub struct ToolSpec {
    pub name: Seq<char>,
    pub description: Seq<char>,
    pub params: Seq<ParamSpec>,
}

/// Model of a parameter list.
pub open spec fn p_view_list(ps: Seq<ParamDef>) -> Seq<ParamSpec>
    decreases ps,
{
    if ps.len() == 0 {
        Seq::empty()
    } else {
        seq![ps[0]@] + p_view_list(ps.drop_first())
    }
}

pub broadcast proof fn lemma_p_view_list_index(ps: Seq<ParamDef>)
    ensures
        (#[trigger] p_view_list(ps)).len() == ps.len(),
        forall|i: int| 0 <= i < ps.len() ==> p_view_list(ps)[i] == ps[i]@,
    decreases ps,
{
    if ps.len() > 0 {
        lemma_p_view_list_index(ps.drop_first());
    }
}

impl View for ToolDef {
    type V = ToolSpec;

    open spec fn view(&self) -> ToolSpec {
        ToolSpec {
            name: self.name@,
            description: self.description@,
            params: p_view_list(self.params@),
        }
    }
}

/// Model of a tool list.
pub open spec fn t_view_list(ts: Seq<ToolDef>) -> Seq<ToolSpec>
    decreases ts,
{
    if ts.len() == 0 {
        Seq::empty()
    } else {
        seq![ts[0]@] + t_view_list(ts.drop_first())
    }
}

pub broadcast proof fn lemma_t_view_list_index(ts: Seq<ToolDef>)
    ensures
        (#[trigger] t_view_list(ts)).len() == ts.len(),
        forall|i: int| 0 <= i < ts.len() ==> t_view_list(ts)[i] == ts[i]@,
    decreases ts,
{
    if ts.len() > 0 {
        lemma_t_view_list_index(ts.drop_first());
    }
}

/// A description marks its parameter optional when it carries this marker.
pub open spec fn spec_marked_optional(desc: Seq<char>) -> bool {
    spec_contains(desc, "(optional)"@)
}

/// The schema entry of one parameter.
pub open spec fn spec_prop_json(p: ParamSpec) -> JsonSpec {
    JsonSpec::Obj(
        seq![("type"@, JsonSpec::Str(p.ptype)), ("description"@, JsonSpec::Str(p.desc))],
    )
}

/// The `properties` members of a schema, in declaration order.
pub open spec fn spec_props(ps: Seq<ParamSpec>) -> Seq<(Seq<char>, JsonSpec)>
    decreases ps,
{
    if ps.len() == 0 {
        Seq::empty()
    } else {
        seq![(ps[0].name, spec_prop_json(ps[0]))] + spec_props(ps.drop_first())
    }
}

/// The `required` names of a schema: every parameter not marked optional.
pub open spec fn spec_required(ps: Seq<ParamSpec>) -> Seq<JsonSpec>
    decreases ps,
{
    if ps.len() == 0 {
        Seq::empty()
    } else {
        (if !spec_marked_optional(ps[0].desc) {
            seq![JsonSpec::Str(ps[0].name)]
        } else {
            Seq::empty()
        }) + spec_required(ps.drop_first())
    }
}

/// The JSON descriptor of one tool.
pub open spec fn spec_descriptor(t: ToolSpec) -> JsonSpec {
    JsonSpec::Obj(
        seq![
            ("name"@, JsonSpec::Str(t.name)),
            ("description"@, JsonSpec::Str(t.description)),
            (
                "inputSchema"@,
                JsonSpec::Obj(
                    seq![
                        ("type"@, JsonSpec::Str("object"@)),
                        ("properties"@, JsonSpec::Obj(spec_props(t.params))),
                        ("required"@, JsonSpec::Arr(spec_required(t.params))),
                    ],
                ),
            ),
        ],
    )
}

/// The fixed table of tools, in registry order: documents, collections,
/// comments, users.
pub open spec fn spec_tool_table() -> Seq<ToolSpec> {
    seq![
        ToolSpec {
            name: "create_document"@,
            description: "Create new document"@,
            params: seq![ParamSpec { name: "title"@, ptype: "string"@, desc: "Document title"@ }, ParamSpec { name: "text"@, ptype: "string"@, desc: "Document content"@ }, ParamSpec { name: "collection_id"@, ptype: "string"@, desc: "Collection ID (optional)"@ }],
        },
        ToolSpec {
            name: "get_document"@,
            description: "Get document by ID"@,
            params: seq![ParamSpec { name: "id"@, ptype: "string"@, desc: "Document ID"@ }],
        },
        ToolSpec {
            name: "update_document"@,
            description: "Update document"@,
            params: seq![ParamSpec { name: "id"@, ptype: "string"@, desc: "Document ID"@ }, ParamSpec { name: "title"@, ptype: "string"@, desc: "New title (optional)"@ }, ParamSpec { name: "text"@, ptype: "string"@, desc: "New content (optional)"@ }],
        },
        ToolSpec {
            name: "delete_document"@,
            description: "Delete document"@,
            params: seq![ParamSpec { name: "id"@, ptype: "string"@, desc: "Document ID"@ }],
        },
        ToolSpec {
            name: "list_documents"@,
            description: "List documents"@,
            params: seq![ParamSpec { name: "collection_id"@, ptype: "string"@, desc: "Collection ID (optional)"@ }, ParamSpec { name: "limit"@, ptype: "number"@, desc: "Number of documents (optional)"@ }],
        },
        ToolSpec {
            name: "search_documents"@,
            description: "Search documents"@,
            params: seq![ParamSpec { name: "query"@, ptype: "string"@, desc: "Search query"@ }, ParamSpec { name: "limit"@, ptype: "number"@, desc: "Number of results (optional)"@ }],
        },
        ToolSpec {
            name: "ask_documents"@,
            description: "AI query to documents"@,
            params: seq![ParamSpec { name: "query"@, ptype: "string"@, desc: "Question to documents"@ }, ParamSpec { name: "document_ids"@, ptype: "array"@, desc: "List of document IDs (optional)"@ }],
        },
        ToolSpec {
            name: "archive_document"@,
            description: "Archive document"@,
            params: seq![ParamSpec { name: "id"@, ptype: "string"@, desc: "Document ID"@ }],
        },
        ToolSpec {
            name: "move_document"@,
            description: "Move document"@,
            params: seq![ParamSpec { name: "id"@, ptype: "string"@, desc: "Document ID"@ }, ParamSpec { name: "collection_id"@, ptype: "string"@, desc: "Target collection ID"@ }],
        },
        ToolSpec {
            name: "create_template_from_document"@,
            description: "Create template from document"@,
            params: seq![ParamSpec { name: "id"@, ptype: "string"@, desc: "Document ID"@ }, ParamSpec { name: "name"@, ptype: "string"@, desc: "Template name"@ }],
        },
        ToolSpec {
            name: "create_collection"@,
            description: "Create collection"@,
            params: seq![ParamSpec { name: "name"@, ptype: "string"@, desc: "Collection name"@ }, ParamSpec { name: "description"@, ptype: "string"@, desc: "Description (optional)"@ }],
        },
        ToolSpec {
            name: "get_collection"@,
            description: "Get collection"@,
            params: seq![ParamSpec { name: "id"@, ptype: "string"@, desc: "Collection ID"@ }],
        },
        ToolSpec {
            name: "update_collection"@,
            description: "Update collection"@,
            params: seq![ParamSpec { name: "id"@, ptype: "string"@, desc: "Collection ID"@ }, ParamSpec { name: "name"@, ptype: "string"@, desc: "New name (optional)"@ }, ParamSpec { name: "description"@, ptype: "string"@, desc: "New description (optional)"@ }],
        },
        ToolSpec {
            name: "list_collections"@,
            description: "List collections"@,
            params: seq![ParamSpec { name: "limit"@, ptype: "number"@, desc: "Number of collections (optional)"@ }],
        },
        ToolSpec {
            name: "create_comment"@,
            description: "Create comment"@,
            params: seq![ParamSpec { name: "document_id"@, ptype: "string"@, desc: "Document ID"@ }, ParamSpec { name: "data"@, ptype: "string"@, desc: "Comment content"@ }],
        },
        ToolSpec {
            name: "update_comment"@,
            description: "Update comment"@,
            params: seq![ParamSpec { name: "id"@, ptype: "string"@, desc: "Comment ID"@ }, ParamSpec { name: "data"@, ptype: "string"@, desc: "New content"@ }],
        },
        ToolSpec {
            name: "delete_comment"@,
            description: "Delete comment"@,
            params: seq![ParamSpec { name: "id"@, ptype: "string"@, desc: "Comment ID"@ }],
        },
        ToolSpec {
            name: "list_users"@,
            description: "List users"@,
            params: seq![ParamSpec { name: "limit"@, ptype: "number"@, desc: "Number of users (optional)"@ }],
        },
    ]
}

/// The descriptors of the fixed table, in order.
pub open spec fn spec_tools_list() -> Seq<JsonSpec> {
    spec_tool_table().map_values(|t: ToolSpec| spec_descriptor(t))
}

fn mk_param(name: &str, ptype: &str, desc: &str) -> (r: ParamDef)
    ensures
        r@ == (ParamSpec { name: name@, ptype: ptype@, desc: desc@ }),
{
    ParamDef {
        name: String::from_str(name),
        ptype: String::from_str(ptype),
        desc: String::from_str(desc),
    }
}

fn mk_tool1(name: &str, desc: &str, p1: ParamDef) -> (r: ToolDef)
    ensures
        r@ == (ToolSpec { name: name@, description: desc@, params: seq![p1@] }),
{
    let ghost p1v = p1@;
    let mut ps: Vec<ParamDef> = Vec::new();
    ps.push(p1);
    proof {
        broadcast use lemma_p_view_list_index;

        assert(p_view_list(ps@) =~= seq![p1v]);
    }
    ToolDef { name: String::from_str(name), description: String::from_str(desc), params: ps }
}

fn mk_tool2(name: &str, desc: &str, p1: ParamDef, p2: ParamDef) -> (r: ToolDef)
    ensures
        r@ == (ToolSpec { name: name@, description: desc@, params: seq![p1@, p2@] }),
{
    let ghost p1v = p1@;
    let ghost p2v = p2@;
    let mut ps: Vec<ParamDef> = Vec::new();
    ps.push(p1);
    ps.push(p2);
    proof {
        broadcast use lemma_p_view_list_index;

        assert(p_view_list(ps@) =~= seq![p1v, p2v]);
    }
    ToolDef { name: String::from_str(name), description: String::from_str(desc), params: ps }
}

fn mk_tool3(name: &str, desc: &str, p1: ParamDef, p2: ParamDef, p3: ParamDef) -> (r: ToolDef)
    ensures
        r@ == (ToolSpec { name: name@, description: desc@, params: seq![p1@, p2@, p3@] }),
{
    let ghost p1v = p1@;
    let ghost p2v = p2@;
    let ghost p3v = p3@;
    let mut ps: Vec<ParamDef> = Vec::new();
    ps.push(p1);
    ps.push(p2);
    ps.push(p3);
    proof {
        broadcast use lemma_p_view_list_index;

        assert(p_view_list(ps@) =~= seq![p1v, p2v, p3v]);
    }
    ToolDef { name: String::from_str(name), description: String::from_str(desc), params: ps }
}

/// The registry table as data.
pub fn tool_table() -> (r: Vec<ToolDef>)
    ensures
        t_view_list(r@) == spec_tool_table(),
{
    let mut tbl: Vec<ToolDef> = Vec::new();
    tbl.push(mk_tool3("create_document", "Create new document", mk_param("title", "string", "Document title"), mk_param("text", "string", "Document content"), mk_param("collection_id", "string", "Collection ID (optional)")));
    tbl.push(mk_tool1("get_document", "Get document by ID", mk_param("id", "string", "Document ID")));
    tbl.push(mk_tool3("update_document", "Update document", mk_param("id", "string", "Document ID"), mk_param("title", "string", "New title (optional)"), mk_param("text", "string", "New content (optional)")));
    tbl.push(mk_tool1("delete_document", "Delete document", mk_param("id", "string", "Document ID")));
    tbl.push(mk_tool2("list_documents", "List documents", mk_param("collection_id", "string", "Collection ID (optional)"), mk_param("limit", "number", "Number of documents (optional)")));
    tbl.push(mk_tool2("search_documents", "Search documents", mk_param("query", "string", "Search query"), mk_param("limit", "number", "Number of results (optional)")));
    tbl.push(mk_tool2("ask_documents", "AI query to documents", mk_param("query", "string", "Question to documents"), mk_param("document_ids", "array", "List of document IDs (optional)")));
    tbl.push(mk_tool1("archive_document", "Archive document", mk_param("id", "string", "Document ID")));
    tbl.push(mk_tool2("move_document", "Move document", mk_param("id", "string", "Document ID"), mk_param("collection_id", "string", "Target collection ID")));
    tbl.push(mk_tool2("create_template_from_document", "Create template from document", mk_param("id", "string", "Document ID"), mk_param("name", "string", "Template name")));
    tbl.push(mk_tool2("create_collection", "Create collection", mk_param("name", "string", "Collection name"), mk_param("description", "string", "Description (optional)")));
    tbl.push(mk_tool1("get_collection", "Get collection", mk_param("id", "string", "Collection ID")));
    tbl.push(mk_tool3("update_collection", "Update collection", mk_param("id", "string", "Collection ID"), mk_param("name", "string", "New name (optional)"), mk_param("description", "string", "New description (optional)")));
    tbl.push(mk_tool1("list_collections", "List collections", mk_param("limit", "number", "Number of collections (optional)")));
    tbl.push(mk_tool2("create_comment", "Create comment", mk_param("document_id", "string", "Document ID"), mk_param("data", "string", "Comment content")));
    tbl.push(mk_tool2("update_comment", "Update comment", mk_param("id", "string", "Comment ID"), mk_param("data", "string", "New content")));
    tbl.push(mk_tool1("delete_comment", "Delete comment", mk_param("id", "string", "Comment ID")));
    tbl.push(mk_tool1("list_users", "List users", mk_param("limit", "number", "Number of users (optional)")));
    proof {
        broadcast use lemma_t_view_list_index;

        assert(tbl@[0]@ == spec_tool_table()[0]);
        assert(tbl@[1]@ == spec_tool_table()[1]);
        assert(tbl@[2]@ == spec_tool_table()[2]);
        assert(tbl@[3]@ == spec_tool_table()[3]);
        assert(tbl@[4]@ == spec_tool_table()[4]);
        assert(tbl@[5]@ == spec_tool_table()[5]);
        assert(tbl@[6]@ == spec_tool_table()[6]);
        assert(tbl@[7]@ == spec_tool_table()[7]);
        assert(tbl@[8]@ == spec_tool_table()[8]);
        assert(tbl@[9]@ == spec_tool_table()[9]);
        assert(tbl@[10]@ == spec_tool_table()[10]);
        assert(tbl@[11]@ == spec_tool_table()[11]);
        assert(tbl@[12]@ == spec_tool_table()[12]);
        assert(tbl@[13]@ == spec_tool_table()[13]);
        assert(tbl@[14]@ == spec_tool_table()[14]);
        assert(tbl@[15]@ == spec_tool_table()[15]);
        assert(tbl@[16]@ == spec_tool_table()[16]);
        assert(tbl@[17]@ == spec_tool_table()[17]);
        assert(t_view_list(tbl@) =~= spec_tool_table());
    }
    tbl
}

proof fn lemma_props_concat(a: Seq<ParamSpec>, b: Seq<ParamSpec>)
    ensures
        spec_props(a + b) == spec_props(a) + spec_props(b),
        spec_required(a + b) == spec_required(a) + spec_required(b),
    decreases a.len(),
{
    if a.len() == 0 {
        assert(a + b =~= b);
        assert(spec_props(a) + spec_props(b) =~= spec_props(b));
        assert(spec_required(a) + spec_required(b) =~= spec_required(b));
    } else {
        lemma_props_concat(a.drop_first(), b);
        assert((a + b).drop_first() =~= a.drop_first() + b);
        assert(seq![((a + b)[0].name, spec_prop_json((a + b)[0]))] + (spec_props(a.drop_first())
            + spec_props(b)) =~= (seq![(a[0].name, spec_prop_json(a[0]))] + spec_props(
            a.drop_first(),
        )) + spec_props(b));
        assert((if !spec_marked_optional((a + b)[0].desc) {
            seq![JsonSpec::Str((a + b)[0].name)]
        } else {
            Seq::empty()
        }) + (spec_required(a.drop_first()) + spec_required(b)) =~= ((if !spec_marked_optional(
            a[0].desc,
        ) {
            seq![JsonSpec::Str(a[0].name)]
        } else {
            Seq::empty()
        }) + spec_required(a.drop_first())) + spec_required(b));
    }
}

/// The JSON descriptor of a tool: name, description, and an input schema
/// whose `required` list holds exactly the parameters not marked optional.
#[verifier::loop_isolation(false)]
pub fn tool_definition(t: &ToolDef) -> (r: JsonVal)
    ensures
        r@ == spec_descriptor(t@),
{
    proof {
        broadcast use lemma_p_view_list_index;
        broadcast use crate::json::lemma_j_view_members_index;
        broadcast use crate::json::lemma_j_view_list_index;

    }
    let ghost pv = p_view_list(t.params@);
    let n = t.params.len();
    let mut props: Vec<(String, JsonVal)> = Vec::new();
    let mut required: Vec<JsonVal> = Vec::new();
    for i in 0..n
        invariant
            n == t.params@.len(),
            crate::json::j_view_members(props@) == spec_props(pv.take(i as int)),
            j_view_list(required@) == spec_required(pv.take(i as int)),
    {
        let p = &t.params[i];
        let mut entry: Vec<(String, JsonVal)> = Vec::new();
        entry.push((String::from_str("type"), JsonVal::Str(p.ptype.clone())));
        entry.push((String::from_str("description"), JsonVal::Str(p.desc.clone())));
        proof {
            assert(crate::json::j_view_members(entry@) =~= spec_prop_json(pv[i as int])->Obj_0);
        }
        let ghost props0 = props@;
        let ghost required0 = required@;
        let pe = (p.name.clone(), JsonVal::Obj(entry));
        let ghost pev = pe;
        props.push(pe);
        let req_here = !str_contains(p.desc.as_str(), "(optional)");
        if req_here {
            required.push(JsonVal::Str(p.name.clone()));
        }
        proof {
            broadcast use lemma_p_view_list_index;
            broadcast use crate::json::lemma_j_view_members_index;
            broadcast use crate::json::lemma_j_view_list_index;

            let pcur = pv[i as int];
            lemma_props_concat(pv.take(i as int), seq![pcur]);
            assert(pv.take(i as int) + seq![pcur] =~= pv.take(i as int + 1));
            assert(seq![pcur].drop_first() =~= Seq::<ParamSpec>::empty());
            assert(spec_props(seq![pcur]) == seq![(pcur.name, spec_prop_json(pcur))] + spec_props(
                Seq::<ParamSpec>::empty(),
            ));
            assert(spec_props(seq![pcur]) =~= seq![(pcur.name, spec_prop_json(pcur))]);
            assert(props@ =~= props0 + seq![pev]);
            crate::json::lemma_j_view_members_concat(props0, seq![pev]);
            assert(crate::json::j_view_members(seq![pev]) =~= seq![(pev.0@, j_view(pev.1))]);
            assert(crate::json::j_view_members(props@) =~= spec_props(pv.take(i as int + 1)));
            if req_here {
                assert(spec_required(seq![pcur]) == seq![JsonSpec::Str(pcur.name)]
                    + spec_required(Seq::<ParamSpec>::empty()));
                assert(spec_required(seq![pcur]) =~= seq![JsonSpec::Str(pcur.name)]);
                assert(required@ =~= required0 + seq![required@.last()]);
                crate::json::lemma_j_view_list_concat(required0, seq![required@.last()]);
                assert(j_view_list(seq![required@.last()]) =~= seq![j_view(required@.last())]);
                assert(j_view(required@.last()) == JsonSpec::Str(pcur.name));
                assert(j_view_list(required@) =~= spec_required(pv.take(i as int + 1)));
            } else {
                assert(spec_required(seq![pcur]) == Seq::<JsonSpec>::empty() + spec_required(
                    Seq::<ParamSpec>::empty(),
                ));
                assert(spec_required(seq![pcur]) =~= Seq::<JsonSpec>::empty());
                assert(j_view_list(required@) =~= spec_required(pv.take(i as int + 1)));
            }
        }
    }
    proof {
        assert(pv.take(n as int) =~= pv);
    }
    let mut schema: Vec<(String, JsonVal)> = Vec::new();
    schema.push((String::from_str("type"), JsonVal::Str(String::from_str("object"))));
    schema.push((String::from_str("properties"), JsonVal::Obj(props)));
    schema.push((String::from_str("required"), JsonVal::Arr(required)));
    let mut top: Vec<(String, JsonVal)> = Vec::new();
    top.push((String::from_str("name"), JsonVal::Str(t.name.clone())));
    top.push((String::from_str("description"), JsonVal::Str(t.description.clone())));
    top.push((String::from_str("inputSchema"), JsonVal::Obj(schema)));
    let r = JsonVal::Obj(top);
    proof {
        broadcast use crate::json::lemma_j_view_members_index;

        assert(pv == t@.params);
        assert(crate::json::j_view_members(schema@).len() == 3);
        assert(crate::json::j_view_members(schema@)[0] == (schema@[0].0@, j_view(schema@[0].1)));
        assert(crate::json::j_view_members(schema@) =~= spec_descriptor(t@)->Obj_0[2].1->Obj_0);
        assert(crate::json::j_view_members(top@).len() == 3);
        assert(crate::json::j_view_members(top@)[0] == (top@[0].0@, j_view(top@[0].1)));
        assert(r@->Obj_0 =~= spec_descriptor(t@)->Obj_0);
    }
    r
}

/// All tool descriptors, in registry order: the same fixed list on every
/// call.
#[verifier::loop_isolation(false)]
pub fn get_tools_list() -> (r: Vec<JsonVal>)
    ensures
        j_view_list(r@) == spec_tools_list(),
{
    proof {
        broadcast use lemma_t_view_list_index;
        broadcast use crate::json::lemma_j_view_list_index;

    }
    let tbl = tool_table();
    let n = tbl.len();
    let mut out: Vec<JsonVal> = Vec::new();
    for i in 0..n
        invariant
            n == tbl@.len(),
            t_view_list(tbl@) == spec_tool_table(),
            out@.len() == i,
            forall|k: int| 0 <= k < i ==> j_view(#[trigger] out@[k]) == spec_tools_list()[k],
    {
        let d = tool_definition(&tbl[i]);
        out.push(d);
    }
    proof {
        assert(j_view_list(out@) =~= spec_tools_list());
    }
    out
}

/// The document tool descriptors: the first ten registry entries.
#[verifier::loop_isolation(false)]
pub fn get_document_tools() -> (r: Vec<JsonVal>)
    ensures
        j_view_list(r@) == spec_tools_list().subrange(0, 10),
{
    range_tools(0, 10)
}

/// The collection tool descriptors.
#[verifier::loop_isolation(false)]
pub fn get_collection_tools() -> (r: Vec<JsonVal>)
    ensures
        j_view_list(r@) == spec_tools_list().subrange(10, 14),
{
    range_tools(10, 14)
}

/// The comment tool descriptors.
#[verifier::loop_isolation(false)]
pub fn get_comment_tools() -> (r: Vec<JsonVal>)
    ensures
        j_view_list(r@) == spec_tools_list().subrange(14, 17),
{
    range_tools(14, 17)
}

/// The user tool descriptors.
#[verifier::loop_isolation(false)]
pub fn get_user_tools() -> (r: Vec<JsonVal>)
    ensures
        j_view_list(r@) == spec_tools_list().subrange(17, 18),
{
    range_tools(17, 18)
}

#[verifier::loop_isolation(false)]
fn range_tools(lo: usize, hi: usize) -> (r: Vec<JsonVal>)
    requires
        lo <= hi <= 18,
    ensures
        j_view_list(r@) == spec_tools_list().subrange(lo as int, hi as int),
{
    proof {
        broadcast use lemma_t_view_list_index;
        broadcast use crate::json::lemma_j_view_list_index;

    }
    let tbl = tool_table();
    let mut out: Vec<JsonVal> = Vec::new();
    proof {
        assert(t_view_list(tbl@).len() == 18);
    }
    for i in lo..hi
        invariant
            tbl@.len() == 18,
            t_view_list(tbl@) == spec_tool_table(),
            out@.len() == i - lo,
            forall|k: int|
                0 <= k < i - lo ==> j_view(#[trigger] out@[k]) == spec_tools_list()[lo + k],
    {
        let d = tool_definition(&tbl[i]);
        out.push(d);
    }
    proof {
        assert(j_view_list(out@) =~= spec_tools_list().subrange(lo as int, hi as int));
    }
    out
}

/// Every name in a schema's `required` list is the name of a parameter not
/// marked optional, and every such parameter's name is in the list: the
/// list excludes exactly the optional parameters.
pub proof fn lemma_required_excludes_optional(ps: Seq<ParamSpec>)
    ensures
        forall|k: int|
            0 <= k < spec_required(ps).len() ==> exists|j: int|
                0 <= j < ps.len() && !spec_marked_optional(ps[j].desc) && #[trigger] spec_required(
                    ps,
                )[k] == JsonSpec::Str(ps[j].name),
        forall|j: int|
            0 <= j < ps.len() && !spec_marked_optional((#[trigger] ps[j]).desc) ==> spec_required(
                ps,
            ).contains(JsonSpec::Str(ps[j].name)),
    decreases ps,
{
    if ps.len() > 0 {
        lemma_required_excludes_optional(ps.drop_first());
        let head: Seq<JsonSpec> = if !spec_marked_optional(ps[0].desc) {
            seq![JsonSpec::Str(ps[0].name)]
        } else {
            Seq::empty()
        };
        let rest = spec_required(ps.drop_first());
        assert forall|k: int| 0 <= k < spec_required(ps).len() implies exists|j: int|
            0 <= j < ps.len() && !spec_marked_optional(ps[j].desc) && #[trigger] spec_required(
                ps,
            )[k] == JsonSpec::Str(ps[j].name) by {
            if k < head.len() {
                assert(spec_required(ps)[k] == JsonSpec::Str(ps[0].name));
                assert(0 < ps.len() && !spec_marked_optional(ps[0].desc) && spec_required(ps)[k]
                    == JsonSpec::Str(ps[0].name));
            } else {
                let k2 = k - head.len();
                assert(spec_required(ps)[k] == rest[k2]);
                let j2 = choose|j2: int|
                    0 <= j2 < ps.drop_first().len() && !spec_marked_optional(
                        ps.drop_first()[j2].desc,
                    ) && rest[k2] == JsonSpec::Str(ps.drop_first()[j2].name);
                assert(ps.drop_first()[j2] == ps[j2 + 1]);
                assert(0 <= j2 + 1 < ps.len() && !spec_marked_optional(ps[j2 + 1].desc)
                    && spec_required(ps)[k] == JsonSpec::Str(ps[j2 + 1].name));
            }
        }
        assert forall|j: int|
            0 <= j < ps.len() && !spec_marked_optional((#[trigger] ps[j]).desc) implies
            spec_required(ps).contains(JsonSpec::Str(ps[j].name)) by {
            if j == 0 {
                assert(spec_required(ps)[0] == JsonSpec::Str(ps[0].name));
            } else {
                assert(ps.drop_first()[j - 1] == ps[j]);
                let k2 = choose|k2: int|
                    0 <= k2 < rest.len() && rest[k2] == JsonSpec::Str(ps.drop_first()[j - 1].name);
                assert(spec_required(ps)[head.len() + k2] == JsonSpec::Str(ps[j].name));
            }
        }
    }
}


/// The registry always lists the same eighteen descriptors, each with a
/// non-empty name and description.
pub proof fn lemma_tools_list_wf()
    ensures
        spec_tools_list().len() == 18,
        forall|i: int|
            0 <= i < 18 ==> (#[trigger] spec_tools_list()[i]) == spec_descriptor(
                spec_tool_table()[i],
            ),
        forall|i: int|
            0 <= i < 18 ==> (#[trigger] spec_tool_table()[i]).name.len() > 0
                && spec_tool_table()[i].description.len() > 0,
{
    reveal_strlit("create_document");
    reveal_strlit("Create new document");
    reveal_strlit("get_document");
    reveal_strlit("Get document by ID");
    reveal_strlit("update_document");
    reveal_strlit("Update document");
    reveal_strlit("delete_document");
    reveal_strlit("Delete document");
    reveal_strlit("list_documents");
    reveal_strlit("List documents");
    reveal_strlit("search_documents");
    reveal_strlit("Search documents");
    reveal_strlit("ask_documents");
    reveal_strlit("AI query to documents");
    reveal_strlit("archive_document");
    reveal_strlit("Archive document");
    reveal_strlit("move_document");
    reveal_strlit("Move document");
    reveal_strlit("create_template_from_document");
    reveal_strlit("Create template from document");
    reveal_strlit("create_collection");
    reveal_strlit("Create collection");
    reveal_strlit("get_collection");
    reveal_strlit("Get collection");
    reveal_strlit("update_collection");
    reveal_strlit("Update collection");
    reveal_strlit("list_collections");
    reveal_strlit("List collections");
    reveal_strlit("create_comment");
    reveal_strlit("Create comment");
    reveal_strlit("update_comment");
    reveal_strlit("Update comment");
    reveal_strlit("delete_comment");
    reveal_strlit("Delete comment");
    reveal_strlit("list_users");
    reveal_strlit("List users");
    assert("create_document"@.len() > 0 && "Create new document"@.len() > 0);
    assert("get_document"@.len() > 0 && "Get document by ID"@.len() > 0);
    assert("update_document"@.len() > 0 && "Update document"@.len() > 0);
    assert("delete_document"@.len() > 0 && "Delete document"@.len() > 0);
    assert("list_documents"@.len() > 0 && "List documents"@.len() > 0);
    assert("search_documents"@.len() > 0 && "Search documents"@.len() > 0);
    assert("ask_documents"@.len() > 0 && "AI query to documents"@.len() > 0);
    assert("archive_document"@.len() > 0 && "Archive document"@.len() > 0);
    assert("move_document"@.len() > 0 && "Move document"@.len() > 0);
    assert("create_template_from_document"@.len() > 0 && "Create template from document"@.len() > 0);
    assert("create_collection"@.len() > 0 && "Create collection"@.len() > 0);
    assert("get_collection"@.len() > 0 && "Get collection"@.len() > 0);
    assert("update_collection"@.len() > 0 && "Update collection"@.len() > 0);
    assert("list_collections"@.len() > 0 && "List collections"@.len() > 0);
    assert("create_comment"@.len() > 0 && "Create comment"@.len() > 0);
    assert("update_comment"@.len() > 0 && "Update comment"@.len() > 0);
    assert("delete_comment"@.len() > 0 && "Delete comment"@.len() > 0);
    assert("list_users"@.len() > 0 && "List users"@.len() > 0);
    assert forall|i: int| 0 <= i < 18 implies (#[trigger] spec_tool_table()[i]).name.len() > 0
        && spec_tool_table()[i].description.len() > 0 by {
        assert(spec_tool_table().len() == 18);
    }
}

// ---------------------------------------------------------------------------
// Tool invocation: argument reading and the outbound call each tool makes
// ---------------------------------------------------------------------------

/// The string bound to `key`, when the object binds it to a string.
pub open spec fn spec_opt_str(args: JsonSpec, key: Seq<char>) -> Option<Seq<char>> {
    match spec_get(args, key) {
        Option::Some(JsonSpec::Str(s)) => Option::Some(s),
        _ => Option::None,
    }
}

/// The integer bound to `key`, when the object binds it to a number.
pub open spec fn spec_opt_num(args: JsonSpec, key: Seq<char>) -> Option<int> {
    match spec_get(args, key) {
        Option::Some(JsonSpec::Int(i)) => Option::Some(i),
        _ => Option::None,
    }
}

/// The array bound to `key`, when the object binds it to an array.
pub open spec fn spec_opt_arr(args: JsonSpec, key: Seq<char>) -> Option<Seq<JsonSpec>> {
    match spec_get(args, key) {
        Option::Some(JsonSpec::Arr(a)) => Option::Some(a),
        _ => Option::None,
    }
}

/// The text of a missing-argument failure.
pub open spec fn spec_missing_arg_message(a: Seq<char>) -> Seq<char> {
    "Missing required parameter '"@ + a + "'"@
}

/// A required string argument; its absence is a tool failure naming the
/// argument.
pub fn get_string_arg(args: &JsonVal, name: &str) -> (r: Result<String, Error>)
    ensures
        match r {
            Result::Ok(s) => spec_opt_str(args@, name@) == Option::Some(s@),
            Result::Err(e) => spec_opt_str(args@, name@) is None && (e matches Error::Tool {
                tool_name,
                message,
            } && tool_name@ == "argument_parser"@ && message@ == spec_missing_arg_message(name@)),
        },
{
    match args.get(name) {
        Option::Some(v) => match v.as_str() {
            Option::Some(s) => Result::Ok(s.clone()),
            Option::None => Result::Err(
                Error::Tool {
                    tool_name: String::from_str("argument_parser"),
                    message: crate::text::concat3("Missing required parameter '", name, "'"),
                },
            ),
        },
        Option::None => Result::Err(
            Error::Tool {
                tool_name: String::from_str("argument_parser"),
                message: crate::text::concat3("Missing required parameter '", name, "'"),
            },
        ),
    }
}

/// An optional string argument.
pub fn get_optional_string_arg(args: &JsonVal, name: &str) -> (r: Option<String>)
    ensures
        match r {
            Option::Some(s) => spec_opt_str(args@, name@) == Option::Some(s@),
            Option::None => spec_opt_str(args@, name@) is None,
        },
{
    match args.get(name) {
        Option::Some(v) => match v.as_str() {
            Option::Some(s) => Option::Some(s.clone()),
            Option::None => Option::None,
        },
        Option::None => Option::None,
    }
}

/// An optional integer argument.
pub fn get_optional_number_arg(args: &JsonVal, name: &str) -> (r: Option<i64>)
    ensures
        match r {
            Option::Some(i) => spec_opt_num(args@, name@) == Option::Some(i as int),
            Option::None => spec_opt_num(args@, name@) is None,
        },
{
    match args.get(name) {
        Option::Some(v) => v.as_i64(),
        Option::None => Option::None,
    }
}

/// How one body field is drawn from the call arguments.
#[derive(Debug, Clone, Copy, PartialEq, Eq, Structural)]
pub enum ArgKind {
    /// A required string; its absence fails the call.
    ReqStr,
    /// An optional string; absent means the field is left out.
    OptStr,
    /// An optional integer.
    OptNum,
    /// An optional integer kept only when it fits an unsigned 32-bit value.
    OptNumU32,
    /// An optional array, passed through as it is.
    OptArr,
}

/// One field of an outbound body: the argument read, the field written,
/// and how.
#[derive(Debug)]
pub struct FieldRule {
    pub arg: String,
    pub out: String,
    pub kind: ArgKind,
}

/// Model of a field rule.
pub struct FieldRuleSpec {
    pub arg: Seq<char>,
    pub out: Seq<char>,
    pub kind: ArgKind,
}

impl View for FieldRule {
    type V = FieldRuleSpec;

    open spec fn view(&self) -> FieldRuleSpec {
        FieldRuleSpec { arg: self.arg@, out: self.out@, kind: self.kind }
    }
}

/// Model of a rule list.
pub open spec fn f_view_list(rs: Seq<FieldRule>) -> Seq<FieldRuleSpec>
    decreases rs,
{
    if rs.len() == 0 {
        Seq::empty()
    } else {
        seq![rs[0]@] + f_view_list(rs.drop_first())
    }
}

pub broadcast proof fn lemma_f_view_list_index(rs: Seq<FieldRule>)
    ensures
        (#[trigger] f_view_list(rs)).len() == rs.len(),
        forall|i: int| 0 <= i < rs.len() ==> f_view_list(rs)[i] == rs[i]@,
    decreases rs,
{
    if rs.len() > 0 {
        lemma_f_view_list_index(rs.drop_first());
    }
}

/// The members of an outbound body under a rule list, or the first
/// missing required argument.
pub open spec fn spec_apply_rules(rules: Seq<FieldRuleSpec>, args: JsonSpec) -> Result<
    Seq<(Seq<char>, JsonSpec)>,
    Seq<char>,
>
    decreases rules,
{
    if rules.len() == 0 {
        Result::Ok(Seq::empty())
    } else {
        let r0 = rules[0];
        let rest = spec_apply_rules(rules.drop_first(), args);
        match r0.kind {
            ArgKind::ReqStr => match spec_opt_str(args, r0.arg) {
                Option::None => Result::Err(r0.arg),
                Option::Some(s) => match rest {
                    Result::Ok(ms) => Result::Ok(seq![(r0.out, JsonSpec::Str(s))] + ms),
                    Result::Err(a) => Result::Err(a),
                },
            },
            ArgKind::OptStr => match spec_opt_str(args, r0.arg) {
                Option::Some(s) => match rest {
                    Result::Ok(ms) => Result::Ok(seq![(r0.out, JsonSpec::Str(s))] + ms),
                    Result::Err(a) => Result::Err(a),
                },
                Option::None => rest,
            },
            ArgKind::OptNum => match spec_opt_num(args, r0.arg) {
                Option::Some(i) => match rest {
                    Result::Ok(ms) => Result::Ok(seq![(r0.out, JsonSpec::Int(i))] + ms),
                    Result::Err(a) => Result::Err(a),
                },
                Option::None => rest,
            },
            ArgKind::OptNumU32 => match spec_opt_num(args, r0.arg) {
                Option::Some(i) => if 0 <= i <= u32::MAX {
                    match rest {
                        Result::Ok(ms) => Result::Ok(seq![(r0.out, JsonSpec::Int(i))] + ms),
                        Result::Err(a) => Result::Err(a),
                    }
                } else {
                    rest
                },
                Option::None => rest,
            },
            ArgKind::OptArr => match spec_opt_arr(args, r0.arg) {
                Option::Some(a) => match rest {
                    Result::Ok(ms) => Result::Ok(seq![(r0.out, JsonSpec::Arr(a))] + ms),
                    Result::Err(e) => Result::Err(e),
                },
                Option::None => rest,
            },
        }
    }
}

/// One tool's route: its name, the endpoint it calls, and its body rules.
#[derive(Debug)]
pub struct ToolRoute {
    pub tool: String,
    pub endpoint: String,
    pub rules: Vec<FieldRule>,
}

/// Model of a route.
pub struct RouteSpec {
    pub tool: Seq<char>,
    pub endpoint: Seq<char>,
    pub rules: Seq<FieldRuleSpec>,
}

impl View for ToolRoute {
    type V = RouteSpec;

    open spec fn view(&self) -> RouteSpec {
        RouteSpec { tool: self.tool@, endpoint: self.endpoint@, rules: f_view_list(self.rules@) }
    }
}

/// Model of a route list.
pub open spec fn r_view_list(rs: Seq<ToolRoute>) -> Seq<RouteSpec>
    decreases rs,
{
    if rs.len() == 0 {
        Seq::empty()
    } else {
        seq![rs[0]@] + r_view_list(rs.drop_first())
    }
}

pub broadcast proof fn lemma_r_view_list_index(rs: Seq<ToolRoute>)
    ensures
        (#[trigger] r_view_list(rs)).len() == rs.len(),
        forall|i: int| 0 <= i < rs.len() ==> r_view_list(rs)[i] == rs[i]@,
    decreases rs,
{
    if rs.len() > 0 {
        lemma_r_view_list_index(rs.drop_first());
    }
}

/// The routing table, in registry order.
pub open spec fn spec_routes() -> Seq<RouteSpec> {
    seq![
        RouteSpec {
            tool: "create_document"@,
            endpoint: "documents.create"@,
            rules: seq![FieldRuleSpec { arg: "title"@, out: "title"@, kind: ArgKind::ReqStr }, FieldRuleSpec { arg: "text"@, out: "text"@, kind: ArgKind::ReqStr }, FieldRuleSpec { arg: "collection_id"@, out: "collectionId"@, kind: ArgKind::OptStr }],
        },
        RouteSpec {
            tool: "get_document"@,
            endpoint: "documents.info"@,
            rules: seq![FieldRuleSpec { arg: "id"@, out: "id"@, kind: ArgKind::ReqStr }],
        },
        RouteSpec {
            tool: "update_document"@,
            endpoint: "documents.update"@,
            rules: seq![FieldRuleSpec { arg: "id"@, out: "id"@, kind: ArgKind::ReqStr }, FieldRuleSpec { arg: "title"@, out: "title"@, kind: ArgKind::OptStr }, FieldRuleSpec { arg: "text"@, out: "text"@, kind: ArgKind::OptStr }],
        },
        RouteSpec {
            tool: "delete_document"@,
            endpoint: "documents.delete"@,
            rules: seq![FieldRuleSpec { arg: "id"@, out: "id"@, kind: ArgKind::ReqStr }],
        },
        RouteSpec {
            tool: "list_documents"@,
            endpoint: "documents.list"@,
            rules: seq![FieldRuleSpec { arg: "collection_id"@, out: "collectionId"@, kind: ArgKind::OptStr }, FieldRuleSpec { arg: "limit"@, out: "limit"@, kind: ArgKind::OptNum }],
        },
        RouteSpec {
            tool: "search_documents"@,
            endpoint: "documents.search"@,
            rules: seq![FieldRuleSpec { arg: "query"@, out: "query"@, kind: ArgKind::ReqStr }, FieldRuleSpec { arg: "limit"@, out: "limit"@, kind: ArgKind::OptNumU32 }],
        },
        RouteSpec {
            tool: "ask_documents"@,
            endpoint: "documents.answerQuestion"@,
            rules: seq![FieldRuleSpec { arg: "query"@, out: "query"@, kind: ArgKind::ReqStr }, FieldRuleSpec { arg: "document_ids"@, out: "documentIds"@, kind: ArgKind::OptArr }],
        },
        RouteSpec {
            tool: "archive_document"@,
            endpoint: "documents.archive"@,
            rules: seq![FieldRuleSpec { arg: "id"@, out: "id"@, kind: ArgKind::ReqStr }],
        },
        RouteSpec {
            tool: "move_document"@,
            endpoint: "documents.move"@,
            rules: seq![FieldRuleSpec { arg: "id"@, out: "id"@, kind: ArgKind::ReqStr }, FieldRuleSpec { arg: "collection_id"@, out: "collectionId"@, kind: ArgKind::ReqStr }],
        },
        RouteSpec {
            tool: "create_template_from_document"@,
            endpoint: "documents.templatize"@,
            rules: seq![FieldRuleSpec { arg: "id"@, out: "id"@, kind: ArgKind::ReqStr }, FieldRuleSpec { arg: "name"@, out: "name"@, kind: ArgKind::ReqStr }],
        },
        RouteSpec {
            tool: "create_collection"@,
            endpoint: "collections.create"@,
            rules: seq![FieldRuleSpec { arg: "name"@, out: "name"@, kind: ArgKind::ReqStr }, FieldRuleSpec { arg: "description"@, out: "description"@, kind: ArgKind::OptStr }],
        },
        RouteSpec {
            tool: "get_collection"@,
            endpoint: "collections.info"@,
            rules: seq![FieldRuleSpec { arg: "id"@, out: "id"@, kind: ArgKind::ReqStr }],
        },
        RouteSpec {
            tool: "update_collection"@,
            endpoint: "collections.update"@,
            rules: seq![FieldRuleSpec { arg: "id"@, out: "id"@, kind: ArgKind::ReqStr }, FieldRuleSpec { arg: "name"@, out: "name"@, kind: ArgKind::OptStr }, FieldRuleSpec { arg: "description"@, out: "description"@, kind: ArgKind::OptStr }],
        },
        RouteSpec {
            tool: "list_collections"@,
            endpoint: "collections.list"@,
            rules: seq![FieldRuleSpec { arg: "limit"@, out: "limit"@, kind: ArgKind::OptNum }],
        },
        RouteSpec {
            tool: "create_comment"@,
            endpoint: "comments.create"@,
            rules: seq![FieldRuleSpec { arg: "document_id"@, out: "documentId"@, kind: ArgKind::ReqStr }, FieldRuleSpec { arg: "data"@, out: "data"@, kind: ArgKind::ReqStr }],
        },
        RouteSpec {
            tool: "update_comment"@,
            endpoint: "comments.update"@,
            rules: seq![FieldRuleSpec { arg: "id"@, out: "id"@, kind: ArgKind::ReqStr }, FieldRuleSpec { arg: "data"@, out: "data"@, kind: ArgKind::ReqStr }],
        },
        RouteSpec {
            tool: "delete_comment"@,
            endpoint: "comments.delete"@,
            rules: seq![FieldRuleSpec { arg: "id"@, out: "id"@, kind: ArgKind::ReqStr }],
        },
        RouteSpec {
            tool: "list_users"@,
            endpoint: "users.list"@,
            rules: seq![FieldRuleSpec { arg: "limit"@, out: "limit"@, kind: ArgKind::OptNum }],
        },
    ]
}

/// The first route of the given tool name, if any.
pub open spec fn spec_find_route(rs: Seq<RouteSpec>, name: Seq<char>) -> Option<RouteSpec>
    decreases rs,
{
    if rs.len() == 0 {
        Option::None
    } else if rs[0].tool == name {
        Option::Some(rs[0])
    } else {
        spec_find_route(rs.drop_first(), name)
    }
}

/// Why a tool call could not be translated.
pub enum ToolErrSpec {
    UnknownTool(Seq<char>),
    MissingArg(Seq<char>),
}

/// The outbound call of one tool invocation: its endpoint and body, or
/// why there is none.
pub open spec fn spec_call_tool(name: Seq<char>, args: JsonSpec) -> Result<
    (Seq<char>, JsonSpec),
    ToolErrSpec,
> {
    match spec_find_route(spec_routes(), name) {
        Option::None => Result::Err(ToolErrSpec::UnknownTool(name)),
        Option::Some(rt) => match spec_apply_rules(rt.rules, args) {
            Result::Err(a) => Result::Err(ToolErrSpec::MissingArg(a)),
            Result::Ok(ms) => Result::Ok((rt.endpoint, JsonSpec::Obj(ms))),
        },
    }
}

fn mk_rule(arg: &str, out: &str, kind: ArgKind) -> (r: FieldRule)
    ensures
        r@ == (FieldRuleSpec { arg: arg@, out: out@, kind }),
{
    FieldRule { arg: String::from_str(arg), out: String::from_str(out), kind }
}

fn mk_route1(tool: &str, endpoint: &str, r1: FieldRule) -> (r: ToolRoute)
    ensures
        r@ == (RouteSpec { tool: tool@, endpoint: endpoint@, rules: seq![r1@] }),
{
    let ghost v1 = r1@;
    let mut rs: Vec<FieldRule> = Vec::new();
    rs.push(r1);
    proof {
        broadcast use lemma_f_view_list_index;

        assert(f_view_list(rs@) =~= seq![v1]);
    }
    ToolRoute { tool: String::from_str(tool), endpoint: String::from_str(endpoint), rules: rs }
}

fn mk_route2(tool: &str, endpoint: &str, r1: FieldRule, r2: FieldRule) -> (r: ToolRoute)
    ensures
        r@ == (RouteSpec { tool: tool@, endpoint: endpoint@, rules: seq![r1@, r2@] }),
{
    let ghost v1 = r1@;
    let ghost v2 = r2@;
    let mut rs: Vec<FieldRule> = Vec::new();
    rs.push(r1);
    rs.push(r2);
    proof {
        broadcast use lemma_f_view_list_index;

        assert(f_view_list(rs@) =~= seq![v1, v2]);
    }
    ToolRoute { tool: String::from_str(tool), endpoint: String::from_str(endpoint), rules: rs }
}

fn mk_route3(tool: &str, endpoint: &str, r1: FieldRule, r2: FieldRule, r3: FieldRule) -> (r:
    ToolRoute)
    ensures
        r@ == (RouteSpec { tool: tool@, endpoint: endpoint@, rules: seq![r1@, r2@, r3@] }),
{
    let ghost v1 = r1@;
    let ghost v2 = r2@;
    let ghost v3 = r3@;
    let mut rs: Vec<FieldRule> = Vec::new();
    rs.push(r1);
    rs.push(r2);
    rs.push(r3);
    proof {
        broadcast use lemma_f_view_list_index;

        assert(f_view_list(rs@) =~= seq![v1, v2, v3]);
    }
    ToolRoute { tool: String::from_str(tool), endpoint: String::from_str(endpoint), rules: rs }
}

/// The routing table as data.
pub fn tool_routes() -> (r: Vec<ToolRoute>)
    ensures
        r_view_list(r@) == spec_routes(),
{
    let mut tbl: Vec<ToolRoute> = Vec::new();
    tbl.push(mk_route3("create_document", "documents.create", mk_rule("title", "title", ArgKind::ReqStr), mk_rule("text", "text", ArgKind::ReqStr), mk_rule("collection_id", "collectionId", ArgKind::OptStr)));
    tbl.push(mk_route1("get_document", "documents.info", mk_rule("id", "id", ArgKind::ReqStr)));
    tbl.push(mk_route3("update_document", "documents.update", mk_rule("id", "id", ArgKind::ReqStr), mk_rule("title", "title", ArgKind::OptStr), mk_rule("text", "text", ArgKind::OptStr)));
    tbl.push(mk_route1("delete_document", "documents.delete", mk_rule("id", "id", ArgKind::ReqStr)));
    tbl.push(mk_route2("list_documents", "documents.list", mk_rule("collection_id", "collectionId", ArgKind::OptStr), mk_rule("limit", "limit", ArgKind::OptNum)));
    tbl.push(mk_route2("search_documents", "documents.search", mk_rule("query", "query", ArgKind::ReqStr), mk_rule("limit", "limit", ArgKind::OptNumU32)));
    tbl.push(mk_route2("ask_documents", "documents.answerQuestion", mk_rule("query", "query", ArgKind::ReqStr), mk_rule("document_ids", "documentIds", ArgKind::OptArr)));
    tbl.push(mk_route1("archive_document", "documents.archive", mk_rule("id", "id", ArgKind::ReqStr)));
    tbl.push(mk_route2("move_document", "documents.move", mk_rule("id", "id", ArgKind::ReqStr), mk_rule("collection_id", "collectionId", ArgKind::ReqStr)));
    tbl.push(mk_route2("create_template_from_document", "documents.templatize", mk_rule("id", "id", ArgKind::ReqStr), mk_rule("name", "name", ArgKind::ReqStr)));
    tbl.push(mk_route2("create_collection", "collections.create", mk_rule("name", "name", ArgKind::ReqStr), mk_rule("description", "description", ArgKind::OptStr)));
    tbl.push(mk_route1("get_collection", "collections.info", mk_rule("id", "id", ArgKind::ReqStr)));
    tbl.push(mk_route3("update_collection", "collections.update", mk_rule("id", "id", ArgKind::ReqStr), mk_rule("name", "name", ArgKind::OptStr), mk_rule("description", "description", ArgKind::OptStr)));
    tbl.push(mk_route1("list_collections", "collections.list", mk_rule("limit", "limit", ArgKind::OptNum)));
    tbl.push(mk_route2("create_comment", "comments.create", mk_rule("document_id", "documentId", ArgKind::ReqStr), mk_rule("data", "data", ArgKind::ReqStr)));
    tbl.push(mk_route2("update_comment", "comments.update", mk_rule("id", "id", ArgKind::ReqStr), mk_rule("data", "data", ArgKind::ReqStr)));
    tbl.push(mk_route1("delete_comment", "comments.delete", mk_rule("id", "id", ArgKind::ReqStr)));
    tbl.push(mk_route1("list_users", "users.list", mk_rule("limit", "limit", ArgKind::OptNum)));
    proof {
        broadcast use lemma_r_view_list_index;

        assert(tbl@[0]@ == spec_routes()[0]);
        assert(tbl@[1]@ == spec_routes()[1]);
        assert(tbl@[2]@ == spec_routes()[2]);
        assert(tbl@[3]@ == spec_routes()[3]);
        assert(tbl@[4]@ == spec_routes()[4]);
        assert(tbl@[5]@ == spec_routes()[5]);
        assert(tbl@[6]@ == spec_routes()[6]);
        assert(tbl@[7]@ == spec_routes()[7]);
        assert(tbl@[8]@ == spec_routes()[8]);
        assert(tbl@[9]@ == spec_routes()[9]);
        assert(tbl@[10]@ == spec_routes()[10]);
        assert(tbl@[11]@ == spec_routes()[11]);
        assert(tbl@[12]@ == spec_routes()[12]);
        assert(tbl@[13]@ == spec_routes()[13]);
        assert(tbl@[14]@ == spec_routes()[14]);
        assert(tbl@[15]@ == spec_routes()[15]);
        assert(tbl@[16]@ == spec_routes()[16]);
        assert(tbl@[17]@ == spec_routes()[17]);
        assert(r_view_list(tbl@) =~= spec_routes());
    }
    tbl
}

/// An outbound API call: the endpoint and the body to send.
#[derive(Debug)]
pub struct UpstreamRequest {
    pub endpoint: String,
    pub body: JsonVal,
}

fn apply_rules(rules: &Vec<FieldRule>, k: usize, args: &JsonVal) -> (r: Result<
    Vec<(String, JsonVal)>,
    Error,
>)
    requires
        k <= rules@.len(),
    ensures
        match r {
            Result::Ok(ms) => spec_apply_rules(f_view_list(rules@).skip(k as int), args@)
                == Result::<Seq<(Seq<char>, JsonSpec)>, Seq<char>>::Ok(j_view_members(ms@)),
            Result::Err(e) => spec_apply_rules(f_view_list(rules@).skip(k as int), args@) is Err
                && (e matches Error::Tool { tool_name, message } && tool_name@
                == "argument_parser"@ && message@ == spec_missing_arg_message(
                spec_apply_rules(f_view_list(rules@).skip(k as int), args@)->Err_0,
            )),
        },
    decreases rules@.len() - k,
{
    proof {
        broadcast use lemma_f_view_list_index;

    }
    let ghost tail = f_view_list(rules@).skip(k as int);
    if k == rules.len() {
        let ms: Vec<(String, JsonVal)> = Vec::new();
        proof {
            assert(tail =~= Seq::<FieldRuleSpec>::empty());
            assert(j_view_members(ms@) =~= Seq::<(Seq<char>, JsonSpec)>::empty());
        }
        return Result::Ok(ms);
    }
    proof {
        assert(tail[0] == rules@[k as int]@);
        assert(tail.drop_first() =~= f_view_list(rules@).skip(k as int + 1));
    }
    let rule = &rules[k];
    let field: Option<JsonVal> = match rule.kind {
        ArgKind::ReqStr => {
            match get_string_arg(args, rule.arg.as_str()) {
                Result::Ok(s) => Option::Some(JsonVal::Str(s)),
                Result::Err(e) => {
                    return Result::Err(e);
                },
            }
        },
        ArgKind::OptStr => {
            match get_optional_string_arg(args, rule.arg.as_str()) {
                Option::Some(s) => Option::Some(JsonVal::Str(s)),
                Option::None => Option::None,
            }
        },
        ArgKind::OptNum => {
            match get_optional_number_arg(args, rule.arg.as_str()) {
                Option::Some(i) => Option::Some(JsonVal::Int(i)),
                Option::None => Option::None,
            }
        },
        ArgKind::OptNumU32 => {
            match get_optional_number_arg(args, rule.arg.as_str()) {
                Option::Some(i) => if 0 <= i && i <= u32::MAX as i64 {
                    Option::Some(JsonVal::Int(i))
                } else {
                    Option::None
                },
                Option::None => Option::None,
            }
        },
        ArgKind::OptArr => {
            match args.get(rule.arg.as_str()) {
                Option::Some(v) => match v {
                    JsonVal::Arr(_) => Option::Some(copy_json(v)),
                    _ => Option::None,
                },
                Option::None => Option::None,
            }
        },
    };
    let rest = apply_rules(rules, k + 1, args);
    match rest {
        Result::Err(e) => Result::Err(e),
        Result::Ok(mut ms) => {
            match field {
                Option::Some(v) => {
                    let ghost ms0 = ms@;
                    let ghost vv = v@;
                    ms.insert(0, (rule.out.clone(), v));
                    proof {
                        broadcast use crate::json::lemma_j_view_members_index;

                        assert(ms@.drop_first() =~= ms0);
                        assert(j_view_members(ms@) =~= seq![(rule.out@, vv)] + j_view_members(
                            ms0,
                        ));
                    }
                    Result::Ok(ms)
                },
                Option::None => Result::Ok(ms),
            }
        },
    }
}

/// Translates one tool invocation into the outbound API call it makes:
/// an unknown tool or a missing required argument is a tool failure and
/// reaches no endpoint.
#[verifier::loop_isolation(false)]
pub fn call_tool(name: &str, arguments: &JsonVal) -> (r: Result<UpstreamRequest, Error>)
    ensures
        match r {
            Result::Ok(u) => spec_call_tool(name@, arguments@) == Result::<
                (Seq<char>, JsonSpec),
                ToolErrSpec,
            >::Ok((u.endpoint@, u.body@)),
            Result::Err(e) => spec_call_tool(name@, arguments@) is Err && (match spec_call_tool(
                name@,
                arguments@,
            )->Err_0 {
                ToolErrSpec::UnknownTool(n) => e matches Error::Tool { tool_name, message }
                    && tool_name@ == n && message@ == "Unknown tool"@,
                ToolErrSpec::MissingArg(a) => e matches Error::Tool { tool_name, message }
                    && tool_name@ == "argument_parser"@ && message@ == spec_missing_arg_message(
                    a,
                ),
            }),
        },
{
    proof {
        broadcast use lemma_r_view_list_index;

    }
    let tbl = tool_routes();
    let ghost rts = spec_routes();
    proof {
        assert(rts.skip(0) =~= rts);
    }
    let n = tbl.len();
    for i in 0..n
        invariant
            n == tbl@.len(),
            r_view_list(tbl@) == rts,
            rts == spec_routes(),
            rts.len() == n,
            forall|j: int| 0 <= j < n ==> #[trigger] rts[j] == tbl@[j]@,
            spec_find_route(rts, name@) == spec_find_route(rts.skip(i as int), name@),
    {
        proof {
            assert(rts.skip(i as int)[0] == rts[i as int]);
        }
        if crate::text::str_eq(tbl[i].tool.as_str(), name) {
            let route = &tbl[i];
            match apply_rules(&route.rules, 0, arguments) {
                Result::Ok(ms) => {
                    proof {
                        assert(f_view_list(route.rules@).skip(0) =~= f_view_list(route.rules@));
                    }
                    return Result::Ok(
                        UpstreamRequest { endpoint: route.endpoint.clone(), body: JsonVal::Obj(ms) },
                    );
                },
                Result::Err(e) => {
                    proof {
                        assert(f_view_list(route.rules@).skip(0) =~= f_view_list(route.rules@));
                    }
                    return Result::Err(e);
                },
            }
        }
        proof {
            assert(rts.skip(i as int).drop_first() =~= rts.skip(i as int + 1));
        }
    }
    proof {
        assert(rts.skip(n as int) =~= Seq::<RouteSpec>::empty());
    }
    Result::Err(
        Error::Tool {
            tool_name: name.to_owned(),
            message: String::from_str("Unknown tool"),
        },
    )
}

} // verus!
