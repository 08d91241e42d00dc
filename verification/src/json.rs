//! The structured value model: a JSON-like tree with integer numbers.
//!
//! `JsonVal` is the executable tree; `JsonSpec` is its mathematical model,
//! built from `int`, `Seq<char>` and `Seq` so that contracts can speak of
//! values directly.

use vstd::prelude::*;

verus! {

broadcast use vstd::std_specs::vec::group_vec_axioms;

/// An executable JSON-like value. Numbers are 64-bit integers.
#[derive(Debug)]
pub enum JsonVal {
    Null,
    Bool(bool),
    Int(i64),
    Str(String),
    Arr(Vec<JsonVal>),
    Obj(Vec<(String, JsonVal)>),
}

/// Mathematical model of a structured value.
#[verifier::ext_equal]
pub enum JsonSpec {
    Null,
    Bool(bool),
    Int(int),
    Str(Seq<char>),
    Arr(Seq<JsonSpec>),
    Obj(Seq<(Seq<char>, JsonSpec)>),
}

/// Model of an executable value.
pub open spec fn j_view(v: JsonVal) -> JsonSpec
    decreases v,
{
    match v {
        JsonVal::Null => JsonSpec::Null,
        JsonVal::Bool(b) => JsonSpec::Bool(b),
        JsonVal::Int(i) => JsonSpec::Int(i as int),
        JsonVal::Str(s) => JsonSpec::Str(s@),
        JsonVal::Arr(xs) => JsonSpec::Arr(j_view_list(xs@)),
        JsonVal::Obj(ps) => JsonSpec::Obj(j_view_members(ps@)),
    }
}

/// Model of a sequence of executable values.
pub open spec fn j_view_list(xs: Seq<JsonVal>) -> Seq<JsonSpec>
    decreases xs,
{
    if xs.len() == 0 {
        Seq::empty()
    } else {
        seq![j_view(xs[0])] + j_view_list(xs.drop_first())
    }
}

/// Model of a sequence of executable object members.
pub open spec fn j_view_members(ps: Seq<(String, JsonVal)>) -> Seq<(Seq<char>, JsonSpec)>
    decreases ps,
{
    if ps.len() == 0 {
        Seq::empty()
    } else {
        seq![(ps[0].0@, j_view(ps[0].1))] + j_view_members(ps.drop_first())
    }
}

impl View for JsonVal {
    type V = JsonSpec;

    open spec fn view(&self) -> JsonSpec {
        j_view(*self)
    }
}

pub broadcast proof fn lemma_j_view_list_index(xs: Seq<JsonVal>)
    ensures
        (#[trigger] j_view_list(xs)).len() == xs.len(),
        forall|i: int| 0 <= i < xs.len() ==> j_view_list(xs)[i] == j_view(xs[i]),
    decreases xs,
{
    if xs.len() > 0 {
        lemma_j_view_list_index(xs.drop_first());
    }
}

pub broadcast proof fn lemma_j_view_members_index(ps: Seq<(String, JsonVal)>)
    ensures
        (#[trigger] j_view_members(ps)).len() == ps.len(),
        forall|i: int|
            0 <= i < ps.len() ==> j_view_members(ps)[i] == (ps[i].0@, j_view(ps[i].1)),
    decreases ps,
{
    if ps.len() > 0 {
        lemma_j_view_members_index(ps.drop_first());
    }
}

/// Every integer in the model fits a 64-bit signed value.
pub open spec fn wf_json(v: JsonSpec) -> bool
    decreases v,
{
    match v {
        JsonSpec::Null => true,
        JsonSpec::Bool(_) => true,
        JsonSpec::Int(i) => i64::MIN <= i <= i64::MAX,
        JsonSpec::Str(_) => true,
        JsonSpec::Arr(xs) => wf_json_list(xs),
        JsonSpec::Obj(ps) => wf_json_members(ps),
    }
}

pub open spec fn wf_json_list(xs: Seq<JsonSpec>) -> bool
    decreases xs,
{
    if xs.len() == 0 {
        true
    } else {
        wf_json(xs[0]) && wf_json_list(xs.drop_first())
    }
}

pub open spec fn wf_json_members(ps: Seq<(Seq<char>, JsonSpec)>) -> bool
    decreases ps,
{
    if ps.len() == 0 {
        true
    } else {
        wf_json(ps[0].1) && wf_json_members(ps.drop_first())
    }
}

/// The model of every executable value is well-formed.
pub proof fn lemma_view_wf(v: JsonVal)
    ensures
        wf_json(v@),
    decreases v,
{
    match v {
        JsonVal::Arr(xs) => {
            lemma_view_list_wf(xs@);
        },
        JsonVal::Obj(ps) => {
            lemma_view_members_wf(ps@);
        },
        _ => {},
    }
}

pub proof fn lemma_view_list_wf(xs: Seq<JsonVal>)
    ensures
        wf_json_list(j_view_list(xs)),
    decreases xs,
{
    if xs.len() > 0 {
        lemma_view_wf(xs[0]);
        lemma_view_list_wf(xs.drop_first());
        assert(j_view_list(xs).drop_first() =~= j_view_list(xs.drop_first()));
    }
}

pub proof fn lemma_view_members_wf(ps: Seq<(String, JsonVal)>)
    ensures
        wf_json_members(j_view_members(ps)),
    decreases ps,
{
    if ps.len() > 0 {
        lemma_view_wf(ps[0].1);
        lemma_view_members_wf(ps.drop_first());
        assert(j_view_members(ps).drop_first() =~= j_view_members(ps.drop_first()));
    }
}

/// First value bound to `key` in an object model, if any.
pub open spec fn spec_obj_get(ps: Seq<(Seq<char>, JsonSpec)>, key: Seq<char>) -> Option<JsonSpec>
    decreases ps,
{
    if ps.len() == 0 {
        Option::None
    } else if ps[0].0 == key {
        Option::Some(ps[0].1)
    } else {
        spec_obj_get(ps.drop_first(), key)
    }
}

/// Looks a member up in an object value; `None` on non-objects or absent keys.
pub open spec fn spec_get(v: JsonSpec, key: Seq<char>) -> Option<JsonSpec> {
    match v {
        JsonSpec::Obj(ps) => spec_obj_get(ps, key),
        _ => Option::None,
    }
}

impl JsonVal {
    /// First value bound to `key` when `self` is an object.
    #[verifier::loop_isolation(false)]
    pub fn get<'a>(&'a self, key: &str) -> (r: Option<&'a JsonVal>)
        ensures
            match r {
                Option::Some(v) => spec_get(self@, key@) == Option::Some(v@),
                Option::None => spec_get(self@, key@) is None,
            },
    {
        match self {
            JsonVal::Obj(ps) => {
                proof {
                    broadcast use lemma_j_view_members_index;

                }
                let ghost ms: Seq<(Seq<char>, JsonSpec)> = j_view_members(ps@);
                proof {
                    assert(ms.skip(0) =~= ms);
                }
                let n = ps.len();
                for i in 0..n
                    invariant
                        n == ps@.len(),
                        ms == j_view_members(ps@),
                        ms.len() == n,
                        forall|k: int|
                            0 <= k < n ==> #[trigger] ms[k] == (ps@[k].0@, j_view(ps@[k].1)),
                        spec_obj_get(ms, key@) == spec_obj_get(ms.skip(i as int), key@),
                {
                    proof {
                        assert(ms.skip(i as int)[0] == ms[i as int]);
                    }
                    if crate::text::str_eq(ps[i].0.as_str(), key) {
                        return Some(&ps[i].1);
                    }
                    proof {
                        assert(ms.skip(i as int).drop_first() =~= ms.skip(i as int + 1));
                    }
                }
                proof {
                    assert(ms.skip(n as int) =~= Seq::<(Seq<char>, JsonSpec)>::empty());
                }
                None
            },
            _ => None,
        }
    }

    /// The string content when `self` is a string value.
    pub fn as_str<'a>(&'a self) -> (r: Option<&'a String>)
        ensures
            match r {
                Option::Some(s) => self@ == JsonSpec::Str(s@),
                Option::None => !(self@ is Str),
            },
    {
        match self {
            JsonVal::Str(s) => Some(s),
            _ => None,
        }
    }

    /// The integer content when `self` is a number.
    pub fn as_i64(&self) -> (r: Option<i64>)
        ensures
            match r {
                Option::Some(i) => self@ == JsonSpec::Int(i as int),
                Option::None => !(self@ is Int),
            },
    {
        match self {
            JsonVal::Int(i) => Some(*i),
            _ => None,
        }
    }

    /// Whether `self` is an object value.
    pub fn is_object(&self) -> (r: bool)
        ensures
            r == (self@ is Obj),
    {
        match self {
            JsonVal::Obj(_) => true,
            _ => false,
        }
    }
}

/// A structurally equal copy of a value.
#[verifier::loop_isolation(false)]
pub fn copy_json(v: &JsonVal) -> (r: JsonVal)
    ensures
        r@ == v@,
    decreases v,
{
    match v {
        JsonVal::Null => JsonVal::Null,
        JsonVal::Bool(b) => JsonVal::Bool(*b),
        JsonVal::Int(i) => JsonVal::Int(*i),
        JsonVal::Str(s) => JsonVal::Str(s.clone()),
        JsonVal::Arr(xs) => {
            let n = xs.len();
            let mut out: Vec<JsonVal> = Vec::new();
            for i in 0..n
                invariant
                    n == xs@.len(),
                    *v == JsonVal::Arr(*xs),
                    out@.len() == i,
                    forall|k: int| 0 <= k < i ==> j_view(#[trigger] out@[k]) == j_view(xs@[k]),
            {
                let c = copy_json(&xs[i]);
                out.push(c);
            }
            proof {
                broadcast use lemma_j_view_list_index;

                assert(j_view_list(out@) =~= j_view_list(xs@));
            }
            JsonVal::Arr(out)
        },
        JsonVal::Obj(ps) => {
            let n = ps.len();
            let mut out: Vec<(String, JsonVal)> = Vec::new();
            for i in 0..n
                invariant
                    n == ps@.len(),
                    *v == JsonVal::Obj(*ps),
                    out@.len() == i,
                    forall|k: int|
                        0 <= k < i ==> (#[trigger] out@[k]).0 == ps@[k].0 && j_view(out@[k].1)
                            == j_view(ps@[k].1),
            {
                let key = ps[i].0.clone();
                let val = copy_json(&ps[i].1);
                out.push((key, val));
            }
            proof {
                broadcast use lemma_j_view_members_index;

                assert(j_view_members(out@) =~= j_view_members(ps@));
            }
            JsonVal::Obj(out)
        },
    }
}


pub proof fn lemma_j_view_list_concat(a: Seq<JsonVal>, b: Seq<JsonVal>)
    ensures
        j_view_list(a + b) == j_view_list(a) + j_view_list(b),
    decreases a.len(),
{
    if a.len() == 0 {
        assert(a + b =~= b);
        assert(j_view_list(a) + j_view_list(b) =~= j_view_list(b));
    } else {
        lemma_j_view_list_concat(a.drop_first(), b);
        assert((a + b).drop_first() =~= a.drop_first() + b);
        assert(seq![j_view((a + b)[0])] + (j_view_list(a.drop_first()) + j_view_list(b)) =~= (seq![
            j_view(a[0]),
        ] + j_view_list(a.drop_first())) + j_view_list(b));
    }
}

pub proof fn lemma_j_view_members_concat(a: Seq<(String, JsonVal)>, b: Seq<(String, JsonVal)>)
    ensures
        j_view_members(a + b) == j_view_members(a) + j_view_members(b),
    decreases a.len(),
{
    if a.len() == 0 {
        assert(a + b =~= b);
        assert(j_view_members(a) + j_view_members(b) =~= j_view_members(b));
    } else {
        lemma_j_view_members_concat(a.drop_first(), b);
        assert((a + b).drop_first() =~= a.drop_first() + b);
        assert(seq![((a + b)[0].0@, j_view((a + b)[0].1))] + (j_view_members(a.drop_first())
            + j_view_members(b)) =~= (seq![(a[0].0@, j_view(a[0].1))] + j_view_members(
            a.drop_first(),
        )) + j_view_members(b));
    }
}


/// Appends one member to an object under construction.
pub fn obj_push(ms: &mut Vec<(String, JsonVal)>, key: &str, val: JsonVal)
    ensures
        j_view_members(final(ms)@) == j_view_members(old(ms)@) + seq![(key@, val@)],
{
    let ghost ms0 = ms@;
    let ghost vv = val@;
    let k = key.to_owned();
    ms.push((k, val));
    proof {
        assert(ms@ =~= ms0 + seq![ms@.last()]);
        lemma_j_view_members_concat(ms0, seq![ms@.last()]);
        assert(seq![ms@.last()].drop_first() =~= Seq::<(String, JsonVal)>::empty());
        assert(j_view_members(seq![ms@.last()]) == seq![(ms@.last().0@, j_view(ms@.last().1))]
            + j_view_members(Seq::<(String, JsonVal)>::empty()));
        assert(j_view_members(seq![ms@.last()]) =~= seq![(key@, vv)]);
    }
}

/// A string value from a string slice.
pub fn str_val(s: &str) -> (r: JsonVal)
    ensures
        r@ == JsonSpec::Str(s@),
{
    JsonVal::Str(s.to_owned())
}

} // verus!


