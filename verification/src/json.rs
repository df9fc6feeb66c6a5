//! An untyped JSON-like value tree and its mathematical model.
//!
//! Tool parameters arrive as such a tree and tool responses are built as
//! one; numbers are 64-bit signed integers, or carried as literal text
//! when they fall outside that range.

use vstd::prelude::*;

verus! {

broadcast use vstd::std_specs::vec::axiom_vec_decreases_to_view;

/// An untyped structured value: the raw parameter payload of a tool call
/// and the shape of every tool's response body. A number that fits a
/// 64-bit signed integer is held as one; any other number is carried as
/// its literal text, filled in at the boundary with the serializer's own
/// rendering and written back verbatim.
pub enum JsonValue {
    Null,
    Bool(bool),
    Int(i64),
    NumText(String),
    Str(String),
    Array(Vec<JsonValue>),
    Object(Vec<(String, JsonValue)>),
}

/// The mathematical model of a `JsonValue`: strings become `Seq<char>`,
/// numbers become unbounded integers, and both kinds of nesting become `Seq`.
#[verifier::ext_equal]
pub enum Json {
    Null,
    Bool(bool),
    Int(int),
    NumText(Seq<char>),
    Str(Seq<char>),
    Array(Seq<Json>),
    Object(Seq<(Seq<char>, Json)>),
}

/// The model of a `JsonValue`, structure for structure.
pub open spec fn jmodel(v: JsonValue) -> Json
    decreases v,
{
    match v {
        JsonValue::Null => Json::Null,
        JsonValue::Bool(b) => Json::Bool(b),
        JsonValue::Int(i) => Json::Int(i as int),
        JsonValue::NumText(s) => Json::NumText(s@),
        JsonValue::Str(s) => Json::Str(s@),
        JsonValue::Array(a) => Json::Array(jmodel_seq(a@)),
        JsonValue::Object(o) => Json::Object(jmodel_entries(o@)),
    }
}

/// The models of the elements of an array, in order.
pub open spec fn jmodel_seq(s: Seq<JsonValue>) -> Seq<Json>
    decreases s,
{
    if s.len() == 0 {
        Seq::empty()
    } else {
        seq![jmodel(s[0])] + jmodel_seq(s.drop_first())
    }
}

/// The models of the key/value entries of an object, in order.
pub open spec fn jmodel_entries(s: Seq<(String, JsonValue)>) -> Seq<(Seq<char>, Json)>
    decreases s,
{
    if s.len() == 0 {
        Seq::empty()
    } else {
        seq![(s[0].0@, jmodel(s[0].1))] + jmodel_entries(s.drop_first())
    }
}

/// The element models line up index for index with the elements.
pub proof fn lemma_jmodel_seq(s: Seq<JsonValue>)
    ensures
        jmodel_seq(s).len() == s.len(),
        forall|i: int| 0 <= i < s.len() ==> jmodel_seq(s)[i] == jmodel(s[i]),
    decreases s,
{
    if s.len() > 0 {
        lemma_jmodel_seq(s.drop_first());
    }
}

/// The entry models line up index for index with the entries.
pub proof fn lemma_jmodel_entries(s: Seq<(String, JsonValue)>)
    ensures
        jmodel_entries(s).len() == s.len(),
        forall|i: int| 0 <= i < s.len() ==> jmodel_entries(s)[i] == (s[i].0@, jmodel(s[i].1)),
    decreases s,
{
    if s.len() > 0 {
        lemma_jmodel_entries(s.drop_first());
    }
}

impl View for JsonValue {
    type V = Json;

    open spec fn view(&self) -> Json {
        jmodel(*self)
    }
}

/// The nesting depth of a tree, used as a termination measure by the
/// executable functions that walk one.
pub open spec fn jheight(v: JsonValue) -> nat
    decreases v,
{
    match v {
        JsonValue::Array(a) => 1 + jheight_seq(a@),
        JsonValue::Object(o) => 1 + jheight_entries(o@),
        _ => 0,
    }
}

/// The largest height among the elements of an array.
pub open spec fn jheight_seq(s: Seq<JsonValue>) -> nat
    decreases s,
{
    if s.len() == 0 {
        0
    } else if jheight(s[0]) >= jheight_seq(s.drop_first()) {
        jheight(s[0])
    } else {
        jheight_seq(s.drop_first())
    }
}

/// The largest height among the values of an object's entries.
pub open spec fn jheight_entries(s: Seq<(String, JsonValue)>) -> nat
    decreases s,
{
    if s.len() == 0 {
        0
    } else if jheight(s[0].1) >= jheight_entries(s.drop_first()) {
        jheight(s[0].1)
    } else {
        jheight_entries(s.drop_first())
    }
}

/// Every element of an array sits strictly below the array itself.
pub proof fn lemma_jheight_seq(s: Seq<JsonValue>)
    ensures
        forall|i: int| 0 <= i < s.len() ==> jheight(#[trigger] s[i]) <= jheight_seq(s),
    decreases s,
{
    if s.len() > 0 {
        lemma_jheight_seq(s.drop_first());
        assert forall|i: int| 0 <= i < s.len() implies jheight(#[trigger] s[i]) <= jheight_seq(
            s,
        ) by {
            if i > 0 {
                assert(s[i] == s.drop_first()[i - 1]);
            }
        }
    }
}

/// Every entry value of an object sits strictly below the object itself.
pub proof fn lemma_jheight_entries(s: Seq<(String, JsonValue)>)
    ensures
        forall|i: int| 0 <= i < s.len() ==> jheight((#[trigger] s[i]).1) <= jheight_entries(s),
    decreases s,
{
    if s.len() > 0 {
        lemma_jheight_entries(s.drop_first());
        assert forall|i: int| 0 <= i < s.len() implies jheight((#[trigger] s[i]).1)
            <= jheight_entries(s) by {
            if i > 0 {
                assert(s[i] == s.drop_first()[i - 1]);
            }
        }
    }
}

/// The transform applied by the JSON-processing tool: every string value in
/// the tree is upper-cased; structure and non-string values are unchanged.
pub open spec fn upper_json(j: Json) -> Json
    decreases j,
{
    match j {
        Json::Null => Json::Null,
        Json::Bool(b) => Json::Bool(b),
        Json::Int(i) => Json::Int(i),
        Json::NumText(s) => Json::NumText(s),
        Json::Str(s) => Json::Str(crate::text::upper_of(s)),
        Json::Array(a) => Json::Array(upper_json_seq(a)),
        Json::Object(o) => Json::Object(upper_json_entries(o)),
    }
}

/// `upper_json` applied to each element of an array, in order.
pub open spec fn upper_json_seq(s: Seq<Json>) -> Seq<Json>
    decreases s,
{
    if s.len() == 0 {
        Seq::empty()
    } else {
        seq![upper_json(s[0])] + upper_json_seq(s.drop_first())
    }
}

/// `upper_json` applied to the value of each object entry, in order; keys
/// are left as they are.
pub open spec fn upper_json_entries(s: Seq<(Seq<char>, Json)>) -> Seq<(Seq<char>, Json)>
    decreases s,
{
    if s.len() == 0 {
        Seq::empty()
    } else {
        seq![(s[0].0, upper_json(s[0].1))] + upper_json_entries(s.drop_first())
    }
}

/// The transformed elements line up index for index with the originals.
pub proof fn lemma_upper_json_seq(s: Seq<Json>)
    ensures
        upper_json_seq(s).len() == s.len(),
        forall|i: int| 0 <= i < s.len() ==> upper_json_seq(s)[i] == upper_json(s[i]),
    decreases s,
{
    if s.len() > 0 {
        lemma_upper_json_seq(s.drop_first());
    }
}

/// The transformed entries line up index for index with the originals.
pub proof fn lemma_upper_json_entries(s: Seq<(Seq<char>, Json)>)
    ensures
        upper_json_entries(s).len() == s.len(),
        forall|i: int| 0 <= i < s.len() ==> upper_json_entries(s)[i] == (
            s[i].0,
            upper_json(s[i].1),
        ),
    decreases s,
{
    if s.len() > 0 {
        lemma_upper_json_entries(s.drop_first());
    }
}

/// The keys of a tree: the keys of a top-level object in order, and empty
/// for any other tree.
pub open spec fn obj_keys(j: Json) -> Seq<Seq<char>> {
    match j {
        Json::Object(o) => Seq::new(o.len(), |i: int| o[i].0),
        _ => Seq::empty(),
    }
}

/// The value under `key` in an object's entries: the first entry with that
/// key, if any.
pub open spec fn entries_get(es: Seq<(Seq<char>, Json)>, key: Seq<char>) -> Option<Json>
    decreases es,
{
    if es.len() == 0 {
        Option::None
    } else if es[0].0 == key {
        Option::Some(es[0].1)
    } else {
        entries_get(es.drop_first(), key)
    }
}

/// Upper-cases every string value in a tree, preserving its structure:
/// the executable form of `upper_json`. The result is a fixed point of
/// the transform, so applying the transform to its own output returns
/// that output unchanged.
#[verifier::loop_isolation(false)]
pub fn uppercase_values(v: &JsonValue) -> (r: JsonValue)
    ensures
        r@ == upper_json(v@),
        upper_json(r@) == r@,
        upper_json(upper_json(v@)) == upper_json(v@),
    decreases jheight(*v),
{
    match v {
        JsonValue::Null => JsonValue::Null,
        JsonValue::Bool(b) => JsonValue::Bool(*b),
        JsonValue::Int(i) => JsonValue::Int(*i),
        JsonValue::NumText(s) => JsonValue::NumText(s.clone()),
        JsonValue::Str(s) => JsonValue::Str(crate::text::upper_string(s)),
        JsonValue::Array(a) => {
            let mut out: Vec<JsonValue> = Vec::new();
            let mut i: usize = 0;
            while i < a.len()
                invariant
                    i <= a.len(),
                    out@.len() == i,
                    forall|k: int| 0 <= k < i ==> jmodel(#[trigger] out@[k]) == upper_json(
                        jmodel(a@[k]),
                    ),
                    forall|k: int| 0 <= k < i ==> upper_json(jmodel(#[trigger] out@[k]))
                        == jmodel(out@[k]),
                decreases a.len() - i,
            {
                proof {
                    lemma_jheight_seq(a@);
                    assert(jheight(a@[i as int]) <= jheight_seq(a@));
                }
                let t = uppercase_values(&a[i]);
                out.push(t);
                i = i + 1;
            }
            proof {
                lemma_jmodel_seq(out@);
                lemma_jmodel_seq(a@);
                lemma_upper_json_seq(jmodel_seq(a@));
                assert(jmodel_seq(out@) =~= upper_json_seq(jmodel_seq(a@)));
                lemma_upper_json_seq(jmodel_seq(out@));
                assert(upper_json_seq(jmodel_seq(out@)) =~= jmodel_seq(out@));
            }
            JsonValue::Array(out)
        },
        JsonValue::Object(o) => {
            let mut out: Vec<(String, JsonValue)> = Vec::new();
            let mut i: usize = 0;
            while i < o.len()
                invariant
                    i <= o.len(),
                    out@.len() == i,
                    forall|k: int| 0 <= k < i ==> (#[trigger] out@[k]).0@ == o@[k].0@
                        && jmodel(out@[k].1) == upper_json(jmodel(o@[k].1)),
                    forall|k: int| 0 <= k < i ==> upper_json(jmodel((#[trigger] out@[k]).1))
                        == jmodel(out@[k].1),
                decreases o.len() - i,
            {
                proof {
                    lemma_jheight_entries(o@);
                    assert(jheight(o@[i as int].1) <= jheight_entries(o@));
                }
                let key = o[i].0.clone();
                let t = uppercase_values(&o[i].1);
                out.push((key, t));
                i = i + 1;
            }
            proof {
                lemma_jmodel_entries(out@);
                lemma_jmodel_entries(o@);
                lemma_upper_json_entries(jmodel_entries(o@));
                assert(jmodel_entries(out@) =~= upper_json_entries(jmodel_entries(o@)));
                lemma_upper_json_entries(jmodel_entries(out@));
                assert(upper_json_entries(jmodel_entries(out@)) =~= jmodel_entries(out@));
            }
            JsonValue::Object(out)
        },
    }
}

/// A structural copy of a tree, equal to the original in the model.
#[verifier::loop_isolation(false)]
pub fn clone_json(v: &JsonValue) -> (r: JsonValue)
    ensures
        r@ == v@,
    decreases jheight(*v),
{
    match v {
        JsonValue::Null => JsonValue::Null,
        JsonValue::Bool(b) => JsonValue::Bool(*b),
        JsonValue::Int(i) => JsonValue::Int(*i),
        JsonValue::NumText(s) => JsonValue::NumText(s.clone()),
        JsonValue::Str(s) => JsonValue::Str(s.clone()),
        JsonValue::Array(a) => {
            let mut out: Vec<JsonValue> = Vec::new();
            let mut i: usize = 0;
            while i < a.len()
                invariant
                    i <= a.len(),
                    out@.len() == i,
                    forall|k: int| 0 <= k < i ==> jmodel(#[trigger] out@[k]) == jmodel(a@[k]),
                decreases a.len() - i,
            {
                proof {
                    lemma_jheight_seq(a@);
                    assert(jheight(a@[i as int]) <= jheight_seq(a@));
                }
                let t = clone_json(&a[i]);
                out.push(t);
                i = i + 1;
            }
            proof {
                lemma_jmodel_seq(out@);
                lemma_jmodel_seq(a@);
                assert(jmodel_seq(out@) =~= jmodel_seq(a@));
            }
            JsonValue::Array(out)
        },
        JsonValue::Object(o) => {
            let mut out: Vec<(String, JsonValue)> = Vec::new();
            let mut i: usize = 0;
            while i < o.len()
                invariant
                    i <= o.len(),
                    out@.len() == i,
                    forall|k: int| 0 <= k < i ==> (#[trigger] out@[k]).0@ == o@[k].0@
                        && jmodel(out@[k].1) == jmodel(o@[k].1),
                decreases o.len() - i,
            {
                proof {
                    lemma_jheight_entries(o@);
                    assert(jheight(o@[i as int].1) <= jheight_entries(o@));
                }
                let key = o[i].0.clone();
                let t = clone_json(&o[i].1);
                out.push((key, t));
                i = i + 1;
            }
            proof {
                lemma_jmodel_entries(out@);
                lemma_jmodel_entries(o@);
                assert(jmodel_entries(out@) =~= jmodel_entries(o@));
            }
            JsonValue::Object(out)
        },
    }
}

/// The top-level keys of a tree: those of an object in order, none for any
/// other tree.
#[verifier::loop_isolation(false)]
pub fn top_level_keys(v: &JsonValue) -> (r: Vec<String>)
    ensures
        r@.map_values(|s: String| s@) == obj_keys(v@),
{
    match v {
        JsonValue::Object(o) => {
            let mut out: Vec<String> = Vec::new();
            let mut i: usize = 0;
            while i < o.len()
                invariant
                    i <= o.len(),
                    out@.len() == i,
                    forall|k: int| 0 <= k < i ==> (#[trigger] out@[k])@ == o@[k].0@,
                decreases o.len() - i,
            {
                out.push(o[i].0.clone());
                i = i + 1;
            }
            proof {
                lemma_jmodel_entries(o@);
                assert(out@.map_values(|s: String| s@) =~= obj_keys(v@));
            }
            out
        },
        _ => {
            let out: Vec<String> = Vec::new();
            proof {
                assert(out@.map_values(|s: String| s@) =~= obj_keys(v@));
            }
            out
        },
    }
}

} // verus!
