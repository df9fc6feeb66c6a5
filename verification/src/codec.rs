//! Parameter schemas and the codec that validates and decodes untyped
//! parameter trees against them.

use vstd::prelude::*;
use crate::json::{Json, JsonValue, jmodel, jmodel_entries, lemma_jmodel_entries, entries_get,
    clone_json};
use crate::tools::{FibonacciParams, FetchParams, ProcessJsonParams, DbQueryParams};
use crate::render::{jtext};
use crate::render;

verus! {

/// The kind a schema declares for one parameter field.
#[derive(Clone, Copy, PartialEq, Eq, Structural)]
pub enum FieldKind {
    IntKind,
    StrKind,
    AnyKind,
}

/// One declared parameter field: its name and its kind.
pub struct FieldSpec {
    pub name: String,
    pub kind: FieldKind,
}

/// A tool's declared parameter shape: a list of required fields.
pub struct Schema {
    pub fields: Vec<FieldSpec>,
}

impl View for FieldSpec {
    type V = (Seq<char>, FieldKind);

    open spec fn view(&self) -> (Seq<char>, FieldKind) {
        (self.name@, self.kind)
    }
}

impl View for Schema {
    type V = Seq<(Seq<char>, FieldKind)>;

    open spec fn view(&self) -> Seq<(Seq<char>, FieldKind)> {
        Seq::new(self.fields@.len(), |i: int| self.fields@[i]@)
    }
}

/// Whether a tree is an object.
pub open spec fn is_object(j: Json) -> bool {
    match j {
        Json::Object(_) => true,
        _ => false,
    }
}

/// The entries of an object tree, empty for any other tree.
pub open spec fn obj_entries(j: Json) -> Seq<(Seq<char>, Json)> {
    match j {
        Json::Object(o) => o,
        _ => Seq::empty(),
    }
}

/// Whether a value matches a declared field kind.
pub open spec fn kind_matches(k: FieldKind, j: Json) -> bool {
    match k {
        FieldKind::IntKind => j is Int,
        FieldKind::StrKind => j is Str,
        FieldKind::AnyKind => true,
    }
}

/// Whether field `i` of the schema is present in the object with a matching
/// kind.
pub open spec fn field_ok(sch: Seq<(Seq<char>, FieldKind)>, raw: Json, i: int) -> bool {
    match entries_get(obj_entries(raw), sch[i].0) {
        Option::Some(j) => kind_matches(sch[i].1, j),
        Option::None => false,
    }
}

/// The shape the codec accepts for a schema: an object in which every
/// declared field is present with a matching kind. Extra fields are
/// ignored.
pub open spec fn conforms(sch: Seq<(Seq<char>, FieldKind)>, raw: Json) -> bool {
    &&& is_object(raw)
    &&& forall|i: int| 0 <= i < sch.len() ==> field_ok(sch, raw, i)
}

/// A validation failure: the field that was rejected, the constraint it
/// broke, and the value that was found.
pub struct ValidationError {
    pub field: String,
    pub expected: String,
    pub got: String,
}

impl View for ValidationError {
    type V = (Seq<char>, Seq<char>, Seq<char>);

    open spec fn view(&self) -> (Seq<char>, Seq<char>, Seq<char>) {
        (self.field@, self.expected@, self.got@)
    }
}

/// The wording used for each declared kind in validation messages.
pub open spec fn kind_name(k: FieldKind) -> Seq<char> {
    match k {
        FieldKind::IntKind => "integer"@,
        FieldKind::StrKind => "string"@,
        FieldKind::AnyKind => "value"@,
    }
}

/// The text a validation message shows for what was found under a field.
pub open spec fn found_text(raw: Json, name: Seq<char>) -> Seq<char> {
    match entries_get(obj_entries(raw), name) {
        Option::Some(j) => jtext(j),
        Option::None => "missing"@,
    }
}

/// The index of the first schema field the object violates, if any,
/// looking from `i` onward.
pub open spec fn first_bad_from(sch: Seq<(Seq<char>, FieldKind)>, raw: Json, i: int) -> int
    decreases sch.len() - i,
{
    if i < 0 || i >= sch.len() {
        sch.len() as int
    } else if !field_ok(sch, raw, i) {
        i
    } else {
        first_bad_from(sch, raw, i + 1)
    }
}

/// The error `validate` reports for a non-conforming payload.
pub open spec fn spec_violation(sch: Seq<(Seq<char>, FieldKind)>, raw: Json) -> (
    Seq<char>,
    Seq<char>,
    Seq<char>,
) {
    if !is_object(raw) {
        ("params"@, "object"@, jtext(raw))
    } else {
        let i = first_bad_from(sch, raw, 0);
        (sch[i].0, kind_name(sch[i].1), found_text(raw, sch[i].0))
    }
}

exec fn kind_name_exec(k: FieldKind) -> (r: String)
    ensures
        r@ == kind_name(k),
{
    match k {
        FieldKind::IntKind => "integer".to_owned(),
        FieldKind::StrKind => "string".to_owned(),
        FieldKind::AnyKind => "value".to_owned(),
    }
}

/// Looks up a key among an object's entries: the first entry with that
/// key, as `entries_get` describes.
#[verifier::loop_isolation(false)]
pub fn obj_get<'a>(o: &'a Vec<(String, JsonValue)>, key: &String) -> (r: Option<&'a JsonValue>)
    ensures
        match r {
            Option::Some(v) => entries_get(jmodel_entries(o@), key@) == Option::Some(jmodel(*v)),
            Option::None => entries_get(jmodel_entries(o@), key@) is None,
        },
{
    proof {
        lemma_jmodel_entries(o@);
        assert(jmodel_entries(o@).skip(0) =~= jmodel_entries(o@));
    }
    let n = o.len();
    let mut i: usize = 0;
    while i < n
        invariant
            i <= n,
            n == o@.len(),
            entries_get(jmodel_entries(o@), key@) == entries_get(
                jmodel_entries(o@).skip(i as int),
                key@,
            ),
            forall|k: int| 0 <= k < jmodel_entries(o@).len() ==> #[trigger] jmodel_entries(o@)[k]
                == (o@[k].0@, jmodel(o@[k].1)),
            jmodel_entries(o@).len() == o@.len(),
        decreases n - i,
    {
        if o[i].0.eq(key) {
            proof {
                assert(jmodel_entries(o@).skip(i as int)[0] == (o@[i as int].0@, jmodel(
                    o@[i as int].1,
                )));
            }
            return Some(&o[i].1);
        }
        proof {
            assert(jmodel_entries(o@).skip(i as int)[0] == (o@[i as int].0@, jmodel(
                o@[i as int].1,
            )));
            assert(jmodel_entries(o@).skip(i as int).drop_first() =~= jmodel_entries(o@).skip(
                i as int + 1,
            ));
        }
        i = i + 1;
    }
    proof {
        assert(jmodel_entries(o@).skip(n as int).len() == 0);
    }
    None
}

/// Validates an untyped payload against a schema: accepts exactly the
/// payloads that conform, and otherwise reports the first violated field
/// with its constraint and the value found.
#[verifier::loop_isolation(false)]
pub fn validate(schema: &Schema, raw: &JsonValue) -> (r: Result<(), ValidationError>)
    ensures
        r is Ok <==> conforms(schema@, raw@),
        r matches Err(e) ==> e@ == spec_violation(schema@, raw@),
{
    let o = match raw {
        JsonValue::Object(o) => o,
        _ => {
            return Err(
                ValidationError {
                    field: "params".to_owned(),
                    expected: "object".to_owned(),
                    got: render::render_json(raw),
                },
            );
        },
    };
    let n = schema.fields.len();
    let mut i: usize = 0;
    while i < n
        invariant
            i <= n,
            n == schema@.len(),
            raw@ == Json::Object(jmodel_entries(o@)),
            forall|k: int| 0 <= k < i ==> field_ok(schema@, raw@, k),
        decreases n - i,
    {
        let f = &schema.fields[i];
        let found = obj_get(o, &f.name);
        let ok: bool = match (f.kind, found) {
            (FieldKind::IntKind, Some(JsonValue::Int(_))) => true,
            (FieldKind::StrKind, Some(JsonValue::Str(_))) => true,
            (FieldKind::AnyKind, Some(_)) => true,
            _ => false,
        };
        if !ok {
            proof {
                assert(!field_ok(schema@, raw@, i as int));
                lemma_first_bad_from(schema@, raw@, 0, i as int);
            }
            let got = match found {
                Some(v) => render::render_json(v),
                None => "missing".to_owned(),
            };
            return Err(
                ValidationError {
                    field: f.name.clone(),
                    expected: kind_name_exec(f.kind),
                    got,
                },
            );
        }
        proof {
            assert(field_ok(schema@, raw@, i as int));
        }
        i = i + 1;
    }
    Ok(())
}

/// When every field before `i` is in order and field `i` is violated, `i`
/// is the first violation seen from `j`.
proof fn lemma_first_bad_from(sch: Seq<(Seq<char>, FieldKind)>, raw: Json, j: int, i: int)
    requires
        0 <= j <= i < sch.len(),
        forall|k: int| j <= k < i ==> field_ok(sch, raw, k),
        !field_ok(sch, raw, i),
    ensures
        first_bad_from(sch, raw, j) == i,
    decreases i - j,
{
    if j < i {
        lemma_first_bad_from(sch, raw, j + 1, i);
    }
}

/// The declared parameter shape of the Fibonacci tool.
pub open spec fn fib_schema_spec() -> Seq<(Seq<char>, FieldKind)> {
    seq![("n"@, FieldKind::IntKind)]
}

/// The declared parameter shape of the outbound-fetch tool.
pub open spec fn fetch_schema_spec() -> Seq<(Seq<char>, FieldKind)> {
    seq![("endpoint"@, FieldKind::StrKind)]
}

/// The declared parameter shape of the JSON-processing tool.
pub open spec fn process_schema_spec() -> Seq<(Seq<char>, FieldKind)> {
    seq![("data"@, FieldKind::AnyKind)]
}

/// The declared parameter shape of the simulated-query tool.
pub open spec fn db_schema_spec() -> Seq<(Seq<char>, FieldKind)> {
    seq![("query"@, FieldKind::StrKind), ("delay_ms"@, FieldKind::IntKind)]
}

fn field_spec(name: &str, kind: FieldKind) -> (r: FieldSpec)
    ensures
        r@ == (name@, kind),
{
    FieldSpec { name: name.to_owned(), kind }
}

/// The Fibonacci tool's schema as a value.
pub fn fibonacci_schema() -> (r: Schema)
    ensures
        r@ == fib_schema_spec(),
{
    let mut fields: Vec<FieldSpec> = Vec::new();
    fields.push(field_spec("n", FieldKind::IntKind));
    let r = Schema { fields };
    proof {
        assert(r@ =~~= fib_schema_spec());
    }
    r
}

/// The outbound-fetch tool's schema as a value.
pub fn fetch_schema() -> (r: Schema)
    ensures
        r@ == fetch_schema_spec(),
{
    let mut fields: Vec<FieldSpec> = Vec::new();
    fields.push(field_spec("endpoint", FieldKind::StrKind));
    let r = Schema { fields };
    proof {
        assert(r@ =~~= fetch_schema_spec());
    }
    r
}

/// The JSON-processing tool's schema as a value.
pub fn process_schema() -> (r: Schema)
    ensures
        r@ == process_schema_spec(),
{
    let mut fields: Vec<FieldSpec> = Vec::new();
    fields.push(field_spec("data", FieldKind::AnyKind));
    let r = Schema { fields };
    proof {
        assert(r@ =~~= process_schema_spec());
    }
    r
}

/// The simulated-query tool's schema as a value.
pub fn db_schema() -> (r: Schema)
    ensures
        r@ == db_schema_spec(),
{
    let mut fields: Vec<FieldSpec> = Vec::new();
    fields.push(field_spec("query", FieldKind::StrKind));
    fields.push(field_spec("delay_ms", FieldKind::IntKind));
    let r = Schema { fields };
    proof {
        assert(r@ =~~= db_schema_spec());
    }
    r
}

/// The integer under `name` in an object tree, zero when absent or not an
/// integer.
pub open spec fn int_field(raw: Json, name: Seq<char>) -> int {
    match entries_get(obj_entries(raw), name) {
        Option::Some(Json::Int(i)) => i,
        _ => 0,
    }
}

/// The string under `name` in an object tree, empty when absent or not a
/// string.
pub open spec fn str_field(raw: Json, name: Seq<char>) -> Seq<char> {
    match entries_get(obj_entries(raw), name) {
        Option::Some(Json::Str(s)) => s,
        _ => Seq::empty(),
    }
}

/// The tree under `name` in an object tree, null when absent.
pub open spec fn any_field(raw: Json, name: Seq<char>) -> Json {
    match entries_get(obj_entries(raw), name) {
        Option::Some(j) => j,
        _ => Json::Null,
    }
}

/// Decodes the Fibonacci tool's parameters: accepts exactly the payloads
/// that conform to its schema.
pub fn decode_fibonacci(raw: &JsonValue) -> (r: Result<FibonacciParams, ValidationError>)
    ensures
        r is Ok <==> conforms(fib_schema_spec(), raw@),
        r matches Ok(p) ==> p.n as int == int_field(raw@, "n"@),
        r matches Err(e) ==> e@ == spec_violation(fib_schema_spec(), raw@),
{
    let schema = fibonacci_schema();
    if let Err(e) = validate(&schema, raw) {
        return Err(e);
    }
    let o = match raw {
        JsonValue::Object(o) => o,
        _ => {
            proof {
                assert(false);
            }
            return Err(ValidationError {
                field: String::new(),
                expected: String::new(),
                got: String::new(),
            });
        },
    };
    let key = "n".to_owned();
    match obj_get(o, &key) {
        Some(JsonValue::Int(i)) => Ok(FibonacciParams { n: *i }),
        _ => {
            proof {
                assert(field_ok(fib_schema_spec(), raw@, 0));
                assert(false);
            }
            Err(ValidationError {
                field: String::new(),
                expected: String::new(),
                got: String::new(),
            })
        },
    }
}

/// Decodes the outbound-fetch tool's parameters: accepts exactly the
/// payloads that conform to its schema.
pub fn decode_fetch(raw: &JsonValue) -> (r: Result<FetchParams, ValidationError>)
    ensures
        r is Ok <==> conforms(fetch_schema_spec(), raw@),
        r matches Ok(p) ==> p.endpoint@ == str_field(raw@, "endpoint"@),
        r matches Err(e) ==> e@ == spec_violation(fetch_schema_spec(), raw@),
{
    let schema = fetch_schema();
    if let Err(e) = validate(&schema, raw) {
        return Err(e);
    }
    let o = match raw {
        JsonValue::Object(o) => o,
        _ => {
            proof {
                assert(false);
            }
            return Err(ValidationError {
                field: String::new(),
                expected: String::new(),
                got: String::new(),
            });
        },
    };
    let key = "endpoint".to_owned();
    match obj_get(o, &key) {
        Some(JsonValue::Str(s)) => Ok(FetchParams { endpoint: s.clone() }),
        _ => {
            proof {
                assert(field_ok(fetch_schema_spec(), raw@, 0));
                assert(false);
            }
            Err(ValidationError {
                field: String::new(),
                expected: String::new(),
                got: String::new(),
            })
        },
    }
}

/// Decodes the JSON-processing tool's parameters: accepts exactly the
/// payloads that conform to its schema.
pub fn decode_process(raw: &JsonValue) -> (r: Result<ProcessJsonParams, ValidationError>)
    ensures
        r is Ok <==> conforms(process_schema_spec(), raw@),
        r matches Ok(p) ==> p.data@ == any_field(raw@, "data"@),
        r matches Err(e) ==> e@ == spec_violation(process_schema_spec(), raw@),
{
    let schema = process_schema();
    if let Err(e) = validate(&schema, raw) {
        return Err(e);
    }
    let o = match raw {
        JsonValue::Object(o) => o,
        _ => {
            proof {
                assert(false);
            }
            return Err(ValidationError {
                field: String::new(),
                expected: String::new(),
                got: String::new(),
            });
        },
    };
    let key = "data".to_owned();
    match obj_get(o, &key) {
        Some(v) => Ok(ProcessJsonParams { data: clone_json(v) }),
        None => {
            proof {
                assert(field_ok(process_schema_spec(), raw@, 0));
                assert(false);
            }
            Err(ValidationError {
                field: String::new(),
                expected: String::new(),
                got: String::new(),
            })
        },
    }
}

/// The error the simulated-query decoder reports: a schema violation, or
/// a negative delay rejected by the delay field's unsigned type.
pub open spec fn db_violation(raw: Json) -> (Seq<char>, Seq<char>, Seq<char>) {
    if !conforms(db_schema_spec(), raw) {
        spec_violation(db_schema_spec(), raw)
    } else {
        ("delay_ms"@, "non-negative integer"@, jtext(Json::Int(int_field(raw, "delay_ms"@))))
    }
}

/// Decodes the simulated-query tool's parameters: accepts exactly the
/// payloads that conform to its schema with a non-negative delay.
pub fn decode_db_query(raw: &JsonValue) -> (r: Result<DbQueryParams, ValidationError>)
    ensures
        r is Ok <==> conforms(db_schema_spec(), raw@) && int_field(raw@, "delay_ms"@) >= 0,
        r matches Ok(p) ==> p.query@ == str_field(raw@, "query"@) && p.delay_ms as int
            == int_field(raw@, "delay_ms"@),
        r matches Err(e) ==> e@ == db_violation(raw@),
{
    let schema = db_schema();
    if let Err(e) = validate(&schema, raw) {
        return Err(e);
    }
    let o = match raw {
        JsonValue::Object(o) => o,
        _ => {
            proof {
                assert(false);
            }
            return Err(ValidationError {
                field: String::new(),
                expected: String::new(),
                got: String::new(),
            });
        },
    };
    let qkey = "query".to_owned();
    let dkey = "delay_ms".to_owned();
    let query = match obj_get(o, &qkey) {
        Some(JsonValue::Str(s)) => s.clone(),
        _ => {
            proof {
                assert(field_ok(db_schema_spec(), raw@, 0));
                assert(false);
            }
            return Err(ValidationError {
                field: String::new(),
                expected: String::new(),
                got: String::new(),
            });
        },
    };
    let delay: i64 = match obj_get(o, &dkey) {
        Some(JsonValue::Int(i)) => *i,
        _ => {
            proof {
                assert(field_ok(db_schema_spec(), raw@, 1));
                assert(false);
            }
            return Err(ValidationError {
                field: String::new(),
                expected: String::new(),
                got: String::new(),
            });
        },
    };
    if delay < 0 {
        let got = render::render_json(&JsonValue::Int(delay));
        return Err(ValidationError {
            field: dkey,
            expected: "non-negative integer".to_owned(),
            got,
        });
    }
    Ok(DbQueryParams { query, delay_ms: delay as u64 })
}

/// The text of a validation failure, as the dispatcher reports it in a
/// `Failure` result.
pub open spec fn violation_text(v: (Seq<char>, Seq<char>, Seq<char>)) -> Seq<char> {
    "invalid parameter "@ + v.0 + ": expected "@ + v.1 + ", got "@ + v.2
}

/// Renders a validation failure as a message naming the field, the
/// constraint, and the value found.
pub fn validation_message(e: &ValidationError) -> (r: String)
    ensures
        r@ == violation_text(e@),
{
    let mut m = "invalid parameter ".to_owned();
    m.append(e.field.as_str());
    m.append(": expected ");
    m.append(e.expected.as_str());
    m.append(", got ");
    m.append(e.got.as_str());
    m
}


} // verus!
