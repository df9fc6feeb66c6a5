//! The dispatcher: resolves a tool by name, validates and decodes its
//! parameters, and normalizes every outcome into the uniform result
//! envelope or into an action the caller performs outside the library.

use vstd::prelude::*;
use crate::codec::{conforms, int_field, str_field, any_field, spec_violation, db_violation,
    violation_text, validation_message, fib_schema_spec, fetch_schema_spec, process_schema_spec,
    db_schema_spec, decode_fibonacci, decode_fetch, decode_process, decode_db_query};
use crate::json::{JsonValue, Json, clone_json, entries_get};
use crate::codec::{is_object, obj_entries, obj_get};
use crate::registry::{Registry, registry_spec, spec_lookup};
use crate::codec::FieldKind;
use crate::tools::{ToolCallResult, is_text_success, is_failure, fib_range_msg, fib_response,
    transform_response, delay_range_msg, calculate_fibonacci, process_json_data};

verus! {

/// A dispatch-level protocol failure, distinct from a tool's own
/// `Failure` result: the caller asked for something that does not exist,
/// or sent a request envelope the dispatch layer cannot read.
#[derive(Debug, PartialEq, Eq, Structural)]
pub enum DispatchError {
    UnknownTool,
    UnknownSession,
    MalformedEnvelope,
}

/// What the dispatcher asks of its caller: a finished result to deliver,
/// or one piece of outside work to perform before completing the call.
pub enum ToolAction {
    /// The call is complete; deliver this result.
    Done(ToolCallResult),
    /// Perform an HTTP GET of this URL, then build the result with
    /// `fetch_response` or `fetch_failure`.
    FetchUrl(String),
    /// Sleep for `delay_ms` milliseconds, then build the result with
    /// `query_response`, stamped with the transport's clock reading.
    Delay { query: String, delay_ms: u64 },
}

/// One inbound tool invocation: the tool's name and its raw, untyped
/// parameter tree.
pub struct ToolCallRequest {
    pub tool_name: String,
    pub arguments: JsonValue,
}

/// Whether a request envelope is readable: an object whose `tool_name`
/// entry is a string.
pub open spec fn envelope_ok(body: Json) -> bool {
    is_object(body) && entries_get(obj_entries(body), "tool_name"@) matches Option::Some(
        Json::Str(_),
    )
}

/// The arguments a request envelope carries: its `arguments` entry, or an
/// empty object when none is given.
pub open spec fn envelope_args(body: Json) -> Json {
    match entries_get(obj_entries(body), "arguments"@) {
        Option::Some(j) => j,
        Option::None => Json::Object(Seq::empty()),
    }
}

/// Reads one inbound tool invocation out of a request envelope: the tool
/// name under `tool_name`, the parameter tree under `arguments` (an empty
/// object when absent). Anything else is the malformed-envelope protocol
/// error, distinct from any tool result.
pub fn parse_request(body: &JsonValue) -> (r: Result<ToolCallRequest, DispatchError>)
    ensures
        (r is Ok) <==> envelope_ok(body@),
        r matches Ok(req) ==> req.tool_name@ == crate::codec::str_field(body@, "tool_name"@)
            && req.arguments@ == envelope_args(body@),
        r matches Err(e) ==> e == DispatchError::MalformedEnvelope,
{
    let o = match body {
        JsonValue::Object(o) => o,
        _ => {
            return Err(DispatchError::MalformedEnvelope);
        },
    };
    let name_key = "tool_name".to_owned();
    let tool_name = match obj_get(o, &name_key) {
        Some(JsonValue::Str(s)) => s.clone(),
        _ => {
            return Err(DispatchError::MalformedEnvelope);
        },
    };
    let args_key = "arguments".to_owned();
    let arguments = match obj_get(o, &args_key) {
        Some(v) => clone_json(v),
        None => JsonValue::Object(Vec::new()),
    };
    Ok(ToolCallRequest { tool_name, arguments })
}

/// The dispatcher's obligation for the Fibonacci tool: a validation
/// failure message for non-conforming parameters, the range failure for
/// positions outside [0, 40], and otherwise the computed envelope.
pub open spec fn fib_action_ok(a: ToolAction, raw: Json) -> bool {
    match a {
        ToolAction::Done(res) => if !conforms(fib_schema_spec(), raw) {
            is_failure(res, violation_text(spec_violation(fib_schema_spec(), raw)))
        } else if int_field(raw, "n"@) < 0 || int_field(raw, "n"@) > 40 {
            is_failure(res, fib_range_msg())
        } else {
            is_text_success(res, crate::render::jtext(fib_response(int_field(raw, "n"@))))
        },
        _ => false,
    }
}

/// The dispatcher's obligation for the JSON-processing tool.
pub open spec fn process_action_ok(a: ToolAction, raw: Json) -> bool {
    match a {
        ToolAction::Done(res) => if !conforms(process_schema_spec(), raw) {
            is_failure(res, violation_text(spec_violation(process_schema_spec(), raw)))
        } else {
            is_text_success(
                res,
                crate::render::jtext(transform_response(any_field(raw, "data"@))),
            )
        },
        _ => false,
    }
}

/// The dispatcher's obligation for the outbound-fetch tool: validated
/// parameters turn into a fetch action carrying the endpoint.
pub open spec fn fetch_action_ok(a: ToolAction, raw: Json) -> bool {
    if !conforms(fetch_schema_spec(), raw) {
        match a {
            ToolAction::Done(res) => is_failure(
                res,
                violation_text(spec_violation(fetch_schema_spec(), raw)),
            ),
            _ => false,
        }
    } else {
        match a {
            ToolAction::FetchUrl(u) => u@ == str_field(raw, "endpoint"@),
            _ => false,
        }
    }
}

/// The dispatcher's obligation for the simulated-query tool: validated
/// parameters with a delay in range turn into a delay action; a delay
/// over 5000 is rejected with the range failure.
pub open spec fn query_action_ok(a: ToolAction, raw: Json) -> bool {
    if !(conforms(db_schema_spec(), raw) && int_field(raw, "delay_ms"@) >= 0) {
        match a {
            ToolAction::Done(res) => is_failure(res, violation_text(db_violation(raw))),
            _ => false,
        }
    } else if int_field(raw, "delay_ms"@) > 5000 {
        match a {
            ToolAction::Done(res) => is_failure(res, delay_range_msg()),
            _ => false,
        }
    } else {
        match a {
            ToolAction::Delay { query, delay_ms } => query@ == str_field(raw, "query"@)
                && delay_ms as int == int_field(raw, "delay_ms"@),
            _ => false,
        }
    }
}

/// The dispatcher's whole obligation, by tool name.
pub open spec fn action_ok(name: Seq<char>, a: ToolAction, raw: Json) -> bool {
    if name == "calculate_fibonacci"@ {
        fib_action_ok(a, raw)
    } else if name == "process_json_data"@ {
        process_action_ok(a, raw)
    } else if name == "fetch_external_data"@ {
        fetch_action_ok(a, raw)
    } else if name == "simulate_database_query"@ {
        query_action_ok(a, raw)
    } else {
        false
    }
}

/// A name is found by `spec_lookup` exactly when some descriptor carries
/// it.
pub proof fn lemma_spec_lookup_some(
    reg: Seq<(Seq<char>, Seq<char>, Seq<(Seq<char>, FieldKind)>)>,
    nm: Seq<char>,
)
    ensures
        (spec_lookup(reg, nm) is Some) <==> (exists|i: int|
            0 <= i < reg.len() && reg[i].0 == nm),
    decreases reg,
{
    if reg.len() == 0 {
    } else if reg[0].0 == nm {
        assert(0 <= 0 < reg.len() && reg[0].0 == nm);
    } else {
        lemma_spec_lookup_some(reg.drop_first(), nm);
        assert(forall|i: int| 0 <= i < reg.drop_first().len() ==> #[trigger] reg.drop_first()[i]
            == reg[i + 1]);
        if spec_lookup(reg, nm) is Some {
            let i = choose|i: int| 0 <= i < reg.drop_first().len() && reg.drop_first()[i].0 == nm;
            assert(reg[i + 1].0 == nm);
        }
        if exists|i: int| 0 <= i < reg.len() && reg[i].0 == nm {
            let i = choose|i: int| 0 <= i < reg.len() && reg[i].0 == nm;
            assert(i >= 1);
            assert(reg.drop_first()[i - 1].0 == nm);
        }
    }
}

/// Every name the startup registry resolves is one of its four tools.
pub proof fn lemma_registry_names(nm: Seq<char>)
    requires
        spec_lookup(registry_spec(), nm) is Some,
    ensures
        nm == "calculate_fibonacci"@ || nm == "fetch_external_data"@ || nm == "process_json_data"@
            || nm == "simulate_database_query"@,
{
    lemma_spec_lookup_some(registry_spec(), nm);
    let i = choose|i: int| 0 <= i < registry_spec().len() && registry_spec()[i].0 == nm;
    assert(i == 0 || i == 1 || i == 2 || i == 3);
}

/// Resolves and runs one tool call as far as the library can take it:
/// unknown names are protocol errors, invalid parameters become `Failure`
/// results, the pure tools run to completion, and the two tools that need
/// outside work hand back the action to perform.
pub fn dispatch_begin(reg: &Registry, req: &ToolCallRequest) -> (r: Result<
    ToolAction,
    DispatchError,
>)
    requires
        reg@ == registry_spec(),
    ensures
        (spec_lookup(reg@, req.tool_name@) is None) <==> (r matches Err(
            DispatchError::UnknownTool,
        )),
        r matches Err(e) ==> e == DispatchError::UnknownTool,
        r matches Ok(a) ==> action_ok(req.tool_name@, a, req.arguments@),
{
    let d = match reg.lookup(&req.tool_name) {
        Some(d) => d,
        None => {
            return Err(DispatchError::UnknownTool);
        },
    };
    proof {
        lemma_registry_names(req.tool_name@);
    }
    let fib_name = "calculate_fibonacci".to_owned();
    let fetch_name = "fetch_external_data".to_owned();
    let process_name = "process_json_data".to_owned();
    let query_name = "simulate_database_query".to_owned();
    if req.tool_name.eq(&fib_name) {
        match decode_fibonacci(&req.arguments) {
            Ok(p) => Ok(ToolAction::Done(calculate_fibonacci(&p))),
            Err(e) => Ok(ToolAction::Done(ToolCallResult::Failure(validation_message(&e)))),
        }
    } else if req.tool_name.eq(&process_name) {
        match decode_process(&req.arguments) {
            Ok(p) => Ok(ToolAction::Done(process_json_data(&p))),
            Err(e) => Ok(ToolAction::Done(ToolCallResult::Failure(validation_message(&e)))),
        }
    } else if req.tool_name.eq(&fetch_name) {
        match decode_fetch(&req.arguments) {
            Ok(p) => Ok(ToolAction::FetchUrl(p.endpoint)),
            Err(e) => Ok(ToolAction::Done(ToolCallResult::Failure(validation_message(&e)))),
        }
    } else {
        proof {
            lemma_registry_names(req.tool_name@);
        }
        match decode_db_query(&req.arguments) {
            Ok(p) => {
                if p.delay_ms > 5000 {
                    Ok(
                        ToolAction::Done(
                            ToolCallResult::Failure(
                                "delay_ms must be between 0 and 5000".to_owned(),
                            ),
                        ),
                    )
                } else {
                    Ok(ToolAction::Delay { query: p.query, delay_ms: p.delay_ms })
                }
            },
            Err(e) => Ok(ToolAction::Done(ToolCallResult::Failure(validation_message(&e)))),
        }
    }
}

} // verus!
