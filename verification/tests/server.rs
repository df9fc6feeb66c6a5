use toolbench::codec::{validate, decode_fibonacci, decode_db_query};
use toolbench::dispatch::{dispatch_begin, DispatchError, ToolAction, ToolCallRequest};
use toolbench::info::{get_info, health_response};
use toolbench::json::{uppercase_values, top_level_keys, JsonValue};
use toolbench::registry::Registry;
use toolbench::render::render_json;
use toolbench::session::SessionManager;
use toolbench::text::{int_to_string, u64_to_string};
use toolbench::dispatch::parse_request;
use toolbench::tools::{calculate_fibonacci, fetch_failure, fetch_response, fibonacci,
    process_json_data, query_response, timestamp_shaped, ContentBlock, FibonacciParams,
    ProcessJsonParams, ToolCallResult};

fn obj(pairs: Vec<(&str, JsonValue)>) -> JsonValue {
    JsonValue::Object(pairs.into_iter().map(|(k, v)| (k.to_string(), v)).collect())
}

fn s(t: &str) -> JsonValue {
    JsonValue::Str(t.to_string())
}

fn success_text(r: &ToolCallResult) -> String {
    match r {
        ToolCallResult::Success(blocks) => {
            assert_eq!(blocks.len(), 1);
            match &blocks[0] {
                ContentBlock::Text(t) => t.clone(),
            }
        }
        ToolCallResult::Failure(m) => panic!("expected success, got failure: {}", m),
    }
}

fn failure_text(r: &ToolCallResult) -> String {
    match r {
        ToolCallResult::Success(_) => panic!("expected failure, got success"),
        ToolCallResult::Failure(m) => m.clone(),
    }
}

fn fib_request(n: i64) -> ToolCallRequest {
    ToolCallRequest {
        tool_name: "calculate_fibonacci".to_string(),
        arguments: obj(vec![("n", JsonValue::Int(n))]),
    }
}

#[test]
fn fibonacci_base_cases() {
    assert_eq!(fibonacci(0), 0);
    assert_eq!(fibonacci(1), 1);
    assert_eq!(fibonacci(10), 55);
}

#[test]
fn fibonacci_tool_computes_envelope() {
    let r = calculate_fibonacci(&FibonacciParams { n: 10 });
    assert_eq!(
        success_text(&r),
        "{\"input\":10,\"result\":55,\"server_type\":\"rust\"}"
    );
    let r0 = calculate_fibonacci(&FibonacciParams { n: 0 });
    assert_eq!(
        success_text(&r0),
        "{\"input\":0,\"result\":0,\"server_type\":\"rust\"}"
    );
    let r1 = calculate_fibonacci(&FibonacciParams { n: 1 });
    assert_eq!(
        success_text(&r1),
        "{\"input\":1,\"result\":1,\"server_type\":\"rust\"}"
    );
}

#[test]
fn fibonacci_tool_rejects_out_of_range() {
    let low = calculate_fibonacci(&FibonacciParams { n: -1 });
    assert_eq!(failure_text(&low), "n must be between 0 and 40");
    let high = calculate_fibonacci(&FibonacciParams { n: 41 });
    assert_eq!(failure_text(&high), "n must be between 0 and 40");
}

#[test]
fn transform_uppercases_and_lists_keys() {
    let input = obj(vec![
        ("a", s("hi")),
        ("b", obj(vec![("c", s("yo"))])),
        ("d", JsonValue::Int(5)),
    ]);
    let r = process_json_data(&ProcessJsonParams { data: input });
    assert_eq!(
        success_text(&r),
        "{\"original_keys\":[\"a\",\"b\",\"d\"],\"server_type\":\"rust\",\
         \"transformed_data\":{\"a\":\"HI\",\"b\":{\"c\":\"YO\"},\"d\":5}}"
    );
}

#[test]
fn transform_non_object_has_no_keys() {
    let r = process_json_data(&ProcessJsonParams { data: s("hi") });
    assert_eq!(
        success_text(&r),
        "{\"original_keys\":[],\"server_type\":\"rust\",\"transformed_data\":\"HI\"}"
    );
    assert!(top_level_keys(&s("hi")).is_empty());
}

#[test]
fn transform_is_idempotent() {
    let input = obj(vec![
        ("a", s("Mixed Case")),
        ("b", JsonValue::Array(vec![s("one"), s("TWO"), JsonValue::Bool(true)])),
        ("c", s("stra\u{df}e \u{e9}")),
    ]);
    let once = uppercase_values(&input);
    let twice = uppercase_values(&once);
    assert_eq!(render_json(&once), render_json(&twice));
}

#[test]
fn transform_uppercases_unicode() {
    let v = uppercase_values(&s("h\u{e9}llo"));
    assert_eq!(render_json(&v), "\"H\u{c9}LLO\"");
    let sharp = uppercase_values(&s("stra\u{df}e"));
    assert_eq!(render_json(&sharp), "\"STRASSE\"");
    let untouched = uppercase_values(&s("abcXYZ 123!"));
    assert_eq!(render_json(&untouched), "\"ABCXYZ 123!\"");
}

#[test]
fn render_escapes_strings() {
    let v = s("a\"b\\c\nd\te\rf");
    assert_eq!(render_json(&v), "\"a\\\"b\\\\c\\nd\\te\\rf\"");
    let ctl = s("x\u{1}y\u{1f}z");
    assert_eq!(render_json(&ctl), "\"x\\u0001y\\u001fz\"");
}

#[test]
fn render_numbers() {
    assert_eq!(render_json(&JsonValue::Int(-42)), "-42");
    assert_eq!(int_to_string(i64::MIN), "-9223372036854775808");
    assert_eq!(int_to_string(0), "0");
    assert_eq!(u64_to_string(5000), "5000");
}

#[test]
fn transform_carries_non_integer_numbers_verbatim() {
    let input = obj(vec![
        ("x", JsonValue::NumText("5.5".to_string())),
        ("y", s("lo")),
    ]);
    let r = process_json_data(&ProcessJsonParams { data: input });
    assert_eq!(
        success_text(&r),
        "{\"original_keys\":[\"x\",\"y\"],\"server_type\":\"rust\",\
         \"transformed_data\":{\"x\":5.5,\"y\":\"LO\"}}"
    );
}

#[test]
fn huge_delay_is_a_tool_failure_not_a_protocol_error() {
    let reg = Registry::new();
    let req = ToolCallRequest {
        tool_name: "simulate_database_query".to_string(),
        arguments: obj(vec![
            ("query", s("SELECT 1")),
            ("delay_ms", JsonValue::NumText("10000000000000000000".to_string())),
        ]),
    };
    match dispatch_begin(&reg, &req) {
        Ok(ToolAction::Done(res)) => {
            assert_eq!(
                failure_text(&res),
                "invalid parameter delay_ms: expected integer, got 10000000000000000000"
            );
        }
        _ => panic!("expected a completed failure"),
    }
}

#[test]
fn parse_request_reads_the_envelope() {
    let body = obj(vec![
        ("tool_name", s("calculate_fibonacci")),
        ("arguments", obj(vec![("n", JsonValue::Int(4))])),
    ]);
    let req = parse_request(&body).expect("well-formed envelope must parse");
    assert_eq!(req.tool_name, "calculate_fibonacci");
    let no_args = obj(vec![("tool_name", s("process_json_data"))]);
    let req2 = parse_request(&no_args).expect("absent arguments default to an empty object");
    assert!(matches!(req2.arguments, JsonValue::Object(ref o) if o.is_empty()));
    assert!(matches!(
        parse_request(&obj(vec![("arguments", obj(vec![]))])),
        Err(DispatchError::MalformedEnvelope)
    ));
    assert!(matches!(
        parse_request(&s("not an envelope")),
        Err(DispatchError::MalformedEnvelope)
    ));
}

#[test]
fn render_compound_values() {
    let v = JsonValue::Array(vec![JsonValue::Null, JsonValue::Bool(false), obj(vec![])]);
    assert_eq!(render_json(&v), "[null,false,{}]");
}

#[test]
fn registry_lists_four_tools_with_schemas() {
    let reg = Registry::new();
    let names: Vec<&str> = reg.list().iter().map(|d| d.name.as_str()).collect();
    assert_eq!(
        names,
        vec![
            "calculate_fibonacci",
            "fetch_external_data",
            "process_json_data",
            "simulate_database_query",
        ]
    );
    for d in reg.list() {
        let found = reg.lookup(&d.name).expect("registered name must resolve");
        assert_eq!(found.name, d.name);
        assert_eq!(found.schema.fields.len(), d.schema.fields.len());
    }
}

#[test]
fn registry_schema_matches_codec_acceptance() {
    let reg = Registry::new();
    let d = reg.lookup(&"calculate_fibonacci".to_string()).unwrap();
    let good = obj(vec![("n", JsonValue::Int(7))]);
    let bad = obj(vec![("n", s("seven"))]);
    assert!(validate(&d.schema, &good).is_ok());
    assert!(validate(&d.schema, &bad).is_err());
    assert!(decode_fibonacci(&good).is_ok());
    assert!(decode_fibonacci(&bad).is_err());
}

#[test]
fn registry_rejects_duplicate_names() {
    let mut reg = Registry::new();
    let before = reg.list().len();
    let dup = toolbench::registry::ToolDescriptor {
        name: "calculate_fibonacci".to_string(),
        description: "again".to_string(),
        schema: toolbench::codec::fibonacci_schema(),
    };
    assert!(reg.register(dup).is_err());
    assert_eq!(reg.list().len(), before);
}

#[test]
fn decode_rejects_negative_delay() {
    let raw = obj(vec![("query", s("SELECT 1")), ("delay_ms", JsonValue::Int(-1))]);
    let e = match decode_db_query(&raw) {
        Err(e) => e,
        Ok(_) => panic!("negative delay must be rejected"),
    };
    assert_eq!(e.field, "delay_ms");
    assert_eq!(e.expected, "non-negative integer");
    assert_eq!(e.got, "-1");
}

#[test]
fn non_object_parameters_are_rejected() {
    let reg = Registry::new();
    let req = ToolCallRequest {
        tool_name: "calculate_fibonacci".to_string(),
        arguments: JsonValue::Int(3),
    };
    match dispatch_begin(&reg, &req) {
        Ok(ToolAction::Done(res)) => {
            assert_eq!(
                failure_text(&res),
                "invalid parameter params: expected object, got 3"
            );
        }
        _ => panic!("expected a completed failure"),
    }
}

#[test]
fn lookup_of_unknown_name_is_none() {
    let reg = Registry::new();
    assert!(reg.lookup(&"no_such_tool".to_string()).is_none());
}

#[test]
fn dispatch_unknown_tool_is_protocol_error() {
    let reg = Registry::new();
    let req = ToolCallRequest {
        tool_name: "no_such_tool".to_string(),
        arguments: obj(vec![]),
    };
    assert!(matches!(dispatch_begin(&reg, &req), Err(DispatchError::UnknownTool)));
}

#[test]
fn dispatch_validation_failure_is_tool_failure() {
    let reg = Registry::new();
    let req = ToolCallRequest {
        tool_name: "calculate_fibonacci".to_string(),
        arguments: obj(vec![("n", s("ten"))]),
    };
    match dispatch_begin(&reg, &req) {
        Ok(ToolAction::Done(res)) => {
            assert_eq!(
                failure_text(&res),
                "invalid parameter n: expected integer, got \"ten\""
            );
        }
        other => panic!("expected a completed failure, got {:?}", other.is_ok()),
    }
    let missing = ToolCallRequest {
        tool_name: "calculate_fibonacci".to_string(),
        arguments: obj(vec![]),
    };
    match dispatch_begin(&reg, &missing) {
        Ok(ToolAction::Done(res)) => {
            assert_eq!(
                failure_text(&res),
                "invalid parameter n: expected integer, got missing"
            );
        }
        _ => panic!("expected a completed failure"),
    }
}

#[test]
fn dispatch_fetch_hands_back_the_endpoint() {
    let reg = Registry::new();
    let req = ToolCallRequest {
        tool_name: "fetch_external_data".to_string(),
        arguments: obj(vec![("endpoint", s("http://example.com/x"))]),
    };
    match dispatch_begin(&reg, &req) {
        Ok(ToolAction::FetchUrl(u)) => assert_eq!(u, "http://example.com/x"),
        _ => panic!("expected a fetch action"),
    }
}

#[test]
fn fetch_results_render_both_outcomes() {
    let ok = fetch_response(&"http://example.com".to_string(), 200, 17);
    assert_eq!(
        success_text(&ok),
        "{\"response_time_ms\":17,\"server_type\":\"rust\",\"status_code\":200,\
         \"url\":\"http://example.com\"}"
    );
    let bad = fetch_failure(&"connection refused".to_string());
    assert_eq!(failure_text(&bad), "Request failed: connection refused");
}

#[test]
fn query_rejects_delay_over_limit() {
    let reg = Registry::new();
    let req = ToolCallRequest {
        tool_name: "simulate_database_query".to_string(),
        arguments: obj(vec![("query", s("SELECT 1")), ("delay_ms", JsonValue::Int(5001))]),
    };
    match dispatch_begin(&reg, &req) {
        Ok(ToolAction::Done(res)) => {
            assert_eq!(failure_text(&res), "delay_ms must be between 0 and 5000");
        }
        _ => panic!("expected a completed failure"),
    }
}

#[test]
fn query_zero_delay_succeeds_with_timestamp() {
    let reg = Registry::new();
    let req = ToolCallRequest {
        tool_name: "simulate_database_query".to_string(),
        arguments: obj(vec![("query", s("SELECT 1")), ("delay_ms", JsonValue::Int(0))]),
    };
    let (query, delay_ms) = match dispatch_begin(&reg, &req) {
        Ok(ToolAction::Delay { query, delay_ms }) => (query, delay_ms),
        _ => panic!("expected a delay action"),
    };
    assert_eq!(query, "SELECT 1");
    assert_eq!(delay_ms, 0);
    let ts = chrono::Utc::now().to_rfc3339();
    assert!(timestamp_shaped(&ts), "clock reading is not RFC 3339 shaped: {}", ts);
    let r = query_response(&query, delay_ms, &ts);
    assert_eq!(
        success_text(&r),
        format!(
            "{{\"delay_ms\":0,\"query\":\"SELECT 1\",\"server_type\":\"rust\",\"timestamp\":\"{}\"}}",
            ts
        )
    );
}

#[test]
fn timestamp_checker_rejects_wrong_shapes() {
    assert!(timestamp_shaped(&"2026-10-08T12:34:56+00:00".to_string()));
    assert!(!timestamp_shaped(&String::new()));
    assert!(!timestamp_shaped(&"yesterday about noon, maybe".to_string()));
    assert!(!timestamp_shaped(&"+12026-10-08T12:34:56+00:00".to_string()));
}

#[test]
fn query_results_match_their_own_delay() {
    let a = query_response(&"q1".to_string(), 3, &"t1".to_string());
    let b = query_response(&"q2".to_string(), 7, &"t2".to_string());
    assert_eq!(
        success_text(&a),
        "{\"delay_ms\":3,\"query\":\"q1\",\"server_type\":\"rust\",\"timestamp\":\"t1\"}"
    );
    assert_eq!(
        success_text(&b),
        "{\"delay_ms\":7,\"query\":\"q2\",\"server_type\":\"rust\",\"timestamp\":\"t2\"}"
    );
}

#[test]
fn sessions_get_distinct_identities() {
    let mut m = SessionManager::new();
    let s1 = m.open();
    let s2 = m.open();
    assert_ne!(s1, s2);
}

#[test]
fn unknown_tool_leaves_session_state_intact() {
    let mut m = SessionManager::new();
    let sid = m.open();
    let names_before: Vec<String> =
        m.registry.list().iter().map(|d| d.name.clone()).collect();
    let bad = ToolCallRequest {
        tool_name: "no_such_tool".to_string(),
        arguments: obj(vec![]),
    };
    assert!(matches!(m.route(sid, &bad), Err(DispatchError::UnknownTool)));
    let names_after: Vec<String> =
        m.registry.list().iter().map(|d| d.name.clone()).collect();
    assert_eq!(names_before, names_after);
    match m.route(sid, &fib_request(10)) {
        Ok(ToolAction::Done(res)) => {
            assert_eq!(
                success_text(&res),
                "{\"input\":10,\"result\":55,\"server_type\":\"rust\"}"
            );
        }
        _ => panic!("valid call after a failed one must still succeed"),
    }
}

#[test]
fn closed_session_is_unknown() {
    let mut m = SessionManager::new();
    let s1 = m.open();
    let s2 = m.open();
    assert!(m.close(s1));
    assert!(matches!(
        m.route(s1, &fib_request(1)),
        Err(DispatchError::UnknownSession)
    ));
    assert!(matches!(m.route(s2, &fib_request(1)), Ok(_)));
}

#[test]
fn call_counters_track_route_and_finish() {
    let mut m = SessionManager::new();
    let sid = m.open();
    assert!(matches!(m.route(sid, &fib_request(2)), Ok(_)));
    assert!(matches!(m.route(sid, &fib_request(3)), Ok(_)));
    assert_eq!(m.sessions[0].active_calls, 2);
    assert!(m.finish(sid));
    assert_eq!(m.sessions[0].active_calls, 1);
}

#[test]
fn server_info_declares_tools() {
    let info = get_info();
    assert_eq!(info.protocol_version, "2024-11-05");
    assert!(info.tools_capability);
    assert_eq!(info.name, "mcp-rust-server");
    assert_eq!(info.version, "0.1.0");
    assert_eq!(info.instructions, "Rust MCP benchmark server");
}

#[test]
fn health_payload_is_fixed() {
    assert_eq!(health_response(), "{\"server_type\":\"rust\",\"status\":\"ok\"}");
}
