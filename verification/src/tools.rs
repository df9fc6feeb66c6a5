//! The tools the server exposes: typed parameter records, the pure tool
//! bodies, and the builders for each tool's response envelope.

use vstd::prelude::*;
use crate::json::{Json, JsonValue, jmodel, jmodel_seq, jmodel_entries, lemma_jmodel_seq,
    lemma_jmodel_entries, obj_keys, upper_json, uppercase_values, top_level_keys};
use crate::render::{jtext, render_json};

verus! {

/// One unit of a tool's successful output.
pub enum ContentBlock {
    Text(String),
}

/// The uniform result envelope of a tool invocation. A `Failure` is a
/// normal, deliverable response saying the tool itself rejected the input
/// or hit a runtime problem; it is not a dispatch-level error.
pub enum ToolCallResult {
    Success(Vec<ContentBlock>),
    Failure(String),
}

/// Whether `r` is a success carrying exactly one text block with text `t`.
pub open spec fn is_text_success(r: ToolCallResult, t: Seq<char>) -> bool {
    match r {
        ToolCallResult::Success(blocks) => blocks@.len() == 1 && match blocks@[0] {
            ContentBlock::Text(s) => s@ == t,
        },
        ToolCallResult::Failure(_) => false,
    }
}

/// Whether `r` is a failure carrying the message `m`.
pub open spec fn is_failure(r: ToolCallResult, m: Seq<char>) -> bool {
    match r {
        ToolCallResult::Success(_) => false,
        ToolCallResult::Failure(s) => s@ == m,
    }
}

fn text_success(s: String) -> (r: ToolCallResult)
    ensures
        is_text_success(r, s@),
{
    let mut blocks: Vec<ContentBlock> = Vec::new();
    blocks.push(ContentBlock::Text(s));
    ToolCallResult::Success(blocks)
}

/// Typed parameters of the Fibonacci tool.
pub struct FibonacciParams {
    pub n: i64,
}

/// Typed parameters of the outbound-fetch tool.
pub struct FetchParams {
    pub endpoint: String,
}

/// Typed parameters of the JSON-processing tool.
pub struct ProcessJsonParams {
    pub data: JsonValue,
}

/// Typed parameters of the simulated-query tool.
pub struct DbQueryParams {
    pub query: String,
    pub delay_ms: u64,
}

/// The Fibonacci numbers: 0, 1, 1, 2, 3, 5, ...
pub open spec fn spec_fib(n: nat) -> nat
    decreases n,
{
    if n == 0 {
        0
    } else if n == 1 {
        1
    } else {
        spec_fib((n - 1) as nat) + spec_fib((n - 2) as nat)
    }
}

/// Powers of two, used to bound the Fibonacci numbers.
pub open spec fn two_pow(n: nat) -> nat
    decreases n,
{
    if n == 0 {
        1
    } else {
        2 * two_pow((n - 1) as nat)
    }
}

/// Each Fibonacci number is bounded by the matching power of two.
pub proof fn lemma_fib_le_two_pow(n: nat)
    ensures
        spec_fib(n) <= two_pow(n),
    decreases n,
{
    if n == 0 {
        assert(spec_fib(0) == 0);
        assert(two_pow(0) == 1);
    } else if n == 1 {
        assert(spec_fib(1) == 1);
        assert(two_pow(1) == 2 * two_pow(0));
        assert(two_pow(0) == 1);
    } else {
        lemma_fib_le_two_pow((n - 1) as nat);
        lemma_fib_le_two_pow((n - 2) as nat);
        assert(spec_fib(n) == spec_fib((n - 1) as nat) + spec_fib((n - 2) as nat));
        assert(two_pow((n - 1) as nat) == 2 * two_pow((n - 2) as nat));
        assert(two_pow(n) == 2 * two_pow((n - 1) as nat));
    }
}

/// Powers of two grow with the exponent.
pub proof fn lemma_two_pow_le(n: nat, m: nat)
    requires
        n <= m,
    ensures
        two_pow(n) <= two_pow(m),
    decreases m,
{
    if n < m {
        lemma_two_pow_le(n, (m - 1) as nat);
    }
}

proof fn lemma_two_pow_40()
    ensures
        two_pow(40) == 0x10000000000,
{
    reveal_with_fuel(two_pow, 41);
}

/// The Fibonacci numbers never shrink as the position grows.
pub proof fn lemma_fib_mono(n: nat, m: nat)
    requires
        n <= m,
    ensures
        spec_fib(n) <= spec_fib(m),
    decreases m,
{
    if n < m {
        lemma_fib_mono(n, (m - 1) as nat);
        if m >= 2 {
            assert(spec_fib(m) == spec_fib((m - 1) as nat) + spec_fib((m - 2) as nat));
        }
    }
}

/// The largest Fibonacci number a 64-bit unsigned integer can hold,
/// reached by walking the recurrence up from the base cases.
proof fn lemma_fib_93()
    ensures
        spec_fib(93) == 12200160415121876738,
{
    assert(spec_fib(0) == 0);
    assert(spec_fib(1) == 1);
    assert(spec_fib(2) == 1);
    assert(spec_fib(3) == 2);
    assert(spec_fib(4) == 3);
    assert(spec_fib(5) == 5);
    assert(spec_fib(6) == 8);
    assert(spec_fib(7) == 13);
    assert(spec_fib(8) == 21);
    assert(spec_fib(9) == 34);
    assert(spec_fib(10) == 55);
    assert(spec_fib(11) == 89);
    assert(spec_fib(12) == 144);
    assert(spec_fib(13) == 233);
    assert(spec_fib(14) == 377);
    assert(spec_fib(15) == 610);
    assert(spec_fib(16) == 987);
    assert(spec_fib(17) == 1597);
    assert(spec_fib(18) == 2584);
    assert(spec_fib(19) == 4181);
    assert(spec_fib(20) == 6765);
    assert(spec_fib(21) == 10946);
    assert(spec_fib(22) == 17711);
    assert(spec_fib(23) == 28657);
    assert(spec_fib(24) == 46368);
    assert(spec_fib(25) == 75025);
    assert(spec_fib(26) == 121393);
    assert(spec_fib(27) == 196418);
    assert(spec_fib(28) == 317811);
    assert(spec_fib(29) == 514229);
    assert(spec_fib(30) == 832040);
    assert(spec_fib(31) == 1346269);
    assert(spec_fib(32) == 2178309);
    assert(spec_fib(33) == 3524578);
    assert(spec_fib(34) == 5702887);
    assert(spec_fib(35) == 9227465);
    assert(spec_fib(36) == 14930352);
    assert(spec_fib(37) == 24157817);
    assert(spec_fib(38) == 39088169);
    assert(spec_fib(39) == 63245986);
    assert(spec_fib(40) == 102334155);
    assert(spec_fib(41) == 165580141);
    assert(spec_fib(42) == 267914296);
    assert(spec_fib(43) == 433494437);
    assert(spec_fib(44) == 701408733);
    assert(spec_fib(45) == 1134903170);
    assert(spec_fib(46) == 1836311903);
    assert(spec_fib(47) == 2971215073);
    assert(spec_fib(48) == 4807526976);
    assert(spec_fib(49) == 7778742049);
    assert(spec_fib(50) == 12586269025);
    assert(spec_fib(51) == 20365011074);
    assert(spec_fib(52) == 32951280099);
    assert(spec_fib(53) == 53316291173);
    assert(spec_fib(54) == 86267571272);
    assert(spec_fib(55) == 139583862445);
    assert(spec_fib(56) == 225851433717);
    assert(spec_fib(57) == 365435296162);
    assert(spec_fib(58) == 591286729879);
    assert(spec_fib(59) == 956722026041);
    assert(spec_fib(60) == 1548008755920);
    assert(spec_fib(61) == 2504730781961);
    assert(spec_fib(62) == 4052739537881);
    assert(spec_fib(63) == 6557470319842);
    assert(spec_fib(64) == 10610209857723);
    assert(spec_fib(65) == 17167680177565);
    assert(spec_fib(66) == 27777890035288);
    assert(spec_fib(67) == 44945570212853);
    assert(spec_fib(68) == 72723460248141);
    assert(spec_fib(69) == 117669030460994);
    assert(spec_fib(70) == 190392490709135);
    assert(spec_fib(71) == 308061521170129);
    assert(spec_fib(72) == 498454011879264);
    assert(spec_fib(73) == 806515533049393);
    assert(spec_fib(74) == 1304969544928657);
    assert(spec_fib(75) == 2111485077978050);
    assert(spec_fib(76) == 3416454622906707);
    assert(spec_fib(77) == 5527939700884757);
    assert(spec_fib(78) == 8944394323791464);
    assert(spec_fib(79) == 14472334024676221);
    assert(spec_fib(80) == 23416728348467685);
    assert(spec_fib(81) == 37889062373143906);
    assert(spec_fib(82) == 61305790721611591);
    assert(spec_fib(83) == 99194853094755497);
    assert(spec_fib(84) == 160500643816367088);
    assert(spec_fib(85) == 259695496911122585);
    assert(spec_fib(86) == 420196140727489673);
    assert(spec_fib(87) == 679891637638612258);
    assert(spec_fib(88) == 1100087778366101931);
    assert(spec_fib(89) == 1779979416004714189);
    assert(spec_fib(90) == 2880067194370816120);
    assert(spec_fib(91) == 4660046610375530309);
    assert(spec_fib(92) == 7540113804746346429);
    assert(spec_fib(93) == 12200160415121876738);
}

/// Computes the `n`-th Fibonacci number by the same doubly-recursive
/// scheme the benchmark measures. Positions through 93, the last whose
/// value fits in 64 bits, are admitted.
pub fn fibonacci(n: u32) -> (r: u64)
    requires
        n <= 93,
    ensures
        r as nat == spec_fib(n as nat),
    decreases n,
{
    if n <= 1 {
        n as u64
    } else {
        let a = fibonacci(n - 1);
        let b = fibonacci(n - 2);
        proof {
            lemma_fib_mono(n as nat, 93);
            lemma_fib_93();
            assert(spec_fib(n as nat) == spec_fib((n - 1) as nat) + spec_fib((n - 2) as nat));
        }
        a + b
    }
}

/// The message the Fibonacci tool rejects out-of-range positions with.
pub open spec fn fib_range_msg() -> Seq<char> {
    "n must be between 0 and 40"@
}

/// The response body of a successful Fibonacci call.
pub open spec fn fib_response(n: int) -> Json {
    Json::Object(
        seq![
            ("input"@, Json::Int(n)),
            ("result"@, Json::Int(spec_fib(n as nat) as int)),
            ("server_type"@, Json::Str("rust"@)),
        ],
    )
}

/// The Fibonacci tool: positions in [0, 40] get the computed number in a
/// JSON envelope; anything else is a failure, never a computed result.
pub fn calculate_fibonacci(p: &FibonacciParams) -> (r: ToolCallResult)
    ensures
        p.n < 0 || p.n > 40 ==> is_failure(r, fib_range_msg()),
        0 <= p.n <= 40 ==> is_text_success(r, jtext(fib_response(p.n as int))),
{
    if p.n < 0 || p.n > 40 {
        return ToolCallResult::Failure("n must be between 0 and 40".to_owned());
    }
    let value = fibonacci(p.n as u32);
    proof {
        lemma_fib_le_two_pow(p.n as nat);
        lemma_two_pow_le(p.n as nat, 40);
        lemma_two_pow_40();
    }
    let mut fields: Vec<(String, JsonValue)> = Vec::new();
    fields.push(("input".to_owned(), JsonValue::Int(p.n)));
    fields.push(("result".to_owned(), JsonValue::Int(value as i64)));
    fields.push(("server_type".to_owned(), JsonValue::Str("rust".to_owned())));
    let ghost fs = fields@;
    let body = JsonValue::Object(fields);
    proof {
        lemma_jmodel_entries(fs);
        assert(jmodel_entries(fs) =~~= seq![
            ("input"@, Json::Int(p.n as int)),
            ("result"@, Json::Int(spec_fib(p.n as nat) as int)),
            ("server_type"@, Json::Str("rust"@)),
        ]);
        assert(jmodel(body) =~~= fib_response(p.n as int));
    }
    text_success(render_json(&body))
}

/// The response body of a JSON-processing call: the top-level keys of the
/// input, the transformed tree, and the server discriminator.
pub open spec fn transform_response(d: Json) -> Json {
    Json::Object(
        seq![
            ("original_keys"@, Json::Array(str_array(obj_keys(d)))),
            ("server_type"@, Json::Str("rust"@)),
            ("transformed_data"@, upper_json(d)),
        ],
    )
}

/// A sequence of strings as a sequence of JSON string values.
pub open spec fn str_array(ks: Seq<Seq<char>>) -> Seq<Json> {
    Seq::new(ks.len(), |i: int| Json::Str(ks[i]))
}

/// The JSON-processing tool: upper-cases every string value in the input
/// tree and reports the input's top-level keys. The transformed tree is a
/// fixed point of the transform, so a second call on it returns it
/// unchanged.
pub fn process_json_data(p: &ProcessJsonParams) -> (r: ToolCallResult)
    ensures
        is_text_success(r, jtext(transform_response(p.data@))),
        upper_json(upper_json(p.data@)) == upper_json(p.data@),
{
    let keys = top_level_keys(&p.data);
    let mut key_values: Vec<JsonValue> = Vec::new();
    let mut i: usize = 0;
    let nk = keys.len();
    while i < nk
        invariant
            i <= nk,
            nk == keys@.len(),
            key_values@.len() == i,
            forall|k: int| 0 <= k < i ==> jmodel(#[trigger] key_values@[k]) == Json::Str(
                keys@[k]@,
            ),
        decreases nk - i,
    {
        key_values.push(JsonValue::Str(keys[i].clone()));
        i = i + 1;
    }
    let transformed = uppercase_values(&p.data);
    let ghost kvs = key_values@;
    let mut fields: Vec<(String, JsonValue)> = Vec::new();
    fields.push(("original_keys".to_owned(), JsonValue::Array(key_values)));
    fields.push(("server_type".to_owned(), JsonValue::Str("rust".to_owned())));
    fields.push(("transformed_data".to_owned(), transformed));
    let ghost fs = fields@;
    let body = JsonValue::Object(fields);
    proof {
        lemma_jmodel_entries(fs);
        lemma_jmodel_seq(kvs);
        assert(jmodel_seq(kvs) =~~= str_array(obj_keys(p.data@)));
        assert(jmodel_entries(fs) =~~= seq![
            ("original_keys"@, Json::Array(str_array(obj_keys(p.data@)))),
            ("server_type"@, Json::Str("rust"@)),
            ("transformed_data"@, upper_json(p.data@)),
        ]);
        assert(jmodel(body) =~~= transform_response(p.data@));
    }
    text_success(render_json(&body))
}

/// The response body of a successful outbound fetch.
pub open spec fn fetch_response_model(url: Seq<char>, status: int, ms: int) -> Json {
    Json::Object(
        seq![
            ("response_time_ms"@, Json::Int(ms)),
            ("server_type"@, Json::Str("rust"@)),
            ("status_code"@, Json::Int(status)),
            ("url"@, Json::Str(url)),
        ],
    )
}

/// Builds the response of a fetch that came back with a status code after
/// the given elapsed time.
pub fn fetch_response(url: &String, status_code: u16, response_time_ms: u64) -> (r: ToolCallResult)
    requires
        response_time_ms <= i64::MAX,
    ensures
        is_text_success(
            r,
            jtext(fetch_response_model(url@, status_code as int, response_time_ms as int)),
        ),
{
    let mut fields: Vec<(String, JsonValue)> = Vec::new();
    fields.push(("response_time_ms".to_owned(), JsonValue::Int(response_time_ms as i64)));
    fields.push(("server_type".to_owned(), JsonValue::Str("rust".to_owned())));
    fields.push(("status_code".to_owned(), JsonValue::Int(status_code as i64)));
    fields.push(("url".to_owned(), JsonValue::Str(url.clone())));
    let ghost fs = fields@;
    let body = JsonValue::Object(fields);
    proof {
        lemma_jmodel_entries(fs);
        assert(jmodel_entries(fs) =~~= seq![
            ("response_time_ms"@, Json::Int(response_time_ms as int)),
            ("server_type"@, Json::Str("rust"@)),
            ("status_code"@, Json::Int(status_code as int)),
            ("url"@, Json::Str(url@)),
        ]);
        assert(jmodel(body) =~~= fetch_response_model(
            url@,
            status_code as int,
            response_time_ms as int,
        ));
    }
    text_success(render_json(&body))
}

/// The failure message reported when an outbound fetch fails.
pub open spec fn fetch_failure_msg(err: Seq<char>) -> Seq<char> {
    "Request failed: "@ + err
}

/// Builds the failure result of a fetch whose request failed with the
/// given error text.
pub fn fetch_failure(err: &String) -> (r: ToolCallResult)
    ensures
        is_failure(r, fetch_failure_msg(err@)),
{
    let mut m = "Request failed: ".to_owned();
    m.append(err.as_str());
    ToolCallResult::Failure(m)
}

/// The message the simulated-query tool rejects out-of-range delays with.
pub open spec fn delay_range_msg() -> Seq<char> {
    "delay_ms must be between 0 and 5000"@
}

/// The response body of a successful simulated query.
pub open spec fn query_response_model(q: Seq<char>, delay: int, ts: Seq<char>) -> Json {
    Json::Object(
        seq![
            ("delay_ms"@, Json::Int(delay)),
            ("query"@, Json::Str(q)),
            ("server_type"@, Json::Str("rust"@)),
            ("timestamp"@, Json::Str(ts)),
        ],
    )
}

/// Builds the response of a simulated query, for a given timestamp text.
pub fn query_response(query: &String, delay_ms: u64, timestamp: &String) -> (r: ToolCallResult)
    requires
        delay_ms <= 5000,
    ensures
        is_text_success(r, jtext(query_response_model(query@, delay_ms as int, timestamp@))),
{
    let mut fields: Vec<(String, JsonValue)> = Vec::new();
    fields.push(("delay_ms".to_owned(), JsonValue::Int(delay_ms as i64)));
    fields.push(("query".to_owned(), JsonValue::Str(query.clone())));
    fields.push(("server_type".to_owned(), JsonValue::Str("rust".to_owned())));
    fields.push(("timestamp".to_owned(), JsonValue::Str(timestamp.clone())));
    let ghost fs = fields@;
    let body = JsonValue::Object(fields);
    proof {
        lemma_jmodel_entries(fs);
        assert(jmodel_entries(fs) =~~= seq![
            ("delay_ms"@, Json::Int(delay_ms as int)),
            ("query"@, Json::Str(query@)),
            ("server_type"@, Json::Str("rust"@)),
            ("timestamp"@, Json::Str(timestamp@)),
        ]);
        assert(jmodel(body) =~~= query_response_model(query@, delay_ms as int, timestamp@));
    }
    text_success(render_json(&body))
}

/// Responses of simulated queries with different delays are different:
/// a call's result always carries that call's own delay, so results of
/// concurrent calls cannot be swapped unnoticed.
pub proof fn lemma_query_responses_distinct(
    q1: Seq<char>,
    d1: int,
    t1: Seq<char>,
    q2: Seq<char>,
    d2: int,
    t2: Seq<char>,
)
    requires
        d1 != d2,
    ensures
        query_response_model(q1, d1, t1) != query_response_model(q2, d2, t2),
{
    if query_response_model(q1, d1, t1) == query_response_model(q2, d2, t2) {
        let e1 = seq![
            ("delay_ms"@, Json::Int(d1)),
            ("query"@, Json::Str(q1)),
            ("server_type"@, Json::Str("rust"@)),
            ("timestamp"@, Json::Str(t1)),
        ];
        let e2 = seq![
            ("delay_ms"@, Json::Int(d2)),
            ("query"@, Json::Str(q2)),
            ("server_type"@, Json::Str("rust"@)),
            ("timestamp"@, Json::Str(t2)),
        ];
        assert(e1 == e2);
        assert(e1[0] == e2[0]);
        assert(false);
    }
}

/// The fixed layout of an RFC 3339 date-time text: `YYYY-MM-DDTHH:MM:SS`
/// at its head, with the year's four digits, the two dashes, the `T`
/// separator, and the two time colons in place.
pub open spec fn rfc3339_shaped(s: Seq<char>) -> bool {
    &&& s.len() >= 19
    &&& '0' <= s[0] && s[0] <= '9'
    &&& '0' <= s[1] && s[1] <= '9'
    &&& '0' <= s[2] && s[2] <= '9'
    &&& '0' <= s[3] && s[3] <= '9'
    &&& s[4] == '-'
    &&& s[7] == '-'
    &&& s[10] == 'T'
    &&& s[13] == ':'
    &&& s[16] == ':'
}

/// Decides whether a timestamp text has the RFC 3339 head shape: the
/// verified check the transport's clock reading is held against before
/// the response is stamped with it.
pub fn timestamp_shaped(s: &String) -> (r: bool)
    ensures
        r == rfc3339_shaped(s@),
{
    let n = s.as_str().unicode_len();
    if n < 19 {
        return false;
    }
    let c0 = s.as_str().get_char(0);
    let c1 = s.as_str().get_char(1);
    let c2 = s.as_str().get_char(2);
    let c3 = s.as_str().get_char(3);
    let d4 = s.as_str().get_char(4);
    let d7 = s.as_str().get_char(7);
    let t10 = s.as_str().get_char(10);
    let k13 = s.as_str().get_char(13);
    let k16 = s.as_str().get_char(16);
    ('0' <= c0 && c0 <= '9') && ('0' <= c1 && c1 <= '9') && ('0' <= c2 && c2 <= '9') && ('0' <= c3
        && c3 <= '9') && d4 == '-' && d7 == '-' && t10 == 'T' && k13 == ':' && k16 == ':'
}

} // verus!
