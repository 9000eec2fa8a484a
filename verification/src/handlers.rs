//! The four endpoint handlers and the dispatcher. Each handler returns the
//! exact JSON body of its endpoint together with the trace span it emits;
//! the server layer only puts the body on the wire and forwards the span to
//! the tracer.

use vstd::prelude::*;
use crate::decimal::{dec_str, lemma_dec_str_injective, u64_to_string};
use crate::http::{HttpResponse, Method, Route, route_of, match_route};

verus! {

/// A span attribute value: the service only ever attaches text or integers.
pub enum AttrValue {
    Text(String),
    Int(i64),
}

/// One key/value attribute on a span.
pub struct SpanAttribute {
    pub key: String,
    pub value: AttrValue,
}

/// A trace span as the logic decides it: a name and its attributes. The
/// tracer assigns ids and times when the server layer emits it.
pub struct SpanRecord {
    pub name: String,
    pub attributes: Vec<SpanAttribute>,
}

/// What handling one request produces: the response, and the span to emit,
/// if the handler emits one.
pub struct RequestOutcome {
    pub response: HttpResponse,
    pub span: Option<SpanRecord>,
}

/// One record of the synthetic data set: `{id, value}` with `value`
/// rendered as `item-{id}`.
pub struct DataRecord {
    pub id: u64,
    pub value: String,
}

/// How many records the data endpoint returns.
pub open spec fn data_count() -> nat {
    10
}

/// The body of the root endpoint for a clock reading of `t` seconds.
pub open spec fn root_body_spec(t: nat) -> Seq<char> {
    "{\"service\": \"rust\", \"message\": \"Hello from Rust service!\", \"timestamp\": "@
        + dec_str(t) + "}"@
}

/// The value string of the record with id `i`.
pub open spec fn item_value(i: nat) -> Seq<char> {
    "item-"@ + dec_str(i)
}

/// The JSON rendering of one record.
pub open spec fn record_json(id: nat, value: Seq<char>) -> Seq<char> {
    "{\"id\": "@ + dec_str(id) + ", \"value\": \""@ + value + "\"}"@
}

/// The JSON rendering of the record with id `i`.
pub open spec fn item_json(i: nat) -> Seq<char> {
    record_json(i, item_value(i))
}

/// The first `n` records rendered in ascending id order, comma-separated.
pub open spec fn items_json(n: nat) -> Seq<char>
    decreases n,
{
    if n == 0 {
        Seq::empty()
    } else if n == 1 {
        item_json(0)
    } else {
        items_json((n - 1) as nat) + ", "@ + item_json((n - 1) as nat)
    }
}

/// The body of the data endpoint.
pub open spec fn data_body_spec() -> Seq<char> {
    "{\"data\": ["@ + items_json(data_count()) + "], \"count\": "@ + dec_str(data_count())
        + "}"@
}

/// The body of the error endpoint.
pub open spec fn error_body_spec() -> Seq<char> {
    "{\"error\": \"This is a simulated error\"}"@
}

/// The body of the health endpoint.
pub open spec fn health_body_spec() -> Seq<char> {
    "{\"status\": \"healthy\", \"service\": \"rust-service\"}"@
}

/// The attribute `a` is `key` mapped to the text `value`.
pub open spec fn attr_is_text(a: SpanAttribute, key: Seq<char>, value: Seq<char>) -> bool {
    &&& a.key@ == key
    &&& a.value matches AttrValue::Text(v) && v@ == value
}

/// The attribute `a` is `key` mapped to the integer `value`.
pub open spec fn attr_is_int(a: SpanAttribute, key: Seq<char>, value: i64) -> bool {
    &&& a.key@ == key
    &&& a.value matches AttrValue::Int(v) && v == value
}

/// The span the root handler emits: tagged `handler = root`.
pub open spec fn root_span_ok(s: SpanRecord) -> bool {
    &&& s.name@ == "process_root_request"@
    &&& s.attributes@.len() == 1
    &&& attr_is_text(s.attributes@[0], "handler"@, "root"@)
}

/// The span the data handler emits: tagged with the record count.
pub open spec fn data_span_ok(s: SpanRecord) -> bool {
    &&& s.name@ == "fetch_data"@
    &&& s.attributes@.len() == 1
    &&& attr_is_int(s.attributes@[0], "items.count"@, data_count() as i64)
}

/// The span the error handler emits: tagged `error = simulated`.
pub open spec fn error_span_ok(s: SpanRecord) -> bool {
    &&& s.name@ == "error_endpoint"@
    &&& s.attributes@.len() == 1
    &&& attr_is_text(s.attributes@[0], "error"@, "simulated"@)
}

/// Handles the root endpoint: a fixed envelope around the clock reading
/// `now_secs`, the current Unix time in seconds as the server layer read it.
pub fn root_outcome(now_secs: u64) -> (o: RequestOutcome)
    ensures
        o.response.status == 200,
        o.response.body@ == root_body_spec(now_secs as nat),
        o.span matches Some(s) && root_span_ok(s),
{
    let mut body = String::from_str(
        "{\"service\": \"rust\", \"message\": \"Hello from Rust service!\", \"timestamp\": ",
    );
    let stamp = u64_to_string(now_secs);
    body.append(stamp.as_str());
    body.append("}");
    proof {
        assert(body@ =~= root_body_spec(now_secs as nat));
    }
    let mut attributes: Vec<SpanAttribute> = Vec::new();
    attributes.push(
        SpanAttribute {
            key: String::from_str("handler"),
            value: AttrValue::Text(String::from_str("root")),
        },
    );
    RequestOutcome {
        response: HttpResponse { status: 200, body },
        span: Some(SpanRecord { name: String::from_str("process_root_request"), attributes }),
    }
}

/// Generates the synthetic data set: ids `0..10` in ascending order, each
/// valued `item-{id}`.
pub fn make_data_records() -> (v: Vec<DataRecord>)
    ensures
        v@.len() == data_count(),
        forall|i: int| 0 <= i < v@.len() ==> (#[trigger] v@[i]).id == i,
        forall|i: int| 0 <= i < v@.len() ==> (#[trigger] v@[i]).value@ == item_value(i as nat),
{
    let mut v: Vec<DataRecord> = Vec::new();
    let mut i: u64 = 0;
    while i < 10
        invariant
            i <= 10,
            v@.len() == i,
            forall|j: int| 0 <= j < v@.len() ==> (#[trigger] v@[j]).id == j,
            forall|j: int| 0 <= j < v@.len() ==> (#[trigger] v@[j]).value@ == item_value(j as nat),
        decreases 10 - i,
    {
        let mut value = String::from_str("item-");
        let num = u64_to_string(i);
        value.append(num.as_str());
        v.push(DataRecord { id: i, value });
        i = i + 1;
    }
    v
}

/// Renders one record as JSON.
fn render_record(r: &DataRecord) -> (s: String)
    ensures
        s@ == record_json(r.id as nat, r.value@),
{
    let mut s = String::from_str("{\"id\": ");
    let id_str = u64_to_string(r.id);
    s.append(id_str.as_str());
    s.append(", \"value\": \"");
    s.append(r.value.as_str());
    s.append("\"}");
    proof {
        assert(s@ =~= record_json(r.id as nat, r.value@));
    }
    s
}

/// Handles the data endpoint: the full record list and its count, with the
/// count taken from the length of the generated list.
pub fn data_outcome() -> (o: RequestOutcome)
    ensures
        o.response.status == 200,
        o.response.body@ == data_body_spec(),
        o.span matches Some(s) && data_span_ok(s),
{
    let records = make_data_records();
    let mut body = String::from_str("{\"data\": [");
    let mut i: usize = 0;
    while i < records.len()
        invariant
            records@.len() == data_count(),
            forall|j: int| 0 <= j < records@.len() ==> (#[trigger] records@[j]).id == j,
            forall|j: int|
                0 <= j < records@.len() ==> (#[trigger] records@[j]).value@ == item_value(
                    j as nat,
                ),
            i <= records@.len(),
            body@ == "{\"data\": ["@ + items_json(i as nat),
        decreases records@.len() - i,
    {
        if i > 0 {
            body.append(", ");
        }
        let rj = render_record(&records[i]);
        body.append(rj.as_str());
        proof {
            assert(records@[i as int].id == i as int);
            assert(rj@ == item_json(i as nat));
            if i == 0 {
                assert(items_json(1) == item_json(0));
                assert(body@ =~= "{\"data\": ["@ + items_json((i + 1) as nat));
            } else {
                assert(items_json((i + 1) as nat) == items_json(i as nat) + ", "@ + item_json(
                    i as nat,
                ));
                assert(body@ =~= "{\"data\": ["@ + items_json((i + 1) as nat));
            }
        }
        i = i + 1;
    }
    body.append("], \"count\": ");
    let count = u64_to_string(records.len() as u64);
    body.append(count.as_str());
    body.append("}");
    proof {
        assert(body@ =~= data_body_spec());
    }
    let mut attributes: Vec<SpanAttribute> = Vec::new();
    attributes.push(
        SpanAttribute { key: String::from_str("items.count"), value: AttrValue::Int(10) },
    );
    RequestOutcome {
        response: HttpResponse { status: 200, body },
        span: Some(SpanRecord { name: String::from_str("fetch_data"), attributes }),
    }
}

/// Handles the error endpoint: a deliberate, fixed 500 — synthetic failure,
/// not a defect.
pub fn error_outcome() -> (o: RequestOutcome)
    ensures
        o.response.status == 500,
        o.response.body@ == error_body_spec(),
        o.span matches Some(s) && error_span_ok(s),
{
    let body = String::from_str("{\"error\": \"This is a simulated error\"}");
    let mut attributes: Vec<SpanAttribute> = Vec::new();
    attributes.push(
        SpanAttribute {
            key: String::from_str("error"),
            value: AttrValue::Text(String::from_str("simulated")),
        },
    );
    RequestOutcome {
        response: HttpResponse { status: 500, body },
        span: Some(SpanRecord { name: String::from_str("error_endpoint"), attributes }),
    }
}

/// Handles the health endpoint: fixed liveness answer, and no span — the
/// probe stays cheap and side-effect-free.
pub fn health_outcome() -> (o: RequestOutcome)
    ensures
        o.response.status == 200,
        o.response.body@ == health_body_spec(),
        o.span is None,
{
    let body = String::from_str("{\"status\": \"healthy\", \"service\": \"rust-service\"}");
    RequestOutcome { response: HttpResponse { status: 200, body }, span: None }
}

/// The status the service answers: 404 for an unmatched path, 405 for a
/// matched path asked with a method other than GET (the router's per-route
/// fallback), 500 on the error route, 200 otherwise.
pub open spec fn expected_status(method: Method, path: Seq<char>) -> int {
    match route_of(path) {
        Option::None => 404,
        Option::Some(r) => if method != Method::Get {
            405
        } else if r == Route::Error {
            500
        } else {
            200
        },
    }
}

/// The body the service answers: empty on 404 and 405, else the matched
/// endpoint's body.
pub open spec fn expected_body(method: Method, path: Seq<char>, now: nat) -> Seq<char> {
    match route_of(path) {
        Option::None => Seq::empty(),
        Option::Some(r) => if method != Method::Get {
            Seq::empty()
        } else {
            match r {
                Route::Root => root_body_spec(now),
                Route::Data => data_body_spec(),
                Route::Error => error_body_spec(),
                Route::Health => health_body_spec(),
            }
        },
    }
}

/// The span the service emits for a request: none unless a GET reached one
/// of the three instrumented handlers.
pub open spec fn expected_span(span: Option<SpanRecord>, method: Method, path: Seq<char>) -> bool {
    match route_of(path) {
        Option::None => span is None,
        Option::Some(r) => if method != Method::Get {
            span is None
        } else {
            match r {
                Route::Root => span matches Some(s) && root_span_ok(s),
                Route::Data => span matches Some(s) && data_span_ok(s),
                Route::Error => span matches Some(s) && error_span_ok(s),
                Route::Health => span is None,
            }
        },
    }
}

/// Dispatches one request. `path` is the request path without the query
/// string; `now_secs` is the clock reading the server layer took. Headers
/// and query parameters play no part: they do not reach this function.
pub fn handle_request(method: Method, path: &str, now_secs: u64) -> (o: RequestOutcome)
    ensures
        o.response.status == expected_status(method, path@),
        o.response.body@ == expected_body(method, path@, now_secs as nat),
        expected_span(o.span, method, path@),
{
    match match_route(path) {
        Option::None => RequestOutcome {
            response: HttpResponse { status: 404, body: String::new() },
            span: None,
        },
        Option::Some(route) => {
            if method != Method::Get {
                RequestOutcome {
                    response: HttpResponse { status: 405, body: String::new() },
                    span: None,
                }
            } else {
                match route {
                    Route::Root => root_outcome(now_secs),
                    Route::Data => data_outcome(),
                    Route::Error => error_outcome(),
                    Route::Health => health_outcome(),
                }
            }
        },
    }
}

/// Whatever the clock reads, a GET on the error route answers 500 with the
/// one fixed body and the error span — and nothing else reaches the handler:
/// headers and query parameters are no inputs of the dispatcher at all.
pub proof fn lemma_error_route_constant(now: nat)
    ensures
        expected_status(Method::Get, "/error"@) == 500,
        expected_body(Method::Get, "/error"@, now) == error_body_spec(),
        forall|sp: Option<SpanRecord>|
            expected_span(sp, Method::Get, "/error"@) == (sp matches Some(s) && error_span_ok(s)),
{
    reveal_strlit("/");
    reveal_strlit("/data");
    reveal_strlit("/error");
    assert("/"@.len() == 1);
    assert("/data"@.len() == 5);
    assert("/error"@.len() == 6);
    assert("/error"@ != "/"@);
    assert("/error"@ != "/data"@);
    assert(route_of("/error"@) == Some(Route::Error));
}

/// Whatever the clock reads, a GET on the health route answers 200 with the
/// one fixed body, and never emits a span.
pub proof fn lemma_health_route_constant(now: nat)
    ensures
        expected_status(Method::Get, "/health"@) == 200,
        expected_body(Method::Get, "/health"@, now) == health_body_spec(),
        forall|sp: Option<SpanRecord>|
            expected_span(sp, Method::Get, "/health"@) == (sp is None),
{
    reveal_strlit("/");
    reveal_strlit("/data");
    reveal_strlit("/error");
    reveal_strlit("/health");
    assert("/"@.len() == 1);
    assert("/data"@.len() == 5);
    assert("/error"@.len() == 6);
    assert("/health"@.len() == 7);
    assert("/health"@ != "/"@);
    assert("/health"@ != "/data"@);
    assert("/health"@ != "/error"@);
    assert(route_of("/health"@) == Some(Route::Health));
}

/// The root body is a faithful image of the clock: two calls render the same
/// body exactly when the clock read the same second. So as the clock never
/// runs backwards within one process run, the rendered timestamps never
/// decrease either.
pub proof fn lemma_root_body_determines_timestamp(t1: nat, t2: nat)
    ensures
        (root_body_spec(t1) == root_body_spec(t2)) <==> t1 == t2,
{
    if root_body_spec(t1) == root_body_spec(t2) {
        let p = "{\"service\": \"rust\", \"message\": \"Hello from Rust service!\", \"timestamp\": "@;
        let s = "}"@;
        let d1 = dec_str(t1);
        let d2 = dec_str(t2);
        assert(root_body_spec(t1).len() == p.len() + d1.len() + s.len());
        assert(root_body_spec(t2).len() == p.len() + d2.len() + s.len());
        assert(d1.len() == d2.len());
        assert(d1 =~= d2) by {
            assert forall|i: int| 0 <= i < d1.len() implies d1[i] == d2[i] by {
                assert(root_body_spec(t1)[p.len() + i] == d1[i]);
                assert(root_body_spec(t2)[p.len() + i] == d2[i]);
            }
        }
        lemma_dec_str_injective(t1, t2);
    }
}

} // verus!
