use case_api::dispatch::{conclude_dispatch, plan_dispatch, plan_for, record_outcome,
    PlannedRequest, TransportResult};
use case_api::errors::ApiError;
use case_api::schema::CreateCaseSchema;
use case_api::store::CaseStore;

fn schema(title: &str, host: &str, uri: &str, method: &str, body: &str) -> CreateCaseSchema {
    CreateCaseSchema {
        user_id: None,
        title: title.to_string(),
        host: host.to_string(),
        uri: uri.to_string(),
        method: method.to_string(),
        request_body: body.to_string(),
        expected_result: "ok".to_string(),
        category: None,
        used: None,
    }
}

#[test]
fn get_plan_carries_no_body() {
    let mut store = CaseStore::new();
    let c = store
        .create("o", &schema("t", "http://example.test", "/ping", "GET", "ignored"), 1)
        .expect("create");
    let plan = plan_for(&store, &c.id).expect("plan");
    match plan {
        PlannedRequest::Get { url } => assert_eq!(url, "http://example.test/ping"),
        PlannedRequest::Post { .. } => panic!("a GET case must plan a bodiless request"),
    }
}

#[test]
fn post_plan_carries_exactly_the_stored_body() {
    let mut store = CaseStore::new();
    let c = store
        .create("o", &schema("t", "http://h", "/p", "POST", "payload-bytes"), 1)
        .expect("create");
    let plan = plan_for(&store, &c.id).expect("plan");
    match plan {
        PlannedRequest::Post { url, body } => {
            assert_eq!(url, "http://h/p");
            assert_eq!(body, "payload-bytes");
        },
        PlannedRequest::Get { .. } => panic!("a POST case must plan a bodied request"),
    }
}

#[test]
fn lowercase_method_is_normalized() {
    let mut store = CaseStore::new();
    let c = store.create("o", &schema("t", "http://h", "/p", "pOsT", "b"), 1).expect("create");
    let plan = plan_for(&store, &c.id).expect("plan");
    assert!(matches!(plan, PlannedRequest::Post { .. }));
}

#[test]
fn empty_method_defaults_to_get() {
    let mut store = CaseStore::new();
    let c = store.create("o", &schema("t", "http://h", "/p", "", "b"), 1).expect("create");
    let plan = plan_for(&store, &c.id).expect("plan");
    assert!(matches!(plan, PlannedRequest::Get { .. }));
}

#[test]
fn other_method_is_refused_and_record_untouched() {
    let mut store = CaseStore::new();
    let c = store.create("o", &schema("t", "http://h", "/p", "delete", "b"), 1).expect("create");
    let r = plan_for(&store, &c.id);
    match r {
        Err(ApiError::MethodNotSupported(m)) => assert_eq!(m, "DELETE"),
        _ => panic!("an unexecutable verb must be refused by name"),
    }
    let g = store.get(&c.id).expect("get");
    assert!(g.response_code.is_none());
    assert!(g.response_body.is_none());
    assert_eq!(g.method.as_deref(), Some("delete"));
}

#[test]
fn plan_for_unknown_id_is_not_found() {
    let store = CaseStore::new();
    assert!(matches!(plan_for(&store, "ghost"), Err(ApiError::NotFound)));
}

#[test]
fn plan_dispatch_without_store_matches_record() {
    let mut store = CaseStore::new();
    let c = store.create("o", &schema("t", "http://a", "/b", "put", "x"), 1).expect("create");
    let r = plan_dispatch(&c);
    match r {
        Err(ApiError::MethodNotSupported(m)) => assert_eq!(m, "PUT"),
        _ => panic!("PUT is not executable"),
    }
}

#[test]
fn recorded_outcome_is_what_get_returns() {
    let mut store = CaseStore::new();
    let c = store
        .create("o", &schema("t", "http://example.test", "/ping", "GET", ""), 1)
        .expect("create");
    let full = record_outcome(&mut store, &c.id, "200 OK", "pong", 2).expect("record");
    assert_eq!(full.response_code, "200 OK");
    assert_eq!(full.response_body, "pong");
    assert_eq!(full.id, c.id);
    let g = store.get(&c.id).expect("get");
    assert_eq!(g.response_code.as_deref(), Some("200 OK"));
    assert_eq!(g.response_body.as_deref(), Some("pong"));
}

#[test]
fn second_dispatch_overwrites_response_fields() {
    let mut store = CaseStore::new();
    let c = store.create("o", &schema("t", "http://h", "/p", "GET", ""), 1).expect("create");
    let _ = record_outcome(&mut store, &c.id, "200 OK", "first", 2).expect("record");
    let _ = record_outcome(&mut store, &c.id, "404 Not Found", "second", 3).expect("record");
    let g = store.get(&c.id).expect("get");
    assert_eq!(g.response_code.as_deref(), Some("404 Not Found"));
    assert_eq!(g.response_body.as_deref(), Some("second"));
}

#[test]
fn dispatch_never_flips_the_used_flag() {
    let mut store = CaseStore::new();
    let c = store.create("o", &schema("t", "http://h", "/p", "GET", ""), 1).expect("create");
    assert!(!c.used);
    let full = record_outcome(&mut store, &c.id, "200 OK", "pong", 2).expect("record");
    assert!(!full.used);
}

#[test]
fn delivered_outcome_concludes_as_a_recorded_response() {
    let mut store = CaseStore::new();
    let c = store.create("o", &schema("t", "http://h", "/p", "GET", ""), 1).expect("create");
    let outcome = TransportResult::Delivered {
        code: "503 Service Unavailable".to_string(),
        body: "busy".to_string(),
    };
    let full = conclude_dispatch(&mut store, &c.id, outcome, 2).expect("conclude");
    assert_eq!(full.response_code, "503 Service Unavailable");
    assert_eq!(full.response_body, "busy");
}

#[test]
fn failed_transport_concludes_without_touching_the_record() {
    let mut store = CaseStore::new();
    let c = store.create("o", &schema("t", "http://h", "/p", "GET", ""), 1).expect("create");
    let outcome = TransportResult::Failed { cause: "connection refused".to_string() };
    let r = conclude_dispatch(&mut store, &c.id, outcome, 2);
    match r {
        Err(ApiError::DispatchFailed(cause)) => assert_eq!(cause, "connection refused"),
        _ => panic!("a transport failure must be passed on as DispatchFailed"),
    }
    let g = store.get(&c.id).expect("get");
    assert!(g.response_code.is_none());
    assert!(g.response_body.is_none());
    assert_eq!(g.updated_at, 1);
}

#[test]
fn record_outcome_for_unknown_id_is_not_found() {
    let mut store = CaseStore::new();
    let r = record_outcome(&mut store, "ghost", "200 OK", "x", 1);
    assert!(matches!(r, Err(ApiError::NotFound)));
}
