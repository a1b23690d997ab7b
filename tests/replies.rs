use std::collections::HashMap;

use pantry_client::reply::succeeded;
use pantry_client::{read_json, read_pantry, read_text, Json, Method, PantryClient, PantryError};

fn text(s: &str) -> Json {
    Json::Str(s.to_string())
}

fn object(members: Vec<(&str, Json)>) -> Json {
    Json::Object(members.into_iter().map(|(k, v)| (k.to_string(), v)).collect())
}

fn basket(name: &str, ttl: i64) -> Json {
    object(vec![("name", text(name)), ("ttl", Json::Int(ttl))])
}

fn pantry_body(percent: Option<Json>) -> Json {
    let mut members = vec![
        ("name", text("Home")),
        ("description", text("kitchen")),
        ("errors", Json::Array(vec![])),
        ("notifications", Json::Bool(true)),
    ];
    if let Some(p) = percent {
        members.push(("percentFull", p));
    }
    members.push(("baskets", Json::Array(vec![basket("a", 100), basket("b", 200)])));
    object(members)
}

#[test]
fn success_is_exactly_the_2xx_range() {
    assert!(!succeeded(199));
    assert!(succeeded(200));
    assert!(succeeded(204));
    assert!(succeeded(299));
    assert!(!succeeded(300));
    assert!(!succeeded(404));
}

#[test]
fn text_reply_is_returned_verbatim() {
    assert_eq!(read_text(200, "OK".to_string()).unwrap(), "OK");
    assert_eq!(read_text(200, "".to_string()).unwrap(), "");
}

#[test]
fn text_reply_with_error_status_is_rejected() {
    match read_text(404, "no such basket".to_string()) {
        Err(PantryError::Rejected(status, body)) => {
            assert_eq!(status, 404);
            assert_eq!(body, "no such basket");
        }
        other => panic!("unexpected {:?}", other),
    }
}

#[test]
fn missing_basket_is_rejected_not_empty() {
    let r = read_json(400, "Could not get basket".to_string(), Err("expected value".to_string()));
    assert!(matches!(r, Err(PantryError::Rejected(400, _))));
    let r = read_json(400, "{}".to_string(), Ok(object(vec![])));
    assert!(matches!(r, Err(PantryError::Rejected(400, _))));
}

#[test]
fn json_reply_that_is_not_json_is_a_decode_error() {
    let r = read_json(200, "OK".to_string(), Err("expected value".to_string()));
    match r {
        Err(PantryError::Decode(why)) => assert_eq!(why, "expected value"),
        other => panic!("unexpected {:?}", other),
    }
}

#[test]
fn json_reply_is_returned_as_is() {
    let r = read_json(200, "{\"a\":1}".to_string(), Ok(object(vec![("a", Json::Int(1))])));
    assert_eq!(r.unwrap(), object(vec![("a", Json::Int(1))]));
}

#[test]
fn pantry_reply_is_decoded() {
    let p = read_pantry(200, String::new(), Ok(pantry_body(Some(Json::Int(42))))).unwrap();
    assert_eq!(p.name, "Home");
    assert_eq!(p.description, "kitchen");
    assert!(p.notifications);
    assert_eq!(p.percent_full, 42);
    assert_eq!(p.baskets.len(), 2);
    assert_eq!(p.baskets[0].name, "a");
    assert_eq!(p.baskets[0].ttl, 100);
    assert_eq!(p.baskets[1].name, "b");
    assert_eq!(p.baskets[1].ttl, 200);
}

#[test]
fn pantry_reply_without_percent_full_is_a_decode_error() {
    let r = read_pantry(200, String::new(), Ok(pantry_body(None)));
    match r {
        Err(PantryError::Decode(why)) => assert_eq!(why, "percentFull"),
        other => panic!("unexpected {:?}", other.is_ok()),
    }
}

#[test]
fn pantry_reply_with_mistyped_member_is_a_decode_error() {
    let r = read_pantry(200, String::new(), Ok(pantry_body(Some(text("42")))));
    assert!(matches!(r, Err(PantryError::Decode(_))));
    let r = read_pantry(200, String::new(), Ok(pantry_body(Some(Json::UInt(u64::MAX)))));
    assert!(matches!(r, Err(PantryError::Decode(_))));
    let r = read_pantry(200, String::new(), Ok(pantry_body(Some(Json::Decimal("4.5".to_string())))));
    assert!(matches!(r, Err(PantryError::Decode(_))));
    let r = read_pantry(200, String::new(), Ok(Json::Array(vec![])));
    assert!(matches!(r, Err(PantryError::Decode(_))));
}

#[test]
fn pantry_reply_with_bad_basket_is_a_decode_error() {
    let body = object(vec![
        ("name", text("Home")),
        ("description", text("")),
        ("notifications", Json::Bool(false)),
        ("percentFull", Json::Int(0)),
        ("baskets", Json::Array(vec![basket("a", 1), object(vec![("name", text("b"))])])),
    ]);
    match read_pantry(200, String::new(), Ok(body)) {
        Err(PantryError::Decode(why)) => assert_eq!(why, "baskets"),
        other => panic!("unexpected {:?}", other.is_ok()),
    }
}

#[test]
fn pantry_reply_with_error_status_is_rejected() {
    let r = read_pantry(500, "down".to_string(), Ok(pantry_body(Some(Json::Int(1)))));
    assert!(matches!(r, Err(PantryError::Rejected(500, _))));
}

#[test]
fn upsert_against_echoing_service_returns_ok() {
    let c = PantryClient::with_base_url("http://localhost:1", "p");
    let req = c.upsert_basket_request("x", object(vec![("a", Json::Int(1))])).unwrap();
    assert_eq!(req.method, Method::Post);
    // the service answers every request with the text "OK"
    let reply = "OK".to_string();
    assert_eq!(read_text(200, reply).unwrap(), "OK");
}

#[test]
fn written_basket_reads_back() {
    let value = || {
        object(vec![
            ("list", Json::Array(vec![text("milk"), Json::Int(-3), Json::Decimal("2.5".to_string())])),
            ("done", Json::Bool(false)),
            ("note", Json::Null),
        ])
    };
    let c = PantryClient::with_base_url("http://localhost:1", "p");
    let mut store: HashMap<String, Json> = HashMap::new();
    let put = c.update_basket_request("b", value()).unwrap();
    store.insert(put.url_text, put.body.unwrap());
    let get = c.get_basket_request("b").unwrap();
    let stored = store.remove(&get.url_text).unwrap();
    let r = read_json(200, String::new(), Ok(stored)).unwrap();
    assert_eq!(r, value());
}
