use hello_store::hello::HelloRecord;
use hello_store::render::render_hello;

fn record(id: i64, name: &str, count: i64) -> HelloRecord {
    HelloRecord { id, name: name.to_string(), count }
}

#[test]
fn renders_the_example_record_exactly() {
    let body = render_hello(&record(1, "world", 3));
    assert_eq!(body, "{\n  \"id\": 1,\n  \"name\": \"world\",\n  \"count\": 3\n}");
}

#[test]
fn renders_zero_and_negative_integers() {
    let body = render_hello(&record(0, "x", -7));
    assert_eq!(body, "{\n  \"id\": 0,\n  \"name\": \"x\",\n  \"count\": -7\n}");
}

#[test]
fn renders_the_extreme_integers() {
    let body = render_hello(&record(i64::MIN, "x", i64::MAX));
    assert_eq!(
        body,
        "{\n  \"id\": -9223372036854775808,\n  \"name\": \"x\",\n  \"count\": 9223372036854775807\n}"
    );
}

#[test]
fn escapes_quotes_backslashes_and_controls() {
    let body = render_hello(&record(1, "a\"b\\c\nd\te\u{1}f", 1));
    assert_eq!(
        body,
        "{\n  \"id\": 1,\n  \"name\": \"a\\\"b\\\\c\\nd\\te\\u0001f\",\n  \"count\": 1\n}"
    );
}

#[test]
fn escapes_the_named_control_characters() {
    let body = render_hello(&record(1, "\u{8}\u{c}\r\u{1f}", 1));
    assert_eq!(
        body,
        "{\n  \"id\": 1,\n  \"name\": \"\\b\\f\\r\\u001f\",\n  \"count\": 1\n}"
    );
}

#[test]
fn rendered_document_parses_back_as_json() {
    let name = "tricky \"name\" with \\ and \n and \u{7f} and déjà-vu";
    let body = render_hello(&record(42, name, 9));
    let v: serde_json::Value = serde_json::from_str(&body).unwrap();
    assert_eq!(v.get("id").unwrap().as_i64().unwrap(), 42);
    assert_eq!(v.get("name").unwrap().as_str().unwrap(), name);
    assert_eq!(v.get("count").unwrap().as_i64().unwrap(), 9);
}

#[test]
fn rendering_matches_serde_json_string_escaping() {
    // serde_json escapes strings the same way, so the name fragment of the
    // document must agree with its output for the same string.
    let name = "mix \"q\" \\ \t \u{2} ünï";
    let body = render_hello(&record(1, name, 1));
    let expected = serde_json::to_string(&serde_json::Value::String(name.to_string())).unwrap();
    let fragment: String = format!("\"name\": {expected}");
    assert!(body.contains(&fragment));
}
