use counter_gate::config::MyConfig;
use counter_gate::fields::FieldList;
use counter_gate::render::{
    render_book, render_count, render_fields, render_greeting, render_header_auth,
    render_headers, render_query, render_service_one, u64_to_string,
};

#[test]
fn decimal_rendering() {
    assert_eq!(u64_to_string(0), "0");
    assert_eq!(u64_to_string(7), "7");
    assert_eq!(u64_to_string(42), "42");
    assert_eq!(u64_to_string(1200), "1200");
    assert_eq!(u64_to_string(u64::MAX), "18446744073709551615");
}

#[test]
fn greeting_shows_counter_and_config() {
    let config = MyConfig::new("My Config".to_string());
    let body = render_greeting(7, &config);
    assert_eq!(body, "<h1>Counter: 7</h1> <br/> <h1> Config: My Config");
}

#[test]
fn service_one_shows_counter_and_state() {
    let body = render_service_one(3, 2);
    assert_eq!(body, "<h1>Service One counter: 3</h1> <br/> <h1>State: 2");
}

#[test]
fn book_body_contains_numeric_id() {
    let body = render_book(&"42".to_string());
    assert_eq!(body, "<h1>Book ID: 42</h1>");
    assert!(body.contains("42"));
}

#[test]
fn book_body_echoes_opaque_id_verbatim() {
    // The identifier is treated as an opaque string: a non-numeric path
    // segment is echoed verbatim, deterministically.
    let body = render_book(&"notanumber".to_string());
    assert_eq!(body, "<h1>Book ID: notanumber</h1>");
}

#[test]
fn count_body() {
    assert_eq!(render_count(5), "<h1>Count: 5</h1>");
}

#[test]
fn header_echo_keeps_every_pair_in_order() {
    let mut h = FieldList::new();
    h.push("accept".to_string(), "text/html".to_string());
    h.push("x-request-id".to_string(), "abc-123".to_string());
    h.push("accept".to_string(), "text/plain".to_string());
    let body = render_headers(&h);
    assert_eq!(body, "accept: text/html\nx-request-id: abc-123\naccept: text/plain\n");
    for (name, value) in [
        ("accept", "text/html"),
        ("x-request-id", "abc-123"),
        ("accept", "text/plain"),
    ] {
        assert!(body.contains(&format!("{}: {}\n", name, value)));
    }
}

#[test]
fn empty_list_renders_empty() {
    let h = FieldList::new();
    assert_eq!(render_fields(&h), "");
}

#[test]
fn query_echo_wraps_parameter_lines() {
    let mut q = FieldList::new();
    q.push("a".to_string(), "1".to_string());
    q.push("b".to_string(), "2".to_string());
    assert_eq!(render_query(&q), "<h1>Query Params:\na: 1\nb: 2\n</h1>");
}

#[test]
fn header_auth_body_with_id() {
    let mut h = FieldList::new();
    h.push("x-request-id".to_string(), "abc-123".to_string());
    let body = render_header_auth(&h);
    assert_eq!(body, "<h1>Request ID: abc-123</h1>");
    assert!(body.contains("abc-123"));
}

#[test]
fn header_auth_body_without_id() {
    let h = FieldList::new();
    assert_eq!(render_header_auth(&h), "x-request-id not found");
}
