use broker_korea::codec::{pack, received_region, unpack, Region};
use broker_korea::headers::Headers;
use broker_korea::http::{default_timeout, HttpClient, HttpMethod, HttpResponse};
use broker_korea::json::{field, optional_member, text_member, write_object, Field};
use broker_korea::text::{decimal_text, joined, same_text, starts_with};

#[test]
fn pack_puts_the_address_high_and_the_length_low() {
    assert_eq!(pack(1, 2), 0x0000_0001_0000_0002);
    assert_eq!(pack(0x1000, 16), 0x0000_1000_0000_0010);
    assert_eq!(pack(0, 0), 0);
    assert_eq!(pack(u32::MAX, u32::MAX), u64::MAX);
    assert_eq!(pack(u32::MAX, 0), 0xFFFF_FFFF_0000_0000);
    assert_eq!(pack(0, u32::MAX), 0x0000_0000_FFFF_FFFF);
}

#[test]
fn unpack_is_the_inverse_of_pack() {
    let pairs = [(0u32, 0u32), (1, 2), (0x1000, 16), (u32::MAX, 7), (7, u32::MAX), (u32::MAX, u32::MAX), (0x8000_0000, 0x8000_0000)];
    for (address, length) in pairs {
        assert_eq!(unpack(pack(address, length)), (address, length));
    }
    for word in [0u64, 1, 0xDEAD_BEEF_0BAD_F00D, u64::MAX] {
        let (address, length) = unpack(word);
        assert_eq!(pack(address, length), word);
    }
    assert_eq!(unpack(0x0000_1000_0000_0010), (0x1000, 16));
}

#[test]
fn a_word_without_address_or_length_names_no_data() {
    assert_eq!(received_region(0), None);
    assert_eq!(received_region(pack(0, 16)), None);
    assert_eq!(received_region(pack(0x1000, 0)), None);
    assert_eq!(received_region(pack(0x1000, 16)), Some(Region { address: 0x1000, length: 16 }));
}

#[test]
fn decimal_numerals() {
    assert_eq!(decimal_text(0), "0");
    assert_eq!(decimal_text(7), "7");
    assert_eq!(decimal_text(10), "10");
    assert_eq!(decimal_text(70000), "70000");
    assert_eq!(decimal_text(1234567890), "1234567890");
    assert_eq!(decimal_text(u64::MAX), "18446744073709551615");
}

#[test]
fn text_helpers() {
    assert!(same_text("abc", "abc"));
    assert!(!same_text("abc", "abd"));
    assert!(!same_text("abc", "ab"));
    assert!(starts_with("https://x", "https://"));
    assert!(!starts_with("http://x", "https://"));
    assert!(starts_with("abc", ""));
    assert!(!starts_with("ab", "abc"));
    assert!(starts_with("가나다", "가나"));
    assert_eq!(joined("ab", "cd"), "abcd");
}

#[test]
fn headers_hold_one_value_for_each_name() {
    let mut headers = Headers::new();
    assert_eq!(headers.len(), 0);
    headers.insert("appkey", "one");
    headers.insert("tr_id", "two");
    headers.insert("appkey", "three");
    assert_eq!(headers.len(), 2);
    assert_eq!(headers.get("appkey"), Some("three"));
    assert_eq!(headers.get("tr_id"), Some("two"));
    assert_eq!(headers.get("missing"), None);
    assert!(headers.contains_key("tr_id"));
    assert!(!headers.contains_key("TR_ID"));
    assert_eq!(headers.name_at(0), "appkey");
    assert_eq!(headers.value_at(0), "three");
    assert_eq!(headers.name_at(1), "tr_id");
    assert_eq!(headers.value_at(1), "two");
}

#[test]
fn extending_headers_prefers_the_new_values() {
    let mut base = Headers::new();
    base.insert("a", "1");
    base.insert("b", "2");
    let mut extra = Headers::new();
    extra.insert("b", "20");
    extra.insert("c", "30");
    base.extend(&extra);
    assert_eq!(base.len(), 3);
    assert_eq!(base.get("a"), Some("1"));
    assert_eq!(base.get("b"), Some("20"));
    assert_eq!(base.get("c"), Some("30"));
    let copy = base.clone();
    assert_eq!(copy.len(), 3);
    assert_eq!(copy.get("b"), Some("20"));
}

#[test]
fn transport_success_is_no_error_and_a_status_from_200_to_299() {
    let reply = |status: u16, error: Option<&str>| HttpResponse {
        status,
        headers: Headers::new(),
        body: "body".to_string(),
        error: error.map(|e| e.to_string()),
    };
    assert!(reply(200, None).is_success());
    assert!(reply(204, None).is_success());
    assert!(reply(299, None).is_success());
    assert!(!reply(199, None).is_success());
    assert!(!reply(300, None).is_success());
    assert!(!reply(404, None).is_success());
    assert!(!reply(0, None).is_success());
    assert!(!reply(200, Some("timeout")).is_success());
    assert_eq!(reply(500, None).failure_text(), "body");
    assert_eq!(reply(500, Some("timeout")).failure_text(), "timeout");
}

#[test]
fn no_reply_is_a_failure_with_a_reason() {
    let reply = HttpResponse::no_reply();
    assert_eq!(reply.status, 0);
    assert_eq!(reply.body, "");
    assert_eq!(reply.error.as_deref(), Some("Host function returned null response"));
    assert_eq!(reply.headers.len(), 0);
    assert!(!reply.is_success());
}

#[test]
fn data_that_is_no_reply_is_a_failure_with_a_reason() {
    let reply = HttpResponse::unreadable("expected value at line 1 column 1");
    assert_eq!(reply.status, 0);
    assert_eq!(reply.body, "");
    assert_eq!(
        reply.error.as_deref(),
        Some("Failed to parse response: expected value at line 1 column 1")
    );
    assert_eq!(reply.headers.len(), 0);
    assert!(!reply.is_success());
}

#[test]
fn reply_body_as_json() {
    let good = HttpResponse { status: 200, headers: Headers::new(), body: "{\"a\":\"b\"}".to_string(), error: None };
    let value = good.json().unwrap();
    assert_eq!(value.get("a").and_then(|v| v.as_str()), Some("b"));
    let bad = HttpResponse { status: 200, headers: Headers::new(), body: "{".to_string(), error: None };
    let message = bad.json().unwrap_err();
    assert_eq!(message, "JSON parse error: EOF while parsing an object at line 1 column 1");
}

#[test]
fn client_builds_requests() {
    let client = HttpClient::new("https://host:1").header("Accept", "text/plain").timeout(5000);
    assert_eq!(client.build_url("/path"), "https://host:1/path");
    assert_eq!(client.build_url("http://other/x"), "http://other/x");
    assert_eq!(client.build_url("https://other/x"), "https://other/x");
    assert_eq!(client.build_url("httpx"), "https://host:1httpx");

    let mut extra = Headers::new();
    extra.insert("Accept", "application/json");
    extra.insert("tr_id", "X");
    let get = client.get("/quote?a=1", Some(extra));
    assert_eq!(get.method, HttpMethod::Get);
    assert_eq!(get.url, "https://host:1/quote?a=1");
    assert_eq!(get.body, None);
    assert_eq!(get.timeout_ms, 5000);
    assert_eq!(get.headers.len(), 2);
    assert_eq!(get.headers.get("Accept"), Some("application/json"));
    assert_eq!(get.headers.get("tr_id"), Some("X"));

    let post = client.post("/order", Some("payload".to_string()), None);
    assert_eq!(post.method, HttpMethod::Post);
    assert_eq!(post.url, "https://host:1/order");
    assert_eq!(post.body.as_deref(), Some("payload"));
    assert_eq!(post.headers.len(), 1);
    assert_eq!(post.headers.get("Accept"), Some("text/plain"));
    assert_eq!(post.headers.get("Content-Type"), None);
}

#[test]
fn a_json_post_is_marked_as_json_unless_marked_already() {
    let plain = HttpClient::new("https://host");
    let request = plain.post_json("/p", "{}", None);
    assert_eq!(request.method, HttpMethod::Post);
    assert_eq!(request.headers.get("Content-Type"), Some("application/json"));
    assert_eq!(request.body.as_deref(), Some("{}"));
    assert_eq!(request.timeout_ms, 30000);
    assert_eq!(default_timeout(), 30000);

    let mut marked = HttpClient::new("https://host");
    marked.set_header("Content-Type", "application/json; charset=utf-8");
    let request = marked.post_json("/p", "{}", None);
    assert_eq!(request.headers.get("Content-Type"), Some("application/json; charset=utf-8"));
    assert_eq!(request.headers.len(), 1);
}

#[test]
fn method_names() {
    assert_eq!(HttpMethod::Get.name(), "GET");
    assert_eq!(HttpMethod::Post.name(), "POST");
    assert_eq!(HttpMethod::Put.name(), "PUT");
    assert_eq!(HttpMethod::Delete.name(), "DELETE");
    assert_eq!(HttpMethod::Patch.name(), "PATCH");
}

#[test]
fn objects_are_written_in_order_with_quoting() {
    assert_eq!(write_object(&vec![]), "{}");
    assert_eq!(write_object(&vec![text_member("a", "b")]), "{\"a\":\"b\"}");
    let members = vec![
        text_member("CANO", "12345678"),
        optional_member("QTY", &None),
        optional_member("PRICE", &Some("1.50".to_string())),
        text_member("note", "say \"hi\"\n\\"),
    ];
    assert_eq!(
        write_object(&members),
        "{\"CANO\":\"12345678\",\"QTY\":null,\"PRICE\":\"1.50\",\"note\":\"say \\\"hi\\\"\\n\\\\\"}"
    );
    let parsed: serde_json::Value = serde_json::from_str(&write_object(&members)).unwrap();
    assert_eq!(parsed["note"], "say \"hi\"\n\\");
    assert!(parsed["QTY"].is_null());
}

#[test]
fn fields_of_an_object() {
    let doc: serde_json::Value = serde_json::from_str("{\"a\":\"x\",\"b\":null,\"c\":3,\"d\":{\"a\":\"y\"}}").unwrap();
    assert!(matches!(field(&doc, "a"), Field::Text(t) if t == "x"));
    assert!(matches!(field(&doc, "b"), Field::Absent));
    assert!(matches!(field(&doc, "c"), Field::Mismatch));
    assert!(matches!(field(&doc, "d"), Field::Mismatch));
    assert!(matches!(field(&doc, "e"), Field::Absent));
    assert_eq!(broker_korea::json::required_text(&doc, "a"), Some("x".to_string()));
    assert_eq!(broker_korea::json::required_text(&doc, "b"), None);
    assert_eq!(broker_korea::json::optional_text(&doc, "a"), Ok(Some("x".to_string())));
    assert_eq!(broker_korea::json::optional_text(&doc, "b"), Ok(None));
    assert_eq!(broker_korea::json::optional_text(&doc, "c"), Err(()));
    assert!(broker_korea::json::present(&doc, "b").is_none());
    assert!(broker_korea::json::present(&doc, "c").is_some());
    let text = serde_json::Value::String("t".to_string());
    assert!(matches!(field(&text, "a"), Field::Absent));
}
