use broker_korea::headers::Headers;
use broker_korea::http::{HttpMethod, HttpRequest, HttpResponse};
use broker_korea::kis::auth::{
    choose_signature, get_hashkey, get_token, get_websocket_key, issue, read_hashkey, read_token,
    TokenInfo, SAFETY_MARGIN,
};
use broker_korea::kis::types::{KisConfig, KisError, KisResult, Outcome};
use broker_korea::kis::{CallState, DomainCall, KisClient};
use broker_korea::text::byte_slice;

fn ok(body: &str) -> HttpResponse {
    HttpResponse { status: 200, headers: Headers::new(), body: body.to_string(), error: None }
}

fn failed(status: u16, body: &str, error: Option<&str>) -> HttpResponse {
    HttpResponse {
        status,
        headers: Headers::new(),
        body: body.to_string(),
        error: error.map(|e| e.to_string()),
    }
}

fn paper_config() -> KisConfig {
    KisConfig::new("key".to_string(), "secret".to_string(), "1234567890".to_string(), true)
}

fn sent<T>(outcome: Outcome<T>) -> HttpRequest {
    match outcome {
        Outcome::Send(request) => request,
        Outcome::Done(_) => panic!("the operation ended where a request was expected"),
    }
}

fn done<T>(outcome: Outcome<T>) -> KisResult<T> {
    match outcome {
        Outcome::Done(result) => result,
        Outcome::Send(request) => panic!("a request to {} where the end was expected", request.url),
    }
}

fn auth_message<T>(result: KisResult<T>) -> String {
    match result {
        Err(KisError::Auth(message)) => message,
        Err(other) => panic!("another error: {}", other.describe()),
        Ok(_) => panic!("no error"),
    }
}

const TOKEN_BODY: &str = "{\"access_token\":\"tok-1\",\"token_type\":\"Bearer\",\"expires_in\":86400,\"access_token_token_expired\":\"2030-01-01 00:00:00\"}";

#[test]
fn a_token_is_usable_until_the_margin_before_its_expiry() {
    let issued_at: u64 = 1_700_000_000;
    let lifetime: u64 = 86_400;
    let token = issue("tok".to_string(), "Bearer".to_string(), lifetime, issued_at).unwrap();
    assert_eq!(token.expires_at, issued_at + lifetime);
    assert_eq!(token.expires_in, lifetime);
    assert_eq!(SAFETY_MARGIN, 300);
    assert!(token.is_usable(issued_at + lifetime - 301));
    assert!(!token.is_expired(issued_at + lifetime - 301));
    assert!(!token.is_usable(issued_at + lifetime - 300));
    assert!(token.is_expired(issued_at + lifetime - 300));
    assert!(!token.is_usable(issued_at + lifetime));
    assert!(!token.is_usable(issued_at + lifetime + 1));
    assert!(token.is_usable(issued_at));
    assert!(token.is_usable(0));
    assert!(token.is_expired(u64::MAX));
}

#[test]
fn a_short_lived_token_is_never_usable() {
    let token = issue("tok".to_string(), "Bearer".to_string(), 300, 1000).unwrap();
    assert!(!token.is_usable(1000));
    assert!(token.is_expired(1000));
    let token = issue("tok".to_string(), "Bearer".to_string(), 301, 1000).unwrap();
    assert!(token.is_usable(1000));
    assert!(!token.is_usable(1001));
}

#[test]
fn expiry_near_the_end_of_time_does_not_overflow() {
    let token = TokenInfo {
        access_token: "t".to_string(),
        token_type: "Bearer".to_string(),
        expires_in: 10,
        expires_at: u64::MAX,
    };
    assert!(token.is_usable(u64::MAX - 301));
    assert!(!token.is_usable(u64::MAX - 300));
    assert!(!token.is_usable(u64::MAX));
}

#[test]
fn a_grant_without_lifetime_or_beyond_time_gives_no_token() {
    assert_eq!(
        auth_message(issue("t".to_string(), "Bearer".to_string(), 0, 1000)),
        "Token response grants no lifetime"
    );
    assert_eq!(
        auth_message(issue("t".to_string(), "Bearer".to_string(), 2, u64::MAX - 1)),
        "Token lifetime is out of range"
    );
    let last = issue("t".to_string(), "Bearer".to_string(), 1, u64::MAX - 1).unwrap();
    assert_eq!(last.expires_at, u64::MAX);
}

#[test]
fn the_token_request_identifies_the_application() {
    let client = KisClient::new(paper_config());
    let mut session = client;
    let request = sent(session.authenticate(None, 1000));
    assert_eq!(request.method, HttpMethod::Post);
    assert_eq!(request.url, "https://openapivts.koreainvestment.com:29443/oauth2/tokenP");
    assert_eq!(
        request.body.as_deref(),
        Some("{\"grant_type\":\"client_credentials\",\"appkey\":\"key\",\"appsecret\":\"secret\"}")
    );
    assert_eq!(request.headers.len(), 3);
    assert_eq!(request.headers.get("Content-Type"), Some("application/json; charset=utf-8"));
    assert_eq!(request.headers.get("Accept"), Some("text/plain"));
    assert_eq!(request.headers.get("charset"), Some("UTF-8"));
    assert_eq!(request.headers.get("authorization"), None);
    assert_eq!(request.timeout_ms, 30000);
}

#[test]
fn a_token_reply_is_read_at_its_arrival() {
    let token = read_token(&ok(TOKEN_BODY), 1_700_000_000).unwrap();
    assert_eq!(token.access_token, "tok-1");
    assert_eq!(token.token_type, "Bearer");
    assert_eq!(token.expires_in, 86_400);
    assert_eq!(token.expires_at, 1_700_086_400);
}

#[test]
fn token_replies_that_give_no_token() {
    assert_eq!(
        auth_message(read_token(&failed(403, "denied", None), 1)),
        "Token request failed: 403 - denied"
    );
    assert_eq!(
        auth_message(read_token(&failed(200, "{}", Some("connection reset")), 1)),
        "Token request failed: 200 - connection reset"
    );
    assert_eq!(
        auth_message(read_token(&HttpResponse::no_reply(), 1)),
        "Token request failed: 0 - Host function returned null response"
    );
    assert_eq!(
        auth_message(read_token(&ok("not json"), 1)),
        "Failed to parse token response: expected ident at line 1 column 2"
    );
    assert_eq!(
        auth_message(read_token(&ok("{\"token_type\":\"Bearer\",\"expires_in\":10}"), 1)),
        "Failed to parse token response: missing field `access_token`"
    );
    assert_eq!(
        auth_message(read_token(&ok("{\"access_token\":null,\"token_type\":\"Bearer\",\"expires_in\":10}"), 1)),
        "Failed to parse token response: missing field `access_token`"
    );
    assert_eq!(
        auth_message(read_token(&ok("{\"access_token\":\"t\",\"expires_in\":10}"), 1)),
        "Failed to parse token response: missing field `token_type`"
    );
    assert_eq!(
        auth_message(read_token(&ok("{\"access_token\":\"t\",\"token_type\":\"Bearer\"}"), 1)),
        "Failed to parse token response: missing field `expires_in`"
    );
    assert_eq!(
        auth_message(read_token(&ok("{\"access_token\":\"t\",\"token_type\":\"Bearer\",\"expires_in\":\"10\"}"), 1)),
        "Failed to parse token response: invalid field `expires_in`"
    );
    assert_eq!(
        auth_message(read_token(&ok("{\"access_token\":\"t\",\"token_type\":\"Bearer\",\"expires_in\":-5}"), 1)),
        "Failed to parse token response: invalid field `expires_in`"
    );
    assert_eq!(
        auth_message(read_token(&ok("{\"access_token\":\"t\",\"token_type\":\"Bearer\",\"expires_in\":0}"), 1)),
        "Token response grants no lifetime"
    );
    assert_eq!(
        auth_message(read_token(&ok("{\"access_token\":\"t\",\"token_type\":\"Bearer\",\"expires_in\":10}"), u64::MAX - 5)),
        "Token lifetime is out of range"
    );
}

#[test]
fn asking_for_a_token_in_two_steps() {
    let client = KisClient::new(paper_config());
    drop(client);
    let http = broker_korea::http::HttpClient::new("https://host");
    let config = paper_config();
    let request = sent(get_token(&http, &config, None, 5));
    assert_eq!(request.url, "https://host/oauth2/tokenP");
    let reply = ok(TOKEN_BODY);
    let token = done(get_token(&http, &config, Some(&reply), 5)).unwrap();
    assert_eq!(token.expires_at, 86_405);
}

#[test]
fn ensure_auth_acquires_once() {
    let mut client = KisClient::new(paper_config());
    assert!(!client.is_authenticated(1000));
    assert_eq!(client.access_token(), None);

    let request = sent(client.ensure_auth(None, 1000));
    assert_eq!(request.url, "https://openapivts.koreainvestment.com:29443/oauth2/tokenP");
    assert!(!client.is_authenticated(1000));

    let reply = ok(TOKEN_BODY);
    assert!(done(client.ensure_auth(Some(&reply), 1000)).is_ok());
    assert!(client.is_authenticated(1000));
    assert_eq!(client.access_token(), Some("tok-1"));

    assert!(done(client.ensure_auth(None, 1000)).is_ok());
    assert!(done(client.ensure_auth(None, 1000 + 86_400 - 301)).is_ok());
    assert_eq!(client.access_token(), Some("tok-1"));

    let again = sent(client.ensure_auth(None, 1000 + 86_400 - 300));
    assert_eq!(again.url, "https://openapivts.koreainvestment.com:29443/oauth2/tokenP");
}

#[test]
fn a_new_token_replaces_the_old_one() {
    let mut client = KisClient::new(paper_config());
    assert!(done(client.authenticate(Some(&ok(TOKEN_BODY)), 1000)).is_ok());
    assert_eq!(client.access_token(), Some("tok-1"));
    let second = ok("{\"access_token\":\"tok-2\",\"token_type\":\"Bearer\",\"expires_in\":600}");
    assert!(done(client.authenticate(Some(&second), 2000)).is_ok());
    assert_eq!(client.access_token(), Some("tok-2"));
    assert!(client.is_authenticated(2000 + 600 - 301));
    assert!(!client.is_authenticated(2000 + 600 - 300));
}

#[test]
fn a_failed_acquisition_leaves_the_session_as_it_was() {
    let mut client = KisClient::new(paper_config());
    let message = auth_message(done(client.ensure_auth(Some(&failed(500, "down", None)), 1000)));
    assert_eq!(message, "Token request failed: 500 - down");
    assert!(!client.is_authenticated(1000));
    assert_eq!(client.access_token(), None);

    assert!(done(client.authenticate(Some(&ok(TOKEN_BODY)), 1000)).is_ok());
    let message = auth_message(done(client.authenticate(Some(&failed(500, "down", None)), 1500)));
    assert_eq!(message, "Token request failed: 500 - down");
    assert_eq!(client.access_token(), Some("tok-1"));
    assert!(client.is_authenticated(1500));
}

#[test]
fn the_bare_signature_is_preferred() {
    assert_eq!(
        choose_signature(Some("bare".to_string()), Some("nested".to_string())).unwrap(),
        "bare"
    );
    assert_eq!(choose_signature(Some("bare".to_string()), None).unwrap(), "bare");
    assert_eq!(choose_signature(None, Some("nested".to_string())).unwrap(), "nested");
    assert_eq!(auth_message(choose_signature(None, None)), "Hashkey not found in response");
}

#[test]
fn signatures_in_both_shapes_of_reply() {
    assert_eq!(
        read_hashkey(&ok("{\"HASH\":\"bare\",\"BODY\":{\"HASH\":\"nested\"}}")).unwrap(),
        "bare"
    );
    assert_eq!(read_hashkey(&ok("{\"HASH\":\"bare\"}")).unwrap(), "bare");
    assert_eq!(read_hashkey(&ok("{\"BODY\":{\"HASH\":\"nested\"}}")).unwrap(), "nested");
    assert_eq!(
        read_hashkey(&ok("{\"HASH\":null,\"BODY\":{\"HASH\":\"nested\"}}")).unwrap(),
        "nested"
    );
    assert_eq!(
        auth_message(read_hashkey(&ok("{\"BODY\":{}}"))),
        "Hashkey not found in response"
    );
    assert_eq!(auth_message(read_hashkey(&ok("{}"))), "Hashkey not found in response");
    assert_eq!(
        auth_message(read_hashkey(&ok("{\"BODY\":null}"))),
        "Hashkey not found in response"
    );
    assert_eq!(
        auth_message(read_hashkey(&failed(401, "no", None))),
        "Hashkey request failed: 401 - no"
    );
    assert_eq!(
        auth_message(read_hashkey(&ok("["))),
        "Failed to parse hashkey response: EOF while parsing a list at line 1 column 1"
    );
}

#[test]
fn the_signing_request_carries_the_body_and_the_application() {
    let client = KisClient::new(paper_config());
    let request = sent(client.get_hashkey("{\"a\":\"b\"}", None));
    assert_eq!(request.method, HttpMethod::Post);
    assert_eq!(request.url, "https://openapivts.koreainvestment.com:29443/uapi/hashkey");
    assert_eq!(request.body.as_deref(), Some("{\"a\":\"b\"}"));
    assert_eq!(request.headers.get("appkey"), Some("key"));
    assert_eq!(request.headers.get("appsecret"), Some("secret"));
    assert_eq!(request.headers.get("Content-Type"), Some("application/json"));
    assert_eq!(request.headers.get("authorization"), None);
    assert_eq!(request.headers.len(), 5);
    let reply = ok("{\"HASH\":\"sig\"}");
    assert_eq!(done(client.get_hashkey("{\"a\":\"b\"}", Some(&reply))).unwrap(), "sig");
    let http = broker_korea::http::HttpClient::new("https://host");
    let request = sent(get_hashkey(&http, &paper_config(), "{}", None));
    assert_eq!(request.url, "https://host/uapi/hashkey");
    assert_eq!(request.headers.len(), 3);
}

#[test]
fn the_websocket_key() {
    let http = broker_korea::http::HttpClient::new("https://host");
    let config = paper_config();
    let request = sent(get_websocket_key(&http, &config, None));
    assert_eq!(request.url, "https://host/oauth2/Approval");
    assert_eq!(
        request.body.as_deref(),
        Some("{\"grant_type\":\"client_credentials\",\"appkey\":\"key\",\"appsecret\":\"secret\"}")
    );
    let reply = ok("{\"approval_key\":\"ws-key\"}");
    assert_eq!(done(get_websocket_key(&http, &config, Some(&reply))).unwrap(), "ws-key");
    let reply = failed(500, "down", None);
    assert_eq!(
        auth_message(done(get_websocket_key(&http, &config, Some(&reply)))),
        "WebSocket approval request failed: 500 - down"
    );
    let reply = ok("{}");
    match done(get_websocket_key(&http, &config, Some(&reply))) {
        Err(KisError::Decode { message, body }) => {
            assert_eq!(message, "Failed to parse approval response: missing field `approval_key`");
            assert_eq!(body, "{}");
        }
        _ => panic!("a decode error was expected"),
    }
    let reply = ok("nope");
    match done(get_websocket_key(&http, &config, Some(&reply))) {
        Err(KisError::Decode { message, body }) => {
            assert_eq!(message, "Failed to parse approval response: expected ident at line 1 column 2");
            assert_eq!(body, "nope");
        }
        _ => panic!("a decode error was expected"),
    }
}

#[test]
fn headers_need_a_token() {
    let mut client = KisClient::new(paper_config());
    assert_eq!(
        auth_message(client.build_headers("TR")),
        "Not authenticated. Call authenticate() first."
    );
    assert!(done(client.authenticate(Some(&ok(TOKEN_BODY)), 1000)).is_ok());
    let headers = client.build_headers("TR").unwrap();
    assert_eq!(headers.len(), 5);
    assert_eq!(headers.get("authorization"), Some("Bearer tok-1"));
    assert_eq!(headers.get("appkey"), Some("key"));
    assert_eq!(headers.get("appsecret"), Some("secret"));
    assert_eq!(headers.get("tr_id"), Some("TR"));
    assert_eq!(headers.get("custtype"), Some("P"));
}

#[test]
fn single_exchanges_of_the_client() {
    let mut client = KisClient::new(paper_config());
    assert_eq!(
        auth_message(done(client.get("/p", "TR", None, None))),
        "Not authenticated. Call authenticate() first."
    );
    assert_eq!(
        auth_message(done(client.post("/p", "TR", "{}", None))),
        "Not authenticated. Call authenticate() first."
    );
    assert!(done(client.authenticate(Some(&ok(TOKEN_BODY)), 1000)).is_ok());

    let request = sent(client.get("/p", "TR", Some("a=1&b=2"), None));
    assert_eq!(request.method, HttpMethod::Get);
    assert_eq!(request.url, "https://openapivts.koreainvestment.com:29443/p?a=1&b=2");
    assert_eq!(request.headers.get("tr_id"), Some("TR"));
    assert_eq!(request.headers.len(), 8);
    let request = sent(client.get("/p", "TR", None, None));
    assert_eq!(request.url, "https://openapivts.koreainvestment.com:29443/p");

    let reply = done(client.get("/p", "TR", None, Some(ok("fine")))).unwrap();
    assert_eq!(reply.body, "fine");
    match done(client.get("/p", "TR", None, Some(failed(404, "gone", None)))) {
        Err(KisError::Transport { status, message }) => {
            assert_eq!(status, 404);
            assert_eq!(message, "gone");
        }
        _ => panic!("a transport error was expected"),
    }

    let request = sent(client.post("/q", "TR2", "{\"x\":\"y\"}", None));
    assert_eq!(request.method, HttpMethod::Post);
    assert_eq!(request.url, "https://openapivts.koreainvestment.com:29443/q");
    assert_eq!(request.body.as_deref(), Some("{\"x\":\"y\"}"));
    assert_eq!(request.headers.get("tr_id"), Some("TR2"));
    assert_eq!(request.headers.get("hashkey"), None);
    match done(client.post("/q", "TR2", "{}", Some(failed(200, "", Some("timeout"))))) {
        Err(KisError::Transport { status, message }) => {
            assert_eq!(status, 200);
            assert_eq!(message, "timeout");
        }
        _ => panic!("a transport error was expected"),
    }
}

#[test]
fn a_call_whose_signing_fails_sends_nothing_more() {
    let mut client = KisClient::new(paper_config());
    let mut state = CallState::new();
    let call = DomainCall::mutating("/uapi/order", "TR", "{\"a\":\"b\"}".to_string());

    let first = sent(client.call(&mut state, None, 1000, &call));
    assert_eq!(first.url, "https://openapivts.koreainvestment.com:29443/uapi/hashkey");
    assert!(!state.is_fresh());

    let ended = done(client.call(&mut state, Some(failed(500, "signing is down", None)), 1000, &call));
    assert_eq!(auth_message(ended), "Hashkey request failed: 500 - signing is down");
    assert!(state.is_fresh());
    assert_eq!(client.access_token(), None);

    let mut state = CallState::new();
    sent(client.call(&mut state, None, 1000, &call));
    let ended = done(client.call(&mut state, Some(ok("{\"other\":1}")), 1000, &call));
    assert_eq!(auth_message(ended), "Hashkey not found in response");
    assert!(state.is_fresh());

    let mut state = CallState::new();
    sent(client.call(&mut state, None, 1000, &call));
    let ended = done(client.call(&mut state, None, 1000, &call));
    assert_eq!(
        auth_message(ended),
        "Hashkey request failed: 0 - Host function returned null response"
    );
    assert!(state.is_fresh());
}

#[test]
fn a_signature_goes_out_with_no_other_body() {
    let mut client = KisClient::new(paper_config());
    assert!(done(client.authenticate(Some(&ok(TOKEN_BODY)), 1000)).is_ok());
    let signed = DomainCall::mutating("/uapi/order", "TR", "{\"qty\":\"1\"}".to_string());
    let other = DomainCall::mutating("/uapi/order", "TR", "{\"qty\":\"1000\"}".to_string());

    let mut state = CallState::new();
    let request = sent(client.call(&mut state, None, 1000, &signed));
    assert_eq!(request.body.as_deref(), Some("{\"qty\":\"1\"}"));
    let ended = done(client.call(&mut state, Some(ok("{\"HASH\":\"sig\"}")), 1000, &other));
    assert_eq!(auth_message(ended), "Request body is not the one that was signed");
    assert!(state.is_fresh());

    let mut fresh = KisClient::new(paper_config());
    let mut state = CallState::new();
    sent(fresh.call(&mut state, None, 1000, &signed));
    let request = sent(fresh.call(&mut state, Some(ok("{\"HASH\":\"sig\"}")), 1000, &signed));
    assert_eq!(request.url, "https://openapivts.koreainvestment.com:29443/oauth2/tokenP");
    let ended = done(fresh.call(&mut state, Some(ok(TOKEN_BODY)), 1000, &other));
    assert_eq!(auth_message(ended), "Request body is not the one that was signed");
    assert!(state.is_fresh());
    assert_eq!(fresh.access_token(), Some("tok-1"));

    let read = DomainCall::read("/uapi/quote", "TR", None);
    let mut unsigned = KisClient::new(paper_config());
    let mut state = CallState::new();
    sent(unsigned.call(&mut state, None, 1000, &read));
    let ended = done(unsigned.call(&mut state, Some(ok(TOKEN_BODY)), 1000, &signed));
    assert_eq!(auth_message(ended), "Request body is not signed");
    assert!(state.is_fresh());
}

#[test]
fn first_and_second_mutating_call_of_a_session() {
    let mut client = KisClient::new(paper_config());
    let call = DomainCall::mutating("/uapi/order", "VTTC0802U", "{\"PDNO\":\"005930\"}".to_string());
    let mut log: Vec<String> = Vec::new();

    let mut state = CallState::new();
    let request = sent(client.call(&mut state, None, 1000, &call));
    log.push(request.url.clone());
    assert_eq!(request.body.as_deref(), Some("{\"PDNO\":\"005930\"}"));
    let request = sent(client.call(&mut state, Some(ok("{\"HASH\":\"sig-1\"}")), 1000, &call));
    log.push(request.url.clone());
    let request = sent(client.call(&mut state, Some(ok(TOKEN_BODY)), 1001, &call));
    log.push(request.url.clone());
    assert_eq!(request.method, HttpMethod::Post);
    assert_eq!(request.body.as_deref(), Some("{\"PDNO\":\"005930\"}"));
    assert_eq!(request.headers.get("authorization"), Some("Bearer tok-1"));
    assert_eq!(request.headers.get("appkey"), Some("key"));
    assert_eq!(request.headers.get("appsecret"), Some("secret"));
    assert_eq!(request.headers.get("tr_id"), Some("VTTC0802U"));
    assert_eq!(request.headers.get("custtype"), Some("P"));
    assert_eq!(request.headers.get("hashkey"), Some("sig-1"));
    assert_eq!(request.headers.get("Content-Type"), Some("application/json; charset=utf-8"));
    assert_eq!(request.headers.len(), 9);
    let body = done(client.call(&mut state, Some(ok("{\"rt_cd\":\"0\"}")), 1002, &call)).unwrap();
    assert_eq!(body, "{\"rt_cd\":\"0\"}");
    assert!(state.is_fresh());
    assert_eq!(
        log,
        vec![
            "https://openapivts.koreainvestment.com:29443/uapi/hashkey",
            "https://openapivts.koreainvestment.com:29443/oauth2/tokenP",
            "https://openapivts.koreainvestment.com:29443/uapi/order",
        ]
    );
    assert_eq!(client.access_token(), Some("tok-1"));

    let mut log: Vec<String> = Vec::new();
    let request = sent(client.call(&mut state, None, 2000, &call));
    log.push(request.url.clone());
    let request = sent(client.call(&mut state, Some(ok("{\"BODY\":{\"HASH\":\"sig-2\"}}")), 2000, &call));
    log.push(request.url.clone());
    assert_eq!(request.headers.get("hashkey"), Some("sig-2"));
    assert_eq!(request.headers.get("authorization"), Some("Bearer tok-1"));
    let body = done(client.call(&mut state, Some(ok("second")), 2001, &call)).unwrap();
    assert_eq!(body, "second");
    assert_eq!(
        log,
        vec![
            "https://openapivts.koreainvestment.com:29443/uapi/hashkey",
            "https://openapivts.koreainvestment.com:29443/uapi/order",
        ]
    );
}

#[test]
fn an_expired_token_is_replaced_on_the_next_call() {
    let mut client = KisClient::new(paper_config());
    assert!(done(client.authenticate(Some(&ok(TOKEN_BODY)), 1000)).is_ok());
    let call = DomainCall::read("/uapi/quote", "TR", Some("a=1"));
    let mut state = CallState::new();

    let request = sent(client.call(&mut state, None, 1000 + 86_400 - 301, &call));
    assert_eq!(request.url, "https://openapivts.koreainvestment.com:29443/uapi/quote?a=1");
    assert_eq!(request.method, HttpMethod::Get);
    assert_eq!(request.body, None);
    assert_eq!(request.headers.get("hashkey"), None);
    done(client.call(&mut state, Some(ok("x")), 1000 + 86_400 - 301, &call)).unwrap();

    let request = sent(client.call(&mut state, None, 1000 + 86_400 - 300, &call));
    assert_eq!(request.url, "https://openapivts.koreainvestment.com:29443/oauth2/tokenP");
    let fresh = ok("{\"access_token\":\"tok-2\",\"token_type\":\"Bearer\",\"expires_in\":600}");
    let request = sent(client.call(&mut state, Some(fresh), 90_000, &call));
    assert_eq!(request.url, "https://openapivts.koreainvestment.com:29443/uapi/quote?a=1");
    assert_eq!(request.headers.get("authorization"), Some("Bearer tok-2"));
    assert_eq!(client.access_token(), Some("tok-2"));
}

#[test]
fn a_failed_acquisition_ends_the_call() {
    let mut client = KisClient::new(paper_config());
    let call = DomainCall::read("/uapi/quote", "TR", None);
    let mut state = CallState::new();
    let request = sent(client.call(&mut state, None, 1000, &call));
    assert_eq!(request.url, "https://openapivts.koreainvestment.com:29443/oauth2/tokenP");
    let ended = done(client.call(&mut state, Some(failed(401, "bad key", None)), 1000, &call));
    assert_eq!(auth_message(ended), "Token request failed: 401 - bad key");
    assert!(state.is_fresh());
    assert_eq!(client.access_token(), None);
}

#[test]
fn a_failed_transport_ends_the_call_with_status_and_text() {
    let mut client = KisClient::new(paper_config());
    assert!(done(client.authenticate(Some(&ok(TOKEN_BODY)), 1000)).is_ok());
    let call = DomainCall::read("/uapi/quote", "TR", None);
    let mut state = CallState::new();
    sent(client.call(&mut state, None, 1000, &call));
    match done(client.call(&mut state, Some(failed(503, "busy", None)), 1000, &call)) {
        Err(KisError::Transport { status, message }) => {
            assert_eq!(status, 503);
            assert_eq!(message, "busy");
        }
        _ => panic!("a transport error was expected"),
    }
    assert!(state.is_fresh());
    sent(client.call(&mut state, None, 1000, &call));
    match done(client.call(&mut state, Some(failed(200, "{}", Some("reset"))), 1000, &call)) {
        Err(KisError::Transport { status, message }) => {
            assert_eq!(status, 200);
            assert_eq!(message, "reset");
        }
        _ => panic!("a transport error was expected"),
    }
    sent(client.call(&mut state, None, 1000, &call));
    match done(client.call(&mut state, None, 1000, &call)) {
        Err(KisError::Transport { status, message }) => {
            assert_eq!(status, 0);
            assert_eq!(message, "Host function returned null response");
        }
        _ => panic!("a transport error was expected"),
    }
}

#[test]
fn errors_in_words() {
    assert_eq!(KisError::Auth("no".to_string()).describe(), "Auth error: no");
    assert_eq!(
        KisError::Transport { status: 404, message: "gone".to_string() }.describe(),
        "API error [404]: gone"
    );
    assert_eq!(
        KisError::Remote { code: "APBK0013".to_string(), message: "Invalid account".to_string() }.describe(),
        "API error [APBK0013]: Invalid account"
    );
    assert_eq!(
        KisError::Decode { message: "bad".to_string(), body: "{".to_string() }.describe(),
        "Parse error: bad"
    );
    assert_eq!(KisError::MissingPayload.describe(), "Parse error: No output in response");
}

#[test]
fn configuration_is_checked() {
    let config = |key: &str, secret: &str, account: &str| {
        KisConfig::new(key.to_string(), secret.to_string(), account.to_string(), true)
    };
    assert_eq!(config("k", "s", "1234567890").validate(), Ok(()));
    assert_eq!(config("", "s", "1234567890").validate(), Err("app_key is required".to_string()));
    assert_eq!(config("", "", "1").validate(), Err("app_key is required".to_string()));
    assert_eq!(config("k", "", "1234567890").validate(), Err("app_secret is required".to_string()));
    assert_eq!(config("k", "s", "123456789").validate(), Err("account_no must be 10 digits".to_string()));
    assert_eq!(config("k", "s", "12345678901").validate(), Err("account_no must be 10 digits".to_string()));
    assert_eq!(config("k", "s", "").validate(), Err("account_no must be 10 digits".to_string()));
    let made = config("k", "s", "1234567890");
    assert_eq!(made.app_key, "k");
    assert_eq!(made.app_secret, "s");
    assert_eq!(made.account_no, "1234567890");
    assert!(made.is_paper);
}

#[test]
fn the_account_number_is_cut_in_two() {
    let client = KisClient::new(paper_config());
    assert_eq!(client.cano(), "12345678");
    assert_eq!(client.acnt_prdt_cd(), "90");
    let longer = KisClient::new(KisConfig::new("k".into(), "s".into(), "ABCDEFGHIJKL".into(), false));
    assert_eq!(longer.cano(), "ABCDEFGH");
    assert_eq!(longer.acnt_prdt_cd(), "IJ");
    assert_eq!(longer.account_no(), "ABCDEFGHIJKL");
    let wide = KisClient::new(KisConfig::new("k".into(), "s".into(), "123456\u{00e9}\u{00e9}".into(), false));
    assert_eq!(wide.cano(), "123456\u{00e9}");
    assert_eq!(wide.acnt_prdt_cd(), "\u{00e9}");
}

#[test]
fn parts_of_a_text_between_byte_offsets() {
    assert_eq!(byte_slice("1234567890", 0, 8), "12345678");
    assert_eq!(byte_slice("1234567890", 8, 10), "90");
    assert_eq!(byte_slice("1234567890", 3, 3), "");
    assert_eq!(byte_slice("1234567890", 0, 0), "");
    assert_eq!(byte_slice("1234567890", 10, 10), "");
    assert_eq!(byte_slice("a\u{00e9}b", 1, 3), "\u{00e9}");
    assert_eq!(byte_slice("a\u{00e9}b", 3, 4), "b");
}
