//! Credentials and signatures: how a token is asked for and read, when it
//! counts as expired, and how the signature of a request body is obtained.

use vstd::prelude::*;
use crate::headers::Headers;
use crate::http::{
    HttpClient, HttpClientView, HttpRequest, HttpRequestView, HttpResponse, HttpResponseView,
};
use crate::json::{
    json_document, json_error_text, json_present, json_unsigned, object_text, optional_of,
    optional_text, present, required_of, required_ok, required_text, text_member, unsigned,
    write_object, Member,
};
use crate::kis::types::{
    result_view, KisConfig, KisConfigView, KisError, KisErrorView, KisResult, Outcome, OutcomeView,
};
use crate::text::{decimal, decimal_text, joined, opt_view};

verus! {

/// For how many seconds before its true expiry a token already counts as
/// expired, so that no request is built with a token that runs out on the way.
pub const SAFETY_MARGIN: u64 = 300;

/// A bearer token and when it runs out.
#[derive(Debug, Clone)]
pub struct TokenInfo {
    pub access_token: String,
    pub token_type: String,
    /// Lifetime in seconds, counted from the moment the token was acquired.
    pub expires_in: u64,
    /// When the token runs out, in seconds since the Unix epoch.
    pub expires_at: u64,
}

/// What a [`TokenInfo`] holds.
pub ghost struct TokenView {
    pub access_token: Seq<char>,
    pub token_type: Seq<char>,
    pub expires_in: u64,
    pub expires_at: u64,
}

impl View for TokenInfo {
    type V = TokenView;

    open spec fn view(&self) -> TokenView {
        TokenView {
            access_token: self.access_token@,
            token_type: self.token_type@,
            expires_in: self.expires_in,
            expires_at: self.expires_at,
        }
    }
}

impl TokenView {
    /// The moment the token was acquired.
    pub open spec fn issued_at(self) -> int {
        self.expires_at - self.expires_in
    }

    /// Whether the token can still be used at `now`: its expiry lies more
    /// than the safety margin ahead.
    pub open spec fn is_usable(self, now: int) -> bool {
        now + SAFETY_MARGIN < self.expires_at
    }

    /// Whether the token counts as expired at `now`.
    pub open spec fn is_expired(self, now: int) -> bool {
        !self.is_usable(now)
    }
}

/// The view of an optional token.
pub open spec fn opt_token(token: Option<TokenInfo>) -> Option<TokenView> {
    match token {
        Some(t) => Some(t@),
        None => None,
    }
}

impl TokenInfo {
    /// Whether the token counts as expired at `now`, the safety margin
    /// taken off its lifetime.
    pub fn is_expired(&self, now: u64) -> (r: bool)
        ensures
            r == self@.is_expired(now as int),
            r == (self.expires_at <= now + SAFETY_MARGIN),
    {
        self.expires_at <= now || self.expires_at - now <= SAFETY_MARGIN
    }

    /// Whether the token can still be used at `now`.
    pub fn is_usable(&self, now: u64) -> (r: bool)
        ensures
            r == self@.is_usable(now as int),
            r == (now + SAFETY_MARGIN < self.expires_at),
    {
        !self.is_expired(now)
    }
}

/// What a failed exchange has to say: `prefix`, the status, a dash and the
/// transport error or the body.
pub open spec fn failure_message(prefix: Seq<char>, reply: HttpResponseView) -> Seq<char> {
    prefix + decimal(reply.status as nat) + " - "@ + reply.failure_text()
}

fn failure_text(prefix: &str, reply: &HttpResponse) -> (r: String)
    ensures
        r@ == failure_message(prefix@, reply@),
{
    let mut r = String::from_str(prefix);
    let status = decimal_text(reply.status as u64);
    r.append(status.as_str());
    r.append(" - ");
    let detail = reply.failure_text();
    r.append(detail.as_str());
    r
}

/// The members of the body with which a client identifies itself.
pub open spec fn credentials_members(config: KisConfigView) -> Seq<(Seq<char>, Option<Seq<char>>)> {
    seq![
        ("grant_type"@, Some("client_credentials"@)),
        ("appkey"@, Some(config.app_key)),
        ("appsecret"@, Some(config.app_secret)),
    ]
}

fn credentials_body(config: &KisConfig) -> (r: String)
    ensures
        r@ == object_text(credentials_members(config@)),
{
    let mut members: Vec<Member> = Vec::new();
    members.push(text_member("grant_type", "client_credentials"));
    members.push(text_member("appkey", config.app_key.as_str()));
    members.push(text_member("appsecret", config.app_secret.as_str()));
    assert(crate::json::members_view(members@) =~= credentials_members(config@));
    write_object(&members)
}

/// The request that asks for a token.
pub open spec fn token_request(http: HttpClientView, config: KisConfigView) -> HttpRequestView {
    http.post_json("/oauth2/tokenP"@, object_text(credentials_members(config)), None)
}

/// What a parsed token reply grants: the token, its type and its lifetime,
/// or which of them is missing.
pub open spec fn token_grant(doc: serde_json::Value) -> Result<
    (Seq<char>, Seq<char>, u64),
    Seq<char>,
> {
    if !required_ok(doc, "access_token"@) {
        Err("missing field `access_token`"@)
    } else if !required_ok(doc, "token_type"@) {
        Err("missing field `token_type`"@)
    } else {
        match json_present(doc, "expires_in"@) {
            None => Err("missing field `expires_in`"@),
            Some(lifetime) => match json_unsigned(lifetime) {
                None => Err("invalid field `expires_in`"@),
                Some(seconds) => Ok(
                    (required_of(doc, "access_token"@), required_of(doc, "token_type"@), seconds),
                ),
            },
        }
    }
}

/// The token that a grant gives at `now`, or why it gives none: a lifetime
/// must be positive, and the expiry must be a moment that `u64` can hold.
pub open spec fn issued(
    access_token: Seq<char>,
    token_type: Seq<char>,
    expires_in: u64,
    now: u64,
) -> Result<TokenView, KisErrorView> {
    if expires_in == 0 {
        Err(KisErrorView::Auth("Token response grants no lifetime"@))
    } else if now + expires_in > u64::MAX {
        Err(KisErrorView::Auth("Token lifetime is out of range"@))
    } else {
        Ok(
            TokenView {
                access_token,
                token_type,
                expires_in,
                expires_at: (now + expires_in) as u64,
            },
        )
    }
}

/// What the reply to a token request gives at `now`.
pub open spec fn token_reply(reply: HttpResponseView, now: u64) -> Result<TokenView, KisErrorView> {
    if !reply.is_success() {
        Err(KisErrorView::Auth(failure_message("Token request failed: "@, reply)))
    } else {
        match json_document(reply.body) {
            Err(e) => Err(
                KisErrorView::Auth("Failed to parse token response: "@ + json_error_text(e)),
            ),
            Ok(doc) => match token_grant(doc) {
                Err(what) => Err(KisErrorView::Auth("Failed to parse token response: "@ + what)),
                Ok(grant) => issued(grant.0, grant.1, grant.2, now),
            },
        }
    }
}

/// Makes the token that a grant gives at `now`.
pub fn issue(access_token: String, token_type: String, expires_in: u64, now: u64) -> (r: KisResult<
    TokenInfo,
>)
    ensures
        result_view(r) == issued(access_token@, token_type@, expires_in, now),
        r matches Ok(token) ==> token@.issued_at() == now && token.expires_in == expires_in
            && token.expires_in > 0,
{
    if expires_in == 0 {
        return Err(KisError::Auth("Token response grants no lifetime".to_owned()));
    }
    match now.checked_add(expires_in) {
        None => Err(KisError::Auth("Token lifetime is out of range".to_owned())),
        Some(expires_at) => Ok(TokenInfo { access_token, token_type, expires_in, expires_at }),
    }
}

fn read_grant(doc: &serde_json::Value) -> (r: Result<(String, String, u64), String>)
    ensures
        match r {
            Ok(grant) => token_grant(*doc) == Ok::<_, Seq<char>>((grant.0@, grant.1@, grant.2)),
            Err(what) => token_grant(*doc) == Err::<(Seq<char>, Seq<char>, u64), _>(what@),
        },
{
    let access_token = match required_text(doc, "access_token") {
        Some(s) => s,
        None => {
            return Err("missing field `access_token`".to_owned());
        },
    };
    let token_type = match required_text(doc, "token_type") {
        Some(s) => s,
        None => {
            return Err("missing field `token_type`".to_owned());
        },
    };
    match present(doc, "expires_in") {
        None => Err("missing field `expires_in`".to_owned()),
        Some(lifetime) => match unsigned(lifetime) {
            None => Err("invalid field `expires_in`".to_owned()),
            Some(seconds) => Ok((access_token, token_type, seconds)),
        },
    }
}

/// Reads the reply to a token request that arrived at `now`.
///
/// A token comes of a reply whose transport succeeded and whose body is a
/// JSON object with a token, a token type and a positive lifetime; its expiry
/// is `now` plus the lifetime.  Every other reply is an `Auth` error.
pub fn read_token(reply: &HttpResponse, now: u64) -> (r: KisResult<TokenInfo>)
    ensures
        result_view(r) == token_reply(reply@, now),
{
    if !reply.is_success() {
        return Err(KisError::Auth(failure_text("Token request failed: ", reply)));
    }
    match crate::json::parse(reply.body.as_str()) {
        Err(e) => {
            let detail = crate::json::error_text(&e);
            Err(KisError::Auth(joined("Failed to parse token response: ", detail.as_str())))
        },
        Ok(doc) => match read_grant(&doc) {
            Err(what) => Err(
                KisError::Auth(joined("Failed to parse token response: ", what.as_str())),
            ),
            Ok(grant) => issue(grant.0, grant.1, grant.2, now),
        },
    }
}

/// What asking for a token comes to: the request where there is no reply
/// yet, else what the reply gives at `now`.
pub open spec fn token_step(
    http: HttpClientView,
    config: KisConfigView,
    reply: Option<HttpResponseView>,
    now: u64,
) -> OutcomeView<TokenView> {
    match reply {
        None => OutcomeView::Send(token_request(http, config)),
        Some(r) => OutcomeView::Done(token_reply(r, now)),
    }
}

/// The view of an optional reply.
pub open spec fn opt_reply(reply: Option<&HttpResponse>) -> Option<HttpResponseView> {
    match reply {
        Some(r) => Some(r@),
        None => None,
    }
}

/// Builds the request that asks for a token.
pub fn build_token_request(http: &HttpClient, config: &KisConfig) -> (r: HttpRequest)
    ensures
        r@ == token_request(http@, config@),
{
    let body = credentials_body(config);
    http.post_json("/oauth2/tokenP", body.as_str(), None)
}

/// Asks for a token: hands back the request to send where `reply` is none
/// yet, and reads the reply, which arrived at `now`, where it is there.
pub fn get_token(
    http: &HttpClient,
    config: &KisConfig,
    reply: Option<&HttpResponse>,
    now: u64,
) -> (r: Outcome<TokenInfo>)
    ensures
        r@ == token_step(http@, config@, opt_reply(reply), now),
{
    match reply {
        None => Outcome::Send(build_token_request(http, config)),
        Some(reply) => Outcome::Done(read_token(reply, now)),
    }
}

/// The headers under which a body is sent to be signed.
pub open spec fn hashkey_headers(config: KisConfigView) -> Map<Seq<char>, Seq<char>> {
    Map::<Seq<char>, Seq<char>>::empty().insert("appkey"@, config.app_key).insert(
        "appsecret"@,
        config.app_secret,
    ).insert("Content-Type"@, "application/json"@)
}

/// The request that asks for the signature of `body`: the very body, sent
/// under the application's key and secret, without any token.
pub open spec fn hashkey_request(
    http: HttpClientView,
    config: KisConfigView,
    body: Seq<char>,
) -> HttpRequestView {
    http.post_json("/uapi/hashkey"@, body, Some(hashkey_headers(config)))
}

/// The signature to use where a reply holds `bare` at its top level and
/// `nested` inside its body: the bare one where it is there, else the nested
/// one; none where neither is there.
pub open spec fn chosen_signature(bare: Option<Seq<char>>, nested: Option<Seq<char>>) -> Result<
    Seq<char>,
    KisErrorView,
> {
    match bare {
        Some(s) => Ok(s),
        None => match nested {
            Some(s) => Ok(s),
            None => Err(KisErrorView::Auth("Hashkey not found in response"@)),
        },
    }
}

/// The signature that a parsed reply holds inside its `BODY`.
pub open spec fn nested_signature(doc: serde_json::Value) -> Option<Seq<char>> {
    match json_present(doc, "BODY"@) {
        Some(inner) => optional_of(inner, "HASH"@),
        None => None,
    }
}

/// What the reply to a signing request gives.
pub open spec fn hashkey_reply(reply: HttpResponseView) -> Result<Seq<char>, KisErrorView> {
    if !reply.is_success() {
        Err(KisErrorView::Auth(failure_message("Hashkey request failed: "@, reply)))
    } else {
        match json_document(reply.body) {
            Err(e) => Err(
                KisErrorView::Auth("Failed to parse hashkey response: "@ + json_error_text(e)),
            ),
            Ok(doc) => chosen_signature(optional_of(doc, "HASH"@), nested_signature(doc)),
        }
    }
}

/// Chooses the signature among the two places where a reply may hold one.
///
/// The bare one is taken where it is there, also where both are there; the
/// nested one where only it is there; where neither is there, there is no
/// signature.
pub fn choose_signature(bare: Option<String>, nested: Option<String>) -> (r: KisResult<String>)
    ensures
        result_view(r) == chosen_signature(opt_view(bare), opt_view(nested)),
        bare is Some ==> r == Ok::<_, KisError>(bare->Some_0),
        bare is None && nested is Some ==> r == Ok::<_, KisError>(nested->Some_0),
        r is Err <==> bare is None && nested is None,
{
    match bare {
        Some(s) => Ok(s),
        None => match nested {
            Some(s) => Ok(s),
            None => Err(KisError::Auth("Hashkey not found in response".to_owned())),
        },
    }
}

fn text_or_nothing(value: &serde_json::Value, key: &str) -> (r: Option<String>)
    ensures
        opt_view(r) == optional_of(*value, key@),
{
    match optional_text(value, key) {
        Ok(t) => t,
        Err(_) => None,
    }
}

/// Reads the reply to a signing request.
pub fn read_hashkey(reply: &HttpResponse) -> (r: KisResult<String>)
    ensures
        result_view(r) == hashkey_reply(reply@),
{
    if !reply.is_success() {
        return Err(KisError::Auth(failure_text("Hashkey request failed: ", reply)));
    }
    match crate::json::parse(reply.body.as_str()) {
        Err(e) => {
            let detail = crate::json::error_text(&e);
            Err(KisError::Auth(joined("Failed to parse hashkey response: ", detail.as_str())))
        },
        Ok(doc) => {
            let bare = text_or_nothing(&doc, "HASH");
            let nested = match present(&doc, "BODY") {
                Some(inner) => text_or_nothing(inner, "HASH"),
                None => None,
            };
            choose_signature(bare, nested)
        },
    }
}

/// What asking for a signature comes to.
pub open spec fn hashkey_step(
    http: HttpClientView,
    config: KisConfigView,
    body: Seq<char>,
    reply: Option<HttpResponseView>,
) -> OutcomeView<Seq<char>> {
    match reply {
        None => OutcomeView::Send(hashkey_request(http, config, body)),
        Some(r) => OutcomeView::Done(hashkey_reply(r)),
    }
}

fn signing_headers(config: &KisConfig) -> (r: Headers)
    ensures
        r@ == hashkey_headers(config@),
{
    let mut headers = Headers::new();
    headers.insert("appkey", config.app_key.as_str());
    headers.insert("appsecret", config.app_secret.as_str());
    headers.insert("Content-Type", "application/json");
    headers
}

/// Asks for the signature of `body`, the JSON text of a request that
/// changes something: hands back the request to send where `reply` is none
/// yet, and reads the reply where it is there.
pub fn get_hashkey(
    http: &HttpClient,
    config: &KisConfig,
    body: &str,
    reply: Option<&HttpResponse>,
) -> (r: Outcome<String>)
    ensures
        r@ == hashkey_step(http@, config@, body@, opt_reply(reply)),
{
    match reply {
        None => Outcome::Send(http.post_json("/uapi/hashkey", body, Some(signing_headers(config)))),
        Some(reply) => Outcome::Done(read_hashkey(reply)),
    }
}

/// The request that asks for the key of the WebSocket service.
pub open spec fn websocket_key_request(
    http: HttpClientView,
    config: KisConfigView,
) -> HttpRequestView {
    http.post_json("/oauth2/Approval"@, object_text(credentials_members(config)), None)
}

/// What the reply to a request for the WebSocket key gives.
pub open spec fn websocket_key_reply(reply: HttpResponseView) -> Result<Seq<char>, KisErrorView> {
    if !reply.is_success() {
        Err(KisErrorView::Auth(failure_message("WebSocket approval request failed: "@, reply)))
    } else {
        match json_document(reply.body) {
            Err(e) => Err(
                KisErrorView::Decode {
                    message: "Failed to parse approval response: "@ + json_error_text(e),
                    body: reply.body,
                },
            ),
            Ok(doc) => if required_ok(doc, "approval_key"@) {
                Ok(required_of(doc, "approval_key"@))
            } else {
                Err(
                    KisErrorView::Decode {
                        message: "Failed to parse approval response: missing field `approval_key`"@,
                        body: reply.body,
                    },
                )
            },
        }
    }
}

/// What asking for the WebSocket key comes to.
pub open spec fn websocket_key_step(
    http: HttpClientView,
    config: KisConfigView,
    reply: Option<HttpResponseView>,
) -> OutcomeView<Seq<char>> {
    match reply {
        None => OutcomeView::Send(websocket_key_request(http, config)),
        Some(r) => OutcomeView::Done(websocket_key_reply(r)),
    }
}

/// Reads the reply to a request for the WebSocket key.
pub fn read_websocket_key(reply: &HttpResponse) -> (r: KisResult<String>)
    ensures
        result_view(r) == websocket_key_reply(reply@),
{
    if !reply.is_success() {
        return Err(KisError::Auth(failure_text("WebSocket approval request failed: ", reply)));
    }
    match crate::json::parse(reply.body.as_str()) {
        Err(e) => {
            let detail = crate::json::error_text(&e);
            Err(
                KisError::Decode {
                    message: joined("Failed to parse approval response: ", detail.as_str()),
                    body: reply.body.clone(),
                },
            )
        },
        Ok(doc) => match required_text(&doc, "approval_key") {
            Some(key) => Ok(key),
            None => {
                let message = "Failed to parse approval response: missing field `approval_key`";
                Err(KisError::Decode { message: message.to_owned(), body: reply.body.clone() })
            },
        },
    }
}

/// Asks for the key of the WebSocket service.
pub fn get_websocket_key(
    http: &HttpClient,
    config: &KisConfig,
    reply: Option<&HttpResponse>,
) -> (r: Outcome<String>)
    ensures
        r@ == websocket_key_step(http@, config@, opt_reply(reply)),
{
    match reply {
        None => {
            let body = credentials_body(config);
            Outcome::Send(http.post_json("/oauth2/Approval", body.as_str(), None))
        },
        Some(reply) => Outcome::Done(read_websocket_key(reply)),
    }
}

/// A token acquired at `acquired_at` with a lifetime of `lifetime` seconds
/// runs out at `acquired_at + lifetime`, and it can be used at `now` just when
/// `now` lies more than the safety margin before that: at
/// `acquired_at + lifetime - 301` it can, at `acquired_at + lifetime - 300` and
/// ever after it cannot.
pub proof fn lemma_usable_until_margin(
    access_token: Seq<char>,
    token_type: Seq<char>,
    lifetime: u64,
    acquired_at: u64,
    now: u64,
)
    requires
        issued(access_token, token_type, lifetime, acquired_at) is Ok,
    ensures
        ({
            let token = issued(access_token, token_type, lifetime, acquired_at)->Ok_0;
            &&& token.issued_at() == acquired_at
            &&& token.expires_at == acquired_at + lifetime
            &&& token.is_usable(now as int) <==> now + 300 < acquired_at + lifetime
            &&& token.is_expired(now as int) <==> now + 300 >= acquired_at + lifetime
        }),
{
}

/// The bare signature wins over the nested one, and there is a signature
/// unless both are missing.
pub proof fn lemma_signature_choice(bare: Option<Seq<char>>, nested: Option<Seq<char>>)
    ensures
        bare is Some ==> chosen_signature(bare, nested) == Ok::<_, KisErrorView>(bare->Some_0),
        bare is None && nested is Some ==> chosen_signature(bare, nested) == Ok::<_, KisErrorView>(
            nested->Some_0,
        ),
        chosen_signature(bare, nested) is Err <==> bare is None && nested is None,
{
}

} // verus!
