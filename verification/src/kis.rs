//! Client of the KIS Open API: domestic stocks, overseas stocks, domestic and
//! overseas futures and options, and domestic bonds.
//!
//! [`KisClient`] owns the session: the configuration, what all requests have in
//! common, and the current token.  Every operation of a market passes through
//! [`KisClient::call`], which signs the body of a request that changes
//! something, sees to it that there is a usable token, builds the request and
//! judges the transport's reply; [`KisClient::call_single`] and
//! [`KisClient::call_list`] go on to read the result from the reply and to
//! judge the remote system's return code.

pub mod auth;
pub mod bond;
pub mod domestic_future;
pub mod domestic_stock;
pub mod overseas_future;
pub mod overseas_stock;
pub mod types;

use vstd::prelude::*;
use crate::headers::Headers;
use crate::http::{
    no_reply_view, HttpClient, HttpClientView, HttpRequest, HttpRequestView, HttpResponse,
    HttpResponseView, default_timeout_spec,
};
use crate::kis::auth::{
    build_token_request, hashkey_headers, hashkey_reply, hashkey_request, hashkey_step, opt_reply,
    opt_token, read_hashkey, read_token, token_reply, token_request, token_step, TokenInfo,
    TokenView,
};
use crate::kis::types::{
    finish_list, finish_single, list_outcome, result_view, single_outcome, KisConfig,
    KisConfigView, KisError, KisErrorView, KisResult, Outcome, OutcomeView, Payload,
};
use crate::text::{byte_slice, can_cut, joined, opt_view, same_text};

verus! {

/// Base address of the production environment.
pub const PROD_BASE_URL: &'static str = "https://openapi.koreainvestment.com:9443";

/// Base address of the paper-trading environment.
pub const VPS_BASE_URL: &'static str = "https://openapivts.koreainvestment.com:29443";

/// The base address of an environment.
pub open spec fn base_url_of(is_paper: bool) -> Seq<char> {
    if is_paper {
        "https://openapivts.koreainvestment.com:29443"@
    } else {
        "https://openapi.koreainvestment.com:9443"@
    }
}

/// The identifier of an operation in an environment: every operation has
/// one for production and one for paper trading.
pub open spec fn tr_id_of(is_paper: bool, prod_id: Seq<char>, paper_id: Seq<char>) -> Seq<char> {
    if is_paper {
        paper_id
    } else {
        prod_id
    }
}

/// The two environments of the remote system.
#[derive(Debug, Clone, Copy, PartialEq, Eq, Structural)]
pub enum Environment {
    /// Real trading.
    Production,
    /// Paper trading.
    Paper,
}

impl Environment {
    /// The base address of the environment.
    pub open spec fn base_url_spec(self) -> Seq<char> {
        base_url_of(self is Paper)
    }

    /// The base address of the environment.
    pub fn base_url(&self) -> (r: &'static str)
        ensures
            r@ == self.base_url_spec(),
    {
        match self {
            Environment::Production => PROD_BASE_URL,
            Environment::Paper => VPS_BASE_URL,
        }
    }

    /// The letter with which the environment's identifiers begin.
    pub open spec fn tr_id_prefix_spec(self) -> Seq<char> {
        match self {
            Environment::Production => "T"@,
            Environment::Paper => "V"@,
        }
    }

    /// The letter with which the environment's identifiers begin.
    pub fn tr_id_prefix(&self) -> (r: &'static str)
        ensures
            r@ == self.tr_id_prefix_spec(),
    {
        match self {
            Environment::Production => "T",
            Environment::Paper => "V",
        }
    }
}

/// One operation of a market, as the client is asked to perform it.
#[derive(Debug, Clone)]
pub enum DomainCall {
    /// An operation that only reads: a GET of `path`, with `query` behind it
    /// where there is one.
    Read { path: String, tr_id: String, query: Option<String> },
    /// An operation that creates, changes or cancels something: a POST of the
    /// JSON text `body` to `path`.
    Mutating { path: String, tr_id: String, body: String },
}

/// What a [`DomainCall`] says.
pub ghost enum DomainCallView {
    Read { path: Seq<char>, tr_id: Seq<char>, query: Option<Seq<char>> },
    Mutating { path: Seq<char>, tr_id: Seq<char>, body: Seq<char> },
}

impl View for DomainCall {
    type V = DomainCallView;

    open spec fn view(&self) -> DomainCallView {
        match self {
            DomainCall::Read { path, tr_id, query } => DomainCallView::Read {
                path: path@,
                tr_id: tr_id@,
                query: opt_view(*query),
            },
            DomainCall::Mutating { path, tr_id, body } => DomainCallView::Mutating {
                path: path@,
                tr_id: tr_id@,
                body: body@,
            },
        }
    }
}

impl DomainCallView {
    /// The identifier of the operation.
    pub open spec fn tr_id(self) -> Seq<char> {
        match self {
            DomainCallView::Read { tr_id, .. } => tr_id,
            DomainCallView::Mutating { tr_id, .. } => tr_id,
        }
    }
}

impl DomainCall {
    /// An operation that only reads.
    pub fn read(path: &str, tr_id: &str, query: Option<&str>) -> (r: DomainCall)
        ensures
            r@ == (DomainCallView::Read {
                path: path@,
                tr_id: tr_id@,
                query: match query {
                    Some(q) => Some(q@),
                    None => None,
                },
            }),
    {
        DomainCall::Read {
            path: path.to_owned(),
            tr_id: tr_id.to_owned(),
            query: match query {
                Some(q) => Some(q.to_owned()),
                None => None,
            },
        }
    }

    /// An operation that changes something.
    pub fn mutating(path: &str, tr_id: &str, body: String) -> (r: DomainCall)
        ensures
            r@ == (DomainCallView::Mutating { path: path@, tr_id: tr_id@, body: body@ }),
    {
        DomainCall::Mutating { path: path.to_owned(), tr_id: tr_id.to_owned(), body }
    }
}

/// A signature and the body that it was given for.
#[derive(Debug)]
struct Signed {
    body: String,
    signature: String,
}

/// How far a call has come.
#[derive(Debug)]
enum Stage {
    Fresh,
    Signing { body: String },
    Acquiring { signed: Option<Signed> },
    Awaiting,
}

/// How far one call has come: which request of it, if any, is on its way.
///
/// A call starts fresh.  Each step of [`KisClient::call`] takes the reply to
/// the request that the step before handed out, and a call that has ended
/// leaves the state fresh for the next one.
#[derive(Debug)]
pub struct CallState {
    stage: Stage,
}

/// A signature and the body that it was given for.
pub ghost struct SignedView {
    pub body: Seq<char>,
    pub signature: Seq<char>,
}

/// What a [`CallState`] says.
pub ghost enum StageView {
    /// Nothing has been sent.
    Fresh,
    /// This body is with the signing endpoint.
    Signing { body: Seq<char> },
    /// A token has been asked for; where the call had a body signed, the
    /// body and its signature are kept.
    Acquiring { signed: Option<SignedView> },
    /// The request of the operation itself is on its way.
    Awaiting,
}

/// The view of an optional signature with its body.
spec fn opt_signed(signed: Option<Signed>) -> Option<SignedView> {
    match signed {
        Some(s) => Some(SignedView { body: s.body@, signature: s.signature@ }),
        None => None,
    }
}

impl View for CallState {
    type V = StageView;

    closed spec fn view(&self) -> StageView {
        match self.stage {
            Stage::Fresh => StageView::Fresh,
            Stage::Signing { body } => StageView::Signing { body: body@ },
            Stage::Acquiring { signed } => StageView::Acquiring { signed: opt_signed(signed) },
            Stage::Awaiting => StageView::Awaiting,
        }
    }
}

impl CallState {
    /// The state of a call of which nothing has been sent.
    pub fn new() -> (r: CallState)
        ensures
            r@ == StageView::Fresh,
    {
        CallState { stage: Stage::Fresh }
    }

    /// Whether no request of a call is on its way.
    pub fn is_fresh(&self) -> (r: bool)
        ensures
            r == (self@ is Fresh),
    {
        matches!(self.stage, Stage::Fresh)
    }
}

/// The session of one account: its configuration, what all its requests
/// have in common, and the token it holds, if any.
pub struct KisClient {
    config: KisConfig,
    http: HttpClient,
    token: Option<TokenInfo>,
}

/// What a [`KisClient`] holds.
pub ghost struct ClientView {
    pub config: KisConfigView,
    pub http: HttpClientView,
    pub token: Option<TokenView>,
}

/// A client and a call after one step, and what the step asks for or hands
/// back.
pub ghost struct CallStep {
    pub client: ClientView,
    pub stage: StageView,
    pub outcome: OutcomeView<Seq<char>>,
}

/// The path with the query behind it, where there is one.
pub open spec fn path_with_query(path: Seq<char>, query: Option<Seq<char>>) -> Seq<char> {
    match query {
        Some(q) => path + "?"@ + q,
        None => path,
    }
}

/// Why a reply that did not succeed failed: its status and what it had to say.
pub open spec fn transport_failure(reply: HttpResponseView) -> KisErrorView {
    KisErrorView::Transport { status: reply.status, message: reply.failure_text() }
}

/// The client that a configuration starts with.
pub open spec fn new_client(config: KisConfigView) -> ClientView {
    ClientView {
        config,
        http: HttpClientView {
            base_url: base_url_of(config.is_paper),
            default_headers: Map::<Seq<char>, Seq<char>>::empty().insert(
                "Content-Type"@,
                "application/json; charset=utf-8"@,
            ).insert("Accept"@, "text/plain"@).insert("charset"@, "UTF-8"@),
            timeout_ms: default_timeout_spec(),
        },
        token: None,
    }
}

impl ClientView {
    /// Whether the client holds a token that can be used at `now`.
    pub open spec fn is_authenticated(self, now: u64) -> bool {
        self.token matches Some(t) && t.is_usable(now as int)
    }

    /// The same client with another token.
    pub open spec fn with_token(self, token: TokenView) -> ClientView {
        ClientView { token: Some(token), ..self }
    }

    /// The headers that every request of an operation carries: the token,
    /// the application's key and secret, the operation's identifier and the
    /// mark of a personal customer.  There are none without a token.
    pub open spec fn common_headers(self, tr_id: Seq<char>) -> Result<
        Map<Seq<char>, Seq<char>>,
        KisErrorView,
    > {
        match self.token {
            None => Err(KisErrorView::Auth("Not authenticated. Call authenticate() first."@)),
            Some(t) => Ok(
                Map::<Seq<char>, Seq<char>>::empty().insert(
                    "authorization"@,
                    "Bearer "@ + t.access_token,
                ).insert("appkey"@, self.config.app_key).insert(
                    "appsecret"@,
                    self.config.app_secret,
                ).insert("tr_id"@, tr_id).insert("custtype"@, "P"@),
            ),
        }
    }

    /// The GET request of a reading operation.
    pub open spec fn get_request(
        self,
        path: Seq<char>,
        tr_id: Seq<char>,
        query: Option<Seq<char>>,
    ) -> Result<HttpRequestView, KisErrorView> {
        match self.common_headers(tr_id) {
            Err(e) => Err(e),
            Ok(headers) => Ok(self.http.get(path_with_query(path, query), Some(headers))),
        }
    }

    /// The POST request of an operation, without a signature.
    pub open spec fn post_request(
        self,
        path: Seq<char>,
        tr_id: Seq<char>,
        body: Seq<char>,
    ) -> Result<
        HttpRequestView,
        KisErrorView,
    > {
        match self.common_headers(tr_id) {
            Err(e) => Err(e),
            Ok(headers) => Ok(self.http.post_json(path, body, Some(headers))),
        }
    }

    /// The request of an operation.  One that changes something carries the
    /// signature of its body: there is no request for it without a
    /// signature, nor with the signature of another body.
    pub open spec fn domain_request(
        self,
        call: DomainCallView,
        signed: Option<SignedView>,
    ) -> Result<HttpRequestView, KisErrorView> {
        match call {
            DomainCallView::Read { path, tr_id, query } => self.get_request(path, tr_id, query),
            DomainCallView::Mutating { path, tr_id, body } => match signed {
                None => Err(KisErrorView::Auth("Request body is not signed"@)),
                Some(s) => if s.body != body {
                    Err(KisErrorView::Auth("Request body is not the one that was signed"@))
                } else {
                    match self.common_headers(tr_id) {
                        Err(e) => Err(e),
                        Ok(headers) => Ok(
                            self.http.post_json(
                                path,
                                body,
                                Some(headers.insert("hashkey"@, s.signature)),
                            ),
                        ),
                    }
                },
            },
        }
    }

    /// The step that hands out the request of the operation itself.
    pub open spec fn dispatch(self, call: DomainCallView, signed: Option<SignedView>) -> CallStep {
        match self.domain_request(call, signed) {
            Ok(request) => CallStep {
                client: self,
                stage: StageView::Awaiting,
                outcome: OutcomeView::Send(request),
            },
            Err(e) => CallStep {
                client: self,
                stage: StageView::Fresh,
                outcome: OutcomeView::Done(Err(e)),
            },
        }
    }

    /// The step that follows signing: the request of the operation where
    /// the client holds a usable token, else the request for a token.
    pub open spec fn authorize(
        self,
        call: DomainCallView,
        signed: Option<SignedView>,
        now: u64,
    ) -> CallStep {
        if self.is_authenticated(now) {
            self.dispatch(call, signed)
        } else {
            CallStep {
                client: self,
                stage: StageView::Acquiring { signed },
                outcome: OutcomeView::Send(token_request(self.http, self.config)),
            }
        }
    }

    /// The step that ends a call with an error.
    pub open spec fn fail(self, error: KisErrorView) -> CallStep {
        CallStep { client: self, stage: StageView::Fresh, outcome: OutcomeView::Done(Err(error)) }
    }

    /// One step of a call.
    ///
    /// `reply` is the reply to the request that the step before handed out;
    /// no reply stands for a host that handed back no data.  A fresh call
    /// that changes something first has its body signed, and the body is
    /// kept with the signature so that the signature goes out with no other
    /// body; a failed signing ends the call.  Then a token is asked for
    /// unless the client holds one
    /// that is usable at `now`; a failed acquisition ends the call, a
    /// successful one replaces the client's token.  Then the request of the
    /// operation goes out, and its reply ends the call: with the body where
    /// the transport succeeded, with the status and the failure's text
    /// where it did not.
    pub open spec fn call(
        self,
        stage: StageView,
        reply: Option<HttpResponseView>,
        now: u64,
        call: DomainCallView,
    ) -> CallStep {
        let arrived = match reply {
            Some(r) => r,
            None => no_reply_view(),
        };
        match stage {
            StageView::Fresh => match call {
                DomainCallView::Mutating { body, .. } => CallStep {
                    client: self,
                    stage: StageView::Signing { body },
                    outcome: OutcomeView::Send(hashkey_request(self.http, self.config, body)),
                },
                DomainCallView::Read { .. } => self.authorize(call, None, now),
            },
            StageView::Signing { body } => match hashkey_reply(arrived) {
                Err(e) => self.fail(e),
                Ok(signature) => self.authorize(call, Some(SignedView { body, signature }), now),
            },
            StageView::Acquiring { signed } => match token_reply(arrived, now) {
                Err(e) => self.fail(e),
                Ok(token) => self.with_token(token).dispatch(call, signed),
            },
            StageView::Awaiting => CallStep {
                client: self,
                stage: StageView::Fresh,
                outcome: OutcomeView::Done(
                    if arrived.is_success() {
                        Ok(arrived.body)
                    } else {
                        Err(transport_failure(arrived))
                    },
                ),
            },
        }
    }

    /// What making sure of a token comes to: nothing to do where the client
    /// holds a usable one, else an acquisition.
    pub open spec fn ensure_auth(self, reply: Option<HttpResponseView>, now: u64) -> (
        ClientView,
        OutcomeView<()>,
    ) {
        if self.is_authenticated(now) {
            (self, OutcomeView::Done(Ok(())))
        } else {
            self.authenticate(reply, now)
        }
    }

    /// What acquiring a token comes to: the request for one where there is
    /// no reply yet; else the client with the new token in place of any old
    /// one, or the unchanged client and the error.
    pub open spec fn authenticate(self, reply: Option<HttpResponseView>, now: u64) -> (
        ClientView,
        OutcomeView<()>,
    ) {
        match token_step(self.http, self.config, reply, now) {
            OutcomeView::Send(request) => (self, OutcomeView::Send(request)),
            OutcomeView::Done(Ok(token)) => (self.with_token(token), OutcomeView::Done(Ok(()))),
            OutcomeView::Done(Err(e)) => (self, OutcomeView::Done(Err(e))),
        }
    }

    /// What one exchange comes to whose request is `request`: the error where
    /// there is no request; the request where there is no reply yet; else the
    /// reply where the transport succeeded, and its failure where it did not.
    pub open spec fn exchange(
        request: Result<HttpRequestView, KisErrorView>,
        reply: Option<HttpResponseView>,
    ) -> OutcomeView<HttpResponseView> {
        match request {
            Err(e) => OutcomeView::Done(Err(e)),
            Ok(r) => match reply {
                None => OutcomeView::Send(r),
                Some(arrived) => OutcomeView::Done(
                    if arrived.is_success() {
                        Ok(arrived)
                    } else {
                        Err(transport_failure(arrived))
                    },
                ),
            },
        }
    }
}

impl View for KisClient {
    type V = ClientView;

    closed spec fn view(&self) -> ClientView {
        ClientView { config: self.config@, http: self.http@, token: opt_token(self.token) }
    }
}

/// The view of an optional reply that is handed over.
pub open spec fn opt_response(reply: Option<HttpResponse>) -> Option<HttpResponseView> {
    match reply {
        Some(r) => Some(r@),
        None => None,
    }
}

fn judged(reply: HttpResponse) -> (r: KisResult<HttpResponse>)
    ensures
        result_view(r) == if reply@.is_success() {
            Ok::<_, KisErrorView>(reply@)
        } else {
            Err::<HttpResponseView, _>(transport_failure(reply@))
        },
{
    if reply.is_success() {
        Ok(reply)
    } else {
        let message = reply.failure_text();
        Err(KisError::Transport { status: reply.status, message })
    }
}

impl KisClient {
    /// A client for `config`, without a token.
    pub fn new(config: KisConfig) -> (r: KisClient)
        ensures
            r@ == new_client(config@),
    {
        let base_url = if config.is_paper {
            VPS_BASE_URL
        } else {
            PROD_BASE_URL
        };
        let http = HttpClient::new(base_url).header(
            "Content-Type",
            "application/json; charset=utf-8",
        ).header("Accept", "text/plain").header("charset", "UTF-8");
        KisClient { config, http, token: None }
    }

    /// Whether the client acts in the paper-trading environment.
    pub fn is_paper(&self) -> (r: bool)
        ensures
            r == self@.config.is_paper,
    {
        self.config.is_paper
    }

    /// The account number as it was configured.
    pub fn account_no(&self) -> (r: &str)
        ensures
            r@ == self@.config.account_no,
    {
        self.config.account_no.as_str()
    }

    /// The account: the first eight bytes of the account number.
    pub fn cano(&self) -> (r: &str)
        requires
            can_cut(self@.config.account_no, 8),
        ensures
            r@ == self@.config.cano(),
    {
        proof {
            vstd::utf8::encode_utf8_valid_utf8(self@.config.account_no);
            vstd::utf8::is_char_boundary_start_end_of_seq(
                vstd::utf8::encode_utf8(self@.config.account_no),
            );
        }
        byte_slice(self.config.account_no.as_str(), 0, 8)
    }

    /// The product code: the ninth and tenth byte of the account number.
    pub fn acnt_prdt_cd(&self) -> (r: &str)
        requires
            self@.config.account_ready(),
        ensures
            r@ == self@.config.acnt_prdt_cd(),
    {
        byte_slice(self.config.account_no.as_str(), 8, 10)
    }

    /// The identifier of an operation in the client's environment.
    pub fn get_future_tr_id<'a>(&self, prod_id: &'a str, paper_id: &'a str) -> (r: &'a str)
        ensures
            r@ == tr_id_of(self@.config.is_paper, prod_id@, paper_id@),
    {
        if self.config.is_paper {
            paper_id
        } else {
            prod_id
        }
    }

    /// Whether the client holds a token that can be used at `now`.
    pub fn is_authenticated(&self, now: u64) -> (r: bool)
        ensures
            r == self@.is_authenticated(now),
    {
        match &self.token {
            Some(t) => t.is_usable(now),
            None => false,
        }
    }

    /// Makes sure that the client holds a token that can be used at `now`.
    ///
    /// Nothing is sent where it does.  Where it does not, this is an
    /// acquisition: see [`KisClient::authenticate`].
    pub fn ensure_auth(&mut self, reply: Option<&HttpResponse>, now: u64) -> (r: Outcome<()>)
        ensures
            (final(self)@, r@) == old(self)@.ensure_auth(opt_reply(reply), now),
    {
        if self.is_authenticated(now) {
            Outcome::Done(Ok(()))
        } else {
            self.authenticate(reply, now)
        }
    }

    /// Acquires a token: hands back the request to send where `reply` is
    /// none yet; where it is there, reads it as having arrived at `now` and
    /// puts the new token in the place of any old one.  A failure leaves the
    /// client as it was.
    pub fn authenticate(&mut self, reply: Option<&HttpResponse>, now: u64) -> (r: Outcome<()>)
        ensures
            (final(self)@, r@) == old(self)@.authenticate(opt_reply(reply), now),
    {
        match crate::kis::auth::get_token(&self.http, &self.config, reply, now) {
            Outcome::Send(request) => Outcome::Send(request),
            Outcome::Done(Ok(token)) => {
                self.token = Some(token);
                Outcome::Done(Ok(()))
            },
            Outcome::Done(Err(e)) => Outcome::Done(Err(e)),
        }
    }

    /// The token that the client holds, if any.
    pub fn access_token(&self) -> (r: Option<&str>)
        ensures
            match r {
                Some(t) => self@.token matches Some(held) && held.access_token == t@,
                None => self@.token is None,
            },
    {
        match &self.token {
            Some(t) => Some(t.access_token.as_str()),
            None => None,
        }
    }

    /// The headers that every request of the operation `tr_id` carries.
    pub fn build_headers(&self, tr_id: &str) -> (r: KisResult<Headers>)
        ensures
            match r {
                Ok(headers) => self@.common_headers(tr_id@) == Ok::<_, KisErrorView>(headers@),
                Err(e) => self@.common_headers(tr_id@) == Err::<Map<Seq<char>, Seq<char>>, _>(e@),
            },
    {
        match &self.token {
            None => Err(
                KisError::Auth("Not authenticated. Call authenticate() first.".to_owned()),
            ),
            Some(token) => {
                let mut headers = Headers::new();
                let bearer = joined("Bearer ", token.access_token.as_str());
                headers.insert("authorization", bearer.as_str());
                headers.insert("appkey", self.config.app_key.as_str());
                headers.insert("appsecret", self.config.app_secret.as_str());
                headers.insert("tr_id", tr_id);
                headers.insert("custtype", "P");
                Ok(headers)
            },
        }
    }

    fn get_request(
        &self,
        path: &str,
        tr_id: &str,
        query: Option<&str>,
    ) -> (r: KisResult<HttpRequest>)
        ensures
            result_view(r) == self@.get_request(
                path@,
                tr_id@,
                match query {
                    Some(q) => Some(q@),
                    None => None,
                },
            ),
    {
        match self.build_headers(tr_id) {
            Err(e) => Err(e),
            Ok(headers) => {
                let url = match query {
                    Some(q) => {
                        let mut url = joined(path, "?");
                        url.append(q);
                        url
                    },
                    None => path.to_owned(),
                };
                Ok(self.http.get(url.as_str(), Some(headers)))
            },
        }
    }

    /// One exchange that reads: hands back the GET request of `path` where
    /// `reply` is none yet, and judges the reply where it is there.  Without
    /// a token there is no request, only the error.
    pub fn get(
        &self,
        path: &str,
        tr_id: &str,
        query: Option<&str>,
        reply: Option<HttpResponse>,
    ) -> (r: Outcome<HttpResponse>)
        ensures
            r@ == ClientView::exchange(
                self@.get_request(
                    path@,
                    tr_id@,
                    match query {
                        Some(q) => Some(q@),
                        None => None,
                    },
                ),
                opt_response(reply),
            ),
    {
        match self.get_request(path, tr_id, query) {
            Err(e) => Outcome::Done(Err(e)),
            Ok(request) => match reply {
                None => Outcome::Send(request),
                Some(arrived) => Outcome::Done(judged(arrived)),
            },
        }
    }

    /// One exchange that posts the JSON text `body`, unsigned: hands back the
    /// POST request where `reply` is none yet, and judges the reply where it
    /// is there.  Without a token there is no request, only the error.
    pub fn post(
        &self,
        path: &str,
        tr_id: &str,
        body: &str,
        reply: Option<HttpResponse>,
    ) -> (r: Outcome<HttpResponse>)
        ensures
            r@ == ClientView::exchange(
                self@.post_request(path@, tr_id@, body@),
                opt_response(reply),
            ),
    {
        match self.build_headers(tr_id) {
            Err(e) => Outcome::Done(Err(e)),
            Ok(headers) => match reply {
                None => Outcome::Send(self.http.post_json(path, body, Some(headers))),
                Some(arrived) => Outcome::Done(judged(arrived)),
            },
        }
    }

    /// Asks for the signature of `body`, the JSON text of a request that
    /// changes something.
    pub fn get_hashkey(&self, body: &str, reply: Option<&HttpResponse>) -> (r: Outcome<String>)
        ensures
            r@ == hashkey_step(self@.http, self@.config, body@, opt_reply(reply)),
    {
        crate::kis::auth::get_hashkey(&self.http, &self.config, body, reply)
    }

    fn dispatch(
        &self,
        state: &mut CallState,
        call: &DomainCall,
        signed: Option<Signed>,
    ) -> (r: Outcome<String>)
        ensures
            (CallStep { client: self@, stage: final(state)@, outcome: r@ }) == self@.dispatch(
                call@,
                opt_signed(signed),
            ),
    {
        let request = match call {
            DomainCall::Read { path, tr_id, query } => {
                let q = match query {
                    Some(q) => Some(q.as_str()),
                    None => None,
                };
                self.get_request(path.as_str(), tr_id.as_str(), q)
            },
            DomainCall::Mutating { path, tr_id, body } => match signed {
                None => Err(KisError::Auth("Request body is not signed".to_owned())),
                Some(s) => if !same_text(s.body.as_str(), body.as_str()) {
                    Err(KisError::Auth("Request body is not the one that was signed".to_owned()))
                } else {
                    match self.build_headers(tr_id.as_str()) {
                        Err(e) => Err(e),
                        Ok(headers) => {
                            let mut headers = headers;
                            headers.insert("hashkey", s.signature.as_str());
                            Ok(self.http.post_json(path.as_str(), body.as_str(), Some(headers)))
                        },
                    }
                },
            },
        };
        match request {
            Ok(request) => {
                state.stage = Stage::Awaiting;
                Outcome::Send(request)
            },
            Err(e) => {
                state.stage = Stage::Fresh;
                Outcome::Done(Err(e))
            },
        }
    }

    fn authorize(
        &self,
        state: &mut CallState,
        call: &DomainCall,
        signed: Option<Signed>,
        now: u64,
    ) -> (r: Outcome<String>)
        ensures
            (CallStep { client: self@, stage: final(state)@, outcome: r@ }) == self@.authorize(
                call@,
                opt_signed(signed),
                now,
            ),
    {
        if self.is_authenticated(now) {
            self.dispatch(state, call, signed)
        } else {
            state.stage = Stage::Acquiring { signed };
            Outcome::Send(build_token_request(&self.http, &self.config))
        }
    }

    /// One step of a call: see [`ClientView::call`].
    ///
    /// `state` says how far the call has come and `reply` is the reply to the
    /// request that the step before handed out, arrived at `now`.  The step
    /// hands back the next request to send, or the end of the call: the body
    /// of the operation's reply, or the error.
    pub fn call(
        &mut self,
        state: &mut CallState,
        reply: Option<HttpResponse>,
        now: u64,
        call: &DomainCall,
    ) -> (r: Outcome<String>)
        ensures
            (CallStep { client: final(self)@, stage: final(state)@, outcome: r@ }) == old(
                self,
            )@.call(old(state)@, opt_response(reply), now, call@),
    {
        let mut stage = Stage::Fresh;
        core::mem::swap(&mut stage, &mut state.stage);
        match stage {
            Stage::Fresh => match call {
                DomainCall::Mutating { path, tr_id, body } => {
                    state.stage = Stage::Signing { body: body.clone() };
                    self.get_hashkey(body.as_str(), None)
                },
                DomainCall::Read { path, tr_id, query } => self.authorize(state, call, None, now),
            },
            Stage::Signing { body } => {
                let arrived = arrived_reply(reply);
                match read_hashkey(&arrived) {
                    Err(e) => Outcome::Done(Err(e)),
                    Ok(signature) => self.authorize(
                        state,
                        call,
                        Some(Signed { body, signature }),
                        now,
                    ),
                }
            },
            Stage::Acquiring { signed } => {
                let arrived = arrived_reply(reply);
                match read_token(&arrived, now) {
                    Err(e) => Outcome::Done(Err(e)),
                    Ok(token) => {
                        self.token = Some(token);
                        self.dispatch(state, call, signed)
                    },
                }
            },
            Stage::Awaiting => {
                let arrived = arrived_reply(reply);
                if arrived.is_success() {
                    Outcome::Done(Ok(arrived.body))
                } else {
                    let message = arrived.failure_text();
                    Outcome::Done(Err(KisError::Transport { status: arrived.status, message }))
                }
            },
        }
    }

    /// One step of a call with a single result: a step of [`KisClient::call`],
    /// and where the step ends the call with a body, the reading of the
    /// result from it.
    ///
    /// A return code other than `"0"` is the remote system's failure; a
    /// success without a result is `MissingPayload`, never a made-up result.
    pub fn call_single<T: Payload>(
        &mut self,
        state: &mut CallState,
        reply: Option<HttpResponse>,
        now: u64,
        call: &DomainCall,
    ) -> (r: Outcome<T>)
        ensures
            ({
                let step = old(self)@.call(old(state)@, opt_response(reply), now, call@);
                &&& final(self)@ == step.client
                &&& final(state)@ == step.stage
                &&& single_outcome(step.outcome, r)
            }),
    {
        finish_single(self.call(state, reply, now, call))
    }

    /// One step of a call with a list of results: a step of
    /// [`KisClient::call`], and where the step ends the call with a body, the
    /// reading of the list from it.
    ///
    /// A return code other than `"0"` is the remote system's failure; a
    /// success without a list is a success with no rows.
    pub fn call_list<T: Payload>(
        &mut self,
        state: &mut CallState,
        reply: Option<HttpResponse>,
        now: u64,
        call: &DomainCall,
    ) -> (r: Outcome<Vec<T>>)
        ensures
            ({
                let step = old(self)@.call(old(state)@, opt_response(reply), now, call@);
                &&& final(self)@ == step.client
                &&& final(state)@ == step.stage
                &&& list_outcome(step.outcome, r)
            }),
    {
        finish_list(self.call(state, reply, now, call))
    }
}

fn arrived_reply(reply: Option<HttpResponse>) -> (r: HttpResponse)
    ensures
        r@ == match reply {
            Some(arrived) => arrived@,
            None => no_reply_view(),
        },
{
    match reply {
        Some(arrived) => arrived,
        None => HttpResponse::no_reply(),
    }
}

/// A client that holds a token usable at `now` is sure of it without
/// sending anything: whatever reply is at hand, the client stays as it is.
pub proof fn lemma_ensure_auth_idle(client: ClientView, reply: Option<HttpResponseView>, now: u64)
    requires
        client.is_authenticated(now),
    ensures
        client.ensure_auth(reply, now) == (client, OutcomeView::<()>::Done(Ok(()))),
{
}

/// A client without a usable token asks for one, once: with no reply at hand
/// it hands out the token request and stays as it is.
pub proof fn lemma_ensure_auth_asks(client: ClientView, now: u64)
    requires
        !client.is_authenticated(now),
    ensures
        client.ensure_auth(None, now) == (
            client,
            OutcomeView::<()>::Send(token_request(client.http, client.config)),
        ),
{
}

/// Making sure of a token twice in a row acquires once: where the first time
/// ends well and leaves a token usable at `now`, the second time at `now`
/// sends nothing and changes nothing.
pub proof fn lemma_ensure_auth_twice(
    client: ClientView,
    reply: Option<HttpResponseView>,
    later: Option<HttpResponseView>,
    now: u64,
)
    requires
        client.ensure_auth(reply, now).1 == OutcomeView::<()>::Done(Ok(())),
        client.ensure_auth(reply, now).0.is_authenticated(now),
    ensures
        client.ensure_auth(reply, now).0.ensure_auth(later, now) == (
            client.ensure_auth(reply, now).0,
            OutcomeView::<()>::Done(Ok(())),
        ),
{
}

/// A fresh call that changes something sends its body to be signed before
/// anything else: no token is asked for and the operation is not requested.
pub proof fn lemma_mutating_call_signs_first(
    client: ClientView,
    reply: Option<HttpResponseView>,
    now: u64,
    call: DomainCallView,
)
    requires
        call is Mutating,
    ensures
        client.call(StageView::Fresh, reply, now, call) == (CallStep {
            client,
            stage: StageView::Signing { body: call->Mutating_body },
            outcome: OutcomeView::Send(
                hashkey_request(client.http, client.config, call->Mutating_body),
            ),
        }),
{
}

/// A call whose signing fails ends with that failure and sends nothing: the
/// request of the operation never goes out, and the client stays as it is.
pub proof fn lemma_failed_signing_sends_nothing(
    client: ClientView,
    body: Seq<char>,
    reply: Option<HttpResponseView>,
    now: u64,
    call: DomainCallView,
)
    requires
        hashkey_reply(
            match reply {
                Some(r) => r,
                None => no_reply_view(),
            },
        ) is Err,
    ensures
        client.call(StageView::Signing { body }, reply, now, call).outcome is Done,
        client.call(StageView::Signing { body }, reply, now, call) == client.fail(
            hashkey_reply(
                match reply {
                    Some(r) => r,
                    None => no_reply_view(),
                },
            )->Err_0,
        ),
{
}

/// No step of a call hands out an unsigned request that changes something:
/// a request of the operation carries, under `hashkey`, a signature that was
/// given for the very body that it carries.
pub proof fn lemma_mutating_request_is_signed(
    client: ClientView,
    call: DomainCallView,
    signed: Option<SignedView>,
)
    requires
        call is Mutating,
        client.dispatch(call, signed).outcome is Send,
    ensures
        signed is Some,
        signed->Some_0.body == call->Mutating_body,
        client.dispatch(call, signed).outcome->Send_0.body == Some(signed->Some_0.body),
        client.dispatch(call, signed).outcome->Send_0.headers.contains_pair(
            "hashkey"@,
            signed->Some_0.signature,
        ),
{
    let headers = client.common_headers(call.tr_id())->Ok_0.insert(
        "hashkey"@,
        signed->Some_0.signature,
    );
    let merged = client.http.merged(Some(headers));
    assert(merged.contains_pair("hashkey"@, signed->Some_0.signature));
}

/// A signature goes out with the body that it was asked for and with no
/// other: where the step that reads the signing reply hands out the request
/// of the operation, that request carries the body that was sent to be
/// signed and the signature that the reply gave.
pub proof fn lemma_signature_stays_with_its_body(
    client: ClientView,
    body: Seq<char>,
    reply: Option<HttpResponseView>,
    now: u64,
    call: DomainCallView,
)
    requires
        call is Mutating,
        client.call(StageView::Signing { body }, reply, now, call).stage is Awaiting,
    ensures
        ({
            let arrived = match reply {
                Some(r) => r,
                None => no_reply_view(),
            };
            let step = client.call(StageView::Signing { body }, reply, now, call);
            &&& hashkey_reply(arrived) is Ok
            &&& step.outcome is Send
            &&& step.outcome->Send_0.body == Some(body)
            &&& step.outcome->Send_0.headers.contains_pair(
                "hashkey"@,
                hashkey_reply(arrived)->Ok_0,
            )
        }),
{
    let arrived = match reply {
        Some(r) => r,
        None => no_reply_view(),
    };
    let signed = Some(SignedView { body, signature: hashkey_reply(arrived)->Ok_0 });
    lemma_mutating_request_is_signed(client, call, signed);
}

/// The first call of a session that changes something makes three requests,
/// in this order: the signing request, the token request, and the request of
/// the operation, which carries the new token and the signature.
pub proof fn lemma_first_mutating_call(
    config: KisConfigView,
    call: DomainCallView,
    signed: HttpResponseView,
    granted: HttpResponseView,
    start: u64,
    signed_at: u64,
    granted_at: u64,
)
    requires
        call is Mutating,
        hashkey_reply(signed) is Ok,
        token_reply(granted, granted_at) is Ok,
    ensures
        ({
            let client = new_client(config);
            let token = token_reply(granted, granted_at)->Ok_0;
            let signature = SignedView {
                body: call->Mutating_body,
                signature: hashkey_reply(signed)->Ok_0,
            };
            let first = client.call(StageView::Fresh, None, start, call);
            let second = first.client.call(first.stage, Some(signed), signed_at, call);
            let third = second.client.call(second.stage, Some(granted), granted_at, call);
            &&& first.outcome == OutcomeView::<Seq<char>>::Send(
                hashkey_request(client.http, client.config, call->Mutating_body),
            )
            &&& second.outcome == OutcomeView::<Seq<char>>::Send(
                token_request(client.http, client.config),
            )
            &&& third.client == client.with_token(token)
            &&& third.stage == StageView::Awaiting
            &&& third.outcome == OutcomeView::<Seq<char>>::Send(
                client.with_token(token).domain_request(call, Some(signature))->Ok_0,
            )
        }),
{
}

/// A later call that changes something, made while the token is still usable,
/// makes two requests: the signing request and the request of the operation.
/// No token is asked for.
pub proof fn lemma_later_mutating_call(
    client: ClientView,
    call: DomainCallView,
    signed: HttpResponseView,
    start: u64,
    signed_at: u64,
)
    requires
        call is Mutating,
        client.is_authenticated(signed_at),
        hashkey_reply(signed) is Ok,
    ensures
        ({
            let signature = SignedView {
                body: call->Mutating_body,
                signature: hashkey_reply(signed)->Ok_0,
            };
            let first = client.call(StageView::Fresh, None, start, call);
            let second = first.client.call(first.stage, Some(signed), signed_at, call);
            &&& first.outcome == OutcomeView::<Seq<char>>::Send(
                hashkey_request(client.http, client.config, call->Mutating_body),
            )
            &&& second.client == client
            &&& second.stage == StageView::Awaiting
            &&& second.outcome == OutcomeView::<Seq<char>>::Send(
                client.domain_request(call, Some(signature))->Ok_0,
            )
        }),
{
}

/// The reply to the request of an operation ends the call and leaves the
/// state fresh: with the body where the transport succeeded, with the
/// transport's failure where it did not.
pub proof fn lemma_reply_ends_call(
    client: ClientView,
    reply: HttpResponseView,
    now: u64,
    call: DomainCallView,
)
    ensures
        client.call(StageView::Awaiting, Some(reply), now, call) == (CallStep {
            client,
            stage: StageView::Fresh,
            outcome: OutcomeView::Done(
                if reply.status >= 200 && reply.status < 300 && reply.error is None {
                    Ok(reply.body)
                } else {
                    Err(transport_failure(reply))
                },
            ),
        }),
{
}

/// Signing needs no session: the signing request goes out under the
/// application's key and secret and carries no token, whether or not the
/// client holds one.
pub proof fn lemma_signing_needs_no_token(
    config: KisConfigView,
    token: Option<TokenView>,
    body: Seq<char>,
)
    ensures
        ({
            let client = ClientView { token, ..new_client(config) };
            let request = hashkey_request(client.http, client.config, body);
            &&& request.body == Some(body)
            &&& request.headers.contains_pair("appkey"@, config.app_key)
            &&& request.headers.contains_pair("appsecret"@, config.app_secret)
            &&& !request.headers.contains_key("authorization"@)
        }),
{
    let client = ClientView { token, ..new_client(config) };
    let merged = client.http.merged(Some(hashkey_headers(config)));
    reveal_strlit("authorization");
    reveal_strlit("Content-Type");
    reveal_strlit("Accept");
    reveal_strlit("charset");
    reveal_strlit("appkey");
    reveal_strlit("appsecret");
    assert("authorization"@.len() == 13);
    assert("Content-Type"@.len() == 12);
    assert("Accept"@.len() == 6);
    assert("charset"@.len() == 7);
    assert("appkey"@.len() == 6);
    assert("appsecret"@.len() == 9);
    assert(hashkey_headers(config).contains_pair("appkey"@, config.app_key));
    assert(hashkey_headers(config).contains_pair("appsecret"@, config.app_secret));
    assert(merged.contains_key("Content-Type"@));
    assert(!merged.contains_key("authorization"@));
}

/// No step of a call changes the configuration of the client or what its
/// requests have in common: the environment and the account are those of its
/// construction.
pub proof fn lemma_call_keeps_config(
    client: ClientView,
    stage: StageView,
    reply: Option<HttpResponseView>,
    now: u64,
    call: DomainCallView,
)
    ensures
        client.call(stage, reply, now, call).client.config == client.config,
        client.call(stage, reply, now, call).client.http == client.http,
{
}

/// Every request of an operation carries the token as a bearer credential,
/// the application's key and secret, the operation's identifier and the mark
/// of a personal customer.
pub proof fn lemma_request_headers(
    client: ClientView,
    call: DomainCallView,
    signed: Option<SignedView>,
)
    requires
        client.dispatch(call, signed).outcome is Send,
    ensures
        ({
            let headers = client.dispatch(call, signed).outcome->Send_0.headers;
            &&& client.token is Some
            &&& headers.contains_pair(
                "authorization"@,
                "Bearer "@ + client.token->Some_0.access_token,
            )
            &&& headers.contains_pair("appkey"@, client.config.app_key)
            &&& headers.contains_pair("appsecret"@, client.config.app_secret)
            &&& headers.contains_pair("tr_id"@, call.tr_id())
            &&& headers.contains_pair("custtype"@, "P"@)
        }),
{
    reveal_strlit("authorization");
    reveal_strlit("appkey");
    reveal_strlit("appsecret");
    reveal_strlit("tr_id");
    reveal_strlit("custtype");
    reveal_strlit("hashkey");
    assert("authorization"@.len() == 13);
    assert("appkey"@.len() == 6);
    assert("appsecret"@.len() == 9);
    assert("tr_id"@.len() == 5);
    assert("custtype"@.len() == 8);
    assert("hashkey"@.len() == 7);
    let common = client.common_headers(call.tr_id())->Ok_0;
    assert(common.contains_pair("authorization"@, "Bearer "@ + client.token->Some_0.access_token));
    assert(common.contains_pair("appkey"@, client.config.app_key));
    assert(common.contains_pair("appsecret"@, client.config.app_secret));
    assert(common.contains_pair("tr_id"@, call.tr_id()));
    assert(common.contains_pair("custtype"@, "P"@));
    match call {
        DomainCallView::Read { .. } => {
            let merged = client.http.merged(Some(common));
            assert(merged.contains_pair("tr_id"@, call.tr_id()));
        },
        DomainCallView::Mutating { .. } => {
            let with_signature = common.insert("hashkey"@, signed->Some_0.signature);
            let merged = client.http.merged(Some(with_signature));
            assert(with_signature.contains_pair("tr_id"@, call.tr_id()));
            assert(merged.contains_pair("tr_id"@, call.tr_id()));
        },
    }
}

impl StageView {
    /// How many requests a call may still hand out: the signing request,
    /// the token request and the request of the operation for a fresh call,
    /// and one less for each of them that is behind it.
    pub open spec fn requests_left(self) -> nat {
        match self {
            StageView::Fresh => 3,
            StageView::Signing { .. } => 2,
            StageView::Acquiring { .. } => 1,
            StageView::Awaiting => 0,
        }
    }
}

/// Nothing is tried twice.  A step that hands out a request leaves fewer
/// requests to come, so that a call sends at most one signing request, one
/// token request and one request of the operation, in this order; and a step
/// that ends the call leaves the state fresh.
pub proof fn lemma_call_makes_progress(
    client: ClientView,
    stage: StageView,
    reply: Option<HttpResponseView>,
    now: u64,
    call: DomainCallView,
)
    ensures
        ({
            let step = client.call(stage, reply, now, call);
            &&& step.outcome is Send ==> step.stage.requests_left() < stage.requests_left()
            &&& step.outcome is Done ==> step.stage is Fresh
            &&& stage is Awaiting ==> step.outcome is Done
        }),
{
}

/// The token changes only where one was asked for and granted: every other
/// step leaves the client as it was.
pub proof fn lemma_call_keeps_token(
    client: ClientView,
    stage: StageView,
    reply: Option<HttpResponseView>,
    now: u64,
    call: DomainCallView,
)
    requires
        !(stage is Acquiring),
    ensures
        client.call(stage, reply, now, call).client == client,
{
}

} // verus!
