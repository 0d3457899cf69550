//! Types that all parts of the KIS client share.

use vstd::prelude::*;
use crate::json::{
    is_object, items, json_document, json_error_text, json_is_object, json_items, json_present,
    present, required_of, required_ok, required_text,
};
use crate::http::{HttpRequest, HttpRequestView};
use crate::text::{can_cut, cut, decimal, decimal_text, joined};

verus! {

/// What a client needs to know of the account it acts for.
#[derive(Debug, Clone)]
pub struct KisConfig {
    /// App key, as issued to the application.
    pub app_key: String,
    /// App secret, as issued to the application.
    pub app_secret: String,
    /// Account number: eight digits of the account, then two of the product.
    pub account_no: String,
    /// Whether the account is one of the paper-trading environment.
    pub is_paper: bool,
}

/// What a [`KisConfig`] holds.
pub ghost struct KisConfigView {
    pub app_key: Seq<char>,
    pub app_secret: Seq<char>,
    pub account_no: Seq<char>,
    pub is_paper: bool,
}

impl View for KisConfig {
    type V = KisConfigView;

    open spec fn view(&self) -> KisConfigView {
        KisConfigView {
            app_key: self.app_key@,
            app_secret: self.app_secret@,
            account_no: self.account_no@,
            is_paper: self.is_paper,
        }
    }
}

/// The number of bytes that a text takes in UTF-8.
pub open spec fn byte_len(text: Seq<char>) -> nat {
    vstd::utf8::encode_utf8(text).len()
}

impl KisConfigView {
    /// What is wrong with the configuration, if anything: the first of the
    /// three rules that it breaks.
    pub open spec fn fault(self) -> Option<Seq<char>> {
        if self.app_key.len() == 0 {
            Some("app_key is required"@)
        } else if self.app_secret.len() == 0 {
            Some("app_secret is required"@)
        } else if byte_len(self.account_no) != 10 {
            Some("account_no must be 10 digits"@)
        } else {
            None
        }
    }

    /// Whether the account number can be cut into account and product code:
    /// it can be cut after its eighth and after its tenth byte.
    pub open spec fn account_ready(self) -> bool {
        can_cut(self.account_no, 8) && can_cut(self.account_no, 10)
    }

    /// The account: the first eight bytes of the account number.
    pub open spec fn cano(self) -> Seq<char> {
        cut(self.account_no, 0, 8)
    }

    /// The product code: the ninth and tenth byte of the account number.
    pub open spec fn acnt_prdt_cd(self) -> Seq<char> {
        cut(self.account_no, 8, 10)
    }
}

/// An account number of ten ASCII characters, such as ten digits, can be
/// cut: the account is its first eight characters and the product code its
/// last two.
pub proof fn lemma_ascii_account(config: KisConfigView)
    requires
        vstd::utf8::is_ascii_chars(config.account_no),
        config.account_no.len() >= 10,
    ensures
        config.account_ready(),
        config.cano() == config.account_no.subrange(0, 8),
        config.acnt_prdt_cd() == config.account_no.subrange(8, 10),
{
    crate::text::lemma_cut_ascii(config.account_no, 0, 8);
    crate::text::lemma_cut_ascii(config.account_no, 8, 10);
}

impl KisConfig {
    /// A configuration of these four.
    pub fn new(
        app_key: String,
        app_secret: String,
        account_no: String,
        is_paper: bool,
    ) -> (r: KisConfig)
        ensures
            r.app_key == app_key,
            r.app_secret == app_secret,
            r.account_no == account_no,
            r.is_paper == is_paper,
    {
        KisConfig { app_key, app_secret, account_no, is_paper }
    }

    /// Checks the configuration: both keys must be there, and the account
    /// number must take ten bytes.
    pub fn validate(&self) -> (r: Result<(), String>)
        ensures
            match r {
                Ok(_) => self@.fault() is None,
                Err(message) => self@.fault() == Some(message@),
            },
    {
        if self.app_key.as_str().is_empty() {
            return Err("app_key is required".to_owned());
        }
        if self.app_secret.as_str().is_empty() {
            return Err("app_secret is required".to_owned());
        }
        if self.account_no.as_str().as_bytes().len() != 10 {
            return Err("account_no must be 10 digits".to_owned());
        }
        Ok(())
    }
}

/// Why a call failed.
#[derive(Debug, Clone)]
pub enum KisError {
    /// No credential or no signature could be had.
    Auth(String),
    /// The transport did not succeed: the HTTP status and what the reply
    /// had to say.
    Transport { status: u16, message: String },
    /// The reply could not be read as what was expected: what the reader
    /// had to say, and the body that it could not read.
    Decode { message: String, body: String },
    /// The remote system reported a failure of its own: its message code and
    /// its message, as they came.
    Remote { code: String, message: String },
    /// The remote system reported success and sent no result.
    MissingPayload,
}

/// What a [`KisError`] says.
pub ghost enum KisErrorView {
    Auth(Seq<char>),
    Transport { status: u16, message: Seq<char> },
    Decode { message: Seq<char>, body: Seq<char> },
    Remote { code: Seq<char>, message: Seq<char> },
    MissingPayload,
}

impl View for KisError {
    type V = KisErrorView;

    open spec fn view(&self) -> KisErrorView {
        match self {
            KisError::Auth(m) => KisErrorView::Auth(m@),
            KisError::Transport { status, message } => KisErrorView::Transport {
                status: *status,
                message: message@,
            },
            KisError::Decode { message, body } => KisErrorView::Decode {
                message: message@,
                body: body@,
            },
            KisError::Remote { code, message } => KisErrorView::Remote {
                code: code@,
                message: message@,
            },
            KisError::MissingPayload => KisErrorView::MissingPayload,
        }
    }
}

impl KisErrorView {
    /// The error in words.
    pub open spec fn describe(self) -> Seq<char> {
        match self {
            KisErrorView::Auth(m) => "Auth error: "@ + m,
            KisErrorView::Transport { status, message } => "API error ["@ + decimal(status as nat)
                + "]: "@ + message,
            KisErrorView::Decode { message, body } => "Parse error: "@ + message,
            KisErrorView::Remote { code, message } => "API error ["@ + code + "]: "@ + message,
            KisErrorView::MissingPayload => "Parse error: No output in response"@,
        }
    }
}

impl KisError {
    /// The error in words.
    pub fn describe(&self) -> (r: String)
        ensures
            r@ == self@.describe(),
    {
        match self {
            KisError::Auth(m) => joined("Auth error: ", m.as_str()),
            KisError::Transport { status, message } => {
                let mut r = String::from_str("API error [");
                let code = decimal_text(*status as u64);
                r.append(code.as_str());
                r.append("]: ");
                r.append(message.as_str());
                r
            },
            KisError::Decode { message, body } => joined("Parse error: ", message.as_str()),
            KisError::Remote { code, message } => {
                let mut r = String::from_str("API error [");
                r.append(code.as_str());
                r.append("]: ");
                r.append(message.as_str());
                r
            },
            KisError::MissingPayload => "Parse error: No output in response".to_owned(),
        }
    }
}

/// The result of an operation of the client.
pub type KisResult<T> = Result<T, KisError>;

/// The view of a result whose value has a view.
pub open spec fn result_view<T: View>(r: KisResult<T>) -> Result<T::V, KisErrorView> {
    match r {
        Ok(v) => Ok(v@),
        Err(e) => Err(e@),
    }
}

/// What a resumable operation asks for or hands back: the request that has
/// to be sent before it can go on, or its result.
#[derive(Debug)]
pub enum Outcome<T> {
    /// This request has to be sent; the operation goes on with its reply.
    Send(HttpRequest),
    /// The operation has ended.
    Done(KisResult<T>),
}

/// What an [`Outcome`] says.
pub ghost enum OutcomeView<V> {
    Send(HttpRequestView),
    Done(Result<V, KisErrorView>),
}

impl<T: View> View for Outcome<T> {
    type V = OutcomeView<T::V>;

    open spec fn view(&self) -> OutcomeView<T::V> {
        match self {
            Outcome::Send(request) => OutcomeView::Send(request@),
            Outcome::Done(result) => OutcomeView::Done(result_view(*result)),
        }
    }
}

/// A type of result that can be read from the JSON value of a reply.
pub trait Payload: Sized {
    /// Whether `value` can be read as a result of this type.
    spec fn readable(value: serde_json::Value) -> bool;

    /// Whether `self` holds just what `value` says.
    spec fn holds(&self, value: serde_json::Value) -> bool;

    /// Reads a result of this type from `value`, or nothing where `value`
    /// has not the shape of one.
    fn from_json(value: &serde_json::Value) -> (r: Option<Self>)
        ensures
            r is Some <==> Self::readable(*value),
            r matches Some(p) ==> p.holds(*value),
    ;
}

/// A result of which nothing is read.
#[derive(Debug, Clone, Copy, PartialEq, Eq, Structural)]
pub struct Unread;

impl Payload for Unread {
    open spec fn readable(value: serde_json::Value) -> bool {
        true
    }

    open spec fn holds(&self, value: serde_json::Value) -> bool {
        true
    }

    fn from_json(value: &serde_json::Value) -> (r: Option<Self>) {
        Some(Unread)
    }
}

/// Whether `found` holds one result for each of `values`, in their order.
pub open spec fn all_hold<T: Payload>(found: Seq<T>, values: Seq<serde_json::Value>) -> bool {
    found.len() == values.len() && forall|i: int|
        0 <= i < found.len() ==> (#[trigger] found[i]).holds(values[i])
}

/// Whether each of `values` can be read as a `T`.
pub open spec fn all_readable<T: Payload>(values: Seq<serde_json::Value>) -> bool {
    forall|i: int| 0 <= i < values.len() ==> T::readable(#[trigger] values[i])
}

/// Reads each of `values` as a `T`; nothing where one of them cannot be read.
pub fn read_all<T: Payload>(values: &Vec<serde_json::Value>) -> (r: Option<Vec<T>>)
    ensures
        r is Some <==> all_readable::<T>(values@),
        r matches Some(found) ==> all_hold(found@, values@),
{
    let mut found: Vec<T> = Vec::new();
    let mut i: usize = 0;
    while i < values.len()
        invariant
            i <= values@.len(),
            found@.len() == i,
            forall|k: int| 0 <= k < i ==> T::readable(#[trigger] values@[k]),
            forall|k: int| 0 <= k < i ==> (#[trigger] found@[k]).holds(values@[k]),
        decreases values@.len() - i,
    {
        match T::from_json(&values[i]) {
            Some(p) => {
                found.push(p);
            },
            None => {
                assert(!T::readable(values@[i as int]));
                return None;
            },
        }
        i += 1;
    }
    Some(found)
}

/// The envelope in which the remote system wraps every result.
///
/// The return code alone says whether the call succeeded: a result may be
/// there in a failure and missing in a success.
#[derive(Debug, Clone)]
pub struct KisApiResponse<T> {
    /// Return code: `"0"` for success.
    pub rt_cd: String,
    /// Message code.
    pub msg_cd: String,
    /// Message.
    pub msg1: String,
    /// The single result.
    pub output: Option<T>,
    /// The list of results.
    pub output1: Option<Vec<T>>,
}

/// Whether the envelope `value` can be read with results of type `T`: it is
/// an object, its three codes are strings, and what it holds under `output`
/// and `output1` are a result and an array of results.
pub open spec fn envelope_readable<T: Payload>(value: serde_json::Value) -> bool {
    &&& json_is_object(value)
    &&& required_ok(value, "rt_cd"@)
    &&& required_ok(value, "msg_cd"@)
    &&& required_ok(value, "msg1"@)
    &&& (json_present(value, "output"@) matches Some(single) ==> T::readable(single))
    &&& (json_present(value, "output1"@) matches Some(list) ==> json_items(list) matches Some(
        values,
    ) && all_readable::<T>(values))
}

impl<T: Payload> KisApiResponse<T> {
    /// Whether this envelope holds just what `value` says.
    pub open spec fn holds(&self, value: serde_json::Value) -> bool {
        &&& self.rt_cd@ == required_of(value, "rt_cd"@)
        &&& self.msg_cd@ == required_of(value, "msg_cd"@)
        &&& self.msg1@ == required_of(value, "msg1"@)
        &&& match self.output {
            Some(p) => json_present(value, "output"@) matches Some(single) && p.holds(single),
            None => json_present(value, "output"@) is None,
        }
        &&& match self.output1 {
            Some(found) => json_present(value, "output1"@) matches Some(list) && json_items(
                list,
            ) matches Some(values) && all_hold(found@, values),
            None => json_present(value, "output1"@) is None,
        }
    }

    /// Reads an envelope from the JSON value of a reply, or nothing where the
    /// value has not the shape of one.
    pub fn from_json(value: &serde_json::Value) -> (r: Option<Self>)
        ensures
            r is Some <==> envelope_readable::<T>(*value),
            r matches Some(envelope) ==> envelope.holds(*value),
    {
        if !is_object(value) {
            return None;
        }
        let rt_cd = match required_text(value, "rt_cd") {
            Some(s) => s,
            None => {
                return None;
            },
        };
        let msg_cd = match required_text(value, "msg_cd") {
            Some(s) => s,
            None => {
                return None;
            },
        };
        let msg1 = match required_text(value, "msg1") {
            Some(s) => s,
            None => {
                return None;
            },
        };
        let output = match present(value, "output") {
            Some(single) => match T::from_json(single) {
                Some(p) => Some(p),
                None => {
                    return None;
                },
            },
            None => None,
        };
        let output1 = match present(value, "output1") {
            Some(list) => match items(list) {
                Some(values) => match read_all::<T>(values) {
                    Some(found) => Some(found),
                    None => {
                        return None;
                    },
                },
                None => {
                    return None;
                },
            },
            None => None,
        };
        Some(KisApiResponse { rt_cd, msg_cd, msg1, output, output1 })
    }
}

impl<T> KisApiResponse<T> {
    /// Whether the remote system reported success: the return code is the
    /// string `"0"`.
    pub open spec fn succeeded(&self) -> bool {
        self.rt_cd@ == "0"@
    }

    /// Whether the remote system reported success.
    pub fn is_success(&self) -> (r: bool)
        ensures
            r == self.succeeded(),
    {
        crate::text::same_text(self.rt_cd.as_str(), "0")
    }

    /// The single result of a call.
    ///
    /// A return code other than `"0"` is the remote system's failure, with
    /// its message code and message as they came.  A success without a
    /// result is an error of its own, never a made-up result.
    pub fn into_single(self) -> (r: KisResult<T>)
        ensures
            match r {
                Ok(p) => self.succeeded() && self.output == Some(p),
                Err(e) => if self.succeeded() {
                    self.output is None && e@ == KisErrorView::MissingPayload
                } else {
                    e@ == (KisErrorView::Remote { code: self.msg_cd@, message: self.msg1@ })
                },
            },
    {
        if !self.is_success() {
            return Err(KisError::Remote { code: self.msg_cd, message: self.msg1 });
        }
        match self.output {
            Some(p) => Ok(p),
            None => Err(KisError::MissingPayload),
        }
    }

    /// The list of results of a call.
    ///
    /// A return code other than `"0"` is the remote system's failure.  A
    /// success without a list is a success with no rows.
    pub fn into_list(self) -> (r: KisResult<Vec<T>>)
        ensures
            match r {
                Ok(rows) => self.succeeded() && match self.output1 {
                    Some(list) => rows == list,
                    None => rows@.len() == 0,
                },
                Err(e) => !self.succeeded() && e@ == (KisErrorView::Remote {
                    code: self.msg_cd@,
                    message: self.msg1@,
                }),
            },
    {
        if !self.is_success() {
            return Err(KisError::Remote { code: self.msg_cd, message: self.msg1 });
        }
        match self.output1 {
            Some(list) => Ok(list),
            None => Ok(Vec::new()),
        }
    }
}

/// What is said of a body that is no JSON document: the parser's message
/// behind these words.
pub open spec fn parse_failure(detail: Seq<char>) -> Seq<char> {
    "Failed to parse response: "@ + detail
}

/// What is said of a JSON document that has not the expected shape.
pub open spec fn shape_failure() -> Seq<char> {
    "Failed to parse response: unexpected shape"@
}

/// Whether `result` is what reading the envelope in `body` gives: the
/// envelope where the body is a JSON document of that shape, else a `Decode`
/// error that carries the body.
pub open spec fn envelope_reply<T: Payload>(
    body: Seq<char>,
    result: KisResult<KisApiResponse<T>>,
) -> bool {
    match json_document(body) {
        Err(e) => result matches Err(x) && x@ == (KisErrorView::Decode {
            message: parse_failure(json_error_text(e)),
            body,
        }),
        Ok(doc) => if envelope_readable::<T>(doc) {
            result matches Ok(envelope) && envelope.holds(doc)
        } else {
            result matches Err(x) && x@ == (KisErrorView::Decode { message: shape_failure(), body })
        },
    }
}

/// The failure that an envelope reports: its message code and its message.
pub open spec fn remote_failure(doc: serde_json::Value) -> KisErrorView {
    KisErrorView::Remote { code: required_of(doc, "msg_cd"@), message: required_of(doc, "msg1"@) }
}

/// Whether the envelope `doc` reports success: its return code is the
/// string `"0"`.
pub open spec fn reports_success(doc: serde_json::Value) -> bool {
    required_of(doc, "rt_cd"@) == "0"@
}

/// Whether `result` is what the body of a reply gives for an operation with
/// a single result.
///
/// A body that cannot be read is a `Decode` error.  An envelope whose return
/// code is not `"0"` is the remote system's failure, whatever else it holds.
/// A success without `output` is `MissingPayload`, and a success with one is
/// the result read from it.
pub open spec fn single_reply<T: Payload>(body: Seq<char>, result: KisResult<T>) -> bool {
    match json_document(body) {
        Err(e) => result matches Err(x) && x@ == (KisErrorView::Decode {
            message: parse_failure(json_error_text(e)),
            body,
        }),
        Ok(doc) => if !envelope_readable::<T>(doc) {
            result matches Err(x) && x@ == (KisErrorView::Decode { message: shape_failure(), body })
        } else if !reports_success(doc) {
            result matches Err(x) && x@ == remote_failure(doc)
        } else {
            match json_present(doc, "output"@) {
                None => result matches Err(x) && x@ == KisErrorView::MissingPayload,
                Some(single) => result matches Ok(p) && p.holds(single),
            }
        },
    }
}

/// Whether `result` is what the body of a reply gives for an operation with
/// a list of results.
///
/// As for a single result, except that a success without `output1` is a
/// success with no rows.
pub open spec fn list_reply<T: Payload>(body: Seq<char>, result: KisResult<Vec<T>>) -> bool {
    match json_document(body) {
        Err(e) => result matches Err(x) && x@ == (KisErrorView::Decode {
            message: parse_failure(json_error_text(e)),
            body,
        }),
        Ok(doc) => if !envelope_readable::<T>(doc) {
            result matches Err(x) && x@ == (KisErrorView::Decode { message: shape_failure(), body })
        } else if !reports_success(doc) {
            result matches Err(x) && x@ == remote_failure(doc)
        } else {
            match json_present(doc, "output1"@) {
                None => result matches Ok(rows) && rows@.len() == 0,
                Some(list) => result matches Ok(rows) && all_hold(
                    rows@,
                    json_items(list)->Some_0,
                ),
            }
        },
    }
}

/// Whether `result` is what the body of a reply gives for an operation of
/// which only the success is of interest: `true` for a success, the remote
/// system's failure for anything else.
pub open spec fn plain_reply(body: Seq<char>, result: KisResult<bool>) -> bool {
    match json_document(body) {
        Err(e) => result matches Err(x) && x@ == (KisErrorView::Decode {
            message: parse_failure(json_error_text(e)),
            body,
        }),
        Ok(doc) => if !envelope_readable::<Unread>(doc) {
            result matches Err(x) && x@ == (KisErrorView::Decode { message: shape_failure(), body })
        } else if !reports_success(doc) {
            result matches Err(x) && x@ == remote_failure(doc)
        } else {
            result == Ok::<bool, KisError>(true)
        },
    }
}

/// Whether `out` is what an operation with a single result makes of the
/// step `raw` of its call: the same request, the same error, or the single
/// result read from the body.
pub open spec fn single_outcome<T: Payload>(raw: OutcomeView<Seq<char>>, out: Outcome<T>) -> bool {
    match raw {
        OutcomeView::Send(request) => out matches Outcome::Send(r) && r@ == request,
        OutcomeView::Done(Err(e)) => out matches Outcome::Done(Err(x)) && x@ == e,
        OutcomeView::Done(Ok(body)) => out matches Outcome::Done(result) && single_reply(
            body,
            result,
        ),
    }
}

/// Whether `out` is what an operation with a list of results makes of the
/// step `raw` of its call.
pub open spec fn list_outcome<T: Payload>(
    raw: OutcomeView<Seq<char>>,
    out: Outcome<Vec<T>>,
) -> bool {
    match raw {
        OutcomeView::Send(request) => out matches Outcome::Send(r) && r@ == request,
        OutcomeView::Done(Err(e)) => out matches Outcome::Done(Err(x)) && x@ == e,
        OutcomeView::Done(Ok(body)) => out matches Outcome::Done(result) && list_reply(
            body,
            result,
        ),
    }
}

/// Whether `out` is what an operation of which only the success is of
/// interest makes of the step `raw` of its call.
pub open spec fn plain_outcome(raw: OutcomeView<Seq<char>>, out: Outcome<bool>) -> bool {
    match raw {
        OutcomeView::Send(request) => out matches Outcome::Send(r) && r@ == request,
        OutcomeView::Done(Err(e)) => out matches Outcome::Done(Err(x)) && x@ == e,
        OutcomeView::Done(Ok(body)) => out matches Outcome::Done(result) && plain_reply(
            body,
            result,
        ),
    }
}

/// Reads the envelope in the body of a reply.
pub fn read_envelope<T: Payload>(body: &str) -> (r: KisResult<KisApiResponse<T>>)
    ensures
        envelope_reply(body@, r),
{
    match crate::json::parse(body) {
        Err(e) => {
            let detail = crate::json::error_text(&e);
            Err(
                KisError::Decode {
                    message: joined("Failed to parse response: ", detail.as_str()),
                    body: body.to_owned(),
                },
            )
        },
        Ok(doc) => match KisApiResponse::<T>::from_json(&doc) {
            Some(envelope) => Ok(envelope),
            None => Err(
                KisError::Decode {
                    message: "Failed to parse response: unexpected shape".to_owned(),
                    body: body.to_owned(),
                },
            ),
        },
    }
}

/// Reads the single result in the body of a reply.
pub fn read_single<T: Payload>(body: &str) -> (r: KisResult<T>)
    ensures
        single_reply(body@, r),
{
    match read_envelope::<T>(body) {
        Err(e) => Err(e),
        Ok(envelope) => envelope.into_single(),
    }
}

/// Reads the list of results in the body of a reply.
pub fn read_list<T: Payload>(body: &str) -> (r: KisResult<Vec<T>>)
    ensures
        list_reply(body@, r),
{
    match read_envelope::<T>(body) {
        Err(e) => Err(e),
        Ok(envelope) => envelope.into_list(),
    }
}

/// Reads from the body of a reply whether the operation succeeded.
pub fn read_plain(body: &str) -> (r: KisResult<bool>)
    ensures
        plain_reply(body@, r),
{
    match read_envelope::<Unread>(body) {
        Err(e) => Err(e),
        Ok(envelope) => if envelope.is_success() {
            Ok(true)
        } else {
            Err(KisError::Remote { code: envelope.msg_cd, message: envelope.msg1 })
        },
    }
}

/// Ends a step of an operation with a single result: passes a request or an
/// error on, and reads the result from a body.
pub fn finish_single<T: Payload>(raw: Outcome<String>) -> (out: Outcome<T>)
    ensures
        single_outcome(raw@, out),
{
    match raw {
        Outcome::Send(request) => Outcome::Send(request),
        Outcome::Done(Err(e)) => Outcome::Done(Err(e)),
        Outcome::Done(Ok(body)) => Outcome::Done(read_single::<T>(body.as_str())),
    }
}

/// Ends a step of an operation with a list of results.
pub fn finish_list<T: Payload>(raw: Outcome<String>) -> (out: Outcome<Vec<T>>)
    ensures
        list_outcome(raw@, out),
{
    match raw {
        Outcome::Send(request) => Outcome::Send(request),
        Outcome::Done(Err(e)) => Outcome::Done(Err(e)),
        Outcome::Done(Ok(body)) => Outcome::Done(read_list::<T>(body.as_str())),
    }
}

/// Ends a step of an operation of which only the success is of interest.
pub fn finish_plain(raw: Outcome<String>) -> (out: Outcome<bool>)
    ensures
        plain_outcome(raw@, out),
{
    match raw {
        Outcome::Send(request) => Outcome::Send(request),
        Outcome::Done(Err(e)) => Outcome::Done(Err(e)),
        Outcome::Done(Ok(body)) => Outcome::Done(read_plain(body.as_str())),
    }
}

/// Side of an order.
#[derive(Debug, Clone, Copy, PartialEq, Eq, Structural)]
pub enum OrderSide {
    /// Buy.
    Buy,
    /// Sell.
    Sell,
}

impl OrderSide {
    /// The order division code for domestic stocks: limit order on either side.
    pub open spec fn domestic_code_spec(self) -> Seq<char> {
        match self {
            OrderSide::Buy => "00"@,
            OrderSide::Sell => "00"@,
        }
    }

    /// The order division code for domestic stocks: limit order on either side.
    pub fn domestic_code(&self) -> (r: &'static str)
        ensures
            r@ == self.domestic_code_spec(),
    {
        match self {
            OrderSide::Buy => "00",
            OrderSide::Sell => "00",
        }
    }
}

/// Kind of a domestic stock order.
#[derive(Debug, Clone, Copy, PartialEq, Eq, Structural)]
pub enum OrderType {
    /// Limit order.
    Limit,
    /// Market order.
    Market,
    /// Conditional limit order.
    ConditionalLimit,
    /// Best limit order.
    BestLimit,
    /// Priority limit order.
    PriorityLimit,
    /// Before the market opens.
    PreMarket,
    /// After the market has closed.
    AfterMarket,
}

impl OrderType {
    /// The order division code.
    pub open spec fn code_spec(self) -> Seq<char> {
        match self {
            OrderType::Limit => "00"@,
            OrderType::Market => "01"@,
            OrderType::ConditionalLimit => "02"@,
            OrderType::BestLimit => "03"@,
            OrderType::PriorityLimit => "04"@,
            OrderType::PreMarket => "05"@,
            OrderType::AfterMarket => "06"@,
        }
    }

    /// The order division code.
    pub fn code(&self) -> (r: &'static str)
        ensures
            r@ == self.code_spec(),
    {
        match self {
            OrderType::Limit => "00",
            OrderType::Market => "01",
            OrderType::ConditionalLimit => "02",
            OrderType::BestLimit => "03",
            OrderType::PriorityLimit => "04",
            OrderType::PreMarket => "05",
            OrderType::AfterMarket => "06",
        }
    }
}

/// Overseas market.
#[derive(Debug, Clone, Copy, PartialEq, Eq, Structural)]
pub enum Exchange {
    /// New York Stock Exchange.
    NYSE,
    /// Nasdaq.
    NASDAQ,
    /// NYSE American.
    AMEX,
    /// Hong Kong.
    SEHK,
    /// Shanghai.
    SHAA,
    /// Shenzhen.
    SZAA,
    /// Tokyo.
    TKSE,
    /// Hanoi.
    HASE,
    /// Ho Chi Minh City.
    VNSE,
}

impl Exchange {
    /// The market code.
    pub open spec fn code_spec(self) -> Seq<char> {
        match self {
            Exchange::NYSE => "NYSE"@,
            Exchange::NASDAQ => "NASD"@,
            Exchange::AMEX => "AMEX"@,
            Exchange::SEHK => "SEHK"@,
            Exchange::SHAA => "SHAA"@,
            Exchange::SZAA => "SZAA"@,
            Exchange::TKSE => "TKSE"@,
            Exchange::HASE => "HASE"@,
            Exchange::VNSE => "VNSE"@,
        }
    }

    /// The market code.
    pub fn code(&self) -> (r: &'static str)
        ensures
            r@ == self.code_spec(),
    {
        match self {
            Exchange::NYSE => "NYSE",
            Exchange::NASDAQ => "NASD",
            Exchange::AMEX => "AMEX",
            Exchange::SEHK => "SEHK",
            Exchange::SHAA => "SHAA",
            Exchange::SZAA => "SZAA",
            Exchange::TKSE => "TKSE",
            Exchange::HASE => "HASE",
            Exchange::VNSE => "VNSE",
        }
    }

    /// Whether this is a market of the United States.
    pub open spec fn is_us_spec(self) -> bool {
        self is NYSE || self is NASDAQ || self is AMEX
    }

    /// Whether this is a market of the United States.
    pub fn is_us(&self) -> (r: bool)
        ensures
            r == self.is_us_spec(),
    {
        matches!(self, Exchange::NYSE | Exchange::NASDAQ | Exchange::AMEX)
    }
}

/// How an order was taken.
#[derive(Debug, Clone)]
pub struct OrderResult {
    /// Order number.
    pub order_no: String,
    /// When the order was taken.
    pub order_date: String,
    /// Whether the order was taken.
    pub success: bool,
    /// The remote system's message.
    pub message: String,
}

} // verus!
