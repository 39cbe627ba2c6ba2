//! Http Client: how a call is prepared and how its answer is read.
//!
//! A call goes in three steps. [`prepare_request`] decodes the parameters and
//! describes the one request to send; the transport sends it; and
//! [`decode_response`] turns the status code, headers and body that came back
//! into the decoded object or a typed error.

use vstd::prelude::*;
use crate::json::{JsonValue, JsonObject, decoded_object, decode_object, texts_of};
use crate::error_midtrans::{ApiError, MidtransError};

verus! {

pub const CONTENT_TYPE: &'static str = "application/json";
pub const ACCEPT: &'static str = "application/json";
pub const USER_AGENT: &'static str = "midtransclient-rust";
pub const VERSION: &'static str = "0.1.0";

/// The member of a response that carries its status code.
pub const STATUS_CODE_KEY: &'static str = "status_code";

/// The value of a decimal digit, or -1 for any other character.
pub open spec fn digit_value(c: char) -> int {
    if c == '0' { 0 }
    else if c == '1' { 1 }
    else if c == '2' { 2 }
    else if c == '3' { 3 }
    else if c == '4' { 4 }
    else if c == '5' { 5 }
    else if c == '6' { 6 }
    else if c == '7' { 7 }
    else if c == '8' { 8 }
    else if c == '9' { 9 }
    else { -1 }
}

/// The decimal digit for `d`, which is below 10.
pub open spec fn digit_char(d: nat) -> char {
    if d == 0 { '0' }
    else if d == 1 { '1' }
    else if d == 2 { '2' }
    else if d == 3 { '3' }
    else if d == 4 { '4' }
    else if d == 5 { '5' }
    else if d == 6 { '6' }
    else if d == 7 { '7' }
    else if d == 8 { '8' }
    else { '9' }
}

/// `n` in decimal, without leading zeros.
pub open spec fn decimal_text(n: nat) -> Seq<char>
    decreases n,
{
    if n < 10 {
        seq![digit_char(n)]
    } else {
        decimal_text(n / 10).push(digit_char(n % 10))
    }
}

pub open spec fn all_digits(s: Seq<char>) -> bool {
    forall|i: int| 0 <= i < s.len() ==> 0 <= #[trigger] digit_value(s[i])
}

/// The number that a string of decimal digits spells.
pub open spec fn digits_value(s: Seq<char>) -> int
    decreases s.len(),
{
    if s.len() == 0 {
        0
    } else {
        digits_value(s.drop_last()) * 10 + digit_value(s.last())
    }
}

/// A text that spells a `u16`: an optional `+`, then one or more decimal digits
/// whose value fits in 16 bits.
pub open spec fn u16_text_value(s: Seq<char>) -> Option<u16> {
    let d = if s.len() > 0 && s[0] == '+' { s.drop_first() } else { s };
    if d.len() > 0 && all_digits(d) && digits_value(d) <= u16::MAX {
        Some(digits_value(d) as u16)
    } else {
        None
    }
}

/// Relies on `str::parse::<u16>`, which std documents as accepting an optional `+`
/// followed by ASCII digits only, and refusing a value that does not fit.
#[verifier::external_body]
fn parse_status_code(text: &str) -> (r: Result<u16, core::num::ParseIntError>)
    ensures
        match r {
            Ok(n) => u16_text_value(text@) == Some(n),
            Err(_) => u16_text_value(text@) is None,
        },
{
    text.parse::<u16>()
}

/// Relies on `ToString` through `Display` for `u16`: the number in decimal, without leading zeros.
#[verifier::external_body]
fn status_code_text(n: u16) -> (r: String)
    ensures
        r@ == decimal_text(n as nat),
{
    n.to_string()
}

/// The response after reconciliation: a body without a `status_code` member
/// gets the transport status code, written in decimal.
pub open spec fn reconciled(m: Map<Seq<char>, Option<Seq<char>>>, status: u16) -> Map<
    Seq<char>,
    Option<Seq<char>>,
> {
    if m.contains_key(STATUS_CODE_KEY@) {
        m
    } else {
        m.insert(STATUS_CODE_KEY@, Some(decimal_text(status as nat)))
    }
}

/// The status code that a reconciled response signals: the number its
/// `status_code` string spells, or 0 where that member is not a string;
/// `None` where the string spells no `u16`.
pub open spec fn status_signal(m: Map<Seq<char>, Option<Seq<char>>>) -> Option<u16> {
    match m[STATUS_CODE_KEY@] {
        Some(t) => u16_text_value(t),
        None => Some(0u16),
    }
}

/// The diagnostic message of an API error.
pub open spec fn api_error_message(code: u16, headers: Seq<char>, body: Seq<char>) -> Seq<char> {
    "Midtrans API is returning API error. \nHTTP status code: "@ + decimal_text(code as nat)
        + ". \nAPI Response: \nHeader "@ + headers + " \nBody "@ + body
}

/// What a call returns, given the answer that came back: the transport
/// status code, the response headers as text, and the body.
pub open spec fn response_outcome(
    status: u16,
    headers: Seq<char>,
    body: Seq<char>,
    r: Result<JsonObject, MidtransError>,
) -> bool {
    match decoded_object(body) {
        None => r matches Err(MidtransError::JsonDecodeError(_)),
        Some(m) => {
            let rec = reconciled(m, status);
            match status_signal(rec) {
                None => r matches Err(MidtransError::ParseError(_)),
                Some(code) => if code >= 400 {
                    &&& r matches Err(MidtransError::ApiError(e))
                    &&& r->Err_0->ApiError_0.status_code == code
                    &&& texts_of(r->Err_0->ApiError_0.response@) == rec
                    &&& r->Err_0->ApiError_0.message@ == api_error_message(code, headers, body)
                } else {
                    &&& r matches Ok(obj)
                    &&& texts_of(r->Ok_0@) == rec
                },
            }
        },
    }
}

proof fn lemma_decimal_digits(n: nat)
    ensures
        decimal_text(n).len() > 0,
        all_digits(decimal_text(n)),
        decimal_text(n)[0] != '+',
        digits_value(decimal_text(n)) == n,
    decreases n,
{
    assert(digit_value(digit_char(n % 10)) == n % 10);
    if n < 10 {
        let t = decimal_text(n);
        assert(t.drop_last() =~= Seq::<char>::empty());
        assert(t.last() == digit_char(n));
        assert(digits_value(t) == digits_value(t.drop_last()) * 10 + digit_value(t.last()));
    } else {
        lemma_decimal_digits(n / 10);
        let t = decimal_text(n);
        assert(t.drop_last() == decimal_text(n / 10));
        assert(t.last() == digit_char(n % 10));
        assert(n == (n / 10) * 10 + n % 10);
        assert(digits_value(t) == digits_value(t.drop_last()) * 10 + digit_value(t.last()));
        assert(t[0] == decimal_text(n / 10)[0]);
        assert forall|i: int| 0 <= i < t.len() implies 0 <= #[trigger] digit_value(t[i]) by {
            if i < t.len() - 1 {
                assert(t[i] == decimal_text(n / 10)[i]);
            }
        }
    }
}

/// A status code written in decimal reads back as the same status code: the
/// `status_code` that a response gets from its transport status classifies it
/// by that status.
pub proof fn lemma_status_code_text_round_trip(n: u16)
    ensures
        u16_text_value(decimal_text(n as nat)) == Some(n),
{
    lemma_decimal_digits(n as nat);
}

/// A body without a `status_code` member gets the transport status code, in
/// decimal, and is classified by it.
pub proof fn lemma_missing_status_code_is_transport_status(
    status: u16,
    headers: Seq<char>,
    body: Seq<char>,
    r: Result<JsonObject, MidtransError>,
)
    requires
        response_outcome(status, headers, body, r),
        decoded_object(body) matches Some(m) && !m.contains_key(STATUS_CODE_KEY@),
    ensures
        status < 400 ==> (r matches Ok(obj) && texts_of(obj@)[STATUS_CODE_KEY@] == Some(
            decimal_text(status as nat),
        )),
        status >= 400 ==> (r matches Err(MidtransError::ApiError(e)) && e.status_code == status
            && texts_of(e.response@)[STATUS_CODE_KEY@] == Some(decimal_text(status as nat))),
{
    lemma_status_code_text_round_trip(status);
}

/// A body that carries its own `status_code` string is classified by it,
/// whatever the transport status was.
pub proof fn lemma_body_status_code_wins(
    status: u16,
    headers: Seq<char>,
    body: Seq<char>,
    r: Result<JsonObject, MidtransError>,
    code: u16,
    text: Seq<char>,
)
    requires
        response_outcome(status, headers, body, r),
        decoded_object(body) matches Some(m) && m.contains_key(STATUS_CODE_KEY@) && m[STATUS_CODE_KEY@]
            == Some(text),
        u16_text_value(text) == Some(code),
    ensures
        code >= 400 ==> (r matches Err(MidtransError::ApiError(e)) && e.status_code == code),
        code < 400 ==> (r matches Ok(obj) && texts_of(obj@)[STATUS_CODE_KEY@] == Some(text)),
{
}

/// Every answer whose body is a JSON object with a well-formed status code
/// (a decimal string, or none) ends in one of two ways: a decoded object whose
/// `status_code` string spells a number below 400, or an API error that
/// carries a code of 400 or more.
pub proof fn lemma_success_or_api_error(
    status: u16,
    headers: Seq<char>,
    body: Seq<char>,
    r: Result<JsonObject, MidtransError>,
)
    requires
        response_outcome(status, headers, body, r),
        decoded_object(body) matches Some(m) && (m.contains_key(STATUS_CODE_KEY@) ==> (
        m[STATUS_CODE_KEY@] matches Some(t) && u16_text_value(t) is Some)),
    ensures
        r matches Ok(obj) ==> (texts_of(obj@)[STATUS_CODE_KEY@] matches Some(t) && (u16_text_value(
            t,
        ) matches Some(c) && c < 400)),
        r matches Err(e) ==> (e matches MidtransError::ApiError(a) && a.status_code >= 400),
{
    lemma_status_code_text_round_trip(status);
}

fn api_error_message_text(code: u16, headers: &str, body: &str) -> (r: String)
    ensures
        r@ == api_error_message(code, headers@, body@),
{
    let mut m = String::from_str("Midtrans API is returning API error. \nHTTP status code: ");
    let c = status_code_text(code);
    m.append(c.as_str());
    m.append(". \nAPI Response: \nHeader ");
    m.append(headers);
    m.append(" \nBody ");
    m.append(body);
    m
}

/// Reads the answer to a call: decodes the body as a JSON object, gives it the
/// transport status code where it carries none, and classifies it by the
/// status code it then carries (400 and above: an API error).
pub fn decode_response(status: u16, headers: &str, body: &str) -> (r: Result<JsonObject, MidtransError>)
    ensures
        response_outcome(status, headers@, body@, r),
{
    let mut obj = match decode_object(body) {
        Ok(o) => o,
        Err(e) => return Err(MidtransError::JsonDecodeError(e)),
    };
    let ghost m = texts_of(obj@);
    if !obj.contains_key(STATUS_CODE_KEY) {
        let code_text = status_code_text(status);
        let ghost t = code_text@;
        obj.insert(String::from_str(STATUS_CODE_KEY), JsonValue::Text(code_text));
        assert(texts_of(obj@) =~= m.insert(STATUS_CODE_KEY@, Some(t)));
    }
    assert(texts_of(obj@) == reconciled(m, status));
    let code: u16 = match obj.get(STATUS_CODE_KEY) {
        Some(JsonValue::Text(t)) => match parse_status_code(t.as_str()) {
            Ok(n) => n,
            Err(e) => return Err(MidtransError::ParseError(e)),
        },
        _ => 0,
    };
    if code >= 400 {
        let message = api_error_message_text(code, headers, body);
        return Err(MidtransError::ApiError(ApiError::new(code, obj, message)));
    }
    Ok(obj)
}

/// The HTTP verbs that the API is called with.
#[derive(Clone, Copy, Debug, PartialEq, Eq, Structural)]
pub enum Method {
    Get,
    Post,
    Patch,
}

/// How the decoded parameters travel: as the URL query of a GET, and as the
/// JSON body of any other request.
pub enum Payload {
    Query(JsonObject),
    Json(JsonObject),
}

pub open spec fn payload_object(p: Payload) -> JsonObject {
    match p {
        Payload::Query(o) => o,
        Payload::Json(o) => o,
    }
}

/// One authenticated request, ready for the transport.
pub struct ApiRequest {
    pub method: Method,
    pub url: String,
    /// Basic authentication: the server key is the user name.
    pub username: String,
    /// Basic authentication: the password is always empty.
    pub password: String,
    pub payload: Payload,
    pub custom_headers: Option<reqwest::header::HeaderMap>,
    pub proxies: Option<reqwest::Proxy>,
}

/// The parameters that a parameter string stands for: none for an empty
/// string, else the JSON object it holds; `None` where it holds no object.
pub open spec fn parameters_of(text: Seq<char>) -> Option<Map<Seq<char>, Option<Seq<char>>>> {
    if text.len() == 0 {
        Some(Map::empty())
    } else {
        decoded_object(text)
    }
}

/// What preparing a call gives: one request to `url` with the given verb,
/// credentials, headers and proxy, carrying the decoded parameters; or a JSON
/// decode error, before anything is sent, where the parameters hold no object.
pub open spec fn request_outcome(
    method: Method,
    server_key: Seq<char>,
    url: Seq<char>,
    parameters: Seq<char>,
    custom_headers: Option<reqwest::header::HeaderMap>,
    proxies: Option<reqwest::Proxy>,
    r: Result<ApiRequest, MidtransError>,
) -> bool {
    match parameters_of(parameters) {
        None => r matches Err(MidtransError::JsonDecodeError(_)),
        Some(p) => {
            &&& r matches Ok(req)
            &&& r->Ok_0.method == method
            &&& r->Ok_0.url@ == url
            &&& r->Ok_0.username@ == server_key
            &&& r->Ok_0.password@ == Seq::<char>::empty()
            &&& (r->Ok_0.payload is Query <==> method == Method::Get)
            &&& texts_of(payload_object(r->Ok_0.payload)@) == p
            &&& r->Ok_0.custom_headers == custom_headers
            &&& r->Ok_0.proxies == proxies
        },
    }
}

/// Prepares one call: decodes `parameters` (an empty string stands for an
/// empty object) and describes the request that carries them.
pub fn prepare_request(
    method: Method,
    server_key: &str,
    api_url: &str,
    parameters: &str,
    custom_headers: Option<reqwest::header::HeaderMap>,
    proxies: Option<reqwest::Proxy>,
) -> (r: Result<ApiRequest, MidtransError>)
    ensures
        request_outcome(method, server_key@, api_url@, parameters@, custom_headers, proxies, r),
        parameters@.len() == 0 ==> (r matches Ok(req) && payload_object(req.payload)@ == Map::<
            Seq<char>,
            JsonValue,
        >::empty()),
        r matches Err(MidtransError::JsonDecodeError(_)) <==> (parameters@.len() > 0
            && decoded_object(parameters@) is None),
        r is Err ==> r matches Err(MidtransError::JsonDecodeError(_)),
{
    let params = if parameters.is_empty() {
        let o = JsonObject::new();
        assert(texts_of(o@) =~= Map::<Seq<char>, Option<Seq<char>>>::empty());
        o
    } else {
        match decode_object(parameters) {
            Ok(o) => o,
            Err(e) => return Err(MidtransError::JsonDecodeError(e)),
        }
    };
    let payload = match method {
        Method::Get => Payload::Query(params),
        _ => Payload::Json(params),
    };
    Ok(
        ApiRequest {
            method,
            url: String::from_str(api_url),
            username: String::from_str(server_key),
            password: String::new(),
            payload,
            custom_headers,
            proxies,
        },
    )
}

/// The `User-Agent` that identifies this library and its version.
pub fn user_agent() -> (r: String)
    ensures
        r@ == USER_AGENT@ + "/"@ + VERSION@,
{
    let mut agent = String::from_str(USER_AGENT);
    agent.append("/");
    agent.append(VERSION);
    agent
}

/// The headers that every request carries unless a custom header of the same
/// name replaces it: JSON content type, JSON accepted, and the user agent.
pub fn default_headers() -> (r: Vec<(String, String)>)
    ensures
        r@.len() == 3,
        r@[0].0@ == "content-type"@ && r@[0].1@ == CONTENT_TYPE@,
        r@[1].0@ == "accept"@ && r@[1].1@ == ACCEPT@,
        r@[2].0@ == "user-agent"@ && r@[2].1@ == USER_AGENT@ + "/"@ + VERSION@,
{
    let mut headers: Vec<(String, String)> = Vec::new();
    headers.push((String::from_str("content-type"), String::from_str(CONTENT_TYPE)));
    headers.push((String::from_str("accept"), String::from_str(ACCEPT)));
    headers.push((String::from_str("user-agent"), user_agent()));
    headers
}

/// Http Client: the transport that sends a prepared request.
pub struct HttpClient;

impl HttpClient {
    pub fn new() -> (r: HttpClientBuilder)
        ensures
            r.custom_headers is None,
            r.proxies is None,
    {
        HttpClientBuilder { custom_headers: None, proxies: None }
    }
}

/// Builder for HttpClient: the custom headers and the proxy of the transport.
pub struct HttpClientBuilder {
    pub custom_headers: Option<reqwest::header::HeaderMap>,
    pub proxies: Option<reqwest::Proxy>,
}

impl HttpClientBuilder {
    pub fn custom_headers(&mut self, headers: reqwest::header::HeaderMap) -> (r: &mut Self)
        ensures
            *r == (HttpClientBuilder { custom_headers: Some(headers), ..*old(self) }),
            *final(self) == *final(r),
    {
        self.custom_headers = Some(headers);
        self
    }

    pub fn proxies(&mut self, proxies: reqwest::Proxy) -> (r: &mut Self)
        ensures
            *r == (HttpClientBuilder { proxies: Some(proxies), ..*old(self) }),
            *final(self) == *final(r),
    {
        self.proxies = Some(proxies);
        self
    }
}

} // verus!
