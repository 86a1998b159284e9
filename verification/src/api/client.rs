//! The client: it plans each request and judges each reply. Sending is left
//! to whoever owns the connection, who performs the planned `Request` and
//! hands back a `TransportOutcome`.

use super::{HeadersView, NotionHeaders, NOTION_API_BASE};
use vstd::prelude::*;
use vstd::string::*;

verus! {

/// The browser that the client passes for.
pub const USER_AGENT: &'static str =
    "Mozilla/5.0 (Macintosh; Intel Mac OS X 10_15_7) AppleWebKit/537.36";

/// How a request is sent.
#[derive(Debug, Clone, Copy, PartialEq, Eq)]
pub enum HttpMethod {
    Get,
    Post,
}

/// Where the caller's payload goes.
#[derive(Debug, Clone, Copy, PartialEq, Eq)]
pub enum Payload {
    /// There is none.
    Absent,
    /// Into the address, as query parameters.
    Query,
    /// Into the body, as JSON.
    Json,
}

/// One header line.
#[derive(Debug, Clone, PartialEq, Eq)]
pub struct Header {
    pub name: String,
    pub value: String,
}

impl View for Header {
    type V = (Seq<char>, Seq<char>);

    open spec fn view(&self) -> (Seq<char>, Seq<char>) {
        (self.name@, self.value@)
    }
}

/// A request, ready to be sent.
#[derive(Debug, Clone, PartialEq, Eq)]
pub struct Request {
    pub method: HttpMethod,
    pub url: String,
    pub headers: Vec<Header>,
    pub payload: Payload,
}

/// The text of a `Request`.
pub struct RequestView {
    pub method: HttpMethod,
    pub url: Seq<char>,
    pub headers: Seq<(Seq<char>, Seq<char>)>,
    pub payload: Payload,
}

impl View for Request {
    type V = RequestView;

    open spec fn view(&self) -> RequestView {
        RequestView {
            method: self.method,
            url: self.url@,
            headers: Seq::new(self.headers@.len(), |i: int| self.headers@[i]@),
            payload: self.payload,
        }
    }
}

/// The header lines that identify the caller: the token as a cookie, the
/// content type, and the acting user where one is chosen.
pub open spec fn auth_headers(h: HeadersView) -> Seq<(Seq<char>, Seq<char>)> {
    let fixed = seq![
        ("Cookie"@, "token_v2="@ + h.token),
        ("Content-Type"@, "application/json"@),
    ];
    match h.user_id {
        Some(user) => fixed.push(("x-notion-active-user-header"@, user)),
        None => fixed,
    }
}

/// The decimal digit `d`, as a character.
pub open spec fn digit_char(d: int) -> char {
    ('0' as int + d) as char
}

/// `text` starts with the three digits of `code` and a space.
pub open spec fn starts_with_code(text: Seq<char>, code: u16) -> bool {
    &&& text.len() >= 4
    &&& text[0] == digit_char(code as int / 100)
    &&& text[1] == digit_char(code as int / 10 % 10)
    &&& text[2] == digit_char(code as int % 10)
    &&& text[3] == ' '
}

/// How `reqwest::StatusCode` writes the status `code`: the number and the
/// standard phrase that goes with it, as in `404 Not Found`.
pub uninterp spec fn status_text(code: u16) -> Seq<char>;

/// `reqwest::StatusCode::from_u16` followed by the status's `Display`.
/// Trusted: the first accepts the codes from 100 to 999 and no others; the
/// second writes the number, a space, and the phrase for that number, which
/// is all that `status_text` stands for.
#[verifier::external_body]
fn status_display(code: u16) -> (r: Option<String>)
    ensures
        r is Some <==> 100 <= code <= 999,
        r is Some ==> r->0@ == status_text(code) && starts_with_code(r->0@, code),
{
    match reqwest::StatusCode::from_u16(code) {
        Ok(status) => Some(status.to_string()),
        Err(_) => None,
    }
}

/// The status of a reply: a number from 100 to 999.
#[derive(Debug, Clone, Copy, PartialEq, Eq)]
pub struct HttpStatus {
    code: u16,
}

impl HttpStatus {
    #[verifier::type_invariant]
    spec fn in_range(self) -> bool {
        100 <= self.code <= 999
    }

    /// The number.
    pub closed spec fn code(self) -> u16 {
        self.code
    }

    /// A status is a success from 200 to 299.
    pub open spec fn success(self) -> bool {
        200 <= self.code() <= 299
    }

    /// The status with number `code`, where there is one.
    pub fn from_u16(code: u16) -> (r: Option<HttpStatus>)
        ensures
            r is Some <==> 100 <= code <= 999,
            r is Some ==> r->0.code() == code,
    {
        if 100 <= code && code <= 999 {
            Some(HttpStatus { code })
        } else {
            None
        }
    }

    pub fn as_u16(&self) -> (r: u16)
        ensures
            r == self.code(),
            100 <= r <= 999,
    {
        proof {
            use_type_invariant(self);
        }
        self.code
    }

    pub fn is_success(&self) -> (r: bool)
        ensures
            r == self.success(),
    {
        200 <= self.code && self.code <= 299
    }

    /// The status as it is written in messages.
    pub fn describe(&self) -> (r: String)
        ensures
            r@ == status_text(self.code()),
            starts_with_code(r@, self.code()),
    {
        proof {
            use_type_invariant(self);
        }
        match status_display(self.code) {
            Some(text) => text,
            None => {
                proof {
                    assert(false);
                }
                String::new()
            },
        }
    }
}

/// What became of a request that was sent.
#[derive(Debug, Clone, PartialEq, Eq)]
pub enum TransportOutcome {
    /// It did not reach the service.
    SendFailed { cause: String },
    /// A reply came, but its body could not be read.
    ReadFailed { cause: String },
    /// A reply came.
    Received { status: HttpStatus, body: String },
}

/// Why a call gave no body.
#[derive(Debug, Clone, PartialEq, Eq)]
pub enum ApiError {
    /// The request did not reach the service.
    Send { cause: String },
    /// The reply's body could not be read.
    Read { cause: String },
    /// The service answered with a status that is no success.
    Status { status: HttpStatus, body: String },
}

/// What a refused request is reported as.
pub open spec fn failure_text(status_line: Seq<char>, body: Seq<char>) -> Seq<char> {
    "Request failed with status "@ + status_line + ": "@ + body
}

/// The report of a request that the service answered with `status_line` and
/// `body`.
pub fn failure_message(status_line: &str, body: &str) -> (r: String)
    ensures
        r@ == failure_text(status_line@, body@),
{
    String::from_str("Request failed with status ").concat(status_line).concat(": ").concat(body)
}

impl ApiError {
    /// What `message` returns.
    pub open spec fn message_text(self) -> Seq<char> {
        match self {
            ApiError::Send { .. } => "Failed to send request"@,
            ApiError::Read { .. } => "Failed to read response"@,
            ApiError::Status { status, body } => failure_text(status_text(status.code()), body@),
        }
    }

    /// The error in one line. For a refused request it holds the status and
    /// the body.
    pub fn message(&self) -> (r: String)
        ensures
            r@ == self.message_text(),
    {
        match self {
            ApiError::Send { .. } => String::from_str("Failed to send request"),
            ApiError::Read { .. } => String::from_str("Failed to read response"),
            ApiError::Status { status, body } => {
                let line = status.describe();
                failure_message(line.as_str(), body.as_str())
            },
        }
    }
}

/// What a call returns for `outcome`: the body of a reply with a success
/// status, and an error for anything else.
pub open spec fn judged(outcome: TransportOutcome) -> Result<String, ApiError> {
    match outcome {
        TransportOutcome::SendFailed { cause } => Err(ApiError::Send { cause }),
        TransportOutcome::ReadFailed { cause } => Err(ApiError::Read { cause }),
        TransportOutcome::Received { status, body } => if status.success() {
            Ok(body)
        } else {
            Err(ApiError::Status { status, body })
        },
    }
}

/// A client of the API on behalf of one caller.
#[derive(Debug, Clone)]
pub struct NotionClient {
    headers: NotionHeaders,
}

impl View for NotionClient {
    type V = HeadersView;

    closed spec fn view(&self) -> HeadersView {
        self.headers@
    }
}

impl NotionClient {
    pub fn new(headers: NotionHeaders) -> (r: Self)
        ensures
            r@ == headers@,
    {
        Self { headers }
    }

    /// A client for the caller whose `token_v2` cookie holds `token`.
    pub fn from_token(token: String) -> (r: Self)
        ensures
            r@ == (HeadersView { token: token@, user_id: None }),
    {
        Self::new(NotionHeaders::new(token))
    }

    /// What identifies the caller.
    pub fn headers(&self) -> (r: &NotionHeaders)
        ensures
            r@ == self@,
    {
        &self.headers
    }

    /// `req` with the caller's header lines behind its own.
    pub fn build_request(&self, req: Request) -> (r: Request)
        ensures
            r@ == (RequestView { headers: req@.headers + auth_headers(self@), ..req@ }),
    {
        let Request { method, url, headers, payload } = req;
        let mut headers = headers;
        let cookie = String::from_str("token_v2=").concat(self.headers.token.as_str());
        headers.push(Header { name: String::from_str("Cookie"), value: cookie });
        headers.push(
            Header {
                name: String::from_str("Content-Type"),
                value: String::from_str("application/json"),
            },
        );
        match &self.headers.user_id {
            Some(user_id) => {
                headers.push(
                    Header {
                        name: String::from_str("x-notion-active-user-header"),
                        value: user_id.clone(),
                    },
                );
            },
            None => {},
        }
        let r = Request { method, url, headers, payload };
        assert(r@.headers =~= req@.headers + auth_headers(self@));
        r
    }

    /// The GET request for the endpoint at `path`. With `has_query` the
    /// caller's payload goes into the address.
    pub fn get(&self, path: &str, has_query: bool) -> (r: Request)
        ensures
            r@ == (RequestView {
                method: HttpMethod::Get,
                url: NOTION_API_BASE@ + path@,
                headers: auth_headers(self@),
                payload: if has_query {
                    Payload::Query
                } else {
                    Payload::Absent
                },
            }),
    {
        let url = String::from_str(NOTION_API_BASE).concat(path);
        let payload = if has_query {
            Payload::Query
        } else {
            Payload::Absent
        };
        let req = Request { method: HttpMethod::Get, url, headers: Vec::new(), payload };
        let r = self.build_request(req);
        assert(r@.headers =~= auth_headers(self@));
        r
    }

    /// The POST request for the endpoint at `path`. The caller's payload goes
    /// into the body.
    pub fn post(&self, path: &str) -> (r: Request)
        ensures
            r@ == (RequestView {
                method: HttpMethod::Post,
                url: NOTION_API_BASE@ + path@,
                headers: auth_headers(self@),
                payload: Payload::Json,
            }),
    {
        let url = String::from_str(NOTION_API_BASE).concat(path);
        let req = Request {
            method: HttpMethod::Post,
            url,
            headers: Vec::new(),
            payload: Payload::Json,
        };
        let r = self.build_request(req);
        assert(r@.headers =~= auth_headers(self@));
        r
    }

    /// The result of a call whose request ended in `outcome`.
    pub fn conclude(outcome: TransportOutcome) -> (r: Result<String, ApiError>)
        ensures
            r == judged(outcome),
    {
        match outcome {
            TransportOutcome::SendFailed { cause } => Err(ApiError::Send { cause }),
            TransportOutcome::ReadFailed { cause } => Err(ApiError::Read { cause }),
            TransportOutcome::Received { status, body } => {
                if status.is_success() {
                    Ok(body)
                } else {
                    Err(ApiError::Status { status, body })
                }
            },
        }
    }
}

} // verus!
