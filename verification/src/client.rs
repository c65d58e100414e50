//! The Taiga REST API client: URL normalization, how each call of the API
//! is described as an HTTP request, and how an HTTP response is turned into
//! a result. Sending the requests is left to the caller.
use vstd::prelude::*;

use crate::ids::{NotificationId, ProjectId};
use crate::json::{
    as_u64_model, get_member, json_model, lemma_members_model, members_model, Json, JsonModel,
};
use crate::text::{
    concat, decimal, ends_with, owned, parse_bool, parse_bool_spec, parse_u64, parse_u64_spec,
    str_ends_with, str_eq, trim_end_char, trim_end_matches, trim_start_char, trim_start_matches,
    u64_to_string,
};

verus! {

/// How a list endpoint is paginated: all items at once, or one page.
#[derive(Clone, Copy, Debug, PartialEq, Eq, Structural)]
pub enum PaginationMode {
    All,
    Page(u32),
}

/// Pagination details that Taiga reports in response headers.
#[derive(Debug, Default)]
pub struct Pagination {
    pub paginated: Option<bool>,
    pub page_size: Option<u64>,
    pub count: Option<u64>,
    pub current: Option<u64>,
    pub next: Option<String>,
    pub previous: Option<String>,
}

/// The items of a list endpoint with the pagination details of the response.
#[derive(Debug)]
pub struct ListResponse<T> {
    pub items: Vec<T>,
    pub pagination: Option<Pagination>,
}

/// The ways a call of the Taiga API can fail.
#[derive(Debug)]
pub enum TaigaError {
    InvalidUrl(String),
    Transport { message: String },
    Decode(String),
    Unauthorized { message: String },
    Forbidden { message: String },
    NotFound { message: String },
    Conflict { message: String },
    RateLimited { message: String, retry_after: Option<String> },
    ClientResponse { status: u16, message: String },
    ServerResponse { status: u16, message: String },
    UnexpectedStatus { status: u16, message: String },
    UnsupportedEndpoint(String),
}

/// The model of a [`TaigaError`].
pub enum ErrorView {
    InvalidUrl(Seq<char>),
    Transport(Seq<char>),
    Decode(Seq<char>),
    Unauthorized(Seq<char>),
    Forbidden(Seq<char>),
    NotFound(Seq<char>),
    Conflict(Seq<char>),
    RateLimited(Seq<char>, Option<Seq<char>>),
    ClientResponse(u16, Seq<char>),
    ServerResponse(u16, Seq<char>),
    UnexpectedStatus(u16, Seq<char>),
    UnsupportedEndpoint(Seq<char>),
}

/// The characters of an optional string.
pub open spec fn opt_str(o: Option<String>) -> Option<Seq<char>> {
    match o {
        Some(s) => Some(s@),
        None => None,
    }
}

impl View for TaigaError {
    type V = ErrorView;

    open spec fn view(&self) -> ErrorView {
        match self {
            TaigaError::InvalidUrl(m) => ErrorView::InvalidUrl(m@),
            TaigaError::Transport { message } => ErrorView::Transport(message@),
            TaigaError::Decode(m) => ErrorView::Decode(m@),
            TaigaError::Unauthorized { message } => ErrorView::Unauthorized(message@),
            TaigaError::Forbidden { message } => ErrorView::Forbidden(message@),
            TaigaError::NotFound { message } => ErrorView::NotFound(message@),
            TaigaError::Conflict { message } => ErrorView::Conflict(message@),
            TaigaError::RateLimited { message, retry_after } => ErrorView::RateLimited(message@, opt_str(*retry_after)),
            TaigaError::ClientResponse { status, message } => ErrorView::ClientResponse(*status, message@),
            TaigaError::ServerResponse { status, message } => ErrorView::ServerResponse(*status, message@),
            TaigaError::UnexpectedStatus { status, message } => ErrorView::UnexpectedStatus(*status, message@),
            TaigaError::UnsupportedEndpoint(m) => ErrorView::UnsupportedEndpoint(m@),
        }
    }
}

/// The model of a [`Pagination`].
pub struct PaginationView {
    pub paginated: Option<bool>,
    pub page_size: Option<u64>,
    pub count: Option<u64>,
    pub current: Option<u64>,
    pub next: Option<Seq<char>>,
    pub previous: Option<Seq<char>>,
}

impl View for Pagination {
    type V = PaginationView;

    open spec fn view(&self) -> PaginationView {
        PaginationView {
            paginated: self.paginated,
            page_size: self.page_size,
            count: self.count,
            current: self.current,
            next: opt_str(self.next),
            previous: opt_str(self.previous),
        }
    }
}

/// The headers of an HTTP response that the client reads, each as its text
/// when the response has it and it is visible ASCII.
#[derive(Debug, Default)]
pub struct ResponseHeaders {
    pub retry_after: Option<String>,
    pub paginated: Option<String>,
    pub paginated_by: Option<String>,
    pub pagination_count: Option<String>,
    pub pagination_current: Option<String>,
    pub pagination_next: Option<String>,
    pub pagination_prev: Option<String>,
}

pub open spec fn opt_parse_bool(o: Option<String>) -> Option<bool> {
    match o {
        Some(s) => parse_bool_spec(s@),
        None => None,
    }
}

pub open spec fn opt_parse_u64(o: Option<String>) -> Option<u64> {
    match o {
        Some(s) => parse_u64_spec(s@),
        None => None,
    }
}

/// The pagination that the headers report: each header that is present and
/// well formed fills its field; `None` when no field is filled.
pub open spec fn pagination_spec(h: ResponseHeaders) -> Option<PaginationView> {
    let paginated = opt_parse_bool(h.paginated);
    let page_size = opt_parse_u64(h.paginated_by);
    let count = opt_parse_u64(h.pagination_count);
    let current = opt_parse_u64(h.pagination_current);
    let next = opt_str(h.pagination_next);
    let previous = opt_str(h.pagination_prev);
    if paginated is None && page_size is None && count is None && current is None && next is None
        && previous is None {
        None
    } else {
        Some(PaginationView { paginated, page_size, count, current, next, previous })
    }
}

fn parse_opt_bool(o: &Option<String>) -> (r: Option<bool>)
    ensures
        r == opt_parse_bool(*o),
{
    match o {
        Some(s) => parse_bool(s.as_str()),
        None => None,
    }
}

fn parse_opt_u64(o: &Option<String>) -> (r: Option<u64>)
    ensures
        r == opt_parse_u64(*o),
{
    match o {
        Some(s) => parse_u64(s.as_str()),
        None => None,
    }
}

/// Reads the pagination headers of a list response.
pub fn parse_pagination(headers: &ResponseHeaders) -> (p: Option<Pagination>)
    ensures
        match p {
            Some(p) => pagination_spec(*headers) == Some(p@),
            None => pagination_spec(*headers) is None,
        },
{
    let paginated = parse_opt_bool(&headers.paginated);
    let page_size = parse_opt_u64(&headers.paginated_by);
    let count = parse_opt_u64(&headers.pagination_count);
    let current = parse_opt_u64(&headers.pagination_current);
    let next = headers.pagination_next.clone();
    let previous = headers.pagination_prev.clone();
    if paginated.is_none() && page_size.is_none() && count.is_none() && current.is_none()
        && next.is_none() && previous.is_none() {
        None
    } else {
        Some(Pagination { paginated, page_size, count, current, next, previous })
    }
}

/// The string member `key` that serde_json reads from the JSON text `text`
/// (see [`string_member`]).
pub uninterp spec fn json_string_member(text: Seq<char>, key: Seq<char>) -> Option<Seq<char>>;

/// Parses `text` with `serde_json::from_str` into a JSON value and returns
/// the member `key` of that value when it is an object whose member is a
/// JSON string. Invalid JSON, a non-object, a missing member or a member that
/// is not a string give `None`. The contract names the result: it is a
/// function of the two texts.
#[verifier::external_body]
pub(crate) fn string_member(text: &str, key: &str) -> (r: Option<String>)
    ensures
        opt_str(r) == json_string_member(text@, key@),
{
    serde_json::from_str::<serde_json::Value>(text)
        .ok()
        .and_then(|v| v.get(key).and_then(serde_json::Value::as_str).map(str::to_owned))
}

/// The message of an error response: its `_error_message` member when the
/// body is a JSON object that has one, otherwise the whole body.
pub open spec fn error_message_spec(text: Seq<char>) -> Seq<char> {
    match json_string_member(text, "_error_message"@) {
        Some(m) => m,
        None => text,
    }
}

/// The error that an unsuccessful status maps to.
pub open spec fn status_error_spec(status: u16, message: Seq<char>, retry_after: Option<Seq<char>>) -> ErrorView {
    if status == 401 {
        ErrorView::Unauthorized(message)
    } else if status == 403 {
        ErrorView::Forbidden(message)
    } else if status == 404 {
        ErrorView::NotFound(message)
    } else if status == 409 {
        ErrorView::Conflict(message)
    } else if status == 429 {
        ErrorView::RateLimited(message, retry_after)
    } else if 400 <= status < 500 {
        ErrorView::ClientResponse(status, message)
    } else if 500 <= status < 600 {
        ErrorView::ServerResponse(status, message)
    } else {
        ErrorView::UnexpectedStatus(status, message)
    }
}

/// The reason phrase of an HTTP status (see [`status_reason`]).
pub uninterp spec fn http_reason(status: u16) -> Option<Seq<char>>;

/// The canonical reason phrase of an HTTP status, as
/// `reqwest::StatusCode::canonical_reason` gives it (`None` for a code it
/// has none for, or one outside 100 to 999). The contract names the result,
/// a function of the code.
#[verifier::external_body]
fn status_reason(status: u16) -> (r: Option<String>)
    ensures
        opt_str(r) == http_reason(status),
{
    reqwest::StatusCode::from_u16(status).ok().and_then(|s| s.canonical_reason()).map(str::to_owned)
}

/// How an HTTP status is shown: the code and its reason phrase.
pub open spec fn status_text(status: u16) -> Seq<char> {
    decimal(status as nat) + " "@ + match http_reason(status) {
        Some(r) => r,
        None => "<unknown status code>"@,
    }
}

fn status_string(status: u16) -> (s: String)
    ensures
        s@ == status_text(status),
{
    let code = u64_to_string(status as u64);
    let head = concat(code.as_str(), " ");
    match status_reason(status) {
        Some(r) => concat(head.as_str(), r.as_str()),
        None => concat(head.as_str(), "<unknown status code>"),
    }
}

/// The text of an error, as it is reported.
pub open spec fn error_text(e: ErrorView) -> Seq<char> {
    match e {
        ErrorView::InvalidUrl(m) => "invalid Taiga API URL: "@ + m,
        ErrorView::Transport(m) => "HTTP transport failure: "@ + m,
        ErrorView::Decode(m) => "response decoding failure: "@ + m,
        ErrorView::Unauthorized(m) => "authentication failed: "@ + m,
        ErrorView::Forbidden(m) => "permission denied: "@ + m,
        ErrorView::NotFound(m) => "resource not found: "@ + m,
        ErrorView::Conflict(m) => "optimistic concurrency conflict: "@ + m,
        ErrorView::RateLimited(m, _) => "Taiga rate limit reached: "@ + m,
        ErrorView::ClientResponse(s, m) => "Taiga client error "@ + status_text(s) + ": "@ + m,
        ErrorView::ServerResponse(s, m) => "Taiga server error "@ + status_text(s) + ": "@ + m,
        ErrorView::UnexpectedStatus(s, m) => "unexpected HTTP status "@ + status_text(s) + ": "@ + m,
        ErrorView::UnsupportedEndpoint(m) => "Taiga endpoint is unavailable: "@ + m,
    }
}

impl TaigaError {
    /// The text of the error, as it is reported.
    pub fn message(&self) -> (s: String)
        ensures
            s@ == error_text(self@),
    {
        match self {
            TaigaError::InvalidUrl(m) => concat("invalid Taiga API URL: ", m.as_str()),
            TaigaError::Transport { message } => concat("HTTP transport failure: ", message.as_str()),
            TaigaError::Decode(m) => concat("response decoding failure: ", m.as_str()),
            TaigaError::Unauthorized { message } => concat("authentication failed: ", message.as_str()),
            TaigaError::Forbidden { message } => concat("permission denied: ", message.as_str()),
            TaigaError::NotFound { message } => concat("resource not found: ", message.as_str()),
            TaigaError::Conflict { message } => concat("optimistic concurrency conflict: ", message.as_str()),
            TaigaError::RateLimited { message, .. } => concat("Taiga rate limit reached: ", message.as_str()),
            TaigaError::ClientResponse { status, message } => {
                let head = concat("Taiga client error ", status_string(*status).as_str());
                let head = concat(head.as_str(), ": ");
                concat(head.as_str(), message.as_str())
            },
            TaigaError::ServerResponse { status, message } => {
                let head = concat("Taiga server error ", status_string(*status).as_str());
                let head = concat(head.as_str(), ": ");
                concat(head.as_str(), message.as_str())
            },
            TaigaError::UnexpectedStatus { status, message } => {
                let head = concat("unexpected HTTP status ", status_string(*status).as_str());
                let head = concat(head.as_str(), ": ");
                concat(head.as_str(), message.as_str())
            },
            TaigaError::UnsupportedEndpoint(m) => concat("Taiga endpoint is unavailable: ", m.as_str()),
        }
    }
}

/// What the HTTP client reports of a request that got no response.
#[derive(Debug)]
pub struct TransportFailure {
    /// The request timed out.
    pub timeout: bool,
    /// Connecting failed (connection, DNS, proxy or TLS handshake).
    pub connect: bool,
    /// The request could not be built.
    pub request: bool,
    /// The body of the response could not be read.
    pub decode: bool,
    /// The client's own description of the failure.
    pub detail: String,
}

/// The category of a transport failure, the first that applies.
pub open spec fn transport_category(f: TransportFailure) -> Seq<char> {
    if f.timeout {
        "request timed out after 30 seconds"@
    } else if f.connect {
        "connection, DNS, proxy, or TLS handshake failed"@
    } else if f.request {
        "request construction failed"@
    } else if f.decode {
        "response body transfer failed"@
    } else {
        "HTTP request failed"@
    }
}

/// The error of a request that got no response: its category, then the
/// client's description.
pub fn transport_error(failure: TransportFailure) -> (e: TaigaError)
    ensures
        e@ == ErrorView::Transport(transport_category(failure) + ": "@ + failure.detail@),
{
    let category = if failure.timeout {
        "request timed out after 30 seconds"
    } else if failure.connect {
        "connection, DNS, proxy, or TLS handshake failed"
    } else if failure.request {
        "request construction failed"
    } else if failure.decode {
        "response body transfer failed"
    } else {
        "HTTP request failed"
    };
    let head = concat(category, ": ");
    TaigaError::Transport { message: concat(head.as_str(), failure.detail.as_str()) }
}

/// Whether an HTTP status is a success (2xx).
pub open spec fn is_success_spec(status: u16) -> bool {
    200 <= status < 300
}

/// Maps an unsuccessful response to the error it stands for.
pub fn map_error(status: u16, text: &str, retry_after: Option<String>) -> (e: TaigaError)
    ensures
        e@ == status_error_spec(status, error_message_spec(text@), opt_str(retry_after)),
{
    let message = match string_member(text, "_error_message") {
        Some(m) => m,
        None => owned(text),
    };
    if status == 401 {
        TaigaError::Unauthorized { message }
    } else if status == 403 {
        TaigaError::Forbidden { message }
    } else if status == 404 {
        TaigaError::NotFound { message }
    } else if status == 409 {
        TaigaError::Conflict { message }
    } else if status == 429 {
        TaigaError::RateLimited { message, retry_after }
    } else if 400 <= status && status < 500 {
        TaigaError::ClientResponse { status, message }
    } else if 500 <= status && status < 600 {
        TaigaError::ServerResponse { status, message }
    } else {
        TaigaError::UnexpectedStatus { status, message }
    }
}

/// Checks the status of a response whose body is decoded by the caller:
/// an unsuccessful status gives its error; a successful one gives the
/// pagination headers when the call was a paginated list.
pub fn check_response(status: u16, text: &str, headers: &ResponseHeaders, paginated: bool) -> (r: Result<Option<Pagination>, TaigaError>)
    ensures
        !is_success_spec(status) ==> (r matches Err(e) && e@ == status_error_spec(status, error_message_spec(text@), opt_str(headers.retry_after))),
        is_success_spec(status) && paginated ==> (r matches Ok(p) && match p {
            Some(p) => pagination_spec(*headers) == Some(p@),
            None => pagination_spec(*headers) is None,
        }),
        is_success_spec(status) && !paginated ==> (r matches Ok(p) && p is None),
{
    if !(200 <= status && status < 300) {
        return Err(map_error(status, text, headers.retry_after.clone()));
    }
    if paginated {
        Ok(parse_pagination(headers))
    } else {
        Ok(None)
    }
}

/// Checks the status of a response that carries no result.
pub fn check_empty_response(status: u16, text: &str) -> (r: Result<(), TaigaError>)
    ensures
        is_success_spec(status) ==> r is Ok,
        !is_success_spec(status) ==> (r matches Err(e) && e@ == status_error_spec(status, error_message_spec(text@), None)),
{
    if 200 <= status && status < 300 {
        Ok(())
    } else {
        Err(map_error(status, text, None))
    }
}

/// Plain values read from a URL that `url::Url::parse` accepted.
pub struct UrlParts {
    pub scheme: String,
    pub username: String,
    pub has_password: bool,
    pub has_query: bool,
    pub has_fragment: bool,
    pub path: String,
}

/// What `url::Url::parse` gives for a text: the scheme, the user name,
/// whether a password, a query and a fragment are present, and the path;
/// or the text of the parse error.
pub uninterp spec fn parsed_url(input: Seq<char>) -> Result<(Seq<char>, Seq<char>, bool, bool, bool, Seq<char>), Seq<char>>;

/// The serialization of the URL parsed from `input` after `set_path(path)`.
pub uninterp spec fn url_with_path(input: Seq<char>, path: Seq<char>) -> Seq<char>;

/// The serialization of the URL that `join(relative)` gives on the URL
/// parsed from `base`, or the text of the error.
pub uninterp spec fn joined_url(base: Seq<char>, relative: Seq<char>) -> Result<Seq<char>, Seq<char>>;

/// Parses an absolute URL with `url::Url::parse` and reads its scheme,
/// user name, path and whether it has a password, a query or a fragment.
/// The contract names the result; it is a function of the text.
#[verifier::external_body]
fn parse_url(input: &str) -> (r: Result<UrlParts, String>)
    ensures
        match r {
            Ok(p) => parsed_url(input@) == Ok::<_, Seq<char>>((p.scheme@, p.username@, p.has_password, p.has_query, p.has_fragment, p.path@)),
            Err(e) => parsed_url(input@) == Err::<(Seq<char>, Seq<char>, bool, bool, bool, Seq<char>), _>(e@),
        },
{
    match url::Url::parse(input) {
        Ok(u) => Ok(UrlParts {
            scheme: u.scheme().to_owned(),
            username: u.username().to_owned(),
            has_password: u.password().is_some(),
            has_query: u.query().is_some(),
            has_fragment: u.fragment().is_some(),
            path: u.path().to_owned(),
        }),
        Err(e) => Err(e.to_string()),
    }
}

/// Parses `input` with `url::Url::parse` (which succeeds, by the
/// precondition), replaces its path with `Url::set_path(path)` and returns
/// the serialization. The contract names the result.
#[verifier::external_body]
fn set_url_path(input: &str, path: &str) -> (r: String)
    requires
        parsed_url(input@) is Ok,
    ensures
        r@ == url_with_path(input@, path@),
{
    let mut u = url::Url::parse(input).expect("the URL was parsed before");
    u.set_path(path);
    u.to_string()
}

/// Resolves `relative` against the URL parsed from `base` with
/// `url::Url::join` and returns the serialization of the result, or the
/// text of the parse error. The contract names the result.
#[verifier::external_body]
fn join_url(base: &str, relative: &str) -> (r: Result<String, String>)
    ensures
        match r {
            Ok(u) => joined_url(base@, relative@) == Ok::<_, Seq<char>>(u@),
            Err(e) => joined_url(base@, relative@) == Err::<Seq<char>, _>(e@),
        },
{
    url::Url::parse(base)
        .and_then(|b| b.join(relative))
        .map(|u| u.to_string())
        .map_err(|e| e.to_string())
}

/// The path that an API URL is normalized to: trailing slashes removed,
/// `/api/v1` completed (after `/api`) or appended (after anything else),
/// leading slashes removed and one trailing slash added.
pub open spec fn api_base_path(path: Seq<char>) -> Seq<char> {
    let p = trim_end_char(path, '/');
    let api = if ends_with(p, "/api/v1"@) {
        p
    } else if ends_with(p, "/api"@) {
        p + "/v1"@
    } else {
        p + "/api/v1"@
    };
    trim_start_char(api, '/') + "/"@
}

proof fn lemma_trim_start_keeps_suffix(s: Seq<char>, c: char, t: Seq<char>)
    requires
        ends_with(s, t),
        t.len() > 0,
        t[0] != c,
    ensures
        ends_with(trim_start_char(s, c), t),
    decreases s.len(),
{
    if s.len() > 0 && s[0] == c {
        if s.len() == t.len() {
            assert(s.subrange(0, s.len() as int)[0] == s[0]);
        } else {
            assert(s.drop_first().subrange(s.drop_first().len() - t.len(), s.drop_first().len() as int)
                =~= s.subrange(s.len() - t.len(), s.len() as int));
            lemma_trim_start_keeps_suffix(s.drop_first(), c, t);
        }
    }
}

/// Whatever path an API URL has, the normalized path ends with `api/v1/`.
pub proof fn lemma_api_base_path_suffix(path: Seq<char>)
    ensures
        ends_with(api_base_path(path), "api/v1/"@),
{
    reveal_strlit("/api/v1");
    reveal_strlit("/api");
    reveal_strlit("/v1");
    reveal_strlit("/");
    reveal_strlit("api/v1");
    reveal_strlit("api/v1/");
    let p = trim_end_char(path, '/');
    let api = if ends_with(p, "/api/v1"@) {
        p
    } else if ends_with(p, "/api"@) {
        p + "/v1"@
    } else {
        p + "/api/v1"@
    };
    assert("/api/v1"@.subrange(1, 7) =~= "api/v1"@);
    assert("/api"@.subrange(1, 4) + "/v1"@ =~= "api/v1"@);
    if ends_with(p, "/api/v1"@) {
        assert(api.subrange(api.len() - 6, api.len() as int)
            =~= api.subrange(api.len() - 7, api.len() as int).subrange(1, 7));
    } else if ends_with(p, "/api"@) {
        assert(api.subrange(api.len() - 6, api.len() as int)
            =~= p.subrange(p.len() - 4, p.len() as int).subrange(1, 4) + "/v1"@);
    } else {
        assert(api.subrange(api.len() - 6, api.len() as int) =~= "/api/v1"@.subrange(1, 7));
    }
    assert(ends_with(api, "api/v1"@));
    lemma_trim_start_keeps_suffix(api, '/', "api/v1"@);
    let t = trim_start_char(api, '/');
    let r = t + "/"@;
    assert(r.subrange(r.len() - 7, r.len() as int) =~= t.subrange(t.len() - 6, t.len() as int) + "/"@);
    assert("api/v1"@ + "/"@ =~= "api/v1/"@);
}

proof fn lemma_trim_start_is_skip(s: Seq<char>, c: char) -> (k: int)
    ensures
        0 <= k <= s.len(),
        trim_start_char(s, c) == s.skip(k),
        forall|j: int| 0 <= j < k ==> s[j] == c,
        k < s.len() ==> s[k] != c,
    decreases s.len(),
{
    if s.len() > 0 && s[0] == c {
        let k1 = lemma_trim_start_is_skip(s.drop_first(), c);
        assert(s.drop_first().skip(k1) =~= s.skip(k1 + 1));
        assert forall|j: int| 0 <= j < k1 + 1 implies s[j] == c by {
            if j > 0 {
                assert(s[j] == s.drop_first()[j - 1]);
            }
        }
        k1 + 1
    } else {
        assert(s.skip(0) =~= s);
        0
    }
}

/// Normalizing a normalized path changes nothing: the path that the URL of
/// a client has (the normalized path after its leading slash) normalizes to
/// itself.
pub proof fn lemma_api_base_path_idempotent(path: Seq<char>)
    ensures
        api_base_path("/"@ + api_base_path(path)) == api_base_path(path),
{
    reveal_strlit("/api/v1");
    reveal_strlit("/api");
    reveal_strlit("/v1");
    reveal_strlit("/");
    let p = trim_end_char(path, '/');
    let api = if ends_with(p, "/api/v1"@) {
        p
    } else if ends_with(p, "/api"@) {
        p + "/v1"@
    } else {
        p + "/api/v1"@
    };
    let n = api.len() as int;
    assert(api.subrange(n - 7, n) =~= "/api/v1"@) by {
        if ends_with(p, "/api/v1"@) {
        } else if ends_with(p, "/api"@) {
            assert(api.subrange(n - 7, n) =~= p.subrange(p.len() - 4, p.len() as int) + "/v1"@);
        } else {
            assert(api.subrange(n - 7, n) =~= "/api/v1"@);
        }
    }
    assert(api[n - 6] == 'a') by {
        assert(api[n - 6] == api.subrange(n - 7, n)[1]);
    }
    let k = lemma_trim_start_is_skip(api, '/');
    let t = trim_start_char(api, '/');
    assert(k <= n - 6);
    assert(t.len() == n - k);
    assert(t.len() >= 6);
    assert(t[0] != '/');
    assert(t.last() == '1') by {
        assert(t.last() == api[n - 1]);
        assert(api[n - 1] == api.subrange(n - 7, n)[6]);
    }
    let r = t + "/"@;
    assert(api_base_path(path) == r);
    let q = "/"@ + r;
    let slash_t = "/"@ + t;
    assert(q.take(q.len() - 1) =~= slash_t);
    crate::text::lemma_trim_end_take(q, '/', q.len() - 1);
    assert(trim_end_char(q, '/') == trim_end_char(slash_t, '/'));
    assert(slash_t.last() == '1');
    assert(trim_end_char(slash_t, '/') == slash_t);
    let m = slash_t.len() as int;
    assert(ends_with(slash_t, "/api/v1"@)) by {
        if k == n - 6 {
            assert(t =~= api.subrange(n - 6, n));
            assert(slash_t.subrange(m - 7, m) =~= "/"@ + api.subrange(n - 6, n));
            assert(api.subrange(n - 6, n) =~= api.subrange(n - 7, n).subrange(1, 7));
            assert(slash_t.subrange(m - 7, m) =~= "/api/v1"@);
        } else {
            assert(slash_t.subrange(m - 7, m) =~= api.subrange(n - 7, n));
        }
    }
    crate::text::lemma_trim_start_skip(slash_t, '/', 1);
    assert(slash_t.skip(1) =~= t);
    assert(trim_start_char(t, '/') == t);
    assert(api_base_path(q) == trim_start_char(slash_t, '/') + "/"@);
}

/// The message of the error for a URL that is not a plain HTTP(S) URL.
pub open spec fn url_shape_message() -> Seq<char> {
    "URL must be absolute HTTP(S) without credentials, query, or fragment"@
}

/// The API base URL that a user-given URL normalizes to, or the error.
pub open spec fn api_base_spec(input: Seq<char>) -> Result<Seq<char>, ErrorView> {
    match parsed_url(input) {
        Err(m) => Err(ErrorView::InvalidUrl(m)),
        Ok(parts) => {
            let (scheme, username, has_password, has_query, has_fragment, path) = parts;
            if !(scheme == "http"@ || scheme == "https"@) || username.len() > 0 || has_password
                || has_query || has_fragment {
                Err(ErrorView::InvalidUrl(url_shape_message()))
            } else {
                Ok(url_with_path(input, api_base_path(path)))
            }
        },
    }
}

/// Computes the normalized API path of [`api_base_path`].
fn normalize_api_path(path: &str) -> (r: String)
    ensures
        r@ == api_base_path(path@),
{
    let p = trim_end_matches(path, '/');
    let api = if str_ends_with(p.as_str(), "/api/v1") {
        p
    } else if str_ends_with(p.as_str(), "/api") {
        concat(p.as_str(), "/v1")
    } else {
        concat(p.as_str(), "/api/v1")
    };
    let trimmed = trim_start_matches(api.as_str(), '/');
    concat(trimmed.as_str(), "/")
}

/// The seconds after which a request of the client times out.
pub const REQUEST_TIMEOUT_SECONDS: u64 = 30;

/// Settings of a [`TaigaClient`] under construction.
pub struct TaigaClientBuilder {
    base: String,
    token: Option<String>,
    language: Option<String>,
    timeout_secs: u64,
}

/// The model of a client (or of a client under construction): the API base
/// URL, the bearer token and the preferred language.
pub struct ClientView {
    pub base: Seq<char>,
    pub token: Option<Seq<char>>,
    pub language: Option<Seq<char>>,
}

impl View for TaigaClientBuilder {
    type V = ClientView;

    closed spec fn view(&self) -> ClientView {
        ClientView { base: self.base@, token: opt_str(self.token), language: opt_str(self.language) }
    }
}

impl TaigaClientBuilder {
    /// Starts a client for the API at `api_url`, which must be an absolute
    /// HTTP(S) URL without credentials, query or fragment; its path is
    /// normalized to end in `/api/v1/`.
    pub fn new(api_url: &str) -> (r: Result<Self, TaigaError>)
        ensures
            match r {
                Ok(b) => api_base_spec(api_url@) == Ok::<_, ErrorView>(b@.base) && b@.token is None
                    && b@.language is None && b.timeout() == REQUEST_TIMEOUT_SECONDS,
                Err(e) => api_base_spec(api_url@) == Err::<Seq<char>, _>(e@),
            },
    {
        let parts = match parse_url(api_url) {
            Ok(p) => p,
            Err(m) => return Err(TaigaError::InvalidUrl(m)),
        };
        if !(str_eq(parts.scheme.as_str(), "http") || str_eq(parts.scheme.as_str(), "https"))
            || !parts.username.as_str().is_empty() || parts.has_password || parts.has_query || parts.has_fragment {
            return Err(TaigaError::InvalidUrl(owned("URL must be absolute HTTP(S) without credentials, query, or fragment")));
        }
        let path = normalize_api_path(parts.path.as_str());
        let base = set_url_path(api_url, path.as_str());
        Ok(TaigaClientBuilder { base, token: None, language: None, timeout_secs: REQUEST_TIMEOUT_SECONDS })
    }

    /// The request timeout, in seconds.
    pub closed spec fn timeout(&self) -> u64 {
        self.timeout_secs
    }

    /// Sends `token` as the bearer token of authenticated calls.
    pub fn bearer_token(self, token: String) -> (r: Self)
        ensures
            r@ == (ClientView { token: Some(token@), ..self@ }),
            r.timeout() == self.timeout(),
    {
        TaigaClientBuilder { token: Some(token), ..self }
    }

    /// Sends `language` as the preferred language of the responses.
    pub fn accept_language(self, language: String) -> (r: Self)
        ensures
            r@ == (ClientView { language: Some(language@), ..self@ }),
            r.timeout() == self.timeout(),
    {
        TaigaClientBuilder { language: Some(language), ..self }
    }

    /// The request timeout, in seconds.
    pub fn timeout_seconds(&self) -> (t: u64)
        ensures
            t == self.timeout(),
    {
        self.timeout_secs
    }

    /// Finishes the client.
    pub fn build(self) -> (c: TaigaClient)
        ensures
            c@ == self@,
    {
        TaigaClient { base: self.base, token: self.token, language: self.language }
    }
}

/// A client of the Taiga API: it describes each call as an [`ApiRequest`].
pub struct TaigaClient {
    base: String,
    token: Option<String>,
    language: Option<String>,
}

impl View for TaigaClient {
    type V = ClientView;

    closed spec fn view(&self) -> ClientView {
        ClientView { base: self.base@, token: opt_str(self.token), language: opt_str(self.language) }
    }
}

/// The HTTP methods the client uses.
#[derive(Clone, Copy, Debug, PartialEq, Eq, Structural)]
pub enum HttpMethod {
    Get,
    Post,
    Patch,
    Delete,
}

/// The value of one part of a `multipart/form-data` body: a text field, or
/// a file with its name and bytes.
#[derive(Debug)]
pub enum FormValue {
    Text(String),
    File { file_name: String, bytes: Vec<u8> },
}

/// One named part of a `multipart/form-data` body.
#[derive(Debug)]
pub struct FormPart {
    pub name: String,
    pub value: FormValue,
}

/// The model of a [`FormValue`].
pub enum FormValueView {
    Text(Seq<char>),
    File(Seq<char>, Seq<u8>),
}

/// The model of the parts of a form.
pub open spec fn form_view(parts: Seq<FormPart>) -> Seq<(Seq<char>, FormValueView)> {
    parts.map_values(|p: FormPart| (p.name@, match p.value {
        FormValue::Text(t) => FormValueView::Text(t@),
        FormValue::File { file_name, bytes } => FormValueView::File(file_name@, bytes@),
    }))
}

/// An HTTP request, ready to be sent: the JSON `Accept` header goes with
/// every request; a request carries a JSON body, a `multipart/form-data`
/// body (`form`), or neither.
#[derive(Debug)]
pub struct ApiRequest {
    pub method: HttpMethod,
    pub url: String,
    pub query: Vec<(String, String)>,
    pub accept_language: Option<String>,
    pub bearer: Option<String>,
    pub disable_pagination: bool,
    pub body: Option<Json>,
    pub form: Option<Vec<FormPart>>,
}

/// The model of an [`ApiRequest`].
pub struct RequestView {
    pub method: HttpMethod,
    pub url: Seq<char>,
    pub query: Seq<(Seq<char>, Seq<char>)>,
    pub accept_language: Option<Seq<char>>,
    pub bearer: Option<Seq<char>>,
    pub disable_pagination: bool,
    pub body: Option<JsonModel>,
    pub form: Option<Seq<(Seq<char>, FormValueView)>>,
}

/// The characters of each pair of a query.
pub open spec fn pairs_view(q: Seq<(String, String)>) -> Seq<(Seq<char>, Seq<char>)> {
    q.map_values(|p: (String, String)| (p.0@, p.1@))
}

pub open spec fn opt_json(o: Option<Json>) -> Option<JsonModel> {
    match o {
        Some(j) => Some(json_model(j)),
        None => None,
    }
}

impl View for ApiRequest {
    type V = RequestView;

    open spec fn view(&self) -> RequestView {
        RequestView {
            method: self.method,
            url: self.url@,
            query: pairs_view(self.query@),
            accept_language: opt_str(self.accept_language),
            bearer: opt_str(self.bearer),
            disable_pagination: self.disable_pagination,
            body: opt_json(self.body),
            form: match self.form {
                Some(parts) => Some(form_view(parts@)),
                None => None,
            },
        }
    }
}

pub open spec fn no_token_message() -> Seq<char> {
    "no bearer token configured"@
}

pub open spec fn page_message() -> Seq<char> {
    "page must be positive"@
}

/// The URL of an API path, relative to the base URL.
pub open spec fn url_spec(c: ClientView, path: Seq<char>) -> Result<Seq<char>, ErrorView> {
    match joined_url(c.base, trim_start_char(path, '/')) {
        Ok(u) => Ok(u),
        Err(m) => Err(ErrorView::InvalidUrl(m)),
    }
}

/// The request for a call that returns a JSON result: a failed URL comes
/// first, then a missing token of an authenticated call, then a page
/// number of zero. A page adds the `page` query parameter after the
/// others; `All` asks for the unpaginated list.
pub open spec fn request_spec(
    c: ClientView,
    method: HttpMethod,
    path: Seq<char>,
    query: Seq<(Seq<char>, Seq<char>)>,
    body: Option<JsonModel>,
    auth: bool,
    pagination: Option<PaginationMode>,
) -> Result<RequestView, ErrorView> {
    match url_spec(c, path) {
        Err(e) => Err(e),
        Ok(url) => if auth && c.token is None {
            Err(ErrorView::Unauthorized(no_token_message()))
        } else if pagination == Some(PaginationMode::Page(0)) {
            Err(ErrorView::InvalidUrl(page_message()))
        } else {
            Ok(RequestView {
                method,
                url,
                query: match pagination {
                    Some(PaginationMode::Page(n)) => query.push(("page"@, decimal(n as nat))),
                    _ => query,
                },
                accept_language: c.language,
                bearer: if auth { c.token } else { None },
                disable_pagination: pagination == Some(PaginationMode::All),
                body,
                form: None,
            })
        },
    }
}

/// The request for a call without a result: always authenticated, with
/// neither language nor pagination.
pub open spec fn empty_request_spec(
    c: ClientView,
    method: HttpMethod,
    path: Seq<char>,
    query: Seq<(Seq<char>, Seq<char>)>,
    body: Option<JsonModel>,
) -> Result<RequestView, ErrorView> {
    match url_spec(c, path) {
        Err(e) => Err(e),
        Ok(url) => if c.token is None {
            Err(ErrorView::Unauthorized(no_token_message()))
        } else {
            Ok(RequestView {
                method,
                url,
                query,
                accept_language: None,
                bearer: c.token,
                disable_pagination: false,
                body,
                form: None,
            })
        },
    }
}

/// The request for a call whose body is a `multipart/form-data` form:
/// authenticated, with neither query nor pagination.
pub open spec fn multipart_request_spec(
    c: ClientView,
    method: HttpMethod,
    path: Seq<char>,
    form: Seq<(Seq<char>, FormValueView)>,
) -> Result<RequestView, ErrorView> {
    match url_spec(c, path) {
        Err(e) => Err(e),
        Ok(url) => if c.token is None {
            Err(ErrorView::Unauthorized(no_token_message()))
        } else {
            Ok(RequestView {
                method,
                url,
                query: Seq::empty(),
                accept_language: c.language,
                bearer: c.token,
                disable_pagination: false,
                body: None,
                form: Some(form),
            })
        },
    }
}

/// The request that fetches a file from the URL that the API gave for it:
/// a plain `GET` of that URL, without the session's bearer token (the file
/// may live on another host) and without language or pagination.
pub open spec fn media_request_spec(url: Seq<char>) -> RequestView {
    RequestView {
        method: HttpMethod::Get,
        url,
        query: Seq::empty(),
        accept_language: None,
        bearer: None,
        disable_pagination: false,
        body: None,
        form: None,
    }
}

/// Describes the fetch of a file at `url` (see [`media_request_spec`]).
pub fn media_request(url: String) -> (r: ApiRequest)
    ensures
        r@ == media_request_spec(url@),
{
    let r = ApiRequest {
        method: HttpMethod::Get,
        url,
        query: Vec::new(),
        accept_language: None,
        bearer: None,
        disable_pagination: false,
        body: None,
        form: None,
    };
    assert(pairs_view(r.query@) =~= Seq::empty());
    r
}

/// A request is made with the method it was asked for.
pub proof fn lemma_request_methods()
    ensures
        forall|c: ClientView, m: HttpMethod, path: Seq<char>, q: Seq<(Seq<char>, Seq<char>)>,
            body: Option<JsonModel>, auth: bool, pg: Option<PaginationMode>|
            (#[trigger] request_spec(c, m, path, q, body, auth, pg)) matches Ok(r) ==> r.method == m,
        forall|c: ClientView, m: HttpMethod, path: Seq<char>, q: Seq<(Seq<char>, Seq<char>)>,
            body: Option<JsonModel>|
            (#[trigger] empty_request_spec(c, m, path, q, body)) matches Ok(r) ==> r.method == m,
        forall|c: ClientView, m: HttpMethod, path: Seq<char>, form: Seq<(Seq<char>, FormValueView)>|
            (#[trigger] multipart_request_spec(c, m, path, form)) matches Ok(r) ==> r.method == m,
{
}

/// The model of the outcome of describing a request.
pub open spec fn outcome_view(r: Result<ApiRequest, TaigaError>) -> Result<RequestView, ErrorView> {
    match r {
        Ok(req) => Ok(req@),
        Err(e) => Err(e@),
    }
}

/// A copy of a query.
pub fn copy_pairs(q: &Vec<(String, String)>) -> (r: Vec<(String, String)>)
    ensures
        r@ == q@,
{
    let mut r: Vec<(String, String)> = Vec::new();
    let mut i: usize = 0;
    while i < q.len()
        invariant
            i <= q.len(),
            r@ == q@.take(i as int),
        decreases q.len() - i,
    {
        r.push((q[i].0.clone(), q[i].1.clone()));
        i = i + 1;
        assert(r@ =~= q@.take(i as int));
    }
    assert(q@.take(q.len() as int) =~= q@);
    r
}

proof fn lemma_pairs_push(q: Seq<(String, String)>, p: (String, String))
    ensures
        pairs_view(q.push(p)) == pairs_view(q).push((p.0@, p.1@)),
{
    assert(pairs_view(q.push(p)) =~= pairs_view(q).push((p.0@, p.1@)));
}

impl TaigaClient {
    /// Starts a client for the API at `api_url` (see [`TaigaClientBuilder::new`]).
    pub fn builder(api_url: &str) -> (r: Result<TaigaClientBuilder, TaigaError>)
        ensures
            match r {
                Ok(b) => api_base_spec(api_url@) == Ok::<_, ErrorView>(b@.base) && b@.token is None
                    && b@.language is None && b.timeout() == REQUEST_TIMEOUT_SECONDS,
                Err(e) => api_base_spec(api_url@) == Err::<Seq<char>, _>(e@),
            },
    {
        TaigaClientBuilder::new(api_url)
    }

    /// The normalized API base URL.
    pub fn api_url(&self) -> (u: &str)
        ensures
            u@ == self@.base,
    {
        self.base.as_str()
    }

    /// The URL of an API path (leading slashes of `path` are ignored).
    pub fn url(&self, path: &str) -> (r: Result<String, TaigaError>)
        ensures
            match r {
                Ok(u) => url_spec(self@, path@) == Ok::<_, ErrorView>(u@),
                Err(e) => url_spec(self@, path@) == Err::<Seq<char>, _>(e@),
            },
    {
        let relative = trim_start_matches(path, '/');
        match join_url(self.base.as_str(), relative.as_str()) {
            Ok(u) => Ok(u),
            Err(m) => Err(TaigaError::InvalidUrl(m)),
        }
    }

    /// Describes a call that returns a JSON result.
    pub fn request(
        &self,
        method: HttpMethod,
        path: &str,
        query: &Vec<(String, String)>,
        body: Option<Json>,
        auth: bool,
        pagination: Option<PaginationMode>,
    ) -> (r: Result<ApiRequest, TaigaError>)
        ensures
            outcome_view(r) == request_spec(self@, method, path@, pairs_view(query@), opt_json(body), auth, pagination),
    {
        let url = match self.url(path) {
            Ok(u) => u,
            Err(e) => return Err(e),
        };
        let bearer = if auth {
            match &self.token {
                Some(t) => Some(t.clone()),
                None => return Err(TaigaError::Unauthorized { message: owned("no bearer token configured") }),
            }
        } else {
            None
        };
        let mut q = copy_pairs(query);
        let mut disable_pagination = false;
        match pagination {
            Some(PaginationMode::All) => {
                disable_pagination = true;
            },
            Some(PaginationMode::Page(n)) => {
                if n == 0 {
                    return Err(TaigaError::InvalidUrl(owned("page must be positive")));
                }
                let p = (owned("page"), u64_to_string(n as u64));
                proof { lemma_pairs_push(q@, p); }
                q.push(p);
            },
            None => {},
        }
        Ok(ApiRequest {
            method,
            url,
            query: q,
            accept_language: self.language.clone(),
            bearer,
            disable_pagination,
            body,
            form: None,
        })
    }

    /// Describes a call that returns no result.
    pub fn empty(&self, method: HttpMethod, path: &str, query: &Vec<(String, String)>, body: Option<Json>) -> (r: Result<ApiRequest, TaigaError>)
        ensures
            outcome_view(r) == empty_request_spec(self@, method, path@, pairs_view(query@), opt_json(body)),
    {
        let url = match self.url(path) {
            Ok(u) => u,
            Err(e) => return Err(e),
        };
        let bearer = match &self.token {
            Some(t) => t.clone(),
            None => return Err(TaigaError::Unauthorized { message: owned("no bearer token configured") }),
        };
        Ok(ApiRequest {
            method,
            url,
            query: copy_pairs(query),
            accept_language: None,
            bearer: Some(bearer),
            disable_pagination: false,
            body,
            form: None,
        })
    }

    /// Describes an authenticated call whose body is a `multipart/form-data`
    /// form.
    pub fn multipart(&self, method: HttpMethod, path: &str, form: Vec<FormPart>) -> (r: Result<ApiRequest, TaigaError>)
        ensures
            outcome_view(r) == multipart_request_spec(self@, method, path@, form_view(form@)),
    {
        let url = match self.url(path) {
            Ok(u) => u,
            Err(e) => return Err(e),
        };
        let bearer = match &self.token {
            Some(t) => t.clone(),
            None => return Err(TaigaError::Unauthorized { message: owned("no bearer token configured") }),
        };
        let r = ApiRequest {
            method,
            url,
            query: Vec::new(),
            accept_language: self.language.clone(),
            bearer: Some(bearer),
            disable_pagination: false,
            body: None,
            form: Some(form),
        };
        assert(pairs_view(r.query@) =~= Seq::empty());
        Ok(r)
    }
}

/// The credentials of a normal Taiga login.
#[derive(Debug)]
pub struct LoginRequest {
    pub username: String,
    pub password: String,
}

/// A refresh token to trade for a new token pair.
#[derive(Debug)]
pub struct RefreshRequest {
    pub refresh: String,
}

/// An access token with the refresh token that renews it.
#[derive(Debug)]
pub struct TokenPair {
    pub auth_token: String,
    pub refresh: String,
}

/// What a successful login returns.
#[derive(Debug)]
pub struct AuthSession {
    pub tokens: TokenPair,
    pub id: Option<crate::ids::UserId>,
    pub username: Option<String>,
}

/// A JSON string value.
pub fn json_str(s: &str) -> (j: Json)
    ensures
        json_model(j) == JsonModel::Str(s@),
{
    Json::Str(owned(s))
}

/// The model of a JSON string.
pub open spec fn str_model(s: Seq<char>) -> JsonModel {
    JsonModel::Str(s)
}

/// The body of a normal login.
pub open spec fn login_body(username: Seq<char>, password: Seq<char>) -> JsonModel {
    JsonModel::Object(seq![
        ("type"@, str_model("normal"@)),
        ("username"@, str_model(username)),
        ("password"@, str_model(password)),
    ])
}

/// The body of a token refresh.
pub open spec fn refresh_body(refresh: Seq<char>) -> JsonModel {
    JsonModel::Object(seq![("refresh"@, str_model(refresh))])
}

/// The API path of one resource of a collection: `{collection}/{id}`.
pub open spec fn item_path(collection: Seq<char>, id: u64) -> Seq<char> {
    collection + "/"@ + decimal(id as nat)
}

/// `{a}/{b}`.
pub fn join_segments(a: &str, b: &str) -> (r: String)
    ensures
        r@ == a@ + "/"@ + b@,
{
    let x = concat(a, "/");
    concat(x.as_str(), b)
}

/// `{collection}/{id}`.
pub fn item_path_of(collection: &str, id: u64) -> (r: String)
    ensures
        r@ == item_path(collection@, id),
{
    let n = u64_to_string(id);
    join_segments(collection, n.as_str())
}

/// A query of one parameter.
pub fn single_param(key: &str, value: String) -> (q: Vec<(String, String)>)
    ensures
        pairs_view(q@) == seq![(key@, value@)],
{
    let q = vec![(owned(key), value)];
    assert(pairs_view(q@) =~= seq![(key@, value@)]);
    q
}

/// The calls of the authentication endpoints.
pub struct AuthService<'a>(pub &'a TaigaClient);

impl<'a> AuthService<'a> {
    /// Logs in with a user name (or e-mail) and a password; the call sends
    /// no bearer token.
    pub fn login(&self, request: &LoginRequest) -> (r: Result<ApiRequest, TaigaError>)
        ensures
            outcome_view(r) == request_spec(self.0@, HttpMethod::Post, "auth"@, Seq::empty(),
                Some(login_body(request.username@, request.password@)), false, None),
    {
        let members = vec![
            (owned("type"), json_str("normal")),
            (owned("username"), json_str(request.username.as_str())),
            (owned("password"), json_str(request.password.as_str())),
        ];
        proof {
            lemma_members_model(members@);
            assert(members_model(members@) =~= seq![
                ("type"@, str_model("normal"@)),
                ("username"@, str_model(request.username@)),
                ("password"@, str_model(request.password@)),
            ]);
        }
        let body = Json::Object(members);
        let no_query: Vec<(String, String)> = Vec::new();
        assert(pairs_view(no_query@) =~= Seq::empty());
        self.0.request(HttpMethod::Post, "auth", &no_query, Some(body), false, None)
    }

    /// Trades a refresh token for a new token pair; the call sends no
    /// bearer token.
    pub fn refresh(&self, request: &RefreshRequest) -> (r: Result<ApiRequest, TaigaError>)
        ensures
            outcome_view(r) == request_spec(self.0@, HttpMethod::Post, "auth/refresh"@, Seq::empty(),
                Some(refresh_body(request.refresh@)), false, None),
    {
        let members = vec![(owned("refresh"), json_str(request.refresh.as_str()))];
        proof {
            lemma_members_model(members@);
            assert(members_model(members@) =~= seq![("refresh"@, str_model(request.refresh@))]);
        }
        let body = Json::Object(members);
        let no_query: Vec<(String, String)> = Vec::new();
        assert(pairs_view(no_query@) =~= Seq::empty());
        self.0.request(HttpMethod::Post, "auth/refresh", &no_query, Some(body), false, None)
    }
}

/// The calls of one collection of resources (projects, user stories, ...).
pub struct ResourceService<'a> {
    client: &'a TaigaClient,
    path: &'static str,
}

impl<'a> ResourceService<'a> {
    pub(crate) fn new(client: &'a TaigaClient, path: &'static str) -> (r: Self)
        ensures
            r.client() == client,
            r.path() == path@,
    {
        ResourceService { client, path }
    }

    /// The client the calls go through.
    pub closed spec fn client(&self) -> &'a TaigaClient {
        self.client
    }

    /// The API path of the collection.
    pub closed spec fn path(&self) -> Seq<char> {
        self.path@
    }

    /// Lists the collection.
    pub fn list(&self, query: &Vec<(String, String)>, pagination: PaginationMode) -> (r: Result<ApiRequest, TaigaError>)
        ensures
            outcome_view(r) == request_spec(self.client()@, HttpMethod::Get, self.path(), pairs_view(query@), None, true, Some(pagination)),
    {
        self.client.request(HttpMethod::Get, self.path, query, None, true, Some(pagination))
    }

    /// Reads one resource.
    pub fn get(&self, id: u64) -> (r: Result<ApiRequest, TaigaError>)
        ensures
            outcome_view(r) == request_spec(self.client()@, HttpMethod::Get, item_path(self.path(), id), Seq::empty(), None, true, None),
    {
        let path = item_path_of(self.path, id);
        let no_query: Vec<(String, String)> = Vec::new();
        assert(pairs_view(no_query@) =~= Seq::empty());
        self.client.request(HttpMethod::Get, path.as_str(), &no_query, None, true, None)
    }

    /// Reads one resource by its reference inside a project.
    pub fn by_ref(&self, project: ProjectId, reference: u64) -> (r: Result<ApiRequest, TaigaError>)
        ensures
            outcome_view(r) == request_spec(self.client()@, HttpMethod::Get, self.path() + "/by_ref"@,
                seq![("project"@, decimal(project.0 as nat)), ("ref"@, decimal(reference as nat))], None, true, None),
    {
        let path = concat(self.path, "/by_ref");
        let query = vec![(owned("project"), u64_to_string(project.0)), (owned("ref"), u64_to_string(reference))];
        assert(pairs_view(query@) =~= seq![("project"@, decimal(project.0 as nat)), ("ref"@, decimal(reference as nat))]);
        self.client.request(HttpMethod::Get, path.as_str(), &query, None, true, None)
    }

    /// Creates a resource from a JSON body.
    pub fn create(&self, body: Json) -> (r: Result<ApiRequest, TaigaError>)
        ensures
            outcome_view(r) == request_spec(self.client()@, HttpMethod::Post, self.path(), Seq::empty(), Some(json_model(body)), true, None),
    {
        let no_query: Vec<(String, String)> = Vec::new();
        assert(pairs_view(no_query@) =~= Seq::empty());
        self.client.request(HttpMethod::Post, self.path, &no_query, Some(body), true, None)
    }

    /// Changes some fields of a resource.
    pub fn patch(&self, id: u64, body: Json) -> (r: Result<ApiRequest, TaigaError>)
        ensures
            outcome_view(r) == request_spec(self.client()@, HttpMethod::Patch, item_path(self.path(), id), Seq::empty(), Some(json_model(body)), true, None),
    {
        let path = item_path_of(self.path, id);
        let no_query: Vec<(String, String)> = Vec::new();
        assert(pairs_view(no_query@) =~= Seq::empty());
        self.client.request(HttpMethod::Patch, path.as_str(), &no_query, Some(body), true, None)
    }

    /// Deletes a resource.
    pub fn delete(&self, id: u64) -> (r: Result<ApiRequest, TaigaError>)
        ensures
            outcome_view(r) == empty_request_spec(self.client()@, HttpMethod::Delete, item_path(self.path(), id), Seq::empty(), None),
    {
        let path = item_path_of(self.path, id);
        let no_query: Vec<(String, String)> = Vec::new();
        assert(pairs_view(no_query@) =~= Seq::empty());
        self.client.empty(HttpMethod::Delete, path.as_str(), &no_query, None)
    }

    /// Lists a collection nested under this one: `{collection}/{suffix}`.
    pub fn nested_list(&self, suffix: &str, query: &Vec<(String, String)>, pagination: PaginationMode) -> (r: Result<ApiRequest, TaigaError>)
        ensures
            outcome_view(r) == request_spec(self.client()@, HttpMethod::Get, self.path() + "/"@ + suffix@, pairs_view(query@), None, true, Some(pagination)),
    {
        let path = join_segments(self.path, suffix);
        self.client.request(HttpMethod::Get, path.as_str(), query, None, true, Some(pagination))
    }
}

/// The query that asks only for unread notifications, or nothing.
pub open spec fn flag_query(flag: bool, name: Seq<char>) -> Seq<(Seq<char>, Seq<char>)> {
    if flag {
        seq![(name, "true"@)]
    } else {
        Seq::empty()
    }
}

fn flag_query_of(flag: bool, name: &str) -> (q: Vec<(String, String)>)
    ensures
        pairs_view(q@) == flag_query(flag, name@),
{
    if flag {
        single_param(name, owned("true"))
    } else {
        let q: Vec<(String, String)> = Vec::new();
        assert(pairs_view(q@) =~= Seq::empty());
        q
    }
}

/// The calls of the web notifications of the current user.
pub struct NotificationService<'a>(pub &'a TaigaClient);

/// The list of notifications inside a response: its `objects` member when
/// it has one, the whole response otherwise.
pub open spec fn notification_items_spec(value: JsonModel) -> JsonModel {
    match get_member(value, "objects"@) {
        Some(objects) => objects,
        None => value,
    }
}

pub open spec fn missing_total_message() -> Seq<char> {
    "missing notification total"@
}

/// The unread count inside a response: its `total` member.
pub open spec fn unread_total_spec(value: JsonModel) -> Result<u64, ErrorView> {
    match get_member(value, "total"@) {
        Some(t) => match as_u64_model(t) {
            Some(n) => Ok(n),
            None => Err(ErrorView::Decode(missing_total_message())),
        },
        None => Err(ErrorView::Decode(missing_total_message())),
    }
}

impl<'a> NotificationService<'a> {
    /// Lists notifications, only the unread ones when `unread`.
    pub fn list(&self, unread: bool, pagination: PaginationMode) -> (r: Result<ApiRequest, TaigaError>)
        ensures
            outcome_view(r) == request_spec(self.0@, HttpMethod::Get, "web-notifications"@, flag_query(unread, "only_unread"@), None, true, Some(pagination)),
    {
        let query = flag_query_of(unread, "only_unread");
        self.0.request(HttpMethod::Get, "web-notifications", &query, None, true, Some(pagination))
    }

    /// The notifications of a list response (its `objects` member when the
    /// response is wrapped).
    pub fn items(value: Json) -> (items: Json)
        ensures
            json_model(items) == notification_items_spec(json_model(value)),
    {
        match value {
            Json::Object(members) => {
                let ghost whole = json_model(Json::Object(members));
                let mut rest = members;
                proof { lemma_members_model(rest@); }
                let found = NotificationService::take_member(&mut rest, "objects");
                match found {
                    Some(objects) => objects,
                    None => Json::Object(rest),
                }
            },
            other => other,
        }
    }

    /// Removes and returns the first member named `key`; the members are
    /// unchanged when there is none.
    fn take_member(members: &mut Vec<(String, Json)>, key: &str) -> (found: Option<Json>)
        ensures
            match found {
                Some(v) => crate::json::member_of(members_model(old(members)@), key@) == Some(json_model(v)),
                None => crate::json::member_of(members_model(old(members)@), key@) is None
                    && final(members)@ == old(members)@,
            },
    {
        proof { lemma_members_model(members@); }
        assert(members_model(members@).skip(0) =~= members_model(members@));
        let mut i: usize = 0;
        while i < members.len()
            invariant
                i <= members.len(),
                members@ == old(members)@,
                members_model(members@).len() == members.len(),
                forall|k: int| 0 <= k < members.len() ==> #[trigger] members_model(members@)[k] == (members@[k].0@, json_model(members@[k].1)),
                crate::json::member_of(members_model(members@), key@) == crate::json::member_of(members_model(members@).skip(i as int), key@),
            decreases members.len() - i,
        {
            let ghost rest = members_model(members@).skip(i as int);
            assert(rest.drop_first() =~= members_model(members@).skip(i + 1));
            assert(rest[0] == members_model(members@)[i as int]);
            if str_eq(members[i].0.as_str(), key) {
                let (_, v) = members.remove(i);
                return Some(v);
            }
            i = i + 1;
        }
        None
    }

    /// Counts the unread notifications.
    pub fn unread_count(&self) -> (r: Result<ApiRequest, TaigaError>)
        ensures
            outcome_view(r) == request_spec(self.0@, HttpMethod::Get, "web-notifications"@, flag_query(true, "only_unread"@), None, true, Some(PaginationMode::Page(1))),
    {
        let query = flag_query_of(true, "only_unread");
        self.0.request(HttpMethod::Get, "web-notifications", &query, None, true, Some(PaginationMode::Page(1)))
    }

    /// The unread count of an [`unread_count`](Self::unread_count) response.
    pub fn total(value: &Json) -> (r: Result<u64, TaigaError>)
        ensures
            match r {
                Ok(n) => unread_total_spec(json_model(*value)) == Ok::<_, ErrorView>(n),
                Err(e) => unread_total_spec(json_model(*value)) == Err::<u64, _>(e@),
            },
    {
        match value.get("total") {
            Some(t) => match t.as_u64() {
                Some(n) => Ok(n),
                None => Err(TaigaError::Decode(owned("missing notification total"))),
            },
            None => Err(TaigaError::Decode(owned("missing notification total"))),
        }
    }

    /// Marks one notification as read.
    pub fn read(&self, id: NotificationId) -> (r: Result<ApiRequest, TaigaError>)
        ensures
            outcome_view(r) == empty_request_spec(self.0@, HttpMethod::Patch,
                item_path("web-notifications"@, id.0) + "/set-as-read"@, Seq::empty(), None),
    {
        let path = item_path_of("web-notifications", id.0);
        let path = concat(path.as_str(), "/set-as-read");
        let no_query: Vec<(String, String)> = Vec::new();
        assert(pairs_view(no_query@) =~= Seq::empty());
        self.0.empty(HttpMethod::Patch, path.as_str(), &no_query, None)
    }

    /// Marks every notification as read.
    pub fn read_all(&self) -> (r: Result<ApiRequest, TaigaError>)
        ensures
            outcome_view(r) == empty_request_spec(self.0@, HttpMethod::Post, "web-notifications/set-as-read"@, Seq::empty(), None),
    {
        let no_query: Vec<(String, String)> = Vec::new();
        assert(pairs_view(no_query@) =~= Seq::empty());
        self.0.empty(HttpMethod::Post, "web-notifications/set-as-read", &no_query, None)
    }
}

/// The calls of the activity timelines.
pub struct TimelineService<'a>(pub &'a TaigaClient);

impl<'a> TimelineService<'a> {
    /// Lists the timeline `timeline/{kind}/{id}`, only the relevant entries
    /// when `relevant`.
    pub fn list(&self, kind: &str, id: u64, relevant: bool, pagination: PaginationMode) -> (r: Result<ApiRequest, TaigaError>)
        ensures
            outcome_view(r) == request_spec(self.0@, HttpMethod::Get, item_path("timeline"@ + "/"@ + kind@, id),
                flag_query(relevant, "only_relevant"@), None, true, Some(pagination)),
    {
        let query = flag_query_of(relevant, "only_relevant");
        let base = join_segments("timeline", kind);
        let path = item_path_of(base.as_str(), id);
        self.0.request(HttpMethod::Get, path.as_str(), &query, None, true, Some(pagination))
    }
}

/// The calls of the full-text search.
pub struct SearchService<'a>(pub &'a TaigaClient);

impl<'a> SearchService<'a> {
    /// Searches `text` inside one project.
    pub fn project(&self, project: ProjectId, text: &str) -> (r: Result<ApiRequest, TaigaError>)
        ensures
            outcome_view(r) == request_spec(self.0@, HttpMethod::Get, "search"@,
                seq![("project"@, decimal(project.0 as nat)), ("text"@, text@)], None, true, None),
    {
        let query = vec![(owned("project"), u64_to_string(project.0)), (owned("text"), owned(text))];
        assert(pairs_view(query@) =~= seq![("project"@, decimal(project.0 as nat)), ("text"@, text@)]);
        self.0.request(HttpMethod::Get, "search", &query, None, true, None)
    }
}

impl TaigaClient {
    /// The authentication calls.
    pub fn auth(&self) -> (s: AuthService<'_>)
        ensures
            s.0 == self,
    {
        AuthService(self)
    }

    /// The users collection.
    pub fn users(&self) -> (s: ResourceService<'_>)
        ensures
            s.client() == self,
            s.path() == "users"@,
    {
        ResourceService::new(self, "users")
    }

    /// The projects collection.
    pub fn projects(&self) -> (s: ResourceService<'_>)
        ensures
            s.client() == self,
            s.path() == "projects"@,
    {
        ResourceService::new(self, "projects")
    }

    /// The user stories collection.
    pub fn user_stories(&self) -> (s: ResourceService<'_>)
        ensures
            s.client() == self,
            s.path() == "userstories"@,
    {
        ResourceService::new(self, "userstories")
    }

    /// The tasks collection.
    pub fn tasks(&self) -> (s: ResourceService<'_>)
        ensures
            s.client() == self,
            s.path() == "tasks"@,
    {
        ResourceService::new(self, "tasks")
    }

    /// The issues collection.
    pub fn issues(&self) -> (s: ResourceService<'_>)
        ensures
            s.client() == self,
            s.path() == "issues"@,
    {
        ResourceService::new(self, "issues")
    }

    /// The epics collection.
    pub fn epics(&self) -> (s: ResourceService<'_>)
        ensures
            s.client() == self,
            s.path() == "epics"@,
    {
        ResourceService::new(self, "epics")
    }

    /// The milestones (sprints) collection.
    pub fn milestones(&self) -> (s: ResourceService<'_>)
        ensures
            s.client() == self,
            s.path() == "milestones"@,
    {
        ResourceService::new(self, "milestones")
    }

    /// The wiki pages collection.
    pub fn wiki(&self) -> (s: ResourceService<'_>)
        ensures
            s.client() == self,
            s.path() == "wiki"@,
    {
        ResourceService::new(self, "wiki")
    }

    /// The web notification calls.
    pub fn notifications(&self) -> (s: NotificationService<'_>)
        ensures
            s.0 == self,
    {
        NotificationService(self)
    }

    /// The timeline calls.
    pub fn timeline(&self) -> (s: TimelineService<'_>)
        ensures
            s.0 == self,
    {
        TimelineService(self)
    }

    /// The search calls.
    pub fn search(&self) -> (s: SearchService<'_>)
        ensures
            s.0 == self,
    {
        SearchService(self)
    }

    /// Reads any API path.
    pub fn get_path(&self, path: &str, query: &Vec<(String, String)>) -> (r: Result<ApiRequest, TaigaError>)
        ensures
            outcome_view(r) == request_spec(self@, HttpMethod::Get, path@, pairs_view(query@), None, true, None),
    {
        self.request(HttpMethod::Get, path, query, None, true, None)
    }

    /// Lists any API path.
    pub fn list_path(&self, path: &str, query: &Vec<(String, String)>, pagination: PaginationMode) -> (r: Result<ApiRequest, TaigaError>)
        ensures
            outcome_view(r) == request_spec(self@, HttpMethod::Get, path@, pairs_view(query@), None, true, Some(pagination)),
    {
        self.request(HttpMethod::Get, path, query, None, true, Some(pagination))
    }

    /// Posts a JSON body to any API path.
    pub fn post_path(&self, path: &str, body: Json) -> (r: Result<ApiRequest, TaigaError>)
        ensures
            outcome_view(r) == request_spec(self@, HttpMethod::Post, path@, Seq::empty(), Some(json_model(body)), true, None),
    {
        let no_query: Vec<(String, String)> = Vec::new();
        assert(pairs_view(no_query@) =~= Seq::empty());
        self.request(HttpMethod::Post, path, &no_query, Some(body), true, None)
    }

    /// Patches any API path with a JSON body.
    pub fn patch_path(&self, path: &str, body: Json) -> (r: Result<ApiRequest, TaigaError>)
        ensures
            outcome_view(r) == request_spec(self@, HttpMethod::Patch, path@, Seq::empty(), Some(json_model(body)), true, None),
    {
        let no_query: Vec<(String, String)> = Vec::new();
        assert(pairs_view(no_query@) =~= Seq::empty());
        self.request(HttpMethod::Patch, path, &no_query, Some(body), true, None)
    }

    /// Deletes any API path.
    pub fn delete_path(&self, path: &str) -> (r: Result<ApiRequest, TaigaError>)
        ensures
            outcome_view(r) == empty_request_spec(self@, HttpMethod::Delete, path@, Seq::empty(), None),
    {
        let no_query: Vec<(String, String)> = Vec::new();
        assert(pairs_view(no_query@) =~= Seq::empty());
        self.empty(HttpMethod::Delete, path, &no_query, None)
    }
}

/// A field of a partial update: left out of the body, set to a value, or
/// set to `null`.
#[derive(Debug)]
pub enum PatchField<T> {
    Unset,
    Value(T),
    Null,
}

impl PatchField<Json> {
    /// The JSON value the field is sent as, or `None` when it is left out.
    pub fn into_value(self) -> (r: Option<Json>)
        ensures
            match self {
                PatchField::Unset => r is None,
                PatchField::Value(v) => r == Some(v),
                PatchField::Null => r == Some(Json::Null),
            },
    {
        match self {
            PatchField::Unset => None,
            PatchField::Value(v) => Some(v),
            PatchField::Null => Some(Json::Null),
        }
    }
}

} // verus!
