use vstd::prelude::*;
use vstd::string::{StrSliceExecFns, StringExecFns};
use crate::error::BrainAIError;

verus! {

/// The HTTP methods that the service accepts.
#[derive(Clone, Copy, Debug, PartialEq, Eq, Structural)]
pub enum HttpMethod {
    Get,
    Post,
    Put,
    Patch,
    Delete,
}

/// The upper-case name of a method.
pub open spec fn method_name(m: HttpMethod) -> Seq<char> {
    match m {
        HttpMethod::Get => "GET"@,
        HttpMethod::Post => "POST"@,
        HttpMethod::Put => "PUT"@,
        HttpMethod::Patch => "PATCH"@,
        HttpMethod::Delete => "DELETE"@,
    }
}

/// `s` with every trailing `/` removed.
pub open spec fn trim_trailing_slashes(s: Seq<char>) -> Seq<char>
    decreases s.len(),
{
    if s.len() > 0 && s.last() == '/' {
        trim_trailing_slashes(s.drop_last())
    } else {
        s
    }
}

/// The URL of `endpoint` on the service at `base_url`.
pub open spec fn url_of(base_url: Seq<char>, endpoint: Seq<char>) -> Seq<char> {
    trim_trailing_slashes(base_url) + "/"@ + endpoint
}

/// Whether an HTTP status code reports success.
pub open spec fn is_success_status(status: u16) -> bool {
    200 <= status < 300
}

/// The result of a request whose answer came with `status` and whose body
/// read as `body` (or failed to read, with the reason).
pub open spec fn outcome_of(status: u16, body: Result<Seq<char>, Seq<char>>) -> Result<
    Seq<char>,
    (Option<u16>, Seq<char>),
> {
    if is_success_status(status) {
        match body {
            Ok(text) => Ok(text),
            Err(why) => Err((None, "Failed to read response: "@ + why)),
        }
    } else {
        match body {
            Ok(text) => Err((Some(status), text)),
            Err(_) => Err((Some(status), "Unknown error"@)),
        }
    }
}

/// The text of a body that was read, or the reason why it was not.
pub open spec fn body_view(body: Result<String, String>) -> Result<Seq<char>, Seq<char>> {
    match body {
        Ok(text) => Ok(text@),
        Err(why) => Err(why@),
    }
}

/// What an error says in the terms of `outcome_of`: the status of an HTTP
/// error, or none for a failure described by a message.
pub open spec fn error_summary(e: BrainAIError) -> Option<(Option<u16>, Seq<char>)> {
    match e {
        BrainAIError::HttpError { status, message } => Some((Some(status), message@)),
        BrainAIError::Other(message) => Some((None, message@)),
        _ => None,
    }
}

fn same_text(a: &str, b: &str) -> (r: bool)
    ensures
        r == (a@ == b@),
{
    String::from_str(a) == String::from_str(b)
}

impl HttpMethod {
    /// The method named `method`; any other name is refused with a message
    /// that quotes it.
    pub fn parse(method: &str) -> (r: Result<HttpMethod, BrainAIError>)
        ensures
            r is Ok <==> exists|m: HttpMethod| method_name(m) == method@,
            r is Ok ==> method_name(r->Ok_0) == method@,
            r is Err ==> error_summary(r->Err_0) == Some(
                (None::<u16>, "Unsupported method: "@ + method@),
            ),
    {
        if same_text(method, "GET") {
            assert(method_name(HttpMethod::Get) == method@);
            Ok(HttpMethod::Get)
        } else if same_text(method, "POST") {
            assert(method_name(HttpMethod::Post) == method@);
            Ok(HttpMethod::Post)
        } else if same_text(method, "PUT") {
            assert(method_name(HttpMethod::Put) == method@);
            Ok(HttpMethod::Put)
        } else if same_text(method, "PATCH") {
            assert(method_name(HttpMethod::Patch) == method@);
            Ok(HttpMethod::Patch)
        } else if same_text(method, "DELETE") {
            assert(method_name(HttpMethod::Delete) == method@);
            Ok(HttpMethod::Delete)
        } else {
            let message = String::from_str("Unsupported method: ").concat(method);
            Err(BrainAIError::Other(message))
        }
    }

    /// The upper-case name of this method.
    pub fn name(&self) -> (r: &'static str)
        ensures
            r@ == method_name(*self),
    {
        match self {
            HttpMethod::Get => "GET",
            HttpMethod::Post => "POST",
            HttpMethod::Put => "PUT",
            HttpMethod::Patch => "PATCH",
            HttpMethod::Delete => "DELETE",
        }
    }
}

proof fn lemma_trim_prefix(s: Seq<char>, end: int)
    requires
        0 <= end < s.len(),
        s[end] != '/',
    ensures
        trim_trailing_slashes(s.subrange(0, end + 1)) == s.subrange(0, end + 1),
{
}

/// Joins the service's base URL and an endpoint: trailing slashes of the base
/// are dropped, and one slash separates the two.
pub fn request_url(base_url: &str, endpoint: &str) -> (r: String)
    ensures
        r@ == url_of(base_url@, endpoint@),
{
    let mut end: usize = base_url.unicode_len();
    assert(base_url@.subrange(0, end as int) =~= base_url@);
    while end > 0 && base_url.get_char(end - 1) == '/'
        invariant
            end <= base_url@.len(),
            trim_trailing_slashes(base_url@) == trim_trailing_slashes(
                base_url@.subrange(0, end as int),
            ),
        decreases end,
    {
        assert(base_url@.subrange(0, end as int).drop_last() =~= base_url@.subrange(
            0,
            end - 1,
        ));
        end = end - 1;
    }
    let base = base_url.substring_char(0, end);
    proof {
        if end > 0 {
            lemma_trim_prefix(base_url@, end - 1);
        }
    }
    String::from_str(base).concat("/").concat(endpoint)
}

/// The value of the `Authorization` header for an API key.
pub fn bearer_header(api_key: &str) -> (r: String)
    ensures
        r@ == "Bearer "@ + api_key@,
{
    String::from_str("Bearer ").concat(api_key)
}

/// The headers of every request: a JSON content type, and the bearer token
/// when an API key is configured.
pub open spec fn headers_of(api_key: Option<Seq<char>>) -> Seq<(Seq<char>, Seq<char>)> {
    let base = seq![("Content-Type"@, "application/json"@)];
    match api_key {
        Some(k) => base.push(("Authorization"@, "Bearer "@ + k)),
        None => base,
    }
}

/// The text of a header pair.
pub open spec fn header_view(h: (String, String)) -> (Seq<char>, Seq<char>) {
    (h.0@, h.1@)
}

/// The text of an optional key.
pub open spec fn key_view(api_key: Option<&str>) -> Option<Seq<char>> {
    match api_key {
        Some(k) => Some(k@),
        None => None,
    }
}

/// The headers, as name and value, that go with a request to the service.
pub fn request_headers(api_key: Option<&str>) -> (r: Vec<(String, String)>)
    ensures
        r@.map_values(|h: (String, String)| header_view(h)) == headers_of(key_view(api_key)),
{
    let mut headers: Vec<(String, String)> = Vec::new();
    headers.push((String::from_str("Content-Type"), String::from_str("application/json")));
    match api_key {
        Some(k) => {
            headers.push((String::from_str("Authorization"), bearer_header(k)));
        },
        None => {},
    }
    assert(headers@.map_values(|h: (String, String)| header_view(h)) =~= headers_of(
        key_view(api_key),
    ));
    headers
}

/// Whether `status` lies in the success range.
pub fn status_is_success(status: u16) -> (r: bool)
    ensures
        r == is_success_status(status),
{
    200 <= status && status < 300
}

/// Turns the status of an answer and the outcome of reading its body into
/// the body text or an error: a failed status becomes an HTTP error carrying
/// the body (or a fixed message when the body could not be read).
pub fn check_response(status: u16, body: Result<String, String>) -> (r: Result<String, BrainAIError>)
    ensures
        match outcome_of(status, body_view(body)) {
            Ok(text) => r is Ok && r->Ok_0@ == text,
            Err(summary) => r is Err && error_summary(r->Err_0) == Some(summary),
        },
{
    if status_is_success(status) {
        match body {
            Ok(text) => Ok(text),
            Err(why) => {
                let message = String::from_str("Failed to read response: ").concat(why.as_str());
                Err(BrainAIError::Other(message))
            },
        }
    } else {
        match body {
            Ok(text) => Err(BrainAIError::HttpError { status, message: text }),
            Err(_) => Err(BrainAIError::HttpError { status, message: String::from_str("Unknown error") }),
        }
    }
}

} // verus!
