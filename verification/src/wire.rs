//! Requests as the library describes them, and responses as it takes them.

use crate::error::ApiError;
use crate::error::ApiErrorView;
use vstd::prelude::*;

verus! {

/// The status of a response that carries what was asked for.
pub const OK: u16 = 200;

/// The status of a response to a request that the server could not take.
pub const BAD_REQUEST: u16 = 400;

/// The status of a response that refuses the credentials.
pub const UNAUTHORIZED: u16 = 401;

/// The name of the header that carries a token.
pub const AUTHORIZATION: &'static str = "authorization";

/// How a request is made.
#[derive(Debug, Clone, Copy, PartialEq, Eq, Structural)]
pub enum Method {
    Get,
    Post,
}

/// A request as plain text.
pub struct RequestView {
    pub method: Method,
    pub url: Seq<char>,
    pub authorization: Option<Seq<char>>,
    pub query: Seq<(Seq<char>, Seq<char>)>,
    pub body: Option<Seq<char>>,
}

/// A request that is to be sent: where it goes, the value of its
/// `authorization` header, the pairs of its query string and its body.
#[derive(Debug)]
pub struct Request {
    pub method: Method,
    pub url: String,
    pub authorization: Option<String>,
    pub query: Vec<(String, String)>,
    pub body: Option<String>,
}

/// The text of an optional string.
pub open spec fn text_of(s: Option<String>) -> Option<Seq<char>> {
    match s {
        Some(s) => Some(s@),
        None => None,
    }
}

/// The texts of a list of pairs.
pub open spec fn pairs_of(pairs: Seq<(String, String)>) -> Seq<(Seq<char>, Seq<char>)> {
    pairs.map_values(|pair: (String, String)| (pair.0@, pair.1@))
}

/// The view of an optional request.
pub open spec fn request_of(request: Option<Request>) -> Option<RequestView> {
    match request {
        Some(request) => Some(request@),
        None => None,
    }
}

impl View for Request {
    type V = RequestView;

    open spec fn view(&self) -> RequestView {
        RequestView {
            method: self.method,
            url: self.url@,
            authorization: text_of(self.authorization),
            query: pairs_of(self.query@),
            body: text_of(self.body),
        }
    }
}

/// A response. `refused` is the error that the transport makes of the
/// status, where it makes one. The body is read in both shapes that the
/// status can ask for: `error` is the body read as the server's error
/// envelope, `payload` is the body read as what the call expects.
#[derive(Debug)]
pub struct Reply<D> {
    pub status: u16,
    pub refused: Option<reqwest::Error>,
    pub error: Result<ApiError, serde_json::Error>,
    pub payload: Result<D, serde_json::Error>,
}

/// The API error that a response stands for where its status alone says
/// that the call has failed: the server's own error where the body holds
/// one, and the error of an unexpected status where it holds none.
pub open spec fn api_failure<D>(reply: Reply<D>) -> ApiErrorView {
    match reply.error {
        Ok(error) => error@,
        Err(_) => ApiError::unexpected(reply.status),
    }
}

impl<D> Reply<D> {
    /// The API error that the response stands for where its status alone
    /// says that the call has failed.
    pub fn api_error(self) -> (error: ApiError)
        ensures
            error@ == api_failure(self),
            self.error matches Ok(reported) ==> error == reported,
    {
        match self.error {
            Ok(error) => error,
            Err(_) => ApiError::unexpected_status(self.status),
        }
    }
}

/// Whether a status lies in the success range.
pub open spec fn success(status: u16) -> bool {
    200 <= status < 300
}

/// Whether a status lies in the success range.
pub fn is_success(status: u16) -> (r: bool)
    ensures
        r == success(status),
{
    200 <= status && status < 300
}

/// The text of the URL that `reference` names when it is read against the URL
/// that `base` spells; `None` where `base` spells no URL or the two do not
/// join.
pub uninterp spec fn joined_url(base: Seq<char>, reference: Seq<char>) -> Option<Seq<char>>;

/// `reqwest::Url::parse` on `base`, then `Url::join` with `reference`, then the
/// URL as a `String`. Neither call is proved: the contract names what they
/// give and says that a failure of either gives `None`.
#[verifier::external_body]
fn join_url(base: &str, reference: &str) -> (url: Option<String>)
    ensures
        text_of(url) == joined_url(base@, reference@),
{
    reqwest::Url::parse(base).ok()?.join(reference).ok().map(String::from)
}

/// The JSON string literal that spells `text`: quoted, and escaped where JSON
/// asks for it.
pub uninterp spec fn json_string(text: Seq<char>) -> Seq<char>;

/// `serde_json::Value::to_string` on a `Value::String` of `text`. The call is
/// not proved: the contract names what it gives.
#[verifier::external_body]
pub(crate) fn quote_json(text: &str) -> (literal: String)
    ensures
        literal@ == json_string(text@),
{
    serde_json::Value::String(text.to_owned()).to_string()
}

/// The value of the `authorization` header that carries `token`.
pub open spec fn bearer(token: Seq<char>) -> Seq<char> {
    "Bearer "@ + token
}

/// The value of the `authorization` header that carries `token`.
pub fn bearer_header(token: &str) -> (header: String)
    ensures
        header@ == bearer(token@),
{
    let mut header = String::from_str("Bearer ");
    header.append(token);
    header
}

/// The URL under which the procedure `nsid` of the service at `service` is
/// called: `xrpc/` and the procedure's name, read against the service's URL.
/// `None` where the two make no URL.
pub open spec fn endpoint(service: Seq<char>, nsid: Seq<char>) -> Option<Seq<char>> {
    joined_url(service, "xrpc/"@ + nsid)
}

/// The URL under which the procedure `nsid` of the service at `service` is
/// called; `None` where the two make no URL.
pub fn endpoint_url(service: &str, nsid: &str) -> (url: Option<String>)
    ensures
        text_of(url) == endpoint(service@, nsid@),
{
    let mut path = String::from_str("xrpc/");
    path.append(nsid);
    join_url(service, path.as_str())
}

} // verus!
