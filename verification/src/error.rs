//! What can go wrong, and how the library tells one failure from another.

use crate::storage::Storage;
use vstd::prelude::*;

verus! {

/// `reqwest::Error`: why a request got no response. The library hands such a
/// value on and never looks inside.
#[verifier::external_type_specification]
#[verifier::external_body]
pub struct ExReqwestError(reqwest::Error);

/// `serde_json::Error`: why a text could not be read as the expected JSON. The
/// library hands such a value on and never looks inside.
#[verifier::external_type_specification]
#[verifier::external_body]
pub struct ExJsonError(serde_json::Error);

/// The code and the message of an `ApiError` as plain text.
pub struct ApiErrorView {
    pub error: Seq<char>,
    pub message: Seq<char>,
}

/// An error that the server reported in its own envelope.
#[derive(Debug)]
pub struct ApiError {
    pub error: String,
    pub message: String,
}

impl View for ApiError {
    type V = ApiErrorView;

    open spec fn view(&self) -> ApiErrorView {
        ApiErrorView { error: self.error@, message: self.message@ }
    }
}

impl ApiError {
    /// Whether the code says that the access token has run out.
    pub open spec fn expired_token(&self) -> bool {
        self.error@ == "ExpiredToken"@
    }

    /// Whether the code says that the access token has run out.
    pub fn is_expired_token(&self) -> (r: bool)
        ensures
            r == self.expired_token(),
    {
        let code = String::from_str("ExpiredToken");
        self.error == code
    }
}

/// The code of the error that stands for a status that the protocol does not
/// know.
pub const UNEXPECTED_STATUS: &'static str = "UnexpectedStatus";

/// The decimal digit `d` as text.
pub open spec fn digit(d: nat) -> Seq<char> {
    if d == 0 {
        "0"@
    } else if d == 1 {
        "1"@
    } else if d == 2 {
        "2"@
    } else if d == 3 {
        "3"@
    } else if d == 4 {
        "4"@
    } else if d == 5 {
        "5"@
    } else if d == 6 {
        "6"@
    } else if d == 7 {
        "7"@
    } else if d == 8 {
        "8"@
    } else {
        "9"@
    }
}

/// The number `n` in decimal, without leading zeros.
pub open spec fn decimal(n: nat) -> Seq<char>
    decreases n,
{
    if n < 10 {
        digit(n)
    } else {
        decimal(n / 10) + digit(n % 10)
    }
}

/// The decimal digit `d` as text.
fn digit_text(d: u16) -> (text: &'static str)
    requires
        d < 10,
    ensures
        text@ == digit(d as nat),
{
    if d == 0 {
        "0"
    } else if d == 1 {
        "1"
    } else if d == 2 {
        "2"
    } else if d == 3 {
        "3"
    } else if d == 4 {
        "4"
    } else if d == 5 {
        "5"
    } else if d == 6 {
        "6"
    } else if d == 7 {
        "7"
    } else if d == 8 {
        "8"
    } else {
        "9"
    }
}

/// The number `n` in decimal, without leading zeros.
pub fn decimal_text(n: u16) -> (text: String)
    ensures
        text@ == decimal(n as nat),
    decreases n,
{
    if n < 10 {
        String::from_str(digit_text(n))
    } else {
        let mut text = decimal_text(n / 10);
        text.append(digit_text(n % 10));
        text
    }
}

impl ApiError {
    /// The error that stands for a response whose status the protocol does
    /// not know and whose body is no error of the server: its code says so,
    /// and its message is the status in decimal.
    pub open spec fn unexpected(status: u16) -> ApiErrorView {
        ApiErrorView { error: UNEXPECTED_STATUS@, message: decimal(status as nat) }
    }

    /// The error that stands for a response whose status the protocol does
    /// not know and whose body is no error of the server.
    pub fn unexpected_status(status: u16) -> (error: ApiError)
        ensures
            error@ == ApiError::unexpected(status),
    {
        ApiError { error: String::from_str(UNEXPECTED_STATUS), message: decimal_text(status) }
    }
}

/// Why a login did not end in a stored session.
#[derive(Debug)]
pub enum LoginError<T: Storage> {
    /// The request got no response.
    Reqwest(reqwest::Error),
    /// The server did not grant a session: the error that it reported, or
    /// the one that stands for a status that a login does not know.
    Api(ApiError),
    /// The server asks for credentials, with its message. No login ends
    /// so: a refusal of the credentials is an `Api` error.
    AuthenticationRequired(String),
    /// The body of the response was not what its status promised.
    Json(serde_json::Error),
    /// The credentials were accepted, but the session could not be stored.
    Storage(T::Error),
}

/// Why a refresh did not end in new tokens.
#[derive(Debug)]
pub enum RefreshError<T: Storage> {
    /// The request got no response, or a response whose status is a failure
    /// of the exchange itself.
    Reqwest(reqwest::Error),
    /// The new session could not be stored; the old one stays in use.
    Storage(T::Error),
    /// The server answered with a status outside the success range of which
    /// the transport made no error.
    Api(ApiError),
    /// The server gave nothing to go by. No refresh ends so.
    Blank,
    /// The body of the response was no session.
    Json(serde_json::Error),
}

/// Why a call did not end in what it asked for.
#[derive(Debug)]
pub enum GetError<T: Storage> {
    /// A request got no response.
    Reqwest(reqwest::Error),
    /// The access token had run out, and no new one could be had.
    Refresh(RefreshError<T>),
    /// The server refused the call: the error that it reported, or the one
    /// that stands for a status that the call does not know.
    Api(ApiError),
    /// The body of the response was not what its status promised.
    Json(serde_json::Error),
}

/// Why a call with a body did not end in what it asked for.
#[derive(Debug)]
pub enum PostError<T: Storage> {
    /// A request got no response.
    Reqwest(reqwest::Error),
    /// The access token had run out, and no new one could be had.
    Refresh(RefreshError<T>),
    /// The body of the request could not be written, or the body of the
    /// response was not what its status promised.
    Json(serde_json::Error),
    /// The server refused the call: the error that it reported, or the one
    /// that stands for a status that the call does not know.
    Api(ApiError),
}

impl<T: Storage> From<reqwest::Error> for LoginError<T> {
    fn from(e: reqwest::Error) -> (r: Self) {
        LoginError::Reqwest(e)
    }
}

impl<T: Storage> vstd::std_specs::convert::FromSpecImpl<reqwest::Error> for LoginError<T> {
    open spec fn obeys_from_spec() -> bool {
        true
    }

    open spec fn from_spec(e: reqwest::Error) -> Self {
        LoginError::Reqwest(e)
    }
}

impl<T: Storage> From<reqwest::Error> for RefreshError<T> {
    fn from(e: reqwest::Error) -> (r: Self) {
        RefreshError::Reqwest(e)
    }
}

impl<T: Storage> vstd::std_specs::convert::FromSpecImpl<reqwest::Error> for RefreshError<T> {
    open spec fn obeys_from_spec() -> bool {
        true
    }

    open spec fn from_spec(e: reqwest::Error) -> Self {
        RefreshError::Reqwest(e)
    }
}

impl<T: Storage> From<reqwest::Error> for GetError<T> {
    fn from(e: reqwest::Error) -> (r: Self) {
        GetError::Reqwest(e)
    }
}

impl<T: Storage> vstd::std_specs::convert::FromSpecImpl<reqwest::Error> for GetError<T> {
    open spec fn obeys_from_spec() -> bool {
        true
    }

    open spec fn from_spec(e: reqwest::Error) -> Self {
        GetError::Reqwest(e)
    }
}

impl<T: Storage> From<RefreshError<T>> for GetError<T> {
    fn from(e: RefreshError<T>) -> (r: Self) {
        GetError::Refresh(e)
    }
}

impl<T: Storage> vstd::std_specs::convert::FromSpecImpl<RefreshError<T>> for GetError<T> {
    open spec fn obeys_from_spec() -> bool {
        true
    }

    open spec fn from_spec(e: RefreshError<T>) -> Self {
        GetError::Refresh(e)
    }
}

impl<T: Storage> From<reqwest::Error> for PostError<T> {
    fn from(e: reqwest::Error) -> (r: Self) {
        PostError::Reqwest(e)
    }
}

impl<T: Storage> vstd::std_specs::convert::FromSpecImpl<reqwest::Error> for PostError<T> {
    open spec fn obeys_from_spec() -> bool {
        true
    }

    open spec fn from_spec(e: reqwest::Error) -> Self {
        PostError::Reqwest(e)
    }
}

impl<T: Storage> From<RefreshError<T>> for PostError<T> {
    fn from(e: RefreshError<T>) -> (r: Self) {
        PostError::Refresh(e)
    }
}

impl<T: Storage> vstd::std_specs::convert::FromSpecImpl<RefreshError<T>> for PostError<T> {
    open spec fn obeys_from_spec() -> bool {
        true
    }

    open spec fn from_spec(e: RefreshError<T>) -> Self {
        PostError::Refresh(e)
    }
}

impl<T: Storage> From<serde_json::Error> for PostError<T> {
    fn from(e: serde_json::Error) -> (r: Self) {
        PostError::Json(e)
    }
}

impl<T: Storage> vstd::std_specs::convert::FromSpecImpl<serde_json::Error> for PostError<T> {
    open spec fn obeys_from_spec() -> bool {
        true
    }

    open spec fn from_spec(e: serde_json::Error) -> Self {
        PostError::Json(e)
    }
}

impl<T: Storage> From<GetError<T>> for PostError<T> {
    fn from(e: GetError<T>) -> (r: Self) {
        match e {
            GetError::Reqwest(e) => PostError::Reqwest(e),
            GetError::Refresh(e) => PostError::Refresh(e),
            GetError::Api(e) => PostError::Api(e),
            GetError::Json(e) => PostError::Json(e),
        }
    }
}

impl<T: Storage> vstd::std_specs::convert::FromSpecImpl<GetError<T>> for PostError<T> {
    open spec fn obeys_from_spec() -> bool {
        true
    }

    open spec fn from_spec(e: GetError<T>) -> Self {
        match e {
            GetError::Reqwest(e) => PostError::Reqwest(e),
            GetError::Refresh(e) => PostError::Refresh(e),
            GetError::Api(e) => PostError::Api(e),
            GetError::Json(e) => PostError::Json(e),
        }
    }
}

} // verus!
