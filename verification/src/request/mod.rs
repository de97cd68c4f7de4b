//! Requests to the service and what becomes of their responses.
//!
//! Nothing here touches the network. A [`Request`] says what is to be sent,
//! [`Request::prepare`] turns it into what the transport needs, and
//! [`classify_status`] and [`finish_response`] decide what a response means.

use vstd::prelude::*;
use vstd::string::StringExecFns;
use vstd::std_specs::convert::FromSpecImpl;
use crate::text::{decimal_string, decimal_text, is_digit};

pub mod models;
pub mod paths;

verus! {

/// The address that every path is appended to.
pub const TODOIST_API_URL: &'static str = "https://api.todoist.com/rest/v2";

/// The header that carries the token by which the service recognises a request
/// that is sent twice.
pub const REQUEST_ID_HEADER: &'static str = "X-Request-Id";

/// The error of the HTTP client: a request that could not be sent, a redirect
/// loop, an exhausted redirect limit.
#[verifier::external_type_specification]
#[verifier::external_body]
pub struct ExReqwestError(reqwest::Error);

/// The error of the JSON decoder.
#[verifier::external_type_specification]
#[verifier::external_body]
pub struct ExJsonError(serde_json::Error);

/// A response with a status in 400..=499.
#[derive(Debug, Clone, Copy)]
pub struct InvalidRequestError {
    status_code: u16,
}

impl InvalidRequestError {
    #[verifier::type_invariant]
    spec fn in_class(self) -> bool {
        400 <= self.status_code <= 499
    }

    /// The status of the response.
    pub closed spec fn status(self) -> u16 {
        self.status_code
    }

    pub(crate) fn new(status_code: u16) -> (e: Self)
        requires
            400 <= status_code <= 499,
        ensures
            e.status() == status_code,
    {
        InvalidRequestError { status_code }
    }

    /// The status of the response.
    pub fn status_code(&self) -> (code: u16)
        ensures
            code == self.status(),
            400 <= code <= 499,
    {
        proof {
            use_type_invariant(self);
        }
        self.status_code
    }

    /// The text that describes the error.
    pub open spec fn text(self) -> Seq<char> {
        "Invalid request - Status code: "@ + decimal_text(self.status() as nat)
    }

    /// Describes the error.
    pub fn to_string(&self) -> (s: String)
        ensures
            s@ == self.text(),
    {
        let mut s = String::from_str("Invalid request - Status code: ");
        let code = decimal_string(self.status_code as u64);
        s.append(code.as_str());
        s
    }
}

/// A response with a status in 500..=599.
#[derive(Debug, Clone, Copy)]
pub struct ServerError {
    status_code: u16,
}

impl ServerError {
    #[verifier::type_invariant]
    spec fn in_class(self) -> bool {
        500 <= self.status_code <= 599
    }

    /// The status of the response.
    pub closed spec fn status(self) -> u16 {
        self.status_code
    }

    pub(crate) fn new(status_code: u16) -> (e: Self)
        requires
            500 <= status_code <= 599,
        ensures
            e.status() == status_code,
    {
        ServerError { status_code }
    }

    /// The status of the response.
    pub fn status_code(&self) -> (code: u16)
        ensures
            code == self.status(),
            500 <= code <= 599,
    {
        proof {
            use_type_invariant(self);
        }
        self.status_code
    }

    /// The text that describes the error.
    pub open spec fn text(self) -> Seq<char> {
        "Server error - Status code: "@ + decimal_text(self.status() as nat)
    }

    /// Describes the error.
    pub fn to_string(&self) -> (s: String)
        ensures
            s@ == self.text(),
    {
        let mut s = String::from_str("Server error - Status code: ");
        let code = decimal_string(self.status_code as u64);
        s.append(code.as_str());
        s
    }
}

/// Arguments that the library refuses before anything is sent.
#[derive(Debug, Clone)]
pub struct APIParametersError {
    pub(crate) message: String,
}

impl APIParametersError {
    /// What is wrong with the arguments.
    pub closed spec fn reason(self) -> Seq<char> {
        self.message@
    }

    pub(crate) fn new(message: String) -> (e: Self)
        ensures
            e.reason() == message@,
    {
        APIParametersError { message }
    }

    /// What is wrong with the arguments.
    pub fn message(&self) -> (m: &str)
        ensures
            m@ == self.reason(),
    {
        self.message.as_str()
    }

    /// The text that describes the error.
    pub open spec fn text(self) -> Seq<char> {
        "API parameters error - "@ + self.reason()
    }

    /// Describes the error.
    pub fn to_string(&self) -> (s: String)
        ensures
            s@ == self.text(),
    {
        let mut s = String::from_str("API parameters error - ");
        s.append(self.message.as_str());
        s
    }
}

/// Why a call did not give its result.
#[derive(Debug)]
pub enum TodoistAPIError {
    /// The service answered with a status in 400..=499.
    InvalidRequest(InvalidRequestError),
    /// The service answered with a status in 500..=599.
    ServerError(ServerError),
    /// The request could not be sent, a redirect loop was detected, or the
    /// redirect limit was exhausted.
    RequestSendError(reqwest::Error),
    /// The arguments were refused before anything was sent.
    APIParametersError(APIParametersError),
    /// The body of the response is not what the call expects.
    ResponseJSONParseError(serde_json::Error),
}

/// What `reqwest::Error` prints of itself through `Display`. Nothing is claimed
/// of the text.
#[verifier::external_body]
fn send_error_text(error: &reqwest::Error) -> (text: String) {
    error.to_string()
}

/// What `serde_json::Error` prints of itself through `Display`. Nothing is
/// claimed of the text.
#[verifier::external_body]
fn parse_error_text(error: &serde_json::Error) -> (text: String) {
    error.to_string()
}

impl TodoistAPIError {
    /// Describes the error as the error inside describes itself.
    pub fn to_string(&self) -> (s: String)
        ensures
            self matches TodoistAPIError::InvalidRequest(e) ==> s@ == e.text(),
            self matches TodoistAPIError::ServerError(e) ==> s@ == e.text(),
            self matches TodoistAPIError::APIParametersError(e) ==> s@ == e.text(),
    {
        match self {
            TodoistAPIError::InvalidRequest(e) => e.to_string(),
            TodoistAPIError::ServerError(e) => e.to_string(),
            TodoistAPIError::RequestSendError(e) => send_error_text(e),
            TodoistAPIError::APIParametersError(e) => e.to_string(),
            TodoistAPIError::ResponseJSONParseError(e) => parse_error_text(e),
        }
    }
}

impl From<InvalidRequestError> for TodoistAPIError {
    fn from(value: InvalidRequestError) -> (e: Self) {
        TodoistAPIError::InvalidRequest(value)
    }
}

impl FromSpecImpl<InvalidRequestError> for TodoistAPIError {
    open spec fn obeys_from_spec() -> bool {
        true
    }

    open spec fn from_spec(value: InvalidRequestError) -> Self {
        TodoistAPIError::InvalidRequest(value)
    }
}

impl From<ServerError> for TodoistAPIError {
    fn from(value: ServerError) -> (e: Self) {
        TodoistAPIError::ServerError(value)
    }
}

impl FromSpecImpl<ServerError> for TodoistAPIError {
    open spec fn obeys_from_spec() -> bool {
        true
    }

    open spec fn from_spec(value: ServerError) -> Self {
        TodoistAPIError::ServerError(value)
    }
}

impl From<reqwest::Error> for TodoistAPIError {
    fn from(value: reqwest::Error) -> (e: Self) {
        TodoistAPIError::RequestSendError(value)
    }
}

impl FromSpecImpl<reqwest::Error> for TodoistAPIError {
    open spec fn obeys_from_spec() -> bool {
        true
    }

    open spec fn from_spec(value: reqwest::Error) -> Self {
        TodoistAPIError::RequestSendError(value)
    }
}

impl From<serde_json::Error> for TodoistAPIError {
    fn from(value: serde_json::Error) -> (e: Self) {
        TodoistAPIError::ResponseJSONParseError(value)
    }
}

impl FromSpecImpl<serde_json::Error> for TodoistAPIError {
    open spec fn obeys_from_spec() -> bool {
        true
    }

    open spec fn from_spec(value: serde_json::Error) -> Self {
        TodoistAPIError::ResponseJSONParseError(value)
    }
}

impl From<APIParametersError> for TodoistAPIError {
    fn from(value: APIParametersError) -> (e: Self) {
        TodoistAPIError::APIParametersError(value)
    }
}

impl FromSpecImpl<APIParametersError> for TodoistAPIError {
    open spec fn obeys_from_spec() -> bool {
        true
    }

    open spec fn from_spec(value: APIParametersError) -> Self {
        TodoistAPIError::APIParametersError(value)
    }
}

/// The verbs that the service is addressed with.
#[derive(Debug, Clone, Copy, PartialEq, Eq, Structural)]
pub enum RequestMethod {
    Get,
    Post,
    Delete,
}

impl RequestMethod {
    /// The verb as HTTP writes it.
    pub open spec fn token(self) -> Seq<char> {
        match self {
            RequestMethod::Get => "GET"@,
            RequestMethod::Post => "POST"@,
            RequestMethod::Delete => "DELETE"@,
        }
    }

    /// The verb as HTTP writes it.
    pub fn as_str(&self) -> (name: &'static str)
        ensures
            name@ == self.token(),
    {
        match self {
            RequestMethod::Get => "GET",
            RequestMethod::Post => "POST",
            RequestMethod::Delete => "DELETE",
        }
    }
}

/// A path that starts at the root: its first character is `/`.
pub open spec fn is_rooted(path: Seq<char>) -> bool {
    path.len() > 0 && path[0] == '/'
}

/// A digit of a lower-case hexadecimal number.
pub open spec fn is_lower_hex(c: char) -> bool {
    is_digit(c) || ('a' <= c && c <= 'f')
}

/// The shape of the token in the request-id header: 32 lower-case hexadecimal
/// digits.
pub open spec fn is_request_id(token: Seq<char>) -> bool {
    &&& token.len() == 32
    &&& forall|i: int| 0 <= i < token.len() ==> is_lower_hex(#[trigger] token[i])
}

/// A fresh token for the request-id header: `uuid::Uuid::new_v4`, written by
/// `as_simple` and `to_string`. The crate fills the identifier from the system's
/// random source and prints its 16 bytes as 32 lower-case hexadecimal digits;
/// that shape is all that is claimed. Two calls are not claimed to differ, nor to
/// agree. The call panics where the system has no random source to offer.
#[verifier::external_body]
fn new_request_id() -> (token: String)
    ensures
        is_request_id(token@),
{
    uuid::Uuid::new_v4().as_simple().to_string()
}

/// What a call wants sent.
pub struct Request<B> {
    pub method: RequestMethod,
    /// The path below [`TODOIST_API_URL`].
    pub path: String,
    /// What is to be serialized into the body.
    pub body: Option<B>,
    /// Whether the request must carry a request-id header, as every request
    /// does that would do harm if the service saw it twice.
    pub include_request_id: bool,
}

/// What the transport is handed.
pub struct PreparedRequest<B> {
    pub method: RequestMethod,
    /// The address in full.
    pub url: String,
    /// What is to be serialized into the body.
    pub body: Option<B>,
    /// The value of the [`REQUEST_ID_HEADER`], where the request carries one.
    pub request_id: Option<String>,
}

impl Request<()> {
    /// The request that reads what lies at `path`.
    pub fn get(path: String) -> (request: Self)
        ensures
            request.asks(RequestMethod::Get, path@, None, false),
    {
        Request { method: RequestMethod::Get, path, body: None, include_request_id: false }
    }

    /// The request that deletes what lies at `path`.
    pub fn delete(path: String) -> (request: Self)
        ensures
            request.asks(RequestMethod::Delete, path@, None, false),
    {
        Request { method: RequestMethod::Delete, path, body: None, include_request_id: false }
    }
}

impl<B> Request<B> {
    /// The request is made of these four parts.
    pub open spec fn asks(
        self,
        method: RequestMethod,
        path: Seq<char>,
        body: Option<B>,
        include_request_id: bool,
    ) -> bool {
        &&& self.method == method
        &&& self.path@ == path
        &&& self.body == body
        &&& self.include_request_id == include_request_id
    }

    /// The request that posts `data` to `path`.
    pub fn post(path: String, data: Option<B>, include_request_id: bool) -> (request: Self)
        ensures
            request.asks(RequestMethod::Post, path@, data, include_request_id),
    {
        Request { method: RequestMethod::Post, path, body: data, include_request_id }
    }

    /// The request with its address in full and the given request-id.
    pub fn prepare_with(self, request_id: Option<String>) -> (prepared: PreparedRequest<B>)
        requires
            is_rooted(self.path@),
        ensures
            prepared.method == self.method,
            prepared.url@ == TODOIST_API_URL@ + self.path@,
            prepared.body == self.body,
            prepared.request_id == request_id,
    {
        let mut url = String::from_str(TODOIST_API_URL);
        url.append(self.path.as_str());
        PreparedRequest { method: self.method, url, body: self.body, request_id }
    }

    /// The request as the transport needs it. Where the request asks for a
    /// request-id, it gets a fresh one.
    pub fn prepare(self) -> (prepared: PreparedRequest<B>)
        requires
            is_rooted(self.path@),
        ensures
            prepared.method == self.method,
            prepared.url@ == TODOIST_API_URL@ + self.path@,
            prepared.body == self.body,
            self.include_request_id ==> (prepared.request_id matches Some(token) && is_request_id(
                token@,
            )),
            !self.include_request_id ==> prepared.request_id is None,
    {
        let request_id = if self.include_request_id {
            Some(new_request_id())
        } else {
            None
        };
        self.prepare_with(request_id)
    }
}

/// What is left to do once the status of a response is known.
#[derive(Debug, Clone, Copy, PartialEq, Eq, Structural)]
pub enum ResponseAction {
    /// The response has no content: the call is done and has nothing to decode.
    Finish,
    /// The body holds the result and is to be decoded.
    Decode,
}

/// What a status means. Statuses in 400..=499 and 500..=599 are errors, whatever
/// the body holds; 204 ends the call without a body; with any other status the
/// body is decoded.
pub open spec fn status_meaning(status: u16) -> Result<ResponseAction, u16> {
    if 400 <= status <= 599 {
        Err(status)
    } else if status == 204 {
        Ok(ResponseAction::Finish)
    } else {
        Ok(ResponseAction::Decode)
    }
}

/// Decides by the status alone, before the body is looked at, what becomes of a
/// response.
pub fn classify_status(status: u16) -> (outcome: Result<ResponseAction, TodoistAPIError>)
    ensures
        match outcome {
            Ok(action) => status_meaning(status) == Ok::<ResponseAction, u16>(action),
            Err(TodoistAPIError::InvalidRequest(e)) => 400 <= status <= 499 && e.status()
                == status,
            Err(TodoistAPIError::ServerError(e)) => 500 <= status <= 599 && e.status() == status,
            Err(_) => false,
        },
{
    if 400 <= status && status <= 499 {
        Err(TodoistAPIError::InvalidRequest(InvalidRequestError::new(status)))
    } else if 500 <= status && status <= 599 {
        Err(TodoistAPIError::ServerError(ServerError::new(status)))
    } else if status == 204 {
        Ok(ResponseAction::Finish)
    } else {
        Ok(ResponseAction::Decode)
    }
}

/// The result of a call whose response was to be decoded: the decoded value, or
/// the decoder's error as [`TodoistAPIError::ResponseJSONParseError`].
pub fn finish_response<T>(decoded: Result<T, serde_json::Error>) -> (outcome: Result<
    Option<T>,
    TodoistAPIError,
>)
    ensures
        match decoded {
            Ok(value) => outcome == Ok::<Option<T>, TodoistAPIError>(Some(value)),
            Err(error) => outcome == Err::<Option<T>, TodoistAPIError>(
                TodoistAPIError::ResponseJSONParseError(error),
            ),
        },
{
    match decoded {
        Ok(value) => Ok(Some(value)),
        Err(error) => Err(TodoistAPIError::ResponseJSONParseError(error)),
    }
}

} // verus!
