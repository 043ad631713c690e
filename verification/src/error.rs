//! The one error type that every operation fails with.

use vstd::prelude::*;

verus! {

/// A failure that the server reported in its reply.
#[derive(Debug, PartialEq, Eq)]
pub struct ArangoError {
    code: u16,
    error_num: u16,
    message: String,
}

/// The mathematical value of an [`ArangoError`].
pub struct ServerFailure {
    pub code: u16,
    pub error_num: u16,
    pub message: Seq<char>,
}

impl View for ArangoError {
    type V = ServerFailure;

    closed spec fn view(&self) -> ServerFailure {
        ServerFailure { code: self.code, error_num: self.error_num, message: self.message@ }
    }
}

impl ArangoError {
    pub fn new(code: u16, error_num: u16, message: String) -> (r: ArangoError)
        ensures
            r@ == (ServerFailure { code, error_num, message: message@ }),
    {
        ArangoError { code, error_num, message }
    }

    /// The HTTP status code that the server answered with.
    pub fn code(&self) -> (r: u16)
        ensures
            r == self@.code,
    {
        self.code
    }

    /// The server's own number for the failure.
    pub fn error_num(&self) -> (r: u16)
        ensures
            r == self@.error_num,
    {
        self.error_num
    }

    /// The server's description of the failure.
    pub fn message(&self) -> (r: &str)
        ensures
            r@ == self@.message,
    {
        self.message.as_str()
    }
}

/// The part of a reply that was not as expected.
#[derive(Debug, Clone, Copy, PartialEq, Eq, Structural)]
pub enum Part {
    /// The reply as a whole, which has to be an object.
    Document,
    Error,
    Code,
    ErrorNum,
    ErrorMessage,
    Result,
    Id,
    Status,
    More,
    Name,
    State,
    Transactions,
}

/// Why an operation failed.
#[derive(Debug)]
pub enum ClientError {
    /// The request could not be sent, or no reply came back.
    HttpClient(String),
    /// The reply is no JSON document.
    Serde(serde_json::Error),
    /// The reply is a JSON document of another shape than the operation expects.
    Malformed(Part),
    /// The server reported a failure.
    Arango(ArangoError),
    /// A batch announced more results and named no cursor to ask for them.
    MissingCursorId,
}

/// The mathematical value of a [`ClientError`].
pub enum Failure {
    HttpClient(Seq<char>),
    Serde,
    Malformed(Part),
    Arango(ServerFailure),
    MissingCursorId,
}

impl View for ClientError {
    type V = Failure;

    open spec fn view(&self) -> Failure {
        match self {
            ClientError::HttpClient(why) => Failure::HttpClient(why@),
            ClientError::Serde(_) => Failure::Serde,
            ClientError::Malformed(part) => Failure::Malformed(*part),
            ClientError::Arango(e) => Failure::Arango(e@),
            ClientError::MissingCursorId => Failure::MissingCursorId,
        }
    }
}

} // verus!
