//! Requests as values: what has to be sent to the server, and where.

use vstd::prelude::*;

verus! {

/// The name of the header that ties a request to a transaction.
pub const TRANSACTION_HEADER: &'static str = "x-arango-trx-id";

/// The way a request is made.
#[derive(Debug, Clone, Copy, PartialEq, Eq, Structural)]
pub enum Method {
    Get,
    Post,
    Put,
    Delete,
}

/// A request for the transport to send.
#[derive(Debug, PartialEq, Eq)]
pub struct Request {
    pub method: Method,
    /// The address, in full.
    pub url: String,
    pub body: String,
    /// Headers to set, each a name and a value.
    pub headers: Vec<(String, String)>,
}

/// The mathematical value of a [`Request`].
pub struct Call {
    pub method: Method,
    pub url: Seq<char>,
    pub body: Seq<char>,
    pub headers: Seq<(Seq<char>, Seq<char>)>,
}

impl View for Request {
    type V = Call;

    open spec fn view(&self) -> Call {
        Call {
            method: self.method,
            url: self.url@,
            body: self.body@,
            headers: Seq::new(
                self.headers@.len(),
                |i: int| (self.headers@[i].0@, self.headers@[i].1@),
            ),
        }
    }
}

/// The address that `Url::join` gives for `input` on the base address `base`,
/// as text; nothing where `base` is no address or `input` cannot be joined to it.
pub uninterp spec fn joined_url(base: Seq<char>, input: Seq<char>) -> Option<Seq<char>>;

/// `url::ParseError`, which says no more here than that there is no address.
#[verifier::external_type_specification]
#[verifier::external_body]
pub struct ExParseError(url::ParseError);

/// Calls `Url::join` on `base`, read by `Url::parse`, and hands the address back
/// as text. The contract names the outcome: the address is the one that
/// [`joined_url`] gives, and the call fails exactly where that gives nothing.
#[verifier::external_body]
pub(crate) fn join_url(base: &str, input: &str) -> (r: Result<String, url::ParseError>)
    ensures
        match r {
            Ok(address) => joined_url(base@, input@) == Some(address@),
            Err(_) => joined_url(base@, input@) is None,
        },
{
    Ok(url::Url::parse(base)?.join(input)?.into())
}

/// The request that goes to `path` under `base` for the transaction `id`, where
/// `joined` is the address of `path`: none where there is no such address.
pub open spec fn scoped_call(
    method: Method,
    joined: Option<Seq<char>>,
    body: Seq<char>,
    id: Seq<char>,
) -> Option<Call> {
    match joined {
        Some(url) => Some(Call { method, url, body, headers: seq![(TRANSACTION_HEADER@, id)] }),
        None => None,
    }
}

/// Makes the request that goes to the address `url` inside the transaction
/// `id`: it carries the transaction's identifier in [`TRANSACTION_HEADER`].
pub fn scoped_request(method: Method, url: String, body: String, id: &String) -> (r: Request)
    ensures
        Some(r@) == scoped_call(method, Some(url@), body@, id@),
{
    let mut headers: Vec<(String, String)> = Vec::new();
    headers.push((String::from_str(TRANSACTION_HEADER), id.clone()));
    let r = Request { method, url, body, headers };
    assert(r@.headers =~= seq![(TRANSACTION_HEADER@, id@)]);
    r
}

} // verus!
