//! The handle of one server-side transaction.
//!
//! Every operation comes in two parts: the request to send, and the reading
//! of the reply. The handle keeps the status that the server reported when
//! the transaction began; commit and abort report the new status and leave
//! the handle as it is.

use std::sync::Arc;
use vstd::prelude::*;
use crate::aql::{query_doc, AqlQuery, Query};
use crate::cursor::{
    all_rows,
    lemma_rows_in_arrival_order,
    next_batch,
    run,
    step,
    Cursor,
    Page,
    Paging,
    Progress,
};
use crate::error::{ClientError, Failure};
use crate::json::{
    item_docs,
    lemma_item_docs_concat,
    member_docs,
    parsed_json,
    rendered_json,
    Json,
    JsonDoc,
};
use crate::request::{join_url, joined_url, scoped_call, scoped_request, Call, Method, Request};
use crate::response::{
    batch_read,
    collection_outcome,
    cursor_outcome,
    cursor_reply,
    deserialize_response,
    read_collection,
    transaction_outcome,
    transaction_reply,
};
use crate::status::{ArangoTransaction, Status};

verus! {

/// A transaction that was begun on the server.
pub struct Transaction<C> {
    id: String,
    status: Status,
    session: Arc<C>,
    base_url: String,
}

/// The mathematical value of a [`Transaction`].
pub struct Handle {
    pub id: Seq<char>,
    pub status: Status,
    pub base_url: Seq<char>,
}

impl<C> View for Transaction<C> {
    type V = Handle;

    closed spec fn view(&self) -> Handle {
        Handle { id: self.id@, status: self.status, base_url: self.base_url@ }
    }
}

/// A collection as seen from inside a transaction.
#[derive(Debug, PartialEq, Eq)]
pub struct Collection {
    pub id: String,
    pub name: String,
    /// The transaction that the collection is used in.
    pub transaction_id: String,
}

/// Where the server keeps a transaction.
pub open spec fn transaction_path(id: Seq<char>) -> Seq<char> {
    "_api/transaction/"@ + id
}

/// Where the server describes a collection.
pub open spec fn collection_path(name: Seq<char>) -> Seq<char> {
    "_api/collection/"@ + name
}

/// Where the server keeps a cursor.
pub open spec fn cursor_path(cursor_id: Seq<char>) -> Seq<char> {
    "_api/cursor/"@ + cursor_id
}

/// The value of a request that may be missing.
pub open spec fn call_of(request: Option<Request>) -> Option<Call> {
    match request {
        Some(request) => Some(request@),
        None => None,
    }
}

/// Where a query stands, its rows taken by their values.
pub open spec fn progress_docs(progress: Progress<Json>) -> Progress<JsonDoc> {
    match progress {
        Progress::Fetch { cursor_id, rows } => Progress::Fetch { cursor_id, rows: item_docs(rows) },
        Progress::Done { rows } => Progress::Done { rows: item_docs(rows) },
    }
}

/// What follows from the reply that carries a batch, `rows` being what
/// arrived before and `parsed` what the parser made of the reply's text.
pub open spec fn paging_outcome(rows: Seq<JsonDoc>, parsed: Option<JsonDoc>) -> Result<
    Progress<JsonDoc>,
    Failure,
> {
    match cursor_outcome(parsed) {
        Err(failure) => Err(failure),
        Ok(page) => step(rows, page),
    }
}

/// What a query ends with when the replies that carry its batches are taken
/// in one after the other, `rows` being what arrived before them and `parsed`
/// what the parser made of each reply's text. `None` says that the last batch
/// still announces more.
pub open spec fn query_outcome(rows: Seq<JsonDoc>, parsed: Seq<Option<JsonDoc>>) -> Option<
    Result<Seq<JsonDoc>, Failure>,
>
    decreases parsed.len(),
{
    if parsed.len() == 0 {
        None
    } else {
        match paging_outcome(rows, parsed.first()) {
            Err(failure) => Some(Err(failure)),
            Ok(Progress::Done { rows }) => Some(Ok(rows)),
            Ok(Progress::Fetch { rows, .. }) => query_outcome(rows, parsed.drop_first()),
        }
    }
}

/// What reading the reply to commit or abort comes to: a failure of the
/// transport as it is, and else what the reply's text holds.
pub open spec fn status_read(
    reply: Result<String, ClientError>,
    r: Result<Status, ClientError>,
) -> bool {
    match reply {
        Err(failure) => r == Err::<Status, ClientError>(failure),
        Ok(body) => match r {
            Ok(status) => transaction_outcome(parsed_json(body@)) matches Ok(reported)
                && reported.1 == status,
            Err(e) => transaction_outcome(parsed_json(body@)) == Err::<
                (Seq<char>, Status),
                Failure,
            >(e@),
        },
    }
}

/// What taking in the reply that carries a batch comes to, `rows` being the
/// rows before it.
pub open spec fn paging_read(
    rows: Seq<Json>,
    reply: Result<String, ClientError>,
    r: Result<Paging<Json>, ClientError>,
) -> bool {
    match reply {
        Err(failure) => r == Err::<Paging<Json>, ClientError>(failure),
        Ok(body) => match r {
            Ok(paging) => paging_outcome(item_docs(rows), parsed_json(body@)) == Ok::<
                Progress<JsonDoc>,
                Failure,
            >(progress_docs(paging@)),
            Err(e) => paging_outcome(item_docs(rows), parsed_json(body@)) == Err::<
                Progress<JsonDoc>,
                Failure,
            >(e@),
        },
    }
}

/// A query whose replies carry the batches `pages` ends as paging through
/// those batches ends.
pub proof fn lemma_query_follows_batches(
    rows: Seq<JsonDoc>,
    parsed: Seq<Option<JsonDoc>>,
    pages: Seq<Page<JsonDoc>>,
)
    requires
        parsed.len() == pages.len(),
        forall|i: int|
            0 <= i < parsed.len() ==> cursor_outcome(#[trigger] parsed[i]) == Ok::<
                Page<JsonDoc>,
                Failure,
            >(pages[i]),
    ensures
        query_outcome(rows, parsed) == run(rows, pages),
    decreases parsed.len(),
{
    if parsed.len() > 0 {
        assert(cursor_outcome(parsed[0]) == Ok::<Page<JsonDoc>, Failure>(pages[0]));
        let rest = parsed.drop_first();
        let later = pages.drop_first();
        assert forall|i: int| 0 <= i < rest.len() implies cursor_outcome(#[trigger] rest[i]) == Ok::<
            Page<JsonDoc>,
            Failure,
        >(later[i]) by {
            assert(rest[i] == parsed[i + 1]);
            assert(later[i] == pages[i + 1]);
        }
        lemma_query_follows_batches(rows + pages[0].rows, rest, later);
    }
}

/// The whole result of a query is the rows of its batches in the order of
/// arrival: if the replies carry the batches `pages`, of which every one but
/// the last announces more under a cursor and the last announces no more, the
/// query ends with the rows of the first batch, then those of the second, and
/// so on to the last, whatever the size of the batches.
pub proof fn lemma_query_rows_in_arrival_order(
    parsed: Seq<Option<JsonDoc>>,
    pages: Seq<Page<JsonDoc>>,
)
    requires
        parsed.len() == pages.len(),
        pages.len() > 0,
        forall|i: int|
            0 <= i < parsed.len() ==> cursor_outcome(#[trigger] parsed[i]) == Ok::<
                Page<JsonDoc>,
                Failure,
            >(pages[i]),
        forall|i: int|
            0 <= i < pages.len() - 1 ==> (#[trigger] pages[i]).more && pages[i].id is Some,
        !pages.last().more,
    ensures
        query_outcome(Seq::empty(), parsed) == Some(
            Ok::<Seq<JsonDoc>, Failure>(all_rows(pages)),
        ),
{
    lemma_query_follows_batches(Seq::empty(), parsed, pages);
    lemma_rows_in_arrival_order(Seq::empty(), pages);
    assert(Seq::<JsonDoc>::empty() + all_rows(pages) =~= all_rows(pages));
}

/// A reply that cannot be read as a batch fails the query with what is wrong
/// with it, be that the server's own failure or a reply out of shape: if the
/// replies before the `k`-th carry batches that announce more under a cursor,
/// the query ends with the failure of the `k`-th, and hands out no rows.
pub proof fn lemma_query_fails_with_reply(
    rows: Seq<JsonDoc>,
    parsed: Seq<Option<JsonDoc>>,
    k: int,
    failure: Failure,
)
    requires
        0 <= k < parsed.len(),
        forall|i: int|
            0 <= i < k ==> (cursor_outcome(#[trigger] parsed[i]) matches Ok(page) && page.more
                && page.id is Some),
        cursor_outcome(parsed[k]) == Err::<Page<JsonDoc>, Failure>(failure),
    ensures
        query_outcome(rows, parsed) == Some(Err::<Seq<JsonDoc>, Failure>(failure)),
    decreases parsed.len(),
{
    assert(parsed.first() == parsed[0]);
    if k > 0 {
        let rest = parsed.drop_first();
        assert forall|i: int| 0 <= i < k - 1 implies (cursor_outcome(#[trigger] rest[i]) matches Ok(
            page,
        ) && page.more && page.id is Some) by {
            assert(rest[i] == parsed[i + 1]);
        }
        assert(rest[k - 1] == parsed[k]);
        let first = cursor_outcome(parsed[0])->Ok_0;
        lemma_query_fails_with_reply(rows + first.rows, rest, k - 1, failure);
    }
}

impl<C> Transaction<C> {
    /// The session that the transaction was begun on.
    pub closed spec fn shared_session(&self) -> Arc<C> {
        self.session
    }

    /// The handle of the transaction that the server reported as `tx`, begun
    /// on `session` with the server at `base_url`.
    pub fn new(tx: ArangoTransaction, session: Arc<C>, base_url: String) -> (r: Transaction<C>)
        ensures
            r@ == (Handle { id: tx.id@, status: tx.status, base_url: base_url@ }),
            r.shared_session() == session,
    {
        Transaction { id: tx.id, status: tx.status, session, base_url }
    }

    /// The status that the server reported when the transaction began. It
    /// does not follow a later commit or abort.
    pub fn status(&self) -> (r: &Status)
        ensures
            *r == self@.status,
    {
        &self.status
    }

    /// The identifier that the server gave the transaction.
    pub fn id(&self) -> (r: &String)
        ensures
            r@ == self@.id,
    {
        &self.id
    }

    /// The address of the server.
    pub fn url(&self) -> (r: &String)
        ensures
            r@ == self@.base_url,
    {
        &self.base_url
    }

    /// The session that the transaction was begun on, shared once more.
    pub fn session(&self) -> (r: Arc<C>)
        ensures
            r == self.shared_session(),
    {
        Arc::clone(&self.session)
    }

    /// The request to `path` under the server's address, inside this
    /// transaction; none where there is no such address.
    fn request(&self, method: Method, path: &str, body: String) -> (r: Option<Request>)
        ensures
            call_of(r) == scoped_call(
                method,
                joined_url(self@.base_url, path@),
                body@,
                self@.id,
            ),
    {
        match join_url(self.base_url.as_str(), path) {
            Ok(url) => Some(scoped_request(method, url, body, &self.id)),
            Err(_) => None,
        }
    }

    /// The request that commits the transaction: a `PUT` to the
    /// transaction's own address, with no body. There is none where the
    /// server's address and the identifier make no address.
    pub fn commit_request(&self) -> (r: Option<Request>)
        ensures
            call_of(r) == scoped_call(
                Method::Put,
                joined_url(self@.base_url, transaction_path(self@.id)),
                Seq::empty(),
                self@.id,
            ),
    {
        let mut path = String::from_str("_api/transaction/");
        path.append(self.id.as_str());
        self.request(Method::Put, path.as_str(), String::new())
    }

    /// The request that aborts the transaction: a `DELETE` to the
    /// transaction's own address, with no body.
    pub fn abort_request(&self) -> (r: Option<Request>)
        ensures
            call_of(r) == scoped_call(
                Method::Delete,
                joined_url(self@.base_url, transaction_path(self@.id)),
                Seq::empty(),
                self@.id,
            ),
    {
        let mut path = String::from_str("_api/transaction/");
        path.append(self.id.as_str());
        self.request(Method::Delete, path.as_str(), String::new())
    }

    /// The request that asks for the collection `name` as this transaction
    /// sees it: a `GET` with no body.
    pub fn collection_request(&self, name: &str) -> (r: Option<Request>)
        ensures
            call_of(r) == scoped_call(
                Method::Get,
                joined_url(self@.base_url, collection_path(name@)),
                Seq::empty(),
                self@.id,
            ),
    {
        let mut path = String::from_str("_api/collection/");
        path.append(name);
        self.request(Method::Get, path.as_str(), String::new())
    }

    /// The request that submits `aql` inside this transaction: a `POST` of
    /// the query as JSON.
    pub fn aql_query_request(&self, aql: AqlQuery) -> (r: Option<Request>)
        ensures
            call_of(r) == scoped_call(
                Method::Post,
                joined_url(self@.base_url, "_api/cursor"@),
                rendered_json(query_doc(aql@)),
                self@.id,
            ),
    {
        self.request(Method::Post, "_api/cursor", aql.into_body())
    }

    /// The request that asks for the batch after the one that named
    /// `cursor_id`: a `PUT` with no body.
    pub fn aql_next_batch_request(&self, cursor_id: &str) -> (r: Option<Request>)
        ensures
            call_of(r) == scoped_call(
                Method::Put,
                joined_url(self@.base_url, cursor_path(cursor_id@)),
                Seq::empty(),
                self@.id,
            ),
    {
        let mut path = String::from_str("_api/cursor/");
        path.append(cursor_id);
        self.request(Method::Put, path.as_str(), String::new())
    }

    /// The request that submits the query `query` with no parameter bound.
    /// Its reply goes to [`Transaction::aql_query`].
    pub fn aql_str(&self, query: &str) -> (r: Option<Request>)
        ensures
            call_of(r) == scoped_call(
                Method::Post,
                joined_url(self@.base_url, "_api/cursor"@),
                rendered_json(query_doc(Query { query: query@, bind_vars: Seq::empty() })),
                self@.id,
            ),
    {
        self.aql_query_request(AqlQuery::new(query))
    }

    /// The request that submits the query `query` with `bind_vars` bound to
    /// its parameters. Its reply goes to [`Transaction::aql_query`].
    pub fn aql_bind_vars(&self, query: &str, bind_vars: Vec<(String, Json)>) -> (r: Option<Request>)
        ensures
            call_of(r) == scoped_call(
                Method::Post,
                joined_url(self@.base_url, "_api/cursor"@),
                rendered_json(
                    query_doc(Query { query: query@, bind_vars: member_docs(bind_vars@) }),
                ),
                self@.id,
            ),
    {
        self.aql_query_request(AqlQuery::new(query).bind_vars(bind_vars))
    }

    /// Reads the reply to [`Transaction::commit_request`]: the status that
    /// the server reports. The handle keeps the status it had.
    pub fn commit(&self, reply: Result<String, ClientError>) -> (r: Result<Status, ClientError>)
        ensures
            status_read(reply, r),
    {
        match transaction_reply(reply) {
            Ok(tx) => Ok(tx.status),
            Err(e) => Err(e),
        }
    }

    /// The same as [`Transaction::commit`], for a caller that is done with
    /// the handle.
    pub fn commit_transaction(self, reply: Result<String, ClientError>) -> (r: Result<
        Status,
        ClientError,
    >)
        ensures
            status_read(reply, r),
    {
        self.commit(reply)
    }

    /// Reads the reply to [`Transaction::abort_request`]: the status that the
    /// server reports. The handle keeps the status it had.
    pub fn abort(&self, reply: Result<String, ClientError>) -> (r: Result<Status, ClientError>)
        ensures
            status_read(reply, r),
    {
        match transaction_reply(reply) {
            Ok(tx) => Ok(tx.status),
            Err(e) => Err(e),
        }
    }

    /// Reads the reply to [`Transaction::collection_request`]: the collection
    /// as the server describes it, tied to this transaction.
    pub fn collection(&self, reply: Result<String, ClientError>) -> (r: Result<
        Collection,
        ClientError,
    >)
        ensures
            match reply {
                Err(failure) => r == Err::<Collection, ClientError>(failure),
                Ok(body) => match r {
                    Ok(found) => collection_outcome(parsed_json(body@)) == Ok::<
                        (Seq<char>, Seq<char>),
                        Failure,
                    >((found.id@, found.name@)) && found.transaction_id@ == self@.id,
                    Err(e) => collection_outcome(parsed_json(body@)) == Err::<
                        (Seq<char>, Seq<char>),
                        Failure,
                    >(e@),
                },
            },
    {
        match reply {
            Err(failure) => Err(failure),
            Ok(body) => match deserialize_response(body.as_str()) {
                Err(e) => Err(e),
                Ok(payload) => match read_collection(payload) {
                    Err(e) => Err(e),
                    Ok((id, name)) => Ok(Collection { id, name, transaction_id: self.id.clone() }),
                },
            },
        }
    }

    /// Reads the reply to [`Transaction::aql_query_request`] as the first
    /// batch of the result, and no more than that.
    pub fn aql_query_batch(&self, reply: Result<String, ClientError>) -> (r: Result<
        Cursor<Json>,
        ClientError,
    >)
        ensures
            batch_read(reply, r),
    {
        cursor_reply(reply)
    }

    /// Reads the reply to [`Transaction::aql_next_batch_request`] as the
    /// batch that follows. Where the server does not know the cursor, or has
    /// no more for it, the reply is the server's failure.
    pub fn aql_next_batch(&self, reply: Result<String, ClientError>) -> (r: Result<
        Cursor<Json>,
        ClientError,
    >)
        ensures
            batch_read(reply, r),
    {
        cursor_reply(reply)
    }

    /// Takes in the reply that carries the next batch of a result, `rows`
    /// being the rows of the batches before it. The rows of the batch go
    /// behind `rows`. A batch that announces more asks for the next one under
    /// its cursor, and fails where it names none; a batch that announces no
    /// more completes the result. Any failure is handed on, and the rows so
    /// far are dropped with it.
    pub fn aql_fetch_all(&self, rows: Vec<Json>, reply: Result<String, ClientError>) -> (r: Result<
        Paging<Json>,
        ClientError,
    >)
        ensures
            paging_read(rows@, reply, r),
            reply matches Ok(body) ==> (cursor_outcome(parsed_json(body@)) matches Ok(page) ==> (
            page.more && page.id is None ==> r matches Err(ClientError::MissingCursorId))),
    {
        let ghost before = rows@;
        let arrival = cursor_reply(reply);
        proof {
            if arrival is Ok {
                lemma_item_docs_concat(before, arrival->Ok_0@.rows);
            }
        }
        next_batch(rows, arrival)
    }

    /// Takes in the reply to [`Transaction::aql_query_request`] for a query
    /// whose whole result is wanted. Where the first batch announces no more,
    /// the result is complete with its rows, and nothing further is to be
    /// asked of the server. Else the next batch is to be asked for by
    /// [`Transaction::aql_next_batch_request`], and its reply goes to
    /// [`Transaction::aql_fetch_all`].
    ///
    /// The whole result is held in memory: this is not for results too large
    /// for that, and with small batches it costs many requests.
    pub fn aql_query(&self, reply: Result<String, ClientError>) -> (r: Result<
        Paging<Json>,
        ClientError,
    >)
        ensures
            paging_read(Seq::empty(), reply, r),
            reply matches Ok(body) ==> (cursor_outcome(parsed_json(body@)) matches Ok(page) ==> (
            !page.more ==> (r matches Ok(Paging::Done { rows }) && item_docs(rows@) == page.rows))),
            reply matches Ok(body) ==> (cursor_outcome(parsed_json(body@)) matches Ok(page) ==> (
            page.more && page.id is None ==> r matches Err(ClientError::MissingCursorId))),
    {
        self.aql_fetch_all(Vec::new(), reply)
    }
}

} // verus!
