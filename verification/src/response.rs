//! Decoding of the server's replies.
//!
//! The server wraps every reply in the same envelope: an object that either
//! flags an error and describes it, or carries what was asked for. Every
//! operation reads its reply through [`deserialize_response`].

use vstd::prelude::*;
use crate::cursor::{Cursor, Page};
use crate::error::{ArangoError, ClientError, Failure, Part, ServerFailure};
use crate::json::{item_docs, parsed_json, Json, JsonDoc};
use crate::status::{ArangoTransaction, Status, TransactionList, TransactionState};

verus! {

/// The number that a member holds, if it is one of sixteen bits.
pub open spec fn small_uint(found: Option<JsonDoc>) -> Option<u16> {
    match found {
        Some(doc) => match doc.uint() {
            Some(n) if n <= u16::MAX => Some(n as u16),
            _ => None,
        },
        None => None,
    }
}

/// The failure that an error reply describes, or the part of it that is not
/// as it has to be.
pub open spec fn server_failure(doc: JsonDoc) -> Result<ServerFailure, Part> {
    match small_uint(doc.get("code"@)) {
        None => Err(Part::Code),
        Some(code) => match small_uint(doc.get("errorNum"@)) {
            None => Err(Part::ErrorNum),
            Some(error_num) => match doc.get("errorMessage"@) {
                Some(JsonDoc::Text(message)) => Ok(ServerFailure { code, error_num, message }),
                _ => Err(Part::ErrorMessage),
            },
        },
    }
}

/// What the envelope of a reply holds: the reply itself where it flags no
/// error, and else the failure that it describes.
pub open spec fn envelope(doc: JsonDoc) -> Result<JsonDoc, Failure> {
    if !(doc is Object) {
        Err(Failure::Malformed(Part::Document))
    } else {
        match doc.get("error"@) {
            None => Ok(doc),
            Some(JsonDoc::Bool(false)) => Ok(doc),
            Some(JsonDoc::Bool(true)) => match server_failure(doc) {
                Ok(failure) => Err(Failure::Arango(failure)),
                Err(part) => Err(Failure::Malformed(part)),
            },
            Some(_) => Err(Failure::Malformed(Part::Error)),
        }
    }
}

/// What a reply text holds, `parsed` being what the parser made of it.
pub open spec fn reply_payload(parsed: Option<JsonDoc>) -> Result<JsonDoc, Failure> {
    match parsed {
        None => Err(Failure::Serde),
        Some(doc) => envelope(doc),
    }
}

/// The transaction that a reply reports under `result`, by identifier and
/// status, or the part that is not as it has to be.
pub open spec fn transaction_payload(doc: JsonDoc) -> Result<(Seq<char>, Status), Part> {
    match doc.get("result"@) {
        Some(JsonDoc::Object(members)) => match JsonDoc::Object(members).get("id"@) {
            Some(JsonDoc::Text(id)) => match JsonDoc::Object(members).get("status"@) {
                Some(JsonDoc::Text(word)) => match Status::of_word(word) {
                    Some(status) => Ok((id, status)),
                    None => Err(Part::Status),
                },
                _ => Err(Part::Status),
            },
            _ => Err(Part::Id),
        },
        _ => Err(Part::Result),
    }
}

/// The batch that a reply carries: its rows, whether more remain, and the
/// cursor for them; or the part that is not as it has to be. A cursor
/// identifier that is missing or null counts as none.
pub open spec fn cursor_payload(doc: JsonDoc) -> Result<Page<JsonDoc>, Part> {
    match doc.get("more"@) {
        Some(JsonDoc::Bool(more)) => match doc.get("id"@) {
            Some(JsonDoc::Text(id)) => match doc.get("result"@) {
                Some(JsonDoc::Array(rows)) => Ok(Page { rows, more, id: Some(id) }),
                _ => Err(Part::Result),
            },
            None | Some(JsonDoc::Null) => match doc.get("result"@) {
                Some(JsonDoc::Array(rows)) => Ok(Page { rows, more, id: None }),
                _ => Err(Part::Result),
            },
            Some(_) => Err(Part::Id),
        },
        _ => Err(Part::More),
    }
}

/// A batch of documents by their values.
pub open spec fn page_docs(page: Page<Json>) -> Page<JsonDoc> {
    Page { rows: item_docs(page.rows), more: page.more, id: page.id }
}

/// The collection that a reply describes, by identifier and name, or the part
/// that is not as it has to be.
pub open spec fn collection_payload(doc: JsonDoc) -> Result<(Seq<char>, Seq<char>), Part> {
    match doc.get("id"@) {
        Some(JsonDoc::Text(id)) => match doc.get("name"@) {
            Some(JsonDoc::Text(name)) => Ok((id, name)),
            _ => Err(Part::Name),
        },
        _ => Err(Part::Id),
    }
}

/// One entry of the list of transactions, by identifier and state, or the
/// part of it that is not as it has to be.
pub open spec fn state_payload(doc: JsonDoc) -> Result<(Seq<char>, Status), Part> {
    match doc.get("id"@) {
        Some(JsonDoc::Text(id)) => match doc.get("state"@) {
            Some(JsonDoc::Text(word)) => match Status::of_word(word) {
                Some(state) => Ok((id, state)),
                None => Err(Part::State),
            },
            _ => Err(Part::State),
        },
        _ => Err(Part::Id),
    }
}

/// The entries that `items` hold, in their order; where some are not as they
/// have to be, the part that the first of those lacks.
pub open spec fn states_payload(items: Seq<JsonDoc>) -> Result<Seq<(Seq<char>, Status)>, Part>
    decreases items.len(),
{
    if items.len() == 0 {
        Ok(Seq::empty())
    } else {
        match states_payload(items.drop_last()) {
            Err(part) => Err(part),
            Ok(before) => match state_payload(items.last()) {
                Ok(entry) => Ok(before.push(entry)),
                Err(part) => Err(part),
            },
        }
    }
}

/// The list of transactions that a reply carries under `transactions`.
pub open spec fn transaction_list_payload(doc: JsonDoc) -> Result<Seq<(Seq<char>, Status)>, Part> {
    match doc.get("transactions"@) {
        Some(JsonDoc::Array(items)) => states_payload(items),
        _ => Err(Part::Transactions),
    }
}

/// What the reply to begin, commit or abort reports, `parsed` being what the
/// parser made of its text.
pub open spec fn transaction_outcome(parsed: Option<JsonDoc>) -> Result<
    (Seq<char>, Status),
    Failure,
> {
    match reply_payload(parsed) {
        Err(failure) => Err(failure),
        Ok(doc) => match transaction_payload(doc) {
            Ok(reported) => Ok(reported),
            Err(part) => Err(Failure::Malformed(part)),
        },
    }
}

/// The batch that a reply carries, `parsed` being what the parser made of its
/// text.
pub open spec fn cursor_outcome(parsed: Option<JsonDoc>) -> Result<Page<JsonDoc>, Failure> {
    match reply_payload(parsed) {
        Err(failure) => Err(failure),
        Ok(doc) => match cursor_payload(doc) {
            Ok(page) => Ok(page),
            Err(part) => Err(Failure::Malformed(part)),
        },
    }
}

/// The collection that a reply describes, `parsed` being what the parser made
/// of its text.
pub open spec fn collection_outcome(parsed: Option<JsonDoc>) -> Result<
    (Seq<char>, Seq<char>),
    Failure,
> {
    match reply_payload(parsed) {
        Err(failure) => Err(failure),
        Ok(doc) => match collection_payload(doc) {
            Ok(described) => Ok(described),
            Err(part) => Err(Failure::Malformed(part)),
        },
    }
}

fn read_small_uint(doc: &Json, name: &str) -> (r: Option<u16>)
    ensures
        r == small_uint(doc@.get(name@)),
{
    match doc.get(name) {
        None => None,
        Some(found) => match found.as_uint() {
            Some(n) => if n <= 65535 {
                Some(n as u16)
            } else {
                None
            },
            None => None,
        },
    }
}

fn read_server_failure(doc: &Json) -> (r: Result<ArangoError, Part>)
    ensures
        match r {
            Ok(e) => server_failure(doc@) == Ok::<ServerFailure, Part>(e@),
            Err(part) => server_failure(doc@) == Err::<ServerFailure, Part>(part),
        },
{
    let code = match read_small_uint(doc, "code") {
        Some(code) => code,
        None => { return Err(Part::Code); },
    };
    let error_num = match read_small_uint(doc, "errorNum") {
        Some(error_num) => error_num,
        None => { return Err(Part::ErrorNum); },
    };
    match doc.get("errorMessage") {
        None => Err(Part::ErrorMessage),
        Some(found) => match found.as_text() {
            Some(message) => Ok(ArangoError::new(code, error_num, message.clone())),
            None => Err(Part::ErrorMessage),
        },
    }
}

/// Opens the envelope of a reply: hands the reply back where it flags no
/// error, and fails with the server's code and message where it flags one.
pub fn open_envelope(doc: Json) -> (r: Result<Json, ClientError>)
    ensures
        match r {
            Ok(payload) => payload@ == doc@ && envelope(doc@) == Ok::<JsonDoc, Failure>(doc@),
            Err(e) => envelope(doc@) == Err::<JsonDoc, Failure>(e@),
        },
{
    if !doc.is_object() {
        return Err(ClientError::Malformed(Part::Document));
    }
    let flagged = match doc.get("error") {
        None => false,
        Some(flag) => match flag.as_bool() {
            Some(flagged) => flagged,
            None => { return Err(ClientError::Malformed(Part::Error)); },
        },
    };
    if flagged {
        match read_server_failure(&doc) {
            Ok(e) => Err(ClientError::Arango(e)),
            Err(part) => Err(ClientError::Malformed(part)),
        }
    } else {
        Ok(doc)
    }
}

/// Reads a reply text and opens its envelope: the one way by which every
/// reply of the server is read. A text that is no JSON document fails with
/// [`ClientError::Serde`].
pub fn deserialize_response(text: &str) -> (r: Result<Json, ClientError>)
    ensures
        match r {
            Ok(payload) => reply_payload(parsed_json(text@)) == Ok::<JsonDoc, Failure>(payload@),
            Err(e) => reply_payload(parsed_json(text@)) == Err::<JsonDoc, Failure>(e@),
        },
{
    match Json::parse(text) {
        Err(e) => Err(e),
        Ok(doc) => open_envelope(doc),
    }
}

/// Reads the transaction that a reply reports under `result`.
pub fn read_transaction(payload: Json) -> (r: Result<ArangoTransaction, ClientError>)
    ensures
        match r {
            Ok(tx) => transaction_payload(payload@) == Ok::<(Seq<char>, Status), Part>(tx@),
            Err(e) => transaction_payload(payload@) matches Err(part) && e@ == Failure::Malformed(
                part,
            ),
        },
{
    let inner = match payload.into_member("result") {
        Some(inner) => inner,
        None => { return Err(ClientError::Malformed(Part::Result)); },
    };
    if !inner.is_object() {
        return Err(ClientError::Malformed(Part::Result));
    }
    let id = match inner.get("id") {
        None => { return Err(ClientError::Malformed(Part::Id)); },
        Some(found) => match found.as_text() {
            Some(id) => id.clone(),
            None => { return Err(ClientError::Malformed(Part::Id)); },
        },
    };
    let status = match inner.get("status") {
        None => { return Err(ClientError::Malformed(Part::Status)); },
        Some(found) => match found.as_text() {
            None => { return Err(ClientError::Malformed(Part::Status)); },
            Some(word) => match Status::from_word(word) {
                Some(status) => status,
                None => { return Err(ClientError::Malformed(Part::Status)); },
            },
        },
    };
    Ok(ArangoTransaction { id, status })
}

/// Reads the batch that a reply carries. The rows are moved out of the reply
/// in their order.
pub fn read_cursor(payload: Json) -> (r: Result<Cursor<Json>, ClientError>)
    ensures
        match r {
            Ok(page) => cursor_payload(payload@) == Ok::<Page<JsonDoc>, Part>(page_docs(page@)),
            Err(e) => cursor_payload(payload@) matches Err(part) && e@ == Failure::Malformed(part),
        },
{
    let more = match payload.get("more") {
        None => { return Err(ClientError::Malformed(Part::More)); },
        Some(found) => match found.as_bool() {
            Some(more) => more,
            None => { return Err(ClientError::Malformed(Part::More)); },
        },
    };
    let id = match payload.get("id") {
        None => None,
        Some(found) => if found.is_null() {
            None
        } else {
            match found.as_text() {
                Some(id) => Some(id.clone()),
                None => { return Err(ClientError::Malformed(Part::Id)); },
            }
        },
    };
    let result = match payload.into_member("result") {
        None => { return Err(ClientError::Malformed(Part::Result)); },
        Some(found) => match found.into_items() {
            Some(rows) => rows,
            None => { return Err(ClientError::Malformed(Part::Result)); },
        },
    };
    Ok(Cursor { result, more, id })
}

/// What reading the reply that carries a batch comes to.
pub open spec fn batch_read(
    reply: Result<String, ClientError>,
    r: Result<Cursor<Json>, ClientError>,
) -> bool {
    match reply {
        Err(failure) => r == Err::<Cursor<Json>, ClientError>(failure),
        Ok(body) => match r {
            Ok(page) => cursor_outcome(parsed_json(body@)) == Ok::<Page<JsonDoc>, Failure>(
                page_docs(page@),
            ),
            Err(e) => cursor_outcome(parsed_json(body@)) == Err::<Page<JsonDoc>, Failure>(e@),
        },
    }
}

/// Reads the collection that a reply describes, by identifier and name.
pub fn read_collection(payload: Json) -> (r: Result<(String, String), ClientError>)
    ensures
        match r {
            Ok(described) => collection_payload(payload@) == Ok::<(Seq<char>, Seq<char>), Part>(
                (described.0@, described.1@),
            ),
            Err(e) => collection_payload(payload@) matches Err(part) && e@ == Failure::Malformed(
                part,
            ),
        },
{
    let id = match payload.get("id") {
        None => { return Err(ClientError::Malformed(Part::Id)); },
        Some(found) => match found.as_text() {
            Some(id) => id.clone(),
            None => { return Err(ClientError::Malformed(Part::Id)); },
        },
    };
    let name = match payload.get("name") {
        None => { return Err(ClientError::Malformed(Part::Name)); },
        Some(found) => match found.as_text() {
            Some(name) => name.clone(),
            None => { return Err(ClientError::Malformed(Part::Name)); },
        },
    };
    Ok((id, name))
}

proof fn lemma_first_failure(items: Seq<JsonDoc>, i: int, part: Part)
    requires
        0 <= i <= items.len(),
        states_payload(items.take(i)) == Err::<Seq<(Seq<char>, Status)>, Part>(part),
    ensures
        states_payload(items) == Err::<Seq<(Seq<char>, Status)>, Part>(part),
    decreases items.len() - i,
{
    if i < items.len() {
        assert(items.take(i + 1).drop_last() =~= items.take(i));
        lemma_first_failure(items, i + 1, part);
    } else {
        assert(items.take(i) =~= items);
    }
}

fn read_state(entry: &Json) -> (r: Result<TransactionState, Part>)
    ensures
        match r {
            Ok(state) => state_payload(entry@) == Ok::<(Seq<char>, Status), Part>(state@),
            Err(part) => state_payload(entry@) == Err::<(Seq<char>, Status), Part>(part),
        },
{
    let id = match entry.get("id") {
        None => { return Err(Part::Id); },
        Some(found) => match found.as_text() {
            Some(id) => id.clone(),
            None => { return Err(Part::Id); },
        },
    };
    match entry.get("state") {
        None => Err(Part::State),
        Some(found) => match found.as_text() {
            None => Err(Part::State),
            Some(word) => match Status::from_word(word) {
                Some(state) => Ok(TransactionState { id, state }),
                None => Err(Part::State),
            },
        },
    }
}

/// Reads the list of running transactions that a reply carries, entry by
/// entry in the order given.
pub fn read_transaction_list(payload: Json) -> (r: Result<TransactionList, ClientError>)
    ensures
        match r {
            Ok(list) => transaction_list_payload(payload@) == Ok::<
                Seq<(Seq<char>, Status)>,
                Part,
            >(list@),
            Err(e) => transaction_list_payload(payload@) matches Err(part) && e@
                == Failure::Malformed(part),
        },
{
    let items = match payload.into_member("transactions") {
        None => { return Err(ClientError::Malformed(Part::Transactions)); },
        Some(found) => match found.into_items() {
            Some(items) => items,
            None => { return Err(ClientError::Malformed(Part::Transactions)); },
        },
    };
    let ghost docs = item_docs(items@);
    let mut list = TransactionList { transactions: Vec::new() };
    let mut i: usize = 0;
    assert(docs.take(0) =~= Seq::empty());
    assert(list@ =~= Seq::empty());
    while i < items.len()
        invariant
            i <= items.len(),
            docs == item_docs(items@),
            transaction_list_payload(payload@) == states_payload(docs),
            states_payload(docs.take(i as int)) == Ok::<Seq<(Seq<char>, Status)>, Part>(list@),
        decreases items.len() - i,
    {
        proof {
            assert(docs.take(i + 1).drop_last() =~= docs.take(i as int));
            assert(docs.take(i + 1).last() == items@[i as int]@);
        }
        match read_state(&items[i]) {
            Err(part) => {
                proof {
                    lemma_first_failure(docs, i + 1, part);
                }
                return Err(ClientError::Malformed(part));
            },
            Ok(state) => {
                let ghost before = list@;
                list.transactions.push(state);
                assert(list@ =~= before.push(state@));
            },
        }
        i = i + 1;
    }
    assert(docs.take(i as int) =~= docs);
    Ok(list)
}

/// Reads the reply to begin, commit or abort: the transaction as the server
/// reports it. A failure of the transport is handed on as it is.
pub fn transaction_reply(reply: Result<String, ClientError>) -> (r: Result<
    ArangoTransaction,
    ClientError,
>)
    ensures
        match reply {
            Err(failure) => r == Err::<ArangoTransaction, ClientError>(failure),
            Ok(body) => match r {
                Ok(tx) => transaction_outcome(parsed_json(body@)) == Ok::<
                    (Seq<char>, Status),
                    Failure,
                >(tx@),
                Err(e) => transaction_outcome(parsed_json(body@)) == Err::<
                    (Seq<char>, Status),
                    Failure,
                >(e@),
            },
        },
{
    match reply {
        Err(failure) => Err(failure),
        Ok(body) => match deserialize_response(body.as_str()) {
            Err(e) => Err(e),
            Ok(payload) => read_transaction(payload),
        },
    }
}

/// Reads the reply that carries a batch of a query's result. A failure of the
/// transport is handed on as it is.
pub fn cursor_reply(reply: Result<String, ClientError>) -> (r: Result<Cursor<Json>, ClientError>)
    ensures
        batch_read(reply, r),
{
    match reply {
        Err(failure) => Err(failure),
        Ok(body) => match deserialize_response(body.as_str()) {
            Err(e) => Err(e),
            Ok(payload) => read_cursor(payload),
        },
    }
}

/// A reply that flags an error never counts as a success: whatever else it
/// holds, every reading of it fails, and where it describes the failure by
/// code, number and message, the failure is the server's own, with all three
/// as the server gave them.
pub proof fn lemma_server_failure_surfaces(doc: JsonDoc)
    requires
        doc is Object,
        doc.get("error"@) == Some(JsonDoc::Bool(true)),
    ensures
        reply_payload(Some(doc)) is Err,
        transaction_outcome(Some(doc)) is Err,
        cursor_outcome(Some(doc)) is Err,
        collection_outcome(Some(doc)) is Err,
        server_failure(doc) matches Ok(failure) ==> {
            &&& transaction_outcome(Some(doc)) == Err::<(Seq<char>, Status), Failure>(
                Failure::Arango(failure),
            )
            &&& cursor_outcome(Some(doc)) == Err::<Page<JsonDoc>, Failure>(Failure::Arango(failure))
            &&& collection_outcome(Some(doc)) == Err::<(Seq<char>, Seq<char>), Failure>(
                Failure::Arango(failure),
            )
            &&& doc.get("errorMessage"@) == Some(JsonDoc::Text(failure.message))
            &&& small_uint(doc.get("code"@)) == Some(failure.code)
            &&& small_uint(doc.get("errorNum"@)) == Some(failure.error_num)
        },
{
}

} // verus!
