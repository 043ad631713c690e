use std::sync::Arc;

use arango_transaction::cursor::Paging;
use arango_transaction::error::ClientError;
use arango_transaction::json::Json;
use arango_transaction::request::{Method, Request};
use arango_transaction::response::transaction_reply;
use arango_transaction::settings::{TransactionCollections, TransactionSettings};
use arango_transaction::status::Status;
use arango_transaction::transaction::Transaction;

const BASE: &str = "http://localhost:8529/_db/test_db/";

/// A server that answers from a script, and notes what it was asked.
struct Server {
    replies: Vec<&'static str>,
    seen: Vec<Request>,
}

impl Server {
    fn new(replies: Vec<&'static str>) -> Server {
        Server { replies, seen: Vec::new() }
    }

    fn send(&mut self, request: Request) -> Result<String, ClientError> {
        self.seen.push(request);
        if self.replies.is_empty() {
            return Err(ClientError::HttpClient("connection closed".to_string()));
        }
        Ok(self.replies.remove(0).to_string())
    }
}

/// Runs a query to its end, as a blocking caller would.
fn run_query(tx: &Transaction<()>, server: &mut Server, query: &str) -> Result<Vec<Json>, ClientError> {
    let first = server.send(tx.aql_str(query).expect("an address"));
    let mut state = tx.aql_query(first)?;
    loop {
        match state {
            Paging::Done { rows } => return Ok(rows),
            Paging::Fetch { cursor_id, rows } => {
                let reply = server.send(tx.aql_next_batch_request(&cursor_id).expect("an address"));
                state = tx.aql_fetch_all(rows, reply)?;
            }
        }
    }
}

fn begin(server: &mut Server, settings: &TransactionSettings) -> Transaction<()> {
    let request = Request {
        method: Method::Post,
        url: format!("{}_api/transaction/begin", BASE),
        body: settings.body(),
        headers: vec![],
    };
    let reported = transaction_reply(server.send(request)).expect("a transaction");
    Transaction::new(reported, Arc::new(()), BASE.to_string())
}

fn order(n: u64) -> Json {
    Json::Object(vec![("n".to_string(), Json::UInt(n))])
}

#[test]
fn query_in_transaction_then_commit() {
    let mut server = Server::new(vec![
        "{\"code\":201,\"error\":false,\"result\":{\"id\":\"41\",\"status\":\"running\"}}",
        "{\"result\":[{\"n\":1},{\"n\":2}],\"more\":true,\"id\":\"900\",\"cached\":false,\"error\":false,\"code\":201}",
        "{\"result\":[{\"n\":3},{\"n\":4}],\"more\":true,\"id\":\"900\",\"cached\":false,\"error\":false,\"code\":200}",
        "{\"result\":[{\"n\":5}],\"more\":false,\"cached\":false,\"error\":false,\"code\":200}",
        "{\"code\":200,\"error\":false,\"result\":{\"id\":\"41\",\"status\":\"committed\"}}",
    ]);
    let settings = TransactionSettings::new(TransactionCollections::new(vec!["orders".to_string()]));
    let tx = begin(&mut server, &settings);
    assert_eq!(tx.id(), "41");
    assert_eq!(*tx.status(), Status::Running);

    let rows = run_query(&tx, &mut server, "FOR o IN orders RETURN o").unwrap();
    assert_eq!(rows, vec![order(1), order(2), order(3), order(4), order(5)]);

    let reply = server.send(tx.commit_request().unwrap());
    assert_eq!(tx.commit(reply).unwrap(), Status::Committed);
    assert_eq!(*tx.status(), Status::Running);

    let seen: Vec<(Method, &str, &str)> =
        server.seen.iter().map(|r| (r.method, r.url.as_str(), r.body.as_str())).collect();
    assert_eq!(
        seen,
        vec![
            (
                Method::Post,
                "http://localhost:8529/_db/test_db/_api/transaction/begin",
                "{\"allowImplicit\":true,\"collections\":{\"write\":[\"orders\"]}}",
            ),
            (
                Method::Post,
                "http://localhost:8529/_db/test_db/_api/cursor",
                "{\"query\":\"FOR o IN orders RETURN o\"}",
            ),
            (Method::Put, "http://localhost:8529/_db/test_db/_api/cursor/900", ""),
            (Method::Put, "http://localhost:8529/_db/test_db/_api/cursor/900", ""),
            (Method::Put, "http://localhost:8529/_db/test_db/_api/transaction/41", ""),
        ]
    );
    for request in &server.seen[1..] {
        assert_eq!(request.headers, vec![("x-arango-trx-id".to_string(), "41".to_string())]);
    }
}

#[test]
fn query_after_abort_reports_the_servers_error() {
    let mut server = Server::new(vec![
        "{\"code\":201,\"error\":false,\"result\":{\"id\":\"42\",\"status\":\"running\"}}",
        "{\"code\":200,\"error\":false,\"result\":{\"id\":\"42\",\"status\":\"aborted\"}}",
        "{\"code\":410,\"error\":true,\"errorMessage\":\"transaction '42' was already aborted\",\"errorNum\":1653}",
    ]);
    let settings = TransactionSettings::new(TransactionCollections::new(vec!["orders".to_string()]));
    let tx = begin(&mut server, &settings);

    let reply = server.send(tx.abort_request().unwrap());
    assert_eq!(tx.abort(reply).unwrap(), Status::Aborted);

    match run_query(&tx, &mut server, "FOR o IN orders RETURN o") {
        Err(ClientError::Arango(e)) => {
            assert_eq!(e.code(), 410);
            assert_eq!(e.error_num(), 1653);
            assert_eq!(e.message(), "transaction '42' was already aborted");
        }
        other => panic!("unexpected: {:?}", other),
    }
    assert_eq!(server.seen.len(), 3);
    assert_eq!(server.seen[1].method, Method::Delete);
}

#[test]
fn second_commit_reports_the_servers_error() {
    let mut server = Server::new(vec![
        "{\"code\":200,\"error\":false,\"result\":{\"id\":\"43\",\"status\":\"committed\"}}",
        "{\"code\":404,\"error\":true,\"errorMessage\":\"transaction '43' not found\",\"errorNum\":10}",
        "{\"code\":404,\"error\":true,\"errorMessage\":\"transaction '43' not found\",\"errorNum\":10}",
    ]);
    let tx = Transaction::new(
        arango_transaction::status::ArangoTransaction { id: "43".to_string(), status: Status::Running },
        Arc::new(()),
        BASE.to_string(),
    );
    let reply = server.send(tx.commit_request().unwrap());
    assert_eq!(tx.commit(reply).unwrap(), Status::Committed);
    let reply = server.send(tx.commit_request().unwrap());
    match tx.commit(reply) {
        Err(ClientError::Arango(e)) => {
            assert_eq!(e.code(), 404);
            assert_eq!(e.error_num(), 10);
            assert_eq!(e.message(), "transaction '43' not found");
        }
        other => panic!("unexpected: {:?}", other),
    }
    let reply = server.send(tx.abort_request().unwrap());
    assert!(matches!(tx.abort(reply), Err(ClientError::Arango(_))));
}

#[test]
fn failure_in_the_middle_of_a_query_gives_no_rows() {
    let mut server = Server::new(vec![
        "{\"result\":[1,2],\"more\":true,\"id\":\"7\"}",
        "{\"code\":404,\"error\":true,\"errorMessage\":\"cursor not found\",\"errorNum\":1600}",
    ]);
    let tx = Transaction::new(
        arango_transaction::status::ArangoTransaction { id: "44".to_string(), status: Status::Running },
        Arc::new(()),
        BASE.to_string(),
    );
    match run_query(&tx, &mut server, "FOR i IN 1..4 RETURN i") {
        Err(ClientError::Arango(e)) => assert_eq!(e.error_num(), 1600),
        other => panic!("unexpected: {:?}", other),
    }
    let mut server = Server::new(vec!["{\"result\":[1,2],\"more\":true,\"id\":\"7\"}"]);
    match run_query(&tx, &mut server, "FOR i IN 1..4 RETURN i") {
        Err(ClientError::HttpClient(why)) => assert_eq!(why, "connection closed"),
        other => panic!("unexpected: {:?}", other),
    }
}

#[test]
fn batch_without_cursor_fails_the_query() {
    let mut server = Server::new(vec![
        "{\"result\":[1,2],\"more\":true,\"id\":\"7\"}",
        "{\"result\":[3],\"more\":true}",
        "{\"result\":[4],\"more\":false}",
    ]);
    let tx = Transaction::new(
        arango_transaction::status::ArangoTransaction { id: "45".to_string(), status: Status::Running },
        Arc::new(()),
        BASE.to_string(),
    );
    let r = run_query(&tx, &mut server, "FOR i IN 1..4 RETURN i");
    assert!(matches!(r, Err(ClientError::MissingCursorId)));
    assert_eq!(server.seen.len(), 2);
}

#[test]
fn single_batch_needs_one_request() {
    let mut server = Server::new(vec!["{\"result\":[\"a\",\"b\"],\"more\":false}"]);
    let tx = Transaction::new(
        arango_transaction::status::ArangoTransaction { id: "46".to_string(), status: Status::Running },
        Arc::new(()),
        BASE.to_string(),
    );
    let rows = run_query(&tx, &mut server, "RETURN 1").unwrap();
    assert_eq!(rows, vec![Json::Text("a".to_string()), Json::Text("b".to_string())]);
    assert_eq!(server.seen.len(), 1);
    let page = tx.aql_query_batch(Ok("{\"result\":[1],\"more\":true,\"id\":\"3\"}".to_string())).unwrap();
    assert_eq!(page.result, vec![Json::UInt(1)]);
    assert!(page.more);
    assert_eq!(page.id, Some("3".to_string()));
    let page = tx.aql_next_batch(Ok("{\"result\":[2],\"more\":false}".to_string())).unwrap();
    assert_eq!(page.result, vec![Json::UInt(2)]);
    assert!(!page.more);
    assert_eq!(page.id, None);
}

#[test]
fn collection_is_tied_to_the_transaction() {
    let tx = Transaction::new(
        arango_transaction::status::ArangoTransaction { id: "47".to_string(), status: Status::Running },
        Arc::new(()),
        BASE.to_string(),
    );
    let reply = "{\"error\":false,\"code\":200,\"type\":2,\"isSystem\":false,\"id\":\"9001\",\"name\":\"orders\",\"status\":3}";
    let found = tx.collection(Ok(reply.to_string())).unwrap();
    assert_eq!(found.id, "9001");
    assert_eq!(found.name, "orders");
    assert_eq!(found.transaction_id, "47");
    let r = tx.collection(Ok("{\"error\":false,\"name\":\"orders\"}".to_string()));
    assert!(matches!(r, Err(ClientError::Malformed(arango_transaction::error::Part::Id))));
    let r = tx.collection(Ok("{\"error\":false,\"id\":\"1\"}".to_string()));
    assert!(matches!(r, Err(ClientError::Malformed(arango_transaction::error::Part::Name))));
    let r = tx.collection(Ok(
        "{\"code\":404,\"error\":true,\"errorMessage\":\"collection or view not found\",\"errorNum\":1203}".to_string(),
    ));
    match r {
        Err(ClientError::Arango(e)) => assert_eq!(e.error_num(), 1203),
        other => panic!("unexpected: {:?}", other),
    }
}
