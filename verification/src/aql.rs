//! Queries as they are submitted to the server.

use vstd::prelude::*;
use crate::json::{member_docs, rendered_json, Json, JsonDoc};

verus! {

/// A query and the values bound to its parameters.
#[derive(Debug)]
pub struct AqlQuery {
    query: String,
    bind_vars: Vec<(String, Json)>,
}

/// The mathematical value of an [`AqlQuery`].
pub struct Query {
    pub query: Seq<char>,
    pub bind_vars: Seq<(Seq<char>, JsonDoc)>,
}

impl View for AqlQuery {
    type V = Query;

    closed spec fn view(&self) -> Query {
        Query { query: self.query@, bind_vars: member_docs(self.bind_vars@) }
    }
}

/// The JSON object that submits a query: `query` always, `bindVars` only
/// where a parameter is bound.
pub open spec fn query_doc(q: Query) -> JsonDoc {
    JsonDoc::Object(
        seq![("query"@, JsonDoc::Text(q.query))] + if q.bind_vars.len() > 0 {
            seq![("bindVars"@, JsonDoc::Object(q.bind_vars))]
        } else {
            Seq::empty()
        },
    )
}

impl AqlQuery {
    /// A query with no parameter bound.
    pub fn new(query: &str) -> (r: AqlQuery)
        ensures
            r@ == (Query { query: query@, bind_vars: Seq::empty() }),
    {
        let r = AqlQuery { query: query.to_owned(), bind_vars: Vec::new() };
        assert(r@.bind_vars =~= Seq::empty());
        r
    }

    /// The same query with `bind_vars` bound, each a parameter's name and its
    /// value, in place of what was bound before.
    pub fn bind_vars(self, bind_vars: Vec<(String, Json)>) -> (r: AqlQuery)
        ensures
            r@ == (Query { query: self@.query, bind_vars: member_docs(bind_vars@) }),
    {
        AqlQuery { query: self.query, bind_vars }
    }

    /// The JSON object that submits this query.
    pub fn into_json(self) -> (r: Json)
        ensures
            r@ == query_doc(self@),
    {
        let AqlQuery { query, bind_vars } = self;
        let mut members: Vec<(String, Json)> = Vec::new();
        members.push((String::from_str("query"), Json::Text(query)));
        let ghost first = seq![("query"@, JsonDoc::Text(self@.query))];
        assert(member_docs(members@) =~= first);
        if bind_vars.len() > 0 {
            let bound = Json::Object(bind_vars);
            assert(bound@ == JsonDoc::Object(self@.bind_vars));
            members.push((String::from_str("bindVars"), bound));
            assert(member_docs(members@) =~= first + seq![
                ("bindVars"@, JsonDoc::Object(self@.bind_vars)),
            ]);
        } else {
            assert(member_docs(members@) =~= first + Seq::empty());
        }
        Json::Object(members)
    }

    /// The body of the request that submits this query.
    pub fn into_body(self) -> (r: String)
        ensures
            r@ == rendered_json(query_doc(self@)),
    {
        self.into_json().render()
    }
}

} // verus!
