//! JSON documents as plain data.
//!
//! Reading and writing JSON text is the work of `serde_json`; what this crate
//! decides about a document it decides on [`Json`], whose mathematical value
//! is a [`JsonDoc`].

use vstd::prelude::*;
use crate::error::{ClientError, Failure};

verus! {

/// A JSON document held as plain values.
#[derive(Debug, PartialEq, Eq)]
pub enum Json {
    Null,
    Bool(bool),
    /// A non-negative integer.
    UInt(u64),
    /// A negative integer.
    Int(i64),
    /// A number that is no integer, as `serde_json` holds it.
    Real(serde_json::Number),
    Text(String),
    Array(Vec<Json>),
    /// The members of an object, each a name and a value. Where a name occurs
    /// more than once, [`Json::get`] reads the last member of that name.
    Object(Vec<(String, Json)>),
}

/// The mathematical value of a [`Json`] document.
pub enum JsonDoc {
    Null,
    Bool(bool),
    Integer(int),
    Real(serde_json::Number),
    Text(Seq<char>),
    Array(Seq<JsonDoc>),
    Object(Seq<(Seq<char>, JsonDoc)>),
}

/// The values of a run of documents.
pub open spec fn item_docs(items: Seq<Json>) -> Seq<JsonDoc>
    decreases items, 0int,
{
    Seq::new(
        items.len(),
        |i: int|
            if 0 <= i < items.len() {
                items[i]@
            } else {
                JsonDoc::Null
            },
    )
}

/// The values of the members of an object.
pub open spec fn member_docs(members: Seq<(String, Json)>) -> Seq<(Seq<char>, JsonDoc)>
    decreases members, 0int,
{
    Seq::new(
        members.len(),
        |i: int|
            if 0 <= i < members.len() {
                (members[i].0@, members[i].1@)
            } else {
                (Seq::empty(), JsonDoc::Null)
            },
    )
}

/// Documents put one run behind the other keep their values.
pub proof fn lemma_item_docs_concat(a: Seq<Json>, b: Seq<Json>)
    ensures
        item_docs(a + b) == item_docs(a) + item_docs(b),
{
    assert(item_docs(a + b) =~= item_docs(a) + item_docs(b));
}

impl View for Json {
    type V = JsonDoc;

    open spec fn view(&self) -> JsonDoc
        decreases self, 1int,
    {
        match self {
            Json::Null => JsonDoc::Null,
            Json::Bool(b) => JsonDoc::Bool(*b),
            Json::UInt(n) => JsonDoc::Integer(*n as int),
            Json::Int(n) => JsonDoc::Integer(*n as int),
            Json::Real(n) => JsonDoc::Real(*n),
            Json::Text(s) => JsonDoc::Text(s@),
            Json::Array(items) => JsonDoc::Array(item_docs(items@)),
            Json::Object(members) => JsonDoc::Object(member_docs(members@)),
        }
    }
}

/// The value of the last member called `name`, if there is one.
pub open spec fn member(members: Seq<(Seq<char>, JsonDoc)>, name: Seq<char>) -> Option<JsonDoc>
    decreases members.len(),
{
    if members.len() == 0 {
        None
    } else if members.last().0 == name {
        Some(members.last().1)
    } else {
        member(members.drop_last(), name)
    }
}

impl JsonDoc {
    /// The member called `name` of an object; nothing for any other document.
    pub open spec fn get(self, name: Seq<char>) -> Option<JsonDoc> {
        match self {
            JsonDoc::Object(members) => member(members, name),
            _ => None,
        }
    }

    /// The non-negative integer that the document is, if it is one that fits.
    pub open spec fn uint(self) -> Option<u64> {
        match self {
            JsonDoc::Integer(i) if 0 <= i <= u64::MAX => Some(i as u64),
            _ => None,
        }
    }
}

impl Json {
    /// The member called `name`, where this document is an object that has one.
    pub fn get(&self, name: &str) -> (r: Option<&Json>)
        ensures
            match r {
                Some(found) => self@.get(name@) == Some(found@),
                None => self@.get(name@) is None,
            },
    {
        match self {
            Json::Object(members) => {
                let wanted = name.to_owned();
                let mut i: usize = members.len();
                assert(member_docs(members@).take(i as int) =~= member_docs(members@));
                while i > 0
                    invariant
                        i <= members.len(),
                        wanted@ == name@,
                        self@ == JsonDoc::Object(member_docs(members@)),
                        member(member_docs(members@), name@) == member(
                            member_docs(members@).take(i as int),
                            name@,
                        ),
                    decreases i,
                {
                    i = i - 1;
                    proof {
                        let all = member_docs(members@);
                        assert(all.take(i + 1).last() == all[i as int]);
                        assert(all.take(i + 1).drop_last() =~= all.take(i as int));
                    }
                    if members[i].0 == wanted {
                        assert(member(member_docs(members@).take(i + 1), name@) == Some(
                            members[i as int].1@,
                        ));
                        return Some(&members[i].1);
                    }
                }
                None
            },
            _ => None,
        }
    }

    /// The same member as [`Json::get`], moved out of the document.
    pub fn into_member(self, name: &str) -> (r: Option<Json>)
        ensures
            match r {
                Some(found) => self@.get(name@) == Some(found@),
                None => self@.get(name@) is None,
            },
    {
        match self {
            Json::Object(mut members) => {
                let wanted = name.to_owned();
                let ghost all = member_docs(members@);
                assert(all.take(members.len() as int) =~= all);
                while members.len() > 0
                    invariant
                        wanted@ == name@,
                        self@ == JsonDoc::Object(all),
                        member_docs(members@) == all.take(members.len() as int),
                        members.len() <= all.len(),
                        member(all, name@) == member(all.take(members.len() as int), name@),
                    decreases members.len(),
                {
                    let ghost before = members@;
                    let last = members.pop();
                    proof {
                        let n = members.len() as int;
                        assert(all.take(n + 1).last() == all[n]);
                        assert(all.take(n + 1).drop_last() =~= all.take(n));
                        assert(member_docs(members@) =~= all.take(n));
                        assert(member_docs(before)[n] == all[n]);
                    }
                    match last {
                        Some((found_name, found)) => {
                            if found_name == wanted {
                                assert(member(all.take(members.len() + 1), name@) == Some(
                                    found@,
                                ));
                                return Some(found);
                            }
                        },
                        None => {},
                    }
                }
                None
            },
            _ => None,
        }
    }

    /// Whether the document is an object.
    pub fn is_object(&self) -> (r: bool)
        ensures
            r == (self@ is Object),
    {
        match self {
            Json::Object(_) => true,
            _ => false,
        }
    }

    /// Whether the document is `null`.
    pub fn is_null(&self) -> (r: bool)
        ensures
            r == (self@ is Null),
    {
        match self {
            Json::Null => true,
            _ => false,
        }
    }

    /// The truth value that the document is.
    pub fn as_bool(&self) -> (r: Option<bool>)
        ensures
            r == (match self@ {
                JsonDoc::Bool(b) => Some(b),
                _ => None,
            }),
    {
        match self {
            Json::Bool(b) => Some(*b),
            _ => None,
        }
    }

    /// The non-negative integer that the document is.
    pub fn as_uint(&self) -> (r: Option<u64>)
        ensures
            r == self@.uint(),
    {
        match self {
            Json::UInt(n) => Some(*n),
            Json::Int(n) => if *n >= 0 {
                Some(*n as u64)
            } else {
                None
            },
            _ => None,
        }
    }

    /// The text that the document is.
    pub fn as_text(&self) -> (r: Option<&String>)
        ensures
            match r {
                Some(s) => self@ == JsonDoc::Text(s@),
                None => !(self@ is Text),
            },
    {
        match self {
            Json::Text(s) => Some(s),
            _ => None,
        }
    }

    /// The items of the array that the document is, moved out of it.
    pub fn into_items(self) -> (r: Option<Vec<Json>>)
        ensures
            match r {
                Some(items) => self@ == JsonDoc::Array(item_docs(items@)),
                None => !(self@ is Array),
            },
    {
        match self {
            Json::Array(items) => Some(items),
            _ => None,
        }
    }
}

/// What `serde_json::from_str` makes of a text: the document it holds, or nothing
/// where the text is no JSON document.
pub uninterp spec fn parsed_json(text: Seq<char>) -> Option<JsonDoc>;

/// The text that `serde_json::to_string` writes for a document.
pub uninterp spec fn rendered_json(doc: JsonDoc) -> Seq<char>;

/// `serde_json::Value`, of which nothing is known but what the conversions
/// below make of it.
#[verifier::external_type_specification]
#[verifier::external_body]
pub struct ExValue(serde_json::Value);

/// `serde_json::Number`, carried through for the numbers that are no integers.
#[verifier::external_type_specification]
#[verifier::external_body]
pub struct ExNumber(serde_json::Number);

/// `serde_json::Error`, carried through to the caller.
#[verifier::external_type_specification]
#[verifier::external_body]
pub struct ExSyntaxError(serde_json::Error);

/// Moves a `serde_json::Value` into a [`Json`], variant by variant.
#[verifier::external_body]
fn json_of_value(value: serde_json::Value) -> Json {
    match value {
        serde_json::Value::Null => Json::Null,
        serde_json::Value::Bool(b) => Json::Bool(b),
        serde_json::Value::Number(n) => match (n.as_u64(), n.as_i64()) {
            (Some(u), _) => Json::UInt(u),
            (None, Some(i)) => Json::Int(i),
            (None, None) => Json::Real(n),
        },
        serde_json::Value::String(s) => Json::Text(s),
        serde_json::Value::Array(items) => Json::Array(items.into_iter().map(json_of_value).collect()),
        serde_json::Value::Object(members) => Json::Object(
            members.into_iter().map(|(name, v)| (name, json_of_value(v))).collect(),
        ),
    }
}

/// Calls `serde_json::from_str` for a `serde_json::Value`. The contract names the
/// outcome: the document read is the one that [`parsed_json`] gives for the text,
/// and the call fails exactly where that gives nothing.
#[verifier::external_body]
fn parse_text(text: &str) -> (r: Result<Json, serde_json::Error>)
    ensures
        match r {
            Ok(doc) => parsed_json(text@) == Some(doc@),
            Err(_) => parsed_json(text@) is None,
        },
{
    serde_json::from_str::<serde_json::Value>(text).map(json_of_value)
}

/// Copies a [`Json`] into a `serde_json::Value`, variant by variant.
#[verifier::external_body]
fn value_of_json(doc: &Json) -> serde_json::Value {
    match doc {
        Json::Null => serde_json::Value::Null,
        Json::Bool(b) => serde_json::Value::Bool(*b),
        Json::UInt(n) => serde_json::Value::from(*n),
        Json::Int(n) => serde_json::Value::from(*n),
        Json::Real(n) => serde_json::Value::Number(n.clone()),
        Json::Text(s) => serde_json::Value::String(s.clone()),
        Json::Array(items) => serde_json::Value::Array(items.iter().map(value_of_json).collect()),
        Json::Object(members) => serde_json::Value::Object(
            members.iter().map(|(name, v)| (name.clone(), value_of_json(v))).collect(),
        ),
    }
}

/// Calls `serde_json::to_string` on the document as a `serde_json::Value`. The
/// contract names the outcome: the text is the one that [`rendered_json`] gives
/// for the document. Writing a `serde_json::Value` into a string does not fail.
#[verifier::external_body]
fn render_text(doc: &Json) -> (r: String)
    ensures
        r@ == rendered_json(doc@),
{
    serde_json::to_string(&value_of_json(doc)).unwrap_or_default()
}

impl Json {
    /// Reads a document from its text.
    pub fn parse(text: &str) -> (r: Result<Json, ClientError>)
        ensures
            match r {
                Ok(doc) => parsed_json(text@) == Some(doc@),
                Err(e) => parsed_json(text@) is None && e@ == Failure::Serde,
            },
    {
        match parse_text(text) {
            Ok(doc) => Ok(doc),
            Err(e) => Err(ClientError::Serde(e)),
        }
    }

    /// Writes the document as text.
    pub fn render(&self) -> (r: String)
        ensures
            r@ == rendered_json(self@),
    {
        render_text(self)
    }
}

} // verus!
