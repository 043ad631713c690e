//! What a transaction is begun with: the collections it locks, and its options.

use vstd::prelude::*;
use crate::json::{member, member_docs, rendered_json, Json, JsonDoc};
use crate::text::texts;

verus! {

/// The collections that a transaction locks: those it writes to, and
/// optionally those it only reads. Whether a name stands in both lists is for
/// the server to judge.
#[derive(Debug)]
pub struct TransactionCollections {
    read: Option<Vec<String>>,
    write: Vec<String>,
}

/// The mathematical value of a [`TransactionCollections`].
pub struct Collections {
    pub read: Option<Seq<Seq<char>>>,
    pub write: Seq<Seq<char>>,
}

impl View for TransactionCollections {
    type V = Collections;

    closed spec fn view(&self) -> Collections {
        Collections {
            read: match self.read {
                Some(names) => Some(texts(names@)),
                None => None,
            },
            write: texts(self.write@),
        }
    }
}

impl Collections {
    /// Whether no collection is named both for reading and for writing. The
    /// server is the one to turn down collections that are not so.
    pub open spec fn consistent(self) -> bool {
        match self.read {
            None => true,
            Some(read) => forall|i: int, j: int|
                0 <= i < read.len() && 0 <= j < self.write.len() ==> #[trigger] read[i]
                    != #[trigger] self.write[j],
        }
    }
}

/// The settings that a transaction is begun with. They are fixed once the
/// transaction is asked for.
#[derive(Debug)]
pub struct TransactionSettings {
    collections: TransactionCollections,
    wait_for_sync: Option<bool>,
    allow_implicit: bool,
    lock_timeout: Option<usize>,
    max_transaction_size: Option<usize>,
}

/// The mathematical value of a [`TransactionSettings`].
pub struct Settings {
    pub collections: Collections,
    pub wait_for_sync: Option<bool>,
    pub allow_implicit: bool,
    pub lock_timeout: Option<usize>,
    pub max_transaction_size: Option<usize>,
}

impl View for TransactionSettings {
    type V = Settings;

    closed spec fn view(&self) -> Settings {
        Settings {
            collections: self.collections@,
            wait_for_sync: self.wait_for_sync,
            allow_implicit: self.allow_implicit,
            lock_timeout: self.lock_timeout,
            max_transaction_size: self.max_transaction_size,
        }
    }
}

/// A list of names as a JSON array of texts.
pub open spec fn names_doc(names: Seq<Seq<char>>) -> JsonDoc {
    JsonDoc::Array(Seq::new(names.len(), |i: int| JsonDoc::Text(names[i])))
}

/// One member where `value` is there, none where it is not.
pub open spec fn optional_member(name: Seq<char>, value: Option<JsonDoc>) -> Seq<
    (Seq<char>, JsonDoc),
> {
    match value {
        Some(doc) => seq![(name, doc)],
        None => Seq::empty(),
    }
}

/// The JSON object that stands for the collections: `write` always, `read`
/// only where it was given.
pub open spec fn collections_doc(c: Collections) -> JsonDoc {
    JsonDoc::Object(
        optional_member(
            "read"@,
            match c.read {
                Some(names) => Some(names_doc(names)),
                None => None,
            },
        ) + seq![("write"@, names_doc(c.write))],
    )
}

/// The JSON object that stands for the settings: `collections` and
/// `allowImplicit` always, each of the other options only where it was given.
pub open spec fn settings_doc(s: Settings) -> JsonDoc {
    JsonDoc::Object(
        seq![("collections"@, collections_doc(s.collections))] + optional_member(
            "waitForSync"@,
            match s.wait_for_sync {
                Some(wait) => Some(JsonDoc::Bool(wait)),
                None => None,
            },
        ) + seq![("allowImplicit"@, JsonDoc::Bool(s.allow_implicit))] + optional_member(
            "lockTimeout"@,
            match s.lock_timeout {
                Some(n) => Some(JsonDoc::Integer(n as int)),
                None => None,
            },
        ) + optional_member(
            "maxTransactionSize"@,
            match s.max_transaction_size {
                Some(n) => Some(JsonDoc::Integer(n as int)),
                None => None,
            },
        ),
    )
}

fn names_json(names: &Vec<String>) -> (r: Json)
    ensures
        r@ == names_doc(texts(names@)),
{
    let mut items: Vec<Json> = Vec::new();
    let mut i: usize = 0;
    while i < names.len()
        invariant
            i <= names.len(),
            items.len() == i,
            forall|j: int| 0 <= j < i ==> (#[trigger] items@[j])@ == JsonDoc::Text(names@[j]@),
        decreases names.len() - i,
    {
        items.push(Json::Text(names[i].clone()));
        i = i + 1;
    }
    let r = Json::Array(items);
    assert(r@->Array_0 =~= names_doc(texts(names@))->Array_0);
    r
}

impl TransactionCollections {
    /// Collections to write to, and none that are only read.
    pub fn new(write: Vec<String>) -> (r: TransactionCollections)
        ensures
            r@ == (Collections { read: None, write: texts(write@) }),
    {
        TransactionCollections { read: None, write }
    }

    /// The same with `read` as the collections that are only read.
    pub fn read(self, read: Vec<String>) -> (r: TransactionCollections)
        ensures
            r@ == (Collections { read: Some(texts(read@)), write: self@.write }),
    {
        TransactionCollections { read: Some(read), write: self.write }
    }

    /// Whether no collection is named both for reading and for writing.
    pub fn is_consistent(&self) -> (r: bool)
        ensures
            r == self@.consistent(),
    {
        match &self.read {
            None => true,
            Some(read) => {
                let mut i: usize = 0;
                while i < read.len()
                    invariant
                        i <= read.len(),
                        self@.read == Some(texts(read@)),
                        self@.write == texts(self.write@),
                        forall|a: int, b: int|
                            0 <= a < i && 0 <= b < self.write.len() ==> #[trigger] texts(read@)[a]
                                != #[trigger] texts(self.write@)[b],
                    decreases read.len() - i,
                {
                    let mut j: usize = 0;
                    while j < self.write.len()
                        invariant
                            i < read.len(),
                            j <= self.write.len(),
                            self@.read == Some(texts(read@)),
                            self@.write == texts(self.write@),
                            forall|b: int|
                                0 <= b < j ==> texts(read@)[i as int] != #[trigger] texts(
                                    self.write@,
                                )[b],
                        decreases self.write.len() - j,
                    {
                        if read[i] == self.write[j] {
                            proof {
                                let named = self@.read->Some_0;
                                assert(named[i as int] == self@.write[j as int]);
                            }
                            return false;
                        }
                        j = j + 1;
                    }
                    i = i + 1;
                }
                true
            },
        }
    }

    /// The JSON object that stands for these collections.
    pub fn to_json(&self) -> (r: Json)
        ensures
            r@ == collections_doc(self@),
    {
        let mut members: Vec<(String, Json)> = Vec::new();
        match &self.read {
            Some(names) => {
                members.push((String::from_str("read"), names_json(names)));
            },
            None => {},
        }
        members.push((String::from_str("write"), names_json(&self.write)));
        let r = Json::Object(members);
        assert(r@->Object_0 =~= collections_doc(self@)->Object_0);
        r
    }
}

impl TransactionSettings {
    /// Settings for a transaction on `collections` with every option left
    /// alone: collections that were not declared may still be used, and
    /// nothing is said of syncing, of a lock timeout or of a size limit.
    pub fn new(collections: TransactionCollections) -> (r: TransactionSettings)
        ensures
            r@ == (Settings {
                collections: collections@,
                wait_for_sync: None,
                allow_implicit: true,
                lock_timeout: None,
                max_transaction_size: None,
            }),
    {
        TransactionSettings {
            collections,
            wait_for_sync: None,
            allow_implicit: true,
            lock_timeout: None,
            max_transaction_size: None,
        }
    }

    /// The same, with the say on whether the commit waits until the data is
    /// on disk.
    pub fn wait_for_sync(self, wait: bool) -> (r: TransactionSettings)
        ensures
            r@ == (Settings { wait_for_sync: Some(wait), ..self@ }),
    {
        TransactionSettings { wait_for_sync: Some(wait), ..self }
    }

    /// The same, with the say on whether collections that were not declared
    /// may be used.
    pub fn allow_implicit(self, allow: bool) -> (r: TransactionSettings)
        ensures
            r@ == (Settings { allow_implicit: allow, ..self@ }),
    {
        TransactionSettings { allow_implicit: allow, ..self }
    }

    /// The same, with a limit on the time to wait for a lock.
    pub fn lock_timeout(self, timeout: usize) -> (r: TransactionSettings)
        ensures
            r@ == (Settings { lock_timeout: Some(timeout), ..self@ }),
    {
        TransactionSettings { lock_timeout: Some(timeout), ..self }
    }

    /// The same, with a limit on the transaction's size, in bytes.
    pub fn max_transaction_size(self, size: usize) -> (r: TransactionSettings)
        ensures
            r@ == (Settings { max_transaction_size: Some(size), ..self@ }),
    {
        TransactionSettings { max_transaction_size: Some(size), ..self }
    }

    /// The JSON object that stands for these settings.
    pub fn to_json(&self) -> (r: Json)
        ensures
            r@ == settings_doc(self@),
    {
        let mut members: Vec<(String, Json)> = Vec::new();
        members.push((String::from_str("collections"), self.collections.to_json()));
        let ghost first = seq![("collections"@, collections_doc(self@.collections))];
        assert(member_docs(members@) =~= first);
        match self.wait_for_sync {
            Some(wait) => {
                members.push((String::from_str("waitForSync"), Json::Bool(wait)));
            },
            None => {},
        }
        let ghost second = first + optional_member(
            "waitForSync"@,
            match self@.wait_for_sync {
                Some(wait) => Some(JsonDoc::Bool(wait)),
                None => None,
            },
        );
        assert(member_docs(members@) =~= second);
        members.push((String::from_str("allowImplicit"), Json::Bool(self.allow_implicit)));
        let ghost third = second + seq![("allowImplicit"@, JsonDoc::Bool(self@.allow_implicit))];
        assert(member_docs(members@) =~= third);
        match self.lock_timeout {
            Some(n) => {
                members.push((String::from_str("lockTimeout"), Json::UInt(n as u64)));
            },
            None => {},
        }
        let ghost fourth = third + optional_member(
            "lockTimeout"@,
            match self@.lock_timeout {
                Some(n) => Some(JsonDoc::Integer(n as int)),
                None => None,
            },
        );
        assert(member_docs(members@) =~= fourth);
        match self.max_transaction_size {
            Some(n) => {
                members.push((String::from_str("maxTransactionSize"), Json::UInt(n as u64)));
            },
            None => {},
        }
        let ghost fifth = fourth + optional_member(
            "maxTransactionSize"@,
            match self@.max_transaction_size {
                Some(n) => Some(JsonDoc::Integer(n as int)),
                None => None,
            },
        );
        assert(member_docs(members@) =~= fifth);
        Json::Object(members)
    }

    /// The body of the request that begins a transaction with these settings.
    pub fn body(&self) -> (r: String)
        ensures
            r@ == rendered_json(settings_doc(self@)),
    {
        self.to_json().render()
    }
}

/// Settings made of nothing but the collections to write to say nothing of the
/// rest: their JSON object holds `collections`, with `write` in it and no
/// `read`, and `allowImplicit`, which is true; it holds no `waitForSync`, no
/// `lockTimeout` and no `maxTransactionSize`.
pub proof fn lemma_minimal_settings(write: Seq<Seq<char>>)
    ensures
        ({
            let settings = Settings {
                collections: Collections { read: None, write },
                wait_for_sync: None,
                allow_implicit: true,
                lock_timeout: None,
                max_transaction_size: None,
            };
            let collections = JsonDoc::Object(seq![("write"@, names_doc(write))]);
            let doc = settings_doc(settings);
            &&& doc == JsonDoc::Object(
                seq![("collections"@, collections), ("allowImplicit"@, JsonDoc::Bool(true))],
            )
            &&& doc.get("collections"@) == Some(collections)
            &&& collections.get("write"@) == Some(names_doc(write))
            &&& collections.get("read"@) is None
            &&& doc.get("allowImplicit"@) == Some(JsonDoc::Bool(true))
            &&& doc.get("waitForSync"@) is None
            &&& doc.get("lockTimeout"@) is None
            &&& doc.get("maxTransactionSize"@) is None
        }),
{
    reveal_strlit("collections");
    reveal_strlit("write");
    reveal_strlit("read");
    reveal_strlit("allowImplicit");
    reveal_strlit("waitForSync");
    reveal_strlit("lockTimeout");
    reveal_strlit("maxTransactionSize");
    assert("collections"@.len() == 11 && "collections"@[0] == 'c');
    assert("write"@.len() == 5 && "read"@.len() == 4);
    assert("allowImplicit"@.len() == 13);
    assert("waitForSync"@.len() == 11 && "waitForSync"@[0] == 'w');
    assert("lockTimeout"@.len() == 11 && "lockTimeout"@[0] == 'l');
    assert("maxTransactionSize"@.len() == 18);
    reveal_with_fuel(member, 3);
    let settings = Settings {
        collections: Collections { read: None, write },
        wait_for_sync: None,
        allow_implicit: true,
        lock_timeout: None,
        max_transaction_size: None,
    };
    let collections = JsonDoc::Object(seq![("write"@, names_doc(write))]);
    assert(collections_doc(settings.collections)->Object_0 =~= seq![("write"@, names_doc(write))]);
    assert(settings_doc(settings)->Object_0 =~= seq![
        ("collections"@, collections),
        ("allowImplicit"@, JsonDoc::Bool(true)),
    ]);
}

} // verus!
