//! The states of a server-side transaction, and the server's reports of them.

use vstd::prelude::*;
use crate::text::is_word;

verus! {

/// Where a transaction stands on the server. A transaction starts out running
/// and never returns to that state once it has left it.
#[derive(Debug, Clone, Copy, PartialEq, Eq, Structural)]
pub enum Status {
    Running,
    Committed,
    Aborted,
}

impl Status {
    /// The status that a word of the server stands for.
    pub open spec fn of_word(word: Seq<char>) -> Option<Status> {
        if word == "running"@ {
            Some(Status::Running)
        } else if word == "committed"@ {
            Some(Status::Committed)
        } else if word == "aborted"@ {
            Some(Status::Aborted)
        } else {
            None
        }
    }

    /// Reads a status from the server's word for it.
    pub fn from_word(word: &String) -> (r: Option<Status>)
        ensures
            r == Status::of_word(word@),
    {
        if is_word(word, "running") {
            Some(Status::Running)
        } else if is_word(word, "committed") {
            Some(Status::Committed)
        } else if is_word(word, "aborted") {
            Some(Status::Aborted)
        } else {
            None
        }
    }

    /// Whether the transaction has ended, by commit or by abort.
    pub fn is_terminal(&self) -> (r: bool)
        ensures
            r == (*self != Status::Running),
    {
        match self {
            Status::Running => false,
            Status::Committed => true,
            Status::Aborted => true,
        }
    }
}

/// A transaction as the server reports it on begin, commit and abort.
#[derive(Debug, PartialEq, Eq)]
pub struct ArangoTransaction {
    pub id: String,
    pub status: Status,
}

impl View for ArangoTransaction {
    type V = (Seq<char>, Status);

    /// The identifier and the status.
    open spec fn view(&self) -> (Seq<char>, Status) {
        (self.id@, self.status)
    }
}

/// One entry of the server's list of running transactions.
#[derive(Debug, PartialEq, Eq)]
pub struct TransactionState {
    pub id: String,
    pub state: Status,
}

impl View for TransactionState {
    type V = (Seq<char>, Status);

    /// The identifier and the state.
    open spec fn view(&self) -> (Seq<char>, Status) {
        (self.id@, self.state)
    }
}

/// The server's list of running transactions.
#[derive(Debug, PartialEq, Eq)]
pub struct TransactionList {
    pub transactions: Vec<TransactionState>,
}

impl View for TransactionList {
    type V = Seq<(Seq<char>, Status)>;

    /// The entries in their order.
    open spec fn view(&self) -> Seq<(Seq<char>, Status)> {
        Seq::new(self.transactions@.len(), |i: int| self.transactions@[i]@)
    }
}

} // verus!
