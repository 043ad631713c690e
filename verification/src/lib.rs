//! Client-side protocol logic for multi-collection server transactions and
//! for query cursors consumed batch by batch.
//!
//! The crate performs no I/O. Every operation is split into the request that
//! has to be sent and the handling of the reply that came back, so that a
//! blocking or a suspending transport can drive the same logic.

pub mod aql;
pub mod cursor;
pub mod error;
pub mod json;
pub mod request;
pub mod response;
pub mod settings;
pub mod status;
pub mod text;
pub mod transaction;

pub use aql::AqlQuery;
pub use cursor::{Cursor, Paging};
pub use error::{ArangoError, ClientError};
pub use json::Json;
pub use request::{Method, Request, TRANSACTION_HEADER};
pub use settings::{TransactionCollections, TransactionSettings};
pub use status::{ArangoTransaction, Status, TransactionList, TransactionState};
pub use transaction::{Collection, Transaction};
