//! Query results that arrive batch by batch.
//!
//! The server hands out a large result in batches and keeps a cursor for the
//! rest. After each batch the caller has to know whether to ask again, and
//! under which cursor: [`first_batch`] and [`next_batch`] decide that, and
//! keep the rows in the order of arrival. Sending the requests is left to the
//! caller.

use vstd::prelude::*;
use crate::error::{ClientError, Failure};

verus! {

/// One batch of a query's result.
#[derive(Debug, PartialEq, Eq)]
pub struct Cursor<R> {
    /// The rows of this batch.
    pub result: Vec<R>,
    /// Whether the server holds more rows.
    pub more: bool,
    /// The cursor under which the next batch is asked for. It may be missing
    /// from the last batch.
    pub id: Option<String>,
}

/// The mathematical value of a [`Cursor`].
pub struct Page<R> {
    pub rows: Seq<R>,
    pub more: bool,
    pub id: Option<Seq<char>>,
}

impl<R> View for Cursor<R> {
    type V = Page<R>;

    open spec fn view(&self) -> Page<R> {
        Page {
            rows: self.result@,
            more: self.more,
            id: match self.id {
                Some(id) => Some(id@),
                None => None,
            },
        }
    }
}

/// Where a query stands after a batch.
#[derive(Debug, PartialEq, Eq)]
pub enum Paging<R> {
    /// The next batch has to be asked for under `cursor_id`; `rows` are the
    /// rows that arrived so far.
    Fetch { cursor_id: String, rows: Vec<R> },
    /// The result is complete.
    Done { rows: Vec<R> },
}

/// The mathematical value of a [`Paging`].
pub enum Progress<R> {
    Fetch { cursor_id: Seq<char>, rows: Seq<R> },
    Done { rows: Seq<R> },
}

impl<R> View for Paging<R> {
    type V = Progress<R>;

    open spec fn view(&self) -> Progress<R> {
        match self {
            Paging::Fetch { cursor_id, rows } => Progress::Fetch {
                cursor_id: cursor_id@,
                rows: rows@,
            },
            Paging::Done { rows } => Progress::Done { rows: rows@ },
        }
    }
}

/// What follows from one batch, `rows` being what arrived before it: the
/// batch's rows go behind `rows`; a batch that announces more asks for the
/// next one under its cursor, and fails where it names none.
pub open spec fn step<R>(rows: Seq<R>, page: Page<R>) -> Result<Progress<R>, Failure> {
    if !page.more {
        Ok(Progress::Done { rows: rows + page.rows })
    } else {
        match page.id {
            Some(cursor_id) => Ok(Progress::Fetch { cursor_id, rows: rows + page.rows }),
            None => Err(Failure::MissingCursorId),
        }
    }
}

/// What a query ends with when its batches arrive as `pages`, in that order,
/// `rows` being what arrived before them. `None` says that the last of them
/// still announces more. Batches behind the one that completes the result are
/// never asked for, and so do not count.
pub open spec fn run<R>(rows: Seq<R>, pages: Seq<Page<R>>) -> Option<Result<Seq<R>, Failure>>
    decreases pages.len(),
{
    if pages.len() == 0 {
        None
    } else {
        match step(rows, pages.first()) {
            Err(failure) => Some(Err(failure)),
            Ok(Progress::Done { rows }) => Some(Ok(rows)),
            Ok(Progress::Fetch { rows, .. }) => run(rows, pages.drop_first()),
        }
    }
}

/// The rows of all `pages`, one batch behind the other.
pub open spec fn all_rows<R>(pages: Seq<Page<R>>) -> Seq<R>
    decreases pages.len(),
{
    if pages.len() == 0 {
        Seq::empty()
    } else {
        pages.first().rows + all_rows(pages.drop_first())
    }
}

/// Takes in one batch, or the failure to get it. `rows` are the rows of the
/// batches before it. A failure is handed on as it is, and the rows so far are
/// dropped with it.
pub fn next_batch<R>(rows: Vec<R>, arrival: Result<Cursor<R>, ClientError>) -> (r: Result<
    Paging<R>,
    ClientError,
>)
    ensures
        match arrival {
            Err(failure) => r == Err::<Paging<R>, ClientError>(failure),
            Ok(page) => match r {
                Ok(paging) => step(rows@, page@) == Ok::<Progress<R>, Failure>(paging@),
                Err(failure) => step(rows@, page@) == Err::<Progress<R>, Failure>(failure@),
            },
        },
        arrival matches Ok(page) ==> (page.more && page.id is None ==> r matches Err(
            ClientError::MissingCursorId,
        )),
{
    match arrival {
        Err(failure) => Err(failure),
        Ok(page) => {
            let Cursor { result, more, id } = page;
            let mut rows = rows;
            let mut result = result;
            if more {
                match id {
                    None => Err(ClientError::MissingCursorId),
                    Some(cursor_id) => {
                        rows.append(&mut result);
                        Ok(Paging::Fetch { cursor_id, rows })
                    },
                }
            } else {
                rows.append(&mut result);
                Ok(Paging::Done { rows })
            }
        },
    }
}

/// Takes in the first batch of a query, or the failure to get it. Where the
/// batch announces no more, the result is complete with its rows and nothing
/// further is to be asked of the server.
pub fn first_batch<R>(arrival: Result<Cursor<R>, ClientError>) -> (r: Result<
    Paging<R>,
    ClientError,
>)
    ensures
        match arrival {
            Err(failure) => r == Err::<Paging<R>, ClientError>(failure),
            Ok(page) => match r {
                Ok(paging) => step(Seq::empty(), page@) == Ok::<Progress<R>, Failure>(paging@),
                Err(failure) => step(Seq::empty(), page@) == Err::<Progress<R>, Failure>(failure@),
            },
        },
        arrival matches Ok(page) ==> (!page.more ==> (r matches Ok(Paging::Done { rows }) && rows@
            == page.result@)),
        arrival matches Ok(page) ==> (page.more && page.id is None ==> r matches Err(
            ClientError::MissingCursorId,
        )),
{
    next_batch(Vec::new(), arrival)
}

/// A result that spans several batches comes out as their rows in the order
/// of arrival, wherever the server cut it into batches: if every batch but
/// the last announces more under a cursor, and the last announces no more,
/// the query ends with the rows of the first batch, then those of the second,
/// and so on to the last.
pub proof fn lemma_rows_in_arrival_order<R>(rows: Seq<R>, pages: Seq<Page<R>>)
    requires
        pages.len() > 0,
        forall|i: int|
            0 <= i < pages.len() - 1 ==> (#[trigger] pages[i]).more && pages[i].id is Some,
        !pages.last().more,
    ensures
        run(rows, pages) == Some(Ok::<Seq<R>, Failure>(rows + all_rows(pages))),
    decreases pages.len(),
{
    let rest = pages.drop_first();
    if pages.len() == 1 {
        assert(all_rows(rest) =~= Seq::<R>::empty());
        assert(rows + all_rows(pages) =~= rows + pages.first().rows);
    } else {
        assert(pages.first() == pages[0]);
        assert forall|i: int| 0 <= i < rest.len() - 1 implies (#[trigger] rest[i]).more
            && rest[i].id is Some by {
            assert(rest[i] == pages[i + 1]);
        }
        assert(rest.last() == pages.last());
        lemma_rows_in_arrival_order(rows + pages.first().rows, rest);
        assert(rows + pages.first().rows + all_rows(rest) =~= rows + all_rows(pages));
    }
}

/// A batch that announces no more completes the result on the spot: the query
/// ends with the rows so far and the batch's own, and nothing is asked of the
/// server after it, so that whatever `later` would hold does not count. For
/// the first batch, with no rows before it, the result is that batch's rows.
pub proof fn lemma_last_batch_ends_query<R>(rows: Seq<R>, page: Page<R>, later: Seq<Page<R>>)
    requires
        !page.more,
    ensures
        step(rows, page) == Ok::<Progress<R>, Failure>(Progress::Done { rows: rows + page.rows }),
        run(rows, seq![page] + later) == Some(Ok::<Seq<R>, Failure>(rows + page.rows)),
        run(Seq::empty(), seq![page] + later) == Some(Ok::<Seq<R>, Failure>(page.rows)),
{
    assert((seq![page] + later).first() == page);
    assert(Seq::<R>::empty() + page.rows =~= page.rows);
}

/// A batch that announces more and names no cursor fails the query: if every
/// batch before the `k`-th announces more under a cursor, and the `k`-th
/// announces more under none, the query ends with that failure, whatever
/// arrived before and whatever would come after. No rows are handed out.
pub proof fn lemma_missing_cursor_fails<R>(rows: Seq<R>, pages: Seq<Page<R>>, k: int)
    requires
        0 <= k < pages.len(),
        forall|i: int| 0 <= i < k ==> (#[trigger] pages[i]).more && pages[i].id is Some,
        pages[k].more,
        pages[k].id is None,
    ensures
        run(rows, pages) == Some(Err::<Seq<R>, Failure>(Failure::MissingCursorId)),
    decreases pages.len(),
{
    assert(pages.first() == pages[0]);
    if k > 0 {
        let rest = pages.drop_first();
        assert forall|i: int| 0 <= i < k - 1 implies (#[trigger] rest[i]).more
            && rest[i].id is Some by {
            assert(rest[i] == pages[i + 1]);
        }
        assert(rest[k - 1] == pages[k]);
        lemma_missing_cursor_fails(rows + pages.first().rows, rest, k - 1);
    }
}

} // verus!
