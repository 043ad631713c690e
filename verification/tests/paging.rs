use arango_transaction::cursor::{first_batch, next_batch, Cursor, Paging};
use arango_transaction::error::ClientError;

fn page(rows: Vec<u32>, more: bool, id: Option<&str>) -> Cursor<u32> {
    Cursor { result: rows, more, id: id.map(|s| s.to_string()) }
}

/// Feeds `pages` to the pager in order, as a caller would that fetched them
/// one by one, and counts the fetches that the pager asked for.
fn page_through(pages: Vec<Cursor<u32>>) -> (Result<Vec<u32>, ClientError>, usize) {
    let mut pages = pages.into_iter();
    let mut fetches = 0;
    let mut state = match first_batch(Ok(pages.next().expect("a first page"))) {
        Ok(state) => state,
        Err(e) => return (Err(e), fetches),
    };
    loop {
        match state {
            Paging::Done { rows } => return (Ok(rows), fetches),
            Paging::Fetch { rows, .. } => {
                fetches += 1;
                let next = pages.next().expect("the server has another page");
                state = match next_batch(rows, Ok(next)) {
                    Ok(state) => state,
                    Err(e) => return (Err(e), fetches),
                };
            }
        }
    }
}

#[test]
fn single_page_is_complete_without_a_fetch() {
    let r = first_batch(Ok(page(vec![1, 2, 3], false, None)));
    assert_eq!(r.unwrap(), Paging::Done { rows: vec![1, 2, 3] });
    let (rows, fetches) = page_through(vec![page(vec![1, 2, 3], false, None)]);
    assert_eq!(rows.unwrap(), vec![1, 2, 3]);
    assert_eq!(fetches, 0);
}

#[test]
fn single_page_may_still_name_its_cursor() {
    let r = first_batch(Ok(page(vec![7], false, Some("c9"))));
    assert_eq!(r.unwrap(), Paging::Done { rows: vec![7] });
}

#[test]
fn empty_single_page_gives_no_rows() {
    let r = first_batch(Ok(page(vec![], false, None)));
    assert_eq!(r.unwrap(), Paging::Done { rows: vec![] });
}

#[test]
fn first_page_with_more_asks_under_its_cursor() {
    let r = first_batch(Ok(page(vec![1, 2], true, Some("c1"))));
    assert_eq!(r.unwrap(), Paging::Fetch { cursor_id: "c1".to_string(), rows: vec![1, 2] });
}

#[test]
fn next_page_goes_behind_the_rows_so_far() {
    let r = next_batch(vec![1, 2], Ok(page(vec![3, 4], true, Some("c1"))));
    assert_eq!(r.unwrap(), Paging::Fetch { cursor_id: "c1".to_string(), rows: vec![1, 2, 3, 4] });
    let r = next_batch(vec![1, 2, 3, 4], Ok(page(vec![5], false, None)));
    assert_eq!(r.unwrap(), Paging::Done { rows: vec![1, 2, 3, 4, 5] });
}

#[test]
fn rows_come_out_in_arrival_order() {
    let (rows, fetches) = page_through(vec![
        page(vec![1, 2], true, Some("c1")),
        page(vec![3, 4], true, Some("c1")),
        page(vec![5], false, Some("c1")),
    ]);
    assert_eq!(rows.unwrap(), vec![1, 2, 3, 4, 5]);
    assert_eq!(fetches, 2);
}

#[test]
fn rows_do_not_depend_on_the_batch_size() {
    let (by_one, _) = page_through(vec![
        page(vec![1], true, Some("a")),
        page(vec![2], true, Some("a")),
        page(vec![3], true, Some("a")),
        page(vec![4], false, None),
    ]);
    let (by_three, _) = page_through(vec![
        page(vec![1, 2, 3], true, Some("a")),
        page(vec![4], false, None),
    ]);
    assert_eq!(by_one.unwrap(), vec![1, 2, 3, 4]);
    assert_eq!(by_three.unwrap(), vec![1, 2, 3, 4]);
}

#[test]
fn rows_are_neither_sorted_nor_deduplicated() {
    let (rows, _) = page_through(vec![
        page(vec![3, 3, 1], true, Some("a")),
        page(vec![], true, Some("a")),
        page(vec![2, 3], false, None),
    ]);
    assert_eq!(rows.unwrap(), vec![3, 3, 1, 2, 3]);
}

#[test]
fn missing_cursor_on_first_page_fails() {
    let r = first_batch(Ok(page(vec![1, 2], true, None)));
    assert!(matches!(r, Err(ClientError::MissingCursorId)));
}

#[test]
fn missing_cursor_on_later_page_fails_without_rows() {
    let (rows, fetches) = page_through(vec![
        page(vec![1, 2], true, Some("c1")),
        page(vec![3, 4], true, None),
        page(vec![5], false, None),
    ]);
    assert!(matches!(rows, Err(ClientError::MissingCursorId)));
    assert_eq!(fetches, 1);
}

#[test]
fn failed_fetch_drops_the_rows_so_far() {
    let r = next_batch(vec![1, 2], Err::<Cursor<u32>, _>(ClientError::HttpClient("reset".to_string())));
    match r {
        Err(ClientError::HttpClient(why)) => assert_eq!(why, "reset"),
        other => panic!("unexpected: {:?}", other),
    }
}

#[test]
fn failed_first_request_fails_the_query() {
    let r = first_batch(Err::<Cursor<u32>, _>(ClientError::HttpClient("refused".to_string())));
    match r {
        Err(ClientError::HttpClient(why)) => assert_eq!(why, "refused"),
        other => panic!("unexpected: {:?}", other),
    }
}
