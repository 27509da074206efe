use dehashed_rs::{
    DehashedError, Entry, Query, Response, Search, SearchType, Step, PAGE_DELAY_MS, PAGE_SIZE,
};

fn entry(id: usize) -> Entry {
    Entry {
        id: id.to_string(),
        email: String::new(),
        username: String::new(),
        password: String::new(),
        hashed_password: String::new(),
        ip_address: String::new(),
        ip_address_value: None,
        name: String::new(),
        vin: String::new(),
        address: String::new(),
        phone: String::new(),
        database_name: String::new(),
    }
}

fn page(first_id: usize, count: usize, total: usize, balance: usize) -> Response {
    Response {
        balance,
        entries: Some((first_id..first_id + count).map(entry).collect()),
        success: true,
        took: "1ms".to_string(),
        total,
    }
}

fn start() -> (Search, Step) {
    Search::new(&Query::Domain(SearchType::Simple("example.com".to_string())))
}

fn expect_fetch(step: Step, delay: u64, page_no: usize) {
    match step {
        Step::Fetch { delay_ms, request } => {
            assert_eq!(delay_ms, delay);
            assert_eq!(request.size, PAGE_SIZE);
            assert_eq!(request.page, page_no);
            assert_eq!(request.query, "domain:example.com");
        }
        other => panic!("unexpected {other:?}"),
    }
}

#[test]
fn first_request_is_immediate() {
    let (_, step) = start();
    expect_fetch(step, 0, 1);
}

#[test]
fn single_page_search_ends_after_one_request() {
    let (mut s, step) = start();
    expect_fetch(step, 0, 1);
    assert!(s.on_status(200).is_none());
    match s.on_body(page(1, 3, 3, 77)) {
        Step::Finished(Ok(r)) => {
            assert_eq!(r.entries.len(), 3);
            assert_eq!(r.entries[0].id, 1);
            assert_eq!(r.entries[2].id, 3);
            assert_eq!(r.balance, 77);
        }
        other => panic!("unexpected {other:?}"),
    }
}

#[test]
fn two_page_search_aggregates_both_pages() {
    let (mut s, step) = start();
    expect_fetch(step, 0, 1);
    assert!(s.on_status(200).is_none());
    let step = s.on_body(page(0, 10000, 15000, 50));
    expect_fetch(step, PAGE_DELAY_MS, 2);
    assert_eq!(PAGE_DELAY_MS, 200);
    assert!(s.on_status(200).is_none());
    match s.on_body(page(10000, 5000, 15000, 49)) {
        Step::Finished(Ok(r)) => {
            assert_eq!(r.entries.len(), 15000);
            for (i, e) in r.entries.iter().enumerate() {
                assert_eq!(e.id, i as u64);
            }
            assert_eq!(r.balance, 49);
        }
        other => panic!("unexpected {other:?}"),
    }
}

#[test]
fn total_of_exactly_one_page_asks_for_another() {
    let (mut s, _) = start();
    let step = s.on_body(page(0, 10, 10000, 1));
    expect_fetch(step, PAGE_DELAY_MS, 2);
    match s.on_body(page(10, 0, 10000, 1)) {
        Step::Finished(Ok(r)) => assert_eq!(r.entries.len(), 10),
        other => panic!("unexpected {other:?}"),
    }
}

#[test]
fn unauthorized_discards_earlier_pages() {
    let (mut s, _) = start();
    let step = s.on_body(page(0, 5, 20000, 3));
    expect_fetch(step, PAGE_DELAY_MS, 2);
    assert!(matches!(
        s.on_status(401),
        Some(Step::Finished(Err(DehashedError::Unauthorized)))
    ));
}

#[test]
fn status_errors() {
    let (s, _) = start();
    assert!(matches!(
        s.on_status(302),
        Some(Step::Finished(Err(DehashedError::InvalidQuery)))
    ));
    assert!(matches!(
        s.on_status(400),
        Some(Step::Finished(Err(DehashedError::RateLimited)))
    ));
    assert!(matches!(
        s.on_status(401),
        Some(Step::Finished(Err(DehashedError::Unauthorized)))
    ));
    for status in [201, 204, 301, 404, 429, 500] {
        assert!(matches!(
            s.on_status(status),
            Some(Step::Finished(Err(DehashedError::Unknown)))
        ));
    }
}

#[test]
fn unsuccessful_page_is_unknown() {
    let (mut s, _) = start();
    let mut res = page(0, 2, 2, 1);
    res.success = false;
    assert!(matches!(
        s.on_body(res),
        Step::Finished(Err(DehashedError::Unknown))
    ));
}

#[test]
fn undecodable_body_is_unknown() {
    let (s, _) = start();
    assert!(matches!(
        s.on_undecodable_body(),
        Step::Finished(Err(DehashedError::Unknown))
    ));
}

#[test]
fn page_without_entries() {
    let (mut s, _) = start();
    let res = Response {
        balance: 9,
        entries: None,
        success: true,
        took: String::new(),
        total: 0,
    };
    match s.on_body(res) {
        Step::Finished(Ok(r)) => {
            assert!(r.entries.is_empty());
            assert_eq!(r.balance, 9);
        }
        other => panic!("unexpected {other:?}"),
    }
}

#[test]
fn malformed_record_fails_the_search() {
    let (mut s, _) = start();
    let step = s.on_body(page(0, 3, 20000, 3));
    expect_fetch(step, PAGE_DELAY_MS, 2);
    let mut res = page(3, 3, 20000, 3);
    if let Some(v) = res.entries.as_mut() {
        v[1].id = "x".to_string();
    }
    assert!(matches!(
        s.on_body(res),
        Step::Finished(Err(DehashedError::ParseIntError(_)))
    ));
}
