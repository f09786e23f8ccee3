use sol_tools::{AccountEntry, ApiError, FetchWorker, PageRequest, Transaction, TransactionStore};

fn transaction(signature: &str) -> Transaction {
    Transaction::new(
        signature.to_string(),
        vec![AccountEntry::new(format!("owner-of-{signature}"), 1)],
    )
}

fn history(length: usize) -> Vec<Transaction> {
    (0..length).map(|i| transaction(&format!("sig{i}"))).collect()
}

/// A provider that holds `history` and hands it out in pages of `page_size`.
fn provider_page(
    history: &Vec<Transaction>,
    page_size: usize,
    before: &Option<String>,
) -> Vec<Transaction> {
    let start = match before {
        None => 0,
        Some(cursor) => match history.iter().position(|t| &t.signature == cursor) {
            Some(index) => index + 1,
            None => history.len(),
        },
    };
    let end = std::cmp::min(start + page_size, history.len());
    history[start..end].to_vec()
}

/// Runs a fetch against the provider and returns the number of requests.
fn fetch(
    history: &Vec<Transaction>,
    page_size: usize,
    store: &mut TransactionStore,
    fetching: &mut bool,
) -> usize {
    let mut worker = FetchWorker::start(fetching);
    let mut calls = 0;
    while let Some(request) = worker.request() {
        assert!(*fetching);
        assert!(calls <= history.len() + 1);
        calls += 1;
        let page = provider_page(history, page_size, &request.before);
        worker.receive(Ok(page), store, fetching);
    }
    assert!(worker.is_finished());
    calls
}

#[test]
fn fetch_collects_the_whole_history_in_order() {
    let history = history(7);
    let mut store = TransactionStore::new();
    let mut fetching = false;
    let calls = fetch(&history, 3, &mut store, &mut fetching);
    assert_eq!(calls, 4);
    assert_eq!(store.transactions(), &history);
    assert_eq!(store.snapshot_length(), 7);
    assert!(!fetching);
}

#[test]
fn fetch_needs_one_more_request_than_there_are_pages() {
    for (length, page_size, expected) in
        [(6, 3, 3), (1, 1, 2), (1, 100, 2), (5, 1, 6), (100, 100, 2), (101, 100, 3), (0, 4, 1)]
    {
        let history = history(length);
        let mut store = TransactionStore::new();
        let mut fetching = false;
        let calls = fetch(&history, page_size, &mut store, &mut fetching);
        assert_eq!(calls, expected);
        assert_eq!(store.transactions(), &history);
        assert!(!fetching);
    }
}

#[test]
fn fetch_replaces_what_an_earlier_fetch_left() {
    let mut store = TransactionStore::new();
    let mut fetching = false;
    fetch(&history(5), 2, &mut store, &mut fetching);
    let other = vec![transaction("x"), transaction("y"), transaction("z")];
    fetch(&other, 2, &mut store, &mut fetching);
    assert_eq!(store.transactions(), &other);
}

#[test]
fn start_raises_the_busy_flag_and_asks_for_the_first_page() {
    let mut fetching = false;
    let worker = FetchWorker::start(&mut fetching);
    assert!(fetching);
    assert!(!worker.is_finished());
    assert_eq!(worker.request(), Some(PageRequest { before: None }));
}

#[test]
fn the_cursor_is_the_last_signature_of_the_latest_page() {
    let mut store = TransactionStore::new();
    let mut fetching = false;
    let mut worker = FetchWorker::start(&mut fetching);
    worker.receive(Ok(vec![transaction("a"), transaction("b")]), &mut store, &mut fetching);
    assert_eq!(worker.request(), Some(PageRequest { before: Some("b".to_string()) }));
    worker.receive(Ok(vec![transaction("c")]), &mut store, &mut fetching);
    assert_eq!(worker.request(), Some(PageRequest { before: Some("c".to_string()) }));
    assert!(fetching);
    assert_eq!(
        store.transactions(),
        &vec![transaction("a"), transaction("b"), transaction("c")]
    );
}

#[test]
fn empty_first_page_ends_the_fetch_at_once() {
    let mut store = TransactionStore::new();
    let mut fetching = false;
    let mut worker = FetchWorker::start(&mut fetching);
    worker.receive(Ok(vec![]), &mut store, &mut fetching);
    assert!(worker.is_finished());
    assert_eq!(worker.request(), None);
    assert_eq!(store.snapshot_length(), 0);
    assert!(!fetching);
}

#[test]
fn empty_first_page_replaces_earlier_content() {
    let mut store = TransactionStore::new();
    store.replace_with(vec![transaction("old")]);
    let mut fetching = false;
    let mut worker = FetchWorker::start(&mut fetching);
    worker.receive(Ok(vec![]), &mut store, &mut fetching);
    assert_eq!(store.snapshot_length(), 0);
    assert!(!fetching);
}

#[test]
fn failed_first_request_leaves_the_store_alone() {
    for error in [ApiError::Network, ApiError::Decode, ApiError::MissingField] {
        let mut store = TransactionStore::new();
        store.replace_with(vec![transaction("old")]);
        let mut fetching = false;
        let mut worker = FetchWorker::start(&mut fetching);
        worker.receive(Err(error), &mut store, &mut fetching);
        assert!(worker.is_finished());
        assert_eq!(worker.request(), None);
        assert_eq!(store.transactions(), &vec![transaction("old")]);
        assert!(!fetching);
    }
}

#[test]
fn later_failure_keeps_the_pages_published_so_far() {
    for error in [ApiError::Network, ApiError::Decode, ApiError::MissingField] {
        let mut store = TransactionStore::new();
        let mut fetching = false;
        let mut worker = FetchWorker::start(&mut fetching);
        worker.receive(Ok(vec![transaction("a"), transaction("b")]), &mut store, &mut fetching);
        worker.receive(Ok(vec![transaction("c")]), &mut store, &mut fetching);
        worker.receive(Err(error), &mut store, &mut fetching);
        assert!(worker.is_finished());
        assert_eq!(worker.request(), None);
        assert_eq!(
            store.transactions(),
            &vec![transaction("a"), transaction("b"), transaction("c")]
        );
        assert!(!fetching);
    }
}

#[test]
fn empty_later_page_ends_the_fetch_and_keeps_the_store() {
    let mut store = TransactionStore::new();
    let mut fetching = false;
    let mut worker = FetchWorker::start(&mut fetching);
    worker.receive(Ok(vec![transaction("a")]), &mut store, &mut fetching);
    worker.receive(Ok(vec![]), &mut store, &mut fetching);
    assert!(worker.is_finished());
    assert_eq!(store.transactions(), &vec![transaction("a")]);
    assert!(!fetching);
}

#[test]
fn a_finished_worker_ignores_what_it_is_handed() {
    let mut store = TransactionStore::new();
    let mut fetching = false;
    let mut worker = FetchWorker::start(&mut fetching);
    worker.receive(Ok(vec![transaction("a")]), &mut store, &mut fetching);
    worker.receive(Err(ApiError::Network), &mut store, &mut fetching);
    fetching = true;
    worker.receive(Ok(vec![transaction("late")]), &mut store, &mut fetching);
    assert!(worker.is_finished());
    assert_eq!(worker.request(), None);
    assert_eq!(store.transactions(), &vec![transaction("a")]);
    assert!(fetching);
}

#[test]
fn store_appends_behind_and_replaces_as_a_whole() {
    let mut store = TransactionStore::new();
    assert_eq!(store.snapshot_length(), 0);
    store.append(vec![transaction("a")]);
    store.append(vec![transaction("b"), transaction("c")]);
    store.append(vec![]);
    assert_eq!(store.snapshot_length(), 3);
    assert_eq!(
        store.transactions(),
        &vec![transaction("a"), transaction("b"), transaction("c")]
    );
    store.replace_with(vec![transaction("d")]);
    assert_eq!(store.snapshot_length(), 1);
    assert_eq!(store.transactions(), &vec![transaction("d")]);
    assert_eq!(TransactionStore::default().snapshot_length(), 0);
}
