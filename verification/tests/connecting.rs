use sol_tools::connections::find_connections;
use sol_tools::{AccountEntry, App, ApiError, Tab, Transaction, TransactionStore};

fn transaction(signature: &str, accounts: &[&str]) -> Transaction {
    Transaction::new(
        signature.to_string(),
        accounts.iter().map(|account| AccountEntry::new(account.to_string(), 0)).collect(),
    )
}

fn signatures(transactions: &Vec<Transaction>) -> Vec<String> {
    transactions.iter().map(|t| t.signature.clone()).collect()
}

#[test]
fn connections_are_the_touching_transactions_in_store_order() {
    let store = vec![transaction("a", &["X"]), transaction("b", &["Y"]), transaction("c", &["X"])];
    let found = find_connections(&store, &"X".to_string());
    assert_eq!(signatures(&found), vec!["a", "c"]);
    assert_eq!(found, vec![transaction("a", &["X"]), transaction("c", &["X"])]);
}

#[test]
fn connections_count_the_touching_transactions() {
    let store: Vec<Transaction> = (0..20)
        .map(|i| {
            if i % 3 == 0 {
                transaction(&format!("s{i}"), &["payer", "target", "other"])
            } else {
                transaction(&format!("s{i}"), &["payer", "other"])
            }
        })
        .collect();
    let found = find_connections(&store, &"target".to_string());
    assert_eq!(found.len(), 7);
    assert_eq!(signatures(&found), vec!["s0", "s3", "s6", "s9", "s12", "s15", "s18"]);
}

#[test]
fn a_transaction_that_names_the_address_twice_is_found_once() {
    let store = vec![transaction("a", &["X", "Y", "X"]), transaction("b", &["X"])];
    let found = find_connections(&store, &"X".to_string());
    assert_eq!(signatures(&found), vec!["a", "b"]);
}

#[test]
fn connections_of_an_address_that_nothing_touches_are_empty() {
    let store = vec![transaction("a", &["X"]), transaction("b", &[])];
    assert_eq!(find_connections(&store, &"Z".to_string()), vec![]);
    assert_eq!(find_connections(&store, &"".to_string()), vec![]);
    assert_eq!(find_connections(&vec![], &"X".to_string()), vec![]);
}

#[test]
fn addresses_are_compared_as_a_whole() {
    let store = vec![transaction("a", &["XY"]), transaction("b", &["x"]), transaction("c", &["X"])];
    assert_eq!(signatures(&find_connections(&store, &"X".to_string())), vec!["c"]);
}

#[test]
fn touches_looks_at_every_entry() {
    let subject = transaction("s", &["first", "second", "third"]);
    assert!(subject.touches(&"first".to_string()));
    assert!(subject.touches(&"third".to_string()));
    assert!(!subject.touches(&"fourth".to_string()));
    assert!(!transaction("s", &[]).touches(&"first".to_string()));
}

#[test]
fn signer_balance_change_is_that_of_the_first_entry() {
    let subject = Transaction::new(
        "s".to_string(),
        vec![
            AccountEntry::new("signer".to_string(), -500_000_000),
            AccountEntry::new("receiver".to_string(), 499_995_000),
        ],
    );
    assert_eq!(subject.signer_balance_change(), Some(-500_000_000));
    assert_eq!(transaction("s", &[]).signer_balance_change(), None);
}

#[test]
fn accounts_lists_the_addresses_in_order() {
    let subject = transaction("s", &["c", "a", "b", "a"]);
    assert_eq!(subject.accounts(), vec!["c", "a", "b", "a"]);
    assert_eq!(transaction("s", &[]).accounts(), Vec::<String>::new());
}

#[test]
fn a_clone_equals_what_it_was_made_from() {
    let subject = Transaction::new(
        "s".to_string(),
        vec![AccountEntry::new("a".to_string(), i64::MIN), AccountEntry::new("b".to_string(), 7)],
    );
    let copy = subject.clone();
    assert_eq!(copy, subject);
    assert_eq!(copy.account_data[0].clone(), AccountEntry::new("a".to_string(), i64::MIN));
}

#[test]
fn the_tool_starts_empty_in_the_fetch_view() {
    let app = App::default();
    assert_eq!(app.tab, Tab::GetTransactions);
    assert_eq!(Tab::default(), Tab::GetTransactions);
    assert_eq!(app.helius_api_key, "");
    assert_eq!(app.address, "");
    assert_eq!(app.second_address, "");
    assert_eq!(app.search_sig, "");
    assert_eq!(app.transactions_len, 0);
    assert_eq!(app.connections, vec![]);
    assert_eq!(app.active_txn, None);
}

#[test]
fn selecting_a_row_shows_the_detail_view() {
    let mut app = App::default();
    app.tab = Tab::FindConnections;
    app.address = "mine".to_string();
    app.select(transaction("chosen", &["X"]));
    assert_eq!(app.tab, Tab::ActiveTransaction);
    assert_eq!(app.active_txn, Some(transaction("chosen", &["X"])));
    assert_eq!(app.address, "mine");
    app.tab = Tab::GetTransactions;
    app.select(transaction("next", &[]));
    assert_eq!(app.tab, Tab::ActiveTransaction);
    assert_eq!(app.active_txn, Some(transaction("next", &[])));
}

#[test]
fn a_lookup_that_succeeds_is_shown_and_one_that_fails_is_not() {
    let mut app = App::default();
    app.tab = Tab::Search;
    for error in [ApiError::Network, ApiError::Decode, ApiError::MissingField] {
        app.show_lookup(Err(error));
        assert_eq!(app.tab, Tab::Search);
        assert_eq!(app.active_txn, None);
    }
    app.show_lookup(Ok(transaction("found", &["X"])));
    assert_eq!(app.tab, Tab::ActiveTransaction);
    assert_eq!(app.active_txn, Some(transaction("found", &["X"])));
    app.tab = Tab::Search;
    app.show_lookup(Err(ApiError::Network));
    assert_eq!(app.tab, Tab::Search);
    assert_eq!(app.active_txn, Some(transaction("found", &["X"])));
}

#[test]
fn a_busy_store_leaves_the_last_length_in_place() {
    let mut app = App::default();
    app.observe_store(Some(12));
    assert_eq!(app.transactions_len, 12);
    app.observe_store(None);
    assert_eq!(app.transactions_len, 12);
    app.observe_store(Some(0));
    assert_eq!(app.transactions_len, 0);
}

#[test]
fn the_app_searches_the_store_for_its_second_address() {
    let mut store = TransactionStore::new();
    store.replace_with(vec![
        transaction("a", &["X"]),
        transaction("b", &["Y"]),
        transaction("c", &["X"]),
    ]);
    let mut app = App::default();
    app.second_address = "X".to_string();
    app.find_connections(&store);
    assert_eq!(signatures(&app.connections), vec!["a", "c"]);
    assert_eq!(app.tab, Tab::GetTransactions);
    app.second_address = "Y".to_string();
    app.find_connections(&store);
    assert_eq!(signatures(&app.connections), vec!["b"]);
    app.second_address = "nobody".to_string();
    app.find_connections(&store);
    assert_eq!(app.connections, vec![]);
}
