//! From the provider's responses to transactions.
//!
//! A response is JSON text. Both endpoints answer with an array of
//! transaction objects, of which the tool reads the `signature` and, in
//! `accountData`, each entry's `account` and `nativeBalanceChange`.

use vstd::prelude::*;
use crate::error::ApiError;
use crate::json::{integer, items, member, parse, parsed_json, text, value_json, values_json, Json};
use crate::transaction::{AccountEntry, AccountEntryView, Transaction, TransactionView};

verus! {

/// The account entry that a JSON value stands for: an object whose
/// `account` is a string and whose `nativeBalanceChange` is an integer
/// that fits in an `i64`.
pub open spec fn entry_of(json: Json) -> Option<AccountEntryView> {
    match (json.member("account"@), json.member("nativeBalanceChange"@)) {
        (Some(account), Some(change)) => match (account.text(), change.integer()) {
            (Some(address), Some(lamports)) => Some(
                AccountEntryView { account: address, native_balance_change: lamports },
            ),
            _ => None,
        },
        _ => None,
    }
}

/// The account entries that the elements of a JSON array stand for, if
/// each of them stands for one.
pub open spec fn entries_of(elements: Seq<Json>) -> Option<Seq<AccountEntryView>> {
    if forall|i: int| 0 <= i < elements.len() ==> entry_of(#[trigger] elements[i]) is Some {
        Some(Seq::new(elements.len(), |i: int| entry_of(elements[i])->0))
    } else {
        None
    }
}

/// The transaction that a JSON value stands for: an object whose
/// `signature` is a string and whose `accountData` is an array of account
/// entries.
pub open spec fn transaction_of(json: Json) -> Option<TransactionView> {
    match (json.member("signature"@), json.member("accountData"@)) {
        (Some(signature), Some(data)) => match (signature.text(), data.items()) {
            (Some(characters), Some(elements)) => match entries_of(elements) {
                Some(entries) => Some(
                    TransactionView { signature: characters, account_data: entries },
                ),
                None => None,
            },
            _ => None,
        },
        _ => None,
    }
}

/// The transactions that the elements of a JSON array stand for, if each
/// of them stands for one.
pub open spec fn transactions_of(elements: Seq<Json>) -> Option<Seq<TransactionView>> {
    if forall|i: int| 0 <= i < elements.len() ==> transaction_of(#[trigger] elements[i]) is Some {
        Some(Seq::new(elements.len(), |i: int| transaction_of(elements[i])->0))
    } else {
        None
    }
}

/// The page that a JSON document stands for. A document that is no array
/// is a decoding error; an array with an element that is no transaction
/// lacks a field.
pub open spec fn page_of(document: Json) -> Result<Seq<TransactionView>, ApiError> {
    match document.items() {
        None => Err(ApiError::Decode),
        Some(elements) => match transactions_of(elements) {
            None => Err(ApiError::MissingField),
            Some(page) => Ok(page),
        },
    }
}

/// The single transaction that a JSON document stands for: the first
/// element of an array. Elements behind the first are not looked at.
pub open spec fn lookup_of(document: Json) -> Result<TransactionView, ApiError> {
    match document.items() {
        None => Err(ApiError::Decode),
        Some(elements) => if elements.len() > 0 && transaction_of(elements[0]) is Some {
            Ok(transaction_of(elements[0])->0)
        } else {
            Err(ApiError::MissingField)
        },
    }
}

/// The page that a response body stands for.
pub open spec fn decoded_page(body: Seq<char>) -> Result<Seq<TransactionView>, ApiError> {
    match parsed_json(body) {
        None => Err(ApiError::Decode),
        Some(document) => page_of(document),
    }
}

/// The single transaction that a response body stands for.
pub open spec fn decoded_lookup(body: Seq<char>) -> Result<TransactionView, ApiError> {
    match parsed_json(body) {
        None => Err(ApiError::Decode),
        Some(document) => lookup_of(document),
    }
}

/// Reads an account entry from a JSON value.
pub fn entry_from_json(value: &serde_json::Value) -> (entry: Option<AccountEntry>)
    ensures
        match entry {
            Some(read) => entry_of(value_json(*value)) == Some(read@),
            None => entry_of(value_json(*value)) is None,
        },
{
    let account = match member(value, "account") {
        Some(inner) => inner,
        None => {
            return None;
        },
    };
    let change = match member(value, "nativeBalanceChange") {
        Some(inner) => inner,
        None => {
            return None;
        },
    };
    let address = match text(account) {
        Some(characters) => characters,
        None => {
            return None;
        },
    };
    let lamports = match integer(change) {
        Some(number) => number,
        None => {
            return None;
        },
    };
    Some(AccountEntry { account: address.to_owned(), native_balance_change: lamports })
}

/// Reads a transaction from a JSON value.
pub fn transaction_from_json(value: &serde_json::Value) -> (transaction: Option<Transaction>)
    ensures
        match transaction {
            Some(read) => transaction_of(value_json(*value)) == Some(read@),
            None => transaction_of(value_json(*value)) is None,
        },
{
    let signature = match member(value, "signature") {
        Some(inner) => inner,
        None => {
            return None;
        },
    };
    let data = match member(value, "accountData") {
        Some(inner) => inner,
        None => {
            return None;
        },
    };
    let characters = match text(signature) {
        Some(characters) => characters,
        None => {
            return None;
        },
    };
    let elements = match items(data) {
        Some(elements) => elements,
        None => {
            return None;
        },
    };
    let ghost documents = values_json(elements@);
    let mut account_data: Vec<AccountEntry> = Vec::new();
    let mut i: usize = 0;
    while i < elements.len()
        invariant
            i <= elements.len(),
            documents == values_json(elements@),
            transaction_of(value_json(*value)) == match entries_of(documents) {
                Some(entries) => Some(
                    TransactionView { signature: characters@, account_data: entries },
                ),
                None => None,
            },
            account_data.len() == i,
            forall|k: int| 0 <= k < i ==> entry_of(#[trigger] documents[k]) == Some(account_data[k]@),
        decreases elements.len() - i,
    {
        match entry_from_json(&elements[i]) {
            Some(entry) => {
                account_data.push(entry);
            },
            None => {
                assert(entry_of(documents[i as int]) is None);
                return None;
            },
        }
        i += 1;
    }
    assert(entries_of(documents) == Some(account_data.deep_view())) by {
        assert(account_data.deep_view() =~= Seq::new(
            documents.len(),
            |k: int| entry_of(documents[k])->0,
        ));
    }
    Some(Transaction { signature: characters.to_owned(), account_data })
}

/// Reads a page of transactions from a JSON document.
pub fn page_from_json(document: &serde_json::Value) -> (page: Result<Vec<Transaction>, ApiError>)
    ensures
        match page {
            Ok(read) => page_of(value_json(*document)) == Ok::<Seq<TransactionView>, ApiError>(
                read.deep_view(),
            ),
            Err(error) => page_of(value_json(*document)) == Err::<Seq<TransactionView>, ApiError>(
                error,
            ),
        },
{
    let elements = match items(document) {
        Some(elements) => elements,
        None => {
            return Err(ApiError::Decode);
        },
    };
    let ghost documents = values_json(elements@);
    let mut page: Vec<Transaction> = Vec::new();
    let mut i: usize = 0;
    while i < elements.len()
        invariant
            i <= elements.len(),
            documents == values_json(elements@),
            page_of(value_json(*document)) == match transactions_of(documents) {
                Some(read) => Ok::<Seq<TransactionView>, ApiError>(read),
                None => Err(ApiError::MissingField),
            },
            page.len() == i,
            forall|k: int| 0 <= k < i ==> transaction_of(#[trigger] documents[k]) == Some(page[k]@),
        decreases elements.len() - i,
    {
        match transaction_from_json(&elements[i]) {
            Some(transaction) => {
                page.push(transaction);
            },
            None => {
                assert(transaction_of(documents[i as int]) is None);
                return Err(ApiError::MissingField);
            },
        }
        i += 1;
    }
    assert(transactions_of(documents) == Some(page.deep_view())) by {
        assert(page.deep_view() =~= Seq::new(
            documents.len(),
            |k: int| transaction_of(documents[k])->0,
        ));
    }
    Ok(page)
}

/// Reads the single transaction of a lookup from a JSON document.
pub fn lookup_from_json(document: &serde_json::Value) -> (found: Result<Transaction, ApiError>)
    ensures
        match found {
            Ok(read) => lookup_of(value_json(*document)) == Ok::<TransactionView, ApiError>(read@),
            Err(error) => lookup_of(value_json(*document)) == Err::<TransactionView, ApiError>(
                error,
            ),
        },
{
    let elements = match items(document) {
        Some(elements) => elements,
        None => {
            return Err(ApiError::Decode);
        },
    };
    if elements.len() == 0 {
        return Err(ApiError::MissingField);
    }
    assert(values_json(elements@)[0] == value_json(elements@[0]));
    match transaction_from_json(&elements[0]) {
        Some(transaction) => Ok(transaction),
        None => Err(ApiError::MissingField),
    }
}

/// Decodes the body of a response to a request for a page of an address's
/// transactions.
pub fn decode_page(body: &str) -> (page: Result<Vec<Transaction>, ApiError>)
    ensures
        match page {
            Ok(read) => decoded_page(body@) == Ok::<Seq<TransactionView>, ApiError>(
                read.deep_view(),
            ),
            Err(error) => decoded_page(body@) == Err::<Seq<TransactionView>, ApiError>(error),
        },
{
    match parse(body) {
        Ok(document) => page_from_json(&document),
        Err(_) => Err(ApiError::Decode),
    }
}

/// Decodes the body of a response to the lookup of one transaction.
pub fn decode_lookup(body: &str) -> (found: Result<Transaction, ApiError>)
    ensures
        match found {
            Ok(read) => decoded_lookup(body@) == Ok::<TransactionView, ApiError>(read@),
            Err(error) => decoded_lookup(body@) == Err::<TransactionView, ApiError>(error),
        },
{
    match parse(body) {
        Ok(document) => lookup_from_json(&document),
        Err(_) => Err(ApiError::Decode),
    }
}

} // verus!
