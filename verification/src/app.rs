//! The state of the user interface and the transitions that the user's
//! actions cause. Drawing is left to whoever owns the window.

use vstd::prelude::*;
use crate::connections::{connections, find_connections};
use crate::error::ApiError;
use crate::store::TransactionStore;
use crate::transaction::{Transaction, TransactionView};

verus! {

/// The four views, of which one is shown at a time.
#[derive(Clone, Copy, Debug, PartialEq, Eq, Structural)]
pub enum Tab {
    GetTransactions,
    Search,
    ActiveTransaction,
    FindConnections,
}

impl Default for Tab {
    fn default() -> (tab: Self)
        ensures
            tab == Tab::GetTransactions,
    {
        Tab::GetTransactions
    }
}

/// Mathematical value of an [`App`].
pub struct AppView {
    pub helius_api_key: Seq<char>,
    pub address: Seq<char>,
    pub second_address: Seq<char>,
    pub search_sig: Seq<char>,
    pub transactions_len: nat,
    pub connections: Seq<TransactionView>,
    pub active_txn: Option<TransactionView>,
    pub tab: Tab,
}

/// What the user has entered and what the views show.
#[derive(Debug)]
pub struct App {
    /// The key that is sent with every request.
    pub helius_api_key: String,
    /// The address whose history is fetched.
    pub address: String,
    /// The address that connections are searched for.
    pub second_address: String,
    /// The signature that a lookup asks for.
    pub search_sig: String,
    /// The length of the store when it could last be read.
    pub transactions_len: usize,
    /// The result of the last search for connections.
    pub connections: Vec<Transaction>,
    /// The transaction under inspection, if any.
    pub active_txn: Option<Transaction>,
    /// The view that is shown.
    pub tab: Tab,
}

impl View for App {
    type V = AppView;

    open spec fn view(&self) -> AppView {
        AppView {
            helius_api_key: self.helius_api_key@,
            address: self.address@,
            second_address: self.second_address@,
            search_sig: self.search_sig@,
            transactions_len: self.transactions_len as nat,
            connections: self.connections.deep_view(),
            active_txn: match self.active_txn {
                Some(transaction) => Some(transaction@),
                None => None,
            },
            tab: self.tab,
        }
    }
}

impl AppView {
    /// The state in which the tool starts: nothing entered, nothing
    /// fetched, the fetch view shown.
    pub open spec fn initial() -> AppView {
        AppView {
            helius_api_key: Seq::empty(),
            address: Seq::empty(),
            second_address: Seq::empty(),
            search_sig: Seq::empty(),
            transactions_len: 0,
            connections: Seq::empty(),
            active_txn: None,
            tab: Tab::GetTransactions,
        }
    }

    /// The state after a row has been chosen in a list: the transaction is
    /// under inspection and the detail view is shown.
    pub open spec fn select(self, transaction: TransactionView) -> AppView {
        AppView { active_txn: Some(transaction), tab: Tab::ActiveTransaction, ..self }
    }
}

impl Default for App {
    fn default() -> (app: Self)
        ensures
            app@ == AppView::initial(),
    {
        let app = App {
            helius_api_key: String::new(),
            address: String::new(),
            second_address: String::new(),
            search_sig: String::new(),
            transactions_len: 0,
            connections: Vec::new(),
            active_txn: None,
            tab: Tab::GetTransactions,
        };
        assert(app.connections.deep_view() =~= Seq::<TransactionView>::empty());
        app
    }
}

impl App {
    /// Puts `transaction` under inspection and shows the detail view.
    pub fn select(&mut self, transaction: Transaction)
        ensures
            final(self)@ == old(self)@.select(transaction@),
    {
        self.active_txn = Some(transaction);
        self.tab = Tab::ActiveTransaction;
    }

    /// Takes in the outcome of a lookup: a transaction that was found is
    /// selected, a failure changes nothing.
    pub fn show_lookup(&mut self, outcome: Result<Transaction, ApiError>)
        ensures
            final(self)@ == match outcome {
                Ok(transaction) => old(self)@.select(transaction@),
                Err(_) => old(self)@,
            },
    {
        match outcome {
            Ok(transaction) => {
                self.select(transaction);
            },
            Err(_) => {},
        }
    }

    /// Records the store's length where it could be read; a reader that
    /// found the store busy hands in `None` and the last length stays.
    pub fn observe_store(&mut self, length: Option<usize>)
        ensures
            final(self)@ == (AppView {
                transactions_len: match length {
                    Some(read) => read as nat,
                    None => old(self)@.transactions_len,
                },
                ..old(self)@
            }),
    {
        match length {
            Some(read) => {
                self.transactions_len = read;
            },
            None => {},
        }
    }

    /// Searches `store` for the transactions that touch the second address
    /// and keeps them as the connections, in place of the last result.
    pub fn find_connections(&mut self, store: &TransactionStore)
        ensures
            final(self)@ == (AppView {
                connections: connections(store@, old(self)@.second_address),
                ..old(self)@
            }),
    {
        self.connections = find_connections(store.transactions(), &self.second_address);
    }
}

} // verus!
