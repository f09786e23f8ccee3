//! The transactions fetched so far, in the order in which they arrived.

use vstd::prelude::*;
use crate::transaction::{Transaction, TransactionView};

verus! {

/// Concatenating two vectors concatenates their values.
proof fn lemma_deep_view_concat(
    joined: Seq<Transaction>,
    front: Seq<Transaction>,
    back: Seq<Transaction>,
)
    requires
        joined == front + back,
    ensures
        Seq::new(joined.len(), |i: int| joined[i]@) == Seq::new(front.len(), |i: int| front[i]@)
            + Seq::new(back.len(), |i: int| back[i]@),
{
    assert(Seq::new(joined.len(), |i: int| joined[i]@) =~= Seq::new(
        front.len(),
        |i: int| front[i]@,
    ) + Seq::new(back.len(), |i: int| back[i]@));
}

/// An ordered sequence of transactions that grows page by page during a
/// fetch and is replaced as a whole when a new fetch delivers its first page.
pub struct TransactionStore {
    transactions: Vec<Transaction>,
}

impl View for TransactionStore {
    type V = Seq<TransactionView>;

    closed spec fn view(&self) -> Seq<TransactionView> {
        self.transactions.deep_view()
    }
}

impl TransactionStore {
    /// An empty store.
    pub fn new() -> (store: Self)
        ensures
            store@ == Seq::<TransactionView>::empty(),
    {
        let store = TransactionStore { transactions: Vec::new() };
        assert(store.transactions.deep_view() =~= Seq::<TransactionView>::empty());
        store
    }

    /// Puts `page` in the place of whatever the store held.
    pub fn replace_with(&mut self, page: Vec<Transaction>)
        ensures
            final(self)@ == page.deep_view(),
    {
        self.transactions = page;
    }

    /// Adds `page` behind the transactions already held.
    pub fn append(&mut self, page: Vec<Transaction>)
        ensures
            final(self)@ == old(self)@ + page.deep_view(),
    {
        let mut rest = page;
        self.transactions.append(&mut rest);
        proof {
            lemma_deep_view_concat(self.transactions@, old(self).transactions@, page@);
        }
    }

    /// The number of transactions held.
    pub fn snapshot_length(&self) -> (length: usize)
        ensures
            length == self@.len(),
    {
        self.transactions.len()
    }

    /// The transactions held, in order, for reading.
    pub fn transactions(&self) -> (held: &Vec<Transaction>)
        ensures
            held.deep_view() == self@,
    {
        &self.transactions
    }
}

impl Default for TransactionStore {
    fn default() -> (store: Self)
        ensures
            store@ == Seq::<TransactionView>::empty(),
    {
        TransactionStore::new()
    }
}

} // verus!
