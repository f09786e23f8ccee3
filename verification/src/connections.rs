//! The search for the transactions that touch a given address.

use vstd::prelude::*;
use crate::transaction::{Transaction, TransactionView};

verus! {

/// The transactions of `store` that touch `address`, in the store's order.
pub open spec fn connections(store: Seq<TransactionView>, address: Seq<char>) -> Seq<
    TransactionView,
> {
    store.filter(|transaction: TransactionView| transaction.touches(address))
}

/// The number of transactions of `store` that touch `address`.
pub open spec fn touching_count(store: Seq<TransactionView>, address: Seq<char>) -> nat
    decreases store.len(),
{
    if store.len() == 0 {
        0
    } else {
        let earlier = touching_count(store.drop_last(), address);
        if store.last().touches(address) {
            earlier + 1
        } else {
            earlier
        }
    }
}

/// The indices of the transactions of `store` that touch `address`, in
/// rising order.
pub open spec fn touching_positions(store: Seq<TransactionView>, address: Seq<char>) -> Seq<int>
    decreases store.len(),
{
    if store.len() == 0 {
        Seq::empty()
    } else {
        let earlier = touching_positions(store.drop_last(), address);
        if store.last().touches(address) {
            earlier.push(store.len() - 1)
        } else {
            earlier
        }
    }
}

/// Scans `transactions` and collects those that touch `address`, each
/// once, in the order in which they stand.
pub fn find_connections(transactions: &Vec<Transaction>, address: &String) -> (found: Vec<
    Transaction,
>)
    ensures
        found.deep_view() == connections(transactions.deep_view(), address@),
{
    let ghost store = transactions.deep_view();
    let ghost touching = |transaction: TransactionView| transaction.touches(address@);
    let mut found: Vec<Transaction> = Vec::new();
    let mut i: usize = 0;
    proof {
        reveal(Seq::filter);
        assert(store.take(0).filter(touching) =~= found.deep_view());
    }
    while i < transactions.len()
        invariant
            i <= transactions.len(),
            store == transactions.deep_view(),
            touching == |transaction: TransactionView| transaction.touches(address@),
            found.deep_view() == store.take(i as int).filter(touching),
        decreases transactions.len() - i,
    {
        let ghost before = found.deep_view();
        proof {
            assert(store.take(i as int).push(store[i as int]) =~= store.take(i + 1));
            store.take(i as int).lemma_filter_push(store[i as int], touching);
        }
        if transactions[i].touches(address) {
            found.push(transactions[i].clone());
            assert(found.deep_view() =~= before.push(store[i as int]));
        }
        i += 1;
    }
    assert(store.take(i as int) =~= store);
    found
}

/// The search returns as many transactions as touch the address, and
/// returns them in the store's order: the transaction at each place of the
/// result is the one at the matching place of `touching_positions`, which
/// rise strictly and are exactly the indices of the transactions that touch
/// the address.
pub proof fn lemma_connections_keep_order(store: Seq<TransactionView>, address: Seq<char>)
    ensures
        ({
            let found = connections(store, address);
            let positions = touching_positions(store, address);
            &&& found.len() == touching_count(store, address)
            &&& positions.len() == found.len()
            &&& forall|k: int|
                0 <= k < positions.len() ==> 0 <= #[trigger] positions[k] < store.len()
                    && found[k] == store[positions[k]]
            &&& forall|j: int, k: int|
                0 <= j < k < positions.len() ==> #[trigger] positions[j] < #[trigger] positions[k]
            &&& forall|i: int|
                0 <= i < store.len() ==> ((#[trigger] store[i]).touches(address)
                    <==> positions.contains(i))
        }),
    decreases store.len(),
{
    let touching = |transaction: TransactionView| transaction.touches(address);
    let found = connections(store, address);
    let positions = touching_positions(store, address);
    reveal(Seq::filter);
    if store.len() > 0 {
        let shorter = store.drop_last();
        let earlier = touching_positions(shorter, address);
        lemma_connections_keep_order(shorter, address);
        assert(store.filter(touching) == if touching(store.last()) {
            shorter.filter(touching).push(store.last())
        } else {
            shorter.filter(touching)
        });
        assert forall|i: int| 0 <= i < store.len() implies ((#[trigger] store[i]).touches(address)
            <==> positions.contains(i)) by {
            if i < shorter.len() {
                assert(store[i] == shorter[i]);
                if store[i].touches(address) {
                    let k = choose|k: int| 0 <= k < earlier.len() && earlier[k] == i;
                    assert(positions[k] == i);
                }
                if positions.contains(i) {
                    let k = choose|k: int| 0 <= k < positions.len() && positions[k] == i;
                    assert(k < earlier.len());
                    assert(earlier[k] == i);
                }
            } else {
                if store[i].touches(address) {
                    assert(positions[positions.len() - 1] == i);
                }
                if positions.contains(i) {
                    let k = choose|k: int| 0 <= k < positions.len() && positions[k] == i;
                    if k < earlier.len() {
                        assert(earlier[k] == i);
                    }
                }
            }
        }
    }
}

} // verus!
