//! Transaction records as the provider reports them, reduced to the fields
//! that the tool reads: the signature and the per-account balance changes.

use vstd::prelude::*;

verus! {

/// Mathematical value of an [`AccountEntry`].
pub struct AccountEntryView {
    pub account: Seq<char>,
    pub native_balance_change: int,
}

/// Mathematical value of a [`Transaction`].
pub struct TransactionView {
    pub signature: Seq<char>,
    pub account_data: Seq<AccountEntryView>,
}

/// One account touched by a transaction, with the change of its native
/// balance in lamports.
#[derive(Debug, PartialEq, Eq)]
pub struct AccountEntry {
    pub account: String,
    pub native_balance_change: i64,
}

/// A transaction, identified by its signature.
#[derive(Debug, PartialEq, Eq)]
pub struct Transaction {
    pub signature: String,
    pub account_data: Vec<AccountEntry>,
}

impl View for AccountEntry {
    type V = AccountEntryView;

    open spec fn view(&self) -> AccountEntryView {
        AccountEntryView {
            account: self.account@,
            native_balance_change: self.native_balance_change as int,
        }
    }
}

impl DeepView for AccountEntry {
    type V = AccountEntryView;

    open spec fn deep_view(&self) -> AccountEntryView {
        self@
    }
}

impl View for Transaction {
    type V = TransactionView;

    open spec fn view(&self) -> TransactionView {
        TransactionView {
            signature: self.signature@,
            account_data: self.account_data.deep_view(),
        }
    }
}

impl DeepView for Transaction {
    type V = TransactionView;

    open spec fn deep_view(&self) -> TransactionView {
        self@
    }
}

impl TransactionView {
    /// Whether some account entry of the transaction names `address`.
    pub open spec fn touches(self, address: Seq<char>) -> bool {
        exists|i: int|
            0 <= i < self.account_data.len() && (#[trigger] self.account_data[i]).account
                == address
    }

    /// The balance change of the first account entry, which is the signer's.
    pub open spec fn signer_balance_change(self) -> Option<int> {
        if self.account_data.len() > 0 {
            Some(self.account_data[0].native_balance_change)
        } else {
            None
        }
    }

    /// The addresses of the account entries, in their order.
    pub open spec fn accounts(self) -> Seq<Seq<char>> {
        Seq::new(self.account_data.len(), |i: int| self.account_data[i].account)
    }
}

impl Clone for AccountEntry {
    fn clone(&self) -> (copy: Self)
        ensures
            copy@ == self@,
    {
        AccountEntry {
            account: self.account.clone(),
            native_balance_change: self.native_balance_change,
        }
    }
}

impl Clone for Transaction {
    fn clone(&self) -> (copy: Self)
        ensures
            copy@ == self@,
    {
        let mut account_data: Vec<AccountEntry> = Vec::new();
        let mut i: usize = 0;
        while i < self.account_data.len()
            invariant
                i <= self.account_data.len(),
                account_data.len() == i,
                forall|k: int| 0 <= k < i ==> account_data[k]@ == self.account_data[k]@,
            decreases self.account_data.len() - i,
        {
            account_data.push(self.account_data[i].clone());
            i += 1;
        }
        assert(account_data.deep_view() =~= self.account_data.deep_view());
        Transaction { signature: self.signature.clone(), account_data }
    }
}

impl AccountEntry {
    pub fn new(account: String, native_balance_change: i64) -> (entry: Self)
        ensures
            entry.account == account,
            entry.native_balance_change == native_balance_change,
    {
        AccountEntry { account, native_balance_change }
    }
}

impl Transaction {
    pub fn new(signature: String, account_data: Vec<AccountEntry>) -> (transaction: Self)
        ensures
            transaction.signature == signature,
            transaction.account_data == account_data,
    {
        Transaction { signature, account_data }
    }

    /// Tells whether some account entry names `address`.
    pub fn touches(&self, address: &String) -> (found: bool)
        ensures
            found == self@.touches(address@),
    {
        let mut i: usize = 0;
        while i < self.account_data.len()
            invariant
                i <= self.account_data.len(),
                forall|k: int| 0 <= k < i ==> self.account_data[k].account@ != address@,
            decreases self.account_data.len() - i,
        {
            if self.account_data[i].account == *address {
                assert(self@.account_data[i as int].account == address@);
                return true;
            }
            i += 1;
        }
        false
    }

    /// The signer's balance change in lamports: that of the first account
    /// entry, if there is one.
    pub fn signer_balance_change(&self) -> (change: Option<i64>)
        ensures
            match change {
                Some(lamports) => self@.signer_balance_change() == Some(lamports as int),
                None => self@.signer_balance_change() is None,
            },
    {
        if self.account_data.len() > 0 {
            Some(self.account_data[0].native_balance_change)
        } else {
            None
        }
    }

    /// The addresses of all account entries, in their order.
    pub fn accounts(&self) -> (addresses: Vec<String>)
        ensures
            addresses.deep_view() == self@.accounts(),
    {
        let mut addresses: Vec<String> = Vec::new();
        let mut i: usize = 0;
        while i < self.account_data.len()
            invariant
                i <= self.account_data.len(),
                addresses.len() == i,
                forall|k: int| 0 <= k < i ==> addresses[k]@ == self.account_data[k].account@,
            decreases self.account_data.len() - i,
        {
            addresses.push(self.account_data[i].account.clone());
            i += 1;
        }
        assert(addresses.deep_view() =~= self@.accounts());
        addresses
    }
}

} // verus!
