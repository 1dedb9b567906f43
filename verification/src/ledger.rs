//! Balances of the accounts that a transaction names.

use vstd::prelude::*;

use crate::pubkey::Pubkey;

verus! {

/// One account of a transaction: its address, its lamports and the size of its data.
#[derive(Clone, Copy, Debug)]
pub struct LedgerAccount {
    pub key: Pubkey,
    pub lamports: u64,
    pub data_len: usize,
}

/// What an address holds.
#[derive(Clone, Copy, Debug, PartialEq, Eq, Structural)]
pub struct Holding {
    pub lamports: u64,
    pub data_len: usize,
}

/// The accounts of a transaction. Each address stands in it once, so two roles of an
/// instruction that name the same address share its balance.
#[derive(Debug)]
pub struct Ledger {
    accounts: Vec<LedgerAccount>,
}

/// Sum of the lamports of `accounts`.
spec fn sum_lamports(accounts: Seq<LedgerAccount>) -> int
    decreases accounts.len(),
{
    if accounts.len() == 0 {
        0
    } else {
        sum_lamports(accounts.drop_last()) + accounts.last().lamports
    }
}

/// Replacing one account's balance moves the sum by the difference.
proof fn lemma_sum_update(accounts: Seq<LedgerAccount>, i: int, account: LedgerAccount)
    requires
        0 <= i < accounts.len(),
    ensures
        sum_lamports(accounts.update(i, account)) == sum_lamports(accounts) - accounts[i].lamports
            + account.lamports,
    decreases accounts.len(),
{
    let updated = accounts.update(i, account);
    if i == accounts.len() - 1 {
        assert(updated.drop_last() =~= accounts.drop_last());
    } else {
        assert(updated.drop_last() =~= accounts.drop_last().update(i, account));
        lemma_sum_update(accounts.drop_last(), i, account);
    }
}

impl Ledger {
    /// No address stands in the ledger twice.
    pub closed spec fn wf(&self) -> bool {
        forall|i: int, j: int|
            0 <= i < j < self.accounts@.len() ==> self.accounts@[i].key@
                != self.accounts@[j].key@
    }

    /// `key` is the address of the account at position `i`.
    spec fn at(&self, i: int, key: Seq<u8>) -> bool {
        0 <= i < self.accounts@.len() && self.accounts@[i].key@ == key
    }

    spec fn position(&self, key: Seq<u8>) -> int {
        choose|i: int| self.at(i, key)
    }

    /// What each address holds.
    pub closed spec fn view(&self) -> Map<Seq<u8>, Holding> {
        Map::new(
            |key: Seq<u8>| exists|i: int| self.at(i, key),
            |key: Seq<u8>|
                Holding {
                    lamports: self.accounts@[self.position(key)].lamports,
                    data_len: self.accounts@[self.position(key)].data_len,
                },
        )
    }

    /// All lamports in the ledger.
    pub closed spec fn total(&self) -> int {
        sum_lamports(self.accounts@)
    }

    /// Makes a ledger without accounts.
    pub fn new() -> (ledger: Self)
        ensures
            ledger.wf(),
            ledger@ == Map::<Seq<u8>, Holding>::empty(),
            ledger.total() == 0,
    {
        let ledger = Ledger { accounts: Vec::new() };
        assert(ledger@ =~= Map::<Seq<u8>, Holding>::empty());
        ledger
    }

    /// Returns where `key` stands.
    fn find(&self, key: &Pubkey) -> (found: Option<usize>)
        requires
            self.wf(),
        ensures
            found is Some <==> self@.dom().contains(key@),
            found matches Some(i) ==> self.at(i as int, key@) && self.position(key@) == i,
    {
        let mut i: usize = 0;
        while i < self.accounts.len()
            invariant
                self.wf(),
                i <= self.accounts@.len(),
                forall|j: int| 0 <= j < i ==> self.accounts@[j].key@ != key@,
            decreases self.accounts@.len() - i,
        {
            if self.accounts[i].key == *key {
                proof {
                    assert(self.at(i as int, key@));
                    assert(self.at(self.position(key@), key@));
                }
                return Some(i);
            }
            i += 1;
        }
        assert(forall|j: int| !self.at(j, key@));
        None
    }

    /// Adds an account, unless its address stands in the ledger already.
    pub fn record(&mut self, account: LedgerAccount)
        requires
            old(self).wf(),
        ensures
            final(self).wf(),
            old(self)@.dom().contains(account.key@) ==> *final(self) == *old(self),
            !old(self)@.dom().contains(account.key@) ==> {
                &&& final(self)@ == old(self)@.insert(
                    account.key@,
                    (Holding { lamports: account.lamports, data_len: account.data_len }),
                )
                &&& final(self).total() == old(self).total() + account.lamports
            },
    {
        if let Some(_) = self.find(&account.key) {
            return;
        }
        let ghost before = *self;
        self.accounts.push(account);
        proof {
            assert(self.accounts@.drop_last() =~= before.accounts@);
            let holding = Holding { lamports: account.lamports, data_len: account.data_len };
            assert forall|i: int| before.at(i, account.key@) implies false by {
                assert(before@.dom().contains(account.key@));
            }
            assert forall|i: int| 0 <= i < before.accounts@.len() implies before.accounts@[i].key@
                != account.key@ by {
                if before.accounts@[i].key@ == account.key@ {
                    assert(before.at(i, account.key@));
                }
            }
            assert(self.wf());
            self.lemma_same_positions(&before);
            assert(self.at(before.accounts@.len() as int, account.key@));
            assert(self@ =~= before@.insert(account.key@, holding));
        }
    }

    /// Every address of `before` keeps its place in `self`.
    proof fn lemma_same_positions(&self, before: &Ledger)
        requires
            self.wf(),
            before.wf(),
            before.accounts@.len() <= self.accounts@.len(),
            forall|i: int|
                0 <= i < before.accounts@.len() ==> self.accounts@[i].key@
                    == before.accounts@[i].key@,
        ensures
            forall|key: Seq<u8>, i: int| #[trigger]
                self.at(i, key) ==> self.position(key) == i,
            forall|key: Seq<u8>, i: int| #[trigger]
                before.at(i, key) ==> before.position(key) == i && self.at(i, key),
            forall|key: Seq<u8>, i: int| #[trigger]
                self.at(i, key) && i < before.accounts@.len() ==> before.at(i, key),
    {
        assert forall|key: Seq<u8>, i: int| #[trigger] self.at(i, key) implies self.position(key)
            == i by {
            assert(self.at(self.position(key), key));
        }
        assert forall|key: Seq<u8>, i: int| #[trigger]
            before.at(i, key) implies before.position(key) == i && self.at(i, key) by {
            assert(before.at(before.position(key), key));
        }
    }

    /// Returns what `key` holds, if the ledger knows it.
    pub fn get(&self, key: &Pubkey) -> (holding: Option<Holding>)
        requires
            self.wf(),
        ensures
            holding == (if self@.dom().contains(key@) {
                Some(self@[key@])
            } else {
                None
            }),
    {
        match self.find(key) {
            Some(i) => Some(
                Holding {
                    lamports: self.accounts[i].lamports,
                    data_len: self.accounts[i].data_len,
                },
            ),
            None => None,
        }
    }

    /// Returns what `key` holds.
    pub fn holding(&self, key: &Pubkey) -> (holding: Holding)
        requires
            self.wf(),
            self@.dom().contains(key@),
        ensures
            holding == self@[key@],
    {
        self.get(key).unwrap()
    }

    /// Replaces what `key` holds.
    pub(crate) fn set(&mut self, key: &Pubkey, holding: Holding)
        requires
            old(self).wf(),
            old(self)@.dom().contains(key@),
        ensures
            final(self).wf(),
            final(self)@ == old(self)@.insert(key@, holding),
            final(self).total() == old(self).total() - old(self)@[key@].lamports
                + holding.lamports,
    {
        let ghost before = *self;
        if let Some(i) = self.find(key) {
            let account = LedgerAccount {
                key: *key,
                lamports: holding.lamports,
                data_len: holding.data_len,
            };
            self.accounts.set(i, account);
            proof {
                lemma_sum_update(before.accounts@, i as int, account);
                assert(self.wf());
                self.lemma_same_positions(&before);
                assert(self@ =~= before@.insert(key@, holding));
            }
        }
    }
}

} // verus!
