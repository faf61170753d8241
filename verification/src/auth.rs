//! Who has authorized the operation at hand.

use vstd::prelude::*;
use crate::storage_types::Address;

verus! {

/// The capability by which an operation learns whether an account has
/// authorized it. An operation borrows its authenticator and asks it once,
/// about the one account whose authorization the operation needs.
pub trait Authenticator {
    /// Whether `account` has authorized the operation at hand.
    spec fn authorizes(&self, account: Address) -> bool;

    /// Decides whether `account` has authorized the operation at hand.
    fn is_authorized(&self, account: &Address) -> (authorized: bool)
        ensures
            authorized == self.authorizes(*account),
    ;
}

/// An authenticator that holds the accounts that have authorized.
pub struct Signers {
    accounts: Vec<Address>,
}

impl View for Signers {
    type V = Set<Address>;

    closed spec fn view(&self) -> Set<Address> {
        self.accounts@.to_set()
    }
}

impl Signers {
    /// Nobody has authorized.
    pub fn new() -> (signers: Signers)
        ensures
            signers@ == Set::<Address>::empty(),
    {
        let signers = Signers { accounts: Vec::new() };
        assert(signers.accounts@.to_set() =~= Set::<Address>::empty());
        signers
    }

    /// Adds `account` to those who have authorized.
    pub fn add(&mut self, account: Address)
        ensures
            final(self)@ == old(self)@.insert(account),
    {
        self.accounts.push(account);
        proof {
            let before = old(self).accounts@;
            let after = self.accounts@;
            assert forall|a: Address| after.to_set().contains(a) <==> before.to_set().insert(
                account,
            ).contains(a) by {
                if after.contains(a) {
                    let i = choose|i: int| 0 <= i < after.len() && after[i] == a;
                    if i < before.len() {
                        assert(before[i] == a);
                    }
                }
                if before.contains(a) {
                    let i = choose|i: int| 0 <= i < before.len() && before[i] == a;
                    assert(after[i] == a);
                }
                if a == account {
                    assert(after[after.len() - 1] == a);
                }
            }
            assert(after.to_set() =~= before.to_set().insert(account));
        }
    }
}

impl Authenticator for Signers {
    open spec fn authorizes(&self, account: Address) -> bool {
        self@.contains(account)
    }

    fn is_authorized(&self, account: &Address) -> (authorized: bool) {
        let mut i: usize = 0;
        while i < self.accounts.len()
            invariant
                i <= self.accounts@.len(),
                forall|j: int| 0 <= j < i ==> self.accounts@[j] != *account,
            decreases self.accounts@.len() - i,
        {
            if self.accounts[i] == *account {
                assert(self.accounts@.contains(*account));
                return true;
            }
            i += 1;
        }
        assert(!self.accounts@.contains(*account));
        false
    }
}

} // verus!
