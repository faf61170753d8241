//! The balance ledger: one balance per account, in the persistent tier.

use vstd::prelude::*;
use crate::constants::BALANCE_TTL_FULL;
use crate::constants::BALANCE_TTL_THRESHOLD;
use crate::error::Error;
use crate::ledger::Extension;
use crate::ledger::Ledger;
use crate::ledger::LedgerState;
use crate::storage_types::Address;
use crate::storage_types::DataKey;
use crate::supply::lemma_sum_insert;

verus! {

/// The lifetime extension that every access to the balance of `account` asks for.
pub open spec fn balance_extension(account: Address) -> Extension {
    Extension::Entry {
        key: DataKey::Balance(account),
        threshold: BALANCE_TTL_THRESHOLD,
        extend_to: BALANCE_TTL_FULL,
    }
}

impl LedgerState {
    /// The state after the balance of `account` has been read: where an entry
    /// is stored, its lifetime extension has been asked for.
    pub open spec fn balance_read(self, account: Address) -> LedgerState {
        if self.balances.contains_key(DataKey::Balance(account)) {
            self.with_extension(balance_extension(account))
        } else {
            self
        }
    }

    /// The state after `amount` has been stored as the balance of `account`
    /// and the entry's lifetime extension has been asked for.
    pub open spec fn balance_written(self, account: Address, amount: i128) -> LedgerState {
        LedgerState {
            balances: self.balances.insert(DataKey::Balance(account), amount),
            ..self
        }.with_extension(balance_extension(account))
    }

    /// The state after the balance of `account` has been read and then
    /// raised by `amount`.
    pub open spec fn credited(self, account: Address, amount: i128) -> LedgerState {
        self.balance_read(account).balance_written(
            account,
            (self.balance(account) + amount) as i128,
        )
    }

    /// The state after the balance of `account` has been read and then
    /// lowered by `amount`.
    pub open spec fn debited(self, account: Address, amount: i128) -> LedgerState {
        self.balance_read(account).balance_written(
            account,
            (self.balance(account) - amount) as i128,
        )
    }
}

/// Writing a balance changes that balance and no other, and moves the total
/// supply by the difference to the balance before.
pub proof fn lemma_balance_written(state: LedgerState, account: Address, amount: i128)
    requires
        state.valid(),
        amount >= 0,
    ensures
        state.balance_written(account, amount).valid(),
        state.balance_written(account, amount).balance(account) == amount,
        forall|other: Address|
            other != account ==> #[trigger] state.balance_written(account, amount).balance(other)
                == state.balance(other),
        state.balance_written(account, amount).total_supply() == state.total_supply() + amount
            - state.balance(account),
{
    lemma_sum_insert(state.balances, DataKey::Balance(account), amount);
}

/// Reads the balance of `account`: what is stored, and zero where nothing is.
/// Where an entry is stored, the read asks for its lifetime extension.
pub fn read_balance(ledger: &mut Ledger, address: Address) -> (balance: i128)
    requires
        old(ledger).wf(),
    ensures
        final(ledger).wf(),
        balance == old(ledger)@.balance(address),
        balance >= 0,
        final(ledger)@ == old(ledger)@.balance_read(address),
{
    match ledger.balance_entry(address) {
        Some(balance) => {
            ledger.extend_ttl(
                Extension::Entry {
                    key: DataKey::Balance(address),
                    threshold: BALANCE_TTL_THRESHOLD,
                    extend_to: BALANCE_TTL_FULL,
                },
            );
            balance
        },
        None => 0,
    }
}

/// Stores `amount` as the balance of `account` and asks for the entry's
/// lifetime extension.
pub fn write_balance(ledger: &mut Ledger, address: Address, amount: i128)
    requires
        old(ledger).wf(),
        amount >= 0,
    ensures
        final(ledger).wf(),
        final(ledger)@ == old(ledger)@.balance_written(address, amount),
{
    ledger.set_balance_entry(address, amount);
    ledger.extend_ttl(
        Extension::Entry {
            key: DataKey::Balance(address),
            threshold: BALANCE_TTL_THRESHOLD,
            extend_to: BALANCE_TTL_FULL,
        },
    );
}

/// The balance of `account`, read without any effect on the ledger.
pub fn peek_balance(ledger: &Ledger, address: Address) -> (balance: i128)
    requires
        ledger.wf(),
    ensures
        balance == ledger@.balance(address),
        balance >= 0,
{
    match ledger.balance_entry(address) {
        Some(balance) => balance,
        None => 0,
    }
}

/// Raises the balance of `address` by `amount`, which the caller has checked
/// to be at least zero. Fails with `ArithmeticOverflow`, and changes nothing,
/// exactly where the raised balance would exceed `i128::MAX`.
pub fn increase_balance(ledger: &mut Ledger, address: Address, amount: i128) -> (result: Result<
    (),
    Error,
>)
    requires
        old(ledger).wf(),
        amount >= 0,
    ensures
        final(ledger).wf(),
        result == (if old(ledger)@.balance(address) + amount > i128::MAX {
            Err::<(), Error>(Error::ArithmeticOverflow)
        } else {
            Ok(())
        }),
        result is Ok ==> final(ledger)@ == old(ledger)@.credited(address, amount),
        result is Ok ==> final(ledger)@.balance(address) == old(ledger)@.balance(address) + amount,
        result is Ok ==> final(ledger)@.total_supply() == old(ledger)@.total_supply() + amount,
        result is Err ==> final(ledger)@ == old(ledger)@,
{
    let current: i128 = peek_balance(ledger, address);
    match current.checked_add(amount) {
        Some(raised) => {
            read_balance(ledger, address);
            proof {
                lemma_balance_written(ledger@, address, raised);
            }
            write_balance(ledger, address, raised);
            Ok(())
        },
        None => Err(Error::ArithmeticOverflow),
    }
}

/// Lowers the balance of `address` by `amount`, which the caller has checked
/// to be at least zero. Fails with `InsufficientBalance`, and changes nothing,
/// exactly where the balance is smaller than `amount`.
pub fn decrease_balance(ledger: &mut Ledger, address: Address, amount: i128) -> (result: Result<
    (),
    Error,
>)
    requires
        old(ledger).wf(),
        amount >= 0,
    ensures
        final(ledger).wf(),
        result == (if old(ledger)@.balance(address) < amount {
            Err::<(), Error>(Error::InsufficientBalance)
        } else {
            Ok(())
        }),
        result is Ok ==> final(ledger)@ == old(ledger)@.debited(address, amount),
        result is Ok ==> final(ledger)@.balance(address) == old(ledger)@.balance(address) - amount,
        result is Ok ==> final(ledger)@.total_supply() == old(ledger)@.total_supply() - amount,
        result is Err ==> final(ledger)@ == old(ledger)@,
{
    let current: i128 = peek_balance(ledger, address);
    if current < amount {
        return Err(Error::InsufficientBalance);
    }
    let balance: i128 = read_balance(ledger, address);
    proof {
        lemma_balance_written(ledger@, address, (balance - amount) as i128);
    }
    write_balance(ledger, address, balance - amount);
    Ok(())
}

} // verus!
