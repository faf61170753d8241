//! The allowance ledger: per owner and spender a spending limit with an
//! expiration, in the temporary tier. Expiration is lazy: nothing sweeps the
//! store, and every read decides from the stored expiration and the current
//! ledger sequence.

use vstd::prelude::*;
use crate::error::Error;
use crate::ledger::allowance_key;
use crate::ledger::Extension;
use crate::ledger::Ledger;
use crate::ledger::LedgerState;
use crate::storage_types::Address;
use crate::storage_types::AllowanceData;
use crate::storage_types::AllowanceDataKey;
use crate::storage_types::DataKey;

verus! {

/// The lifetime extension asked for an allowance that is to live for
/// `live_for` more ledger sequences: threshold and target are both `live_for`.
pub open spec fn allowance_extension(owner: Address, spender: Address, live_for: u32) -> Extension {
    Extension::Entry { key: allowance_key(owner, spender), threshold: live_for, extend_to: live_for }
}

impl LedgerState {
    /// The state after the allowance of `spender` on `owner` has been
    /// written: the record is stored, and for a positive amount the entry is
    /// asked to live until `expiration_ledgers`.
    pub open spec fn allowance_written(
        self,
        owner: Address,
        spender: Address,
        amount: i128,
        expiration_ledgers: u32,
    ) -> LedgerState {
        let stored = LedgerState {
            allowances: self.allowances.insert(
                allowance_key(owner, spender),
                AllowanceData { amount, expiration_ledgers },
            ),
            ..self
        };
        if amount > 0 {
            stored.with_extension(
                allowance_extension(owner, spender, (expiration_ledgers - self.sequence) as u32),
            )
        } else {
            stored
        }
    }

    /// The state after `spender` has spent `amount` of the allowance on
    /// `owner`: the allowance in force, less `amount`, is written back at its
    /// expiration. Spending nothing writes nothing.
    pub open spec fn allowance_spent(
        self,
        owner: Address,
        spender: Address,
        amount: i128,
    ) -> LedgerState {
        if amount == 0 {
            self
        } else {
            self.allowance_written(
                owner,
                spender,
                (self.allowance(owner, spender).amount - amount) as i128,
                self.allowance(owner, spender).expiration_ledgers,
            )
        }
    }
}

/// Reads the allowance in force of `spender` on `owner`. Once the stored
/// expiration lies before the current ledger sequence the amount reads as
/// zero, with the stored expiration; where nothing is stored, both are zero.
pub fn read_allowance(ledger: &Ledger, owner: Address, spender: Address) -> (allowance:
    AllowanceData)
    requires
        ledger.wf(),
    ensures
        allowance == ledger@.allowance(owner, spender),
        allowance.amount >= 0,
{
    match ledger.allowance_entry(owner, spender) {
        Some(stored) => {
            if stored.expiration_ledgers < ledger.sequence() {
                AllowanceData { amount: 0, expiration_ledgers: stored.expiration_ledgers }
            } else {
                stored
            }
        },
        None => AllowanceData { amount: 0, expiration_ledgers: 0 },
    }
}

/// Writes the allowance of `spender` on `owner`; the caller has checked that
/// `amount` is at least zero. Fails with `InvalidExpiration`, and changes
/// nothing, exactly where `amount` is positive and `expiration_ledgers` lies
/// before the current ledger sequence. A positive amount asks for the entry to
/// live until `expiration_ledgers`; a zero amount asks for no lifetime.
pub fn write_allowance(
    ledger: &mut Ledger,
    owner: Address,
    spender: Address,
    amount: i128,
    expiration_ledgers: u32,
) -> (result: Result<(), Error>)
    requires
        old(ledger).wf(),
        amount >= 0,
    ensures
        final(ledger).wf(),
        result == (if amount > 0 && expiration_ledgers < old(ledger)@.sequence {
            Err::<(), Error>(Error::InvalidExpiration)
        } else {
            Ok(())
        }),
        result is Ok ==> final(ledger)@ == old(ledger)@.allowance_written(
            owner,
            spender,
            amount,
            expiration_ledgers,
        ),
        result is Err ==> final(ledger)@ == old(ledger)@,
{
    let sequence: u32 = ledger.sequence();
    if amount > 0 && expiration_ledgers < sequence {
        return Err(Error::InvalidExpiration);
    }
    ledger.set_allowance_entry(owner, spender, AllowanceData { amount, expiration_ledgers });
    if amount > 0 {
        let live_for: u32 = expiration_ledgers - sequence;
        ledger.extend_ttl(
            Extension::Entry {
                key: DataKey::Allowance(AllowanceDataKey { owner, spender }),
                threshold: live_for,
                extend_to: live_for,
            },
        );
    }
    Ok(())
}

/// Spends `amount`, which the caller has checked to be at least zero, of the
/// allowance of `spender` on `owner`. Fails with `InsufficientAllowance`, and
/// changes nothing, exactly where `amount` exceeds the allowance in force.
/// Otherwise the allowance in force falls by exactly `amount` and keeps its
/// expiration; every other allowance, and all else that is stored, stays.
pub fn spend_allowance(ledger: &mut Ledger, owner: Address, spender: Address, spend_amount: i128) -> (result:
    Result<(), Error>)
    requires
        old(ledger).wf(),
        spend_amount >= 0,
    ensures
        final(ledger).wf(),
        result == (if old(ledger)@.allowance(owner, spender).amount < spend_amount {
            Err::<(), Error>(Error::InsufficientAllowance)
        } else {
            Ok(())
        }),
        result is Ok ==> final(ledger)@ == old(ledger)@.allowance_spent(
            owner,
            spender,
            spend_amount,
        ),
        result is Ok ==> final(ledger)@.allowance(owner, spender).amount == old(
            ledger,
        )@.allowance(owner, spender).amount - spend_amount,
        result is Err ==> final(ledger)@ == old(ledger)@,
{
    let allowance = read_allowance(ledger, owner, spender);
    if allowance.amount < spend_amount {
        return Err(Error::InsufficientAllowance);
    }
    if spend_amount > 0 {
        let new_amount: i128 = allowance.amount - spend_amount;
        let written = write_allowance(
            ledger,
            owner,
            spender,
            new_amount,
            allowance.expiration_ledgers,
        );
        assert(written is Ok);
    }
    Ok(())
}

} // verus!
