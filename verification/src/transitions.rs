//! What each token operation decides and does, as mathematical functions of
//! the ledger's state: for every operation the outcome (success or the one
//! error it fails with) and the state that success leads to.

use vstd::prelude::*;
use crate::auth::Authenticator;
use crate::constants::INSTANCE_TTL_FULL;
use crate::constants::INSTANCE_TTL_THRESHOLD;
use crate::constants::MAX_DECIMAL;
use crate::error::Error;
use crate::ledger::Event;
use crate::ledger::Extension;
use crate::ledger::LedgerState;
use crate::storage_types::Address;
use crate::storage_types::DataKey;
use crate::storage_types::MetadataView;

verus! {

/// The lifetime extension of the instance tier that every mutating operation,
/// and every read through the token interface, asks for.
pub open spec fn instance_extension() -> Extension {
    Extension::Instance { threshold: INSTANCE_TTL_THRESHOLD, extend_to: INSTANCE_TTL_FULL }
}

/// Whether an administrator is recorded in `state` and `auth` says that this
/// account has authorized.
pub open spec fn admin_authorizes<A: Authenticator>(state: LedgerState, auth: &A) -> bool {
    state.admin matches Some(admin) && auth.authorizes(admin)
}

/// Outcome of an operation that only the administrator may perform and that
/// has no other condition.
pub open spec fn admin_outcome(authorized: bool) -> Result<(), Error> {
    if !authorized {
        Err(Error::Unauthorized)
    } else {
        Ok(())
    }
}

/// Outcome of initializing with `decimal` decimals.
pub open spec fn initialize_outcome(state: LedgerState, decimal: u32) -> Result<(), Error> {
    if state.admin is Some {
        Err(Error::AlreadyInitialized)
    } else if decimal > MAX_DECIMAL {
        Err(Error::InvalidDecimal)
    } else {
        Ok(())
    }
}

/// Outcome of minting `amount` to `to`.
pub open spec fn mint_outcome(state: LedgerState, authorized: bool, to: Address, amount: i128)
    -> Result<(), Error> {
    if !authorized {
        Err(Error::Unauthorized)
    } else if amount < 0 {
        Err(Error::NegativeAmount(amount))
    } else if state.balance(to) + amount > i128::MAX {
        Err(Error::ArithmeticOverflow)
    } else {
        Ok(())
    }
}

/// Outcome of approving `amount` until `expiration_ledger`.
pub open spec fn approve_outcome(
    state: LedgerState,
    authorized: bool,
    amount: i128,
    expiration_ledger: u32,
) -> Result<(), Error> {
    if !authorized {
        Err(Error::Unauthorized)
    } else if amount < 0 {
        Err(Error::NegativeAmount(amount))
    } else if amount > 0 && expiration_ledger < state.sequence {
        Err(Error::InvalidExpiration)
    } else {
        Ok(())
    }
}

/// Outcome of taking `amount` out of the balance of `from`, once the
/// authorization, the amount's sign and the freeze flag are dealt with.
pub open spec fn debit_outcome(state: LedgerState, from: Address, amount: i128) -> Result<
    (),
    Error,
> {
    if state.balance(from) < amount {
        Err(Error::InsufficientBalance)
    } else {
        Ok(())
    }
}

/// Outcome of moving `amount` from `from` to `to`, once the authorization,
/// the amount's sign and the freeze flag are dealt with.
pub open spec fn move_outcome(state: LedgerState, from: Address, to: Address, amount: i128)
    -> Result<(), Error> {
    if state.balance(from) < amount {
        Err(Error::InsufficientBalance)
    } else if from != to && state.balance(to) + amount > i128::MAX {
        Err(Error::ArithmeticOverflow)
    } else {
        Ok(())
    }
}

/// What every operation that takes value out of `from` checks first, in this
/// order: the authorization, the amount's sign, the freeze flag of `from`.
pub open spec fn source_outcome(state: LedgerState, authorized: bool, from: Address, amount: i128)
    -> Result<(), Error> {
    if !authorized {
        Err(Error::Unauthorized)
    } else if amount < 0 {
        Err(Error::NegativeAmount(amount))
    } else if state.is_frozen(from) {
        Err(Error::AccountFrozen)
    } else {
        Ok(())
    }
}

/// Outcome of spending `amount` of the allowance of `spender` on `from`.
pub open spec fn spend_outcome(state: LedgerState, from: Address, spender: Address, amount: i128)
    -> Result<(), Error> {
    if state.allowance(from, spender).amount < amount {
        Err(Error::InsufficientAllowance)
    } else {
        Ok(())
    }
}

/// Outcome of a transfer of `amount` from `from` to `to`, authorized by `from`.
pub open spec fn transfer_outcome(
    state: LedgerState,
    authorized: bool,
    from: Address,
    to: Address,
    amount: i128,
) -> Result<(), Error> {
    if source_outcome(state, authorized, from, amount) is Err {
        source_outcome(state, authorized, from, amount)
    } else {
        move_outcome(state, from, to, amount)
    }
}

/// Outcome of a transfer of `amount` from `from` to `to` on the allowance of
/// `spender`, authorized by `spender`.
pub open spec fn transfer_from_outcome(
    state: LedgerState,
    authorized: bool,
    spender: Address,
    from: Address,
    to: Address,
    amount: i128,
) -> Result<(), Error> {
    if source_outcome(state, authorized, from, amount) is Err {
        source_outcome(state, authorized, from, amount)
    } else if spend_outcome(state, from, spender, amount) is Err {
        spend_outcome(state, from, spender, amount)
    } else {
        move_outcome(state, from, to, amount)
    }
}

/// Outcome of burning `amount` of the balance of `from`, authorized by `from`.
pub open spec fn burn_outcome(state: LedgerState, authorized: bool, from: Address, amount: i128)
    -> Result<(), Error> {
    if source_outcome(state, authorized, from, amount) is Err {
        source_outcome(state, authorized, from, amount)
    } else {
        debit_outcome(state, from, amount)
    }
}

/// Outcome of burning `amount` of the balance of `from` on the allowance of
/// `spender`, authorized by `spender`.
pub open spec fn burn_from_outcome(
    state: LedgerState,
    authorized: bool,
    spender: Address,
    from: Address,
    amount: i128,
) -> Result<(), Error> {
    if source_outcome(state, authorized, from, amount) is Err {
        source_outcome(state, authorized, from, amount)
    } else if spend_outcome(state, from, spender, amount) is Err {
        spend_outcome(state, from, spender, amount)
    } else {
        debit_outcome(state, from, amount)
    }
}

impl LedgerState {
    /// The state after the instance tier's lifetime extension has been asked for.
    pub open spec fn kept_alive(self) -> LedgerState {
        self.with_extension(instance_extension())
    }

    /// The state after a successful initialization.
    pub open spec fn initialized(self, admin: Address, metadata: MetadataView) -> LedgerState {
        LedgerState { admin: Some(admin), metadata: Some(metadata), ..self }
    }

    /// The state after the administrator has minted `amount` to `to`.
    pub open spec fn minted(self, to: Address, amount: i128) -> LedgerState {
        self.kept_alive().credited(to, amount).with_event(
            Event::Mint { admin: self.admin->0, to, amount },
        )
    }

    /// The state after the administrator has handed over to `new_admin`.
    pub open spec fn admin_replaced(self, new_admin: Address) -> LedgerState {
        LedgerState { admin: Some(new_admin), ..self.kept_alive() }.with_event(
            Event::SetAdmin { admin: self.admin->0, new_admin },
        )
    }

    /// The state after the administrator has frozen `account`.
    pub open spec fn account_frozen(self, account: Address) -> LedgerState {
        LedgerState {
            frozen: self.frozen.insert(DataKey::Frozen(account), true),
            ..self.kept_alive()
        }.with_event(Event::FreezeAccount { admin: self.admin->0, account })
    }

    /// The state after the administrator has unfrozen `account`.
    pub open spec fn account_unfrozen(self, account: Address) -> LedgerState {
        LedgerState {
            frozen: self.frozen.remove(DataKey::Frozen(account)),
            ..self.kept_alive()
        }.with_event(Event::UnfreezeAccount { admin: self.admin->0, account })
    }

    /// The state after `from` has approved `amount` to `spender` until
    /// `expiration_ledger`.
    pub open spec fn approved(
        self,
        from: Address,
        spender: Address,
        amount: i128,
        expiration_ledger: u32,
    ) -> LedgerState {
        self.kept_alive().allowance_written(from, spender, amount, expiration_ledger).with_event(
            Event::Approve { from, spender, amount, expiration_ledger },
        )
    }

    /// The state after `amount` has moved from `from` to `to`.
    pub open spec fn transferred(self, from: Address, to: Address, amount: i128) -> LedgerState {
        self.kept_alive().debited(from, amount).credited(to, amount).with_event(
            Event::Transfer { from, to, amount },
        )
    }

    /// The state after `spender` has moved `amount` from `from` to `to`.
    pub open spec fn transferred_from(
        self,
        spender: Address,
        from: Address,
        to: Address,
        amount: i128,
    ) -> LedgerState {
        self.kept_alive().allowance_spent(from, spender, amount).debited(from, amount).credited(
            to,
            amount,
        ).with_event(Event::Transfer { from, to, amount })
    }

    /// The state after `amount` of the balance of `from` has been burned.
    pub open spec fn burned(self, from: Address, amount: i128) -> LedgerState {
        self.kept_alive().debited(from, amount).with_event(Event::Burn { from, amount })
    }

    /// The state after `spender` has burned `amount` of the balance of `from`.
    pub open spec fn burned_from(self, spender: Address, from: Address, amount: i128)
        -> LedgerState {
        self.kept_alive().allowance_spent(from, spender, amount).debited(from, amount).with_event(
            Event::Burn { from, amount },
        )
    }
}

} // verus!
