//! The token operations. Each one authenticates the account it needs, checks
//! everything that can make it fail, and only then changes the ledger: a
//! failed operation leaves the ledger exactly as it was.

use vstd::prelude::*;
use crate::admin::has_admin;
use crate::admin::read_admin;
use crate::admin::write_admin;
use crate::allowance::read_allowance;
use crate::allowance::spend_allowance;
use crate::allowance::write_allowance;
use crate::auth::Authenticator;
use crate::balance::decrease_balance;
use crate::balance::increase_balance;
use crate::balance::peek_balance;
use crate::balance::read_balance;
use crate::constants::INSTANCE_TTL_FULL;
use crate::constants::INSTANCE_TTL_THRESHOLD;
use crate::constants::MAX_DECIMAL;
use crate::error::Error;
use crate::ledger::Event;
use crate::ledger::Extension;
use crate::ledger::Ledger;
use crate::metadata::read_decimal;
use crate::metadata::read_name;
use crate::metadata::read_symbol;
use crate::metadata::write_metadata;
use crate::storage_types::Address;
use crate::storage_types::AllowanceData;
use crate::storage_types::TokenMetadata;
use crate::transitions::admin_authorizes;
use crate::transitions::admin_outcome;
use crate::transitions::approve_outcome;
use crate::transitions::burn_from_outcome;
use crate::transitions::burn_outcome;
use crate::transitions::initialize_outcome;
use crate::transitions::mint_outcome;
use crate::transitions::move_outcome;
use crate::transitions::source_outcome;
use crate::transitions::transfer_from_outcome;
use crate::transitions::transfer_outcome;

verus! {

/// Refuses an amount below zero.
pub fn assert_nonnegative_amount(amount: i128) -> (result: Result<(), Error>)
    ensures
        result == (if amount < 0 {
            Err::<(), Error>(Error::NegativeAmount(amount))
        } else {
            Ok(())
        }),
{
    if amount < 0 {
        Err(Error::NegativeAmount(amount))
    } else {
        Ok(())
    }
}

/// Refuses an account whose frozen flag is stored and set.
pub fn assert_account_not_frozen(ledger: &Ledger, account: &Address) -> (result: Result<
    (),
    Error,
>)
    requires
        ledger.wf(),
    ensures
        result == (if ledger@.is_frozen(*account) {
            Err::<(), Error>(Error::AccountFrozen)
        } else {
            Ok(())
        }),
{
    match ledger.frozen_flag(*account) {
        Some(true) => Err(Error::AccountFrozen),
        _ => Ok(()),
    }
}

/// Reads the administrator and asks `auth` whether that account has
/// authorized. Gives the administrator where it has; fails with
/// `Unauthorized` where it has not, or where no administrator is recorded.
pub fn require_admin_authorized<A: Authenticator>(ledger: &Ledger, auth: &A) -> (result: Result<
    Address,
    Error,
>)
    ensures
        match result {
            Ok(admin) => admin_authorizes(ledger@, auth) && ledger@.admin == Some(admin),
            Err(error) => !admin_authorizes(ledger@, auth) && error == Error::Unauthorized,
        },
{
    if !has_admin(ledger) {
        return Err(Error::Unauthorized);
    }
    let admin = read_admin(ledger);
    if auth.is_authorized(&admin) {
        Ok(admin)
    } else {
        Err(Error::Unauthorized)
    }
}

/// What every operation that takes value out of `from` checks first, in this
/// order: that `signer` has authorized, that `amount` is not below zero, that
/// `from` is not frozen.
fn check_source<A: Authenticator>(
    ledger: &Ledger,
    auth: &A,
    signer: &Address,
    from: &Address,
    amount: i128,
) -> (result: Result<(), Error>)
    requires
        ledger.wf(),
    ensures
        result == source_outcome(ledger@, auth.authorizes(*signer), *from, amount),
{
    if !auth.is_authorized(signer) {
        return Err(Error::Unauthorized);
    }
    match assert_nonnegative_amount(amount) {
        Ok(()) => {},
        Err(error) => {
            return Err(error);
        },
    }
    assert_account_not_frozen(ledger, from)
}

/// Checks that `amount`, which is not below zero, can move from `from` to
/// `to`: that `from` holds it, and that the balance of `to` has room for it.
fn check_move(ledger: &Ledger, from: Address, to: Address, amount: i128) -> (result: Result<
    (),
    Error,
>)
    requires
        ledger.wf(),
        amount >= 0,
    ensures
        result == move_outcome(ledger@, from, to, amount),
{
    if peek_balance(ledger, from) < amount {
        return Err(Error::InsufficientBalance);
    }
    if from != to && peek_balance(ledger, to).checked_add(amount).is_none() {
        return Err(Error::ArithmeticOverflow);
    }
    Ok(())
}

/// Asks for the lifetime extension of the instance tier.
fn keep_alive(ledger: &mut Ledger)
    requires
        old(ledger).wf(),
    ensures
        final(ledger).wf(),
        final(ledger)@ == old(ledger)@.kept_alive(),
{
    ledger.extend_ttl(
        Extension::Instance { threshold: INSTANCE_TTL_THRESHOLD, extend_to: INSTANCE_TTL_FULL },
    );
}

/// The token: its operations work on the ledger that is handed to them.
pub struct TokenContract;

impl TokenContract {
    /// Initializes the ledger: records `admin` as administrator and the
    /// token's descriptor. Fails with `AlreadyInitialized` where an
    /// administrator is recorded already, else with `InvalidDecimal` where
    /// `decimal` exceeds eighteen.
    pub fn initialize(
        ledger: &mut Ledger,
        admin: Address,
        decimal: u32,
        name: String,
        symbol: String,
    ) -> (result: Result<(), Error>)
        requires
            old(ledger).wf(),
        ensures
            final(ledger).wf(),
            result == initialize_outcome(old(ledger)@, decimal),
            result is Ok ==> final(ledger)@ == old(ledger)@.initialized(
                admin,
                (TokenMetadata { decimal, name, symbol })@,
            ),
            result is Err ==> final(ledger)@ == old(ledger)@,
    {
        if has_admin(ledger) {
            return Err(Error::AlreadyInitialized);
        }
        if decimal > MAX_DECIMAL {
            return Err(Error::InvalidDecimal);
        }
        write_admin(ledger, &admin);
        write_metadata(ledger, TokenMetadata { decimal, name, symbol });
        Ok(())
    }

    /// Mints `amount` to `to`, on the administrator's authorization. Fails
    /// with `Unauthorized`, `NegativeAmount` or `ArithmeticOverflow`, in this
    /// order of precedence. On success the total supply has grown by exactly
    /// `amount`.
    pub fn mint<A: Authenticator>(ledger: &mut Ledger, auth: &A, to: Address, amount: i128) -> (result:
        Result<(), Error>)
        requires
            old(ledger).wf(),
        ensures
            final(ledger).wf(),
            result == mint_outcome(old(ledger)@, admin_authorizes(old(ledger)@, auth), to, amount),
            result is Ok ==> final(ledger)@ == old(ledger)@.minted(to, amount),
            result is Ok ==> final(ledger)@.total_supply() == old(ledger)@.total_supply() + amount,
            result is Err ==> final(ledger)@ == old(ledger)@,
    {
        let admin = match require_admin_authorized(ledger, auth) {
            Ok(admin) => admin,
            Err(error) => {
                return Err(error);
            },
        };
        match assert_nonnegative_amount(amount) {
            Ok(()) => {},
            Err(error) => {
                return Err(error);
            },
        }
        if peek_balance(ledger, to).checked_add(amount).is_none() {
            return Err(Error::ArithmeticOverflow);
        }
        keep_alive(ledger);
        let credited = increase_balance(ledger, to, amount);
        assert(credited is Ok);
        ledger.publish(Event::Mint { admin, to, amount });
        Ok(())
    }

    /// Hands the administration over to `new_admin`, on the current
    /// administrator's authorization. Fails with `Unauthorized`.
    pub fn set_admin<A: Authenticator>(ledger: &mut Ledger, auth: &A, new_admin: Address) -> (result:
        Result<(), Error>)
        requires
            old(ledger).wf(),
        ensures
            final(ledger).wf(),
            result == admin_outcome(admin_authorizes(old(ledger)@, auth)),
            result is Ok ==> final(ledger)@ == old(ledger)@.admin_replaced(new_admin),
            result is Err ==> final(ledger)@ == old(ledger)@,
    {
        let admin = match require_admin_authorized(ledger, auth) {
            Ok(admin) => admin,
            Err(error) => {
                return Err(error);
            },
        };
        keep_alive(ledger);
        write_admin(ledger, &new_admin);
        ledger.publish(Event::SetAdmin { admin, new_admin });
        Ok(())
    }

    /// Freezes `account`, on the administrator's authorization: value can no
    /// longer leave it. Fails with `Unauthorized`.
    pub fn freeze_account<A: Authenticator>(ledger: &mut Ledger, auth: &A, account: Address) -> (result:
        Result<(), Error>)
        requires
            old(ledger).wf(),
        ensures
            final(ledger).wf(),
            result == admin_outcome(admin_authorizes(old(ledger)@, auth)),
            result is Ok ==> final(ledger)@ == old(ledger)@.account_frozen(account),
            result is Ok ==> final(ledger)@.is_frozen(account),
            result is Err ==> final(ledger)@ == old(ledger)@,
    {
        let admin = match require_admin_authorized(ledger, auth) {
            Ok(admin) => admin,
            Err(error) => {
                return Err(error);
            },
        };
        keep_alive(ledger);
        ledger.set_frozen_flag(account, true);
        ledger.publish(Event::FreezeAccount { admin, account });
        Ok(())
    }

    /// Unfreezes `account`, on the administrator's authorization: its frozen
    /// flag is removed. Fails with `Unauthorized`.
    pub fn unfreeze_account<A: Authenticator>(ledger: &mut Ledger, auth: &A, account: Address) -> (result:
        Result<(), Error>)
        requires
            old(ledger).wf(),
        ensures
            final(ledger).wf(),
            result == admin_outcome(admin_authorizes(old(ledger)@, auth)),
            result is Ok ==> final(ledger)@ == old(ledger)@.account_unfrozen(account),
            result is Ok ==> !final(ledger)@.is_frozen(account),
            result is Err ==> final(ledger)@ == old(ledger)@,
    {
        let admin = match require_admin_authorized(ledger, auth) {
            Ok(admin) => admin,
            Err(error) => {
                return Err(error);
            },
        };
        keep_alive(ledger);
        ledger.remove_frozen_flag(account);
        ledger.publish(Event::UnfreezeAccount { admin, account });
        Ok(())
    }

    /// The allowance record stored for `from` and `spender` as it is, expired
    /// or not; `None` where nothing is stored.
    pub fn test_get_allowance(ledger: &Ledger, from: Address, spender: Address) -> (stored: Option<
        AllowanceData,
    >)
        requires
            ledger.wf(),
        ensures
            stored == ledger@.stored_allowance(from, spender),
    {
        ledger.allowance_entry(from, spender)
    }

    /// The amount that `spender` may still spend of the balance of `from`:
    /// zero once the allowance has expired. Keeps the instance tier alive.
    pub fn allowance(ledger: &mut Ledger, from: Address, spender: Address) -> (amount: i128)
        requires
            old(ledger).wf(),
        ensures
            final(ledger).wf(),
            amount == old(ledger)@.allowance(from, spender).amount,
            amount >= 0,
            final(ledger)@ == old(ledger)@.kept_alive(),
    {
        keep_alive(ledger);
        read_allowance(ledger, from, spender).amount
    }

    /// Lets `spender` spend up to `amount` of the balance of `from` until
    /// `expiration_ledger`, on the authorization of `from`; it replaces any
    /// allowance granted before. Fails with `Unauthorized`, `NegativeAmount`
    /// or `InvalidExpiration`, in this order of precedence.
    pub fn approve<A: Authenticator>(
        ledger: &mut Ledger,
        auth: &A,
        from: Address,
        spender: Address,
        amount: i128,
        expiration_ledger: u32,
    ) -> (result: Result<(), Error>)
        requires
            old(ledger).wf(),
        ensures
            final(ledger).wf(),
            result == approve_outcome(
                old(ledger)@,
                auth.authorizes(from),
                amount,
                expiration_ledger,
            ),
            result is Ok ==> final(ledger)@ == old(ledger)@.approved(
                from,
                spender,
                amount,
                expiration_ledger,
            ),
            result is Err ==> final(ledger)@ == old(ledger)@,
    {
        if !auth.is_authorized(&from) {
            return Err(Error::Unauthorized);
        }
        match assert_nonnegative_amount(amount) {
            Ok(()) => {},
            Err(error) => {
                return Err(error);
            },
        }
        if amount > 0 && expiration_ledger < ledger.sequence() {
            return Err(Error::InvalidExpiration);
        }
        keep_alive(ledger);
        let written = write_allowance(ledger, from, spender, amount, expiration_ledger);
        assert(written is Ok);
        ledger.publish(Event::Approve { from, spender, amount, expiration_ledger });
        Ok(())
    }

    /// The balance of `id`. Keeps the instance tier, and the balance entry
    /// where there is one, alive.
    pub fn balance(ledger: &mut Ledger, id: Address) -> (amount: i128)
        requires
            old(ledger).wf(),
        ensures
            final(ledger).wf(),
            amount == old(ledger)@.balance(id),
            amount >= 0,
            final(ledger)@ == old(ledger)@.kept_alive().balance_read(id),
    {
        keep_alive(ledger);
        read_balance(ledger, id)
    }

    /// Moves `amount` from `from` to `to`, on the authorization of `from`.
    /// Fails with `Unauthorized`, `NegativeAmount`, `AccountFrozen`,
    /// `InsufficientBalance` or `ArithmeticOverflow`, in this order of
    /// precedence. The total supply stays as it is.
    pub fn transfer<A: Authenticator>(
        ledger: &mut Ledger,
        auth: &A,
        from: Address,
        to: Address,
        amount: i128,
    ) -> (result: Result<(), Error>)
        requires
            old(ledger).wf(),
        ensures
            final(ledger).wf(),
            result == transfer_outcome(old(ledger)@, auth.authorizes(from), from, to, amount),
            result is Ok ==> final(ledger)@ == old(ledger)@.transferred(from, to, amount),
            result is Err ==> final(ledger)@ == old(ledger)@,
            final(ledger)@.total_supply() == old(ledger)@.total_supply(),
    {
        match check_source(ledger, auth, &from, &from, amount) {
            Ok(()) => {},
            Err(error) => {
                return Err(error);
            },
        }
        match check_move(ledger, from, to, amount) {
            Ok(()) => {},
            Err(error) => {
                return Err(error);
            },
        }
        keep_alive(ledger);
        let debited = decrease_balance(ledger, from, amount);
        assert(debited is Ok);
        let credited = increase_balance(ledger, to, amount);
        assert(credited is Ok);
        ledger.publish(Event::Transfer { from, to, amount });
        Ok(())
    }

    /// Moves `amount` from `from` to `to` on the allowance that `from` has
    /// granted to `spender`, on the authorization of `spender`. Fails with
    /// `Unauthorized`, `NegativeAmount`, `AccountFrozen`,
    /// `InsufficientAllowance`, `InsufficientBalance` or `ArithmeticOverflow`,
    /// in this order of precedence. The allowance falls by `amount`; the total
    /// supply stays as it is.
    pub fn transfer_from<A: Authenticator>(
        ledger: &mut Ledger,
        auth: &A,
        spender: Address,
        from: Address,
        to: Address,
        amount: i128,
    ) -> (result: Result<(), Error>)
        requires
            old(ledger).wf(),
        ensures
            final(ledger).wf(),
            result == transfer_from_outcome(
                old(ledger)@,
                auth.authorizes(spender),
                spender,
                from,
                to,
                amount,
            ),
            result is Ok ==> final(ledger)@ == old(ledger)@.transferred_from(
                spender,
                from,
                to,
                amount,
            ),
            result is Err ==> final(ledger)@ == old(ledger)@,
            final(ledger)@.total_supply() == old(ledger)@.total_supply(),
    {
        match check_source(ledger, auth, &spender, &from, amount) {
            Ok(()) => {},
            Err(error) => {
                return Err(error);
            },
        }
        if read_allowance(ledger, from, spender).amount < amount {
            return Err(Error::InsufficientAllowance);
        }
        match check_move(ledger, from, to, amount) {
            Ok(()) => {},
            Err(error) => {
                return Err(error);
            },
        }
        keep_alive(ledger);
        let spent = spend_allowance(ledger, from, spender, amount);
        assert(spent is Ok);
        let debited = decrease_balance(ledger, from, amount);
        assert(debited is Ok);
        let credited = increase_balance(ledger, to, amount);
        assert(credited is Ok);
        ledger.publish(Event::Transfer { from, to, amount });
        Ok(())
    }

    /// Burns `amount` of the balance of `from`, on the authorization of
    /// `from`. Fails with `Unauthorized`, `NegativeAmount`, `AccountFrozen` or
    /// `InsufficientBalance`, in this order of precedence. On success the
    /// total supply has shrunk by exactly `amount`.
    pub fn burn<A: Authenticator>(ledger: &mut Ledger, auth: &A, from: Address, amount: i128) -> (result:
        Result<(), Error>)
        requires
            old(ledger).wf(),
        ensures
            final(ledger).wf(),
            result == burn_outcome(old(ledger)@, auth.authorizes(from), from, amount),
            result is Ok ==> final(ledger)@ == old(ledger)@.burned(from, amount),
            result is Ok ==> final(ledger)@.total_supply() == old(ledger)@.total_supply() - amount,
            result is Err ==> final(ledger)@ == old(ledger)@,
    {
        match check_source(ledger, auth, &from, &from, amount) {
            Ok(()) => {},
            Err(error) => {
                return Err(error);
            },
        }
        if peek_balance(ledger, from) < amount {
            return Err(Error::InsufficientBalance);
        }
        keep_alive(ledger);
        let debited = decrease_balance(ledger, from, amount);
        assert(debited is Ok);
        ledger.publish(Event::Burn { from, amount });
        Ok(())
    }

    /// Burns `amount` of the balance of `from` on the allowance that `from`
    /// has granted to `spender`, on the authorization of `spender`. Fails with
    /// `Unauthorized`, `NegativeAmount`, `AccountFrozen`,
    /// `InsufficientAllowance` or `InsufficientBalance`, in this order of
    /// precedence. On success the allowance has fallen, and the total supply
    /// has shrunk, by exactly `amount`.
    pub fn burn_from<A: Authenticator>(
        ledger: &mut Ledger,
        auth: &A,
        spender: Address,
        from: Address,
        amount: i128,
    ) -> (result: Result<(), Error>)
        requires
            old(ledger).wf(),
        ensures
            final(ledger).wf(),
            result == burn_from_outcome(
                old(ledger)@,
                auth.authorizes(spender),
                spender,
                from,
                amount,
            ),
            result is Ok ==> final(ledger)@ == old(ledger)@.burned_from(spender, from, amount),
            result is Ok ==> final(ledger)@.total_supply() == old(ledger)@.total_supply() - amount,
            result is Err ==> final(ledger)@ == old(ledger)@,
    {
        match check_source(ledger, auth, &spender, &from, amount) {
            Ok(()) => {},
            Err(error) => {
                return Err(error);
            },
        }
        if read_allowance(ledger, from, spender).amount < amount {
            return Err(Error::InsufficientAllowance);
        }
        if peek_balance(ledger, from) < amount {
            return Err(Error::InsufficientBalance);
        }
        keep_alive(ledger);
        let spent = spend_allowance(ledger, from, spender, amount);
        assert(spent is Ok);
        let debited = decrease_balance(ledger, from, amount);
        assert(debited is Ok);
        ledger.publish(Event::Burn { from, amount });
        Ok(())
    }

    /// The number of decimals of an initialized ledger's token.
    pub fn decimals(ledger: &Ledger) -> (decimal: u32)
        requires
            ledger@.metadata is Some,
        ensures
            decimal == ledger@.metadata->0.decimal,
    {
        read_decimal(ledger)
    }

    /// The name of an initialized ledger's token.
    pub fn name(ledger: &Ledger) -> (name: String)
        requires
            ledger@.metadata is Some,
        ensures
            name@ == ledger@.metadata->0.name,
    {
        read_name(ledger)
    }

    /// The symbol of an initialized ledger's token.
    pub fn symbol(ledger: &Ledger) -> (symbol: String)
        requires
            ledger@.metadata is Some,
        ensures
            symbol@ == ledger@.metadata->0.symbol,
    {
        read_symbol(ledger)
    }
}

} // verus!
