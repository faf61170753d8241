//! What holds of the ledger over whole histories: sequences of operations,
//! each applied to the state that the one before has left. A history is put
//! together from the outcomes and the states by which the contracts of the
//! operations themselves are stated.

use vstd::prelude::*;
use crate::balance::lemma_balance_written;
use crate::error::Error;
use crate::ledger::allowance_key;
use crate::ledger::LedgerState;
use crate::storage_types::Address;
use crate::storage_types::AllowanceData;
use crate::storage_types::MetadataView;
use crate::storage_types::DataKey;
use crate::supply::lemma_sum_bounds_value;
use crate::supply::lemma_sum_nonnegative;
use crate::transitions::admin_outcome;
use crate::transitions::approve_outcome;
use crate::transitions::burn_from_outcome;
use crate::transitions::burn_outcome;
use crate::transitions::initialize_outcome;
use crate::transitions::mint_outcome;
use crate::transitions::spend_outcome;
use crate::transitions::transfer_from_outcome;
use crate::transitions::transfer_outcome;

verus! {

/// One operation with its arguments.
pub enum Operation {
    Initialize { admin: Address, metadata: MetadataView },
    Mint { to: Address, amount: i128 },
    SetAdmin { new_admin: Address },
    FreezeAccount { account: Address },
    UnfreezeAccount { account: Address },
    Approve { from: Address, spender: Address, amount: i128, expiration_ledger: u32 },
    Transfer { from: Address, to: Address, amount: i128 },
    TransferFrom { spender: Address, from: Address, to: Address, amount: i128 },
    Burn { from: Address, amount: i128 },
    BurnFrom { spender: Address, from: Address, amount: i128 },
    /// The allowance of `spender` on `from` is read through the token interface.
    Allowance { from: Address, spender: Address },
    /// The balance of `id` is read through the token interface.
    Balance { id: Address },
    /// Time moves forward to the given ledger sequence.
    Advance { sequence: u32 },
}

/// One invocation: an operation, and whether the account whose authorization
/// the operation needs has given it (which matters for no read, nor for the
/// initialization or the passing of time).
pub struct Call {
    pub operation: Operation,
    pub authorized: bool,
}

impl Operation {
    /// The account that value leaves under this operation, if any does.
    pub open spec fn source(self) -> Option<Address> {
        match self {
            Operation::Transfer { from, .. } => Some(from),
            Operation::TransferFrom { from, .. } => Some(from),
            Operation::Burn { from, .. } => Some(from),
            Operation::BurnFrom { from, .. } => Some(from),
            _ => None,
        }
    }

    /// The amount that this operation is to move, mint or burn.
    pub open spec fn amount(self) -> i128 {
        match self {
            Operation::Mint { amount, .. } => amount,
            Operation::Approve { amount, .. } => amount,
            Operation::Transfer { amount, .. } => amount,
            Operation::TransferFrom { amount, .. } => amount,
            Operation::Burn { amount, .. } => amount,
            Operation::BurnFrom { amount, .. } => amount,
            _ => 0,
        }
    }

    /// Whether this operation only moves value between accounts.
    pub open spec fn is_movement(self) -> bool {
        self is Transfer || self is TransferFrom
    }
}

/// The outcome of `call` on `state`.
pub open spec fn outcome(state: LedgerState, call: Call) -> Result<(), Error> {
    match call.operation {
        Operation::Initialize { admin, metadata } => initialize_outcome(state, metadata.decimal),
        Operation::Mint { to, amount } => mint_outcome(state, call.authorized, to, amount),
        Operation::SetAdmin { new_admin } => admin_outcome(call.authorized),
        Operation::FreezeAccount { account } => admin_outcome(call.authorized),
        Operation::UnfreezeAccount { account } => admin_outcome(call.authorized),
        Operation::Approve { from, spender, amount, expiration_ledger } => approve_outcome(
            state,
            call.authorized,
            amount,
            expiration_ledger,
        ),
        Operation::Transfer { from, to, amount } => transfer_outcome(
            state,
            call.authorized,
            from,
            to,
            amount,
        ),
        Operation::TransferFrom { spender, from, to, amount } => transfer_from_outcome(
            state,
            call.authorized,
            spender,
            from,
            to,
            amount,
        ),
        Operation::Burn { from, amount } => burn_outcome(state, call.authorized, from, amount),
        Operation::BurnFrom { spender, from, amount } => burn_from_outcome(
            state,
            call.authorized,
            spender,
            from,
            amount,
        ),
        Operation::Allowance { from, spender } => Ok(()),
        Operation::Balance { id } => Ok(()),
        Operation::Advance { sequence } => Ok(()),
    }
}

/// The state that `call` leaves: that of the operation where it succeeds, and
/// `state` itself where it fails.
pub open spec fn applied(state: LedgerState, call: Call) -> LedgerState {
    if outcome(state, call) is Err {
        state
    } else {
        match call.operation {
            Operation::Initialize { admin, metadata } => state.initialized(admin, metadata),
            Operation::Mint { to, amount } => state.minted(to, amount),
            Operation::SetAdmin { new_admin } => state.admin_replaced(new_admin),
            Operation::FreezeAccount { account } => state.account_frozen(account),
            Operation::UnfreezeAccount { account } => state.account_unfrozen(account),
            Operation::Approve { from, spender, amount, expiration_ledger } => state.approved(
                from,
                spender,
                amount,
                expiration_ledger,
            ),
            Operation::Transfer { from, to, amount } => state.transferred(from, to, amount),
            Operation::TransferFrom { spender, from, to, amount } => state.transferred_from(
                spender,
                from,
                to,
                amount,
            ),
            Operation::Burn { from, amount } => state.burned(from, amount),
            Operation::BurnFrom { spender, from, amount } => state.burned_from(
                spender,
                from,
                amount,
            ),
            Operation::Allowance { from, spender } => state.kept_alive(),
            Operation::Balance { id } => state.kept_alive().balance_read(id),
            Operation::Advance { sequence } => state.advanced_to(sequence),
        }
    }
}

/// The state after all of `calls`, in their order, starting from `state`.
pub open spec fn run(state: LedgerState, calls: Seq<Call>) -> LedgerState
    decreases calls.len(),
{
    if calls.len() == 0 {
        state
    } else {
        applied(run(state, calls.drop_last()), calls.last())
    }
}

/// What `call` adds to the total supply: the amount of a mint that succeeds,
/// less the amount of a burn that succeeds, and nothing otherwise.
pub open spec fn issued(state: LedgerState, call: Call) -> int {
    if outcome(state, call) is Err {
        0
    } else {
        match call.operation {
            Operation::Mint { to, amount } => amount as int,
            Operation::Burn { from, amount } => -amount,
            Operation::BurnFrom { spender, from, amount } => -amount,
            _ => 0,
        }
    }
}

/// What all of `calls` together add to the total supply.
pub open spec fn issued_in_all(state: LedgerState, calls: Seq<Call>) -> int
    decreases calls.len(),
{
    if calls.len() == 0 {
        0
    } else {
        issued_in_all(state, calls.drop_last()) + issued(
            run(state, calls.drop_last()),
            calls.last(),
        )
    }
}

/// Lowering a balance by no more than it holds keeps the state valid, changes
/// that balance and no other, and lowers the total supply by as much.
pub proof fn lemma_debited(state: LedgerState, account: Address, amount: i128)
    requires
        state.valid(),
        0 <= amount <= state.balance(account),
    ensures
        state.debited(account, amount).valid(),
        state.debited(account, amount).balance(account) == state.balance(account) - amount,
        forall|other: Address|
            other != account ==> #[trigger] state.debited(account, amount).balance(other)
                == state.balance(other),
        state.debited(account, amount).total_supply() == state.total_supply() - amount,
{
    lemma_balance_written(
        state.balance_read(account),
        account,
        (state.balance(account) - amount) as i128,
    );
}

/// Raising a balance within the range of `i128` keeps the state valid, changes
/// that balance and no other, and raises the total supply by as much.
pub proof fn lemma_credited(state: LedgerState, account: Address, amount: i128)
    requires
        state.valid(),
        0 <= amount,
        state.balance(account) + amount <= i128::MAX,
    ensures
        state.credited(account, amount).valid(),
        state.credited(account, amount).balance(account) == state.balance(account) + amount,
        forall|other: Address|
            other != account ==> #[trigger] state.credited(account, amount).balance(other)
                == state.balance(other),
        state.credited(account, amount).total_supply() == state.total_supply() + amount,
{
    lemma_balance_written(
        state.balance_read(account),
        account,
        (state.balance(account) + amount) as i128,
    );
}

/// Spending no more than the allowance in force keeps the state valid and
/// leaves every balance as it was.
pub proof fn lemma_allowance_spent(
    state: LedgerState,
    owner: Address,
    spender: Address,
    amount: i128,
)
    requires
        state.valid(),
        0 <= amount <= state.allowance(owner, spender).amount,
    ensures
        state.allowance_spent(owner, spender, amount).valid(),
        state.allowance_spent(owner, spender, amount).balances == state.balances,
        state.allowance_spent(owner, spender, amount).frozen == state.frozen,
{
}

/// Non-negativity and conservation, for one call: whatever the call and
/// whether it succeeds or fails, a valid state stays valid, so that no balance
/// and no allowance is ever below zero; and the total supply changes by
/// exactly what the call issues: by the amount of a mint, by the negated
/// amount of a burn, and not at all under a transfer or any other call.
pub proof fn lemma_applied(state: LedgerState, call: Call)
    requires
        state.valid(),
    ensures
        applied(state, call).valid(),
        applied(state, call).total_supply() == state.total_supply() + issued(state, call),
{
    if outcome(state, call) is Ok {
        let alive = state.kept_alive();
        match call.operation {
            Operation::Mint { to, amount } => {
                lemma_credited(alive, to, amount);
            },
            Operation::Transfer { from, to, amount } => {
                lemma_debited(alive, from, amount);
                lemma_credited(alive.debited(from, amount), to, amount);
            },
            Operation::TransferFrom { spender, from, to, amount } => {
                lemma_allowance_spent(alive, from, spender, amount);
                let spent = alive.allowance_spent(from, spender, amount);
                lemma_debited(spent, from, amount);
                lemma_credited(spent.debited(from, amount), to, amount);
            },
            Operation::Burn { from, amount } => {
                lemma_debited(alive, from, amount);
            },
            Operation::BurnFrom { spender, from, amount } => {
                lemma_allowance_spent(alive, from, spender, amount);
                lemma_debited(alive.allowance_spent(from, spender, amount), from, amount);
            },
            _ => {},
        }
    }
}

/// Non-negativity and conservation, for every history: after any sequence of
/// calls from a valid state the state is valid, every balance is at least
/// zero and at most the total supply, and the total supply has changed by
/// exactly what the calls have issued.
pub proof fn lemma_run(state: LedgerState, calls: Seq<Call>)
    requires
        state.valid(),
    ensures
        run(state, calls).valid(),
        run(state, calls).total_supply() == state.total_supply() + issued_in_all(state, calls),
        forall|account: Address|
            0 <= #[trigger] run(state, calls).balance(account) <= run(state, calls).total_supply(),
    decreases calls.len(),
{
    if calls.len() > 0 {
        lemma_run(state, calls.drop_last());
        lemma_applied(run(state, calls.drop_last()), calls.last());
    }
    let end = run(state, calls);
    lemma_sum_nonnegative(end.balances);
    assert forall|account: Address| 0 <= #[trigger] end.balance(account)
        <= end.total_supply() by {
        if end.balances.contains_key(DataKey::Balance(account)) {
            lemma_sum_bounds_value(end.balances, DataKey::Balance(account));
        }
    }
}

/// Conservation: a history of transfers, on one's own balance or on an
/// allowance, succeeding or failing, leaves the total supply as it was.
pub proof fn lemma_movements_conserve_supply(state: LedgerState, calls: Seq<Call>)
    requires
        state.valid(),
        forall|i: int| 0 <= i < calls.len() ==> (#[trigger] calls[i]).operation.is_movement(),
    ensures
        run(state, calls).total_supply() == state.total_supply(),
    decreases calls.len(),
{
    lemma_run(state, calls);
    if calls.len() > 0 {
        lemma_movements_conserve_supply(state, calls.drop_last());
        lemma_run(state, calls.drop_last());
        lemma_applied(run(state, calls.drop_last()), calls.last());
        assert(calls[calls.len() - 1].operation.is_movement());
    }
}

/// An allowance falls by what is spent of it and by nothing else: after a
/// spending of no more than the allowance in force, that allowance is smaller
/// by exactly the amount spent and keeps its expiration, and the allowance of
/// every other pair of owner and spender is as it was.
pub proof fn lemma_spend_decreases_allowance(
    state: LedgerState,
    owner: Address,
    spender: Address,
    amount: i128,
)
    requires
        state.valid(),
        0 <= amount <= state.allowance(owner, spender).amount,
    ensures
        state.allowance_spent(owner, spender, amount).allowance(owner, spender).amount
            == state.allowance(owner, spender).amount - amount,
        state.allowance_spent(owner, spender, amount).allowance(owner, spender).expiration_ledgers
            == state.allowance(owner, spender).expiration_ledgers,
        forall|other_owner: Address, other_spender: Address|
            other_owner != owner || other_spender != spender ==> #[trigger] state.allowance_spent(
                owner,
                spender,
                amount,
            ).allowance(other_owner, other_spender) == state.allowance(other_owner, other_spender),
{
}

/// Expiration collapse: an allowance written with expiration `expiration`,
/// whatever its amount, reads as amount zero at every ledger sequence after
/// `expiration`, as long as no other allowance is written over it.
pub proof fn lemma_expired_allowance_reads_zero(
    state: LedgerState,
    owner: Address,
    spender: Address,
    amount: i128,
    expiration: u32,
    later: LedgerState,
)
    requires
        later.stored_allowance(owner, spender) == state.allowance_written(
            owner,
            spender,
            amount,
            expiration,
        ).stored_allowance(owner, spender),
        later.sequence > expiration,
    ensures
        later.stored_allowance(owner, spender) == Some(
            AllowanceData { amount, expiration_ledgers: expiration },
        ),
        later.allowance(owner, spender).amount == 0,
{
}

/// Expiration collapse, over time alone: once the ledger sequence has moved
/// past the expiration that an approval has set, the allowance reads as zero
/// although the approved amount is still stored.
pub proof fn lemma_approval_expires(
    state: LedgerState,
    from: Address,
    spender: Address,
    amount: i128,
    expiration: u32,
    sequence: u32,
)
    requires
        sequence > expiration,
    ensures
        state.approved(from, spender, amount, expiration).advanced_to(sequence).allowance(
            from,
            spender,
        ).amount == 0,
        state.approved(from, spender, amount, expiration).advanced_to(sequence).stored_allowance(
            from,
            spender,
        ) == Some(AllowanceData { amount, expiration_ledgers: expiration }),
{
}

/// Absence and expiry look alike: where the stored record has expired or
/// holds amount zero, the ledger without that record shows every allowance
/// with the same amount, and decides every spending alike.
pub proof fn lemma_lapsed_record_is_as_absent(
    state: LedgerState,
    owner: Address,
    spender: Address,
)
    requires
        state.stored_allowance(owner, spender) matches Some(stored) && (stored.expiration_ledgers
            < state.sequence || stored.amount == 0),
    ensures
        ({
            let without = LedgerState {
                allowances: state.allowances.remove(allowance_key(owner, spender)),
                ..state
            };
            &&& without.stored_allowance(owner, spender) is None
            &&& forall|other_owner: Address, other_spender: Address| #[trigger]
                without.allowance(other_owner, other_spender).amount == state.allowance(
                    other_owner,
                    other_spender,
                ).amount
            &&& forall|other_owner: Address, other_spender: Address, amount: i128| #[trigger]
                spend_outcome(without, other_owner, other_spender, amount) == spend_outcome(
                    state,
                    other_owner,
                    other_spender,
                    amount,
                )
        }),
{
}

/// Zero-approve is idempotent: approving amount zero always succeeds for the
/// account that authorizes it, the allowance then reads as zero, and
/// approving zero once more leaves everything that is stored as the first
/// approval left it.
pub proof fn lemma_zero_approve_idempotent(
    state: LedgerState,
    from: Address,
    spender: Address,
    expiration: u32,
)
    ensures
        approve_outcome(state, true, 0, expiration) is Ok,
        state.approved(from, spender, 0, expiration).allowance(from, spender).amount == 0,
        approve_outcome(state.approved(from, spender, 0, expiration), true, 0, expiration) is Ok,
        state.approved(from, spender, 0, expiration).approved(
            from,
            spender,
            0,
            expiration,
        ).same_storage(state.approved(from, spender, 0, expiration)),
        forall|owner: Address, other: Address| #[trigger]
            state.approved(from, spender, 0, expiration).approved(
                from,
                spender,
                0,
                expiration,
            ).allowance(owner, other) == state.approved(from, spender, 0, expiration).allowance(
                owner,
                other,
            ),
        forall|account: Address| #[trigger]
            state.approved(from, spender, 0, expiration).approved(
                from,
                spender,
                0,
                expiration,
            ).balance(account) == state.approved(from, spender, 0, expiration).balance(account),
{
    let once = state.approved(from, spender, 0, expiration);
    let twice = once.approved(from, spender, 0, expiration);
    assert(twice.allowances =~= once.allowances);
}

/// Whether `call` is an unfreezing of `account` that succeeds.
pub open spec fn unfreezes(call: Call, account: Address) -> bool {
    call.operation == (Operation::UnfreezeAccount { account }) && call.authorized
}

/// Freeze gating, for the flag: a frozen account stays frozen through every
/// history in which no unfreezing of it succeeds.
pub proof fn lemma_frozen_until_unfrozen(state: LedgerState, calls: Seq<Call>, account: Address)
    requires
        state.is_frozen(account),
        forall|i: int| 0 <= i < calls.len() ==> !unfreezes(#[trigger] calls[i], account),
    ensures
        run(state, calls).is_frozen(account),
    decreases calls.len(),
{
    if calls.len() > 0 {
        lemma_frozen_until_unfrozen(state, calls.drop_last(), account);
        let before = run(state, calls.drop_last());
        let call = calls.last();
        assert(!unfreezes(calls[calls.len() - 1], account));
        assert(applied(before, call).is_frozen(account));
    }
}

/// Freeze gating: once an account is frozen, then after every history in
/// which no unfreezing of it succeeds, every transfer and every burn that
/// takes value out of it (on its own authorization or on an allowance) fails
/// and leaves the ledger as it is; and it fails with `AccountFrozen` where
/// the authorization is given and the amount is not below zero.
pub proof fn lemma_freeze_gates(
    state: LedgerState,
    calls: Seq<Call>,
    account: Address,
    call: Call,
)
    requires
        state.is_frozen(account),
        forall|i: int| 0 <= i < calls.len() ==> !unfreezes(#[trigger] calls[i], account),
        call.operation.source() == Some(account),
    ensures
        outcome(run(state, calls), call) is Err,
        applied(run(state, calls), call) == run(state, calls),
        call.authorized && call.operation.amount() >= 0 ==> outcome(run(state, calls), call)
            == Err::<(), Error>(Error::AccountFrozen),
{
    lemma_frozen_until_unfrozen(state, calls, account);
}

/// Freezing takes effect at once: after a freeze that succeeds, the account
/// is frozen.
pub proof fn lemma_freeze_freezes(state: LedgerState, account: Address)
    ensures
        state.account_frozen(account).is_frozen(account),
        !state.account_unfrozen(account).is_frozen(account),
{
}

} // verus!
