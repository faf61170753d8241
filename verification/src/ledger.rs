//! The state of one ledger: the three storage tiers, the current ledger
//! sequence, and what the ledger has asked of its surroundings (lifetime
//! extensions of storage entries, and events).

use vstd::prelude::*;
use crate::storage_types::Address;
use crate::storage_types::AllowanceData;
use crate::storage_types::AllowanceDataKey;
use crate::storage_types::DataKey;
use crate::storage_types::MetadataView;
use crate::storage_types::TokenMetadata;
use crate::store::Store;
use crate::supply::sum_values;
use crate::supply::lemma_sum_empty;

verus! {

/// A request to the store: where the remaining lifetime is below `threshold`
/// ledger sequences, extend it to `extend_to`.
#[derive(Clone, Copy, Debug, PartialEq, Eq, Structural)]
pub enum Extension {
    /// For the instance tier, whose entries share one lifetime.
    Instance { threshold: u32, extend_to: u32 },
    /// For the entry under `key`.
    Entry { key: DataKey, threshold: u32, extend_to: u32 },
}

/// What the ledger reports of a change it has made.
#[derive(Clone, Copy, Debug, PartialEq, Eq, Structural)]
pub enum Event {
    Mint { admin: Address, to: Address, amount: i128 },
    Transfer { from: Address, to: Address, amount: i128 },
    Burn { from: Address, amount: i128 },
    Approve { from: Address, spender: Address, amount: i128, expiration_ledger: u32 },
    SetAdmin { admin: Address, new_admin: Address },
    FreezeAccount { admin: Address, account: Address },
    UnfreezeAccount { admin: Address, account: Address },
}

/// The ledger as a mathematical value.
#[verifier::ext_equal]
pub struct LedgerState {
    /// The current ledger sequence.
    pub sequence: u32,
    /// Instance tier: the administrator, once the ledger is initialized.
    pub admin: Option<Address>,
    /// Instance tier: the token's descriptor, once the ledger is initialized.
    pub metadata: Option<MetadataView>,
    /// Instance tier: the frozen flags, under `DataKey::Frozen`.
    pub frozen: Map<DataKey, bool>,
    /// Persistent tier: the balances, under `DataKey::Balance`.
    pub balances: Map<DataKey, i128>,
    /// Temporary tier: the allowances, under `DataKey::Allowance`.
    pub allowances: Map<DataKey, AllowanceData>,
    /// The lifetime extensions asked for so far, oldest first.
    pub extensions: Seq<Extension>,
    /// The events emitted so far, oldest first.
    pub events: Seq<Event>,
}

/// The key of the allowance that `owner` grants to `spender`.
pub open spec fn allowance_key(owner: Address, spender: Address) -> DataKey {
    DataKey::Allowance(AllowanceDataKey { owner, spender })
}

impl LedgerState {
    /// Each tier holds keys of its own kind only, finitely many balances are
    /// stored, and no stored balance or allowance is below zero.
    pub open spec fn valid(self) -> bool {
        &&& self.balances.dom().finite()
        &&& forall|k: DataKey| #[trigger] self.frozen.contains_key(k) ==> k is Frozen
        &&& forall|k: DataKey| #[trigger]
            self.balances.contains_key(k) ==> k is Balance && self.balances[k] >= 0
        &&& forall|k: DataKey| #[trigger]
            self.allowances.contains_key(k) ==> k is Allowance && self.allowances[k].amount >= 0
    }

    /// The balance of `account`: what is stored, and zero where nothing is.
    pub open spec fn balance(self, account: Address) -> i128 {
        if self.balances.contains_key(DataKey::Balance(account)) {
            self.balances[DataKey::Balance(account)]
        } else {
            0
        }
    }

    /// The allowance record stored for `owner` and `spender`, if there is one.
    pub open spec fn stored_allowance(self, owner: Address, spender: Address) -> Option<
        AllowanceData,
    > {
        if self.allowances.contains_key(allowance_key(owner, spender)) {
            Some(self.allowances[allowance_key(owner, spender)])
        } else {
            None
        }
    }

    /// The allowance in force: the stored record, with the amount read as zero
    /// once the expiration lies before the current sequence; zero amount and
    /// zero expiration where nothing is stored.
    pub open spec fn allowance(self, owner: Address, spender: Address) -> AllowanceData {
        match self.stored_allowance(owner, spender) {
            Some(stored) => if stored.expiration_ledgers < self.sequence {
                AllowanceData { amount: 0, expiration_ledgers: stored.expiration_ledgers }
            } else {
                stored
            },
            None => AllowanceData { amount: 0, expiration_ledgers: 0 },
        }
    }

    /// Whether a frozen flag is stored for `account` and is set.
    pub open spec fn is_frozen(self, account: Address) -> bool {
        self.frozen.contains_key(DataKey::Frozen(account)) && self.frozen[DataKey::Frozen(account)]
    }

    /// The sum of all stored balances.
    pub open spec fn total_supply(self) -> int {
        sum_values(self.balances)
    }

    /// The state after one more lifetime extension has been asked for.
    pub open spec fn with_extension(self, extension: Extension) -> LedgerState {
        LedgerState { extensions: self.extensions.push(extension), ..self }
    }

    /// The state after one more event has been emitted.
    pub open spec fn with_event(self, event: Event) -> LedgerState {
        LedgerState { events: self.events.push(event), ..self }
    }

    /// The state once time has moved forward to `sequence`; the ledger
    /// sequence never goes back. Nothing that is stored changes.
    pub open spec fn advanced_to(self, sequence: u32) -> LedgerState {
        LedgerState {
            sequence: if sequence > self.sequence {
                sequence
            } else {
                self.sequence
            },
            ..self
        }
    }

    /// Whether both states store the same in all three tiers. The sequence and
    /// what was asked of the surroundings may differ.
    pub open spec fn same_storage(self, other: LedgerState) -> bool {
        &&& self.admin == other.admin
        &&& self.metadata == other.metadata
        &&& self.frozen == other.frozen
        &&& self.balances == other.balances
        &&& self.allowances == other.allowances
    }
}

/// One ledger. Its view is a [`LedgerState`].
pub struct Ledger {
    sequence: u32,
    admin: Option<Address>,
    metadata: Option<TokenMetadata>,
    frozen: Store<bool>,
    balances: Store<i128>,
    allowances: Store<AllowanceData>,
    extensions: Vec<Extension>,
    events: Vec<Event>,
}

impl View for Ledger {
    type V = LedgerState;

    closed spec fn view(&self) -> LedgerState {
        LedgerState {
            sequence: self.sequence,
            admin: self.admin,
            metadata: match self.metadata {
                Some(metadata) => Some(metadata@),
                None => None,
            },
            frozen: self.frozen@,
            balances: self.balances@,
            allowances: self.allowances@,
            extensions: self.extensions@,
            events: self.events@,
        }
    }
}

impl Ledger {
    /// The tiers are kept without repeated keys.
    pub closed spec fn stored_well(&self) -> bool {
        &&& self.frozen.wf()
        &&& self.balances.wf()
        &&& self.allowances.wf()
    }

    /// The ledger's invariant: its representation is sound and its state is valid.
    pub open spec fn wf(&self) -> bool {
        &&& self.stored_well()
        &&& self@.valid()
    }

    /// An uninitialized ledger at ledger sequence `sequence`: nothing is
    /// stored, nothing has been asked for or emitted.
    pub fn new(sequence: u32) -> (ledger: Ledger)
        ensures
            ledger.wf(),
            ledger@ == (LedgerState {
                sequence,
                admin: None,
                metadata: None,
                frozen: Map::empty(),
                balances: Map::empty(),
                allowances: Map::empty(),
                extensions: Seq::empty(),
                events: Seq::empty(),
            }),
            ledger@.total_supply() == 0,
    {
        proof {
            lemma_sum_empty();
        }
        Ledger {
            sequence,
            admin: None,
            metadata: None,
            frozen: Store::new(),
            balances: Store::new(),
            allowances: Store::new(),
            extensions: Vec::new(),
            events: Vec::new(),
        }
    }

    /// The current ledger sequence.
    pub fn sequence(&self) -> (sequence: u32)
        ensures
            sequence == self@.sequence,
    {
        self.sequence
    }

    /// Moves time forward to `sequence`. The ledger sequence never goes back:
    /// an earlier `sequence` changes nothing. Storage is not touched.
    pub fn advance_to(&mut self, sequence: u32)
        requires
            old(self).wf(),
        ensures
            final(self).wf(),
            final(self)@ == old(self)@.advanced_to(sequence),
    {
        if sequence > self.sequence {
            self.sequence = sequence;
        }
    }

    /// The administrator recorded in the instance tier.
    pub fn admin(&self) -> (admin: Option<Address>)
        ensures
            admin == self@.admin,
    {
        self.admin
    }

    /// Records `admin` as the administrator.
    pub fn set_admin(&mut self, admin: Address)
        requires
            old(self).wf(),
        ensures
            final(self).wf(),
            final(self)@ == (LedgerState { admin: Some(admin), ..old(self)@ }),
    {
        self.admin = Some(admin);
    }

    /// The token's descriptor recorded in the instance tier.
    pub fn metadata(&self) -> (metadata: Option<&TokenMetadata>)
        ensures
            match metadata {
                Some(stored) => self@.metadata == Some(stored@),
                None => self@.metadata is None,
            },
    {
        match &self.metadata {
            Some(stored) => Some(stored),
            None => None,
        }
    }

    /// Records `metadata` as the token's descriptor.
    pub fn set_metadata(&mut self, metadata: TokenMetadata)
        requires
            old(self).wf(),
        ensures
            final(self).wf(),
            final(self)@ == (LedgerState { metadata: Some(metadata@), ..old(self)@ }),
    {
        self.metadata = Some(metadata);
    }

    /// The frozen flag stored for `account`, if there is one.
    pub fn frozen_flag(&self, account: Address) -> (flag: Option<bool>)
        requires
            self.wf(),
        ensures
            flag == (if self@.frozen.contains_key(DataKey::Frozen(account)) {
                Some(self@.frozen[DataKey::Frozen(account)])
            } else {
                None
            }),
    {
        self.frozen.get(&DataKey::Frozen(account))
    }

    /// Stores `flag` as the frozen flag of `account`.
    pub fn set_frozen_flag(&mut self, account: Address, flag: bool)
        requires
            old(self).wf(),
        ensures
            final(self).wf(),
            final(self)@ == (LedgerState {
                frozen: old(self)@.frozen.insert(DataKey::Frozen(account), flag),
                ..old(self)@
            }),
    {
        self.frozen.set(DataKey::Frozen(account), flag);
    }

    /// Removes the frozen flag of `account`, if one is stored.
    pub fn remove_frozen_flag(&mut self, account: Address)
        requires
            old(self).wf(),
        ensures
            final(self).wf(),
            final(self)@ == (LedgerState {
                frozen: old(self)@.frozen.remove(DataKey::Frozen(account)),
                ..old(self)@
            }),
    {
        self.frozen.remove(&DataKey::Frozen(account));
    }

    /// The balance stored for `account`, if one is.
    pub fn balance_entry(&self, account: Address) -> (entry: Option<i128>)
        requires
            self.wf(),
        ensures
            entry == (if self@.balances.contains_key(DataKey::Balance(account)) {
                Some(self@.balances[DataKey::Balance(account)])
            } else {
                None
            }),
            entry matches Some(amount) ==> amount >= 0,
    {
        self.balances.get(&DataKey::Balance(account))
    }

    /// Stores `amount` as the balance of `account`.
    pub fn set_balance_entry(&mut self, account: Address, amount: i128)
        requires
            old(self).wf(),
            amount >= 0,
        ensures
            final(self).wf(),
            final(self)@ == (LedgerState {
                balances: old(self)@.balances.insert(DataKey::Balance(account), amount),
                ..old(self)@
            }),
    {
        self.balances.set(DataKey::Balance(account), amount);
    }

    /// The allowance record stored for `owner` and `spender`, if one is.
    pub fn allowance_entry(&self, owner: Address, spender: Address) -> (entry: Option<
        AllowanceData,
    >)
        requires
            self.wf(),
        ensures
            entry == self@.stored_allowance(owner, spender),
            entry matches Some(stored) ==> stored.amount >= 0,
    {
        self.allowances.get(&DataKey::Allowance(AllowanceDataKey { owner, spender }))
    }

    /// Stores `data` as the allowance that `owner` grants to `spender`.
    pub fn set_allowance_entry(&mut self, owner: Address, spender: Address, data: AllowanceData)
        requires
            old(self).wf(),
            data.amount >= 0,
        ensures
            final(self).wf(),
            final(self)@ == (LedgerState {
                allowances: old(self)@.allowances.insert(allowance_key(owner, spender), data),
                ..old(self)@
            }),
    {
        self.allowances.set(DataKey::Allowance(AllowanceDataKey { owner, spender }), data);
    }

    /// Asks the store for the lifetime extension `extension`.
    pub fn extend_ttl(&mut self, extension: Extension)
        requires
            old(self).wf(),
        ensures
            final(self).wf(),
            final(self)@ == old(self)@.with_extension(extension),
    {
        self.extensions.push(extension);
    }

    /// Emits `event`.
    pub fn publish(&mut self, event: Event)
        requires
            old(self).wf(),
        ensures
            final(self).wf(),
            final(self)@ == old(self)@.with_event(event),
    {
        self.events.push(event);
    }

    /// The lifetime extensions asked for so far, oldest first.
    pub fn extensions(&self) -> (extensions: &Vec<Extension>)
        ensures
            extensions@ == self@.extensions,
    {
        &self.extensions
    }

    /// The events emitted so far, oldest first.
    pub fn events(&self) -> (events: &Vec<Event>)
        ensures
            events@ == self@.events,
    {
        &self.events
    }
}

} // verus!
