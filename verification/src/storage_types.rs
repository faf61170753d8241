//! Keys and values of the ledger's storage.

use vstd::prelude::*;

verus! {

/// Identifier of an account.
#[derive(Clone, Copy, Debug, PartialEq, Eq, Hash, Structural)]
pub struct Address {
    pub id: u64,
}

impl Address {
    /// The account with identifier `id`.
    pub fn new(id: u64) -> (address: Address)
        ensures
            address == (Address { id }),
    {
        Address { id }
    }
}

/// Key of an allowance: who granted it, and to whom.
#[derive(Clone, Copy, Debug, PartialEq, Eq, Hash, Structural)]
pub struct AllowanceDataKey {
    pub owner: Address,
    pub spender: Address,
}

/// An allowance as stored: the amount that may still be spent, and the last
/// ledger sequence at which it may be spent.
#[derive(Clone, Copy, Debug, PartialEq, Eq, Structural)]
pub struct AllowanceData {
    pub amount: i128,
    pub expiration_ledgers: u32,
}

/// The three storage tiers, which differ in how long an entry lives.
#[derive(Clone, Copy, Debug, PartialEq, Eq, Structural)]
pub enum Tier {
    /// One entry per ledger, with one shared lifetime.
    Instance,
    /// Durable entries, each with a lifetime of its own.
    Persistent,
    /// Entries that disappear once their lifetime has lapsed.
    Temporary,
}

/// Key of a storage entry.
#[derive(Clone, Copy, Debug, PartialEq, Eq, Hash, Structural)]
pub enum DataKey {
    Allowance(AllowanceDataKey),
    Balance(Address),
    Frozen(Address),
    Admin,
    Metadata,
}

impl DataKey {
    /// The tier that entries under this key live in.
    pub open spec fn spec_tier(&self) -> Tier {
        match *self {
            DataKey::Allowance(_) => Tier::Temporary,
            DataKey::Balance(_) => Tier::Persistent,
            DataKey::Frozen(_) => Tier::Instance,
            DataKey::Admin => Tier::Instance,
            DataKey::Metadata => Tier::Instance,
        }
    }

    /// The tier that entries under this key live in.
    #[verifier::when_used_as_spec(spec_tier)]
    pub fn tier(&self) -> (tier: Tier)
        ensures
            tier == self.spec_tier(),
    {
        match self {
            DataKey::Allowance(_) => Tier::Temporary,
            DataKey::Balance(_) => Tier::Persistent,
            DataKey::Frozen(_) => Tier::Instance,
            DataKey::Admin => Tier::Instance,
            DataKey::Metadata => Tier::Instance,
        }
    }
}

/// Descriptor of the token, written once when the ledger is initialized.
#[derive(Debug)]
pub struct TokenMetadata {
    pub decimal: u32,
    pub name: String,
    pub symbol: String,
}

/// What a [`TokenMetadata`] holds, as mathematical values.
pub struct MetadataView {
    pub decimal: u32,
    pub name: Seq<char>,
    pub symbol: Seq<char>,
}

impl View for TokenMetadata {
    type V = MetadataView;

    open spec fn view(&self) -> MetadataView {
        MetadataView { decimal: self.decimal, name: self.name@, symbol: self.symbol@ }
    }
}

impl Clone for TokenMetadata {
    fn clone(&self) -> (copy: TokenMetadata)
        ensures
            copy@ == self@,
    {
        TokenMetadata {
            decimal: self.decimal,
            name: self.name.clone(),
            symbol: self.symbol.clone(),
        }
    }
}

} // verus!
