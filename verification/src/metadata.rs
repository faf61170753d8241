//! The token's descriptor: decimals, name and symbol, recorded in the
//! instance tier when the ledger is initialized and only read afterwards.

use vstd::prelude::*;
use crate::ledger::Ledger;
use crate::ledger::LedgerState;
use crate::storage_types::TokenMetadata;

verus! {

/// Whether a descriptor is recorded.
pub fn has_metadata(ledger: &Ledger) -> (present: bool)
    ensures
        present == ledger@.metadata is Some,
{
    ledger.metadata().is_some()
}

/// The number of decimals of an initialized ledger's token.
pub fn read_decimal(ledger: &Ledger) -> (decimal: u32)
    requires
        ledger@.metadata is Some,
    ensures
        decimal == ledger@.metadata->0.decimal,
{
    ledger.metadata().unwrap().decimal
}

/// The name of an initialized ledger's token.
pub fn read_name(ledger: &Ledger) -> (name: String)
    requires
        ledger@.metadata is Some,
    ensures
        name@ == ledger@.metadata->0.name,
{
    ledger.metadata().unwrap().name.clone()
}

/// The symbol of an initialized ledger's token.
pub fn read_symbol(ledger: &Ledger) -> (symbol: String)
    requires
        ledger@.metadata is Some,
    ensures
        symbol@ == ledger@.metadata->0.symbol,
{
    ledger.metadata().unwrap().symbol.clone()
}

/// Records `metadata` as the token's descriptor.
pub fn write_metadata(ledger: &mut Ledger, metadata: TokenMetadata)
    requires
        old(ledger).wf(),
    ensures
        final(ledger).wf(),
        final(ledger)@ == (LedgerState { metadata: Some(metadata@), ..old(ledger)@ }),
{
    ledger.set_metadata(metadata);
}

} // verus!
