//! Storage lifetimes, in ledger sequences.

use vstd::prelude::*;

verus! {

/// Ledger sequences closed in one day; the ledger sequence is the unit of time.
pub const DAY_IN_LEDGERS: u32 = 17280;

/// Lifetime that the instance tier is extended to.
pub const INSTANCE_TTL_FULL: u32 = 7 * DAY_IN_LEDGERS;

/// Remaining lifetime below which the instance tier is extended.
pub const INSTANCE_TTL_THRESHOLD: u32 = INSTANCE_TTL_FULL - DAY_IN_LEDGERS;

/// Lifetime that a balance entry is extended to.
pub const BALANCE_TTL_FULL: u32 = 30 * DAY_IN_LEDGERS;

/// Remaining lifetime below which a balance entry is extended.
pub const BALANCE_TTL_THRESHOLD: u32 = BALANCE_TTL_FULL - DAY_IN_LEDGERS;

/// Largest number of decimals a token may declare.
pub const MAX_DECIMAL: u32 = 18;

} // verus!
