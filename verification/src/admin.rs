//! The administrator: one account, recorded in the instance tier.

use vstd::prelude::*;
use crate::ledger::Ledger;
use crate::ledger::LedgerState;
use crate::storage_types::Address;

verus! {

/// Whether an administrator is recorded, that is, whether the ledger has been
/// initialized.
pub fn has_admin(ledger: &Ledger) -> (present: bool)
    ensures
        present == ledger@.admin is Some,
{
    ledger.admin().is_some()
}

/// The administrator of an initialized ledger.
pub fn read_admin(ledger: &Ledger) -> (admin: Address)
    requires
        ledger@.admin is Some,
    ensures
        ledger@.admin == Some(admin),
{
    ledger.admin().unwrap()
}

/// Records `address` as the administrator, in place of any recorded before.
pub fn write_admin(ledger: &mut Ledger, address: &Address)
    requires
        old(ledger).wf(),
    ensures
        final(ledger).wf(),
        final(ledger)@ == (LedgerState { admin: Some(*address), ..old(ledger)@ }),
{
    ledger.set_admin(*address);
}

} // verus!
