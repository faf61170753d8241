//! A fungible-token ledger with time-bounded allowances, account freezing and
//! token metadata, kept in an expiring three-tier key-value store.
//!
//! Every operation is an executable function whose contract is stated over the
//! mathematical state of the ledger ([`ledger::LedgerState`]) and proved.

pub mod admin;
pub mod allowance;
pub mod auth;
pub mod balance;
pub mod constants;
pub mod contract;
pub mod error;
pub mod laws;
pub mod ledger;
pub mod metadata;
pub mod storage_types;
pub mod store;
pub mod supply;
pub mod text;
pub mod transitions;

pub use crate::auth::Authenticator;
pub use crate::auth::Signers;
pub use crate::constants::BALANCE_TTL_FULL;
pub use crate::constants::BALANCE_TTL_THRESHOLD;
pub use crate::constants::DAY_IN_LEDGERS;
pub use crate::constants::INSTANCE_TTL_FULL;
pub use crate::constants::INSTANCE_TTL_THRESHOLD;
pub use crate::contract::TokenContract;
pub use crate::error::Error;
pub use crate::ledger::Event;
pub use crate::ledger::Extension;
pub use crate::ledger::Ledger;
pub use crate::storage_types::Address;
pub use crate::storage_types::AllowanceData;
pub use crate::storage_types::AllowanceDataKey;
pub use crate::storage_types::DataKey;
pub use crate::storage_types::Tier;
pub use crate::storage_types::TokenMetadata;
pub use crate::store::Store;
