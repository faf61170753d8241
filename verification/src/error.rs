//! The ways in which an operation on the ledger fails.

use vstd::prelude::*;
use vstd::string::StringExecFns;
use crate::text::append_decimal;
use crate::text::decimal_text;

verus! {

/// Why an operation was refused. A refused operation leaves the ledger as it was.
#[derive(Clone, Copy, Debug, PartialEq, Eq, Structural)]
pub enum Error {
    /// The ledger already has an administrator.
    AlreadyInitialized,
    /// More than eighteen decimals were asked for.
    InvalidDecimal,
    /// The account that has to authorize the operation did not.
    Unauthorized,
    /// An amount below zero was given; the variant carries it.
    NegativeAmount(i128),
    /// The account that value would leave is frozen.
    AccountFrozen,
    /// The balance is smaller than the amount to take from it.
    InsufficientBalance,
    /// The allowance still in force is smaller than the amount to spend.
    InsufficientAllowance,
    /// A positive allowance was given an expiration that has already passed.
    InvalidExpiration,
    /// A balance would leave the range of a signed 128-bit integer.
    ArithmeticOverflow,
}

impl Error {
    /// The message of this error, as a sequence of characters.
    pub open spec fn message_text(self) -> Seq<char> {
        match self {
            Error::AlreadyInitialized => "Already initialized"@,
            Error::InvalidDecimal => "Decimal must not be greater than 18"@,
            Error::Unauthorized => "Unauthorized"@,
            Error::NegativeAmount(amount) => "Negative amount is not allowed: "@ + decimal_text(
                amount as int,
            ),
            Error::AccountFrozen => "Account is frozen"@,
            Error::InsufficientBalance => "Insufficient balance"@,
            Error::InsufficientAllowance => "Insufficient allowance"@,
            Error::InvalidExpiration =>
                "expiration_ledgers can't be less than the current ledgers when amount > 0"@,
            Error::ArithmeticOverflow => "Arithmetic overflow"@,
        }
    }

    /// The message of this error for a human reader; for a negative amount it
    /// ends with the amount in decimal notation.
    pub fn message(&self) -> (text: String)
        ensures
            text@ == self.message_text(),
    {
        match self {
            Error::AlreadyInitialized => String::from_str("Already initialized"),
            Error::InvalidDecimal => String::from_str("Decimal must not be greater than 18"),
            Error::Unauthorized => String::from_str("Unauthorized"),
            Error::NegativeAmount(amount) => {
                let mut text = String::from_str("Negative amount is not allowed: ");
                append_decimal(&mut text, *amount);
                text
            },
            Error::AccountFrozen => String::from_str("Account is frozen"),
            Error::InsufficientBalance => String::from_str("Insufficient balance"),
            Error::InsufficientAllowance => String::from_str("Insufficient allowance"),
            Error::InvalidExpiration => String::from_str(
                "expiration_ledgers can't be less than the current ledgers when amount > 0",
            ),
            Error::ArithmeticOverflow => String::from_str("Arithmetic overflow"),
        }
    }
}

} // verus!
