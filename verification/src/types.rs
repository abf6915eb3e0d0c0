//! Closed sets of the domain: category types, rarity tiers and the errors of
//! the ledger.

use vstd::prelude::*;

verus! {

/// The identifier of an account.
pub type AccountId = String;

/// The identifier of a token.
pub type TokenId = String;

/// An amount of money, in the smallest unit.
pub type Balance = u128;

/// The view of an account or token identifier.
pub type Name = Seq<char>;

/// The category of a token.
#[derive(Clone, Copy, Debug, PartialEq, Eq, Structural)]
pub enum PlayerType {
    FieldPlayer,
    Goalie,
}

/// The rarity tier of a token, from the lowest to the highest.
#[derive(Clone, Copy, Debug, PartialEq, Eq, Structural)]
pub enum Rarity {
    Bronze,
    Silver,
    Gold,
    Platinum,
    Brilliant,
}

/// Why an operation was refused. Every refusal leaves the ledger as it was.
#[derive(Clone, Copy, Debug, PartialEq, Eq, Structural)]
pub enum LedgerError {
    /// The token identifier has no record.
    TokenNotFound,
    /// The caller is neither the owner nor an approved account.
    Unauthorized,
    /// The caller is approved, but under another approval id than the one given.
    ApprovalMismatch,
    /// The receiver already owns the token.
    NoOpTransferRejected,
    /// Less was attached than the operation costs.
    InsufficientPayment,
    /// The attached payment does not meet the fixed fee of the operation.
    PaymentPrecondition,
    /// A record names an owner whose index entry does not hold the token.
    InvariantViolation,
    /// A token that should be in a category pool is not in it.
    PoolInconsistency,
}

} // verus!
