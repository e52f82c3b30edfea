//! The notifications an operation hands back for delivery. The library
//! decides what is emitted; delivering it is the caller's business.

use vstd::prelude::*;

verus! {

/// A production declaration was added to the production total.
#[derive(Clone, Debug, PartialEq, Eq)]
pub struct ProductionAddedEvent {
    pub product_type: soroban_sdk::Symbol,
    pub value: i128,
}

/// The equalizer minted `amount` into the distribution pool.
#[derive(Clone, Copy, Debug, PartialEq, Eq, Structural)]
pub struct MintedEvent {
    pub amount: i128,
}

/// Spoiled value of `amount` left the economy.
#[derive(Clone, Copy, Debug, PartialEq, Eq, Structural)]
pub struct BurnedEvent {
    pub amount: i128,
}

/// A taxed transfer of `amount`, tax included, went through.
#[derive(Clone, Copy, Debug, PartialEq, Eq, Structural)]
pub struct TransactionVelocityEvent {
    pub amount: i128,
}

/// A declaration that expires within the hot threshold was added.
#[derive(Clone, Debug, PartialEq, Eq)]
pub struct HotTokenMintedEvent {
    pub product_type: soroban_sdk::Symbol,
    pub amount: i128,
    pub expiration_ledger: u32,
}

} // verus!
