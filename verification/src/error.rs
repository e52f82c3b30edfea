use vstd::prelude::*;

verus! {

/// Why an operation was rejected. A rejected operation changes nothing.
#[derive(Clone, Copy, Debug, PartialEq, Eq, Structural)]
pub enum Error {
    /// The caller did not carry the authorization the operation demands.
    Unauthorized,
    /// A strict debit asked for more than the account holds.
    InsufficientBalance,
    /// An exact integer result does not fit in 128 signed bits.
    ArithmeticOverflow,
    /// An argument is outside what the operation accepts.
    InvalidInput,
    /// The economy has not been set up yet.
    NotInitialized,
}

} // verus!
