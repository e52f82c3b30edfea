//! What holds of the operations taken together, proved over the economy as
//! mathematics.

use vstd::prelude::*;
use crate::contract::{
    burn_outcome, is_hot, mint_outcome, minted_amount, register_outcome, transfer_outcome,
    EconomyState, HOT_THRESHOLD,
};
use crate::error::Error;
use crate::ledger::{all_nonnegative, balance_of, fits, move_outcome, ActorId};

verus! {

/// Equalizing is idempotent: right after a successful equalization a second
/// one succeeds, mints nothing and leaves the economy as it is.
pub proof fn equalizing_twice_mints_nothing(s: EconomyState)
    requires
        mint_outcome(s) is Ok,
    ensures
        minted_amount(mint_outcome(s)->Ok_0) == 0,
        mint_outcome(mint_outcome(s)->Ok_0) == mint_outcome(s),
{
}

/// Production then equalization balances the economy: where supply did not
/// already exceed the new production total, supply equals production
/// afterwards; and from a balanced economy the amount minted is exactly the
/// declared value, quantity times price, where that value is not negative.
pub proof fn production_then_mint_balances(s: EconomyState, quantity: int, price_per_unit: int)
    requires
        register_outcome(s, quantity, price_per_unit) is Ok,
        mint_outcome(register_outcome(s, quantity, price_per_unit)->Ok_0) is Ok,
    ensures
        ({
            let declared = register_outcome(s, quantity, price_per_unit)->Ok_0;
            let equalized = mint_outcome(declared)->Ok_0;
            &&& s.total_money_supply <= declared.total_production_value
                ==> equalized.total_money_supply == equalized.total_production_value
            &&& s.total_money_supply == s.total_production_value && quantity * price_per_unit >= 0
                ==> minted_amount(declared) == quantity * price_per_unit
            &&& equalized.total_production_value == s.total_production_value + quantity
                * price_per_unit
        }),
{
}

/// A taxed transfer conserves tokens: between three different accounts, the
/// recipient gains the amount less tax, the treasury gains the tax, the
/// sender loses the amount, and nobody else's balance moves.
pub proof fn tax_is_conserved(
    s: EconomyState,
    from: ActorId,
    to: ActorId,
    amount: int,
    tax: int,
    authorized: bool,
)
    requires
        transfer_outcome(s, from, to, amount, tax, authorized) is Ok,
        from != to,
        from != s.treasury,
        to != s.treasury,
    ensures
        ({
            let after = transfer_outcome(s, from, to, amount, tax, authorized)->Ok_0;
            &&& balance_of(after.balances, to) == balance_of(s.balances, to) + (amount - tax)
            &&& balance_of(after.balances, s.treasury) == balance_of(s.balances, s.treasury) + tax
            &&& balance_of(after.balances, from) == balance_of(s.balances, from) - amount
            &&& forall|other: ActorId|
                other != from && other != to && other != s.treasury ==> balance_of(
                    after.balances,
                    other,
                ) == #[trigger] balance_of(s.balances, other)
            &&& after.total_production_value == s.total_production_value
            &&& after.total_money_supply == s.total_money_supply
        }),
{
}

/// Whoever is neither sender, recipient nor treasury is untouched by a taxed
/// transfer, whichever of the three coincide; the totals are untouched too.
pub proof fn transfer_touches_only_its_parties(
    s: EconomyState,
    from: ActorId,
    to: ActorId,
    amount: int,
    tax: int,
    authorized: bool,
    other: ActorId,
)
    requires
        transfer_outcome(s, from, to, amount, tax, authorized) is Ok,
        other != from,
        other != to,
        other != s.treasury,
    ensures
        ({
            let after = transfer_outcome(s, from, to, amount, tax, authorized)->Ok_0;
            &&& balance_of(after.balances, other) == balance_of(s.balances, other)
            &&& after.total_production_value == s.total_production_value
            &&& after.total_money_supply == s.total_money_supply
            &&& after.treasury == s.treasury
            &&& after.distribution_pool == s.distribution_pool
        }),
{
}

/// A move neither makes nor loses tokens: between two different accounts
/// their sum stays; from an account to itself nothing changes.
pub proof fn move_conserves_tokens(
    balances: Map<ActorId, int>,
    from: ActorId,
    to: ActorId,
    amount: int,
)
    requires
        move_outcome(balances, from, to, amount) is Ok,
    ensures
        ({
            let after = move_outcome(balances, from, to, amount)->Ok_0;
            &&& from != to ==> balance_of(after, from) + balance_of(after, to) == balance_of(
                balances,
                from,
            ) + balance_of(balances, to)
            &&& from != to ==> balance_of(after, from) == balance_of(balances, from) - amount
            &&& from == to ==> balance_of(after, from) == balance_of(balances, from)
            &&& forall|other: ActorId|
                other != from && other != to ==> balance_of(after, other) == #[trigger] balance_of(
                    balances,
                    other,
                )
        }),
{
}

/// Equalizing pays the distribution pool what it mints and nobody else.
pub proof fn mint_pays_the_pool(s: EconomyState, other: ActorId)
    requires
        mint_outcome(s) is Ok,
        other != s.distribution_pool,
    ensures
        ({
            let after = mint_outcome(s)->Ok_0;
            &&& balance_of(after.balances, s.distribution_pool) == balance_of(
                s.balances,
                s.distribution_pool,
            ) + minted_amount(s)
            &&& balance_of(after.balances, other) == balance_of(s.balances, other)
            &&& after.total_money_supply == s.total_money_supply + minted_amount(s)
            &&& after.total_money_supply >= after.total_production_value
            &&& after.total_production_value == s.total_production_value
        }),
{
}

/// An overdraft is rejected: a sender who holds less than the amount cannot
/// transfer it to another account, as long as the recipient's balance has
/// room for what it would receive.
pub proof fn overdraft_is_rejected(
    s: EconomyState,
    from: ActorId,
    to: ActorId,
    amount: int,
    tax: int,
)
    requires
        s.initialized,
        0 <= tax <= amount,
        from != to,
        fits(balance_of(s.balances, from)),
        balance_of(s.balances, from) < amount,
        fits(balance_of(s.balances, to) + (amount - tax)),
    ensures
        transfer_outcome(s, from, to, amount, tax, true) matches Err(why)
            && why == Error::InsufficientBalance,
{
}

/// Burning is symmetric down to the floor: supply always falls by the full
/// loss; production falls by it where it covers the loss and stays where it
/// does not.
pub proof fn burn_is_symmetric_to_the_floor(s: EconomyState, value_lost: int, authorized: bool)
    requires
        burn_outcome(s, value_lost, authorized) is Ok,
    ensures
        ({
            let after = burn_outcome(s, value_lost, authorized)->Ok_0;
            &&& after.total_money_supply == s.total_money_supply - value_lost
            &&& value_lost <= s.total_production_value ==> after.total_production_value
                == s.total_production_value - value_lost
            &&& value_lost > s.total_production_value ==> after.total_production_value
                == s.total_production_value
        }),
{
}

/// The hot window is open at both ends: a declaration is hot exactly when it
/// expires at least one tick and fewer than the threshold from now.
pub proof fn hot_window_is_strict(current_sequence: u32, distance: u32)
    requires
        current_sequence + distance <= u32::MAX,
    ensures
        is_hot((current_sequence + distance) as u32, current_sequence) <==> 0 < distance
            < HOT_THRESHOLD,
{
}

/// No operation makes a balance negative: where every recorded balance is
/// zero or more before a successful equalization, burn or taxed transfer, it
/// is so afterwards.
pub proof fn balances_stay_nonnegative(
    s: EconomyState,
    value_lost: int,
    from: ActorId,
    to: ActorId,
    amount: int,
    tax: int,
    authorized: bool,
)
    requires
        all_nonnegative(s.balances),
    ensures
        mint_outcome(s) matches Ok(after) ==> all_nonnegative(after.balances),
        burn_outcome(s, value_lost, authorized) matches Ok(after) ==> all_nonnegative(
            after.balances,
        ),
        transfer_outcome(s, from, to, amount, tax, authorized) matches Ok(after)
            ==> all_nonnegative(after.balances),
{
}

} // verus!
