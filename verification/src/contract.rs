//! The economy: production total, money supply, the two pool accounts and
//! the ledger, with the operations that move them.

use vstd::prelude::*;
use crate::error::Error;
use crate::events::{
    BurnedEvent, HotTokenMintedEvent, MintedEvent, ProductionAddedEvent, TransactionVelocityEvent,
};
use crate::ledger::{
    balance_of, credit_outcome, debit_floor_outcome, empty_balances, fits, move_outcome, ActorId,
    BalanceLedger,
};

verus! {

/// A declaration is hot when it expires after now and fewer than this many
/// ticks from now.
pub const HOT_THRESHOLD: u32 = 17280;

/// The economy as mathematics.
pub struct EconomyState {
    pub initialized: bool,
    pub total_production_value: int,
    pub total_money_supply: int,
    pub treasury: ActorId,
    pub distribution_pool: ActorId,
    pub balances: Map<ActorId, int>,
}

/// Whether a declaration that expires at `expiration` is hot at
/// `current_sequence`.
pub open spec fn is_hot(expiration: u32, current_sequence: u32) -> bool {
    expiration > current_sequence && expiration - current_sequence < HOT_THRESHOLD
}

/// The hot-token notification a declaration calls for, if any.
pub open spec fn hot_event(
    product_type: soroban_sdk::Symbol,
    value: i128,
    expiration: u32,
    current_sequence: u32,
) -> Option<HotTokenMintedEvent> {
    if is_hot(expiration, current_sequence) {
        Some(HotTokenMintedEvent { product_type, amount: value, expiration_ledger: expiration })
    } else {
        None
    }
}

/// The economy before it is set up: nothing declared, nothing minted,
/// nothing recorded.
pub open spec fn blank_economy() -> EconomyState {
    EconomyState {
        initialized: false,
        total_production_value: 0,
        total_money_supply: 0,
        treasury: 0,
        distribution_pool: 0,
        balances: empty_balances(),
    }
}

/// Setting up: allowed once; totals start at zero.
pub open spec fn initialize_outcome(
    s: EconomyState,
    treasury: ActorId,
    distribution_pool: ActorId,
) -> Result<EconomyState, Error> {
    if s.initialized {
        Err(Error::InvalidInput)
    } else {
        Ok(
            EconomyState {
                initialized: true,
                total_production_value: 0,
                total_money_supply: 0,
                treasury,
                distribution_pool,
                balances: s.balances,
            },
        )
    }
}

/// Declaring production: the production total grows by quantity times price.
pub open spec fn register_outcome(
    s: EconomyState,
    quantity: int,
    price_per_unit: int,
) -> Result<EconomyState, Error> {
    if !s.initialized {
        Err(Error::NotInitialized)
    } else if !fits(quantity * price_per_unit)
        || !fits(s.total_production_value + quantity * price_per_unit) {
        Err(Error::ArithmeticOverflow)
    } else {
        Ok(
            EconomyState {
                total_production_value: s.total_production_value + quantity * price_per_unit,
                ..s
            },
        )
    }
}

/// What the equalizer mints: the shortfall of supply against production,
/// nothing where there is none.
pub open spec fn minted_amount(s: EconomyState) -> int {
    if s.total_production_value > s.total_money_supply {
        s.total_production_value - s.total_money_supply
    } else {
        0
    }
}

/// Equalizing: supply rises to production and the distribution pool receives
/// the difference; supply at or above production is left alone.
pub open spec fn mint_outcome(s: EconomyState) -> Result<EconomyState, Error> {
    if !s.initialized {
        Err(Error::NotInitialized)
    } else if minted_amount(s) == 0 {
        Ok(s)
    } else if !fits(minted_amount(s)) {
        Err(Error::ArithmeticOverflow)
    } else {
        match credit_outcome(s.balances, s.distribution_pool, minted_amount(s)) {
            Err(e) => Err(e),
            Ok(balances) => Ok(
                EconomyState {
                    total_money_supply: s.total_money_supply + minted_amount(s),
                    balances,
                    ..s
                },
            ),
        }
    }
}

/// The production total after a loss: reduced where it covers the loss,
/// untouched where it does not.
pub open spec fn production_after_loss(total_production_value: int, value_lost: int) -> int {
    if total_production_value >= value_lost {
        total_production_value - value_lost
    } else {
        total_production_value
    }
}

/// Burning: production falls with a floor, the pool is debited as far as it
/// reaches, and supply falls by the full loss.
pub open spec fn burn_outcome(
    s: EconomyState,
    value_lost: int,
    authorized: bool,
) -> Result<EconomyState, Error> {
    if !authorized {
        Err(Error::Unauthorized)
    } else if !s.initialized {
        Err(Error::NotInitialized)
    } else if !fits(production_after_loss(s.total_production_value, value_lost))
        || !fits(s.total_money_supply - value_lost) {
        Err(Error::ArithmeticOverflow)
    } else {
        match debit_floor_outcome(s.balances, s.distribution_pool, value_lost) {
            Err(e) => Err(e),
            Ok(balances) => Ok(
                EconomyState {
                    total_production_value: production_after_loss(
                        s.total_production_value,
                        value_lost,
                    ),
                    total_money_supply: s.total_money_supply - value_lost,
                    balances,
                    ..s
                },
            ),
        }
    }
}

/// A taxed transfer: the amount less tax moves to the recipient, then the tax
/// moves to the treasury, each move checked on its own.
pub open spec fn transfer_outcome(
    s: EconomyState,
    from: ActorId,
    to: ActorId,
    amount: int,
    tax: int,
    authorized: bool,
) -> Result<EconomyState, Error> {
    if !authorized {
        Err(Error::Unauthorized)
    } else if !s.initialized {
        Err(Error::NotInitialized)
    } else if amount < 0 || tax < 0 || tax > amount {
        Err(Error::InvalidInput)
    } else {
        match move_outcome(s.balances, from, to, amount - tax) {
            Err(e) => Err(e),
            Ok(after_net) => match move_outcome(after_net, from, s.treasury, tax) {
                Err(e) => Err(e),
                Ok(balances) => Ok(EconomyState { balances, ..s }),
            },
        }
    }
}

/// Whether an operation that answered `r` and took the economy from `before`
/// to `after` did what `outcome` prescribes: on success the economy is the
/// prescribed one; on failure the error is the prescribed one and the economy
/// is as it was.
pub open spec fn lands<T>(
    outcome: Result<EconomyState, Error>,
    r: Result<T, Error>,
    before: EconomyState,
    after: EconomyState,
) -> bool {
    match outcome {
        Ok(next) => r is Ok && after == next,
        Err(e) => (r matches Err(why) && why == e) && after == before,
    }
}

/// The economy, owned as one value and handed to each operation.
pub struct RealFlowContract {
    pub initialized: bool,
    pub total_production_value: i128,
    pub total_money_supply: i128,
    pub treasury: ActorId,
    pub distribution_pool: ActorId,
    pub ledger: BalanceLedger,
}

impl View for RealFlowContract {
    type V = EconomyState;

    open spec fn view(&self) -> EconomyState {
        EconomyState {
            initialized: self.initialized,
            total_production_value: self.total_production_value as int,
            total_money_supply: self.total_money_supply as int,
            treasury: self.treasury,
            distribution_pool: self.distribution_pool,
            balances: self.ledger@,
        }
    }
}

impl RealFlowContract {
    /// An economy that has not been set up: no pools, no balances.
    pub fn new(env: &soroban_sdk::Env) -> (contract: RealFlowContract)
        ensures
            contract@ == blank_economy(),
    {
        RealFlowContract {
            initialized: false,
            total_production_value: 0,
            total_money_supply: 0,
            treasury: 0,
            distribution_pool: 0,
            ledger: BalanceLedger::new(env),
        }
    }

    /// Sets the treasury and the distribution pool and zeroes the totals. A
    /// second call is rejected with `InvalidInput`.
    pub fn initialize(
        &mut self,
        treasury: ActorId,
        distribution_pool: ActorId,
    ) -> (r: Result<(), Error>)
        ensures
            lands(
                initialize_outcome(old(self)@, treasury, distribution_pool),
                r,
                old(self)@,
                final(self)@,
            ),
    {
        if self.initialized {
            return Err(Error::InvalidInput);
        }
        self.initialized = true;
        self.total_production_value = 0;
        self.total_money_supply = 0;
        self.treasury = treasury;
        self.distribution_pool = distribution_pool;
        Ok(())
    }

    /// Adds a declaration's value, quantity times unit price, to the
    /// production total. Hands back the notification of the addition and,
    /// where the declaration is hot at `current_sequence`, the hot-token
    /// notification. Balances do not change.
    pub fn register_production(
        &mut self,
        product_type: soroban_sdk::Symbol,
        quantity: i128,
        price_per_unit: i128,
        expiration_ledger: u32,
        current_sequence: u32,
    ) -> (r: Result<(ProductionAddedEvent, Option<HotTokenMintedEvent>), Error>)
        ensures
            lands(
                register_outcome(old(self)@, quantity as int, price_per_unit as int),
                r,
                old(self)@,
                final(self)@,
            ),
            r matches Ok(events) ==> events.0.product_type == product_type
                && events.0.value == quantity * price_per_unit
                && events.1 == hot_event(product_type, events.0.value, expiration_ledger, current_sequence),
    {
        if !self.initialized {
            return Err(Error::NotInitialized);
        }
        let value: i128 = match quantity.checked_mul(price_per_unit) {
            Some(v) => v,
            None => {
                return Err(Error::ArithmeticOverflow);
            },
        };
        let next: i128 = match self.total_production_value.checked_add(value) {
            Some(n) => n,
            None => {
                return Err(Error::ArithmeticOverflow);
            },
        };
        self.total_production_value = next;
        let hot = if expiration_ledger > current_sequence
            && expiration_ledger - current_sequence < HOT_THRESHOLD {
            Some(
                HotTokenMintedEvent {
                    product_type: product_type.clone(),
                    amount: value,
                    expiration_ledger,
                },
            )
        } else {
            None
        };
        Ok((ProductionAddedEvent { product_type, value }, hot))
    }

    /// Mints the shortfall of supply against production into the
    /// distribution pool and hands back the amount minted with its
    /// notification; zero and no notification where there is no shortfall.
    pub fn check_and_mint(&mut self) -> (r: Result<(i128, Option<MintedEvent>), Error>)
        ensures
            lands(mint_outcome(old(self)@), r, old(self)@, final(self)@),
            r matches Ok(minted) ==> minted.0 == minted_amount(old(self)@)
                && (minted.0 > 0 ==> minted.1 == Some(MintedEvent { amount: minted.0 }))
                && (minted.0 <= 0 ==> minted.1 is None),
    {
        if !self.initialized {
            return Err(Error::NotInitialized);
        }
        if self.total_production_value <= self.total_money_supply {
            return Ok((0, None));
        }
        let gap: i128 = match self.total_production_value.checked_sub(self.total_money_supply) {
            Some(g) => g,
            None => {
                return Err(Error::ArithmeticOverflow);
            },
        };
        match self.ledger.credit(self.distribution_pool, gap) {
            Err(e) => Err(e),
            Ok(()) => {
                self.total_money_supply = self.total_production_value;
                Ok((gap, Some(MintedEvent { amount: gap })))
            },
        }
    }

    /// Removes spoiled value: from the production total where the total
    /// covers it, from the distribution pool as far as the pool reaches, and
    /// in full from the money supply, which may fall below zero.
    pub fn burn_rotting_assets(
        &mut self,
        value_lost: i128,
        authorized: bool,
    ) -> (r: Result<BurnedEvent, Error>)
        ensures
            lands(
                burn_outcome(old(self)@, value_lost as int, authorized),
                r,
                old(self)@,
                final(self)@,
            ),
            r matches Ok(event) ==> event.amount == value_lost,
    {
        if !authorized {
            return Err(Error::Unauthorized);
        }
        if !self.initialized {
            return Err(Error::NotInitialized);
        }
        let next_production: i128 = if self.total_production_value >= value_lost {
            match self.total_production_value.checked_sub(value_lost) {
                Some(p) => p,
                None => {
                    return Err(Error::ArithmeticOverflow);
                },
            }
        } else {
            self.total_production_value
        };
        let next_supply: i128 = match self.total_money_supply.checked_sub(value_lost) {
            Some(s) => s,
            None => {
                return Err(Error::ArithmeticOverflow);
            },
        };
        match self.ledger.debit_floor(self.distribution_pool, value_lost) {
            Err(e) => Err(e),
            Ok(()) => {
                self.total_production_value = next_production;
                self.total_money_supply = next_supply;
                Ok(BurnedEvent { amount: value_lost })
            },
        }
    }

    /// Moves `amount` less `tax` from `from` to `to` and `tax` from `from` to
    /// the treasury, or changes nothing. The notification carries the full
    /// `amount`.
    pub fn transfer_with_tax(
        &mut self,
        from: ActorId,
        to: ActorId,
        amount: i128,
        tax: i128,
        authorized: bool,
    ) -> (r: Result<TransactionVelocityEvent, Error>)
        ensures
            lands(
                transfer_outcome(old(self)@, from, to, amount as int, tax as int, authorized),
                r,
                old(self)@,
                final(self)@,
            ),
            r matches Ok(event) ==> event.amount == amount,
    {
        if !authorized {
            return Err(Error::Unauthorized);
        }
        if !self.initialized {
            return Err(Error::NotInitialized);
        }
        if amount < 0 || tax < 0 || tax > amount {
            return Err(Error::InvalidInput);
        }
        let net: i128 = amount - tax;
        let mut work = self.ledger.snapshot();
        match work.move_funds(from, to, net) {
            Err(e) => Err(e),
            Ok(()) => match work.move_funds(from, self.treasury, tax) {
                Err(e) => Err(e),
                Ok(()) => {
                    self.ledger = work;
                    Ok(TransactionVelocityEvent { amount })
                },
            },
        }
    }

    /// What `who` holds; zero for an account never written.
    pub fn get_balance(&self, who: ActorId) -> (amount: i128)
        ensures
            amount == balance_of(self@.balances, who),
    {
        self.ledger.balance(who)
    }

    /// The production total.
    pub fn get_total_production(&self) -> (total: i128)
        ensures
            total == self@.total_production_value,
    {
        self.total_production_value
    }

    /// The money supply.
    pub fn get_total_supply(&self) -> (total: i128)
        ensures
            total == self@.total_money_supply,
    {
        self.total_money_supply
    }
}

} // verus!
