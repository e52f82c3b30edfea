//! The balance ledger: who holds how many tokens.

use vstd::prelude::*;
use crate::error::Error;
use crate::host::{host_map_entries, host_map_new, host_map_get, host_map_set, host_map_clone};

verus! {

/// An account identifier. Accounts are told apart by this number alone.
pub type ActorId = u64;

/// Whether an exact integer fits a stored amount.
pub open spec fn fits(x: int) -> bool {
    i128::MIN <= x <= i128::MAX
}

/// What `who` holds: the recorded amount, or zero when nothing is recorded.
pub open spec fn balance_of(balances: Map<ActorId, int>, who: ActorId) -> int {
    if balances.dom().contains(who) {
        balances[who]
    } else {
        0
    }
}

/// The ledger in which nothing is recorded.
pub open spec fn empty_balances() -> Map<ActorId, int> {
    Map::empty()
}

/// The ledger after `who` received `amount`.
pub open spec fn credited(balances: Map<ActorId, int>, who: ActorId, amount: int) -> Map<ActorId, int> {
    balances.insert(who, balance_of(balances, who) + amount)
}

/// The ledger after `who` gave up `amount`.
pub open spec fn debited(balances: Map<ActorId, int>, who: ActorId, amount: int) -> Map<ActorId, int> {
    balances.insert(who, balance_of(balances, who) - amount)
}

/// The ledger after a best-effort removal of `amount` from `who`: the exact
/// amount where the account covers it, everything the account has otherwise.
pub open spec fn debited_floor(balances: Map<ActorId, int>, who: ActorId, amount: int) -> Map<ActorId, int> {
    balances.insert(
        who,
        if balance_of(balances, who) >= amount {
            balance_of(balances, who) - amount
        } else {
            0
        },
    )
}

/// The outcome of crediting: the new ledger, or why there is none.
pub open spec fn credit_outcome(balances: Map<ActorId, int>, who: ActorId, amount: int) -> Result<Map<ActorId, int>, Error> {
    if fits(balance_of(balances, who) + amount) {
        Ok(credited(balances, who, amount))
    } else {
        Err(Error::ArithmeticOverflow)
    }
}

/// The outcome of a best-effort debit.
pub open spec fn debit_floor_outcome(balances: Map<ActorId, int>, who: ActorId, amount: int) -> Result<Map<ActorId, int>, Error> {
    if balance_of(balances, who) >= amount && !fits(balance_of(balances, who) - amount) {
        Err(Error::ArithmeticOverflow)
    } else {
        Ok(debited_floor(balances, who, amount))
    }
}

/// The outcome of a strict debit: an account never pays what it lacks.
pub open spec fn debit_strict_outcome(balances: Map<ActorId, int>, who: ActorId, amount: int) -> Result<Map<ActorId, int>, Error> {
    if balance_of(balances, who) < amount {
        Err(Error::InsufficientBalance)
    } else if !fits(balance_of(balances, who) - amount) {
        Err(Error::ArithmeticOverflow)
    } else {
        Ok(debited(balances, who, amount))
    }
}

/// The outcome of moving `amount` from one account to another: a strict
/// debit, then a credit of what was debited.
pub open spec fn move_outcome(balances: Map<ActorId, int>, from: ActorId, to: ActorId, amount: int) -> Result<Map<ActorId, int>, Error> {
    match debit_strict_outcome(balances, from, amount) {
        Err(e) => Err(e),
        Ok(after_debit) => credit_outcome(after_debit, to, amount),
    }
}

/// Whether a ledger operation that answered `r` and took the ledger from
/// `before` to `after` did what `outcome` prescribes: on success the ledger is
/// the prescribed one; on failure the error is the prescribed one and the
/// ledger is as it was.
pub open spec fn settles(
    outcome: Result<Map<ActorId, int>, Error>,
    r: Result<(), Error>,
    before: Map<ActorId, int>,
    after: Map<ActorId, int>,
) -> bool {
    match outcome {
        Ok(next) => r is Ok && after == next,
        Err(e) => r == Err::<(), Error>(e) && after == before,
    }
}

/// Every recorded balance is zero or more.
pub open spec fn all_nonnegative(balances: Map<ActorId, int>) -> bool {
    forall|who: ActorId| balances.dom().contains(who) ==> #[trigger] balances[who] >= 0
}

/// Token balances by account, kept in a host map.
pub struct BalanceLedger {
    pub entries: soroban_sdk::Map<u64, i128>,
}

impl View for BalanceLedger {
    type V = Map<ActorId, int>;

    open spec fn view(&self) -> Map<ActorId, int> {
        Map::new(
            |who: ActorId| host_map_entries(self.entries).dom().contains(who),
            |who: ActorId| host_map_entries(self.entries)[who] as int,
        )
    }
}

impl BalanceLedger {
    /// A ledger with no entries.
    pub fn new(env: &soroban_sdk::Env) -> (ledger: BalanceLedger)
        ensures
            ledger@ == empty_balances(),
    {
        let ledger = BalanceLedger { entries: host_map_new(env) };
        assert(ledger@ =~= empty_balances());
        ledger
    }

    /// An independent copy: writes to one do not show in the other.
    pub fn snapshot(&self) -> (copy: BalanceLedger)
        ensures
            copy@ == self@,
    {
        let copy = BalanceLedger { entries: host_map_clone(&self.entries) };
        assert(copy@ =~= self@);
        copy
    }

    /// What `who` holds; zero for an account never written.
    pub fn balance(&self, who: ActorId) -> (amount: i128)
        ensures
            amount == balance_of(self@, who),
    {
        match host_map_get(&self.entries, who) {
            Some(v) => v,
            None => 0,
        }
    }

    fn put(&mut self, who: ActorId, amount: i128)
        ensures
            final(self)@ == old(self)@.insert(who, amount as int),
    {
        host_map_set(&mut self.entries, who, amount);
        assert(self@ =~= old(self)@.insert(who, amount as int));
    }

    /// Adds `amount` to what `who` holds.
    pub fn credit(&mut self, who: ActorId, amount: i128) -> (r: Result<(), Error>)
        ensures
            settles(credit_outcome(old(self)@, who, amount as int), r, old(self)@, final(self)@),
    {
        let current = self.balance(who);
        match current.checked_add(amount) {
            Some(next) => {
                self.put(who, next);
                Ok(())
            },
            None => Err(Error::ArithmeticOverflow),
        }
    }

    /// Removes `amount` from what `who` holds, or all of it where the account
    /// holds less.
    pub fn debit_floor(&mut self, who: ActorId, amount: i128) -> (r: Result<(), Error>)
        ensures
            settles(debit_floor_outcome(old(self)@, who, amount as int), r, old(self)@, final(self)@),
    {
        let current = self.balance(who);
        if current >= amount {
            match current.checked_sub(amount) {
                Some(next) => {
                    self.put(who, next);
                    Ok(())
                },
                None => Err(Error::ArithmeticOverflow),
            }
        } else {
            self.put(who, 0);
            Ok(())
        }
    }

    /// Removes exactly `amount` from what `who` holds, or fails where the
    /// account holds less.
    pub fn debit_strict(&mut self, who: ActorId, amount: i128) -> (r: Result<(), Error>)
        ensures
            settles(debit_strict_outcome(old(self)@, who, amount as int), r, old(self)@, final(self)@),
    {
        let current = self.balance(who);
        if current < amount {
            return Err(Error::InsufficientBalance);
        }
        match current.checked_sub(amount) {
            Some(next) => {
                self.put(who, next);
                Ok(())
            },
            None => Err(Error::ArithmeticOverflow),
        }
    }

    /// Moves `amount` from `from` to `to`: both accounts change, or neither.
    pub fn move_funds(&mut self, from: ActorId, to: ActorId, amount: i128) -> (r: Result<(), Error>)
        ensures
            settles(move_outcome(old(self)@, from, to, amount as int), r, old(self)@, final(self)@),
    {
        let mut work = self.snapshot();
        match work.debit_strict(from, amount) {
            Err(e) => Err(e),
            Ok(()) => match work.credit(to, amount) {
                Err(e) => Err(e),
                Ok(()) => {
                    *self = work;
                    Ok(())
                },
            },
        }
    }
}

} // verus!
