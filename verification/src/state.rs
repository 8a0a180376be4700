//! The mathematical model of the ledger: a finite map from participants to
//! balances beside a total, and what staking and unstaking do to it.

use crate::amount::max_amount;
use crate::error::StakingError;
use crate::participant::Participant;
use vstd::prelude::*;

verus! {

/// The sum of the balances that a finite map holds.
pub open spec fn sum_of(balances: Map<Participant, nat>) -> nat
    decreases balances.dom().len(),
    when balances.dom().finite()
{
    if balances.dom().len() == 0 {
        0
    } else {
        let p = balances.dom().choose();
        balances[p] + sum_of(balances.remove(p))
    }
}

/// Any one balance can be taken out of the sum first.
pub proof fn lemma_sum_of_remove(balances: Map<Participant, nat>, p: Participant)
    requires
        balances.dom().finite(),
        balances.dom().contains(p),
    ensures
        sum_of(balances) == balances[p] + sum_of(balances.remove(p)),
    decreases balances.dom().len(),
{
    let c = balances.dom().choose();
    if c != p {
        let without_c = balances.remove(c);
        let without_p = balances.remove(p);
        lemma_sum_of_remove(without_c, p);
        lemma_sum_of_remove(without_p, c);
        assert(without_c.remove(p) =~= without_p.remove(c));
    }
}

/// Setting one balance changes the sum by the difference to the balance
/// that was there, absent counting as zero.
pub proof fn lemma_sum_of_insert(balances: Map<Participant, nat>, p: Participant, amount: nat)
    requires
        balances.dom().finite(),
    ensures
        sum_of(balances.insert(p, amount)) + (if balances.dom().contains(p) {
            balances[p]
        } else {
            0
        }) == sum_of(balances) + amount,
{
    let updated = balances.insert(p, amount);
    lemma_sum_of_remove(updated, p);
    assert(updated.remove(p) =~= balances.remove(p));
    if balances.dom().contains(p) {
        lemma_sum_of_remove(balances, p);
    } else {
        assert(balances.remove(p) =~= balances);
    }
}

/// No balance exceeds the sum of all.
pub proof fn lemma_sum_of_bounds_each(balances: Map<Participant, nat>, p: Participant)
    requires
        balances.dom().finite(),
        balances.dom().contains(p),
    ensures
        balances[p] <= sum_of(balances),
{
    lemma_sum_of_remove(balances, p);
}

/// What the ledger holds at one moment.
pub struct LedgerState {
    /// The balance of each participant that has one on record.
    pub balances: Map<Participant, nat>,
    /// The total staked.
    pub total: nat,
}

impl LedgerState {
    /// The state before anything was staked.
    pub open spec fn empty() -> LedgerState {
        LedgerState { balances: Map::empty(), total: 0 }
    }

    /// The balance of a participant: zero for one without a record.
    pub open spec fn balance_of(self, p: Participant) -> nat {
        if self.balances.dom().contains(p) {
            self.balances[p]
        } else {
            0
        }
    }

    /// This state with the balance of `p` overwritten.
    pub open spec fn with_balance(self, p: Participant, amount: nat) -> LedgerState {
        LedgerState { balances: self.balances.insert(p, amount), total: self.total }
    }

    /// This state with the total overwritten.
    pub open spec fn with_total(self, total: nat) -> LedgerState {
        LedgerState { balances: self.balances, total }
    }

    /// The accounting invariant: finitely many balances are on record and
    /// the total is their sum.
    pub open spec fn balanced(self) -> bool {
        &&& self.balances.dom().finite()
        &&& self.total == sum_of(self.balances)
    }

    /// This state after `amount` was added to the balance of `p` and to the
    /// total.
    pub open spec fn credited(self, p: Participant, amount: nat) -> LedgerState {
        LedgerState {
            balances: self.balances.insert(p, self.balance_of(p) + amount),
            total: self.total + amount,
        }
    }

    /// This state after `amount` was taken from the balance of `p` and from
    /// the total.
    pub open spec fn debited(self, p: Participant, amount: nat) -> LedgerState
        recommends
            amount <= self.balance_of(p),
            amount <= self.total,
    {
        LedgerState {
            balances: self.balances.insert(p, (self.balance_of(p) - amount) as nat),
            total: (self.total - amount) as nat,
        }
    }
}

/// How a stake of `amount` by `p` ends, given whether the host moved the
/// value into escrow.
pub open spec fn stake_result(
    s: LedgerState,
    p: Participant,
    amount: nat,
    deposited: bool,
) -> Result<(), StakingError> {
    if amount == 0 {
        Err(StakingError::InvalidAmount)
    } else if !deposited {
        Err(StakingError::TransferFailed)
    } else if s.balance_of(p) + amount > max_amount() || s.total + amount > max_amount() {
        Err(StakingError::ArithmeticOverflow)
    } else {
        Ok(())
    }
}

/// The ledger after a stake of `amount` by `p`: credited where the stake
/// succeeds, untouched where it fails.
pub open spec fn after_stake(
    s: LedgerState,
    p: Participant,
    amount: nat,
    deposited: bool,
) -> LedgerState {
    if stake_result(s, p, amount, deposited) is Ok {
        s.credited(p, amount)
    } else {
        s
    }
}

/// How an unstake of `amount` by `p` ends, given whether the host moved the
/// value out of escrow.
pub open spec fn unstake_result(
    s: LedgerState,
    p: Participant,
    amount: nat,
    paid_out: bool,
) -> Result<(), StakingError> {
    if amount == 0 {
        Err(StakingError::InvalidAmount)
    } else if amount > s.balance_of(p) {
        Err(StakingError::InsufficientBalance)
    } else if amount > s.total {
        Err(StakingError::ArithmeticUnderflow)
    } else if !paid_out {
        Err(StakingError::TransferFailed)
    } else {
        Ok(())
    }
}

/// The ledger after an unstake of `amount` by `p`: debited where the
/// unstake succeeds, untouched where it fails.
pub open spec fn after_unstake(
    s: LedgerState,
    p: Participant,
    amount: nat,
    paid_out: bool,
) -> LedgerState {
    if unstake_result(s, p, amount, paid_out) is Ok {
        s.debited(p, amount)
    } else {
        s
    }
}

} // verus!
