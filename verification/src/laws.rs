//! What holds of the ledger under every sequence of operations.

use crate::amount::max_amount;
use crate::error::StakingError;
use crate::participant::Participant;
use crate::state::{
    after_stake, after_unstake, lemma_sum_of_bounds_each, lemma_sum_of_insert, stake_result,
    unstake_result, LedgerState,
};
use vstd::prelude::*;

verus! {

/// One operation on the ledger together with the host's report on the
/// transfer that belongs to it.
pub enum Operation {
    /// `participant` stakes `amount`; `deposited` tells whether the value
    /// reached escrow.
    Stake { participant: Participant, amount: nat, deposited: bool },
    /// `participant` unstakes `amount`; `paid_out` tells whether the value
    /// left escrow.
    Unstake { participant: Participant, amount: nat, paid_out: bool },
}

/// The ledger after one operation.
pub open spec fn apply(s: LedgerState, operation: Operation) -> LedgerState {
    match operation {
        Operation::Stake { participant, amount, deposited } => after_stake(
            s,
            participant,
            amount,
            deposited,
        ),
        Operation::Unstake { participant, amount, paid_out } => after_unstake(
            s,
            participant,
            amount,
            paid_out,
        ),
    }
}

/// The ledger after a sequence of operations on the empty ledger.
pub open spec fn replay(operations: Seq<Operation>) -> LedgerState
    decreases operations.len(),
{
    if operations.len() == 0 {
        LedgerState::empty()
    } else {
        apply(replay(operations.drop_last()), operations.last())
    }
}

/// The empty ledger is balanced.
pub proof fn empty_is_balanced()
    ensures
        LedgerState::empty().balanced(),
{
}

/// A stake, whether it succeeds or fails, leaves a balanced ledger balanced.
pub proof fn stake_keeps_balance(s: LedgerState, p: Participant, amount: nat, deposited: bool)
    requires
        s.balanced(),
    ensures
        after_stake(s, p, amount, deposited).balanced(),
{
    lemma_sum_of_insert(s.balances, p, s.balance_of(p) + amount);
}

/// An unstake, whether it succeeds or fails, leaves a balanced ledger
/// balanced.
pub proof fn unstake_keeps_balance(s: LedgerState, p: Participant, amount: nat, paid_out: bool)
    requires
        s.balanced(),
    ensures
        after_unstake(s, p, amount, paid_out).balanced(),
{
    if unstake_result(s, p, amount, paid_out) is Ok {
        lemma_sum_of_insert(s.balances, p, (s.balance_of(p) - amount) as nat);
    }
}

/// In every state that operations can reach from the empty ledger, the
/// total is the sum of all balances.
pub proof fn reachable_states_are_balanced(operations: Seq<Operation>)
    ensures
        replay(operations).balanced(),
    decreases operations.len(),
{
    if operations.len() > 0 {
        let before = replay(operations.drop_last());
        reachable_states_are_balanced(operations.drop_last());
        match operations.last() {
            Operation::Stake { participant, amount, deposited } => {
                stake_keeps_balance(before, participant, amount, deposited);
            },
            Operation::Unstake { participant, amount, paid_out } => {
                unstake_keeps_balance(before, participant, amount, paid_out);
            },
        }
    }
}

/// In a balanced ledger no balance exceeds the total, so an unstake within
/// the participant's balance never meets `ArithmeticUnderflow`.
pub proof fn balanced_ledger_never_underflows(
    s: LedgerState,
    p: Participant,
    amount: nat,
    paid_out: bool,
)
    requires
        s.balanced(),
    ensures
        s.balance_of(p) <= s.total,
        unstake_result(s, p, amount, paid_out) != Err::<(), StakingError>(
            StakingError::ArithmeticUnderflow,
        ),
{
    if s.balances.dom().contains(p) {
        lemma_sum_of_bounds_each(s.balances, p);
    }
}

/// An operation that fails leaves the ledger as it found it.
pub proof fn refused_operations_change_nothing(s: LedgerState, operation: Operation)
    ensures
        match operation {
            Operation::Stake { participant, amount, deposited } => stake_result(
                s,
                participant,
                amount,
                deposited,
            ) is Err ==> apply(s, operation) == s,
            Operation::Unstake { participant, amount, paid_out } => unstake_result(
                s,
                participant,
                amount,
                paid_out,
            ) is Err ==> apply(s, operation) == s,
        },
{
}

/// A stake of zero fails with `InvalidAmount` and changes nothing.
pub proof fn stake_of_zero_is_refused(s: LedgerState, p: Participant, deposited: bool)
    ensures
        stake_result(s, p, 0, deposited) == Err::<(), StakingError>(StakingError::InvalidAmount),
        after_stake(s, p, 0, deposited) == s,
{
}

/// A stake that would carry the participant's balance past the largest
/// amount fails with `ArithmeticOverflow` and changes nothing, once its
/// value has reached escrow.
pub proof fn overflowing_stake_is_refused(s: LedgerState, p: Participant, amount: nat)
    requires
        s.balance_of(p) <= max_amount(),
        s.balance_of(p) + amount > max_amount(),
    ensures
        stake_result(s, p, amount, true) == Err::<(), StakingError>(
            StakingError::ArithmeticOverflow,
        ),
        after_stake(s, p, amount, true) == s,
{
}

/// An unstake of more than the participant's balance fails with
/// `InsufficientBalance` and changes nothing.
pub proof fn unstake_beyond_balance_is_refused(
    s: LedgerState,
    p: Participant,
    amount: nat,
    paid_out: bool,
)
    requires
        amount > s.balance_of(p),
    ensures
        unstake_result(s, p, amount, paid_out) == Err::<(), StakingError>(
            StakingError::InsufficientBalance,
        ),
        after_unstake(s, p, amount, paid_out) == s,
{
}

/// A stake followed by an unstake of the same amount by the same
/// participant, both transfers made, gives every participant its balance
/// back and the total its value, where the stake does not overflow.
pub proof fn stake_then_unstake_round_trip(s: LedgerState, p: Participant, amount: nat)
    requires
        s.balance_of(p) + amount <= max_amount(),
        s.total + amount <= max_amount(),
    ensures
        amount > 0 ==> stake_result(s, p, amount, true) is Ok,
        amount > 0 ==> unstake_result(after_stake(s, p, amount, true), p, amount, true) is Ok,
        after_unstake(after_stake(s, p, amount, true), p, amount, true).total == s.total,
        forall|q: Participant|
            after_unstake(after_stake(s, p, amount, true), p, amount, true).balance_of(q)
                == s.balance_of(q),
{
}

/// Two stakes in a row by one participant, both transfers made, add up:
/// its balance and the total both grow by the sum of the two amounts, as
/// after one stake of that sum, where the sum does not overflow.
pub proof fn two_stakes_add_up(s: LedgerState, p: Participant, a: nat, b: nat)
    requires
        s.balance_of(p) + a + b <= max_amount(),
        s.total + a + b <= max_amount(),
    ensures
        after_stake(after_stake(s, p, a, true), p, b, true).balance_of(p) == s.balance_of(p) + a
            + b,
        after_stake(after_stake(s, p, a, true), p, b, true).total == s.total + a + b,
        forall|q: Participant|
            q != p ==> after_stake(after_stake(s, p, a, true), p, b, true).balance_of(q)
                == s.balance_of(q),
        a > 0 && b > 0 ==> after_stake(after_stake(s, p, a, true), p, b, true) == after_stake(
            s,
            p,
            a + b,
            true,
        ),
{
    if a > 0 && b > 0 {
        let twice = after_stake(after_stake(s, p, a, true), p, b, true);
        let once = after_stake(s, p, a + b, true);
        assert(twice.balances =~= once.balances);
    }
}

/// Putting back the balance and the total that an unstake found undoes it:
/// a failed payout leaves the ledger exactly as it was before the unstake.
pub proof fn failed_payout_restores(s: LedgerState, p: Participant, amount: nat)
    requires
        unstake_result(s, p, amount, true) is Ok,
    ensures
        s.debited(p, amount).with_balance(p, s.balance_of(p)).with_total(s.total) == s,
        s.debited(p, amount).with_balance(p, s.balance_of(p)).with_total(s.total) == after_unstake(
            s,
            p,
            amount,
            false,
        ),
{
    let restored = s.debited(p, amount).with_balance(p, s.balance_of(p)).with_total(s.total);
    assert(restored.balances =~= s.balances);
}

} // verus!
