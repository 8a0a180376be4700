//! The staking service: stake and unstake, each in two steps around the
//! transfer of native value that only the host can make.
//!
//! `stake` checks the amount and hands back the deposit to collect;
//! `settle_stake` takes the host's report on it and credits the ledger.
//! `unstake` debits the ledger and hands back the withdrawal to pay out;
//! `settle_unstake` takes the host's report on it and, where the payout
//! failed, puts the ledger back as it was.

use crate::amount::Amount;
use crate::error::{StakingError, TransferError};
use crate::ledger::Ledger;
use crate::participant::Participant;
use crate::laws::failed_payout_restores;
use crate::state::{
    after_stake, after_unstake, lemma_sum_of_insert, stake_result, unstake_result, LedgerState,
};
use vstd::prelude::*;

verus! {

/// A stake whose value the host has yet to move from the participant into
/// escrow. Its amount is never zero.
#[must_use]
#[derive(Debug)]
pub struct Deposit {
    participant: Participant,
    amount: Amount,
}

impl Deposit {
    #[verifier::type_invariant]
    spec fn well_formed(&self) -> bool {
        self.amount@ > 0
    }

    /// Who stakes.
    pub closed spec fn spec_participant(&self) -> Participant {
        self.participant
    }

    /// How much is staked.
    pub closed spec fn spec_amount(&self) -> Amount {
        self.amount
    }

    /// Who stakes: the source of the transfer into escrow.
    #[verifier::when_used_as_spec(spec_participant)]
    pub fn participant(&self) -> (p: Participant)
        ensures
            p == self.participant(),
    {
        self.participant
    }

    /// How much is staked: the value to move into escrow, never zero.
    #[verifier::when_used_as_spec(spec_amount)]
    pub fn amount(&self) -> (a: Amount)
        ensures
            a == self.amount(),
            a@ > 0,
    {
        proof {
            use_type_invariant(self);
        }
        self.amount
    }
}

/// An unstake that the ledger has recorded and whose value the host has yet
/// to move from escrow to the participant. It remembers the balance and the
/// total from before, to restore them where the payout fails.
#[must_use]
pub struct Withdrawal {
    participant: Participant,
    amount: Amount,
    prior_balance: Amount,
    prior_total: Amount,
    before: Ghost<LedgerState>,
}

impl Withdrawal {
    #[verifier::type_invariant]
    spec fn well_formed(&self) -> bool {
        &&& unstake_result(self.before@, self.participant, self.amount@, true) is Ok
        &&& self.prior_balance@ == self.before@.balance_of(self.participant)
        &&& self.prior_total@ == self.before@.total
    }

    /// Who unstakes.
    pub closed spec fn spec_participant(&self) -> Participant {
        self.participant
    }

    /// How much is unstaked.
    pub closed spec fn spec_amount(&self) -> Amount {
        self.amount
    }

    /// The ledger as the unstake found it.
    pub closed spec fn before(&self) -> LedgerState {
        self.before@
    }

    /// The ledger as the unstake left it.
    pub open spec fn pending(&self) -> LedgerState {
        self.before().debited(self.participant(), self.amount()@)
    }

    /// Who unstakes: the target of the transfer out of escrow.
    #[verifier::when_used_as_spec(spec_participant)]
    pub fn participant(&self) -> (p: Participant)
        ensures
            p == self.participant(),
    {
        self.participant
    }

    /// How much is unstaked: the value to move out of escrow, never zero.
    #[verifier::when_used_as_spec(spec_amount)]
    pub fn amount(&self) -> (a: Amount)
        ensures
            a == self.amount(),
            a@ > 0,
    {
        proof {
            use_type_invariant(self);
        }
        self.amount
    }
}

/// Opens a stake of `amount` by `caller`. A zero amount is refused with
/// `InvalidAmount`; any other gives the deposit that the host must collect
/// before `settle_stake` credits it. The ledger is not touched.
pub fn stake(caller: &Participant, amount: &Amount) -> (r: Result<Deposit, StakingError>)
    ensures
        amount@ == 0 ==> r == Err::<Deposit, StakingError>(StakingError::InvalidAmount),
        amount@ > 0 ==> r is Ok && r->Ok_0.participant() == *caller && r->Ok_0.amount()
            == *amount,
{
    if amount.is_zero() {
        Err(StakingError::InvalidAmount)
    } else {
        Ok(Deposit { participant: *caller, amount: *amount })
    }
}

/// Closes a stake with the host's report on the transfer into escrow.
/// A failed transfer gives `TransferFailed`; a balance or total that would
/// pass the largest amount gives `ArithmeticOverflow`; in both cases the
/// ledger stays as it was. Otherwise the balance of the participant and the
/// total both grow by the amount.
pub fn settle_stake(
    ledger: &mut Ledger,
    deposit: Deposit,
    outcome: Result<(), TransferError>,
) -> (r: Result<(), StakingError>)
    ensures
        r == stake_result(
            old(ledger)@,
            deposit.participant(),
            deposit.amount()@,
            outcome is Ok,
        ),
        final(ledger)@ == after_stake(
            old(ledger)@,
            deposit.participant(),
            deposit.amount()@,
            outcome is Ok,
        ),
        old(ledger)@.balanced() ==> final(ledger)@.balanced(),
{
    proof {
        use_type_invariant(&deposit);
    }
    if outcome.is_err() {
        return Err(StakingError::TransferFailed);
    }
    let balance = ledger.get_balance(&deposit.participant);
    let total = ledger.get_total();
    let new_balance = match balance.checked_add(&deposit.amount) {
        Some(sum) => sum,
        None => {
            return Err(StakingError::ArithmeticOverflow);
        },
    };
    let new_total = match total.checked_add(&deposit.amount) {
        Some(sum) => sum,
        None => {
            return Err(StakingError::ArithmeticOverflow);
        },
    };
    proof {
        ledger.lemma_finite();
        lemma_sum_of_insert(ledger@.balances, deposit.participant, new_balance@);
    }
    ledger.set_balance(&deposit.participant, new_balance);
    ledger.set_total(new_total);
    Ok(())
}

/// Records an unstake of `amount` by `caller`. It is refused with
/// `InvalidAmount` for a zero amount, with `InsufficientBalance` for an
/// amount above the caller's balance, and with `ArithmeticUnderflow` for
/// one above the total, in that order, and the ledger then stays as it was.
/// Otherwise the balance and the total both shrink by the amount, and the
/// result is the withdrawal that the host must pay out before
/// `settle_unstake` closes it.
pub fn unstake(ledger: &mut Ledger, caller: &Participant, amount: &Amount) -> (r: Result<
    Withdrawal,
    StakingError,
>)
    ensures
        match r {
            Ok(w) => {
                &&& unstake_result(old(ledger)@, *caller, amount@, true) is Ok
                &&& w.participant() == *caller
                &&& w.amount() == *amount
                &&& w.before() == old(ledger)@
            },
            Err(e) => unstake_result(old(ledger)@, *caller, amount@, true) == Err::<
                (),
                StakingError,
            >(e),
        },
        final(ledger)@ == after_unstake(old(ledger)@, *caller, amount@, true),
        old(ledger)@.balanced() ==> final(ledger)@.balanced(),
{
    if amount.is_zero() {
        return Err(StakingError::InvalidAmount);
    }
    let balance = ledger.get_balance(caller);
    let total = ledger.get_total();
    let new_balance = match balance.checked_sub(amount) {
        Some(difference) => difference,
        None => {
            return Err(StakingError::InsufficientBalance);
        },
    };
    let new_total = match total.checked_sub(amount) {
        Some(difference) => difference,
        None => {
            return Err(StakingError::ArithmeticUnderflow);
        },
    };
    proof {
        ledger.lemma_finite();
        lemma_sum_of_insert(ledger@.balances, *caller, new_balance@);
    }
    let before = Ghost(ledger@);
    ledger.set_balance(caller, new_balance);
    ledger.set_total(new_total);
    Ok(
        Withdrawal {
            participant: *caller,
            amount: *amount,
            prior_balance: balance,
            prior_total: total,
            before,
        },
    )
}

/// Closes an unstake with the host's report on the transfer out of escrow.
/// After a transfer that succeeded the ledger stays as it is. After one
/// that failed the balance of the participant and the total are put back to
/// what they were before the unstake, and the result is `TransferFailed`.
/// On the ledger as `unstake` left it, the two steps together are one
/// unstake that succeeds or fails as a whole: the host runs no other
/// operation between them.
pub fn settle_unstake(
    ledger: &mut Ledger,
    withdrawal: Withdrawal,
    outcome: Result<(), TransferError>,
) -> (r: Result<(), StakingError>)
    ensures
        outcome is Ok ==> r == Ok::<(), StakingError>(()) && final(ledger)@ == old(ledger)@,
        outcome is Err ==> r == Err::<(), StakingError>(StakingError::TransferFailed)
            && final(ledger)@ == old(ledger)@.with_balance(
            withdrawal.participant(),
            withdrawal.before().balance_of(withdrawal.participant()),
        ).with_total(withdrawal.before().total),
        old(ledger)@ == withdrawal.pending() ==> r == unstake_result(
            withdrawal.before(),
            withdrawal.participant(),
            withdrawal.amount()@,
            outcome is Ok,
        ) && final(ledger)@ == after_unstake(
            withdrawal.before(),
            withdrawal.participant(),
            withdrawal.amount()@,
            outcome is Ok,
        ),
{
    proof {
        use_type_invariant(&withdrawal);
    }
    if outcome.is_ok() {
        return Ok(());
    }
    ledger.set_balance(&withdrawal.participant, withdrawal.prior_balance);
    ledger.set_total(withdrawal.prior_total);
    proof {
        if old(ledger)@ == withdrawal.pending() {
            failed_payout_restores(
                withdrawal.before(),
                withdrawal.participant,
                withdrawal.amount@,
            );
        }
    }
    Err(StakingError::TransferFailed)
}

} // verus!
