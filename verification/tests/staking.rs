use liquid_staking::amount::Amount;
use liquid_staking::error::{StakingError, TransferError};
use liquid_staking::ledger::Ledger;
use liquid_staking::participant::Participant;
use liquid_staking::staking::{settle_stake, settle_unstake, stake, unstake};

const LARGEST: Amount = Amount { words: [u64::MAX; 8] };

fn alice() -> Participant {
    Participant { bytes: [0xa1; 32] }
}

fn bob() -> Participant {
    Participant { bytes: [0xb0; 32] }
}

fn carol() -> Participant {
    Participant { bytes: [0xc4; 32] }
}

fn amount(value: u64) -> Amount {
    Amount::from_u64(value)
}

/// Stakes with a host whose transfer succeeds.
fn stake_all(ledger: &mut Ledger, p: &Participant, a: &Amount) -> Result<(), StakingError> {
    let deposit = stake(p, a)?;
    settle_stake(ledger, deposit, Ok(()))
}

/// Unstakes with a host whose transfer succeeds.
fn unstake_all(ledger: &mut Ledger, p: &Participant, a: &Amount) -> Result<(), StakingError> {
    let withdrawal = unstake(ledger, p, a)?;
    settle_unstake(ledger, withdrawal, Ok(()))
}

fn sum_of_balances(ledger: &Ledger, participants: &[Participant]) -> Amount {
    let mut sum = Amount::zero();
    for p in participants {
        sum = sum.checked_add(&ledger.get_balance(p)).unwrap();
    }
    sum
}

#[test]
fn stake_then_unstake_scenario() {
    let mut ledger = Ledger::new();
    assert_eq!(ledger.get_total(), amount(0));

    assert_eq!(stake_all(&mut ledger, &alice(), &amount(100)), Ok(()));
    assert_eq!(ledger.get_balance(&alice()), amount(100));
    assert_eq!(ledger.get_total(), amount(100));

    assert_eq!(stake_all(&mut ledger, &bob(), &amount(50)), Ok(()));
    assert_eq!(ledger.get_balance(&bob()), amount(50));
    assert_eq!(ledger.get_total(), amount(150));

    assert_eq!(unstake_all(&mut ledger, &alice(), &amount(30)), Ok(()));
    assert_eq!(ledger.get_balance(&alice()), amount(70));
    assert_eq!(ledger.get_total(), amount(120));

    assert_eq!(
        unstake_all(&mut ledger, &alice(), &amount(1000)),
        Err(StakingError::InsufficientBalance)
    );
    assert_eq!(ledger.get_balance(&alice()), amount(70));
    assert_eq!(ledger.get_balance(&bob()), amount(50));
    assert_eq!(ledger.get_total(), amount(120));
}

#[test]
fn stake_of_zero_is_invalid() {
    let mut ledger = Ledger::new();
    assert_eq!(stake(&alice(), &amount(0)).err(), Some(StakingError::InvalidAmount));
    assert_eq!(stake_all(&mut ledger, &alice(), &amount(100)), Ok(()));
    assert_eq!(stake_all(&mut ledger, &alice(), &amount(0)), Err(StakingError::InvalidAmount));
    assert_eq!(ledger.get_balance(&alice()), amount(100));
    assert_eq!(ledger.get_total(), amount(100));
}

#[test]
fn stake_hands_back_the_deposit_to_collect() {
    let deposit = stake(&bob(), &amount(50)).unwrap();
    assert_eq!(deposit.participant(), bob());
    assert_eq!(deposit.amount(), amount(50));
}

#[test]
fn stake_with_a_failed_transfer_changes_nothing() {
    let mut ledger = Ledger::new();
    assert_eq!(stake_all(&mut ledger, &alice(), &amount(100)), Ok(()));
    let deposit = stake(&alice(), &amount(5)).unwrap();
    assert_eq!(
        settle_stake(&mut ledger, deposit, Err(TransferError {})),
        Err(StakingError::TransferFailed)
    );
    assert_eq!(ledger.get_balance(&alice()), amount(100));
    assert_eq!(ledger.get_total(), amount(100));
}

#[test]
fn stake_past_the_largest_balance_overflows() {
    let mut ledger = Ledger::new();
    assert_eq!(stake_all(&mut ledger, &alice(), &LARGEST), Ok(()));
    assert_eq!(ledger.get_balance(&alice()), LARGEST);
    assert_eq!(ledger.get_total(), LARGEST);
    assert_eq!(
        stake_all(&mut ledger, &alice(), &amount(1)),
        Err(StakingError::ArithmeticOverflow)
    );
    assert_eq!(ledger.get_balance(&alice()), LARGEST);
    assert_eq!(ledger.get_total(), LARGEST);
}

#[test]
fn stake_past_the_largest_total_overflows() {
    let mut ledger = Ledger::new();
    assert_eq!(stake_all(&mut ledger, &alice(), &LARGEST), Ok(()));
    assert_eq!(
        stake_all(&mut ledger, &bob(), &amount(1)),
        Err(StakingError::ArithmeticOverflow)
    );
    assert_eq!(ledger.get_balance(&bob()), amount(0));
    assert_eq!(ledger.get_balance(&alice()), LARGEST);
    assert_eq!(ledger.get_total(), LARGEST);
}

#[test]
fn a_failed_transfer_is_reported_before_an_overflow() {
    let mut ledger = Ledger::new();
    assert_eq!(stake_all(&mut ledger, &alice(), &LARGEST), Ok(()));
    let deposit = stake(&alice(), &amount(1)).unwrap();
    assert_eq!(
        settle_stake(&mut ledger, deposit, Err(TransferError {})),
        Err(StakingError::TransferFailed)
    );
}

#[test]
fn two_stakes_add_up() {
    let mut ledger = Ledger::new();
    assert_eq!(stake_all(&mut ledger, &bob(), &amount(9)), Ok(()));
    assert_eq!(stake_all(&mut ledger, &alice(), &amount(100)), Ok(()));
    assert_eq!(stake_all(&mut ledger, &alice(), &amount(23)), Ok(()));
    assert_eq!(ledger.get_balance(&alice()), amount(123));
    assert_eq!(ledger.get_total(), amount(132));
}

#[test]
fn stake_then_unstake_of_the_same_amount_is_a_round_trip() {
    let mut ledger = Ledger::new();
    assert_eq!(stake_all(&mut ledger, &alice(), &amount(100)), Ok(()));
    assert_eq!(stake_all(&mut ledger, &bob(), &amount(50)), Ok(()));
    assert_eq!(stake_all(&mut ledger, &alice(), &amount(42)), Ok(()));
    assert_eq!(unstake_all(&mut ledger, &alice(), &amount(42)), Ok(()));
    assert_eq!(ledger.get_balance(&alice()), amount(100));
    assert_eq!(ledger.get_balance(&bob()), amount(50));
    assert_eq!(ledger.get_total(), amount(150));

    assert_eq!(stake_all(&mut ledger, &carol(), &amount(7)), Ok(()));
    assert_eq!(unstake_all(&mut ledger, &carol(), &amount(7)), Ok(()));
    assert_eq!(ledger.get_balance(&carol()), amount(0));
    assert_eq!(ledger.get_total(), amount(150));
}

#[test]
fn unstake_of_zero_is_invalid() {
    let mut ledger = Ledger::new();
    assert_eq!(
        unstake(&mut ledger, &alice(), &amount(0)).err(),
        Some(StakingError::InvalidAmount)
    );
    assert_eq!(stake_all(&mut ledger, &alice(), &amount(100)), Ok(()));
    assert_eq!(
        unstake(&mut ledger, &alice(), &amount(0)).err(),
        Some(StakingError::InvalidAmount)
    );
    assert_eq!(ledger.get_balance(&alice()), amount(100));
    assert_eq!(ledger.get_total(), amount(100));
}

#[test]
fn unstake_of_more_than_the_balance_is_refused() {
    let mut ledger = Ledger::new();
    assert_eq!(stake_all(&mut ledger, &alice(), &amount(100)), Ok(()));
    assert_eq!(stake_all(&mut ledger, &bob(), &amount(50)), Ok(()));
    assert_eq!(
        unstake(&mut ledger, &bob(), &amount(51)).err(),
        Some(StakingError::InsufficientBalance)
    );
    assert_eq!(
        unstake(&mut ledger, &carol(), &amount(1)).err(),
        Some(StakingError::InsufficientBalance)
    );
    assert_eq!(ledger.get_balance(&alice()), amount(100));
    assert_eq!(ledger.get_balance(&bob()), amount(50));
    assert_eq!(ledger.get_balance(&carol()), amount(0));
    assert_eq!(ledger.get_total(), amount(150));
}

#[test]
fn unstake_of_the_whole_balance_leaves_zero() {
    let mut ledger = Ledger::new();
    assert_eq!(stake_all(&mut ledger, &alice(), &amount(100)), Ok(()));
    assert_eq!(unstake_all(&mut ledger, &alice(), &amount(100)), Ok(()));
    assert_eq!(ledger.get_balance(&alice()), amount(0));
    assert_eq!(ledger.get_total(), amount(0));
    assert_eq!(
        unstake(&mut ledger, &alice(), &amount(1)).err(),
        Some(StakingError::InsufficientBalance)
    );
}

#[test]
fn unstake_from_a_corrupt_ledger_underflows() {
    let mut ledger = Ledger::new();
    ledger.set_balance(&alice(), amount(100));
    ledger.set_total(amount(40));
    assert_eq!(
        unstake(&mut ledger, &alice(), &amount(50)).err(),
        Some(StakingError::ArithmeticUnderflow)
    );
    assert_eq!(ledger.get_balance(&alice()), amount(100));
    assert_eq!(ledger.get_total(), amount(40));
}

#[test]
fn unstake_debits_before_the_payout() {
    let mut ledger = Ledger::new();
    assert_eq!(stake_all(&mut ledger, &alice(), &amount(100)), Ok(()));
    let withdrawal = unstake(&mut ledger, &alice(), &amount(30)).unwrap();
    assert_eq!(withdrawal.participant(), alice());
    assert_eq!(withdrawal.amount(), amount(30));
    assert_eq!(ledger.get_balance(&alice()), amount(70));
    assert_eq!(ledger.get_total(), amount(70));
    assert_eq!(settle_unstake(&mut ledger, withdrawal, Ok(())), Ok(()));
    assert_eq!(ledger.get_balance(&alice()), amount(70));
    assert_eq!(ledger.get_total(), amount(70));
}

#[test]
fn unstake_with_a_failed_payout_is_rolled_back() {
    let mut ledger = Ledger::new();
    assert_eq!(stake_all(&mut ledger, &alice(), &amount(100)), Ok(()));
    assert_eq!(stake_all(&mut ledger, &bob(), &amount(50)), Ok(()));
    let withdrawal = unstake(&mut ledger, &alice(), &amount(30)).unwrap();
    assert_eq!(
        settle_unstake(&mut ledger, withdrawal, Err(TransferError {})),
        Err(StakingError::TransferFailed)
    );
    assert_eq!(ledger.get_balance(&alice()), amount(100));
    assert_eq!(ledger.get_balance(&bob()), amount(50));
    assert_eq!(ledger.get_total(), amount(150));
}

#[test]
fn the_total_is_the_sum_of_the_balances_after_every_operation() {
    let everyone = [alice(), bob(), carol()];
    let mut ledger = Ledger::new();
    assert_eq!(sum_of_balances(&ledger, &everyone), ledger.get_total());
    let steps: [(bool, usize, u64); 10] = [
        (true, 0, 100),
        (true, 1, 50),
        (false, 0, 30),
        (false, 0, 1000),
        (true, 2, 0),
        (true, 2, 8),
        (false, 1, 50),
        (false, 1, 1),
        (true, 0, 1),
        (false, 2, 3),
    ];
    for (staking, who, value) in steps {
        if staking {
            let _ = stake_all(&mut ledger, &everyone[who], &amount(value));
        } else {
            let _ = unstake_all(&mut ledger, &everyone[who], &amount(value));
        }
        assert_eq!(sum_of_balances(&ledger, &everyone), ledger.get_total());
    }
    assert_eq!(ledger.get_balance(&alice()), amount(71));
    assert_eq!(ledger.get_balance(&bob()), amount(0));
    assert_eq!(ledger.get_balance(&carol()), amount(5));
    assert_eq!(ledger.get_total(), amount(76));
}
