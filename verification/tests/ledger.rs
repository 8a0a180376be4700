use liquid_staking::amount::Amount;
use liquid_staking::ledger::Ledger;
use liquid_staking::participant::Participant;

fn alice() -> Participant {
    Participant { bytes: [0xa1; 32] }
}

fn bob() -> Participant {
    Participant { bytes: [0xb0; 32] }
}

#[test]
fn new_ledger_holds_nothing() {
    let ledger = Ledger::new();
    assert_eq!(ledger.get_total(), Amount::zero());
    assert_eq!(ledger.get_balance(&alice()), Amount::zero());
    assert_eq!(ledger.get_balance(&bob()), Amount::zero());
}

#[test]
fn set_balance_is_read_back() {
    let mut ledger = Ledger::new();
    ledger.set_balance(&alice(), Amount::from_u64(100));
    assert_eq!(ledger.get_balance(&alice()), Amount::from_u64(100));
    assert_eq!(ledger.get_balance(&bob()), Amount::zero());
}

#[test]
fn set_balance_overwrites_the_earlier_balance() {
    let mut ledger = Ledger::new();
    ledger.set_balance(&alice(), Amount::from_u64(100));
    ledger.set_balance(&bob(), Amount::from_u64(50));
    ledger.set_balance(&alice(), Amount::from_u64(70));
    assert_eq!(ledger.get_balance(&alice()), Amount::from_u64(70));
    assert_eq!(ledger.get_balance(&bob()), Amount::from_u64(50));
}

#[test]
fn set_balance_does_not_touch_the_total() {
    let mut ledger = Ledger::new();
    ledger.set_total(Amount::from_u64(9));
    ledger.set_balance(&alice(), Amount::from_u64(100));
    assert_eq!(ledger.get_total(), Amount::from_u64(9));
}

#[test]
fn set_total_does_not_touch_the_balances() {
    let mut ledger = Ledger::new();
    ledger.set_balance(&alice(), Amount::from_u64(100));
    ledger.set_total(Amount::from_u64(3));
    assert_eq!(ledger.get_total(), Amount::from_u64(3));
    assert_eq!(ledger.get_balance(&alice()), Amount::from_u64(100));
    ledger.set_total(Amount::from_u64(4));
    assert_eq!(ledger.get_total(), Amount::from_u64(4));
}

#[test]
fn a_balance_of_zero_reads_as_zero() {
    let mut ledger = Ledger::new();
    ledger.set_balance(&alice(), Amount::from_u64(100));
    ledger.set_balance(&alice(), Amount::zero());
    assert_eq!(ledger.get_balance(&alice()), Amount::zero());
    ledger.set_balance(&alice(), Amount::from_u64(5));
    assert_eq!(ledger.get_balance(&alice()), Amount::from_u64(5));
}

#[test]
fn many_participants_keep_their_own_balances() {
    let mut ledger = Ledger::new();
    for i in 0..50u8 {
        let mut bytes = [0u8; 32];
        bytes[31] = i;
        ledger.set_balance(&Participant { bytes }, Amount::from_u64(1000 + i as u64));
    }
    for i in 0..50u8 {
        let mut bytes = [0u8; 32];
        bytes[31] = i;
        assert_eq!(ledger.get_balance(&Participant { bytes }), Amount::from_u64(1000 + i as u64));
    }
}
