//! The ledger store: the balance of each participant, and the total staked.
//! It validates nothing: keeping the total equal to the sum of the balances
//! is the business of the staking operations.

use crate::amount::Amount;
use crate::participant::Participant;
use crate::state::LedgerState;
use vstd::prelude::*;

verus! {

/// One record of the store: a participant and the balance held for it.
#[derive(Debug)]
struct Entry {
    participant: Participant,
    amount: Amount,
}

/// The map that a sequence of records stands for: a later record of a
/// participant replaces an earlier one.
spec fn balances_of(entries: Seq<Entry>) -> Map<Participant, nat>
    decreases entries.len(),
{
    if entries.len() == 0 {
        Map::empty()
    } else {
        balances_of(entries.drop_last()).insert(entries.last().participant, entries.last().amount@)
    }
}

/// No participant has two records.
spec fn distinct(entries: Seq<Entry>) -> bool {
    forall|i: int, j: int|
        0 <= i < j < entries.len() ==> entries[i].participant != entries[j].participant
}

/// The map of a sequence of records has a balance for exactly the
/// participants on record, and so for finitely many.
proof fn lemma_balances_of_domain(entries: Seq<Entry>)
    ensures
        balances_of(entries).dom().finite(),
        forall|p: Participant|
            balances_of(entries).dom().contains(p) <==> exists|i: int|
                0 <= i < entries.len() && #[trigger] entries[i].participant == p,
    decreases entries.len(),
{
    if entries.len() > 0 {
        let front = entries.drop_last();
        lemma_balances_of_domain(front);
        assert forall|p: Participant|
            balances_of(entries).dom().contains(p) <==> exists|i: int|
                0 <= i < entries.len() && #[trigger] entries[i].participant == p by {
            if exists|i: int| 0 <= i < entries.len() && #[trigger] entries[i].participant == p {
                let i = choose|i: int|
                    0 <= i < entries.len() && #[trigger] entries[i].participant == p;
                if i < front.len() {
                    assert(front[i].participant == p);
                }
            }
        }
    }
}

/// Where no participant has two records, the map holds for each record its
/// balance.
proof fn lemma_balances_of_entry(entries: Seq<Entry>, i: int)
    requires
        distinct(entries),
        0 <= i < entries.len(),
    ensures
        balances_of(entries).dom().contains(entries[i].participant),
        balances_of(entries)[entries[i].participant] == entries[i].amount@,
    decreases entries.len(),
{
    if i < entries.len() - 1 {
        let front = entries.drop_last();
        lemma_balances_of_entry(front, i);
    }
}

/// Replacing the balance in one record replaces it in the map.
proof fn lemma_balances_of_update(entries: Seq<Entry>, i: int, amount: Amount)
    requires
        distinct(entries),
        0 <= i < entries.len(),
    ensures
        distinct(entries.update(i, Entry { participant: entries[i].participant, amount })),
        balances_of(entries.update(i, Entry { participant: entries[i].participant, amount }))
            == balances_of(entries).insert(entries[i].participant, amount@),
{
    let p = entries[i].participant;
    let updated = entries.update(i, Entry { participant: p, amount });
    lemma_balances_of_domain(entries);
    lemma_balances_of_domain(updated);
    let lhs = balances_of(updated);
    let rhs = balances_of(entries).insert(p, amount@);
    assert forall|q: Participant| lhs.dom().contains(q) <==> rhs.dom().contains(q) by {
        if rhs.dom().contains(q) {
            if q == p {
                assert(updated[i].participant == q);
            } else {
                let j = choose|j: int|
                    0 <= j < entries.len() && #[trigger] entries[j].participant == q;
                assert(updated[j].participant == q);
            }
        }
    }
    assert forall|q: Participant| lhs.dom().contains(q) implies lhs[q] == rhs[q] by {
        let j = choose|j: int| 0 <= j < updated.len() && #[trigger] updated[j].participant == q;
        lemma_balances_of_entry(updated, j);
        if j != i {
            lemma_balances_of_entry(entries, j);
        }
    }
}

/// The store: a record for each participant that ever had a balance set,
/// and the total.
#[derive(Debug)]
pub struct Ledger {
    entries: Vec<Entry>,
    total: Amount,
}

impl View for Ledger {
    type V = LedgerState;

    closed spec fn view(&self) -> LedgerState {
        LedgerState { balances: balances_of(self.entries@), total: self.total@ }
    }
}

impl Ledger {
    #[verifier::type_invariant]
    spec fn well_formed(&self) -> bool {
        distinct(self.entries@)
    }

    /// A ledger holds a balance for finitely many participants.
    pub proof fn lemma_finite(&self)
        ensures
            self@.balances.dom().finite(),
    {
        lemma_balances_of_domain(self.entries@);
    }

    /// The store as it is when the contract is installed: no balance on
    /// record and a total of zero.
    pub fn new() -> (ledger: Ledger)
        ensures
            ledger@ == LedgerState::empty(),
    {
        Ledger { entries: Vec::new(), total: Amount::zero() }
    }

    /// Where the record of `p` stands, if it has one.
    fn position(&self, p: &Participant) -> (r: Option<usize>)
        ensures
            match r {
                Some(i) => i < self.entries@.len() && self.entries@[i as int].participant == *p,
                None => forall|j: int|
                    0 <= j < self.entries@.len() ==> self.entries@[j].participant != *p,
            },
    {
        let mut i: usize = 0;
        while i < self.entries.len()
            invariant
                i <= self.entries@.len(),
                forall|j: int| 0 <= j < i ==> self.entries@[j].participant != *p,
            decreases self.entries@.len() - i,
        {
            if self.entries[i].participant == *p {
                return Some(i);
            }
            i += 1;
        }
        None
    }

    /// The balance of `p`: zero where none is on record.
    pub fn get_balance(&self, p: &Participant) -> (amount: Amount)
        ensures
            amount@ == self@.balance_of(*p),
    {
        proof {
            use_type_invariant(self);
            lemma_balances_of_domain(self.entries@);
        }
        match self.position(p) {
            Some(i) => {
                proof {
                    lemma_balances_of_entry(self.entries@, i as int);
                }
                self.entries[i].amount
            },
            None => Amount::zero(),
        }
    }

    /// Overwrites the balance of `p`, whatever the total.
    pub fn set_balance(&mut self, p: &Participant, amount: Amount)
        ensures
            final(self)@ == old(self)@.with_balance(*p, amount@),
    {
        proof {
            use_type_invariant(&*self);
        }
        let found = self.position(p);
        let mut entries: Vec<Entry> = Vec::new();
        std::mem::swap(&mut self.entries, &mut entries);
        match found {
            Some(i) => {
                proof {
                    lemma_balances_of_update(entries@, i as int, amount);
                }
                entries.set(i, Entry { participant: *p, amount });
            },
            None => {
                entries.push(Entry { participant: *p, amount });
                proof {
                    assert(entries@.drop_last() =~= old(self).entries@);
                }
            },
        }
        self.entries = entries;
    }

    /// The total staked.
    pub fn get_total(&self) -> (total: Amount)
        ensures
            total@ == self@.total,
    {
        self.total
    }

    /// Overwrites the total, whatever the balances.
    pub fn set_total(&mut self, total: Amount)
        ensures
            final(self)@ == old(self)@.with_total(total@),
    {
        proof {
            use_type_invariant(&*self);
        }
        self.total = total;
    }
}

} // verus!
