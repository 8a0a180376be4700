//! Staked amounts: unsigned 512-bit integers held as eight 64-bit words,
//! least significant word first.

use casper_types::U512;
use vstd::arithmetic::power2::{lemma2_to64, lemma_pow2_adds, pow2};
use vstd::prelude::*;

verus! {

/// The weight of one word in the next: 2^64.
pub open spec fn word_base() -> nat {
    0x1_0000_0000_0000_0000
}

/// The number that a little-endian sequence of 64-bit words stands for.
pub open spec fn words_value(words: Seq<u64>) -> nat
    decreases words.len(),
{
    if words.len() == 0 {
        0
    } else {
        words[0] as nat + word_base() * words_value(words.drop_first())
    }
}

/// The largest amount that can be represented: 2^512 - 1.
pub open spec fn max_amount() -> nat {
    (pow2(512) - 1) as nat
}

/// A little-endian sequence of `n` words stands for a number below 2^(64 n).
pub proof fn lemma_words_value_bound(words: Seq<u64>)
    ensures
        words_value(words) < pow2(64 * words.len()),
    decreases words.len(),
{
    lemma2_to64();
    if words.len() > 0 {
        let rest = words.drop_first();
        lemma_words_value_bound(rest);
        lemma_pow2_adds(64, 64 * rest.len());
        let r = words_value(rest);
        let p = pow2(64 * rest.len());
        assert(word_base() * r + word_base() <= word_base() * p) by (nonlinear_arith)
            requires
                r + 1 <= p,
        ;
    }
}

/// A sequence of words stands for zero exactly when every word is zero.
pub proof fn lemma_words_value_zero(words: Seq<u64>)
    ensures
        words_value(words) == 0 <==> (forall|i: int| 0 <= i < words.len() ==> words[i] == 0),
    decreases words.len(),
{
    if words.len() > 0 {
        let rest = words.drop_first();
        lemma_words_value_zero(rest);
        if words_value(words) == 0 {
            assert(words_value(rest) == 0) by (nonlinear_arith)
                requires
                    words[0] as nat + word_base() * words_value(rest) == 0,
                    word_base() > 0,
            ;
            assert forall|i: int| 0 <= i < words.len() implies words[i] == 0 by {
                if i > 0 {
                    assert(rest[i - 1] == words[i]);
                }
            }
        }
    }
}

/// Two word sequences of one length that stand for the same number are the
/// same sequence.
pub proof fn lemma_words_value_injective(a: Seq<u64>, b: Seq<u64>)
    requires
        a.len() == b.len(),
        words_value(a) == words_value(b),
    ensures
        a =~= b,
    decreases a.len(),
{
    if a.len() > 0 {
        let ra = a.drop_first();
        let rb = b.drop_first();
        let va = words_value(ra);
        let vb = words_value(rb);
        assert(va == vb && a[0] == b[0]) by (nonlinear_arith)
            requires
                a[0] as nat + word_base() * va == b[0] as nat + word_base() * vb,
                a[0] < word_base(),
                b[0] < word_base(),
        ;
        lemma_words_value_injective(ra, rb);
        assert forall|i: int| 0 <= i < a.len() implies a[i] == b[i] by {
            if i > 0 {
                assert(rb[i - 1] == b[i]);
            }
        }
    }
}

/// An unsigned 512-bit quantity of staked value.
#[derive(Clone, Copy, Debug, Eq)]
pub struct Amount {
    /// The eight 64-bit words of the number, least significant first.
    pub words: [u64; 8],
}

impl View for Amount {
    type V = nat;

    open spec fn view(&self) -> nat {
        words_value(self.words@)
    }
}

impl PartialEq for Amount {
    fn eq(&self, other: &Amount) -> (r: bool) {
        let mut i: usize = 0;
        while i < 8
            invariant
                i <= 8,
                forall|j: int| 0 <= j < i ==> self.words@[j] == other.words@[j],
            decreases 8 - i,
        {
            if self.words[i] != other.words[i] {
                proof {
                    if self@ == other@ {
                        lemma_words_value_injective(self.words@, other.words@);
                    }
                }
                return false;
            }
            i += 1;
        }
        assert(self.words@ =~= other.words@);
        true
    }
}

impl vstd::std_specs::cmp::PartialEqSpecImpl for Amount {
    open spec fn obeys_eq_spec() -> bool {
        true
    }

    open spec fn eq_spec(&self, other: &Amount) -> bool {
        self@ == other@
    }
}

impl Amount {
    /// Every amount lies between zero and `max_amount()`.
    pub proof fn lemma_in_range(self)
        ensures
            self@ <= max_amount(),
    {
        lemma_words_value_bound(self.words@);
    }

    /// The amount zero.
    pub fn zero() -> (r: Amount)
        ensures
            r@ == 0,
    {
        let r = Amount { words: [0u64; 8] };
        proof {
            lemma_words_value_zero(r.words@);
        }
        r
    }

    /// The amount that a 64-bit number stands for.
    pub fn from_u64(value: u64) -> (r: Amount)
        ensures
            r@ == value,
    {
        let r = Amount { words: [value, 0, 0, 0, 0, 0, 0, 0] };
        proof {
            let rest = r.words@.drop_first();
            lemma_words_value_zero(rest);
        }
        r
    }

    /// Whether this amount is zero.
    pub fn is_zero(&self) -> (r: bool)
        ensures
            r == (self@ == 0),
    {
        let mut i: usize = 0;
        while i < 8
            invariant
                i <= 8,
                forall|j: int| 0 <= j < i ==> self.words@[j] == 0,
            decreases 8 - i,
        {
            if self.words[i] != 0 {
                proof {
                    lemma_words_value_zero(self.words@);
                }
                return false;
            }
            i += 1;
        }
        proof {
            lemma_words_value_zero(self.words@);
        }
        true
    }

    /// The sum of two amounts, or `None` where it exceeds `max_amount()`.
    pub fn checked_add(&self, other: &Amount) -> (r: Option<Amount>)
        ensures
            self@ + other@ <= max_amount() ==> r is Some && r->0@ == self@ + other@,
            self@ + other@ > max_amount() ==> r is None,
    {
        let r = u512_checked_add(self, other);
        proof {
            if let Some(sum) = r {
                sum.lemma_in_range();
            }
        }
        r
    }

    /// The difference of two amounts, or `None` where `other` is the larger.
    pub fn checked_sub(&self, other: &Amount) -> (r: Option<Amount>)
        ensures
            other@ <= self@ ==> r is Some && r->0@ == self@ - other@,
            other@ > self@ ==> r is None,
    {
        u512_checked_sub(self, other)
    }
}

/// `U512::checked_add` of `casper_types`, on the words of two amounts. The
/// words of an amount are those of a `U512`, in the same order. It returns
/// the exact sum where no carry leaves the most significant word, and
/// `None` where one does.
#[verifier::external_body]
fn u512_checked_add(a: &Amount, b: &Amount) -> (r: Option<Amount>)
    ensures
        match r {
            Some(sum) => sum@ == a@ + b@,
            None => a@ + b@ > max_amount(),
        },
{
    match U512(a.words).checked_add(U512(b.words)) {
        Some(sum) => Some(Amount { words: sum.0 }),
        None => None,
    }
}

/// `U512::checked_sub` of `casper_types`, on the words of two amounts. It
/// returns the exact difference where the first is at least the second, and
/// `None` where a borrow leaves the most significant word.
#[verifier::external_body]
fn u512_checked_sub(a: &Amount, b: &Amount) -> (r: Option<Amount>)
    ensures
        match r {
            Some(difference) => difference@ + b@ == a@,
            None => a@ < b@,
        },
{
    match U512(a.words).checked_sub(U512(b.words)) {
        Some(difference) => Some(Amount { words: difference.0 }),
        None => None,
    }
}

} // verus!
