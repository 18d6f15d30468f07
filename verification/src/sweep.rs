//! Sweep arithmetic: the sequence of MTU values both endpoints walk.
//!
//! A sweep starts at `max` and decreases by `step` while the value is
//! still `>= min`.  The coordinator and the responder each run this
//! generator over their own range; because both sides use the same
//! sequence, they always agree on how many rounds a sweep has.

use vstd::prelude::*;
use vstd::arithmetic::div_mod::{
    lemma_fundamental_div_mod, lemma_multiply_divide_le, lemma_multiply_divide_lt,
};
use vstd::arithmetic::mul::{lemma_mul_inequality, lemma_mul_is_commutative};

verus! {

/// A range of MTU values to sweep, from `max` down towards `min` in
/// decrements of `step`.
#[derive(Clone, Copy, Debug, PartialEq, Eq, Structural)]
pub struct SweepRange {
    pub min: u32,
    pub max: u32,
    pub step: u32,
}

impl SweepRange {
    /// A range is usable when its step is positive; a zero step would
    /// never make progress.  A range with `min > max` is well formed
    /// and simply produces no values.
    pub open spec fn wf(self) -> bool {
        self.step >= 1
    }

    /// How many values the sweep visits.
    pub open spec fn value_count(self) -> nat {
        if self.min > self.max {
            0
        } else {
            ((self.max - self.min) / (self.step as int) + 1) as nat
        }
    }

    /// The value visited in round `k`: `max - k * step`.
    pub open spec fn value_at(self, k: int) -> u32 {
        (self.max - k * self.step) as u32
    }

    /// The whole sweep sequence, highest value first.
    pub open spec fn value_seq(self) -> Seq<u32> {
        Seq::new(self.value_count(), |k: int| self.value_at(k))
    }

    /// Every sweep index stays within the range: the `k`-th value is
    /// between `min` and `max`, so in particular `max - k * step`
    /// neither underflows nor dips below the floor.
    pub proof fn lemma_value_in_range(self, k: int)
        requires
            self.wf(),
            0 <= k < self.value_count(),
        ensures
            self.min <= self.max - k * self.step <= self.max,
            self.value_at(k) == self.max - k * self.step,
    {
        let span = self.max - self.min;
        let q = span / (self.step as int);
        lemma_fundamental_div_mod(span, self.step as int);
        lemma_mul_inequality(k, q, self.step as int);
        lemma_mul_is_commutative(q, self.step as int);
        lemma_mul_is_commutative(k, self.step as int);
    }

    /// The shape of the sweep sequence: it is empty exactly when
    /// `min > max`; otherwise it starts at `max`, consecutive values
    /// differ by exactly `step`, every value lies in `[min, max]`, and
    /// the last value is the lowest one still `>= min`.
    pub proof fn lemma_sweep_shape(self)
        requires
            self.wf(),
        ensures
            self.value_seq().len() == self.value_count(),
            self.value_count() == 0 <==> self.min > self.max,
            self.value_count() > 0 ==> self.value_seq()[0] == self.max,
            forall|k: int|
                0 <= k < self.value_count() ==> self.min <= #[trigger] self.value_seq()[k]
                    <= self.max,
            forall|k: int|
                0 <= k && k + 1 < self.value_count() ==> #[trigger] self.value_seq()[k]
                    == self.value_seq()[k + 1] + self.step,
            self.value_count() > 0 ==> self.value_seq()[self.value_count() - 1] < self.min
                + self.step,
    {
        let n = self.value_count() as int;
        assert forall|k: int| 0 <= k < n implies self.min <= #[trigger] self.value_seq()[k]
            <= self.max by {
            self.lemma_value_in_range(k);
        }
        assert forall|k: int| 0 <= k && k + 1 < n implies #[trigger] self.value_seq()[k]
            == self.value_seq()[k + 1] + self.step by {
            self.lemma_value_in_range(k);
            self.lemma_value_in_range(k + 1);
            vstd::arithmetic::mul::lemma_mul_is_distributive_add_other_way(
                self.step as int,
                k,
                1,
            );
        }
        if n > 0 {
            let span = self.max - self.min;
            let q = span / (self.step as int);
            lemma_fundamental_div_mod(span, self.step as int);
            lemma_mul_is_commutative(q, self.step as int);
            self.lemma_value_in_range(n - 1);
        }
    }

    /// The sweep never climbs: later rounds use lower or equal values.
    pub proof fn lemma_sweep_nonincreasing(self, j: int, k: int)
        requires
            self.wf(),
            0 <= j <= k < self.value_count(),
        ensures
            self.value_seq()[j] >= self.value_seq()[k],
    {
        self.lemma_value_in_range(j);
        self.lemma_value_in_range(k);
        lemma_mul_inequality(j, k, self.step as int);
    }

    /// A sweep never has more values than `u32` has: each round
    /// steps down by at least one.
    pub proof fn lemma_count_bound(self)
        requires
            self.wf(),
        ensures
            self.value_count() <= 0x1_0000_0000,
    {
        if self.min <= self.max {
            let span = self.max - self.min;
            vstd::arithmetic::div_mod::lemma_div_nonincreasing(span, self.step as int);
        }
    }

    /// How many values the sweep visits, as `value_count` counts
    /// them.
    pub fn count(&self) -> (c: u64)
        requires
            self.wf(),
        ensures
            c == self.value_count(),
    {
        if self.min > self.max {
            0
        } else {
            ((self.max - self.min) / self.step) as u64 + 1
        }
    }

    /// The value the sweep uses in round `k`.
    pub fn value_at_index(&self, k: u64) -> (v: u32)
        requires
            self.wf(),
            k < self.value_count(),
        ensures
            v == self.value_seq()[k as int],
    {
        proof {
            self.lemma_value_in_range(k as int);
        }
        let off: u64 = k * (self.step as u64);
        self.max - (off as u32)
    }

    /// Checked constructor: rejects a zero step, which would loop
    /// forever, and nothing else.
    pub fn new(min: u32, max: u32, step: u32) -> (r: Option<SweepRange>)
        ensures
            r is Some <==> step >= 1,
            r is Some ==> r->0 == (SweepRange { min, max, step }) && r->0.wf(),
    {
        if step >= 1 {
            Some(SweepRange { min, max, step })
        } else {
            None
        }
    }

    /// Materializes the sweep sequence, exactly as `value_seq`
    /// describes it.
    pub fn values(&self) -> (v: Vec<u32>)
        requires
            self.wf(),
        ensures
            v@ == self.value_seq(),
    {
        let mut v: Vec<u32> = Vec::new();
        if self.min > self.max {
            assert(v@ =~= self.value_seq());
            return v;
        }
        let count: u64 = ((self.max - self.min) / self.step) as u64 + 1;
        assert(count == self.value_count());
        let mut cur: u32 = self.max;
        let mut k: u64 = 0;
        while k < count
            invariant
                self.wf(),
                self.min <= self.max,
                count == self.value_count(),
                0 <= k <= count,
                v@.len() == k,
                forall|i: int| 0 <= i < k ==> v@[i] == self.value_seq()[i],
                k < count ==> cur == self.max - k * self.step,
            decreases count - k,
        {
            proof {
                self.lemma_value_in_range(k as int);
            }
            v.push(cur);
            k = k + 1;
            if k < count {
                proof {
                    self.lemma_value_in_range(k as int);
                    vstd::arithmetic::mul::lemma_mul_is_distributive_sub_other_way(
                        self.step as int,
                        k as int,
                        1,
                    );
                }
                cur = cur - self.step;
            }
        }
        assert(v@ =~= self.value_seq());
        v
    }
}

} // verus!
