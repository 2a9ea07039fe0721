//! The counter metric: one monotonically increasing 64-bit value.

use vstd::prelude::*;

verus! {

/// State of a counter metric: a single 64-bit total.  Increments wrap on
/// overflow, like a machine-word add.
pub struct CounterState {
    pub count: u64,
}

/// The counter total after adding `x`, wrapping at the word size.
pub open spec fn counter_add(count: u64, x: u64) -> u64 {
    ((count + x) % 0x1_0000_0000_0000_0000) as u64
}

impl CounterState {
    /// A fresh counter, at zero.
    pub fn new() -> (s: Self)
        ensures
            s.count == 0,
    {
        CounterState { count: 0 }
    }

    /// Add one to the counter.
    pub fn inc(&mut self)
        ensures
            final(self).count == counter_add(old(self).count, 1),
    {
        self.count = self.count.wrapping_add(1);
    }

    /// Add `x` to the counter.
    pub fn inc_by(&mut self, x: u64)
        ensures
            final(self).count == counter_add(old(self).count, x),
    {
        self.count = self.count.wrapping_add(x);
    }

    /// The current total.
    pub fn get(&self) -> (r: u64)
        ensures
            r == self.count,
    {
        self.count
    }
}

/// The counter total after a whole sequence of `inc_by` steps.
pub open spec fn counter_after(incs: Seq<u64>) -> u64
    decreases incs.len(),
{
    if incs.len() == 0 {
        0u64
    } else {
        counter_add(counter_after(incs.drop_last()), incs.last())
    }
}

/// The mathematical sum of a sequence of increments.
pub open spec fn sum_of(incs: Seq<u64>) -> int
    decreases incs.len(),
{
    if incs.len() == 0 {
        0
    } else {
        sum_of(incs.drop_last()) + incs.last()
    }
}

/// Law: a counter that has taken any sequence of increments holds exactly
/// their sum, reduced at the word size; in particular, as long as the true
/// sum fits in 64 bits, no increment is lost and the counter holds the
/// exact sum.
pub proof fn lemma_counter_exact_sum(incs: Seq<u64>)
    ensures
        sum_of(incs) >= 0,
        counter_after(incs) == sum_of(incs) % 0x1_0000_0000_0000_0000,
        sum_of(incs) < 0x1_0000_0000_0000_0000 ==> counter_after(incs) == sum_of(incs),
    decreases incs.len(),
{
    if incs.len() == 0 {
    } else {
        lemma_counter_exact_sum(incs.drop_last());
        let prior = sum_of(incs.drop_last());
        let last = incs.last() as int;
        assert((prior % 0x1_0000_0000_0000_0000 + last) % 0x1_0000_0000_0000_0000 == (prior
            + last) % 0x1_0000_0000_0000_0000) by {
            vstd::arithmetic::div_mod::lemma_add_mod_noop(
                prior,
                last,
                0x1_0000_0000_0000_0000,
            );
            vstd::arithmetic::div_mod::lemma_mod_twice(prior, 0x1_0000_0000_0000_0000);
            vstd::arithmetic::div_mod::lemma_mod_twice(last, 0x1_0000_0000_0000_0000);
        }
    }
}

} // verus!
