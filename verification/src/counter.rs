//! The view counter: atomic increment-and-return with create-if-absent
//! semantics, and the defensive fallback applied when the stored counter
//! document comes back malformed.

use vstd::prelude::*;

verus! {

/// The value read out of the counter document the store handed back:
/// absent or malformed counter fields default to zero. This is a
/// defensive fallback, not a normal path.
pub open spec fn spec_counter_value(field: Option<i32>) -> i32 {
    match field {
        Some(v) => v,
        None => 0,
    }
}

/// Applies the defensive fallback to the counter field extracted from the
/// store's response: the field's value when present, zero otherwise.
pub fn counter_value(field: Option<i32>) -> (r: i32)
    ensures
        r == spec_counter_value(field),
{
    match field {
        Some(v) => v,
        None => 0,
    }
}

/// Model of the named counter document: `None` while the counter does not
/// exist yet, `Some(v)` once it holds the value `v`.
#[derive(Clone, Copy, Debug)]
pub struct Counter {
    pub value: Option<u64>,
}

impl Counter {
    /// The stored value, with an absent counter reading as zero.
    pub open spec fn current(self) -> nat {
        match self.value {
            None => 0nat,
            Some(v) => v as nat,
        }
    }

    /// A fresh, absent counter.
    pub fn new() -> (c: Counter)
        ensures
            c.value is None,
            c.current() == 0,
    {
        Counter { value: None }
    }

    /// Atomically increments the counter, creating it at zero if it is
    /// absent, and returns the new value.
    pub fn increment(&mut self) -> (r: u64)
        requires
            old(self).current() < u64::MAX,
        ensures
            r == old(self).current() + 1,
            final(self).value == Some(r),
            final(self).current() == old(self).current() + 1,
    {
        let next: u64 = match self.value {
            None => 1,
            Some(v) => v + 1,
        };
        self.value = Some(next);
        next
    }

    /// Performs `n` sequential increments and returns the value each one
    /// produced: from a stored value `c`, the increments return
    /// `c + 1, c + 2, ..., c + n`, with no duplicates or gaps, and the
    /// stored value afterwards has grown by exactly the number of
    /// increments performed.
    pub fn run_increments(&mut self, n: u64) -> (rs: Vec<u64>)
        requires
            old(self).current() + n <= u64::MAX,
        ensures
            rs@.len() == n,
            forall|k: int| 0 <= k < n ==> rs@[k] == old(self).current() + k + 1,
            rs@.map_values(|v: u64| v as nat) == increment_returns(old(self).current(), n as nat),
            final(self).current() == old(self).current() + n,
    {
        let mut rs: Vec<u64> = Vec::new();
        let mut i: u64 = 0;
        while i < n
            invariant
                0 <= i <= n,
                old(self).current() + n <= u64::MAX,
                self.current() == old(self).current() + i,
                rs@.len() == i,
                forall|k: int| 0 <= k < i ==> rs@[k] == old(self).current() + k + 1,
            decreases n - i,
        {
            let r = self.increment();
            rs.push(r);
            i = i + 1;
        }
        proof {
            lemma_counter_run(old(self).current(), n as nat);
            assert(rs@.map_values(|v: u64| v as nat) =~= increment_returns(
                old(self).current(),
                n as nat,
            ));
        }
        rs
    }
}

/// The values `n` sequential increments return when they start from a
/// stored value of `start`: the `k`-th (counting from zero) returns
/// `start + k + 1`.
pub open spec fn increment_returns(start: nat, n: nat) -> Seq<nat>
    decreases n,
{
    if n == 0 {
        Seq::empty()
    } else {
        increment_returns(start, (n - 1) as nat).push(start + n)
    }
}

/// From a stored value of `start`, `n` sequential increments return the
/// consecutive values `start + 1, start + 2, ..., start + n`: no
/// duplicates, no gaps, whichever caller each increment belonged to.
pub proof fn lemma_counter_run(start: nat, n: nat)
    ensures
        increment_returns(start, n).len() == n,
        forall|k: int| 0 <= k < n ==> increment_returns(start, n)[k] == start + k + 1,
    decreases n,
{
    if n > 0 {
        lemma_counter_run(start, (n - 1) as nat);
        assert forall|k: int| 0 <= k < n implies increment_returns(start, n)[k] == start + k
            + 1 by {
            if k < n - 1 {
                assert(increment_returns(start, n)[k] == increment_returns(
                    start,
                    (n - 1) as nat,
                )[k]);
            }
        }
    }
}

/// From a fresh (absent) counter, `n` sequential increments return exactly
/// `1, 2, ..., n`, and the stored value afterwards equals `n`, the number
/// of successful increments.
pub proof fn lemma_fresh_counter_run(n: nat)
    ensures
        increment_returns(0, n).len() == n,
        forall|k: int| 0 <= k < n ==> increment_returns(0, n)[k] == k + 1,
{
    lemma_counter_run(0, n);
}

} // verus!
