//! Shared counter service: a single unsigned integer that only grows.
//!
//! Every request that hits an incrementing route bumps the counter by one
//! and observes the value it produced. Overflow saturates at `usize::MAX`
//! rather than wrapping or panicking, so the value is monotonically
//! non-decreasing over the whole process lifetime.
//!
//! The counter itself is sequential (`&mut self`); concurrent sharing is the
//! caller's concern (a mutex or equivalent around the whole value), which
//! makes every concurrent history a linearization, i.e. some sequence of the
//! operations below. The lemmas in this module state what holds of every
//! such sequence.

use vstd::prelude::*;

verus! {

/// A process-lifetime counter, created at zero, incremented by requests.
pub struct MyCounter {
    value: usize,
}

impl View for MyCounter {
    type V = nat;

    closed spec fn view(&self) -> nat {
        self.value as nat
    }
}

/// The counter value after one saturating increment from `v`.
pub open spec fn bumped(v: nat) -> nat {
    if v < usize::MAX {
        v + 1
    } else {
        usize::MAX as nat
    }
}

impl MyCounter {
    /// A fresh counter, as created at process start.
    pub fn new() -> (c: MyCounter)
        ensures
            c@ == 0,
    {
        MyCounter { value: 0 }
    }

    /// A counter resumed at a given value, for callers that seed it with
    /// an observed state rather than starting from zero.
    pub fn with_value(value: usize) -> (c: MyCounter)
        ensures
            c@ == value,
    {
        MyCounter { value }
    }

    /// Atomically (with respect to the exclusive borrow) adds one and
    /// returns the resulting value. Saturates at `usize::MAX` instead of
    /// wrapping or failing.
    pub fn increment_and_get(&mut self) -> (r: usize)
        ensures
            final(self)@ == bumped(old(self)@),
            r == final(self)@,
            old(self)@ <= final(self)@,
    {
        self.value = if self.value < usize::MAX {
            self.value + 1
        } else {
            self.value
        };
        self.value
    }

    /// Returns the current value without mutation.
    pub fn get(&self) -> (r: usize)
        ensures
            r == self@,
    {
        self.value
    }

    /// Runs `n` increments back to back and collects the returned values.
    /// This is what any linearized history of `n` concurrent
    /// `increment_and_get` calls amounts to: the i-th call in the
    /// linearization order returns `initial + i + 1`, and the counter ends
    /// at `initial + n`.
    pub fn increment_many(&mut self, n: usize) -> (results: Vec<usize>)
        requires
            old(self)@ + n <= usize::MAX,
        ensures
            final(self)@ == old(self)@ + n,
            results@.map_values(|r: usize| r as nat) == increment_returns(old(self)@, n as nat),
    {
        let mut results: Vec<usize> = Vec::new();
        let mut i: usize = 0;
        while i < n
            invariant
                i <= n,
                self@ == old(self)@ + i,
                old(self)@ + n <= usize::MAX,
                results@.len() == i,
                forall|j: int| 0 <= j < i ==> results@[j] as nat == old(self)@ + j + 1,
            decreases n - i,
        {
            let r = self.increment_and_get();
            results.push(r);
            i = i + 1;
        }
        proof {
            assert(results@.map_values(|r: usize| r as nat) =~= increment_returns(
                old(self)@,
                n as nat,
            ));
        }
        results
    }
}

/// The values a run of `n` increments returns when it starts from
/// `initial` and never saturates: `initial + 1, ..., initial + n`.
pub open spec fn increment_returns(initial: nat, n: nat) -> Seq<nat> {
    Seq::new(n, |i: int| (initial + i + 1) as nat)
}

/// No lost updates, no duplicate observations: for every sequence of `n`
/// increments that starts at `initial` and stays below saturation, the
/// counter ends at exactly `initial + n`, the returned values are pairwise
/// distinct, and as a set they are exactly `{initial + 1, ..., initial + n}`.
/// (When `initial + n` would exceed `usize::MAX` the counter saturates
/// instead, so the claim is stated below that bound.)
pub proof fn lemma_increment_history(initial: nat, n: nat)
    requires
        initial + n <= usize::MAX,
    ensures
        increment_returns(initial, n).len() == n,
        forall|i: int, j: int|
            0 <= i < j < n ==> increment_returns(initial, n)[i] != increment_returns(initial, n)[j],
        increment_returns(initial, n).to_set() == Set::new(
            |v: nat| initial < v <= initial + n,
        ),
        n > 0 ==> increment_returns(initial, n).last() == initial + n,
{
    let s = increment_returns(initial, n);
    assert forall|v: nat| s.to_set().contains(v) <==> (initial < v <= initial + n) by {
        if initial < v <= initial + n {
            let i = v - initial - 1;
            assert(s[i] == v);
            assert(s.contains(v));
        }
    }
    assert(s.to_set() =~= Set::new(|v: nat| initial < v <= initial + n));
}

/// No stale reads after synchronization: once a sequence of `n` increments
/// from `initial` has completed, the counter's value is `initial + n`, which
/// is at least every value any of those increments returned — in particular
/// at least the last one.
pub proof fn lemma_get_after_increments(initial: nat, n: nat)
    requires
        initial + n <= usize::MAX,
    ensures
        forall|i: int| 0 <= i < n ==> increment_returns(initial, n)[i] <= initial + n,
{
}

} // verus!
