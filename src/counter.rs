use crate::text::{request_message, request_text};
use vstd::prelude::*;

verus! {

/// The largest value a counter can reach.
pub open spec fn counter_limit() -> int {
    i32::MAX as int
}

/// The value that follows `v`, or `None` when `v` is negative or already at the limit.
pub open spec fn next_count(v: int) -> Option<int> {
    if 0 <= v < counter_limit() {
        Some(v + 1)
    } else {
        None
    }
}

/// The sum of the values in `s`.
pub open spec fn sum_of(s: Seq<int>) -> int
    decreases s.len(),
{
    if s.len() == 0 {
        0
    } else {
        sum_of(s.drop_last()) + s.last()
    }
}

/// A run of successful increments, in the order in which they took effect:
/// `states[i]` is the counter's value before call `i` and `results[i]` the value that
/// call returned, related as the contract of `increment_and_read` relates them.
pub open spec fn is_run(states: Seq<int>, results: Seq<int>) -> bool {
    &&& states.len() == results.len() + 1
    &&& forall|i: int|
        #![trigger results[i]]
        0 <= i < results.len() ==> next_count(states[i]) == Some(results[i]) && states[i + 1]
            == results[i]
}

/// Before call `i` of a run that starts from zero, the counter holds `i`.
proof fn lemma_run_state(states: Seq<int>, results: Seq<int>, i: int)
    requires
        is_run(states, results),
        states[0] == 0,
        0 <= i <= results.len(),
    ensures
        states[i] == i,
    decreases i,
{
    if i > 0 {
        lemma_run_state(states, results, i - 1);
        assert(next_count(states[i - 1]) == Some(results[i - 1]));
    }
}

/// Every run of increments on a fresh counter hands out 1, 2, ..., N in the order the
/// calls take effect: the first call gets 1, no value is handed out twice and none is
/// skipped. Concurrent callers that take turns holding the counter under a lock form
/// such a run in the order they held it, so the values they receive are a permutation
/// of 1..=N.
pub proof fn lemma_run_hands_out_one_to_n(states: Seq<int>, results: Seq<int>)
    requires
        is_run(states, results),
        states[0] == 0,
    ensures
        forall|i: int| 0 <= i < results.len() ==> #[trigger] results[i] == i + 1,
        results.len() > 0 ==> results[0] == 1,
        results.no_duplicates(),
        results.to_set() == Set::new(|k: int| 1 <= k <= results.len()),
{
    assert forall|i: int| 0 <= i < results.len() implies #[trigger] results[i] == i + 1 by {
        lemma_run_state(states, results, i);
    }
    assert forall|k: int| 1 <= k <= results.len() implies results.contains(k) by {
        assert(results[k - 1] == k);
    }
    assert(results.to_set() =~= Set::new(|k: int| 1 <= k <= results.len()));
}

/// The values 1..=n add up to n * (n + 1) / 2.
proof fn lemma_sum_one_to_n(s: Seq<int>)
    requires
        forall|i: int| 0 <= i < s.len() ==> #[trigger] s[i] == i + 1,
    ensures
        sum_of(s) == s.len() * (s.len() + 1) / 2,
    decreases s.len(),
{
    if s.len() > 0 {
        let t = s.drop_last();
        assert forall|i: int| 0 <= i < t.len() implies #[trigger] t[i] == i + 1 by {
            assert(t[i] == s[i]);
        }
        lemma_sum_one_to_n(t);
        let n = s.len() as int;
        assert(sum_of(s) == (n - 1) * n / 2 + n);
        assert((n - 1) * n / 2 + n == n * (n + 1) / 2) by (nonlinear_arith)
            requires
                n >= 1,
        ;
    }
}

/// N increments on a fresh counter, in whatever order the callers take turns, return N
/// distinct values that add up to N * (N + 1) / 2.
pub proof fn lemma_run_sum(states: Seq<int>, results: Seq<int>)
    requires
        is_run(states, results),
        states[0] == 0,
    ensures
        results.no_duplicates(),
        sum_of(results) == results.len() * (results.len() + 1) / 2,
{
    lemma_run_hands_out_one_to_n(states, results);
    lemma_sum_one_to_n(results);
}

/// Why an increment did not take place.
#[derive(Debug, Clone, Copy, PartialEq, Eq, Structural)]
pub enum CounterError {
    /// The counter already holds the largest value it can represent.
    Exhausted,
}

/// Computes the value that follows `v`, when there is one.
pub fn next_value(v: i32) -> (r: Option<i32>)
    ensures
        r is Some <==> next_count(v as int) is Some,
        r matches Some(n) ==> next_count(v as int) == Some(n as int),
{
    if 0 <= v && v < i32::MAX {
        Some(v + 1)
    } else {
        None
    }
}

/// A counter that hands out 1, 2, 3, ... one increment at a time. Callers on several
/// threads share it behind a lock, so that each increment sees the previous one.
pub struct Counter {
    value: i32,
}

impl View for Counter {
    type V = int;

    closed spec fn view(&self) -> int {
        self.value as int
    }
}

impl Counter {
    /// A counter never holds a negative value.
    #[verifier::type_invariant]
    spec fn inv(self) -> bool {
        0 <= self.value
    }

    /// A counter that has handed out nothing yet.
    pub fn new() -> (r: Counter)
        ensures
            r@ == 0,
    {
        Counter { value: 0 }
    }

    /// The value the counter holds now.
    pub fn current(&self) -> (r: i32)
        ensures
            r as int == self@,
            0 <= r,
    {
        proof {
            use_type_invariant(self);
        }
        self.value
    }

    /// Adds one to the counter and returns the new value.
    pub fn increment_and_read(&mut self) -> (r: Result<i32, CounterError>)
        ensures
            r is Ok <==> old(self)@ < counter_limit(),
            r matches Ok(v) ==> next_count(old(self)@) == Some(v as int) && final(self)@ == v,
            r is Err ==> r == Err::<i32, CounterError>(CounterError::Exhausted) && final(self)@
                == old(self)@,
    {
        proof {
            use_type_invariant(&*self);
        }
        match next_value(self.value) {
            Some(v) => {
                self.value = v;
                Ok(v)
            },
            None => Err(CounterError::Exhausted),
        }
    }

    /// Adds one to the counter and formats the reply that reports the new value.
    pub fn count(&mut self) -> (r: Result<String, CounterError>)
        ensures
            r is Ok <==> old(self)@ < counter_limit(),
            r matches Ok(s) ==> final(self)@ == old(self)@ + 1 && s@ == request_text(
                final(self)@ as nat,
            ),
            r is Err ==> r == Err::<String, CounterError>(CounterError::Exhausted) && final(self)@
                == old(self)@,
    {
        match self.increment_and_read() {
            Ok(v) => Ok(request_message(v as u32)),
            Err(e) => Err(e),
        }
    }
}


} // verus!
