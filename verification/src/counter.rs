//! The process-wide request counter and the root endpoint's response body.
//! The counter starts at zero and each root request moves it up by exactly
//! one. The caller serializes access (one lock around the value); under that
//! serialization no update is lost and the observed values are 1, 2, 3, ...
use vstd::prelude::*;
use vstd::string::StringExecFns;

use crate::digits::{dec_rep, digits_val, lemma_dec_rep_val, u64_to_decimal};

verus! {

/// The shared counter: one integer, initialized to zero, never reset.
pub struct RequestCounter {
    /// How many root requests have been answered so far.
    pub count: u64,
}

impl RequestCounter {
    /// A fresh counter, as the process starts: zero requests seen.
    pub fn new() -> (c: RequestCounter)
        ensures
            c.count == 0,
    {
        RequestCounter { count: 0 }
    }

    /// One root request: move the counter up by one and return the value
    /// this request stored, so that no two requests report the same number.
    pub fn increment(&mut self) -> (v: u64)
        requires
            old(self).count < u64::MAX,
        ensures
            final(self).count == old(self).count + 1,
            v == final(self).count,
    {
        self.count = self.count + 1;
        self.count
    }
}

/// The body of the root endpoint's response for a counter value.
pub open spec fn index_body_spec(n: nat) -> Seq<char> {
    "Request number: "@ + dec_rep(n)
}

/// Answer one root request: step the counter and render the new value.
pub fn index_handler(counter: &mut RequestCounter) -> (body: String)
    requires
        old(counter).count < u64::MAX,
    ensures
        final(counter).count == old(counter).count + 1,
        body@ == index_body_spec(final(counter).count as nat),
{
    let v = counter.increment();
    let digits = u64_to_decimal(v);
    let mut body = String::from_str("Request number: ");
    body.append(digits.as_str());
    body
}

/// Different counter values render as different response bodies, so within
/// a batch every request shows a value unique to it in its body.
pub proof fn lemma_index_bodies_distinct(a: nat, b: nat)
    requires
        a != b,
    ensures
        index_body_spec(a) != index_body_spec(b),
{
    lemma_dec_rep_val(a);
    lemma_dec_rep_val(b);
    if index_body_spec(a) == index_body_spec(b) {
        let p = "Request number: "@;
        assert((p + dec_rep(a)).skip(p.len() as int) =~= dec_rep(a));
        assert((p + dec_rep(b)).skip(p.len() as int) =~= dec_rep(b));
        assert(digits_val(dec_rep(a)) == digits_val(dec_rep(b)));
        assert(false);
    }
}

/// The values a batch of root requests observes, linearized by the lock: the
/// first request moves the counter from zero to one, and each later request
/// moves it up from where the previous one left it.
pub open spec fn counter_observations(obs: Seq<u64>) -> bool {
    &&& (obs.len() > 0 ==> obs[0] == 1)
    &&& forall|i: int| 1 <= i < obs.len() ==> #[trigger] obs[i] == obs[i - 1] + 1
}

/// The request at one position of the batch observed exactly its position,
/// counted from one.
proof fn lemma_counter_value(obs: Seq<u64>, i: int)
    requires
        counter_observations(obs),
        0 <= i < obs.len(),
    ensures
        obs[i] == i + 1,
    decreases i,
{
    if i > 0 {
        lemma_counter_value(obs, i - 1);
    }
}

/// No update is lost: after a batch of root requests the counter shows
/// exactly the batch's size, and every request observed its own value, the
/// values being 1 up to the batch's size in linearization order.
pub proof fn lemma_counter_exact(obs: Seq<u64>)
    requires
        counter_observations(obs),
    ensures
        forall|i: int| 0 <= i < obs.len() ==> #[trigger] obs[i] == i + 1,
        obs.len() > 0 ==> obs.last() == obs.len(),
        forall|i: int, j: int| 0 <= i < j < obs.len() ==> obs[i] != obs[j],
{
    assert forall|i: int| 0 <= i < obs.len() implies #[trigger] obs[i] == i + 1 by {
        lemma_counter_value(obs, i);
    }
    if obs.len() > 0 {
        lemma_counter_value(obs, obs.len() - 1);
    }
    assert forall|i: int, j: int| 0 <= i < j < obs.len() implies obs[i] != obs[j] by {
        lemma_counter_value(obs, i);
        lemma_counter_value(obs, j);
    }
}

} // verus!
