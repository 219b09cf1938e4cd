//! Self-correcting pacing gate for outbound upstream calls.
//!
//! One shared counter holds the number of seconds until the next free pacing
//! slot. Each acquisition reads the counter as its own wait and bumps the
//! counter by the configured interval, so concurrent acquirers are serialized
//! into a strictly increasing schedule of virtual time slots. Once a waiter's
//! slot has passed, it returns its reserved width to the shared budget, unless
//! it was the immediate (zero-wait) slot, which stays consumed.

use vstd::prelude::*;

verus! {

/// Pacing state shared by every request: the seconds until the next free
/// slot, and the fixed width of one slot.
pub struct RateLimit {
    /// Seconds until the next free pacing slot.
    counter: u64,
    /// Seconds reserved for each acquisition; 0 disables pacing.
    limit: u64,
}

impl RateLimit {
    /// The configured slot width.
    pub closed spec fn spec_limit(&self) -> u64 {
        self.limit
    }

    /// Seconds until the next free slot.
    pub closed spec fn spec_counter(&self) -> u64 {
        self.counter
    }

    /// The seconds until the next free slot, for callers that must test
    /// before acquiring.
    pub fn pending(&self) -> (seconds: u64)
        ensures
            seconds == self.spec_counter(),
    {
        self.counter
    }

    /// The configured slot width, for callers that must test before acquiring.
    pub fn interval(&self) -> (seconds: u64)
        ensures
            seconds == self.spec_limit(),
    {
        self.limit
    }

    /// A fresh gate: no slot is taken yet.
    pub fn new(limit: u64) -> (gate: Self)
        ensures
            gate.spec_limit() == limit,
            gate.spec_counter() == 0,
    {
        Self { counter: 0, limit }
    }

    /// Takes the next pacing slot: the returned value is how many seconds the
    /// caller must suspend before proceeding, and the counter grows by one
    /// slot width so that the next acquirer is scheduled behind this one.
    pub fn acquire(&mut self) -> (wait: u64)
        requires
            old(self).spec_counter() + old(self).spec_limit() <= u64::MAX,
        ensures
            wait == old(self).spec_counter(),
            final(self).spec_counter() == old(self).spec_counter() + old(self).spec_limit(),
            final(self).spec_limit() == old(self).spec_limit(),
            forall|k: nat|
                old(self).spec_counter() == #[trigger] slot_of(k, old(self).spec_limit())
                    ==> final(self).spec_counter() == slot_of(k + 1, old(self).spec_limit()),
    {
        let wait = self.counter;
        self.counter = self.counter + self.limit;
        wait
    }

    /// Returns a consumed slot's width to the shared budget once the wait has
    /// passed. The immediate slot (wait 0) is never returned: its width stays
    /// consumed, so later acquirers keep at least one slot of distance.
    pub fn release(&mut self, wait: u64)
        requires
            wait != 0 ==> old(self).spec_counter() >= old(self).spec_limit(),
        ensures
            wait != 0 ==> final(self).spec_counter()
                == old(self).spec_counter() - old(self).spec_limit(),
            wait == 0 ==> final(self).spec_counter() == old(self).spec_counter(),
            final(self).spec_limit() == old(self).spec_limit(),
    {
        if wait != 0 {
            self.counter = self.counter - self.limit;
        }
    }
}

/// The wait handed to the k-th of a run of acquisitions that start on a
/// fresh gate with no release in between: each earlier acquisition has added
/// one slot width to the counter, which the k-th then reads as its wait.
pub open spec fn slot_of(k: nat, limit: u64) -> int
    decreases k,
{
    if k == 0 {
        0
    } else {
        slot_of((k - 1) as nat, limit) + limit
    }
}

/// The k-th slot is k slot widths: the schedule is arithmetic.
pub proof fn lemma_slot_value(k: nat, limit: u64)
    ensures
        slot_of(k, limit) == k * (limit as int),
    decreases k,
{
    if k == 0 {
        assert(0 * (limit as int) == 0) by (nonlinear_arith);
    } else {
        let j = (k - 1) as nat;
        lemma_slot_value(j, limit);
        assert(slot_of(k, limit) == slot_of(j, limit) + limit);
        assert((j as int) * (limit as int) + (limit as int) == ((j as int) + 1) * (limit as int))
            by (nonlinear_arith);
        assert((j as int) + 1 == k as int);
    }
}

/// Law: on a fresh gate, N acquisitions — however they interleave, since
/// each read-and-bump is one indivisible step — complete at the waits
/// 0, I, 2I, ..., (N-1)I: the k-th arrival waits exactly k intervals, and no
/// two arrivals share a slot when the interval is nonzero.
pub proof fn lemma_fresh_gate_schedule(n: nat, limit: u64)
    ensures
        forall|k: nat| k < n ==> #[trigger] slot_of(k, limit) == k * (limit as int),
        limit != 0 ==> forall|j: nat, k: nat|
            #![trigger slot_of(j, limit), slot_of(k, limit)]
            j < n && k < n && j != k ==> slot_of(j, limit) != slot_of(k, limit),
{
    assert forall|k: nat| k < n implies #[trigger] slot_of(k, limit) == k * (limit as int) by {
        lemma_slot_value(k, limit);
    }
    if limit != 0 {
        assert forall|j: nat, k: nat|
            #![trigger slot_of(j, limit), slot_of(k, limit)]
            j < n && k < n && j != k implies slot_of(j, limit) != slot_of(k, limit) by {
            lemma_slot_value(j, limit);
            lemma_slot_value(k, limit);
            assert(j * (limit as int) != k * (limit as int)) by (nonlinear_arith)
                requires
                    j != k,
                    limit != 0,
            ;
        }
    }
}

/// Law: with interval 0 every slot is immediate — an acquisition never
/// suspends, whatever the concurrency.
pub proof fn lemma_zero_interval_never_suspends(k: nat)
    ensures
        slot_of(k, 0) == 0,
    decreases k,
{
    if k > 0 {
        lemma_zero_interval_never_suspends((k - 1) as nat);
    }
}

} // verus!
