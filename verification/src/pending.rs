//! How many sub-resource requests are in flight.

use vstd::prelude::*;

verus! {

/// The number of requests spawned but not yet delivered. Settling goes on while it
/// is not zero.
pub struct PendingCount {
    count: usize,
}

impl View for PendingCount {
    type V = nat;

    closed spec fn view(&self) -> nat {
        self.count as nat
    }
}

/// One more than `n`, starting over after the largest number that a count holds.
pub open spec fn one_more(n: nat) -> nat {
    if n == usize::MAX {
        0
    } else {
        n + 1
    }
}

/// One less than `n`, undoing `one_more`.
pub open spec fn one_less(n: nat) -> nat {
    if n == 0 {
        usize::MAX as nat
    } else {
        (n - 1) as nat
    }
}

impl PendingCount {
    /// Nothing is in flight.
    pub fn new() -> (c: PendingCount)
        ensures
            c@ == 0,
    {
        PendingCount { count: 0 }
    }

    /// Whether any spawned request has yet to deliver its bytes.
    pub fn has_pending(&self) -> (r: bool)
        ensures
            r == (self@ > 0),
    {
        self.count > 0
    }
}

/// One request in flight. It counts from its start to its first release, so that a
/// request which fails half-way is released once like any other.
pub struct PendingGuard {
    held: bool,
}

impl PendingGuard {
    /// The guard still counts.
    pub closed spec fn holds(self) -> bool {
        self.held
    }

    /// Counts a request.
    pub fn new(count: &mut PendingCount) -> (g: PendingGuard)
        ensures
            g.holds(),
            final(count)@ == one_more(old(count)@),
    {
        count.count = count.count.wrapping_add(1);
        PendingGuard { held: true }
    }

    /// Stops counting the request. A guard that was released before is left alone.
    pub fn release(&mut self, count: &mut PendingCount)
        ensures
            !final(self).holds(),
            final(count)@ == if old(self).holds() {
                one_less(old(count)@)
            } else {
                old(count)@
            },
    {
        if self.held {
            self.held = false;
            count.count = count.count.wrapping_sub(1);
        }
    }
}

/// The count after requests have started (`true`) and been released (`false`) in
/// this order, from none.
pub open spec fn count_after(trace: Seq<bool>) -> nat
    decreases trace.len(),
{
    if trace.len() == 0 {
        0
    } else if trace.last() {
        one_more(count_after(trace.drop_last()))
    } else {
        one_less(count_after(trace.drop_last()))
    }
}

/// How many requests of the trace are in flight: those started without those
/// released.
pub open spec fn in_flight(trace: Seq<bool>) -> int
    decreases trace.len(),
{
    if trace.len() == 0 {
        0
    } else if trace.last() {
        in_flight(trace.drop_last()) + 1
    } else {
        in_flight(trace.drop_last()) - 1
    }
}

/// The count is the number of requests in flight, and so nothing is pending exactly
/// when every request that started has been released. Each release belongs to a
/// request that started before, and fewer requests are in flight than a count holds.
pub proof fn law_count_is_what_is_in_flight(trace: Seq<bool>)
    requires
        forall|i: int|
            0 <= i <= trace.len() ==> 0 <= #[trigger] in_flight(trace.take(i)) <= usize::MAX,
    ensures
        count_after(trace) == in_flight(trace),
    decreases trace.len(),
{
    assert(trace.take(trace.len() as int) =~= trace);
    if trace.len() > 0 {
        let rest = trace.drop_last();
        assert forall|i: int| 0 <= i <= rest.len() implies 0 <= #[trigger] in_flight(rest.take(i))
            <= usize::MAX by {
            assert(rest.take(i) =~= trace.take(i));
        }
        law_count_is_what_is_in_flight(rest);
        assert(0 <= in_flight(trace.take(trace.len() as int)));
    }
}

/// Releasing a request undoes starting it.
pub proof fn law_release_undoes_start(n: nat)
    requires
        n <= usize::MAX,
    ensures
        one_less(one_more(n)) == n,
{
}

} // verus!
