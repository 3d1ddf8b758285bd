//! The shared operation counter: workers add finished attempts in batches,
//! the reporter drains it with a read-and-reset.

use vstd::prelude::*;

verus! {

/// The work accumulator shared by all workers and the reporter. In the
/// running process it is backed by one atomic integer (fetch-add to
/// increment, swap-to-zero to drain); this model carries the accounting
/// that is proved about it: every increment is either still pending or has
/// been taken by exactly one drain, so nothing is lost and nothing is
/// counted twice.
pub struct OpCounter {
    value: u64,
    total_added: Ghost<nat>,
    total_taken: Ghost<nat>,
}

impl OpCounter {
    /// The pending count: increments not yet drained.
    pub closed spec fn pending(&self) -> u64 {
        self.value
    }

    /// The sum of all increments ever added.
    pub closed spec fn total_added(&self) -> nat {
        self.total_added@
    }

    /// The sum of all values ever returned by drains.
    pub closed spec fn total_taken(&self) -> nat {
        self.total_taken@
    }

    /// The counter's ledger balances: all work ever added is either already
    /// drained or still pending.
    pub open spec fn wf(&self) -> bool {
        self.total_added() == self.total_taken() + self.pending()
    }

    /// A fresh counter: nothing added, nothing taken, nothing pending.
    pub fn new() -> (c: OpCounter)
        ensures
            c.wf(),
            c.pending() == 0,
            c.total_added() == 0,
            c.total_taken() == 0,
    {
        OpCounter { value: 0, total_added: Ghost(0), total_taken: Ghost(0) }
    }

    /// Adds a finished batch of `n` attempts.
    pub fn add(&mut self, n: u64)
        requires
            old(self).wf(),
            old(self).pending() + n <= u64::MAX,
        ensures
            final(self).wf(),
            final(self).pending() == old(self).pending() + n,
            final(self).total_added() == old(self).total_added() + n,
            final(self).total_taken() == old(self).total_taken(),
    {
        self.value = self.value + n;
        proof {
            self.total_added@ = self.total_added@ + n as nat;
        }
    }

    /// Drains the counter: returns the pending count and resets it to zero,
    /// as the reporter's atomic swap does.
    pub fn take(&mut self) -> (r: u64)
        requires
            old(self).wf(),
        ensures
            final(self).wf(),
            r == old(self).pending(),
            final(self).pending() == 0,
            final(self).total_taken() == old(self).total_taken() + r,
            final(self).total_added() == old(self).total_added(),
    {
        let r = self.value;
        self.value = 0;
        proof {
            self.total_taken@ = self.total_taken@ + r as nat;
        }
        r
    }
}

/// Accounting law: for any reachable counter state, the sum of all drained
/// reads plus the still-pending count equals the sum of all increments —
/// no increment is lost and none is counted twice.
pub proof fn lemma_counter_accounting(c: OpCounter)
    requires
        c.wf(),
    ensures
        c.total_taken() + c.pending() == c.total_added(),
{
}

} // verus!
