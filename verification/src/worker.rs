//! The worker step: evaluate one batch of generated addresses against the
//! target, and apply the outcome to the shared stop flag and counter.

use vstd::prelude::*;

use crate::counter::OpCounter;
use crate::flag::StopFlag;
use crate::target::SearchTarget;
use crate::target::seq_starts_with;

verus! {

/// The number of generation attempts a worker performs between checks of
/// the stop flag and updates of the shared counter.
pub const BATCH_SIZE: usize = 10;

/// The stop decision for one batch: the run stops on this batch exactly
/// when early exit is enabled and some attempt in the batch matched.
pub open spec fn batch_sets_stop(matched: Seq<bool>, exit: bool) -> bool {
    exit && (exists|i: int| 0 <= i < matched.len() && matched[i])
}

/// What one worker batch decided: which attempts matched, whether any did,
/// whether the run must stop, and how much work to add to the counter.
pub struct BatchOutcome {
    /// For each address of the batch, whether it satisfied the target.
    pub matched: Vec<bool>,
    /// Some attempt in the batch matched.
    pub any_match: bool,
    /// The global stop flag must be set.
    pub set_stop: bool,
    /// The number of attempts performed, to add to the shared counter.
    pub count: u64,
}

/// Evaluates one batch of generated addresses: tests every address against
/// the target — the whole batch is processed even after a match — and
/// decides whether the run stops.
pub fn evaluate_batch(target: &SearchTarget, addresses: &Vec<String>, exit: bool) -> (out:
    BatchOutcome)
    requires
        addresses@.len() <= u64::MAX,
    ensures
        out.matched@.len() == addresses@.len(),
        forall|i: int|
            0 <= i < addresses@.len() ==> out.matched@[i] == seq_starts_with(
                addresses@[i]@,
                target@,
            ),
        out.any_match == (exists|i: int| 0 <= i < out.matched@.len() && out.matched@[i]),
        out.set_stop == batch_sets_stop(out.matched@, exit),
        out.count == addresses@.len(),
{
    let n = addresses.len();
    let mut matched: Vec<bool> = Vec::new();
    let mut any_match = false;
    let mut i: usize = 0;
    while i < n
        invariant
            n == addresses@.len(),
            i <= n,
            matched@.len() == i,
            forall|j: int|
                0 <= j < i ==> matched@[j] == seq_starts_with(addresses@[j]@, target@),
            any_match == (exists|j: int| 0 <= j < matched@.len() && matched@[j]),
        decreases n - i,
    {
        let m = target.matches_address(addresses[i].as_str());
        let ghost pre = matched@;
        matched.push(m);
        if m {
            any_match = true;
        }
        proof {
            if any_match {
                if m {
                    assert(matched@[pre.len() as int]);
                } else {
                    let j = choose|j: int| 0 <= j < pre.len() && pre[j];
                    assert(matched@[j]);
                }
            } else {
                assert forall|j: int| 0 <= j < matched@.len() implies !matched@[j] by {
                    if j < pre.len() {
                        assert(matched@[j] == pre[j]);
                    }
                }
            }
        }
        i = i + 1;
    }
    let set_stop = exit && any_match;
    BatchOutcome { matched, any_match, set_stop, count: n as u64 }
}

/// Runs one worker batch against the shared state: evaluates the addresses,
/// sets the stop flag when early exit is enabled and a match was found, and
/// adds the attempts performed to the counter.
///
/// Early-exit law: the flag ends stopped exactly when it already was, or
/// early exit is enabled and some attempt matched — so with early exit
/// disabled a match never sets it, and once stopped it stays stopped.
pub fn process_batch(
    target: &SearchTarget,
    addresses: &Vec<String>,
    exit: bool,
    stop: &mut StopFlag,
    counter: &mut OpCounter,
) -> (matched: Vec<bool>)
    requires
        old(counter).wf(),
        old(counter).pending() + addresses@.len() <= u64::MAX,
    ensures
        matched@.len() == addresses@.len(),
        forall|i: int|
            0 <= i < addresses@.len() ==> matched@[i] == seq_starts_with(
                addresses@[i]@,
                target@,
            ),
        final(counter).wf(),
        final(counter).pending() == old(counter).pending() + addresses@.len(),
        final(counter).total_added() == old(counter).total_added() + addresses@.len(),
        final(counter).total_taken() == old(counter).total_taken(),
        final(stop).is_stopped() == (old(stop).is_stopped() || batch_sets_stop(matched@, exit)),
{
    let out = evaluate_batch(target, addresses, exit);
    if out.set_stop {
        stop.set();
    }
    counter.add(out.count);
    out.matched
}

} // verus!
