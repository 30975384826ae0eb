use vstd::prelude::*;

verus! {

/// One atomic update of the shared count, made while holding the lock.
pub enum Step {
    Acquire,
    Release,
}

/// Whether `step` may fire when `in_use` permits are held out of `capacity`.
/// An acquire that is not enabled blocks; a release never blocks.
pub open spec fn enabled(in_use: nat, capacity: nat, step: Step) -> bool {
    match step {
        Step::Acquire => in_use < capacity,
        Step::Release => true,
    }
}

/// The count after `step`. A release on a count of zero leaves it at zero.
pub open spec fn next(in_use: nat, step: Step) -> nat {
    match step {
        Step::Acquire => in_use + 1,
        Step::Release => if in_use > 0 { (in_use - 1) as nat } else { 0 },
    }
}

/// The count after the steps of `trace`, taken in order from zero.
pub open spec fn run(trace: Seq<Step>) -> nat
    decreases trace.len(),
{
    if trace.len() == 0 {
        0
    } else {
        next(run(trace.drop_last()), trace.last())
    }
}

/// How many steps of `trace` are `step`.
pub open spec fn count(trace: Seq<Step>, step: Step) -> nat
    decreases trace.len(),
{
    if trace.len() == 0 {
        0
    } else {
        count(trace.drop_last(), step) + if trace.last() == step { 1nat } else { 0nat }
    }
}

/// The threads that have returned from an acquire and not yet released.
pub open spec fn holders(trace: Seq<Step>) -> int {
    count(trace, Step::Acquire) - count(trace, Step::Release)
}

/// Every step of `trace` was enabled when it fired: no acquire got past a
/// full semaphore.
pub open spec fn is_execution(capacity: nat, trace: Seq<Step>) -> bool {
    forall|i: int| 0 <= i < trace.len() ==> #[trigger] enabled(run(trace.take(i)), capacity, trace[i])
}

/// Every release in `trace` is made by a thread that holds a permit.
pub open spec fn releases_by_holders(trace: Seq<Step>) -> bool {
    forall|i: int|
        0 <= i < trace.len() && #[trigger] trace[i] == Step::Release ==> holders(trace.take(i)) > 0
}

proof fn lemma_prefix(capacity: nat, trace: Seq<Step>)
    requires
        trace.len() > 0,
        is_execution(capacity, trace),
        releases_by_holders(trace),
    ensures
        is_execution(capacity, trace.drop_last()),
        releases_by_holders(trace.drop_last()),
        enabled(run(trace.drop_last()), capacity, trace.last()),
        trace.last() == Step::Release ==> holders(trace.drop_last()) > 0,
{
    let p = trace.drop_last();
    assert forall|i: int| 0 <= i < p.len() implies p.take(i) == trace.take(i) && p[i] == trace[i] by {
        assert(p.take(i) =~= trace.take(i));
    }
    assert(trace.take(trace.len() - 1) =~= p);
    let k = trace.len() - 1;
    assert(enabled(run(trace.take(k)), capacity, trace[k]));
    if trace.last() == Step::Release {
        assert(trace[k] == Step::Release);
    }
}

/// However the steps of the threads interleave, the threads that hold a
/// permit are exactly those the count records, and never more than
/// `capacity`.
pub proof fn bound_invariant(capacity: nat, trace: Seq<Step>)
    requires
        is_execution(capacity, trace),
        releases_by_holders(trace),
    ensures
        holders(trace) == run(trace),
        run(trace) <= capacity,
    decreases trace.len(),
{
    if trace.len() > 0 {
        lemma_prefix(capacity, trace);
        bound_invariant(capacity, trace.drop_last());
    }
}

/// An acquire that finds a free permit proceeds: appending it to an execution
/// gives an execution.
pub proof fn acquire_proceeds_when_free(capacity: nat, trace: Seq<Step>)
    requires
        is_execution(capacity, trace),
        run(trace) < capacity,
    ensures
        is_execution(capacity, trace.push(Step::Acquire)),
{
    let t = trace.push(Step::Acquire);
    assert forall|i: int| 0 <= i < t.len() implies #[trigger] enabled(run(t.take(i)), capacity, t[i]) by {
        if i < trace.len() {
            assert(t.take(i) =~= trace.take(i));
            assert(enabled(run(trace.take(i)), capacity, trace[i]));
        } else {
            assert(t.take(i) =~= trace);
        }
    }
}

/// After a release by a holder a permit is free, so the waiter that the
/// release wakes can take it.
pub proof fn release_frees_a_permit(capacity: nat, trace: Seq<Step>)
    requires
        is_execution(capacity, trace),
        releases_by_holders(trace),
        trace.len() > 0,
        trace.last() == Step::Release,
    ensures
        enabled(run(trace), capacity, Step::Acquire),
{
    lemma_prefix(capacity, trace);
    bound_invariant(capacity, trace.drop_last());
}

/// Once every thread that acquired a permit has released it, the count is
/// back at zero.
pub proof fn balanced_usage_returns_to_zero(capacity: nat, trace: Seq<Step>)
    requires
        is_execution(capacity, trace),
        releases_by_holders(trace),
        count(trace, Step::Acquire) == count(trace, Step::Release),
    ensures
        run(trace) == 0,
{
    bound_invariant(capacity, trace);
}

/// A thread that takes a permit and returns it leaves the count as it found
/// it.
pub proof fn acquire_then_release_restores(capacity: nat, in_use: nat)
    requires
        enabled(in_use, capacity, Step::Acquire),
    ensures
        next(next(in_use, Step::Acquire), Step::Release) == in_use,
{
}

/// Whether an acquire must keep waiting: exactly when no permit is free.
pub fn must_wait(in_use: usize, capacity: usize) -> (r: bool)
    ensures
        r == !enabled(in_use as nat, capacity as nat, Step::Acquire),
{
    in_use >= capacity
}

/// The count after an acquire that found a free permit.
pub fn acquired(in_use: usize, capacity: usize) -> (r: usize)
    requires
        enabled(in_use as nat, capacity as nat, Step::Acquire),
    ensures
        r == next(in_use as nat, Step::Acquire),
        r <= capacity,
{
    in_use + 1
}

/// The count after a release.
pub fn released(in_use: usize) -> (r: usize)
    ensures
        r == next(in_use as nat, Step::Release),
{
    if in_use > 0 {
        in_use - 1
    } else {
        0
    }
}

} // verus!
