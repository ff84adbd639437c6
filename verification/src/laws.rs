//! Laws of the cursor's consumption model, proved over the spec functions
//! that the executable operations' contracts are stated with.

use vstd::prelude::*;
use crate::token_vec::{spec_remaining, spec_drain, spec_drain_to, DrainError};

verus! {

/// A successful drain of `n` elements lowers the remaining count by exactly
/// `n`.
pub proof fn lemma_drain_lowers_remaining<T>(stream: Seq<T>, consumed: nat, n: nat)
    requires
        consumed <= stream.len(),
        n <= spec_remaining(stream, consumed),
    ensures
        spec_drain(stream, consumed, n) matches Ok(p) && spec_remaining(stream, p.1)
            == spec_remaining(stream, consumed) - n,
{
}

/// Draining zero elements never fails and yields the empty sequence,
/// whatever has been consumed so far — including on a fully drained cursor.
pub proof fn lemma_drain_zero<T>(stream: Seq<T>, consumed: nat)
    requires
        consumed <= stream.len(),
    ensures
        spec_drain(stream, consumed, 0) matches Ok(p) && p.0 == Seq::<T>::empty() && p.1
            == consumed,
{
    let p = spec_drain(stream, consumed, 0)->Ok_0;
    assert(p.0 =~= Seq::<T>::empty());
}

/// A successful drain up to absolute index `end` leaves exactly
/// `stream.len() - end` elements remaining.
pub proof fn lemma_drain_to_remaining<T>(stream: Seq<T>, consumed: nat, end: nat)
    requires
        consumed <= end <= stream.len(),
    ensures
        spec_drain_to(stream, consumed, end) matches Ok(p) && p.1 == end && spec_remaining(
            stream,
            p.1,
        ) == stream.len() - end,
{
}

/// Draining to an absolute index before the already-consumed count fails
/// with `BackwardDrain`; the operations' contracts add that a failing call
/// leaves the cursor unchanged.
pub proof fn lemma_drain_to_backward<T>(stream: Seq<T>, consumed: nat, end: nat)
    requires
        end < consumed,
    ensures
        spec_drain_to(stream, consumed, end) == Result::<(Seq<T>, nat), DrainError>::Err(
            DrainError::BackwardDrain,
        ),
{
}

/// Failure is idempotent: a failing drain leaves the consumed count
/// unchanged (its contract says so), so a retry with the same argument,
/// made from that unchanged state, fails with the identical error.
pub proof fn lemma_failed_drain_retry<T>(
    stream: Seq<T>,
    consumed: nat,
    consumed_after: nat,
    n: nat,
)
    requires
        spec_drain(stream, consumed, n) is Err,
        consumed_after == consumed,
    ensures
        spec_drain(stream, consumed_after, n) == spec_drain(stream, consumed, n),
{
}

/// Failure is idempotent for `drain_to` as well: retrying a failed call
/// with the same target index, from the unchanged state that the failure
/// left behind, fails with the identical error.
pub proof fn lemma_failed_drain_to_retry<T>(
    stream: Seq<T>,
    consumed: nat,
    consumed_after: nat,
    end: nat,
)
    requires
        spec_drain_to(stream, consumed, end) is Err,
        consumed_after == consumed,
    ensures
        spec_drain_to(stream, consumed_after, end) == spec_drain_to(stream, consumed, end),
{
}

/// The total of a sequence of drain counts.
pub open spec fn sum_of(counts: Seq<nat>) -> nat
    decreases counts.len(),
{
    if counts.len() == 0 {
        0
    } else {
        counts[0] + sum_of(counts.drop_first())
    }
}

/// The consumed count after draining `counts[0]`, then `counts[1]`, and so
/// on; the first failure, if any, is the overall outcome.
pub open spec fn spec_drain_all<T>(stream: Seq<T>, consumed: nat, counts: Seq<nat>) -> Result<
    nat,
    DrainError,
>
    decreases counts.len(),
{
    if counts.len() == 0 {
        Result::Ok(consumed)
    } else {
        match spec_drain(stream, consumed, counts[0]) {
            Result::Ok(p) => spec_drain_all(stream, p.1, counts.drop_first()),
            Result::Err(e) => Result::Err(e),
        }
    }
}

/// Any sequence of drains whose counts sum exactly to the remaining length
/// succeeds in full and leaves zero elements remaining; from that state a
/// further drain of zero still succeeds while a drain of one fails with
/// `OverConsumption`.
pub proof fn lemma_exhausting_drains<T>(stream: Seq<T>, consumed: nat, counts: Seq<nat>)
    requires
        consumed <= stream.len(),
        sum_of(counts) == spec_remaining(stream, consumed),
    ensures
        spec_drain_all(stream, consumed, counts) == Result::<nat, DrainError>::Ok(stream.len()),
        spec_remaining(stream, stream.len()) == 0,
        spec_drain(stream, stream.len(), 0) is Ok,
        spec_drain(stream, stream.len(), 1) == Result::<(Seq<T>, nat), DrainError>::Err(
            DrainError::OverConsumption,
        ),
    decreases counts.len(),
{
    if counts.len() > 0 {
        let next = (consumed + counts[0]) as nat;
        lemma_exhausting_drains(stream, next, counts.drop_first());
    }
}

} // verus!
