//! The cursor type and the mathematical model of its operations.

use vstd::prelude::*;

verus! {

/// Why a consumption request was refused. Both kinds signal a logic error in
/// the caller's index bookkeeping, not a recoverable runtime condition: an
/// invalid request consumes nothing and the cursor is left unchanged.
#[derive(Clone, Copy, Debug, PartialEq, Eq)]
pub enum DrainError {
    /// More elements were requested than remain in the stream.
    OverConsumption,
    /// `drain_to` named an absolute index before the already-consumed count.
    BackwardDrain,
}

/// How many elements are left once `consumed` of `stream` have been yielded.
pub open spec fn spec_remaining<T>(stream: Seq<T>, consumed: nat) -> nat
    recommends
        consumed <= stream.len(),
{
    (stream.len() - consumed) as nat
}

/// The outcome of draining `n` elements of `stream` when `consumed` have
/// already been yielded: on success, the elements yielded (in stream order)
/// and the new consumed count.
pub open spec fn spec_drain<T>(stream: Seq<T>, consumed: nat, n: nat) -> Result<
    (Seq<T>, nat),
    DrainError,
> {
    if consumed + n <= stream.len() {
        Result::Ok((stream.subrange(consumed as int, (consumed + n) as int), consumed + n))
    } else {
        Result::Err(DrainError::OverConsumption)
    }
}

/// The outcome of draining up to (but not including) absolute index `end`:
/// a backward target is refused outright, anything else delegates to
/// `spec_drain` on the implied count.
pub open spec fn spec_drain_to<T>(stream: Seq<T>, consumed: nat, end: nat) -> Result<
    (Seq<T>, nat),
    DrainError,
> {
    if end < consumed {
        Result::Err(DrainError::BackwardDrain)
    } else {
        spec_drain(stream, consumed, (end - consumed) as nat)
    }
}

/// A forward-only cursor over a borrowed stream of tokens. It never copies
/// or mutates the stream; its only state is the count of elements already
/// yielded, which moves monotonically from 0 to the stream's length.
pub struct TokenVec<'a, T> {
    tokens: &'a Vec<T>,
    consumed: usize,
}

impl<'a, T> TokenVec<'a, T> {
    /// The underlying stream, as a sequence.
    pub closed spec fn stream(self) -> Seq<T> {
        self.tokens@
    }

    /// The count of elements already yielded.
    pub closed spec fn consumed(self) -> nat {
        self.consumed as nat
    }

    /// The cursor's invariant: consumption never exceeds the stream length.
    pub open spec fn inv(self) -> bool {
        self.consumed() <= self.stream().len()
    }

    /// The count of elements not yet yielded.
    pub open spec fn remaining(self) -> nat
        recommends
            self.inv(),
    {
        spec_remaining(self.stream(), self.consumed())
    }

    /// Creates a cursor at the start of `tokens`. Any stream, including an
    /// empty one, is valid.
    pub fn new(tokens: &'a Vec<T>) -> (c: TokenVec<'a, T>)
        ensures
            c.stream() == tokens@,
            c.consumed() == 0,
            c.inv(),
    {
        TokenVec { tokens, consumed: 0 }
    }

    /// Consumes the next `n` elements and returns them, in stream order, as
    /// a read-only view into the stream. A request for more elements than
    /// remain is refused with `OverConsumption` and leaves the cursor
    /// unchanged; over-consumption never silently succeeds.
    pub fn drain(&mut self, n: usize) -> (r: Result<&'a [T], DrainError>)
        requires
            old(self).inv(),
        ensures
            final(self).inv(),
            final(self).stream() == old(self).stream(),
            match spec_drain(old(self).stream(), old(self).consumed(), n as nat) {
                Result::Ok(p) => {
                    &&& r matches Ok(s) && s@ == p.0
                    &&& final(self).consumed() == p.1
                },
                Result::Err(e) => {
                    &&& r matches Err(a) && a == e
                    &&& *final(self) == *old(self)
                },
            },
    {
        let remaining = self.tokens.len() - self.consumed;
        if n > remaining {
            return Err(DrainError::OverConsumption);
        }
        let start = self.consumed;
        self.consumed = start + n;
        let tokens: &'a Vec<T> = self.tokens;
        Ok(vstd::slice::slice_subrange(tokens.as_slice(), start, start + n))
    }

    /// Consumes elements from the current offset up to (but not including)
    /// absolute index `end`. A target before the already-consumed count is
    /// refused with `BackwardDrain`; one past the stream's length is refused
    /// with `OverConsumption`. Either failure leaves the cursor unchanged.
    pub fn drain_to(&mut self, end: usize) -> (r: Result<&'a [T], DrainError>)
        requires
            old(self).inv(),
        ensures
            final(self).inv(),
            final(self).stream() == old(self).stream(),
            match spec_drain_to(old(self).stream(), old(self).consumed(), end as nat) {
                Result::Ok(p) => {
                    &&& r matches Ok(s) && s@ == p.0
                    &&& final(self).consumed() == p.1
                },
                Result::Err(e) => {
                    &&& r matches Err(a) && a == e
                    &&& *final(self) == *old(self)
                },
            },
    {
        if end < self.consumed {
            return Err(DrainError::BackwardDrain);
        }
        self.drain(end - self.consumed)
    }

    /// Returns how many elements are left to drain.
    pub fn len(&self) -> (r: usize)
        requires
            self.inv(),
        ensures
            r == self.remaining(),
    {
        self.tokens.len() - self.consumed
    }
}

} // verus!
