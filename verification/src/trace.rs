//! Traces: what a driver did to the outside world, step by step.
//!
//! Every driver of this crate talks to its hardware through a port (a trait
//! without any contract, see [`crate::bus`]) and keeps a ghost [`Trace`] of
//! the calls it made, each with what came back. The contract of a driver
//! function then reads: *replaying the model of the function on the trace
//! ends where the driver ended*. A model is a spec function that looks at one
//! trace entry after the other; it ends in [`Run::Off`] as soon as an entry is
//! not the call that the function has to make at that point. So a contract
//! fixes the calls to a device, their order, the bytes that are sent, and the
//! result for every answer the hardware may give. Where one function drives
//! two devices and the order between them matters, [`crate::board::display`]
//! keeps a log of the steps.
//!
//! Models are replayed on any trace that [`Trace::extends`] the driver's own
//! one, so the contract of a function can be used inside the contract of a
//! longer one.

use vstd::prelude::*;

verus! {

/// A sequence of entries, oldest first.
#[verifier::ext_equal]
pub struct Trace<V> {
    pub entries: Seq<V>,
}

impl<V> Trace<V> {
    pub open spec fn empty() -> Self {
        Trace { entries: Seq::empty() }
    }

    /// The number of entries, which is also the position of the next one.
    pub open spec fn len(self) -> int {
        self.entries.len() as int
    }

    /// The entry at position `i`.
    pub open spec fn at(self, i: int) -> V {
        self.entries[i]
    }

    pub open spec fn push(self, v: V) -> Self {
        Trace { entries: self.entries.push(v) }
    }

    /// `self` starts with all of `earlier`.
    pub open spec fn extends(self, earlier: Self) -> bool {
        &&& earlier.len() <= self.len()
        &&& forall|k: int| 0 <= k < earlier.len() ==> self.at(k) == #[trigger] earlier.at(k)
    }
}

/// An extension of an extension is an extension.
pub broadcast proof fn extends_transitive<V>(a: Trace<V>, b: Trace<V>, c: Trace<V>)
    requires
        #[trigger] a.extends(b),
        #[trigger] b.extends(c),
    ensures
        a.extends(c),
{
    assert forall|k: int| 0 <= k < c.len() implies a.at(k) == #[trigger] c.at(k) by {
        assert(b.at(k) == c.at(k));
    }
}

/// What replaying a model gives: the model's state after the last entry it
/// looked at and the result of the function, or that the trace is off the
/// model.
pub enum Run<M, T, E> {
    Done(M, Result<T, E>),
    Off,
}

impl<M, T, E> Run<M, T, E> {
    /// Go on with `next` after a success; a failure ends the run.
    pub open spec fn chain<U>(self, next: spec_fn(M, T) -> Run<M, U, E>) -> Run<M, U, E> {
        match self {
            Run::Done(m, Ok(t)) => next(m, t),
            Run::Done(m, Err(e)) => Run::Done(m, Err(e)),
            Run::Off => Run::Off,
        }
    }

    /// Go on with `next` whatever the outcome.
    pub open spec fn always<U, F>(self, next: spec_fn(M, Result<T, E>) -> Run<M, U, F>) -> Run<
        M,
        U,
        F,
    > {
        match self {
            Run::Done(m, r) => next(m, r),
            Run::Off => Run::Off,
        }
    }
}

} // verus!
