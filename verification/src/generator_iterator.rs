//! A pull adapter over a resumable producer of items.
//!
//! Given a producer that on each resumption either yields an item or
//! signals completion, `GeneratorIterator` exposes it as a pull sequence:
//! each `next` call hands back the next yielded item, and completion is
//! forwarded as end-of-sequence. Completion is terminal and sticky: once
//! the producer has completed, every later `next` returns nothing and the
//! producer is never resumed again.

use vstd::prelude::*;

verus! {

/// The outcome of resuming a producer: one more item, or completion with
/// a final value.
pub enum GeneratorState<Y, R> {
    Yielded(Y),
    Complete(R),
}

/// A resumable producer of items. Each call to `resume` either yields the
/// next item or signals that the computation has finished.
pub trait Generator {
    type Yield;

    type Return;

    fn resume(&mut self) -> GeneratorState<Self::Yield, Self::Return>;
}

/// Adapts a [`Generator`] into a pull sequence of its yielded items.
pub struct GeneratorIterator<G: Generator> {
    gen: G,
    done: bool,
}

impl<G: Generator> GeneratorIterator<G> {
    /// Whether the underlying producer has already completed.
    pub closed spec fn spec_done(self) -> bool {
        self.done
    }

    /// Wrap a producer; nothing has been pulled yet, so the sequence is
    /// not at its end.
    pub fn new(gen: G) -> (r: Self)
        ensures
            !r.spec_done(),
    {
        GeneratorIterator { gen, done: false }
    }

    /// Whether the sequence has reached its end.
    pub fn done(&self) -> (r: bool)
        ensures
            r == self.spec_done(),
    {
        self.done
    }

    /// Pull the next item. Returns the producer's next yielded item, or
    /// nothing once the producer completes. Completion is sticky: after a
    /// `None`, every later call returns `None` without resuming the
    /// producer.
    pub fn next(&mut self) -> (r: Option<G::Yield>)
        ensures
            final(self).spec_done() == (old(self).spec_done() || r is None),
            old(self).spec_done() ==> r is None && *final(self) == *old(self),
            r is Some ==> !old(self).spec_done(),
    {
        if self.done {
            return None;
        }
        match self.gen.resume() {
            GeneratorState::Yielded(x) => Some(x),
            GeneratorState::Complete(_) => {
                self.done = true;
                None
            },
        }
    }
}

} // verus!
