use vstd::prelude::*;

verus! {

/// What one resumption of a suspendable computation reports.
#[derive(PartialEq, Eq, Debug)]
pub enum GeneratorState<Y> {
    /// The computation produced a value and parked its local state.
    Yielded(Y),
    /// The computation ran to its end.
    Complete,
}

/// Readiness of an asynchronous value.
#[derive(PartialEq, Eq, Debug)]
pub enum Poll<T> {
    Ready(T),
    Pending,
}

/// A synchronous suspendable computation, resumed with no input.
///
/// Its abstract state is the sequence of values it will still emit before it
/// completes.
pub trait Generator: Sized {
    type Yield;

    /// Values still to be emitted, in order.
    spec fn pending(&self) -> Seq<Self::Yield>;

    /// Runs the computation up to its next suspension point.
    fn resume(&mut self) -> (r: GeneratorState<Self::Yield>)
        ensures
            old(self).pending().len() == 0 ==> r is Complete && final(self).pending().len() == 0,
            old(self).pending().len() > 0 ==> r == GeneratorState::Yielded(old(self).pending()[0])
                && final(self).pending() == old(self).pending().drop_first(),
    ;
}

/// An asynchronous suspendable computation: each resumption receives the poll
/// context of the driver and reports either a ready value, a pending wait, or
/// completion.
pub trait AsyncGenerator: Sized {
    type Item;
    type Context;

    /// Whether a resumption with context `cx` may report `r` and leave the
    /// computation in state `next`.
    spec fn resumes_to(&self, cx: Self::Context, next: Self, r: GeneratorState<Poll<Self::Item>>) -> bool;

    fn resume(&mut self, cx: Self::Context) -> (r: GeneratorState<Poll<Self::Item>>)
        ensures
            old(self).resumes_to(cx, *final(self), r),
    ;
}

} // verus!
