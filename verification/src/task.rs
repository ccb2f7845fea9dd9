//! The vocabulary of polling: readiness reports, resume handles, and the
//! interface of a computation that is advanced one poll at a time.

use std::task::Poll;
use std::task::Waker;
use vstd::prelude::*;

verus! {

/// `std::task::Poll`, declared with its two variants, `Ready` and `Pending`,
/// so that contracts can match on a readiness report.
#[verifier::external_type_specification]
#[verifier::reject_recursive_types(T)]
pub struct ExPoll<T>(Poll<T>);

/// `std::task::Waker`, the resume handle of a suspended task. Proofs see a
/// handle as an opaque value: they can tell two handles apart and nothing more.
#[verifier::external_type_specification]
#[verifier::external_body]
pub struct ExWaker(Waker);

/// `Waker::wake` consumes a handle and asks the scheduler behind it to poll
/// the task again. Nothing is assumed about what the scheduler then does.
pub assume_specification[ Waker::wake ](waker: Waker);

/// `Waker::clone`: a second handle for the same task. The only thing assumed
/// is that the result is a clone of the argument.
#[verifier::external_body]
pub(crate) fn duplicate(waker: &Waker) -> (copy: Waker)
    ensures
        cloned::<Waker>(*waker, copy),
{
    waker.clone()
}

/// A computation that is advanced by polling: each poll either reports the
/// final output or reports that the computation is suspended, in which case
/// the computation has arranged for `waker` to be invoked once polling again
/// is worthwhile.
pub trait Pollable: Sized {
    /// What the computation produces when it completes.
    type Output;

    /// Whether the computation must not be polled any more. Unless an
    /// implementation says otherwise, a computation may always be polled.
    open spec fn finished(self) -> bool {
        false
    }

    /// Whether a single poll with `waker` may take the computation from
    /// `self` to `next` while reporting `out`. Unless an implementation says
    /// otherwise, a poll may do anything.
    open spec fn polled(self, waker: Waker, next: Self, out: Poll<Self::Output>) -> bool {
        true
    }

    /// Polls the computation once.
    fn poll(&mut self, waker: &Waker) -> (out: Poll<Self::Output>)
        requires
            !old(self).finished(),
        ensures
            old(self).polled(*waker, *final(self), out),
            out is Pending ==> !final(self).finished(),
    ;
}

} // verus!
