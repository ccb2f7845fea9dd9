//! Cooperative cancellation for computations that are advanced by polling.
//!
//! A [`Cancellable`] races a work computation against a cancellation source
//! and resolves as soon as either completes, the cancellation first. The
//! [`signal`] module provides the usual cancellation source: a channel whose
//! sender raises a flag and whose receiver waits for it.

pub mod signal;
pub mod sync;
pub mod task;

use crate::signal::cancellation_signal;
use crate::signal::CancellationFuture;
use crate::signal::CancellationSender;
use crate::signal::CancellationSignal;
use crate::task::Pollable;
use std::task::Poll;
use std::task::Waker;
use vstd::prelude::*;

verus! {

/// The error of a computation that was cancelled before it completed.
#[derive(Debug, PartialEq, Eq, Hash, Structural)]
pub struct Cancelled;

impl Clone for Cancelled {
    fn clone(&self) -> (copy: Self)
        ensures
            copy == *self,
    {
        Cancelled
    }
}

impl Cancelled {
    /// The message that describes the error.
    pub fn message(&self) -> (text: String)
        ensures
            text@ == "the task was cancelled"@,
    {
        "the task was cancelled".to_string()
    }
}

/// What a cancellable computation reports on a poll in which its
/// cancellation source reports `cancel` and its work would report `work`.
/// Cancellation is looked at first: when it is ready the work's report does
/// not matter.
pub open spec fn resolution<R>(cancel: Poll<()>, work: Poll<R>) -> Poll<Result<R, Cancelled>> {
    match cancel {
        Poll::Ready(_) => Poll::Ready(Err(Cancelled)),
        Poll::Pending => match work {
            Poll::Ready(output) => Poll::Ready(Ok(output)),
            Poll::Pending => Poll::Pending,
        },
    }
}

/// Decides what a cancellable computation reports from the reports of its
/// two parts.
pub fn resolve<R>(cancel: Poll<()>, work: Poll<R>) -> (out: Poll<Result<R, Cancelled>>)
    ensures
        out == resolution(cancel, work),
{
    match cancel {
        Poll::Ready(_) => Poll::Ready(Err(Cancelled)),
        Poll::Pending => match work {
            Poll::Ready(output) => Poll::Ready(Ok(output)),
            Poll::Pending => Poll::Pending,
        },
    }
}

/// A work computation paired with a cancellation source. It is polled like
/// any other computation and reports the work's output, or [`Cancelled`] if
/// the cancellation source was ready first.
pub struct Cancellable<F, C> {
    cancel: C,
    future: F,
    resolved: Ghost<bool>,
}

impl<F, C> Cancellable<F, C> {
    /// The cancellation source.
    pub closed spec fn cancel(self) -> C {
        self.cancel
    }

    /// The work computation.
    pub closed spec fn work(self) -> F {
        self.future
    }

    /// Whether a poll has already reported the final result.
    pub closed spec fn resolved(self) -> bool {
        self.resolved@
    }
}

impl<F, C: Pollable<Output = ()>> Cancellable<F, C> {
    /// Pairs `future` with the cancellation source `cancel`.
    pub fn new(cancel: C, future: F) -> (pair: Self)
        ensures
            pair.cancel() == cancel,
            pair.work() == future,
            !pair.resolved(),
    {
        Cancellable { cancel, future, resolved: Ghost(false) }
    }
}

impl<F> Cancellable<F, CancellationFuture> {
    /// Pairs `future` with the receiver of a fresh channel and returns the
    /// channel's sender beside it.
    pub fn new_with_signal(future: F) -> (made: (Self, CancellationSender))
        ensures
            made.0.cancel().channel() == made.1.channel(),
            made.0.work() == future,
            !made.0.resolved(),
    {
        let (cancel_tx, cancel) = cancellation_signal();
        (Cancellable { cancel, future, resolved: Ghost(false) }, cancel_tx)
    }
}

impl<F: Pollable, C: Pollable<Output = ()>> Cancellable<F, C> {
    /// Whether a single poll with `waker` may take the computation from
    /// `self` to `next` while reporting `out`, with the cancellation source
    /// reporting `cancel` in it and the work, if it is polled, `work`.
    pub open spec fn polled_with(
        self,
        waker: Waker,
        next: Self,
        out: Poll<Result<F::Output, Cancelled>>,
        cancel: Poll<()>,
        work: Poll<F::Output>,
    ) -> bool {
        &&& out == resolution(cancel, work)
        &&& self.cancel().polled(waker, next.cancel(), cancel)
        &&& cancel is Ready ==> next.work() == self.work()
        &&& cancel is Pending ==> self.work().polled(waker, next.work(), work)
        &&& next.resolved() == (out is Ready)
    }
}

impl<F: Pollable, C: Pollable<Output = ()>> Pollable for Cancellable<F, C> {
    type Output = Result<F::Output, Cancelled>;

    /// A cancellable computation is finished once it has reported its final
    /// result, and as soon as one of its parts is.
    open spec fn finished(self) -> bool {
        self.resolved() || self.cancel().finished() || self.work().finished()
    }

    /// One poll polls the cancellation source, polls the work only if the
    /// cancellation source reported `Pending`, and reports the
    /// [`resolution`] of the two reports.
    open spec fn polled(self, waker: Waker, next: Self, out: Poll<Self::Output>) -> bool {
        exists|cancel: Poll<()>, work: Poll<F::Output>| #[trigger]
            self.polled_with(waker, next, out, cancel, work)
    }

    /// Polls the cancellation source and then, unless that was ready, the
    /// work. Once a poll has reported `Ready` the computation is finished:
    /// it must not be polled again.
    fn poll(&mut self, waker: &Waker) -> (out: Poll<Self::Output>)
        ensures
            out is Ready ==> final(self).finished(),
    {
        let ghost before = *self;
        let cancel = self.cancel.poll(waker);
        let work = match cancel {
            Poll::Ready(_) => Poll::Pending,
            Poll::Pending => self.future.poll(waker),
        };
        let out = resolve(cancel, work);
        self.resolved = Ghost(out is Ready);
        assert(before.polled_with(*waker, *self, out, cancel, work));
        out
    }
}

/// Pairs `future` with the cancellation source `cancel`.
pub fn cancellable<F: Pollable, C: Pollable<Output = ()>>(cancel: C, future: F) -> (pair:
    Cancellable<F, C>)
    ensures
        pair.cancel() == cancel,
        pair.work() == future,
        !pair.resolved(),
{
    Cancellable::new(cancel, future)
}

/// Pairs `future` with the receiver of a fresh channel and returns the
/// channel's sender beside it.
pub fn cancellable_with_signal<F: Pollable>(future: F) -> (made: (
    Cancellable<F, CancellationFuture>,
    CancellationSender,
))
    ensures
        made.0.cancel().channel() == made.1.channel(),
        made.0.work() == future,
        !made.0.resolved(),
{
    Cancellable::new_with_signal(future)
}

/// Cancellation has priority over completion: a poll in which the
/// cancellation source is ready reports `Cancelled`, also when the work would
/// have been ready in the same poll.
pub proof fn lemma_cancellation_wins<R>(work: Poll<R>)
    ensures
        resolution(Poll::Ready(()), work) == Poll::<Result<R, Cancelled>>::Ready(Err(Cancelled)),
{
}

/// As long as the cancellation source is pending the work decides: the poll
/// is pending while the work is, and succeeds with the work's output once the
/// work is ready.
pub proof fn lemma_work_decides_while_pending<R>(work: Poll<R>)
    ensures
        work is Pending ==> resolution(Poll::Pending, work) is Pending,
        work matches Poll::Ready(output) ==> resolution(Poll::Pending, work) == Poll::<
            Result<R, Cancelled>,
        >::Ready(Ok(output)),
{
}

/// Whatever the cancellation source is, a poll that reports `Cancelled`
/// found the source ready and did not poll the work.
pub proof fn lemma_cancelled_poll_skips_work<F: Pollable, C: Pollable<Output = ()>>(
    before: Cancellable<F, C>,
    waker: Waker,
    after: Cancellable<F, C>,
    out: Poll<Result<F::Output, Cancelled>>,
)
    requires
        before.polled(waker, after, out),
        out matches Poll::Ready(Err(_)),
    ensures
        before.cancel().polled(waker, after.cancel(), Poll::Ready(())),
        after.work() == before.work(),
        after.finished(),
{
    let (cancel, work) = choose|cancel: Poll<()>, work: Poll<F::Output>| #[trigger]
        before.polled_with(waker, after, out, cancel, work);
    assert(cancel matches Poll::Ready(unit) && unit == ());
}

/// Whatever the cancellation source is, a poll that does not report
/// `Cancelled` found the source pending, polled the work, and reports what
/// the work reported.
pub proof fn lemma_uncancelled_poll_polls_work<F: Pollable, C: Pollable<Output = ()>>(
    before: Cancellable<F, C>,
    waker: Waker,
    after: Cancellable<F, C>,
    out: Poll<Result<F::Output, Cancelled>>,
)
    requires
        before.polled(waker, after, out),
        !(out matches Poll::Ready(Err(_))),
    ensures
        before.cancel().polled(waker, after.cancel(), Poll::Pending),
        exists|work: Poll<F::Output>| #[trigger]
            before.work().polled(waker, after.work(), work) && out == resolution(
                Poll::Pending,
                work,
            ),
{
}

/// A request to cancel that comes before the first poll is honoured by the
/// first poll: over a signal that has fired, a poll reports `Cancelled`,
/// leaves the signal fired, and does not poll the work.
pub proof fn lemma_fired_signal_cancels<F: Pollable>(
    before: Cancellable<F, CancellationSignal>,
    waker: Waker,
    after: Cancellable<F, CancellationSignal>,
    out: Poll<Result<F::Output, Cancelled>>,
)
    requires
        before.cancel()@.on,
        before.polled(waker, after, out),
    ensures
        out == Poll::<Result<F::Output, Cancelled>>::Ready(Err(Cancelled)),
        after.work() == before.work(),
        after.cancel()@ == before.cancel()@,
        after.finished(),
{
}

/// Over a signal that has not fired, a poll never reports `Cancelled`: it
/// polls the work and reports what the work reports, and the signal has
/// still not fired afterwards.
pub proof fn lemma_unfired_signal_lets_work_decide<F: Pollable>(
    before: Cancellable<F, CancellationSignal>,
    waker: Waker,
    after: Cancellable<F, CancellationSignal>,
    out: Poll<Result<F::Output, Cancelled>>,
)
    requires
        !before.cancel()@.on,
        before.polled(waker, after, out),
    ensures
        !after.cancel()@.on,
        !(out matches Poll::Ready(Err(_))),
        exists|work: Poll<F::Output>| #[trigger]
            before.work().polled(waker, after.work(), work) && out == resolution(
                Poll::Pending,
                work,
            ),
{
}

/// Work that is never cancelled is never reported as cancelled. Take any
/// run of polls over a signal that has not fired at the start: `states[i]` is
/// the computation before the poll number `i`, which is made with
/// `wakers[i]` and reports `outs[i]`. Nothing but polls happens to the
/// signal, so it never fires, and every poll reports what the work reports
/// in it: pending as long as the work is, and the work's output, as a
/// success, in the poll in which the work is ready.
pub proof fn lemma_uncancelled_work_succeeds<F: Pollable>(
    states: Seq<Cancellable<F, CancellationSignal>>,
    wakers: Seq<Waker>,
    outs: Seq<Poll<Result<F::Output, Cancelled>>>,
    at: int,
)
    requires
        states.len() == outs.len() + 1,
        wakers.len() == outs.len(),
        !states[0].cancel()@.on,
        forall|i: int|
            0 <= i < outs.len() ==> (#[trigger] states[i]).polled(
                wakers[i],
                states[i + 1],
                outs[i],
            ),
        0 <= at < outs.len(),
    ensures
        !states[at].cancel()@.on,
        !states[at + 1].cancel()@.on,
        !(outs[at] matches Poll::Ready(Err(_))),
        exists|work: Poll<F::Output>| #[trigger]
            states[at].work().polled(wakers[at], states[at + 1].work(), work) && outs[at]
                == resolution(Poll::Pending, work),
    decreases at,
{
    if at > 0 {
        lemma_uncancelled_work_succeeds(states, wakers, outs, at - 1);
    }
    lemma_unfired_signal_lets_work_decide(states[at], wakers[at], states[at + 1], outs[at]);
}

} // verus!
