//! The cancellation channel: a flag that is raised once and never lowered,
//! and at most one resume handle waiting for it.
//!
//! [`SignalState`] is the mathematical state of a channel and
//! [`CancellationSignal`] the record that holds it. The two handles of a
//! channel, [`CancellationSender`] and [`CancellationFuture`], share one such
//! record behind a lock and apply its transitions while they hold the lock.

use crate::sync::held;
use crate::sync::held_mut;
use crate::sync::lock;
use crate::sync::share;
use crate::task::duplicate;
use crate::task::Pollable;
use std::sync::Arc;
use std::sync::Mutex;
use std::task::Poll;
use std::task::Waker;
use vstd::prelude::*;

verus! {

/// The state of a cancellation channel.
pub struct SignalState {
    /// Whether cancellation has been requested.
    pub on: bool,
    /// The resume handle to invoke when cancellation is requested.
    pub waiter: Option<Waker>,
}

/// What can happen to a cancellation channel.
pub enum SignalEvent {
    /// A sender requests cancellation.
    Send,
    /// A receiver polls the channel, ready to leave the given handle behind.
    Poll(Waker),
}

impl SignalState {
    /// The state of a fresh channel: not fired, nobody waiting.
    pub open spec fn initial() -> SignalState {
        SignalState { on: false, waiter: None }
    }

    /// A handle waits only as long as the signal has not fired.
    pub open spec fn wf(self) -> bool {
        self.on ==> self.waiter is None
    }

    /// The state after a request to cancel: the flag is up, and the handle
    /// that was waiting has been taken out to be invoked.
    pub open spec fn fire(self) -> SignalState {
        SignalState { on: true, waiter: None }
    }

    /// What a poll reports in this state.
    pub open spec fn report(self) -> Poll<()> {
        if self.on {
            Poll::Ready(())
        } else {
            Poll::Pending
        }
    }

    /// The state after a poll that is ready to leave `handle` behind: a fired
    /// signal stays as it is; otherwise `handle` takes the place of whatever
    /// handle was waiting.
    pub open spec fn poll(self, handle: Waker) -> SignalState {
        if self.on {
            self
        } else {
            SignalState { on: false, waiter: Some(handle) }
        }
    }

    /// The state after one event.
    pub open spec fn step(self, event: SignalEvent) -> SignalState {
        match event {
            SignalEvent::Send => self.fire(),
            SignalEvent::Poll(handle) => self.poll(handle),
        }
    }

    /// The state after a sequence of events, the first of them first.
    pub open spec fn run(self, events: Seq<SignalEvent>) -> SignalState
        decreases events.len(),
    {
        if events.len() == 0 {
            self
        } else {
            self.run(events.drop_last()).step(events.last())
        }
    }
}

/// The record behind a cancellation channel.
#[derive(Debug)]
pub struct CancellationSignal {
    on: bool,
    waker: Option<Waker>,
}

impl View for CancellationSignal {
    type V = SignalState;

    closed spec fn view(&self) -> SignalState {
        SignalState { on: self.on, waiter: self.waker }
    }
}

impl CancellationSignal {
    #[verifier::type_invariant]
    spec fn well_formed(&self) -> bool {
        self@.wf()
    }

    /// A signal that has not fired and has nobody waiting.
    pub fn new() -> (signal: CancellationSignal)
        ensures
            signal@ == SignalState::initial(),
    {
        CancellationSignal { on: false, waker: None }
    }

    /// Whether the signal has fired. Every record is well-formed.
    pub fn is_on(&self) -> (on: bool)
        ensures
            on == self@.on,
            self@.wf(),
    {
        proof {
            use_type_invariant(self);
        }
        self.on
    }

    /// Raises the flag and hands out the handle that was waiting, for the
    /// caller to invoke.
    pub fn fire(&mut self) -> (woken: Option<Waker>)
        ensures
            final(self)@ == old(self)@.fire(),
            woken == old(self)@.waiter,
    {
        let mut state = CancellationSignal { on: true, waker: None };
        std::mem::swap(self, &mut state);
        state.waker
    }
}

impl Pollable for CancellationSignal {
    type Output = ();

    /// A signal may be polled again after it reported `Ready`.
    open spec fn finished(self) -> bool {
        false
    }

    /// A poll reports `Ready` exactly if the signal has fired, and then
    /// changes nothing. Otherwise it leaves a clone of `waker` as the one
    /// handle that waits.
    open spec fn polled(self, waker: Waker, next: Self, out: Poll<()>) -> bool {
        &&& out == self@.report()
        &&& self@.on ==> next@ == self@
        &&& !self@.on ==> exists|handle: Waker| #[trigger]
            cloned::<Waker>(waker, handle) && next@ == self@.poll(handle)
    }

    /// Reports `Ready` if the signal has fired. Otherwise registers a clone
    /// of `waker`, in place of any handle registered before, and reports
    /// `Pending`.
    fn poll(&mut self, waker: &Waker) -> (out: Poll<()>) {
        if self.on {
            Poll::Ready(())
        } else {
            self.waker = Some(duplicate(waker));
            Poll::Pending
        }
    }
}

/// A signal as the handles of one channel share it.
pub type SharedSignal = Arc<Mutex<CancellationSignal>>;

/// Creates a channel: a signal that has not fired, the handle that fires it,
/// and the handle that waits for it.
pub fn cancellation_signal() -> (ends: (CancellationSender, CancellationFuture))
    ensures
        ends.0.channel() == ends.1.channel(),
{
    let signal = Arc::new(Mutex::new(CancellationSignal::new()));
    (CancellationSender { signal: share(&signal) }, CancellationFuture { signal })
}

/// The handle that requests cancellation.
#[derive(Debug)]
pub struct CancellationSender {
    signal: SharedSignal,
}

impl CancellationSender {
    /// The signal that this handle fires.
    pub closed spec fn channel(&self) -> SharedSignal {
        self.signal
    }

    /// Requests cancellation. With the lock held, this applies
    /// [`CancellationSignal::fire`] to the shared signal and invokes the
    /// handle that was waiting, if there was one. It may be called any
    /// number of times. The handle is invoked under the lock, so it must
    /// not come back to this channel before it returns.
    pub fn send(&mut self)
        ensures
            final(self).channel() == old(self).channel(),
    {
        let mut guard = lock(&self.signal);
        if let Some(waker) = held_mut(&mut guard).fire() {
            waker.wake();
        }
    }

    /// Whether cancellation had been requested when the lock was held:
    /// [`CancellationSignal::is_on`] of the shared signal.
    pub fn is_on(&self) -> (on: bool) {
        let guard = lock(&self.signal);
        held(&guard).is_on()
    }
}

impl Clone for CancellationSender {
    /// One more sender for the same channel.
    fn clone(&self) -> (other: Self)
        ensures
            other.channel() == self.channel(),
    {
        CancellationSender { signal: share(&self.signal) }
    }
}

/// The handle that waits for cancellation. Every clone observes the same
/// signal, and the signal keeps the resume handle of one poll only: the
/// latest that found it not fired.
#[derive(Debug)]
pub struct CancellationFuture {
    signal: SharedSignal,
}

impl CancellationFuture {
    /// The signal that this handle waits for.
    pub closed spec fn channel(&self) -> SharedSignal {
        self.signal
    }
}

impl Clone for CancellationFuture {
    /// One more receiver for the same channel.
    fn clone(&self) -> (other: Self)
        ensures
            other.channel() == self.channel(),
    {
        CancellationFuture { signal: share(&self.signal) }
    }
}

impl Pollable for CancellationFuture {
    type Output = ();

    /// A receiver may be polled again after it reported `Ready`.
    open spec fn finished(self) -> bool {
        false
    }

    /// A poll leaves the handle on its channel. What it reports is decided
    /// by the state in which it finds the shared signal.
    open spec fn polled(self, waker: Waker, next: Self, out: Poll<()>) -> bool {
        next.channel() == self.channel()
    }

    /// With the lock held, polls the shared signal and reports what the
    /// signal reports.
    fn poll(&mut self, waker: &Waker) -> (out: Poll<()>) {
        let mut guard = lock(&self.signal);
        held_mut(&mut guard).poll(waker)
    }
}

/// A second request to cancel changes nothing: the channel is left as the
/// first one left it, fired and with nobody waiting.
pub proof fn lemma_fire_is_idempotent(state: SignalState)
    ensures
        state.fire().on,
        state.fire().waiter is None,
        state.fire().fire() == state.fire(),
{
}

/// Every event leaves a well-formed channel well-formed.
pub proof fn lemma_run_keeps_wf(state: SignalState, events: Seq<SignalEvent>)
    requires
        state.wf(),
    ensures
        state.run(events).wf(),
    decreases events.len(),
{
    if events.len() > 0 {
        lemma_run_keeps_wf(state, events.drop_last());
    }
}

/// The flag is never lowered: a channel that has fired stays fired, and
/// reports `Ready`, whatever happens to it afterwards.
pub proof fn lemma_fired_stays_fired(state: SignalState, events: Seq<SignalEvent>)
    requires
        state.on,
    ensures
        state.run(events).on,
        state.run(events).report() == Poll::Ready(()),
    decreases events.len(),
{
    if events.len() > 0 {
        lemma_fired_stays_fired(state, events.drop_last());
    }
}

/// One request to cancel is enough: if any of the events is a send, the
/// channel has fired at the end, whatever came before and after it.
pub proof fn lemma_send_fires(state: SignalState, events: Seq<SignalEvent>, at: int)
    requires
        0 <= at < events.len(),
        events[at] is Send,
    ensures
        state.run(events).on,
        state.run(events).report() == Poll::Ready(()),
    decreases events.len(),
{
    if at < events.len() - 1 {
        lemma_send_fires(state, events.drop_last(), at);
    }
}

/// Without a request to cancel, a channel that has not fired never does: it
/// reports `Pending` after any number of polls.
pub proof fn lemma_unsent_stays_pending(state: SignalState, events: Seq<SignalEvent>)
    requires
        !state.on,
        forall|i: int| 0 <= i < events.len() ==> events[i] is Poll,
    ensures
        !state.run(events).on,
        state.run(events).report() == Poll::<()>::Pending,
    decreases events.len(),
{
    if events.len() > 0 {
        lemma_unsent_stays_pending(state, events.drop_last());
    }
}

/// A channel has one waiter, not a list of them: of the polls that found it
/// not fired, only the latest left its handle, and that handle is the one
/// the next send takes out.
pub proof fn lemma_latest_poll_waits(state: SignalState, events: Seq<SignalEvent>, handle: Waker)
    requires
        !state.run(events).on,
    ensures
        state.run(events.push(SignalEvent::Poll(handle))).waiter == Some(handle),
        !state.run(events.push(SignalEvent::Poll(handle))).on,
{
    assert(events.push(SignalEvent::Poll(handle)).drop_last() == events);
}

} // verus!
