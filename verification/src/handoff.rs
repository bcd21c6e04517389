//! The handoff between the producer of a child and the render pass.
//!
//! The two sides share a channel of `crossbeam`. What a look into a channel
//! finds depends on what other threads have done, so nothing is stated of it:
//! every function that looks states what it does for each thing that can be
//! found. The same holds of the clock, which this module reads for the
//! containers' timeouts: nothing is stated of what it shows. The statements
//! on the channel's operations in this module are taken from the channel's
//! documentation and are believed, not proved.

use crossbeam::channel::{Receiver, Sender, TryRecvError, TrySendError};
use std::time::{Duration, Instant};
use vstd::prelude::*;

verus! {

/// `crossbeam::channel::Receiver`: the receiving side of a channel.
#[verifier::external_type_specification]
#[verifier::external_body]
#[verifier::reject_recursive_types(T)]
pub struct ExReceiver<T>(crossbeam::channel::Receiver<T>);

/// `crossbeam::channel::Sender`: the sending side of a channel.
#[verifier::external_type_specification]
#[verifier::external_body]
#[verifier::reject_recursive_types(T)]
pub struct ExSender<T>(crossbeam::channel::Sender<T>);

/// `std::time::Instant`: a point in time on a clock that never runs back.
#[verifier::external_type_specification]
#[verifier::external_body]
pub struct ExInstant(std::time::Instant);

/// What a look into a channel found.
pub enum Received<M> {
    /// A message was waiting, and has been taken out.
    Message(M),
    /// Nothing was waiting.
    Empty,
    /// Nothing was waiting, and no sender is left that could send.
    Disconnected,
}

/// What became of a message that was handed to a channel.
pub enum Handed<M> {
    /// The channel has taken the message.
    Sent,
    /// The channel had no room; the message comes back.
    Full(M),
    /// No receiver is left; the message comes back.
    Disconnected(M),
}

/// Calls `crossbeam::channel::unbounded`, which makes a channel that holds any
/// number of messages.
#[verifier::external_body]
pub(crate) fn unbounded_channel<M>() -> (ends: (Sender<M>, Receiver<M>)) {
    crossbeam::channel::unbounded()
}

/// Calls `crossbeam::channel::bounded`, which makes a channel that holds at
/// most `cap` messages. It panics where `cap` is too large for the buffer to
/// be allocated, so only a single slot is asked for.
#[verifier::external_body]
pub(crate) fn bounded_channel<M>(cap: usize) -> (ends: (Sender<M>, Receiver<M>))
    requires
        cap == 1,
{
    crossbeam::channel::bounded(cap)
}

/// Calls `Receiver::try_recv`, which never blocks: it takes a waiting message
/// out, or reports that none waits, or that none waits and none can come.
#[verifier::external_body]
pub(crate) fn try_receive<M>(rx: &Receiver<M>) -> (found: Received<M>) {
    match rx.try_recv() {
        Ok(msg) => Received::Message(msg),
        Err(TryRecvError::Empty) => Received::Empty,
        Err(TryRecvError::Disconnected) => Received::Disconnected,
    }
}

/// Calls `Sender::try_send`, which never blocks and never panics: the channel
/// takes the message, or hands it back because it is full or because no
/// receiver is left.
#[verifier::external_body]
pub(crate) fn try_hand<M>(tx: &Sender<M>, msg: M) -> (handed: Handed<M>)
    ensures
        handed matches Handed::Full(back) ==> back == msg,
        handed matches Handed::Disconnected(back) ==> back == msg,
    opens_invariants none
    no_unwind
{
    match tx.try_send(msg) {
        Ok(()) => Handed::Sent,
        Err(TrySendError::Full(back)) => Handed::Full(back),
        Err(TrySendError::Disconnected(back)) => Handed::Disconnected(back),
    }
}

/// Calls `Sender::clone`, which makes another sender of the same channel.
#[verifier::external_body]
pub(crate) fn another_sender<M>(tx: &Sender<M>) -> (other: Sender<M>) {
    tx.clone()
}

/// Calls `Instant::now`, which reads the clock.
#[verifier::external_body]
pub(crate) fn clock_now() -> (now: Instant) {
    Instant::now()
}

/// Calls `Instant::elapsed`, which reads the clock and returns the time that
/// has passed since the instant.
#[verifier::external_body]
pub(crate) fn clock_elapsed(since: &Instant) -> (passed: Duration) {
    since.elapsed()
}

/// Calls `Duration::as_millis`, which returns the whole milliseconds of a
/// duration.
#[verifier::external_body]
pub(crate) fn whole_millis(span: &Duration) -> (millis: u128) {
    span.as_millis()
}

/// The error of a delivery through a handle that can deliver no more: it has
/// delivered before, or the container listens no longer.
#[derive(Clone, Copy, PartialEq, Eq, Structural, Debug)]
pub struct HandleUnavailable;

/// Whether a handed message counts as delivered: it does where the channel
/// has taken it, and in no other case.
pub fn delivery<M>(handed: Handed<M>) -> (outcome: Result<(), HandleUnavailable>)
    ensures
        outcome is Ok <==> handed is Sent,
{
    match handed {
        Handed::Sent => Ok(()),
        Handed::Full(_) => Err(HandleUnavailable),
        Handed::Disconnected(_) => Err(HandleUnavailable),
    }
}

/// The sending side of the handoff, for one who produces the child outside of
/// the render thread. It delivers one final state.
#[verifier::reject_recursive_types(M)]
pub struct Handle<M> {
    tx: Sender<M>,
    spent: bool,
}

impl<M> Handle<M> {
    /// Whether the handle has made its delivery, or tried to.
    pub closed spec fn spent(&self) -> bool {
        self.spent
    }

    /// A handle on the sending side `tx` that has not delivered yet.
    pub(crate) fn open(tx: Sender<M>) -> (handle: Self)
        ensures
            !handle.spent(),
    {
        Handle { tx, spent: false }
    }

    /// Whether the handle has made its delivery, or tried to.
    pub fn is_spent(&self) -> (spent: bool)
        ensures
            spent == self.spent(),
    {
        self.spent
    }

    /// Another handle on the same channel, as fresh or as spent as this one.
    pub fn share(&self) -> (other: Self)
        ensures
            other.spent() == self.spent(),
    {
        Handle { tx: another_sender(&self.tx), spent: self.spent }
    }

    /// Passes a state on that is not the last: the handle stays as it is. The
    /// result says whether the channel has taken the state.
    pub(crate) fn pass(&self, msg: M) -> (outcome: Result<(), HandleUnavailable>)
        ensures
            self.spent() ==> outcome is Err,
    {
        if self.spent {
            return Err(HandleUnavailable);
        }
        delivery(try_hand(&self.tx, msg))
    }

    /// Delivers the final state. A handle delivers once: a spent handle
    /// fails and sends nothing, and every call leaves the handle spent. A
    /// fresh handle fails where the container listens no longer.
    pub(crate) fn deliver(&mut self, msg: M) -> (outcome: Result<(), HandleUnavailable>)
        ensures
            final(self).spent(),
            old(self).spent() ==> outcome is Err,
    {
        if self.spent {
            return Err(HandleUnavailable);
        }
        self.spent = true;
        delivery(try_hand(&self.tx, msg))
    }
}

} // verus!
