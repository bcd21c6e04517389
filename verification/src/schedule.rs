//! The decisions of the scheduler.
//!
//! A poller asks the owner's function whether the child is ready, hands a
//! final answer over to the container, and tells the host what to do next.
//! The host does the waiting: it sleeps for the frame delay and calls the
//! poller again on the render thread, or keeps the screen redrawing until the
//! container signals that it is gone.

use crate::handoff::{
    bounded_channel, delivery, try_hand, try_receive, unbounded_channel, Handed, Handle,
    HandleUnavailable, Received,
};
use crate::infinite::{AsyncState, StateView};
use crossbeam::channel::{Receiver, Sender};
use vstd::prelude::*;
use vstd::string::StringExecFns;

verus! {

/// The time between the starts of two polls, in microseconds: a sixtieth of a
/// second.
pub const FRAME_INTERVAL: u64 = 16_666;

/// The time between two redraws that the refresh loop asks for, in
/// microseconds.
pub const REFRESH_INTERVAL: u64 = 16_000;

/// What the host must do after a poll.
#[derive(Clone, Copy, PartialEq, Eq, Structural, Debug)]
pub enum PollAction {
    /// The child is not ready: wait for the frame delay and poll again.
    Rearm,
    /// The final state has been handed over: poll no more, and keep the
    /// screen redrawing until the container signals that it is gone.
    Refresh,
    /// The final state could not be handed over because the container is
    /// gone: poll no more, and do nothing else.
    Abandon,
}

/// What the host must do after a poll that found the child pending or not,
/// and whose final state was delivered or not.
pub open spec fn action_after(pending: bool, delivered: bool) -> PollAction {
    if pending {
        PollAction::Rearm
    } else if delivered {
        PollAction::Refresh
    } else {
        PollAction::Abandon
    }
}

/// What the host must do after a poll.
pub fn next_action(pending: bool, delivered: bool) -> (action: PollAction)
    ensures
        action == action_after(pending, delivered),
{
    if pending {
        PollAction::Rearm
    } else if delivered {
        PollAction::Refresh
    } else {
        PollAction::Abandon
    }
}

/// The time to wait before the next poll, where `elapsed` has passed since
/// the last one began: the rest of the interval, and no time at all where the
/// poll itself took longer.
pub open spec fn frame_wait(interval: u64, elapsed: u64) -> u64 {
    if elapsed >= interval {
        0
    } else {
        (interval - elapsed) as u64
    }
}

/// The time to wait before the next poll.
pub fn frame_delay(interval: u64, elapsed: u64) -> (wait: u64)
    ensures
        wait == frame_wait(interval, elapsed),
{
    interval.saturating_sub(elapsed)
}

/// What the refresh loop must do after a look at the stop signal.
#[derive(Clone, Copy, PartialEq, Eq, Structural, Debug)]
pub enum RefreshAction {
    /// Ask the host for a redraw and look again after the refresh interval.
    Redraw,
    /// The container is gone: end the loop.
    Stop,
}

/// What the refresh loop must do after a look at the stop signal: it goes on
/// as long as no signal waits and one can still come.
pub open spec fn refresh_after(signal: Received<()>) -> RefreshAction {
    match signal {
        Received::Empty => RefreshAction::Redraw,
        Received::Message(_) => RefreshAction::Stop,
        Received::Disconnected => RefreshAction::Stop,
    }
}

/// What the refresh loop must do after a look at the stop signal.
pub fn refresh_step(signal: Received<()>) -> (action: RefreshAction)
    ensures
        action == refresh_after(signal),
{
    match signal {
        Received::Empty => RefreshAction::Redraw,
        Received::Message(_) => RefreshAction::Stop,
        Received::Disconnected => RefreshAction::Stop,
    }
}

/// The side of the stop signal that the refresh loop looks at.
pub struct StopSignal {
    rx: Receiver<()>,
}

impl StopSignal {
    /// Looks at the signal and says what the refresh loop must do. A loop
    /// that is told to stop must never look again.
    pub fn check(&self) -> (action: RefreshAction)
        ensures
            exists|signal: Received<()>| action == refresh_after(signal),
    {
        let signal = try_receive(&self.rx);
        refresh_step(signal)
    }
}

/// Whether a signal that was handed to the channel has been taken: it has
/// where the channel has taken it, and in no other case.
pub fn signal_taken(handed: Handed<()>) -> (taken: bool)
    ensures
        taken == (handed is Sent),
    opens_invariants none
    no_unwind
{
    match handed {
        Handed::Sent => true,
        Handed::Full(_) => false,
        Handed::Disconnected(_) => false,
    }
}

/// The side of the stop signal that the container holds. It signals when it
/// is dropped, and so when the container is.
pub struct StopGuard {
    tx: Sender<()>,
}

impl StopGuard {
    /// Signals the refresh loop to stop. The result says whether the signal
    /// has been taken; it is not where one waits already, or where nobody is
    /// left to look at it.
    pub fn signal(&self) -> (taken: bool)
        opens_invariants none
        no_unwind
    {
        signal_taken(try_hand(&self.tx, ()))
    }
}

impl Drop for StopGuard {
    fn drop(&mut self)
        opens_invariants none
        no_unwind
    {
        let _ = self.signal();
    }
}

/// A stop signal with room for one message: the guard for the container, and
/// the side that the refresh loop looks at.
pub fn stop_signal() -> (ends: (StopGuard, StopSignal)) {
    let (tx, rx) = bounded_channel(1);
    (StopGuard { tx }, StopSignal { rx })
}

/// A function that says whether the child is ready. It is called many times
/// on the render thread, so it must return quickly and never block.
///
/// Every closure and function without parameters that returns an
/// [`AsyncState`] is one.
pub trait ReadyPoll<T>: Sized {
    /// Whether the function may be called, in whatever state it is.
    spec fn callable() -> bool;

    /// The states that the function may return.
    spec fn yields(&self, state: AsyncState<T>) -> bool;

    /// Asks whether the child is ready.
    fn ask(&mut self) -> (state: AsyncState<T>)
        requires
            Self::callable(),
        ensures
            old(self).yields(state),
    ;
}

impl<T, F: FnMut() -> AsyncState<T>> ReadyPoll<T> for F {
    open spec fn callable() -> bool {
        forall|poll: F| call_requires(poll, ())
    }

    open spec fn yields(&self, state: AsyncState<T>) -> bool {
        call_ensures(*self, (), state)
    }

    fn ask(&mut self) -> (state: AsyncState<T>) {
        self()
    }
}

/// The poll scheduler's state: the owner's function, the sending side of the
/// handoff, and what the host must do next.
#[verifier::reject_recursive_types(T)]
pub struct Poller<T, P: ReadyPoll<T>> {
    ready_poll: P,
    chan: Handle<AsyncState<T>>,
    end_anim: StopSignal,
    action: PollAction,
    interval: u64,
}

impl<T, P: ReadyPoll<T>> Poller<T, P> {
    /// What the host must do next.
    pub closed spec fn action(&self) -> PollAction {
        self.action
    }

    /// Whether the poller's side of the handoff has made its delivery.
    pub closed spec fn spent(&self) -> bool {
        self.chan.spent()
    }

    /// The owner's function, as it stands.
    pub closed spec fn ready_poll(&self) -> P {
        self.ready_poll
    }

    /// The side of the stop signal that the poller keeps for the refresh
    /// loop.
    pub closed spec fn end_anim(&self) -> StopSignal {
        self.end_anim
    }

    /// The time between the starts of two polls, in microseconds.
    pub closed spec fn interval(&self) -> u64 {
        self.interval
    }

    /// A poller that has not polled yet, for the sending side `chan` of a
    /// handoff and the side `end_anim` of a stop signal.
    pub(crate) fn start(ready_poll: P, chan: Handle<AsyncState<T>>, end_anim: StopSignal) -> (poller:
        Self)
        requires
            !chan.spent(),
        ensures
            poller.action() == PollAction::Rearm,
            poller.interval() == FRAME_INTERVAL,
            poller.ready_poll() == ready_poll,
            poller.end_anim() == end_anim,
            !poller.spent(),
    {
        Poller { ready_poll, chan, end_anim, action: PollAction::Rearm, interval: FRAME_INTERVAL }
    }

    /// What the host must do next.
    pub fn next(&self) -> (action: PollAction)
        ensures
            action == self.action(),
    {
        self.action
    }

    /// The time between the starts of two polls, in microseconds.
    pub fn frame_interval(&self) -> (interval: u64)
        ensures
            interval == self.interval(),
    {
        self.interval
    }

    /// Sets the time between the starts of two polls, in microseconds.
    pub fn with_interval(self, interval: u64) -> (poller: Self)
        ensures
            poller.interval() == interval,
            poller.action() == self.action(),
            poller.spent() == self.spent(),
            poller.end_anim() == self.end_anim(),
    {
        let mut poller = self;
        poller.interval = interval;
        poller
    }

    /// Takes the answer of a poll. A pending answer re-arms the poller. Any
    /// other answer is final: it is handed over to the container, which ends
    /// the polling whether or not the container has taken it. A poller that
    /// has ended takes no answer.
    pub fn settle(&mut self, state: AsyncState<T>) -> (action: PollAction)
        ensures
            action == final(self).action(),
            final(self).interval() == old(self).interval(),
            old(self).action() !is Rearm ==> action == old(self).action() && final(self).spent()
                == old(self).spent(),
            old(self).action() is Rearm ==> (action is Rearm <==> state@ is Pending),
            old(self).action() is Rearm && state@ is Pending ==> final(self).spent() == old(
                self,
            ).spent(),
            old(self).action() is Rearm && !(state@ is Pending) ==> final(self).spent(),
    {
        match self.action {
            PollAction::Rearm => {
                if state.is_terminal() {
                    let delivered = self.chan.deliver(state).is_ok();
                    self.action = next_action(false, delivered);
                }
            },
            _ => {},
        }
        self.action
    }

    /// Asks the owner's function once and takes its answer; a poller that
    /// has ended asks nothing.
    pub fn poll(&mut self) -> (action: PollAction)
        requires
            P::callable(),
        ensures
            action == final(self).action(),
            final(self).interval() == old(self).interval(),
            old(self).action() !is Rearm ==> action == old(self).action() && final(self).spent()
                == old(self).spent(),
            action !is Rearm && old(self).action() is Rearm ==> final(self).spent(),
            action is Rearm ==> final(self).spent() == old(self).spent(),
            old(self).action() is Rearm ==> exists|state: AsyncState<T>|
                #[trigger] old(self).ready_poll().yields(state) && (action is Rearm <==> state@
                    is Pending),
    {
        match self.action {
            PollAction::Rearm => {
                let state = self.ready_poll.ask();
                let ghost answer = state;
                let action = self.settle(state);
                assert(old(self).ready_poll().yields(answer) && (action is Rearm <==> answer@
                    is Pending));
                action
            },
            _ => self.action,
        }
    }

    /// Another sending side of the handoff, for an owner that delivers the
    /// final state itself. It is as fresh or as spent as the poller's own.
    pub fn handle(&self) -> (handle: Handle<AsyncState<T>>)
        ensures
            handle.spent() == self.spent(),
    {
        self.chan.share()
    }

    /// Ends the poller and gives out the side of the stop signal that the
    /// refresh loop looks at.
    pub fn into_stop_signal(self) -> (signal: StopSignal)
        ensures
            signal == self.end_anim(),
    {
        self.end_anim
    }
}

/// The state of a view whose child is made from the data of a background
/// task, after a look at the task's result: the data where the task has
/// returned some, its error where it has failed, pending where it still runs,
/// and an error where it has gone without a word.
pub open spec fn task_state<D>(found: Received<Result<D, String>>) -> StateView<D> {
    match found {
        Received::Message(Ok(data)) => StateView::Available(data),
        Received::Message(Err(msg)) => StateView::Error(msg@),
        Received::Empty => StateView::Pending,
        Received::Disconnected => StateView::Error(task_error()),
    }
}

/// The message of the error of a background task that has gone without a
/// word.
pub open spec fn task_error() -> Seq<char> {
    "Internal error: bg_task disconnected unexpectedly!"@
}

/// The state of a view whose child is made from the data of a background
/// task, after a look at the task's result.
pub fn task_outcome<D>(found: Received<Result<D, String>>) -> (state: AsyncState<D>)
    ensures
        state@ == task_state(found),
{
    match found {
        Received::Message(Ok(data)) => AsyncState::Available(data),
        Received::Message(Err(msg)) => AsyncState::Error(msg),
        Received::Empty => AsyncState::Pending,
        Received::Disconnected => AsyncState::Error(
            String::from_str("Internal error: bg_task disconnected unexpectedly!"),
        ),
    }
}

/// The end of a background task's channel on which the task reports.
#[verifier::reject_recursive_types(D)]
pub struct TaskEnd<D> {
    tx: Sender<Result<D, String>>,
}

impl<D> TaskEnd<D> {
    /// Reports the result of the task. It fails where nobody waits for the
    /// result any more.
    pub fn finish(self, result: Result<D, String>) -> (outcome: Result<(), HandleUnavailable>) {
        delivery(try_hand(&self.tx, result))
    }
}

/// The poll of a view whose child is made from the data of a background
/// task: a look at the task's result that never blocks, and the function that
/// makes the child from the data.
#[verifier::reject_recursive_types(D)]
pub struct Background<D, C> {
    rx: Receiver<Result<D, String>>,
    view_creator: C,
}

impl<D, C> Background<D, C> {
    /// The function that makes the child from the data.
    pub closed spec fn view_creator(&self) -> C {
        self.view_creator
    }
}

/// Whether `state` is what a view makes of the task's result `found` with
/// the function `creator`: the child that the function makes from the data,
/// and else the state of the task.
pub open spec fn made_from<T, D, C: FnMut(D) -> T>(
    creator: C,
    found: Received<Result<D, String>>,
    state: AsyncState<T>,
) -> bool {
    match task_state(found) {
        StateView::Available(data) => state matches AsyncState::Available(view) && call_ensures(
            creator,
            (data,),
            view,
        ),
        StateView::Error(msg) => state@ == StateView::<T>::Error(msg),
        StateView::Pending => state@ is Pending,
    }
}

impl<T, D, C: FnMut(D) -> T> ReadyPoll<T> for Background<D, C> {
    open spec fn callable() -> bool {
        forall|creator: C, data: D| call_requires(creator, (data,))
    }

    open spec fn yields(&self, state: AsyncState<T>) -> bool {
        exists|found: Received<Result<D, String>>|
            #[trigger] made_from(self.view_creator(), found, state)
    }

    fn ask(&mut self) -> (state: AsyncState<T>) {
        let ghost before = *self;
        let found = try_receive(&self.rx);
        let ghost seen = found;
        let state = match task_outcome(found) {
            AsyncState::Available(data) => AsyncState::Available((self.view_creator)(data)),
            AsyncState::Error(msg) => AsyncState::Error(msg),
            AsyncState::Pending => AsyncState::Pending,
        };
        assert(made_from(before.view_creator(), seen, state));
        state
    }
}

/// The two ends of a background task: the end on which the task reports, and
/// the poll that looks for its result and makes the child with
/// `view_creator`.
pub fn background<D, C>(view_creator: C) -> (ends: (TaskEnd<D>, Background<D, C>))
    ensures
        ends.1.view_creator() == view_creator,
{
    let (tx, rx) = unbounded_channel();
    (TaskEnd { tx }, Background { rx, view_creator })
}

} // verus!
