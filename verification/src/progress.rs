//! The placeholder with progress information: a bar that follows the
//! progress that the producer reports, and an animation that uncovers the
//! message of an error.

use crate::easing::{
    circular_in_out, circular_in_out_at, circular_out, circular_out_at, clamp_fraction,
    lemma_circular_out_bounded, lemma_scaled_bounded, lemma_scaled_monotonic, lemma_scaled_step,
    scale, scaled, UNIT,
};
use crate::handoff::{
    clock_elapsed, clock_now, try_receive, unbounded_channel, whole_millis, Handle,
    HandleUnavailable, Received,
};
use crate::infinite::{bar, bar_of, lemma_bar_len, pad_message, padded_message};
use crate::schedule::{next_action, stop_signal, PollAction, StopGuard, StopSignal, FRAME_INTERVAL};
use crate::styled::{
    append_plain, append_styled, spans_len, styled_new, styled_plain, styled_spans, Tone,
};
use crate::surface::{
    choose_delegate, choose_surface, delegate_for, expired, internal_error,
    internal_error_message, is_expired, lemma_internal_error_not_empty, surface_for, Delegate,
    Pass, Surface,
};
use crate::text::{revealed, revealed_len, uncover};
use crossbeam::channel::Receiver;
use cursive::utils::markup::StyledString;
use std::time::Instant;
use vstd::prelude::*;

verus! {

/// The number of frames over which the bar eases towards a new target, and
/// over which the message of an error is uncovered: half a second at sixty
/// frames a second.
pub const SMOOTHING: usize = 30;

/// This struct contains the content of a single frame for `AsyncProgressView`
/// with some metadata about the current frame.
pub struct AnimationProgressFrame {
    /// Styled text which gets printed until the view is ready, or if the
    /// creation has failed.
    pub content: StyledString,
    /// Current position of the loading bar.
    pub pos: usize,
    /// Index of the next frame to be drawn, useful if you want to interpolate
    /// between two states of progress.
    pub next_frame_idx: usize,
}

/// The column that the bar heads for: the part of the width that the progress
/// stands for.
pub open spec fn progress_target(width: nat, progress: nat) -> nat {
    scaled(width, progress)
}

/// The column from which the bar moves on: where it was drawn last, within
/// the width.
pub open spec fn progress_base(width: nat, pos: nat) -> nat {
    if pos > width {
        width
    } else {
        pos
    }
}

/// The column up to which the bar is filled in frame `frame_idx`: from its
/// base it has covered the eased part of the way to its target. A target
/// behind the base leaves the bar where it is.
pub open spec fn progress_fill(width: nat, progress: nat, pos: nat, frame_idx: nat) -> nat {
    let base = progress_base(width, pos);
    let target = progress_target(width, progress);
    let offset = if target > base {
        (target - base) as nat
    } else {
        0
    };
    base + scaled(offset, circular_out_at(frame_idx % 30, 30))
}

/// The two spans of a bar over `width` columns that is filled up to `fill`.
pub open spec fn progress_spans(width: nat, fill: nat) -> Seq<(Seq<char>, Tone)> {
    seq![
        (bar(fill), Tone::Highlight),
        (bar((width - fill) as nat), Tone::HighlightInactive),
    ]
}

/// The byte of the centred message up to which it is uncovered in frame
/// `frame_idx` of the error animation.
pub open spec fn progress_error_reach(width: nat, frame_idx: nat) -> nat {
    scaled(width, circular_in_out_at(frame_idx, 30))
}

/// The content of the default error animation of a progress bar that stood
/// at `pos`, in frame `frame_idx`: the message as far as it is uncovered, then
/// the bar as far as it had come, as long as there is room, then the rest.
pub open spec fn progress_error_spans(msg: Seq<char>, width: nat, pos: nat, frame_idx: nat) -> Seq<
    (Seq<char>, Tone),
> {
    let text = padded_message(msg, width);
    let reach = progress_error_reach(width, frame_idx);
    let cut = revealed_len(text, reach);
    let made = if pos + cut < width {
        pos
    } else if width > cut {
        (width - cut) as nat
    } else {
        0
    };
    let rest = if width > pos + cut {
        (width - (pos + cut)) as nat
    } else {
        0
    };
    seq![
        (revealed(text, reach), Tone::Plain),
        (bar(made), Tone::Highlight),
        (bar(rest), Tone::HighlightInactive),
    ]
}

/// The frame index that the default error animation of a progress bar hands
/// on.
pub open spec fn next_progress_error_idx(frame_idx: nat) -> nat {
    if frame_idx >= usize::MAX {
        frame_idx
    } else {
        frame_idx + 1
    }
}

/// The default progress animation for a `AsyncProgressView`: a bar that eases
/// from where it was drawn last towards the column that the progress stands
/// for, and never moves back.
///
/// The `width` and `height` parameters contain the maximum size the content
/// may have (in characters). The `progress` parameter is a fraction in
/// millionths, between 0 and `UNIT`. The `pos` and `frame_idx` parameter are
/// always from the animation frame of the previous iteration.
pub fn default_progress(
    width: usize,
    _height: usize,
    progress: u64,
    pos: usize,
    frame_idx: usize,
) -> (frame: AnimationProgressFrame)
    requires
        progress <= UNIT,
    ensures
        frame.pos == progress_fill(width as nat, progress as nat, pos as nat, frame_idx as nat),
        frame.pos <= width,
        styled_spans(frame.content) == progress_spans(width as nat, frame.pos as nat),
        frame.next_frame_idx == frame_idx % 30 + 1,
{
    let base = if pos > width {
        width
    } else {
        pos
    };
    let next_pos = scale(width, progress);
    let offset = next_pos.saturating_sub(base);
    let idx = frame_idx % SMOOTHING;
    let factor = circular_out(idx as u32, 30);
    let end = base + scale(offset, factor);

    let mut result = styled_new();
    append_styled(&mut result, bar_of(end), Tone::Highlight);
    append_styled(&mut result, bar_of(width - end), Tone::HighlightInactive);
    assert(styled_spans(result) =~= progress_spans(width as nat, end as nat));

    AnimationProgressFrame { content: result, pos: end, next_frame_idx: idx + 1 }
}

/// The default error animation for a `AsyncProgressView`: the centred error
/// message is uncovered from the left within half a second and stands from
/// then on, followed by the bar as far as it had come.
///
/// The message is never cut within a character: it is cut at the split point
/// nearest to the column that the animation has reached.
pub fn default_progress_error(
    msg: String,
    width: usize,
    _height: usize,
    progress: u64,
    pos: usize,
    frame_idx: usize,
) -> (frame: AnimationProgressFrame)
    requires
        progress <= UNIT,
    ensures
        styled_spans(frame.content) == progress_error_spans(
            msg@,
            width as nat,
            pos as nat,
            frame_idx as nat,
        ),
        frame.pos == pos,
        frame.next_frame_idx == next_progress_error_idx(frame_idx as nat),
{
    let time: u32 = if frame_idx > SMOOTHING {
        30
    } else {
        frame_idx as u32
    };
    let factor = circular_in_out(time, 30);
    let offset = scale(width, factor);

    let background_content = pad_message(msg.as_str(), width);
    let (shown, cut) = uncover(background_content.as_str(), offset);
    let end = pos.saturating_add(cut);
    let made = if end < width {
        pos
    } else {
        width.saturating_sub(cut)
    };
    let mut result = styled_new();
    append_plain(&mut result, shown);
    append_styled(&mut result, bar_of(made), Tone::Highlight);
    append_styled(&mut result, bar_of(width.saturating_sub(end)), Tone::HighlightInactive);
    assert(styled_spans(result) =~= progress_error_spans(
        msg@,
        width as nat,
        pos as nat,
        frame_idx as nat,
    ));

    AnimationProgressFrame {
        content: result,
        pos,
        next_frame_idx: if frame_idx < usize::MAX {
            frame_idx + 1
        } else {
            frame_idx
        },
    }
}

/// An enum to be returned by the `poll_ready` callback, with additional
/// information about the creation progress.
pub enum AsyncProgressState<V> {
    /// Indicates a not completed creation, which is still ongoing. Also
    /// reports the progress made as a fraction in millionths, between 0 and
    /// `UNIT`.
    Pending(u64),
    /// Indicates a not completed creation, which cannot proceed further.
    /// Contains an error message to be displayed for the user.
    Error(String),
    /// Indicates a completed creation. Contains the new child view.
    Available(V),
}

/// What an [`AsyncProgressState`] holds, with the message of an error as the
/// sequence of its characters.
pub enum ProgressStateView<V> {
    /// The child is not there yet; so much progress has been made.
    Pending(u64),
    /// Loading failed with this message.
    Error(Seq<char>),
    /// The child is there.
    Available(V),
}

impl<V> View for AsyncProgressState<V> {
    type V = ProgressStateView<V>;

    open spec fn view(&self) -> ProgressStateView<V> {
        match *self {
            AsyncProgressState::Pending(progress) => ProgressStateView::Pending(progress),
            AsyncProgressState::Error(msg) => ProgressStateView::Error(msg@),
            AsyncProgressState::Available(v) => ProgressStateView::Available(v),
        }
    }
}

impl<V> AsyncProgressState<V> {
    /// Whether the state is one that nothing follows.
    pub fn is_terminal(&self) -> (terminal: bool)
        ensures
            terminal == !(self@ is Pending),
    {
        match self {
            AsyncProgressState::Pending(_) => false,
            _ => true,
        }
    }
}

/// A function that draws the frames of a progress animation.
///
/// Every closure and function with the parameters of [`default_progress`] is
/// one: the width and the height that the content may take, the progress in
/// millionths, the position of the bar in the last frame, and the index of
/// the frame.
pub trait ProgressFn {
    /// The arguments on which the function may be called.
    spec fn accepts(
        &self,
        width: usize,
        height: usize,
        progress: u64,
        pos: usize,
        frame_idx: usize,
    ) -> bool;

    /// The frames that the function may return on these arguments.
    spec fn renders(
        &self,
        width: usize,
        height: usize,
        progress: u64,
        pos: usize,
        frame_idx: usize,
        frame: AnimationProgressFrame,
    ) -> bool;

    /// Draws the frame `frame_idx`.
    fn frame(&self, width: usize, height: usize, progress: u64, pos: usize, frame_idx: usize) -> (frame:
        AnimationProgressFrame)
        requires
            self.accepts(width, height, progress, pos, frame_idx),
        ensures
            self.renders(width, height, progress, pos, frame_idx, frame),
    ;
}

impl<F: Fn(usize, usize, u64, usize, usize) -> AnimationProgressFrame> ProgressFn for F {
    open spec fn accepts(
        &self,
        width: usize,
        height: usize,
        progress: u64,
        pos: usize,
        frame_idx: usize,
    ) -> bool {
        call_requires(*self, (width, height, progress, pos, frame_idx))
    }

    open spec fn renders(
        &self,
        width: usize,
        height: usize,
        progress: u64,
        pos: usize,
        frame_idx: usize,
        frame: AnimationProgressFrame,
    ) -> bool {
        call_ensures(*self, (width, height, progress, pos, frame_idx), frame)
    }

    fn frame(&self, width: usize, height: usize, progress: u64, pos: usize, frame_idx: usize) -> (frame:
        AnimationProgressFrame) {
        self(width, height, progress, pos, frame_idx)
    }
}

/// The progress animation that a view has until it is given another:
/// [`default_progress`].
pub struct DefaultProgress;

impl ProgressFn for DefaultProgress {
    open spec fn accepts(
        &self,
        width: usize,
        height: usize,
        progress: u64,
        pos: usize,
        frame_idx: usize,
    ) -> bool {
        progress <= UNIT
    }

    open spec fn renders(
        &self,
        width: usize,
        height: usize,
        progress: u64,
        pos: usize,
        frame_idx: usize,
        frame: AnimationProgressFrame,
    ) -> bool {
        &&& frame.pos == progress_fill(
            width as nat,
            progress as nat,
            pos as nat,
            frame_idx as nat,
        )
        &&& styled_spans(frame.content) == progress_spans(width as nat, frame.pos as nat)
        &&& frame.next_frame_idx == frame_idx % 30 + 1
    }

    fn frame(&self, width: usize, height: usize, progress: u64, pos: usize, frame_idx: usize) -> (frame:
        AnimationProgressFrame) {
        default_progress(width, height, progress, pos, frame_idx)
    }
}

/// A function that draws the frames of the error animation of a progress
/// bar.
///
/// Every closure and function with the parameters of
/// [`default_progress_error`] is one.
pub trait ProgressErrorFn {
    /// The arguments on which the function may be called.
    spec fn accepts(
        &self,
        msg: Seq<char>,
        width: usize,
        height: usize,
        progress: u64,
        pos: usize,
        frame_idx: usize,
    ) -> bool;

    /// The frames that the function may return on these arguments.
    spec fn renders(
        &self,
        msg: Seq<char>,
        width: usize,
        height: usize,
        progress: u64,
        pos: usize,
        frame_idx: usize,
        frame: AnimationProgressFrame,
    ) -> bool;

    /// Draws the frame `frame_idx` for the message `msg`.
    fn frame(
        &self,
        msg: String,
        width: usize,
        height: usize,
        progress: u64,
        pos: usize,
        frame_idx: usize,
    ) -> (frame: AnimationProgressFrame)
        requires
            self.accepts(msg@, width, height, progress, pos, frame_idx),
        ensures
            self.renders(msg@, width, height, progress, pos, frame_idx, frame),
    ;
}

impl<F: Fn(String, usize, usize, u64, usize, usize) -> AnimationProgressFrame> ProgressErrorFn for F {
    open spec fn accepts(
        &self,
        msg: Seq<char>,
        width: usize,
        height: usize,
        progress: u64,
        pos: usize,
        frame_idx: usize,
    ) -> bool {
        forall|text: String|
            text@ == msg ==> call_requires(*self, (text, width, height, progress, pos, frame_idx))
    }

    open spec fn renders(
        &self,
        msg: Seq<char>,
        width: usize,
        height: usize,
        progress: u64,
        pos: usize,
        frame_idx: usize,
        frame: AnimationProgressFrame,
    ) -> bool {
        exists|text: String|
            text@ == msg && call_ensures(
                *self,
                (text, width, height, progress, pos, frame_idx),
                frame,
            )
    }

    fn frame(
        &self,
        msg: String,
        width: usize,
        height: usize,
        progress: u64,
        pos: usize,
        frame_idx: usize,
    ) -> (frame: AnimationProgressFrame) {
        self(msg, width, height, progress, pos, frame_idx)
    }
}

/// The error animation that a progress view has until it is given another:
/// [`default_progress_error`].
pub struct DefaultProgressError;

impl ProgressErrorFn for DefaultProgressError {
    open spec fn accepts(
        &self,
        msg: Seq<char>,
        width: usize,
        height: usize,
        progress: u64,
        pos: usize,
        frame_idx: usize,
    ) -> bool {
        progress <= UNIT
    }

    open spec fn renders(
        &self,
        msg: Seq<char>,
        width: usize,
        height: usize,
        progress: u64,
        pos: usize,
        frame_idx: usize,
        frame: AnimationProgressFrame,
    ) -> bool {
        &&& styled_spans(frame.content) == progress_error_spans(
            msg,
            width as nat,
            pos as nat,
            frame_idx as nat,
        )
        &&& frame.pos == pos
        &&& frame.next_frame_idx == next_progress_error_idx(frame_idx as nat)
    }

    fn frame(
        &self,
        msg: String,
        width: usize,
        height: usize,
        progress: u64,
        pos: usize,
        frame_idx: usize,
    ) -> (frame: AnimationProgressFrame) {
        default_progress_error(msg, width, height, progress, pos, frame_idx)
    }
}

/// A function that reports the progress of the creation of the child. It is
/// called many times on the render thread, so it must return quickly and
/// never block.
///
/// Every closure and function without parameters that returns an
/// [`AsyncProgressState`] is one.
pub trait ProgressPoll<T>: Sized {
    /// Whether the function may be called, in whatever state it is.
    spec fn callable() -> bool;

    /// The states that the function may return.
    spec fn yields(&self, state: AsyncProgressState<T>) -> bool;

    /// Asks how far the creation of the child has come.
    fn ask(&mut self) -> (state: AsyncProgressState<T>)
        requires
            Self::callable(),
        ensures
            old(self).yields(state),
    ;
}

impl<T, F: FnMut() -> AsyncProgressState<T>> ProgressPoll<T> for F {
    open spec fn callable() -> bool {
        forall|poll: F| call_requires(poll, ())
    }

    open spec fn yields(&self, state: AsyncProgressState<T>) -> bool {
        call_ensures(*self, (), state)
    }

    fn ask(&mut self) -> (state: AsyncProgressState<T>) {
        self()
    }
}

/// The poll scheduler's state for a view with progress information: the
/// owner's function, the sending side of the handoff, and what the host must
/// do next.
#[verifier::reject_recursive_types(T)]
pub struct ProgressPoller<T, P: ProgressPoll<T>> {
    creator: P,
    chan: Handle<AsyncProgressState<T>>,
    error_chan: StopSignal,
    action: PollAction,
    interval: u64,
}

impl<T, P: ProgressPoll<T>> ProgressPoller<T, P> {
    /// What the host must do next.
    pub closed spec fn action(&self) -> PollAction {
        self.action
    }

    /// Whether the poller's side of the handoff has made its delivery.
    pub closed spec fn spent(&self) -> bool {
        self.chan.spent()
    }

    /// The owner's function, as it stands.
    pub closed spec fn creator(&self) -> P {
        self.creator
    }

    /// The side of the stop signal that the poller keeps for the refresh
    /// loop.
    pub closed spec fn error_chan(&self) -> StopSignal {
        self.error_chan
    }

    /// The time between the starts of two polls, in microseconds.
    pub closed spec fn interval(&self) -> u64 {
        self.interval
    }

    /// What the host must do next.
    pub fn next(&self) -> (action: PollAction)
        ensures
            action == self.action(),
    {
        self.action
    }

    /// The time between the starts of two polls, in microseconds.
    pub fn frame_interval(&self) -> (interval: u64)
        ensures
            interval == self.interval(),
    {
        self.interval
    }

    /// Sets the time between the starts of two polls, in microseconds.
    pub fn with_interval(self, interval: u64) -> (poller: Self)
        ensures
            poller.interval() == interval,
            poller.action() == self.action(),
            poller.spent() == self.spent(),
            poller.error_chan() == self.error_chan(),
    {
        let mut poller = self;
        poller.interval = interval;
        poller
    }

    /// Takes the answer of a poll. A pending answer is passed on to the view
    /// for its progress and re-arms the poller, whether or not the view has
    /// taken it. Any other answer is final: it is handed over to the view,
    /// which ends the polling whether or not the view has taken it. A poller
    /// that has ended takes no answer.
    pub fn settle(&mut self, state: AsyncProgressState<T>) -> (action: PollAction)
        ensures
            action == final(self).action(),
            final(self).interval() == old(self).interval(),
            old(self).action() !is Rearm ==> action == old(self).action() && final(self).spent()
                == old(self).spent(),
            old(self).action() is Rearm ==> (action is Rearm <==> state@ is Pending),
            old(self).action() is Rearm && state@ is Pending ==> final(self).spent() == old(
                self,
            ).spent(),
            old(self).action() is Rearm && !(state@ is Pending) ==> final(self).spent(),
    {
        match self.action {
            PollAction::Rearm => {
                if state.is_terminal() {
                    let delivered = self.chan.deliver(state).is_ok();
                    self.action = next_action(false, delivered);
                } else {
                    let _ = self.chan.pass(state);
                }
            },
            _ => {},
        }
        self.action
    }

    /// Asks the owner's function once and takes its answer; a poller that
    /// has ended asks nothing.
    pub fn poll(&mut self) -> (action: PollAction)
        requires
            P::callable(),
        ensures
            action == final(self).action(),
            final(self).interval() == old(self).interval(),
            old(self).action() !is Rearm ==> action == old(self).action() && final(self).spent()
                == old(self).spent(),
            action !is Rearm && old(self).action() is Rearm ==> final(self).spent(),
            action is Rearm ==> final(self).spent() == old(self).spent(),
            old(self).action() is Rearm ==> exists|state: AsyncProgressState<T>|
                #[trigger] old(self).creator().yields(state) && (action is Rearm <==> state@
                    is Pending),
    {
        match self.action {
            PollAction::Rearm => {
                let state = self.creator.ask();
                let ghost answer = state;
                let action = self.settle(state);
                assert(old(self).creator().yields(answer) && (action is Rearm <==> answer@
                    is Pending));
                action
            },
            _ => self.action,
        }
    }

    /// Another sending side of the handoff, for an owner that reports
    /// progress or delivers the final state itself. It is as fresh or as
    /// spent as the poller's own.
    pub fn handle(&self) -> (handle: Handle<AsyncProgressState<T>>)
        ensures
            handle.spent() == self.spent(),
    {
        self.chan.share()
    }

    /// Ends the poller and gives out the side of the stop signal that the
    /// refresh loop looks at.
    pub fn into_stop_signal(self) -> (signal: StopSignal)
        ensures
            signal == self.error_chan(),
    {
        self.error_chan
    }
}

impl<T> Handle<AsyncProgressState<T>> {
    /// Reports progress, as a fraction in millionths. The handle stays as it
    /// is. A spent handle fails, and a fresh one does where the view listens
    /// no longer.
    pub fn progress(&self, fraction: u64) -> (outcome: Result<(), HandleUnavailable>)
        ensures
            self.spent() ==> outcome is Err,
    {
        self.pass(AsyncProgressState::Pending(fraction))
    }

    /// Delivers the child. A handle delivers once: a spent handle fails and
    /// sends nothing, and every call leaves the handle spent. A fresh handle
    /// fails where the view listens no longer.
    pub fn loaded(&mut self, view: T) -> (outcome: Result<(), HandleUnavailable>)
        ensures
            final(self).spent(),
            old(self).spent() ==> outcome is Err,
    {
        self.deliver(AsyncProgressState::Available(view))
    }

    /// Delivers the error with which loading has failed. A handle delivers
    /// once: a spent handle fails and sends nothing, and every call leaves
    /// the handle spent. A fresh handle fails where the view listens no
    /// longer.
    pub fn error(&mut self, msg: String) -> (outcome: Result<(), HandleUnavailable>)
        ensures
            final(self).spent(),
            old(self).spent() ==> outcome is Err,
    {
        self.deliver(AsyncProgressState::Error(msg))
    }
}

/// What an [`AsyncProgressView`] is, as its contracts see it.
pub struct AsyncProgressViewModel<T> {
    /// The state of the view.
    pub state: ProgressStateView<T>,
    /// The spans that the placeholder shows.
    pub content: Seq<(Seq<char>, Tone)>,
    /// The width that the progress bar may take, if one is set.
    pub width: Option<usize>,
    /// The height that the progress bar may take, if one is set.
    pub height: Option<usize>,
    /// The column up to which the bar was filled in the last frame.
    pub pos: usize,
    /// The index of the frame to draw next.
    pub frame_index: usize,
    /// The milliseconds allowed for loading, if a timeout is set.
    pub timeout: Option<u64>,
}

/// The state after a look into the handoff: a pending view takes the state
/// that was found, be it new progress or a final state, and becomes an error
/// where its producer has gone without a word; any other view stays as it is,
/// whatever was found.
pub open spec fn absorbed_progress_state<T>(
    state: ProgressStateView<T>,
    found: Received<AsyncProgressState<T>>,
) -> ProgressStateView<T> {
    match state {
        ProgressStateView::Pending(_) => match found {
            Received::Message(next) => next@,
            Received::Empty => state,
            Received::Disconnected => ProgressStateView::Error(internal_error()),
        },
        _ => state,
    }
}

/// The view after a look into the handoff.
pub open spec fn absorbed_progress<T>(
    view: AsyncProgressViewModel<T>,
    found: Received<AsyncProgressState<T>>,
) -> AsyncProgressViewModel<T> {
    AsyncProgressViewModel { state: absorbed_progress_state(view.state, found), ..view }
}

/// The view after it has taken a frame of its animation.
pub open spec fn with_progress_frame<T>(
    view: AsyncProgressViewModel<T>,
    frame: AnimationProgressFrame,
) -> AsyncProgressViewModel<T> {
    AsyncProgressViewModel {
        content: styled_spans(frame.content),
        pos: frame.pos,
        frame_index: frame.next_frame_idx,
        ..view
    }
}

/// The progress that is handed to the progress animation: what was reported,
/// held between nothing and everything.
pub open spec fn held_progress(progress: u64) -> u64 {
    if progress > UNIT {
        UNIT
    } else {
        progress
    }
}

/// Whether `after` is the view `before` one frame on, for a measuring pass
/// within `constraint`: a view whose child is there stays as it is; any
/// other takes the frame that its animation draws for its counters, the
/// progress animation for the progress that was reported, or the error
/// animation, which is told that half of the way was made, in the size that
/// is set, or else in that of the constraint.
pub open spec fn advanced_progress<T, A: ProgressFn, E: ProgressErrorFn>(
    before: AsyncProgressViewModel<T>,
    progress_fn: A,
    error_fn: E,
    constraint: (usize, usize),
    after: AsyncProgressViewModel<T>,
) -> bool {
    let width = match before.width {
        Some(width) => width,
        None => constraint.0,
    };
    let height = match before.height {
        Some(height) => height,
        None => constraint.1,
    };
    match before.state {
        ProgressStateView::Available(_) => after == before,
        ProgressStateView::Pending(value) => exists|frame: AnimationProgressFrame|
            #![auto]
            progress_fn.renders(
                width,
                height,
                held_progress(value),
                before.pos,
                before.frame_index,
                frame,
            ) && after == with_progress_frame(before, frame),
        ProgressStateView::Error(msg) => exists|frame: AnimationProgressFrame|
            #![auto]
            error_fn.renders(
                msg,
                width,
                height,
                (UNIT / 2) as u64,
                before.pos,
                before.frame_index,
                frame,
            ) && after == with_progress_frame(before, frame),
    }
}

/// Whether a measuring pass within `constraint`, `elapsed` milliseconds after
/// the view was made, leads from the view `before` to the view `after` and
/// reports `pass`, where the look into the handoff finds `found`.
///
/// Once the time allowed for loading has run out the pass changes nothing
/// and sends the host to the fallback. Else the view takes what was found,
/// then a frame of its animation unless its child is there.
pub open spec fn measured_progress<T, A: ProgressFn, E: ProgressErrorFn>(
    before: AsyncProgressViewModel<T>,
    progress_fn: A,
    error_fn: E,
    constraint: (usize, usize),
    elapsed: u128,
    found: Received<AsyncProgressState<T>>,
    after: AsyncProgressViewModel<T>,
    pass: Pass,
) -> bool {
    if expired(before.timeout, elapsed) {
        after == before && pass == (Pass { surface: Surface::Fallback, ready: false })
    } else {
        let taken = absorbed_progress(before, found);
        &&& advanced_progress(taken, progress_fn, error_fn, constraint, after)
        &&& pass.surface == surface_for(false, taken.state is Available)
        &&& pass.ready == (before.state is Pending && taken.state is Available)
    }
}

/// Where a progress view stands: it listens to the handoff as long as it is
/// pending.
#[verifier::reject_recursive_types(T)]
enum ProgressStage<T> {
    Pending(Receiver<AsyncProgressState<T>>),
    Error(String),
    Available(T),
}

impl<T> ProgressStage<T> {
    /// The state of a view at this stage that was told of `progress` last.
    closed spec fn state(&self, progress: u64) -> ProgressStateView<T> {
        match *self {
            ProgressStage::Pending(_) => ProgressStateView::Pending(progress),
            ProgressStage::Error(msg) => ProgressStateView::Error(msg@),
            ProgressStage::Available(child) => ProgressStateView::Available(child),
        }
    }
}

/// An `AsyncProgressView` is a wrapper view that displays a progress bar,
/// until the child view is successfully created or an error in the creation
/// progress occured.
///
/// The view begins as pending with no progress. In each measuring pass it
/// looks into the handoff once; what it finds there is the only thing that
/// changes its state, and a state that is not pending never changes again.
/// While no child is there the view draws a frame of its progress or error
/// animation in each pass. When the view is dropped it signals the refresh
/// loop to stop.
#[verifier::reject_recursive_types(T)]
pub struct AsyncProgressView<T, A: ProgressFn, E: ProgressErrorFn> {
    view: ProgressStage<T>,
    progress: u64,
    loading: StyledString,
    progress_fn: Progressing<A>,
    error_fn: Failing<E>,
    width: Option<usize>,
    height: Option<usize>,
    frame_index: usize,
    dropped: StopGuard,
    pos: usize,
    timeout: Option<u64>,
    created: Instant,
}

impl<T, A: ProgressFn, E: ProgressErrorFn> View for AsyncProgressView<T, A, E> {
    type V = AsyncProgressViewModel<T>;

    closed spec fn view(&self) -> AsyncProgressViewModel<T> {
        AsyncProgressViewModel {
            state: self.view.state(self.progress),
            content: styled_spans(self.loading),
            width: self.width,
            height: self.height,
            pos: self.pos,
            frame_index: self.frame_index,
            timeout: self.timeout,
        }
    }
}

/// Whether a progress animation may be called on every progress between
/// nothing and everything.
pub open spec fn draws_all_progress<A: ProgressFn>(progress_fn: A) -> bool {
    forall|width: usize, height: usize, progress: u64, pos: usize, frame_idx: usize|
        progress <= UNIT ==> #[trigger] progress_fn.accepts(
            width,
            height,
            progress,
            pos,
            frame_idx,
        )
}

/// Whether the error animation of a progress bar may be called on every
/// message and every progress between nothing and everything.
pub open spec fn draws_all_errors<E: ProgressErrorFn>(error_fn: E) -> bool {
    forall|msg: Seq<char>, width: usize, height: usize, progress: u64, pos: usize, frame_idx: usize|
        progress <= UNIT ==> #[trigger] error_fn.accepts(
            msg,
            width,
            height,
            progress,
            pos,
            frame_idx,
        )
}

/// A progress animation that may be called on every progress between
/// nothing and everything.
struct Progressing<A: ProgressFn> {
    progress_fn: A,
}

impl<A: ProgressFn> Progressing<A> {
    #[verifier::type_invariant]
    spec fn well_formed(self) -> bool {
        draws_all_progress(self.progress_fn)
    }

    fn of(progress_fn: A) -> (out: Self)
        requires
            draws_all_progress(progress_fn),
        ensures
            out.progress_fn == progress_fn,
    {
        Progressing { progress_fn }
    }

    fn frame(&self, width: usize, height: usize, progress: u64, pos: usize, frame_idx: usize) -> (frame:
        AnimationProgressFrame)
        requires
            progress <= UNIT,
        ensures
            self.progress_fn.renders(width, height, progress, pos, frame_idx, frame),
    {
        proof {
            use_type_invariant(self);
        }
        self.progress_fn.frame(width, height, progress, pos, frame_idx)
    }
}

/// An error animation of a progress bar that may be called on every message
/// and every progress between nothing and everything.
struct Failing<E: ProgressErrorFn> {
    error_fn: E,
}

impl<E: ProgressErrorFn> Failing<E> {
    #[verifier::type_invariant]
    spec fn well_formed(self) -> bool {
        draws_all_errors(self.error_fn)
    }

    fn of(error_fn: E) -> (out: Self)
        requires
            draws_all_errors(error_fn),
        ensures
            out.error_fn == error_fn,
    {
        Failing { error_fn }
    }

    fn frame(
        &self,
        msg: String,
        width: usize,
        height: usize,
        progress: u64,
        pos: usize,
        frame_idx: usize,
    ) -> (frame: AnimationProgressFrame)
        requires
            progress <= UNIT,
        ensures
            self.error_fn.renders(msg@, width, height, progress, pos, frame_idx, frame),
    {
        proof {
            use_type_invariant(self);
        }
        self.error_fn.frame(msg, width, height, progress, pos, frame_idx)
    }
}

impl<T> AsyncProgressView<T, DefaultProgress, DefaultProgressError> {
    /// Create a new `AsyncProgressView` instance, and the poller that feeds
    /// it.
    ///
    /// The view is pending with no progress, with the default animations, no
    /// size of its own and no timeout. The `creator` function is asked once
    /// at once, and the poller says what the host must do next: it will be
    /// asked again after every frame delay until the view has either been
    /// loaded or errored. Make sure that this function will never block
    /// indefinitely.
    pub fn new<P: ProgressPoll<T>>(creator: P) -> (made: (Self, ProgressPoller<T, P>))
        requires
            P::callable(),
        ensures
            made.0@ == (AsyncProgressViewModel::<T> {
                state: ProgressStateView::Pending(0),
                content: seq![(Seq::<char>::empty(), Tone::Plain)],
                width: None,
                height: None,
                pos: 0,
                frame_index: 0,
                timeout: None,
            }),
            made.1.interval() == FRAME_INTERVAL,
            made.1.action() is Rearm <==> !made.1.spent(),
            exists|state: AsyncProgressState<T>|
                #[trigger] creator.yields(state) && (made.1.action() is Rearm <==> state@
                    is Pending),
    {
        let (view_tx, view_rx) = unbounded_channel();
        let (error_tx, error_rx) = stop_signal();

        let mut poller = ProgressPoller {
            creator,
            chan: Handle::open(view_tx),
            error_chan: error_rx,
            action: PollAction::Rearm,
            interval: FRAME_INTERVAL,
        };
        poller.poll();

        let view = AsyncProgressView {
            view: ProgressStage::Pending(view_rx),
            progress: 0,
            loading: styled_plain(String::new()),
            progress_fn: Progressing::of(DefaultProgress),
            error_fn: Failing::of(DefaultProgressError),
            width: None,
            height: None,
            frame_index: 0,
            dropped: error_tx,
            pos: 0,
            timeout: None,
            created: clock_now(),
        };
        (view, poller)
    }
}

impl<T, A: ProgressFn, E: ProgressErrorFn> AsyncProgressView<T, A, E> {
    /// The function that draws the progress animation.
    pub closed spec fn progress_fn(&self) -> A {
        self.progress_fn.progress_fn
    }

    /// The function that draws the error animation.
    pub closed spec fn error_fn(&self) -> E {
        self.error_fn.error_fn
    }

    /// Mark the maximum allowed width in characters, the progress bar may
    /// consume. By default, the width will be inherited by the parent view.
    pub fn with_width(self, width: usize) -> (out: Self)
        ensures
            out@ == (AsyncProgressViewModel { width: Some(width), ..self@ }),
            out.progress_fn() == self.progress_fn(),
            out.error_fn() == self.error_fn(),
    {
        let mut out = self;
        out.set_width(width);
        out
    }

    /// Mark the maximum allowed height in characters, the progress bar may
    /// consume. By default, the height will be inherited by the parent view.
    pub fn with_height(self, height: usize) -> (out: Self)
        ensures
            out@ == (AsyncProgressViewModel { height: Some(height), ..self@ }),
            out.progress_fn() == self.progress_fn(),
            out.error_fn() == self.error_fn(),
    {
        let mut out = self;
        out.set_height(height);
        out
    }

    /// Set the time allowed for loading, in milliseconds. Once more time
    /// than that has passed since the view was made, the fallback answers
    /// every operation.
    pub fn with_timeout(self, millis: u64) -> (out: Self)
        ensures
            out@ == (AsyncProgressViewModel { timeout: Some(millis), ..self@ }),
            out.progress_fn() == self.progress_fn(),
            out.error_fn() == self.error_fn(),
    {
        let mut out = self;
        out.set_timeout(millis);
        out
    }

    /// Set a custom progress function for this view, indicating the progress
    /// of the wrapped view creation. The animation begins with its first
    /// frame and an empty bar.
    pub fn with_progress_fn<F: ProgressFn>(self, progress_fn: F) -> (out: AsyncProgressView<T, F, E>)
        requires
            draws_all_progress(progress_fn),
        ensures
            out@ == (AsyncProgressViewModel { pos: 0, frame_index: 0, ..self@ }),
            out.progress_fn() == progress_fn,
            out.error_fn() == self.error_fn(),
    {
        AsyncProgressView {
            view: self.view,
            progress: self.progress,
            loading: self.loading,
            progress_fn: Progressing::of(progress_fn),
            error_fn: self.error_fn,
            width: self.width,
            height: self.height,
            frame_index: 0,
            dropped: self.dropped,
            pos: 0,
            timeout: self.timeout,
            created: self.created,
        }
    }

    /// Set a custom error function for this view, indicating that an error
    /// occured during the wrapped view creation. The animation begins with
    /// its first frame and an empty bar.
    pub fn with_error_fn<F: ProgressErrorFn>(self, error_fn: F) -> (out: AsyncProgressView<T, A, F>)
        requires
            draws_all_errors(error_fn),
        ensures
            out@ == (AsyncProgressViewModel { pos: 0, frame_index: 0, ..self@ }),
            out.progress_fn() == self.progress_fn(),
            out.error_fn() == error_fn,
    {
        AsyncProgressView {
            view: self.view,
            progress: self.progress,
            loading: self.loading,
            progress_fn: self.progress_fn,
            error_fn: Failing::of(error_fn),
            width: self.width,
            height: self.height,
            frame_index: 0,
            dropped: self.dropped,
            pos: 0,
            timeout: self.timeout,
            created: self.created,
        }
    }

    /// Set the maximum allowed width in characters, the progress bar may
    /// consume.
    pub fn set_width(&mut self, width: usize)
        ensures
            final(self)@ == (AsyncProgressViewModel { width: Some(width), ..old(self)@ }),
            final(self).progress_fn() == old(self).progress_fn(),
            final(self).error_fn() == old(self).error_fn(),
    {
        self.width = Some(width);
    }

    /// Set the maximum allowed height in characters, the progress bar may
    /// consume.
    pub fn set_height(&mut self, height: usize)
        ensures
            final(self)@ == (AsyncProgressViewModel { height: Some(height), ..old(self)@ }),
            final(self).progress_fn() == old(self).progress_fn(),
            final(self).error_fn() == old(self).error_fn(),
    {
        self.height = Some(height);
    }

    /// Set the time allowed for loading, in milliseconds.
    pub fn set_timeout(&mut self, millis: u64)
        ensures
            final(self)@ == (AsyncProgressViewModel { timeout: Some(millis), ..old(self)@ }),
            final(self).progress_fn() == old(self).progress_fn(),
            final(self).error_fn() == old(self).error_fn(),
    {
        self.timeout = Some(millis);
    }

    /// Set a custom progress function for this view, indicating the progress
    /// of the wrapped view creation.
    ///
    /// The function may be set at any time. The progress bar can be changed
    /// even if the previous progress bar has already be drawn; the new one
    /// begins with its first frame and an empty bar.
    pub fn set_progress_fn(&mut self, progress_fn: A)
        requires
            draws_all_progress(progress_fn),
        ensures
            final(self)@ == (AsyncProgressViewModel { pos: 0, frame_index: 0, ..old(self)@ }),
            final(self).progress_fn() == progress_fn,
            final(self).error_fn() == old(self).error_fn(),
    {
        self.progress_fn = Progressing::of(progress_fn);
        self.pos = 0;
        self.frame_index = 0;
    }

    /// Set a custom error function for this view, indicating that an error
    /// occured during the wrapped view creation.
    ///
    /// The function may be set at any time. The progress bar can be changed
    /// even if the previous progress bar has already be drawn; the new
    /// animation begins with its first frame and an empty bar.
    pub fn set_error_fn(&mut self, error_fn: E)
        requires
            draws_all_errors(error_fn),
        ensures
            final(self)@ == (AsyncProgressViewModel { pos: 0, frame_index: 0, ..old(self)@ }),
            final(self).progress_fn() == old(self).progress_fn(),
            final(self).error_fn() == error_fn,
    {
        self.error_fn = Failing::of(error_fn);
        self.pos = 0;
        self.frame_index = 0;
    }

    /// Make the progress bar inherit its width from the parent view. This is
    /// the default.
    pub fn inherit_width(&mut self)
        ensures
            final(self)@ == (AsyncProgressViewModel { width: None, ..old(self)@ }),
            final(self).progress_fn() == old(self).progress_fn(),
            final(self).error_fn() == old(self).error_fn(),
    {
        self.width = None;
    }

    /// Make the progress bar inherit its height from the parent view. This is
    /// the default.
    pub fn inherit_height(&mut self)
        ensures
            final(self)@ == (AsyncProgressViewModel { height: None, ..old(self)@ }),
            final(self).progress_fn() == old(self).progress_fn(),
            final(self).error_fn() == old(self).error_fn(),
    {
        self.height = None;
    }

    /// Takes what a look into the handoff has found: a pending view takes the
    /// state that was found, and becomes an error where its producer has gone
    /// without a word; any other view stays as it is and lets go of what was
    /// found. The result says whether the child has become available.
    pub fn absorb(&mut self, found: Received<AsyncProgressState<T>>) -> (ready: bool)
        ensures
            final(self)@ == absorbed_progress(old(self)@, found),
            final(self).progress_fn() == old(self).progress_fn(),
            final(self).error_fn() == old(self).error_fn(),
            ready == (old(self)@.state is Pending && final(self)@.state is Available),
    {
        let pending = match &self.view {
            ProgressStage::Pending(_) => true,
            _ => false,
        };
        if !pending {
            return false;
        }
        match found {
            Received::Message(AsyncProgressState::Available(child)) => {
                self.view = ProgressStage::Available(child);
                true
            },
            Received::Message(AsyncProgressState::Error(msg)) => {
                self.view = ProgressStage::Error(msg);
                false
            },
            Received::Message(AsyncProgressState::Pending(progress)) => {
                self.progress = progress;
                false
            },
            Received::Empty => false,
            Received::Disconnected => {
                self.view = ProgressStage::Error(internal_error_message());
                false
            },
        }
    }

    /// Draws the next frame: a view whose child is there stays as it is; any
    /// other takes the frame that its animation draws for its counters, in
    /// the size that is set, or else in that of the constraint. The result is
    /// the widget to measure.
    pub fn advance(&mut self, constraint: (usize, usize)) -> (surface: Surface)
        ensures
            advanced_progress(
                old(self)@,
                old(self).progress_fn(),
                old(self).error_fn(),
                constraint,
                final(self)@,
            ),
            final(self).progress_fn() == old(self).progress_fn(),
            final(self).error_fn() == old(self).error_fn(),
            surface == surface_for(false, old(self)@.state is Available),
    {
        let width = match self.width {
            Some(width) => width,
            None => constraint.0,
        };
        let height = match self.height {
            Some(height) => height,
            None => constraint.1,
        };
        let ghost before = self@;
        match &self.view {
            ProgressStage::Available(_) => Surface::Child,
            ProgressStage::Pending(_) => {
                let frame = self.progress_fn.frame(
                    width,
                    height,
                    clamp_fraction(self.progress, 0, UNIT),
                    self.pos,
                    self.frame_index,
                );
                let ghost drawn = frame;
                self.pos = frame.pos;
                self.frame_index = frame.next_frame_idx;
                self.loading = frame.content;
                assert(self@ == with_progress_frame(before, drawn));
                Surface::Placeholder
            },
            ProgressStage::Error(msg) => {
                let frame = self.error_fn.frame(
                    msg.clone(),
                    width,
                    height,
                    UNIT / 2,
                    self.pos,
                    self.frame_index,
                );
                let ghost drawn = frame;
                self.pos = frame.pos;
                self.frame_index = frame.next_frame_idx;
                self.loading = frame.content;
                assert(self@ == with_progress_frame(before, drawn));
                Surface::Placeholder
            },
        }
    }

    /// The measuring pass of a view that is `elapsed` milliseconds old, on
    /// what the look into the handoff has found.
    pub fn required_size_on(
        &mut self,
        constraint: (usize, usize),
        elapsed: u128,
        found: Received<AsyncProgressState<T>>,
    ) -> (pass: Pass)
        ensures
            measured_progress(
                old(self)@,
                old(self).progress_fn(),
                old(self).error_fn(),
                constraint,
                elapsed,
                found,
                final(self)@,
                pass,
            ),
            final(self).progress_fn() == old(self).progress_fn(),
            final(self).error_fn() == old(self).error_fn(),
    {
        if is_expired(self.timeout, elapsed) {
            return Pass { surface: Surface::Fallback, ready: false };
        }
        let ready = self.absorb(found);
        let surface = self.advance(constraint);
        Pass { surface, ready }
    }

    /// The measuring pass of a view that is `elapsed` milliseconds old. Once
    /// the time allowed for loading has run out the pass changes nothing and
    /// sends the host to the fallback. Else a pending view looks into the
    /// handoff once, and the view draws a frame unless its child is there.
    pub fn required_size_at(&mut self, constraint: (usize, usize), elapsed: u128) -> (pass: Pass)
        ensures
            exists|found: Received<AsyncProgressState<T>>|
                #[trigger] measured_progress(
                    old(self)@,
                    old(self).progress_fn(),
                    old(self).error_fn(),
                    constraint,
                    elapsed,
                    found,
                    final(self)@,
                    pass,
                ),
            final(self).progress_fn() == old(self).progress_fn(),
            final(self).error_fn() == old(self).error_fn(),
    {
        let found = match &self.view {
            ProgressStage::Pending(rx) => try_receive(rx),
            _ => Received::Empty,
        };
        let ghost seen = found;
        let pass = self.required_size_on(constraint, elapsed, found);
        assert(measured_progress(
            old(self)@,
            old(self).progress_fn(),
            old(self).error_fn(),
            constraint,
            elapsed,
            seen,
            self@,
            pass,
        ));
        pass
    }

    /// The measuring pass: it reads the clock and goes on as
    /// [`required_size_at`](Self::required_size_at) does.
    pub fn required_size(&mut self, constraint: (usize, usize)) -> (pass: Pass)
        ensures
            exists|elapsed: u128, found: Received<AsyncProgressState<T>>|
                #[trigger] measured_progress(
                    old(self)@,
                    old(self).progress_fn(),
                    old(self).error_fn(),
                    constraint,
                    elapsed,
                    found,
                    final(self)@,
                    pass,
                ),
            final(self).progress_fn() == old(self).progress_fn(),
            final(self).error_fn() == old(self).error_fn(),
    {
        let elapsed = self.elapsed();
        self.required_size_at(constraint, elapsed)
    }

    /// The milliseconds that have passed since the view was made.
    pub fn elapsed(&self) -> (millis: u128) {
        let passed = clock_elapsed(&self.created);
        whole_millis(&passed)
    }

    /// The widget that draws, lays out and says where the important area is,
    /// for a view that is `elapsed` milliseconds old.
    pub fn surface_at(&self, elapsed: u128) -> (surface: Surface)
        ensures
            surface == surface_for(expired(self@.timeout, elapsed), self@.state is Available),
    {
        let available = match &self.view {
            ProgressStage::Available(_) => true,
            _ => false,
        };
        choose_surface(is_expired(self.timeout, elapsed), available)
    }

    /// The widget that draws, lays out and says where the important area is.
    /// It reads the clock.
    pub fn surface(&self) -> (surface: Surface)
        ensures
            exists|elapsed: u128|
                surface == #[trigger] surface_for(
                    expired(self@.timeout, elapsed),
                    self@.state is Available,
                ),
            self@.timeout is None ==> surface == surface_for(false, self@.state is Available),
    {
        let elapsed = self.elapsed();
        self.surface_at(elapsed)
    }

    /// The widget that takes events and focus, for a view that is `elapsed`
    /// milliseconds old: the placeholder takes none, so there is no such
    /// widget while the view is pending or shows an error.
    pub fn delegate_at(&self, elapsed: u128) -> (delegate: Option<Delegate>)
        ensures
            delegate == delegate_for(expired(self@.timeout, elapsed), self@.state is Available),
    {
        let available = match &self.view {
            ProgressStage::Available(_) => true,
            _ => false,
        };
        choose_delegate(is_expired(self.timeout, elapsed), available)
    }

    /// The widget that takes events and focus. It reads the clock.
    pub fn delegate(&self) -> (delegate: Option<Delegate>)
        ensures
            exists|elapsed: u128|
                delegate == #[trigger] delegate_for(
                    expired(self@.timeout, elapsed),
                    self@.state is Available,
                ),
            self@.timeout is None ==> delegate == delegate_for(false, self@.state is Available),
    {
        let elapsed = self.elapsed();
        self.delegate_at(elapsed)
    }

    /// The frame that the placeholder shows.
    pub fn content(&self) -> (content: &StyledString)
        ensures
            styled_spans(*content) == self@.content,
    {
        &self.loading
    }

    /// The child, once it is there.
    pub fn child(&self) -> (child: Option<&T>)
        ensures
            match self@.state {
                ProgressStateView::Available(there) => child == Some(&there),
                _ => child is None,
            },
    {
        match &self.view {
            ProgressStage::Available(child) => Some(child),
            _ => None,
        }
    }

    /// The child, once it is there, to work on: what is done to it is done to
    /// the child of the view, and to nothing else of the view.
    pub fn child_mut(&mut self) -> (child: Option<&mut T>)
        ensures
            match child {
                Some(there) => {
                    &&& old(self)@.state == ProgressStateView::Available(*there)
                    &&& final(self)@ == (AsyncProgressViewModel {
                        state: ProgressStateView::Available(*final(there)),
                        ..old(self)@
                    })
                },
                None => !(old(self)@.state is Available) && final(self)@ == old(self)@,
            },
            final(self).progress_fn() == old(self).progress_fn(),
            final(self).error_fn() == old(self).error_fn(),
    {
        match &mut self.view {
            ProgressStage::Available(child) => Some(child),
            _ => None,
        }
    }

    /// The message of the error, once loading has failed.
    pub fn error(&self) -> (msg: Option<&String>)
        ensures
            match self@.state {
                ProgressStateView::Error(text) => msg matches Some(shown) && shown@ == text,
                _ => msg is None,
            },
    {
        match &self.view {
            ProgressStage::Error(msg) => Some(msg),
            _ => None,
        }
    }

    /// The progress that was reported last, while the view waits for its
    /// child.
    pub fn progress(&self) -> (progress: Option<u64>)
        ensures
            match self@.state {
                ProgressStateView::Pending(value) => progress == Some(value),
                _ => progress is None,
            },
    {
        match &self.view {
            ProgressStage::Pending(_) => Some(self.progress),
            _ => None,
        }
    }

    /// The column up to which the bar was filled in the last frame.
    pub fn position(&self) -> (pos: usize)
        ensures
            pos == self@.pos,
    {
        self.pos
    }

    /// Signals the refresh loop to stop, as dropping the view does.
    pub fn signal_stop(&self) -> (taken: bool) {
        self.dropped.signal()
    }
}

/// The bar never moves back and never overshoots: it is filled at least as
/// far as it was, within the width, and at most as far as its target or
/// where it was, whichever is further.
pub proof fn lemma_progress_fill_bounded(width: nat, progress: nat, pos: nat, frame_idx: nat)
    requires
        progress <= UNIT,
    ensures
        progress_base(width, pos) <= progress_fill(width, progress, pos, frame_idx) <= width,
        progress_fill(width, progress, pos, frame_idx) <= progress_base(width, pos)
            || progress_fill(width, progress, pos, frame_idx) <= progress_target(width, progress),
{
    let base = progress_base(width, pos);
    let target = progress_target(width, progress);
    let offset: nat = if target > base {
        (target - base) as nat
    } else {
        0
    };
    let factor = circular_out_at(frame_idx % 30, 30);
    lemma_circular_out_bounded(frame_idx % 30, 30);
    lemma_scaled_bounded(offset, factor);
    lemma_scaled_bounded(width, progress);
}

/// The filled length of the bar grows with the progress and with the
/// position from which the bar moves on: more progress, from a position at
/// least as far, never fills less in the same frame.
pub proof fn lemma_progress_fill_monotonic(
    width: nat,
    progress1: nat,
    pos1: nat,
    progress2: nat,
    pos2: nat,
    frame_idx: nat,
)
    requires
        progress1 <= progress2 <= UNIT,
        pos1 <= pos2,
    ensures
        progress_fill(width, progress1, pos1, frame_idx) <= progress_fill(
            width,
            progress2,
            pos2,
            frame_idx,
        ),
{
    let base1 = progress_base(width, pos1);
    let base2 = progress_base(width, pos2);
    let target1 = progress_target(width, progress1);
    let target2 = progress_target(width, progress2);
    let offset1: nat = if target1 > base1 {
        (target1 - base1) as nat
    } else {
        0
    };
    let offset2: nat = if target2 > base2 {
        (target2 - base2) as nat
    } else {
        0
    };
    let factor = circular_out_at(frame_idx % 30, 30);
    let gap = (base2 - base1) as nat;
    lemma_circular_out_bounded(frame_idx % 30, 30);
    lemma_scaled_monotonic(width, progress1, width, progress2);
    assert(offset1 <= offset2 + gap);
    lemma_scaled_monotonic(offset1, factor, offset2 + gap, factor);
    lemma_scaled_step(offset2, gap, factor);
}

/// A state that is not pending is final: whatever is found in the handoff,
/// the state stays as it is.
pub proof fn lemma_final_progress_state_stays<T>(
    state: ProgressStateView<T>,
    found: Received<AsyncProgressState<T>>,
)
    requires
        !(state is Pending),
    ensures
        absorbed_progress_state(state, found) == state,
{
}

/// A measuring pass never leaves a final state: a view whose child is there
/// keeps its child and sends the host to it, and a view that shows an error
/// keeps its message and sends the host to the placeholder, as long as the
/// time allowed for loading has not run out.
pub proof fn lemma_progress_pass_keeps_final_state<T, A: ProgressFn, E: ProgressErrorFn>(
    before: AsyncProgressViewModel<T>,
    progress_fn: A,
    error_fn: E,
    constraint: (usize, usize),
    elapsed: u128,
    found: Received<AsyncProgressState<T>>,
    after: AsyncProgressViewModel<T>,
    pass: Pass,
)
    requires
        measured_progress(before, progress_fn, error_fn, constraint, elapsed, found, after, pass),
        !(before.state is Pending),
    ensures
        after.state == before.state,
        !pass.ready,
        !expired(before.timeout, elapsed) ==> pass.surface == surface_for(
            false,
            before.state is Available,
        ),
{
}

/// A pending view that finds its child in the handoff has it from that pass
/// on: the pass reports the child as ready and sends the host to it.
pub proof fn lemma_progress_pass_takes_child<T, A: ProgressFn, E: ProgressErrorFn>(
    before: AsyncProgressViewModel<T>,
    progress_fn: A,
    error_fn: E,
    constraint: (usize, usize),
    elapsed: u128,
    child: T,
    after: AsyncProgressViewModel<T>,
    pass: Pass,
)
    requires
        measured_progress(
            before,
            progress_fn,
            error_fn,
            constraint,
            elapsed,
            Received::Message(AsyncProgressState::Available(child)),
            after,
            pass,
        ),
        before.state is Pending,
        !expired(before.timeout, elapsed),
    ensures
        after.state == ProgressStateView::Available(child),
        pass == (Pass { surface: Surface::Child, ready: true }),
{
}

/// A pending view whose producer has gone without a word shows an error from
/// that pass on, and the message of that error is not empty.
pub proof fn lemma_progress_pass_takes_disconnection<T, A: ProgressFn, E: ProgressErrorFn>(
    before: AsyncProgressViewModel<T>,
    progress_fn: A,
    error_fn: E,
    constraint: (usize, usize),
    elapsed: u128,
    after: AsyncProgressViewModel<T>,
    pass: Pass,
)
    requires
        measured_progress(
            before,
            progress_fn,
            error_fn,
            constraint,
            elapsed,
            Received::Disconnected,
            after,
            pass,
        ),
        before.state is Pending,
        !expired(before.timeout, elapsed),
    ensures
        after.state == ProgressStateView::<T>::Error(internal_error()),
        internal_error().len() > 0,
        pass == (Pass { surface: Surface::Placeholder, ready: false }),
{
    lemma_internal_error_not_empty();
}

/// With the default progress animation, a pending view draws a bar that is
/// filled at least as far as in the pass before, within the width.
pub proof fn lemma_progress_pass_never_falls_back<T, E: ProgressErrorFn>(
    before: AsyncProgressViewModel<T>,
    error_fn: E,
    constraint: (usize, usize),
    after: AsyncProgressViewModel<T>,
)
    requires
        advanced_progress(before, DefaultProgress, error_fn, constraint, after),
        before.state is Pending,
    ensures
        after.pos >= before.pos || after.pos == match before.width {
            Some(width) => width,
            None => constraint.0,
        },
{
    let width = match before.width {
        Some(width) => width,
        None => constraint.0,
    };
    let value = before.state->Pending_0;
    lemma_progress_fill_bounded(
        width as nat,
        held_progress(value) as nat,
        before.pos as nat,
        before.frame_index as nat,
    );
}

/// A progress bar fills the width: its two spans together have as many
/// characters as the width has columns.
pub proof fn lemma_progress_fills_width(width: nat, fill: nat)
    requires
        fill <= width,
    ensures
        spans_len(progress_spans(width, fill)) == width,
{
    let spans = progress_spans(width, fill);
    reveal_with_fuel(spans_len, 3);
    assert(spans.drop_last().drop_last().len() == 0);
    lemma_bar_len(fill);
    lemma_bar_len((width - fill) as nat);
}

} // verus!
