//! The placeholder without progress information: a sweep that runs until the
//! child is there, and an animation that uncovers the message of an error.

use crate::easing::{
    circular_in_out, circular_in_out_at, clamp_fraction, lemma_circular_in_out_bounded,
    lemma_scaled_bounded, scale, scaled, UNIT,
};
use crate::handoff::{
    clock_elapsed, clock_now, try_receive, unbounded_channel, whole_millis, Handle,
    HandleUnavailable, Received,
};
use crate::schedule::{
    background, stop_signal, Background, Poller, ReadyPoll, StopGuard, TaskEnd, FRAME_INTERVAL,
};
use crate::styled::{
    append_plain, append_styled, center_offset, centered_offset, styled_new, styled_plain,
    spans_len, styled_spans, Tone,
};
use crate::text::{revealed, revealed_len, uncover};
use crate::utils::{lemma_repeated_len, repeat_str, repeated};
use crate::surface::{
    choose_delegate, choose_surface, delegate_for, expired, internal_error,
    internal_error_message, is_expired, lemma_internal_error_not_empty, surface_for, Delegate,
    Pass, Surface,
};
use crossbeam::channel::Receiver;
use cursive::utils::markup::StyledString;
use std::time::Instant;
use vstd::prelude::*;
use vstd::utf8::encode_utf8;

verus! {

/// The number of frames that one sweep of the loading animation takes: one
/// second at sixty frames a second.
pub const CYCLE: usize = 60;

/// This struct represents the content of a single loading or error animation
/// frame, produced by an animation function of the `AsyncView`.
pub struct AnimationFrame {
    /// The styled text that is displayed for this frame.
    pub content: StyledString,
    /// The next `frame_idx` passed to the animation function when calculating
    /// the next frame.
    pub next_frame_idx: usize,
}

/// A bar of `n` columns.
pub open spec fn bar(n: nat) -> Seq<char> {
    repeated(seq!['━'], n)
}

/// The column at which the swept segment begins in frame `idx`.
pub open spec fn sweep_begin(width: nat, idx: nat) -> nat {
    scaled(width, circular_in_out_at(idx % 60, 60))
}

/// The fraction of the width that the swept segment's end has reached in
/// frame `idx`: it runs a quarter of a cycle ahead of the beginning, at twice
/// its pace, and waits at the right edge.
pub open spec fn sweep_end_fraction(idx: nat) -> nat {
    let doubled = 2 * circular_in_out_at((idx + 15) % 60, 60);
    if doubled > UNIT {
        UNIT as nat
    } else {
        doubled
    }
}

/// The column at which the swept segment ends in frame `idx`.
pub open spec fn sweep_end(width: nat, idx: nat) -> nat {
    scaled(width, sweep_end_fraction(idx))
}

/// The three spans of a sweep over `width` columns: the segment from `begin`
/// to `end` is highlighted where the end is ahead, and the rest is where the
/// end has wrapped round to the left edge.
pub open spec fn sweep_spans(width: nat, begin: nat, end: nat) -> Seq<(Seq<char>, Tone)> {
    if end >= begin {
        seq![
            (bar(begin), Tone::HighlightInactive),
            (bar((end - begin) as nat), Tone::Highlight),
            (bar((width - end) as nat), Tone::HighlightInactive),
        ]
    } else {
        seq![
            (bar(end), Tone::Highlight),
            (bar((begin - end) as nat), Tone::HighlightInactive),
            (bar((width - begin) as nat), Tone::Highlight),
        ]
    }
}

/// The content of the default loading animation in frame `frame_idx`.
pub open spec fn loading_spans(width: nat, frame_idx: nat) -> Seq<(Seq<char>, Tone)> {
    sweep_spans(width, sweep_begin(width, frame_idx), sweep_end(width, frame_idx))
}

/// The frame index that the default loading animation hands on.
pub open spec fn next_loading_idx(frame_idx: nat) -> nat {
    (frame_idx % 60 + 1) % 60
}

pub(crate) fn bar_of(n: usize) -> (out: String)
    ensures
        out@ == bar(n as nat),
{
    proof {
        reveal_strlit("━");
        assert("━"@ =~= seq!['━']);
    }
    repeat_str("━", n)
}

/// The columns between which the swept segment lies in frame `idx`.
pub fn sweep_positions(width: usize, idx: usize) -> (at: (usize, usize))
    ensures
        at.0 == sweep_begin(width as nat, idx as nat),
        at.1 == sweep_end(width as nat, idx as nat),
        at.0 <= width,
        at.1 <= width,
{
    let time: u32 = (idx % CYCLE) as u32;
    let ahead: u32 = ((idx % CYCLE + 15) % CYCLE) as u32;
    let begin_fraction = clamp_fraction(circular_in_out(time, 60), 0, UNIT);
    let end_fraction = clamp_fraction(2 * circular_in_out(ahead, 60), 0, UNIT);
    assert(ahead == (idx + 15) % 60);
    (scale(width, begin_fraction), scale(width, end_fraction))
}

/// A sweep over `width` columns whose highlighted segment lies between
/// `begin` and `end`.
fn sweep(width: usize, begin: usize, end: usize) -> (content: StyledString)
    requires
        begin <= width,
        end <= width,
    ensures
        styled_spans(content) == sweep_spans(width as nat, begin as nat, end as nat),
{
    let mut result = styled_new();
    if end >= begin {
        append_styled(&mut result, bar_of(begin), Tone::HighlightInactive);
        append_styled(&mut result, bar_of(end - begin), Tone::Highlight);
        append_styled(&mut result, bar_of(width - end), Tone::HighlightInactive);
    } else {
        append_styled(&mut result, bar_of(end), Tone::Highlight);
        append_styled(&mut result, bar_of(begin - end), Tone::HighlightInactive);
        append_styled(&mut result, bar_of(width - begin), Tone::Highlight);
    }
    assert(styled_spans(result) =~= sweep_spans(width as nat, begin as nat, end as nat));
    result
}

/// The default loading animation for a `AsyncView`: a highlighted segment
/// that sweeps from the left edge to the right once in every cycle of sixty
/// frames.
///
/// The `width` and `height` parameters contain the maximum size the content
/// may have (in characters). The initial `frame_idx` is 0. The frame depends
/// on the width and on the frame index within its cycle, and on nothing else.
pub fn default_animation(width: usize, _height: usize, frame_idx: usize) -> (frame: AnimationFrame)
    ensures
        styled_spans(frame.content) == loading_spans(width as nat, frame_idx as nat),
        frame.next_frame_idx == next_loading_idx(frame_idx as nat),
{
    let idx = frame_idx % CYCLE;
    let (begin, end) = sweep_positions(width, idx);
    assert((idx + 15) % 60 == (frame_idx + 15) % 60);
    AnimationFrame { content: sweep(width, begin, end), next_frame_idx: (idx + 1) % CYCLE }
}

/// The error message with as many spaces on either side as centre it in
/// `width` columns, its length counted in bytes.
pub open spec fn padded_message(msg: Seq<char>, width: nat) -> Seq<char> {
    let pad = repeated(seq![' '], centered_offset(encode_utf8(msg).len(), width));
    pad + msg + pad
}

/// The number of frames that the sweep still runs before the message begins
/// to show: an error that came in the second half of a cycle lets that cycle
/// end first.
pub open spec fn error_cycle(error_idx: nat) -> nat {
    if error_idx % 60 > 30 {
        60
    } else {
        0
    }
}

/// The time of frame `frame_idx`, counted from the start of the cycle in which
/// the error came.
pub open spec fn error_time(error_idx: nat, frame_idx: nat) -> nat {
    let start = (error_idx / 60) * 60;
    if frame_idx >= start {
        (frame_idx - start) as nat
    } else {
        0
    }
}

/// Whether the error animation has run out in frame `frame_idx`, so that the
/// whole message stands.
pub open spec fn error_shown(error_idx: nat, frame_idx: nat) -> bool {
    error_time(error_idx, frame_idx) >= error_cycle(error_idx) + 60
}

/// The spans of a frame in which the sweep has uncovered the message up to
/// the column `begin`: the message up to the split point nearest to that
/// byte, then the highlighted segment up to `end`, then the rest.
pub open spec fn uncovering_spans(text: Seq<char>, width: nat, begin: nat, end: nat) -> Seq<
    (Seq<char>, Tone),
> {
    let cut = revealed_len(text, begin);
    let ahead = if end > cut {
        end
    } else {
        cut
    };
    seq![
        (revealed(text, begin), Tone::Plain),
        (bar((ahead - cut) as nat), Tone::Highlight),
        (bar(if width > ahead { (width - ahead) as nat } else { 0 }), Tone::HighlightInactive),
    ]
}

/// The spans of a frame in which the end of the sweep has wrapped round and
/// the message stands up to the column `begin`: the message up to the split
/// point nearest to that byte, then a highlighted bar to the right edge.
pub open spec fn trailing_spans(text: Seq<char>, width: nat, begin: nat) -> Seq<
    (Seq<char>, Tone),
> {
    let cut = revealed_len(text, begin);
    seq![
        (revealed(text, begin), Tone::Plain),
        (bar(if width > cut { (width - cut) as nat } else { 0 }), Tone::Highlight),
    ]
}

/// The content of the default error animation in frame `frame_idx`, for an
/// error that came in frame `error_idx`.
pub open spec fn error_spans(msg: Seq<char>, width: nat, error_idx: nat, frame_idx: nat) -> Seq<
    (Seq<char>, Tone),
> {
    let text = padded_message(msg, width);
    let cycle = error_cycle(error_idx);
    let idx = error_time(error_idx, frame_idx);
    let begin = sweep_begin(width, idx);
    let end = sweep_end(width, idx);
    if error_shown(error_idx, frame_idx) {
        seq![(text, Tone::Plain)]
    } else if end >= begin && idx > cycle {
        uncovering_spans(text, width, begin, end)
    } else if end >= begin {
        sweep_spans(width, begin, end)
    } else if idx > cycle + 30 {
        trailing_spans(text, width, begin)
    } else {
        sweep_spans(width, begin, end)
    }
}

/// The frame index that the default error animation hands on: the next one
/// while it runs, and the same one once the whole message stands.
pub open spec fn next_error_idx(error_idx: nat, frame_idx: nat) -> nat {
    if error_shown(error_idx, frame_idx) || frame_idx >= usize::MAX {
        frame_idx
    } else {
        frame_idx + 1
    }
}

/// The error message, centred in `width` columns.
pub fn pad_message(msg: &str, width: usize) -> (text: String)
    ensures
        text@ == padded_message(msg@, width as nat),
{
    proof {
        reveal_strlit(" ");
        assert(" "@ =~= seq![' ']);
    }
    let offset = center_offset(msg.as_bytes().len(), width);
    let pad = repeat_str(" ", offset);
    let mut text = repeat_str(" ", offset);
    text.append(msg);
    text.append(pad.as_str());
    text
}

fn uncovering(text: &str, width: usize, begin: usize, end: usize) -> (content: StyledString)
    ensures
        styled_spans(content) == uncovering_spans(text@, width as nat, begin as nat, end as nat),
{
    let (shown, cut) = uncover(text, begin);
    let ahead = if end > cut {
        end
    } else {
        cut
    };
    let rest = if width > ahead {
        width - ahead
    } else {
        0
    };
    let mut result = styled_new();
    append_plain(&mut result, shown);
    append_styled(&mut result, bar_of(ahead - cut), Tone::Highlight);
    append_styled(&mut result, bar_of(rest), Tone::HighlightInactive);
    assert(styled_spans(result) =~= uncovering_spans(
        text@,
        width as nat,
        begin as nat,
        end as nat,
    ));
    result
}

fn trailing(text: &str, width: usize, begin: usize) -> (content: StyledString)
    ensures
        styled_spans(content) == trailing_spans(text@, width as nat, begin as nat),
{
    let (shown, cut) = uncover(text, begin);
    let rest = if width > cut {
        width - cut
    } else {
        0
    };
    let mut result = styled_new();
    append_plain(&mut result, shown);
    append_styled(&mut result, bar_of(rest), Tone::Highlight);
    assert(styled_spans(result) =~= trailing_spans(text@, width as nat, begin as nat));
    result
}

/// The default error animation for a `AsyncView`: the sweep goes on to the
/// end of its cycle, then uncovers the centred error message from the left as
/// it passes, and the whole message stands from then on.
///
/// The `width` and `height` parameters contain the maximum size the content
/// may have (in characters). `error_idx` is the frame in which the error
/// came, `frame_idx` the frame to draw. The message is never cut within a
/// character: it is cut at the split point nearest to the column that the
/// sweep has reached.
pub fn default_error(
    msg: &str,
    width: usize,
    _height: usize,
    error_idx: usize,
    frame_idx: usize,
) -> (frame: AnimationFrame)
    ensures
        styled_spans(frame.content) == error_spans(
            msg@,
            width as nat,
            error_idx as nat,
            frame_idx as nat,
        ),
        frame.next_frame_idx == next_error_idx(error_idx as nat, frame_idx as nat),
{
    let text = pad_message(msg, width);
    let cycle: usize = if error_idx % CYCLE > CYCLE / 2 {
        CYCLE
    } else {
        0
    };
    let start = (error_idx / CYCLE) * CYCLE;
    let idx: usize = if frame_idx >= start {
        frame_idx - start
    } else {
        0
    };
    if idx >= cycle + CYCLE {
        // Text can be fully shown
        return AnimationFrame { content: styled_plain(text), next_frame_idx: frame_idx };
    }
    let (begin, end) = sweep_positions(width, idx);
    let content = if end >= begin && idx > cycle {
        uncovering(text.as_str(), width, begin, end)
    } else if end >= begin {
        sweep(width, begin, end)
    } else if idx > cycle + CYCLE / 2 {
        trailing(text.as_str(), width, begin)
    } else {
        // Complete animation until text can be unveiled
        sweep(width, begin, end)
    };
    let next_frame_idx = if frame_idx < usize::MAX {
        frame_idx + 1
    } else {
        frame_idx
    };
    AnimationFrame { content, next_frame_idx }
}

/// This enum is used in the ready_poll callback to tell the async view
/// whether the view is already available, an error occured, or is still
/// pending.
pub enum AsyncState<V> {
    /// The view of type `V` is now available and ready to be owned by the
    /// async view where it will get layouted and drawn instead of the loading
    /// animation.
    Available(V),
    /// Loading of the view failed with the given error.
    Error(String),
    /// The view is not available yet, try again later.
    Pending,
}

/// What an [`AsyncState`] holds, with the message of an error as the
/// sequence of its characters.
pub enum StateView<V> {
    /// The child is there.
    Available(V),
    /// Loading failed with this message.
    Error(Seq<char>),
    /// The child is not there yet.
    Pending,
}

impl<V> View for AsyncState<V> {
    type V = StateView<V>;

    open spec fn view(&self) -> StateView<V> {
        match *self {
            AsyncState::Available(v) => StateView::Available(v),
            AsyncState::Error(msg) => StateView::Error(msg@),
            AsyncState::Pending => StateView::Pending,
        }
    }
}

impl<V> AsyncState<V> {
    /// Whether the state is one that nothing follows.
    pub fn is_terminal(&self) -> (terminal: bool)
        ensures
            terminal == !(self@ is Pending),
    {
        match self {
            AsyncState::Pending => false,
            _ => true,
        }
    }
}

/// A function that draws the frames of a loading animation.
///
/// Every closure and function with the parameters of [`default_animation`]
/// is one: the width and the height that the content may take, and the index
/// of the frame.
pub trait AnimationFn {
    /// The arguments on which the function may be called.
    spec fn accepts(&self, width: usize, height: usize, frame_idx: usize) -> bool;

    /// The frames that the function may return on these arguments.
    spec fn renders(
        &self,
        width: usize,
        height: usize,
        frame_idx: usize,
        frame: AnimationFrame,
    ) -> bool;

    /// Draws the frame `frame_idx`.
    fn frame(&self, width: usize, height: usize, frame_idx: usize) -> (frame: AnimationFrame)
        requires
            self.accepts(width, height, frame_idx),
        ensures
            self.renders(width, height, frame_idx, frame),
    ;
}

impl<F: Fn(usize, usize, usize) -> AnimationFrame> AnimationFn for F {
    open spec fn accepts(&self, width: usize, height: usize, frame_idx: usize) -> bool {
        call_requires(*self, (width, height, frame_idx))
    }

    open spec fn renders(
        &self,
        width: usize,
        height: usize,
        frame_idx: usize,
        frame: AnimationFrame,
    ) -> bool {
        call_ensures(*self, (width, height, frame_idx), frame)
    }

    fn frame(&self, width: usize, height: usize, frame_idx: usize) -> (frame: AnimationFrame) {
        self(width, height, frame_idx)
    }
}

/// The loading animation that a view has until it is given another:
/// [`default_animation`].
pub struct DefaultAnimation;

impl AnimationFn for DefaultAnimation {
    open spec fn accepts(&self, width: usize, height: usize, frame_idx: usize) -> bool {
        true
    }

    open spec fn renders(
        &self,
        width: usize,
        height: usize,
        frame_idx: usize,
        frame: AnimationFrame,
    ) -> bool {
        &&& styled_spans(frame.content) == loading_spans(width as nat, frame_idx as nat)
        &&& frame.next_frame_idx == next_loading_idx(frame_idx as nat)
    }

    fn frame(&self, width: usize, height: usize, frame_idx: usize) -> (frame: AnimationFrame) {
        default_animation(width, height, frame_idx)
    }
}

/// A function that draws the frames of an error animation.
///
/// Every closure and function with the parameters of [`default_error`] is
/// one: the message, the width and the height that the content may take, the
/// index of the frame in which the error came, and the index of the frame.
pub trait ErrorFn {
    /// The arguments on which the function may be called.
    spec fn accepts(
        &self,
        msg: Seq<char>,
        width: usize,
        height: usize,
        error_idx: usize,
        frame_idx: usize,
    ) -> bool;

    /// The frames that the function may return on these arguments.
    spec fn renders(
        &self,
        msg: Seq<char>,
        width: usize,
        height: usize,
        error_idx: usize,
        frame_idx: usize,
        frame: AnimationFrame,
    ) -> bool;

    /// Draws the frame `frame_idx` for the message `msg`.
    fn frame(
        &self,
        msg: &str,
        width: usize,
        height: usize,
        error_idx: usize,
        frame_idx: usize,
    ) -> (frame: AnimationFrame)
        requires
            self.accepts(msg@, width, height, error_idx, frame_idx),
        ensures
            self.renders(msg@, width, height, error_idx, frame_idx, frame),
    ;
}

impl<F: Fn(&str, usize, usize, usize, usize) -> AnimationFrame> ErrorFn for F {
    open spec fn accepts(
        &self,
        msg: Seq<char>,
        width: usize,
        height: usize,
        error_idx: usize,
        frame_idx: usize,
    ) -> bool {
        forall|text: &str|
            text@ == msg ==> call_requires(*self, (text, width, height, error_idx, frame_idx))
    }

    open spec fn renders(
        &self,
        msg: Seq<char>,
        width: usize,
        height: usize,
        error_idx: usize,
        frame_idx: usize,
        frame: AnimationFrame,
    ) -> bool {
        exists|text: &str|
            text@ == msg && call_ensures(
                *self,
                (text, width, height, error_idx, frame_idx),
                frame,
            )
    }

    fn frame(
        &self,
        msg: &str,
        width: usize,
        height: usize,
        error_idx: usize,
        frame_idx: usize,
    ) -> (frame: AnimationFrame) {
        self(msg, width, height, error_idx, frame_idx)
    }
}

/// The error animation that a view has until it is given another:
/// [`default_error`].
pub struct DefaultError;

impl ErrorFn for DefaultError {
    open spec fn accepts(
        &self,
        msg: Seq<char>,
        width: usize,
        height: usize,
        error_idx: usize,
        frame_idx: usize,
    ) -> bool {
        true
    }

    open spec fn renders(
        &self,
        msg: Seq<char>,
        width: usize,
        height: usize,
        error_idx: usize,
        frame_idx: usize,
        frame: AnimationFrame,
    ) -> bool {
        &&& styled_spans(frame.content) == error_spans(
            msg,
            width as nat,
            error_idx as nat,
            frame_idx as nat,
        )
        &&& frame.next_frame_idx == next_error_idx(error_idx as nat, frame_idx as nat)
    }

    fn frame(
        &self,
        msg: &str,
        width: usize,
        height: usize,
        error_idx: usize,
        frame_idx: usize,
    ) -> (frame: AnimationFrame) {
        default_error(msg, width, height, error_idx, frame_idx)
    }
}

/// What an [`AsyncView`] is, as its contracts see it.
pub struct AsyncViewModel<T> {
    /// The state of the view.
    pub state: StateView<T>,
    /// The spans that the placeholder shows.
    pub content: Seq<(Seq<char>, Tone)>,
    /// The width that the animation may take, if one is set.
    pub width: Option<usize>,
    /// The height that the animation may take, if one is set.
    pub height: Option<usize>,
    /// The index of the frame to draw next.
    pub pos: usize,
    /// The index of the frame in which the error came.
    pub error_idx: usize,
    /// The milliseconds allowed for loading, if a timeout is set.
    pub timeout: Option<u64>,
}

/// The state after a look into the handoff: a pending view takes the state
/// that was found, and becomes an error where its producer has gone without
/// a word; any other view stays as it is, whatever was found.
pub open spec fn absorbed_state<T>(state: StateView<T>, found: Received<AsyncState<T>>) -> StateView<
    T,
> {
    match state {
        StateView::Pending => match found {
            Received::Message(next) => next@,
            Received::Empty => StateView::Pending,
            Received::Disconnected => StateView::Error(internal_error()),
        },
        _ => state,
    }
}

/// The view after a look into the handoff. Where a pending view becomes an
/// error, the frame in which it does is kept.
pub open spec fn absorbed<T>(view: AsyncViewModel<T>, found: Received<AsyncState<T>>) -> AsyncViewModel<
    T,
> {
    let state = absorbed_state(view.state, found);
    AsyncViewModel {
        state,
        error_idx: if view.state is Pending && state is Error {
            view.pos
        } else {
            view.error_idx
        },
        ..view
    }
}

/// The view after it has taken a frame of its animation.
pub open spec fn with_frame<T>(view: AsyncViewModel<T>, frame: AnimationFrame) -> AsyncViewModel<T> {
    AsyncViewModel { content: styled_spans(frame.content), pos: frame.next_frame_idx, ..view }
}

/// Whether `after` is the view `before` one frame on, for a measuring pass
/// within `constraint`: a view whose child is there stays as it is; any
/// other takes the frame that its animation draws for its counters, the
/// error animation where loading has failed and the loading animation where
/// it goes on, in the size that is set, or else in that of the constraint.
pub open spec fn advanced<T, A: AnimationFn, E: ErrorFn>(
    before: AsyncViewModel<T>,
    animation_fn: A,
    error_fn: E,
    constraint: (usize, usize),
    after: AsyncViewModel<T>,
) -> bool {
    let width = match before.width {
        Some(width) => width,
        None => constraint.0,
    };
    let height = match before.height {
        Some(height) => height,
        None => constraint.1,
    };
    match before.state {
        StateView::Available(_) => after == before,
        StateView::Error(msg) => exists|frame: AnimationFrame|
            #![auto]
            error_fn.renders(msg, width, height, before.error_idx, before.pos, frame) && after
                == with_frame(before, frame),
        StateView::Pending => exists|frame: AnimationFrame|
            #![auto]
            animation_fn.renders(width, height, before.pos, frame) && after == with_frame(
                before,
                frame,
            ),
    }
}

/// Whether a measuring pass within `constraint`, `elapsed` milliseconds after
/// the view was made, leads from the view `before` to the view `after` and
/// reports `pass`, where the look into the handoff finds `found`.
///
/// Once the time allowed for loading has run out the pass changes nothing
/// and sends the host to the fallback. Else the view takes what was found,
/// then a frame of its animation unless its child is there.
pub open spec fn measured<T, A: AnimationFn, E: ErrorFn>(
    before: AsyncViewModel<T>,
    animation_fn: A,
    error_fn: E,
    constraint: (usize, usize),
    elapsed: u128,
    found: Received<AsyncState<T>>,
    after: AsyncViewModel<T>,
    pass: Pass,
) -> bool {
    if expired(before.timeout, elapsed) {
        after == before && pass == (Pass { surface: Surface::Fallback, ready: false })
    } else {
        let taken = absorbed(before, found);
        &&& advanced(taken, animation_fn, error_fn, constraint, after)
        &&& pass.surface == surface_for(false, taken.state is Available)
        &&& pass.ready == (before.state is Pending && taken.state is Available)
    }
}

/// Where a view stands: it listens to the handoff as long as it is pending.
#[verifier::reject_recursive_types(T)]
enum Stage<T> {
    Pending(Receiver<AsyncState<T>>),
    Error(String),
    Available(T),
}

impl<T> View for Stage<T> {
    type V = StateView<T>;

    closed spec fn view(&self) -> StateView<T> {
        match *self {
            Stage::Pending(_) => StateView::Pending,
            Stage::Error(msg) => StateView::Error(msg@),
            Stage::Available(child) => StateView::Available(child),
        }
    }
}

/// A loading animation that may be called on every argument.
struct Loading<A: AnimationFn> {
    animation_fn: A,
}

impl<A: AnimationFn> Loading<A> {
    #[verifier::type_invariant]
    spec fn well_formed(self) -> bool {
        forall|width: usize, height: usize, frame_idx: usize|
            #[trigger] self.animation_fn.accepts(width, height, frame_idx)
    }

    fn of(animation_fn: A) -> (out: Self)
        requires
            forall|width: usize, height: usize, frame_idx: usize|
                #[trigger] animation_fn.accepts(width, height, frame_idx),
        ensures
            out.animation_fn == animation_fn,
    {
        Loading { animation_fn }
    }

    fn frame(&self, width: usize, height: usize, frame_idx: usize) -> (frame: AnimationFrame)
        ensures
            self.animation_fn.renders(width, height, frame_idx, frame),
    {
        proof {
            use_type_invariant(self);
        }
        self.animation_fn.frame(width, height, frame_idx)
    }
}

/// An error animation that may be called on every argument.
struct Failing<E: ErrorFn> {
    error_fn: E,
}

impl<E: ErrorFn> Failing<E> {
    #[verifier::type_invariant]
    spec fn well_formed(self) -> bool {
        forall|msg: Seq<char>, width: usize, height: usize, error_idx: usize, frame_idx: usize|
            #[trigger] self.error_fn.accepts(msg, width, height, error_idx, frame_idx)
    }

    fn of(error_fn: E) -> (out: Self)
        requires
            forall|msg: Seq<char>, width: usize, height: usize, error_idx: usize, frame_idx: usize|
                #[trigger] error_fn.accepts(msg, width, height, error_idx, frame_idx),
        ensures
            out.error_fn == error_fn,
    {
        Failing { error_fn }
    }

    fn frame(
        &self,
        msg: &str,
        width: usize,
        height: usize,
        error_idx: usize,
        frame_idx: usize,
    ) -> (frame: AnimationFrame)
        ensures
            self.error_fn.renders(msg@, width, height, error_idx, frame_idx, frame),
    {
        proof {
            use_type_invariant(self);
        }
        self.error_fn.frame(msg, width, height, error_idx, frame_idx)
    }
}

/// An `AsyncView` is a wrapper view that displays a loading screen, until the
/// child view is ready to be created.
///
/// The view begins as pending. In each measuring pass it looks into the
/// handoff once; what it finds there is the only thing that changes its
/// state, and a state that is not pending never changes again. While no child
/// is there the view draws a frame of its loading or error animation in each
/// pass. When the view is dropped it signals the refresh loop to stop.
#[verifier::reject_recursive_types(T)]
pub struct AsyncView<T, A: AnimationFn, E: ErrorFn> {
    view: Stage<T>,
    loading: StyledString,
    animation_fn: Loading<A>,
    error_fn: Failing<E>,
    width: Option<usize>,
    height: Option<usize>,
    pos: usize,
    error_idx: usize,
    error_sender: StopGuard,
    timeout: Option<u64>,
    created: Instant,
}

impl<T, A: AnimationFn, E: ErrorFn> View for AsyncView<T, A, E> {
    type V = AsyncViewModel<T>;

    closed spec fn view(&self) -> AsyncViewModel<T> {
        AsyncViewModel {
            state: self.view@,
            content: styled_spans(self.loading),
            width: self.width,
            height: self.height,
            pos: self.pos,
            error_idx: self.error_idx,
            timeout: self.timeout,
        }
    }
}

impl<T> AsyncView<T, DefaultAnimation, DefaultError> {
    /// Create a new `AsyncView` instance, and the poller that feeds it.
    ///
    /// The view is pending, with the default animations, no size of its own
    /// and no timeout. The `ready_poll` function is asked once at once, and
    /// the poller says what the host must do next: it will be asked again
    /// after every frame delay until the view has either been loaded or
    /// errored. Use this function only to check whether your data is
    /// available. Do not run heavy calculations in this function.
    pub fn new<P: ReadyPoll<T>>(ready_poll: P) -> (made: (Self, Poller<T, P>))
        requires
            P::callable(),
        ensures
            made.0@ == (AsyncViewModel::<T> {
                state: StateView::Pending,
                content: seq![(Seq::<char>::empty(), Tone::Plain)],
                width: None,
                height: None,
                pos: 0,
                error_idx: 0,
                timeout: None,
            }),
            made.1.interval() == FRAME_INTERVAL,
            made.1.action() is Rearm <==> !made.1.spent(),
            exists|state: AsyncState<T>|
                #[trigger] ready_poll.yields(state) && (made.1.action() is Rearm <==> state@
                    is Pending),
    {
        // create communication channel between the poller and this views
        // layout code
        let (tx, rx) = unbounded_channel();
        let (error_tx, error_rx) = stop_signal();

        let mut poller = Poller::start(ready_poll, Handle::open(tx), error_rx);
        poller.poll();

        let view = AsyncView {
            view: Stage::Pending(rx),
            loading: styled_plain(String::new()),
            animation_fn: Loading::of(DefaultAnimation),
            error_fn: Failing::of(DefaultError),
            width: None,
            height: None,
            pos: 0,
            error_idx: 0,
            error_sender: error_tx,
            timeout: None,
            created: clock_now(),
        };
        (view, poller)
    }

    /// Create a new `AsyncView` instance whose child is made from the data of
    /// a background task, the poller that feeds it, and the end on which the
    /// task reports.
    ///
    /// The task is to run on a thread of its own and to report its result on
    /// the end that is returned. The poller looks for the result without
    /// blocking and makes the child from the data with `view_creator`.
    pub fn new_with_bg_creator<C, D>(view_creator: C) -> (made: (
        Self,
        Poller<T, Background<D, C>>,
        TaskEnd<D>,
    )) where C: FnMut(D) -> T
        requires
            forall|creator: C, data: D| call_requires(creator, (data,)),
        ensures
            made.0@.state is Pending,
            made.0@.pos == 0,
            made.0@.width is None,
            made.0@.height is None,
            made.0@.timeout is None,
            made.1.action() is Rearm <==> !made.1.spent(),
    {
        let (task_end, poll) = background(view_creator);
        let (view, poller) = Self::new(poll);
        (view, poller, task_end)
    }
}

impl<T, A: AnimationFn, E: ErrorFn> AsyncView<T, A, E> {
    /// The function that draws the loading animation.
    pub closed spec fn animation_fn(&self) -> A {
        self.animation_fn.animation_fn
    }

    /// The function that draws the error animation.
    pub closed spec fn error_fn(&self) -> E {
        self.error_fn.error_fn
    }

    /// Mark the maximum allowed width in characters, the loading animation
    /// may consume. By default, the width will be inherited by the parent
    /// view.
    pub fn with_width(self, width: usize) -> (out: Self)
        ensures
            out@ == (AsyncViewModel { width: Some(width), ..self@ }),
            out.animation_fn() == self.animation_fn(),
            out.error_fn() == self.error_fn(),
    {
        let mut out = self;
        out.set_width(width);
        out
    }

    /// Mark the maximum allowed height in characters, the loading animation
    /// may consume. By default, the height will be inherited by the parent
    /// view.
    pub fn with_height(self, height: usize) -> (out: Self)
        ensures
            out@ == (AsyncViewModel { height: Some(height), ..self@ }),
            out.animation_fn() == self.animation_fn(),
            out.error_fn() == self.error_fn(),
    {
        let mut out = self;
        out.set_height(height);
        out
    }

    /// Set the time allowed for loading, in milliseconds. Once more time
    /// than that has passed since the view was made, the fallback answers
    /// every operation.
    pub fn with_timeout(self, millis: u64) -> (out: Self)
        ensures
            out@ == (AsyncViewModel { timeout: Some(millis), ..self@ }),
            out.animation_fn() == self.animation_fn(),
            out.error_fn() == self.error_fn(),
    {
        let mut out = self;
        out.set_timeout(millis);
        out
    }

    /// Set a custom animation function for this view, indicating that the
    /// wrapped view is not available yet. The animation begins with its first
    /// frame.
    pub fn with_animation_fn<F: AnimationFn>(self, animation_fn: F) -> (out: AsyncView<T, F, E>)
        requires
            forall|width: usize, height: usize, frame_idx: usize|
                #[trigger] animation_fn.accepts(width, height, frame_idx),
        ensures
            out@ == (AsyncViewModel { pos: 0, ..self@ }),
            out.animation_fn() == animation_fn,
            out.error_fn() == self.error_fn(),
    {
        AsyncView {
            view: self.view,
            loading: self.loading,
            animation_fn: Loading::of(animation_fn),
            error_fn: self.error_fn,
            width: self.width,
            height: self.height,
            pos: 0,
            error_idx: self.error_idx,
            error_sender: self.error_sender,
            timeout: self.timeout,
            created: self.created,
        }
    }

    /// Set a custom error animation function for this view, indicating that
    /// the wrapped view has failed to load. The animation begins with its
    /// first frame.
    pub fn with_error_fn<F: ErrorFn>(self, error_fn: F) -> (out: AsyncView<T, A, F>)
        requires
            forall|msg: Seq<char>, width: usize, height: usize, error_idx: usize, frame_idx: usize|
                #[trigger] error_fn.accepts(msg, width, height, error_idx, frame_idx),
        ensures
            out@ == (AsyncViewModel { pos: 0, error_idx: 0, ..self@ }),
            out.animation_fn() == self.animation_fn(),
            out.error_fn() == error_fn,
    {
        AsyncView {
            view: self.view,
            loading: self.loading,
            animation_fn: self.animation_fn,
            error_fn: Failing::of(error_fn),
            width: self.width,
            height: self.height,
            pos: 0,
            error_idx: 0,
            error_sender: self.error_sender,
            timeout: self.timeout,
            created: self.created,
        }
    }

    /// Set the maximum allowed width in characters, the loading animation
    /// may consume.
    pub fn set_width(&mut self, width: usize)
        ensures
            final(self)@ == (AsyncViewModel { width: Some(width), ..old(self)@ }),
            final(self).animation_fn() == old(self).animation_fn(),
            final(self).error_fn() == old(self).error_fn(),
    {
        self.width = Some(width);
    }

    /// Set the maximum allowed height in characters, the loading animation
    /// may consume.
    pub fn set_height(&mut self, height: usize)
        ensures
            final(self)@ == (AsyncViewModel { height: Some(height), ..old(self)@ }),
            final(self).animation_fn() == old(self).animation_fn(),
            final(self).error_fn() == old(self).error_fn(),
    {
        self.height = Some(height);
    }

    /// Set the time allowed for loading, in milliseconds.
    pub fn set_timeout(&mut self, millis: u64)
        ensures
            final(self)@ == (AsyncViewModel { timeout: Some(millis), ..old(self)@ }),
            final(self).animation_fn() == old(self).animation_fn(),
            final(self).error_fn() == old(self).error_fn(),
    {
        self.timeout = Some(millis);
    }

    /// Set a custom animation function for this view, indicating that the
    /// wrapped view is not available yet.
    ///
    /// This function may be set at any time. The loading animation can be
    /// changed even if the previous loading animation has already started;
    /// the new one begins with its first frame.
    pub fn set_animation_fn(&mut self, animation_fn: A)
        requires
            forall|width: usize, height: usize, frame_idx: usize|
                #[trigger] animation_fn.accepts(width, height, frame_idx),
        ensures
            final(self)@ == (AsyncViewModel { pos: 0, ..old(self)@ }),
            final(self).animation_fn() == animation_fn,
            final(self).error_fn() == old(self).error_fn(),
    {
        self.animation_fn = Loading::of(animation_fn);
        self.pos = 0;
    }

    /// Set a custom error animation function for this view, indicating that
    /// the wrapped view has failed to load.
    ///
    /// This function may be set at any time. The error animation can be
    /// changed even if the previous error animation has already started; the
    /// new one begins with its first frame.
    pub fn set_error_fn(&mut self, error_fn: E)
        requires
            forall|msg: Seq<char>, width: usize, height: usize, error_idx: usize, frame_idx: usize|
                #[trigger] error_fn.accepts(msg, width, height, error_idx, frame_idx),
        ensures
            final(self)@ == (AsyncViewModel { pos: 0, error_idx: 0, ..old(self)@ }),
            final(self).animation_fn() == old(self).animation_fn(),
            final(self).error_fn() == error_fn,
    {
        self.error_fn = Failing::of(error_fn);
        self.pos = 0;
        self.error_idx = 0;
    }

    /// Make the loading animation inherit its width from the parent view.
    /// This is the default.
    pub fn inherit_width(&mut self)
        ensures
            final(self)@ == (AsyncViewModel { width: None, ..old(self)@ }),
            final(self).animation_fn() == old(self).animation_fn(),
            final(self).error_fn() == old(self).error_fn(),
    {
        self.width = None;
    }

    /// Make the loading animation inherit its height from the parent view.
    /// This is the default.
    pub fn inherit_height(&mut self)
        ensures
            final(self)@ == (AsyncViewModel { height: None, ..old(self)@ }),
            final(self).animation_fn() == old(self).animation_fn(),
            final(self).error_fn() == old(self).error_fn(),
    {
        self.height = None;
    }

    /// Takes what a look into the handoff has found: a pending view takes the
    /// state that was found, and becomes an error where its producer has gone
    /// without a word; any other view stays as it is and lets go of what was
    /// found. The result says whether the child has become available.
    pub fn absorb(&mut self, found: Received<AsyncState<T>>) -> (ready: bool)
        ensures
            final(self)@ == absorbed(old(self)@, found),
            final(self).animation_fn() == old(self).animation_fn(),
            final(self).error_fn() == old(self).error_fn(),
            ready == (old(self)@.state is Pending && final(self)@.state is Available),
    {
        let pending = match &self.view {
            Stage::Pending(_) => true,
            _ => false,
        };
        if !pending {
            return false;
        }
        match found {
            Received::Message(AsyncState::Available(child)) => {
                self.view = Stage::Available(child);
                true
            },
            Received::Message(AsyncState::Error(msg)) => {
                self.error_idx = self.pos;
                self.view = Stage::Error(msg);
                false
            },
            Received::Message(AsyncState::Pending) => false,
            Received::Empty => false,
            Received::Disconnected => {
                self.error_idx = self.pos;
                self.view = Stage::Error(internal_error_message());
                false
            },
        }
    }

    /// Draws the next frame: a view whose child is there stays as it is; any
    /// other takes the frame that its animation draws for its counters, in
    /// the size that is set, or else in that of the constraint. The result is
    /// the widget to measure.
    pub fn advance(&mut self, constraint: (usize, usize)) -> (surface: Surface)
        ensures
            advanced(
                old(self)@,
                old(self).animation_fn(),
                old(self).error_fn(),
                constraint,
                final(self)@,
            ),
            final(self).animation_fn() == old(self).animation_fn(),
            final(self).error_fn() == old(self).error_fn(),
            surface == surface_for(false, old(self)@.state is Available),
    {
        let width = match self.width {
            Some(width) => width,
            None => constraint.0,
        };
        let height = match self.height {
            Some(height) => height,
            None => constraint.1,
        };
        let ghost before = self@;
        match &self.view {
            Stage::Available(_) => Surface::Child,
            Stage::Error(msg) => {
                let frame = self.error_fn.frame(
                    msg.as_str(),
                    width,
                    height,
                    self.error_idx,
                    self.pos,
                );
                let ghost drawn = frame;
                self.loading = frame.content;
                self.pos = frame.next_frame_idx;
                assert(self@ == with_frame(before, drawn));
                Surface::Placeholder
            },
            Stage::Pending(_) => {
                let frame = self.animation_fn.frame(width, height, self.pos);
                let ghost drawn = frame;
                self.loading = frame.content;
                self.pos = frame.next_frame_idx;
                assert(self@ == with_frame(before, drawn));
                Surface::Placeholder
            },
        }
    }

    /// The measuring pass of a view that is `elapsed` milliseconds old, on
    /// what the look into the handoff has found.
    pub fn required_size_on(
        &mut self,
        constraint: (usize, usize),
        elapsed: u128,
        found: Received<AsyncState<T>>,
    ) -> (pass: Pass)
        ensures
            measured(
                old(self)@,
                old(self).animation_fn(),
                old(self).error_fn(),
                constraint,
                elapsed,
                found,
                final(self)@,
                pass,
            ),
            final(self).animation_fn() == old(self).animation_fn(),
            final(self).error_fn() == old(self).error_fn(),
    {
        if is_expired(self.timeout, elapsed) {
            return Pass { surface: Surface::Fallback, ready: false };
        }
        let ready = self.absorb(found);
        let surface = self.advance(constraint);
        Pass { surface, ready }
    }

    /// The measuring pass of a view that is `elapsed` milliseconds old. Once
    /// the time allowed for loading has run out the pass changes nothing and
    /// sends the host to the fallback. Else a pending view looks into the
    /// handoff once, and the view draws a frame unless its child is there.
    pub fn required_size_at(&mut self, constraint: (usize, usize), elapsed: u128) -> (pass: Pass)
        ensures
            exists|found: Received<AsyncState<T>>|
                #[trigger] measured(
                    old(self)@,
                    old(self).animation_fn(),
                    old(self).error_fn(),
                    constraint,
                    elapsed,
                    found,
                    final(self)@,
                    pass,
                ),
            final(self).animation_fn() == old(self).animation_fn(),
            final(self).error_fn() == old(self).error_fn(),
    {
        let found = match &self.view {
            Stage::Pending(rx) => try_receive(rx),
            _ => Received::Empty,
        };
        let ghost seen = found;
        let pass = self.required_size_on(constraint, elapsed, found);
        assert(measured(
            old(self)@,
            old(self).animation_fn(),
            old(self).error_fn(),
            constraint,
            elapsed,
            seen,
            self@,
            pass,
        ));
        pass
    }

    /// The measuring pass: it reads the clock and goes on as
    /// [`required_size_at`](Self::required_size_at) does.
    pub fn required_size(&mut self, constraint: (usize, usize)) -> (pass: Pass)
        ensures
            exists|elapsed: u128, found: Received<AsyncState<T>>|
                #[trigger] measured(
                    old(self)@,
                    old(self).animation_fn(),
                    old(self).error_fn(),
                    constraint,
                    elapsed,
                    found,
                    final(self)@,
                    pass,
                ),
            final(self).animation_fn() == old(self).animation_fn(),
            final(self).error_fn() == old(self).error_fn(),
    {
        let elapsed = self.elapsed();
        self.required_size_at(constraint, elapsed)
    }

    /// The milliseconds that have passed since the view was made.
    pub fn elapsed(&self) -> (millis: u128) {
        let passed = clock_elapsed(&self.created);
        whole_millis(&passed)
    }

    /// The widget that draws, lays out and says where the important area is,
    /// for a view that is `elapsed` milliseconds old.
    pub fn surface_at(&self, elapsed: u128) -> (surface: Surface)
        ensures
            surface == surface_for(expired(self@.timeout, elapsed), self@.state is Available),
    {
        let available = match &self.view {
            Stage::Available(_) => true,
            _ => false,
        };
        choose_surface(is_expired(self.timeout, elapsed), available)
    }

    /// The widget that draws, lays out and says where the important area is.
    /// It reads the clock.
    pub fn surface(&self) -> (surface: Surface)
        ensures
            exists|elapsed: u128|
                surface == #[trigger] surface_for(
                    expired(self@.timeout, elapsed),
                    self@.state is Available,
                ),
            self@.timeout is None ==> surface == surface_for(false, self@.state is Available),
    {
        let elapsed = self.elapsed();
        self.surface_at(elapsed)
    }

    /// The widget that takes events and focus, for a view that is `elapsed`
    /// milliseconds old: the placeholder takes none, so there is no such
    /// widget while the view is pending or shows an error.
    pub fn delegate_at(&self, elapsed: u128) -> (delegate: Option<Delegate>)
        ensures
            delegate == delegate_for(expired(self@.timeout, elapsed), self@.state is Available),
    {
        let available = match &self.view {
            Stage::Available(_) => true,
            _ => false,
        };
        choose_delegate(is_expired(self.timeout, elapsed), available)
    }

    /// The widget that takes events and focus. It reads the clock.
    pub fn delegate(&self) -> (delegate: Option<Delegate>)
        ensures
            exists|elapsed: u128|
                delegate == #[trigger] delegate_for(
                    expired(self@.timeout, elapsed),
                    self@.state is Available,
                ),
            self@.timeout is None ==> delegate == delegate_for(false, self@.state is Available),
    {
        let elapsed = self.elapsed();
        self.delegate_at(elapsed)
    }

    /// The frame that the placeholder shows.
    pub fn content(&self) -> (content: &StyledString)
        ensures
            styled_spans(*content) == self@.content,
    {
        &self.loading
    }

    /// The child, once it is there.
    pub fn child(&self) -> (child: Option<&T>)
        ensures
            match self@.state {
                StateView::Available(there) => child == Some(&there),
                _ => child is None,
            },
    {
        match &self.view {
            Stage::Available(child) => Some(child),
            _ => None,
        }
    }

    /// The child, once it is there, to work on: what is done to it is done to
    /// the child of the view, and to nothing else of the view.
    pub fn child_mut(&mut self) -> (child: Option<&mut T>)
        ensures
            match child {
                Some(there) => {
                    &&& old(self)@.state == StateView::Available(*there)
                    &&& final(self)@ == (AsyncViewModel {
                        state: StateView::Available(*final(there)),
                        ..old(self)@
                    })
                },
                None => !(old(self)@.state is Available) && final(self)@ == old(self)@,
            },
            final(self).animation_fn() == old(self).animation_fn(),
            final(self).error_fn() == old(self).error_fn(),
    {
        match &mut self.view {
            Stage::Available(child) => Some(child),
            _ => None,
        }
    }

    /// The message of the error, once loading has failed.
    pub fn error(&self) -> (msg: Option<&String>)
        ensures
            match self@.state {
                StateView::Error(text) => msg matches Some(shown) && shown@ == text,
                _ => msg is None,
            },
    {
        match &self.view {
            Stage::Error(msg) => Some(msg),
            _ => None,
        }
    }

    /// Whether the view still waits for its child.
    pub fn is_pending(&self) -> (pending: bool)
        ensures
            pending == (self@.state is Pending),
    {
        match &self.view {
            Stage::Pending(_) => true,
            _ => false,
        }
    }

    /// The index of the frame that the animation draws next.
    pub fn frame_idx(&self) -> (pos: usize)
        ensures
            pos == self@.pos,
    {
        self.pos
    }

    /// Signals the refresh loop to stop, as dropping the view does.
    pub fn signal_stop(&self) -> (taken: bool) {
        self.error_sender.signal()
    }
}

impl<T> Handle<AsyncState<T>> {
    /// Delivers the child. A handle delivers once: a spent handle fails and
    /// sends nothing, and every call leaves the handle spent. A fresh handle
    /// fails where the view listens no longer.
    pub fn loaded(&mut self, view: T) -> (outcome: Result<(), HandleUnavailable>)
        ensures
            final(self).spent(),
            old(self).spent() ==> outcome is Err,
    {
        self.deliver(AsyncState::Available(view))
    }

    /// Delivers the error with which loading has failed. A handle delivers
    /// once: a spent handle fails and sends nothing, and every call leaves
    /// the handle spent. A fresh handle fails where the view listens no
    /// longer.
    pub fn error(&mut self, msg: String) -> (outcome: Result<(), HandleUnavailable>)
        ensures
            final(self).spent(),
            old(self).spent() ==> outcome is Err,
    {
        self.deliver(AsyncState::Error(msg))
    }
}

/// The frame index after `steps` frames of the default loading animation
/// that began with the frame `start`.
pub open spec fn loading_idx_after(start: nat, steps: nat) -> nat
    decreases steps,
{
    if steps == 0 {
        start
    } else {
        next_loading_idx(loading_idx_after(start, (steps - 1) as nat))
    }
}

/// The default loading animation repeats itself after a cycle: a frame and
/// the one sixty frames later have the same content and hand on the same
/// frame index.
pub proof fn lemma_loading_repeats(width: nat, frame_idx: nat)
    ensures
        loading_spans(width, frame_idx + 60) == loading_spans(width, frame_idx),
        next_loading_idx(frame_idx + 60) == next_loading_idx(frame_idx),
        loading_spans(width, frame_idx % 60) == loading_spans(width, frame_idx),
{
    assert((frame_idx + 60) % 60 == frame_idx % 60);
    assert((frame_idx + 60 + 15) % 60 == (frame_idx + 15) % 60);
    assert((frame_idx % 60) % 60 == frame_idx % 60);
    assert((frame_idx % 60 + 15) % 60 == (frame_idx + 15) % 60);
}

/// The frame indices that the default loading animation hands on count
/// through the cycle: after `steps` frames the index is the sum of the start
/// and the steps, within the cycle.
pub proof fn lemma_loading_idx_after(start: nat, steps: nat)
    requires
        steps > 0,
    ensures
        loading_idx_after(start, steps) == (start + steps) % 60,
    decreases steps,
{
    if steps == 1 {
        assert(loading_idx_after(start, 0) == start);
        assert((start % 60 + 1) % 60 == (start + 1) % 60);
    } else {
        lemma_loading_idx_after(start, (steps - 1) as nat);
        assert(((start + steps - 1) % 60 % 60 + 1) % 60 == (start + steps) % 60);
    }
}

/// A loading animation that begins with frame 0 is back at frame 0 after the
/// sixty frames of a cycle, and draws there what it drew first.
pub proof fn lemma_loading_cycle(width: nat)
    ensures
        loading_idx_after(0, 60) == 0,
        loading_spans(width, loading_idx_after(0, 60)) == loading_spans(width, 0),
{
    lemma_loading_idx_after(0, 60);
}

/// A state that is not pending is final: whatever is found in the handoff,
/// the state stays as it is.
pub proof fn lemma_final_state_stays<T>(state: StateView<T>, found: Received<AsyncState<T>>)
    requires
        !(state is Pending),
    ensures
        absorbed_state(state, found) == state,
{
}

/// A measuring pass never leaves a final state: a view whose child is there
/// keeps its child and sends the host to it, and a view that shows an error
/// keeps its message and sends the host to the placeholder, as long as the
/// time allowed for loading has not run out.
pub proof fn lemma_pass_keeps_final_state<T, A: AnimationFn, E: ErrorFn>(
    before: AsyncViewModel<T>,
    animation_fn: A,
    error_fn: E,
    constraint: (usize, usize),
    elapsed: u128,
    found: Received<AsyncState<T>>,
    after: AsyncViewModel<T>,
    pass: Pass,
)
    requires
        measured(before, animation_fn, error_fn, constraint, elapsed, found, after, pass),
        !(before.state is Pending),
    ensures
        after.state == before.state,
        !pass.ready,
        !expired(before.timeout, elapsed) ==> pass.surface == surface_for(
            false,
            before.state is Available,
        ),
{
}

/// A pending view that finds its child in the handoff has it from that pass
/// on: the pass reports the child as ready and sends the host to it.
pub proof fn lemma_pass_takes_child<T, A: AnimationFn, E: ErrorFn>(
    before: AsyncViewModel<T>,
    animation_fn: A,
    error_fn: E,
    constraint: (usize, usize),
    elapsed: u128,
    child: T,
    after: AsyncViewModel<T>,
    pass: Pass,
)
    requires
        measured(
            before,
            animation_fn,
            error_fn,
            constraint,
            elapsed,
            Received::Message(AsyncState::Available(child)),
            after,
            pass,
        ),
        before.state is Pending,
        !expired(before.timeout, elapsed),
    ensures
        after.state == StateView::Available(child),
        pass == (Pass { surface: Surface::Child, ready: true }),
{
}

/// A pending view that finds an error in the handoff shows it from that pass
/// on, beginning with the frame in which it came.
pub proof fn lemma_pass_takes_error<T, A: AnimationFn, E: ErrorFn>(
    before: AsyncViewModel<T>,
    animation_fn: A,
    error_fn: E,
    constraint: (usize, usize),
    elapsed: u128,
    msg: String,
    after: AsyncViewModel<T>,
    pass: Pass,
)
    requires
        measured(
            before,
            animation_fn,
            error_fn,
            constraint,
            elapsed,
            Received::Message(AsyncState::Error(msg)),
            after,
            pass,
        ),
        before.state is Pending,
        !expired(before.timeout, elapsed),
    ensures
        after.state == StateView::<T>::Error(msg@),
        after.error_idx == before.pos,
        pass == (Pass { surface: Surface::Placeholder, ready: false }),
{
}

/// A pending view whose producer has gone without a word shows an error from
/// that pass on, and the message of that error is not empty.
pub proof fn lemma_pass_takes_disconnection<T, A: AnimationFn, E: ErrorFn>(
    before: AsyncViewModel<T>,
    animation_fn: A,
    error_fn: E,
    constraint: (usize, usize),
    elapsed: u128,
    after: AsyncViewModel<T>,
    pass: Pass,
)
    requires
        measured(
            before,
            animation_fn,
            error_fn,
            constraint,
            elapsed,
            Received::Disconnected,
            after,
            pass,
        ),
        before.state is Pending,
        !expired(before.timeout, elapsed),
    ensures
        after.state == StateView::<T>::Error(internal_error()),
        internal_error().len() > 0,
        pass == (Pass { surface: Surface::Placeholder, ready: false }),
{
    lemma_internal_error_not_empty();
}

/// Once the time allowed for loading has run out, a measuring pass changes
/// nothing and sends the host to the fallback, whatever is found in the
/// handoff, and so does every later pass.
pub proof fn lemma_pass_after_timeout<T, A: AnimationFn, E: ErrorFn>(
    before: AsyncViewModel<T>,
    animation_fn: A,
    error_fn: E,
    constraint: (usize, usize),
    earlier: u128,
    elapsed: u128,
    found: Received<AsyncState<T>>,
    after: AsyncViewModel<T>,
    pass: Pass,
)
    requires
        expired(before.timeout, earlier),
        earlier <= elapsed,
        measured(before, animation_fn, error_fn, constraint, elapsed, found, after, pass),
    ensures
        after == before,
        pass == (Pass { surface: Surface::Fallback, ready: false }),
{
}

/// A bar has as many characters as columns.
pub proof fn lemma_bar_len(n: nat)
    ensures
        bar(n).len() == n,
{
    lemma_repeated_len(seq!['━'], n);
    assert(n * 1 == n) by (nonlinear_arith);
}

/// A sweep fills the width: its three spans together have as many characters
/// as the width has columns.
pub proof fn lemma_sweep_fills_width(width: nat, begin: nat, end: nat)
    requires
        begin <= width,
        end <= width,
    ensures
        spans_len(sweep_spans(width, begin, end)) == width,
{
    let spans = sweep_spans(width, begin, end);
    reveal_with_fuel(spans_len, 4);
    assert(spans.drop_last().drop_last().drop_last().len() == 0);
    if end >= begin {
        lemma_bar_len(begin);
        lemma_bar_len((end - begin) as nat);
        lemma_bar_len((width - end) as nat);
    } else {
        lemma_bar_len(end);
        lemma_bar_len((begin - end) as nat);
        lemma_bar_len((width - begin) as nat);
    }
}

/// Every frame of the default loading animation fills the width that was
/// asked for.
pub proof fn lemma_loading_fills_width(width: nat, frame_idx: nat)
    ensures
        spans_len(loading_spans(width, frame_idx)) == width,
{
    lemma_circular_in_out_bounded(frame_idx % 60, 60);
    lemma_circular_in_out_bounded((frame_idx + 15) % 60, 60);
    lemma_scaled_bounded(width, circular_in_out_at(frame_idx % 60, 60));
    lemma_scaled_bounded(width, sweep_end_fraction(frame_idx));
    lemma_sweep_fills_width(width, sweep_begin(width, frame_idx), sweep_end(width, frame_idx));
}

} // verus!
