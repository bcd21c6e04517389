//! A placeholder widget core for terminal user interfaces: it shows a loading
//! animation or a progress bar until the child it stands in for is available.
//!
//! The crate holds the state machine, the handoff between the producer of the
//! child and the render pass, the decisions of the poll scheduler and the
//! generators of the animation frames. Everything here is verified with Verus;
//! the declarations that Verus believes without proof are documented as such.
//!
//! # Asynchronous view loading without progress information
//!
//! If you can't tell the progress during a long taking preparation of data for
//! a view, you may wrap the creation of this view in an [`AsyncView`]. This
//! will display a loading animation until the inner view is ready to be drawn.
//!
//! # Asynchronous view loading with a progress bar
//!
//! If you have information about the progress a long taking view creation has
//! made, you can wrap the creation in an [`AsyncProgressView`]. This will
//! display a progress bar until the inner view is ready to be drawn.

pub mod easing;
pub mod handoff;
pub mod infinite;
pub mod progress;
pub mod schedule;
pub mod styled;
pub mod surface;
pub mod text;
pub mod utils;

pub use handoff::{Handle, HandleUnavailable, Received};
pub use infinite::{
    default_animation, default_error, AnimationFn, AnimationFrame, AsyncState, AsyncView,
    DefaultAnimation, DefaultError, ErrorFn,
};
pub use progress::{
    default_progress, default_progress_error, AnimationProgressFrame, AsyncProgressState,
    AsyncProgressView, DefaultProgress, DefaultProgressError, ProgressErrorFn, ProgressFn,
    ProgressPoll, ProgressPoller,
};
pub use schedule::{
    background, frame_delay, refresh_step, Background, PollAction, Poller, ReadyPoll,
    RefreshAction, StopGuard, StopSignal, TaskEnd, FRAME_INTERVAL, REFRESH_INTERVAL,
};
pub use surface::{Delegate, Pass, Surface};
pub use utils::repeat_str;
