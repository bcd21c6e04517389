//! Which widget answers an operation of the host.
//!
//! A container stands for up to three widgets: the child once it is there,
//! the placeholder that shows the animation until then, and the fallback that
//! takes over when the time allowed for loading has run out.

use vstd::prelude::*;
use vstd::string::StringExecFns;

verus! {

/// The widget that answers the operations that show something: drawing,
/// layout, measuring, the important area.
#[derive(Clone, Copy, PartialEq, Eq, Structural, Debug)]
pub enum Surface {
    /// The fallback: the time allowed for loading has run out.
    Fallback,
    /// The child.
    Child,
    /// The placeholder with the loading or error animation.
    Placeholder,
}

/// The widget that answers the operations of input and focus. The placeholder
/// never does.
#[derive(Clone, Copy, PartialEq, Eq, Structural, Debug)]
pub enum Delegate {
    /// The fallback: the time allowed for loading has run out.
    Fallback,
    /// The child.
    Child,
}

/// What a measuring pass did.
#[derive(Clone, Copy, PartialEq, Eq, Structural, Debug)]
pub struct Pass {
    /// The widget to measure.
    pub surface: Surface,
    /// Whether the child has become available in this pass. It does so in one
    /// pass at most.
    pub ready: bool,
}

/// Whether the time allowed for loading has run out after `elapsed`
/// milliseconds: a timeout is set, and more time than that has passed.
pub open spec fn expired(timeout: Option<u64>, elapsed: u128) -> bool {
    timeout matches Some(limit) && elapsed > limit
}

/// The widget that shows: the fallback once the time has run out, whatever
/// the state; else the child if it is there, and the placeholder if not.
pub open spec fn surface_for(timed_out: bool, available: bool) -> Surface {
    if timed_out {
        Surface::Fallback
    } else if available {
        Surface::Child
    } else {
        Surface::Placeholder
    }
}

/// The widget that takes input and focus: the fallback once the time has run
/// out, whatever the state; else the child if it is there, and none if not.
pub open spec fn delegate_for(timed_out: bool, available: bool) -> Option<Delegate> {
    if timed_out {
        Some(Delegate::Fallback)
    } else if available {
        Some(Delegate::Child)
    } else {
        None
    }
}

/// The message of the error that a container shows when its producer has
/// gone without a word.
pub open spec fn internal_error() -> Seq<char> {
    "Internal error: the producer of the view disconnected unexpectedly!"@
}

/// Whether the time allowed for loading has run out after `elapsed`
/// milliseconds.
pub fn is_expired(timeout: Option<u64>, elapsed: u128) -> (out: bool)
    ensures
        out == expired(timeout, elapsed),
{
    match timeout {
        Some(limit) => elapsed > limit as u128,
        None => false,
    }
}

/// The widget that shows.
pub fn choose_surface(timed_out: bool, available: bool) -> (surface: Surface)
    ensures
        surface == surface_for(timed_out, available),
{
    if timed_out {
        Surface::Fallback
    } else if available {
        Surface::Child
    } else {
        Surface::Placeholder
    }
}

/// The widget that takes input and focus, if any does.
pub fn choose_delegate(timed_out: bool, available: bool) -> (delegate: Option<Delegate>)
    ensures
        delegate == delegate_for(timed_out, available),
{
    if timed_out {
        Some(Delegate::Fallback)
    } else if available {
        Some(Delegate::Child)
    } else {
        None
    }
}

/// The message of the error that a container shows when its producer has
/// gone without a word.
pub fn internal_error_message() -> (msg: String)
    ensures
        msg@ == internal_error(),
{
    String::from_str("Internal error: the producer of the view disconnected unexpectedly!")
}

/// The message of the internal error is not empty.
pub proof fn lemma_internal_error_not_empty()
    ensures
        internal_error().len() > 0,
{
    reveal_strlit("Internal error: the producer of the view disconnected unexpectedly!");
}

/// Once the time allowed for loading has run out, it has run out at every
/// later time, and from then on the fallback answers every operation,
/// whatever the state is or becomes.
pub proof fn lemma_timeout_is_final(
    timeout: Option<u64>,
    earlier: u128,
    later: u128,
    available: bool,
)
    requires
        expired(timeout, earlier),
        earlier <= later,
    ensures
        expired(timeout, later),
        surface_for(expired(timeout, later), available) == Surface::Fallback,
        delegate_for(expired(timeout, later), available) == Some(Delegate::Fallback),
{
}

} // verus!
