//! Styled text as the host toolkit holds it.
//!
//! Frames are handed to the host as `cursive::utils::markup::StyledString`
//! values. The verifier cannot look into such a value, so this module names
//! what one holds, [`styled_spans`], and states for each operation of the
//! toolkit that the frame generators use what it does to the spans. These
//! statements are taken from the toolkit's source and are believed, not
//! proved; the frame generators are proved against them.

use cursive::align::HAlign;
use cursive::theme::{PaletteColor, Style};
use cursive::utils::markup::StyledString;
use vstd::prelude::*;

verus! {

/// `cursive::utils::span::SpannedString`: a text with attributed spans.
/// Declared so that values of it can be held and passed on.
#[verifier::external_type_specification]
#[verifier::external_body]
#[verifier::reject_recursive_types(T)]
pub struct ExSpannedString<T>(cursive::utils::span::SpannedString<T>);

/// `cursive::theme::Style`: the attribute of a span of styled text.
#[verifier::external_type_specification]
#[verifier::external_body]
pub struct ExStyle(cursive::theme::Style);

/// The styles that the frame generators give to a span of text.
#[derive(Clone, Copy, PartialEq, Eq, Structural, Debug)]
pub enum Tone {
    /// No style of its own: `Style::none()`.
    Plain,
    /// The palette's highlight colour: the style of `PaletteColor::Highlight`.
    Highlight,
    /// The palette's inactive highlight colour: the style of
    /// `PaletteColor::HighlightInactive`.
    HighlightInactive,
}

/// The spans of a styled text in the order in which they are drawn, each with
/// its content and its tone. It stands for what `SpannedString::spans` hands
/// out, span by span: the resolved content, and the tone whose style the
/// span's attribute is.
pub uninterp spec fn styled_spans(text: StyledString) -> Seq<(Seq<char>, Tone)>;

/// The number of characters that the spans hold together.
pub open spec fn spans_len(spans: Seq<(Seq<char>, Tone)>) -> nat
    decreases spans.len(),
{
    if spans.len() == 0 {
        0
    } else {
        spans_len(spans.drop_last()) + spans.last().0.len()
    }
}

/// Calls `SpannedString::new`, which makes a text with an empty source and no
/// span.
#[verifier::external_body]
pub(crate) fn styled_new() -> (text: StyledString)
    ensures
        styled_spans(text) == Seq::<(Seq<char>, Tone)>::empty(),
{
    StyledString::new()
}

/// Calls `StyledString::plain`, which makes a text of one span that holds the
/// whole content, with `Style::none()`.
#[verifier::external_body]
pub(crate) fn styled_plain(content: String) -> (text: StyledString)
    ensures
        styled_spans(text) == seq![(content@, Tone::Plain)],
{
    StyledString::plain(content)
}

/// Calls `StyledString::append_plain`, which appends one span that holds
/// `part`, with `Style::none()`, behind the spans that are there, also where
/// `part` is empty.
#[verifier::external_body]
pub(crate) fn append_plain(text: &mut StyledString, part: String)
    ensures
        styled_spans(*final(text)) == styled_spans(*old(text)).push((part@, Tone::Plain)),
{
    text.append_plain(part)
}

/// Calls `StyledString::append_styled`, which appends one span that holds
/// `part`, with the style that `tone` stands for, behind the spans that are
/// there, also where `part` is empty.
#[verifier::external_body]
pub(crate) fn append_styled(text: &mut StyledString, part: String, tone: Tone)
    ensures
        styled_spans(*final(text)) == styled_spans(*old(text)).push((part@, tone)),
{
    let style: Style = match tone {
        Tone::Plain => Style::none(),
        Tone::Highlight => PaletteColor::Highlight.into(),
        Tone::HighlightInactive => PaletteColor::HighlightInactive.into(),
    };
    text.append_styled(part, style)
}

/// Where a centred content starts in a container: half of the room that the
/// content leaves, rounded down, and zero where it leaves none.
pub open spec fn centered_offset(content: nat, container: nat) -> nat {
    if container < content {
        0
    } else {
        ((container - content) / 2) as nat
    }
}

/// Calls `HAlign::get_offset` on `HAlign::Center`, which returns zero where
/// the container is smaller than the content, and else half of the
/// difference, rounded down.
#[verifier::external_body]
pub(crate) fn center_offset(content: usize, container: usize) -> (offset: usize)
    ensures
        offset == centered_offset(content as nat, container as nat),
{
    HAlign::Center.get_offset(content, container)
}

} // verus!
