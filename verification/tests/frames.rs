use cursive::theme::{PaletteColor, Style};
use cursive::utils::markup::StyledString;
use cursive_async_view::easing::{circular_in_out, circular_out, isqrt, isqrt_ceil, scale, UNIT};
use cursive_async_view::text::uncover;
use cursive_async_view::{
    default_animation, default_error, default_progress, default_progress_error,
};
use interpolation::Ease;

fn spans(content: &StyledString) -> Vec<(String, Style)> {
    content.spans().map(|span| (span.content.to_string(), *span.attr)).collect()
}

fn bar(n: usize) -> String {
    "━".repeat(n)
}

fn highlight() -> Style {
    Style::from(PaletteColor::Highlight)
}

fn inactive() -> Style {
    Style::from(PaletteColor::HighlightInactive)
}

#[test]
fn isqrt_rounds_down() {
    assert_eq!(isqrt(0), 0);
    assert_eq!(isqrt(1), 1);
    assert_eq!(isqrt(15), 3);
    assert_eq!(isqrt(16), 4);
    assert_eq!(isqrt(17), 4);
    assert_eq!(isqrt(u128::MAX), u64::MAX as u128);
}

#[test]
fn isqrt_ceil_rounds_up() {
    assert_eq!(isqrt_ceil(0), 0);
    assert_eq!(isqrt_ceil(15), 4);
    assert_eq!(isqrt_ceil(16), 4);
    assert_eq!(isqrt_ceil(17), 5);
}

#[test]
fn circular_in_out_has_its_exact_values() {
    assert_eq!(circular_in_out(0, 60), 0);
    assert_eq!(circular_in_out(15, 60), 66_987);
    assert_eq!(circular_in_out(30, 60), 500_000);
    assert_eq!(circular_in_out(45, 60), 933_012);
    assert_eq!(circular_in_out(60, 60), UNIT);
    assert_eq!(circular_in_out(61, 60), UNIT);
}

#[test]
fn circular_out_has_its_exact_values() {
    assert_eq!(circular_out(0, 30), 0);
    assert_eq!(circular_out(6, 30), 600_000);
    assert_eq!(circular_out(15, 30), 866_025);
    assert_eq!(circular_out(30, 30), UNIT);
    assert_eq!(circular_out(1000, 30), UNIT);
}

#[test]
fn curves_follow_the_floating_point_curves() {
    for i in 0..=60u32 {
        let exact = (i as f64 / 60.0).circular_in_out();
        let fixed = circular_in_out(i, 60) as f64 / UNIT as f64;
        assert!((exact - fixed).abs() < 2e-6, "in-out at {}: {} vs {}", i, exact, fixed);
    }
    for i in 0..=30u32 {
        let exact = (i as f64 / 30.0).circular_out();
        let fixed = circular_out(i, 30) as f64 / UNIT as f64;
        assert!((exact - fixed).abs() < 2e-6, "out at {}: {} vs {}", i, exact, fixed);
    }
}

#[test]
fn scale_takes_the_part_rounded_down() {
    assert_eq!(scale(40, 0), 0);
    assert_eq!(scale(40, UNIT), 40);
    assert_eq!(scale(40, 500_000), 20);
    assert_eq!(scale(10, 133_974), 1);
    assert_eq!(scale(usize::MAX, UNIT), usize::MAX);
}

#[test]
fn uncover_cuts_ascii_at_the_byte() {
    assert_eq!(uncover("hello", 0), (String::new(), 0));
    assert_eq!(uncover("hello", 2), ("he".to_string(), 2));
    assert_eq!(uncover("hello", 5), ("hello".to_string(), 5));
    assert_eq!(uncover("hello", 9), ("hello".to_string(), 5));
}

#[test]
fn uncover_never_splits_a_character() {
    // 'é' takes two bytes: the byte in its middle is as near to its start
    // as to its end, and the later boundary wins.
    assert_eq!(uncover("aéb", 1), ("a".to_string(), 1));
    assert_eq!(uncover("aéb", 2), ("aé".to_string(), 3));
    assert_eq!(uncover("aéb", 3), ("aé".to_string(), 3));
    // '🦀' takes four bytes.
    assert_eq!(uncover("🦀", 1), (String::new(), 0));
    assert_eq!(uncover("🦀", 2), ("🦀".to_string(), 4));
    assert_eq!(uncover("🦀", 3), ("🦀".to_string(), 4));
}

#[test]
fn loading_frame_zero_starts_the_sweep() {
    let frame = default_animation(10, 1, 0);
    assert_eq!(frame.next_frame_idx, 1);
    assert_eq!(
        spans(&frame.content),
        vec![(bar(0), inactive()), (bar(1), highlight()), (bar(9), inactive())]
    );
}

#[test]
fn loading_frame_is_as_wide_as_asked() {
    for width in [0usize, 1, 7, 40, 133] {
        for idx in 0..130usize {
            let frame = default_animation(width, 3, idx);
            assert_eq!(frame.content.source(), bar(width));
            assert_eq!(frame.content.spans().count(), 3);
            assert_eq!(frame.next_frame_idx, (idx % 60 + 1) % 60);
        }
    }
}

#[test]
fn loading_frame_depends_on_width_and_frame_only() {
    for idx in 0..60usize {
        let first = default_animation(33, 1, idx);
        let second = default_animation(33, 9, idx);
        assert_eq!(spans(&first.content), spans(&second.content));
        assert_eq!(first.next_frame_idx, second.next_frame_idx);
    }
}

#[test]
fn loading_animation_repeats_after_a_cycle() {
    let mut idx = 0;
    let first = default_animation(40, 1, idx);
    for _ in 0..60 {
        idx = default_animation(40, 1, idx).next_frame_idx;
    }
    assert_eq!(idx, 0);
    assert_eq!(spans(&default_animation(40, 1, idx).content), spans(&first.content));
    assert_eq!(
        spans(&default_animation(40, 1, 75).content),
        spans(&default_animation(40, 1, 15).content)
    );
}

#[test]
fn loading_sweep_follows_the_floating_point_sweep() {
    for width in [10usize, 40, 80] {
        for idx in 0..60usize {
            let factor = idx as f64 / 60.0;
            let begin = (factor.circular_in_out().clamp(0.0, 1.0) * width as f64) as i64;
            let end = ((((factor + 0.25) % 1.0).circular_in_out() * 2.0).clamp(0.0, 1.0)
                * width as f64) as i64;
            let frame = default_animation(width, 1, idx);
            let parts = spans(&frame.content);
            let lens: Vec<i64> =
                parts.iter().map(|(text, _)| text.chars().count() as i64).collect();
            if parts[0].1 == inactive() {
                assert!((lens[0] - begin).abs() <= 1);
                assert!((lens[0] + lens[1] - end).abs() <= 1);
            } else {
                assert!((lens[0] - end).abs() <= 1);
                assert!((lens[0] + lens[1] - begin).abs() <= 1);
            }
        }
    }
}

#[test]
fn error_animation_holds_the_whole_message() {
    let frame = default_error("boom", 10, 1, 0, 60);
    assert_eq!(frame.next_frame_idx, 60);
    assert_eq!(spans(&frame.content), vec![("   boom   ".to_string(), Style::none())]);
    let later = default_error("boom", 10, 1, 0, 500);
    assert_eq!(later.next_frame_idx, 500);
    assert_eq!(spans(&later.content), spans(&frame.content));
}

#[test]
fn error_animation_waits_for_the_cycle_to_end() {
    // An error in the second half of a cycle lets the sweep run on.
    let frame = default_error("boom", 10, 1, 45, 45);
    assert_eq!(frame.next_frame_idx, 46);
    assert_eq!(spans(&frame.content), spans(&default_animation(10, 1, 45).content));
    let held = default_error("boom", 10, 1, 45, 120);
    assert_eq!(held.next_frame_idx, 120);
    assert_eq!(spans(&held.content), vec![("   boom   ".to_string(), Style::none())]);
}

#[test]
fn error_animation_uncovers_the_message() {
    // In frame 30 the sweep begins in the middle of the width.
    let frame = default_error("boom", 10, 1, 0, 30);
    assert_eq!(frame.next_frame_idx, 31);
    assert_eq!(
        spans(&frame.content),
        vec![("   bo".to_string(), Style::none()), (bar(5), highlight()), (bar(0), inactive())]
    );
}

#[test]
fn error_animation_centres_long_and_odd_messages() {
    assert_eq!(
        spans(&default_error("abc", 8, 1, 0, 60).content),
        vec![("  abc  ".to_string(), Style::none())]
    );
    assert_eq!(
        spans(&default_error("a long message", 4, 1, 0, 60).content),
        vec![("a long message".to_string(), Style::none())]
    );
}

#[test]
fn error_animation_never_splits_a_character() {
    for frame_idx in 0..70usize {
        let frame = default_error("⌛ Zeitüberschreitung 🦀", 30, 1, 0, frame_idx);
        for span in frame.content.spans() {
            assert!(span.content.chars().count() <= span.content.len());
        }
    }
}

#[test]
fn progress_bar_eases_towards_its_target() {
    // At frame 0 the bar stays where it was.
    let frame = default_progress(40, 1, 500_000, 0, 0);
    assert_eq!((frame.pos, frame.next_frame_idx), (0, 1));
    assert_eq!(spans(&frame.content), vec![(bar(0), highlight()), (bar(40), inactive())]);
    // At frame 6 it has made three fifths of the way.
    let frame = default_progress(40, 1, 500_000, 0, 6);
    assert_eq!((frame.pos, frame.next_frame_idx), (12, 7));
    assert_eq!(spans(&frame.content), vec![(bar(12), highlight()), (bar(28), inactive())]);
    // The frame index wraps after thirty frames.
    let frame = default_progress(40, 1, 500_000, 10, 36);
    assert_eq!((frame.pos, frame.next_frame_idx), (16, 7));
}

#[test]
fn progress_bar_never_moves_back() {
    // Less progress than the bar shows leaves the bar where it is.
    let frame = default_progress(40, 1, 100_000, 30, 15);
    assert_eq!(frame.pos, 30);
    // A bar beyond the width is drawn at full width.
    let frame = default_progress(20, 1, 100_000, 30, 15);
    assert_eq!(frame.pos, 20);
    assert_eq!(spans(&frame.content), vec![(bar(20), highlight()), (bar(0), inactive())]);
}

#[test]
fn progress_fill_grows_with_progress_and_position() {
    for idx in 0..30usize {
        let mut last = 0;
        for step in 0..=20u64 {
            let frame = default_progress(57, 1, step * 50_000, step as usize, idx);
            assert!(frame.pos >= last);
            assert!(frame.pos <= 57);
            last = frame.pos;
        }
    }
}

#[test]
fn progress_error_uncovers_the_message() {
    let frame = default_progress_error("boom".to_string(), 10, 1, 500_000, 3, 0);
    assert_eq!((frame.pos, frame.next_frame_idx), (3, 1));
    assert_eq!(
        spans(&frame.content),
        vec![(String::new(), Style::none()), (bar(3), highlight()), (bar(7), inactive())]
    );
    let frame = default_progress_error("boom".to_string(), 10, 1, 500_000, 3, 15);
    assert_eq!(
        spans(&frame.content),
        vec![("   bo".to_string(), Style::none()), (bar(3), highlight()), (bar(2), inactive())]
    );
    let frame = default_progress_error("boom".to_string(), 10, 1, 500_000, 3, 30);
    assert_eq!(frame.next_frame_idx, 31);
    assert_eq!(
        spans(&frame.content),
        vec![("   boom   ".to_string(), Style::none()), (bar(0), highlight()), (bar(0), inactive())]
    );
    let frame = default_progress_error("boom".to_string(), 10, 1, 500_000, 3, usize::MAX);
    assert_eq!(frame.next_frame_idx, usize::MAX);
}
