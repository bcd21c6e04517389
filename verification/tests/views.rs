use cursive::theme::Style;
use cursive::utils::markup::StyledString;
use cursive_async_view::handoff::Handed;
use cursive_async_view::schedule::{signal_taken, stop_signal};
use cursive_async_view::{
    default_animation, frame_delay, refresh_step, AnimationFrame, AnimationProgressFrame,
    AsyncProgressState, AsyncProgressView, AsyncState, AsyncView, Delegate, HandleUnavailable,
    Pass, PollAction, Received, RefreshAction, Surface, FRAME_INTERVAL,
};

fn texts(content: &StyledString) -> Vec<String> {
    content.spans().map(|span| span.content.to_string()).collect()
}

fn pending_then<T: 'static>(
    pending: usize,
    last: impl FnOnce() -> AsyncState<T> + 'static,
) -> impl FnMut() -> AsyncState<T> {
    let mut calls = 0;
    let mut last = Some(last);
    move || {
        calls += 1;
        if calls <= pending {
            AsyncState::Pending
        } else {
            match last.take() {
                Some(make) => make(),
                None => AsyncState::Pending,
            }
        }
    }
}

#[test]
fn new_view_is_pending_and_has_polled_once() {
    let (view, poller) = AsyncView::new(pending_then::<u32>(100, || AsyncState::Available(1)));
    assert!(view.is_pending());
    assert!(view.child().is_none());
    assert!(view.error().is_none());
    assert_eq!(view.frame_idx(), 0);
    assert_eq!(poller.next(), PollAction::Rearm);
    assert_eq!(poller.frame_interval(), FRAME_INTERVAL);
    assert_eq!(view.surface_at(0), Surface::Placeholder);
    assert_eq!(view.surface(), Surface::Placeholder);
    assert_eq!(view.delegate_at(0), None);
    assert_eq!(view.delegate(), None);
}

#[test]
fn available_child_is_taken_in_one_pass_and_kept() {
    let (mut view, mut poller) = AsyncView::new(|| AsyncState::Available(7u32));
    assert_eq!(poller.next(), PollAction::Refresh);
    assert!(view.is_pending());
    let pass = view.required_size_at((20, 1), 0);
    assert_eq!(pass, Pass { surface: Surface::Child, ready: true });
    assert_eq!(view.child(), Some(&7));
    assert_eq!(view.delegate_at(0), Some(Delegate::Child));
    assert_eq!(view.surface_at(0), Surface::Child);
    // Nothing changes the state any more, and the child is ready only once.
    assert_eq!(poller.poll(), PollAction::Refresh);
    for _ in 0..5 {
        let pass = view.required_size((20, 1));
        assert_eq!(pass, Pass { surface: Surface::Child, ready: false });
        assert_eq!(view.child(), Some(&7));
    }
    assert_eq!(view.absorb(Received::Message(AsyncState::Error("late".to_string()))), false);
    assert_eq!(view.absorb(Received::Disconnected), false);
    assert_eq!(view.child(), Some(&7));
}

#[test]
fn error_after_pending_polls_is_shown_and_kept() {
    let (mut view, mut poller) =
        AsyncView::new(pending_then::<u32>(3, || AsyncState::Error("boom".to_string())));
    for _ in 0..2 {
        assert_eq!(poller.next(), PollAction::Rearm);
        let pass = view.required_size_at((10, 1), 0);
        assert_eq!(pass, Pass { surface: Surface::Placeholder, ready: false });
        assert!(view.is_pending());
        poller.poll();
    }
    assert_eq!(poller.next(), PollAction::Rearm);
    assert_eq!(poller.poll(), PollAction::Refresh);
    assert_eq!(view.frame_idx(), 2);
    for _ in 0..200 {
        let pass = view.required_size_at((10, 1), 0);
        assert_eq!(pass, Pass { surface: Surface::Placeholder, ready: false });
        assert_eq!(view.error().map(|msg| msg.as_str()), Some("boom"));
        assert_eq!(view.delegate_at(0), None);
    }
    assert!(view.content().source().contains("boom"));
    assert_eq!(texts(view.content()), vec!["   boom   ".to_string()]);
    assert_eq!(view.frame_idx(), 60);
}

#[test]
fn pending_view_draws_the_loading_animation() {
    let (mut view, _poller) = AsyncView::new(pending_then::<u32>(100, || AsyncState::Pending));
    let mut view_sized = {
        view.set_width(12);
        view.set_height(2);
        view
    };
    for idx in 0..70usize {
        assert_eq!(view_sized.frame_idx(), idx % 60);
        view_sized.required_size_at((40, 1), 0);
        let expected = default_animation(12, 2, idx);
        assert_eq!(texts(view_sized.content()), texts(&expected.content));
    }
    view_sized.inherit_width();
    view_sized.inherit_height();
    view_sized.required_size_at((40, 1), 0);
    assert_eq!(view_sized.content().source().chars().count(), 40);
}

#[test]
fn dropped_producer_becomes_an_internal_error() {
    let (mut view, poller) = AsyncView::new(pending_then::<u32>(100, || AsyncState::Pending));
    drop(poller);
    let pass = view.required_size_at((80, 1), 0);
    assert_eq!(pass, Pass { surface: Surface::Placeholder, ready: false });
    let msg = view.error().cloned().unwrap_or_default();
    assert!(!msg.is_empty());
    assert!(msg.starts_with("Internal error"));
    // The error stays.
    view.required_size_at((80, 1), 0);
    assert_eq!(view.error().cloned(), Some(msg));
}

#[test]
fn timeout_sends_every_operation_to_the_fallback() {
    let (view, mut poller) = AsyncView::new(pending_then::<u32>(1, || AsyncState::Available(3)));
    let mut view = view.with_timeout(100).with_width(10);
    assert_eq!(view.surface_at(100), Surface::Placeholder);
    assert_eq!(view.delegate_at(100), None);
    assert_eq!(view.surface_at(101), Surface::Fallback);
    assert_eq!(view.delegate_at(101), Some(Delegate::Fallback));
    let before = view.frame_idx();
    let pass = view.required_size_at((10, 1), 101);
    assert_eq!(pass, Pass { surface: Surface::Fallback, ready: false });
    assert_eq!(view.frame_idx(), before);
    // A child that arrives afterwards changes nothing.
    assert_eq!(poller.poll(), PollAction::Refresh);
    let pass = view.required_size_at((10, 1), 5000);
    assert_eq!(pass, Pass { surface: Surface::Fallback, ready: false });
    assert!(view.is_pending());
    assert_eq!(view.surface_at(5000), Surface::Fallback);
}

#[test]
fn timeout_of_no_time_runs_out_on_the_clock() {
    let (view, _poller) = AsyncView::new(pending_then::<u32>(100, || AsyncState::Pending));
    let mut view = view.with_timeout(0);
    let started = std::time::Instant::now();
    while started.elapsed().as_millis() < 5 {
        std::hint::spin_loop();
    }
    assert!(view.elapsed() >= 5);
    assert_eq!(view.surface(), Surface::Fallback);
    assert_eq!(view.delegate(), Some(Delegate::Fallback));
    assert_eq!(view.required_size((10, 1)).surface, Surface::Fallback);
}

#[test]
fn handle_delivers_once() {
    let (mut view, poller) = AsyncView::new(pending_then::<u32>(100, || AsyncState::Pending));
    let mut handle = poller.handle();
    assert!(!handle.is_spent());
    assert_eq!(handle.loaded(5), Ok(()));
    assert!(handle.is_spent());
    assert_eq!(handle.error("late".to_string()), Err(HandleUnavailable));
    assert_eq!(handle.loaded(6), Err(HandleUnavailable));
    let pass = view.required_size_at((10, 1), 0);
    assert_eq!(pass, Pass { surface: Surface::Child, ready: true });
    assert_eq!(view.child(), Some(&5));
    // Nothing else waits in the handoff.
    view.required_size_at((10, 1), 0);
    assert_eq!(view.child(), Some(&5));
}

#[test]
fn handle_fails_once_the_view_listens_no_longer() {
    let (mut view, poller) = AsyncView::new(|| AsyncState::Available(1u32));
    let mut handle = poller.handle();
    assert!(handle.is_spent());
    assert_eq!(handle.error("late".to_string()), Err(HandleUnavailable));

    let (mut view2, poller2) = AsyncView::new(pending_then::<u32>(100, || AsyncState::Pending));
    let mut first = poller2.handle();
    let mut second = poller2.handle();
    assert_eq!(first.error("boom".to_string()), Ok(()));
    view2.required_size_at((10, 1), 0);
    assert_eq!(view2.error().map(|msg| msg.as_str()), Some("boom"));
    // The view has let go of its side of the handoff.
    assert_eq!(second.loaded(2), Err(HandleUnavailable));
    view.required_size_at((10, 1), 0);
    assert_eq!(view.child(), Some(&1));
}

#[test]
fn custom_animations_are_called_with_the_counters() {
    let (view, mut poller) =
        AsyncView::new(pending_then::<u32>(2, || AsyncState::Error("bad".to_string())));
    let mut view = view
        .with_animation_fn(|width: usize, height: usize, frame_idx: usize| AnimationFrame {
            content: StyledString::plain(format!("{}x{} #{}", width, height, frame_idx)),
            next_frame_idx: frame_idx + 2,
        })
        .with_error_fn(
            |msg: &str, width: usize, _height: usize, error_idx: usize, frame_idx: usize| {
                AnimationFrame {
                    content: StyledString::plain(format!(
                        "{} {} {} {}",
                        msg, width, error_idx, frame_idx
                    )),
                    next_frame_idx: frame_idx + 1,
                }
            },
        )
        .with_height(3);
    view.required_size_at((9, 1), 0);
    assert_eq!(texts(view.content()), vec!["9x3 #0".to_string()]);
    view.required_size_at((9, 1), 0);
    assert_eq!(texts(view.content()), vec!["9x3 #2".to_string()]);
    assert_eq!(view.frame_idx(), 4);
    poller.poll();
    poller.poll();
    view.required_size_at((9, 1), 0);
    assert_eq!(texts(view.content()), vec!["bad 9 4 4".to_string()]);
    view.required_size_at((9, 1), 0);
    assert_eq!(texts(view.content()), vec!["bad 9 4 5".to_string()]);
}

#[test]
fn replacing_an_animation_resets_its_counters() {
    let (mut view, _poller) = AsyncView::new(pending_then::<u32>(100, || AsyncState::Pending));
    for _ in 0..5 {
        view.required_size_at((10, 1), 0);
    }
    assert_eq!(view.frame_idx(), 5);
    view.set_animation_fn(cursive_async_view::DefaultAnimation);
    assert_eq!(view.frame_idx(), 0);
    for _ in 0..5 {
        view.required_size_at((10, 1), 0);
    }
    view.set_error_fn(cursive_async_view::DefaultError);
    assert_eq!(view.frame_idx(), 0);
    for _ in 0..5 {
        view.required_size_at((10, 1), 0);
    }
    let view = view.with_animation_fn(default_animation);
    assert_eq!(view.frame_idx(), 0);
}

#[test]
fn background_task_feeds_the_view() {
    let (mut view, mut poller, task_end) =
        AsyncView::new_with_bg_creator(|data: u32| data.to_string());
    assert_eq!(poller.next(), PollAction::Rearm);
    assert_eq!(poller.poll(), PollAction::Rearm);
    assert_eq!(task_end.finish(Ok(41)), Ok(()));
    assert_eq!(poller.poll(), PollAction::Refresh);
    let pass = view.required_size_at((10, 1), 0);
    assert_eq!(pass, Pass { surface: Surface::Child, ready: true });
    assert_eq!(view.child().map(|child| child.as_str()), Some("41"));
}

#[test]
fn background_task_reports_its_error() {
    let (mut view, mut poller, task_end) =
        AsyncView::new_with_bg_creator(|data: u32| data.to_string());
    assert_eq!(task_end.finish(Err("no data".to_string())), Ok(()));
    assert_eq!(poller.poll(), PollAction::Refresh);
    view.required_size_at((10, 1), 0);
    assert_eq!(view.error().map(|msg| msg.as_str()), Some("no data"));
}

#[test]
fn background_task_that_vanishes_is_an_error() {
    let (mut view, mut poller, task_end) =
        AsyncView::new_with_bg_creator(|data: u32| data.to_string());
    drop(task_end);
    assert_eq!(poller.poll(), PollAction::Refresh);
    view.required_size_at((10, 1), 0);
    assert_eq!(
        view.error().map(|msg| msg.as_str()),
        Some("Internal error: bg_task disconnected unexpectedly!")
    );
}

#[test]
fn poller_abandons_when_the_view_is_gone() {
    let (view, mut poller) = AsyncView::new(pending_then::<u32>(2, || AsyncState::Available(1)));
    drop(view);
    assert_eq!(poller.poll(), PollAction::Rearm);
    assert_eq!(poller.poll(), PollAction::Abandon);
    assert_eq!(poller.poll(), PollAction::Abandon);
    assert_eq!(poller.settle(AsyncState::Available(2)), PollAction::Abandon);
}

#[test]
fn poller_interval_can_be_set() {
    let (_view, poller) = AsyncView::new(pending_then::<u32>(2, || AsyncState::Available(1)));
    let poller = poller.with_interval(33_000);
    assert_eq!(poller.frame_interval(), 33_000);
    assert_eq!(poller.next(), PollAction::Rearm);
}

#[test]
fn frame_delay_is_the_rest_of_the_interval() {
    assert_eq!(frame_delay(16_666, 0), 16_666);
    assert_eq!(frame_delay(16_666, 6_666), 10_000);
    assert_eq!(frame_delay(16_666, 16_666), 0);
    assert_eq!(frame_delay(16_666, 1_000_000), 0);
}

#[test]
fn refresh_loop_stops_on_the_signal() {
    assert_eq!(refresh_step(Received::Empty), RefreshAction::Redraw);
    assert_eq!(refresh_step(Received::Message(())), RefreshAction::Stop);
    assert_eq!(refresh_step(Received::Disconnected), RefreshAction::Stop);
    let (guard, signal) = stop_signal();
    assert_eq!(signal.check(), RefreshAction::Redraw);
    assert!(guard.signal());
    assert!(!guard.signal());
    assert_eq!(signal.check(), RefreshAction::Stop);
}

#[test]
fn dropping_the_view_stops_the_refresh_loop() {
    let (view, poller) = AsyncView::new(|| AsyncState::Error::<u32>("boom".to_string()));
    assert_eq!(poller.next(), PollAction::Refresh);
    let signal = poller.into_stop_signal();
    assert_eq!(signal.check(), RefreshAction::Redraw);
    drop(view);
    assert_eq!(signal.check(), RefreshAction::Stop);

    let (view, poller) = AsyncView::new(|| AsyncState::Available(1u32));
    let signal = poller.into_stop_signal();
    assert!(view.signal_stop());
    assert_eq!(signal.check(), RefreshAction::Stop);
}

#[test]
fn progress_scenario_ends_with_the_child() {
    let mut answers = vec![
        AsyncProgressState::Available("view"),
        AsyncProgressState::Pending(600_000),
        AsyncProgressState::Pending(200_000),
    ];
    let (view, mut poller) =
        AsyncProgressView::new(move || answers.pop().unwrap_or(AsyncProgressState::Pending(0)));
    let mut view = view.with_width(100);
    assert_eq!(poller.next(), PollAction::Rearm);
    assert_eq!(view.progress(), Some(0));
    // The first answer: a fifth of the way. The bar eases towards column 20.
    let mut last = 0;
    for _ in 0..10 {
        let pass = view.required_size_at((100, 1), 0);
        assert_eq!(pass, Pass { surface: Surface::Placeholder, ready: false });
        assert!(view.position() >= last && view.position() <= 20);
        last = view.position();
    }
    assert_eq!(view.progress(), Some(200_000));
    assert!(20 - view.position() < view.position());
    // The second answer: three fifths of the way.
    assert_eq!(poller.poll(), PollAction::Rearm);
    for _ in 0..20 {
        view.required_size_at((100, 1), 0);
        assert!(view.position() >= last && view.position() <= 60);
        last = view.position();
    }
    assert_eq!(view.progress(), Some(600_000));
    assert!(60 - view.position() < view.position() - 20);
    let filled: usize = view
        .content()
        .spans()
        .next()
        .map(|span| span.content.chars().count())
        .unwrap_or(0);
    assert_eq!(filled, view.position());
    // The third answer: the child.
    assert_eq!(poller.poll(), PollAction::Refresh);
    let pass = view.required_size_at((100, 1), 0);
    assert_eq!(pass, Pass { surface: Surface::Child, ready: true });
    assert_eq!(view.child(), Some(&"view"));
    assert_eq!(view.progress(), None);
    assert_eq!(view.required_size_at((100, 1), 0), Pass { surface: Surface::Child, ready: false });
}

#[test]
fn progress_beyond_the_whole_is_held() {
    let (mut view, _poller) = AsyncProgressView::new(|| AsyncProgressState::<u32>::Pending(7_000_000));
    view.set_width(10);
    for _ in 0..40 {
        view.required_size_at((10, 1), 0);
        assert!(view.position() <= 10);
    }
    assert_eq!(view.progress(), Some(7_000_000));
    assert!(view.position() >= 9);
}

#[test]
fn progress_error_is_shown_and_kept() {
    let mut calls = 0;
    let (mut view, mut poller) = AsyncProgressView::new(move || {
        calls += 1;
        if calls < 3 {
            AsyncProgressState::<u32>::Pending(500_000)
        } else {
            AsyncProgressState::Error("boom".to_string())
        }
    });
    view.set_width(10);
    view.required_size_at((10, 1), 0);
    poller.poll();
    assert_eq!(poller.poll(), PollAction::Refresh);
    // The progress of the second poll waits in the handoff before the error.
    view.required_size_at((10, 1), 0);
    assert_eq!(view.progress(), Some(500_000));
    for _ in 0..50 {
        let pass = view.required_size_at((10, 1), 0);
        assert_eq!(pass, Pass { surface: Surface::Placeholder, ready: false });
        assert_eq!(view.error().map(|msg| msg.as_str()), Some("boom"));
    }
    assert!(view.content().source().contains("boom"));
    assert_eq!(view.delegate_at(0), None);
    assert_eq!(view.surface_at(0), Surface::Placeholder);
}

#[test]
fn progress_view_with_dropped_producer_is_an_error() {
    let (mut view, poller) = AsyncProgressView::new(|| AsyncProgressState::<u32>::Pending(0));
    drop(poller);
    // The progress that was sent still waits in the handoff.
    view.required_size_at((10, 1), 0);
    assert!(view.error().is_none());
    view.required_size_at((10, 1), 0);
    assert!(view.error().map(|msg| !msg.is_empty()).unwrap_or(false));
}

#[test]
fn progress_handle_reports_and_delivers() {
    let (mut view, poller) = AsyncProgressView::new(|| AsyncProgressState::<u32>::Pending(0));
    let mut handle = poller.handle();
    view.required_size_at((10, 1), 0);
    assert_eq!(handle.progress(250_000), Ok(()));
    assert_eq!(handle.progress(750_000), Ok(()));
    view.required_size_at((10, 1), 0);
    assert_eq!(view.progress(), Some(250_000));
    view.required_size_at((10, 1), 0);
    assert_eq!(view.progress(), Some(750_000));
    assert_eq!(handle.loaded(9), Ok(()));
    assert_eq!(handle.progress(800_000), Err(HandleUnavailable));
    assert_eq!(handle.error("late".to_string()), Err(HandleUnavailable));
    assert_eq!(view.required_size_at((10, 1), 0).ready, true);
    assert_eq!(view.child(), Some(&9));
}

#[test]
fn progress_view_takes_custom_functions_and_timeout() {
    let (view, mut poller) = AsyncProgressView::new(|| AsyncProgressState::<u32>::Pending(300_000));
    let mut view = view
        .with_progress_fn(
            |width: usize, _height: usize, progress: u64, pos: usize, frame_idx: usize| {
                AnimationProgressFrame {
                    content: StyledString::plain(format!("{} of {}", progress, width)),
                    pos: pos + 1,
                    next_frame_idx: frame_idx + 3,
                }
            },
        )
        .with_error_fn(
            |msg: String,
             _width: usize,
             _height: usize,
             progress: u64,
             pos: usize,
             frame_idx: usize| AnimationProgressFrame {
                content: StyledString::plain(format!("{} at {}", msg, progress)),
                pos,
                next_frame_idx: frame_idx,
            },
        )
        .with_height(1)
        .with_timeout(50);
    view.required_size_at((8, 1), 0);
    view.required_size_at((8, 1), 0);
    assert_eq!(texts(view.content()), vec!["300000 of 8".to_string()]);
    assert_eq!(view.position(), 2);
    assert_eq!(view.required_size_at((8, 1), 51).surface, Surface::Fallback);
    assert_eq!(view.surface_at(51), Surface::Fallback);
    assert_eq!(view.delegate_at(51), Some(Delegate::Fallback));
    let mut handle = poller.handle();
    assert_eq!(handle.error("bad".to_string()), Ok(()));
    assert_eq!(poller.poll(), PollAction::Rearm);
    view.required_size_at((8, 1), 10);
    view.required_size_at((8, 1), 10);
    assert_eq!(texts(view.content()), vec!["bad at 500000".to_string()]);
    assert_eq!(view.content().spans().next().map(|span| *span.attr), Some(Style::none()));
    view.inherit_width();
    view.inherit_height();
    assert!(view.signal_stop());
}

#[test]
fn signal_counts_as_taken_only_when_sent() {
    assert!(signal_taken(Handed::Sent));
    assert!(!signal_taken(Handed::Full(())));
    assert!(!signal_taken(Handed::Disconnected(())));
}
