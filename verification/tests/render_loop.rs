use redfish_monitor::render_loop::{RenderLoop, UiEvent, UiStep, QUIT_KEY, TICK_MS};

#[test]
fn loop_constants() {
    assert_eq!(TICK_MS, 1000);
    assert_eq!(QUIT_KEY, 'q');
}

#[test]
fn loop_starts_running() {
    let state = RenderLoop::start(0);
    assert!(state.is_running());
    assert_eq!(state.wait_ms(0), 1000);
}

#[test]
fn wait_is_what_is_left_of_the_tick() {
    let state = RenderLoop::start(5_000);
    assert_eq!(state.wait_ms(5_000), 1000);
    assert_eq!(state.wait_ms(5_001), 999);
    assert_eq!(state.wait_ms(5_400), 600);
    assert_eq!(state.wait_ms(5_999), 1);
}

#[test]
fn wait_is_never_negative() {
    let state = RenderLoop::start(5_000);
    assert_eq!(state.wait_ms(6_000), 0);
    assert_eq!(state.wait_ms(6_001), 0);
    assert_eq!(state.wait_ms(60_000), 0);
    assert_eq!(state.wait_ms(u64::MAX), 0);
}

#[test]
fn wait_is_bounded_when_the_clock_reads_less() {
    let state = RenderLoop::start(5_000);
    assert_eq!(state.wait_ms(4_000), 1000);
    assert_eq!(state.wait_ms(0), 1000);
    let state = RenderLoop::start(u64::MAX);
    assert_eq!(state.wait_ms(0), 1000);
}

#[test]
fn quit_key_ends_the_loop_on_that_tick() {
    let mut state = RenderLoop::start(0);
    assert_eq!(state.handle(UiEvent::Char('q'), 10), UiStep::Teardown);
    assert!(!state.is_running());
}

#[test]
fn quit_key_ends_the_loop_on_a_later_tick() {
    let mut state = RenderLoop::start(0);
    assert_eq!(state.handle(UiEvent::Timeout, 1_000), UiStep::Redraw);
    assert_eq!(state.handle(UiEvent::Char('x'), 1_200), UiStep::Redraw);
    assert_eq!(state.handle(UiEvent::Timeout, 2_000), UiStep::Redraw);
    assert!(state.is_running());
    assert_eq!(state.handle(UiEvent::Char('q'), 2_300), UiStep::Teardown);
    assert!(!state.is_running());
}

#[test]
fn no_other_key_ends_the_loop() {
    let mut state = RenderLoop::start(0);
    let keys = ['Q', 'w', 'a', ' ', '\n', '\u{1b}', '0', 'é', 'ｑ'];
    for key in keys {
        assert_eq!(state.handle(UiEvent::Char(key), 1), UiStep::Redraw);
        assert!(state.is_running());
    }
    assert_eq!(state.handle(UiEvent::OtherInput, 2), UiStep::Redraw);
    assert!(state.is_running());
    assert_eq!(state.handle(UiEvent::Timeout, 3), UiStep::Redraw);
    assert!(state.is_running());
}

#[test]
fn failure_ends_the_loop() {
    let mut state = RenderLoop::start(0);
    assert_eq!(state.handle(UiEvent::Failed, 10), UiStep::Teardown);
    assert!(!state.is_running());
}

#[test]
fn teardown_happens_exactly_once() {
    let events = [
        UiEvent::Timeout,
        UiEvent::Char('a'),
        UiEvent::Char('q'),
        UiEvent::Char('q'),
        UiEvent::Failed,
        UiEvent::Timeout,
        UiEvent::OtherInput,
    ];
    let mut state = RenderLoop::start(0);
    let mut teardowns = 0;
    let mut steps = Vec::new();
    for (i, event) in events.iter().enumerate() {
        let step = state.handle(*event, 100 * i as u64);
        if step == UiStep::Teardown {
            teardowns += 1;
        }
        steps.push(step);
    }
    assert_eq!(teardowns, 1);
    assert_eq!(
        steps,
        vec![
            UiStep::Redraw,
            UiStep::Redraw,
            UiStep::Teardown,
            UiStep::Stopped,
            UiStep::Stopped,
            UiStep::Stopped,
            UiStep::Stopped,
        ]
    );
    assert!(!state.is_running());
}

#[test]
fn teardown_happens_once_after_a_failure_too() {
    let mut state = RenderLoop::start(0);
    assert_eq!(state.handle(UiEvent::Failed, 1), UiStep::Teardown);
    assert_eq!(state.handle(UiEvent::Failed, 2), UiStep::Stopped);
    assert_eq!(state.handle(UiEvent::Char('q'), 3), UiStep::Stopped);
    assert!(!state.is_running());
}

#[test]
fn tick_starts_anew_once_it_is_over() {
    let mut state = RenderLoop::start(0);
    assert_eq!(state.handle(UiEvent::Char('x'), 400), UiStep::Redraw);
    assert_eq!(state.wait_ms(400), 600);
    assert_eq!(state.handle(UiEvent::Timeout, 1_000), UiStep::Redraw);
    assert_eq!(state.wait_ms(1_000), 1000);
    assert_eq!(state.wait_ms(1_250), 750);
    assert_eq!(state.handle(UiEvent::Timeout, 3_700), UiStep::Redraw);
    assert_eq!(state.wait_ms(3_700), 1000);
}

#[test]
fn tick_is_kept_when_the_loop_ends() {
    let mut state = RenderLoop::start(0);
    assert_eq!(state.handle(UiEvent::Char('q'), 5_000), UiStep::Teardown);
    assert_eq!(state.wait_ms(5_000), 0);
    assert_eq!(state.handle(UiEvent::Timeout, 9_000), UiStep::Stopped);
    assert_eq!(state.wait_ms(500), 500);
}
