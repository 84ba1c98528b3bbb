use pomodoro_chart::runner::{
    poll_timeout, quits, run_app_step, Action, Input, QUIT_KEY, TICK_RATE_MILLIS,
};
use pomodoro_chart::session::App;

const SECOND: u128 = 1_000_000_000;

#[test]
fn tick_interval_is_one_second() {
    assert_eq!(TICK_RATE_MILLIS, 1000);
}

#[test]
fn poll_timeout_is_what_is_left_of_the_interval() {
    assert_eq!(poll_timeout(1000, 0), 1000);
    assert_eq!(poll_timeout(1000, 300), 700);
    assert_eq!(poll_timeout(1000, 999), 1);
    assert_eq!(poll_timeout(SECOND, 1), SECOND - 1);
}

#[test]
fn poll_timeout_is_zero_once_the_tick_is_due() {
    assert_eq!(poll_timeout(1000, 1000), 0);
    assert_eq!(poll_timeout(1000, 1001), 0);
    assert_eq!(poll_timeout(1000, u128::MAX), 0);
    assert_eq!(poll_timeout(0, 0), 0);
}

#[test]
fn only_the_quit_key_quits() {
    assert_eq!(QUIT_KEY, 'q');
    assert!(quits(Input::Char('q')));
    assert!(!quits(Input::Char('Q')));
    assert!(!quits(Input::Char('x')));
    assert!(!quits(Input::Char(' ')));
    assert!(!quits(Input::Idle));
    assert!(!quits(Input::Other));
}

#[test]
fn quit_key_ends_the_loop_and_leaves_the_session() {
    let mut app = App::new();
    assert_eq!(run_app_step(&mut app, Input::Char('q'), 0, SECOND), Action::Quit);
    assert_eq!(app.window(), [0, 1800]);
    assert_eq!(run_app_step(&mut app, Input::Char('q'), 5 * SECOND, SECOND), Action::Quit);
    assert_eq!(app.window(), [0, 1800]);
}

#[test]
fn nothing_ticks_before_the_interval_is_over() {
    let mut app = App::new();
    for input in [Input::Idle, Input::Other, Input::Char('x')] {
        assert_eq!(run_app_step(&mut app, input, 0, SECOND), Action::Wait);
        assert_eq!(run_app_step(&mut app, input, SECOND - 1, SECOND), Action::Wait);
    }
    assert_eq!(app.window(), [0, 1800]);
}

#[test]
fn a_tick_is_processed_once_the_interval_is_over() {
    let mut app = App::new();
    assert_eq!(run_app_step(&mut app, Input::Idle, SECOND, SECOND), Action::Restart);
    assert_eq!(app.window(), [1, 1801]);
    assert_eq!(run_app_step(&mut app, Input::Other, 3 * SECOND, SECOND), Action::Restart);
    assert_eq!(app.window(), [2, 1802]);
    assert_eq!(run_app_step(&mut app, Input::Char('a'), SECOND + 1, SECOND), Action::Restart);
    assert_eq!(app.window(), [3, 1803]);
}

#[test]
fn the_loop_starts_a_fresh_session_when_one_is_complete() {
    let mut app = App::new();
    for _ in 0..1799 {
        assert_eq!(run_app_step(&mut app, Input::Idle, SECOND, SECOND), Action::Restart);
    }
    assert_eq!(app.window(), [1799, 3599]);
    assert_eq!(run_app_step(&mut app, Input::Idle, SECOND, SECOND), Action::Restart);
    assert_eq!(app.window(), [0, 1800]);
    assert_eq!(app.data1().to_vec(), App::new().data1().to_vec());
}
