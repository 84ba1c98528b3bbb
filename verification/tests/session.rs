use pomodoro_chart::session::{
    App, BREAK_PERIOD, BREAK_SCALE, LUNCH_PERIOD, LUNCH_SCALE, SESSION_END, WORK_PERIOD,
    WORK_SCALE,
};
use pomodoro_chart::signal::{Amplitude, Sample, SinSignal};
use pomodoro_chart::window::Window;
use pomodoro_chart::WINDOW_SIZE;

fn wave_sample(x: i64, period: i64, scale: i64) -> Sample {
    Sample { x, y: Amplitude::Sine { scale, offset: x - 1800, period } }
}

fn assert_window_starts_at(window: &Window, start: i64, period: i64, scale: i64) {
    let samples = window.to_vec();
    assert_eq!(samples.len(), WINDOW_SIZE);
    for (index, sample) in samples.iter().enumerate() {
        assert_eq!(*sample, wave_sample(start + index as i64, period, scale));
    }
}

fn assert_session_after(app: &App, ticks: i64) {
    assert_eq!(app.window(), [ticks, 1800 + ticks]);
    assert_eq!(app.signal1().cursor(), 1800 + ticks);
    assert_eq!(app.signal2().cursor(), 1800 + ticks);
    assert_eq!(app.signal3().cursor(), 1800 + ticks);
    assert_window_starts_at(app.data1(), ticks, 300, 18);
    assert_window_starts_at(app.data2(), ticks, 1500, 15);
    assert_window_starts_at(app.data3(), ticks, 1800, 10);
}

#[test]
fn signal_parameters_are_five_twenty_five_and_thirty_minutes() {
    assert_eq!((BREAK_PERIOD, BREAK_SCALE), (300, 18));
    assert_eq!((WORK_PERIOD, WORK_SCALE), (1500, 15));
    assert_eq!((LUNCH_PERIOD, LUNCH_SCALE), (1800, 10));
    assert_eq!(SESSION_END, 3600);
    assert_eq!(SESSION_END, 2 * WINDOW_SIZE as i64);
}

#[test]
fn new_session_has_full_windows_and_clock_at_zero() {
    let app = App::new();
    assert_eq!(app.window(), [0, 1800]);
    assert!(!app.is_complete());
    assert_eq!(app.data1().len(), 1800);
    assert_eq!(app.data2().len(), 1800);
    assert_eq!(app.data3().len(), 1800);
    assert_eq!(app.data1().get(0), Some(wave_sample(0, 300, 18)));
    assert_eq!(app.data2().get(0), Some(wave_sample(0, 1500, 15)));
    assert_eq!(app.data3().get(0), Some(wave_sample(0, 1800, 10)));
    assert_eq!(app.data1().get(1799), Some(wave_sample(1799, 300, 18)));
    assert_session_after(&app, 0);
}

#[test]
fn new_session_signals_have_drawn_one_window() {
    let app = App::new();
    let mut expected = SinSignal::new(1, 300, 18);
    Window::fill(&mut expected);
    assert_eq!(*app.signal1(), expected);
    assert_eq!(app.signal2().interval(), 1);
    assert_eq!(app.signal2().period(), 1500);
    assert_eq!(app.signal2().scale(), 15);
    assert_eq!(app.signal3().period(), 1800);
    assert_eq!(app.signal3().scale(), 10);
}

#[test]
fn on_tick_slides_every_window_by_one() {
    let mut app = App::new();
    let before = app.data2().to_vec();
    app.on_tick();
    let after = app.data2().to_vec();
    assert_eq!(after[..1799], before[1..]);
    assert_eq!(after[1799], wave_sample(1800, 1500, 15));
    assert_session_after(&app, 1);
}

#[test]
fn windows_keep_their_size_over_many_ticks() {
    let mut app = App::new();
    for _ in 0..5000 {
        app.on_tick();
        assert_eq!(app.data1().len(), WINDOW_SIZE);
        assert_eq!(app.data2().len(), WINDOW_SIZE);
        assert_eq!(app.data3().len(), WINDOW_SIZE);
    }
    assert_eq!(app.data1().to_vec().len(), WINDOW_SIZE);
    assert_eq!(app.data2().to_vec().len(), WINDOW_SIZE);
    assert_eq!(app.data3().to_vec().len(), WINDOW_SIZE);
}

#[test]
fn clock_after_n_ticks_spans_n_to_window_size_plus_n() {
    let mut app = App::new();
    for n in 0..4000 {
        assert_eq!(app.window(), [n, 1800 + n]);
        app.on_tick();
    }
    assert_eq!(app.window(), [4000, 5800]);
}

#[test]
fn session_after_some_ticks_shows_the_samples_from_there() {
    let mut app = App::new();
    for _ in 0..125 {
        app.on_tick();
    }
    assert_session_after(&app, 125);
    for _ in 125..2500 {
        app.on_tick();
    }
    assert_session_after(&app, 2500);
}

#[test]
fn on_tick_alone_never_starts_afresh() {
    let mut app = App::new();
    for _ in 0..1800 {
        assert!(!app.is_complete());
        app.on_tick();
    }
    assert_eq!(app.window(), [1800, 3600]);
    assert!(app.is_complete());
    app.on_tick();
    assert_eq!(app.window(), [1801, 3601]);
    assert!(!app.is_complete());
}

#[test]
fn step_is_a_tick_while_the_session_runs() {
    let mut stepped = App::new();
    let mut ticked = App::new();
    for _ in 0..1799 {
        stepped.step();
        ticked.on_tick();
        assert_eq!(stepped.window(), ticked.window());
    }
    assert_eq!(stepped.data3().to_vec(), ticked.data3().to_vec());
    assert_eq!(stepped.signal3(), ticked.signal3());
}

#[test]
fn session_restarts_when_the_clock_reaches_its_end() {
    let mut app = App::new();
    for _ in 0..1799 {
        app.step();
    }
    assert_eq!(app.window(), [1799, 3599]);
    assert_session_after(&app, 1799);
    app.step();
    assert_eq!(app.window(), [0, 1800]);
    assert_session_after(&app, 0);
    let fresh = App::new();
    assert_eq!(app.signal1(), fresh.signal1());
    assert_eq!(app.signal2(), fresh.signal2());
    assert_eq!(app.signal3(), fresh.signal3());
    assert_eq!(app.data1().to_vec(), fresh.data1().to_vec());
    assert_eq!(app.data2().to_vec(), fresh.data2().to_vec());
    assert_eq!(app.data3().to_vec(), fresh.data3().to_vec());
}

#[test]
fn session_restarts_every_window_size_ticks() {
    let mut app = App::new();
    let mut restarts = Vec::new();
    for tick in 1..=7200 {
        app.step();
        if app.window() == [0, 1800] {
            restarts.push(tick);
        }
        assert_eq!(app.window(), [tick % 1800, 1800 + tick % 1800]);
        assert_eq!(restarts.len() as i64, tick / 1800);
        assert!(app.window()[1] < SESSION_END);
    }
    assert_eq!(restarts, vec![1800, 3600, 5400, 7200]);
}

#[test]
fn step_past_the_end_goes_on_ticking() {
    let mut app = App::new();
    for _ in 0..1800 {
        app.on_tick();
    }
    app.step();
    assert_eq!(app.window(), [1801, 3601]);
}
