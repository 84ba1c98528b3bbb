//! The state of one timer session: three signals, their windows and the clock.

use vstd::prelude::*;

use crate::signal::{
    lemma_after_after, lemma_after_zero, lemma_samples_slide, Point, SinSignal, Wave,
};
use crate::window::Window;
use crate::WINDOW_SIZE;

verus! {

/// Ticks in a minute.
pub const MINUTE: i64 = 60;

/// Cycle length of the break signal: five minutes.
pub const BREAK_PERIOD: i64 = 5 * MINUTE;

/// Peak height of the break signal.
pub const BREAK_SCALE: i64 = 18;

/// Cycle length of the work signal: twenty-five minutes.
pub const WORK_PERIOD: i64 = 25 * MINUTE;

/// Peak height of the work signal.
pub const WORK_SCALE: i64 = 15;

/// Cycle length of the lunch signal: thirty minutes.
pub const LUNCH_PERIOD: i64 = 30 * MINUTE;

/// Peak height of the lunch signal.
pub const LUNCH_SCALE: i64 = 10;

/// Where the right edge of the clock stands when a session is complete.
pub const SESSION_END: i64 = 3600;

/// The break signal as a session starts it.
pub open spec fn break_wave() -> Wave {
    Wave { cursor: 0, step: 1, period: BREAK_PERIOD as int, scale: BREAK_SCALE as int }
}

/// The work signal as a session starts it.
pub open spec fn work_wave() -> Wave {
    Wave { cursor: 0, step: 1, period: WORK_PERIOD as int, scale: WORK_SCALE as int }
}

/// The lunch signal as a session starts it.
pub open spec fn lunch_wave() -> Wave {
    Wave { cursor: 0, step: 1, period: LUNCH_PERIOD as int, scale: LUNCH_SCALE as int }
}

/// The mathematical state of a session.
pub struct Session {
    pub signal1: Wave,
    pub data1: Seq<Point>,
    pub signal2: Wave,
    pub data2: Seq<Point>,
    pub signal3: Wave,
    pub data3: Seq<Point>,
    /// Left and right edge of the time axis.
    pub window: (int, int),
}

impl Session {
    /// A session as it starts: every window holds the first `WINDOW_SIZE`
    /// samples of its signal and the clock spans `[0, WINDOW_SIZE]`.
    pub open spec fn initial() -> Session {
        Session {
            signal1: break_wave().after(WINDOW_SIZE as nat),
            data1: break_wave().samples(WINDOW_SIZE as nat),
            signal2: work_wave().after(WINDOW_SIZE as nat),
            data2: work_wave().samples(WINDOW_SIZE as nat),
            signal3: lunch_wave().after(WINDOW_SIZE as nat),
            data3: lunch_wave().samples(WINDOW_SIZE as nat),
            window: (0, WINDOW_SIZE as int),
        }
    }

    /// The session one tick later: every window has lost its oldest sample
    /// and gained the next one of its signal, and both edges of the clock
    /// have moved by one.
    pub open spec fn tick(self) -> Session {
        Session {
            signal1: self.signal1.advance(),
            data1: self.data1.skip(1).push(self.signal1.sample()),
            signal2: self.signal2.advance(),
            data2: self.data2.skip(1).push(self.signal2.sample()),
            signal3: self.signal3.advance(),
            data3: self.data3.skip(1).push(self.signal3.sample()),
            window: (self.window.0 + 1, self.window.1 + 1),
        }
    }

    /// A fresh session after `n` ticks.
    pub open spec fn after(n: nat) -> Session
        decreases n,
    {
        if n == 0 {
            Session::initial()
        } else {
            Session::after((n - 1) as nat).tick()
        }
    }

    /// The session whose windows start at sample `n` of their signals.
    pub open spec fn at(n: nat) -> Session {
        Session {
            signal1: break_wave().after(n + WINDOW_SIZE as nat),
            data1: break_wave().after(n).samples(WINDOW_SIZE as nat),
            signal2: work_wave().after(n + WINDOW_SIZE as nat),
            data2: work_wave().after(n).samples(WINDOW_SIZE as nat),
            signal3: lunch_wave().after(n + WINDOW_SIZE as nat),
            data3: lunch_wave().after(n).samples(WINDOW_SIZE as nat),
            window: (n as int, n + WINDOW_SIZE),
        }
    }

    /// Whether the right edge of the clock has reached the end of a session.
    pub open spec fn is_complete(self) -> bool {
        self.window.1 == SESSION_END
    }

    /// One tick of the running timer: the session moves one tick on, and if
    /// that completes it, a fresh session takes its place.
    pub open spec fn step(self) -> Session {
        if self.tick().is_complete() {
            Session::initial()
        } else {
            self.tick()
        }
    }

    /// The session that the running timer holds after `n` ticks.
    pub open spec fn run(n: nat) -> Session
        decreases n,
    {
        if n == 0 {
            Session::initial()
        } else {
            Session::run((n - 1) as nat).step()
        }
    }

    /// How many times the running timer has started afresh in `n` ticks.
    pub open spec fn resets(n: nat) -> nat
        decreases n,
    {
        if n == 0 {
            0
        } else if Session::run((n - 1) as nat).tick().is_complete() {
            Session::resets((n - 1) as nat) + 1
        } else {
            Session::resets((n - 1) as nat)
        }
    }
}

/// What a tick does to one signal and its window of `size` samples that
/// starts at sample `n`.
proof fn lemma_tick_wave(wave: Wave, n: nat, size: nat)
    requires
        size > 0,
    ensures
        wave.after(n + size).advance() == wave.after(n + 1 + size),
        wave.after(n).samples(size).skip(1).push(wave.after(n + size).sample())
            == wave.after(n + 1).samples(size),
{
    lemma_after_after(wave, n + size, 1);
    lemma_after_after(wave, n, size);
    lemma_after_after(wave, n, 1);
    lemma_samples_slide(wave.after(n), size);
}

/// A tick moves the session that starts at sample `n` to the one that starts
/// at sample `n + 1`.
pub proof fn lemma_tick_at(n: nat)
    ensures
        Session::at(n).tick() == Session::at(n + 1),
{
    let size = WINDOW_SIZE as nat;
    lemma_tick_wave(break_wave(), n, size);
    lemma_tick_wave(work_wave(), n, size);
    lemma_tick_wave(lunch_wave(), n, size);
}

/// After `n` ticks the windows of a fresh session start at sample `n`.
pub proof fn lemma_after_is_at(n: nat)
    ensures
        Session::after(n) == Session::at(n),
    decreases n,
{
    if n > 0 {
        lemma_after_is_at((n - 1) as nat);
        lemma_tick_at((n - 1) as nat);
    } else {
        lemma_after_zero(break_wave());
        lemma_after_zero(work_wave());
        lemma_after_zero(lunch_wave());
    }
}

/// After `n` ticks without a restart, every window of a session still holds
/// exactly `WINDOW_SIZE` samples, namely those that its signal emits from
/// sample `n` on, and the clock spans `[n, WINDOW_SIZE + n]`.
pub proof fn lemma_session_after_ticks(n: nat)
    ensures
        Session::after(n).data1.len() == WINDOW_SIZE,
        Session::after(n).data2.len() == WINDOW_SIZE,
        Session::after(n).data3.len() == WINDOW_SIZE,
        Session::after(n).window == (n as int, WINDOW_SIZE + n),
        Session::after(n) == Session::at(n),
{
    lemma_after_is_at(n);
}

/// The running timer starts afresh exactly on the ticks that bring the right
/// edge of the clock to `SESSION_END`, which is twice the window's size, and
/// these are the ticks whose number is a multiple of `WINDOW_SIZE`. So after
/// `n` ticks it has started afresh `n / WINDOW_SIZE` times, it holds the
/// session that a fresh one becomes in `n % WINDOW_SIZE` ticks, and its clock
/// spans `[n % WINDOW_SIZE, WINDOW_SIZE + n % WINDOW_SIZE]`: back at
/// `[0, WINDOW_SIZE]` after every restart. Its windows hold `WINDOW_SIZE`
/// samples throughout.
pub proof fn lemma_run(n: nat)
    ensures
        SESSION_END == 2 * WINDOW_SIZE,
        Session::run(n) == Session::after(n % (WINDOW_SIZE as nat)),
        Session::run(n).data1.len() == WINDOW_SIZE,
        Session::run(n).data2.len() == WINDOW_SIZE,
        Session::run(n).data3.len() == WINDOW_SIZE,
        Session::run(n).window == (
            (n % (WINDOW_SIZE as nat)) as int,
            WINDOW_SIZE + n % (WINDOW_SIZE as nat),
        ),
        Session::run(n).window.1 < SESSION_END,
        Session::run(n).tick().is_complete() <==> (n + 1) % (WINDOW_SIZE as nat) == 0,
        Session::resets(n) == n / (WINDOW_SIZE as nat),
    decreases n,
{
    let size = WINDOW_SIZE as nat;
    lemma_after_is_at(n % size);
    if n > 0 {
        let before = (n - 1) as nat;
        lemma_run(before);
        lemma_after_is_at(before % size);
        lemma_tick_at(before % size);
        lemma_after_is_at(0);
    }
}

/// The state of one timer session.
pub struct App {
    signal1: SinSignal,
    data1: Window,
    signal2: SinSignal,
    data2: Window,
    signal3: SinSignal,
    data3: Window,
    window: [i64; 2],
}

impl View for App {
    type V = Session;

    closed spec fn view(&self) -> Session {
        Session {
            signal1: self.signal1@,
            data1: self.data1@,
            signal2: self.signal2@,
            data2: self.data2@,
            signal3: self.signal3@,
            data3: self.data3@,
            window: (self.window[0] as int, self.window[1] as int),
        }
    }
}

/// Moves three signals, their windows and the clock one tick on, as
/// [`Session::tick`] says.
fn advance(
    signal1: &mut SinSignal,
    data1: &mut Window,
    signal2: &mut SinSignal,
    data2: &mut Window,
    signal3: &mut SinSignal,
    data3: &mut Window,
    window: &mut [i64; 2],
)
    requires
        old(signal1)@.fits(1),
        old(signal2)@.fits(1),
        old(signal3)@.fits(1),
        old(window)[0] < i64::MAX,
        old(window)[1] < i64::MAX,
    ensures
        final(signal1)@ == old(signal1)@.advance(),
        final(data1)@ == old(data1)@.skip(1).push(old(signal1)@.sample()),
        final(signal2)@ == old(signal2)@.advance(),
        final(data2)@ == old(data2)@.skip(1).push(old(signal2)@.sample()),
        final(signal3)@ == old(signal3)@.advance(),
        final(data3)@ == old(data3)@.skip(1).push(old(signal3)@.sample()),
        final(window)[0] == old(window)[0] + 1,
        final(window)[1] == old(window)[1] + 1,
    no_unwind
{
    let sample1 = signal1.next();
    data1.slide(sample1);
    let sample2 = signal2.next();
    data2.slide(sample2);
    let sample3 = signal3.next();
    data3.slide(sample3);
    *window = [window[0] + 1, window[1] + 1];
}

impl App {
    /// What holds of every session: its state is that of a fresh session
    /// after some number of ticks, which the left edge of the clock counts.
    #[verifier::type_invariant]
    pub open spec fn wf(&self) -> bool {
        &&& 0 <= self@.window.0
        &&& self@ == Session::after(self@.window.0 as nat)
    }

    /// In every session each window holds exactly `WINDOW_SIZE` samples, the
    /// clock spans exactly `WINDOW_SIZE` ticks from a left edge that is not
    /// negative, and every signal moves by one tick per sample and stands at
    /// the right edge of the clock.
    pub proof fn lemma_wf(self)
        requires
            self.wf(),
        ensures
            self@.data1.len() == WINDOW_SIZE,
            self@.data2.len() == WINDOW_SIZE,
            self@.data3.len() == WINDOW_SIZE,
            0 <= self@.window.0,
            self@.window.1 - self@.window.0 == WINDOW_SIZE,
            self@.signal1 == (Wave { cursor: self@.window.1, ..break_wave() }),
            self@.signal2 == (Wave { cursor: self@.window.1, ..work_wave() }),
            self@.signal3 == (Wave { cursor: self@.window.1, ..lunch_wave() }),
            self@ == Session::at(self@.window.0 as nat),
    {
        lemma_after_is_at(self@.window.0 as nat);
    }

    /// A session as it starts.
    pub fn new() -> (app: App)
        ensures
            app@ == Session::initial(),
            app@.window == (0int, WINDOW_SIZE as int),
    {
        let mut signal1 = SinSignal::new(1, BREAK_PERIOD, BREAK_SCALE);
        let mut signal2 = SinSignal::new(1, WORK_PERIOD, WORK_SCALE);
        let mut signal3 = SinSignal::new(1, LUNCH_PERIOD, LUNCH_SCALE);
        let data1 = Window::fill(&mut signal1);
        let data2 = Window::fill(&mut signal2);
        let data3 = Window::fill(&mut signal3);
        App { signal1, data1, signal2, data2, signal3, data3, window: [0, WINDOW_SIZE as i64] }
    }

    /// Moves the session one tick on: every window drops its oldest sample
    /// and takes the next one of its signal, and both edges of the clock move
    /// by one. No window changes its length.
    pub fn on_tick(&mut self)
        requires
            old(self)@.window.1 < i64::MAX,
        ensures
            final(self)@ == old(self)@.tick(),
            final(self)@.window == (old(self)@.window.0 + 1, old(self)@.window.1 + 1),
            final(self)@.data1.len() == WINDOW_SIZE,
            final(self)@.data2.len() == WINDOW_SIZE,
            final(self)@.data3.len() == WINDOW_SIZE,
    {
        proof {
            use_type_invariant(&*self);
            self.lemma_wf();
            lemma_after_is_at((self@.window.0 + 1) as nat);
            lemma_tick_at(self@.window.0 as nat);
        }
        advance(
            &mut self.signal1,
            &mut self.data1,
            &mut self.signal2,
            &mut self.data2,
            &mut self.signal3,
            &mut self.data3,
            &mut self.window,
        );
    }

    /// One tick of the running timer: moves the session one tick on, and
    /// puts a fresh session in its place if that completes it. A fresh
    /// session comes exactly when the tick brings the right edge of the
    /// clock to `SESSION_END`.
    pub fn step(&mut self)
        requires
            old(self)@.window.1 < i64::MAX,
        ensures
            final(self)@ == old(self)@.step(),
            final(self)@ == Session::initial() <==> old(self)@.window.1 + 1 == SESSION_END,
            !final(self)@.is_complete(),
    {
        proof {
            use_type_invariant(&*self);
            self.lemma_wf();
        }
        self.on_tick();
        if self.is_complete() {
            *self = App::new();
        }
    }

    /// Left and right edge of the time axis.
    pub fn window(&self) -> (bounds: [i64; 2])
        ensures
            bounds[0] == self@.window.0,
            bounds[1] == self@.window.1,
    {
        self.window
    }

    /// Whether the right edge of the clock has reached the end of a session.
    pub fn is_complete(&self) -> (complete: bool)
        ensures
            complete == self@.is_complete(),
    {
        self.window[1] == SESSION_END
    }

    /// The break signal.
    pub fn signal1(&self) -> (signal: &SinSignal)
        ensures
            signal@ == self@.signal1,
    {
        &self.signal1
    }

    /// The window of the break signal.
    pub fn data1(&self) -> (data: &Window)
        ensures
            data@ == self@.data1,
    {
        &self.data1
    }

    /// The work signal.
    pub fn signal2(&self) -> (signal: &SinSignal)
        ensures
            signal@ == self@.signal2,
    {
        &self.signal2
    }

    /// The window of the work signal.
    pub fn data2(&self) -> (data: &Window)
        ensures
            data@ == self@.data2,
    {
        &self.data2
    }

    /// The lunch signal.
    pub fn signal3(&self) -> (signal: &SinSignal)
        ensures
            signal@ == self@.signal3,
    {
        &self.signal3
    }

    /// The window of the lunch signal.
    pub fn data3(&self) -> (data: &Window)
        ensures
            data@ == self@.data3,
    {
        &self.data3
    }
}

} // verus!
