//! The periodic signals and the samples they emit.
//!
//! A signal is a sine wave sampled once per step. Its heights are irrational
//! almost everywhere, so a sample does not hold a rounded number: it holds the
//! three integers that determine the height exactly, and whoever draws the
//! sample evaluates the sine. Everything that is decided about a sample (its
//! tick, whether it lies on the flat stretch before time zero, the phase it is
//! taken at) is decided here.

use vstd::prelude::*;

use crate::WINDOW_SIZE;

verus! {

/// The height of a wave at one tick, as a mathematical value.
pub enum Level {
    /// Exactly zero.
    Zero,
    /// `scale * sin(2π * offset / period)`.
    Sine { scale: int, offset: int, period: int },
}

/// One point of a wave: the tick it was taken at and the height there.
pub struct Point {
    pub x: int,
    pub y: Level,
}

/// The mathematical state of a signal generator.
pub struct Wave {
    /// Tick of the next sample.
    pub cursor: int,
    /// Ticks between two samples.
    pub step: int,
    /// Length of one full cycle, in ticks.
    pub period: int,
    /// Peak height.
    pub scale: int,
}

/// The point of the wave `(period, scale)` at tick `cursor`.
///
/// Before tick zero the wave is flat. From tick zero on, its phase runs
/// `WINDOW_SIZE` ticks behind the cursor, so that a window filled at start-up
/// already shows the wave as if it had been running for a whole window.
pub open spec fn point_at(cursor: int, period: int, scale: int) -> Point {
    Point {
        x: cursor,
        y: if cursor < 0 {
            Level::Zero
        } else {
            Level::Sine { scale, offset: cursor - WINDOW_SIZE, period }
        },
    }
}

impl Wave {
    /// The sample that the generator emits next.
    pub open spec fn sample(self) -> Point {
        point_at(self.cursor, self.period, self.scale)
    }

    /// The generator after `k` samples were drawn from it.
    pub open spec fn after(self, k: nat) -> Wave {
        Wave { cursor: self.cursor + k * self.step, ..self }
    }

    /// The generator after one sample was drawn from it.
    pub open spec fn advance(self) -> Wave {
        self.after(1)
    }

    /// The sample drawn after `k` earlier ones.
    pub open spec fn nth(self, k: nat) -> Point {
        self.after(k).sample()
    }

    /// The first `n` samples, in the order they are drawn.
    pub open spec fn samples(self, n: nat) -> Seq<Point> {
        Seq::new(n, |k: int| self.nth(k as nat))
    }

    /// Whether the cursor still fits the machine integer after `k` samples.
    pub open spec fn fits(self, k: nat) -> bool {
        i64::MIN <= self.cursor + k * self.step <= i64::MAX
    }
}

/// Drawing no sample leaves the generator as it is.
pub proof fn lemma_after_zero(wave: Wave)
    ensures
        wave.after(0) == wave,
{
    assert(0 * wave.step == 0);
}

/// Drawing `j` samples and then `k` more is drawing `j + k`.
pub proof fn lemma_after_after(wave: Wave, j: nat, k: nat)
    ensures
        wave.after(j).after(k) == wave.after(j + k),
{
    let step = wave.step;
    assert(j * step + k * step == (j + k) * step) by (nonlinear_arith);
}

/// What a generator emits is a function of its cursor alone: its sample
/// number `k` is the point of its wave at tick `cursor + k * step`. So two
/// generators that agree on cursor, step, period and scale emit the same
/// samples, however many are drawn.
pub proof fn lemma_same_wave_same_samples(a: Wave, b: Wave, n: nat)
    requires
        a.cursor == b.cursor,
        a.step == b.step,
        a.period == b.period,
        a.scale == b.scale,
    ensures
        a.samples(n) == b.samples(n),
        a.after(n) == b.after(n),
        forall|k: nat| a.nth(k) == b.nth(k),
        forall|k: nat| #[trigger] a.nth(k) == point_at(a.cursor + k * a.step, a.period, a.scale),
{
}

/// Between two numbers of samples after which the cursor fits the machine
/// integer, it fits after every number of samples.
pub proof fn lemma_fits_between(wave: Wave, k: nat, n: nat)
    requires
        k <= n,
        wave.fits(0),
        wave.fits(n),
    ensures
        wave.fits(k),
{
    let step = wave.step;
    assert(0 <= k * step <= n * step || n * step <= k * step <= 0) by (nonlinear_arith)
        requires
            k <= n,
    ;
    assert(0 * step == 0);
}

/// Sliding a run of samples by one place gives the run that starts one
/// sample later.
pub proof fn lemma_samples_slide(wave: Wave, n: nat)
    requires
        n > 0,
    ensures
        wave.samples(n).skip(1).push(wave.nth(n)) == wave.advance().samples(n),
{
    let slid = wave.samples(n).skip(1).push(wave.nth(n));
    let later = wave.advance().samples(n);
    assert forall|k: int| 0 <= k < n implies slid[k] == later[k] by {
        lemma_after_after(wave, 1, k as nat);
    }
    assert(slid =~= later);
}

/// The height of a sample, held exactly.
#[derive(Clone, Copy, Debug, PartialEq, Eq)]
pub enum Amplitude {
    /// Exactly zero.
    Zero,
    /// `scale * sin(2π * offset / period)`.
    Sine { scale: i64, offset: i64, period: i64 },
}

impl View for Amplitude {
    type V = Level;

    open spec fn view(&self) -> Level {
        match *self {
            Amplitude::Zero => Level::Zero,
            Amplitude::Sine { scale, offset, period } => Level::Sine {
                scale: scale as int,
                offset: offset as int,
                period: period as int,
            },
        }
    }
}

/// One sample of a signal: the tick it was generated at and the height there.
#[derive(Clone, Copy, Debug, PartialEq, Eq)]
pub struct Sample {
    pub x: i64,
    pub y: Amplitude,
}

impl View for Sample {
    type V = Point;

    open spec fn view(&self) -> Point {
        Point { x: self.x as int, y: self.y@ }
    }
}

/// A generator of the samples of one sine wave.
#[derive(Clone, Copy, Debug, PartialEq, Eq)]
pub struct SinSignal {
    x: i64,
    interval: i64,
    period: i64,
    scale: i64,
}

impl View for SinSignal {
    type V = Wave;

    closed spec fn view(&self) -> Wave {
        Wave {
            cursor: self.x as int,
            step: self.interval as int,
            period: self.period as int,
            scale: self.scale as int,
        }
    }
}

/// The points that a sequence of samples stands for.
pub open spec fn points(samples: Seq<Sample>) -> Seq<Point> {
    samples.map_values(|s: Sample| s@)
}

impl SinSignal {
    /// The state of a generator is made of machine integers.
    pub proof fn lemma_bounded(self)
        ensures
            i64::MIN <= self@.cursor <= i64::MAX,
            i64::MIN <= self@.step <= i64::MAX,
            i64::MIN <= self@.period <= i64::MAX,
            i64::MIN <= self@.scale <= i64::MAX,
    {
    }

    /// A generator at tick zero that moves `interval` ticks per sample along a
    /// wave of the given period and peak height.
    pub fn new(interval: i64, period: i64, scale: i64) -> (signal: SinSignal)
        ensures
            signal@ == (Wave {
                cursor: 0,
                step: interval as int,
                period: period as int,
                scale: scale as int,
            }),
    {
        SinSignal { x: 0, interval, period, scale }
    }

    /// Emits the sample at the cursor and moves the cursor one step on.
    pub fn next(&mut self) -> (sample: Sample)
        requires
            old(self)@.fits(1),
        ensures
            sample@ == old(self)@.sample(),
            old(self)@.cursor < 0 ==> sample.y == Amplitude::Zero,
            final(self)@ == old(self)@.advance(),
        no_unwind
    {
        let y = if self.x < 0 {
            Amplitude::Zero
        } else {
            Amplitude::Sine {
                scale: self.scale,
                offset: self.x - WINDOW_SIZE as i64,
                period: self.period,
            }
        };
        let sample = Sample { x: self.x, y };
        self.x = self.x + self.interval;
        sample
    }

    /// Tick of the next sample.
    pub fn cursor(&self) -> (x: i64)
        ensures
            x == self@.cursor,
    {
        self.x
    }

    /// Ticks between two samples.
    pub fn interval(&self) -> (interval: i64)
        ensures
            interval == self@.step,
    {
        self.interval
    }

    /// Length of one full cycle, in ticks.
    pub fn period(&self) -> (period: i64)
        ensures
            period == self@.period,
    {
        self.period
    }

    /// Peak height.
    pub fn scale(&self) -> (scale: i64)
        ensures
            scale == self@.scale,
    {
        self.scale
    }
}

} // verus!
