//! The sliding window of the most recent samples of one signal.
//!
//! A window always holds exactly `WINDOW_SIZE` samples. It is kept as a ring:
//! sliding it overwrites the oldest sample and moves the start of the ring, so
//! that a tick costs the same whatever the window's size.

use vstd::prelude::*;

use crate::signal::{
    lemma_after_after, lemma_after_zero, lemma_fits_between, points, Amplitude, Point, Sample,
    SinSignal,
};
use crate::WINDOW_SIZE;

verus! {

/// The `WINDOW_SIZE` most recent samples of one signal, oldest first.
pub struct Window {
    ring: Box<[Sample; WINDOW_SIZE]>,
    head: usize,
}

impl View for Window {
    type V = Seq<Point>;

    closed spec fn view(&self) -> Seq<Point> {
        Seq::new(WINDOW_SIZE as nat, |k: int| self.ring@[(self.head + k) % (WINDOW_SIZE as int)]@)
    }
}

impl Window {
    #[verifier::type_invariant]
    spec fn well_formed(self) -> bool {
        self.head < WINDOW_SIZE
    }

    /// A window holds exactly `WINDOW_SIZE` samples.
    pub proof fn lemma_len(self)
        ensures
            self@.len() == WINDOW_SIZE,
    {
    }

    /// Draws `WINDOW_SIZE` samples from the signal into a new window.
    pub fn fill(signal: &mut SinSignal) -> (window: Window)
        requires
            old(signal)@.fits(WINDOW_SIZE as nat),
        ensures
            window@ == old(signal)@.samples(WINDOW_SIZE as nat),
            final(signal)@ == old(signal)@.after(WINDOW_SIZE as nat),
    {
        let ghost start = signal@;
        let mut ring = Box::new([Sample { x: 0, y: Amplitude::Zero }; WINDOW_SIZE]);
        let mut drawn: usize = 0;
        proof {
            signal.lemma_bounded();
            lemma_after_zero(start);
        }
        while drawn < WINDOW_SIZE
            invariant
                drawn <= WINDOW_SIZE,
                start.fits(0),
                start.fits(WINDOW_SIZE as nat),
                signal@ == start.after(drawn as nat),
                forall|k: int| 0 <= k < drawn ==> (#[trigger] ring@[k])@ == start.nth(k as nat),
            decreases WINDOW_SIZE - drawn,
        {
            proof {
                lemma_fits_between(start, (drawn + 1) as nat, WINDOW_SIZE as nat);
                lemma_after_after(start, drawn as nat, 1);
            }
            let sample = signal.next();
            ring[drawn] = sample;
            drawn = drawn + 1;
        }
        let window = Window { ring, head: 0 };
        assert(window@ =~= start.samples(WINDOW_SIZE as nat));
        window
    }

    /// Drops the oldest sample and appends `sample` as the newest.
    pub fn slide(&mut self, sample: Sample)
        ensures
            final(self)@ == old(self)@.skip(1).push(sample@),
        no_unwind
    {
        proof {
            use_type_invariant(&*self);
        }
        self.ring[self.head] = sample;
        self.head = if self.head + 1 == WINDOW_SIZE {
            0
        } else {
            self.head + 1
        };
        assert(self@ =~= old(self)@.skip(1).push(sample@));
    }

    /// Number of samples in the window: always `WINDOW_SIZE`.
    pub fn len(&self) -> (len: usize)
        ensures
            len == WINDOW_SIZE,
            len == self@.len(),
    {
        WINDOW_SIZE
    }

    /// The sample `index` places after the oldest, if the window reaches that far.
    pub fn get(&self, index: usize) -> (sample: Option<Sample>)
        ensures
            index < WINDOW_SIZE ==> sample.is_some() && sample.unwrap()@ == self@[index as int],
            index >= WINDOW_SIZE ==> sample.is_none(),
    {
        proof {
            use_type_invariant(self);
        }
        if index < WINDOW_SIZE {
            Some(self.ring[(self.head + index) % WINDOW_SIZE])
        } else {
            None
        }
    }

    /// The samples of the window, oldest first.
    pub fn to_vec(&self) -> (samples: Vec<Sample>)
        ensures
            points(samples@) == self@,
    {
        proof {
            use_type_invariant(self);
        }
        let mut samples: Vec<Sample> = Vec::with_capacity(WINDOW_SIZE);
        let mut index: usize = self.head;
        while samples.len() < WINDOW_SIZE
            invariant
                self.head < WINDOW_SIZE,
                samples@.len() <= WINDOW_SIZE,
                index == (self.head + samples@.len()) % (WINDOW_SIZE as int),
                forall|k: int| 0 <= k < samples@.len() ==> (#[trigger] samples@[k])@ == self@[k],
            decreases WINDOW_SIZE - samples@.len(),
        {
            samples.push(self.ring[index]);
            index = if index + 1 == WINDOW_SIZE {
                0
            } else {
                index + 1
            };
        }
        assert(points(samples@) =~= self@);
        samples
    }
}

} // verus!
