use vstd::prelude::*;

verus! {

/// The last readings of a sensor, at most `samples_to_average` of them once a reading has
/// been added, oldest first.
pub struct SampleWindow<T> {
    samples: Vec<T>,
    samples_to_average: usize,
}

/// What the window holds after adding `x`: the newest readings, as many as the window keeps.
pub open spec fn kept<T>(before: Seq<T>, x: T, window: usize) -> Seq<T> {
    let all = before.push(x);
    if all.len() > window {
        all.skip(all.len() - window)
    } else {
        all
    }
}

impl<T: Copy> SampleWindow<T> {
    pub closed spec fn samples(&self) -> Seq<T> {
        self.samples@
    }

    pub closed spec fn window(&self) -> usize {
        self.samples_to_average
    }

    /// An empty window of the given size.
    pub fn new(samples_to_average: usize) -> (w: Self)
        ensures
            w.samples() == Seq::<T>::empty(),
            w.window() == samples_to_average,
    {
        SampleWindow { samples: Vec::new(), samples_to_average }
    }

    /// Adds a reading and drops the oldest ones beyond the window size.
    pub fn push(&mut self, x: T)
        requires
            old(self).samples().len() < usize::MAX,
        ensures
            final(self).samples() == kept(old(self).samples(), x, old(self).window()),
            final(self).window() == old(self).window(),
    {
        self.samples.push(x);
        if self.samples.len() > self.samples_to_average {
            let drop = self.samples.len() - self.samples_to_average;
            let mut rest: Vec<T> = Vec::new();
            let mut i: usize = drop;
            while i < self.samples.len()
                invariant
                    drop <= i <= self.samples@.len(),
                    rest@ == self.samples@.subrange(drop as int, i as int),
                decreases self.samples@.len() - i,
            {
                rest.push(self.samples[i]);
                proof {
                    assert(rest@ =~= self.samples@.subrange(drop as int, i as int + 1));
                }
                i = i + 1;
            }
            proof {
                assert(rest@ =~= self.samples@.skip(drop as int));
            }
            self.samples = rest;
        }
    }

    /// Forgets every reading.
    pub fn clear(&mut self)
        ensures
            final(self).samples() == Seq::<T>::empty(),
            final(self).window() == old(self).window(),
    {
        self.samples.clear();
    }

    /// Changes how many readings are kept; the readings already held stay until the next one.
    pub fn set_window(&mut self, samples_to_average: usize)
        ensures
            final(self).samples() == old(self).samples(),
            final(self).window() == samples_to_average,
    {
        self.samples_to_average = samples_to_average;
    }

    /// The readings held, oldest first.
    pub fn as_slice(&self) -> (s: &[T])
        ensures
            s@ == self.samples(),
    {
        self.samples.as_slice()
    }
}

} // verus!
