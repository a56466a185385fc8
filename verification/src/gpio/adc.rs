use vstd::prelude::*;

verus! {

/// The sum of the first (temperature) readings of a list of reading pairs.
pub open spec fn sum_first(s: Seq<(u16, u16)>) -> int
    decreases s.len(),
{
    if s.len() == 0 {
        0
    } else {
        sum_first(s.drop_last()) + s.last().0
    }
}

/// The sum of the second (pressure) readings of a list of reading pairs.
pub open spec fn sum_second(s: Seq<(u16, u16)>) -> int
    decreases s.len(),
{
    if s.len() == 0 {
        0
    } else {
        sum_second(s.drop_last()) + s.last().1
    }
}

proof fn lemma_sums_bounded(s: Seq<(u16, u16)>)
    ensures
        0 <= sum_first(s) <= s.len() * 65535,
        0 <= sum_second(s) <= s.len() * 65535,
    decreases s.len(),
{
    if s.len() > 0 {
        lemma_sums_bounded(s.drop_last());
    }
}

/// Raw readings of the temperature and pressure channels, collected until there are more
/// than `samples_to_average` of them.
pub struct AdcWindow {
    samples: Vec<(u16, u16)>,
    samples_to_average: usize,
}

impl AdcWindow {
    /// The readings collected so far, oldest first.
    pub closed spec fn readings(&self) -> Seq<(u16, u16)> {
        self.samples@
    }

    pub closed spec fn window(&self) -> usize {
        self.samples_to_average
    }

    /// The window's invariant: it never holds more than the window size.
    pub closed spec fn wf(&self) -> bool {
        self.samples@.len() <= self.samples_to_average && self.samples_to_average <= 65536
    }

    /// An empty collection that averages over more than `samples` readings.
    pub fn new(samples: usize) -> (w: AdcWindow)
        requires
            samples <= 65536,
        ensures
            w.wf(),
            w.readings() == Seq::<(u16, u16)>::empty(),
            w.window() == samples,
    {
        AdcWindow { samples: Vec::new(), samples_to_average: samples }
    }

    /// Adds one reading of each channel. Once the collection holds more readings than the
    /// window, it returns the two sums and the count, and starts over.
    pub fn read(&mut self, raw_temperature: u16, raw_pressure: u16) -> (r: Option<(u32, u32, usize)>)
        requires
            old(self).wf(),
        ensures
            final(self).wf(),
            final(self).window() == old(self).window(),
            ({
                let all = old(self).readings().push((raw_temperature, raw_pressure));
                if all.len() > old(self).window() {
                    &&& r == Some(((sum_first(all) as u32), (sum_second(all) as u32), all.len() as usize))
                    &&& final(self).readings() == Seq::<(u16, u16)>::empty()
                } else {
                    &&& r is None
                    &&& final(self).readings() == all
                }
            }),
    {
        self.samples.push((raw_temperature, raw_pressure));
        if self.samples.len() > self.samples_to_average {
            let mut sum_t: u32 = 0;
            let mut sum_p: u32 = 0;
            let mut i: usize = 0;
            while i < self.samples.len()
                invariant
                    i <= self.samples@.len(),
                    self.samples@.len() <= 65537,
                    sum_t == sum_first(self.samples@.take(i as int)),
                    sum_p == sum_second(self.samples@.take(i as int)),
                decreases self.samples@.len() - i,
            {
                proof {
                    assert(self.samples@.take(i as int + 1).drop_last() =~= self.samples@.take(i as int));
                    lemma_sums_bounded(self.samples@.take(i as int + 1));
                    assert((i + 1) * 65535 <= 65537 * 65535) by (nonlinear_arith)
                        requires i + 1 <= 65537;
                }
                let (t, p) = self.samples[i];
                sum_t = sum_t + t as u32;
                sum_p = sum_p + p as u32;
                i = i + 1;
            }
            proof {
                assert(self.samples@.take(self.samples@.len() as int) =~= self.samples@);
            }
            let count = self.samples.len();
            self.samples.clear();
            Some((sum_t, sum_p, count))
        } else {
            None
        }
    }
}

} // verus!
