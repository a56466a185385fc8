use vstd::prelude::*;
use std::time::Duration;

verus! {

/// The duration a test waits on the device's own clock. Time runs at its normal pace on the
/// device, so the duration is kept as it is (time is only dilated when simulating).
pub fn convert_to_dilated_time(duration: Duration) -> (r: Duration)
    ensures
        r == duration,
{
    duration
}

/// Where the boiler is in settling to a temperature before a measurement.
#[derive(Debug, Copy, Clone, PartialEq, Eq, Structural)]
pub enum SettlingState {
    Init,
    Cooling,
    Heating,
    Done,
}

/// The settling step: from the start the boiler cools when above the target and heats
/// otherwise; cooling is done once it is no longer above the target; heating turns to cooling
/// once it is above the target by more than the margin.
pub open spec fn settle(s: SettlingState, above_target: bool, above_margin: bool) -> SettlingState {
    match s {
        SettlingState::Init => if above_target {
            SettlingState::Cooling
        } else {
            SettlingState::Heating
        },
        SettlingState::Cooling => if !above_target {
            SettlingState::Done
        } else {
            SettlingState::Cooling
        },
        SettlingState::Heating => if above_margin {
            SettlingState::Cooling
        } else {
            SettlingState::Heating
        },
        SettlingState::Done => SettlingState::Done,
    }
}

impl SettlingState {
    /// Settling starts in `Init`.
    pub fn default() -> (s: SettlingState)
        ensures
            s == SettlingState::Init,
    {
        SettlingState::Init
    }

    /// The next settling state, given whether the temperature is above the target and
    /// whether it is above the target plus the margin.
    pub fn next(&self, above_target: bool, above_margin: bool) -> (r: SettlingState)
        ensures
            r == settle(*self, above_target, above_margin),
    {
        match self {
            SettlingState::Init => if above_target {
                SettlingState::Cooling
            } else {
                SettlingState::Heating
            },
            SettlingState::Cooling => if !above_target {
                SettlingState::Done
            } else {
                SettlingState::Cooling
            },
            SettlingState::Heating => if above_margin {
                SettlingState::Cooling
            } else {
                SettlingState::Heating
            },
            SettlingState::Done => SettlingState::Done,
        }
    }
}

/// Settling always ends through cooling: `Done` is only reached from `Cooling`, and it is
/// never left.
pub proof fn lemma_settling_ends_by_cooling(s: SettlingState, above_target: bool, above_margin: bool)
    ensures
        settle(s, above_target, above_margin) == SettlingState::Done ==> s == SettlingState::Done
            || s == SettlingState::Cooling,
        s == SettlingState::Done ==> settle(s, above_target, above_margin) == SettlingState::Done,
        settle(s, above_target, above_margin) != SettlingState::Init,
{
}

/// The phases of the heuristic auto-tuner, in the order it goes through them.
#[derive(Debug, Copy, Clone, PartialEq, Eq, Structural)]
pub enum TunerPhase {
    Init,
    MeasureAmbient,
    MeasureHeatingUp,
    MeasureSteadyState,
    Done,
}

/// How the test of the current phase came out on one step.
#[derive(Debug, Copy, Clone, PartialEq, Eq, Structural)]
pub enum TestOutcome {
    /// Still measuring.
    Busy,
    /// Measured, with everything the next phase needs.
    Finished,
    /// The test, or the estimate made from it, failed.
    Failed,
}

/// What the auto-tuner does after a step.
#[derive(Debug, Copy, Clone, PartialEq, Eq, Structural)]
pub enum PhaseStep {
    /// Stay in the current phase.
    Stay,
    /// Move on to the given phase.
    Advance(TunerPhase),
    /// Give up with the failure.
    Fail,
}

/// The position of a phase in the sequence.
pub open spec fn phase_index(p: TunerPhase) -> int {
    match p {
        TunerPhase::Init => 0,
        TunerPhase::MeasureAmbient => 1,
        TunerPhase::MeasureHeatingUp => 2,
        TunerPhase::MeasureSteadyState => 3,
        TunerPhase::Done => 4,
    }
}

/// The step of the phase sequence: setting up always moves on to measuring the ambient
/// temperature; each measuring phase stays while busy, moves to the next phase when its test
/// finishes and fails when it fails; `Done` stays done.
pub open spec fn phase_step(phase: TunerPhase, outcome: TestOutcome) -> PhaseStep {
    match phase {
        TunerPhase::Init => PhaseStep::Advance(TunerPhase::MeasureAmbient),
        TunerPhase::Done => PhaseStep::Stay,
        _ => match outcome {
            TestOutcome::Busy => PhaseStep::Stay,
            TestOutcome::Failed => PhaseStep::Fail,
            TestOutcome::Finished => PhaseStep::Advance(
                match phase {
                    TunerPhase::MeasureAmbient => TunerPhase::MeasureHeatingUp,
                    TunerPhase::MeasureHeatingUp => TunerPhase::MeasureSteadyState,
                    _ => TunerPhase::Done,
                },
            ),
        },
    }
}

/// The step the auto-tuner takes in `phase` when its test came out as `outcome`.
pub fn next_phase(phase: TunerPhase, outcome: TestOutcome) -> (r: PhaseStep)
    ensures
        r == phase_step(phase, outcome),
{
    match phase {
        TunerPhase::Init => PhaseStep::Advance(TunerPhase::MeasureAmbient),
        TunerPhase::Done => PhaseStep::Stay,
        _ => match outcome {
            TestOutcome::Busy => PhaseStep::Stay,
            TestOutcome::Failed => PhaseStep::Fail,
            TestOutcome::Finished => PhaseStep::Advance(
                match phase {
                    TunerPhase::MeasureAmbient => TunerPhase::MeasureHeatingUp,
                    TunerPhase::MeasureHeatingUp => TunerPhase::MeasureSteadyState,
                    _ => TunerPhase::Done,
                },
            ),
        },
    }
}

/// The auto-tuner goes through its phases in order, one at a time, and never leaves `Done`
/// nor fails there.
pub proof fn lemma_phases_in_order(phase: TunerPhase, outcome: TestOutcome)
    ensures
        phase_step(phase, outcome) matches PhaseStep::Advance(n) ==> phase_index(n) == phase_index(
            phase,
        ) + 1,
        phase == TunerPhase::Done ==> phase_step(phase, outcome) == PhaseStep::Stay,
        phase_step(phase, outcome) == PhaseStep::Fail ==> outcome == TestOutcome::Failed,
{
}

/// How many samples the heat-up test keeps.
pub const HEATUP_SAMPLES: usize = 16;

/// The samples of a heat-up test. While the temperature is low, the first three slots hold the
/// latest three readings; above half the target, readings are recorded from the first slot
/// on, every `sample_distance` test intervals. When the slots run out, every second sample is
/// dropped and the spacing doubles.
#[derive(Clone, Debug)]
pub struct HeatupSamples<T> {
    temperature_samples: Vec<T>,
    sample_count: usize,
    sample_distance: usize,
}

/// Whether `n` is a power of two: one, doubled any number of times.
pub open spec fn is_power_of_two(n: nat) -> bool
    decreases n,
{
    if n == 1 {
        true
    } else if n == 0 || n % 2 == 1 {
        false
    } else {
        is_power_of_two(n / 2)
    }
}

/// Doubling a power of two gives a power of two.
proof fn lemma_double_power_of_two(n: nat)
    requires
        is_power_of_two(n),
    ensures
        is_power_of_two(2 * n),
{
    assert(n >= 1);
    assert((2 * n) % 2 == 0);
    assert((2 * n) / 2 == n);
}

/// The slots after dropping every second sample: slot `i` of the first half takes slot `2i`.
pub open spec fn compacted<T>(s: Seq<T>) -> Seq<T> {
    Seq::new(s.len(), |i: int| if i < s.len() / 2 { s[2 * i] } else { s[i] })
}

impl<T: Copy> HeatupSamples<T> {
    pub closed spec fn samples(&self) -> Seq<T> {
        self.temperature_samples@
    }

    pub closed spec fn count(&self) -> usize {
        self.sample_count
    }

    pub closed spec fn distance(&self) -> usize {
        self.sample_distance
    }

    /// The invariant: sixteen slots, at most that many recorded, a spacing that is a power
    /// of two.
    pub closed spec fn wf(&self) -> bool {
        &&& self.temperature_samples@.len() == HEATUP_SAMPLES
        &&& self.sample_count <= HEATUP_SAMPLES
        &&& self.sample_distance >= 1
        &&& is_power_of_two(self.sample_distance as nat)
    }

    /// What the invariant gives callers: sixteen slots, at most sixteen samples recorded, and
    /// a spacing of one interval doubled some number of times.
    pub proof fn lemma_shape(&self)
        requires
            self.wf(),
        ensures
            self.samples().len() == HEATUP_SAMPLES,
            self.count() <= HEATUP_SAMPLES,
            self.distance() >= 1,
            is_power_of_two(self.distance() as nat),
    {
    }

    /// A new test at temperature `current`: the three rolling slots hold it, the other slots
    /// hold `fill`, nothing is recorded yet and the spacing is one interval.
    pub fn new(current: T, fill: T) -> (h: Self)
        ensures
            h.wf(),
            h.count() == 0,
            h.distance() == 1,
            forall|i: int| 0 <= i < 3 ==> h.samples()[i] == current,
            forall|i: int| 3 <= i < HEATUP_SAMPLES ==> h.samples()[i] == fill,
    {
        let mut temperature_samples: Vec<T> = Vec::new();
        let mut i: usize = 0;
        while i < HEATUP_SAMPLES
            invariant
                i <= HEATUP_SAMPLES,
                temperature_samples@.len() == i,
                forall|j: int| 0 <= j < i && j < 3 ==> temperature_samples@[j] == current,
                forall|j: int| 3 <= j < i ==> temperature_samples@[j] == fill,
            decreases HEATUP_SAMPLES - i,
        {
            if i < 3 {
                temperature_samples.push(current);
            } else {
                temperature_samples.push(fill);
            }
            i = i + 1;
        }
        HeatupSamples { temperature_samples, sample_count: 0, sample_distance: 1 }
    }

    /// Rolls a reading into the three rolling slots, dropping the oldest.
    pub fn shift_in(&mut self, current: T)
        requires
            old(self).wf(),
        ensures
            final(self).wf(),
            final(self).count() == old(self).count(),
            final(self).distance() == old(self).distance(),
            final(self).samples() == old(self).samples().update(0, old(self).samples()[1]).update(
                1,
                old(self).samples()[2],
            ).update(2, current),
    {
        let s1 = self.temperature_samples[1];
        let s2 = self.temperature_samples[2];
        self.temperature_samples.set(0, s1);
        self.temperature_samples.set(1, s2);
        self.temperature_samples.set(2, current);
    }

    /// Records a reading in the next slot, first halving the samples and doubling the spacing
    /// when every slot is used.
    pub fn record(&mut self, current: T)
        requires
            old(self).wf(),
            old(self).distance() * 2 <= usize::MAX,
        ensures
            final(self).wf(),
            old(self).count() < HEATUP_SAMPLES ==> {
                &&& final(self).samples() == old(self).samples().update(
                    old(self).count() as int,
                    current,
                )
                &&& final(self).count() == old(self).count() + 1
                &&& final(self).distance() == old(self).distance()
            },
            old(self).count() == HEATUP_SAMPLES ==> {
                &&& final(self).samples() == compacted(old(self).samples()).update(
                    (HEATUP_SAMPLES / 2) as int,
                    current,
                )
                &&& final(self).count() == HEATUP_SAMPLES / 2 + 1
                &&& final(self).distance() == old(self).distance() * 2
            },
    {
        if self.sample_count == self.temperature_samples.len() {
            let ghost before = self.temperature_samples@;
            let ghost distance = self.sample_distance;
            let half = self.temperature_samples.len() / 2;
            let mut i: usize = 0;
            while i < half
                invariant
                    half == HEATUP_SAMPLES / 2,
                    i <= half,
                    self.temperature_samples@.len() == HEATUP_SAMPLES,
                    before.len() == HEATUP_SAMPLES,
                    self.sample_count == HEATUP_SAMPLES,
                    self.sample_distance == distance,
                    distance * 2 <= usize::MAX,
                    is_power_of_two(distance as nat),
                    forall|j: int| 0 <= j < i ==> self.temperature_samples@[j] == before[2 * j],
                    forall|j: int| i <= j < HEATUP_SAMPLES ==> self.temperature_samples@[j] == before[j],
                decreases half - i,
            {
                let v = self.temperature_samples[i * 2];
                self.temperature_samples.set(i, v);
                i = i + 1;
            }
            proof {
                assert(self.temperature_samples@ =~= compacted(before));
            }
            proof {
                lemma_double_power_of_two(distance as nat);
            }
            self.sample_distance = self.sample_distance * 2;
            self.sample_count = self.sample_count / 2;
        }
        self.temperature_samples.set(self.sample_count, current);
        self.sample_count = self.sample_count + 1;
    }

    /// Ends the recording: fails when nothing was recorded, and otherwise drops the last
    /// sample when their number is even, so that there is a middle sample.
    pub fn finish(&mut self) -> (ok: bool)
        requires
            old(self).wf(),
        ensures
            final(self).wf(),
            ok == (old(self).count() > 0),
            final(self).samples() == old(self).samples(),
            final(self).distance() == old(self).distance(),
            final(self).count() == if old(self).count() > 0 && old(self).count() % 2 == 0 {
                (old(self).count() - 1) as usize
            } else {
                old(self).count()
            },
    {
        if self.sample_count == 0 {
            false
        } else {
            if self.sample_count % 2 == 0 {
                self.sample_count = self.sample_count - 1;
            }
            true
        }
    }

    /// The first, middle and last recorded samples, when at least three were recorded.
    pub fn get_3_samples(&self) -> (r: Option<(T, T, T)>)
        requires
            self.wf(),
        ensures
            self.count() < 3 ==> r is None,
            self.count() >= 3 ==> r == Some(
                (
                    self.samples()[0],
                    self.samples()[(self.count() - 1) / 2],
                    self.samples()[self.count() - 1],
                ),
            ),
    {
        if self.sample_count < 3 {
            return None;
        }
        let first = self.temperature_samples[0];
        let second = self.temperature_samples[(self.sample_count - 1) / 2];
        let third = self.temperature_samples[self.sample_count - 1];
        Some((first, second, third))
    }

    /// The number of test intervals between the first and the middle sample.
    pub fn get_interval(&self) -> (r: usize)
        requires
            self.wf(),
            self.distance() * (self.count() / 2) <= usize::MAX,
        ensures
            r == self.distance() * (self.count() / 2),
    {
        self.sample_distance * (self.sample_count / 2)
    }

    /// The number of samples recorded.
    pub fn sample_count(&self) -> (r: usize)
        ensures
            r == self.count(),
    {
        self.sample_count
    }

    /// The spacing of the recorded samples, in test intervals.
    pub fn sample_distance(&self) -> (r: usize)
        ensures
            r == self.distance(),
    {
        self.sample_distance
    }

    /// The sample in slot `i`.
    pub fn sample(&self, i: usize) -> (r: T)
        requires
            self.wf(),
            i < HEATUP_SAMPLES,
        ensures
            r == self.samples()[i as int],
    {
        self.temperature_samples[i]
    }
}

/// Settling is only done once the boiler is no longer above its target: while it is above
/// the target, cooling goes on. It starts by cooling exactly when the boiler is above the
/// target, heating never ends settling by itself, and heating gives way to cooling exactly
/// when the boiler is above the margin.
pub proof fn lemma_settling_done_only_below_target(s: SettlingState, above_target: bool, above_margin: bool)
    ensures
        settle(s, above_target, above_margin) == SettlingState::Done && s != SettlingState::Done
            ==> !above_target,
        s == SettlingState::Cooling && above_target ==> settle(s, above_target, above_margin)
            == SettlingState::Cooling,
        s == SettlingState::Cooling && !above_target ==> settle(s, above_target, above_margin)
            == SettlingState::Done,
        s == SettlingState::Init ==> (settle(s, above_target, above_margin)
            == SettlingState::Cooling <==> above_target),
        s == SettlingState::Heating ==> settle(s, above_target, above_margin) != SettlingState::Done
            && (settle(s, above_target, above_margin) == SettlingState::Cooling <==> above_margin),
{
}

} // verus!
