use vstd::prelude::*;

verus! {

/// Samples per second of every generated tone.
pub const SAMPLE_RATE: u32 = 44100;

/// Number of samples in a tone of `duration_ms` milliseconds: the exact count
/// `SAMPLE_RATE * duration_ms / 1000`, rounded to the nearest integer (halves up).
pub open spec fn sample_count(duration_ms: nat) -> nat {
    ((SAMPLE_RATE as nat) * duration_ms + 500) / 1000
}

/// Abstract state of a tone: its pitch, its length in samples and the index of
/// the next sample to be produced.
pub ghost struct ToneState {
    pub frequency_hz: nat,
    pub sample_rate: nat,
    pub num_samples: nat,
    pub current_sample: nat,
}

/// A finite mono sine tone, walked sample by sample. Each step hands out the
/// index of the next sample; its amplitude is a function of that index alone.
pub struct ToneSource {
    frequency_hz: u32,
    sample_rate: u32,
    num_samples: usize,
    current_sample: usize,
}

impl View for ToneSource {
    type V = ToneState;

    closed spec fn view(&self) -> ToneState {
        ToneState {
            frequency_hz: self.frequency_hz as nat,
            sample_rate: self.sample_rate as nat,
            num_samples: self.num_samples as nat,
            current_sample: self.current_sample as nat,
        }
    }
}

impl ToneSource {
    #[verifier::type_invariant]
    closed spec fn inv(&self) -> bool {
        &&& self.sample_rate == SAMPLE_RATE
        &&& self.current_sample <= self.num_samples
    }

    /// A tone of `frequency_hz` lasting `duration_ms` milliseconds, not yet started.
    pub fn new(frequency_hz: u32, duration_ms: u64) -> (r: ToneSource)
        requires
            sample_count(duration_ms as nat) <= usize::MAX,
        ensures
            r@.frequency_hz == frequency_hz,
            r@.sample_rate == SAMPLE_RATE,
            r@.num_samples == sample_count(duration_ms as nat),
            r@.current_sample == 0,
    {
        let exact: u128 = (SAMPLE_RATE as u128) * (duration_ms as u128) + 500;
        let num_samples = (exact / 1000) as usize;
        ToneSource { frequency_hz, sample_rate: SAMPLE_RATE, num_samples, current_sample: 0 }
    }

    /// Index of the next sample, or `None` once all samples have been produced.
    pub fn next(&mut self) -> (r: Option<usize>)
        ensures
            old(self)@.current_sample < old(self)@.num_samples ==> r == Some(
                old(self)@.current_sample as usize,
            ) && final(self)@ == (ToneState {
                current_sample: old(self)@.current_sample + 1,
                ..old(self)@
            }),
            old(self)@.current_sample >= old(self)@.num_samples ==> r is None && final(self)@
                == old(self)@,
    {
        proof {
            use_type_invariant(&*self);
        }
        if self.current_sample >= self.num_samples {
            return None;
        }
        let index = self.current_sample;
        self.current_sample = self.current_sample + 1;
        Some(index)
    }

    /// Samples still to come.
    pub fn current_frame_len(&self) -> (r: Option<usize>)
        ensures
            r == Some((self@.num_samples - self@.current_sample) as usize),
            self@.current_sample <= self@.num_samples,
    {
        proof {
            use_type_invariant(self);
        }
        Some(self.num_samples - self.current_sample)
    }

    /// A tone has a single channel.
    pub fn channels(&self) -> (r: u16)
        ensures
            r == 1,
    {
        1
    }

    /// Samples per second.
    pub fn sample_rate(&self) -> (r: u32)
        ensures
            r == self@.sample_rate,
            r == SAMPLE_RATE,
    {
        proof {
            use_type_invariant(self);
        }
        self.sample_rate
    }

    /// Pitch in hertz.
    pub fn frequency_hz(&self) -> (r: u32)
        ensures
            r == self@.frequency_hz,
    {
        self.frequency_hz
    }

    /// Whole length of the tone in milliseconds, rounded down.
    pub fn total_duration_ms(&self) -> (r: u64)
        ensures
            r == self@.num_samples * 1000 / (SAMPLE_RATE as nat),
    {
        proof {
            use_type_invariant(self);
        }
        let total: u128 = (self.num_samples as u128) * 1000 / (self.sample_rate as u128);
        assert(total <= u64::MAX) by (nonlinear_arith)
            requires
                total == (self.num_samples as u128) * 1000 / 44100,
                self.num_samples <= usize::MAX,
        ;
        total as u64
    }
}

} // verus!
