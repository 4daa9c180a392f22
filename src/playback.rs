use vstd::prelude::*;
use crate::morse::MorseSymbol;
use crate::tone::{sample_count, ToneSource, ToneState, SAMPLE_RATE};

verus! {

/// The base unit of Morse timing, in milliseconds.
pub const DOT_DURATION: u64 = 100;

/// A dash lasts three units.
pub const DASH_DURATION: u64 = DOT_DURATION * 3;

/// Silence after every tone: one unit.
pub const SYMBOL_SPACE: u64 = DOT_DURATION;

/// Silence between letters: three units.
pub const LETTER_SPACE: u64 = DOT_DURATION * 3;

/// Silence between words: seven units.
pub const WORD_SPACE: u64 = DOT_DURATION * 7;

/// Pitch of every tone, in hertz.
pub const TONE_FREQUENCY: u32 = 600;

/// What the player does for one primitive: sound a tone of `tone_ms`
/// milliseconds (none when it is zero), then stay silent for `silence_ms`.
#[derive(Clone, Copy, Debug, PartialEq, Eq, Structural)]
pub struct PlaybackStep {
    pub tone_ms: u64,
    pub silence_ms: u64,
}

/// The step that plays one primitive.
pub open spec fn step_for(s: MorseSymbol) -> PlaybackStep {
    match s {
        MorseSymbol::Dot => PlaybackStep { tone_ms: DOT_DURATION, silence_ms: SYMBOL_SPACE },
        MorseSymbol::Dash => PlaybackStep { tone_ms: DASH_DURATION, silence_ms: SYMBOL_SPACE },
        MorseSymbol::LetterSpace => PlaybackStep { tone_ms: 0, silence_ms: LETTER_SPACE },
        MorseSymbol::WordSpace => PlaybackStep { tone_ms: 0, silence_ms: WORD_SPACE },
    }
}

/// Nominal time taken by one primitive: a dot is 100 ms of tone, a dash 300 ms,
/// each followed by 100 ms of silence; a letter gap is 300 ms and a word gap
/// 700 ms of silence.
pub open spec fn nominal_ms(s: MorseSymbol) -> nat {
    match s {
        MorseSymbol::Dot => 100 + 100,
        MorseSymbol::Dash => 300 + 100,
        MorseSymbol::LetterSpace => 300,
        MorseSymbol::WordSpace => 700,
    }
}

/// Sum of the nominal durations of a sequence of primitives.
pub open spec fn total_nominal_ms(m: Seq<MorseSymbol>) -> nat
    decreases m.len(),
{
    if m.len() == 0 {
        0
    } else {
        total_nominal_ms(m.drop_last()) + nominal_ms(m.last())
    }
}

/// Time taken by the steps that play a sequence, tone and silence together.
pub open spec fn plan_ms(m: Seq<MorseSymbol>) -> nat
    decreases m.len(),
{
    if m.len() == 0 {
        0
    } else {
        plan_ms(m.drop_last()) + (step_for(m.last()).tone_ms as nat) + (step_for(
            m.last(),
        ).silence_ms as nat)
    }
}

/// The step that plays one primitive.
pub fn playback_step(s: MorseSymbol) -> (r: PlaybackStep)
    ensures
        r == step_for(s),
{
    match s {
        MorseSymbol::Dot => PlaybackStep { tone_ms: DOT_DURATION, silence_ms: SYMBOL_SPACE },
        MorseSymbol::Dash => PlaybackStep { tone_ms: DASH_DURATION, silence_ms: SYMBOL_SPACE },
        MorseSymbol::LetterSpace => PlaybackStep { tone_ms: 0, silence_ms: LETTER_SPACE },
        MorseSymbol::WordSpace => PlaybackStep { tone_ms: 0, silence_ms: WORD_SPACE },
    }
}

/// The tone a step sounds: none for a silent step, else a fresh tone at the
/// carrier pitch lasting `tone_ms`.
pub fn tone_for(step: PlaybackStep) -> (r: Option<ToneSource>)
    requires
        sample_count(step.tone_ms as nat) <= usize::MAX,
    ensures
        step.tone_ms == 0 ==> r is None,
        step.tone_ms > 0 ==> (r matches Some(t) && t@ == (ToneState {
            frequency_hz: TONE_FREQUENCY as nat,
            sample_rate: SAMPLE_RATE as nat,
            num_samples: sample_count(step.tone_ms as nat),
            current_sample: 0,
        })),
{
    if step.tone_ms == 0 {
        None
    } else {
        Some(ToneSource::new(TONE_FREQUENCY, step.tone_ms))
    }
}

/// The playback sequencer: walks an encoded sequence strictly in order, one
/// primitive per step, from idle (nothing played) to exhausted.
pub struct Sequencer {
    morse: Vec<MorseSymbol>,
    position: usize,
}

impl Sequencer {
    #[verifier::type_invariant]
    closed spec fn inv(&self) -> bool {
        self.position <= self.morse.len()
    }

    /// The sequence being played.
    pub closed spec fn symbols(&self) -> Seq<MorseSymbol> {
        self.morse@
    }

    /// How many primitives have been handed out.
    pub closed spec fn position(&self) -> nat {
        self.position as nat
    }

    /// A sequencer in its idle state, before the first primitive.
    pub fn new(morse: Vec<MorseSymbol>) -> (r: Sequencer)
        ensures
            r.symbols() == morse@,
            r.position() == 0,
    {
        Sequencer { morse, position: 0 }
    }

    /// Whether every primitive has been handed out.
    pub fn is_finished(&self) -> (r: bool)
        ensures
            r == (self.position() >= self.symbols().len()),
    {
        self.position >= self.morse.len()
    }

    /// The step for the next primitive, or `None` once the sequence is exhausted.
    pub fn next_step(&mut self) -> (r: Option<PlaybackStep>)
        ensures
            final(self).symbols() == old(self).symbols(),
            old(self).position() < old(self).symbols().len() ==> r == Some(
                step_for(old(self).symbols()[old(self).position() as int]),
            ) && final(self).position() == old(self).position() + 1,
            old(self).position() >= old(self).symbols().len() ==> r is None
                && final(self).position() == old(self).position(),
    {
        proof {
            use_type_invariant(&*self);
        }
        if self.position >= self.morse.len() {
            return None;
        }
        let step = playback_step(self.morse[self.position]);
        self.position = self.position + 1;
        Some(step)
    }
}

/// Each step takes exactly the nominal time of its primitive.
pub proof fn lemma_step_nominal(s: MorseSymbol)
    ensures
        step_for(s).tone_ms + step_for(s).silence_ms == nominal_ms(s),
{
}

/// Playing a sequence step by step takes, tone and silence together, the sum of
/// the nominal durations of its primitives.
pub proof fn lemma_plan_matches_nominal(m: Seq<MorseSymbol>)
    ensures
        plan_ms(m) == total_nominal_ms(m),
    decreases m.len(),
{
    if m.len() > 0 {
        lemma_plan_matches_nominal(m.drop_last());
        lemma_step_nominal(m.last());
    }
}

/// Total playing time of `morse` in milliseconds.
pub fn playback_duration_ms(morse: &[MorseSymbol]) -> (r: u128)
    ensures
        r == total_nominal_ms(morse@),
{
    let mut total: u128 = 0;
    let mut i: usize = 0;
    while i < morse.len()
        invariant
            i <= morse@.len(),
            total == plan_ms(morse@.take(i as int)),
            total <= 700 * i,
        decreases morse@.len() - i,
    {
        let step = playback_step(morse[i]);
        assert(morse@.take(i + 1).drop_last() =~= morse@.take(i as int));
        total = total + (step.tone_ms as u128) + (step.silence_ms as u128);
        i = i + 1;
    }
    assert(morse@.take(morse@.len() as int) =~= morse@);
    proof {
        lemma_plan_matches_nominal(morse@);
    }
    total
}

} // verus!
