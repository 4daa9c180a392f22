use morse_time_clock::morse::text_to_morse;
use morse_time_clock::morse::MorseSymbol::{Dash, Dot, LetterSpace, WordSpace};
use morse_time_clock::playback::{
    playback_duration_ms, playback_step, tone_for, PlaybackStep, Sequencer, DASH_DURATION,
    DOT_DURATION, LETTER_SPACE, SYMBOL_SPACE, TONE_FREQUENCY, WORD_SPACE,
};

#[test]
fn timing_ratios() {
    assert_eq!(DOT_DURATION, 100);
    assert_eq!(DASH_DURATION, 3 * DOT_DURATION);
    assert_eq!(SYMBOL_SPACE, DOT_DURATION);
    assert_eq!(LETTER_SPACE, 3 * DOT_DURATION);
    assert_eq!(WORD_SPACE, 7 * DOT_DURATION);
    assert_eq!(TONE_FREQUENCY, 600);
}

#[test]
fn steps_of_each_primitive() {
    assert_eq!(playback_step(Dot), PlaybackStep { tone_ms: 100, silence_ms: 100 });
    assert_eq!(playback_step(Dash), PlaybackStep { tone_ms: 300, silence_ms: 100 });
    assert_eq!(playback_step(LetterSpace), PlaybackStep { tone_ms: 0, silence_ms: 300 });
    assert_eq!(playback_step(WordSpace), PlaybackStep { tone_ms: 0, silence_ms: 700 });
}

#[test]
fn tones_only_for_sounding_steps() {
    assert!(tone_for(playback_step(LetterSpace)).is_none());
    assert!(tone_for(playback_step(WordSpace)).is_none());
    let dash = tone_for(playback_step(Dash)).unwrap();
    assert_eq!(dash.frequency_hz(), 600);
    assert_eq!(dash.current_frame_len(), Some(13230));
}

#[test]
fn sequencer_walks_in_order_to_completion() {
    let mut seq = Sequencer::new(vec![Dash, LetterSpace, Dot, WordSpace]);
    assert!(!seq.is_finished());
    let mut steps = Vec::new();
    while let Some(step) = seq.next_step() {
        steps.push(step);
    }
    assert!(seq.is_finished());
    assert_eq!(seq.next_step(), None);
    assert_eq!(
        steps,
        vec![
            PlaybackStep { tone_ms: 300, silence_ms: 100 },
            PlaybackStep { tone_ms: 0, silence_ms: 300 },
            PlaybackStep { tone_ms: 100, silence_ms: 100 },
            PlaybackStep { tone_ms: 0, silence_ms: 700 },
        ]
    );
}

#[test]
fn empty_sequence_is_finished_at_once() {
    let mut seq = Sequencer::new(Vec::new());
    assert!(seq.is_finished());
    assert_eq!(seq.next_step(), None);
    assert_eq!(playback_duration_ms(&[]), 0);
}

#[test]
fn playback_duration_is_sum_of_nominal_durations() {
    // S O S: 3 dots, 3 dashes, 3 dots, 2 letter gaps.
    let sos = text_to_morse("SOS");
    assert_eq!(playback_duration_ms(&sos), 6 * 200 + 3 * 400 + 2 * 300);
    assert_eq!(playback_duration_ms(&[WordSpace]), 700);
    let mut seq = Sequencer::new(sos.clone());
    let mut total: u128 = 0;
    while let Some(step) = seq.next_step() {
        total += (step.tone_ms + step.silence_ms) as u128;
    }
    assert_eq!(total, playback_duration_ms(&sos));
}
