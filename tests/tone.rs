use morse_time_clock::tone::{ToneSource, SAMPLE_RATE};

fn drain(tone: &mut ToneSource) -> Vec<usize> {
    let mut out = Vec::new();
    while let Some(i) = tone.next() {
        out.push(i);
    }
    out
}

#[test]
fn tone_sample_counts() {
    assert_eq!(ToneSource::new(600, 100).current_frame_len(), Some(4410));
    assert_eq!(ToneSource::new(600, 300).current_frame_len(), Some(13230));
    assert_eq!(ToneSource::new(600, 0).current_frame_len(), Some(0));
    // 44.1 samples per millisecond, rounded to the nearest count.
    assert_eq!(ToneSource::new(600, 1).current_frame_len(), Some(44));
    assert_eq!(ToneSource::new(600, 10).current_frame_len(), Some(441));
    assert_eq!(ToneSource::new(600, 5).current_frame_len(), Some(221));
    assert_eq!(ToneSource::new(600, 3).current_frame_len(), Some(132));
}

#[test]
fn tone_yields_every_index_once_then_stops() {
    let mut tone = ToneSource::new(600, 10);
    let indices = drain(&mut tone);
    assert_eq!(indices, (0..441).collect::<Vec<usize>>());
    assert_eq!(tone.next(), None);
    assert_eq!(tone.current_frame_len(), Some(0));
}

#[test]
fn tone_restarts_identically() {
    let a = drain(&mut ToneSource::new(600, 7));
    let b = drain(&mut ToneSource::new(600, 7));
    assert_eq!(a, b);
    assert_eq!(a.first(), Some(&0));
}

#[test]
fn tone_frame_len_counts_down() {
    let mut tone = ToneSource::new(600, 1);
    tone.next();
    tone.next();
    assert_eq!(tone.current_frame_len(), Some(42));
}

#[test]
fn tone_properties() {
    let tone = ToneSource::new(600, 300);
    assert_eq!(tone.channels(), 1);
    assert_eq!(tone.sample_rate(), 44100);
    assert_eq!(SAMPLE_RATE, 44100);
    assert_eq!(tone.frequency_hz(), 600);
    assert_eq!(tone.total_duration_ms(), 300);
    assert_eq!(ToneSource::new(600, 100).total_duration_ms(), 100);
    assert_eq!(ToneSource::new(600, 1).total_duration_ms(), 0);
    assert_eq!(ToneSource::new(600, 1000).total_duration_ms(), 1000);
}
