use pitch_detection::detector::yin::YINDetector;
use pitch_detection::detector::PitchDetector;
use tuner::pitch::{map_position, NoteResult};
use tuner::window::AnalysisWindow;

const POWER_THRESHOLD: f32 = 0.1;
const CLARITY_THRESHOLD: f32 = 0.7;
const NAMES: [&str; 12] = ["C", "C#", "D", "D#", "E", "F", "F#", "G", "G#", "A", "A#", "B"];

fn sine(frequency: f64, sample_rate: u32, len: usize, amplitude: f64) -> Vec<f32> {
    (0..len)
        .map(|i| {
            let t = i as f64 / sample_rate as f64;
            (amplitude * (2.0 * std::f64::consts::PI * frequency * t).sin()) as f32
        })
        .collect()
}

fn estimate(buffer: &[f32], sample_rate: u32) -> Option<(f32, f32)> {
    let window = AnalysisWindow::new(buffer.len(), sample_rate).unwrap();
    let mut detector = YINDetector::new(window.size, window.padding);
    detector
        .get_pitch(buffer, window.sample_rate as usize, POWER_THRESHOLD, CLARITY_THRESHOLD)
        .map(|pitch| (pitch.frequency, pitch.clarity))
}

fn position_of(frequency: f64) -> i32 {
    let semitones = 12.0 * (frequency / 440.0).log2() + 69.0;
    (semitones * 100_000.0) as i32
}

fn map_frequency(frequency: f64) -> NoteResult {
    assert!(frequency.is_finite() && frequency > 0.0);
    map_position(position_of(frequency))
}

#[test]
fn a440_maps_to_a4() {
    let result = map_frequency(440.0);
    assert_eq!(result.note_name, "A4");
    assert_eq!(result.midi_note, 69);
    assert!(result.offset.abs() <= 1_000);
}

#[test]
fn equal_tempered_frequencies_round_trip() {
    for k in -69..=58 {
        let frequency = 440.0 * 2.0_f64.powf(k as f64 / 12.0);
        let result = map_frequency(frequency);
        let note: i32 = 69 + k;
        let expected = format!("{}{}", NAMES[note.rem_euclid(12) as usize], note.div_euclid(12) - 1);
        assert_eq!(result.midi_note, note);
        assert_eq!(result.note_name, expected);
        assert!(result.offset.abs() <= 10, "offset {} at k {}", result.offset, k);
    }
}

#[test]
fn single_precision_frequencies_round_trip() {
    for k in -48..=48 {
        let frequency = 440.0_f32 * 2.0_f32.powf(k as f32 / 12.0);
        let result = map_frequency(frequency as f64);
        assert_eq!(result.midi_note, 69 + k);
        assert!(result.offset.abs() <= 10, "offset {} at k {}", result.offset, k);
    }
}

#[test]
fn g_sharp_4_sits_between_4153_and_4154() {
    let below = map_frequency(415.3);
    assert_eq!(below.note_name, "G#4");
    assert!(-100 < below.offset && below.offset < 0);
    let above = map_frequency(415.4);
    assert_eq!(above.note_name, "G#4");
    assert!(0 < above.offset && above.offset < 1_000);
}

#[test]
fn offset_flips_sign_across_the_g_sharp_a_boundary() {
    let below = map_frequency(427.4);
    assert_eq!(below.note_name, "G#4");
    assert!(49_000 < below.offset && below.offset <= 50_000);
    let above = map_frequency(427.6);
    assert_eq!(above.note_name, "A4");
    assert!(-50_000 <= above.offset && above.offset < -49_000);
}

#[test]
fn frequencies_below_note_zero() {
    let result = map_frequency(7.0);
    assert_eq!(result.midi_note, -3);
    assert_eq!(result.note_name, "A-2");
    assert!(result.offset.abs() <= 50_000);
    let lower = map_frequency(0.01);
    assert_eq!(lower.midi_note, -116);
    assert_eq!(lower.note_name, "E-11");
}

#[test]
fn silence_gives_no_pitch() {
    let zeros = vec![0.0_f32; 1024];
    assert!(estimate(&zeros, 44_100).is_none());
    let faint = sine(440.0, 44_100, 1024, 0.001);
    assert!(estimate(&faint, 44_100).is_none());
}

#[test]
fn pure_sines_are_detected_within_one_percent() {
    for frequency in [220.0_f64, 330.0, 440.0, 880.0, 1000.0] {
        let buffer = sine(frequency, 44_100, 2048, 1.0);
        let (found, clarity) = estimate(&buffer, 44_100).unwrap();
        let relative = ((found as f64) - frequency).abs() / frequency;
        assert!(relative < 0.01, "found {} for {}", found, frequency);
        assert!(clarity.is_finite());
        let heard = map_frequency(found as f64);
        assert_eq!(heard.midi_note, map_frequency(frequency).midi_note);
    }
}

#[test]
fn same_buffer_gives_same_estimate() {
    let buffer = sine(523.25, 48_000, 1024, 0.8);
    let first = estimate(&buffer, 48_000);
    let second = estimate(&buffer, 48_000);
    assert_eq!(first, second);
    assert!(first.is_some());
}

#[test]
fn a440_sine_is_heard_as_a4() {
    let buffer = sine(440.0, 44_100, 1024, 1.0);
    let (frequency, clarity) = estimate(&buffer, 44_100).unwrap();
    assert!((frequency - 440.0).abs() <= 5.0);
    assert!(clarity.is_finite());
    let heard = map_frequency(frequency as f64);
    assert_eq!(heard.midi_note, 69);
    assert_eq!(heard.note_name, "A4");
    assert!(heard.offset.abs() <= 20_000);
    let exact = map_frequency(440.0);
    assert_eq!(exact.note_name, "A4");
    assert!(exact.offset.abs() <= 1_000);
}
