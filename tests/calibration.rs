use tremor_stabilizer::calibration::{
    analyze_tremor, calculate_stability, perform_calibration, CalibrationData, CalibrationError,
};

const WINDOW_MS: u64 = 5000;

#[test]
fn calibration_determinism() {
    let samples = vec![(0, 0), (3, 4), (3, 4), (0, 0)];
    let first = perform_calibration(&samples, WINDOW_MS).unwrap();
    let second = perform_calibration(&samples, WINDOW_MS).unwrap();
    assert_eq!(first, second);
    // Steps of 5, 0 and 5 pixels: mean 10/3 pixels, two significant steps in 5 s,
    // and a variance of 6.25 around the centroid (1.5, 2).
    assert_eq!(
        first,
        CalibrationData { tremor_frequency: 400, tremor_amplitude: 3333, baseline_stability: 138 }
    );
}

#[test]
fn stability_is_one_when_samples_coincide() {
    let samples = vec![(5, 5), (5, 5), (5, 5)];
    let profile = perform_calibration(&samples, WINDOW_MS).unwrap();
    assert_eq!(profile.baseline_stability, 1000);
    assert_eq!(profile.tremor_amplitude, 0);
    assert_eq!(profile.tremor_frequency, 0);
}

#[test]
fn stability_stays_positive_for_a_wide_spread() {
    let samples = vec![(0, 0), (100000, 100000)];
    let stability = calculate_stability(&samples);
    assert_eq!(stability, 1);
    assert!(stability > 0 && stability <= 1000);
}

#[test]
fn stability_of_a_single_sample() {
    assert_eq!(calculate_stability(&[(7, -3)]), 1000);
}

#[test]
fn calibration_fails_without_two_samples() {
    assert_eq!(perform_calibration(&[], WINDOW_MS), Err(CalibrationError::InsufficientSamples));
    assert_eq!(perform_calibration(&[(1, 1)], WINDOW_MS), Err(CalibrationError::InsufficientSamples));
    assert!(perform_calibration(&[(1, 1), (1, 1)], WINDOW_MS).is_ok());
}

#[test]
fn frequency_counts_significant_steps_per_second() {
    // Three one-pixel steps and one standing step over one second.
    let samples = vec![(0, 0), (1, 0), (1, 1), (1, 1), (0, 1)];
    let (frequency, amplitude) = analyze_tremor(&samples, 1000);
    assert_eq!(frequency, 3000);
    assert_eq!(amplitude, 750);
}

#[test]
fn amplitude_rounds_step_lengths_down() {
    // One diagonal step of sqrt(2) pixels.
    let (frequency, amplitude) = analyze_tremor(&[(0, 0), (1, 1)], WINDOW_MS);
    assert_eq!(amplitude, 1414);
    assert_eq!(frequency, 200);
}

#[test]
fn calibration_handles_extreme_coordinates() {
    let samples = vec![(i32::MIN, i32::MIN), (i32::MAX, i32::MAX)];
    let (frequency, amplitude) = analyze_tremor(&samples, WINDOW_MS);
    assert_eq!(amplitude, 6074000998537);
    assert_eq!(frequency, 200);
    let stability = calculate_stability(&samples);
    assert!(stability >= 1 && stability <= 1000);
}
