use tremor_stabilizer::calibration::CalibrationData;
use tremor_stabilizer::classification::{classify, smoothing_factor_for, TremorType};
use tremor_stabilizer::estimator::{blend, KalmanFilter};
use tremor_stabilizer::history::History;
use tremor_stabilizer::tremor_filter::TremorFilter;

fn profile() -> CalibrationData {
    CalibrationData { tremor_frequency: 2000, tremor_amplitude: 1500, baseline_stability: 800 }
}

#[test]
fn classification_precedence() {
    assert_eq!(classify(10000, 9000), TremorType::HighFrequency);
    assert_eq!(classify(10000, 8000), TremorType::HighAmplitude);
    assert_eq!(classify(99, 5000), TremorType::Resting);
    assert_eq!(classify(100, 301), TremorType::Action);
    assert_eq!(classify(100, 300), TremorType::Mixed);
    assert_eq!(classify(5000, 0), TremorType::Mixed);
}

#[test]
fn smoothing_factor_table() {
    assert_eq!(smoothing_factor_for(TremorType::Resting), 900);
    assert_eq!(smoothing_factor_for(TremorType::Action), 500);
    assert_eq!(smoothing_factor_for(TremorType::HighFrequency), 800);
    assert_eq!(smoothing_factor_for(TremorType::HighAmplitude), 600);
    assert_eq!(smoothing_factor_for(TremorType::Mixed), 700);
}

#[test]
fn blending_identity() {
    assert_eq!(blend(1234, -5678, 0), 1234);
    assert_eq!(blend(1234, -5678, 1000), -5678);
    assert_eq!(blend(1000, 3000, 500), 2000);
    assert_eq!(blend(3000, 1000, 333), 2334);
}

#[test]
fn rolling_buffer_eviction() {
    let mut h: History<i64> = History::new(100);
    for v in 0..101i64 {
        h.push(v);
    }
    assert_eq!(h.len(), 100);
    assert_eq!(h.capacity(), 100);
    assert_eq!(h.get(0), 1);
    assert_eq!(h.get(99), 100);
    assert_eq!(h.to_vec(), (1..101i64).collect::<Vec<i64>>());
}

#[test]
fn history_wraps_around_repeatedly() {
    let mut h: History<i64> = History::new(3);
    for v in 0..8i64 {
        h.push(v);
    }
    assert_eq!(h.to_vec(), vec![5, 6, 7]);
}

#[test]
fn estimator_convergence() {
    let mut e = KalmanFilter::new(0, 1000, 100, 5000);
    let mut last_x = e.x;
    let mut last_p = e.p;
    for step in 0..200 {
        let x = e.update(10000);
        assert!(x >= last_x && x <= 10000);
        if step < 18 {
            assert!(e.p < last_p);
        } else {
            assert!(e.p <= last_p);
        }
        last_x = x;
        last_p = e.p;
    }
    assert_eq!(last_x, 10000);
    assert_eq!(last_p, 658);
}

#[test]
fn estimator_reaches_a_constant_measurement() {
    let mut e = KalmanFilter::new(0, 1000, 100, 5000);
    let mut steps = 0;
    while e.x != 10000 {
        let before = e.x;
        e.update(10000);
        assert!(e.x > before && e.x <= 10000);
        steps += 1;
    }
    assert_eq!(steps, 53);
}

#[test]
fn estimator_first_update() {
    // Gain 1.1 / 6.1 applied to 6.1 gives exactly 1.1; covariance 5.5 / 6.1.
    let mut e = KalmanFilter::new(0, 1000, 100, 5000);
    assert_eq!(e.update(6100), 1100);
    assert_eq!(e.p, 901);
}

#[test]
fn estimator_moves_for_the_smallest_difference() {
    let mut e = KalmanFilter::new(0, 1000, 100, 5000);
    assert_eq!(e.update(1), 1);
    let mut f = KalmanFilter::new(9993, 660, 100, 5000);
    assert_eq!(f.update(10000), 9994);
}

#[test]
fn first_sample_is_blended_toward_the_estimate() {
    let mut f = TremorFilter::new(profile());
    assert_eq!(f.process_movement(1000, 2000), (427, 853));
    assert_eq!(f.raw_history(), vec![(1000, 2000)]);
    assert_eq!(f.filtered_history(), vec![(427, 853)]);
    assert_eq!(f.get_tremor_metrics(), (0, 0, TremorType::Mixed));
}

#[test]
fn end_to_end_linear_motion() {
    let mut f = TremorFilter::new(profile());
    let mut outputs = Vec::new();
    for k in 0..=20i64 {
        outputs.push(f.process_movement(k * 1000, k * 1000));
        if k < 9 {
            assert_eq!(f.tremor_type(), TremorType::Mixed);
        } else {
            // Mean distance from the origin already exceeds 5 pixels at the
            // tenth sample, so the classification is high-amplitude.
            assert_eq!(f.tremor_type(), TremorType::HighAmplitude);
        }
        assert_eq!(f.smoothing_factor(), smoothing_factor_for(f.tremor_type()));
    }
    assert_eq!(outputs[1], (417, 417));
    assert_eq!(outputs[9], (5799, 5799));
    assert_eq!(outputs[20], (16310, 16310));
    assert_eq!(f.get_tremor_metrics(), (0, 10252, TremorType::HighAmplitude));
    assert_eq!(f.smoothing_factor(), 600);
}

#[test]
fn oscillation_is_classified_as_action() {
    let mut f = TremorFilter::new(profile());
    let mut last = (0, 0);
    for _ in 0..10 {
        f.process_movement(1000, 0);
        last = f.process_movement(3000, 0);
    }
    assert_eq!(last, (2486, 0));
    assert_eq!(f.tremor_type(), TremorType::Action);
    assert_eq!(f.smoothing_factor(), 500);
    assert_eq!(f.get_tremor_metrics(), (859, 1968, TremorType::Action));
}

#[test]
fn still_pointer_is_classified_as_resting() {
    let mut f = TremorFilter::new(profile());
    let mut last = (1, 1);
    for _ in 0..12 {
        last = f.process_movement(0, 0);
    }
    assert_eq!(last, (0, 0));
    assert_eq!(f.tremor_type(), TremorType::Resting);
    assert_eq!(f.smoothing_factor(), 900);
}

#[test]
fn position_history_keeps_the_last_hundred() {
    let mut f = TremorFilter::new(profile());
    for k in 0..150i64 {
        f.process_movement(k, -k);
    }
    let raw = f.raw_history();
    assert_eq!(raw.len(), 100);
    assert_eq!(raw[0], (50, -50));
    assert_eq!(raw[99], (149, -149));
    assert_eq!(f.filtered_history().len(), 100);
}
