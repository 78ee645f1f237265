use seismic_intensity::engine::{
    ConfigError, EngineConfig, IntensityEngine, FRACTION_DENOMINATOR, FRACTION_NUMERATOR,
    LONG_WINDOW_SECONDS, THRESHOLD_NOISE_FLOOR, THRESHOLD_ZERO,
};
use seismic_intensity::sample::{InputDomainError, Magnitude, Sample};

fn config(short: usize, long: usize, num: u32, den: u32, threshold: u32) -> EngineConfig {
    EngineConfig {
        short_capacity: short,
        long_capacity: long,
        fraction_numerator: num,
        fraction_denominator: den,
        threshold,
    }
}

fn engine(rate: u32, threshold: u32) -> IntensityEngine {
    IntensityEngine::new(EngineConfig::for_rate(rate, threshold).unwrap()).unwrap()
}

fn sample(x: f32, y: f32, z: f32) -> Sample {
    Sample::new(x.to_bits(), y.to_bits(), z.to_bits()).unwrap()
}

fn magnitude(value: f32) -> Magnitude {
    Magnitude::new(value.to_bits()).unwrap()
}

fn push(e: &mut IntensityEngine, value: f32) -> Result<(), InputDomainError> {
    let m = Magnitude::new(value.to_bits())?;
    e.push_magnitude(m);
    Ok(())
}

fn held(e: &IntensityEngine) -> Vec<f32> {
    e.magnitude_window().iter().map(|m| f32::from_bits(m.bits())).collect()
}

fn pivot(e: &IntensityEngine) -> Option<f32> {
    e.pivot().map(|m| f32::from_bits(m.bits()))
}

fn refused(c: EngineConfig) -> ConfigError {
    match IntensityEngine::new(c) {
        Ok(_) => panic!("configuration accepted"),
        Err(e) => e,
    }
}

#[test]
fn thresholds_are_the_patterns_of_their_numbers() {
    assert_eq!(THRESHOLD_ZERO, 0.0f32.to_bits());
    assert_eq!(THRESHOLD_NOISE_FLOOR, 0.4f32.to_bits());
}

#[test]
fn sizing_for_a_rate() {
    assert_eq!(
        EngineConfig::for_rate(200, THRESHOLD_ZERO),
        Ok(config(200, 1000, 3, 10, 0))
    );
    assert_eq!(LONG_WINDOW_SECONDS, 5);
    assert_eq!((FRACTION_NUMERATOR, FRACTION_DENOMINATOR), (3, 10));
    let e = engine(200, THRESHOLD_NOISE_FLOOR);
    assert_eq!(e.target_count(), 300);
    assert_eq!(e.activation_threshold().bits(), THRESHOLD_NOISE_FLOOR);
    assert_eq!(e.activation_threshold(), magnitude(0.4));
}

#[test]
fn faulty_configurations_are_refused() {
    assert_eq!(refused(config(0, 10, 3, 10, 0)), ConfigError::ZeroCapacity);
    assert_eq!(refused(config(2, 0, 3, 10, 0)), ConfigError::ZeroCapacity);
    assert_eq!(refused(config(2, 10, 3, 0, 0)), ConfigError::ImproperFraction);
    assert_eq!(refused(config(2, 10, 11, 10, 0)), ConfigError::ImproperFraction);
    assert_eq!(refused(config(2, 3, 3, 10, 0)), ConfigError::EmptySelection);
    assert_eq!(refused(config(2, 10, 0, 10, 0)), ConfigError::EmptySelection);
    assert_eq!(refused(config(2, 10, 3, 10, (-0.5f32).to_bits())), ConfigError::InvalidThreshold);
    assert_eq!(refused(config(2, 10, 3, 10, f32::NAN.to_bits())), ConfigError::InvalidThreshold);
    assert_eq!(refused(config(2, 10, 3, 10, f32::INFINITY.to_bits())), ConfigError::InvalidThreshold);
    assert_eq!(refused(config(0, 0, 3, 0, u32::MAX)), ConfigError::ZeroCapacity);
    assert_eq!(refused(EngineConfig::for_rate(0, 0).unwrap()), ConfigError::ZeroCapacity);
    assert!(IntensityEngine::new(config(1, 4, 3, 10, 0)).is_ok());
    assert!(IntensityEngine::new(config(1, 10, 10, 10, 0)).is_ok());
}

#[test]
fn a_new_engine_holds_nothing() {
    let e = engine(2, THRESHOLD_ZERO);
    assert!(e.baseline_window().is_empty());
    assert!(e.magnitude_window().is_empty());
    assert_eq!(e.target_count(), 3);
    assert_eq!(e.pivot(), None);
}

#[test]
fn samples_are_kept_for_one_second() {
    let mut e = engine(2, THRESHOLD_ZERO);
    e.push_sample(sample(1.0, 2.0, 3.0));
    assert_eq!(e.baseline_window(), vec![sample(1.0, 2.0, 3.0)]);
    e.push_sample(sample(4.0, 5.0, 6.0));
    e.push_sample(sample(7.0, 8.0, 9.0));
    assert_eq!(e.baseline_window(), vec![sample(4.0, 5.0, 6.0), sample(7.0, 8.0, 9.0)]);
    assert!(e.magnitude_window().is_empty());
}

#[test]
fn identical_samples_fill_the_baseline_window() {
    let mut e = engine(3, THRESHOLD_ZERO);
    e.push_sample(sample(9.0, 9.0, 9.0));
    for _ in 0..3 {
        e.push_sample(sample(2048.0, 2050.0, 2047.0));
    }
    assert_eq!(e.baseline_window(), vec![sample(2048.0, 2050.0, 2047.0); 3]);
}

#[test]
fn magnitudes_are_kept_for_five_seconds() {
    let mut e = engine(1, THRESHOLD_ZERO);
    for v in [1.0f32, 2.0, 3.0, 4.0, 5.0, 6.0, 7.0] {
        assert_eq!(push(&mut e, v), Ok(()));
    }
    assert_eq!(held(&e), vec![3.0, 4.0, 5.0, 6.0, 7.0]);
    assert!(e.baseline_window().is_empty());
}

#[test]
fn values_that_are_no_magnitudes_are_refused() {
    let mut e = engine(2, THRESHOLD_ZERO);
    assert_eq!(push(&mut e, 1.5), Ok(()));
    for bad in [f32::NAN, f32::INFINITY, f32::NEG_INFINITY, -1.0, -0.0] {
        assert_eq!(push(&mut e, bad), Err(InputDomainError::InvalidMagnitude));
        assert_eq!(held(&e), vec![1.5]);
    }
    assert_eq!(push(&mut e, 0.0), Ok(()));
    assert_eq!(push(&mut e, f32::MAX), Ok(()));
    assert_eq!(held(&e), vec![1.5, 0.0, f32::MAX]);
}

#[test]
fn percentile_selection_in_a_full_window() {
    let mut e = engine(2, THRESHOLD_ZERO);
    for v in [5.0f32, 1.0, 9.0, 3.0, 7.0, 2.0, 8.0, 4.0, 6.0, 0.0] {
        push(&mut e, v).unwrap();
    }
    assert_eq!(e.target_count(), 3);
    assert_eq!(e.magnitude_window().len(), 10);
    assert_eq!(e.pivot(), Some(magnitude(7.0)));
    assert_eq!(e.magnitude_window()[0], magnitude(5.0));
}

#[test]
fn no_pivot_until_more_than_the_target_is_held() {
    let mut e = engine(2, THRESHOLD_ZERO);
    for v in [5.0f32, 1.0, 9.0] {
        push(&mut e, v).unwrap();
        assert_eq!(e.pivot(), None);
    }
    push(&mut e, 3.0).unwrap();
    assert_eq!(pivot(&e), Some(3.0));
    push(&mut e, 7.0).unwrap();
    assert_eq!(pivot(&e), Some(5.0));
}

#[test]
fn a_pivot_at_or_below_the_threshold_is_suppressed() {
    let fill = |threshold: u32, level: f32| {
        let mut e = engine(2, threshold);
        for _ in 0..10 {
            push(&mut e, level).unwrap();
        }
        pivot(&e)
    };
    assert_eq!(fill(THRESHOLD_NOISE_FLOOR, 0.3), None);
    assert_eq!(fill(THRESHOLD_NOISE_FLOOR, 0.4), None);
    assert_eq!(fill(THRESHOLD_NOISE_FLOOR, 0.41), Some(0.41));
    assert_eq!(fill(THRESHOLD_ZERO, 0.0), None);
    assert_eq!(fill(THRESHOLD_ZERO, 0.3), Some(0.3));
    assert_eq!(fill(THRESHOLD_ZERO, f32::MIN_POSITIVE), Some(f32::MIN_POSITIVE));
}

#[test]
fn the_pivot_follows_the_window_as_it_slides() {
    let mut e = engine(1, THRESHOLD_ZERO);
    for v in [1.0f32, 2.0, 3.0, 4.0, 5.0] {
        push(&mut e, v).unwrap();
    }
    assert_eq!(e.target_count(), 1);
    assert_eq!(pivot(&e), Some(5.0));
    for _ in 0..4 {
        push(&mut e, 0.5).unwrap();
    }
    assert_eq!(pivot(&e), Some(5.0));
    push(&mut e, 0.5).unwrap();
    assert_eq!(pivot(&e), Some(0.5));
}
