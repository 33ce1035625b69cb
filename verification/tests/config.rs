use levenberg_marquardt::binary64::Real;
use levenberg_marquardt::config::{
    Config, DEFAULT_CONSECUTIVE_DIVERGENCE_LIMIT, DEFAULT_INITIAL_LAMBDA_BITS,
    DEFAULT_LAMBDA_CONVERGE_BITS, DEFAULT_LAMBDA_DIVERGE_BITS, DEFAULT_MAX_ITERATIONS,
    DEFAULT_THRESHOLD_BITS,
};

fn value(r: Real) -> f64 {
    f64::from_bits(r.to_bits())
}

#[test]
fn default_limits() {
    let c: Config<Real> = Config::default();
    assert_eq!(c.max_iterations, 1000);
    assert_eq!(c.consecutive_divergence_limit, 5);
    assert_eq!(DEFAULT_MAX_ITERATIONS, 1000);
    assert_eq!(DEFAULT_CONSECUTIVE_DIVERGENCE_LIMIT, 5);
}

#[test]
fn default_reals() {
    let c: Config<Real> = Config::default();
    assert_eq!(value(c.initial_lambda), 50.0);
    assert_eq!(value(c.lambda_converge), 0.8f32 as f64);
    assert_eq!(value(c.lambda_converge) as f32, 0.8f32);
    assert_eq!(value(c.lambda_diverge), 2.0);
    assert_eq!(value(c.threshold), 0.0);
}

#[test]
fn default_encodings() {
    assert_eq!(DEFAULT_INITIAL_LAMBDA_BITS, 50.0f64.to_bits());
    assert_eq!(DEFAULT_LAMBDA_CONVERGE_BITS, (0.8f32 as f64).to_bits());
    assert_eq!(DEFAULT_LAMBDA_DIVERGE_BITS, 2.0f64.to_bits());
    assert_eq!(DEFAULT_THRESHOLD_BITS, 0.0f64.to_bits());
}

#[test]
fn default_obeys_the_recommendations() {
    let c: Config<Real> = Config::default();
    assert!(value(c.initial_lambda) > 0.0);
    assert!(value(c.lambda_converge) < 1.0);
    assert!(value(c.lambda_diverge) > 1.0);
    assert!(value(c.lambda_diverge) > 1.0 / value(c.lambda_converge));
    assert!(value(c.threshold) >= 0.0);
}

#[test]
fn new_keeps_the_reals_and_takes_the_default_limits() {
    let c = Config::new(7.0f64, 0.5, 3.0, 0.25);
    assert_eq!(
        c,
        Config {
            max_iterations: 1000,
            consecutive_divergence_limit: 5,
            initial_lambda: 7.0,
            lambda_converge: 0.5,
            lambda_diverge: 3.0,
            threshold: 0.25,
        }
    );
}

#[test]
fn out_of_range_values_are_not_refused() {
    let c = Config::new(0.0f64, 1.5, -1.0, f64::NAN);
    assert_eq!(c.initial_lambda, 0.0);
    assert_eq!(c.lambda_converge, 1.5);
    assert_eq!(c.lambda_diverge, -1.0);
    assert!(c.threshold.is_nan());
}

#[test]
fn config_is_copied_by_value() {
    let a = Config::new(1u8, 2, 3, 4);
    let b = a;
    assert_eq!(a, b);
    assert_eq!(a.clone(), b);
}
