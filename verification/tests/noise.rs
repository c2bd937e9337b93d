use glwe_noise::estimator::check_glwe_dimension;
use glwe_noise::estimator::fft_noise_factor_external_product_glwe;
use glwe_noise::estimator::theoretical_variance_external_product_glwe;
use glwe_noise::estimator::variance_external_product_glwe;
use glwe_noise::estimator::NoiseEstimateError;
use glwe_noise::estimator::Rational;

/// The empirically fitted scaling weight of the FFT noise model, applied
/// outside the verified library because it is irrational.
const FFT_SCALING_WEIGHT: f64 = -2.577_224_94;

fn zero_variance() -> Rational {
    Rational { num: 0, den: 1 }
}

fn rational_as_f64(r: Rational) -> f64 {
    (r.num as f64) / (r.den as f64)
}

fn fft_variance_as_f64(factor: u128) -> f64 {
    f64::exp2(FFT_SCALING_WEIGHT) * (factor as f64)
}

#[test]
fn check_glwe_dimension_accepts_exactly_1_through_6() {
    assert!(check_glwe_dimension(0).is_err());
    for k in 1..=6u64 {
        assert!(check_glwe_dimension(k).is_ok());
    }
    assert!(check_glwe_dimension(7).is_err());
    assert_eq!(
        check_glwe_dimension(7),
        Err(NoiseEstimateError::UnsupportedDimension)
    );
}

#[test]
fn scenario_a_algebraic_term_is_exactly_1364() {
    let r = theoretical_variance_external_product_glwe(1, 2, 1, 1, 4, zero_variance());
    assert_eq!(r.num, 1047552);
    assert_eq!(r.den, 768);
    assert_eq!(r.num, 1364 * r.den);
    assert_eq!(rational_as_f64(r), 1364.0);
}

#[test]
fn scenario_a_fft_term_matches_reference_evaluation() {
    let factor = fft_noise_factor_external_product_glwe(1, 2, 1, 1, 4).unwrap();
    // 2^22 * level * b^2 * n^2 * (k+1) * q^2 = 2^22 * 1 * 4 * 4 * 2 * 256
    assert_eq!(factor, 1u128 << 35);
    let fft = fft_variance_as_f64(factor);
    // reference double-precision evaluation of the same closed form
    let b = 2f64.powi(1);
    let reference = f64::exp2(FFT_SCALING_WEIGHT)
        * ((1u64 << 22) as f64)
        * 1.0
        * b
        * b
        * (2f64).powi(2)
        * (1.0 + 1.0)
        * 2f64.powi(8);
    assert!((fft - reference).abs() <= reference * 1e-12);
    let expected = 5.7575e9;
    assert!((fft - expected).abs() <= expected * 1e-4);
}

#[test]
fn scenario_a_total_is_dominated_by_the_fft_term() {
    let parts = variance_external_product_glwe(1, 2, 1, 1, 4, zero_variance()).unwrap();
    let total = rational_as_f64(parts.algebraic) + fft_variance_as_f64(parts.fft_factor);
    let expected = 5.7575e9 + 1364.0;
    assert!((total - expected).abs() <= expected * 1e-4);
    assert!(fft_variance_as_f64(parts.fft_factor) > rational_as_f64(parts.algebraic));
}

#[test]
fn scenario_b_dimension_7_fails_with_unsupported_dimension() {
    let r = variance_external_product_glwe(7, 2, 1, 1, 4, zero_variance());
    assert_eq!(r, Err(NoiseEstimateError::UnsupportedDimension));
}

#[test]
fn dimension_0_fails_with_unsupported_dimension() {
    let r = variance_external_product_glwe(0, 2, 1, 1, 4, zero_variance());
    assert_eq!(r, Err(NoiseEstimateError::UnsupportedDimension));
    let f = fft_noise_factor_external_product_glwe(0, 2, 1, 1, 4);
    assert_eq!(f, Err(NoiseEstimateError::UnsupportedDimension));
}

#[test]
fn dimensions_1_through_6_never_fail() {
    for k in 1..=6u64 {
        assert!(variance_external_product_glwe(k, 4, 2, 2, 10, zero_variance()).is_ok());
    }
}

#[test]
fn repeated_calls_return_identical_results() {
    let v = Rational { num: 37, den: 11 };
    let first = variance_external_product_glwe(3, 8, 2, 2, 12, v);
    let second = variance_external_product_glwe(3, 8, 2, 2, 12, v);
    assert_eq!(first, second);
}

#[test]
fn algebraic_term_is_linear_in_ggsw_variance() {
    // k = 2, n = 4, log2_base = 2, level = 3, modulus_log = 10:
    // coefficient = level*(k+1)*n*(b^2+2) = 3*3*4*18 = 648, b^(2*level) = 2^12
    let v1 = Rational { num: 5, den: 1 };
    let v2 = Rational { num: 2, den: 1 };
    let r1 = theoretical_variance_external_product_glwe(2, 4, 2, 3, 10, v1);
    let r2 = theoretical_variance_external_product_glwe(2, 4, 2, 3, 10, v2);
    assert_eq!(r1.den, r2.den);
    // numerators differ by coefficient * 16 * b^(2*level) * (v1 - v2)
    assert_eq!(r1.num - r2.num, 648 * 16 * 4096 * (5 - 2));
    // as a value: (coefficient / 12) * (v1 - v2) = 54 * 3 = 162
    assert_eq!(rational_as_f64(r1) - rational_as_f64(r2), 162.0);
}

#[test]
fn algebraic_term_is_nonnegative_when_decomposition_fits_the_modulus() {
    // log2_base * level <= modulus_log in each of these
    let cases: [(u64, u64, u64, u64, u32, Rational); 4] = [
        (1, 2, 1, 1, 4, Rational { num: 3, den: 7 }),
        (3, 8, 2, 2, 10, Rational { num: 0, den: 1 }),
        (6, 16, 1, 3, 20, Rational { num: 123, den: 10 }),
        (2, 32, 4, 5, 20, Rational { num: 1, den: 1000 }),
    ];
    for (k, n, lb, l, t, v) in cases {
        let r = theoretical_variance_external_product_glwe(k, n, lb, l, t, v);
        assert!(r.num >= 0, "negative numerator for k={k}");
        assert!(r.den > 0);
    }
}

#[test]
fn algebraic_term_can_be_negative_when_decomposition_exceeds_the_modulus() {
    // log2_base * level = 5 > modulus_log = 2: the rounding term carrying
    // q^2 - b^(2*level) dominates and is negative
    let r = theoretical_variance_external_product_glwe(1, 1, 5, 1, 2, zero_variance());
    assert!(r.num < 0);
    assert_eq!(r.num, -95232);
    assert_eq!(r.den, 192 * 1024);
}

#[test]
fn ggsw_variance_coefficient_strictly_increases_with_level() {
    // with k = 1, n = 2, log2_base = 1 the coefficient of the input
    // variance is 2 * level exactly; recover it from two evaluations
    let v1 = Rational { num: 1, den: 1 };
    let v0 = Rational { num: 0, den: 1 };
    let mut previous: f64 = 0.0;
    for level in 1..=4u64 {
        let r1 = theoretical_variance_external_product_glwe(1, 2, 1, level, 10, v1);
        let r0 = theoretical_variance_external_product_glwe(1, 2, 1, level, 10, v0);
        assert_eq!(r1.den, r0.den);
        let coefficient = rational_as_f64(r1) - rational_as_f64(r0);
        assert_eq!(coefficient, 2.0 * level as f64);
        assert!(coefficient > previous);
        previous = coefficient;
    }
}

#[test]
fn log2_base_zero_means_base_one() {
    // b = 1: b^2 + 2 = 3 and b^(2*level) = 1, so with k = n = 1, level = 2,
    // modulus_log = 3 and variance 2 the numerator is
    // 12*2*16*1 + (4*63*64*3 + 6*64) = 49152 over 192, i.e. exactly 256
    let r = theoretical_variance_external_product_glwe(
        1,
        1,
        0,
        2,
        3,
        Rational { num: 2, den: 1 },
    );
    assert_eq!(r.num, 49152);
    assert_eq!(r.den, 192);
    assert_eq!(rational_as_f64(r), 256.0);
}

#[test]
fn large_modulus_stays_exact() {
    // modulus_log = 30 keeps every intermediate inside i128:
    // numerator = 4*(2^60 - 4)*2^60*3 + 6*2^60*4 = 12*2^120 - 24*2^60
    let r = theoretical_variance_external_product_glwe(1, 1, 1, 1, 30, zero_variance());
    assert_eq!(r.num, 12 * (1i128 << 120) - 24 * (1i128 << 60));
    assert_eq!(r.den, 768);
}

#[test]
fn fft_factor_matches_the_closed_form() {
    // 2^22 * level * b^2 * n^2 * (k+1) * q^2
    // = 2^22 * 2 * 16 * 9 * 4 * 1024 for k=3, n=3, log2_base=2, level=2, t=5
    let factor = fft_noise_factor_external_product_glwe(3, 3, 2, 2, 5).unwrap();
    assert_eq!(factor, 4947802324992u128);
}
