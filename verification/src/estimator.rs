//! Exact evaluation of the external-product noise model in machine
//! integers.

use vstd::prelude::*;
use vstd::arithmetic::power2::{
    lemma2_to64, lemma2_to64_rest, lemma_pow2_adds, lemma_pow2_strictly_increases,
    lemma_pow2_unfold, pow2,
};
use crate::model::{
    algebraic_variance_den, algebraic_variance_num, base_pow_2level, base_square,
    fft_noise_factor, ggsw_variance_coeff, lemma_algebraic_variance_nonneg, q_square,
};

verus! {

/// The single failure of the estimator: the FFT noise model was fitted only
/// for GLWE dimensions 1 through 6, and refuses to extrapolate outside that
/// range.
#[derive(Clone, Copy, Debug, PartialEq, Eq, Structural)]
pub enum NoiseEstimateError {
    UnsupportedDimension,
}

/// An exact rational value with a positive denominator.
#[derive(Clone, Copy, Debug, PartialEq, Eq, Structural)]
pub struct Rational {
    pub num: i128,
    pub den: i128,
}

impl Rational {
    /// A rational is well formed when its denominator is positive.
    pub open spec fn wf(self) -> bool {
        self.den > 0
    }
}

/// Checks that the GLWE dimension lies in the range the FFT noise model was
/// fitted for.
pub fn check_glwe_dimension(glwe_dimension: u64) -> (r: Result<(), NoiseEstimateError>)
    ensures
        r is Ok <==> 1 <= glwe_dimension <= 6,
        r is Err ==> r == Err::<(), NoiseEstimateError>(NoiseEstimateError::UnsupportedDimension),
{
    if 1 <= glwe_dimension && glwe_dimension <= 6 {
        Ok(())
    } else {
        Err(NoiseEstimateError::UnsupportedDimension)
    }
}

/// `2^exponent` as an `i128`.
fn pow2_i128(exponent: u64) -> (r: i128)
    requires
        exponent <= 126,
    ensures
        r == pow2(exponent as nat),
        1 <= r <= 0x40000000000000000000000000000000,
{
    proof {
        lemma2_to64();
        lemma2_to64_rest();
        lemma_pow2_adds(64, 62);
        assert(pow2(126) == 0x40000000000000000000000000000000);
    }
    let mut r: i128 = 1;
    let mut i: u64 = 0;
    while i < exponent
        invariant
            i <= exponent,
            exponent <= 126,
            r == pow2(i as nat),
            1 <= r <= 0x40000000000000000000000000000000,
            pow2(126) == 0x40000000000000000000000000000000,
        decreases exponent - i,
    {
        proof {
            lemma_pow2_unfold((i + 1) as nat);
            if i + 1 < 126 {
                lemma_pow2_strictly_increases((i + 1) as nat, 126);
            }
        }
        r = r * 2;
        i = i + 1;
    }
    r
}

/// Magnitude bound on [`crate::model::decomposition_noise_num`]: the difference
/// `q^2 - b^(2*level)` is replaced by the larger of the two, so every term
/// is non-negative and at least as large as the one it bounds.
pub open spec fn decomposition_noise_num_bound(
    k: nat,
    n: nat,
    log2_base: nat,
    level: nat,
    modulus_log: nat,
) -> int {
    let q2 = q_square(modulus_log) as int;
    let b2l = base_pow_2level(log2_base, level) as int;
    let kn = (k * n) as int;
    let m = if q2 >= b2l {
        q2
    } else {
        b2l
    };
    4 * m * q2 * (2 + kn) + 6 * kn * q2 * b2l + 3 * ((kn - 1) * (kn - 1)) * q2 * b2l
}

/// The exact algebraic contribution is evaluated in `i128` arithmetic;
/// these bounds say that every intermediate product of that evaluation
/// fits. They restrict nothing but the machine width: each conjunct is an
/// intermediate value of the formula itself.
pub open spec fn theoretical_variance_fits(
    k: nat,
    n: nat,
    log2_base: nat,
    level: nat,
    modulus_log: nat,
    v_num: int,
    v_den: int,
) -> bool {
    let q2 = q_square(modulus_log) as int;
    let b2l = base_pow_2level(log2_base, level) as int;
    let kn = (k * n) as int;
    let m = if q2 >= b2l {
        q2
    } else {
        b2l
    };
    let coeff = ggsw_variance_coeff(k, n, log2_base, level) as int;
    let bound = decomposition_noise_num_bound(k, n, log2_base, level, modulus_log);
    &&& kn + 2 <= i128::MAX
    &&& level * (k + 1) <= i128::MAX
    &&& level * (k + 1) * n <= i128::MAX
    &&& coeff <= i128::MAX
    &&& coeff * v_num <= i128::MAX
    &&& coeff * v_num * 16 <= i128::MAX
    &&& coeff * v_num * 16 * b2l <= i128::MAX
    &&& 4 * m <= i128::MAX
    &&& 4 * m * q2 <= i128::MAX
    &&& 4 * m * q2 * (2 + kn) <= i128::MAX
    &&& 6 * kn <= i128::MAX
    &&& 6 * kn * q2 <= i128::MAX
    &&& 6 * kn * q2 * b2l <= i128::MAX
    &&& (kn - 1) * (kn - 1) <= i128::MAX
    &&& 3 * ((kn - 1) * (kn - 1)) <= i128::MAX
    &&& 3 * ((kn - 1) * (kn - 1)) * q2 <= i128::MAX
    &&& 3 * ((kn - 1) * (kn - 1)) * q2 * b2l <= i128::MAX
    &&& bound <= i128::MAX
    &&& bound * v_den <= i128::MAX
    &&& coeff * v_num * 16 * b2l + bound * v_den <= i128::MAX
    &&& 192 * b2l <= i128::MAX
    &&& 192 * b2l * v_den <= i128::MAX
}

/// The algebraic contribution of the external product, as the exact
/// rational `algebraic_variance_num / algebraic_variance_den`: the
/// decomposition error propagated through the multiply-accumulate terms
/// (scaled by the input GGSW variance `variance_ggsw`), plus the
/// decomposition rounding error and the secret-key terms.
pub fn theoretical_variance_external_product_glwe(
    glwe_dimension: u64,
    polynomial_size: u64,
    log2_base: u64,
    level: u64,
    ciphertext_modulus_log: u32,
    variance_ggsw: Rational,
) -> (r: Rational)
    requires
        glwe_dimension >= 1,
        polynomial_size >= 1,
        level >= 1,
        1 <= ciphertext_modulus_log <= 63,
        log2_base * level <= 63,
        variance_ggsw.num >= 0,
        variance_ggsw.wf(),
        theoretical_variance_fits(
            glwe_dimension as nat,
            polynomial_size as nat,
            log2_base as nat,
            level as nat,
            ciphertext_modulus_log as nat,
            variance_ggsw.num as int,
            variance_ggsw.den as int,
        ),
    ensures
        r.num == algebraic_variance_num(
            glwe_dimension as nat,
            polynomial_size as nat,
            log2_base as nat,
            level as nat,
            ciphertext_modulus_log as nat,
            variance_ggsw.num as int,
            variance_ggsw.den as int,
        ),
        r.den == algebraic_variance_den(
            log2_base as nat,
            level as nat,
            variance_ggsw.den as int,
        ),
        r.wf(),
        log2_base * level <= ciphertext_modulus_log ==> r.num >= 0,
{
    proof {
        assert((log2_base as int) <= 63) by (nonlinear_arith)
            requires
                (log2_base as int) * (level as int) <= 63,
                (level as int) >= 1,
                (log2_base as int) >= 0,
        ;
        assert((2 * (log2_base as int)) * (level as int) <= 126) by (nonlinear_arith)
            requires
                (log2_base as int) * (level as int) <= 63,
        ;
    }
    let exp_b2l: u64 = 2 * log2_base * level;
    let q2: i128 = pow2_i128(2 * (ciphertext_modulus_log as u64));
    let bsq: i128 = pow2_i128(2 * log2_base);
    let b2l: i128 = pow2_i128(exp_b2l);

    let ki: i128 = glwe_dimension as i128;
    let ni: i128 = polynomial_size as i128;
    let li: i128 = level as i128;
    let vn: i128 = variance_ggsw.num;
    let vd: i128 = variance_ggsw.den;

    let ghost q2s: int = q_square(ciphertext_modulus_log as nat) as int;
    let ghost b2ls: int = base_pow_2level(log2_base as nat, level as nat) as int;
    let ghost kns: int = ((glwe_dimension as nat) * (polynomial_size as nat)) as int;
    let ghost ms: int = if q2s >= b2ls {
        q2s
    } else {
        b2ls
    };
    let ghost bounds: int = decomposition_noise_num_bound(
        glwe_dimension as nat,
        polynomial_size as nat,
        log2_base as nat,
        level as nat,
        ciphertext_modulus_log as nat,
    );
    proof {
        assert(q2 == q2s);
        assert(b2l == b2ls);
        assert(bsq == base_square(log2_base as nat));
    }

    let kn: i128 = ki * ni;

    // term scaled by the input GGSW variance: coeff * v_num * 16 * b2l
    let c1: i128 = li * (ki + 1);
    let c2: i128 = c1 * ni;
    let c3: i128 = c2 * (bsq + 2);
    let t1a: i128 = c3 * vn;
    let t1b: i128 = t1a * 16;
    proof {
        assert(t1b * b2l >= 0) by (nonlinear_arith)
            requires
                t1b >= 0,
                b2l >= 1,
        ;
    }
    let t1: i128 = t1b * b2l;

    // variance-independent term: 4*(q2 - b2l)*q2*(2 + kn) + 6*kn*q2*b2l
    //                            + 3*(kn - 1)^2*q2*b2l
    let d: i128 = q2 - b2l;
    proof {
        assert(-ms <= d <= ms);
    }
    let x1: i128 = 4 * d;
    proof {
        assert(-(4 * ms * q2s) <= x1 * q2 <= 4 * ms * q2s) by (nonlinear_arith)
            requires
                -(4 * ms) <= x1 <= 4 * ms,
                q2 >= 1,
                q2 == q2s,
        ;
    }
    let x2: i128 = x1 * q2;
    proof {
        assert(-(4 * ms * q2s * (2 + kns)) <= x2 * (2 + kn) <= 4 * ms * q2s * (2 + kns))
            by (nonlinear_arith)
            requires
                -(4 * ms * q2s) <= x2 <= 4 * ms * q2s,
                kn >= 0,
                kn == kns,
        ;
    }
    let x3: i128 = x2 * (2 + kn);

    let y1: i128 = 6 * kn;
    let y2: i128 = y1 * q2;
    proof {
        assert(y2 >= 0 && y2 * b2l >= 0) by (nonlinear_arith)
            requires
                y1 >= 0,
                q2 >= 1,
                b2l >= 1,
                y2 == y1 * q2,
        ;
    }
    let y3: i128 = y2 * b2l;

    let z1: i128 = kn - 1;
    proof {
        assert(z1 * z1 >= 0) by (nonlinear_arith);
    }
    let z2: i128 = z1 * z1;
    let z3: i128 = 3 * z2;
    proof {
        assert(z3 * q2 >= 0 && z3 * q2 * b2l >= 0) by (nonlinear_arith)
            requires
                z3 >= 0,
                q2 >= 1,
                b2l >= 1,
        ;
    }
    let z4: i128 = z3 * q2;
    let z5: i128 = z4 * b2l;

    let s1: i128 = x3 + y3;
    let num2: i128 = s1 + z5;
    proof {
        assert(num2 * vd <= bounds * (variance_ggsw.den as int)
            && -(bounds * (variance_ggsw.den as int)) <= num2 * vd) by (nonlinear_arith)
            requires
                -bounds <= num2 <= bounds,
                vd >= 1,
                vd == variance_ggsw.den as int,
        ;
    }
    let t2: i128 = num2 * vd;

    let num: i128 = t1 + t2;
    let dn1: i128 = 192 * b2l;
    proof {
        assert(dn1 * vd >= 1) by (nonlinear_arith)
            requires
                dn1 >= 192,
                vd >= 1,
        ;
    }
    let den: i128 = dn1 * vd;
    proof {
        if log2_base * level <= ciphertext_modulus_log {
            lemma_algebraic_variance_nonneg(
                glwe_dimension as nat,
                polynomial_size as nat,
                log2_base as nat,
                level as nat,
                ciphertext_modulus_log as nat,
                variance_ggsw.num as int,
                variance_ggsw.den as int,
            );
        }
    }
    Rational { num, den }
}

/// The FFT factor is evaluated in `u128` arithmetic; these bounds say that
/// every intermediate product of that evaluation fits. Each conjunct is an
/// intermediate value of the factor itself.
pub open spec fn fft_noise_factor_fits(
    k: nat,
    n: nat,
    log2_base: nat,
    level: nat,
    modulus_log: nat,
) -> bool {
    let q2 = q_square(modulus_log) as int;
    let bsq = base_square(log2_base) as int;
    &&& 0x400000 * level <= u128::MAX
    &&& 0x400000 * level * bsq <= u128::MAX
    &&& 0x400000 * level * bsq * n <= u128::MAX
    &&& 0x400000 * level * bsq * n * n <= u128::MAX
    &&& 0x400000 * level * bsq * n * n * (k + 1) <= u128::MAX
    &&& 0x400000 * level * bsq * n * n * (k + 1) * q2 <= u128::MAX
}

/// The integer factor of the FFT noise contribution,
/// `2^22 * level * b^2 * n^2 * (k+1) * q^2`. The variance contributed by
/// the floating-point FFT is this factor times the empirically fitted
/// scaling weight, a fixed positive real constant that the caller applies;
/// the model was fitted only for GLWE dimensions 1 through 6 and fails
/// with [`NoiseEstimateError::UnsupportedDimension`] outside that range,
/// rather than extrapolating.
pub fn fft_noise_factor_external_product_glwe(
    glwe_dimension: u64,
    polynomial_size: u64,
    log2_base: u64,
    level: u64,
    ciphertext_modulus_log: u32,
) -> (r: Result<u128, NoiseEstimateError>)
    requires
        1 <= ciphertext_modulus_log <= 63,
        log2_base <= 63,
        fft_noise_factor_fits(
            glwe_dimension as nat,
            polynomial_size as nat,
            log2_base as nat,
            level as nat,
            ciphertext_modulus_log as nat,
        ),
    ensures
        r is Ok <==> 1 <= glwe_dimension <= 6,
        1 <= glwe_dimension <= 6 ==> r == Ok::<u128, NoiseEstimateError>(
            fft_noise_factor(
                glwe_dimension as nat,
                polynomial_size as nat,
                log2_base as nat,
                level as nat,
                ciphertext_modulus_log as nat,
            ) as u128,
        ),
        r is Err ==> r == Err::<u128, NoiseEstimateError>(
            NoiseEstimateError::UnsupportedDimension,
        ),
{
    if glwe_dimension < 1 || glwe_dimension > 6 {
        return Err(NoiseEstimateError::UnsupportedDimension);
    }
    let bsq: i128 = pow2_i128(2 * log2_base);
    let q2: i128 = pow2_i128(2 * (ciphertext_modulus_log as u64));
    let f1: u128 = 0x400000u128 * (level as u128);
    let f2: u128 = f1 * (bsq as u128);
    let f3: u128 = f2 * (polynomial_size as u128);
    let f4: u128 = f3 * (polynomial_size as u128);
    let f5: u128 = f4 * ((glwe_dimension as u128) + 1);
    let f6: u128 = f5 * (q2 as u128);
    Ok(f6)
}

/// The two contributions of an external-product noise estimate. The total
/// variance is `algebraic` plus the fitted FFT scaling weight times
/// `fft_factor`; the weight is irrational, so that final sum is left to
/// the caller's floating-point arithmetic, which the FFT term dominates
/// for typical parameters.
#[derive(Clone, Copy, Debug, PartialEq, Eq, Structural)]
pub struct ExternalProductVariance {
    pub algebraic: Rational,
    pub fft_factor: u128,
}

/// Estimates the noise variance of the GLWE ciphertext produced by the
/// external product of a GGSW ciphertext (of variance `variance_ggsw`)
/// with a GLWE ciphertext: the exact algebraic contribution together with
/// the FFT factor. Fails with
/// [`NoiseEstimateError::UnsupportedDimension`], and only with it, when
/// the GLWE dimension lies outside the fitted range 1 through 6.
pub fn variance_external_product_glwe(
    glwe_dimension: u64,
    polynomial_size: u64,
    log2_base: u64,
    level: u64,
    ciphertext_modulus_log: u32,
    variance_ggsw: Rational,
) -> (r: Result<ExternalProductVariance, NoiseEstimateError>)
    requires
        polynomial_size >= 1,
        level >= 1,
        1 <= ciphertext_modulus_log <= 63,
        log2_base * level <= 63,
        variance_ggsw.num >= 0,
        variance_ggsw.wf(),
        theoretical_variance_fits(
            glwe_dimension as nat,
            polynomial_size as nat,
            log2_base as nat,
            level as nat,
            ciphertext_modulus_log as nat,
            variance_ggsw.num as int,
            variance_ggsw.den as int,
        ),
        fft_noise_factor_fits(
            glwe_dimension as nat,
            polynomial_size as nat,
            log2_base as nat,
            level as nat,
            ciphertext_modulus_log as nat,
        ),
    ensures
        r is Ok <==> 1 <= glwe_dimension <= 6,
        r matches Ok(v) ==> {
            &&& v.algebraic.num == algebraic_variance_num(
                glwe_dimension as nat,
                polynomial_size as nat,
                log2_base as nat,
                level as nat,
                ciphertext_modulus_log as nat,
                variance_ggsw.num as int,
                variance_ggsw.den as int,
            )
            &&& v.algebraic.den == algebraic_variance_den(
                log2_base as nat,
                level as nat,
                variance_ggsw.den as int,
            )
            &&& v.algebraic.wf()
            &&& v.fft_factor == fft_noise_factor(
                glwe_dimension as nat,
                polynomial_size as nat,
                log2_base as nat,
                level as nat,
                ciphertext_modulus_log as nat,
            )
        },
        log2_base * level <= ciphertext_modulus_log ==> (r matches Ok(v)
            ==> v.algebraic.num >= 0),
        r is Err ==> r == Err::<ExternalProductVariance, NoiseEstimateError>(
            NoiseEstimateError::UnsupportedDimension,
        ),
{
    if let Err(e) = check_glwe_dimension(glwe_dimension) {
        return Err(e);
    }
    proof {
        assert((log2_base as int) <= 63) by (nonlinear_arith)
            requires
                (log2_base as int) * (level as int) <= 63,
                (level as int) >= 1,
                (log2_base as int) >= 0,
        ;
    }
    let algebraic = theoretical_variance_external_product_glwe(
        glwe_dimension,
        polynomial_size,
        log2_base,
        level,
        ciphertext_modulus_log,
        variance_ggsw,
    );
    match fft_noise_factor_external_product_glwe(
        glwe_dimension,
        polynomial_size,
        log2_base,
        level,
        ciphertext_modulus_log,
    ) {
        Ok(fft_factor) => Ok(ExternalProductVariance { algebraic, fft_factor }),
        Err(e) => Err(e),
    }
}

} // verus!
