//! The mathematical model of the external-product noise estimate.
//!
//! All quantities are exact. A variance expressed relative to the
//! ciphertext modulus `q = 2^modulus_log` is converted to absolute scale by
//! multiplying with `q^2 = 2^(2 * modulus_log)`; the binary secret-key
//! coefficients have modular variance `1/4` and modular squared expectation
//! `1/4`.
//!
//! With `k` the GLWE dimension, `n` the polynomial size, `b = 2^log2_base`
//! the decomposition base and `l` the decomposition level count, the
//! algebraic contribution of the external product is
//!
//! ```text
//!   l * (k+1) * n * (b^2 + 2) / 12 * variance_ggsw
//! + (q^2 - b^2l) / (24 * b^2l) * (q^2 + k * n * q^2 / 2)
//! + k * n / 8 * (q^2 / 4)
//! + 1/16 * (1 - k * n)^2 * (q^2 / 4)
//! ```
//!
//! Over the common denominator `192 * b^2l * v_den` (for an input variance
//! `v_num / v_den`) this is the exact rational
//! [`algebraic_variance_num`]` / `[`algebraic_variance_den`].
//!
//! The FFT contribution is the empirically fitted scaling weight times
//! [`fft_noise_factor`]`
//! == 2^22 * l * b^2 * n^2 * (k+1) * q^2`; the weight is a fixed positive
//! real constant applied by the (unverified) caller, so only the integer
//! factor is modelled here.

use vstd::prelude::*;
use vstd::arithmetic::power2::*;

verus! {

/// `q^2 = 2^(2 * modulus_log)`: the squared ciphertext modulus, which
/// converts a modular variance to absolute scale.
pub open spec fn q_square(modulus_log: nat) -> nat {
    pow2(2 * modulus_log)
}

/// `b^2` where `b = 2^log2_base` is the gadget-decomposition base.
pub open spec fn base_square(log2_base: nat) -> nat {
    pow2(2 * log2_base)
}

/// `b^(2 * level)`: the square of the decomposition range `b^level`.
pub open spec fn base_pow_2level(log2_base: nat, level: nat) -> nat {
    pow2(2 * log2_base * level)
}

/// Twelve times the coefficient that multiplies the input GGSW variance in
/// the algebraic contribution: `level * (k+1) * n * (b^2 + 2)`.
pub open spec fn ggsw_variance_coeff(k: nat, n: nat, log2_base: nat, level: nat) -> nat {
    level * (k + 1) * n * (base_square(log2_base) + 2)
}

/// Numerator, over the denominator `192 * b^(2*level)`, of the part of the
/// algebraic contribution that does not depend on the input GGSW variance:
/// the decomposition rounding error plus the secret-key terms.
pub open spec fn decomposition_noise_num(
    k: nat,
    n: nat,
    log2_base: nat,
    level: nat,
    modulus_log: nat,
) -> int {
    let q2 = q_square(modulus_log) as int;
    let b2l = base_pow_2level(log2_base, level) as int;
    let kn = (k * n) as int;
    4 * (q2 - b2l) * q2 * (2 + kn) + 6 * kn * q2 * b2l + 3 * ((kn - 1) * (kn - 1)) * q2 * b2l
}

/// Denominator of [`decomposition_noise_num`].
pub open spec fn decomposition_noise_den(log2_base: nat, level: nat) -> nat {
    192 * base_pow_2level(log2_base, level)
}

/// Numerator of the full algebraic contribution for an input GGSW variance
/// `v_num / v_den`, over the denominator [`algebraic_variance_den`].
pub open spec fn algebraic_variance_num(
    k: nat,
    n: nat,
    log2_base: nat,
    level: nat,
    modulus_log: nat,
    v_num: int,
    v_den: int,
) -> int {
    ggsw_variance_coeff(k, n, log2_base, level) * v_num * 16 * base_pow_2level(log2_base, level)
        + decomposition_noise_num(k, n, log2_base, level, modulus_log) * v_den
}

/// Denominator of the full algebraic contribution: `192 * b^(2*level) * v_den`.
pub open spec fn algebraic_variance_den(log2_base: nat, level: nat, v_den: int) -> int {
    decomposition_noise_den(log2_base, level) * v_den
}

/// The integer factor of the FFT noise contribution:
/// `2^22 * level * b^2 * n^2 * (k+1) * q^2`. The FFT contribution itself is
/// this factor times the fitted scaling weight, a fixed positive real
/// applied by the caller.
pub open spec fn fft_noise_factor(
    k: nat,
    n: nat,
    log2_base: nat,
    level: nat,
    modulus_log: nat,
) -> nat {
    0x400000 * level * base_square(log2_base) * n * n * (k + 1) * q_square(modulus_log)
}

/// Law: the algebraic contribution is linear in the input GGSW variance.
///
/// For two input variances `v1 / v_den` and `v2 / v_den` over the same
/// denominator, the numerators differ by
/// `ggsw_variance_coeff * 16 * b^(2*level) * (v1 - v2)` while the
/// denominator `192 * b^(2*level) * v_den` is unchanged; equivalently (the
/// second conclusion, cross-multiplied) the difference of the two rational
/// values is `ggsw_variance_coeff / 12` times `(v1 - v2) / v_den`. The FFT
/// factor does not mention the input variance, so the difference of two
/// full estimates is the same.
pub proof fn lemma_algebraic_variance_linear(
    k: nat,
    n: nat,
    log2_base: nat,
    level: nat,
    modulus_log: nat,
    v1: int,
    v2: int,
    v_den: int,
)
    requires
        v_den > 0,
    ensures
        algebraic_variance_num(k, n, log2_base, level, modulus_log, v1, v_den)
            - algebraic_variance_num(k, n, log2_base, level, modulus_log, v2, v_den)
            == ggsw_variance_coeff(k, n, log2_base, level) * 16
                * base_pow_2level(log2_base, level) * (v1 - v2),
        (algebraic_variance_num(k, n, log2_base, level, modulus_log, v1, v_den)
            - algebraic_variance_num(k, n, log2_base, level, modulus_log, v2, v_den))
            * (12 * v_den)
            == ggsw_variance_coeff(k, n, log2_base, level) * (v1 - v2)
                * algebraic_variance_den(log2_base, level, v_den),
{
    let c = ggsw_variance_coeff(k, n, log2_base, level) as int;
    let b = base_pow_2level(log2_base, level) as int;
    let t = decomposition_noise_num(k, n, log2_base, level, modulus_log);
    assert((c * v1 * 16 * b + t * v_den) - (c * v2 * 16 * b + t * v_den)
        == c * 16 * b * (v1 - v2)) by (nonlinear_arith);
    assert(c * 16 * b * (v1 - v2) * (12 * v_den) == c * (v1 - v2) * (192 * b * v_den))
        by (nonlinear_arith);
}

/// Law: for a non-negative input GGSW variance, and a decomposition range
/// that does not exceed the modulus (`log2_base * level <= modulus_log`,
/// that is `b^(2*level) <= q^2`), the algebraic contribution is
/// non-negative: every summand of its numerator is a product of
/// non-negative factors, and its denominator is positive.
///
/// The side condition cannot be dropped: with `k = n = level = 1`,
/// `log2_base = 5` and `modulus_log = 2` the summand carrying
/// `q^2 - b^(2*level)` is negative and dominates the numerator. The FFT
/// factor is a natural number scaled by a positive weight, so the full
/// estimate is non-negative whenever the algebraic contribution is.
pub proof fn lemma_algebraic_variance_nonneg(
    k: nat,
    n: nat,
    log2_base: nat,
    level: nat,
    modulus_log: nat,
    v_num: int,
    v_den: int,
)
    requires
        k >= 1,
        n >= 1,
        level >= 1,
        log2_base * level <= modulus_log,
        v_num >= 0,
        v_den > 0,
    ensures
        algebraic_variance_num(k, n, log2_base, level, modulus_log, v_num, v_den) >= 0,
        algebraic_variance_den(log2_base, level, v_den) > 0,
{
    let q2 = q_square(modulus_log) as int;
    let b2l = base_pow_2level(log2_base, level) as int;
    let kn = (k * n) as int;
    let c = ggsw_variance_coeff(k, n, log2_base, level) as int;
    lemma_pow2_pos(2 * modulus_log);
    lemma_pow2_pos(2 * log2_base * level);
    assert(2 * log2_base * level <= 2 * modulus_log) by (nonlinear_arith)
        requires
            log2_base * level <= modulus_log,
    ;
    if 2 * log2_base * level < 2 * modulus_log {
        lemma_pow2_strictly_increases(2 * log2_base * level, 2 * modulus_log);
    }
    assert(b2l <= q2);
    assert(4 * (q2 - b2l) * q2 * (2 + kn) >= 0) by (nonlinear_arith)
        requires
            q2 >= b2l,
            q2 >= 1,
            kn >= 0,
    ;
    assert(6 * kn * q2 * b2l >= 0) by (nonlinear_arith)
        requires
            kn >= 0,
            q2 >= 1,
            b2l >= 1,
    ;
    assert(3 * ((kn - 1) * (kn - 1)) * q2 * b2l >= 0) by (nonlinear_arith)
        requires
            q2 >= 1,
            b2l >= 1,
    ;
    assert(c * v_num * 16 * b2l >= 0) by (nonlinear_arith)
        requires
            c >= 0,
            v_num >= 0,
            b2l >= 1,
    ;
    assert(192 * b2l * v_den > 0) by (nonlinear_arith)
        requires
            b2l >= 1,
            v_den > 0,
    ;
}

/// Law: the coefficient that multiplies the input GGSW variance strictly
/// increases with the level count: every further level adds more
/// multiply-accumulate terms. The variance-independent part is not
/// monotone in the level in general, so nothing is claimed of the total;
/// the level also changes `b^(2*level)`, for which see
/// [`lemma_base_pow_2level_increases_in_level`].
pub proof fn lemma_ggsw_variance_coeff_increases_in_level(
    k: nat,
    n: nat,
    log2_base: nat,
    level1: nat,
    level2: nat,
)
    requires
        n >= 1,
        level1 < level2,
    ensures
        ggsw_variance_coeff(k, n, log2_base, level1)
            < ggsw_variance_coeff(k, n, log2_base, level2),
{
    let bsq = base_square(log2_base) as int;
    lemma_pow2_pos(2 * log2_base);
    assert(level1 * (k + 1) * n * (bsq + 2) < level2 * (k + 1) * n * (bsq + 2))
        by (nonlinear_arith)
        requires
            level1 < level2,
            k >= 0,
            n >= 1,
            bsq >= 1,
    ;
}

/// Law: once the decomposition base is at least 2 (`log2_base >= 1`), the
/// power `b^(2*level)` strictly increases with the level count; for
/// `log2_base == 0` the base is 1 and the power stays 1.
pub proof fn lemma_base_pow_2level_increases_in_level(
    log2_base: nat,
    level1: nat,
    level2: nat,
)
    requires
        log2_base >= 1,
        level1 < level2,
    ensures
        base_pow_2level(log2_base, level1) < base_pow_2level(log2_base, level2),
{
    assert(2 * log2_base * level1 < 2 * log2_base * level2) by (nonlinear_arith)
        requires
            log2_base >= 1,
            level1 < level2,
    ;
    lemma_pow2_strictly_increases(2 * log2_base * level1, 2 * log2_base * level2);
}

} // verus!

