//! Noise-growth estimation for the external product between a GGSW and a
//! GLWE ciphertext.
//!
//! The estimate is the sum of two contributions:
//!
//! * an algebraic term: the closed-form variance added by gadget
//!   decomposition and by the binary secret-key coefficients, an exact
//!   rational number of the scheme parameters and of the input GGSW
//!   variance ([`model::algebraic_variance_num`],
//!   [`model::algebraic_variance_den`]);
//! * an FFT term: the variance added by the floating-point FFT used for
//!   polynomial multiplication, an empirically fitted scaling weight times
//!   an integer factor of the parameters ([`model::fft_noise_factor`]).
//!
//! The module [`model`] states both contributions over unbounded integers
//! and proves the laws the estimate obeys; the module [`estimator`] computes
//! them exactly in machine integers. The scaling weight of the FFT term is
//! irrational, so the final floating-point sum of the two contributions is
//! left to the caller.

pub mod estimator;
pub mod model;
