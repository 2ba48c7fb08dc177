//! Sampling from the binomial distribution `Binomial(n, p)`.
//!
//! The sampler is an immutable value holding the trial count `n` and the
//! per-trial success probability `p`, given exactly as a ratio of integers.
//! Each draw consumes randomness from a caller-supplied source and returns
//! an integer in `[0, n]`; that range bound, the parameter validation, the
//! symmetry normalization and the dispatch between the direct simulator and
//! the rejection method are all stated and proved here.

pub mod sampler;
pub mod source;
