use vstd::prelude::*;

verus! {

/// The stochastic primitives a binomial sampler consumes, supplied by the
/// caller as an injected capability so that the sampler can be driven by a
/// real generator or by a deterministic, seeded one.
///
/// Probabilities cross this interface as exact integer ratios `num / den`.
/// Nothing is promised about the values drawn: the sampler's own contracts
/// hold for every implementation, however it behaves.
pub trait RandomSource {
    /// Draws one boolean that should be true with probability `num / den`.
    /// Used by the direct simulator, once per Bernoulli trial.
    fn bernoulli(&mut self, num: u32, den: u32) -> (b: bool)
        requires
            0 < den,
            num <= den,
    ;

    /// Runs one round of the accept/reject proposal for `Binomial(trials, num/den)`:
    /// draws a Lorentzian (Cauchy) deviate scaled around the expected value
    /// `trials * num / den`, floors it into the integer support, and weighs it
    /// against the binomial probability at that point. Returns the floored
    /// candidate and whether the acceptance test passed.
    ///
    /// This step works in continuous arithmetic, so it lives with the source
    /// implementation; the sampler trusts neither component of the result and
    /// re-checks the candidate against the support before using it.
    fn propose(&mut self, trials: u64, num: u32, den: u32) -> (r: (u64, bool))
        requires
            0 < num,
            2 * num <= den,
    ;
}

} // verus!
