use vstd::prelude::*;
use crate::source::RandomSource;

verus! {

/// How many rejection rounds a draw tolerates before it falls back to the
/// direct simulator. Acceptance succeeds with substantial probability on
/// every round, so an honest randomness source exhausts this budget with
/// probability indistinguishable from zero; the bound only keeps every call
/// finite when the source misbehaves, and the fallback is the correctness
/// baseline, so the sampled distribution is unchanged either way.
pub const REJECTION_RETRY_LIMIT: u64 = 1000000;

/// A success probability, held exactly as the ratio `num / den`.
///
/// A well-formed probability satisfies `0 < num < den`, so the ratio lies
/// strictly between 0 and 1; `Binomial::new` establishes this once and every
/// operation preserves it.
#[derive(Clone, Copy, Debug, PartialEq, Eq, Structural)]
pub struct Prob {
    pub num: u32,
    pub den: u32,
}

impl Prob {
    /// Well-formedness: the ratio denotes a probability strictly inside (0, 1).
    pub open spec fn wf(self) -> bool {
        0 < self.num < self.den
    }

    /// The complementary probability `1 - p`, as a ratio over the same denominator.
    pub open spec fn complement(self) -> Prob {
        Prob { num: (self.den - self.num) as u32, den: self.den }
    }

    /// Whether the symmetry normalization flips this probability, i.e. `p > 1/2`.
    pub open spec fn flipped(self) -> bool {
        2 * self.num > self.den
    }

    /// Numerator of the normalized probability `p' = min(p, 1 - p)`,
    /// over the unchanged denominator.
    pub open spec fn eff_num(self) -> int {
        if self.flipped() {
            self.den - self.num
        } else {
            self.num as int
        }
    }

    /// Whether the symmetry normalization will flip this probability.
    pub fn is_flipped(&self) -> (r: bool)
        ensures
            r == self.flipped(),
    {
        (self.num as u64) * 2 > self.den as u64
    }

    /// The normalized probability `p' = min(p, 1 - p)`: the working value of
    /// the sampler, kept at or below one half so that the expected value of
    /// the raw count stays at or below `n / 2`.
    pub fn effective(&self) -> (r: Prob)
        requires
            self.wf(),
        ensures
            r.wf(),
            2 * r.num <= r.den,
            r.den == self.den,
            r.num as int == self.eff_num(),
    {
        if self.is_flipped() {
            Prob { num: self.den - self.num, den: self.den }
        } else {
            *self
        }
    }
}

/// Why constructing a sampler was refused.
#[derive(Clone, Copy, Debug, PartialEq, Eq, Structural)]
pub enum BinomialError {
    /// The denominator of the probability ratio was zero, so it denotes no probability.
    ZeroDenominator,
    /// The ratio denotes `p <= 0`; the distribution requires `p > 0`.
    ProbNotPositive,
    /// The ratio denotes `p >= 1`; the distribution requires `p < 1`.
    ProbNotBelowOne,
}

/// The binomial distribution `Binomial(n, p)`: the number of successes in `n`
/// independent trials that each succeed with probability `p = p.num / p.den`.
///
/// This distribution has density function
/// `f(k) = n! / (k! (n-k)!) p^k (1-p)^(n-k)` for `0 <= k <= n`.
#[derive(Clone, Copy, Debug, PartialEq, Eq, Structural)]
pub struct Binomial {
    /// Number of trials.
    pub n: u64,
    /// Probability of success of each trial, strictly inside (0, 1).
    pub p: Prob,
}

impl Binomial {
    /// Well-formedness: the stored probability lies strictly inside (0, 1).
    pub open spec fn wf(self) -> bool {
        self.p.wf()
    }

    /// The distribution with the complementary success probability `1 - p`.
    pub open spec fn complement(self) -> Binomial {
        Binomial { n: self.n, p: self.p.complement() }
    }

    /// Whether a draw runs the direct simulator rather than the rejection
    /// method: true when the normalized expected value `n * p'` is below 25.
    pub open spec fn uses_direct(self) -> bool {
        self.n * self.p.eff_num() < 25 * self.p.den
    }

    /// What a raw count drawn under the normalized probability becomes once
    /// the symmetry is restored: `n - raw` when the normalization flipped `p`,
    /// `raw` itself otherwise.
    pub open spec fn restored(self, raw: u64) -> int {
        if self.p.flipped() {
            self.n - raw
        } else {
            raw as int
        }
    }

    /// Construct a `Binomial(n, p)` sampler with `p` given exactly as the
    /// ratio `num / den`. The parameters are stored unchanged; construction
    /// fails exactly when the ratio does not denote a probability strictly
    /// between 0 and 1.
    pub fn new(n: u64, num: u32, den: u32) -> (r: Result<Binomial, BinomialError>)
        ensures
            den == 0 ==> r == Err::<Binomial, BinomialError>(BinomialError::ZeroDenominator),
            den > 0 && num == 0 ==> r == Err::<Binomial, BinomialError>(BinomialError::ProbNotPositive),
            den > 0 && num >= den ==> r == Err::<Binomial, BinomialError>(BinomialError::ProbNotBelowOne),
            0 < num < den ==> r == Ok::<Binomial, BinomialError>(Binomial { n, p: Prob { num, den } }),
            r is Ok ==> r->Ok_0.wf() && r->Ok_0.n == n,
    {
        if den == 0 {
            Err(BinomialError::ZeroDenominator)
        } else if num == 0 {
            Err(BinomialError::ProbNotPositive)
        } else if num >= den {
            Err(BinomialError::ProbNotBelowOne)
        } else {
            Ok(Binomial { n, p: Prob { num, den } })
        }
    }

    /// Restores the symmetry normalization on a raw count drawn under the
    /// normalized probability: the count of failures and the count of
    /// successes exchange roles when the normalization flipped `p`.
    pub fn restore(&self, raw: u64) -> (r: u64)
        requires
            self.wf(),
            raw <= self.n,
        ensures
            r as int == self.restored(raw),
            r <= self.n,
    {
        if self.p.is_flipped() {
            self.n - raw
        } else {
            raw
        }
    }

    /// Decides which sampling strategy a draw takes: the direct simulator
    /// exactly when the normalized expected value `n * p'` is below 25,
    /// the rejection method otherwise.
    pub fn use_direct(&self) -> (r: bool)
        requires
            self.wf(),
        ensures
            r == self.uses_direct(),
    {
        let eff = self.p.effective();
        proof {
            assert((self.n as int) * (eff.num as int) < 0x1_0000_0000_0000_0000 * 0x1_0000_0000)
                by (nonlinear_arith)
                requires
                    self.n <= 0xffff_ffff_ffff_ffff,
                    eff.num <= 0xffff_ffff,
            ;
        }
        (self.n as u128) * (eff.num as u128) < 25 * (eff.den as u128)
    }

    /// Draws one variate of `Binomial(n, p)`, consuming randomness from
    /// `rng`. The result always lies in the support `[0, n]`, whatever the
    /// source answers; in particular `n == 0` always yields 0.
    ///
    /// A draw normalizes `p` to `p' = min(p, 1 - p)`, samples a raw count of
    /// `Binomial(n, p')` — by direct simulation when the expected value
    /// `n * p'` is below 25, by the rejection method otherwise — and then
    /// restores the symmetry, since the successes of `Binomial(n, p)` are the
    /// failures of `Binomial(n, 1 - p)`.
    pub fn sample<R: RandomSource>(&self, rng: &mut R) -> (r: u64)
        requires
            self.wf(),
        ensures
            r <= self.n,
            self.n == 0 ==> r == 0,
    {
        let eff = self.p.effective();
        let raw: u64 = if self.use_direct() {
            sample_direct(self.n, eff, rng)
        } else {
            sample_rejection(self.n, eff, rng)
        };
        self.restore(raw)
    }
}

/// The direct simulator: flips the `n` trials one at a time and counts the
/// successes. The correctness baseline for small expected values; exact
/// relative to the trial model, at a cost of one weighted draw per trial.
fn sample_direct<R: RandomSource>(n: u64, p: Prob, rng: &mut R) -> (r: u64)
    requires
        p.wf(),
    ensures
        r <= n,
{
    let mut count: u64 = 0;
    let mut i: u64 = 0;
    while i < n
        invariant
            i <= n,
            count <= i,
            p.wf(),
        decreases n - i,
    {
        if rng.bernoulli(p.num, p.den) {
            count = count + 1;
        }
        i = i + 1;
    }
    count
}

/// The rejection sampler for large expected values: asks the source for
/// Lorentzian-proposal rounds until one is accepted, and takes its floored
/// candidate. A candidate outside the support `[0, n]` is never taken, so
/// the result is in range whatever the source proposes; once the retry
/// budget is exhausted — which only a misbehaving source brings about — the
/// draw falls back to the direct simulator.
fn sample_rejection<R: RandomSource>(n: u64, p: Prob, rng: &mut R) -> (r: u64)
    requires
        p.wf(),
        2 * p.num <= p.den,
    ensures
        r <= n,
{
    let mut attempt: u64 = 0;
    while attempt < REJECTION_RETRY_LIMIT
        invariant
            p.wf(),
            2 * p.num <= p.den,
        decreases REJECTION_RETRY_LIMIT - attempt,
    {
        let (candidate, accepted) = rng.propose(n, p.num, p.den);
        if accepted && candidate <= n {
            return candidate;
        }
        attempt = attempt + 1;
    }
    sample_direct(n, p, rng)
}

/// Symmetry of the normalization: `p` and `1 - p` normalize to the same
/// working probability `p'`, so a draw for `Binomial(n, p)` and one for
/// `Binomial(n, 1 - p)` put the same questions to the randomness source and,
/// under matched sources, obtain the same raw count.
pub proof fn lemma_effective_complement(p: Prob)
    requires
        p.wf(),
    ensures
        p.complement().wf(),
        p.complement().den == p.den,
        p.complement().eff_num() == p.eff_num(),
{
}

/// The symmetry law `Binomial(n, p) = n - Binomial(n, 1 - p)` under matched
/// randomness: complementary parameters share the working probability and the
/// strategy branch, so matched sources hand both draws one and the same raw
/// count, and when `p != 1/2` exactly one of the two is flipped by the
/// normalization, making the restored results sum to `n`. (At `p == 1/2` the
/// two distributions coincide and neither is flipped, so the pathwise sum
/// form does not apply.)
pub proof fn lemma_symmetry(b: Binomial, raw: u64)
    requires
        b.wf(),
        raw <= b.n,
        2 * b.p.num != b.p.den,
    ensures
        b.complement().wf(),
        b.complement().n == b.n,
        b.complement().p.eff_num() == b.p.eff_num(),
        b.complement().p.den == b.p.den,
        b.complement().uses_direct() == b.uses_direct(),
        b.restored(raw) + b.complement().restored(raw) == b.n,
{
    lemma_effective_complement(b.p);
}

} // verus!
