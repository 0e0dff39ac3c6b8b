//! The seeded pseudo-random source that a stroke composition draws from.
//!
//! `SeededRng` owns one PCG64 generator together with two ghost records:
//! the seed it was created from and the history of draws made so far. Each
//! draw is performed by a trusted function whose result the contracts refer
//! to through an uninterpreted name over `(parameters, seed, history)`:
//! a seeded PCG64 stream is a pure function of its seed, and the state it
//! has reached is determined by the seed and by which draws were made, so
//! the value of each next draw is a function of those records alone. That
//! is what makes the composition of a stroke provably reproducible.
//!
//! The fields are private and every construction and draw goes through the
//! functions of this module, which keep the ghost records in step with the
//! generator they describe.

use core::primitive::f64 as Fbin;
use rand::SeedableRng;
use rand_distr::Distribution;
use vstd::prelude::*;

use crate::fbits::in_range_bits;
use crate::fbits::is_finite_bits;
use crate::fbits::is_nan_bits;
use crate::fbits::lt_bits;
use crate::fbits::sign_bit;

verus! {

#[verifier::external_type_specification]
#[verifier::external_body]
pub struct ExLcg128Xsl64(rand_pcg::Lcg128Xsl64);

/// History tag of a uniform draw over a range.
pub const DRAW_UNIFORM: u64 = 1;

/// History tag of a normal (Gaussian) draw.
pub const DRAW_NORMAL: u64 = 2;

/// History tag of a unit-rate exponential draw.
pub const DRAW_EXP: u64 = 3;

/// History tag of a fair boolean draw.
pub const DRAW_COIN: u64 = 4;

/// The value of a uniform draw over `[lo, hi)` by a PCG64 stream seeded
/// with `seed` after the draws in `history`.
pub uninterp spec fn uniform_of(lo: u64, hi: u64, seed: u64, history: Seq<(u64, u64, u64)>) -> u64;

/// The value of a normal draw with the given mean and standard deviation by
/// a PCG64 stream seeded with `seed` after the draws in `history`.
pub uninterp spec fn normal_of(
    mean: u64,
    std_dev: u64,
    seed: u64,
    history: Seq<(u64, u64, u64)>,
) -> u64;

/// The value of a unit-rate exponential draw by a PCG64 stream seeded with
/// `seed` after the draws in `history`.
pub uninterp spec fn exp_of(seed: u64, history: Seq<(u64, u64, u64)>) -> u64;

/// The value of a fair boolean draw by a PCG64 stream seeded with `seed`
/// after the draws in `history`.
pub uninterp spec fn coin_of(seed: u64, history: Seq<(u64, u64, u64)>) -> bool;

/// A deterministic pseudo-random source: a PCG64 generator, the seed it
/// was built from, and the history of the draws made from it.
pub struct SeededRng {
    inner: rand_pcg::Pcg64,
    seed: Ghost<u64>,
    history: Ghost<Seq<(u64, u64, u64)>>,
}

impl SeededRng {
    /// The seed this source was built from.
    pub closed spec fn seed_val(&self) -> u64 {
        self.seed@
    }

    /// The draws made from this source so far, in order; each entry is a
    /// tag and the two parameters of the draw (zero where a draw has none).
    pub closed spec fn hist(&self) -> Seq<(u64, u64, u64)> {
        self.history@
    }

    /// Relies on `rand_pcg::Pcg64::seed_from_u64`: the generator is a pure
    /// function of the seed.
    #[verifier::external_body]
    fn pcg_from_seed(seed: u64) -> rand_pcg::Pcg64 {
        rand_pcg::Pcg64::seed_from_u64(seed)
    }

    /// A source seeded with `seed`, with no draws made yet. Two sources
    /// built with the same seed yield the same draws in the same order.
    pub fn new_seeded(seed: u64) -> (r: SeededRng)
        ensures
            r.seed_val() == seed,
            r.hist() == Seq::<(u64, u64, u64)>::empty(),
    {
        SeededRng {
            inner: Self::pcg_from_seed(seed),
            seed: Ghost(seed),
            history: Ghost(Seq::empty()),
        }
    }

    /// Relies on `rand::random::<u64>`: some unpredictable value; nothing
    /// is claimed of it.
    #[verifier::external_body]
    fn entropy_u64() -> u64 {
        rand::random::<u64>()
    }

    /// A source seeded from an entropy source: its draws are well-formed
    /// but not reproducible, since its seed is not known to the caller.
    pub fn new_unseeded() -> (r: SeededRng)
        ensures
            r.hist() == Seq::<(u64, u64, u64)>::empty(),
    {
        Self::new_seeded(Self::entropy_u64())
    }

    /// Relies on `rand_distr::Uniform::from(lo..hi)` and its `sample`: for
    /// finite `lo < hi` whose difference does not overflow, construction
    /// succeeds and the draw yields a value in `[lo, hi)` that is a
    /// function of the range and of the generator's state, which the seed
    /// and the history determine.
    #[verifier::external_body]
    pub(crate) fn draw_uniform(&mut self, lo: u64, hi: u64) -> (r: u64)
        requires
            is_finite_bits(lo),
            is_finite_bits(hi),
            lt_bits(lo, hi),
            is_finite_bits(crate::ops::sub_of(hi, lo)),
        ensures
            final(self).seed_val() == old(self).seed_val(),
            final(self).hist() == old(self).hist().push((DRAW_UNIFORM, lo, hi)),
            r == uniform_of(lo, hi, old(self).seed_val(), old(self).hist()),
            in_range_bits(lo, hi, r),
    {
        let d = rand_distr::Uniform::from(Fbin::from_bits(lo)..Fbin::from_bits(hi));
        d.sample(&mut self.inner).to_bits()
    }

    /// Relies on `rand_distr::Normal::new(mean, std_dev)` and its `sample`:
    /// construction succeeds for a finite standard deviation, and the
    /// sample is a function of the parameters and of the generator's
    /// state, which the seed and the history determine.
    #[verifier::external_body]
    pub(crate) fn draw_normal(&mut self, mean: u64, std_dev: u64) -> (r: u64)
        requires
            is_finite_bits(std_dev),
        ensures
            final(self).seed_val() == old(self).seed_val(),
            final(self).hist() == old(self).hist().push((DRAW_NORMAL, mean, std_dev)),
            r == normal_of(mean, std_dev, old(self).seed_val(), old(self).hist()),
    {
        let d = rand_distr::Normal::new(Fbin::from_bits(mean), Fbin::from_bits(std_dev)).unwrap();
        d.sample(&mut self.inner).to_bits()
    }

    /// Relies on `rand_distr::Exp::new(1.0)` and its `sample`: a unit-rate
    /// exponential value, non-negative and non-NaN, a function of the
    /// generator's state, which the seed and the history determine.
    #[verifier::external_body]
    pub(crate) fn draw_exp(&mut self) -> (r: u64)
        ensures
            final(self).seed_val() == old(self).seed_val(),
            final(self).hist() == old(self).hist().push((DRAW_EXP, 0, 0)),
            r == exp_of(old(self).seed_val(), old(self).hist()),
            !is_nan_bits(r),
            !sign_bit(r),
    {
        let one = Fbin::from_bits(0x3FF0000000000000);
        let d = rand_distr::Exp::new(one).unwrap();
        d.sample(&mut self.inner).to_bits()
    }

    /// Relies on `rand_distr::Standard` sampled as `bool`: a fair coin, a
    /// function of the generator's state, which the seed and the history
    /// determine.
    #[verifier::external_body]
    pub(crate) fn draw_coin(&mut self) -> (r: bool)
        ensures
            final(self).seed_val() == old(self).seed_val(),
            final(self).hist() == old(self).hist().push((DRAW_COIN, 0, 0)),
            r == coin_of(old(self).seed_val(), old(self).hist()),
    {
        rand_distr::Standard.sample(&mut self.inner)
    }
}

} // verus!
