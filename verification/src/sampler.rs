//! The distribution sampler: one scalar sample from a half-open range,
//! symmetrical about the range's midpoint, with a uniform fallback that
//! keeps every returned sample within the range.
//!
//! The spec functions here mirror the sampling computation over the named
//! draw values of `rng`, so that the value a sampling call returns, and the
//! draws it consumes, are spelled out as functions of the seed and of the
//! history of earlier draws.

use vstd::prelude::*;

use crate::fbits::in_range_bits;
use crate::fbits::is_finite_bits;
use crate::fbits::lemma_scale_consts;
use crate::fbits::lt_bits;
use crate::fbits::neg_bits;
use crate::fbits::F64_FOUR;
use crate::fbits::F64_THREE;
use crate::fbits::F64_TWO;
use crate::fbits::f64_in_range;
use crate::fbits::f64_neg;
use crate::ops::add_of;
use crate::ops::div_of;
use crate::ops::mul_of;
use crate::ops::sub_of;
use crate::ops::f64_add;
use crate::ops::f64_div;
use crate::ops::f64_mul;
use crate::ops::f64_sub;
use crate::options::TexturedDotsDistribution;
use crate::rng::coin_of;
use crate::rng::exp_of;
use crate::rng::normal_of;
use crate::rng::uniform_of;
use crate::rng::SeededRng;
use crate::rng::DRAW_COIN;
use crate::rng::DRAW_EXP;
use crate::rng::DRAW_NORMAL;
use crate::rng::DRAW_UNIFORM;

verus! {

/// The midpoint of the range `[lo, hi)`, computed as `(hi + lo) / 2.0`.
pub open spec fn mid_of(lo: u64, hi: u64) -> u64 {
    div_of(add_of(hi, lo), F64_TWO)
}

/// The standard deviation a normal draw over `[lo, hi)` uses:
/// `((hi - lo) / 2.0) / 3.0`, one third of the half-width, so that about
/// 99.7% of the unclipped mass falls inside the range.
pub open spec fn std_dev_of(lo: u64, hi: u64) -> u64 {
    div_of(div_of(sub_of(hi, lo), F64_TWO), F64_THREE)
}

/// The magnitude scale an exponential draw over `[lo, hi)` uses:
/// `(hi - lo) / 4.0`, half of the half-width.
pub open spec fn quarter_width_of(lo: u64, hi: u64) -> u64 {
    div_of(sub_of(hi, lo), F64_FOUR)
}

/// The value the distribution `kind` draws over `[lo, hi)` before
/// clipping, from a source with the given seed and history.
pub open spec fn raw_sample_of(
    kind: TexturedDotsDistribution,
    lo: u64,
    hi: u64,
    seed: u64,
    h: Seq<(u64, u64, u64)>,
) -> u64 {
    match kind {
        TexturedDotsDistribution::Uniform => uniform_of(lo, hi, seed, h),
        TexturedDotsDistribution::Normal => normal_of(
            mid_of(lo, hi),
            std_dev_of(lo, hi),
            seed,
            h,
        ),
        TexturedDotsDistribution::Exponential => {
            let t = mul_of(quarter_width_of(lo, hi), exp_of(seed, h.push((DRAW_COIN, 0, 0))));
            add_of(mid_of(lo, hi), if coin_of(seed, h) { t } else { neg_bits(t) })
        },
        TexturedDotsDistribution::ReverseExponential => {
            let t = mul_of(quarter_width_of(lo, hi), exp_of(seed, h.push((DRAW_COIN, 0, 0))));
            if coin_of(seed, h) { add_of(lo, t) } else { add_of(hi, neg_bits(t)) }
        },
    }
}

/// The history after the unclipped draw of `kind` over `[lo, hi)`.
pub open spec fn raw_trace_of(
    kind: TexturedDotsDistribution,
    lo: u64,
    hi: u64,
    h: Seq<(u64, u64, u64)>,
) -> Seq<(u64, u64, u64)> {
    match kind {
        TexturedDotsDistribution::Uniform => h.push((DRAW_UNIFORM, lo, hi)),
        TexturedDotsDistribution::Normal => h.push(
            (DRAW_NORMAL, mid_of(lo, hi), std_dev_of(lo, hi)),
        ),
        TexturedDotsDistribution::Exponential => h.push((DRAW_COIN, 0, 0)).push((DRAW_EXP, 0, 0)),
        TexturedDotsDistribution::ReverseExponential => h.push((DRAW_COIN, 0, 0)).push(
            (DRAW_EXP, 0, 0),
        ),
    }
}

/// The value a clipped sampling call of `kind` over `[lo, hi)` returns:
/// the raw draw where it falls inside the range, else one uniform redraw.
pub open spec fn clipped_sample_of(
    kind: TexturedDotsDistribution,
    lo: u64,
    hi: u64,
    seed: u64,
    h: Seq<(u64, u64, u64)>,
) -> u64 {
    let s = raw_sample_of(kind, lo, hi, seed, h);
    if in_range_bits(lo, hi, s) {
        s
    } else {
        uniform_of(lo, hi, seed, raw_trace_of(kind, lo, hi, h))
    }
}

/// The history after a clipped sampling call of `kind` over `[lo, hi)`.
pub open spec fn clipped_trace_of(
    kind: TexturedDotsDistribution,
    lo: u64,
    hi: u64,
    seed: u64,
    h: Seq<(u64, u64, u64)>,
) -> Seq<(u64, u64, u64)> {
    let t = raw_trace_of(kind, lo, hi, h);
    if in_range_bits(lo, hi, raw_sample_of(kind, lo, hi, seed, h)) {
        t
    } else {
        t.push((DRAW_UNIFORM, lo, hi))
    }
}

impl TexturedDotsDistribution {
    /// Samples a value for the given half-open range `[lo, hi)`,
    /// symmetrical about the mid of the range. For distributions that are
    /// open ended, a sample that falls out of the range is discarded and
    /// replaced by one uniform draw over the same range, so every returned
    /// sample lies within the range.
    pub fn sample_for_range_symmetrical_clipped(
        &self,
        rng: &mut SeededRng,
        lo: u64,
        hi: u64,
    ) -> (r: u64)
        requires
            is_finite_bits(lo),
            is_finite_bits(hi),
            lt_bits(lo, hi),
            is_finite_bits(sub_of(hi, lo)),
        ensures
            final(rng).seed_val() == old(rng).seed_val(),
            final(rng).hist() == clipped_trace_of(*self, lo, hi, old(rng).seed_val(), old(rng).hist()),
            r == clipped_sample_of(*self, lo, hi, old(rng).seed_val(), old(rng).hist()),
            in_range_bits(lo, hi, r),
    {
        let sample: u64 = match self {
            TexturedDotsDistribution::Uniform => rng.draw_uniform(lo, hi),
            TexturedDotsDistribution::Normal => {
                // setting the mean to the mid of the range
                let mean = f64_div(f64_add(hi, lo), F64_TWO);
                // the standard deviation: non-negative, since the width of a
                // non-empty finite range is positive
                let diff = f64_sub(hi, lo);
                let std_dev = f64_div(f64_div(diff, F64_TWO), F64_THREE);
                proof {
                    lemma_scale_consts();
                }
                rng.draw_normal(mean, std_dev)
            },
            TexturedDotsDistribution::Exponential => {
                let mid = f64_div(f64_add(hi, lo), F64_TWO);
                let width = f64_div(f64_sub(hi, lo), F64_FOUR);
                let positive = rng.draw_coin();
                let t = f64_mul(width, rng.draw_exp());
                if positive {
                    f64_add(mid, t)
                } else {
                    f64_add(mid, f64_neg(t))
                }
            },
            TexturedDotsDistribution::ReverseExponential => {
                let width = f64_div(f64_sub(hi, lo), F64_FOUR);
                let positive = rng.draw_coin();
                let t = f64_mul(width, rng.draw_exp());
                if positive {
                    f64_add(lo, t)
                } else {
                    f64_add(hi, f64_neg(t))
                }
            },
        };
        if !f64_in_range(lo, hi, sample) {
            // a uniform draw as fallback when the sample is out of range
            rng.draw_uniform(lo, hi)
        } else {
            sample
        }
    }
}

} // verus!
