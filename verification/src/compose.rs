//! The textured stroke compositor: builds the oriented rectangular envelope
//! of a line with a width, derives the dot count from the envelope's area
//! and the configured density, samples a position, rotation and radii for
//! each dot, and emits the dots in sampling order as one group.
//!
//! The spec functions here spell the whole composition out as a function of
//! the inputs and the seed, so that reproducibility is a proved property:
//! `compose_line` returns exactly `compose_dots_of(line, width, options,
//! seed)` whenever a seed is supplied.

use vstd::prelude::*;

use crate::fbits::f64_is_finite;
use crate::fbits::f64_lt;
use crate::fbits::f64_neg;
use crate::fbits::is_finite_bits;
use crate::fbits::lemma_pos_zero_is_zero;
use crate::fbits::lt_bits;
use crate::fbits::neg_bits;
use crate::fbits::F64_EIGHT_TENTHS;
use crate::fbits::F64_FIVE_QUARTERS;
use crate::fbits::F64_FOUR;
use crate::fbits::F64_FRAC_PI_8;
use crate::fbits::F64_TENTH;
use crate::fbits::F64_TWO;
use crate::fbits::POS_ZERO;
use crate::geom::angle_of;
use crate::geom::line_angle;
use crate::geom::norm_of;
use crate::geom::place_point;
use crate::geom::placed_of;
use crate::geom::vec_norm;
use crate::ops::add_of;
use crate::ops::cast_i32_of;
use crate::ops::div_of;
use crate::ops::f64_add;
use crate::ops::f64_cast_i32;
use crate::ops::f64_div;
use crate::ops::f64_mul;
use crate::ops::f64_round;
use crate::ops::f64_sub;
use crate::ops::mul_of;
use crate::ops::round_of;
use crate::ops::sub_of;
use crate::options::Dot;
use crate::options::Group;
use crate::options::Line;
use crate::options::TexturedOptions;
use crate::options::Vec2;
use crate::rng::uniform_of;
use crate::rng::SeededRng;
use crate::rng::DRAW_UNIFORM;
use crate::sampler::clipped_sample_of;
use crate::sampler::clipped_trace_of;

verus! {

/// The per-call sampling environment of one stroke: the five sampling
/// ranges, the line's direction vector and midpoint, its direction angle,
/// the distribution kind and the fill.
pub struct StrokeEnv {
    pub neg_hx: u64,
    pub hx: u64,
    pub neg_hy: u64,
    pub hy: u64,
    pub rot_lo: u64,
    pub rot_hi: u64,
    pub rx_lo: u64,
    pub rx_hi: u64,
    pub ry_lo: u64,
    pub ry_hi: u64,
    pub dx: u64,
    pub dy: u64,
    pub mx: u64,
    pub my: u64,
    pub angle: u64,
    pub kind: crate::options::TexturedDotsDistribution,
    pub fill: Option<crate::options::Color>,
}

/// The envelope's half-extent along the line axis: half the line's length.
pub open spec fn half_extent_x_of(line: Line) -> u64 {
    div_of(
        norm_of(sub_of(line.end.x, line.start.x), sub_of(line.end.y, line.start.y)),
        F64_TWO,
    )
}

/// The envelope's half-extent across the line: half the stroke width.
pub open spec fn half_extent_y_of(width: u64) -> u64 {
    div_of(width, F64_TWO)
}

/// The envelope's area: `4.0 * half_extent_x * half_extent_y`.
pub open spec fn area_of(line: Line, width: u64) -> u64 {
    mul_of(mul_of(F64_FOUR, half_extent_x_of(line)), half_extent_y_of(width))
}

/// The number of dots composed for a line, width and density:
/// `round(area * 0.1 * density)`, saturated to `i32`. By its signature it
/// depends neither on the distribution kind nor on the seed.
pub open spec fn dot_count_of(line: Line, width: u64, density: u64) -> i32 {
    cast_i32_of(round_of(mul_of(mul_of(area_of(line, width), F64_TENTH), density)))
}

/// The number of dots actually emitted: a non-positive count yields an
/// empty group.
pub open spec fn emitted_len(n: i32) -> int {
    if n <= 0 {
        0
    } else {
        n as int
    }
}

/// The sampling environment that a line, width and option bundle determine.
pub open spec fn env_of(line: Line, width: u64, opts: TexturedOptions) -> StrokeEnv {
    let dx = sub_of(line.end.x, line.start.x);
    let dy = sub_of(line.end.y, line.start.y);
    let hx = half_extent_x_of(line);
    let hy = half_extent_y_of(width);
    StrokeEnv {
        neg_hx: neg_bits(hx),
        hx: hx,
        neg_hy: neg_bits(hy),
        hy: hy,
        rot_lo: neg_bits(F64_FRAC_PI_8),
        rot_hi: F64_FRAC_PI_8,
        rx_lo: mul_of(opts.radii.x, F64_EIGHT_TENTHS),
        rx_hi: mul_of(opts.radii.x, F64_FIVE_QUARTERS),
        ry_lo: mul_of(opts.radii.y, F64_EIGHT_TENTHS),
        ry_hi: mul_of(opts.radii.y, F64_FIVE_QUARTERS),
        dx: dx,
        dy: dy,
        mx: div_of(add_of(line.start.x, line.end.x), F64_TWO),
        my: div_of(add_of(line.start.y, line.end.y), F64_TWO),
        angle: angle_of(dx, dy),
        kind: opts.distribution,
        fill: opts.stroke_color,
    }
}

/// A sampling range is valid when both ends are finite, it is not empty,
/// and its width `hi - lo` does not overflow (uniform sampling needs a
/// finite scale).
pub open spec fn valid_range(lo: u64, hi: u64) -> bool {
    is_finite_bits(lo) && is_finite_bits(hi) && lt_bits(lo, hi) && is_finite_bits(sub_of(hi, lo))
}

/// The inputs of a composition are valid when all five sampling ranges are
/// valid: in particular the line has a positive length (a degenerate line
/// has no direction) and the width and radii are positive.
pub open spec fn valid_stroke_inputs(line: Line, width: u64, opts: TexturedOptions) -> bool {
    let env = env_of(line, width, opts);
    &&& valid_range(env.neg_hx, env.hx)
    &&& valid_range(env.neg_hy, env.hy)
    &&& valid_range(env.rot_lo, env.rot_hi)
    &&& valid_range(env.rx_lo, env.rx_hi)
    &&& valid_range(env.ry_lo, env.ry_hi)
}

/// The dot sampled from a source with the given seed when the history of
/// earlier draws is `h`: a uniform local x, the configured distribution's
/// clipped local y, the world-space center they map to, the line's angle
/// plus a uniform rotation jitter, and uniform radii jitters.
pub open spec fn dot_of(env: StrokeEnv, seed: u64, h: Seq<(u64, u64, u64)>) -> Dot {
    let x = uniform_of(env.neg_hx, env.hx, seed, h);
    let h1 = h.push((DRAW_UNIFORM, env.neg_hx, env.hx));
    let y = clipped_sample_of(env.kind, env.neg_hy, env.hy, seed, h1);
    let h2 = clipped_trace_of(env.kind, env.neg_hy, env.hy, seed, h1);
    let rot_j = uniform_of(env.rot_lo, env.rot_hi, seed, h2);
    let h3 = h2.push((DRAW_UNIFORM, env.rot_lo, env.rot_hi));
    let rx = uniform_of(env.rx_lo, env.rx_hi, seed, h3);
    let h4 = h3.push((DRAW_UNIFORM, env.rx_lo, env.rx_hi));
    let ry = uniform_of(env.ry_lo, env.ry_hi, seed, h4);
    let c = placed_of(env.dx, env.dy, env.mx, env.my, x, y);
    Dot {
        center: Vec2 { x: c.0, y: c.1 },
        rotation: add_of(env.angle, rot_j),
        radii: Vec2 { x: rx, y: ry },
        fill: env.fill,
    }
}

/// The history after sampling one dot on top of the history `h`.
pub open spec fn trace_after_dot_of(env: StrokeEnv, seed: u64, h: Seq<(u64, u64, u64)>) -> Seq<
    (u64, u64, u64),
> {
    let h1 = h.push((DRAW_UNIFORM, env.neg_hx, env.hx));
    let h2 = clipped_trace_of(env.kind, env.neg_hy, env.hy, seed, h1);
    h2.push((DRAW_UNIFORM, env.rot_lo, env.rot_hi)).push(
        (DRAW_UNIFORM, env.rx_lo, env.rx_hi),
    ).push((DRAW_UNIFORM, env.ry_lo, env.ry_hi))
}

/// The history after sampling the first `n` dots.
pub open spec fn trace_upto(env: StrokeEnv, seed: u64, n: nat) -> Seq<(u64, u64, u64)>
    decreases n,
{
    if n == 0 {
        Seq::empty()
    } else {
        trace_after_dot_of(env, seed, trace_upto(env, seed, (n - 1) as nat))
    }
}

/// The first `n` dots sampled from a fresh source with the given seed, in
/// sampling order.
pub open spec fn dots_of(env: StrokeEnv, seed: u64, n: nat) -> Seq<Dot>
    decreases n,
{
    if n == 0 {
        Seq::empty()
    } else {
        dots_of(env, seed, (n - 1) as nat).push(
            dot_of(env, seed, trace_upto(env, seed, (n - 1) as nat)),
        )
    }
}

/// The whole composition: the dots that `compose_line` emits for these
/// inputs when its source is seeded with `seed`.
pub open spec fn compose_dots_of(line: Line, width: u64, opts: TexturedOptions, seed: u64) -> Seq<
    Dot,
> {
    let n = dot_count_of(line, width, opts.density);
    if n <= 0 {
        Seq::empty()
    } else {
        dots_of(env_of(line, width, opts), seed, n as nat)
    }
}

/// `dots_of` yields exactly `n` dots.
pub proof fn lemma_dots_of_len(env: StrokeEnv, seed: u64, n: nat)
    ensures
        dots_of(env, seed, n).len() == n,
    decreases n,
{
    if n > 0 {
        lemma_dots_of_len(env, seed, (n - 1) as nat);
    }
}

/// Every dot of `dots_of` carries the environment's fill.
pub proof fn lemma_dots_of_fill(env: StrokeEnv, seed: u64, n: nat)
    ensures
        forall|i: int| 0 <= i < dots_of(env, seed, n).len() ==> dots_of(env, seed, n)[i].fill
            == env.fill,
    decreases n,
{
    if n > 0 {
        lemma_dots_of_len(env, seed, n);
        lemma_dots_of_fill(env, seed, (n - 1) as nat);
        lemma_dots_of_len(env, seed, (n - 1) as nat);
    }
}

/// Determinism: for a fixed seed and fixed line, width and options, the
/// composed sequence of dots is unique — any two compositions of the same
/// inputs with the same seed are equal, dot for dot.
pub proof fn lemma_compose_deterministic(
    line: Line,
    width: u64,
    opts: TexturedOptions,
    seed: u64,
    g1: Seq<Dot>,
    g2: Seq<Dot>,
)
    requires
        g1 == compose_dots_of(line, width, opts, seed),
        g2 == compose_dots_of(line, width, opts, seed),
    ensures
        g1 == g2,
{
}

/// Dot count: how many dots are composed depends only on the line, the
/// width and the density — not on the distribution kind, the seed, the
/// color or the radii.
pub proof fn lemma_dot_count_independent(
    line: Line,
    width: u64,
    o1: TexturedOptions,
    o2: TexturedOptions,
    s1: u64,
    s2: u64,
)
    requires
        o1.density == o2.density,
    ensures
        compose_dots_of(line, width, o1, s1).len() == compose_dots_of(line, width, o2, s2).len(),
{
    let n = dot_count_of(line, width, o1.density);
    if n > 0 {
        lemma_dots_of_len(env_of(line, width, o1), s1, n as nat);
        lemma_dots_of_len(env_of(line, width, o2), s2, n as nat);
    }
}

/// Color fallback: without a stroke color, every composed dot carries the
/// explicit no-fill marker, never a default color.
pub proof fn lemma_color_fallback(line: Line, width: u64, opts: TexturedOptions, seed: u64)
    requires
        opts.stroke_color is None,
    ensures
        forall|i: int|
            0 <= i < compose_dots_of(line, width, opts, seed).len() ==> compose_dots_of(
                line,
                width,
                opts,
                seed,
            )[i].fill is None,
{
    let n = dot_count_of(line, width, opts.density);
    if n > 0 {
        lemma_dots_of_fill(env_of(line, width, opts), seed, n as nat);
    }
}

/// Composes the textured dots of one line with the given visual width.
///
/// The result is the group of dots in sampling order. With a seed in the
/// options, the group is exactly `compose_dots_of(line, width, options,
/// seed)`: reproducible, draw for draw. Without one, the source seeds
/// itself from entropy, and the group is the composition of some seed.
pub fn compose_line(line: Line, width: u64, options: &TexturedOptions) -> (g: Group)
    requires
        valid_stroke_inputs(line, width, *options),
    ensures
        options.seed is Some ==> g@ == compose_dots_of(line, width, *options, options.seed->0),
        exists|s: u64| g@ == compose_dots_of(line, width, *options, s),
        g@.len() == emitted_len(dot_count_of(line, width, options.density)),
        options.density == POS_ZERO ==> g@.len() == 0,
        forall|i: int| 0 <= i < g@.len() ==> g@[i].fill == options.stroke_color,
{
    let mut rng = match options.seed {
        Some(s) => SeededRng::new_seeded(s),
        None => SeededRng::new_unseeded(),
    };
    let ghost seed0 = rng.seed_val();

    let dx = f64_sub(line.end.x, line.start.x);
    let dy = f64_sub(line.end.y, line.start.y);
    let hx = f64_div(vec_norm(dx, dy), F64_TWO);
    let hy = f64_div(width, F64_TWO);
    let neg_hx = f64_neg(hx);
    let neg_hy = f64_neg(hy);
    let rot_lo = f64_neg(F64_FRAC_PI_8);
    let rot_hi = F64_FRAC_PI_8;
    let rx_lo = f64_mul(options.radii.x, F64_EIGHT_TENTHS);
    let rx_hi = f64_mul(options.radii.x, F64_FIVE_QUARTERS);
    let ry_lo = f64_mul(options.radii.y, F64_EIGHT_TENTHS);
    let ry_hi = f64_mul(options.radii.y, F64_FIVE_QUARTERS);
    let mx = f64_div(f64_add(line.start.x, line.end.x), F64_TWO);
    let my = f64_div(f64_add(line.start.y, line.end.y), F64_TWO);
    let angle = line_angle(dx, dy);

    let area = f64_mul(f64_mul(F64_FOUR, hx), hy);
    let scaled = f64_mul(f64_mul(area, F64_TENTH), options.density);
    let n_dots = f64_cast_i32(f64_round(scaled));

    let ghost env = env_of(line, width, *options);
    proof {
        if options.density == POS_ZERO {
            lemma_pos_zero_is_zero();
        }
    }

    let mut dots: Vec<Dot> = Vec::new();
    let mut i: i32 = 0;
    while i < n_dots
        invariant
            0 <= i,
            n_dots <= 0 ==> i == 0,
            n_dots > 0 ==> i <= n_dots,
            n_dots == dot_count_of(line, width, options.density),
            valid_stroke_inputs(line, width, *options),
            env == env_of(line, width, *options),
            neg_hx == env.neg_hx,
            hx == env.hx,
            neg_hy == env.neg_hy,
            hy == env.hy,
            rot_lo == env.rot_lo,
            rot_hi == env.rot_hi,
            rx_lo == env.rx_lo,
            rx_hi == env.rx_hi,
            ry_lo == env.ry_lo,
            ry_hi == env.ry_hi,
            dx == env.dx,
            dy == env.dy,
            mx == env.mx,
            my == env.my,
            angle == env.angle,
            rng.seed_val() == seed0,
            rng.hist() == trace_upto(env, seed0, i as nat),
            dots@ == dots_of(env, seed0, i as nat),
        decreases n_dots - i,
    {
        let ghost k = i as nat;
        let ghost h0 = rng.hist();
        let x_pos = rng.draw_uniform(neg_hx, hx);
        let y_pos = options.distribution.sample_for_range_symmetrical_clipped(
            &mut rng,
            neg_hy,
            hy,
        );
        let pos = place_point(dx, dy, mx, my, x_pos, y_pos);
        let rot_j = rng.draw_uniform(rot_lo, rot_hi);
        let rotation = f64_add(angle, rot_j);
        let radius_x = rng.draw_uniform(rx_lo, rx_hi);
        let radius_y = rng.draw_uniform(ry_lo, ry_hi);
        let dot = Dot {
            center: Vec2 { x: pos.0, y: pos.1 },
            rotation: rotation,
            radii: Vec2 { x: radius_x, y: radius_y },
            fill: options.stroke_color,
        };
        dots.push(dot);
        proof {
            assert(dot == dot_of(env, seed0, h0));
            assert(rng.hist() == trace_after_dot_of(env, seed0, h0));
            assert(trace_upto(env, seed0, k + 1) == trace_after_dot_of(env, seed0, h0));
            assert(dots_of(env, seed0, k + 1) == dots_of(env, seed0, k).push(
                dot_of(env, seed0, h0),
            ));
        }
        i = i + 1;
    }
    let g = Group { dots };
    proof {
        lemma_dots_of_len(env, seed0, i as nat);
        lemma_dots_of_fill(env, seed0, i as nat);
        if n_dots <= 0 {
            assert(g@ =~= Seq::<Dot>::empty());
            assert(g@ == compose_dots_of(line, width, *options, seed0));
        } else {
            assert(g@ == compose_dots_of(line, width, *options, seed0));
        }
    }
    g
}

/// Composes the textured dots of one line after checking that the inputs
/// are valid: `Some` group exactly when all five sampling ranges are
/// finite and non-empty (in particular the line is not degenerate and the
/// width and radii are positive), and `None` otherwise.
pub fn try_compose_line(line: Line, width: u64, options: &TexturedOptions) -> (g: Option<Group>)
    ensures
        g is Some <==> valid_stroke_inputs(line, width, *options),
        g is Some && options.seed is Some ==> (g->0)@ == compose_dots_of(
            line,
            width,
            *options,
            options.seed->0,
        ),
        g is Some ==> exists|s: u64| (g->0)@ == compose_dots_of(line, width, *options, s),
        g is Some ==> (g->0)@.len() == emitted_len(dot_count_of(line, width, options.density)),
{
    let dx = f64_sub(line.end.x, line.start.x);
    let dy = f64_sub(line.end.y, line.start.y);
    let hx = f64_div(vec_norm(dx, dy), F64_TWO);
    let hy = f64_div(width, F64_TWO);
    let neg_hx = f64_neg(hx);
    let neg_hy = f64_neg(hy);
    let rot_lo = f64_neg(F64_FRAC_PI_8);
    let rot_hi = F64_FRAC_PI_8;
    let rx_lo = f64_mul(options.radii.x, F64_EIGHT_TENTHS);
    let rx_hi = f64_mul(options.radii.x, F64_FIVE_QUARTERS);
    let ry_lo = f64_mul(options.radii.y, F64_EIGHT_TENTHS);
    let ry_hi = f64_mul(options.radii.y, F64_FIVE_QUARTERS);
    let ok = range_ok(neg_hx, hx) && range_ok(neg_hy, hy) && range_ok(rot_lo, rot_hi) && range_ok(
        rx_lo,
        rx_hi,
    ) && range_ok(ry_lo, ry_hi);
    if ok {
        Some(compose_line(line, width, options))
    } else {
        None
    }
}

/// Checks a sampling range for validity: both ends finite, not empty.
fn range_ok(lo: u64, hi: u64) -> (r: bool)
    ensures
        r == valid_range(lo, hi),
{
    f64_is_finite(lo) && f64_is_finite(hi) && f64_lt(lo, hi) && f64_is_finite(f64_sub(hi, lo))
}

} // verus!
