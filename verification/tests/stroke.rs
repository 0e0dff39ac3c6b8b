use textured_stroke::compose::compose_line;
use textured_stroke::compose::try_compose_line;
use textured_stroke::options::Color;
use textured_stroke::options::Line;
use textured_stroke::options::TexturedDotsDistribution;
use textured_stroke::options::TexturedOptions;
use textured_stroke::options::Vec2;
use textured_stroke::rng::SeededRng;

fn bits(v: f64) -> u64 {
    v.to_bits()
}

fn val(b: u64) -> f64 {
    f64::from_bits(b)
}

fn point(x: f64, y: f64) -> Vec2 {
    Vec2 { x: bits(x), y: bits(y) }
}

fn line(x0: f64, y0: f64, x1: f64, y1: f64) -> Line {
    Line { start: point(x0, y0), end: point(x1, y1) }
}

fn opts(seed: Option<u64>, density: f64, kind: TexturedDotsDistribution) -> TexturedOptions {
    TexturedOptions {
        seed,
        width: bits(1.0),
        stroke_color: Some(Color::black()),
        density: bits(density),
        radii: Vec2 { x: bits(2.0), y: bits(0.3) },
        distribution: kind,
    }
}

#[test]
fn defaults_are_documented_values() {
    let o = TexturedOptions::default();
    assert_eq!(o.seed, None);
    assert_eq!(val(o.width), 1.0);
    assert_eq!(val(o.density), 5.0);
    assert_eq!(val(o.radii.x), 2.0);
    assert_eq!(val(o.radii.y), 0.3);
    assert_eq!(o.distribution, TexturedDotsDistribution::Normal);
    let c = o.stroke_color.expect("default stroke color is opaque black");
    assert_eq!(val(c.r), 0.0);
    assert_eq!(val(c.g), 0.0);
    assert_eq!(val(c.b), 0.0);
    assert_eq!(val(c.a), 1.0);
    assert_eq!(TexturedDotsDistribution::default(), TexturedDotsDistribution::Normal);
}

#[test]
fn end_to_end_scenario_seed_42() {
    // line (0,0)-(10,0), width 2, density 5, radii (2.0, 0.3), Uniform:
    // area = 4 * 5 * 1 = 20, so round(20 * 0.1 * 5) = 10 dots
    let l = line(0.0, 0.0, 10.0, 0.0);
    let mut o = opts(Some(42), 5.0, TexturedDotsDistribution::Uniform);
    o.width = bits(2.0);
    let g1 = compose_line(l, bits(2.0), &o);
    assert_eq!(g1.dots.len(), 10);

    // the same seed reproduces the dots exactly
    let g2 = compose_line(l, bits(2.0), &o);
    assert_eq!(g1, g2);

    // another seed keeps the count but moves the dots
    o.seed = Some(7);
    let g3 = compose_line(l, bits(2.0), &o);
    assert_eq!(g3.dots.len(), 10);
    assert_ne!(g1, g3);

    // every center stays inside the envelope: x in [0, 10), y in [-1, 1)
    for g in [&g1, &g3] {
        for d in &g.dots {
            let cx = val(d.center.x);
            let cy = val(d.center.y);
            assert!((0.0..10.0).contains(&cx), "cx out of envelope: {cx}");
            assert!((-1.0..1.0).contains(&cy), "cy out of envelope: {cy}");
            // rotation = line angle (0) + jitter in [-pi/8, pi/8)
            let rot = val(d.rotation);
            assert!((-std::f64::consts::FRAC_PI_8..std::f64::consts::FRAC_PI_8).contains(&rot));
            // radii jitter ranges
            let rx = val(d.radii.x);
            let ry = val(d.radii.y);
            assert!((2.0 * 0.8..2.0 * 1.25).contains(&rx));
            assert!((0.3 * 0.8..0.3 * 1.25).contains(&ry));
        }
    }
}

#[test]
fn determinism_across_kinds() {
    let l = line(-3.0, 2.0, 5.0, -1.0);
    for kind in [
        TexturedDotsDistribution::Uniform,
        TexturedDotsDistribution::Normal,
        TexturedDotsDistribution::Exponential,
        TexturedDotsDistribution::ReverseExponential,
    ] {
        let o = opts(Some(123456), 4.0, kind);
        let g1 = compose_line(l, bits(1.5), &o);
        let g2 = compose_line(l, bits(1.5), &o);
        assert_eq!(g1, g2, "same seed must reproduce the group for {kind:?}");
    }
}

#[test]
fn dot_count_formula() {
    for (len, width, density) in
        [(10.0, 2.0, 5.0), (4.0, 1.0, 5.0), (7.5, 0.5, 12.0), (1.0, 1.0, 1.0), (100.0, 3.0, 0.25)]
    {
        let l = line(0.0, 0.0, len, 0.0);
        for kind in [TexturedDotsDistribution::Uniform, TexturedDotsDistribution::Normal] {
            let o = opts(Some(9), density, kind);
            let g = compose_line(l, bits(width), &o);
            let expected = (4.0 * (len / 2.0) * (width / 2.0) * 0.1 * density).round() as i32;
            assert_eq!(g.dots.len(), expected.max(0) as usize, "len={len} width={width}");
        }
    }
}

#[test]
fn zero_density_gives_empty_group() {
    for kind in [
        TexturedDotsDistribution::Uniform,
        TexturedDotsDistribution::Normal,
        TexturedDotsDistribution::Exponential,
        TexturedDotsDistribution::ReverseExponential,
    ] {
        let o = opts(Some(5), 0.0, kind);
        let g = compose_line(line(0.0, 0.0, 200.0, 0.0), bits(8.0), &o);
        assert_eq!(g.dots.len(), 0);
    }
}

#[test]
fn no_color_means_no_fill() {
    let mut o = opts(Some(11), 6.0, TexturedDotsDistribution::Normal);
    o.stroke_color = None;
    let g = compose_line(line(0.0, 0.0, 10.0, 0.0), bits(2.0), &o);
    assert_eq!(g.dots.len(), 12);
    for d in &g.dots {
        assert_eq!(d.fill, None, "the no-fill marker must be kept, not defaulted");
    }
}

#[test]
fn color_is_carried_through() {
    let c = Color { r: bits(0.25), g: bits(0.5), b: bits(0.75), a: bits(1.0) };
    let mut o = opts(Some(11), 6.0, TexturedDotsDistribution::Uniform);
    o.stroke_color = Some(c);
    let g = compose_line(line(0.0, 0.0, 10.0, 0.0), bits(2.0), &o);
    for d in &g.dots {
        assert_eq!(d.fill, Some(c));
    }
}

#[test]
fn sampler_stays_in_range() {
    let lo = bits(-1.5);
    let hi = bits(1.5);
    for kind in [
        TexturedDotsDistribution::Uniform,
        TexturedDotsDistribution::Normal,
        TexturedDotsDistribution::Exponential,
        TexturedDotsDistribution::ReverseExponential,
    ] {
        let mut rng = SeededRng::new_seeded(987);
        for _ in 0..10_000 {
            let s = val(kind.sample_for_range_symmetrical_clipped(&mut rng, lo, hi));
            assert!((-1.5..1.5).contains(&s), "{kind:?} sample out of range: {s}");
        }
    }
}

#[test]
fn sampler_is_reproducible() {
    for kind in [
        TexturedDotsDistribution::Uniform,
        TexturedDotsDistribution::Normal,
        TexturedDotsDistribution::Exponential,
        TexturedDotsDistribution::ReverseExponential,
    ] {
        let mut r1 = SeededRng::new_seeded(31);
        let mut r2 = SeededRng::new_seeded(31);
        for _ in 0..100 {
            let a = kind.sample_for_range_symmetrical_clipped(&mut r1, bits(-2.0), bits(2.0));
            let b = kind.sample_for_range_symmetrical_clipped(&mut r2, bits(-2.0), bits(2.0));
            assert_eq!(a, b);
        }
    }
}

fn third_counts(kind: TexturedDotsDistribution, seed: u64) -> (u32, u32, u32) {
    let mut rng = SeededRng::new_seeded(seed);
    let (mut low, mut mid, mut high) = (0u32, 0u32, 0u32);
    for _ in 0..30_000 {
        let s = val(kind.sample_for_range_symmetrical_clipped(&mut rng, bits(-1.5), bits(1.5)));
        if s < -0.5 {
            low += 1;
        } else if s < 0.5 {
            mid += 1;
        } else {
            high += 1;
        }
    }
    (low, mid, high)
}

#[test]
fn distribution_shapes() {
    // Normal: the central third holds clearly more than either outer third,
    // and the range is three sigma wide, so the middle third (one sigma
    // around the mean) holds roughly 68%
    let (low, mid, high) = third_counts(TexturedDotsDistribution::Normal, 1);
    assert!(mid > low * 2 && mid > high * 2, "normal not centered: {low} {mid} {high}");

    // Exponential: concentrated near the midpoint
    let (low, mid, high) = third_counts(TexturedDotsDistribution::Exponential, 2);
    assert!(mid > low && mid > high, "exponential not centered: {low} {mid} {high}");

    // ReverseExponential: concentrated near the edges
    let (low, mid, high) = third_counts(TexturedDotsDistribution::ReverseExponential, 3);
    assert!(low > mid && high > mid, "reverse exponential not edge-heavy: {low} {mid} {high}");

    // Uniform: all thirds roughly even (within a wide tolerance)
    let (low, mid, high) = third_counts(TexturedDotsDistribution::Uniform, 4);
    for c in [low, mid, high] {
        assert!((8_000..12_000).contains(&c), "uniform skewed: {low} {mid} {high}");
    }
}

#[test]
fn degenerate_inputs_are_rejected() {
    let o = opts(Some(1), 5.0, TexturedDotsDistribution::Normal);
    // zero-length line: no direction, empty x-range
    assert!(try_compose_line(line(3.0, 4.0, 3.0, 4.0), bits(2.0), &o).is_none());
    // non-positive width: empty y-range
    assert!(try_compose_line(line(0.0, 0.0, 10.0, 0.0), bits(0.0), &o).is_none());
    assert!(try_compose_line(line(0.0, 0.0, 10.0, 0.0), bits(-2.0), &o).is_none());
    // NaN width
    assert!(try_compose_line(line(0.0, 0.0, 10.0, 0.0), bits(f64::NAN), &o).is_none());
    // zero radii: empty radius jitter range
    let mut bad = o;
    bad.radii = Vec2 { x: bits(0.0), y: bits(0.3) };
    assert!(try_compose_line(line(0.0, 0.0, 10.0, 0.0), bits(2.0), &bad).is_none());
    // valid inputs pass and agree with the unchecked entry point
    let g = try_compose_line(line(0.0, 0.0, 10.0, 0.0), bits(2.0), &o)
        .expect("valid inputs compose");
    assert_eq!(g, compose_line(line(0.0, 0.0, 10.0, 0.0), bits(2.0), &o));
}

#[test]
fn oriented_line_keeps_centers_in_envelope() {
    // a diagonal line: rotate the world centers back into the local frame
    // and check them against the half-extents
    let (x0, y0, x1, y1) = (1.0, 1.0, 4.0, 5.0);
    let l = line(x0, y0, x1, y1);
    let len = ((x1 - x0) as f64).hypot(y1 - y0);
    let o = opts(Some(77), 8.0, TexturedDotsDistribution::Uniform);
    let g = compose_line(l, bits(2.0), &o);
    assert!(!g.dots.is_empty());
    let (mx, my) = ((x0 + x1) / 2.0, (y0 + y1) / 2.0);
    let angle = ((y1 - y0) as f64).atan2(x1 - x0);
    for d in &g.dots {
        let (wx, wy) = (val(d.center.x) - mx, val(d.center.y) - my);
        let lx = wx * angle.cos() + wy * angle.sin();
        let ly = -wx * angle.sin() + wy * angle.cos();
        let eps = 1e-9;
        assert!(lx.abs() <= len / 2.0 + eps, "local x out of envelope: {lx}");
        assert!(ly.abs() <= 1.0 + eps, "local y out of envelope: {ly}");
        // the dot rotation follows the line's angle up to the jitter
        let rot = val(d.rotation);
        assert!((rot - angle).abs() < std::f64::consts::FRAC_PI_8 + eps);
    }
}

#[test]
fn unseeded_composition_is_well_formed() {
    let o = opts(None, 5.0, TexturedDotsDistribution::Normal);
    let g = compose_line(line(0.0, 0.0, 10.0, 0.0), bits(2.0), &o);
    assert_eq!(g.dots.len(), 10);
    for d in &g.dots {
        let cy = val(d.center.y);
        assert!((-1.0..1.0).contains(&cy));
    }
}
