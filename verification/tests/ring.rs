use std::f64::consts::PI;
use time_progress::percent::Percent;
use time_progress::ring::{ring_geometry, ArcLength, RingGeometry};

fn percent(whole: u64) -> Percent {
    Percent::new(whole, 1).unwrap()
}

fn length(a: ArcLength) -> f64 {
    a.numerator as f64 / a.denominator as f64 * PI
}

/// Whether `a` is longer than `b`, both over positive denominators.
fn longer(a: ArcLength, b: ArcLength) -> bool {
    a.numerator * b.denominator > b.numerator * a.denominator
}

#[test]
fn half_drawn_ring_of_radius_one_hundred() {
    let g = ring_geometry(percent(50), 100, 10);
    assert_eq!(g.diameter, 200);
    assert_eq!(g.normalized_radius, 80);
    assert_eq!(g.circumference, ArcLength { numerator: 160, denominator: 1 });
    assert_eq!(g.stroke_dash_offset, ArcLength { numerator: 8_000, denominator: 100 });
    assert!((length(g.circumference) - 502.65).abs() < 0.01);
    assert!((length(g.stroke_dash_offset) - 251.33).abs() < 0.01);
    assert!(!g.is_collapsed());
}

#[test]
fn at_zero_percent_the_offset_is_the_circumference() {
    for (radius, stroke) in [(220u32, 10u32), (60, 10), (100, 4), (21, 10), (10, 10)] {
        let g = ring_geometry(percent(0), radius, stroke);
        assert!(g.stroke_dash_offset.denominator > 0);
        assert_eq!(
            g.stroke_dash_offset.numerator * g.circumference.denominator,
            g.circumference.numerator * g.stroke_dash_offset.denominator
        );
    }
}

#[test]
fn at_a_hundred_percent_the_offset_is_zero() {
    for (radius, stroke) in [(220u32, 10u32), (60, 10), (100, 4), (21, 10), (10, 10)] {
        let g = ring_geometry(percent(100), radius, stroke);
        assert!(g.stroke_dash_offset.denominator > 0);
        assert_eq!(g.stroke_dash_offset.numerator, 0);
        assert_eq!(length(g.stroke_dash_offset), 0.0);
    }
}

#[test]
fn a_larger_percentage_leaves_a_smaller_offset() {
    let steps = [0u64, 1, 25, 50, 75, 99, 100, 108];
    for pair in steps.windows(2) {
        let lower = ring_geometry(percent(pair[0]), 100, 10);
        let higher = ring_geometry(percent(pair[1]), 100, 10);
        assert!(longer(lower.stroke_dash_offset, higher.stroke_dash_offset));
    }
    let third = ring_geometry(Percent::new(100, 3).unwrap(), 100, 10);
    let two_thirds = ring_geometry(Percent::new(200, 3).unwrap(), 100, 10);
    assert!(longer(third.stroke_dash_offset, two_thirds.stroke_dash_offset));
}

#[test]
fn on_a_collapsed_ring_the_order_of_the_offsets_turns_round() {
    let lower = ring_geometry(percent(0), 10, 10);
    let higher = ring_geometry(percent(50), 10, 10);
    assert_eq!(lower.stroke_dash_offset, ArcLength { numerator: -2_000, denominator: 100 });
    assert_eq!(higher.stroke_dash_offset, ArcLength { numerator: -1_000, denominator: 100 });
    assert!(longer(higher.stroke_dash_offset, lower.stroke_dash_offset));
}

#[test]
fn a_stroke_as_wide_as_the_radius_collapses_the_ring() {
    let g = ring_geometry(percent(50), 10, 10);
    assert_eq!(g.diameter, 20);
    assert_eq!(g.normalized_radius, -10);
    assert!(g.normalized_radius <= -10);
    assert_eq!(g.circumference, ArcLength { numerator: -20, denominator: 1 });
    assert!(length(g.circumference) <= 0.0);
    assert!(g.is_collapsed());
}

#[test]
fn a_stroke_of_half_the_radius_leaves_a_ring_of_no_length() {
    let g = ring_geometry(percent(30), 20, 10);
    assert_eq!(g.normalized_radius, 0);
    assert_eq!(g.circumference.numerator, 0);
    assert_eq!(g.stroke_dash_offset.numerator, 0);
    assert!(g.is_collapsed());
    let next = ring_geometry(percent(30), 21, 10);
    assert_eq!(next.normalized_radius, 1);
    assert!(!next.is_collapsed());
}

#[test]
fn past_a_hundred_percent_the_offset_is_negative() {
    let g = ring_geometry(percent(108), 100, 10);
    assert_eq!(g.stroke_dash_offset, ArcLength { numerator: 160 * -8, denominator: 100 });
    assert!(length(g.stroke_dash_offset) < 0.0);
}

#[test]
fn an_elapsed_share_is_drawn_as_it_is() {
    let three_quarters = Percent { numerator: 4_500, denominator: 60 };
    let g = ring_geometry(three_quarters, 220, 10);
    assert_eq!(g.normalized_radius, 200);
    assert_eq!(
        g.stroke_dash_offset,
        ArcLength { numerator: 400 * (6_000 - 4_500), denominator: 6_000 }
    );
    assert!((length(g.stroke_dash_offset) - 100.0 * PI).abs() < 1e-9);
}

#[test]
fn the_largest_inputs_are_taken() {
    let p = Percent { numerator: u64::MAX, denominator: u64::MAX };
    let g = ring_geometry(p, u32::MAX, 0);
    assert_eq!(g.diameter, u32::MAX as u64 * 2);
    assert_eq!(g.normalized_radius, u32::MAX as i64);
    assert_eq!(
        g.stroke_dash_offset.numerator,
        2 * (u32::MAX as i128) * (99 * (u64::MAX as i128))
    );
    assert_eq!(g.stroke_dash_offset.denominator, 100 * (u64::MAX as i128));
    let h = ring_geometry(Percent { numerator: u64::MAX, denominator: 1 }, 0, u32::MAX);
    assert_eq!(h.normalized_radius, -2 * (u32::MAX as i64));
    assert_eq!(
        h.stroke_dash_offset.numerator,
        -4 * (u32::MAX as i128) * (100 - u64::MAX as i128)
    );
}

#[test]
fn is_collapsed_goes_by_the_circumference() {
    let drawn = RingGeometry {
        diameter: 200,
        normalized_radius: 80,
        circumference: ArcLength { numerator: 160, denominator: 1 },
        stroke_dash_offset: ArcLength { numerator: 0, denominator: 1 },
    };
    assert!(!drawn.is_collapsed());
    let flat = RingGeometry { circumference: ArcLength { numerator: 0, denominator: 5 }, ..drawn };
    assert!(flat.is_collapsed());
}
