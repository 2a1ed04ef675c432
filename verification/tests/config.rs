use time_progress::breakdown::CalendarBreakdown;
use time_progress::color::RingColor;
use time_progress::config::{RingConfig, DEFAULT_STROKE_WIDTH};
use time_progress::percentages::{get_percentages, TimeUnit};
use time_progress::ring::ring_geometry;

#[test]
fn a_new_ring_has_the_defaults() {
    let c = RingConfig::new(TimeUnit::Hour, 180);
    assert_eq!(c.label, "");
    assert_eq!(c.source, TimeUnit::Hour);
    assert_eq!(c.radius, 180);
    assert_eq!(c.stroke_width, 10);
    assert_eq!(DEFAULT_STROKE_WIDTH, 10);
    assert_eq!(c.color, RingColor::Gray);
    assert_eq!(c.class, "");
}

#[test]
fn each_builder_changes_its_own_field() {
    let c = RingConfig::new(TimeUnit::Minute, 220)
        .with_label(String::from("Minute"))
        .with_color(RingColor::Violet)
        .with_stroke_width(4)
        .with_class(String::from("outer"));
    assert_eq!(c.label, "Minute");
    assert_eq!(c.source, TimeUnit::Minute);
    assert_eq!(c.radius, 220);
    assert_eq!(c.stroke_width, 4);
    assert_eq!(c.color, RingColor::Violet);
    assert_eq!(c.class, "outer");
}

#[test]
fn a_ring_draws_the_share_of_its_own_unit() {
    let b = CalendarBreakdown { month: 3, day: 15, hour: 8, minute: 30, second: 45 };
    let p = get_percentages(b);
    let minute = RingConfig::new(TimeUnit::Minute, 220);
    let year = RingConfig::new(TimeUnit::Year, 60).with_color(RingColor::Red);
    assert_eq!(minute.geometry(&p), ring_geometry(p.minute, 220, 10));
    assert_eq!(year.geometry(&p), ring_geometry(p.year, 60, 10));
    assert_ne!(minute.geometry(&p), ring_geometry(p.year, 220, 10));
}

#[test]
fn a_ring_draws_with_its_own_stroke_width() {
    let b = CalendarBreakdown { month: 3, day: 15, hour: 8, minute: 30, second: 45 };
    let p = get_percentages(b);
    let ring = RingConfig::new(TimeUnit::Day, 140).with_stroke_width(4);
    let g = ring.geometry(&p);
    assert_eq!(g.diameter, 280);
    assert_eq!(g.normalized_radius, 132);
    assert_eq!(g, ring_geometry(p.day, 140, 4));
}
