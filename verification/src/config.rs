//! What a caller declares of one ring.

use crate::color::RingColor;
use crate::percentages::{PercentageSet, TimeUnit};
use crate::ring::{
    circumference_over_pi, exact_geometry, normalized_radius, ring_geometry,
    stroke_dash_offset_over_pi, RingGeometry,
};
use vstd::prelude::*;

verus! {

/// The stroke width of a ring that is given none.
pub const DEFAULT_STROKE_WIDTH: u32 = 10;

/// The declaration of one ring: what it is called, which unit it shows, how
/// large it is and how it is styled.
#[derive(Clone, Debug)]
pub struct RingConfig {
    pub label: String,
    pub source: TimeUnit,
    pub radius: u32,
    pub stroke_width: u32,
    pub color: RingColor,
    pub class: String,
}

impl RingConfig {
    /// A ring of the given radius that shows `source`: without a label,
    /// gray, with the default stroke width and no style classes of its own.
    pub fn new(source: TimeUnit, radius: u32) -> (c: RingConfig)
        ensures
            c.label@ == Seq::<char>::empty(),
            c.source == source,
            c.radius == radius,
            c.stroke_width == DEFAULT_STROKE_WIDTH,
            c.color == RingColor::Gray,
            c.class@ == Seq::<char>::empty(),
    {
        RingConfig {
            label: String::new(),
            source,
            radius,
            stroke_width: DEFAULT_STROKE_WIDTH,
            color: RingColor::default(),
            class: String::new(),
        }
    }

    /// The same ring under the name `label`.
    pub fn with_label(self, label: String) -> (c: RingConfig)
        ensures
            c == (RingConfig { label, ..self }),
    {
        RingConfig { label, ..self }
    }

    /// The same ring in `color`.
    pub fn with_color(self, color: RingColor) -> (c: RingConfig)
        ensures
            c == (RingConfig { color, ..self }),
    {
        RingConfig { color, ..self }
    }

    /// The same ring with a stroke of `stroke_width`.
    pub fn with_stroke_width(self, stroke_width: u32) -> (c: RingConfig)
        ensures
            c == (RingConfig { stroke_width, ..self }),
    {
        RingConfig { stroke_width, ..self }
    }

    /// The same ring with the style classes `class` of its own.
    pub fn with_class(self, class: String) -> (c: RingConfig)
        ensures
            c == (RingConfig { class, ..self }),
    {
        RingConfig { class, ..self }
    }

    /// The draw parameters of this ring at `percentages`: those of its
    /// radius and stroke width at the share of the unit that it shows.
    pub fn geometry(&self, percentages: &PercentageSet) -> (g: RingGeometry)
        requires
            percentages.wf(),
        ensures
            g == exact_geometry(percentages.of(self.source), self.radius, self.stroke_width),
            g.wf(),
            g.diameter == self.radius * 2,
            g.normalized_radius == normalized_radius(self.radius as int, self.stroke_width as int),
            g.circumference.over_pi() == circumference_over_pi(
                self.radius as int,
                self.stroke_width as int,
            ),
            g.stroke_dash_offset.over_pi() == stroke_dash_offset_over_pi(
                percentages.of(self.source).value(),
                self.radius as int,
                self.stroke_width as int,
            ),
    {
        ring_geometry(percentages.of(self.source), self.radius, self.stroke_width)
    }
}

} // verus!
