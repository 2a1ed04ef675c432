//! The draw parameters of a progress ring.
//!
//! A ring is a circle whose stroke is dashed with one dash as long as the
//! circle, shifted by the part that is still to come. The two lengths along
//! the circle are rational multiples of π. They are held as that rational
//! factor, exactly, and whoever draws the ring multiplies by π.

use crate::percent::Percent;
use vstd::prelude::*;

verus! {

/// A length along a circle, held exactly as the multiple
/// `numerator / denominator` of π.
#[derive(Clone, Copy, Debug, PartialEq, Eq, Structural)]
pub struct ArcLength {
    pub numerator: i128,
    pub denominator: i128,
}

impl ArcLength {
    /// A length has a value only over a positive denominator.
    pub open spec fn wf(self) -> bool {
        self.denominator > 0
    }

    /// The length divided by π.
    pub open spec fn over_pi(self) -> real
        recommends
            self.wf(),
    {
        self.numerator as real / self.denominator as real
    }
}

/// The draw parameters of one ring.
#[derive(Clone, Copy, Debug, PartialEq, Eq, Structural)]
pub struct RingGeometry {
    /// Width and height of the square that holds the ring.
    pub diameter: u64,
    /// Radius of the drawn circle; not positive for a collapsed ring.
    pub normalized_radius: i64,
    /// Length of the drawn circle.
    pub circumference: ArcLength,
    /// Length of the part of the circle that stays hidden.
    pub stroke_dash_offset: ArcLength,
}

/// The radius that is left once a margin of twice the stroke width is taken
/// off, so that the stroke stays inside the square of the ring.
pub open spec fn normalized_radius(radius: int, stroke_width: int) -> int {
    radius - stroke_width * 2
}

/// The circumference of the drawn circle, divided by π.
pub open spec fn circumference_over_pi(radius: int, stroke_width: int) -> real {
    normalized_radius(radius, stroke_width) as real * 2real
}

/// The hidden part of the circumference at `percent`, divided by π: the
/// circumference less `percent` hundredths of it.
pub open spec fn stroke_dash_offset_over_pi(percent: real, radius: int, stroke_width: int) -> real {
    circumference_over_pi(radius, stroke_width) - percent / 100real * circumference_over_pi(
        radius,
        stroke_width,
    )
}

/// The quotients in which `ring_geometry` holds its result.
pub open spec fn exact_geometry(percent: Percent, radius: u32, stroke_width: u32) -> RingGeometry {
    let twice = 2 * normalized_radius(radius as int, stroke_width as int);
    RingGeometry {
        diameter: (radius * 2) as u64,
        normalized_radius: normalized_radius(radius as int, stroke_width as int) as i64,
        circumference: ArcLength { numerator: twice as i128, denominator: 1 },
        stroke_dash_offset: ArcLength {
            numerator: (twice * (100 * percent.denominator - percent.numerator)) as i128,
            denominator: (100 * percent.denominator) as i128,
        },
    }
}

impl RingGeometry {
    /// Both lengths have a value.
    pub open spec fn wf(self) -> bool {
        self.circumference.wf() && self.stroke_dash_offset.wf()
    }

    /// A ring without a positive circumference has no area to draw.
    pub open spec fn collapsed(self) -> bool {
        self.circumference.over_pi() <= 0real
    }

    /// Whether the ring has no area to draw.
    pub fn is_collapsed(&self) -> (r: bool)
        requires
            self.circumference.wf(),
        ensures
            r == self.collapsed(),
    {
        proof {
            lemma_quotient_sign(self.circumference.numerator as int, self.circumference.denominator as int);
        }
        self.circumference.numerator <= 0
    }
}

/// Over a positive denominator a quotient has the sign of its numerator.
proof fn lemma_quotient_sign(numerator: int, denominator: int)
    requires
        denominator > 0,
    ensures
        numerator <= 0 <==> numerator as real / denominator as real <= 0real,
{
    let n = numerator as real;
    let d = denominator as real;
    assert(n <= 0real <==> n / d <= 0real) by (nonlinear_arith)
        requires
            d > 0real,
    ;
}

/// The product of a doubled normalized radius and what is left of a
/// percentage fits 128 bits.
proof fn lemma_offset_fits(twice: int, rest: int)
    requires
        -0x4_0000_0000 <= twice <= 0x4_0000_0000,
        -0x1_0000_0000_0000_0000 <= rest <= 0x64_0000_0000_0000_0000,
    ensures
        -0x190_0000_0000_0000_0000_0000_0000 <= twice * rest <= 0x190_0000_0000_0000_0000_0000_0000,
{
    assert(-0x190_0000_0000_0000_0000_0000_0000 <= twice * rest
        <= 0x190_0000_0000_0000_0000_0000_0000) by (nonlinear_arith)
        requires
            -0x4_0000_0000 <= twice <= 0x4_0000_0000,
            -0x1_0000_0000_0000_0000 <= rest <= 0x64_0000_0000_0000_0000,
    ;
}

/// The quotient that holds the offset has the value of the formula.
proof fn lemma_offset_value(twice: int, n: int, d: int)
    requires
        d > 0,
    ensures
        (twice * (100 * d - n)) as real / (100 * d) as real == twice as real - (n as real
            / d as real) / 100real * twice as real,
{
    assert((twice * (100 * d - n)) as real == twice as real * (100real * d as real - n as real))
        by (nonlinear_arith);
    assert((100 * d) as real == 100real * d as real);
    assert(twice as real * (100real * d as real - n as real) / (100real * d as real)
        == twice as real - (n as real / d as real) / 100real * twice as real) by (nonlinear_arith)
        requires
            d as real > 0real,
    ;
}

/// At 0 percent the whole circumference is hidden: the offset equals the
/// circumference, whatever the radius and the stroke width.
pub proof fn lemma_offset_at_zero(radius: int, stroke_width: int)
    ensures
        stroke_dash_offset_over_pi(0real, radius, stroke_width) == circumference_over_pi(
            radius,
            stroke_width,
        ),
{
}

/// At 100 percent the whole circumference is drawn: the offset is zero.
pub proof fn lemma_offset_at_hundred(radius: int, stroke_width: int)
    ensures
        stroke_dash_offset_over_pi(100real, radius, stroke_width) == 0real,
{
}

/// Where the radius is more than twice the stroke width, a larger
/// percentage leaves a strictly smaller offset. On a collapsed ring the
/// order turns round, or, at a normalized radius of zero, every offset is
/// zero.
pub proof fn lemma_offset_decreases(
    lower: real,
    higher: real,
    radius: int,
    stroke_width: int,
)
    requires
        lower < higher,
    ensures
        radius > stroke_width * 2 ==> stroke_dash_offset_over_pi(lower, radius, stroke_width)
            > stroke_dash_offset_over_pi(higher, radius, stroke_width),
        radius == stroke_width * 2 ==> stroke_dash_offset_over_pi(lower, radius, stroke_width)
            == stroke_dash_offset_over_pi(higher, radius, stroke_width),
        radius < stroke_width * 2 ==> stroke_dash_offset_over_pi(lower, radius, stroke_width)
            < stroke_dash_offset_over_pi(higher, radius, stroke_width),
{
    let c = circumference_over_pi(radius, stroke_width);
    assert(radius > stroke_width * 2 ==> c > 0real);
    assert(radius == stroke_width * 2 ==> c == 0real);
    assert(radius < stroke_width * 2 ==> c < 0real);
    assert((c > 0real ==> c - lower / 100real * c > c - higher / 100real * c) && (c == 0real ==> c
        - lower / 100real * c == c - higher / 100real * c) && (c < 0real ==> c - lower / 100real
        * c < c - higher / 100real * c)) by (nonlinear_arith)
        requires
            lower < higher,
    ;
}

/// From 0 to 100 percent the offset of a ring that is not collapsed stays
/// between zero and the circumference.
pub proof fn lemma_offset_within_circumference(percent: real, radius: int, stroke_width: int)
    requires
        0real <= percent <= 100real,
        radius >= stroke_width * 2,
    ensures
        0real <= stroke_dash_offset_over_pi(percent, radius, stroke_width)
            <= circumference_over_pi(radius, stroke_width),
{
    let c = circumference_over_pi(radius, stroke_width);
    assert(c >= 0real);
    assert(0real <= c - percent / 100real * c <= c) by (nonlinear_arith)
        requires
            0real <= percent <= 100real,
            c >= 0real,
    ;
}

/// Where twice the stroke width is not less than the radius, neither the
/// normalized radius nor the circumference is positive; a stroke as wide as
/// the radius or wider leaves a normalized radius of minus the radius or
/// less.
pub proof fn lemma_collapsed_ring(radius: int, stroke_width: int)
    ensures
        radius <= stroke_width * 2 <==> normalized_radius(radius, stroke_width) <= 0,
        radius <= stroke_width * 2 <==> circumference_over_pi(radius, stroke_width) <= 0real,
        stroke_width >= radius ==> normalized_radius(radius, stroke_width) <= -radius,
{
}

/// The draw parameters of a ring of the given radius and stroke width that
/// shows `percent`.
///
/// Every radius and stroke width is taken. Where twice the stroke width is
/// not less than the radius, the normalized radius and both lengths are zero
/// or negative, and the ring is collapsed.
pub fn ring_geometry(percent: Percent, radius: u32, stroke_width: u32) -> (g: RingGeometry)
    requires
        percent.wf(),
    ensures
        g == exact_geometry(percent, radius, stroke_width),
        g.wf(),
        g.diameter == radius * 2,
        g.normalized_radius == normalized_radius(radius as int, stroke_width as int),
        g.circumference.over_pi() == circumference_over_pi(radius as int, stroke_width as int),
        g.stroke_dash_offset.over_pi() == stroke_dash_offset_over_pi(
            percent.value(),
            radius as int,
            stroke_width as int,
        ),
        g.collapsed() <==> radius <= stroke_width * 2,
{
    let diameter: u64 = radius as u64 * 2;
    let normalized_radius: i64 = radius as i64 - stroke_width as i64 * 2;
    let twice: i128 = normalized_radius as i128 * 2;
    let whole: i128 = percent.denominator as i128 * 100;
    let rest: i128 = whole - percent.numerator as i128;
    proof {
        lemma_offset_fits(twice as int, rest as int);
        lemma_offset_value(twice as int, percent.numerator as int, percent.denominator as int);
    }
    let circumference = ArcLength { numerator: twice, denominator: 1 };
    let stroke_dash_offset = ArcLength { numerator: twice * rest, denominator: whole };
    proof {
        assert(circumference.denominator as real == 1real);
        assert(circumference.over_pi() == twice as real);
    }
    RingGeometry { diameter, normalized_radius, circumference, stroke_dash_offset }
}

} // verus!
