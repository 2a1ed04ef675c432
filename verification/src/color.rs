//! The colours of a ring and the style classes that stand for them.

use vstd::prelude::*;

verus! {

/// The closed set of colours a ring can have.
#[derive(Clone, Copy, Debug, PartialEq, Eq, Structural)]
pub enum RingColor {
    Gray,
    Red,
    Yellow,
    Green,
    Blue,
    Violet,
}

impl Default for RingColor {
    /// A ring that is given no colour is gray.
    fn default() -> (r: Self)
        ensures
            r == RingColor::Gray,
    {
        RingColor::Gray
    }
}

impl RingColor {
    /// The style classes that give a stroke this colour.
    pub open spec fn stroke_classes(self) -> Seq<char> {
        match self {
            RingColor::Gray => "stroke-gray-500 dark:stroke-gray-400"@,
            RingColor::Red => "stroke-red-500"@,
            RingColor::Yellow => "stroke-yellow-400"@,
            RingColor::Green => "stroke-green-500"@,
            RingColor::Blue => "stroke-blue-500"@,
            RingColor::Violet => "stroke-violet-600 dark:stroke-violet-500"@,
        }
    }

    /// The style classes that give a filled shape this colour.
    pub open spec fn fill_classes(self) -> Seq<char> {
        match self {
            RingColor::Gray => "fill-gray-500 dark:fill-gray-400"@,
            RingColor::Red => "fill-red-500"@,
            RingColor::Yellow => "fill-yellow-400"@,
            RingColor::Green => "fill-green-500"@,
            RingColor::Blue => "fill-blue-500"@,
            RingColor::Violet => "fill-violet-600 dark:fill-violet-500"@,
        }
    }

    /// The style classes that give a stroke this colour.
    pub fn as_stroke(&self) -> (r: String)
        ensures
            r@ == self.stroke_classes(),
    {
        match self {
            RingColor::Gray => "stroke-gray-500 dark:stroke-gray-400".to_owned(),
            RingColor::Red => "stroke-red-500".to_owned(),
            RingColor::Yellow => "stroke-yellow-400".to_owned(),
            RingColor::Green => "stroke-green-500".to_owned(),
            RingColor::Blue => "stroke-blue-500".to_owned(),
            RingColor::Violet => "stroke-violet-600 dark:stroke-violet-500".to_owned(),
        }
    }

    /// The style classes that give a filled shape this colour.
    pub fn as_fill(&self) -> (r: String)
        ensures
            r@ == self.fill_classes(),
    {
        match self {
            RingColor::Gray => "fill-gray-500 dark:fill-gray-400".to_owned(),
            RingColor::Red => "fill-red-500".to_owned(),
            RingColor::Yellow => "fill-yellow-400".to_owned(),
            RingColor::Green => "fill-green-500".to_owned(),
            RingColor::Blue => "fill-blue-500".to_owned(),
            RingColor::Violet => "fill-violet-600 dark:fill-violet-500".to_owned(),
        }
    }
}

} // verus!
