use time_progress::color::RingColor;

#[test]
fn a_ring_is_gray_by_default() {
    assert_eq!(RingColor::default(), RingColor::Gray);
}

#[test]
fn stroke_classes_of_each_colour() {
    assert_eq!(RingColor::Gray.as_stroke(), "stroke-gray-500 dark:stroke-gray-400");
    assert_eq!(RingColor::Red.as_stroke(), "stroke-red-500");
    assert_eq!(RingColor::Yellow.as_stroke(), "stroke-yellow-400");
    assert_eq!(RingColor::Green.as_stroke(), "stroke-green-500");
    assert_eq!(RingColor::Blue.as_stroke(), "stroke-blue-500");
    assert_eq!(RingColor::Violet.as_stroke(), "stroke-violet-600 dark:stroke-violet-500");
}

#[test]
fn fill_classes_of_each_colour() {
    assert_eq!(RingColor::Gray.as_fill(), "fill-gray-500 dark:fill-gray-400");
    assert_eq!(RingColor::Red.as_fill(), "fill-red-500");
    assert_eq!(RingColor::Yellow.as_fill(), "fill-yellow-400");
    assert_eq!(RingColor::Green.as_fill(), "fill-green-500");
    assert_eq!(RingColor::Blue.as_fill(), "fill-blue-500");
    assert_eq!(RingColor::Violet.as_fill(), "fill-violet-600 dark:fill-violet-500");
}
