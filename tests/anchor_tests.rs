use fnord::{Align, Anchor, Axial, Placement};
use std::cmp::Ordering::{Equal, Greater, Less};

const ALL: [Anchor; 9] = [
    Anchor::LeftTop,
    Anchor::LeftCenter,
    Anchor::LeftBottom,
    Anchor::BottomCenter,
    Anchor::RightBottom,
    Anchor::RightCenter,
    Anchor::RightTop,
    Anchor::TopCenter,
    Anchor::Center,
];

#[test]
fn invert_pairs() {
    assert_eq!(Anchor::LeftTop.invert(), Anchor::RightBottom);
    assert_eq!(Anchor::LeftCenter.invert(), Anchor::RightCenter);
    assert_eq!(Anchor::LeftBottom.invert(), Anchor::RightTop);
    assert_eq!(Anchor::TopCenter.invert(), Anchor::BottomCenter);
    assert_eq!(Anchor::Center.invert(), Anchor::Center);
    for a in ALL {
        assert_eq!(a.invert().invert(), a);
        assert_eq!(a.invert(), a.invert_horizontal().invert_vertical());
        assert_eq!(a.invert() == a, a == Anchor::Center);
    }
}

#[test]
fn mirror_pairs() {
    assert_eq!(Anchor::LeftTop.invert_horizontal(), Anchor::RightTop);
    assert_eq!(Anchor::TopCenter.invert_horizontal(), Anchor::TopCenter);
    assert_eq!(Anchor::LeftTop.invert_vertical(), Anchor::LeftBottom);
    assert_eq!(Anchor::LeftCenter.invert_vertical(), Anchor::LeftCenter);
}

#[test]
fn rotate_steps() {
    assert_eq!(Anchor::LeftTop.rotate(1), Anchor::LeftCenter);
    assert_eq!(Anchor::LeftTop.rotate(-1), Anchor::TopCenter);
    assert_eq!(Anchor::TopCenter.rotate(1), Anchor::LeftTop);
    assert_eq!(Anchor::RightBottom.rotate(12), Anchor::LeftTop);
    assert_eq!(Anchor::Center.rotate(3), Anchor::Center);
    assert_eq!(Anchor::LeftBottom.rotate(i32::MIN), Anchor::LeftBottom);
    assert_eq!(Anchor::LeftBottom.rotate(i32::MAX), Anchor::LeftCenter);
    for a in ALL {
        assert_eq!(a.rotate(8), a);
        assert_eq!(a.rotate(4), a.invert());
        assert_eq!(a.rotate(3).rotate(-3), a);
    }
}

#[test]
fn anchor_aligns() {
    assert_eq!(Anchor::LeftBottom.horizontal(), Align::Min);
    assert_eq!(Anchor::LeftBottom.vertical(), Align::Max);
    assert_eq!(Anchor::TopCenter.horizontal(), Align::Center);
    for a in ALL {
        assert_eq!(Anchor::from_aligns(a.horizontal(), a.vertical()), a);
        assert_eq!(a.invert().horizontal(), a.horizontal().flip());
    }
}

#[test]
fn locate_regions() {
    assert_eq!(Anchor::locate(true, true, true, true), Some(Anchor::Center));
    assert_eq!(Anchor::locate(true, true, true, false), Some(Anchor::BottomCenter));
    assert_eq!(Anchor::locate(true, true, false, true), Some(Anchor::TopCenter));
    assert_eq!(Anchor::locate(true, false, true, true), Some(Anchor::RightCenter));
    assert_eq!(Anchor::locate(false, true, true, true), Some(Anchor::LeftCenter));
    assert_eq!(Anchor::locate(true, false, true, false), Some(Anchor::RightBottom));
    assert_eq!(Anchor::locate(true, false, false, true), Some(Anchor::RightTop));
    assert_eq!(Anchor::locate(false, true, true, false), Some(Anchor::LeftBottom));
    assert_eq!(Anchor::locate(false, true, false, true), Some(Anchor::LeftTop));
    assert_eq!(Anchor::locate(false, false, true, true), None);
    assert_eq!(Anchor::locate(true, true, false, false), None);
    assert_eq!(Anchor::locate(false, false, false, false), None);
}

#[test]
fn align_from_integers() {
    assert_eq!(Align::from_i8(-3), Align::Min);
    assert_eq!(Align::from_i8(0), Align::Center);
    assert_eq!(Align::from_i8(i8::MAX), Align::Max);
    assert_eq!(Align::from_i16(i16::MIN), Align::Min);
    assert_eq!(Align::from_i32(1), Align::Max);
    assert_eq!(Align::from_i64(0), Align::Center);
    assert_eq!(Align::from_i128(-1), Align::Min);
    assert_eq!(Align::default(), Align::Min);
    assert_eq!(Align::LEFT, Align::Min);
    assert_eq!(Align::BOTTOM, Align::Max);
}

#[test]
fn align_locate_and_flip() {
    assert_eq!(Align::locate(true, true), Some(Align::Center));
    assert_eq!(Align::locate(false, true), Some(Align::Min));
    assert_eq!(Align::locate(true, false), Some(Align::Max));
    assert_eq!(Align::locate(false, false), None);
    assert_eq!(Align::Min.flip(), Align::Max);
    assert_eq!(Align::Center.flip(), Align::Center);
}

#[test]
fn axial_directions() {
    assert_eq!(Axial::Right.opposite(), Axial::Left);
    assert_eq!(Axial::Up.opposite(), Axial::Down);
    assert_eq!(Axial::Left.opposite(), Axial::Right);
    assert_eq!(Axial::Down.opposite(), Axial::Up);
    assert!(Axial::Up.is_horizontal() && !Axial::Up.is_vertical());
    assert!(Axial::Left.is_vertical() && !Axial::Left.is_horizontal());
    assert_eq!(Axial::from_quadrant(0), Axial::Right);
    assert_eq!(Axial::from_quadrant(1), Axial::Up);
    assert_eq!(Axial::from_quadrant(6), Axial::Left);
    assert_eq!(Axial::from_quadrant(3), Axial::Down);
}

#[test]
fn placement_basics() {
    assert_eq!(Placement::Inside.invert(), Placement::Outside);
    assert_eq!(Placement::Middle.invert(), Placement::Middle);
    assert_eq!(Placement::Outside.invert(), Placement::Inside);
    assert!(Placement::Inside.is_inside() && !Placement::Inside.is_outside());
    assert!(Placement::Middle.is_middle());
    assert!(Placement::Outside.is_outside() && !Placement::Outside.is_middle());
}

fn eval(span: fnord::HandleSpan, lo: i64, hi: i64, h: i64) -> (i64, i64) {
    let at = |e: fnord::HandleEdge| (if e.from_max { hi } else { lo }) + e.halves as i64 * h;
    (at(span.start), at(span.end))
}

#[test]
fn handle_spans() {
    // base 0..10, handle size 4 (half size 2)
    let cases = [
        (Align::Min, Placement::Inside, (0, 4)),
        (Align::Min, Placement::Middle, (-2, 2)),
        (Align::Min, Placement::Outside, (-4, 0)),
        (Align::Center, Placement::Inside, (4, 6)),
        (Align::Center, Placement::Middle, (2, 8)),
        (Align::Center, Placement::Outside, (0, 10)),
        (Align::Max, Placement::Inside, (6, 10)),
        (Align::Max, Placement::Middle, (8, 12)),
        (Align::Max, Placement::Outside, (10, 14)),
    ];
    for (align, placement, expected) in cases {
        assert_eq!(eval(placement.handle_span(align), 0, 10, 2), expected);
    }
}

#[test]
fn componentwise_order() {
    // (1, 0) against (0, 1): greater on x, less on y.
    assert_eq!(fnord::componentwise(1f32.partial_cmp(&0.0), 0f32.partial_cmp(&1.0)), None);
    assert_eq!(fnord::componentwise(Some(Less), Some(Less)), Some(Less));
    assert_eq!(fnord::componentwise(Some(Greater), Some(Greater)), Some(Greater));
    assert_eq!(fnord::componentwise(Some(Equal), Some(Equal)), Some(Equal));
    assert_eq!(fnord::componentwise(Some(Equal), Some(Less)), None);
    assert_eq!(fnord::componentwise(None, Some(Less)), None);
    assert_eq!(fnord::componentwise(f32::NAN.partial_cmp(&1.0), Some(Equal)), None);
}
