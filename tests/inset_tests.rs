use fnord::{Margin, Padding, QuadSubdivide};

#[test]
fn margin_constructors() {
    let m = Margin::new(1, 2, 3, 4);
    assert_eq!((m.left, m.top, m.right, m.bottom), (1, 2, 3, 4));
    let s = Margin::same(2);
    assert_eq!((s.left, s.top, s.right, s.bottom), (2, 2, 2, 2));
    let y = Margin::symmetric(5, -1);
    assert_eq!((y.left, y.top, y.right, y.bottom), (5, -1, 5, -1));
    assert_eq!(Margin::default(), Margin::same(0));
}

#[test]
fn margin_totals_do_not_overflow() {
    let m = Margin::same(i8::MAX);
    assert_eq!(m.x(), 254);
    assert_eq!(m.y(), 254);
    let n = Margin::same(i8::MIN);
    assert_eq!(n.x(), -256);
    assert_eq!(Margin::new(1, 2, 3, 4).x(), 4);
    assert_eq!(Margin::new(1, 2, 3, 4).y(), 6);
}

#[test]
fn margin_arithmetic() {
    let a = Margin::new(1, 2, 3, 4);
    let b = Margin::new(10, 20, 30, 40);
    assert_eq!(a.add_margin(b), Margin::new(11, 22, 33, 44));
    assert_eq!(b.sub_margin(a), Margin::new(9, 18, 27, 36));
    assert_eq!(a.sub_margin(a), Margin::same(0));
}

#[test]
fn margin_to_padding_keeps_values() {
    let p = Margin::same(2).to_padding();
    assert_eq!((p.left, p.top, p.right, p.bottom), (2, 2, 2, 2));
    assert_eq!(p, Padding::same(2));
    let m = Margin::new(-1, 2, -3, 4);
    assert_eq!(Margin::from_padding(m.to_padding()), m);
    assert_eq!(Padding::from_margin(m).to_margin(), m);
}

#[test]
fn padding_arithmetic() {
    let a = Padding::new(1, 2, 3, 4);
    assert_eq!(a.add_padding(Padding::same(1)), Padding::new(2, 3, 4, 5));
    assert_eq!(a.sub_padding(Padding::symmetric(1, 2)), Padding::new(0, 0, 2, 2));
    assert_eq!(a.x(), 4);
    assert_eq!(a.y(), 6);
}

#[test]
fn quadrants_by_name_and_index() {
    let mut q = QuadSubdivide::new("lt", "rt", "lb", "rb");
    assert_eq!(*q.left_top(), "lt");
    assert_eq!(*q.right_top(), "rt");
    assert_eq!(*q.left_bottom(), "lb");
    assert_eq!(*q.right_bottom(), "rb");
    assert_eq!(*q.quadrant(0, 0), "lt");
    assert_eq!(*q.quadrant(1, 0), "rt");
    assert_eq!(*q.quadrant(0, 1), "lb");
    assert_eq!(*q.quadrant(1, 1), "rb");
    assert_eq!(q.as_slice(), &["lt", "rt", "lb", "rb"]);
    *q.right_bottom_mut() = "x";
    *q.quadrant_mut(0, 1) = "y";
    *q.left_top_mut() = "z";
    *q.right_top_mut() = "w";
    assert_eq!(q.as_slice(), &["z", "w", "y", "x"]);
    q.as_mut_slice()[2] = "v";
    *q.left_bottom_mut() = "u";
    assert_eq!(*q.left_bottom(), "u");
}
