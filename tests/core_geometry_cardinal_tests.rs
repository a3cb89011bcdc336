use fnord::{Anchor, Cardinal, Intercardinal, PrimaryCardinal};

#[derive(Debug, Default, Clone, Copy, PartialEq, Eq, PartialOrd, Ord, Hash)]
pub struct Counter(usize);

impl Counter {
    pub const fn new() -> Self {
        Self(0)
    }

    pub fn increment(&mut self) -> usize {
        let next = self.0;
        self.0 += 1;
        next
    }

    pub fn assert_eq_with_msg(self, count: usize, msg: &str) {
        assert_eq!(self.0, count, "{}", msg)
    }
}

fn primary(dir: Cardinal, name: &str, counter: &mut Counter) {
    assert!(dir.is_primary(), "{} was not primary.", name);
    assert!(!dir.is_secondary(), "{} was secondary.", name);
    counter.increment();
}

fn secondary(dir: Cardinal, name: &str, counter: &mut Counter) {
    assert!(dir.is_secondary(), "{} was not secondary.", name);
    assert!(!dir.is_primary(), "{} was primary.", name);
    counter.increment();
}

#[test]
fn rank_test() {
    let mut proof_of_work = Counter::new();
    primary(Cardinal::N, "N", &mut proof_of_work);
    primary(Cardinal::W, "W", &mut proof_of_work);
    primary(Cardinal::S, "S", &mut proof_of_work);
    primary(Cardinal::E, "E", &mut proof_of_work);
    secondary(Cardinal::Ne, "Ne", &mut proof_of_work);
    secondary(Cardinal::Nw, "Nw", &mut proof_of_work);
    secondary(Cardinal::Se, "Se", &mut proof_of_work);
    secondary(Cardinal::Sw, "Sw", &mut proof_of_work);
    proof_of_work.assert_eq_with_msg(8, "Expected 8 tests.");
}

const ALL: [Cardinal; 8] = [
    Cardinal::Nw,
    Cardinal::W,
    Cardinal::Sw,
    Cardinal::S,
    Cardinal::Se,
    Cardinal::E,
    Cardinal::Ne,
    Cardinal::N,
];

#[test]
fn antipode_is_involution_and_keeps_rank() {
    for c in ALL {
        assert_ne!(c.antipode(), c);
        assert_eq!(c.antipode().antipode(), c);
        assert_eq!(c.antipode().rank(), c.rank());
        assert_eq!(c.antipode().anchor(), c.anchor().invert());
    }
    assert_eq!(Cardinal::Nw.antipode(), Cardinal::Se);
    assert_eq!(Cardinal::N.antipode(), Cardinal::S);
}

#[test]
fn cardinal_text_and_anchor() {
    assert_eq!(Cardinal::Nw.text(), "Northwest");
    assert_eq!(Cardinal::E.text(), "East");
    assert_eq!(Cardinal::Sw.text(), "Southwest");
    assert_eq!(Cardinal::N.anchor(), Anchor::TopCenter);
    assert_eq!(Cardinal::Se.anchor(), Anchor::RightBottom);
}

#[test]
fn cardinal_wards() {
    assert!(Cardinal::N.is_northward() && Cardinal::Nw.is_northward() && Cardinal::Ne.is_northward());
    assert!(!Cardinal::W.is_northward());
    assert!(Cardinal::S.is_southwestward() && Cardinal::W.is_southwestward());
    assert!(!Cardinal::Se.is_southwestward());
    assert!(Cardinal::E.is_east() && !Cardinal::E.is_northeast());
    assert!(Cardinal::Se.is_eastward() && !Cardinal::S.is_eastward());
}

#[test]
fn cardinal_from_octant() {
    assert_eq!(Cardinal::from_octant(0), Cardinal::E);
    assert_eq!(Cardinal::from_octant(1), Cardinal::Ne);
    assert_eq!(Cardinal::from_octant(2), Cardinal::N);
    assert_eq!(Cardinal::from_octant(4), Cardinal::W);
    assert_eq!(Cardinal::from_octant(6), Cardinal::S);
    assert_eq!(Cardinal::from_octant(7), Cardinal::Se);
    assert_eq!(Cardinal::from_octant(8), Cardinal::E);
    assert_eq!(Cardinal::from_octant(255), Cardinal::Se);
}

#[test]
fn primary_and_intercardinal() {
    assert_eq!(PrimaryCardinal::North.antipode(), PrimaryCardinal::South);
    assert_eq!(PrimaryCardinal::East.antipode(), PrimaryCardinal::West);
    assert!(PrimaryCardinal::North.is_longitudinal() && !PrimaryCardinal::North.is_lateral());
    assert!(PrimaryCardinal::East.is_lateral() && PrimaryCardinal::East.is_south_or_east());
    assert!(!PrimaryCardinal::West.is_north_or_east());
    assert_eq!(Intercardinal::Nw.antipode(), Intercardinal::Se);
    assert_eq!(Intercardinal::Sw.antipode(), Intercardinal::Ne);
    assert!(Intercardinal::Nw.has_cardinality(PrimaryCardinal::North));
    assert!(Intercardinal::Nw.has_cardinality(PrimaryCardinal::West));
    assert!(!Intercardinal::Nw.has_cardinality(PrimaryCardinal::South));
    assert!(!Intercardinal::Se.has_cardinality(PrimaryCardinal::West));
    assert!(Intercardinal::Ne.is_ne() && !Intercardinal::Ne.is_se());
}
