use vstd::prelude::*;
use crate::anchor::{perimeter_at, Anchor};

verus! {

/// Whether a compass direction is one of the four primary (cardinal)
/// directions or one of the four secondary (intercardinal) ones.
#[derive(Debug, Clone, Copy, PartialEq, Eq, Structural, Hash)]
pub enum Rank {
    Primary,
    Secondary,
}

impl Rank {
    pub fn is_primary(self) -> (r: bool)
        ensures
            r == (self == Rank::Primary),
    {
        matches!(self, Rank::Primary)
    }

    pub fn is_secondary(self) -> (r: bool)
        ensures
            r == (self == Rank::Secondary),
    {
        matches!(self, Rank::Secondary)
    }
}

/// The eight directions of a compass, declared counter-clockwise from
/// north-west; the primary directions take the odd positions.
#[derive(Debug, Clone, Copy, PartialEq, Eq, Structural, Hash)]
pub enum Cardinal {
    /// North-West
    Nw,
    /// West
    W,
    /// South-West
    Sw,
    /// South
    S,
    /// South-East
    Se,
    /// East
    E,
    /// North-East
    Ne,
    /// North
    N,
}

impl Cardinal {
    /// Position in the counter-clockwise order that starts at north-west.
    pub open spec fn index(self) -> int {
        match self {
            Cardinal::Nw => 0,
            Cardinal::W => 1,
            Cardinal::Sw => 2,
            Cardinal::S => 3,
            Cardinal::Se => 4,
            Cardinal::E => 5,
            Cardinal::Ne => 6,
            Cardinal::N => 7,
        }
    }

    /// The direction at position `i` (modulo 8) of the counter-clockwise
    /// order that starts at north-west.
    pub open spec fn at_index(i: int) -> Cardinal {
        let k = i % 8;
        if k == 0 {
            Cardinal::Nw
        } else if k == 1 {
            Cardinal::W
        } else if k == 2 {
            Cardinal::Sw
        } else if k == 3 {
            Cardinal::S
        } else if k == 4 {
            Cardinal::Se
        } else if k == 5 {
            Cardinal::E
        } else if k == 6 {
            Cardinal::Ne
        } else {
            Cardinal::N
        }
    }

    /// The direction's name in words.
    pub open spec fn name(self) -> Seq<char> {
        match self {
            Cardinal::Nw => "Northwest"@,
            Cardinal::W => "West"@,
            Cardinal::Sw => "Southwest"@,
            Cardinal::S => "South"@,
            Cardinal::Se => "Southeast"@,
            Cardinal::E => "East"@,
            Cardinal::Ne => "Northeast"@,
            Cardinal::N => "North"@,
        }
    }

    /// The direction of the 45-degree octant `octant` (taken modulo 8),
    /// counted counter-clockwise from east: 0 is east, 2 north, 4 west,
    /// 6 south.
    pub fn from_octant(octant: u8) -> (r: Cardinal)
        ensures
            r == Cardinal::at_index(octant as int + 5),
    {
        match octant % 8 {
            0 => Cardinal::E,
            1 => Cardinal::Ne,
            2 => Cardinal::N,
            3 => Cardinal::Nw,
            4 => Cardinal::W,
            5 => Cardinal::Sw,
            6 => Cardinal::S,
            _ => Cardinal::Se,
        }
    }

    /// The opposite direction.
    pub fn antipode(self) -> (r: Cardinal)
        ensures
            r == Cardinal::at_index(self.index() + 4),
    {
        match self {
            Cardinal::Nw => Cardinal::Se,
            Cardinal::W => Cardinal::E,
            Cardinal::Sw => Cardinal::Ne,
            Cardinal::S => Cardinal::N,
            Cardinal::Se => Cardinal::Nw,
            Cardinal::E => Cardinal::W,
            Cardinal::Ne => Cardinal::Sw,
            Cardinal::N => Cardinal::S,
        }
    }

    /// The anchor of a rectangle that lies in this direction from its
    /// center (north is up).
    pub fn anchor(self) -> (r: Anchor)
        ensures
            r.perimeter_index() == Some(self.index()),
    {
        match self {
            Cardinal::Nw => Anchor::LeftTop,
            Cardinal::W => Anchor::LeftCenter,
            Cardinal::Sw => Anchor::LeftBottom,
            Cardinal::S => Anchor::BottomCenter,
            Cardinal::Se => Anchor::RightBottom,
            Cardinal::E => Anchor::RightCenter,
            Cardinal::Ne => Anchor::RightTop,
            Cardinal::N => Anchor::TopCenter,
        }
    }

    /// The direction's name in words.
    pub fn text(self) -> (r: &'static str)
        ensures
            r@ == self.name(),
    {
        match self {
            Cardinal::Nw => "Northwest",
            Cardinal::W => "West",
            Cardinal::Sw => "Southwest",
            Cardinal::S => "South",
            Cardinal::Se => "Southeast",
            Cardinal::E => "East",
            Cardinal::Ne => "Northeast",
            Cardinal::N => "North",
        }
    }

    /// Primary for north, west, south and east; secondary for the rest.
    pub fn rank(self) -> (r: Rank)
        ensures
            r == (if self.index() % 2 == 1 { Rank::Primary } else { Rank::Secondary }),
    {
        match self {
            Cardinal::W | Cardinal::S | Cardinal::E | Cardinal::N => Rank::Primary,
            Cardinal::Nw | Cardinal::Sw | Cardinal::Se | Cardinal::Ne => Rank::Secondary,
        }
    }

    pub fn is_primary(self) -> (r: bool)
        ensures
            r == (self.index() % 2 == 1),
    {
        self.rank().is_primary()
    }

    pub fn is_secondary(self) -> (r: bool)
        ensures
            r == (self.index() % 2 == 0),
    {
        self.rank().is_secondary()
    }

    /// Whether the direction is within 45 degrees of northwest.
    pub fn is_northwestward(self) -> (r: bool)
        ensures
            r == (self == Cardinal::Nw || self == Cardinal::N || self == Cardinal::W),
    {
        matches!(self, Cardinal::Nw | Cardinal::N | Cardinal::W)
    }

    /// Whether the direction is within 45 degrees of west.
    pub fn is_westward(self) -> (r: bool)
        ensures
            r == (self == Cardinal::Sw || self == Cardinal::W || self == Cardinal::Nw),
    {
        matches!(self, Cardinal::Sw | Cardinal::W | Cardinal::Nw)
    }

    /// Whether the direction is within 45 degrees of southwest.
    pub fn is_southwestward(self) -> (r: bool)
        ensures
            r == (self == Cardinal::S || self == Cardinal::Sw || self == Cardinal::W),
    {
        matches!(self, Cardinal::S | Cardinal::Sw | Cardinal::W)
    }

    /// Whether the direction is within 45 degrees of south.
    pub fn is_southward(self) -> (r: bool)
        ensures
            r == (self == Cardinal::Se || self == Cardinal::S || self == Cardinal::Sw),
    {
        matches!(self, Cardinal::Se | Cardinal::S | Cardinal::Sw)
    }

    /// Whether the direction is within 45 degrees of southeast.
    pub fn is_southeastward(self) -> (r: bool)
        ensures
            r == (self == Cardinal::E || self == Cardinal::Se || self == Cardinal::S),
    {
        matches!(self, Cardinal::E | Cardinal::Se | Cardinal::S)
    }

    /// Whether the direction is within 45 degrees of east.
    pub fn is_eastward(self) -> (r: bool)
        ensures
            r == (self == Cardinal::Ne || self == Cardinal::E || self == Cardinal::Se),
    {
        matches!(self, Cardinal::Ne | Cardinal::E | Cardinal::Se)
    }

    /// Whether the direction is within 45 degrees of northeast.
    pub fn is_northeastward(self) -> (r: bool)
        ensures
            r == (self == Cardinal::N || self == Cardinal::Ne || self == Cardinal::E),
    {
        matches!(self, Cardinal::N | Cardinal::Ne | Cardinal::E)
    }

    /// Whether the direction is within 45 degrees of north.
    pub fn is_northward(self) -> (r: bool)
        ensures
            r == (self == Cardinal::Nw || self == Cardinal::N || self == Cardinal::Ne),
    {
        matches!(self, Cardinal::Nw | Cardinal::N | Cardinal::Ne)
    }

    pub fn is_northwest(self) -> (r: bool)
        ensures
            r == (self == Cardinal::Nw),
    {
        matches!(self, Cardinal::Nw)
    }

    pub fn is_west(self) -> (r: bool)
        ensures
            r == (self == Cardinal::W),
    {
        matches!(self, Cardinal::W)
    }

    pub fn is_southwest(self) -> (r: bool)
        ensures
            r == (self == Cardinal::Sw),
    {
        matches!(self, Cardinal::Sw)
    }

    pub fn is_south(self) -> (r: bool)
        ensures
            r == (self == Cardinal::S),
    {
        matches!(self, Cardinal::S)
    }

    pub fn is_southeast(self) -> (r: bool)
        ensures
            r == (self == Cardinal::Se),
    {
        matches!(self, Cardinal::Se)
    }

    pub fn is_east(self) -> (r: bool)
        ensures
            r == (self == Cardinal::E),
    {
        matches!(self, Cardinal::E)
    }

    pub fn is_northeast(self) -> (r: bool)
        ensures
            r == (self == Cardinal::Ne),
    {
        matches!(self, Cardinal::Ne)
    }

    pub fn is_north(self) -> (r: bool)
        ensures
            r == (self == Cardinal::N),
    {
        matches!(self, Cardinal::N)
    }
}

/// The four primary compass directions.
#[derive(Debug, Clone, Copy, PartialEq, Eq, Structural, Hash)]
pub enum PrimaryCardinal {
    North,
    West,
    South,
    East,
}

/// The four secondary compass directions.
#[derive(Debug, Clone, Copy, PartialEq, Eq, Structural, Hash)]
pub enum Intercardinal {
    Nw,
    Sw,
    Se,
    Ne,
}

impl PrimaryCardinal {
    /// The opposite direction.
    pub fn antipode(self) -> (r: PrimaryCardinal)
        ensures
            r == match self {
                PrimaryCardinal::North => PrimaryCardinal::South,
                PrimaryCardinal::West => PrimaryCardinal::East,
                PrimaryCardinal::South => PrimaryCardinal::North,
                PrimaryCardinal::East => PrimaryCardinal::West,
            },
    {
        match self {
            PrimaryCardinal::North => PrimaryCardinal::South,
            PrimaryCardinal::West => PrimaryCardinal::East,
            PrimaryCardinal::South => PrimaryCardinal::North,
            PrimaryCardinal::East => PrimaryCardinal::West,
        }
    }

    pub fn is_north_or_west(self) -> (r: bool)
        ensures
            r == (self == PrimaryCardinal::North || self == PrimaryCardinal::West),
    {
        matches!(self, PrimaryCardinal::North | PrimaryCardinal::West)
    }

    pub fn is_north_or_east(self) -> (r: bool)
        ensures
            r == (self == PrimaryCardinal::North || self == PrimaryCardinal::East),
    {
        matches!(self, PrimaryCardinal::North | PrimaryCardinal::East)
    }

    pub fn is_south_or_east(self) -> (r: bool)
        ensures
            r == (self == PrimaryCardinal::East || self == PrimaryCardinal::South),
    {
        matches!(self, PrimaryCardinal::East | PrimaryCardinal::South)
    }

    pub fn is_south_or_west(self) -> (r: bool)
        ensures
            r == (self == PrimaryCardinal::South || self == PrimaryCardinal::West),
    {
        matches!(self, PrimaryCardinal::South | PrimaryCardinal::West)
    }

    pub fn is_north_or_south(self) -> (r: bool)
        ensures
            r == (self == PrimaryCardinal::North || self == PrimaryCardinal::South),
    {
        matches!(self, PrimaryCardinal::North | PrimaryCardinal::South)
    }

    pub fn is_west_or_east(self) -> (r: bool)
        ensures
            r == (self == PrimaryCardinal::West || self == PrimaryCardinal::East),
    {
        matches!(self, PrimaryCardinal::West | PrimaryCardinal::East)
    }

    pub fn is_north(self) -> (r: bool)
        ensures
            r == (self == PrimaryCardinal::North),
    {
        matches!(self, PrimaryCardinal::North)
    }

    pub fn is_west(self) -> (r: bool)
        ensures
            r == (self == PrimaryCardinal::West),
    {
        matches!(self, PrimaryCardinal::West)
    }

    pub fn is_south(self) -> (r: bool)
        ensures
            r == (self == PrimaryCardinal::South),
    {
        matches!(self, PrimaryCardinal::South)
    }

    pub fn is_east(self) -> (r: bool)
        ensures
            r == (self == PrimaryCardinal::East),
    {
        matches!(self, PrimaryCardinal::East)
    }

    /// Whether the direction is north or south.
    pub fn is_longitudinal(self) -> (r: bool)
        ensures
            r == (self == PrimaryCardinal::North || self == PrimaryCardinal::South),
    {
        self.is_north_or_south()
    }

    /// Whether the direction is west or east.
    pub fn is_lateral(self) -> (r: bool)
        ensures
            r == (self == PrimaryCardinal::West || self == PrimaryCardinal::East),
    {
        self.is_west_or_east()
    }
}

impl Intercardinal {
    /// Whether the diagonal leans toward the primary direction `c`.
    pub open spec fn leans(self, c: PrimaryCardinal) -> bool {
        match c {
            PrimaryCardinal::North => self == Intercardinal::Nw || self == Intercardinal::Ne,
            PrimaryCardinal::West => self == Intercardinal::Nw || self == Intercardinal::Sw,
            PrimaryCardinal::South => self == Intercardinal::Sw || self == Intercardinal::Se,
            PrimaryCardinal::East => self == Intercardinal::Ne || self == Intercardinal::Se,
        }
    }

    /// The opposite direction.
    pub fn antipode(self) -> (r: Intercardinal)
        ensures
            r == match self {
                Intercardinal::Nw => Intercardinal::Se,
                Intercardinal::Sw => Intercardinal::Ne,
                Intercardinal::Se => Intercardinal::Nw,
                Intercardinal::Ne => Intercardinal::Sw,
            },
    {
        match self {
            Intercardinal::Nw => Intercardinal::Se,
            Intercardinal::Sw => Intercardinal::Ne,
            Intercardinal::Se => Intercardinal::Nw,
            Intercardinal::Ne => Intercardinal::Sw,
        }
    }

    pub fn is_northward(self) -> (r: bool)
        ensures
            r == self.leans(PrimaryCardinal::North),
    {
        matches!(self, Intercardinal::Nw | Intercardinal::Ne)
    }

    pub fn is_westward(self) -> (r: bool)
        ensures
            r == self.leans(PrimaryCardinal::West),
    {
        matches!(self, Intercardinal::Nw | Intercardinal::Sw)
    }

    pub fn is_southward(self) -> (r: bool)
        ensures
            r == self.leans(PrimaryCardinal::South),
    {
        matches!(self, Intercardinal::Se | Intercardinal::Sw)
    }

    pub fn is_eastward(self) -> (r: bool)
        ensures
            r == self.leans(PrimaryCardinal::East),
    {
        matches!(self, Intercardinal::Ne | Intercardinal::Se)
    }

    /// Whether the diagonal leans toward `cardinal`.
    pub fn has_cardinality(self, cardinal: PrimaryCardinal) -> (r: bool)
        ensures
            r == self.leans(cardinal),
    {
        match cardinal {
            PrimaryCardinal::North => self.is_northward(),
            PrimaryCardinal::West => self.is_westward(),
            PrimaryCardinal::South => self.is_southward(),
            PrimaryCardinal::East => self.is_eastward(),
        }
    }

    pub fn is_nw(self) -> (r: bool)
        ensures
            r == (self == Intercardinal::Nw),
    {
        matches!(self, Intercardinal::Nw)
    }

    pub fn is_sw(self) -> (r: bool)
        ensures
            r == (self == Intercardinal::Sw),
    {
        matches!(self, Intercardinal::Sw)
    }

    pub fn is_se(self) -> (r: bool)
        ensures
            r == (self == Intercardinal::Se),
    {
        matches!(self, Intercardinal::Se)
    }

    pub fn is_ne(self) -> (r: bool)
        ensures
            r == (self == Intercardinal::Ne),
    {
        matches!(self, Intercardinal::Ne)
    }
}

/// The antipode differs from the direction, taking it twice gives the
/// direction back, and it keeps the rank.
pub proof fn lemma_antipode(c: Cardinal)
    ensures
        Cardinal::at_index(c.index() + 4) != c,
        Cardinal::at_index(Cardinal::at_index(c.index() + 4).index() + 4) == c,
        Cardinal::at_index(c.index() + 4).index() % 2 == c.index() % 2,
{
}

/// Every direction occupies its own position in the order.
pub proof fn lemma_index_round_trip(c: Cardinal)
    ensures
        0 <= c.index() < 8,
        Cardinal::at_index(c.index()) == c,
{
}

/// The anchor of the opposite direction is the inverted anchor.
pub proof fn lemma_antipode_anchor(c: Cardinal)
    ensures
        perimeter_at(Cardinal::at_index(c.index() + 4).index()) == perimeter_at(c.index()).inverted(),
{
}

/// Every diagonal leans toward exactly two primary directions, which
/// are not opposite to each other.
pub proof fn lemma_diagonal_leans(d: Intercardinal)
    ensures
        d.leans(PrimaryCardinal::North) != d.leans(PrimaryCardinal::South),
        d.leans(PrimaryCardinal::West) != d.leans(PrimaryCardinal::East),
{
}

} // verus!
