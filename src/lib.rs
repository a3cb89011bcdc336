//! Plain-value geometry vocabulary: alignments, anchors, compass
//! directions, placements, integer insets and quadrant subdivision.

pub mod align;
pub mod anchor;
pub mod cardinal;
pub mod direction;
pub mod margin;
pub mod order;
pub mod placement;
pub mod quad;

pub use align::Align;
pub use anchor::Anchor;
pub use cardinal::{Cardinal, Intercardinal, PrimaryCardinal, Rank};
pub use direction::Axial;
pub use margin::{Margin, Padding};
pub use order::componentwise;
pub use placement::{HandleEdge, HandleSpan, Placement};
pub use quad::QuadSubdivide;
