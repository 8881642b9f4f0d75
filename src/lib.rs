//! Geometry and hit-testing for client-side window decorations: a header bar
//! and four border strips drawn around a window's content area.

pub mod geometry;
pub mod parts;
pub mod laws;

pub use geometry::{Coord, Location, Part, Rect};
pub use parts::{DecorationParts, DecorationSizes};

