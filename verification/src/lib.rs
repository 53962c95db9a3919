//! Geometric primitives for rectilinear (Manhattan-geometry) physical design:
//! closed intervals, 2D points, 2D vectors, axis-aligned rectangles, and
//! axis-aligned segments, together with a uniform operation protocol
//! (overlap, containment, intersection, minimum distance, measure, center).

pub mod generic;
pub mod interval;
pub mod point;
pub mod recti;
pub mod vector2;

pub use interval::Interval;
pub use point::Point;
pub use recti::{HSegment, Rectangle, VSegment};
pub use vector2::Vector2;
