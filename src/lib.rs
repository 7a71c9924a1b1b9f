//! Conversion of a parsed vector document into a tree of renderable
//! primitives: polylines and polygons with resolved style attributes.
pub mod geometry;
pub mod tessellate;
pub mod style;
pub mod walker;
pub mod asset;
