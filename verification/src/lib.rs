//! A procedural renderer for a rotating bicycle-crank emblem: a scalloped
//! chain ring with a five-lobed ridge star and five bolt-head stars, overlaid
//! with three pairs of rotated triangular blades.
//!
//! The library computes the exact geometry of one animation frame as a draw
//! plan: an ordered list of canvas operations whose points are kept in polar
//! form with exact rational angles (in turns) and exact fixed-point radii.
//! A thin unverified front end evaluates the plan with floating-point
//! trigonometry onto a raster surface and exports the image.

pub mod chain_ring;
pub mod color;
pub mod frame;
pub mod geom;
pub mod num;
pub mod paint;
pub mod path;
pub mod plan;
pub mod triangle;
