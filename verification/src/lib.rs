//! Core object model of a boundary-representation modeling kernel.
//!
//! - [`stores`]: append-only storage that gives every object a stable
//!   identity, its handle.
//! - [`geometry`]: curves, told apart by kind, and the shape of surfaces.
//! - [`objects`]: vertices, curves, surfaces and faces.
//! - [`partial`]: objects in the making, whose fields may still be unset.
//! - [`builder`]: the ways to fill in partial objects and to assemble a
//!   sketch.
//! - [`sketch`]: sketches, which are sets of faces.
//! - [`sweep`]: the triangles of a shape that is swept along a path.

pub mod builder;
pub mod geometry;
pub mod objects;
pub mod partial;
pub mod sketch;
pub mod stores;
pub mod sweep;
