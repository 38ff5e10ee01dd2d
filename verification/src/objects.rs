//! The objects that shapes are made of.
//!
//! An object is fully defined, and once it is in a store it never changes.
//! Objects that are still being put together are the business of
//! [`crate::partial`].

use fj_math::Point;
use vstd::prelude::*;
use crate::geometry::{SurfaceGeometry, SurfacePath};
use crate::stores::Handle;

verus! {

/// A surface.
#[derive(Clone, Copy, Debug, Eq, PartialEq, Hash, Ord, PartialOrd)]
pub struct Surface {
    /// The shape of the surface.
    pub geometry: SurfaceGeometry,
}

impl Surface {
    /// Constructs a surface of the given shape.
    pub fn new(geometry: SurfaceGeometry) -> (surface: Self)
        ensures
            surface.geometry == geometry,
    {
        Surface { geometry }
    }

    /// The shape of the surface.
    pub fn geometry(&self) -> (geometry: SurfaceGeometry)
        ensures
            geometry == self.geometry,
    {
        self.geometry
    }
}

/// A curve in model space, without regard to any surface.
///
/// It has no data of its own: curves in different surfaces that coincide in
/// space show that they do by sharing one global curve.
#[derive(Clone, Copy, Debug, Default, Eq, PartialEq, Hash, Ord, PartialOrd)]
pub struct GlobalCurve;

/// A curve, defined within a surface.
#[derive(Clone, Copy, Debug, Eq, PartialEq, Hash, Ord, PartialOrd)]
pub struct Curve {
    /// The path of the curve within its surface.
    pub path: SurfacePath,
    /// The surface that the curve is defined in.
    pub surface: Handle<Surface>,
    /// The curve in model space that this curve coincides with.
    pub global_form: Handle<GlobalCurve>,
}

impl Curve {
    /// Constructs a curve from all of its parts.
    pub fn new(path: SurfacePath, surface: Handle<Surface>, global_form: Handle<GlobalCurve>) -> (curve:
        Self)
        ensures
            curve.path == path,
            curve.surface == surface,
            curve.global_form == global_form,
    {
        Curve { path, surface, global_form }
    }

    /// The path of the curve within its surface.
    pub fn path(&self) -> (path: SurfacePath)
        ensures
            path == self.path,
    {
        self.path
    }

    /// The surface that the curve is defined in.
    pub fn surface(&self) -> (surface: Handle<Surface>)
        ensures
            surface == self.surface,
    {
        self.surface
    }

    /// The curve in model space that this curve coincides with.
    pub fn global_form(&self) -> (global_form: Handle<GlobalCurve>)
        ensures
            global_form == self.global_form,
    {
        self.global_form
    }
}

/// A vertex in model space: a bare position.
#[derive(Clone, Copy, Debug, Eq, PartialEq, Hash, Ord, PartialOrd)]
pub struct GlobalVertex {
    /// The position of the vertex in model space.
    pub position: Point<3>,
}

impl GlobalVertex {
    /// Constructs a vertex at the given position.
    pub fn from_position(position: Point<3>) -> (vertex: Self)
        ensures
            vertex.position == position,
    {
        GlobalVertex { position }
    }

    /// The position of the vertex in model space.
    pub fn position(&self) -> (position: Point<3>)
        ensures
            position == self.position,
    {
        self.position
    }
}

/// A vertex, defined in the coordinates of a surface.
#[derive(Clone, Copy, Debug, Eq, PartialEq, Hash, Ord, PartialOrd)]
pub struct SurfaceVertex {
    /// The position of the vertex on its surface.
    pub position: Point<2>,
    /// The surface that the vertex is defined in.
    pub surface: Handle<Surface>,
    /// The vertex in model space that this vertex coincides with.
    pub global_form: GlobalVertex,
}

impl SurfaceVertex {
    /// Constructs a vertex from all of its parts.
    pub fn new(position: Point<2>, surface: Handle<Surface>, global_form: GlobalVertex) -> (vertex:
        Self)
        ensures
            vertex.position == position,
            vertex.surface == surface,
            vertex.global_form == global_form,
    {
        SurfaceVertex { position, surface, global_form }
    }

    /// The position of the vertex on its surface.
    pub fn position(&self) -> (position: Point<2>)
        ensures
            position == self.position,
    {
        self.position
    }

    /// The surface that the vertex is defined in.
    pub fn surface(&self) -> (surface: Handle<Surface>)
        ensures
            surface == self.surface,
    {
        self.surface
    }

    /// The vertex in model space that this vertex coincides with.
    pub fn global_form(&self) -> (global_form: GlobalVertex)
        ensures
            global_form == self.global_form,
    {
        self.global_form
    }
}

/// A vertex, defined by its coordinate on a curve.
#[derive(Clone, Copy, Debug, Eq, PartialEq, Hash, Ord, PartialOrd)]
pub struct Vertex {
    /// The position of the vertex on its curve.
    pub position: Point<1>,
    /// The curve that the vertex is defined on.
    pub curve: Curve,
    /// The vertex on the curve's surface that this vertex coincides with.
    pub surface_form: SurfaceVertex,
}

impl Vertex {
    /// Constructs a vertex from all of its parts.
    pub fn new(position: Point<1>, curve: Curve, surface_form: SurfaceVertex) -> (vertex: Self)
        ensures
            vertex.position == position,
            vertex.curve == curve,
            vertex.surface_form == surface_form,
    {
        Vertex { position, curve, surface_form }
    }

    /// The position of the vertex on its curve.
    pub fn position(&self) -> (position: Point<1>)
        ensures
            position == self.position,
    {
        self.position
    }

    /// The curve that the vertex is defined on.
    pub fn curve(&self) -> (curve: Curve)
        ensures
            curve == self.curve,
    {
        self.curve
    }

    /// The vertex on the curve's surface that this vertex coincides with.
    pub fn surface_form(&self) -> (surface_form: SurfaceVertex)
        ensures
            surface_form == self.surface_form,
    {
        self.surface_form
    }
}

/// A face: a bounded part of a surface.
#[derive(Clone, Copy, Debug, Eq, PartialEq, Hash, Ord, PartialOrd)]
pub struct Face {
    /// The surface that the face lies in.
    pub surface: Handle<Surface>,
}

impl Face {
    /// Constructs a face in the given surface.
    pub fn new(surface: Handle<Surface>) -> (face: Self)
        ensures
            face.surface == surface,
    {
        Face { surface }
    }

    /// The surface that the face lies in.
    pub fn surface(&self) -> (surface: Handle<Surface>)
        ensures
            surface == self.surface,
    {
        self.surface
    }
}

} // verus!
