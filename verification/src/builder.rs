//! Builders: the ways to fill in partial objects and to assemble composite
//! ones.

use fj_math::Point;
use vstd::prelude::*;
use crate::geometry::{SurfaceGeometry, SurfacePath};
use crate::objects::{Curve, Face, GlobalVertex, Surface, SurfaceVertex, Vertex};
use crate::partial::{
    HasPartial, MaybePartial, MissingField, PartialGlobalVertex, PartialSurfaceVertex,
    PartialVertex,
};
use crate::sketch::{ids_of, lemma_ids_of_take, FaceSet, Sketch};
use crate::stores::{Handle, ObjectId, Store, Stores};

verus! {

/// Builder API for [`PartialVertex`]
pub trait VertexBuilder: Sized {
    /// This partial vertex with its surface form forgotten: an empty partial
    /// surface vertex stands in its place.
    spec fn without_surface_form(self) -> Self;

    /// Removes the surface form of the partial vertex, so that it is inferred
    /// when the vertex is built.
    fn infer_surface_form(&mut self) -> (builder: &mut Self)
        ensures
            *builder == old(self).without_surface_form(),
            *final(self) == *final(builder),
    ;
}

impl VertexBuilder for PartialVertex {
    open spec fn without_surface_form(self) -> Self {
        PartialVertex {
            surface_form: MaybePartial::Partial(SurfaceVertex::empty_partial()),
            ..self
        }
    }

    fn infer_surface_form(&mut self) -> (builder: &mut Self) {
        self.surface_form = MaybePartial::from(PartialSurfaceVertex::default());
        self
    }
}

/// Builder API for [`PartialSurfaceVertex`]
pub trait SurfaceVertexBuilder: Sized {
    /// This partial surface vertex with its global form forgotten: an empty
    /// partial global vertex stands in its place.
    spec fn without_global_form(self) -> Self;

    /// Removes the global form of the partial vertex, so that it is inferred
    /// when the vertex is built.
    fn infer_global_form(&mut self) -> (builder: &mut Self)
        ensures
            *builder == old(self).without_global_form(),
            *final(self) == *final(builder),
    ;
}

impl SurfaceVertexBuilder for PartialSurfaceVertex {
    open spec fn without_global_form(self) -> Self {
        PartialSurfaceVertex {
            global_form: MaybePartial::Partial(GlobalVertex::empty_partial()),
            ..self
        }
    }

    fn infer_global_form(&mut self) -> (builder: &mut Self) {
        self.global_form = MaybePartial::from(GlobalVertex::partial());
        self
    }
}

/// Whether `place` is the point of model space that a placement leads to by
/// way of `point`: the path takes the position on the curve to `point` on
/// the surface, and the surface takes `point` to `place`.
pub open spec fn found_by<F, G>(
    placement: Placement,
    surface: SurfaceGeometry,
    on_surface: F,
    in_space: G,
    point: Point<2>,
    place: Point<3>,
) -> bool where
    F: FnOnce(SurfacePath, Point<1>) -> Point<2>,
    G: FnOnce(SurfaceGeometry, Point<2>) -> Point<3>,
 {
    &&& on_surface.ensures((placement.path, placement.position), point)
    &&& in_space.ensures((surface, point), place)
}

/// Builder API for [`PartialGlobalVertex`]
///
/// A position in model space is always found by way of a surface: a point of
/// a curve is first taken to the surface that the curve lies in, and from
/// there into model space. How a path and a surface take coordinates along
/// is a matter of geometry, which the caller hands in as two functions.
pub trait GlobalVertexBuilder: Sized {
    /// The partial global vertex at the given position.
    spec fn at(position: Point<3>) -> Self;

    /// The position of this partial global vertex, if it has one.
    spec fn place(self) -> Point<3>;

    /// Makes a partial global vertex from the given curve and position on it.
    ///
    /// The curve, finished or partial, has to have a path and a surface, and
    /// the surface has to be in `surfaces`; [`Placement::on_curve`] tells.
    /// `on_surface` says which point of the surface a path has at a position,
    /// `in_space` which point of model space a surface has at a position.
    fn from_curve_and_position<F, G>(
        curve: MaybePartial<Curve>,
        position: Point<1>,
        surfaces: &Store<Surface>,
        on_surface: F,
        in_space: G,
    ) -> (vertex: Self) where
        F: FnOnce(SurfacePath, Point<1>) -> Point<2>,
        G: FnOnce(SurfaceGeometry, Point<2>) -> Point<3>,

        requires
            surfaces.wf(),
            Placement::on_curve_spec(curve, position) matches Ok(placement) && {
                &&& surfaces.contains(placement.surface@)
                &&& on_surface.requires((placement.path, position))
                &&& forall|point: Point<2>|
                    on_surface.ensures((placement.path, position), point) ==> in_space.requires(
                        (surfaces.object(placement.surface@).geometry, point),
                    )
            },
        ensures
            vertex == Self::at(vertex.place()),
            exists|point: Point<2>| #[trigger]
                found_by(
                    Placement::on_curve_spec(curve, position)->Ok_0,
                    surfaces.object(Placement::on_curve_spec(curve, position)->Ok_0.surface@).geometry,
                    on_surface,
                    in_space,
                    point,
                    vertex.place(),
                ),
    ;

    /// Makes a partial global vertex from the given surface and position on
    /// it. `in_space` says which point of model space the surface has there.
    fn from_surface_and_position<G>(
        surface: &SurfaceGeometry,
        position: Point<2>,
        in_space: G,
    ) -> (vertex: Self) where G: FnOnce(SurfaceGeometry, Point<2>) -> Point<3>
        requires
            in_space.requires((*surface, position)),
        ensures
            vertex == Self::at(vertex.place()),
            in_space.ensures((*surface, position), vertex.place()),
    ;
}

impl GlobalVertexBuilder for PartialGlobalVertex {
    open spec fn at(position: Point<3>) -> Self {
        PartialGlobalVertex { position: Some(position) }
    }

    open spec fn place(self) -> Point<3> {
        self.position->0
    }

    fn from_curve_and_position<F, G>(
        curve: MaybePartial<Curve>,
        position: Point<1>,
        surfaces: &Store<Surface>,
        on_surface: F,
        in_space: G,
    ) -> (vertex: Self) where
        F: FnOnce(SurfacePath, Point<1>) -> Point<2>,
        G: FnOnce(SurfaceGeometry, Point<2>) -> Point<3>,
     {
        let curve = curve.into_partial();
        let path = curve.path.unwrap();
        let surface = surfaces.get(&curve.surface.unwrap()).geometry();

        let position_surface = on_surface(path, position);

        let vertex = Self::from_surface_and_position(&surface, position_surface, in_space);
        proof {
            let placement = Placement { path, surface: curve.surface->0, position };
            assert(found_by(
                placement,
                surface,
                on_surface,
                in_space,
                position_surface,
                vertex.place(),
            ));
        }
        vertex
    }

    fn from_surface_and_position<G>(
        surface: &SurfaceGeometry,
        position: Point<2>,
        in_space: G,
    ) -> (vertex: Self) where G: FnOnce(SurfaceGeometry, Point<2>) -> Point<3> {
        PartialGlobalVertex { position: Some(in_space(*surface, position)) }
    }
}

/// A point of a curve, with what it takes to find the point in model space:
/// the curve's path leads from `position` to a point of `surface`, and the
/// surface from there into model space.
#[derive(Clone, Copy, Debug, Eq, PartialEq, Hash, Ord, PartialOrd)]
pub struct Placement {
    /// The path of the curve within its surface.
    pub path: SurfacePath,
    /// The surface that the curve is defined in.
    pub surface: Handle<Surface>,
    /// The position on the curve.
    pub position: Point<1>,
}

impl Placement {
    /// What placing a point on `curve` comes to: the placement, or the first
    /// of path and surface that the curve lacks.
    pub open spec fn on_curve_spec(curve: MaybePartial<Curve>, position: Point<1>) -> Result<
        Placement,
        MissingField,
    > {
        let curve = curve.partial_spec();
        if curve.path is None {
            Err(MissingField::PlacementPath)
        } else if curve.surface is None {
            Err(MissingField::PlacementSurface)
        } else {
            Ok(Placement { path: curve.path->0, surface: curve.surface->0, position })
        }
    }

    /// Gathers what it takes to make a global vertex from a curve and a
    /// position on it. The curve, finished or partial, has to have a path and
    /// a surface.
    pub fn on_curve(curve: MaybePartial<Curve>, position: Point<1>) -> (outcome: Result<
        Placement,
        MissingField,
    >)
        ensures
            outcome == Self::on_curve_spec(curve, position),
    {
        let curve = curve.into_partial();
        let path = match curve.path {
            Some(path) => path,
            None => return Err(MissingField::PlacementPath),
        };
        let surface = match curve.surface {
            Some(surface) => surface,
            None => return Err(MissingField::PlacementSurface),
        };
        Ok(Placement { path, surface, position })
    }
}

/// A position that a partial vertex lacks and that follows from what it has.
///
/// The position itself is a matter of geometry and is worked out elsewhere;
/// what is decided here is which position to work out next, and from what.
#[derive(Clone, Copy, Debug, Eq, PartialEq, Hash, Ord, PartialOrd)]
pub enum Inference {
    /// The position on the surface is missing: it is the point that `path`
    /// has at `on_curve`.
    SurfacePosition { path: SurfacePath, on_curve: Point<1> },
    /// The position in model space is missing: it is the point that
    /// `surface` has at `on_surface`.
    GlobalPosition { surface: Handle<Surface>, on_surface: Point<2> },
}

/// Whether a global form is partial and has no position.
pub open spec fn lacks_position(global_form: MaybePartial<GlobalVertex>) -> bool {
    global_form matches MaybePartial::Partial(partial) && partial.position is None
}

impl PartialSurfaceVertex {
    /// The position that can be inferred: that of the global form, if the
    /// global form has none and both the position on the surface and the
    /// surface are known.
    pub open spec fn inference_spec(self) -> Option<Inference> {
        if self.position is Some && self.surface is Some && lacks_position(self.global_form) {
            Some(
                Inference::GlobalPosition {
                    surface: self.surface->0,
                    on_surface: self.position->0,
                },
            )
        } else {
            None
        }
    }

    /// This partial vertex with the inferred position in model space filled
    /// in. A global form that has a position keeps it.
    pub open spec fn with_global_position_spec(self, position: Point<3>) -> Self {
        if lacks_position(self.global_form) {
            PartialSurfaceVertex {
                global_form: MaybePartial::Partial(PartialGlobalVertex { position: Some(position) }),
                ..self
            }
        } else {
            self
        }
    }

    /// Says which position can be inferred next, if any.
    pub fn next_inference(&self) -> (inference: Option<Inference>)
        ensures
            inference == self.inference_spec(),
    {
        let position = match self.position {
            Some(position) => position,
            None => return None,
        };
        let surface = match self.surface {
            Some(surface) => surface,
            None => return None,
        };
        match self.global_form {
            MaybePartial::Partial(PartialGlobalVertex { position: None }) => Some(
                Inference::GlobalPosition { surface, on_surface: position },
            ),
            _ => None,
        }
    }

    /// Fills in the inferred position in model space.
    #[must_use]
    pub fn with_global_position(self, position: Point<3>) -> (partial: Self)
        ensures
            partial == self.with_global_position_spec(position),
    {
        match self.global_form {
            MaybePartial::Partial(PartialGlobalVertex { position: None }) => PartialSurfaceVertex {
                global_form: MaybePartial::Partial(PartialGlobalVertex { position: Some(position) }),
                ..self
            },
            _ => self,
        }
    }

    /// Inference leads to a vertex: once the position on the surface and the
    /// surface are known, filling in what can be inferred leaves nothing to
    /// infer and nothing missing.
    pub proof fn lemma_inference_completes(self, position: Point<3>)
        requires
            self.position is Some,
            self.surface is Some,
        ensures
            self.with_global_position_spec(position).inference_spec() is None,
            SurfaceVertex::build_spec(self.with_global_position_spec(position)) is Ok,
            self.inference_spec() is None ==> self.with_global_position_spec(position) == self,
    {
    }
}

impl PartialVertex {
    /// The position that can be inferred next: that of the surface form,
    /// from the curve's path; or else that of the global form, from the
    /// curve's surface.
    pub open spec fn inference_spec(self) -> Option<Inference> {
        let curve = self.curve.partial_spec();
        match self.surface_form {
            MaybePartial::Full(_) => None,
            MaybePartial::Partial(surface_form) => if surface_form.position is None {
                if self.position is Some && curve.path is Some {
                    Some(
                        Inference::SurfacePosition {
                            path: curve.path->0,
                            on_curve: self.position->0,
                        },
                    )
                } else {
                    None
                }
            } else if curve.surface is Some && lacks_position(surface_form.global_form) {
                Some(
                    Inference::GlobalPosition {
                        surface: curve.surface->0,
                        on_surface: surface_form.position->0,
                    },
                )
            } else {
                None
            },
        }
    }

    /// This partial vertex with the inferred position on the surface filled
    /// in. A surface form that has a position keeps it.
    pub open spec fn with_surface_position_spec(self, position: Point<2>) -> Self {
        match self.surface_form {
            MaybePartial::Partial(surface_form) if surface_form.position is None => PartialVertex {
                surface_form: MaybePartial::Partial(
                    PartialSurfaceVertex { position: Some(position), ..surface_form },
                ),
                ..self
            },
            _ => self,
        }
    }

    /// This partial vertex with the inferred position in model space filled
    /// in. A global form that has a position keeps it.
    pub open spec fn with_global_position_spec(self, position: Point<3>) -> Self {
        match self.surface_form {
            MaybePartial::Partial(surface_form) => PartialVertex {
                surface_form: MaybePartial::Partial(
                    surface_form.with_global_position_spec(position),
                ),
                ..self
            },
            MaybePartial::Full(_) => self,
        }
    }

    /// This partial vertex after every inference: first the position on the
    /// surface, then the position in model space, each only where it is the
    /// next to infer.
    pub open spec fn inferred(self, on_surface: Point<2>, in_space: Point<3>) -> Self {
        let first = if self.inference_spec() matches Some(Inference::SurfacePosition { .. }) {
            self.with_surface_position_spec(on_surface)
        } else {
            self
        };
        if first.inference_spec() matches Some(Inference::GlobalPosition { .. }) {
            first.with_global_position_spec(in_space)
        } else {
            first
        }
    }

    /// Says which position can be inferred next, if any.
    pub fn next_inference(&self) -> (inference: Option<Inference>)
        ensures
            inference == self.inference_spec(),
    {
        let surface_form = match self.surface_form {
            MaybePartial::Full(_) => return None,
            MaybePartial::Partial(surface_form) => surface_form,
        };
        let curve = self.curve.into_partial();
        match surface_form.position {
            None => match (self.position, curve.path) {
                (Some(position), Some(path)) => Some(
                    Inference::SurfacePosition { path, on_curve: position },
                ),
                _ => None,
            },
            Some(position) => match (curve.surface, surface_form.global_form) {
                (
                    Some(surface),
                    MaybePartial::Partial(PartialGlobalVertex { position: None }),
                ) => Some(Inference::GlobalPosition { surface, on_surface: position }),
                _ => None,
            },
        }
    }

    /// Fills in the inferred position on the surface.
    #[must_use]
    pub fn with_surface_position(self, position: Point<2>) -> (partial: Self)
        ensures
            partial == self.with_surface_position_spec(position),
    {
        match self.surface_form {
            MaybePartial::Partial(
                PartialSurfaceVertex { position: None, surface, global_form },
            ) => PartialVertex {
                surface_form: MaybePartial::Partial(
                    PartialSurfaceVertex { position: Some(position), surface, global_form },
                ),
                ..self
            },
            _ => self,
        }
    }

    /// Fills in the inferred position in model space.
    #[must_use]
    pub fn with_global_position(self, position: Point<3>) -> (partial: Self)
        ensures
            partial == self.with_global_position_spec(position),
    {
        match self.surface_form {
            MaybePartial::Partial(surface_form) => PartialVertex {
                surface_form: MaybePartial::Partial(surface_form.with_global_position(position)),
                ..self
            },
            MaybePartial::Full(_) => self,
        }
    }

    /// Inference leads to a vertex: a partial vertex that has its position
    /// and a curve that lacks nothing needs no more than what can be
    /// inferred. After the inferences nothing is left to infer, and the
    /// vertex builds.
    pub proof fn lemma_inference_completes(self, on_surface: Point<2>, in_space: Point<3>)
        requires
            self.position is Some,
            self.curve.full_spec() is Ok,
        ensures
            self.inferred(on_surface, in_space).inference_spec() is None,
            Vertex::build_spec(self.inferred(on_surface, in_space)) is Ok,
    {
        self.curve.lemma_full_has_every_field();
    }
}

/// Builder for [`Sketch`].
///
/// It gathers faces into a set. The surface is the one that faces made by
/// this builder are to lie in; faces that are handed in keep their own.
pub struct SketchBuilder<'a> {
    /// The stores that the faces live in.
    pub objects: &'a Stores,
    /// The surface that the sketch is built in, once chosen.
    pub surface: Option<Handle<Surface>>,
    /// The faces gathered so far.
    pub faces: FaceSet,
}

impl<'a> SketchBuilder<'a> {
    /// Chooses the surface that the sketch is built in.
    #[must_use]
    pub fn with_surface(self, surface: Handle<Surface>) -> (builder: Self)
        ensures
            builder.objects == self.objects,
            builder.surface == Some(surface),
            builder.faces == self.faces,
    {
        SketchBuilder { objects: self.objects, surface: Some(surface), faces: self.faces }
    }

    /// Adds the given faces to the sketch.
    #[must_use]
    pub fn with_faces(self, faces: Vec<Handle<Face>>) -> (builder: Self)
        ensures
            builder.objects == self.objects,
            builder.surface == self.surface,
            builder.faces@ == self.faces@.union(ids_of(faces@)),
    {
        let mut builder = self;
        let mut i: usize = 0;
        while i < faces.len()
            invariant
                0 <= i <= faces.len(),
                builder.objects == self.objects,
                builder.surface == self.surface,
                builder.faces@ == self.faces@.union(ids_of(faces@.take(i as int))),
            decreases faces.len() - i,
        {
            builder.faces.insert(faces[i]);
            proof {
                lemma_ids_of_take(faces@, i as int);
            }
            i = i + 1;
        }
        assert(faces@.take(faces.len() as int) =~= faces@);
        builder
    }

    /// Finishes the sketch: it has exactly the faces gathered.
    pub fn build(self) -> (sketch: Sketch)
        ensures
            sketch.faces()@ == self.faces@,
    {
        Sketch::from_faces(self.faces)
    }
}

} // verus!
