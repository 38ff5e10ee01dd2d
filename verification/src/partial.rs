//! Objects that are still being put together.
//!
//! Every kind of object that takes part has a partial form, whose fields may
//! be unset. A partial object is filled in field by field, in any order, and
//! then built into the object proper. Building fails, and says what is
//! missing, as long as a field that the object needs is unset.

use fj_math::Point;
use vstd::prelude::*;
use vstd::std_specs::convert::FromSpecImpl;
use crate::geometry::SurfacePath;
use crate::objects::{Curve, GlobalCurve, GlobalVertex, Surface, SurfaceVertex, Vertex};
use crate::stores::Handle;

verus! {

/// A field that was needed and not set, and what it was needed for.
#[derive(Clone, Copy, Debug, PartialEq, Eq, Hash, Structural)]
pub enum MissingField {
    /// A global vertex was built without a position.
    GlobalVertexPosition,
    /// A surface vertex was built without a position.
    SurfaceVertexPosition,
    /// A surface vertex was built without a surface.
    SurfaceVertexSurface,
    /// A vertex was built without a position.
    VertexPosition,
    /// A curve was built without a path.
    CurvePath,
    /// A curve was built without a surface.
    CurveSurface,
    /// A curve was built without a global form.
    CurveGlobalForm,
    /// A global vertex was to be placed on a curve that has no path.
    PlacementPath,
    /// A global vertex was to be placed on a curve that has no surface.
    PlacementSurface,
}

impl MissingField {
    /// The message that names the missing field and what needed it.
    pub open spec fn text(self) -> Seq<char> {
        match self {
            MissingField::GlobalVertexPosition => "Can't build `GlobalVertex` without position"@,
            MissingField::SurfaceVertexPosition => "Can't build `SurfaceVertex` without position"@,
            MissingField::SurfaceVertexSurface => "Can't build `SurfaceVertex` without surface"@,
            MissingField::VertexPosition => "Can't build `Vertex` without position"@,
            MissingField::CurvePath => "Can't build `Curve` without path"@,
            MissingField::CurveSurface => "Can't build `Curve` without surface"@,
            MissingField::CurveGlobalForm => "Can't build `Curve` without global form"@,
            MissingField::PlacementPath => "Need path to create `GlobalVertex` from curve and position"@,
            MissingField::PlacementSurface => "Need surface to create `GlobalVertex` from curve and position"@,
        }
    }

    /// The message that names the missing field and what needed it.
    pub fn message(&self) -> (message: &'static str)
        ensures
            message@ == self.text(),
    {
        match self {
            MissingField::GlobalVertexPosition => "Can't build `GlobalVertex` without position",
            MissingField::SurfaceVertexPosition => "Can't build `SurfaceVertex` without position",
            MissingField::SurfaceVertexSurface => "Can't build `SurfaceVertex` without surface",
            MissingField::VertexPosition => "Can't build `Vertex` without position",
            MissingField::CurvePath => "Can't build `Curve` without path",
            MissingField::CurveSurface => "Can't build `Curve` without surface",
            MissingField::CurveGlobalForm => "Can't build `Curve` without global form",
            MissingField::PlacementPath => "Need path to create `GlobalVertex` from curve and position",
            MissingField::PlacementSurface => "Need surface to create `GlobalVertex` from curve and position",
        }
    }
}

/// What a field of type `Option` is after a value was given or not: the given
/// value, if there is one, else what the field held.
pub open spec fn given_or<A>(given: Option<A>, kept: Option<A>) -> Option<A> {
    if given is Some {
        given
    } else {
        kept
    }
}

/// What any other field is after a value was given or not: the given value,
/// if there is one, else what the field held.
pub open spec fn value_or<A>(given: Option<A>, kept: A) -> A {
    match given {
        Some(value) => value,
        None => kept,
    }
}

/// An object that has a partial form.
pub trait HasPartial: Sized {
    /// The partial form of the object.
    type Partial;

    /// The partial form with every field unset.
    spec fn empty_partial() -> Self::Partial;

    /// The partial form with every field set to what this object holds.
    spec fn as_partial(&self) -> Self::Partial;

    /// What building `partial` comes to: the object, or the first field that
    /// is found missing.
    spec fn build_spec(partial: Self::Partial) -> Result<Self, MissingField>;

    /// Makes a partial object with every field unset.
    fn partial() -> (partial: Self::Partial)
        ensures
            partial == Self::empty_partial(),
    ;

    /// Makes the partial object that has every field of this object.
    fn to_partial(&self) -> (partial: Self::Partial)
        ensures
            partial == self.as_partial(),
    ;

    /// Builds the object, if no field that it needs is unset.
    fn build(partial: Self::Partial) -> (outcome: Result<Self, MissingField>)
        ensures
            outcome == Self::build_spec(partial),
    ;

    /// The partial form of a finished object lacks nothing: building it gives
    /// back the object.
    proof fn lemma_full_is_complete(&self)
        ensures
            Self::build_spec(self.as_partial()) == Ok::<Self, MissingField>(*self),
    ;
}

/// Either a finished object, or a partial one.
///
/// Code that takes either sees both as one thing: a finished object stands
/// for the partial object that has all its fields.
#[derive(Clone, Copy, Debug, Eq, PartialEq, Hash, Ord, PartialOrd)]
pub enum MaybePartial<T: HasPartial> {
    /// A finished object
    Full(T),
    /// A partial object
    Partial(T::Partial),
}

impl<T: HasPartial> MaybePartial<T> {
    /// The partial object that this value stands for.
    pub open spec fn partial_spec(self) -> T::Partial {
        match self {
            MaybePartial::Full(full) => full.as_partial(),
            MaybePartial::Partial(partial) => partial,
        }
    }

    /// What finishing this value comes to.
    pub open spec fn full_spec(self) -> Result<T, MissingField> {
        match self {
            MaybePartial::Full(full) => Ok(full),
            MaybePartial::Partial(partial) => T::build_spec(partial),
        }
    }

    /// Whether this is a finished object.
    pub fn is_full(&self) -> (full: bool)
        ensures
            full == (self is Full),
    {
        match self {
            MaybePartial::Full(_) => true,
            MaybePartial::Partial(_) => false,
        }
    }

    /// Whether this is a partial object.
    pub fn is_partial(&self) -> (partial: bool)
        ensures
            partial == (self is Partial),
    {
        match self {
            MaybePartial::Full(_) => false,
            MaybePartial::Partial(_) => true,
        }
    }

    /// Turns this value into a partial object: a partial object is handed on
    /// as it is, a finished one becomes the partial object with all its
    /// fields.
    pub fn into_partial(self) -> (partial: T::Partial)
        ensures
            partial == self.partial_spec(),
    {
        match self {
            MaybePartial::Full(full) => full.to_partial(),
            MaybePartial::Partial(partial) => partial,
        }
    }

    /// Turns this value into a finished object: a finished object is handed
    /// on as it is, a partial one is built.
    pub fn into_full(self) -> (outcome: Result<T, MissingField>)
        ensures
            outcome == self.full_spec(),
    {
        match self {
            MaybePartial::Full(full) => Ok(full),
            MaybePartial::Partial(partial) => T::build(partial),
        }
    }

    /// Nothing is lost on the way from a finished object through its partial
    /// form and back.
    pub proof fn lemma_partial_of_full_builds(full: T)
        ensures
            T::build_spec(MaybePartial::Full(full).partial_spec()) == Ok::<T, MissingField>(full),
            MaybePartial::Full(full).full_spec() == Ok::<T, MissingField>(full),
    {
        full.lemma_full_is_complete();
    }
}

impl<T: HasPartial> Default for MaybePartial<T> {
    fn default() -> (value: Self)
        ensures
            value == MaybePartial::<T>::Partial(T::empty_partial()),
    {
        MaybePartial::Partial(T::partial())
    }
}

/// A global vertex in the making.
#[derive(Clone, Copy, Debug, Eq, PartialEq, Hash, Ord, PartialOrd)]
pub struct PartialGlobalVertex {
    /// The position of the vertex in model space.
    pub position: Option<Point<3>>,
}

impl PartialGlobalVertex {
    /// Sets the position, if one is given.
    #[must_use]
    pub fn with_position(self, position: Option<Point<3>>) -> (partial: Self)
        ensures
            partial == (PartialGlobalVertex { position: given_or(position, self.position) }),
    {
        match position {
            Some(position) => PartialGlobalVertex { position: Some(position) },
            None => self,
        }
    }

    /// Builds the vertex. It needs its position.
    pub fn build(self) -> (outcome: Result<GlobalVertex, MissingField>)
        ensures
            outcome == GlobalVertex::build_spec(self),
    {
        GlobalVertex::build(self)
    }
}

impl Default for PartialGlobalVertex {
    fn default() -> (partial: Self)
        ensures
            partial == GlobalVertex::empty_partial(),
    {
        PartialGlobalVertex { position: None }
    }
}

impl HasPartial for GlobalVertex {
    type Partial = PartialGlobalVertex;

    open spec fn empty_partial() -> PartialGlobalVertex {
        PartialGlobalVertex { position: None }
    }

    open spec fn as_partial(&self) -> PartialGlobalVertex {
        PartialGlobalVertex { position: Some(self.position) }
    }

    open spec fn build_spec(partial: PartialGlobalVertex) -> Result<Self, MissingField> {
        match partial.position {
            Some(position) => Ok(GlobalVertex { position }),
            None => Err(MissingField::GlobalVertexPosition),
        }
    }

    fn partial() -> (partial: PartialGlobalVertex) {
        PartialGlobalVertex { position: None }
    }

    fn to_partial(&self) -> (partial: PartialGlobalVertex) {
        PartialGlobalVertex { position: Some(self.position) }
    }

    fn build(partial: PartialGlobalVertex) -> (outcome: Result<Self, MissingField>) {
        match partial.position {
            Some(position) => Ok(GlobalVertex::from_position(position)),
            None => Err(MissingField::GlobalVertexPosition),
        }
    }

    proof fn lemma_full_is_complete(&self) {
    }
}

/// A curve in the making.
#[derive(Clone, Copy, Debug, Eq, PartialEq, Hash, Ord, PartialOrd)]
pub struct PartialCurve {
    /// The path of the curve within its surface.
    pub path: Option<SurfacePath>,
    /// The surface that the curve is defined in.
    pub surface: Option<Handle<Surface>>,
    /// The curve in model space that this curve coincides with.
    pub global_form: Option<Handle<GlobalCurve>>,
}

impl PartialCurve {
    /// Sets the path, if one is given.
    #[must_use]
    pub fn with_path(self, path: Option<SurfacePath>) -> (partial: Self)
        ensures
            partial == (PartialCurve { path: given_or(path, self.path), ..self }),
    {
        match path {
            Some(path) => PartialCurve { path: Some(path), ..self },
            None => self,
        }
    }

    /// Sets the surface, if one is given.
    #[must_use]
    pub fn with_surface(self, surface: Option<Handle<Surface>>) -> (partial: Self)
        ensures
            partial == (PartialCurve { surface: given_or(surface, self.surface), ..self }),
    {
        match surface {
            Some(surface) => PartialCurve { surface: Some(surface), ..self },
            None => self,
        }
    }

    /// Sets the global form, if one is given.
    #[must_use]
    pub fn with_global_form(self, global_form: Option<Handle<GlobalCurve>>) -> (partial: Self)
        ensures
            partial == (PartialCurve { global_form: given_or(global_form, self.global_form), ..self }),
    {
        match global_form {
            Some(global_form) => PartialCurve { global_form: Some(global_form), ..self },
            None => self,
        }
    }

    /// Builds the curve. It needs its path, its surface and its global form,
    /// and misses them in that order.
    pub fn build(self) -> (outcome: Result<Curve, MissingField>)
        ensures
            outcome == Curve::build_spec(self),
    {
        Curve::build(self)
    }
}

impl Default for PartialCurve {
    fn default() -> (partial: Self)
        ensures
            partial == Curve::empty_partial(),
    {
        PartialCurve { path: None, surface: None, global_form: None }
    }
}

impl HasPartial for Curve {
    type Partial = PartialCurve;

    open spec fn empty_partial() -> PartialCurve {
        PartialCurve { path: None, surface: None, global_form: None }
    }

    open spec fn as_partial(&self) -> PartialCurve {
        PartialCurve {
            path: Some(self.path),
            surface: Some(self.surface),
            global_form: Some(self.global_form),
        }
    }

    open spec fn build_spec(partial: PartialCurve) -> Result<Self, MissingField> {
        if partial.path is None {
            Err(MissingField::CurvePath)
        } else if partial.surface is None {
            Err(MissingField::CurveSurface)
        } else if partial.global_form is None {
            Err(MissingField::CurveGlobalForm)
        } else {
            Ok(
                Curve {
                    path: partial.path->0,
                    surface: partial.surface->0,
                    global_form: partial.global_form->0,
                },
            )
        }
    }

    fn partial() -> (partial: PartialCurve) {
        PartialCurve { path: None, surface: None, global_form: None }
    }

    fn to_partial(&self) -> (partial: PartialCurve) {
        PartialCurve {
            path: Some(self.path),
            surface: Some(self.surface),
            global_form: Some(self.global_form),
        }
    }

    fn build(partial: PartialCurve) -> (outcome: Result<Self, MissingField>) {
        let path = match partial.path {
            Some(path) => path,
            None => return Err(MissingField::CurvePath),
        };
        let surface = match partial.surface {
            Some(surface) => surface,
            None => return Err(MissingField::CurveSurface),
        };
        let global_form = match partial.global_form {
            Some(global_form) => global_form,
            None => return Err(MissingField::CurveGlobalForm),
        };
        Ok(Curve::new(path, surface, global_form))
    }

    proof fn lemma_full_is_complete(&self) {
    }
}

impl MaybePartial<Curve> {
    /// A curve that can be finished has its path, its surface and its global
    /// form, and the finished curve has the same.
    pub proof fn lemma_full_has_every_field(self)
        requires
            self.full_spec() is Ok,
        ensures
            self.partial_spec().path == Some(self.full_spec()->Ok_0.path),
            self.partial_spec().surface == Some(self.full_spec()->Ok_0.surface),
            self.partial_spec().global_form == Some(self.full_spec()->Ok_0.global_form),
    {
    }
}

/// A surface vertex in the making.
#[derive(Clone, Copy, Debug, Eq, PartialEq, Hash, Ord, PartialOrd)]
pub struct PartialSurfaceVertex {
    /// The position of the vertex on its surface.
    pub position: Option<Point<2>>,
    /// The surface that the vertex is defined in.
    pub surface: Option<Handle<Surface>>,
    /// The vertex in model space that this vertex coincides with.
    pub global_form: MaybePartial<GlobalVertex>,
}

impl PartialSurfaceVertex {
    /// Sets the position, if one is given.
    #[must_use]
    pub fn with_position(self, position: Option<Point<2>>) -> (partial: Self)
        ensures
            partial == (PartialSurfaceVertex { position: given_or(position, self.position), ..self }),
    {
        match position {
            Some(position) => PartialSurfaceVertex { position: Some(position), ..self },
            None => self,
        }
    }

    /// Sets the surface, if one is given.
    #[must_use]
    pub fn with_surface(self, surface: Option<Handle<Surface>>) -> (partial: Self)
        ensures
            partial == (PartialSurfaceVertex { surface: given_or(surface, self.surface), ..self }),
    {
        match surface {
            Some(surface) => PartialSurfaceVertex { surface: Some(surface), ..self },
            None => self,
        }
    }

    /// Sets the global form, if one is given.
    #[must_use]
    pub fn with_global_form(self, global_form: Option<MaybePartial<GlobalVertex>>) -> (partial:
        Self)
        ensures
            partial == (PartialSurfaceVertex {
                global_form: value_or(global_form, self.global_form),
                ..self
            }),
    {
        match global_form {
            Some(global_form) => PartialSurfaceVertex { global_form, ..self },
            None => self,
        }
    }

    /// Builds the vertex. It needs its position and its surface, and misses
    /// them in that order; then its global form is finished.
    pub fn build(self) -> (outcome: Result<SurfaceVertex, MissingField>)
        ensures
            outcome == SurfaceVertex::build_spec(self),
    {
        SurfaceVertex::build(self)
    }
}

impl Default for PartialSurfaceVertex {
    fn default() -> (partial: Self)
        ensures
            partial == SurfaceVertex::empty_partial(),
    {
        PartialSurfaceVertex {
            position: None,
            surface: None,
            global_form: MaybePartial::Partial(GlobalVertex::partial()),
        }
    }
}

impl HasPartial for SurfaceVertex {
    type Partial = PartialSurfaceVertex;

    open spec fn empty_partial() -> PartialSurfaceVertex {
        PartialSurfaceVertex {
            position: None,
            surface: None,
            global_form: MaybePartial::Partial(GlobalVertex::empty_partial()),
        }
    }

    open spec fn as_partial(&self) -> PartialSurfaceVertex {
        PartialSurfaceVertex {
            position: Some(self.position),
            surface: Some(self.surface),
            global_form: MaybePartial::Full(self.global_form),
        }
    }

    open spec fn build_spec(partial: PartialSurfaceVertex) -> Result<Self, MissingField> {
        if partial.position is None {
            Err(MissingField::SurfaceVertexPosition)
        } else if partial.surface is None {
            Err(MissingField::SurfaceVertexSurface)
        } else {
            match partial.global_form.full_spec() {
                Ok(global_form) => Ok(
                    SurfaceVertex {
                        position: partial.position->0,
                        surface: partial.surface->0,
                        global_form,
                    },
                ),
                Err(missing) => Err(missing),
            }
        }
    }

    fn partial() -> (partial: PartialSurfaceVertex) {
        PartialSurfaceVertex {
            position: None,
            surface: None,
            global_form: MaybePartial::Partial(GlobalVertex::partial()),
        }
    }

    fn to_partial(&self) -> (partial: PartialSurfaceVertex) {
        PartialSurfaceVertex {
            position: Some(self.position),
            surface: Some(self.surface),
            global_form: MaybePartial::Full(self.global_form),
        }
    }

    fn build(partial: PartialSurfaceVertex) -> (outcome: Result<Self, MissingField>) {
        let position = match partial.position {
            Some(position) => position,
            None => return Err(MissingField::SurfaceVertexPosition),
        };
        let surface = match partial.surface {
            Some(surface) => surface,
            None => return Err(MissingField::SurfaceVertexSurface),
        };
        match partial.global_form.into_full() {
            Ok(global_form) => Ok(SurfaceVertex::new(position, surface, global_form)),
            Err(missing) => Err(missing),
        }
    }

    proof fn lemma_full_is_complete(&self) {
    }
}

/// A vertex in the making.
#[derive(Clone, Copy, Debug, Eq, PartialEq, Hash, Ord, PartialOrd)]
pub struct PartialVertex {
    /// The position of the vertex on its curve.
    pub position: Option<Point<1>>,
    /// The curve that the vertex is defined on.
    pub curve: MaybePartial<Curve>,
    /// The vertex on the curve's surface that this vertex coincides with.
    pub surface_form: MaybePartial<SurfaceVertex>,
}

impl PartialVertex {
    /// The surface form that a vertex on `curve` is built with: a finished
    /// one as it is, a partial one in the surface of the curve.
    pub open spec fn surface_form_on(
        surface_form: MaybePartial<SurfaceVertex>,
        curve: Curve,
    ) -> MaybePartial<SurfaceVertex> {
        match surface_form {
            MaybePartial::Full(full) => MaybePartial::Full(full),
            MaybePartial::Partial(partial) => MaybePartial::Partial(
                PartialSurfaceVertex { surface: Some(curve.surface), ..partial },
            ),
        }
    }

    /// Sets the position, if one is given.
    #[must_use]
    pub fn with_position(self, position: Option<Point<1>>) -> (partial: Self)
        ensures
            partial == (PartialVertex { position: given_or(position, self.position), ..self }),
    {
        match position {
            Some(position) => PartialVertex { position: Some(position), ..self },
            None => self,
        }
    }

    /// Sets the curve, if one is given.
    #[must_use]
    pub fn with_curve(self, curve: Option<MaybePartial<Curve>>) -> (partial: Self)
        ensures
            partial == (PartialVertex {
                curve: value_or(curve, self.curve),
                ..self
            }),
    {
        match curve {
            Some(curve) => PartialVertex { curve, ..self },
            None => self,
        }
    }

    /// Sets the surface form, if one is given.
    #[must_use]
    pub fn with_surface_form(self, surface_form: Option<MaybePartial<SurfaceVertex>>) -> (partial:
        Self)
        ensures
            partial == (PartialVertex {
                surface_form: value_or(surface_form, self.surface_form),
                ..self
            }),
    {
        match surface_form {
            Some(surface_form) => PartialVertex { surface_form, ..self },
            None => self,
        }
    }

    /// Builds the vertex. It needs its position; then its curve is finished,
    /// and then its surface form, which, where it is partial, is taken to lie
    /// in the surface of the curve.
    pub fn build(self) -> (outcome: Result<Vertex, MissingField>)
        ensures
            outcome == Vertex::build_spec(self),
    {
        Vertex::build(self)
    }
}

impl Default for PartialVertex {
    fn default() -> (partial: Self)
        ensures
            partial == Vertex::empty_partial(),
    {
        PartialVertex {
            position: None,
            curve: MaybePartial::Partial(Curve::partial()),
            surface_form: MaybePartial::Partial(SurfaceVertex::partial()),
        }
    }
}

impl HasPartial for Vertex {
    type Partial = PartialVertex;

    open spec fn empty_partial() -> PartialVertex {
        PartialVertex {
            position: None,
            curve: MaybePartial::Partial(Curve::empty_partial()),
            surface_form: MaybePartial::Partial(SurfaceVertex::empty_partial()),
        }
    }

    open spec fn as_partial(&self) -> PartialVertex {
        PartialVertex {
            position: Some(self.position),
            curve: MaybePartial::Full(self.curve),
            surface_form: MaybePartial::Full(self.surface_form),
        }
    }

    open spec fn build_spec(partial: PartialVertex) -> Result<Self, MissingField> {
        if partial.position is None {
            Err(MissingField::VertexPosition)
        } else {
            match partial.curve.full_spec() {
                Err(missing) => Err(missing),
                Ok(curve) => match PartialVertex::surface_form_on(
                    partial.surface_form,
                    curve,
                ).full_spec() {
                    Err(missing) => Err(missing),
                    Ok(surface_form) => Ok(
                        Vertex { position: partial.position->0, curve, surface_form },
                    ),
                },
            }
        }
    }

    fn partial() -> (partial: PartialVertex) {
        PartialVertex {
            position: None,
            curve: MaybePartial::Partial(Curve::partial()),
            surface_form: MaybePartial::Partial(SurfaceVertex::partial()),
        }
    }

    fn to_partial(&self) -> (partial: PartialVertex) {
        PartialVertex {
            position: Some(self.position),
            curve: MaybePartial::Full(self.curve),
            surface_form: MaybePartial::Full(self.surface_form),
        }
    }

    fn build(partial: PartialVertex) -> (outcome: Result<Self, MissingField>) {
        let position = match partial.position {
            Some(position) => position,
            None => return Err(MissingField::VertexPosition),
        };
        let curve = match partial.curve.into_full() {
            Ok(curve) => curve,
            Err(missing) => return Err(missing),
        };
        let surface_form = match partial.surface_form {
            MaybePartial::Full(full) => MaybePartial::Full(full),
            MaybePartial::Partial(surface_form) => MaybePartial::Partial(
                surface_form.with_surface(Some(curve.surface())),
            ),
        };
        match surface_form.into_full() {
            Ok(surface_form) => Ok(Vertex::new(position, curve, surface_form)),
            Err(missing) => Err(missing),
        }
    }

    proof fn lemma_full_is_complete(&self) {
    }
}

impl From<GlobalVertex> for MaybePartial<GlobalVertex> {
    fn from(full: GlobalVertex) -> (value: Self) {
        MaybePartial::Full(full)
    }
}

impl FromSpecImpl<GlobalVertex> for MaybePartial<GlobalVertex> {
    open spec fn obeys_from_spec() -> bool {
        true
    }

    open spec fn from_spec(full: GlobalVertex) -> Self {
        MaybePartial::Full(full)
    }
}

impl From<PartialGlobalVertex> for MaybePartial<GlobalVertex> {
    fn from(partial: PartialGlobalVertex) -> (value: Self) {
        MaybePartial::Partial(partial)
    }
}

impl FromSpecImpl<PartialGlobalVertex> for MaybePartial<GlobalVertex> {
    open spec fn obeys_from_spec() -> bool {
        true
    }

    open spec fn from_spec(partial: PartialGlobalVertex) -> Self {
        MaybePartial::Partial(partial)
    }
}

impl From<SurfaceVertex> for MaybePartial<SurfaceVertex> {
    fn from(full: SurfaceVertex) -> (value: Self) {
        MaybePartial::Full(full)
    }
}

impl FromSpecImpl<SurfaceVertex> for MaybePartial<SurfaceVertex> {
    open spec fn obeys_from_spec() -> bool {
        true
    }

    open spec fn from_spec(full: SurfaceVertex) -> Self {
        MaybePartial::Full(full)
    }
}

impl From<PartialSurfaceVertex> for MaybePartial<SurfaceVertex> {
    fn from(partial: PartialSurfaceVertex) -> (value: Self) {
        MaybePartial::Partial(partial)
    }
}

impl FromSpecImpl<PartialSurfaceVertex> for MaybePartial<SurfaceVertex> {
    open spec fn obeys_from_spec() -> bool {
        true
    }

    open spec fn from_spec(partial: PartialSurfaceVertex) -> Self {
        MaybePartial::Partial(partial)
    }
}

impl From<Vertex> for MaybePartial<Vertex> {
    fn from(full: Vertex) -> (value: Self) {
        MaybePartial::Full(full)
    }
}

impl FromSpecImpl<Vertex> for MaybePartial<Vertex> {
    open spec fn obeys_from_spec() -> bool {
        true
    }

    open spec fn from_spec(full: Vertex) -> Self {
        MaybePartial::Full(full)
    }
}

impl From<PartialVertex> for MaybePartial<Vertex> {
    fn from(partial: PartialVertex) -> (value: Self) {
        MaybePartial::Partial(partial)
    }
}

impl FromSpecImpl<PartialVertex> for MaybePartial<Vertex> {
    open spec fn obeys_from_spec() -> bool {
        true
    }

    open spec fn from_spec(partial: PartialVertex) -> Self {
        MaybePartial::Partial(partial)
    }
}

impl From<Curve> for MaybePartial<Curve> {
    fn from(full: Curve) -> (value: Self) {
        MaybePartial::Full(full)
    }
}

impl FromSpecImpl<Curve> for MaybePartial<Curve> {
    open spec fn obeys_from_spec() -> bool {
        true
    }

    open spec fn from_spec(full: Curve) -> Self {
        MaybePartial::Full(full)
    }
}

impl From<PartialCurve> for MaybePartial<Curve> {
    fn from(partial: PartialCurve) -> (value: Self) {
        MaybePartial::Partial(partial)
    }
}

impl FromSpecImpl<PartialCurve> for MaybePartial<Curve> {
    open spec fn obeys_from_spec() -> bool {
        true
    }

    open spec fn from_spec(partial: PartialCurve) -> Self {
        MaybePartial::Partial(partial)
    }
}

} // verus!
