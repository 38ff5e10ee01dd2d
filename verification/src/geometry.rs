//! Geometry of curves and surfaces.
//!
//! Coordinates are the points and vectors of `fj_math`, which hold
//! floating-point numbers. This module carries them and tells curves apart
//! by kind; it never computes with them, except to flip the sign of a
//! vector. Where an operation on a curve needs arithmetic, it takes the
//! arithmetic as a function, one for each kind of curve, and sees to it that
//! the function of the curve's kind is applied to the curve's own data.

use fj_math::{Point, Vector};
use vstd::prelude::*;

verus! {

/// `fj_math::Point`, a point of `D` coordinates. It is taken as it is:
/// nothing is known here of the numbers in it.
#[verifier::external_type_specification]
#[verifier::external_body]
pub struct ExPoint<const D: usize>(Point<D>);

/// `fj_math::Vector`, a vector of `D` coordinates. It is taken as it is:
/// nothing is known here of the numbers in it.
#[verifier::external_type_specification]
#[verifier::external_body]
pub struct ExVector<const D: usize>(Vector<D>);

/// The vector with the sign of every coordinate of `vector` flipped: what
/// `fj_math`'s negation of a `Vector` gives.
pub uninterp spec fn negated(vector: Vector<3>) -> Vector<3>;

/// Flips the sign of every coordinate, by the negation operator that
/// `fj_math` defines for its `Vector`.
///
/// Not proved, but taken from `fj_math`: the result is the negated vector,
/// and negating it again gives back `vector`. A sign flip neither rounds nor
/// fails.
#[verifier::external_body]
fn negate(vector: Vector<3>) -> (flipped: Vector<3>)
    ensures
        flipped == negated(vector),
        negated(flipped) == vector,
{
    -vector
}

/// The origin of the coordinate system, from `fj_math`'s `Point::origin`.
/// Nothing is claimed of it.
#[verifier::external_body]
fn zero_point() -> Point<3> {
    Point::origin()
}

/// The unit vector along the first axis, from `fj_math`'s `Vector::unit_x`.
/// Nothing is claimed of it.
#[verifier::external_body]
fn first_axis() -> Vector<3> {
    Vector::unit_x()
}

/// A straight line through `origin` along `direction`.
///
/// The curve coordinate of a point counts how many times `direction` it lies
/// from `origin`.
#[derive(Clone, Copy, Debug, Eq, PartialEq, Hash, Ord, PartialOrd)]
pub struct Line {
    /// The point with curve coordinate zero.
    pub origin: Point<3>,
    /// The step from the origin to the point with curve coordinate one.
    pub direction: Vector<3>,
}

impl Line {
    /// This line with its direction flipped.
    pub open spec fn reversed(self) -> Line {
        Line { origin: self.origin, direction: negated(self.direction) }
    }

    /// The origin of the line's coordinate system.
    pub fn origin(&self) -> (origin: Point<3>)
        ensures
            origin == self.origin,
    {
        self.origin
    }

    /// The line through the same origin that runs the other way.
    ///
    /// Reversing twice gives back the line.
    #[must_use]
    pub fn reverse(self) -> (reversed: Line)
        ensures
            reversed == self.reversed(),
            reversed.reversed() == self,
    {
        Line { origin: self.origin, direction: negate(self.direction) }
    }

    /// The line whose origin is what `on_point` makes of this line's origin,
    /// and whose direction is what `on_vector` makes of its direction.
    ///
    /// This is how a line is moved and turned in space: a transformation
    /// acts on points in one way and on vectors in another, and the two
    /// functions say how.
    #[must_use]
    pub fn transform<P: Fn(Point<3>) -> Point<3>, V: Fn(Vector<3>) -> Vector<3>>(
        self,
        on_point: P,
        on_vector: V,
    ) -> (transformed: Line)
        requires
            on_point.requires((self.origin,)),
            on_vector.requires((self.direction,)),
        ensures
            on_point.ensures((self.origin,), transformed.origin),
            on_vector.ensures((self.direction,), transformed.direction),
    {
        Line { origin: on_point(self.origin), direction: on_vector(self.direction) }
    }
}

/// A circular arc around `center`, in the plane that `a` and `b` span.
///
/// `a` points from the center to the point with curve coordinate zero, and
/// its length is the radius. `b` has the same length, stands at a right angle
/// to `a`, and tells which way round the curve coordinate grows.
#[derive(Clone, Copy, Debug, Eq, PartialEq, Hash, Ord, PartialOrd)]
pub struct Arc {
    /// The center of the arc.
    pub center: Point<3>,
    /// The axis towards the point with curve coordinate zero.
    pub a: Vector<3>,
    /// The axis towards the point a quarter turn on.
    pub b: Vector<3>,
}

impl Arc {
    /// This arc with its rotational sense flipped.
    pub open spec fn reversed(self) -> Arc {
        Arc { center: self.center, a: self.a, b: negated(self.b) }
    }

    /// The origin of the arc's coordinate system, which is its center.
    pub fn origin(&self) -> (origin: Point<3>)
        ensures
            origin == self.center,
    {
        self.center
    }

    /// The arc around the same center that turns the other way.
    ///
    /// Reversing twice gives back the arc.
    #[must_use]
    pub fn reverse(self) -> (reversed: Arc)
        ensures
            reversed == self.reversed(),
            reversed.reversed() == self,
    {
        Arc { center: self.center, a: self.a, b: negate(self.b) }
    }

    /// The arc whose center is what `on_point` makes of this arc's center,
    /// and whose axes are what `on_vector` makes of its axes.
    #[must_use]
    pub fn transform<P: Fn(Point<3>) -> Point<3>, V: Fn(Vector<3>) -> Vector<3>>(
        self,
        on_point: P,
        on_vector: V,
    ) -> (transformed: Arc)
        requires
            on_point.requires((self.center,)),
            on_vector.requires((self.a,)),
            on_vector.requires((self.b,)),
        ensures
            on_point.ensures((self.center,), transformed.center),
            on_vector.ensures((self.a,), transformed.a),
            on_vector.ensures((self.b,), transformed.b),
    {
        Arc { center: on_point(self.center), a: on_vector(self.a), b: on_vector(self.b) }
    }
}

/// A one-dimensional shape.
///
/// "Curve" covers every one-dimensional shape, straight lines included. A
/// curve is unbounded; an edge is a bounded part of a curve.
#[derive(Clone, Copy, Debug, Eq, PartialEq, Hash, Ord, PartialOrd)]
pub enum Curve {
    /// An arc
    Arc(Arc),
    /// A line
    Line(Line),
}

impl Curve {
    /// The origin of the curve's coordinate system.
    pub open spec fn origin_point(self) -> Point<3> {
        match self {
            Curve::Arc(curve) => curve.center,
            Curve::Line(curve) => curve.origin,
        }
    }

    /// This curve with its coordinate direction flipped. An arc keeps its
    /// center and start, and turns the other way.
    pub open spec fn reversed(self) -> Curve {
        match self {
            Curve::Arc(curve) => Curve::Arc(curve.reversed()),
            Curve::Line(curve) => Curve::Line(curve.reversed()),
        }
    }

    /// Constructs the line along the first axis.
    pub fn x_axis() -> (curve: Curve)
        ensures
            curve is Line,
    {
        Curve::Line(Line { origin: zero_point(), direction: first_axis() })
    }

    /// The origin of the curve's coordinate system.
    pub fn origin(&self) -> (origin: Point<3>)
        ensures
            origin == self.origin_point(),
    {
        match self {
            Curve::Arc(curve) => curve.origin(),
            Curve::Line(curve) => curve.origin(),
        }
    }

    /// The curve of the same kind and origin that runs the other way.
    ///
    /// Reversing twice gives back the curve.
    #[must_use]
    pub fn reverse(self) -> (reversed: Curve)
        ensures
            reversed == self.reversed(),
            reversed.reversed() == self,
    {
        match self {
            Curve::Arc(curve) => Curve::Arc(curve.reverse()),
            Curve::Line(curve) => Curve::Line(curve.reverse()),
        }
    }

    /// Whether `after` is what becomes of the curve `before` when each point
    /// that defines it is replaced by what `on_point` makes of it, and each
    /// vector by what `on_vector` makes of it. The kind of curve stays.
    pub open spec fn transformed_by<P: Fn(Point<3>) -> Point<3>, V: Fn(Vector<3>) -> Vector<3>>(
        before: Curve,
        after: Curve,
        on_point: P,
        on_vector: V,
    ) -> bool {
        match before {
            Curve::Arc(arc) => {
                &&& after matches Curve::Arc(moved)
                &&& on_point.ensures((arc.center,), moved.center)
                &&& on_vector.ensures((arc.a,), moved.a)
                &&& on_vector.ensures((arc.b,), moved.b)
            },
            Curve::Line(line) => {
                &&& after matches Curve::Line(moved)
                &&& on_point.ensures((line.origin,), moved.origin)
                &&& on_vector.ensures((line.direction,), moved.direction)
            },
        }
    }

    /// Creates a new instance of the same kind, transformed as the two
    /// functions say: `on_point` is applied to each point that defines the
    /// curve, `on_vector` to each vector.
    #[must_use]
    pub fn transform<P: Fn(Point<3>) -> Point<3>, V: Fn(Vector<3>) -> Vector<3>>(
        self,
        on_point: P,
        on_vector: V,
    ) -> (transformed: Curve)
        requires
            match self {
                Curve::Arc(arc) => {
                    &&& on_point.requires((arc.center,))
                    &&& on_vector.requires((arc.a,))
                    &&& on_vector.requires((arc.b,))
                },
                Curve::Line(line) => {
                    &&& on_point.requires((line.origin,))
                    &&& on_vector.requires((line.direction,))
                },
            },
        ensures
            Self::transformed_by(self, transformed, on_point, on_vector),
    {
        match self {
            Curve::Arc(curve) => Curve::Arc(curve.transform(on_point, on_vector)),
            Curve::Line(curve) => Curve::Line(curve.transform(on_point, on_vector)),
        }
    }

    /// Converts a point in model coordinates to curve coordinates.
    ///
    /// The conversion is that of the curve's kind: `on_arc` says how an arc
    /// converts the point, `on_line` how a line does. Either is expected to
    /// project the point onto the curve first, so that a point off the curve
    /// is no error.
    pub fn point_model_to_curve<A, L>(&self, point: &Point<3>, on_arc: A, on_line: L) -> (coordinate:
        Point<1>) where A: FnOnce(Arc, Point<3>) -> Point<1>, L: FnOnce(Line, Point<3>) -> Point<1>
        requires
            match *self {
                Curve::Arc(arc) => on_arc.requires((arc, *point)),
                Curve::Line(line) => on_line.requires((line, *point)),
            },
        ensures
            match *self {
                Curve::Arc(arc) => on_arc.ensures((arc, *point), coordinate),
                Curve::Line(line) => on_line.ensures((line, *point), coordinate),
            },
    {
        match self {
            Curve::Arc(curve) => on_arc(*curve, *point),
            Curve::Line(curve) => on_line(*curve, *point),
        }
    }

    /// Converts a point on the curve into model coordinates.
    ///
    /// The conversion is that of the curve's kind: `on_arc` says how an arc
    /// converts the point, `on_line` how a line does.
    pub fn point_curve_to_model<A, L>(&self, point: &Point<1>, on_arc: A, on_line: L) -> (place:
        Point<3>) where A: FnOnce(Arc, Point<1>) -> Point<3>, L: FnOnce(Line, Point<1>) -> Point<3>
        requires
            match *self {
                Curve::Arc(arc) => on_arc.requires((arc, *point)),
                Curve::Line(line) => on_line.requires((line, *point)),
            },
        ensures
            match *self {
                Curve::Arc(arc) => on_arc.ensures((arc, *point), place),
                Curve::Line(line) => on_line.ensures((line, *point), place),
            },
    {
        match self {
            Curve::Arc(curve) => on_arc(*curve, *point),
            Curve::Line(curve) => on_line(*curve, *point),
        }
    }

    /// Converts a vector on the curve into model coordinates.
    ///
    /// The conversion is that of the curve's kind: `on_arc` says how an arc
    /// converts the vector, `on_line` how a line does.
    pub fn vector_curve_to_model<A, L>(&self, vector: &Vector<1>, on_arc: A, on_line: L) -> (step:
        Vector<3>) where
        A: FnOnce(Arc, Vector<1>) -> Vector<3>,
        L: FnOnce(Line, Vector<1>) -> Vector<3>,

        requires
            match *self {
                Curve::Arc(arc) => on_arc.requires((arc, *vector)),
                Curve::Line(line) => on_line.requires((line, *vector)),
            },
        ensures
            match *self {
                Curve::Arc(arc) => on_arc.ensures((arc, *vector), step),
                Curve::Line(line) => on_line.ensures((line, *vector), step),
            },
    {
        match self {
            Curve::Arc(curve) => on_arc(*curve, *vector),
            Curve::Line(curve) => on_line(*curve, *vector),
        }
    }

    /// Whether `after` is `before` with `count` points of the arc appended:
    /// the points that `point_at` gives for the arc as the first, the
    /// second, and so on, of `count`.
    pub open spec fn sampled<S: Fn(Arc, u64, u64) -> Point<3>>(
        arc: Arc,
        count: u64,
        point_at: S,
        before: Seq<Point<3>>,
        after: Seq<Point<3>>,
    ) -> bool {
        &&& after.len() == before.len() + count
        &&& after.take(before.len() as int) == before
        &&& forall|i: int|
            0 <= i < count ==> point_at.ensures((arc, i as u64, count), #[trigger] after[before.len() + i])
    }

    /// Appends the interior points of an approximation of the curve to
    /// `out`.
    ///
    /// A line contributes none: its two end points say all there is to say
    /// about the stretch between them. An arc contributes as many as `count`
    /// asks for, and `point_at` gives each: it is called with the arc, the
    /// number of the point, counted from zero, and the count.
    pub fn approx<N, S>(&self, count: N, point_at: S, out: &mut Vec<Point<3>>) where
        N: FnOnce(Arc) -> u64,
        S: Fn(Arc, u64, u64) -> Point<3>,

        requires
            *self matches Curve::Arc(arc) ==> {
                &&& count.requires((arc,))
                &&& forall|n: u64, i: u64|
                    count.ensures((arc,), n) && i < n ==> point_at.requires((arc, i, n))
            },
        ensures
            self is Line ==> final(out)@ == old(out)@,
            *self matches Curve::Arc(arc) ==> exists|n: u64| #[trigger]
                count.ensures((arc,), n) && Self::sampled(arc, n, point_at, old(out)@, final(out)@),
    {
        match self {
            Curve::Arc(arc) => {
                let n = count(*arc);
                let mut i: u64 = 0;
                while i < n
                    invariant
                        0 <= i <= n,
                        forall|k: u64| k < n ==> point_at.requires((*arc, k, n)),
                        out@.len() == old(out)@.len() + i,
                        out@.take(old(out)@.len() as int) == old(out)@,
                        forall|k: int|
                            0 <= k < i ==> point_at.ensures(
                                (*arc, k as u64, n),
                                #[trigger] out@[old(out)@.len() + k],
                            ),
                    decreases n - i,
                {
                    let point = point_at(*arc, i, n);
                    out.push(point);
                    i = i + 1;
                }
            },
            Curve::Line(_) => {},
        }
    }
}

/// A curve within a surface, in the surface's own two coordinates.
///
/// It takes a curve coordinate to a point of the surface, as a [`Curve`]
/// takes one to a point of space.
#[derive(Clone, Copy, Debug, Eq, PartialEq, Hash, Ord, PartialOrd)]
pub enum SurfacePath {
    /// An arc around `center`; `a` and `b` are its axes, as in [`Arc`].
    Arc { center: Point<2>, a: Vector<2>, b: Vector<2> },
    /// A line through `origin` along `direction`.
    Line { origin: Point<2>, direction: Vector<2> },
}

/// The shape of a surface: the curve `u`, swept along the vector `v`.
///
/// The first surface coordinate is the curve coordinate on `u`, the second
/// counts how many times `v` a point lies from `u`.
#[derive(Clone, Copy, Debug, Eq, PartialEq, Hash, Ord, PartialOrd)]
pub struct SurfaceGeometry {
    /// The curve that is swept.
    pub u: Curve,
    /// The vector along which it is swept.
    pub v: Vector<3>,
}

} // verus!
