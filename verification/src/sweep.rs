//! The triangles of a swept shape.
//!
//! A flat shape that is swept along a straight path becomes a solid. Its
//! surface has three parts: the shape itself, seen from below; a copy of the
//! shape at the far end of the path; and a wall for each stretch of the
//! shape's outline.

use vstd::prelude::*;

verus! {

/// A triangle, by its corners.
#[derive(Clone, Copy, Debug, PartialEq, Eq, Hash)]
pub struct Triangle<P> {
    /// The first corner
    pub a: P,
    /// The second corner
    pub b: P,
    /// The third corner
    pub c: P,
}

/// A straight stretch between two points.
#[derive(Clone, Copy, Debug, PartialEq, Eq, Hash)]
pub struct Segment<P> {
    /// Where the stretch starts
    pub a: P,
    /// Where the stretch ends
    pub b: P,
}

/// The triangle with the same corners, seen from the other side.
pub open spec fn flipped<P>(triangle: Triangle<P>) -> Triangle<P> {
    Triangle { a: triangle.a, b: triangle.c, c: triangle.b }
}

/// The first half of the wall between a stretch and its copy at the far end.
pub open spec fn wall_near<P>(near: Segment<P>, far: Segment<P>) -> Triangle<P> {
    Triangle { a: near.a, b: near.b, c: far.b }
}

/// The second half of the wall between a stretch and its copy at the far end.
pub open spec fn wall_far<P>(near: Segment<P>, far: Segment<P>) -> Triangle<P> {
    Triangle { a: near.a, b: far.b, c: far.a }
}

/// The walls: two triangles for each stretch, in the order of the stretches.
pub open spec fn walls<P>(outline: Seq<(Segment<P>, Segment<P>)>) -> Seq<Triangle<P>> {
    Seq::new(
        2 * outline.len(),
        |k: int|
            if k % 2 == 0 {
                wall_near(outline[k / 2].0, outline[k / 2].1)
            } else {
                wall_far(outline[k / 2].0, outline[k / 2].1)
            },
    )
}

/// The triangles of the swept shape: the bottom, every triangle flipped so
/// that it faces away from the solid; then the top; then the walls.
pub open spec fn swept<P>(
    bottom: Seq<Triangle<P>>,
    top: Seq<Triangle<P>>,
    outline: Seq<(Segment<P>, Segment<P>)>,
) -> Seq<Triangle<P>> {
    bottom.map_values(|triangle: Triangle<P>| flipped(triangle)) + top + walls(outline)
}

/// A flat shape that is swept along a straight path, given by what
/// approximates it at both ends of the path.
#[derive(Clone, Debug, PartialEq, Eq, Hash)]
pub struct Sweep<P> {
    /// The triangles of the shape.
    pub bottom: Vec<Triangle<P>>,
    /// The triangles of the copy of the shape at the far end of the path.
    pub top: Vec<Triangle<P>>,
    /// Each stretch of the shape's outline, together with its copy at the
    /// far end of the path.
    pub outline: Vec<(Segment<P>, Segment<P>)>,
}

impl<P: Copy> Sweep<P> {
    /// The triangles of the swept shape: the bottom, flipped; then the top;
    /// then the walls.
    pub fn faces(&self) -> (triangles: Vec<Triangle<P>>)
        ensures
            triangles@ == swept(self.bottom@, self.top@, self.outline@),
    {
        let mut triangles: Vec<Triangle<P>> = Vec::new();
        let ghost below = self.bottom@.map_values(|triangle: Triangle<P>| flipped(triangle));

        let mut i: usize = 0;
        while i < self.bottom.len()
            invariant
                0 <= i <= self.bottom.len(),
                below == self.bottom@.map_values(|triangle: Triangle<P>| flipped(triangle)),
                triangles@ == below.take(i as int),
            decreases self.bottom.len() - i,
        {
            let triangle = self.bottom[i];
            triangles.push(Triangle { a: triangle.a, b: triangle.c, c: triangle.b });
            i = i + 1;
        }

        let mut i: usize = 0;
        while i < self.top.len()
            invariant
                0 <= i <= self.top.len(),
                triangles@ == below + self.top@.take(i as int),
            decreases self.top.len() - i,
        {
            triangles.push(self.top[i]);
            i = i + 1;
        }

        let mut i: usize = 0;
        while i < self.outline.len()
            invariant
                0 <= i <= self.outline.len(),
                triangles@ == below + self.top@ + walls(self.outline@.take(i as int)),
            decreases self.outline.len() - i,
        {
            let (near, far) = self.outline[i];
            triangles.push(Triangle { a: near.a, b: near.b, c: far.b });
            triangles.push(Triangle { a: near.a, b: far.b, c: far.a });
            i = i + 1;
        }
        triangles
    }
}

} // verus!
