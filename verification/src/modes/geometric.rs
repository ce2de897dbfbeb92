//! The geometric mode: drawings as points and the links between them.

use vstd::prelude::*;

verus! {

/// A point on a euclidean plane, as a pair of pixel coordinates.
#[derive(Clone, Copy, Debug, PartialEq, Eq, Structural)]
pub struct Point(pub i64, pub i64);

impl Point {
    /// A point at the given coordinates.
    pub fn new(x: i64, y: i64) -> (p: Self)
        ensures
            p.0 == x,
            p.1 == y,
    {
        Point(x, y)
    }
}

/// A vector body: a sequence of points and the links between them, each
/// link naming two point indices.
#[derive(Debug, PartialEq)]
pub struct Shape {
    /// The points of the shape.
    pub points: Vec<Point>,
    /// The connections between points, as pairs of indices into `points`.
    pub connections: Vec<[usize; 2]>,
}

impl Shape {
    /// An empty shape.
    pub fn new() -> (s: Shape)
        ensures
            s.points@.len() == 0,
            s.connections@.len() == 0,
    {
        Shape { points: Vec::new(), connections: Vec::new() }
    }
}

} // verus!
