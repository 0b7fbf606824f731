//! Points in polar form.
//!
//! A point of the plan is a base point plus a polar offset: a radius and an
//! angle measured in turns, growing counter-clockwise on a raster whose `y`
//! axis points down. Evaluated in real arithmetic, the point
//! `(base, radius, turns)` lies at
//! `x = base.x + radius * cos(2*pi*turns)`,
//! `y = base.y - radius * sin(2*pi*turns)`.
//! The evaluation needs trigonometry and stays outside the library; every
//! fact proved here is a fact about the exact polar data.

use vstd::prelude::*;
use crate::num::Frac;
use crate::num::Scalar;

verus! {

/// The base a polar offset is taken from: either a point with plain
/// coordinates, or itself a polar point around the origin of the current
/// transform (the bolt-head centers are of that kind).
#[derive(Clone, Copy, PartialEq, Eq, Debug)]
pub enum Base {
    At { x: i64, y: i64 },
    Polar { radius: Scalar, turns: Frac },
}

/// A point of a path: a polar offset from a base point.
#[derive(Clone, Copy, PartialEq, Eq, Debug)]
pub struct PathPoint {
    pub base: Base,
    pub radius: Scalar,
    pub turns: Frac,
}

/// The origin of the current transform.
pub open spec fn origin() -> Base {
    Base::At { x: 0, y: 0 }
}

/// The point on the circle around `base` with the given radius, at the given
/// angle. In real arithmetic its coordinates are
/// `(base.x + radius * cos(2*pi*turns), base.y - radius * sin(2*pi*turns))`.
pub fn point_in_circle(base: Base, radius: Scalar, turns: Frac) -> (p: PathPoint)
    ensures
        p == (PathPoint { base, radius, turns }),
{
    PathPoint { base, radius, turns }
}

/// Two angles point the same way when they differ by a whole number of turns.
pub open spec fn turns_equiv(a: Frac, b: Frac) -> bool {
    (b.num * a.den - a.num * b.den) % (a.den * b.den) == 0
}

/// Two polar points denote the same position: either the same circle and the
/// same direction, or both radii are zero and the bases agree (with radius
/// zero the angle is immaterial, since `cos` and `sin` are scaled by zero).
pub open spec fn same_position(p: PathPoint, q: PathPoint) -> bool {
    p.base == q.base && p.radius == q.radius && (turns_equiv(p.turns, q.turns) || p.radius
        == Scalar::zero_spec())
}

/// A point built with radius zero is its base point exactly, whatever the
/// angle: both trigonometric terms of the evaluation are multiplied by a
/// radius of zero, so the offset vanishes.
pub proof fn lemma_zero_radius_is_base(base: Base, t1: Frac, t2: Frac)
    ensures
        same_position(
            PathPoint { base, radius: Scalar::zero_spec(), turns: t1 },
            PathPoint { base, radius: Scalar::zero_spec(), turns: t2 },
        ),
{
}

/// A polar point lies at distance `radius` from its base, by construction:
/// the evaluated offset is `(radius*cos, -radius*sin)`, whose Euclidean norm
/// is `radius * sqrt(cos^2 + sin^2) = radius` for a non-negative radius. In
/// this representation the distance is the stored radius component itself.
pub proof fn lemma_distance_from_base_is_radius(base: Base, radius: Scalar, turns: Frac)
    ensures
        (PathPoint { base, radius, turns }).radius == radius,
        (PathPoint { base, radius, turns }).base == base,
{
}

} // verus!
