//! Branch decisions of the ray-triangle contact kernel.
//!
//! The Moller-Trumbore test computes, from a ray and a triangle, five
//! scalars: the determinant `a` of the edge basis, the barycentric
//! coordinates `u` and `v` of the candidate contact point, their sum, and
//! the ray parameter `t` of that point. Whether a contact is reported, and
//! why one is not, depends on those scalars alone, through strict
//! comparisons against zero, one and the machine epsilon. This module
//! takes the scalars as bit patterns and decides, against the ordering of
//! `crate::ieee`, which outcome the test reaches. It also decides what
//! max-component normalization divides a vector by.

use vstd::prelude::*;

use crate::ieee::BITS_EPSILON;
use crate::ieee::BITS_NEG_EPSILON;
use crate::ieee::BITS_ONE;
use crate::ieee::BITS_ZERO;
use crate::ieee::lt;
use crate::ieee::lt_bits;

verus! {

/// The outcome of the Moller-Trumbore test on one ray and one triangle.
#[derive(Clone, Copy, Debug, PartialEq, Eq)]
pub enum ContactVerdict {
    /// The determinant lies strictly within epsilon of zero: the ray runs
    /// parallel to the triangle's plane (or the triangle is degenerate).
    Parallel,
    /// The first barycentric coordinate falls outside the closed unit
    /// interval: the candidate point lies outside the span of the edges.
    OutsideEdgeSpan,
    /// The second barycentric coordinate is negative, or the two sum past
    /// one: the candidate point lies outside the triangle.
    OutsideTriangle,
    /// The line through the ray meets the triangle, but at or behind the
    /// ray's origin: the parameter does not exceed epsilon.
    BehindOrigin,
    /// The ray meets the triangle strictly in front of its origin.
    Hit,
}

/// The outcome the test reaches on determinant `a`, barycentric
/// coordinates `u` and `v`, their sum `uv`, and ray parameter `t`, each a
/// single-precision bit pattern. The rejection tests apply in this order;
/// an earlier rejection hides the scalars of the later tests.
pub open spec fn verdict(a: u32, u: u32, v: u32, uv: u32, t: u32) -> ContactVerdict {
    if lt(BITS_NEG_EPSILON, a) && lt(a, BITS_EPSILON) {
        ContactVerdict::Parallel
    } else if lt(u, BITS_ZERO) || lt(BITS_ONE, u) {
        ContactVerdict::OutsideEdgeSpan
    } else if lt(v, BITS_ZERO) || lt(BITS_ONE, uv) {
        ContactVerdict::OutsideTriangle
    } else if lt(BITS_EPSILON, t) {
        ContactVerdict::Hit
    } else {
        ContactVerdict::BehindOrigin
    }
}

/// Decides the outcome of the Moller-Trumbore test from the five scalars'
/// bit patterns. A contact is reported exactly when the determinant clears
/// the epsilon band around zero, both barycentric coordinates and their
/// sum keep the candidate point inside the triangle, and the point lies
/// strictly beyond epsilon along the ray.
pub fn contact_verdict(a: u32, u: u32, v: u32, uv: u32, t: u32) -> (r: ContactVerdict)
    ensures
        r == verdict(a, u, v, uv, t),
        r is Hit <==> (
            !(lt(BITS_NEG_EPSILON, a) && lt(a, BITS_EPSILON))
            && !lt(u, BITS_ZERO) && !lt(BITS_ONE, u)
            && !lt(v, BITS_ZERO) && !lt(BITS_ONE, uv)
            && lt(BITS_EPSILON, t)
        ),
{
    if lt_bits(BITS_NEG_EPSILON, a) && lt_bits(a, BITS_EPSILON) {
        ContactVerdict::Parallel
    } else if lt_bits(u, BITS_ZERO) || lt_bits(BITS_ONE, u) {
        ContactVerdict::OutsideEdgeSpan
    } else if lt_bits(v, BITS_ZERO) || lt_bits(BITS_ONE, uv) {
        ContactVerdict::OutsideTriangle
    } else if lt_bits(BITS_EPSILON, t) {
        ContactVerdict::Hit
    } else {
        ContactVerdict::BehindOrigin
    }
}

/// The largest of a vector's three components, as a left-to-right fold
/// finds it: start at `x`, move to `y` and then to `z` whenever the
/// candidate so far is strictly smaller.
pub open spec fn fold_max(x: u32, y: u32, z: u32) -> u32 {
    let xy = if lt(x, y) { y } else { x };
    if lt(xy, z) { z } else { xy }
}

/// What max-component normalization divides a vector by: the fold maximum
/// of the components when it is strictly positive, and nothing otherwise,
/// in which case the vector stays as it is.
pub open spec fn divisor(x: u32, y: u32, z: u32) -> Option<u32> {
    if lt(BITS_ZERO, fold_max(x, y, z)) {
        Some(fold_max(x, y, z))
    } else {
        None
    }
}

/// Decides what max-component normalization divides a vector by, from the
/// bit patterns of its three components.
pub fn normalize_divisor(x: u32, y: u32, z: u32) -> (r: Option<u32>)
    ensures
        r == divisor(x, y, z),
{
    let xy: u32 = if lt_bits(x, y) { y } else { x };
    let m: u32 = if lt_bits(xy, z) { z } else { xy };
    if lt_bits(BITS_ZERO, m) {
        Some(m)
    } else {
        None
    }
}

/// A vector none of whose components is strictly positive is left
/// unchanged by max-component normalization: the fold maximum is one of
/// the components, so it is not strictly positive either, and no division
/// takes place.
pub proof fn lemma_no_positive_component_no_divisor(x: u32, y: u32, z: u32)
    requires
        !lt(BITS_ZERO, x),
        !lt(BITS_ZERO, y),
        !lt(BITS_ZERO, z),
    ensures
        divisor(x, y, z) is None,
{
}

} // verus!
