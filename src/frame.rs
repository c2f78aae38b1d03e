use vstd::prelude::*;

verus! {

/// The world axis that a plane's in-surface direction `u` is derived from:
/// `u` is the normalized cross product of this axis with the unit normal `t`,
/// and `v = t × u`.
#[derive(PartialEq, Eq, Structural, Clone, Copy, Debug)]
pub enum ReferenceAxis {
    X,
    Z,
}

/// A 3-vector over exact integers, the model in which the frame's algebra
/// is stated.
pub type Vector3 = (int, int, int);

pub open spec fn dot(a: Vector3, b: Vector3) -> int {
    a.0 * b.0 + a.1 * b.1 + a.2 * b.2
}

pub open spec fn cross(a: Vector3, b: Vector3) -> Vector3 {
    (a.1 * b.2 - a.2 * b.1, a.2 * b.0 - a.0 * b.2, a.0 * b.1 - a.1 * b.0)
}

pub open spec fn norm_squared(a: Vector3) -> int {
    dot(a, a)
}

pub open spec fn is_zero(a: Vector3) -> bool {
    a.0 == 0 && a.1 == 0 && a.2 == 0
}

pub open spec fn axis_vector(axis: ReferenceAxis) -> Vector3 {
    match axis {
        ReferenceAxis::X => (1, 0, 0),
        ReferenceAxis::Z => (0, 0, 1),
    }
}

/// The tie-break: the X axis for a normal along the Z axis; otherwise the
/// Z axis when the normal's Z component falls below the tolerance, the X axis
/// when it does not. The chosen axis is never parallel to the normal.
pub open spec fn axis_for(normal_along_z: bool, normal_z_below_tolerance: bool) -> ReferenceAxis {
    if normal_along_z {
        ReferenceAxis::X
    } else if normal_z_below_tolerance {
        ReferenceAxis::Z
    } else {
        ReferenceAxis::X
    }
}

/// The direction of `u` before normalization.
pub open spec fn frame_u(t: Vector3, axis: ReferenceAxis) -> Vector3 {
    cross(axis_vector(axis), t)
}

/// The direction of `v` before normalization.
pub open spec fn frame_v(t: Vector3, axis: ReferenceAxis) -> Vector3 {
    cross(t, frame_u(t, axis))
}

proof fn lemma_square_of_difference(x: int, y: int)
    ensures
        (x - y) * (x - y) == x * x + y * y - 2 * (x * y),
{
    assert((x - y) * (x - y) == x * x + y * y - 2 * (x * y)) by (nonlinear_arith);
}

proof fn lemma_product_swap(x: int, y: int, z: int, w: int)
    ensures
        (x * y) * (z * w) == (x * z) * (y * w),
{
    assert((x * y) * (z * w) == (x * z) * (y * w)) by (nonlinear_arith);
}

proof fn lemma_square_of_sum(x: int, y: int, z: int)
    ensures
        (x + y + z) * (x + y + z) == x * x + y * y + z * z + 2 * (x * y) + 2 * (x * z) + 2 * (y * z),
{
    assert((x + y + z) * (x + y + z) == x * x + y * y + z * z + 2 * (x * y) + 2 * (x * z) + 2 * (y
        * z)) by (nonlinear_arith);
}

proof fn lemma_product_of_sums(x: int, y: int, z: int, p: int, q: int, r: int)
    ensures
        (x + y + z) * (p + q + r) == x * p + x * q + x * r + y * p + y * q + y * r + z * p + z * q
            + z * r,
{
    assert((x + y + z) * (p + q + r) == x * p + x * q + x * r + y * p + y * q + y * r + z * p + z
        * q + z * r) by (nonlinear_arith);
}

/// Lagrange's identity: `|a × b|² = |a|²·|b|² − (a·b)²`.
pub proof fn lemma_cross_norm(a: Vector3, b: Vector3)
    ensures
        norm_squared(cross(a, b)) == norm_squared(a) * norm_squared(b) - dot(a, b) * dot(a, b),
{
    let (a0, a1, a2) = a;
    let (b0, b1, b2) = b;
    lemma_square_of_difference(a1 * b2, a2 * b1);
    lemma_square_of_difference(a2 * b0, a0 * b2);
    lemma_square_of_difference(a0 * b1, a1 * b0);
    lemma_product_swap(a1, b2, a1, b2);
    lemma_product_swap(a2, b1, a2, b1);
    lemma_product_swap(a1, b2, a2, b1);
    lemma_product_swap(a2, b0, a2, b0);
    lemma_product_swap(a0, b2, a0, b2);
    lemma_product_swap(a2, b0, a0, b2);
    lemma_product_swap(a0, b1, a0, b1);
    lemma_product_swap(a1, b0, a1, b0);
    lemma_product_swap(a0, b1, a1, b0);
    lemma_product_swap(a0, b0, a0, b0);
    lemma_product_swap(a1, b1, a1, b1);
    lemma_product_swap(a2, b2, a2, b2);
    lemma_product_swap(a0, b0, a1, b1);
    lemma_product_swap(a0, b0, a2, b2);
    lemma_product_swap(a1, b1, a2, b2);
    lemma_square_of_sum(a0 * b0, a1 * b1, a2 * b2);
    lemma_product_of_sums(a0 * a0, a1 * a1, a2 * a2, b0 * b0, b1 * b1, b2 * b2);
}

/// The frame derived from a normal `t` through either reference axis is
/// orthogonal and right-handed: `u` and `v` are both perpendicular to `t`
/// and to each other, `t × u = v`, and `|v| = |t|·|u|`, so that `v` is a unit
/// vector whenever `t` and `u` are.
pub proof fn lemma_frame_orthogonal(t: Vector3, axis: ReferenceAxis)
    ensures
        dot(t, frame_u(t, axis)) == 0,
        dot(t, frame_v(t, axis)) == 0,
        dot(frame_u(t, axis), frame_v(t, axis)) == 0,
        cross(t, frame_u(t, axis)) == frame_v(t, axis),
        norm_squared(frame_v(t, axis)) == norm_squared(t) * norm_squared(frame_u(t, axis)),
{
    let u = frame_u(t, axis);
    let v = frame_v(t, axis);
    assert(dot(t, u) == 0) by (nonlinear_arith)
        requires
            u == cross(axis_vector(axis), t),
            axis_vector(axis) == (1int, 0int, 0int) || axis_vector(axis) == (0int, 0int, 1int),
    ;
    assert(dot(t, v) == 0) by (nonlinear_arith)
        requires
            v == cross(t, u),
    ;
    assert(dot(u, v) == 0) by (nonlinear_arith)
        requires
            v == cross(t, u),
    ;
    lemma_cross_norm(t, u);
}

/// The tie-break never derives `u` from an axis parallel to the normal: for
/// every non-zero normal `t`, `u` and `v` are non-zero.
///
/// `normal_along_z` says whether `t` lies on the Z axis (its X and Y
/// components are zero); `normal_z_below_tolerance` is the outcome of the
/// tolerance test on its Z component, and when that test fails the component
/// is positive.
pub proof fn lemma_frame_nondegenerate(
    t: Vector3,
    normal_along_z: bool,
    normal_z_below_tolerance: bool,
)
    requires
        !is_zero(t),
        normal_along_z == (t.0 == 0 && t.1 == 0),
        !normal_z_below_tolerance ==> t.2 > 0,
    ensures
        !is_zero(frame_u(t, axis_for(normal_along_z, normal_z_below_tolerance))),
        !is_zero(frame_v(t, axis_for(normal_along_z, normal_z_below_tolerance))),
{
    let axis = axis_for(normal_along_z, normal_z_below_tolerance);
    let u = frame_u(t, axis);
    let v = frame_v(t, axis);
    lemma_frame_orthogonal(t, axis);
    if axis == ReferenceAxis::X {
        // X × t = (0, −t.2, t.1)
        assert(u == (0 * t.2 - 0 * t.1, 0 * t.0 - 1 * t.2, 1 * t.1 - 0 * t.0));
        assert(t.1 != 0 || t.2 != 0);
    } else {
        // Z × t = (−t.1, t.0, 0)
        assert(u == (0 * t.2 - 1 * t.1, 1 * t.0 - 0 * t.2, 0 * t.1 - 0 * t.0));
        assert(t.0 != 0 || t.1 != 0);
    }
    assert(!is_zero(u));
    assert(norm_squared(t) > 0) by (nonlinear_arith)
        requires
            !is_zero(t),
    ;
    assert(norm_squared(u) > 0) by (nonlinear_arith)
        requires
            !is_zero(u),
    ;
    assert(norm_squared(t) * norm_squared(u) > 0) by (nonlinear_arith)
        requires
            norm_squared(t) > 0,
            norm_squared(u) > 0,
    ;
    assert(is_zero(v) ==> norm_squared(v) == 0) by (nonlinear_arith);
}

/// Picks the reference axis for a plane whose unit normal lies along the Z
/// axis (`normal_along_z`) or not, and has a Z component below the tolerance
/// (`normal_z_below_tolerance`) or not.
pub fn reference_axis(normal_along_z: bool, normal_z_below_tolerance: bool) -> (r: ReferenceAxis)
    ensures
        r == axis_for(normal_along_z, normal_z_below_tolerance),
{
    if normal_along_z {
        ReferenceAxis::X
    } else if normal_z_below_tolerance {
        ReferenceAxis::Z
    } else {
        ReferenceAxis::X
    }
}

} // verus!
