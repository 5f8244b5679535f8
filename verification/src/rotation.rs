//! The rotation model, stated over exact scalars.
//!
//! The renderer rotates each sample point about the X, Y and Z axes in
//! turn, in the standard right-handed convention, and evaluates the
//! composite with three closed-form expressions, one per output coordinate,
//! rather than by chaining matrix products. The facts that
//! make the pipeline work are ring identities in the sines and cosines of the
//! three angles: they hold in any commutative ring, so proving them over
//! `int` establishes them for the real-valued sines and cosines as well.
//! This module states the closed forms, relates them to the step-by-step
//! composition, and proves the two rotation laws the renderer relies on:
//! zero angles leave every point fixed, and a rotation preserves the squared
//! Euclidean norm whenever each (sine, cosine) pair lies on the unit circle.

use vstd::prelude::*;

verus! {

/// Rotation about the X axis by the angle whose sine is `s` and whose
/// cosine is `c`, in the standard right-handed sense: the X coordinate is
/// kept and the (Y, Z) pair turns so that +Y moves towards +Z.
pub open spec fn rotate_about_x(s: int, c: int, p: (int, int, int)) -> (int, int, int) {
    (p.0, p.1 * c - p.2 * s, p.1 * s + p.2 * c)
}

/// Rotation about the Y axis by the angle whose sine is `s` and whose
/// cosine is `c`, in the standard right-handed sense: the Y coordinate is
/// kept and the (Z, X) pair turns so that +Z moves towards +X.
pub open spec fn rotate_about_y(s: int, c: int, p: (int, int, int)) -> (int, int, int) {
    (p.0 * c + p.2 * s, p.1, p.2 * c - p.0 * s)
}

/// Rotation about the Z axis by the angle whose sine is `s` and whose
/// cosine is `c`, in the standard right-handed sense: the Z coordinate is
/// kept and the (X, Y) pair turns so that +X moves towards +Y.
pub open spec fn rotate_about_z(s: int, c: int, p: (int, int, int)) -> (int, int, int) {
    (p.0 * c - p.1 * s, p.0 * s + p.1 * c, p.2)
}

/// The full rotation: about X by the angle with sine `sa` and cosine `ca`,
/// then about Y by the angle with sine `sb` and cosine `cb`, then about Z by
/// the angle with sine `sc` and cosine `cc`.
pub open spec fn rotate(
    sa: int, ca: int, sb: int, cb: int, sc: int, cc: int,
    p: (int, int, int),
) -> (int, int, int) {
    rotate_about_z(sc, cc, rotate_about_y(sb, cb, rotate_about_x(sa, ca, p)))
}

/// Closed form of the X coordinate of [`rotate`] applied to `(i, j, k)`:
/// the product of the three rotations expanded algebraically into a single
/// expression in the six sines and cosines.
pub open spec fn rotated_x(
    sa: int, ca: int, sb: int, cb: int, sc: int, cc: int,
    i: int, j: int, k: int,
) -> int {
    j * sa * sb * cc + k * ca * sb * cc - j * ca * sc + k * sa * sc + i * cb * cc
}

/// Closed form of the Y coordinate of [`rotate`] applied to `(i, j, k)`.
pub open spec fn rotated_y(
    sa: int, ca: int, sb: int, cb: int, sc: int, cc: int,
    i: int, j: int, k: int,
) -> int {
    j * ca * cc - k * sa * cc + j * sa * sb * sc + k * ca * sb * sc + i * cb * sc
}

/// Closed form of the Z coordinate of [`rotate`] applied to `(i, j, k)`.
pub open spec fn rotated_z(
    sa: int, ca: int, sb: int, cb: int, sc: int, cc: int,
    i: int, j: int, k: int,
) -> int {
    k * ca * cb + j * sa * cb - i * sb
}

/// The three closed-form expressions compute exactly the composite of the
/// three single-axis rotations, applied in the order X, then Y, then Z.
#[verifier::rlimit(60)]
pub proof fn lemma_closed_form_is_composition(
    sa: int, ca: int, sb: int, cb: int, sc: int, cc: int,
    i: int, j: int, k: int,
)
    ensures
        rotate(sa, ca, sb, cb, sc, cc, (i, j, k)) == (
            rotated_x(sa, ca, sb, cb, sc, cc, i, j, k),
            rotated_y(sa, ca, sb, cb, sc, cc, i, j, k),
            rotated_z(sa, ca, sb, cb, sc, cc, i, j, k),
        ),
{
    let q = rotate_about_y(sb, cb, rotate_about_x(sa, ca, (i, j, k)));
    assert(q.0 == i * cb + (j * sa + k * ca) * sb);
    assert(q.1 == j * ca - k * sa);
    assert(q.2 == (j * sa + k * ca) * cb - i * sb);
    assert((i * cb + (j * sa + k * ca) * sb) * cc - (j * ca - k * sa) * sc
        == j * sa * sb * cc + k * ca * sb * cc - j * ca * sc + k * sa * sc + i * cb * cc)
        by (nonlinear_arith);
    assert((i * cb + (j * sa + k * ca) * sb) * sc + (j * ca - k * sa) * cc
        == j * ca * cc - k * sa * cc + j * sa * sb * sc + k * ca * sb * sc + i * cb * sc)
        by (nonlinear_arith);
    assert((j * sa + k * ca) * cb - i * sb == k * ca * cb + j * sa * cb - i * sb)
        by (nonlinear_arith);
}

/// With all three angles at zero (sine 0, cosine 1) the rotation model is
/// the identity: the closed forms hand back the input point unchanged.
pub proof fn lemma_zero_rotation_is_identity(i: int, j: int, k: int)
    ensures
        rotated_x(0, 1, 0, 1, 0, 1, i, j, k) == i,
        rotated_y(0, 1, 0, 1, 0, 1, i, j, k) == j,
        rotated_z(0, 1, 0, 1, 0, 1, i, j, k) == k,
{
}

/// Rotation about the X axis preserves the squared Euclidean norm whenever
/// `(s, c)` lies on the unit circle.
proof fn lemma_about_x_preserves_square_norm(s: int, c: int, p: (int, int, int))
    requires
        s * s + c * c == 1,
    ensures
        ({
            let q = rotate_about_x(s, c, p);
            q.0 * q.0 + q.1 * q.1 + q.2 * q.2 == p.0 * p.0 + p.1 * p.1 + p.2 * p.2
        }),
{
    assert((p.1 * c - p.2 * s) * (p.1 * c - p.2 * s) + (p.1 * s + p.2 * c) * (p.1 * s + p.2 * c)
        == p.1 * p.1 + p.2 * p.2) by (nonlinear_arith)
        requires s * s + c * c == 1;
}

/// Rotation about the Y axis preserves the squared Euclidean norm whenever
/// `(s, c)` lies on the unit circle.
proof fn lemma_about_y_preserves_square_norm(s: int, c: int, p: (int, int, int))
    requires
        s * s + c * c == 1,
    ensures
        ({
            let q = rotate_about_y(s, c, p);
            q.0 * q.0 + q.1 * q.1 + q.2 * q.2 == p.0 * p.0 + p.1 * p.1 + p.2 * p.2
        }),
{
    assert((p.0 * c + p.2 * s) * (p.0 * c + p.2 * s) + (p.2 * c - p.0 * s) * (p.2 * c - p.0 * s)
        == p.0 * p.0 + p.2 * p.2) by (nonlinear_arith)
        requires s * s + c * c == 1;
}

/// Rotation about the Z axis preserves the squared Euclidean norm whenever
/// `(s, c)` lies on the unit circle.
proof fn lemma_about_z_preserves_square_norm(s: int, c: int, p: (int, int, int))
    requires
        s * s + c * c == 1,
    ensures
        ({
            let q = rotate_about_z(s, c, p);
            q.0 * q.0 + q.1 * q.1 + q.2 * q.2 == p.0 * p.0 + p.1 * p.1 + p.2 * p.2
        }),
{
    assert((p.0 * c - p.1 * s) * (p.0 * c - p.1 * s) + (p.0 * s + p.1 * c) * (p.0 * s + p.1 * c)
        == p.0 * p.0 + p.1 * p.1) by (nonlinear_arith)
        requires s * s + c * c == 1;
}

/// Rotations are norm-preserving: whenever each (sine, cosine) pair lies on
/// the unit circle, the rotated point's squared Euclidean norm equals the
/// squared norm of the input point.
pub proof fn lemma_rotation_preserves_square_norm(
    sa: int, ca: int, sb: int, cb: int, sc: int, cc: int,
    i: int, j: int, k: int,
)
    requires
        sa * sa + ca * ca == 1,
        sb * sb + cb * cb == 1,
        sc * sc + cc * cc == 1,
    ensures
        ({
            let x = rotated_x(sa, ca, sb, cb, sc, cc, i, j, k);
            let y = rotated_y(sa, ca, sb, cb, sc, cc, i, j, k);
            let z = rotated_z(sa, ca, sb, cb, sc, cc, i, j, k);
            x * x + y * y + z * z == i * i + j * j + k * k
        }),
{
    let p1 = rotate_about_x(sa, ca, (i, j, k));
    let p2 = rotate_about_y(sb, cb, p1);
    lemma_about_x_preserves_square_norm(sa, ca, (i, j, k));
    lemma_about_y_preserves_square_norm(sb, cb, p1);
    lemma_about_z_preserves_square_norm(sc, cc, p2);
    lemma_closed_form_is_composition(sa, ca, sb, cb, sc, cc, i, j, k);
}

} // verus!
