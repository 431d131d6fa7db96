//! Placement of transform and projection coefficients in matrix storage.
//!
//! Each 4x4 matrix constructor of the library computes a handful of scalar
//! coefficients and writes them at fixed (column, row) positions of a base
//! matrix, leaving the rest of the base untouched. The functions here carry
//! out those writes over the flat storage of [`crate::layout`], and their
//! contracts pin down both where every coefficient lands and that no other
//! entry moves — the part of a matrix constructor where a column-major /
//! row-major mix-up would hide.

use vstd::prelude::*;

use crate::layout::cr;
use crate::layout::flat_index;

verus! {

/// Writes `t` into the translation column (column 3, rows 0..3).
pub fn with_translation<T: Copy>(base: &[T; 16], t: &[T; 3]) -> (out: [T; 16])
    ensures
        out@[flat_index(3, 0)] == t@[0],
        out@[flat_index(3, 1)] == t@[1],
        out@[flat_index(3, 2)] == t@[2],
        forall|c: int, r: int|
            0 <= c < 4 && 0 <= r < 4 && !(c == 3 && r < 3) ==> out@[flat_index(c, r)]
                == base@[flat_index(c, r)],
{
    let mut out: [T; 16] = *base;
    out[cr(3, 0)] = t[0];
    out[cr(3, 1)] = t[1];
    out[cr(3, 2)] = t[2];
    out
}

/// Writes `s` onto the upper 3x3 diagonal.
pub fn with_diagonal<T: Copy>(base: &[T; 16], s: &[T; 3]) -> (out: [T; 16])
    ensures
        out@[flat_index(0, 0)] == s@[0],
        out@[flat_index(1, 1)] == s@[1],
        out@[flat_index(2, 2)] == s@[2],
        forall|c: int, r: int|
            0 <= c < 4 && 0 <= r < 4 && !(c == r && c < 3) ==> out@[flat_index(c, r)]
                == base@[flat_index(c, r)],
{
    let mut out: [T; 16] = *base;
    out[cr(0, 0)] = s[0];
    out[cr(1, 1)] = s[1];
    out[cr(2, 2)] = s[2];
    out
}

/// Writes three basis vectors into the columns of the upper 3x3 block:
/// `right` into column 0, `up` into column 1, `forward` into column 2.
pub fn with_basis_columns<T: Copy>(
    base: &[T; 16],
    right: &[T; 3],
    up: &[T; 3],
    forward: &[T; 3],
) -> (out: [T; 16])
    ensures
        forall|r: int| 0 <= r < 3 ==> out@[flat_index(0, r)] == right@[r],
        forall|r: int| 0 <= r < 3 ==> out@[flat_index(1, r)] == up@[r],
        forall|r: int| 0 <= r < 3 ==> out@[flat_index(2, r)] == forward@[r],
        forall|c: int, r: int|
            0 <= c < 4 && 0 <= r < 4 && !(c < 3 && r < 3) ==> out@[flat_index(c, r)]
                == base@[flat_index(c, r)],
{
    let mut out: [T; 16] = *base;
    out[cr(0, 0)] = right[0];
    out[cr(0, 1)] = right[1];
    out[cr(0, 2)] = right[2];
    out[cr(1, 0)] = up[0];
    out[cr(1, 1)] = up[1];
    out[cr(1, 2)] = up[2];
    out[cr(2, 0)] = forward[0];
    out[cr(2, 1)] = forward[1];
    out[cr(2, 2)] = forward[2];
    out
}

/// Writes the six coefficients of an orthographic projection: the per-axis
/// scales `m00`, `m11`, `m22` and the per-axis offsets `m30`, `m31`, `m32`
/// (column 3 holds the offsets).
pub fn with_orthographic_terms<T: Copy>(
    base: &[T; 16],
    m00: T,
    m30: T,
    m11: T,
    m31: T,
    m22: T,
    m32: T,
) -> (out: [T; 16])
    ensures
        out@[flat_index(0, 0)] == m00,
        out@[flat_index(3, 0)] == m30,
        out@[flat_index(1, 1)] == m11,
        out@[flat_index(3, 1)] == m31,
        out@[flat_index(2, 2)] == m22,
        out@[flat_index(3, 2)] == m32,
        forall|c: int, r: int|
            0 <= c < 4 && 0 <= r < 4 && !(c == r && c < 3) && !(c == 3 && r < 3) ==> out@[flat_index(
                c,
                r,
            )] == base@[flat_index(c, r)],
{
    let mut out: [T; 16] = *base;
    out[cr(0, 0)] = m00;
    out[cr(3, 0)] = m30;
    out[cr(1, 1)] = m11;
    out[cr(3, 1)] = m31;
    out[cr(2, 2)] = m22;
    out[cr(3, 2)] = m32;
    out
}

/// Writes the six coefficients of a perspective projection (or of its
/// closed-form inverse, which touches the same six entries): the two focal
/// scales `m00` and `m11`, the depth terms `m22` and `m32`, and the
/// homogeneous row entries `m23` and `m33`.
pub fn with_perspective_terms<T: Copy>(
    base: &[T; 16],
    m00: T,
    m11: T,
    m22: T,
    m32: T,
    m23: T,
    m33: T,
) -> (out: [T; 16])
    ensures
        out@[flat_index(0, 0)] == m00,
        out@[flat_index(1, 1)] == m11,
        out@[flat_index(2, 2)] == m22,
        out@[flat_index(3, 2)] == m32,
        out@[flat_index(2, 3)] == m23,
        out@[flat_index(3, 3)] == m33,
        forall|c: int, r: int|
            0 <= c < 4 && 0 <= r < 4 && !(c == r) && !(c == 3 && r == 2) && !(c == 2 && r == 3)
                ==> out@[flat_index(c, r)] == base@[flat_index(c, r)],
{
    let mut out: [T; 16] = *base;
    out[cr(0, 0)] = m00;
    out[cr(1, 1)] = m11;
    out[cr(2, 2)] = m22;
    out[cr(3, 2)] = m32;
    out[cr(2, 3)] = m23;
    out[cr(3, 3)] = m33;
    out
}

} // verus!
