//! Fixed-point 3x3 rotation matrices and affine view transforms.

use vstd::prelude::*;
use crate::fx::FX_ONE;
use crate::trig::{cos_fx, cos_fx_s, sin_fx, sin_fx_s};
use crate::vec3::{dot, dot_s, vadd, vadd_s, Vector};

verus! {

/// A 3x3 matrix of fixed-point entries, stored as its three rows.
#[derive(Clone, Copy, PartialEq, Eq, Structural, Debug)]
pub struct Rot3 {
    pub rx: Vector,
    pub ry: Vector,
    pub rz: Vector,
}

/// An affine transform: a matrix part and a translation part.
#[derive(Clone, Copy, PartialEq, Eq, Structural, Debug)]
pub struct Affine {
    pub rot: Rot3,
    pub trans: Vector,
}

pub open spec fn rot_identity_s() -> Rot3 {
    Rot3 {
        rx: Vector { x: FX_ONE, y: 0, z: 0 },
        ry: Vector { x: 0, y: FX_ONE, z: 0 },
        rz: Vector { x: 0, y: 0, z: FX_ONE },
    }
}

/// Matrix times vector, row by row.
pub open spec fn rot_apply_s(r: Rot3, v: Vector) -> Vector {
    Vector { x: dot_s(r.rx, v) as i64, y: dot_s(r.ry, v) as i64, z: dot_s(r.rz, v) as i64 }
}

/// The transpose; for a rotation matrix this is its inverse.
pub open spec fn rot_transpose_s(r: Rot3) -> Rot3 {
    Rot3 {
        rx: Vector { x: r.rx.x, y: r.ry.x, z: r.rz.x },
        ry: Vector { x: r.rx.y, y: r.ry.y, z: r.rz.y },
        rz: Vector { x: r.rx.z, y: r.ry.z, z: r.rz.z },
    }
}

/// Matrix product `a * b`: the rows of `a` against the columns of `b`.
pub open spec fn rot_compose_s(a: Rot3, b: Rot3) -> Rot3 {
    let bt = rot_transpose_s(b);
    Rot3 {
        rx: Vector {
            x: dot_s(a.rx, bt.rx) as i64,
            y: dot_s(a.rx, bt.ry) as i64,
            z: dot_s(a.rx, bt.rz) as i64,
        },
        ry: Vector {
            x: dot_s(a.ry, bt.rx) as i64,
            y: dot_s(a.ry, bt.ry) as i64,
            z: dot_s(a.ry, bt.rz) as i64,
        },
        rz: Vector {
            x: dot_s(a.rz, bt.rx) as i64,
            y: dot_s(a.rz, bt.ry) as i64,
            z: dot_s(a.rz, bt.rz) as i64,
        },
    }
}

/// Rotation about the x axis by a fixed-point angle in radians.
pub open spec fn rot_x_s(angle: int) -> Rot3 {
    let c = cos_fx_s(angle) as i64;
    let s = sin_fx_s(angle) as i64;
    Rot3 {
        rx: Vector { x: FX_ONE, y: 0, z: 0 },
        ry: Vector { x: 0, y: c, z: (-s) as i64 },
        rz: Vector { x: 0, y: s, z: c },
    }
}

/// Rotation about the y axis by a fixed-point angle in radians.
pub open spec fn rot_y_s(angle: int) -> Rot3 {
    let c = cos_fx_s(angle) as i64;
    let s = sin_fx_s(angle) as i64;
    Rot3 {
        rx: Vector { x: c, y: 0, z: s },
        ry: Vector { x: 0, y: FX_ONE, z: 0 },
        rz: Vector { x: (-s) as i64, y: 0, z: c },
    }
}

/// Rotation about the z axis by a fixed-point angle in radians.
pub open spec fn rot_z_s(angle: int) -> Rot3 {
    let c = cos_fx_s(angle) as i64;
    let s = sin_fx_s(angle) as i64;
    Rot3 {
        rx: Vector { x: c, y: (-s) as i64, z: 0 },
        ry: Vector { x: s, y: c, z: 0 },
        rz: Vector { x: 0, y: 0, z: FX_ONE },
    }
}

/// Euler rotation in the fixed axis order: first about y, then about x.
pub open spec fn rot_euler_s(ax: int, ay: int) -> Rot3 {
    rot_compose_s(rot_x_s(ax), rot_y_s(ay))
}

/// Euler rotation from three angles, applied in the fixed order x, y, z.
pub open spec fn rot_xyz_s(ax: int, ay: int, az: int) -> Rot3 {
    rot_compose_s(rot_z_s(az), rot_compose_s(rot_y_s(ay), rot_x_s(ax)))
}

pub open spec fn affine_identity_s() -> Affine {
    Affine { rot: rot_identity_s(), trans: Vector { x: 0, y: 0, z: 0 } }
}

/// Composition `a * b`: `b` is applied first.
pub open spec fn affine_compose_s(a: Affine, b: Affine) -> Affine {
    Affine {
        rot: rot_compose_s(a.rot, b.rot),
        trans: vadd_s(rot_apply_s(a.rot, b.trans), a.trans),
    }
}

/// A direction ignores the translation part.
pub open spec fn affine_apply_vec_s(a: Affine, v: Vector) -> Vector {
    rot_apply_s(a.rot, v)
}

/// A point is rotated, then translated.
pub open spec fn affine_apply_point_s(a: Affine, p: Vector) -> Vector {
    vadd_s(rot_apply_s(a.rot, p), a.trans)
}

pub fn rot_identity() -> (r: Rot3)
    ensures
        r == rot_identity_s(),
{
    Rot3 {
        rx: Vector { x: FX_ONE, y: 0, z: 0 },
        ry: Vector { x: 0, y: FX_ONE, z: 0 },
        rz: Vector { x: 0, y: 0, z: FX_ONE },
    }
}

pub fn rot_apply(r: &Rot3, v: Vector) -> (w: Vector)
    ensures
        w == rot_apply_s(*r, v),
{
    Vector { x: dot(r.rx, v), y: dot(r.ry, v), z: dot(r.rz, v) }
}

pub fn rot_transpose(r: &Rot3) -> (t: Rot3)
    ensures
        t == rot_transpose_s(*r),
{
    Rot3 {
        rx: Vector { x: r.rx.x, y: r.ry.x, z: r.rz.x },
        ry: Vector { x: r.rx.y, y: r.ry.y, z: r.rz.y },
        rz: Vector { x: r.rx.z, y: r.ry.z, z: r.rz.z },
    }
}

pub fn rot_compose(a: &Rot3, b: &Rot3) -> (c: Rot3)
    ensures
        c == rot_compose_s(*a, *b),
{
    let bt = rot_transpose(b);
    Rot3 {
        rx: Vector { x: dot(a.rx, bt.rx), y: dot(a.rx, bt.ry), z: dot(a.rx, bt.rz) },
        ry: Vector { x: dot(a.ry, bt.rx), y: dot(a.ry, bt.ry), z: dot(a.ry, bt.rz) },
        rz: Vector { x: dot(a.rz, bt.rx), y: dot(a.rz, bt.ry), z: dot(a.rz, bt.rz) },
    }
}

pub fn rot_x(angle: i64) -> (r: Rot3)
    ensures
        r == rot_x_s(angle as int),
{
    let c: i64 = cos_fx(angle);
    let s: i64 = sin_fx(angle);
    Rot3 {
        rx: Vector { x: FX_ONE, y: 0, z: 0 },
        ry: Vector { x: 0, y: c, z: -s },
        rz: Vector { x: 0, y: s, z: c },
    }
}

pub fn rot_y(angle: i64) -> (r: Rot3)
    ensures
        r == rot_y_s(angle as int),
{
    let c: i64 = cos_fx(angle);
    let s: i64 = sin_fx(angle);
    Rot3 {
        rx: Vector { x: c, y: 0, z: s },
        ry: Vector { x: 0, y: FX_ONE, z: 0 },
        rz: Vector { x: -s, y: 0, z: c },
    }
}

pub fn rot_z(angle: i64) -> (r: Rot3)
    ensures
        r == rot_z_s(angle as int),
{
    let c: i64 = cos_fx(angle);
    let s: i64 = sin_fx(angle);
    Rot3 {
        rx: Vector { x: c, y: -s, z: 0 },
        ry: Vector { x: s, y: c, z: 0 },
        rz: Vector { x: 0, y: 0, z: FX_ONE },
    }
}

pub fn rot_euler(ax: i64, ay: i64) -> (r: Rot3)
    ensures
        r == rot_euler_s(ax as int, ay as int),
{
    let mx = rot_x(ax);
    let my = rot_y(ay);
    rot_compose(&mx, &my)
}

pub fn rot_xyz(ax: i64, ay: i64, az: i64) -> (r: Rot3)
    ensures
        r == rot_xyz_s(ax as int, ay as int, az as int),
{
    let mx = rot_x(ax);
    let my = rot_y(ay);
    let mz = rot_z(az);
    let myx = rot_compose(&my, &mx);
    rot_compose(&mz, &myx)
}

pub fn affine_identity() -> (a: Affine)
    ensures
        a == affine_identity_s(),
{
    Affine { rot: rot_identity(), trans: Vector { x: 0, y: 0, z: 0 } }
}

pub fn affine_from_translation(v: Vector) -> (a: Affine)
    ensures
        a == (Affine { rot: rot_identity_s(), trans: v }),
{
    Affine { rot: rot_identity(), trans: v }
}

pub fn affine_from_rot(r: Rot3) -> (a: Affine)
    ensures
        a == (Affine { rot: r, trans: Vector { x: 0, y: 0, z: 0 } }),
{
    Affine { rot: r, trans: Vector { x: 0, y: 0, z: 0 } }
}

pub fn affine_compose(a: &Affine, b: &Affine) -> (c: Affine)
    ensures
        c == affine_compose_s(*a, *b),
{
    Affine {
        rot: rot_compose(&a.rot, &b.rot),
        trans: vadd(rot_apply(&a.rot, b.trans), a.trans),
    }
}

pub fn affine_apply_vec(a: &Affine, v: Vector) -> (w: Vector)
    ensures
        w == affine_apply_vec_s(*a, v),
{
    rot_apply(&a.rot, v)
}

pub fn affine_apply_point(a: &Affine, p: Vector) -> (q: Vector)
    ensures
        q == affine_apply_point_s(*a, p),
{
    vadd(rot_apply(&a.rot, p), a.trans)
}

} // verus!
