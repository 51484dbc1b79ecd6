//! Conservative axis-aligned bounding boxes whose extents may be infinite.
//!
//! Extents are extended fixed-point scalars with explicit branches for the
//! infinities; in particular a zero matrix coefficient times an infinite
//! extent is zero, so a rotated or scaled infinite box never turns into an
//! undefined value. An empty overlap is representable as a box whose lower
//! bound exceeds its upper bound on some axis; nothing downstream fails on it.

use vstd::prelude::*;
use crate::fx::{fx_add, fx_add_s, fx_mul, fx_mul_s};
use crate::vec3::Vector;
use crate::xform::Rot3;

verus! {

/// A fixed-point scalar extended with both infinities.
#[derive(Clone, Copy, PartialEq, Eq, Structural, Debug)]
pub enum Ext {
    NegInf,
    Fin(i64),
    PosInf,
}

/// One extended extent per axis.
#[derive(Clone, Copy, PartialEq, Eq, Structural, Debug)]
pub struct ExtVector {
    pub x: Ext,
    pub y: Ext,
    pub z: Ext,
}

/// An axis-aligned box, conservative for the solid it bounds.
#[derive(Clone, Copy, PartialEq, Eq, Structural, Debug)]
pub struct BoundingBox {
    pub lo: ExtVector,
    pub hi: ExtVector,
}

pub open spec fn ext_le_s(a: Ext, b: Ext) -> bool {
    match (a, b) {
        (Ext::NegInf, _) => true,
        (_, Ext::PosInf) => true,
        (Ext::Fin(u), Ext::Fin(v)) => u <= v,
        _ => false,
    }
}

pub open spec fn ext_min_s(a: Ext, b: Ext) -> Ext {
    if ext_le_s(a, b) {
        a
    } else {
        b
    }
}

pub open spec fn ext_max_s(a: Ext, b: Ext) -> Ext {
    if ext_le_s(a, b) {
        b
    } else {
        a
    }
}

/// Addition with explicit infinity branches. The two opposite infinities
/// never meet under the box operations of this crate; that branch is closed
/// off with zero to keep the operation total.
pub open spec fn ext_add_s(a: Ext, b: Ext) -> Ext {
    match (a, b) {
        (Ext::Fin(u), Ext::Fin(v)) => Ext::Fin(fx_add_s(u as int, v as int) as i64),
        (Ext::NegInf, Ext::PosInf) => Ext::Fin(0),
        (Ext::PosInf, Ext::NegInf) => Ext::Fin(0),
        (Ext::NegInf, _) => Ext::NegInf,
        (_, Ext::NegInf) => Ext::NegInf,
        _ => Ext::PosInf,
    }
}

/// A finite coefficient times an extent, with the zero-times-infinity-is-zero
/// convention.
pub open spec fn ext_mul_fx_s(k: int, e: Ext) -> Ext {
    if k == 0 {
        Ext::Fin(0)
    } else {
        match e {
            Ext::Fin(v) => Ext::Fin(fx_mul_s(k, v as int) as i64),
            Ext::PosInf => if k > 0 {
                Ext::PosInf
            } else {
                Ext::NegInf
            },
            Ext::NegInf => if k > 0 {
                Ext::NegInf
            } else {
                Ext::PosInf
            },
        }
    }
}

pub fn ext_min(a: Ext, b: Ext) -> (r: Ext)
    ensures
        r == ext_min_s(a, b),
{
    match (a, b) {
        (Ext::NegInf, _) => Ext::NegInf,
        (Ext::Fin(u), Ext::NegInf) => Ext::NegInf,
        (Ext::Fin(u), Ext::Fin(v)) => if u <= v {
            Ext::Fin(u)
        } else {
            Ext::Fin(v)
        },
        (Ext::Fin(u), Ext::PosInf) => Ext::Fin(u),
        (Ext::PosInf, other) => other,
    }
}

pub fn ext_max(a: Ext, b: Ext) -> (r: Ext)
    ensures
        r == ext_max_s(a, b),
{
    match (a, b) {
        (Ext::PosInf, _) => Ext::PosInf,
        (Ext::Fin(u), Ext::PosInf) => Ext::PosInf,
        (Ext::Fin(u), Ext::Fin(v)) => if u <= v {
            Ext::Fin(v)
        } else {
            Ext::Fin(u)
        },
        (Ext::Fin(u), Ext::NegInf) => Ext::Fin(u),
        (Ext::NegInf, other) => other,
    }
}

pub fn ext_add(a: Ext, b: Ext) -> (r: Ext)
    ensures
        r == ext_add_s(a, b),
{
    match (a, b) {
        (Ext::Fin(u), Ext::Fin(v)) => Ext::Fin(fx_add(u, v)),
        (Ext::NegInf, Ext::PosInf) => Ext::Fin(0),
        (Ext::PosInf, Ext::NegInf) => Ext::Fin(0),
        (Ext::NegInf, _) => Ext::NegInf,
        (Ext::Fin(u), Ext::NegInf) => Ext::NegInf,
        _ => Ext::PosInf,
    }
}

pub fn ext_mul_fx(k: i64, e: Ext) -> (r: Ext)
    ensures
        r == ext_mul_fx_s(k as int, e),
{
    if k == 0 {
        Ext::Fin(0)
    } else {
        match e {
            Ext::Fin(v) => Ext::Fin(fx_mul(k, v)),
            Ext::PosInf => if k > 0 {
                Ext::PosInf
            } else {
                Ext::NegInf
            },
            Ext::NegInf => if k > 0 {
                Ext::NegInf
            } else {
                Ext::PosInf
            },
        }
    }
}

/// The box that bounds nothing out: infinite on every axis.
pub open spec fn bb_infinite_s() -> BoundingBox {
    BoundingBox {
        lo: ExtVector { x: Ext::NegInf, y: Ext::NegInf, z: Ext::NegInf },
        hi: ExtVector { x: Ext::PosInf, y: Ext::PosInf, z: Ext::PosInf },
    }
}

/// Axis-wise merge: bounds the union of the two solids.
pub open spec fn bb_union_s(a: BoundingBox, b: BoundingBox) -> BoundingBox {
    BoundingBox {
        lo: ExtVector {
            x: ext_min_s(a.lo.x, b.lo.x),
            y: ext_min_s(a.lo.y, b.lo.y),
            z: ext_min_s(a.lo.z, b.lo.z),
        },
        hi: ExtVector {
            x: ext_max_s(a.hi.x, b.hi.x),
            y: ext_max_s(a.hi.y, b.hi.y),
            z: ext_max_s(a.hi.z, b.hi.z),
        },
    }
}

/// Axis-wise overlap: bounds the intersection; an axis without overlap
/// leaves a degenerate empty box.
pub open spec fn bb_intersect_s(a: BoundingBox, b: BoundingBox) -> BoundingBox {
    BoundingBox {
        lo: ExtVector {
            x: ext_max_s(a.lo.x, b.lo.x),
            y: ext_max_s(a.lo.y, b.lo.y),
            z: ext_max_s(a.lo.z, b.lo.z),
        },
        hi: ExtVector {
            x: ext_min_s(a.hi.x, b.hi.x),
            y: ext_min_s(a.hi.y, b.hi.y),
            z: ext_min_s(a.hi.z, b.hi.z),
        },
    }
}

pub open spec fn bb_translate_s(b: BoundingBox, v: Vector) -> BoundingBox {
    BoundingBox {
        lo: ExtVector {
            x: ext_add_s(b.lo.x, Ext::Fin(v.x)),
            y: ext_add_s(b.lo.y, Ext::Fin(v.y)),
            z: ext_add_s(b.lo.z, Ext::Fin(v.z)),
        },
        hi: ExtVector {
            x: ext_add_s(b.hi.x, Ext::Fin(v.x)),
            y: ext_add_s(b.hi.y, Ext::Fin(v.y)),
            z: ext_add_s(b.hi.z, Ext::Fin(v.z)),
        },
    }
}

/// Per-axis interval scaled by a fixed-point factor (min/max of the two
/// endpoint products, so negative or zero factors stay conservative).
pub open spec fn bb_scale_s(b: BoundingBox, f: Vector) -> BoundingBox {
    BoundingBox {
        lo: ExtVector {
            x: ext_min_s(ext_mul_fx_s(f.x as int, b.lo.x), ext_mul_fx_s(f.x as int, b.hi.x)),
            y: ext_min_s(ext_mul_fx_s(f.y as int, b.lo.y), ext_mul_fx_s(f.y as int, b.hi.y)),
            z: ext_min_s(ext_mul_fx_s(f.z as int, b.lo.z), ext_mul_fx_s(f.z as int, b.hi.z)),
        },
        hi: ExtVector {
            x: ext_max_s(ext_mul_fx_s(f.x as int, b.lo.x), ext_mul_fx_s(f.x as int, b.hi.x)),
            y: ext_max_s(ext_mul_fx_s(f.y as int, b.lo.y), ext_mul_fx_s(f.y as int, b.hi.y)),
            z: ext_max_s(ext_mul_fx_s(f.z as int, b.lo.z), ext_mul_fx_s(f.z as int, b.hi.z)),
        },
    }
}

/// One output axis of a rotated box: the row's coefficients against the
/// per-axis intervals, in interval arithmetic (this is the envelope of the
/// transformed corners).
pub open spec fn bb_row_lo_s(row: Vector, b: BoundingBox) -> Ext {
    ext_add_s(
        ext_add_s(
            ext_min_s(ext_mul_fx_s(row.x as int, b.lo.x), ext_mul_fx_s(row.x as int, b.hi.x)),
            ext_min_s(ext_mul_fx_s(row.y as int, b.lo.y), ext_mul_fx_s(row.y as int, b.hi.y)),
        ),
        ext_min_s(ext_mul_fx_s(row.z as int, b.lo.z), ext_mul_fx_s(row.z as int, b.hi.z)),
    )
}

pub open spec fn bb_row_hi_s(row: Vector, b: BoundingBox) -> Ext {
    ext_add_s(
        ext_add_s(
            ext_max_s(ext_mul_fx_s(row.x as int, b.lo.x), ext_mul_fx_s(row.x as int, b.hi.x)),
            ext_max_s(ext_mul_fx_s(row.y as int, b.lo.y), ext_mul_fx_s(row.y as int, b.hi.y)),
        ),
        ext_max_s(ext_mul_fx_s(row.z as int, b.lo.z), ext_mul_fx_s(row.z as int, b.hi.z)),
    )
}

/// Envelope of a box under a matrix with rows `m.rx`, `m.ry`, `m.rz`.
pub open spec fn bb_rotate_s(b: BoundingBox, m: Rot3) -> BoundingBox {
    BoundingBox {
        lo: ExtVector {
            x: bb_row_lo_s(m.rx, b),
            y: bb_row_lo_s(m.ry, b),
            z: bb_row_lo_s(m.rz, b),
        },
        hi: ExtVector {
            x: bb_row_hi_s(m.rx, b),
            y: bb_row_hi_s(m.ry, b),
            z: bb_row_hi_s(m.rz, b),
        },
    }
}

pub fn bb_infinite() -> (r: BoundingBox)
    ensures
        r == bb_infinite_s(),
{
    BoundingBox {
        lo: ExtVector { x: Ext::NegInf, y: Ext::NegInf, z: Ext::NegInf },
        hi: ExtVector { x: Ext::PosInf, y: Ext::PosInf, z: Ext::PosInf },
    }
}

pub fn bb_union(a: &BoundingBox, b: &BoundingBox) -> (r: BoundingBox)
    ensures
        r == bb_union_s(*a, *b),
{
    BoundingBox {
        lo: ExtVector {
            x: ext_min(a.lo.x, b.lo.x),
            y: ext_min(a.lo.y, b.lo.y),
            z: ext_min(a.lo.z, b.lo.z),
        },
        hi: ExtVector {
            x: ext_max(a.hi.x, b.hi.x),
            y: ext_max(a.hi.y, b.hi.y),
            z: ext_max(a.hi.z, b.hi.z),
        },
    }
}

pub fn bb_intersect(a: &BoundingBox, b: &BoundingBox) -> (r: BoundingBox)
    ensures
        r == bb_intersect_s(*a, *b),
{
    BoundingBox {
        lo: ExtVector {
            x: ext_max(a.lo.x, b.lo.x),
            y: ext_max(a.lo.y, b.lo.y),
            z: ext_max(a.lo.z, b.lo.z),
        },
        hi: ExtVector {
            x: ext_min(a.hi.x, b.hi.x),
            y: ext_min(a.hi.y, b.hi.y),
            z: ext_min(a.hi.z, b.hi.z),
        },
    }
}

pub fn bb_translate(b: &BoundingBox, v: Vector) -> (r: BoundingBox)
    ensures
        r == bb_translate_s(*b, v),
{
    BoundingBox {
        lo: ExtVector {
            x: ext_add(b.lo.x, Ext::Fin(v.x)),
            y: ext_add(b.lo.y, Ext::Fin(v.y)),
            z: ext_add(b.lo.z, Ext::Fin(v.z)),
        },
        hi: ExtVector {
            x: ext_add(b.hi.x, Ext::Fin(v.x)),
            y: ext_add(b.hi.y, Ext::Fin(v.y)),
            z: ext_add(b.hi.z, Ext::Fin(v.z)),
        },
    }
}

pub fn bb_scale(b: &BoundingBox, f: Vector) -> (r: BoundingBox)
    ensures
        r == bb_scale_s(*b, f),
{
    BoundingBox {
        lo: ExtVector {
            x: ext_min(ext_mul_fx(f.x, b.lo.x), ext_mul_fx(f.x, b.hi.x)),
            y: ext_min(ext_mul_fx(f.y, b.lo.y), ext_mul_fx(f.y, b.hi.y)),
            z: ext_min(ext_mul_fx(f.z, b.lo.z), ext_mul_fx(f.z, b.hi.z)),
        },
        hi: ExtVector {
            x: ext_max(ext_mul_fx(f.x, b.lo.x), ext_mul_fx(f.x, b.hi.x)),
            y: ext_max(ext_mul_fx(f.y, b.lo.y), ext_mul_fx(f.y, b.hi.y)),
            z: ext_max(ext_mul_fx(f.z, b.lo.z), ext_mul_fx(f.z, b.hi.z)),
        },
    }
}

fn bb_row_lo(row: Vector, b: &BoundingBox) -> (r: Ext)
    ensures
        r == bb_row_lo_s(row, *b),
{
    ext_add(
        ext_add(
            ext_min(ext_mul_fx(row.x, b.lo.x), ext_mul_fx(row.x, b.hi.x)),
            ext_min(ext_mul_fx(row.y, b.lo.y), ext_mul_fx(row.y, b.hi.y)),
        ),
        ext_min(ext_mul_fx(row.z, b.lo.z), ext_mul_fx(row.z, b.hi.z)),
    )
}

fn bb_row_hi(row: Vector, b: &BoundingBox) -> (r: Ext)
    ensures
        r == bb_row_hi_s(row, *b),
{
    ext_add(
        ext_add(
            ext_max(ext_mul_fx(row.x, b.lo.x), ext_mul_fx(row.x, b.hi.x)),
            ext_max(ext_mul_fx(row.y, b.lo.y), ext_mul_fx(row.y, b.hi.y)),
        ),
        ext_max(ext_mul_fx(row.z, b.lo.z), ext_mul_fx(row.z, b.hi.z)),
    )
}

pub fn bb_rotate(b: &BoundingBox, m: &Rot3) -> (r: BoundingBox)
    ensures
        r == bb_rotate_s(*b, *m),
{
    BoundingBox {
        lo: ExtVector {
            x: bb_row_lo(m.rx, b),
            y: bb_row_lo(m.ry, b),
            z: bb_row_lo(m.rz, b),
        },
        hi: ExtVector {
            x: bb_row_hi(m.rx, b),
            y: bb_row_hi(m.ry, b),
            z: bb_row_hi(m.rz, b),
        },
    }
}

} // verus!
