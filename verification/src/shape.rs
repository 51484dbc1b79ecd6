//! The implicit-solid tree: leaf primitives, boolean combinators and spatial
//! wrappers, with a verified signed-distance evaluator.
//!
//! `spec_dist` is the mathematical definition of the field; `distance` is
//! proved to compute it. The field of every node is (approximately)
//! 1-Lipschitz so that sphere tracing may step by the field value; the two
//! nonlinear warps (`Bend`, `Twist`) distort the metric, so their fields are
//! halved as a conservative step-safety factor.

use vstd::prelude::*;
use crate::bbox::{
    bb_infinite, bb_infinite_s, bb_intersect, bb_intersect_s, bb_rotate, bb_rotate_s, bb_scale,
    bb_scale_s, bb_translate, bb_translate_s, bb_union, bb_union_s, BoundingBox, Ext, ExtVector,
};
use crate::fx::{
    abs_i, abs_u64, fx_add_s, fx_div, fx_div_s, fx_max, fx_min, fx_mul, fx_mul_s, fx_neg,
    fx_neg_s, fx_smax, fx_smax_s, fx_smin, fx_smin_s, fx_sub, fx_sub_s, lemma_sqrt_floor,
    lemma_sqrt_unique, max_i, min_i, sqrt_floor, FX_MAX, FX_ONE,
};
use crate::trig::{cos_fx, cos_fx_s, sin_fx, sin_fx_s, TAU_FX};
use crate::vec3::{
    norm, norm2, norm2_s, norm_s, normalize, normalize_s, sq_s, vadd_s, vdiv, vdiv_s, vneg_s,
    vsub, vsub_s, Vector,
};
use crate::xform::{rot_apply, rot_apply_s, rot_transpose, rot_transpose_s, rot_xyz, rot_xyz_s,
    Rot3};

verus! {

/// A coordinate axis, naming the finite direction of a slab.
#[derive(Clone, Copy, PartialEq, Eq, Structural, Debug)]
pub enum Axis {
    X,
    Y,
    Z,
}

/// A solid as a closed tree of signed-distance fields.
///
/// Leaves: a sphere of given radius; a cylinder of given radius, infinite
/// along z; an infinite cone of given slope whose apex sits at `offset` on
/// the z axis; a slab of given half-width, infinite along the two other
/// axes. Combinators take exactly two children (wider combinations are
/// folded) and a blend radius, 0 for the sharp minimum or maximum.
/// `Complement` negates a field, which turns an intersection into a
/// difference. Wrappers remap the query point and delegate to one child;
/// `Bounded` only overrides the reported bounding box. A built subtree can
/// be cloned and reused by several combinators.
pub enum Shape {
    Sphere { radius: i64 },
    Cylinder { radius: i64 },
    Cone { slope: i64, offset: i64 },
    Slab { axis: Axis, half: i64 },
    Union { a: Box<Shape>, b: Box<Shape>, blend: i64 },
    Intersection { a: Box<Shape>, b: Box<Shape>, blend: i64 },
    Complement { child: Box<Shape> },
    Translate { child: Box<Shape>, offset: Vector },
    Rotate { child: Box<Shape>, inv: Rot3 },
    Scale { child: Box<Shape>, factors: Vector },
    Bend { child: Box<Shape>, width: i64 },
    Twist { child: Box<Shape>, height: i64 },
    Bounded { child: Box<Shape>, bounds: BoundingBox },
}

impl Clone for Shape {
    /// A deep copy, equal to the original: a built subtree can be handed to
    /// several combinators.
    fn clone(&self) -> (res: Self)
        ensures
            res == *self,
        decreases *self,
    {
        match self {
            Shape::Sphere { radius } => Shape::Sphere { radius: *radius },
            Shape::Cylinder { radius } => Shape::Cylinder { radius: *radius },
            Shape::Cone { slope, offset } => Shape::Cone { slope: *slope, offset: *offset },
            Shape::Slab { axis, half } => Shape::Slab { axis: *axis, half: *half },
            Shape::Union { a, b, blend } => Shape::Union {
                a: Box::new((&**a).clone()),
                b: Box::new((&**b).clone()),
                blend: *blend,
            },
            Shape::Intersection { a, b, blend } => Shape::Intersection {
                a: Box::new((&**a).clone()),
                b: Box::new((&**b).clone()),
                blend: *blend,
            },
            Shape::Complement { child } => Shape::Complement {
                child: Box::new((&**child).clone()),
            },
            Shape::Translate { child, offset } => Shape::Translate {
                child: Box::new((&**child).clone()),
                offset: *offset,
            },
            Shape::Rotate { child, inv } => Shape::Rotate {
                child: Box::new((&**child).clone()),
                inv: *inv,
            },
            Shape::Scale { child, factors } => Shape::Scale {
                child: Box::new((&**child).clone()),
                factors: *factors,
            },
            Shape::Bend { child, width } => Shape::Bend {
                child: Box::new((&**child).clone()),
                width: *width,
            },
            Shape::Twist { child, height } => Shape::Twist {
                child: Box::new((&**child).clone()),
                height: *height,
            },
            Shape::Bounded { child, bounds } => Shape::Bounded {
                child: Box::new((&**child).clone()),
                bounds: *bounds,
            },
        }
    }
}

/// Step of the finite-difference gradient, about 0.004 in fixed point.
pub const DELTA: i64 = 256;

/// One half in fixed point; used as the step-safety factor of the warps.
pub const HALF_FX: i64 = 32768;

/// The coordinate of `p` named by `axis`.
pub open spec fn axis_coord_s(axis: Axis, p: Vector) -> int {
    match axis {
        Axis::X => p.x as int,
        Axis::Y => p.y as int,
        Axis::Z => p.z as int,
    }
}

/// `sqrt(1 + slope^2)` in fixed point: the normalization of a cone field.
pub open spec fn cone_den_s(slope: int) -> int {
    norm2_s(FX_ONE as int, slope)
}

/// The bend warp: the x axis is wrapped around a circle of circumference
/// `width` in the x-y plane, of radius `width / tau`; x becomes arc length.
pub open spec fn bend_map_s(p: Vector, width: int) -> Vector {
    let radius = fx_div_s(width, TAU_FX as int);
    let ang = fx_div_s(p.x as int, radius);
    Vector {
        x: fx_mul_s(radius, sin_fx_s(ang)) as i64,
        y: fx_add_s(p.y as int, fx_mul_s(radius, fx_sub_s(FX_ONE as int, cos_fx_s(ang)))) as i64,
        z: p.z,
    }
}

/// The twist warp: the x-y plane is rotated by one turn per `height` of z.
pub open spec fn twist_map_s(p: Vector, height: int) -> Vector {
    let ang = fx_mul_s(fx_div_s(p.z as int, height), TAU_FX as int);
    let c = cos_fx_s(ang);
    let s = sin_fx_s(ang);
    Vector {
        x: fx_sub_s(fx_mul_s(c, p.x as int), fx_mul_s(s, p.y as int)) as i64,
        y: fx_add_s(fx_mul_s(s, p.x as int), fx_mul_s(c, p.y as int)) as i64,
        z: p.z,
    }
}

/// The smallest scale factor, the conservative renormalization of `Scale`.
pub open spec fn min3_s(f: Vector) -> int {
    min_i(min_i(f.x as int, f.y as int), f.z as int)
}

/// The signed distance field of a solid at a point: negative inside,
/// positive outside, in fixed point.
pub open spec fn spec_dist(s: Shape, p: Vector) -> int
    decreases s,
{
    match s {
        Shape::Sphere { radius } => fx_sub_s(norm_s(p), radius as int),
        Shape::Cylinder { radius } => fx_sub_s(norm2_s(p.x as int, p.y as int), radius as int),
        Shape::Cone { slope, offset } => {
            let away = fx_mul_s(slope as int, fx_sub_s(p.z as int, offset as int));
            fx_div_s(
                fx_sub_s(norm2_s(p.x as int, p.y as int), away),
                cone_den_s(slope as int),
            )
        },
        Shape::Slab { axis, half } => {
            let c = axis_coord_s(axis, p);
            fx_sub_s(min_i(abs_i(c), FX_MAX as int), half as int)
        },
        Shape::Union { a, b, blend } => fx_smin_s(
            spec_dist(*a, p),
            spec_dist(*b, p),
            blend as int,
        ),
        Shape::Intersection { a, b, blend } => fx_smax_s(
            spec_dist(*a, p),
            spec_dist(*b, p),
            blend as int,
        ),
        Shape::Complement { child } => fx_neg_s(spec_dist(*child, p)),
        Shape::Translate { child, offset } => spec_dist(*child, vsub_s(p, offset)),
        Shape::Rotate { child, inv } => spec_dist(*child, rot_apply_s(inv, p)),
        Shape::Scale { child, factors } => fx_mul_s(
            spec_dist(*child, vdiv_s(p, factors)),
            min3_s(factors),
        ),
        Shape::Bend { child, width } => fx_mul_s(
            spec_dist(*child, bend_map_s(p, width as int)),
            HALF_FX as int,
        ),
        Shape::Twist { child, height } => fx_mul_s(
            spec_dist(*child, twist_map_s(p, height as int)),
            HALF_FX as int,
        ),
        Shape::Bounded { child, bounds } => spec_dist(*child, p),
    }
}

/// The conservative axis-aligned bounding box of a solid.
pub open spec fn spec_bbox(s: Shape) -> BoundingBox
    decreases s,
{
    match s {
        Shape::Sphere { radius } => BoundingBox {
            lo: ExtVector {
                x: Ext::Fin(fx_neg_s(radius as int) as i64),
                y: Ext::Fin(fx_neg_s(radius as int) as i64),
                z: Ext::Fin(fx_neg_s(radius as int) as i64),
            },
            hi: ExtVector { x: Ext::Fin(radius), y: Ext::Fin(radius), z: Ext::Fin(radius) },
        },
        Shape::Cylinder { radius } => BoundingBox {
            lo: ExtVector {
                x: Ext::Fin(fx_neg_s(radius as int) as i64),
                y: Ext::Fin(fx_neg_s(radius as int) as i64),
                z: Ext::NegInf,
            },
            hi: ExtVector { x: Ext::Fin(radius), y: Ext::Fin(radius), z: Ext::PosInf },
        },
        Shape::Cone { slope, offset } => bb_infinite_s(),
        Shape::Slab { axis, half } => {
            let lo = Ext::Fin(fx_neg_s(half as int) as i64);
            let hi = Ext::Fin(half);
            match axis {
                Axis::X => BoundingBox {
                    lo: ExtVector { x: lo, y: Ext::NegInf, z: Ext::NegInf },
                    hi: ExtVector { x: hi, y: Ext::PosInf, z: Ext::PosInf },
                },
                Axis::Y => BoundingBox {
                    lo: ExtVector { x: Ext::NegInf, y: lo, z: Ext::NegInf },
                    hi: ExtVector { x: Ext::PosInf, y: hi, z: Ext::PosInf },
                },
                Axis::Z => BoundingBox {
                    lo: ExtVector { x: Ext::NegInf, y: Ext::NegInf, z: lo },
                    hi: ExtVector { x: Ext::PosInf, y: Ext::PosInf, z: hi },
                },
            }
        },
        Shape::Union { a, b, blend } => bb_union_s(spec_bbox(*a), spec_bbox(*b)),
        Shape::Intersection { a, b, blend } => bb_intersect_s(spec_bbox(*a), spec_bbox(*b)),
        Shape::Complement { child } => bb_infinite_s(),
        Shape::Translate { child, offset } => bb_translate_s(spec_bbox(*child), offset),
        Shape::Rotate { child, inv } => bb_rotate_s(spec_bbox(*child), rot_transpose_s(inv)),
        Shape::Scale { child, factors } => bb_scale_s(spec_bbox(*child), factors),
        Shape::Bend { child, width } => bb_infinite_s(),
        Shape::Twist { child, height } => bb_infinite_s(),
        Shape::Bounded { child, bounds } => bounds,
    }
}

/// The finite-difference gradient of the field at `p`, normalized.
pub open spec fn spec_normal(s: Shape, p: Vector) -> Vector {
    let dx = Vector { x: DELTA, y: 0, z: 0 };
    let dy = Vector { x: 0, y: DELTA, z: 0 };
    let dz = Vector { x: 0, y: 0, z: DELTA };
    normalize_s(
        Vector {
            x: fx_sub_s(spec_dist(s, vadd_s(p, dx)), spec_dist(s, vsub_s(p, dx))) as i64,
            y: fx_sub_s(spec_dist(s, vadd_s(p, dy)), spec_dist(s, vsub_s(p, dy))) as i64,
            z: fx_sub_s(spec_dist(s, vadd_s(p, dz)), spec_dist(s, vsub_s(p, dz))) as i64,
        },
    )
}

fn bend_map(p: Vector, width: i64) -> (q: Vector)
    ensures
        q == bend_map_s(p, width as int),
{
    let radius: i64 = fx_div(width, TAU_FX);
    let ang: i64 = fx_div(p.x, radius);
    Vector {
        x: fx_mul(radius, sin_fx(ang)),
        y: crate::fx::fx_add(p.y, fx_mul(radius, fx_sub(FX_ONE, cos_fx(ang)))),
        z: p.z,
    }
}

fn twist_map(p: Vector, height: i64) -> (q: Vector)
    ensures
        q == twist_map_s(p, height as int),
{
    let ang: i64 = fx_mul(fx_div(p.z, height), TAU_FX);
    let c: i64 = cos_fx(ang);
    let s: i64 = sin_fx(ang);
    Vector {
        x: fx_sub(fx_mul(c, p.x), fx_mul(s, p.y)),
        y: crate::fx::fx_add(fx_mul(s, p.x), fx_mul(c, p.y)),
        z: p.z,
    }
}

impl Shape {
    /// The signed distance estimate of the field at `p`.
    pub fn distance(&self, p: Vector) -> (r: i64)
        ensures
            r == spec_dist(*self, p),
        decreases *self,
    {
        match self {
            Shape::Sphere { radius } => fx_sub(norm(p), *radius),
            Shape::Cylinder { radius } => fx_sub(norm2(p.x, p.y), *radius),
            Shape::Cone { slope, offset } => {
                let away: i64 = fx_mul(*slope, fx_sub(p.z, *offset));
                fx_div(fx_sub(norm2(p.x, p.y), away), norm2(FX_ONE, *slope))
            },
            Shape::Slab { axis, half } => {
                let c: i64 = match axis {
                    Axis::X => p.x,
                    Axis::Y => p.y,
                    Axis::Z => p.z,
                };
                let m: u64 = abs_u64(c);
                let a: i64 = if m > FX_MAX as u64 {
                    FX_MAX
                } else {
                    m as i64
                };
                fx_sub(a, *half)
            },
            Shape::Union { a, b, blend } => fx_smin(a.distance(p), b.distance(p), *blend),
            Shape::Intersection { a, b, blend } => fx_smax(a.distance(p), b.distance(p), *blend),
            Shape::Complement { child } => fx_neg(child.distance(p)),
            Shape::Translate { child, offset } => child.distance(vsub(p, *offset)),
            Shape::Rotate { child, inv } => child.distance(rot_apply(inv, p)),
            Shape::Scale { child, factors } => {
                let q = vdiv(p, *factors);
                fx_mul(child.distance(q), fx_min(fx_min(factors.x, factors.y), factors.z))
            },
            Shape::Bend { child, width } => fx_mul(child.distance(bend_map(p, *width)), HALF_FX),
            Shape::Twist { child, height } => fx_mul(
                child.distance(twist_map(p, *height)),
                HALF_FX,
            ),
            Shape::Bounded { child, bounds } => child.distance(p),
        }
    }

    /// The unit surface normal at `p`, by a central finite difference.
    pub fn normal(&self, p: Vector) -> (n: Vector)
        ensures
            n == spec_normal(*self, p),
    {
        let dx = Vector { x: DELTA, y: 0, z: 0 };
        let dy = Vector { x: 0, y: DELTA, z: 0 };
        let dz = Vector { x: 0, y: 0, z: DELTA };
        let gx: i64 = fx_sub(
            self.distance(crate::vec3::vadd(p, dx)),
            self.distance(vsub(p, dx)),
        );
        let gy: i64 = fx_sub(
            self.distance(crate::vec3::vadd(p, dy)),
            self.distance(vsub(p, dy)),
        );
        let gz: i64 = fx_sub(
            self.distance(crate::vec3::vadd(p, dz)),
            self.distance(vsub(p, dz)),
        );
        normalize(Vector { x: gx, y: gy, z: gz })
    }

    /// The conservative axis-aligned bounding box of the solid.
    pub fn bounding_box(&self) -> (r: BoundingBox)
        ensures
            r == spec_bbox(*self),
        decreases *self,
    {
        match self {
            Shape::Sphere { radius } => {
                let n: i64 = fx_neg(*radius);
                BoundingBox {
                    lo: ExtVector { x: Ext::Fin(n), y: Ext::Fin(n), z: Ext::Fin(n) },
                    hi: ExtVector {
                        x: Ext::Fin(*radius),
                        y: Ext::Fin(*radius),
                        z: Ext::Fin(*radius),
                    },
                }
            },
            Shape::Cylinder { radius } => {
                let n: i64 = fx_neg(*radius);
                BoundingBox {
                    lo: ExtVector { x: Ext::Fin(n), y: Ext::Fin(n), z: Ext::NegInf },
                    hi: ExtVector { x: Ext::Fin(*radius), y: Ext::Fin(*radius), z: Ext::PosInf },
                }
            },
            Shape::Cone { slope, offset } => bb_infinite(),
            Shape::Slab { axis, half } => {
                let lo = Ext::Fin(fx_neg(*half));
                let hi = Ext::Fin(*half);
                match axis {
                    Axis::X => BoundingBox {
                        lo: ExtVector { x: lo, y: Ext::NegInf, z: Ext::NegInf },
                        hi: ExtVector { x: hi, y: Ext::PosInf, z: Ext::PosInf },
                    },
                    Axis::Y => BoundingBox {
                        lo: ExtVector { x: Ext::NegInf, y: lo, z: Ext::NegInf },
                        hi: ExtVector { x: Ext::PosInf, y: hi, z: Ext::PosInf },
                    },
                    Axis::Z => BoundingBox {
                        lo: ExtVector { x: Ext::NegInf, y: Ext::NegInf, z: lo },
                        hi: ExtVector { x: Ext::PosInf, y: Ext::PosInf, z: hi },
                    },
                }
            },
            Shape::Union { a, b, blend } => {
                let ba = a.bounding_box();
                let bb = b.bounding_box();
                bb_union(&ba, &bb)
            },
            Shape::Intersection { a, b, blend } => {
                let ba = a.bounding_box();
                let bb = b.bounding_box();
                bb_intersect(&ba, &bb)
            },
            Shape::Complement { child } => bb_infinite(),
            Shape::Translate { child, offset } => {
                let cb = child.bounding_box();
                bb_translate(&cb, *offset)
            },
            Shape::Rotate { child, inv } => {
                let cb = child.bounding_box();
                let fwd = rot_transpose(inv);
                bb_rotate(&cb, &fwd)
            },
            Shape::Scale { child, factors } => {
                let cb = child.bounding_box();
                bb_scale(&cb, *factors)
            },
            Shape::Bend { child, width } => bb_infinite(),
            Shape::Twist { child, height } => bb_infinite(),
            Shape::Bounded { child, bounds } => *bounds,
        }
    }
}

/// Every field value stays in the symmetric saturated range, so a field can
/// always be negated exactly.
pub proof fn lemma_dist_range(s: Shape, p: Vector)
    ensures
        -FX_MAX <= spec_dist(s, p) <= FX_MAX,
    decreases s,
{
    match s {
        Shape::Union { a, b, blend } => {
            lemma_dist_range(*a, p);
            lemma_dist_range(*b, p);
        },
        Shape::Intersection { a, b, blend } => {
            lemma_dist_range(*a, p);
            lemma_dist_range(*b, p);
        },
        Shape::Complement { child } => {
            lemma_dist_range(*child, p);
        },
        Shape::Translate { child, offset } => {
            lemma_dist_range(*child, vsub_s(p, offset));
        },
        Shape::Rotate { child, inv } => {
            lemma_dist_range(*child, rot_apply_s(inv, p));
        },
        Shape::Scale { child, factors } => {
            lemma_dist_range(*child, vdiv_s(p, factors));
        },
        Shape::Bend { child, width } => {
            lemma_dist_range(*child, bend_map_s(p, width as int));
        },
        Shape::Twist { child, height } => {
            lemma_dist_range(*child, twist_map_s(p, height as int));
        },
        Shape::Bounded { child, bounds } => {
            lemma_dist_range(*child, p);
        },
        _ => {},
    }
}

/// The sign of a sphere's field tells inside from outside: negative exactly
/// when the square length of the point falls short of the squared radius,
/// zero on the quantized boundary band, positive from the next whole
/// fixed-point unit on.
pub proof fn sphere_distance_sign(radius: i64, p: Vector)
    requires
        0 <= radius < FX_MAX,
    ensures
        sq_s(p) < radius * radius ==> spec_dist((Shape::Sphere { radius }), p) < 0,
        sq_s(p) == radius * radius ==> spec_dist((Shape::Sphere { radius }), p) == 0,
        sq_s(p) >= (radius + 1) * (radius + 1) ==> spec_dist((Shape::Sphere { radius }), p) > 0,
{
    let sq = sq_s(p);
    let n = sqrt_floor(sq);
    lemma_sqrt_floor(sq);
    assert((radius + 1) * (radius + 1) > radius * radius) by (nonlinear_arith)
        requires
            radius >= 0,
    ;
    if sq < radius * radius {
        if n >= radius {
            assert(radius * radius <= n * n) by (nonlinear_arith)
                requires
                    0 <= radius <= n,
            ;
        }
        assert(n < radius);
    } else if sq == radius * radius {
        assert(radius * radius < (radius + 1) * (radius + 1)) by (nonlinear_arith)
            requires
                0 <= radius,
        ;
        lemma_sqrt_unique(sq, radius as nat);
    } else if sq >= (radius + 1) * (radius + 1) {
        if n <= radius {
            assert((n + 1) * (n + 1) <= (radius + 1) * (radius + 1)) by (nonlinear_arith)
                requires
                    0 <= n <= radius,
            ;
        }
        assert(n >= radius + 1);
        assert(min_i(n as int, FX_MAX as int) >= radius + 1);
        assert(spec_dist((Shape::Sphere { radius }), p) == fx_sub_s(norm_s(p), radius as int));
        assert(fx_sub_s(norm_s(p), radius as int) >= 1);
    }
}

/// Translating by `v` and back by `-v` reads the field at the original
/// point again, wherever no coordinate saturates on the way.
pub proof fn translate_round_trip(a: Shape, v: Vector, p: Vector)
    requires
        v.x != i64::MIN && v.y != i64::MIN && v.z != i64::MIN,
        p.x != i64::MIN && p.y != i64::MIN && p.z != i64::MIN,
        -FX_MAX <= p.x + v.x <= FX_MAX,
        -FX_MAX <= p.y + v.y <= FX_MAX,
        -FX_MAX <= p.z + v.z <= FX_MAX,
    ensures
        vsub_s(vsub_s(p, vneg_s(v)), v) == p,
        spec_dist(a, vsub_s(vsub_s(p, vneg_s(v)), v)) == spec_dist(a, p),
{
}

} // verus!
