//! Constructors of solids: leaf primitives, binary combinators, spatial
//! wrappers, and the composite builders behind the scene description
//! vocabulary (`cube`, `cylinder`, `union`, ...). A combinator over a list
//! folds into binary nodes; an empty list yields `None` rather than a solid,
//! and callers must check before composing further.

use vstd::prelude::*;
use crate::bbox::{bb_infinite_s, bb_intersect_s, bb_rotate_s, bb_scale_s, bb_translate_s,
    bb_union_s, BoundingBox, Ext, ExtVector};
use crate::fx::{fx_add, fx_add_s, fx_div, fx_div_s, fx_max, fx_min, fx_mul, fx_mul_s, fx_neg,
    fx_neg_s, fx_smax_s, fx_smin_s, fx_sub, fx_sub_s, max_i, min_i, FX_MAX};
use crate::shape::{lemma_dist_range, min3_s, spec_bbox, spec_dist, twist_map_s, bend_map_s,
    Axis, Shape, HALF_FX};
use crate::vec3::{vdiv_s, vsub_s, Vector};
use crate::xform::{rot_apply_s, rot_transpose, rot_transpose_s, rot_xyz, rot_xyz_s, Rot3};

verus! {

/// Half of a full width, in fixed point: the half-extent of a slab.
pub open spec fn half_w_s(w: int) -> int {
    fx_mul_s(w, HALF_FX as int)
}

pub fn sphere(radius: i64) -> (r: Shape)
    ensures
        r == (Shape::Sphere { radius }),
{
    Shape::Sphere { radius }
}

/// A cylinder of the given radius, infinite along the z axis.
pub fn icylinder(radius: i64) -> (r: Shape)
    ensures
        r == (Shape::Cylinder { radius }),
{
    Shape::Cylinder { radius }
}

/// An infinite cone opening along z, of the given slope, its apex at
/// `offset` on the z axis.
pub fn icone(slope: i64, offset: i64) -> (r: Shape)
    ensures
        r == (Shape::Cone { slope, offset }),
{
    Shape::Cone { slope, offset }
}

/// A slab of the given full width about the y-z plane.
pub fn slab_x(width: i64) -> (r: Shape)
    ensures
        r == (Shape::Slab { axis: Axis::X, half: half_w_s(width as int) as i64 }),
{
    Shape::Slab { axis: Axis::X, half: fx_mul(width, HALF_FX) }
}

/// A slab of the given full width about the x-z plane.
pub fn slab_y(width: i64) -> (r: Shape)
    ensures
        r == (Shape::Slab { axis: Axis::Y, half: half_w_s(width as int) as i64 }),
{
    Shape::Slab { axis: Axis::Y, half: fx_mul(width, HALF_FX) }
}

/// A slab of the given full width about the x-y plane.
pub fn slab_z(width: i64) -> (r: Shape)
    ensures
        r == (Shape::Slab { axis: Axis::Z, half: half_w_s(width as int) as i64 }),
{
    Shape::Slab { axis: Axis::Z, half: fx_mul(width, HALF_FX) }
}

/// The union of two solids. With blend radius 0 its field is exactly the
/// minimum of the two fields at every point.
pub fn union2(a: Shape, b: Shape, blend: i64) -> (r: Shape)
    ensures
        forall|p: Vector| #[trigger] spec_dist(r, p) == fx_smin_s(
            spec_dist(a, p),
            spec_dist(b, p),
            blend as int,
        ),
        blend <= 0 ==> forall|p: Vector| #[trigger] spec_dist(r, p) == min_i(
            spec_dist(a, p),
            spec_dist(b, p),
        ),
        spec_bbox(r) == bb_union_s(spec_bbox(a), spec_bbox(b)),
{
    Shape::Union { a: Box::new(a), b: Box::new(b), blend }
}

/// The intersection of two solids. With blend radius 0 its field is exactly
/// the maximum of the two fields at every point.
pub fn intersect2(a: Shape, b: Shape, blend: i64) -> (r: Shape)
    ensures
        forall|p: Vector| #[trigger] spec_dist(r, p) == fx_smax_s(
            spec_dist(a, p),
            spec_dist(b, p),
            blend as int,
        ),
        blend <= 0 ==> forall|p: Vector| #[trigger] spec_dist(r, p) == max_i(
            spec_dist(a, p),
            spec_dist(b, p),
        ),
        spec_bbox(r) == bb_intersect_s(spec_bbox(a), spec_bbox(b)),
{
    Shape::Intersection { a: Box::new(a), b: Box::new(b), blend }
}

/// The complement: the field negated, inside turned outside.
pub fn complement(a: Shape) -> (r: Shape)
    ensures
        forall|p: Vector| #[trigger] spec_dist(r, p) == fx_neg_s(spec_dist(a, p)),
        spec_bbox(r) == bb_infinite_s(),
{
    Shape::Complement { child: Box::new(a) }
}

/// The difference `a` minus `b`: intersection with the complement of `b`.
/// With blend radius 0 its field is exactly `max(a's field, -(b's field))`,
/// and its bounding box is the first operand's box: subtraction only
/// removes material.
pub fn difference2(a: Shape, b: Shape, blend: i64) -> (r: Shape)
    ensures
        forall|p: Vector| #[trigger] spec_dist(r, p) == fx_smax_s(
            spec_dist(a, p),
            fx_neg_s(spec_dist(b, p)),
            blend as int,
        ),
        blend <= 0 ==> forall|p: Vector| #[trigger] spec_dist(r, p) == max_i(
            spec_dist(a, p),
            -spec_dist(b, p),
        ),
        spec_bbox(r) == spec_bbox(a),
{
    let nb = complement(b);
    let r = intersect2(a, nb, blend);
    proof {
        if blend <= 0 {
            assert forall|p: Vector| #[trigger] spec_dist(r, p) == max_i(
                spec_dist(a, p),
                -spec_dist(b, p),
            ) by {
                lemma_dist_range(b, p);
            }
        }
    }
    r
}

/// The solid shifted by `offset`: its field reads the child at `p - offset`.
pub fn translated(child: Shape, offset: Vector) -> (r: Shape)
    ensures
        forall|p: Vector| #[trigger] spec_dist(r, p) == spec_dist(child, vsub_s(p, offset)),
        spec_bbox(r) == bb_translate_s(spec_bbox(child), offset),
{
    Shape::Translate { child: Box::new(child), offset }
}

/// The solid rotated by the three Euler angles (fixed order x, y, z): its
/// field reads the child at the inversely rotated point, and its box is the
/// envelope of the rotated child box.
pub fn rotated(child: Shape, angles: Vector) -> (r: Shape)
    ensures
        forall|p: Vector| #[trigger] spec_dist(r, p) == spec_dist(
            child,
            rot_apply_s(
                rot_transpose_s(rot_xyz_s(angles.x as int, angles.y as int, angles.z as int)),
                p,
            ),
        ),
        spec_bbox(r) == bb_rotate_s(
            spec_bbox(child),
            rot_xyz_s(angles.x as int, angles.y as int, angles.z as int),
        ),
{
    let fwd: Rot3 = rot_xyz(angles.x, angles.y, angles.z);
    let inv: Rot3 = rot_transpose(&fwd);
    proof {
        assert(rot_transpose_s(rot_transpose_s(fwd)) == fwd);
    }
    Shape::Rotate { child: Box::new(child), inv }
}

/// The solid scaled by per-axis factors: its field reads the child at the
/// componentwise quotient and is renormalized by the smallest factor, the
/// conservative compensation for a nonuniform metric.
pub fn scaled(child: Shape, factors: Vector) -> (r: Shape)
    ensures
        forall|p: Vector| #[trigger] spec_dist(r, p) == fx_mul_s(
            spec_dist(child, vdiv_s(p, factors)),
            min3_s(factors),
        ),
        spec_bbox(r) == bb_scale_s(spec_bbox(child), factors),
{
    Shape::Scale { child: Box::new(child), factors }
}

/// The solid bent around a circle of circumference `width`.
pub fn bent(child: Shape, width: i64) -> (r: Shape)
    ensures
        forall|p: Vector| #[trigger] spec_dist(r, p) == fx_mul_s(
            spec_dist(child, bend_map_s(p, width as int)),
            HALF_FX as int,
        ),
        spec_bbox(r) == bb_infinite_s(),
{
    Shape::Bend { child: Box::new(child), width }
}

/// The solid twisted about z by one turn per `height`.
pub fn twisted(child: Shape, height: i64) -> (r: Shape)
    ensures
        forall|p: Vector| #[trigger] spec_dist(r, p) == fx_mul_s(
            spec_dist(child, twist_map_s(p, height as int)),
            HALF_FX as int,
        ),
        spec_bbox(r) == bb_infinite_s(),
{
    Shape::Twist { child: Box::new(child), height }
}

/// The same solid with its reported bounding box overridden by a tighter,
/// caller-supplied conservative box.
pub fn with_bounds(child: Shape, bounds: BoundingBox) -> (r: Shape)
    ensures
        forall|p: Vector| #[trigger] spec_dist(r, p) == spec_dist(child, p),
        spec_bbox(r) == bounds,
{
    Shape::Bounded { child: Box::new(child), bounds }
}

/// The field of a left fold of `Union` nodes over a non-empty list.
pub open spec fn union_fold_dist_s(cs: Seq<Shape>, p: Vector, blend: int) -> int
    decreases cs.len(),
{
    if cs.len() <= 1 {
        spec_dist(cs[0], p)
    } else {
        fx_smin_s(union_fold_dist_s(cs.drop_last(), p, blend), spec_dist(cs.last(), p), blend)
    }
}

/// The box of a left fold of `Union` nodes over a non-empty list.
pub open spec fn union_fold_bb_s(cs: Seq<Shape>) -> BoundingBox
    decreases cs.len(),
{
    if cs.len() <= 1 {
        spec_bbox(cs[0])
    } else {
        bb_union_s(union_fold_bb_s(cs.drop_last()), spec_bbox(cs.last()))
    }
}

/// The field of a left fold of `Intersection` nodes over a non-empty list.
pub open spec fn isect_fold_dist_s(cs: Seq<Shape>, p: Vector, blend: int) -> int
    decreases cs.len(),
{
    if cs.len() <= 1 {
        spec_dist(cs[0], p)
    } else {
        fx_smax_s(isect_fold_dist_s(cs.drop_last(), p, blend), spec_dist(cs.last(), p), blend)
    }
}

/// The box of a left fold of `Intersection` nodes over a non-empty list.
pub open spec fn isect_fold_bb_s(cs: Seq<Shape>) -> BoundingBox
    decreases cs.len(),
{
    if cs.len() <= 1 {
        spec_bbox(cs[0])
    } else {
        bb_intersect_s(isect_fold_bb_s(cs.drop_last()), spec_bbox(cs.last()))
    }
}

/// The field of the first solid minus all the others: each later field is
/// negated before the intersection fold.
pub open spec fn diff_fold_dist_s(cs: Seq<Shape>, p: Vector, blend: int) -> int
    decreases cs.len(),
{
    if cs.len() <= 1 {
        spec_dist(cs[0], p)
    } else {
        fx_smax_s(
            diff_fold_dist_s(cs.drop_last(), p, blend),
            fx_neg_s(spec_dist(cs.last(), p)),
            blend,
        )
    }
}

/// The union of a list of solids with the given blend radius, folded into
/// binary nodes; an empty list has no union.
pub fn union_from_vec(v: Vec<Shape>, blend: i64) -> (res: Option<Shape>)
    ensures
        res is Some <==> v@.len() > 0,
        res matches Some(sh) ==> forall|p: Vector| #[trigger] spec_dist(sh, p)
            == union_fold_dist_s(v@, p, blend as int),
        res matches Some(sh) ==> spec_bbox(sh) == union_fold_bb_s(v@),
{
    let ghost orig = v@;
    let mut v = v;
    if v.len() == 0 {
        return None;
    }
    let mut acc = v.remove(0);
    proof {
        assert(v@ =~= orig.subrange(1, orig.len() as int));
        assert(orig.subrange(0, 1).len() == 1);
        assert(orig.subrange(0, 1)[0] == orig[0]);
    }
    while v.len() > 0
        invariant
            1 <= orig.len() - v@.len() <= orig.len(),
            v@ =~= orig.subrange(orig.len() - v@.len(), orig.len() as int),
            forall|p: Vector| #[trigger] spec_dist(acc, p) == union_fold_dist_s(
                orig.subrange(0, orig.len() - v@.len()),
                p,
                blend as int,
            ),
            spec_bbox(acc) == union_fold_bb_s(orig.subrange(0, orig.len() - v@.len())),
        decreases v@.len(),
    {
        let ghost k: int = orig.len() - v@.len();
        let nxt = v.remove(0);
        proof {
            assert(nxt == orig[k]);
            assert(v@ =~= orig.subrange(k + 1, orig.len() as int));
        }
        let ghost prev = acc;
        acc = union2(acc, nxt, blend);
        proof {
            assert(orig.subrange(0, k + 1).drop_last() =~= orig.subrange(0, k));
            assert(orig.subrange(0, k + 1).last() == orig[k]);
            assert forall|p: Vector| #[trigger] spec_dist(acc, p) == union_fold_dist_s(
                orig.subrange(0, k + 1),
                p,
                blend as int,
            ) by {
                assert(spec_dist(acc, p) == fx_smin_s(
                    spec_dist(prev, p),
                    spec_dist(nxt, p),
                    blend as int,
                ));
            }
        }
    }
    proof {
        assert(orig.subrange(0, orig.len() as int) =~= orig);
    }
    Some(acc)
}

/// The intersection of a list of solids, folded into binary nodes.
pub fn intersection_from_vec(v: Vec<Shape>, blend: i64) -> (res: Option<Shape>)
    ensures
        res is Some <==> v@.len() > 0,
        res matches Some(sh) ==> forall|p: Vector| #[trigger] spec_dist(sh, p)
            == isect_fold_dist_s(v@, p, blend as int),
        res matches Some(sh) ==> spec_bbox(sh) == isect_fold_bb_s(v@),
{
    let ghost orig = v@;
    let mut v = v;
    if v.len() == 0 {
        return None;
    }
    let mut acc = v.remove(0);
    proof {
        assert(v@ =~= orig.subrange(1, orig.len() as int));
        assert(orig.subrange(0, 1).len() == 1);
        assert(orig.subrange(0, 1)[0] == orig[0]);
    }
    while v.len() > 0
        invariant
            1 <= orig.len() - v@.len() <= orig.len(),
            v@ =~= orig.subrange(orig.len() - v@.len(), orig.len() as int),
            forall|p: Vector| #[trigger] spec_dist(acc, p) == isect_fold_dist_s(
                orig.subrange(0, orig.len() - v@.len()),
                p,
                blend as int,
            ),
            spec_bbox(acc) == isect_fold_bb_s(orig.subrange(0, orig.len() - v@.len())),
        decreases v@.len(),
    {
        let ghost k: int = orig.len() - v@.len();
        let nxt = v.remove(0);
        proof {
            assert(nxt == orig[k]);
            assert(v@ =~= orig.subrange(k + 1, orig.len() as int));
        }
        let ghost prev = acc;
        acc = intersect2(acc, nxt, blend);
        proof {
            assert(orig.subrange(0, k + 1).drop_last() =~= orig.subrange(0, k));
            assert(orig.subrange(0, k + 1).last() == orig[k]);
            assert forall|p: Vector| #[trigger] spec_dist(acc, p) == isect_fold_dist_s(
                orig.subrange(0, k + 1),
                p,
                blend as int,
            ) by {
                assert(spec_dist(acc, p) == fx_smax_s(
                    spec_dist(prev, p),
                    spec_dist(nxt, p),
                    blend as int,
                ));
            }
        }
    }
    proof {
        assert(orig.subrange(0, orig.len() as int) =~= orig);
    }
    Some(acc)
}

/// The first solid of the list minus all the others; its box is the first
/// solid's box.
pub fn difference_from_vec(v: Vec<Shape>, blend: i64) -> (res: Option<Shape>)
    ensures
        res is Some <==> v@.len() > 0,
        res matches Some(sh) ==> forall|p: Vector| #[trigger] spec_dist(sh, p)
            == diff_fold_dist_s(v@, p, blend as int),
        res matches Some(sh) ==> spec_bbox(sh) == spec_bbox(v@[0]),
{
    let ghost orig = v@;
    let mut v = v;
    if v.len() == 0 {
        return None;
    }
    let mut acc = v.remove(0);
    proof {
        assert(v@ =~= orig.subrange(1, orig.len() as int));
        assert(orig.subrange(0, 1).len() == 1);
        assert(orig.subrange(0, 1)[0] == orig[0]);
    }
    while v.len() > 0
        invariant
            1 <= orig.len() - v@.len() <= orig.len(),
            v@ =~= orig.subrange(orig.len() - v@.len(), orig.len() as int),
            forall|p: Vector| #[trigger] spec_dist(acc, p) == diff_fold_dist_s(
                orig.subrange(0, orig.len() - v@.len()),
                p,
                blend as int,
            ),
            spec_bbox(acc) == spec_bbox(orig[0]),
        decreases v@.len(),
    {
        let ghost k: int = orig.len() - v@.len();
        let nxt = v.remove(0);
        proof {
            assert(nxt == orig[k]);
            assert(v@ =~= orig.subrange(k + 1, orig.len() as int));
        }
        let ghost prev = acc;
        acc = difference2(acc, nxt, blend);
        proof {
            assert(orig.subrange(0, k + 1).drop_last() =~= orig.subrange(0, k));
            assert(orig.subrange(0, k + 1).last() == orig[k]);
            assert forall|p: Vector| #[trigger] spec_dist(acc, p) == diff_fold_dist_s(
                orig.subrange(0, k + 1),
                p,
                blend as int,
            ) by {
                assert(spec_dist(acc, p) == fx_smax_s(
                    spec_dist(prev, p),
                    fx_neg_s(spec_dist(nxt, p)),
                    blend as int,
                ));
            }
        }
    }
    proof {
        assert(orig.subrange(0, orig.len() as int) =~= orig);
    }
    Some(acc)
}

/// The union of the given solids shifted by `t`; empty input has no value.
pub fn translate(subs: Vec<Shape>, t: Vector) -> (res: Option<Shape>)
    ensures
        res is Some <==> subs@.len() > 0,
        res matches Some(sh) ==> forall|p: Vector| #[trigger] spec_dist(sh, p)
            == union_fold_dist_s(subs@, vsub_s(p, t), 0),
        res matches Some(sh) ==> spec_bbox(sh) == bb_translate_s(union_fold_bb_s(subs@), t),
{
    let ghost cs = subs@;
    match union_from_vec(subs, 0) {
        None => None,
        Some(u) => Some(translated(u, t)),
    }
}

/// The union of the given solids rotated by the Euler angles `t`.
pub fn rotate(subs: Vec<Shape>, t: Vector) -> (res: Option<Shape>)
    ensures
        res is Some <==> subs@.len() > 0,
        res matches Some(sh) ==> forall|p: Vector| #[trigger] spec_dist(sh, p)
            == union_fold_dist_s(
            subs@,
            rot_apply_s(rot_transpose_s(rot_xyz_s(t.x as int, t.y as int, t.z as int)), p),
            0,
        ),
        res matches Some(sh) ==> spec_bbox(sh) == bb_rotate_s(
            union_fold_bb_s(subs@),
            rot_xyz_s(t.x as int, t.y as int, t.z as int),
        ),
{
    match union_from_vec(subs, 0) {
        None => None,
        Some(u) => Some(rotated(u, t)),
    }
}

/// The union of the given solids scaled by the per-axis factors `t`.
pub fn scale(subs: Vec<Shape>, t: Vector) -> (res: Option<Shape>)
    ensures
        res is Some <==> subs@.len() > 0,
        res matches Some(sh) ==> forall|p: Vector| #[trigger] spec_dist(sh, p) == fx_mul_s(
            union_fold_dist_s(subs@, vdiv_s(p, t), 0),
            min3_s(t),
        ),
        res matches Some(sh) ==> spec_bbox(sh) == bb_scale_s(union_fold_bb_s(subs@), t),
{
    match union_from_vec(subs, 0) {
        None => None,
        Some(u) => Some(scaled(u, t)),
    }
}

/// The union of the given solids bent around a circle of circumference `w`.
pub fn bend(subs: Vec<Shape>, w: i64) -> (res: Option<Shape>)
    ensures
        res is Some <==> subs@.len() > 0,
        res matches Some(sh) ==> forall|p: Vector| #[trigger] spec_dist(sh, p) == fx_mul_s(
            union_fold_dist_s(subs@, bend_map_s(p, w as int), 0),
            HALF_FX as int,
        ),
        res matches Some(sh) ==> spec_bbox(sh) == bb_infinite_s(),
{
    match union_from_vec(subs, 0) {
        None => None,
        Some(u) => Some(bent(u, w)),
    }
}

/// The union of the given solids twisted by one turn per `h` of height.
pub fn twist(subs: Vec<Shape>, h: i64) -> (res: Option<Shape>)
    ensures
        res is Some <==> subs@.len() > 0,
        res matches Some(sh) ==> forall|p: Vector| #[trigger] spec_dist(sh, p) == fx_mul_s(
            union_fold_dist_s(subs@, twist_map_s(p, h as int), 0),
            HALF_FX as int,
        ),
        res matches Some(sh) ==> spec_bbox(sh) == bb_infinite_s(),
{
    match union_from_vec(subs, 0) {
        None => None,
        Some(u) => Some(twisted(u, h)),
    }
}

/// An axis-aligned box of the given full widths: the intersection of three
/// slabs. Its bounding box is exactly the box of half-extents.
pub fn cube(dim: Vector, blend: i64) -> (r: Shape)
    ensures
        forall|p: Vector| #[trigger] spec_dist(r, p) == fx_smax_s(
            fx_smax_s(
                spec_dist(
                    (Shape::Slab { axis: Axis::X, half: half_w_s(dim.x as int) as i64 }),
                    p,
                ),
                spec_dist(
                    (Shape::Slab { axis: Axis::Y, half: half_w_s(dim.y as int) as i64 }),
                    p,
                ),
                blend as int,
            ),
            spec_dist((Shape::Slab { axis: Axis::Z, half: half_w_s(dim.z as int) as i64 }), p),
            blend as int,
        ),
        spec_bbox(r) == (BoundingBox {
            lo: ExtVector {
                x: Ext::Fin(fx_neg_s(half_w_s(dim.x as int)) as i64),
                y: Ext::Fin(fx_neg_s(half_w_s(dim.y as int)) as i64),
                z: Ext::Fin(fx_neg_s(half_w_s(dim.z as int)) as i64),
            },
            hi: ExtVector {
                x: Ext::Fin(half_w_s(dim.x as int) as i64),
                y: Ext::Fin(half_w_s(dim.y as int) as i64),
                z: Ext::Fin(half_w_s(dim.z as int) as i64),
            },
        }),
{
    let sx = slab_x(dim.x);
    let sy = slab_y(dim.y);
    let sz = slab_z(dim.z);
    let inner = intersect2(sx, sy, blend);
    intersect2(inner, sz, blend)
}

/// The second radius where one is given, otherwise the default.
pub open spec fn resolve_radius_s(pri: Option<i64>, def: Option<i64>) -> Option<i64> {
    if pri is Some {
        pri
    } else {
        def
    }
}

/// Slope of the cone through radii `ra` at the bottom and `rb` at the top of
/// a solid cylinder of height `h`.
pub open spec fn cone_slope_s(h: int, ra: int, rb: int) -> int {
    fx_div_s(fx_sub_s(max_i(ra, rb), min_i(ra, rb)), h)
}

/// Apex offset of that cone on the z axis.
pub open spec fn cone_offset_s(h: int, ra: int, rb: int) -> int {
    let slope = cone_slope_s(h, ra, rb);
    if ra < rb {
        fx_sub_s(fx_neg_s(fx_div_s(ra, slope)), half_w_s(h))
    } else {
        fx_add_s(fx_div_s(rb, slope), half_w_s(h))
    }
}

/// A solid cylinder (or truncated cone) of height `h`: the radius comes from
/// `r`, overridden per end by `r1` (bottom) and `r2` (top); if an end has no
/// radius at all there is no value. Equal radii give a capped cylinder;
/// distinct radii give a capped cone whose reported box is tightened to the
/// larger radius.
pub fn cylinder(h: i64, r: Option<i64>, r1: Option<i64>, r2: Option<i64>, blend: i64) -> (res:
    Option<Shape>)
    ensures
        res is Some <==> (resolve_radius_s(r1, r) is Some && resolve_radius_s(r2, r) is Some),
        res matches Some(sh) ==> match (resolve_radius_s(r1, r), resolve_radius_s(r2, r)) {
            (Some(ra), Some(rb)) => {
                &&& ra == rb ==> forall|p: Vector| #[trigger] spec_dist(sh, p) == fx_smax_s(
                    spec_dist((Shape::Cylinder { radius: ra }), p),
                    spec_dist(
                        (Shape::Slab { axis: Axis::Z, half: half_w_s(h as int) as i64 }),
                        p,
                    ),
                    blend as int,
                )
                &&& ra == rb ==> spec_bbox(sh) == bb_intersect_s(
                    spec_bbox((Shape::Cylinder { radius: ra })),
                    spec_bbox((Shape::Slab { axis: Axis::Z, half: half_w_s(h as int) as i64 })),
                )
                &&& ra != rb ==> forall|p: Vector| #[trigger] spec_dist(sh, p) == fx_smax_s(
                    spec_dist(
                        (Shape::Cone {
                            slope: cone_slope_s(h as int, ra as int, rb as int) as i64,
                            offset: cone_offset_s(h as int, ra as int, rb as int) as i64,
                        }),
                        p,
                    ),
                    spec_dist(
                        (Shape::Slab { axis: Axis::Z, half: half_w_s(h as int) as i64 }),
                        p,
                    ),
                    blend as int,
                )
                &&& ra != rb ==> spec_bbox(sh) == bb_intersect_s(
                    (BoundingBox {
                        lo: ExtVector {
                            x: Ext::Fin(fx_neg_s(max_i(ra as int, rb as int)) as i64),
                            y: Ext::Fin(fx_neg_s(max_i(ra as int, rb as int)) as i64),
                            z: Ext::NegInf,
                        },
                        hi: ExtVector {
                            x: Ext::Fin(max_i(ra as int, rb as int) as i64),
                            y: Ext::Fin(max_i(ra as int, rb as int) as i64),
                            z: Ext::PosInf,
                        },
                    }),
                    spec_bbox((Shape::Slab { axis: Axis::Z, half: half_w_s(h as int) as i64 })),
                )
            },
            _ => false,
        },
{
    let rr1: Option<i64> = match r1 {
        Some(v) => Some(v),
        None => r,
    };
    let rr2: Option<i64> = match r2 {
        Some(v) => Some(v),
        None => r,
    };
    match (rr1, rr2) {
        (Some(ra), Some(rb)) => {
            if ra == rb {
                let prim = icylinder(ra);
                let cap = slab_z(h);
                Some(intersect2(prim, cap, blend))
            } else {
                let slope: i64 = fx_div(fx_sub(fx_max(ra, rb), fx_min(ra, rb)), h);
                let offset: i64 = if ra < rb {
                    fx_sub(fx_neg(fx_div(ra, slope)), fx_mul(h, HALF_FX))
                } else {
                    fx_add(fx_div(rb, slope), fx_mul(h, HALF_FX))
                };
                let cone = icone(slope, offset);
                let rmax: i64 = fx_max(ra, rb);
                let bounds = BoundingBox {
                    lo: ExtVector { x: Ext::Fin(fx_neg(rmax)), y: Ext::Fin(fx_neg(rmax)), z: Ext::NegInf },
                    hi: ExtVector { x: Ext::Fin(rmax), y: Ext::Fin(rmax), z: Ext::PosInf },
                };
                let bounded = with_bounds(cone, bounds);
                let cap = slab_z(h);
                Some(intersect2(bounded, cap, blend))
            }
        },
        _ => None,
    }
}

} // verus!
