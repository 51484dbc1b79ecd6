// Distance fields of primitives, combinators and wrappers, and the
// bounding boxes of the composite builders. All values are 16.16 fixed
// point: 65536 is one unit.

use truescad::bbox::{BoundingBox, Ext, ExtVector};
use truescad::construct::{
    complement, cube, cylinder, difference2, difference_from_vec, icone, icylinder,
    intersect2, intersection_from_vec, rotate, scale, slab_x, slab_y, slab_z, sphere,
    translate, translated, union2, union_from_vec,
};
use truescad::trig::{cos_fx, sin_fx, PI_FX, QUARTER_TAU_FX, TAU_FX};
use truescad::vec3::Vector;

const ONE: i64 = 65536;

fn v(x: i64, y: i64, z: i64) -> Vector {
    Vector { x, y, z }
}

#[test]
fn sphere_distance_signs() {
    let s = sphere(ONE);
    // strictly inside, at the centre and halfway out
    assert_eq!(s.distance(v(0, 0, 0)), -ONE);
    assert_eq!(s.distance(v(ONE / 2, 0, 0)), -ONE / 2);
    // exactly on the surface
    assert_eq!(s.distance(v(ONE, 0, 0)), 0);
    assert_eq!(s.distance(v(0, -ONE, 0)), 0);
    // strictly outside
    assert_eq!(s.distance(v(2 * ONE, 0, 0)), ONE);
    assert!(s.distance(v(ONE + 16, 0, 0)) > 0);
}

#[test]
fn union_is_min_when_sharp() {
    let a = sphere(ONE);
    let b = translated(sphere(ONE), v(3 * ONE, 0, 0));
    let u = union2(sphere(ONE), translated(sphere(ONE), v(3 * ONE, 0, 0)), 0);
    let samples = [
        v(0, 0, 0),
        v(3 * ONE, 0, 0),
        v(3 * ONE / 2, ONE, -ONE),
        v(-2 * ONE, ONE / 3, 12345),
    ];
    for p in samples {
        let da = a.distance(p);
        let db = b.distance(p);
        assert_eq!(u.distance(p), da.min(db));
    }
}

#[test]
fn intersection_is_max_when_sharp() {
    let a = sphere(2 * ONE);
    let b = translated(sphere(ONE), v(ONE, 0, 0));
    let i = intersect2(
        sphere(2 * ONE),
        translated(sphere(ONE), v(ONE, 0, 0)),
        0,
    );
    let samples = [v(0, 0, 0), v(ONE, 0, 0), v(-ONE, ONE, 7), v(4 * ONE, 0, 0)];
    for p in samples {
        let da = a.distance(p);
        let db = b.distance(p);
        assert_eq!(i.distance(p), da.max(db));
    }
}

#[test]
fn difference_is_max_of_negated() {
    let a = sphere(2 * ONE);
    let b = sphere(ONE);
    let d = difference2(sphere(2 * ONE), sphere(ONE), 0);
    let samples = [v(0, 0, 0), v(3 * ONE / 2, 0, 0), v(3 * ONE, -ONE, 0)];
    for p in samples {
        let da = a.distance(p);
        let db = b.distance(p);
        assert_eq!(d.distance(p), da.max(-db));
    }
    // the centre of the carved-out core is outside the difference
    assert_eq!(d.distance(v(0, 0, 0)), ONE);
}

#[test]
fn difference_from_vec_matches_binary() {
    let d = difference_from_vec(vec![sphere(2 * ONE), sphere(ONE)], 0).unwrap();
    let e = difference2(sphere(2 * ONE), sphere(ONE), 0);
    for p in [v(0, 0, 0), v(3 * ONE / 2, 0, 0), v(-3 * ONE, ONE, ONE)] {
        assert_eq!(d.distance(p), e.distance(p));
    }
}

#[test]
fn translate_shifts_the_field() {
    let a = sphere(ONE);
    let t = translated(sphere(ONE), v(3 * ONE, -ONE, ONE / 2));
    for p in [v(0, 0, 0), v(3 * ONE, -ONE, ONE / 2), v(ONE, ONE, ONE)] {
        let q = v(p.x - 3 * ONE, p.y + ONE, p.z - ONE / 2);
        assert_eq!(t.distance(p), a.distance(q));
    }
}

#[test]
fn translate_round_trip_restores_the_field() {
    let a = sphere(ONE);
    let w = v(3 * ONE, -2 * ONE, ONE);
    let back = v(-w.x, -w.y, -w.z);
    let rt = translated(translated(sphere(ONE), w), back);
    for p in [v(0, 0, 0), v(ONE, 0, 0), v(-ONE, ONE / 2, 2 * ONE), v(123456, -7890, 1)] {
        assert_eq!(rt.distance(p), a.distance(p));
    }
}

#[test]
fn smooth_union_reduces_to_sharp_outside_the_band() {
    let blend = ONE / 4;
    let u = union2(sphere(ONE), translated(sphere(ONE), v(4 * ONE, 0, 0)), blend);
    // here the two fields differ by far more than the blend radius
    let p = v(0, 0, 0);
    assert_eq!(u.distance(p), -ONE);
}

#[test]
fn smooth_union_rounds_inside_the_band() {
    // equal fields: the smooth minimum dips by exactly blend / 4
    let u = union2(sphere(ONE), sphere(ONE), ONE);
    assert_eq!(u.distance(v(2 * ONE, 0, 0)), ONE - ONE / 4);
}

#[test]
fn complement_negates() {
    let c = complement(sphere(ONE));
    assert_eq!(c.distance(v(0, 0, 0)), ONE);
    assert_eq!(c.distance(v(2 * ONE, 0, 0)), -ONE);
}

#[test]
fn slab_distances() {
    let s = slab_x(2 * ONE);
    assert_eq!(s.distance(v(0, 5 * ONE, -9 * ONE)), -ONE);
    assert_eq!(s.distance(v(2 * ONE, 0, 0)), ONE);
    assert_eq!(s.distance(v(-ONE, 0, 0)), 0);
}

#[test]
fn infinite_cylinder_ignores_z() {
    let c = icylinder(ONE);
    assert_eq!(c.distance(v(0, 0, 0)), -ONE);
    assert_eq!(c.distance(v(0, 0, 1000 * ONE)), -ONE);
    assert_eq!(c.distance(v(2 * ONE, 0, -50 * ONE)), ONE);
}

#[test]
fn cone_distance_values() {
    let c = icone(ONE, 0);
    assert_eq!(c.distance(v(0, 0, 0)), 0);
    // sqrt(1 + 1) in fixed point is 92681; one unit off axis gives
    // 65536 * 65536 / 92681
    assert_eq!(c.distance(v(ONE, 0, 0)), 46341);
}

#[test]
fn cube_bounding_box_is_half_extents() {
    let c = cube(v(2 * ONE, 4 * ONE, 6 * ONE), 0);
    let bb = c.bounding_box();
    let expect = BoundingBox {
        lo: ExtVector {
            x: Ext::Fin(-ONE),
            y: Ext::Fin(-2 * ONE),
            z: Ext::Fin(-3 * ONE),
        },
        hi: ExtVector {
            x: Ext::Fin(ONE),
            y: Ext::Fin(2 * ONE),
            z: Ext::Fin(3 * ONE),
        },
    };
    assert_eq!(bb, expect);
}

#[test]
fn cube_distance_at_centre() {
    let c = cube(v(2 * ONE, 4 * ONE, 6 * ONE), 0);
    // the nearest face is one unit away
    assert_eq!(c.distance(v(0, 0, 0)), -ONE);
}

#[test]
fn cylinder_distance_at_centre() {
    let c = cylinder(2 * ONE, Some(ONE), None, None, 0).unwrap();
    assert_eq!(c.distance(v(0, 0, 0)), -ONE);
}

#[test]
fn cylinder_radius_resolution() {
    // no radius anywhere: no value
    assert!(cylinder(2 * ONE, None, None, None, 0).is_none());
    // one end without a radius: no value
    assert!(cylinder(2 * ONE, None, Some(ONE), None, 0).is_none());
    // per-end radii alone suffice
    assert!(cylinder(2 * ONE, None, Some(ONE), Some(ONE), 0).is_some());
    // distinct radii build a capped cone
    let c = cylinder(2 * ONE, None, Some(ONE), Some(2 * ONE), 0).unwrap();
    assert!(c.distance(v(0, 0, 0)) < 0);
    assert!(c.distance(v(4 * ONE, 0, 0)) > 0);
    let bb = c.bounding_box();
    assert_eq!(bb.lo.z, Ext::Fin(-ONE));
    assert_eq!(bb.hi.z, Ext::Fin(ONE));
    assert_eq!(bb.lo.x, Ext::Fin(-2 * ONE));
    assert_eq!(bb.hi.x, Ext::Fin(2 * ONE));
}

#[test]
fn combinators_refuse_empty_lists() {
    assert!(union_from_vec(vec![], 0).is_none());
    assert!(intersection_from_vec(vec![], 0).is_none());
    assert!(difference_from_vec(vec![], 0).is_none());
    assert!(translate(vec![], v(0, 0, 0)).is_none());
    assert!(rotate(vec![], v(0, 0, 0)).is_none());
    assert!(scale(vec![], v(ONE, ONE, ONE)).is_none());
}

#[test]
fn union_from_vec_folds_min() {
    let u = union_from_vec(
        vec![
            sphere(ONE),
            translated(sphere(ONE), v(3 * ONE, 0, 0)),
            translated(sphere(ONE), v(0, 3 * ONE, 0)),
        ],
        0,
    )
    .unwrap();
    let parts = [
        sphere(ONE),
        translated(sphere(ONE), v(3 * ONE, 0, 0)),
        translated(sphere(ONE), v(0, 3 * ONE, 0)),
    ];
    for p in [v(0, 0, 0), v(3 * ONE, 0, 0), v(0, 3 * ONE, 0), v(ONE, ONE, ONE)] {
        let want = parts.iter().map(|s| s.distance(p)).min().unwrap();
        assert_eq!(u.distance(p), want);
    }
}

#[test]
fn scale_divides_and_renormalizes() {
    // doubling every axis doubles the field of a sphere
    let s = scale(vec![sphere(ONE)], v(2 * ONE, 2 * ONE, 2 * ONE)).unwrap();
    assert_eq!(s.distance(v(0, 0, 0)), -2 * ONE);
    assert_eq!(s.distance(v(4 * ONE, 0, 0)), 2 * ONE);
}

#[test]
fn empty_intersection_box_is_representable() {
    let apart = intersect2(
        translated(sphere(ONE), v(10 * ONE, 0, 0)),
        sphere(ONE),
        0,
    );
    let bb = apart.bounding_box();
    // no overlap on x: the box is degenerate but well formed
    assert_eq!(bb.lo.x, Ext::Fin(9 * ONE));
    assert_eq!(bb.hi.x, Ext::Fin(ONE));
}

#[test]
fn rotation_keeps_infinite_axes_finite_ones_apart() {
    // rotating an infinite cylinder by zero angles must not poison the
    // finite x and y extents: a zero coefficient times infinity is zero
    let r = rotate(vec![icylinder(ONE)], v(0, 0, 0)).unwrap();
    let bb = r.bounding_box();
    assert!(matches!(bb.lo.x, Ext::Fin(_)));
    assert!(matches!(bb.hi.y, Ext::Fin(_)));
    assert_eq!(bb.lo.z, Ext::NegInf);
    assert_eq!(bb.hi.z, Ext::PosInf);
}

#[test]
fn translated_box_shifts_keeping_infinities() {
    let t = translated(icylinder(ONE), v(ONE, 0, 0));
    let bb = t.bounding_box();
    assert_eq!(bb.lo.x, Ext::Fin(0));
    assert_eq!(bb.hi.x, Ext::Fin(2 * ONE));
    assert_eq!(bb.lo.z, Ext::NegInf);
    assert_eq!(bb.hi.z, Ext::PosInf);
}

#[test]
fn union_box_merges() {
    let u = union2(sphere(ONE), translated(sphere(ONE), v(3 * ONE, 0, 0)), 0);
    let bb = u.bounding_box();
    assert_eq!(bb.lo.x, Ext::Fin(-ONE));
    assert_eq!(bb.hi.x, Ext::Fin(4 * ONE));
    assert_eq!(bb.lo.y, Ext::Fin(-ONE));
    assert_eq!(bb.hi.y, Ext::Fin(ONE));
}

#[test]
fn difference_keeps_first_childs_box() {
    let d = difference2(sphere(ONE), sphere(2 * ONE), 0);
    assert_eq!(d.bounding_box(), sphere(ONE).bounding_box());
}

#[test]
fn normal_points_outward_on_a_sphere() {
    let s = sphere(ONE);
    let n = s.normal(v(2 * ONE, 0, 0));
    assert_eq!(n, v(ONE, 0, 0));
    let n2 = s.normal(v(0, -2 * ONE, 0));
    assert_eq!(n2, v(0, -ONE, 0));
}

#[test]
fn trig_exact_points() {
    // exact at every multiple of a quarter turn
    assert_eq!(sin_fx(0), 0);
    assert_eq!(sin_fx(PI_FX), 0);
    assert_eq!(sin_fx(TAU_FX), 0);
    assert_eq!(sin_fx(QUARTER_TAU_FX), ONE);
    assert_eq!(cos_fx(0), ONE);
    assert_eq!(cos_fx(PI_FX), -ONE);
    assert_eq!(sin_fx(3 * TAU_FX / 4), -ONE);
    // a twelfth of a turn: one count below a half
    assert_eq!(sin_fx(TAU_FX / 12), ONE / 2 - 1);
    // point symmetry past half a turn
    assert_eq!(sin_fx(PI_FX + TAU_FX / 12), -(ONE / 2 - 1));
    for k in 0..32 {
        let x = k * 40000 - 600000;
        let sv = sin_fx(x);
        assert!(-ONE <= sv && sv <= ONE);
    }
}

#[test]
fn cloned_subtree_keeps_its_field() {
    // one built subtree, reused by two combinators through clones
    let core = translated(sphere(ONE), v(ONE, 0, 0));
    let left = union2(core.clone(), sphere(ONE / 2), 0);
    let right = difference2(sphere(2 * ONE), core.clone(), 0);
    for p in [v(0, 0, 0), v(ONE, 0, 0), v(-ONE, ONE, 0)] {
        assert_eq!(core.clone().distance(p), core.distance(p));
        let dl = left.distance(p);
        let dr = right.distance(p);
        assert_eq!(dl, core.distance(p).min(sphere(ONE / 2).distance(p)));
        assert_eq!(dr, sphere(2 * ONE).distance(p).max(-core.distance(p)));
    }
}

#[test]
fn twist_and_bend_stay_defined_everywhere() {
    let t = truescad::construct::twist(vec![sphere(ONE)], ONE).unwrap();
    let b = truescad::construct::bend(vec![sphere(ONE)], 6 * ONE).unwrap();
    for p in [v(0, 0, 0), v(ONE, ONE, ONE), v(-5 * ONE, 3 * ONE, 100 * ONE)] {
        // the warped fields are halved, so they stay well within range
        assert!(t.distance(p).abs() <= i64::MAX / 2);
        assert!(b.distance(p).abs() <= i64::MAX / 2);
    }
    // at the origin the twist leaves the query point in place
    assert_eq!(t.distance(v(0, 0, 0)), -ONE / 2);
}
