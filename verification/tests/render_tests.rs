// The sphere-tracing renderer: ray termination, shading, view-state
// updates, and an end-to-end frame of a unit sphere.

use truescad::construct::sphere;
use truescad::render::{cast_ray, Renderer, MAX_ITERS};
use truescad::vec3::{Ray, Vector};

const ONE: i64 = 65536;

fn v(x: i64, y: i64, z: i64) -> Vector {
    Vector { x, y, z }
}

#[test]
fn ray_already_within_tolerance_hits_at_once() {
    let s = sphere(ONE);
    // a whisker outside the surface: the field there is 100, below the
    // tolerance of 197; the march still advances once, so the minimum
    // iteration count of a hit is one
    let origin = v(ONE + 100, 0, 0);
    let ray = Ray { origin, dir: v(0, 0, ONE) };
    let light = v(ONE, 0, 0);
    let (iters, brightness) = cast_ray(&s, &ray, &light, 100);
    assert_eq!(iters, 1);
    assert!(brightness > 0);
}

#[test]
fn ray_beyond_miss_bound_misses_at_the_cap() {
    let s = sphere(ONE);
    let ray = Ray { origin: v(0, 0, 200 * ONE), dir: v(0, 0, ONE) };
    let light = v(ONE, 0, 0);
    // one advance by the huge starting value carries the field far past the
    // bound of 100 units: the very first test ends the ray
    let (iters, brightness) = cast_ray(&s, &ray, &light, 199 * ONE);
    assert_eq!(iters, MAX_ITERS);
    assert_eq!(brightness, 0);
}

#[test]
fn ray_up_a_growing_field_terminates_as_miss() {
    let s = sphere(ONE);
    // pointing straight away from the sphere: the field grows with every
    // step and the march must end as a miss, not loop forever
    let origin = v(0, 0, 3 * ONE);
    let ray = Ray { origin, dir: v(0, 0, ONE) };
    let light = v(ONE, 0, 0);
    let start = s.distance(origin);
    assert_eq!(start, 2 * ONE);
    let (iters, brightness) = cast_ray(&s, &ray, &light, start);
    assert_eq!(iters, MAX_ITERS);
    assert_eq!(brightness, 0);
}

#[test]
fn back_facing_hit_is_dark() {
    let s = sphere(ONE);
    let origin = v(ONE + 100, 0, 0);
    let ray = Ray { origin, dir: v(0, 0, ONE) };
    // light shining from the far side: the outward normal faces away
    let light = v(-ONE, 0, 0);
    let (iters, brightness) = cast_ray(&s, &ray, &light, 100);
    assert_eq!(iters, 1);
    assert_eq!(brightness, 0);
}

#[test]
fn new_renderer_state() {
    let r = Renderer::new();
    assert!(r.object.is_none());
    assert_eq!(r.trans.trans, v(0, 0, 0));
    assert_eq!(r.trans.rot.rx, v(ONE, 0, 0));
    assert_eq!(r.trans.rot.ry, v(0, ONE, 0));
    assert_eq!(r.trans.rot.rz, v(0, 0, ONE));
}

#[test]
fn translate_from_screen_composes() {
    let mut r = Renderer::new();
    r.translate_from_screen(ONE, 2 * ONE);
    // screen x runs against world x
    assert_eq!(r.trans.trans, v(-ONE, 2 * ONE, 0));
    r.translate_from_screen(ONE, 0);
    assert_eq!(r.trans.trans, v(-2 * ONE, 2 * ONE, 0));
}

#[test]
fn rotate_from_screen_zero_drag_is_identity() {
    // a zero drag composes the exact identity: the view transform is
    // unchanged, however often it is applied
    let mut r = Renderer::new();
    r.translate_from_screen(ONE, 0);
    let before = r.trans;
    r.rotate_from_screen(0, 0);
    assert_eq!(r.trans, before);
    r.rotate_from_screen(0, 0);
    r.rotate_from_screen(0, 0);
    assert_eq!(r.trans, before);
}

#[test]
fn draw_without_object_leaves_buffer_alone() {
    let r = Renderer::new();
    let mut buf = vec![7u8; 16 * 16 * 4];
    r.draw_on_buf(&mut buf, 16, 16);
    assert!(buf.iter().all(|&b| b == 7));
}

#[test]
fn draw_unit_sphere_end_to_end() {
    let mut r = Renderer::new();
    r.object = Some(sphere(ONE));
    let w: usize = 100;
    let h: usize = 100;
    let mut buf = vec![0u8; w * h * 4];
    r.draw_on_buf(&mut buf, 100, 100);

    let cap = MAX_ITERS as u8;
    let at = |x: usize, y: usize| {
        let i = 4 * (y * w + x);
        (buf[i], buf[i + 1], buf[i + 2], buf[i + 3])
    };

    // the centre pixel hits and is lit
    let (it, b1, b2, b3) = at(50, 50);
    assert!(it < cap);
    assert!(b1 > 0);
    assert_eq!(b1, b2);
    assert_eq!(b3, 0);

    // the corners miss: iteration byte at the cap, brightness zero
    for (x, y) in [(0, 0), (99, 0), (0, 99), (99, 99)] {
        let (it, b1, b2, b3) = at(x, y);
        assert_eq!(it, cap);
        assert_eq!(b1, 0);
        assert_eq!(b2, 0);
        assert_eq!(b3, 0);
    }

    // every fourth byte was left untouched, and every ray marched at
    // least once
    for p in 0..(w * h) {
        assert_eq!(buf[4 * p + 3], 0);
        assert!(buf[4 * p] >= 1);
    }

    // the hit region is contiguous along the middle row and the middle
    // column, and centred near the middle
    for line in 0..2 {
        let probe = |i: usize| if line == 0 { at(i, 50).0 } else { at(50, i).0 };
        let first = (0..w).find(|&i| probe(i) < cap);
        let last = (0..w).rev().find(|&i| probe(i) < cap);
        let (first, last) = (first.unwrap(), last.unwrap());
        assert!(first <= 50 && 50 <= last);
        for i in first..=last {
            assert!(probe(i) < cap);
        }
        let centre = (first + last) / 2;
        assert!((centre as i64 - 50).abs() <= 2);
    }

    // misses are exactly the pixels with the cap in the iteration byte,
    // and every miss is dark
    for p in 0..(w * h) {
        if buf[4 * p] == cap {
            assert_eq!(buf[4 * p + 1], 0);
        }
    }
}

#[test]
fn draw_with_empty_grid_leaves_buffer_alone() {
    let mut r = Renderer::new();
    r.object = Some(sphere(ONE));
    let mut buf = vec![3u8; 64];
    r.draw_on_buf(&mut buf, 0, 16);
    r.draw_on_buf(&mut buf, 16, 0);
    r.draw_on_buf(&mut buf, 0, 0);
    assert!(buf.iter().all(|&b| b == 3));
}

#[test]
fn draw_respects_buffer_tail() {
    let mut r = Renderer::new();
    r.object = Some(sphere(ONE));
    // a buffer longer than the frame: the tail stays as it was
    let mut buf = vec![9u8; 8 * 8 * 4 + 13];
    r.draw_on_buf(&mut buf, 8, 8);
    for i in (8 * 8 * 4)..buf.len() {
        assert_eq!(buf[i], 9);
    }
}
