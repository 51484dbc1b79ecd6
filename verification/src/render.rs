//! The sphere-tracing renderer.
//!
//! A ray marches by the field value until the value falls below the hit
//! tolerance `EPSILON` (a hit), exceeds the miss bound `MAXVAL` (a miss), or
//! the hard iteration cap runs out (also a miss, so every ray terminates).
//! A hit is shaded by the dot product of the surface normal with the light
//! direction; a back-facing hit counts as brightness zero, exactly like a
//! miss. Each pixel takes four bytes: the iteration count (the cap for a
//! miss), twice the squared-brightness byte, and an untouched fourth byte.

use vstd::prelude::*;
use crate::fx::{fx_div, fx_div_s, fx_mul, fx_mul_s, fx_neg, fx_neg_s, min_i, to_fx, to_fx_s,
    EPSILON, FX_ONE, MAXVAL};
use crate::shape::{spec_dist, spec_normal, Shape};
use crate::vec3::{dot, dot_s, normalize, normalize_s, vadd, vadd_s, vscale, vscale_s, Ray,
    Vector};
use crate::xform::{affine_apply_point, affine_apply_point_s, affine_apply_vec,
    affine_apply_vec_s, affine_compose, affine_compose_s, affine_from_rot,
    affine_from_translation, affine_identity, affine_identity_s, rot_euler, rot_euler_s,
    rot_identity_s, Affine};

verus! {

/// Hard cap on marching iterations; a miss also reports this count.
pub const MAX_ITERS: usize = 255;

/// One advance of the march: the direction renormalized, the point moved by
/// the field value.
pub open spec fn march_step_s(o: Vector, d: Vector, v: int) -> Vector {
    vadd_s(o, vscale_s(normalize_s(d), v))
}

/// The marching recursion: normalize, advance by the field value,
/// re-evaluate, count the iteration, and only then test — the field beyond
/// the miss bound ends the ray as a miss (reported at the cap), the field
/// below the hit tolerance ends it as a hit at the advanced point, and spent
/// fuel ends it as a miss so every ray terminates. A ray therefore always
/// counts at least one iteration.
pub open spec fn spec_march(s: Shape, o: Vector, d: Vector, v: int, iter: nat, fuel: nat) -> (
    nat,
    bool,
    Vector,
)
    decreases fuel,
{
    if fuel == 0 {
        (MAX_ITERS as nat, false, o)
    } else {
        let nd = normalize_s(d);
        let no = march_step_s(o, d, v);
        let nv = spec_dist(s, no);
        if nv > MAXVAL as int {
            (MAX_ITERS as nat, false, no)
        } else if nv < EPSILON as int {
            (iter + 1, true, no)
        } else {
            spec_march(s, no, nd, nv, iter + 1, (fuel - 1) as nat)
        }
    }
}

/// Brightness of a hit at `p`: the normal against the light, clamped to
/// [0, FX_ONE]; a back-facing surface is as dark as a miss.
pub open spec fn spec_shade(s: Shape, p: Vector, light: Vector) -> int {
    let dt = dot_s(spec_normal(s, p), light);
    if dt < 0 {
        0
    } else if dt > FX_ONE as int {
        FX_ONE as int
    } else {
        dt
    }
}

/// A full cast: iteration count and brightness of one ray. Hits count at
/// most `MAX_ITERS - 1` iterations, so the cap in the count byte marks a
/// miss unambiguously.
pub open spec fn spec_cast(s: Shape, o: Vector, d: Vector, v0: int, light: Vector) -> (nat, int) {
    let (it, hit, pt) = spec_march(s, o, d, v0, 0, (MAX_ITERS - 1) as nat);
    if hit {
        (it, spec_shade(s, pt, light))
    } else {
        (it, 0)
    }
}

/// A ray that already starts within the hit tolerance — the field is still
/// below the tolerance after the one advance by the starting value — hits at
/// the minimum iteration count, one, at the advanced point.
pub proof fn march_immediate_hit(s: Shape, o: Vector, d: Vector, v: int)
    requires
        spec_dist(s, march_step_s(o, d, v)) < EPSILON as int,
    ensures
        spec_march(s, o, d, v, 0, (MAX_ITERS - 1) as nat) == (1nat, true, march_step_s(o, d, v)),
{
}

/// A step that carries the field value beyond the miss bound terminates the
/// ray at once as a miss, reported at the iteration cap with brightness
/// zero.
pub proof fn cast_miss_beyond_bound(s: Shape, o: Vector, d: Vector, v0: int, light: Vector)
    requires
        spec_dist(s, march_step_s(o, d, v0)) > MAXVAL as int,
    ensures
        spec_cast(s, o, d, v0, light) == (MAX_ITERS as nat, 0int),
{
}

/// The squared-brightness output byte: `round(255 * b^2)` for a brightness
/// `b` in [0, FX_ONE].
pub open spec fn bright_byte_s(b: int) -> int {
    (255 * fx_mul_s(b, b) + 32768) / 65536
}

/// The fixed scene camera and renderer state: a light direction, the
/// accumulated view transform, and at most one root solid.
pub struct Renderer {
    pub light_dir: Vector,
    pub trans: Affine,
    pub object: Option<Shape>,
}

/// One ray cast against the solid: the iteration count at termination and
/// the brightness (zero for a miss or a back-facing hit).
pub fn cast_ray(s: &Shape, r: &Ray, light: &Vector, origin_value: i64) -> (res: (usize, i64))
    ensures
        res.0 as nat == spec_cast(*s, r.origin, r.dir, origin_value as int, *light).0,
        res.1 as int == spec_cast(*s, r.origin, r.dir, origin_value as int, *light).1,
        1 <= res.0 <= MAX_ITERS,
        0 <= res.1 <= FX_ONE,
{
    let mut origin: Vector = r.origin;
    let mut dir: Vector = r.dir;
    let mut value: i64 = origin_value;
    let mut iter: usize = 0;
    let mut fuel: usize = MAX_ITERS - 1;
    loop
        invariant
            iter + fuel == MAX_ITERS - 1,
            spec_march(*s, r.origin, r.dir, origin_value as int, 0, (MAX_ITERS - 1) as nat)
                == spec_march(*s, origin, dir, value as int, iter as nat, fuel as nat),
        decreases fuel,
    {
        if fuel == 0 {
            return (MAX_ITERS, 0);
        }
        let ghost go = origin;
        let ghost gd = dir;
        let ghost gv = value;
        dir = normalize(dir);
        origin = vadd(origin, vscale(dir, value));
        value = s.distance(origin);
        iter = iter + 1;
        fuel = fuel - 1;
        proof {
            assert(origin == march_step_s(go, gd, gv as int));
        }
        if value > MAXVAL {
            return (MAX_ITERS, 0);
        }
        if value < EPSILON {
            proof {
                assert(spec_march(*s, go, gd, gv as int, (iter - 1) as nat, (fuel + 1) as nat)
                    == (iter as nat, true, origin));
            }
            let n: Vector = s.normal(origin);
            let dt: i64 = dot(n, *light);
            let b: i64 = if dt < 0 {
                0
            } else if dt > FX_ONE {
                FX_ONE
            } else {
                dt
            };
            return (iter, b);
        }
        proof {
            assert(spec_march(*s, go, gd, gv as int, (iter - 1) as nat, (fuel + 1) as nat)
                == spec_march(*s, origin, dir, value as int, iter as nat, fuel as nat));
        }
    }
}

/// The scale of one pixel step: the fixed-point reciprocal of the smaller
/// image dimension, so the field of view does not depend on aspect ratio.
pub open spec fn spec_scale_px(width: int, height: int) -> int {
    fx_div_s(FX_ONE as int, to_fx_s(min_i(width, height)))
}

/// The marching direction of the pixel at column `x`, row `y`.
pub open spec fn spec_ray_dir(
    front: Vector,
    rl: Vector,
    tb: Vector,
    scale: int,
    x: int,
    w2: int,
    y: int,
    h2: int,
) -> Vector {
    vadd_s(
        vadd_s(front, vscale_s(tb, fx_mul_s(to_fx_s(y - h2), scale))),
        vscale_s(rl, fx_mul_s(to_fx_s(x - w2), scale)),
    )
}

/// The two significant bytes of one pixel, from the camera frame already
/// transformed into view space.
pub open spec fn spec_pixel_from(
    s: Shape,
    front: Vector,
    rl: Vector,
    tb: Vector,
    light: Vector,
    o: Vector,
    v0: int,
    scale: int,
    x: int,
    w2: int,
    y: int,
    h2: int,
) -> (int, int) {
    let d = spec_ray_dir(front, rl, tb, scale, x, w2, y, h2);
    let res = spec_cast(s, o, d, v0, light);
    (res.0 as int, bright_byte_s(res.1))
}

/// The two significant bytes of the pixel at `(x, y)`: the iteration count
/// and the squared-brightness byte. The camera sits two units behind the
/// scene along the transformed view direction.
pub open spec fn spec_pixel(
    s: Shape,
    trans: Affine,
    light0: Vector,
    x: int,
    y: int,
    w: int,
    h: int,
) -> (int, int) {
    spec_pixel_from(
        s,
        affine_apply_vec_s(trans, Vector { x: 0, y: 0, z: FX_ONE }),
        affine_apply_vec_s(trans, Vector { x: FX_ONE, y: 0, z: 0 }),
        affine_apply_vec_s(trans, Vector { x: 0, y: (-FX_ONE) as i64, z: 0 }),
        affine_apply_vec_s(trans, light0),
        affine_apply_point_s(trans, Vector { x: 0, y: 0, z: (-2 * FX_ONE) as i64 }),
        spec_dist(s, affine_apply_point_s(trans, Vector { x: 0, y: 0, z: (-2 * FX_ONE) as i64 })),
        spec_scale_px(w, h),
        x,
        w / 2,
        y,
        h / 2,
    )
}

/// One pixel rendered: the iteration byte and the brightness byte.
fn render_pixel(
    s: &Shape,
    dir_row: Vector,
    rl: Vector,
    light: Vector,
    o: Vector,
    v0: i64,
    scale: i64,
    x: i32,
    w2: i32,
) -> (r: (u8, u8))
    requires
        0 <= x,
        0 <= w2,
    ensures
        ({
            let d = vadd_s(dir_row, vscale_s(rl, fx_mul_s(to_fx_s(x as int - w2 as int), scale as int)));
            let res = spec_cast(*s, o, d, v0 as int, light);
            r.0 as int == res.0 && r.1 as int == bright_byte_s(res.1)
        }),
{
    let dir: Vector = vadd(dir_row, vscale(rl, fx_mul(to_fx((x - w2) as i64), scale)));
    let ray = Ray { origin: o, dir };
    let (it, v): (usize, i64) = cast_ray(s, &ray, &light, v0);
    let v2: i64 = fx_mul(v, v);
    proof {
        assert(0 <= v as int * v as int <= 65536 * 65536) by (nonlinear_arith)
            requires
                0 <= v as int <= 65536,
        ;
        assert(fx_mul_s(v as int, v as int) == (v as int * v as int) / 65536);
        assert(0 <= v2 <= 65536) by (nonlinear_arith)
            requires
                v2 == (v as int * v as int) / 65536,
                0 <= v as int * v as int <= 65536 * 65536,
        ;
    }
    let bn: u64 = (255 * (v2 as u64) + 32768) / 65536;
    (it as u8, bn as u8)
}

/// The whole rendered buffer: over the first `w * h * 4` bytes, byte 0 of a
/// pixel is its iteration count, bytes 1 and 2 its brightness byte, byte 3
/// is left as it was; everything beyond the frame is left as it was.
pub open spec fn spec_frame(
    s: Shape,
    trans: Affine,
    light0: Vector,
    w: int,
    h: int,
    orig: Seq<u8>,
) -> Seq<u8> {
    Seq::new(
        orig.len(),
        |i: int|
            {
                if i < w * h * 4 {
                    let pi = i / 4;
                    let px = spec_pixel(s, trans, light0, pi % w, pi / w, w, h);
                    if i % 4 == 0 {
                        px.0 as u8
                    } else if i % 4 == 3 {
                        orig[i]
                    } else {
                        px.1 as u8
                    }
                } else {
                    orig[i]
                }
            },
    )
}

/// Where the bytes of the pixel at `(x, y)` land in the frame and what they
/// hold.
proof fn lemma_frame_bytes(
    s: Shape,
    trans: Affine,
    light0: Vector,
    w: int,
    h: int,
    orig: Seq<u8>,
    x: int,
    y: int,
)
    requires
        0 <= x < w,
        0 <= y < h,
        orig.len() >= w * h * 4,
    ensures
        ({
            let pi = y * w + x;
            let px = spec_pixel(s, trans, light0, x, y, w, h);
            let frame = spec_frame(s, trans, light0, w, h, orig);
            &&& 0 <= 4 * pi && 4 * pi + 3 < w * h * 4 <= orig.len()
            &&& frame[4 * pi] == px.0 as u8
            &&& frame[4 * pi + 1] == px.1 as u8
            &&& frame[4 * pi + 2] == px.1 as u8
            &&& frame[4 * pi + 3] == orig[4 * pi + 3]
        }),
{
    let pi = y * w + x;
    assert(0 <= pi && pi + 1 <= w * h) by (nonlinear_arith)
        requires
            0 <= x < w,
            0 <= y < h,
            pi == y * w + x,
    ;
    assert(4 * (pi + 1) <= 4 * (w * h));
    assert(pi % w == x && pi / w == y) by (nonlinear_arith)
        requires
            pi == y * w + x,
            0 <= x < w,
            0 <= y,
    ;
    assert((4 * pi + 0) / 4 == pi && (4 * pi + 0) % 4 == 0 && (4 * pi + 1) / 4 == pi && (4 * pi
        + 1) % 4 == 1 && (4 * pi + 2) / 4 == pi && (4 * pi + 2) % 4 == 2 && (4 * pi + 3) / 4 == pi
        && (4 * pi + 3) % 4 == 3) by (nonlinear_arith)
        requires
            0 <= pi,
    ;
}

impl Renderer {
    /// A renderer with the fixed light from the upper left front, the
    /// identity view transform, and no solid yet.
    pub fn new() -> (r: Renderer)
        ensures
            r.light_dir == (Vector { x: -43690i64, y: 43690i64, z: -21845i64 }),
            r.trans == affine_identity_s(),
            r.object is None,
    {
        Renderer {
            light_dir: Vector { x: -43690i64, y: 43690i64, z: -21845i64 },
            trans: affine_identity(),
            object: None,
        }
    }

    /// Composes one incremental rotation from a screen drag into the view
    /// transform: the vertical drag pitches about x, the horizontal yaws
    /// about y. Angles are fixed-point radians.
    pub fn rotate_from_screen(&mut self, x: i64, y: i64)
        ensures
            final(self).trans == affine_compose_s(
                old(self).trans,
                (Affine {
                    rot: rot_euler_s(y as int, x as int),
                    trans: Vector { x: 0, y: 0, z: 0 },
                }),
            ),
            final(self).light_dir == old(self).light_dir,
            final(self).object == old(self).object,
    {
        let other = affine_from_rot(rot_euler(y, x));
        self.trans = affine_compose(&self.trans, &other);
    }

    /// Composes one incremental shift, taken off a screen drag, into the
    /// view transform (screen x runs against world x).
    pub fn translate_from_screen(&mut self, x: i64, y: i64)
        ensures
            final(self).trans == affine_compose_s(
                old(self).trans,
                (Affine {
                    rot: rot_identity_s(),
                    trans: Vector { x: fx_neg_s(x as int) as i64, y, z: 0 },
                }),
            ),
            final(self).light_dir == old(self).light_dir,
            final(self).object == old(self).object,
    {
        let other = affine_from_translation(Vector { x: fx_neg(x), y, z: 0 });
        self.trans = affine_compose(&self.trans, &other);
    }

    /// Renders the current solid into the caller's byte buffer, four bytes
    /// per pixel in row-major order; with no solid, or an empty pixel grid,
    /// the buffer is untouched. The fourth byte of each pixel is never
    /// written, so a caller that wants it zero must pre-zero the buffer.
    #[verifier::loop_isolation(false)]
    #[verifier::rlimit(100)]
    #[verifier::spinoff_prover]
    pub fn draw_on_buf(&self, buf: &mut Vec<u8>, width: i32, height: i32)
        requires
            0 <= width,
            0 <= height,
            old(buf)@.len() >= width * height * 4,
        ensures
            final(buf)@.len() == old(buf)@.len(),
            self.object is None ==> final(buf)@ == old(buf)@,
            self.object matches Some(s) ==> final(buf)@ == spec_frame(
                s,
                self.trans,
                self.light_dir,
                width as int,
                height as int,
                old(buf)@,
            ),
    {
        let ghost orig = buf@;
        let blen: usize = buf.len();
        match &self.object {
            None => {},
            Some(obj) => {
                let ghost frame = spec_frame(
                    *obj,
                    self.trans,
                    self.light_dir,
                    width as int,
                    height as int,
                    orig,
                );
                let mn: i32 = if width < height {
                    width
                } else {
                    height
                };
                let scale: i64 = fx_div(FX_ONE, to_fx(mn as i64));
                let w2: i32 = width / 2;
                let h2: i32 = height / 2;
                let dir_front: Vector = affine_apply_vec(
                    &self.trans,
                    Vector { x: 0, y: 0, z: FX_ONE },
                );
                let dir_rl: Vector = affine_apply_vec(
                    &self.trans,
                    Vector { x: FX_ONE, y: 0, z: 0 },
                );
                let dir_tb: Vector = affine_apply_vec(
                    &self.trans,
                    Vector { x: 0, y: -FX_ONE, z: 0 },
                );
                let light: Vector = affine_apply_vec(&self.trans, self.light_dir);
                let ray_origin: Vector = affine_apply_point(
                    &self.trans,
                    Vector { x: 0, y: 0, z: -2 * FX_ONE },
                );
                let origin_value: i64 = obj.distance(ray_origin);
                let mut index: usize = 0;
                let mut y: i32 = 0;
                while y < height
                    invariant
                        0 <= y <= height,
                        index == 4 * (y * width),
                        buf@.len() == orig.len(),
                        forall|i: int| 0 <= i < index ==> buf@[i] == frame[i],
                        forall|i: int| index <= i < orig.len() ==> buf@[i] == orig[i],
                    decreases height - y,
                {
                    let dir_row: Vector = vadd(
                        dir_front,
                        vscale(dir_tb, fx_mul(to_fx((y - h2) as i64), scale)),
                    );
                    let mut x: i32 = 0;
                    while x < width
                        invariant
                            0 <= y < height,
                            0 <= x <= width,
                            index == 4 * (y * width + x),
                            buf@.len() == orig.len(),
                            forall|i: int| 0 <= i < index ==> buf@[i] == frame[i],
                            forall|i: int| index <= i < orig.len() ==> buf@[i] == orig[i],
                        decreases width - x,
                    {
                        let (b0, b): (u8, u8) = render_pixel(
                            obj,
                            dir_row,
                            dir_rl,
                            light,
                            ray_origin,
                            origin_value,
                            scale,
                            x,
                            w2,
                        );
                        let ghost pi: int = y * width + x;
                        proof {
                            lemma_frame_bytes(
                                *obj,
                                self.trans,
                                self.light_dir,
                                width as int,
                                height as int,
                                orig,
                                x as int,
                                y as int,
                            );
                            assert((b0 as int, b as int) == spec_pixel(
                                *obj,
                                self.trans,
                                self.light_dir,
                                x as int,
                                y as int,
                                width as int,
                                height as int,
                            ));
                            assert(index as int == 4 * pi);
                            assert(orig.len() <= usize::MAX);
                        }
                        buf[index] = b0;
                        index = index + 1;
                        buf[index] = b;
                        index = index + 1;
                        buf[index] = b;
                        index = index + 1;
                        index = index + 1;
                        x = x + 1;
                    }
                    y = y + 1;
                    proof {
                        assert(y * width == (y - 1) * width + width) by (nonlinear_arith);
                    }
                }
                proof {
                    assert(index == 4 * (height * width));
                    assert(buf@ =~= frame);
                }
            },
        }
    }
}

} // verus!
