//! The scene and its recursive ray-casting/shading engine.
//!
//! For every pixel a primary ray is built from the camera basis; the
//! nearest intersection across all objects is shaded against every light
//! with shadow testing, and a mirror-reflection ray is followed recursively
//! up to the configured depth.

use vstd::prelude::*;

use crate::camera::Camera;
use crate::color::{Color, CHANNEL_MAX};
use crate::fx::{fx_div, fx_mul, fx_neg, iabs, sat64, Fx, SCALE};
use crate::image::Image;
use crate::light::Light;
use crate::object::{GetTexture, Hit, Intersect, Normal, Object};
use crate::point::Point;
use crate::texture::TextureTrait;
use crate::trig::{fx_tan, tan_rad};
use crate::vector::{
    fx_pow, max2, scalar_pow, v3_add, v3_clamp, v3_div_s, v3_dot, v3_mag, v3_mul, v3_neg,
    v3_normalize, v3_scale, v3_sub, v3_zero, Vector, V3,
};

verus! {

/// Intersection points at most this close to the ray origin are taken for
/// the origin itself (self-intersections) and discarded.
pub const SELF_HIT_EPS: i64 = 1_000;

/// The exponent of the specular term.
pub const SHININESS: u32 = 50;

/// A camera, a list of lights and a list of objects, with the background
/// color of rays that hit nothing and the reflection recursion limit.
pub struct Scene {
    pub cam: Camera,
    pub lights: Vec<Light>,
    pub objects: Vec<Object>,
    pub background: Color,
    pub max_rec: usize,
}

/// The nearest usable point of one object's intersection list, with its
/// distance: points within `SELF_HIT_EPS` of the origin are discarded, and
/// of equally near points the earliest wins.
pub open spec fn best_of_points(pts: Seq<V3>, p: V3, i: int, best: Option<(V3, int)>) -> Option<
    (V3, int),
>
    decreases pts.len() - i,
{
    if i < 0 || i >= pts.len() {
        best
    } else {
        let d = v3_mag(v3_sub(pts[i], p));
        let nb = if d <= SELF_HIT_EPS {
            best
        } else {
            match best {
                Option::None => Option::Some((pts[i], d)),
                Option::Some((bp, bd)) => if d < bd {
                    Option::Some((pts[i], d))
                } else {
                    best
                },
            }
        };
        best_of_points(pts, p, i + 1, nb)
    }
}

/// The globally nearest hit across the objects, as
/// `(point, object index, distance)`; of equally near objects the earliest
/// wins.
pub open spec fn scan_objects(
    objs: Seq<Object>,
    p: V3,
    v: V3,
    i: int,
    best: Option<(V3, int, int)>,
) -> Option<(V3, int, int)>
    decreases objs.len() - i,
{
    if i < 0 || i >= objs.len() {
        best
    } else {
        let cand = best_of_points(objs[i].spec_points(p, v), p, 0, Option::None);
        let nb = match cand {
            Option::None => best,
            Option::Some((cp, cd)) => match best {
                Option::None => if cd < i64::MAX {
                    Option::Some((cp, i, cd))
                } else {
                    best
                },
                Option::Some((bp, bi, bd)) => if cd < bd {
                    Option::Some((cp, i, cd))
                } else {
                    best
                },
            },
        };
        scan_objects(objs, p, v, i + 1, nb)
    }
}

/// What a ray from `p` along `v` hits first, if anything.
pub open spec fn spec_cast(objs: Seq<Object>, p: V3, v: V3) -> Option<(V3, int, int)> {
    scan_objects(objs, p, v, 0, Option::None)
}

/// The color one light contributes at a point: always the ambient term
/// `color * ka`; and, when no object stands strictly nearer than the light
/// along the shadow ray, also the diffuse term
/// `color (*) normalize(intensity) * kd * max(0, n . l)` and the
/// sign-preserving specular term `intensity * |ks * (r . l)^50| * sign(r . l)`.
pub open spec fn light_term(
    objs: Seq<Object>,
    light: Light,
    p: V3,
    normal: V3,
    reflect: V3,
    kd: int,
    ks: int,
    ka: int,
    color: V3,
) -> V3 {
    let l_vec = v3_sub(light.point@, p);
    let l_dist = v3_mag(l_vec);
    let ln = v3_normalize(l_vec);
    let amb = v3_scale(color, ka);
    let dnl = max2(0, v3_dot(normal, ln));
    let i_d = v3_scale(v3_scale(v3_mul(color, v3_normalize(light.intensity@)), kd), dnl);
    let rl = v3_dot(reflect, ln);
    let pw = sat64(iabs(fx_mul(ks, fx_pow(rl, 50))));
    let spw = if rl < 0 {
        fx_neg(pw)
    } else {
        pw
    };
    let i_s = v3_scale(light.intensity@, spw);
    let out = v3_add(i_d, i_s);
    let occluded = match spec_cast(objs, p, l_vec) {
        Option::None => false,
        Option::Some((sp, si, sd)) => sd < l_dist,
    };
    if occluded {
        amb
    } else {
        v3_add(amb, out)
    }
}

/// The lights' contributions accumulated left to right from index `i`.
pub open spec fn lights_acc(
    objs: Seq<Object>,
    lights: Seq<Light>,
    p: V3,
    normal: V3,
    reflect: V3,
    kd: int,
    ks: int,
    ka: int,
    color: V3,
    i: int,
    acc: V3,
) -> V3
    decreases lights.len() - i,
{
    if i < 0 || i >= lights.len() {
        acc
    } else {
        lights_acc(
            objs,
            lights,
            p,
            normal,
            reflect,
            kd,
            ks,
            ka,
            color,
            i + 1,
            v3_add(acc, light_term(objs, lights[i], p, normal, reflect, kd, ks, ka, color)),
        )
    }
}

/// The color at the hit point `p` of object `idx` (with hit descriptor
/// `path`), seen along `v`, at recursion depth `rec`: the surface normal is
/// flipped toward the viewer, every light contributes per [`light_term`],
/// the mirror reflection is shaded recursively while `rec` is below the
/// scene's limit and scaled by `ks / 2`, and the total is clamped to the
/// channel range.
pub open spec fn spec_shade(s: Scene, p: V3, idx: int, path: Seq<usize>, v: V3, rec: int) -> V3
    decreases s.max_rec - rec,
{
    let obj = s.objects[idx];
    let n0 = obj.spec_normal(p, path);
    let normal = if v3_dot(n0, v) > 0 {
        v3_neg(n0)
    } else {
        n0
    };
    let reflect = v3_sub(v, v3_scale(v3_scale(normal, v3_dot(v, normal)), 2 * SCALE as int));
    let tex = obj.spec_texture(path);
    let coeff = tex.spec_coefficients(p);
    let color = tex.spec_color(p);
    let direct = lights_acc(
        s.objects@,
        s.lights@,
        p,
        normal,
        reflect,
        coeff.0,
        coeff.1,
        coeff.2,
        color,
        0,
        v3_zero(),
    );
    let total = if rec >= s.max_rec {
        direct
    } else {
        match spec_cast(s.objects@, p, reflect) {
            Option::None => direct,
            Option::Some((cp, ci, cd)) => {
                let sub = spec_shade(s, cp, ci, s.objects@[ci].spec_path(p, reflect), reflect, rec + 1);
                v3_add(direct, v3_div_s(v3_scale(sub, coeff.1), 2 * SCALE as int))
            },
        }
    };
    v3_clamp(total, 0, CHANNEL_MAX as int)
}

/// The color of pixel `(i, j)` (row `i` from the top, column `j` from the
/// left) of a `height x width` render: the primary ray through the pixel's
/// view-plane point, shaded at its nearest hit, or the background color
/// when it hits nothing.
#[verifier::opaque]
pub open spec fn spec_pixel(s: Scene, height: int, width: int, i: int, j: int) -> V3 {
    let center = s.cam.center@;
    let gx = fx_tan(crate::fx::fx_divi(s.cam.alpha.val(), 2));
    let gy = fx_mul(gx, fx_div(crate::fx::fx_mul_int(height - 1), crate::fx::fx_mul_int(width - 1)));
    let qx = v3_div_s(
        v3_scale(v3_scale(s.cam.right@, 2 * SCALE as int), gx),
        crate::fx::fx_mul_int(width - 1),
    );
    let qy = v3_div_s(
        v3_scale(v3_scale(s.cam.up@, 2 * SCALE as int), gy),
        crate::fx::fx_mul_int(height - 1),
    );
    let tl = v3_add(
        v3_sub(v3_add(center, s.cam.forward@), v3_scale(s.cam.right@, gx)),
        v3_scale(s.cam.up@, gy),
    );
    let jv = v3_scale(qx, crate::fx::fx_mul_int(j));
    let iv = v3_scale(qy, crate::fx::fx_mul_int(i));
    let pp = v3_sub(v3_add(tl, jv), iv);
    let dir = v3_normalize(v3_sub(pp, center));
    match spec_cast(s.objects@, center, dir) {
        Option::None => s.background@,
        Option::Some((cp, ci, cd)) => spec_shade(
            s,
            cp,
            ci,
            s.objects@[ci].spec_path(center, dir),
            dir,
            0,
        ),
    }
}

/// The nearest usable point of one intersection list, with its distance.
fn best_point(points: &Vec<Point>, p: Point) -> (r: Option<(Point, Fx)>)
    ensures
        ({
            let b = best_of_points(points@.map_values(|q: Point| q@), p@, 0, Option::None);
            match r {
                Option::None => b is None,
                Option::Some((bp, bd)) => b == Option::Some((bp@, bd.val())),
            }
        }),
{
    let ghost pts = points@.map_values(|q: Point| q@);
    let ghost mut acc: Option<(V3, int)> = Option::None;
    let mut found = false;
    let mut best_pt = p;
    let mut best_dist = Fx { raw: 0 };
    let mut i: usize = 0;
    while i < points.len()
        invariant
            pts == points@.map_values(|q: Point| q@),
            i <= pts.len(),
            best_of_points(pts, p@, 0, Option::None) == best_of_points(pts, p@, i as int, acc),
            found == (acc is Some),
            acc matches Option::Some((bp, bd)) ==> bp == best_pt@ && bd == best_dist.val(),
        decreases pts.len() - i,
    {
        let ghost acc0 = acc;
        let q = points[i];
        let d = q.sub_v(&p).mag();
        if d.raw > SELF_HIT_EPS {
            if !found || d.raw < best_dist.raw {
                found = true;
                best_pt = q;
                best_dist = d;
                proof {
                    acc = Option::Some((q@, d.val()));
                }
            }
        }
        proof {
            assert(best_of_points(pts, p@, i as int, acc0) == best_of_points(
                pts,
                p@,
                i + 1,
                acc,
            ));
        }
        i = i + 1;
    }
    if found {
        Option::Some((best_pt, best_dist))
    } else {
        Option::None
    }
}

impl Scene {
    /// Scans every object for the intersection nearest to `p` along `v`
    /// (ignoring points within `SELF_HIT_EPS` of `p`): the hit point, the
    /// winning object's index and hit descriptor, and the distance.
    pub fn cast_ray(&self, p: Point, v: Vector) -> (r: Option<(Point, usize, Fx, Hit)>)
        ensures
            ({
                let sc = spec_cast(self.objects@, p@, v@);
                match r {
                    Option::None => sc is None,
                    Option::Some((pt, idx, d, hit)) => {
                        &&& 0 <= idx < self.objects@.len()
                        &&& sc == Option::Some((pt@, idx as int, d.val()))
                        &&& hit@ == self.objects@[idx as int].spec_path(p@, v@)
                    },
                }
            }),
    {
        let ghost objs = self.objects@;
        let ghost mut acc: Option<(V3, int, int)> = Option::None;
        let mut found = false;
        let mut best_pt = p;
        let mut best_idx: usize = 0;
        let mut best_dist = Fx { raw: 0 };
        let mut best_hit = Hit::none();
        let mut i: usize = 0;
        while i < self.objects.len()
            invariant
                objs == self.objects@,
                i <= objs.len(),
                scan_objects(objs, p@, v@, 0, Option::None) == scan_objects(
                    objs,
                    p@,
                    v@,
                    i as int,
                    acc,
                ),
                found == (acc is Some),
                acc matches Option::Some((bp, bi, bd)) ==> {
                    &&& 0 <= bi < objs.len()
                    &&& bp == best_pt@
                    &&& bi == best_idx as int
                    &&& bd == best_dist.val()
                    &&& best_hit@ == objs[bi].spec_path(p@, v@)
                },
            decreases objs.len() - i,
        {
            let ghost acc0 = acc;
            let (points, ohit) = self.objects[i].intersect_points(p, v);
            let cand = best_point(&points, p);
            match cand {
                Option::None => {
                },
                Option::Some((cp, cd)) => {
                    let take = if !found {
                        cd.raw < i64::MAX
                    } else {
                        cd.raw < best_dist.raw
                    };
                    if take {
                        found = true;
                        best_pt = cp;
                        best_idx = i;
                        best_dist = cd;
                        best_hit = ohit;
                        proof {
                            acc = Option::Some((cp@, i as int, cd.val()));
                        }
                    }
                },
            }
            proof {
                assert(scan_objects(objs, p@, v@, i as int, acc0) == scan_objects(
                    objs,
                    p@,
                    v@,
                    i + 1,
                    acc,
                ));
            }
            i = i + 1;
        }
        if found {
            Option::Some((best_pt, best_idx, best_dist, best_hit))
        } else {
            Option::None
        }
    }

    /// Shades the hit point `p` of object `obj_idx` seen along `v`,
    /// following the mirror reflection while `rec` is below the scene's
    /// recursion limit.
    pub fn cast_ray_rebound(
        &self,
        p: Point,
        obj_idx: usize,
        hit: &Hit,
        v: Vector,
        rec: usize,
    ) -> (r: Option<Color>)
        requires
            obj_idx < self.objects@.len(),
            rec <= self.max_rec,
        ensures
            ({
                let c = spec_shade(*self, p@, obj_idx as int, hit@, v@, rec as int);
                r matches Option::Some(col) && col@ == c
            }),
        decreases self.max_rec - rec,
    {
        let obj = &self.objects[obj_idx];
        let n0 = obj.normal(p, hit);
        let normal = if n0.dot(&v).raw > 0 {
            n0.neg()
        } else {
            n0
        };
        let reflect = v.sub(&normal.scale(v.dot(&normal)).scale(Fx { raw: 2 * SCALE }));
        let tex = obj.texture(hit);
        let coeff = tex.coefficients(&p);
        let kd = coeff.0;
        let ks = coeff.1;
        let ka = coeff.2;
        let color = tex.color(&p);
        let ghost objs = self.objects@;
        let ghost lights = self.lights@;
        let mut current = Vector::zero();
        let mut li: usize = 0;
        while li < self.lights.len()
            invariant
                objs == self.objects@,
                lights == self.lights@,
                li <= lights.len(),
                lights_acc(
                    objs,
                    lights,
                    p@,
                    normal@,
                    reflect@,
                    kd.val(),
                    ks.val(),
                    ka.val(),
                    color@,
                    0,
                    v3_zero(),
                ) == lights_acc(
                    objs,
                    lights,
                    p@,
                    normal@,
                    reflect@,
                    kd.val(),
                    ks.val(),
                    ka.val(),
                    color@,
                    li as int,
                    current@,
                ),
            decreases lights.len() - li,
        {
            let ghost cur0 = current@;
            let light = &self.lights[li];
            let l_vec = light.point.sub_v(&p);
            let l_dist = l_vec.mag();
            let ln = l_vec.normalize();
            let amb = color.to_vec().scale(ka);
            let dnl0 = normal.dot(&ln);
            let dnl = if dnl0.raw < 0 {
                Fx { raw: 0 }
            } else {
                dnl0
            };
            let i_d = color.to_vec().mul(&light.intensity.normalize()).scale(kd).scale(dnl);
            let rl = reflect.dot(&ln);
            let pw = ks.mul(scalar_pow(rl, SHININESS)).abs();
            let spw = if rl.raw < 0 {
                pw.neg()
            } else {
                pw
            };
            let i_s = light.intensity.scale(spw);
            let out = i_d.add(&i_s);
            let shadow = self.cast_ray(p, l_vec);
            let occluded = match shadow {
                Option::None => false,
                Option::Some((sp, si, sd, sh)) => sd.raw < l_dist.raw,
            };
            let term = if occluded {
                amb
            } else {
                amb.add(&out)
            };
            current = current.add(&term);
            proof {
                assert(term@ == light_term(
                    objs,
                    lights[li as int],
                    p@,
                    normal@,
                    reflect@,
                    kd.val(),
                    ks.val(),
                    ka.val(),
                    color@,
                ));
                assert(lights_acc(
                    objs,
                    lights,
                    p@,
                    normal@,
                    reflect@,
                    kd.val(),
                    ks.val(),
                    ka.val(),
                    color@,
                    li as int,
                    cur0,
                ) == lights_acc(
                    objs,
                    lights,
                    p@,
                    normal@,
                    reflect@,
                    kd.val(),
                    ks.val(),
                    ka.val(),
                    color@,
                    li + 1,
                    current@,
                ));
            }
            li = li + 1;
        }
        let total = if rec == self.max_rec {
            current
        } else {
            match self.cast_ray(p, reflect) {
                Option::None => current,
                Option::Some((cp, ci, cd, chit)) => {
                    let sub = self.cast_ray_rebound(cp, ci, &chit, reflect, rec + 1);
                    match sub {
                        Option::Some(c) => current.add(
                            &c.to_vec().scale(ks).div_s(Fx { raw: 2 * SCALE }),
                        ),
                        Option::None => current,
                    }
                },
            }
        };
        Option::Some(Color::from_vec(total))
    }

    /// One pixel of a render, from the precomputed view-plane frame.
    #[verifier::rlimit(100)]
    fn render_pixel(
        &self,
        height: usize,
        width: usize,
        center: Vector,
        tl: Vector,
        qx: Vector,
        qy: Vector,
        iv: Vector,
        i: usize,
        j: usize,
    ) -> (c: Color)
        requires
            1 <= height <= i64::MAX,
            1 <= width <= i64::MAX,
            i < height,
            j < width,
            center@ == self.cam.center@,
            ({
                let gx = fx_tan(crate::fx::fx_divi(self.cam.alpha.val(), 2));
                let gy = fx_mul(
                    gx,
                    fx_div(
                        crate::fx::fx_mul_int(height - 1),
                        crate::fx::fx_mul_int(width - 1),
                    ),
                );
                &&& tl@ == v3_add(
                    v3_sub(
                        v3_add(self.cam.center@, self.cam.forward@),
                        v3_scale(self.cam.right@, gx),
                    ),
                    v3_scale(self.cam.up@, gy),
                )
                &&& qx@ == v3_div_s(
                    v3_scale(v3_scale(self.cam.right@, 2 * SCALE as int), gx),
                    crate::fx::fx_mul_int(width - 1),
                )
                &&& qy@ == v3_div_s(
                    v3_scale(v3_scale(self.cam.up@, 2 * SCALE as int), gy),
                    crate::fx::fx_mul_int(height - 1),
                )
                &&& iv@ == v3_scale(qy@, crate::fx::fx_mul_int(i as int))
            }),
        ensures
            c@ == spec_pixel(*self, height as int, width as int, i as int, j as int),
    {
        proof {
            reveal(spec_pixel);
        }
        let jv = qx.scale(Fx::from_int(j as i64));
        let pp = tl.add(&jv).sub(&iv);
        let dir = pp.sub(&center).normalize();
        match self.cast_ray(self.cam.center, dir) {
            Option::None => self.background,
            Option::Some((cp, ci, cd, chit)) => {
                match self.cast_ray_rebound(cp, ci, &chit, dir, 0) {
                    Option::Some(c) => c,
                    Option::None => self.background,
                }
            },
        }
    }

    /// Replaces the camera (used between renders of an animation).
    pub fn with_cam(&mut self, cam: Camera)
        ensures
            final (self).cam == cam,
            final (self).lights == old(self).lights,
            final (self).objects == old(self).objects,
            final (self).background == old(self).background,
            final (self).max_rec == old(self).max_rec,
    {
        self.cam = cam;
    }

    /// Renders the scene: pixel `(i, j)` of the result is
    /// `spec_pixel(self, height, width, i, j)`, in row-major order.
    #[verifier::rlimit(50)]
    pub fn image(&self, height: usize, width: usize) -> (r: Image)
        requires
            1 <= height <= i64::MAX,
            1 <= width <= i64::MAX,
            height * width <= usize::MAX,
        ensures
            r.height == height,
            r.width == width,
            r.pixels@.len() == height * width,
            forall|i: int, j: int|
                0 <= i < height && 0 <= j < width ==> r.pixels@[i * width + j]@ == spec_pixel(
                    *self,
                    height as int,
                    width as int,
                    i,
                    j,
                ),
    {
        let mut img = Image::new(height, width);
        let gx = tan_rad(self.cam.alpha.div_int(2));
        let hm1 = Fx::from_int((height - 1) as i64);
        let wm1 = Fx::from_int((width - 1) as i64);
        let gy = gx.mul(hm1.div(wm1));
        let qx = self.cam.right.scale(Fx { raw: 2 * SCALE }).scale(gx).div_s(wm1);
        let qy = self.cam.up.scale(Fx { raw: 2 * SCALE }).scale(gy).div_s(hm1);
        let center = self.cam.center.to_vec();
        let tl = center.add(&self.cam.forward).sub(&self.cam.right.scale(gx)).add(
            &self.cam.up.scale(gy),
        );
        let mut i: usize = 0;
        while i < height
            invariant
                i <= height,
                height * width <= usize::MAX,
                1 <= height <= i64::MAX,
                1 <= width <= i64::MAX,
                img.height == height,
                img.width == width,
                img.pixels@.len() == i * width,
                forall|i0: int, j0: int|
                    0 <= i0 < i && 0 <= j0 < width ==> img.pixels@[i0 * width + j0]@ == spec_pixel(
                        *self,
                        height as int,
                        width as int,
                        i0,
                        j0,
                    ),
                gx.val() == fx_tan(crate::fx::fx_divi(self.cam.alpha.val(), 2)),
                gy.val() == fx_mul(
                    gx.val(),
                    fx_div(
                        crate::fx::fx_mul_int(height - 1),
                        crate::fx::fx_mul_int(width - 1),
                    ),
                ),
                qx@ == v3_div_s(
                    v3_scale(v3_scale(self.cam.right@, 2 * SCALE as int), gx.val()),
                    crate::fx::fx_mul_int(width - 1),
                ),
                qy@ == v3_div_s(
                    v3_scale(v3_scale(self.cam.up@, 2 * SCALE as int), gy.val()),
                    crate::fx::fx_mul_int(height - 1),
                ),
                center@ == self.cam.center@,
                tl@ == v3_add(
                    v3_sub(
                        v3_add(self.cam.center@, self.cam.forward@),
                        v3_scale(self.cam.right@, gx.val()),
                    ),
                    v3_scale(self.cam.up@, gy.val()),
                ),
            decreases height - i,
        {
            let iv = qy.scale(Fx::from_int(i as i64));
            let mut j: usize = 0;
            proof {
                assert(i * width + width <= height * width) by (nonlinear_arith)
                    requires
                        0 <= i < height,
                        width >= 0,
                ;
            }
            while j < width
                invariant
                    i < height,
                    j <= width,
                    height * width <= usize::MAX,
                    i * width + width <= height * width,
                    1 <= height <= i64::MAX,
                    1 <= width <= i64::MAX,
                    img.height == height,
                    img.width == width,
                    img.pixels@.len() == i * width + j,
                    forall|i0: int, j0: int|
                        0 <= i0 < i && 0 <= j0 < width ==> img.pixels@[i0 * width + j0]@
                            == spec_pixel(*self, height as int, width as int, i0, j0),
                    forall|j0: int|
                        0 <= j0 < j ==> img.pixels@[i * width + j0]@ == spec_pixel(
                            *self,
                            height as int,
                            width as int,
                            i as int,
                            j0,
                        ),
                    gx.val() == fx_tan(crate::fx::fx_divi(self.cam.alpha.val(), 2)),
                    gy.val() == fx_mul(
                        gx.val(),
                        fx_div(
                            crate::fx::fx_mul_int(height - 1),
                            crate::fx::fx_mul_int(width - 1),
                        ),
                    ),
                    qx@ == v3_div_s(
                        v3_scale(v3_scale(self.cam.right@, 2 * SCALE as int), gx.val()),
                        crate::fx::fx_mul_int(width - 1),
                    ),
                    qy@ == v3_div_s(
                        v3_scale(v3_scale(self.cam.up@, 2 * SCALE as int), gy.val()),
                        crate::fx::fx_mul_int(height - 1),
                    ),
                    center@ == self.cam.center@,
                    tl@ == v3_add(
                        v3_sub(
                            v3_add(self.cam.center@, self.cam.forward@),
                            v3_scale(self.cam.right@, gx.val()),
                        ),
                        v3_scale(self.cam.up@, gy.val()),
                    ),
                    iv@ == v3_scale(qy@, crate::fx::fx_mul_int(i as int)),
                decreases width - j,
            {
                let pixel: Color = self.render_pixel(height, width, center, tl, qx, qy, iv, i, j);
                img.push(pixel);
                proof {
                    assert forall|i0: int, j0: int|
                        0 <= i0 < i && 0 <= j0 < width implies img.pixels@[i0 * width + j0]@
                        == spec_pixel(*self, height as int, width as int, i0, j0) by {
                        assert(i0 * width + j0 < i * width + j) by (nonlinear_arith)
                            requires
                                0 <= i0,
                                i0 < i,
                                0 <= j0,
                                j0 < width,
                                0 <= j,
                        ;
                    }
                }
                j = j + 1;
            }
            i = i + 1;
            proof {
                assert((i - 1) * width + width == i * width) by (nonlinear_arith)
                    requires
                        i >= 1,
                ;
            }
        }
        proof {
            assert(i * width == height * width) by (nonlinear_arith)
                requires
                    i == height,
            ;
        }
        img
    }
}

} // verus!
