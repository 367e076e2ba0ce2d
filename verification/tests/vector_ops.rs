use raytrace::fx::Fx;
use raytrace::trig::{HALF_PI, PI, TWO_PI};
use raytrace::vector::Vector;

fn n(i: i64) -> Fx {
    Fx::from_int(i)
}

fn raw(r: i64) -> Fx {
    Fx::from_raw(r)
}

fn vec3(x: i64, y: i64, z: i64) -> Vector {
    Vector::new(n(x), n(y), n(z))
}

fn approx(v: &Vector) -> String {
    let f = |c: Fx| c.raw as f64 / 1e9;
    format!("({:.2}, {:.2}, {:.2})", f(v.x), f(v.y), f(v.z))
}

#[test]
fn vector_add_vec() {
    let v1 = vec3(1, 2, -4);
    let v2 = vec3(5, 6, -7);

    let v = v1.add(&v2);

    assert_eq!(v, vec3(6, 8, -11))
}

#[test]
fn vector_add_num() {
    let v1 = vec3(1, 2, -4);

    let five = Vector::new(n(5), n(5), n(5));
    let v = v1.add(&five);

    assert_eq!(v, vec3(6, 7, 1))
}

#[test]
fn vector_sub_vec() {
    let v1 = vec3(1, 2, -4);
    let v2 = vec3(5, 6, -7);

    let v = v1.sub(&v2);

    assert_eq!(v, vec3(-4, -4, 3))
}

#[test]
fn vector_sub_num() {
    let v1 = vec3(1, 2, -4);

    let three = Vector::new(n(3), n(3), n(3));
    let v = v1.sub(&three);

    assert_eq!(v, vec3(-2, -1, -7))
}

#[test]
fn norm_vec() {
    let v1 = vec3(2, 4, 7);
    let v2 = vec3(-2, 1, 0);

    assert_eq!(v1.dot(&v2), n(0))
}

#[test]
fn vector_mul_num() {
    let mut v1 = vec3(2, 4, 0);
    v1 = v1.scale(n(5));

    assert_eq!(v1, vec3(10, 20, 0))
}

#[test]
fn div_num() {
    let mut v1 = vec3(10, 20, 0);
    v1 = v1.div_s(n(5));

    assert_eq!(v1, vec3(2, 4, 0))
}

#[test]
fn normal_vec1() {
    let v1 = vec3(2, 3, 4);
    let v2 = vec3(1, 2, 3);

    let nm = vec3(1, -2, 1);
    assert_eq!(nm, Vector::normal_vec(&v1, &v2))
}

#[test]
fn normal_vec2() {
    let v1 = vec3(2, 3, 4);
    let v2 = vec3(1, 2, 3);

    let nm = vec3(-1, 2, -1);
    assert_eq!(nm, Vector::normal_vec(&v2, &v1))
}

#[test]
fn cross_product() {
    let v1 = vec3(1, 3, 5);
    let v2 = vec3(2, 4, 5);

    let cross = v1.cross_product(&v2);
    assert_eq!(cross, vec3(-5, 5, -2))
}

#[test]
fn rotate1() {
    let v1 = vec3(1, 1, 1);
    let v2 = vec3(-1, 1, -1);

    let r = v2.rotate_around(&v1, raw(PI));

    assert_eq!(&*approx(&r), "(0.33, -1.67, 0.33)")
}

#[test]
fn rotate2() {
    let v1 = vec3(0, 1, 0);
    let v2 = vec3(1, 1, 1);

    let r = v2.rotate_around(&v1, raw(PI));

    assert_eq!(&*approx(&r), "(-1.00, 1.00, -1.00)")
}

#[test]
fn rotate3() {
    let v1 = vec3(0, -1, 0);
    let v2 = vec3(1, 1, 1);

    let r = v2.rotate_around(&v1, raw(PI));

    assert_eq!(&*approx(&r), "(-1.00, 1.00, -1.00)")
}

#[test]
fn rotate4() {
    let v1 = Vector::new(n(1), raw(500_000_000), n(0));
    let v2 = Vector::new(raw(-500_000_000), n(1), n(0));

    let r = v1.rotate_around(&v2, raw(HALF_PI / 2));

    assert_eq!(&*approx(&r), "(0.71, 0.35, -0.79)")
}

#[test]
fn rotate5() {
    let v1 = vec3(16, 9, 16);
    let v2 = vec3(15, 6, 1);

    let r = v1.rotate_around(&v2, raw(HALF_PI / 2));

    assert_eq!(&*approx(&r), "(20.31, -1.34, 13.36)")
}

#[test]
fn rotate6() {
    let v1 = vec3(10, 21, 5);
    let v2 = vec3(11, 1, 17);

    let r = v1.rotate_around(&v2, raw(HALF_PI / 2));

    assert_eq!(&*approx(&r), "(-3.51, 19.01, 13.86)")
}

#[test]
fn rotate7() {
    let v1 = vec3(13, 15, 5);
    let v2 = vec3(8, 9, 15);

    let r = v1.rotate_around(&v2, raw(HALF_PI / 2));

    assert_eq!(&*approx(&r), "(4.56, 18.54, 7.37)")
}

#[test]
fn rotate8() {
    let v1 = vec3(20, 12, 15);
    let v2 = vec3(4, 20, 9);

    let r = v1.rotate_around(&v2, raw(HALF_PI / 2));

    assert_eq!(&*approx(&r), "(21.30, 17.65, 1.86)")
}

#[test]
fn rotate_full_turn_returns_the_vector() {
    let v = vec3(1, 2, 3);
    let axis = vec3(0, 1, 0);

    let r = v.rotate_around(&axis, raw(TWO_PI));

    let tolerance = 10_000_000;
    assert!((r.x.raw - v.x.raw).abs() <= tolerance);
    assert!((r.y.raw - v.y.raw).abs() <= tolerance);
    assert!((r.z.raw - v.z.raw).abs() <= tolerance);
}

#[test]
fn map_applies_to_every_component() {
    let v = vec3(1, -2, 3);
    let r = v.map(|c: Fx| c.neg());
    assert_eq!(r, vec3(-1, 2, -3));
}

#[test]
fn normalize_twice_is_normalize() {
    let v = vec3(3, 4, 0);
    let w = v.normalize();

    assert_eq!(w, Vector::new(raw(600_000_000), raw(800_000_000), n(0)));
    assert_eq!(w.normalize(), w);
}
