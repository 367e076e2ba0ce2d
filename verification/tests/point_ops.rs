use raytrace::fx::Fx;
use raytrace::point::Point;

fn n(i: i64) -> Fx {
    Fx::from_int(i)
}

fn pt(x: i64, y: i64, z: i64) -> Point {
    Point::new(n(x), n(y), n(z))
}

#[test]
fn point_add_vec() {
    let v1 = pt(1, 2, -4);
    let v2 = pt(5, 6, -7);

    let v = v1.add(&v2);

    assert_eq!(v, pt(6, 8, -11))
}

#[test]
fn point_add_num() {
    let v1 = pt(1, 2, -4);

    let v = v1.add_s(n(5));

    assert_eq!(v, pt(6, 7, 1))
}

#[test]
fn point_sub_vec() {
    let v1 = pt(1, 2, -4);
    let v2 = pt(5, 6, -7);

    let v = v1.sub(&v2);

    assert_eq!(v, pt(-4, -4, 3))
}

#[test]
fn point_sub_num() {
    let v1 = pt(1, 2, -4);

    let v = v1.sub_s(n(3));

    assert_eq!(v, pt(-2, -1, -7))
}

#[test]
fn point_mul_num() {
    let mut v1 = pt(2, 4, 0);
    v1 = v1.scale(n(5));

    assert_eq!(v1, pt(10, 20, 0))
}
