use raytrace::color::Color;
use raytrace::fx::Fx;
use raytrace::object::triangle::Triangle;
use raytrace::object::Intersect;
use raytrace::point::Point;
use raytrace::texture::UniformTexture;
use raytrace::vector::Vector;

fn n(i: i64) -> Fx {
    Fx::from_int(i)
}

fn triangle() -> Triangle {
    Triangle::new(
        Point::new(n(0), n(0), n(-5)),
        Point::new(n(0), n(0), n(5)),
        Point::new(n(0), n(4), n(0)),
        UniformTexture { kd: n(1), ka: n(1), ks: n(0), color: Color::new(255, 255, 255) },
        String::from("Triangle"),
    )
}

#[test]
fn intersect_1() {
    let triangle = triangle();
    let start = Point::new(n(-3), n(0), n(0));
    let ray = Vector::new(n(1), n(0), n(0));

    let res = triangle.intersection(start, ray);
    assert_eq!(res.0, true);
    assert_eq!(res.1, n(3))
}

#[test]
fn intersect_point_1() {
    let triangle = triangle();
    let start = Point::new(n(-3), n(0), n(0));
    let ray = Vector::new(n(1), n(0), n(0));

    let (res, _hit) = triangle.intersect_points(start, ray);
    assert_eq!(res.len(), 1);
    assert_eq!(res[0], Point::new(n(0), n(0), n(0)))
}

#[test]
fn triangle_parallel_ray_misses() {
    let triangle = triangle();
    let start = Point::new(n(-3), n(0), n(0));
    let ray = Vector::new(n(0), n(0), n(1));

    let res = triangle.intersection(start, ray);
    assert_eq!(res.0, false);
}

#[test]
fn triangle_ray_outside_edges_misses() {
    let triangle = triangle();
    let start = Point::new(n(-3), n(10), n(0));
    let ray = Vector::new(n(1), n(0), n(0));

    let res = triangle.intersection(start, ray);
    assert_eq!(res.0, false);
}
