use raytrace::color::Color;
use raytrace::fx::Fx;
use raytrace::object::plane::Plane;
use raytrace::object::Intersect;
use raytrace::point::Point;
use raytrace::texture::UniformTexture;
use raytrace::vector::Vector;

fn n(i: i64) -> Fx {
    Fx::from_int(i)
}

fn raw(r: i64) -> Fx {
    Fx::from_raw(r)
}

fn uniform_texture() -> UniformTexture {
    UniformTexture { kd: n(1), ka: n(1), ks: n(1), color: Color::new(0, 0, 0) }
}

fn plane() -> Plane {
    Plane {
        texture: uniform_texture(),
        normal: Vector::new(n(1), n(0), n(0)),
        p: Point::new(n(0), n(0), n(0)),
        id: String::from("plane"),
    }
}

#[test]
fn plane_intersect() {
    let plane = Plane {
        texture: uniform_texture(),
        normal: Vector::new(n(2), n(3), n(6)),
        p: Point::new(n(1), n(5), n(3)),
        id: String::from("plane"),
    };

    let (p, v) = (Point::new(n(0), n(0), n(0)), Vector::new(n(1), n(0), n(0)));

    let is_intersect = plane.is_intersect(p, v);
    assert_eq!(true, is_intersect);

    let (intersect_points, _hit) = plane.intersect_points(p, v);
    assert_ne!(intersect_points.len(), 0);

    assert_eq!(intersect_points[0], Point::new(raw(17_500_000_000), n(0), n(0)))
}

#[test]
fn a() {
    let plane = Plane {
        normal: Vector::new(n(0), n(1), n(0)),
        p: Point::new(n(0), n(-2), n(0)),
        id: String::from("plane1"),
        texture: uniform_texture(),
    };

    let (p, v) = (
        Point::new(n(0), n(0), n(0)),
        Vector::new(raw(491_972_919), raw(514_102_744), raw(702_610_144)),
    );

    let (intersect_points, _hit) = plane.intersect_points(p, v);

    assert_eq!(intersect_points.len(), 0)
}

#[test]
fn plane_no_intersect1() {
    let plane = plane();

    let (p, v) = (Point::new(n(0), n(0), n(0)), Vector::new(n(0), n(1), n(0)));

    let is_intersect = plane.is_intersect(p, v);
    assert_eq!(false, is_intersect);

    let (intersect_points, _hit) = plane.intersect_points(p, v);
    assert_eq!(intersect_points.len(), 0)
}

#[test]
fn plane_no_intersect2() {
    let plane = plane();

    let (p, v) = (Point::new(n(0), n(0), n(0)), Vector::new(n(0), n(0), n(0)));

    let is_intersect = plane.is_intersect(p, v);
    assert_eq!(false, is_intersect);

    let (intersect_points, _hit) = plane.intersect_points(p, v);
    assert_eq!(intersect_points.len(), 0)
}
