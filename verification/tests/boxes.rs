use raytrace::color::Color;
use raytrace::fx::Fx;
use raytrace::object::rect::Rectangle;
use raytrace::object::Intersect;
use raytrace::point::Point;
use raytrace::texture::UniformTexture;
use raytrace::vector::Vector;

fn n(i: i64) -> Fx {
    Fx::from_int(i)
}

fn rect() -> Rectangle {
    Rectangle::new(
        Point::new(n(0), n(0), n(0)),
        Point::new(n(10), n(10), n(10)),
        UniformTexture { kd: n(1), ka: n(1), ks: n(1), color: Color::new(0, 0, 0) },
        String::from("rect"),
    )
}

#[test]
fn rect_intersect() {
    let rect = rect();

    let (points, _hit) = rect.intersect_points(
        Point::new(n(-5), n(5), n(5)),
        Vector::new(n(1), n(0), n(0)),
    );

    assert_eq!(points.len(), 2)
}

#[test]
fn rect_entry_and_exit_points() {
    let rect = rect();

    let (points, _hit) = rect.intersect_points(
        Point::new(n(-5), n(5), n(5)),
        Vector::new(n(1), n(0), n(0)),
    );

    assert_eq!(points[0], Point::new(n(0), n(5), n(5)));
    assert_eq!(points[1], Point::new(n(10), n(5), n(5)));
}

#[test]
fn rect_inside_gives_exit_only() {
    let rect = rect();

    let (points, _hit) = rect.intersect_points(
        Point::new(n(5), n(5), n(5)),
        Vector::new(n(1), n(0), n(0)),
    );

    assert_eq!(points.len(), 1);
    assert_eq!(points[0], Point::new(n(10), n(5), n(5)));
}

#[test]
fn rect_zero_direction_misses() {
    let rect = rect();

    let (points, _hit) = rect.intersect_points(
        Point::new(n(5), n(5), n(5)),
        Vector::new(n(0), n(0), n(0)),
    );

    assert_eq!(points.len(), 0);
}

#[test]
fn rect_parallel_ray_outside_slab_misses() {
    let rect = rect();

    let (points, _hit) = rect.intersect_points(
        Point::new(n(-5), n(20), n(5)),
        Vector::new(n(1), n(0), n(0)),
    );

    assert_eq!(points.len(), 0);
}
