use raytrace::color::Color;
use raytrace::fx::Fx;
use raytrace::object::menger::{Menger, MengerRec};
use raytrace::object::Intersect;
use raytrace::point::Point;
use raytrace::texture::UniformTexture;
use raytrace::vector::Vector;

fn n(i: i64) -> Fx {
    Fx::from_int(i)
}

fn raw(r: i64) -> Fx {
    Fx::from_raw(r)
}

#[test]
fn menger_depth_zero_is_the_box() {
    let m = MengerRec::new(0, Point::new(n(0), n(0), n(0)), Point::new(n(3), n(3), n(3)));
    assert_eq!(m.sub_menger.len(), 0);
    assert_eq!(m.rect.p_min, Point::new(n(0), n(0), n(0)));
    assert_eq!(m.rect.p_max, Point::new(n(3), n(3), n(3)));
}

#[test]
fn menger_internal_node_has_twenty_children() {
    let m = MengerRec::new(1, Point::new(n(0), n(0), n(0)), Point::new(n(3), n(3), n(3)));
    assert_eq!(m.sub_menger.len(), 20);
    for child in &m.sub_menger {
        assert_eq!(child.sub_menger.len(), 0);
    }
    // the first surviving cell is the unit cube at the low corner
    assert_eq!(m.sub_menger[0].rect.p_min, Point::new(n(0), n(0), n(0)));
    assert_eq!(m.sub_menger[0].rect.p_max, Point::new(n(1), n(1), n(1)));
}

#[test]
fn menger_depth_two_children_again_have_twenty() {
    let m = MengerRec::new(2, Point::new(n(0), n(0), n(0)), Point::new(n(9), n(9), n(9)));
    assert_eq!(m.sub_menger.len(), 20);
    for child in &m.sub_menger {
        assert_eq!(child.sub_menger.len(), 20);
    }
}

#[test]
fn menger_ray_through_removed_center_misses() {
    let m = Menger::new(
        1,
        Point::new(n(0), n(0), n(0)),
        Point::new(n(3), n(3), n(3)),
        UniformTexture { kd: n(1), ka: n(1), ks: n(1), color: Color::new(255, 0, 0) },
        String::from("rect"),
    );
    let p = Point::new(n(-5), raw(1_500_000_000), raw(1_500_000_000));
    let v = Vector::new(n(1), n(0), n(0));
    let (points, _hit) = m.intersect_points(p, v);
    assert_eq!(points.len(), 0);
}

#[test]
fn menger_ray_through_corner_cell_hits_it() {
    let m = Menger::new(
        1,
        Point::new(n(0), n(0), n(0)),
        Point::new(n(3), n(3), n(3)),
        UniformTexture { kd: n(1), ka: n(1), ks: n(1), color: Color::new(255, 0, 0) },
        String::from("rect"),
    );
    let p = Point::new(n(-5), raw(500_000_000), raw(500_000_000));
    let v = Vector::new(n(1), n(0), n(0));
    let (points, _hit) = m.intersect_points(p, v);
    assert!(points.len() > 0);
    assert_eq!(points[0], Point::new(n(0), raw(500_000_000), raw(500_000_000)));
}
