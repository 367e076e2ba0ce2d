use raytrace::fx::Fx;
use raytrace::object::sphere::Sphere;
use raytrace::object::Intersect;
use raytrace::point::Point;
use raytrace::texture::UniformTexture;
use raytrace::vector::Vector;

fn n(i: i64) -> Fx {
    Fx::from_int(i)
}

fn raw(r: i64) -> Fx {
    Fx::from_raw(r)
}

fn uniform_texture() -> UniformTexture {
    UniformTexture {
        kd: n(1),
        ka: n(1),
        ks: n(1),
        color: raytrace::color::Color::new(0, 0, 0),
    }
}

fn sphere() -> Sphere {
    Sphere {
        p: Point::new(n(4), n(5), n(6)),
        r: n(1),
        texture: uniform_texture(),
        id: String::from("First"),
    }
}

fn fmt(p: &Point) -> String {
    let f = |c: Fx| c.raw as f64 / 1e9;
    format!("({:.2} , {:.2} , {:.2} )", f(p.x), f(p.y), f(p.z))
}

#[test]
fn intersect0() {
    let point = Point::new(n(0), n(1), n(2));
    let ray = Vector::new(n(1), n(1), n(1));
    let is_intersect = sphere().is_intersect(point, ray);

    assert_eq!(true, is_intersect)
}

#[test]
fn intersect1() {
    let point = Point::new(n(0), n(1), n(1));
    let ray = Vector::new(n(1), n(1), n(1));
    let is_intersect = sphere().is_intersect(point, ray);

    assert_eq!(true, is_intersect)
}

#[test]
fn intersect2() {
    let point = Point::new(n(0), n(1), n(0));
    let ray = Vector::new(n(1), n(1), raw(1_500_000_000));
    let is_intersect = sphere().is_intersect(point, ray);

    assert_eq!(true, is_intersect)
}

#[test]
fn intersect_points0() {
    let point = Point::new(n(4), n(1), raw(7_100_000_000));
    let ray = Vector::new(n(0), n(1), n(0));
    let (intersect_points, _hit) = sphere().intersect_points(point, ray);

    assert_eq!(intersect_points.len(), 0);
}

#[test]
fn intersect_points1() {
    let point = Point::new(n(4), n(1), n(5));
    let ray = Vector::new(n(0), n(1), n(0));
    let (intersect_points, _hit) = sphere().intersect_points(point, ray);

    assert_eq!(intersect_points.len(), 1);
    let first = intersect_points[0];

    assert_eq!(&*fmt(&first), "(4.00 , 5.00 , 5.00 )");
}

#[test]
fn intersect_points2() {
    let point = Point::new(n(0), n(1), n(2));
    let ray = Vector::new(n(1), n(1), n(1));
    let (intersect_points, _hit) = sphere().intersect_points(point, ray);

    assert_eq!(intersect_points.len(), 2);
    let first = intersect_points[0];
    let second = intersect_points[1];

    let (first, second) = if first.x.raw > second.x.raw {
        (second, first)
    } else {
        (first, second)
    };

    assert_eq!(&*fmt(&first), "(3.42 , 4.42 , 5.42 )");
    assert_eq!(&*fmt(&second), "(4.58 , 5.58 , 6.58 )");
}

#[test]
fn no_intersect0() {
    let point = Point::new(n(0), n(1), raw(-500_000_000));
    let ray = Vector::new(n(1), n(1), n(1));
    let is_intersect = sphere().is_intersect(point, ray);

    assert_eq!(false, is_intersect)
}

#[test]
fn sphere_no_intersect1() {
    let point = Point::new(n(0), n(1), raw(-300_000_000));
    let ray = Vector::new(n(1), n(1), n(1));
    let is_intersect = sphere().is_intersect(point, ray);

    assert_eq!(false, is_intersect)
}

#[test]
fn sphere_no_intersect2() {
    let point = Point::new(n(0), n(1), n(-1));
    let ray = Vector::new(n(1), n(1), n(1));
    let is_intersect = sphere().is_intersect(point, ray);

    assert_eq!(false, is_intersect)
}

#[test]
fn no_intersect3() {
    let sphere = Sphere {
        p: Point::new(n(5), n(0), n(5)),
        r: n(1),
        texture: uniform_texture(),
        id: String::from("First"),
    };

    let point = Point::new(n(0), n(0), n(0));
    let ray = Vector::new(n(1), n(1), n(1));
    let is_intersect = sphere.is_intersect(point, ray);

    assert_eq!(false, is_intersect)
}
