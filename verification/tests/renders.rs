use raytrace::camera::Camera;
use raytrace::color::Color;
use raytrace::fx::Fx;
use raytrace::light::Light;
use raytrace::object::plane::Plane;
use raytrace::object::sphere::Sphere;
use raytrace::object::Object;
use raytrace::point::Point;
use raytrace::scene::Scene;
use raytrace::texture::UniformTexture;
use raytrace::trig::HALF_PI;
use raytrace::vector::Vector;

fn n(i: i64) -> Fx {
    Fx::from_int(i)
}

fn raw(r: i64) -> Fx {
    Fx::from_raw(r)
}

fn camera_looking_along_x() -> Camera {
    Camera::new(
        Point::new(n(0), n(0), n(0)),
        Point::new(n(1), n(0), n(0)),
        Vector::new(n(0), n(1), n(0)),
        raw(HALF_PI),
    )
    .unwrap()
}

#[test]
fn camera_rejects_a_skewed_up_vector() {
    let r = Camera::new(
        Point::new(n(0), n(0), n(0)),
        Point::new(n(1), n(0), n(0)),
        Vector::new(n(1), n(1), n(0)),
        raw(HALF_PI),
    );
    assert!(r.is_none());
}

/// An ambient-only sphere on a black background: every primary ray inside
/// the analytically known silhouette lands on the sphere and every ray
/// clearly outside it keeps the background color.
#[test]
fn render_sphere_silhouette() {
    let scene = Scene {
        cam: camera_looking_along_x(),
        lights: vec![Light {
            intensity: Vector::new(n(255), n(255), n(255)),
            point: Point::new(n(0), n(2), n(0)),
        }],
        objects: vec![Object::Sphere(Sphere {
            p: Point::new(n(5), n(0), n(0)),
            r: n(2),
            texture: UniformTexture {
                kd: n(0),
                ks: n(0),
                ka: n(1),
                color: Color::new(200, 40, 60),
            },
            id: String::from("ball"),
        })],
        background: Color::new(0, 0, 0),
        max_rec: 0,
    };

    let size: usize = 21;
    let img = scene.image(size, size);
    assert_eq!(img.pixels().len(), size * size);

    for i in 0..size {
        for j in 0..size {
            // the same view-plane construction, in floating point
            let a = 1.0 - 0.1 * (i as f64);
            let b = 1.0 - 0.1 * (j as f64);
            let s = a * a + b * b;
            // a primary ray hits the sphere (center distance 5, radius 2)
            // exactly when s <= 4/21; skip a band around the silhouette
            let threshold = 4.0 / 21.0;
            let pixel = img.pixels()[i * size + j];
            if s < threshold - 0.02 {
                assert_eq!(pixel.values(), (200, 40, 60), "pixel ({i}, {j}) should be lit");
            } else if s > threshold + 0.02 {
                assert_eq!(pixel.values(), (0, 0, 0), "pixel ({i}, {j}) should be background");
            }
        }
    }
}

fn shadow_scene(with_occluder: bool) -> Scene {
    let mut objects = vec![Object::Plane(Plane {
        p: Point::new(n(10), n(0), n(0)),
        normal: Vector::new(n(-1), n(0), n(0)),
        texture: UniformTexture {
            kd: n(1),
            ks: n(0),
            ka: raw(100_000_000),
            color: Color::new(100, 100, 100),
        },
        id: String::from("wall"),
    })];
    if with_occluder {
        objects.push(Object::Sphere(Sphere {
            p: Point::new(raw(7_500_000_000), raw(2_500_000_000), n(0)),
            r: raw(500_000_000),
            texture: UniformTexture {
                kd: n(1),
                ks: n(0),
                ka: n(0),
                color: Color::new(0, 0, 0),
            },
            id: String::from("occluder"),
        }));
    }
    Scene {
        cam: camera_looking_along_x(),
        lights: vec![Light {
            intensity: Vector::new(n(255), n(255), n(255)),
            point: Point::new(n(5), n(5), n(0)),
        }],
        objects,
        background: Color::new(0, 0, 0),
        max_rec: 0,
    }
}

/// An opaque occluder strictly between the lit point and the light leaves
/// only the ambient term; without it the diffuse term is added.
#[test]
fn render_occluded_point_gets_ambient_only() {
    let occluded = shadow_scene(true).image(3, 3);
    let lit = shadow_scene(false).image(3, 3);

    // the center pixel's primary ray runs along the camera axis and lands
    // on the wall at (10, 0, 0)
    let occluded_pixel = occluded.pixels()[1 * 3 + 1];
    let lit_pixel = lit.pixels()[1 * 3 + 1];

    // ambient only: 100 * 0.1 per channel
    assert_eq!(occluded_pixel.values(), (10, 10, 10));
    // the unblocked light adds its diffuse contribution
    assert!(lit_pixel.values().0 > 10);
    assert_eq!(occluded_pixel.values().0 < lit_pixel.values().0, true);
}
