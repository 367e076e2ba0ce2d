use raytrace::fx::Fx;
use raytrace::grammar::Grammar;
use raytrace::object::turtle::{Turtle, TurtleObj};
use raytrace::point::Point;
use raytrace::texture::UniformTexture;

fn n(i: i64) -> Fx {
    Fx::from_int(i)
}

fn raw(r: i64) -> Fx {
    Fx::from_raw(r)
}

#[test]
fn forward_emits_one_sphere() {
    let s = String::from("F");
    let (objs, mn, mx) = Turtle::generate(&s, n(90), raw(200_000_000));
    assert_eq!(objs.len(), 1);
    match &objs[0] {
        TurtleObj::Sphere(sp) => {
            assert_eq!(sp.p, Point::new(raw(400_000_000), n(0), n(0)));
            assert_eq!(sp.r, raw(200_000_000));
            assert_eq!(sp.texture.ka, raw(200_000_000));
        }
        _ => panic!("expected a sphere"),
    }
    assert_eq!(mn.x, n(0));
    assert_eq!(mn.y, raw(-200_000_000));
    assert_eq!(mx.x, raw(600_000_000));
    assert_eq!(mx.y, raw(200_000_000));
}

#[test]
fn bracket_restores_the_pen() {
    let s = String::from("[F]F");
    let (objs, _mn, _mx) = Turtle::generate(&s, n(90), n(0));
    assert_eq!(objs.len(), 2);
    let centers: Vec<Point> = objs
        .iter()
        .map(|o| match o {
            TurtleObj::Sphere(sp) => sp.p,
            _ => panic!("expected spheres"),
        })
        .collect();
    // both steps started from the same saved state
    assert_eq!(centers[0], centers[1]);
}

#[test]
fn shrink_narrows_the_pen() {
    let s = String::from("!F");
    let (objs, _mn, _mx) = Turtle::generate(&s, n(90), n(0));
    match &objs[0] {
        TurtleObj::Sphere(sp) => assert_eq!(sp.r, raw(153_846_153)),
        _ => panic!("expected a sphere"),
    }
}

#[test]
fn polygon_fan_triangulates() {
    let s = String::from("{f+f+f+f}");
    let (objs, _mn, _mx) = Turtle::generate(&s, n(90), n(0));
    assert_eq!(objs.len(), 3);
    for o in &objs {
        assert!(matches!(o, TurtleObj::Triangle(_)));
    }
}

#[test]
fn unknown_symbols_are_ignored() {
    let s = String::from("zqF?");
    let (objs, _mn, _mx) = Turtle::generate(&s, n(90), n(0));
    assert_eq!(objs.len(), 1);
}

#[test]
fn turtle_from_grammar_expands_first() {
    let g = Grammar {
        angle: n(90),
        steps: 1,
        start: String::from("F"),
        rules: vec![('F', String::from("FF"))],
    };
    let t = Turtle::new(
        &g,
        UniformTexture {
            kd: n(1),
            ks: raw(100_000_000),
            ka: raw(700_000_000),
            color: raytrace::color::Color::new(255, 255, 255),
        },
        String::from("turtle"),
    );
    assert_eq!(t.objects.len(), 2);
    match &t.objects[1] {
        TurtleObj::Sphere(sp) => {
            assert_eq!(sp.p, Point::new(raw(800_000_000), n(0), n(0)));
            // the pen inherits the turtle texture's ambient coefficient
            assert_eq!(sp.texture.ka, raw(700_000_000));
        }
        _ => panic!("expected a sphere"),
    }
}
