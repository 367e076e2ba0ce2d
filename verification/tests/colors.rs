use raytrace::color::Color;
use raytrace::fx::Fx;
use raytrace::image::Image;
use raytrace::vector::Vector;

#[test]
fn colors() {
    assert_eq!(Color::new(255, 0, 0).values(), (255, 0, 0));
    assert_eq!(Color::new(0, 255, 0).values(), (0, 255, 0));
    assert_eq!(Color::new(0, 0, 255).values(), (0, 0, 255));
}

#[test]
fn to_value() {
    assert_eq!(0xFF000000, Color::new(255, 0, 0).value())
}

#[test]
fn out_of_range_channels_clamp_at_conversion() {
    let hot = Color::from_vec(Vector::new(
        Fx::from_int(300),
        Fx::from_int(-20),
        Fx::from_int(128),
    ));
    assert_eq!(hot.values(), (255, 0, 128));
}

#[test]
fn image_new() {
    let image = Image::new(16, 16);
    assert_eq!(image.pixels().capacity(), image.height() * image.width())
}

#[test]
fn img_new() {
    let image = Image::new(16, 16);
    assert_eq!(image.pixels().capacity(), 16 * 16)
}

#[test]
fn image_push_keeps_row_major_order() {
    let mut image = Image::new(2, 2);
    image.push(Color::new(1, 0, 0));
    image.push(Color::new(2, 0, 0));
    image.push(Color::new(3, 0, 0));
    image.push(Color::new(4, 0, 0));
    assert_eq!(image.pixels()[0].values().0, 1);
    assert_eq!(image.pixels()[3].values().0, 4);
}
