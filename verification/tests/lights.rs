use rendercore::light::Light;
use rendercore::math::{Color, Vec3};

fn bits(x: f32) -> u32 {
    x.to_bits()
}

fn v3(x: f32, y: f32, z: f32) -> Vec3 {
    Vec3 { x: bits(x), y: bits(y), z: bits(z) }
}

fn rgba(r: f32, g: f32, b: f32, a: f32) -> Color {
    Color { r: bits(r), g: bits(g), b: bits(b), a: bits(a) }
}

#[test]
fn light_keeps_what_it_is_given() {
    let light = Light::new(v3(1.0, 2.0, 3.0), rgba(1.0, 0.5, 0.25, 1.0), bits(0.75));
    assert_eq!(light.position(), v3(1.0, 2.0, 3.0));
    assert_eq!(light.color(), rgba(1.0, 0.5, 0.25, 1.0));
    assert_eq!(f32::from_bits(light.intensity()), 0.75);
}

#[test]
fn light_setters_change_one_field_each() {
    let mut light = Light::new(v3(0.0, 0.0, 0.0), rgba(1.0, 1.0, 1.0, 1.0), bits(1.0));
    light.set_position(v3(-4.0, 0.5, 2.0));
    assert_eq!(light.position(), v3(-4.0, 0.5, 2.0));
    assert_eq!(light.color(), rgba(1.0, 1.0, 1.0, 1.0));
    light.set_color(rgba(0.0, 1.0, 0.0, 1.0));
    assert_eq!(light.color(), rgba(0.0, 1.0, 0.0, 1.0));
    assert_eq!(f32::from_bits(light.intensity()), 1.0);
    light.set_intensity(bits(2.5));
    assert_eq!(f32::from_bits(light.intensity()), 2.5);
    assert_eq!(light.position(), v3(-4.0, 0.5, 2.0));
}
