use ray_tracer::{Bounce, Color3, Trace};

fn sky() -> Color3 {
    Color3 { r: 178, g: 204, b: 255 }
}

#[test]
fn zero_depth_keeps_background() {
    let t = Trace::start(sky(), 0);
    assert!(t.finished);
    assert_eq!(t.color, sky());
    assert_eq!(t.bounces_left, 0);
}

#[test]
fn miss_keeps_current_color() {
    let mut t = Trace::start(sky(), 3);
    assert!(!t.finished);
    t.advance(Bounce::Miss);
    assert!(t.finished);
    assert_eq!(t.color, sky());
    assert_eq!(t.bounces_left, 3);
}

#[test]
fn terminal_material_stops_the_path() {
    let mut t = Trace::start(sky(), 5);
    let white = Color3 { r: 255, g: 255, b: 255 };
    t.advance(Bounce::Absorbed(white));
    assert!(t.finished);
    assert_eq!(t.color, white);
    assert_eq!(t.bounces_left, 4);
}

#[test]
fn scattering_stops_at_depth() {
    let mut t = Trace::start(sky(), 2);
    let first = Color3 { r: 17, g: 40, b: 127 };
    let second = Color3 { r: 1, g: 8, b: 63 };
    t.advance(Bounce::Scattered(first));
    assert!(!t.finished);
    assert_eq!(t.color, first);
    t.advance(Bounce::Scattered(second));
    assert!(t.finished);
    assert_eq!(t.color, second);
    assert_eq!(t.bounces_left, 0);
}

#[test]
fn scatter_then_miss_keeps_attenuated_color() {
    let mut t = Trace::start(sky(), 10);
    let dimmed = Color3 { r: 17, g: 40, b: 127 };
    t.advance(Bounce::Scattered(dimmed));
    t.advance(Bounce::Miss);
    assert!(t.finished);
    assert_eq!(t.color, dimmed);
    assert_eq!(t.bounces_left, 9);
}

#[test]
fn one_bounce_attenuates_once() {
    // A diffuse sphere of albedo (0.1, 0.2, 0.5) seen against the sky,
    // with a single bounce allowed: the colour is attenuated exactly once.
    let mut t = Trace::start(sky(), 1);
    let attenuated = Color3 { r: 17, g: 40, b: 127 };
    t.advance(Bounce::Scattered(attenuated));
    assert!(t.finished);
    assert_eq!(t.color, attenuated);
}
