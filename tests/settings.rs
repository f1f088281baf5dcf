use ray_tracer::{ConfigError, RenderSettings};

#[test]
fn settings_accepted() {
    let s = RenderSettings::construct(512, 288, 3, 10).unwrap();
    assert_eq!(s.image_width, 512);
    assert_eq!(s.image_height, 288);
    assert_eq!(s.pixel_samples, 3);
    assert_eq!(s.scatter_depth, 10);
}

#[test]
fn settings_zero_depth_accepted() {
    let s = RenderSettings::construct(1, 1, 1, 0).unwrap();
    assert_eq!(s.scatter_depth, 0);
}

#[test]
fn settings_reject_empty_image() {
    assert_eq!(RenderSettings::construct(0, 10, 1, 1), Err(ConfigError::NonPositiveSize));
    assert_eq!(RenderSettings::construct(10, -4, 1, 1), Err(ConfigError::NonPositiveSize));
}

#[test]
fn settings_reject_no_samples() {
    assert_eq!(RenderSettings::construct(10, 10, 0, 1), Err(ConfigError::NoSamples));
}

#[test]
fn settings_reject_negative_depth() {
    assert_eq!(RenderSettings::construct(10, 10, 1, -1), Err(ConfigError::NegativeDepth));
}
