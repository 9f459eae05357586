use raytrace::config::{ConfigError, ImageConfig};
use raytrace::path::{self, PathEnd, PathEvent, PathStep};
use raytrace::ppm;

fn text(bytes: &[u8]) -> String {
    String::from_utf8(bytes.to_vec()).unwrap()
}

#[test]
fn decimal_text_of_integers() {
    for (n, expected) in [(0u32, "0"), (7, "7"), (10, "10"), (255, "255"), (4294967295, "4294967295")] {
        let mut out = vec![b'x'];
        ppm::write_decimal(&mut out, n);
        assert_eq!(text(&out), format!("x{}", expected));
    }
}

#[test]
fn header_has_magic_size_and_maximum() {
    let mut out = Vec::new();
    ppm::write_header(&mut out, 1200, 675);
    assert_eq!(text(&out), "P3\n1200 675\n255\n");
}

#[test]
fn saturated_and_black_pixels() {
    let mut out = Vec::new();
    ppm::write_pixel(&mut out, 255, 255, 255);
    ppm::write_pixel(&mut out, 0, 0, 0);
    ppm::write_pixel(&mut out, 12, 0, 200);
    assert_eq!(text(&out), "255 255 255\n0 0 0\n12 0 200\n");
}

#[test]
fn image_is_header_then_pixels_in_order() {
    let pixels = vec![(1, 2, 3), (4, 5, 6), (7, 8, 9), (10, 11, 12)];
    let out = ppm::encode_image(2, 2, &pixels);
    assert_eq!(text(&out), "P3\n2 2\n255\n1 2 3\n4 5 6\n7 8 9\n10 11 12\n");
}

#[test]
fn config_refuses_non_positive_width() {
    assert_eq!(ImageConfig::new(0, 10, 4, 5), Err(ConfigError::NonPositiveWidth));
    assert_eq!(ImageConfig::new(-3, 10, 0, 5), Err(ConfigError::NonPositiveWidth));
}

#[test]
fn config_refuses_non_positive_samples() {
    assert_eq!(ImageConfig::new(400, 225, 0, 5), Err(ConfigError::NonPositiveSamples));
    assert_eq!(ImageConfig::new(400, 225, -1, 5), Err(ConfigError::NonPositiveSamples));
}

#[test]
fn config_raises_height_to_one() {
    let c = ImageConfig::new(400, 0, 10, 50).unwrap();
    assert_eq!(c, ImageConfig { width: 400, height: 1, samples_per_pixel: 10, max_depth: 50 });
    let c = ImageConfig::new(1200, 675, 500, 50).unwrap();
    assert_eq!(c.height, 675);
    assert_eq!(c.pixel_count(), 810000);
}

#[test]
fn pixels_go_row_by_row() {
    let c = ImageConfig::new(3, 2, 1, 1).unwrap();
    let order: Vec<(u32, u32)> = (0..c.pixel_count()).map(|k| c.pixel_at(k)).collect();
    assert_eq!(order, vec![(0, 0), (1, 0), (2, 0), (0, 1), (1, 1), (2, 1)]);
}

#[test]
fn no_depth_is_black_at_once() {
    assert_eq!(path::begin(0), PathStep::Done { end: PathEnd::Black });
    assert_eq!(path::begin(-4), PathStep::Done { end: PathEnd::Black });
    assert_eq!(path::begin(50), PathStep::Trace { depth: 50 });
}

#[test]
fn events_settle_or_continue_the_path() {
    assert_eq!(path::advance(3, PathEvent::Missed), PathStep::Done { end: PathEnd::Sky });
    assert_eq!(path::advance(3, PathEvent::Absorbed), PathStep::Done { end: PathEnd::Black });
    assert_eq!(path::advance(3, PathEvent::Scattered), PathStep::Trace { depth: 2 });
    assert_eq!(path::advance(1, PathEvent::Scattered), PathStep::Done { end: PathEnd::Black });
}

#[test]
fn scattering_forever_stops_after_max_depth_intersections() {
    let mut step = path::begin(5);
    let mut intersections = 0;
    while let PathStep::Trace { depth } = step {
        intersections += 1;
        step = path::advance(depth, PathEvent::Scattered);
    }
    assert_eq!(intersections, 5);
    assert_eq!(step, PathStep::Done { end: PathEnd::Black });
}
