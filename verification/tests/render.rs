use mandelbrot::color::{to_hsv, Hsv, MAX_HSV_HUE, MAX_HSV_SATURATION, MAX_HSV_VALUE};
use mandelbrot::config::{RenderConfig, DEFAULT_HEIGHT, DEFAULT_MAX_DEPTH, DEFAULT_WIDTH};
use mandelbrot::escape::EscapeCounter;
use mandelbrot::grid::{PixelGrid, WriteError};
use num::complex::Complex;

/// Runs the escape-time loop for `c` the way the renderer does: the orbit is
/// floating point, the loop decisions come from the verified counter.
fn escape_run(c: Complex<f64>, max_depth: u64) -> (u64, bool, f64) {
    let mut z: Complex<f64> = Complex::new(0.0, 0.0);
    let mut counter = EscapeCounter::new(max_depth);
    loop {
        if !counter.advance(z.norm() <= 2.0) {
            break;
        }
        z = z * z + c;
    }
    let n: u64 = counter.iterations();
    let measurement: f64 = if counter.has_escaped() {
        n as f64 - z.norm().ln().ln() / 2.0f64.ln()
    } else {
        max_depth as f64
    };
    (n, counter.has_escaped(), measurement)
}

/// The color of a measurement, as the renderer derives it.
fn color_of(measurement: f64, max_depth: u64) -> Hsv {
    let escaped: bool = measurement < max_depth as f64;
    let hue_raw: u16 = (MAX_HSV_HUE as f64 * measurement / max_depth as f64) as u16;
    to_hsv(escaped, hue_raw)
}

#[test]
fn origin_never_escapes() {
    let (n, escaped, measurement) = escape_run(Complex::new(0.0, 0.0), 50);
    assert_eq!(n, 50);
    assert!(!escaped);
    assert_eq!(measurement, 50.0);
    let hsv = color_of(measurement, 50);
    assert_eq!(hsv.value, 0);
}

#[test]
fn origin_never_escapes_under_any_budget() {
    for depth in [1u64, 2, 3, 17, 200] {
        let (n, escaped, measurement) = escape_run(Complex::new(0.0, 0.0), depth);
        assert_eq!(n, depth);
        assert!(!escaped);
        assert_eq!(measurement, depth as f64);
    }
}

#[test]
fn two_escapes_almost_immediately() {
    // After one step z = 2, whose norm still passes the `|z| <= 2` check, so
    // the loop stops after the second step (z = 6): two iterations, not one.
    let (n, escaped, measurement) = escape_run(Complex::new(2.0, 0.0), 10);
    assert!(escaped);
    assert_eq!(n, 2);
    assert!(measurement < 3.0);
    assert!(measurement < 10.0);
}

#[test]
fn estimator_is_deterministic() {
    let c = Complex::new(-0.7436, 0.1318);
    let first = escape_run(c, 300);
    let second = escape_run(c, 300);
    assert_eq!(first.0, second.0);
    assert_eq!(first.1, second.1);
    assert_eq!(first.2, second.2);
}

#[test]
fn counter_reports_first_failed_check() {
    let mut counter = EscapeCounter::new(10);
    assert!(counter.advance(true));
    assert!(counter.advance(true));
    assert!(!counter.advance(false));
    assert!(counter.is_done());
    assert!(counter.has_escaped());
    assert_eq!(counter.iterations(), 2);
}

#[test]
fn counter_stops_at_ceiling() {
    let mut counter = EscapeCounter::new(3);
    assert!(counter.advance(true));
    assert!(counter.advance(true));
    assert!(!counter.advance(true));
    assert!(counter.is_done());
    assert!(!counter.has_escaped());
    assert_eq!(counter.iterations(), 3);
    assert_eq!(counter.depth(), 3);
}

#[test]
fn exhausted_budget_renders_black() {
    // Any measurement at or above the ceiling means value zero, and value
    // zero means RGB black whatever the hue and saturation.
    for m in [10.0f64, 10.4, 25.0, f64::NAN] {
        let hsv = color_of(m, 10);
        assert_eq!(hsv.value, 0);
        let rgb = raster::Color::to_rgb(hsv.hue, hsv.saturation as f32, hsv.value as f32);
        assert_eq!(rgb, (0, 0, 0));
    }
}

#[test]
fn zero_measurement_is_bright_red() {
    let hsv = color_of(0.0, 100);
    assert_eq!(hsv.hue, 0);
    assert_eq!(hsv.saturation, MAX_HSV_SATURATION);
    assert_eq!(hsv.value, MAX_HSV_VALUE);
    let rgb = raster::Color::to_rgb(hsv.hue, hsv.saturation as f32, hsv.value as f32);
    assert_eq!(rgb, (255, 0, 0));
}

#[test]
fn hue_wraps_into_range() {
    assert_eq!(to_hsv(true, 0).hue, 0);
    assert_eq!(to_hsv(true, 359).hue, 359);
    assert_eq!(to_hsv(true, 360).hue, 0);
    assert_eq!(to_hsv(true, 361).hue, 1);
    assert_eq!(to_hsv(true, 719).hue, 359);
    assert!(to_hsv(false, 65535).hue < MAX_HSV_HUE);
}

#[test]
fn config_defaults_are_the_documented_ones() {
    assert_eq!(DEFAULT_WIDTH, 800);
    assert_eq!(DEFAULT_HEIGHT, 600);
    assert_eq!(DEFAULT_MAX_DEPTH, 100);
}

#[test]
fn config_accepts_positive_dimensions() {
    let config = RenderConfig::new(
        2,
        3,
        10,
        (-1.0f64).to_bits(),
        1.0f64.to_bits(),
        (-1.0f64).to_bits(),
        1.0f64.to_bits(),
        String::from("out.png"),
    )
    .expect("a positive configuration is accepted");
    assert_eq!(config.width, 2);
    assert_eq!(config.height, 3);
    assert_eq!(config.max_depth, 10);
    assert_eq!(f64::from_bits(config.re_start), -1.0);
    assert_eq!(f64::from_bits(config.re_end), 1.0);
    assert_eq!(config.output, "out.png");
}

#[test]
fn config_rejects_zero_dimensions() {
    let bits: u64 = 0;
    assert!(RenderConfig::new(0, 600, 100, bits, bits, bits, bits, String::new()).is_none());
    assert!(RenderConfig::new(800, 0, 100, bits, bits, bits, bits, String::new()).is_none());
    assert!(RenderConfig::new(800, 600, 0, bits, bits, bits, bits, String::new()).is_none());
}

#[test]
fn grid_rejects_degenerate_sizes() {
    assert!(PixelGrid::new(0, 10).is_none());
    assert!(PixelGrid::new(10, 0).is_none());
    assert!(PixelGrid::new(usize::MAX, 2).is_none());
}

#[test]
fn grid_writes_each_pixel_exactly_once() {
    let mut grid = PixelGrid::new(2, 2).expect("2 x 2 fits");
    let red = to_hsv(true, 0);
    let black = to_hsv(false, 0);
    assert!(!grid.is_complete());
    assert_eq!(grid.set(0, 0, red), Ok(()));
    assert_eq!(grid.set(1, 0, black), Ok(()));
    assert_eq!(grid.set(0, 1, red), Ok(()));
    assert!(!grid.is_complete());
    assert_eq!(grid.set(1, 1, black), Ok(()));
    assert!(grid.is_complete());
    assert_eq!(grid.set(1, 1, red), Err(WriteError::RepeatedWrite));
    assert_eq!(grid.set(2, 0, red), Err(WriteError::OutOfRange));
    assert_eq!(grid.set(0, 2, red), Err(WriteError::OutOfRange));
    assert_eq!(grid.get(0, 0), Some(red));
    assert_eq!(grid.get(1, 1), Some(black));
    assert_eq!(grid.get(2, 2), None);
}

#[test]
fn end_to_end_two_by_two() {
    // A full 2 x 2 render: every pixel of the grid must be written exactly
    // once, and every written color must be reproducible by invoking the
    // viewport mapping, the escape-time estimator and the color mapping
    // directly for that pixel.
    let config = RenderConfig::new(
        2,
        2,
        10,
        (-1.0f64).to_bits(),
        1.0f64.to_bits(),
        (-1.0f64).to_bits(),
        1.0f64.to_bits(),
        String::from("unused.png"),
    )
    .expect("the scenario configuration is valid");

    let re_start = f64::from_bits(config.re_start);
    let im_start = f64::from_bits(config.im_start);
    let re_step = (f64::from_bits(config.re_end) - re_start) / config.width as f64;
    let im_step = (f64::from_bits(config.im_end) - im_start) / config.height as f64;

    let mut grid = PixelGrid::new(config.width as usize, config.height as usize)
        .expect("the scenario grid is allocatable");
    for x in 0..config.width {
        for y in 0..config.height {
            let c = Complex::new(
                re_start + x as f64 * re_step,
                im_start + y as f64 * im_step,
            );
            let (_, _, measurement) = escape_run(c, config.max_depth);
            let hsv = color_of(measurement, config.max_depth);
            assert_eq!(grid.set(x as usize, y as usize, hsv), Ok(()));
        }
    }
    assert!(grid.is_complete());

    for x in 0..config.width {
        for y in 0..config.height {
            let c = Complex::new(
                re_start + x as f64 * re_step,
                im_start + y as f64 * im_step,
            );
            let (_, _, measurement) = escape_run(c, config.max_depth);
            let expected = color_of(measurement, config.max_depth);
            assert_eq!(grid.get(x as usize, y as usize), Some(expected));
        }
    }

    // The pixel at (1, 1) maps to the origin, which never escapes: black.
    assert_eq!(grid.get(1, 1).map(|h| h.value), Some(0));
}
