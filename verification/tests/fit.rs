use gltr::gl::fit::{scale, Aspect, Fraction, Scale};
use gltr::gl::shader::Mode;

const ONE: Fraction = Fraction { numerator: 1, denominator: 1 };

fn shape(width: u32, height: u32) -> Aspect {
    Aspect { width, height }
}

fn value(fraction: Fraction) -> f64 {
    fraction.numerator as f64 / fraction.denominator as f64
}

#[test]
fn equal_ratios_scale_by_one_in_every_mode() {
    for (frame, image) in [
        (shape(540, 960), shape(540, 960)),
        (shape(1920, 1080), shape(16, 9)),
        (shape(1, 1), shape(7, 7)),
        (shape(3, 2), shape(300, 200)),
    ] {
        let contain = scale(Mode::Contain, frame, image).unwrap();
        let cover = scale(Mode::Cover, frame, image).unwrap();
        let stretch = scale(Mode::Stretch, frame, image).unwrap();
        assert_eq!(contain, Scale { horizontal: ONE, vertical: ONE });
        assert_eq!(contain, cover);
        assert_eq!(contain, stretch);
    }
}

#[test]
fn wider_frame_contain_shrinks_cover_crops() {
    let frame = shape(1920, 1080);
    let image = shape(1000, 1000);
    let contain = scale(Mode::Contain, frame, image).unwrap();
    let cover = scale(Mode::Cover, frame, image).unwrap();
    assert_eq!(contain.horizontal, Fraction { numerator: 1_920_000, denominator: 1_080_000 });
    assert_eq!(contain.vertical, ONE);
    assert_eq!(cover.horizontal, ONE);
    assert_eq!(cover.vertical, Fraction { numerator: 1_080_000, denominator: 1_920_000 });
    assert!(value(contain.horizontal) >= 1.0);
    assert!(value(cover.horizontal) <= 1.0);
    assert!(value(cover.vertical) < 1.0);
}

#[test]
fn taller_frame_mirrors_the_axes() {
    let frame = shape(540, 960);
    let image = shape(800, 600);
    let contain = scale(Mode::Contain, frame, image).unwrap();
    let cover = scale(Mode::Cover, frame, image).unwrap();
    assert_eq!(contain.horizontal, ONE);
    assert_eq!(contain.vertical, Fraction { numerator: 960 * 800, denominator: 540 * 600 });
    assert_eq!(cover.horizontal, Fraction { numerator: 540 * 600, denominator: 960 * 800 });
    assert_eq!(cover.vertical, ONE);
}

#[test]
fn scale_agrees_with_the_formula_in_floating_point() {
    let frame = shape(1280, 720);
    let image = shape(640, 640);
    let ratio = 1280.0_f64 / 720.0;
    let source = 640.0_f64 / 640.0;
    let contain = scale(Mode::Contain, frame, image).unwrap();
    let cover = scale(Mode::Cover, frame, image).unwrap();
    assert!((value(contain.horizontal) - (ratio / source).max(1.0)).abs() < 1e-12);
    assert!((value(contain.vertical) - (source / ratio).max(1.0)).abs() < 1e-12);
    assert!((value(cover.horizontal) - (ratio / source).min(1.0)).abs() < 1e-12);
    assert!((value(cover.vertical) - (source / ratio).min(1.0)).abs() < 1e-12);
}

#[test]
fn stretch_never_scales() {
    let stretched = scale(Mode::Stretch, shape(1920, 1080), shape(3, 4000)).unwrap();
    assert_eq!(stretched, Scale { horizontal: ONE, vertical: ONE });
}

#[test]
fn largest_shapes_do_not_overflow() {
    let frame = shape(u32::MAX, 1);
    let image = shape(1, u32::MAX);
    let contain = scale(Mode::Contain, frame, image).unwrap();
    let square = u32::MAX as u64 * u32::MAX as u64;
    assert_eq!(contain.horizontal, Fraction { numerator: square, denominator: 1 });
    assert_eq!(contain.vertical, ONE);
    let cover = scale(Mode::Cover, frame, image).unwrap();
    assert_eq!(cover.horizontal, ONE);
    assert_eq!(cover.vertical, Fraction { numerator: 1, denominator: square });
}

#[test]
fn a_shape_without_ratio_has_no_scale() {
    for mode in [Mode::Contain, Mode::Stretch, Mode::Cover] {
        assert_eq!(scale(mode, shape(0, 10), shape(10, 10)), None);
        assert_eq!(scale(mode, shape(10, 0), shape(10, 10)), None);
        assert_eq!(scale(mode, shape(10, 10), shape(0, 10)), None);
        assert_eq!(scale(mode, shape(10, 10), shape(10, 0)), None);
    }
}
