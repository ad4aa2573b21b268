use wgpu_overlay::geometry::{PhysicalPosition, PhysicalSize};
use wgpu_overlay::layout::{overlay_layout, OverlayLayout, OVERLAY_TOP};

/// The layout as the window's resize handler writes it, in floating point.
fn float_layout(width: u32, height: u32) -> (i32, i32, u32, u32) {
    let overlay_width = width as f64 * 0.3;
    let overlay_height = height as f64 * 0.1;
    let overlay_y = 100;
    let x = (width as f64 - overlay_width) / 2.0;
    let y = overlay_y as f64;
    (x as i32, y as i32, overlay_width as u32, overlay_height as u32)
}

fn check_against_float(width: u32, height: u32) {
    let l = overlay_layout(PhysicalSize { width, height });
    let (x, y, w, h) = float_layout(width, height);
    assert_eq!((l.origin.x, l.origin.y, l.size.width, l.size.height), (x, y, w, h), "window {}x{}", width, height);
}

#[test]
fn layout_of_a_typical_window() {
    let l = overlay_layout(PhysicalSize { width: 1000, height: 800 });
    assert_eq!(
        l,
        OverlayLayout {
            origin: PhysicalPosition { x: 350, y: OVERLAY_TOP },
            size: PhysicalSize { width: 300, height: 80 },
        }
    );
}

#[test]
fn layout_rounds_down() {
    let l = overlay_layout(PhysicalSize { width: 801, height: 599 });
    assert_eq!(l.size.width, 240);
    assert_eq!(l.size.height, 59);
    assert_eq!(l.origin.x, 280);
    assert_eq!(l.origin.y, 100);
}

#[test]
fn layout_of_an_empty_window() {
    let l = overlay_layout(PhysicalSize { width: 0, height: 0 });
    assert_eq!(l.origin, PhysicalPosition { x: 0, y: 100 });
    assert_eq!(l.size, PhysicalSize { width: 0, height: 0 });
}

#[test]
fn layout_of_the_largest_window() {
    let l = overlay_layout(PhysicalSize { width: u32::MAX, height: u32::MAX });
    assert_eq!(l.size.width, 1_288_490_188);
    assert_eq!(l.size.height, 429_496_729);
    assert_eq!(l.origin.x, 1_503_238_553);
    check_against_float(u32::MAX, u32::MAX);
}

#[test]
fn layout_matches_float_formula_for_small_windows() {
    for width in 0..5000u32 {
        check_against_float(width, width);
    }
}

#[test]
fn layout_matches_float_formula_for_large_windows() {
    let mut w: u32 = 5000;
    while w < u32::MAX - 1_000_003 {
        check_against_float(w, w / 3);
        for d in 0..20u32 {
            check_against_float(w + d, w + d);
        }
        w += 1_000_003;
    }
}

#[test]
fn overlay_fits_and_is_centred() {
    for width in [0u32, 1, 3, 4, 7, 19, 20, 21, 999, 1280, 1920, 4096, u32::MAX] {
        let l = overlay_layout(PhysicalSize { width, height: 10 });
        let left = l.origin.x as i64;
        let right = width as i64 - left - l.size.width as i64;
        assert!(left >= 0 && right >= 0);
        assert!(right - left >= 0 && right - left <= 2, "width {}", width);
    }
}
