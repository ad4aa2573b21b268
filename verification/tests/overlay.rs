use wgpu_overlay::geometry::{LogicalSize, PhysicalPosition, PhysicalSize, Position, Size};
use wgpu_overlay::overlay::{embedded_frame_size, WindowsOverlayView};

fn phys(x: i32, y: i32) -> Position {
    Position::Physical(PhysicalPosition { x, y })
}

#[test]
fn new_overlay_is_at_origin() {
    let v = WindowsOverlayView::new();
    assert_eq!(v.parent_pos, phys(0, 0));
    assert_eq!(v.last_origin, phys(0, 0));
}

#[test]
fn origin_is_translated_by_parent_position() {
    let mut v = WindowsOverlayView::new();
    assert_eq!(v.set_parent_position(phys(100, 50), true), Some(PhysicalPosition { x: 100, y: 50 }));
    assert_eq!(v.set_origin(phys(350, 100), true), Some(PhysicalPosition { x: 450, y: 150 }));
    assert_eq!(v.last_origin, phys(350, 100));
    assert_eq!(v.parent_pos, phys(100, 50));
}

#[test]
fn moving_parent_reapplies_last_origin() {
    let mut v = WindowsOverlayView::new();
    v.set_origin(phys(30, 30), true);
    assert_eq!(v.set_parent_position(phys(-10, 200), true), Some(PhysicalPosition { x: 20, y: 230 }));
    assert_eq!(v.last_origin, phys(30, 30));
}

#[test]
fn order_of_origin_and_parent_does_not_matter() {
    let mut a = WindowsOverlayView::new();
    a.set_origin(phys(7, 8), true);
    let pa = a.set_parent_position(phys(1, 2), true);
    let mut b = WindowsOverlayView::new();
    b.set_parent_position(phys(1, 2), true);
    let pb = b.set_origin(phys(7, 8), true);
    assert_eq!(a, b);
    assert_eq!(pa, pb);
    assert_eq!(pa, Some(PhysicalPosition { x: 8, y: 10 }));
}

#[test]
fn dead_overlay_ignores_origin_but_records_parent() {
    let mut v = WindowsOverlayView::new();
    v.set_origin(phys(5, 5), true);
    assert_eq!(v.set_origin(phys(99, 99), false), None);
    assert_eq!(v.last_origin, phys(5, 5));
    assert_eq!(v.set_parent_position(phys(10, 10), false), None);
    assert_eq!(v.parent_pos, phys(10, 10));
    assert_eq!(v.set_parent_position(phys(10, 10), true), Some(PhysicalPosition { x: 15, y: 15 }));
}

#[test]
fn set_size_passes_size_through_when_alive() {
    let v = WindowsOverlayView::new();
    let s = Size::Physical(PhysicalSize { width: 300, height: 80 });
    assert_eq!(v.set_size(s, true), Some(s));
    assert_eq!(v.set_size(s, false), None);
    let l = Size::Logical(LogicalSize { width_bits: 1.5f64.to_bits(), height_bits: 2.5f64.to_bits() });
    assert_eq!(v.set_size(l, true), Some(l));
}

#[test]
fn embedded_frame_is_square_of_width() {
    let f = embedded_frame_size(Size::Physical(PhysicalSize { width: 300, height: 80 }));
    assert_eq!(f, Size::Physical(PhysicalSize { width: 300, height: 300 }));
    let f = embedded_frame_size(Size::Logical(LogicalSize { width_bits: 1.5f64.to_bits(), height_bits: 2.5f64.to_bits() }));
    assert_eq!(f, Size::Logical(LogicalSize { width_bits: 1.5f64.to_bits(), height_bits: 1.5f64.to_bits() }));
}
