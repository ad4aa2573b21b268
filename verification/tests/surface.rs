use wgpu_overlay::geometry::PhysicalSize;
use wgpu_overlay::surface::{SurfaceConfig, WgpuState};

#[test]
fn new_state_follows_initial_size() {
    let s = WgpuState::new(PhysicalSize { width: 200, height: 200 });
    assert_eq!(s.size, PhysicalSize { width: 200, height: 200 });
    assert_eq!(s.config, SurfaceConfig { width: 200, height: 200 });
}

#[test]
fn resize_to_nonzero_size_reconfigures() {
    let mut s = WgpuState::new(PhysicalSize { width: 200, height: 200 });
    assert!(s.resize(PhysicalSize { width: 300, height: 80 }));
    assert_eq!(s.size, PhysicalSize { width: 300, height: 80 });
    assert_eq!(s.config, SurfaceConfig { width: 300, height: 80 });
}

#[test]
fn resize_to_same_size_still_reconfigures() {
    let mut s = WgpuState::new(PhysicalSize { width: 200, height: 200 });
    assert!(s.resize(PhysicalSize { width: 200, height: 200 }));
    assert_eq!(s, WgpuState::new(PhysicalSize { width: 200, height: 200 }));
}

#[test]
fn resize_with_zero_width_or_height_is_ignored() {
    let mut s = WgpuState::new(PhysicalSize { width: 200, height: 200 });
    let before = s;
    assert!(!s.resize(PhysicalSize { width: 0, height: 80 }));
    assert_eq!(s, before);
    assert!(!s.resize(PhysicalSize { width: 300, height: 0 }));
    assert_eq!(s, before);
    assert!(!s.resize(PhysicalSize { width: 0, height: 0 }));
    assert_eq!(s, before);
}

#[test]
fn last_renderable_resize_wins() {
    let mut s = WgpuState::new(PhysicalSize { width: 200, height: 200 });
    s.resize(PhysicalSize { width: 10, height: 20 });
    s.resize(PhysicalSize { width: 0, height: 5 });
    s.resize(PhysicalSize { width: 640, height: 48 });
    assert_eq!(s, WgpuState::new(PhysicalSize { width: 640, height: 48 }));
}
