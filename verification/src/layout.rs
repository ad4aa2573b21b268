use vstd::prelude::*;

use crate::geometry::{PhysicalPosition, PhysicalSize};

verus! {

/// Distance, in physical pixels, from the top of the window to the overlay.
pub const OVERLAY_TOP: i32 = 100;

/// Where the overlay sits inside its window, in physical pixels.
#[derive(Clone, Copy, Debug, PartialEq, Eq, Structural)]
pub struct OverlayLayout {
    pub origin: PhysicalPosition,
    pub size: PhysicalSize,
}

/// The overlay is 30% of the window's width, rounded down.
pub open spec fn overlay_width(window_width: u32) -> int {
    (3 * window_width) / 10
}

/// The overlay is 10% of the window's height, rounded down.
pub open spec fn overlay_height(window_height: u32) -> int {
    window_height as int / 10
}

/// The overlay's left edge: half the space the overlay leaves free,
/// `(width - 0.3 * width) / 2`, rounded down.
pub open spec fn overlay_left(window_width: u32) -> int {
    (7 * window_width) / 20
}

/// The layout the overlay takes in a window of the given size.
pub open spec fn layout_for(window: PhysicalSize) -> OverlayLayout {
    OverlayLayout {
        origin: PhysicalPosition {
            x: overlay_left(window.width) as i32,
            y: OVERLAY_TOP,
        },
        size: PhysicalSize {
            width: overlay_width(window.width) as u32,
            height: overlay_height(window.height) as u32,
        },
    }
}

/// Computes where the overlay goes when its window has the given size: a
/// strip 30% as wide and 10% as tall as the window, centred horizontally and
/// `OVERLAY_TOP` pixels from the top.
pub fn overlay_layout(window: PhysicalSize) -> (layout: OverlayLayout)
    ensures
        layout == layout_for(window),
        layout.origin.x == overlay_left(window.width),
        layout.origin.y == OVERLAY_TOP,
        layout.size.width == overlay_width(window.width),
        layout.size.height == overlay_height(window.height),
        layout.origin.y == 100,
        10 * layout.size.width <= 3 * window.width < 10 * layout.size.width + 10,
        10 * layout.size.height <= window.height < 10 * layout.size.height + 10,
        0 <= layout.origin.x,
        2 * layout.origin.x <= window.width - layout.size.width <= 2 * layout.origin.x + 2,
        20 * layout.origin.x <= 7 * window.width < 20 * layout.origin.x + 20,
{
    let w: u64 = window.width as u64;
    let width: u64 = w * 3 / 10;
    let left: u64 = w * 7 / 20;
    let height: u32 = window.height / 10;
    assert(left <= i32::MAX);
    OverlayLayout {
        origin: PhysicalPosition { x: left as i32, y: OVERLAY_TOP },
        size: PhysicalSize { width: width as u32, height },
    }
}

/// The overlay never reaches past the right edge of its window, nor past its
/// bottom edge below the top offset: `x + width <= window width` and
/// `height <= window height`.
pub proof fn lemma_overlay_fits(window: PhysicalSize)
    ensures
        0 <= layout_for(window).origin.x,
        layout_for(window).origin.x + layout_for(window).size.width <= window.width,
        layout_for(window).size.height <= window.height,
{
}

/// The overlay is centred horizontally: the space right of it is never
/// smaller than the space left of it, and exceeds it by at most two pixels
/// (rounding).
pub proof fn lemma_overlay_centred(window: PhysicalSize)
    ensures
        ({
            let l = layout_for(window);
            let left_gap = l.origin.x as int;
            let right_gap = window.width - l.origin.x - l.size.width;
            &&& 0 <= right_gap - left_gap <= 2
        }),
{
}

/// A wider window never gives a narrower overlay, nor one further left.
pub proof fn lemma_overlay_monotonic(a: PhysicalSize, b: PhysicalSize)
    requires
        a.width <= b.width,
        a.height <= b.height,
    ensures
        layout_for(a).size.width <= layout_for(b).size.width,
        layout_for(a).size.height <= layout_for(b).size.height,
        layout_for(a).origin.x <= layout_for(b).origin.x,
{
    assert((3 * a.width) / 10 <= (3 * b.width) / 10) by (nonlinear_arith)
        requires a.width <= b.width;
    assert((7 * a.width) / 20 <= (7 * b.width) / 20) by (nonlinear_arith)
        requires a.width <= b.width;
    assert(a.height / 10 <= b.height / 10) by (nonlinear_arith)
        requires a.height <= b.height;
}

} // verus!
