use vstd::prelude::*;

use crate::geometry::PhysicalSize;

verus! {

/// The part of the render surface's configuration that follows the overlay's
/// size: the extent of the images the surface presents.  (Texture usage,
/// format and present mode are fixed when the surface is created.)
#[derive(Clone, Copy, Debug, PartialEq, Eq, Structural)]
pub struct SurfaceConfig {
    pub width: u32,
    pub height: u32,
}

/// The size bookkeeping of the GPU state that renders into the overlay: the
/// overlay's current size and the surface configuration derived from it.
#[derive(Clone, Copy, Debug, PartialEq, Eq, Structural)]
pub struct WgpuState {
    pub size: PhysicalSize,
    pub config: SurfaceConfig,
}

/// The surface configuration that renders at exactly `size`.
pub open spec fn config_for(size: PhysicalSize) -> SurfaceConfig {
    SurfaceConfig { width: size.width, height: size.height }
}

/// Whether a size can be given to the surface: both extents nonzero.
pub open spec fn is_renderable(size: PhysicalSize) -> bool {
    size.width > 0 && size.height > 0
}

impl WgpuState {
    /// The state `new` returns for `size`.
    pub open spec fn new_spec(size: PhysicalSize) -> WgpuState {
        WgpuState { size, config: config_for(size) }
    }

    /// The surface configuration always describes the current size.
    pub open spec fn well_formed(self) -> bool {
        self.config == config_for(self.size)
    }

    /// The state for a surface first created at `size`.
    pub fn new(size: PhysicalSize) -> (state: Self)
        ensures
            state.well_formed(),
            state == WgpuState::new_spec(size),
            state.size == size,
            state.config.width == size.width,
            state.config.height == size.height,
    {
        WgpuState { size, config: SurfaceConfig { width: size.width, height: size.height } }
    }

    /// Follows the overlay to `new_size`.  A size with a zero extent is
    /// ignored and leaves the state as it was; any other size becomes the
    /// current size and the surface configuration is updated to match.
    /// Returns whether the surface must be reconfigured with the new
    /// configuration.
    pub fn resize(&mut self, new_size: PhysicalSize) -> (reconfigure: bool)
        requires
            old(self).well_formed(),
        ensures
            final(self).well_formed(),
            reconfigure == is_renderable(new_size),
            reconfigure ==> final(self).size == new_size,
            !reconfigure ==> *final(self) == *old(self),
            *final(self) == resized(*old(self), new_size),
            reconfigure == (new_size.width > 0 && new_size.height > 0),
            reconfigure ==> final(self).config.width == new_size.width && final(self).config.height == new_size.height,
            final(self).config.width == final(self).size.width,
            final(self).config.height == final(self).size.height,
    {
        if new_size.width > 0 && new_size.height > 0 {
            self.size = new_size;
            self.config.width = new_size.width;
            self.config.height = new_size.height;
            true
        } else {
            false
        }
    }
}

/// What `resize` leaves behind, as a function of the state before and the
/// requested size.
pub open spec fn resized(state: WgpuState, new_size: PhysicalSize) -> WgpuState {
    if is_renderable(new_size) {
        WgpuState { size: new_size, config: config_for(new_size) }
    } else {
        state
    }
}

/// Resizing twice to the same size is the same as resizing once.
pub proof fn lemma_resize_idempotent(state: WgpuState, new_size: PhysicalSize)
    requires
        state.well_formed(),
    ensures
        resized(resized(state, new_size), new_size) == resized(state, new_size),
{
}

/// The last renderable size wins: after two resizes to renderable sizes the
/// state is that of the second, whatever the first was.
pub proof fn lemma_last_resize_wins(state: WgpuState, first: PhysicalSize, second: PhysicalSize)
    requires
        state.well_formed(),
        is_renderable(second),
    ensures
        resized(resized(state, first), second) == WgpuState::new_spec(second),
{
}

/// The state `resize` leaves is `resized(old, new_size)`, and it is always
/// well formed; a zero extent is never accepted, so once a renderable size
/// has been set the current size stays renderable.
pub proof fn lemma_resize_keeps_renderable(state: WgpuState, new_size: PhysicalSize)
    requires
        state.well_formed(),
        is_renderable(state.size),
    ensures
        resized(state, new_size).well_formed(),
        is_renderable(resized(state, new_size).size),
{
}

} // verus!
