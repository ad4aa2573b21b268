//! Window and surface bookkeeping for a GPU overlay drawn on top of an
//! application window: where the overlay goes when the window moves or is
//! resized, how the render surface follows it, which native menu the
//! application installs, and the extended window style that makes the overlay
//! transparent to input.

pub mod geometry;
pub mod layout;
pub mod surface;
pub mod overlay;
pub mod events;
pub mod menu;
pub mod window_style;
