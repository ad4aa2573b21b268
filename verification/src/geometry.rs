use vstd::prelude::*;

verus! {

/// A position in physical (device) pixels.
#[derive(Clone, Copy, Debug, PartialEq, Eq, Structural)]
pub struct PhysicalPosition {
    pub x: i32,
    pub y: i32,
}

/// A size in physical (device) pixels.
#[derive(Clone, Copy, Debug, PartialEq, Eq, Structural)]
pub struct PhysicalSize {
    pub width: u32,
    pub height: u32,
}

/// A position in logical (scale-independent) units.
///
/// Logical coordinates are fractional; they are carried here as the IEEE-754
/// bit patterns of their `f64` values.  Nothing in this crate computes with
/// them: they are only stored and handed back unchanged.
#[derive(Clone, Copy, Debug, PartialEq, Eq, Structural)]
pub struct LogicalPosition {
    pub x_bits: u64,
    pub y_bits: u64,
}

/// A size in logical units, carried as `f64` bit patterns like
/// [`LogicalPosition`].
#[derive(Clone, Copy, Debug, PartialEq, Eq, Structural)]
pub struct LogicalSize {
    pub width_bits: u64,
    pub height_bits: u64,
}

/// A position in either physical or logical units.
#[derive(Clone, Copy, Debug, PartialEq, Eq, Structural)]
pub enum Position {
    Physical(PhysicalPosition),
    Logical(LogicalPosition),
}

/// A size in either physical or logical units.
#[derive(Clone, Copy, Debug, PartialEq, Eq, Structural)]
pub enum Size {
    Physical(PhysicalSize),
    Logical(LogicalSize),
}

/// Whether `v` is a value of `i32`.
pub open spec fn fits_i32(v: int) -> bool {
    i32::MIN <= v <= i32::MAX
}

} // verus!
