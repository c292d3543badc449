//! Pixel positions and sizes in whole pixels.

use vstd::prelude::*;

verus! {

/// A position in device pixels.
#[derive(Clone, Copy, Debug, PartialEq, Eq, Structural, Hash)]
pub struct PhysicalPosition {
    pub x: i32,
    pub y: i32,
}

/// A position in application (logical) pixels.
#[derive(Clone, Copy, Debug, PartialEq, Eq, Structural, Hash)]
pub struct LogicalPosition {
    pub x: i32,
    pub y: i32,
}

/// A size in device pixels.
#[derive(Clone, Copy, Debug, PartialEq, Eq, Structural, Hash)]
pub struct PhysicalSize {
    pub width: u32,
    pub height: u32,
}

/// A size in application (logical) pixels.
#[derive(Clone, Copy, Debug, PartialEq, Eq, Structural, Hash)]
pub struct LogicalSize {
    pub width: i32,
    pub height: i32,
}

/// A position that is either physical or logical.
#[derive(Clone, Copy, Debug, PartialEq, Eq, Structural, Hash)]
pub enum Position {
    Physical(PhysicalPosition),
    Logical(LogicalPosition),
}

/// A size that is either physical or logical.
#[derive(Clone, Copy, Debug, PartialEq, Eq, Structural, Hash)]
pub enum Size {
    Physical(PhysicalSize),
    Logical(LogicalSize),
}

/// The scale factor at which a window is first sized: one device pixel per
/// logical pixel, whatever the monitor it ends up on.
pub const INITIAL_SCALE_FACTOR: u8 = 1;

/// A pixel count as the nearest `i32`: itself where it fits, else `i32::MAX`.
pub open spec fn saturated(pixels: int) -> int {
    if pixels > i32::MAX {
        i32::MAX as int
    } else {
        pixels
    }
}

impl Size {
    /// The size in logical pixels at a scale factor of one.
    ///
    /// A logical size is itself. A physical size keeps its numbers, except
    /// that one beyond `i32::MAX` becomes `i32::MAX`.
    pub open spec fn logical_at_unit_scale(self) -> LogicalSize {
        match self {
            Size::Physical(size) => LogicalSize {
                width: saturated(size.width as int) as i32,
                height: saturated(size.height as int) as i32,
            },
            Size::Logical(size) => size,
        }
    }

    /// Converts to logical pixels for a window's first sizing.
    pub fn to_initial_logical(self) -> (logical: LogicalSize)
        ensures
            logical == self.logical_at_unit_scale(),
    {
        to_logical(self, INITIAL_SCALE_FACTOR)
    }
}

/// `dpi::Size::to_logical::<i32>`, given the same size and the scale factor
/// as a whole number.
///
/// Only the scale factor one is admitted. There dpi divides each physical
/// pixel count by one, rounds to the nearest whole number and converts to
/// `i32`, which leaves a count that fits unchanged and turns a larger one into
/// `i32::MAX`; a logical size it only rounds, and whole numbers round to
/// themselves.
#[verifier::external_body]
fn to_logical(size: Size, scale_factor: u8) -> (logical: LogicalSize)
    requires
        scale_factor == 1,
    ensures
        logical == size.logical_at_unit_scale(),
{
    let outside = match size {
        Size::Physical(size) => dpi::Size::Physical(dpi::PhysicalSize::new(size.width, size.height)),
        Size::Logical(size) => dpi::Size::Logical(
            dpi::LogicalSize::new(size.width.into(), size.height.into()),
        ),
    };
    let logical = outside.to_logical::<i32>(scale_factor.into());
    LogicalSize { width: logical.width, height: logical.height }
}

} // verus!
