//! Logical/physical coordinate pairs and the DPI scale factor that converts
//! between them.
//!
//! The native layer reports pixel densities as a whole number of dots per
//! inch, with 96 as the baseline, so a scale factor is carried here as that
//! integer DPI value: the factor it stands for is `dpi / 96`. Upscaling a
//! logical value `v` gives `v * dpi / 96` physical pixels; downscaling a
//! physical value gives `v * 96 / dpi` logical units. Results are clamped to
//! `u32::MAX`, the same saturation the native conversions apply.

use vstd::prelude::*;

verus! {

/// The baseline dots-per-inch value at which logical and physical units
/// coincide.
pub const BASE_DPI: u32 = 96;

/// Represents a DPI scale factor to apply to a [`Point`] or [`Size`]:
/// the factor is `dpi / 96`.
#[derive(Copy, Clone, Debug, Eq, PartialEq, Structural)]
pub struct Scale {
    /// Dots per inch; 96 means a factor of one.
    pub dpi: u32,
}

impl Scale {
    /// A scale is meaningful only with a nonzero dot density.
    pub open spec fn wf(self) -> bool {
        self.dpi >= 1
    }

    /// Creates a scale factor of `dpi / 96`.
    pub fn new(dpi: u32) -> (r: Scale)
        requires
            dpi >= 1,
        ensures
            r.dpi == dpi,
            r.wf(),
    {
        Scale { dpi }
    }

    /// The identity scale factor (96 DPI).
    pub fn identity() -> (r: Scale)
        ensures
            r.dpi == BASE_DPI,
            r.wf(),
    {
        Scale { dpi: BASE_DPI }
    }
}

/// `v * dpi / 96`, clamped to `u32::MAX`: logical units to physical pixels.
pub open spec fn spec_scale_up(v: u32, dpi: u32) -> u32 {
    let x = (v as int) * (dpi as int) / (BASE_DPI as int);
    if x > u32::MAX as int {
        u32::MAX
    } else {
        x as u32
    }
}

/// `v * 96 / dpi`, clamped to `u32::MAX`: physical pixels to logical units.
pub open spec fn spec_scale_down(v: u32, dpi: u32) -> u32
    recommends
        dpi >= 1,
{
    let x = (v as int) * (BASE_DPI as int) / (dpi as int);
    if x > u32::MAX as int {
        u32::MAX
    } else {
        x as u32
    }
}

/// Upscales one logical coordinate to physical pixels.
pub fn scale_up(v: u32, dpi: u32) -> (r: u32)
    ensures
        r == spec_scale_up(v, dpi),
{
    assert((v as int) * (dpi as int) <= (u32::MAX as int) * (u32::MAX as int)) by (nonlinear_arith)
        requires
            v <= u32::MAX && dpi <= u32::MAX,
    ;
    let prod: u64 = (v as u64) * (dpi as u64);
    let q: u64 = prod / (BASE_DPI as u64);
    if q > (u32::MAX as u64) {
        u32::MAX
    } else {
        q as u32
    }
}

/// Downscales one physical coordinate to logical units.
pub fn scale_down(v: u32, dpi: u32) -> (r: u32)
    requires
        dpi >= 1,
    ensures
        r == spec_scale_down(v, dpi),
{
    let prod: u64 = (v as u64) * (BASE_DPI as u64);
    let q: u64 = prod / (dpi as u64);
    if q > (u32::MAX as u64) {
        u32::MAX
    } else {
        q as u32
    }
}

/// Represents an unscaled logical or physical point.
#[derive(Copy, Clone, Debug, Eq, PartialEq, Structural)]
pub enum Point {
    /// Logical point that is scalable to monitor DPI.
    Logical(u32, u32),
    /// Physical point in absolute pixels regardless of DPI.
    Physical(u32, u32),
}

/// Represents an unscaled logical or physical size.
#[derive(Copy, Clone, Debug, Eq, PartialEq, Structural)]
pub enum Size {
    /// Logical size that is scalable to monitor DPI.
    Logical(u32, u32),
    /// Physical size in absolute pixels regardless of DPI.
    Physical(u32, u32),
}

impl Point {
    /// What [`Point::as_logical`] returns.
    pub open spec fn spec_as_logical(self, scale: Scale) -> (u32, u32) {
        match self {
            Point::Logical(x, y) => (x, y),
            Point::Physical(x, y) => (
                spec_scale_down(x, scale.dpi),
                spec_scale_down(y, scale.dpi),
            ),
        }
    }

    /// What [`Point::as_physical`] returns.
    pub open spec fn spec_as_physical(self, scale: Scale) -> (u32, u32) {
        match self {
            Point::Logical(x, y) => (spec_scale_up(x, scale.dpi), spec_scale_up(y, scale.dpi)),
            Point::Physical(x, y) => (x, y),
        }
    }

    /// Gets `self` as a logical x and y, downscaled with the given factor.
    /// If `self` is already logical, no downscaling is done.
    pub fn as_logical(self, scale: Scale) -> (r: (u32, u32))
        requires
            scale.wf(),
        ensures
            r == self.spec_as_logical(scale),
    {
        match self {
            Point::Logical(x, y) => (x, y),
            Point::Physical(x, y) => (scale_down(x, scale.dpi), scale_down(y, scale.dpi)),
        }
    }

    /// Gets `self` as a physical x and y, upscaled with the given factor.
    /// If `self` is already physical, no upscaling is done.
    pub fn as_physical(self, scale: Scale) -> (r: (u32, u32))
        ensures
            r == self.spec_as_physical(scale),
    {
        match self {
            Point::Logical(x, y) => (scale_up(x, scale.dpi), scale_up(y, scale.dpi)),
            Point::Physical(x, y) => (x, y),
        }
    }

    /// Converts `self` to a logical point, downscaled with the given factor.
    pub fn to_logical(self, scale: Scale) -> (r: Point)
        requires
            scale.wf(),
        ensures
            r == (Point::Logical(
                self.spec_as_logical(scale).0,
                self.spec_as_logical(scale).1,
            )),
    {
        let (x, y) = self.as_logical(scale);
        Point::Logical(x, y)
    }

    /// Converts `self` to a physical point, upscaled with the given factor.
    pub fn to_physical(self, scale: Scale) -> (r: Point)
        ensures
            r == (Point::Physical(
                self.spec_as_physical(scale).0,
                self.spec_as_physical(scale).1,
            )),
    {
        let (x, y) = self.as_physical(scale);
        Point::Physical(x, y)
    }

    /// Upscales to physical pixels only if `self` is logical.
    pub fn scale_if_logical(self, scale: Scale) -> (r: (u32, u32))
        ensures
            r == self.spec_as_physical(scale),
    {
        self.as_physical(scale)
    }
}

impl Size {
    /// What [`Size::as_logical`] returns.
    pub open spec fn spec_as_logical(self, scale: Scale) -> (u32, u32) {
        match self {
            Size::Logical(w, h) => (w, h),
            Size::Physical(w, h) => (
                spec_scale_down(w, scale.dpi),
                spec_scale_down(h, scale.dpi),
            ),
        }
    }

    /// What [`Size::as_physical`] returns.
    pub open spec fn spec_as_physical(self, scale: Scale) -> (u32, u32) {
        match self {
            Size::Logical(w, h) => (spec_scale_up(w, scale.dpi), spec_scale_up(h, scale.dpi)),
            Size::Physical(w, h) => (w, h),
        }
    }

    /// Whether this size is in logical units.
    pub open spec fn spec_is_logical(self) -> bool {
        self is Logical
    }

    /// Gets `self` as a logical width and height, downscaled with the given
    /// factor. If `self` is already logical, no downscaling is done.
    pub fn as_logical(self, scale: Scale) -> (r: (u32, u32))
        requires
            scale.wf(),
        ensures
            r == self.spec_as_logical(scale),
    {
        match self {
            Size::Logical(w, h) => (w, h),
            Size::Physical(w, h) => (scale_down(w, scale.dpi), scale_down(h, scale.dpi)),
        }
    }

    /// Gets `self` as a physical width and height, upscaled with the given
    /// factor. If `self` is already physical, no upscaling is done.
    pub fn as_physical(self, scale: Scale) -> (r: (u32, u32))
        ensures
            r == self.spec_as_physical(scale),
    {
        match self {
            Size::Logical(w, h) => (scale_up(w, scale.dpi), scale_up(h, scale.dpi)),
            Size::Physical(w, h) => (w, h),
        }
    }

    /// Converts `self` to a logical size, downscaled with the given factor.
    pub fn to_logical(self, scale: Scale) -> (r: Size)
        requires
            scale.wf(),
        ensures
            r == (Size::Logical(
                self.spec_as_logical(scale).0,
                self.spec_as_logical(scale).1,
            )),
    {
        let (w, h) = self.as_logical(scale);
        Size::Logical(w, h)
    }

    /// Converts `self` to a physical size, upscaled with the given factor.
    pub fn to_physical(self, scale: Scale) -> (r: Size)
        ensures
            r == (Size::Physical(
                self.spec_as_physical(scale).0,
                self.spec_as_physical(scale).1,
            )),
    {
        let (w, h) = self.as_physical(scale);
        Size::Physical(w, h)
    }

    /// Upscales to physical pixels only if `self` is logical.
    pub fn scale_if_logical(self, scale: Scale) -> (r: (u32, u32))
        ensures
            r == self.spec_as_physical(scale),
    {
        self.as_physical(scale)
    }
}

} // verus!
