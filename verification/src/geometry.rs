//! Plain integer geometry used by the toast layout engine.
//!
//! All coordinates and sizes are whole units (the host decides how a unit
//! maps to its own pixel space). Keeping the model in integers lets every
//! layout computation be stated and proved exactly. Each executable type
//! has a mathematical view over unbounded integers, and all contracts are
//! stated over those views.

use vstd::prelude::*;

verus! {

/// Largest screen coordinate or configuration dimension the layout accepts.
pub const DIM_MAX: i64 = 1_000_000;

/// Largest width or height a toast box may reach: content-driven sizes are
/// sums of a few measured boxes and paddings, each at most `DIM_MAX`.
pub const DIM_SUM_MAX: i64 = 8_000_000;

/// Bound within which every stack cursor position stays: the starting
/// corner plus as many maximal per-toast advances as a collection may
/// hold. All rectangle arithmetic is safely below `i64` overflow inside
/// this range.
pub const POS_LIMIT: i64 = 20_000_000_000_000_000;

/// Bound the stack cursor itself stays within while a frame walks the
/// stack; rectangles shifted by a slide-in offset then stay within
/// `POS_LIMIT`.
pub const CURSOR_LIMIT: i64 = 10_000_000_000_000_000;

/// A point on the host's screen, in whole units.
#[derive(Clone, Copy, Debug, PartialEq, Eq, Structural)]
pub struct Pos2 {
    /// Horizontal coordinate, growing rightward.
    pub x: i64,
    /// Vertical coordinate, growing downward.
    pub y: i64,
}

/// Mathematical model of a point: the same coordinates as unbounded integers.
#[verifier::ext_equal]
pub struct PosView {
    /// Horizontal coordinate.
    pub x: int,
    /// Vertical coordinate.
    pub y: int,
}

/// A two-dimensional extent or offset, in whole units.
#[derive(Clone, Copy, Debug, PartialEq, Eq, Structural)]
pub struct Vec2i {
    /// Horizontal component.
    pub x: i64,
    /// Vertical component.
    pub y: i64,
}

/// Mathematical model of an extent.
#[verifier::ext_equal]
pub struct VecView {
    /// Horizontal component.
    pub x: int,
    /// Vertical component.
    pub y: int,
}

/// An axis-aligned rectangle given by two corners, `min` at the top left
/// and `max` at the bottom right.
#[derive(Clone, Copy, Debug, PartialEq, Eq, Structural)]
pub struct Rect {
    /// Top-left corner.
    pub min: Pos2,
    /// Bottom-right corner.
    pub max: Pos2,
}

/// Mathematical model of a rectangle.
#[verifier::ext_equal]
pub struct RectView {
    /// Top-left corner.
    pub min: PosView,
    /// Bottom-right corner.
    pub max: PosView,
}

/// An sRGB color with alpha, as the host's painter understands it.
#[derive(Clone, Copy, Debug, PartialEq, Eq, Structural)]
pub struct Rgba {
    /// Red channel.
    pub r: u8,
    /// Green channel.
    pub g: u8,
    /// Blue channel.
    pub b: u8,
    /// Alpha channel; 255 is fully opaque.
    pub a: u8,
}

impl View for Pos2 {
    type V = PosView;

    open spec fn view(&self) -> PosView {
        PosView { x: self.x as int, y: self.y as int }
    }
}

impl View for Vec2i {
    type V = VecView;

    open spec fn view(&self) -> VecView {
        VecView { x: self.x as int, y: self.y as int }
    }
}

impl View for Rect {
    type V = RectView;

    open spec fn view(&self) -> RectView {
        RectView { min: self.min@, max: self.max@ }
    }
}

impl PosView {
    /// Whether both coordinates lie within `bound` of zero.
    pub open spec fn in_range(self, bound: int) -> bool {
        -bound <= self.x <= bound && -bound <= self.y <= bound
    }
}

impl VecView {
    /// Whether both components lie in `[0, bound]`; configuration extents
    /// (margins, paddings, spacings) are never negative.
    pub open spec fn in_range(self, bound: int) -> bool {
        0 <= self.x <= bound && 0 <= self.y <= bound
    }
}

impl RectView {
    /// Whether `p` lies inside the rectangle, borders included.
    pub open spec fn contains(self, p: PosView) -> bool {
        self.min.x <= p.x <= self.max.x && self.min.y <= p.y <= self.max.y
    }
}

/// The product of two non-negative values stays within the product of
/// their bounds.
pub proof fn lemma_mul_le(a: int, a_max: int, b: int, b_max: int)
    requires
        0 <= a <= a_max,
        0 <= b <= b_max,
    ensures
        0 <= a * b <= a_max * b_max,
{
    assert(0 <= a * b <= a_max * b_max) by (nonlinear_arith)
        requires
            0 <= a <= a_max,
            0 <= b <= b_max,
    ;
}

impl Pos2 {
    /// Builds the point `(x, y)`.
    pub fn new(x: i64, y: i64) -> (p: Pos2)
        ensures
            p@ == (PosView { x: x as int, y: y as int }),
    {
        Pos2 { x, y }
    }
}

impl Vec2i {
    /// Builds the extent `(x, y)`.
    pub fn new(x: i64, y: i64) -> (v: Vec2i)
        ensures
            v@ == (VecView { x: x as int, y: y as int }),
    {
        Vec2i { x, y }
    }
}

impl Rgba {
    /// Builds an opaque color from its red, green and blue channels.
    pub fn from_rgb(r: u8, g: u8, b: u8) -> (c: Rgba)
        ensures
            c == (Rgba { r, g, b, a: 255u8 }),
    {
        Rgba { r, g, b, a: 255 }
    }
}

impl Rect {
    /// Point-in-rectangle test used for hover and press hit-testing.
    pub fn contains(&self, p: Pos2) -> (r: bool)
        ensures
            r == self@.contains(p@),
    {
        self.min.x <= p.x && p.x <= self.max.x && self.min.y <= p.y && p.y <= self.max.y
    }
}

} // verus!
