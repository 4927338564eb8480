//! The screen corner or edge a toast stack hangs from.

use vstd::prelude::*;

use crate::geometry::{Pos2, PosView, Vec2i, VecView, DIM_MAX};

verus! {

/// Anchor where to show toasts.
#[derive(Debug, Clone, Copy, PartialEq, Eq, Structural)]
pub enum Anchor {
    /// Top right corner.
    TopRight,
    /// Top left corner.
    TopLeft,
    /// Top middle.
    TopMiddle,
    /// Bottom right corner.
    BottomRight,
    /// Bottom left corner.
    BottomLeft,
    /// Bottom middle.
    BottomMiddle,
}

impl Anchor {
    /// Whether the anchor hangs from the top edge; such stacks grow
    /// downward, while bottom-anchored stacks grow upward.
    pub open spec fn is_top(self) -> bool {
        self is TopRight || self is TopLeft || self is TopMiddle
    }

    /// The sign applied to the horizontal slide-in offset: `+1` for
    /// right-anchored and middle anchors, `-1` for left-anchored ones.
    pub open spec fn spec_anim_side(self) -> int {
        match self {
            Anchor::TopRight | Anchor::BottomRight | Anchor::TopMiddle | Anchor::BottomMiddle => 1,
            Anchor::TopLeft | Anchor::BottomLeft => -1,
        }
    }

    /// Sign of the slide-in animation offset for this anchor.
    pub fn anim_side(&self) -> (side: i64)
        ensures
            side == self.spec_anim_side(),
    {
        match self {
            Anchor::TopRight | Anchor::BottomRight | Anchor::TopMiddle | Anchor::BottomMiddle => 1,
            Anchor::TopLeft | Anchor::BottomLeft => -1,
        }
    }

    /// The corner point for a screen whose maximal coordinate is `sc`,
    /// before the margin is applied: one of the four screen corners, or
    /// the top or bottom midpoint for the middle variants.
    pub open spec fn spec_corner(self, sc: PosView) -> PosView {
        match self {
            Anchor::TopRight => PosView { x: sc.x, y: 0 },
            Anchor::TopMiddle => PosView { x: sc.x / 2, y: 0 },
            Anchor::TopLeft => PosView { x: 0, y: 0 },
            Anchor::BottomRight => sc,
            Anchor::BottomMiddle => PosView { x: sc.x / 2, y: sc.y },
            Anchor::BottomLeft => PosView { x: 0, y: sc.y },
        }
    }

    /// The corner point moved by `margin` away from the screen edges the
    /// anchor touches (only the horizontal edge for the middle variants).
    pub open spec fn spec_with_margin(self, pos: PosView, margin: VecView) -> PosView {
        match self {
            Anchor::TopRight => PosView { x: pos.x - margin.x, y: pos.y + margin.y },
            Anchor::TopMiddle => PosView { x: pos.x, y: pos.y + margin.y },
            Anchor::TopLeft => PosView { x: pos.x + margin.x, y: pos.y + margin.y },
            Anchor::BottomRight => PosView { x: pos.x - margin.x, y: pos.y - margin.y },
            Anchor::BottomMiddle => PosView { x: pos.x, y: pos.y - margin.y },
            Anchor::BottomLeft => PosView { x: pos.x + margin.x, y: pos.y - margin.y },
        }
    }

    /// The starting point of the stack: the anchor's corner of the screen,
    /// adjusted inward by `margin` along the axes this anchor touches.
    pub open spec fn spec_screen_corner(self, sc: PosView, margin: VecView) -> PosView {
        self.spec_with_margin(self.spec_corner(sc), margin)
    }

    /// Moves `pos` away from the screen edges this anchor touches by `margin`.
    pub fn apply_margin(&self, pos: &mut Pos2, margin: Vec2i)
        requires
            old(pos)@.in_range(DIM_MAX as int),
            margin@.in_range(DIM_MAX as int),
        ensures
            final(pos)@ == self.spec_with_margin(old(pos)@, margin@),
    {
        match self {
            Anchor::TopRight => {
                pos.x -= margin.x;
                pos.y += margin.y;
            }
            Anchor::TopMiddle => {
                pos.y += margin.y;
            }
            Anchor::TopLeft => {
                pos.x += margin.x;
                pos.y += margin.y;
            }
            Anchor::BottomRight => {
                pos.x -= margin.x;
                pos.y -= margin.y;
            }
            Anchor::BottomMiddle => {
                pos.y -= margin.y;
            }
            Anchor::BottomLeft => {
                pos.x += margin.x;
                pos.y -= margin.y;
            }
        }
    }

    /// Starting point of the stack for a screen of maximal coordinate `sc`
    /// and the given margin.
    pub fn screen_corner(&self, sc: Pos2, margin: Vec2i) -> (out: Pos2)
        requires
            0 <= sc@.x <= DIM_MAX,
            0 <= sc@.y <= DIM_MAX,
            margin@.in_range(DIM_MAX as int),
        ensures
            out@ == self.spec_screen_corner(sc@, margin@),
    {
        let mut out = match self {
            Anchor::TopRight => Pos2 { x: sc.x, y: 0 },
            Anchor::TopMiddle => Pos2 { x: sc.x / 2, y: 0 },
            Anchor::TopLeft => Pos2 { x: 0, y: 0 },
            Anchor::BottomRight => sc,
            Anchor::BottomMiddle => Pos2 { x: sc.x / 2, y: sc.y },
            Anchor::BottomLeft => Pos2 { x: 0, y: sc.y },
        };
        self.apply_margin(&mut out, margin);
        out
    }
}

} // verus!
