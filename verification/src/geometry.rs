//! Rectangular regions of the terminal viewport, measured in character cells.

use vstd::prelude::*;

verus! {

/// A rectangular region of the screen: position of the top-left corner plus
/// width and height, all in character cells.
#[derive(Clone, Copy, Debug, PartialEq, Eq, Structural)]
pub struct Rect {
    pub x: u16,
    pub y: u16,
    pub width: u16,
    pub height: u16,
}

impl Rect {
    /// A rectangle is well formed when its far edges still fit in `u16`
    /// coordinates, so that coordinate arithmetic cannot overflow.
    pub open spec fn wf(self) -> bool {
        self.x + self.width <= u16::MAX && self.y + self.height <= u16::MAX
    }

    /// The number of cells the rectangle covers.
    pub open spec fn spec_area(self) -> int {
        self.width * self.height
    }

    /// Whether the cell in column `i`, row `j` lies inside the rectangle.
    pub open spec fn covers(self, i: int, j: int) -> bool {
        self.x <= i < self.x + self.width && self.y <= j < self.y + self.height
    }

    /// The rectangle shrunk by a one-cell margin on every side.  A rectangle
    /// too small to contain the margin collapses to zero size in place.
    pub open spec fn spec_inset(self) -> Rect {
        if self.width < 2 || self.height < 2 {
            Rect { x: self.x, y: self.y, width: 0, height: 0 }
        } else {
            Rect {
                x: (self.x + 1) as u16,
                y: (self.y + 1) as u16,
                width: (self.width - 2) as u16,
                height: (self.height - 2) as u16,
            }
        }
    }

    /// Shrink the rectangle by a one-cell margin on every side.
    pub fn inset(self) -> (r: Rect)
        requires
            self.wf(),
        ensures
            r == self.spec_inset(),
            r.wf(),
    {
        if self.width < 2 || self.height < 2 {
            Rect { x: self.x, y: self.y, width: 0, height: 0 }
        } else {
            Rect {
                x: self.x + 1,
                y: self.y + 1,
                width: self.width - 2,
                height: self.height - 2,
            }
        }
    }
}

} // verus!
