//! A plain fence: a rectangle with a title, its border hit test and moves.

use vstd::prelude::*;

use crate::config::color::Fill;
use crate::geo::{fits_i32, Rect};

verus! {

/// The thickness of a plain fence's border.
pub const BORDER_THICKNESS: i32 = 3;

/// The part of a plain fence a point falls on.
#[derive(Clone, Copy, Debug, PartialEq, Eq, Structural)]
pub enum HitTest {
    /// The point is outside the fence.
    Outside,
    Inside,
    Left,
    Right,
    Top,
    Bottom,
    TopLeft,
    TopRight,
    BottomLeft,
    BottomRight,
}

/// A rectangle on the desktop with a title.
pub struct Fence {
    pub rect: Rect,
    pub title: String,
}

/// The part of `rect` the point `(x, y)` falls on, borders `BORDER_THICKNESS`
/// thick, corners first.
pub open spec fn spec_hit_test(rect: Rect, x: i32, y: i32) -> HitTest {
    if x < rect.left || x >= rect.right || y < rect.top || y >= rect.bottom {
        HitTest::Outside
    } else {
        let on_left = x < rect.left + BORDER_THICKNESS;
        let on_right = x >= rect.right - BORDER_THICKNESS;
        let on_top = y < rect.top + BORDER_THICKNESS;
        let on_bottom = y >= rect.bottom - BORDER_THICKNESS;
        if on_left && on_top {
            HitTest::TopLeft
        } else if on_right && on_top {
            HitTest::TopRight
        } else if on_left && on_bottom {
            HitTest::BottomLeft
        } else if on_right && on_bottom {
            HitTest::BottomRight
        } else if on_left {
            HitTest::Left
        } else if on_right {
            HitTest::Right
        } else if on_top {
            HitTest::Top
        } else if on_bottom {
            HitTest::Bottom
        } else {
            HitTest::Inside
        }
    }
}

impl Fence {
    /// A 300 x 150 fence titled "Untitled" with its top-left corner at `(x, y)`.
    pub fn new(x: i32, y: i32) -> (r: Self)
        requires
            x + 300 <= i32::MAX,
            y + 150 <= i32::MAX,
        ensures
            r.rect == (Rect { left: x, top: y, right: (x + 300) as i32, bottom: (y + 150) as i32 }),
            r.title@ == "Untitled"@,
    {
        Fence {
            rect: Rect { left: x, top: y, right: x + 300, bottom: y + 150 },
            title: String::from_str("Untitled"),
        }
    }

    /// The part of the fence the point `(x, y)` falls on.
    pub fn hit_test(&self, x: i32, y: i32) -> (r: HitTest)
        requires
            fits_i32(self.rect.left + BORDER_THICKNESS),
            fits_i32(self.rect.right - BORDER_THICKNESS),
            fits_i32(self.rect.top + BORDER_THICKNESS),
            fits_i32(self.rect.bottom - BORDER_THICKNESS),
        ensures
            r == spec_hit_test(self.rect, x, y),
    {
        if x < self.rect.left || x >= self.rect.right || y < self.rect.top || y >= self.rect.bottom {
            return HitTest::Outside;
        }
        let on_left = x < self.rect.left + BORDER_THICKNESS;
        let on_right = x >= self.rect.right - BORDER_THICKNESS;
        let on_top = y < self.rect.top + BORDER_THICKNESS;
        let on_bottom = y >= self.rect.bottom - BORDER_THICKNESS;
        match (on_left, on_right, on_top, on_bottom) {
            (true, _, true, _) => HitTest::TopLeft,
            (_, true, true, _) => HitTest::TopRight,
            (true, _, _, true) => HitTest::BottomLeft,
            (_, true, _, true) => HitTest::BottomRight,
            (true, _, _, _) => HitTest::Left,
            (_, true, _, _) => HitTest::Right,
            (_, _, true, _) => HitTest::Top,
            (_, _, _, true) => HitTest::Bottom,
            _ => HitTest::Inside,
        }
    }

    /// How the fence paints its rectangle: mid grey blended at half opacity (the
    /// white title is drawn centred over it).
    pub fn background(&self) -> (r: Fill)
        requires
            fits_i32(self.rect.right - self.rect.left),
            fits_i32(self.rect.bottom - self.rect.top),
        ensures
            r == (Fill::Blend {
                colorref: 0x00808080,
                alpha: 128,
                width: (self.rect.right - self.rect.left) as i32,
                height: (self.rect.bottom - self.rect.top) as i32,
            }),
    {
        Fill::Blend {
            colorref: 0x00808080,
            alpha: 128,
            width: self.rect.right - self.rect.left,
            height: self.rect.bottom - self.rect.top,
        }
    }

    /// Moves the fence by `(dx, dy)`.
    pub fn move_by(&mut self, dx: i32, dy: i32)
        requires
            fits_i32(old(self).rect.left + dx),
            fits_i32(old(self).rect.right + dx),
            fits_i32(old(self).rect.top + dy),
            fits_i32(old(self).rect.bottom + dy),
        ensures
            final(self).title == old(self).title,
            final(self).rect == (Rect {
                left: (old(self).rect.left + dx) as i32,
                top: (old(self).rect.top + dy) as i32,
                right: (old(self).rect.right + dx) as i32,
                bottom: (old(self).rect.bottom + dy) as i32,
            }),
    {
        self.rect.left = self.rect.left + dx;
        self.rect.right = self.rect.right + dx;
        self.rect.top = self.rect.top + dy;
        self.rect.bottom = self.rect.bottom + dy;
    }
}

} // verus!
