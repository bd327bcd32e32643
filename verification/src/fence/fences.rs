//! Keeping sticky fences at their screen corner when the screen size changes.

use vstd::prelude::*;

use crate::config::state::{AppState, FenceState, FenceStickyPosition};
use crate::geo::{fits_i32, Area};

verus! {

/// The new origin of a fence stuck to corner `sticky` when the screen changes from
/// `old_w` x `old_h` to `new_w` x `new_h`: it keeps its distance to the right edge
/// when stuck to a right corner, to the bottom edge when stuck to a bottom corner,
/// and its coordinate otherwise. `None` where an intermediate value of the
/// computation leaves the `i32` range.
pub open spec fn spec_sticky_origin(
    sticky: FenceStickyPosition,
    x: i32,
    y: i32,
    w: i32,
    h: i32,
    old_w: i32,
    old_h: i32,
    new_w: i32,
    new_h: i32,
) -> Option<(i32, i32)> {
    let right_ok = fits_i32(x + w) && fits_i32(old_w - (x + w)) && fits_i32(new_w - w) && fits_i32(
        new_w - w - (old_w - (x + w)),
    );
    let bottom_ok = fits_i32(y + h) && fits_i32(old_h - (y + h)) && fits_i32(new_h - h) && fits_i32(
        new_h - h - (old_h - (y + h)),
    );
    match sticky {
        FenceStickyPosition::TopLeft => Some((x, y)),
        FenceStickyPosition::TopRight => if right_ok {
            Some(((x + new_w - old_w) as i32, y))
        } else {
            None
        },
        FenceStickyPosition::BottomLeft => if bottom_ok {
            Some((x, (y + new_h - old_h) as i32))
        } else {
            None
        },
        FenceStickyPosition::BottomRight => if right_ok && bottom_ok {
            Some(((x + new_w - old_w) as i32, (y + new_h - old_h) as i32))
        } else {
            None
        },
    }
}

/// The new origin of a fence stuck to corner `sticky` when the screen changes size.
pub fn sticky_origin(
    sticky: FenceStickyPosition,
    area: &Area<i32>,
    old_w: i32,
    old_h: i32,
    new_w: i32,
    new_h: i32,
) -> (r: Option<(i32, i32)>)
    ensures
        r == spec_sticky_origin(sticky, area.x, area.y, area.width, area.height, old_w, old_h, new_w, new_h),
{
    let x = area.x;
    let y = area.y;
    let w = area.width;
    let h = area.height;
    match sticky {
        FenceStickyPosition::TopLeft => Some((x, y)),
        FenceStickyPosition::TopRight => match offset_from_far_edge(x, w, old_w, new_w) {
            Some(nx) => Some((nx, y)),
            None => None,
        },
        FenceStickyPosition::BottomLeft => match offset_from_far_edge(y, h, old_h, new_h) {
            Some(ny) => Some((x, ny)),
            None => None,
        },
        FenceStickyPosition::BottomRight => {
            let nx = offset_from_far_edge(x, w, old_w, new_w);
            let ny = offset_from_far_edge(y, h, old_h, new_h);
            match (nx, ny) {
                (Some(nx), Some(ny)) => Some((nx, ny)),
                _ => None,
            }
        },
    }
}

/// The coordinate that keeps a fence's distance to the far screen edge when the
/// screen's extent changes from `old` to `new`: `new - size - (old - (pos + size))`,
/// evaluated step by step in `i32`, or `None` where a step overflows.
fn offset_from_far_edge(pos: i32, size: i32, old: i32, new: i32) -> (r: Option<i32>)
    ensures
        r == (if fits_i32(pos + size) && fits_i32(old - (pos + size)) && fits_i32(new - size)
            && fits_i32(new - size - (old - (pos + size))) {
            Some((pos + new - old) as i32)
        } else {
            None::<i32>
        }),
{
    let end = pos.checked_add(size)?;
    let offset = old.checked_sub(end)?;
    let a = new.checked_sub(size)?;
    a.checked_sub(offset)
}

/// The saved fences can all be rearranged from one screen size to another
/// without an overflow.
pub open spec fn rearrange_fits(
    fences: Seq<FenceState>,
    old_w: i32,
    old_h: i32,
    new_w: i32,
    new_h: i32,
) -> bool {
    forall|i: int|
        0 <= i < fences.len() ==> ((#[trigger] fences[i]).sticky_pos matches Some(s) ==> spec_sticky_origin(
            s,
            fences[i].area.x,
            fences[i].area.y,
            fences[i].area.width,
            fences[i].area.height,
            old_w,
            old_h,
            new_w,
            new_h,
        ) is Some)
}

/// The fence's origin after rearranging.
pub open spec fn rearranged_origin(
    f: FenceState,
    old_w: i32,
    old_h: i32,
    new_w: i32,
    new_h: i32,
) -> (i32, i32) {
    match f.sticky_pos {
        Some(s) => match spec_sticky_origin(
            s,
            f.area.x,
            f.area.y,
            f.area.width,
            f.area.height,
            old_w,
            old_h,
            new_w,
            new_h,
        ) {
            Some(p) => p,
            None => (f.area.x, f.area.y),
        },
        None => (f.area.x, f.area.y),
    }
}

/// `after` is the fence `before` moved for a change of screen size: everything
/// is kept but the origin, which is the rearranged one.
pub open spec fn moved_for_screen(
    before: FenceState,
    after: FenceState,
    old_w: i32,
    old_h: i32,
    new_w: i32,
    new_h: i32,
) -> bool {
    &&& after.title == before.title
    &&& after.icons == before.icons
    &&& after.imported_from == before.imported_from
    &&& after.sticky_pos == before.sticky_pos
    &&& after.area.width == before.area.width
    &&& after.area.height == before.area.height
    &&& (after.area.x, after.area.y) == rearranged_origin(before, old_w, old_h, new_w, new_h)
}

/// Moves every sticky fence for a change of screen size from
/// `old_screen_width` x `old_screen_height` to `new_width` x `new_height`; fences
/// without a sticky corner stay. Nothing changes when the size is the same.
/// Returns whether the size changed (so the state is to be saved).
pub fn rearrange(
    fences: &mut Vec<FenceState>,
    old_screen_width: i32,
    old_screen_height: i32,
    new_width: i32,
    new_height: i32,
) -> (changed: bool)
    requires
        rearrange_fits(old(fences)@, old_screen_width, old_screen_height, new_width, new_height),
    ensures
        changed == !(old_screen_width == new_width && old_screen_height == new_height),
        final(fences)@.len() == old(fences)@.len(),
        forall|i: int|
            0 <= i < final(fences)@.len() ==> if changed {
                moved_for_screen(
                    #[trigger] old(fences)@[i],
                    final(fences)@[i],
                    old_screen_width,
                    old_screen_height,
                    new_width,
                    new_height,
                )
            } else {
                final(fences)@[i] == old(fences)@[i]
            },
{
    if old_screen_width == new_width && old_screen_height == new_height {
        return false;
    }
    let n = fences.len();
    let mut i: usize = 0;
    while i < n
        invariant
            n == fences@.len(),
            n == old(fences)@.len(),
            i <= n,
            rearrange_fits(old(fences)@, old_screen_width, old_screen_height, new_width, new_height),
            forall|j: int|
                i <= j < n ==> #[trigger] fences@[j] == old(fences)@[j],
            forall|j: int|
                0 <= j < i ==> moved_for_screen(
                    #[trigger] old(fences)@[j],
                    fences@[j],
                    old_screen_width,
                    old_screen_height,
                    new_width,
                    new_height,
                ),
        decreases n - i,
    {
        let sticky = fences[i].sticky_pos;
        if let Some(s) = sticky {
            let origin = sticky_origin(
                s,
                &fences[i].area,
                old_screen_width,
                old_screen_height,
                new_width,
                new_height,
            );
            if let Some((nx, ny)) = origin {
                let mut f = fences.remove(i);
                f.area.x = nx;
                f.area.y = ny;
                fences.insert(i, f);
            }
        }
        i = i + 1;
    }
    true
}

impl AppState {
    /// The screen is now `width` x `height`: moves the sticky fences from the
    /// screen size the state holds to the new one, and records the new size.
    /// Returns whether the size changed.
    pub fn rearrange_to(&mut self, width: i32, height: i32) -> (changed: bool)
        requires
            rearrange_fits(old(self).fences@, old(self).screen_width, old(self).screen_height, width, height),
        ensures
            changed == !(old(self).screen_width == width && old(self).screen_height == height),
            final(self).screen_width == width,
            final(self).screen_height == height,
            final(self).fences@.len() == old(self).fences@.len(),
            forall|i: int|
                0 <= i < final(self).fences@.len() ==> if changed {
                    moved_for_screen(
                        #[trigger] old(self).fences@[i],
                        final(self).fences@[i],
                        old(self).screen_width,
                        old(self).screen_height,
                        width,
                        height,
                    )
                } else {
                    final(self).fences@[i] == old(self).fences@[i]
                },
    {
        let old_w = self.screen_width;
        let old_h = self.screen_height;
        let changed = rearrange(&mut self.fences, old_w, old_h, width, height);
        self.screen_width = width;
        self.screen_height = height;
        changed
    }
}

/// A fence stuck to a corner keeps its distance to the two screen edges of that
/// corner when the screen changes size, and its size.
pub proof fn lemma_sticky_keeps_corner_distance(
    sticky: FenceStickyPosition,
    x: i32,
    y: i32,
    w: i32,
    h: i32,
    old_w: i32,
    old_h: i32,
    new_w: i32,
    new_h: i32,
)
    requires
        spec_sticky_origin(sticky, x, y, w, h, old_w, old_h, new_w, new_h) is Some,
    ensures
        ({
            let (nx, ny) = spec_sticky_origin(sticky, x, y, w, h, old_w, old_h, new_w, new_h).unwrap();
            let right = sticky == FenceStickyPosition::TopRight || sticky == FenceStickyPosition::BottomRight;
            let bottom = sticky == FenceStickyPosition::BottomLeft || sticky == FenceStickyPosition::BottomRight;
            &&& right ==> new_w - (nx + w) == old_w - (x + w)
            &&& !right ==> nx == x
            &&& bottom ==> new_h - (ny + h) == old_h - (y + h)
            &&& !bottom ==> ny == y
        }),
{
}

/// The corner is on the right edge of the screen.
pub open spec fn right_corner(s: FenceStickyPosition) -> bool {
    s == FenceStickyPosition::TopRight || s == FenceStickyPosition::BottomRight
}

/// The corner is on the bottom edge of the screen.
pub open spec fn bottom_corner(s: FenceStickyPosition) -> bool {
    s == FenceStickyPosition::BottomLeft || s == FenceStickyPosition::BottomRight
}

/// Rearranging a fence for a change of screen size: a fence without a sticky
/// corner stays; a sticky fence keeps its distance to the right screen edge when
/// its corner is on the right (else its x), and to the bottom edge when its
/// corner is at the bottom (else its y), for each of the four corners, wherever
/// the distance and the new position are `i32` values.
pub proof fn lemma_rearranged_keeps_corner_distance(
    f: FenceState,
    old_w: i32,
    old_h: i32,
    new_w: i32,
    new_h: i32,
)
    requires
        f.sticky_pos matches Some(s) ==> (right_corner(s) ==> fits_i32(f.area.x + f.area.width)
            && fits_i32(old_w - (f.area.x + f.area.width)) && fits_i32(new_w - f.area.width) && fits_i32(
            new_w - f.area.width - (old_w - (f.area.x + f.area.width)),
        )),
        f.sticky_pos matches Some(s) ==> (bottom_corner(s) ==> fits_i32(f.area.y + f.area.height)
            && fits_i32(old_h - (f.area.y + f.area.height)) && fits_i32(new_h - f.area.height)
            && fits_i32(new_h - f.area.height - (old_h - (f.area.y + f.area.height)))),
    ensures
        ({
            let (nx, ny) = rearranged_origin(f, old_w, old_h, new_w, new_h);
            let (x, y, w, h) = (f.area.x, f.area.y, f.area.width, f.area.height);
            match f.sticky_pos {
                None => nx == x && ny == y,
                Some(s) => {
                    &&& right_corner(s) ==> new_w - (nx + w) == old_w - (x + w)
                    &&& !right_corner(s) ==> nx == x
                    &&& bottom_corner(s) ==> new_h - (ny + h) == old_h - (y + h)
                    &&& !bottom_corner(s) ==> ny == y
                },
            }
        }),
{
}

/// Changing the screen size and then changing it back puts a sticky fence back
/// where it was (where neither computation overflows).
pub proof fn lemma_sticky_roundtrip(
    sticky: FenceStickyPosition,
    x: i32,
    y: i32,
    w: i32,
    h: i32,
    old_w: i32,
    old_h: i32,
    new_w: i32,
    new_h: i32,
)
    requires
        spec_sticky_origin(sticky, x, y, w, h, old_w, old_h, new_w, new_h) is Some,
        ({
            let (nx, ny) = spec_sticky_origin(sticky, x, y, w, h, old_w, old_h, new_w, new_h).unwrap();
            spec_sticky_origin(sticky, nx, ny, w, h, new_w, new_h, old_w, old_h) is Some
        }),
    ensures
        ({
            let (nx, ny) = spec_sticky_origin(sticky, x, y, w, h, old_w, old_h, new_w, new_h).unwrap();
            spec_sticky_origin(sticky, nx, ny, w, h, new_w, new_h, old_w, old_h) == Some((x, y))
        }),
{
}

} // verus!
