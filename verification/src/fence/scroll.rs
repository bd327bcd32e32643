//! Scrolling a fence's icons: scroll-bar commands and the mouse wheel.

use vstd::prelude::*;

use crate::geo::{div_trunc, fits_i32};

verus! {

/// Scroll one line up.
pub const SB_LINEUP: i32 = 0;
/// Scroll one line down.
pub const SB_LINEDOWN: i32 = 1;
/// Scroll one page up.
pub const SB_PAGEUP: i32 = 2;
/// Scroll one page down.
pub const SB_PAGEDOWN: i32 = 3;
/// The thumb is being dragged.
pub const SB_THUMBTRACK: i32 = 5;
/// Scroll to the top.
pub const SB_TOP: i32 = 6;
/// Scroll to the bottom.
pub const SB_BOTTOM: i32 = 7;
/// The wheel turn of one notch.
pub const WHEEL_DELTA: i32 = 120;

/// The position a scroll-bar command asks for: the range ends for top and bottom,
/// 10 up or down for a line, a page up or down, the thumb position while
/// dragging, and the current position for any other code.
pub open spec fn spec_vscroll(code: i32, thumb: i32, pos: i32, min: i32, max: i32, page: u32) -> int {
    if code == SB_TOP {
        min as int
    } else if code == SB_BOTTOM {
        max as int
    } else if code == SB_LINEUP {
        pos - 10
    } else if code == SB_LINEDOWN {
        pos + 10
    } else if code == SB_PAGEUP {
        pos - (page as i32)
    } else if code == SB_PAGEDOWN {
        pos + (page as i32)
    } else if code == SB_THUMBTRACK {
        thumb as int
    } else {
        pos as int
    }
}

/// The position a scroll-bar command asks for.
pub fn vscroll_position(code: i32, thumb: i32, pos: i32, min: i32, max: i32, page: u32) -> (r: i32)
    requires
        fits_i32(spec_vscroll(code, thumb, pos, min, max, page)),
    ensures
        r == spec_vscroll(code, thumb, pos, min, max, page),
{
    let p = #[verifier::truncate] (page as i32);
    if code == SB_TOP {
        min
    } else if code == SB_BOTTOM {
        max
    } else if code == SB_LINEUP {
        pos - 10
    } else if code == SB_LINEDOWN {
        pos + 10
    } else if code == SB_PAGEUP {
        pos - p
    } else if code == SB_PAGEDOWN {
        pos + p
    } else if code == SB_THUMBTRACK {
        thumb
    } else {
        pos
    }
}

/// The position a scroll-bar command asks for, or `None` where it leaves the
/// `i32` range.
pub fn try_vscroll_position(code: i32, thumb: i32, pos: i32, min: i32, max: i32, page: u32) -> (r:
    Option<i32>)
    ensures
        r == (if fits_i32(spec_vscroll(code, thumb, pos, min, max, page)) {
            Some(spec_vscroll(code, thumb, pos, min, max, page) as i32)
        } else {
            None::<i32>
        }),
{
    let p = #[verifier::truncate] (page as i32);
    let step: i64 = if code == SB_LINEUP {
        -10
    } else if code == SB_LINEDOWN {
        10
    } else if code == SB_PAGEUP {
        -(p as i64)
    } else if code == SB_PAGEDOWN {
        p as i64
    } else {
        0
    };
    let wanted = pos as i64 + step;
    if step != 0 && (wanted < i32::MIN as i64 || wanted > i32::MAX as i64) {
        return None;
    }
    Some(vscroll_position(code, thumb, pos, min, max, page))
}

/// `v` kept within `lo..=hi`.
pub open spec fn clamp(v: int, lo: int, hi: int) -> int {
    if v < lo {
        lo
    } else if v > hi {
        hi
    } else {
        v
    }
}

/// The position a wheel turn of `delta` scrolls to: 30 per notch (whole notches,
/// rounded toward zero), against the turn, kept within the range that still
/// shows a full page.
pub open spec fn spec_wheel(delta: i32, pos: i32, min: i32, max: i32, page: u32) -> int {
    clamp(pos - div_trunc(delta as int, 120) * 30, min as int, max - (page as i32))
}

/// A wheel turn of `delta` (a signed 16-bit amount): the position to scroll to,
/// or `None` when it is the current one.
pub fn wheel_position(delta: i32, pos: i32, min: i32, max: i32, page: u32) -> (r: Option<i32>)
    requires
        i16::MIN <= delta <= i16::MAX,
        fits_i32(pos - div_trunc(delta as int, 120) * 30),
        fits_i32(max - (page as i32)),
        min <= max - (page as i32),
    ensures
        r == (if spec_wheel(delta, pos, min, max, page) != pos {
            Some(spec_wheel(delta, pos, min, max, page) as i32)
        } else {
            None::<i32>
        }),
{
    let notches = crate::geo::div_i32(delta, WHEEL_DELTA);
    assert(-274 <= notches <= 274) by {
        vstd::arithmetic::div_mod::lemma_div_is_ordered(crate::geo::abs(delta as int), 32768, 120);
    }
    let scroll_amount = notches * 30;
    let hi = max - #[verifier::truncate] (page as i32);
    let v = pos - scroll_amount;
    let new_pos = if v < min {
        min
    } else if v > hi {
        hi
    } else {
        v
    };
    if new_pos != pos {
        Some(new_pos)
    } else {
        None
    }
}

/// A wheel turn never scrolls outside the range that shows a full page.
pub proof fn lemma_wheel_stays_in_range(delta: i32, pos: i32, min: i32, max: i32, page: u32)
    requires
        min <= max - (page as i32),
    ensures
        min <= spec_wheel(delta, pos, min, max, page) <= max - (page as i32),
{
}

} // verus!

