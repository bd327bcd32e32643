//! Box layout of dialog controls: fixed-size, filling and nested items stacked
//! vertically or horizontally inside a rectangle.
//!
//! Arranging a layout yields the window moves to perform, in order; the caller
//! moves the windows.

use vstd::prelude::*;

use crate::geo::Rect;

verus! {

/// The axis items are stacked along.
#[derive(Clone, Copy, Debug, PartialEq, Eq, Structural)]
pub enum Orientation {
    Vertical,
    Horizontal,
}

/// One item of a layout. A window is named by its handle value; 0 is no window.
pub enum Item {
    /// A window with a fixed extent along the axis.
    Fixed { hwnd: usize, size: i32 },
    /// A window that shares the space left over, but is at least `min` long.
    Fill { hwnd: usize, min: i32 },
    /// A nested layout with a fixed extent along the axis.
    Nested { layout: Box<Layout>, size: i32 },
}

/// Items stacked along one axis, with a margin around and a gap between them.
pub struct Layout {
    pub orientation: Orientation,
    pub margin: i32,
    pub gap: i32,
    pub items: Vec<Item>,
}

/// One window move: the window and the rectangle it is moved to.
#[derive(Clone, Copy, Debug, PartialEq, Eq, Structural)]
pub struct Placement {
    pub hwnd: usize,
    pub x: i32,
    pub y: i32,
    pub width: i32,
    pub height: i32,
}

/// `v` is an `i32` value.
pub open spec fn fits(v: int) -> bool {
    i32::MIN <= v <= i32::MAX
}

/// The larger of `a` and `b`.
pub open spec fn max_int(a: int, b: int) -> int {
    if a >= b {
        a
    } else {
        b
    }
}

/// The fixed extents of the first `k` items added up, and the number of filling
/// items among them, or `None` where a running total leaves the `i32` range.
pub open spec fn totals(items: Seq<Item>, k: int) -> Option<(int, int)>
    decreases k,
{
    if k <= 0 {
        Some((0, 0))
    } else {
        match totals(items, k - 1) {
            None => None,
            Some((fixed, fills)) => match items[k - 1] {
                Item::Fixed { size, .. } => if fits(fixed + size) {
                    Some((fixed + size, fills))
                } else {
                    None
                },
                Item::Nested { size, .. } => if fits(fixed + size) {
                    Some((fixed + size, fills))
                } else {
                    None
                },
                Item::Fill { .. } => if fits(fills + 1) {
                    Some((fixed, fills + 1))
                } else {
                    None
                },
            },
        }
    }
}

/// The total of the gaps between `n` items: `(n - 1) as i32 * gap`, or `None`
/// where the product leaves the `i32` range.
pub open spec fn gap_total(n: nat, gap: i32) -> Option<int> {
    if n > 0 {
        let c = ((n - 1) as int) as i32;
        if fits(c * gap) {
            Some(c * gap)
        } else {
            None
        }
    } else {
        Some(0)
    }
}

/// The extent of each filling item: what is left of `content` after the fixed
/// extents and the gaps, shared evenly among `fills` items (0 when none).
pub open spec fn fill_size(content: int, fixed: int, gaps: int, fills: int) -> Option<int> {
    if fills > 0 {
        if fits(content - fixed) && fits(content - fixed - gaps) {
            Some(max_int(content - fixed - gaps, 0) / fills)
        } else {
            None
        }
    } else {
        Some(0)
    }
}

/// The filling items share what is left after the fixed extents and the gaps:
/// each gets the same non-negative extent, together they take no more than is
/// left, and less than one pixel each stays unused.
pub proof fn lemma_fill_share(content: int, fixed: int, gaps: int, fills: int)
    requires
        fills > 0,
        fits(content - fixed),
        fits(content - fixed - gaps),
    ensures
        fill_size(content, fixed, gaps, fills) matches Some(f) && f >= 0 && fills * f <= max_int(
            content - fixed - gaps,
            0,
        ) && max_int(content - fixed - gaps, 0) < fills * (f + 1),
{
    let left = max_int(content - fixed - gaps, 0);
    let f = left / fills;
    vstd::arithmetic::div_mod::lemma_fundamental_div_mod(left, fills);
    vstd::arithmetic::div_mod::lemma_div_pos_is_pos(left, fills);
    vstd::arithmetic::div_mod::lemma_mod_bound(left, fills);
    assert(fills * (f + 1) == fills * f + fills) by (nonlinear_arith);
}

/// The move of a window to extent `size` at `pos` along the axis, spanning `cross`
/// from `origin` across it.
pub open spec fn place(vertical: bool, hwnd: usize, origin: int, cross: int, pos: int, size: int) -> Placement {
    if vertical {
        Placement { hwnd, x: origin as i32, y: pos as i32, width: cross as i32, height: size as i32 }
    } else {
        Placement { hwnd, x: pos as i32, y: origin as i32, width: size as i32, height: cross as i32 }
    }
}

/// The rectangle of a nested layout of extent `size` at `pos`.
pub open spec fn child_rect(vertical: bool, origin: int, cross: int, pos: int, size: int) -> Rect {
    if vertical {
        Rect {
            left: origin as i32,
            top: pos as i32,
            right: (origin + cross) as i32,
            bottom: (pos + size) as i32,
        }
    } else {
        Rect {
            left: pos as i32,
            top: origin as i32,
            right: (pos + size) as i32,
            bottom: (origin + cross) as i32,
        }
    }
}

/// `s` before the moves in `o`, if there are any.
pub open spec fn prepend(s: Seq<Placement>, o: Option<Seq<Placement>>) -> Option<Seq<Placement>> {
    match o {
        Some(t) => Some(s + t),
        None => None,
    }
}

/// The moves for items `k..` of `l`, the first of them starting at `pos`, or
/// `None` where a coordinate leaves the `i32` range.
pub open spec fn place_from(
    l: Layout,
    k: int,
    origin: int,
    cross: int,
    fill: int,
    pos: int,
) -> Option<Seq<Placement>>
    decreases l, 0int, l.items@.len() - k,
    when 0 <= k <= l.items@.len()
{
    let n = l.items@.len();
    let vertical = l.orientation == Orientation::Vertical;
    if k >= n {
        Some(Seq::empty())
    } else {
        let step: Option<(Seq<Placement>, int)> = match l.items@[k] {
            Item::Fixed { hwnd, size } => {
                let moved = if hwnd != 0 && cross > 0 && size > 0 {
                    seq![place(vertical, hwnd, origin, cross, pos, size as int)]
                } else {
                    Seq::empty()
                };
                if fits(pos + size) {
                    Some((moved, pos + size))
                } else {
                    None
                }
            },
            Item::Fill { hwnd, min } => {
                let h = max_int(fill, min as int);
                let moved = if hwnd != 0 && cross > 0 && h > 0 {
                    seq![place(vertical, hwnd, origin, cross, pos, h)]
                } else {
                    Seq::empty()
                };
                if fits(pos + h) {
                    Some((moved, pos + h))
                } else {
                    None
                }
            },
            Item::Nested { layout, size } => {
                proof {
                    assert(decreases_to!(l => l.items));
                    assert(decreases_to!(l.items => l.items@));
                    assert(decreases_to!(l.items@ => l.items@[k]));
                }
                if cross > 0 && size > 0 {
                    if fits(origin + cross) && fits(pos + size) {
                        match spec_arrange(*layout, child_rect(vertical, origin, cross, pos, size as int)) {
                            Some(inner) => if fits(pos + size) {
                                Some((inner, pos + size))
                            } else {
                                None
                            },
                            None => None,
                        }
                    } else {
                        None
                    }
                } else if fits(pos + size) {
                    Some((Seq::empty(), pos + size))
                } else {
                    None
                }
            },
        };
        match step {
            None => None,
            Some((moved, next)) => {
                if k != n - 1 && !fits(next + l.gap) {
                    None
                } else {
                    let next2 = if k != n - 1 {
                        next + l.gap
                    } else {
                        next
                    };
                    prepend(moved, place_from(l, k + 1, origin, cross, fill, next2))
                }
            },
        }
    }
}

/// The moves for the items of `l` inside `r`, whose edges are already moved in
/// by the margin once.
pub open spec fn arrange_inner(l: Layout, r: Rect) -> Option<Seq<Placement>>
    decreases l, 1int, 0int,
{
    let vertical = l.orientation == Orientation::Vertical;
    let m = l.margin as int;
    let across = if vertical {
        r.right - r.left
    } else {
        r.bottom - r.top
    };
    let along = if vertical {
        r.bottom - r.top
    } else {
        r.right - r.left
    };
    let origin = if vertical {
        r.left as int
    } else {
        r.top as int
    };
    let start = if vertical {
        r.top + m
    } else {
        r.left + m
    };
    if !(fits(across) && fits(along) && fits(2 * m) && fits(along - 2 * m)) {
        None
    } else {
        let content = max_int(along - 2 * m, 0);
        match (totals(l.items@, l.items@.len() as int), gap_total(l.items@.len(), l.gap)) {
            (Some((fixed, fills)), Some(gaps)) => match fill_size(content, fixed, gaps, fills) {
                Some(fill) => if fits(start) {
                    place_from(l, 0, origin, across, fill, start)
                } else {
                    None
                },
                None => None,
            },
            _ => None,
        }
    }
}

/// The window moves that arranging `l` in `r` makes, in order, or `None` where a
/// coordinate of the computation leaves the `i32` range.
pub open spec fn spec_arrange(l: Layout, r: Rect) -> Option<Seq<Placement>>
    decreases l, 2int, 0int,
{
    let m = l.margin as int;
    if fits(r.left + m) && fits(r.right - m) && fits(r.top + m) && fits(r.bottom - m) {
        arrange_inner(
            l,
            Rect {
                left: (r.left + m) as i32,
                top: (r.top + m) as i32,
                right: (r.right - m) as i32,
                bottom: (r.bottom - m) as i32,
            },
        )
    } else {
        None
    }
}

/// Every item is a window with a fixed, positive extent.
pub open spec fn all_fixed_windows(items: Seq<Item>) -> bool {
    forall|i: int|
        0 <= i < items.len() ==> ((#[trigger] items[i]) matches Item::Fixed { hwnd, size } && hwnd != 0 && size > 0)
}

/// The extent of an item along the axis (0 for a filling item).
pub open spec fn item_size(it: Item) -> int {
    match it {
        Item::Fixed { size, .. } => size as int,
        Item::Nested { size, .. } => size as int,
        Item::Fill { .. } => 0,
    }
}

/// The window of an item (0 for a nested layout).
pub open spec fn item_hwnd(it: Item) -> usize {
    match it {
        Item::Fixed { hwnd, .. } => hwnd,
        Item::Fill { hwnd, .. } => hwnd,
        Item::Nested { .. } => 0,
    }
}

/// How far after item `k` item `m` starts: the extents of items `k..m`, each
/// followed by a gap.
pub open spec fn stack_offset(items: Seq<Item>, gap: int, k: int, m: int) -> int
    decreases m - k,
{
    if m <= k {
        0
    } else {
        stack_offset(items, gap, k + 1, m) + item_size(items[k]) + gap
    }
}

proof fn lemma_place_from_stacks(l: Layout, k: int, origin: int, cross: int, fill: int, pos: int)
    requires
        0 <= k <= l.items@.len(),
        all_fixed_windows(l.items@),
        cross > 0,
        place_from(l, k, origin, cross, fill, pos) is Some,
    ensures
        ({
            let moves = place_from(l, k, origin, cross, fill, pos).unwrap();
            let vertical = l.orientation == Orientation::Vertical;
            &&& moves.len() == l.items@.len() - k
            &&& forall|j: int|
                0 <= j < moves.len() ==> #[trigger] moves[j] == place(
                    vertical,
                    item_hwnd(l.items@[k + j]),
                    origin,
                    cross,
                    pos + stack_offset(l.items@, l.gap as int, k, k + j),
                    item_size(l.items@[k + j]),
                )
        }),
    decreases l.items@.len() - k,
{
    let n = l.items@.len() as int;
    if k < n {
        let vertical = l.orientation == Orientation::Vertical;
        assert(l.items@[k] matches Item::Fixed { hwnd, size } && hwnd != 0 && size > 0);
        let size = item_size(l.items@[k]);
        let next = pos + size;
        let next2 = if k != n - 1 {
            next + l.gap
        } else {
            next
        };
        let first = place(vertical, item_hwnd(l.items@[k]), origin, cross, pos, size);
        assert(place_from(l, k, origin, cross, fill, pos) == prepend(
            seq![first],
            place_from(l, k + 1, origin, cross, fill, next2),
        ));
        lemma_place_from_stacks(l, k + 1, origin, cross, fill, next2);
        let moves = place_from(l, k, origin, cross, fill, pos).unwrap();
        let rest = place_from(l, k + 1, origin, cross, fill, next2).unwrap();
        assert forall|j: int| 0 <= j < moves.len() implies #[trigger] moves[j] == place(
            vertical,
            item_hwnd(l.items@[k + j]),
            origin,
            cross,
            pos + stack_offset(l.items@, l.gap as int, k, k + j),
            item_size(l.items@[k + j]),
        ) by {
            if j > 0 {
                assert(moves[j] == rest[j - 1]);
                assert(k + 1 + (j - 1) == k + j);
                assert(stack_offset(l.items@, l.gap as int, k, k + j) == stack_offset(
                    l.items@,
                    l.gap as int,
                    k + 1,
                    k + j,
                ) + size + l.gap);
            }
        }
    }
}

/// A layout of windows with fixed extents stacks them along its axis, in
/// order: inside the rectangle moved in by the margin, each window spans the
/// full width across and starts where the previous one ends plus the gap, the
/// first one a margin in from the inner edge (where there is room across).
pub proof fn lemma_fixed_windows_stack(l: Layout, r: Rect)
    requires
        all_fixed_windows(l.items@),
        spec_arrange(l, r) is Some,
        (if l.orientation == Orientation::Vertical {
            (r.right - l.margin) - (r.left + l.margin)
        } else {
            (r.bottom - l.margin) - (r.top + l.margin)
        }) > 0,
    ensures
        ({
            let m = l.margin as int;
            let vertical = l.orientation == Orientation::Vertical;
            let moves = spec_arrange(l, r).unwrap();
            let origin = if vertical { r.left + m } else { r.top + m };
            let across = if vertical { (r.right - m) - (r.left + m) } else { (r.bottom - m) - (r.top + m) };
            let start = if vertical { r.top + 2 * m } else { r.left + 2 * m };
            &&& moves.len() == l.items@.len()
            &&& forall|j: int|
                0 <= j < moves.len() ==> #[trigger] moves[j] == place(
                    vertical,
                    item_hwnd(l.items@[j]),
                    origin,
                    across,
                    start + stack_offset(l.items@, l.gap as int, 0, j),
                    item_size(l.items@[j]),
                )
        }),
{
    let m = l.margin as int;
    let inner = Rect {
        left: (r.left + m) as i32,
        top: (r.top + m) as i32,
        right: (r.right - m) as i32,
        bottom: (r.bottom - m) as i32,
    };
    assert(spec_arrange(l, r) == arrange_inner(l, inner));
    let vertical = l.orientation == Orientation::Vertical;
    let across = if vertical { inner.right - inner.left } else { inner.bottom - inner.top };
    let origin = if vertical { inner.left as int } else { inner.top as int };
    let start = if vertical { inner.top + m } else { inner.left + m };
    let along = if vertical { inner.bottom - inner.top } else { inner.right - inner.left };
    let content = max_int(along - 2 * m, 0);
    let (fixed, fills) = totals(l.items@, l.items@.len() as int).unwrap();
    let gaps = gap_total(l.items@.len(), l.gap).unwrap();
    let fill = fill_size(content, fixed, gaps, fills).unwrap();
    assert(arrange_inner(l, inner) == place_from(l, 0, origin, across, fill, start));
    lemma_place_from_stacks(l, 0, origin, across, fill, start);
}

/// Margin, gap and fixed extents are not negative, filling items ask for no
/// minimum, and no layout is nested.
pub open spec fn flat_valid(l: Layout) -> bool {
    &&& l.margin >= 0
    &&& l.gap >= 0
    &&& forall|i: int|
        0 <= i < l.items@.len() ==> match #[trigger] l.items@[i] {
            Item::Fixed { size, .. } => size >= 0,
            Item::Fill { min, .. } => min <= 0,
            Item::Nested { .. } => false,
        }
}

/// The fixed extents of the first `k` items added up.
pub open spec fn fixed_sum(items: Seq<Item>, k: int) -> int
    decreases k,
{
    if k <= 0 {
        0
    } else {
        fixed_sum(items, k - 1) + item_size(items[k - 1])
    }
}

/// The number of filling items among the first `k`.
pub open spec fn fill_count(items: Seq<Item>, k: int) -> int
    decreases k,
{
    if k <= 0 {
        0
    } else {
        fill_count(items, k - 1) + if items[k - 1] is Fill {
            1int
        } else {
            0int
        }
    }
}

/// The extent an item takes along the axis when filling items get `fill`.
pub open spec fn item_extent(it: Item, fill: int) -> int {
    match it {
        Item::Fill { .. } => fill,
        _ => item_size(it),
    }
}

/// The extents of the first `k` items added up.
pub open spec fn extent_sum(items: Seq<Item>, fill: int, k: int) -> int
    decreases k,
{
    if k <= 0 {
        0
    } else {
        extent_sum(items, fill, k - 1) + item_extent(items[k - 1], fill)
    }
}

proof fn lemma_totals_sums(items: Seq<Item>, k: int, fill: int)
    requires
        0 <= k <= items.len(),
        totals(items, k) is Some,
    ensures
        totals(items, k) == Some((fixed_sum(items, k), fill_count(items, k))),
        extent_sum(items, fill, k) == fixed_sum(items, k) + fill_count(items, k) * fill,
        fill_count(items, k) >= 0,
    decreases k,
{
    if k > 0 {
        lemma_totals_sums(items, k - 1, fill);
        let c = fill_count(items, k - 1);
        assert((c + 1) * fill == c * fill + fill) by (nonlinear_arith);
    }
}

proof fn lemma_extent_sum_grows(l: Layout, fill: int, a: int, b: int)
    requires
        flat_valid(l),
        fill >= 0,
        0 <= a <= b <= l.items@.len(),
    ensures
        extent_sum(l.items@, fill, a) <= extent_sum(l.items@, fill, b),
    decreases b - a,
{
    if a < b {
        lemma_extent_sum_grows(l, fill, a, b - 1);
        assert(item_extent(l.items@[b - 1], fill) >= 0);
    }
}

/// Where a move starts along the axis.
pub open spec fn along_start(p: Placement, vertical: bool) -> int {
    if vertical {
        p.y as int
    } else {
        p.x as int
    }
}

/// The extent of a move along the axis.
pub open spec fn along_size(p: Placement, vertical: bool) -> int {
    if vertical {
        p.height as int
    } else {
        p.width as int
    }
}

/// Where a move starts across the axis.
pub open spec fn across_start(p: Placement, vertical: bool) -> int {
    if vertical {
        p.x as int
    } else {
        p.y as int
    }
}

/// The extent of a move across the axis.
pub open spec fn across_size(p: Placement, vertical: bool) -> int {
    if vertical {
        p.width as int
    } else {
        p.height as int
    }
}

proof fn lemma_place_from_inside(
    l: Layout,
    k: int,
    origin: int,
    cross: int,
    fill: int,
    pos: int,
    lo: int,
    hi: int,
)
    requires
        0 <= k <= l.items@.len(),
        flat_valid(l),
        0 <= fill,
        fits(fill),
        fits(origin),
        fits(cross),
        fits(pos),
        lo <= pos,
        k < l.items@.len() ==> pos + (extent_sum(l.items@, fill, l.items@.len() as int) - extent_sum(
            l.items@,
            fill,
            k,
        )) + (l.items@.len() - 1 - k) * l.gap <= hi,
        place_from(l, k, origin, cross, fill, pos) is Some,
    ensures
        ({
            let moves = place_from(l, k, origin, cross, fill, pos).unwrap();
            let vertical = l.orientation == Orientation::Vertical;
            forall|j: int|
                0 <= j < moves.len() ==> lo <= along_start(#[trigger] moves[j], vertical) && along_start(
                    moves[j],
                    vertical,
                ) + along_size(moves[j], vertical) <= hi && across_start(moves[j], vertical) == origin
                    && across_size(moves[j], vertical) == cross
        }),
    decreases l.items@.len() - k,
{
    let n = l.items@.len() as int;
    if k < n {
        let vertical = l.orientation == Orientation::Vertical;
        let items = l.items@;
        let it = items[k];
        let e = item_extent(it, fill);
        assert(match it {
            Item::Fixed { size, .. } => size >= 0,
            Item::Fill { min, .. } => min <= 0,
            Item::Nested { .. } => false,
        });
        let (hwnd, h) = match it {
            Item::Fixed { hwnd, size } => (hwnd, size as int),
            Item::Fill { hwnd, min } => (hwnd, max_int(fill, min as int)),
            Item::Nested { .. } => (0usize, 0int),
        };
        assert(h == e);
        let moved = if hwnd != 0 && cross > 0 && h > 0 {
            seq![place(vertical, hwnd, origin, cross, pos, h)]
        } else {
            Seq::empty()
        };
        let next = pos + h;
        let next2 = if k != n - 1 {
            next + l.gap
        } else {
            next
        };
        assert(place_from(l, k, origin, cross, fill, pos) == prepend(
            moved,
            place_from(l, k + 1, origin, cross, fill, next2),
        ));
        assert(extent_sum(items, fill, k + 1) == extent_sum(items, fill, k) + e);
        lemma_extent_sum_grows(l, fill, k + 1, n);
        assert((n - 1 - k) * l.gap >= 0) by (nonlinear_arith)
            requires
                n - 1 - k >= 0,
                l.gap >= 0,
        ;
        assert(pos + e <= hi);
        if k + 1 < n {
            assert((n - 1 - k) * l.gap == (n - 1 - (k + 1)) * l.gap + l.gap) by (nonlinear_arith);
        }
        lemma_place_from_inside(l, k + 1, origin, cross, fill, next2, lo, hi);
        let moves = place_from(l, k, origin, cross, fill, pos).unwrap();
        let rest = place_from(l, k + 1, origin, cross, fill, next2).unwrap();
        assert forall|j: int| 0 <= j < moves.len() implies lo <= along_start(#[trigger] moves[j], vertical)
            && along_start(moves[j], vertical) + along_size(moves[j], vertical) <= hi && across_start(
            moves[j],
            vertical,
        ) == origin && across_size(moves[j], vertical) == cross by {
            if j < moved.len() {
                assert(moves[j] == moved[0]);
            } else {
                assert(moves[j] == rest[j - moved.len()]);
            }
        }
    }
}

/// In a layout of fixed and filling windows (no nested layouts, nothing
/// negative, filling items without a minimum) whose fixed extents and gaps fit
/// in the content area, every window is moved inside that area: along the axis
/// between its start, two margins in from the rectangle's edge (the rectangle is
/// moved in by the margin, then the items start a margin further in), and its end
/// the same distance in from the far edge; across the axis over the whole
/// rectangle moved in by the margin.
pub proof fn lemma_flat_layout_inside(l: Layout, r: Rect)
    requires
        flat_valid(l),
        spec_arrange(l, r) is Some,
        ({
            let m = l.margin as int;
            let vertical = l.orientation == Orientation::Vertical;
            let n = l.items@.len() as int;
            let lo = (if vertical { r.top as int } else { r.left as int }) + m;
            let hi = (if vertical { r.bottom as int } else { r.right as int }) - m;
            fixed_sum(l.items@, n) + (if n > 0 { (n - 1) * l.gap } else { 0 }) <= max_int(hi - lo - 2 * m, 0)
        }),
    ensures
        ({
            let m = l.margin as int;
            let vertical = l.orientation == Orientation::Vertical;
            let lo = (if vertical { r.top as int } else { r.left as int }) + m;
            let hi = (if vertical { r.bottom as int } else { r.right as int }) - m;
            let start = lo + m;
            let content = max_int(hi - lo - 2 * m, 0);
            let cross_lo = (if vertical { r.left as int } else { r.top as int }) + m;
            let cross_hi = (if vertical { r.right as int } else { r.bottom as int }) - m;
            let moves = spec_arrange(l, r).unwrap();
            forall|j: int|
                0 <= j < moves.len() ==> start <= along_start(#[trigger] moves[j], vertical) && along_start(
                    moves[j],
                    vertical,
                ) + along_size(moves[j], vertical) <= start + content && across_start(moves[j], vertical)
                    == cross_lo && across_size(moves[j], vertical) == cross_hi - cross_lo
        }),
{
    let m = l.margin as int;
    let n = l.items@.len() as int;
    let inner = Rect {
        left: (r.left + m) as i32,
        top: (r.top + m) as i32,
        right: (r.right - m) as i32,
        bottom: (r.bottom - m) as i32,
    };
    assert(spec_arrange(l, r) == arrange_inner(l, inner));
    let vertical = l.orientation == Orientation::Vertical;
    let across = if vertical { inner.right - inner.left } else { inner.bottom - inner.top };
    let along = if vertical { inner.bottom - inner.top } else { inner.right - inner.left };
    let origin = if vertical { inner.left as int } else { inner.top as int };
    let start = if vertical { inner.top + m } else { inner.left + m };
    let content = max_int(along - 2 * m, 0);
    let (fixed, fills) = totals(l.items@, n).unwrap();
    let gaps = gap_total(l.items@.len(), l.gap).unwrap();
    let fill = fill_size(content, fixed, gaps, fills).unwrap();
    assert(arrange_inner(l, inner) == place_from(l, 0, origin, across, fill, start));
    lemma_totals_sums(l.items@, n, fill);
    lemma_totals_sums(l.items@, n, 0);
    lemma_extent_sum_grows(l, 0, 0, n);
    assert(fixed >= 0);
    if n > 0 {
        let c = ((n - 1) as int) as i32;
        if l.gap >= 1 {
            assert(n - 1 <= (n - 1) * l.gap) by (nonlinear_arith)
                requires
                    n - 1 >= 0,
                    l.gap >= 1,
            ;
            assert(n - 1 <= i32::MAX);
            assert(c == n - 1);
        } else {
            assert(l.gap == 0);
            assert(c * l.gap == 0 && (n - 1) * l.gap == 0) by (nonlinear_arith)
                requires
                    l.gap == 0,
            ;
        }
        assert(gaps == (n - 1) * l.gap);
    }
    if fills > 0 {
        lemma_fill_share(content, fixed, gaps, fills);
        assert(fill <= fills * fill) by (nonlinear_arith)
            requires
                fills >= 1,
                fill >= 0,
        ;
    }
    assert(fill_count(l.items@, n) * fill >= 0) by (nonlinear_arith)
        requires
            fill_count(l.items@, n) >= 0,
            fill >= 0,
    ;
    assert(extent_sum(l.items@, fill, 0) == 0);
    lemma_place_from_inside(l, 0, origin, across, fill, start, start, start + content);
}

} // verus!

verus! {

/// The placements in `o` as a sequence, if any.
pub open spec fn view_moves(o: Option<Vec<Placement>>) -> Option<Seq<Placement>> {
    match o {
        Some(v) => Some(v@),
        None => None,
    }
}

fn max_i32(a: i32, b: i32) -> (r: i32)
    ensures
        r == max_int(a as int, b as int),
{
    if a >= b {
        a
    } else {
        b
    }
}

impl Layout {
    /// Arranges the items inside `rect`: the rectangle is first moved in by the
    /// margin, then the items are stacked along the layout's axis. Returns the
    /// window moves to make, in order.
    pub fn arrange(&self, rect: Rect) -> (r: Vec<Placement>)
        requires
            spec_arrange(*self, rect) is Some,
        ensures
            spec_arrange(*self, rect) == Some(r@),
    {
        match self.try_arrange(rect) {
            Some(v) => v,
            None => {
                assert(false);
                Vec::new()
            },
        }
    }

    /// As `arrange`, but `None` where a coordinate would leave the `i32` range.
    pub fn try_arrange(&self, rect: Rect) -> (r: Option<Vec<Placement>>)
        ensures
            view_moves(r) == spec_arrange(*self, rect),
        decreases *self, 2int, 0int,
    {
        let left = match rect.left.checked_add(self.margin) {
            Some(v) => v,
            None => return None,
        };
        let right = match rect.right.checked_sub(self.margin) {
            Some(v) => v,
            None => return None,
        };
        let top = match rect.top.checked_add(self.margin) {
            Some(v) => v,
            None => return None,
        };
        let bottom = match rect.bottom.checked_sub(self.margin) {
            Some(v) => v,
            None => return None,
        };
        self.arrange_along(Rect { left, top, right, bottom })
    }

    /// Stacks the items along the layout's axis inside `rect`.
    #[verifier::rlimit(40)]
    fn arrange_along(&self, rect: Rect) -> (r: Option<Vec<Placement>>)
        ensures
            view_moves(r) == arrange_inner(*self, rect),
        decreases *self, 1int, 0int,
    {
        let vertical = match self.orientation {
            Orientation::Vertical => true,
            Orientation::Horizontal => false,
        };
        let ghost m = self.margin as int;
        let across = if vertical {
            rect.right.checked_sub(rect.left)
        } else {
            rect.bottom.checked_sub(rect.top)
        };
        let across = match across {
            Some(v) => v,
            None => return None,
        };
        let along = if vertical {
            rect.bottom.checked_sub(rect.top)
        } else {
            rect.right.checked_sub(rect.left)
        };
        let along = match along {
            Some(v) => v,
            None => return None,
        };
        let twice_margin = match 2i32.checked_mul(self.margin) {
            Some(v) => v,
            None => return None,
        };
        let content = match along.checked_sub(twice_margin) {
            Some(v) => max_i32(v, 0),
            None => return None,
        };
        let origin = if vertical {
            rect.left
        } else {
            rect.top
        };
        // Fixed extents and filling items.
        let n = self.items.len();
        let mut fixed: i32 = 0;
        let mut fills: i32 = 0;
        let mut i: usize = 0;
        while i < n
            invariant
                n == self.items@.len(),
                i <= n,
                totals(self.items@, i as int) == Some((fixed as int, fills as int)),
            decreases n - i,
        {
            match &self.items[i] {
                Item::Fixed { size, .. } => {
                    match fixed.checked_add(*size) {
                        Some(v) => fixed = v,
                        None => {
                            proof {
                                lemma_totals_none_extends(self.items@, i as int + 1, n as int);
                            }
                            return None;
                        },
                    }
                },
                Item::Nested { size, .. } => {
                    match fixed.checked_add(*size) {
                        Some(v) => fixed = v,
                        None => {
                            proof {
                                lemma_totals_none_extends(self.items@, i as int + 1, n as int);
                            }
                            return None;
                        },
                    }
                },
                Item::Fill { .. } => {
                    match fills.checked_add(1) {
                        Some(v) => fills = v,
                        None => {
                            proof {
                                lemma_totals_none_extends(self.items@, i as int + 1, n as int);
                            }
                            return None;
                        },
                    }
                },
            }
            i = i + 1;
        }
        let gaps: i32 = if n > 0 {
            match (#[verifier::truncate] ((n - 1) as i32)).checked_mul(self.gap) {
                Some(v) => v,
                None => return None,
            }
        } else {
            0
        };
        let fill: i32 = if fills > 0 {
            let a = match content.checked_sub(fixed) {
                Some(v) => v,
                None => return None,
            };
            let b = match a.checked_sub(gaps) {
                Some(v) => v,
                None => return None,
            };
            max_i32(b, 0) / fills
        } else {
            0
        };
        let start = if vertical {
            rect.top.checked_add(self.margin)
        } else {
            rect.left.checked_add(self.margin)
        };
        let mut pos = match start {
            Some(v) => v,
            None => return None,
        };
        // Placing the items.
        let ghost l = *self;
        let ghost whole = place_from(l, 0, origin as int, across as int, fill as int, pos as int);
        assert(whole == arrange_inner(*self, rect));
        let mut out: Vec<Placement> = Vec::new();
        let mut k: usize = 0;
        while k < n
            invariant
                l == *self,
                whole == arrange_inner(l, rect),
                n == self.items@.len(),
                k <= n,
                vertical == (l.orientation == Orientation::Vertical),
                whole == prepend(out@, place_from(l, k as int, origin as int, across as int, fill as int, pos as int)),
            decreases n - k,
        {
            let ghost before = out@;
            let ghost kk = k as int;
            let next: i32 = match &self.items[k] {
                Item::Fixed { hwnd, size } => {
                    if *hwnd != 0 && across > 0 && *size > 0 {
                        out.push(
                            if vertical {
                                Placement { hwnd: *hwnd, x: origin, y: pos, width: across, height: *size }
                            } else {
                                Placement { hwnd: *hwnd, x: pos, y: origin, width: *size, height: across }
                            },
                        );
                    }
                    match pos.checked_add(*size) {
                        Some(v) => v,
                        None => return None,
                    }
                },
                Item::Fill { hwnd, min } => {
                    let h = max_i32(fill, *min);
                    if *hwnd != 0 && across > 0 && h > 0 {
                        out.push(
                            if vertical {
                                Placement { hwnd: *hwnd, x: origin, y: pos, width: across, height: h }
                            } else {
                                Placement { hwnd: *hwnd, x: pos, y: origin, width: h, height: across }
                            },
                        );
                    }
                    match pos.checked_add(h) {
                        Some(v) => v,
                        None => return None,
                    }
                },
                Item::Nested { layout, size } => {
                    if across > 0 && *size > 0 {
                        let far = match origin.checked_add(across) {
                            Some(v) => v,
                            None => return None,
                        };
                        let end = match pos.checked_add(*size) {
                            Some(v) => v,
                            None => return None,
                        };
                        let child = if vertical {
                            Rect { left: origin, top: pos, right: far, bottom: end }
                        } else {
                            Rect { left: pos, top: origin, right: end, bottom: far }
                        };
                        proof {
                            assert(decreases_to!(l => l.items));
                            assert(decreases_to!(l.items => l.items@));
                            assert(decreases_to!(l.items@ => l.items@[kk]));
                        }
                        match layout.try_arrange(child) {
                            Some(moves) => {
                                let mut j: usize = 0;
                                while j < moves.len()
                                    invariant
                                        j <= moves@.len(),
                                        out@ == before + moves@.take(j as int),
                                    decreases moves@.len() - j,
                                {
                                    out.push(moves[j]);
                                    proof {
                                        assert(moves@.take(j + 1) =~= moves@.take(j as int).push(moves@[j as int]));
                                    }
                                    j = j + 1;
                                }
                                assert(moves@.take(moves@.len() as int) =~= moves@);
                            },
                            None => return None,
                        }
                        end
                    } else {
                        match pos.checked_add(*size) {
                            Some(v) => v,
                            None => return None,
                        }
                    }
                },
            };
            let next2: i32 = if k != n - 1 {
                match next.checked_add(self.gap) {
                    Some(v) => v,
                    None => return None,
                }
            } else {
                next
            };
            proof {
                let moved = out@.subrange(before.len() as int, out@.len() as int);
                assert(out@ =~= before + moved);
                assert(place_from(l, kk, origin as int, across as int, fill as int, pos as int)
                    == prepend(moved, place_from(l, kk + 1, origin as int, across as int, fill as int, next2 as int)));
                assert(prepend(before, prepend(moved, place_from(l, kk + 1, origin as int, across as int, fill as int, next2 as int)))
                    == prepend(out@, place_from(l, kk + 1, origin as int, across as int, fill as int, next2 as int))) by {
                    assert(before + moved =~= out@);
                    match place_from(l, kk + 1, origin as int, across as int, fill as int, next2 as int) {
                        Some(t) => {
                            assert(before + (moved + t) =~= out@ + t);
                        },
                        None => {},
                    }
                }
            }
            pos = next2;
            k = k + 1;
        }
        assert(out@ + Seq::<Placement>::empty() =~= out@);
        Some(out)
    }
}

proof fn lemma_totals_none_extends(items: Seq<Item>, k: int, n: int)
    requires
        0 < k <= n,
        totals(items, k) is None,
    ensures
        totals(items, n) is None,
    decreases n - k,
{
    if k < n {
        lemma_totals_none_extends(items, k + 1, n);
    }
}

} // verus!

verus! {

impl Default for Layout {
    /// An empty vertical layout with margin 5 and gap 3.
    fn default() -> (r: Self)
        ensures
            r.orientation == Orientation::Vertical,
            r.margin == 5,
            r.gap == 3,
            r.items@.len() == 0,
    {
        Layout { orientation: Orientation::Vertical, margin: 5, gap: 3, items: Vec::new() }
    }
}

/// The width of the import dialog's buttons.
pub const BUTTON_WIDTH: i32 = 90;
/// The height of the import dialog's buttons.
pub const BUTTON_HEIGHT: i32 = 30;

/// The import dialog's layout: the shortcut filter box on top, the list filling
/// the middle, and a row with the Import and Cancel buttons at the bottom right.
pub fn import_dialog_layout(checkbox: usize, listview: usize, import_btn: usize, cancel_btn: usize) -> (r: Layout)
    ensures
        r.orientation == Orientation::Vertical,
        r.margin == 5,
        r.gap == 3,
        r.items@.len() == 3,
        r.items@[0] == (Item::Fixed { hwnd: checkbox, size: 22 }),
        r.items@[1] == (Item::Fill { hwnd: listview, min: 0 }),
        r.items@[2] matches Item::Nested { layout, size } && size == BUTTON_HEIGHT && layout.orientation
            == Orientation::Horizontal && layout.margin == 0 && layout.gap == 3 && layout.items@ == seq![
            Item::Fill { hwnd: 0, min: 0 },
            Item::Fixed { hwnd: import_btn, size: BUTTON_WIDTH },
            Item::Fixed { hwnd: cancel_btn, size: BUTTON_WIDTH },
        ],
{
    let mut buttons: Vec<Item> = Vec::new();
    buttons.push(Item::Fill { hwnd: 0, min: 0 });
    buttons.push(Item::Fixed { hwnd: import_btn, size: BUTTON_WIDTH });
    buttons.push(Item::Fixed { hwnd: cancel_btn, size: BUTTON_WIDTH });
    let row = Layout { orientation: Orientation::Horizontal, margin: 0, gap: 3, items: buttons };
    let mut items: Vec<Item> = Vec::new();
    items.push(Item::Fixed { hwnd: checkbox, size: 22 });
    items.push(Item::Fill { hwnd: listview, min: 0 });
    items.push(Item::Nested { layout: Box::new(row), size: BUTTON_HEIGHT });
    let r = Layout { orientation: Orientation::Vertical, margin: 5, gap: 3, items };
    assert(r.items@[2] matches Item::Nested { layout, size } && layout.items@ =~= seq![
        Item::Fill { hwnd: 0, min: 0 },
        Item::Fixed { hwnd: import_btn, size: BUTTON_WIDTH },
        Item::Fixed { hwnd: cancel_btn, size: BUTTON_WIDTH },
    ]);
    r
}

/// The height of the input dialog's label.
pub const LABEL_HEIGHT: i32 = 20;
/// The least height of the input dialog's edit box.
pub const EDIT_MIN_HEIGHT: i32 = 22;
/// The width of the input dialog's buttons.
pub const BTN_WIDTH: i32 = 70;
/// The height of the input dialog's buttons.
pub const BTN_HEIGHT: i32 = 26;

/// The input dialog's layout: the message on top, the edit box filling the
/// middle, and a row with the OK and Cancel buttons at the bottom right.
pub fn input_dialog_layout(label: usize, edit: usize, ok_btn: usize, cancel_btn: usize) -> (r: Layout)
    ensures
        r.orientation == Orientation::Vertical,
        r.margin == 10,
        r.gap == 6,
        r.items@.len() == 3,
        r.items@[0] == (Item::Fixed { hwnd: label, size: LABEL_HEIGHT }),
        r.items@[1] == (Item::Fill { hwnd: edit, min: EDIT_MIN_HEIGHT }),
        r.items@[2] matches Item::Nested { layout, size } && size == BTN_HEIGHT && layout.orientation
            == Orientation::Horizontal && layout.margin == 10 && layout.gap == 10 && layout.items@ == seq![
            Item::Fill { hwnd: 0, min: 0 },
            Item::Fixed { hwnd: ok_btn, size: BTN_WIDTH },
            Item::Fixed { hwnd: cancel_btn, size: BTN_WIDTH },
        ],
{
    let mut buttons: Vec<Item> = Vec::new();
    buttons.push(Item::Fill { hwnd: 0, min: 0 });
    buttons.push(Item::Fixed { hwnd: ok_btn, size: BTN_WIDTH });
    buttons.push(Item::Fixed { hwnd: cancel_btn, size: BTN_WIDTH });
    let row = Layout { orientation: Orientation::Horizontal, margin: 10, gap: 10, items: buttons };
    let mut items: Vec<Item> = Vec::new();
    items.push(Item::Fixed { hwnd: label, size: LABEL_HEIGHT });
    items.push(Item::Fill { hwnd: edit, min: EDIT_MIN_HEIGHT });
    items.push(Item::Nested { layout: Box::new(row), size: BTN_HEIGHT });
    let r = Layout { orientation: Orientation::Vertical, margin: 10, gap: 6, items };
    assert(r.items@[2] matches Item::Nested { layout, size } && layout.items@ =~= seq![
        Item::Fill { hwnd: 0, min: 0 },
        Item::Fixed { hwnd: ok_btn, size: BTN_WIDTH },
        Item::Fixed { hwnd: cancel_btn, size: BTN_WIDTH },
    ]);
    r
}

} // verus!
