//! Where a fence's parts and icons go: the title bar and scroll area inside the
//! fence, the icon grid, the scroll range, and where files may be dropped.

use vstd::prelude::*;

use crate::config::colorref::Color;
use crate::config::config::{FenceConfig, IconConfig};
use crate::config::color::byte_of;
use crate::geo::{abs, div_i32, div_trunc, fits_i32, rem_trunc, Area, Rect};
use crate::window::{spec_add_area, WindowArea};

verus! {

/// The title bar's area inside a fence of area `fence_area`: the full width at
/// the top, `title_bar_height` high.
pub fn title_bar_area(fence_area: &Area<i32>, config: &FenceConfig) -> (r: Area<i32>)
    ensures
        r.x == 0,
        r.y == 0,
        r.width == fence_area.width,
        r.height == config.title_bar_height,
{
    Area::new(0i32, 0i32, fence_area.width, config.title_bar_height)
}

/// The scroll area's area inside a fence: below the title bar, inside the left,
/// right and bottom borders.
pub fn scroll_area_area(fence_area: &Area<i32>, config: &FenceConfig) -> (r: Area<i32>)
    requires
        fits_i32(config.border_thickness * 2),
        fits_i32(fence_area.width - config.border_thickness * 2),
        fits_i32(fence_area.height - config.title_bar_height),
        fits_i32(fence_area.height - config.title_bar_height - config.border_thickness),
    ensures
        r.x == config.border_thickness,
        r.y == config.title_bar_height,
        r.width == fence_area.width - 2 * config.border_thickness,
        r.height == fence_area.height - config.title_bar_height - config.border_thickness,
{
    let border = config.border_thickness;
    let title_h = config.title_bar_height;
    Area::new(border, title_h, fence_area.width - (border * 2), fence_area.height - title_h - border)
}

/// Resizes a fence whose window area is `area` by adding `(dl, dt)` to its
/// origin and `(dw, dh)` to its size, and returns where its title bar and its
/// scroll area go in the new size.
pub fn resize_fence(area: &mut WindowArea, dl: i32, dt: i32, dw: i32, dh: i32, config: &FenceConfig) -> (r: (
    Area<i32>,
    Area<i32>,
))
    requires
        ({
            let a = spec_add_area(*old(area), dl, dt, dw, dh);
            &&& fits_i32(config.border_thickness * 2)
            &&& fits_i32(a.width - config.border_thickness * 2)
            &&& fits_i32(a.height - config.title_bar_height)
            &&& fits_i32(a.height - config.title_bar_height - config.border_thickness)
        }),
    ensures
        *final(area) == spec_add_area(*old(area), dl, dt, dw, dh),
        r.0.x == 0 && r.0.y == 0 && r.0.width == final(area).width && r.0.height == config.title_bar_height,
        r.1.x == config.border_thickness,
        r.1.y == config.title_bar_height,
        r.1.width == final(area).width - 2 * config.border_thickness,
        r.1.height == final(area).height - config.title_bar_height - config.border_thickness,
{
    area.add_area(dl, dt, dw, dh);
    let fence_area = Area { x: area.x, y: area.y, width: area.width, height: area.height };
    let title = title_bar_area(&fence_area, config);
    let scroll = scroll_area_area(&fence_area, config);
    (title, scroll)
}

/// A file dropped at `(rel_x, rel_y)` (relative to the fence) is taken only inside
/// the scroll area: between the side borders and between the title bar and the
/// bottom border.
pub fn accepts_drop(width: i32, height: i32, border: i32, title_h: i32, rel_x: i32, rel_y: i32) -> (r: bool)
    requires
        fits_i32(border * 2),
        fits_i32(width - border * 2),
        fits_i32(border + (width - border * 2)),
        fits_i32(height - title_h),
        fits_i32(height - title_h - border),
        fits_i32(title_h + (height - title_h - border)),
    ensures
        r == (border <= rel_x < width - border && title_h <= rel_y < height - border),
{
    let client_width = width - border * 2;
    let client_height = height - title_h - border;
    if rel_x < border || rel_x >= border + client_width {
        return false;
    }
    if rel_y < title_h || rel_y >= title_h + client_height {
        return false;
    }
    true
}

/// A file dropped on a fence is taken exactly where the scroll area lies: the
/// bounds `accepts_drop` tests are the edges of `scroll_area_area`.
pub proof fn lemma_drop_within_scroll_area(width: i32, height: i32, border: i32, title_h: i32, x: i32, y: i32)
    ensures
        ({
            let (ax, ay) = (border as int, title_h as int);
            let (aw, ah) = (width - 2 * border, height - title_h - border);
            (border <= x < width - border && title_h <= y < height - border) <==> (ax <= x < ax + aw
                && ay <= y < ay + ah)
        }),
{
}

/// The number of icon columns: as many cells of `icon_size + spacing` as fit in
/// the width less the padding on both sides, and at least one.
pub open spec fn grid_columns(width: int, icon_size: int, padding: int, spacing: int) -> int {
    let q = div_trunc(width - padding * 2, icon_size + spacing);
    if q >= 1 {
        q
    } else {
        1
    }
}

/// The computation of the icon grid stays in the `i32` range for `count` icons
/// and does not divide by zero.
pub open spec fn reflow_fits(width: i32, icon_size: i32, padding: i32, spacing: i32, count: nat) -> bool {
    let step = icon_size + spacing;
    &&& fits_i32(padding * 2)
    &&& fits_i32(width - padding * 2)
    &&& fits_i32(step)
    &&& step != 0
    &&& !(width - padding * 2 == i32::MIN && step == -1)
    &&& forall|i: int|
        0 <= i < count ==> {
            let cols = grid_columns(width as int, icon_size as int, padding as int, spacing as int);
            let k = (#[trigger] (i as i32)) as int;
            &&& fits_i32(rem_trunc(k, cols) * step)
            &&& fits_i32(padding + rem_trunc(k, cols) * step)
            &&& fits_i32(div_trunc(k, cols) * step)
            &&& fits_i32(padding + div_trunc(k, cols) * step)
        }
}

/// The area of icon `i` in the grid: column `i % cols`, row `i / cols`, each cell
/// `icon_size + spacing` apart, inside the padding, `icon_size` square.
pub open spec fn grid_cell(width: i32, icon_size: i32, padding: i32, spacing: i32, i: int) -> WindowArea {
    let cols = grid_columns(width as int, icon_size as int, padding as int, spacing as int);
    let step = icon_size + spacing;
    let k = (i as i32) as int;
    WindowArea {
        x: (padding + rem_trunc(k, cols) * step) as i32,
        y: (padding + div_trunc(k, cols) * step) as i32,
        width: icon_size,
        height: icon_size,
    }
}

/// Lays `count` icons out in rows that fill the width (see `grid_cell`).
pub fn reflow_icons(width: i32, icon_size: i32, padding: i32, spacing: i32, count: usize) -> (r: Vec<WindowArea>)
    requires
        reflow_fits(width, icon_size, padding, spacing, count as nat),
    ensures
        r@.len() == count,
        forall|i: int| 0 <= i < count ==> #[trigger] r@[i] == grid_cell(width, icon_size, padding, spacing, i),
{
    let available_width = width - (padding * 2);
    let step = icon_size + spacing;
    let q = div_i32(available_width, step);
    let cols = if q >= 1 { q } else { 1 };
    let mut out: Vec<WindowArea> = Vec::new();
    let mut i: usize = 0;
    while i < count
        invariant
            i <= count,
            out@.len() == i,
            reflow_fits(width, icon_size, padding, spacing, count as nat),
            cols == grid_columns(width as int, icon_size as int, padding as int, spacing as int),
            step == icon_size + spacing,
            cols >= 1,
            forall|j: int| 0 <= j < i ==> #[trigger] out@[j] == grid_cell(width, icon_size, padding, spacing, j),
        decreases count - i,
    {
        let k = #[verifier::truncate] (i as i32);
        assert(k == (#[trigger] ((i as int) as i32)));
        let col = k % cols;
        let row = k / cols;
        assert(row as int == div_trunc(k as int, cols as int));
        assert(col as int == rem_trunc(k as int, cols as int));
        assert(fits_i32(rem_trunc(k as int, cols as int) * step));
        let x = padding + col * step;
        let y = padding + row * step;
        out.push(WindowArea { x, y, width: icon_size, height: icon_size });
        i = i + 1;
    }
    out
}

/// Two areas share a point: each starts before the other ends, across and down.
pub open spec fn areas_overlap(a: WindowArea, b: WindowArea) -> bool {
    &&& a.x < b.x + b.width
    &&& b.x < a.x + a.width
    &&& a.y < b.y + b.height
    &&& b.y < a.y + a.height
}

/// With a positive icon size and no negative spacing, no two icons of the grid
/// overlap.
pub proof fn lemma_grid_cells_disjoint(
    width: i32,
    icon_size: i32,
    padding: i32,
    spacing: i32,
    count: nat,
    i: int,
    j: int,
)
    requires
        reflow_fits(width, icon_size, padding, spacing, count),
        icon_size > 0,
        spacing >= 0,
        0 <= i < j < count,
        count <= 0x8000_0000,
    ensures
        !areas_overlap(
            grid_cell(width, icon_size, padding, spacing, i),
            grid_cell(width, icon_size, padding, spacing, j),
        ),
{
    let cols = grid_columns(width as int, icon_size as int, padding as int, spacing as int);
    let step = icon_size + spacing;
    assert((i as i32) as int == i);
    assert((j as i32) as int == j);
    let ci = rem_trunc(i, cols);
    let ri = div_trunc(i, cols);
    let cj = rem_trunc(j, cols);
    let rj = div_trunc(j, cols);
    assert(cols >= 1);
    assert(abs(cols) == cols);
    assert(abs(i) == i && abs(j) == j);
    crate::geo::lemma_div_rem_trunc(i, cols);
    crate::geo::lemma_div_rem_trunc(j, cols);
    assert(0 <= ci < cols && 0 <= cj < cols) by {
        vstd::arithmetic::div_mod::lemma_mod_bound(i, cols);
        vstd::arithmetic::div_mod::lemma_mod_bound(j, cols);
    }
    assert(ri >= 0 && rj >= 0) by {
        vstd::arithmetic::div_mod::lemma_div_pos_is_pos(i, cols);
        vstd::arithmetic::div_mod::lemma_div_pos_is_pos(j, cols);
    }
    let a = grid_cell(width, icon_size, padding, spacing, i);
    let b = grid_cell(width, icon_size, padding, spacing, j);
    assert(a.x == padding + ci * step && a.y == padding + ri * step);
    assert(b.x == padding + cj * step && b.y == padding + rj * step);
    if ri == rj {
        assert(ci != cj) by (nonlinear_arith)
            requires
                i == cols * ri + ci,
                j == cols * rj + cj,
                ri == rj,
                i != j,
        ;
        if ci < cj {
            assert(ci * step + step <= cj * step) by (nonlinear_arith)
                requires
                    ci + 1 <= cj,
                    step > 0,
            ;
        } else {
            assert(cj * step + step <= ci * step) by (nonlinear_arith)
                requires
                    cj + 1 <= ci,
                    step > 0,
            ;
        }
    } else {
        if ri < rj {
            assert(ri * step + step <= rj * step) by (nonlinear_arith)
                requires
                    ri + 1 <= rj,
                    step > 0,
            ;
        } else {
            assert(rj * step + step <= ri * step) by (nonlinear_arith)
                requires
                    rj + 1 <= ri,
                    step > 0,
            ;
        }
    }
}

/// The vertical scroll range of a scroll area `view_height` high whose icons have
/// the rectangles `icons`: `(maximum, page)`, the maximum being 10 below the lowest
/// icon bottom (and at least 10), the page the view height as a `u32`.
pub open spec fn spec_scroll_range(view_height: i32, icons: Seq<Rect>) -> (int, u32) {
    (max_bottom(icons, icons.len() as int) + 10, view_height as u32)
}

/// The lowest bottom edge among the first `k` icons, and 0 if none is lower.
pub open spec fn max_bottom(icons: Seq<Rect>, k: int) -> int
    decreases k,
{
    if k <= 0 {
        0
    } else {
        let m = max_bottom(icons, k - 1);
        if icons[k - 1].bottom > m {
            icons[k - 1].bottom as int
        } else {
            m
        }
    }
}

/// The vertical scroll range for the icons of a scroll area.
pub fn update_scroll_info(view_height: i32, icons: &Vec<Rect>) -> (r: (i32, u32))
    requires
        max_bottom(icons@, icons@.len() as int) + 10 <= i32::MAX,
    ensures
        r.0 == spec_scroll_range(view_height, icons@).0,
        r.1 == spec_scroll_range(view_height, icons@).1,
{
    let mut max_y: i32 = 0;
    let mut i: usize = 0;
    while i < icons.len()
        invariant
            i <= icons@.len(),
            max_y == max_bottom(icons@, i as int),
        decreases icons@.len() - i,
    {
        if icons[i].bottom > max_y {
            max_y = icons[i].bottom;
        }
        i = i + 1;
    }
    (max_y + 10, #[verifier::truncate] (view_height as u32))
}

/// How an icon paints itself.
#[derive(Clone, Copy, Debug, PartialEq, Eq)]
pub struct IconPaint {
    /// The background colour.
    pub background: Color<true>,
    /// Copy the desktop picture under the icon first, then the fence background:
    /// the icon's background is translucent and windows are not layered.
    pub under_background: bool,
    /// The left edge of the picture, which is centred horizontally at the top.
    pub picture_x: i32,
    /// The top edge of the title's text box, right below the picture.
    pub text_top: i32,
}

/// Plans the painting of an icon with client rectangle `rect`: the selected or
/// unselected background, what goes under a translucent one, where the picture
/// goes and where the title starts.
pub fn icon_paint(selected: bool, layered_windows: bool, rect: &Rect, config: &IconConfig) -> (r: IconPaint)
    requires
        fits_i32(rect.right - rect.left),
        fits_i32(rect.right - rect.left - config.icon_size_draw),
        fits_i32(rect.top + config.icon_size_draw),
    ensures
        r.background == (if selected {
            config.selected_bg_color
        } else {
            config.unselected_bg_color
        }),
        r.under_background == (!layered_windows && byte_of(r.background.0, 3) < 255),
        r.picture_x == div_trunc(rect.right - rect.left - config.icon_size_draw, 2),
        r.text_top == rect.top + config.icon_size_draw,
{
    let background = if selected {
        config.selected_bg_color
    } else {
        config.unselected_bg_color
    };
    let width = rect.right - rect.left;
    IconPaint {
        background,
        under_background: !layered_windows && background.a() < 255,
        picture_x: div_i32(width - config.icon_size_draw, 2),
        text_top: rect.top + config.icon_size_draw,
    }
}

} // verus!
