//! What part of a fence a point falls on, and what the mouse does there.

use vstd::prelude::*;

use crate::geo::{fits_i32, Rect};
use crate::window::{spec_add_area, WindowArea};

verus! {

/// The part of a fence under the mouse.
#[derive(Clone, Copy, Debug, PartialEq, Eq, Structural)]
pub enum Hit {
    TitleBar,
    Client,
    /// The icon with this index in the fence's icon list.
    Icon(usize),
    Left,
    Right,
    Top,
    Bottom,
    TopLeft,
    TopRight,
    BottomLeft,
    BottomRight,
}

/// The border part for the four "on this border" tests, corners first, or `None`
/// when the point is on no border.
pub open spec fn edge_hit(on_left: bool, on_right: bool, on_top: bool, on_bottom: bool) -> Option<Hit> {
    if on_left && on_top {
        Some(Hit::TopLeft)
    } else if on_right && on_top {
        Some(Hit::TopRight)
    } else if on_left && on_bottom {
        Some(Hit::BottomLeft)
    } else if on_right && on_bottom {
        Some(Hit::BottomRight)
    } else if on_left {
        Some(Hit::Left)
    } else if on_right {
        Some(Hit::Right)
    } else if on_top {
        Some(Hit::Top)
    } else if on_bottom {
        Some(Hit::Bottom)
    } else {
        None
    }
}

fn edge_hit_exec(on_left: bool, on_right: bool, on_top: bool, on_bottom: bool) -> (r: Option<Hit>)
    ensures
        r == edge_hit(on_left, on_right, on_top, on_bottom),
{
    match (on_left, on_right, on_top, on_bottom) {
        (true, _, true, _) => Some(Hit::TopLeft),
        (_, true, true, _) => Some(Hit::TopRight),
        (true, _, _, true) => Some(Hit::BottomLeft),
        (_, true, _, true) => Some(Hit::BottomRight),
        (true, _, _, _) => Some(Hit::Left),
        (_, true, _, _) => Some(Hit::Right),
        (_, _, true, _) => Some(Hit::Top),
        (_, _, _, true) => Some(Hit::Bottom),
        _ => None,
    }
}

/// The first of `icons[k..]` whose rectangle holds the point.
pub open spec fn icon_at_from(icons: Seq<Rect>, k: int, x: int, y: int) -> Option<usize>
    decreases icons.len() - k,
{
    if k < 0 || k >= icons.len() {
        None
    } else if icons[k].spec_contains(x, y) {
        Some(k as usize)
    } else {
        icon_at_from(icons, k + 1, x, y)
    }
}

/// The index of the first icon whose rectangle holds the point.
pub open spec fn icon_at(icons: Seq<Rect>, x: int, y: int) -> Option<usize> {
    icon_at_from(icons, 0, x, y)
}

/// `icon_at` names the first icon holding the point, and no earlier one holds it.
pub proof fn lemma_icon_at(icons: Seq<Rect>, x: int, y: int)
    requires
        icons.len() <= usize::MAX,
    ensures
        icon_at(icons, x, y) matches Some(i) ==> i < icons.len() && icons[i as int].spec_contains(x, y)
            && forall|j: int| 0 <= j < i ==> !(#[trigger] icons[j]).spec_contains(x, y),
        icon_at(icons, x, y) is None ==> forall|j: int|
            0 <= j < icons.len() ==> !(#[trigger] icons[j]).spec_contains(x, y),
{
    lemma_icon_at_from(icons, 0, x, y);
}

proof fn lemma_icon_at_from(icons: Seq<Rect>, k: int, x: int, y: int)
    requires
        0 <= k <= icons.len(),
        icons.len() <= usize::MAX,
    ensures
        icon_at_from(icons, k, x, y) matches Some(i) ==> k <= i < icons.len() && icons[i as int].spec_contains(x, y)
            && forall|j: int| k <= j < i ==> !(#[trigger] icons[j]).spec_contains(x, y),
        icon_at_from(icons, k, x, y) is None ==> forall|j: int|
            k <= j < icons.len() ==> !(#[trigger] icons[j]).spec_contains(x, y),
    decreases icons.len() - k,
{
    if k < icons.len() && !icons[k].spec_contains(x, y) {
        lemma_icon_at_from(icons, k + 1, x, y);
        if let Some(i) = icon_at_from(icons, k, x, y) {
            assert forall|j: int| k <= j < i implies !(#[trigger] icons[j]).spec_contains(x, y) by {
                if j > k {
                    assert(k + 1 <= j < i);
                }
            }
        }
    }
}

/// The index of the first icon whose rectangle holds the point, if any.
pub fn icon_by_pos(icons: &Vec<Rect>, x: i32, y: i32) -> (r: Option<usize>)
    ensures
        r == icon_at(icons@, x as int, y as int),
{
    let mut k: usize = 0;
    while k < icons.len()
        invariant
            k <= icons@.len(),
            icon_at(icons@, x as int, y as int) == icon_at_from(icons@, k as int, x as int, y as int),
        decreases icons@.len() - k,
    {
        if icons[k].contains(x, y) {
            return Some(k);
        }
        k = k + 1;
    }
    None
}

/// What a point at `(rel_x, rel_y)` relative to the top-left corner of a fence of
/// the given size hits: nothing outside the fence; else a border within `border`
/// of an edge (corners first), else the title bar above `title_h`, else the icon
/// under it (icon rectangles are relative to the area below the title bar and
/// inside the left border), else the client area.
pub open spec fn spec_from_pos(
    width: i32,
    height: i32,
    border: i32,
    title_h: i32,
    icons: Seq<Rect>,
    rel_x: i32,
    rel_y: i32,
) -> Option<Hit> {
    if rel_x < 0 || rel_x >= width || rel_y < 0 || rel_y >= height {
        None
    } else {
        match edge_hit(rel_x < border, rel_x >= width - border, rel_y < border, rel_y >= height - border) {
            Some(h) => Some(h),
            None => if rel_y < title_h {
                Some(Hit::TitleBar)
            } else {
                match icon_at(icons, rel_x - border, rel_y - title_h) {
                    Some(i) => Some(Hit::Icon(i)),
                    None => Some(Hit::Client),
                }
            },
        }
    }
}

impl Hit {
    /// What a point relative to a fence's top-left corner hits, or `None` when
    /// the point lies outside the fence.
    pub fn from_pos_in_fence(
        width: i32,
        height: i32,
        border: i32,
        title_h: i32,
        icons: &Vec<Rect>,
        rel_x: i32,
        rel_y: i32,
    ) -> (r: Option<Hit>)
        requires
            fits_i32(width - border),
            fits_i32(height - border),
            fits_i32(rel_x - border),
            fits_i32(rel_y - title_h),
        ensures
            r == spec_from_pos(width, height, border, title_h, icons@, rel_x, rel_y),
    {
        if rel_x < 0 || rel_x >= width || rel_y < 0 || rel_y >= height {
            return None;
        }
        let on_left = rel_x < border;
        let on_right = rel_x >= width - border;
        let on_top = rel_y < border;
        let on_bottom = rel_y >= height - border;
        let hit = match edge_hit_exec(on_left, on_right, on_top, on_bottom) {
            Some(h) => h,
            None => {
                if rel_y < title_h {
                    Hit::TitleBar
                } else {
                    match icon_by_pos(icons, rel_x - border, rel_y - title_h) {
                        Some(i) => Hit::Icon(i),
                        None => Hit::Client,
                    }
                }
            },
        };
        Some(hit)
    }
}

/// What a point in screen coordinates hits on a fence with window rectangle
/// `rect`: `None` outside the rectangle; otherwise as `spec_from_pos`, except that
/// icon rectangles are relative to the fence's left edge and to the top of the
/// area below the title bar scrolled down by `scroll_pos`.
pub open spec fn spec_hit_test(
    rect: Rect,
    border: i32,
    title_h: i32,
    scroll_pos: i32,
    icons: Seq<Rect>,
    x: i32,
    y: i32,
) -> Option<Hit> {
    if x < rect.left || x >= rect.right || y < rect.top || y >= rect.bottom {
        None
    } else {
        match edge_hit(
            x < rect.left + border,
            x >= rect.right - border,
            y < rect.top + border,
            y >= rect.bottom - border,
        ) {
            Some(h) => Some(h),
            None => if y < rect.top + title_h {
                Some(Hit::TitleBar)
            } else {
                match icon_at(icons, x - rect.left, y - (rect.top + title_h) + scroll_pos) {
                    Some(i) => Some(Hit::Icon(i)),
                    None => Some(Hit::Client),
                }
            },
        }
    }
}

/// What a point in screen coordinates hits on a fence with window rectangle `rect`.
pub fn hit_test(
    rect: Rect,
    border: i32,
    title_h: i32,
    scroll_pos: i32,
    icons: &Vec<Rect>,
    x: i32,
    y: i32,
) -> (r: Option<Hit>)
    requires
        fits_i32(rect.left + border),
        fits_i32(rect.right - border),
        fits_i32(rect.top + border),
        fits_i32(rect.bottom - border),
        fits_i32(rect.top + title_h),
        fits_i32(x - rect.left),
        fits_i32(y - (rect.top + title_h)),
        fits_i32(y - (rect.top + title_h) + scroll_pos),
    ensures
        r == spec_hit_test(rect, border, title_h, scroll_pos, icons@, x, y),
{
    if x < rect.left || x >= rect.right || y < rect.top || y >= rect.bottom {
        return None;
    }
    let on_left = x < rect.left + border;
    let on_right = x >= rect.right - border;
    let on_top = y < rect.top + border;
    let on_bottom = y >= rect.bottom - border;
    let hit = match edge_hit_exec(on_left, on_right, on_top, on_bottom) {
        Some(h) => h,
        None => {
            if y < rect.top + title_h {
                Hit::TitleBar
            } else {
                let rel_x = x - rect.left;
                let rel_y = y - (rect.top + title_h) + scroll_pos;
                match icon_by_pos(icons, rel_x, rel_y) {
                    Some(i) => Hit::Icon(i),
                    None => Hit::Client,
                }
            }
        },
    };
    Some(hit)
}

/// The part is a border or a corner.
pub open spec fn is_border_part(h: Hit) -> bool {
    !(h == Hit::TitleBar || h == Hit::Client || h is Icon)
}

/// Where a point inside a fence lands: on a border part exactly when it lies
/// within `border` of an edge, on the corner of the two edges it is near (the
/// top edge and then the left edge winning where the fence is too small to tell),
/// on the side it is near otherwise; off the borders on the title bar above
/// `title_h`, and below it on the first icon whose rectangle holds the point
/// (taken relative to the area inside the left border and below the title bar),
/// or on the client area when no icon holds it.
pub proof fn lemma_from_pos_parts(
    width: i32,
    height: i32,
    border: i32,
    title_h: i32,
    icons: Seq<Rect>,
    rel_x: i32,
    rel_y: i32,
)
    requires
        0 <= rel_x < width,
        0 <= rel_y < height,
        icons.len() <= usize::MAX,
    ensures
        ({
            let r = spec_from_pos(width, height, border, title_h, icons, rel_x, rel_y);
            let on_l = rel_x < border;
            let on_r = rel_x >= width - border;
            let on_t = rel_y < border;
            let on_b = rel_y >= height - border;
            let off = !on_l && !on_r && !on_t && !on_b;
            let cx = rel_x - border;
            let cy = rel_y - title_h;
            &&& r is Some
            &&& is_border_part(r.unwrap()) <==> !off
            &&& on_l && on_t ==> r == Some(Hit::TopLeft)
            &&& !on_l && on_r && on_t ==> r == Some(Hit::TopRight)
            &&& on_l && !on_t && on_b ==> r == Some(Hit::BottomLeft)
            &&& !on_l && on_r && !on_t && on_b ==> r == Some(Hit::BottomRight)
            &&& on_l && !on_t && !on_b ==> r == Some(Hit::Left)
            &&& !on_l && on_r && !on_t && !on_b ==> r == Some(Hit::Right)
            &&& !on_l && !on_r && on_t ==> r == Some(Hit::Top)
            &&& !on_l && !on_r && !on_t && on_b ==> r == Some(Hit::Bottom)
            &&& off && rel_y < title_h ==> r == Some(Hit::TitleBar)
            &&& off && rel_y >= title_h ==> (r matches Some(Hit::Icon(_)) || r == Some(Hit::Client))
            &&& off && rel_y >= title_h ==> (r matches Some(Hit::Icon(i)) ==> i < icons.len()
                && icons[i as int].spec_contains(cx, cy) && forall|j: int|
                0 <= j < i ==> !(#[trigger] icons[j]).spec_contains(cx, cy))
            &&& off && rel_y >= title_h ==> (r == Some(Hit::Client) <==> forall|j: int|
                0 <= j < icons.len() ==> !(#[trigger] icons[j]).spec_contains(cx, cy))
        }),
{
    lemma_icon_at(icons, rel_x - border, rel_y - title_h);
}

/// Hit testing in screen coordinates: nothing outside the fence's rectangle; off
/// the borders and below the title bar, the icons are tested at the point moved
/// down by the scroll position, so the first icon whose rectangle holds
/// `(x - left, y - (top + title_h) + scroll_pos)` is hit, else the client area.
pub proof fn lemma_hit_test_scrolled(
    rect: Rect,
    border: i32,
    title_h: i32,
    scroll_pos: i32,
    icons: Seq<Rect>,
    x: i32,
    y: i32,
)
    requires
        icons.len() <= usize::MAX,
    ensures
        ({
            let r = spec_hit_test(rect, border, title_h, scroll_pos, icons, x, y);
            let inside = rect.left <= x < rect.right && rect.top <= y < rect.bottom;
            let off = !(x < rect.left + border || x >= rect.right - border || y < rect.top + border || y
                >= rect.bottom - border);
            let body = inside && off && y >= rect.top + title_h;
            let cx = x - rect.left;
            let cy = y - (rect.top + title_h) + scroll_pos;
            &&& !inside ==> r is None
            &&& inside && !off ==> (r matches Some(h) && is_border_part(h))
            &&& inside && off && y < rect.top + title_h ==> r == Some(Hit::TitleBar)
            &&& body ==> (r matches Some(Hit::Icon(_)) || r == Some(Hit::Client))
            &&& body ==> (r matches Some(Hit::Icon(i)) ==> i < icons.len() && icons[i as int].spec_contains(
                cx,
                cy,
            ) && forall|j: int| 0 <= j < i ==> !(#[trigger] icons[j]).spec_contains(cx, cy))
            &&& body ==> (r == Some(Hit::Client) <==> forall|j: int|
                0 <= j < icons.len() ==> !(#[trigger] icons[j]).spec_contains(cx, cy))
        }),
{
    lemma_icon_at(icons, x - rect.left, y - (rect.top + title_h) + scroll_pos);
}

/// Scrolling by `scroll_pos` shows the content that lies `scroll_pos` further
/// down: a point in the icon area of a scrolled fence hits what the point
/// `scroll_pos` lower hits in the unscrolled fence, where that point is in the
/// icon area too.
pub proof fn lemma_hit_test_scroll_shift(
    rect: Rect,
    border: i32,
    title_h: i32,
    scroll_pos: i32,
    icons: Seq<Rect>,
    x: i32,
    y: i32,
    y2: i32,
)
    requires
        y2 == y + scroll_pos,
        rect.left + border <= x < rect.right - border,
        rect.left <= x < rect.right,
        rect.top + border <= y < rect.bottom - border,
        rect.top <= y < rect.bottom,
        y >= rect.top + title_h,
        rect.top + border <= y2 < rect.bottom - border,
        rect.top <= y2 < rect.bottom,
        y2 >= rect.top + title_h,
    ensures
        spec_hit_test(rect, border, title_h, scroll_pos, icons, x, y) == spec_hit_test(
            rect,
            border,
            title_h,
            0,
            icons,
            x,
            y2,
        ),
{
    assert(y - (rect.top + title_h) + scroll_pos == y2 - (rect.top + title_h) + 0);
}

/// The mouse cursor shown over each part of a fence.
#[derive(Clone, Copy, Debug, PartialEq, Eq, Structural)]
pub enum Cursor {
    /// The four-way move cursor.
    SizeAll,
    /// The left-right resize cursor.
    SizeWE,
    /// The up-down resize cursor.
    SizeNS,
    /// The resize cursor between top-left and bottom-right.
    SizeNWSE,
    /// The resize cursor between top-right and bottom-left.
    SizeNESW,
    /// The ordinary arrow.
    Arrow,
}

/// What dragging the mouse by `(dx, dy)` does to a fence.
#[derive(Clone, Copy, Debug, PartialEq, Eq, Structural)]
pub enum Drag {
    /// Move the fence by `(dx, dy)`.
    Move { dx: i32, dy: i32 },
    /// Add to the fence's origin and size (see `WindowArea::add_area`).
    Resize { dl: i32, dt: i32, dw: i32, dh: i32 },
}

/// The drag a part of a fence answers with, or `None` for the client area and icons.
pub open spec fn spec_drag(hit: Hit, dx: i32, dy: i32) -> Option<Drag> {
    match hit {
        Hit::TitleBar => Some(Drag::Move { dx, dy }),
        Hit::Left => Some(Drag::Resize { dl: dx, dt: 0, dw: (-dx) as i32, dh: 0 }),
        Hit::Right => Some(Drag::Resize { dl: 0, dt: 0, dw: dx, dh: 0 }),
        Hit::Top => Some(Drag::Resize { dl: 0, dt: dy, dw: 0, dh: (-dy) as i32 }),
        Hit::Bottom => Some(Drag::Resize { dl: 0, dt: 0, dw: 0, dh: dy }),
        Hit::TopLeft => Some(Drag::Resize { dl: dx, dt: dy, dw: (-dx) as i32, dh: (-dy) as i32 }),
        Hit::TopRight => Some(Drag::Resize { dl: 0, dt: dy, dw: dx, dh: (-dy) as i32 }),
        Hit::BottomLeft => Some(Drag::Resize { dl: dx, dt: 0, dw: (-dx) as i32, dh: dy }),
        Hit::BottomRight => Some(Drag::Resize { dl: 0, dt: 0, dw: dx, dh: dy }),
        Hit::Client | Hit::Icon(_) => None,
    }
}

/// What the mouse last pressed on a fence, and how the fence answers mouse events.
pub struct HitManager {
    /// The part pressed, kept until the button is released or the fence loses focus.
    pub current: Option<Hit>,
    /// The part a context menu was opened on, kept for the command chosen from it.
    pub menu_hit: Option<Hit>,
}

/// The context menu a right click opens.
#[derive(Clone, Copy, Debug, PartialEq, Eq, Structural)]
pub enum ContextMenu {
    /// The menu of the icon with this index.
    Icon(usize),
    /// The fence's own menu.
    Fence,
}

/// The icon a hit selects, if it is on one.
pub open spec fn selected_icon(hit: Option<Hit>) -> Option<usize> {
    match hit {
        Some(Hit::Icon(i)) => Some(i),
        _ => None,
    }
}

impl HitManager {
    /// A manager with nothing pressed.
    pub fn new() -> (r: Self)
        ensures
            r.current is None,
            r.menu_hit is None,
    {
        HitManager { current: None, menu_hit: None }
    }

    /// Records `hit` as the current part. Returns the icon to select when the
    /// current part changed (`Some(None)`: select no icon), else `None`.
    pub fn update_hit(&mut self, hit: Option<Hit>) -> (r: Option<Option<usize>>)
        ensures
            final(self).current == hit,
            final(self).menu_hit == old(self).menu_hit,
            r == (if old(self).current != hit {
                Some(selected_icon(hit))
            } else {
                None::<Option<usize>>
            }),
    {
        if self.current != hit {
            let icon = match hit {
                Some(Hit::Icon(i)) => Some(i),
                _ => None,
            };
            self.current = hit;
            Some(icon)
        } else {
            None
        }
    }

    /// Left button pressed on `hit`: records it, and returns the selection change
    /// (as `update_hit`) and whether the fence captures the mouse to move or resize.
    pub fn on_lbutton_down(&mut self, hit: Option<Hit>) -> (r: (Option<Option<usize>>, bool))
        ensures
            final(self).current == hit,
            final(self).menu_hit == old(self).menu_hit,
            r.0 == (if old(self).current != hit {
                Some(selected_icon(hit))
            } else {
                None::<Option<usize>>
            }),
            r.1 == !(hit is None || hit matches Some(Hit::Icon(_)) || hit == Some(Hit::Client)),
    {
        let change = self.update_hit(hit);
        let capture = match hit {
            None | Some(Hit::Icon(_)) | Some(Hit::Client) => false,
            _ => true,
        };
        (change, capture)
    }

    /// Left button released: nothing is pressed any more.
    pub fn on_lbutton_up(&mut self)
        ensures
            final(self).current is None,
            final(self).menu_hit == old(self).menu_hit,
    {
        self.current = None;
    }

    /// Double click on `hit`: the icon to run, if the click is on one.
    pub fn on_lbutton_dblclk(&self, hit: Option<Hit>) -> (r: Option<usize>)
        ensures
            r == selected_icon(hit),
    {
        match hit {
            Some(Hit::Icon(i)) => Some(i),
            _ => None,
        }
    }

    /// Right button released on `hit`: returns the selection change (as
    /// `update_hit`) and the menu to open, the icon's on an icon and the fence's
    /// elsewhere. Nothing stays pressed; `hit` is kept for the menu's command.
    pub fn on_rbutton_up(&mut self, hit: Option<Hit>) -> (r: (Option<Option<usize>>, ContextMenu))
        ensures
            final(self).current is None,
            final(self).menu_hit == hit,
            r.0 == (if old(self).current != hit {
                Some(selected_icon(hit))
            } else {
                None::<Option<usize>>
            }),
            r.1 == (match hit {
                Some(Hit::Icon(i)) => ContextMenu::Icon(i),
                _ => ContextMenu::Fence,
            }),
    {
        let change = self.update_hit(hit);
        let menu = match hit {
            Some(Hit::Icon(i)) => ContextMenu::Icon(i),
            _ => ContextMenu::Fence,
        };
        self.current = None;
        self.menu_hit = hit;
        (change, menu)
    }

    /// A command came from the context menu: hands over the part the menu was
    /// opened on, if any, and forgets it.
    pub fn take_menu_hit(&mut self) -> (r: Option<Hit>)
        ensures
            r == old(self).menu_hit,
            final(self).menu_hit is None,
            final(self).current == old(self).current,
    {
        let h = self.menu_hit;
        self.menu_hit = None;
        h
    }

    /// The cursor for the part under the mouse: the arrow outside the fence, on
    /// the client area and on icons.
    pub fn on_set_cursor(&self, hit: Option<Hit>) -> (r: Option<Cursor>)
        ensures
            r == Some(
                match hit {
                    Some(Hit::TitleBar) => Cursor::SizeAll,
                    Some(Hit::Left) | Some(Hit::Right) => Cursor::SizeWE,
                    Some(Hit::Top) | Some(Hit::Bottom) => Cursor::SizeNS,
                    Some(Hit::TopLeft) | Some(Hit::BottomRight) => Cursor::SizeNWSE,
                    Some(Hit::TopRight) | Some(Hit::BottomLeft) => Cursor::SizeNESW,
                    _ => Cursor::Arrow,
                },
            ),
    {
        let cursor = match hit {
            Some(Hit::TitleBar) => Cursor::SizeAll,
            Some(Hit::Left) | Some(Hit::Right) => Cursor::SizeWE,
            Some(Hit::Top) | Some(Hit::Bottom) => Cursor::SizeNS,
            Some(Hit::TopLeft) | Some(Hit::BottomRight) => Cursor::SizeNWSE,
            Some(Hit::TopRight) | Some(Hit::BottomLeft) => Cursor::SizeNESW,
            _ => Cursor::Arrow,
        };
        Some(cursor)
    }

    /// The mouse moved by `(dx, dy)` with the button held: what to do to the fence.
    pub fn on_mouse_move(&self, dx: i32, dy: i32) -> (r: Option<Drag>)
        requires
            dx != i32::MIN,
            dy != i32::MIN,
        ensures
            r == (match self.current {
                Some(h) => spec_drag(h, dx, dy),
                None => None,
            }),
    {
        match self.current {
            Some(h) => match h {
                Hit::TitleBar => Some(Drag::Move { dx, dy }),
                Hit::Left => Some(Drag::Resize { dl: dx, dt: 0, dw: -dx, dh: 0 }),
                Hit::Right => Some(Drag::Resize { dl: 0, dt: 0, dw: dx, dh: 0 }),
                Hit::Top => Some(Drag::Resize { dl: 0, dt: dy, dw: 0, dh: -dy }),
                Hit::Bottom => Some(Drag::Resize { dl: 0, dt: 0, dw: 0, dh: dy }),
                Hit::TopLeft => Some(Drag::Resize { dl: dx, dt: dy, dw: -dx, dh: -dy }),
                Hit::TopRight => Some(Drag::Resize { dl: 0, dt: dy, dw: dx, dh: -dy }),
                Hit::BottomLeft => Some(Drag::Resize { dl: dx, dt: 0, dw: -dx, dh: dy }),
                Hit::BottomRight => Some(Drag::Resize { dl: 0, dt: 0, dw: dx, dh: dy }),
                Hit::Client | Hit::Icon(_) => None,
            },
            None => None,
        }
    }

    /// Gives up the current part: the fence lost focus.
    pub fn take(&mut self) -> (r: Option<Hit>)
        ensures
            r == old(self).current,
            final(self).current is None,
            final(self).menu_hit == old(self).menu_hit,
    {
        let h = self.current;
        self.current = None;
        h
    }
}

/// The part grabs the left border.
pub open spec fn grabs_left(hit: Hit) -> bool {
    hit == Hit::Left || hit == Hit::TopLeft || hit == Hit::BottomLeft
}

/// The part grabs the right border.
pub open spec fn grabs_right(hit: Hit) -> bool {
    hit == Hit::Right || hit == Hit::TopRight || hit == Hit::BottomRight
}

/// The part grabs the top border.
pub open spec fn grabs_top(hit: Hit) -> bool {
    hit == Hit::Top || hit == Hit::TopLeft || hit == Hit::TopRight
}

/// The part grabs the bottom border.
pub open spec fn grabs_bottom(hit: Hit) -> bool {
    hit == Hit::Bottom || hit == Hit::BottomLeft || hit == Hit::BottomRight
}

/// Dragging a border or corner by `(dx, dy)` moves exactly the grabbed borders
/// by the drag and leaves the others where they were (while no value leaves the
/// `i32` range); dragging the title bar moves the fence without resizing it.
pub proof fn lemma_drag_moves_grabbed_borders(hit: Hit, a: WindowArea, dx: i32, dy: i32)
    requires
        dx != i32::MIN,
        dy != i32::MIN,
        fits_i32(a.x + dx),
        fits_i32(a.y + dy),
        fits_i32(a.width + dx),
        fits_i32(a.width - dx),
        fits_i32(a.height + dy),
        fits_i32(a.height - dy),
    ensures
        match spec_drag(hit, dx, dy) {
            Some(Drag::Resize { dl, dt, dw, dh }) => {
                let b = spec_add_area(a, dl, dt, dw, dh);
                &&& grabs_left(hit) ==> b.x == a.x + dx && b.x + b.width == a.x + a.width
                &&& grabs_right(hit) ==> b.x == a.x && b.x + b.width == a.x + a.width + dx
                &&& !grabs_left(hit) && !grabs_right(hit) ==> b.x == a.x && b.width == a.width
                &&& grabs_top(hit) ==> b.y == a.y + dy && b.y + b.height == a.y + a.height
                &&& grabs_bottom(hit) ==> b.y == a.y && b.y + b.height == a.y + a.height + dy
                &&& !grabs_top(hit) && !grabs_bottom(hit) ==> b.y == a.y && b.height == a.height
            },
            Some(Drag::Move { dx: mx, dy: my }) => hit == Hit::TitleBar && mx == dx && my == dy,
            None => hit == Hit::Client || hit is Icon,
        },
{
    assert(vstd::wrapping::i32_specs::wrapping_add(a.x, 0) == a.x);
    assert(vstd::wrapping::i32_specs::wrapping_add(a.y, 0) == a.y);
    assert(vstd::wrapping::i32_specs::wrapping_add(a.width, 0) == a.width);
    assert(vstd::wrapping::i32_specs::wrapping_add(a.height, 0) == a.height);
    assert(fits_i32(a.x + dx) ==> vstd::wrapping::i32_specs::wrapping_add(a.x, dx) == a.x + dx);
    assert(fits_i32(a.y + dy) ==> vstd::wrapping::i32_specs::wrapping_add(a.y, dy) == a.y + dy);
    assert(vstd::wrapping::i32_specs::wrapping_add(a.width, dx) == a.width + dx);
    assert(vstd::wrapping::i32_specs::wrapping_add(a.width, (-dx) as i32) == a.width - dx);
    assert(vstd::wrapping::i32_specs::wrapping_add(a.height, dy) == a.height + dy);
    assert(vstd::wrapping::i32_specs::wrapping_add(a.height, (-dy) as i32) == a.height - dy);
}

/// The last mouse position seen while the mouse is captured for a drag.
#[derive(Clone, Copy, Debug, PartialEq, Eq, Structural)]
pub struct MouseTracker {
    pub last_x: i32,
    pub last_y: i32,
}

impl MouseTracker {
    /// Starts tracking at `(x, y)`.
    pub fn new(x: i32, y: i32) -> (r: Self)
        ensures
            r.last_x == x,
            r.last_y == y,
    {
        MouseTracker { last_x: x, last_y: y }
    }

    /// The mouse is now at `(x, y)`: returns how far it moved since the last
    /// position, and remembers the new one.
    pub fn moved_to(&mut self, x: i32, y: i32) -> (r: (i32, i32))
        requires
            fits_i32(x - old(self).last_x),
            fits_i32(y - old(self).last_y),
        ensures
            r == ((x - old(self).last_x) as i32, (y - old(self).last_y) as i32),
            final(self).last_x == x,
            final(self).last_y == y,
    {
        let d = (x - self.last_x, y - self.last_y);
        self.last_x = x;
        self.last_y = y;
        d
    }
}

} // verus!

