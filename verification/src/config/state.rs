//! The saved state: every fence with its place, title, icons and options.

use vstd::prelude::*;

use crate::geo::Area;

verus! {

/// Everything saved between runs.
#[derive(Default)]
pub struct AppState {
    pub fences: Vec<FenceState>,
    /// Screen width when the state was saved.
    pub screen_width: i32,
    /// Screen height when the state was saved.
    pub screen_height: i32,
}

/// The screen corner a fence keeps its distance to when the screen size changes.
#[derive(Clone, Copy, Debug, PartialEq, Eq, Structural)]
pub enum FenceStickyPosition {
    TopLeft,
    TopRight,
    BottomLeft,
    BottomRight,
}

/// One saved fence.
#[derive(Default)]
pub struct FenceState {
    pub title: String,
    pub area: Area<i32>,
    pub icons: Vec<IconState>,
    /// The folder the fence's icons were imported from.
    pub imported_from: Option<String>,
    pub sticky_pos: Option<FenceStickyPosition>,
}

/// One saved icon of a fence.
#[derive(Default)]
pub struct IconState {
    pub title: String,
    pub path: Option<String>,
}

impl IconState {
    /// A copy of this icon state.
    pub fn copy(&self) -> (r: IconState)
        ensures
            r.title@ == self.title@,
            r.path.is_some() == self.path.is_some(),
            self.path.is_some() ==> r.path.unwrap()@ == self.path.unwrap()@,
    {
        IconState {
            title: self.title.clone(),
            path: match &self.path {
                Some(p) => Some(p.clone()),
                None => None,
            },
        }
    }
}

/// An icon state as plain values: its title, and its path if it has one.
pub open spec fn icon_view(i: IconState) -> (Seq<char>, Option<Seq<char>>) {
    (i.title@, match i.path {
        Some(p) => Some(p@),
        None => None,
    })
}

/// The icons of a fence as plain values.
pub open spec fn icons_view(icons: Seq<IconState>) -> Seq<(Seq<char>, Option<Seq<char>>)> {
    icons.map_values(|i: IconState| icon_view(i))
}

impl FenceState {
    /// Appends an icon titled `title` with the file `path`, if any.
    pub fn add_icon_with_path(&mut self, title: &str, path: Option<&str>)
        ensures
            icons_view(final(self).icons@) == icons_view(old(self).icons@).push(
                (title@, match path {
                    Some(p) => Some(p@),
                    None => None,
                }),
            ),
            final(self).title == old(self).title,
            final(self).area == old(self).area,
            final(self).imported_from == old(self).imported_from,
            final(self).sticky_pos == old(self).sticky_pos,
    {
        let icon = IconState {
            title: title.to_string(),
            path: match path {
                Some(p) => Some(p.to_string()),
                None => None,
            },
        };
        self.icons.push(icon);
        assert(icons_view(self.icons@) =~= icons_view(old(self).icons@).push(
            (title@, match path {
                Some(p) => Some(p@),
                None => None,
            }),
        ));
    }

    /// Removes the icon at `index`; an index past the end changes nothing.
    pub fn remove_icon(&mut self, index: usize)
        ensures
            final(self).icons@ == (if index < old(self).icons@.len() {
                old(self).icons@.remove(index as int)
            } else {
                old(self).icons@
            }),
            final(self).title == old(self).title,
            final(self).area == old(self).area,
            final(self).imported_from == old(self).imported_from,
            final(self).sticky_pos == old(self).sticky_pos,
    {
        if index < self.icons.len() {
            self.icons.remove(index);
        }
    }

    /// The number of icons.
    pub fn icon_count(&self) -> (r: usize)
        ensures
            r == self.icons@.len(),
    {
        self.icons.len()
    }

    /// The icon at `index`, if there is one.
    pub fn icon_by_index(&self, index: usize) -> (r: Option<&IconState>)
        ensures
            r == (if index < self.icons@.len() {
                Some(&self.icons@[index as int])
            } else {
                None
            }),
    {
        if index < self.icons.len() {
            Some(&self.icons[index])
        } else {
            None
        }
    }
}

} // verus!

