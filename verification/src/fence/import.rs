//! Importing a folder into a fence: which icons to keep, drop or add, and the
//! list the user confirms them in.

use vstd::prelude::*;
use vstd::string::StringSliceAdditionalSpecFns;

use crate::config::state::{icon_view, icons_view, FenceState, IconState};
use crate::input::loword;
use crate::prompt::BN_CLICKED;

verus! {

/// Keep the item (add it or leave it in the fence).
pub const ACTION_KEEP: u32 = 0;
/// Remove the item from the fence.
pub const ACTION_REMOVE: u32 = 1;

/// Control id of the import dialog's list.
pub const ID_LISTVIEW: u16 = 1001;
/// Control id of the Import button.
pub const ID_IMPORT_BTN: u16 = 1002;
/// Control id of the Cancel button.
pub const ID_CANCEL_BTN: u16 = 1003;
/// Control id of the "shortcuts only" check box.
pub const ID_SHOW_LNK_ONLY: u16 = 1004;

/// What a command message of the import dialog asks for.
#[derive(Clone, Copy, Debug, PartialEq, Eq, Structural)]
pub enum ImportCommand {
    /// Import the kept rows and close.
    Import,
    /// Close without importing.
    Cancel,
    /// Switch between all rows and shortcuts only.
    ToggleShortcutsOnly,
    /// A notification of the "shortcuts only" check box other than a click:
    /// handled, with nothing to do.
    Ignore,
}

/// The command a command message's `wparam` carries: the control id is in the
/// low 16 bits, the notification code in the next 16; the check box toggles only
/// when clicked. `None` for any other control, which the default handling gets.
pub open spec fn spec_import_command(wparam: usize) -> Option<ImportCommand> {
    let id = wparam as u16;
    if id == ID_IMPORT_BTN {
        Some(ImportCommand::Import)
    } else if id == ID_CANCEL_BTN {
        Some(ImportCommand::Cancel)
    } else if id == ID_SHOW_LNK_ONLY {
        if (wparam >> 16u32) as u16 == BN_CLICKED {
            Some(ImportCommand::ToggleShortcutsOnly)
        } else {
            Some(ImportCommand::Ignore)
        }
    } else {
        None
    }
}

/// Decodes a command message of the import dialog.
pub fn import_command(wparam: usize) -> (r: Option<ImportCommand>)
    ensures
        r == spec_import_command(wparam),
{
    let id = loword(wparam);
    if id == ID_IMPORT_BTN {
        Some(ImportCommand::Import)
    } else if id == ID_CANCEL_BTN {
        Some(ImportCommand::Cancel)
    } else if id == ID_SHOW_LNK_ONLY {
        if (wparam >> 16u32) as u16 == BN_CLICKED {
            Some(ImportCommand::ToggleShortcutsOnly)
        } else {
            Some(ImportCommand::Ignore)
        }
    } else {
        None
    }
}

/// The notification code of a double click.
pub const NM_DBLCLK: u32 = 0xFFFF_FFFD;

/// A notification toggles the selected row when it is a double click on the list.
pub fn toggles_row(id_from: usize, code: u32) -> (r: bool)
    ensures
        r == (id_from == ID_LISTVIEW as usize && code == NM_DBLCLK),
{
    id_from == ID_LISTVIEW as usize && code == NM_DBLCLK
}

/// One row of the import list.
pub struct ImportItem {
    pub title: String,
    pub path: String,
    /// `ACTION_KEEP` or `ACTION_REMOVE`.
    pub action: u32,
}

impl View for ImportItem {
    type V = (Seq<char>, Seq<char>, u32);

    open spec fn view(&self) -> (Seq<char>, Seq<char>, u32) {
        (self.title@, self.path@, self.action)
    }
}

impl ImportItem {
    /// A copy of this item.
    pub fn copy(&self) -> (r: ImportItem)
        ensures
            r@ == self@,
    {
        ImportItem { title: self.title.clone(), path: self.path.clone(), action: self.action }
    }
}

/// An icon's path, or the empty string when it has none.
pub open spec fn path_or_empty(p: Option<String>) -> Seq<char> {
    match p {
        Some(s) => s@,
        None => Seq::empty(),
    }
}

/// Some entry `(title, path)` of the folder has the path.
pub open spec fn folder_has(folder: Seq<(String, String)>, path: Seq<char>) -> bool {
    exists|i: int| 0 <= i < folder.len() && (#[trigger] folder[i]).1@ == path
}

/// An entry after the `k`-th one of the folder has the path.
pub open spec fn later_in_folder(folder: Seq<(String, String)>, k: int, path: Seq<char>) -> bool {
    exists|m: int| k < m < folder.len() && (#[trigger] folder[m]).1@ == path
}

/// The icon has the path.
pub open spec fn has_path(icon: IconState, path: Seq<char>) -> bool {
    icon.path matches Some(q) && q@ == path
}

/// One of the first `n` icons has the path.
pub open spec fn earlier_has(icons: Seq<IconState>, n: int, path: Seq<char>) -> bool {
    exists|j: int| 0 <= j < n && j < icons.len() && has_path(#[trigger] icons[j], path)
}

/// Some icon has the path.
pub open spec fn icons_have(icons: Seq<IconState>, path: Seq<char>) -> bool {
    earlier_has(icons, icons.len() as int, path)
}

/// Whether the `i`-th icon of the fence is kept: it has a path, the folder still
/// has that file, and no earlier icon has already claimed the file.
pub open spec fn keeps_icon(icons: Seq<IconState>, i: int, folder: Seq<(String, String)>) -> bool {
    &&& icons[i].path is Some
    &&& folder_has(folder, path_or_empty(icons[i].path))
    &&& !earlier_has(icons, i, path_or_empty(icons[i].path))
}

/// The row for the `i`-th icon already in the fence: kept or removed as
/// `keeps_icon` says.
pub open spec fn existing_row(icons: Seq<IconState>, i: int, folder: Seq<(String, String)>) -> (Seq<char>, Seq<char>, u32) {
    (
        icons[i].title@,
        path_or_empty(icons[i].path),
        if keeps_icon(icons, i, folder) { ACTION_KEEP } else { ACTION_REMOVE },
    )
}

/// The rows for the first `k` folder entries whose file no icon of the fence has,
/// in folder order, all kept; of entries with the same path, only the last.
pub open spec fn new_rows(folder: Seq<(String, String)>, icons: Seq<IconState>, k: int) -> Seq<(Seq<char>, Seq<char>, u32)>
    decreases k,
{
    if k <= 0 {
        Seq::empty()
    } else {
        let e = folder[k - 1];
        let rest = new_rows(folder, icons, k - 1);
        if icons_have(icons, e.1@) || later_in_folder(folder, k - 1, e.1@) {
            rest
        } else {
            rest.push((e.0@, e.1@, ACTION_KEEP))
        }
    }
}

/// The rows of the import list for a fence with `icons` and a folder with the
/// entries `folder` (`(title, path)` each): one row per icon in fence order, then
/// one per file of the folder that no icon has.
pub open spec fn spec_import_items(icons: Seq<IconState>, folder: Seq<(String, String)>) -> Seq<(Seq<char>, Seq<char>, u32)> {
    Seq::new(icons.len(), |i: int| existing_row(icons, i, folder)) + new_rows(folder, icons, folder.len() as int)
}

/// The folder entry at `j` is the last one with the path.
pub open spec fn last_with_path(folder: Seq<(String, String)>, j: int, path: Seq<char>) -> bool {
    0 <= j < folder.len() && folder[j].1@ == path && !later_in_folder(folder, j, path)
}

/// One of the first `k` folder entries is the last one with the path.
pub open spec fn last_before(folder: Seq<(String, String)>, k: int, path: Seq<char>) -> bool {
    exists|e: int| e < k && #[trigger] last_with_path(folder, e, path)
}

proof fn lemma_new_rows_kept(folder: Seq<(String, String)>, icons: Seq<IconState>, k: int)
    requires
        0 <= k <= folder.len(),
    ensures
        forall|j: int| 0 <= j < new_rows(folder, icons, k).len() ==> (#[trigger] new_rows(folder, icons, k)[j]).2 == ACTION_KEEP
            && folder_has(folder, new_rows(folder, icons, k)[j].1) && !icons_have(icons, new_rows(folder, icons, k)[j].1),
        forall|j: int|
            0 <= j < new_rows(folder, icons, k).len() ==> last_before(
                folder,
                k,
                (#[trigger] new_rows(folder, icons, k)[j]).1,
            ),
        forall|j: int, m: int|
            0 <= j < m < new_rows(folder, icons, k).len() ==> (#[trigger] new_rows(folder, icons, k)[j]).1
                != (#[trigger] new_rows(folder, icons, k)[m]).1,
    decreases k,
{
    if k > 0 {
        lemma_new_rows_kept(folder, icons, k - 1);
        let rest = new_rows(folder, icons, k - 1);
        let all = new_rows(folder, icons, k);
        let e = folder[k - 1];
        assert(folder_has(folder, e.1@));
        assert forall|j: int| 0 <= j < all.len() implies (#[trigger] all[j]).2 == ACTION_KEEP && folder_has(
            folder,
            all[j].1,
        ) && !icons_have(icons, all[j].1) by {
            if j < rest.len() {
                assert(all[j] == rest[j]);
            }
        }
        assert forall|j: int| 0 <= j < all.len() implies last_before(folder, k, (#[trigger] all[j]).1) by {
            if j < rest.len() {
                assert(all[j] == rest[j]);
            } else {
                assert(last_with_path(folder, k - 1, all[j].1));
            }
        }
        if all.len() > rest.len() {
            assert forall|j: int| 0 <= j < rest.len() implies (#[trigger] rest[j]).1 != e.1@ by {
                assert(last_before(folder, k - 1, rest[j].1));
                let x = choose|x: int| x < k - 1 && #[trigger] last_with_path(folder, x, rest[j].1);
                if rest[j].1 == e.1@ {
                    assert(folder[k - 1].1@ == rest[j].1);
                    assert(later_in_folder(folder, x, rest[j].1));
                }
            }
        }
        assert forall|j: int, m: int| 0 <= j < m < all.len() implies (#[trigger] all[j]).1 != (
        #[trigger] all[m]).1 by {
            assert(all[j] == rest[j]);
            if m < rest.len() {
                assert(all[m] == rest[m]);
            }
        }
    }
}

/// The import list keeps an icon of the fence exactly when it has a path, the
/// folder still has that file and no earlier icon has the same path; every other
/// row is a file of the folder that no icon has, kept, and no two of those rows
/// have the same path.
pub proof fn lemma_import_rows(icons: Seq<IconState>, folder: Seq<(String, String)>)
    ensures
        ({
            let rows = spec_import_items(icons, folder);
            &&& rows.len() >= icons.len()
            &&& forall|i: int|
                0 <= i < icons.len() ==> ((#[trigger] rows[i]).2 == ACTION_KEEP <==> icons[i].path is Some
                    && folder_has(folder, path_or_empty(icons[i].path)) && !earlier_has(
                    icons,
                    i,
                    path_or_empty(icons[i].path),
                ))
            &&& forall|j: int|
                icons.len() <= j < rows.len() ==> (#[trigger] rows[j]).2 == ACTION_KEEP && folder_has(folder, rows[j].1)
                    && !icons_have(icons, rows[j].1)
            &&& forall|j: int, m: int|
                icons.len() <= j < m < rows.len() ==> (#[trigger] rows[j]).1 != (#[trigger] rows[m]).1
        }),
{
    lemma_new_rows_kept(folder, icons, folder.len() as int);
    let rows = spec_import_items(icons, folder);
    let added = new_rows(folder, icons, folder.len() as int);
    assert forall|j: int| icons.len() <= j < rows.len() implies (#[trigger] rows[j]).2 == ACTION_KEEP && folder_has(folder, rows[j].1)
        && !icons_have(icons, rows[j].1) by {
        assert(rows[j] == added[j - icons.len()]);
    }
    assert forall|j: int, m: int| icons.len() <= j < m < rows.len() implies (#[trigger] rows[j]).1 != (
    #[trigger] rows[m]).1 by {
        assert(rows[j] == added[j - icons.len()]);
        assert(rows[m] == added[m - icons.len()]);
    }
}

fn icon_path_or_empty(icon: &IconState) -> (r: String)
    ensures
        r@ == path_or_empty(icon.path),
{
    match &icon.path {
        Some(p) => p.clone(),
        None => String::new(),
    }
}

fn folder_contains(folder: &Vec<(String, String)>, path: &String) -> (r: bool)
    ensures
        r == folder_has(folder@, path@),
{
    let mut i: usize = 0;
    while i < folder.len()
        invariant
            i <= folder@.len(),
            forall|j: int| 0 <= j < i ==> (#[trigger] folder@[j]).1@ != path@,
        decreases folder@.len() - i,
    {
        if folder[i].1 == *path {
            return true;
        }
        i = i + 1;
    }
    false
}

fn folder_contains_after(folder: &Vec<(String, String)>, k: usize, path: &String) -> (r: bool)
    ensures
        r == later_in_folder(folder@, k as int, path@),
{
    if k >= folder.len() {
        return false;
    }
    let mut i: usize = k + 1;
    while i < folder.len()
        invariant
            k < i <= folder@.len(),
            forall|m: int| k < m < i ==> (#[trigger] folder@[m]).1@ != path@,
        decreases folder@.len() - i,
    {
        if folder[i].1 == *path {
            return true;
        }
        i = i + 1;
    }
    false
}

fn icons_contain(icons: &Vec<IconState>, n: usize, path: &String) -> (r: bool)
    ensures
        r == earlier_has(icons@, n as int, path@),
{
    let mut i: usize = 0;
    while i < n && i < icons.len()
        invariant
            forall|j: int| 0 <= j < i && j < icons@.len() ==> !has_path(#[trigger] icons@[j], path@),
        decreases icons@.len() - i,
    {
        let found = match &icons[i].path {
            Some(q) => *q == *path,
            None => false,
        };
        if found {
            return true;
        }
        i = i + 1;
    }
    false
}

/// The import list for a fence with `icons` and a folder whose entries are
/// `folder` (`(title, path)` each, in the order the folder lists them).
pub fn import_items(icons: &Vec<IconState>, folder: &Vec<(String, String)>) -> (r: Vec<ImportItem>)
    ensures
        r@.len() == spec_import_items(icons@, folder@).len(),
        forall|i: int| 0 <= i < r@.len() ==> #[trigger] r@[i]@ == spec_import_items(icons@, folder@)[i],
{
    let ghost existing = Seq::new(icons@.len(), |i: int| existing_row(icons@, i, folder@));
    let mut out: Vec<ImportItem> = Vec::new();
    let mut i: usize = 0;
    while i < icons.len()
        invariant
            i <= icons@.len(),
            existing == Seq::new(icons@.len(), |i: int| existing_row(icons@, i, folder@)),
            out@.len() == i,
            forall|j: int| 0 <= j < i ==> #[trigger] out@[j]@ == existing[j],
        decreases icons@.len() - i,
    {
        let path = icon_path_or_empty(&icons[i]);
        let keep = icons[i].path.is_some() && folder_contains(folder, &path) && !icons_contain(
            icons,
            i,
            &path,
        );
        out.push(
            ImportItem {
                title: icons[i].title.clone(),
                path,
                action: if keep { ACTION_KEEP } else { ACTION_REMOVE },
            },
        );
        i = i + 1;
    }
    let mut k: usize = 0;
    while k < folder.len()
        invariant
            k <= folder@.len(),
            existing == Seq::new(icons@.len(), |i: int| existing_row(icons@, i, folder@)),
            out@.len() == existing.len() + new_rows(folder@, icons@, k as int).len(),
            forall|j: int| 0 <= j < out@.len() ==> #[trigger] out@[j]@ == (existing + new_rows(folder@, icons@, k as int))[j],
        decreases folder@.len() - k,
    {
        let ghost prev = new_rows(folder@, icons@, k as int);
        let already = icons_contain(icons, icons.len(), &folder[k].1) || folder_contains_after(
            folder,
            k,
            &folder[k].1,
        );
        if !already {
            out.push(
                ImportItem { title: folder[k].0.clone(), path: folder[k].1.clone(), action: ACTION_KEEP },
            );
            proof {
                assert(new_rows(folder@, icons@, k + 1) == prev.push((folder@[k as int].0@, folder@[k as int].1@, ACTION_KEEP)));
                assert(existing + prev.push((folder@[k as int].0@, folder@[k as int].1@, ACTION_KEEP)) =~= (existing + prev).push(
                    (folder@[k as int].0@, folder@[k as int].1@, ACTION_KEEP),
                ));
            }
        } else {
            assert(new_rows(folder@, icons@, k + 1) == prev);
        }
        k = k + 1;
    }
    out
}

/// The label of an action in the list.
pub fn action_label(action: u32) -> (r: &'static str)
    ensures
        r@ == (if action == ACTION_KEEP { "Keep"@ } else { "Remove"@ }),
{
    if action == ACTION_KEEP {
        "Keep"
    } else {
        "Remove"
    }
}

/// What `str::to_lowercase` gives for a string.
pub uninterp spec fn spec_to_lowercase(s: Seq<char>) -> Seq<char>;

/// `str::to_lowercase`: the string with every character lower-cased as Unicode
/// defines it. Its result is named by `spec_to_lowercase`; nothing more of it is
/// stated.
#[verifier::external_body]
fn to_lowercase(s: &str) -> (r: String)
    ensures
        r@ == spec_to_lowercase(s@),
{
    s.to_lowercase()
}

/// The UTF-8 bytes `b` end with `.lnk`.
pub open spec fn ends_with_lnk(b: Seq<u8>) -> bool {
    b.len() >= 4 && b.subrange(b.len() - 4, b.len() as int) == seq![46u8, 108u8, 110u8, 107u8]
}

/// A path is a shortcut: lower-cased, it ends with `.lnk`.
pub open spec fn is_shortcut(path: Seq<char>) -> bool {
    ends_with_lnk(vstd::utf8::encode_utf8(spec_to_lowercase(path)))
}

/// Whether `path`, lower-cased, ends with `.lnk`.
pub fn is_shortcut_path(path: &String) -> (r: bool)
    ensures
        r == is_shortcut(path@),
{
    let lower = to_lowercase(path.as_str());
    let b = lower.as_str().as_bytes();
    let n = b.len();
    if n < 4 {
        return false;
    }
    let r = b[n - 4] == 46u8 && b[n - 3] == 108u8 && b[n - 2] == 110u8 && b[n - 1] == 107u8;
    proof {
        let sub = b@.subrange(n - 4, n as int);
        if r {
            assert(sub =~= seq![46u8, 108u8, 110u8, 107u8]);
        } else {
            assert(sub[0] != 46u8 || sub[1] != 108u8 || sub[2] != 110u8 || sub[3] != 107u8);
        }
    }
    r
}

} // verus!

verus! {

/// The action a row gets when toggled: remove for a kept row, keep otherwise.
pub open spec fn flip_action(a: u32) -> u32 {
    if a == ACTION_KEEP {
        ACTION_REMOVE
    } else {
        ACTION_KEEP
    }
}

/// Toggling a row twice gives it back its action, whether it was kept or removed.
pub proof fn lemma_toggle_twice(a: u32)
    requires
        a == ACTION_KEEP || a == ACTION_REMOVE,
    ensures
        flip_action(flip_action(a)) == a,
{
}

/// The import dialog's list: the rows, which of them are shown (the list view's
/// row `r` is `items[visible_indices[r]]`), and whether only shortcuts are shown.
pub struct ImportList {
    pub items: Vec<ImportItem>,
    pub visible_indices: Vec<usize>,
    pub show_lnk_only: bool,
}

/// The indices of the rows among the first `k` that are shown: all of them, or
/// only the shortcuts when `lnk_only`.
pub open spec fn shown(items: Seq<ImportItem>, lnk_only: bool, k: int) -> Seq<usize>
    decreases k,
{
    if k <= 0 {
        Seq::empty()
    } else {
        let rest = shown(items, lnk_only, k - 1);
        if !lnk_only || is_shortcut(items[k - 1].path@) {
            rest.push((k - 1) as usize)
        } else {
            rest
        }
    }
}

proof fn lemma_shown_bound(items: Seq<ImportItem>, lnk_only: bool, k: int)
    requires
        0 <= k <= usize::MAX + 1,
    ensures
        forall|r: int| 0 <= r < shown(items, lnk_only, k).len() ==> (#[trigger] shown(items, lnk_only, k)[r]) < k,
    decreases k,
{
    if k > 0 {
        lemma_shown_bound(items, lnk_only, k - 1);
        let rest = shown(items, lnk_only, k - 1);
        let all = shown(items, lnk_only, k);
        assert forall|r: int| 0 <= r < all.len() implies (#[trigger] all[r]) < k by {
            if r < rest.len() {
                assert(all[r] == rest[r]);
            }
        }
    }
}

impl ImportList {
    /// Every shown index names a row.
    pub open spec fn well_formed(&self) -> bool {
        forall|r: int| 0 <= r < self.visible_indices@.len() ==> (#[trigger] self.visible_indices@[r]) < self.items@.len()
    }

    /// A list of `items` showing every row until it is first filled in.
    pub fn new(items: Vec<ImportItem>) -> (r: Self)
        ensures
            r.well_formed(),
            r.items@ == items@,
            r.visible_indices@.len() == 0,
            !r.show_lnk_only,
    {
        ImportList { items, visible_indices: Vec::new(), show_lnk_only: false }
    }

    /// Recomputes which rows are shown: all, or only shortcuts.
    pub fn populate_listview(&mut self)
        ensures
            final(self).items@ == old(self).items@,
            final(self).show_lnk_only == old(self).show_lnk_only,
            final(self).visible_indices@ == shown(old(self).items@, old(self).show_lnk_only, old(self).items@.len() as int),
            final(self).well_formed(),
    {
        let mut visible: Vec<usize> = Vec::new();
        let mut i: usize = 0;
        while i < self.items.len()
            invariant
                i <= self.items@.len(),
                visible@ == shown(self.items@, self.show_lnk_only, i as int),
            decreases self.items@.len() - i,
        {
            let show = if self.show_lnk_only {
                is_shortcut_path(&self.items[i].path)
            } else {
                true
            };
            if show {
                visible.push(i);
            }
            i = i + 1;
        }
        proof {
            lemma_shown_bound(self.items@, self.show_lnk_only, self.items@.len() as int);
        }
        self.visible_indices = visible;
    }

    /// Switches between showing every row and only shortcuts, then refills the list.
    pub fn toggle_show_lnk_only(&mut self)
        ensures
            final(self).items@ == old(self).items@,
            final(self).show_lnk_only == !old(self).show_lnk_only,
            final(self).visible_indices@ == shown(old(self).items@, !old(self).show_lnk_only, old(self).items@.len() as int),
            final(self).well_formed(),
    {
        self.show_lnk_only = !self.show_lnk_only;
        self.populate_listview();
    }

    /// Flips the row shown at list position `sel` between keep and remove. `sel`
    /// is the selected list position, negative when none is selected. Returns the
    /// list position and the row's new action, or `None` when nothing changed.
    pub fn toggle_selected_action(&mut self, sel: isize) -> (r: Option<(usize, u32)>)
        requires
            old(self).well_formed(),
        ensures
            final(self).well_formed(),
            final(self).visible_indices@ == old(self).visible_indices@,
            final(self).show_lnk_only == old(self).show_lnk_only,
            final(self).items@.len() == old(self).items@.len(),
            sel < 0 || sel >= old(self).visible_indices@.len() ==> r is None && final(self).items@ == old(self).items@,
            0 <= sel < old(self).visible_indices@.len() ==> {
                let idx = old(self).visible_indices@[sel as int] as int;
                let before = old(self).items@[idx];
                let flipped = flip_action(before.action);
                &&& r == Some((sel as usize, flipped))
                &&& final(self).items@[idx]@ == (before.title@, before.path@, flipped)
                &&& forall|j: int| 0 <= j < final(self).items@.len() && j != idx ==> #[trigger] final(self).items@[j] == old(self).items@[j]
            },
    {
        if sel < 0 {
            return None;
        }
        let visible_idx = sel as usize;
        if visible_idx >= self.visible_indices.len() {
            return None;
        }
        let item_idx = self.visible_indices[visible_idx];
        let mut item = self.items.remove(item_idx);
        item.action = if item.action == ACTION_KEEP {
            ACTION_REMOVE
        } else {
            ACTION_KEEP
        };
        let action = item.action;
        self.items.insert(item_idx, item);
        Some((visible_idx, action))
    }

    /// The rows to import: those marked keep, in list order.
    pub fn do_import(&self) -> (r: Vec<ImportItem>)
        ensures
            r@.len() == self.items@.filter(|it: ImportItem| it.action == ACTION_KEEP).len(),
            forall|i: int| 0 <= i < r@.len() ==> #[trigger] r@[i]@ == self.items@.filter(|it: ImportItem| it.action == ACTION_KEEP)[i]@,
    {
        let mut kept: Vec<ImportItem> = Vec::new();
        let mut i: usize = 0;
        while i < self.items.len()
            invariant
                i <= self.items@.len(),
                kept@.len() == self.items@.take(i as int).filter(|it: ImportItem| it.action == ACTION_KEEP).len(),
                forall|j: int| 0 <= j < kept@.len() ==> #[trigger] kept@[j]@ == self.items@.take(i as int).filter(|it: ImportItem| it.action == ACTION_KEEP)[j]@,
            decreases self.items@.len() - i,
        {
            let ghost f = |it: ImportItem| it.action == ACTION_KEEP;
            proof {
                assert(self.items@.take(i + 1).drop_last() =~= self.items@.take(i as int));
                reveal_with_fuel(Seq::<ImportItem>::filter, 1);
            }
            if self.items[i].action == ACTION_KEEP {
                kept.push(self.items[i].copy());
            }
            i = i + 1;
        }
        assert(self.items@.take(self.items@.len() as int) =~= self.items@);
        kept
    }
}

/// The icons an import leaves in a fence: one per kept row, in list order,
/// titled and pointing at the row's file.
pub open spec fn imported_icons(kept: Seq<ImportItem>) -> Seq<(Seq<char>, Option<Seq<char>>)> {
    kept.map_values(|it: ImportItem| (it.title@, Some(it.path@)))
}

impl FenceState {
    /// Applies a confirmed import: the fence's icons are replaced by the kept
    /// rows, in order.
    pub fn apply_import(&mut self, kept: &Vec<ImportItem>)
        ensures
            icons_view(final(self).icons@) == imported_icons(kept@),
            final(self).title == old(self).title,
            final(self).area == old(self).area,
            final(self).imported_from == old(self).imported_from,
            final(self).sticky_pos == old(self).sticky_pos,
    {
        let mut icons: Vec<IconState> = Vec::new();
        let mut i: usize = 0;
        while i < kept.len()
            invariant
                i <= kept@.len(),
                icons_view(icons@) == imported_icons(kept@.take(i as int)),
            decreases kept@.len() - i,
        {
            let icon = IconState { title: kept[i].title.clone(), path: Some(kept[i].path.clone()) };
            let ghost before = icons@;
            let ghost v = icon_view(icon);
            icons.push(icon);
            proof {
                assert(v == (kept@[i as int].title@, Some(kept@[i as int].path@)));
                assert(kept@.take(i + 1) =~= kept@.take(i as int).push(kept@[i as int]));
                assert(icons_view(icons@) =~= icons_view(before).push(v));
                assert(imported_icons(kept@.take(i + 1)) =~= imported_icons(kept@.take(i as int)).push(v));
            }
            i = i + 1;
        }
        assert(kept@.take(kept@.len() as int) =~= kept@);
        self.icons = icons;
    }
}

} // verus!

