//! The fence and icon context menus, and what a fence does for each command
//! chosen from them.

use vstd::prelude::*;

use crate::config::state::FenceStickyPosition;
use crate::fence::hit::Hit;

verus! {

/// A command of the fence and icon context menus.
#[derive(Clone, Copy, Debug, PartialEq, Eq, Structural)]
pub enum FenceCommand {
    AddIcon,
    RenameFence,
    DeleteFence,
    RunIcon,
    RenameIcon,
    SetIconPath,
    DeleteIcon,
    Import,
    ImportFrom,
    /// Keep the fence at this screen corner, or at none.
    Sticky(Option<FenceStickyPosition>),
    OpenExplorer,
}

/// Menu command identifiers of the fence and icon context menus.
pub const IDM_ADD_ICON: usize = 1101;

pub const IDM_RENAME_FENCE: usize = 1102;

pub const IDM_DELETE_FENCE: usize = 1103;

pub const IDM_RUN_ICON: usize = 1104;

pub const IDM_RENAME_ICON: usize = 1105;

pub const IDM_SET_ICON_PATH: usize = 1106;

pub const IDM_DELETE_ICON: usize = 1107;

pub const IDM_IMPORT: usize = 1108;

pub const IDM_IMPORT_FROM: usize = 1109;

pub const IDM_STICKY_NONE: usize = 1110;

pub const IDM_STICKY_TOPLEFT: usize = 1111;

pub const IDM_STICKY_TOPRIGHT: usize = 1112;

pub const IDM_STICKY_BOTTOMLEFT: usize = 1113;

pub const IDM_STICKY_BOTTOMRIGHT: usize = 1114;

pub const IDM_OPEN_EXPLORER: usize = 1115;

/// The menu command identifier of a command.
pub open spec fn spec_command_id(cmd: FenceCommand) -> usize {
    match cmd {
        FenceCommand::AddIcon => IDM_ADD_ICON,
        FenceCommand::RenameFence => IDM_RENAME_FENCE,
        FenceCommand::DeleteFence => IDM_DELETE_FENCE,
        FenceCommand::RunIcon => IDM_RUN_ICON,
        FenceCommand::RenameIcon => IDM_RENAME_ICON,
        FenceCommand::SetIconPath => IDM_SET_ICON_PATH,
        FenceCommand::DeleteIcon => IDM_DELETE_ICON,
        FenceCommand::Import => IDM_IMPORT,
        FenceCommand::ImportFrom => IDM_IMPORT_FROM,
        FenceCommand::Sticky(None) => IDM_STICKY_NONE,
        FenceCommand::Sticky(Some(FenceStickyPosition::TopLeft)) => IDM_STICKY_TOPLEFT,
        FenceCommand::Sticky(Some(FenceStickyPosition::TopRight)) => IDM_STICKY_TOPRIGHT,
        FenceCommand::Sticky(Some(FenceStickyPosition::BottomLeft)) => IDM_STICKY_BOTTOMLEFT,
        FenceCommand::Sticky(Some(FenceStickyPosition::BottomRight)) => IDM_STICKY_BOTTOMRIGHT,
        FenceCommand::OpenExplorer => IDM_OPEN_EXPLORER,
    }
}

/// The command with menu identifier `id`, if any.
pub open spec fn spec_command_from_id(id: usize) -> Option<FenceCommand> {
    if id == IDM_ADD_ICON {
        Some(FenceCommand::AddIcon)
    } else if id == IDM_RENAME_FENCE {
        Some(FenceCommand::RenameFence)
    } else if id == IDM_DELETE_FENCE {
        Some(FenceCommand::DeleteFence)
    } else if id == IDM_RUN_ICON {
        Some(FenceCommand::RunIcon)
    } else if id == IDM_RENAME_ICON {
        Some(FenceCommand::RenameIcon)
    } else if id == IDM_SET_ICON_PATH {
        Some(FenceCommand::SetIconPath)
    } else if id == IDM_DELETE_ICON {
        Some(FenceCommand::DeleteIcon)
    } else if id == IDM_IMPORT {
        Some(FenceCommand::Import)
    } else if id == IDM_IMPORT_FROM {
        Some(FenceCommand::ImportFrom)
    } else if id == IDM_STICKY_NONE {
        Some(FenceCommand::Sticky(None))
    } else if id == IDM_STICKY_TOPLEFT {
        Some(FenceCommand::Sticky(Some(FenceStickyPosition::TopLeft)))
    } else if id == IDM_STICKY_TOPRIGHT {
        Some(FenceCommand::Sticky(Some(FenceStickyPosition::TopRight)))
    } else if id == IDM_STICKY_BOTTOMLEFT {
        Some(FenceCommand::Sticky(Some(FenceStickyPosition::BottomLeft)))
    } else if id == IDM_STICKY_BOTTOMRIGHT {
        Some(FenceCommand::Sticky(Some(FenceStickyPosition::BottomRight)))
    } else if id == IDM_OPEN_EXPLORER {
        Some(FenceCommand::OpenExplorer)
    } else {
        None
    }
}

impl FenceCommand {
    /// The menu command identifier of this command.
    pub fn id(&self) -> (r: usize)
        ensures
            r == spec_command_id(*self),
    {
        match self {
            FenceCommand::AddIcon => IDM_ADD_ICON,
            FenceCommand::RenameFence => IDM_RENAME_FENCE,
            FenceCommand::DeleteFence => IDM_DELETE_FENCE,
            FenceCommand::RunIcon => IDM_RUN_ICON,
            FenceCommand::RenameIcon => IDM_RENAME_ICON,
            FenceCommand::SetIconPath => IDM_SET_ICON_PATH,
            FenceCommand::DeleteIcon => IDM_DELETE_ICON,
            FenceCommand::Import => IDM_IMPORT,
            FenceCommand::ImportFrom => IDM_IMPORT_FROM,
            FenceCommand::Sticky(None) => IDM_STICKY_NONE,
            FenceCommand::Sticky(Some(FenceStickyPosition::TopLeft)) => IDM_STICKY_TOPLEFT,
            FenceCommand::Sticky(Some(FenceStickyPosition::TopRight)) => IDM_STICKY_TOPRIGHT,
            FenceCommand::Sticky(Some(FenceStickyPosition::BottomLeft)) => IDM_STICKY_BOTTOMLEFT,
            FenceCommand::Sticky(Some(FenceStickyPosition::BottomRight)) => IDM_STICKY_BOTTOMRIGHT,
            FenceCommand::OpenExplorer => IDM_OPEN_EXPLORER,
        }
    }

    /// The command with menu identifier `id`, or `None` for an identifier that
    /// no entry of the menus has.
    pub fn from_id(id: usize) -> (r: Option<FenceCommand>)
        ensures
            r == spec_command_from_id(id),
    {
        if id == IDM_ADD_ICON {
            Some(FenceCommand::AddIcon)
        } else if id == IDM_RENAME_FENCE {
            Some(FenceCommand::RenameFence)
        } else if id == IDM_DELETE_FENCE {
            Some(FenceCommand::DeleteFence)
        } else if id == IDM_RUN_ICON {
            Some(FenceCommand::RunIcon)
        } else if id == IDM_RENAME_ICON {
            Some(FenceCommand::RenameIcon)
        } else if id == IDM_SET_ICON_PATH {
            Some(FenceCommand::SetIconPath)
        } else if id == IDM_DELETE_ICON {
            Some(FenceCommand::DeleteIcon)
        } else if id == IDM_IMPORT {
            Some(FenceCommand::Import)
        } else if id == IDM_IMPORT_FROM {
            Some(FenceCommand::ImportFrom)
        } else if id == IDM_STICKY_NONE {
            Some(FenceCommand::Sticky(None))
        } else if id == IDM_STICKY_TOPLEFT {
            Some(FenceCommand::Sticky(Some(FenceStickyPosition::TopLeft)))
        } else if id == IDM_STICKY_TOPRIGHT {
            Some(FenceCommand::Sticky(Some(FenceStickyPosition::TopRight)))
        } else if id == IDM_STICKY_BOTTOMLEFT {
            Some(FenceCommand::Sticky(Some(FenceStickyPosition::BottomLeft)))
        } else if id == IDM_STICKY_BOTTOMRIGHT {
            Some(FenceCommand::Sticky(Some(FenceStickyPosition::BottomRight)))
        } else if id == IDM_OPEN_EXPLORER {
            Some(FenceCommand::OpenExplorer)
        } else {
            None
        }
    }
}

/// Each command's identifier names that command, and an identifier names only
/// the command whose identifier it is: distinct commands have distinct ones.
pub proof fn lemma_command_ids(cmd: FenceCommand, id: usize)
    ensures
        spec_command_from_id(spec_command_id(cmd)) == Some(cmd),
        spec_command_from_id(id) matches Some(c) ==> spec_command_id(c) == id,
{
}

/// What a fence does for a command.
#[derive(Clone, Copy, Debug, PartialEq, Eq, Structural)]
pub enum CommandAction {
    /// Add an icon with an empty title and no path.
    AddIcon,
    /// Ask for a new fence title, then rename the fence.
    PromptRenameFence,
    /// Ask whether to delete the fence, then delete it.
    ConfirmDeleteFence,
    /// Run the icon with this index.
    RunIcon(usize),
    /// Ask for a new title of the icon with this index.
    PromptRenameIcon(usize),
    /// Let the user pick the file of the icon with this index.
    SelectIconPath(usize),
    /// Ask whether to delete the icon with this index, then delete it.
    ConfirmDeleteIcon(usize),
    /// Show the import dialog for the folder the fence was imported from.
    ShowImportDialog,
    /// Ask for a folder, then show the import dialog for it.
    PromptImportFolder,
    /// Set the fence's sticky corner.
    SetSticky(Option<FenceStickyPosition>),
    /// Open the folder the fence was imported from.
    OpenExplorer,
    /// Nothing to do.
    Nothing,
}

/// The action for `cmd`, chosen while the mouse was on `hit`, for a fence that
/// was imported from a folder when `imported`; and whether the state must be
/// saved right away.
pub open spec fn spec_plan_command(cmd: FenceCommand, hit: Hit, imported: bool) -> (
    CommandAction,
    bool,
) {
    match cmd {
        FenceCommand::AddIcon => (CommandAction::AddIcon, true),
        FenceCommand::RenameFence => (CommandAction::PromptRenameFence, false),
        FenceCommand::DeleteFence => (CommandAction::ConfirmDeleteFence, false),
        FenceCommand::RunIcon => match hit {
            Hit::Icon(i) => (CommandAction::RunIcon(i), false),
            _ => (CommandAction::Nothing, false),
        },
        FenceCommand::RenameIcon => match hit {
            Hit::Icon(i) => (CommandAction::PromptRenameIcon(i), false),
            _ => (CommandAction::Nothing, false),
        },
        FenceCommand::SetIconPath => match hit {
            Hit::Icon(i) => (CommandAction::SelectIconPath(i), true),
            _ => (CommandAction::Nothing, false),
        },
        FenceCommand::DeleteIcon => match hit {
            Hit::Icon(i) => (CommandAction::ConfirmDeleteIcon(i), false),
            _ => (CommandAction::Nothing, false),
        },
        FenceCommand::Import => if imported {
            (CommandAction::ShowImportDialog, true)
        } else {
            (CommandAction::PromptImportFolder, true)
        },
        FenceCommand::ImportFrom => (CommandAction::PromptImportFolder, true),
        FenceCommand::Sticky(p) => (CommandAction::SetSticky(p), true),
        FenceCommand::OpenExplorer => if imported {
            (CommandAction::OpenExplorer, false)
        } else {
            (CommandAction::Nothing, false)
        },
    }
}

/// Decides what a fence does for the command `cmd` chosen from a context menu
/// that was opened on `hit`; `imported` tells whether the fence has a folder it
/// was imported from. The second value tells whether the state must be saved now
/// (the prompting actions save once the user has answered).
pub fn plan_command(cmd: FenceCommand, hit: Hit, imported: bool) -> (r: (CommandAction, bool))
    ensures
        r == spec_plan_command(cmd, hit, imported),
{
    match cmd {
        FenceCommand::AddIcon => (CommandAction::AddIcon, true),
        FenceCommand::RenameFence => (CommandAction::PromptRenameFence, false),
        FenceCommand::DeleteFence => (CommandAction::ConfirmDeleteFence, false),
        FenceCommand::RunIcon => match hit {
            Hit::Icon(i) => (CommandAction::RunIcon(i), false),
            _ => (CommandAction::Nothing, false),
        },
        FenceCommand::RenameIcon => match hit {
            Hit::Icon(i) => (CommandAction::PromptRenameIcon(i), false),
            _ => (CommandAction::Nothing, false),
        },
        FenceCommand::SetIconPath => match hit {
            Hit::Icon(i) => (CommandAction::SelectIconPath(i), true),
            _ => (CommandAction::Nothing, false),
        },
        FenceCommand::DeleteIcon => match hit {
            Hit::Icon(i) => (CommandAction::ConfirmDeleteIcon(i), false),
            _ => (CommandAction::Nothing, false),
        },
        FenceCommand::Import => {
            if imported {
                (CommandAction::ShowImportDialog, true)
            } else {
                (CommandAction::PromptImportFolder, true)
            }
        },
        FenceCommand::ImportFrom => (CommandAction::PromptImportFolder, true),
        FenceCommand::Sticky(p) => (CommandAction::SetSticky(p), true),
        FenceCommand::OpenExplorer => {
            if imported {
                (CommandAction::OpenExplorer, false)
            } else {
                (CommandAction::Nothing, false)
            }
        },
    }
}

/// The command acts on an icon of the fence.
pub open spec fn is_icon_command(cmd: FenceCommand) -> bool {
    cmd == FenceCommand::RunIcon || cmd == FenceCommand::RenameIcon || cmd == FenceCommand::SetIconPath
        || cmd == FenceCommand::DeleteIcon
}

/// The icon an action works on, if any.
pub open spec fn action_icon(a: CommandAction) -> Option<usize> {
    match a {
        CommandAction::RunIcon(i) => Some(i),
        CommandAction::PromptRenameIcon(i) => Some(i),
        CommandAction::SelectIconPath(i) => Some(i),
        CommandAction::ConfirmDeleteIcon(i) => Some(i),
        _ => None,
    }
}

/// How a command's outcome depends on where the menu was opened and on whether
/// the fence was imported from a folder:
/// - only "Import" and "Open in Explorer" look at whether the fence was imported,
///   and only the icon commands look at what was hit;
/// - "Import from..." always asks for a folder and saves; "Import" asks for a
///   folder exactly when the fence has none, and otherwise shows the import
///   dialog for it; "Open in Explorer" opens the folder when there is one and
///   does nothing otherwise;
/// - an icon command works on the icon the menu was opened on, and on anything
///   else does nothing and saves nothing; no other command works on an icon.
pub proof fn lemma_plan_command_inputs(cmd: FenceCommand, hit: Hit, imported: bool)
    ensures
        !(cmd == FenceCommand::Import || cmd == FenceCommand::OpenExplorer) ==> spec_plan_command(
            cmd,
            hit,
            imported,
        ) == spec_plan_command(cmd, hit, !imported),
        !is_icon_command(cmd) ==> spec_plan_command(cmd, hit, imported) == spec_plan_command(
            cmd,
            Hit::Client,
            imported,
        ),
        spec_plan_command(FenceCommand::ImportFrom, hit, imported) == (
            CommandAction::PromptImportFolder,
            true,
        ),
        spec_plan_command(FenceCommand::Import, hit, imported) == (if imported {
            (CommandAction::ShowImportDialog, true)
        } else {
            (CommandAction::PromptImportFolder, true)
        }),
        spec_plan_command(FenceCommand::OpenExplorer, hit, imported).0 == (if imported {
            CommandAction::OpenExplorer
        } else {
            CommandAction::Nothing
        }),
        is_icon_command(cmd) ==> (match hit {
            Hit::Icon(i) => action_icon(spec_plan_command(cmd, hit, imported).0) == Some(i),
            _ => spec_plan_command(cmd, hit, imported) == (CommandAction::Nothing, false),
        }),
        !is_icon_command(cmd) ==> action_icon(spec_plan_command(cmd, hit, imported).0) is None,
{
}

/// The title a rename prompt's answer gives: the answer, unless the prompt was
/// cancelled or the answer is empty, in which case nothing is renamed.
pub fn accepted_title(answer: Option<String>) -> (r: Option<String>)
    ensures
        match answer {
            Some(t) => if t@.len() > 0 {
                r is Some && r.unwrap()@ == t@
            } else {
                r is None
            },
            None => r is None,
        },
{
    match answer {
        Some(t) => {
            if !t.as_str().is_empty() {
                Some(t)
            } else {
                None
            }
        },
        None => None,
    }
}

/// One entry of a context menu.
#[derive(Clone, Copy, Debug, PartialEq, Eq, Structural)]
pub struct MenuItem {
    pub command: FenceCommand,
    /// Shown disabled.
    pub grayed: bool,
    /// Shown with a check mark.
    pub checked: bool,
}

/// The fence's context menu: `head`, a separator, the "Sticky position" submenu
/// holding `sticky`, then `tail`.
pub struct FenceMenu {
    pub head: Vec<MenuItem>,
    pub sticky: Vec<MenuItem>,
    pub tail: Vec<MenuItem>,
}

/// A plain, enabled, unchecked entry.
pub open spec fn plain(command: FenceCommand) -> MenuItem {
    MenuItem { command, grayed: false, checked: false }
}

/// The sticky corners in the order the submenu lists them.
pub open spec fn sticky_choices() -> Seq<Option<FenceStickyPosition>> {
    seq![
        None,
        Some(FenceStickyPosition::TopLeft),
        Some(FenceStickyPosition::TopRight),
        Some(FenceStickyPosition::BottomLeft),
        Some(FenceStickyPosition::BottomRight),
    ]
}

/// The submenu entry for the corner `p` when the fence's corner is `current`.
pub open spec fn sticky_item(p: Option<FenceStickyPosition>, current: Option<FenceStickyPosition>) -> MenuItem {
    MenuItem { command: FenceCommand::Sticky(p), grayed: false, checked: p == current }
}

fn make_sticky_item(p: Option<FenceStickyPosition>, current: Option<FenceStickyPosition>) -> (r: MenuItem)
    ensures
        r == sticky_item(p, current),
{
    MenuItem { command: FenceCommand::Sticky(p), grayed: false, checked: p == current }
}

/// Builds the fence's context menu. "Open in Explorer" is disabled when the
/// fence was not imported from a folder, and the sticky submenu checks the
/// fence's current corner.
pub fn fence_menu(imported: bool, current: Option<FenceStickyPosition>) -> (r: FenceMenu)
    ensures
        r.head@ == seq![
            plain(FenceCommand::Import),
            plain(FenceCommand::ImportFrom),
            MenuItem { command: FenceCommand::OpenExplorer, grayed: !imported, checked: false },
            plain(FenceCommand::AddIcon),
        ],
        r.sticky@ == sticky_choices().map_values(|p| sticky_item(p, current)),
        r.tail@ == seq![plain(FenceCommand::RenameFence), plain(FenceCommand::DeleteFence)],
{
    let head = vec![
        MenuItem { command: FenceCommand::Import, grayed: false, checked: false },
        MenuItem { command: FenceCommand::ImportFrom, grayed: false, checked: false },
        MenuItem { command: FenceCommand::OpenExplorer, grayed: !imported, checked: false },
        MenuItem { command: FenceCommand::AddIcon, grayed: false, checked: false },
    ];
    let sticky = vec![
        make_sticky_item(None, current),
        make_sticky_item(Some(FenceStickyPosition::TopLeft), current),
        make_sticky_item(Some(FenceStickyPosition::TopRight), current),
        make_sticky_item(Some(FenceStickyPosition::BottomLeft), current),
        make_sticky_item(Some(FenceStickyPosition::BottomRight), current),
    ];
    let tail = vec![
        MenuItem { command: FenceCommand::RenameFence, grayed: false, checked: false },
        MenuItem { command: FenceCommand::DeleteFence, grayed: false, checked: false },
    ];
    assert(sticky@ =~= sticky_choices().map_values(|p| sticky_item(p, current)));
    FenceMenu { head, sticky, tail }
}

/// Builds an icon's context menu: run, rename, set path, delete.
pub fn icon_menu() -> (r: Vec<MenuItem>)
    ensures
        r@ == seq![
            plain(FenceCommand::RunIcon),
            plain(FenceCommand::RenameIcon),
            plain(FenceCommand::SetIconPath),
            plain(FenceCommand::DeleteIcon),
        ],
{
    vec![
        MenuItem { command: FenceCommand::RunIcon, grayed: false, checked: false },
        MenuItem { command: FenceCommand::RenameIcon, grayed: false, checked: false },
        MenuItem { command: FenceCommand::SetIconPath, grayed: false, checked: false },
        MenuItem { command: FenceCommand::DeleteIcon, grayed: false, checked: false },
    ]
}

/// The text a menu shows for `cmd` (`&` marks the access key).
pub open spec fn spec_command_label(cmd: FenceCommand) -> Seq<char> {
    match cmd {
        FenceCommand::AddIcon => "Add &icon"@,
        FenceCommand::RenameFence => "Re&name fence"@,
        FenceCommand::DeleteFence => "&Delete fence"@,
        FenceCommand::RunIcon => "&Run"@,
        FenceCommand::RenameIcon => "Re&name"@,
        FenceCommand::SetIconPath => "Set &path"@,
        FenceCommand::DeleteIcon => "&Delete"@,
        FenceCommand::Import => "&Import"@,
        FenceCommand::ImportFrom => "Import &from..."@,
        FenceCommand::Sticky(None) => "None"@,
        FenceCommand::Sticky(Some(FenceStickyPosition::TopLeft)) => "Top Left"@,
        FenceCommand::Sticky(Some(FenceStickyPosition::TopRight)) => "Top Right"@,
        FenceCommand::Sticky(Some(FenceStickyPosition::BottomLeft)) => "Bottom Left"@,
        FenceCommand::Sticky(Some(FenceStickyPosition::BottomRight)) => "Bottom Right"@,
        FenceCommand::OpenExplorer => "Open in Explorer"@,
    }
}

/// The text a menu shows for `cmd`.
pub fn command_label(cmd: FenceCommand) -> (r: &'static str)
    ensures
        r@ == spec_command_label(cmd),
{
    match cmd {
        FenceCommand::AddIcon => "Add &icon",
        FenceCommand::RenameFence => "Re&name fence",
        FenceCommand::DeleteFence => "&Delete fence",
        FenceCommand::RunIcon => "&Run",
        FenceCommand::RenameIcon => "Re&name",
        FenceCommand::SetIconPath => "Set &path",
        FenceCommand::DeleteIcon => "&Delete",
        FenceCommand::Import => "&Import",
        FenceCommand::ImportFrom => "Import &from...",
        FenceCommand::Sticky(None) => "None",
        FenceCommand::Sticky(Some(FenceStickyPosition::TopLeft)) => "Top Left",
        FenceCommand::Sticky(Some(FenceStickyPosition::TopRight)) => "Top Right",
        FenceCommand::Sticky(Some(FenceStickyPosition::BottomLeft)) => "Bottom Left",
        FenceCommand::Sticky(Some(FenceStickyPosition::BottomRight)) => "Bottom Right",
        FenceCommand::OpenExplorer => "Open in Explorer",
    }
}

/// The sticky submenu checks exactly one entry, the fence's current corner; and
/// choosing an entry makes its corner the current one, so the submenu built
/// next checks exactly that entry.
pub proof fn lemma_sticky_menu_checks_current(current: Option<FenceStickyPosition>, k: int)
    requires
        0 <= k < 5,
    ensures
        ({
            let items = sticky_choices().map_values(|p| sticky_item(p, current));
            &&& items.len() == 5
            &&& exists|j: int| 0 <= j < 5 && #[trigger] items[j].checked
                && items[j].command == FenceCommand::Sticky(current)
            &&& forall|i: int, j: int|
                0 <= i < 5 && 0 <= j < 5 && #[trigger] items[i].checked && #[trigger] items[j].checked ==> i == j
        }),
        ({
            let chosen = sticky_choices()[k];
            let next = sticky_choices().map_values(|p| sticky_item(p, chosen));
            &&& spec_plan_command(FenceCommand::Sticky(chosen), Hit::Client, false).0
                == CommandAction::SetSticky(chosen)
            &&& forall|j: int| 0 <= j < 5 ==> (#[trigger] next[j].checked <==> j == k)
        }),
{
    let c = sticky_choices();
    let items = c.map_values(|p| sticky_item(p, current));
    let j: int = match current {
        None => 0,
        Some(FenceStickyPosition::TopLeft) => 1,
        Some(FenceStickyPosition::TopRight) => 2,
        Some(FenceStickyPosition::BottomLeft) => 3,
        Some(FenceStickyPosition::BottomRight) => 4,
    };
    assert(items[j].checked);
    assert(forall|i: int, m: int| 0 <= i < 5 && 0 <= m < 5 && i != m ==> c[i] != c[m]);
}

} // verus!
