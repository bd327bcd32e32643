//! The desktop cover: its tray menu, what each of its commands does, and where a
//! new fence opens.

use vstd::prelude::*;

use crate::geo::{abs, div_i32, div_trunc};

verus! {

/// Width of a new fence.
pub const NEW_FENCE_WIDTH: i32 = 300;

/// Height of a new fence.
pub const NEW_FENCE_HEIGHT: i32 = 150;

/// A command of the tray icon's menu.
#[derive(Clone, Copy, Debug, PartialEq, Eq, Structural)]
pub enum CoverCommand {
    AddFence,
    AddFenceFromFolder,
    Reload,
    Exit,
}

/// Menu command identifiers of the tray menu.
pub const IDM_ADD_FENCE: usize = 1201;

pub const IDM_ADD_FENCE_FROM_FOLDER: usize = 1202;

pub const IDM_RELOAD: usize = 1203;

pub const IDM_EXIT: usize = 1204;

/// The menu command identifier of a tray command.
pub open spec fn spec_cover_command_id(cmd: CoverCommand) -> usize {
    match cmd {
        CoverCommand::AddFence => IDM_ADD_FENCE,
        CoverCommand::AddFenceFromFolder => IDM_ADD_FENCE_FROM_FOLDER,
        CoverCommand::Reload => IDM_RELOAD,
        CoverCommand::Exit => IDM_EXIT,
    }
}

/// The tray command with menu identifier `id`, if any.
pub open spec fn spec_cover_command_from_id(id: usize) -> Option<CoverCommand> {
    if id == IDM_ADD_FENCE {
        Some(CoverCommand::AddFence)
    } else if id == IDM_ADD_FENCE_FROM_FOLDER {
        Some(CoverCommand::AddFenceFromFolder)
    } else if id == IDM_RELOAD {
        Some(CoverCommand::Reload)
    } else if id == IDM_EXIT {
        Some(CoverCommand::Exit)
    } else {
        None
    }
}

impl CoverCommand {
    /// The menu command identifier of this command.
    pub fn id(&self) -> (r: usize)
        ensures
            r == spec_cover_command_id(*self),
    {
        match self {
            CoverCommand::AddFence => IDM_ADD_FENCE,
            CoverCommand::AddFenceFromFolder => IDM_ADD_FENCE_FROM_FOLDER,
            CoverCommand::Reload => IDM_RELOAD,
            CoverCommand::Exit => IDM_EXIT,
        }
    }

    /// The tray command with menu identifier `id`, or `None` for an identifier
    /// that no entry of the menu has.
    pub fn from_id(id: usize) -> (r: Option<CoverCommand>)
        ensures
            r == spec_cover_command_from_id(id),
    {
        if id == IDM_ADD_FENCE {
            Some(CoverCommand::AddFence)
        } else if id == IDM_ADD_FENCE_FROM_FOLDER {
            Some(CoverCommand::AddFenceFromFolder)
        } else if id == IDM_RELOAD {
            Some(CoverCommand::Reload)
        } else if id == IDM_EXIT {
            Some(CoverCommand::Exit)
        } else {
            None
        }
    }
}

/// Each tray command's identifier names that command, and an identifier names
/// only the command whose identifier it is.
pub proof fn lemma_cover_command_ids(cmd: CoverCommand, id: usize)
    ensures
        spec_cover_command_from_id(spec_cover_command_id(cmd)) == Some(cmd),
        spec_cover_command_from_id(id) matches Some(c) ==> spec_cover_command_id(c) == id,
{
}

/// What the cover does for a command of its menu.
#[derive(Clone, Copy, Debug, PartialEq, Eq, Structural)]
pub enum CoverAction {
    /// Open a new fence titled "Untitled" with its origin at `(x, y)`.
    AddFence { x: i32, y: i32 },
    /// Ask for a folder and open a fence holding its files.
    AddFenceFromFolder,
    /// Start a new instance of the program, then close this one.
    Reload,
    /// Close the cover, which ends the program.
    Exit,
}

/// The origin of a new fence on a `width` x `height` screen: its centre half
/// a fence from the middle of the screen.
pub open spec fn spec_new_fence_origin(width: i32, height: i32) -> (i32, i32) {
    (
        (div_trunc(width as int, 2) - NEW_FENCE_WIDTH / 2) as i32,
        (div_trunc(height as int, 2) - NEW_FENCE_HEIGHT / 2) as i32,
    )
}

/// The origin of a new fence on a `width` x `height` screen.
pub fn new_fence_origin(width: i32, height: i32) -> (r: (i32, i32))
    ensures
        r == spec_new_fence_origin(width, height),
        r.0 == div_trunc(width as int, 2) - 150,
        r.1 == div_trunc(height as int, 2) - 75,
{
    let hw = div_i32(width, 2);
    let hh = div_i32(height, 2);
    proof {
        lemma_half_bounds(width);
        lemma_half_bounds(height);
    }
    (hw - NEW_FENCE_WIDTH / 2, hh - NEW_FENCE_HEIGHT / 2)
}

proof fn lemma_half_bounds(v: i32)
    ensures
        -1073741824 <= div_trunc(v as int, 2) <= 1073741823,
{
    let a = abs(v as int);
    assert(0 <= a <= 2147483648);
    assert(a / 2 <= 1073741824) by (nonlinear_arith)
        requires
            0 <= a <= 2147483648,
    ;
    assert(v >= 0 ==> a / 2 <= 1073741823) by (nonlinear_arith)
        requires
            v >= 0 ==> a <= 2147483647,
            0 <= a,
    ;
    assert(abs(2) == 2);
}

/// The action for a command of the tray menu on a `width` x `height` screen, and
/// whether the state must be saved right away.
pub fn plan_cover_command(cmd: CoverCommand, width: i32, height: i32) -> (r: (CoverAction, bool))
    ensures
        r == (match cmd {
            CoverCommand::AddFence => {
                let (x, y) = spec_new_fence_origin(width, height);
                (CoverAction::AddFence { x, y }, true)
            },
            CoverCommand::AddFenceFromFolder => (CoverAction::AddFenceFromFolder, false),
            CoverCommand::Reload => (CoverAction::Reload, false),
            CoverCommand::Exit => (CoverAction::Exit, false),
        }),
{
    match cmd {
        CoverCommand::AddFence => {
            let (x, y) = new_fence_origin(width, height);
            (CoverAction::AddFence { x, y }, true)
        },
        CoverCommand::AddFenceFromFolder => (CoverAction::AddFenceFromFolder, false),
        CoverCommand::Reload => (CoverAction::Reload, false),
        CoverCommand::Exit => (CoverAction::Exit, false),
    }
}

/// The tray menu, in order.
pub fn cover_menu() -> (r: Vec<CoverCommand>)
    ensures
        r@ == seq![
            CoverCommand::AddFence,
            CoverCommand::AddFenceFromFolder,
            CoverCommand::Reload,
            CoverCommand::Exit,
        ],
{
    vec![CoverCommand::AddFence, CoverCommand::AddFenceFromFolder, CoverCommand::Reload, CoverCommand::Exit]
}

/// The text the tray menu shows for `cmd`.
pub fn cover_command_label(cmd: CoverCommand) -> (r: &'static str)
    ensures
        r@ == (match cmd {
            CoverCommand::AddFence => "&Add fence"@,
            CoverCommand::AddFenceFromFolder => "Add fence from &folder"@,
            CoverCommand::Reload => "&Reload"@,
            CoverCommand::Exit => "&Exit"@,
        }),
{
    match cmd {
        CoverCommand::AddFence => "&Add fence",
        CoverCommand::AddFenceFromFolder => "Add fence from &folder",
        CoverCommand::Reload => "&Reload",
        CoverCommand::Exit => "&Exit",
    }
}

/// The mouse message that releases the left button.
pub const WM_LBUTTONUP: u32 = 0x0202;

/// The mouse message that releases the right button.
pub const WM_RBUTTONUP: u32 = 0x0205;

/// A tray icon notification opens the menu when it reports either mouse button
/// released; the message is in the low 32 bits of `lparam`.
pub fn tray_opens_menu(lparam: isize) -> (r: bool)
    ensures
        r == (lparam as u32 == WM_LBUTTONUP || lparam as u32 == WM_RBUTTONUP),
{
    let m = lparam as u32;
    m == WM_RBUTTONUP || m == WM_LBUTTONUP
}

/// The title of a fence made from a folder: the folder's name, or "Folder Fence"
/// when the path has none.
pub fn folder_fence_title(folder_name: Option<&str>) -> (r: String)
    ensures
        r@ == (match folder_name {
            Some(n) => n@,
            None => "Folder Fence"@,
        }),
{
    match folder_name {
        Some(n) => n.to_string(),
        None => String::from_str("Folder Fence"),
    }
}

/// The flag of a window position change that keeps the size.
pub const SWP_NOSIZE: u32 = 0x0001;

/// A position change of the cover resizes it unless its flags say the size stays;
/// the desktop picture is taken again when it does.
pub fn pos_change_resizes(flags: u32) -> (r: bool)
    ensures
        r == (flags % 2 == 0),
{
    let r = flags & SWP_NOSIZE == 0;
    assert((flags & 1u32 == 0) == (flags % 2 == 0)) by (bit_vector);
    r
}

/// A new fence opens at the centre of the screen: its middle is the screen's
/// middle, rounded toward zero.
pub proof fn lemma_new_fence_centred(width: i32, height: i32)
    ensures
        spec_new_fence_origin(width, height).0 + NEW_FENCE_WIDTH / 2 == div_trunc(width as int, 2),
        spec_new_fence_origin(width, height).1 + NEW_FENCE_HEIGHT / 2 == div_trunc(height as int, 2),
{
    lemma_half_bounds(width);
    lemma_half_bounds(height);
}

} // verus!

