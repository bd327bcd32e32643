use rsfences::config::state::IconState;
use rsfences::cover::{
    cover_command_label, cover_menu, folder_fence_title, new_fence_origin, plan_cover_command, pos_change_resizes,
    tray_opens_menu, CoverAction, CoverCommand,
};
use rsfences::error::WinError;
use rsfences::fence::import::{
    action_label, import_command, import_items, is_shortcut_path, toggles_row, ImportCommand, ImportList, ACTION_KEEP,
    ACTION_REMOVE,
};
use rsfences::instance::{parse_pid, pid_file_content, plan_replace, wait_timed_out, InstanceError};
use rsfences::prompt::{clicked_button, dialog_origin, DialogButton, PromptState};
use rsfences::save::{SaveFlag, Tick};
use rsfences::text::{push_decimal, until_nul};

struct NoopWake;

impl std::task::Wake for NoopWake {
    fn wake(self: std::sync::Arc<Self>) {}
}

fn waker() -> std::task::Waker {
    std::sync::Arc::new(NoopWake).into()
}

fn icon(title: &str, path: Option<&str>) -> IconState {
    IconState { title: title.to_string(), path: path.map(|p| p.to_string()) }
}

fn rows(items: &[rsfences::fence::import::ImportItem]) -> Vec<(String, String, u32)> {
    items.iter().map(|i| (i.title.clone(), i.path.clone(), i.action)).collect()
}

#[test]
fn pid_file_roundtrip() {
    assert_eq!(pid_file_content(0), "0");
    assert_eq!(pid_file_content(4242), "4242");
    assert_eq!(pid_file_content(u32::MAX), "4294967295");
    for pid in [0u32, 7, 10, 12345, u32::MAX] {
        assert_eq!(parse_pid(&pid_file_content(pid)), Some(pid));
    }
}

#[test]
fn pid_file_parsing_trims_and_rejects() {
    assert_eq!(parse_pid("  1234\r\n"), Some(1234));
    assert_eq!(parse_pid("+17"), Some(17));
    assert_eq!(parse_pid(""), None);
    assert_eq!(parse_pid("   "), None);
    assert_eq!(parse_pid("12a"), None);
    assert_eq!(parse_pid("-5"), None);
    assert_eq!(parse_pid("+"), None);
    assert_eq!(parse_pid("4294967296"), None);
    assert_eq!(parse_pid("1 2"), None);
}

#[test]
fn replacing_a_running_instance() {
    assert_eq!(plan_replace(None, 0, false), Ok(false));
    assert_eq!(plan_replace(Some("garbage"), 0, false), Ok(false));
    assert_eq!(plan_replace(Some("42"), 42, true), Ok(true));
    assert_eq!(plan_replace(Some("42"), 7, true), Err(InstanceError::NotOwnedByPid));
    assert_eq!(plan_replace(Some("0"), 0, false), Err(InstanceError::CoverNotFound));
    assert_eq!(InstanceError::NotOwnedByPid.message(), "Handle not owned by PID");
    assert_eq!(InstanceError::CoverNotFound.message(), "Unable to find desktop cover class");
    assert_eq!(InstanceError::TimedOut.message(), "Timed out waiting for existing instance to exit");
    assert!(!wait_timed_out(2000));
    assert!(wait_timed_out(2001));
}

#[test]
fn win_error_message() {
    assert_eq!(WinError(5).message(), "Win32 error 5");
    assert_eq!(WinError(0).message(), "Win32 error 0");
    assert_eq!(WinError(-2147467259).message(), "Win32 error -2147467259");
    assert_eq!(WinError(i32::MIN).message(), "Win32 error -2147483648");
    assert_eq!(WinError(7), WinError(7));
}

#[test]
fn decimal_digits_append() {
    let mut s = String::from("n=");
    push_decimal(&mut s, 907);
    assert_eq!(s, "n=907");
}

#[test]
fn nul_ends_wide_text() {
    assert_eq!(until_nul(&[65, 66, 0, 67]), Some(2));
    assert_eq!(until_nul(&[0]), Some(0));
    assert_eq!(until_nul(&[65, 66]), None);
}

#[test]
fn prompt_buttons_and_position() {
    assert_eq!(clicked_button(1), Some(DialogButton::Accept));
    assert_eq!(clicked_button(2), Some(DialogButton::Cancel));
    assert_eq!(clicked_button(101), None);
    // a notification other than a click
    assert_eq!(clicked_button((0x0300 << 16) | 1), None);
    assert_eq!(dialog_origin(1920, 1080), (780, 455));
}

#[test]
fn prompt_answer_reaches_the_waiting_task() {
    let mut state: PromptState<Option<String>> = PromptState::new();
    assert!(!state.completed);
    assert_eq!(state.poll(waker()), None);
    assert!(state.waker.is_some());
    let woken = state.complete(Some("name".to_string()));
    assert!(woken.is_some());
    assert!(state.completed);
    assert_eq!(state.poll(waker()), Some(Some("name".to_string())));
    assert!(state.result.is_none());
}

#[test]
fn saver_writes_once_per_batch() {
    let mut f = SaveFlag::new();
    assert_eq!(f.tick(true), Tick::Idle);
    f.set_unsaved();
    f.set_unsaved();
    assert_eq!(f.tick(true), Tick::Save);
    assert_eq!(f.tick(true), Tick::Idle);
    f.set_unsaved();
    assert_eq!(f.tick(false), Tick::Stop);
}

#[test]
fn tray_menu_and_commands() {
    assert_eq!(
        cover_menu(),
        vec![CoverCommand::AddFence, CoverCommand::AddFenceFromFolder, CoverCommand::Reload, CoverCommand::Exit]
    );
    assert_eq!(cover_command_label(CoverCommand::AddFenceFromFolder), "Add fence from &folder");
    assert_eq!(new_fence_origin(1920, 1080), (810, 465));
    assert_eq!(new_fence_origin(-3, 1), (-151, -75));
    assert_eq!(plan_cover_command(CoverCommand::AddFence, 1280, 720), (CoverAction::AddFence { x: 490, y: 285 }, true));
    assert_eq!(plan_cover_command(CoverCommand::Exit, 1280, 720), (CoverAction::Exit, false));
    assert_eq!(plan_cover_command(CoverCommand::Reload, 1280, 720), (CoverAction::Reload, false));
    assert_eq!(plan_cover_command(CoverCommand::AddFenceFromFolder, 1, 1), (CoverAction::AddFenceFromFolder, false));
    assert!(tray_opens_menu(0x0205));
    assert!(tray_opens_menu(0x0202));
    assert!(!tray_opens_menu(0x0200));
    assert!(pos_change_resizes(0x0004));
    assert!(!pos_change_resizes(0x0005));
    assert_eq!(folder_fence_title(Some("Games")), "Games");
    assert_eq!(folder_fence_title(None), "Folder Fence");
}

#[test]
fn tray_command_ids_name_their_commands() {
    for c in [CoverCommand::AddFence, CoverCommand::AddFenceFromFolder, CoverCommand::Reload, CoverCommand::Exit] {
        assert_eq!(CoverCommand::from_id(c.id()), Some(c));
    }
    assert_eq!(CoverCommand::Exit.id(), 1204);
    assert_eq!(CoverCommand::from_id(1101), None);
}

#[test]
fn import_plan_keeps_drops_and_adds() {
    let icons = vec![icon("A", Some("C:\\d\\a.lnk")), icon("B", Some("C:\\d\\gone.lnk")), icon("C", None)];
    let folder = vec![
        ("a".to_string(), "C:\\d\\a.lnk".to_string()),
        ("new".to_string(), "C:\\d\\new.lnk".to_string()),
        ("readme".to_string(), "C:\\d\\readme.txt".to_string()),
    ];
    let items = import_items(&icons, &folder);
    assert_eq!(
        rows(&items),
        vec![
            ("A".to_string(), "C:\\d\\a.lnk".to_string(), ACTION_KEEP),
            ("B".to_string(), "C:\\d\\gone.lnk".to_string(), ACTION_REMOVE),
            ("C".to_string(), String::new(), ACTION_REMOVE),
            ("new".to_string(), "C:\\d\\new.lnk".to_string(), ACTION_KEEP),
            ("readme".to_string(), "C:\\d\\readme.txt".to_string(), ACTION_KEEP),
        ]
    );
}

#[test]
fn import_plan_claims_each_file_once() {
    let icons = vec![
        icon("A", Some("C:\\d\\a.lnk")),
        icon("A again", Some("C:\\d\\a.lnk")),
        icon("none", None),
    ];
    let folder = vec![
        ("".to_string(), "".to_string()),
        ("b".to_string(), "C:\\d\\b.lnk".to_string()),
        ("a".to_string(), "C:\\d\\a.lnk".to_string()),
        ("b2".to_string(), "C:\\d\\b.lnk".to_string()),
    ];
    let items = import_items(&icons, &folder);
    assert_eq!(
        rows(&items),
        vec![
            ("A".to_string(), "C:\\d\\a.lnk".to_string(), ACTION_KEEP),
            ("A again".to_string(), "C:\\d\\a.lnk".to_string(), ACTION_REMOVE),
            ("none".to_string(), String::new(), ACTION_REMOVE),
            ("".to_string(), "".to_string(), ACTION_KEEP),
            ("b2".to_string(), "C:\\d\\b.lnk".to_string(), ACTION_KEEP),
        ]
    );
}

#[test]
fn import_list_filters_toggles_and_imports() {
    let icons = vec![icon("B", Some("C:\\d\\gone.LNK"))];
    let folder = vec![("readme".to_string(), "C:\\d\\readme.txt".to_string())];
    let mut list = ImportList::new(import_items(&icons, &folder));
    list.populate_listview();
    assert_eq!(list.visible_indices, vec![0, 1]);
    list.toggle_show_lnk_only();
    assert_eq!(list.visible_indices, vec![0]);
    assert_eq!(list.toggle_selected_action(-1), None);
    assert_eq!(list.toggle_selected_action(1), None);
    assert_eq!(list.toggle_selected_action(0), Some((0, ACTION_KEEP)));
    assert_eq!(list.toggle_selected_action(0), Some((0, ACTION_REMOVE)));
    assert_eq!(list.toggle_selected_action(0), Some((0, ACTION_KEEP)));
    list.toggle_show_lnk_only();
    assert_eq!(list.visible_indices, vec![0, 1]);
    let kept = list.do_import();
    assert_eq!(kept.len(), 2);
    assert_eq!(kept[0].title, "B");
    assert_eq!(kept[1].title, "readme");
    assert_eq!(action_label(ACTION_KEEP), "Keep");
    assert_eq!(action_label(ACTION_REMOVE), "Remove");
}

#[test]
fn shortcuts_and_dialog_commands() {
    assert!(is_shortcut_path(&"C:\\x\\App.LNK".to_string()));
    assert!(is_shortcut_path(&".lnk".to_string()));
    assert!(!is_shortcut_path(&"C:\\x\\app.lnk.txt".to_string()));
    assert!(!is_shortcut_path(&"lnk".to_string()));
    assert_eq!(import_command(1002), Some(ImportCommand::Import));
    assert_eq!(import_command(1003), Some(ImportCommand::Cancel));
    assert_eq!(import_command(1004), Some(ImportCommand::ToggleShortcutsOnly));
    assert_eq!(import_command((1 << 16) | 1004), Some(ImportCommand::Ignore));
    assert_eq!(import_command(1001), None);
    assert!(toggles_row(1001, 0xFFFF_FFFD));
    assert!(!toggles_row(1002, 0xFFFF_FFFD));
    assert!(!toggles_row(1001, 0xFFFF_FFFE));
}
