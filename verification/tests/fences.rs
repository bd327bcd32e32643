use rsfences::config::colorref::Color;
use rsfences::config::config::{Config, FenceConfig, IconConfig};
use rsfences::config::state::{AppState, FenceState, FenceStickyPosition, IconState};
use rsfences::fence::basic::{Fence as PlainFence, HitTest};
use rsfences::fence::command::{
    accepted_title, command_label, fence_menu, icon_menu, plan_command, CommandAction, FenceCommand, MenuItem,
};
use rsfences::fence::fences::{rearrange, sticky_origin};
use rsfences::fence::import::{import_items, ImportList};
use rsfences::fence::hit::{hit_test, ContextMenu, Cursor, Drag, Hit, HitManager, MouseTracker};
use rsfences::fence::icons::{accepts_drop, icon_paint, reflow_icons, scroll_area_area, title_bar_area, update_scroll_info};
use rsfences::fence::scroll::{try_vscroll_position, vscroll_position, wheel_position, SB_BOTTOM, SB_LINEDOWN, SB_LINEUP, SB_PAGEDOWN, SB_PAGEUP, SB_THUMBTRACK, SB_TOP};
use rsfences::config::color::Fill;
use rsfences::geo::{Area, Rect};
use rsfences::window::WindowArea;

fn fence_at(x: i32, y: i32, w: i32, h: i32, sticky: Option<FenceStickyPosition>) -> FenceState {
    FenceState {
        title: "F".to_string(),
        area: Area { x, y, width: w, height: h },
        icons: vec![],
        imported_from: None,
        sticky_pos: sticky,
    }
}

#[test]
fn hit_test_finds_borders_title_and_icons() {
    let rect = Rect { left: 100, top: 100, right: 400, bottom: 250 };
    let icons = vec![Rect { left: 10, top: 10, right: 74, bottom: 74 }];
    assert_eq!(hit_test(rect, 3, 24, 0, &icons, 50, 50), None);
    assert_eq!(hit_test(rect, 3, 24, 0, &icons, 100, 100), Some(Hit::TopLeft));
    assert_eq!(hit_test(rect, 3, 24, 0, &icons, 399, 249), Some(Hit::BottomRight));
    assert_eq!(hit_test(rect, 3, 24, 0, &icons, 101, 150), Some(Hit::Left));
    assert_eq!(hit_test(rect, 3, 24, 0, &icons, 250, 101), Some(Hit::Top));
    assert_eq!(hit_test(rect, 3, 24, 0, &icons, 250, 110), Some(Hit::TitleBar));
    assert_eq!(hit_test(rect, 3, 24, 0, &icons, 250, 200), Some(Hit::Client));
    assert_eq!(hit_test(rect, 3, 24, 0, &icons, 115, 140), Some(Hit::Icon(0)));
    // scrolled down by 60, the same point is below the icon
    assert_eq!(hit_test(rect, 3, 24, 60, &icons, 115, 140), Some(Hit::Client));
}

#[test]
fn hit_from_position_inside_fence() {
    let icons = vec![Rect { left: 10, top: 10, right: 74, bottom: 74 }];
    assert_eq!(Hit::from_pos_in_fence(300, 150, 3, 24, &icons, 0, 0), Some(Hit::TopLeft));
    assert_eq!(Hit::from_pos_in_fence(300, 150, 3, 24, &icons, 299, 75), Some(Hit::Right));
    assert_eq!(Hit::from_pos_in_fence(300, 150, 3, 24, &icons, 20, 40), Some(Hit::Icon(0)));
    assert_eq!(Hit::from_pos_in_fence(300, 150, 3, 24, &icons, 200, 100), Some(Hit::Client));
    assert_eq!(Hit::from_pos_in_fence(300, 150, 3, 24, &icons, 200, 10), Some(Hit::TitleBar));
    assert_eq!(Hit::from_pos_in_fence(300, 150, 3, 24, &icons, -1, 75), None);
    assert_eq!(Hit::from_pos_in_fence(300, 150, 3, 24, &icons, 300, 75), None);
    assert_eq!(Hit::from_pos_in_fence(300, 150, 3, 24, &icons, 20, 150), None);
    assert_eq!(Hit::from_pos_in_fence(300, 150, 3, 24, &icons, 20, -5), None);
}

#[test]
fn hit_manager_follows_the_mouse() {
    let mut m = HitManager::new();
    assert_eq!(m.on_lbutton_down(Some(Hit::TitleBar)), (Some(None), true));
    assert_eq!(m.on_mouse_move(5, -3), Some(Drag::Move { dx: 5, dy: -3 }));
    m.on_lbutton_up();
    assert_eq!(m.on_mouse_move(5, -3), None);
    assert_eq!(m.on_lbutton_down(Some(Hit::Client)), (Some(None), false));
    assert_eq!(m.update_hit(Some(Hit::Client)), None);
    assert_eq!(m.on_rbutton_up(Some(Hit::Icon(2))), (Some(Some(2)), ContextMenu::Icon(2)));
    assert_eq!(m.current, None);
    assert_eq!(m.take(), None);
    assert_eq!(m.take_menu_hit(), Some(Hit::Icon(2)));
    assert_eq!(m.take_menu_hit(), None);
    assert_eq!(m.on_rbutton_up(None), (None, ContextMenu::Fence));
    assert_eq!(m.take_menu_hit(), None);
    assert_eq!(m.on_rbutton_up(Some(Hit::TitleBar)), (Some(None), ContextMenu::Fence));
    assert_eq!(m.current, None);
    assert_eq!(m.take_menu_hit(), Some(Hit::TitleBar));
    assert_eq!(m.on_set_cursor(Some(Hit::Left)), Some(Cursor::SizeWE));
    assert_eq!(m.on_set_cursor(Some(Hit::TopRight)), Some(Cursor::SizeNESW));
    assert_eq!(m.on_set_cursor(Some(Hit::Icon(0))), Some(Cursor::Arrow));
    assert_eq!(m.on_set_cursor(None), Some(Cursor::Arrow));
    assert_eq!(m.on_lbutton_dblclk(Some(Hit::Icon(1))), Some(1));
    assert_eq!(m.on_lbutton_dblclk(Some(Hit::TitleBar)), None);
}

#[test]
fn dragging_the_left_border_keeps_the_right_edge() {
    let mut m = HitManager::new();
    m.on_lbutton_down(Some(Hit::Left));
    let drag = m.on_mouse_move(-20, 7).unwrap();
    assert_eq!(drag, Drag::Resize { dl: -20, dt: 0, dw: 20, dh: 0 });
    let mut area = WindowArea { x: 100, y: 100, width: 300, height: 150 };
    if let Drag::Resize { dl, dt, dw, dh } = drag {
        area.add_area(dl, dt, dw, dh);
    }
    assert_eq!(area, WindowArea { x: 80, y: 100, width: 320, height: 150 });
    assert_eq!(area.x + area.width, 400);

    let mut m = HitManager::new();
    m.on_lbutton_down(Some(Hit::BottomRight));
    assert_eq!(m.on_mouse_move(4, 6), Some(Drag::Resize { dl: 0, dt: 0, dw: 4, dh: 6 }));
}

#[test]
fn mouse_tracker_reports_moves() {
    let mut t = MouseTracker::new(10, 10);
    assert_eq!(t.moved_to(15, 7), (5, -3));
    assert_eq!(t.moved_to(15, 7), (0, 0));
}

#[test]
fn icons_reflow_into_rows() {
    let cells = reflow_icons(300, 64, 10, 10, 5);
    assert_eq!(cells.len(), 5);
    assert_eq!(cells[0], WindowArea { x: 10, y: 10, width: 64, height: 64 });
    assert_eq!(cells[1], WindowArea { x: 84, y: 10, width: 64, height: 64 });
    assert_eq!(cells[2], WindowArea { x: 158, y: 10, width: 64, height: 64 });
    assert_eq!(cells[3], WindowArea { x: 10, y: 84, width: 64, height: 64 });
    assert_eq!(cells[4], WindowArea { x: 84, y: 84, width: 64, height: 64 });
    // too narrow for one cell: still one column
    let narrow = reflow_icons(50, 64, 10, 10, 2);
    assert_eq!(narrow[1], WindowArea { x: 10, y: 84, width: 64, height: 64 });
    // no two cells overlap
    for i in 0..cells.len() {
        for j in (i + 1)..cells.len() {
            let (a, b) = (cells[i], cells[j]);
            let overlap = a.x < b.x + b.width && b.x < a.x + a.width && a.y < b.y + b.height && b.y < a.y + a.height;
            assert!(!overlap);
        }
    }
}

#[test]
fn scroll_range_follows_the_lowest_icon() {
    let icons = vec![
        Rect { left: 10, top: 10, right: 74, bottom: 74 },
        Rect { left: 10, top: 84, right: 74, bottom: 158 },
    ];
    assert_eq!(update_scroll_info(120, &icons), (168, 120));
    assert_eq!(update_scroll_info(120, &vec![]), (10, 120));
}

#[test]
fn scroll_bar_commands() {
    assert_eq!(vscroll_position(SB_TOP, 0, 50, 0, 300, 100), 0);
    assert_eq!(vscroll_position(SB_BOTTOM, 0, 50, 0, 300, 100), 300);
    assert_eq!(vscroll_position(SB_LINEUP, 0, 50, 0, 300, 100), 40);
    assert_eq!(vscroll_position(SB_LINEDOWN, 0, 50, 0, 300, 100), 60);
    assert_eq!(vscroll_position(SB_PAGEUP, 0, 50, 0, 300, 100), -50);
    assert_eq!(vscroll_position(SB_PAGEDOWN, 0, 50, 0, 300, 100), 150);
    assert_eq!(vscroll_position(SB_THUMBTRACK, 77, 50, 0, 300, 100), 77);
    assert_eq!(vscroll_position(4, 77, 50, 0, 300, 100), 50);
    assert_eq!(try_vscroll_position(SB_LINEDOWN, 0, 50, 0, 300, 100), Some(60));
    assert_eq!(try_vscroll_position(SB_PAGEUP, 0, 50, 0, 300, 100), Some(-50));
    assert_eq!(try_vscroll_position(SB_LINEDOWN, 0, i32::MAX, 0, 300, 100), None);
    assert_eq!(try_vscroll_position(SB_LINEUP, 0, i32::MIN + 5, 0, 300, 100), None);
    assert_eq!(try_vscroll_position(SB_PAGEDOWN, 0, i32::MAX - 50, 0, 300, 100), None);
    assert_eq!(try_vscroll_position(SB_TOP, 0, i32::MAX, -7, 300, 100), Some(-7));
}

#[test]
fn menu_command_ids_name_their_commands() {
    let all = [
        FenceCommand::AddIcon,
        FenceCommand::RenameFence,
        FenceCommand::DeleteFence,
        FenceCommand::RunIcon,
        FenceCommand::RenameIcon,
        FenceCommand::SetIconPath,
        FenceCommand::DeleteIcon,
        FenceCommand::Import,
        FenceCommand::ImportFrom,
        FenceCommand::Sticky(None),
        FenceCommand::Sticky(Some(FenceStickyPosition::TopLeft)),
        FenceCommand::Sticky(Some(FenceStickyPosition::TopRight)),
        FenceCommand::Sticky(Some(FenceStickyPosition::BottomLeft)),
        FenceCommand::Sticky(Some(FenceStickyPosition::BottomRight)),
        FenceCommand::OpenExplorer,
    ];
    for c in all {
        assert_eq!(FenceCommand::from_id(c.id()), Some(c));
    }
    assert_eq!(FenceCommand::AddIcon.id(), 1101);
    assert_eq!(FenceCommand::from_id(1115), Some(FenceCommand::OpenExplorer));
    assert_eq!(FenceCommand::from_id(1100), None);
    assert_eq!(FenceCommand::from_id(0), None);
}

#[test]
fn wheel_scrolls_thirty_per_notch_within_range() {
    assert_eq!(wheel_position(120, 100, 0, 500, 200), Some(70));
    assert_eq!(wheel_position(-240, 100, 0, 500, 200), Some(160));
    assert_eq!(wheel_position(120, 0, 0, 500, 200), None);
    assert_eq!(wheel_position(60, 100, 0, 500, 200), None);
    assert_eq!(wheel_position(-1200, 100, 0, 500, 200), Some(300));
}

#[test]
fn fence_parts_and_drops() {
    let config = FenceConfig::default();
    let fence = Area { x: 40, y: 50, width: 300, height: 150 };
    let t = title_bar_area(&fence, &config);
    assert_eq!((t.x, t.y, t.width, t.height), (0, 0, 300, 24));
    let s = scroll_area_area(&fence, &config);
    assert_eq!((s.x, s.y, s.width, s.height), (3, 24, 294, 123));
    assert!(accepts_drop(300, 150, 3, 24, 3, 24));
    assert!(accepts_drop(300, 150, 3, 24, 296, 146));
    assert!(!accepts_drop(300, 150, 3, 24, 2, 50));
    assert!(!accepts_drop(300, 150, 3, 24, 297, 50));
    assert!(!accepts_drop(300, 150, 3, 24, 50, 23));
    assert!(!accepts_drop(300, 150, 3, 24, 50, 147));
}

#[test]
fn icon_paint_plan() {
    let config = IconConfig::default();
    let rect = Rect { left: 0, top: 0, right: 64, bottom: 64 };
    let p = icon_paint(true, false, &rect, &config);
    assert_eq!(p.background, Color::<true>(0x00FFAA44));
    assert!(p.under_background);
    assert_eq!(p.picture_x, 16);
    assert_eq!(p.text_top, 32);
    let q = icon_paint(false, true, &rect, &config);
    assert_eq!(q.background, Color::<true>(0x007D7D7D));
    assert!(!q.under_background);
}

#[test]
fn defaults_match_the_settings_file() {
    let c = Config::default();
    assert_eq!(c.font.family, "Segoe UI");
    assert_eq!(c.font.size, 16);
    assert_eq!(c.fence.border_thickness, 3);
    assert_eq!(c.fence.title_bar_height, 24);
    assert_eq!(c.fence.scroll_area_bg_color.0, 0xFF7D7D7D);
    assert_eq!(c.icon.size, 64);
    assert_eq!(c.icon.icon_size_draw, 32);
}

#[test]
fn sticky_fences_keep_their_corner_distance() {
    let area = Area { x: 1700, y: 900, width: 200, height: 100 };
    assert_eq!(sticky_origin(FenceStickyPosition::BottomRight, &area, 1920, 1080, 1280, 720), Some((1060, 540)));
    assert_eq!(sticky_origin(FenceStickyPosition::TopRight, &area, 1920, 1080, 1280, 720), Some((1060, 900)));
    assert_eq!(sticky_origin(FenceStickyPosition::BottomLeft, &area, 1920, 1080, 1280, 720), Some((1700, 540)));
    assert_eq!(sticky_origin(FenceStickyPosition::TopLeft, &area, 1920, 1080, 1280, 720), Some((1700, 900)));
    let far = Area { x: i32::MAX - 10, y: 0, width: 100, height: 10 };
    assert_eq!(sticky_origin(FenceStickyPosition::TopRight, &far, 1920, 1080, 1280, 720), None);
}

#[test]
fn screen_change_there_and_back_restores_fences() {
    let mut state = AppState {
        fences: vec![
            fence_at(1700, 900, 200, 100, Some(FenceStickyPosition::BottomRight)),
            fence_at(500, 400, 300, 150, None),
        ],
        screen_width: 1920,
        screen_height: 1080,
    };
    assert!(state.rearrange_to(1280, 720));
    assert_eq!((state.fences[0].area.x, state.fences[0].area.y), (1060, 540));
    assert_eq!((state.fences[1].area.x, state.fences[1].area.y), (500, 400));
    assert_eq!((state.screen_width, state.screen_height), (1280, 720));
    assert!(!state.rearrange_to(1280, 720));
    assert!(state.rearrange_to(1920, 1080));
    assert_eq!((state.fences[0].area.x, state.fences[0].area.y), (1700, 900));
}

#[test]
fn rearrange_without_size_change_does_nothing() {
    let mut fences = vec![fence_at(10, 20, 30, 40, Some(FenceStickyPosition::BottomRight))];
    assert!(!rearrange(&mut fences, 800, 600, 800, 600));
    assert_eq!((fences[0].area.x, fences[0].area.y), (10, 20));
    assert!(rearrange(&mut fences, 800, 600, 1000, 600));
    assert_eq!((fences[0].area.x, fences[0].area.y), (210, 20));
}

#[test]
fn commands_plan_their_actions() {
    assert_eq!(plan_command(FenceCommand::AddIcon, Hit::Client, false), (CommandAction::AddIcon, true));
    assert_eq!(plan_command(FenceCommand::RunIcon, Hit::Icon(2), false), (CommandAction::RunIcon(2), false));
    assert_eq!(plan_command(FenceCommand::RunIcon, Hit::TitleBar, false), (CommandAction::Nothing, false));
    assert_eq!(plan_command(FenceCommand::SetIconPath, Hit::Icon(1), false), (CommandAction::SelectIconPath(1), true));
    assert_eq!(plan_command(FenceCommand::DeleteIcon, Hit::Icon(0), true), (CommandAction::ConfirmDeleteIcon(0), false));
    assert_eq!(plan_command(FenceCommand::RenameIcon, Hit::Icon(3), true), (CommandAction::PromptRenameIcon(3), false));
    assert_eq!(plan_command(FenceCommand::Import, Hit::Client, true), (CommandAction::ShowImportDialog, true));
    assert_eq!(plan_command(FenceCommand::Import, Hit::Client, false), (CommandAction::PromptImportFolder, true));
    assert_eq!(plan_command(FenceCommand::ImportFrom, Hit::Client, true), (CommandAction::PromptImportFolder, true));
    assert_eq!(plan_command(FenceCommand::OpenExplorer, Hit::Client, false), (CommandAction::Nothing, false));
    assert_eq!(plan_command(FenceCommand::OpenExplorer, Hit::Client, true), (CommandAction::OpenExplorer, false));
    assert_eq!(
        plan_command(FenceCommand::Sticky(Some(FenceStickyPosition::TopRight)), Hit::Client, false),
        (CommandAction::SetSticky(Some(FenceStickyPosition::TopRight)), true)
    );
    assert_eq!(plan_command(FenceCommand::RenameFence, Hit::Client, false), (CommandAction::PromptRenameFence, false));
    assert_eq!(plan_command(FenceCommand::DeleteFence, Hit::Client, false), (CommandAction::ConfirmDeleteFence, false));
}

#[test]
fn rename_answers() {
    assert_eq!(accepted_title(Some("New".to_string())), Some("New".to_string()));
    assert_eq!(accepted_title(Some(String::new())), None);
    assert_eq!(accepted_title(None), None);
}

#[test]
fn fence_menu_checks_the_sticky_corner() {
    let menu = fence_menu(false, Some(FenceStickyPosition::TopLeft));
    assert_eq!(menu.head.len(), 4);
    assert_eq!(menu.head[2], MenuItem { command: FenceCommand::OpenExplorer, grayed: true, checked: false });
    assert_eq!(menu.sticky.len(), 5);
    let checked: Vec<usize> = (0..5).filter(|&i| menu.sticky[i].checked).collect();
    assert_eq!(checked, vec![1]);
    assert_eq!(menu.sticky[1].command, FenceCommand::Sticky(Some(FenceStickyPosition::TopLeft)));
    assert_eq!(menu.tail[1].command, FenceCommand::DeleteFence);
    let imported = fence_menu(true, None);
    assert!(!imported.head[2].grayed);
    assert!(imported.sticky[0].checked);
    let labels: Vec<&str> = icon_menu().iter().map(|i| command_label(i.command)).collect();
    assert_eq!(labels, vec!["&Run", "Re&name", "Set &path", "&Delete"]);
    assert_eq!(command_label(FenceCommand::Sticky(None)), "None");
    assert_eq!(command_label(FenceCommand::ImportFrom), "Import &from...");
}

#[test]
fn fence_state_icon_list() {
    let mut f = fence_at(0, 0, 300, 150, None);
    f.add_icon_with_path("a", Some("C:\\a.lnk"));
    f.add_icon_with_path("b", None);
    assert_eq!(f.icon_count(), 2);
    assert_eq!(f.icon_by_index(0).unwrap().path.as_deref(), Some("C:\\a.lnk"));
    assert_eq!(f.icon_by_index(1).unwrap().title, "b");
    assert!(f.icon_by_index(2).is_none());
    f.remove_icon(5);
    assert_eq!(f.icon_count(), 2);
    f.remove_icon(0);
    assert_eq!(f.icon_count(), 1);
    assert_eq!(f.icons[0].title, "b");
    let copy: IconState = f.icons[0].copy();
    assert_eq!(copy.title, "b");
    assert_eq!(copy.path, None);
}

#[test]
fn plain_fence_hit_test_and_moves() {
    let mut f = PlainFence::new(10, 20);
    assert_eq!(f.title, "Untitled");
    assert_eq!(f.rect, Rect { left: 10, top: 20, right: 310, bottom: 170 });
    assert_eq!(f.hit_test(5, 5), HitTest::Outside);
    assert_eq!(f.hit_test(11, 21), HitTest::TopLeft);
    assert_eq!(f.hit_test(309, 100), HitTest::Right);
    assert_eq!(f.hit_test(100, 100), HitTest::Inside);
    assert_eq!(f.background(), Fill::Blend { colorref: 0x00808080, alpha: 128, width: 300, height: 150 });
    f.move_by(-10, 5);
    assert_eq!(f.rect, Rect { left: 0, top: 25, right: 300, bottom: 175 });
}

#[test]
fn resizing_a_fence_moves_its_parts() {
    let config = FenceConfig::default();
    let mut area = WindowArea { x: 100, y: 100, width: 300, height: 150 };
    let (title, scroll) = rsfences::fence::icons::resize_fence(&mut area, -20, 0, 20, 30, &config);
    assert_eq!(area, WindowArea { x: 80, y: 100, width: 320, height: 180 });
    assert_eq!((title.x, title.y, title.width, title.height), (0, 0, 320, 24));
    assert_eq!((scroll.x, scroll.y, scroll.width, scroll.height), (3, 24, 314, 153));
}

#[test]
fn confirmed_import_replaces_the_icons() {
    let mut f = fence_at(0, 0, 300, 150, None);
    f.add_icon_with_path("old", Some("C:\\d\\old.lnk"));
    f.imported_from = Some("C:\\d".to_string());
    let folder = vec![("new".to_string(), "C:\\d\\new.lnk".to_string())];
    let mut list = ImportList::new(import_items(&f.icons, &folder));
    list.populate_listview();
    let kept = list.do_import();
    f.apply_import(&kept);
    assert_eq!(f.icon_count(), 1);
    assert_eq!(f.icons[0].title, "new");
    assert_eq!(f.icons[0].path.as_deref(), Some("C:\\d\\new.lnk"));
    assert_eq!(f.imported_from.as_deref(), Some("C:\\d"));
}

#[test]
fn wheel_never_leaves_the_range() {
    for delta in [-32768, -1200, -120, 0, 120, 1200, 32767] {
        for pos in [0, 50, 300] {
            let p = wheel_position(delta, pos, 0, 500, 200).unwrap_or(pos);
            assert!((0..=300).contains(&p));
        }
    }
}
