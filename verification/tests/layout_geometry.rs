use rsfences::geo::{center_offset, div_i32, Area, Rect};
use rsfences::input::{hiword_signed, loword, point_from_lparam};
use rsfences::layout::{import_dialog_layout, input_dialog_layout, Item, Layout, Orientation, Placement};
use rsfences::window::{layered_pixels, ClassRegistry, WindowArea};

fn placement(hwnd: usize, x: i32, y: i32, width: i32, height: i32) -> Placement {
    Placement { hwnd, x, y, width, height }
}

#[test]
fn import_dialog_layout_fills_the_list() {
    let layout = import_dialog_layout(1, 2, 3, 4);
    let moves = layout.arrange(Rect { left: 0, top: 0, right: 600, bottom: 450 });
    assert_eq!(
        moves,
        vec![
            placement(1, 5, 10, 590, 22),
            placement(2, 5, 35, 590, 372),
            placement(3, 412, 410, 90, 30),
            placement(4, 505, 410, 90, 30),
        ]
    );
}

#[test]
fn input_dialog_layout_places_label_edit_and_buttons() {
    let layout = input_dialog_layout(11, 12, 13, 14);
    let moves = layout.arrange(Rect { left: 0, top: 0, right: 360, bottom: 170 });
    assert_eq!(
        moves,
        vec![
            placement(11, 10, 20, 340, 20),
            placement(12, 10, 46, 340, 72),
            placement(13, 180, 134, 70, 6),
            placement(14, 260, 134, 70, 6),
        ]
    );
}

#[test]
fn fill_items_keep_their_minimum() {
    let layout = Layout {
        orientation: Orientation::Horizontal,
        margin: 0,
        gap: 0,
        items: vec![Item::Fixed { hwnd: 1, size: 50 }, Item::Fill { hwnd: 2, min: 30 }],
    };
    let moves = layout.arrange(Rect { left: 0, top: 0, right: 60, bottom: 10 });
    assert_eq!(moves, vec![placement(1, 0, 0, 50, 10), placement(2, 50, 0, 30, 10)]);
}

#[test]
fn empty_and_default_layouts_move_nothing() {
    let layout = Layout::default();
    assert_eq!(layout.margin, 5);
    assert_eq!(layout.gap, 3);
    assert!(layout.orientation == Orientation::Vertical);
    assert!(layout.arrange(Rect { left: 0, top: 0, right: 100, bottom: 100 }).is_empty());
}

#[test]
fn try_arrange_refuses_overflow() {
    let layout = Layout {
        orientation: Orientation::Vertical,
        margin: 0,
        gap: 0,
        items: vec![Item::Fixed { hwnd: 1, size: i32::MAX }, Item::Fixed { hwnd: 2, size: 10 }],
    };
    assert!(layout.try_arrange(Rect { left: 0, top: 0, right: 10, bottom: 10 }).is_none());
}

#[test]
fn centring_rounds_toward_zero() {
    assert_eq!(center_offset(1920, 360), 780);
    assert_eq!(center_offset(100, 103), -1);
    assert_eq!(div_i32(-7, 2), -3);
    assert_eq!(div_i32(7, -2), -3);
    assert_eq!(div_i32(i32::MIN, 1), i32::MIN);
}

#[test]
fn area_edges() {
    let a = Area::<i32>::new(10, 20, 30, 40);
    assert_eq!((a.x, a.y, a.width, a.height), (10, 20, 30, 40));
    assert_eq!(a.to_rect(), Rect { left: 10, top: 20, right: 40, bottom: 60 });
    let r = a.to_rect();
    assert!(r.contains(10, 20));
    assert!(!r.contains(40, 20));
    assert!(!r.contains(10, 60));
}

#[test]
fn window_area_moves_and_resizes() {
    let mut w = WindowArea { x: 1, y: 2, width: 3, height: 4 };
    w.move_by(10, -20);
    assert_eq!(w, WindowArea { x: 11, y: -18, width: 3, height: 4 });
    w.add_area(-1, -1, 5, 6);
    assert_eq!(w, WindowArea { x: 10, y: -19, width: 8, height: 10 });
    w.resize_to(0, 0, 7, 7);
    assert_eq!(w.to_rect(), Rect { left: 0, top: 0, right: 7, bottom: 7 });
    w.move_to(5, 6);
    assert_eq!(w, WindowArea { x: 5, y: 6, width: 7, height: 7 });
}

#[test]
fn moving_back_restores_even_across_wrapping() {
    let start = WindowArea { x: i32::MAX - 1, y: i32::MIN + 1, width: 5, height: 5 };
    let mut w = start;
    w.move_by(10, -10);
    assert_eq!(w.x, i32::MIN + 8);
    w.move_by(-10, 10);
    assert_eq!(w, start);
}

#[test]
fn layered_picture_is_all_background() {
    let p = layered_pixels(3, 2, 0x80112233);
    assert_eq!(p, vec![0x80112233u32; 6]);
    assert!(layered_pixels(0, 5, 1).is_empty());
}

#[test]
fn class_names_register_once() {
    let mut reg = ClassRegistry::new();
    assert!(reg.register("Fence".to_string()));
    assert!(reg.register("FenceIcon".to_string()));
    assert!(!reg.register("Fence".to_string()));
    assert!(reg.contains(&"FenceIcon".to_string()));
    assert!(!reg.contains(&"Other".to_string()));
}

#[test]
fn message_parameters_decode() {
    // x = -2 in the low word, y = 300 in the next one
    let lparam: isize = (300 << 16) | 0xFFFE;
    assert_eq!(point_from_lparam(lparam), (-2, 300));
    assert_eq!(loword(0x0003_0002), 2);
    assert_eq!(hiword_signed(0xFF88_0000), -120);
    assert_eq!(hiword_signed(120 << 16), 120);
}

#[test]
fn fixed_windows_stack_with_gaps() {
    let layout = Layout {
        orientation: Orientation::Vertical,
        margin: 2,
        gap: 4,
        items: vec![Item::Fixed { hwnd: 7, size: 10 }, Item::Fixed { hwnd: 8, size: 20 }, Item::Fixed { hwnd: 9, size: 5 }],
    };
    let moves = layout.arrange(Rect { left: 0, top: 0, right: 100, bottom: 100 });
    assert_eq!(moves, vec![placement(7, 2, 4, 96, 10), placement(8, 2, 18, 96, 20), placement(9, 2, 42, 96, 5)]);
}
