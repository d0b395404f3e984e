use codex_gauge::layout::{
    clamp_panel_position, default_main_position, default_top_position, drag_x,
    is_hidden_window_coordinate, is_hidden_window_position, main_window_position,
    main_window_size, next_oled_offset, scaled_size, taskbar_style_change, tool_window_style,
    top_window_position, top_window_size, valid_saved_position, MonitorArea, Rect, VirtualScreen,
};

#[test]
fn rejects_windows_hidden_coordinate() {
    let screen = VirtualScreen { left: 0, top: 0, width: 1920, height: 1080 };
    assert!(!valid_saved_position(-32_000, -32_000, screen));
}

#[test]
fn saved_positions_must_be_on_screen() {
    let screen = VirtualScreen { left: -1920, top: 0, width: 3840, height: 1080 };
    assert!(valid_saved_position(-1984, 0, screen));
    assert!(!valid_saved_position(-1985, 0, screen));
    assert!(!valid_saved_position(1920, 0, screen));
    assert!(valid_saved_position(1919, -64, screen));
    assert!(!valid_saved_position(0, 1080, screen));
}

#[test]
fn panel_is_centered_below_anchor_and_clamped_to_work_area() {
    let anchor = Rect { left: 900, top: 0, right: 1_000, bottom: 22 };
    let work = Rect { left: 0, top: 0, right: 1_920, bottom: 1_040 };
    let panel = Rect { left: 0, top: 0, right: 376, bottom: 510 };

    assert_eq!(clamp_panel_position(anchor, work, panel), (762, 21));

    let edge_anchor = Rect { left: 0, right: 40, ..anchor };
    assert_eq!(clamp_panel_position(edge_anchor, work, panel), (0, 21));
}

#[test]
fn panel_that_does_not_fit_below_goes_up() {
    let anchor = Rect { left: 1800, top: 1000, right: 1900, bottom: 1022 };
    let work = Rect { left: 0, top: 0, right: 1_920, bottom: 1_040 };
    let panel = Rect { left: 0, top: 0, right: 376, bottom: 510 };
    assert_eq!(clamp_panel_position(anchor, work, panel), (1544, 530));
}

#[test]
fn identifies_windows_hidden_window_coordinate() {
    assert!(is_hidden_window_coordinate(-32_000));
    assert!(is_hidden_window_position(120, -32_000));
    assert!(!is_hidden_window_position(-10_000, 0));
}

#[test]
fn sizes_scale_with_resolution() {
    assert_eq!(scaled_size(376, 510, 144), (564, 765));
    assert_eq!(scaled_size(376, 510, 72), (376, 510));
    assert_eq!(default_main_position(564, 765, 1920, 1080), (678, 157));
    assert_eq!(default_main_position(2001, 10, 2000, 11), (0, 0));
    assert_eq!(default_top_position(158, 1920), (881, 0));
    assert_eq!(main_window_size(true), (460, 640));
    assert_eq!(main_window_size(false), (430, 104));
    assert_eq!(top_window_size(true), (168, 108));
    assert_eq!(top_window_size(false), (168, 26));
}

#[test]
fn dragging_stays_on_screen() {
    assert_eq!(drag_x(100, 50, 20, 0, 1920, 158), 130);
    assert_eq!(drag_x(100, 0, 500, 0, 1920, 158), 0);
    assert_eq!(drag_x(1700, 900, 0, 0, 1920, 158), 1762);
    assert_eq!(drag_x(10, 5, 0, 0, 100, 158), 0);
}

#[test]
fn window_styles_keep_windows_off_the_taskbar() {
    assert_eq!(tool_window_style(0x40000), 0x80);
    assert_eq!(tool_window_style(0x1), 0x81);
    assert_eq!(taskbar_style_change(0x80), None);
    assert_eq!(taskbar_style_change(0x40001), Some(0x81));
    assert_eq!(next_oled_offset(0), (1, 1));
    assert_eq!(next_oled_offset(1), (0, -1));
}

#[test]
fn windows_open_on_the_right_monitor() {
    let left = MonitorArea { x: -1920, y: 0, width: 1920, height: 1080, top_width: 168 };
    let right = MonitorArea { x: 0, y: 0, width: 2560, height: 1440, top_width: 252 };
    let monitors = vec![left, right];
    assert_eq!(top_window_position(Some(-1000), &monitors, Some(right)), Some((-1000, 0)));
    assert_eq!(top_window_position(Some(2500), &monitors, Some(left)), Some((1154, 0)));
    assert_eq!(top_window_position(Some(-32_000), &monitors, Some(right)), Some((1154, 0)));
    assert_eq!(top_window_position(None, &monitors, None), Some((-1044, 0)));
    assert_eq!(top_window_position(None, &Vec::new(), None), None);
    assert_eq!(main_window_position(Some(5), Some(6), None, 430), Some((5, 6)));
    assert_eq!(main_window_position(Some(5), None, Some(right), 430), Some((1065, 28)));
    assert_eq!(main_window_position(None, None, None, 430), None);
}
