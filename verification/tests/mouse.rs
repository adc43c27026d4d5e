use alacritree::keys::{Modifiers, TermMode};
use alacritree::mouse::{
    mouse_report, wheel_report, Point, BUTTON_LEFT, BUTTON_MIDDLE, BUTTON_RIGHT, MOTION_NONE,
    MOTION_OFFSET, WHEEL_DOWN, WHEEL_LEFT, WHEEL_RIGHT, WHEEL_UP,
};

const NONE: Modifiers = Modifiers { alt: false, ctrl: false, shift: false, mac_cmd: false };

fn sgr() -> TermMode {
    TermMode { sgr_mouse: true, ..TermMode::none() }
}

fn utf8() -> TermMode {
    TermMode { utf8_mouse: true, ..TermMode::none() }
}

fn point(line: i32, column: usize) -> Point {
    Point { line, column }
}





#[test]
fn sgr_wheel_report_uses_one_based_coordinates() {
    assert_eq!(
        wheel_report(sgr(), point(4, 2), WHEEL_UP, NONE),
        Some(b"\x1b[<64;3;5M".to_vec())
    );
}

#[test]
fn normal_wheel_report_offsets_by_32() {
    assert_eq!(
        wheel_report(TermMode::none(), point(4, 2), WHEEL_DOWN, NONE),
        Some(vec![0x1b, b'[', b'M', 32 + 65, 32 + 1 + 2, 32 + 1 + 4])
    );
}

#[test]
fn modifiers_offset_the_button_code() {
    // xterm modifier bits for mouse reports: Shift +4, Alt +8, Ctrl +16.
    let mods = Modifiers { shift: true, ctrl: true, ..NONE };
    assert_eq!(
        wheel_report(sgr(), point(0, 0), WHEEL_UP, mods),
        Some(b"\x1b[<84;1;1M".to_vec())
    );
}

#[test]
fn scrollback_position_is_not_reported() {
    assert_eq!(
        wheel_report(sgr(), point(-1, 0), WHEEL_UP, NONE),
        None
    );
}

#[test]
fn normal_report_drops_out_of_range_coordinates() {
    assert_eq!(wheel_report(TermMode::none(), point(0, 230), WHEEL_UP, NONE), None);
}

#[test]
fn utf8_mouse_extends_the_coordinate_range() {
    // Column 200 encodes as 32+1+200 = 233 → 0xC3 0xA9 (UTF-8-style pair).
    assert_eq!(
        wheel_report(utf8(), point(0, 200), WHEEL_UP, NONE),
        Some(vec![0x1b, b'[', b'M', 32 + 64, 0xC3, 0xA9, 32 + 1])
    );
}

#[test]
fn wheel_left_right_codes() {
    assert_eq!(
        wheel_report(sgr(), point(0, 0), WHEEL_LEFT, NONE),
        Some(b"\x1b[<66;1;1M".to_vec())
    );
    assert_eq!(
        wheel_report(sgr(), point(0, 0), WHEEL_RIGHT, NONE),
        Some(b"\x1b[<67;1;1M".to_vec())
    );
}

#[test]
fn sgr_press_and_release_differ_only_by_suffix() {
    assert_eq!(
        mouse_report(sgr(), point(4, 2), BUTTON_LEFT, true, NONE),
        Some(b"\x1b[<0;3;5M".to_vec())
    );
    assert_eq!(
        mouse_report(sgr(), point(4, 2), BUTTON_LEFT, false, NONE),
        Some(b"\x1b[<0;3;5m".to_vec())
    );
}

#[test]
fn sgr_report_keeps_the_button_on_release() {
    assert_eq!(
        mouse_report(sgr(), point(0, 0), BUTTON_RIGHT, false, NONE),
        Some(b"\x1b[<2;1;1m".to_vec())
    );
}

#[test]
fn legacy_release_reports_button_three() {
    assert_eq!(
        mouse_report(TermMode::none(), point(0, 0), BUTTON_RIGHT, false, NONE),
        Some(vec![0x1b, b'[', b'M', 32 + 3, 33, 33])
    );
}

#[test]
fn legacy_release_folds_modifiers_into_button_three() {
    let mods = Modifiers { ctrl: true, ..NONE };
    assert_eq!(
        mouse_report(TermMode::none(), point(0, 0), BUTTON_LEFT, false, mods),
        Some(vec![0x1b, b'[', b'M', 32 + 3 + 16, 33, 33])
    );
}

#[test]
fn motion_report_uses_the_dragged_button_code() {
    // Left-drag = button 0 + 32.
    assert_eq!(
        mouse_report(
            sgr(),
            point(1, 1),
            BUTTON_LEFT + MOTION_OFFSET,
            true,
            NONE
        ),
        Some(b"\x1b[<32;2;2M".to_vec())
    );
}

#[test]
fn scrollback_position_is_not_reported_for_clicks() {
    assert_eq!(
        mouse_report(sgr(), point(-1, 0), BUTTON_LEFT, true, NONE),
        None
    );
}

#[test]
fn a_free_motion_is_reported_without_a_button() {
    assert_eq!(
        mouse_report(sgr(), point(0, 0), MOTION_NONE, true, NONE),
        Some(b"\x1b[<35;1;1M".to_vec())
    );
    assert_eq!(
        mouse_report(sgr(), point(0, 0), BUTTON_MIDDLE, true, NONE),
        Some(b"\x1b[<1;1;1M".to_vec())
    );
}

#[test]
fn the_last_coordinates_an_encoding_can_express_are_reported() {
    let report = wheel_report(TermMode::none(), point(222, 222), WHEEL_UP, NONE);
    assert_eq!(report, Some(vec![0x1b, b'[', b'M', 96, 255, 255]));
    assert_eq!(wheel_report(TermMode::none(), point(223, 0), WHEEL_UP, NONE), None);
    assert_eq!(wheel_report(utf8(), point(0, 2015), WHEEL_UP, NONE), None);
    let report = wheel_report(utf8(), point(94, 2014), WHEEL_UP, NONE);
    assert_eq!(report, Some(vec![0x1b, b'[', b'M', 96, 0xDF, 0xBF, 127]));
}

/// A column far past the legacy range is not wrapped into it.
#[test]
fn a_column_past_every_range_is_not_reported() {
    let far = point(0, 2_147_483_648);
    let legacy = mouse_report(TermMode::none(), far, BUTTON_LEFT, true, NONE);
    assert_eq!(legacy, None);
    assert_eq!(mouse_report(utf8(), far, BUTTON_LEFT, true, NONE), None);
    let last = point(i32::MAX, usize::MAX);
    let legacy = mouse_report(TermMode::none(), last, BUTTON_LEFT, true, NONE);
    assert_eq!(legacy, None);
    let report = mouse_report(sgr(), far, BUTTON_LEFT, true, NONE);
    assert_eq!(report, Some(b"\x1b[<0;2147483649;1M".to_vec()));
}
