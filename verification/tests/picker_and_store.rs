use luma11y::picker::{
    center_pixel, center_pixel_is_readable, key_action, windows_to_refresh, ColorPickerResult, KeyAction, PickerSession,
    CAPTURED_PIXELS,
};
use luma11y::store::{ColorSlot, ColorTexts, CopyTemplate};

#[test]
fn session_starts_empty() {
    let s = PickerSession::start(false);
    assert!(!s.fg_mode());
    assert!(!s.continue_mode());
    assert!(!s.stopped());
    assert_eq!(s.captured_pixels(), CAPTURED_PIXELS);
    assert_eq!(
        s.result(),
        ColorPickerResult { foreground: None, background: None, continue_mode: false }
    );
}

#[test]
fn click_picks_and_ends() {
    let mut s = PickerSession::start(true);
    s.mouse_down(Some((1, 2, 3)));
    assert!(s.stopped());
    assert_eq!(s.result().foreground, Some((1, 2, 3)));
    assert_eq!(s.result().background, None);

    let mut s = PickerSession::start(false);
    s.mouse_down(Some((4, 5, 6)));
    assert!(s.stopped());
    assert_eq!(s.result().background, Some((4, 5, 6)));
}

#[test]
fn continue_mode_picks_both_colours() {
    let mut s = PickerSession::start(true);
    s.toggle_continue();
    s.mouse_down(Some((10, 20, 30)));
    assert!(!s.stopped());
    assert!(!s.fg_mode());
    s.mouse_down(Some((40, 50, 60)));
    assert!(s.stopped());
    assert_eq!(
        s.result(),
        ColorPickerResult {
            foreground: Some((10, 20, 30)),
            background: Some((40, 50, 60)),
            continue_mode: true,
        }
    );
}

#[test]
fn confirm_and_cancel() {
    let mut s = PickerSession::start(false);
    s.confirm(Some((7, 8, 9)));
    assert!(s.stopped());
    assert_eq!(s.result().background, Some((7, 8, 9)));

    let mut s = PickerSession::start(true);
    s.toggle_continue();
    s.mouse_down(Some((1, 1, 1)));
    s.cancel();
    assert!(s.stopped());
    assert_eq!(s.result().foreground, None);
    assert_eq!(s.result().background, None);
}

#[test]
fn capture_size_stays_odd_and_bounded() {
    let mut s = PickerSession::start(true);
    for _ in 0..10 {
        s.grow_capture();
    }
    assert_eq!(s.captured_pixels(), 21);
    s.shrink_capture();
    assert_eq!(s.captured_pixels(), 19);
    s.grow_capture();
    assert_eq!(s.captured_pixels(), 21);
    for _ in 0..10 {
        s.shrink_capture();
    }
    assert_eq!(s.captured_pixels(), 9);
}

#[test]
fn keys() {
    assert_eq!(key_action(53, false), KeyAction::Cancel);
    assert_eq!(key_action(36, true), KeyAction::Confirm);
    assert_eq!(key_action(8, false), KeyAction::ToggleContinue);
    assert_eq!(key_action(34, false), KeyAction::ZoomIn);
    assert_eq!(key_action(34, true), KeyAction::GrowCapture);
    assert_eq!(key_action(31, false), KeyAction::ZoomOut);
    assert_eq!(key_action(31, true), KeyAction::ShrinkCapture);
    assert_eq!(key_action(123, false), KeyAction::Move { dx: -1, dy: 0 });
    assert_eq!(key_action(124, true), KeyAction::Move { dx: 50, dy: 0 });
    assert_eq!(key_action(125, true), KeyAction::Move { dx: 0, dy: -50 });
    assert_eq!(key_action(126, false), KeyAction::Move { dx: 0, dy: 1 });
    assert_eq!(key_action(0, false), KeyAction::Nothing);
}

#[test]
fn centre_pixel_of_a_capture() {
    // 22 x 22 pixels, 4 bytes each; the magnifier shows 11 across.
    let width = 22usize;
    let height = 22usize;
    let bpr = width * 4;
    let mut data = vec![0u8; bpr * height];
    // column 5 + 5 = 10, row 22 - 5 - 6 = 11
    let off = 11 * bpr + 10 * 4;
    data[off] = 30; // blue
    data[off + 1] = 20; // green
    data[off + 2] = 10; // red
    assert_eq!(center_pixel(&data, width, height, bpr, 32, 11), Some((10, 20, 30)));
    assert_eq!(center_pixel(&data[..off], width, height, bpr, 32, 11), None);
}

#[test]
fn centre_pixel_of_a_small_capture() {
    // 3 x 2 pixels, smaller than the magnifier: column 1, row 2 - 0 - 1 = 1.
    let data: Vec<u8> = (0u8..24).collect();
    assert_eq!(center_pixel(&data, 3, 2, 12, 32, 11), Some((18, 17, 16)));
}

#[test]
fn windows_to_redraw() {
    assert_eq!(windows_to_refresh(Some(1), Some(1)), vec![1]);
    assert_eq!(windows_to_refresh(None, None), Vec::<usize>::new());
    assert_eq!(windows_to_refresh(Some(0), Some(2)), vec![0, 2]);
    assert_eq!(windows_to_refresh(None, Some(2)), vec![2]);
    assert_eq!(windows_to_refresh(Some(3), None), vec![3]);
}

fn template(name: &str, shortcut: &str) -> CopyTemplate {
    CopyTemplate {
        name: name.to_string(),
        template: "{hex}".to_string(),
        shortcut: shortcut.to_string(),
    }
}

#[test]
fn template_labels_and_shortcuts() {
    assert_eq!(template("", "").menu_label(0), "Template 1");
    assert_eq!(template("", "").menu_label(9), "Template 10");
    assert_eq!(template("CSS", "").menu_label(3), "CSS");
    assert!(!template("CSS", "").has_shortcut());
    assert!(template("CSS", "CmdOrCtrl+Shift+C").has_shortcut());
}

#[test]
fn colour_slots() {
    assert_eq!(ColorSlot::from_key("foreground"), Some(ColorSlot::Foreground));
    assert_eq!(ColorSlot::from_key("background"), Some(ColorSlot::Background));
    assert_eq!(ColorSlot::from_key("Foreground"), None);
    assert_eq!(ColorSlot::from_key(""), None);
}

fn texts() -> ColorTexts {
    ColorTexts {
        rgb_css: "rgb(0, 0, 0)".to_string(),
        hex: "#000000".to_string(),
        hsl: "hsl(0, 0%, 0%)".to_string(),
        hsv: "hsv(0, 0%, 0%)".to_string(),
        lab: "lab(0, 0, 0)".to_string(),
        oklch: "oklch(0.000 0.000 0)".to_string(),
    }
}

#[test]
fn entered_text_replaces_its_format_only() {
    let mut t = texts();
    t.keep_entered_text("hsv", "hsv(1, 2%, 3%)".to_string());
    assert_eq!(t.hsv, "hsv(1, 2%, 3%)");
    assert_eq!(t.hsl, "hsl(0, 0%, 0%)");
    assert_eq!(t.lab, "lab(0, 0, 0)");

    let mut t = texts();
    t.keep_entered_text("oklch", "oklch(0.5 0.1 20)".to_string());
    assert_eq!(t.oklch, "oklch(0.5 0.1 20)");

    let mut t = texts();
    t.keep_entered_text("hex", "#123".to_string());
    assert_eq!(t.hex, "#000000");
    assert_eq!(t.hsl, "hsl(0, 0%, 0%)");
    assert_eq!(t.oklch, "oklch(0.000 0.000 0)");
}

#[test]
fn other_colour_arc_in_continue_mode() {
    let mut s = PickerSession::start(true);
    assert_eq!(s.other_colour_arc(), None);
    s.toggle_continue();
    assert_eq!(s.other_colour_arc(), None);
    s.mouse_down(Some((9, 9, 9)));
    assert_eq!(s.other_colour_arc(), Some(((9, 9, 9), true)));

    let mut s = PickerSession::start(false);
    s.toggle_continue();
    s.mouse_down(Some((1, 2, 3)));
    assert_eq!(s.other_colour_arc(), Some(((1, 2, 3), false)));
}

#[test]
fn centre_pixel_readability() {
    assert!(center_pixel_is_readable(22 * 22 * 4, 22, 22, 88, 32, 11));
    assert!(center_pixel_is_readable(0, 22, 22, 88, 32, 11));
    // one byte per pixel: the pixel fits but its red byte would lie past the end
    assert!(!center_pixel_is_readable(11 * 22 + 11, 22, 22, 22, 8, 11));
    // the offset overflows
    assert!(!center_pixel_is_readable(16, 22, 22, usize::MAX, 32, 11));
}

#[test]
fn shrink_undoes_grow() {
    let mut s = PickerSession::start(true);
    s.grow_capture();
    assert_eq!(s.captured_pixels(), 13);
    s.shrink_capture();
    assert_eq!(s.captured_pixels(), CAPTURED_PIXELS);
    s.shrink_capture();
    s.grow_capture();
    assert_eq!(s.captured_pixels(), CAPTURED_PIXELS);
}
