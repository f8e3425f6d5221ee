use screen_grabber::keys::Key;
use screen_grabber::selection::{DragHandle, Point, Rect};
use screen_grabber::shortcuts::ShortcutSettings;
use screen_grabber::state::{ApplyOutcome, CaptureState, KeyUpEffects};

fn zero() -> Rect<f64> {
    Rect { x0: 0.0, y0: 0.0, x1: 0.0, y1: 0.0 }
}

fn p(x: f64, y: f64) -> Point<f64> {
    Point { x, y }
}

fn ready() -> CaptureState<f64> {
    let mut st = CaptureState::new(zero());
    let mut settings = ShortcutSettings::initial();
    assert_eq!(st.apply_shortcuts(&mut settings), ApplyOutcome::OpenFormatSettings);
    assert!(st.switch_window);
    assert_eq!(st.hotkeys.len(), 8);
    st.switch_window = false;
    st
}

fn nothing(e: &KeyUpEffects) -> bool {
    !e.save_image && !e.quit_app && !e.open_shortcut_settings && !e.open_format_settings
        && !e.copy_to_clipboard
}

fn tap(st: &mut CaptureState<f64>, k: Key, has_image: bool) -> KeyUpEffects {
    st.key_down(&k);
    st.key_up(&k, has_image)
}

#[test]
fn apply_returns_to_drawing() {
    let mut st = CaptureState::new(zero());
    st.show_drawing = true;
    let mut settings = ShortcutSettings::initial();
    assert_eq!(st.apply_shortcuts(&mut settings), ApplyOutcome::OpenDrawingArea);
}

#[test]
fn apply_invalid_stays() {
    let mut st = CaptureState::new(zero());
    let mut settings = ShortcutSettings::initial();
    settings.edit_image_key = String::new();
    assert_eq!(st.apply_shortcuts(&mut settings), ApplyOutcome::Stay);
    assert!(!st.switch_window);
    assert_eq!(st.hotkeys.len(), 8);
}

#[test]
fn enter_saves() {
    let mut st = ready();
    let e = tap(&mut st, Key::Enter, true);
    assert!(e.save_image && !e.quit_app && !e.copy_to_clipboard);
    assert!(st.is_found);
    assert!(st.attivazione.is_empty() && st.tasti.is_empty());
    assert_eq!(st.count, 0);
    assert!(matches!(st.last_key_event, Some(Key::Enter)));
    let mut st = ready();
    let e = tap(&mut st, Key::Enter, false);
    assert!(!e.save_image);
    assert!(st.is_found);
}

#[test]
fn letter_starts_selection() {
    let mut st = ready();
    st.selection.start_position = Some(p(1.0, 1.0));
    st.selection.start_position_to_display = Some(p(1.0, 1.0));
    st.selection.rect = Rect { x0: 1.0, y0: 1.0, x1: 5.0, y1: 5.0 };
    let e = tap(&mut st, Key::Character("S".to_string()), true);
    assert!(nothing(&e));
    assert!(st.selection.hide_buttons);
    assert!(st.selection.start_position.is_none());
    assert_eq!(st.selection.rect.x1, 0.0);
    assert!(st.is_found);
}

#[test]
fn ctrl_s_copies() {
    let mut st = ready();
    st.key_down(&Key::Control);
    st.key_down(&Key::Character("s".to_string()));
    assert_eq!(st.count, 2);
    let e = st.key_up(&Key::Character("s".to_string()), true);
    assert!(nothing(&e));
    assert_eq!(st.attivazione.len(), 1);
    assert_eq!(st.count, 0);
    let e = st.key_up(&Key::Control, true);
    assert!(e.copy_to_clipboard && !e.save_image);
    assert!(st.attivazione.is_empty());
    assert!(st.last_key_event.is_none());
}

#[test]
fn escape_quits_and_looks_further() {
    let mut st = ready();
    let e = tap(&mut st, Key::Escape, true);
    assert!(e.quit_app);
    assert!(!st.is_found);
}

#[test]
fn shift_opens_shortcut_settings() {
    let mut st = ready();
    let e = tap(&mut st, Key::Shift, true);
    assert!(e.open_shortcut_settings);
    assert!(st.hotkeys.is_empty());
    assert!(st.show_drawing);
}

#[test]
fn ctrl_opens_format_settings() {
    let mut st = ready();
    let e = tap(&mut st, Key::Control, true);
    assert!(e.open_format_settings);
    assert!(!st.selection.hide_buttons);
}

#[test]
fn a_captures_entire_screen() {
    let mut st = ready();
    let e = tap(&mut st, Key::Character("a".to_string()), true);
    assert!(nothing(&e));
    assert!(st.selection.capture_screen);
    assert!(st.selection.hide_buttons);
    assert!(st.selection.take_entire_screen_request());
    assert!(!st.selection.capture_screen);
    assert!(!st.selection.take_entire_screen_request());
}

#[test]
fn m_edits_only_with_corners() {
    let mut st = ready();
    let e = tap(&mut st, Key::Character("m".to_string()), true);
    assert!(nothing(&e));
    assert!(!st.is_found);
    assert!(!st.selection.is_dragging);
    let mut st = ready();
    st.selection.start_position = Some(p(1.0, 1.0));
    st.selection.start_position_to_display = Some(p(1.0, 1.0));
    st.selection.end_position = Some(p(4.0, 4.0));
    st.selection.end_position_to_display = Some(p(4.0, 4.0));
    tap(&mut st, Key::Character("m".to_string()), true);
    assert!(st.is_found && st.selection.is_dragging && st.selection.is_selecting);
}

#[test]
fn caps_lock_is_ignored() {
    let mut st = ready();
    st.key_down(&Key::CapsLock);
    assert!(st.tasti.is_empty());
    assert_eq!(st.count, 0);
    let e = st.key_up(&Key::CapsLock, true);
    assert!(nothing(&e));
}

#[test]
fn presses_are_recorded_in_lower_case() {
    let mut st = ready();
    st.key_down(&Key::Character("Q".to_string()));
    st.key_down(&Key::Named("F1".to_string()));
    assert_eq!(st.count, 2);
    assert!(matches!(&st.tasti[0], Key::Character(s) if s == "q"));
    assert!(matches!(&st.tasti[1], Key::Character(s) if s == "f1"));
    // a key is looked up as it is pressed: a lower-case key held down is not
    // counted again, a named key (recorded under its lower-case name) is
    st.key_down(&Key::Character("q".to_string()));
    assert_eq!(st.count, 2);
    st.key_down(&Key::Named("F1".to_string()));
    assert_eq!(st.count, 3);
    assert_eq!(st.tasti.len(), 2);
}

#[test]
fn unknown_combination_fires_nothing() {
    let mut st = ready();
    let e = tap(&mut st, Key::Character("z".to_string()), true);
    assert!(nothing(&e));
    assert!(!st.is_found);
    assert!(st.attivazione.is_empty());
}

#[test]
fn missing_hotkeys_are_reported() {
    let mut st: CaptureState<f64> = CaptureState::new(zero());
    st.key_down(&Key::Enter);
    assert!(st.try_key_up(&Key::Enter, true).is_none());
    let mut st: CaptureState<f64> = CaptureState::new(zero());
    assert!(st.try_key_up(&Key::Enter, true).is_some());
}

#[test]
fn window_close() {
    let mut st: CaptureState<f64> = CaptureState::new(zero());
    assert!(st.window_close_requested());
    st.begin_window_switch();
    assert!(!st.window_close_requested());
    assert!(!st.switch_window);
}

#[test]
fn settings_buttons() {
    let mut st = ready();
    st.selection.is_dragging = true;
    st.is_found = true;
    st.open_other_settings();
    assert!(!st.selection.is_dragging && !st.is_found);
    assert_eq!(st.hotkeys.len(), 8);
    st.open_shortcut_settings();
    assert!(st.hotkeys.is_empty() && st.show_drawing);
    let _ = DragHandle::TopLeft;
}
