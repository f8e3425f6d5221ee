use screen_grabber::keys::Key;
use screen_grabber::shortcuts::{
    are_all_fields_completed, duplicate_fields_message, key_field_after_input,
    key_field_before_input, key_field_disabled, missing_fields_message, modifier_key,
    some_fields_are_equal, ShortcutSettings,
};

fn char_key(s: &str) -> Key {
    Key::Character(s.to_string())
}

fn describe(k: &Key) -> String {
    match k {
        Key::Character(s) => format!("char:{}", s),
        Key::Named(s) => format!("named:{}", s),
        Key::Control => "Control".to_string(),
        Key::Shift => "Shift".to_string(),
        Key::Enter => "Enter".to_string(),
        Key::Escape => "Escape".to_string(),
        Key::CapsLock => "CapsLock".to_string(),
    }
}

fn describe_all(keys: &[Key]) -> Vec<String> {
    keys.iter().map(describe).collect()
}

#[test]
fn initial_settings_are_valid() {
    let s = ShortcutSettings::initial();
    assert!(are_all_fields_completed(&s));
    assert!(!some_fields_are_equal(&s));
    assert_eq!(missing_fields_message(&s), "");
    assert_eq!(duplicate_fields_message(&s), "");
}

#[test]
fn empty_binding_is_incomplete() {
    let mut s = ShortcutSettings::initial();
    s.edit_image_key = String::new();
    assert!(!are_all_fields_completed(&s));
    assert_eq!(missing_fields_message(&s), "Per favore, compila tutti i campi.");
    // the entire-screen binding is not checked
    let mut s = ShortcutSettings::initial();
    s.entire_screen_key = String::new();
    assert!(are_all_fields_completed(&s));
}

#[test]
fn equal_bindings_clash() {
    let mut s = ShortcutSettings::initial();
    s.edit_image_modifier = "Ctrl".to_string();
    s.edit_image_key = "s".to_string();
    assert!(some_fields_are_equal(&s));
    assert_eq!(duplicate_fields_message(&s), "Stesse shortkeys non sono ammesse");
}

#[test]
fn entire_screen_binding_not_compared() {
    let mut s = ShortcutSettings::initial();
    s.entire_screen_modifier = "Ctrl".to_string();
    s.entire_screen_key = "s".to_string();
    assert!(!some_fields_are_equal(&s));
}

#[test]
fn start_and_quit_compare_key_with_modifier() {
    let mut s = ShortcutSettings::initial();
    s.start_image_modifier = "None".to_string();
    s.start_image_key = "q".to_string();
    s.quit_app_modifier = "None".to_string();
    s.quit_app_key = "q".to_string();
    // the same binding twice, yet not reported
    assert!(!some_fields_are_equal(&s));
    s.start_image_key = "None".to_string();
    s.quit_app_key = "z".to_string();
    assert!(some_fields_are_equal(&s));
}

#[test]
fn modifier_names() {
    assert!(matches!(modifier_key(&"Ctrl".to_string()), Some(Key::Control)));
    assert!(matches!(modifier_key(&"Shift".to_string()), Some(Key::Shift)));
    assert!(matches!(modifier_key(&"Escape".to_string()), Some(Key::Escape)));
    assert!(matches!(modifier_key(&"Enter".to_string()), Some(Key::Enter)));
    assert!(modifier_key(&"None".to_string()).is_none());
    assert!(modifier_key(&"ctrl".to_string()).is_none());
}

#[test]
fn hotkeys_from_settings() {
    let mut s = ShortcutSettings::initial();
    s.save_image_modifier = "Shift".to_string();
    s.save_image_key = "p".to_string();
    s.quit_app_modifier = "None".to_string();
    s.quit_app_key = String::new();
    let hotkeys = s.build_hotkeys();
    assert_eq!(hotkeys.len(), 8);
    assert_eq!(s.save_image_key, "P");
    assert_eq!(describe_all(&hotkeys[0].keys), vec!["char:P", "Shift"]);
    assert_eq!(describe_all(&hotkeys[1].keys), vec!["char:s"]);
    assert!(hotkeys[2].keys.is_empty());
    assert_eq!(describe_all(&hotkeys[3].keys), vec!["char:m"]);
    assert_eq!(describe_all(&hotkeys[4].keys), vec!["Shift"]);
    assert_eq!(describe_all(&hotkeys[5].keys), vec!["Control"]);
    assert_eq!(describe_all(&hotkeys[6].keys), vec!["char:s", "Control"]);
    assert_eq!(describe_all(&hotkeys[7].keys), vec!["char:a"]);
    // confirming again changes nothing
    let again = s.build_hotkeys();
    assert_eq!(s.save_image_key, "P");
    assert_eq!(describe_all(&again[0].keys), vec!["char:P", "Shift"]);
    let _ = char_key("x");
}

#[test]
fn key_fields() {
    assert!(key_field_disabled(&"Escape".to_string()));
    assert!(key_field_disabled(&"Enter".to_string()));
    assert!(!key_field_disabled(&"Ctrl".to_string()));
    let mut t = "a".to_string();
    key_field_before_input(&mut t, true);
    assert_eq!(t, "");
    let mut t = "a".to_string();
    key_field_before_input(&mut t, false);
    assert_eq!(t, "a");
    let mut t = "Q".to_string();
    key_field_after_input(&mut t, false);
    assert_eq!(t, "q");
    let mut t = "Q".to_string();
    key_field_after_input(&mut t, true);
    assert_eq!(t, "");
}

#[test]
fn confirmed_hotkeys_differ() {
    let mut s = ShortcutSettings::initial();
    let hotkeys = s.build_hotkeys();
    let sets: Vec<std::collections::BTreeSet<String>> = hotkeys
        .iter()
        .map(|h| describe_all(&h.keys).into_iter().collect())
        .collect();
    for i in 0..7 {
        assert!(!sets[i].is_empty());
        for j in (i + 1)..7 {
            assert_ne!(sets[i], sets[j]);
        }
    }
}

#[test]
fn start_and_quit_may_coincide() {
    let mut s = ShortcutSettings::initial();
    s.start_image_key = "q".to_string();
    s.quit_app_modifier = "None".to_string();
    s.quit_app_key = "q".to_string();
    assert!(are_all_fields_completed(&s));
    assert!(!some_fields_are_equal(&s));
    let hotkeys = s.build_hotkeys();
    assert_eq!(describe_all(&hotkeys[1].keys), describe_all(&hotkeys[2].keys));
}
