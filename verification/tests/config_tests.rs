use global_hotkey::hotkey::Modifiers;
use screen_ocr::config::AppConfig;
use screen_ocr::keys::KeyCode;

fn config(ctrl: bool, shift: bool, alt: bool, meta: bool, key: &str) -> AppConfig {
    AppConfig {
        modifier_ctrl: ctrl,
        modifier_shift: shift,
        modifier_alt: alt,
        modifier_meta: meta,
        key: key.to_string(),
    }
}

#[test]
fn default_hotkey_is_ctrl_shift_x() {
    let c = AppConfig::default();
    assert!(c.modifier_ctrl && c.modifier_shift && !c.modifier_alt && !c.modifier_meta);
    assert_eq!(c.key, "KeyX");
    assert_eq!(c.get_modifiers(), Some(Modifiers::CONTROL | Modifiers::SHIFT));
    assert_eq!(c.get_code(), KeyCode::KeyX);
}

#[test]
fn load_without_file_gives_default() {
    let c = AppConfig::load(None);
    assert!(c.modifier_ctrl && c.modifier_shift && !c.modifier_alt && !c.modifier_meta);
    assert_eq!(c.key, "KeyX");
}

#[test]
fn load_keeps_parsed_file() {
    let c = AppConfig::load(Some(config(false, false, true, false, "F5")));
    assert!(!c.modifier_ctrl && !c.modifier_shift && c.modifier_alt && !c.modifier_meta);
    assert_eq!(c.key, "F5");
    assert_eq!(c.get_code(), KeyCode::F5);
}

#[test]
fn no_modifier_gives_none() {
    assert_eq!(config(false, false, false, false, "KeyA").get_modifiers(), None);
}

#[test]
fn each_modifier_maps_to_its_flag() {
    assert_eq!(config(true, false, false, false, "KeyA").get_modifiers(), Some(Modifiers::CONTROL));
    assert_eq!(config(false, true, false, false, "KeyA").get_modifiers(), Some(Modifiers::SHIFT));
    assert_eq!(config(false, false, true, false, "KeyA").get_modifiers(), Some(Modifiers::ALT));
    assert_eq!(config(false, false, false, true, "KeyA").get_modifiers(), Some(Modifiers::META));
    assert_eq!(
        config(true, true, true, true, "KeyA").get_modifiers(),
        Some(Modifiers::CONTROL | Modifiers::SHIFT | Modifiers::ALT | Modifiers::META)
    );
    assert_eq!(Modifiers::CONTROL.bits(), 0x8);
    assert_eq!(Modifiers::SHIFT.bits(), 0x200);
    assert_eq!(Modifiers::ALT.bits(), 0x1);
    assert_eq!(Modifiers::META.bits(), 0x40);
}

#[test]
fn key_names_map_to_keys() {
    assert_eq!(config(true, false, false, false, "KeyA").get_code(), KeyCode::KeyA);
    assert_eq!(config(true, false, false, false, "KeyZ").get_code(), KeyCode::KeyZ);
    assert_eq!(config(true, false, false, false, "Digit0").get_code(), KeyCode::Digit0);
    assert_eq!(config(true, false, false, false, "Digit9").get_code(), KeyCode::Digit9);
    assert_eq!(config(true, false, false, false, "F1").get_code(), KeyCode::F1);
    assert_eq!(config(true, false, false, false, "F10").get_code(), KeyCode::F10);
    assert_eq!(config(true, false, false, false, "F12").get_code(), KeyCode::F12);
}

#[test]
fn unknown_key_names_fall_back_to_x() {
    assert_eq!(config(true, false, false, false, "Space").get_code(), KeyCode::KeyX);
    assert_eq!(config(true, false, false, false, "").get_code(), KeyCode::KeyX);
    assert_eq!(config(true, false, false, false, "keya").get_code(), KeyCode::KeyX);
    assert_eq!(config(true, false, false, false, "F13").get_code(), KeyCode::KeyX);
    assert_eq!(config(true, false, false, false, "KeyAA").get_code(), KeyCode::KeyX);
}

#[test]
fn every_listed_key_round_trips_through_its_name() {
    let keys = KeyCode::all();
    assert_eq!(keys.len(), 48);
    assert_eq!(keys[0], KeyCode::KeyA);
    assert_eq!(keys[25], KeyCode::KeyZ);
    assert_eq!(keys[26], KeyCode::Digit0);
    assert_eq!(keys[36], KeyCode::F1);
    assert_eq!(keys[47], KeyCode::F12);
    for k in keys {
        assert_eq!(KeyCode::from_name(k.name()), k);
    }
    assert_eq!(KeyCode::KeyQ.name(), "KeyQ");
    assert_eq!(KeyCode::Digit7.name(), "Digit7");
    assert_eq!(KeyCode::F11.name(), "F11");
}
