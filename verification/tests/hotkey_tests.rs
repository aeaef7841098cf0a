use voice_input::config::HotkeyConfig;
use voice_input::hotkey::{
    add_modifier, combo_from_parts, hook_virtual_keys, key_from_upper, modifier_from_lower,
    parse_combo_key, parse_key_code, plan_registration, DoubleTapDetector, HotKey, HotkeyError,
    HotkeyMode, KeyCode, ModifierKey, Modifiers, Registration,
};

const NONE: Modifiers = Modifiers { control: false, shift: false, alt: false, super_key: false };

fn unknown(result: Result<HotKey, HotkeyError>) -> String {
    match result {
        Err(HotkeyError::UnknownKey(name)) => name,
        other => panic!("expected an unknown key, got {:?}", other),
    }
}

#[test]
fn mode_names() {
    assert_eq!(HotkeyMode::from_name("combo"), HotkeyMode::Combo);
    assert_eq!(HotkeyMode::from_name("double_tap"), HotkeyMode::DoubleTap);
    assert_eq!(HotkeyMode::from_name("Combo"), HotkeyMode::DoubleTap);
    assert_eq!(HotkeyMode::from_name(""), HotkeyMode::DoubleTap);
}

#[test]
fn key_names_in_upper_case() {
    assert_eq!(key_from_upper("A"), Some(KeyCode::Letter(0)));
    assert_eq!(key_from_upper("V"), Some(KeyCode::Letter(21)));
    assert_eq!(key_from_upper("Z"), Some(KeyCode::Letter(25)));
    assert_eq!(key_from_upper("0"), Some(KeyCode::Digit(0)));
    assert_eq!(key_from_upper("9"), Some(KeyCode::Digit(9)));
    assert_eq!(key_from_upper("SPACE"), Some(KeyCode::Space));
    assert_eq!(key_from_upper("ENTER"), Some(KeyCode::Enter));
    assert_eq!(key_from_upper("RETURN"), Some(KeyCode::Enter));
    assert_eq!(key_from_upper("ESCAPE"), Some(KeyCode::Escape));
    assert_eq!(key_from_upper("ESC"), Some(KeyCode::Escape));
    assert_eq!(key_from_upper("F1"), Some(KeyCode::Function(1)));
    assert_eq!(key_from_upper("F9"), Some(KeyCode::Function(9)));
    assert_eq!(key_from_upper("F10"), Some(KeyCode::Function(10)));
    assert_eq!(key_from_upper("F12"), Some(KeyCode::Function(12)));
    assert_eq!(key_from_upper("F13"), None);
    assert_eq!(key_from_upper("a"), None);
    assert_eq!(key_from_upper("AB"), None);
    assert_eq!(key_from_upper(""), None);
    assert_eq!(key_from_upper("@"), None);
    assert_eq!(key_from_upper("["), None);
    assert_eq!(key_from_upper("/"), None);
    assert_eq!(key_from_upper(":"), None);
    assert_eq!(key_from_upper("É"), None);
}

#[test]
fn key_names_in_any_case() {
    assert_eq!(parse_key_code("v").ok(), Some(KeyCode::Letter(21)));
    assert_eq!(parse_key_code("Space").ok(), Some(KeyCode::Space));
    assert_eq!(parse_key_code("esc").ok(), Some(KeyCode::Escape));
    assert_eq!(parse_key_code("f11").ok(), Some(KeyCode::Function(11)));
    match parse_key_code("Tab") {
        Err(HotkeyError::UnknownKey(name)) => assert_eq!(name, "Tab"),
        other => panic!("unexpected {:?}", other),
    }
}

#[test]
fn modifier_names() {
    assert_eq!(add_modifier(NONE, "ctrl"), Some(Modifiers { control: true, ..NONE }));
    assert_eq!(add_modifier(NONE, "control"), Some(Modifiers { control: true, ..NONE }));
    assert_eq!(add_modifier(NONE, "shift"), Some(Modifiers { shift: true, ..NONE }));
    assert_eq!(add_modifier(NONE, "alt"), Some(Modifiers { alt: true, ..NONE }));
    assert_eq!(add_modifier(NONE, "super"), Some(Modifiers { super_key: true, ..NONE }));
    assert_eq!(add_modifier(NONE, "win"), Some(Modifiers { super_key: true, ..NONE }));
    assert_eq!(add_modifier(NONE, "meta"), Some(Modifiers { super_key: true, ..NONE }));
    assert_eq!(add_modifier(NONE, "Ctrl"), None);
    assert_eq!(add_modifier(NONE, "v"), None);
    let held = Modifiers { shift: true, ..NONE };
    assert_eq!(add_modifier(held, "ctrl"), Some(Modifiers { control: true, shift: true, ..NONE }));
}

#[test]
fn default_combination() {
    let hotkey = parse_combo_key("Ctrl+Shift+V").expect("hotkey");
    assert_eq!(
        hotkey,
        HotKey {
            modifiers: Modifiers { control: true, shift: true, ..NONE },
            key: KeyCode::Letter(21),
        }
    );
}

#[test]
fn combination_with_white_space_and_mixed_case() {
    let hotkey = parse_combo_key(" alt + WIN +\tf5 ").expect("hotkey");
    assert_eq!(
        hotkey,
        HotKey {
            modifiers: Modifiers { alt: true, super_key: true, ..NONE },
            key: KeyCode::Function(5),
        }
    );
    assert_eq!(parse_combo_key("a").expect("hotkey"), HotKey { modifiers: NONE, key: KeyCode::Letter(0) });
}

#[test]
fn the_last_key_of_a_combination_wins() {
    let hotkey = parse_combo_key("Ctrl+A+B").expect("hotkey");
    assert_eq!(hotkey.key, KeyCode::Letter(1));
}

#[test]
fn combination_without_a_key() {
    match parse_combo_key("Ctrl+Shift") {
        Err(HotkeyError::NoKey(combo)) => assert_eq!(combo, "Ctrl+Shift"),
        other => panic!("unexpected {:?}", other),
    }
    match parse_combo_key("ctrl") {
        Err(e @ HotkeyError::NoKey(_)) => {
            assert_eq!(e.message(), "No key specified in combo: ctrl")
        }
        other => panic!("unexpected {:?}", other),
    }
}

#[test]
fn combination_with_an_unknown_part() {
    assert_eq!(unknown(parse_combo_key("Ctrl+ Tab ")), "Tab");
    assert_eq!(unknown(parse_combo_key("")), "");
    assert_eq!(unknown(parse_combo_key("Ctrl++V")), "");
    assert_eq!(unknown(parse_combo_key("Ctrl+V+")), "");
    assert_eq!(unknown(parse_combo_key("Nope+Also")), "Nope");
    let error = HotkeyError::UnknownKey("Tab".to_string());
    assert_eq!(error.message(), "Unknown key: Tab");
}

#[test]
fn combination_from_parts() {
    let parts = vec!["shift".to_string(), " x ".to_string()];
    assert_eq!(
        combo_from_parts(&parts, "shift+ x ").expect("hotkey"),
        HotKey { modifiers: Modifiers { shift: true, ..NONE }, key: KeyCode::Letter(23) }
    );
    match combo_from_parts(&Vec::new(), "whole") {
        Err(HotkeyError::NoKey(combo)) => assert_eq!(combo, "whole"),
        other => panic!("unexpected {:?}", other),
    }
}

fn config(mode: &str, combo: &str, tap: &str) -> HotkeyConfig {
    HotkeyConfig {
        mode: mode.to_string(),
        combo_key: combo.to_string(),
        double_tap_key: tap.to_string(),
        double_tap_interval: 300,
    }
}

#[test]
fn registration_for_a_combination() {
    let plan = plan_registration(&config("combo", "Ctrl+Shift+V", "Ctrl")).expect("plan");
    assert_eq!(
        plan,
        Registration::Combo(HotKey {
            modifiers: Modifiers { control: true, shift: true, ..NONE },
            key: KeyCode::Letter(21),
        })
    );
    assert!(plan_registration(&config("combo", "Ctrl+", "Ctrl")).is_err());
}

#[test]
fn registration_for_a_double_tap() {
    let ctrl = plan_registration(&config("double_tap", "bad+combo", "Ctrl")).expect("plan");
    assert_eq!(ctrl, Registration::ModifierHook(ModifierKey::Ctrl));
    let shift = plan_registration(&config("other", "", "SHIFT")).expect("plan");
    assert_eq!(shift, Registration::ModifierHook(ModifierKey::Shift));
    let alt = plan_registration(&config("double", "", "alt")).expect("plan");
    assert_eq!(alt, Registration::ModifierHook(ModifierKey::Alt));
    let key = plan_registration(&config("double_tap", "", "F2")).expect("plan");
    assert_eq!(key, Registration::DoubleTapKey(HotKey { modifiers: NONE, key: KeyCode::Function(2) }));
    match plan_registration(&config("double_tap", "", "control")) {
        Err(HotkeyError::UnknownKey(name)) => assert_eq!(name, "control"),
        other => panic!("unexpected {:?}", other),
    }
}

#[test]
fn tappable_modifiers() {
    assert_eq!(modifier_from_lower("ctrl"), Some(ModifierKey::Ctrl));
    assert_eq!(modifier_from_lower("shift"), Some(ModifierKey::Shift));
    assert_eq!(modifier_from_lower("alt"), Some(ModifierKey::Alt));
    assert_eq!(modifier_from_lower("control"), None);
    assert_eq!(modifier_from_lower("win"), None);
}

#[test]
fn virtual_keys_of_the_modifiers() {
    assert_eq!(hook_virtual_keys(ModifierKey::Ctrl), vec![0x11, 0xA2, 0xA3]);
    assert_eq!(hook_virtual_keys(ModifierKey::Shift), vec![0xA0, 0xA1]);
    assert_eq!(hook_virtual_keys(ModifierKey::Alt), vec![0xA4, 0xA5]);
}

#[test]
fn two_taps_within_the_interval() {
    let mut detector = DoubleTapDetector::new(300);
    assert!(!detector.tap(1000));
    assert!(detector.tap(1300));
    assert!(!detector.tap(1301));
    assert!(detector.tap(1302));
}

#[test]
fn two_taps_too_far_apart() {
    let mut detector = DoubleTapDetector::new(300);
    assert!(!detector.tap(1000));
    assert!(!detector.tap(1301));
    assert!(detector.tap(1601));
}

#[test]
fn a_clock_that_steps_back_counts_as_no_time() {
    let mut detector = DoubleTapDetector::new(0);
    assert!(!detector.tap(500));
    assert!(detector.tap(400));
    assert!(!detector.tap(400));
    assert!(detector.tap(400));
    assert!(!detector.tap(u64::MAX));
    assert!(detector.tap(0));
}
