use voice_input::control::{decide, state_after, state_during, Command, Trigger};
use voice_input::floating_button::{
    dragged_to, is_click, state_colors, ButtonState, FloatingButtonConfig, FloatingButtonEvent,
};
use voice_input::text_inserter::{
    KeyInput, TextInserter, KEYEVENTF_KEYUP, KEYEVENTF_UNICODE, KEYEVENTF_UNICODE_KEYUP, VK_BACK,
};

#[test]
fn button_state_from_numbers() {
    assert_eq!(ButtonState::from(0), ButtonState::Idle);
    assert_eq!(ButtonState::from(1), ButtonState::Recording);
    assert_eq!(ButtonState::from(2), ButtonState::Processing);
    assert_eq!(ButtonState::from(3), ButtonState::Idle);
    assert_eq!(ButtonState::from(255), ButtonState::Idle);
    for state in [ButtonState::Idle, ButtonState::Recording, ButtonState::Processing] {
        assert_eq!(ButtonState::from(state.to_u8()), state);
    }
    assert_eq!(ButtonState::Processing.to_u8(), 2);
}

#[test]
fn button_defaults() {
    assert_eq!(
        FloatingButtonConfig::default(),
        FloatingButtonConfig { initial_x: 100, initial_y: 100, size: 56 }
    );
    assert_ne!(FloatingButtonEvent::ToggleRecording, FloatingButtonEvent::Exit);
}

#[test]
fn a_click_moves_less_than_five_pixels() {
    assert!(is_click(100, 100, 100, 100));
    assert!(is_click(100, 100, 104, 96));
    assert!(!is_click(100, 100, 105, 100));
    assert!(!is_click(100, 100, 100, 95));
    assert!(!is_click(100, 100, 95, 105));
    assert!(is_click(-3, 2, 1, -2));
    assert!(!is_click(i32::MIN, 0, i32::MAX, 0));
    assert!(is_click(i32::MAX, i32::MIN, i32::MAX - 4, i32::MIN + 4));
}

#[test]
fn a_drag_moves_the_window_with_the_pointer() {
    assert_eq!(dragged_to(100, 500, 530), Some(130));
    assert_eq!(dragged_to(100, 500, 470), Some(70));
    assert_eq!(dragged_to(-20, 0, -5), Some(-25));
    assert_eq!(dragged_to(i32::MAX, 0, 1), None);
    assert_eq!(dragged_to(i32::MIN, 1, 0), None);
    assert_eq!(dragged_to(i32::MAX, 1, 1), Some(i32::MAX));
}

#[test]
fn colours_follow_the_state() {
    assert_eq!(state_colors(0), (0xF65C8B, 0xC64868));
    assert_eq!(state_colors(1), (0x5555EF, 0x3535BF));
    assert_eq!(state_colors(2), (0xF68230, 0xC66020));
    assert_eq!(state_colors(9), (0xF65C8B, 0xC64868));
}

#[test]
fn what_a_request_does() {
    assert_eq!(decide(Trigger::Toggle, false), Command::Start);
    assert_eq!(decide(Trigger::Toggle, true), Command::Stop);
    assert_eq!(decide(Trigger::MenuStart, false), Command::Start);
    assert_eq!(decide(Trigger::MenuStart, true), Command::Nothing);
    assert_eq!(decide(Trigger::MenuStop, true), Command::Stop);
    assert_eq!(decide(Trigger::MenuStop, false), Command::Nothing);
}

#[test]
fn what_the_button_shows_around_a_command() {
    assert_eq!(state_during(Command::Stop), Some(ButtonState::Processing));
    assert_eq!(state_during(Command::Start), None);
    assert_eq!(state_during(Command::Nothing), None);
    assert_eq!(state_after(Command::Stop, true), Some(ButtonState::Idle));
    assert_eq!(state_after(Command::Stop, false), Some(ButtonState::Idle));
    assert_eq!(state_after(Command::Start, true), Some(ButtonState::Recording));
    assert_eq!(state_after(Command::Start, false), None);
    assert_eq!(state_after(Command::Nothing, true), None);
}

fn down(unit: u16) -> KeyInput {
    KeyInput { virtual_key: 0, scan_code: unit, flags: KEYEVENTF_UNICODE }
}

fn up(unit: u16) -> KeyInput {
    KeyInput { virtual_key: 0, scan_code: unit, flags: KEYEVENTF_UNICODE | KEYEVENTF_KEYUP }
}

#[test]
fn flags_of_key_events() {
    assert_eq!(KEYEVENTF_KEYUP, 2);
    assert_eq!(KEYEVENTF_UNICODE, 4);
    assert_eq!(KEYEVENTF_UNICODE_KEYUP, KEYEVENTF_UNICODE | KEYEVENTF_KEYUP);
    assert_eq!(VK_BACK, 8);
    let inserter = TextInserter::new();
    assert_eq!(inserter.create_unicode_input(0x41, true), down(0x41));
    assert_eq!(inserter.create_unicode_input(0x41, false), up(0x41));
    assert_eq!(
        inserter.create_key_input(VK_BACK, true),
        KeyInput { virtual_key: 8, scan_code: 0, flags: 0 }
    );
    assert_eq!(
        inserter.create_key_input(VK_BACK, false),
        KeyInput { virtual_key: 8, scan_code: 0, flags: 2 }
    );
}

#[test]
fn typing_presses_and_releases_each_unit() {
    let inserter = TextInserter::default();
    assert_eq!(inserter.insert(""), Vec::new());
    assert_eq!(inserter.insert("hi"), vec![down(0x68), up(0x68), down(0x69), up(0x69)]);
    assert_eq!(inserter.insert("你"), vec![down(0x4F60), up(0x4F60)]);
    assert_eq!(
        inserter.insert("😀"),
        vec![down(0xD83D), up(0xD83D), down(0xDE00), up(0xDE00)]
    );
    assert_eq!(inserter.type_units(&vec![7, 8]), vec![down(7), up(7), down(8), up(8)]);
}

#[test]
fn deleting_taps_the_backspace() {
    let inserter = TextInserter::new();
    assert_eq!(inserter.delete_chars(0), Vec::new());
    let inputs = inserter.delete_chars(3);
    assert_eq!(inputs.len(), 6);
    for (i, input) in inputs.iter().enumerate() {
        assert_eq!(input.virtual_key, VK_BACK);
        assert_eq!(input.scan_code, 0);
        assert_eq!(input.flags, if i % 2 == 0 { 0 } else { KEYEVENTF_KEYUP });
    }
    assert!(inserter.all_sent(&inputs, 6));
    assert!(!inserter.all_sent(&inputs, 5));
}

#[test]
fn the_event_receiver_is_there_once() {
    let mut button = voice_input::floating_button::FloatingButton::new();
    let receiver = button.take_event_receiver().expect("receiver");
    assert!(button.take_event_receiver().is_none());
    assert!(button.report(FloatingButtonEvent::ToggleRecording));
    assert!(button.report(FloatingButtonEvent::Exit));
    assert_eq!(receiver.try_recv().ok(), Some(FloatingButtonEvent::ToggleRecording));
    assert_eq!(receiver.try_recv().ok(), Some(FloatingButtonEvent::Exit));
    assert!(receiver.try_recv().is_err());
    assert!(button.released(10, 10, 12, 9));
    assert_eq!(receiver.try_recv().ok(), Some(FloatingButtonEvent::ToggleRecording));
    assert!(!button.released(10, 10, 30, 9));
    assert!(receiver.try_recv().is_err());
    drop(receiver);
    assert!(!button.report(FloatingButtonEvent::Exit));
}

#[test]
fn setters_share_the_state_of_the_button() {
    let button = voice_input::floating_button::FloatingButton::new();
    let first = button.state_setter();
    let second = first.clone();
    assert_eq!(first.get_state(), ButtonState::Idle);
    assert_eq!(first.window(), 0);
    second.set_state(ButtonState::Recording);
    assert_eq!(first.get_state(), ButtonState::Recording);
    first.set_state(ButtonState::Processing);
    assert_eq!(button.state_setter().get_state(), ButtonState::Processing);
    button.set_window(77);
    assert_eq!(second.window(), 77);
}
