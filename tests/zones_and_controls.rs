use m5core2::controls::{handle_button_press, AppState, ButtonAction};
use m5core2::zone::{check_button_zone, Button};

#[test]
fn above_strip_hits_nothing() {
    assert_eq!(check_button_zone(0, 209), None);
    assert_eq!(check_button_zone(150, 209), None);
    assert_eq!(check_button_zone(319, 0), None);
}

#[test]
fn strip_starts_at_row_210() {
    assert_eq!(check_button_zone(0, 210), Some(Button::A));
    assert_eq!(check_button_zone(150, 210), Some(Button::B));
    assert_eq!(check_button_zone(319, 239), Some(Button::C));
}

#[test]
fn x_boundaries_split_three_ways() {
    assert_eq!(check_button_zone(106, 220), Some(Button::A));
    assert_eq!(check_button_zone(107, 220), Some(Button::B));
    assert_eq!(check_button_zone(213, 220), Some(Button::B));
    assert_eq!(check_button_zone(214, 220), Some(Button::C));
    assert_eq!(check_button_zone(u16::MAX, u16::MAX), Some(Button::C));
}

#[test]
fn button_labels() {
    assert_eq!(Button::A.label(), "BtnA");
    assert_eq!(Button::B.label(), "BtnB");
    assert_eq!(Button::C.label(), "BtnC");
}

#[test]
fn middle_button_toggles_led() {
    let mut app = AppState::new();
    assert!(!app.led_enabled);
    assert_eq!(handle_button_press(Button::B, &mut app), ButtonAction::SetLed(true));
    assert!(app.led_enabled);
    assert_eq!(handle_button_press(Button::B, &mut app), ButtonAction::SetLed(false));
    assert!(!app.led_enabled);
}

#[test]
fn outer_buttons_leave_led_alone() {
    let mut app = AppState { led_enabled: true };
    assert_eq!(handle_button_press(Button::A, &mut app), ButtonAction::Announce);
    assert!(app.led_enabled);
    assert_eq!(handle_button_press(Button::C, &mut app), ButtonAction::ShowStats);
    assert!(app.led_enabled);
}
