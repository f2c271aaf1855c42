//! What the three on-screen buttons do.

use vstd::prelude::*;
use crate::zone::Button;

verus! {

/// State that the button handlers change.
#[derive(Clone, Copy, Debug, PartialEq, Eq, Structural)]
pub struct AppState {
    pub led_enabled: bool,
}

/// What the caller has to carry out after a button press.
#[derive(Clone, Copy, Debug, PartialEq, Eq, Structural)]
pub enum ButtonAction {
    /// Report that the button was clicked.
    Announce,
    /// Drive the LED to the given state and report it.
    SetLed(bool),
    /// Read out and report the inertial unit and the battery.
    ShowStats,
}

impl AppState {
    /// The state at start-up: LED off.
    pub fn new() -> (r: AppState)
        ensures
            !r.led_enabled,
    {
        AppState { led_enabled: false }
    }
}

/// The action that a press of `button` asks for, given the LED state `led`
/// before the press.
pub open spec fn action_for(button: Button, led: bool) -> ButtonAction {
    match button {
        Button::A => ButtonAction::Announce,
        Button::B => ButtonAction::SetLed(!led),
        Button::C => ButtonAction::ShowStats,
    }
}

/// Handles a press of `button`: the middle button toggles the LED; the
/// others change nothing. Returns what is left to do.
pub fn handle_button_press(button: Button, app_state: &mut AppState) -> (r: ButtonAction)
    ensures
        r == action_for(button, old(app_state).led_enabled),
        final(app_state).led_enabled == (if button == Button::B {
            !old(app_state).led_enabled
        } else {
            old(app_state).led_enabled
        }),
{
    match button {
        Button::A => ButtonAction::Announce,
        Button::B => {
            app_state.led_enabled = !app_state.led_enabled;
            ButtonAction::SetLed(app_state.led_enabled)
        },
        Button::C => ButtonAction::ShowStats,
    }
}

} // verus!
