//! The three virtual buttons drawn along the bottom edge of the screen.

use vstd::prelude::*;

verus! {

/// Touches above this row never hit a button.
pub const ZONE_TOP: u16 = 210;

/// Left edge of the middle button.
pub const ZONE_B_LEFT: u16 = 107;

/// Left edge of the right button.
pub const ZONE_C_LEFT: u16 = 214;

/// One of the three on-screen buttons, from left to right.
#[derive(Clone, Copy, Debug, PartialEq, Eq, Structural)]
pub enum Button {
    A,
    B,
    C,
}

/// The button under the point `(x, y)`, if any.
pub open spec fn zone_of(x: u16, y: u16) -> Option<Button> {
    if y < ZONE_TOP {
        None
    } else if x < ZONE_B_LEFT {
        Some(Button::A)
    } else if x < ZONE_C_LEFT {
        Some(Button::B)
    } else {
        Some(Button::C)
    }
}

/// Classifies a touch point: rows above the button strip hit nothing; in the
/// strip, `x` falls into one of three contiguous ranges of equal width.
pub fn check_button_zone(x: u16, y: u16) -> (r: Option<Button>)
    ensures
        r == zone_of(x, y),
        r is None <==> y < 210,
        r == Some(Button::A) <==> (y >= 210 && x < 107),
        r == Some(Button::B) <==> (y >= 210 && 107 <= x < 214),
        r == Some(Button::C) <==> (y >= 210 && x >= 214),
{
    if y < ZONE_TOP {
        return None;
    }
    if x < ZONE_B_LEFT {
        Some(Button::A)
    } else if x < ZONE_C_LEFT {
        Some(Button::B)
    } else {
        Some(Button::C)
    }
}

impl Button {
    /// The name that the user interface shows for this button.
    pub open spec fn label_spec(self) -> Seq<char> {
        match self {
            Button::A => "BtnA"@,
            Button::B => "BtnB"@,
            Button::C => "BtnC"@,
        }
    }

    /// The name under which the button is reported.
    pub fn label(&self) -> (r: &'static str)
        ensures
            r@ == self.label_spec(),
    {
        match self {
            Button::A => "BtnA",
            Button::B => "BtnB",
            Button::C => "BtnC",
        }
    }
}

} // verus!
