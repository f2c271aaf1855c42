//! The touch/event bridge: turns the touch controller's samples into pointer
//! events for the user interface, and reports new touch-downs on a button.

use vstd::prelude::*;
use crate::zone::{check_button_zone, zone_of, Button};

verus! {

/// Register of the touch controller that holds the number of contacts.
pub const TOUCH_STATUS_REG: u8 = 0x02;

/// First of the four registers that hold the first contact's coordinates.
pub const TOUCH_POINT_REG: u8 = 0x03;

/// The last known contact with the screen.
#[derive(Clone, Copy, Debug, PartialEq, Eq, Structural)]
pub enum TouchState {
    Idle,
    Pressed(u16, u16),
}

/// An event handed to the user interface.
#[derive(Clone, Copy, Debug, PartialEq, Eq, Structural)]
pub enum PointerEvent {
    Moved(u16, u16),
    Pressed(u16, u16),
    Released(u16, u16),
    Exited,
}

/// What one touch sample produced: the events to dispatch, in order, and the
/// button that a new touch-down landed on.
#[derive(Debug)]
pub struct TouchOutcome {
    pub events: Vec<PointerEvent>,
    pub button: Option<Button>,
}

/// The state after the sample `sample` arrives in state `s`.
pub open spec fn next_state(s: TouchState, sample: Option<(u16, u16)>) -> TouchState {
    match sample {
        Some((x, y)) => TouchState::Pressed(x, y),
        None => TouchState::Idle,
    }
}

/// The events that the sample `sample` produces in state `s`.
pub open spec fn events_for(s: TouchState, sample: Option<(u16, u16)>) -> Seq<PointerEvent> {
    match (s, sample) {
        (TouchState::Idle, None) => seq![],
        (TouchState::Idle, Some((x, y))) => seq![
            PointerEvent::Moved(x, y),
            PointerEvent::Pressed(x, y),
        ],
        (TouchState::Pressed(lx, ly), Some((x, y))) => if lx == x && ly == y {
            seq![]
        } else {
            seq![PointerEvent::Moved(x, y)]
        },
        (TouchState::Pressed(lx, ly), None) => seq![
            PointerEvent::Moved(lx, ly),
            PointerEvent::Released(lx, ly),
            PointerEvent::Exited,
        ],
    }
}

/// The button whose handler the sample `sample` fires in state `s`: only a
/// touch-down, never a held or moving contact.
pub open spec fn button_for(s: TouchState, sample: Option<(u16, u16)>) -> Option<Button> {
    match (s, sample) {
        (TouchState::Idle, Some((x, y))) => zone_of(x, y),
        _ => None,
    }
}

/// Advances the touch state by one sample of the touch controller (`None`
/// when nothing touches the screen) and says what the sample produced.
pub fn process_touch_events(
    touch_state: &mut TouchState,
    sample: Option<(u16, u16)>,
) -> (r: TouchOutcome)
    ensures
        *final(touch_state) == next_state(*old(touch_state), sample),
        r.events@ == events_for(*old(touch_state), sample),
        r.button == button_for(*old(touch_state), sample),
{
    let mut events: Vec<PointerEvent> = Vec::new();
    let mut button: Option<Button> = None;
    match sample {
        Some((x, y)) => match *touch_state {
            TouchState::Idle => {
                *touch_state = TouchState::Pressed(x, y);
                button = check_button_zone(x, y);
                events.push(PointerEvent::Moved(x, y));
                events.push(PointerEvent::Pressed(x, y));
            },
            TouchState::Pressed(last_x, last_y) => {
                if last_x != x || last_y != y {
                    events.push(PointerEvent::Moved(x, y));
                    *touch_state = TouchState::Pressed(x, y);
                }
            },
        },
        None => {
            if let TouchState::Pressed(x, y) = *touch_state {
                events.push(PointerEvent::Moved(x, y));
                events.push(PointerEvent::Released(x, y));
                events.push(PointerEvent::Exited);
                *touch_state = TouchState::Idle;
            }
        },
    }
    proof {
        assert(events@ =~= events_for(*old(touch_state), sample));
    }
    TouchOutcome { events, button }
}

/// The coordinate held by a high/low register pair of the touch controller:
/// the low four bits of `hi` above the eight bits of `lo`.
pub open spec fn coordinate_of(hi: u8, lo: u8) -> u16 {
    ((hi as nat % 16) * 256 + lo as nat) as u16
}

/// The first contact point, from the four bytes read at `TOUCH_POINT_REG`.
pub fn decode_touch_point(data: [u8; 4]) -> (r: (u16, u16))
    ensures
        r.0 == coordinate_of(data[0], data[1]),
        r.1 == coordinate_of(data[2], data[3]),
        r.0 < 4096,
        r.1 < 4096,
{
    let x = coordinate(data[0], data[1]);
    let y = coordinate(data[2], data[3]);
    (x, y)
}

fn coordinate(hi: u8, lo: u8) -> (r: u16)
    ensures
        r == coordinate_of(hi, lo),
        r < 4096,
{
    let r = (((hi & 0x0F) as u16) << 8) | (lo as u16);
    assert(r == (hi % 16) * 256 + lo && r < 4096) by (bit_vector)
        requires
            r == (((hi & 0x0F) as u16) << 8) | (lo as u16),
    ;
    r
}

/// The touch sample, given the contact count read at `TOUCH_STATUS_REG` and
/// the point registers: no contact when the count is zero.
pub fn read_touch(status: u8, data: [u8; 4]) -> (r: Option<(u16, u16)>)
    ensures
        status == 0 ==> r is None,
        status != 0 ==> r == Some((coordinate_of(data[0], data[1]), coordinate_of(data[2], data[3]))),
{
    if status == 0 {
        None
    } else {
        Some(decode_touch_point(data))
    }
}

/// A sample repeated at once produces nothing more: after any sample, the
/// same sample again leaves the state as it is, emits no event and fires no
/// button.
pub proof fn lemma_repeated_sample_is_quiet(s: TouchState, sample: Option<(u16, u16)>)
    ensures
        next_state(next_state(s, sample), sample) == next_state(s, sample),
        events_for(next_state(s, sample), sample) == Seq::<PointerEvent>::empty(),
        button_for(next_state(s, sample), sample) is None,
{
    assert(events_for(next_state(s, sample), sample) =~= Seq::<PointerEvent>::empty());
}

} // verus!
