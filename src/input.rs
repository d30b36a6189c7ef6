use vstd::prelude::*;

verus! {

/// A touch report; coordinates are raw digitiser values in `[0, TOUCH_MAX]`.
#[derive(Clone, Copy, Debug, PartialEq, Eq, Structural)]
pub enum TouchEvent {
    Down(i32),
    Up,
    Motion(i32),
}

/// A discrete event handed to the state machine; key codes are Linux input codes.
#[derive(Clone, Copy, Debug, PartialEq, Eq, Structural)]
pub enum InputEvent {
    Touch(TouchEvent),
    KeyPressed(u16),
    KeyReleased(u16),
    FnKeyPressed,
    FnKeyReleased,
}


/// Linux event type of key and button events.
pub const EV_KEY: u16 = 1;
/// Linux event type of absolute-axis events.
pub const EV_ABS: u16 = 3;
/// Linux code of the touch contact button.
pub const BTN_TOUCH: u16 = 0x14a;
/// Linux code of the horizontal absolute axis.
pub const ABS_X: u16 = 0;
/// Linux code of the Fn key.
pub const KEY_FN: u16 = 0x1d0;

/// One kernel input event: its type, code and value.
#[derive(Clone, Copy, Debug, PartialEq, Eq, Structural)]
pub struct RawInputEvent {
    pub event_type: u16,
    pub code: u16,
    pub value: i32,
}

/// The value of the last event of `packet` with type `t` and code `c`, if any.
pub open spec fn last_value(packet: Seq<RawInputEvent>, t: u16, c: u16) -> Option<i32>
    decreases packet.len(),
{
    if packet.len() == 0 {
        None
    } else if packet.last().event_type == t && packet.last().code == c {
        Some(packet.last().value)
    } else {
        last_value(packet.drop_last(), t, c)
    }
}

/// What a packet of touch events, up to its synchronisation report, amounts to.
pub open spec fn touch_of(packet: Seq<RawInputEvent>) -> Option<TouchEvent> {
    match last_value(packet, EV_KEY, BTN_TOUCH) {
        Some(v) => if v == 1 {
            match last_value(packet, EV_ABS, ABS_X) {
                Some(x) => Some(TouchEvent::Down(x)),
                None => None,
            }
        } else {
            Some(TouchEvent::Up)
        },
        None => match last_value(packet, EV_ABS, ABS_X) {
            Some(x) => Some(TouchEvent::Motion(x)),
            None => None,
        },
    }
}

fn find_last(packet: &Vec<RawInputEvent>, t: u16, c: u16) -> (r: Option<i32>)
    ensures
        r == last_value(packet@, t, c),
{
    let mut found: Option<i32> = None;
    let mut i: usize = 0;
    while i < packet.len()
        invariant
            i <= packet@.len(),
            found == last_value(packet@.take(i as int), t, c),
        decreases packet@.len() - i,
    {
        assert(packet@.take(i as int + 1).drop_last() =~= packet@.take(i as int));
        if packet[i].event_type == t && packet[i].code == c {
            found = Some(packet[i].value);
        }
        i = i + 1;
    }
    assert(packet@.take(packet@.len() as int) =~= packet@);
    found
}

/// Decodes one packet of touch events: a contact that starts with a position is a
/// touch-down, a contact that ends is a lift, a position alone is a move.
pub fn decode_touch_packet(packet: &Vec<RawInputEvent>) -> (r: Option<TouchEvent>)
    ensures
        r == touch_of(packet@),
{
    let touch = find_last(packet, EV_KEY, BTN_TOUCH);
    let x = find_last(packet, EV_ABS, ABS_X);
    match touch {
        Some(v) => if v == 1 {
            match x {
                Some(x) => Some(TouchEvent::Down(x)),
                None => None,
            }
        } else {
            Some(TouchEvent::Up)
        },
        None => match x {
            Some(x) => Some(TouchEvent::Motion(x)),
            None => None,
        },
    }
}

/// The event that a keyboard key report stands for: value 1 is a press, 0 a release,
/// and repeats are dropped; the Fn key has events of its own.
pub fn decode_key(code: u16, value: i32) -> (r: Option<InputEvent>)
    ensures
        code == KEY_FN ==> r == (if value == 1 {
            Some(InputEvent::FnKeyPressed)
        } else if value == 0 {
            Some(InputEvent::FnKeyReleased)
        } else {
            None
        }),
        code != KEY_FN ==> r == (if value == 1 {
            Some(InputEvent::KeyPressed(code))
        } else if value == 0 {
            Some(InputEvent::KeyReleased(code))
        } else {
            None
        }),
{
    if code == KEY_FN {
        if value == 1 {
            Some(InputEvent::FnKeyPressed)
        } else if value == 0 {
            Some(InputEvent::FnKeyReleased)
        } else {
            None
        }
    } else if value == 1 {
        Some(InputEvent::KeyPressed(code))
    } else if value == 0 {
        Some(InputEvent::KeyReleased(code))
    } else {
        None
    }
}

} // verus!
