//! Rotation: whether mouse motion turns the camera this frame, and which
//! way.

use vstd::prelude::*;
use crate::capture::CaptureState;

verus! {

/// The switches of the mouse look. The sensitivity is a real number and
/// stays with the host, next to these.
#[derive(Clone, Copy, Debug, PartialEq, Eq, Structural)]
pub struct MouseSettings {
    /// Flip the direction of the horizontal turn.
    pub invert_horizontal: bool,
    /// Flip the direction of the vertical turn.
    pub invert_vertical: bool,
    /// Put the pointer back in the middle of the window after every frame.
    pub lock_cursor_to_middle: bool,
}

/// The factors, each 1 or -1, by which one motion event's horizontal and
/// vertical deltas enter yaw and pitch.
#[derive(Clone, Copy, Debug, PartialEq, Eq, Structural)]
pub struct Turn {
    pub yaw_sign: i8,
    pub pitch_sign: i8,
}

/// What the host does with this frame's mouse motion.
#[derive(Clone, Copy, Debug, PartialEq, Eq, Structural)]
pub struct LookOrder {
    /// `Some`: apply every motion event of the frame, in the order of their
    /// arrival, with these signs. `None`: leave the orientation as it is,
    /// bit for bit.
    pub turn: Option<Turn>,
    /// Ask the window to put the pointer at its centre once the events are
    /// done with.
    pub recenter: bool,
}

impl MouseSettings {
    /// Nothing inverted, the pointer left where it is.
    pub open spec fn standard() -> MouseSettings {
        MouseSettings {
            invert_horizontal: false,
            invert_vertical: false,
            lock_cursor_to_middle: false,
        }
    }
}

impl Default for MouseSettings {
    fn default() -> (r: MouseSettings)
        ensures
            r == MouseSettings::standard(),
    {
        MouseSettings {
            invert_horizontal: false,
            invert_vertical: false,
            lock_cursor_to_middle: false,
        }
    }
}

/// The sign of one axis: without inversion a positive delta lowers the
/// angle, so that moving the mouse up, a negative delta on screen, looks up.
pub open spec fn sign_of(inverted: bool) -> i8 {
    if inverted {
        1i8
    } else {
        -1i8
    }
}

/// What `player_look` answers.
pub open spec fn look_order(settings: MouseSettings, capture: CaptureState) -> LookOrder {
    LookOrder {
        turn: match capture {
            CaptureState::Free => None,
            CaptureState::Captured => Some(
                Turn {
                    yaw_sign: sign_of(settings.invert_horizontal),
                    pitch_sign: sign_of(settings.invert_vertical),
                },
            ),
        },
        recenter: settings.lock_cursor_to_middle,
    }
}

fn sign(inverted: bool) -> (r: i8)
    ensures
        r == sign_of(inverted),
{
    if inverted {
        1
    } else {
        -1
    }
}

/// Decides what this frame's mouse motion does to the camera.
///
/// While the cursor is free nothing turns. While it is captured, the host
/// takes each motion event `(dx, dy)` in turn: it adds
/// `yaw_sign * sensitivity * dx * window_scale` to yaw and
/// `pitch_sign * sensitivity * dy * window_scale` to pitch, both read as
/// degrees, where `window_scale` is the smaller of the window's width and
/// height; it keeps pitch within its bounds; and it builds the orientation
/// anew as yaw about the world's up axis followed by pitch about the right
/// axis. The pointer is put back in the middle whenever the settings say
/// so, captured or not.
pub fn player_look(settings: &MouseSettings, capture: CaptureState) -> (order: LookOrder)
    ensures
        order == look_order(*settings, capture),
        capture == CaptureState::Free ==> order.turn is None,
{
    let turn = match capture {
        CaptureState::Free => None,
        CaptureState::Captured => Some(
            Turn {
                yaw_sign: sign(settings.invert_horizontal),
                pitch_sign: sign(settings.invert_vertical),
            },
        ),
    };
    LookOrder { turn, recenter: settings.lock_cursor_to_middle }
}

} // verus!
