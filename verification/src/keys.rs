//! Keys and the bindings from keys to camera actions.

use vstd::prelude::*;

verus! {

/// A key of the keyboard, named by its usage id on the USB HID keyboard page.
/// A host gives a key that the page lacks any number from 0x100 up. The
/// crate only ever compares keys; the numbering matters to the defaults
/// alone.
pub type Key = u32;

pub const KEY_A: Key = 0x04;

pub const KEY_D: Key = 0x07;

pub const KEY_S: Key = 0x16;

pub const KEY_W: Key = 0x1A;

pub const KEY_ESCAPE: Key = 0x29;

pub const KEY_SPACE: Key = 0x2C;

pub const KEY_SHIFT_LEFT: Key = 0xE1;

/// One of the six ways the camera can be pushed.
#[derive(Clone, Copy, Debug, PartialEq, Eq, Structural)]
pub enum Motion {
    Forward,
    Backward,
    Right,
    Left,
    Ascend,
    Descend,
}

/// Which key does what.
#[derive(Clone, Copy, Debug, PartialEq, Eq, Structural)]
pub struct KeyBindings {
    pub move_forward: Key,
    pub move_backward: Key,
    pub move_left: Key,
    pub move_right: Key,
    pub move_ascend: Key,
    pub move_descend: Key,
    pub toggle_grab_cursor: Key,
}

impl KeyBindings {
    /// W, S, A, D to move, Space and left Shift to rise and sink, Escape to
    /// toggle the capture.
    pub open spec fn standard() -> KeyBindings {
        KeyBindings {
            move_forward: KEY_W,
            move_backward: KEY_S,
            move_left: KEY_A,
            move_right: KEY_D,
            move_ascend: KEY_SPACE,
            move_descend: KEY_SHIFT_LEFT,
            toggle_grab_cursor: KEY_ESCAPE,
        }
    }

    /// The key bound to `motion`.
    pub open spec fn key_of(self, motion: Motion) -> Key {
        match motion {
            Motion::Forward => self.move_forward,
            Motion::Backward => self.move_backward,
            Motion::Right => self.move_right,
            Motion::Left => self.move_left,
            Motion::Ascend => self.move_ascend,
            Motion::Descend => self.move_descend,
        }
    }

    /// What `key` does. Where one key is bound to several motions, the first
    /// in the order forward, backward, right, left, ascend, descend wins.
    pub open spec fn motion_of(self, key: Key) -> Option<Motion> {
        if key == self.move_forward {
            Some(Motion::Forward)
        } else if key == self.move_backward {
            Some(Motion::Backward)
        } else if key == self.move_right {
            Some(Motion::Right)
        } else if key == self.move_left {
            Some(Motion::Left)
        } else if key == self.move_ascend {
            Some(Motion::Ascend)
        } else if key == self.move_descend {
            Some(Motion::Descend)
        } else {
            None
        }
    }

    /// Holding the key bound to `motion` pushes the camera that way: no
    /// earlier motion has taken the same key.
    pub open spec fn reaches(self, motion: Motion) -> bool {
        self.motion_of(self.key_of(motion)) == Some(motion)
    }

    pub fn motion(&self, key: Key) -> (r: Option<Motion>)
        ensures
            r == self.motion_of(key),
    {
        if key == self.move_forward {
            Some(Motion::Forward)
        } else if key == self.move_backward {
            Some(Motion::Backward)
        } else if key == self.move_right {
            Some(Motion::Right)
        } else if key == self.move_left {
            Some(Motion::Left)
        } else if key == self.move_ascend {
            Some(Motion::Ascend)
        } else if key == self.move_descend {
            Some(Motion::Descend)
        } else {
            None
        }
    }
}

impl Default for KeyBindings {
    fn default() -> (r: KeyBindings)
        ensures
            r == KeyBindings::standard(),
    {
        KeyBindings {
            move_forward: KEY_W,
            move_backward: KEY_S,
            move_left: KEY_A,
            move_right: KEY_D,
            move_ascend: KEY_SPACE,
            move_descend: KEY_SHIFT_LEFT,
            toggle_grab_cursor: KEY_ESCAPE,
        }
    }
}

/// Whether `key` is among `keys`.
pub fn is_held(keys: &[Key], key: Key) -> (r: bool)
    ensures
        r == keys@.contains(key),
{
    let mut i: usize = 0;
    while i < keys.len()
        invariant
            i <= keys.len(),
            forall|j: int| 0 <= j < i ==> keys@[j] != key,
        decreases keys.len() - i,
    {
        if keys[i] == key {
            return true;
        }
        i += 1;
    }
    false
}

} // verus!
