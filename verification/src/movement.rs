//! Translation: from the keys that are held to the direction in which the
//! camera is pushed.

use vstd::prelude::*;
use crate::capture::CaptureState;
use crate::keys::{Key, KeyBindings, Motion};
use crate::look::{look_order, MouseSettings};

verus! {

/// The direction of travel before it is scaled to unit length, written in
/// the camera's own frame: so many times its forward axis, plus so many
/// times its right axis, plus so many times the world's up axis.
/// `player_move` only ever hands out counts of -1, 0 and 1.
#[derive(Clone, Copy, Debug, PartialEq, Eq, Structural)]
pub struct Heading {
    pub forward: i8,
    pub right: i8,
    pub up: i8,
}

impl Heading {
    /// No push at all.
    pub open spec fn zero() -> Heading {
        Heading { forward: 0, right: 0, up: 0 }
    }

    pub open spec fn is_zero(self) -> bool {
        self == Heading::zero()
    }

    /// Whether the camera stays where it is.
    pub fn stands_still(&self) -> (r: bool)
        ensures
            r == self.is_zero(),
    {
        self.forward == 0 && self.right == 0 && self.up == 0
    }
}

/// The key bound to `motion` is held, and no earlier binding of the same key
/// has taken it.
pub open spec fn pushed(keys: Seq<Key>, bindings: KeyBindings, motion: Motion) -> bool {
    keys.contains(bindings.key_of(motion)) && bindings.reaches(motion)
}

/// One push each way along an axis: they cancel when both are there.
pub open spec fn axis(toward: bool, away: bool) -> i8 {
    if toward && !away {
        1i8
    } else if away && !toward {
        -1i8
    } else {
        0i8
    }
}

/// The sum of the pushes of all held keys. `keys` is read as a set: a key
/// that is listed twice pushes once.
pub open spec fn heading_of(keys: Seq<Key>, bindings: KeyBindings) -> Heading {
    Heading {
        forward: axis(
            pushed(keys, bindings, Motion::Forward),
            pushed(keys, bindings, Motion::Backward),
        ),
        right: axis(pushed(keys, bindings, Motion::Right), pushed(keys, bindings, Motion::Left)),
        up: axis(pushed(keys, bindings, Motion::Ascend), pushed(keys, bindings, Motion::Descend)),
    }
}

/// What `player_move` answers: the held keys count only while the cursor is
/// captured.
pub open spec fn move_order(
    keys: Seq<Key>,
    bindings: KeyBindings,
    capture: CaptureState,
) -> Heading {
    match capture {
        CaptureState::Free => Heading::zero(),
        CaptureState::Captured => heading_of(keys, bindings),
    }
}

/// Some key among the first `n` of `keys` stands for `motion`.
spec fn seen(keys: Seq<Key>, bindings: KeyBindings, n: int, motion: Motion) -> bool {
    exists|j: int| 0 <= j < n && #[trigger] bindings.motion_of(keys[j]) == Some(motion)
}

proof fn lemma_seen_all_is_pushed(keys: Seq<Key>, bindings: KeyBindings, motion: Motion)
    ensures
        seen(keys, bindings, keys.len() as int, motion) == pushed(keys, bindings, motion),
{
    if pushed(keys, bindings, motion) {
        let j = choose|j: int| 0 <= j < keys.len() && keys[j] == bindings.key_of(motion);
        assert(bindings.motion_of(keys[j]) == Some(motion));
    }
}

fn axis_of(toward: bool, away: bool) -> (r: i8)
    ensures
        r == axis(toward, away),
{
    if toward && !away {
        1
    } else if away && !toward {
        -1
    } else {
        0
    }
}

/// Decides where the held keys push the camera this frame.
///
/// While the cursor is free the answer is the zero heading, whatever is
/// held. While it is captured, every held key that is bound to a motion
/// pushes once along its axis, and opposite pushes cancel. The host turns a
/// heading that is not zero into a unit vector over the camera's axes and
/// moves by that vector times speed times elapsed time; on the zero heading
/// it leaves the position alone.
pub fn player_move(
    keys: &[Key],
    bindings: &KeyBindings,
    capture: CaptureState,
) -> (heading: Heading)
    ensures
        heading == move_order(keys@, *bindings, capture),
        capture == CaptureState::Free ==> heading.is_zero(),
        -1 <= heading.forward <= 1,
        -1 <= heading.right <= 1,
        -1 <= heading.up <= 1,
{
    match capture {
        CaptureState::Free => Heading { forward: 0, right: 0, up: 0 },
        CaptureState::Captured => {
            let mut forward = false;
            let mut backward = false;
            let mut right = false;
            let mut left = false;
            let mut ascend = false;
            let mut descend = false;
            let mut i: usize = 0;
            while i < keys.len()
                invariant
                    i <= keys.len(),
                    forward == seen(keys@, *bindings, i as int, Motion::Forward),
                    backward == seen(keys@, *bindings, i as int, Motion::Backward),
                    right == seen(keys@, *bindings, i as int, Motion::Right),
                    left == seen(keys@, *bindings, i as int, Motion::Left),
                    ascend == seen(keys@, *bindings, i as int, Motion::Ascend),
                    descend == seen(keys@, *bindings, i as int, Motion::Descend),
                decreases keys.len() - i,
            {
                let hit = bindings.motion(keys[i]);
                assert(bindings.motion_of(keys@[i as int]) == hit);
                match hit {
                    Some(Motion::Forward) => {
                        forward = true;
                    },
                    Some(Motion::Backward) => {
                        backward = true;
                    },
                    Some(Motion::Right) => {
                        right = true;
                    },
                    Some(Motion::Left) => {
                        left = true;
                    },
                    Some(Motion::Ascend) => {
                        ascend = true;
                    },
                    Some(Motion::Descend) => {
                        descend = true;
                    },
                    None => {},
                }
                i += 1;
            }
            proof {
                lemma_seen_all_is_pushed(keys@, *bindings, Motion::Forward);
                lemma_seen_all_is_pushed(keys@, *bindings, Motion::Backward);
                lemma_seen_all_is_pushed(keys@, *bindings, Motion::Right);
                lemma_seen_all_is_pushed(keys@, *bindings, Motion::Left);
                lemma_seen_all_is_pushed(keys@, *bindings, Motion::Ascend);
                lemma_seen_all_is_pushed(keys@, *bindings, Motion::Descend);
            }
            Heading {
                forward: axis_of(forward, backward),
                right: axis_of(right, left),
                up: axis_of(ascend, descend),
            }
        },
    }
}

/// For each axis, the keys that push along it are either both held or both
/// left alone.
pub open spec fn balanced(keys: Seq<Key>, bindings: KeyBindings) -> bool {
    &&& pushed(keys, bindings, Motion::Forward) == pushed(keys, bindings, Motion::Backward)
    &&& pushed(keys, bindings, Motion::Right) == pushed(keys, bindings, Motion::Left)
    &&& pushed(keys, bindings, Motion::Ascend) == pushed(keys, bindings, Motion::Descend)
}

/// The camera stands still exactly when the cursor is free or the held keys
/// are balanced: opposite keys cancel, and nothing else does.
pub proof fn lemma_still_iff_balanced(keys: Seq<Key>, bindings: KeyBindings, capture: CaptureState)
    ensures
        move_order(keys, bindings, capture).is_zero() <==> capture == CaptureState::Free
            || balanced(keys, bindings),
{
}

/// While the cursor is free the camera keeps both its position and its
/// orientation, whatever the keys, the bindings and the mouse settings are.
pub proof fn lemma_free_cursor_freezes_camera(
    keys: Seq<Key>,
    bindings: KeyBindings,
    settings: MouseSettings,
)
    ensures
        move_order(keys, bindings, CaptureState::Free).is_zero(),
        look_order(settings, CaptureState::Free).turn is None,
{
}

/// With no bound key held the camera stands still.
pub proof fn lemma_no_bound_key_stands_still(
    keys: Seq<Key>,
    bindings: KeyBindings,
    capture: CaptureState,
)
    requires
        forall|k: Key| keys.contains(k) ==> bindings.motion_of(k) is None,
    ensures
        move_order(keys, bindings, capture).is_zero(),
{
    assert forall|m: Motion| !pushed(keys, bindings, m) by {
        if keys.contains(bindings.key_of(m)) {
            assert(bindings.motion_of(bindings.key_of(m)) is None);
        }
    }
}

/// Neither the order of the keys nor the number of times one is listed
/// changes anything: two lists that hold the same keys give the same
/// heading.
pub proof fn lemma_heading_reads_a_set(
    keys: Seq<Key>,
    other: Seq<Key>,
    bindings: KeyBindings,
    capture: CaptureState,
)
    requires
        forall|k: Key| keys.contains(k) == other.contains(k),
    ensures
        move_order(keys, bindings, capture) == move_order(other, bindings, capture),
{
}

} // verus!
