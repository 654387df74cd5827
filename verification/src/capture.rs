//! Cursor capture: a two-valued mode mirrored onto a window's grab mode and
//! cursor visibility.

use vstd::prelude::*;
use crate::keys::{is_held, Key, KeyBindings};

verus! {

/// How a window holds on to the pointer.
#[derive(Clone, Copy, Debug, PartialEq, Eq, Structural)]
pub enum GrabMode {
    /// The pointer may leave the window.
    Released,
    /// The pointer is kept inside the window.
    Confined,
    /// The pointer is pinned in place.
    Locked,
}

/// Whether the camera answers to the mouse.
#[derive(Clone, Copy, Debug, PartialEq, Eq, Structural)]
pub enum CaptureState {
    /// The pointer belongs to the desktop; the camera stands still.
    Free,
    /// The pointer belongs to the camera.
    Captured,
}

/// The two window flags that carry the capture state.
#[derive(Clone, Copy, Debug, PartialEq, Eq, Structural)]
pub struct CursorOptions {
    pub grab_mode: GrabMode,
    pub visible: bool,
}

impl CaptureState {
    /// The other state.
    pub open spec fn flipped(self) -> CaptureState {
        match self {
            CaptureState::Free => CaptureState::Captured,
            CaptureState::Captured => CaptureState::Free,
        }
    }

    /// `Captured` for `true`, `Free` for `false`.
    pub open spec fn of_flag(captured: bool) -> CaptureState {
        if captured {
            CaptureState::Captured
        } else {
            CaptureState::Free
        }
    }

    pub fn flip(self) -> (r: CaptureState)
        ensures
            r == self.flipped(),
    {
        match self {
            CaptureState::Free => CaptureState::Captured,
            CaptureState::Captured => CaptureState::Free,
        }
    }

    pub fn from_flag(captured: bool) -> (r: CaptureState)
        ensures
            r == CaptureState::of_flag(captured),
    {
        if captured {
            CaptureState::Captured
        } else {
            CaptureState::Free
        }
    }
}

impl CursorOptions {
    /// The flags that stand for `state`: grab engaged and cursor hidden when
    /// captured, grab released and cursor shown when free.
    pub open spec fn mirror(state: CaptureState) -> CursorOptions {
        match state {
            CaptureState::Captured => CursorOptions {
                grab_mode: GrabMode::Confined,
                visible: false,
            },
            CaptureState::Free => CursorOptions { grab_mode: GrabMode::Released, visible: true },
        }
    }

    /// The state that the grab mode stands for. Visibility has no say.
    pub open spec fn capture_state(self) -> CaptureState {
        if self.grab_mode == GrabMode::Released {
            CaptureState::Free
        } else {
            CaptureState::Captured
        }
    }

    /// The flags are exactly those that this crate writes for their state.
    pub open spec fn is_mirrored(self) -> bool {
        self == CursorOptions::mirror(self.capture_state())
    }

    pub fn for_state(state: CaptureState) -> (w: CursorOptions)
        ensures
            w == CursorOptions::mirror(state),
    {
        match state {
            CaptureState::Captured => CursorOptions {
                grab_mode: GrabMode::Confined,
                visible: false,
            },
            CaptureState::Free => CursorOptions { grab_mode: GrabMode::Released, visible: true },
        }
    }

    pub fn state(&self) -> (s: CaptureState)
        ensures
            s == self.capture_state(),
    {
        match self.grab_mode {
            GrabMode::Released => CaptureState::Free,
            _ => CaptureState::Captured,
        }
    }
}

/// The capture state as the host's window shows it. Without a window
/// nothing is captured.
pub open spec fn observed(window: Option<CursorOptions>) -> CaptureState {
    match window {
        Some(w) => w.capture_state(),
        None => CaptureState::Free,
    }
}

/// Reads the capture state off the window, if there is one.
pub fn capture_state_of(window: &Option<CursorOptions>) -> (state: CaptureState)
    ensures
        state == observed(*window),
{
    match window {
        Some(w) => w.state(),
        None => CaptureState::Free,
    }
}

/// How a request to change the capture ended.
#[derive(Clone, Copy, Debug, PartialEq, Eq, Structural)]
pub enum CaptureReport {
    /// The window's flags now stand for the requested state.
    Applied,
    /// There was no window to act on. Nothing changed; the host may log it
    /// and go on.
    WindowUnavailable,
}

/// The window after a forced change: flags that mirror the request where
/// there is a window, no window where there was none.
pub open spec fn forced(window: Option<CursorOptions>, captured: bool) -> Option<CursorOptions> {
    match window {
        Some(_) => Some(CursorOptions::mirror(CaptureState::of_flag(captured))),
        None => None,
    }
}

/// The window after one toggle: flags that mirror the state opposite to the
/// one its grab mode stood for.
pub open spec fn toggled(window: Option<CursorOptions>) -> Option<CursorOptions> {
    match window {
        Some(w) => Some(CursorOptions::mirror(w.capture_state().flipped())),
        None => None,
    }
}

/// What a request reports: it is applied exactly where there is a window.
pub open spec fn report_for(window: Option<CursorOptions>) -> CaptureReport {
    match window {
        Some(_) => CaptureReport::Applied,
        None => CaptureReport::WindowUnavailable,
    }
}

/// Drives the window's grab mode and cursor visibility to the requested
/// state, whatever they were. Without a window nothing happens and the
/// report says so.
pub fn set_captured(window: &mut Option<CursorOptions>, captured: bool) -> (report: CaptureReport)
    ensures
        *final(window) == forced(*old(window), captured),
        report == report_for(*old(window)),
{
    match *window {
        Some(_) => {
            *window = Some(CursorOptions::for_state(CaptureState::from_flag(captured)));
            CaptureReport::Applied
        },
        None => CaptureReport::WindowUnavailable,
    }
}

/// Reads the state off the window's grab mode and drives the window to the
/// other one. Call it once per key press, not once per frame in which the
/// key is down.
pub fn toggle(window: &mut Option<CursorOptions>) -> (report: CaptureReport)
    ensures
        *final(window) == toggled(*old(window)),
        report == report_for(*old(window)),
{
    match *window {
        Some(w) => {
            *window = Some(CursorOptions::for_state(w.state().flip()));
            CaptureReport::Applied
        },
        None => CaptureReport::WindowUnavailable,
    }
}

/// Toggles the capture if the toggle key went down this frame.
///
/// `just_pressed` lists the keys that went from up to down since the last
/// frame. The window is toggled once if the bound key is among them, however
/// often it is listed, and the report of that toggle is returned; otherwise
/// the window is left alone and the answer is `None`.
pub fn cursor_grab_toggle(
    just_pressed: &[Key],
    bindings: &KeyBindings,
    window: &mut Option<CursorOptions>,
) -> (report: Option<CaptureReport>)
    ensures
        just_pressed@.contains(bindings.toggle_grab_cursor) ==> *final(window) == toggled(
            *old(window),
        ) && report == Some(report_for(*old(window))),
        !just_pressed@.contains(bindings.toggle_grab_cursor) ==> *final(window) == *old(window)
            && report is None,
{
    if is_held(just_pressed, bindings.toggle_grab_cursor) {
        Some(toggle(window))
    } else {
        None
    }
}

/// Captures the cursor when the application starts.
pub fn initial_grab_cursor(window: &mut Option<CursorOptions>) -> (report: CaptureReport)
    ensures
        *final(window) == forced(*old(window), true),
        report == report_for(*old(window)),
{
    set_captured(window, true)
}

/// The one-shot capture on the first camera under control: armed until it
/// has gone off.
#[derive(Clone, Copy, Debug, PartialEq, Eq, Structural)]
pub struct SpawnGrab {
    pub armed: bool,
}

impl SpawnGrab {
    /// An armed latch.
    pub fn new() -> (latch: SpawnGrab)
        ensures
            latch.armed,
    {
        SpawnGrab { armed: true }
    }

    /// Whether cameras that have just appeared set the capture off.
    pub open spec fn fires(self, added: usize) -> bool {
        self.armed && added > 0
    }
}

/// Captures the cursor the first time that a camera under control appears,
/// and never again. `added` is the number of cameras that were tagged for
/// control since the last call.
///
/// While the latch is armed and cameras were added, the window is driven to
/// the captured state, the latch is disarmed and the report of the capture
/// is returned; that the window was missing does not arm it again. In every
/// other case nothing changes and the answer is `None`.
pub fn initial_grab_on_flycam_spawn(
    latch: &mut SpawnGrab,
    added: usize,
    window: &mut Option<CursorOptions>,
) -> (report: Option<CaptureReport>)
    ensures
        old(latch).fires(added) ==> *final(window) == forced(*old(window), true)
            && !final(latch).armed
            && report == Some(report_for(*old(window))),
        !old(latch).fires(added) ==> *final(window) == *old(window) && *final(latch) == *old(latch)
            && report is None,
{
    if latch.armed && added > 0 {
        latch.armed = false;
        Some(set_captured(window, true))
    } else {
        None
    }
}

/// Toggling twice brings back the grab mode and the visibility that the
/// window had, provided they mirrored a capture state to begin with. (Flags
/// that mirror none, such as a locked pointer or a hidden cursor on a
/// released one, come back as the mirror of their state instead.)
pub proof fn lemma_toggle_twice_restores(window: Option<CursorOptions>)
    requires
        window matches Some(w) ==> w.is_mirrored(),
    ensures
        toggled(toggled(window)) == window,
{
}

/// One toggle always changes the observed state, and two always bring it
/// back, whatever the flags were.
pub proof fn lemma_toggle_flips_state(window: Option<CursorOptions>)
    requires
        window is Some,
    ensures
        observed(toggled(window)) == observed(window).flipped(),
        observed(toggled(toggled(window))) == observed(window),
{
}

/// Forcing a state is idempotent, and the state it leaves is the one asked
/// for.
pub proof fn lemma_set_captured_idempotent(window: Option<CursorOptions>, captured: bool)
    ensures
        forced(forced(window, captured), captured) == forced(window, captured),
        window is Some ==> observed(forced(window, captured)) == CaptureState::of_flag(captured),
        forced(window, captured) matches Some(w) ==> w.is_mirrored(),
{
}

} // verus!
